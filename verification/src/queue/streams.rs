//! The names that a backend on append-only streams uses: one stream for
//! each priority, read by a named consumer of a consumer group.

use crate::foreign::{hyphenated, id_text};
use crate::models::job::Priority;
use vstd::prelude::*;
use vstd::string::StringExecFns;

verus! {

/// The name of the stream of each priority.
pub open spec fn stream_of(priority: Priority) -> Seq<char> {
    match priority {
        Priority::Critical => "queue:stream:critical"@,
        Priority::High => "queue:stream:high"@,
        Priority::Medium => "queue:stream:normal"@,
        Priority::Low => "queue:stream:low"@,
    }
}

/// A backend on streams, as far as its names go.
#[derive(Debug)]
pub struct RedisStreamBackend {
    pub consumer_group: String,
    pub consumer_name: String,
}

impl RedisStreamBackend {
    /// A backend that reads as `consumer_name` of `consumer_group`.
    pub fn new(consumer_group: &str, consumer_name: &str) -> (backend: RedisStreamBackend)
        ensures
            backend.consumer_group@ == consumer_group@,
            backend.consumer_name@ == consumer_name@,
    {
        RedisStreamBackend {
            consumer_group: String::from_str(consumer_group),
            consumer_name: String::from_str(consumer_name),
        }
    }

    pub fn stream_key_critical() -> (key: &'static str)
        ensures
            key@ == stream_of(Priority::Critical),
    {
        "queue:stream:critical"
    }

    pub fn stream_key_high() -> (key: &'static str)
        ensures
            key@ == stream_of(Priority::High),
    {
        "queue:stream:high"
    }

    pub fn stream_key_normal() -> (key: &'static str)
        ensures
            key@ == stream_of(Priority::Medium),
    {
        "queue:stream:normal"
    }

    pub fn stream_key_low() -> (key: &'static str)
        ensures
            key@ == stream_of(Priority::Low),
    {
        "queue:stream:low"
    }

    /// The key of the set of active jobs.
    pub fn active_jobs_key() -> (key: &'static str)
        ensures
            key@ == "active:stream:jobs"@,
    {
        "active:stream:jobs"
    }

    /// The key of the dead-letter stream.
    pub fn dlq_key() -> (key: &'static str)
        ensures
            key@ == "queue:stream:dlq"@,
    {
        "queue:stream:dlq"
    }

    /// The key of the record of `job_id`: `jobs:data:{id}`.
    pub fn job_data_key(job_id: u128) -> (key: String)
        ensures
            key@ == "jobs:data:"@ + hyphenated(job_id),
    {
        String::from_str("jobs:data:").concat(id_text(job_id).as_str())
    }

    /// The stream that holds the jobs of `priority`.
    pub fn get_stream_for_priority(priority: Priority) -> (key: &'static str)
        ensures
            key@ == stream_of(priority),
    {
        match priority {
            Priority::Critical => RedisStreamBackend::stream_key_critical(),
            Priority::High => RedisStreamBackend::stream_key_high(),
            Priority::Medium => RedisStreamBackend::stream_key_normal(),
            Priority::Low => RedisStreamBackend::stream_key_low(),
        }
    }

    /// The streams in the order in which a dequeue looks at them: the most
    /// urgent first.
    pub fn streams_by_priority() -> (keys: Vec<&'static str>)
        ensures
            keys.len() == 4,
            keys[0]@ == stream_of(Priority::Critical),
            keys[1]@ == stream_of(Priority::High),
            keys[2]@ == stream_of(Priority::Medium),
            keys[3]@ == stream_of(Priority::Low),
    {
        let mut keys: Vec<&'static str> = Vec::new();
        keys.push(RedisStreamBackend::stream_key_critical());
        keys.push(RedisStreamBackend::stream_key_high());
        keys.push(RedisStreamBackend::stream_key_normal());
        keys.push(RedisStreamBackend::stream_key_low());
        keys
    }
}

} // verus!
