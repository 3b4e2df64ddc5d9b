//! Jobs: identity, payload, priority, retry bookkeeping, status and timing.

use crate::foreign::{clone_payload, fresh_id, is_random_id, now_millis};
use std::collections::HashMap;
use vstd::arithmetic::power2::{lemma2_to64, lemma_pow2_strictly_increases, pow2};
use vstd::prelude::*;

verus! {

/// Urgency of a job. `Critical` is served first, `Low` last.
#[derive(Debug, Clone, Copy, PartialEq, Eq, Structural)]
pub enum Priority {
    Critical,
    High,
    Medium,
    Low,
}

/// Where a job stands in its life.
#[derive(Debug, Clone, Copy, PartialEq, Eq, Structural)]
pub enum JobStatus {
    Queued,
    Running,
    Completed,
    Failed,
    DeadLetter,
}

/// Width of one priority tier on the score axis.
pub const TIER_WIDTH: i64 = 1000;

/// Delay before the first retry, in milliseconds.
pub const BASE_DELAY_MS: u64 = 1000;

/// Longest delay between two attempts, in milliseconds (five minutes).
pub const MAX_DELAY_MS: u64 = 300_000;

/// Retries granted to a job that asks for no other number.
pub const DEFAULT_MAX_RETRIES: u8 = 3;

/// Time granted to one attempt of a job that asks for no other, in milliseconds.
pub const DEFAULT_TIMEOUT_MS: u64 = 30_000;

impl JobStatus {
    /// The name of the status as messages spell it.
    pub open spec fn spec_name(self) -> Seq<char> {
        match self {
            JobStatus::Queued => "Queued"@,
            JobStatus::Running => "Running"@,
            JobStatus::Completed => "Completed"@,
            JobStatus::Failed => "Failed"@,
            JobStatus::DeadLetter => "DeadLetter"@,
        }
    }

    /// The name of the status on the wire: lower case.
    pub open spec fn spec_wire_name(self) -> Seq<char> {
        match self {
            JobStatus::Queued => "queued"@,
            JobStatus::Running => "running"@,
            JobStatus::Completed => "completed"@,
            JobStatus::Failed => "failed"@,
            JobStatus::DeadLetter => "deadletter"@,
        }
    }

    /// The name of the status as messages spell it.
    pub fn name(&self) -> (text: &'static str)
        ensures
            text@ == self.spec_name(),
    {
        match self {
            JobStatus::Queued => "Queued",
            JobStatus::Running => "Running",
            JobStatus::Completed => "Completed",
            JobStatus::Failed => "Failed",
            JobStatus::DeadLetter => "DeadLetter",
        }
    }

    /// The name of the status on the wire: lower case.
    pub fn wire_name(&self) -> (text: &'static str)
        ensures
            text@ == self.spec_wire_name(),
    {
        match self {
            JobStatus::Queued => "queued",
            JobStatus::Running => "running",
            JobStatus::Completed => "completed",
            JobStatus::Failed => "failed",
            JobStatus::DeadLetter => "deadletter",
        }
    }

    /// Whether a job in this status has reached the end of its life.
    pub open spec fn is_terminal(self) -> bool {
        self == JobStatus::Completed || self == JobStatus::DeadLetter
    }
}

impl Priority {
    /// The name of the priority on the wire: lower case.
    pub open spec fn spec_wire_name(self) -> Seq<char> {
        match self {
            Priority::Critical => "critical"@,
            Priority::High => "high"@,
            Priority::Medium => "medium"@,
            Priority::Low => "low"@,
        }
    }

    /// The name of the priority on the wire: lower case.
    pub fn wire_name(&self) -> (text: &'static str)
        ensures
            text@ == self.spec_wire_name(),
    {
        match self {
            Priority::Critical => "critical",
            Priority::High => "high",
            Priority::Medium => "medium",
            Priority::Low => "low",
        }
    }

    /// Position of the tier among the four: 0 for `Critical` up to 3 for `Low`.
    pub open spec fn rank(self) -> int {
        match self {
            Priority::Critical => 0,
            Priority::High => 1,
            Priority::Medium => 2,
            Priority::Low => 3,
        }
    }

    /// The lowest score of the tier: `rank * 1000`.
    pub open spec fn tier_score(self) -> int {
        self.rank() * 1000
    }

    /// The base score of the tier; a smaller score is served earlier.
    pub fn to_score(&self) -> (score: i64)
        ensures
            score == self.tier_score(),
    {
        match self {
            Priority::Critical => 0,
            Priority::High => 1000,
            Priority::Medium => 2000,
            Priority::Low => 3000,
        }
    }
}

/// The delay that follows a failure which left the job with `retry_count`
/// retries on its record: `min(1000 * 2^retry_count, 300000)` milliseconds.
pub open spec fn backoff_delay_ms(retry_count: u8) -> int {
    if 1000 * pow2(retry_count as nat) <= 300_000 {
        (1000 * pow2(retry_count as nat)) as int
    } else {
        300_000
    }
}

/// The ordering score of a job of priority `priority` created at
/// `created_at` milliseconds: the tier's base score plus the millisecond
/// within the second, which lies in `0..1000` for every timestamp.
pub open spec fn score_of(priority: Priority, created_at: i64) -> int {
    priority.tier_score() + created_at as int % 1000
}

/// A job as contracts see it: texts as sequences of characters, the
/// metadata as a map.
pub struct JobView {
    pub id: u128,
    pub kind: Seq<char>,
    pub payload: serde_json::Value,
    pub priority: Priority,
    pub status: JobStatus,
    pub max_retries: u8,
    pub retry_count: u8,
    pub progress: u8,
    pub created_at: i64,
    pub scheduled_for: Option<i64>,
    pub timeout_ms: u64,
    pub metadata: Map<String, String>,
}

/// A unit of work and its bookkeeping.
#[derive(Debug)]
pub struct Job {
    /// Identifier, stable across retries: the 128 bits of a UUID.
    pub id: u128,
    /// Routing tag for handlers, such as `email.send`.
    pub kind: String,
    /// The work itself, opaque to the engine.
    pub payload: serde_json::Value,
    pub priority: Priority,
    pub status: JobStatus,
    /// Attempts granted before the job goes to the dead-letter queue.
    pub max_retries: u8,
    /// Failed attempts so far.
    pub retry_count: u8,
    /// Advisory progress, 0 to 100.
    pub progress: u8,
    /// Creation time, in milliseconds since the Unix epoch.
    pub created_at: i64,
    /// Reserved for delayed jobs, in milliseconds since the Unix epoch.
    pub scheduled_for: Option<i64>,
    /// Wall-clock limit of one attempt, in milliseconds.
    pub timeout_ms: u64,
    /// User tags.
    pub metadata: HashMap<String, String>,
}

impl View for Job {
    type V = JobView;

    open spec fn view(&self) -> JobView {
        JobView {
            id: self.id,
            kind: self.kind@,
            payload: self.payload,
            priority: self.priority,
            status: self.status,
            max_retries: self.max_retries,
            retry_count: self.retry_count,
            progress: self.progress,
            created_at: self.created_at,
            scheduled_for: self.scheduled_for,
            timeout_ms: self.timeout_ms,
            metadata: self.metadata@,
        }
    }
}

impl JobView {
    /// What a job looks like when it is first made: queued, untried, with
    /// the default limits and no tags.
    pub open spec fn fresh(id: u128, created_at: i64, kind: Seq<char>, payload: serde_json::Value)
        -> JobView {
        JobView {
            id,
            kind,
            payload,
            priority: Priority::Medium,
            status: JobStatus::Queued,
            max_retries: 3,
            retry_count: 0,
            progress: 0,
            created_at,
            scheduled_for: None,
            timeout_ms: 30_000,
            metadata: Map::empty(),
        }
    }

    /// The delay owed after a failure, from the retries on record.
    pub open spec fn backoff_delay(self) -> int {
        backoff_delay_ms(self.retry_count)
    }

    /// The ordering score of the job.
    pub open spec fn score(self) -> int {
        score_of(self.priority, self.created_at)
    }
}

impl Clone for Job {
    fn clone(&self) -> (copy: Job)
        ensures
            copy@ == self@,
    {
        Job {
            id: self.id,
            kind: self.kind.clone(),
            payload: clone_payload(&self.payload),
            priority: self.priority,
            status: self.status,
            max_retries: self.max_retries,
            retry_count: self.retry_count,
            progress: self.progress,
            created_at: self.created_at,
            scheduled_for: self.scheduled_for,
            timeout_ms: self.timeout_ms,
            metadata: self.metadata.clone(),
        }
    }
}

impl Job {
    /// A new job with a random identifier, created now.
    ///
    /// Identifier and time come from outside, so two calls differ; all the
    /// rest is as `with_identity` makes it.
    pub fn new(kind: String, payload: serde_json::Value) -> (job: Job)
        ensures
            job@ == JobView::fresh(job.id, job.created_at, kind@, payload),
            is_random_id(job.id),
            job.created_at >= 0,
    {
        let id = fresh_id();
        let created_at = now_millis();
        Job::with_identity(id, created_at, kind, payload)
    }

    /// A new job with the given identifier and creation time: queued,
    /// untried, `Medium`, three retries, thirty seconds per attempt, no tags.
    pub fn with_identity(id: u128, created_at: i64, kind: String, payload: serde_json::Value)
        -> (job: Job)
        ensures
            job@ == JobView::fresh(id, created_at, kind@, payload),
    {
        Job {
            id,
            kind,
            payload,
            priority: Priority::Medium,
            status: JobStatus::Queued,
            max_retries: DEFAULT_MAX_RETRIES,
            retry_count: 0,
            progress: 0,
            created_at,
            scheduled_for: None,
            timeout_ms: DEFAULT_TIMEOUT_MS,
            metadata: HashMap::new(),
        }
    }

    /// The exponential backoff owed after a failure:
    /// `min(1000 * 2^retry_count, 300000)` milliseconds.
    pub fn calculate_backoff_delay(&self) -> (delay: u64)
        ensures
            delay == self@.backoff_delay(),
            BASE_DELAY_MS <= delay <= MAX_DELAY_MS,
    {
        proof {
            lemma2_to64();
            if self.retry_count >= 9 {
                if self.retry_count > 9 {
                    lemma_pow2_strictly_increases(9, self.retry_count as nat);
                }
            }
        }
        if self.retry_count >= 9 {
            MAX_DELAY_MS
        } else {
            let mut factor: u64 = 1;
            let mut i: u8 = 0;
            while i < self.retry_count
                invariant
                    i <= self.retry_count < 9,
                    factor == pow2(i as nat),
                    factor <= 256,
                decreases self.retry_count - i,
            {
                proof {
                    lemma2_to64();
                }
                factor = factor * 2;
                i = i + 1;
            }
            BASE_DELAY_MS * factor
        }
    }

    /// The ordering score in the store's sorted index: the tier's base score
    /// plus the millisecond within the second of the creation time.
    pub fn calculate_redis_score(&self) -> (score: i64)
        ensures
            score == self@.score(),
    {
        let within_second: i64 = self.created_at % TIER_WIDTH;
        let jitter: i64 = if within_second < 0 {
            within_second + TIER_WIDTH
        } else {
            within_second
        };
        self.priority.to_score() + jitter
    }
}

/// What a producer sends to have a job made. What is left out takes the
/// default of a fresh job.
#[derive(Debug)]
pub struct CreateJobRequest {
    pub kind: String,
    pub payload: serde_json::Value,
    pub priority: Option<Priority>,
    pub max_retries: Option<u8>,
    pub timeout_ms: Option<u64>,
    pub metadata: HashMap<String, String>,
}

/// What a producer gets back for a job that was made.
#[derive(Debug, Clone, Copy, PartialEq, Eq, Structural)]
pub struct CreateJobResponse {
    pub id: u128,
    pub status: JobStatus,
    pub created_at: i64,
}

impl CreateJobRequest {
    /// The job that this request asks for, once it has the identifier `id`
    /// and the creation time `created_at`: a fresh job of the request's
    /// kind and payload, with each option that the request names in place
    /// of the default, and with the request's tags.
    pub open spec fn job(self, id: u128, created_at: i64) -> JobView {
        JobView {
            priority: match self.priority {
                Some(priority) => priority,
                None => Priority::Medium,
            },
            max_retries: match self.max_retries {
                Some(max_retries) => max_retries,
                None => 3,
            },
            timeout_ms: match self.timeout_ms {
                Some(timeout_ms) => timeout_ms,
                None => 30_000,
            },
            metadata: self.metadata@,
            ..JobView::fresh(id, created_at, self.kind@, self.payload)
        }
    }

    /// Makes the job that this request asks for, under the given
    /// identifier and creation time.
    pub fn into_job(self, id: u128, created_at: i64) -> (job: Job)
        ensures
            job@ == self.job(id, created_at),
    {
        let mut job = Job::with_identity(id, created_at, self.kind, self.payload);
        match self.priority {
            Some(priority) => {
                job.priority = priority;
            },
            None => {},
        }
        match self.max_retries {
            Some(max_retries) => {
                job.max_retries = max_retries;
            },
            None => {},
        }
        match self.timeout_ms {
            Some(timeout_ms) => {
                job.timeout_ms = timeout_ms;
            },
            None => {},
        }
        job.metadata = self.metadata;
        job
    }
}

/// A score never leaves the tier of its priority, whatever the timestamp:
/// it lies in `tier_score .. tier_score + 1000`.
pub proof fn score_stays_in_tier(priority: Priority, created_at: i64)
    ensures
        priority.tier_score() <= score_of(priority, created_at) < priority.tier_score() + 1000,
{
}

/// Score monotonicity: a more urgent priority has the smaller score, for
/// any two timestamps.
pub proof fn score_respects_priority(
    urgent: Priority,
    urgent_created_at: i64,
    other: Priority,
    other_created_at: i64,
)
    requires
        urgent.rank() < other.rank(),
    ensures
        score_of(urgent, urgent_created_at) < score_of(other, other_created_at),
{
    score_stays_in_tier(urgent, urgent_created_at);
    score_stays_in_tier(other, other_created_at);
}

/// The backoff never shrinks from one failure to the next and never
/// passes five minutes.
pub proof fn backoff_never_shrinks(earlier: u8, later: u8)
    requires
        earlier <= later,
    ensures
        1000 <= backoff_delay_ms(earlier) <= backoff_delay_ms(later) <= 300_000,
{
    lemma2_to64();
    if earlier < later {
        lemma_pow2_strictly_increases(earlier as nat, later as nat);
    }
    assert(pow2(earlier as nat) >= 1) by {
        if earlier > 0 {
            lemma_pow2_strictly_increases(0, earlier as nat);
        }
    }
}

} // verus!
