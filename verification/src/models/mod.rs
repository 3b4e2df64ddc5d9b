//! The job model and the error type shared by the whole library.

pub(crate) mod error;
pub(crate) mod job;

pub use error::{starts_with, IronForgeError, Result};
pub use job::{
    backoff_delay_ms, backoff_never_shrinks, score_of, score_stays_in_tier,
    score_respects_priority, CreateJobRequest, CreateJobResponse, Job, JobStatus, JobView, Priority, BASE_DELAY_MS,
    DEFAULT_MAX_RETRIES, DEFAULT_TIMEOUT_MS, MAX_DELAY_MS, TIER_WIDTH,
};
