//! IronForge: the verified core of a priority job queue with retries,
//! exponential backoff and a dead-letter queue.
//!
//! The library decides; it does no input or output. `models` holds the job
//! and its scores and delays, `queue` the store's contents and what each
//! operation does to them and sends for them, `worker` the state machine
//! of a worker, `api` the answers of the HTTP endpoints and `metrics` the
//! samples of the service.

pub mod api;
pub mod foreign;
pub mod metrics;
pub mod models;
pub mod queue;
pub mod worker;

pub use models::{CreateJobRequest, CreateJobResponse, Job, JobStatus, Priority};
pub use queue::{MemoryQueueBackend, QueueStats, RedisQueueBackend};
pub use worker::{Executor, ExecutorConfig, HandlerOutcome};
