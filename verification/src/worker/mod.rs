//! Workers: the job-processing state machine and the loop around it.

pub(crate) mod executor;
pub(crate) mod handler;

pub use executor::{
    after_failure, answers, attempts_count, attempts_until_dead_letter, backoff_law,
    exhausted_job_is_dead_lettered, failed_attempts_end, identity_is_kept, lock_covers_the_deadline, lock_is_given_back, lock_ttl, next_stage,
    next_worker_state, pending_action, pending_worker_action, retries_stay_within_limit,
    retry_exhaustion, shutdown_is_bounded, stage_job_id, stage_steps, steps_left,
    unanswered_events_change_nothing, written_statuses, worker_answers, Executor, ExecutorConfig, JobAction,
    JobEvent, JobStage, JobStageView, WorkerAction, WorkerEvent, WorkerEventView, WorkerState,
    WorkerStateView, DEQUEUE_FAILURE_PAUSE_MS, LOCK_GRACE_SECS,
};
pub use handler::HandlerOutcome;
