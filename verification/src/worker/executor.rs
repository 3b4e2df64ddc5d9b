//! The worker as a state machine.
//!
//! A worker alternates work on the store and on the handler with decisions.
//! The decisions live here: each state names the one action that is pending,
//! and each event that answers it leads to the next state. Whoever drives a
//! worker performs the pending action and feeds back what came of it.

use crate::models::job::{backoff_delay_ms, Job, JobStatus, JobView};
use crate::queue::store::StoreState;
use crate::worker::handler::HandlerOutcome;
use vstd::arithmetic::power2::pow2;
use vstd::prelude::*;

verus! {

/// Seconds a lock outlives the time limit of its job.
pub const LOCK_GRACE_SECS: u64 = 10;

/// Pause after a failed dequeue before the next one, in milliseconds.
pub const DEQUEUE_FAILURE_PAUSE_MS: u64 = 1000;

/// How a pool of workers is run.
#[derive(Debug, Clone, Copy)]
pub struct ExecutorConfig {
    /// How long one dequeue may wait for a job, in seconds.
    pub dequeue_timeout_secs: u64,
    /// Number of workers that run side by side.
    pub worker_count: usize,
    /// Whether in-flight jobs are finished before the pool stops.
    pub graceful_shutdown: bool,
}

impl Default for ExecutorConfig {
    fn default() -> (config: ExecutorConfig)
        ensures
            config.dequeue_timeout_secs == 5,
            config.worker_count == 4,
            config.graceful_shutdown,
    {
        ExecutorConfig { dequeue_timeout_secs: 5, worker_count: 4, graceful_shutdown: true }
    }
}

/// The time to live of a job's lock, in seconds: the job's time limit
/// rounded up to whole seconds, plus ten seconds of grace.
pub open spec fn lock_ttl(timeout_ms: u64) -> int {
    (timeout_ms as int + 999) / 1000 + 10
}

/// The lock outlives the handler's deadline by the whole grace: its time
/// to live, in milliseconds, is at least the job's time limit plus ten
/// seconds, and less than a second more.
pub proof fn lock_covers_the_deadline(timeout_ms: u64)
    ensures
        timeout_ms + 10_000 <= lock_ttl(timeout_ms) * 1000 < timeout_ms + 11_000,
        lock_ttl(timeout_ms) <= u64::MAX,
{
}

/// What came of the action a job's stage was waiting for.
#[derive(Debug, Clone, Copy, PartialEq, Eq, Structural)]
pub enum JobEvent {
    /// The lock was taken for this worker.
    LockAcquired,
    /// Another worker holds the lock.
    LockHeld,
    /// The store failed while asked for the lock.
    LockFailed,
    /// A write to the store (update, enqueue, move to the dead-letter
    /// queue) has ended, well or not: the worker goes on either way.
    Written,
    /// The handler has ended, or its time limit has.
    Handled(HandlerOutcome),
    /// The backoff delay has passed.
    Slept,
    /// The release of the lock has ended, well or not.
    Released,
}

/// The action a job's stage is waiting for. `UpdateJob`, `RunHandler`,
/// `Enqueue` and `MoveToDlq` act on the job that the stage holds.
#[derive(Debug, Clone, Copy, PartialEq, Eq, Structural)]
pub enum JobAction {
    AcquireLock { job_id: u128, ttl_secs: u64 },
    UpdateJob,
    RunHandler { timeout_ms: u64 },
    Sleep { delay_ms: u64 },
    Enqueue,
    MoveToDlq,
    ReleaseLock { job_id: u128 },
    /// Nothing is left to do for this job.
    Finished,
}

/// How far a worker has come with one job.
#[derive(Debug)]
pub enum JobStage {
    /// Asking for the job's lock.
    Locking(Job),
    /// Lock held; writing the record with status `Running`.
    Starting(Job),
    /// The handler runs under the job's time limit.
    Handling(Job),
    /// The handler succeeded; writing the record with status `Completed`.
    Completing(Job),
    /// The attempt failed and retries are left; waiting out the backoff.
    BackingOff(Job),
    /// Backoff over; putting the job back in the queue.
    Requeueing(Job),
    /// The attempt failed and no retry is left; moving the job to the
    /// dead-letter queue.
    DeadLettering(Job),
    /// Giving the lock back.
    Releasing(u128),
    /// The worker is through with the job.
    Done,
}

/// A stage as contracts see it.
pub enum JobStageView {
    Locking(JobView),
    Starting(JobView),
    Handling(JobView),
    Completing(JobView),
    BackingOff(JobView),
    Requeueing(JobView),
    DeadLettering(JobView),
    Releasing(u128),
    Done,
}

impl View for JobStage {
    type V = JobStageView;

    open spec fn view(&self) -> JobStageView {
        match *self {
            JobStage::Locking(job) => JobStageView::Locking(job@),
            JobStage::Starting(job) => JobStageView::Starting(job@),
            JobStage::Handling(job) => JobStageView::Handling(job@),
            JobStage::Completing(job) => JobStageView::Completing(job@),
            JobStage::BackingOff(job) => JobStageView::BackingOff(job@),
            JobStage::Requeueing(job) => JobStageView::Requeueing(job@),
            JobStage::DeadLettering(job) => JobStageView::DeadLettering(job@),
            JobStage::Releasing(job_id) => JobStageView::Releasing(job_id),
            JobStage::Done => JobStageView::Done,
        }
    }
}

/// The stage that follows a failed attempt of `job`: one more retry on
/// record, then the backoff if retries are left (the job is `Queued` again),
/// else the way to the dead-letter queue.
pub open spec fn after_failure(job: JobView) -> JobStageView {
    let retries = (job.retry_count + 1) as u8;
    if retries < job.max_retries {
        JobStageView::BackingOff(JobView { retry_count: retries, status: JobStatus::Queued, ..job })
    } else {
        JobStageView::DeadLettering(JobView { retry_count: retries, ..job })
    }
}

/// The identifier of the job that `stage` is about, if it is about one.
pub open spec fn stage_job_id(stage: JobStageView) -> Option<u128> {
    match stage {
        JobStageView::Locking(job) | JobStageView::Starting(job) | JobStageView::Handling(job)
        | JobStageView::Completing(job) | JobStageView::BackingOff(job)
        | JobStageView::Requeueing(job) | JobStageView::DeadLettering(job) => Some(job.id),
        JobStageView::Releasing(job_id) => Some(job_id),
        JobStageView::Done => None,
    }
}

/// Whether `event` is an answer to the action that `stage` waits for.
pub open spec fn answers(stage: JobStageView, event: JobEvent) -> bool {
    match stage {
        JobStageView::Locking(_) => event == JobEvent::LockAcquired || event == JobEvent::LockHeld
            || event == JobEvent::LockFailed,
        JobStageView::Starting(_) => event == JobEvent::Written,
        JobStageView::Handling(_) => event is Handled,
        JobStageView::Completing(_) => event == JobEvent::Written,
        JobStageView::BackingOff(_) => event == JobEvent::Slept,
        JobStageView::Requeueing(_) => event == JobEvent::Written,
        JobStageView::DeadLettering(_) => event == JobEvent::Written,
        JobStageView::Releasing(_) => event == JobEvent::Released,
        JobStageView::Done => false,
    }
}

/// The stage that follows `stage` on `event`. An event that does not answer
/// the pending action leaves the stage as it is.
pub open spec fn next_stage(stage: JobStageView, event: JobEvent) -> JobStageView {
    if !answers(stage, event) {
        stage
    } else {
        match stage {
            JobStageView::Locking(job) => if event == JobEvent::LockAcquired {
                JobStageView::Starting(JobView { status: JobStatus::Running, ..job })
            } else {
                JobStageView::Done
            },
            JobStageView::Starting(job) => JobStageView::Handling(job),
            JobStageView::Handling(job) => if event == JobEvent::Handled(
                HandlerOutcome::Succeeded,
            ) {
                JobStageView::Completing(JobView { status: JobStatus::Completed, ..job })
            } else {
                after_failure(job)
            },
            JobStageView::Completing(job) => JobStageView::Releasing(job.id),
            JobStageView::BackingOff(job) => JobStageView::Requeueing(job),
            JobStageView::Requeueing(job) => JobStageView::Releasing(job.id),
            JobStageView::DeadLettering(job) => JobStageView::Releasing(job.id),
            JobStageView::Releasing(_) => JobStageView::Done,
            JobStageView::Done => JobStageView::Done,
        }
    }
}

/// The action that `stage` waits for.
pub open spec fn pending_action(stage: JobStageView) -> JobAction {
    match stage {
        JobStageView::Locking(job) => JobAction::AcquireLock {
            job_id: job.id,
            ttl_secs: lock_ttl(job.timeout_ms) as u64,
        },
        JobStageView::Starting(_) => JobAction::UpdateJob,
        JobStageView::Handling(job) => JobAction::RunHandler { timeout_ms: job.timeout_ms },
        JobStageView::Completing(_) => JobAction::UpdateJob,
        JobStageView::BackingOff(job) => JobAction::Sleep {
            delay_ms: backoff_delay_ms(job.retry_count) as u64,
        },
        JobStageView::Requeueing(_) => JobAction::Enqueue,
        JobStageView::DeadLettering(_) => JobAction::MoveToDlq,
        JobStageView::Releasing(job_id) => JobAction::ReleaseLock { job_id },
        JobStageView::Done => JobAction::Finished,
    }
}

impl JobStage {
    /// The action that this stage waits for.
    pub fn action(&self) -> (action: JobAction)
        ensures
            action == pending_action(self@),
    {
        match self {
            JobStage::Locking(job) => JobAction::AcquireLock {
                job_id: job.id,
                ttl_secs: Executor::lock_ttl_secs(job),
            },
            JobStage::Starting(_) => JobAction::UpdateJob,
            JobStage::Handling(job) => JobAction::RunHandler { timeout_ms: job.timeout_ms },
            JobStage::Completing(_) => JobAction::UpdateJob,
            JobStage::BackingOff(job) => JobAction::Sleep {
                delay_ms: job.calculate_backoff_delay(),
            },
            JobStage::Requeueing(_) => JobAction::Enqueue,
            JobStage::DeadLettering(_) => JobAction::MoveToDlq,
            JobStage::Releasing(job_id) => JobAction::ReleaseLock { job_id: *job_id },
            JobStage::Done => JobAction::Finished,
        }
    }

    /// The job in hand, as it is to be written or handled at this stage.
    pub fn job(&self) -> (job: Option<&Job>)
        ensures
            match self@ {
                JobStageView::Locking(v) | JobStageView::Starting(v) | JobStageView::Handling(v)
                | JobStageView::Completing(v) | JobStageView::BackingOff(v)
                | JobStageView::Requeueing(v) | JobStageView::DeadLettering(v) => job is Some
                    && job.unwrap()@ == v,
                JobStageView::Releasing(_) | JobStageView::Done => job is None,
            },
    {
        match self {
            JobStage::Locking(job) => Some(job),
            JobStage::Starting(job) => Some(job),
            JobStage::Handling(job) => Some(job),
            JobStage::Completing(job) => Some(job),
            JobStage::BackingOff(job) => Some(job),
            JobStage::Requeueing(job) => Some(job),
            JobStage::DeadLettering(job) => Some(job),
            JobStage::Releasing(_) => None,
            JobStage::Done => None,
        }
    }
}

/// The decisions of a pool of workers.
#[derive(Debug, Clone, Copy)]
pub struct Executor {
    config: ExecutorConfig,
}

/// What a worker is doing.
#[derive(Debug)]
pub enum WorkerState {
    /// At the top of its loop, about to look at the shutdown signal.
    Idle,
    /// Waiting for a job, for the dequeue timeout or for shutdown.
    Waiting,
    /// Pausing after a dequeue that failed.
    Pausing,
    /// Working on a job.
    Working(JobStage),
    /// Out of its loop, for good.
    Stopped,
}

/// A worker's state as contracts see it.
pub enum WorkerStateView {
    Idle,
    Waiting,
    Pausing,
    Working(JobStageView),
    Stopped,
}

impl View for WorkerState {
    type V = WorkerStateView;

    open spec fn view(&self) -> WorkerStateView {
        match *self {
            WorkerState::Idle => WorkerStateView::Idle,
            WorkerState::Waiting => WorkerStateView::Waiting,
            WorkerState::Pausing => WorkerStateView::Pausing,
            WorkerState::Working(stage) => WorkerStateView::Working(stage@),
            WorkerState::Stopped => WorkerStateView::Stopped,
        }
    }
}

/// What came of the action a worker was waiting for.
#[derive(Debug)]
pub enum WorkerEvent {
    /// The shutdown signal was looked at.
    Observed { cancelled: bool },
    /// Shutdown was signalled while the worker waited for a job.
    Cancelled,
    /// The dequeue returned a job.
    Dequeued(Job),
    /// The dequeue timed out with no job.
    DequeuedNothing,
    /// The dequeue failed.
    DequeueFailed,
    /// The pause after a failed dequeue is over.
    Paused,
    /// Something came of the action pending on the job in hand.
    Job(JobEvent),
}

/// A worker's event as contracts see it.
pub enum WorkerEventView {
    Observed { cancelled: bool },
    Cancelled,
    Dequeued(JobView),
    DequeuedNothing,
    DequeueFailed,
    Paused,
    Job(JobEvent),
}

impl View for WorkerEvent {
    type V = WorkerEventView;

    open spec fn view(&self) -> WorkerEventView {
        match *self {
            WorkerEvent::Observed { cancelled } => WorkerEventView::Observed { cancelled },
            WorkerEvent::Cancelled => WorkerEventView::Cancelled,
            WorkerEvent::Dequeued(job) => WorkerEventView::Dequeued(job@),
            WorkerEvent::DequeuedNothing => WorkerEventView::DequeuedNothing,
            WorkerEvent::DequeueFailed => WorkerEventView::DequeueFailed,
            WorkerEvent::Paused => WorkerEventView::Paused,
            WorkerEvent::Job(event) => WorkerEventView::Job(event),
        }
    }
}

/// The action a worker's state is waiting for.
#[derive(Debug, Clone, Copy, PartialEq, Eq, Structural)]
pub enum WorkerAction {
    /// Look at the shutdown signal.
    CheckShutdown,
    /// Wait for a job, at most `timeout_secs`, or for shutdown.
    Dequeue { timeout_secs: u64 },
    /// Sleep before the next dequeue.
    Pause { delay_ms: u64 },
    /// Do what the job in hand asks for.
    Job(JobAction),
    /// Leave the loop.
    Exit,
}

/// Whether `event` is an answer to the action that `state` waits for.
pub open spec fn worker_answers(state: WorkerStateView, event: WorkerEventView) -> bool {
    match state {
        WorkerStateView::Idle => event is Observed,
        WorkerStateView::Waiting => event is Cancelled || event is Dequeued
            || event is DequeuedNothing || event is DequeueFailed,
        WorkerStateView::Pausing => event is Paused,
        WorkerStateView::Working(stage) => event matches WorkerEventView::Job(e) && answers(
            stage,
            e,
        ),
        WorkerStateView::Stopped => false,
    }
}

/// The state that follows `state` on `event`. An event that does not
/// answer the pending action leaves the state as it is (see
/// `unanswered_events_change_nothing`).
pub open spec fn next_worker_state(state: WorkerStateView, event: WorkerEventView)
    -> WorkerStateView {
    match state {
        WorkerStateView::Idle => match event {
            WorkerEventView::Observed { cancelled } => if cancelled {
                WorkerStateView::Stopped
            } else {
                WorkerStateView::Waiting
            },
            _ => state,
        },
        WorkerStateView::Waiting => match event {
            WorkerEventView::Cancelled => WorkerStateView::Stopped,
            WorkerEventView::Dequeued(job) => WorkerStateView::Working(JobStageView::Locking(job)),
            WorkerEventView::DequeuedNothing => WorkerStateView::Idle,
            WorkerEventView::DequeueFailed => WorkerStateView::Pausing,
            _ => state,
        },
        WorkerStateView::Pausing => match event {
            WorkerEventView::Paused => WorkerStateView::Idle,
            _ => state,
        },
        WorkerStateView::Working(stage) => match event {
            WorkerEventView::Job(job_event) => if stage is Done {
                state
            } else if next_stage(stage, job_event) is Done {
                WorkerStateView::Idle
            } else {
                WorkerStateView::Working(next_stage(stage, job_event))
            },
            _ => state,
        },
        WorkerStateView::Stopped => state,
    }
}

/// The action that `state` waits for, under a dequeue timeout of
/// `dequeue_timeout_secs`.
pub open spec fn pending_worker_action(state: WorkerStateView, dequeue_timeout_secs: u64)
    -> WorkerAction {
    match state {
        WorkerStateView::Idle => WorkerAction::CheckShutdown,
        WorkerStateView::Waiting => WorkerAction::Dequeue { timeout_secs: dequeue_timeout_secs },
        WorkerStateView::Pausing => WorkerAction::Pause { delay_ms: 1000 },
        WorkerStateView::Working(stage) => WorkerAction::Job(pending_action(stage)),
        WorkerStateView::Stopped => WorkerAction::Exit,
    }
}

impl Executor {
    /// An executor with the given configuration.
    pub fn new(config: ExecutorConfig) -> (executor: Executor)
        ensures
            executor.config() == config,
    {
        Executor { config }
    }

    /// The configuration the executor was made with.
    pub closed spec fn config(&self) -> ExecutorConfig {
        self.config
    }

    /// The configuration the executor was made with.
    pub fn configuration(&self) -> (config: &ExecutorConfig)
        ensures
            *config == self.config(),
    {
        &self.config
    }

    /// The workers to start: `worker_count` of them, each idle. A worker's
    /// number is its place in the result.
    pub fn run(&self) -> (workers: Vec<WorkerState>)
        ensures
            workers.len() == self.config().worker_count,
            forall|i: int| 0 <= i < workers.len() ==> workers[i]@ == WorkerStateView::Idle,
    {
        let mut workers: Vec<WorkerState> = Vec::new();
        let mut started: usize = 0;
        while started < self.config.worker_count
            invariant
                started <= self.config.worker_count,
                workers.len() == started,
                forall|i: int| 0 <= i < workers.len() ==> workers[i]@ == WorkerStateView::Idle,
            decreases self.config.worker_count - started,
        {
            workers.push(WorkerState::Idle);
            started = started + 1;
        }
        workers
    }

    /// The action that a worker in `state` waits for.
    pub fn worker_action(&self, state: &WorkerState) -> (action: WorkerAction)
        ensures
            action == pending_worker_action(state@, self.config().dequeue_timeout_secs),
    {
        match state {
            WorkerState::Idle => WorkerAction::CheckShutdown,
            WorkerState::Waiting => WorkerAction::Dequeue {
                timeout_secs: self.config.dequeue_timeout_secs,
            },
            WorkerState::Pausing => WorkerAction::Pause { delay_ms: DEQUEUE_FAILURE_PAUSE_MS },
            WorkerState::Working(stage) => WorkerAction::Job(stage.action()),
            WorkerState::Stopped => WorkerAction::Exit,
        }
    }

    /// One turn of a worker's loop: the state that follows `state` on `event`.
    ///
    /// An idle worker stops once shutdown is seen and waits for a job
    /// otherwise. A waiting worker stops on shutdown, takes up the job it is
    /// handed, starts over on a timeout and pauses after a failure. A job in
    /// hand is carried through `process_job` to its end, whatever the
    /// shutdown signal says; the worker is idle again after it.
    pub fn worker_loop(state: WorkerState, event: WorkerEvent) -> (next: WorkerState)
        requires
            state@ matches WorkerStateView::Working(JobStageView::Handling(job)) ==> event@
                matches WorkerEventView::Job(JobEvent::Handled(outcome)) ==> outcome.is_failure()
                ==> job.retry_count < u8::MAX,
        ensures
            next@ == next_worker_state(state@, event@),
    {
        match state {
            WorkerState::Idle => match event {
                WorkerEvent::Observed { cancelled } => if cancelled {
                    WorkerState::Stopped
                } else {
                    WorkerState::Waiting
                },
                _ => WorkerState::Idle,
            },
            WorkerState::Waiting => match event {
                WorkerEvent::Cancelled => WorkerState::Stopped,
                WorkerEvent::Dequeued(job) => WorkerState::Working(JobStage::Locking(job)),
                WorkerEvent::DequeuedNothing => WorkerState::Idle,
                WorkerEvent::DequeueFailed => WorkerState::Pausing,
                _ => WorkerState::Waiting,
            },
            WorkerState::Pausing => match event {
                WorkerEvent::Paused => WorkerState::Idle,
                _ => WorkerState::Pausing,
            },
            WorkerState::Working(stage) => match event {
                WorkerEvent::Job(job_event) => match stage {
                    JobStage::Done => WorkerState::Working(JobStage::Done),
                    _ => {
                        let next = Executor::process_job(stage, job_event);
                        match next {
                            JobStage::Done => WorkerState::Idle,
                            _ => WorkerState::Working(next),
                        }
                    },
                },
                _ => WorkerState::Working(stage),
            },
            WorkerState::Stopped => WorkerState::Stopped,
        }
    }

    /// The time to live of the lock of `job`, in seconds.
    pub fn lock_ttl_secs(job: &Job) -> (ttl_secs: u64)
        ensures
            ttl_secs == lock_ttl(job.timeout_ms),
    {
        let whole: u64 = job.timeout_ms / 1000;
        let part: u64 = if job.timeout_ms % 1000 == 0 {
            0
        } else {
            1
        };
        whole + part + LOCK_GRACE_SECS
    }

    /// One step in the processing of a job: the stage that follows `stage`
    /// on `event`.
    ///
    /// The lock comes first; without it the job is dropped. With it the
    /// record is marked `Running` and the handler runs. Success marks the
    /// record `Completed`; an error or a timeout goes through
    /// `handle_job_failure`. Every path that held the lock ends by giving it
    /// back. No write to the store is waited on for its result.
    pub fn process_job(stage: JobStage, event: JobEvent) -> (next: JobStage)
        requires
            stage@ matches JobStageView::Handling(job) ==> event matches JobEvent::Handled(outcome)
                ==> outcome.is_failure() ==> job.retry_count < u8::MAX,
        ensures
            next@ == next_stage(stage@, event),
    {
        match stage {
            JobStage::Locking(job) => match event {
                JobEvent::LockAcquired => {
                    let mut job = job;
                    job.status = JobStatus::Running;
                    JobStage::Starting(job)
                },
                JobEvent::LockHeld => JobStage::Done,
                JobEvent::LockFailed => JobStage::Done,
                _ => JobStage::Locking(job),
            },
            JobStage::Starting(job) => match event {
                JobEvent::Written => JobStage::Handling(job),
                _ => JobStage::Starting(job),
            },
            JobStage::Handling(job) => match event {
                JobEvent::Handled(HandlerOutcome::Succeeded) => {
                    let mut job = job;
                    job.status = JobStatus::Completed;
                    JobStage::Completing(job)
                },
                JobEvent::Handled(_) => Executor::handle_job_failure(job),
                _ => JobStage::Handling(job),
            },
            JobStage::Completing(job) => match event {
                JobEvent::Written => JobStage::Releasing(job.id),
                _ => JobStage::Completing(job),
            },
            JobStage::BackingOff(job) => match event {
                JobEvent::Slept => JobStage::Requeueing(job),
                _ => JobStage::BackingOff(job),
            },
            JobStage::Requeueing(job) => match event {
                JobEvent::Written => JobStage::Releasing(job.id),
                _ => JobStage::Requeueing(job),
            },
            JobStage::DeadLettering(job) => match event {
                JobEvent::Written => JobStage::Releasing(job.id),
                _ => JobStage::DeadLettering(job),
            },
            JobStage::Releasing(job_id) => match event {
                JobEvent::Released => JobStage::Done,
                _ => JobStage::Releasing(job_id),
            },
            JobStage::Done => JobStage::Done,
        }
    }

    /// What becomes of a job whose attempt failed: one more retry goes on
    /// its record; if that leaves it under `max_retries` it is `Queued`
    /// again and waits out the backoff before it is enqueued, else it is on
    /// its way to the dead-letter queue.
    pub fn handle_job_failure(job: Job) -> (next: JobStage)
        requires
            job.retry_count < u8::MAX,
        ensures
            next@ == after_failure(job@),
    {
        let mut job = job;
        job.retry_count = job.retry_count + 1;
        if job.retry_count < job.max_retries {
            job.status = JobStatus::Queued;
            JobStage::BackingOff(job)
        } else {
            JobStage::DeadLettering(job)
        }
    }
}

/// The job after `failures` failed attempts in a row, and whether the last
/// of them sent it to the dead-letter queue. Counting stops there.
pub open spec fn failed_attempts_end(job: JobView, failures: nat) -> (JobView, bool)
    decreases failures,
{
    if failures == 0 {
        (job, false)
    } else {
        let (before, dead) = failed_attempts_end(job, (failures - 1) as nat);
        if dead {
            (before, true)
        } else {
            match after_failure(before) {
                JobStageView::BackingOff(next) => (next, false),
                JobStageView::DeadLettering(next) => (next, true),
                _ => (before, false),
            }
        }
    }
}

/// The number of failed attempts that take `job` to the dead-letter queue.
pub open spec fn attempts_until_dead_letter(job: JobView) -> nat
    decreases 256 - job.retry_count,
{
    if job.retry_count >= 255 {
        1
    } else {
        match after_failure(job) {
            JobStageView::BackingOff(next) => 1 + attempts_until_dead_letter(next),
            _ => 1,
        }
    }
}

/// Retry exhaustion: a fresh job with `max_retries = k`, `k` at least 1,
/// whose every attempt fails is attempted exactly `k` times: each of the
/// first `k - 1` failures sends it back to the queue, and the `k`-th sends
/// it to the dead-letter queue with `retry_count = k`.
pub proof fn retry_exhaustion(job: JobView, failures: nat)
    requires
        job.retry_count == 0,
        job.max_retries >= 1,
        failures <= job.max_retries,
    ensures
        failed_attempts_end(job, failures).0.retry_count == failures,
        failed_attempts_end(job, failures).0.max_retries == job.max_retries,
        failed_attempts_end(job, failures).0.id == job.id,
        failed_attempts_end(job, failures).1 <==> failures == job.max_retries,
        0 < failures < job.max_retries ==> failed_attempts_end(job, failures).0.status
            == JobStatus::Queued && pending_action(
            JobStageView::BackingOff(failed_attempts_end(job, failures).0),
        ) == (JobAction::Sleep { delay_ms: backoff_delay_ms(failures as u8) as u64 }),
    decreases failures,
{
    if failures > 0 {
        retry_exhaustion(job, (failures - 1) as nat);
    }
}

/// Retry exhaustion, to its end in the store: the job that `max_retries`
/// failures in a row leave behind goes to the dead-letter queue, where its
/// record has status `DeadLetter` and `retry_count = max_retries`.
pub proof fn exhausted_job_is_dead_lettered(store: StoreState, job: JobView)
    requires
        job.retry_count == 0,
        job.max_retries >= 1,
    ensures
        ({
            let (last, dead) = failed_attempts_end(job, job.max_retries as nat);
            let stored = store.move_to_dlq(last);
            &&& dead
            &&& last.id == job.id
            &&& stored.get(job.id) matches Some(record)
            &&& record.status == JobStatus::DeadLetter
            &&& record.retry_count == job.max_retries
            &&& stored.dlq_depth() == store.dlq_depth() + 1
            &&& stored.dlq.last() == job.id
        }),
{
    retry_exhaustion(job, job.max_retries as nat);
}

/// The identifier of a job never changes: whatever a stage holds or
/// releases after an event carries the identifier it carried before.
pub proof fn identity_is_kept(stage: JobStageView, event: JobEvent)
    ensures
        stage_job_id(next_stage(stage, event)) is Some ==> stage_job_id(next_stage(stage, event))
            == stage_job_id(stage),
{
}

/// The lock is given back: a job is done with only where its lock was
/// never taken or where the release has been answered. Every stage that
/// holds the lock leads to `Releasing` before `Done`.
pub proof fn lock_is_given_back(stage: JobStageView, event: JobEvent)
    requires
        !(stage is Done),
        next_stage(stage, event) is Done,
    ensures
        (stage is Locking && (event == JobEvent::LockHeld || event == JobEvent::LockFailed)) || (
        stage is Releasing && event == JobEvent::Released),
{
}

/// The statuses that a worker writes are those of the life of a job: a
/// job whose lock was taken is written as `Running`, one whose handler
/// succeeded as `Completed`, and one that failed with retries to spare
/// goes back to the queue as `Queued`.
pub proof fn written_statuses(job: JobView)
    ensures
        next_stage(JobStageView::Locking(job), JobEvent::LockAcquired) == JobStageView::Starting(
            JobView { status: JobStatus::Running, ..job },
        ),
        next_stage(JobStageView::Handling(job), JobEvent::Handled(HandlerOutcome::Succeeded))
            == JobStageView::Completing(JobView { status: JobStatus::Completed, ..job }),
        after_failure(job) matches JobStageView::BackingOff(next) ==> next.status
            == JobStatus::Queued,
        after_failure(job) matches JobStageView::DeadLettering(next) ==> next.status == job.status,
{
}

/// The retries on record stay within the limit: a failure of a job that
/// has retries left never takes `retry_count` past `max_retries`, and it
/// sends the job to the dead-letter queue exactly when `retry_count`
/// reaches `max_retries`.
pub proof fn retries_stay_within_limit(job: JobView)
    requires
        job.retry_count < job.max_retries,
    ensures
        match after_failure(job) {
            JobStageView::BackingOff(next) => next.retry_count == job.retry_count + 1
                && next.retry_count < next.max_retries,
            JobStageView::DeadLettering(next) => next.retry_count == job.retry_count + 1
                && next.retry_count == next.max_retries,
            _ => false,
        },
{
}

/// The count of attempts agrees: from `retry_count = r` below
/// `max_retries = k`, exactly `k - r` failed attempts lead to the
/// dead-letter queue.
pub proof fn attempts_count(job: JobView)
    requires
        job.retry_count < job.max_retries,
    ensures
        attempts_until_dead_letter(job) == job.max_retries - job.retry_count,
    decreases 256 - job.retry_count,
{
    if job.retry_count < 255 {
        match after_failure(job) {
            JobStageView::BackingOff(next) => {
                attempts_count(next);
            },
            _ => {},
        }
    }
}

/// Backoff law: when a failure leaves a job with `i` retries on record and
/// attempts to spare, the job is not enqueued again before a sleep of
/// `min(1000 * 2^i, 300000)` milliseconds has been answered.
pub proof fn backoff_law(job: JobView, event: JobEvent)
    requires
        job.retry_count + 1 < job.max_retries,
    ensures
        after_failure(job) matches JobStageView::BackingOff(next) && next.retry_count
            == job.retry_count + 1 && pending_action(after_failure(job)) == (JobAction::Sleep {
            delay_ms: backoff_delay_ms(next.retry_count) as u64,
        }) && backoff_delay_ms(next.retry_count) == (if 1000 * pow2(next.retry_count as nat)
            <= 300_000 {
            1000 * pow2(next.retry_count as nat)
        } else {
            300_000
        }),
        event != JobEvent::Slept ==> next_stage(after_failure(job), event) == after_failure(job),
        pending_action(next_stage(after_failure(job), JobEvent::Slept)) == JobAction::Enqueue,
{
}

/// An event that does not answer what a worker waits for changes nothing.
pub proof fn unanswered_events_change_nothing(state: WorkerStateView, event: WorkerEventView)
    requires
        !worker_answers(state, event),
    ensures
        next_worker_state(state, event) == state,
{
}

/// The number of answered events that a job's stage is at most away from
/// `Done`.
pub open spec fn stage_steps(stage: JobStageView) -> nat {
    match stage {
        JobStageView::Locking(_) => 6,
        JobStageView::Starting(_) => 5,
        JobStageView::Handling(_) => 4,
        JobStageView::BackingOff(_) => 3,
        JobStageView::Completing(_) => 2,
        JobStageView::Requeueing(_) => 2,
        JobStageView::DeadLettering(_) => 2,
        JobStageView::Releasing(_) => 1,
        JobStageView::Done => 0,
    }
}

/// The number of answered events that a worker is at most away from
/// `Stopped` once shutdown has been signalled.
pub open spec fn steps_left(state: WorkerStateView) -> nat {
    match state {
        WorkerStateView::Stopped => 0,
        WorkerStateView::Idle => 1,
        WorkerStateView::Pausing => 2,
        WorkerStateView::Working(stage) => 1 + stage_steps(stage),
        WorkerStateView::Waiting => 8,
    }
}

/// Shutdown is bounded: once every look at the signal finds it set, each
/// answered event brings a worker strictly closer to `Stopped`, which it
/// reaches after eight of them at most. A job in hand is finished on the
/// way, its lock released; no further job is asked for.
pub proof fn shutdown_is_bounded(state: WorkerStateView, event: WorkerEventView)
    requires
        worker_answers(state, event),
        event matches WorkerEventView::Observed { cancelled } ==> cancelled,
    ensures
        steps_left(next_worker_state(state, event)) < steps_left(state),
        steps_left(state) <= 8,
        state is Idle ==> next_worker_state(state, event) is Stopped,
{
}

} // verus!
