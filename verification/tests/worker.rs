use iron_forge::models::{IronForgeError, Job, JobStatus, Priority};
use iron_forge::queue::MemoryQueueBackend;
use iron_forge::worker::{
    Executor, ExecutorConfig, HandlerOutcome, JobAction, JobEvent, JobStage, WorkerAction,
    WorkerEvent, WorkerState,
};

fn payload() -> serde_json::Value {
    serde_json::Value::Object(serde_json::Map::new())
}

fn job(id: u128, max_retries: u8) -> Job {
    let mut job = Job::with_identity(id, 1_700_000_000_000, "test.fail".to_string(), payload());
    job.max_retries = max_retries;
    job
}

/// What a run of the workers did besides writing to the store.
struct Trace {
    attempts: Vec<u128>,
    sleeps: Vec<u64>,
    lock_ttls: Vec<u64>,
    timeouts: Vec<u64>,
}

/// Carries one job through its stages against `backend`; the handler's
/// outcome for each attempt comes from `handler`.
fn carry(
    backend: &mut MemoryQueueBackend,
    job: Job,
    handler: &mut dyn FnMut(&Job) -> HandlerOutcome,
    trace: &mut Trace,
) {
    let mut stage = JobStage::Locking(job);
    loop {
        let event = match stage.action() {
            JobAction::AcquireLock { job_id, ttl_secs } => {
                trace.lock_ttls.push(ttl_secs);
                match backend.acquire_lock(job_id, ttl_secs) {
                    Ok(true) => JobEvent::LockAcquired,
                    Ok(false) => JobEvent::LockHeld,
                    Err(_) => JobEvent::LockFailed,
                }
            }
            JobAction::UpdateJob => {
                backend.update_job(stage.job().unwrap()).unwrap();
                JobEvent::Written
            }
            JobAction::RunHandler { timeout_ms } => {
                let job = stage.job().unwrap();
                trace.attempts.push(job.id);
                trace.timeouts.push(timeout_ms);
                JobEvent::Handled(handler(job))
            }
            JobAction::Sleep { delay_ms } => {
                trace.sleeps.push(delay_ms);
                JobEvent::Slept
            }
            JobAction::Enqueue => {
                backend.enqueue(stage.job().unwrap()).unwrap();
                JobEvent::Written
            }
            JobAction::MoveToDlq => {
                backend.move_to_dlq(stage.job().unwrap()).unwrap();
                JobEvent::Written
            }
            JobAction::ReleaseLock { job_id } => {
                backend.release_lock(job_id).unwrap();
                JobEvent::Released
            }
            JobAction::Finished => return,
        };
        assert!(stage.job().map_or(true, |job| job.retry_count < u8::MAX));
        stage = Executor::process_job(stage, event);
    }
}

/// Runs one worker until the queue is empty.
fn drain(
    backend: &mut MemoryQueueBackend,
    handler: &mut dyn FnMut(&Job) -> HandlerOutcome,
) -> Trace {
    let mut trace = Trace { attempts: vec![], sleeps: vec![], lock_ttls: vec![], timeouts: vec![] };
    while let Some(job) = backend.dequeue(1).unwrap() {
        carry(backend, job, handler, &mut trace);
    }
    trace
}

#[test]
fn test_full_flow_submit_process_complete() {
    let mut backend = MemoryQueueBackend::new();
    let mut map = serde_json::Map::new();
    map.insert("test".to_string(), serde_json::Value::Bool(true));
    let job = Job::new("test.job".to_string(), serde_json::Value::Object(map));
    let job_id = job.id;

    backend.enqueue(&job).expect("Failed to enqueue");

    let stats = backend.get_stats().expect("Failed to get stats");
    assert!(stats.queue_depth >= 1);

    let mut completed_count = 0;
    drain(&mut backend, &mut |_| {
        completed_count += 1;
        HandlerOutcome::Succeeded
    });

    assert_eq!(completed_count, 1);
    let stored = backend.get_job(job_id).unwrap().unwrap();
    assert_eq!(stored.status, JobStatus::Completed);
    assert_eq!(stored.retry_count, 0);
    let stats = backend.get_stats().unwrap();
    assert_eq!((stats.queue_depth, stats.dlq_depth, stats.active_jobs), (0, 0, 0));
}

#[test]
fn test_retry_on_failure() {
    let mut backend = MemoryQueueBackend::new();
    let mut map = serde_json::Map::new();
    map.insert("should_fail".to_string(), serde_json::Value::Bool(true));
    let mut job = Job::new("test.fail".to_string(), serde_json::Value::Object(map));
    job.max_retries = 2;
    let job_id = job.id;

    backend.enqueue(&job).expect("Failed to enqueue");

    let trace = drain(&mut backend, &mut |job| {
        let should_fail =
            job.payload.get("should_fail").and_then(|v| v.as_bool()).unwrap_or(false);
        if should_fail {
            HandlerOutcome::Failed
        } else {
            HandlerOutcome::Succeeded
        }
    });

    assert_eq!(trace.attempts, vec![job_id, job_id]);
    assert_eq!(backend.get_job(job_id).unwrap().unwrap().status, JobStatus::DeadLetter);
}

#[test]
fn retry_then_succeed() {
    let mut backend = MemoryQueueBackend::new();
    backend.enqueue(&job(1, 3)).unwrap();
    let mut attempt = 0;
    let trace = drain(&mut backend, &mut |_| {
        attempt += 1;
        if attempt < 3 {
            HandlerOutcome::Failed
        } else {
            HandlerOutcome::Succeeded
        }
    });
    assert_eq!(trace.attempts.len(), 3);
    assert_eq!(trace.sleeps, vec![2000, 4000]);
    assert!(trace.sleeps.iter().sum::<u64>() >= 3000);
    let stored = backend.get_job(1).unwrap().unwrap();
    assert_eq!(stored.status, JobStatus::Completed);
    assert_eq!(stored.retry_count, 2);
    let stats = backend.get_stats().unwrap();
    assert_eq!((stats.queue_depth, stats.dlq_depth, stats.active_jobs), (0, 0, 0));
}

#[test]
fn dlq_transfer() {
    let mut backend = MemoryQueueBackend::new();
    backend.enqueue(&job(1, 2)).unwrap();
    let before = backend.get_stats().unwrap().dlq_depth;
    let trace = drain(&mut backend, &mut |_| HandlerOutcome::Failed);
    assert_eq!(trace.attempts.len(), 2);
    assert_eq!(trace.sleeps, vec![2000]);
    let stored = backend.get_job(1).unwrap().unwrap();
    assert_eq!(stored.status, JobStatus::DeadLetter);
    assert_eq!(stored.retry_count, 2);
    let stats = backend.get_stats().unwrap();
    assert_eq!(stats.dlq_depth, before + 1);
    assert_eq!(stats.queue_depth, 0);
    assert_eq!(stats.active_jobs, 0);
}

#[test]
fn a_job_that_always_fails_is_attempted_max_retries_times() {
    for max_retries in 1..=12u8 {
        let mut backend = MemoryQueueBackend::new();
        backend.enqueue(&job(1, max_retries)).unwrap();
        let trace = drain(&mut backend, &mut |_| HandlerOutcome::TimedOut);
        assert_eq!(trace.attempts.len(), max_retries as usize);
        let stored = backend.get_job(1).unwrap().unwrap();
        assert_eq!(stored.status, JobStatus::DeadLetter);
        assert_eq!(stored.retry_count, max_retries);
        assert_eq!(backend.get_stats().unwrap().dlq_depth, 1);
        let expected: Vec<u64> =
            (1..max_retries as u32).map(|i| (1000u64 << i).min(300_000)).collect();
        assert_eq!(trace.sleeps, expected);
    }
}

#[test]
fn a_job_without_retries_is_attempted_once() {
    let mut backend = MemoryQueueBackend::new();
    backend.enqueue(&job(1, 0)).unwrap();
    let trace = drain(&mut backend, &mut |_| HandlerOutcome::Failed);
    assert_eq!(trace.attempts.len(), 1);
    assert!(trace.sleeps.is_empty());
    let stored = backend.get_job(1).unwrap().unwrap();
    assert_eq!(stored.status, JobStatus::DeadLetter);
    assert_eq!(stored.retry_count, 1);
}

#[test]
fn lock_ttl_is_timeout_rounded_up_to_seconds_plus_ten() {
    let mut job = job(1, 3);
    let expected = [
        (30_000u64, 40u64),
        (0, 10),
        (1, 11),
        (999, 11),
        (1000, 11),
        (1001, 12),
        (1500, 12),
        (1999, 12),
        (2000, 12),
        (u64::MAX, 18_446_744_073_709_562),
    ];
    for (timeout_ms, ttl) in expected {
        job.timeout_ms = timeout_ms;
        assert_eq!(Executor::lock_ttl_secs(&job), ttl);
        let stage = JobStage::Locking(job.clone());
        assert_eq!(stage.action(), JobAction::AcquireLock { job_id: 1, ttl_secs: ttl });
    }
}

#[test]
fn a_held_lock_drops_the_job() {
    let mut backend = MemoryQueueBackend::new();
    backend.enqueue(&job(1, 3)).unwrap();
    assert!(backend.acquire_lock(1, 40).unwrap());
    let trace = drain(&mut backend, &mut |_| HandlerOutcome::Succeeded);
    assert!(trace.attempts.is_empty());
    let stored = backend.get_job(1).unwrap().unwrap();
    assert_eq!(stored.status, JobStatus::Queued);
    assert_eq!(stored.retry_count, 0);
    assert!(!backend.acquire_lock(1, 40).unwrap());
    assert_eq!(backend.get_stats().unwrap().active_jobs, 1);
}

#[test]
fn stages_follow_one_another() {
    let stage = JobStage::Locking(job(1, 3));
    assert_eq!(stage.action(), JobAction::AcquireLock { job_id: 1, ttl_secs: 40 });
    let stage = Executor::process_job(stage, JobEvent::LockAcquired);
    assert!(matches!(&stage, JobStage::Starting(job) if job.status == JobStatus::Running));
    assert_eq!(stage.action(), JobAction::UpdateJob);
    let stage = Executor::process_job(stage, JobEvent::Written);
    assert!(matches!(&stage, JobStage::Handling(_)));
    assert_eq!(stage.action(), JobAction::RunHandler { timeout_ms: 30_000 });
    let stage = Executor::process_job(stage, JobEvent::Handled(HandlerOutcome::Succeeded));
    assert!(matches!(&stage, JobStage::Completing(job) if job.status == JobStatus::Completed));
    assert_eq!(stage.action(), JobAction::UpdateJob);
    let stage = Executor::process_job(stage, JobEvent::Written);
    assert!(matches!(&stage, JobStage::Releasing(1)));
    assert_eq!(stage.action(), JobAction::ReleaseLock { job_id: 1 });
    assert!(stage.job().is_none());
    let stage = Executor::process_job(stage, JobEvent::Released);
    assert!(matches!(&stage, JobStage::Done));
    assert_eq!(stage.action(), JobAction::Finished);
    let stage = Executor::process_job(stage, JobEvent::Released);
    assert!(matches!(&stage, JobStage::Done));
}

#[test]
fn lock_failures_end_the_job_without_release() {
    for event in [JobEvent::LockHeld, JobEvent::LockFailed] {
        let stage = Executor::process_job(JobStage::Locking(job(1, 3)), event);
        assert!(matches!(stage, JobStage::Done));
    }
}

#[test]
fn events_that_answer_nothing_change_nothing() {
    let stage = Executor::process_job(JobStage::Locking(job(1, 3)), JobEvent::Written);
    assert!(matches!(&stage, JobStage::Locking(job) if job.status == JobStatus::Queued));
    let stage = Executor::process_job(JobStage::Handling(job(1, 3)), JobEvent::Slept);
    assert!(matches!(&stage, JobStage::Handling(job) if job.retry_count == 0));
    let stage = Executor::process_job(JobStage::BackingOff(job(1, 3)), JobEvent::Written);
    assert!(matches!(&stage, JobStage::BackingOff(_)));
    let stage = Executor::process_job(JobStage::Releasing(4), JobEvent::Slept);
    assert!(matches!(&stage, JobStage::Releasing(4)));
}

#[test]
fn failure_with_retries_left_backs_off_then_requeues() {
    let mut running = job(1, 3);
    running.status = JobStatus::Running;
    let stage = Executor::handle_job_failure(running);
    match &stage {
        JobStage::BackingOff(job) => {
            assert_eq!(job.retry_count, 1);
            assert_eq!(job.status, JobStatus::Queued);
        }
        other => panic!("unexpected stage {:?}", other),
    }
    assert_eq!(stage.action(), JobAction::Sleep { delay_ms: 2000 });
    let stage = Executor::process_job(stage, JobEvent::Slept);
    assert!(matches!(&stage, JobStage::Requeueing(job) if job.retry_count == 1));
    assert_eq!(stage.action(), JobAction::Enqueue);
    let stage = Executor::process_job(stage, JobEvent::Written);
    assert!(matches!(&stage, JobStage::Releasing(1)));
}

#[test]
fn failure_without_retries_left_goes_to_the_dlq() {
    let mut running = job(1, 3);
    running.status = JobStatus::Running;
    running.retry_count = 2;
    let stage = Executor::handle_job_failure(running);
    match &stage {
        JobStage::DeadLettering(job) => {
            assert_eq!(job.retry_count, 3);
            assert_eq!(job.status, JobStatus::Running);
        }
        other => panic!("unexpected stage {:?}", other),
    }
    assert_eq!(stage.action(), JobAction::MoveToDlq);
    let stage = Executor::process_job(stage, JobEvent::Written);
    assert!(matches!(&stage, JobStage::Releasing(1)));
}

#[test]
fn timeout_counts_as_failure() {
    let stage = Executor::process_job(
        JobStage::Handling(job(1, 3)),
        JobEvent::Handled(HandlerOutcome::TimedOut),
    );
    assert!(matches!(&stage, JobStage::BackingOff(job) if job.retry_count == 1));
    let stage = Executor::process_job(
        JobStage::Handling(job(1, 3)),
        JobEvent::Handled(HandlerOutcome::Failed),
    );
    assert!(matches!(&stage, JobStage::BackingOff(job) if job.retry_count == 1));
}

#[test]
fn handler_outcomes() {
    assert_eq!(HandlerOutcome::of(&None), HandlerOutcome::TimedOut);
    assert_eq!(HandlerOutcome::of(&Some(Ok(()))), HandlerOutcome::Succeeded);
    assert_eq!(
        HandlerOutcome::of(&Some(Err(IronForgeError::Worker("boom".to_string())))),
        HandlerOutcome::Failed
    );
    assert_eq!(
        HandlerOutcome::of(&Some(Err(IronForgeError::Timeout))),
        HandlerOutcome::Failed
    );
}

#[test]
fn default_configuration() {
    let config = ExecutorConfig::default();
    assert_eq!(config.dequeue_timeout_secs, 5);
    assert_eq!(config.worker_count, 4);
    assert!(config.graceful_shutdown);
    let executor = Executor::new(config);
    assert_eq!(executor.configuration().worker_count, 4);
}

#[test]
fn run_starts_one_idle_worker_per_slot() {
    for worker_count in [0usize, 1, 4, 9] {
        let executor = Executor::new(ExecutorConfig {
            dequeue_timeout_secs: 1,
            worker_count,
            graceful_shutdown: true,
        });
        let workers = executor.run();
        assert_eq!(workers.len(), worker_count);
        for worker in &workers {
            assert!(matches!(worker, WorkerState::Idle));
            assert_eq!(executor.worker_action(worker), WorkerAction::CheckShutdown);
        }
    }
}

#[test]
fn worker_loop_turns() {
    let executor = Executor::new(ExecutorConfig {
        dequeue_timeout_secs: 7,
        worker_count: 1,
        graceful_shutdown: true,
    });
    let state =
        Executor::worker_loop(WorkerState::Idle, WorkerEvent::Observed { cancelled: false });
    assert!(matches!(state, WorkerState::Waiting));
    assert_eq!(executor.worker_action(&state), WorkerAction::Dequeue { timeout_secs: 7 });

    let state = Executor::worker_loop(state, WorkerEvent::DequeuedNothing);
    assert!(matches!(state, WorkerState::Idle));

    let state = Executor::worker_loop(WorkerState::Waiting, WorkerEvent::DequeueFailed);
    assert!(matches!(state, WorkerState::Pausing));
    assert_eq!(executor.worker_action(&state), WorkerAction::Pause { delay_ms: 1000 });
    let state = Executor::worker_loop(state, WorkerEvent::Paused);
    assert!(matches!(state, WorkerState::Idle));

    let state = Executor::worker_loop(WorkerState::Waiting, WorkerEvent::Dequeued(job(1, 3)));
    assert!(matches!(&state, WorkerState::Working(JobStage::Locking(job)) if job.id == 1));
    assert_eq!(
        executor.worker_action(&state),
        WorkerAction::Job(JobAction::AcquireLock { job_id: 1, ttl_secs: 40 })
    );
    let state = Executor::worker_loop(state, WorkerEvent::Job(JobEvent::LockHeld));
    assert!(matches!(state, WorkerState::Idle));
}

#[test]
fn shutdown_stops_an_idle_or_waiting_worker() {
    let executor = Executor::new(ExecutorConfig::default());
    let state = Executor::worker_loop(WorkerState::Idle, WorkerEvent::Observed { cancelled: true });
    assert!(matches!(state, WorkerState::Stopped));
    assert_eq!(executor.worker_action(&state), WorkerAction::Exit);
    let state = Executor::worker_loop(WorkerState::Waiting, WorkerEvent::Cancelled);
    assert!(matches!(state, WorkerState::Stopped));
    let state = Executor::worker_loop(state, WorkerEvent::Observed { cancelled: false });
    assert!(matches!(state, WorkerState::Stopped));
    let state = Executor::worker_loop(state, WorkerEvent::Dequeued(job(1, 3)));
    assert!(matches!(state, WorkerState::Stopped));
}

#[test]
fn shutdown_lets_a_job_in_hand_finish() {
    let mut state = WorkerState::Working(JobStage::Handling(job(1, 3)));
    let events = [
        WorkerEvent::Cancelled,
        WorkerEvent::Job(JobEvent::Handled(HandlerOutcome::Succeeded)),
        WorkerEvent::Job(JobEvent::Written),
        WorkerEvent::Job(JobEvent::Released),
    ];
    let mut seen = Vec::new();
    for event in events {
        state = Executor::worker_loop(state, event);
        seen.push(format!("{:?}", state).split(['(', ' ']).next().unwrap().to_string());
    }
    assert_eq!(seen, vec!["Working", "Working", "Working", "Idle"]);
    let state = Executor::worker_loop(state, WorkerEvent::Observed { cancelled: true });
    assert!(matches!(state, WorkerState::Stopped));
}

#[test]
fn a_whole_worker_run_with_priorities() {
    let mut backend = MemoryQueueBackend::new();
    let mut low = job(1, 3);
    low.priority = Priority::Low;
    let mut critical = job(2, 3);
    critical.priority = Priority::Critical;
    backend.enqueue(&low).unwrap();
    backend.enqueue(&critical).unwrap();
    let trace = drain(&mut backend, &mut |_| HandlerOutcome::Succeeded);
    assert_eq!(trace.attempts, vec![2, 1]);
    assert_eq!(trace.lock_ttls, vec![40, 40]);
    assert_eq!(trace.timeouts, vec![30_000, 30_000]);
}
