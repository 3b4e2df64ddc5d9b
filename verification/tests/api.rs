use iron_forge::api::{
    create_job, create_job_reply, create_router, delete_job, delete_job_reply, get_job, health,
    queue_stats, retry_job, retry_job_reply, Endpoint, ErrorResponse, Method, RetryJobRequest,
};
use iron_forge::models::{CreateJobRequest, IronForgeError, Job, JobStatus, Priority};
use iron_forge::queue::{MemoryQueueBackend, QueueStats};
use std::collections::HashMap;

const ID: u128 = 0xa1a2a3a4_b1b2_c1c2_d1d2_d3d4d5d6d7d8;
const ID_TEXT: &str = "a1a2a3a4-b1b2-c1c2-d1d2-d3d4d5d6d7d8";

fn payload() -> serde_json::Value {
    serde_json::Value::Object(serde_json::Map::new())
}

fn job(status: JobStatus) -> Job {
    let mut job = Job::with_identity(ID, 1_700_000_000_000, "test".to_string(), payload());
    job.status = status;
    job
}

fn down() -> IronForgeError {
    IronForgeError::QueueBackend("down".to_string())
}

fn request(kind: &str) -> CreateJobRequest {
    CreateJobRequest {
        kind: kind.to_string(),
        payload: payload(),
        priority: None,
        max_retries: None,
        timeout_ms: None,
        metadata: HashMap::new(),
    }
}

#[test]
fn error_response_builders() {
    let plain = ErrorResponse::new("Job missing");
    assert_eq!(plain.error, "Job missing");
    assert_eq!(plain.details, None);
    let detailed = ErrorResponse::with_details("Failed to fetch job", "timeout");
    assert_eq!(detailed.error, "Failed to fetch job");
    assert_eq!(detailed.details.as_deref(), Some("timeout"));
}

#[test]
fn health_answers_ok() {
    let (status, body) = health("0.1.0");
    assert_eq!(status, 200);
    assert_eq!(body.status, "ok");
    assert_eq!(body.version, "0.1.0");
    assert_eq!(body.service, "IronForge Task Scheduler");
}

#[test]
fn create_job_applies_the_request() {
    let mut metadata = HashMap::new();
    metadata.insert("team".to_string(), "core".to_string());
    let job = create_job(CreateJobRequest {
        kind: "email.send".to_string(),
        payload: payload(),
        priority: Some(Priority::High),
        max_retries: Some(5),
        timeout_ms: Some(60_000),
        metadata,
    });
    assert_eq!(job.kind, "email.send");
    assert_eq!(job.priority, Priority::High);
    assert_eq!(job.max_retries, 5);
    assert_eq!(job.timeout_ms, 60_000);
    assert_eq!(job.metadata.get("team").map(|v| v.as_str()), Some("core"));
    assert_eq!(job.status, JobStatus::Queued);
    assert_eq!(job.retry_count, 0);
    assert_eq!(uuid::Uuid::from_u128(job.id).get_version_num(), 4);
    assert!(job.created_at > 0);

    let other = create_job(request("email.send"));
    assert_ne!(other.id, job.id);
    assert_eq!(other.priority, Priority::Medium);
    assert_eq!(other.max_retries, 3);
    assert_eq!(other.timeout_ms, 30_000);
}

#[test]
fn create_job_reply_is_201_or_500() {
    let job = job(JobStatus::Queued);
    let (status, body) = create_job_reply(&job, Ok(())).unwrap();
    assert_eq!(status, 201);
    assert_eq!(body.id, ID);
    assert_eq!(body.status, JobStatus::Queued);
    assert_eq!(body.created_at, 1_700_000_000_000);

    let (status, body) = create_job_reply(&job, Err(down())).unwrap_err();
    assert_eq!(status, 500);
    assert_eq!(body.error, "Failed to enqueue job");
    assert_eq!(body.details.as_deref(), Some("Queue backend error: down"));
}

#[test]
fn get_job_is_200_404_or_500() {
    let found = get_job(ID, Ok(Some(job(JobStatus::Running)))).unwrap();
    assert_eq!(found.id, ID);
    assert_eq!(found.status, JobStatus::Running);

    let (status, body) = get_job(ID, Ok(None)).unwrap_err();
    assert_eq!(status, 404);
    assert_eq!(body.error, format!("Job {} not found", ID_TEXT));
    assert_eq!(body.details, None);

    let (status, body) = get_job(ID, Err(down())).unwrap_err();
    assert_eq!(status, 500);
    assert_eq!(body.error, "Failed to fetch job");
    assert_eq!(body.details.as_deref(), Some("Queue backend error: down"));
}

#[test]
fn delete_is_legal_only_while_queued() {
    assert!(delete_job(ID, Ok(Some(job(JobStatus::Queued)))).is_ok());
    let others = [
        (JobStatus::Running, "Running"),
        (JobStatus::Completed, "Completed"),
        (JobStatus::Failed, "Failed"),
        (JobStatus::DeadLetter, "DeadLetter"),
    ];
    for (status, name) in others {
        let (code, body) = delete_job(ID, Ok(Some(job(status)))).unwrap_err();
        assert_eq!(code, 409);
        assert_eq!(body.error, format!("Cannot delete job in status {}", name));
        assert_eq!(body.details, None);
    }
    let (code, body) = delete_job(ID, Ok(None)).unwrap_err();
    assert_eq!(code, 404);
    assert_eq!(body.error, format!("Job {} not found", ID_TEXT));
    let (code, body) = delete_job(ID, Err(down())).unwrap_err();
    assert_eq!(code, 500);
    assert_eq!(body.error, "Failed to fetch job");
}

#[test]
fn delete_reply_is_204_or_500() {
    assert_eq!(delete_job_reply(Ok(())).unwrap(), 204);
    let (code, body) = delete_job_reply(Err(down())).unwrap_err();
    assert_eq!(code, 500);
    assert_eq!(body.error, "Failed to delete job");
    assert_eq!(body.details.as_deref(), Some("Queue backend error: down"));
}

#[test]
fn delete_through_the_api_shortens_the_queue_by_one() {
    let mut backend = MemoryQueueBackend::new();
    let kept = Job::with_identity(1, 5, "keep".to_string(), payload());
    let gone = Job::with_identity(2, 6, "drop".to_string(), payload());
    backend.enqueue(&kept).unwrap();
    backend.enqueue(&gone).unwrap();
    let before = backend.get_stats().unwrap().queue_depth;

    assert!(delete_job(2, backend.get_job(2)).is_ok());
    assert_eq!(delete_job_reply(backend.delete_job(2)).unwrap(), 204);

    assert!(backend.get_job(2).unwrap().is_none());
    assert_eq!(backend.get_stats().unwrap().queue_depth, before - 1);
    let (code, _) = get_job(2, backend.get_job(2)).unwrap_err();
    assert_eq!(code, 404);
}

#[test]
fn queue_stats_adds_queued_and_active() {
    let stats = QueueStats { queue_depth: 7, dlq_depth: 2, active_jobs: 3 };
    let body = queue_stats(Ok(stats)).unwrap();
    assert_eq!(body.queue_depth, 7);
    assert_eq!(body.dlq_depth, 2);
    assert_eq!(body.active_jobs, 3);
    assert_eq!(body.total_jobs, 10);
    let (code, body) = queue_stats(Err(down())).unwrap_err();
    assert_eq!(code, 500);
    assert_eq!(body.error, "Failed to fetch stats");
}

#[test]
fn stats_through_the_api_after_three_enqueues() {
    let mut backend = MemoryQueueBackend::new();
    backend.enqueue(&Job::with_identity(100, 0, "old".to_string(), payload())).unwrap();
    let initial = queue_stats(backend.get_stats()).unwrap().queue_depth;
    for id in 0..3u128 {
        backend.enqueue(&Job::with_identity(id, 0, "new".to_string(), payload())).unwrap();
    }
    let body = queue_stats(backend.get_stats()).unwrap();
    assert_eq!(body.queue_depth, initial + 3);
    assert_eq!(body.total_jobs, initial + 3);
}

#[test]
fn retry_is_legal_only_for_failed_or_dead_letter() {
    for status in [JobStatus::Queued, JobStatus::Running, JobStatus::Completed] {
        let name = status.name();
        let (code, body) =
            retry_job(ID, RetryJobRequest { reset_retry_count: true }, Ok(Some(job(status))))
                .unwrap_err();
        assert_eq!(code, 409);
        assert_eq!(
            body.error,
            format!("Job is not in Failed or DeadLetter status (current: {})", name)
        );
    }
    for status in [JobStatus::Failed, JobStatus::DeadLetter] {
        let mut dead = job(status);
        dead.retry_count = 3;
        let again =
            retry_job(ID, RetryJobRequest { reset_retry_count: false }, Ok(Some(dead))).unwrap();
        assert_eq!(again.status, JobStatus::Queued);
        assert_eq!(again.retry_count, 3);
        assert_eq!(again.id, ID);
    }
    let request = RetryJobRequest { reset_retry_count: false };
    let (code, body) = retry_job(ID, request, Ok(None)).unwrap_err();
    assert_eq!(code, 404);
    assert_eq!(body.error, format!("Job {} not found", ID_TEXT));
    let (code, body) = retry_job(ID, request, Err(down())).unwrap_err();
    assert_eq!(code, 500);
    assert_eq!(body.error, "Failed to fetch job");
}

#[test]
fn retry_reply_is_200_or_500() {
    let mut job = job(JobStatus::Queued);
    job.retry_count = 2;
    let (code, body) = retry_job_reply(&job, Ok(())).unwrap();
    assert_eq!(code, 200);
    assert_eq!(body.message, "Job requeued successfully");
    assert_eq!(body.job_id, ID);
    assert_eq!(body.retry_count, 2);
    let (code, body) = retry_job_reply(&job, Err(down())).unwrap_err();
    assert_eq!(code, 500);
    assert_eq!(body.error, "Failed to retry job");
    assert_eq!(body.details.as_deref(), Some("Queue backend error: down"));
}

#[test]
fn manual_retry_with_reset() {
    let mut backend = MemoryQueueBackend::new();
    let mut dead = Job::with_identity(ID, 0, "test".to_string(), payload());
    dead.retry_count = 3;
    dead.status = JobStatus::Running;
    backend.move_to_dlq(&dead).unwrap();
    assert!(backend.dequeue(1).unwrap().is_none());

    let request = RetryJobRequest { reset_retry_count: true };
    let again = retry_job(ID, request, backend.get_job(ID)).unwrap();
    assert_eq!(again.retry_count, 0);
    assert_eq!(again.status, JobStatus::Queued);
    let enqueued = backend.enqueue(&again);
    let (code, body) = retry_job_reply(&again, enqueued).unwrap();
    assert_eq!(code, 200);
    assert_eq!(body.retry_count, 0);

    let dequeued = backend.dequeue(1).unwrap().unwrap();
    assert_eq!(dequeued.id, ID);
    assert_eq!(dequeued.retry_count, 0);
    assert_eq!(dequeued.status, JobStatus::Queued);
}

#[test]
fn routes_of_the_api() {
    let routes = create_router();
    let table: Vec<(Method, &str, Endpoint)> =
        routes.iter().map(|route| (route.method, route.path, route.endpoint)).collect();
    assert_eq!(
        table,
        vec![
            (Method::Post, "/jobs", Endpoint::CreateJob),
            (Method::Get, "/jobs/:id", Endpoint::GetJob),
            (Method::Delete, "/jobs/:id", Endpoint::DeleteJob),
            (Method::Post, "/jobs/:id/retry", Endpoint::RetryJob),
            (Method::Get, "/queues/stats", Endpoint::QueueStats),
            (Method::Get, "/health", Endpoint::Health),
        ]
    );
}
