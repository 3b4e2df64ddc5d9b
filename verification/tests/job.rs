use iron_forge::models::{
    CreateJobRequest, IronForgeError, Job, JobStatus, Priority, BASE_DELAY_MS, MAX_DELAY_MS,
};
use std::collections::HashMap;

fn object(key: &str, value: &str) -> serde_json::Value {
    let mut map = serde_json::Map::new();
    map.insert(key.to_string(), serde_json::Value::String(value.to_string()));
    serde_json::Value::Object(map)
}

fn empty_object() -> serde_json::Value {
    serde_json::Value::Object(serde_json::Map::new())
}

fn job_at(priority: Priority, created_at: i64) -> Job {
    let mut job = Job::with_identity(1, created_at, "test".to_string(), empty_object());
    job.priority = priority;
    job
}

#[test]
fn test_priority_scores() {
    assert_eq!(Priority::Critical.to_score(), 0);
    assert_eq!(Priority::High.to_score(), 1000);
    assert_eq!(Priority::Medium.to_score(), 2000);
    assert_eq!(Priority::Low.to_score(), 3000);
}

#[test]
fn test_job_creation() {
    let job = Job::new("test.job".to_string(), object("key", "value"));

    assert_eq!(job.kind, "test.job");
    assert_eq!(job.status, JobStatus::Queued);
    assert_eq!(job.retry_count, 0);
    assert_eq!(job.priority, Priority::Medium);
}

#[test]
fn test_backoff_calculation() {
    let mut job = Job::new("test".to_string(), empty_object());

    job.retry_count = 0;
    assert_eq!(job.calculate_backoff_delay(), 1000);

    job.retry_count = 1;
    assert_eq!(job.calculate_backoff_delay(), 2000);

    job.retry_count = 2;
    assert_eq!(job.calculate_backoff_delay(), 4000);

    job.retry_count = 10;
    assert_eq!(job.calculate_backoff_delay(), 300_000);
}

#[test]
fn new_job_has_the_defaults() {
    let payload = object("key", "value");
    let job = Job::new("email.send".to_string(), payload.clone());
    assert_eq!(job.payload, payload);
    assert_eq!(job.max_retries, 3);
    assert_eq!(job.progress, 0);
    assert_eq!(job.scheduled_for, None);
    assert_eq!(job.timeout_ms, 30_000);
    assert!(job.metadata.is_empty());
    assert!(job.created_at >= 0);
}

#[test]
fn new_job_has_a_random_version_four_identifier() {
    let first = Job::new("a".to_string(), empty_object());
    let second = Job::new("a".to_string(), empty_object());
    assert_ne!(first.id, second.id);
    for id in [first.id, second.id] {
        assert_eq!((id >> 76) & 0xf, 4);
        assert_eq!((id >> 62) & 0x3, 2);
        assert_eq!(uuid::Uuid::from_u128(id).get_version_num(), 4);
    }
}

#[test]
fn new_job_is_created_now() {
    let before = chrono::Utc::now().timestamp_millis();
    let job = Job::new("a".to_string(), empty_object());
    let after = chrono::Utc::now().timestamp_millis();
    assert!(before <= job.created_at && job.created_at <= after);
}

#[test]
fn with_identity_keeps_what_it_is_given() {
    let job = Job::with_identity(42, 1_700_000_000_123, "k".to_string(), object("a", "b"));
    assert_eq!(job.id, 42);
    assert_eq!(job.created_at, 1_700_000_000_123);
    assert_eq!(job.kind, "k");
    assert_eq!(job.payload, object("a", "b"));
    assert_eq!(job.status, JobStatus::Queued);
    assert_eq!(job.priority, Priority::Medium);
}

#[test]
fn clone_keeps_every_field() {
    let mut job = Job::with_identity(7, 99, "k".to_string(), object("a", "b"));
    job.metadata.insert("team".to_string(), "core".to_string());
    job.retry_count = 2;
    job.progress = 40;
    job.scheduled_for = Some(1234);
    job.status = JobStatus::Running;
    let copy = job.clone();
    assert_eq!(copy.id, 7);
    assert_eq!(copy.created_at, 99);
    assert_eq!(copy.kind, "k");
    assert_eq!(copy.payload, object("a", "b"));
    assert_eq!(copy.metadata.get("team").map(|s| s.as_str()), Some("core"));
    assert_eq!(copy.retry_count, 2);
    assert_eq!(copy.progress, 40);
    assert_eq!(copy.scheduled_for, Some(1234));
    assert_eq!(copy.status, JobStatus::Running);
}

#[test]
fn backoff_doubles_up_to_the_cap() {
    let mut job = job_at(Priority::Medium, 0);
    let expected: [(u8, u64); 8] = [
        (3, 8_000),
        (4, 16_000),
        (5, 32_000),
        (6, 64_000),
        (7, 128_000),
        (8, 256_000),
        (9, 300_000),
        (255, 300_000),
    ];
    for (retry_count, delay) in expected {
        job.retry_count = retry_count;
        assert_eq!(job.calculate_backoff_delay(), delay);
    }
    assert_eq!(BASE_DELAY_MS, 1000);
    assert_eq!(MAX_DELAY_MS, 300_000);
}

#[test]
fn backoff_never_shrinks_and_stays_in_bounds() {
    let mut job = job_at(Priority::Medium, 0);
    let mut last = 0;
    for retry_count in 0..=255u8 {
        job.retry_count = retry_count;
        let delay = job.calculate_backoff_delay();
        assert!(delay >= last);
        assert!((1000..=300_000).contains(&delay));
        last = delay;
    }
}

#[test]
fn score_is_tier_plus_millisecond() {
    assert_eq!(job_at(Priority::High, 1_700_000_000_123).calculate_redis_score(), 1123);
    assert_eq!(job_at(Priority::Critical, 1_700_000_000_999).calculate_redis_score(), 999);
    assert_eq!(job_at(Priority::Medium, 5000).calculate_redis_score(), 2000);
    assert_eq!(job_at(Priority::Low, 1).calculate_redis_score(), 3001);
}

#[test]
fn score_of_a_time_before_the_epoch_stays_in_its_tier() {
    assert_eq!(job_at(Priority::Critical, -1).calculate_redis_score(), 999);
    assert_eq!(job_at(Priority::High, -1000).calculate_redis_score(), 1000);
    assert_eq!(job_at(Priority::High, -999).calculate_redis_score(), 1001);
    assert_eq!(job_at(Priority::Low, i64::MIN).calculate_redis_score(), 3192);
    assert_eq!(job_at(Priority::Low, i64::MAX).calculate_redis_score(), 3807);
}

#[test]
fn scores_of_different_tiers_never_cross() {
    let order = [Priority::Critical, Priority::High, Priority::Medium, Priority::Low];
    let times = [0i64, 1, 999, 1000, 1_700_000_000_999, -1, -999, i64::MIN, i64::MAX];
    for urgent in 0..order.len() {
        for other in (urgent + 1)..order.len() {
            for a in times {
                for b in times {
                    assert!(
                        job_at(order[urgent], a).calculate_redis_score()
                            < job_at(order[other], b).calculate_redis_score()
                    );
                }
            }
        }
    }
}

#[test]
fn wire_names_are_lower_case() {
    assert_eq!(Priority::Critical.wire_name(), "critical");
    assert_eq!(Priority::High.wire_name(), "high");
    assert_eq!(Priority::Medium.wire_name(), "medium");
    assert_eq!(Priority::Low.wire_name(), "low");
    assert_eq!(JobStatus::Queued.wire_name(), "queued");
    assert_eq!(JobStatus::Running.wire_name(), "running");
    assert_eq!(JobStatus::Completed.wire_name(), "completed");
    assert_eq!(JobStatus::Failed.wire_name(), "failed");
    assert_eq!(JobStatus::DeadLetter.wire_name(), "deadletter");
    assert_eq!(JobStatus::DeadLetter.name(), "DeadLetter");
    assert_eq!(JobStatus::Queued.name(), "Queued");
}

#[test]
fn request_options_replace_the_defaults() {
    let mut metadata = HashMap::new();
    metadata.insert("team".to_string(), "core".to_string());
    let request = CreateJobRequest {
        kind: "report.generate".to_string(),
        payload: object("a", "b"),
        priority: Some(Priority::Critical),
        max_retries: Some(7),
        timeout_ms: Some(1500),
        metadata,
    };
    let job = request.into_job(9, 1234);
    assert_eq!(job.id, 9);
    assert_eq!(job.created_at, 1234);
    assert_eq!(job.kind, "report.generate");
    assert_eq!(job.payload, object("a", "b"));
    assert_eq!(job.priority, Priority::Critical);
    assert_eq!(job.max_retries, 7);
    assert_eq!(job.timeout_ms, 1500);
    assert_eq!(job.metadata.len(), 1);
    assert_eq!(job.status, JobStatus::Queued);
    assert_eq!(job.retry_count, 0);
}

#[test]
fn request_without_options_keeps_the_defaults() {
    let request = CreateJobRequest {
        kind: "k".to_string(),
        payload: empty_object(),
        priority: None,
        max_retries: None,
        timeout_ms: None,
        metadata: HashMap::new(),
    };
    let job = request.into_job(9, 1234);
    assert_eq!(job.priority, Priority::Medium);
    assert_eq!(job.max_retries, 3);
    assert_eq!(job.timeout_ms, 30_000);
    assert!(job.metadata.is_empty());
}

#[test]
fn error_messages() {
    assert_eq!(IronForgeError::JobNotFound("abc".to_string()).message(), "Job not found: abc");
    assert_eq!(
        IronForgeError::JobAlreadyExists("abc".to_string()).message(),
        "Job already exists: abc"
    );
    assert_eq!(
        IronForgeError::InvalidStatusTransition {
            from: JobStatus::Completed,
            to: JobStatus::Queued
        }
        .message(),
        "Invalid job status transition: Completed -> Queued"
    );
    assert_eq!(IronForgeError::Timeout.message(), "Timeout exceeded");
    assert_eq!(
        IronForgeError::QueueBackend("down".to_string()).message(),
        "Queue backend error: down"
    );
    assert_eq!(IronForgeError::Worker("boom".to_string()).message(), "Worker error: boom");
}

#[test]
fn wrapped_errors_keep_their_own_words() {
    let source = serde_json::from_str::<serde_json::Value>("{").unwrap_err();
    let words = source.to_string();
    let error = IronForgeError::from(source);
    assert!(matches!(error, IronForgeError::Serialization(_)));
    assert_eq!(error.message(), format!("Serialization error: {}", words));

    let source = redis::RedisError::from((redis::ErrorKind::IoError, "connection lost"));
    let words = source.to_string();
    let error = IronForgeError::from(source);
    assert!(matches!(error, IronForgeError::Redis(_)));
    assert_eq!(error.message(), format!("Redis error: {}", words));
}

#[test]
fn random_identifier_bits() {
    assert!(!format!("{:?}", Priority::Low).is_empty());
    let job = Job::new("a".to_string(), empty_object());
    assert_eq!(
        job.id & 0x0000_0000_0000_f000_c000_0000_0000_0000u128,
        0x0000_0000_0000_4000_8000_0000_0000_0000u128
    );
}
