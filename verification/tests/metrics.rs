use iron_forge::metrics::{
    decimal, record_job_completed, record_job_failed, record_job_moved_to_dlq,
    record_job_retried, record_job_submitted, record_job_wait_time, update_queue_gauges, Measure,
    Sample,
};
use iron_forge::models::Priority;
use std::time::Duration;

fn labels(sample: &Sample) -> Vec<(&str, &str)> {
    sample.labels.iter().map(|label| (label.name, label.value.as_str())).collect()
}

#[test]
fn submitted_counts_by_kind_and_priority() {
    let sample = record_job_submitted("email.send", Priority::High);
    assert_eq!(sample.name, "ironforge_jobs_submitted_total");
    assert_eq!(labels(&sample), vec![("kind", "email.send"), ("priority", "high")]);
    assert!(matches!(sample.measure, Measure::Increment(1)));
    let sample = record_job_submitted("x", Priority::Critical);
    assert_eq!(labels(&sample), vec![("kind", "x"), ("priority", "critical")]);
}

#[test]
fn completed_counts_and_times() {
    let samples = record_job_completed("email.send", Duration::from_millis(1500));
    assert_eq!(samples.len(), 2);
    assert_eq!(samples[0].name, "ironforge_jobs_completed_total");
    assert_eq!(labels(&samples[0]), vec![("kind", "email.send")]);
    assert!(matches!(samples[0].measure, Measure::Increment(1)));
    assert_eq!(samples[1].name, "ironforge_job_duration_seconds");
    assert_eq!(labels(&samples[1]), vec![("kind", "email.send"), ("status", "completed")]);
    assert!(
        matches!(samples[1].measure, Measure::Elapsed(d) if d == Duration::from_millis(1500))
    );
}

#[test]
fn failed_counts_and_times() {
    let samples = record_job_failed("email.send", Duration::from_secs(2));
    assert_eq!(samples.len(), 2);
    assert_eq!(samples[0].name, "ironforge_jobs_failed_total");
    assert_eq!(labels(&samples[0]), vec![("kind", "email.send")]);
    assert!(matches!(samples[0].measure, Measure::Increment(1)));
    assert_eq!(samples[1].name, "ironforge_job_duration_seconds");
    assert_eq!(labels(&samples[1]), vec![("kind", "email.send"), ("status", "failed")]);
    assert!(matches!(samples[1].measure, Measure::Elapsed(d) if d == Duration::from_secs(2)));
}

#[test]
fn retried_counts_by_retry_count() {
    let sample = record_job_retried("email.send", 2);
    assert_eq!(sample.name, "ironforge_jobs_retried_total");
    assert_eq!(labels(&sample), vec![("kind", "email.send"), ("retry_count", "2")]);
    assert!(matches!(sample.measure, Measure::Increment(1)));
    let sample = record_job_retried("email.send", 255);
    assert_eq!(labels(&sample), vec![("kind", "email.send"), ("retry_count", "255")]);
}

#[test]
fn dead_lettered_counts_by_kind() {
    let sample = record_job_moved_to_dlq("email.send");
    assert_eq!(sample.name, "ironforge_jobs_dlq_total");
    assert_eq!(labels(&sample), vec![("kind", "email.send")]);
    assert!(matches!(sample.measure, Measure::Increment(1)));
}

#[test]
fn gauges_take_the_counts() {
    let samples = update_queue_gauges(7, 2, 3);
    let levels: Vec<(&str, i64)> = samples
        .iter()
        .map(|sample| match sample.measure {
            Measure::Level(level) => (sample.name, level),
            other => panic!("unexpected measure {:?}", other),
        })
        .collect();
    assert_eq!(
        levels,
        vec![("ironforge_queue_depth", 7), ("ironforge_dlq_depth", 2), ("ironforge_active_jobs", 3)]
    );
    assert!(samples.iter().all(|sample| sample.labels.is_empty()));
}

#[test]
fn wait_time_goes_to_its_histogram() {
    let sample = record_job_wait_time("email.send", Duration::from_millis(250));
    assert_eq!(sample.name, "ironforge_job_wait_time_seconds");
    assert_eq!(labels(&sample), vec![("kind", "email.send")]);
    assert!(matches!(sample.measure, Measure::Elapsed(d) if d == Duration::from_millis(250)));
}

#[test]
fn decimal_agrees_with_the_standard_form() {
    for number in 0..=255u8 {
        assert_eq!(decimal(number), number.to_string());
    }
    assert_eq!(decimal(0), "0");
    assert_eq!(decimal(10), "10");
    assert_eq!(decimal(100), "100");
    assert_eq!(decimal(207), "207");
}
