//! The metrics of the service: which sample each event of a job's life
//! yields. Handing the samples to a recorder is left to the caller.

use crate::models::job::Priority;
use std::time::Duration;
use vstd::prelude::*;
use vstd::string::StringExecFns;

verus! {

/// What one sample does to its metric.
#[derive(Debug, Clone, Copy)]
pub enum Measure {
    /// A counter goes up by this much.
    Increment(u64),
    /// A gauge is set to this level.
    Level(i64),
    /// A histogram records this span of time, in seconds.
    Elapsed(Duration),
}

/// A label of a sample.
#[derive(Debug)]
pub struct Label {
    pub name: &'static str,
    pub value: String,
}

/// One sample for the recorder.
#[derive(Debug)]
pub struct Sample {
    pub name: &'static str,
    pub labels: Vec<Label>,
    pub measure: Measure,
}

impl Sample {
    /// The sample is for the metric `name`, without labels.
    pub open spec fn plain(self, name: Seq<char>) -> bool {
        self.name@ == name && self.labels.len() == 0
    }

    /// The sample is for the metric `name`, with one label.
    pub open spec fn labelled(self, name: Seq<char>, label: Seq<char>, value: Seq<char>) -> bool {
        self.name@ == name && self.labels.len() == 1 && self.labels[0].name@ == label
            && self.labels[0].value@ == value
    }

    /// The sample is for the metric `name`, with two labels in this order.
    pub open spec fn labelled_twice(
        self,
        name: Seq<char>,
        first: Seq<char>,
        first_value: Seq<char>,
        second: Seq<char>,
        second_value: Seq<char>,
    ) -> bool {
        self.name@ == name && self.labels.len() == 2 && self.labels[0].name@ == first
            && self.labels[0].value@ == first_value && self.labels[1].name@ == second
            && self.labels[1].value@ == second_value
    }
}

/// The character of the decimal digit `digit`, for `digit` in `0..10`.
pub open spec fn digit_char(digit: nat) -> char {
    seq!['0', '1', '2', '3', '4', '5', '6', '7', '8', '9'][digit as int]
}

/// The decimal form of `number`, without leading zeros.
pub open spec fn decimal_text(number: nat) -> Seq<char>
    decreases number,
{
    if number < 10 {
        seq![digit_char(number)]
    } else {
        decimal_text(number / 10).push(digit_char(number % 10))
    }
}

/// The text of one decimal digit.
fn digit_text(digit: u8) -> (text: &'static str)
    requires
        digit < 10,
    ensures
        text@ == seq![digit_char(digit as nat)],
{
    proof {
        reveal_strlit("0");
        reveal_strlit("1");
        reveal_strlit("2");
        reveal_strlit("3");
        reveal_strlit("4");
        reveal_strlit("5");
        reveal_strlit("6");
        reveal_strlit("7");
        reveal_strlit("8");
        reveal_strlit("9");
    }
    let text = if digit == 0 {
        "0"
    } else if digit == 1 {
        "1"
    } else if digit == 2 {
        "2"
    } else if digit == 3 {
        "3"
    } else if digit == 4 {
        "4"
    } else if digit == 5 {
        "5"
    } else if digit == 6 {
        "6"
    } else if digit == 7 {
        "7"
    } else if digit == 8 {
        "8"
    } else {
        "9"
    };
    assert(text@ =~= seq![digit_char(digit as nat)]);
    text
}

/// The decimal form of `number`.
pub fn decimal(number: u8) -> (text: String)
    ensures
        text@ == decimal_text(number as nat),
{
    if number < 10 {
        String::from_str(digit_text(number))
    } else if number < 100 {
        let text = String::from_str(digit_text(number / 10)).concat(digit_text(number % 10));
        proof {
            reveal_with_fuel(decimal_text, 2);
            assert(text@ =~= decimal_text(number as nat));
        }
        text
    } else {
        let text = String::from_str(digit_text(number / 100)).concat(
            digit_text(number / 10 % 10),
        ).concat(digit_text(number % 10));
        proof {
            reveal_with_fuel(decimal_text, 3);
            assert(number as nat / 10 / 10 == number as nat / 100);
            assert(text@ =~= decimal_text(number as nat));
        }
        text
    }
}

/// A sample with one label.
fn with_label(name: &'static str, label: &'static str, value: String, measure: Measure) -> (sample:
    Sample)
    ensures
        sample.labelled(name@, label@, value@),
        sample.measure == measure,
{
    let mut labels: Vec<Label> = Vec::new();
    labels.push(Label { name: label, value });
    Sample { name, labels, measure }
}

/// A sample with two labels.
fn with_labels(
    name: &'static str,
    first: &'static str,
    first_value: String,
    second: &'static str,
    second_value: String,
    measure: Measure,
) -> (sample: Sample)
    ensures
        sample.labelled_twice(name@, first@, first_value@, second@, second_value@),
        sample.measure == measure,
{
    let mut labels: Vec<Label> = Vec::new();
    labels.push(Label { name: first, value: first_value });
    labels.push(Label { name: second, value: second_value });
    Sample { name, labels, measure }
}

/// A job was submitted: the counter of submitted jobs goes up by one,
/// under the job's kind and priority.
pub fn record_job_submitted(kind: &str, priority: Priority) -> (sample: Sample)
    ensures
        sample.labelled_twice(
            "ironforge_jobs_submitted_total"@,
            "kind"@,
            kind@,
            "priority"@,
            priority.spec_wire_name(),
        ),
        sample.measure == Measure::Increment(1),
{
    with_labels(
        "ironforge_jobs_submitted_total",
        "kind",
        String::from_str(kind),
        "priority",
        String::from_str(priority.wire_name()),
        Measure::Increment(1),
    )
}

/// A job was completed: the counter of completed jobs goes up by one
/// under the job's kind, and the duration goes to the histogram of job
/// durations under the kind and the status `completed`.
pub fn record_job_completed(kind: &str, duration: Duration) -> (samples: Vec<Sample>)
    ensures
        samples.len() == 2,
        samples[0].labelled("ironforge_jobs_completed_total"@, "kind"@, kind@),
        samples[0].measure == Measure::Increment(1),
        samples[1].labelled_twice(
            "ironforge_job_duration_seconds"@,
            "kind"@,
            kind@,
            "status"@,
            "completed"@,
        ),
        samples[1].measure == Measure::Elapsed(duration),
{
    let mut samples: Vec<Sample> = Vec::new();
    samples.push(
        with_label(
            "ironforge_jobs_completed_total",
            "kind",
            String::from_str(kind),
            Measure::Increment(1),
        ),
    );
    samples.push(
        with_labels(
            "ironforge_job_duration_seconds",
            "kind",
            String::from_str(kind),
            "status",
            String::from_str("completed"),
            Measure::Elapsed(duration),
        ),
    );
    samples
}

/// A job failed: the counter of failed jobs goes up by one under the
/// job's kind, and the duration goes to the histogram of job durations
/// under the kind and the status `failed`.
pub fn record_job_failed(kind: &str, duration: Duration) -> (samples: Vec<Sample>)
    ensures
        samples.len() == 2,
        samples[0].labelled("ironforge_jobs_failed_total"@, "kind"@, kind@),
        samples[0].measure == Measure::Increment(1),
        samples[1].labelled_twice(
            "ironforge_job_duration_seconds"@,
            "kind"@,
            kind@,
            "status"@,
            "failed"@,
        ),
        samples[1].measure == Measure::Elapsed(duration),
{
    let mut samples: Vec<Sample> = Vec::new();
    samples.push(
        with_label(
            "ironforge_jobs_failed_total",
            "kind",
            String::from_str(kind),
            Measure::Increment(1),
        ),
    );
    samples.push(
        with_labels(
            "ironforge_job_duration_seconds",
            "kind",
            String::from_str(kind),
            "status",
            String::from_str("failed"),
            Measure::Elapsed(duration),
        ),
    );
    samples
}

/// A job is retried: the counter of retries goes up by one, under the
/// job's kind and the number of its retries in decimal.
pub fn record_job_retried(kind: &str, retry_count: u8) -> (sample: Sample)
    ensures
        sample.labelled_twice(
            "ironforge_jobs_retried_total"@,
            "kind"@,
            kind@,
            "retry_count"@,
            decimal_text(retry_count as nat),
        ),
        sample.measure == Measure::Increment(1),
{
    with_labels(
        "ironforge_jobs_retried_total",
        "kind",
        String::from_str(kind),
        "retry_count",
        decimal(retry_count),
        Measure::Increment(1),
    )
}

/// A job went to the dead-letter queue: the counter of dead-lettered jobs
/// goes up by one under the job's kind.
pub fn record_job_moved_to_dlq(kind: &str) -> (sample: Sample)
    ensures
        sample.labelled("ironforge_jobs_dlq_total"@, "kind"@, kind@),
        sample.measure == Measure::Increment(1),
{
    with_label("ironforge_jobs_dlq_total", "kind", String::from_str(kind), Measure::Increment(1))
}

/// The gauges of the queue take the three counts: the depth of the queue,
/// the depth of the dead-letter queue and the number of active jobs.
pub fn update_queue_gauges(queue_depth: i64, dlq_depth: i64, active_jobs: i64) -> (samples: Vec<
    Sample,
>)
    ensures
        samples.len() == 3,
        samples[0].plain("ironforge_queue_depth"@),
        samples[0].measure == Measure::Level(queue_depth),
        samples[1].plain("ironforge_dlq_depth"@),
        samples[1].measure == Measure::Level(dlq_depth),
        samples[2].plain("ironforge_active_jobs"@),
        samples[2].measure == Measure::Level(active_jobs),
{
    let mut samples: Vec<Sample> = Vec::new();
    samples.push(
        Sample { name: "ironforge_queue_depth", labels: Vec::new(), measure: Measure::Level(
            queue_depth,
        ) },
    );
    samples.push(
        Sample { name: "ironforge_dlq_depth", labels: Vec::new(), measure: Measure::Level(
            dlq_depth,
        ) },
    );
    samples.push(
        Sample { name: "ironforge_active_jobs", labels: Vec::new(), measure: Measure::Level(
            active_jobs,
        ) },
    );
    samples
}

/// A job waited in the queue: the wait goes to the histogram of waiting
/// times under the job's kind.
pub fn record_job_wait_time(kind: &str, wait_time: Duration) -> (sample: Sample)
    ensures
        sample.labelled("ironforge_job_wait_time_seconds"@, "kind"@, kind@),
        sample.measure == Measure::Elapsed(wait_time),
{
    with_label(
        "ironforge_job_wait_time_seconds",
        "kind",
        String::from_str(kind),
        Measure::Elapsed(wait_time),
    )
}

} // verus!
