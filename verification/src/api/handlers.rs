//! The endpoints of the API as decisions.
//!
//! An endpoint reads the store, decides, and may write to the store. The
//! reading and writing are done by whoever serves the API; what is decided
//! in between, and what is answered in the end, is decided here.

use crate::foreign::{fresh_id, hyphenated, id_text, is_random_id, now_millis};
use crate::models::error::IronForgeError;
use crate::models::job::{CreateJobRequest, CreateJobResponse, Job, JobStatus, JobView};
use crate::queue::store::QueueStats;
use vstd::prelude::*;
use vstd::string::StringExecFns;

verus! {

pub const OK: u16 = 200;

pub const CREATED: u16 = 201;

pub const NO_CONTENT: u16 = 204;

pub const NOT_FOUND: u16 = 404;

pub const CONFLICT: u16 = 409;

pub const INTERNAL_SERVER_ERROR: u16 = 500;

/// The body of an answer that reports an error.
#[derive(Debug)]
pub struct ErrorResponse {
    pub error: String,
    pub details: Option<String>,
}

/// An answer that refuses a request: the status code and the body.
pub type Rejection = (u16, ErrorResponse);

impl ErrorResponse {
    /// An error without details.
    pub fn new(error: &str) -> (response: ErrorResponse)
        ensures
            response.says(error@),
    {
        ErrorResponse { error: String::from_str(error), details: None }
    }

    /// An error with details.
    pub fn with_details(error: &str, details: &str) -> (response: ErrorResponse)
        ensures
            response.error@ == error@,
            response.details matches Some(text) && text@ == details@,
    {
        ErrorResponse { error: String::from_str(error), details: Some(String::from_str(details)) }
    }

    /// The response says `error` and gives no details.
    pub open spec fn says(self, error: Seq<char>) -> bool {
        self.error@ == error && self.details is None
    }

    /// The response says `error` and gives the message of `cause` as its
    /// details.
    pub open spec fn blames(self, error: Seq<char>, cause: IronForgeError) -> bool {
        &&& self.error@ == error
        &&& self.details matches Some(text)
        &&& cause.is_message(text@)
    }

    /// An error whose details are the message of `cause`.
    fn caused_by(error: &str, cause: &IronForgeError) -> (response: ErrorResponse)
        ensures
            response.blames(error@, *cause),
    {
        ErrorResponse { error: String::from_str(error), details: Some(cause.message()) }
    }
}

/// The body of the health check.
#[derive(Debug)]
pub struct HealthResponse {
    pub status: String,
    pub version: String,
    pub service: String,
}

/// The body of the queue statistics.
#[derive(Debug, Clone, Copy, PartialEq, Eq, Structural)]
pub struct QueueStatsResponse {
    pub queue_depth: i64,
    pub dlq_depth: i64,
    pub active_jobs: i64,
    pub total_jobs: i64,
}

/// The body of a retry request.
#[derive(Debug, Clone, Copy, PartialEq, Eq, Structural)]
pub struct RetryJobRequest {
    pub reset_retry_count: bool,
}

/// The body of the answer to a retry that went through.
#[derive(Debug)]
pub struct RetryJobResponse {
    pub message: String,
    pub job_id: u128,
    pub retry_count: u8,
}

/// The text `Job {id} not found`.
pub open spec fn not_found_text(job_id: u128) -> Seq<char> {
    "Job "@ + hyphenated(job_id) + " not found"@
}

/// The answer to a request for a job that the store does not hold.
fn not_found(job_id: u128) -> (rejection: Rejection)
    ensures
        rejection.0 == 404,
        rejection.1.says(not_found_text(job_id)),
{
    let text = String::from_str("Job ").concat(id_text(job_id).as_str()).concat(" not found");
    (NOT_FOUND, ErrorResponse { error: text, details: None })
}

/// The answer to a request that failed on the store.
fn store_failed(error: &str, cause: &IronForgeError) -> (rejection: Rejection)
    ensures
        rejection.0 == 500,
        rejection.1.blames(error@, *cause),
{
    (INTERNAL_SERVER_ERROR, ErrorResponse::caused_by(error, cause))
}

/// `GET /health`: always 200, with the status `ok`, the version handed in
/// and the name of the service.
pub fn health(version: &str) -> (answer: (u16, HealthResponse))
    ensures
        answer.0 == 200,
        answer.1.status@ == "ok"@,
        answer.1.version@ == version@,
        answer.1.service@ == "IronForge Task Scheduler"@,
{
    (
        OK,
        HealthResponse {
            status: String::from_str("ok"),
            version: String::from_str(version),
            service: String::from_str("IronForge Task Scheduler"),
        },
    )
}

/// `POST /jobs`, first half: the job to enqueue for `request`. Its
/// identifier is random and its creation time is now; the rest is as
/// `CreateJobRequest::job` says.
pub fn create_job(request: CreateJobRequest) -> (job: Job)
    ensures
        job@ == request.job(job.id, job.created_at),
        is_random_id(job.id),
        job.created_at >= 0,
{
    let id = fresh_id();
    let created_at = now_millis();
    request.into_job(id, created_at)
}

/// `POST /jobs`, second half: the answer, once the enqueue of `job` has
/// ended with `enqueued`. 201 with the job's identifier, status and
/// creation time, or 500 if the store failed.
pub fn create_job_reply(job: &Job, enqueued: Result<(), IronForgeError>) -> (answer: Result<
    (u16, CreateJobResponse),
    Rejection,
>)
    ensures
        match enqueued {
            Ok(_) => answer matches Ok(created) && created.0 == 201 && created.1 == (
            CreateJobResponse { id: job.id, status: job.status, created_at: job.created_at }),
            Err(cause) => answer matches Err(rejection) && rejection.0 == 500
                && rejection.1.blames("Failed to enqueue job"@, cause),
        },
{
    match enqueued {
        Ok(_) => Ok(
            (
                CREATED,
                CreateJobResponse { id: job.id, status: job.status, created_at: job.created_at },
            ),
        ),
        Err(cause) => Err(store_failed("Failed to enqueue job", &cause)),
    }
}

/// `GET /jobs/{id}`: the answer, once the store has been asked for the
/// job with `found` as the outcome. The job with 200, or 404 if the store
/// holds none, or 500 if the store failed.
pub fn get_job(job_id: u128, found: Result<Option<Job>, IronForgeError>) -> (answer: Result<
    Job,
    Rejection,
>)
    ensures
        match found {
            Ok(Some(job)) => answer matches Ok(body) && body == job,
            Ok(None) => answer matches Err(rejection) && rejection.0 == 404 && rejection.1.says(
                not_found_text(job_id),
            ),
            Err(cause) => answer matches Err(rejection) && rejection.0 == 500
                && rejection.1.blames("Failed to fetch job"@, cause),
        },
{
    match found {
        Ok(Some(job)) => Ok(job),
        Ok(None) => Err(not_found(job_id)),
        Err(cause) => Err(store_failed("Failed to fetch job", &cause)),
    }
}

/// The text `Cannot delete job in status {status}`.
pub open spec fn cannot_delete_text(status: JobStatus) -> Seq<char> {
    "Cannot delete job in status "@ + status.spec_name()
}

/// `DELETE /jobs/{id}`, first half: whether the delete may go ahead, once
/// the store has been asked for the job with `found` as the outcome. Only
/// a job that is `Queued` may be deleted: any other status is answered
/// with 409. 404 if the store holds no such job, 500 if the store failed.
pub fn delete_job(job_id: u128, found: Result<Option<Job>, IronForgeError>) -> (answer: Result<
    (),
    Rejection,
>)
    ensures
        match found {
            Ok(Some(job)) => if job.status == JobStatus::Queued {
                answer is Ok
            } else {
                answer matches Err(rejection) && rejection.0 == 409 && rejection.1.says(
                    cannot_delete_text(job.status),
                )
            },
            Ok(None) => answer matches Err(rejection) && rejection.0 == 404 && rejection.1.says(
                not_found_text(job_id),
            ),
            Err(cause) => answer matches Err(rejection) && rejection.0 == 500
                && rejection.1.blames("Failed to fetch job"@, cause),
        },
{
    match found {
        Ok(Some(job)) => {
            if job.status == JobStatus::Queued {
                Ok(())
            } else {
                let text = String::from_str("Cannot delete job in status ").concat(
                    job.status.name(),
                );
                Err((CONFLICT, ErrorResponse { error: text, details: None }))
            }
        },
        Ok(None) => Err(not_found(job_id)),
        Err(cause) => Err(store_failed("Failed to fetch job", &cause)),
    }
}

/// `DELETE /jobs/{id}`, second half: the answer, once the delete has ended
/// with `deleted`. 204, or 500 if the store failed.
pub fn delete_job_reply(deleted: Result<(), IronForgeError>) -> (answer: Result<u16, Rejection>)
    ensures
        match deleted {
            Ok(_) => answer == Ok::<u16, Rejection>(204),
            Err(cause) => answer matches Err(rejection) && rejection.0 == 500
                && rejection.1.blames("Failed to delete job"@, cause),
        },
{
    match deleted {
        Ok(_) => Ok(NO_CONTENT),
        Err(cause) => Err(store_failed("Failed to delete job", &cause)),
    }
}

/// `GET /queues/stats`: the answer, once the store has been asked for its
/// counts with `stats` as the outcome. The three counts and their total,
/// which counts the queued and the active jobs; 500 if the store failed.
pub fn queue_stats(stats: Result<QueueStats, IronForgeError>) -> (answer: Result<
    QueueStatsResponse,
    Rejection,
>)
    requires
        stats matches Ok(counts) ==> i64::MIN <= counts.queue_depth + counts.active_jobs
            <= i64::MAX,
    ensures
        match stats {
            Ok(counts) => answer matches Ok(body) && body == (QueueStatsResponse {
                queue_depth: counts.queue_depth,
                dlq_depth: counts.dlq_depth,
                active_jobs: counts.active_jobs,
                total_jobs: (counts.queue_depth + counts.active_jobs) as i64,
            }),
            Err(cause) => answer matches Err(rejection) && rejection.0 == 500
                && rejection.1.blames("Failed to fetch stats"@, cause),
        },
{
    match stats {
        Ok(counts) => Ok(
            QueueStatsResponse {
                queue_depth: counts.queue_depth,
                dlq_depth: counts.dlq_depth,
                active_jobs: counts.active_jobs,
                total_jobs: counts.queue_depth + counts.active_jobs,
            },
        ),
        Err(cause) => Err(store_failed("Failed to fetch stats", &cause)),
    }
}

/// The text `Job is not in Failed or DeadLetter status (current: {status})`.
pub open spec fn cannot_retry_text(status: JobStatus) -> Seq<char> {
    "Job is not in Failed or DeadLetter status (current: "@ + status.spec_name() + ")"@
}

/// The job that a retry puts back in the queue: `Queued`, with its
/// retries counted from zero again if the request asks for it.
pub open spec fn retried(job: JobView, request: RetryJobRequest) -> JobView {
    JobView {
        status: JobStatus::Queued,
        retry_count: if request.reset_retry_count {
            0
        } else {
            job.retry_count
        },
        ..job
    }
}

/// `POST /jobs/{id}/retry`, first half: the job to enqueue, once the store
/// has been asked for the job with `found` as the outcome. Only a job
/// that is `Failed` or `DeadLetter` may be retried: any other status is
/// answered with 409. 404 if the store holds no such job, 500 if the
/// store failed.
pub fn retry_job(
    job_id: u128,
    request: RetryJobRequest,
    found: Result<Option<Job>, IronForgeError>,
) -> (answer: Result<Job, Rejection>)
    ensures
        match found {
            Ok(Some(job)) => if job.status == JobStatus::DeadLetter || job.status
                == JobStatus::Failed {
                answer matches Ok(again) && again@ == retried(job@, request)
            } else {
                answer matches Err(rejection) && rejection.0 == 409 && rejection.1.says(
                    cannot_retry_text(job.status),
                )
            },
            Ok(None) => answer matches Err(rejection) && rejection.0 == 404 && rejection.1.says(
                not_found_text(job_id),
            ),
            Err(cause) => answer matches Err(rejection) && rejection.0 == 500
                && rejection.1.blames("Failed to fetch job"@, cause),
        },
{
    match found {
        Ok(Some(job)) => {
            if job.status != JobStatus::DeadLetter && job.status != JobStatus::Failed {
                let text = String::from_str(
                    "Job is not in Failed or DeadLetter status (current: ",
                ).concat(job.status.name()).concat(")");
                Err((CONFLICT, ErrorResponse { error: text, details: None }))
            } else {
                let mut job = job;
                if request.reset_retry_count {
                    job.retry_count = 0;
                }
                job.status = JobStatus::Queued;
                Ok(job)
            }
        },
        Ok(None) => Err(not_found(job_id)),
        Err(cause) => Err(store_failed("Failed to fetch job", &cause)),
    }
}

/// `POST /jobs/{id}/retry`, second half: the answer, once the enqueue of
/// `job` has ended with `enqueued`. 200 with the retries on the job's
/// record, or 500 if the store failed.
pub fn retry_job_reply(job: &Job, enqueued: Result<(), IronForgeError>) -> (answer: Result<
    (u16, RetryJobResponse),
    Rejection,
>)
    ensures
        match enqueued {
            Ok(_) => answer matches Ok(done) && done.0 == 200 && done.1.message@
                == "Job requeued successfully"@ && done.1.job_id == job.id && done.1.retry_count
                == job.retry_count,
            Err(cause) => answer matches Err(rejection) && rejection.0 == 500
                && rejection.1.blames("Failed to retry job"@, cause),
        },
{
    match enqueued {
        Ok(_) => Ok(
            (
                OK,
                RetryJobResponse {
                    message: String::from_str("Job requeued successfully"),
                    job_id: job.id,
                    retry_count: job.retry_count,
                },
            ),
        ),
        Err(cause) => Err(store_failed("Failed to retry job", &cause)),
    }
}

} // verus!
