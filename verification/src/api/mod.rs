//! The HTTP surface, without the server: what each endpoint answers.

pub(crate) mod handlers;
pub(crate) mod routes;

pub use handlers::{
    create_job, create_job_reply, delete_job, delete_job_reply, get_job, health, queue_stats,
    retry_job, retry_job_reply, ErrorResponse, HealthResponse, QueueStatsResponse, Rejection,
    RetryJobRequest, RetryJobResponse, CONFLICT, CREATED, INTERNAL_SERVER_ERROR, NOT_FOUND,
    NO_CONTENT, OK,
};
pub use routes::{create_router, Endpoint, Method, Route};
