//! The error type of the library.

use crate::models::job::JobStatus;
use vstd::prelude::*;
use vstd::std_specs::convert::FromSpecImpl;
use vstd::string::{to_string_from_display_ensures, StringExecFns};

verus! {

/// What can go wrong in the queue, the workers and the API.
#[derive(Debug)]
pub enum IronForgeError {
    /// The store is unreachable or answered with a protocol error.
    Redis(redis::RedisError),
    /// A job record could not be written to or read from its stored form.
    Serialization(serde_json::Error),
    JobNotFound(String),
    JobAlreadyExists(String),
    InvalidStatusTransition { from: JobStatus, to: JobStatus },
    /// A handler ran past the time limit of its job.
    Timeout,
    QueueBackend(String),
    Worker(String),
}

/// The library's result type.
pub type Result<T> = std::result::Result<T, IronForgeError>;

/// `text` begins with `prefix`.
pub open spec fn starts_with(text: Seq<char>, prefix: Seq<char>) -> bool {
    prefix.len() <= text.len() && text.subrange(0, prefix.len() as int) == prefix
}

impl From<redis::RedisError> for IronForgeError {
    fn from(source: redis::RedisError) -> (error: IronForgeError) {
        IronForgeError::Redis(source)
    }
}

impl FromSpecImpl<redis::RedisError> for IronForgeError {
    open spec fn obeys_from_spec() -> bool {
        true
    }

    open spec fn from_spec(source: redis::RedisError) -> IronForgeError {
        IronForgeError::Redis(source)
    }
}

impl From<serde_json::Error> for IronForgeError {
    fn from(source: serde_json::Error) -> (error: IronForgeError) {
        IronForgeError::Serialization(source)
    }
}

impl FromSpecImpl<serde_json::Error> for IronForgeError {
    open spec fn obeys_from_spec() -> bool {
        true
    }

    open spec fn from_spec(source: serde_json::Error) -> IronForgeError {
        IronForgeError::Serialization(source)
    }
}

impl IronForgeError {
    /// The fixed text that opens the message of each kind of error.
    pub open spec fn headline(self) -> Seq<char> {
        match self {
            IronForgeError::Redis(_) => "Redis error: "@,
            IronForgeError::Serialization(_) => "Serialization error: "@,
            IronForgeError::JobNotFound(_) => "Job not found: "@,
            IronForgeError::JobAlreadyExists(_) => "Job already exists: "@,
            IronForgeError::InvalidStatusTransition { .. } => "Invalid job status transition: "@,
            IronForgeError::Timeout => "Timeout exceeded"@,
            IronForgeError::QueueBackend(_) => "Queue backend error: "@,
            IronForgeError::Worker(_) => "Worker error: "@,
        }
    }

    /// The whole message, for the kinds whose detail the library holds
    /// itself; for the two that wrap an error of another crate, the
    /// headline alone.
    pub open spec fn known_text(self) -> Seq<char> {
        match self {
            IronForgeError::JobNotFound(what) => self.headline() + what@,
            IronForgeError::JobAlreadyExists(what) => self.headline() + what@,
            IronForgeError::InvalidStatusTransition { from, to } => self.headline()
                + from.spec_name() + " -> "@ + to.spec_name(),
            IronForgeError::QueueBackend(what) => self.headline() + what@,
            IronForgeError::Worker(what) => self.headline() + what@,
            _ => self.headline(),
        }
    }

    /// Whether the error wraps one of another crate, whose wording is that
    /// crate's own.
    pub open spec fn wraps_foreign(self) -> bool {
        self is Redis || self is Serialization
    }

    /// Whether `detail` is what the wrapped error says of itself when it
    /// is displayed.
    pub open spec fn is_detail(self, detail: String) -> bool {
        match self {
            IronForgeError::Redis(source) => to_string_from_display_ensures::<redis::RedisError>(
                &source,
                detail,
            ),
            IronForgeError::Serialization(source) => to_string_from_display_ensures::<
                serde_json::Error,
            >(&source, detail),
            _ => false,
        }
    }

    /// Whether `text` is the message of the error: for a wrapped error
    /// the headline followed by the wrapped error's own words, for every
    /// other kind `known_text`.
    pub open spec fn is_message(self, text: Seq<char>) -> bool {
        if self.wraps_foreign() {
            exists|detail: String| self.is_detail(detail) && text == self.headline() + detail@
        } else {
            text == self.known_text()
        }
    }

    /// The message of the error, as a person would read it.
    pub fn message(&self) -> (text: String)
        ensures
            self.is_message(text@),
            starts_with(text@, self.headline()),
    {
        match self {
            IronForgeError::Redis(source) => {
                let detail = source.to_string();
                let text = String::from_str("Redis error: ").concat(detail.as_str());
                assert(text@.subrange(0, "Redis error: "@.len() as int) =~= "Redis error: "@);
                assert(self.is_detail(detail) && text@ == self.headline() + detail@);
                text
            },
            IronForgeError::Serialization(source) => {
                let detail = source.to_string();
                let text = String::from_str("Serialization error: ").concat(detail.as_str());
                assert(text@.subrange(0, "Serialization error: "@.len() as int)
                    =~= "Serialization error: "@);
                assert(self.is_detail(detail) && text@ == self.headline() + detail@);
                text
            },
            IronForgeError::JobNotFound(what) => {
                let text = String::from_str("Job not found: ").concat(what.as_str());
                assert(text@.subrange(0, "Job not found: "@.len() as int) =~= "Job not found: "@);
                text
            },
            IronForgeError::JobAlreadyExists(what) => {
                let text = String::from_str("Job already exists: ").concat(what.as_str());
                assert(text@.subrange(0, "Job already exists: "@.len() as int)
                    =~= "Job already exists: "@);
                text
            },
            IronForgeError::InvalidStatusTransition { from, to } => {
                let text = String::from_str("Invalid job status transition: ").concat(
                    from.name(),
                ).concat(" -> ").concat(to.name());
                assert(text@.subrange(0, "Invalid job status transition: "@.len() as int)
                    =~= "Invalid job status transition: "@);
                text
            },
            IronForgeError::Timeout => {
                let text = String::from_str("Timeout exceeded");
                assert(text@.subrange(0, text@.len() as int) =~= text@);
                text
            },
            IronForgeError::QueueBackend(what) => {
                let text = String::from_str("Queue backend error: ").concat(what.as_str());
                assert(text@.subrange(0, "Queue backend error: "@.len() as int)
                    =~= "Queue backend error: "@);
                text
            },
            IronForgeError::Worker(what) => {
                let text = String::from_str("Worker error: ").concat(what.as_str());
                assert(text@.subrange(0, "Worker error: "@.len() as int) =~= "Worker error: "@);
                text
            },
        }
    }
}

} // verus!
