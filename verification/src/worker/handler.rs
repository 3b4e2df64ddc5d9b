//! What a handler reports back to the worker that ran it.

use crate::models::error::IronForgeError;
use vstd::prelude::*;

verus! {

/// How one attempt of a job ended.
#[derive(Debug, Clone, Copy, PartialEq, Eq, Structural)]
pub enum HandlerOutcome {
    /// The handler returned success within the time limit.
    Succeeded,
    /// The handler returned an error within the time limit.
    Failed,
    /// The time limit passed before the handler returned.
    TimedOut,
}

impl HandlerOutcome {
    /// Reads the outcome from what the handler returned, or from `None`
    /// where the time limit cut it short.
    pub fn of(finished: &Option<Result<(), IronForgeError>>) -> (outcome: HandlerOutcome)
        ensures
            outcome == match *finished {
                None => HandlerOutcome::TimedOut,
                Some(Ok(_)) => HandlerOutcome::Succeeded,
                Some(Err(_)) => HandlerOutcome::Failed,
            },
    {
        match finished {
            None => HandlerOutcome::TimedOut,
            Some(Ok(_)) => HandlerOutcome::Succeeded,
            Some(Err(_)) => HandlerOutcome::Failed,
        }
    }

    /// Whether the attempt counts as a failure: an error and a timeout both do.
    pub open spec fn is_failure(self) -> bool {
        self != HandlerOutcome::Succeeded
    }
}

} // verus!
