//! The terminal result of one background generation task.

use vstd::prelude::*;

verus! {

/// Why a generation task failed.
#[derive(Debug, PartialEq, Eq)]
pub enum TaskFailure {
    /// The generator itself reported an error; the payload is its rendered
    /// message, carried verbatim to the consumer.
    Operation(String),
    /// The background worker went away without reporting a result.
    WorkerLost,
}

/// The terminal result of one background task: produced exactly once by the
/// worker (or synthesized when the worker is lost) and consumed exactly once
/// by the poller.
#[derive(Debug, PartialEq, Eq)]
pub enum Outcome {
    Success,
    Failure(TaskFailure),
}

/// The detail text used for a worker that vanished before sending a result.
pub open spec fn worker_lost_text() -> Seq<char> {
    "the background task stopped before reporting a result"@
}

impl TaskFailure {
    /// The human-readable detail of this failure.
    pub open spec fn detail(&self) -> Seq<char> {
        match self {
            TaskFailure::Operation(d) => d@,
            TaskFailure::WorkerLost => worker_lost_text(),
        }
    }

    /// Renders the failure detail for display.
    pub fn detail_string(&self) -> (r: String)
        ensures
            r@ == self.detail(),
    {
        match self {
            TaskFailure::Operation(d) => d.clone(),
            TaskFailure::WorkerLost => {
                "the background task stopped before reporting a result".to_owned()
            },
        }
    }
}

/// How the operation's own result maps to the outcome handed to the poller.
pub open spec fn outcome_of(r: Result<(), String>) -> Outcome {
    match r {
        Result::Ok(_) => Outcome::Success,
        Result::Err(d) => Outcome::Failure(TaskFailure::Operation(d)),
    }
}

/// Maps the operation's result to the outcome sent back to the poller:
/// success as is, and a typed failure with its detail intact.
pub fn outcome_of_result(r: Result<(), String>) -> (o: Outcome)
    ensures
        o == outcome_of(r),
{
    match r {
        Result::Ok(()) => Outcome::Success,
        Result::Err(d) => Outcome::Failure(TaskFailure::Operation(d)),
    }
}

} // verus!
