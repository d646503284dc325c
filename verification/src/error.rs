//! Typed failures. The engine distinguishes failures it has already
//! classified (fatal, or retryable within a bound) from raw errors bubbling
//! up from a collaborator, and never re-wraps a classification a
//! collaborator has already made.

use vstd::prelude::*;

verus! {

/// A failure the engine has classified.
#[derive(Debug, PartialEq, Eq)]
pub enum StageError {
    /// Non-retryable: invalid input, a collaborator's own fatal
    /// classification, or an exhausted retry bound. Terminates the job.
    Fatal { message: String, cause: String },
    /// Transient: the same stage will be re-attempted after a delay.
    /// Carries the attempts made so far and the stage's bound on them.
    Retryable { message: String, cause: String, attempts: u64, max_attempts: u64 },
}

/// What a collaborator hands back when it fails: either a failure it has
/// already classified — which the engine passes through unchanged — or a
/// plain error value that the retry-classification policy must type.
#[derive(Debug, PartialEq, Eq)]
pub enum CollaboratorError {
    Classified(StageError),
    Raw(String),
}

/// The suffix appended to a failure message once the retry bound is
/// exhausted, so that the terminal failure names its reason.
pub open spec fn exhausted_suffix() -> Seq<char> {
    "; retry limit exceeded"@
}

/// What classifying a raw failure yields, given the attempt counter as it
/// reads after this failure was counted: within the bound, `Retryable`
/// carrying the message, cause and counters; past the bound, `Fatal` with
/// the message marked as exhausted. The cause is carried unchanged either
/// way.
pub open spec fn classifies_raw_failure(
    e: StageError,
    message: Seq<char>,
    cause: String,
    attempts: int,
    max_attempts: u64,
) -> bool {
    if attempts <= max_attempts {
        &&& e matches StageError::Retryable { message: m, cause: c, attempts: a, max_attempts: x }
        &&& m@ == message
        &&& c == cause
        &&& a == attempts
        &&& x == max_attempts
    } else {
        &&& e matches StageError::Fatal { message: m, cause: c }
        &&& m@ == message + exhausted_suffix()
        &&& c == cause
    }
}

} // verus!
