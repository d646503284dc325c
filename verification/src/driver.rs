//! The driver loop's decisions. One loop per job holds the current stage
//! and repeatedly attempts it; everything the loop decides — how a stage
//! attempt's outcome moves the loop on, and which stage a restarted
//! controller resumes from — is a pure function here, so the loop itself
//! owns nothing but the waiting.

use vstd::prelude::*;
use crate::compiling::Compiling;
use crate::error::StageError;
use crate::job::JobStatus;
use crate::stage::{stage_of, Scheduling, Stage, StageKind, Transition};

verus! {

/// How a finished job ended.
#[derive(Debug)]
pub enum JobOutcome {
    Succeeded,
    Failed(String),
}

/// What the driver loop does after one stage attempt.
#[derive(Debug)]
pub enum StepOutcome {
    /// Replace the current stage and loop immediately, without delay.
    Proceed(Stage),
    /// Re-attempt the carried stage after a policy-determined delay.
    RetryAfterDelay(Stage),
    /// Exit the loop and report the outcome to whatever owns the job.
    Finished(JobOutcome),
}

/// Turns the result of one stage attempt into the driver's next move.
/// A transition is followed as it says; an error ends the job unless the
/// policy classified it retryable, in which case the current stage — whose
/// previous value the attempt consumed — is rebuilt from its name and
/// re-attempted after a delay. A fatal error's message becomes the job's
/// failure reason.
pub fn interpret(current: StageKind, result: Result<Transition, StageError>) -> (step: StepOutcome)
    ensures
        (result matches Ok(Transition::Advance(s)) ==> step == StepOutcome::Proceed(s)),
        (result matches Ok(Transition::Retry(s)) ==> step == StepOutcome::RetryAfterDelay(s)),
        (result matches Ok(Transition::Succeed) ==> step == StepOutcome::Finished(
            JobOutcome::Succeeded,
        )),
        (result matches Ok(Transition::Fail(reason)) ==> step == StepOutcome::Finished(
            JobOutcome::Failed(reason),
        )),
        (result matches Err(StageError::Retryable { .. }) ==> (step matches
            StepOutcome::RetryAfterDelay(s) && s.spec_kind() == current)),
        (result matches Err(StageError::Fatal { message, .. }) ==> step == StepOutcome::Finished(
            JobOutcome::Failed(message),
        )),
{
    match result {
        Ok(Transition::Advance(s)) => StepOutcome::Proceed(s),
        Ok(Transition::Retry(s)) => StepOutcome::RetryAfterDelay(s),
        Ok(Transition::Succeed) => StepOutcome::Finished(JobOutcome::Succeeded),
        Ok(Transition::Fail(reason)) => StepOutcome::Finished(JobOutcome::Failed(reason)),
        Err(StageError::Retryable { .. }) => StepOutcome::RetryAfterDelay(stage_of(current)),
        Err(StageError::Fatal { message, .. }) => StepOutcome::Finished(JobOutcome::Failed(message)),
    }
}

/// Where a job's driver starts: fresh jobs start at compilation, and a
/// restarted controller, inspecting the durable status alone, resumes past
/// every stage whose output is already recorded.
pub fn initial_stage(status: &JobStatus) -> (s: Stage)
    ensures
        status.pipeline_path is Some ==> s == Stage::Scheduling(Scheduling),
        status.pipeline_path is None ==> s == Stage::Compiling(Compiling),
{
    if status.pipeline_path.is_some() {
        Stage::Scheduling(Scheduling)
    } else {
        Stage::Compiling(Compiling)
    }
}

} // verus!
