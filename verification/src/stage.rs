//! The closed set of lifecycle stages and the outcome of one stage attempt.

use vstd::prelude::*;
use crate::compiling::Compiling;

verus! {

/// The name of a stage, used to key the per-stage retry counters.
#[derive(Debug, Clone, Copy, PartialEq, Eq, Structural, Hash)]
pub enum StageKind {
    Compiling,
    Scheduling,
}

/// The stage that places a compiled job onto workers. Its work is owned by
/// the cluster scheduler collaborator and is outside the engine's core;
/// the stage value itself carries nothing, since the context already holds
/// everything needed to resume.
#[derive(Debug)]
pub struct Scheduling;

impl Scheduling {
    pub fn name(&self) -> (n: &'static str)
        ensures
            n@ == "Scheduling"@,
    {
        "Scheduling"
    }
}

/// One unit of work in a job's lifecycle. A closed tagged union rather than
/// open-ended polymorphism, so that a missing transition is a compile error.
#[derive(Debug)]
pub enum Stage {
    Compiling(Compiling),
    Scheduling(Scheduling),
}

impl Stage {
    pub open spec fn spec_kind(self) -> StageKind {
        match self {
            Stage::Compiling(_) => StageKind::Compiling,
            Stage::Scheduling(_) => StageKind::Scheduling,
        }
    }

    /// The name under which this stage's retry attempts are counted.
    pub fn kind(&self) -> (k: StageKind)
        ensures
            k == self.spec_kind(),
    {
        match self {
            Stage::Compiling(_) => StageKind::Compiling,
            Stage::Scheduling(_) => StageKind::Scheduling,
        }
    }

    /// The stage's display name, as it appears in progress events.
    pub fn name(&self) -> (n: &'static str)
        ensures
            self is Compiling ==> n@ == "Compiling"@,
            self is Scheduling ==> n@ == "Scheduling"@,
    {
        match self {
            Stage::Compiling(s) => s.name(),
            Stage::Scheduling(s) => s.name(),
        }
    }
}

/// The stage value for a given stage name. Stage values carry no data beyond
/// what the context holds, so the driver can rebuild one to re-attempt a
/// stage whose previous value was consumed.
pub fn stage_of(kind: StageKind) -> (s: Stage)
    ensures
        s.spec_kind() == kind,
{
    match kind {
        StageKind::Compiling => Stage::Compiling(Compiling),
        StageKind::Scheduling => Stage::Scheduling(Scheduling),
    }
}

/// The result of one stage attempt: replace the current stage, re-attempt
/// the same stage after a delay, or end the job.
#[derive(Debug)]
pub enum Transition {
    /// Move on to the named next stage; the driver loops immediately.
    Advance(Stage),
    /// Re-attempt the carried stage after a policy-determined delay.
    Retry(Stage),
    /// The job completed every stage.
    Succeed,
    /// The job is over; the reason is reported to whatever owns the job.
    Fail(String),
}

} // verus!
