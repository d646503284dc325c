//! The per-job state bundle and the retry-classification policy.
//!
//! A `Context` is owned exclusively by the one driver loop of one job:
//! every operation below fixes the new context as a function of the old
//! context and the operation's arguments alone, so two jobs with distinct
//! contexts can never observe each other's counters or status.

use vstd::prelude::*;
use vstd::string::StringExecFns;
use crate::error::{classifies_raw_failure, exhausted_suffix, CollaboratorError, StageError};
use crate::job::{JobConfig, JobStatus, ProgramHandle};
use crate::stage::StageKind;

verus! {

/// Retry attempts made so far, counted separately per stage name. The
/// counters only ever grow; advancing to another stage does not reset them,
/// it merely starts reading a different one.
#[derive(Debug, PartialEq, Eq)]
pub struct RetryCounters {
    pub compiling: u64,
    pub scheduling: u64,
}

impl RetryCounters {
    /// All counters start at zero, both at admission and after a controller
    /// restart: only `JobStatus` survives a restart.
    pub fn new() -> (c: RetryCounters)
        ensures
            forall|k: StageKind| c.get(k) == 0,
    {
        RetryCounters { compiling: 0, scheduling: 0 }
    }

    pub open spec fn get(self, kind: StageKind) -> u64 {
        match kind {
            StageKind::Compiling => self.compiling,
            StageKind::Scheduling => self.scheduling,
        }
    }

    /// This counter set with `kind` counted up once and every other stage's
    /// counter untouched.
    pub open spec fn bumped(self, kind: StageKind) -> RetryCounters
        recommends
            self.get(kind) < u64::MAX,
    {
        match kind {
            StageKind::Compiling => RetryCounters { compiling: (self.compiling + 1) as u64, ..self },
            StageKind::Scheduling => RetryCounters { scheduling: (self.scheduling + 1) as u64, ..self },
        }
    }
}

/// The single mutable aggregate for one job: identity, durable progress
/// record, the submitted program, and the per-stage retry counters.
#[derive(Debug)]
pub struct Context {
    pub config: JobConfig,
    pub status: JobStatus,
    pub program: ProgramHandle,
    pub attempts: RetryCounters,
}

impl Context {
    /// The retry attempts made so far for the given stage of this job.
    pub open spec fn attempts_of(self, kind: StageKind) -> u64 {
        self.attempts.get(kind)
    }

    /// This context with one more attempt recorded against `kind`: nothing
    /// but that one counter changes.
    pub open spec fn with_attempt_recorded(self, kind: StageKind) -> Context
        recommends
            self.attempts_of(kind) < u64::MAX,
    {
        Context { attempts: self.attempts.bumped(kind), ..self }
    }

    /// Admit a new job: fresh status, zero attempts everywhere.
    pub fn new(config: JobConfig, program: ProgramHandle) -> (ctx: Context)
        ensures
            ctx.config == config,
            ctx.program == program,
            ctx.status.pipeline_path is None,
            ctx.status.wasm_path is None,
            forall|k: StageKind| ctx.attempts_of(k) == 0,
    {
        Context { config, status: JobStatus::new(), program, attempts: RetryCounters::new() }
    }

    /// Rebuild a job's context after a controller restart. Only the durable
    /// status survives the restart; the retry counters start over.
    pub fn rehydrate(config: JobConfig, program: ProgramHandle, status: JobStatus) -> (ctx: Context)
        ensures
            ctx.config == config,
            ctx.program == program,
            ctx.status == status,
            forall|k: StageKind| ctx.attempts_of(k) == 0,
    {
        Context { config, status, program, attempts: RetryCounters::new() }
    }

    /// The retry attempts made so far for the given stage.
    pub fn attempts_for(&self, kind: StageKind) -> (n: u64)
        ensures
            n == self.attempts_of(kind),
    {
        match kind {
            StageKind::Compiling => self.attempts.compiling,
            StageKind::Scheduling => self.attempts.scheduling,
        }
    }

    /// The retry-classification policy. Counts this attempt against `stage`,
    /// then types the failure: a failure the collaborator already classified
    /// is returned unchanged regardless of the counter — the collaborator's
    /// judgment is authoritative and overrides the bound — while a raw
    /// failure becomes `Retryable` while the counter is within
    /// `max_attempts` and `Fatal`, with the message marked exhausted, once
    /// it is past it. Nothing of the context changes but the one counter.
    pub fn retryable(
        &mut self,
        stage: StageKind,
        message: String,
        error: CollaboratorError,
        max_attempts: u64,
    ) -> (e: StageError)
        requires
            old(self).attempts_of(stage) < u64::MAX,
        ensures
            *final(self) == old(self).with_attempt_recorded(stage),
            (error matches CollaboratorError::Classified(c) ==> e == c),
            (error matches CollaboratorError::Raw(cause) ==> classifies_raw_failure(
                e,
                message@,
                cause,
                old(self).attempts_of(stage) + 1,
                max_attempts,
            )),
    {
        let made: u64 = match stage {
            StageKind::Compiling => self.attempts.compiling,
            StageKind::Scheduling => self.attempts.scheduling,
        };
        let made: u64 = made + 1;
        match stage {
            StageKind::Compiling => {
                self.attempts.compiling = made;
            },
            StageKind::Scheduling => {
                self.attempts.scheduling = made;
            },
        }
        match error {
            CollaboratorError::Classified(c) => c,
            CollaboratorError::Raw(cause) => {
                if made <= max_attempts {
                    StageError::Retryable { message, cause, attempts: made, max_attempts }
                } else {
                    StageError::Fatal { message: message.concat("; retry limit exceeded"), cause }
                }
            },
        }
    }
}

/// The context after `k` consecutive raw — unclassified — failures of one
/// stage have each been counted by the retry-classification policy.
pub open spec fn after_raw_failures(c: Context, stage: StageKind, k: nat) -> Context
    decreases k,
{
    if k == 0 {
        c
    } else {
        after_raw_failures(c, stage, (k - 1) as nat).with_attempt_recorded(stage)
    }
}

/// Raw failures of one stage only accumulate that stage's counter: after
/// `k` of them the counter reads exactly `k` more than before, every other
/// stage's counter is untouched, and the job's identity, program and
/// durable status are exactly what they were.
pub proof fn lemma_raw_failures_accumulate(c: Context, stage: StageKind, k: nat)
    requires
        c.attempts_of(stage) + k <= u64::MAX,
    ensures
        after_raw_failures(c, stage, k).attempts_of(stage) == c.attempts_of(stage) + k,
        forall|other: StageKind|
            other != stage ==> after_raw_failures(c, stage, k).attempts_of(other)
                == c.attempts_of(other),
        after_raw_failures(c, stage, k).config == c.config,
        after_raw_failures(c, stage, k).status == c.status,
        after_raw_failures(c, stage, k).program == c.program,
    decreases k,
{
    if k > 0 {
        lemma_raw_failures_accumulate(c, stage, (k - 1) as nat);
    }
}

/// Bounded retry: counting raw failures of one stage from a context whose
/// counter for it is fresh, the `k`-th failure — classified against the
/// counter as it reads once that failure is counted — comes back
/// `Retryable`, carrying `k` as its attempts-so-far, for each of the first
/// `max_attempts` failures, and comes back `Fatal`, its message marked
/// exhausted, on the failure after the bound is reached.
pub proof fn lemma_bounded_retry(
    c: Context,
    stage: StageKind,
    k: nat,
    max_attempts: u64,
    e: StageError,
    message: Seq<char>,
    cause: String,
)
    requires
        c.attempts_of(stage) == 0,
        1 <= k <= max_attempts + 1,
        max_attempts < u64::MAX,
        classifies_raw_failure(
            e,
            message,
            cause,
            after_raw_failures(c, stage, (k - 1) as nat).attempts_of(stage) + 1,
            max_attempts,
        ),
    ensures
        after_raw_failures(c, stage, k) == after_raw_failures(
            c,
            stage,
            (k - 1) as nat,
        ).with_attempt_recorded(stage),
        k <= max_attempts ==> (e matches StageError::Retryable {
            message: m,
            cause: cc,
            attempts,
            max_attempts: x,
        } && m@ == message && cc == cause && attempts == k && x == max_attempts),
        k == max_attempts + 1 ==> (e matches StageError::Fatal { message: m, cause: cc } && m@
            == message + exhausted_suffix() && cc == cause),
{
    lemma_raw_failures_accumulate(c, stage, (k - 1) as nat);
}

/// Counter independence: recording an attempt against one stage leaves
/// every other stage's counter unchanged, and touches nothing else of the
/// context.
pub proof fn lemma_counter_independence(c: Context, a: StageKind, b: StageKind)
    requires
        a != b,
    ensures
        c.with_attempt_recorded(a).attempts_of(b) == c.attempts_of(b),
        c.with_attempt_recorded(a).status == c.status,
        c.with_attempt_recorded(a).config == c.config,
        c.with_attempt_recorded(a).program == c.program,
{
}

} // verus!
