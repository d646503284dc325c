//! The compilation stage: ensure the job's program has been compiled into a
//! runnable artifact before scheduling proceeds.
//!
//! The compiler itself is an external collaborator reached over an
//! asynchronous call, so the stage is split around that call into two pure
//! decisions. `Compiling::next` inspects the context and either skips the
//! stage — its output is already durably recorded — or hands back the exact
//! request the compiler must be sent. `Compiling::on_compiler_response`
//! takes whatever the call produced and records the artifacts, passes a
//! pre-classified failure through, or types a raw failure under this
//! stage's retry bound. The unverified outer loop owns nothing but the call.

use vstd::prelude::*;
use vstd::string::StringExecFns;
use crate::context::Context;
use crate::error::{classifies_raw_failure, CollaboratorError, StageError};
use crate::job::ProgramHandle;
use crate::stage::{Scheduling, Stage, StageKind, Transition};

verus! {

/// How many times a failed compilation is re-attempted before the failure
/// turns fatal.
pub const COMPILE_MAX_ATTEMPTS: u64 = 10;

/// Everything the compiler collaborator is invoked with.
#[derive(Debug)]
pub struct CompileRequest {
    pub pipeline_name: String,
    pub job_id: String,
    pub program: ProgramHandle,
}

/// What a successful compilation hands back: the locations of the produced
/// artifacts.
#[derive(Debug)]
pub struct CompileOutput {
    pub pipeline_path: String,
    pub wasm_path: String,
}

/// The entry decision of the compilation stage.
#[derive(Debug)]
pub enum CompilingStep {
    /// The artifact is already durably recorded: the stage is skipped
    /// without contacting the compiler, and the carried transition advances
    /// the job.
    Skipped(Transition),
    /// The compiler must be invoked with the carried request; its response
    /// is then owed to `Compiling::on_compiler_response` on the carried
    /// stage value.
    Compile(Compiling, CompileRequest),
}

/// The stage that compiles the job's program. It carries nothing of its
/// own: the context already holds everything needed to resume it.
#[derive(Debug)]
pub struct Compiling;

impl Compiling {
    pub fn name(&self) -> (n: &'static str)
        ensures
            n@ == "Compiling"@,
    {
        "Compiling"
    }

    /// The idempotency fast path and the request construction. If the
    /// pipeline artifact is already recorded the stage advances straight to
    /// scheduling — never re-doing work whose durable output exists — and
    /// otherwise the compiler is owed exactly one call, with the job's
    /// pipeline name, id and program.
    pub fn next(self, ctx: &Context) -> (step: CompilingStep)
        ensures
            ctx.status.pipeline_path is Some ==> step == CompilingStep::Skipped(
                Transition::Advance(Stage::Scheduling(Scheduling)),
            ),
            ctx.status.pipeline_path is None ==> (step matches CompilingStep::Compile(_, req)
                && req.pipeline_name == ctx.config.pipeline_name
                && req.job_id == ctx.config.id
                && req.program == ctx.program),
    {
        if ctx.status.pipeline_path.is_some() {
            CompilingStep::Skipped(Transition::Advance(Stage::Scheduling(Scheduling)))
        } else {
            CompilingStep::Compile(
                self,
                CompileRequest {
                    pipeline_name: ctx.config.pipeline_name.clone(),
                    job_id: ctx.config.id.clone(),
                    program: ctx.program.clone(),
                },
            )
        }
    }

    /// Acts on the compiler's response. On success the artifact locations
    /// are written into the durable status — before advancing, so a restart
    /// after this point hits the fast path — and the job advances to
    /// scheduling. A failure the collaborator already classified propagates
    /// unchanged, touching nothing. A raw failure is typed by the
    /// retry-classification policy under this stage's bound: one attempt is
    /// counted, and the failure comes back `Retryable` within the bound and
    /// `Fatal` past it.
    pub fn on_compiler_response(
        self,
        ctx: &mut Context,
        response: Result<CompileOutput, CollaboratorError>,
    ) -> (r: Result<Transition, StageError>)
        requires
            old(ctx).status.pipeline_path is None,
            old(ctx).status.wasm_path is None,
            old(ctx).attempts_of(StageKind::Compiling) < u64::MAX,
        ensures
            old(ctx).status.grows_into(final(ctx).status),
            (response matches Ok(out) ==> {
                &&& final(ctx).status.pipeline_path == Some(out.pipeline_path)
                &&& final(ctx).status.wasm_path == Some(out.wasm_path)
                &&& final(ctx).config == old(ctx).config
                &&& final(ctx).program == old(ctx).program
                &&& final(ctx).attempts == old(ctx).attempts
                &&& r == Ok::<Transition, StageError>(Transition::Advance(Stage::Scheduling(Scheduling)))
            }),
            (response matches Err(CollaboratorError::Classified(e)) ==> {
                &&& *final(ctx) == *old(ctx)
                &&& r == Err::<Transition, StageError>(e)
            }),
            (response matches Err(CollaboratorError::Raw(cause)) ==> {
                &&& *final(ctx) == old(ctx).with_attempt_recorded(StageKind::Compiling)
                &&& r matches Err(e)
                &&& classifies_raw_failure(
                    e,
                    "compilation failed"@,
                    cause,
                    old(ctx).attempts_of(StageKind::Compiling) + 1,
                    COMPILE_MAX_ATTEMPTS,
                )
            }),
    {
        match response {
            Ok(out) => {
                ctx.status.pipeline_path = Some(out.pipeline_path);
                ctx.status.wasm_path = Some(out.wasm_path);
                Ok(Transition::Advance(Stage::Scheduling(Scheduling)))
            },
            Err(CollaboratorError::Classified(e)) => Err(e),
            Err(CollaboratorError::Raw(cause)) => Err(
                ctx.retryable(
                    StageKind::Compiling,
                    String::from_str("compilation failed"),
                    CollaboratorError::Raw(cause),
                    COMPILE_MAX_ATTEMPTS,
                ),
            ),
        }
    }
}

} // verus!
