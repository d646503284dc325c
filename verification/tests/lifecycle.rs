use job_lifecycle::compiling::{CompileOutput, Compiling, CompilingStep, COMPILE_MAX_ATTEMPTS};
use job_lifecycle::context::Context;
use job_lifecycle::driver::{interpret, JobOutcome, StepOutcome};
use job_lifecycle::error::{CollaboratorError, StageError};
use job_lifecycle::job::{JobConfig, JobStatus, ProgramHandle};
use job_lifecycle::stage::{Stage, StageKind, Transition};

fn fresh_context(id: &str) -> Context {
    Context::new(
        JobConfig {
            id: id.to_string(),
            pipeline_name: "wordcount".to_string(),
        },
        ProgramHandle {
            content: "select count(*) from words".to_string(),
            hash: "abc123".to_string(),
        },
    )
}

fn raw_failure() -> Result<CompileOutput, CollaboratorError> {
    Err(CollaboratorError::Raw("compiler unreachable".to_string()))
}

#[test]
fn idempotent_resume_skips_compiler() {
    let config = JobConfig {
        id: "job-1".to_string(),
        pipeline_name: "wordcount".to_string(),
    };
    let program = ProgramHandle {
        content: "select 1".to_string(),
        hash: "deadbeef".to_string(),
    };
    let status = JobStatus {
        pipeline_path: Some("/artifacts/pipeline.json".to_string()),
        wasm_path: Some("/artifacts/udfs.wasm".to_string()),
    };
    let ctx = Context::rehydrate(config, program, status);
    // the stage never reaches the compiler: there is no request to send
    match Compiling.next(&ctx) {
        CompilingStep::Skipped(Transition::Advance(Stage::Scheduling(_))) => {}
        other => panic!("expected a skip straight to scheduling, got {:?}", other),
    }
    assert_eq!(ctx.attempts_for(StageKind::Compiling), 0);
}

#[test]
fn successful_path_records_artifacts() {
    let mut ctx = fresh_context("job-2");
    let stage = match Compiling.next(&ctx) {
        CompilingStep::Compile(stage, req) => {
            assert_eq!(req.pipeline_name, "wordcount");
            assert_eq!(req.job_id, "job-2");
            assert_eq!(req.program.hash, "abc123");
            stage
        }
        other => panic!("expected a compile request, got {:?}", other),
    };
    let out = CompileOutput {
        pipeline_path: "/artifacts/pipeline.json".to_string(),
        wasm_path: "/artifacts/udfs.wasm".to_string(),
    };
    let r = stage.on_compiler_response(&mut ctx, Ok(out));
    assert_eq!(
        ctx.status.pipeline_path.as_deref(),
        Some("/artifacts/pipeline.json")
    );
    assert_eq!(ctx.status.wasm_path.as_deref(), Some("/artifacts/udfs.wasm"));
    assert_eq!(ctx.attempts_for(StageKind::Compiling), 0);
    match r {
        Ok(Transition::Advance(Stage::Scheduling(_))) => {}
        other => panic!("expected advance to scheduling, got {:?}", other),
    }
}

#[test]
fn bounded_retry_exhausts_after_the_bound() {
    let mut ctx = fresh_context("job-3");
    assert_eq!(COMPILE_MAX_ATTEMPTS, 10);
    for i in 1..=COMPILE_MAX_ATTEMPTS {
        let r = Compiling.on_compiler_response(&mut ctx, raw_failure());
        match r {
            Err(StageError::Retryable {
                message,
                cause,
                attempts,
                max_attempts,
            }) => {
                assert_eq!(message, "compilation failed");
                assert_eq!(cause, "compiler unreachable");
                assert_eq!(attempts, i);
                assert_eq!(max_attempts, COMPILE_MAX_ATTEMPTS);
            }
            other => panic!("failure {} should still be retryable, got {:?}", i, other),
        }
        assert_eq!(ctx.attempts_for(StageKind::Compiling), i);
    }
    // the attempt after the bound is fatal, and says why
    let r = Compiling.on_compiler_response(&mut ctx, raw_failure());
    match r {
        Err(StageError::Fatal { message, cause }) => {
            assert_eq!(message, "compilation failed; retry limit exceeded");
            assert_eq!(cause, "compiler unreachable");
        }
        other => panic!("failure past the bound must be fatal, got {:?}", other),
    }
    assert_eq!(ctx.attempts_for(StageKind::Compiling), 11);
    assert!(ctx.status.pipeline_path.is_none());
}

#[test]
fn retries_drive_the_loop_until_exhaustion() {
    let mut ctx = fresh_context("job-4");
    let mut finished = None;
    let mut retries = 0u64;
    let mut stage = Stage::Compiling(Compiling);
    while finished.is_none() {
        let current = match stage {
            Stage::Compiling(c) => c,
            Stage::Scheduling(_) => panic!("an always-failing compiler cannot advance the job"),
        };
        let result = match current.next(&ctx) {
            CompilingStep::Skipped(t) => Ok(t),
            CompilingStep::Compile(c, _req) => c.on_compiler_response(&mut ctx, raw_failure()),
        };
        match interpret(StageKind::Compiling, result) {
            StepOutcome::Proceed(next) => stage = next,
            StepOutcome::RetryAfterDelay(next) => {
                retries += 1;
                stage = next;
            }
            StepOutcome::Finished(outcome) => {
                finished = Some(outcome);
                break;
            }
        }
    }
    assert_eq!(retries, 10);
    match finished.unwrap() {
        JobOutcome::Failed(reason) => {
            assert_eq!(reason, "compilation failed; retry limit exceeded")
        }
        JobOutcome::Succeeded => panic!("the job cannot succeed"),
    }
}

#[test]
fn preclassified_fatal_passes_through_at_once() {
    let mut ctx = fresh_context("job-5");
    let classified = StageError::Fatal {
        message: "malformed program".to_string(),
        cause: "parse error".to_string(),
    };
    let r = Compiling.on_compiler_response(
        &mut ctx,
        Err(CollaboratorError::Classified(classified)),
    );
    match r {
        Err(StageError::Fatal { message, cause }) => {
            assert_eq!(message, "malformed program");
            assert_eq!(cause, "parse error");
        }
        other => panic!("the collaborator's classification must pass through, got {:?}", other),
    }
    // the attempt counter was never touched
    assert_eq!(ctx.attempts_for(StageKind::Compiling), 0);
    // and the driver fails the job at once, bound or no bound
    let r = Compiling.on_compiler_response(
        &mut ctx,
        Err(CollaboratorError::Classified(StageError::Fatal {
            message: "malformed program".to_string(),
            cause: "parse error".to_string(),
        })),
    );
    match interpret(StageKind::Compiling, r) {
        StepOutcome::Finished(JobOutcome::Failed(reason)) => {
            assert_eq!(reason, "malformed program")
        }
        other => panic!("expected immediate failure, got {:?}", other),
    }
}

#[test]
fn preclassified_retryable_passes_through_unrebounded() {
    let mut ctx = fresh_context("job-6");
    let classified = StageError::Retryable {
        message: "compiler busy".to_string(),
        cause: "queue full".to_string(),
        attempts: 3,
        max_attempts: 5,
    };
    let r = Compiling.on_compiler_response(
        &mut ctx,
        Err(CollaboratorError::Classified(classified)),
    );
    match r {
        Err(StageError::Retryable {
            message,
            cause,
            attempts,
            max_attempts,
        }) => {
            assert_eq!(message, "compiler busy");
            assert_eq!(cause, "queue full");
            assert_eq!(attempts, 3);
            assert_eq!(max_attempts, 5);
        }
        other => panic!("the collaborator's classification must pass through, got {:?}", other),
    }
    assert_eq!(ctx.attempts_for(StageKind::Compiling), 0);
}

#[test]
fn two_jobs_are_isolated() {
    let mut a = fresh_context("job-a");
    let mut b = fresh_context("job-b");
    for _ in 0..3 {
        let _ = Compiling.on_compiler_response(&mut a, raw_failure());
    }
    let out = CompileOutput {
        pipeline_path: "/b/pipeline.json".to_string(),
        wasm_path: "/b/udfs.wasm".to_string(),
    };
    let _ = Compiling.on_compiler_response(&mut b, Ok(out));
    // job A's failures are invisible to job B, and B's progress to A
    assert_eq!(a.attempts_for(StageKind::Compiling), 3);
    assert_eq!(b.attempts_for(StageKind::Compiling), 0);
    assert!(a.status.pipeline_path.is_none());
    assert_eq!(b.status.pipeline_path.as_deref(), Some("/b/pipeline.json"));
    assert_eq!(a.config.id, "job-a");
    assert_eq!(b.config.id, "job-b");
}

#[test]
fn counters_are_independent_across_stages() {
    let mut ctx = fresh_context("job-7");
    let e = ctx.retryable(
        StageKind::Scheduling,
        "scheduling failed".to_string(),
        CollaboratorError::Raw("no workers".to_string()),
        4,
    );
    assert!(matches!(e, StageError::Retryable { attempts: 1, .. }));
    assert_eq!(ctx.attempts_for(StageKind::Scheduling), 1);
    assert_eq!(ctx.attempts_for(StageKind::Compiling), 0);
    let _ = Compiling.on_compiler_response(&mut ctx, raw_failure());
    assert_eq!(ctx.attempts_for(StageKind::Compiling), 1);
    assert_eq!(ctx.attempts_for(StageKind::Scheduling), 1);
}

#[test]
fn classification_counts_even_a_classified_failure() {
    let mut ctx = fresh_context("job-8");
    let classified = StageError::Fatal {
        message: "broken".to_string(),
        cause: "bad input".to_string(),
    };
    let e = ctx.retryable(
        StageKind::Compiling,
        "compilation failed".to_string(),
        CollaboratorError::Classified(classified),
        10,
    );
    // the classified failure comes back word for word, bound or no bound
    match e {
        StageError::Fatal { message, cause } => {
            assert_eq!(message, "broken");
            assert_eq!(cause, "bad input");
        }
        other => panic!("expected the classified failure back, got {:?}", other),
    }
    // but the attempt was still counted by the policy itself
    assert_eq!(ctx.attempts_for(StageKind::Compiling), 1);
}

#[test]
fn zero_bound_turns_the_first_failure_fatal() {
    let mut ctx = fresh_context("job-9");
    let e = ctx.retryable(
        StageKind::Compiling,
        "compilation failed".to_string(),
        CollaboratorError::Raw("flaky".to_string()),
        0,
    );
    match e {
        StageError::Fatal { message, cause } => {
            assert_eq!(message, "compilation failed; retry limit exceeded");
            assert_eq!(cause, "flaky");
        }
        other => panic!("a bound of zero admits no retry, got {:?}", other),
    }
}
