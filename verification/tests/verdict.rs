use hull::runner::verdict::{
    after_execution, after_setup, call_outcome, execute_and_get_results, GuestFailure,
    RunProgress, SetupStep,
};
use hull::runner::{MemoryLimiter, RunResult, RunStatus};

fn refused_limiter() -> MemoryLimiter {
    let mut limiter = MemoryLimiter::new(1_048_576);
    assert!(!limiter.memory_growing(0, 200 * 65536, None));
    limiter
}

fn calm_limiter() -> MemoryLimiter {
    let mut limiter = MemoryLimiter::new(1_048_576);
    assert!(limiter.memory_growing(0, 65536, None));
    limiter
}

#[test]
fn internal_error_counts_nothing() {
    let result = RunResult::new_internal_error("bad module".to_string());
    assert_eq!(
        result,
        RunResult {
            status: RunStatus::InternalError,
            tick: 0,
            memory: 0,
            exit_code: -1,
            error_message: "bad module".to_string(),
        }
    );
}

#[test]
fn runtime_error_counts_nothing() {
    let result = RunResult::new_runtime_error("unreachable".to_string());
    assert_eq!(
        result,
        RunResult {
            status: RunStatus::RuntimeError,
            tick: 0,
            memory: 0,
            exit_code: -1,
            error_message: "unreachable".to_string(),
        }
    );
}

#[test]
fn status_tags_are_snake_case() {
    assert_eq!(RunStatus::Accepted.tag(), "accepted");
    assert_eq!(RunStatus::RuntimeError.tag(), "runtime_error");
    assert_eq!(RunStatus::TimeLimitExceeded.tag(), "time_limit_exceeded");
    assert_eq!(RunStatus::MemoryLimitExceeded.tag(), "memory_limit_exceeded");
    assert_eq!(RunStatus::InternalError.tag(), "internal_error");
}

#[test]
fn clean_return_is_accepted() {
    let result = execute_and_get_results(Ok(()), Ok(9_999_000), &calm_limiter(), 10_000_000);
    assert_eq!(
        result,
        Ok(RunResult {
            status: RunStatus::Accepted,
            tick: 1000,
            memory: 65536,
            exit_code: 0,
            error_message: String::new(),
        })
    );
}

#[test]
fn out_of_fuel_is_time_limit_exceeded() {
    let result =
        execute_and_get_results(Err(GuestFailure::OutOfFuel), Ok(0), &calm_limiter(), 1000);
    assert_eq!(
        result,
        Ok(RunResult {
            status: RunStatus::TimeLimitExceeded,
            tick: 1000,
            memory: 65536,
            exit_code: -1,
            error_message: String::new(),
        })
    );
}

#[test]
fn refused_growth_is_memory_limit_exceeded_before_anything_else() {
    for failure in [
        GuestFailure::OutOfFuel,
        GuestFailure::Exit(3),
        GuestFailure::Fault("unreachable".to_string()),
    ] {
        let result = execute_and_get_results(Err(failure), Ok(40), &refused_limiter(), 100);
        assert_eq!(
            result,
            Ok(RunResult {
                status: RunStatus::MemoryLimitExceeded,
                tick: 60,
                memory: 200 * 65536,
                exit_code: -1,
                error_message: String::new(),
            })
        );
    }
}

#[test]
fn refused_growth_does_not_count_after_a_clean_return() {
    let result = execute_and_get_results(Ok(()), Ok(40), &refused_limiter(), 100);
    assert_eq!(
        result,
        Ok(RunResult {
            status: RunStatus::Accepted,
            tick: 60,
            memory: 200 * 65536,
            exit_code: 0,
            error_message: String::new(),
        })
    );
}

#[test]
fn exit_is_a_runtime_error_with_the_code() {
    let result =
        execute_and_get_results(Err(GuestFailure::Exit(42)), Ok(90), &calm_limiter(), 100);
    assert_eq!(
        result,
        Ok(RunResult {
            status: RunStatus::RuntimeError,
            tick: 10,
            memory: 65536,
            exit_code: 42,
            error_message: String::new(),
        })
    );
}

#[test]
fn exit_with_zero_is_still_a_runtime_error() {
    let result = after_execution(Err(GuestFailure::Exit(0)), Ok(90), &calm_limiter(), 100);
    assert_eq!(result.status, RunStatus::RuntimeError);
    assert_eq!(result.exit_code, 0);
}

#[test]
fn another_failure_is_a_runtime_error_that_counts_like_any_other() {
    let result = execute_and_get_results(
        Err(GuestFailure::Fault("integer divide by zero".to_string())),
        Ok(90),
        &calm_limiter(),
        100,
    );
    assert_eq!(
        result,
        Ok(RunResult {
            status: RunStatus::RuntimeError,
            tick: 10,
            memory: 65536,
            exit_code: -1,
            error_message: "integer divide by zero".to_string(),
        })
    );
}

#[test]
fn a_fault_counts_its_ticks_and_its_memory() {
    let mut limiter = MemoryLimiter::new(65536);
    assert!(limiter.memory_growing(0, 4096, None));
    let result = after_execution(
        Err(GuestFailure::Fault("unreachable".to_string())),
        Ok(400),
        &limiter,
        1000,
    );
    assert_eq!(
        result,
        RunResult {
            status: RunStatus::RuntimeError,
            tick: 600,
            memory: 4096,
            exit_code: -1,
            error_message: "unreachable".to_string(),
        }
    );
}

#[test]
fn a_run_that_ends_by_the_time_limit_counts_its_whole_budget() {
    for remaining in [0u64, 1, 999] {
        let result =
            after_execution(Err(GuestFailure::OutOfFuel), Ok(remaining), &calm_limiter(), 1000);
        assert_eq!(result.status, RunStatus::TimeLimitExceeded);
        assert_eq!(result.tick, 1000);
        assert_eq!(result.error_message, "");
        assert_eq!(result.exit_code, -1);
    }
}

#[test]
fn unreadable_fuel_is_handed_on_as_its_diagnostic() {
    let result =
        execute_and_get_results(Ok(()), Err("fuel is off".to_string()), &calm_limiter(), 100);
    assert_eq!(result, Err("fuel is off".to_string()));
}

#[test]
fn unreadable_fuel_ends_the_run_as_a_runtime_error_that_counts_nothing() {
    let result =
        after_execution(Ok(()), Err("fuel is off".to_string()), &calm_limiter(), 100);
    assert_eq!(
        result,
        RunResult {
            status: RunStatus::RuntimeError,
            tick: 0,
            memory: 0,
            exit_code: -1,
            error_message: "fuel is off".to_string(),
        }
    );
}

#[test]
fn after_execution_keeps_an_assembled_verdict() {
    let result = after_execution(Ok(()), Ok(0), &calm_limiter(), 7);
    assert_eq!(result.status, RunStatus::Accepted);
    assert_eq!(result.tick, 7);
    assert_eq!(result.exit_code, 0);
    assert_eq!(result.error_message, "");
}

#[test]
fn tick_never_exceeds_the_budget() {
    for remaining in [0u64, 1, 500, 1000] {
        let result = after_execution(Ok(()), Ok(remaining), &calm_limiter(), 1000);
        assert!(result.tick <= 1000);
        assert_eq!(result.tick, 1000 - remaining);
    }
}

#[test]
fn setup_steps_follow_in_order() {
    let mut step = SetupStep::first();
    assert_eq!(step, SetupStep::CreateEngine);
    let mut order = vec![step];
    loop {
        match after_setup(step, Ok(())) {
            RunProgress::Setup(next) => {
                order.push(next);
                step = next;
            }
            RunProgress::Execute => break,
            RunProgress::Finished(_) => panic!("a step that went well ended the run"),
        }
    }
    assert_eq!(
        order,
        vec![
            SetupStep::CreateEngine,
            SetupStep::SetupLinker,
            SetupStep::LoadModule,
            SetupStep::CreateStore,
            SetupStep::SetupInstance,
        ]
    );
}

#[test]
fn a_failed_setup_step_ends_the_run_as_an_internal_error() {
    for step in [
        SetupStep::CreateEngine,
        SetupStep::SetupLinker,
        SetupStep::LoadModule,
        SetupStep::CreateStore,
        SetupStep::SetupInstance,
    ] {
        assert_eq!(
            after_setup(step, Err("no such export".to_string())),
            RunProgress::Finished(RunResult {
                status: RunStatus::InternalError,
                tick: 0,
                memory: 0,
                exit_code: -1,
                error_message: "no such export".to_string(),
            })
        );
    }
}

#[test]
fn an_engine_trap_out_of_fuel_is_told_apart() {
    let error = wasmtime::Error::from(wasmtime::Trap::OutOfFuel);
    assert_eq!(call_outcome(Err(error)), Err(GuestFailure::OutOfFuel));
}

#[test]
fn an_exit_request_is_told_apart() {
    let error = wasmtime::Error::from(wasi_common::I32Exit(42));
    assert_eq!(call_outcome(Err(error)), Err(GuestFailure::Exit(42)));
}

#[test]
fn another_trap_keeps_its_text() {
    let error = wasmtime::Error::from(wasmtime::Trap::UnreachableCodeReached);
    let text = error.to_string();
    assert!(!text.is_empty());
    assert_eq!(call_outcome(Err(error)), Err(GuestFailure::Fault(text)));
}

#[test]
fn another_error_keeps_its_text() {
    let error = wasmtime::Error::msg("host went away");
    assert_eq!(
        call_outcome(Err(error)),
        Err(GuestFailure::Fault("host went away".to_string()))
    );
}

#[test]
fn a_clean_call_stays_clean() {
    assert_eq!(call_outcome(Ok(())), Ok(()));
}
