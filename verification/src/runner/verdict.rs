use crate::runner::engine::diagnostic_of;
use crate::runner::{LimiterState, MemoryLimiter};
use vstd::prelude::*;

verus! {

/// How a run ended.
#[derive(Debug, Clone, Copy, PartialEq, Eq, Structural)]
pub enum RunStatus {
    /// The host or the engine failed before or apart from the guest's code.
    InternalError,
    /// The entry function returned.
    Accepted,
    /// The guest trapped or asked to exit.
    RuntimeError,
    /// The guest used up its tick budget.
    TimeLimitExceeded,
    /// The guest asked for more memory than its cap.
    MemoryLimitExceeded,
}

impl RunStatus {
    /// The tag that stands for the status on the wire.
    pub open spec fn spec_tag(self) -> Seq<char> {
        match self {
            RunStatus::InternalError => "internal_error"@,
            RunStatus::Accepted => "accepted"@,
            RunStatus::RuntimeError => "runtime_error"@,
            RunStatus::TimeLimitExceeded => "time_limit_exceeded"@,
            RunStatus::MemoryLimitExceeded => "memory_limit_exceeded"@,
        }
    }

    /// The tag that stands for the status on the wire, in snake case.
    pub fn tag(&self) -> (s: &'static str)
        ensures
            s@ == self.spec_tag(),
    {
        match self {
            RunStatus::InternalError => "internal_error",
            RunStatus::Accepted => "accepted",
            RunStatus::RuntimeError => "runtime_error",
            RunStatus::TimeLimitExceeded => "time_limit_exceeded",
            RunStatus::MemoryLimitExceeded => "memory_limit_exceeded",
        }
    }
}

/// The verdict on one run.
#[derive(Debug, PartialEq, Eq)]
pub struct RunResult {
    pub status: RunStatus,
    /// The ticks that the guest consumed.
    pub tick: u64,
    /// The peak size of the guest's linear memory, in bytes.
    pub memory: u64,
    pub exit_code: i32,
    /// Empty unless the run ended in an error that carries a diagnostic.
    pub error_message: String,
}

/// A verdict as plain values.
pub struct Verdict {
    pub status: RunStatus,
    pub tick: nat,
    pub memory: nat,
    pub exit_code: int,
    pub error_message: Seq<char>,
}

impl View for RunResult {
    type V = Verdict;

    open spec fn view(&self) -> Verdict {
        Verdict {
            status: self.status,
            tick: self.tick as nat,
            memory: self.memory as nat,
            exit_code: self.exit_code as int,
            error_message: self.error_message@,
        }
    }
}

impl Verdict {
    /// The verdict on a run that counted nothing and ended in `status` with a
    /// diagnostic.
    pub open spec fn failure(status: RunStatus, message: Seq<char>) -> Verdict {
        Verdict { status, tick: 0, memory: 0, exit_code: -1, error_message: message }
    }
}

impl RunResult {
    /// The verdict on a run that failed on the host's side: nothing is
    /// counted, and the exit code is -1.
    pub fn new_internal_error(message: String) -> (r: RunResult)
        ensures
            r@ == Verdict::failure(RunStatus::InternalError, message@),
    {
        RunResult {
            status: RunStatus::InternalError,
            tick: 0,
            memory: 0,
            exit_code: -1,
            error_message: message,
        }
    }

    /// The verdict on a run whose guest failed with a diagnostic: nothing is
    /// counted, and the exit code is -1.
    pub fn new_runtime_error(message: String) -> (r: RunResult)
        ensures
            r@ == Verdict::failure(RunStatus::RuntimeError, message@),
    {
        RunResult {
            status: RunStatus::RuntimeError,
            tick: 0,
            memory: 0,
            exit_code: -1,
            error_message: message,
        }
    }
}

/// Why a call of the entry function did not return.
#[derive(Debug, Clone, PartialEq, Eq)]
pub enum GuestFailure {
    /// The engine stopped the guest because its fuel ran out.
    OutOfFuel,
    /// The guest asked to exit with this code.
    Exit(i32),
    /// Any other trap or error, with the engine's diagnostic.
    Fault(String),
}

/// The failure that an error of the engine stands for, as `failure_of`
/// tells it: fuel exhaustion, a request to exit with its code, or any other
/// trap or error with its diagnostic.
pub uninterp spec fn failure_in(error: wasmtime::Error) -> GuestFailure;

/// Tells apart the errors with which a call into the guest can come back:
/// `wasmtime::Error::downcast_ref` to `wasmtime::Trap` finds a trap, of which
/// `Trap::OutOfFuel` is fuel exhaustion; to `wasi_common::I32Exit` it finds a
/// request to exit, whose code is moved over; every other error keeps the
/// text that `to_string` gives. The failure depends on the error alone: it is
/// the one that the name above stands for, and the text of a fault is the
/// diagnostic of the error.
#[verifier::external_body]
fn failure_of(error: &wasmtime::Error) -> (failure: GuestFailure)
    ensures
        failure == failure_in(*error),
        failure matches GuestFailure::Fault(message) ==> message@ == diagnostic_of(*error),
{
    match error.downcast_ref::<wasmtime::Trap>() {
        Some(wasmtime::Trap::OutOfFuel) => GuestFailure::OutOfFuel,
        Some(_) => GuestFailure::Fault(error.to_string()),
        None => match error.downcast_ref::<wasi_common::I32Exit>() {
            Some(exit) => GuestFailure::Exit(exit.0),
            None => GuestFailure::Fault(error.to_string()),
        },
    }
}

/// How a call of the entry function ended, in the terms of this library: a
/// clean return stays one, and an error of the engine becomes the failure
/// that it stands for.
pub fn call_outcome(call: Result<(), wasmtime::Error>) -> (outcome: Result<(), GuestFailure>)
    ensures
        call is Ok ==> outcome is Ok,
        call matches Err(error) ==> outcome == Err::<(), GuestFailure>(failure_in(error)),
        call matches Err(error) ==> (failure_in(error) matches GuestFailure::Fault(message)
            ==> message@ == diagnostic_of(error)),
{
    match call {
        Ok(_) => Ok(()),
        Err(error) => Err(failure_of(&error)),
    }
}

/// The verdict on a run whose entry function was called and whose fuel
/// could be read afterwards. The memory is the peak that the limiter saw,
/// whatever the outcome. A clean return counts before anything else; among
/// failures the limiter's latch counts before the kind of the failure. The
/// ticks are the budget less the fuel that is left, and the whole budget
/// for a run that ends by the time limit. Only a fault carries a diagnostic.
pub open spec fn execution_verdict(
    call: Result<(), GuestFailure>,
    fuel: u64,
    limiter: LimiterState,
    tick_limit: u64,
) -> Verdict {
    let spent = (tick_limit - fuel) as nat;
    let memory = limiter.peak;
    match call {
        Ok(_) => Verdict {
            status: RunStatus::Accepted,
            tick: spent,
            memory,
            exit_code: 0,
            error_message: Seq::empty(),
        },
        Err(failure) => if limiter.exceeded {
            Verdict {
                status: RunStatus::MemoryLimitExceeded,
                tick: spent,
                memory,
                exit_code: -1,
                error_message: Seq::empty(),
            }
        } else {
            match failure {
                GuestFailure::OutOfFuel => Verdict {
                    status: RunStatus::TimeLimitExceeded,
                    tick: tick_limit as nat,
                    memory,
                    exit_code: -1,
                    error_message: Seq::empty(),
                },
                GuestFailure::Exit(code) => Verdict {
                    status: RunStatus::RuntimeError,
                    tick: spent,
                    memory,
                    exit_code: code as int,
                    error_message: Seq::empty(),
                },
                GuestFailure::Fault(message) => Verdict {
                    status: RunStatus::RuntimeError,
                    tick: spent,
                    memory,
                    exit_code: -1,
                    error_message: message@,
                },
            }
        },
    }
}

/// What `execute_and_get_results` makes of a call of the entry function:
/// the verdict, or the diagnostic of a fuel that could not be read.
pub open spec fn execution_result(
    call: Result<(), GuestFailure>,
    remaining_fuel: Result<u64, String>,
    limiter: LimiterState,
    tick_limit: u64,
) -> Result<Verdict, Seq<char>> {
    match remaining_fuel {
        Err(message) => Err(message@),
        Ok(fuel) => Ok(execution_verdict(call, fuel, limiter, tick_limit)),
    }
}

/// Assembles the verdict once the entry function has been called: `call` is
/// how the call ended, `remaining_fuel` what the store reported afterwards,
/// `limiter` the store's limiter after the call. The ticks consumed and the
/// peak of the memory are counted whatever the outcome. Only a reading of
/// the fuel that failed comes back as its diagnostic.
pub fn execute_and_get_results(
    call: Result<(), GuestFailure>,
    remaining_fuel: Result<u64, String>,
    limiter: &MemoryLimiter,
    tick_limit: u64,
) -> (r: Result<RunResult, String>)
    requires
        remaining_fuel matches Ok(fuel) ==> fuel <= tick_limit,
    ensures
        match execution_result(call, remaining_fuel, limiter@, tick_limit) {
            Ok(verdict) => r matches Ok(result) && result@ == verdict,
            Err(message) => r matches Err(text) && text@ == message,
        },
{
    let fuel = match remaining_fuel {
        Ok(fuel) => fuel,
        Err(message) => {
            return Err(message);
        },
    };
    let mut tick = tick_limit - fuel;
    let memory = limiter.peak_memory() as u64;
    let mut exit_code: i32 = -1;
    let mut error_message = String::new();
    let status = match call {
        Ok(_) => {
            exit_code = 0;
            RunStatus::Accepted
        },
        Err(failure) => {
            if limiter.limit_exceeded() {
                RunStatus::MemoryLimitExceeded
            } else {
                match failure {
                    GuestFailure::OutOfFuel => {
                        tick = tick_limit;
                        RunStatus::TimeLimitExceeded
                    },
                    GuestFailure::Exit(code) => {
                        exit_code = code;
                        RunStatus::RuntimeError
                    },
                    GuestFailure::Fault(message) => {
                        error_message = message;
                        RunStatus::RuntimeError
                    },
                }
            }
        },
    };
    Ok(RunResult { status, tick, memory, exit_code, error_message })
}

/// The verdict on a run whose entry function was called.
pub open spec fn verdict_after_execution(
    call: Result<(), GuestFailure>,
    remaining_fuel: Result<u64, String>,
    limiter: LimiterState,
    tick_limit: u64,
) -> Verdict {
    match execution_result(call, remaining_fuel, limiter, tick_limit) {
        Ok(verdict) => verdict,
        Err(message) => Verdict::failure(RunStatus::RuntimeError, message),
    }
}

/// The verdict on a run whose entry function was called: what
/// `execute_and_get_results` assembles, or, where the fuel could not be
/// read, a runtime error with the diagnostic of that.
pub fn after_execution(
    call: Result<(), GuestFailure>,
    remaining_fuel: Result<u64, String>,
    limiter: &MemoryLimiter,
    tick_limit: u64,
) -> (r: RunResult)
    requires
        remaining_fuel matches Ok(fuel) ==> fuel <= tick_limit,
    ensures
        r@ == verdict_after_execution(call, remaining_fuel, limiter@, tick_limit),
        r@ == run_verdict(
            RunTrace::Executed { call, remaining_fuel, limiter: limiter@ },
            tick_limit,
        ),
        r.tick <= tick_limit,
        r.status == RunStatus::Accepted <==> call is Ok && remaining_fuel is Ok,
{
    match execute_and_get_results(call, remaining_fuel, limiter, tick_limit) {
        Ok(result) => result,
        Err(message) => RunResult::new_runtime_error(message),
    }
}

/// The steps that prepare a run, in the order in which they are taken.
#[derive(Debug, Clone, Copy, PartialEq, Eq, Structural)]
pub enum SetupStep {
    /// Build the engine from its settings.
    CreateEngine,
    /// Make the host functions known to a linker.
    SetupLinker,
    /// Turn the module's bytes into a module.
    LoadModule,
    /// Build the store with the guest's context, its limiter and its fuel.
    CreateStore,
    /// Instantiate the module and look up its entry function.
    SetupInstance,
}

impl SetupStep {
    /// The step that follows, or `None` after the last one.
    pub open spec fn successor(self) -> Option<SetupStep> {
        match self {
            SetupStep::CreateEngine => Some(SetupStep::SetupLinker),
            SetupStep::SetupLinker => Some(SetupStep::LoadModule),
            SetupStep::LoadModule => Some(SetupStep::CreateStore),
            SetupStep::CreateStore => Some(SetupStep::SetupInstance),
            SetupStep::SetupInstance => None,
        }
    }

    /// The step with which every run begins.
    pub fn first() -> (step: SetupStep)
        ensures
            step == SetupStep::CreateEngine,
    {
        SetupStep::CreateEngine
    }
}

/// What a run does next.
#[derive(Debug, PartialEq, Eq)]
pub enum RunProgress {
    /// Take this step of the setup.
    Setup(SetupStep),
    /// Call the entry function.
    Execute,
    /// The run is over.
    Finished(RunResult),
}

/// Decides how a run goes on after `step`: a failure ends it as an internal
/// error that carries the diagnostic, a success leads to the next step, and
/// to the call of the entry function after the last.
pub fn after_setup(step: SetupStep, outcome: Result<(), String>) -> (next: RunProgress)
    ensures
        match outcome {
            Err(message) => next matches RunProgress::Finished(result) && result@
                == Verdict::failure(RunStatus::InternalError, message@),
            Ok(_) => match step.successor() {
                Some(following) => next == RunProgress::Setup(following),
                None => next == RunProgress::Execute,
            },
        },
{
    match outcome {
        Err(message) => RunProgress::Finished(RunResult::new_internal_error(message)),
        Ok(_) => match step {
            SetupStep::CreateEngine => RunProgress::Setup(SetupStep::SetupLinker),
            SetupStep::SetupLinker => RunProgress::Setup(SetupStep::LoadModule),
            SetupStep::LoadModule => RunProgress::Setup(SetupStep::CreateStore),
            SetupStep::CreateStore => RunProgress::Setup(SetupStep::SetupInstance),
            SetupStep::SetupInstance => RunProgress::Execute,
        },
    }
}

/// What was observed of one run: the step of the setup that failed, with
/// its diagnostic, or how the call of the entry function ended, the fuel
/// that was read afterwards and the limiter as the call left it.
pub enum RunTrace {
    /// A step of the setup failed, and the entry function was never called.
    SetupFailed { step: SetupStep, message: Seq<char> },
    /// The setup went through, and the entry function was called.
    Executed {
        call: Result<(), GuestFailure>,
        remaining_fuel: Result<u64, String>,
        limiter: LimiterState,
    },
}

impl RunTrace {
    /// The fuel that is read back is within the budget: it is set to the
    /// budget before the call, and the guest can only use it up.
    pub open spec fn within_budget(self, tick_limit: u64) -> bool {
        self matches RunTrace::Executed { remaining_fuel: Ok(fuel), .. } ==> fuel <= tick_limit
    }

    /// The entry function was called, it returned, and the fuel could be
    /// read.
    pub open spec fn returned_cleanly(self) -> bool {
        self matches RunTrace::Executed { call: Ok(_), remaining_fuel: Ok(_), .. }
    }
}

/// The verdict on a run of which `trace` was observed: that of `after_setup`
/// for a step that failed, that of `after_execution` for a call of the entry
/// function.
pub open spec fn run_verdict(trace: RunTrace, tick_limit: u64) -> Verdict {
    match trace {
        RunTrace::SetupFailed { message, .. } => Verdict::failure(
            RunStatus::InternalError,
            message,
        ),
        RunTrace::Executed { call, remaining_fuel, limiter } => verdict_after_execution(
            call,
            remaining_fuel,
            limiter,
            tick_limit,
        ),
    }
}

/// No run counts more ticks than its budget. A run that ends by the time
/// limit counts exactly its budget and carries no diagnostic; any other run
/// whose fuel could be read counts the budget less the fuel that is left.
pub proof fn lemma_tick_within_budget(trace: RunTrace, tick_limit: u64)
    requires
        trace.within_budget(tick_limit),
    ensures
        ({
            let verdict = run_verdict(trace, tick_limit);
            &&& verdict.tick <= tick_limit
            &&& verdict.status == RunStatus::TimeLimitExceeded ==> verdict.tick == tick_limit
                && verdict.error_message.len() == 0 && verdict.exit_code == -1
            &&& trace matches RunTrace::Executed { remaining_fuel: Ok(fuel), .. } ==> verdict.status
                != RunStatus::TimeLimitExceeded ==> verdict.tick == tick_limit - fuel
        }),
{
}

/// The memory that a run reports is the largest size its guest asked for,
/// whatever the outcome of the call. It lies within the cap unless a request
/// was refused, and then it is the size of a refused request. A run ends by
/// the memory limit only if its guest asked for strictly more than the cap.
/// A run whose setup failed reports no memory.
pub proof fn lemma_memory_within_bound(
    call: Result<(), GuestFailure>,
    remaining_fuel: Result<u64, String>,
    memory_limit: nat,
    requests: Seq<nat>,
    tick_limit: u64,
    step: SetupStep,
    message: Seq<char>,
)
    ensures
        ({
            let limiter = LimiterState::fresh(memory_limit).grow_all(requests);
            let verdict = run_verdict(
                RunTrace::Executed { call, remaining_fuel, limiter },
                tick_limit,
            );
            &&& verdict.memory <= memory_limit || exists|i: int|
                0 <= i < requests.len() && requests[i] > memory_limit && verdict.memory
                    == requests[i]
            &&& remaining_fuel is Ok ==> verdict.memory == limiter.peak
            &&& verdict.status == RunStatus::MemoryLimitExceeded ==> verdict.memory > memory_limit
                && exists|i: int| 0 <= i < requests.len() && requests[i] > memory_limit
        }),
        run_verdict(RunTrace::SetupFailed { step, message }, tick_limit).memory == 0,
{
    crate::runner::lemma_limiter_history(memory_limit, requests);
}

/// A run is accepted exactly when its setup went through, its entry function
/// returned and the fuel could be read; an accepted run has exit code 0 and
/// no diagnostic. A guest that asks to exit is never accepted, whatever its
/// code. A run ends as an internal error exactly when a step of its setup
/// failed, and then it counts nothing, has exit code -1 and carries the
/// diagnostic of the step.
pub proof fn lemma_accepted_means_clean_return(trace: RunTrace, tick_limit: u64)
    ensures
        ({
            let verdict = run_verdict(trace, tick_limit);
            &&& verdict.status == RunStatus::Accepted <==> trace.returned_cleanly()
            &&& verdict.status == RunStatus::Accepted ==> verdict.exit_code == 0
                && verdict.error_message.len() == 0
            &&& verdict.status == RunStatus::InternalError <==> trace is SetupFailed
            &&& trace matches RunTrace::SetupFailed { message, .. } ==> verdict == Verdict::failure(
                RunStatus::InternalError,
                message,
            )
            &&& verdict.status == RunStatus::MemoryLimitExceeded ==> (trace matches RunTrace::Executed {
                call: Err(_),
                limiter,
                ..
            } && limiter.exceeded)
            &&& verdict.exit_code != -1 ==> verdict.status == RunStatus::Accepted
                || verdict.status == RunStatus::RuntimeError
        }),
{
}

/// A run whose entry function returns with fuel left over is accepted with
/// exit code 0, and counts some ticks and no more than its budget.
pub proof fn lemma_clean_return(fuel: u64, limiter: LimiterState, tick_limit: u64)
    requires
        fuel < tick_limit,
    ensures
        ({
            let verdict = run_verdict(
                RunTrace::Executed {
                    call: Ok(()),
                    remaining_fuel: Ok(fuel),
                    limiter,
                },
                tick_limit,
            );
            &&& verdict.status == RunStatus::Accepted
            &&& verdict.exit_code == 0
            &&& 0 < verdict.tick <= tick_limit
            &&& verdict.memory == limiter.peak
            &&& verdict.error_message.len() == 0
        }),
{
}

/// A run whose guest was refused memory and whose call then failed, in
/// whatever way, ends by the memory limit and reports at least the size
/// that was refused.
pub proof fn lemma_refused_growth(
    failure: GuestFailure,
    fuel: u64,
    memory_limit: nat,
    requests: Seq<nat>,
    refused: int,
    tick_limit: u64,
)
    requires
        fuel <= tick_limit,
        0 <= refused < requests.len(),
        requests[refused] > memory_limit,
    ensures
        ({
            let limiter = LimiterState::fresh(memory_limit).grow_all(requests);
            let verdict = run_verdict(
                RunTrace::Executed { call: Err(failure), remaining_fuel: Ok(fuel), limiter },
                tick_limit,
            );
            &&& verdict.status == RunStatus::MemoryLimitExceeded
            &&& verdict.memory >= requests[refused]
            &&& verdict.exit_code == -1
        }),
{
    crate::runner::lemma_limiter_history(memory_limit, requests);
}

/// A run whose guest asks to exit, and was refused no memory, ends as a
/// runtime error with the code that the guest gave, zero or not, and with
/// no diagnostic; where fuel was used, it counts some ticks.
pub proof fn lemma_exit_request(code: i32, fuel: u64, limiter: LimiterState, tick_limit: u64)
    requires
        fuel <= tick_limit,
        !limiter.exceeded,
    ensures
        ({
            let verdict = run_verdict(
                RunTrace::Executed {
                    call: Err(GuestFailure::Exit(code)),
                    remaining_fuel: Ok(fuel),
                    limiter,
                },
                tick_limit,
            );
            &&& verdict.status == RunStatus::RuntimeError
            &&& verdict.exit_code == code
            &&& verdict.tick == tick_limit - fuel
            &&& fuel < tick_limit ==> verdict.tick > 0
            &&& verdict.error_message.len() == 0
        }),
{
}

/// A run whose guest traps in any other way, and was refused no memory,
/// ends as a runtime error with exit code -1 and the diagnostic of the
/// engine, and counts its ticks and its memory like any other.
pub proof fn lemma_fault(message: String, fuel: u64, limiter: LimiterState, tick_limit: u64)
    requires
        fuel <= tick_limit,
        !limiter.exceeded,
    ensures
        ({
            let verdict = run_verdict(
                RunTrace::Executed {
                    call: Err(GuestFailure::Fault(message)),
                    remaining_fuel: Ok(fuel),
                    limiter,
                },
                tick_limit,
            );
            &&& verdict.status == RunStatus::RuntimeError
            &&& verdict.exit_code == -1
            &&& verdict.error_message == message@
            &&& verdict.tick == tick_limit - fuel
            &&& verdict.memory == limiter.peak
        }),
{
}

/// Two calls ended alike: both returned, or both failed in the same way
/// with the same code or the same diagnostic.
pub open spec fn same_outcome(a: Result<(), GuestFailure>, b: Result<(), GuestFailure>) -> bool {
    match (a, b) {
        (Ok(_), Ok(_)) => true,
        (Err(GuestFailure::OutOfFuel), Err(GuestFailure::OutOfFuel)) => true,
        (Err(GuestFailure::Exit(x)), Err(GuestFailure::Exit(y))) => x == y,
        (Err(GuestFailure::Fault(m)), Err(GuestFailure::Fault(n))) => m@ == n@,
        _ => false,
    }
}

/// Two readings of the fuel are alike: the same amount, or the same
/// diagnostic.
pub open spec fn same_fuel(a: Result<u64, String>, b: Result<u64, String>) -> bool {
    match (a, b) {
        (Ok(x), Ok(y)) => x == y,
        (Err(m), Err(n)) => m@ == n@,
        _ => false,
    }
}

/// Of two runs the same was observed: the setup of both failed with the
/// same diagnostic, or the calls of both ended alike, with the same fuel
/// left and the same limiter.
pub open spec fn same_trace(a: RunTrace, b: RunTrace) -> bool {
    match (a, b) {
        (
            RunTrace::SetupFailed { message: m, .. },
            RunTrace::SetupFailed { message: n, .. },
        ) => m == n,
        (
            RunTrace::Executed { call: call_a, remaining_fuel: fuel_a, limiter: limiter_a },
            RunTrace::Executed { call: call_b, remaining_fuel: fuel_b, limiter: limiter_b },
        ) => same_outcome(call_a, call_b) && same_fuel(fuel_a, fuel_b) && limiter_a == limiter_b,
        _ => false,
    }
}

/// The verdict is a function of what was observed: two runs with the same
/// budget of which the same was observed get the same verdict in every
/// field.
pub proof fn lemma_same_observations_same_verdict(a: RunTrace, b: RunTrace, tick_limit: u64)
    requires
        same_trace(a, b),
    ensures
        run_verdict(a, tick_limit) == run_verdict(b, tick_limit),
{
}

} // verus!
