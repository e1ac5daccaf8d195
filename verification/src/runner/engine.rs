use vstd::prelude::*;

verus! {

/// An engine of the `wasmtime` crate: opaque here.
#[verifier::external_type_specification]
#[verifier::external_body]
pub struct ExEngine(wasmtime::Engine);

/// A configuration of the `wasmtime` crate: opaque here.
#[verifier::external_type_specification]
#[verifier::external_body]
pub struct ExConfig(wasmtime::Config);

/// An error of the `wasmtime` crate: opaque here.
#[verifier::external_type_specification]
#[verifier::external_body]
pub struct ExError(wasmtime::Error);

/// The WebAssembly proposals beyond the first version of the language that an
/// engine can be told to accept.
#[derive(Debug, Clone, Copy, PartialEq, Eq, Structural)]
pub struct WasmProposals {
    pub bulk_memory: bool,
    pub custom_page_sizes: bool,
    pub extended_const: bool,
    pub memory64: bool,
    pub multi_memory: bool,
    pub multi_value: bool,
    pub relaxed_simd: bool,
    pub shared_everything_threads: bool,
    pub simd: bool,
    pub stack_switching: bool,
    pub tail_call: bool,
    pub wide_arithmetic: bool,
}

impl WasmProposals {
    /// No proposal is switched on.
    pub open spec fn all_off(self) -> bool {
        &&& !self.bulk_memory
        &&& !self.custom_page_sizes
        &&& !self.extended_const
        &&& !self.memory64
        &&& !self.multi_memory
        &&& !self.multi_value
        &&& !self.relaxed_simd
        &&& !self.shared_everything_threads
        &&& !self.simd
        &&& !self.stack_switching
        &&& !self.tail_call
        &&& !self.wide_arithmetic
    }

    /// The first version of the language and nothing else.
    pub fn mvp_only() -> (p: WasmProposals)
        ensures
            p.all_off(),
    {
        WasmProposals {
            bulk_memory: false,
            custom_page_sizes: false,
            extended_const: false,
            memory64: false,
            multi_memory: false,
            multi_value: false,
            relaxed_simd: false,
            shared_everything_threads: false,
            simd: false,
            stack_switching: false,
            tail_call: false,
            wide_arithmetic: false,
        }
    }
}

/// The code generator of an engine.
#[derive(Debug, Clone, Copy, PartialEq, Eq, Structural)]
pub enum CompilerStrategy {
    Auto,
    Cranelift,
    Winch,
}

/// The profiler that an engine supports.
#[derive(Debug, Clone, Copy, PartialEq, Eq, Structural)]
pub enum Profiler {
    /// No profiler.
    Off,
    PerfMap,
    JitDump,
    VTune,
    Pulley,
}

/// How far the code generator optimises.
#[derive(Debug, Clone, Copy, PartialEq, Eq, Structural)]
pub enum OptLevel {
    /// No optimisation.
    Off,
    Speed,
    SpeedAndSize,
}

/// Everything that is fixed about an engine before it is built.
#[derive(Debug, Clone, Copy, PartialEq, Eq, Structural)]
pub struct EngineSettings {
    /// Whether the guest's instructions are paid for in fuel.
    pub consume_fuel: bool,
    pub proposals: WasmProposals,
    /// The most stack that the guest may use, in bytes.
    pub max_wasm_stack: usize,
    pub strategy: CompilerStrategy,
    pub profiler: Profiler,
    pub opt_level: OptLevel,
}

impl EngineSettings {
    /// The settings of every run: fuel is metered, no proposal is accepted,
    /// the guest's stack is capped by its memory limit, and Cranelift
    /// generates the code, optimised for speed, with no profiler.
    pub open spec fn for_run(memory_limit: u64) -> EngineSettings {
        EngineSettings {
            consume_fuel: true,
            proposals: WasmProposals {
                bulk_memory: false,
                custom_page_sizes: false,
                extended_const: false,
                memory64: false,
                multi_memory: false,
                multi_value: false,
                relaxed_simd: false,
                shared_everything_threads: false,
                simd: false,
                stack_switching: false,
                tail_call: false,
                wide_arithmetic: false,
            },
            max_wasm_stack: memory_limit as usize,
            strategy: CompilerStrategy::Cranelift,
            profiler: Profiler::Off,
            opt_level: OptLevel::Speed,
        }
    }

    /// The settings of a run whose memory is capped at `memory_limit` bytes.
    pub fn new(memory_limit: u64) -> (settings: EngineSettings)
        requires
            memory_limit <= usize::MAX,
        ensures
            settings == EngineSettings::for_run(memory_limit),
            settings.consume_fuel,
            settings.proposals.all_off(),
            settings.max_wasm_stack == memory_limit,
    {
        EngineSettings {
            consume_fuel: true,
            proposals: WasmProposals::mvp_only(),
            max_wasm_stack: memory_limit as usize,
            strategy: CompilerStrategy::Cranelift,
            profiler: Profiler::Off,
            opt_level: OptLevel::Speed,
        }
    }
}

/// The settings that a configuration holds, as far as they are settings of
/// this library: what its setters were last given.
pub uninterp spec fn configured(config: wasmtime::Config) -> EngineSettings;

/// The settings of the configuration from which an engine was built.
pub uninterp spec fn built_with(engine: wasmtime::Engine) -> EngineSettings;

/// `wasmtime::Config::new` and the twelve `Config::wasm_*` setters that take
/// the proposals of `WasmProposals`: each field goes to the setter of its
/// name, and each setter switches its own proposal and no other, so the
/// configuration that comes back holds these proposals.
#[verifier::external_body]
fn config_with_proposals(p: &WasmProposals) -> (config: wasmtime::Config)
    ensures
        configured(config).proposals == *p,
{
    let mut c = wasmtime::Config::new();
    c.wasm_bulk_memory(p.bulk_memory).wasm_custom_page_sizes(p.custom_page_sizes);
    c.wasm_extended_const(p.extended_const).wasm_memory64(p.memory64);
    c.wasm_multi_memory(p.multi_memory).wasm_multi_value(p.multi_value);
    c.wasm_relaxed_simd(p.relaxed_simd).wasm_simd(p.simd);
    c.wasm_shared_everything_threads(p.shared_everything_threads);
    c.wasm_stack_switching(p.stack_switching).wasm_tail_call(p.tail_call);
    c.wasm_wide_arithmetic(p.wide_arithmetic);
    c
}

/// `wasmtime::Config::consume_fuel` and `Config::max_wasm_stack`: the
/// configuration holds the two values afterwards, and every other setting as
/// before.
#[verifier::external_body]
fn set_limits(config: &mut wasmtime::Config, consume_fuel: bool, max_wasm_stack: usize)
    ensures
        configured(*final(config)) == (EngineSettings {
            consume_fuel,
            max_wasm_stack,
            ..configured(*old(config))
        }),
{
    config.consume_fuel(consume_fuel).max_wasm_stack(max_wasm_stack);
}

/// `wasmtime::Config::strategy`, with the variant of the same name: the
/// configuration holds every other setting as before, and the strategy
/// where one is named. For `Auto` the crate picks one of those that are
/// built into it, so nothing is claimed of the strategy then.
#[verifier::external_body]
fn set_strategy(config: &mut wasmtime::Config, strategy: CompilerStrategy)
    ensures
        configured(*final(config)) == (EngineSettings {
            strategy: configured(*final(config)).strategy,
            ..configured(*old(config))
        }),
        strategy != CompilerStrategy::Auto ==> configured(*final(config)).strategy == strategy,
{
    config.strategy(
        match strategy {
            CompilerStrategy::Auto => wasmtime::Strategy::Auto,
            CompilerStrategy::Cranelift => wasmtime::Strategy::Cranelift,
            CompilerStrategy::Winch => wasmtime::Strategy::Winch,
        },
    );
}

/// `wasmtime::Config::profiler`, with the variant of the same name (`Off`
/// for its `None`): the configuration holds the profiler afterwards, and
/// every other setting as before.
#[verifier::external_body]
fn set_profiler(config: &mut wasmtime::Config, profiler: Profiler)
    ensures
        configured(*final(config)) == (EngineSettings { profiler, ..configured(*old(config)) }),
{
    config.profiler(
        match profiler {
            Profiler::Off => wasmtime::ProfilingStrategy::None,
            Profiler::PerfMap => wasmtime::ProfilingStrategy::PerfMap,
            Profiler::JitDump => wasmtime::ProfilingStrategy::JitDump,
            Profiler::VTune => wasmtime::ProfilingStrategy::VTune,
            Profiler::Pulley => wasmtime::ProfilingStrategy::Pulley,
        },
    );
}

/// `wasmtime::Config::cranelift_opt_level`, with the variant of the same
/// name (`Off` for its `None`): the configuration holds the level
/// afterwards, and every other setting as before.
#[verifier::external_body]
fn set_opt_level(config: &mut wasmtime::Config, level: OptLevel)
    ensures
        configured(*final(config)) == (EngineSettings {
            opt_level: level,
            ..configured(*old(config))
        }),
{
    config.cranelift_opt_level(
        match level {
            OptLevel::Off => wasmtime::OptLevel::None,
            OptLevel::Speed => wasmtime::OptLevel::Speed,
            OptLevel::SpeedAndSize => wasmtime::OptLevel::SpeedAndSize,
        },
    );
}

/// `wasmtime::Engine::new`: it builds from a copy of the configuration, so
/// an engine that comes back was built with the settings that the
/// configuration holds. Whether one comes back depends on the machine.
#[verifier::external_body]
fn new_engine(config: &wasmtime::Config) -> (r: Result<wasmtime::Engine, wasmtime::Error>)
    ensures
        r matches Ok(engine) ==> built_with(engine) == configured(*config),
{
    wasmtime::Engine::new(config)
}

/// The diagnostic of an error of the engine: the text that `to_string`
/// gives for it.
pub uninterp spec fn diagnostic_of(error: wasmtime::Error) -> Seq<char>;

/// `ToString::to_string` on a `wasmtime::Error`: the text that its `Display`
/// gives, which is what the name above stands for.
#[verifier::external_body]
fn error_text(error: &wasmtime::Error) -> (text: String)
    ensures
        text@ == diagnostic_of(*error),
{
    error.to_string()
}

/// A failure of the engine, with its diagnostic.
#[derive(Debug, Clone, PartialEq, Eq)]
pub struct EngineError {
    pub message: String,
}

/// Hands on what the engine gave: a value as it is, and a failure as an
/// error of this library that carries the diagnostic of the engine.
pub fn engine_outcome<T>(result: Result<T, wasmtime::Error>) -> (r: Result<T, EngineError>)
    ensures
        match result {
            Ok(value) => r == Ok::<T, EngineError>(value),
            Err(error) => r matches Err(failure) && failure.message@ == diagnostic_of(error),
        },
{
    match result {
        Ok(value) => Ok(value),
        Err(error) => Err(EngineError { message: error_text(&error) }),
    }
}

/// Builds an engine with the given settings: every setting is handed to the
/// configuration, and the engine is built from it. An engine that comes back
/// was built with these settings; for the strategy `Auto` the strategy is
/// the one that the engine picked. Whether the machine can build the engine
/// is for the engine to say: where it cannot, its diagnostic comes back.
pub fn build_engine(settings: &EngineSettings) -> (r: Result<wasmtime::Engine, EngineError>)
    ensures
        r matches Ok(engine) ==> built_with(engine) == (EngineSettings {
            strategy: built_with(engine).strategy,
            ..*settings
        }),
        r matches Ok(engine) ==> (settings.strategy != CompilerStrategy::Auto ==> built_with(engine)
            == *settings),
{
    let mut config = config_with_proposals(&settings.proposals);
    set_limits(&mut config, settings.consume_fuel, settings.max_wasm_stack);
    set_strategy(&mut config, settings.strategy);
    set_profiler(&mut config, settings.profiler);
    set_opt_level(&mut config, settings.opt_level);
    engine_outcome(new_engine(&config))
}

/// Builds the engine of a run whose memory is capped at `memory_limit`
/// bytes: an engine that comes back meters fuel, accepts no proposal, caps
/// the guest's stack at the memory limit, and has Cranelift generate its
/// code, optimised for speed, with no profiler.
pub fn create_engine(memory_limit: u64) -> (r: Result<wasmtime::Engine, EngineError>)
    requires
        memory_limit <= usize::MAX,
    ensures
        r matches Ok(engine) ==> built_with(engine) == EngineSettings::for_run(memory_limit),
{
    let settings = EngineSettings::new(memory_limit);
    build_engine(&settings)
}

/// The kinds of precompiled artifact that the engine tells apart.
#[derive(Debug, Clone, Copy, PartialEq, Eq, Structural)]
pub enum Precompiled {
    /// A precompiled core module.
    Module,
    /// A precompiled component.
    Component,
}

/// What `wasmtime::Engine::detect_precompiled` makes of `bytes`: it reads
/// their header and nothing else.
pub uninterp spec fn detected_artifact(bytes: Seq<u8>) -> Option<Precompiled>;

/// `wasmtime::Engine::detect_precompiled`: the result is the one that the
/// name above stands for, variant for variant.
#[verifier::external_body]
fn detect_precompiled(bytes: &[u8]) -> (r: Option<Precompiled>)
    ensures
        r == detected_artifact(bytes@),
{
    match wasmtime::Engine::detect_precompiled(bytes) {
        Some(wasmtime::Precompiled::Module) => Some(Precompiled::Module),
        Some(wasmtime::Precompiled::Component) => Some(Precompiled::Component),
        None => None,
    }
}

/// `wasmtime::Engine::precompile_module`. What it emits depends on the
/// machine; claimed is only that `detect_precompiled` takes it for a
/// precompiled module, as the header it writes is the one that is read there.
#[verifier::external_body]
fn precompile_module(engine: &wasmtime::Engine, wasm: &[u8]) -> (r: Result<
    Vec<u8>,
    wasmtime::Error,
>)
    ensures
        r matches Ok(blob) ==> detected_artifact(blob@) == Some(Precompiled::Module),
{
    engine.precompile_module(wasm)
}

/// How the bytes of a module are turned into a module.
#[derive(Debug, Clone, Copy, PartialEq, Eq, Structural)]
pub enum ModuleForm {
    /// A precompiled artifact: it is deserialized, and neither validated nor
    /// compiled.
    Precompiled,
    /// Anything else: it is parsed and compiled.
    Source,
}

/// The way to load bytes in which the engine detected `detected`: whatever
/// it takes for a precompiled artifact is deserialized, all else compiled.
pub open spec fn form_for(detected: Option<Precompiled>) -> ModuleForm {
    if detected is Some {
        ModuleForm::Precompiled
    } else {
        ModuleForm::Source
    }
}

/// The way in which the bytes of a module are loaded.
pub open spec fn module_form_of(bytes: Seq<u8>) -> ModuleForm {
    form_for(detected_artifact(bytes))
}

/// The way to load bytes in which the engine detected `detected`.
pub fn loader_for(detected: Option<Precompiled>) -> (form: ModuleForm)
    ensures
        form == form_for(detected),
{
    match detected {
        Some(_) => ModuleForm::Precompiled,
        None => ModuleForm::Source,
    }
}

/// Probes `wasm` and says how it is to be loaded. No code of the module
/// runs.
pub fn module_form(wasm: &[u8]) -> (form: ModuleForm)
    ensures
        form == module_form_of(wasm@),
{
    loader_for(detect_precompiled(wasm))
}

/// The stack that the engine of the precompiler allows a guest, in bytes.
pub const PRECOMPILE_STACK_BYTES: u64 = 524288;

/// Precompiles a module with the settings of a run, so that a later run can
/// load it without parsing and compiling it again: the blob that comes back
/// is one that `module_form` takes for precompiled, and so one that a run
/// deserializes.
pub fn compile(wasm: &[u8]) -> (r: Result<Vec<u8>, EngineError>)
    ensures
        r matches Ok(blob) ==> detected_artifact(blob@) == Some(Precompiled::Module)
            && module_form_of(blob@) == ModuleForm::Precompiled,
{
    let engine = match create_engine(PRECOMPILE_STACK_BYTES) {
        Ok(engine) => engine,
        Err(error) => {
            return Err(error);
        },
    };
    engine_outcome(precompile_module(&engine, wasm))
}

} // verus!
