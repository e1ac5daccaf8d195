use crate::cmd::build_target::BuildOpts;
use crate::cmd::compile_cwasm::CompileCwasmOpts;
use crate::cmd::judge::JudgeOpts;
use crate::cmd::patch_includes::PatchIncludesOpts;
use crate::cmd::run::RunOpts;
use crate::cmd::run_wasm::RunWasmOpts;
use crate::cmd::stress::StressOpts;
use vstd::prelude::*;

verus! {

/// What the tool is asked to do.
#[derive(Debug, Clone)]
pub struct Opts {
    pub command: Command,
}

/// The commands of the tool, each with its options.
#[derive(Debug, Clone)]
pub enum Command {
    Build(BuildOpts),
    CompileCwasm(CompileCwasmOpts),
    Judge(JudgeOpts),
    PatchIncludes(PatchIncludesOpts),
    Run(RunOpts),
    RunWasm(RunWasmOpts),
    Stress(StressOpts),
}

} // verus!
