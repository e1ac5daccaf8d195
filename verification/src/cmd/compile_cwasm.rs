use vstd::prelude::*;

verus! {

/// The options of the `compile-cwasm` command.
#[derive(Debug, Clone)]
pub struct CompileCwasmOpts {
    /// The module to precompile.
    pub wasm_path: String,
    /// Where the precompiled module goes.
    pub out_path: String,
}

} // verus!
