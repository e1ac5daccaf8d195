pub mod build_target;
pub mod compile_cwasm;
pub mod judge;
pub mod patch_includes;
pub mod run;
pub mod run_wasm;
pub mod stress;
