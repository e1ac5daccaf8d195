//! Deterministic sandboxed execution of WebAssembly programs for a
//! competitive-programming judge: resource accounting, verdict assembly and
//! the virtual judging directory, together with the helpers of the command
//! line tool built around them.

pub mod cli;
pub mod cmd;
pub mod nix;
pub mod runner;
pub mod strings;
pub mod utils;
