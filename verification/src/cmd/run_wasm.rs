use vstd::prelude::*;

verus! {

/// The tick limit of a run for which none is given.
pub const DEFAULT_TICK_LIMIT: u64 = 100_000_000_000;

/// The memory limit of a run for which none is given, in bytes.
pub const DEFAULT_MEMORY_LIMIT: u64 = 4294967295;

/// The options of the `run-wasm` command.
#[derive(Debug, Clone)]
pub struct RunWasmOpts {
    /// The module to run.
    pub wasm_path: String,
    /// The most ticks that the module may use.
    pub tick_limit: u64,
    /// The most memory that the module may use, in bytes.
    pub memory_limit: u64,
    /// A file that is the module's standard input.
    pub stdin_path: Option<String>,
    /// A file that takes the module's standard output.
    pub stdout_path: Option<String>,
    /// A file that takes the module's standard error.
    pub stderr_path: Option<String>,
    /// Whether the module reads the standard input of the host.
    pub inherit_stdin: bool,
    /// Whether the module writes to the standard output of the host.
    pub inherit_stdout: bool,
    /// Whether the module writes to the standard error of the host.
    pub inherit_stderr: bool,
    /// The files that the module may read in its root directory.
    pub read_files: Vec<String>,
    /// The files that the module may write in its root directory.
    pub write_files: Vec<String>,
    /// Where the report goes; to the standard output where none is given.
    pub report_path: Option<String>,
    /// The arguments of the module.
    pub arguments: Vec<String>,
}

/// Where one of a module's standard streams leads.
#[derive(Debug, Clone, PartialEq, Eq)]
pub enum StdioSource {
    /// To the file at this path.
    File(String),
    /// To the stream of the host.
    Inherit,
    /// Nowhere: nothing is read, and what is written is dropped.
    Null,
}

/// Where a standard stream leads: to the file where one is given, else to
/// the stream of the host where that is asked for, else nowhere.
pub fn stdio_source(path: &Option<String>, inherit: bool) -> (source: StdioSource)
    ensures
        match *path {
            Some(file) => source matches StdioSource::File(p) && p@ == file@,
            None => source == (if inherit {
                StdioSource::Inherit
            } else {
                StdioSource::Null
            }),
        },
{
    match path {
        Some(file) => StdioSource::File(file.clone()),
        None => if inherit {
            StdioSource::Inherit
        } else {
            StdioSource::Null
        },
    }
}

} // verus!
