use crate::cmd::build_target::{final_flake_ref, flake_ref_text};
use crate::nix::{with_entry, BuildCommand, BuildView};
use vstd::prelude::*;
use vstd::string::StringExecFns;

verus! {

/// The options of the `run` command.
#[derive(Debug, Clone)]
pub struct RunOpts {
    /// The problem in whose setting the source is compiled.
    pub problem: String,
    /// The language of the source; found from its name where none is given.
    pub language: Option<String>,
    /// The tick limit of the run, where it is not the default.
    pub tick_limit: Option<u64>,
    /// The memory limit of the run in bytes, where it is not the default.
    pub memory_limit: Option<u64>,
    /// Whether the status of the run is reported afterwards.
    pub show_status: bool,
    /// Whether the submodules of the repository are fetched.
    pub submodules: bool,
    /// The source file to run.
    pub src_path: String,
    /// The arguments of the program.
    pub args: Vec<String>,
}

/// The tick limit of a run for which none is given.
pub const DEFAULT_TICK_LIMIT: u64 = 1_000_000_000_000_000_000;

/// The memory limit of a run for which none is given, in bytes.
pub const DEFAULT_MEMORY_LIMIT: u64 = 4294967295;

/// The limit that holds: the one given, or the default.
pub fn limit_or(limit: Option<u64>, default: u64) -> (n: u64)
    ensures
        n == (match limit {
            Some(given) => given,
            None => default,
        }),
{
    match limit {
        Some(given) => given,
        None => default,
    }
}

pub const RUN_EXPRESSION_A: &'static str = "\n      { srcPath, languageName }:\n      let\n        flake = builtins.getFlake \"";

pub const RUN_EXPRESSION_B: &'static str = "\";\n        hullLib = (flake.inputs.hull.lib or flake.outputs.lib).";

pub const RUN_EXPRESSION_C: &'static str = ";\n        pkgs = flake.inputs.nixpkgs.legacyPackages.";

pub const RUN_EXPRESSION_D: &'static str = ";\n        problem = flake.outputs.hullProblems.";

pub const RUN_EXPRESSION_E: &'static str = ".";

pub const RUN_EXPRESSION_F: &'static str = ".config;\n\n        langName = if languageName != null\n                  then languageName\n                  else hullLib.language.matchBaseName (builtins.baseNameOf srcPath) problem.languages;\n\n        _ = if langName == null then throw \"Could not determine language for file: ${srcPath}\" else null;\n        lang = problem.languages.${langName} or (throw \"Language '\" + langName + \"' not found for problem '";

pub const RUN_EXPRESSION_G: &'static str = "'\");\n\n        wasm = lang.compile.executable {\n          name = \"hull-run-${builtins.baseNameOf srcPath}\";\n          src = (/. + srcPath);\n          includes = problem.includes;\n          extraObjects = [];\n        };\n      in\n      wasm\n    ";

/// The expression that compiles one source file for a problem.
pub open spec fn run_expression_text(final_flake_ref: Seq<char>, system: Seq<char>, problem_name: Seq<char>) -> Seq<char> {
    RUN_EXPRESSION_A@ + final_flake_ref + RUN_EXPRESSION_B@ + system + RUN_EXPRESSION_C@ + system + RUN_EXPRESSION_D@ + system + RUN_EXPRESSION_E@ + problem_name + RUN_EXPRESSION_F@ + problem_name + RUN_EXPRESSION_G@
}

/// Writes the expression that compiles one source file in the setting of a problem of the flake.
pub fn run_expression(final_flake_ref: &str, system: &str, problem_name: &str) -> (text: String)
    ensures
        text@ == run_expression_text(final_flake_ref@, system@, problem_name@),
{
    let mut text = String::from_str(RUN_EXPRESSION_A);
    text.append(final_flake_ref);
    text.append(RUN_EXPRESSION_B);
    text.append(system);
    text.append(RUN_EXPRESSION_C);
    text.append(system);
    text.append(RUN_EXPRESSION_D);
    text.append(system);
    text.append(RUN_EXPRESSION_E);
    text.append(problem_name);
    text.append(RUN_EXPRESSION_F);
    text.append(problem_name);
    text.append(RUN_EXPRESSION_G);
    text
}


/// The named string arguments of the command that compiles a source.
pub open spec fn run_argstr(src_path: Seq<char>, problem: Seq<char>, language: Option<Seq<char>>) -> Seq<
    (Seq<char>, Seq<char>),
> {
    match language {
        Some(name) => seq![
            ("srcPath"@, src_path),
            ("problemName"@, problem),
            ("languageName"@, name),
        ],
        None => seq![("srcPath"@, src_path), ("problemName"@, problem)],
    }
}

/// The `nix build` command that compiles a source file: the expression is
/// built impurely with the path of the source and the name of the problem as
/// its arguments, and with the name of the language, or with `null` in its
/// place; the path of the module is printed, and no link is made.
pub fn run_command(nix_expr: &str, src_path: &str, problem: &str, language: &Option<String>) -> (command:
    BuildCommand)
    ensures
        command@ == (BuildView {
            impure: true,
            expr: Some(nix_expr@),
            argstr: run_argstr(src_path@, problem@, crate::nix::text_of(*language)),
            arg: if language is Some {
                Seq::empty()
            } else {
                seq![("languageName"@, "null"@)]
            },
            print_out_paths: true,
            no_link: true,
            ..BuildView::initial()
        }),
        command@.wf(),
{
    proof {
        reveal_strlit("srcPath");
        reveal_strlit("problemName");
        reveal_strlit("languageName");
    }
    let ghost first = with_entry(Seq::empty(), "srcPath"@, src_path@);
    let ghost second = with_entry(first, "problemName"@, problem@);
    assert("srcPath"@ != "problemName"@) by {
        assert("srcPath"@[0] != "problemName"@[0]);
    }
    assert("srcPath"@ != "languageName"@) by {
        assert("srcPath"@[0] != "languageName"@[0]);
    }
    assert("problemName"@ != "languageName"@) by {
        assert("problemName"@[0] != "languageName"@[0]);
    }
    assert(second =~= seq![("srcPath"@, src_path@), ("problemName"@, problem@)]) by {
        assert(first.drop_first() =~= Seq::empty());
        assert(with_entry(first.drop_first(), "problemName"@, problem@) =~= seq![
            ("problemName"@, problem@),
        ]);
    }
    let command = BuildCommand::new().impure(true).expr(nix_expr).argstr("srcPath", src_path).argstr(
        "problemName",
        problem,
    );
    let command = match language {
        Some(name) => {
            proof {
                let rest = second.drop_first();
                assert(with_entry(rest.drop_first(), "languageName"@, name@) =~= seq![
                    ("languageName"@, name@),
                ]);
                assert(with_entry(rest, "languageName"@, name@) =~= seq![
                    ("problemName"@, problem@),
                    ("languageName"@, name@),
                ]);
                assert(with_entry(second, "languageName"@, name@) =~= run_argstr(
                    src_path@,
                    problem@,
                    Some(name@),
                ));
            }
            command.argstr("languageName", name.as_str())
        },
        None => {
            command.arg("languageName", "null")
        },
    };
    command.print_out_paths(true).no_link(true)
}

/// The `nix build` command that compiles the source at `src_path` as the
/// options ask, for the given system and the flake at `flake_url`.
pub fn run_build(opts: &RunOpts, system: &str, flake_url: &str, src_path: &str) -> (command:
    BuildCommand)
    ensures
        command@ == (BuildView {
            impure: true,
            expr: Some(
                run_expression_text(
                    flake_ref_text(flake_url@, opts.submodules),
                    system@,
                    opts.problem@,
                ),
            ),
            argstr: run_argstr(src_path@, opts.problem@, crate::nix::text_of(opts.language)),
            arg: if opts.language is Some {
                Seq::empty()
            } else {
                seq![("languageName"@, "null"@)]
            },
            print_out_paths: true,
            no_link: true,
            ..BuildView::initial()
        }),
        command@.wf(),
{
    let reference = final_flake_ref(flake_url, opts.submodules);
    let nix_expr = run_expression(reference.as_str(), system, opts.problem.as_str());
    run_command(nix_expr.as_str(), src_path, opts.problem.as_str(), &opts.language)
}

/// The budgets of the run that the options ask for: the tick limit and the
/// memory limit in bytes, each the one given or its default.
pub fn run_limits(opts: &RunOpts) -> (limits: (u64, u64))
    ensures
        limits.0 == (match opts.tick_limit {
            Some(given) => given,
            None => DEFAULT_TICK_LIMIT,
        }),
        limits.1 == (match opts.memory_limit {
            Some(given) => given,
            None => DEFAULT_MEMORY_LIMIT,
        }),
{
    (limit_or(opts.tick_limit, DEFAULT_TICK_LIMIT), limit_or(opts.memory_limit, DEFAULT_MEMORY_LIMIT))
}

} // verus!
