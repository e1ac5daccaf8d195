use crate::cmd::build_target::{final_flake_ref, flake_ref_text};
use crate::nix::{with_entry, BuildCommand, BuildView};
use crate::strings::{names_of, push_char, str_eq};
use vstd::prelude::*;
use vstd::string::StringExecFns;

verus! {

/// What `char::to_uppercase` yields for a character: one or more
/// characters, by the tables of Unicode.
pub uninterp spec fn uppercase_of(c: char) -> Seq<char>;

/// `char::to_uppercase`, with what it yields gathered in a vector.
#[verifier::external_body]
fn to_uppercase(c: char) -> (upper: Vec<char>)
    ensures
        upper@ == uppercase_of(c),
{
    c.to_uppercase().collect()
}

/// A word in snake case as a title: every underscore becomes a space, and
/// the first character of every word is put in upper case.
pub open spec fn title_case(s: Seq<char>) -> Seq<char>
    decreases s.len(),
{
    if s.len() == 0 {
        Seq::empty()
    } else {
        let front = title_case(s.drop_last());
        if s.last() == '_' {
            front.push(' ')
        } else if s.len() == 1 || s[s.len() - 2] == '_' {
            front + uppercase_of(s.last())
        } else {
            front.push(s.last())
        }
    }
}

/// Turns a word in snake case into a title: `wrong_answer` becomes
/// `Wrong Answer`.
pub fn to_title_case(s: &str) -> (title: String)
    ensures
        title@ == title_case(s@),
{
    let mut title = String::new();
    let mut at_start = true;
    for c in it: s.chars()
        invariant
            it.seq() == s@,
            at_start == (it.index() == 0 || s@[it.index() - 1] == '_'),
            title@ == title_case(s@.take(it.index() as int)),
    {
        assert(s@.take(it.index() + 1).drop_last() =~= s@.take(it.index() as int));
        if c == '_' {
            push_char(&mut title, ' ');
            at_start = true;
        } else if at_start {
            let upper = to_uppercase(c);
            let mut k: usize = 0;
            let ghost before = title@;
            while k < upper.len()
                invariant
                    k <= upper.len(),
                    title@ == before + upper@.take(k as int),
                decreases upper.len() - k,
            {
                push_char(&mut title, upper[k]);
                k += 1;
            }
            at_start = false;
        } else {
            push_char(&mut title, c);
            at_start = false;
        }
    }
    assert(s@.take(s@.len() as int) =~= s@);
    title
}

/// The status of a subtask, from those of its test cases: `N/A` where it has
/// none, else the first that is not `accepted`, else `accepted`.
pub open spec fn subtask_status(statuses: Seq<Seq<char>>) -> Seq<char> {
    if statuses.len() == 0 {
        "N/A"@
    } else {
        first_failure(statuses)
    }
}

/// The first status that is not `accepted`, or `accepted` where all are.
pub open spec fn first_failure(statuses: Seq<Seq<char>>) -> Seq<char>
    decreases statuses.len(),
{
    if statuses.len() == 0 {
        "accepted"@
    } else if statuses[0] != "accepted"@ {
        statuses[0]
    } else {
        first_failure(statuses.drop_first())
    }
}

/// Where the first `n` statuses are `accepted`, the first failure is that
/// of the rest.
proof fn lemma_first_failure_skips(statuses: Seq<Seq<char>>, n: int)
    requires
        0 <= n <= statuses.len(),
        forall|j: int| 0 <= j < n ==> statuses[j] == "accepted"@,
    ensures
        first_failure(statuses) == first_failure(statuses.skip(n)),
    decreases n,
{
    if n > 0 {
        let rest = statuses.drop_first();
        lemma_first_failure_skips(rest, n - 1);
        assert(rest.skip(n - 1) =~= statuses.skip(n));
    } else {
        assert(statuses.skip(0) =~= statuses);
    }
}

/// The status of a subtask, from those of its test cases.
pub fn get_subtask_status(statuses: &[String]) -> (status: String)
    ensures
        status@ == subtask_status(names_of(statuses@)),
{
    if statuses.len() == 0 {
        return "N/A".to_owned();
    }
    let mut i: usize = 0;
    while i < statuses.len()
        invariant
            i <= statuses.len(),
            forall|j: int| 0 <= j < i ==> names_of(statuses@)[j] == "accepted"@,
        decreases statuses.len() - i,
    {
        if !str_eq(statuses[i].as_str(), "accepted") {
            proof {
                lemma_first_failure_skips(names_of(statuses@), i as int);
            }
            return statuses[i].clone();
        }
        i += 1;
    }
    proof {
        lemma_first_failure_skips(names_of(statuses@), statuses.len() as int);
    }
    "accepted".to_owned()
}

/// The colours in which a status is shown.
#[derive(Debug, Clone, Copy, PartialEq, Eq, Structural)]
pub enum StatusColor {
    Green,
    Red,
    Cyan,
    Magenta,
    Yellow,
    Grey,
}

/// The colour of a status, or `None` for one that is shown plain.
pub open spec fn color_of(status: Seq<char>) -> Option<StatusColor> {
    if status == "accepted"@ {
        Some(StatusColor::Green)
    } else if status == "wrong_answer"@ {
        Some(StatusColor::Red)
    } else if status == "partially_correct"@ {
        Some(StatusColor::Cyan)
    } else if status == "runtime_error"@ {
        Some(StatusColor::Magenta)
    } else if status == "time_limit_exceeded"@ || status == "memory_limit_exceeded"@ {
        Some(StatusColor::Yellow)
    } else if status == "internal_error"@ {
        Some(StatusColor::Grey)
    } else {
        None
    }
}

/// The colour in which a status is shown, or `None` for one that is shown
/// plain, such as `N/A`.
pub fn colorize_status(status: &str) -> (color: Option<StatusColor>)
    ensures
        color == color_of(status@),
{
    if str_eq(status, "accepted") {
        Some(StatusColor::Green)
    } else if str_eq(status, "wrong_answer") {
        Some(StatusColor::Red)
    } else if str_eq(status, "partially_correct") {
        Some(StatusColor::Cyan)
    } else if str_eq(status, "runtime_error") {
        Some(StatusColor::Magenta)
    } else if str_eq(status, "time_limit_exceeded") || str_eq(status, "memory_limit_exceeded") {
        Some(StatusColor::Yellow)
    } else if str_eq(status, "internal_error") {
        Some(StatusColor::Grey)
    } else {
        None
    }
}

/// The options of the `judge` command.
#[derive(Debug, Clone)]
pub struct JudgeOpts {
    /// The source file to judge.
    pub src_path: String,
    /// The problem to judge it for.
    pub problem: String,
    /// The system to build for; the current one where none is given.
    pub system: Option<String>,
    /// Whether the submodules of the repository are fetched.
    pub submodules: bool,
    /// Whether the report is printed as JSON.
    pub json: bool,
    /// What is handed on to `nix build` as it is.
    pub extra_args: Vec<String>,
}

pub const JUDGE_EXPRESSION_A: &'static str = "\n    { srcPath }:\n    let\n      flake = builtins.getFlake \"";

pub const JUDGE_EXPRESSION_B: &'static str = "\";\n      problemConfig = flake.outputs.hullProblems.";

pub const JUDGE_EXPRESSION_C: &'static str = ".";

pub const JUDGE_EXPRESSION_D: &'static str = ".config;\n    in\n    (flake.inputs.hull.lib or flake.outputs.lib).";

pub const JUDGE_EXPRESSION_E: &'static str = ".judgeSingleFile\n      problemConfig.problemAttrs problemConfig.extraSpecialArgs (/. + srcPath)";

/// The expression that judges one source file of a problem.
pub open spec fn judge_expression_text(final_flake_ref: Seq<char>, system: Seq<char>, problem: Seq<char>) -> Seq<char> {
    JUDGE_EXPRESSION_A@ + final_flake_ref + JUDGE_EXPRESSION_B@ + system + JUDGE_EXPRESSION_C@ + problem + JUDGE_EXPRESSION_D@ + system + JUDGE_EXPRESSION_E@
}

/// Writes the expression that judges one source file of a problem of the flake.
pub fn judge_expression(final_flake_ref: &str, system: &str, problem: &str) -> (text: String)
    ensures
        text@ == judge_expression_text(final_flake_ref@, system@, problem@),
{
    let mut text = String::from_str(JUDGE_EXPRESSION_A);
    text.append(final_flake_ref);
    text.append(JUDGE_EXPRESSION_B);
    text.append(system);
    text.append(JUDGE_EXPRESSION_C);
    text.append(problem);
    text.append(JUDGE_EXPRESSION_D);
    text.append(system);
    text.append(JUDGE_EXPRESSION_E);
    text
}


/// The `nix build` command that judges a source file: the expression is
/// built impurely with the path of the source as its argument, the path of
/// the report is printed, and no link is made.
pub fn judge_command(nix_expr: &str, src_path: &str, extra_args: &[String]) -> (command:
    BuildCommand)
    ensures
        command@ == (BuildView {
            impure: true,
            expr: Some(nix_expr@),
            argstr: seq![("srcPath"@, src_path@)],
            print_out_paths: true,
            no_link: true,
            extra_args: names_of(extra_args@),
            ..BuildView::initial()
        }),
        command@.wf(),
{
    let command = BuildCommand::new().impure(true).expr(nix_expr).argstr(
        "srcPath",
        src_path,
    ).print_out_paths(true).no_link(true).extra_args(extra_args);
    command
}

/// The `nix build` command that judges the source at `src_path` as the
/// options ask, for the given system and the flake at `flake_url`.
pub fn judge_build(opts: &JudgeOpts, system: &str, flake_url: &str, src_path: &str) -> (command:
    BuildCommand)
    ensures
        command@ == (BuildView {
            impure: true,
            expr: Some(
                judge_expression_text(
                    flake_ref_text(flake_url@, opts.submodules),
                    system@,
                    opts.problem@,
                ),
            ),
            argstr: seq![("srcPath"@, src_path@)],
            print_out_paths: true,
            no_link: true,
            extra_args: names_of(opts.extra_args@),
            ..BuildView::initial()
        }),
        command@.wf(),
{
    let reference = final_flake_ref(flake_url, opts.submodules);
    let nix_expr = judge_expression(reference.as_str(), system, opts.problem.as_str());
    judge_command(nix_expr.as_str(), src_path, opts.extra_args.as_slice())
}

} // verus!
