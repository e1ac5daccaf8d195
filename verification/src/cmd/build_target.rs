use crate::nix::{BuildCommand, BuildView};
use crate::strings::names_of;
use vstd::prelude::*;
use vstd::string::StringExecFns;

verus! {

/// What is added to a flake reference so that the submodules of its
/// repository are fetched.
pub const SUBMODULES_QUERY: &'static str = "?submodules=1";

/// The options of the `build` command.
#[derive(Debug, Clone)]
pub struct BuildOpts {
    /// The problem to build.
    pub problem: String,
    /// The target to build.
    pub target: String,
    /// The system to build for; the current one where none is given.
    pub system: Option<String>,
    /// Where the link to the result goes.
    pub out_link: String,
    /// Whether the submodules of the repository are fetched.
    pub submodules: bool,
    /// What is handed on to `nix build` as it is.
    pub extra_args: Vec<String>,
}

/// The query that goes with a flake reference.
pub open spec fn submodule_query_text(submodules: bool) -> Seq<char> {
    if submodules {
        SUBMODULES_QUERY@
    } else {
        Seq::empty()
    }
}

/// The query that goes with a flake reference: it asks for the submodules
/// where they are wanted, and is empty where they are not.
pub fn submodule_query(submodules: bool) -> (query: &'static str)
    ensures
        query@ == submodule_query_text(submodules),
{
    if submodules {
        SUBMODULES_QUERY
    } else {
        proof {
            reveal_strlit("");
        }
        ""
    }
}

/// The attribute of the flake that holds a target of a problem.
pub open spec fn flake_attr_text(
    submodules: bool,
    system: Seq<char>,
    problem: Seq<char>,
    target: Seq<char>,
) -> Seq<char> {
    "."@ + submodule_query_text(submodules) + "#hullProblems."@ + system + "."@ + problem
        + ".config.targetOutputs."@ + target
}

/// Names the attribute of the flake in the current directory that holds a
/// target of a problem for a system.
pub fn flake_attr(submodules: bool, system: &str, problem: &str, target: &str) -> (attr: String)
    ensures
        attr@ == flake_attr_text(submodules, system@, problem@, target@),
{
    let mut attr = String::from_str(".");
    attr.append(submodule_query(submodules));
    attr.append("#hullProblems.");
    attr.append(system);
    attr.append(".");
    attr.append(problem);
    attr.append(".config.targetOutputs.");
    attr.append(target);
    attr
}

/// The `nix build` command that builds what the options ask for, for the
/// given system.
pub fn build_command(opts: &BuildOpts, system: &str) -> (command: BuildCommand)
    ensures
        command@ == (BuildView {
            installables: seq![
                flake_attr_text(opts.submodules, system@, opts.problem@, opts.target@),
            ],
            out_link: Some(opts.out_link@),
            extra_args: names_of(opts.extra_args@),
            ..BuildView::initial()
        }),
        command@.wf(),
{
    let attr = flake_attr(opts.submodules, system, opts.problem.as_str(), opts.target.as_str());
    let command = BuildCommand::new().installable(attr.as_str()).out_link(
        opts.out_link.as_str(),
    ).extra_args(opts.extra_args.as_slice());
    command
}

/// The reference to a flake with the query that goes with it.
pub open spec fn flake_ref_text(flake_url: Seq<char>, submodules: bool) -> Seq<char> {
    flake_url + submodule_query_text(submodules)
}

/// Writes the reference to the flake at `flake_url`, with the query that
/// asks for its submodules where they are wanted.
pub fn final_flake_ref(flake_url: &str, submodules: bool) -> (reference: String)
    ensures
        reference@ == flake_ref_text(flake_url@, submodules),
{
    let mut reference = flake_url.to_owned();
    reference.append(submodule_query(submodules));
    reference
}

} // verus!
