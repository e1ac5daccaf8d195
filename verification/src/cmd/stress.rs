use crate::cmd::build_target::{final_flake_ref, flake_ref_text};
use crate::nix::{lemma_with_entry_missing, text_of, with_entry, BuildCommand, BuildView};
use crate::strings::{names_of, push_char, str_eq};
use crate::utils::{decimal, to_decimal};
use vstd::prelude::*;
use vstd::string::{StrSliceExecFns, StringExecFns};

verus! {

/// The options of the `stress` command.
#[derive(Debug, Clone)]
pub struct StressOpts {
    /// The standard solution; the main correct one of the problem where
    /// none is given.
    pub std: Option<String>,
    /// The solutions to test.
    pub solutions: Vec<String>,
    /// The generator of the test cases.
    pub generator: String,
    /// The problem to test.
    pub problem: String,
    /// The system to build for; the current one where none is given.
    pub system: Option<String>,
    /// How many test cases make one batch.
    pub batch_size: Option<usize>,
    /// How many rounds are run; without end where none is given.
    pub rounds: Option<u64>,
    /// The name of the argument that hands the generator its salt.
    pub salt_arg: String,
    /// The tick limit of the runs, where it is not that of the problem.
    pub tick_limit: Option<u64>,
    /// The memory limit of the runs, where it is not that of the problem.
    pub memory_limit: Option<u64>,
    /// Whether the submodules of the repository are fetched.
    pub submodules: bool,
    /// The arguments of the generator, then `--`, then those of `nix build`.
    pub args: Vec<String>,
}

/// Where the first `--` stands among the arguments, or their number where
/// there is none.
pub open spec fn separator_index(args: Seq<Seq<char>>) -> int
    decreases args.len(),
{
    if args.len() == 0 {
        0
    } else if args[0] == "--"@ {
        0
    } else {
        1 + separator_index(args.drop_first())
    }
}

/// The arguments before the first `--`: those of the generator.
pub open spec fn generator_args_of(args: Seq<Seq<char>>) -> Seq<Seq<char>> {
    args.take(separator_index(args))
}

/// The arguments behind the first `--`: those of `nix build`.
pub open spec fn nix_args_of(args: Seq<Seq<char>>) -> Seq<Seq<char>> {
    if separator_index(args) < args.len() {
        args.skip(separator_index(args) + 1)
    } else {
        Seq::empty()
    }
}

/// Where no argument before position `n` is `--`, the first `--` stands at
/// `n` if one stands there, and at the end if `n` is the end.
proof fn lemma_separator_index(args: Seq<Seq<char>>, n: int)
    requires
        0 <= n <= args.len(),
        forall|j: int| 0 <= j < n ==> args[j] != "--"@,
        n == args.len() || args[n] == "--"@,
    ensures
        separator_index(args) == n,
    decreases n,
{
    if n > 0 {
        let rest = args.drop_first();
        lemma_separator_index(rest, n - 1);
    }
}

/// Copies the strings of `args` from `from` up to `to`.
fn copy_range(args: &[String], from: usize, to: usize) -> (copy: Vec<String>)
    requires
        from <= to <= args.len(),
    ensures
        names_of(copy@) == names_of(args@).subrange(from as int, to as int),
{
    let mut copy: Vec<String> = Vec::new();
    let mut i = from;
    while i < to
        invariant
            from <= i <= to <= args.len(),
            names_of(copy@) == names_of(args@).subrange(from as int, i as int),
        decreases to - i,
    {
        let ghost before = names_of(copy@);
        copy.push(args[i].clone());
        assert(names_of(copy@) =~= before.push(args[i as int]@));
        i += 1;
    }
    copy
}

/// Parts the arguments at the first `--`: what stands before it is for the
/// generator, what stands behind it for `nix build`.
pub fn split_args(args: &[String]) -> (parts: (Vec<String>, Vec<String>))
    ensures
        names_of(parts.0@) == generator_args_of(names_of(args@)),
        names_of(parts.1@) == nix_args_of(names_of(args@)),
{
    let mut i: usize = 0;
    while i < args.len() && !str_eq(args[i].as_str(), "--")
        invariant
            i <= args.len(),
            forall|j: int| 0 <= j < i ==> names_of(args@)[j] != "--"@,
        decreases args.len() - i,
    {
        i += 1;
    }
    proof {
        lemma_separator_index(names_of(args@), i as int);
    }
    let generator_args = copy_range(args, 0, i);
    let nix_args = if i < args.len() {
        copy_range(args, i + 1, args.len())
    } else {
        copy_range(args, i, i)
    };
    (generator_args, nix_args)
}

/// How many test cases make a batch where the options do not say: four for
/// each processor.
pub fn default_batch_size(cpus: usize) -> (size: usize)
    requires
        4 * cpus <= usize::MAX,
    ensures
        size == 4 * cpus,
{
    4 * cpus
}

/// `num_cpus::get`: the number of processors that the machine offers.
/// Nothing is claimed of the number.
#[verifier::external_body]
fn cpu_count() -> (cpus: usize) {
    num_cpus::get()
}

/// How many test cases make a batch: the number that the options give, or
/// four for each processor of the machine, and no more than the machine can
/// count.
pub fn batch_size(wanted: Option<usize>) -> (size: usize)
    ensures
        wanted matches Some(given) ==> size == given,
        wanted is None ==> size % 4 == 0 || size == usize::MAX,
{
    match wanted {
        Some(given) => given,
        None => {
            let cpus = cpu_count();
            if cpus <= usize::MAX / 4 {
                default_batch_size(cpus)
            } else {
                usize::MAX
            }
        },
    }
}

/// Whether a round is still to be run: always where no number of rounds is
/// set, else as long as the round is within that number.
pub fn round_is_due(round: u64, rounds: Option<u64>) -> (due: bool)
    ensures
        due == !(rounds matches Some(most) && round > most),
{
    match rounds {
        Some(most) => round <= most,
        None => true,
    }
}

/// The characters of which a salt is made.
pub const SALT_CHARSET: &'static str =
    "ABCDEFGHIJKLMNOPQRSTUVWXYZabcdefghijklmnopqrstuvwxyz0123456789";

/// The number of characters of a salt.
pub const SALT_LENGTH: usize = 32;

/// A salt: thirty-two characters, each a letter or a digit.
pub open spec fn is_salt(salt: Seq<char>) -> bool {
    &&& salt.len() == SALT_LENGTH
    &&& forall|k: int| 0 <= k < salt.len() ==> SALT_CHARSET@.contains(#[trigger] salt[k])
}

/// `rand::random_range` on the range of the numbers below `bound`: one of
/// them, drawn from the generator of the thread.
#[verifier::external_body]
fn random_below(bound: usize) -> (n: usize)
    requires
        bound > 0,
    ensures
        n < bound,
{
    rand::random_range(..bound)
}

/// The text whose characters are those of the charset at the given places.
pub fn salt_from(indices: &[usize]) -> (salt: String)
    requires
        forall|k: int| 0 <= k < indices.len() ==> indices[k] < SALT_CHARSET@.len(),
    ensures
        salt@.len() == indices.len(),
        forall|k: int| 0 <= k < indices.len() ==> salt@[k] == SALT_CHARSET@[indices[k] as int],
{
    let mut salt = String::new();
    let mut i: usize = 0;
    while i < indices.len()
        invariant
            i <= indices.len(),
            salt@.len() == i,
            forall|k: int| 0 <= k < indices.len() ==> indices[k] < SALT_CHARSET@.len(),
            forall|k: int| 0 <= k < i ==> salt@[k] == SALT_CHARSET@[indices[k] as int],
        decreases indices.len() - i,
    {
        push_char(&mut salt, SALT_CHARSET.get_char(indices[i]));
        i += 1;
    }
    salt
}

/// Draws a salt at random.
pub fn make_salt() -> (salt: String)
    ensures
        is_salt(salt@),
{
    proof {
        reveal_strlit("ABCDEFGHIJKLMNOPQRSTUVWXYZabcdefghijklmnopqrstuvwxyz0123456789");
    }
    let mut indices: Vec<usize> = Vec::new();
    while indices.len() < SALT_LENGTH
        invariant
            indices.len() <= SALT_LENGTH,
            SALT_CHARSET@.len() == 62,
            forall|k: int| 0 <= k < indices.len() ==> indices[k] < SALT_CHARSET@.len(),
        decreases SALT_LENGTH - indices.len(),
    {
        let index = random_below(62);
        indices.push(index);
    }
    let salt = salt_from(indices.as_slice());
    salt
}

/// The argument that hands a salt to the generator.
pub open spec fn salt_argument_text(salt_arg: Seq<char>, salt: Seq<char>) -> Seq<char> {
    "--"@ + salt_arg + "="@ + salt
}

/// Writes the argument that hands a salt to the generator.
pub fn salt_argument(salt_arg: &str, salt: &str) -> (argument: String)
    ensures
        argument@ == salt_argument_text(salt_arg@, salt@),
{
    let mut argument = String::from_str("--");
    argument.append(salt_arg);
    argument.append("=");
    argument.append(salt);
    argument
}

/// The arguments of one test case: those of the generator and, behind them,
/// a salt of its own.
pub open spec fn is_salted(arguments: Seq<Seq<char>>, generator_args: Seq<Seq<char>>, salt_arg: Seq<char>) -> bool {
    exists|salt: Seq<char>|
        is_salt(salt) && arguments == generator_args.push(
            #[trigger] salt_argument_text(salt_arg, salt),
        )
}

/// Makes the arguments of the test cases of one batch, each with a salt
/// drawn at random.
pub fn batch_arguments(generator_args: &[String], salt_arg: &str, batch_size: usize) -> (batch: Vec<
    Vec<String>,
>)
    ensures
        batch.len() == batch_size,
        forall|i: int|
            0 <= i < batch.len() ==> is_salted(
                names_of(#[trigger] batch[i]@),
                names_of(generator_args@),
                salt_arg@,
            ),
{
    let mut batch: Vec<Vec<String>> = Vec::new();
    while batch.len() < batch_size
        invariant
            batch.len() <= batch_size,
            forall|i: int|
                0 <= i < batch.len() ==> is_salted(
                    names_of(#[trigger] batch[i]@),
                    names_of(generator_args@),
                    salt_arg@,
                ),
        decreases batch_size - batch.len(),
    {
        let salt = make_salt();
        let mut arguments = copy_range(generator_args, 0, generator_args.len());
        assert(names_of(arguments@) =~= names_of(generator_args@));
        let ghost before = names_of(arguments@);
        arguments.push(salt_argument(salt_arg, salt.as_str()));
        assert(names_of(arguments@) =~= before.push(salt_argument_text(salt_arg@, salt@)));
        batch.push(arguments);
    }
    batch
}

/// A limit as the expression reads it: the number in decimal, or `null`
/// where none is set.
pub open spec fn limit_text_of(limit: Option<u64>) -> Seq<char> {
    match limit {
        Some(n) => decimal(n as nat),
        None => "null"@,
    }
}

/// A limit as the expression reads it: the number, or `null` where none is
/// set.
pub fn limit_text(limit: Option<u64>) -> (text: String)
    ensures
        text@ == limit_text_of(limit),
{
    match limit {
        Some(n) => to_decimal(n),
        None => "null".to_owned(),
    }
}

pub const STRESS_EXPRESSION_A: &'static str = "\n      { generatorArgsJSON, testSolutionsJSON, stdNameJSON, generatorName }:\n      let\n        flake = builtins.getFlake \"";

pub const STRESS_EXPRESSION_B: &'static str = "\";\n        hullLib = (flake.inputs.hull.lib or flake.outputs.lib).";

pub const STRESS_EXPRESSION_C: &'static str = ";\n        problemConfig = flake.outputs.hullProblems.";

pub const STRESS_EXPRESSION_D: &'static str = ".";

pub const STRESS_EXPRESSION_E: &'static str = ".config;\n      in\n      hullLib.stress problemConfig {\n        testSolNames = builtins.fromJSON testSolutionsJSON;\n        generatorArgs = builtins.fromJSON generatorArgsJSON;\n        stdName = builtins.fromJSON stdNameJSON;\n        tickLimit = ";

pub const STRESS_EXPRESSION_F: &'static str = ";\n        memoryLimit = ";

pub const STRESS_EXPRESSION_G: &'static str = ";\n        inherit generatorName;\n      }\n      ";

/// The expression that runs one batch of a stress test.
pub open spec fn stress_expression_text(final_flake_ref: Seq<char>, system: Seq<char>, problem: Seq<char>, tick_limit: Seq<char>, memory_limit: Seq<char>) -> Seq<char> {
    STRESS_EXPRESSION_A@ + final_flake_ref + STRESS_EXPRESSION_B@ + system + STRESS_EXPRESSION_C@ + system + STRESS_EXPRESSION_D@ + problem + STRESS_EXPRESSION_E@ + tick_limit + STRESS_EXPRESSION_F@ + memory_limit + STRESS_EXPRESSION_G@
}

/// Writes the expression that runs one batch of a stress test on a problem of the flake.
pub fn stress_expression(final_flake_ref: &str, system: &str, problem: &str, tick_limit: &str, memory_limit: &str) -> (text: String)
    ensures
        text@ == stress_expression_text(final_flake_ref@, system@, problem@, tick_limit@, memory_limit@),
{
    let mut text = String::from_str(STRESS_EXPRESSION_A);
    text.append(final_flake_ref);
    text.append(STRESS_EXPRESSION_B);
    text.append(system);
    text.append(STRESS_EXPRESSION_C);
    text.append(system);
    text.append(STRESS_EXPRESSION_D);
    text.append(problem);
    text.append(STRESS_EXPRESSION_E);
    text.append(tick_limit);
    text.append(STRESS_EXPRESSION_F);
    text.append(memory_limit);
    text.append(STRESS_EXPRESSION_G);
    text
}


/// How a batch of a stress test ended.
#[derive(Debug, Clone, Copy, PartialEq, Eq, Structural)]
pub enum StressOutcome {
    /// A test case was found on which a solution fails.
    Hacked,
    /// Every solution passed every test case.
    NotHacked,
    /// The report says something else.
    Unknown,
}

/// Reads the outcome that a report names.
pub fn read_outcome(outcome: &str) -> (read: StressOutcome)
    ensures
        read == (if outcome@ == "hacked"@ {
            StressOutcome::Hacked
        } else if outcome@ == "not_hacked"@ {
            StressOutcome::NotHacked
        } else {
            StressOutcome::Unknown
        }),
{
    if str_eq(outcome, "hacked") {
        StressOutcome::Hacked
    } else if str_eq(outcome, "not_hacked") {
        StressOutcome::NotHacked
    } else {
        StressOutcome::Unknown
    }
}

/// The named string arguments of the command that runs a batch.
pub open spec fn stress_argstr(
    generator_args_json: Seq<char>,
    test_solutions_json: Seq<char>,
    std_name_json: Seq<char>,
    generator: Seq<char>,
) -> Seq<(Seq<char>, Seq<char>)> {
    seq![
        ("generatorArgsJSON"@, generator_args_json),
        ("testSolutionsJSON"@, test_solutions_json),
        ("stdNameJSON"@, std_name_json),
        ("generatorName"@, generator),
    ]
}

/// The `nix build` command that runs one batch of a stress test: the
/// expression is built impurely with the arguments of the test cases, the
/// names of the solutions and of the standard solution, all as JSON, and the
/// name of the generator; the path of the report is printed, and no link is
/// made.
pub fn stress_command(
    nix_expr: &str,
    generator_args_json: &str,
    test_solutions_json: &str,
    std_name_json: &str,
    generator: &str,
    extra_args: &[String],
) -> (command: BuildCommand)
    ensures
        command@ == (BuildView {
            impure: true,
            expr: Some(nix_expr@),
            argstr: stress_argstr(
                generator_args_json@,
                test_solutions_json@,
                std_name_json@,
                generator@,
            ),
            print_out_paths: true,
            no_link: true,
            extra_args: names_of(extra_args@),
            ..BuildView::initial()
        }),
        command@.wf(),
{
    proof {
        reveal_strlit("generatorArgsJSON");
        reveal_strlit("testSolutionsJSON");
        reveal_strlit("stdNameJSON");
        reveal_strlit("generatorName");
        assert("generatorArgsJSON"@[0] != "testSolutionsJSON"@[0]);
        assert("generatorArgsJSON"@[9] != "generatorName"@[9]);
        let none = Seq::<(Seq<char>, Seq<char>)>::empty();
        let one = none.push(("generatorArgsJSON"@, generator_args_json@));
        let two = one.push(("testSolutionsJSON"@, test_solutions_json@));
        let three = two.push(("stdNameJSON"@, std_name_json@));
        lemma_with_entry_missing(none, "generatorArgsJSON"@, generator_args_json@);
        lemma_with_entry_missing(one, "testSolutionsJSON"@, test_solutions_json@);
        lemma_with_entry_missing(two, "stdNameJSON"@, std_name_json@);
        lemma_with_entry_missing(three, "generatorName"@, generator@);
        assert(three.push(("generatorName"@, generator@)) =~= stress_argstr(
            generator_args_json@,
            test_solutions_json@,
            std_name_json@,
            generator@,
        ));
    }
    let command = BuildCommand::new().impure(true).expr(nix_expr).argstr(
        "generatorArgsJSON",
        generator_args_json,
    ).argstr("testSolutionsJSON", test_solutions_json).argstr("stdNameJSON", std_name_json).argstr(
        "generatorName",
        generator,
    ).print_out_paths(true).no_link(true).extra_args(extra_args);
    command
}

/// An error of the `serde_json` crate: opaque here.
#[verifier::external_type_specification]
#[verifier::external_body]
pub struct ExJsonError(serde_json::Error);

/// The arguments of the test cases of a batch, as plain values.
pub open spec fn batches_of(batch: Seq<Vec<String>>) -> Seq<Seq<Seq<char>>> {
    batch.map_values(|arguments: Vec<String>| names_of(arguments@))
}

/// What `serde_json::to_string` gives for a list of lists of strings: the
/// text that it writes, or `None` where it fails.
pub uninterp spec fn json_of_batches(batch: Seq<Seq<Seq<char>>>) -> Option<Seq<char>>;

/// What `serde_json::to_string` gives for a list of strings: the text that
/// it writes, or `None` where it fails.
pub uninterp spec fn json_of_names(names: Seq<Seq<char>>) -> Option<Seq<char>>;

/// What `serde_json::to_string` gives for a string that may be missing: the
/// text that it writes, or `None` where it fails.
pub uninterp spec fn json_of_name(name: Option<Seq<char>>) -> Option<Seq<char>>;

/// `serde_json::to_string` on a list of lists of strings: whether it gives a
/// text, and which, is what the name above stands for. Nothing is claimed
/// of the error.
#[verifier::external_body]
fn batches_to_json(batch: &Vec<Vec<String>>) -> (r: Result<String, serde_json::Error>)
    ensures
        match r {
            Ok(text) => json_of_batches(batches_of(batch@)) == Some(text@),
            Err(_) => json_of_batches(batches_of(batch@)) is None,
        },
{
    serde_json::to_string(batch)
}

/// `serde_json::to_string` on a list of strings: whether it gives a text,
/// and which, is what the name above stands for. Nothing is claimed of the
/// error.
#[verifier::external_body]
fn names_to_json(names: &Vec<String>) -> (r: Result<String, serde_json::Error>)
    ensures
        match r {
            Ok(text) => json_of_names(names_of(names@)) == Some(text@),
            Err(_) => json_of_names(names_of(names@)) is None,
        },
{
    serde_json::to_string(names)
}

/// `serde_json::to_string` on a string that may be missing: whether it gives
/// a text, and which, is what the name above stands for. Nothing is claimed
/// of the error.
#[verifier::external_body]
fn name_to_json(name: &Option<String>) -> (r: Result<String, serde_json::Error>)
    ensures
        match r {
            Ok(text) => json_of_name(text_of(*name)) == Some(text@),
            Err(_) => json_of_name(text_of(*name)) is None,
        },
{
    serde_json::to_string(name)
}

/// `ToString::to_string` on a `serde_json::Error`: the text that its
/// `Display` gives. Nothing is claimed of the text.
#[verifier::external_body]
fn json_error_text(error: &serde_json::Error) -> (text: String) {
    error.to_string()
}

/// What could not be written as JSON, with the diagnostic.
#[derive(Debug, Clone, PartialEq, Eq)]
pub enum StressError {
    /// The arguments of the test cases.
    GeneratorArguments(String),
    /// The names of the solutions.
    SolutionNames(String),
    /// The name of the standard solution.
    StdName(String),
}

/// The command that `stress_build` makes once the three texts of JSON are
/// written.
pub open spec fn stress_build_view(
    opts: StressOpts,
    system: Seq<char>,
    flake_url: Seq<char>,
    extra_nix_args: Seq<Seq<char>>,
    generator_args_json: Seq<char>,
    test_solutions_json: Seq<char>,
    std_name_json: Seq<char>,
) -> BuildView {
    BuildView {
        impure: true,
        expr: Some(
            stress_expression_text(
                flake_ref_text(flake_url, opts.submodules),
                system,
                opts.problem@,
                limit_text_of(opts.tick_limit),
                limit_text_of(opts.memory_limit),
            ),
        ),
        argstr: stress_argstr(
            generator_args_json,
            test_solutions_json,
            std_name_json,
            opts.generator@,
        ),
        print_out_paths: true,
        no_link: true,
        extra_args: extra_nix_args,
        ..BuildView::initial()
    }
}

/// The `nix build` command that runs the test cases of `batch` as the
/// options ask, for the given system and the flake at `flake_url`, with
/// `extra_nix_args` handed on to `nix build`. The arguments of the test
/// cases, the names of the solutions and the name of the standard solution
/// go into the command as JSON; the first of the three that cannot be
/// written so, in that order, is the error, and where all three can, the
/// command comes back.
pub fn stress_build(
    opts: &StressOpts,
    system: &str,
    flake_url: &str,
    extra_nix_args: &[String],
    batch: &Vec<Vec<String>>,
) -> (r: Result<BuildCommand, StressError>)
    ensures
        match (
            json_of_batches(batches_of(batch@)),
            json_of_names(names_of(opts.solutions@)),
            json_of_name(text_of(opts.std)),
        ) {
            (None, _, _) => r matches Err(StressError::GeneratorArguments(_)),
            (Some(_), None, _) => r matches Err(StressError::SolutionNames(_)),
            (Some(_), Some(_), None) => r matches Err(StressError::StdName(_)),
            (Some(generator_args_json), Some(test_solutions_json), Some(std_name_json)) => r matches Ok(
                command,
            ) && command@.wf() && command@ == stress_build_view(
                *opts,
                system@,
                flake_url@,
                names_of(extra_nix_args@),
                generator_args_json,
                test_solutions_json,
                std_name_json,
            ),
        },
{
    let generator_args_json = match batches_to_json(batch) {
        Ok(text) => text,
        Err(error) => {
            return Err(StressError::GeneratorArguments(json_error_text(&error)));
        },
    };
    let test_solutions_json = match names_to_json(&opts.solutions) {
        Ok(text) => text,
        Err(error) => {
            return Err(StressError::SolutionNames(json_error_text(&error)));
        },
    };
    let std_name_json = match name_to_json(&opts.std) {
        Ok(text) => text,
        Err(error) => {
            return Err(StressError::StdName(json_error_text(&error)));
        },
    };
    let tick_limit = limit_text(opts.tick_limit);
    let memory_limit = limit_text(opts.memory_limit);
    let reference = final_flake_ref(flake_url, opts.submodules);
    let nix_expr = stress_expression(
        reference.as_str(),
        system,
        opts.problem.as_str(),
        tick_limit.as_str(),
        memory_limit.as_str(),
    );
    Ok(
        stress_command(
            nix_expr.as_str(),
            generator_args_json.as_str(),
            test_solutions_json.as_str(),
            std_name_json.as_str(),
            opts.generator.as_str(),
            extra_nix_args,
        ),
    )
}

} // verus!
