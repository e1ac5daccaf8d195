use crate::strings::names_of;
use vstd::prelude::*;

verus! {

/// What `nix flake metadata` reports of a flake, as far as it is used.
#[derive(Debug, Clone, PartialEq, Eq)]
pub struct FlakeMetadata {
    pub url: String,
}

/// Named arguments as plain values: pairs of a name and a value.
pub type Entries = Seq<(Seq<char>, Seq<char>)>;

/// The named arguments that a list of pairs of strings holds.
pub open spec fn entries_of(pairs: Seq<(String, String)>) -> Entries {
    pairs.map_values(|p: (String, String)| (p.0@, p.1@))
}

/// No name occurs twice.
pub open spec fn unique_keys(entries: Entries) -> bool {
    forall|i: int, j: int|
        0 <= i < entries.len() && 0 <= j < entries.len() && i != j ==> entries[i].0 != entries[j].0
}

/// Whether `key` is among the names.
pub open spec fn has_key(entries: Entries, key: Seq<char>) -> bool {
    exists|i: int| 0 <= i < entries.len() && entries[i].0 == key
}

/// The entries after `key` is given `value`: a name that is there keeps its
/// place and takes the new value, a new name goes to the end.
pub open spec fn with_entry(entries: Entries, key: Seq<char>, value: Seq<char>) -> Entries
    decreases entries.len(),
{
    if entries.len() == 0 {
        seq![(key, value)]
    } else if entries[0].0 == key {
        entries.update(0, (key, value))
    } else {
        seq![entries[0]] + with_entry(entries.drop_first(), key, value)
    }
}

/// Giving a name a value keeps the names unique, gives the name that value
/// and leaves every other name with the value it had.
pub proof fn lemma_with_entry(entries: Entries, key: Seq<char>, value: Seq<char>)
    requires
        unique_keys(entries),
    ensures
        unique_keys(with_entry(entries, key, value)),
        has_key(with_entry(entries, key, value), key),
        forall|i: int|
            0 <= i < with_entry(entries, key, value).len() ==> {
                let e = #[trigger] with_entry(entries, key, value)[i];
                if e.0 == key {
                    e.1 == value
                } else {
                    i < entries.len() && entries[i] == e
                }
            },
        with_entry(entries, key, value).len() == if has_key(entries, key) {
            entries.len()
        } else {
            entries.len() + 1
        },
        forall|i: int|
            0 <= i < entries.len() ==> (#[trigger] with_entry(entries, key, value)[i]).0
                == entries[i].0,
    decreases entries.len(),
{
    let after = with_entry(entries, key, value);
    if entries.len() == 0 {
        assert(after[0].0 == key);
    } else if entries[0].0 == key {
        assert(after[0].0 == key);
    } else {
        let rest = entries.drop_first();
        lemma_with_entry(rest, key, value);
        let tail = with_entry(rest, key, value);
        let w = choose|i: int| 0 <= i < tail.len() && tail[i].0 == key;
        assert(after[w + 1].0 == key);
        if has_key(entries, key) {
            let k = choose|i: int| 0 <= i < entries.len() && entries[i].0 == key;
            assert(rest[k - 1].0 == key);
        }
    }
}

/// Where the first entry with the name `key` stands at `k`, giving the name
/// a value changes that entry alone.
proof fn lemma_with_entry_found(entries: Entries, key: Seq<char>, value: Seq<char>, k: int)
    requires
        0 <= k < entries.len(),
        entries[k].0 == key,
        forall|j: int| 0 <= j < k ==> entries[j].0 != key,
    ensures
        with_entry(entries, key, value) == entries.update(k, (key, value)),
    decreases entries.len(),
{
    if k > 0 {
        let rest = entries.drop_first();
        lemma_with_entry_found(rest, key, value, k - 1);
    }
}

/// Where no entry has the name `key`, giving the name a value adds an entry
/// at the end.
pub proof fn lemma_with_entry_missing(entries: Entries, key: Seq<char>, value: Seq<char>)
    requires
        forall|j: int| 0 <= j < entries.len() ==> entries[j].0 != key,
    ensures
        with_entry(entries, key, value) == entries.push((key, value)),
    decreases entries.len(),
{
    if entries.len() > 0 {
        let rest = entries.drop_first();
        lemma_with_entry_missing(rest, key, value);
    }
}

/// Gives the name `key` the value `value` in a list of named arguments.
fn set_entry(entries: &mut Vec<(String, String)>, key: &str, value: &str)
    ensures
        entries_of(final(entries)@) == with_entry(entries_of(old(entries)@), key@, value@),
{
    let name = key.to_owned();
    let mut i: usize = 0;
    while i < entries.len()
        invariant
            i <= entries.len(),
            *entries == *old(entries),
            name@ == key@,
            forall|j: int| 0 <= j < i ==> entries_of(entries@)[j].0 != key@,
        decreases entries.len() - i,
    {
        if entries[i].0 == name {
            proof {
                lemma_with_entry_found(entries_of(entries@), key@, value@, i as int);
            }
            entries.set(i, (name, value.to_owned()));
            return ;
        }
        i += 1;
    }
    proof {
        lemma_with_entry_missing(entries_of(entries@), key@, value@);
    }
    entries.push((name, value.to_owned()));
}

/// A `nix build` command in the making.
#[derive(Debug)]
pub struct BuildCommand {
    installables: Vec<String>,
    expr: Option<String>,
    arg: Vec<(String, String)>,
    argstr: Vec<(String, String)>,
    out_link: Option<String>,
    no_link: bool,
    print_out_paths: bool,
    impure: bool,
    with_nom: bool,
    extra_args: Vec<String>,
}

/// A `nix build` command as plain values.
pub struct BuildView {
    /// What is to be built, in the order given.
    pub installables: Seq<Seq<char>>,
    /// The expression to build, if one is set.
    pub expr: Option<Seq<char>>,
    /// The arguments that are expressions, by name.
    pub arg: Entries,
    /// The arguments that are strings, by name.
    pub argstr: Entries,
    /// Where the link to the result goes, if that is set.
    pub out_link: Option<Seq<char>>,
    /// Whether no link to the result is made.
    pub no_link: bool,
    /// Whether the paths of the outputs are printed.
    pub print_out_paths: bool,
    /// Whether the build may read what can change.
    pub impure: bool,
    /// Whether the log goes through `nom`.
    pub with_nom: bool,
    /// What is handed on to `nix build` as it is.
    pub extra_args: Seq<Seq<char>>,
}

/// The text of a string, if there is one.
pub open spec fn text_of(s: Option<String>) -> Option<Seq<char>> {
    match s {
        Some(s) => Some(s@),
        None => None,
    }
}

impl View for BuildCommand {
    type V = BuildView;

    closed spec fn view(&self) -> BuildView {
        BuildView {
            installables: names_of(self.installables@),
            expr: text_of(self.expr),
            arg: entries_of(self.arg@),
            argstr: entries_of(self.argstr@),
            out_link: text_of(self.out_link),
            no_link: self.no_link,
            print_out_paths: self.print_out_paths,
            impure: self.impure,
            with_nom: self.with_nom,
            extra_args: names_of(self.extra_args@),
        }
    }
}

/// Named arguments on the command line: for each, the flag, the name and the
/// value.
pub open spec fn entry_args(flag: Seq<char>, entries: Entries) -> Seq<Seq<char>>
    decreases entries.len(),
{
    if entries.len() == 0 {
        Seq::empty()
    } else {
        entry_args(flag, entries.drop_last()) + seq![flag, entries.last().0, entries.last().1]
    }
}

/// A flag and its value, where the value is set.
pub open spec fn option_args(flag: Seq<char>, value: Option<Seq<char>>) -> Seq<Seq<char>> {
    match value {
        Some(v) => seq![flag, v],
        None => Seq::empty(),
    }
}

/// The words given where the condition holds.
pub open spec fn flag_args(set: bool, words: Seq<Seq<char>>) -> Seq<Seq<char>> {
    if set {
        words
    } else {
        Seq::empty()
    }
}

impl BuildView {
    /// A command with nothing set, whose log goes through `nom`.
    pub open spec fn initial() -> BuildView {
        BuildView {
            installables: Seq::empty(),
            expr: None,
            arg: Seq::empty(),
            argstr: Seq::empty(),
            out_link: None,
            no_link: false,
            print_out_paths: false,
            impure: false,
            with_nom: true,
            extra_args: Seq::empty(),
        }
    }

    /// No argument is named twice, and a link is not both placed and left
    /// out.
    pub open spec fn wf(self) -> bool {
        &&& unique_keys(self.arg)
        &&& unique_keys(self.argstr)
        &&& !(self.no_link && self.out_link is Some)
    }

    /// The arguments of `nix` that the command stands for.
    pub open spec fn command_line(self) -> Seq<Seq<char>> {
        seq!["build"@] + self.installables + option_args("--expr"@, self.expr) + entry_args(
            "--arg"@,
            self.arg,
        ) + entry_args("--argstr"@, self.argstr) + option_args("--out-link"@, self.out_link)
            + flag_args(self.no_link, seq!["--no-link"@]) + flag_args(
            self.print_out_paths,
            seq!["--print-out-paths"@],
        ) + flag_args(self.impure, seq!["--impure"@]) + flag_args(
            self.with_nom,
            seq!["--log-format"@, "internal-json"@, "-v"@],
        ) + self.extra_args
    }
}

/// Appends the strings of `more` to `all`.
fn extend_with(all: &mut Vec<String>, more: &Vec<String>)
    ensures
        names_of(final(all)@) == names_of(old(all)@) + names_of(more@),
{
    let mut i: usize = 0;
    while i < more.len()
        invariant
            i <= more.len(),
            names_of(all@) == names_of(old(all)@) + names_of(more@).take(i as int),
        decreases more.len() - i,
    {
        let ghost before = names_of(all@);
        all.push(more[i].clone());
        assert(names_of(all@) =~= before.push(more[i as int]@));
        i += 1;
    }
}

/// Appends a flag and the value, where there is one.
fn push_option(all: &mut Vec<String>, flag: &str, value: &Option<String>)
    ensures
        names_of(final(all)@) == names_of(old(all)@) + option_args(flag@, text_of(*value)),
{
    match value {
        Some(v) => {
            all.push(flag.to_owned());
            all.push(v.clone());
        },
        None => {},
    }
}

/// Appends the flag, the name and the value of each named argument.
fn push_entries(all: &mut Vec<String>, flag: &str, entries: &Vec<(String, String)>)
    ensures
        names_of(final(all)@) == names_of(old(all)@) + entry_args(flag@, entries_of(entries@)),
{
    let mut i: usize = 0;
    while i < entries.len()
        invariant
            i <= entries.len(),
            names_of(all@) == names_of(old(all)@) + entry_args(
                flag@,
                entries_of(entries@).take(i as int),
            ),
        decreases entries.len() - i,
    {
        let ghost before = names_of(all@);
        let ghost upto = entries_of(entries@).take(i as int + 1);
        assert(upto.drop_last() =~= entries_of(entries@).take(i as int));
        all.push(flag.to_owned());
        all.push(entries[i].0.clone());
        all.push(entries[i].1.clone());
        assert(names_of(all@) =~= before + seq![flag@, entries[i as int].0@, entries[i as int].1@]);
        i += 1;
    }
    assert(entries_of(entries@).take(entries.len() as int) =~= entries_of(entries@));
}

/// Appends a word.
fn push_word(all: &mut Vec<String>, word: &str)
    ensures
        names_of(final(all)@) == names_of(old(all)@) + seq![word@],
{
    all.push(word.to_owned());
}

impl BuildCommand {
    /// A command with nothing set, whose log goes through `nom`.
    pub fn new() -> (command: Self)
        ensures
            command@ == BuildView::initial(),
            command@.wf(),
    {
        let command = Self {
            installables: Vec::new(),
            expr: None,
            arg: Vec::new(),
            argstr: Vec::new(),
            out_link: None,
            no_link: false,
            print_out_paths: false,
            impure: false,
            with_nom: true,
            extra_args: Vec::new(),
        };
        assert(command@.installables =~= Seq::empty());
        assert(command@.arg =~= Seq::empty());
        command
    }

    /// Adds something to build, such as an attribute of a flake.
    pub fn installable(self, installable: &str) -> (command: Self)
        ensures
            command@ == (BuildView {
                installables: self@.installables.push(installable@),
                ..self@
            }),
            self@.wf() ==> command@.wf(),
    {
        let mut command = self;
        command.installables.push(installable.to_owned());
        assert(command@.installables =~= self@.installables.push(installable@));
        command
    }

    /// Sets the expression to build.
    pub fn expr(self, expr: &str) -> (command: Self)
        ensures
            command@ == (BuildView { expr: Some(expr@), ..self@ }),
            self@.wf() ==> command@.wf(),
    {
        let mut command = self;
        command.expr = Some(expr.to_owned());
        command
    }

    /// Gives the argument `key` the expression `value`.
    pub fn arg(self, key: &str, value: &str) -> (command: Self)
        ensures
            command@ == (BuildView { arg: with_entry(self@.arg, key@, value@), ..self@ }),
            self@.wf() ==> command@.wf(),
    {
        let mut command = self;
        set_entry(&mut command.arg, key, value);
        proof {
            if self@.wf() {
                lemma_with_entry(self@.arg, key@, value@);
            }
        }
        command
    }

    /// Gives the argument `key` the string `value`.
    pub fn argstr(self, key: &str, value: &str) -> (command: Self)
        ensures
            command@ == (BuildView { argstr: with_entry(self@.argstr, key@, value@), ..self@ }),
            self@.wf() ==> command@.wf(),
    {
        let mut command = self;
        set_entry(&mut command.argstr, key, value);
        proof {
            if self@.wf() {
                lemma_with_entry(self@.argstr, key@, value@);
            }
        }
        command
    }

    /// Places the link to the result at `path`; a link is then made.
    pub fn out_link(self, path: &str) -> (command: Self)
        ensures
            command@ == (BuildView { out_link: Some(path@), no_link: false, ..self@ }),
            self@.wf() ==> command@.wf(),
    {
        let mut command = self;
        command.out_link = Some(path.to_owned());
        command.no_link = false;
        command
    }

    /// Says whether no link to the result is made; where none is made, none
    /// is placed either.
    pub fn no_link(self, no_link: bool) -> (command: Self)
        ensures
            command@ == (BuildView {
                no_link,
                out_link: if no_link {
                    None
                } else {
                    self@.out_link
                },
                ..self@
            }),
            self@.wf() ==> command@.wf(),
    {
        let mut command = self;
        command.no_link = no_link;
        if no_link {
            command.out_link = None;
        }
        command
    }

    /// Says whether the paths of the outputs are printed.
    pub fn print_out_paths(self, print: bool) -> (command: Self)
        ensures
            command@ == (BuildView { print_out_paths: print, ..self@ }),
            self@.wf() ==> command@.wf(),
    {
        let mut command = self;
        command.print_out_paths = print;
        command
    }

    /// Says whether the build may read what can change.
    pub fn impure(self, impure: bool) -> (command: Self)
        ensures
            command@ == (BuildView { impure, ..self@ }),
            self@.wf() ==> command@.wf(),
    {
        let mut command = self;
        command.impure = impure;
        command
    }

    /// Says whether the log goes through `nom`.
    pub fn with_nom(self, nom: bool) -> (command: Self)
        ensures
            command@ == (BuildView { with_nom: nom, ..self@ }),
            self@.wf() ==> command@.wf(),
    {
        let mut command = self;
        command.with_nom = nom;
        command
    }

    /// Adds arguments that are handed on to `nix build` as they are.
    pub fn extra_args(self, args: &[String]) -> (command: Self)
        ensures
            command@ == (BuildView { extra_args: self@.extra_args + names_of(args@), ..self@ }),
            self@.wf() ==> command@.wf(),
    {
        let mut command = self;
        let mut i: usize = 0;
        while i < args.len()
            invariant
                i <= args.len(),
                command@ == (BuildView {
                    extra_args: self@.extra_args + names_of(args@).take(i as int),
                    ..self@
                }),
            decreases args.len() - i,
        {
            let ghost before = command@.extra_args;
            command.extra_args.push(args[i].clone());
            assert(command@.extra_args =~= before.push(args[i as int]@));
            i += 1;
            assert(command@.extra_args =~= self@.extra_args + names_of(args@).take(i as int));
        }
        assert(names_of(args@).take(args.len() as int) =~= names_of(args@));
        command
    }

    /// Whether the log goes through `nom`.
    pub fn uses_nom(&self) -> (nom: bool)
        ensures
            nom == self@.with_nom,
    {
        self.with_nom
    }

    /// The arguments with which `nix` is to be called.
    pub fn build_command(&self) -> (args: Vec<String>)
        ensures
            names_of(args@) == self@.command_line(),
    {
        let mut args: Vec<String> = Vec::new();
        push_word(&mut args, "build");
        extend_with(&mut args, &self.installables);
        push_option(&mut args, "--expr", &self.expr);
        push_entries(&mut args, "--arg", &self.arg);
        push_entries(&mut args, "--argstr", &self.argstr);
        push_option(&mut args, "--out-link", &self.out_link);
        if self.no_link {
            push_word(&mut args, "--no-link");
        }
        if self.print_out_paths {
            push_word(&mut args, "--print-out-paths");
        }
        if self.impure {
            push_word(&mut args, "--impure");
        }
        if self.with_nom {
            push_word(&mut args, "--log-format");
            push_word(&mut args, "internal-json");
            push_word(&mut args, "-v");
        }
        extend_with(&mut args, &self.extra_args);
        args
    }
}

} // verus!
