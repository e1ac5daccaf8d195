use hull::cmd::build_target::{
    build_command, final_flake_ref, flake_attr, submodule_query, BuildOpts,
};
use hull::cmd::judge::{judge_build, judge_command, judge_expression, JudgeOpts};
use hull::cmd::patch_includes::{
    checked_literals, escape_n_chars, include_literals, literals_are_fit, patch_includes,
    patch_literals, patch_source, regex_settings, splice, unescape, PatchError, RegexFlags,
    Replacer,
};
use hull::cmd::run::{limit_or, run_build, run_command, run_expression, run_limits, RunOpts};
use hull::cmd::run_wasm::{stdio_source, StdioSource};
use hull::cmd::stress::{
    batch_arguments, batch_size, default_batch_size, limit_text, make_salt, read_outcome,
    round_is_due, salt_argument, salt_from, split_args, stress_build, stress_command,
    stress_expression, StressOpts, StressOutcome, SALT_CHARSET, SALT_LENGTH,
};
use hull::utils::to_decimal;

fn words(list: &[&str]) -> Vec<String> {
    list.iter().map(|s| s.to_string()).collect()
}

/// Resolves escapes with the iterators and parsers of the standard library.
fn unescape_by_the_book(input: &str) -> String {
    fn by_number(chars: &mut std::str::Chars<'_>, length: usize) -> Option<char> {
        let s = chars.as_str().get(0..length)?;
        let u = u32::from_str_radix(s, 16).ok()?;
        let ch = char::from_u32(u)?;
        _ = chars.nth(length);
        Some(ch)
    }
    let mut chars = input.chars();
    let mut s = String::new();
    while let Some(c) = chars.next() {
        if c != '\\' {
            s.push(c);
            continue;
        }
        let Some(char) = chars.next() else {
            s.push('\\');
            break;
        };
        let escaped: Option<char> = match char {
            'n' => Some('\n'),
            'r' => Some('\r'),
            't' => Some('\t'),
            '\'' => Some('\''),
            '\"' => Some('\"'),
            '\\' => Some('\\'),
            'u' => by_number(&mut chars, 4),
            'x' => by_number(&mut chars, 2),
            _ => None,
        };
        if let Some(char) = escaped {
            s.push(char);
        } else {
            s.push('\\');
            s.push(char);
        }
    }
    s
}

#[test]
fn unescape_resolves_the_letters() {
    assert_eq!(unescape(r"a\nb"), "a\nb");
    assert_eq!(unescape(r"\r\t\'\\"), "\r\t'\\");
    assert_eq!(unescape("\\\""), "\"");
    assert_eq!(unescape("plain"), "plain");
    assert_eq!(unescape(""), "");
}

#[test]
fn unescape_keeps_what_is_no_escape() {
    assert_eq!(unescape(r"\q"), r"\q");
    assert_eq!(unescape(r"$1\d"), r"$1\d");
    assert_eq!(unescape("tail\\"), "tail\\");
    assert_eq!(unescape(r"\x4"), r"\x4");
    assert_eq!(unescape(r"\xzz"), r"\xzz");
    assert_eq!(unescape(r"\ud800"), r"\ud800");
    assert_eq!(unescape(r"\u12"), r"\u12");
    assert_eq!(unescape("\\x\u{e9}"), "\\x\u{e9}");
}

#[test]
fn unescape_resolves_numbers_and_passes_over_the_next_character() {
    assert_eq!(unescape(r"\x41"), "A");
    assert_eq!(unescape(r"\x41BC"), "AC");
    assert_eq!(unescape(r"\u00e9!?"), "\u{e9}?");
    assert_eq!(unescape(r"\x+f"), "\u{f}");
    assert_eq!(unescape(r"\u+0411"), "A");
    assert_eq!(unescape(r"\x41\n"), "An");
}

#[test]
fn unescape_agrees_with_the_standard_library() {
    let pieces = [
        "", "a", "\\", "\\\\", "\\n", "\\x", "\\u", "4", "1", "+", "-", "f", "F", "g", "41", "00e9",
        "d800", "dfff", "e000", "ffff", "\u{e9}", "\u{1f600}", "\"", "'", "$1", " ", "0", "x", "u",
    ];
    for a in pieces {
        for b in pieces {
            for c in pieces {
                for d in ["", "\\x", "Z\\u0041\\"] {
                    let input = format!("{}{}{}{}", a, b, c, d);
                    assert_eq!(unescape(&input), unescape_by_the_book(&input), "{:?}", input);
                }
            }
        }
    }
}

#[test]
fn escape_by_number() {
    let chars: Vec<char> = "ab41\u{e9}+7".chars().collect();
    assert_eq!(escape_n_chars(&chars, 2, 2), Some('A'));
    assert_eq!(escape_n_chars(&chars, 0, 2), Some('\u{ab}'));
    assert_eq!(escape_n_chars(&chars, 0, 4), Some('\u{ab41}'));
    assert_eq!(escape_n_chars(&chars, 3, 2), None);
    assert_eq!(escape_n_chars(&chars, 5, 2), Some('\u{7}'));
    assert_eq!(escape_n_chars(&chars, 6, 2), None);
    assert_eq!(escape_n_chars(&chars, 7, 2), None);
    assert_eq!(escape_n_chars(&chars, 5, 1), None);
    assert_eq!(escape_n_chars(&chars, 0, 0), None);
    let surrogate: Vec<char> = "d800".chars().collect();
    assert_eq!(escape_n_chars(&surrogate, 0, 4), None);
}

#[test]
fn flags_set_the_switches() {
    let plain = RegexFlags { case_insensitive: false, multi_line: true, dot_matches_new_line: false };
    let settings = regex_settings("a.b", &None);
    assert_eq!(settings.pattern, "a.b");
    assert_eq!(settings.flags, plain);
    let settings = regex_settings("a.b", &Some("".to_string()));
    assert_eq!(settings.pattern, "a.b");
    assert_eq!(settings.flags, plain);
    let settings = regex_settings("a.b", &Some("ies".to_string()));
    assert_eq!(
        settings.flags,
        RegexFlags { case_insensitive: true, multi_line: false, dot_matches_new_line: true }
    );
    // later flags win, unknown ones are passed over
    let settings = regex_settings("a.b", &Some("icz?em".to_string()));
    assert_eq!(settings.flags, plain);
    assert_eq!(settings.pattern, "a.b");
}

#[test]
fn whole_words_wrap_the_pattern() {
    let settings = regex_settings("lib", &Some("iw".to_string()));
    assert_eq!(settings.pattern, r"\blib\b");
    assert!(settings.flags.case_insensitive);
}

#[test]
fn replacer_replaces_every_match() {
    let replacer = Replacer::new("lib".to_string(), "LIB".to_string(), None).unwrap();
    assert_eq!(replacer.replace(b"cplib/lib.hpp"), Some(b"cpLIB/LIB.hpp".to_vec()));
    assert_eq!(replacer.replace(b"other.hpp"), None);
    assert_eq!(replacer.replace(b""), None);
}

#[test]
fn replacer_knows_groups_and_escapes() {
    let replacer =
        Replacer::new(r"(\w+)\.hpp".to_string(), r"$1.h\x21!".to_string(), None).unwrap();
    assert_eq!(replacer.replace(b"cplib.hpp"), Some(b"cplib.h!".to_vec()));
    let replacer = Replacer::new("a".to_string(), r"\t".to_string(), None).unwrap();
    assert_eq!(replacer.replace(b"banana"), Some(b"b\tn\tn\t".to_vec()));
}

#[test]
fn replacer_follows_its_flags() {
    let exact = Replacer::new("LIB".to_string(), "x".to_string(), None).unwrap();
    assert_eq!(exact.replace(b"lib"), None);
    let any_case = Replacer::new("LIB".to_string(), "x".to_string(), Some("i".to_string())).unwrap();
    assert_eq!(any_case.replace(b"lib"), Some(b"x".to_vec()));
    let words = Replacer::new("lib".to_string(), "x".to_string(), Some("w".to_string())).unwrap();
    assert_eq!(words.replace(b"cplib lib"), Some(b"cplib x".to_vec()));
    let by_line = Replacer::new("^b".to_string(), "x".to_string(), None).unwrap();
    assert_eq!(by_line.replace(b"a\nb"), Some(b"a\nx".to_vec()));
    let whole = Replacer::new("^b".to_string(), "x".to_string(), Some("e".to_string())).unwrap();
    assert_eq!(whole.replace(b"a\nb"), None);
    let dot = Replacer::new("a.b".to_string(), "x".to_string(), Some("s".to_string())).unwrap();
    assert_eq!(dot.replace(b"a\nb"), Some(b"x".to_vec()));
}

#[test]
fn replacer_refuses_a_bad_pattern() {
    let error = Replacer::new("(".to_string(), "x".to_string(), None).err().unwrap();
    assert!(!error.is_empty());
}

#[test]
fn splice_replaces_what_stands_between_the_quotes() {
    let source = b"#include \"a.h\"\n".to_vec();
    assert_eq!(
        splice(source.clone(), (9, 14), &Some(b"long/name.hpp".to_vec())),
        b"#include \"long/name.hpp\"\n".to_vec()
    );
    assert_eq!(splice(source.clone(), (9, 14), &Some(Vec::new())), b"#include \"\"\n".to_vec());
    assert_eq!(splice(source.clone(), (9, 14), &None), source);
}

#[test]
fn patching_keeps_the_rest_of_the_source() {
    let source = b"#include \"a.h\"\nint x;\n#include \"bb.h\"\n#include <c>\n".to_vec();
    let literals = [(9usize, 14usize), (31, 37)];
    assert_eq!(&source[9..14], b"\"a.h\"");
    assert_eq!(&source[31..37], b"\"bb.h\"");
    let replacements = vec![Some(b"first/a.hpp".to_vec()), None];
    assert_eq!(
        patch_literals(source.clone(), &literals, &replacements),
        b"#include \"first/a.hpp\"\nint x;\n#include \"bb.h\"\n#include <c>\n".to_vec()
    );
    let replacements = vec![Some(b"A".to_vec()), Some(b"second/bb.hpp".to_vec())];
    assert_eq!(
        patch_literals(source.clone(), &literals, &replacements),
        b"#include \"A\"\nint x;\n#include \"second/bb.hpp\"\n#include <c>\n".to_vec()
    );
    assert_eq!(patch_literals(source.clone(), &[], &Vec::new()), source);
}

#[test]
fn includes_are_patched_by_the_replacer() {
    let source = b"#include \"a.h\"\nint x;\n#include \"bb.h\"\n#include \"a.hpp\"\n".to_vec();
    let literals = [(9usize, 14usize), (31, 37), (47, 54)];
    assert_eq!(&source[47..54], b"\"a.hpp\"");
    let replacer = Replacer::new(r"\.h$".to_string(), ".hpp".to_string(), None).unwrap();
    assert_eq!(
        patch_includes(source, &literals, &replacer),
        b"#include \"a.hpp\"\nint x;\n#include \"bb.hpp\"\n#include \"a.hpp\"\n".to_vec()
    );
}

#[test]
fn arguments_part_at_the_first_separator() {
    let (generator, nix) = split_args(&words(&["-n", "5", "--", "--show-trace", "--", "x"]));
    assert_eq!(generator, words(&["-n", "5"]));
    assert_eq!(nix, words(&["--show-trace", "--", "x"]));
    let (generator, nix) = split_args(&words(&["-n", "5"]));
    assert_eq!(generator, words(&["-n", "5"]));
    assert!(nix.is_empty());
    let (generator, nix) = split_args(&words(&["--"]));
    assert!(generator.is_empty());
    assert!(nix.is_empty());
    let (generator, nix) = split_args(&[]);
    assert!(generator.is_empty());
    assert!(nix.is_empty());
    let (generator, nix) = split_args(&words(&["a", "--"]));
    assert_eq!(generator, words(&["a"]));
    assert!(nix.is_empty());
}

#[test]
fn batch_sizes() {
    assert_eq!(default_batch_size(8), 32);
    assert_eq!(default_batch_size(0), 0);
    assert_eq!(batch_size(Some(7)), 7);
    assert_eq!(batch_size(Some(0)), 0);
    let by_machine = batch_size(None);
    assert!(by_machine >= 4);
    assert_eq!(by_machine % 4, 0);
}

#[test]
fn rounds_are_due_up_to_their_number() {
    assert!(round_is_due(1, None));
    assert!(round_is_due(u64::MAX, None));
    assert!(round_is_due(1, Some(1)));
    assert!(round_is_due(3, Some(3)));
    assert!(!round_is_due(4, Some(3)));
    assert!(!round_is_due(1, Some(0)));
}

#[test]
fn salts() {
    assert_eq!(SALT_CHARSET.len(), 62);
    assert_eq!(salt_from(&[0, 25, 26, 51, 52, 61]), "AZaz09");
    assert_eq!(salt_from(&[]), "");
    let salt = make_salt();
    assert_eq!(salt.chars().count(), SALT_LENGTH);
    assert!(salt.chars().all(|c| SALT_CHARSET.contains(c)));
    assert_ne!(make_salt(), make_salt());
    assert_eq!(salt_argument("salt", "abc"), "--salt=abc");
    assert_eq!(salt_argument("", ""), "--=");
}

#[test]
fn every_test_case_of_a_batch_has_its_salt() {
    let generator_args = words(&["-n", "5"]);
    let batch = batch_arguments(&generator_args, "salt", 6);
    assert_eq!(batch.len(), 6);
    for arguments in &batch {
        assert_eq!(arguments.len(), 3);
        assert_eq!(arguments[..2], generator_args[..]);
        let salt = arguments[2].strip_prefix("--salt=").expect("the salt argument");
        assert_eq!(salt.len(), 32);
        assert!(salt.chars().all(|c| c.is_ascii_alphanumeric()));
    }
    assert_ne!(batch[0][2], batch[1][2]);
    assert!(batch_arguments(&generator_args, "salt", 0).is_empty());
}

#[test]
fn limits_as_text() {
    assert_eq!(limit_text(None), "null");
    assert_eq!(limit_text(Some(0)), "0");
    assert_eq!(limit_text(Some(1000)), "1000");
    assert_eq!(limit_text(Some(u64::MAX)), "18446744073709551615");
    assert_eq!(to_decimal(907), "907");
    assert_eq!(limit_or(None, 5), 5);
    assert_eq!(limit_or(Some(0), 5), 0);
}

#[test]
fn outcomes() {
    assert_eq!(read_outcome("hacked"), StressOutcome::Hacked);
    assert_eq!(read_outcome("not_hacked"), StressOutcome::NotHacked);
    assert_eq!(read_outcome("Hacked"), StressOutcome::Unknown);
    assert_eq!(read_outcome(""), StressOutcome::Unknown);
}

#[test]
fn stress_expression_text() {
    let final_flake_ref = "git+file:///p?submodules=1";
    let system = "x86_64-linux";
    let tick_limit = "1000";
    let memory_limit = "null";
    let expected = format!(
        r#"
      {{ generatorArgsJSON, testSolutionsJSON, stdNameJSON, generatorName }}:
      let
        flake = builtins.getFlake "{final_flake_ref}";
        hullLib = (flake.inputs.hull.lib or flake.outputs.lib).{system};
        problemConfig = flake.outputs.hullProblems.{system}.{problem}.config;
      in
      hullLib.stress problemConfig {{
        testSolNames = builtins.fromJSON testSolutionsJSON;
        generatorArgs = builtins.fromJSON generatorArgsJSON;
        stdName = builtins.fromJSON stdNameJSON;
        tickLimit = {tick_limit};
        memoryLimit = {memory_limit};
        inherit generatorName;
      }}
      "#,
        problem = "aPlusB",
    );
    assert_eq!(
        stress_expression(final_flake_ref, system, "aPlusB", tick_limit, memory_limit),
        expected
    );
}

#[test]
fn stress_command_line() {
    let command =
        stress_command("EXPR", "[[\"a\"]]", "[\"s\"]", "null", "gen", &words(&["--show-trace"]));
    assert!(command.uses_nom());
    assert_eq!(
        command.build_command(),
        words(&[
            "build",
            "--expr",
            "EXPR",
            "--argstr",
            "generatorArgsJSON",
            "[[\"a\"]]",
            "--argstr",
            "testSolutionsJSON",
            "[\"s\"]",
            "--argstr",
            "stdNameJSON",
            "null",
            "--argstr",
            "generatorName",
            "gen",
            "--no-link",
            "--print-out-paths",
            "--impure",
            "--log-format",
            "internal-json",
            "-v",
            "--show-trace",
        ])
    );
}

#[test]
fn flake_attributes() {
    assert_eq!(submodule_query(true), "?submodules=1");
    assert_eq!(submodule_query(false), "");
    assert_eq!(
        flake_attr(false, "x86_64-linux", "aPlusB", "default"),
        ".#hullProblems.x86_64-linux.aPlusB.config.targetOutputs.default"
    );
    assert_eq!(
        flake_attr(true, "aarch64-darwin", "p", "t"),
        ".?submodules=1#hullProblems.aarch64-darwin.p.config.targetOutputs.t"
    );
}

#[test]
fn build_command_line() {
    let opts = BuildOpts {
        problem: "aPlusB".to_string(),
        target: "default".to_string(),
        system: None,
        out_link: "result".to_string(),
        submodules: false,
        extra_args: words(&["-L"]),
    };
    assert_eq!(
        build_command(&opts, "x86_64-linux").build_command(),
        words(&[
            "build",
            ".#hullProblems.x86_64-linux.aPlusB.config.targetOutputs.default",
            "--out-link",
            "result",
            "--log-format",
            "internal-json",
            "-v",
            "-L",
        ])
    );
}

#[test]
fn judge_expression_text() {
    let final_flake_ref = "path:/p";
    let system = "x86_64-linux";
    let expected = format!(
        r#"
    {{ srcPath }}:
    let
      flake = builtins.getFlake "{final_flake_ref}";
      problemConfig = flake.outputs.hullProblems.{system}.{problem}.config;
    in
    (flake.inputs.hull.lib or flake.outputs.lib).{system}.judgeSingleFile
      problemConfig.problemAttrs problemConfig.extraSpecialArgs (/. + srcPath)"#,
        problem = "aPlusB"
    );
    assert_eq!(judge_expression(final_flake_ref, system, "aPlusB"), expected);
}

#[test]
fn judge_command_line() {
    let command = judge_command("EXPR", "/src/a.cpp", &words(&["-L"]));
    assert_eq!(
        command.build_command(),
        words(&[
            "build",
            "--expr",
            "EXPR",
            "--argstr",
            "srcPath",
            "/src/a.cpp",
            "--no-link",
            "--print-out-paths",
            "--impure",
            "--log-format",
            "internal-json",
            "-v",
            "-L",
        ])
    );
}

#[test]
fn run_expression_text() {
    let final_flake_ref = "path:/p";
    let system = "x86_64-linux";
    let problem_name = "aPlusB";
    let expected = format!(
        r#"
      {{ srcPath, languageName }}:
      let
        flake = builtins.getFlake "{final_flake_ref}";
        hullLib = (flake.inputs.hull.lib or flake.outputs.lib).{system};
        pkgs = flake.inputs.nixpkgs.legacyPackages.{system};
        problem = flake.outputs.hullProblems.{system}.{problem_name}.config;

        langName = if languageName != null
                  then languageName
                  else hullLib.language.matchBaseName (builtins.baseNameOf srcPath) problem.languages;

        _ = if langName == null then throw "Could not determine language for file: ${{srcPath}}" else null;
        lang = problem.languages.${{langName}} or (throw "Language '" + langName + "' not found for problem '{problem_name}'");

        wasm = lang.compile.executable {{
          name = "hull-run-${{builtins.baseNameOf srcPath}}";
          src = (/. + srcPath);
          includes = problem.includes;
          extraObjects = [];
        }};
      in
      wasm
    "#
    );
    assert_eq!(run_expression(final_flake_ref, system, problem_name), expected);
}

#[test]
fn run_command_line() {
    let command = run_command("EXPR", "/src/a.cpp", "aPlusB", &Some("cpp.20".to_string()));
    assert_eq!(
        command.build_command(),
        words(&[
            "build",
            "--expr",
            "EXPR",
            "--argstr",
            "srcPath",
            "/src/a.cpp",
            "--argstr",
            "problemName",
            "aPlusB",
            "--argstr",
            "languageName",
            "cpp.20",
            "--no-link",
            "--print-out-paths",
            "--impure",
            "--log-format",
            "internal-json",
            "-v",
        ])
    );
    let command = run_command("EXPR", "/src/a.cpp", "aPlusB", &None);
    assert_eq!(
        command.build_command(),
        words(&[
            "build",
            "--expr",
            "EXPR",
            "--arg",
            "languageName",
            "null",
            "--argstr",
            "srcPath",
            "/src/a.cpp",
            "--argstr",
            "problemName",
            "aPlusB",
            "--no-link",
            "--print-out-paths",
            "--impure",
            "--log-format",
            "internal-json",
            "-v",
        ])
    );
}

#[test]
fn standard_streams() {
    assert_eq!(
        stdio_source(&Some("in.txt".to_string()), false),
        StdioSource::File("in.txt".to_string())
    );
    assert_eq!(
        stdio_source(&Some("in.txt".to_string()), true),
        StdioSource::File("in.txt".to_string())
    );
    assert_eq!(stdio_source(&None, true), StdioSource::Inherit);
    assert_eq!(stdio_source(&None, false), StdioSource::Null);
}

#[test]
fn flake_references() {
    assert_eq!(final_flake_ref("path:/p", false), "path:/p");
    assert_eq!(final_flake_ref("git+file:///p", true), "git+file:///p?submodules=1");
}

#[test]
fn judge_build_line() {
    let opts = JudgeOpts {
        src_path: "a.cpp".to_string(),
        problem: "aPlusB".to_string(),
        system: None,
        submodules: true,
        json: false,
        extra_args: words(&["-L"]),
    };
    let expected =
        judge_command(&judge_expression("path:/p?submodules=1", "x86_64-linux", "aPlusB"), "/src/a.cpp", &opts.extra_args);
    assert_eq!(
        judge_build(&opts, "x86_64-linux", "path:/p", "/src/a.cpp").build_command(),
        expected.build_command()
    );
}

#[test]
fn run_build_line() {
    let mut opts = RunOpts {
        problem: "aPlusB".to_string(),
        language: Some("cpp.20".to_string()),
        tick_limit: None,
        memory_limit: Some(1 << 20),
        show_status: false,
        submodules: false,
        src_path: "a.cpp".to_string(),
        args: Vec::new(),
    };
    let expected = run_command(
        &run_expression("path:/p", "x86_64-linux", "aPlusB"),
        "/src/a.cpp",
        "aPlusB",
        &opts.language,
    );
    assert_eq!(
        run_build(&opts, "x86_64-linux", "path:/p", "/src/a.cpp").build_command(),
        expected.build_command()
    );
    assert_eq!(run_limits(&opts), (1_000_000_000_000_000_000, 1 << 20));
    opts.tick_limit = Some(7);
    opts.memory_limit = None;
    assert_eq!(run_limits(&opts), (7, u32::MAX as u64));
}

#[test]
fn stress_build_line() {
    let opts = StressOpts {
        std: None,
        solutions: words(&["brute", "wrong \"one\""]),
        generator: "gen".to_string(),
        problem: "aPlusB".to_string(),
        system: None,
        batch_size: None,
        rounds: None,
        salt_arg: "salt".to_string(),
        tick_limit: Some(1000),
        memory_limit: None,
        submodules: false,
        args: Vec::new(),
    };
    let batch = vec![words(&["-n", "5", "--salt=abc"]), words(&["--salt=\\d"])];
    let command = stress_build(&opts, "x86_64-linux", "path:/p", &words(&["-L"]), &batch).unwrap();
    let expected = stress_command(
        &stress_expression("path:/p", "x86_64-linux", "aPlusB", "1000", "null"),
        "[[\"-n\",\"5\",\"--salt=abc\"],[\"--salt=\\\\d\"]]",
        "[\"brute\",\"wrong \\\"one\\\"\"]",
        "null",
        "gen",
        &words(&["-L"]),
    );
    assert_eq!(command.build_command(), expected.build_command());
    let mut named = opts.clone();
    named.std = Some("std".to_string());
    let command = stress_build(&named, "x86_64-linux", "path:/p", &[], &Vec::new()).unwrap();
    let line = command.build_command();
    assert!(line.windows(3).any(|w| w == ["--argstr", "stdNameJSON", "\"std\""]));
    assert!(line.windows(3).any(|w| w == ["--argstr", "generatorArgsJSON", "[]"]));
}

#[test]
fn includes_are_found_and_patched() {
    let source = b"#include <vector>\n#include \"cplib.hpp\"\n// #include \"no.h\"\nconst char *s = \"lib.h\";\n#include \"dir/lib.h\"\n".to_vec();
    let literals = include_literals(&source).unwrap();
    let found: Vec<&[u8]> = literals.iter().map(|(start, end)| &source[*start..*end]).collect();
    assert_eq!(found, vec![&b"\"cplib.hpp\""[..], &b"\"dir/lib.h\""[..]]);
    assert!(literals_are_fit(source.len(), &literals));

    let replacer = Replacer::new("lib".to_string(), "LIB".to_string(), None).unwrap();
    assert_eq!(
        patch_source(source, &replacer).unwrap(),
        b"#include <vector>\n#include \"cpLIB.hpp\"\n// #include \"no.h\"\nconst char *s = \"lib.h\";\n#include \"dir/LIB.h\"\n".to_vec()
    );
    assert_eq!(patch_source(Vec::new(), &replacer).unwrap(), Vec::<u8>::new());
    let plain = b"int main() { return 0; }\n".to_vec();
    assert_eq!(patch_source(plain.clone(), &replacer).unwrap(), plain);
}

#[test]
fn literals_must_stand_one_after_the_other() {
    assert!(literals_are_fit(0, &[]));
    assert!(literals_are_fit(10, &[(0, 2), (2, 5), (7, 10)]));
    assert!(!literals_are_fit(10, &[(0, 1)]));
    assert!(!literals_are_fit(10, &[(3, 2)]));
    assert!(!literals_are_fit(10, &[(0, 11)]));
    assert!(!literals_are_fit(10, &[(0, 4), (3, 6)]));
    assert!(!literals_are_fit(10, &[(5, 8), (0, 3)]));
    assert!(!literals_are_fit(usize::MAX, &[(usize::MAX, usize::MAX)]));
}

#[test]
fn found_literals_are_checked() {
    assert_eq!(checked_literals(10, Ok(vec![(0, 2), (4, 10)])), Ok(vec![(0, 2), (4, 10)]));
    assert_eq!(checked_literals(0, Ok(Vec::new())), Ok(Vec::new()));
    assert_eq!(checked_literals(10, Ok(vec![(0, 2), (1, 10)])), Err(PatchError::Literals));
    assert_eq!(checked_literals(9, Ok(vec![(4, 10)])), Err(PatchError::Literals));
    assert_eq!(checked_literals(10, Err(PatchError::Parse)), Err(PatchError::Parse));
    assert_eq!(
        checked_literals(10, Err(PatchError::Query("bad".to_string()))),
        Err(PatchError::Query("bad".to_string()))
    );
    assert_eq!(
        checked_literals(10, Err(PatchError::Language("old".to_string()))),
        Err(PatchError::Language("old".to_string()))
    );
}

#[test]
fn a_replacer_is_made_of_what_the_compiler_gave() {
    let settings = regex_settings("a+", &None);
    let compiled = regex::bytes::Regex::new("a+");
    let replacer = Replacer::from_compiled(compiled, settings, b"-".to_vec()).ok().unwrap();
    assert_eq!(replacer.replace(b"baaad"), Some(b"b-d".to_vec()));
    let settings = regex_settings("(", &None);
    let compiled = regex::bytes::Regex::new("(");
    let expected = compiled.clone().err().unwrap().to_string();
    let error = Replacer::from_compiled(compiled, settings, b"-".to_vec()).err().unwrap();
    assert_eq!(error, expected);
}

#[test]
fn a_pattern_that_compiles_gives_a_replacer() {
    for (find, flags) in [("a.b", None), ("lib", Some("iw")), ("", None), (r"\d+", Some("zz"))] {
        assert!(Replacer::new(find.to_string(), "x".to_string(), flags.map(String::from)).is_ok());
    }
    for find in ["(", "[a", "*", "a{2,1}", "a{1,2}", "\\"] {
        let compiles = regex::bytes::Regex::new(find).is_ok();
        assert_eq!(
            Replacer::new(find.to_string(), "x".to_string(), None).is_ok(),
            compiles,
            "{:?}",
            find
        );
    }
    for find in ["(", "[a", "*"] {
        assert!(Replacer::new(find.to_string(), "x".to_string(), None).is_err());
    }
}

#[test]
fn escape_by_number_of_any_length_agrees_with_the_standard_library() {
    let texts = [
        "41",
        "0000000041",
        "000000000000000041zz",
        "10ffff",
        "110000",
        "0010FFFF0",
        "ffffffff",
        "100000000",
        "fffffffffffffffffffff",
        "+0000000000041",
        "+",
        "++41",
        "-41",
        "d800",
        "0000d800",
        "4\u{e9}1",
        "",
    ];
    for text in texts {
        let chars: Vec<char> = text.chars().collect();
        for start in 0..=chars.len() {
            let rest: String = chars[start..].iter().collect();
            for length in 0..=24usize {
                let expected = rest
                    .get(0..length)
                    .and_then(|s| u32::from_str_radix(s, 16).ok())
                    .and_then(char::from_u32);
                assert_eq!(
                    escape_n_chars(&chars, start, length),
                    expected,
                    "{:?} from {} for {}",
                    text,
                    start,
                    length
                );
            }
        }
    }
}
