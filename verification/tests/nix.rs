use hull::cmd::judge::{colorize_status, get_subtask_status, to_title_case, StatusColor};
use hull::nix::BuildCommand;
use hull::runner::store::StoreSettings;

fn words(list: &[&str]) -> Vec<String> {
    list.iter().map(|s| s.to_string()).collect()
}

#[test]
fn a_new_command_builds_with_nom() {
    let command = BuildCommand::new();
    assert!(command.uses_nom());
    assert_eq!(command.build_command(), words(&["build", "--log-format", "internal-json", "-v"]));
}

#[test]
fn a_full_command_line() {
    let command = BuildCommand::new()
        .installable(".#a")
        .installable(".#b")
        .expr("{ x }: x")
        .arg("languageName", "null")
        .argstr("srcPath", "/tmp/a.cpp")
        .argstr("problemName", "aPlusB")
        .out_link("result")
        .print_out_paths(true)
        .impure(true)
        .extra_args(&words(&["--show-trace", "-L"]));
    assert_eq!(
        command.build_command(),
        words(&[
            "build",
            ".#a",
            ".#b",
            "--expr",
            "{ x }: x",
            "--arg",
            "languageName",
            "null",
            "--argstr",
            "srcPath",
            "/tmp/a.cpp",
            "--argstr",
            "problemName",
            "aPlusB",
            "--out-link",
            "result",
            "--print-out-paths",
            "--impure",
            "--log-format",
            "internal-json",
            "-v",
            "--show-trace",
            "-L",
        ])
    );
}

#[test]
fn a_named_argument_keeps_its_last_value() {
    let command = BuildCommand::new()
        .with_nom(false)
        .argstr("a", "1")
        .argstr("b", "2")
        .argstr("a", "3")
        .arg("x", "1")
        .arg("x", "2");
    assert_eq!(
        command.build_command(),
        words(&["build", "--arg", "x", "2", "--argstr", "a", "3", "--argstr", "b", "2"])
    );
}

#[test]
fn no_link_and_out_link_exclude_each_other() {
    let command = BuildCommand::new().with_nom(false).out_link("result").no_link(true);
    assert_eq!(command.build_command(), words(&["build", "--no-link"]));
    let command = BuildCommand::new().with_nom(false).no_link(true).out_link("result");
    assert_eq!(command.build_command(), words(&["build", "--out-link", "result"]));
    let command = BuildCommand::new().with_nom(false).out_link("result").no_link(false);
    assert_eq!(command.build_command(), words(&["build", "--out-link", "result"]));
}

#[test]
fn flags_can_be_taken_back() {
    let command = BuildCommand::new()
        .with_nom(false)
        .impure(true)
        .impure(false)
        .print_out_paths(true)
        .print_out_paths(false)
        .expr("a")
        .expr("b");
    assert!(!command.uses_nom());
    assert_eq!(command.build_command(), words(&["build", "--expr", "b"]));
}

#[test]
fn extra_args_add_up() {
    let command = BuildCommand::new()
        .with_nom(false)
        .extra_args(&words(&["a"]))
        .extra_args(&[])
        .extra_args(&words(&["b", "c"]));
    assert_eq!(command.build_command(), words(&["build", "a", "b", "c"]));
}

#[test]
fn title_case() {
    assert_eq!(to_title_case("wrong_answer"), "Wrong Answer");
    assert_eq!(to_title_case("accepted"), "Accepted");
    assert_eq!(to_title_case("time_limit_exceeded"), "Time Limit Exceeded");
    assert_eq!(to_title_case(""), "");
    assert_eq!(to_title_case("_"), " ");
    assert_eq!(to_title_case("a__b_"), "A  B ");
    assert_eq!(to_title_case("N/A"), "N/A");
    assert_eq!(to_title_case("already_Upper"), "Already Upper");
    // one character may become several
    assert_eq!(to_title_case("\u{df}x_\u{e9}t\u{e9}"), "SSx \u{c9}t\u{e9}");
}

#[test]
fn subtask_status() {
    assert_eq!(get_subtask_status(&[]), "N/A");
    assert_eq!(get_subtask_status(&words(&["accepted"])), "accepted");
    assert_eq!(get_subtask_status(&words(&["accepted", "accepted"])), "accepted");
    assert_eq!(
        get_subtask_status(&words(&["accepted", "wrong_answer", "runtime_error"])),
        "wrong_answer"
    );
    assert_eq!(get_subtask_status(&words(&["runtime_error", "accepted"])), "runtime_error");
    assert_eq!(get_subtask_status(&words(&["Accepted"])), "Accepted");
}

#[test]
fn status_colors() {
    assert_eq!(colorize_status("accepted"), Some(StatusColor::Green));
    assert_eq!(colorize_status("wrong_answer"), Some(StatusColor::Red));
    assert_eq!(colorize_status("partially_correct"), Some(StatusColor::Cyan));
    assert_eq!(colorize_status("runtime_error"), Some(StatusColor::Magenta));
    assert_eq!(colorize_status("time_limit_exceeded"), Some(StatusColor::Yellow));
    assert_eq!(colorize_status("memory_limit_exceeded"), Some(StatusColor::Yellow));
    assert_eq!(colorize_status("internal_error"), Some(StatusColor::Grey));
    assert_eq!(colorize_status("N/A"), None);
    assert_eq!(colorize_status(""), None);
}

#[test]
fn store_settings_of_a_run() {
    let settings = StoreSettings::new(&words(&["--seed", "7"]), 65536, 1000, true);
    assert_eq!(settings.random_seed, 0);
    assert_eq!(settings.args, words(&["arg0", "--seed", "7"]));
    assert_eq!(settings.preopen_path, Some("/".to_string()));
    assert_eq!(settings.fuel, 1000);
    assert_eq!(settings.memory_limiter.memory_limit(), 65536);
    assert_eq!(settings.memory_limiter.peak_memory(), 0);
    assert!(!settings.memory_limiter.limit_exceeded());
    let settings = StoreSettings::new(&[], 0, 0, false);
    assert_eq!(settings.args, words(&["arg0"]));
    assert_eq!(settings.preopen_path, None);
}

/// The title of a word, with the iterators of the standard library.
fn title_by_the_book(s: &str) -> String {
    s.split('_')
        .map(|word| {
            let mut c = word.chars();
            match c.next() {
                None => String::new(),
                Some(f) => f.to_uppercase().collect::<String>() + c.as_str(),
            }
        })
        .collect::<Vec<String>>()
        .join(" ")
}

#[test]
fn title_case_agrees_with_the_standard_library() {
    let pieces = ["", "_", "a", "b_", "_c", "wrong", "Answer", "\u{df}", "\u{e9}", "1", " ", "__", "\u{1c6}x"];
    for a in pieces {
        for b in pieces {
            for c in pieces {
                let input = format!("{}{}{}", a, b, c);
                assert_eq!(to_title_case(&input), title_by_the_book(&input), "{:?}", input);
            }
        }
    }
}
