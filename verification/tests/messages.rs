use bootstrap::command::Invocation;
use bootstrap::report::{
    failed_message, launch_failed_message, list_of, option_of, show_args, show_dir,
};
use bootstrap::run::CommandError;

fn owned(words: &[&str]) -> Vec<String> {
    words.iter().map(|word| word.to_string()).collect()
}

fn git_add() -> Invocation {
    Invocation {
        program: "git".to_string(),
        args: owned(&["add", "."]),
        dir: Some("target/foo".to_string()),
    }
}

#[test]
fn list_of_nothing_is_a_pair_of_brackets() {
    assert_eq!(list_of(Vec::new()), "[]");
}

#[test]
fn list_of_items_has_commas_between_them() {
    assert_eq!(list_of(owned(&["1"])), "[1]");
    assert_eq!(list_of(owned(&["1", "2", "3"])), "[1, 2, 3]");
}

#[test]
fn show_args_quotes_every_argument() {
    assert_eq!(show_args(&owned(&["add", "."])), r#"["add", "."]"#);
    assert_eq!(show_args(&owned(&["build"])), r#"["build"]"#);
    assert_eq!(show_args(&Vec::new()), "[]");
}

#[test]
fn show_args_agrees_with_debug_formatting() {
    let samples = [
        owned(&[]),
        owned(&[""]),
        owned(&["new", "--bin", "--name", "foo", "target/foo"]),
        owned(&["commit", "--message", "bootstrap: cargo new my dir"]),
        owned(&["a \"quoted\" word", "back\\slash", "tab\there", "line\nbreak"]),
        owned(&["it's", "caf\u{e9}", "\u{1f980}", "\u{301}mark", "nul\0"]),
    ];
    for sample in samples {
        assert_eq!(show_args(&sample), format!("{sample:?}"));
    }
}

#[test]
fn option_of_nothing_and_of_something() {
    assert_eq!(option_of(None), "None");
    assert_eq!(option_of(Some("7".to_string())), "Some(7)");
    assert_eq!(option_of(Some(String::new())), "Some()");
}

#[test]
fn show_dir_of_no_directory() {
    assert_eq!(show_dir(&None), "None");
}

#[test]
fn show_dir_quotes_the_directory() {
    assert_eq!(show_dir(&Some("target/foo".to_string())), r#"Some("target/foo")"#);
}

#[test]
fn show_dir_agrees_with_debug_formatting() {
    for sample in [None, Some(""), Some("demo"), Some("my \"dir\""), Some("a\\b"), Some("d\u{fc}r")] {
        let dir = sample.map(|dir| dir.to_string());
        assert_eq!(show_dir(&dir), format!("{dir:?}"));
    }
}

#[test]
fn failed_message_names_command_arguments_directory_and_status() {
    assert_eq!(
        failed_message("git", r#"["add", "."]"#, r#"Some("demo")"#, "ExitStatus(unix_wait_status(256))"),
        r#"command git with args ["add", "."] in dir Some("demo") failed with status ExitStatus(unix_wait_status(256))"#
    );
}

#[test]
fn launch_failed_message_names_command_directory_and_reason() {
    assert_eq!(
        launch_failed_message("cargo", "None", "No such file or directory (os error 2)"),
        "failed to run command cargo in dir None: No such file or directory (os error 2)"
    );
}

#[test]
fn message_of_a_failed_command() {
    let error = CommandError::Failed {
        command: git_add(),
        code: Some(128),
        status: "ExitStatus(unix_wait_status(32768))".to_string(),
    };
    assert_eq!(
        error.message(),
        r#"command git with args ["add", "."] in dir Some("target/foo") failed with status ExitStatus(unix_wait_status(32768))"#
    );
}

#[test]
fn message_of_a_failed_scaffold() {
    let error = CommandError::Failed {
        command: Invocation {
            program: "cargo".to_string(),
            args: owned(&["new", "--name", "my app", "demo"]),
            dir: None,
        },
        code: Some(101),
        status: "ExitStatus(unix_wait_status(25856))".to_string(),
    };
    assert_eq!(
        error.message(),
        r#"command cargo with args ["new", "--name", "my app", "demo"] in dir None failed with status ExitStatus(unix_wait_status(25856))"#
    );
}

#[test]
fn message_of_a_command_that_did_not_start() {
    let error = CommandError::LaunchFailed {
        command: git_add(),
        reason: "No such file or directory (os error 2)".to_string(),
    };
    assert_eq!(
        error.message(),
        r#"failed to run command git in dir Some("target/foo"): No such file or directory (os error 2)"#
    );
}
