use bootstrap::command::commit_message;
use bootstrap::options::{Options, UsageError};
use bootstrap::text::join_with;
use bootstrap::verbosity::{level_filter, Level, LevelFilter, Verbosity};

fn strings(words: &[&str]) -> Vec<String> {
    words.iter().map(|word| word.to_string()).collect()
}

fn options(bin: bool, lib: bool, name: Option<&str>, path: &str) -> Options {
    Options::new(
        bin,
        lib,
        name.map(|name| name.to_string()),
        Some(path.to_string()),
        Verbosity::new(0, 0),
    )
    .unwrap()
}

#[test]
fn join_of_nothing_is_empty() {
    assert_eq!(join_with(Vec::new(), " "), "");
}

#[test]
fn join_of_one_word_is_the_word() {
    assert_eq!(join_with(strings(&["new"]), " "), "new");
}

#[test]
fn join_of_two_words_has_one_separator() {
    assert_eq!(join_with(strings(&["new", "demo"]), " "), "new demo");
}

#[test]
fn join_of_many_words_has_no_separator_at_either_end() {
    let joined = join_with(strings(&["a", "b", "c", "d"]), " ");
    assert_eq!(joined, "a b c d");
    assert!(!joined.starts_with(' '));
    assert!(!joined.ends_with(' '));
}

#[test]
fn join_keeps_empty_words() {
    assert_eq!(join_with(strings(&["", "a", ""]), " "), " a ");
}

#[test]
fn join_takes_any_separator() {
    assert_eq!(join_with(strings(&["a", "b", "c"]), ", "), "a, b, c");
    assert_eq!(join_with(strings(&["a", "b", "c"]), ""), "abc");
}

#[test]
fn join_is_the_same_from_the_front() {
    let words = strings(&["bootstrap: cargo", "new", "--lib", "x"]);
    let rest = join_with(words[1..].to_vec(), " ");
    assert_eq!(join_with(words.clone(), " "), format!("{} {}", words[0], rest));
}

#[test]
fn scaffold_args_of_a_named_binary() {
    let options = options(true, false, Some("foo"), "target/foo");
    assert_eq!(
        options.scaffold_args(),
        strings(&["new", "--bin", "--name", "foo", "target/foo"])
    );
}

#[test]
fn scaffold_message_of_a_named_binary() {
    let options = options(true, false, Some("foo"), "target/foo");
    assert_eq!(
        commit_message(options.scaffold_args()),
        "bootstrap: cargo new --bin --name foo target/foo"
    );
}

#[test]
fn scaffold_args_without_flags_are_subcommand_and_path() {
    let options = options(false, false, None, "demo");
    assert_eq!(options.scaffold_args(), strings(&["new", "demo"]));
}

#[test]
fn scaffold_args_of_a_library() {
    let options = options(false, true, None, "libs/demo");
    assert_eq!(options.scaffold_args(), strings(&["new", "--lib", "libs/demo"]));
}

#[test]
fn scaffold_args_put_the_name_before_the_path() {
    let options = options(false, true, Some("other"), "demo");
    assert_eq!(
        options.scaffold_args(),
        strings(&["new", "--lib", "--name", "other", "demo"])
    );
}

#[test]
fn scaffold_args_end_with_the_path() {
    for (bin, lib) in [(false, false), (true, false), (false, true)] {
        for name in [None, Some("n")] {
            let args = options(bin, lib, name, "some/where").scaffold_args();
            assert_eq!(args.first().unwrap(), "new");
            assert_eq!(args.last().unwrap(), "some/where");
        }
    }
}

#[test]
fn commit_message_puts_the_label_first() {
    assert_eq!(commit_message(strings(&["new", "demo"])), "bootstrap: cargo new demo");
}

#[test]
fn commit_message_of_no_arguments_is_the_label() {
    assert_eq!(commit_message(Vec::new()), "bootstrap: cargo");
}

#[test]
fn commit_message_keeps_spaces_inside_arguments() {
    assert_eq!(
        commit_message(strings(&["new", "--name", "my app", "my dir"])),
        "bootstrap: cargo new --name my app my dir"
    );
}

#[test]
fn both_templates_are_turned_down() {
    let options = Options::new(true, true, None, Some("demo".to_string()), Verbosity::new(0, 0));
    assert_eq!(options.unwrap_err(), UsageError::ConflictingTemplates);
}

#[test]
fn both_templates_are_turned_down_whatever_else_is_given() {
    for name in [None, Some("n".to_string())] {
        for path in [None, Some("p".to_string())] {
            for (verbose, quiet) in [(0, 0), (3, 0), (0, 2)] {
                let options =
                    Options::new(true, true, name.clone(), path.clone(), Verbosity::new(verbose, quiet));
                assert_eq!(options.unwrap_err(), UsageError::ConflictingTemplates);
            }
        }
    }
}

#[test]
fn a_missing_path_is_turned_down() {
    let options = Options::new(true, false, None, None, Verbosity::new(0, 0));
    assert_eq!(options.unwrap_err(), UsageError::MissingPath);
}

#[test]
fn options_keep_what_was_given() {
    let options = Options::new(
        false,
        true,
        Some("other".to_string()),
        Some("demo".to_string()),
        Verbosity::new(2, 0),
    )
    .unwrap();
    assert!(!options.bin());
    assert!(options.lib());
    assert_eq!(options.name(), &Some("other".to_string()));
    assert_eq!(options.path(), "demo");
    assert_eq!(options.verbosity(), Verbosity { verbose: 2, quiet: 0 });
}

#[test]
fn log_level_starts_at_info() {
    assert_eq!(Verbosity::new(0, 0).log_level(), Some(Level::Info));
}

#[test]
fn log_level_goes_up_with_verbose() {
    assert_eq!(Verbosity::new(1, 0).log_level(), Some(Level::Debug));
    assert_eq!(Verbosity::new(2, 0).log_level(), Some(Level::Trace));
    assert_eq!(Verbosity::new(3, 0).log_level(), Some(Level::Trace));
    assert_eq!(Verbosity::new(255, 0).log_level(), Some(Level::Trace));
}

#[test]
fn log_level_goes_down_with_quiet() {
    assert_eq!(Verbosity::new(0, 1).log_level(), Some(Level::Warn));
    assert_eq!(Verbosity::new(0, 2).log_level(), Some(Level::Error));
    assert_eq!(Verbosity::new(0, 3).log_level(), None);
    assert_eq!(Verbosity::new(0, 4).log_level(), None);
    assert_eq!(Verbosity::new(0, 255).log_level(), None);
}

#[test]
fn log_level_weighs_verbose_against_quiet() {
    assert_eq!(Verbosity::new(255, 255).log_level(), Some(Level::Info));
    assert_eq!(Verbosity::new(4, 3).log_level(), Some(Level::Debug));
    assert_eq!(Verbosity::new(1, 3).log_level(), Some(Level::Error));
    assert_eq!(Verbosity::new(250, 255).log_level(), None);
}

#[test]
fn level_filter_of_every_level() {
    assert_eq!(level_filter(None), LevelFilter::Off);
    assert_eq!(level_filter(Some(Level::Error)), LevelFilter::Error);
    assert_eq!(level_filter(Some(Level::Warn)), LevelFilter::Warn);
    assert_eq!(level_filter(Some(Level::Info)), LevelFilter::Info);
    assert_eq!(level_filter(Some(Level::Debug)), LevelFilter::Debug);
    assert_eq!(level_filter(Some(Level::Trace)), LevelFilter::Trace);
}

#[test]
fn default_filter_follows_the_flags() {
    assert_eq!(Verbosity::new(0, 0).default_filter(), LevelFilter::Info);
    assert_eq!(Verbosity::new(0, 3).default_filter(), LevelFilter::Off);
    assert_eq!(Verbosity::new(2, 0).default_filter(), LevelFilter::Trace);
    assert_eq!(Verbosity::new(0, 1).default_filter(), LevelFilter::Warn);
}
