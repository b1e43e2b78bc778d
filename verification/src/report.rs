//! Telling the user why a bootstrap has stopped.

use crate::run::{CommandError, CommandErrorView};
use crate::text::{join, join_with};
use vstd::prelude::*;
use vstd::string::*;

verus! {

/// The text that `{:?}` writes for a string: the string between double
/// quotes, with the characters escaped that cannot stand there as they are.
pub uninterp spec fn debug_text(text: Seq<char>) -> Seq<char>;

/// Formats a string with `{:?}`, std's `Debug` for `str`.
///
/// Trusted: the text that comes out depends on the characters of the string
/// and on nothing else.
#[verifier::external_body]
fn debug_string(text: &str) -> (shown: String)
    ensures
        shown@ == debug_text(text@),
{
    format!("{text:?}")
}

/// A list as it is shown: the items between square brackets, a comma and a
/// space between each two.
pub open spec fn list_text(items: Seq<Seq<char>>) -> Seq<char> {
    "["@ + join(items, ", "@) + "]"@
}

/// The arguments of a command as they are shown: each as `{:?}` writes it,
/// as a list.
pub open spec fn args_text(args: Seq<Seq<char>>) -> Seq<char> {
    list_text(args.map_values(|arg: Seq<char>| debug_text(arg)))
}

/// An optional item as it is shown: `None`, or the item inside `Some(..)`.
pub open spec fn option_text(item: Option<Seq<char>>) -> Seq<char> {
    match item {
        None => "None"@,
        Some(item) => "Some("@ + item + ")"@,
    }
}

/// The directory of a command as it is shown: as `{:?}` writes it, as an
/// optional item.
pub open spec fn dir_text(dir: Option<Seq<char>>) -> Seq<char> {
    option_text(
        match dir {
            None => None,
            Some(dir) => Some(debug_text(dir)),
        },
    )
}

/// What is said of a command that ran and did not succeed.
pub open spec fn failed_text(
    program: Seq<char>,
    args: Seq<char>,
    dir: Seq<char>,
    status: Seq<char>,
) -> Seq<char> {
    "command "@ + program + " with args "@ + args + " in dir "@ + dir + " failed with status "@
        + status
}

/// What is said of a command that could not be started.
pub open spec fn launch_failed_text(program: Seq<char>, dir: Seq<char>, reason: Seq<char>) -> Seq<
    char,
> {
    "failed to run command "@ + program + " in dir "@ + dir + ": "@ + reason
}

/// What is said of an error.
pub open spec fn message_text(error: CommandErrorView) -> Seq<char> {
    match error {
        CommandErrorView::Failed { command, status, .. } => failed_text(
            command.program,
            args_text(command.args),
            dir_text(command.dir),
            status,
        ),
        CommandErrorView::LaunchFailed { command, reason } => launch_failed_text(
            command.program,
            dir_text(command.dir),
            reason,
        ),
    }
}

/// Puts the items, each already in the form in which it is to be shown, into
/// a list.
pub fn list_of(items: Vec<String>) -> (list: String)
    ensures
        list@ == list_text(items.deep_view()),
{
    let mut list = "[".to_owned();
    list.append(join_with(items, ", ").as_str());
    list.append("]");
    list
}

/// Shows the arguments of a command.
pub fn show_args(args: &Vec<String>) -> (shown: String)
    ensures
        shown@ == args_text(args.deep_view()),
{
    let mut items: Vec<String> = Vec::new();
    let mut i: usize = 0;
    while i < args.len()
        invariant
            i <= args@.len(),
            items@.len() == i,
            forall|k: int| 0 <= k < i ==> (#[trigger] items@[k])@ == debug_text(args@[k]@),
        decreases args@.len() - i,
    {
        items.push(debug_string(args[i].as_str()));
        i += 1;
    }
    assert(items.deep_view() =~= args.deep_view().map_values(|arg: Seq<char>| debug_text(arg)));
    list_of(items)
}

/// Shows an optional item that is already in the form in which it is to be
/// shown.
pub fn option_of(item: Option<String>) -> (shown: String)
    ensures
        shown@ == option_text(item.deep_view()),
{
    match item {
        None => "None".to_owned(),
        Some(item) => {
            let mut shown = "Some(".to_owned();
            shown.append(item.as_str());
            shown.append(")");
            shown
        },
    }
}

/// Shows the directory of a command.
pub fn show_dir(dir: &Option<String>) -> (shown: String)
    ensures
        shown@ == dir_text(dir.deep_view()),
{
    match dir {
        None => option_of(None),
        Some(dir) => option_of(Some(debug_string(dir.as_str()))),
    }
}

/// The message for a command that ran and did not succeed, from the program
/// and from its arguments, its directory and its status as they are to be
/// shown.
pub fn failed_message(program: &str, args: &str, dir: &str, status: &str) -> (message: String)
    ensures
        message@ == failed_text(program@, args@, dir@, status@),
{
    let mut message = "command ".to_owned();
    message.append(program);
    message.append(" with args ");
    message.append(args);
    message.append(" in dir ");
    message.append(dir);
    message.append(" failed with status ");
    message.append(status);
    message
}

/// The message for a command that could not be started, from the program,
/// from its directory as it is to be shown, and from the reason.
pub fn launch_failed_message(program: &str, dir: &str, reason: &str) -> (message: String)
    ensures
        message@ == launch_failed_text(program@, dir@, reason@),
{
    let mut message = "failed to run command ".to_owned();
    message.append(program);
    message.append(" in dir ");
    message.append(dir);
    message.append(": ");
    message.append(reason);
    message
}

impl CommandError {
    /// The message to end the program with.
    pub fn message(&self) -> (message: String)
        ensures
            message@ == message_text(self@),
    {
        match self {
            CommandError::Failed { command, status, .. } => failed_message(
                command.program.as_str(),
                show_args(&command.args).as_str(),
                show_dir(&command.dir).as_str(),
                status.as_str(),
            ),
            CommandError::LaunchFailed { command, reason } => launch_failed_message(
                command.program.as_str(),
                show_dir(&command.dir).as_str(),
                reason.as_str(),
            ),
        }
    }
}

} // verus!
