//! The order of the commands of a bootstrap, and the command of each stage.

use crate::command::{
    commit_message, push_word, scaffold_args, scaffold_message, Invocation, InvocationView,
};
use crate::options::{Options, OptionsView};
use vstd::prelude::*;

verus! {

/// The stages of a bootstrap, in the order in which they are reached. Each
/// stage is one command.
#[derive(Clone, Copy, Debug, PartialEq, Eq, Structural)]
pub enum Stage {
    /// `cargo new` makes the project.
    Scaffold,
    /// An empty commit, so that every later commit has a parent.
    RootCommit,
    /// What the scaffold made is staged.
    StageScaffold,
    /// The scaffold is committed, under a message that spells out the
    /// `cargo new` that made it.
    ScaffoldCommit,
    /// `cargo build`, for a binary only.
    Build,
    /// What the build changed is staged.
    StageBuild,
    /// The state after the first build is committed.
    BuildCommit,
}

impl Stage {
    /// The stage that comes after this one, if any: a library is done with
    /// the scaffold commit, a binary goes on to build.
    pub open spec fn following(self, lib: bool) -> Option<Stage> {
        match self {
            Stage::Scaffold => Some(Stage::RootCommit),
            Stage::RootCommit => Some(Stage::StageScaffold),
            Stage::StageScaffold => Some(Stage::ScaffoldCommit),
            Stage::ScaffoldCommit => if lib {
                None
            } else {
                Some(Stage::Build)
            },
            Stage::Build => Some(Stage::StageBuild),
            Stage::StageBuild => Some(Stage::BuildCommit),
            Stage::BuildCommit => None,
        }
    }

    /// The stage every bootstrap starts with.
    pub fn first() -> (stage: Stage)
        ensures
            stage == Stage::Scaffold,
    {
        Stage::Scaffold
    }

    /// The stage to go on with once the command of this one has succeeded.
    pub fn next(self, lib: bool) -> (next: Option<Stage>)
        ensures
            next == self.following(lib),
    {
        match self {
            Stage::Scaffold => Some(Stage::RootCommit),
            Stage::RootCommit => Some(Stage::StageScaffold),
            Stage::StageScaffold => Some(Stage::ScaffoldCommit),
            Stage::ScaffoldCommit => if lib {
                None
            } else {
                Some(Stage::Build)
            },
            Stage::Build => Some(Stage::StageBuild),
            Stage::StageBuild => Some(Stage::BuildCommit),
            Stage::BuildCommit => None,
        }
    }
}

/// All stages of a bootstrap in order: four for a library, seven for a
/// binary.
pub open spec fn plan(lib: bool) -> Seq<Stage> {
    if lib {
        seq![Stage::Scaffold, Stage::RootCommit, Stage::StageScaffold, Stage::ScaffoldCommit]
    } else {
        seq![
            Stage::Scaffold,
            Stage::RootCommit,
            Stage::StageScaffold,
            Stage::ScaffoldCommit,
            Stage::Build,
            Stage::StageBuild,
            Stage::BuildCommit,
        ]
    }
}

/// In the plan, each stage is followed by the one that `following` names,
/// and the last by none.
pub proof fn lemma_plan_links(lib: bool, k: int)
    requires
        0 <= k < plan(lib).len(),
    ensures
        plan(lib)[k].following(lib) == if k + 1 < plan(lib).len() {
            Some(plan(lib)[k + 1])
        } else {
            None
        },
{
}

/// `git` in the directory of the project.
pub open spec fn git(options: OptionsView, args: Seq<Seq<char>>) -> InvocationView {
    InvocationView { program: "git"@, args, dir: Some(options.path) }
}

/// The command of a stage. Only `cargo new` runs where the caller stands;
/// everything after it runs inside the project it made.
pub open spec fn invocation(options: OptionsView, stage: Stage) -> InvocationView {
    match stage {
        Stage::Scaffold => InvocationView {
            program: "cargo"@,
            args: scaffold_args(options),
            dir: None,
        },
        Stage::RootCommit => git(
            options,
            seq!["commit"@, "--allow-empty"@, "--message"@, "bootstrap: root commit"@],
        ),
        Stage::StageScaffold => git(options, seq!["add"@, "."@]),
        Stage::ScaffoldCommit => git(
            options,
            seq!["commit"@, "--message"@, scaffold_message(scaffold_args(options))],
        ),
        Stage::Build => InvocationView {
            program: "cargo"@,
            args: seq!["build"@],
            dir: Some(options.path),
        },
        Stage::StageBuild => git(options, seq!["add"@, "."@]),
        Stage::BuildCommit => git(
            options,
            seq!["commit"@, "--message"@, "bootstrap: initial build"@],
        ),
    }
}

/// `git` with the given arguments, in the directory of the project.
fn git_in_project(options: &Options, args: Vec<String>) -> (command: Invocation)
    ensures
        command@ == git(options@, args.deep_view()),
{
    Invocation { program: "git".to_owned(), args, dir: Some(options.path().clone()) }
}

/// The command to launch at a stage.
pub fn command_for(options: &Options, stage: Stage) -> (command: Invocation)
    ensures
        command@ == invocation(options@, stage),
{
    let mut args: Vec<String> = Vec::new();
    match stage {
        Stage::Scaffold => Invocation {
            program: "cargo".to_owned(),
            args: options.scaffold_args(),
            dir: None,
        },
        Stage::RootCommit => {
            push_word(&mut args, "commit");
            push_word(&mut args, "--allow-empty");
            push_word(&mut args, "--message");
            push_word(&mut args, "bootstrap: root commit");
            assert(args.deep_view() =~= seq![
                "commit"@,
                "--allow-empty"@,
                "--message"@,
                "bootstrap: root commit"@,
            ]);
            git_in_project(options, args)
        },
        Stage::StageScaffold | Stage::StageBuild => {
            push_word(&mut args, "add");
            push_word(&mut args, ".");
            assert(args.deep_view() =~= seq!["add"@, "."@]);
            git_in_project(options, args)
        },
        Stage::ScaffoldCommit => {
            let message = commit_message(options.scaffold_args());
            push_word(&mut args, "commit");
            push_word(&mut args, "--message");
            push_word(&mut args, message.as_str());
            assert(args.deep_view() =~= seq![
                "commit"@,
                "--message"@,
                scaffold_message(scaffold_args(options@)),
            ]);
            git_in_project(options, args)
        },
        Stage::Build => {
            push_word(&mut args, "build");
            assert(args.deep_view() =~= seq!["build"@]);
            Invocation { program: "cargo".to_owned(), args, dir: Some(options.path().clone()) }
        },
        Stage::BuildCommit => {
            push_word(&mut args, "commit");
            push_word(&mut args, "--message");
            push_word(&mut args, "bootstrap: initial build");
            assert(args.deep_view() =~= seq!["commit"@, "--message"@, "bootstrap: initial build"@]);
            git_in_project(options, args)
        },
    }
}

} // verus!
