//! Going through the stages: what follows from the way a command ended, and
//! a whole run against outcomes that are known beforehand.

use crate::command::{scaffold_args, Invocation, InvocationView};
use crate::options::{Options, OptionsView};
use crate::sequence::{command_for, invocation, lemma_plan_links, plan, Stage};
use vstd::prelude::*;

verus! {

/// How the launch of a command ended.
#[derive(Clone, Debug, PartialEq, Eq)]
pub enum Outcome {
    /// The process ran and has ended. `code` is its exit code, `None` where a
    /// signal ended it; `status` is the platform's description of the way it
    /// ended.
    Exited { code: Option<i32>, status: String },
    /// The process could not be started; `reason` is the error of the
    /// operating system.
    NotLaunched { reason: String },
}

/// An outcome as plain values.
pub enum OutcomeView {
    Exited { code: Option<i32>, status: Seq<char> },
    NotLaunched { reason: Seq<char> },
}

impl View for Outcome {
    type V = OutcomeView;

    open spec fn view(&self) -> OutcomeView {
        match self {
            Outcome::Exited { code, status } => OutcomeView::Exited {
                code: *code,
                status: status@,
            },
            Outcome::NotLaunched { reason } => OutcomeView::NotLaunched { reason: reason@ },
        }
    }
}

impl DeepView for Outcome {
    type V = OutcomeView;

    open spec fn deep_view(&self) -> OutcomeView {
        self@
    }
}

impl OutcomeView {
    /// A command has succeeded when its process ended with exit code 0.
    pub open spec fn success(self) -> bool {
        self matches OutcomeView::Exited { code, .. } && code == Some(0i32)
    }
}

/// Why a bootstrap stops before its last stage is done.
#[derive(Clone, Debug, PartialEq, Eq)]
pub enum CommandError {
    /// The command ran and did not end with exit code 0.
    Failed { command: Invocation, code: Option<i32>, status: String },
    /// The command could not be started.
    LaunchFailed { command: Invocation, reason: String },
}

/// A command error as plain values.
pub enum CommandErrorView {
    Failed { command: InvocationView, code: Option<i32>, status: Seq<char> },
    LaunchFailed { command: InvocationView, reason: Seq<char> },
}

impl View for CommandError {
    type V = CommandErrorView;

    open spec fn view(&self) -> CommandErrorView {
        match self {
            CommandError::Failed { command, code, status } => CommandErrorView::Failed {
                command: command@,
                code: *code,
                status: status@,
            },
            CommandError::LaunchFailed { command, reason } => CommandErrorView::LaunchFailed {
                command: command@,
                reason: reason@,
            },
        }
    }
}

/// The result with its error, if any, as plain values.
pub open spec fn plain<T>(result: Result<T, CommandError>) -> Result<T, CommandErrorView> {
    match result {
        Ok(value) => Ok(value),
        Err(error) => Err(error@),
    }
}

/// What the outcome of a command means to the one who launched it: nothing
/// to report after exit code 0, and otherwise the error that names the
/// command and the way it ended.
pub open spec fn verdict(command: InvocationView, outcome: OutcomeView) -> Result<
    (),
    CommandErrorView,
> {
    match outcome {
        OutcomeView::Exited { code, status } => if code == Some(0i32) {
            Ok(())
        } else {
            Err(CommandErrorView::Failed { command, code, status })
        },
        OutcomeView::NotLaunched { reason } => Err(
            CommandErrorView::LaunchFailed { command, reason },
        ),
    }
}

/// Where a bootstrap stands after the command of `stage` ended in `outcome`:
/// at the next stage, at its end, or at the error that stops it.
pub open spec fn step_outcome(options: OptionsView, stage: Stage, outcome: OutcomeView) -> Result<
    Option<Stage>,
    CommandErrorView,
> {
    match verdict(invocation(options, stage), outcome) {
        Ok(()) => Ok(stage.following(options.lib)),
        Err(error) => Err(error),
    }
}

impl Outcome {
    /// Whether the command has succeeded.
    pub fn success(&self) -> (success: bool)
        ensures
            success == self@.success(),
    {
        match self {
            Outcome::Exited { code, .. } => match code {
                Some(code) => *code == 0,
                None => false,
            },
            Outcome::NotLaunched { .. } => false,
        }
    }
}

/// Judges a command by the way it ended.
pub fn command_result(command: Invocation, outcome: &Outcome) -> (result: Result<
    (),
    CommandError,
>)
    ensures
        result is Ok <==> outcome@.success(),
        plain(result) == verdict(command@, outcome@),
{
    match outcome {
        Outcome::Exited { code, status } => {
            if outcome.success() {
                Ok(())
            } else {
                Err(CommandError::Failed { command, code: *code, status: status.clone() })
            }
        },
        Outcome::NotLaunched { reason } => Err(
            CommandError::LaunchFailed { command, reason: reason.clone() },
        ),
    }
}

/// Takes the outcome of the command of `stage` and says how to go on:
/// `Ok(Some(next))` to launch the command of `next`, `Ok(None)` when the
/// bootstrap is complete, and the error when it has to stop.
pub fn step(options: &Options, stage: Stage, outcome: &Outcome) -> (result: Result<
    Option<Stage>,
    CommandError,
>)
    ensures
        result is Ok <==> outcome@.success(),
        plain(result) == step_outcome(options@, stage, outcome@),
{
    match command_result(command_for(options, stage), outcome) {
        Ok(()) => Ok(stage.next(options.lib())),
        Err(error) => Err(error),
    }
}

/// A run of the bootstrap as far as it got: the commands that were launched,
/// in order, and how it ended. There is no end yet where the last command
/// was launched and its outcome is not known.
#[derive(Clone, Debug, PartialEq, Eq)]
pub struct Run {
    pub launched: Vec<Invocation>,
    pub result: Option<Result<(), CommandError>>,
}

/// A run told by its stages.
pub struct RunView {
    pub launched: Seq<Stage>,
    pub result: Option<Result<(), CommandErrorView>>,
}

/// The run that starts with the command of `stage`, where `outcomes` holds
/// the outcomes of the commands in the order of their launch. A command is
/// launched only after every command before it has succeeded.
pub open spec fn run_from(options: OptionsView, stage: Stage, outcomes: Seq<OutcomeView>) -> RunView
    decreases outcomes.len(),
{
    if outcomes.len() == 0 {
        RunView { launched: seq![stage], result: None }
    } else {
        match step_outcome(options, stage, outcomes[0]) {
            Err(error) => RunView { launched: seq![stage], result: Some(Err(error)) },
            Ok(None) => RunView { launched: seq![stage], result: Some(Ok(())) },
            Ok(Some(next)) => {
                let rest = run_from(options, next, outcomes.skip(1));
                RunView { launched: seq![stage] + rest.launched, result: rest.result }
            },
        }
    }
}

/// The run of a whole bootstrap: it starts with `cargo new`.
pub open spec fn run(options: OptionsView, outcomes: Seq<OutcomeView>) -> RunView {
    run_from(options, Stage::Scaffold, outcomes)
}

/// The commands of the stages.
pub open spec fn commands(options: OptionsView, stages: Seq<Stage>) -> Seq<InvocationView> {
    stages.map_values(|stage: Stage| invocation(options, stage))
}

/// The end of a run with its error, if any, as plain values.
pub open spec fn plain_end(result: Option<Result<(), CommandError>>) -> Option<
    Result<(), CommandErrorView>,
> {
    match result {
        None => None,
        Some(result) => Some(plain(result)),
    }
}

/// Goes through a bootstrap without launching anything: the outcome of the
/// first command is taken from `outcomes[0]`, that of the second from
/// `outcomes[1]`, and so on. Tells which commands a launcher would have been
/// asked for, and how the bootstrap would have ended.
pub fn replay(options: &Options, outcomes: &Vec<Outcome>) -> (run: Run)
    ensures
        run.launched@.len() == self::run(options@, outcomes.deep_view()).launched.len(),
        run.launched.deep_view() == commands(
            options@,
            self::run(options@, outcomes.deep_view()).launched,
        ),
        plain_end(run.result) == self::run(options@, outcomes.deep_view()).result,
{
    let ghost whole = self::run(options@, outcomes.deep_view());
    let ghost mut done: Seq<Stage> = Seq::empty();
    let mut launched: Vec<Invocation> = Vec::new();
    let mut stage = Stage::first();
    let mut i: usize = 0;
    assert(outcomes.deep_view().skip(0) =~= outcomes.deep_view());
    assert(launched.deep_view() =~= commands(options@, done));
    loop
        invariant
            i <= outcomes@.len(),
            whole == self::run(options@, outcomes.deep_view()),
            launched@.len() == done.len(),
            launched.deep_view() == commands(options@, done),
            whole.launched == done + run_from(
                options@,
                stage,
                outcomes.deep_view().skip(i as int),
            ).launched,
            whole.result == run_from(options@, stage, outcomes.deep_view().skip(i as int)).result,
        decreases outcomes@.len() - i,
    {
        let ghost left = outcomes.deep_view().skip(i as int);
        let ghost before = launched;
        launched.push(command_for(options, stage));
        proof {
            assert forall|j: int| 0 <= j < launched@.len() implies #[trigger] launched.deep_view()[j]
                == commands(options@, done.push(stage))[j] by {
                if j < before@.len() {
                    assert(before.deep_view()[j] == commands(options@, done)[j]);
                    assert(launched@[j] == before@[j]);
                }
            }
            assert(launched.deep_view() =~= commands(options@, done.push(stage)));
            assert(done.push(stage) =~= done + seq![stage]);
        }
        if i == outcomes.len() {
            return Run { launched, result: None };
        }
        proof {
            assert(left[0] == outcomes@[i as int]@);
            assert(left.skip(1) =~= outcomes.deep_view().skip(i as int + 1));
        }
        match step(options, stage, &outcomes[i]) {
            Err(error) => {
                return Run { launched, result: Some(Err(error)) };
            },
            Ok(None) => {
                return Run { launched, result: Some(Ok(())) };
            },
            Ok(Some(next)) => {
                proof {
                    let rest = run_from(options@, next, left.skip(1));
                    assert(done + (seq![stage] + rest.launched) =~= done.push(stage)
                        + rest.launched);
                    done = done.push(stage);
                }
                stage = next;
                i += 1;
            },
        }
    }
}

/// The shape of a run that starts at the stage at index `k` of the plan.
proof fn lemma_run_from_shape(options: OptionsView, k: int, outcomes: Seq<OutcomeView>)
    requires
        0 <= k < plan(options.lib).len(),
    ensures
        ({
            let stages = plan(options.lib);
            let run = run_from(options, stages[k], outcomes);
            let n = run.launched.len() as int;
            &&& 1 <= n <= stages.len() - k
            &&& n <= outcomes.len() + 1
            &&& run.launched == stages.subrange(k, k + n)
            &&& forall|j: int| 0 <= j < n - 1 ==> (#[trigger] outcomes[j]).success()
            &&& n == outcomes.len() + 1 ==> run.result is None
            &&& n <= outcomes.len() ==> run.result == Some(
                verdict(invocation(options, stages[k + n - 1]), outcomes[n - 1]),
            )
            &&& run.result == Some(Ok::<(), CommandErrorView>(())) ==> k + n == stages.len()
        }),
    decreases outcomes.len(),
{
    let stages = plan(options.lib);
    let run = run_from(options, stages[k], outcomes);
    lemma_plan_links(options.lib, k);
    if outcomes.len() == 0 {
        assert(run.launched =~= stages.subrange(k, k + 1));
    } else {
        match step_outcome(options, stages[k], outcomes[0]) {
            Err(error) => {
                assert(run.launched =~= stages.subrange(k, k + 1));
            },
            Ok(None) => {
                assert(run.launched =~= stages.subrange(k, k + 1));
            },
            Ok(Some(next)) => {
                let later = outcomes.skip(1);
                let rest = run_from(options, next, later);
                lemma_run_from_shape(options, k + 1, later);
                let n = run.launched.len() as int;
                assert(run.launched =~= stages.subrange(k, k + n));
                assert forall|j: int| 0 <= j < n - 1 implies (#[trigger] outcomes[j]).success() by {
                    if j > 0 {
                        assert(later[j - 1].success());
                    }
                }
                if n <= outcomes.len() {
                    assert(later[n - 2] == outcomes[n - 1]);
                }
            },
        }
    }
}

/// A run goes through the plan from its start, without leaving a stage out
/// or taking one twice: the stages launched are the first stages of the plan,
/// at least one and at most all of them. Every command but the last one
/// launched has succeeded; the run has no end yet where the outcome of the
/// last one is not known, and otherwise ends as that outcome says.
pub proof fn lemma_run_follows_plan(options: OptionsView, outcomes: Seq<OutcomeView>)
    ensures
        ({
            let run = run(options, outcomes);
            let n = run.launched.len() as int;
            &&& 1 <= n <= plan(options.lib).len()
            &&& n <= outcomes.len() + 1
            &&& run.launched == plan(options.lib).take(n)
            &&& forall|j: int| 0 <= j < n - 1 ==> (#[trigger] outcomes[j]).success()
            &&& n == outcomes.len() + 1 ==> run.result is None
            &&& n <= outcomes.len() ==> run.result == Some(
                verdict(invocation(options, run.launched[n - 1]), outcomes[n - 1]),
            )
            &&& run.result == Some(Ok::<(), CommandErrorView>(())) ==> n == plan(options.lib).len()
        }),
{
    lemma_run_from_shape(options, 0, outcomes);
    let n = run(options, outcomes).launched.len() as int;
    assert(plan(options.lib).subrange(0, n) =~= plan(options.lib).take(n));
}

/// Whatever the outcomes, `cargo new` is launched exactly once: it is the
/// first command of every run and no later one.
pub proof fn lemma_scaffold_launched_once(options: OptionsView, outcomes: Seq<OutcomeView>)
    ensures
        ({
            let launched = run(options, outcomes).launched;
            &&& launched.len() >= 1
            &&& forall|i: int|
                0 <= i < launched.len() ==> (#[trigger] launched[i] == Stage::Scaffold <==> i
                    == 0)
        }),
{
    lemma_run_follows_plan(options, outcomes);
}

/// No stage but the first launches `cargo new`.
pub proof fn lemma_only_scaffold_is_cargo_new(options: OptionsView, stage: Stage)
    ensures
        invocation(options, Stage::Scaffold).program == "cargo"@,
        invocation(options, Stage::Scaffold).args == scaffold_args(options),
        invocation(options, Stage::Scaffold).args[0] == "new"@,
        stage != Stage::Scaffold ==> !(invocation(options, stage).program == "cargo"@
            && invocation(options, stage).args[0] == "new"@),
{
    reveal_strlit("cargo");
    reveal_strlit("git");
    reveal_strlit("new");
    reveal_strlit("build");
    assert("git"@.len() != "cargo"@.len());
    assert("build"@.len() != "new"@.len());
    if stage == Stage::Build {
        assert(invocation(options, stage).args[0] == "build"@);
    }
}

/// For a library nothing is built: whatever the outcomes, no command of the
/// build stages is launched, and a run that ends well has launched the four
/// stages up to the scaffold commit.
pub proof fn lemma_library_never_builds(options: OptionsView, outcomes: Seq<OutcomeView>)
    requires
        options.lib,
    ensures
        ({
            let run = run(options, outcomes);
            &&& forall|i: int|
                0 <= i < run.launched.len() ==> {
                    let stage = #[trigger] run.launched[i];
                    stage != Stage::Build && stage != Stage::StageBuild && stage
                        != Stage::BuildCommit
                }
            &&& run.result == Some(Ok::<(), CommandErrorView>(())) ==> run.launched == plan(true)
        }),
{
    lemma_run_follows_plan(options, outcomes);
    let run = run(options, outcomes);
    if run.result == Some(Ok::<(), CommandErrorView>(())) {
        assert(plan(true).take(4) =~= plan(true));
    }
}

/// For a binary the build comes after the scaffold commit and at most once:
/// the build can only be the fifth command and its commit only the seventh.
/// A run that ends well has launched all seven stages, so exactly one build
/// and one build commit.
pub proof fn lemma_binary_builds_once(options: OptionsView, outcomes: Seq<OutcomeView>)
    requires
        !options.lib,
    ensures
        ({
            let run = run(options, outcomes);
            &&& forall|i: int|
                0 <= i < run.launched.len() ==> {
                    let stage = #[trigger] run.launched[i];
                    &&& stage == Stage::ScaffoldCommit <==> i == 3
                    &&& stage == Stage::Build <==> i == 4
                    &&& stage == Stage::BuildCommit <==> i == 6
                }
            &&& run.result == Some(Ok::<(), CommandErrorView>(())) ==> run.launched == plan(false)
        }),
{
    lemma_run_follows_plan(options, outcomes);
    let run = run(options, outcomes);
    if run.result == Some(Ok::<(), CommandErrorView>(())) {
        assert(plan(false).take(7) =~= plan(false));
    }
}

/// A command that does not succeed is the last one: if the command launched
/// at position `k` ends in anything but exit code 0, nothing is launched
/// after it and the run ends in the error of that command.
pub proof fn lemma_failure_ends_run(options: OptionsView, outcomes: Seq<OutcomeView>, k: int)
    requires
        0 <= k < run(options, outcomes).launched.len(),
        k < outcomes.len(),
        !outcomes[k].success(),
    ensures
        ({
            let run = run(options, outcomes);
            &&& run.launched.len() == k + 1
            &&& run.result == Some(verdict(invocation(options, run.launched[k]), outcomes[k]))
            &&& run.result matches Some(Err(_))
        }),
{
    lemma_run_follows_plan(options, outcomes);
}

/// A command is launched as soon as every command before it has succeeded:
/// the command of the stage at position `k` of the plan is the one launched
/// at position `k` of the run.
pub proof fn lemma_success_goes_on(options: OptionsView, outcomes: Seq<OutcomeView>, k: int)
    requires
        0 <= k < plan(options.lib).len(),
        k <= outcomes.len(),
        forall|j: int| 0 <= j < k ==> (#[trigger] outcomes[j]).success(),
    ensures
        k < run(options, outcomes).launched.len(),
        run(options, outcomes).launched[k] == plan(options.lib)[k],
{
    lemma_run_follows_plan(options, outcomes);
    let n = run(options, outcomes).launched.len() as int;
    if n <= k {
        assert(outcomes[n - 1].success());
    }
}

/// A bootstrap ends well only if every command it has launched has ended
/// with exit code 0, and only after the last stage of its plan.
pub proof fn lemma_success_is_complete(options: OptionsView, outcomes: Seq<OutcomeView>)
    requires
        run(options, outcomes).result == Some(Ok::<(), CommandErrorView>(())),
    ensures
        run(options, outcomes).launched == plan(options.lib),
        forall|j: int| 0 <= j < plan(options.lib).len() ==> (#[trigger] outcomes[j]).success(),
{
    lemma_run_follows_plan(options, outcomes);
    let n = plan(options.lib).len() as int;
    assert(plan(options.lib).take(n) =~= plan(options.lib));
}

} // verus!
