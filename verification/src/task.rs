//! The task that a command-line word selects, its help text, the context its
//! errors are reported in, and its plan.
use crate::plan::{
    StepView, Step, build, plan_view, prepare, release, run, scan, spec_build, spec_prepare,
    spec_release, spec_run, spec_scan, with_context, within,
};
use crate::cargo::CargoView;
use crate::plan::ActionView;
use crate::runner::Failure;
use crate::strings::{owned, views};
use vstd::prelude::*;

verus! {

/// The tasks of the driver.
#[derive(Clone, Copy, Debug, PartialEq, Eq, Structural)]
pub enum Task {
    Release,
    Run,
    Build,
    Prepare,
    Scan,
    /// Print the list of tasks; `invalid` when an unknown task was named.
    Help { invalid: bool },
}

/// The list of tasks printed as help.
pub const HELP_TEXT: &'static str = "> release\n> build\n> prepare\n> scan\n> bloat\n> ci";

/// The task that the first argument after the program name selects: a known
/// task name selects that task, another word the help for an invalid task,
/// and no word at all the plain help.
pub open spec fn spec_parse_task(arg: Option<Seq<char>>) -> Task {
    match arg {
        None => Task::Help { invalid: false },
        Some(a) => if a == "release"@ {
            Task::Release
        } else if a == "run"@ {
            Task::Run
        } else if a == "build"@ {
            Task::Build
        } else if a == "prepare"@ {
            Task::Prepare
        } else if a == "scan"@ {
            Task::Scan
        } else {
            Task::Help { invalid: true }
        },
    }
}

fn same_text(a: &str, b: &str) -> (r: bool)
    ensures
        r == (a@ == b@),
{
    owned(a) == owned(b)
}

/// Selects the task named by the first argument after the program name.
pub fn parse_task(arg: Option<&str>) -> (t: Task)
    ensures
        t == spec_parse_task(
            match arg {
                Some(a) => Some(a@),
                None => None,
            },
        ),
{
    match arg {
        None => Task::Help { invalid: false },
        Some(a) => if same_text(a, "release") {
            Task::Release
        } else if same_text(a, "run") {
            Task::Run
        } else if same_text(a, "build") {
            Task::Build
        } else if same_text(a, "prepare") {
            Task::Prepare
        } else if same_text(a, "scan") {
            Task::Scan
        } else {
            Task::Help { invalid: true }
        },
    }
}

/// The context in which the driver reports an error of `task`.
pub open spec fn spec_task_context(task: Task) -> Seq<char> {
    match task {
        Task::Release => "[xtask] main release"@,
        Task::Run => "[xtask] main run"@,
        Task::Build => "[xtask] main build"@,
        Task::Prepare => "[xtask] main prepare"@,
        Task::Scan => "[xtask] main scan"@,
        Task::Help { .. } => "[xtask] main show help"@,
    }
}

/// The context in which the driver reports an error of `task`.
pub fn task_context(task: Task) -> (r: String)
    ensures
        r@ == spec_task_context(task),
{
    match task {
        Task::Release => owned("[xtask] main release"),
        Task::Run => owned("[xtask] main run"),
        Task::Build => owned("[xtask] main build"),
        Task::Prepare => owned("[xtask] main prepare"),
        Task::Scan => owned("[xtask] main scan"),
        Task::Help { .. } => owned("[xtask] main show help"),
    }
}

/// What showing the help does: where the text goes, the text, and the
/// result the driver ends with.
pub struct HelpOutput {
    pub to_stderr: bool,
    pub text: String,
    pub result: Result<(), Failure>,
}

/// The help: after an invalid task name the list goes to standard error and
/// the driver fails with an invalid-task error; otherwise it goes to standard
/// output and the driver succeeds.
pub fn help(invalid: bool) -> (h: HelpOutput)
    ensures
        h.to_stderr == invalid,
        h.text@ == HELP_TEXT@,
        invalid ==> h.result matches Err(Failure::InvalidTask),
        !invalid ==> h.result is Ok,
{
    if invalid {
        HelpOutput { to_stderr: true, text: owned(HELP_TEXT), result: Err(Failure::InvalidTask) }
    } else {
        HelpOutput { to_stderr: false, text: owned(HELP_TEXT), result: Ok(()) }
    }
}

/// The plan of `task` for the command line `args` and the PyO3 configuration
/// path, before the driver's context is added; none for the help.
pub open spec fn spec_task_steps(task: Task, args: Seq<Seq<char>>, config_path: Seq<char>) -> Option<
    Seq<StepView>,
> {
    match task {
        Task::Release => Some(spec_release()),
        Task::Run => Some(spec_run(args, config_path)),
        Task::Build => Some(spec_build()),
        Task::Prepare => Some(spec_prepare()),
        Task::Scan => Some(spec_scan()),
        Task::Help { .. } => None,
    }
}

/// The plan that the driver runs for `task`: the task's steps, each within
/// the driver's context for the task; none for the help, which runs no step.
pub fn task_plan(task: Task, args: &Vec<String>, config_path: &str) -> (r: Option<Vec<Step>>)
    ensures
        match spec_task_steps(task, views(args@), config_path@) {
            Some(steps) => r matches Some(p) && plan_view(p@) == within(
                steps,
                spec_task_context(task),
            ),
            None => r is None,
        },
{
    let steps = match task {
        Task::Release => release(),
        Task::Run => run(args, config_path),
        Task::Build => build(),
        Task::Prepare => prepare(),
        Task::Scan => scan(),
        Task::Help { .. } => {
            return None;
        },
    };
    let context = task_context(task);
    Some(with_context(&steps, context.as_str()))
}

/// Only the five task names select a task: `release`, `run`, `build`,
/// `prepare` and `scan` select theirs, every other word the help for an
/// invalid task, and no word the plain help.
pub proof fn lemma_only_task_names_select_tasks(a: Seq<char>)
    ensures
        a == "release"@ ==> spec_parse_task(Some(a)) == Task::Release,
        a == "run"@ ==> spec_parse_task(Some(a)) == Task::Run,
        a == "build"@ ==> spec_parse_task(Some(a)) == Task::Build,
        a == "prepare"@ ==> spec_parse_task(Some(a)) == Task::Prepare,
        a == "scan"@ ==> spec_parse_task(Some(a)) == Task::Scan,
        a != "release"@ && a != "run"@ && a != "build"@ && a != "prepare"@ && a != "scan"@
            ==> spec_parse_task(Some(a)) == (Task::Help { invalid: true }),
        spec_parse_task(None) == (Task::Help { invalid: false }),
{
    reveal_strlit("release");
    reveal_strlit("run");
    reveal_strlit("build");
    reveal_strlit("prepare");
    reveal_strlit("scan");
    // the names differ in length, or (release, prepare) in their first letter
    assert("release"@.len() == 7 && "run"@.len() == 3 && "build"@.len() == 5);
    assert("prepare"@.len() == 7 && "scan"@.len() == 4);
    assert("release"@[0] != "prepare"@[0]);
}

/// The plan the driver runs for `build` is the four `prepare` steps
/// (preparing the embedded Python, `cargo update`, `cargo fix
/// --edition-idioms --allow-dirty --allow-staged`, `cargo clippy
/// --all-features --all-targets`) followed by `cargo build`; the plan for
/// `prepare` is those four steps alone, none of which runs `cargo build`.
/// Every step is reported within the driver's context for the task.
pub proof fn lemma_build_and_prepare_plans(args: Seq<Seq<char>>, config_path: Seq<char>)
    ensures
        ({
            let b = within(
                spec_task_steps(Task::Build, args, config_path)->0,
                spec_task_context(Task::Build),
            );
            let p = within(
                spec_task_steps(Task::Prepare, args, config_path)->0,
                spec_task_context(Task::Prepare),
            );
            let update = ActionView::Cargo(
                CargoView { args: seq!["update"@], set_env: Seq::empty(), remove_env: Seq::empty() },
            );
            let fix = ActionView::Cargo(
                CargoView {
                    args: seq!["fix"@, "--edition-idioms"@, "--allow-dirty"@, "--allow-staged"@],
                    set_env: Seq::empty(),
                    remove_env: Seq::empty(),
                },
            );
            let clippy = ActionView::Cargo(
                CargoView {
                    args: seq!["clippy"@, "--all-features"@, "--all-targets"@],
                    set_env: Seq::empty(),
                    remove_env: Seq::empty(),
                },
            );
            let cargo_build = ActionView::Cargo(
                CargoView { args: seq!["build"@], set_env: Seq::empty(), remove_env: Seq::empty() },
            );
            &&& spec_task_steps(Task::Build, args, config_path) is Some
            &&& spec_task_steps(Task::Prepare, args, config_path) is Some
            &&& b.len() == 5
            &&& p.len() == 4
            &&& b[0].action == ActionView::CustomizeEmbedding && p[0].action == b[0].action
            &&& b[1].action == update && p[1].action == update
            &&& b[2].action == fix && p[2].action == fix
            &&& b[3].action == clippy && p[3].action == clippy
            &&& b[4].action == cargo_build
            &&& forall|i: int| 0 <= i < 4 ==> p[i].action != cargo_build
            &&& forall|i: int| 0 <= i < 5 ==> b[i].contexts[0] == "[xtask] main build"@
            &&& forall|i: int| 0 <= i < 4 ==> p[i].contexts[0] == "[xtask] main prepare"@
        }),
{
    reveal_strlit("update");
    reveal_strlit("build");
    assert("update"@.len() == 6 && "build"@.len() == 5);
    let b = within(spec_build(), "[xtask] main build"@);
    let p = within(spec_prepare(), "[xtask] main prepare"@);
    assert(b.len() == 5 && p.len() == 4);
    assert(forall|i: int| 0 <= i < 5 ==> #[trigger] b[i] == (StepView {
        action: spec_build()[i].action,
        contexts: seq!["[xtask] main build"@].add(spec_build()[i].contexts),
    }));
    assert(forall|i: int| 0 <= i < 4 ==> #[trigger] p[i] == (StepView {
        action: spec_prepare()[i].action,
        contexts: seq!["[xtask] main prepare"@].add(spec_prepare()[i].contexts),
    }));
    assert(spec_prepare()[1].action->0.args[0] == "update"@);
    assert("update"@ != "build"@);
    let cargo_build = ActionView::Cargo(
        CargoView { args: seq!["build"@], set_env: Seq::empty(), remove_env: Seq::empty() },
    );
    assert forall|i: int| 0 <= i < 4 implies p[i].action != cargo_build by {
        assert(p[i].action == spec_prepare()[i].action);
        if i == 1 {
            assert(p[i].action->0.args[0] != cargo_build->0.args[0]);
        } else if i > 1 {
            assert(p[i].action->0.args.len() != cargo_build->0.args.len());
        }
    }
}

} // verus!
