//! Running a plan of build steps: steps run one after another, and the first
//! failure ends the run with an error that carries the failing step's
//! contexts.
use crate::cargo::CargoCommand;
use crate::plan::Step;
use crate::strings::{copy_strings, views};
use vstd::prelude::*;

verus! {

/// Why a step (or the task selection) failed.
pub enum Failure {
    /// `cargo` ran and exited unsuccessfully ("[xtask] command failed").
    CommandFailed,
    /// `cargo` could not be started; the context names the command, the
    /// reason is the system's message.
    SpawnFailed { context: String, reason: String },
    /// Preparing the embedded Python environment failed, with this message.
    CustomizeFailed(String),
    /// The repository root, where cargo runs, could not be determined
    /// ("[xtask] could not determine repository root").
    NoRepositoryRoot,
    /// The task named on the command line is unknown ("[xtask] invalid xtask
    /// provided").
    InvalidTask,
}

/// What came of performing one step.
pub enum Outcome {
    Succeeded,
    Failed(Failure),
}

/// The error a task ends with: the contexts of the failing step, outermost
/// first, and the failure itself.
pub struct TaskError {
    pub contexts: Vec<String>,
    pub failure: Failure,
}

/// What the driver does next: perform the step at that index of the plan, or
/// finish with the result.
pub enum Directive {
    Execute(usize),
    Finish(Result<(), TaskError>),
}

/// The shape of a [`Directive`]: which step comes next, or whether the run
/// ended well, or ended with the failure of the step at that index.
pub enum DirectiveView {
    Execute(nat),
    Done,
    FailedAt(nat),
}

/// The first directive for a plan of `len` steps.
pub open spec fn spec_start(len: nat) -> DirectiveView {
    if len == 0 {
        DirectiveView::Done
    } else {
        DirectiveView::Execute(0)
    }
}

/// The directive after step `index` of a plan of `len` steps succeeded
/// (`ok`) or failed.
pub open spec fn spec_after(len: nat, index: nat, ok: bool) -> DirectiveView {
    if !ok {
        DirectiveView::FailedAt(index)
    } else if index + 1 < len {
        DirectiveView::Execute(index + 1)
    } else {
        DirectiveView::Done
    }
}

/// The first directive for `plan`: its first step, or success at once when
/// the plan is empty.
pub fn start(plan: &Vec<Step>) -> (d: Directive)
    ensures
        spec_start(plan@.len()) matches DirectiveView::Execute(i) ==> d matches Directive::Execute(
            j,
        ) && j == i,
        spec_start(plan@.len()) is Done ==> d matches Directive::Finish(Ok(())),
{
    if plan.len() == 0 {
        Directive::Finish(Ok(()))
    } else {
        Directive::Execute(0)
    }
}

/// The directive after step `index` of `plan` ended with `outcome`: the next
/// step, success after the last one, or on failure an error that carries the
/// step's contexts and the failure.
pub fn after_step(plan: &Vec<Step>, index: usize, outcome: Outcome) -> (d: Directive)
    requires
        index < plan@.len(),
    ensures
        ({
            let ok = outcome is Succeeded;
            match spec_after(plan@.len(), index as nat, ok) {
                DirectiveView::Execute(i) => d matches Directive::Execute(j) && j == i,
                DirectiveView::Done => d matches Directive::Finish(Ok(())),
                DirectiveView::FailedAt(i) => d matches Directive::Finish(Err(e)) && views(
                    e.contexts@,
                ) == views(plan@[index as int].contexts@) && outcome == Outcome::Failed(e.failure),
            }
        }),
{
    match outcome {
        Outcome::Succeeded => {
            if index < plan.len() - 1 {
                Directive::Execute(index + 1)
            } else {
                Directive::Finish(Ok(()))
            }
        },
        Outcome::Failed(failure) => {
            let contexts = copy_strings(&plan[index].contexts);
            Directive::Finish(Err(TaskError { contexts, failure }))
        },
    }
}

/// The outcome of a cargo run from its exit status: `Ok(success)` when it
/// ran, `Err(reason)` when it could not be started.
pub fn cargo_outcome(command: &CargoCommand, status: Result<bool, String>) -> (o: Outcome)
    ensures
        status matches Ok(true) ==> o is Succeeded,
        status matches Ok(false) ==> o matches Outcome::Failed(Failure::CommandFailed),
        status matches Err(reason) ==> o matches Outcome::Failed(
            Failure::SpawnFailed { context, reason: r },
        ) && r == reason && context@ == "[xtask] cargo "@ + crate::strings::seq_join(
            command@.args,
            ""@,
        ),
{
    match status {
        Ok(true) => Outcome::Succeeded,
        Ok(false) => Outcome::Failed(Failure::CommandFailed),
        Err(reason) => Outcome::Failed(
            Failure::SpawnFailed { context: command.spawn_context(), reason },
        ),
    }
}

/// How a plan of `len` steps runs when driven by [`start`] and
/// [`after_step`] from directive `d`, the steps succeeding as `outcomes`
/// says: how many steps were performed, and whether the run ended well.
pub open spec fn drive(len: nat, outcomes: Seq<bool>, d: DirectiveView) -> (nat, bool)
    decreases
            (match d {
                DirectiveView::Execute(i) => len - i,
                _ => 0,
            }),
{
    match d {
        DirectiveView::Done => (0, true),
        DirectiveView::FailedAt(i) => (i + 1, false),
        DirectiveView::Execute(i) => if i < len {
            let next = spec_after(len, i, outcomes[i as int]);
            match next {
                DirectiveView::Execute(_) => drive(len, outcomes, next),
                DirectiveView::Done => (i + 1, true),
                DirectiveView::FailedAt(_) => (i + 1, false),
            }
        } else {
            (i, false)
        },
    }
}

proof fn lemma_drive_from(len: nat, outcomes: Seq<bool>, i: nat)
    requires
        i < len,
        outcomes.len() >= len,
    ensures
        ({
            let (n, ok) = drive(len, outcomes, DirectiveView::Execute(i));
            &&& i < n <= len
            &&& ok <==> forall|j: int| i <= j < len ==> outcomes[j]
            &&& ok ==> n == len
            &&& !ok ==> !outcomes[n - 1] && forall|j: int| i <= j < n - 1 ==> outcomes[j]
        }),
    decreases len - i,
{
    if outcomes[i as int] && i + 1 < len {
        lemma_drive_from(len, outcomes, i + 1);
    }
}

/// Running a plan performs its steps in order and stops at the first step
/// that fails: the run ends well exactly when every step succeeds, and then
/// every step was performed; otherwise the last step performed is the first
/// one that failed, and every step before it succeeded.
pub proof fn lemma_run_stops_at_first_failure(len: nat, outcomes: Seq<bool>)
    requires
        outcomes.len() >= len,
    ensures
        ({
            let (n, ok) = drive(len, outcomes, spec_start(len));
            &&& n <= len
            &&& ok <==> forall|j: int| 0 <= j < len ==> outcomes[j]
            &&& ok ==> n == len
            &&& !ok ==> 1 <= n && !outcomes[n - 1] && forall|j: int| 0 <= j < n - 1 ==> outcomes[j]
        }),
{
    if len > 0 {
        lemma_drive_from(len, outcomes, 0);
    }
}

} // verus!
