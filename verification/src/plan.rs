//! The build tasks of the `xtask` driver, each a plan of steps: which task a
//! command-line word selects, and which steps (with which error contexts) it
//! runs.
use crate::cargo::{CargoCommand, CargoView, cargo, cargo_from_env, spec_cargo_from_env};
use crate::strings::{copy_strings, owned, str_views, views};
use vstd::prelude::*;

verus! {

/// One unit of work of a task.
pub enum Action {
    /// Prepare the embedded Python environment (distribution, standard
    /// library, PyO3 configuration).
    CustomizeEmbedding,
    /// Run cargo.
    Cargo(CargoCommand),
}

/// The mathematical content of an [`Action`].
pub enum ActionView {
    CustomizeEmbedding,
    Cargo(CargoView),
}

impl View for Action {
    type V = ActionView;

    open spec fn view(&self) -> ActionView {
        match self {
            Action::CustomizeEmbedding => ActionView::CustomizeEmbedding,
            Action::Cargo(c) => ActionView::Cargo(c@),
        }
    }
}

impl Action {
    /// An independent copy of this action.
    pub fn duplicate(&self) -> (r: Action)
        ensures
            r@ == self@,
    {
        match self {
            Action::CustomizeEmbedding => Action::CustomizeEmbedding,
            Action::Cargo(c) => Action::Cargo(c.duplicate()),
        }
    }
}

/// A step of a plan: the action and the contexts its failure is reported
/// in, outermost first.
pub struct Step {
    pub action: Action,
    pub contexts: Vec<String>,
}

/// The mathematical content of a [`Step`].
pub struct StepView {
    pub action: ActionView,
    pub contexts: Seq<Seq<char>>,
}

impl View for Step {
    type V = StepView;

    open spec fn view(&self) -> StepView {
        StepView { action: self.action@, contexts: views(self.contexts@) }
    }
}

/// The mathematical content of a plan.
pub open spec fn plan_view(plan: Seq<Step>) -> Seq<StepView> {
    plan.map_values(|s: Step| s@)
}

/// A step that runs `cargo <args>` with the inherited environment.
pub open spec fn cargo_step(args: Seq<Seq<char>>, contexts: Seq<Seq<char>>) -> StepView {
    StepView { action: ActionView::Cargo(spec_cargo_from_env(args, None)), contexts }
}

/// `plan` with `context` added as the outermost context of every step.
pub open spec fn within(plan: Seq<StepView>, context: Seq<char>) -> Seq<StepView> {
    plan.map_values(
        |s: StepView| StepView { action: s.action, contexts: seq![context].add(s.contexts) },
    )
}

/// The `prepare` task: prepare the embedded Python environment, then
/// `cargo update`, `cargo fix --edition-idioms --allow-dirty --allow-staged`
/// and `cargo clippy --all-features --all-targets`.
pub open spec fn spec_prepare() -> Seq<StepView> {
    seq![
        StepView {
            action: ActionView::CustomizeEmbedding,
            contexts: seq!["python_embedding_customizebuild_customize"@],
        },
        cargo_step(seq!["update"@], seq!["update"@]),
        cargo_step(
            seq!["fix"@, "--edition-idioms"@, "--allow-dirty"@, "--allow-staged"@],
            seq!["fix"@],
        ),
        cargo_step(seq!["clippy"@, "--all-features"@, "--all-targets"@], seq!["clippy"@]),
    ]
}

/// The `scan` task: `cargo audit`.
pub open spec fn spec_scan() -> Seq<StepView> {
    seq![cargo_step(seq!["audit"@], Seq::empty())]
}

/// The `build` task: `prepare`, then `cargo build`.
pub open spec fn spec_build() -> Seq<StepView> {
    spec_prepare().push(cargo_step(seq!["build"@], Seq::empty()))
}

/// The `release` task: `prepare` and `scan`, each within its own context,
/// then `cargo build --release`.
pub open spec fn spec_release() -> Seq<StepView> {
    within(spec_prepare(), "prepare"@).add(within(spec_scan(), "scan"@)).push(
        cargo_step(seq!["build"@, "--release"@], seq!["build --release"@]),
    )
}

/// The arguments after the program name and the task name.
pub open spec fn forwarded(args: Seq<Seq<char>>) -> Seq<Seq<char>> {
    if args.len() <= 2 {
        Seq::empty()
    } else {
        args.subrange(2, args.len() as int)
    }
}

/// The `run` task: `prepare`, then `cargo run` with the arguments that
/// followed the task name and `PYO3_CONFIG_FILE` set to the configuration
/// path.
pub open spec fn spec_run(args: Seq<Seq<char>>, config_path: Seq<char>) -> Seq<StepView> {
    spec_prepare().push(
        StepView {
            action: ActionView::Cargo(
                CargoView {
                    args: seq!["run"@].add(forwarded(args)),
                    set_env: seq![("PYO3_CONFIG_FILE"@, config_path)],
                    remove_env: Seq::empty(),
                },
            ),
            contexts: Seq::empty(),
        },
    )
}

fn no_contexts() -> (r: Vec<String>)
    ensures
        views(r@) == Seq::<Seq<char>>::empty(),
{
    let r: Vec<String> = Vec::new();
    assert(views(r@) =~= Seq::<Seq<char>>::empty());
    r
}

fn one_context(context: &str) -> (r: Vec<String>)
    ensures
        views(r@) == seq![context@],
{
    let mut r: Vec<String> = Vec::new();
    r.push(owned(context));
    assert(views(r@) =~= seq![context@]);
    r
}

fn cargo_with(args: &[&str], contexts: Vec<String>) -> (s: Step)
    ensures
        s@ == cargo_step(str_views(args@), views(contexts@)),
{
    Step { action: Action::Cargo(cargo(args)), contexts }
}

/// Prepends `context` to the contexts of every step of `plan`.
pub fn with_context(plan: &Vec<Step>, context: &str) -> (r: Vec<Step>)
    ensures
        plan_view(r@) == within(plan_view(plan@), context@),
{
    let mut r: Vec<Step> = Vec::new();
    let mut i: usize = 0;
    while i < plan.len()
        invariant
            i <= plan@.len(),
            r@.len() == i,
            forall|j: int|
                0 <= j < i ==> (#[trigger] r@[j])@ == within(plan_view(plan@), context@)[j],
        decreases plan@.len() - i,
    {
        let mut contexts = one_context(context);
        let mut rest = copy_strings(&plan[i].contexts);
        let ghost inner = views(rest@);
        contexts.append(&mut rest);
        assert(views(contexts@) =~= seq![context@].add(inner));
        r.push(Step { action: plan[i].action.duplicate(), contexts });
        i = i + 1;
    }
    assert(plan_view(r@) =~= within(plan_view(plan@), context@));
    r
}

/// The steps of the `prepare` task.
pub fn prepare() -> (r: Vec<Step>)
    ensures
        plan_view(r@) == spec_prepare(),
{
    let customize = Step {
        action: Action::CustomizeEmbedding,
        contexts: one_context("python_embedding_customizebuild_customize"),
    };
    let update = ["update"];
    assert(update@ =~= seq!["update"]);
    assert(str_views(update@) =~= seq!["update"@]);
    let fix = ["fix", "--edition-idioms", "--allow-dirty", "--allow-staged"];
    assert(fix@ =~= seq!["fix", "--edition-idioms", "--allow-dirty", "--allow-staged"]);
    assert(str_views(fix@) =~= seq!["fix"@, "--edition-idioms"@, "--allow-dirty"@, "--allow-staged"@]);
    let clippy = ["clippy", "--all-features", "--all-targets"];
    assert(clippy@ =~= seq!["clippy", "--all-features", "--all-targets"]);
    assert(str_views(clippy@) =~= seq!["clippy"@, "--all-features"@, "--all-targets"@]);
    let mut r: Vec<Step> = Vec::new();
    r.push(customize);
    r.push(cargo_with(&update, one_context("update")));
    r.push(cargo_with(&fix, one_context("fix")));
    r.push(cargo_with(&clippy, one_context("clippy")));
    assert(plan_view(r@) =~= spec_prepare());
    r
}

/// The steps of the `scan` task.
pub fn scan() -> (r: Vec<Step>)
    ensures
        plan_view(r@) == spec_scan(),
{
    let mut r: Vec<Step> = Vec::new();
    let args = ["audit"];
    assert(args@ =~= seq!["audit"]);
    assert(str_views(args@) =~= seq!["audit"@]);
    r.push(cargo_with(&args, no_contexts()));
    assert(plan_view(r@) =~= spec_scan());
    r
}

/// The steps of the `build` task.
pub fn build() -> (r: Vec<Step>)
    ensures
        plan_view(r@) == spec_build(),
{
    let mut r = prepare();
    let args = ["build"];
    assert(args@ =~= seq!["build"]);
    assert(str_views(args@) =~= seq!["build"@]);
    r.push(cargo_with(&args, no_contexts()));
    assert(plan_view(r@) =~= spec_build());
    r
}

/// The steps of the `release` task.
pub fn release() -> (r: Vec<Step>)
    ensures
        plan_view(r@) == spec_release(),
{
    let mut r = with_context(&prepare(), "prepare");
    let mut scanning = with_context(&scan(), "scan");
    r.append(&mut scanning);
    let args = ["build", "--release"];
    assert(args@ =~= seq!["build", "--release"]);
    assert(str_views(args@) =~= seq!["build"@, "--release"@]);
    r.push(cargo_with(&args, one_context("build --release")));
    assert(plan_view(r@) =~= spec_release());
    r
}

/// The steps of the `run` task for the command line `args` (program name and
/// task name first) and the path of the PyO3 configuration file.
pub fn run(args: &Vec<String>, config_path: &str) -> (r: Vec<Step>)
    ensures
        plan_view(r@) == spec_run(views(args@), config_path@),
{
    // the arguments other than the first two, after "run"
    let mut forward: Vec<&str> = Vec::new();
    forward.push("run");
    let mut i: usize = 0;
    while i < args.len()
        invariant
            i <= args@.len(),
            str_views(forward@) == seq!["run"@].add(forwarded(views(args@).take(i as int))),
        decreases args@.len() - i,
    {
        let ghost before = forward@;
        if i != 0 && i != 1 {
            forward.push(args[i].as_str());
            assert(str_views(forward@) =~= str_views(before).push(args@[i as int]@));
        }
        assert(forwarded(views(args@).take(i + 1)) =~= if i < 2 {
            Seq::empty()
        } else {
            forwarded(views(args@).take(i as int)).push(args@[i as int]@)
        });
        i = i + 1;
    }
    assert(views(args@).take(args@.len() as int) =~= views(args@));
    assert(str_views(forward@) =~= seq!["run"@].add(forwarded(views(args@))));
    let mut env: Vec<(String, Option<String>)> = Vec::new();
    env.push((owned("PYO3_CONFIG_FILE"), Some(owned(config_path))));
    let command = cargo_from_env(forward.as_slice(), Some(&env));
    assert(env@.drop_last() =~= Seq::<(String, Option<String>)>::empty());
    assert(crate::cargo::env_sets(env@.drop_last()) =~= Seq::empty());
    assert(crate::cargo::env_removals(env@.drop_last()) =~= Seq::empty());
    assert(command@.set_env =~= seq![("PYO3_CONFIG_FILE"@, config_path@)]);
    assert(command@.remove_env =~= Seq::<Seq<char>>::empty());
    let mut r = prepare();
    r.push(Step { action: Action::Cargo(command), contexts: no_contexts() });
    assert(plan_view(r@) =~= spec_run(views(args@), config_path@));
    r
}

/// The `run` task prepares, then runs `cargo run` with every command-line
/// argument after the task name, unchanged and in order, and with
/// `PYO3_CONFIG_FILE` set to the configuration path.
pub proof fn lemma_run_forwards_arguments(args: Seq<Seq<char>>, config_path: Seq<char>)
    ensures
        ({
            let plan = spec_run(args, config_path);
            let rest = if args.len() > 2 {
                args.len() - 2
            } else {
                0
            };
            &&& plan.len() == 5
            &&& forall|i: int| 0 <= i < 4 ==> plan[i] == spec_prepare()[i]
            &&& plan[4].contexts.len() == 0
            &&& plan[4].action is Cargo
            &&& plan[4].action->0.args.len() == 1 + rest
            &&& plan[4].action->0.args[0] == "run"@
            &&& forall|k: int| 0 <= k < rest ==> #[trigger] plan[4].action->0.args[k + 1] == args[k + 2]
            &&& plan[4].action->0.set_env == seq![("PYO3_CONFIG_FILE"@, config_path)]
            &&& plan[4].action->0.remove_env.len() == 0
        }),
{
}

} // verus!
