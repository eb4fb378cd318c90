use pyembed_xtask::cargo::CargoCommand;
use pyembed_xtask::plan::{build, prepare, release, run, scan, Action, Step};
use pyembed_xtask::task::{help, parse_task, task_context, task_plan, Task, HELP_TEXT};
use pyembed_xtask::runner::Failure;

fn cargo_args(step: &Step) -> Vec<String> {
    match &step.action {
        Action::Cargo(c) => c.args.clone(),
        Action::CustomizeEmbedding => vec!["<customize>".to_string()],
    }
}

fn command(step: &Step) -> &CargoCommand {
    match &step.action {
        Action::Cargo(c) => c,
        Action::CustomizeEmbedding => panic!("not a cargo step"),
    }
}

#[test]
fn parse_task_selects_known_tasks() {
    assert_eq!(parse_task(Some("release")), Task::Release);
    assert_eq!(parse_task(Some("run")), Task::Run);
    assert_eq!(parse_task(Some("build")), Task::Build);
    assert_eq!(parse_task(Some("prepare")), Task::Prepare);
    assert_eq!(parse_task(Some("scan")), Task::Scan);
}

#[test]
fn parse_task_unknown_or_missing_word_shows_help() {
    assert_eq!(parse_task(None), Task::Help { invalid: false });
    assert_eq!(parse_task(Some("bloat")), Task::Help { invalid: true });
    assert_eq!(parse_task(Some("Release")), Task::Help { invalid: true });
    assert_eq!(parse_task(Some("")), Task::Help { invalid: true });
}

#[test]
fn help_without_error_goes_to_stdout() {
    let h = help(false);
    assert!(!h.to_stderr);
    assert_eq!(h.text, "> release\n> build\n> prepare\n> scan\n> bloat\n> ci");
    assert_eq!(h.text, HELP_TEXT);
    assert!(h.result.is_ok());
}

#[test]
fn help_after_invalid_task_fails() {
    let h = help(true);
    assert!(h.to_stderr);
    assert_eq!(h.text, HELP_TEXT);
    assert!(matches!(h.result, Err(Failure::InvalidTask)));
}

#[test]
fn task_contexts() {
    assert_eq!(task_context(Task::Release), "[xtask] main release");
    assert_eq!(task_context(Task::Run), "[xtask] main run");
    assert_eq!(task_context(Task::Build), "[xtask] main build");
    assert_eq!(task_context(Task::Prepare), "[xtask] main prepare");
    assert_eq!(task_context(Task::Scan), "[xtask] main scan");
    assert_eq!(task_context(Task::Help { invalid: true }), "[xtask] main show help");
}

#[test]
fn prepare_plan() {
    let plan = prepare();
    assert_eq!(plan.len(), 4);
    assert!(matches!(plan[0].action, Action::CustomizeEmbedding));
    assert_eq!(plan[0].contexts, vec!["python_embedding_customizebuild_customize"]);
    assert_eq!(cargo_args(&plan[1]), vec!["update"]);
    assert_eq!(plan[1].contexts, vec!["update"]);
    assert_eq!(
        cargo_args(&plan[2]),
        vec!["fix", "--edition-idioms", "--allow-dirty", "--allow-staged"]
    );
    assert_eq!(plan[2].contexts, vec!["fix"]);
    assert_eq!(cargo_args(&plan[3]), vec!["clippy", "--all-features", "--all-targets"]);
    assert_eq!(plan[3].contexts, vec!["clippy"]);
    for step in &plan[1..] {
        assert!(command(step).set_env.is_empty());
        assert!(command(step).remove_env.is_empty());
    }
}

#[test]
fn scan_and_build_plans() {
    let s = scan();
    assert_eq!(s.len(), 1);
    assert_eq!(cargo_args(&s[0]), vec!["audit"]);
    assert!(s[0].contexts.is_empty());
    let b = build();
    assert_eq!(b.len(), 5);
    assert_eq!(cargo_args(&b[4]), vec!["build"]);
    assert!(b[4].contexts.is_empty());
    assert_eq!(b[3].contexts, vec!["clippy"]);
}

#[test]
fn release_plan_nests_contexts() {
    let r = release();
    assert_eq!(r.len(), 6);
    assert_eq!(r[0].contexts, vec!["prepare", "python_embedding_customizebuild_customize"]);
    assert_eq!(r[1].contexts, vec!["prepare", "update"]);
    assert_eq!(r[4].contexts, vec!["scan"]);
    assert_eq!(cargo_args(&r[4]), vec!["audit"]);
    assert_eq!(cargo_args(&r[5]), vec!["build", "--release"]);
    assert_eq!(r[5].contexts, vec!["build --release"]);
}

#[test]
fn run_plan_forwards_arguments_and_config_path() {
    let args: Vec<String> = vec!["xtask", "run", "--bin", "demo"]
        .into_iter()
        .map(String::from)
        .collect();
    let r = run(&args, "/repo/target/pyembedded/pyo3-build-config-file.txt");
    assert_eq!(r.len(), 5);
    let c = command(&r[4]);
    assert_eq!(c.args, vec!["run", "--bin", "demo"]);
    assert_eq!(
        c.set_env,
        vec![(
            "PYO3_CONFIG_FILE".to_string(),
            "/repo/target/pyembedded/pyo3-build-config-file.txt".to_string()
        )]
    );
    assert!(c.remove_env.is_empty());
    assert!(r[4].contexts.is_empty());
}

#[test]
fn run_plan_with_no_extra_arguments() {
    let args: Vec<String> = vec!["xtask".to_string(), "run".to_string()];
    let r = run(&args, "cfg");
    assert_eq!(command(&r[4]).args, vec!["run"]);
    let short: Vec<String> = vec!["xtask".to_string()];
    assert_eq!(command(&run(&short, "cfg")[4]).args, vec!["run"]);
}

#[test]
fn task_plan_adds_driver_context() {
    let args: Vec<String> = vec!["xtask".to_string(), "scan".to_string()];
    let p = task_plan(Task::Scan, &args, "cfg").unwrap();
    assert_eq!(p.len(), 1);
    assert_eq!(p[0].contexts, vec!["[xtask] main scan"]);
    let r = task_plan(Task::Release, &args, "cfg").unwrap();
    assert_eq!(r[1].contexts, vec!["[xtask] main release", "prepare", "update"]);
    assert!(task_plan(Task::Help { invalid: false }, &args, "cfg").is_none());
}
