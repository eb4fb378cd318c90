use pyembed_xtask::cargo::{cargo, cargo_from_env};
use pyembed_xtask::plan::{prepare, with_context};
use pyembed_xtask::runner::{after_step, cargo_outcome, start, Directive, Failure, Outcome};

#[test]
fn cargo_from_env_splits_sets_and_removals() {
    let env = vec![
        ("CARGO_MANIFEST_DIR".to_string(), Some("/repo/xtask".to_string())),
        ("PYO3_CONFIG_FILE".to_string(), None),
        ("RUST_LOG".to_string(), Some("debug".to_string())),
    ];
    let c = cargo_from_env(&["run"], Some(&env));
    assert_eq!(c.args, vec!["run"]);
    assert_eq!(
        c.set_env,
        vec![
            ("CARGO_MANIFEST_DIR".to_string(), "/repo/xtask".to_string()),
            ("RUST_LOG".to_string(), "debug".to_string())
        ]
    );
    assert_eq!(c.remove_env, vec!["PYO3_CONFIG_FILE"]);
    let plain = cargo(&["build", "--release"]);
    assert_eq!(plain.args, vec!["build", "--release"]);
    assert!(plain.set_env.is_empty() && plain.remove_env.is_empty());
}

#[test]
fn cargo_announcement_and_spawn_context() {
    let c = cargo(&["fix", "--edition-idioms", "--allow-dirty"]);
    assert_eq!(c.announcement(), "[xtask] cargo fix --edition-idioms --allow-dirty");
    assert_eq!(c.spawn_context(), "[xtask] cargo fix--edition-idioms--allow-dirty");
    let empty = cargo(&[]);
    assert_eq!(empty.announcement(), "[xtask] cargo ");
}

#[test]
fn cargo_outcomes() {
    let c = cargo(&["audit"]);
    assert!(matches!(cargo_outcome(&c, Ok(true)), Outcome::Succeeded));
    assert!(matches!(cargo_outcome(&c, Ok(false)), Outcome::Failed(Failure::CommandFailed)));
    match cargo_outcome(&c, Err("not found".to_string())) {
        Outcome::Failed(Failure::SpawnFailed { context, reason }) => {
            assert_eq!(context, "[xtask] cargo audit");
            assert_eq!(reason, "not found");
        }
        _ => panic!("expected a spawn failure"),
    }
}

#[test]
fn runner_performs_every_step_when_all_succeed() {
    let plan = prepare();
    let mut performed = vec![];
    let mut d = start(&plan);
    loop {
        match d {
            Directive::Execute(i) => {
                performed.push(i);
                d = after_step(&plan, i, Outcome::Succeeded);
            }
            Directive::Finish(r) => {
                assert!(r.is_ok());
                break;
            }
        }
    }
    assert_eq!(performed, vec![0, 1, 2, 3]);
}

#[test]
fn runner_stops_at_first_failure_with_its_contexts() {
    let plan = with_context(&prepare(), "[xtask] main prepare");
    let mut performed = vec![];
    let mut d = start(&plan);
    loop {
        match d {
            Directive::Execute(i) => {
                performed.push(i);
                let outcome = if i == 2 {
                    Outcome::Failed(Failure::CommandFailed)
                } else {
                    Outcome::Succeeded
                };
                d = after_step(&plan, i, outcome);
            }
            Directive::Finish(r) => {
                let e = r.unwrap_err();
                assert_eq!(e.contexts, vec!["[xtask] main prepare", "fix"]);
                assert!(matches!(e.failure, Failure::CommandFailed));
                break;
            }
        }
    }
    assert_eq!(performed, vec![0, 1, 2]);
}

#[test]
fn runner_on_empty_plan_succeeds_at_once() {
    let plan = vec![];
    assert!(matches!(start(&plan), Directive::Finish(Ok(()))));
}

#[test]
fn runner_reports_customize_failure() {
    let plan = prepare();
    match after_step(&plan, 0, Outcome::Failed(Failure::CustomizeFailed("boom".to_string()))) {
        Directive::Finish(Err(e)) => {
            assert_eq!(e.contexts, vec!["python_embedding_customizebuild_customize"]);
            assert!(matches!(e.failure, Failure::CustomizeFailed(ref m) if m == "boom"));
        }
        _ => panic!("expected the run to fail"),
    }
    assert!(matches!(after_step(&plan, 3, Outcome::Succeeded), Directive::Finish(Ok(()))));
    assert!(matches!(after_step(&plan, 1, Outcome::Succeeded), Directive::Execute(2)));
}
