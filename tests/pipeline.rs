use cargo_thanks::metadata::{resolve, Crate};
use cargo_thanks::pipeline::{Outcome, PipelineError, Run};
use cargo_thanks::setup::{dependency_set, non_blank, registry_url};

fn entry(name: &str, repository: Option<&str>) -> Crate {
    Crate::new(name.to_string(), name.to_string(), repository).expect("repository parses")
}

#[test]
fn empty_dependency_set_succeeds() {
    let deps = dependency_set(&Vec::new());
    assert!(deps.is_empty());
    let run = Run::new();
    assert_eq!(run.outcomes().len(), 0);
    assert_eq!(run.exit_code(), 0);
}

#[test]
fn one_failed_fetch_is_isolated() {
    let mut run = Run::new();
    let mut targets = Vec::new();
    let fetched = vec![
        ("a".to_string(), Ok(entry("a", Some("https://github.com/o/a")))),
        ("b".to_string(), Err("connection refused".to_string())),
        ("c".to_string(), Ok(entry("c", Some("https://github.com/o/c.git")))),
    ];
    for (dep, result) in fetched {
        if let Some(t) = run.on_fetched(dep, result) {
            targets.push(t);
        }
    }
    assert_eq!(targets.len(), 2);
    for t in targets {
        run.on_starred(t, Ok(()));
    }
    let outcomes = run.outcomes();
    assert_eq!(outcomes.len(), 3);
    let failures: Vec<&Outcome> = outcomes.iter().filter(|o| o.is_failure()).collect();
    assert_eq!(failures.len(), 1);
    match failures[0] {
        Outcome::Failed(PipelineError::Fetch { dependency, detail }) => {
            assert_eq!(dependency, "b");
            assert_eq!(detail, "connection refused");
        }
        _ => panic!("expected the fetch failure of b"),
    }
    assert_eq!(run.exit_code(), 1);
}

#[test]
fn scenario_serde_and_unresolvable() {
    let mut run = Run::new();
    let serde = run.on_fetched(
        "serde".to_string(),
        Ok(entry("serde", Some("https://github.com/serde-rs/serde"))),
    );
    let left_pad = run.on_fetched("left-pad-clone".to_string(), Ok(entry("left-pad-clone", None)));
    assert!(left_pad.is_none());
    let t = serde.expect("serde resolves");
    assert_eq!(t.owner, "serde-rs");
    assert_eq!(t.repo, "serde");
    run.on_starred(t, Ok(()));
    assert_eq!(run.outcomes().len(), 1);
    assert!(matches!(&run.outcomes()[0], Outcome::Starred(t) if t.name == "serde"));
    assert_eq!(run.exit_code(), 0);
}

#[test]
fn failed_star_fails_the_run() {
    let mut run = Run::new();
    let t = resolve(&entry("x", Some("https://github.com/o/x"))).expect("resolves");
    run.on_starred(t, Err("rate limited".to_string()));
    assert!(run.failed());
    assert_eq!(run.exit_code(), 1);
    assert!(matches!(
        &run.outcomes()[0],
        Outcome::Failed(PipelineError::Action { target, detail }) if target.repo == "x" && detail == "rate limited"
    ));
}

#[test]
fn non_blank_token() {
    assert_eq!(non_blank(String::new()), Err("no token provided".to_string()));
    assert_eq!(non_blank("abc".to_string()), Ok(()));
}

#[test]
fn registry_url_for_name() {
    assert_eq!(registry_url("serde"), "https://crates.io/api/v1/crates/serde");
}

#[test]
fn dependency_set_deduplicates() {
    let packages = vec![
        vec!["serde".to_string(), "log".to_string()],
        vec!["log".to_string(), "url".to_string(), "serde".to_string()],
        vec![],
    ];
    let mut deps = dependency_set(&packages);
    deps.sort();
    assert_eq!(deps, vec!["log".to_string(), "serde".to_string(), "url".to_string()]);
}
