use ghtool::args::ArgError;
use ghtool::config::Config as ParentConfig;
use ghtool::copy::Config;
use ghtool::copy::CopyError;
use ghtool::copy::RuntimeOptions;
use ghtool::copy::confirmation_required;
use ghtool::copy::planned_creations;
use ghtool::copy::summarize;
use ghtool::label::Label;

fn parent() -> ParentConfig {
    ParentConfig { access_token: String::from("tok") }
}

fn label(name: &str) -> Label {
    Label { name: String::from(name), color: String::from("ff0000") }
}

#[test]
fn partial_failure_is_isolated() {
    // Creating B fails while creating A succeeds: the operation still
    // completes, reporting success for A and failure for B.
    let attempted = vec![label("A"), label("B")];
    let succeeded = vec![true, false];
    let summary = summarize(&attempted, &succeeded);
    assert_eq!(summary.copied.len(), 1);
    assert_eq!(summary.copied[0].name, "A");
    assert_eq!(summary.failed.len(), 1);
    assert_eq!(summary.failed[0].name, "B");
}

#[test]
fn all_successes_are_reported_in_order() {
    let attempted = vec![label("A"), label("B"), label("C")];
    let succeeded = vec![true, true, true];
    let summary = summarize(&attempted, &succeeded);
    let names: Vec<&str> = summary.copied.iter().map(|l| l.name.as_str()).collect();
    assert_eq!(names, ["A", "B", "C"]);
    assert!(summary.failed.is_empty());
}

#[test]
fn summarizes_nothing_for_no_labels() {
    let summary = summarize(&Vec::new(), &Vec::new());
    assert!(summary.copied.is_empty());
    assert!(summary.failed.is_empty());
}

#[test]
fn declined_confirmation_plans_nothing() {
    // Declining the clearing confirmation aborts the operation: no label
    // creation is planned, and that is a normal exit, not an error.
    let labels = vec![label("A"), label("B")];
    let opts = RuntimeOptions { clear: true, assume_yes: false };
    assert!(planned_creations(labels, &opts, false).is_none());
}

#[test]
fn confirmed_clear_plans_all_labels() {
    let labels = vec![label("A"), label("B")];
    let opts = RuntimeOptions { clear: true, assume_yes: false };
    let planned = planned_creations(labels, &opts, true).expect("should proceed");
    assert_eq!(planned.len(), 2);
    assert_eq!(planned[0].name, "A");
    assert_eq!(planned[1].name, "B");
}

#[test]
fn assume_yes_skips_the_prompt() {
    let opts = RuntimeOptions { clear: true, assume_yes: true };
    assert!(!confirmation_required(&opts));
    let labels = vec![label("A")];
    let planned = planned_creations(labels, &opts, false).expect("should proceed");
    assert_eq!(planned[0].name, "A");
}

#[test]
fn no_clear_needs_no_confirmation() {
    let opts = RuntimeOptions { clear: false, assume_yes: false };
    assert!(!confirmation_required(&opts));
    let labels = vec![label("A")];
    assert!(planned_creations(labels, &opts, false).is_some());
}

#[test]
fn clear_without_assume_yes_needs_confirmation() {
    let opts = RuntimeOptions { clear: true, assume_yes: false };
    assert!(confirmation_required(&opts));
}

#[test]
fn from_matches_accepts_valid_repos() {
    let config = Config::from_matches(parent(), Some("octocat/from-repo"), Some("octocat/to-repo"))
        .expect("should parse");
    assert_eq!(config.from_repo.user, "octocat");
    assert_eq!(config.from_repo.repo, "from-repo");
    assert_eq!(config.to_repo.user, "octocat");
    assert_eq!(config.to_repo.repo, "to-repo");
    assert_eq!(config.parent_config.access_token, "tok");
}

#[test]
fn from_matches_reports_missing_from_first() {
    match Config::from_matches(parent(), None, None) {
        Err(ArgError::NoValue { arg }) => assert_eq!(arg, "from"),
        _ => panic!("expected a missing-value error for from"),
    }
}

#[test]
fn from_matches_reports_missing_to() {
    match Config::from_matches(parent(), Some("a/b"), None) {
        Err(ArgError::NoValue { arg }) => assert_eq!(arg, "to"),
        _ => panic!("expected a missing-value error for to"),
    }
}

#[test]
fn from_matches_reports_invalid_from() {
    match Config::from_matches(parent(), Some("bad from"), Some("a/b")) {
        Err(ArgError::InvalidValue { arg, value }) => {
            assert_eq!(arg, "from");
            assert_eq!(value, "bad from");
        },
        _ => panic!("expected an invalid-value error for from"),
    }
}

#[test]
fn from_matches_reports_invalid_to() {
    match Config::from_matches(parent(), Some("a/b"), Some("bad to")) {
        Err(ArgError::InvalidValue { arg, value }) => {
            assert_eq!(arg, "to");
            assert_eq!(value, "bad to");
        },
        _ => panic!("expected an invalid-value error for to"),
    }
}

#[test]
fn copy_error_descriptions() {
    assert_eq!(CopyError::IoError.description(), "IoError");
    assert_eq!(CopyError::HubcapsError.description(), "HubcapsError");
}
