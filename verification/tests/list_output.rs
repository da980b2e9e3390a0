use ghtool::args::ArgError;
use ghtool::config::Config as ParentConfig;
use ghtool::label::Label;
use ghtool::list::Config;
use ghtool::list::ListError;
use ghtool::list::render_label_names;

fn parent() -> ParentConfig {
    ParentConfig { access_token: String::from("tok") }
}

#[test]
fn renders_names_in_order() {
    let labels = vec![
        Label { name: String::from("bug"), color: String::from("ff0000") },
        Label { name: String::from("enhancement"), color: String::from("00ff00") },
    ];
    assert_eq!(render_label_names(&labels), "bug\nenhancement\n");
}

#[test]
fn renders_nothing_for_no_labels() {
    let labels: Vec<Label> = Vec::new();
    assert_eq!(render_label_names(&labels), "");
}

#[test]
fn renders_single_label() {
    let labels = vec![Label { name: String::from("wontfix"), color: String::from("ffffff") }];
    assert_eq!(render_label_names(&labels), "wontfix\n");
}

#[test]
fn from_matches_accepts_valid_repo() {
    let config = Config::from_matches(parent(), Some("octocat/Hello-World")).expect("should parse");
    assert_eq!(config.repo.user, "octocat");
    assert_eq!(config.repo.repo, "Hello-World");
    assert_eq!(config.parent_config.access_token, "tok");
}

#[test]
fn from_matches_reports_missing_repo() {
    match Config::from_matches(parent(), None) {
        Err(ArgError::NoValue { arg }) => assert_eq!(arg, "repo"),
        _ => panic!("expected a missing-value error for repo"),
    }
}

#[test]
fn from_matches_reports_invalid_repo() {
    match Config::from_matches(parent(), Some("not a repo")) {
        Err(ArgError::InvalidValue { arg, value }) => {
            assert_eq!(arg, "repo");
            assert_eq!(value, "not a repo");
        },
        _ => panic!("expected an invalid-value error for repo"),
    }
}

#[test]
fn list_error_descriptions() {
    assert_eq!(ListError::IoError.description(), "IoError");
    assert_eq!(ListError::HubcapsError.description(), "HubcapsError");
}
