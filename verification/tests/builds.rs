use buildkite_waiter::builds::{
    allowed_build_states, finished_build_states, first_build, first_line_of, known_build_states,
    ascii_lowercase_title, Build, BuildCreator, BuildPipeline, BuildState, BuildStateGroup,
    FormatBuildStateCase, StateColor,
};

fn build(state: &str) -> Build {
    Build {
        number: 42,
        url: "https://api.buildkite.com/v2/organizations/o/pipelines/p/builds/42".to_string(),
        web_url: "https://buildkite.com/o/p/builds/42".to_string(),
        state: state.to_string(),
        pipeline: BuildPipeline { slug: "my-pipeline".to_string() },
        creator: Some(BuildCreator { name: Some("Jo".to_string()) }),
        branch: "main".to_string(),
        message: Some("Fix it\r\nsecond line".to_string()),
    }
}

#[test]
fn finished_states() {
    for s in ["passed", "failed", "blocked", "canceled"] {
        assert!(build(s).is_finished(), "{}", s);
    }
    for s in ["running", "scheduled", "canceling", "skipped", "not_run", "finished", ""] {
        assert!(!build(s).is_finished(), "{}", s);
    }
}

#[test]
fn state_groups_and_colors() {
    assert_eq!(build("passed").state_group(), BuildStateGroup::Successful);
    assert_eq!(build("blocked").state_group(), BuildStateGroup::Blocked);
    assert_eq!(build("failed").state_group(), BuildStateGroup::Unsuccessful);
    assert_eq!(build("canceled").state_group(), BuildStateGroup::Unsuccessful);
    assert_eq!(build("running").state_group(), BuildStateGroup::Unfinished);
    assert_eq!(build("passed").state_color(), StateColor::Green);
    assert_eq!(build("blocked").state_color(), StateColor::Yellow);
    assert_eq!(build("failed").state_color(), StateColor::Red);
    assert_eq!(build("scheduled").state_color(), StateColor::Magenta);
}

#[test]
fn exit_codes() {
    assert_eq!(build("passed").exit_code(), 0);
    assert_eq!(build("blocked").exit_code(), 0);
    assert_eq!(build("failed").exit_code(), 2);
    assert_eq!(build("canceled").exit_code(), 2);
    assert_eq!(build("running").exit_code(), 2);
}

#[test]
fn state_cases() {
    assert_eq!(build("not_run").state_case(FormatBuildStateCase::Title), "Not Run");
    assert_eq!(build("not_run").state_case(FormatBuildStateCase::Lower), "not run");
    assert_eq!(build("passed").state_case(FormatBuildStateCase::Title), "Passed");
    assert_eq!(ascii_lowercase_title("canceling"), "canceling");
}

#[test]
fn short_messages() {
    assert_eq!(build("passed").short_message(), Some("Fix it".to_string()));
    let mut b = build("passed");
    b.message = None;
    assert_eq!(b.short_message(), None);
    for m in ["", "one", "one\ntwo", "\n", "a\r", "a\r\nb", "\r\n", "x\r\r\n"] {
        assert_eq!(first_line_of(m), m.lines().next().map(|l| l.to_string()), "{:?}", m);
    }
}

#[test]
fn labels() {
    assert_eq!(build("passed").label(), "my-pipeline/42");
}

#[test]
fn state_lists() {
    assert_eq!(
        known_build_states(),
        vec!["running", "scheduled", "passed", "failed", "blocked", "canceled", "canceling", "skipped", "not_run"]
    );
    assert_eq!(finished_build_states(), vec!["passed", "failed", "blocked", "canceled"]);
    let allowed = allowed_build_states();
    assert_eq!(allowed.len(), 10);
    assert_eq!(allowed[9], "finished");
    for s in finished_build_states() {
        assert!(known_build_states().contains(&s));
    }
}

#[test]
fn state_names_round_trip() {
    for name in known_build_states() {
        let state = BuildState::from_name(name).expect(name);
        assert_eq!(state.name(), name);
        assert_eq!(state.is_finished(), build(name).is_finished());
    }
    assert_eq!(BuildState::from_name("finished"), None);
    assert_eq!(BuildState::from_name("NotRun"), None);
    assert_eq!(BuildState::from_name("not_run"), Some(BuildState::NotRun));
}

#[test]
fn first_of_a_listing() {
    assert!(first_build(Vec::new()).is_none());
    let first = first_build(vec![build("running"), build("passed")]).unwrap();
    assert_eq!(first.state, "running");
}

#[test]
fn found_line_pieces() {
    let mut b = build("running");
    b.message = Some("Fix it\r\nmore".to_string());
    let f = b.found_line();
    assert_eq!(f.label, b.label());
    assert_eq!(f.creator, Some("Jo".to_string()));
    assert_eq!(f.branch, b.branch);
    assert_eq!(f.first_line, Some("Fix it".to_string()));
    b.creator = Some(BuildCreator { name: None });
    b.message = None;
    let f = b.found_line();
    assert_eq!(f.creator, None);
    assert_eq!(f.first_line, None);
    b.creator = None;
    assert_eq!(b.found_line().creator, None);
}
