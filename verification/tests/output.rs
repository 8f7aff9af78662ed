use buildkite_waiter::builds::{Build, BuildPipeline, StateColor};
use buildkite_waiter::cli::{OutputArgs, OutputType};
use buildkite_waiter::output::{CompletionOutput, NotificationContent};

fn build(state: &str) -> Build {
    Build {
        number: 87,
        url: "https://api.buildkite.com/v2/organizations/o/pipelines/p/builds/87".to_string(),
        web_url: "https://buildkite.com/o/p/builds/87".to_string(),
        state: state.to_string(),
        pipeline: BuildPipeline { slug: "my-project".to_string() },
        creator: None,
        branch: "main".to_string(),
        message: None,
    }
}

fn args(output: OutputType) -> OutputArgs {
    OutputArgs { notification: false, no_notification: false, output }
}

#[test]
fn notification_text() {
    let c = NotificationContent::with_finished_text(&build("passed"), "2 minutes ago");
    assert_eq!(c.title, "Passed: my-project/87 main");
    assert_eq!(c.message, "Finished 2 minutes ago");
}

#[test]
fn notification_humanizes_the_duration() {
    let c = NotificationContent::for_build(&build("not_run"), 65, 0);
    assert_eq!(c.title, "Not Run: my-project/87 main");
    assert_eq!(c.message, "Finished 1 minute and 5 seconds ago");
    let c = NotificationContent::for_build(&build("failed"), 3600, 0);
    assert_eq!(c.message, "Finished 1 hour ago");
}

#[test]
fn completion_outputs() {
    let b = build("blocked");
    let c = NotificationContent::with_finished_text(&b, "now");
    assert!(matches!(args(OutputType::Nothing).completion_output(&b, &c), CompletionOutput::Nothing));
    match args(OutputType::StateUrl).completion_output(&b, &c) {
        CompletionOutput::StateUrl { state, color, web_url } => {
            assert_eq!(state, "Blocked");
            assert_eq!(color, StateColor::Yellow);
            assert_eq!(web_url, "https://buildkite.com/o/p/builds/87");
        }
        _ => panic!("expected state and URL"),
    }
    match args(OutputType::NotificationLines).completion_output(&b, &c) {
        CompletionOutput::Lines { title, message } => {
            assert_eq!(title, "Blocked: my-project/87 main");
            assert_eq!(message, "Finished now");
        }
        _ => panic!("expected notification lines"),
    }
}
