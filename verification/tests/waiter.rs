use buildkite_waiter::builds::{Build, BuildPipeline};
use buildkite_waiter::client::{Buildkite, BuildkiteCredentials, RequestError};
use buildkite_waiter::waiter::{
    failure_delay, state_change_message, PollProgress, Retry, RetryAction, WaitStatus, Waiter, MAX_RETRIES,
    POLL_INTERVAL_SECS,
};

fn build(state: &str) -> Build {
    Build {
        number: 1,
        url: "https://api.buildkite.com/v2/organizations/o/pipelines/p/builds/1".to_string(),
        web_url: "https://buildkite.com/o/p/builds/1".to_string(),
        state: state.to_string(),
        pipeline: BuildPipeline { slug: "p".to_string() },
        creator: None,
        branch: "main".to_string(),
        message: None,
    }
}

fn waiter() -> Waiter {
    let mut client = Buildkite::default();
    client.credentials(BuildkiteCredentials::ApiAccessToken("tok".to_string()));
    Waiter::new(client, "https://api.buildkite.com/v2/organizations/o/pipelines/p/builds/1")
}

fn failure() -> Result<Build, RequestError> {
    Err(RequestError::Http("boom".to_string()))
}

#[test]
fn failure_delays_are_squares() {
    assert_eq!(failure_delay(0), 0);
    assert_eq!(failure_delay(1), 1);
    assert_eq!(failure_delay(2), 4);
    assert_eq!(failure_delay(3), 9);
}

#[test]
fn waiter_reports_running_then_finished() {
    let mut w = waiter();
    match w.step(Ok(build("running"))) {
        WaitStatus::Continue(Some(s), d) => {
            assert_eq!(s, "running");
            assert_eq!(d, POLL_INTERVAL_SECS);
            assert_eq!(d, 30);
        }
        _ => panic!("expected to continue"),
    }
    match w.step(Ok(build("passed"))) {
        WaitStatus::Finished(b) => assert_eq!(b.state, "passed"),
        _ => panic!("expected to finish"),
    }
}

#[test]
fn waiter_gives_up_on_the_third_failure() {
    let mut w = waiter();
    assert_eq!(MAX_RETRIES, 3);
    assert!(matches!(w.step(failure()), WaitStatus::Continue(None, 1)));
    assert!(matches!(w.step(Ok(build("scheduled"))), WaitStatus::Continue(Some(_), 30)));
    assert!(matches!(w.step(failure()), WaitStatus::Continue(None, 4)));
    assert_eq!(w.failed_attempts(), 2);
    match w.step(failure()) {
        WaitStatus::Abort(RequestError::Http(m)) => assert_eq!(m, "boom"),
        _ => panic!("expected to abort"),
    }
}

#[test]
fn waiter_polls_its_url() {
    let w = waiter();
    let req = w.poll_request().unwrap();
    assert_eq!(req.url, "https://api.buildkite.com/v2/organizations/o/pipelines/p/builds/1");
    assert_eq!(req.authorization, "Bearer tok");
}

#[test]
fn retries_back_off_then_give_up() {
    let mut r = Retry::new(3);
    assert_eq!(r.after_request(false), RetryAction::RetryAfter(1));
    assert_eq!(r.after_request(false), RetryAction::RetryAfter(4));
    assert_eq!(r.after_request(false), RetryAction::RetryAfter(9));
    assert_eq!(r.after_request(false), RetryAction::Return);
    let mut r = Retry::new(3);
    assert_eq!(r.after_request(false), RetryAction::RetryAfter(1));
    assert_eq!(r.after_request(true), RetryAction::Return);
    let mut r = Retry::new(0);
    assert_eq!(r.after_request(false), RetryAction::Return);
}

#[test]
fn progress_counts_checks_and_reports_changes() {
    let mut p = PollProgress::new(&build("scheduled"));
    assert_eq!(p.checks(), 1);
    assert_eq!(p.record(&build("scheduled")), None);
    assert_eq!(p.record(&build("running")), Some(("scheduled".to_string(), "running".to_string())));
    assert_eq!(p.state(), "running");
    assert_eq!(p.checks(), 3);
}

#[test]
fn state_change_lines() {
    assert_eq!(
        state_change_message("10:00:00", "not_run", "running"),
        "[10:00:00] Build changed state from not run to running"
    );
}
