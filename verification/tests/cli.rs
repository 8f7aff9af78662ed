use buildkite_waiter::cli::{
    ByNumberStrategyArgs, ByUrlStrategyArgs, CreatorFilter, LatestError, LatestStrategyArgs, LocateError,
    OutputArgs, OutputType,
};
use buildkite_waiter::client::{BuildScope, Buildkite, BuildkiteCredentials};
use buildkite_waiter::cli::locate_in_parts;
use buildkite_waiter::url::{UrlError, UrlParts};

fn client() -> Buildkite {
    let mut c = Buildkite::default();
    c.credentials(BuildkiteCredentials::ApiAccessToken("tok".to_string()));
    c
}

fn latest() -> LatestStrategyArgs {
    LatestStrategyArgs {
        organization: None,
        pipeline: None,
        branch: Vec::new(),
        mine: false,
        creator: None,
        commit: None,
        state: Vec::new(),
    }
}

#[test]
fn notifications_are_sent_unless_disabled() {
    let mut args = OutputArgs { notification: false, no_notification: false, output: OutputType::default() };
    assert!(args.should_notify());
    assert_eq!(args.output, OutputType::StateUrl);
    args.no_notification = true;
    assert!(!args.should_notify());
    args.notification = true;
    assert!(!args.should_notify());
}

#[test]
fn by_number_request() {
    let args = ByNumberStrategyArgs { organization: "org".to_string(), pipeline: "pipe".to_string(), number: 305 };
    let req = args.build_request(&client()).unwrap();
    assert_eq!(req.url, "https://api.buildkite.com/v2/organizations/org/pipelines/pipe/builds/305");
}

#[test]
fn by_url_reference() {
    let args = ByUrlStrategyArgs { url: "https://buildkite.com/my-great-org/my-pipeline/builds/1".to_string() };
    assert_eq!(
        args.build_reference().unwrap(),
        ("my-great-org".to_string(), "my-pipeline".to_string(), "1".to_string())
    );
    let args = ByUrlStrategyArgs { url: "https://example.com/a/b/builds/1".to_string() };
    assert!(matches!(args.build_reference(), Err(UrlError::UnknownFormat)));
}

#[test]
fn locate_by_path() {
    let args = ByUrlStrategyArgs { url: "https://example.com/a/b/builds/7/x".to_string() };
    assert_eq!(args.locate().unwrap(), ("a".to_string(), "b".to_string(), 7));
    let args = ByUrlStrategyArgs { url: "https://example.com/a/b/builds/seven".to_string() };
    assert!(matches!(args.locate(), Err(LocateError::InvalidNumber)));
    let args = ByUrlStrategyArgs { url: "https://example.com/a/b".to_string() };
    assert!(matches!(args.locate(), Err(LocateError::UnexpectedPath)));
    let args = ByUrlStrategyArgs { url: "data:text/plain,x".to_string() };
    let e = args.locate().unwrap_err();
    assert!(matches!(e, LocateError::UnexpectedFormat));
    assert_eq!(e.message(), "URL was not in an expected format");
    let args = ByUrlStrategyArgs { url: "nonsense".to_string() };
    assert!(matches!(args.locate(), Err(LocateError::InvalidUrl(_))));
}

#[test]
fn latest_scopes() {
    let mut args = latest();
    assert!(matches!(args.scope(), BuildScope::All));
    args.organization = Some("o".to_string());
    assert!(matches!(args.scope(), BuildScope::Organization(o) if o == "o"));
    args.pipeline = Some("p".to_string());
    assert!(matches!(args.scope(), BuildScope::Pipeline(o, p) if o == "o" && p == "p"));
}

#[test]
fn latest_creator_choice() {
    let mut args = latest();
    assert!(matches!(args.creator_filter(), CreatorFilter::Anyone));
    args.mine = true;
    assert!(matches!(args.creator_filter(), CreatorFilter::TokenHolder));
    args.creator = Some("id-1".to_string());
    assert!(matches!(args.creator_filter(), CreatorFilter::Creator(c) if c == "id-1"));
}

#[test]
fn latest_request_query() {
    let mut args = latest();
    args.organization = Some("o".to_string());
    args.branch = vec!["main".to_string()];
    args.state = vec!["failed".to_string()];
    args.commit = Some("c0ffee".to_string());
    let req = args.latest_request(&client(), Some("me")).unwrap();
    assert_eq!(req.url, "https://api.buildkite.com/v2/organizations/o/builds");
    let q: Vec<(&str, &str)> = req.query.iter().map(|(k, v)| (k.as_str(), v.as_str())).collect();
    assert_eq!(q, vec![("branch[]", "main"), ("state[]", "failed"), ("creator", "me"), ("commit", "c0ffee")]);
}

#[test]
fn latest_listing() {
    let mut args = latest();
    args.pipeline = Some("p".to_string());
    assert!(matches!(args.listing(&client(), None), Err(LatestError::OrganizationRequired)));
    args.organization = Some("o".to_string());
    args.branch = vec!["main".to_string()];
    let req = args.listing(&client(), Some("me")).unwrap().request().unwrap();
    assert_eq!(req.url, "https://api.buildkite.com/v2/organizations/o/pipelines/p/builds");
    let q: Vec<(&str, &str)> = req.query.iter().map(|(k, v)| (k.as_str(), v.as_str())).collect();
    assert_eq!(q, vec![("per_page", "1"), ("branch[]", "main"), ("creator", "me")]);
}

#[test]
fn both_readings_of_a_web_url_agree() {
    let args = ByUrlStrategyArgs { url: "https://buildkite.com/my-great-org/my-pipeline/builds/42/steps".to_string() };
    let (o, p, raw) = args.build_reference().unwrap();
    let (lo, lp, n) = args.locate().unwrap();
    assert_eq!((o, p), (lo, lp));
    assert_eq!(raw.parse::<u32>().unwrap(), n);
    let args = ByUrlStrategyArgs { url: "https://buildkite.com/my-great-org/my-pipeline/builds/x1".to_string() };
    assert!(args.build_reference().is_ok());
    assert!(matches!(args.locate(), Err(LocateError::InvalidNumber)));
    let args = ByUrlStrategyArgs { url: "https://buildkite.com/my-great-org".to_string() };
    assert!(args.build_reference().is_err());
    assert!(args.locate().is_err());
}

#[test]
fn locate_errors_and_messages() {
    let parts = UrlParts { cannot_be_a_base: false, host: Some("buildkite.com".to_string()), path: "a/b/builds/1".to_string() };
    let e = locate_in_parts(&parts).unwrap_err();
    assert!(matches!(e, LocateError::NoPath));
    assert_eq!(e.message(), "Unable to interpret path from URL");
    assert_eq!(LocateError::UnexpectedPath.message(), "URL Path was not in an expected format");
    assert_eq!(LocateError::InvalidNumber.message(), "Unable to determine build number");
    let e = ByUrlStrategyArgs { url: "::".to_string() }.locate().unwrap_err();
    assert_eq!(e.message(), "URL could not be parsed");
    let parts = UrlParts { cannot_be_a_base: false, host: None, path: "/a/b/builds/4294967296".to_string() };
    assert!(matches!(locate_in_parts(&parts), Err(LocateError::InvalidNumber)));
    let parts = UrlParts { cannot_be_a_base: false, host: None, path: "/a/b/builds/4294967295".to_string() };
    assert_eq!(locate_in_parts(&parts).unwrap(), ("a".to_string(), "b".to_string(), 4294967295));
}

#[test]
fn latest_scope_is_checked_before_any_request() {
    let mut args = latest();
    args.pipeline = Some("p".to_string());
    args.mine = true;
    let e = match args.checked_scope() {
        Err(e) => e,
        Ok(_) => panic!("expected the organization to be required"),
    };
    assert_eq!(e, LatestError::OrganizationRequired);
    assert_eq!(e.message(), "Organization is required if pipeline is provided");
    args.organization = Some("o".to_string());
    assert!(matches!(args.checked_scope(), Ok(BuildScope::Pipeline(o, p)) if o == "o" && p == "p"));
    args.pipeline = None;
    assert!(matches!(args.checked_scope(), Ok(BuildScope::Organization(o)) if o == "o"));
    args.organization = None;
    assert!(matches!(args.checked_scope(), Ok(BuildScope::All)));
}
