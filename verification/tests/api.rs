use buildkite_waiter::client::{Buildkite, BuildkiteCredentials, RequestError};

fn client(url: &str) -> Buildkite {
    let mut c = Buildkite::new(url);
    c.credentials(BuildkiteCredentials::ApiAccessToken("tok".to_string()));
    c
}

fn pairs(q: &[(String, String)]) -> Vec<(&str, &str)> {
    q.iter().map(|(k, v)| (k.as_str(), v.as_str())).collect()
}

#[test]
fn fresh_listing_asks_for_thirty_builds() {
    let req = client("https://api.buildkite.com/v2").builds().all().request().unwrap();
    assert_eq!(req.url, "https://api.buildkite.com/v2/builds");
    assert_eq!(req.authorization, "Bearer tok");
    assert_eq!(pairs(&req.query), vec![("per_page", "30")]);
}

#[test]
fn filters_come_after_the_page_size() {
    let req = client("https://api.buildkite.com/v2")
        .builds()
        .pipeline("my-great-org", "my-pipeline")
        .per_page(1)
        .branch("main")
        .branches(&vec!["a".to_string(), "b".to_string()])
        .state("passed")
        .states(&vec!["failed".to_string()])
        .creator("first")
        .creator("second")
        .commit("c1")
        .request()
        .unwrap();
    assert_eq!(req.url, "https://api.buildkite.com/v2/organizations/my-great-org/pipelines/my-pipeline/builds");
    assert_eq!(
        pairs(&req.query),
        vec![
            ("per_page", "1"),
            ("branch[]", "main"),
            ("branch[]", "a"),
            ("branch[]", "b"),
            ("state[]", "passed"),
            ("state[]", "failed"),
            ("creator", "second"),
            ("commit", "c1"),
        ]
    );
}

#[test]
fn segments_are_percent_encoded() {
    let req = client("https://api.buildkite.com/v2").builds().organization("my org/x").request().unwrap();
    assert_eq!(req.url, "https://api.buildkite.com/v2/organizations/my%20org%2Fx/builds");
}

#[test]
fn unusable_base_url() {
    let r = client("not a url").builds().all().request();
    assert!(matches!(r, Err(RequestError::InvalidApiUrl)));
    let r = client("mailto:someone@example.com").user().access_token_holder_request();
    assert!(matches!(r, Err(RequestError::InvalidApiUrl)));
}

#[test]
fn listing_needs_credentials() {
    let r = Buildkite::new("https://api.buildkite.com/v2").builds().all().request();
    assert!(matches!(r, Err(RequestError::CredentialsRequired)));
}

#[test]
fn user_request() {
    let req = client("https://api.buildkite.com/v2").user().access_token_holder_request().unwrap();
    assert_eq!(req.url, "https://api.buildkite.com/v2/user");
    assert!(req.query.is_empty());
}
