use buildkite_waiter::client::{
    keyring_service_username, ApiRequest, BuildScope, Buildkite, BuildkiteCredentials, RequestError,
    PUBLIC_API_BASE_URL, PUBLIC_BUILDKITE_API_URL,
};

fn authed() -> Buildkite {
    let mut client = Buildkite::new("https://api.example.test/v2");
    client.credentials(BuildkiteCredentials::ApiAccessToken("t0k".to_string()));
    client
}

fn pairs(req: &ApiRequest) -> Vec<(&str, &str)> {
    req.query.iter().map(|(k, v)| (k.as_str(), v.as_str())).collect()
}

#[test]
fn default_client_targets_public_api_without_credentials() {
    let client = Buildkite::default();
    assert_eq!(client.api_url, "https://api.buildkite.com/v2");
    assert_eq!(PUBLIC_BUILDKITE_API_URL, "https://api.buildkite.com/v2");
    assert!(!client.has_credentials());
    assert!(matches!(client.authorization(), Err(RequestError::CredentialsRequired)));
}

#[test]
fn requests_require_credentials() {
    let client = Buildkite::new("https://api.example.test/v2");
    assert!(matches!(client.request("https://x"), Err(RequestError::CredentialsRequired)));
    assert!(matches!(client.path_request("user"), Err(RequestError::CredentialsRequired)));
}

#[test]
fn bearer_token_is_sent() {
    let client = authed();
    assert_eq!(client.authorization().unwrap(), "Bearer t0k");
    let req = client.request("https://elsewhere.test/build").unwrap();
    assert_eq!(req.url, "https://elsewhere.test/build");
    assert_eq!(req.authorization, "Bearer t0k");
    assert!(req.query.is_empty());
}

#[test]
fn authenticated_client_targets_the_typed_base_url() {
    let client = Buildkite::authenticated("abc");
    assert_eq!(PUBLIC_API_BASE_URL, "https://api.buildkite.com/v2/");
    assert_eq!(client.api_url, "https://api.buildkite.com/v2/");
    let req = client.builds().all().request().unwrap();
    assert_eq!(req.url, "https://api.buildkite.com/v2//builds");
    let req = client.user().access_token_holder_request().unwrap();
    assert_eq!(req.url, "https://api.buildkite.com/v2//user");
}

#[test]
fn authenticated_client() {
    let client = Buildkite::authenticated("abc").api_url("https://other.test");
    assert_eq!(client.api_url, "https://other.test");
    assert_eq!(client.authorization().unwrap(), "Bearer abc");
}

#[test]
fn path_requests() {
    let client = authed();
    assert_eq!(client.path_url("builds"), "https://api.example.test/v2/builds");
    let req = client.build_by_number_request("my-org", "my-pipe", "17").unwrap();
    assert_eq!(req.url, "https://api.example.test/v2/organizations/my-org/pipelines/my-pipe/builds/17");
    let req = client.access_token_holder_request().unwrap();
    assert_eq!(req.url, "https://api.example.test/v2/user");
    let req = client.build_by_url_request("https://api.example.test/v2/organizations/a/pipelines/b/builds/1").unwrap();
    assert_eq!(req.url, "https://api.example.test/v2/organizations/a/pipelines/b/builds/1");
}

#[test]
fn scope_paths() {
    assert_eq!(BuildScope::All.path(), "builds");
    assert_eq!(BuildScope::Organization("o".to_string()).path(), "organizations/o/builds");
    assert_eq!(
        BuildScope::Pipeline("o".to_string(), "p".to_string()).path(),
        "organizations/o/pipelines/p/builds"
    );
}

#[test]
fn latest_build_query_order() {
    let client = authed();
    let branches = vec!["main".to_string(), "dev".to_string()];
    let states = vec!["passed".to_string()];
    let req = client
        .latest_build_request(
            &BuildScope::Pipeline("o".to_string(), "p".to_string()),
            &branches,
            Some("creator-id"),
            Some("abc123"),
            &states,
        )
        .unwrap();
    assert_eq!(req.url, "https://api.example.test/v2/organizations/o/pipelines/p/builds");
    assert_eq!(
        pairs(&req),
        vec![
            ("branch[]", "main"),
            ("branch[]", "dev"),
            ("state[]", "passed"),
            ("creator", "creator-id"),
            ("commit", "abc123"),
        ]
    );
    let req = client.latest_build_request(&BuildScope::All, &Vec::new(), None, None, &Vec::new()).unwrap();
    assert_eq!(req.url, "https://api.example.test/v2/builds");
    assert!(req.query.is_empty());
}

#[test]
fn keyring_accounts() {
    assert_eq!(keyring_service_username("https://api.buildkite.com/v2"), "https://api.buildkite.com/v2/");
    assert_eq!(keyring_service_username("https://api.example.test"), "https://api.example.test");
}
