use buildkite_waiter::url::{build_number, build_number_from_parts, UrlError, UrlParts};

#[test]
fn it_parses_a_web_url() {
    let input = "https://buildkite.com/my-org/my-project/builds/87";
    let expected = (
        "my-org".to_string(),
        "my-project".to_string(),
        "87".to_string(),
    );

    let subject = build_number(input).expect("Unable to parse valid URL");

    assert_eq!(subject, expected);
}

#[test]
fn it_parses_an_api_url() {
    let input = "https://api.buildkite.com/v2/organizations/my-great-org/pipelines/my-pipeline/builds/1";
    let expected = (
        "my-great-org".to_string(),
        "my-pipeline".to_string(),
        "1".to_string(),
    );

    let subject = build_number(input).expect("Unable to parse valid URL");

    assert_eq!(subject, expected);
}

fn parts(cannot_be_a_base: bool, host: Option<&str>, path: &str) -> UrlParts {
    UrlParts {
        cannot_be_a_base,
        host: host.map(|h| h.to_string()),
        path: path.to_string(),
    }
}

#[test]
fn web_url_keeps_trailing_segments() {
    let r = build_number("https://buildkite.com/org/pipe/builds/12/jobs/abc").unwrap();
    assert_eq!(r, ("org".to_string(), "pipe".to_string(), "12".to_string()));
}

#[test]
fn api_url_must_have_exactly_seven_segments() {
    let r = build_number("https://api.buildkite.com/v2/organizations/o/pipelines/p/builds/1/jobs");
    assert!(matches!(r, Err(UrlError::UnknownFormat)));
}

#[test]
fn unknown_host_is_rejected() {
    let r = build_number("https://example.com/org/pipe/builds/12");
    assert!(matches!(r, Err(UrlError::UnknownFormat)));
}

#[test]
fn web_url_without_builds_segment_is_rejected() {
    let r = build_number("https://buildkite.com/org/pipe/12");
    assert!(matches!(r, Err(UrlError::UnknownFormat)));
}

#[test]
fn relative_text_does_not_parse() {
    let r = build_number("not a url");
    assert!(matches!(r, Err(UrlError::ParseFailed(_))));
}

#[test]
fn cannot_be_a_base_url_is_invalid() {
    let r = build_number("data:text/plain,buildkite");
    assert!(matches!(r, Err(UrlError::InvalidURLFormat)));
}

#[test]
fn parts_without_leading_slash_are_invalid() {
    let r = build_number_from_parts(&parts(false, Some("buildkite.com"), "org/pipe/builds/1"));
    assert!(matches!(r, Err(UrlError::InvalidURLFormat)));
}

#[test]
fn parts_of_a_web_url() {
    let r = build_number_from_parts(&parts(false, Some("buildkite.com"), "/a/b/builds/3")).unwrap();
    assert_eq!(r, ("a".to_string(), "b".to_string(), "3".to_string()));
}

#[test]
fn parts_of_an_api_url() {
    let r = build_number_from_parts(&parts(
        false,
        Some("api.buildkite.com"),
        "/v2/organizations/a/pipelines/b/builds/3",
    ))
    .unwrap();
    assert_eq!(r, ("a".to_string(), "b".to_string(), "3".to_string()));
}

#[test]
fn parts_without_host_are_unknown() {
    let r = build_number_from_parts(&parts(false, None, "/a/b/builds/3"));
    assert!(matches!(r, Err(UrlError::UnknownFormat)));
}

#[test]
fn parts_flagged_cannot_be_a_base_are_invalid() {
    let r = build_number_from_parts(&parts(true, Some("buildkite.com"), "/a/b/builds/3"));
    assert!(matches!(r, Err(UrlError::InvalidURLFormat)));
}

#[test]
fn empty_segments_are_kept() {
    let r = build_number_from_parts(&parts(false, Some("buildkite.com"), "//b/builds/")).unwrap();
    assert_eq!(r, ("".to_string(), "b".to_string(), "".to_string()));
}
