//! Recognising Buildkite build URLs, both the web form
//! `https://buildkite.com/<org>/<pipeline>/builds/<number>` and the REST API
//! form `https://api.buildkite.com/v2/organizations/<org>/pipelines/<pipeline>/builds/<number>`.

use vstd::prelude::*;
use crate::text::{
    lemma_split_chars_join, lemma_split_chars_single, split_chars, split_from, str_eq, strings_view,
};

verus! {

#[verifier::external_type_specification]
#[verifier::external_body]
pub struct ExParseError(::url::ParseError);

/// Why a string is not a Buildkite build URL.
#[derive(Debug)]
pub enum UrlError {
    /// The string is not an absolute URL.
    ParseFailed(::url::ParseError),
    /// The URL is not a valid fully-qualified HTTP URL.
    InvalidURLFormat,
    /// The URL is not a known Buildkite URL format.
    UnknownFormat,
}

/// What the Buildkite URL recognition reads of a parsed absolute URL.
pub struct UrlParts {
    /// Whether the URL is a cannot-be-a-base URL (such as `data:text/plain,x`).
    pub cannot_be_a_base: bool,
    /// The host, as the URL parser serialises it, if the URL has one.
    pub host: Option<String>,
    /// The serialised path.
    pub path: String,
}

pub struct UrlPartsView {
    pub cannot_be_a_base: bool,
    pub host: Option<Seq<char>>,
    pub path: Seq<char>,
}

impl View for UrlParts {
    type V = UrlPartsView;

    open spec fn view(&self) -> UrlPartsView {
        UrlPartsView {
            cannot_be_a_base: self.cannot_be_a_base,
            host: match self.host {
                Some(h) => Some(h@),
                None => None,
            },
            path: self.path@,
        }
    }
}

/// What `url::Url::parse` makes of `input`: the parts that this module reads,
/// or the parse error.
pub uninterp spec fn parsed_url(input: Seq<char>) -> Result<UrlPartsView, ::url::ParseError>;

/// Parses `input` with `url::Url::parse` and reads `cannot_be_a_base`,
/// `host_str` and `path` of the result.  Claimed: the outcome is a function of
/// the input's characters alone (`parsed_url`).
#[verifier::external_body]
pub(crate) fn parse_url(input: &str) -> (r: Result<UrlParts, ::url::ParseError>)
    ensures
        match r {
            Ok(parts) => parsed_url(input@) == Ok::<UrlPartsView, ::url::ParseError>(parts@),
            Err(e) => parsed_url(input@) == Err::<UrlPartsView, ::url::ParseError>(e),
        },
{
    let parsed = ::url::Url::parse(input)?;
    Ok(UrlParts {
        cannot_be_a_base: parsed.cannot_be_a_base(),
        host: parsed.host_str().map(|h| h.to_string()),
        path: parsed.path().to_string(),
    })
}

/// What parsing `base` with `url::Url::parse` and then appending `segments`
/// with `PathSegmentsMut::extend` serialises to, or none when `base` does not
/// parse or is a cannot-be-a-base URL.
pub uninterp spec fn url_with_segments(base: Seq<char>, segments: Seq<Seq<char>>) -> Option<Seq<char>>;

/// Parses `base` (`url::Url::parse`), appends `segments` to its path
/// (`Url::path_segments_mut`, then `PathSegmentsMut::extend`, which
/// percent-encodes each segment and skips `.` and `..`) and serialises the
/// result (`Url::as_str`).  Claimed: the outcome is a function of the characters
/// of `base` and of the segments (`url_with_segments`).
#[verifier::external_body]
pub(crate) fn extend_url_path(base: &str, segments: &Vec<String>) -> (r: Option<String>)
    ensures
        match r {
            Some(u) => url_with_segments(base@, strings_view(segments@)) == Some(u@),
            None => url_with_segments(base@, strings_view(segments@)) is None,
        },
{
    let mut url = ::url::Url::parse(base).ok()?;
    url.path_segments_mut().ok()?.extend(segments);
    Some(url.as_str().to_string())
}

/// The path segments of a URL path (`Url::path_segments`): the pieces between
/// slashes after the leading slash, or none when the path does not start with one.
pub open spec fn path_segments(path: Seq<char>) -> Option<Seq<Seq<char>>> {
    if path.len() > 0 && path[0] == '/' {
        Some(split_chars(path.skip(1), '/'))
    } else {
        None
    }
}

/// The organization, pipeline and build number named by a web URL's path.
pub open spec fn web_reference(segs: Seq<Seq<char>>) -> Option<(Seq<char>, Seq<char>, Seq<char>)> {
    if segs.len() >= 4 && segs[2] == "builds"@ {
        Some((segs[0], segs[1], segs[3]))
    } else {
        None
    }
}

/// The organization, pipeline and build number named by an API URL's path.
pub open spec fn api_reference(segs: Seq<Seq<char>>) -> Option<(Seq<char>, Seq<char>, Seq<char>)> {
    if segs.len() == 7 && segs[0] == "v2"@ && segs[1] == "organizations"@ && segs[3] == "pipelines"@
        && segs[5] == "builds"@ {
        Some((segs[2], segs[4], segs[6]))
    } else {
        None
    }
}

/// The build that the parts of a parsed URL name, by organization, pipeline and
/// build number, or why they name none.
pub open spec fn build_reference(parts: UrlPartsView) -> Result<(Seq<char>, Seq<char>, Seq<char>), UrlError> {
    if parts.cannot_be_a_base {
        Err(UrlError::InvalidURLFormat)
    } else {
        match path_segments(parts.path) {
            None => Err(UrlError::InvalidURLFormat),
            Some(segs) => {
                let found = if parts.host == Some("buildkite.com"@) {
                    web_reference(segs)
                } else if parts.host == Some("api.buildkite.com"@) {
                    api_reference(segs)
                } else {
                    None
                };
                match found {
                    Some(t) => Ok(t),
                    None => Err(UrlError::UnknownFormat),
                }
            },
        }
    }
}

/// The path of a build's page: `/<org>/<pipeline>/builds/<number>`.
pub open spec fn web_build_path(organization: Seq<char>, pipeline: Seq<char>, number: Seq<char>) -> Seq<char> {
    seq!['/'] + organization + seq!['/'] + pipeline + seq!['/'] + "builds"@ + seq!['/'] + number
}

/// The REST API path of a build:
/// `/v2/organizations/<org>/pipelines/<pipeline>/builds/<number>`.
pub open spec fn api_build_path(organization: Seq<char>, pipeline: Seq<char>, number: Seq<char>) -> Seq<char> {
    seq!['/'] + "v2"@ + seq!['/'] + "organizations"@ + seq!['/'] + organization + seq!['/'] + "pipelines"@
        + seq!['/'] + pipeline + seq!['/'] + "builds"@ + seq!['/'] + number
}

/// The parts of an `https` URL with `host` and `path`.
pub open spec fn http_parts(host: Seq<char>, path: Seq<char>) -> UrlPartsView {
    UrlPartsView { cannot_be_a_base: false, host: Some(host), path }
}

proof fn lemma_no_slash_in_words()
    ensures
        !"builds"@.contains('/'),
        !"v2"@.contains('/'),
        !"organizations"@.contains('/'),
        !"pipelines"@.contains('/'),
{
    reveal_strlit("builds");
    reveal_strlit("v2");
    reveal_strlit("organizations");
    reveal_strlit("pipelines");
    assert forall|k: int| 0 <= k < "builds"@.len() implies "builds"@[k] != '/' by {};
    assert forall|k: int| 0 <= k < "v2"@.len() implies "v2"@[k] != '/' by {};
    assert forall|k: int| 0 <= k < "organizations"@.len() implies "organizations"@[k] != '/' by {};
    assert forall|k: int| 0 <= k < "pipelines"@.len() implies "pipelines"@[k] != '/' by {};
}

/// The segments of a path made of a slash and `rest`.
proof fn lemma_segments_after_slash(rest: Seq<char>)
    ensures
        path_segments(seq!['/'] + rest) == Some(split_chars(rest, '/')),
{
    assert((seq!['/'] + rest)[0] == '/');
    assert((seq!['/'] + rest).skip(1) =~= rest);
}

/// The segments of `a/b` where `a` has no slash: `a`, then those of `b`.
proof fn lemma_split_first(a: Seq<char>, b: Seq<char>)
    requires
        !a.contains('/'),
    ensures
        split_chars(a + seq!['/'] + b, '/') == seq![a] + split_chars(b, '/'),
{
    lemma_split_chars_join(a, b, '/');
    lemma_split_chars_single(a, '/');
}

/// A Buildkite web URL names the build of its path: organization, pipeline
/// and number from `/<org>/<pipeline>/builds/<number>`, with or without more
/// segments after the number, when none of the three holds a slash.
pub proof fn lemma_web_url_names_build(organization: Seq<char>, pipeline: Seq<char>, number: Seq<char>, rest: Seq<char>)
    requires
        !organization.contains('/'),
        !pipeline.contains('/'),
        !number.contains('/'),
    ensures
        build_reference(http_parts("buildkite.com"@, web_build_path(organization, pipeline, number)))
            == Ok::<(Seq<char>, Seq<char>, Seq<char>), UrlError>((organization, pipeline, number)),
        build_reference(http_parts("buildkite.com"@, web_build_path(organization, pipeline, number) + seq!['/'] + rest))
            == Ok::<(Seq<char>, Seq<char>, Seq<char>), UrlError>((organization, pipeline, number)),
{
    lemma_no_slash_in_words();
    let b = "builds"@;
    let tail = b + seq!['/'] + number;
    let inner = pipeline + seq!['/'] + tail;
    let body = organization + seq!['/'] + inner;
    assert(web_build_path(organization, pipeline, number) =~= seq!['/'] + body);
    lemma_segments_after_slash(body);
    lemma_split_first(organization, inner);
    lemma_split_first(pipeline, tail);
    lemma_split_first(b, number);
    lemma_split_chars_single(number, '/');
    let segs = split_chars(body, '/');
    assert(segs =~= seq![organization, pipeline, b, number]);

    let long_tail = b + seq!['/'] + (number + seq!['/'] + rest);
    let long_inner = pipeline + seq!['/'] + long_tail;
    let long_body = organization + seq!['/'] + long_inner;
    assert(web_build_path(organization, pipeline, number) + seq!['/'] + rest =~= seq!['/'] + long_body);
    lemma_segments_after_slash(long_body);
    lemma_split_first(organization, long_inner);
    lemma_split_first(pipeline, long_tail);
    lemma_split_first(b, number + seq!['/'] + rest);
    lemma_split_first(number, rest);
    let long_segs = split_chars(long_body, '/');
    assert(long_segs =~= seq![organization, pipeline, b, number] + split_chars(rest, '/'));
    assert(long_segs[2] == b && long_segs[0] == organization && long_segs[1] == pipeline && long_segs[3] == number);
}

/// A Buildkite REST API URL names the build of its path, organization,
/// pipeline and number from
/// `/v2/organizations/<org>/pipelines/<pipeline>/builds/<number>`, when none
/// of the three holds a slash; a longer path names none.
pub proof fn lemma_api_url_names_build(organization: Seq<char>, pipeline: Seq<char>, number: Seq<char>, rest: Seq<char>)
    requires
        !organization.contains('/'),
        !pipeline.contains('/'),
        !number.contains('/'),
    ensures
        build_reference(http_parts("api.buildkite.com"@, api_build_path(organization, pipeline, number)))
            == Ok::<(Seq<char>, Seq<char>, Seq<char>), UrlError>((organization, pipeline, number)),
        build_reference(http_parts("api.buildkite.com"@, api_build_path(organization, pipeline, number) + seq!['/'] + rest))
            == Err::<(Seq<char>, Seq<char>, Seq<char>), UrlError>(UrlError::UnknownFormat),
{
    lemma_no_slash_in_words();
    let v2 = "v2"@;
    let orgs = "organizations"@;
    let pipes = "pipelines"@;
    let b = "builds"@;
    let t5 = b + seq!['/'] + number;
    let t4 = pipeline + seq!['/'] + t5;
    let t3 = pipes + seq!['/'] + t4;
    let t2 = organization + seq!['/'] + t3;
    let t1 = orgs + seq!['/'] + t2;
    let body = v2 + seq!['/'] + t1;
    assert(api_build_path(organization, pipeline, number) =~= seq!['/'] + body);
    lemma_segments_after_slash(body);
    lemma_split_first(v2, t1);
    lemma_split_first(orgs, t2);
    lemma_split_first(organization, t3);
    lemma_split_first(pipes, t4);
    lemma_split_first(pipeline, t5);
    lemma_split_first(b, number);
    lemma_split_chars_single(number, '/');
    let segs = split_chars(body, '/');
    assert(segs =~= seq![v2, orgs, organization, pipes, pipeline, b, number]);

    let n5 = b + seq!['/'] + (number + seq!['/'] + rest);
    let n4 = pipeline + seq!['/'] + n5;
    let n3 = pipes + seq!['/'] + n4;
    let n2 = organization + seq!['/'] + n3;
    let n1 = orgs + seq!['/'] + n2;
    let long_body = v2 + seq!['/'] + n1;
    assert(api_build_path(organization, pipeline, number) + seq!['/'] + rest =~= seq!['/'] + long_body);
    lemma_segments_after_slash(long_body);
    lemma_split_first(v2, n1);
    lemma_split_first(orgs, n2);
    lemma_split_first(organization, n3);
    lemma_split_first(pipes, n4);
    lemma_split_first(pipeline, n5);
    lemma_split_first(b, number + seq!['/'] + rest);
    lemma_split_first(number, rest);
    crate::text::lemma_split_chars_nonempty(rest, '/');
    let long_segs = split_chars(long_body, '/');
    assert(long_segs =~= seq![v2, orgs, organization, pipes, pipeline, b, number] + split_chars(rest, '/'));
    assert(long_segs.len() > 7);
    reveal_strlit("buildkite.com");
    reveal_strlit("api.buildkite.com");
    assert("api.buildkite.com"@ != "buildkite.com"@) by {
        assert("api.buildkite.com"@.len() != "buildkite.com"@.len());
    };
}

/// The views of a triple of strings.
pub open spec fn triple_view(t: (String, String, String)) -> (Seq<char>, Seq<char>, Seq<char>) {
    (t.0@, t.1@, t.2@)
}

/// Whether `r` is the result of a reference lookup `expected`, strings taken by view.
pub open spec fn reference_result_matches(
    r: Result<(String, String, String), UrlError>,
    expected: Result<(Seq<char>, Seq<char>, Seq<char>), UrlError>,
) -> bool {
    match r {
        Ok(t) => expected == Ok::<(Seq<char>, Seq<char>, Seq<char>), UrlError>(triple_view(t)),
        Err(e) => expected == Err::<(Seq<char>, Seq<char>, Seq<char>), UrlError>(e),
    }
}

fn string_is(s: &String, lit: &str) -> (r: bool)
    ensures
        r == (s@ == lit@),
{
    str_eq(s.as_str(), lit)
}

/// Reads the organization, pipeline and build number from the parts of a
/// parsed Buildkite URL.
pub fn build_number_from_parts(parts: &UrlParts) -> (r: Result<(String, String, String), UrlError>)
    ensures
        reference_result_matches(r, build_reference(parts@)),
{
    if parts.cannot_be_a_base {
        return Err(UrlError::InvalidURLFormat);
    }
    let path = parts.path.as_str();
    let n = path.unicode_len();
    if n == 0 || path.get_char(0) != '/' {
        return Err(UrlError::InvalidURLFormat);
    }
    let segments = split_from(path, 1, '/');
    let ghost segs = strings_view(segments@);
    assert(path_segments(parts.path@) == Some(segs));
    let len = segments.len();
    match &parts.host {
        Some(host) => {
            if string_is(host, "buildkite.com") {
                if len >= 4 && string_is(&segments[2], "builds") {
                    assert(segs[2] == segments@[2]@);
                    return Ok((segments[0].clone(), segments[1].clone(), segments[3].clone()));
                }
                return Err(UrlError::UnknownFormat);
            }
            if string_is(host, "api.buildkite.com") {
                if len == 7 && string_is(&segments[0], "v2") && string_is(&segments[1], "organizations")
                    && string_is(&segments[3], "pipelines") && string_is(&segments[5], "builds") {
                    assert(segs[0] == segments@[0]@ && segs[1] == segments@[1]@);
                    assert(segs[3] == segments@[3]@ && segs[5] == segments@[5]@);
                    return Ok((segments[2].clone(), segments[4].clone(), segments[6].clone()));
                }
                return Err(UrlError::UnknownFormat);
            }
            Err(UrlError::UnknownFormat)
        },
        None => Err(UrlError::UnknownFormat),
    }
}

/// Reads the organization, pipeline and build number from a Buildkite web or
/// API build URL.
pub fn build_number(input: &str) -> (r: Result<(String, String, String), UrlError>)
    ensures
        match parsed_url(input@) {
            Err(e) => r matches Err(UrlError::ParseFailed(pe)) && pe == e,
            Ok(parts) => reference_result_matches(r, build_reference(parts)),
        },
{
    match parse_url(input) {
        Err(e) => Err(UrlError::ParseFailed(e)),
        Ok(parts) => build_number_from_parts(&parts),
    }
}

} // verus!
