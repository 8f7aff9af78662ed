//! The command line's arguments, and the decisions that they settle.

use vstd::prelude::*;
use crate::api::{
    fresh_listing, with_branches, with_commit, with_creator, with_per_page, with_states, ListRequestBuilder,
    ListRequestView,
};
use crate::client::{
    build_path, filter_query, opt_str_view, request_for, scope_path, ApiRequest, BuildScope, Buildkite,
    RequestError, ScopeView,
};
use crate::text::{decimal, decimal_string, parse_u32, parsed_u32, split_from, str_eq, strings_view};
use crate::url::{
    build_number, build_reference, parse_url, parsed_url, path_segments, reference_result_matches,
    web_reference, UrlError, UrlPartsView,
};

verus! {

/// What is printed once the build has finished.
#[derive(Copy, Clone, Debug, PartialEq, Eq, Structural)]
pub enum OutputType {
    /// Notification title and message.
    NotificationLines,
    /// Build state and browser URL.
    StateUrl,
    /// No output (`none` on the command line).
    Nothing,
}

impl Default for OutputType {
    fn default() -> (r: Self)
        ensures
            r == OutputType::StateUrl,
    {
        OutputType::StateUrl
    }
}

/// The parsed command line.
pub struct Cli {
    pub command: Commands,
}

/// The commands of the tool.  (The variants share field names with types of
/// their own, so Verus's `->` field syntax is not offered for them.)
#[allow(inconsistent_fields)]
pub enum Commands {
    /// Save a Buildkite API Access Token.
    Login,
    /// Remove the saved Buildkite API token.
    Logout,
    /// Wait for a build specified by Buildkite web URL.
    ByUrl { output: OutputArgs, runtime: RuntimeArgs, strategy: ByUrlStrategyArgs },
    /// Wait for a build specified by organization, pipeline and number.
    ByNumber { output: OutputArgs, runtime: RuntimeArgs, strategy: ByNumberStrategyArgs },
    /// Wait for the latest build matching certain filter criteria.
    Latest { output: OutputArgs, runtime: RuntimeArgs, strategy: LatestStrategyArgs },
}

/// A build named by organization slug, pipeline slug and build number.
pub struct ByNumberStrategyArgs {
    pub organization: String,
    pub pipeline: String,
    pub number: u32,
}

/// A build named by its URL.
pub struct ByUrlStrategyArgs {
    /// The URL, as the URL parser serialised it.
    pub url: String,
}

/// Filters that pick the latest matching build.
pub struct LatestStrategyArgs {
    pub organization: Option<String>,
    pub pipeline: Option<String>,
    pub branch: Vec<String>,
    /// Find the builds created by the owner of the API Access Token.
    pub mine: bool,
    /// Find the builds created by this creator ID.
    pub creator: Option<String>,
    /// Find the builds of this (long) commit hash.
    pub commit: Option<String>,
    pub state: Vec<String>,
}

/// How long to wait.
pub struct RuntimeArgs {
    /// Maximum time to wait for the build, in seconds.
    pub timeout: u32,
    pub request_cooldown: Option<u32>,
}

/// What to report once the build has finished.
pub struct OutputArgs {
    /// Deprecated: system notifications are sent by default.
    pub notification: bool,
    /// Never send a system notification.
    pub no_notification: bool,
    pub output: OutputType,
}

impl OutputArgs {
    /// Whether a system notification is sent when the build finishes.
    pub fn should_notify(&self) -> (r: bool)
        ensures
            r == !self.no_notification,
    {
        !self.no_notification
    }
}

impl ByNumberStrategyArgs {
    /// The request that fetches the named build.
    pub fn build_request(&self, client: &Buildkite) -> (r: Result<ApiRequest, RequestError>)
        ensures
            request_for(
                *client,
                client@.api_url + "/"@ + build_path(self.organization@, self.pipeline@, decimal(self.number as nat)),
                Seq::empty(),
                r,
            ),
    {
        let number = decimal_string(self.number as u64);
        client.build_by_number_request(self.organization.as_str(), self.pipeline.as_str(), number.as_str())
    }
}

/// Why a build URL names no build.
#[derive(Debug)]
pub enum LocateError {
    /// The text is not an absolute URL.
    InvalidUrl(::url::ParseError),
    /// The URL is a cannot-be-a-base URL.
    UnexpectedFormat,
    /// The URL has no path segments.
    NoPath,
    /// The path is not `<org>/<pipeline>/builds/<number>/...`.
    UnexpectedPath,
    /// The build number is not a 32-bit decimal number.
    InvalidNumber,
}

impl LocateError {
    /// What the error says to the user.
    pub fn message(&self) -> (r: &'static str)
        ensures
            r@ == match self {
                LocateError::InvalidUrl(_) => "URL could not be parsed"@,
                LocateError::UnexpectedFormat => "URL was not in an expected format"@,
                LocateError::NoPath => "Unable to interpret path from URL"@,
                LocateError::UnexpectedPath => "URL Path was not in an expected format"@,
                LocateError::InvalidNumber => "Unable to determine build number"@,
            },
    {
        match self {
            LocateError::InvalidUrl(_) => "URL could not be parsed",
            LocateError::UnexpectedFormat => "URL was not in an expected format",
            LocateError::NoPath => "Unable to interpret path from URL",
            LocateError::UnexpectedPath => "URL Path was not in an expected format",
            LocateError::InvalidNumber => "Unable to determine build number",
        }
    }
}

/// The build that the parts of a URL name by their path alone, whatever the
/// host: organization, pipeline and number from `<org>/<pipeline>/builds/<number>`
/// and anything after it.
pub open spec fn path_locator(parts: UrlPartsView) -> Result<(Seq<char>, Seq<char>, u32), LocateError> {
    if parts.cannot_be_a_base {
        Err(LocateError::UnexpectedFormat)
    } else {
        match path_segments(parts.path) {
            None => Err(LocateError::NoPath),
            Some(segs) => match web_reference(segs) {
                None => Err(LocateError::UnexpectedPath),
                Some((o, p, raw)) => match parsed_u32(raw) {
                    None => Err(LocateError::InvalidNumber),
                    Some(n) => Ok((o, p, n)),
                },
            },
        }
    }
}

/// Whether `r` is the locator `expected`, strings taken by view.
pub open spec fn locator_matches(
    r: Result<(String, String, u32), LocateError>,
    expected: Result<(Seq<char>, Seq<char>, u32), LocateError>,
) -> bool {
    match r {
        Ok((o, p, n)) => expected == Ok::<(Seq<char>, Seq<char>, u32), LocateError>((o@, p@, n)),
        Err(e) => expected == Err::<(Seq<char>, Seq<char>, u32), LocateError>(e),
    }
}

/// Reads organization, pipeline and build number from the parts of a parsed
/// URL by path alone.
pub fn locate_in_parts(parts: &crate::url::UrlParts) -> (r: Result<(String, String, u32), LocateError>)
    ensures
        locator_matches(r, path_locator(parts@)),
{
    if parts.cannot_be_a_base {
        return Err(LocateError::UnexpectedFormat);
    }
    let path = parts.path.as_str();
    let n = path.unicode_len();
    if n == 0 || path.get_char(0) != '/' {
        return Err(LocateError::NoPath);
    }
    let segments = split_from(path, 1, '/');
    let ghost segs = strings_view(segments@);
    assert(path_segments(parts.path@) == Some(segs));
    if segments.len() >= 4 && str_eq(segments[2].as_str(), "builds") {
        assert(segs[2] == segments@[2]@ && segs[3] == segments@[3]@);
        match parse_u32(segments[3].as_str()) {
            None => Err(LocateError::InvalidNumber),
            Some(number) => Ok((segments[0].clone(), segments[1].clone(), number)),
        }
    } else {
        Err(LocateError::UnexpectedPath)
    }
}

/// On a Buildkite web URL the two readings agree: reading by path alone finds
/// the organization and pipeline that the host-checked reading finds, with the
/// build number read as a number, and fails wherever that reading fails.
pub proof fn lemma_locate_agrees_on_web_urls(parts: UrlPartsView)
    requires
        parts.host == Some("buildkite.com"@),
    ensures
        match build_reference(parts) {
            Ok((o, p, raw)) => path_locator(parts) == match parsed_u32(raw) {
                Some(n) => Ok::<(Seq<char>, Seq<char>, u32), LocateError>((o, p, n)),
                None => Err::<(Seq<char>, Seq<char>, u32), LocateError>(LocateError::InvalidNumber),
            },
            Err(_) => path_locator(parts) is Err,
        },
{
}

impl ByUrlStrategyArgs {
    /// The organization, pipeline and build number of a Buildkite web or API
    /// build URL, the host and layout checked.
    pub fn build_reference(&self) -> (r: Result<(String, String, String), UrlError>)
        ensures
            match parsed_url(self.url@) {
                Err(e) => r matches Err(UrlError::ParseFailed(pe)) && pe == e,
                Ok(parts) => reference_result_matches(r, build_reference(parts)),
            },
    {
        build_number(self.url.as_str())
    }

    /// The organization, pipeline and build number read from the URL's path
    /// alone (`<org>/<pipeline>/builds/<number>`, whatever follows).
    pub fn locate(&self) -> (r: Result<(String, String, u32), LocateError>)
        ensures
            match parsed_url(self.url@) {
                Err(e) => r matches Err(LocateError::InvalidUrl(pe)) && pe == e,
                Ok(parts) => locator_matches(r, path_locator(parts)),
            },
    {
        match parse_url(self.url.as_str()) {
            Err(e) => Err(LocateError::InvalidUrl(e)),
            Ok(parts) => locate_in_parts(&parts),
        }
    }
}

/// Whose builds the `latest` command looks for.
pub enum CreatorFilter {
    /// The builds of this creator ID.
    Creator(String),
    /// The builds of the owner of the API Access Token, whose ID must be fetched.
    TokenHolder,
    /// Builds of any creator.
    Anyone,
}

/// Why the filters of `latest` name no listing.
#[derive(Debug, PartialEq, Eq, Structural)]
pub enum LatestError {
    /// A pipeline was given without its organization.
    OrganizationRequired,
}

impl LatestError {
    /// What the error says to the user.
    pub fn message(&self) -> (r: &'static str)
        ensures
            r@ == match self {
                LatestError::OrganizationRequired => "Organization is required if pipeline is provided"@,
            },
    {
        match self {
            LatestError::OrganizationRequired => "Organization is required if pipeline is provided",
        }
    }
}

/// The scope that the organization and pipeline filters select.
pub open spec fn latest_scope(organization: Option<String>, pipeline: Option<String>) -> ScopeView {
    match organization {
        Some(o) => match pipeline {
            Some(p) => ScopeView::Pipeline(o@, p@),
            None => ScopeView::Organization(o@),
        },
        None => ScopeView::All,
    }
}

/// The view of an optional string.
pub open spec fn opt_view(o: Option<String>) -> Option<Seq<char>> {
    match o {
        Some(s) => Some(s@),
        None => None,
    }
}

/// A listing with a filter when one is given.
pub open spec fn maybe_creator(v: ListRequestView, creator: Option<Seq<char>>) -> ListRequestView {
    match creator {
        Some(c) => with_creator(v, c),
        None => v,
    }
}

/// A listing with a commit filter when one is given.
pub open spec fn maybe_commit(v: ListRequestView, commit: Option<Seq<char>>) -> ListRequestView {
    match commit {
        Some(c) => with_commit(v, c),
        None => v,
    }
}

impl LatestStrategyArgs {
    /// The scope to search: the pipeline when an organization and a pipeline
    /// are given, the organization when only it is, else every build.
    pub fn scope(&self) -> (r: BuildScope)
        ensures
            r@ == latest_scope(self.organization, self.pipeline),
    {
        match &self.organization {
            Some(o) => match &self.pipeline {
                Some(p) => BuildScope::Pipeline(o.clone(), p.clone()),
                None => BuildScope::Organization(o.clone()),
            },
            None => BuildScope::All,
        }
    }

    /// The scope to search, checked before any request is made: a pipeline
    /// needs its organization.
    pub fn checked_scope(&self) -> (r: Result<BuildScope, LatestError>)
        ensures
            (self.pipeline is Some && self.organization is None) <==> r is Err,
            r matches Err(e) ==> e == LatestError::OrganizationRequired,
            r matches Ok(s) ==> s@ == latest_scope(self.organization, self.pipeline),
    {
        if self.pipeline.is_some() && self.organization.is_none() {
            Err(LatestError::OrganizationRequired)
        } else {
            Ok(self.scope())
        }
    }

    /// Whose builds to look for: a given creator ID first, else the token's
    /// owner when `--mine` is set, else anyone's.
    pub fn creator_filter(&self) -> (r: CreatorFilter)
        ensures
            match self.creator {
                Some(c) => r matches CreatorFilter::Creator(x) && x@ == c@,
                None => if self.mine { r is TokenHolder } else { r is Anyone },
            },
    {
        match &self.creator {
            Some(c) => CreatorFilter::Creator(c.clone()),
            None => if self.mine {
                CreatorFilter::TokenHolder
            } else {
                CreatorFilter::Anyone
            },
        }
    }

    /// The request that lists the matching builds, newest first, filtered by
    /// `creator` (the creator that `creator_filter` settled on).
    pub fn latest_request(&self, client: &Buildkite, creator: Option<&str>) -> (r: Result<ApiRequest, RequestError>)
        ensures
            request_for(
                *client,
                client@.api_url + "/"@ + scope_path(latest_scope(self.organization, self.pipeline)),
                filter_query(
                    strings_view(self.branch@),
                    strings_view(self.state@),
                    opt_str_view(creator),
                    opt_view(self.commit),
                ),
                r,
            ),
    {
        let scope = self.scope();
        let commit = match &self.commit {
            Some(c) => Some(c.as_str()),
            None => None,
        };
        let r = client.latest_build_request(&scope, &self.branch, creator, commit, &self.state);
        assert(strings_view(self.branch@) =~= self.branch@.map_values(|v: String| v@));
        assert(strings_view(self.state@) =~= self.state@.map_values(|v: String| v@));
        r
    }

    /// The listing of the single latest matching build through the builds
    /// API: a pipeline needs its organization; one build a page; then the
    /// branch, state, creator (the one that `creator_filter` settled on) and
    /// commit filters.
    pub fn listing(&self, client: &Buildkite, creator: Option<&str>) -> (r: Result<ListRequestBuilder, LatestError>)
        ensures
            (self.pipeline is Some && self.organization is None) <==> r is Err,
            r matches Err(e) ==> e == LatestError::OrganizationRequired,
            r matches Ok(l) ==> l@ == maybe_commit(
                maybe_creator(
                    with_states(
                        with_branches(
                            with_per_page(fresh_listing(client@, latest_scope(self.organization, self.pipeline)), 1),
                            strings_view(self.branch@),
                        ),
                        strings_view(self.state@),
                    ),
                    opt_str_view(creator),
                ),
                opt_view(self.commit),
            ),
    {
        let builds = client.builds();
        let mut req = match &self.pipeline {
            Some(p) => match &self.organization {
                Some(o) => builds.pipeline(o.as_str(), p.as_str()),
                None => {
                    return Err(LatestError::OrganizationRequired);
                },
            },
            None => match &self.organization {
                Some(o) => builds.organization(o.as_str()),
                None => builds.all(),
            },
        };
        assert(req@.scope == latest_scope(self.organization, self.pipeline));
        req = req.per_page(1);
        req = req.branches(&self.branch);
        req = req.states(&self.state);
        if let Some(c) = creator {
            req = req.creator(c);
        }
        if let Some(c) = &self.commit {
            req = req.commit(c.as_str());
        }
        Ok(req)
    }
}

} // verus!
