//! The Buildkite REST API client configuration, and the requests that the
//! waiter sends through it.

use vstd::prelude::*;
use crate::text::str_eq;

verus! {

/// The base URL of Buildkite's public REST API.
pub const PUBLIC_BUILDKITE_API_URL: &'static str = "https://api.buildkite.com/v2";

/// The base URL of Buildkite's public REST API as the typed API client holds
/// it, with a trailing slash; path segments are appended after that slash.
pub const PUBLIC_API_BASE_URL: &'static str = "https://api.buildkite.com/v2/";

/// How the client proves who it acts for.
pub enum BuildkiteCredentials {
    /// A Buildkite API Access Token, sent as a bearer token.
    ApiAccessToken(String),
}

impl Clone for BuildkiteCredentials {
    fn clone(&self) -> (r: Self)
        ensures
            r == *self,
    {
        match self {
            BuildkiteCredentials::ApiAccessToken(t) => BuildkiteCredentials::ApiAccessToken(t.clone()),
        }
    }
}

/// Why a request could not be made or answered.
#[derive(Debug)]
pub enum RequestError {
    /// This call requires credentials.
    CredentialsRequired,
    /// The client's API base URL cannot take path segments.
    InvalidApiUrl,
    /// The request failed on its way or was answered with an error; the text
    /// says how.
    Http(String),
}

/// One GET request to the REST API, ready to send: the URL, the value of the
/// `Authorization` header, and the query pairs in order.
pub struct ApiRequest {
    pub url: String,
    pub authorization: String,
    pub query: Vec<(String, String)>,
}

/// The views of a sequence of query pairs.
pub open spec fn pairs_view(v: Seq<(String, String)>) -> Seq<(Seq<char>, Seq<char>)> {
    v.map_values(|p: (String, String)| (p.0@, p.1@))
}

/// The pairs `(key, v)` for each `v` of `values`, in order.
pub open spec fn tagged(key: Seq<char>, values: Seq<Seq<char>>) -> Seq<(Seq<char>, Seq<char>)> {
    values.map_values(|v: Seq<char>| (key, v))
}

/// The pair `(key, v)` when there is a `v`, else nothing.
pub open spec fn optional_pair(key: Seq<char>, value: Option<Seq<char>>) -> Seq<(Seq<char>, Seq<char>)> {
    match value {
        Some(v) => seq![(key, v)],
        None => Seq::empty(),
    }
}

/// The view of an optional string slice.
pub open spec fn opt_str_view(o: Option<&str>) -> Option<Seq<char>> {
    match o {
        Some(s) => Some(s@),
        None => None,
    }
}

/// The view of an optional string.
pub open spec fn opt_string_view(o: Option<String>) -> Option<Seq<char>> {
    match o {
        Some(s) => Some(s@),
        None => None,
    }
}

/// Appends `(key, v)` for each `v` of `values`.
pub(crate) fn push_tagged(query: &mut Vec<(String, String)>, key: &str, values: &Vec<String>)
    ensures
        pairs_view(final(query)@) == pairs_view(old(query)@) + tagged(key@, values@.map_values(|v: String| v@)),
{
    let ghost start = pairs_view(query@);
    let ghost vals = values@.map_values(|v: String| v@);
    let mut i: usize = 0;
    while i < values.len()
        invariant
            i <= values@.len(),
            vals == values@.map_values(|v: String| v@),
            pairs_view(query@) == start + tagged(key@, vals.subrange(0, i as int)),
        decreases values@.len() - i,
    {
        let k = key.to_owned();
        let v = values[i].clone();
        let ghost before = query@;
        query.push((k, v));
        proof {
            assert(pairs_view(query@) =~= pairs_view(before).push((key@, values@[i as int]@)));
            assert(tagged(key@, vals.subrange(0, i + 1)) =~= tagged(key@, vals.subrange(0, i as int)).push((key@, values@[i as int]@)));
            assert(vals.subrange(0, i + 1) =~= vals.subrange(0, i as int).push(values@[i as int]@));
            assert(pairs_view(query@) =~= start + tagged(key@, vals.subrange(0, i + 1)));
        }
        i = i + 1;
    }
    assert(vals.subrange(0, values@.len() as int) =~= vals);
}

/// Appends `(key, value)` when there is a value.
pub(crate) fn push_optional(query: &mut Vec<(String, String)>, key: &str, value: Option<&str>)
    ensures
        pairs_view(final(query)@) == pairs_view(old(query)@) + optional_pair(key@, opt_str_view(value)),
{
    let ghost start = pairs_view(query@);
    match value {
        Some(v) => {
            query.push((key.to_owned(), v.to_owned()));
            assert(pairs_view(query@) =~= start + optional_pair(key@, opt_str_view(value)));
        },
        None => {
            assert(pairs_view(query@) =~= start + optional_pair(key@, opt_str_view(value)));
        },
    }
}

/// Which builds a listing covers.
pub enum BuildScope {
    All,
    Organization(String),
    Pipeline(String, String),
}

/// A scope as contracts see it.
pub enum ScopeView {
    All,
    Organization(Seq<char>),
    Pipeline(Seq<char>, Seq<char>),
}

impl View for BuildScope {
    type V = ScopeView;

    open spec fn view(&self) -> ScopeView {
        match self {
            BuildScope::All => ScopeView::All,
            BuildScope::Organization(o) => ScopeView::Organization(o@),
            BuildScope::Pipeline(o, p) => ScopeView::Pipeline(o@, p@),
        }
    }
}

/// The REST API path that lists the builds of a scope.
pub open spec fn scope_path(scope: ScopeView) -> Seq<char> {
    match scope {
        ScopeView::All => "builds"@,
        ScopeView::Organization(o) => "organizations/"@ + o + "/builds"@,
        ScopeView::Pipeline(o, p) => "organizations/"@ + o + "/pipelines/"@ + p + "/builds"@,
    }
}

impl BuildScope {
    /// The REST API path that lists the builds of this scope.
    pub fn path(&self) -> (r: String)
        ensures
            r@ == scope_path(self@),
    {
        match self {
            BuildScope::All => "builds".to_owned(),
            BuildScope::Organization(o) => {
                let mut s = "organizations/".to_owned();
                s.append(o.as_str());
                s.append("/builds");
                s
            },
            BuildScope::Pipeline(o, p) => {
                let mut s = "organizations/".to_owned();
                s.append(o.as_str());
                s.append("/pipelines/");
                s.append(p.as_str());
                s.append("/builds");
                s
            },
        }
    }
}

/// The REST API path of one build of a pipeline.
pub open spec fn build_path(organization: Seq<char>, pipeline: Seq<char>, number: Seq<char>) -> Seq<char> {
    "organizations/"@ + organization + "/pipelines/"@ + pipeline + "/builds/"@ + number
}

/// The query that filters a build listing: one `branch[]` pair per branch, one
/// `state[]` pair per state, then `creator` and `commit` when given.
pub open spec fn filter_query(
    branches: Seq<Seq<char>>,
    states: Seq<Seq<char>>,
    creator: Option<Seq<char>>,
    commit: Option<Seq<char>>,
) -> Seq<(Seq<char>, Seq<char>)> {
    tagged("branch[]"@, branches) + tagged("state[]"@, states) + optional_pair("creator"@, creator)
        + optional_pair("commit"@, commit)
}

/// The pairs of a build-listing query, counted and placed: one `branch[]` pair
/// per branch, then one `state[]` pair per state, then `("creator", cr)` when a
/// creator is given, then `("commit", c)` when a commit is given, whether or not
/// there is a creator.
pub proof fn lemma_filter_query_filters(
    branches: Seq<Seq<char>>,
    states: Seq<Seq<char>>,
    creator: Option<Seq<char>>,
    commit: Option<Seq<char>>,
)
    ensures
        ({
            let q = filter_query(branches, states, creator, commit);
            let nb = branches.len() as int;
            let ns = states.len() as int;
            let nc = if creator is Some { 1int } else { 0int };
            &&& q.len() == nb + ns + nc + (if commit is Some { 1int } else { 0int })
            &&& forall|i: int| 0 <= i < nb ==> #[trigger] q[i] == ("branch[]"@, branches[i])
            &&& forall|i: int| 0 <= i < ns ==> #[trigger] q[nb + i] == ("state[]"@, states[i])
            &&& creator matches Some(cr) ==> q[nb + ns] == ("creator"@, cr)
            &&& commit matches Some(c) ==> q[nb + ns + nc] == ("commit"@, c) && q.last() == ("commit"@, c)
        }),
{
}

/// The value of the `Authorization` header for an API Access Token.
pub open spec fn bearer(token: Seq<char>) -> Seq<char> {
    "Bearer "@ + token
}

/// The access token of a client's credentials, if it has any.
pub open spec fn token_of(credentials: Option<BuildkiteCredentials>) -> Option<Seq<char>> {
    match credentials {
        Some(BuildkiteCredentials::ApiAccessToken(t)) => Some(t@),
        None => None,
    }
}

/// A Buildkite REST API client: where the API is, and the credentials it sends.
pub struct Buildkite {
    pub api_url: String,
    pub(crate) credentials: Option<BuildkiteCredentials>,
}

/// A client as its contracts see it: the API base URL and the access token it
/// sends, if any.
pub struct BuildkiteView {
    pub api_url: Seq<char>,
    pub token: Option<Seq<char>>,
}

impl View for Buildkite {
    type V = BuildkiteView;

    closed spec fn view(&self) -> BuildkiteView {
        BuildkiteView { api_url: self.api_url@, token: token_of(self.credentials) }
    }
}

/// What a client's view says of its fields.
pub(crate) proof fn lemma_client_view(c: &Buildkite)
    ensures
        c@.api_url == c.api_url@,
        c@.token == token_of(c.credentials),
{
}

impl Clone for Buildkite {
    fn clone(&self) -> (r: Self)
        ensures
            r == *self,
    {
        Buildkite {
            api_url: self.api_url.clone(),
            credentials: match &self.credentials {
                Some(c) => Some(c.clone()),
                None => None,
            },
        }
    }
}

impl Default for Buildkite {
    fn default() -> (r: Self)
        ensures
            r@.api_url == PUBLIC_BUILDKITE_API_URL@,
            r@.token is None,
    {
        Buildkite::new(PUBLIC_BUILDKITE_API_URL)
    }
}

/// Whether a request answers `url` with the client's credentials and no query,
/// or the client has none.
pub open spec fn request_for(
    client: Buildkite,
    url: Seq<char>,
    query: Seq<(Seq<char>, Seq<char>)>,
    r: Result<ApiRequest, RequestError>,
) -> bool {
    match client@.token {
        Some(token) => r matches Ok(req) && req.url@ == url && req.authorization@ == bearer(token)
            && pairs_view(req.query@) == query,
        None => r matches Err(e) && e == RequestError::CredentialsRequired,
    }
}

impl Buildkite {
    /// A client for the API at `api_url`, without credentials.
    pub fn new(api_url: &str) -> (r: Self)
        ensures
            r@.api_url == api_url@,
            r@.token is None,
    {
        Buildkite { api_url: api_url.to_owned(), credentials: None }
    }

    /// A client for the public API (at `PUBLIC_API_BASE_URL`) that sends
    /// `token` as its API Access Token.
    pub fn authenticated(token: &str) -> (r: Self)
        ensures
            r@.api_url == PUBLIC_API_BASE_URL@,
            r@.token == Some(token@),
    {
        Buildkite {
            api_url: PUBLIC_API_BASE_URL.to_owned(),
            credentials: Some(BuildkiteCredentials::ApiAccessToken(token.to_owned())),
        }
    }

    /// The same client, aimed at the API at `new_base`.
    pub fn api_url(self, new_base: &str) -> (r: Self)
        ensures
            r@.api_url == new_base@,
            r@.token == self@.token,
    {
        let mut s = self;
        s.api_url = new_base.to_owned();
        s
    }

    /// Sets the credentials that the client sends.
    pub fn credentials(&mut self, credentials: BuildkiteCredentials) -> (r: &mut Self)
        ensures
            r@.api_url == old(self)@.api_url,
            r@.token == token_of(Some(credentials)),
            *final(self) == *final(r),
    {
        self.credentials = Some(credentials);
        self
    }

    /// Whether the client has credentials to send.
    pub fn has_credentials(&self) -> (r: bool)
        ensures
            r == (self@.token is Some),
    {
        self.credentials.is_some()
    }

    /// The `Authorization` header value: a bearer token when the client has
    /// credentials.
    pub fn authorization(&self) -> (r: Result<String, RequestError>)
        ensures
            match self@.token {
                Some(token) => r matches Ok(h) && h@ == bearer(token),
                None => r matches Err(e) && e == RequestError::CredentialsRequired,
            },
    {
        match &self.credentials {
            Some(BuildkiteCredentials::ApiAccessToken(token)) => {
                let mut h = "Bearer ".to_owned();
                h.append(token.as_str());
                Ok(h)
            },
            None => Err(RequestError::CredentialsRequired),
        }
    }

    /// A GET request for `url`, carrying the client's credentials.
    pub fn request(&self, url: &str) -> (r: Result<ApiRequest, RequestError>)
        ensures
            request_for(*self, url@, Seq::empty(), r),
    {
        let authorization = self.authorization()?;
        let query: Vec<(String, String)> = Vec::new();
        let req = ApiRequest { url: url.to_owned(), authorization, query };
        assert(pairs_view(req.query@) =~= Seq::empty());
        Ok(req)
    }

    /// The URL of `path` under the client's API base URL.
    pub fn path_url(&self, path: &str) -> (r: String)
        ensures
            r@ == self@.api_url + "/"@ + path@,
    {
        let mut s = self.api_url.clone();
        s.append("/");
        s.append(path);
        s
    }

    /// A GET request for `path` under the client's API base URL.
    pub fn path_request(&self, path: &str) -> (r: Result<ApiRequest, RequestError>)
        ensures
            request_for(*self, self@.api_url + "/"@ + path@, Seq::empty(), r),
    {
        let url = self.path_url(path);
        self.request(url.as_str())
    }

    /// The request that fetches the build at its REST API URL.
    pub fn build_by_url_request(&self, url: &str) -> (r: Result<ApiRequest, RequestError>)
        ensures
            request_for(*self, url@, Seq::empty(), r),
    {
        self.request(url)
    }

    /// The request that fetches build `number` of a pipeline.
    pub fn build_by_number_request(&self, organization: &str, pipeline: &str, number: &str) -> (r: Result<ApiRequest, RequestError>)
        ensures
            request_for(*self, self@.api_url + "/"@ + build_path(organization@, pipeline@, number@), Seq::empty(), r),
    {
        let mut path = "organizations/".to_owned();
        path.append(organization);
        path.append("/pipelines/");
        path.append(pipeline);
        path.append("/builds/");
        path.append(number);
        self.path_request(path.as_str())
    }

    /// The request that lists the builds of a scope that match the filters,
    /// newest first.
    pub fn latest_build_request(
        &self,
        scope: &BuildScope,
        branches: &Vec<String>,
        creator: Option<&str>,
        commit: Option<&str>,
        states: &Vec<String>,
    ) -> (r: Result<ApiRequest, RequestError>)
        ensures
            request_for(
                *self,
                self@.api_url + "/"@ + scope_path(scope@),
                filter_query(
                    branches@.map_values(|v: String| v@),
                    states@.map_values(|v: String| v@),
                    opt_str_view(creator),
                    opt_str_view(commit),
                ),
                r,
            ),
    {
        let path = scope.path();
        let mut req = self.path_request(path.as_str())?;
        let mut query: Vec<(String, String)> = Vec::new();
        push_tagged(&mut query, "branch[]", branches);
        push_tagged(&mut query, "state[]", states);
        push_optional(&mut query, "creator", creator);
        push_optional(&mut query, "commit", commit);
        proof {
            assert(pairs_view(query@) =~= filter_query(
                branches@.map_values(|v: String| v@),
                states@.map_values(|v: String| v@),
                opt_str_view(creator),
                opt_str_view(commit),
            ));
        }
        req.query = query;
        Ok(req)
    }

    /// The request that fetches the user who holds the client's API Access Token.
    pub fn access_token_holder_request(&self) -> (r: Result<ApiRequest, RequestError>)
        ensures
            request_for(*self, self@.api_url + "/"@ + "user"@, Seq::empty(), r),
    {
        self.path_request("user")
    }
}

/// The keyring account under which the access token for the API at `api_url`
/// is kept: the public API's URL with a trailing slash, any other URL as it is.
pub open spec fn keyring_account(api_url: Seq<char>) -> Seq<char> {
    if api_url == "https://api.buildkite.com/v2"@ {
        "https://api.buildkite.com/v2/"@
    } else {
        api_url
    }
}

/// The keyring account under which the access token for the API at `api_url`
/// is kept.
pub fn keyring_service_username(api_url: &str) -> (r: String)
    ensures
        r@ == keyring_account(api_url@),
{
    if str_eq(api_url, "https://api.buildkite.com/v2") {
        "https://api.buildkite.com/v2/".to_owned()
    } else {
        api_url.to_owned()
    }
}

/// A client without credentials refuses every request; one with credentials
/// sends its token as a bearer token on every request.
pub proof fn lemma_requests_need_credentials(client: Buildkite, url: Seq<char>, r: Result<ApiRequest, RequestError>)
    requires
        request_for(client, url, Seq::empty(), r),
    ensures
        client@.token is None <==> (r matches Err(e) && e == RequestError::CredentialsRequired),
        r matches Ok(req) ==> (client@.token matches Some(t) && req.authorization@ == "Bearer "@ + t),
{
}

} // verus!
