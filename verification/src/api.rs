//! Builders for build listings, in the style of a typed API client: choose a
//! scope, add filters, then take the request.

use vstd::prelude::*;
use crate::client::{
    filter_query, pairs_view, push_optional, push_tagged, opt_string_view,
    ApiRequest, BuildScope, Buildkite, ScopeView, BuildkiteView, RequestError, lemma_client_view,
};
use crate::text::{decimal, decimal_string, strings_view};
use crate::url::{extend_url_path, url_with_segments};

verus! {

/// Build listings of the API.
pub struct BuildsApi {
    buildkite: Buildkite,
}

/// The authenticated user of the API.
pub struct UserApi {
    buildkite: Buildkite,
}

impl View for BuildsApi {
    type V = BuildkiteView;

    closed spec fn view(&self) -> BuildkiteView {
        self.buildkite@
    }
}

impl View for UserApi {
    type V = BuildkiteView;

    closed spec fn view(&self) -> BuildkiteView {
        self.buildkite@
    }
}

/// A listing request under construction.
pub struct ListRequestBuilder {
    buildkite: Buildkite,
    scope: BuildScope,
    per_page: u16,
    branches: Vec<String>,
    creator: Option<String>,
    commit: Option<String>,
    states: Vec<String>,
}

/// A listing request as its contracts see it.
pub struct ListRequestView {
    pub client: BuildkiteView,
    pub scope: ScopeView,
    pub per_page: u16,
    pub branches: Seq<Seq<char>>,
    pub creator: Option<Seq<char>>,
    pub commit: Option<Seq<char>>,
    pub states: Seq<Seq<char>>,
}

impl View for ListRequestBuilder {
    type V = ListRequestView;

    closed spec fn view(&self) -> ListRequestView {
        ListRequestView {
            client: self.buildkite@,
            scope: self.scope@,
            per_page: self.per_page,
            branches: strings_view(self.branches@),
            creator: opt_string_view(self.creator),
            commit: opt_string_view(self.commit),
            states: strings_view(self.states@),
        }
    }
}

/// A fresh listing of `scope`: thirty builds a page, no filters.
pub open spec fn fresh_listing(client: BuildkiteView, scope: ScopeView) -> ListRequestView {
    ListRequestView {
        client,
        scope,
        per_page: 30,
        branches: Seq::empty(),
        creator: None,
        commit: None,
        states: Seq::empty(),
    }
}

/// The listing with one more branch filter.
pub open spec fn with_branch(v: ListRequestView, branch: Seq<char>) -> ListRequestView {
    ListRequestView { branches: v.branches.push(branch), ..v }
}

/// The listing with more branch filters, in order.
pub open spec fn with_branches(v: ListRequestView, branches: Seq<Seq<char>>) -> ListRequestView {
    ListRequestView { branches: v.branches + branches, ..v }
}

/// The listing with one more state filter.
pub open spec fn with_state(v: ListRequestView, state: Seq<char>) -> ListRequestView {
    ListRequestView { states: v.states.push(state), ..v }
}

/// The listing with more state filters, in order.
pub open spec fn with_states(v: ListRequestView, states: Seq<Seq<char>>) -> ListRequestView {
    ListRequestView { states: v.states + states, ..v }
}

/// The listing filtered by creator instead of any earlier creator.
pub open spec fn with_creator(v: ListRequestView, creator: Seq<char>) -> ListRequestView {
    ListRequestView { creator: Some(creator), ..v }
}

/// The listing filtered by commit instead of any earlier commit.
pub open spec fn with_commit(v: ListRequestView, commit: Seq<char>) -> ListRequestView {
    ListRequestView { commit: Some(commit), ..v }
}

/// The listing with `per_page` builds a page.
pub open spec fn with_per_page(v: ListRequestView, per_page: u16) -> ListRequestView {
    ListRequestView { per_page, ..v }
}

/// The path segments, under the API base URL, that list the builds of a scope.
pub open spec fn scope_segments(scope: ScopeView) -> Seq<Seq<char>> {
    match scope {
        ScopeView::All => seq!["builds"@],
        ScopeView::Organization(o) => seq!["organizations"@, o, "builds"@],
        ScopeView::Pipeline(o, p) => seq!["organizations"@, o, "pipelines"@, p, "builds"@],
    }
}

/// The query of a listing: the page size first, then the filters.
pub open spec fn listing_query(v: ListRequestView) -> Seq<(Seq<char>, Seq<char>)> {
    seq![("per_page"@, decimal(v.per_page as nat))] + filter_query(v.branches, v.states, v.creator, v.commit)
}

/// The request that a listing stands for, or why there is none.
pub open spec fn listing_request_matches(v: ListRequestView, r: Result<ApiRequest, RequestError>) -> bool {
    match url_with_segments(v.client.api_url, scope_segments(v.scope)) {
        None => r matches Err(e) && e == RequestError::InvalidApiUrl,
        Some(url) => match v.client.token {
            None => r matches Err(e) && e == RequestError::CredentialsRequired,
            Some(token) => r matches Ok(req) && req.url@ == url && req.authorization@ == "Bearer "@ + token
                && pairs_view(req.query@) == listing_query(v),
        },
    }
}

impl Buildkite {
    /// Build listings through this client.
    pub fn builds(&self) -> (r: BuildsApi)
        ensures
            r@ == self@,
    {
        BuildsApi { buildkite: self.clone() }
    }

    /// The authenticated user, through this client.
    pub fn user(&self) -> (r: UserApi)
        ensures
            r@ == self@,
    {
        UserApi { buildkite: self.clone() }
    }
}

impl BuildsApi {
    /// Every build the token can see.
    pub fn all(self) -> (r: ListRequestBuilder)
        ensures
            r@ == fresh_listing(self@, ScopeView::All),
    {
        ListRequestBuilder::scoped(self.buildkite, BuildScope::All)
    }

    /// The builds of one organization.
    pub fn organization(self, organization: &str) -> (r: ListRequestBuilder)
        ensures
            r@ == fresh_listing(self@, ScopeView::Organization(organization@)),
    {
        ListRequestBuilder::scoped(self.buildkite, BuildScope::Organization(organization.to_owned()))
    }

    /// The builds of one pipeline.
    pub fn pipeline(self, organization: &str, pipeline: &str) -> (r: ListRequestBuilder)
        ensures
            r@ == fresh_listing(self@, ScopeView::Pipeline(organization@, pipeline@)),
    {
        ListRequestBuilder::scoped(
            self.buildkite,
            BuildScope::Pipeline(organization.to_owned(), pipeline.to_owned()),
        )
    }
}

impl UserApi {
    /// The request that fetches the user who holds the access token.
    pub fn access_token_holder_request(&self) -> (r: Result<ApiRequest, RequestError>)
        ensures
            match url_with_segments(self@.api_url, seq!["user"@]) {
                None => r matches Err(e) && e == RequestError::InvalidApiUrl,
                Some(url) => match self@.token {
                    None => r matches Err(e) && e == RequestError::CredentialsRequired,
                    Some(token) => r matches Ok(req) && req.url@ == url
                        && req.authorization@ == "Bearer "@ + token && req.query@.len() == 0,
                },
            },
    {
        proof {
            lemma_client_view(&self.buildkite);
        }
        let mut segments: Vec<String> = Vec::new();
        segments.push("user".to_owned());
        assert(strings_view(segments@) =~= seq!["user"@]);
        match extend_url_path(self.buildkite.api_url.as_str(), &segments) {
            None => Err(RequestError::InvalidApiUrl),
            Some(url) => {
                let r = self.buildkite.request(url.as_str());
                if let Ok(req) = &r {
                    assert(pairs_view(req.query@).len() == req.query@.len());
                }
                r
            },
        }
    }
}

impl ListRequestBuilder {
    fn scoped(buildkite: Buildkite, scope: BuildScope) -> (r: Self)
        ensures
            r@ == fresh_listing(buildkite@, scope@),
    {
        let r = ListRequestBuilder {
            buildkite,
            scope,
            branches: Vec::new(),
            commit: None,
            creator: None,
            per_page: 30,
            states: Vec::new(),
        };
        assert(r@.branches =~= Seq::<Seq<char>>::empty());
        assert(r@.states =~= Seq::<Seq<char>>::empty());
        r
    }

    /// Asks for `per_page` builds a page.
    pub fn per_page(self, per_page: u16) -> (r: Self)
        ensures
            r@ == with_per_page(self@, per_page),
    {
        let mut s = self;
        s.per_page = per_page;
        s
    }

    /// Adds a branch filter.
    pub fn branch(self, branch: &str) -> (r: Self)
        ensures
            r@ == with_branch(self@, branch@),
    {
        let mut s = self;
        s.branches.push(branch.to_owned());
        assert(views_pushed(s.branches@, self.branches@, branch@));
        s
    }

    /// Adds a branch filter for each of `branches`, in order.
    pub fn branches(self, branches: &Vec<String>) -> (r: Self)
        ensures
            r@ == with_branches(self@, strings_view(branches@)),
    {
        let mut s = self;
        let mut i: usize = 0;
        while i < branches.len()
            invariant
                i <= branches@.len(),
                s@ == with_branches(self@, strings_view(branches@).subrange(0, i as int)),
            decreases branches@.len() - i,
        {
            let b = branches[i].clone();
            let ghost before = s.branches@;
            s.branches.push(b);
            proof {
                assert(views_pushed(s.branches@, before, branches@[i as int]@));
                assert(strings_view(branches@).subrange(0, i + 1) =~= strings_view(branches@).subrange(0, i as int).push(branches@[i as int]@));
                assert(s@.branches =~= self@.branches + strings_view(branches@).subrange(0, i + 1));
            }
            i = i + 1;
        }
        assert(strings_view(branches@).subrange(0, branches@.len() as int) =~= strings_view(branches@));
        s
    }

    /// Filters by creator (the last creator given wins).
    pub fn creator(self, creator: &str) -> (r: Self)
        ensures
            r@ == with_creator(self@, creator@),
    {
        let mut s = self;
        s.creator = Some(creator.to_owned());
        s
    }

    /// Filters by commit (the last commit given wins).
    pub fn commit(self, commit: &str) -> (r: Self)
        ensures
            r@ == with_commit(self@, commit@),
    {
        let mut s = self;
        s.commit = Some(commit.to_owned());
        s
    }

    /// Adds a state filter.
    pub fn state(self, state: &str) -> (r: Self)
        ensures
            r@ == with_state(self@, state@),
    {
        let mut s = self;
        s.states.push(state.to_owned());
        assert(views_pushed(s.states@, self.states@, state@));
        s
    }

    /// Adds a state filter for each of `states`, in order.
    pub fn states(self, states: &Vec<String>) -> (r: Self)
        ensures
            r@ == with_states(self@, strings_view(states@)),
    {
        let mut s = self;
        let mut i: usize = 0;
        while i < states.len()
            invariant
                i <= states@.len(),
                s@ == with_states(self@, strings_view(states@).subrange(0, i as int)),
            decreases states@.len() - i,
        {
            let b = states[i].clone();
            let ghost before = s.states@;
            s.states.push(b);
            proof {
                assert(views_pushed(s.states@, before, states@[i as int]@));
                assert(strings_view(states@).subrange(0, i + 1) =~= strings_view(states@).subrange(0, i as int).push(states@[i as int]@));
                assert(s@.states =~= self@.states + strings_view(states@).subrange(0, i + 1));
            }
            i = i + 1;
        }
        assert(strings_view(states@).subrange(0, states@.len() as int) =~= strings_view(states@));
        s
    }

    /// The path segments of the listing under the API base URL.
    fn segments(&self) -> (r: Vec<String>)
        ensures
            strings_view(r@) == scope_segments(self@.scope),
    {
        let mut v: Vec<String> = Vec::new();
        match &self.scope {
            BuildScope::All => {
                v.push("builds".to_owned());
            },
            BuildScope::Organization(o) => {
                v.push("organizations".to_owned());
                v.push(o.clone());
                v.push("builds".to_owned());
            },
            BuildScope::Pipeline(o, p) => {
                v.push("organizations".to_owned());
                v.push(o.clone());
                v.push("pipelines".to_owned());
                v.push(p.clone());
                v.push("builds".to_owned());
            },
        }
        assert(strings_view(v@) =~= scope_segments(self@.scope));
        v
    }

    /// The GET request that the listing stands for: the scope's URL, the
    /// client's bearer token, and the page size followed by the filters.
    pub fn request(&self) -> (r: Result<ApiRequest, RequestError>)
        ensures
            listing_request_matches(self@, r),
    {
        proof {
            lemma_client_view(&self.buildkite);
        }
        let segments = self.segments();
        let url = match extend_url_path(self.buildkite.api_url.as_str(), &segments) {
            None => {
                return Err(RequestError::InvalidApiUrl);
            },
            Some(u) => u,
        };
        let mut req = self.buildkite.request(url.as_str())?;
        let mut query: Vec<(String, String)> = Vec::new();
        let page = decimal_string(self.per_page as u64);
        query.push(("per_page".to_owned(), page));
        push_tagged(&mut query, "branch[]", &self.branches);
        push_tagged(&mut query, "state[]", &self.states);
        let creator = match &self.creator {
            Some(c) => Some(c.as_str()),
            None => None,
        };
        push_optional(&mut query, "creator", creator);
        let commit = match &self.commit {
            Some(c) => Some(c.as_str()),
            None => None,
        };
        push_optional(&mut query, "commit", commit);
        proof {
            assert(pairs_view(query@) =~= listing_query(self@));
        }
        req.query = query;
        Ok(req)
    }
}

/// Whether the strings `after` are the strings `before` with `item` added at the end.
spec fn views_pushed(after: Seq<String>, before: Seq<String>, item: Seq<char>) -> bool {
    strings_view(after) =~= strings_view(before).push(item)
}

/// The listing after adding branch filters one at a time, in order.
pub open spec fn branch_each(v: ListRequestView, branches: Seq<Seq<char>>) -> ListRequestView
    decreases branches.len(),
{
    if branches.len() == 0 {
        v
    } else {
        with_branch(branch_each(v, branches.drop_last()), branches.last())
    }
}

/// Adding state filters one at a time, in order.
pub open spec fn state_each(v: ListRequestView, states: Seq<Seq<char>>) -> ListRequestView
    decreases states.len(),
{
    if states.len() == 0 {
        v
    } else {
        with_state(state_each(v, states.drop_last()), states.last())
    }
}

/// `branches` adds its branches in order, as `branch` one at a time would.
pub proof fn lemma_branches_is_branch_each(v: ListRequestView, branches: Seq<Seq<char>>)
    ensures
        with_branches(v, branches) == branch_each(v, branches),
    decreases branches.len(),
{
    if branches.len() == 0 {
        assert(v.branches + branches =~= v.branches);
    } else {
        lemma_branches_is_branch_each(v, branches.drop_last());
        assert(v.branches + branches =~= (v.branches + branches.drop_last()).push(branches.last()));
    }
}

/// `states` adds its states in order, as `state` one at a time would.
pub proof fn lemma_states_is_state_each(v: ListRequestView, states: Seq<Seq<char>>)
    ensures
        with_states(v, states) == state_each(v, states),
    decreases states.len(),
{
    if states.len() == 0 {
        assert(v.states + states =~= v.states);
    } else {
        lemma_states_is_state_each(v, states.drop_last());
        assert(v.states + states =~= (v.states + states.drop_last()).push(states.last()));
    }
}

/// A later creator or commit filter replaces an earlier one, and the page
/// size, creator and commit settings do not touch the branch and state filters.
pub proof fn lemma_last_filter_wins(v: ListRequestView, a: Seq<char>, b: Seq<char>, n: u16)
    ensures
        with_creator(with_creator(v, a), b) == with_creator(v, b),
        with_commit(with_commit(v, a), b) == with_commit(v, b),
        with_creator(v, a).branches == v.branches && with_creator(v, a).states == v.states,
        with_commit(v, a).branches == v.branches && with_commit(v, a).states == v.states,
        with_per_page(v, n).branches == v.branches && with_per_page(v, n).states == v.states,
{
}

/// Each filter setter changes its own setting and nothing else: setting the
/// creator keeps the commit, setting the commit keeps the creator, and the
/// client, scope, page size and the other filters stay as they were.
pub proof fn lemma_setters_touch_only_their_field(v: ListRequestView, c: Seq<char>, n: u16)
    ensures
        with_creator(v, c).creator == Some(c),
        with_creator(v, c).commit == v.commit,
        with_creator(v, c).per_page == v.per_page,
        with_creator(v, c).scope == v.scope && with_creator(v, c).client == v.client,
        with_commit(v, c).commit == Some(c),
        with_commit(v, c).creator == v.creator,
        with_commit(v, c).per_page == v.per_page,
        with_commit(v, c).scope == v.scope && with_commit(v, c).client == v.client,
        with_per_page(v, n).per_page == n,
        with_per_page(v, n).creator == v.creator && with_per_page(v, n).commit == v.commit,
        with_branch(v, c).creator == v.creator && with_branch(v, c).commit == v.commit
            && with_branch(v, c).states == v.states && with_branch(v, c).per_page == v.per_page,
        with_state(v, c).creator == v.creator && with_state(v, c).commit == v.commit
            && with_state(v, c).branches == v.branches && with_state(v, c).per_page == v.per_page,
{
}

/// A commit filter is sent whatever else is set: a listing with commit `c`
/// ends its query with `("commit", c)`, right after the creator pair when there
/// is one; a listing with a creator `cr` has `("creator", cr)` right after the
/// state pairs.
pub proof fn lemma_listing_query_filters(v: ListRequestView)
    ensures
        ({
            let q = listing_query(v);
            let at: int = 1int + v.branches.len() + v.states.len();
            &&& v.creator matches Some(cr) ==> q[at] == ("creator"@, cr)
            &&& v.commit matches Some(c) ==> q[q.len() - 1] == ("commit"@, c)
                && q.len() - 1 == at + (if v.creator is Some { 1int } else { 0int })
            &&& v.commit is None ==> q.len() == at + (if v.creator is Some { 1int } else { 0int })
        }),
{
    crate::client::lemma_filter_query_filters(v.branches, v.states, v.creator, v.commit);
}

/// The query of a listing holds one `branch[]` pair per branch filter and one
/// `state[]` pair per state filter, after the page size.
pub proof fn lemma_listing_query_shape(v: ListRequestView)
    ensures
        listing_query(v).len() == 1 + v.branches.len() + v.states.len()
            + (if v.creator is Some { 1int } else { 0int }) + (if v.commit is Some { 1int } else { 0int }),
        listing_query(v)[0] == ("per_page"@, decimal(v.per_page as nat)),
        forall|i: int| 0 <= i < v.branches.len() ==> #[trigger] listing_query(v)[1 + i] == ("branch[]"@, v.branches[i]),
        forall|i: int| 0 <= i < v.states.len() ==> #[trigger] listing_query(v)[1 + v.branches.len() + i] == ("state[]"@, v.states[i]),
{
}

} // verus!
