//! GitHub's REST API (v3): request shapes, the records it returns, and
//! pagination by the RFC 5988 `Link` header.

use crate::services::{ProtectedBranch as BranchRule, PushRequest, PushRequestState, Timestamp};
use crate::text::{
    i32_to_text, join, lemma_split_on_nonempty, same_text, split_char, split_on, texts, trim,
    trim_end_char, trim_end_matches_char, trim_spaces, trim_start_char, trim_start_matches_char,
    trim_start_matches_text, trim_start_text, signed_decimal,
};
use vstd::prelude::*;

verus! {

/// One entry of a `Link` header: a target and its relation.
#[derive(Debug)]
pub struct Link {
    pub uri: String,
    pub rel: String,
}

pub struct LinkView {
    pub uri: Seq<char>,
    pub rel: Seq<char>,
}

impl View for Link {
    type V = LinkView;

    open spec fn view(&self) -> LinkView {
        LinkView { uri: self.uri@, rel: self.rel@ }
    }
}

/// The target of an entry's first part: trimmed, without the surrounding
/// angle brackets.
pub open spec fn link_target(part: Seq<char>) -> Seq<char> {
    trim_end_char(trim_start_char(trim(part), '<'), '>')
}

/// The relation of an entry's second part: trimmed, without `rel="` and
/// the closing quote.
pub open spec fn link_relation(part: Seq<char>) -> Seq<char> {
    trim_end_char(trim_start_text(trim(part), "rel=\""@), '"')
}

/// One `<uri>; rel="name"` entry read as a link; a missing second part
/// gives an empty relation.
pub open spec fn parse_link(entry: Seq<char>) -> LinkView {
    let parts = split_on(entry, ';');
    LinkView {
        uri: link_target(parts[0]),
        rel: if parts.len() > 1 {
            link_relation(parts[1])
        } else {
            Seq::empty()
        },
    }
}

impl Link {
    /// Reads one `<uri>; rel="name"` entry.
    pub fn parse_from_rfc5988(header: &str) -> (r: Link)
        ensures
            r@ == parse_link(header@),
    {
        let parts = split_char(header, ';');
        proof {
            lemma_split_on_nonempty(header@, ';');
            assert(parts@[0]@ == split_on(header@, ';')[0]);
        }
        let first = trim_spaces(parts[0].as_str());
        let uri = trim_end_matches_char(trim_start_matches_char(first, '<'), '>');
        let rel = if parts.len() > 1 {
            proof {
                assert(parts@[1]@ == split_on(header@, ';')[1]);
                reveal_strlit("rel=\"");
            }
            let second = trim_spaces(parts[1].as_str());
            String::from_str(
                trim_end_matches_char(trim_start_matches_text(second, "rel=\""), '"'),
            )
        } else {
            String::new()
        };
        Link { uri: String::from_str(uri), rel }
    }
}

/// The entries of a `Link` header.
#[derive(Debug)]
pub struct Links {
    pub links: Vec<Link>,
}

impl View for Links {
    type V = Seq<LinkView>;

    open spec fn view(&self) -> Seq<LinkView> {
        self.links@.map_values(|l: Link| l@)
    }
}

/// The links of a header: its comma-separated entries, each read as a link.
pub open spec fn parse_links(header: Seq<char>) -> Seq<LinkView> {
    split_on(header, ',').map_values(|e: Seq<char>| parse_link(e))
}

/// The first link whose relation is `rel`, if any.
pub open spec fn find_rel(links: Seq<LinkView>, rel: Seq<char>) -> Option<LinkView>
    decreases links.len(),
{
    if links.len() == 0 {
        None
    } else if links[0].rel == rel {
        Some(links[0])
    } else {
        find_rel(links.skip(1), rel)
    }
}

impl Links {
    /// Reads a whole `Link` header: entries separated by commas.
    pub fn parse_from_rfc5988(header: &str) -> (r: Links)
        ensures
            r@ == parse_links(header@),
    {
        let entries = split_char(header, ',');
        let mut links: Vec<Link> = Vec::new();
        let mut i: usize = 0;
        while i < entries.len()
            invariant
                i <= entries@.len(),
                texts(entries@) == split_on(header@, ','),
                links@.len() == i,
                forall|j: int| 0 <= j < i ==> #[trigger] links@[j]@ == parse_link(entries@[j]@),
            decreases entries.len() - i,
        {
            links.push(Link::parse_from_rfc5988(entries[i].as_str()));
            i = i + 1;
        }
        let r = Links { links };
        assert(r@ =~= parse_links(header@)) by {
            assert(texts(entries@).len() == entries@.len());
            assert forall|j: int| 0 <= j < entries@.len() implies r@[j] == parse_links(header@)[j] by {
                assert(texts(entries@)[j] == entries@[j]@);
            }
        }
        r
    }

    fn find(&self, rel: &str) -> (r: Option<&Link>)
        ensures
            match r {
                Some(l) => find_rel(self@, rel@) == Some(l@),
                None => find_rel(self@, rel@) is None,
            },
    {
        let mut i: usize = 0;
        assert(self@.skip(0) =~= self@);
        while i < self.links.len()
            invariant
                i <= self.links@.len(),
                find_rel(self@, rel@) == find_rel(self@.skip(i as int), rel@),
            decreases self.links.len() - i,
        {
            assert(self@.skip(i as int)[0] == self.links@[i as int]@);
            if same_text(self.links[i].rel.as_str(), rel) {
                return Some(&self.links[i]);
            }
            assert(self@.skip(i as int).skip(1) =~= self@.skip(i + 1));
            i = i + 1;
        }
        assert(self@.skip(i as int).len() == 0);
        None
    }

    /// The first link with relation `prev`.
    pub fn prev(&self) -> (r: Option<&Link>)
        ensures
            match r {
                Some(l) => find_rel(self@, "prev"@) == Some(l@),
                None => find_rel(self@, "prev"@) is None,
            },
    {
        self.find("prev")
    }

    /// The first link with relation `next`.
    pub fn next(&self) -> (r: Option<&Link>)
        ensures
            match r {
                Some(l) => find_rel(self@, "next"@) == Some(l@),
                None => find_rel(self@, "next"@) is None,
            },
    {
        self.find("next")
    }

    /// The first link with relation `first`.
    pub fn first(&self) -> (r: Option<&Link>)
        ensures
            match r {
                Some(l) => find_rel(self@, "first"@) == Some(l@),
                None => find_rel(self@, "first"@) is None,
            },
    {
        self.find("first")
    }

    /// The first link with relation `last`.
    pub fn last(&self) -> (r: Option<&Link>)
        ensures
            match r {
                Some(l) => find_rel(self@, "last"@) == Some(l@),
                None => find_rel(self@, "last"@) is None,
            },
    {
        self.find("last")
    }
}

/// The target of the first `next` link of a `Link` header, if the header
/// is there and has one.
pub open spec fn next_link(header: Option<Seq<char>>) -> Option<Seq<char>> {
    match header {
        Some(h) => match find_rel(parse_links(h), "next"@) {
            Some(l) => Some(l.uri),
            None => None,
        },
        None => None,
    }
}

/// A listing that GitHub pages by cursor: each page's `Link` header names
/// the next page. The items keep the order in which pages arrived.
pub struct GitHubPager<T> {
    items: Vec<T>,
}

impl<T> View for GitHubPager<T> {
    type V = Seq<T>;

    closed spec fn view(&self) -> Seq<T> {
        self.items@
    }
}

impl<T> GitHubPager<T> {
    /// A listing with nothing received yet.
    pub fn new() -> (r: GitHubPager<T>)
        ensures
            r@ == Seq::<T>::empty(),
    {
        GitHubPager { items: Vec::new() }
    }

    /// Takes a page's items and its `Link` header (`None` when absent or
    /// unreadable); returns the address of the next page to request, or
    /// `None` when the listing is complete.
    pub fn on_page(&mut self, page: Vec<T>, link_header: Option<&str>) -> (r: Option<String>)
        ensures
            final(self)@ == old(self)@ + page@,
            match link_header {
                Some(h) => match r {
                    Some(u) => next_link(Some(h@)) == Some(u@),
                    None => next_link(Some(h@)) is None,
                },
                None => r is None,
            },
    {
        let mut page = page;
        self.items.append(&mut page);
        match link_header {
            Some(h) => {
                let links = Links::parse_from_rfc5988(h);
                match links.next() {
                    Some(l) => Some(l.uri.clone()),
                    None => None,
                }
            },
            None => None,
        }
    }

    /// Everything received, in arrival order.
    pub fn into_items(self) -> (r: Vec<T>)
        ensures
            r@ == self@,
    {
        self.items
    }
}

/// What GitHub sends to close a pull request.
#[derive(Clone, Copy, Debug, PartialEq, Eq, Structural)]
pub enum PullRequestStateEvent {
    Closed,
}

impl PullRequestStateEvent {
    /// The value as it appears in the query.
    pub fn value(&self) -> (r: &'static str)
        ensures
            r@ == "closed"@,
    {
        "closed"
    }
}

/// The query of a request that changes a pull request's state.
#[derive(Clone, Copy, Debug, PartialEq, Eq, Structural)]
pub struct PullRequestOptions {
    pub state: PullRequestStateEvent,
}

impl PullRequestOptions {
    /// The query pairs: `state=closed`.
    pub fn query_pairs(&self) -> (r: Vec<(String, String)>)
        ensures
            r@.len() == 1,
            r@[0].0@ == "state"@,
            r@[0].1@ == "closed"@,
    {
        let mut out: Vec<(String, String)> = Vec::new();
        out.push((String::from_str("state"), String::from_str(self.state.value())));
        out
    }
}

/// A repository as GitHub describes it.
#[derive(Debug)]
pub struct Repository {
    pub id: i32,
    pub name: String,
    pub full_name: String,
    pub html_url: String,
    pub fork: bool,
    pub created_at: Timestamp,
    pub updated_at: Timestamp,
    pub pushed_at: Timestamp,
}

/// One side (head or base) of a pull request.
#[derive(Debug)]
pub struct GitData {
    pub label: String,
    pub git_ref: String,
    pub sha: String,
    pub repo: Repository,
}

/// A pull request as GitHub describes it.
#[derive(Debug)]
pub struct PullRequest {
    pub id: i32,
    pub html_url: String,
    pub number: i32,
    pub title: String,
    pub created_at: Timestamp,
    pub updated_at: Timestamp,
    pub head: GitData,
    pub base: GitData,
}

/// A protected branch as GitHub lists it.
#[derive(Debug)]
pub struct ProtectedBranch {
    pub name: String,
}

/// The provider-neutral form of a pull request: its number is the id, its
/// base is the target and its head the source.
pub open spec fn push_request_of(pr: PullRequest) -> PushRequest {
    PushRequest {
        url: pr.html_url,
        id: pr.number,
        title: pr.title,
        created_at: pr.created_at,
        updated_at: pr.updated_at,
        target_project: pr.base.repo.id,
        target_branch: pr.base.label,
        source_project: pr.head.repo.id,
        source_branch: pr.head.label,
    }
}

impl PullRequest {
    /// The pull request in provider-neutral form (see `push_request_of`).
    pub fn to_push_request(&self) -> (r: PushRequest)
        ensures
            r == push_request_of(*self),
    {
        PushRequest {
            url: self.html_url.clone(),
            id: self.number,
            title: self.title.clone(),
            created_at: self.created_at,
            updated_at: self.updated_at,
            target_project: self.base.repo.id,
            target_branch: self.base.label.clone(),
            source_project: self.head.repo.id,
            source_branch: self.head.label.clone(),
        }
    }
}

/// A page of pull requests in provider-neutral form, in page order.
pub fn push_requests_from_page(page: &Vec<PullRequest>) -> (r: Vec<PushRequest>)
    ensures
        r@ == page@.map_values(|pr: PullRequest| push_request_of(pr)),
{
    let mut out: Vec<PushRequest> = Vec::new();
    let mut i: usize = 0;
    while i < page.len()
        invariant
            i <= page@.len(),
            out@ == page@.take(i as int).map_values(|pr: PullRequest| push_request_of(pr)),
        decreases page.len() - i,
    {
        out.push(page[i].to_push_request());
        assert(page@.take(i + 1).map_values(|pr: PullRequest| push_request_of(pr)) =~= page@.take(
            i as int,
        ).map_values(|pr: PullRequest| push_request_of(pr)).push(push_request_of(page@[i as int])));
        i = i + 1;
    }
    assert(page@.take(i as int) =~= page@);
    out
}

/// The names on a page of protected branches that are valid globs, in page
/// order: the rules they give.
pub open spec fn valid_rule_names(names: Seq<Seq<char>>) -> Seq<Seq<char>> {
    names.filter(|n: Seq<char>| crate::services::glob_pattern_valid(n))
}

/// The rules from a page of protected branches, in page order; a name that
/// is not a valid glob is skipped.
pub fn protected_branches_from_page(page: &Vec<ProtectedBranch>) -> (r: Vec<BranchRule>)
    ensures
        r@.map_values(|b: BranchRule| b@) == valid_rule_names(
            page@.map_values(|b: ProtectedBranch| b.name@),
        ),
{
    let ghost names = page@.map_values(|b: ProtectedBranch| b.name@);
    let mut out: Vec<BranchRule> = Vec::new();
    let mut i: usize = 0;
    while i < page.len()
        invariant
            i <= page@.len(),
            names == page@.map_values(|b: ProtectedBranch| b.name@),
            out@.map_values(|b: BranchRule| b@) == valid_rule_names(names.take(i as int)),
        decreases page.len() - i,
    {
        proof {
            reveal(Seq::filter);
            assert(names.take(i + 1).drop_last() =~= names.take(i as int));
            assert(names.take(i + 1).last() == page@[i as int].name@);
        }
        let ghost before = out@;
        match BranchRule::new(page[i].name.as_str()) {
            Some(rule) => {
                out.push(rule);
                assert(out@.map_values(|b: BranchRule| b@) =~= before.map_values(
                    |b: BranchRule| b@,
                ).push(rule@));
            },
            None => {},
        }
        i = i + 1;
    }
    assert(names.take(i as int) =~= names);
    out
}

/// The address of one repository on a GitHub API.
#[derive(Debug)]
pub struct GitHub {
    pub base_url: String,
    pub token: String,
    pub owner: String,
    pub repo: String,
}

impl GitHub {
    pub fn new(base_url: &str, token: &str, owner: &str, repo: &str) -> (r: GitHub)
        ensures
            r.base_url@ == base_url@,
            r.token@ == token@,
            r.owner@ == owner@,
            r.repo@ == repo@,
    {
        GitHub {
            base_url: String::from_str(base_url),
            token: String::from_str(token),
            owner: String::from_str(owner),
            repo: String::from_str(repo),
        }
    }

    pub open spec fn repo_url(&self) -> Seq<char> {
        self.base_url@ + "/repos/"@ + self.owner@ + "/"@ + self.repo@
    }

    /// `{base}/repos/{owner}/{repo}`.
    pub fn construct_base_url(&self) -> (r: String)
        ensures
            r@ == self.repo_url(),
    {
        let a = join(self.base_url.as_str(), "/repos/");
        let b = join(a.as_str(), self.owner.as_str());
        let c = join(b.as_str(), "/");
        join(c.as_str(), self.repo.as_str())
    }

    /// Where pull requests are listed.
    pub fn pulls_url(&self) -> (r: String)
        ensures
            r@ == self.repo_url() + "/pulls"@,
    {
        join(self.construct_base_url().as_str(), "/pulls")
    }

    /// The query of a pull request listing in `state`.
    pub fn pulls_query(&self, state: PushRequestState) -> (r: Vec<(String, String)>)
        ensures
            r@.len() == 1,
            r@[0].0@ == "state"@,
            r@[0].1@ == state.github_spec(),
    {
        let mut out: Vec<(String, String)> = Vec::new();
        out.push((String::from_str("state"), String::from_str(state.github_value())));
        out
    }

    /// Where the pull request numbered `id` is changed.
    pub fn pull_url(&self, id: i32) -> (r: String)
        ensures
            r@ == self.repo_url() + "/pulls/"@ + signed_decimal(id as int),
    {
        let a = join(self.construct_base_url().as_str(), "/pulls/");
        join(a.as_str(), i32_to_text(id).as_str())
    }

    /// Where branches are listed.
    pub fn branches_url(&self) -> (r: String)
        ensures
            r@ == self.repo_url() + "/branches"@,
    {
        join(self.construct_base_url().as_str(), "/branches")
    }

    /// The query that restricts a branch listing to protected branches.
    pub fn protected_branches_query(&self) -> (r: Vec<(String, String)>)
        ensures
            r@.len() == 1,
            r@[0].0@ == "protected"@,
            r@[0].1@ == "true"@,
    {
        let mut out: Vec<(String, String)> = Vec::new();
        out.push((String::from_str("protected"), String::from_str("true")));
        out
    }

    /// The headers sent with every request: the versioned media type, the
    /// bearer token, and the user agent.
    pub fn default_headers(&self) -> (r: Vec<(String, String)>)
        ensures
            r@.len() == 3,
            r@[0].0@ == "accept"@ && r@[0].1@ == "application/vnd.github.v3+json"@,
            r@[1].0@ == "authorization"@ && r@[1].1@ == "Bearer "@ + self.token@,
            r@[2].0@ == "user-agent"@ && r@[2].1@ == "com.wayfair.foxdie"@,
    {
        let mut out: Vec<(String, String)> = Vec::new();
        out.push(
            (String::from_str("accept"), String::from_str("application/vnd.github.v3+json")),
        );
        out.push((String::from_str("authorization"), join("Bearer ", self.token.as_str())));
        out.push((String::from_str("user-agent"), String::from_str("com.wayfair.foxdie")));
        out
    }
}

} // verus!
