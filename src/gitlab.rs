//! GitLab's REST API (v4): request shapes, the records it returns, and
//! count-based pagination from the `x-page`, `x-total` and `x-total-pages`
//! response headers.

use crate::services::{ProtectedBranch as BranchRule, PushRequest, PushRequestState, Timestamp};
use crate::text::{i32_to_text, join, push_char, same_text, signed_decimal, decimal, usize_to_text};
use vstd::prelude::*;
use vstd::utf8::encode_utf8;

verus! {

pub open spec fn is_digit(c: char) -> bool {
    '0' <= c && c <= '9'
}

/// The number written by a sequence of decimal digits.
pub open spec fn digits_value(s: Seq<char>) -> nat
    decreases s.len(),
{
    if s.len() == 0 {
        0
    } else {
        digits_value(s.drop_last()) * 10 + (s.last() as nat - 48) as nat
    }
}

/// What `str::parse::<usize>` accepts: an optional `+`, then one or more
/// decimal digits whose value fits in `usize`.
pub open spec fn parsed_usize(s: Seq<char>) -> Option<usize> {
    let d = unsigned_part(s);
    if d.len() > 0 && all_digits(d) && digits_value(d) <= usize::MAX {
        Some(digits_value(d) as usize)
    } else {
        None
    }
}

/// The text after an optional leading `+`.
pub open spec fn unsigned_part(s: Seq<char>) -> Seq<char> {
    if s.len() > 0 && s[0] == '+' {
        s.skip(1)
    } else {
        s
    }
}

pub open spec fn all_digits(d: Seq<char>) -> bool {
    forall|i: int| 0 <= i < d.len() ==> is_digit(#[trigger] d[i])
}

proof fn lemma_digits_value_grows(s: Seq<char>, k: int)
    requires
        0 <= k <= s.len(),
        forall|i: int| 0 <= i < s.len() ==> is_digit(#[trigger] s[i]),
    ensures
        digits_value(s) >= digits_value(s.take(k)),
    decreases s.len(),
{
    if k < s.len() {
        let rest = s.drop_last();
        lemma_digits_value_grows(rest, k);
        assert(rest.take(k) =~= s.take(k));
    } else {
        assert(s.take(k) =~= s);
    }
}

/// `str::parse::<usize>`, with `None` for every error.
pub fn parse_usize(s: &str) -> (r: Option<usize>)
    ensures
        r == parsed_usize(s@),
{
    let n = s.unicode_len();
    let start: usize = if n > 0 && s.get_char(0) == '+' {
        1
    } else {
        0
    };
    let ghost d = s@.skip(start as int);
    assert(d == unsigned_part(s@)) by {
        if start == 0 {
            assert(s@.skip(0) =~= s@);
        }
    }
    if start == n {
        return None;
    }
    let mut acc: usize = 0;
    let mut i: usize = start;
    while i < n
        invariant
            n == s@.len(),
            start <= i <= n,
            start < n,
            d == s@.skip(start as int),
            d == unsigned_part(s@),
            forall|j: int| 0 <= j < i - start ==> is_digit(#[trigger] d[j]),
            acc as nat == digits_value(d.take(i - start)),
        decreases n - i,
    {
        let c = s.get_char(i);
        assert(d[i - start] == c);
        if !('0' <= c && c <= '9') {
            assert(parsed_usize(s@) is None) by {
                assert(0 <= i - start < d.len());
                assert(!is_digit(d[i - start]));
                assert(!all_digits(d));
            }
            return None;
        }
        let v = (c as u32 - 48) as usize;
        assert(d.take(i - start + 1).drop_last() =~= d.take(i - start));
        assert(d.take(i - start + 1).last() == c);
        if acc > (usize::MAX - v) / 10 {
            proof {
                assert(acc * 10 + v > usize::MAX) by (nonlinear_arith)
                    requires
                        acc > (usize::MAX - v) / 10,
                        v <= 9,
                ;
                let k = i - start + 1;
                assert(digits_value(d.take(k)) == acc * 10 + v);
                assert(parsed_usize(s@) is None) by {
                    if all_digits(d) {
                        lemma_digits_value_grows(d, k);
                    }
                }
            }
            return None;
        }
        assert(acc * 10 + v <= usize::MAX) by (nonlinear_arith)
            requires
                acc <= (usize::MAX - v) / 10,
                v <= 9,
        ;
        acc = acc * 10 + v;
        i = i + 1;
    }
    assert(d.take(n - start) =~= d);
    assert(d.len() == n - start);
    Some(acc)
}

/// The value of the first header named `key`, if any.
pub open spec fn first_header(headers: Seq<(String, String)>, key: Seq<char>) -> Option<Seq<char>>
    decreases headers.len(),
{
    if headers.len() == 0 {
        None
    } else if headers[0].0@ == key {
        Some(headers[0].1@)
    } else {
        first_header(headers.skip(1), key)
    }
}

/// The number in the first header named `key`: `None` when that header is
/// absent or does not hold a number.
pub open spec fn header_number(headers: Seq<(String, String)>, key: Seq<char>) -> Option<usize> {
    match first_header(headers, key) {
        Some(v) => parsed_usize(v),
        None => None,
    }
}

/// The pagination headers of a GitLab response.
#[derive(Clone, Copy, Debug, PartialEq, Eq, Structural)]
pub struct Pages {
    pub current: Option<usize>,
    pub total_items: Option<usize>,
    pub total_pages: Option<usize>,
    pub per_page: Option<usize>,
    pub previous: Option<usize>,
    pub next: Option<usize>,
}

impl Pages {
    /// Reads the pagination headers from a response's headers, given as
    /// (lower-case name, value) pairs in the response's order.
    pub fn new(headers: &Vec<(String, String)>) -> (r: Pages)
        ensures
            r.current == header_number(headers@, "x-page"@),
            r.total_items == header_number(headers@, "x-total"@),
            r.total_pages == header_number(headers@, "x-total-pages"@),
            r.per_page == header_number(headers@, "x-per-page"@),
            r.previous == header_number(headers@, "x-prev-page"@),
            r.next == header_number(headers@, "x-next-page"@),
    {
        Pages {
            current: Pages::x_header(headers, "x-page"),
            total_items: Pages::x_header(headers, "x-total"),
            total_pages: Pages::x_header(headers, "x-total-pages"),
            per_page: Pages::x_header(headers, "x-per-page"),
            previous: Pages::x_header(headers, "x-prev-page"),
            next: Pages::x_header(headers, "x-next-page"),
        }
    }

    /// The number in the first header named `key`.
    pub fn x_header(headers: &Vec<(String, String)>, key: &str) -> (r: Option<usize>)
        ensures
            r == header_number(headers@, key@),
    {
        let mut i: usize = 0;
        assert(headers@.skip(0) =~= headers@);
        while i < headers.len()
            invariant
                i <= headers@.len(),
                first_header(headers@, key@) == first_header(headers@.skip(i as int), key@),
            decreases headers.len() - i,
        {
            assert(headers@.skip(i as int)[0] == headers@[i as int]);
            if same_text(headers[i].0.as_str(), key) {
                return parse_usize(headers[i].1.as_str());
            }
            assert(headers@.skip(i as int).skip(1) =~= headers@.skip(i + 1));
            i = i + 1;
        }
        assert(headers@.skip(i as int).len() == 0);
        None
    }
}

/// The page numbers from `from` through `to`, in order.
pub open spec fn page_range(from: int, to: int) -> Seq<usize> {
    if from > to {
        Seq::empty()
    } else {
        Seq::new((to - from + 1) as nat, |i: int| (from + i) as usize)
    }
}

/// The pages a listing fetches: from the current page through the last,
/// and none at all when the current page, the item count or the page count
/// is missing.
pub open spec fn planned_pages(pages: Pages) -> Seq<usize> {
    if pages.current is Some && pages.total_items is Some && pages.total_pages is Some {
        page_range(pages.current->0 as int, pages.total_pages->0 as int)
    } else {
        Seq::empty()
    }
}

/// A response without a readable current page, item count or page count
/// plans no page at all: the listing is empty rather than an error.
pub proof fn lemma_missing_pagination_plans_nothing(pages: Pages)
    requires
        pages.current is None || pages.total_items is None || pages.total_pages is None,
    ensures
        planned_pages(pages).len() == 0,
{
}

/// A listing that GitLab pages by count: the pages to fetch are known from
/// the first response's headers. The items keep the order of the pages.
pub struct GitLabPager<T> {
    items: Vec<T>,
    next: usize,
    last: usize,
    finished: bool,
}

impl<T> GitLabPager<T> {
    /// The pages still to fetch.
    pub closed spec fn remaining(&self) -> Seq<usize> {
        if self.finished {
            Seq::empty()
        } else {
            page_range(self.next as int, self.last as int)
        }
    }

    /// The items received so far.
    pub closed spec fn items(&self) -> Seq<T> {
        self.items@
    }

    /// A listing planned from a response's pagination headers.
    pub fn new(pages: &Pages) -> (r: GitLabPager<T>)
        ensures
            r.remaining() == planned_pages(*pages),
            r.items() == Seq::<T>::empty(),
    {
        match (pages.current, pages.total_items, pages.total_pages) {
            (Some(current), Some(_), Some(total_pages)) => {
                if current <= total_pages {
                    GitLabPager { items: Vec::new(), next: current, last: total_pages, finished: false }
                } else {
                    GitLabPager { items: Vec::new(), next: 0, last: 0, finished: true }
                }
            },
            _ => GitLabPager { items: Vec::new(), next: 0, last: 0, finished: true },
        }
    }

    /// The next page to request, or `None` when every page has been.
    pub fn next_page(&mut self) -> (r: Option<usize>)
        ensures
            old(self).remaining().len() == 0 ==> (r is None && final(self).remaining()
                == old(self).remaining()),
            old(self).remaining().len() > 0 ==> (r == Some(old(self).remaining()[0])
                && final(self).remaining() == old(self).remaining().skip(1)),
            final(self).items() == old(self).items(),
    {
        if self.finished || self.next > self.last {
            return None;
        }
        let page = self.next;
        let ghost before = self.remaining();
        if self.next == self.last {
            self.finished = true;
            assert(before.skip(1) =~= Seq::<usize>::empty());
        } else {
            self.next = self.next + 1;
            assert(before.skip(1) =~= page_range(self.next as int, self.last as int));
        }
        Some(page)
    }

    /// Takes one page's items.
    pub fn on_page(&mut self, page: Vec<T>)
        ensures
            final(self).items() == old(self).items() + page@,
            final(self).remaining() == old(self).remaining(),
    {
        let mut page = page;
        self.items.append(&mut page);
    }

    /// Everything received, in page order.
    pub fn into_items(self) -> (r: Vec<T>)
        ensures
            r@ == self.items(),
    {
        self.items
    }
}

/// The bytes that a project path segment carries percent-encoded: controls,
/// non-ASCII bytes, space, `"`, `#`, `%`, `/`, `<`, `>`, `?`, backquote,
/// `{` and `}`.
pub open spec fn escaped_in_segment(b: u8) -> bool {
    b < 0x20 || b >= 0x7f || b == 0x20 || b == 0x22 || b == 0x23 || b == 0x25 || b == 0x2f || b
        == 0x3c || b == 0x3e || b == 0x3f || b == 0x60 || b == 0x7b || b == 0x7d
}

/// The upper-case hexadecimal digit for `n < 16`.
pub open spec fn hex_digit(n: u8) -> char {
    if n < 10 {
        (48 + n) as char
    } else {
        (55 + n) as char
    }
}

/// One byte as it appears in an encoded segment: `%XY` or itself.
pub open spec fn encode_byte(b: u8) -> Seq<char> {
    if escaped_in_segment(b) {
        seq!['%', hex_digit(b / 16), hex_digit(b % 16)]
    } else {
        seq![b as char]
    }
}

/// A byte string percent-encoded for use as one path segment.
pub open spec fn percent_encoded(bytes: Seq<u8>) -> Seq<char>
    decreases bytes.len(),
{
    if bytes.len() == 0 {
        Seq::empty()
    } else {
        percent_encoded(bytes.drop_last()) + encode_byte(bytes.last())
    }
}

fn hex_char(n: u8) -> (r: char)
    requires
        n < 16,
    ensures
        r == hex_digit(n),
{
    if n < 10 {
        (48 + n) as char
    } else {
        (55 + n) as char
    }
}

fn is_escaped_in_segment(b: u8) -> (r: bool)
    ensures
        r == escaped_in_segment(b),
{
    b < 0x20 || b >= 0x7f || b == 0x20 || b == 0x22 || b == 0x23 || b == 0x25 || b == 0x2f || b
        == 0x3c || b == 0x3e || b == 0x3f || b == 0x60 || b == 0x7b || b == 0x7d
}

/// Percent-encodes the UTF-8 bytes of `s` so that it can stand as a single
/// path segment (a `/` in it is encoded too).
pub fn encode_path_segment(s: &str) -> (r: String)
    ensures
        r@ == percent_encoded(encode_utf8(s@)),
{
    let bytes = s.as_bytes();
    let mut out = String::new();
    let mut i: usize = 0;
    while i < bytes.len()
        invariant
            i <= bytes@.len(),
            bytes@ == encode_utf8(s@),
            out@ == percent_encoded(bytes@.take(i as int)),
        decreases bytes.len() - i,
    {
        let b = bytes[i];
        assert(bytes@.take(i + 1).drop_last() =~= bytes@.take(i as int));
        let ghost before = out@;
        if is_escaped_in_segment(b) {
            push_char(&mut out, '%');
            push_char(&mut out, hex_char(b / 16));
            push_char(&mut out, hex_char(b % 16));
            assert(out@ =~= before + encode_byte(b));
        } else {
            push_char(&mut out, b as char);
            assert(out@ =~= before + encode_byte(b));
        }
        i = i + 1;
    }
    assert(bytes@.take(i as int) =~= bytes@);
    out
}

/// What GitLab is sent to close a merge request.
#[derive(Clone, Copy, Debug, PartialEq, Eq, Structural)]
pub enum MergeRequestStateEvent {
    Close,
}

impl MergeRequestStateEvent {
    /// The value as it appears in the query.
    pub fn value(&self) -> (r: &'static str)
        ensures
            r@ == "close"@,
    {
        "close"
    }
}

/// The query of a request that changes a merge request's state.
#[derive(Clone, Copy, Debug, PartialEq, Eq, Structural)]
pub struct MergeRequestOptions {
    pub state_event: MergeRequestStateEvent,
}

impl MergeRequestOptions {
    /// The query pairs: `state_event=close`.
    pub fn query_pairs(&self) -> (r: Vec<(String, String)>)
        ensures
            r@.len() == 1,
            r@[0].0@ == "state_event"@,
            r@[0].1@ == "close"@,
    {
        let mut out: Vec<(String, String)> = Vec::new();
        out.push((String::from_str("state_event"), String::from_str(self.state_event.value())));
        out
    }
}

/// The state of a merge request.
#[derive(Clone, Copy, Debug, PartialEq, Eq, Structural)]
pub enum MergeRequestState {
    Opened,
    Closed,
    Locked,
    Merged,
}

/// The state of a user account.
#[derive(Clone, Copy, Debug, PartialEq, Eq, Structural)]
pub enum UserState {
    All,
    Active,
    Inactive,
    Blocked,
    LdapBlocked,
}

/// A user as GitLab describes it.
#[derive(Debug)]
pub struct User {
    pub id: Option<i32>,
    pub name: String,
    pub username: String,
    pub state: Option<UserState>,
    pub avatar_url: String,
    pub web_url: Option<String>,
}

/// A merge request as GitLab describes it.
#[derive(Debug)]
pub struct MergeRequest {
    pub id: i32,
    pub iid: i32,
    pub project_id: i32,
    pub title: String,
    pub state: MergeRequestState,
    pub created_at: Timestamp,
    pub updated_at: Timestamp,
    pub target_branch: String,
    pub source_branch: String,
    pub author: Option<User>,
    pub source_project_id: i32,
    pub target_project_id: i32,
    pub web_url: String,
}

/// A protected branch as GitLab lists it.
#[derive(Debug)]
pub struct ProtectedBranch {
    pub name: String,
}

/// The provider-neutral form of a merge request: its project-scoped `iid`
/// is the id.
pub open spec fn push_request_of(mr: MergeRequest) -> PushRequest {
    PushRequest {
        url: mr.web_url,
        id: mr.iid,
        title: mr.title,
        created_at: mr.created_at,
        updated_at: mr.updated_at,
        target_project: mr.target_project_id,
        target_branch: mr.target_branch,
        source_project: mr.source_project_id,
        source_branch: mr.source_branch,
    }
}

impl MergeRequest {
    /// The merge request in provider-neutral form (see `push_request_of`).
    pub fn to_push_request(&self) -> (r: PushRequest)
        ensures
            r == push_request_of(*self),
    {
        PushRequest {
            url: self.web_url.clone(),
            id: self.iid,
            title: self.title.clone(),
            created_at: self.created_at,
            updated_at: self.updated_at,
            target_project: self.target_project_id,
            target_branch: self.target_branch.clone(),
            source_project: self.source_project_id,
            source_branch: self.source_branch.clone(),
        }
    }
}

/// A page of merge requests in provider-neutral form, in page order.
pub fn push_requests_from_page(page: &Vec<MergeRequest>) -> (r: Vec<PushRequest>)
    ensures
        r@ == page@.map_values(|mr: MergeRequest| push_request_of(mr)),
{
    let mut out: Vec<PushRequest> = Vec::new();
    let mut i: usize = 0;
    while i < page.len()
        invariant
            i <= page@.len(),
            out@ == page@.take(i as int).map_values(|mr: MergeRequest| push_request_of(mr)),
        decreases page.len() - i,
    {
        out.push(page[i].to_push_request());
        assert(page@.take(i + 1).map_values(|mr: MergeRequest| push_request_of(mr)) =~= page@.take(
            i as int,
        ).map_values(|mr: MergeRequest| push_request_of(mr)).push(push_request_of(page@[i as int])));
        i = i + 1;
    }
    assert(page@.take(i as int) =~= page@);
    out
}

/// The rules from a list of protected branches, in order; a name that is
/// not a valid glob is skipped.
pub fn protected_branches_from_page(page: &Vec<ProtectedBranch>) -> (r: Vec<BranchRule>)
    ensures
        r@.map_values(|b: BranchRule| b@) == crate::github::valid_rule_names(
            page@.map_values(|b: ProtectedBranch| b.name@),
        ),
{
    let ghost names = page@.map_values(|b: ProtectedBranch| b.name@);
    let mut out: Vec<BranchRule> = Vec::new();
    let mut i: usize = 0;
    while i < page.len()
        invariant
            i <= page@.len(),
            names == page@.map_values(|b: ProtectedBranch| b.name@),
            out@.map_values(|b: BranchRule| b@) == crate::github::valid_rule_names(
                names.take(i as int),
            ),
        decreases page.len() - i,
    {
        proof {
            reveal(Seq::filter);
            assert(names.take(i + 1).drop_last() =~= names.take(i as int));
            assert(names.take(i + 1).last() == page@[i as int].name@);
        }
        let ghost before = out@;
        match BranchRule::new(page[i].name.as_str()) {
            Some(rule) => {
                out.push(rule);
                assert(out@.map_values(|b: BranchRule| b@) =~= before.map_values(
                    |b: BranchRule| b@,
                ).push(rule@));
            },
            None => {},
        }
        i = i + 1;
    }
    assert(names.take(i as int) =~= names);
    out
}

/// The address of one project on a GitLab API.
#[derive(Debug)]
pub struct Gitlab {
    pub base_url: String,
    pub token: String,
    pub owner: String,
    pub repo: String,
}

impl Gitlab {
    pub fn new(base_url: &str, token: &str, owner: &str, repo: &str) -> (r: Gitlab)
        ensures
            r.base_url@ == base_url@,
            r.token@ == token@,
            r.owner@ == owner@,
            r.repo@ == repo@,
    {
        Gitlab {
            base_url: String::from_str(base_url),
            token: String::from_str(token),
            owner: String::from_str(owner),
            repo: String::from_str(repo),
        }
    }

    /// `{base}/api/v4/projects/{owner/repo, encoded as one segment}`.
    pub open spec fn project_url(&self) -> Seq<char> {
        self.base_url@ + "/api/v4/projects/"@ + percent_encoded(
            encode_utf8(self.owner@ + "/"@ + self.repo@),
        )
    }

    pub fn construct_base_url(&self) -> (r: String)
        ensures
            r@ == self.project_url(),
    {
        let a = join(self.owner.as_str(), "/");
        let namespace = join(a.as_str(), self.repo.as_str());
        let encoded = encode_path_segment(namespace.as_str());
        let b = join(self.base_url.as_str(), "/api/v4/projects/");
        join(b.as_str(), encoded.as_str())
    }

    /// Where merge requests are listed.
    pub fn merge_requests_url(&self) -> (r: String)
        ensures
            r@ == self.project_url() + "/merge_requests"@,
    {
        join(self.construct_base_url().as_str(), "/merge_requests")
    }

    /// The query of a merge request listing in `state`, for one page or
    /// (with `None`) for the request that discovers the pages.
    pub fn merge_requests_query(&self, state: PushRequestState, page: Option<usize>) -> (r: Vec<
        (String, String),
    >)
        ensures
            r@.len() == if page is Some {
                2int
            } else {
                1int
            },
            r@[0].0@ == "state"@,
            r@[0].1@ == state.gitlab_spec(),
            page matches Some(p) ==> r@[1].0@ == "page"@ && r@[1].1@ == decimal(p as nat),
    {
        let mut out: Vec<(String, String)> = Vec::new();
        out.push((String::from_str("state"), String::from_str(state.gitlab_value())));
        match page {
            Some(p) => {
                out.push((String::from_str("page"), usize_to_text(p)));
            },
            None => {},
        }
        out
    }

    /// Where the merge request numbered `id` is changed.
    pub fn merge_request_url(&self, id: i32) -> (r: String)
        ensures
            r@ == self.project_url() + "/merge_requests/"@ + signed_decimal(id as int),
    {
        let a = join(self.construct_base_url().as_str(), "/merge_requests/");
        join(a.as_str(), i32_to_text(id).as_str())
    }

    /// Where protected branches are listed.
    pub fn protected_branches_url(&self) -> (r: String)
        ensures
            r@ == self.project_url() + "/protected_branches"@,
    {
        join(self.construct_base_url().as_str(), "/protected_branches")
    }

    /// The headers sent with every request: the token in `private-token`.
    pub fn default_headers(&self) -> (r: Vec<(String, String)>)
        ensures
            r@.len() == 1,
            r@[0].0@ == "private-token"@,
            r@[0].1@ == self.token@,
    {
        let mut out: Vec<(String, String)> = Vec::new();
        out.push((String::from_str("private-token"), self.token.clone()));
        out
    }
}

} // verus!
