use foxdie::detect::{SCMKind, SCM};
use foxdie::github::{
    protected_branches_from_page, push_requests_from_page, GitData, GitHub, GitHubPager, Link,
    Links, PullRequest, PullRequestOptions, PullRequestStateEvent, Repository,
};
use foxdie::gitlab::{
    encode_path_segment, parse_usize, GitLabPager, Gitlab, MergeRequest, MergeRequestOptions,
    MergeRequestState, MergeRequestStateEvent, Pages,
};
use foxdie::provider::{ProviderApi, SCMProvider};
use foxdie::services::{PushRequestState, Timestamp};

fn at(seconds: i64) -> Timestamp {
    Timestamp { seconds, nanos: 0 }
}

fn headers(pairs: &[(&str, &str)]) -> Vec<(String, String)> {
    pairs.iter().map(|(k, v)| (k.to_string(), v.to_string())).collect()
}

#[test]
fn link_entry_parsing() {
    let l = Link::parse_from_rfc5988(" <https://api.example.com/x?page=2>; rel=\"next\"");
    assert_eq!(l.uri, "https://api.example.com/x?page=2");
    assert_eq!(l.rel, "next");
    let bare = Link::parse_from_rfc5988("<https://a/b>");
    assert_eq!(bare.uri, "https://a/b");
    assert_eq!(bare.rel, "");
}

#[test]
fn link_header_lookup_by_relation() {
    let h = "<https://a/p?page=1>; rel=\"prev\", <https://a/p?page=3>; rel=\"next\", \
             <https://a/p?page=9>; rel=\"last\", <https://a/p?page=1>; rel=\"first\"";
    let links = Links::parse_from_rfc5988(h);
    assert_eq!(links.links.len(), 4);
    assert_eq!(links.next().unwrap().uri, "https://a/p?page=3");
    assert_eq!(links.prev().unwrap().uri, "https://a/p?page=1");
    assert_eq!(links.last().unwrap().uri, "https://a/p?page=9");
    assert_eq!(links.first().unwrap().uri, "https://a/p?page=1");
    let only_prev = Links::parse_from_rfc5988("<https://a/p?page=1>; rel=\"prev\"");
    assert!(only_prev.next().is_none());
}

#[test]
fn github_pages_are_merged_in_arrival_order() {
    let mut pager: GitHubPager<u32> = GitHubPager::new();
    let next = pager.on_page(vec![1, 2], Some("<https://a/p?page=2>; rel=\"next\""));
    assert_eq!(next.as_deref(), Some("https://a/p?page=2"));
    let next = pager.on_page(
        vec![3, 4],
        Some("<https://a/p?page=1>; rel=\"prev\", <https://a/p?page=3>; rel=\"next\""),
    );
    assert_eq!(next.as_deref(), Some("https://a/p?page=3"));
    let next = pager.on_page(vec![5], Some("<https://a/p?page=2>; rel=\"prev\""));
    assert_eq!(next, None);
    assert_eq!(pager.into_items(), vec![1, 2, 3, 4, 5]);
}

#[test]
fn github_page_without_link_header_ends_listing() {
    let mut pager: GitHubPager<u32> = GitHubPager::new();
    assert_eq!(pager.on_page(vec![7], None), None);
    assert_eq!(pager.into_items(), vec![7]);
}

#[test]
fn usize_header_values() {
    assert_eq!(parse_usize("42"), Some(42));
    assert_eq!(parse_usize("+7"), Some(7));
    assert_eq!(parse_usize("0"), Some(0));
    assert_eq!(parse_usize(""), None);
    assert_eq!(parse_usize("+"), None);
    assert_eq!(parse_usize("-1"), None);
    assert_eq!(parse_usize(" 1"), None);
    assert_eq!(parse_usize("1a"), None);
    assert_eq!(parse_usize("18446744073709551615"), Some(usize::MAX));
    assert_eq!(parse_usize("18446744073709551616"), None);
}

#[test]
fn gitlab_pagination_headers() {
    let h = headers(&[("x-page", "2"), ("x-total", "45"), ("x-total-pages", "4"), ("x-page", "9")]);
    let pages = Pages::new(&h);
    assert_eq!(pages.current, Some(2));
    assert_eq!(pages.total_items, Some(45));
    assert_eq!(pages.total_pages, Some(4));
    assert_eq!(pages.per_page, None);
    let mut pager: GitLabPager<u32> = GitLabPager::new(&pages);
    let mut fetched = vec![];
    while let Some(p) = pager.next_page() {
        fetched.push(p);
        pager.on_page(vec![p as u32 * 10]);
    }
    assert_eq!(fetched, vec![2, 3, 4]);
    assert_eq!(pager.into_items(), vec![20, 30, 40]);
}

#[test]
fn gitlab_missing_total_pages_gives_empty_listing() {
    let h = headers(&[("x-page", "1"), ("x-total", "3")]);
    let pages = Pages::new(&h);
    assert_eq!(pages.total_pages, None);
    let mut pager: GitLabPager<u32> = GitLabPager::new(&pages);
    assert_eq!(pager.next_page(), None);
    assert!(pager.into_items().is_empty());
    let unreadable = Pages::new(&headers(&[("x-page", "1"), ("x-total", "3"), ("x-total-pages", "n/a")]));
    let mut pager: GitLabPager<u32> = GitLabPager::new(&unreadable);
    assert_eq!(pager.next_page(), None);
}

#[test]
fn project_path_is_encoded_as_one_segment() {
    assert_eq!(encode_path_segment("acme/widgets"), "acme%2Fwidgets");
    assert_eq!(encode_path_segment("a b#c?d%e"), "a%20b%23c%3Fd%25e");
    assert_eq!(encode_path_segment("caf\u{e9}"), "caf%C3%A9");
    assert_eq!(encode_path_segment("ok-_.~"), "ok-_.~");
}

#[test]
fn gitlab_endpoints() {
    let gl = Gitlab::new("https://gitlab.example.com", "tok", "grp", "proj");
    assert_eq!(gl.construct_base_url(), "https://gitlab.example.com/api/v4/projects/grp%2Fproj");
    assert_eq!(
        gl.merge_requests_url(),
        "https://gitlab.example.com/api/v4/projects/grp%2Fproj/merge_requests"
    );
    assert_eq!(
        gl.merge_request_url(12),
        "https://gitlab.example.com/api/v4/projects/grp%2Fproj/merge_requests/12"
    );
    assert_eq!(
        gl.protected_branches_url(),
        "https://gitlab.example.com/api/v4/projects/grp%2Fproj/protected_branches"
    );
    assert_eq!(
        gl.merge_requests_query(PushRequestState::Opened, Some(3)),
        vec![("state".to_string(), "opened".to_string()), ("page".to_string(), "3".to_string())]
    );
    assert_eq!(gl.default_headers(), vec![("private-token".to_string(), "tok".to_string())]);
    let close = MergeRequestOptions { state_event: MergeRequestStateEvent::Close };
    assert_eq!(close.query_pairs(), vec![("state_event".to_string(), "close".to_string())]);
}

#[test]
fn github_endpoints() {
    let gh = GitHub::new("https://api.github.com", "tok", "acme", "widgets");
    assert_eq!(gh.construct_base_url(), "https://api.github.com/repos/acme/widgets");
    assert_eq!(gh.pulls_url(), "https://api.github.com/repos/acme/widgets/pulls");
    assert_eq!(gh.pull_url(-3), "https://api.github.com/repos/acme/widgets/pulls/-3");
    assert_eq!(gh.branches_url(), "https://api.github.com/repos/acme/widgets/branches");
    assert_eq!(
        gh.protected_branches_query(),
        vec![("protected".to_string(), "true".to_string())]
    );
    assert_eq!(
        gh.pulls_query(PushRequestState::Opened),
        vec![("state".to_string(), "open".to_string())]
    );
    let h = gh.default_headers();
    assert_eq!(h[1], ("authorization".to_string(), "Bearer tok".to_string()));
    let close = PullRequestOptions { state: PullRequestStateEvent::Closed };
    assert_eq!(close.query_pairs(), vec![("state".to_string(), "closed".to_string())]);
}

fn side(label: &str, repo_id: i32) -> GitData {
    GitData {
        label: label.to_string(),
        git_ref: "r".to_string(),
        sha: "s".to_string(),
        repo: Repository {
            id: repo_id,
            name: "n".to_string(),
            full_name: "o/n".to_string(),
            html_url: "u".to_string(),
            fork: false,
            created_at: at(0),
            updated_at: at(0),
            pushed_at: at(0),
        },
    }
}

#[test]
fn pull_requests_become_push_requests() {
    let page = vec![PullRequest {
        id: 900,
        html_url: "https://github.com/o/n/pull/4".to_string(),
        number: 4,
        title: "t".to_string(),
        created_at: at(1),
        updated_at: at(2),
        head: side("o:feature", 11),
        base: side("o:main", 10),
    }];
    let prs = push_requests_from_page(&page);
    assert_eq!(prs.len(), 1);
    assert_eq!(prs[0].id, 4);
    assert_eq!(prs[0].source_branch, "o:feature");
    assert_eq!(prs[0].source_project, 11);
    assert_eq!(prs[0].target_project, 10);
    assert_eq!(prs[0].updated_at, at(2));
}

#[test]
fn merge_requests_become_push_requests() {
    let page = vec![MergeRequest {
        id: 500,
        iid: 8,
        project_id: 3,
        title: "mr".to_string(),
        state: MergeRequestState::Opened,
        created_at: at(5),
        updated_at: at(6),
        target_branch: "main".to_string(),
        source_branch: "topic".to_string(),
        author: None,
        source_project_id: 3,
        target_project_id: 3,
        web_url: "https://gitlab.com/g/p/-/merge_requests/8".to_string(),
    }];
    let prs = foxdie::gitlab::push_requests_from_page(&page);
    assert_eq!(prs[0].id, 8);
    assert_eq!(prs[0].url, "https://gitlab.com/g/p/-/merge_requests/8");
    assert_eq!(prs[0].source_branch, "topic");
}

#[test]
fn invalid_protected_branch_names_are_dropped() {
    let page = vec![
        foxdie::github::ProtectedBranch { name: "main".to_string() },
        foxdie::github::ProtectedBranch { name: "***".to_string() },
        foxdie::github::ProtectedBranch { name: "release-*".to_string() },
    ];
    let rules = protected_branches_from_page(&page);
    let names: Vec<&str> = rules.iter().map(|r| r.pattern()).collect();
    assert_eq!(names, vec!["main", "release-*"]);
    let gl_page = vec![foxdie::gitlab::ProtectedBranch { name: "***".to_string() }];
    assert!(foxdie::gitlab::protected_branches_from_page(&gl_page).is_empty());
}

#[test]
fn provider_follows_descriptor_kind() {
    let scm = |kind| SCM {
        kind,
        base_url: "https://b".to_string(),
        owner: "o".to_string(),
        repo: "r".to_string(),
    };
    match SCMProvider::from_scm_description(scm(SCMKind::GitHub), "t").map(|p| p.api) {
        Some(ProviderApi::GitHub(g)) => assert_eq!(g.construct_base_url(), "https://b/repos/o/r"),
        other => panic!("unexpected {:?}", other),
    }
    match SCMProvider::from_scm_description(scm(SCMKind::Gitlab), "t").map(|p| p.api) {
        Some(ProviderApi::Gitlab(g)) => assert_eq!(g.token, "t"),
        other => panic!("unexpected {:?}", other),
    }
    assert!(SCMProvider::from_scm_description(scm(SCMKind::Unsupported), "t").is_none());
}
