use foxdie::eligibility::{
    branches_to_delete, delete_branches_if_needed, has_branch_updated_since,
    is_branch_to_delete, is_push_request_to_close, push_requests_to_close,
    removing_remote_from_tracking_branch, BranchCandidate,
};
use foxdie::services::{ProtectedBranch, PushRequest, PushRequestState, Timestamp};

fn at(seconds: i64) -> Timestamp {
    Timestamp { seconds, nanos: 0 }
}

fn pr(id: i32, source: i32, target: i32, updated: i64, branch: &str) -> PushRequest {
    PushRequest {
        url: format!("https://example.com/pr/{}", id),
        id,
        title: format!("change {}", id),
        created_at: at(0),
        updated_at: at(updated),
        target_project: target,
        target_branch: "main".to_string(),
        source_project: source,
        source_branch: branch.to_string(),
    }
}

fn branch(name: &str, is_current: bool, time: i64) -> BranchCandidate {
    BranchCandidate { name: Some(name.to_string()), is_current, last_commit_time: Some(time) }
}

#[test]
fn remote_prefix_is_stripped_once_from_the_front() {
    assert_eq!(removing_remote_from_tracking_branch("origin/origin/feat", "origin"), "origin/feat");
    assert_eq!(removing_remote_from_tracking_branch("origin/feature-x", "origin"), "feature-x");
    assert_eq!(
        removing_remote_from_tracking_branch("upstream/origin/x", "origin"),
        "upstream/origin/x"
    );
    assert_eq!(removing_remote_from_tracking_branch("originx/y", "origin"), "originx/y");
    assert_eq!(removing_remote_from_tracking_branch("origin", "origin"), "origin");
}

#[test]
fn staleness_cutoff_is_inclusive() {
    let cutoff = at(1_000);
    assert!(!has_branch_updated_since(Some(1_000), &cutoff));
    assert!(!has_branch_updated_since(Some(999), &cutoff));
    assert!(has_branch_updated_since(Some(1_001), &cutoff));
    assert!(has_branch_updated_since(None, &cutoff));
    let with_fraction = Timestamp { seconds: 1_000, nanos: 500 };
    assert!(!has_branch_updated_since(Some(1_000), &with_fraction));
    assert!(has_branch_updated_since(Some(1_001), &with_fraction));
}

#[test]
fn push_request_eligibility_all_combinations() {
    let cutoff = at(1_000);
    assert!(is_push_request_to_close(&pr(1, 7, 7, 999, "a"), &cutoff));
    assert!(!is_push_request_to_close(&pr(2, 7, 8, 999, "a"), &cutoff));
    assert!(!is_push_request_to_close(&pr(3, 7, 7, 1_000, "a"), &cutoff));
    assert!(!is_push_request_to_close(&pr(4, 7, 8, 1_001, "a"), &cutoff));
}

#[test]
fn push_request_selection_keeps_order_and_is_repeatable() {
    let cutoff = at(1_000);
    let all = vec![
        pr(1, 7, 7, 10, "a"),
        pr(2, 7, 8, 10, "b"),
        pr(3, 7, 7, 2_000, "c"),
        pr(4, 9, 9, 999, "d"),
    ];
    let selected = push_requests_to_close(&all, &cutoff);
    let ids: Vec<i32> = selected.iter().map(|p| p.id).collect();
    assert_eq!(ids, vec![1, 4]);
    let again = push_requests_to_close(&selected, &cutoff);
    let ids_again: Vec<i32> = again.iter().map(|p| p.id).collect();
    assert_eq!(ids_again, ids);
    let second_run = push_requests_to_close(&all, &cutoff);
    assert_eq!(second_run.len(), selected.len());
}

#[test]
fn protected_pattern_matching() {
    let rule = ProtectedBranch::new("release-*").unwrap();
    assert_eq!(rule.pattern(), "release-*");
    assert!(rule.matches_branch("release-1.2"));
    assert!(!rule.matches_branch("release"));
    assert!(!rule.matches_branch("prerelease-1.2"));
    assert!(ProtectedBranch::new("***").is_none());
    let single = ProtectedBranch::new("v?").unwrap();
    assert!(single.matches_branch("v1"));
    assert!(!single.matches_branch("v10"));
}

#[test]
fn scenario_feature_branch_is_the_only_candidate() {
    let cutoff = at(1_000_000);
    let branches = vec![
        branch("origin/main", true, 10),
        branch("origin/feature-x", false, 10),
        branch("origin/release-1.0", false, 10),
    ];
    let protected = vec![ProtectedBranch::new("release-*").unwrap()];
    let selected = branches_to_delete("origin", &branches, &cutoff, &vec![], &protected);
    assert_eq!(selected, vec![1]);
    assert_eq!(branches_to_delete("origin", &branches, &cutoff, &vec![], &protected), selected);
}

#[test]
fn open_push_request_or_recent_commit_keeps_a_branch() {
    let cutoff = at(1_000);
    let prs = vec![pr(5, 1, 1, 0, "feature-y")];
    let keep_pr = branch("origin/feature-y", false, 10);
    assert!(!is_branch_to_delete("origin", &keep_pr, &cutoff, &prs, &vec![]));
    let recent = branch("origin/feature-z", false, 2_000);
    assert!(!is_branch_to_delete("origin", &recent, &cutoff, &prs, &vec![]));
    let unknown_time =
        BranchCandidate { name: Some("origin/old".to_string()), is_current: false, last_commit_time: None };
    assert!(!is_branch_to_delete("origin", &unknown_time, &cutoff, &prs, &vec![]));
    let unnamed = BranchCandidate { name: None, is_current: false, last_commit_time: Some(1) };
    assert!(!is_branch_to_delete("origin", &unnamed, &cutoff, &prs, &vec![]));
    let stale = branch("origin/old", false, 1_000);
    assert!(is_branch_to_delete("origin", &stale, &cutoff, &prs, &vec![]));
}

#[test]
fn deletion_refspecs_use_short_names() {
    let names = vec!["origin/feature-x".to_string(), "origin/origin/y".to_string()];
    assert_eq!(
        delete_branches_if_needed(&names, "origin"),
        vec!["+:refs/heads/feature-x".to_string(), "+:refs/heads/origin/y".to_string()]
    );
}

#[test]
fn state_values_per_provider() {
    assert_eq!(PushRequestState::Opened.github_value(), "open");
    assert_eq!(PushRequestState::Opened.gitlab_value(), "opened");
    assert_eq!(PushRequestState::Closed.github_value(), "closed");
    assert_eq!(PushRequestState::Closed.gitlab_value(), "closed");
}

#[test]
fn timestamps_order_by_seconds_then_nanos() {
    assert!(at(1).is_before(&at(2)));
    assert!(!at(2).is_before(&at(2)));
    assert!(Timestamp { seconds: 2, nanos: 1 }.is_before(&Timestamp { seconds: 2, nanos: 2 }));
    assert!(!Timestamp { seconds: 3, nanos: 0 }.is_before(&Timestamp { seconds: 2, nanos: 9 }));
}
