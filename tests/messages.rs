use foxdie::messages::{
    print_branches_to_delete, print_dry_run_warning, print_push_requests_to_close, print_report,
};
use foxdie::report::{report_for_branch, source_branches, CommitFacts};
use foxdie::services::{PushRequest, Timestamp};

fn pr(id: i32, branch: &str) -> PushRequest {
    PushRequest {
        url: format!("https://e/{}", id),
        id,
        title: "Fix it".to_string(),
        created_at: Timestamp { seconds: 0, nanos: 0 },
        updated_at: Timestamp { seconds: 0, nanos: 0 },
        target_project: 1,
        target_branch: "main".to_string(),
        source_project: 1,
        source_branch: branch.to_string(),
    }
}

#[test]
fn branch_summary_lists_names() {
    let names = vec!["origin/a".to_string(), "origin/b".to_string()];
    assert_eq!(
        print_branches_to_delete(&names, 10, "origin"),
        "Found 2 eligible branches out of 10 total on origin:\n\u{2022} origin/a\n\u{2022} origin/b\n"
    );
    assert_eq!(
        print_branches_to_delete(&vec![], 3, "upstream"),
        "Found 0 eligible branches out of 3 total on upstream."
    );
}

#[test]
fn push_request_summary_lists_requests() {
    assert_eq!(
        print_push_requests_to_close(&vec![pr(12, "x")], 40),
        "Found 1 eligible push requests out of 40 total:\n\u{2022} #12: Fix it (https://e/12)\n"
    );
    assert_eq!(
        print_push_requests_to_close(&vec![], 0),
        "Found 0 eligible push requests out of 0 total"
    );
}

#[test]
fn dry_run_warning_mentions_the_flag() {
    assert!(print_dry_run_warning().contains("`--delete`"));
}

fn facts(author: Option<&str>) -> CommitFacts {
    CommitFacts {
        hash: "abc123".to_string(),
        author: author.map(|a| a.to_string()),
        time: 1_500,
        message: Some("msg".to_string()),
    }
}

#[test]
fn report_entries_need_every_fact() {
    let prs = source_branches(&vec![pr(1, "origin/x")]);
    assert_eq!(prs, vec!["origin/x".to_string()]);
    let item =
        report_for_branch(Some("origin/x".to_string()), Some(facts(Some("Ann"))), Some((2, 5)), &prs)
            .unwrap();
    assert_eq!(item.branch, "origin/x");
    assert_eq!(item.commit, "abc123");
    assert_eq!(item.author, "Ann");
    assert_eq!(item.last_updated, 1_500);
    assert_eq!((item.upstream_diverged, item.downstream_diverged), (2, 5));
    assert!(item.has_push_request);
    assert!(!item.was_merge);
    assert!(report_for_branch(Some("origin/y".to_string()), Some(facts(None)), Some((0, 0)), &prs)
        .is_none());
    assert!(report_for_branch(None, Some(facts(Some("Ann"))), Some((0, 0)), &prs).is_none());
    assert!(report_for_branch(Some("origin/y".to_string()), Some(facts(Some("Ann"))), None, &prs)
        .is_none());
    let other =
        report_for_branch(Some("origin/y".to_string()), Some(facts(Some("Bo"))), Some((0, 0)), &prs)
            .unwrap();
    assert!(!other.has_push_request);
}

#[test]
fn report_lines_list_author_and_branch() {
    let prs = source_branches(&vec![]);
    let item =
        report_for_branch(Some("origin/x".to_string()), Some(facts(Some("Ann"))), Some((0, 1)), &prs)
            .unwrap();
    let lines = print_report("origin", "git@h:o/r.git", &vec![item]);
    assert_eq!(
        lines,
        vec![
            "Report for origin (git@h:o/r.git)\n=================================".to_string(),
            "Ann \u{2013} origin/x".to_string(),
        ]
    );
}
