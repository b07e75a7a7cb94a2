//! Per-branch report entries: a read-only view of each remote branch with
//! its head commit, its divergence from the current branch, and whether a
//! push request comes from it.

use crate::services::PushRequest;
use crate::text::same_text;
use vstd::prelude::*;

verus! {

/// What was read of a branch's head commit.
#[derive(Debug)]
pub struct CommitFacts {
    pub hash: String,
    /// The author's name, when it could be decoded.
    pub author: Option<String>,
    /// Commit time in seconds since the Unix epoch.
    pub time: i64,
    /// The message, when it could be decoded.
    pub message: Option<String>,
}

/// One report entry.
#[derive(Debug)]
pub struct ReportItem {
    pub upstream_diverged: usize,
    pub downstream_diverged: usize,
    pub branch: String,
    pub commit: String,
    pub author: String,
    /// Seconds since the Unix epoch.
    pub last_updated: i64,
    pub was_merge: bool,
    pub has_push_request: bool,
    pub message: String,
}

/// The source branches of the given push requests, in order.
pub fn source_branches(push_requests: &Vec<PushRequest>) -> (r: Vec<String>)
    ensures
        r@.len() == push_requests@.len(),
        forall|i: int|
            0 <= i < r@.len() ==> #[trigger] r@[i]@ == push_requests@[i].source_branch@,
{
    let mut out: Vec<String> = Vec::new();
    let mut i: usize = 0;
    while i < push_requests.len()
        invariant
            i <= push_requests@.len(),
            out@.len() == i,
            forall|j: int|
                0 <= j < i ==> #[trigger] out@[j]@ == push_requests@[j].source_branch@,
        decreases push_requests.len() - i,
    {
        out.push(push_requests[i].source_branch.clone());
        i = i + 1;
    }
    out
}

fn contains_text(names: &Vec<String>, name: &String) -> (r: bool)
    ensures
        r == exists|i: int| 0 <= i < names@.len() && #[trigger] names@[i]@ == name@,
{
    let mut i: usize = 0;
    while i < names.len()
        invariant
            i <= names@.len(),
            forall|j: int| 0 <= j < i ==> #[trigger] names@[j]@ != name@,
        decreases names.len() - i,
    {
        if same_text(names[i].as_str(), name.as_str()) {
            return true;
        }
        i = i + 1;
    }
    false
}

/// The report entry of one branch, given its name, its head commit and its
/// (ahead, behind) counts against the current branch; `None` when any of
/// these, the author or the message is missing, so that the branch is left
/// out of the report.
pub fn report_for_branch(
    branch_name: Option<String>,
    commit: Option<CommitFacts>,
    divergence: Option<(usize, usize)>,
    push_request_branches: &Vec<String>,
) -> (r: Option<ReportItem>)
    ensures
        r is Some <==> (branch_name is Some && commit is Some && divergence is Some
            && commit->0.author is Some && commit->0.message is Some),
        r matches Some(item) ==> {
            &&& item.branch == branch_name->0
            &&& item.commit == commit->0.hash
            &&& item.author == commit->0.author->0
            &&& item.last_updated == commit->0.time
            &&& item.message == commit->0.message->0
            &&& divergence == Some((item.upstream_diverged, item.downstream_diverged))
            &&& !item.was_merge
            &&& item.has_push_request == exists|i: int|
                0 <= i < push_request_branches@.len() && #[trigger] push_request_branches@[i]@
                    == branch_name->0@
        },
{
    let branch = branch_name?;
    let facts = commit?;
    let (upstream_diverged, downstream_diverged) = divergence?;
    let CommitFacts { hash, author, time, message } = facts;
    let author = author?;
    let message = message?;
    let has_push_request = contains_text(push_request_branches, &branch);
    Some(
        ReportItem {
            upstream_diverged,
            downstream_diverged,
            branch,
            commit: hash,
            author,
            last_updated: time,
            was_merge: false,
            has_push_request,
            message,
        },
    )
}

} // verus!
