//! Which remote-tracking branches may be deleted, and which push requests
//! may be closed, given state already fetched from the repository and the
//! provider.

use crate::services::{ProtectedBranch, PushRequest, Timestamp};
use crate::text::{join, starts_with};
use vstd::prelude::*;

verus! {

/// A remote-tracking branch under consideration, as read from the
/// repository.
#[derive(Debug)]
pub struct BranchCandidate {
    /// The tracking name (`origin/feature-x`); `None` when it could not be
    /// read or decoded.
    pub name: Option<String>,
    /// Whether it is the reference that the checked-out branch tracks.
    pub is_current: bool,
    /// Commit time of its last commit, in seconds since the Unix epoch;
    /// `None` when it could not be read.
    pub last_commit_time: Option<i64>,
}

/// The short name of a tracking branch: a single leading `"{remote}/"`
/// removed, the rest kept as it is.
pub open spec fn short_name(branch: Seq<char>, remote: Seq<char>) -> Seq<char> {
    let prefix = remote.push('/');
    if prefix.is_prefix_of(branch) {
        branch.skip(prefix.len() as int)
    } else {
        branch
    }
}

/// Whether a branch counts as updated after `date`: its last commit is
/// strictly later, or its time is unknown.
pub open spec fn updated_since(commit_time: Option<i64>, date: Timestamp) -> bool {
    match commit_time {
        Some(t) => date.precedes(Timestamp { seconds: t, nanos: 0 }),
        None => true,
    }
}

/// Whether an open push request has `name` as its source branch.
pub open spec fn has_push_request(push_requests: Seq<PushRequest>, name: Seq<char>) -> bool {
    exists|i: int| 0 <= i < push_requests.len() && #[trigger] push_requests[i].source_branch@ == name
}

/// Whether some protected-branch rule matches `name`.
pub open spec fn is_protected(protected: Seq<ProtectedBranch>, name: Seq<char>) -> bool {
    exists|i: int| 0 <= i < protected.len() && #[trigger] protected[i].protects(name)
}

/// The branch may be deleted: its name is known, it is not the current
/// branch, it has not been updated since `date`, no open push request comes
/// from it, and no protected-branch rule matches it.
pub open spec fn branch_eligible(
    remote: Seq<char>,
    branch: BranchCandidate,
    date: Timestamp,
    push_requests: Seq<PushRequest>,
    protected: Seq<ProtectedBranch>,
) -> bool {
    match branch.name {
        Some(name) => {
            let short = short_name(name@, remote);
            &&& !branch.is_current
            &&& !updated_since(branch.last_commit_time, date)
            &&& !has_push_request(push_requests, short)
            &&& !is_protected(protected, short)
        },
        None => false,
    }
}

/// The positions, in order, of the branches that may be deleted.
pub open spec fn eligible_positions(
    remote: Seq<char>,
    branches: Seq<BranchCandidate>,
    date: Timestamp,
    push_requests: Seq<PushRequest>,
    protected: Seq<ProtectedBranch>,
) -> Seq<usize>
    decreases branches.len(),
{
    if branches.len() == 0 {
        Seq::empty()
    } else {
        let rest = eligible_positions(remote, branches.drop_last(), date, push_requests, protected);
        if branch_eligible(remote, branches.last(), date, push_requests, protected) {
            rest.push((branches.len() - 1) as usize)
        } else {
            rest
        }
    }
}

/// The push request may be closed: it comes from the same project it
/// targets, and it was last updated strictly before `date`.
pub open spec fn push_request_eligible(pr: PushRequest, date: Timestamp) -> bool {
    pr.source_project == pr.target_project && pr.updated_at.precedes(date)
}

/// The short name of a tracking branch: `"{remote_name}/"` is removed once
/// from the front, and only from there.
pub fn removing_remote_from_tracking_branch(branch_name: &str, remote_name: &str) -> (r: String)
    ensures
        r@ == short_name(branch_name@, remote_name@),
{
    let prefix = join(remote_name, "/");
    proof {
        reveal_strlit("/");
        assert(prefix@ =~= remote_name@.push('/'));
    }
    if starts_with(branch_name, prefix.as_str()) {
        let n = branch_name.unicode_len();
        String::from_str(branch_name.substring_char(prefix.as_str().unicode_len(), n))
    } else {
        String::from_str(branch_name)
    }
}

/// Whether the branch's last commit is strictly later than `date`; a
/// commit time that could not be read counts as updated.
pub fn has_branch_updated_since(commit_time: Option<i64>, date: &Timestamp) -> (r: bool)
    ensures
        r == updated_since(commit_time, *date),
{
    match commit_time {
        Some(t) => date.is_before(&Timestamp { seconds: t, nanos: 0 }),
        None => true,
    }
}

fn has_push_request_from(push_requests: &Vec<PushRequest>, name: &String) -> (r: bool)
    ensures
        r == has_push_request(push_requests@, name@),
{
    let mut i: usize = 0;
    while i < push_requests.len()
        invariant
            i <= push_requests@.len(),
            forall|j: int| 0 <= j < i ==> #[trigger] push_requests@[j].source_branch@ != name@,
        decreases push_requests.len() - i,
    {
        if push_requests[i].source_branch == *name {
            return true;
        }
        i = i + 1;
    }
    false
}

fn is_protected_branch(protected: &Vec<ProtectedBranch>, name: &String) -> (r: bool)
    ensures
        r == is_protected(protected@, name@),
{
    let mut i: usize = 0;
    while i < protected.len()
        invariant
            i <= protected@.len(),
            forall|j: int| 0 <= j < i ==> !#[trigger] protected@[j].protects(name@),
        decreases protected.len() - i,
    {
        if protected[i].matches_branch(name.as_str()) {
            return true;
        }
        i = i + 1;
    }
    false
}

/// Whether the branch may be deleted (see `branch_eligible`).
pub fn is_branch_to_delete(
    remote_name: &str,
    branch: &BranchCandidate,
    since_date: &Timestamp,
    push_requests: &Vec<PushRequest>,
    protected_branches: &Vec<ProtectedBranch>,
) -> (r: bool)
    ensures
        r == branch_eligible(remote_name@, *branch, *since_date, push_requests@, protected_branches@),
{
    match &branch.name {
        Some(name) => {
            let short = removing_remote_from_tracking_branch(name.as_str(), remote_name);
            !branch.is_current && !has_branch_updated_since(branch.last_commit_time, since_date)
                && !has_push_request_from(push_requests, &short) && !is_protected_branch(
                protected_branches,
                &short,
            )
        },
        None => false,
    }
}

/// The positions, in order, of the branches that may be deleted.
pub fn branches_to_delete(
    remote_name: &str,
    branches: &Vec<BranchCandidate>,
    since_date: &Timestamp,
    push_requests: &Vec<PushRequest>,
    protected_branches: &Vec<ProtectedBranch>,
) -> (r: Vec<usize>)
    ensures
        r@ == eligible_positions(
            remote_name@,
            branches@,
            *since_date,
            push_requests@,
            protected_branches@,
        ),
{
    let mut out: Vec<usize> = Vec::new();
    let mut i: usize = 0;
    while i < branches.len()
        invariant
            i <= branches@.len(),
            out@ == eligible_positions(
                remote_name@,
                branches@.take(i as int),
                *since_date,
                push_requests@,
                protected_branches@,
            ),
        decreases branches.len() - i,
    {
        assert(branches@.take(i + 1).drop_last() =~= branches@.take(i as int));
        if is_branch_to_delete(remote_name, &branches[i], since_date, push_requests, protected_branches) {
            out.push(i);
        }
        i = i + 1;
    }
    assert(branches@.take(i as int) =~= branches@);
    out
}

/// Whether the push request may be closed (see `push_request_eligible`).
pub fn is_push_request_to_close(pr: &PushRequest, since_date: &Timestamp) -> (r: bool)
    ensures
        r == push_request_eligible(*pr, *since_date),
{
    pr.target_project == pr.source_project && pr.updated_at.is_before(since_date)
}

/// The push requests that may be closed, in the order given.
pub fn push_requests_to_close(push_requests: &Vec<PushRequest>, since_date: &Timestamp) -> (r: Vec<
    PushRequest,
>)
    ensures
        r@ == push_requests@.filter(|pr: PushRequest| push_request_eligible(pr, *since_date)),
{
    let ghost keep = |pr: PushRequest| push_request_eligible(pr, *since_date);
    let mut out: Vec<PushRequest> = Vec::new();
    let mut i: usize = 0;
    while i < push_requests.len()
        invariant
            i <= push_requests@.len(),
            keep == (|pr: PushRequest| push_request_eligible(pr, *since_date)),
            out@ == push_requests@.take(i as int).filter(keep),
        decreases push_requests.len() - i,
    {
        proof {
            reveal(Seq::filter);
            assert(push_requests@.take(i + 1).drop_last() =~= push_requests@.take(i as int));
        }
        if is_push_request_to_close(&push_requests[i], since_date) {
            out.push(push_requests[i].clone());
        }
        i = i + 1;
    }
    assert(push_requests@.take(i as int) =~= push_requests@);
    out
}

/// Removing the remote prefix takes off exactly one leading
/// `"{remote}/"`: whatever follows it is kept, even where it starts with the
/// remote's name again, and a name without that prefix is left unchanged.
pub proof fn lemma_short_name_strips_once(remote: Seq<char>, rest: Seq<char>, other: Seq<char>)
    requires
        !remote.push('/').is_prefix_of(other),
    ensures
        short_name(remote.push('/') + rest, remote) == rest,
        short_name(other, remote) == other,
{
    let prefix = remote.push('/');
    let whole = prefix + rest;
    assert(whole.subrange(0, prefix.len() as int) =~= prefix);
    assert(prefix.is_prefix_of(whole));
    assert(whole.skip(prefix.len() as int) =~= rest);
}

/// Staleness is inclusive: a branch whose last commit falls at or before the
/// cutoff (to the second) has not been updated since it, one with a later
/// commit has, and one whose commit time is unknown always counts as
/// updated.
pub proof fn lemma_staleness_cutoff_inclusive(t: i64, date: Timestamp)
    ensures
        !updated_since(Some(t), date) <==> t <= date.seconds,
        updated_since(None, date),
{
}

/// Selecting the push requests to close is idempotent: selecting again from
/// the selection changes nothing, so repeated runs on one snapshot agree.
pub proof fn lemma_push_request_selection_idempotent(push_requests: Seq<PushRequest>, date: Timestamp)
    ensures
        ({
            let keep = |pr: PushRequest| push_request_eligible(pr, date);
            push_requests.filter(keep).filter(keep) == push_requests.filter(keep)
        }),
    decreases push_requests.len(),
{
    let keep = |pr: PushRequest| push_request_eligible(pr, date);
    reveal(Seq::filter);
    if push_requests.len() > 0 {
        let rest = push_requests.drop_last();
        lemma_push_request_selection_idempotent(rest, date);
        if keep(push_requests.last()) {
            let x = rest.filter(keep);
            assert(x.push(push_requests.last()).drop_last() =~= x);
        }
    }
}

/// The branch selection holds exactly the positions of the eligible
/// branches, in increasing order; being a function of the fetched state
/// alone, it is the same on every run over that state.
pub proof fn lemma_eligible_positions_exact(
    remote: Seq<char>,
    branches: Seq<BranchCandidate>,
    date: Timestamp,
    push_requests: Seq<PushRequest>,
    protected: Seq<ProtectedBranch>,
)
    requires
        branches.len() <= usize::MAX,
    ensures
        ({
            let r = eligible_positions(remote, branches, date, push_requests, protected);
            &&& forall|k: usize|
                r.contains(k) <==> (k < branches.len() && branch_eligible(
                    remote,
                    #[trigger] branches[k as int],
                    date,
                    push_requests,
                    protected,
                ))
            &&& forall|i: int, j: int| 0 <= i < j < r.len() ==> r[i] < r[j]
            &&& forall|i: int| 0 <= i < r.len() ==> r[i] < branches.len()
        }),
    decreases branches.len(),
{
    let r = eligible_positions(remote, branches, date, push_requests, protected);
    if branches.len() > 0 {
        let rest = branches.drop_last();
        lemma_eligible_positions_exact(remote, rest, date, push_requests, protected);
        let p = eligible_positions(remote, rest, date, push_requests, protected);
        let last = (branches.len() - 1) as usize;
        assert(last as int == branches.len() - 1);
        let el = branch_eligible(remote, branches.last(), date, push_requests, protected);
        assert(el ==> r == p.push(last));
        assert(!el ==> r == p);
        assert forall|k: usize|
            r.contains(k) <==> (k < branches.len() && branch_eligible(
                remote,
                #[trigger] branches[k as int],
                date,
                push_requests,
                protected,
            )) by {
            if k < last {
                assert(rest[k as int] == branches[k as int]);
            }
            if r.contains(k) {
                let i = choose|i: int| 0 <= i < r.len() && r[i] == k;
                if i < p.len() {
                    assert(p[i] == k);
                    assert(p.contains(k));
                } else {
                    assert(el && k == last);
                }
            }
            if k < branches.len() && branch_eligible(remote, branches[k as int], date, push_requests, protected) {
                if k < last {
                    assert(p.contains(k));
                    let i = choose|i: int| 0 <= i < p.len() && p[i] == k;
                    assert(r[i] == k);
                } else {
                    assert(k == last);
                    assert(el);
                    assert(r[r.len() - 1] == k);
                }
            }
        }
    }
}

/// The refspec that deletes the remote branch behind a tracking name: an
/// empty source pushed to `refs/heads/{short name}`.
pub open spec fn deletion_refspec(name: Seq<char>, remote: Seq<char>) -> Seq<char> {
    "+:refs/heads/"@ + short_name(name, remote)
}

/// The refspecs that delete the given tracking branches on `remote_name`,
/// in order, for one batched push.
pub fn delete_branches_if_needed(branches: &Vec<String>, remote_name: &str) -> (r: Vec<String>)
    ensures
        r@.len() == branches@.len(),
        forall|i: int|
            0 <= i < branches@.len() ==> #[trigger] r@[i]@ == deletion_refspec(
                branches@[i]@,
                remote_name@,
            ),
{
    let mut out: Vec<String> = Vec::new();
    let mut i: usize = 0;
    while i < branches.len()
        invariant
            i <= branches@.len(),
            out@.len() == i,
            forall|j: int|
                0 <= j < i ==> #[trigger] out@[j]@ == deletion_refspec(branches@[j]@, remote_name@),
        decreases branches.len() - i,
    {
        let short = removing_remote_from_tracking_branch(branches[i].as_str(), remote_name);
        out.push(join("+:refs/heads/", short.as_str()));
        i = i + 1;
    }
    out
}

/// The branches at the given positions, in that order.
pub open spec fn branches_at(branches: Seq<BranchCandidate>, positions: Seq<usize>) -> Seq<
    BranchCandidate,
> {
    positions.map_values(|k: usize| branches[k as int])
}

/// Branch selection is idempotent: selecting again among the selected
/// branches keeps every one of them, in order.
pub proof fn lemma_branch_selection_idempotent(
    remote: Seq<char>,
    branches: Seq<BranchCandidate>,
    date: Timestamp,
    push_requests: Seq<PushRequest>,
    protected: Seq<ProtectedBranch>,
)
    requires
        branches.len() <= usize::MAX,
    ensures
        ({
            let r = eligible_positions(remote, branches, date, push_requests, protected);
            eligible_positions(remote, branches_at(branches, r), date, push_requests, protected)
                == Seq::new(r.len(), |i: int| i as usize)
        }),
    decreases branches.len(),
{
    let r = eligible_positions(remote, branches, date, push_requests, protected);
    let sub = branches_at(branches, r);
    if branches.len() == 0 {
        assert(sub.len() == 0);
        assert(Seq::new(r.len(), |i: int| i as usize) =~= Seq::<usize>::empty());
    } else {
        let rest = branches.drop_last();
        let p = eligible_positions(remote, rest, date, push_requests, protected);
        lemma_branch_selection_idempotent(remote, rest, date, push_requests, protected);
        lemma_eligible_positions_exact(remote, rest, date, push_requests, protected);
        let sub_p = branches_at(rest, p);
        assert(branches_at(branches, p) =~= sub_p) by {
            assert forall|i: int| 0 <= i < p.len() implies branches[p[i] as int] == rest[p[i] as int] by {
                assert(p[i] < rest.len());
            }
        }
        let last = (branches.len() - 1) as usize;
        assert(last as int == branches.len() - 1);
        if branch_eligible(remote, branches.last(), date, push_requests, protected) {
            assert(r == p.push(last));
            assert(sub =~= sub_p.push(branches.last()));
            assert(sub.drop_last() =~= sub_p);
            assert(Seq::new(r.len(), |i: int| i as usize) =~= Seq::new(p.len(), |i: int| i as usize).push(
                (sub.len() - 1) as usize,
            ));
        } else {
            assert(r == p);
            assert(sub =~= sub_p);
        }
    }
}

} // verus!
