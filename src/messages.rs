//! What the operator is told before anything is deleted or closed.

use crate::report::ReportItem;
use crate::services::PushRequest;
use crate::text::join;
use crate::text::{decimal, i32_to_text, signed_decimal, usize_to_text};
use vstd::prelude::*;

verus! {

/// One line per branch: a bullet, the name, a line break.
pub open spec fn branch_lines(names: Seq<Seq<char>>) -> Seq<char>
    decreases names.len(),
{
    if names.len() == 0 {
        Seq::empty()
    } else {
        branch_lines(names.drop_last()) + "\u{2022} "@ + names.last() + "\n"@
    }
}

/// One line per push request: a bullet, `#id: title (url)`, a line break.
pub open spec fn push_request_lines(prs: Seq<PushRequest>) -> Seq<char>
    decreases prs.len(),
{
    if prs.len() == 0 {
        Seq::empty()
    } else {
        let pr = prs.last();
        push_request_lines(prs.drop_last()) + "\u{2022} #"@ + signed_decimal(pr.id as int) + ": "@
            + pr.title@ + " ("@ + pr.url@ + ")\n"@
    }
}

/// The summary of a branch selection: the counts, then the eligible
/// branches one per line, or a full stop when there are none.
pub open spec fn branches_summary(names: Seq<Seq<char>>, total: nat, remote: Seq<char>) -> Seq<
    char,
> {
    "Found "@ + decimal(names.len()) + " eligible branches out of "@ + decimal(total) + " total on "@
        + remote + if names.len() > 0 {
        ":\n"@ + branch_lines(names)
    } else {
        "."@
    }
}

/// The summary of a push request selection: the counts, then the eligible
/// push requests one per line.
pub open spec fn push_requests_summary(prs: Seq<PushRequest>, total: nat) -> Seq<char> {
    "Found "@ + decimal(prs.len()) + " eligible push requests out of "@ + decimal(total) + " total"@
        + if prs.len() > 0 {
        ":\n"@ + push_request_lines(prs)
    } else {
        Seq::empty()
    }
}

/// The summary of the branches about to be deleted on `remote_name` (given
/// by their tracking names), out of `all_branches_count` considered.
pub fn print_branches_to_delete(
    branches: &Vec<String>,
    all_branches_count: usize,
    remote_name: &str,
) -> (r: String)
    ensures
        r@ == branches_summary(
            branches@.map_values(|b: String| b@),
            all_branches_count as nat,
            remote_name@,
        ),
{
    let ghost names = branches@.map_values(|b: String| b@);
    let mut lines = String::new();
    let mut i: usize = 0;
    while i < branches.len()
        invariant
            i <= branches@.len(),
            names == branches@.map_values(|b: String| b@),
            lines@ == branch_lines(names.take(i as int)),
        decreases branches.len() - i,
    {
        assert(names.take(i + 1).drop_last() =~= names.take(i as int));
        lines.append("\u{2022} ");
        lines.append(branches[i].as_str());
        lines.append("\n");
        i = i + 1;
    }
    assert(names.take(i as int) =~= names);
    let mut out = String::from_str("Found ");
    out.append(usize_to_text(branches.len()).as_str());
    out.append(" eligible branches out of ");
    out.append(usize_to_text(all_branches_count).as_str());
    out.append(" total on ");
    out.append(remote_name);
    if branches.len() > 0 {
        out.append(":\n");
        out.append(lines.as_str());
    } else {
        out.append(".");
    }
    out
}

/// The summary of the push requests about to be closed, out of
/// `all_push_requests_count` considered.
pub fn print_push_requests_to_close(
    push_requests: &Vec<PushRequest>,
    all_push_requests_count: usize,
) -> (r: String)
    ensures
        r@ == push_requests_summary(push_requests@, all_push_requests_count as nat),
{
    let mut lines = String::new();
    let mut i: usize = 0;
    while i < push_requests.len()
        invariant
            i <= push_requests@.len(),
            lines@ == push_request_lines(push_requests@.take(i as int)),
        decreases push_requests.len() - i,
    {
        assert(push_requests@.take(i + 1).drop_last() =~= push_requests@.take(i as int));
        let pr = &push_requests[i];
        lines.append("\u{2022} #");
        lines.append(i32_to_text(pr.id).as_str());
        lines.append(": ");
        lines.append(pr.title.as_str());
        lines.append(" (");
        lines.append(pr.url.as_str());
        lines.append(")\n");
        i = i + 1;
    }
    assert(push_requests@.take(i as int) =~= push_requests@);
    let mut out = String::from_str("Found ");
    out.append(usize_to_text(push_requests.len()).as_str());
    out.append(" eligible push requests out of ");
    out.append(usize_to_text(all_push_requests_count).as_str());
    out.append(" total");
    if push_requests.len() > 0 {
        out.append(":\n");
        out.append(lines.as_str());
    }
    out
}

/// The warning shown when nothing will be deleted or closed.
pub fn print_dry_run_warning() -> (r: &'static str)
    ensures
        r@ == "Foxdie is being run in dry run mode, which is the default. If this is undesirable, run again with the `--delete` flag."@,
{
    "Foxdie is being run in dry run mode, which is the default. If this is undesirable, run again with the `--delete` flag."
}

/// The heading of a remote's report: its name and URL over a rule.
pub open spec fn report_heading(remote_name: Seq<char>, remote_url: Seq<char>) -> Seq<char> {
    "Report for "@ + remote_name + " ("@ + remote_url + ")\n================================="@
}

/// A report line per entry: the author, a dash, the branch.
pub open spec fn report_line(item: ReportItem) -> Seq<char> {
    item.author@ + " \u{2013} "@ + item.branch@
}

/// The lines that present a remote's report: the heading, then one line
/// per entry in order.
pub fn print_report(remote_name: &str, remote_url: &str, items: &Vec<ReportItem>) -> (r: Vec<
    String,
>)
    ensures
        r@.len() == items@.len() + 1,
        r@[0]@ == report_heading(remote_name@, remote_url@),
        forall|i: int| 0 <= i < items@.len() ==> #[trigger] r@[i + 1]@ == report_line(items@[i]),
{
    let mut heading = join("Report for ", remote_name);
    heading.append(" (");
    heading.append(remote_url);
    heading.append(")\n=================================");
    let mut out: Vec<String> = Vec::new();
    out.push(heading);
    let mut i: usize = 0;
    while i < items.len()
        invariant
            i <= items@.len(),
            out@.len() == i + 1,
            out@[0]@ == report_heading(remote_name@, remote_url@),
            forall|j: int| 0 <= j < i ==> #[trigger] out@[j + 1]@ == report_line(items@[j]),
        decreases items.len() - i,
    {
        let mut line = join(items[i].author.as_str(), " \u{2013} ");
        line.append(items[i].branch.as_str());
        out.push(line);
        i = i + 1;
    }
    out
}

} // verus!
