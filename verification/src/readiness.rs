//! Which issues can be worked on, and which are held up by others.
//!
//! An issue is blocked while it has a `blocks` edge to an issue that is
//! neither closed nor a tombstone.  It is ready when it is open or in
//! progress, no template, not deferred beyond now, and not blocked.

use vstd::prelude::*;
use crate::model::{Dependency, DependencyData, DependencyType, Issue, IssueData, Status, texts};
use crate::text::text_eq;
use crate::time::Timestamp;

verus! {

/// The contents of a list of issues.
pub open spec fn issues_view(issues: Seq<Issue>) -> Seq<IssueData> {
    Seq::new(issues.len(), |i: int| issues[i]@)
}

/// The contents of a list of dependencies.
pub open spec fn dependencies_view(deps: Seq<Dependency>) -> Seq<DependencyData> {
    Seq::new(deps.len(), |i: int| deps[i]@)
}

/// Whether `issues` holds an issue with the id `id` that is neither closed
/// nor a tombstone.
pub open spec fn open_target(issues: Seq<IssueData>, id: Seq<char>) -> bool {
    exists|i: int| 0 <= i < issues.len() && (#[trigger] issues[i]).id == id && !issues[i].status.terminal()
}

/// Whether the edge holds its issue up: a `blocks` edge to an issue that is
/// neither closed nor a tombstone.
pub open spec fn blocking(issues: Seq<IssueData>, dep: DependencyData) -> bool {
    dep.dep_type == DependencyType::Blocks && open_target(issues, dep.depends_on_id)
}

/// Whether some edge holds the issue `id` up.
pub open spec fn is_blocked(issues: Seq<IssueData>, deps: Seq<DependencyData>, id: Seq<char>) -> bool {
    exists|k: int| 0 <= k < deps.len() && (#[trigger] deps[k]).issue_id == id && blocking(issues, deps[k])
}

/// Whether the issue is not deferred beyond `now`.
pub open spec fn due(issue: IssueData, now: Timestamp) -> bool {
    match issue.defer_until {
        Some(t) => t.at_or_before(now),
        None => true,
    }
}

/// Whether the issue can be worked on.
pub open spec fn is_ready(issues: Seq<IssueData>, deps: Seq<DependencyData>, issue: IssueData, now: Timestamp) -> bool {
    &&& issue.status == Status::Open || issue.status == Status::InProgress
    &&& !issue.is_template
    &&& due(issue, now)
    &&& !is_blocked(issues, deps, issue.id)
}

/// The ids of the issues that can be worked on, in the order of `issues`.
pub open spec fn ready_ids(issues: Seq<IssueData>, deps: Seq<DependencyData>, now: Timestamp) -> Seq<Seq<char>> {
    issues.filter(|i: IssueData| is_ready(issues, deps, i, now)).map_values(|i: IssueData| i.id)
}

/// The ids of the issues that hold `id` up, in the order of `deps`.
pub open spec fn blockers(issues: Seq<IssueData>, deps: Seq<DependencyData>, id: Seq<char>) -> Seq<Seq<char>> {
    deps.filter(|d: DependencyData| d.issue_id == id && blocking(issues, d)).map_values(
        |d: DependencyData| d.depends_on_id,
    )
}

/// Whether `issues` holds an issue with the id `id` that is neither closed nor
/// a tombstone.
pub fn has_open_issue(issues: &Vec<Issue>, id: &str) -> (r: bool)
    ensures
        r == open_target(issues_view(issues@), id@),
{
    let mut i: usize = 0;
    while i < issues.len()
        invariant
            i <= issues.len(),
            forall|j: int| 0 <= j < i ==> !((#[trigger] issues_view(issues@)[j]).id == id@
                && !issues_view(issues@)[j].status.terminal()),
        decreases issues.len() - i,
    {
        if text_eq(issues[i].id.as_str(), id) && !issues[i].status.is_terminal() {
            assert(issues_view(issues@)[i as int].id == id@);
            return true;
        }
        i = i + 1;
    }
    false
}

/// Whether the edge holds its issue up.
pub fn is_blocking(issues: &Vec<Issue>, dep: &Dependency) -> (r: bool)
    ensures
        r == blocking(issues_view(issues@), dep@),
{
    match dep.dep_type {
        DependencyType::Blocks => has_open_issue(issues, dep.depends_on_id.as_str()),
        _ => false,
    }
}

/// The ids of the issues that hold `id` up.
pub fn blocked_by(issues: &Vec<Issue>, deps: &Vec<Dependency>, id: &str) -> (r: Vec<String>)
    ensures
        texts(r@) == blockers(issues_view(issues@), dependencies_view(deps@), id@),
        (r@.len() > 0) == is_blocked(issues_view(issues@), dependencies_view(deps@), id@),
{
    let ghost all = dependencies_view(deps@);
    let ghost seen = issues_view(issues@);
    let ghost holds = |d: DependencyData| d.issue_id == id@ && blocking(seen, d);
    let ghost target = |d: DependencyData| d.depends_on_id;
    let mut out: Vec<String> = Vec::new();
    let mut k: usize = 0;
    proof {
        reveal(Seq::filter);
        assert(all.take(0).filter(holds) =~= Seq::empty());
        assert(texts(out@) =~= all.take(0).filter(holds).map_values(target));
    }
    while k < deps.len()
        invariant
            k <= deps.len(),
            all == dependencies_view(deps@),
            seen == issues_view(issues@),
            holds == (|d: DependencyData| d.issue_id == id@ && blocking(seen, d)),
            target == (|d: DependencyData| d.depends_on_id),
            texts(out@) == all.take(k as int).filter(holds).map_values(target),
            (out@.len() > 0) == (exists|j: int| 0 <= j < k && (#[trigger] all[j]).issue_id == id@ && blocking(seen, all[j])),
        decreases deps.len() - k,
    {
        let ghost before = out@;
        let ghost prefix = all.take(k as int);
        proof {
            assert(all.take(k + 1) =~= prefix.push(all[k as int]));
            prefix.lemma_filter_push(all[k as int], holds);
        }
        if text_eq(deps[k].issue_id.as_str(), id) && is_blocking(issues, &deps[k]) {
            out.push(deps[k].depends_on_id.clone());
            proof {
                assert(holds(all[k as int]));
                assert(texts(out@) =~= texts(before).push(all[k as int].depends_on_id));
                prefix.filter(holds).lemma_push_map_commute(target, all[k as int]);
            }
        } else {
            proof {
                assert(!holds(all[k as int]));
            }
        }
        k = k + 1;
    }
    proof {
        assert(all.take(k as int) =~= all);
    }
    out
}

/// Whether `issue` can be worked on at `now`.
pub fn issue_is_ready(issues: &Vec<Issue>, deps: &Vec<Dependency>, issue: &Issue, now: &Timestamp) -> (r: bool)
    ensures
        r == is_ready(issues_view(issues@), dependencies_view(deps@), issue@, *now),
{
    let active: bool = match issue.status {
        Status::Open | Status::InProgress => true,
        _ => false,
    };
    if !active || issue.is_template {
        return false;
    }
    let on_time: bool = match &issue.defer_until {
        Some(t) => t.is_at_or_before(now),
        None => true,
    };
    if !on_time {
        return false;
    }
    let held: Vec<String> = blocked_by(issues, deps, issue.id.as_str());
    held.len() == 0
}

/// The ids of the issues that can be worked on at `now`, in the order of
/// `issues`.
pub fn ready_issues(issues: &Vec<Issue>, deps: &Vec<Dependency>, now: &Timestamp) -> (r: Vec<String>)
    ensures
        texts(r@) == ready_ids(issues_view(issues@), dependencies_view(deps@), *now),
{
    let ghost all = issues_view(issues@);
    let ghost edges = dependencies_view(deps@);
    let ghost ready = |i: IssueData| is_ready(all, edges, i, *now);
    let ghost name = |i: IssueData| i.id;
    let mut out: Vec<String> = Vec::new();
    let mut k: usize = 0;
    proof {
        reveal(Seq::filter);
        assert(all.take(0).filter(ready) =~= Seq::empty());
        assert(texts(out@) =~= all.take(0).filter(ready).map_values(name));
    }
    while k < issues.len()
        invariant
            k <= issues.len(),
            all == issues_view(issues@),
            edges == dependencies_view(deps@),
            ready == (|i: IssueData| is_ready(all, edges, i, *now)),
            name == (|i: IssueData| i.id),
            texts(out@) == all.take(k as int).filter(ready).map_values(name),
        decreases issues.len() - k,
    {
        let ghost before = out@;
        let ghost prefix = all.take(k as int);
        proof {
            assert(all.take(k + 1) =~= prefix.push(all[k as int]));
            prefix.lemma_filter_push(all[k as int], ready);
        }
        if issue_is_ready(issues, deps, &issues[k], now) {
            out.push(issues[k].id.clone());
            proof {
                assert(ready(all[k as int]));
                assert(texts(out@) =~= texts(before).push(all[k as int].id));
                prefix.filter(ready).lemma_push_map_commute(name, all[k as int]);
            }
        } else {
            proof {
                assert(!ready(all[k as int]));
            }
        }
        k = k + 1;
    }
    proof {
        assert(all.take(k as int) =~= all);
    }
    out
}

/// A list cut down to a limit: the first `limit` items where the limit is
/// above 0, the whole list where it is 0 or there is none.
pub open spec fn limited<T>(list: Seq<T>, limit: Option<usize>) -> Seq<T> {
    match limit {
        Some(n) => if 0 < n < list.len() {
            list.take(n as int)
        } else {
            list
        },
        None => list,
    }
}

/// The issues of a listing that can be worked on at `now`, in the order of
/// the listing and no more than the limit allows.  `issues` and `deps` are
/// the issues and the dependencies of the workspace.
pub open spec fn ready_among(
    issues: Seq<IssueData>,
    deps: Seq<DependencyData>,
    listed: Seq<IssueData>,
    now: Timestamp,
    limit: Option<usize>,
) -> Seq<IssueData> {
    limited(listed.filter(|i: IssueData| is_ready(issues, deps, i, now)), limit)
}

/// Picks the issues of a listing that can be worked on at `now`.
pub fn ready_among_listed(
    issues: &Vec<Issue>,
    deps: &Vec<Dependency>,
    listed: &Vec<Issue>,
    now: &Timestamp,
    limit: Option<usize>,
) -> (r: Vec<Issue>)
    ensures
        issues_view(r@) == ready_among(
            issues_view(issues@),
            dependencies_view(deps@),
            issues_view(listed@),
            *now,
            limit,
        ),
{
    let ghost all = issues_view(issues@);
    let ghost edges = dependencies_view(deps@);
    let ghost shown = issues_view(listed@);
    let ghost ready = |i: IssueData| is_ready(all, edges, i, *now);
    let mut out: Vec<Issue> = Vec::new();
    let mut k: usize = 0;
    proof {
        reveal(Seq::filter);
        assert(shown.take(0).filter(ready) =~= Seq::empty());
        assert(issues_view(out@) =~= shown.take(0).filter(ready));
    }
    while k < listed.len()
        invariant
            k <= listed.len(),
            all == issues_view(issues@),
            edges == dependencies_view(deps@),
            shown == issues_view(listed@),
            ready == (|i: IssueData| is_ready(all, edges, i, *now)),
            issues_view(out@) == shown.take(k as int).filter(ready),
        decreases listed.len() - k,
    {
        let ghost before = out@;
        let ghost prefix = shown.take(k as int);
        proof {
            assert(shown.take(k + 1) =~= prefix.push(shown[k as int]));
            prefix.lemma_filter_push(shown[k as int], ready);
        }
        if issue_is_ready(issues, deps, &listed[k], now) {
            out.push(listed[k].copy());
            proof {
                assert(ready(shown[k as int]));
                assert(issues_view(out@) =~= issues_view(before).push(shown[k as int]));
            }
        } else {
            proof {
                assert(!ready(shown[k as int]));
            }
        }
        k = k + 1;
    }
    proof {
        assert(shown.take(k as int) =~= shown);
    }
    if let Some(n) = limit {
        if 0 < n && n < out.len() {
            let ghost whole = out@;
            out.truncate(n);
            proof {
                assert(issues_view(out@) =~= issues_view(whole).take(n as int));
            }
        }
    }
    out
}

/// An issue that is open or in progress is ready exactly where none of its
/// `blocks` edges leads to an issue that is neither closed nor a tombstone,
/// it is not put off beyond `now`, and it is no template.  An issue of any
/// other status is not ready.
pub proof fn readiness_of_an_issue(issues: Seq<IssueData>, deps: Seq<DependencyData>, issue: IssueData, now: Timestamp)
    ensures
        issue.status == Status::Open || issue.status == Status::InProgress ==> is_ready(issues, deps, issue, now) == (
        !is_blocked(issues, deps, issue.id) && due(issue, now) && !issue.is_template),
        !(issue.status == Status::Open || issue.status == Status::InProgress) ==> !is_ready(issues, deps, issue, now),
{
}

/// An issue that is ready is not blocked, and an issue that is blocked is not
/// ready.
pub proof fn ready_and_blocked_exclude_each_other(
    issues: Seq<IssueData>,
    deps: Seq<DependencyData>,
    issue: IssueData,
    now: Timestamp,
)
    ensures
        !(is_ready(issues, deps, issue, now) && is_blocked(issues, deps, issue.id)),
{
}

/// Closing the issues that hold an issue up releases it: an issue that is
/// open or in progress, no template and not deferred is ready as soon as none
/// of the issues it has a `blocks` edge to is open.
pub proof fn released_when_targets_close(
    issues: Seq<IssueData>,
    deps: Seq<DependencyData>,
    issue: IssueData,
    now: Timestamp,
)
    requires
        issue.status == Status::Open || issue.status == Status::InProgress,
        !issue.is_template,
        due(issue, now),
        forall|k: int| 0 <= k < deps.len() && (#[trigger] deps[k]).issue_id == issue.id && deps[k].dep_type
            == DependencyType::Blocks ==> !open_target(issues, deps[k].depends_on_id),
    ensures
        is_ready(issues, deps, issue, now),
{
}

/// An issue that is held up, with the issues that hold it up.
#[derive(Debug, Clone)]
pub struct BlockedIssue {
    pub id: String,
    pub blocked_by: Vec<String>,
}

/// Whether the issue is listed as blocked: it is neither closed nor a
/// tombstone, no template, and some edge holds it up.
pub open spec fn listed_as_blocked(issues: Seq<IssueData>, deps: Seq<DependencyData>, issue: IssueData) -> bool {
    !issue.status.terminal() && !issue.is_template && is_blocked(issues, deps, issue.id)
}

/// The blocked issues, each with the ids of the issues that hold it up, in
/// the order of `issues`.
pub open spec fn blocked_entries(issues: Seq<IssueData>, deps: Seq<DependencyData>) -> Seq<(Seq<char>, Seq<Seq<char>>)> {
    issues.filter(|i: IssueData| listed_as_blocked(issues, deps, i)).map_values(
        |i: IssueData| (i.id, blockers(issues, deps, i.id)),
    )
}

/// The contents of a list of blocked issues.
pub open spec fn blocked_view(list: Seq<BlockedIssue>) -> Seq<(Seq<char>, Seq<Seq<char>>)> {
    Seq::new(list.len(), |i: int| (list[i].id@, texts(list[i].blocked_by@)))
}

/// The issues that are held up, each with the issues that hold it up.
pub fn blocked_issues(issues: &Vec<Issue>, deps: &Vec<Dependency>) -> (r: Vec<BlockedIssue>)
    ensures
        blocked_view(r@) == blocked_entries(issues_view(issues@), dependencies_view(deps@)),
{
    let ghost all = issues_view(issues@);
    let ghost edges = dependencies_view(deps@);
    let ghost held = |i: IssueData| listed_as_blocked(all, edges, i);
    let ghost entry = |i: IssueData| (i.id, blockers(all, edges, i.id));
    let mut out: Vec<BlockedIssue> = Vec::new();
    let mut k: usize = 0;
    proof {
        reveal(Seq::filter);
        assert(all.take(0).filter(held) =~= Seq::empty());
        assert(blocked_view(out@) =~= all.take(0).filter(held).map_values(entry));
    }
    while k < issues.len()
        invariant
            k <= issues.len(),
            all == issues_view(issues@),
            edges == dependencies_view(deps@),
            held == (|i: IssueData| listed_as_blocked(all, edges, i)),
            entry == (|i: IssueData| (i.id, blockers(all, edges, i.id))),
            blocked_view(out@) == all.take(k as int).filter(held).map_values(entry),
        decreases issues.len() - k,
    {
        let ghost before = out@;
        let ghost prefix = all.take(k as int);
        proof {
            assert(all.take(k + 1) =~= prefix.push(all[k as int]));
            prefix.lemma_filter_push(all[k as int], held);
        }
        let mut listed: bool = false;
        if !issues[k].status.is_terminal() && !issues[k].is_template {
            let blocked_by: Vec<String> = blocked_by(issues, deps, issues[k].id.as_str());
            if blocked_by.len() > 0 {
                out.push(BlockedIssue { id: issues[k].id.clone(), blocked_by });
                listed = true;
                proof {
                    assert(held(all[k as int]));
                    assert(blocked_view(out@) =~= blocked_view(before).push(entry(all[k as int])));
                    prefix.filter(held).lemma_push_map_commute(entry, all[k as int]);
                }
            }
        }
        proof {
            if !listed {
                assert(!held(all[k as int]));
            }
        }
        k = k + 1;
    }
    proof {
        assert(all.take(k as int) =~= all);
    }
    out
}

/// An issue is listed as blocked exactly while some edge holds it up, as
/// long as it still lives and is no template; what holds it up is listed
/// with it.
pub proof fn blocked_list_is_the_complement_of_ready(
    issues: Seq<IssueData>,
    deps: Seq<DependencyData>,
    issue: IssueData,
    now: Timestamp,
)
    requires
        issue.status == Status::Open || issue.status == Status::InProgress,
        !issue.is_template,
        due(issue, now),
    ensures
        listed_as_blocked(issues, deps, issue) == !is_ready(issues, deps, issue, now),
{
}

} // verus!
