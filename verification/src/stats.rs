//! Counts over the issues of a workspace.

use vstd::prelude::*;
use crate::model::{Dependency, DependencyData, Issue, IssueData, IssueType, Priority, Status};
use crate::readiness::{
    blocked_entries, blocked_issues, dependencies_view, issues_view, ready_ids, ready_issues,
};
use crate::time::{Timestamp, timestamp_parts_are_bounded};

verus! {

/// What is counted.
#[derive(Clone, Copy, Debug, PartialEq, Eq, Structural)]
pub enum Selector {
    /// Every issue.
    All,
    /// The issues of a status.
    OfStatus(Status),
    /// The issues of a type.
    OfType(IssueType),
    /// The issues of a priority.
    OfPriority(Priority),
    /// The issues that are neither closed nor tombstones and were due before
    /// the given time.
    Overdue(Timestamp),
    /// The issues that are neither closed nor tombstones.
    Unfinished,
    /// The issues whose deletion fields do not fit their status.
    Inconsistent,
}

/// Whether the selector counts the issue.
pub open spec fn selects(selector: Selector, issue: IssueData) -> bool {
    match selector {
        Selector::All => true,
        Selector::OfStatus(status) => issue.status == status,
        Selector::OfType(issue_type) => issue.issue_type == issue_type,
        Selector::OfPriority(priority) => issue.priority == priority,
        Selector::Overdue(now) => !issue.status.terminal() && (issue.due_at matches Some(due) && !now.at_or_before(
            due,
        )),
        Selector::Unfinished => !issue.status.terminal(),
        Selector::Inconsistent => !issue.tombstone_consistent(),
    }
}

/// The number of issues that the selector counts.
pub open spec fn count_of(issues: Seq<IssueData>, selector: Selector) -> nat {
    issues.filter(|i: IssueData| selects(selector, i)).len()
}

/// Whether the selector counts the issue.
pub fn is_selected(selector: Selector, issue: &Issue) -> (r: bool)
    ensures
        r == selects(selector, issue@),
{
    match selector {
        Selector::All => true,
        Selector::OfStatus(status) => issue.status == status,
        Selector::OfType(issue_type) => issue.issue_type == issue_type,
        Selector::OfPriority(priority) => issue.priority == priority,
        Selector::Overdue(now) => {
            if issue.status.is_terminal() {
                false
            } else {
                match &issue.due_at {
                    Some(due) => !now.is_at_or_before(due),
                    None => false,
                }
            }
        },
        Selector::Unfinished => !issue.status.is_terminal(),
        Selector::Inconsistent => !issue.is_tombstone_consistent(),
    }
}

/// Counts the issues that the selector counts.
pub fn count_selected(issues: &Vec<Issue>, selector: Selector) -> (r: usize)
    ensures
        r == count_of(issues_view(issues@), selector),
{
    let ghost all = issues_view(issues@);
    let ghost counted = |i: IssueData| selects(selector, i);
    let mut count: usize = 0;
    let mut k: usize = 0;
    proof {
        reveal(Seq::filter);
        assert(all.take(0).filter(counted) =~= Seq::empty());
    }
    while k < issues.len()
        invariant
            k <= issues.len(),
            all == issues_view(issues@),
            counted == (|i: IssueData| selects(selector, i)),
            count == all.take(k as int).filter(counted).len(),
            count <= k,
        decreases issues.len() - k,
    {
        proof {
            assert(all.take(k + 1) =~= all.take(k as int).push(all[k as int]));
            all.take(k as int).lemma_filter_push(all[k as int], counted);
        }
        if is_selected(selector, &issues[k]) {
            count = count + 1;
        }
        k = k + 1;
    }
    proof {
        assert(all.take(k as int) =~= all);
    }
    count
}

/// The whole seconds for which an unfinished issue has existed at `now`: 0
/// for one that is closed or deleted, or that was created later.
pub open spec fn age(issue: IssueData, now: Timestamp) -> nat {
    if !issue.status.terminal() && now.seconds() >= issue.created_at.seconds() {
        (now.seconds() - issue.created_at.seconds()) as nat
    } else {
        0
    }
}

/// The ages of the issues, added up.
pub open spec fn total_age(issues: Seq<IssueData>, now: Timestamp) -> nat
    decreases issues.len(),
{
    if issues.len() == 0 {
        0
    } else {
        total_age(issues.drop_last(), now) + age(issues.last(), now)
    }
}

/// The mean age of the unfinished issues in whole seconds, rounded down; 0
/// where every issue is finished.
pub open spec fn average_age(issues: Seq<IssueData>, now: Timestamp) -> nat {
    let unfinished = count_of(issues, Selector::Unfinished);
    if unfinished == 0 {
        0
    } else {
        total_age(issues, now) / unfinished
    }
}

/// The whole seconds for which an unfinished issue has existed at `now`.
pub fn age_of(issue: &Issue, now: &Timestamp) -> (r: u64)
    ensures
        r == age(issue@, *now),
{
    let then: i64 = issue.created_at.unix_seconds();
    let at: i64 = now.unix_seconds();
    if !issue.status.is_terminal() && at >= then {
        (at as i128 - then as i128) as u64
    } else {
        0
    }
}

/// The mean age of the unfinished issues at `now`.
pub fn average_age_of(issues: &Vec<Issue>, now: &Timestamp) -> (r: u64)
    ensures
        r == average_age(issues_view(issues@), *now),
{
    let ghost all = issues_view(issues@);
    let unfinished: usize = count_selected(issues, Selector::Unfinished);
    let mut total: u128 = 0;
    let mut k: usize = 0;
    assert(all.take(0) =~= Seq::empty());
    while k < issues.len()
        invariant
            k <= issues.len(),
            all == issues_view(issues@),
            total == total_age(all.take(k as int), *now),
            total <= k * 0xffff_ffff_ffff_ffff,
        decreases issues.len() - k,
    {
        let one: u64 = age_of(&issues[k], now);
        proof {
            assert(all.take(k + 1).drop_last() =~= all.take(k as int));
            assert(all.take(k + 1).last() == issues@[k as int]@);
            assert(k * 0xffff_ffff_ffff_ffff + 0xffff_ffff_ffff_ffff == (k + 1) * 0xffff_ffff_ffff_ffff)
                by (nonlinear_arith);
            assert((k + 1) * 0xffff_ffff_ffff_ffff <= 0xffff_ffff_ffff_ffff * 0xffff_ffff_ffff_ffff)
                by (nonlinear_arith)
                requires
                    k + 1 <= 0xffff_ffff_ffff_ffff,
            ;
        }
        total = total + one as u128;
        k = k + 1;
    }
    proof {
        assert(all.take(k as int) =~= all);
    }
    if unfinished == 0 {
        0
    } else {
        let mean: u128 = total / (unfinished as u128);
        proof {
            total_age_is_bounded(all, *now);
            assert(mean <= 0xffff_ffff_ffff_ffff) by (nonlinear_arith)
                requires
                    mean == total / (unfinished as u128),
                    unfinished > 0,
                    total <= unfinished * 0xffff_ffff_ffff_ffff,
            ;
        }
        mean as u64
    }
}

/// No issue is older than the clock can tell, so the ages add up to no more
/// than that for each unfinished issue.
pub proof fn total_age_is_bounded(issues: Seq<IssueData>, now: Timestamp)
    ensures
        total_age(issues, now) <= count_of(issues, Selector::Unfinished) * 0xffff_ffff_ffff_ffff,
    decreases issues.len(),
{
    reveal(Seq::filter);
    let counted = |i: IssueData| selects(Selector::Unfinished, i);
    if issues.len() == 0 {
        assert(issues.filter(counted) =~= Seq::empty());
    } else {
        let rest = issues.drop_last();
        total_age_is_bounded(rest, now);
        rest.lemma_filter_push(issues.last(), counted);
        assert(rest.push(issues.last()) =~= issues);
        timestamp_parts_are_bounded(now);
        timestamp_parts_are_bounded(issues.last().created_at);
        let n = count_of(rest, Selector::Unfinished);
        assert(n * 0xffff_ffff_ffff_ffff + 0xffff_ffff_ffff_ffff == (n + 1) * 0xffff_ffff_ffff_ffff)
            by (nonlinear_arith);
    }
}

/// The counts of a workspace.
#[derive(Clone, Copy, Debug, PartialEq, Eq, Structural)]
pub struct Stats {
    pub total: usize,
    pub open: usize,
    pub in_progress: usize,
    pub blocked_status: usize,
    pub closed: usize,
    pub tombstones: usize,
    pub tasks: usize,
    pub bugs: usize,
    pub features: usize,
    pub epics: usize,
    pub chores: usize,
    pub spikes: usize,
    pub docs: usize,
    pub tests: usize,
    pub others: usize,
    pub critical: usize,
    pub high: usize,
    pub medium: usize,
    pub low: usize,
    pub backlog: usize,
    /// The issues that can be worked on.
    pub ready: usize,
    /// The issues that are held up by others.
    pub blocked: usize,
    pub overdue: usize,
    /// The mean age of the unfinished issues, in whole seconds.
    pub average_age: u64,
}

/// The counts of the issues and dependencies at `now`.
pub open spec fn stats_of(issues: Seq<IssueData>, deps: Seq<DependencyData>, now: Timestamp) -> Stats {
    Stats {
        total: count_of(issues, Selector::All) as usize,
        open: count_of(issues, Selector::OfStatus(Status::Open)) as usize,
        in_progress: count_of(issues, Selector::OfStatus(Status::InProgress)) as usize,
        blocked_status: count_of(issues, Selector::OfStatus(Status::Blocked)) as usize,
        closed: count_of(issues, Selector::OfStatus(Status::Closed)) as usize,
        tombstones: count_of(issues, Selector::OfStatus(Status::Tombstone)) as usize,
        tasks: count_of(issues, Selector::OfType(IssueType::Task)) as usize,
        bugs: count_of(issues, Selector::OfType(IssueType::Bug)) as usize,
        features: count_of(issues, Selector::OfType(IssueType::Feature)) as usize,
        epics: count_of(issues, Selector::OfType(IssueType::Epic)) as usize,
        chores: count_of(issues, Selector::OfType(IssueType::Chore)) as usize,
        spikes: count_of(issues, Selector::OfType(IssueType::Spike)) as usize,
        docs: count_of(issues, Selector::OfType(IssueType::Doc)) as usize,
        tests: count_of(issues, Selector::OfType(IssueType::Test)) as usize,
        others: count_of(issues, Selector::OfType(IssueType::Other)) as usize,
        critical: count_of(issues, Selector::OfPriority(Priority(0))) as usize,
        high: count_of(issues, Selector::OfPriority(Priority(1))) as usize,
        medium: count_of(issues, Selector::OfPriority(Priority(2))) as usize,
        low: count_of(issues, Selector::OfPriority(Priority(3))) as usize,
        backlog: count_of(issues, Selector::OfPriority(Priority(4))) as usize,
        ready: ready_ids(issues, deps, now).len() as usize,
        blocked: blocked_entries(issues, deps).len() as usize,
        overdue: count_of(issues, Selector::Overdue(now)) as usize,
        average_age: average_age(issues, now) as u64,
    }
}

/// Counts the issues by status, type and priority, and those that are ready,
/// blocked and overdue at `now`, and takes the mean age of the unfinished ones.
pub fn stats(issues: &Vec<Issue>, deps: &Vec<Dependency>, now: &Timestamp) -> (r: Stats)
    ensures
        r == stats_of(issues_view(issues@), dependencies_view(deps@), *now),
{
    let ready: Vec<String> = ready_issues(issues, deps, now);
    let blocked = blocked_issues(issues, deps);
    proof {
        assert(crate::model::texts(ready@).len() == ready@.len());
        assert(crate::readiness::blocked_view(blocked@).len() == blocked@.len());
    }
    Stats {
        total: count_selected(issues, Selector::All),
        open: count_selected(issues, Selector::OfStatus(Status::Open)),
        in_progress: count_selected(issues, Selector::OfStatus(Status::InProgress)),
        blocked_status: count_selected(issues, Selector::OfStatus(Status::Blocked)),
        closed: count_selected(issues, Selector::OfStatus(Status::Closed)),
        tombstones: count_selected(issues, Selector::OfStatus(Status::Tombstone)),
        tasks: count_selected(issues, Selector::OfType(IssueType::Task)),
        bugs: count_selected(issues, Selector::OfType(IssueType::Bug)),
        features: count_selected(issues, Selector::OfType(IssueType::Feature)),
        epics: count_selected(issues, Selector::OfType(IssueType::Epic)),
        chores: count_selected(issues, Selector::OfType(IssueType::Chore)),
        spikes: count_selected(issues, Selector::OfType(IssueType::Spike)),
        docs: count_selected(issues, Selector::OfType(IssueType::Doc)),
        tests: count_selected(issues, Selector::OfType(IssueType::Test)),
        others: count_selected(issues, Selector::OfType(IssueType::Other)),
        critical: count_selected(issues, Selector::OfPriority(Priority(0))),
        high: count_selected(issues, Selector::OfPriority(Priority(1))),
        medium: count_selected(issues, Selector::OfPriority(Priority(2))),
        low: count_selected(issues, Selector::OfPriority(Priority(3))),
        backlog: count_selected(issues, Selector::OfPriority(Priority(4))),
        ready: ready.len(),
        blocked: blocked.len(),
        overdue: count_selected(issues, Selector::Overdue(*now)),
        average_age: average_age_of(issues, now),
    }
}

} // verus!
