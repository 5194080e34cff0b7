//! Closing, reopening and deleting issues, taking labels off and adding
//! comments, and the ids of the store: the next one to give, and the one
//! that an input stands for.

use vstd::prelude::*;
use crate::error::BeadsError;
use crate::graph::{DeletePlan, Edge, plan_delete, planned};
use crate::ids::{
    MatchType, candidate, generate_id, normalized, resolution, resolve_one, valid_prefix,
    validate_prefix, width_for,
};
use crate::model::{EventData, EventType, Issue, IssueData, IssueType, Status, texts};
use crate::storage::context::MutationContext;
use crate::storage::driver::connection_of;
use crate::storage::effects::{
    comment_added, issue_closed, issue_deleted, issue_reopened, label_removed, marked, marked_all,
    recorded, untouched,
};
use crate::storage::rows::{decoded_edges, edge_rows_ok, edges_from_rows, read_texts, rows_view};
use crate::storage::sql::{SqlStatement, SqlValue};
use crate::storage::sqlite::{
    SqliteStorage, check_new_issue, create_in, fetch_all, labelling, load_issue, run_statement,
    settled_as, unfit_to_create,
};
use crate::storage::statements::{
    DELETE_LABEL, SELECT_IDS, SELECT_LIVING_EDGES, close_issue_statement, insert_comment, paired, plain,
    reopen_issue_statement, select_ids_of_prefix, tombstone_issue, tombstone_living,
};
use crate::text::text_eq;
use crate::time::Timestamp;

verus! {

/// An issue can be closed unless it is a tombstone; closing a tombstone is
/// `InvalidTransition`.
pub fn check_close(status: Status) -> (r: Result<(), BeadsError>)
    ensures
        status == Status::Tombstone ==> (r matches Err(BeadsError::InvalidTransition { from, to }) && from@
            == Status::Tombstone.text() && to@ == Status::Closed.text()),
        status != Status::Tombstone ==> r is Ok,
{
    match status {
        Status::Tombstone => Err(
            BeadsError::InvalidTransition {
                from: Status::Tombstone.as_str().to_owned(),
                to: Status::Closed.as_str().to_owned(),
            },
        ),
        _ => Ok(()),
    }
}

/// Only a closed issue can be reopened; anything else is `NotClosed`.
pub fn check_reopen(id: &str, status: Status) -> (r: Result<(), BeadsError>)
    ensures
        status == Status::Closed ==> r is Ok,
        status != Status::Closed ==> (r matches Err(BeadsError::NotClosed { id: named }) && named@ == id@),
{
    match status {
        Status::Closed => Ok(()),
        _ => Err(BeadsError::NotClosed { id: id.to_owned() }),
    }
}

/// What the planning of a deletion may come to, whatever edges the
/// database holds: a plan is the one that [`planned`] describes for some
/// edges; an issue that does not exist is `IssueNotFound`; one that others
/// depend on, where the deletion is neither to cascade nor forced, is
/// `HasDependents`; and nothing else fails but the database.
pub open spec fn planning(id: Seq<char>, cascade: bool, force: bool, r: Result<DeletePlan, BeadsError>) -> bool {
    &&& r is Ok ==> exists|edges: Seq<(Seq<char>, Seq<char>)>| #[trigger] planned(edges, id, cascade, force, r)
    &&& r matches Err(e) ==> {
        ||| e.from_storage()
        ||| e.misses(id)
        ||| e matches BeadsError::HasDependents { id: named, count } && named@ == id && count >= 1 && !cascade && !force
    }
}

/// The deletion plan for `id`, by the edges that the database answered
/// with: as [`plan_delete`] makes it.  Edges that cannot be read are
/// `SchemaError`.
pub fn plan_from_rows(id: &str, edge_rows: &Vec<Vec<SqlValue>>, cascade: bool, force: bool) -> (r: Result<DeletePlan, BeadsError>)
    ensures
        if edge_rows_ok(rows_view(edge_rows@)) {
            planned(decoded_edges(rows_view(edge_rows@)), id@, cascade, force, r)
        } else {
            r matches Err(BeadsError::SchemaError { .. })
        },
        planning(id@, cascade, force, r),
{
    let edges: Vec<Edge> = edges_from_rows(edge_rows)?;
    plan_delete(id, &edges, cascade, force)
}

/// Reads the deletion plan for `id` through `conn`.  An issue that does not
/// exist is `IssueNotFound`; one that others depend on, where the deletion is
/// neither to cascade nor forced, is `HasDependents`.
pub fn load_delete_plan(conn: &rusqlite::Connection, id: &str, cascade: bool, force: bool) -> (r: Result<DeletePlan, BeadsError>)
    ensures
        planning(id@, cascade, force, r),
{
    let _ = load_issue(conn, id)?;
    let rows: Vec<Vec<SqlValue>> = fetch_all(conn, &plain(SELECT_LIVING_EDGES))?;
    plan_from_rows(id, &rows, cascade, force)
}

/// Whether an issue is the tombstone that a deletion by `actor` for `reason`
/// at the time `at` leaves of an issue of the type `issue_type` that was
/// created at `created`.
pub open spec fn tombstone_of(
    issue: IssueData,
    actor: Seq<char>,
    reason: Seq<char>,
    issue_type: IssueType,
    at: Timestamp,
    created: Timestamp,
) -> bool {
    &&& issue.status == Status::Tombstone
    &&& issue.deleted_at == Some(at)
    &&& issue.updated_at == at
    &&& issue.created_at == created
    &&& issue.deleted_by == Some(actor)
    &&& issue.delete_reason == Some(reason)
    &&& issue.original_type == Some(issue_type.text())
}

/// Hands an issue on that was read back after its deletion, where it is the
/// tombstone that the deletion was to leave; an issue that was read back
/// otherwise is `Internal`.
pub fn deleted_as(
    issue: Issue,
    actor: &str,
    reason: &str,
    issue_type: IssueType,
    at: &Timestamp,
    created: &Timestamp,
) -> (r: Result<Issue, BeadsError>)
    ensures
        if tombstone_of(issue@, actor@, reason@, issue_type, *at, *created) {
            r == Ok::<Issue, BeadsError>(issue)
        } else {
            r matches Err(BeadsError::Internal { .. })
        },
{
    let by: bool = match &issue.deleted_by {
        Some(who) => text_eq(who.as_str(), actor),
        None => false,
    };
    let why: bool = match &issue.delete_reason {
        Some(text) => text_eq(text.as_str(), reason),
        None => false,
    };
    let was: bool = match &issue.original_type {
        Some(text) => text_eq(text.as_str(), issue_type.as_str()),
        None => false,
    };
    let when: bool = match issue.deleted_at {
        Some(deleted) => deleted == *at,
        None => false,
    };
    if issue.status == Status::Tombstone && when && issue.updated_at == *at && issue.created_at == *created
        && by && why && was {
        Ok(issue)
    } else {
        Err(BeadsError::Internal { message: "the database holds the issue otherwise than it was deleted".to_owned() })
    }
}

/// What a deletion may come to: the issue that is handed back is the issue
/// `id` as a tombstone, deleted by the actor for the reason at the time of
/// its last update, with its type kept; an issue that does not exist is
/// `IssueNotFound`; one that others depend on is `HasDependents`; and
/// nothing else fails but the database.
pub open spec fn deletion(id: Seq<char>, actor: Seq<char>, reason: Seq<char>, r: Result<Issue, BeadsError>) -> bool {
    &&& r matches Ok(issue) ==> {
        &&& issue@.bare()
        &&& issue@.id == id
        &&& issue@.tombstone_consistent()
        &&& exists|issue_type: IssueType|
            #[trigger] tombstone_of(issue@, actor, reason, issue_type, issue@.updated_at, issue@.created_at)
    }
    &&& r matches Err(e) ==> {
        ||| e.from_storage()
        ||| e.misses(id)
        ||| e matches BeadsError::HasDependents { id: named, count } && named@ == id && count >= 1
    }
}

/// What deleting an issue does inside its transaction: unless others depend
/// on it, see [`plan_from_rows`], the issue becomes a tombstone that keeps
/// its type, and a `deleted` event, the dirty mark and the request to empty
/// the cache of blocked issues are gathered.  The result is the issue as
/// the database holds it afterwards, see [`deleted_as`]: updated and
/// deleted at the time of the mutation, which is the time of the event.
pub fn delete_in(conn: &rusqlite::Connection, ctx: &mut MutationContext, id: &str, reason: &str) -> (r: Result<Issue, BeadsError>)
    ensures
        r matches Ok(issue) ==> {
            &&& recorded(*old(ctx), *final(ctx), EventType::Deleted, id@, "Deleted issue: "@ + reason@)
            &&& final(ctx).dirty() == marked(old(ctx).dirty(), id@)
            &&& final(ctx).invalidate_blocked_cache
            &&& issue@.updated_at == old(ctx).started_at
            &&& issue@.deleted_at == Some(old(ctx).started_at)
        },
        deletion(id@, old(ctx).actor@, reason@, r),
{
    let issue: Issue = load_issue(conn, id)?;
    let edge_rows: Vec<Vec<SqlValue>> = fetch_all(conn, &plain(SELECT_LIVING_EDGES))?;
    let _ = plan_from_rows(id, &edge_rows, false, false)?;
    let statement: SqlStatement = tombstone_issue(
        id,
        ctx.actor.as_str(),
        reason,
        issue.issue_type.as_str(),
        &ctx.started_at,
    );
    let _ = run_statement(conn, &statement)?;
    let actor: String = ctx.actor.clone();
    let at: Timestamp = ctx.started_at;
    issue_deleted(ctx, id, reason);
    let after: Issue = load_issue(conn, id)?;
    let after: Issue = deleted_as(after, actor.as_str(), reason, issue.issue_type, &at, &issue.created_at)?;
    proof {
        assert(tombstone_of(after@, actor@, reason@, issue.issue_type, after@.updated_at, after@.created_at));
    }
    Ok(after)
}

/// The event that records the closing of the issue `id` in `ctx`.
pub open spec fn closing_event(ctx: MutationContext, id: Seq<char>, reason: Option<Seq<char>>) -> EventData {
    EventData {
        id: 0,
        issue_id: id,
        event_type: EventType::Closed,
        actor: ctx.actor@,
        old_value: None,
        new_value: None,
        comment: reason,
        created_at: ctx.started_at,
    }
}

/// What a closing may come to: the issue that is handed back is the issue
/// `id`, closed at the time of its last update; an issue that does not exist is `IssueNotFound`, a
/// tombstone is `InvalidTransition`; and nothing else fails but the
/// database.
pub open spec fn closing(id: Seq<char>, r: Result<Issue, BeadsError>) -> bool {
    &&& r matches Ok(issue) ==> {
        &&& issue@.bare()
        &&& issue@.id == id
        &&& issue@.status == Status::Closed
        &&& issue@.tombstone_consistent()
        &&& issue@.closed_at == Some(issue@.updated_at)
    }
    &&& r matches Err(e) ==> {
        ||| e.from_storage()
        ||| e.misses(id)
        ||| e matches BeadsError::InvalidTransition { from, to } && from@ == Status::Tombstone.text() && to@
            == Status::Closed.text()
    }
}

/// What closing an issue does inside its transaction: the status becomes
/// `closed` and the time of closing the time of the mutation, and a `closed`
/// event with the reason, the dirty mark and the request to empty the cache
/// of blocked issues are gathered.  The result is the issue as the database
/// holds it afterwards, see [`settled_as`]: updated at the time of the
/// mutation, which is the time of the event.
pub fn close_in(conn: &rusqlite::Connection, ctx: &mut MutationContext, id: &str, reason: Option<&str>) -> (r: Result<Issue, BeadsError>)
    ensures
        r matches Ok(closed) ==> closed@.updated_at == old(ctx).started_at,
        r is Ok ==> {
            &&& final(ctx).journal() == old(ctx).journal().push(
                closing_event(
                    *old(ctx),
                    id@,
                    match reason {
                        Some(s) => Some(s@),
                        None => None,
                    },
                ),
            )
            &&& final(ctx).dirty() == marked(old(ctx).dirty(), id@)
            &&& final(ctx).invalidate_blocked_cache
        },
        closing(id@, r),
{
    let issue: Issue = load_issue(conn, id)?;
    check_close(issue.status)?;
    let _ = run_statement(conn, &close_issue_statement(id, reason, &ctx.started_at))?;
    let at: Timestamp = ctx.started_at;
    issue_closed(ctx, id, reason);
    let after: Issue = load_issue(conn, id)?;
    settled_as(after, Status::Closed, &at, &issue.created_at)
}

/// What a reopening may come to: the issue that is handed back is the issue
/// `id`, open and without a time of closing; an issue that does not exist is `IssueNotFound`, one that is
/// not closed is `NotClosed`; and nothing else fails but the database.
pub open spec fn reopening(id: Seq<char>, r: Result<Issue, BeadsError>) -> bool {
    &&& r matches Ok(issue) ==> {
        &&& issue@.bare()
        &&& issue@.id == id
        &&& issue@.status == Status::Open
        &&& issue@.tombstone_consistent()
        &&& issue@.closed_at is None
    }
    &&& r matches Err(e) ==> {
        ||| e.from_storage()
        ||| e.misses(id)
        ||| e matches BeadsError::NotClosed { id: named } && named@ == id
    }
}

/// What reopening an issue does inside its transaction: a closed issue is
/// open again and the time of closing is cleared, and a `reopened` event,
/// the dirty mark and the request to empty the cache of blocked issues are
/// gathered.  The result is the issue as the database holds it afterwards,
/// see [`settled_as`].
pub fn reopen_in(conn: &rusqlite::Connection, ctx: &mut MutationContext, id: &str) -> (r: Result<Issue, BeadsError>)
    ensures
        r matches Ok(open) ==> open@.updated_at == old(ctx).started_at,
        r is Ok ==> {
            &&& recorded(*old(ctx), *final(ctx), EventType::Reopened, id@, "Reopened issue"@)
            &&& final(ctx).dirty() == marked(old(ctx).dirty(), id@)
            &&& final(ctx).invalidate_blocked_cache
        },
        reopening(id@, r),
{
    let issue: Issue = load_issue(conn, id)?;
    check_reopen(id, issue.status)?;
    let _ = run_statement(conn, &reopen_issue_statement(id, &ctx.started_at))?;
    let at: Timestamp = ctx.started_at;
    issue_reopened(ctx, id);
    let after: Issue = load_issue(conn, id)?;
    settled_as(after, Status::Open, &at, &issue.created_at)
}

/// What a deletion with regard to dependents does inside its transaction:
/// every issue of the plan becomes a tombstone, with a `deleted` event and a
/// dirty mark each, in the order of the plan, and the request to empty the
/// cache of blocked issues is gathered.  The plan is the one that
/// [`planned`] describes for some edges.
pub fn delete_planned_in(
    conn: &rusqlite::Connection,
    ctx: &mut MutationContext,
    id: &str,
    reason: &str,
    cascade: bool,
    force: bool,
) -> (r: Result<DeletePlan, BeadsError>)
    ensures
        r matches Ok(plan) ==> {
            &&& final(ctx).journal().len() == old(ctx).journal().len() + plan.deleted@.len()
            &&& forall|k: int|
                0 <= k < plan.deleted@.len() ==> (#[trigger] final(ctx).journal()[old(ctx).journal().len() + k]).event_type
                    == EventType::Deleted && final(ctx).journal()[old(ctx).journal().len() + k].issue_id
                    == plan.deleted@[k]@
            &&& final(ctx).dirty() == marked_all(old(ctx).dirty(), texts(plan.deleted@))
            &&& final(ctx).invalidate_blocked_cache
        },
        planning(id@, cascade, force, r),
{
    let plan: DeletePlan = load_delete_plan(conn, id, cascade, force)?;
    let ghost start = ctx.journal().len();
    let ghost doomed = texts(plan.deleted@);
    let mut i: usize = 0;
    proof {
        assert(doomed.take(0) =~= Seq::empty());
    }
    while i < plan.deleted.len()
        invariant
            i <= plan.deleted@.len(),
            plan.deleted@.len() >= 1,
            doomed == texts(plan.deleted@),
            ctx.dirty() == marked_all(old(ctx).dirty(), doomed.take(i as int)),
            start == old(ctx).journal().len(),
            ctx.journal().len() == start + i,
            forall|k: int|
                0 <= k < i ==> (#[trigger] ctx.journal()[start + k]).event_type == EventType::Deleted
                    && ctx.journal()[start + k].issue_id == plan.deleted@[k]@,
            i > 0 ==> ctx.invalidate_blocked_cache,
        decreases plan.deleted@.len() - i,
    {
        let gone: &str = plan.deleted[i].as_str();
        let statement: SqlStatement = tombstone_living(gone, ctx.actor.as_str(), reason, &ctx.started_at);
        let _ = run_statement(conn, &statement)?;
        let ghost before = ctx.journal();
        issue_deleted(ctx, gone, reason);
        proof {
            assert(doomed.take(i + 1).drop_last() =~= doomed.take(i as int));
            assert(doomed.take(i + 1).last() == gone@);
            assert forall|k: int| 0 <= k < i + 1 implies (#[trigger] ctx.journal()[start + k]).event_type
                == EventType::Deleted && ctx.journal()[start + k].issue_id == plan.deleted@[k]@ by {
                if k < i {
                    assert(ctx.journal()[start + k] == before[start + k]);
                }
            }
        }
        i = i + 1;
    }
    proof {
        assert(doomed.take(i as int) =~= doomed);
    }
    Ok(plan)
}

/// What removing a label does inside its transaction.  Where the issue had
/// the label, a `label_removed` event and the dirty mark are gathered; where
/// it had not, nothing is.
pub fn unlabel_in(conn: &rusqlite::Connection, ctx: &mut MutationContext, issue_id: &str, label: &str) -> (r: Result<bool, BeadsError>)
    ensures
        r matches Ok(removed) ==> if removed {
            recorded(*old(ctx), *final(ctx), EventType::LabelRemoved, issue_id@, "Removed label "@ + label@)
                && final(ctx).dirty() == marked(old(ctx).dirty(), issue_id@)
        } else {
            untouched(*old(ctx), *final(ctx))
        },
        labelling(issue_id@, r),
{
    let _ = load_issue(conn, issue_id)?;
    let changed: usize = run_statement(conn, &paired(DELETE_LABEL, issue_id, label))?;
    Ok(label_removed(ctx, changed, issue_id, label))
}

/// What the adding of a comment may come to: an issue that does not exist
/// is `IssueNotFound`, and nothing else fails but the database.
pub open spec fn commenting(issue_id: Seq<char>, r: Result<(), BeadsError>) -> bool {
    r matches Err(e) ==> e.from_storage() || e.misses(issue_id)
}

/// What adding a comment does inside its transaction: the comment goes in
/// under the actor of the mutation and at its time, and a `comment_added`
/// event and the dirty mark are gathered.
pub fn comment_in(conn: &rusqlite::Connection, ctx: &mut MutationContext, issue_id: &str, body: &str) -> (r: Result<(), BeadsError>)
    ensures
        r is Ok ==> {
            &&& recorded(*old(ctx), *final(ctx), EventType::CommentAdded, issue_id@, "Comment by "@ + old(ctx).actor@)
            &&& final(ctx).dirty() == marked(old(ctx).dirty(), issue_id@)
        },
        commenting(issue_id@, r),
{
    let _ = load_issue(conn, issue_id)?;
    let _ = run_statement(conn, &insert_comment(issue_id, ctx.actor.as_str(), body, &ctx.started_at))?;
    let author_name: String = ctx.actor.clone();
    comment_added(ctx, issue_id, author_name.as_str());
    Ok(())
}

/// Whether an id is a candidate of a prefix: the id of some counter, at the
/// width that some number of issues asks for.
pub open spec fn candidate_of(prefix: Seq<char>, id: Seq<char>) -> bool {
    exists|m: nat, count: nat| id == #[trigger] candidate(prefix, m, width_for(count))
}

/// The next id of a prefix, by the ids that the database answered with:
/// as [`generate_id`] makes it, the counter starting after their number.
pub fn next_id(prefix: &str, existing: &Vec<String>) -> (r: Result<String, BeadsError>)
    ensures
        !valid_prefix(prefix@) ==> (r matches Err(BeadsError::InvalidPrefix { prefix: p }) && p@ == prefix@),
        valid_prefix(prefix@) && 2 * existing@.len() + 1 < u64::MAX ==> r is Ok,
        r matches Ok(id) ==> !texts(existing@).contains(id@) && candidate_of(prefix@, id@),
        r matches Err(e) ==> (e is InvalidPrefix && !valid_prefix(prefix@)) || e is Internal,
{
    validate_prefix(prefix)?;
    let count: u64 = existing.len() as u64;
    if count == u64::MAX {
        return Err(BeadsError::Internal { message: "the counters of the prefix have run out".to_owned() });
    }
    let made: Result<String, BeadsError> = generate_id(prefix, existing, count + 1, count);
    proof {
        if made is Ok {
            let id = made->Ok_0;
            let m = choose|m: nat|
                count + 1 <= m <= count + 1 + existing@.len() && id@ == #[trigger] candidate(
                    prefix@,
                    m,
                    width_for(count as nat),
                );
            assert(!texts(existing@).contains(id@));
            assert(id@ == candidate(prefix@, m, width_for(count as nat)));
        }
    }
    made
}

/// Reads the ids of a prefix and makes the next one, see [`next_id`].
pub fn next_id_in(conn: &rusqlite::Connection, prefix: &str) -> (r: Result<String, BeadsError>)
    ensures
        r matches Ok(id) ==> candidate_of(prefix@, id@),
        r matches Err(e) ==> e.from_storage() || (e is InvalidPrefix && !valid_prefix(prefix@)),
{
    let rows: Vec<Vec<SqlValue>> = fetch_all(conn, &select_ids_of_prefix(prefix))?;
    let existing: Vec<String> = read_texts(&rows)?;
    next_id(prefix, &existing)
}

/// The issue under another id.
pub open spec fn renamed(issue: IssueData, id: Seq<char>) -> IssueData {
    IssueData { id, ..issue }
}

/// What the creation of an issue under a new id may come to: the issue that
/// is handed back is the issue under a candidate id of the prefix; and nothing
/// fails but the database, besides an id that was taken in the meanwhile.
pub open spec fn creation_anew(prefix: Seq<char>, issue: IssueData, r: Result<Issue, BeadsError>) -> bool {
    &&& r matches Ok(created) ==> created@ == renamed(issue, created@.id) && candidate_of(prefix, created@.id)
    &&& r matches Err(e) ==> {
        ||| e.from_storage()
        ||| e is InvalidPrefix && !valid_prefix(prefix)
        ||| e is InvalidArgument && unfit_to_create(renamed(issue, prefix))
        ||| e is IdCollision
    }
}

/// What creating an issue under a new id does inside its transaction: the
/// next id of the prefix is made, see [`next_id`], and the issue is created
/// under it, see [`create_in`].
pub fn create_anew_in(conn: &rusqlite::Connection, ctx: &mut MutationContext, prefix: &str, issue: &Issue) -> (r: Result<Issue, BeadsError>)
    ensures
        r matches Ok(created) ==> {
            &&& recorded(
                *old(ctx),
                *final(ctx),
                EventType::Created,
                created@.id,
                "Created issue: "@ + issue.title@,
            )
            &&& final(ctx).dirty() == marked(old(ctx).dirty(), created@.id)
            &&& final(ctx).invalidate_blocked_cache
        },
        creation_anew(prefix@, issue@, r),
{
    let id: String = next_id_in(conn, prefix)?;
    let mut created: Issue = issue.copy();
    created.id = id;
    check_new_issue(&created)?;
    create_in(conn, ctx, &created)?;
    Ok(created)
}

impl SqliteStorage {
    /// Delete an issue by creating a tombstone.
    ///
    /// This sets:
    /// - status = tombstone
    /// - `deleted_at` = the time of the mutation, which is also `updated_at`
    /// - `deleted_by` = actor
    /// - `delete_reason` = reason
    /// - `original_type` = previous `issue_type`
    ///
    /// Does NOT remove labels, comments, or events from DB.  On success the
    /// result is the issue as the database holds it afterwards: the issue
    /// `id`, as that tombstone.  An issue that does not exist is
    /// `IssueNotFound`; one that others depend on is `HasDependents`, see
    /// [`SqliteStorage::delete_with_dependents`] for deleting it all the
    /// same; nothing else fails but the database.
    pub fn delete_issue(&mut self, id: &str, actor: &str, reason: &str) -> (r: Result<Issue, BeadsError>)
        ensures
            deletion(id@, actor@, reason@, r),
    {
        let body = |tx: &rusqlite::Transaction<'_>, ctx: &mut MutationContext| -> (out: Result<Issue, BeadsError>)
            requires
                ctx.actor@ == actor@,
            ensures
                deletion(id@, actor@, reason@, out),
            { delete_in(connection_of(tx), ctx, id, reason) };
        self.mutate("delete_issue", actor, body)
    }

    /// Closes an issue: the status becomes `closed` and the time of closing
    /// is the time of the mutation.  Records a `closed` event with the
    /// reason, marks the issue dirty and empties the cache of blocked
    /// issues.  On success the result is the issue as the database holds it
    /// afterwards: the issue `id`, closed.  An issue that does not exist is
    /// `IssueNotFound`, a tombstone is `InvalidTransition`; nothing else
    /// fails but the database.
    pub fn close_issue(&mut self, id: &str, reason: Option<&str>, actor: &str) -> (r: Result<Issue, BeadsError>)
        ensures
            closing(id@, r),
    {
        let body = |tx: &rusqlite::Transaction<'_>, ctx: &mut MutationContext| -> (out: Result<Issue, BeadsError>)
            ensures
                closing(id@, out),
            { close_in(connection_of(tx), ctx, id, reason) };
        self.mutate("close_issue", actor, body)
    }

    /// Reopens a closed issue: the status becomes `open` and the time of
    /// closing is cleared.  Records a `reopened` event, marks the issue dirty
    /// and empties the cache of blocked issues.  On success the result is
    /// the issue `id`, open.  An issue that does not exist is
    /// `IssueNotFound`, one that is not closed is `NotClosed`; nothing else
    /// fails but the database.
    pub fn reopen_issue(&mut self, id: &str, actor: &str) -> (r: Result<Issue, BeadsError>)
        ensures
            reopening(id@, r),
    {
        let body = |tx: &rusqlite::Transaction<'_>, ctx: &mut MutationContext| -> (out: Result<Issue, BeadsError>)
            ensures
                reopening(id@, out),
            { reopen_in(connection_of(tx), ctx, id) };
        self.mutate("reopen_issue", actor, body)
    }

    /// Plans the deletion of an issue without writing: which issues would
    /// become tombstones and which would be orphaned.
    pub fn preview_delete(&self, id: &str, cascade: bool, force: bool) -> (r: Result<DeletePlan, BeadsError>)
        ensures
            planning(id@, cascade, force, r),
    {
        load_delete_plan(self.connection(), id, cascade, force)
    }

    /// Deletes an issue with regard to the issues that depend on it.
    ///
    /// With `cascade` they are deleted with it, through every level, in the
    /// same transaction and with one `deleted` event each.  With `force` the
    /// issue is deleted alone and its dependents are left orphaned.  With
    /// neither, an issue that has dependents is `HasDependents` and nothing
    /// is written.  An issue that does not exist is `IssueNotFound`; nothing
    /// else fails but the database.
    pub fn delete_with_dependents(&mut self, id: &str, actor: &str, reason: &str, cascade: bool, force: bool) -> (r: Result<DeletePlan, BeadsError>)
        ensures
            planning(id@, cascade, force, r),
    {
        let body = |tx: &rusqlite::Transaction<'_>, ctx: &mut MutationContext| -> (out: Result<DeletePlan, BeadsError>)
            ensures
                planning(id@, cascade, force, out),
            { delete_planned_in(connection_of(tx), ctx, id, reason, cascade, force) };
        self.mutate("delete_issue", actor, body)
    }

    /// Removes a label from an issue.  The result says whether the issue had
    /// the label; removing a label that it had not changes nothing.  An
    /// issue that does not exist is `IssueNotFound`; nothing else fails but
    /// the database.
    pub fn remove_label(&mut self, issue_id: &str, label: &str, actor: &str) -> (r: Result<bool, BeadsError>)
        ensures
            labelling(issue_id@, r),
    {
        let body = |tx: &rusqlite::Transaction<'_>, ctx: &mut MutationContext| -> (out: Result<bool, BeadsError>)
            ensures
                labelling(issue_id@, out),
            { unlabel_in(connection_of(tx), ctx, issue_id, label) };
        self.mutate("remove_label", actor, body)
    }

    /// Adds a comment to an issue, at the time of the mutation.  A comment
    /// without a text is `InvalidArgument`; an issue that does not exist is
    /// `IssueNotFound`; nothing else fails but the database.
    pub fn add_comment(&mut self, issue_id: &str, author: &str, body: &str) -> (r: Result<(), BeadsError>)
        ensures
            body@.len() == 0 ==> r matches Err(BeadsError::InvalidArgument { .. }),
            r matches Err(e) ==> {
                ||| e.from_storage()
                ||| e.misses(issue_id@)
                ||| e is InvalidArgument && body@.len() == 0
            },
    {
        if body.unicode_len() == 0 {
            return Err(BeadsError::InvalidArgument { message: "a comment needs a text".to_owned() });
        }
        let write = |tx: &rusqlite::Transaction<'_>, ctx: &mut MutationContext| -> (out: Result<(), BeadsError>)
            ensures
                commenting(issue_id@, out),
            { comment_in(connection_of(tx), ctx, issue_id, body) };
        self.mutate("add_comment", author, write)
    }

    /// Generates the id of the next issue of a prefix: the counter starts
    /// after the number of issues that the prefix has, and no id that the
    /// database holds is given again.  A text that cannot be a prefix is
    /// `InvalidPrefix`.  Whatever ids the database holds, an id that is
    /// made is a fresh id of the prefix, see [`next_id`].
    pub fn generate_issue_id(&self, prefix: &str) -> (r: Result<String, BeadsError>)
        ensures
            !valid_prefix(prefix@) ==> (r matches Err(BeadsError::InvalidPrefix { prefix: p }) && p@ == prefix@),
            valid_prefix(prefix@) ==> (r matches Err(e) ==> e.from_storage()),
            r matches Ok(id) ==> candidate_of(prefix@, id@),
    {
        validate_prefix(prefix)?;
        next_id_in(self.connection(), prefix)
    }

    /// Creates an issue under a new id: the id is made and the issue is
    /// created in one transaction, so that no other writer can take the id
    /// in between.  The id that `issue` brings is passed over.
    ///
    /// A text that cannot be a prefix is `InvalidPrefix`, and an issue that
    /// cannot be created whatever its id is `InvalidArgument`, both before
    /// the database is touched.  On success the result is the issue under
    /// its new id.
    pub fn create_issue_anew(&mut self, prefix: &str, issue: &Issue, actor: &str) -> (r: Result<Issue, BeadsError>)
        ensures
            !valid_prefix(prefix@) ==> (r matches Err(BeadsError::InvalidPrefix { prefix: p }) && p@ == prefix@),
            valid_prefix(prefix@) && unfit_to_create(renamed(issue@, prefix@)) ==> r matches Err(
                BeadsError::InvalidArgument { .. },
            ),
            creation_anew(prefix@, issue@, r),
    {
        validate_prefix(prefix)?;
        let mut draft: Issue = issue.copy();
        draft.id = prefix.to_owned();
        check_new_issue(&draft)?;
        let body = |tx: &rusqlite::Transaction<'_>, ctx: &mut MutationContext| -> (out: Result<Issue, BeadsError>)
            ensures
                creation_anew(prefix@, issue@, out),
            { create_anew_in(connection_of(tx), ctx, prefix, issue) };
        self.mutate("create_issue", actor, body)
    }

    /// The one id of the store that an input stands for: the input itself,
    /// with or without the prefix of the workspace, or the one id that starts
    /// with it.  An input that starts no id is `IssueNotFound`; one that
    /// starts several is `InvalidId`.  Whatever ids the database holds, an
    /// id that is found is the one that [`resolution`] finds among some ids.
    pub fn resolve(&self, input: &str, prefix: &str) -> (r: Result<String, BeadsError>)
        ensures
            r matches Ok(id) ==> exists|ids: Seq<Seq<char>>|
                resolution(ids, prefix@, normalized(input@)).1.len() >= 1 && id@ == resolution(
                    ids,
                    prefix@,
                    normalized(input@),
                ).1[0] && resolution(ids, prefix@, normalized(input@)).0 != MatchType::Ambiguous && resolution(
                    ids,
                    prefix@,
                    normalized(input@),
                ).0 != MatchType::NotFound,
            r matches Err(e) ==> {
                ||| e.from_storage()
                ||| e.misses(input@)
                ||| e matches BeadsError::InvalidId { id } && id@ == input@
            },
    {
        let rows: Vec<Vec<SqlValue>> = fetch_all(self.connection(), &plain(SELECT_IDS))?;
        let ids: Vec<String> = read_texts(&rows)?;
        resolve_one(input, &ids, prefix)
    }
}

} // verus!
