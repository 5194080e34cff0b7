//! Partial updates of an issue: which fields change, and the event that each
//! change leaves in the journal.

use vstd::prelude::*;
use crate::error::{BeadsError, invalid_argument};
use crate::model::{EventData, EventType, Issue, IssueData, IssueType, Priority, Status, opt_text};
use crate::storage::context::MutationContext;
use crate::storage::driver::connection_of;
use crate::storage::effects::marked;
use crate::storage::sql::{SqlData, SqlStatement, SqlStatementData, SqlValue, binds_real, text_value};
use crate::storage::sqlite::{SqliteStorage, load_issue, run_statement};
use crate::storage::statements::text_or_null;
use crate::text::{digits, format_decimal, text_eq};
use crate::time::Timestamp;

verus! {

pub const UPDATE_ISSUE: &'static str = "UPDATE issues SET title = ?, description = ?, issue_type = ?, status = ?, priority = ?, assignee = ?, updated_at = ? WHERE id = ?";

/// The fields to change.  A field that is `None` stays as it is; for a field
/// that may be empty, `Some(None)` empties it.
#[derive(Debug, Clone, Default)]
pub struct IssueUpdate {
    pub title: Option<String>,
    pub description: Option<Option<String>>,
    pub issue_type: Option<IssueType>,
    pub status: Option<Status>,
    pub priority: Option<Priority>,
    pub assignee: Option<Option<String>>,
}

/// The mathematical content of an [`IssueUpdate`].
pub struct PatchData {
    pub title: Option<Seq<char>>,
    pub description: Option<Option<Seq<char>>>,
    pub issue_type: Option<IssueType>,
    pub status: Option<Status>,
    pub priority: Option<Priority>,
    pub assignee: Option<Option<Seq<char>>>,
}

impl View for IssueUpdate {
    type V = PatchData;

    open spec fn view(&self) -> PatchData {
        PatchData {
            title: opt_text(self.title),
            description: match self.description {
                Some(d) => Some(opt_text(d)),
                None => None,
            },
            issue_type: self.issue_type,
            status: self.status,
            priority: self.priority,
            assignee: match self.assignee {
                Some(a) => Some(opt_text(a)),
                None => None,
            },
        }
    }
}

/// A status that an update may set or leave: closing, reopening and deleting
/// have operations of their own.
pub open spec fn updatable(status: Status) -> bool {
    status == Status::Open || status == Status::InProgress || status == Status::Blocked
}

/// What is wrong with an update, if anything.
pub enum PatchFault {
    Sound,
    EmptyTitle,
    PriorityOutOfRange,
    Transition,
}

/// Checks a patch against the issue: the first fault in the order of
/// [`PatchFault`].  A title may not become empty, a priority is a number
/// from 0 to 4, and the status may change only between open, in progress
/// and blocked.
pub open spec fn patch_fault(issue: IssueData, patch: PatchData) -> PatchFault {
    if patch.title matches Some(t) && t.len() == 0 {
        PatchFault::EmptyTitle
    } else if patch.priority matches Some(p) && !p.in_range() {
        PatchFault::PriorityOutOfRange
    } else if patch.status matches Some(s) && s != issue.status && !(updatable(s) && updatable(issue.status)) {
        PatchFault::Transition
    } else {
        PatchFault::Sound
    }
}

/// The issue with the patch applied and the time of its last update set to
/// `now`.
pub open spec fn patched(issue: IssueData, patch: PatchData, now: Timestamp) -> IssueData {
    IssueData {
        title: match patch.title { Some(t) => t, None => issue.title },
        description: match patch.description { Some(d) => d, None => issue.description },
        issue_type: match patch.issue_type { Some(t) => t, None => issue.issue_type },
        status: match patch.status { Some(s) => s, None => issue.status },
        priority: match patch.priority { Some(p) => p, None => issue.priority },
        assignee: match patch.assignee { Some(a) => a, None => issue.assignee },
        updated_at: now,
        ..issue
    }
}

/// The decimal text of a priority from 0 to 4.
pub open spec fn level_text(priority: Priority) -> Seq<char> {
    if priority.0 >= 0 {
        digits(priority.0 as nat, 10)
    } else {
        digits(0, 10)
    }
}

/// The event that records the change of one field.
pub open spec fn change(
    event_type: EventType,
    issue_id: Seq<char>,
    actor: Seq<char>,
    old_value: Option<Seq<char>>,
    new_value: Option<Seq<char>>,
    at: Timestamp,
) -> EventData {
    EventData {
        id: 0,
        issue_id: issue_id,
        event_type: event_type,
        actor: actor,
        old_value: old_value,
        new_value: new_value,
        comment: None,
        created_at: at,
    }
}

/// The event of a change, or none where nothing changes.
pub open spec fn change_if(
    changes: bool,
    event_type: EventType,
    issue_id: Seq<char>,
    actor: Seq<char>,
    old_value: Option<Seq<char>>,
    new_value: Option<Seq<char>>,
    at: Timestamp,
) -> Option<EventData> {
    if changes {
        Some(change(event_type, issue_id, actor, old_value, new_value, at))
    } else {
        None
    }
}

/// The event that the change of field `n` leaves, if the field changes.  The
/// fields are numbered in the order title, description, type, status,
/// priority, assignee, from 1.
pub open spec fn field_change(issue: IssueData, after: IssueData, actor: Seq<char>, at: Timestamp, n: nat) -> Option<EventData> {
    if n == 1 {
        change_if(after.title != issue.title, EventType::Updated, issue.id, actor, Some(issue.title), Some(after.title), at)
    } else if n == 2 {
        change_if(after.description != issue.description, EventType::Updated, issue.id, actor, issue.description, after.description, at)
    } else if n == 3 {
        change_if(after.issue_type != issue.issue_type, EventType::Updated, issue.id, actor, Some(issue.issue_type.text()), Some(after.issue_type.text()), at)
    } else if n == 4 {
        change_if(after.status != issue.status, EventType::StatusChanged, issue.id, actor, Some(issue.status.text()), Some(after.status.text()), at)
    } else if n == 5 {
        change_if(after.priority != issue.priority, EventType::PriorityChanged, issue.id, actor, Some(level_text(issue.priority)), Some(level_text(after.priority)), at)
    } else if n == 6 {
        change_if(after.assignee != issue.assignee, EventType::Assigned, issue.id, actor, issue.assignee, after.assignee, at)
    } else {
        None
    }
}

/// A journal with one more event, if there is one.
pub open spec fn with_event(events: Seq<EventData>, event: Option<EventData>) -> Seq<EventData> {
    match event {
        Some(e) => events.push(e),
        None => events,
    }
}

/// The events that the changes of the first `n` fields leave, in the order
/// of the fields.
pub open spec fn field_events(issue: IssueData, after: IssueData, actor: Seq<char>, at: Timestamp, n: nat) -> Seq<EventData>
    decreases n,
{
    if n == 0 {
        Seq::empty()
    } else {
        with_event(field_events(issue, after, actor, at, (n - 1) as nat), field_change(issue, after, actor, at, n))
    }
}

/// The events of an update: one for each field that changes, with the value
/// before and the value after, in the order title, description, type,
/// status, priority, assignee.
pub open spec fn update_events(issue: IssueData, after: IssueData, actor: Seq<char>, at: Timestamp) -> Seq<EventData> {
    field_events(issue, after, actor, at, 6)
}

/// Whether two optional texts are the same.
pub fn same_optional_text(a: &Option<String>, b: &Option<String>) -> (r: bool)
    ensures
        r == (opt_text(*a) == opt_text(*b)),
{
    match (a, b) {
        (Some(x), Some(y)) => text_eq(x.as_str(), y.as_str()),
        (None, None) => true,
        _ => false,
    }
}

fn status_is_updatable(status: Status) -> (r: bool)
    ensures
        r == updatable(status),
{
    match status {
        Status::Open | Status::InProgress | Status::Blocked => true,
        _ => false,
    }
}

/// Whether no issue can take the patch: it empties the title, or its
/// priority is out of range.
pub open spec fn unsound(patch: PatchData) -> bool {
    (patch.title matches Some(t) && t.len() == 0) || (patch.priority matches Some(p) && !p.in_range())
}

/// Checks a patch by itself.  An empty title and a priority out of range
/// are `InvalidArgument`.
pub fn check_patch_alone(patch: &IssueUpdate) -> (r: Result<(), BeadsError>)
    ensures
        unsound(patch@) ==> r matches Err(BeadsError::InvalidArgument { .. }),
        !unsound(patch@) ==> r is Ok,
{
    if let Some(title) = &patch.title {
        if title.as_str().unicode_len() == 0 {
            return Err(invalid_argument("an issue needs a title"));
        }
    }
    if let Some(priority) = &patch.priority {
        if priority.0 < 0 || priority.0 > 4 {
            return Err(invalid_argument("a priority is a number from 0 to 4"));
        }
    }
    Ok(())
}

/// Checks a patch against the issue.  An empty title and a priority out of
/// range are `InvalidArgument`; a change of status that an update may not
/// make is `InvalidTransition`.
pub fn check_patch(issue: &Issue, patch: &IssueUpdate) -> (r: Result<(), BeadsError>)
    ensures
        match patch_fault(issue@, patch@) {
            PatchFault::Sound => r is Ok,
            PatchFault::EmptyTitle => r matches Err(BeadsError::InvalidArgument { .. }),
            PatchFault::PriorityOutOfRange => r matches Err(BeadsError::InvalidArgument { .. }),
            PatchFault::Transition => r matches Err(BeadsError::InvalidTransition { from, to }) && from@
                == issue.status.text() && to@ == patch.status->Some_0.text(),
        },
{
    check_patch_alone(patch)?;
    if let Some(status) = patch.status {
        if status != issue.status && !(status_is_updatable(status) && status_is_updatable(issue.status)) {
            return Err(
                BeadsError::InvalidTransition {
                    from: issue.status.as_str().to_owned(),
                    to: status.as_str().to_owned(),
                },
            );
        }
    }
    Ok(())
}

fn level(priority: &Priority) -> (r: String)
    ensures
        r@ == level_text(*priority),
{
    if priority.0 >= 0 {
        format_decimal(priority.0 as u64)
    } else {
        format_decimal(0)
    }
}

/// `after` is `before` with `events` added to its journal and nothing else
/// changed.
pub open spec fn journalled(before: MutationContext, after: MutationContext, event: Option<EventData>) -> bool {
    &&& after.journal() == with_event(before.journal(), event)
    &&& after.op_name == before.op_name
    &&& after.actor == before.actor
    &&& after.started_at == before.started_at
    &&& after.dirty_ids == before.dirty_ids
    &&& after.invalidate_blocked_cache == before.invalidate_blocked_cache
    &&& before.wf() ==> after.wf()
}

/// Records the change of one field, if it changes.
fn note_change(
    ctx: &mut MutationContext,
    changes: bool,
    event_type: EventType,
    issue_id: &str,
    old_value: Option<String>,
    new_value: Option<String>,
)
    ensures
        journalled(
            *old(ctx),
            *final(ctx),
            change_if(changes, event_type, issue_id@, old(ctx).actor@, opt_text(old_value), opt_text(new_value), old(ctx).started_at),
        ),
{
    if changes {
        ctx.record_change(event_type, issue_id, old_value, new_value);
    }
}

/// The values that the fields of an issue take under a patch, and whether
/// any of them, and whether the status, is new.
struct FieldChanges {
    title: String,
    description: Option<String>,
    issue_type: IssueType,
    status: Status,
    priority: Priority,
    assignee: Option<String>,
    changed: bool,
    status_changed: bool,
}

/// Records the events of an update and works out the new values of the
/// fields.
fn journal_patch(issue: &Issue, patch: &IssueUpdate, ctx: &mut MutationContext) -> (r: FieldChanges)
    ensures
        r.title@ == patched(issue@, patch@, old(ctx).started_at).title,
        opt_text(r.description) == patched(issue@, patch@, old(ctx).started_at).description,
        r.issue_type == patched(issue@, patch@, old(ctx).started_at).issue_type,
        r.status == patched(issue@, patch@, old(ctx).started_at).status,
        r.priority == patched(issue@, patch@, old(ctx).started_at).priority,
        opt_text(r.assignee) == patched(issue@, patch@, old(ctx).started_at).assignee,
        r.status_changed == (r.status != issue.status),
        r.changed == (update_events(issue@, patched(issue@, patch@, old(ctx).started_at), old(ctx).actor@, old(ctx).started_at).len() > 0),
        !r.changed ==> r.title@ == issue.title@ && opt_text(r.description) == opt_text(issue.description)
            && r.issue_type == issue.issue_type && r.status == issue.status && r.priority == issue.priority
            && opt_text(r.assignee) == opt_text(issue.assignee),
        final(ctx).journal() == old(ctx).journal() + update_events(
            issue@,
            patched(issue@, patch@, old(ctx).started_at),
            old(ctx).actor@,
            old(ctx).started_at,
        ),
        final(ctx).op_name == old(ctx).op_name,
        final(ctx).actor == old(ctx).actor,
        final(ctx).started_at == old(ctx).started_at,
        final(ctx).dirty_ids == old(ctx).dirty_ids,
        final(ctx).invalidate_blocked_cache == old(ctx).invalidate_blocked_cache,
        old(ctx).wf() ==> final(ctx).wf(),
{
    let ghost before = issue@;
    let ghost after = patched(before, patch@, ctx.started_at);
    let ghost actor = ctx.actor@;
    let ghost at = ctx.started_at;
    let ghost journal = ctx.journal();
    assert(ctx.journal() =~= journal + field_events(before, after, actor, at, 0));

    let title: String = match &patch.title {
        Some(t) => t.clone(),
        None => issue.title.clone(),
    };
    let title_changed: bool = !text_eq(title.as_str(), issue.title.as_str());
    note_change(ctx, title_changed, EventType::Updated, issue.id.as_str(), Some(issue.title.clone()), Some(title.clone()));
    proof {
        step_of_journal(journal, before, after, actor, at, 1, ctx.journal());
    }

    let description: Option<String> = match &patch.description {
        Some(d) => d.clone(),
        None => issue.description.clone(),
    };
    let description_changed: bool = !same_optional_text(&description, &issue.description);
    note_change(ctx, description_changed, EventType::Updated, issue.id.as_str(), issue.description.clone(), description.clone());
    proof {
        step_of_journal(journal, before, after, actor, at, 2, ctx.journal());
    }

    let issue_type: IssueType = match patch.issue_type {
        Some(t) => t,
        None => issue.issue_type,
    };
    let type_changed: bool = issue_type != issue.issue_type;
    note_change(
        ctx,
        type_changed,
        EventType::Updated,
        issue.id.as_str(),
        Some(issue.issue_type.as_str().to_owned()),
        Some(issue_type.as_str().to_owned()),
    );
    proof {
        step_of_journal(journal, before, after, actor, at, 3, ctx.journal());
    }

    let status: Status = match patch.status {
        Some(s) => s,
        None => issue.status,
    };
    let status_changed: bool = status != issue.status;
    note_change(
        ctx,
        status_changed,
        EventType::StatusChanged,
        issue.id.as_str(),
        Some(issue.status.as_str().to_owned()),
        Some(status.as_str().to_owned()),
    );
    proof {
        step_of_journal(journal, before, after, actor, at, 4, ctx.journal());
    }

    let priority: Priority = match patch.priority {
        Some(p) => p,
        None => issue.priority,
    };
    let priority_changed: bool = priority != issue.priority;
    note_change(
        ctx,
        priority_changed,
        EventType::PriorityChanged,
        issue.id.as_str(),
        Some(level(&issue.priority)),
        Some(level(&priority)),
    );
    proof {
        step_of_journal(journal, before, after, actor, at, 5, ctx.journal());
    }

    let assignee: Option<String> = match &patch.assignee {
        Some(a) => a.clone(),
        None => issue.assignee.clone(),
    };
    let assignee_changed: bool = !same_optional_text(&assignee, &issue.assignee);
    note_change(ctx, assignee_changed, EventType::Assigned, issue.id.as_str(), issue.assignee.clone(), assignee.clone());
    proof {
        step_of_journal(journal, before, after, actor, at, 6, ctx.journal());
    }

    let changed: bool = title_changed || description_changed || type_changed || status_changed
        || priority_changed || assignee_changed;
    proof {
        events_tell_changes(before, after, actor, at, 6);
        assert(title_changed == field_change(before, after, actor, at, 1) is Some);
        assert(description_changed == field_change(before, after, actor, at, 2) is Some);
        assert(type_changed == field_change(before, after, actor, at, 3) is Some);
        assert(status_changed == field_change(before, after, actor, at, 4) is Some);
        assert(priority_changed == field_change(before, after, actor, at, 5) is Some);
        assert(assignee_changed == field_change(before, after, actor, at, 6) is Some);
        if exists|k: nat| 1 <= k <= 6 && #[trigger] field_change(before, after, actor, at, k) is Some {
            let k = choose|k: nat| 1 <= k <= 6 && #[trigger] field_change(before, after, actor, at, k) is Some;
            assert(k == 1 || k == 2 || k == 3 || k == 4 || k == 5 || k == 6);
        }
    }
    FieldChanges { title, description, issue_type, status, priority, assignee, changed, status_changed }
}

/// Applies a patch to an issue and records what changes.
///
/// Each field that changes leaves one event with the value before and the
/// value after.  Where anything changes, the issue is marked dirty and gets
/// the time of the mutation as the time of its last update; where the status
/// changes, the cache of blocked issues goes.  Where nothing changes, nothing
/// is recorded and the issue stays as it is.  The result says whether
/// anything changed.
pub fn apply_patch(issue: &mut Issue, patch: &IssueUpdate, ctx: &mut MutationContext) -> (r: bool)
    ensures
        r == (update_events(old(issue)@, patched(old(issue)@, patch@, old(ctx).started_at), old(ctx).actor@, old(ctx).started_at).len() > 0),
        r ==> final(issue)@ == patched(old(issue)@, patch@, old(ctx).started_at),
        !r ==> final(issue)@ == old(issue)@,
        final(ctx).journal() == old(ctx).journal() + update_events(
            old(issue)@,
            patched(old(issue)@, patch@, old(ctx).started_at),
            old(ctx).actor@,
            old(ctx).started_at,
        ),
        final(ctx).dirty() == (if r { marked(old(ctx).dirty(), old(issue)@.id) } else { old(ctx).dirty() }),
        final(ctx).invalidate_blocked_cache == (old(ctx).invalidate_blocked_cache || final(issue)@.status != old(issue)@.status),
        final(ctx).actor == old(ctx).actor,
        final(ctx).started_at == old(ctx).started_at,
        old(ctx).wf() ==> final(ctx).wf(),
{
    let changes: FieldChanges = journal_patch(issue, patch, ctx);
    if changes.changed {
        issue.title = changes.title;
        issue.description = changes.description;
        issue.issue_type = changes.issue_type;
        issue.status = changes.status;
        issue.priority = changes.priority;
        issue.assignee = changes.assignee;
        issue.updated_at = ctx.started_at;
        ctx.mark_dirty(issue.id.as_str());
        if changes.status_changed {
            ctx.invalidate_cache();
        }
    }
    changes.changed
}

/// The journal after the step of field `n`, given the journal after the
/// step before.
proof fn step_of_journal(
    journal: Seq<EventData>,
    issue: IssueData,
    after: IssueData,
    actor: Seq<char>,
    at: Timestamp,
    n: nat,
    now: Seq<EventData>,
)
    requires
        n >= 1,
        now == with_event(journal + field_events(issue, after, actor, at, (n - 1) as nat), field_change(issue, after, actor, at, n)),
    ensures
        now == journal + field_events(issue, after, actor, at, n),
{
    assert(now =~= journal + field_events(issue, after, actor, at, n));
}

/// The first `n` fields leave an event exactly where one of them changes.
proof fn events_tell_changes(issue: IssueData, after: IssueData, actor: Seq<char>, at: Timestamp, n: nat)
    ensures
        (field_events(issue, after, actor, at, n).len() > 0) == (exists|k: nat| 1 <= k <= n && #[trigger] field_change(issue, after, actor, at, k) is Some),
    decreases n,
{
    if n > 0 {
        events_tell_changes(issue, after, actor, at, (n - 1) as nat);
        let shorter = field_events(issue, after, actor, at, (n - 1) as nat);
        if field_change(issue, after, actor, at, n) is Some {
        } else if shorter.len() > 0 {
            let k = choose|k: nat| 1 <= k <= n - 1 && #[trigger] field_change(issue, after, actor, at, k) is Some;
            assert(1 <= k <= n);
        } else {
            if exists|k: nat| 1 <= k <= n && #[trigger] field_change(issue, after, actor, at, k) is Some {
                let k = choose|k: nat| 1 <= k <= n && #[trigger] field_change(issue, after, actor, at, k) is Some;
                assert(1 <= k <= n - 1);
            }
        }
    }
}

/// The statement that writes the fields that an update can change.
pub open spec fn update_statement(issue: IssueData) -> SqlStatementData {
    SqlStatementData {
        sql: UPDATE_ISSUE@,
        params: seq![
            SqlData::Text(issue.title),
            text_or_null(issue.description),
            SqlData::Text(issue.issue_type.text()),
            SqlData::Text(issue.status.text()),
            SqlData::Integer(issue.priority.0 as int),
            text_or_null(issue.assignee),
            SqlData::Text(issue.updated_at.text()),
            SqlData::Text(issue.id),
        ],
    }
}

/// Builds the statement that writes an updated issue.
pub fn update_issue_statement(issue: &Issue) -> (r: SqlStatement)
    ensures
        r@ == update_statement(issue@),
        !binds_real(r@.params),
{
    let mut params: Vec<SqlValue> = Vec::new();
    params.push(text_value(issue.title.as_str()));
    params.push(match &issue.description {
        Some(s) => text_value(s.as_str()),
        None => SqlValue::Null,
    });
    params.push(text_value(issue.issue_type.as_str()));
    params.push(text_value(issue.status.as_str()));
    params.push(SqlValue::Integer(issue.priority.0 as i64));
    params.push(match &issue.assignee {
        Some(s) => text_value(s.as_str()),
        None => SqlValue::Null,
    });
    params.push(SqlValue::Text(issue.updated_at.to_rfc3339()));
    params.push(text_value(issue.id.as_str()));
    let r = SqlStatement { sql: UPDATE_ISSUE.to_owned(), params };
    assert(r@.params =~= update_statement(issue@).params);
    r
}

/// Whether an issue has every field that the patch names as the patch
/// gives it.
pub open spec fn took(issue: IssueData, patch: PatchData) -> bool {
    &&& patch.title matches Some(t) ==> issue.title == t
    &&& patch.description matches Some(d) ==> issue.description == d
    &&& patch.issue_type matches Some(t) ==> issue.issue_type == t
    &&& patch.status matches Some(s) ==> issue.status == s
    &&& patch.priority matches Some(p) ==> issue.priority == p
    &&& patch.assignee matches Some(a) ==> issue.assignee == a
}

/// An issue with the patch applied has the fields of the patch; and where
/// the patch leaves no event, the issue had them before.
pub proof fn patched_issue_took_the_patch(issue: IssueData, patch: PatchData, actor: Seq<char>, now: Timestamp)
    ensures
        took(patched(issue, patch, now), patch),
        update_events(issue, patched(issue, patch, now), actor, now).len() == 0 ==> took(issue, patch),
{
    let after = patched(issue, patch, now);
    events_tell_changes(issue, after, actor, now, 6);
    if update_events(issue, after, actor, now).len() == 0 {
        assert(field_change(issue, after, actor, now, 1) is None);
        assert(field_change(issue, after, actor, now, 2) is None);
        assert(field_change(issue, after, actor, now, 3) is None);
        assert(field_change(issue, after, actor, now, 4) is None);
        assert(field_change(issue, after, actor, now, 5) is None);
        assert(field_change(issue, after, actor, now, 6) is None);
    }
}

/// What an update does to the issue `held` in the context `before`: the
/// issue that results, and the context after.
pub open spec fn updated(
    held: IssueData,
    patch: PatchData,
    before: MutationContext,
    after: MutationContext,
    result: IssueData,
) -> bool {
    let events = update_events(
        held,
        patched(held, patch, before.started_at),
        before.actor@,
        before.started_at,
    );
    &&& patch_fault(held, patch) is Sound
    &&& after.journal() == before.journal() + events
    &&& result == (if events.len() > 0 {
        patched(held, patch, before.started_at)
    } else {
        held
    })
    &&& after.dirty() == (if events.len() > 0 {
        marked(before.dirty(), held.id)
    } else {
        before.dirty()
    })
    &&& after.invalidate_blocked_cache == (before.invalidate_blocked_cache || result.status != held.status)
}

/// What an update may come to: the issue that is handed back is the issue
/// `id` with every field that the patch names as the patch gives it; a
/// patch that no issue can take is `InvalidArgument`, an issue that does
/// not exist is `IssueNotFound`, a change of status that an update may not
/// make is `InvalidTransition`; and nothing else fails but the database.
pub open spec fn updating(id: Seq<char>, patch: PatchData, r: Result<Issue, BeadsError>) -> bool {
    &&& r matches Ok(issue) ==> issue@.id == id && took(issue@, patch)
    &&& r matches Err(e) ==> {
        ||| e.from_storage()
        ||| e.misses(id)
        ||| e is InvalidArgument && unsound(patch)
        ||| e matches BeadsError::InvalidTransition { from, to } && (patch.status matches Some(s) && to@ == s.text())
    }
}

/// What an update does inside its transaction: the patch is checked against
/// the issue as the database holds it, each field that changes is
/// journalled, and where anything changes the row is written.  The result
/// is the issue as it is afterwards.
pub fn update_in(conn: &rusqlite::Connection, ctx: &mut MutationContext, id: &str, patch: &IssueUpdate) -> (r: Result<Issue, BeadsError>)
    ensures
        r matches Ok(issue) ==> exists|held: IssueData|
            held.id == id@ && updated(held, patch@, *old(ctx), *final(ctx), issue@),
        updating(id@, patch@, r),
{
    let mut issue: Issue = load_issue(conn, id)?;
    check_patch(&issue, patch)?;
    let ghost held = issue@;
    if apply_patch(&mut issue, patch, ctx) {
        let _ = run_statement(conn, &update_issue_statement(&issue))?;
    }
    proof {
        patched_issue_took_the_patch(held, patch@, old(ctx).actor@, old(ctx).started_at);
        assert(held.id == id@ && updated(held, patch@, *old(ctx), *ctx, issue@));
    }
    Ok(issue)
}

impl SqliteStorage {
    /// Updates an issue by a patch.
    ///
    /// A patch that no issue can take is `InvalidArgument`, whether the
    /// issue exists or not; an issue that does not exist is `IssueNotFound`;
    /// a change of status that an update may not make is
    /// `InvalidTransition`, see [`check_patch`]; nothing else fails but the
    /// database.  Each field that changes is journalled and the row is
    /// written, see [`update_in`]; a patch that changes nothing writes
    /// nothing.  On success the result is the issue as it is afterwards: the
    /// issue `id`, with every field that the patch names as the patch gives
    /// it.
    pub fn update_issue(&mut self, id: &str, patch: &IssueUpdate, actor: &str) -> (r: Result<Issue, BeadsError>)
        ensures
            unsound(patch@) ==> r matches Err(BeadsError::InvalidArgument { .. }),
            updating(id@, patch@, r),
    {
        check_patch_alone(patch)?;
        let body = |tx: &rusqlite::Transaction<'_>, ctx: &mut MutationContext| -> (out: Result<Issue, BeadsError>)
            ensures
                updating(id@, patch@, out),
            { update_in(connection_of(tx), ctx, id, patch) };
        self.mutate("update_issue", actor, body)
    }
}

/// Every event of an update carries the actor and the time that the issue
/// gets as the time of its last update, and is about the issue.
pub proof fn update_events_carry_actor_and_time(issue: IssueData, patch: PatchData, actor: Seq<char>, now: Timestamp, i: int)
    requires
        0 <= i < update_events(issue, patched(issue, patch, now), actor, now).len(),
    ensures
        update_events(issue, patched(issue, patch, now), actor, now)[i].actor == actor,
        update_events(issue, patched(issue, patch, now), actor, now)[i].created_at == patched(issue, patch, now).updated_at,
        update_events(issue, patched(issue, patch, now), actor, now)[i].issue_id == issue.id,
{
    field_events_carry_actor_and_time(issue, patched(issue, patch, now), actor, now, 6, i);
}

proof fn field_events_carry_actor_and_time(issue: IssueData, after: IssueData, actor: Seq<char>, at: Timestamp, n: nat, i: int)
    requires
        0 <= i < field_events(issue, after, actor, at, n).len(),
    ensures
        field_events(issue, after, actor, at, n)[i].actor == actor,
        field_events(issue, after, actor, at, n)[i].created_at == at,
        field_events(issue, after, actor, at, n)[i].issue_id == issue.id,
    decreases n,
{
    if n > 0 {
        let shorter = field_events(issue, after, actor, at, (n - 1) as nat);
        if i < shorter.len() {
            field_events_carry_actor_and_time(issue, after, actor, at, (n - 1) as nat, i);
        }
    }
}

/// An update that changes the status says so in its journal: the status
/// changes exactly where a `status_changed` event is among the events.
pub proof fn status_changes_with_its_event(issue: IssueData, patch: PatchData, actor: Seq<char>, now: Timestamp)
    ensures
        (patched(issue, patch, now).status != issue.status) == (exists|i: int|
            0 <= i < update_events(issue, patched(issue, patch, now), actor, now).len() && (#[trigger] update_events(
                issue,
                patched(issue, patch, now),
                actor,
                now,
            )[i]).event_type == EventType::StatusChanged),
{
    let after = patched(issue, patch, now);
    status_event_among(issue, after, actor, now, 6);
}

proof fn status_event_among(issue: IssueData, after: IssueData, actor: Seq<char>, at: Timestamp, n: nat)
    requires
        n <= 6,
    ensures
        (n >= 4 && after.status != issue.status) == (exists|i: int|
            0 <= i < field_events(issue, after, actor, at, n).len() && (#[trigger] field_events(issue, after, actor, at, n)[i]).event_type
                == EventType::StatusChanged),
    decreases n,
{
    if n > 0 {
        status_event_among(issue, after, actor, at, (n - 1) as nat);
        let shorter = field_events(issue, after, actor, at, (n - 1) as nat);
        let longer = field_events(issue, after, actor, at, n);
        if exists|i: int| 0 <= i < shorter.len() && (#[trigger] shorter[i]).event_type == EventType::StatusChanged {
            let i = choose|i: int| 0 <= i < shorter.len() && (#[trigger] shorter[i]).event_type == EventType::StatusChanged;
            assert(longer[i].event_type == EventType::StatusChanged);
        }
        if n == 4 && after.status != issue.status {
            assert(longer[longer.len() - 1].event_type == EventType::StatusChanged);
        }
        if exists|i: int| 0 <= i < longer.len() && (#[trigger] longer[i]).event_type == EventType::StatusChanged {
            let i = choose|i: int| 0 <= i < longer.len() && (#[trigger] longer[i]).event_type == EventType::StatusChanged;
            if i < shorter.len() {
                assert(shorter[i].event_type == EventType::StatusChanged);
            }
        }
    }
}

} // verus!
