//! What a mutation gathers while it runs, and the statements that write it at
//! commit.

use vstd::prelude::*;
use crate::model::{Event, EventData, EventType, opt_text, texts};
use crate::storage::statements::{
    close_statement, reopen_statement, tombstone_living_statement, tombstone_statement,
};
use crate::storage::sql::{
    SqlData, SqlStatement, SqlStatementData, SqlValue, binds_real, optional_text_value, text_value,
};
use crate::text::text_eq;
use crate::time::Timestamp;

verus! {

pub const INSERT_EVENT: &'static str = "INSERT INTO events (issue_id, event_type, actor, old_value, new_value, comment, created_at) VALUES (?, ?, ?, ?, ?, ?, ?)";

pub const UPSERT_DIRTY: &'static str = "INSERT OR REPLACE INTO dirty_issues (issue_id, marked_at) VALUES (?, ?)";

pub const CLEAR_BLOCKED_CACHE: &'static str = "DELETE FROM blocked_issues_cache";

/// Context for a mutation operation, tracking side effects.
///
/// One mutation has one time: `started_at` stamps its events and dirty marks,
/// and the operations stamp the rows they change with it, so that a reader
/// sees an issue and the event of its change with the same time.
#[derive(Debug)]
pub struct MutationContext {
    pub op_name: String,
    pub actor: String,
    pub events: Vec<Event>,
    /// The issues whose export is stale, each once, in the order in which
    /// they were first marked.  A list and no hash set: the marks are
    /// written in the order of the list, so a commit is one sequence of
    /// statements that depends on nothing but what was gathered.
    pub dirty_ids: Vec<String>,
    pub invalidate_blocked_cache: bool,
    pub started_at: Timestamp,
}

/// The statement that appends `event` to the journal.
pub open spec fn event_statement(event: EventData) -> SqlStatementData {
    SqlStatementData {
        sql: INSERT_EVENT@,
        params: seq![
            SqlData::Text(event.issue_id),
            SqlData::Text(event.event_type.text()),
            SqlData::Text(event.actor),
            match event.old_value { Some(s) => SqlData::Text(s), None => SqlData::Null },
            match event.new_value { Some(s) => SqlData::Text(s), None => SqlData::Null },
            match event.comment { Some(s) => SqlData::Text(s), None => SqlData::Null },
            SqlData::Text(event.created_at.text()),
        ],
    }
}

/// The statement that marks `issue_id` as pending export.
pub open spec fn dirty_statement(issue_id: Seq<char>, marked_at: Timestamp) -> SqlStatementData {
    SqlStatementData {
        sql: UPSERT_DIRTY@,
        params: seq![SqlData::Text(issue_id), SqlData::Text(marked_at.text())],
    }
}

/// The statement that empties the cache of blocked issues.
pub open spec fn clear_cache_statement() -> SqlStatementData {
    SqlStatementData { sql: CLEAR_BLOCKED_CACHE@, params: Seq::empty() }
}

/// The contents of a list of statements.
pub open spec fn statements_view(list: Seq<SqlStatement>) -> Seq<SqlStatementData> {
    Seq::new(list.len(), |i: int| list[i]@)
}

impl MutationContext {
    /// The ids marked dirty, as texts.
    pub open spec fn dirty(self) -> Seq<Seq<char>> {
        texts(self.dirty_ids@)
    }

    /// The events recorded so far.
    pub open spec fn journal(self) -> Seq<EventData> {
        Seq::new(self.events@.len(), |i: int| self.events@[i]@)
    }

    /// Every recorded event carries the actor and the time of the mutation,
    /// and no issue is marked dirty twice.
    pub open spec fn wf(self) -> bool {
        &&& forall|i: int| 0 <= i < self.events@.len() ==> {
            &&& (#[trigger] self.events@[i]).actor@ == self.actor@
            &&& self.events@[i].created_at == self.started_at
        }
        &&& self.dirty().no_duplicates()
    }

    /// What is written at commit, in order: the events as they were recorded,
    /// the dirty marks, and last, if the mutation asked for it, the statement
    /// that empties the cache of blocked issues.
    pub open spec fn commit_plan(self) -> Seq<SqlStatementData> {
        Seq::new(self.events@.len(), |i: int| event_statement(self.events@[i]@))
            + Seq::new(self.dirty_ids@.len(), |i: int| dirty_statement(self.dirty_ids@[i]@, self.started_at))
            + (if self.invalidate_blocked_cache { seq![clear_cache_statement()] } else { Seq::empty() })
    }

    /// A context with nothing recorded, started now.
    #[must_use]
    pub fn new(op_name: &str, actor: &str) -> (r: Self)
        ensures
            r.op_name@ == op_name@,
            r.actor@ == actor@,
            r.events@.len() == 0,
            r.dirty_ids@.len() == 0,
            !r.invalidate_blocked_cache,
            r.wf(),
    {
        MutationContext {
            op_name: op_name.to_owned(),
            actor: actor.to_owned(),
            events: Vec::new(),
            dirty_ids: Vec::new(),
            invalidate_blocked_cache: false,
            started_at: Timestamp::now(),
        }
    }

    /// Records an event on `issue_id` by the actor of the mutation, at the
    /// time of the mutation, with `details` as its comment.
    pub fn record_event(&mut self, event_type: EventType, issue_id: &str, details: Option<String>)
        ensures
            final(self).journal() == old(self).journal().push(
                EventData {
                    id: 0,
                    issue_id: issue_id@,
                    event_type: event_type,
                    actor: old(self).actor@,
                    old_value: None,
                    new_value: None,
                    comment: opt_text(details),
                    created_at: old(self).started_at,
                },
            ),
            final(self).op_name == old(self).op_name,
            final(self).actor == old(self).actor,
            final(self).dirty_ids == old(self).dirty_ids,
            final(self).invalidate_blocked_cache == old(self).invalidate_blocked_cache,
            final(self).started_at == old(self).started_at,
            old(self).wf() ==> final(self).wf(),
    {
        let event = Event {
            id: 0,
            issue_id: issue_id.to_owned(),
            event_type,
            actor: self.actor.clone(),
            old_value: None,
            new_value: None,
            comment: details,
            created_at: self.started_at,
        };
        self.events.push(event);
        assert(self.journal() =~= old(self).journal().push(event@));
    }

    /// Records a change of one field of `issue_id`, with the value before and
    /// the value after.
    pub fn record_change(
        &mut self,
        event_type: EventType,
        issue_id: &str,
        old_value: Option<String>,
        new_value: Option<String>,
    )
        ensures
            final(self).journal() == old(self).journal().push(
                EventData {
                    id: 0,
                    issue_id: issue_id@,
                    event_type: event_type,
                    actor: old(self).actor@,
                    old_value: opt_text(old_value),
                    new_value: opt_text(new_value),
                    comment: None,
                    created_at: old(self).started_at,
                },
            ),
            final(self).op_name == old(self).op_name,
            final(self).actor == old(self).actor,
            final(self).dirty_ids == old(self).dirty_ids,
            final(self).invalidate_blocked_cache == old(self).invalidate_blocked_cache,
            final(self).started_at == old(self).started_at,
            old(self).wf() ==> final(self).wf(),
    {
        let event = Event {
            id: 0,
            issue_id: issue_id.to_owned(),
            event_type,
            actor: self.actor.clone(),
            old_value,
            new_value,
            comment: None,
            created_at: self.started_at,
        };
        self.events.push(event);
        assert(self.journal() =~= old(self).journal().push(event@));
    }

    /// Marks `issue_id` as pending export.  Marking an issue twice marks it once.
    pub fn mark_dirty(&mut self, issue_id: &str)
        ensures
            final(self).dirty() == (if old(self).dirty().contains(issue_id@) {
                old(self).dirty()
            } else {
                old(self).dirty().push(issue_id@)
            }),
            final(self).op_name == old(self).op_name,
            final(self).actor == old(self).actor,
            final(self).events == old(self).events,
            final(self).invalidate_blocked_cache == old(self).invalidate_blocked_cache,
            final(self).started_at == old(self).started_at,
            old(self).dirty().no_duplicates() ==> final(self).dirty().no_duplicates(),
            old(self).wf() ==> final(self).wf(),
    {
        let mut i: usize = 0;
        while i < self.dirty_ids.len()
            invariant
                i <= self.dirty_ids.len(),
                *self == *old(self),
                forall|j: int| 0 <= j < i ==> self.dirty()[j] != issue_id@,
            decreases self.dirty_ids.len() - i,
        {
            if text_eq(self.dirty_ids[i].as_str(), issue_id) {
                assert(self.dirty()[i as int] == issue_id@);
                return;
            }
            i = i + 1;
        }
        self.dirty_ids.push(issue_id.to_owned());
        assert(final(self).dirty() =~= old(self).dirty().push(issue_id@));
    }

    /// Asks for the cache of blocked issues to be emptied at commit.
    pub fn invalidate_cache(&mut self)
        ensures
            final(self).invalidate_blocked_cache,
            final(self).op_name == old(self).op_name,
            final(self).actor == old(self).actor,
            final(self).events == old(self).events,
            final(self).dirty_ids == old(self).dirty_ids,
            final(self).started_at == old(self).started_at,
    {
        self.invalidate_blocked_cache = true;
    }

    /// The statements to run at commit.
    pub fn commit_statements(&self) -> (r: Vec<SqlStatement>)
        ensures
            statements_view(r@) == self.commit_plan(),
    {
        let mut out: Vec<SqlStatement> = Vec::new();
        let mut i: usize = 0;
        while i < self.events.len()
            invariant
                i <= self.events.len(),
                statements_view(out@) == Seq::new(i as nat, |k: int| event_statement(self.events@[k]@)),
            decreases self.events.len() - i,
        {
            let statement: SqlStatement = insert_event(&self.events[i]);
            let ghost before = out@;
            out.push(statement);
            assert(statements_view(out@) =~= statements_view(before).push(statement@));
            i = i + 1;
            assert(statements_view(out@) =~= Seq::new(i as nat, |k: int| event_statement(self.events@[k]@)));
        }
        let ghost events_part = statements_view(out@);
        let mut j: usize = 0;
        while j < self.dirty_ids.len()
            invariant
                j <= self.dirty_ids.len(),
                statements_view(out@) == events_part + Seq::new(
                    j as nat,
                    |k: int| dirty_statement(self.dirty_ids@[k]@, self.started_at),
                ),
            decreases self.dirty_ids.len() - j,
        {
            let statement: SqlStatement = upsert_dirty(self.dirty_ids[j].as_str(), &self.started_at);
            let ghost before = out@;
            out.push(statement);
            assert(statements_view(out@) =~= statements_view(before).push(statement@));
            j = j + 1;
            assert(statements_view(out@) =~= events_part + Seq::new(
                j as nat,
                |k: int| dirty_statement(self.dirty_ids@[k]@, self.started_at),
            ));
        }
        if self.invalidate_blocked_cache {
            let statement: SqlStatement = clear_blocked_cache();
            let ghost before = out@;
            out.push(statement);
            assert(statements_view(out@) =~= statements_view(before).push(statement@));
        }
        assert(statements_view(out@) =~= self.commit_plan());
        out
    }
}

/// Builds the statement that appends `event` to the journal.
pub fn insert_event(event: &Event) -> (r: SqlStatement)
    ensures
        r@ == event_statement(event@),
        !binds_real(r@.params),
{
    let mut params: Vec<SqlValue> = Vec::new();
    params.push(text_value(event.issue_id.as_str()));
    params.push(text_value(event.event_type.as_str()));
    params.push(text_value(event.actor.as_str()));
    params.push(optional_text_value(&event.old_value));
    params.push(optional_text_value(&event.new_value));
    params.push(optional_text_value(&event.comment));
    params.push(SqlValue::Text(event.created_at.to_rfc3339()));
    let r = SqlStatement { sql: INSERT_EVENT.to_owned(), params };
    assert(r@.params =~= event_statement(event@).params);
    r
}

/// Builds the statement that marks `issue_id` as pending export.
pub fn upsert_dirty(issue_id: &str, marked_at: &Timestamp) -> (r: SqlStatement)
    ensures
        r@ == dirty_statement(issue_id@, *marked_at),
        !binds_real(r@.params),
{
    let mut params: Vec<SqlValue> = Vec::new();
    params.push(text_value(issue_id));
    params.push(SqlValue::Text(marked_at.to_rfc3339()));
    let r = SqlStatement { sql: UPSERT_DIRTY.to_owned(), params };
    assert(r@.params =~= dirty_statement(issue_id@, *marked_at).params);
    r
}

/// Builds the statement that empties the cache of blocked issues.
pub fn clear_blocked_cache() -> (r: SqlStatement)
    ensures
        r@ == clear_cache_statement(),
        !binds_real(r@.params),
{
    let r = SqlStatement { sql: CLEAR_BLOCKED_CACHE.to_owned(), params: Vec::new() };
    assert(r@.params =~= clear_cache_statement().params);
    r
}

/// A mutation that asked for the cache of blocked issues to be emptied ends
/// its transaction with the statement that empties it: nothing that the
/// mutation writes comes after, so the cache is empty when the transaction
/// commits.
pub proof fn invalidation_is_written_last(ctx: MutationContext)
    requires
        ctx.invalidate_blocked_cache,
    ensures
        ctx.commit_plan().len() == ctx.events@.len() + ctx.dirty_ids@.len() + 1,
        ctx.commit_plan().last() == clear_cache_statement(),
{
}

/// A mutation that did not ask for it leaves the cache of blocked issues alone.
pub proof fn cache_kept_without_invalidation(ctx: MutationContext, i: int)
    requires
        !ctx.invalidate_blocked_cache,
        0 <= i < ctx.commit_plan().len(),
    ensures
        ctx.commit_plan()[i].sql != CLEAR_BLOCKED_CACHE@,
{
    reveal_strlit("INSERT INTO events (issue_id, event_type, actor, old_value, new_value, comment, created_at) VALUES (?, ?, ?, ?, ?, ?, ?)");
    reveal_strlit("INSERT OR REPLACE INTO dirty_issues (issue_id, marked_at) VALUES (?, ?)");
    reveal_strlit("DELETE FROM blocked_issues_cache");
    assert(INSERT_EVENT@[0] == 'I');
    assert(UPSERT_DIRTY@[0] == 'I');
    assert(CLEAR_BLOCKED_CACHE@[0] == 'D');
}

/// Every event of a mutation is written to the journal in the order in which
/// it was recorded, under the actor of the mutation and with the time of the
/// mutation, and every issue marked dirty is marked with that same time.
pub proof fn journal_is_written_in_order(ctx: MutationContext, i: int)
    requires
        ctx.wf(),
        0 <= i < ctx.events@.len(),
    ensures
        ctx.commit_plan()[i] == event_statement(ctx.journal()[i]),
        ctx.commit_plan()[i].params[2] == SqlData::Text(ctx.actor@),
        ctx.commit_plan()[i].params[6] == SqlData::Text(ctx.started_at.text()),
{
}

/// The statements that close, reopen and delete an issue stamp it with the
/// time of the mutation as the time of its last update, and every event of
/// the mutation is written with that same time: an event is never older than
/// the change it records.
pub proof fn events_share_the_time_of_the_change(
    ctx: MutationContext,
    id: Seq<char>,
    actor: Seq<char>,
    reason: Seq<char>,
    original_type: Seq<char>,
    i: int,
)
    requires
        ctx.wf(),
        0 <= i < ctx.events@.len(),
    ensures
        ctx.commit_plan()[i].params[6] == tombstone_statement(id, actor, reason, original_type, ctx.started_at).params[4],
        ctx.commit_plan()[i].params[6] == tombstone_living_statement(id, actor, reason, ctx.started_at).params[3],
        ctx.commit_plan()[i].params[6] == close_statement(id, Some(reason), ctx.started_at).params[2],
        ctx.commit_plan()[i].params[6] == reopen_statement(id, ctx.started_at).params[0],
{
}

/// An issue that is written as it was handed in, as a new issue is, has no
/// event older than its last update, so long as that update is not dated
/// after the mutation.
pub proof fn event_is_no_older_than_the_issue(ctx: MutationContext, last_update: Timestamp, i: int)
    requires
        ctx.wf(),
        0 <= i < ctx.events@.len(),
        last_update.at_or_before(ctx.started_at),
    ensures
        last_update.at_or_before(ctx.journal()[i].created_at),
{
}

/// Nothing that is written at commit binds a floating-point value, so the
/// statements of a commit fail only where the database fails.
pub proof fn commit_plan_can_be_bound(ctx: MutationContext, i: int)
    requires
        0 <= i < ctx.commit_plan().len(),
    ensures
        !binds_real(ctx.commit_plan()[i].params),
{
    let params = ctx.commit_plan()[i].params;
    assert forall|k: int| 0 <= k < params.len() implies !(#[trigger] params[k] is Real) by {}
}

} // verus!
