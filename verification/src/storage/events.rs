//! Reading the event journal.

use vstd::prelude::*;
use crate::error::{BeadsError, schema_error};
use crate::model::{Event, EventData, EventType};
use crate::storage::query::limit_clause;
use crate::storage::rows::{
    column_int, column_optional_text, column_text, int_at, optional_text_at, rows_view, text_at,
};
use crate::storage::sql::{
    SqlData, SqlStatement, SqlStatementData, SqlValue, binds_real, text_value, values_view,
};
use crate::storage::sqlite::fetch_all;
use crate::text::format_decimal;
use crate::time::{Timestamp, parse_datetime, stored_instant};

verus! {

pub const SELECT_EVENTS: &'static str = "SELECT id, issue_id, event_type, actor, old_value, new_value, comment, created_at FROM events WHERE issue_id = ? ORDER BY created_at ASC, id ASC";

/// The statement that reads the events of an issue, oldest first; at most
/// `limit` of them where `limit` is not 0.
pub open spec fn events_statement(issue_id: Seq<char>, limit: usize) -> SqlStatementData {
    SqlStatementData {
        sql: SELECT_EVENTS@ + limit_clause(Some(limit)),
        params: seq![SqlData::Text(issue_id)],
    }
}

/// Builds the statement that reads the events of an issue.
pub fn select_events(issue_id: &str, limit: usize) -> (r: SqlStatement)
    ensures
        r@ == events_statement(issue_id@, limit),
        !binds_real(r@.params),
{
    let mut sql: String = SELECT_EVENTS.to_owned();
    if limit > 0 {
        sql.append(" LIMIT ");
        let number: String = format_decimal(limit as u64);
        sql.append(number.as_str());
    }
    assert(sql@ =~= SELECT_EVENTS@ + limit_clause(Some(limit)));
    let mut params: Vec<SqlValue> = Vec::new();
    params.push(text_value(issue_id));
    let r = SqlStatement { sql, params };
    assert(r@.params =~= events_statement(issue_id@, limit).params);
    r
}

/// Whether a row can be decoded as an event: the columns of `SELECT_EVENTS`
/// hold what the schema promises, and the type is one that the journal knows.
pub open spec fn event_row_ok(row: Seq<SqlData>) -> bool {
    &&& int_at(row, 0) is Some
    &&& text_at(row, 1) is Some
    &&& text_at(row, 2) is Some
    &&& EventType::from_text(text_at(row, 2)->Some_0) is Some
    &&& text_at(row, 3) is Some
    &&& optional_text_at(row, 4) is Some
    &&& optional_text_at(row, 5) is Some
    &&& optional_text_at(row, 6) is Some
    &&& text_at(row, 7) is Some
}

/// The event that a row stands for.
pub open spec fn decoded_event(row: Seq<SqlData>, now: Timestamp) -> EventData {
    EventData {
        id: int_at(row, 0)->Some_0,
        issue_id: text_at(row, 1)->Some_0,
        event_type: EventType::from_text(text_at(row, 2)->Some_0)->Some_0,
        actor: text_at(row, 3)->Some_0,
        old_value: optional_text_at(row, 4)->Some_0,
        new_value: optional_text_at(row, 5)->Some_0,
        comment: optional_text_at(row, 6)->Some_0,
        created_at: stored_instant(text_at(row, 7)->Some_0, now),
    }
}

/// Decodes a row of `SELECT_EVENTS`.
pub fn event_from_row(row: &Vec<SqlValue>, now: Timestamp) -> (r: Result<Event, BeadsError>)
    ensures
        event_row_ok(values_view(row@)) ==> (r matches Ok(event) && event@ == decoded_event(
            values_view(row@),
            now,
        )),
        !event_row_ok(values_view(row@)) ==> r matches Err(BeadsError::SchemaError { .. }),
{
    let id: i64 = column_int(row, 0)?;
    let issue_id: String = column_text(row, 1)?;
    let type_text: String = column_text(row, 2)?;
    let event_type: EventType = match EventType::parse(type_text.as_str()) {
        Some(t) => t,
        None => {
            return Err(schema_error("the journal holds an event of an unknown type"));
        },
    };
    let actor: String = column_text(row, 3)?;
    let old_value: Option<String> = column_optional_text(row, 4)?;
    let new_value: Option<String> = column_optional_text(row, 5)?;
    let comment: Option<String> = column_optional_text(row, 6)?;
    let created_text: String = column_text(row, 7)?;
    let created_at: Timestamp = parse_datetime(created_text.as_str(), now);
    Ok(Event { id, issue_id, event_type, actor, old_value, new_value, comment, created_at })
}

/// Whether every row of an answer can be decoded as an event.
pub open spec fn event_rows_ok(rows: Seq<Seq<SqlData>>) -> bool {
    forall|i: int| 0 <= i < rows.len() ==> event_row_ok(#[trigger] rows[i])
}

/// Decodes the answer to `SELECT_EVENTS`, row by row.
pub fn events_from_rows(rows: &Vec<Vec<SqlValue>>, now: Timestamp) -> (r: Result<Vec<Event>, BeadsError>)
    ensures
        event_rows_ok(rows_view(rows@)) ==> (r matches Ok(list) && list@.len() == rows@.len()
            && forall|i: int| 0 <= i < list@.len() ==> (#[trigger] list@[i])@ == decoded_event(
            rows_view(rows@)[i],
            now,
        )),
        !event_rows_ok(rows_view(rows@)) ==> r matches Err(BeadsError::SchemaError { .. }),
{
    let mut out: Vec<Event> = Vec::new();
    let mut i: usize = 0;
    while i < rows.len()
        invariant
            i <= rows.len(),
            out@.len() == i,
            forall|k: int| 0 <= k < i ==> event_row_ok(#[trigger] rows_view(rows@)[k]),
            forall|k: int| 0 <= k < i ==> (#[trigger] out@[k])@ == decoded_event(rows_view(rows@)[k], now),
        decreases rows.len() - i,
    {
        assert(rows_view(rows@)[i as int] == values_view(rows@[i as int]@));
        let event: Event = event_from_row(&rows[i], now)?;
        out.push(event);
        i = i + 1;
    }
    Ok(out)
}

/// Reads the events of an issue, oldest first; at most `limit` of them where
/// `limit` is not 0.
pub fn get_events(conn: &rusqlite::Connection, issue_id: &str, limit: usize) -> (r: Result<Vec<Event>, BeadsError>)
    ensures
        r matches Err(e) ==> e.from_storage(),
        r matches Ok(events) ==> (limit > 0 ==> events@.len() <= limit),
{
    let rows: Vec<Vec<SqlValue>> = fetch_all(conn, &select_events(issue_id, limit))?;
    let events: Vec<Event> = events_from_rows(&rows, Timestamp::now())?;
    Ok(first_events(events, limit))
}

/// The first `limit` events of a list, where the limit is above 0; all of
/// them otherwise.
pub fn first_events(events: Vec<Event>, limit: usize) -> (r: Vec<Event>)
    ensures
        r@ == (if 0 < limit < events@.len() {
            events@.take(limit as int)
        } else {
            events@
        }),
{
    let mut events: Vec<Event> = events;
    if 0 < limit && limit < events.len() {
        let ghost whole = events@;
        events.truncate(limit);
        assert(events@ =~= whole.take(limit as int));
    }
    events
}

pub const SELECT_JOURNAL: &'static str = "SELECT id, issue_id, event_type, actor, old_value, new_value, comment, created_at FROM events WHERE 1=1";

/// Which events of the journal to list.  A filter that is `None` lets every
/// event pass; a limit of 0 is no limit.
#[derive(Debug, Clone, Default)]
pub struct EventFilters {
    pub issue_id: Option<String>,
    pub event_type: Option<EventType>,
    pub actor: Option<String>,
    pub limit: usize,
}

/// The statement that lists the events passing `f`, oldest first.
pub open spec fn journal_statement(f: EventFilters) -> SqlStatementData {
    SqlStatementData {
        sql: SELECT_JOURNAL@ + (if f.issue_id is Some { " AND issue_id = ?"@ } else { Seq::empty() }) + (if f.event_type is Some {
            " AND event_type = ?"@
        } else {
            Seq::empty()
        }) + (if f.actor is Some { " AND actor = ?"@ } else { Seq::empty() })
            + " ORDER BY created_at ASC, id ASC"@ + limit_clause(Some(f.limit)),
        params: (match f.issue_id {
            Some(id) => seq![SqlData::Text(id@)],
            None => Seq::empty(),
        }) + (match f.event_type {
            Some(t) => seq![SqlData::Text(t.text())],
            None => Seq::empty(),
        }) + (match f.actor {
            Some(a) => seq![SqlData::Text(a@)],
            None => Seq::empty(),
        }),
    }
}

/// Builds the statement that lists the events passing `filters`.
pub fn select_journal(filters: &EventFilters) -> (r: SqlStatement)
    ensures
        r@ == journal_statement(*filters),
        !binds_real(r@.params),
{
    let mut sql: String = SELECT_JOURNAL.to_owned();
    let mut params: Vec<SqlValue> = Vec::new();
    if let Some(id) = &filters.issue_id {
        sql.append(" AND issue_id = ?");
        params.push(text_value(id.as_str()));
    }
    if let Some(event_type) = &filters.event_type {
        sql.append(" AND event_type = ?");
        params.push(text_value(event_type.as_str()));
    }
    if let Some(actor) = &filters.actor {
        sql.append(" AND actor = ?");
        params.push(text_value(actor.as_str()));
    }
    sql.append(" ORDER BY created_at ASC, id ASC");
    if filters.limit > 0 {
        sql.append(" LIMIT ");
        let number: String = format_decimal(filters.limit as u64);
        sql.append(number.as_str());
    }
    assert(sql@ =~= journal_statement(*filters).sql);
    let r = SqlStatement { sql, params };
    assert(r@.params =~= journal_statement(*filters).params);
    r
}

/// Lists the events of the journal that pass `filters`, oldest first.
pub fn list_events(conn: &rusqlite::Connection, filters: &EventFilters) -> (r: Result<Vec<Event>, BeadsError>)
    ensures
        r matches Err(e) ==> e.from_storage(),
        r matches Ok(events) ==> (filters.limit > 0 ==> events@.len() <= filters.limit),
{
    let rows: Vec<Vec<SqlValue>> = fetch_all(conn, &select_journal(filters))?;
    let events: Vec<Event> = events_from_rows(&rows, Timestamp::now())?;
    Ok(first_events(events, filters.limit))
}

} // verus!
