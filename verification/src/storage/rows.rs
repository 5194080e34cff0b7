//! Decoding of query results.  A row is the list of its column values; a
//! column that does not hold what the schema promises makes the row a
//! `SchemaError`.

use vstd::prelude::*;
use crate::error::{BeadsError, schema_error};
use crate::format::{DependencyMetadataData, IssueWithDependencyMetadata};
use crate::graph::{Edge, edge_pairs};
use crate::model::{
    Comment, CommentData, Dependency, DependencyData, DependencyType, Issue, IssueData, IssueType,
    Priority, Status,
};
use crate::storage::sql::{SqlData, SqlValue, values_view};
use crate::text::{in_order, ordered, sort_texts, texts_in_order_are_ordered};
use crate::time::{Timestamp, parse_datetime, stored_instant};

verus! {

/// The text in column `i`; `None` where the row has no such column or the
/// column holds no text.
pub open spec fn text_at(row: Seq<SqlData>, i: int) -> Option<Seq<char>> {
    if 0 <= i < row.len() {
        match row[i] {
            SqlData::Text(s) => Some(s),
            _ => None,
        }
    } else {
        None
    }
}

/// The text or `NULL` in column `i`; `None` where the row has no such column
/// or the column holds anything else.
pub open spec fn optional_text_at(row: Seq<SqlData>, i: int) -> Option<Option<Seq<char>>> {
    if 0 <= i < row.len() {
        match row[i] {
            SqlData::Text(s) => Some(Some(s)),
            SqlData::Null => Some(None),
            _ => None,
        }
    } else {
        None
    }
}

/// The 32-bit integer or `NULL` in column `i`; `None` where the row has no
/// such column or the column holds anything else, a wider integer included.
pub open spec fn optional_int_at(row: Seq<SqlData>, i: int) -> Option<Option<i32>> {
    if 0 <= i < row.len() {
        match row[i] {
            SqlData::Integer(v) => if i32::MIN <= v <= i32::MAX {
                Some(Some(v as i32))
            } else {
                None
            },
            SqlData::Null => Some(None),
            _ => None,
        }
    } else {
        None
    }
}

/// The 64-bit integer in column `i`.
pub open spec fn int_at(row: Seq<SqlData>, i: int) -> Option<int> {
    if 0 <= i < row.len() {
        match row[i] {
            SqlData::Integer(v) => Some(v),
            _ => None,
        }
    } else {
        None
    }
}

/// The status that a stored column stands for: `open` where it is `NULL` or
/// spells no status.
pub open spec fn stored_status(text: Option<Seq<char>>) -> Status {
    match text {
        Some(s) => match Status::from_text(s) {
            Some(status) => status,
            None => Status::Open,
        },
        None => Status::Open,
    }
}

/// The issue type that a stored column stands for: `task` where it is `NULL`
/// or spells no type.
pub open spec fn stored_issue_type(text: Option<Seq<char>>) -> IssueType {
    match text {
        Some(s) => match IssueType::from_text(s) {
            Some(issue_type) => issue_type,
            None => IssueType::Task,
        },
        None => IssueType::Task,
    }
}

/// The priority that a stored column stands for: 2 where it is `NULL`.
pub open spec fn stored_priority(level: Option<i32>) -> Priority {
    match level {
        Some(v) => Priority(v),
        None => Priority(2),
    }
}

/// The flag that a stored column stands for: set where it is a number other
/// than 0.
pub open spec fn stored_flag(value: Option<i32>) -> bool {
    match value {
        Some(v) => v != 0,
        None => false,
    }
}

pub open spec fn stored_optional_instant(text: Option<Seq<char>>, fallback: Timestamp) -> Option<Timestamp> {
    match text {
        Some(s) => Some(stored_instant(s, fallback)),
        None => None,
    }
}

pub open spec fn as_text_spec(value: Option<String>) -> Option<Seq<char>> {
    match value {
        Some(s) => Some(s@),
        None => None,
    }
}

pub fn parse_status(s: Option<&str>) -> (r: Status)
    ensures
        r == stored_status(match s { Some(t) => Some(t@), None => None }),
{
    match s {
        Some(t) => match Status::parse(t) {
            Some(status) => status,
            None => Status::Open,
        },
        None => Status::Open,
    }
}

pub fn parse_issue_type(s: Option<&str>) -> (r: IssueType)
    ensures
        r == stored_issue_type(match s { Some(t) => Some(t@), None => None }),
{
    match s {
        Some(t) => match IssueType::parse(t) {
            Some(issue_type) => issue_type,
            None => IssueType::Task,
        },
        None => IssueType::Task,
    }
}

fn as_text(value: &Option<String>) -> (r: Option<&str>)
    ensures
        (match r { Some(t) => Some(t@), None => None }) == as_text_spec(*value),
{
    match value {
        Some(s) => Some(s.as_str()),
        None => None,
    }
}

fn priority_or_default(level: Option<i32>) -> (r: Priority)
    ensures
        r == stored_priority(level),
{
    match level {
        Some(v) => Priority(v),
        None => Priority(2),
    }
}

fn flag_or_default(value: Option<i32>) -> (r: bool)
    ensures
        r == stored_flag(value),
{
    match value {
        Some(v) => v != 0,
        None => false,
    }
}

fn optional_datetime(text: &Option<String>, fallback: Timestamp) -> (r: Option<Timestamp>)
    ensures
        r == stored_optional_instant(as_text_spec(*text), fallback),
{
    match text {
        Some(s) => Some(parse_datetime(s.as_str(), fallback)),
        None => None,
    }
}

/// Reads the text in column `i`.
pub fn column_text(row: &Vec<SqlValue>, i: usize) -> (r: Result<String, BeadsError>)
    ensures
        match text_at(values_view(row@), i as int) {
            Some(s) => r matches Ok(t) && t@ == s,
            None => r matches Err(BeadsError::SchemaError { .. }),
        },
{
    if i < row.len() {
        match &row[i] {
            SqlValue::Text(s) => Ok(s.clone()),
            _ => Err(schema_error("a column that must hold text holds something else")),
        }
    } else {
        Err(schema_error("a row is shorter than its statement promises"))
    }
}

/// Reads the text or `NULL` in column `i`.
pub fn column_optional_text(row: &Vec<SqlValue>, i: usize) -> (r: Result<Option<String>, BeadsError>)
    ensures
        match optional_text_at(values_view(row@), i as int) {
            Some(s) => r matches Ok(t) && as_text_spec(t) == s,
            None => r matches Err(BeadsError::SchemaError { .. }),
        },
{
    if i < row.len() {
        match &row[i] {
            SqlValue::Text(s) => Ok(Some(s.clone())),
            SqlValue::Null => Ok(None),
            _ => Err(schema_error("a column that may hold text holds something else")),
        }
    } else {
        Err(schema_error("a row is shorter than its statement promises"))
    }
}

/// Reads the 32-bit integer or `NULL` in column `i`.
pub fn column_optional_int(row: &Vec<SqlValue>, i: usize) -> (r: Result<Option<i32>, BeadsError>)
    ensures
        match optional_int_at(values_view(row@), i as int) {
            Some(v) => r == Ok::<Option<i32>, BeadsError>(v),
            None => r matches Err(BeadsError::SchemaError { .. }),
        },
{
    if i < row.len() {
        match &row[i] {
            SqlValue::Integer(v) => {
                if -2147483648 <= *v && *v <= 2147483647 {
                    Ok(Some(*v as i32))
                } else {
                    Err(schema_error("a column holds an integer wider than 32 bits"))
                }
            },
            SqlValue::Null => Ok(None),
            _ => Err(schema_error("a column that may hold an integer holds something else")),
        }
    } else {
        Err(schema_error("a row is shorter than its statement promises"))
    }
}

/// Reads the 64-bit integer in column `i`.
pub fn column_int(row: &Vec<SqlValue>, i: usize) -> (r: Result<i64, BeadsError>)
    ensures
        match int_at(values_view(row@), i as int) {
            Some(v) => r == Ok::<i64, BeadsError>(v as i64) && v == (v as i64) as int,
            None => r matches Err(BeadsError::SchemaError { .. }),
        },
{
    if i < row.len() {
        match &row[i] {
            SqlValue::Integer(v) => Ok(*v),
            _ => Err(schema_error("a column that must hold an integer holds something else")),
        }
    } else {
        Err(schema_error("a row is shorter than its statement promises"))
    }
}

/// Whether a row can be decoded as an issue: each of the 35 columns of
/// `SELECT_ISSUES` holds what the schema promises.
pub open spec fn issue_row_ok(row: Seq<SqlData>) -> bool {
    &&& text_at(row, 0) is Some
    &&& optional_text_at(row, 1) is Some
    &&& text_at(row, 2) is Some
    &&& optional_text_at(row, 3) is Some
    &&& optional_text_at(row, 4) is Some
    &&& optional_text_at(row, 5) is Some
    &&& optional_text_at(row, 6) is Some
    &&& optional_text_at(row, 7) is Some
    &&& optional_int_at(row, 8) is Some
    &&& optional_text_at(row, 9) is Some
    &&& optional_text_at(row, 10) is Some
    &&& optional_text_at(row, 11) is Some
    &&& optional_int_at(row, 12) is Some
    &&& text_at(row, 13) is Some
    &&& optional_text_at(row, 14) is Some
    &&& text_at(row, 15) is Some
    &&& optional_text_at(row, 16) is Some
    &&& optional_text_at(row, 17) is Some
    &&& optional_text_at(row, 18) is Some
    &&& optional_text_at(row, 19) is Some
    &&& optional_text_at(row, 20) is Some
    &&& optional_text_at(row, 21) is Some
    &&& optional_text_at(row, 22) is Some
    &&& optional_text_at(row, 23) is Some
    &&& optional_text_at(row, 24) is Some
    &&& optional_text_at(row, 25) is Some
    &&& optional_text_at(row, 26) is Some
    &&& optional_int_at(row, 27) is Some
    &&& optional_text_at(row, 28) is Some
    &&& optional_text_at(row, 29) is Some
    &&& optional_int_at(row, 30) is Some
    &&& optional_text_at(row, 31) is Some
    &&& optional_int_at(row, 32) is Some
    &&& optional_int_at(row, 33) is Some
    &&& optional_int_at(row, 34) is Some
}

/// The issue that a row stands for.  A timestamp that is not RFC 3339 is read
/// as `now`; labels, dependencies and comments are not part of the row.
pub open spec fn decoded_issue(row: Seq<SqlData>, now: Timestamp) -> IssueData {
    IssueData {
        id: text_at(row, 0)->Some_0,
        content_hash: optional_text_at(row, 1)->Some_0,
        title: text_at(row, 2)->Some_0,
        description: optional_text_at(row, 3)->Some_0,
        design: optional_text_at(row, 4)->Some_0,
        acceptance_criteria: optional_text_at(row, 5)->Some_0,
        notes: optional_text_at(row, 6)->Some_0,
        status: stored_status(optional_text_at(row, 7)->Some_0),
        priority: stored_priority(optional_int_at(row, 8)->Some_0),
        issue_type: stored_issue_type(optional_text_at(row, 9)->Some_0),
        assignee: optional_text_at(row, 10)->Some_0,
        owner: optional_text_at(row, 11)->Some_0,
        estimated_minutes: optional_int_at(row, 12)->Some_0,
        created_at: stored_instant(text_at(row, 13)->Some_0, now),
        created_by: optional_text_at(row, 14)->Some_0,
        updated_at: stored_instant(text_at(row, 15)->Some_0, now),
        closed_at: stored_optional_instant(optional_text_at(row, 16)->Some_0, now),
        close_reason: optional_text_at(row, 17)->Some_0,
        closed_by_session: optional_text_at(row, 18)->Some_0,
        due_at: stored_optional_instant(optional_text_at(row, 19)->Some_0, now),
        defer_until: stored_optional_instant(optional_text_at(row, 20)->Some_0, now),
        external_ref: optional_text_at(row, 21)->Some_0,
        source_system: optional_text_at(row, 22)->Some_0,
        deleted_at: stored_optional_instant(optional_text_at(row, 23)->Some_0, now),
        deleted_by: optional_text_at(row, 24)->Some_0,
        delete_reason: optional_text_at(row, 25)->Some_0,
        original_type: optional_text_at(row, 26)->Some_0,
        compaction_level: optional_int_at(row, 27)->Some_0,
        compacted_at: stored_optional_instant(optional_text_at(row, 28)->Some_0, now),
        compacted_at_commit: optional_text_at(row, 29)->Some_0,
        original_size: optional_int_at(row, 30)->Some_0,
        sender: optional_text_at(row, 31)->Some_0,
        ephemeral: stored_flag(optional_int_at(row, 32)->Some_0),
        pinned: stored_flag(optional_int_at(row, 33)->Some_0),
        is_template: stored_flag(optional_int_at(row, 34)->Some_0),
        labels: Seq::empty(),
        dependencies: Seq::empty(),
        comments: Seq::empty(),
    }
}

/// Whether a time is read back from its text as it is.
pub open spec fn reads_back(time: Timestamp, now: Timestamp) -> bool {
    stored_instant(time.text(), now) == time
}

/// Whether a time that may be absent is read back from its text as it is.
pub open spec fn reads_back_if_set(time: Option<Timestamp>, now: Timestamp) -> bool {
    time matches Some(t) ==> reads_back(t, now)
}

/// Whether every time of the issue is read back from its text as it is.
pub open spec fn times_read_back(issue: IssueData, now: Timestamp) -> bool {
    &&& reads_back(issue.created_at, now)
    &&& reads_back(issue.updated_at, now)
    &&& reads_back_if_set(issue.closed_at, now)
    &&& reads_back_if_set(issue.due_at, now)
    &&& reads_back_if_set(issue.defer_until, now)
    &&& reads_back_if_set(issue.deleted_at, now)
    &&& reads_back_if_set(issue.compacted_at, now)
}

/// The row that is written for an issue is read as the issue, without its
/// labels, dependencies and comments, which other tables hold: every column
/// is read back as it was written, provided that the times are read back
/// from their texts as they are.
pub proof fn written_row_is_read_as_the_issue(issue: IssueData, now: Timestamp)
    requires
        times_read_back(issue, now),
    ensures
        issue_row_ok(crate::storage::statements::write_issue_statement(issue).params),
        decoded_issue(crate::storage::statements::write_issue_statement(issue).params, now) == (IssueData {
            labels: Seq::empty(),
            dependencies: Seq::empty(),
            comments: Seq::empty(),
            ..issue
        }),
{
    let row = crate::storage::statements::write_issue_statement(issue).params;
    let back = decoded_issue(row, now);
    crate::model::status_text_round_trip(issue.status);
    crate::model::issue_type_text_round_trip(issue.issue_type);
    assert(row.len() == 35);
    assert(text_at(row, 0) == Some(issue.id));
    assert(text_at(row, 2) == Some(issue.title));
    assert(optional_text_at(row, 1) == Some(issue.content_hash));
    assert(optional_text_at(row, 3) == Some(issue.description));
    assert(optional_text_at(row, 4) == Some(issue.design));
    assert(optional_text_at(row, 5) == Some(issue.acceptance_criteria));
    assert(optional_text_at(row, 6) == Some(issue.notes));
    assert(optional_text_at(row, 10) == Some(issue.assignee));
    assert(optional_text_at(row, 11) == Some(issue.owner));
    assert(optional_text_at(row, 14) == Some(issue.created_by));
    assert(optional_text_at(row, 17) == Some(issue.close_reason));
    assert(optional_text_at(row, 18) == Some(issue.closed_by_session));
    assert(optional_text_at(row, 21) == Some(issue.external_ref));
    assert(optional_text_at(row, 22) == Some(issue.source_system));
    assert(optional_text_at(row, 24) == Some(issue.deleted_by));
    assert(optional_text_at(row, 25) == Some(issue.delete_reason));
    assert(optional_text_at(row, 26) == Some(issue.original_type));
    assert(optional_text_at(row, 29) == Some(issue.compacted_at_commit));
    assert(optional_text_at(row, 31) == Some(issue.sender));
    assert(optional_text_at(row, 7) == Some(Some(issue.status.text())));
    assert(optional_int_at(row, 8) == Some(Some(issue.priority.0)));
    assert(optional_text_at(row, 9) == Some(Some(issue.issue_type.text())));
    assert(optional_int_at(row, 12) == Some(issue.estimated_minutes));
    assert(optional_int_at(row, 27) == Some(issue.compaction_level));
    assert(optional_int_at(row, 30) == Some(issue.original_size));
    assert(text_at(row, 13) == Some(issue.created_at.text()));
    assert(text_at(row, 15) == Some(issue.updated_at.text()));
    assert(stored_optional_instant(optional_text_at(row, 16)->Some_0, now) == issue.closed_at && optional_text_at(row, 16) is Some);
    assert(stored_optional_instant(optional_text_at(row, 19)->Some_0, now) == issue.due_at && optional_text_at(row, 19) is Some);
    assert(stored_optional_instant(optional_text_at(row, 20)->Some_0, now) == issue.defer_until && optional_text_at(row, 20) is Some);
    assert(stored_optional_instant(optional_text_at(row, 23)->Some_0, now) == issue.deleted_at && optional_text_at(row, 23) is Some);
    assert(stored_optional_instant(optional_text_at(row, 28)->Some_0, now) == issue.compacted_at && optional_text_at(row, 28) is Some);
    assert(optional_int_at(row, 32) is Some && stored_flag(optional_int_at(row, 32)->Some_0) == issue.ephemeral);
    assert(optional_int_at(row, 33) is Some && stored_flag(optional_int_at(row, 33)->Some_0) == issue.pinned);
    assert(optional_int_at(row, 34) is Some && stored_flag(optional_int_at(row, 34)->Some_0) == issue.is_template);
}

/// Decodes a row of `SELECT_ISSUES`.
pub fn issue_from_row(row: &Vec<SqlValue>, now: Timestamp) -> (r: Result<Issue, BeadsError>)
    ensures
        issue_row_ok(values_view(row@)) ==> (r matches Ok(issue) && issue@ == decoded_issue(
            values_view(row@),
            now,
        )),
        !issue_row_ok(values_view(row@)) ==> r matches Err(BeadsError::SchemaError { .. }),
{
    let id: String = column_text(row, 0)?;
    let content_hash: Option<String> = column_optional_text(row, 1)?;
    let title: String = column_text(row, 2)?;
    let description: Option<String> = column_optional_text(row, 3)?;
    let design: Option<String> = column_optional_text(row, 4)?;
    let acceptance_criteria: Option<String> = column_optional_text(row, 5)?;
    let notes: Option<String> = column_optional_text(row, 6)?;
    let status_text: Option<String> = column_optional_text(row, 7)?;
    let status: Status = parse_status(as_text(&status_text));
    let priority: Priority = priority_or_default(column_optional_int(row, 8)?);
    let issue_type_text: Option<String> = column_optional_text(row, 9)?;
    let issue_type: IssueType = parse_issue_type(as_text(&issue_type_text));
    let assignee: Option<String> = column_optional_text(row, 10)?;
    let owner: Option<String> = column_optional_text(row, 11)?;
    let estimated_minutes: Option<i32> = column_optional_int(row, 12)?;
    let created_at_text: String = column_text(row, 13)?;
    let created_at: Timestamp = parse_datetime(created_at_text.as_str(), now);
    let created_by: Option<String> = column_optional_text(row, 14)?;
    let updated_at_text: String = column_text(row, 15)?;
    let updated_at: Timestamp = parse_datetime(updated_at_text.as_str(), now);
    let closed_at: Option<Timestamp> = optional_datetime(&column_optional_text(row, 16)?, now);
    let close_reason: Option<String> = column_optional_text(row, 17)?;
    let closed_by_session: Option<String> = column_optional_text(row, 18)?;
    let due_at: Option<Timestamp> = optional_datetime(&column_optional_text(row, 19)?, now);
    let defer_until: Option<Timestamp> = optional_datetime(&column_optional_text(row, 20)?, now);
    let external_ref: Option<String> = column_optional_text(row, 21)?;
    let source_system: Option<String> = column_optional_text(row, 22)?;
    let deleted_at: Option<Timestamp> = optional_datetime(&column_optional_text(row, 23)?, now);
    let deleted_by: Option<String> = column_optional_text(row, 24)?;
    let delete_reason: Option<String> = column_optional_text(row, 25)?;
    let original_type: Option<String> = column_optional_text(row, 26)?;
    let compaction_level: Option<i32> = column_optional_int(row, 27)?;
    let compacted_at: Option<Timestamp> = optional_datetime(&column_optional_text(row, 28)?, now);
    let compacted_at_commit: Option<String> = column_optional_text(row, 29)?;
    let original_size: Option<i32> = column_optional_int(row, 30)?;
    let sender: Option<String> = column_optional_text(row, 31)?;
    let ephemeral: bool = flag_or_default(column_optional_int(row, 32)?);
    let pinned: bool = flag_or_default(column_optional_int(row, 33)?);
    let is_template: bool = flag_or_default(column_optional_int(row, 34)?);
    let issue = Issue {
        id,
        content_hash,
        title,
        description,
        design,
        acceptance_criteria,
        notes,
        status,
        priority,
        issue_type,
        assignee,
        owner,
        estimated_minutes,
        created_at,
        created_by,
        updated_at,
        closed_at,
        close_reason,
        closed_by_session,
        due_at,
        defer_until,
        external_ref,
        source_system,
        deleted_at,
        deleted_by,
        delete_reason,
        original_type,
        compaction_level,
        compacted_at,
        compacted_at_commit,
        original_size,
        sender,
        ephemeral,
        pinned,
        is_template,
        labels: Vec::new(),
        dependencies: Vec::new(),
        comments: Vec::new(),
    };
    assert(issue@.labels =~= Seq::empty());
    assert(issue@.dependencies =~= Seq::empty());
    assert(issue@.comments =~= Seq::empty());
    Ok(issue)
}

/// Whether a row can be decoded as a comment: id, issue, author, text and
/// time, in this order.
pub open spec fn comment_row_ok(row: Seq<SqlData>) -> bool {
    &&& int_at(row, 0) is Some
    &&& text_at(row, 1) is Some
    &&& text_at(row, 2) is Some
    &&& text_at(row, 3) is Some
    &&& text_at(row, 4) is Some
}

/// The comment that a row stands for.
pub open spec fn decoded_comment(row: Seq<SqlData>, now: Timestamp) -> CommentData {
    CommentData {
        id: int_at(row, 0)->Some_0,
        issue_id: text_at(row, 1)->Some_0,
        author: text_at(row, 2)->Some_0,
        body: text_at(row, 3)->Some_0,
        created_at: stored_instant(text_at(row, 4)->Some_0, now),
    }
}

/// Decodes a row of comments.
pub fn comment_from_row(row: &Vec<SqlValue>, now: Timestamp) -> (r: Result<Comment, BeadsError>)
    ensures
        comment_row_ok(values_view(row@)) ==> (r matches Ok(comment) && comment@ == decoded_comment(
            values_view(row@),
            now,
        )),
        !comment_row_ok(values_view(row@)) ==> r matches Err(BeadsError::SchemaError { .. }),
{
    let id: i64 = column_int(row, 0)?;
    let issue_id: String = column_text(row, 1)?;
    let author: String = column_text(row, 2)?;
    let body: String = column_text(row, 3)?;
    let created_text: String = column_text(row, 4)?;
    let created_at: Timestamp = parse_datetime(created_text.as_str(), now);
    Ok(Comment { id, issue_id, author, body, created_at })
}

/// Whether a row can be decoded as an issue at the end of an edge: id, title,
/// status, priority and the type of the edge, in this order.  All but the id
/// may be `NULL`: the issue at the other end may be gone.
pub open spec fn metadata_row_ok(row: Seq<SqlData>) -> bool {
    &&& text_at(row, 0) is Some
    &&& optional_text_at(row, 1) is Some
    &&& optional_text_at(row, 2) is Some
    &&& optional_int_at(row, 3) is Some
    &&& optional_text_at(row, 4) is Some
}

/// The record that a row stands for: a missing title is empty, a missing
/// status `open`, a missing priority 2, a missing type of edge `blocks`.
pub open spec fn decoded_metadata(row: Seq<SqlData>) -> DependencyMetadataData {
    DependencyMetadataData {
        id: text_at(row, 0)->Some_0,
        title: match optional_text_at(row, 1)->Some_0 {
            Some(t) => t,
            None => Seq::empty(),
        },
        status: stored_status(optional_text_at(row, 2)->Some_0),
        priority: stored_priority(optional_int_at(row, 3)->Some_0),
        dep_type: match optional_text_at(row, 4)->Some_0 {
            Some(t) => t,
            None => "blocks"@,
        },
    }
}

/// Decodes a row of issues at the end of an edge.
pub fn metadata_from_row(row: &Vec<SqlValue>) -> (r: Result<IssueWithDependencyMetadata, BeadsError>)
    ensures
        metadata_row_ok(values_view(row@)) ==> (r matches Ok(record) && record@ == decoded_metadata(
            values_view(row@),
        )),
        !metadata_row_ok(values_view(row@)) ==> r matches Err(BeadsError::SchemaError { .. }),
{
    let id: String = column_text(row, 0)?;
    let title: String = match column_optional_text(row, 1)? {
        Some(t) => t,
        None => String::new(),
    };
    let status_text: Option<String> = column_optional_text(row, 2)?;
    let status: Status = parse_status(as_text(&status_text));
    let priority: Priority = priority_or_default(column_optional_int(row, 3)?);
    let dep_type: String = match column_optional_text(row, 4)? {
        Some(t) => t,
        None => "blocks".to_owned(),
    };
    Ok(IssueWithDependencyMetadata { id, title, status, priority, dep_type })
}

/// The count in the answer to a `SELECT count(*)`: the number in the first
/// column of the first row.
pub open spec fn count_in(rows: Seq<Seq<SqlData>>) -> Option<int> {
    if rows.len() == 0 {
        None
    } else {
        int_at(rows[0], 0)
    }
}

/// The contents of the rows of an answer.
pub open spec fn rows_view(rows: Seq<Vec<SqlValue>>) -> Seq<Seq<SqlData>> {
    Seq::new(rows.len(), |i: int| values_view(rows[i]@))
}

/// Reads the answer to a `SELECT count(*)`.
pub fn read_count(rows: &Vec<Vec<SqlValue>>) -> (r: Result<i64, BeadsError>)
    ensures
        match count_in(rows_view(rows@)) {
            Some(v) => r == Ok::<i64, BeadsError>(v as i64) && v == (v as i64) as int,
            None => r matches Err(BeadsError::SchemaError { .. }),
        },
{
    if rows.len() == 0 {
        Err(schema_error("a count came back without a row"))
    } else {
        column_int(&rows[0], 0)
    }
}

/// A count as a size: 0 where it is negative or does not fit.
pub open spec fn size_of_count(count: int) -> usize {
    if 0 <= count <= usize::MAX {
        count as usize
    } else {
        0
    }
}

pub fn count_to_size(count: i64) -> (r: usize)
    ensures
        r == size_of_count(count as int),
{
    if count < 0 {
        0
    } else if count as u64 > usize::MAX as u64 {
        0
    } else {
        count as usize
    }
}

/// Whether every row of an answer starts with a text.
pub open spec fn text_rows_ok(rows: Seq<Seq<SqlData>>) -> bool {
    forall|i: int| 0 <= i < rows.len() ==> text_at(#[trigger] rows[i], 0) is Some
}

/// The first column of every row.
pub open spec fn first_texts(rows: Seq<Seq<SqlData>>) -> Seq<Seq<char>> {
    Seq::new(rows.len(), |i: int| text_at(rows[i], 0)->Some_0)
}

/// Reads the labels of an answer: the first column of every row, in the
/// order of texts, whatever the order of the rows.
pub fn labels_from_rows(rows: &Vec<Vec<SqlValue>>) -> (r: Result<Vec<String>, BeadsError>)
    ensures
        text_rows_ok(rows_view(rows@)) ==> (r matches Ok(list) && crate::model::texts(list@) == in_order(
            first_texts(rows_view(rows@)),
        )),
        !text_rows_ok(rows_view(rows@)) ==> r matches Err(BeadsError::SchemaError { .. }),
        r matches Ok(list) ==> ordered(crate::model::texts(list@)),
{
    let labels: Vec<String> = read_texts(rows)?;
    proof {
        texts_in_order_are_ordered(crate::model::texts(labels@));
    }
    Ok(sort_texts(&labels))
}

/// Reads the first column of every row as text.
pub fn read_texts(rows: &Vec<Vec<SqlValue>>) -> (r: Result<Vec<String>, BeadsError>)
    ensures
        text_rows_ok(rows_view(rows@)) ==> (r matches Ok(list) && crate::model::texts(list@)
            == first_texts(rows_view(rows@))),
        !text_rows_ok(rows_view(rows@)) ==> r matches Err(BeadsError::SchemaError { .. }),
{
    let mut out: Vec<String> = Vec::new();
    let mut i: usize = 0;
    while i < rows.len()
        invariant
            i <= rows.len(),
            out@.len() == i,
            forall|k: int| 0 <= k < i ==> text_at(#[trigger] rows_view(rows@)[k], 0) is Some,
            forall|k: int| 0 <= k < i ==> (#[trigger] out@[k])@ == text_at(rows_view(rows@)[k], 0)->Some_0,
        decreases rows.len() - i,
    {
        assert(rows_view(rows@)[i as int] == values_view(rows@[i as int]@));
        let text: String = column_text(&rows[i], 0)?;
        out.push(text);
        i = i + 1;
    }
    assert(crate::model::texts(out@) =~= first_texts(rows_view(rows@)));
    Ok(out)
}

/// Whether every row of an answer can be decoded as an issue.
pub open spec fn issue_rows_ok(rows: Seq<Seq<SqlData>>) -> bool {
    forall|i: int| 0 <= i < rows.len() ==> issue_row_ok(#[trigger] rows[i])
}

/// Decodes the answer to a statement that starts with `SELECT_ISSUES`, row by
/// row.
pub fn issues_from_rows(rows: &Vec<Vec<SqlValue>>, now: Timestamp) -> (r: Result<Vec<Issue>, BeadsError>)
    ensures
        issue_rows_ok(rows_view(rows@)) ==> (r matches Ok(list) && list@.len() == rows@.len()
            && forall|i: int| 0 <= i < list@.len() ==> (#[trigger] list@[i])@ == decoded_issue(
            rows_view(rows@)[i],
            now,
        )),
        !issue_rows_ok(rows_view(rows@)) ==> r matches Err(BeadsError::SchemaError { .. }),
        r matches Ok(list) ==> forall|i: int| 0 <= i < list@.len() ==> (#[trigger] list@[i])@.bare(),
{
    let mut out: Vec<Issue> = Vec::new();
    let mut i: usize = 0;
    while i < rows.len()
        invariant
            i <= rows.len(),
            out@.len() == i,
            forall|k: int| 0 <= k < i ==> issue_row_ok(#[trigger] rows_view(rows@)[k]),
            forall|k: int| 0 <= k < i ==> (#[trigger] out@[k])@ == decoded_issue(rows_view(rows@)[k], now),
        decreases rows.len() - i,
    {
        assert(rows_view(rows@)[i as int] == values_view(rows@[i as int]@));
        let issue: Issue = issue_from_row(&rows[i], now)?;
        out.push(issue);
        i = i + 1;
    }
    Ok(out)
}

/// Whether every row of an answer can be decoded as a comment.
pub open spec fn comment_rows_ok(rows: Seq<Seq<SqlData>>) -> bool {
    forall|i: int| 0 <= i < rows.len() ==> comment_row_ok(#[trigger] rows[i])
}

/// Decodes an answer of comments, row by row.
pub fn comments_from_rows(rows: &Vec<Vec<SqlValue>>, now: Timestamp) -> (r: Result<Vec<Comment>, BeadsError>)
    ensures
        comment_rows_ok(rows_view(rows@)) ==> (r matches Ok(list) && list@.len() == rows@.len()
            && forall|i: int| 0 <= i < list@.len() ==> (#[trigger] list@[i])@ == decoded_comment(
            rows_view(rows@)[i],
            now,
        )),
        !comment_rows_ok(rows_view(rows@)) ==> r matches Err(BeadsError::SchemaError { .. }),
{
    let mut out: Vec<Comment> = Vec::new();
    let mut i: usize = 0;
    while i < rows.len()
        invariant
            i <= rows.len(),
            out@.len() == i,
            forall|k: int| 0 <= k < i ==> comment_row_ok(#[trigger] rows_view(rows@)[k]),
            forall|k: int| 0 <= k < i ==> (#[trigger] out@[k])@ == decoded_comment(rows_view(rows@)[k], now),
        decreases rows.len() - i,
    {
        assert(rows_view(rows@)[i as int] == values_view(rows@[i as int]@));
        let comment: Comment = comment_from_row(&rows[i], now)?;
        out.push(comment);
        i = i + 1;
    }
    Ok(out)
}

/// Whether every row of an answer can be decoded as an issue at the end of an
/// edge.
pub open spec fn metadata_rows_ok(rows: Seq<Seq<SqlData>>) -> bool {
    forall|i: int| 0 <= i < rows.len() ==> metadata_row_ok(#[trigger] rows[i])
}

/// Decodes an answer of issues at the end of an edge, row by row.
pub fn metadata_from_rows(rows: &Vec<Vec<SqlValue>>) -> (r: Result<Vec<IssueWithDependencyMetadata>, BeadsError>)
    ensures
        metadata_rows_ok(rows_view(rows@)) ==> (r matches Ok(list) && list@.len() == rows@.len()
            && forall|i: int| 0 <= i < list@.len() ==> (#[trigger] list@[i])@ == decoded_metadata(
            rows_view(rows@)[i],
        )),
        !metadata_rows_ok(rows_view(rows@)) ==> r matches Err(BeadsError::SchemaError { .. }),
{
    let mut out: Vec<IssueWithDependencyMetadata> = Vec::new();
    let mut i: usize = 0;
    while i < rows.len()
        invariant
            i <= rows.len(),
            out@.len() == i,
            forall|k: int| 0 <= k < i ==> metadata_row_ok(#[trigger] rows_view(rows@)[k]),
            forall|k: int| 0 <= k < i ==> (#[trigger] out@[k])@ == decoded_metadata(rows_view(rows@)[k]),
        decreases rows.len() - i,
    {
        assert(rows_view(rows@)[i as int] == values_view(rows@[i as int]@));
        let record: IssueWithDependencyMetadata = metadata_from_row(&rows[i])?;
        out.push(record);
        i = i + 1;
    }
    Ok(out)
}

/// Whether every row of an answer holds two texts.
pub open spec fn edge_rows_ok(rows: Seq<Seq<SqlData>>) -> bool {
    forall|i: int| 0 <= i < rows.len() ==> text_at(#[trigger] rows[i], 0) is Some && text_at(rows[i], 1) is Some
}

/// The edges that the rows of an answer stand for: from the first column to
/// the second.
pub open spec fn decoded_edges(rows: Seq<Seq<SqlData>>) -> Seq<(Seq<char>, Seq<char>)> {
    Seq::new(rows.len(), |i: int| (text_at(rows[i], 0)->Some_0, text_at(rows[i], 1)->Some_0))
}

/// Decodes an answer of edges, row by row.
pub fn edges_from_rows(rows: &Vec<Vec<SqlValue>>) -> (r: Result<Vec<Edge>, BeadsError>)
    ensures
        edge_rows_ok(rows_view(rows@)) ==> (r matches Ok(list) && edge_pairs(list@) == decoded_edges(
            rows_view(rows@),
        )),
        !edge_rows_ok(rows_view(rows@)) ==> r matches Err(BeadsError::SchemaError { .. }),
{
    let mut out: Vec<Edge> = Vec::new();
    let mut i: usize = 0;
    while i < rows.len()
        invariant
            i <= rows.len(),
            out@.len() == i,
            forall|k: int| 0 <= k < i ==> text_at(#[trigger] rows_view(rows@)[k], 0) is Some && text_at(rows_view(rows@)[k], 1) is Some,
            forall|k: int| 0 <= k < i ==> (#[trigger] out@[k]).from@ == text_at(rows_view(rows@)[k], 0)->Some_0
                && out@[k].to@ == text_at(rows_view(rows@)[k], 1)->Some_0,
        decreases rows.len() - i,
    {
        assert(rows_view(rows@)[i as int] == values_view(rows@[i as int]@));
        let from: String = column_text(&rows[i], 0)?;
        let to: String = column_text(&rows[i], 1)?;
        out.push(Edge { from, to });
        i = i + 1;
    }
    assert(edge_pairs(out@) =~= decoded_edges(rows_view(rows@)));
    Ok(out)
}

/// The text in the first column of the first row, if the answer has a row.
pub open spec fn first_text(rows: Seq<Seq<SqlData>>) -> Option<Seq<char>> {
    if rows.len() == 0 {
        None
    } else {
        text_at(rows[0], 0)
    }
}

/// Reads the first column of the first row: `None` where the answer is empty.
pub fn read_first_text(rows: &Vec<Vec<SqlValue>>) -> (r: Result<Option<String>, BeadsError>)
    ensures
        rows@.len() == 0 ==> r matches Ok(None),
        rows@.len() > 0 ==> match first_text(rows_view(rows@)) {
            Some(s) => r matches Ok(Some(t)) && t@ == s,
            None => r matches Err(BeadsError::SchemaError { .. }),
        },
{
    if rows.len() == 0 {
        Ok(None)
    } else {
        assert(rows_view(rows@)[0] == values_view(rows@[0]@));
        let text: String = column_text(&rows[0], 0)?;
        Ok(Some(text))
    }
}

/// The type of edge that a stored column stands for: `blocks` where it is
/// `NULL`, and `related`, which bears on nothing, where it spells a type
/// that the store does not know.
pub open spec fn stored_dependency_type(text: Option<Seq<char>>) -> DependencyType {
    match text {
        Some(s) => match DependencyType::from_text(s) {
            Some(dep_type) => dep_type,
            None => DependencyType::Related,
        },
        None => DependencyType::Blocks,
    }
}

/// Whether a row can be decoded as a dependency: the two ends, the type, the
/// time and the author, in this order.
pub open spec fn dependency_row_ok(row: Seq<SqlData>) -> bool {
    &&& text_at(row, 0) is Some
    &&& text_at(row, 1) is Some
    &&& optional_text_at(row, 2) is Some
    &&& text_at(row, 3) is Some
    &&& optional_text_at(row, 4) is Some
}

/// The dependency that a row stands for.
pub open spec fn decoded_dependency(row: Seq<SqlData>, now: Timestamp) -> DependencyData {
    DependencyData {
        issue_id: text_at(row, 0)->Some_0,
        depends_on_id: text_at(row, 1)->Some_0,
        dep_type: stored_dependency_type(optional_text_at(row, 2)->Some_0),
        created_at: stored_instant(text_at(row, 3)->Some_0, now),
        created_by: optional_text_at(row, 4)->Some_0,
    }
}

/// Decodes a row of dependencies.
pub fn dependency_from_row(row: &Vec<SqlValue>, now: Timestamp) -> (r: Result<Dependency, BeadsError>)
    ensures
        dependency_row_ok(values_view(row@)) ==> (r matches Ok(dep) && dep@ == decoded_dependency(
            values_view(row@),
            now,
        )),
        !dependency_row_ok(values_view(row@)) ==> r matches Err(BeadsError::SchemaError { .. }),
{
    let issue_id: String = column_text(row, 0)?;
    let depends_on_id: String = column_text(row, 1)?;
    let type_text: Option<String> = column_optional_text(row, 2)?;
    let dep_type: DependencyType = match &type_text {
        Some(t) => match DependencyType::parse(t.as_str()) {
            Some(dep_type) => dep_type,
            None => DependencyType::Related,
        },
        None => DependencyType::Blocks,
    };
    let created_text: String = column_text(row, 3)?;
    let created_at: Timestamp = parse_datetime(created_text.as_str(), now);
    let created_by: Option<String> = column_optional_text(row, 4)?;
    Ok(Dependency { issue_id, depends_on_id, dep_type, created_at, created_by })
}

/// Whether every row of an answer can be decoded as a dependency.
pub open spec fn dependency_rows_ok(rows: Seq<Seq<SqlData>>) -> bool {
    forall|i: int| 0 <= i < rows.len() ==> dependency_row_ok(#[trigger] rows[i])
}

/// Decodes an answer of dependencies, row by row.
pub fn dependencies_from_rows(rows: &Vec<Vec<SqlValue>>, now: Timestamp) -> (r: Result<Vec<Dependency>, BeadsError>)
    ensures
        dependency_rows_ok(rows_view(rows@)) ==> (r matches Ok(list) && list@.len() == rows@.len()
            && forall|i: int| 0 <= i < list@.len() ==> (#[trigger] list@[i])@ == decoded_dependency(
            rows_view(rows@)[i],
            now,
        )),
        !dependency_rows_ok(rows_view(rows@)) ==> r matches Err(BeadsError::SchemaError { .. }),
{
    let mut out: Vec<Dependency> = Vec::new();
    let mut i: usize = 0;
    while i < rows.len()
        invariant
            i <= rows.len(),
            out@.len() == i,
            forall|k: int| 0 <= k < i ==> dependency_row_ok(#[trigger] rows_view(rows@)[k]),
            forall|k: int| 0 <= k < i ==> (#[trigger] out@[k])@ == decoded_dependency(rows_view(rows@)[k], now),
        decreases rows.len() - i,
    {
        assert(rows_view(rows@)[i as int] == values_view(rows@[i as int]@));
        let dep: Dependency = dependency_from_row(&rows[i], now)?;
        out.push(dep);
        i = i + 1;
    }
    Ok(out)
}

} // verus!
