//! The statements of the operations on issues, dependencies and labels.

use vstd::prelude::*;
use crate::model::{DependencyType, Issue, IssueData, opt_text};
use crate::storage::query::SELECT_ISSUES;
use crate::storage::sql::{
    SqlData, SqlStatement, SqlStatementData, SqlValue, binds_real, optional_integer,
    optional_integer_value, text_value, values_view,
};
use crate::time::Timestamp;

verus! {

pub const INSERT_ISSUE: &'static str = "INSERT INTO issues (id, content_hash, title, description, design, acceptance_criteria, notes, status, priority, issue_type, assignee, owner, estimated_minutes, created_at, created_by, updated_at, closed_at, close_reason, closed_by_session, due_at, defer_until, external_ref, source_system, deleted_at, deleted_by, delete_reason, original_type, compaction_level, compacted_at, compacted_at_commit, original_size, sender, ephemeral, pinned, is_template) VALUES (?, ?, ?, ?, ?, ?, ?, ?, ?, ?, ?, ?, ?, ?, ?, ?, ?, ?, ?, ?, ?, ?, ?, ?, ?, ?, ?, ?, ?, ?, ?, ?, ?, ?, ?)";

pub const TOMBSTONE_ISSUE: &'static str = "UPDATE issues SET status = 'tombstone', deleted_at = ?, deleted_by = ?, delete_reason = ?, original_type = ?, updated_at = ? WHERE id = ?";

pub const DELETE_DEPENDENCY: &'static str = "DELETE FROM dependencies WHERE issue_id = ? AND depends_on_id = ?";

pub const INSERT_DEPENDENCY: &'static str = "INSERT INTO dependencies (issue_id, depends_on_id, type, created_at, created_by) VALUES (?, ?, ?, ?, ?)";

pub const INSERT_LABEL: &'static str = "INSERT OR IGNORE INTO labels (issue_id, label) VALUES (?, ?)";

pub const SELECT_LINKED: &'static str = "SELECT DISTINCT issue_id FROM dependencies WHERE depends_on_id = ? UNION SELECT DISTINCT depends_on_id FROM dependencies WHERE issue_id = ?";

pub const DELETE_OUTGOING: &'static str = "DELETE FROM dependencies WHERE issue_id = ?";

pub const DELETE_INCOMING: &'static str = "DELETE FROM dependencies WHERE depends_on_id = ?";

pub const COUNT_ISSUE: &'static str = "SELECT count(*) FROM issues WHERE id = ?";

pub const COUNT_ISSUES: &'static str = "SELECT count(*) FROM issues";

pub const COUNT_DEPENDENCIES: &'static str = "SELECT count(*) FROM dependencies WHERE issue_id = ?";

pub const COUNT_DEPENDENTS: &'static str = "SELECT count(*) FROM dependencies WHERE depends_on_id = ?";

pub const SELECT_LABELS: &'static str = "SELECT label FROM labels WHERE issue_id = ? ORDER BY label";

pub const SELECT_DEPENDENTS: &'static str = "SELECT issue_id FROM dependencies WHERE depends_on_id = ?";

pub const SELECT_DEPENDENCIES: &'static str = "SELECT depends_on_id FROM dependencies WHERE issue_id = ?";

pub const SELECT_COMMENTS: &'static str = "SELECT id, issue_id, author, text, created_at FROM comments WHERE issue_id = ? ORDER BY created_at ASC";

pub const SELECT_DEPENDENCIES_WITH_METADATA: &'static str = "SELECT d.depends_on_id, i.title, i.status, i.priority, d.type FROM dependencies d LEFT JOIN issues i ON d.depends_on_id = i.id WHERE d.issue_id = ? ORDER BY i.priority ASC, i.created_at DESC";

pub const SELECT_DEPENDENTS_WITH_METADATA: &'static str = "SELECT d.issue_id, i.title, i.status, i.priority, d.type FROM dependencies d LEFT JOIN issues i ON d.issue_id = i.id WHERE d.depends_on_id = ? ORDER BY i.priority ASC, i.created_at DESC";

pub const COUNT_LINK: &'static str = "SELECT count(*) FROM dependencies WHERE issue_id = ? AND depends_on_id = ?";

pub const SELECT_BLOCKS: &'static str = "SELECT d.issue_id, d.depends_on_id FROM dependencies d JOIN issues a ON a.id = d.issue_id JOIN issues b ON b.id = d.depends_on_id WHERE d.type = 'blocks' AND a.status != 'tombstone' AND b.status != 'tombstone'";

pub const TOMBSTONE_LIVING: &'static str = "UPDATE issues SET status = 'tombstone', deleted_at = ?, deleted_by = ?, delete_reason = ?, original_type = issue_type, updated_at = ? WHERE id = ? AND status != 'tombstone'";

pub const CLOSE_ISSUE: &'static str = "UPDATE issues SET status = 'closed', closed_at = ?, close_reason = ?, updated_at = ? WHERE id = ?";

pub const REOPEN_ISSUE: &'static str = "UPDATE issues SET status = 'open', closed_at = NULL, close_reason = NULL, updated_at = ? WHERE id = ?";

pub const SELECT_LIVING_EDGES: &'static str = "SELECT d.issue_id, d.depends_on_id FROM dependencies d JOIN issues a ON a.id = d.issue_id WHERE a.status != 'tombstone'";

pub const SELECT_ALL_DEPENDENCIES: &'static str = "SELECT issue_id, depends_on_id, type, created_at, created_by FROM dependencies ORDER BY issue_id, depends_on_id";

pub const SELECT_IDS_LIKE: &'static str = "SELECT id FROM issues WHERE id LIKE ?";

pub const SELECT_BLOCKED_CACHE: &'static str = "SELECT issue_id, blocked_by_json FROM blocked_issues_cache ORDER BY issue_id";

pub const INSERT_BLOCKED_CACHE: &'static str = "INSERT OR REPLACE INTO blocked_issues_cache (issue_id, blocked_by_json) VALUES (?, ?)";

pub const WRITE_ISSUE: &'static str = "INSERT OR REPLACE INTO issues (id, content_hash, title, description, design, acceptance_criteria, notes, status, priority, issue_type, assignee, owner, estimated_minutes, created_at, created_by, updated_at, closed_at, close_reason, closed_by_session, due_at, defer_until, external_ref, source_system, deleted_at, deleted_by, delete_reason, original_type, compaction_level, compacted_at, compacted_at_commit, original_size, sender, ephemeral, pinned, is_template) VALUES (?, ?, ?, ?, ?, ?, ?, ?, ?, ?, ?, ?, ?, ?, ?, ?, ?, ?, ?, ?, ?, ?, ?, ?, ?, ?, ?, ?, ?, ?, ?, ?, ?, ?, ?)";

pub const SELECT_DIRTY: &'static str = "SELECT issue_id FROM dirty_issues ORDER BY issue_id";

pub const CLEAR_DIRTY: &'static str = "DELETE FROM dirty_issues WHERE issue_id = ?";

pub const SELECT_LIVING_IDS: &'static str = "SELECT id FROM issues WHERE status != 'tombstone' ORDER BY id";

pub const SELECT_DEPENDENCIES_OF: &'static str = "SELECT issue_id, depends_on_id, type, created_at, created_by FROM dependencies WHERE issue_id = ? ORDER BY depends_on_id";

pub const DELETE_LABELS: &'static str = "DELETE FROM labels WHERE issue_id = ?";

pub const DELETE_COMMENTS: &'static str = "DELETE FROM comments WHERE issue_id = ?";

pub const INSERT_COMMENT: &'static str = "INSERT INTO comments (issue_id, author, text, created_at) VALUES (?, ?, ?, ?)";

pub const DELETE_LABEL: &'static str = "DELETE FROM labels WHERE issue_id = ? AND label = ?";

pub const SELECT_LIVING_GRAPH: &'static str = "SELECT d.issue_id, d.depends_on_id FROM dependencies d JOIN issues a ON a.id = d.issue_id JOIN issues b ON b.id = d.depends_on_id WHERE a.status != 'tombstone' AND b.status != 'tombstone' ORDER BY d.issue_id, d.depends_on_id";

pub const SELECT_IDS: &'static str = "SELECT id FROM issues ORDER BY id";

pub const SELECT_PARENT: &'static str = "SELECT depends_on_id FROM dependencies WHERE issue_id = ? AND type = 'parent-child'";

/// The text or `NULL` for an optional text.
pub open spec fn text_or_null(value: Option<Seq<char>>) -> SqlData {
    match value {
        Some(s) => SqlData::Text(s),
        None => SqlData::Null,
    }
}

/// The RFC 3339 text or `NULL` for an optional instant.
pub open spec fn instant_or_null(value: Option<Timestamp>) -> SqlData {
    match value {
        Some(t) => SqlData::Text(t.text()),
        None => SqlData::Null,
    }
}

/// The statement that turns the issue `id` into a tombstone: the status
/// becomes `tombstone`, the four deletion fields are filled, and the time of
/// deletion is also the time of the last update.
pub open spec fn tombstone_statement(
    id: Seq<char>,
    actor: Seq<char>,
    reason: Seq<char>,
    original_type: Seq<char>,
    now: Timestamp,
) -> SqlStatementData {
    SqlStatementData {
        sql: TOMBSTONE_ISSUE@,
        params: seq![
            SqlData::Text(now.text()),
            SqlData::Text(actor),
            SqlData::Text(reason),
            SqlData::Text(original_type),
            SqlData::Text(now.text()),
            SqlData::Text(id),
        ],
    }
}

/// A statement whose one placeholder is bound to `key`.
pub open spec fn keyed_statement(sql: Seq<char>, key: Seq<char>) -> SqlStatementData {
    SqlStatementData { sql: sql, params: seq![SqlData::Text(key)] }
}

/// A statement whose two placeholders are bound to `first` and `second`.
pub open spec fn paired_statement(sql: Seq<char>, first: Seq<char>, second: Seq<char>) -> SqlStatementData {
    SqlStatementData { sql: sql, params: seq![SqlData::Text(first), SqlData::Text(second)] }
}

/// The statement that inserts a dependency edge.
pub open spec fn insert_dependency_statement(
    issue_id: Seq<char>,
    depends_on_id: Seq<char>,
    dep_type: DependencyType,
    now: Timestamp,
    actor: Seq<char>,
) -> SqlStatementData {
    SqlStatementData {
        sql: INSERT_DEPENDENCY@,
        params: seq![
            SqlData::Text(issue_id),
            SqlData::Text(depends_on_id),
            SqlData::Text(dep_type.text()),
            SqlData::Text(now.text()),
            SqlData::Text(actor),
        ],
    }
}

fn instant_value(value: &Option<Timestamp>) -> (r: SqlValue)
    ensures
        r@ == instant_or_null(*value),
{
    match value {
        Some(t) => SqlValue::Text(t.to_rfc3339()),
        None => SqlValue::Null,
    }
}

fn optional_value(value: &Option<String>) -> (r: SqlValue)
    ensures
        r@ == text_or_null(opt_text(*value)),
{
    match value {
        Some(s) => SqlValue::Text(s.clone()),
        None => SqlValue::Null,
    }
}

/// Builds the statement that turns an issue into a tombstone.
pub fn tombstone_issue(id: &str, actor: &str, reason: &str, original_type: &str, now: &Timestamp) -> (r: SqlStatement)
    ensures
        r@ == tombstone_statement(id@, actor@, reason@, original_type@, *now),
        !binds_real(r@.params),
{
    let mut params: Vec<SqlValue> = Vec::new();
    params.push(SqlValue::Text(now.to_rfc3339()));
    params.push(text_value(actor));
    params.push(text_value(reason));
    params.push(text_value(original_type));
    params.push(SqlValue::Text(now.to_rfc3339()));
    params.push(text_value(id));
    let r = SqlStatement { sql: TOMBSTONE_ISSUE.to_owned(), params };
    assert(r@.params =~= tombstone_statement(id@, actor@, reason@, original_type@, *now).params);
    r
}

/// Builds a statement with no placeholder.
pub fn plain(sql: &str) -> (r: SqlStatement)
    ensures
        r@ == (SqlStatementData { sql: sql@, params: Seq::empty() }),
        !binds_real(r@.params),
{
    let r = SqlStatement { sql: sql.to_owned(), params: Vec::new() };
    assert(r@.params =~= Seq::empty());
    r
}

/// Builds a statement whose one placeholder is bound to `key`.
pub fn keyed(sql: &str, key: &str) -> (r: SqlStatement)
    ensures
        r@ == keyed_statement(sql@, key@),
        !binds_real(r@.params),
{
    let mut params: Vec<SqlValue> = Vec::new();
    params.push(text_value(key));
    let r = SqlStatement { sql: sql.to_owned(), params };
    assert(r@.params =~= keyed_statement(sql@, key@).params);
    r
}

/// Builds a statement whose two placeholders are bound to `first` and `second`.
pub fn paired(sql: &str, first: &str, second: &str) -> (r: SqlStatement)
    ensures
        r@ == paired_statement(sql@, first@, second@),
        !binds_real(r@.params),
{
    let mut params: Vec<SqlValue> = Vec::new();
    params.push(text_value(first));
    params.push(text_value(second));
    let r = SqlStatement { sql: sql.to_owned(), params };
    assert(r@.params =~= paired_statement(sql@, first@, second@).params);
    r
}

/// Builds the statement that inserts a dependency edge.
pub fn insert_dependency(
    issue_id: &str,
    depends_on_id: &str,
    dep_type: DependencyType,
    now: &Timestamp,
    actor: &str,
) -> (r: SqlStatement)
    ensures
        r@ == insert_dependency_statement(issue_id@, depends_on_id@, dep_type, *now, actor@),
        !binds_real(r@.params),
{
    let mut params: Vec<SqlValue> = Vec::new();
    params.push(text_value(issue_id));
    params.push(text_value(depends_on_id));
    params.push(text_value(dep_type.as_str()));
    params.push(SqlValue::Text(now.to_rfc3339()));
    params.push(text_value(actor));
    let r = SqlStatement { sql: INSERT_DEPENDENCY.to_owned(), params };
    assert(r@.params =~= insert_dependency_statement(issue_id@, depends_on_id@, dep_type, *now, actor@).params);
    r
}

/// The statement that reads one issue by its id.
pub open spec fn select_issue_statement(id: Seq<char>) -> SqlStatementData {
    keyed_statement(SELECT_ISSUES@ + " AND id = ?"@, id)
}

/// Builds the statement that reads one issue by its id.
pub fn select_issue(id: &str) -> (r: SqlStatement)
    ensures
        r@ == select_issue_statement(id@),
        !binds_real(r@.params),
{
    let mut sql: String = SELECT_ISSUES.to_owned();
    sql.append(" AND id = ?");
    keyed(sql.as_str(), id)
}

/// The statement that turns the issue `id` into a tombstone unless it is one
/// already, keeping the type that the row has.
pub open spec fn tombstone_living_statement(id: Seq<char>, actor: Seq<char>, reason: Seq<char>, now: Timestamp) -> SqlStatementData {
    SqlStatementData {
        sql: TOMBSTONE_LIVING@,
        params: seq![
            SqlData::Text(now.text()),
            SqlData::Text(actor),
            SqlData::Text(reason),
            SqlData::Text(now.text()),
            SqlData::Text(id),
        ],
    }
}

/// Builds the statement that turns a living issue into a tombstone.
pub fn tombstone_living(id: &str, actor: &str, reason: &str, now: &Timestamp) -> (r: SqlStatement)
    ensures
        r@ == tombstone_living_statement(id@, actor@, reason@, *now),
        !binds_real(r@.params),
{
    let mut params: Vec<SqlValue> = Vec::new();
    params.push(SqlValue::Text(now.to_rfc3339()));
    params.push(text_value(actor));
    params.push(text_value(reason));
    params.push(SqlValue::Text(now.to_rfc3339()));
    params.push(text_value(id));
    let r = SqlStatement { sql: TOMBSTONE_LIVING.to_owned(), params };
    assert(r@.params =~= tombstone_living_statement(id@, actor@, reason@, *now).params);
    r
}

/// The statement that closes the issue `id` at `now`, for `reason` if one is
/// given.
pub open spec fn close_statement(id: Seq<char>, reason: Option<Seq<char>>, now: Timestamp) -> SqlStatementData {
    SqlStatementData {
        sql: CLOSE_ISSUE@,
        params: seq![
            SqlData::Text(now.text()),
            text_or_null(reason),
            SqlData::Text(now.text()),
            SqlData::Text(id),
        ],
    }
}

/// Builds the statement that closes an issue.
pub fn close_issue_statement(id: &str, reason: Option<&str>, now: &Timestamp) -> (r: SqlStatement)
    ensures
        r@ == close_statement(id@, match reason { Some(s) => Some(s@), None => None }, *now),
        !binds_real(r@.params),
{
    let mut params: Vec<SqlValue> = Vec::new();
    params.push(SqlValue::Text(now.to_rfc3339()));
    params.push(match reason {
        Some(s) => text_value(s),
        None => SqlValue::Null,
    });
    params.push(SqlValue::Text(now.to_rfc3339()));
    params.push(text_value(id));
    let r = SqlStatement { sql: CLOSE_ISSUE.to_owned(), params };
    assert(r@.params =~= close_statement(id@, match reason { Some(s) => Some(s@), None => None }, *now).params);
    r
}

/// The statement that reopens the issue `id` at `now`.
pub open spec fn reopen_statement(id: Seq<char>, now: Timestamp) -> SqlStatementData {
    SqlStatementData { sql: REOPEN_ISSUE@, params: seq![SqlData::Text(now.text()), SqlData::Text(id)] }
}

/// Builds the statement that reopens an issue.
pub fn reopen_issue_statement(id: &str, now: &Timestamp) -> (r: SqlStatement)
    ensures
        r@ == reopen_statement(id@, *now),
        !binds_real(r@.params),
{
    let mut params: Vec<SqlValue> = Vec::new();
    params.push(SqlValue::Text(now.to_rfc3339()));
    params.push(text_value(id));
    let r = SqlStatement { sql: REOPEN_ISSUE.to_owned(), params };
    assert(r@.params =~= reopen_statement(id@, *now).params);
    r
}

/// The statement that reads the ids that start with `prefix` and a hyphen.
pub open spec fn ids_of_prefix_statement(prefix: Seq<char>) -> SqlStatementData {
    keyed_statement(SELECT_IDS_LIKE@, prefix + "-%"@)
}

/// Builds the statement that reads the ids of a prefix.
pub fn select_ids_of_prefix(prefix: &str) -> (r: SqlStatement)
    ensures
        r@ == ids_of_prefix_statement(prefix@),
        !binds_real(r@.params),
{
    let mut pattern: String = prefix.to_owned();
    pattern.append("-%");
    keyed(SELECT_IDS_LIKE, pattern.as_str())
}

/// The statement that reads every issue that is no tombstone, in the order of
/// a listing.
pub open spec fn living_issues_statement() -> SqlStatementData {
    SqlStatementData {
        sql: SELECT_ISSUES@ + " AND status != 'tombstone' ORDER BY priority ASC, created_at DESC"@,
        params: Seq::empty(),
    }
}

/// Builds the statement that reads every issue that is no tombstone.
pub fn select_living_issues() -> (r: SqlStatement)
    ensures
        r@ == living_issues_statement(),
        !binds_real(r@.params),
{
    let mut sql: String = SELECT_ISSUES.to_owned();
    sql.append(" AND status != 'tombstone' ORDER BY priority ASC, created_at DESC");
    plain(sql.as_str())
}

/// The statement that writes the whole row of an issue, in place of the row
/// that the database may hold under its id.
pub open spec fn write_issue_statement(issue: IssueData) -> SqlStatementData {
    SqlStatementData {
        sql: WRITE_ISSUE@,
        params: seq![
            SqlData::Text(issue.id),
            text_or_null(issue.content_hash),
            SqlData::Text(issue.title),
            text_or_null(issue.description),
            text_or_null(issue.design),
            text_or_null(issue.acceptance_criteria),
            text_or_null(issue.notes),
            SqlData::Text(issue.status.text()),
            SqlData::Integer(issue.priority.0 as int),
            SqlData::Text(issue.issue_type.text()),
            text_or_null(issue.assignee),
            text_or_null(issue.owner),
            optional_integer(issue.estimated_minutes),
            SqlData::Text(issue.created_at.text()),
            text_or_null(issue.created_by),
            SqlData::Text(issue.updated_at.text()),
            instant_or_null(issue.closed_at),
            text_or_null(issue.close_reason),
            text_or_null(issue.closed_by_session),
            instant_or_null(issue.due_at),
            instant_or_null(issue.defer_until),
            text_or_null(issue.external_ref),
            text_or_null(issue.source_system),
            instant_or_null(issue.deleted_at),
            text_or_null(issue.deleted_by),
            text_or_null(issue.delete_reason),
            text_or_null(issue.original_type),
            optional_integer(issue.compaction_level),
            instant_or_null(issue.compacted_at),
            text_or_null(issue.compacted_at_commit),
            optional_integer(issue.original_size),
            text_or_null(issue.sender),
            SqlData::Integer(if issue.ephemeral { 1int } else { 0int }),
            SqlData::Integer(if issue.pinned { 1int } else { 0int }),
            SqlData::Integer(if issue.is_template { 1int } else { 0int }),
        ],
    }
}

/// The values of the whole row of an issue, column by column.
fn row_values(issue: &Issue) -> (r: Vec<SqlValue>)
    ensures
        values_view(r@) == write_issue_statement(issue@).params,
{
    let mut params: Vec<SqlValue> = Vec::new();
    params.push(text_value(issue.id.as_str()));
    params.push(optional_value(&issue.content_hash));
    params.push(text_value(issue.title.as_str()));
    params.push(optional_value(&issue.description));
    params.push(optional_value(&issue.design));
    params.push(optional_value(&issue.acceptance_criteria));
    params.push(optional_value(&issue.notes));
    params.push(text_value(issue.status.as_str()));
    params.push(SqlValue::Integer(issue.priority.0 as i64));
    params.push(text_value(issue.issue_type.as_str()));
    params.push(optional_value(&issue.assignee));
    params.push(optional_value(&issue.owner));
    params.push(optional_integer_value(issue.estimated_minutes));
    params.push(SqlValue::Text(issue.created_at.to_rfc3339()));
    params.push(optional_value(&issue.created_by));
    params.push(SqlValue::Text(issue.updated_at.to_rfc3339()));
    params.push(instant_value(&issue.closed_at));
    params.push(optional_value(&issue.close_reason));
    params.push(optional_value(&issue.closed_by_session));
    params.push(instant_value(&issue.due_at));
    params.push(instant_value(&issue.defer_until));
    params.push(optional_value(&issue.external_ref));
    params.push(optional_value(&issue.source_system));
    params.push(instant_value(&issue.deleted_at));
    params.push(optional_value(&issue.deleted_by));
    params.push(optional_value(&issue.delete_reason));
    params.push(optional_value(&issue.original_type));
    params.push(optional_integer_value(issue.compaction_level));
    params.push(instant_value(&issue.compacted_at));
    params.push(optional_value(&issue.compacted_at_commit));
    params.push(optional_integer_value(issue.original_size));
    params.push(optional_value(&issue.sender));
    params.push(SqlValue::Integer(if issue.ephemeral { 1 } else { 0 }));
    params.push(SqlValue::Integer(if issue.pinned { 1 } else { 0 }));
    params.push(SqlValue::Integer(if issue.is_template { 1 } else { 0 }));
    assert(values_view(params@) =~= write_issue_statement(issue@).params);
    params
}

/// Builds the statement that writes the whole row of an issue.
pub fn write_issue(issue: &Issue) -> (r: SqlStatement)
    ensures
        r@ == write_issue_statement(issue@),
        !binds_real(r@.params),
{
    SqlStatement { sql: WRITE_ISSUE.to_owned(), params: row_values(issue) }
}

/// The statement that inserts the row of a new issue: the whole row, as
/// [`write_issue_statement`] writes it, but it fails where the database
/// holds a row under the id already.
pub open spec fn insert_issue_statement(issue: IssueData) -> SqlStatementData {
    SqlStatementData { sql: INSERT_ISSUE@, params: write_issue_statement(issue).params }
}

/// Builds the statement that inserts the row of a new issue.
pub fn insert_issue(issue: &Issue) -> (r: SqlStatement)
    ensures
        r@ == insert_issue_statement(issue@),
        !binds_real(r@.params),
{
    SqlStatement { sql: INSERT_ISSUE.to_owned(), params: row_values(issue) }
}

/// The statement that inserts a comment.
pub open spec fn insert_comment_statement(issue_id: Seq<char>, author: Seq<char>, body: Seq<char>, created_at: Timestamp) -> SqlStatementData {
    SqlStatementData {
        sql: INSERT_COMMENT@,
        params: seq![
            SqlData::Text(issue_id),
            SqlData::Text(author),
            SqlData::Text(body),
            SqlData::Text(created_at.text()),
        ],
    }
}

/// Builds the statement that inserts a comment.
pub fn insert_comment(issue_id: &str, author: &str, body: &str, created_at: &Timestamp) -> (r: SqlStatement)
    ensures
        r@ == insert_comment_statement(issue_id@, author@, body@, *created_at),
        !binds_real(r@.params),
{
    let mut params: Vec<SqlValue> = Vec::new();
    params.push(text_value(issue_id));
    params.push(text_value(author));
    params.push(text_value(body));
    params.push(SqlValue::Text(created_at.to_rfc3339()));
    let r = SqlStatement { sql: INSERT_COMMENT.to_owned(), params };
    assert(r@.params =~= insert_comment_statement(issue_id@, author@, body@, *created_at).params);
    r
}

/// A deletion writes all four deletion fields, none of them `NULL`, together
/// with the status, in one statement.
pub proof fn tombstone_fills_all_four_fields(
    id: Seq<char>,
    actor: Seq<char>,
    reason: Seq<char>,
    original_type: Seq<char>,
    now: Timestamp,
)
    ensures
        tombstone_statement(id, actor, reason, original_type, now).params[0] is Text,
        tombstone_statement(id, actor, reason, original_type, now).params[1] is Text,
        tombstone_statement(id, actor, reason, original_type, now).params[2] is Text,
        tombstone_statement(id, actor, reason, original_type, now).params[3] is Text,
        tombstone_living_statement(id, actor, reason, now).params[0] is Text,
        tombstone_living_statement(id, actor, reason, now).params[1] is Text,
        tombstone_living_statement(id, actor, reason, now).params[2] is Text,
{
}

} // verus!
