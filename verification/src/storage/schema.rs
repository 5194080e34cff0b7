//! The tables of the store and their version.

use vstd::prelude::*;
use crate::error::BeadsError;
use crate::storage::driver::run_batch;
use crate::storage::rows::{column_int, int_at};
use crate::storage::sql::{binds_real, SqlData, SqlStatement, SqlStatementData, SqlValue, values_view};
use crate::storage::sqlite::{fetch_all, run_statement, storage_error};

verus! {

/// The schema version that this library writes and the highest that it reads.
pub const SCHEMA_VERSION: i64 = 1;

/// Tables and indexes.  Every statement is conditional on the object not
/// existing, so the text can be run on a new database and on one that is in
/// use alike.
pub const SCHEMA_SQL: &'static str = "
CREATE TABLE IF NOT EXISTS issues (
    id TEXT PRIMARY KEY,
    content_hash TEXT,
    title TEXT NOT NULL CHECK (length(title) > 0),
    description TEXT,
    design TEXT,
    acceptance_criteria TEXT,
    notes TEXT,
    status TEXT NOT NULL DEFAULT 'open',
    priority INTEGER NOT NULL DEFAULT 2,
    issue_type TEXT NOT NULL DEFAULT 'task',
    assignee TEXT,
    owner TEXT,
    estimated_minutes INTEGER,
    created_at TEXT NOT NULL,
    created_by TEXT,
    updated_at TEXT NOT NULL,
    closed_at TEXT,
    close_reason TEXT,
    closed_by_session TEXT,
    due_at TEXT,
    defer_until TEXT,
    external_ref TEXT,
    source_system TEXT,
    deleted_at TEXT,
    deleted_by TEXT,
    delete_reason TEXT,
    original_type TEXT,
    compaction_level INTEGER,
    compacted_at TEXT,
    compacted_at_commit TEXT,
    original_size INTEGER,
    sender TEXT,
    ephemeral INTEGER DEFAULT 0,
    pinned INTEGER DEFAULT 0,
    is_template INTEGER DEFAULT 0
);
CREATE TABLE IF NOT EXISTS dependencies (
    issue_id TEXT NOT NULL,
    depends_on_id TEXT NOT NULL,
    type TEXT NOT NULL DEFAULT 'blocks',
    created_at TEXT NOT NULL,
    created_by TEXT,
    PRIMARY KEY (issue_id, depends_on_id)
);
CREATE TABLE IF NOT EXISTS labels (
    issue_id TEXT NOT NULL,
    label TEXT NOT NULL,
    PRIMARY KEY (issue_id, label)
);
CREATE TABLE IF NOT EXISTS comments (
    id INTEGER PRIMARY KEY AUTOINCREMENT,
    issue_id TEXT NOT NULL,
    author TEXT NOT NULL,
    text TEXT NOT NULL,
    created_at TEXT NOT NULL
);
CREATE TABLE IF NOT EXISTS events (
    id INTEGER PRIMARY KEY AUTOINCREMENT,
    issue_id TEXT NOT NULL,
    event_type TEXT NOT NULL,
    actor TEXT NOT NULL,
    old_value TEXT,
    new_value TEXT,
    comment TEXT,
    created_at TEXT NOT NULL
);
CREATE TABLE IF NOT EXISTS dirty_issues (
    issue_id TEXT PRIMARY KEY,
    marked_at TEXT NOT NULL
);
CREATE TABLE IF NOT EXISTS blocked_issues_cache (
    issue_id TEXT PRIMARY KEY,
    blocked_by_json TEXT NOT NULL
);
CREATE TABLE IF NOT EXISTS schema_version (
    version INTEGER NOT NULL
);
CREATE INDEX IF NOT EXISTS idx_issues_status_priority ON issues (status, priority);
CREATE INDEX IF NOT EXISTS idx_issues_assignee ON issues (assignee);
CREATE INDEX IF NOT EXISTS idx_dependencies_issue ON dependencies (issue_id);
CREATE INDEX IF NOT EXISTS idx_dependencies_depends_on ON dependencies (depends_on_id);
CREATE INDEX IF NOT EXISTS idx_labels_issue ON labels (issue_id);
CREATE INDEX IF NOT EXISTS idx_comments_issue ON comments (issue_id);
CREATE INDEX IF NOT EXISTS idx_events_issue ON events (issue_id);
CREATE INDEX IF NOT EXISTS idx_events_created_at ON events (created_at);
";

pub const SELECT_VERSION: &'static str = "SELECT max(version) FROM schema_version";

pub const INSERT_VERSION: &'static str = "INSERT INTO schema_version (version) VALUES (?)";

/// What to do with a database, by the version it records.
#[derive(Clone, Copy, Debug, PartialEq, Eq, Structural)]
pub enum VersionCheck {
    /// The database records no version yet: record the current one.
    Record,
    /// The database is of a version that this library knows.
    Accept,
    /// The database was written by a later version.
    Refuse,
}

/// A database with no recorded version gets the current one; one of a known
/// version is accepted; one of a later version is refused.
pub fn check_version(found: Option<i64>) -> (r: VersionCheck)
    ensures
        r == (match found {
            None => VersionCheck::Record,
            Some(v) => if v <= SCHEMA_VERSION {
                VersionCheck::Accept
            } else {
                VersionCheck::Refuse
            },
        }),
{
    match found {
        None => VersionCheck::Record,
        Some(v) => if v <= SCHEMA_VERSION {
            VersionCheck::Accept
        } else {
            VersionCheck::Refuse
        },
    }
}

/// The version in the answer to `SELECT_VERSION`: the number in the first
/// column of the first row, `None` where the table is empty.
pub open spec fn recorded_version(rows: Seq<Seq<SqlData>>) -> Option<int> {
    if rows.len() == 0 {
        None
    } else {
        int_at(rows[0], 0)
    }
}

/// Reads the answer to `SELECT_VERSION`.
pub fn read_version(rows: &Vec<Vec<SqlValue>>) -> (r: Option<i64>)
    ensures
        match recorded_version(Seq::new(rows@.len(), |i: int| values_view(rows@[i]@))) {
            Some(v) => r == Some(v as i64) && v == (v as i64) as int,
            None => r is None,
        },
{
    if rows.len() == 0 {
        None
    } else {
        match column_int(&rows[0], 0) {
            Ok(v) => Some(v),
            Err(_) => None,
        }
    }
}

/// The statement that records the current version.
pub fn record_version() -> (r: SqlStatement)
    ensures
        r@ == (SqlStatementData {
            sql: INSERT_VERSION@,
            params: seq![SqlData::Integer(SCHEMA_VERSION as int)],
        }),
        !binds_real(r@.params),
{
    let mut params: Vec<SqlValue> = Vec::new();
    params.push(SqlValue::Integer(SCHEMA_VERSION));
    let r = SqlStatement { sql: INSERT_VERSION.to_owned(), params };
    assert(r@.params =~= seq![SqlData::Integer(SCHEMA_VERSION as int)]);
    r
}

/// Creates the tables and indexes that are missing and checks the version.
/// A database written by a later version is refused with `SchemaError`.
pub fn apply_schema(conn: &rusqlite::Connection) -> (r: Result<(), BeadsError>)
    ensures
        r matches Err(e) ==> e.from_storage(),
{
    match run_batch(conn, SCHEMA_SQL) {
        Ok(()) => {},
        Err(e) => {
            return Err(storage_error(e));
        },
    }
    let query = SqlStatement { sql: SELECT_VERSION.to_owned(), params: Vec::new() };
    let rows: Vec<Vec<SqlValue>> = fetch_all(conn, &query)?;
    match check_version(read_version(&rows)) {
        VersionCheck::Accept => Ok(()),
        VersionCheck::Record => {
            let _ = run_statement(conn, &record_version())?;
            Ok(())
        },
        VersionCheck::Refuse => Err(
            BeadsError::SchemaError {
                message: "the database was written by a later version".to_owned(),
            },
        ),
    }
}

} // verus!
