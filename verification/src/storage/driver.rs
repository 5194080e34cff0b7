//! The calls into rusqlite.  Each function here hands its arguments to one
//! rusqlite function and hands the result back; what SQLite does with a
//! statement depends on the database, so nothing is claimed of it.

use vstd::prelude::*;
use crate::storage::sql::SqlValue;

verus! {

#[verifier::external_type_specification]
#[verifier::external_body]
pub struct ExConnection(rusqlite::Connection);

#[verifier::external_type_specification]
#[verifier::external_body]
pub struct ExTransaction<'conn>(rusqlite::Transaction<'conn>);

#[verifier::external_type_specification]
#[verifier::external_body]
pub struct ExPrepared<'conn>(rusqlite::Statement<'conn>);

#[verifier::external_type_specification]
#[verifier::external_body]
pub struct ExRows<'stmt>(rusqlite::Rows<'stmt>);

#[verifier::external_type_specification]
#[verifier::external_body]
pub struct ExRow<'stmt>(rusqlite::Row<'stmt>);

#[verifier::external_type_specification]
#[verifier::external_body]
pub struct ExDriverError(rusqlite::Error);

#[verifier::external_type_specification]
#[verifier::external_body]
pub struct ExDriverValue(rusqlite::types::Value);

/// `rusqlite::Connection::open`: opens, or creates, the database file at `path`.
#[verifier::external_body]
pub(crate) fn connect(path: &str) -> Result<rusqlite::Connection, rusqlite::Error> {
    rusqlite::Connection::open(path)
}

/// `rusqlite::Connection::open_in_memory`: a new, empty database in memory.
#[verifier::external_body]
pub(crate) fn connect_in_memory() -> Result<rusqlite::Connection, rusqlite::Error> {
    rusqlite::Connection::open_in_memory()
}

/// `rusqlite::Connection::transaction_with_behavior` with
/// `TransactionBehavior::Immediate`: begins a transaction that takes the write
/// lock at once.  The transaction rolls back when it is dropped uncommitted.
#[verifier::external_body]
pub(crate) fn begin_immediate<'a>(conn: &'a mut rusqlite::Connection) -> Result<rusqlite::Transaction<'a>, rusqlite::Error> {
    conn.transaction_with_behavior(rusqlite::TransactionBehavior::Immediate)
}

/// `rusqlite::Transaction::commit`.
#[verifier::external_body]
pub(crate) fn commit(tx: rusqlite::Transaction<'_>) -> Result<(), rusqlite::Error> {
    tx.commit()
}

/// The connection that a transaction runs on (`Deref` of `rusqlite::Transaction`).
#[verifier::external_body]
pub(crate) fn connection_of<'a, 'conn>(tx: &'a rusqlite::Transaction<'conn>) -> &'a rusqlite::Connection {
    tx
}

/// `rusqlite::Connection::execute_batch`: runs statements that take no values.
#[verifier::external_body]
pub(crate) fn run_batch(conn: &rusqlite::Connection, sql: &str) -> Result<(), rusqlite::Error> {
    conn.execute_batch(sql)
}

/// The rusqlite value for a value of this crate.  A `Real` has no number to
/// hand over and is left out.
#[verifier::external_body]
pub(crate) fn bound_value(value: &SqlValue) -> rusqlite::types::Value
    requires
        !(value is Real),
{
    match value {
        SqlValue::Null => rusqlite::types::Value::Null,
        SqlValue::Integer(i) => rusqlite::types::Value::Integer(*i),
        SqlValue::Real => rusqlite::types::Value::Null,
        SqlValue::Text(s) => rusqlite::types::Value::Text(s.clone()),
        SqlValue::Blob(b) => rusqlite::types::Value::Blob(b.clone()),
    }
}

/// `rusqlite::Connection::execute` with the values bound in order.  On success
/// the result is the number of rows that SQLite reports as changed.
#[verifier::external_body]
pub(crate) fn run(conn: &rusqlite::Connection, sql: &str, values: &Vec<rusqlite::types::Value>) -> Result<usize, rusqlite::Error> {
    conn.execute(sql, rusqlite::params_from_iter(values.iter()))
}

/// `rusqlite::Connection::prepare`.
#[verifier::external_body]
pub(crate) fn prepare<'a>(conn: &'a rusqlite::Connection, sql: &str) -> Result<rusqlite::Statement<'a>, rusqlite::Error> {
    conn.prepare(sql)
}

/// `rusqlite::Statement::column_count`.
#[verifier::external_body]
pub(crate) fn column_count(statement: &rusqlite::Statement<'_>) -> usize {
    statement.column_count()
}

/// `rusqlite::Statement::query` with the values bound in order.
#[verifier::external_body]
pub(crate) fn start_query<'a>(statement: &'a mut rusqlite::Statement<'_>, values: &Vec<rusqlite::types::Value>) -> Result<rusqlite::Rows<'a>, rusqlite::Error> {
    statement.query(rusqlite::params_from_iter(values.iter()))
}

/// `rusqlite::Rows::next`: the next row, or `None` after the last.
#[verifier::external_body]
pub(crate) fn next_row<'a, 'stmt>(rows: &'a mut rusqlite::Rows<'stmt>) -> Result<Option<&'a rusqlite::Row<'stmt>>, rusqlite::Error> {
    rows.next()
}

/// `rusqlite::Row::get` of a `rusqlite::types::Value`, handed over as a value
/// of this crate.  Of a floating-point number only the presence is kept.
#[verifier::external_body]
pub(crate) fn column_value(row: &rusqlite::Row<'_>, index: usize) -> Result<SqlValue, rusqlite::Error> {
    match row.get::<usize, rusqlite::types::Value>(index)? {
        rusqlite::types::Value::Null => Ok(SqlValue::Null),
        rusqlite::types::Value::Integer(i) => Ok(SqlValue::Integer(i)),
        rusqlite::types::Value::Real(_) => Ok(SqlValue::Real),
        rusqlite::types::Value::Text(s) => Ok(SqlValue::Text(s)),
        rusqlite::types::Value::Blob(b) => Ok(SqlValue::Blob(b)),
    }
}

/// The SQLite failures that the store tells apart.
#[derive(Clone, Copy, Debug, PartialEq, Eq, Structural)]
pub enum FailureKind {
    /// The database file is locked by another connection.
    Busy,
    /// A table is locked.
    Locked,
    /// A constraint of the schema was violated.
    Constraint,
    /// The disk or the file system failed.
    Io,
    /// The database file could not be opened.
    CannotOpen,
    /// The file is not a database.
    NotADatabase,
    /// The database file is damaged.
    Corrupt,
    /// Any other failure, those that SQLite did not report included.
    Other,
}

/// `rusqlite::Error::sqlite_error_code`, with the codes that the store tells
/// apart handed over one for one.
#[verifier::external_body]
pub(crate) fn failure_kind(error: &rusqlite::Error) -> FailureKind {
    match error.sqlite_error_code() {
        Some(rusqlite::ErrorCode::DatabaseBusy) => FailureKind::Busy,
        Some(rusqlite::ErrorCode::DatabaseLocked) => FailureKind::Locked,
        Some(rusqlite::ErrorCode::ConstraintViolation) => FailureKind::Constraint,
        Some(rusqlite::ErrorCode::SystemIoFailure) => FailureKind::Io,
        Some(rusqlite::ErrorCode::CannotOpen) => FailureKind::CannotOpen,
        Some(rusqlite::ErrorCode::NotADatabase) => FailureKind::NotADatabase,
        Some(rusqlite::ErrorCode::DatabaseCorrupt) => FailureKind::Corrupt,
        _ => FailureKind::Other,
    }
}

/// What `Display` of `rusqlite::Error` writes.
#[verifier::external_body]
pub(crate) fn failure_message(error: &rusqlite::Error) -> String {
    error.to_string()
}

} // verus!
