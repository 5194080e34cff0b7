//! The errors that the engine reports.

use vstd::prelude::*;
use crate::text::{digits, format_decimal};

verus! {

/// Every way in which an operation can fail.  The set is closed: callers can
/// handle each code, with `Internal` as the catch-all.
#[derive(Debug)]
pub enum BeadsError {
    IssueNotFound { id: String },
    IdCollision { id: String },
    InvalidId { id: String },
    InvalidPrefix { prefix: String },
    InvalidArgument { message: String },
    CycleDetected { issue_id: String, depends_on_id: String },
    ParentExists { id: String },
    HasDependents { id: String, count: usize },
    NotClosed { id: String },
    InvalidTransition { from: String, to: String },
    /// The directory holds a workspace already.
    AlreadyInitialized,
    /// The write lock could not be had within the busy timeout.
    LockContention,
    StaleDatabase,
    /// A malformed line of the text export, with its number.
    ParseError { line: usize, message: String },
    IoError { message: String },
    SchemaError { message: String },
    Internal { message: String },
}

impl BeadsError {
    /// Whether the error is one that the database gives rise to: a lock that
    /// could not be had, a failing disk, a file that is no database of this
    /// schema, or another failure inside.
    pub open spec fn from_storage(self) -> bool {
        self is LockContention || self is IoError || self is SchemaError || self is Internal
    }

    /// Whether the error says that there is no issue `id`.
    pub open spec fn misses(self, id: Seq<char>) -> bool {
        self matches BeadsError::IssueNotFound { id: missing } && missing@ == id
    }
}

impl BeadsError {
    /// Whether the error is the caller's to mend: a domain error, a stale
    /// database or a malformed export.  The others are the machine's.
    pub open spec fn is_user_error(self) -> bool {
        !(self is LockContention || self is IoError || self is SchemaError || self is Internal)
    }

    /// The process exit code for the error: 1 for an error of the user or the
    /// domain, 2 for an internal or I/O error.
    pub fn exit_code(&self) -> (r: i32)
        ensures
            r == (if self.is_user_error() { 1i32 } else { 2i32 }),
    {
        match self {
            BeadsError::LockContention => 2,
            BeadsError::IoError { .. } => 2,
            BeadsError::SchemaError { .. } => 2,
            BeadsError::Internal { .. } => 2,
            _ => 1,
        }
    }

    /// The name of the error's code.
    pub open spec fn code_text(self) -> Seq<char> {
        match self {
            BeadsError::IssueNotFound { .. } => "IssueNotFound"@,
            BeadsError::IdCollision { .. } => "IdCollision"@,
            BeadsError::InvalidId { .. } => "InvalidId"@,
            BeadsError::InvalidPrefix { .. } => "InvalidPrefix"@,
            BeadsError::InvalidArgument { .. } => "InvalidArgument"@,
            BeadsError::CycleDetected { .. } => "CycleDetected"@,
            BeadsError::ParentExists { .. } => "ParentExists"@,
            BeadsError::HasDependents { .. } => "HasDependents"@,
            BeadsError::NotClosed { .. } => "NotClosed"@,
            BeadsError::InvalidTransition { .. } => "InvalidTransition"@,
            BeadsError::AlreadyInitialized => "AlreadyInitialized"@,
            BeadsError::LockContention => "LockContention"@,
            BeadsError::StaleDatabase => "StaleDatabase"@,
            BeadsError::ParseError { .. } => "ParseError"@,
            BeadsError::IoError { .. } => "IoError"@,
            BeadsError::SchemaError { .. } => "SchemaError"@,
            BeadsError::Internal { .. } => "Internal"@,
        }
    }

    pub fn code(&self) -> (r: &'static str)
        ensures
            r@ == self.code_text(),
    {
        match self {
            BeadsError::IssueNotFound { .. } => "IssueNotFound",
            BeadsError::IdCollision { .. } => "IdCollision",
            BeadsError::InvalidId { .. } => "InvalidId",
            BeadsError::InvalidPrefix { .. } => "InvalidPrefix",
            BeadsError::InvalidArgument { .. } => "InvalidArgument",
            BeadsError::CycleDetected { .. } => "CycleDetected",
            BeadsError::ParentExists { .. } => "ParentExists",
            BeadsError::HasDependents { .. } => "HasDependents",
            BeadsError::NotClosed { .. } => "NotClosed",
            BeadsError::InvalidTransition { .. } => "InvalidTransition",
            BeadsError::AlreadyInitialized => "AlreadyInitialized",
            BeadsError::LockContention => "LockContention",
            BeadsError::StaleDatabase => "StaleDatabase",
            BeadsError::ParseError { .. } => "ParseError",
            BeadsError::IoError { .. } => "IoError",
            BeadsError::SchemaError { .. } => "SchemaError",
            BeadsError::Internal { .. } => "Internal",
        }
    }
}

/// A `SchemaError` with the given message.
pub fn schema_error(message: &str) -> (r: BeadsError)
    ensures
        r matches BeadsError::SchemaError { message: m } && m@ == message@,
{
    BeadsError::SchemaError { message: message.to_owned() }
}

/// An `InvalidArgument` error with the given message.
pub fn invalid_argument(message: &str) -> (r: BeadsError)
    ensures
        r matches BeadsError::InvalidArgument { message: m } && m@ == message@,
{
    BeadsError::InvalidArgument { message: message.to_owned() }
}

impl BeadsError {
    /// What went wrong, in words.
    pub open spec fn message_text(self) -> Seq<char> {
        match self {
            BeadsError::IssueNotFound { id } => "issue not found: "@ + id@,
            BeadsError::IdCollision { id } => "an issue with this id exists already: "@ + id@,
            BeadsError::InvalidId { id } => "not an issue id: "@ + id@,
            BeadsError::InvalidPrefix { prefix } => "not a prefix: "@ + prefix@,
            BeadsError::InvalidArgument { message } => "invalid argument: "@ + message@,
            BeadsError::CycleDetected { issue_id, depends_on_id } => "a dependency of "@ + issue_id@
                + " on "@ + depends_on_id@ + " would close a cycle"@,
            BeadsError::ParentExists { id } => "the issue has a parent already: "@ + id@,
            BeadsError::HasDependents { id, count } => "other issues depend on "@ + id@ + ": "@ + digits(
                count as nat,
                10,
            ),
            BeadsError::NotClosed { id } => "the issue is not closed: "@ + id@,
            BeadsError::InvalidTransition { from, to } => "an issue cannot go from "@ + from@ + " to "@
                + to@,
            BeadsError::AlreadyInitialized => "the directory holds a workspace already"@,
            BeadsError::LockContention => "the database is locked by another process"@,
            BeadsError::StaleDatabase => "the export is newer than the database"@,
            BeadsError::ParseError { line, message } => "line "@ + digits(line as nat, 10) + ": "@
                + message@,
            BeadsError::IoError { message } => "input or output failed: "@ + message@,
            BeadsError::SchemaError { message } => "the database does not fit the schema: "@
                + message@,
            BeadsError::Internal { message } => "internal error: "@ + message@,
        }
    }

    /// Writes what went wrong, in words.
    pub fn message(&self) -> (r: String)
        ensures
            r@ == self.message_text(),
    {
        match self {
            BeadsError::IssueNotFound { id } => prefixed("issue not found: ", id.as_str()),
            BeadsError::IdCollision { id } => prefixed(
                "an issue with this id exists already: ",
                id.as_str(),
            ),
            BeadsError::InvalidId { id } => prefixed("not an issue id: ", id.as_str()),
            BeadsError::InvalidPrefix { prefix } => prefixed("not a prefix: ", prefix.as_str()),
            BeadsError::InvalidArgument { message } => prefixed("invalid argument: ", message.as_str()),
            BeadsError::CycleDetected { issue_id, depends_on_id } => {
                let mut r: String = prefixed("a dependency of ", issue_id.as_str());
                r.append(" on ");
                r.append(depends_on_id.as_str());
                r.append(" would close a cycle");
                r
            },
            BeadsError::ParentExists { id } => prefixed("the issue has a parent already: ", id.as_str()),
            BeadsError::HasDependents { id, count } => {
                let mut r: String = prefixed("other issues depend on ", id.as_str());
                r.append(": ");
                let number: String = format_decimal(*count as u64);
                r.append(number.as_str());
                r
            },
            BeadsError::NotClosed { id } => prefixed("the issue is not closed: ", id.as_str()),
            BeadsError::InvalidTransition { from, to } => {
                let mut r: String = prefixed("an issue cannot go from ", from.as_str());
                r.append(" to ");
                r.append(to.as_str());
                r
            },
            BeadsError::AlreadyInitialized => "the directory holds a workspace already".to_owned(),
            BeadsError::LockContention => "the database is locked by another process".to_owned(),
            BeadsError::StaleDatabase => "the export is newer than the database".to_owned(),
            BeadsError::ParseError { line, message } => {
                let number: String = format_decimal(*line as u64);
                let mut r: String = prefixed("line ", number.as_str());
                r.append(": ");
                r.append(message.as_str());
                r
            },
            BeadsError::IoError { message } => prefixed("input or output failed: ", message.as_str()),
            BeadsError::SchemaError { message } => prefixed(
                "the database does not fit the schema: ",
                message.as_str(),
            ),
            BeadsError::Internal { message } => prefixed("internal error: ", message.as_str()),
        }
    }

    /// The issue that the error is about, where it is about one.
    pub fn issue_id(&self) -> (r: Option<&str>)
        ensures
            match *self {
                BeadsError::IssueNotFound { id } => r matches Some(s) && s@ == id@,
                BeadsError::IdCollision { id } => r matches Some(s) && s@ == id@,
                BeadsError::InvalidId { id } => r matches Some(s) && s@ == id@,
                BeadsError::CycleDetected { issue_id, .. } => r matches Some(s) && s@ == issue_id@,
                BeadsError::ParentExists { id } => r matches Some(s) && s@ == id@,
                BeadsError::HasDependents { id, .. } => r matches Some(s) && s@ == id@,
                BeadsError::NotClosed { id } => r matches Some(s) && s@ == id@,
                _ => r is None,
            },
    {
        match self {
            BeadsError::IssueNotFound { id } => Some(id.as_str()),
            BeadsError::IdCollision { id } => Some(id.as_str()),
            BeadsError::InvalidId { id } => Some(id.as_str()),
            BeadsError::CycleDetected { issue_id, .. } => Some(issue_id.as_str()),
            BeadsError::ParentExists { id } => Some(id.as_str()),
            BeadsError::HasDependents { id, .. } => Some(id.as_str()),
            BeadsError::NotClosed { id } => Some(id.as_str()),
            _ => None,
        }
    }

    /// The line of the export that the error is about, where it is about one.
    pub fn line_number(&self) -> (r: Option<usize>)
        ensures
            r == (match *self {
                BeadsError::ParseError { line, .. } => Some(line),
                _ => None::<usize>,
            }),
    {
        match self {
            BeadsError::ParseError { line, .. } => Some(*line),
            _ => None,
        }
    }

    /// What to try next, where there is something to try.
    pub fn hint(&self) -> (r: Option<&'static str>)
        ensures
            r is Some <==> (self is StaleDatabase || self is LockContention || self is HasDependents
                || self is AlreadyInitialized),
    {
        match self {
            BeadsError::StaleDatabase => Some("run `sync --import-only` first, or pass `--allow-stale`"),
            BeadsError::LockContention => Some("wait for the other process, or raise `--lock-timeout`"),
            BeadsError::HasDependents { .. } => Some("pass `--cascade` to delete them too, or `--force` to orphan them"),
            BeadsError::AlreadyInitialized => Some("pass `--force` to replace the workspace"),
            _ => None,
        }
    }
}

fn prefixed(prefix: &str, rest: &str) -> (r: String)
    ensures
        r@ == prefix@ + rest@,
{
    let mut r: String = prefix.to_owned();
    r.append(rest);
    r
}

} // verus!
