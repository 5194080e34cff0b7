//! `SQLite` storage implementation: running statements, the mutation
//! pipeline, and creating, reading, linking and labelling issues.

use vstd::prelude::*;
use crate::error::{BeadsError, invalid_argument};
use crate::format::{IssueDetails, IssueWithDependencyMetadata};
use crate::graph::{Edge, Verdict, check_new_dependency, verdict};
use crate::model::{Comment, DependencyType, Event, EventType, Issue, IssueData, Status, texts};
use crate::storage::effects::{
    dependencies_removed, dependency_added, dependency_removed, issue_created, label_added, marked,
    marked_all, recorded, removed_links_comment, untouched,
};
use crate::storage::events::get_events;
use crate::readiness::limited;
use crate::storage::query::{ListFilters, build_list_query, build_search_query};
use crate::storage::rows::{
    comments_from_rows, count_in, count_to_size, decoded_edges, decoded_issue, edge_rows_ok,
    edges_from_rows, issue_rows_ok, issues_from_rows, metadata_from_rows, read_count,
    labels_from_rows, read_first_text, read_texts, rows_view,
};
use crate::storage::schema::apply_schema;
use crate::storage::statements::{
    COUNT_DEPENDENCIES, COUNT_DEPENDENTS, COUNT_ISSUE, COUNT_ISSUES, COUNT_LINK,
    DELETE_DEPENDENCY, DELETE_INCOMING, DELETE_OUTGOING, INSERT_LABEL, SELECT_BLOCKS,
    SELECT_COMMENTS, SELECT_DEPENDENCIES, SELECT_DEPENDENCIES_WITH_METADATA, SELECT_DEPENDENTS,
    SELECT_DEPENDENTS_WITH_METADATA, SELECT_LABELS, SELECT_LINKED, SELECT_PARENT,
    insert_dependency, insert_dependency_statement, insert_issue, keyed, paired, plain,
    select_issue,
};
use crate::text::{digits, format_decimal, ordered, text_eq, trim, trimmed};
use crate::time::Timestamp;
use crate::storage::context::{MutationContext, commit_plan_can_be_bound, statements_view};
use crate::storage::driver::{
    FailureKind, begin_immediate, bound_value, column_count, column_value, commit, connect,
    connect_in_memory, connection_of, failure_kind, failure_message, next_row, prepare, run,
    run_batch, start_query,
};
use crate::storage::sql::{SqlData, SqlStatement, SqlValue, binds_real, values_view};

verus! {

/// SQLite-based storage backend.
#[derive(Debug)]
pub struct SqliteStorage {
    conn: rusqlite::Connection,
}

/// The error that a failure of kind `kind` with the text `message` is reported as.
pub open spec fn reported_failure(kind: FailureKind, message: Seq<char>, r: BeadsError) -> bool {
    match kind {
        FailureKind::Busy | FailureKind::Locked => r is LockContention,
        FailureKind::Io | FailureKind::CannotOpen => r matches BeadsError::IoError { message: m }
            && m@ == message,
        FailureKind::NotADatabase | FailureKind::Corrupt => r matches BeadsError::SchemaError {
            message: m,
        } && m@ == message,
        FailureKind::Constraint | FailureKind::Other => r matches BeadsError::Internal {
            message: m,
        } && m@ == message,
    }
}

/// Reports a failure by its kind: a lock that could not be had as
/// `LockContention`, a failing disk as `IoError`, a file that is no database
/// or a damaged one as `SchemaError`, anything else as `Internal`.
pub fn report_failure(kind: FailureKind, message: String) -> (r: BeadsError)
    ensures
        reported_failure(kind, message@, r),
{
    match kind {
        FailureKind::Busy | FailureKind::Locked => BeadsError::LockContention,
        FailureKind::Io | FailureKind::CannotOpen => BeadsError::IoError { message },
        FailureKind::NotADatabase | FailureKind::Corrupt => BeadsError::SchemaError { message },
        FailureKind::Constraint | FailureKind::Other => BeadsError::Internal { message },
    }
}

/// The error of this crate for a failure of SQLite.
pub fn storage_error(error: rusqlite::Error) -> (r: BeadsError)
    ensures
        r.from_storage(),
{
    report_failure(failure_kind(&error), failure_message(&error))
}

/// The statement that sets how long a connection waits for a lock.
pub open spec fn lock_timeout_sql(millis: nat) -> Seq<char> {
    "PRAGMA busy_timeout = "@ + digits(millis, 10)
}

/// Builds the statement that sets how long a connection waits for a lock.
pub fn lock_timeout_statement(millis: u64) -> (r: String)
    ensures
        r@ == lock_timeout_sql(millis as nat),
{
    let mut sql: String = "PRAGMA busy_timeout = ".to_owned();
    sql.append(format_decimal(millis).as_str());
    sql
}

/// Hands the values of a statement over to SQLite's own type.  A `Real` cannot
/// be bound.
fn bound_values(params: &Vec<SqlValue>) -> (r: Option<Vec<rusqlite::types::Value>>)
    ensures
        r is Some <==> !binds_real(values_view(params@)),
        r matches Some(v) ==> v@.len() == params@.len(),
{
    let mut out: Vec<rusqlite::types::Value> = Vec::new();
    let mut i: usize = 0;
    while i < params.len()
        invariant
            i <= params.len(),
            out@.len() == i,
            forall|j: int| 0 <= j < i ==> !(#[trigger] values_view(params@)[j] is Real),
        decreases params.len() - i,
    {
        assert(values_view(params@)[i as int] == params@[i as int]@);
        match &params[i] {
            SqlValue::Real => {
                return None;
            },
            _ => {},
        }
        out.push(bound_value(&params[i]));
        i = i + 1;
    }
    Some(out)
}

/// Runs a statement that returns no rows.  On success the result is the number
/// of rows that SQLite reports as changed.  A statement with a
/// floating-point value is `InvalidArgument`; any other failure is one of
/// the database.
pub fn run_statement(conn: &rusqlite::Connection, statement: &SqlStatement) -> (r: Result<usize, BeadsError>)
    ensures
        binds_real(statement@.params) ==> r matches Err(BeadsError::InvalidArgument { .. }),
        r matches Err(e) ==> e.from_storage() || (e is InvalidArgument && binds_real(statement@.params)),
{
    match bound_values(&statement.params) {
        Some(values) => match run(conn, statement.sql.as_str(), &values) {
            Ok(changed) => Ok(changed),
            Err(e) => Err(storage_error(e)),
        },
        None => Err(BeadsError::InvalidArgument {
            message: "a floating-point value cannot be bound".to_owned(),
        }),
    }
}

/// Reads all rows of a query, each as the list of its column values.  Every
/// row is as wide as the statement has columns.  A statement with a
/// floating-point value is `InvalidArgument`; any other failure is one of
/// the database.
pub fn fetch_all(conn: &rusqlite::Connection, statement: &SqlStatement) -> (r: Result<Vec<Vec<SqlValue>>, BeadsError>)
    ensures
        binds_real(statement@.params) ==> r matches Err(BeadsError::InvalidArgument { .. }),
        r matches Err(e) ==> e.from_storage() || (e is InvalidArgument && binds_real(statement@.params)),
        r matches Ok(rows) ==> forall|i: int, j: int|
            0 <= i < rows@.len() && 0 <= j < rows@.len() ==> (#[trigger] rows@[i])@.len() == (
            #[trigger] rows@[j])@.len(),
{
    let values = match bound_values(&statement.params) {
        Some(values) => values,
        None => {
            return Err(
                BeadsError::InvalidArgument {
                    message: "a floating-point value cannot be bound".to_owned(),
                },
            );
        },
    };
    let mut prepared = match prepare(conn, statement.sql.as_str()) {
        Ok(prepared) => prepared,
        Err(e) => {
            return Err(storage_error(e));
        },
    };
    let width: usize = column_count(&prepared);
    let mut rows = match start_query(&mut prepared, &values) {
        Ok(rows) => rows,
        Err(e) => {
            return Err(storage_error(e));
        },
    };
    let mut out: Vec<Vec<SqlValue>> = Vec::new();
    while out.len() < usize::MAX
        invariant
            !binds_real(statement@.params),
            forall|i: int| 0 <= i < out@.len() ==> (#[trigger] out@[i])@.len() == width,
        decreases usize::MAX - out.len(),
    {
        let row = match next_row(&mut rows) {
            Ok(Some(row)) => row,
            Ok(None) => {
                return Ok(out);
            },
            Err(e) => {
                return Err(storage_error(e));
            },
        };
        let mut cells: Vec<SqlValue> = Vec::new();
        let mut i: usize = 0;
        while i < width
            invariant
                !binds_real(statement@.params),
                i <= width,
                cells@.len() == i,
            decreases width - i,
        {
            match column_value(row, i) {
                Ok(cell) => {
                    cells.push(cell);
                },
                Err(e) => {
                    return Err(storage_error(e));
                },
            }
            i = i + 1;
        }
        out.push(cells);
    }
    Ok(out)
}


/// Runs statements in order, and stops at the first that fails.  With no
/// statement to run nothing can fail; a statement that binds a
/// floating-point value is `InvalidArgument`; any other failure is one of
/// the database.
pub fn run_all(conn: &rusqlite::Connection, statements: &Vec<SqlStatement>) -> (r: Result<(), BeadsError>)
    ensures
        statements@.len() == 0 ==> r is Ok,
        (exists|i: int| 0 <= i < statements@.len() && binds_real((#[trigger] statements@[i])@.params)) ==> r is Err,
        (forall|i: int| 0 <= i < statements@.len() ==> !binds_real((#[trigger] statements@[i])@.params))
            ==> (r matches Err(e) ==> e.from_storage()),
{
    let mut i: usize = 0;
    while i < statements.len()
        invariant
            i <= statements.len(),
            forall|k: int| 0 <= k < i ==> !binds_real((#[trigger] statements@[k])@.params),
        decreases statements.len() - i,
    {
        let _ = run_statement(conn, &statements[i])?;
        i = i + 1;
    }
    Ok(())
}

/// Whether a context is fresh for an operation and an actor: nothing is
/// gathered in it yet.
pub open spec fn fresh_context(ctx: MutationContext, op: Seq<char>, actor: Seq<char>) -> bool {
    &&& ctx.wf()
    &&& ctx.op_name@ == op
    &&& ctx.actor@ == actor
    &&& ctx.events@.len() == 0
    &&& ctx.dirty_ids@.len() == 0
    &&& !ctx.invalidate_blocked_cache
}

/// Begins a mutation: a transaction that takes the write lock at once, and
/// a fresh context for what the mutation gathers.
pub fn begin<'a>(conn: &'a mut rusqlite::Connection, op: &str, actor: &str) -> (r: Result<
    (rusqlite::Transaction<'a>, MutationContext),
    BeadsError,
>)
    ensures
        r matches Ok(started) ==> {
            &&& started.1.wf()
            &&& started.1.op_name@ == op@
            &&& started.1.actor@ == actor@
            &&& started.1.events@.len() == 0
            &&& started.1.dirty_ids@.len() == 0
            &&& !started.1.invalidate_blocked_cache
        },
        r matches Err(e) ==> e.from_storage(),
{
    match begin_immediate(conn) {
        Ok(tx) => Ok((tx, MutationContext::new(op, actor))),
        Err(e) => Err(storage_error(e)),
    }
}

/// Ends a mutation: writes the events, the dirty marks and, if asked for,
/// empties the cache of blocked issues, then commits.  Where any of it
/// fails the transaction is rolled back.
pub fn finish(tx: rusqlite::Transaction<'_>, ctx: &MutationContext) -> (r: Result<(), BeadsError>)
    ensures
        r matches Err(e) ==> e.from_storage(),
{
    let statements: Vec<SqlStatement> = ctx.commit_statements();
    proof {
        assert forall|i: int| 0 <= i < statements@.len() implies !binds_real(
            (#[trigger] statements@[i])@.params,
        ) by {
            assert(statements_view(statements@)[i] == statements@[i]@);
            commit_plan_can_be_bound(*ctx, i);
        }
    }
    run_all(connection_of(&tx), &statements)?;
    match commit(tx) {
        Ok(()) => Ok(()),
        Err(e) => Err(storage_error(e)),
    }
}

impl SqliteStorage {
    /// Open a new connection to the database at the given path.
    ///
    /// If the database does not exist, it will be created and the schema applied.
    pub fn open(path: &str) -> (r: Result<Self, BeadsError>)
        ensures
            r matches Err(e) ==> e.from_storage(),
    {
        let conn = match connect(path) {
            Ok(conn) => conn,
            Err(e) => {
                return Err(storage_error(e));
            },
        };
        apply_schema(&conn)?;
        Ok(SqliteStorage { conn })
    }

    /// Open an in-memory database for testing.
    pub fn open_memory() -> (r: Result<Self, BeadsError>)
        ensures
            r matches Err(e) ==> e.from_storage(),
    {
        let conn = match connect_in_memory() {
            Ok(conn) => conn,
            Err(e) => {
                return Err(storage_error(e));
            },
        };
        apply_schema(&conn)?;
        Ok(SqliteStorage { conn })
    }

    /// Sets how long a write waits for the lock of another writer, in
    /// milliseconds, before it fails with `LockContention`; 0 is not to wait
    /// at all.  A time of more than `i32::MAX` milliseconds is
    /// `InvalidArgument`.
    pub fn set_lock_timeout(&self, millis: u64) -> (r: Result<(), BeadsError>)
        ensures
            millis > i32::MAX ==> r matches Err(BeadsError::InvalidArgument { .. }),
            millis <= i32::MAX ==> (r matches Err(e) ==> e.from_storage()),
    {
        if millis > 0x7fff_ffff {
            return Err(invalid_argument("the lock timeout is too long"));
        }
        match run_batch(&self.conn, lock_timeout_statement(millis).as_str()) {
            Ok(()) => Ok(()),
            Err(e) => Err(storage_error(e)),
        }
    }

    /// The connection of the store.
    pub closed spec fn link(self) -> rusqlite::Connection {
        self.conn
    }

    /// Get a reference to the underlying connection (for use with event queries).
    #[must_use]
    pub fn connection(&self) -> (r: &rusqlite::Connection)
        ensures
            *r == self.link(),
    {
        &self.conn
    }

    /// Execute a mutation as one transaction.
    ///
    /// 1. Begin a transaction that takes the write lock at once.
    /// 2. Run `f` with the transaction and a fresh context.
    /// 3. Write the events, the dirty marks and, if asked for, empty the
    ///    cache of blocked issues.
    /// 4. Commit.
    ///
    /// If any step fails, `f` included, the transaction is rolled back and
    /// what the context had gathered is dropped with it.
    ///
    /// A value that comes back is one that `f` returned, run on a fresh
    /// context of this operation and actor; an error that comes back is one
    /// that `f` returned so, or a failure of the database.
    pub fn mutate<F, R>(&mut self, op: &str, actor: &str, f: F) -> (r: Result<R, BeadsError>)
        where F: FnOnce(&rusqlite::Transaction<'_>, &mut MutationContext) -> Result<R, BeadsError>
        requires
            forall|tx: &rusqlite::Transaction<'_>, ctx: &mut MutationContext|
                ctx.wf() && ctx.op_name@ == op@ && ctx.actor@ == actor@ && ctx.events@.len() == 0
                    && ctx.dirty_ids@.len() == 0 && !ctx.invalidate_blocked_cache
                    ==> call_requires(f, (tx, ctx)),
        ensures
            r matches Ok(value) ==> exists|tx: &rusqlite::Transaction<'_>, ctx: &mut MutationContext|
                fresh_context(mut_ref_current(ctx), op@, actor@) && call_ensures(
                    f,
                    (tx, ctx),
                    Ok::<R, BeadsError>(value),
                ),
            r matches Err(e) ==> e.from_storage() || exists|
                tx: &rusqlite::Transaction<'_>,
                ctx: &mut MutationContext,
            |
                fresh_context(mut_ref_current(ctx), op@, actor@) && call_ensures(
                    f,
                    (tx, ctx),
                    Err::<R, BeadsError>(e),
                ),
    {
        let started: (rusqlite::Transaction<'_>, MutationContext) = begin(&mut self.conn, op, actor)?;
        let tx = started.0;
        let mut ctx: MutationContext = started.1;
        let result: R = match f(&tx, &mut ctx) {
            Ok(result) => result,
            Err(e) => {
                return Err(e);
            },
        };
        finish(tx, &ctx)?;
        Ok(result)
    }

    /// Runs statements that touch nothing but the cache, as a mutation that
    /// gathers nothing: no event, no dirty mark.
    pub(crate) fn write_cache(&mut self, statements: &Vec<SqlStatement>) -> (r: Result<(), BeadsError>)
        ensures
            (forall|i: int| 0 <= i < statements@.len() ==> !binds_real((#[trigger] statements@[i])@.params))
                ==> (r matches Err(e) ==> e.from_storage()),
    {
        let body = |tx: &rusqlite::Transaction<'_>, ctx: &mut MutationContext| -> (out: Result<(), BeadsError>)
            ensures
                (forall|i: int| 0 <= i < statements@.len() ==> !binds_real((#[trigger] statements@[i])@.params))
                    ==> (out matches Err(e) ==> e.from_storage()),
            { run_all(connection_of(tx), statements) };
        self.mutate("write_cache", "cache", body)
    }

    /// Create a new issue.
    ///
    /// An issue without a title or an id, one whose priority is not 0 to 4,
    /// one that is a tombstone from the start and one with a deletion field
    /// set are refused before the database is touched.  An id that is taken
    /// is `IdCollision`.  Otherwise the whole row goes in, without labels,
    /// dependencies and comments; a `created` event is recorded, the issue
    /// is marked dirty and the cache of blocked issues is emptied, all in
    /// one transaction.  Nothing else fails but the database.
    pub fn create_issue(&mut self, issue: &Issue, actor: &str) -> (r: Result<(), BeadsError>)
        ensures
            unfit_to_create(issue@) ==> r matches Err(BeadsError::InvalidArgument { .. }),
            r matches Err(e) ==> {
                ||| e.from_storage()
                ||| e is InvalidArgument && unfit_to_create(issue@)
                ||| e matches BeadsError::IdCollision { id } && id@ == issue.id@
            },
    {
        check_new_issue(issue)?;
        let body = |tx: &rusqlite::Transaction<'_>, ctx: &mut MutationContext| -> (out: Result<(), BeadsError>)
            ensures
                creation(issue.id@, out),
            { create_in(connection_of(tx), ctx, issue) };
        self.mutate("create_issue", actor, body)
    }

    /// Check if an issue ID already exists.  A tombstone holds its id.
    /// The result is what [`counted_some`] makes of the answer of the
    /// database; nothing fails but the database.
    pub fn id_exists(&self, id: &str) -> (r: Result<bool, BeadsError>)
        ensures
            r matches Err(e) ==> e.from_storage(),
    {
        let rows: Vec<Vec<SqlValue>> = fetch_all(&self.conn, &keyed(COUNT_ISSUE, id))?;
        counted_some(&rows)
    }

    /// Count total issues in the database.
    pub fn count_issues(&self) -> (r: Result<usize, BeadsError>)
        ensures
            r matches Err(e) ==> e.from_storage(),
    {
        let rows: Vec<Vec<SqlValue>> = fetch_all(&self.conn, &plain(COUNT_ISSUES))?;
        let count: i64 = read_count(&rows)?;
        Ok(count_to_size(count))
    }

    /// Get an issue by ID: `None` where there is none.  Labels, dependencies
    /// and comments are not loaded.  The issue that is found has the id
    /// that was asked for; an answer of the database with another id is
    /// `Internal`.
    pub fn get_issue(&self, id: &str) -> (r: Result<Option<Issue>, BeadsError>)
        ensures
            r matches Err(e) ==> e.from_storage(),
            r matches Ok(Some(issue)) ==> issue@.bare() && issue@.id == id@,
    {
        let rows: Vec<Vec<SqlValue>> = fetch_all(&self.conn, &select_issue(id))?;
        first_issue(&rows, id, Timestamp::now())
    }

    /// List issues with optional filters.  Unless the filters ask for
    /// another order, the issues come by priority, most urgent first, and by
    /// creation time, newest first, within one priority.
    ///
    /// Whatever the database answers, no more issues are listed than the
    /// limit of the filters allows, where it is above 0.
    pub fn list_issues(&self, filters: &ListFilters) -> (r: Result<Vec<Issue>, BeadsError>)
        ensures
            r matches Err(e) ==> e.from_storage(),
            r matches Ok(list) ==> forall|i: int| 0 <= i < list@.len() ==> (#[trigger] list@[i])@.bare(),
            r matches Ok(list) ==> (filters.limit matches Some(n) ==> n > 0 ==> list@.len() <= n),
    {
        let rows: Vec<Vec<SqlValue>> = fetch_all(&self.conn, &build_list_query(filters))?;
        let issues: Vec<Issue> = issues_from_rows(&rows, Timestamp::now())?;
        Ok(within_limit(issues, filters.limit))
    }

    /// Search issues by query with optional filters.  The query is looked for
    /// in title, description and id.  A query that is empty once trimmed
    /// finds nothing.
    pub fn search_issues(&self, query: &str, filters: &ListFilters) -> (r: Result<Vec<Issue>, BeadsError>)
        ensures
            r matches Err(e) ==> e.from_storage(),
            trimmed(query@).len() == 0 ==> (r matches Ok(list) && list@.len() == 0),
            r matches Ok(list) ==> forall|i: int| 0 <= i < list@.len() ==> (#[trigger] list@[i])@.bare(),
            r matches Ok(list) ==> (filters.limit matches Some(n) ==> n > 0 ==> list@.len() <= n),
    {
        let needle: &str = trim(query);
        if needle.is_empty() {
            return Ok(Vec::new());
        }
        let rows: Vec<Vec<SqlValue>> = fetch_all(&self.conn, &build_search_query(needle, filters))?;
        let issues: Vec<Issue> = issues_from_rows(&rows, Timestamp::now())?;
        Ok(within_limit(issues, filters.limit))
    }

    /// Count how many dependencies an issue has (issues this one depends on).
    pub fn count_dependencies(&self, issue_id: &str) -> (r: Result<usize, BeadsError>)
        ensures
            r matches Err(e) ==> e.from_storage(),
    {
        let rows: Vec<Vec<SqlValue>> = fetch_all(&self.conn, &keyed(COUNT_DEPENDENCIES, issue_id))?;
        let count: i64 = read_count(&rows)?;
        Ok(count_to_size(count))
    }

    /// Count how many issues depend on this one (dependents).
    pub fn count_dependents(&self, issue_id: &str) -> (r: Result<usize, BeadsError>)
        ensures
            r matches Err(e) ==> e.from_storage(),
    {
        let rows: Vec<Vec<SqlValue>> = fetch_all(&self.conn, &keyed(COUNT_DEPENDENTS, issue_id))?;
        let count: i64 = read_count(&rows)?;
        Ok(count_to_size(count))
    }

    /// Get labels for an issue, in the order of texts, see
    /// [`labels_from_rows`].
    pub fn get_labels(&self, issue_id: &str) -> (r: Result<Vec<String>, BeadsError>)
        ensures
            r matches Err(e) ==> e.from_storage(),
            r matches Ok(labels) ==> ordered(texts(labels@)),
    {
        let rows: Vec<Vec<SqlValue>> = fetch_all(&self.conn, &keyed(SELECT_LABELS, issue_id))?;
        labels_from_rows(&rows)
    }

    /// Get IDs of issues that depend on this one (dependents).
    pub fn get_dependents(&self, issue_id: &str) -> (r: Result<Vec<String>, BeadsError>)
        ensures
            r matches Err(e) ==> e.from_storage(),
    {
        let rows: Vec<Vec<SqlValue>> = fetch_all(&self.conn, &keyed(SELECT_DEPENDENTS, issue_id))?;
        read_texts(&rows)
    }

    /// Get IDs of issues that this one depends on (dependencies).
    pub fn get_dependencies(&self, issue_id: &str) -> (r: Result<Vec<String>, BeadsError>)
        ensures
            r matches Err(e) ==> e.from_storage(),
    {
        let rows: Vec<Vec<SqlValue>> = fetch_all(&self.conn, &keyed(SELECT_DEPENDENCIES, issue_id))?;
        read_texts(&rows)
    }

    /// Remove a dependency link.  The result says whether there was one.
    /// Nothing fails but the database.
    pub fn remove_dependency(&mut self, issue_id: &str, depends_on_id: &str, actor: &str) -> (r: Result<bool, BeadsError>)
        ensures
            unlinking(r),
    {
        let body = |tx: &rusqlite::Transaction<'_>, ctx: &mut MutationContext| -> (out: Result<bool, BeadsError>)
            ensures
                unlinking(out),
            { unlink_in(connection_of(tx), ctx, issue_id, depends_on_id) };
        self.mutate("remove_dependency", actor, body)
    }

    /// Add a dependency link: `issue_id` depends on `depends_on_id`.
    ///
    /// A type that is none of `blocks`, `parent-child`, `related` and
    /// `discovered-from`, and an edge from an issue to itself, are refused
    /// before the database is touched.  Inside the transaction both issues
    /// must exist, and the edge must pass the rule of [`decide_link`]: an
    /// edge that exists already is `InvalidArgument`, a `blocks` edge that
    /// would close a cycle is `CycleDetected`, a second parent is
    /// `ParentExists`.  Nothing else fails but the database.
    pub fn add_dependency(&mut self, issue_id: &str, depends_on_id: &str, dep_type: &str, actor: &str) -> (r: Result<(), BeadsError>)
        ensures
            DependencyType::from_text(dep_type@) is None || issue_id@ == depends_on_id@ ==> r matches Err(
                BeadsError::InvalidArgument { .. },
            ),
            DependencyType::from_text(dep_type@) matches Some(kind) ==> linking(issue_id@, depends_on_id@, kind, r),
    {
        let kind: DependencyType = match DependencyType::parse(dep_type) {
            Some(kind) => kind,
            None => {
                return Err(invalid_argument("unknown type of dependency"));
            },
        };
        if text_eq(issue_id, depends_on_id) {
            return Err(invalid_argument("an issue cannot depend on itself"));
        }
        let body = |tx: &rusqlite::Transaction<'_>, ctx: &mut MutationContext| -> (out: Result<(), BeadsError>)
            ensures
                linking(issue_id@, depends_on_id@, kind, out),
            { link_in(connection_of(tx), ctx, issue_id, depends_on_id, kind) };
        self.mutate("add_dependency", actor, body)
    }

    /// Add a label to an issue.
    ///
    /// Returns true if a new label was inserted.  An issue that does not
    /// exist is `IssueNotFound`; nothing else fails but the database.
    pub fn add_label(&mut self, issue_id: &str, label: &str, actor: &str) -> (r: Result<bool, BeadsError>)
        ensures
            labelling(issue_id@, r),
    {
        let body = |tx: &rusqlite::Transaction<'_>, ctx: &mut MutationContext| -> (out: Result<bool, BeadsError>)
            ensures
                labelling(issue_id@, out),
            { label_in(connection_of(tx), ctx, issue_id, label) };
        self.mutate("add_label", actor, body)
    }

    /// Remove all dependencies for an issue (both directions).
    ///
    /// Returns count of dependencies removed.  Where any went, the issue
    /// and the issues at the other ends are marked dirty, see
    /// [`unlink_all_in`].  Nothing fails but the database.
    pub fn remove_all_dependencies(&mut self, issue_id: &str, actor: &str) -> (r: Result<usize, BeadsError>)
        ensures
            unlinking_all(r),
    {
        let body = |tx: &rusqlite::Transaction<'_>, ctx: &mut MutationContext| -> (out: Result<usize, BeadsError>)
            ensures
                unlinking_all(out),
            {
                // The issues at the other ends, read before the edges go.
                let linked: Vec<String> = linked_issues(connection_of(tx), issue_id)?;
                unlink_all_in(connection_of(tx), ctx, issue_id, &linked)
            };
        self.mutate("remove_all_dependencies", actor, body)
    }

    /// Get comments for an issue, ordered by `created_at` ASC (oldest first).
    /// Every comment that is handed out is one on the issue; an answer of
    /// the database with a comment on another issue is `Internal`.
    pub fn get_comments(&self, issue_id: &str) -> (r: Result<Vec<Comment>, BeadsError>)
        ensures
            r matches Err(e) ==> e.from_storage(),
            r matches Ok(comments) ==> forall|i: int|
                0 <= i < comments@.len() ==> (#[trigger] comments@[i]).issue_id@ == issue_id@,
    {
        let rows: Vec<Vec<SqlValue>> = fetch_all(&self.conn, &keyed(SELECT_COMMENTS, issue_id))?;
        let comments: Vec<Comment> = comments_from_rows(&rows, Timestamp::now())?;
        comments_on(comments, issue_id)
    }

    /// Get dependencies with metadata (issues this one depends on).
    ///
    /// Returns dependency info including the target issue's title, status, and priority.
    pub fn get_dependencies_with_metadata(&self, issue_id: &str) -> (r: Result<Vec<IssueWithDependencyMetadata>, BeadsError>)
        ensures
            r matches Err(e) ==> e.from_storage(),
    {
        let rows: Vec<Vec<SqlValue>> = fetch_all(
            &self.conn,
            &keyed(SELECT_DEPENDENCIES_WITH_METADATA, issue_id),
        )?;
        metadata_from_rows(&rows)
    }

    /// Get dependents with metadata (issues that depend on this one).
    ///
    /// Returns dependency info including the dependent issue's title, status, and priority.
    pub fn get_dependents_with_metadata(&self, issue_id: &str) -> (r: Result<Vec<IssueWithDependencyMetadata>, BeadsError>)
        ensures
            r matches Err(e) ==> e.from_storage(),
    {
        let rows: Vec<Vec<SqlValue>> = fetch_all(
            &self.conn,
            &keyed(SELECT_DEPENDENTS_WITH_METADATA, issue_id),
        )?;
        metadata_from_rows(&rows)
    }

    /// Get parent issue ID (from `parent-child` dependency type).
    pub fn get_parent_id(&self, issue_id: &str) -> (r: Result<Option<String>, BeadsError>)
        ensures
            r matches Err(e) ==> e.from_storage(),
    {
        let rows: Vec<Vec<SqlValue>> = fetch_all(&self.conn, &keyed(SELECT_PARENT, issue_id))?;
        read_first_text(&rows)
    }

    /// Get full issue details for the show command.
    ///
    /// Fetches the issue and all related data: labels, dependencies, dependents,
    /// comments (optional), events (optional), and parent.  `event_limit` is the
    /// maximum number of events to load (0 = unlimited).  `None` where there is
    /// no such issue.
    pub fn get_issue_details(&self, id: &str, include_comments: bool, include_events: bool, event_limit: usize) -> (r: Result<Option<IssueDetails>, BeadsError>)
        ensures
            r matches Err(e) ==> e.from_storage(),
            r matches Ok(Some(details)) ==> {
                &&& details.issue@.bare()
                &&& details.issue@.id == id@
                &&& ordered(texts(details.labels@))
                &&& event_limit > 0 ==> details.events@.len() <= event_limit
                &&& !include_comments ==> details.comments@.len() == 0
                &&& !include_events ==> details.events@.len() == 0
            },
    {
        let issue: Issue = match self.get_issue(id)? {
            Some(issue) => issue,
            None => {
                return Ok(None);
            },
        };
        let labels: Vec<String> = self.get_labels(id)?;
        let dependencies: Vec<IssueWithDependencyMetadata> = self.get_dependencies_with_metadata(id)?;
        let dependents: Vec<IssueWithDependencyMetadata> = self.get_dependents_with_metadata(id)?;
        let comments: Vec<Comment> = if include_comments {
            self.get_comments(id)?
        } else {
            Vec::new()
        };
        let events: Vec<Event> = if include_events {
            get_events(&self.conn, id, event_limit)?
        } else {
            Vec::new()
        };
        let parent: Option<String> = self.get_parent_id(id)?;
        Ok(Some(IssueDetails { issue, labels, dependencies, dependents, comments, events, parent }))
    }
}

/// What the answer to the count of the issues under an id says of the id:
/// it is there where the count is above 0.  An answer that is no count is
/// `SchemaError`.
pub fn counted_some(counted: &Vec<Vec<SqlValue>>) -> (r: Result<bool, BeadsError>)
    ensures
        match count_in(rows_view(counted@)) {
            Some(n) => r == Ok::<bool, BeadsError>(n > 0),
            None => r matches Err(BeadsError::SchemaError { .. }),
        },
{
    let count: i64 = read_count(counted)?;
    Ok(count > 0)
}

/// Whether an id is free, by the answer to the count of the issues under
/// it: an id that is taken is `IdCollision`.
pub fn id_is_free(taken: &Vec<Vec<SqlValue>>, id: &str) -> (r: Result<(), BeadsError>)
    ensures
        match count_in(rows_view(taken@)) {
            Some(n) => if n > 0 {
                r matches Err(BeadsError::IdCollision { id: named }) && named@ == id@
            } else {
                r is Ok
            },
            None => r matches Err(BeadsError::SchemaError { .. }),
        },
{
    if counted_some(taken)? {
        Err(BeadsError::IdCollision { id: id.to_owned() })
    } else {
        Ok(())
    }
}

/// Whether an issue is there, by the answer to the count of the issues
/// under its id: an issue that is not there is `IssueNotFound`.
pub fn issue_is_there(found: &Vec<Vec<SqlValue>>, id: &str) -> (r: Result<(), BeadsError>)
    ensures
        match count_in(rows_view(found@)) {
            Some(n) => if n > 0 {
                r is Ok
            } else {
                r matches Err(BeadsError::IssueNotFound { id: named }) && named@ == id@
            },
            None => r matches Err(BeadsError::SchemaError { .. }),
        },
{
    if counted_some(found)? {
        Ok(())
    } else {
        Err(BeadsError::IssueNotFound { id: id.to_owned() })
    }
}

/// Fails with `IssueNotFound` unless the database holds the issue `id`.
pub fn require_issue(conn: &rusqlite::Connection, id: &str) -> (r: Result<(), BeadsError>)
    ensures
        r matches Err(e) ==> e.from_storage() || e.misses(id@),
{
    let rows: Vec<Vec<SqlValue>> = fetch_all(conn, &keyed(COUNT_ISSUE, id))?;
    issue_is_there(&rows, id)
}

/// Cuts a list of issues down to a limit: the first `limit` issues where
/// the limit is above 0, all of them otherwise.
pub fn within_limit(issues: Vec<Issue>, limit: Option<usize>) -> (r: Vec<Issue>)
    ensures
        r@ == limited(issues@, limit),
{
    let mut issues: Vec<Issue> = issues;
    if let Some(n) = limit {
        if 0 < n && n < issues.len() {
            issues.truncate(n);
        }
    }
    issues
}

/// Hands a list of comments on, where every one of them is on the issue
/// `issue_id`; a comment on another issue is `Internal`.
pub fn comments_on(comments: Vec<Comment>, issue_id: &str) -> (r: Result<Vec<Comment>, BeadsError>)
    ensures
        (forall|i: int| 0 <= i < comments@.len() ==> (#[trigger] comments@[i]).issue_id@ == issue_id@) ==> r
            == Ok::<Vec<Comment>, BeadsError>(comments),
        !(forall|i: int| 0 <= i < comments@.len() ==> (#[trigger] comments@[i]).issue_id@ == issue_id@) ==> r matches Err(
            BeadsError::Internal { .. },
        ),
{
    let mut i: usize = 0;
    while i < comments.len()
        invariant
            i <= comments.len(),
            forall|k: int| 0 <= k < i ==> (#[trigger] comments@[k]).issue_id@ == issue_id@,
        decreases comments.len() - i,
    {
        if !text_eq(comments[i].issue_id.as_str(), issue_id) {
            return Err(BeadsError::Internal { message: "the database answered with another comment".to_owned() });
        }
        i = i + 1;
    }
    Ok(comments)
}

/// What the answer to the lookup of the issue `id` says: no issue where it
/// has no row, the issue of its first row where that row is one of the
/// issue `id`.
pub open spec fn looked_up(rows: Seq<Seq<SqlData>>, id: Seq<char>, now: Timestamp) -> Result<Option<IssueData>, ()> {
    if !issue_rows_ok(rows) {
        Err(())
    } else if rows.len() == 0 {
        Ok(None)
    } else if decoded_issue(rows[0], now).id == id {
        Ok(Some(decoded_issue(rows[0], now)))
    } else {
        Err(())
    }
}

/// Takes the issue `id` out of the answer to its lookup: `None` for an
/// answer without a row.  Rows that are no issues are `SchemaError`, and a
/// first row of another issue is `Internal`.
pub fn first_issue(rows: &Vec<Vec<SqlValue>>, id: &str, now: Timestamp) -> (r: Result<Option<Issue>, BeadsError>)
    ensures
        match looked_up(rows_view(rows@), id@, now) {
            Ok(Some(issue)) => r matches Ok(Some(found)) && found@ == issue,
            Ok(None) => r matches Ok(None),
            Err(_) => r matches Err(e) && (e is SchemaError || e is Internal),
        },
        r matches Ok(Some(found)) ==> found@.bare() && found@.id == id@,
{
    let mut issues: Vec<Issue> = issues_from_rows(rows, now)?;
    if issues.len() == 0 {
        return Ok(None);
    }
    let ghost all = issues@;
    let first: Issue = issues.swap_remove(0);
    assert(first == all[0]);
    if text_eq(first.id.as_str(), id) {
        Ok(Some(first))
    } else {
        Err(BeadsError::Internal { message: "the database answered with another issue".to_owned() })
    }
}

/// Takes the issue `id` out of the answer to its lookup, as [`first_issue`]
/// does; an answer without a row is `IssueNotFound`.
pub fn found_issue(rows: &Vec<Vec<SqlValue>>, id: &str, now: Timestamp) -> (r: Result<Issue, BeadsError>)
    ensures
        match looked_up(rows_view(rows@), id@, now) {
            Ok(Some(issue)) => r matches Ok(found) && found@ == issue,
            Ok(None) => r matches Err(BeadsError::IssueNotFound { id: named }) && named@ == id@,
            Err(_) => r matches Err(e) && (e is SchemaError || e is Internal),
        },
        r matches Ok(found) ==> found@.bare() && found@.id == id@,
{
    match first_issue(rows, id, now)? {
        Some(issue) => Ok(issue),
        None => Err(BeadsError::IssueNotFound { id: id.to_owned() }),
    }
}

/// Reads the issue `id`; `IssueNotFound` where there is none.  The issue
/// that is read has the id that was asked for.
pub fn load_issue(conn: &rusqlite::Connection, id: &str) -> (r: Result<Issue, BeadsError>)
    ensures
        r matches Ok(issue) ==> issue@.bare() && issue@.id == id@,
        r matches Err(e) ==> e.from_storage() || e.misses(id@),
{
    let rows: Vec<Vec<SqlValue>> = fetch_all(conn, &select_issue(id))?;
    found_issue(&rows, id, Timestamp::now())
}

/// Whether an issue is as a change of its status at the time `at` leaves
/// it: it has the status and deletion fields that fit, it was updated at
/// that time and created when it was, at `created`, and its time of closing
/// is that time where it is closed, and none where it is not.
pub open spec fn settled(issue: IssueData, status: Status, at: Timestamp, created: Timestamp) -> bool {
    &&& issue.status == status
    &&& issue.tombstone_consistent()
    &&& issue.updated_at == at
    &&& issue.created_at == created
    &&& issue.closed_at == (if status == Status::Closed {
        Some(at)
    } else {
        None
    })
}

/// Hands an issue on that was read back after a change of its status, where
/// it is as the change was to leave it, see [`settled`]; an issue that was
/// read back otherwise is `Internal`.
pub fn settled_as(issue: Issue, status: Status, at: &Timestamp, created: &Timestamp) -> (r: Result<Issue, BeadsError>)
    ensures
        if settled(issue@, status, *at, *created) {
            r == Ok::<Issue, BeadsError>(issue)
        } else {
            r matches Err(BeadsError::Internal { .. })
        },
{
    let closed: bool = match issue.closed_at {
        Some(when) => status == Status::Closed && when == *at,
        None => status != Status::Closed,
    };
    if issue.status == status && issue.is_tombstone_consistent() && issue.updated_at == *at && issue.created_at
        == *created && closed {
        Ok(issue)
    } else {
        Err(BeadsError::Internal { message: "the database holds the issue otherwise than it was written".to_owned() })
    }
}

/// Whether an issue cannot be created as it stands: it has no title or no
/// id, its priority is not 0 to 4, it is a tombstone, or it has a deletion
/// field set.
pub open spec fn unfit_to_create(issue: IssueData) -> bool {
    issue.title.len() == 0 || issue.id.len() == 0 || !issue.priority.in_range() || issue.status
        == Status::Tombstone || !issue.tombstone_consistent()
}

/// Checks an issue that is to be created, before the database is touched:
/// an issue that cannot be created as it stands is `InvalidArgument`.
pub fn check_new_issue(issue: &Issue) -> (r: Result<(), BeadsError>)
    ensures
        unfit_to_create(issue@) ==> r matches Err(BeadsError::InvalidArgument { .. }),
        !unfit_to_create(issue@) ==> r is Ok,
{
    if issue.title.as_str().is_empty() {
        return Err(invalid_argument("an issue needs a title"));
    }
    if issue.priority.0 < 0 || issue.priority.0 > 4 {
        return Err(invalid_argument("a priority is a number from 0 to 4"));
    }
    if issue.id.as_str().is_empty() {
        return Err(invalid_argument("an issue needs an id"));
    }
    match issue.status {
        Status::Tombstone => {
            return Err(invalid_argument("an issue cannot be created deleted"));
        },
        _ => {},
    }
    if !issue.is_tombstone_consistent() {
        return Err(invalid_argument("an issue that is not deleted has no deletion fields"));
    }
    Ok(())
}

/// What a creation may come to besides success: an id that is taken is
/// `IdCollision`, and nothing else fails but the database.
pub open spec fn creation(id: Seq<char>, r: Result<(), BeadsError>) -> bool {
    r matches Err(e) ==> e.from_storage() || (e matches BeadsError::IdCollision { id: named } && named@ == id)
}

/// What creating an issue does inside its transaction: unless the id is
/// taken, see [`id_is_free`], the row goes in, and a `created` event, the
/// dirty mark and the request to empty the cache of blocked issues are
/// gathered.
pub fn create_in(conn: &rusqlite::Connection, ctx: &mut MutationContext, issue: &Issue) -> (r: Result<(), BeadsError>)
    ensures
        r is Ok ==> {
            &&& recorded(*old(ctx), *final(ctx), EventType::Created, issue.id@, "Created issue: "@ + issue.title@)
            &&& final(ctx).dirty() == marked(old(ctx).dirty(), issue.id@)
            &&& final(ctx).invalidate_blocked_cache
        },
        creation(issue.id@, r),
{
    let taken: Vec<Vec<SqlValue>> = fetch_all(conn, &keyed(COUNT_ISSUE, issue.id.as_str()))?;
    id_is_free(&taken, issue.id.as_str())?;
    let _ = run_statement(conn, &insert_issue(issue))?;
    issue_created(ctx, issue.id.as_str(), issue.title.as_str());
    Ok(())
}

/// What the removal of a dependency may come to: nothing fails but the
/// database.
pub open spec fn unlinking(r: Result<bool, BeadsError>) -> bool {
    r matches Err(e) ==> e.from_storage()
}

/// What removing a dependency does inside its transaction.  Where there was
/// an edge, a `dependency_removed` event, the dirty marks of both ends and
/// the request to empty the cache of blocked issues are gathered; where
/// there was none, nothing is.
pub fn unlink_in(conn: &rusqlite::Connection, ctx: &mut MutationContext, issue_id: &str, depends_on_id: &str) -> (r: Result<bool, BeadsError>)
    ensures
        r matches Ok(removed) ==> if removed {
            &&& recorded(
                *old(ctx),
                *final(ctx),
                EventType::DependencyRemoved,
                issue_id@,
                "Removed dependency on "@ + depends_on_id@,
            )
            &&& final(ctx).dirty() == marked(marked(old(ctx).dirty(), issue_id@), depends_on_id@)
            &&& final(ctx).invalidate_blocked_cache
        } else {
            untouched(*old(ctx), *final(ctx))
        },
        unlinking(r),
{
    let changed: usize = run_statement(conn, &paired(DELETE_DEPENDENCY, issue_id, depends_on_id))?;
    Ok(dependency_removed(ctx, changed, issue_id, depends_on_id))
}

/// What to do about a new edge, by three answers of the database: the
/// count of the edges between the two issues, the rows of the parents of
/// `issue_id`, and the `blocks` edges between issues that are no tombstones.
///
/// The rule is [`verdict`]: the edge is refused where the issue would depend
/// on itself or the edge exists already, with `InvalidArgument`; where a
/// `blocks` edge would close a cycle, with `CycleDetected`; and where a
/// `parent-child` edge would give the issue a second parent, with
/// `ParentExists`.  An edge that is accepted gives the statement that
/// inserts it, for the actor at the time `at`.  Answers that cannot be read
/// are `SchemaError`.
pub fn decide_link(
    issue_id: &str,
    depends_on_id: &str,
    kind: DependencyType,
    link: &Vec<Vec<SqlValue>>,
    parents: &Vec<Vec<SqlValue>>,
    block_rows: &Vec<Vec<SqlValue>>,
    at: &Timestamp,
    actor: &str,
) -> (r: Result<SqlStatement, BeadsError>)
    ensures
        match count_in(rows_view(link@)) {
            Some(n) => if edge_rows_ok(rows_view(block_rows@)) {
                match verdict(
                    issue_id@,
                    depends_on_id@,
                    kind,
                    n > 0,
                    parents@.len() > 0,
                    decoded_edges(rows_view(block_rows@)),
                ) {
                    Verdict::Accept => r matches Ok(statement) && statement@ == insert_dependency_statement(
                        issue_id@,
                        depends_on_id@,
                        kind,
                        *at,
                        actor@,
                    ),
                    Verdict::SelfEdge => r matches Err(BeadsError::InvalidArgument { .. }),
                    Verdict::Duplicate => r matches Err(BeadsError::InvalidArgument { .. }),
                    Verdict::Cycle => r matches Err(BeadsError::CycleDetected { issue_id: from, depends_on_id: to })
                        && from@ == issue_id@ && to@ == depends_on_id@,
                    Verdict::SecondParent => r matches Err(BeadsError::ParentExists { id }) && id@ == issue_id@,
                }
            } else {
                r matches Err(BeadsError::SchemaError { .. })
            },
            None => r matches Err(BeadsError::SchemaError { .. }),
        },
        r matches Ok(statement) ==> !binds_real(statement@.params),
{
    let linked: bool = counted_some(link)?;
    let has_parent: bool = parents.len() > 0;
    let blocks: Vec<Edge> = edges_from_rows(block_rows)?;
    check_new_dependency(issue_id, depends_on_id, kind, linked, has_parent, &blocks)?;
    Ok(insert_dependency(issue_id, depends_on_id, kind, at, actor))
}

/// What the adding of a dependency may come to, for an edge of the type
/// `kind`: it succeeds only for an edge between two issues; a cycle is
/// refused only for a `blocks` edge and a second parent only for a
/// `parent-child` edge, each error naming what it is about; and nothing else
/// fails but the database.  The rule itself is [`decide_link`].
pub open spec fn linking(
    issue_id: Seq<char>,
    depends_on_id: Seq<char>,
    kind: DependencyType,
    r: Result<(), BeadsError>,
) -> bool {
    &&& r is Ok ==> issue_id != depends_on_id
    &&& r matches Err(e) ==> {
        ||| e.from_storage()
        ||| e is InvalidArgument
        ||| e.misses(issue_id)
        ||| e.misses(depends_on_id)
        ||| e matches BeadsError::CycleDetected { issue_id: from, depends_on_id: to } && from@ == issue_id && to@
            == depends_on_id && kind == DependencyType::Blocks && issue_id != depends_on_id
        ||| e matches BeadsError::ParentExists { id } && id@ == issue_id && kind == DependencyType::ParentChild
            && issue_id != depends_on_id
    }
}

/// What adding a dependency does inside its transaction: both issues must
/// exist and the edge must pass the rule, see [`decide_link`]; then the edge
/// goes in, and a `dependency_added` event, the dirty marks of both ends and
/// the request to empty the cache of blocked issues are gathered.
pub fn link_in(
    conn: &rusqlite::Connection,
    ctx: &mut MutationContext,
    issue_id: &str,
    depends_on_id: &str,
    kind: DependencyType,
) -> (r: Result<(), BeadsError>)
    ensures
        r is Ok ==> {
            &&& recorded(
                *old(ctx),
                *final(ctx),
                EventType::DependencyAdded,
                issue_id@,
                "Added dependency on "@ + depends_on_id@,
            )
            &&& final(ctx).dirty() == marked(marked(old(ctx).dirty(), issue_id@), depends_on_id@)
            &&& final(ctx).invalidate_blocked_cache
        },
        linking(issue_id@, depends_on_id@, kind, r),
{
    require_issue(conn, issue_id)?;
    require_issue(conn, depends_on_id)?;
    let link: Vec<Vec<SqlValue>> = fetch_all(conn, &paired(COUNT_LINK, issue_id, depends_on_id))?;
    let parents: Vec<Vec<SqlValue>> = fetch_all(conn, &keyed(SELECT_PARENT, issue_id))?;
    let block_rows: Vec<Vec<SqlValue>> = fetch_all(conn, &plain(SELECT_BLOCKS))?;
    let statement: SqlStatement = decide_link(
        issue_id,
        depends_on_id,
        kind,
        &link,
        &parents,
        &block_rows,
        &ctx.started_at,
        ctx.actor.as_str(),
    )?;
    let _ = run_statement(conn, &statement)?;
    dependency_added(ctx, issue_id, depends_on_id);
    Ok(())
}

/// What the adding of a label may come to: an issue that does not exist is
/// `IssueNotFound`, and nothing else fails but the database.
pub open spec fn labelling(issue_id: Seq<char>, r: Result<bool, BeadsError>) -> bool {
    r matches Err(e) ==> e.from_storage() || e.misses(issue_id)
}

/// What adding a label does inside its transaction.  Where the issue had
/// not the label yet, a `label_added` event and the dirty mark are gathered;
/// where it had, nothing is.
pub fn label_in(conn: &rusqlite::Connection, ctx: &mut MutationContext, issue_id: &str, label: &str) -> (r: Result<bool, BeadsError>)
    ensures
        r matches Ok(added) ==> if added {
            recorded(*old(ctx), *final(ctx), EventType::LabelAdded, issue_id@, "Added label "@ + label@)
                && final(ctx).dirty() == marked(old(ctx).dirty(), issue_id@)
        } else {
            untouched(*old(ctx), *final(ctx))
        },
        labelling(issue_id@, r),
{
    require_issue(conn, issue_id)?;
    let changed: usize = run_statement(conn, &paired(INSERT_LABEL, issue_id, label))?;
    Ok(label_added(ctx, changed, issue_id, label))
}

/// Reads the issues at the other ends of the edges of an issue.
pub fn linked_issues(conn: &rusqlite::Connection, issue_id: &str) -> (r: Result<Vec<String>, BeadsError>)
    ensures
        r matches Err(e) ==> e.from_storage(),
{
    let rows: Vec<Vec<SqlValue>> = fetch_all(conn, &paired(SELECT_LINKED, issue_id, issue_id))?;
    read_texts(&rows)
}

/// What the removal of all dependencies may come to: nothing fails but the
/// database.
pub open spec fn unlinking_all(r: Result<usize, BeadsError>) -> bool {
    r matches Err(e) ==> e.from_storage()
}

/// What removing all dependencies of an issue does inside its transaction,
/// `linked` being the issues at the other ends: the edges from the issue
/// and to it go, and the result is their number.  Where any edge went, one
/// `dependency_removed` event with that number is gathered, the issue and
/// every linked issue are marked dirty, and the cache of blocked issues is
/// to go; where none did, nothing is gathered.
pub fn unlink_all_in(conn: &rusqlite::Connection, ctx: &mut MutationContext, issue_id: &str, linked: &Vec<String>) -> (r: Result<usize, BeadsError>)
    ensures
        r matches Ok(removed) ==> if removed > 0 {
            &&& recorded(
                *old(ctx),
                *final(ctx),
                EventType::DependencyRemoved,
                issue_id@,
                removed_links_comment(removed as nat),
            )
            &&& final(ctx).dirty() == marked_all(marked(old(ctx).dirty(), issue_id@), texts(linked@))
            &&& final(ctx).invalidate_blocked_cache
        } else {
            untouched(*old(ctx), *final(ctx))
        },
        unlinking_all(r),
{
    let outgoing: usize = run_statement(conn, &keyed(DELETE_OUTGOING, issue_id))?;
    let incoming: usize = run_statement(conn, &keyed(DELETE_INCOMING, issue_id))?;
    if outgoing > usize::MAX - incoming {
        return Err(BeadsError::Internal { message: "more edges than can be counted".to_owned() });
    }
    Ok(dependencies_removed(ctx, outgoing, incoming, issue_id, linked))
}

} // verus!
