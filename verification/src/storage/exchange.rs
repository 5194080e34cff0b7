//! The database side of the synchroniser: what goes into the export, and
//! what an import writes.

use vstd::prelude::*;
use crate::error::BeadsError;
use crate::hash::{content_hash, content_hash_of, hash_depends_on_stable_fields_only};
use crate::model::{Comment, Dependency, Issue, IssueData, IssueType, Status, texts};
use crate::readiness::issues_view;
use crate::storage::context::MutationContext;
use crate::storage::driver::connection_of;
use crate::storage::rows::{comments_from_rows, dependencies_from_rows, labels_from_rows, read_texts};
use crate::text::ordered;
use crate::storage::sql::{SqlStatement, SqlValue, binds_real};
use crate::storage::sqlite::{SqliteStorage, fetch_all, first_issue, run_statement};
use crate::storage::statements::{
    CLEAR_DIRTY, DELETE_COMMENTS, DELETE_LABELS, DELETE_OUTGOING, INSERT_LABEL, SELECT_COMMENTS,
    SELECT_DEPENDENCIES_OF, SELECT_DIRTY, SELECT_LABELS, SELECT_LIVING_IDS, insert_comment,
    insert_dependency, keyed, paired, plain, select_issue, write_issue,
};
use crate::sync::{
    IMPORT_ACTOR, ImportAction, ImportCounts, decide_import, event_of_import, settle,
};
use crate::time::Timestamp;

verus! {

/// Reads an issue with its labels, dependencies and comments, and with its
/// content hash worked out; `None` where there is no such issue.  The issue
/// that is read has the id that was asked for.
pub fn load_full_issue(conn: &rusqlite::Connection, id: &str) -> (r: Result<Option<Issue>, BeadsError>)
    ensures
        r matches Ok(Some(issue)) ==> issue@.id == id@ && ordered(issue@.labels) && (issue.content_hash matches Some(
            hash,
        ) && hash@ == content_hash_of(issue@)),
        r matches Err(e) ==> e.from_storage(),
{
    let now: Timestamp = Timestamp::now();
    let rows: Vec<Vec<SqlValue>> = fetch_all(conn, &select_issue(id))?;
    let mut issue: Issue = match first_issue(&rows, id, now)? {
        Some(issue) => issue,
        None => {
            return Ok(None);
        },
    };
    let label_rows: Vec<Vec<SqlValue>> = fetch_all(conn, &keyed(SELECT_LABELS, id))?;
    issue.labels = labels_from_rows(&label_rows)?;
    let dep_rows: Vec<Vec<SqlValue>> = fetch_all(conn, &keyed(SELECT_DEPENDENCIES_OF, id))?;
    issue.dependencies = dependencies_from_rows(&dep_rows, now)?;
    let comment_rows: Vec<Vec<SqlValue>> = fetch_all(conn, &keyed(SELECT_COMMENTS, id))?;
    issue.comments = comments_from_rows(&comment_rows, now)?;
    let ghost unhashed = issue@;
    let hash: String = content_hash(&issue);
    issue.content_hash = Some(hash);
    proof {
        // The hash does not cover itself.
        hash_depends_on_stable_fields_only(unhashed, issue@);
    }
    Ok(Some(issue))
}

/// Writes the labels, dependencies and comments of an issue in place of those
/// that the database holds for it.
fn write_attachments(conn: &rusqlite::Connection, issue: &Issue) -> (r: Result<(), BeadsError>)
    ensures
        r matches Err(e) ==> e.from_storage(),
{
    let id: &str = issue.id.as_str();
    let _ = run_statement(conn, &keyed(DELETE_LABELS, id))?;
    let mut i: usize = 0;
    while i < issue.labels.len()
        invariant
            i <= issue.labels.len(),
        decreases issue.labels.len() - i,
    {
        let _ = run_statement(conn, &paired(INSERT_LABEL, id, issue.labels[i].as_str()))?;
        i = i + 1;
    }
    let _ = run_statement(conn, &keyed(DELETE_OUTGOING, id))?;
    let mut j: usize = 0;
    while j < issue.dependencies.len()
        invariant
            j <= issue.dependencies.len(),
        decreases issue.dependencies.len() - j,
    {
        let dep: &Dependency = &issue.dependencies[j];
        let author: &str = match &dep.created_by {
            Some(a) => a.as_str(),
            None => IMPORT_ACTOR,
        };
        let statement: SqlStatement = insert_dependency(
            id,
            dep.depends_on_id.as_str(),
            dep.dep_type,
            &dep.created_at,
            author,
        );
        let _ = run_statement(conn, &statement)?;
        j = j + 1;
    }
    let _ = run_statement(conn, &keyed(DELETE_COMMENTS, id))?;
    let mut k: usize = 0;
    while k < issue.comments.len()
        invariant
            k <= issue.comments.len(),
        decreases issue.comments.len() - k,
    {
        let comment: &Comment = &issue.comments[k];
        let statement: SqlStatement = insert_comment(
            id,
            comment.author.as_str(),
            comment.body.as_str(),
            &comment.created_at,
        );
        let _ = run_statement(conn, &statement)?;
        k = k + 1;
    }
    Ok(())
}

/// The number of events that an action of an import leaves: one, but none
/// for an issue that is skipped.
pub open spec fn events_of(action: ImportAction) -> nat {
    if action == ImportAction::Skip {
        0
    } else {
        1
    }
}

/// Imports one issue: decides what to do with it, writes what there is to
/// write, and journals it under the actor of the import.  The row that is
/// written has deletion fields that fit its status, and carries its content
/// hash.  An issue that is written leaves one event and the request to empty
/// the cache of blocked issues; an issue that is skipped leaves nothing.
pub fn import_one(conn: &rusqlite::Connection, ctx: &mut MutationContext, incoming: &mut Issue) -> (r: Result<ImportAction, BeadsError>)
    ensures
        r matches Ok(action) ==> {
            &&& final(incoming)@.tombstone_consistent()
            &&& final(ctx).journal().len() == old(ctx).journal().len() + events_of(action)
            &&& final(ctx).invalidate_blocked_cache == (old(ctx).invalidate_blocked_cache || action
                != ImportAction::Skip)
            &&& final(ctx).dirty() == old(ctx).dirty()
            &&& final(ctx).actor == old(ctx).actor
            &&& final(ctx).started_at == old(ctx).started_at
            &&& old(ctx).wf() ==> final(ctx).wf()
        },
        r matches Err(e) ==> e.from_storage(),
{
    let held: Option<Issue> = load_full_issue(conn, incoming.id.as_str())?;
    let held_type: Option<IssueType> = match &held {
        Some(issue) => Some(issue.issue_type),
        None => None,
    };
    settle(incoming, held_type, ctx.started_at);
    let action: ImportAction = decide_import(held.as_ref(), incoming);
    match event_of_import(action) {
        Some(event) => {
            let hash: String = content_hash(incoming);
            incoming.content_hash = Some(hash);
            let _ = run_statement(conn, &write_issue(incoming))?;
            write_attachments(conn, incoming)?;
            ctx.record_event(event.0, incoming.id.as_str(), Some(event.1.to_owned()));
            ctx.invalidate_cache();
        },
        None => {},
    }
    // The export and the database agree on this issue now.
    let _ = run_statement(conn, &keyed(CLEAR_DIRTY, incoming.id.as_str()))?;
    Ok(action)
}

/// The dirty marks that an export takes off: all of them after a full
/// export, those of the issues that were exported otherwise.
pub open spec fn marks_to_clear(full: bool, dirty: Seq<Seq<char>>, exported: Seq<IssueData>) -> Seq<Seq<char>> {
    if full {
        dirty
    } else {
        Seq::new(exported.len(), |i: int| exported[i].id)
    }
}

/// Picks the dirty marks that an export takes off, `dirty` being the marks
/// that the database holds.
pub fn exported_marks(full: bool, dirty: Vec<String>, exported: &Vec<Issue>) -> (r: Vec<String>)
    ensures
        texts(r@) == marks_to_clear(full, texts(dirty@), issues_view(exported@)),
{
    if full {
        return dirty;
    }
    let mut ids: Vec<String> = Vec::new();
    let mut i: usize = 0;
    while i < exported.len()
        invariant
            i <= exported.len(),
            ids@.len() == i,
            forall|k: int| 0 <= k < i ==> (#[trigger] ids@[k])@ == exported@[k].id@,
        decreases exported.len() - i,
    {
        ids.push(exported[i].id.clone());
        i = i + 1;
    }
    assert(texts(ids@) =~= marks_to_clear(full, texts(dirty@), issues_view(exported@)));
    ids
}

/// What an import may come to: the counts add up to the number of issues,
/// and nothing fails but the database.
pub open spec fn importing(incoming: nat, r: Result<ImportCounts, BeadsError>) -> bool {
    &&& r matches Ok(counts) ==> counts.inserted + counts.updated + counts.skipped == incoming
    &&& r matches Err(e) ==> e.from_storage()
}

/// What an import does inside its transaction: each issue is imported in
/// turn, see [`import_one`].  The counts add up to the number of issues, and
/// the journal grows by one event for each issue that was inserted or
/// updated.
pub fn import_in(conn: &rusqlite::Connection, ctx: &mut MutationContext, incoming: &Vec<Issue>) -> (r: Result<ImportCounts, BeadsError>)
    ensures
        r matches Ok(counts) ==> {
            &&& counts.inserted + counts.updated + counts.skipped == incoming@.len()
            &&& final(ctx).journal().len() == old(ctx).journal().len() + counts.inserted + counts.updated
            &&& final(ctx).dirty() == old(ctx).dirty()
            &&& counts.inserted + counts.updated > 0 ==> final(ctx).invalidate_blocked_cache
        },
        importing(incoming@.len(), r),
{
    let mut counts = ImportCounts { inserted: 0, updated: 0, skipped: 0 };
    let mut i: usize = 0;
    while i < incoming.len()
        invariant
            i <= incoming.len(),
            counts.inserted + counts.updated + counts.skipped == i,
            ctx.journal().len() == old(ctx).journal().len() + counts.inserted + counts.updated,
            ctx.dirty() == old(ctx).dirty(),
            counts.inserted + counts.updated > 0 ==> ctx.invalidate_blocked_cache,
        decreases incoming.len() - i,
    {
        let mut issue: Issue = incoming[i].copy();
        match import_one(conn, ctx, &mut issue)? {
            ImportAction::Insert => {
                counts.inserted = counts.inserted + 1;
            },
            ImportAction::Skip => {
                counts.skipped = counts.skipped + 1;
            },
            _ => {
                counts.updated = counts.updated + 1;
            },
        }
        i = i + 1;
    }
    Ok(counts)
}

impl SqliteStorage {
    /// Reads an issue with everything that the export holds of it, the
    /// labels in the order of texts.
    pub fn get_full_issue(&self, id: &str) -> (r: Result<Option<Issue>, BeadsError>)
        ensures
            r matches Ok(Some(issue)) ==> issue@.id == id@ && ordered(issue@.labels) && (issue.content_hash matches Some(
                hash,
            ) && hash@ == content_hash_of(issue@)),
            r matches Err(e) ==> e.from_storage(),
    {
        load_full_issue(self.connection(), id)
    }

    /// The issues whose export is stale.
    pub fn dirty_ids(&self) -> (r: Result<Vec<String>, BeadsError>)
        ensures
            r matches Err(e) ==> e.from_storage(),
    {
        let rows: Vec<Vec<SqlValue>> = fetch_all(self.connection(), &plain(SELECT_DIRTY))?;
        read_texts(&rows)
    }

    /// The issues to export: every issue that is no tombstone for a full
    /// export, the issues whose export is stale otherwise, tombstones among
    /// them.  Each comes with its labels, dependencies, comments and content
    /// hash.
    pub fn export_issues(&self, full: bool) -> (r: Result<Vec<Issue>, BeadsError>)
        ensures
            r matches Ok(list) ==> forall|i: int| 0 <= i < list@.len() ==> ((#[trigger] list@[i]).content_hash matches Some(
                hash,
            ) && hash@ == content_hash_of(list@[i]@)),
            r matches Ok(list) ==> (full ==> forall|i: int|
                0 <= i < list@.len() ==> (#[trigger] list@[i]).status != Status::Tombstone),
            r matches Err(e) ==> e.from_storage(),
    {
        let ids: Vec<String> = if full {
            let rows: Vec<Vec<SqlValue>> = fetch_all(self.connection(), &plain(SELECT_LIVING_IDS))?;
            read_texts(&rows)?
        } else {
            self.dirty_ids()?
        };
        let mut out: Vec<Issue> = Vec::new();
        let mut i: usize = 0;
        while i < ids.len()
            invariant
                i <= ids.len(),
                forall|k: int| 0 <= k < out@.len() ==> ((#[trigger] out@[k]).content_hash matches Some(hash) && hash@
                    == content_hash_of(out@[k]@)),
                full ==> forall|k: int| 0 <= k < out@.len() ==> (#[trigger] out@[k]).status != Status::Tombstone,
            decreases ids.len() - i,
        {
            match self.get_full_issue(ids[i].as_str())? {
                Some(issue) => {
                    // A full export leaves the tombstones out.
                    if !(full && issue.status == Status::Tombstone) {
                        out.push(issue);
                    }
                },
                None => {},
            }
            i = i + 1;
        }
        Ok(out)
    }

    /// Takes the dirty marks off the issues that were exported.
    pub fn clear_dirty(&mut self, ids: &Vec<String>) -> (r: Result<(), BeadsError>)
        ensures
            r matches Err(e) ==> e.from_storage(),
    {
        let mut statements: Vec<SqlStatement> = Vec::new();
        let mut i: usize = 0;
        while i < ids.len()
            invariant
                i <= ids.len(),
                forall|k: int| 0 <= k < statements@.len() ==> !binds_real((#[trigger] statements@[k])@.params),
            decreases ids.len() - i,
        {
            statements.push(keyed(CLEAR_DIRTY, ids[i].as_str()));
            i = i + 1;
        }
        self.write_cache(&statements)
    }

    /// Takes the dirty marks off after an export of the issues `exported`:
    /// every mark after a full export, the marks of the exported issues
    /// otherwise, see [`exported_marks`].
    pub fn clear_exported(&mut self, full: bool, exported: &Vec<Issue>) -> (r: Result<(), BeadsError>)
        ensures
            r matches Err(e) ==> e.from_storage(),
    {
        let dirty: Vec<String> = if full {
            self.dirty_ids()?
        } else {
            Vec::new()
        };
        let ids: Vec<String> = exported_marks(full, dirty, exported);
        self.clear_dirty(&ids)
    }

    /// Imports the issues of an export in one transaction: all of them or
    /// none.  What is done with each is decided by
    /// [`decide_import`](crate::sync::decide_import); every issue that is
    /// written is journalled under the actor `import`, and no issue that was
    /// imported is left marked dirty.  The result counts what was done with
    /// each issue.  Nothing fails but the database.
    pub fn import_issues(&mut self, incoming: Vec<Issue>) -> (r: Result<ImportCounts, BeadsError>)
        ensures
            importing(incoming@.len(), r),
    {
        let body = |tx: &rusqlite::Transaction<'_>, ctx: &mut MutationContext| -> (out: Result<
            ImportCounts,
            BeadsError,
        >)
            ensures
                importing(incoming@.len(), out),
            { import_in(connection_of(tx), ctx, &incoming) };
        self.mutate("import", IMPORT_ACTOR, body)
    }
}

} // verus!
