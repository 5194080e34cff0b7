//! A read-only check of the store against what must hold of it.

use vstd::prelude::*;
use crate::cycles::{find_cycles, groups_view, grouped, is_cycle_group, on_cycle};
use crate::error::BeadsError;
use crate::graph::{Edge, acyclic, edge_pairs, has_path};
use crate::model::{Issue, IssueData};
use crate::readiness::issues_view;
use crate::stats::{Selector, count_of, count_selected};
use crate::storage::rows::{edges_from_rows, issues_from_rows, read_texts};
use crate::storage::query::SELECT_ISSUES;
use crate::storage::sql::SqlValue;
use crate::storage::sqlite::{SqliteStorage, fetch_all};
use crate::storage::statements::{SELECT_BLOCKS, SELECT_DIRTY, plain};
use crate::time::Timestamp;

verus! {

/// What a check of the store found.
#[derive(Clone, Copy, Debug, PartialEq, Eq, Structural)]
pub struct Diagnosis {
    /// The issues of the store, tombstones among them.
    pub issues: usize,
    /// The issues whose export is stale.
    pub pending_export: usize,
    /// The issues whose deletion fields do not fit their status.
    pub inconsistent_tombstones: usize,
    /// The circles among the `blocks` dependencies.
    pub cycles: usize,
}

impl Diagnosis {
    /// Whether nothing is wrong: a stale export is not.
    pub open spec fn sound(self) -> bool {
        self.inconsistent_tombstones == 0 && self.cycles == 0
    }

    /// Whether nothing is wrong.
    pub fn is_sound(&self) -> (r: bool)
        ensures
            r == self.sound(),
    {
        self.inconsistent_tombstones == 0 && self.cycles == 0
    }
}

/// Checks issues and `blocks` edges.  The diagnosis counts the issues and
/// those among them whose deletion fields do not fit their status, and it
/// finds no cycle exactly where the edges form none.
pub fn diagnose(issues: &Vec<Issue>, pending_export: usize, blocks: &Vec<Edge>) -> (r: Diagnosis)
    ensures
        r.issues == issues@.len(),
        r.pending_export == pending_export,
        r.inconsistent_tombstones == count_of(issues_view(issues@), Selector::Inconsistent),
        (r.cycles == 0) == acyclic(edge_pairs(blocks@)),
{
    let cycles: Vec<Vec<String>> = find_cycles(blocks);
    proof {
        let pairs = edge_pairs(blocks@);
        if cycles@.len() == 0 {
            assert forall|a: Seq<char>| !has_path(pairs, a, a) by {
                if on_cycle(pairs, a) {
                    assert(grouped(groups_view(cycles@), a));
                }
            }
        } else {
            assert(is_cycle_group(pairs, groups_view(cycles@)[0]));
            assert(on_cycle(pairs, groups_view(cycles@)[0][0]));
        }
    }
    Diagnosis {
        issues: issues.len(),
        pending_export,
        inconsistent_tombstones: count_selected(issues, Selector::Inconsistent),
        cycles: cycles.len(),
    }
}

impl SqliteStorage {
    /// Checks the store without writing to it.  Whatever the database
    /// holds, the diagnosis is that of some issues and `blocks` edges, as
    /// [`diagnose`] makes it.
    pub fn doctor(&self) -> (r: Result<Diagnosis, BeadsError>)
        ensures
            r matches Err(e) ==> e.from_storage(),
            r matches Ok(found) ==> exists|issues: Seq<IssueData>, blocks: Seq<(Seq<char>, Seq<char>)>|
                found.issues == issues.len() && found.inconsistent_tombstones == count_of(
                    issues,
                    Selector::Inconsistent,
                ) && (found.cycles == 0) == acyclic(blocks),
    {
        let mut sql: String = SELECT_ISSUES.to_owned();
        sql.append(" ORDER BY id");
        let issue_rows: Vec<Vec<SqlValue>> = fetch_all(self.connection(), &plain(sql.as_str()))?;
        let issues: Vec<Issue> = issues_from_rows(&issue_rows, Timestamp::now())?;
        let dirty_rows: Vec<Vec<SqlValue>> = fetch_all(self.connection(), &plain(SELECT_DIRTY))?;
        let dirty: Vec<String> = read_texts(&dirty_rows)?;
        let edge_rows: Vec<Vec<SqlValue>> = fetch_all(self.connection(), &plain(SELECT_BLOCKS))?;
        let blocks: Vec<Edge> = edges_from_rows(&edge_rows)?;
        let found: Diagnosis = diagnose(&issues, dirty.len(), &blocks);
        proof {
            assert(issues_view(issues@).len() == issues@.len());
        }
        Ok(found)
    }
}

} // verus!
