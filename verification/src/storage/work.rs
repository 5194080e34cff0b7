//! What the store works out from its rows: counts and statistics, cycles and
//! dependency trees, the ready list, and the blocked list with the cache
//! that holds it between mutations.

use vstd::prelude::*;
use crate::cycles::{cycles_of, cycles_of_some_graph, find_cycles, groups_view};
use crate::diagram::{TreeFormat, mermaid, render_mermaid, render_text, tree_lines};
use crate::error::BeadsError;
use crate::graph::{Edge, edge_pairs};
use crate::jsonl::{array, json_string};
use crate::tree::{TreeNode, dependency_tree, tree_edges};
use crate::model::{Dependency, DependencyData, Issue, IssueData, texts};
use crate::readiness::{
    BlockedIssue, blocked_entries, blocked_issues, blocked_view, issues_view, ready_among,
    ready_among_listed, ready_ids, ready_issues,
};
use crate::stats::{Stats, stats, stats_of};
use crate::storage::query::{Grouping, ListFilters, SELECT_ISSUES, build_count_query};
use crate::storage::rows::{count_to_size, int_at, read_count, rows_view, size_of_count};
use crate::text::{digits, format_decimal};
use crate::storage::rows::{column_text, dependencies_from_rows, edges_from_rows, issues_from_rows};
use crate::storage::sql::{binds_real, SqlData, SqlStatement, SqlStatementData, SqlValue, text_value, values_view};
use crate::storage::sqlite::{SqliteStorage, fetch_all, issue_is_there};
use crate::storage::statements::{
    COUNT_ISSUE, INSERT_BLOCKED_CACHE, SELECT_ALL_DEPENDENCIES, SELECT_BLOCKED_CACHE,
    SELECT_LIVING_GRAPH, keyed, plain, select_living_issues,
};
use crate::time::Timestamp;

verus! {

/// The JSON array of a list of texts: the JSON string of each, with commas
/// between them, between brackets.
pub open spec fn json_of_texts(list: Seq<Seq<char>>) -> Seq<char> {
    array(Seq::new(list.len(), |i: int| json_string(list[i])))
}

/// The list of texts that serde_json reads from a JSON array of strings;
/// `None` where the text is no such array.
pub uninterp spec fn texts_of_json(text: Seq<char>) -> Option<Seq<Seq<char>>>;

/// `serde_json::to_string` of a list of texts.  Writing a list of texts
/// cannot fail; it is written as an array without white space, each text
/// as `serde_json::to_string` writes a text.
#[verifier::external_body]
fn encode_texts(list: &Vec<String>) -> (r: String)
    ensures
        r@ == json_of_texts(texts(list@)),
{
    serde_json::to_string(list).unwrap_or_default()
}

/// `serde_json::from_str` into a list of texts.
#[verifier::external_body]
fn decode_texts(text: &str) -> (r: Option<Vec<String>>)
    ensures
        (match r { Some(list) => Some(texts(list@)), None => None }) == texts_of_json(text@),
{
    serde_json::from_str(text).ok()
}

/// The statement that caches one blocked issue.
pub open spec fn cache_statement(id: Seq<char>, blocked_by_json: Seq<char>) -> SqlStatementData {
    SqlStatementData {
        sql: INSERT_BLOCKED_CACHE@,
        params: seq![SqlData::Text(id), SqlData::Text(blocked_by_json)],
    }
}

/// Builds the statement that caches a blocked issue: its id, and the ids
/// that hold it up as a JSON array.
pub fn cache_entry(entry: &BlockedIssue) -> (r: SqlStatement)
    ensures
        r@ == cache_statement(entry.id@, json_of_texts(texts(entry.blocked_by@))),
        !binds_real(r@.params),
{
    let json: String = encode_texts(&entry.blocked_by);
    let mut params: Vec<SqlValue> = Vec::new();
    params.push(text_value(entry.id.as_str()));
    params.push(SqlValue::Text(json));
    let statement = SqlStatement { sql: INSERT_BLOCKED_CACHE.to_owned(), params };
    assert(statement@.params =~= cache_statement(entry.id@, json@).params);
    statement
}

/// Reads one row of the cache: the issue and the ids that hold it up.  A row
/// whose second column is no JSON array of strings is a `SchemaError`.
pub fn cached_entry(row: &Vec<SqlValue>) -> (r: Result<BlockedIssue, BeadsError>)
    ensures
        r matches Ok(entry) ==> crate::storage::rows::text_at(values_view(row@), 0) == Some(entry.id@)
            && texts_of_json(crate::storage::rows::text_at(values_view(row@), 1)->Some_0) == Some(
            texts(entry.blocked_by@),
        ),
        r matches Err(e) ==> e is SchemaError,
{
    let id: String = column_text(row, 0)?;
    let json: String = column_text(row, 1)?;
    match decode_texts(json.as_str()) {
        Some(blocked_by) => Ok(BlockedIssue { id, blocked_by }),
        None => Err(
            BeadsError::SchemaError { message: "the cache of blocked issues holds what is no list".to_owned() },
        ),
    }
}

/// Whether a list is what the rows of the cache say: one entry to a row,
/// with the issue of the first column and the ids that the JSON of the
/// second column lists.
pub open spec fn cached_as(rows: Seq<Seq<SqlData>>, list: Seq<BlockedIssue>) -> bool {
    &&& list.len() == rows.len()
    &&& forall|i: int|
        0 <= i < list.len() ==> crate::storage::rows::text_at(rows[i], 0) == Some((#[trigger] list[i]).id@)
            && texts_of_json(crate::storage::rows::text_at(rows[i], 1)->Some_0) == Some(texts(list[i].blocked_by@))
}

/// Reads the rows of the cache, one entry to a row.  A row that is no entry
/// is a `SchemaError`.
pub fn cached_entries(rows: &Vec<Vec<SqlValue>>) -> (r: Result<Vec<BlockedIssue>, BeadsError>)
    ensures
        r matches Ok(list) ==> cached_as(rows_view(rows@), list@),
        r matches Err(e) ==> e is SchemaError,
{
    let mut out: Vec<BlockedIssue> = Vec::new();
    let mut i: usize = 0;
    while i < rows.len()
        invariant
            i <= rows.len(),
            out@.len() == i,
            forall|k: int|
                0 <= k < i ==> crate::storage::rows::text_at(rows_view(rows@)[k], 0) == Some((#[trigger] out@[k]).id@)
                    && texts_of_json(crate::storage::rows::text_at(rows_view(rows@)[k], 1)->Some_0) == Some(
                    texts(out@[k].blocked_by@),
                ),
        decreases rows.len() - i,
    {
        assert(rows_view(rows@)[i as int] == values_view(rows@[i as int]@));
        let entry: BlockedIssue = cached_entry(&rows[i])?;
        out.push(entry);
        i = i + 1;
    }
    Ok(out)
}

/// One group of a count: the value that the issues of the group share, and
/// how many they are.
#[derive(Debug, Clone)]
pub struct GroupCount {
    pub key: String,
    pub count: usize,
}

/// The value of a group as it is shown: a text as it is, a number in
/// decimal, and `(none)` for issues that have no value.
pub open spec fn shown_key(value: SqlData) -> Option<Seq<char>> {
    match value {
        SqlData::Text(s) => Some(s),
        SqlData::Integer(i) => if 0 <= i <= u64::MAX {
            Some(digits(i as nat, 10))
        } else {
            None
        },
        SqlData::Null => Some("(none)"@),
        _ => None,
    }
}

/// Whether a row can be decoded as a group: a key that can be shown, and a
/// count.
pub open spec fn group_row_ok(row: Seq<SqlData>) -> bool {
    row.len() >= 2 && shown_key(row[0]) is Some && int_at(row, 1) is Some
}

/// Decodes a row of a grouped count.
pub fn group_from_row(row: &Vec<SqlValue>) -> (r: Result<GroupCount, BeadsError>)
    ensures
        group_row_ok(values_view(row@)) ==> (r matches Ok(group) && Some(group.key@) == shown_key(
            values_view(row@)[0],
        ) && group.count == size_of_count(int_at(values_view(row@), 1)->Some_0)),
        !group_row_ok(values_view(row@)) ==> r matches Err(BeadsError::SchemaError { .. }),
{
    if row.len() < 2 {
        return Err(crate::error::schema_error("a group came back without its count"));
    }
    let key: String = match &row[0] {
        SqlValue::Text(s) => s.clone(),
        SqlValue::Integer(i) => {
            if *i < 0 {
                return Err(crate::error::schema_error("a group has a negative key"));
            }
            format_decimal(*i as u64)
        },
        SqlValue::Null => "(none)".to_owned(),
        _ => {
            return Err(crate::error::schema_error("a group has a key that cannot be shown"));
        },
    };
    let count: i64 = crate::storage::rows::column_int(row, 1)?;
    Ok(GroupCount { key, count: count_to_size(count) })
}

impl SqliteStorage {
    /// Counts the issues passing `filters`.
    pub fn count_filtered(&self, filters: &ListFilters) -> (r: Result<usize, BeadsError>)
        ensures
            r matches Err(e) ==> e.from_storage(),
    {
        let rows: Vec<Vec<SqlValue>> = fetch_all(self.connection(), &build_count_query(None, filters))?;
        let count: i64 = read_count(&rows)?;
        Ok(count_to_size(count))
    }

    /// Counts the issues passing `filters` for each value of what `by`
    /// names, in the order of the values.
    pub fn count_grouped(&self, by: Grouping, filters: &ListFilters) -> (r: Result<Vec<GroupCount>, BeadsError>)
        ensures
            r matches Err(e) ==> e.from_storage(),
    {
        let rows: Vec<Vec<SqlValue>> = fetch_all(self.connection(), &build_count_query(Some(by), filters))?;
        let mut out: Vec<GroupCount> = Vec::new();
        let mut i: usize = 0;
        while i < rows.len()
            invariant
                i <= rows.len(),
            decreases rows.len() - i,
        {
            let group: GroupCount = group_from_row(&rows[i])?;
            out.push(group);
            i = i + 1;
        }
        Ok(out)
    }

    /// The counts of the workspace: by status, type and priority, and the
    /// issues that are ready, blocked and overdue now.
    ///
    /// Whatever the database holds, the counts are those of [`stats_of`] for
    /// some issues and dependencies at some time.
    pub fn stats(&self) -> (r: Result<Stats, BeadsError>)
        ensures
            r matches Err(e) ==> e.from_storage(),
            r matches Ok(counts) ==> exists|issues: Seq<IssueData>, deps: Seq<DependencyData>, now: Timestamp|
                counts == stats_of(issues, deps, now),
    {
        let now: Timestamp = Timestamp::now();
        let mut sql: String = SELECT_ISSUES.to_owned();
        sql.append(" ORDER BY priority ASC, created_at DESC");
        let issue_rows: Vec<Vec<SqlValue>> = fetch_all(self.connection(), &plain(sql.as_str()))?;
        let issues: Vec<Issue> = issues_from_rows(&issue_rows, now)?;
        let dep_rows: Vec<Vec<SqlValue>> = fetch_all(self.connection(), &plain(SELECT_ALL_DEPENDENCIES))?;
        let deps: Vec<Dependency> = dependencies_from_rows(&dep_rows, now)?;
        Ok(stats(&issues, &deps, &now))
    }

    /// Reads the dependency edges between issues that are no tombstones.
    fn load_edges(&self) -> (r: Result<Vec<Edge>, BeadsError>)
        ensures
            r matches Err(e) ==> e.from_storage(),
    {
        let rows: Vec<Vec<SqlValue>> = fetch_all(self.connection(), &plain(SELECT_LIVING_GRAPH))?;
        edges_from_rows(&rows)
    }

    /// The cycles among the dependencies of issues that are no tombstones:
    /// each group of issues that depend on each other in a circle, and each
    /// issue that depends on itself.
    ///
    /// Whatever the database holds, the groups are the cycles of some edges:
    /// every group is one, no cycle is left out, and no two groups are the
    /// same cycle.
    pub fn cycles(&self) -> (r: Result<Vec<Vec<String>>, BeadsError>)
        ensures
            r matches Err(e) ==> e.from_storage(),
            r matches Ok(groups) ==> cycles_of_some_graph(groups_view(groups@)),
    {
        let edges: Vec<Edge> = self.load_edges()?;
        let groups: Vec<Vec<String>> = find_cycles(&edges);
        proof {
            let pairs = edge_pairs(edges@);
            assert(cycles_of(pairs, groups_view(groups@)));
        }
        Ok(groups)
    }

    /// The tree of what the issue `id` depends on, down to `max_depth` levels
    /// below it.  An issue that does not exist is `IssueNotFound`.
    pub fn dependency_tree(&self, id: &str, max_depth: usize) -> (r: Result<Vec<TreeNode>, BeadsError>)
        ensures
            r matches Err(e) ==> e.from_storage() || e.misses(id@),
            r matches Ok(tree) ==> tree@.len() >= 1 && tree@[0].id@ == id@ && forall|i: int|
                0 <= i < tree@.len() ==> (#[trigger] tree@[i]).depth <= max_depth,
    {
        let found: Vec<Vec<SqlValue>> = fetch_all(self.connection(), &keyed(COUNT_ISSUE, id))?;
        issue_is_there(&found, id)?;
        let edges: Vec<Edge> = self.load_edges()?;
        Ok(dependency_tree(&edges, id, max_depth))
    }

    /// Draws the tree of what the issue `id` depends on, in the format asked
    /// for.
    pub fn draw_tree(&self, id: &str, max_depth: usize, format: TreeFormat) -> (r: Result<String, BeadsError>)
        ensures
            r matches Err(e) ==> e.from_storage() || e.misses(id@),
            r matches Ok(drawing) ==> match format {
                TreeFormat::Mermaid => exists|issues: Seq<IssueData>, edges: Seq<(Seq<char>, Seq<char>)>|
                    drawing@ == mermaid(issues, id@, edges),
                TreeFormat::Text => exists|issues: Seq<IssueData>, tree: Seq<TreeNode>|
                    tree.len() >= 1 && tree[0].id@ == id@ && drawing@ == tree_lines(issues, tree, tree.len()),
            },
    {
        match format {
            TreeFormat::Mermaid => self.draw_dependency_tree(id, max_depth, true),
            TreeFormat::Text => self.draw_dependency_tree(id, max_depth, false),
        }
    }

    /// Draws the tree of what the issue `id` depends on: as a Mermaid diagram
    /// where `as_mermaid` is set, as indented text otherwise.
    ///
    /// Whatever the database holds, the drawing is that of some issues and
    /// edges: a diagram from the issue `id`, or the lines of a tree that
    /// starts with it.
    pub fn draw_dependency_tree(&self, id: &str, max_depth: usize, as_mermaid: bool) -> (r: Result<String, BeadsError>)
        ensures
            r matches Err(e) ==> e.from_storage() || e.misses(id@),
            r matches Ok(drawing) ==> if as_mermaid {
                exists|issues: Seq<IssueData>, edges: Seq<(Seq<char>, Seq<char>)>|
                    drawing@ == mermaid(issues, id@, edges)
            } else {
                exists|issues: Seq<IssueData>, tree: Seq<TreeNode>|
                    tree.len() >= 1 && tree[0].id@ == id@ && drawing@ == tree_lines(issues, tree, tree.len())
            },
    {
        let tree: Vec<TreeNode> = self.dependency_tree(id, max_depth)?;
        let issue_rows: Vec<Vec<SqlValue>> = fetch_all(self.connection(), &select_living_issues())?;
        let issues: Vec<Issue> = issues_from_rows(&issue_rows, Timestamp::now())?;
        if as_mermaid {
            let edges: Vec<Edge> = self.load_edges()?;
            let drawn: Vec<Edge> = tree_edges(&edges, &tree, max_depth);
            Ok(render_mermaid(&issues, id, &drawn))
        } else {
            Ok(render_text(&issues, &tree))
        }
    }

    /// Reads every issue that is no tombstone and every dependency.
    fn load_graph(&self) -> (r: Result<(Vec<Issue>, Vec<Dependency>), BeadsError>)
        ensures
            r matches Err(e) ==> e.from_storage(),
    {
        let now: Timestamp = Timestamp::now();
        let issue_rows: Vec<Vec<SqlValue>> = fetch_all(self.connection(), &select_living_issues())?;
        let issues: Vec<Issue> = issues_from_rows(&issue_rows, now)?;
        let dep_rows: Vec<Vec<SqlValue>> = fetch_all(self.connection(), &plain(SELECT_ALL_DEPENDENCIES))?;
        let deps: Vec<Dependency> = dependencies_from_rows(&dep_rows, now)?;
        Ok((issues, deps))
    }

    /// The ids of the issues that can be worked on now, most urgent first.
    ///
    /// Whatever the database holds, the ids are the [`ready_ids`] of some
    /// issues and dependencies at some time.
    pub fn ready_issues(&self) -> (r: Result<Vec<String>, BeadsError>)
        ensures
            r matches Err(e) ==> e.from_storage(),
            r matches Ok(ids) ==> exists|issues: Seq<IssueData>, deps: Seq<DependencyData>, now: Timestamp|
                texts(ids@) == ready_ids(issues, deps, now),
    {
        let graph: (Vec<Issue>, Vec<Dependency>) = self.load_graph()?;
        let now: Timestamp = Timestamp::now();
        Ok(ready_issues(&graph.0, &graph.1, &now))
    }

    /// The issues that pass the filters and can be worked on now, in the
    /// order that the filters ask for and no more than their limit allows.
    ///
    /// Whatever the database holds, the issues are the ready ones of some
    /// listing, as [`ready_among`] picks them under the limit of the
    /// filters.
    pub fn ready(&self, filters: &ListFilters) -> (r: Result<Vec<Issue>, BeadsError>)
        ensures
            r matches Err(e) ==> e.from_storage(),
            r matches Ok(list) ==> (filters.limit matches Some(n) ==> n > 0 ==> list@.len() <= n),
            r matches Ok(list) ==> exists|
                issues: Seq<IssueData>,
                deps: Seq<DependencyData>,
                listed: Seq<IssueData>,
                now: Timestamp,
            |
                issues_view(list@) == ready_among(issues, deps, listed, now, filters.limit),
    {
        let graph: (Vec<Issue>, Vec<Dependency>) = self.load_graph()?;
        let now: Timestamp = Timestamp::now();
        let mut wide: ListFilters = filters.clone();
        wide.limit = None;
        let listed: Vec<Issue> = self.list_issues(&wide)?;
        let chosen: Vec<Issue> = ready_among_listed(&graph.0, &graph.1, &listed, &now, filters.limit);
        assert(crate::readiness::issues_view(chosen@).len() == chosen@.len());
        Ok(chosen)
    }

    /// The issues that are held up, each with the issues that hold it up.
    ///
    /// The answer comes from the cache where the cache holds any.  Where it
    /// is empty, as it is after every mutation that bears on readiness, the
    /// list is worked out from the issues and the dependencies and written
    /// to the cache in one transaction.
    ///
    /// Whatever the database holds, the list is either what some rows of
    /// the cache say, one entry to a row, or the [`blocked_entries`] of some
    /// issues and dependencies.
    pub fn blocked_issues(&mut self) -> (r: Result<Vec<BlockedIssue>, BeadsError>)
        ensures
            r matches Err(e) ==> e.from_storage(),
            r matches Ok(list) ==> {
                ||| exists|rows: Seq<Seq<SqlData>>| rows.len() > 0 && #[trigger] cached_as(rows, list@)
                ||| exists|issues: Seq<IssueData>, deps: Seq<DependencyData>|
                    blocked_view(list@) == blocked_entries(issues, deps)
            },
    {
        let cached: Vec<Vec<SqlValue>> = fetch_all(self.connection(), &plain(SELECT_BLOCKED_CACHE))?;
        if cached.len() > 0 {
            let list: Vec<BlockedIssue> = cached_entries(&cached)?;
            proof {
                assert(cached_as(rows_view(cached@), list@));
            }
            return Ok(list);
        }
        let graph: (Vec<Issue>, Vec<Dependency>) = self.load_graph()?;
        let blocked: Vec<BlockedIssue> = blocked_issues(&graph.0, &graph.1);
        self.fill_cache(&blocked)?;
        Ok(blocked)
    }

    /// Writes the blocked list to the cache, all of it or nothing.
    fn fill_cache(&mut self, blocked: &Vec<BlockedIssue>) -> (r: Result<(), BeadsError>)
        ensures
            r matches Err(e) ==> e.from_storage(),
    {
        let mut statements: Vec<SqlStatement> = Vec::new();
        let mut i: usize = 0;
        while i < blocked.len()
            invariant
                i <= blocked.len(),
                forall|k: int| 0 <= k < statements@.len() ==> !binds_real((#[trigger] statements@[k])@.params),
            decreases blocked.len() - i,
        {
            statements.push(cache_entry(&blocked[i]));
            i = i + 1;
        }
        self.write_cache(&statements)
    }
}

} // verus!
