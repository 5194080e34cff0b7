//! The `SELECT` statements behind listing and searching.

use vstd::prelude::*;
use crate::model::{IssueType, Priority, Status};
use crate::storage::sql::{binds_real, SqlData, SqlValue, SqlStatement, SqlStatementData, values_view, values_view_push};
use crate::model::texts;
use crate::text::{digits, format_decimal};
use crate::time::Timestamp;

verus! {

/// What a listing is sorted by.
#[derive(Clone, Copy, Debug, PartialEq, Eq, Structural)]
pub enum SortKey {
    /// By priority, most urgent first; within one priority, newest first.
    Priority,
    /// By the time of creation, oldest first.
    CreatedAt,
    /// By the time of the last update, oldest first.
    UpdatedAt,
    /// By title, in the order of the database.
    Title,
}

/// Filter options for listing issues.
#[derive(Debug, Clone)]
pub struct ListFilters {
    pub statuses: Option<Vec<Status>>,
    pub types: Option<Vec<IssueType>>,
    pub priorities: Option<Vec<Priority>>,
    pub assignee: Option<String>,
    pub unassigned: bool,
    pub include_closed: bool,
    pub include_templates: bool,
    pub title_contains: Option<String>,
    pub limit: Option<usize>,
    /// Only issues that have every one of these labels.
    pub labels_all: Vec<String>,
    /// Only issues that have at least one of these labels, where any is named.
    pub labels_any: Vec<String>,
    /// Only issues of this priority or a less urgent one.
    pub priority_min: Option<Priority>,
    /// Only issues of this priority or a more urgent one.
    pub priority_max: Option<Priority>,
    pub description_contains: Option<String>,
    pub notes_contains: Option<String>,
    /// Only issues that were due before this time.
    pub overdue_before: Option<Timestamp>,
    /// Only the issues with these ids, where any is named.
    pub ids: Vec<String>,
    /// Only issues that are not put off beyond this time.
    pub not_deferred_at: Option<Timestamp>,
    /// What the listing is sorted by: by priority where nothing is named.
    pub sort: Option<SortKey>,
    /// Whether the order is turned around.
    pub reverse: bool,
}

impl Default for ListFilters {
    fn default() -> (r: ListFilters)
        ensures
            r.statuses is None,
            r.types is None,
            r.priorities is None,
            r.assignee is None,
            !r.unassigned,
            !r.include_closed,
            !r.include_templates,
            r.title_contains is None,
            r.limit is None,
            r.labels_all@.len() == 0,
            r.labels_any@.len() == 0,
            r.priority_min is None,
            r.priority_max is None,
            r.description_contains is None,
            r.notes_contains is None,
            r.overdue_before is None,
            r.ids@.len() == 0,
            r.not_deferred_at is None,
            r.sort is None,
            !r.reverse,
    {
        ListFilters {
            statuses: None,
            types: None,
            priorities: None,
            assignee: None,
            unassigned: false,
            include_closed: false,
            include_templates: false,
            title_contains: None,
            limit: None,
            labels_all: Vec::new(),
            labels_any: Vec::new(),
            priority_min: None,
            priority_max: None,
            description_contains: None,
            notes_contains: None,
            overdue_before: None,
            ids: Vec::new(),
            not_deferred_at: None,
            sort: None,
            reverse: false,
        }
    }
}

/// The columns of an issue row, in the order in which rows are decoded.
pub const SELECT_ISSUES: &'static str = "SELECT id, content_hash, title, description, design, acceptance_criteria, notes, status, priority, issue_type, assignee, owner, estimated_minutes, created_at, created_by, updated_at, closed_at, close_reason, closed_by_session, due_at, defer_until, external_ref, source_system, deleted_at, deleted_by, delete_reason, original_type, compaction_level, compacted_at, compacted_at_commit, original_size, sender, ephemeral, pinned, is_template FROM issues WHERE 1=1";

/// `n` placeholders separated by commas.
pub open spec fn placeholders(n: nat) -> Seq<char>
    decreases n,
{
    if n == 0 {
        Seq::empty()
    } else if n == 1 {
        "?"@
    } else {
        placeholders((n - 1) as nat) + ",?"@
    }
}

/// The `IN (...)` condition that `opening` starts, for a set of `n` values; no
/// condition at all for an empty set.
pub open spec fn in_clause(opening: Seq<char>, n: nat) -> Seq<char> {
    if n == 0 {
        Seq::empty()
    } else {
        opening + placeholders(n) + ")"@
    }
}

/// The number of values in an optional set.
pub open spec fn set_size<T>(set: Option<Vec<T>>) -> nat {
    match set {
        Some(v) => v@.len(),
        None => 0,
    }
}

/// The `LIMIT` clause: none for no limit and for a limit of 0.
pub open spec fn limit_clause(limit: Option<usize>) -> Seq<char> {
    match limit {
        Some(n) => if n > 0 {
            " LIMIT "@ + digits(n as nat, 10)
        } else {
            Seq::empty()
        },
        None => Seq::empty(),
    }
}

/// Whether a character has a meaning of its own in a `LIKE` pattern: `%`,
/// `_`, and the backslash that takes the meaning away.
pub open spec fn special(c: char) -> bool {
    c == '%' || c == '_' || c == '\\'
}

/// A text as a `LIKE` pattern that matches it and nothing else: a backslash
/// stands before each character that has a meaning of its own.
pub open spec fn escaped(text: Seq<char>) -> Seq<char>
    decreases text.len(),
{
    if text.len() == 0 {
        Seq::empty()
    } else if special(text.last()) {
        escaped(text.drop_last()) + seq!['\\', text.last()]
    } else {
        escaped(text.drop_last()).push(text.last())
    }
}

/// A `LIKE` pattern that matches the texts containing `needle`, under the
/// backslash as the escape character.
pub open spec fn contains_pattern(needle: Seq<char>) -> Seq<char> {
    "%"@ + escaped(needle) + "%"@
}

/// The conditions on status, type and priority.
pub open spec fn sets_sql(f: ListFilters) -> Seq<char> {
    in_clause(" AND status IN ("@, set_size(f.statuses))
        + in_clause(" AND issue_type IN ("@, set_size(f.types))
        + in_clause(" AND priority IN ("@, set_size(f.priorities))
}

/// The conditions on the assignee, on closed issues and on templates.
pub open spec fn flags_sql(f: ListFilters) -> Seq<char> {
    (if f.assignee is Some { " AND assignee = ?"@ } else { Seq::empty() })
        + (if f.unassigned { " AND assignee IS NULL"@ } else { Seq::empty() })
        + (if !f.include_closed { " AND status NOT IN ('closed', 'tombstone')"@ } else { Seq::empty() })
        + (if !f.include_templates { " AND (is_template = 0 OR is_template IS NULL)"@ } else { Seq::empty() })
}

pub const HAS_LABEL: &'static str = " AND EXISTS (SELECT 1 FROM labels WHERE labels.issue_id = issues.id AND labels.label = ?)";

pub const HAS_ANY_LABEL: &'static str = " AND EXISTS (SELECT 1 FROM labels WHERE labels.issue_id = issues.id AND labels.label IN (";

/// `text` repeated `n` times.
pub open spec fn repeated(text: Seq<char>, n: nat) -> Seq<char>
    decreases n,
{
    if n == 0 {
        Seq::empty()
    } else {
        repeated(text, (n - 1) as nat) + text
    }
}

/// The condition that an issue has one of `n` labels; none where no label is
/// named.
pub open spec fn any_label_clause(n: nat) -> Seq<char> {
    if n == 0 {
        Seq::empty()
    } else {
        HAS_ANY_LABEL@ + placeholders(n) + "))"@
    }
}

/// `text` where `wanted`, nothing otherwise.
pub open spec fn when(wanted: bool, text: Seq<char>) -> Seq<char> {
    if wanted {
        text
    } else {
        Seq::empty()
    }
}

/// `sql` followed by the conditions on the title, on labels, on the range of
/// priorities, on description and notes, on the due date, on the ids and on
/// deferral.
pub open spec fn with_text_conditions(sql: Seq<char>, f: ListFilters) -> Seq<char> {
    sql + when(f.title_contains is Some, " AND title LIKE ? ESCAPE '\\'"@)
        + repeated(HAS_LABEL@, f.labels_all@.len())
        + any_label_clause(f.labels_any@.len())
        + when(f.priority_min is Some, " AND priority >= ?"@)
        + when(f.priority_max is Some, " AND priority <= ?"@)
        + when(f.description_contains is Some, " AND description LIKE ? ESCAPE '\\'"@)
        + when(f.notes_contains is Some, " AND notes LIKE ? ESCAPE '\\'"@)
        + when(f.overdue_before is Some, " AND due_at IS NOT NULL AND due_at < ?"@)
        + in_clause(" AND id IN ("@, f.ids@.len())
        + when(f.not_deferred_at is Some, " AND (defer_until IS NULL OR defer_until <= ?)"@)
}

/// `sql` followed by every condition of the filters.
pub open spec fn with_conditions(sql: Seq<char>, f: ListFilters) -> Seq<char> {
    with_text_conditions(sql + sets_sql(f) + flags_sql(f), f)
}

/// The `ORDER BY` clause of a listing.  Issues with the same key follow each
/// other by id, but for the order by priority, where the newest comes first.
pub open spec fn order_clause(sort: Option<SortKey>, reverse: bool) -> Seq<char> {
    match sort {
        Some(SortKey::CreatedAt) => if reverse {
            " ORDER BY created_at DESC, id DESC"@
        } else {
            " ORDER BY created_at ASC, id ASC"@
        },
        Some(SortKey::UpdatedAt) => if reverse {
            " ORDER BY updated_at DESC, id DESC"@
        } else {
            " ORDER BY updated_at ASC, id ASC"@
        },
        Some(SortKey::Title) => if reverse {
            " ORDER BY title DESC, id DESC"@
        } else {
            " ORDER BY title ASC, id ASC"@
        },
        _ => if reverse {
            " ORDER BY priority DESC, created_at ASC"@
        } else {
            " ORDER BY priority ASC, created_at DESC"@
        },
    }
}

/// `sql` followed by the conditions of the filters, the ordering of the
/// listing and the limit.
pub open spec fn filtered(sql: Seq<char>, f: ListFilters) -> Seq<char> {
    with_conditions(sql, f) + order_clause(f.sort, f.reverse) + limit_clause(f.limit)
}

/// The `ORDER BY` clause of a listing.
pub fn order_by(sort: Option<SortKey>, reverse: bool) -> (r: &'static str)
    ensures
        r@ == order_clause(sort, reverse),
{
    match sort {
        Some(SortKey::CreatedAt) => if reverse {
            " ORDER BY created_at DESC, id DESC"
        } else {
            " ORDER BY created_at ASC, id ASC"
        },
        Some(SortKey::UpdatedAt) => if reverse {
            " ORDER BY updated_at DESC, id DESC"
        } else {
            " ORDER BY updated_at ASC, id ASC"
        },
        Some(SortKey::Title) => if reverse {
            " ORDER BY title DESC, id DESC"
        } else {
            " ORDER BY title ASC, id ASC"
        },
        _ => if reverse {
            " ORDER BY priority DESC, created_at ASC"
        } else {
            " ORDER BY priority ASC, created_at DESC"
        },
    }
}

/// The texts of a list as values.
pub open spec fn text_values(list: Seq<Seq<char>>) -> Seq<SqlData> {
    Seq::new(list.len(), |i: int| SqlData::Text(list[i]))
}

/// The value of an optional text to look for: its pattern, where there is
/// one.
pub open spec fn pattern_value(needle: Option<String>) -> Seq<SqlData> {
    match needle {
        Some(t) => seq![SqlData::Text(contains_pattern(t@))],
        None => Seq::empty(),
    }
}

/// The value of an optional instant: its text.
pub open spec fn instant_value(instant: Option<Timestamp>) -> Seq<SqlData> {
    match instant {
        Some(t) => seq![SqlData::Text(t.text())],
        None => Seq::empty(),
    }
}

/// The value of an optional priority.
pub open spec fn priority_value(priority: Option<Priority>) -> Seq<SqlData> {
    match priority {
        Some(p) => seq![SqlData::Integer(p.0 as int)],
        None => Seq::empty(),
    }
}

/// `params` followed by the values bound to the placeholders of
/// [`with_conditions`], in order.
pub open spec fn with_params(params: Seq<SqlData>, f: ListFilters) -> Seq<SqlData> {
    params + sets_params(f)
        + (match f.assignee {
            Some(a) => seq![SqlData::Text(a@)],
            None => Seq::empty(),
        })
        + pattern_value(f.title_contains)
        + text_values(texts(f.labels_all@))
        + text_values(texts(f.labels_any@))
        + priority_value(f.priority_min)
        + priority_value(f.priority_max)
        + pattern_value(f.description_contains)
        + pattern_value(f.notes_contains)
        + instant_value(f.overdue_before)
        + text_values(texts(f.ids@))
        + instant_value(f.not_deferred_at)
}

pub open spec fn status_values(set: Option<Vec<Status>>) -> Seq<SqlData> {
    match set {
        Some(v) => Seq::new(v@.len(), |i: int| SqlData::Text(v@[i].text())),
        None => Seq::empty(),
    }
}

pub open spec fn type_values(set: Option<Vec<IssueType>>) -> Seq<SqlData> {
    match set {
        Some(v) => Seq::new(v@.len(), |i: int| SqlData::Text(v@[i].text())),
        None => Seq::empty(),
    }
}

pub open spec fn priority_values(set: Option<Vec<Priority>>) -> Seq<SqlData> {
    match set {
        Some(v) => Seq::new(v@.len(), |i: int| SqlData::Integer(v@[i].0 as int)),
        None => Seq::empty(),
    }
}

/// The values bound to the placeholders of [`sets_sql`], in order.
pub open spec fn sets_params(f: ListFilters) -> Seq<SqlData> {
    status_values(f.statuses) + type_values(f.types) + priority_values(f.priorities)
}

/// The statement that lists the issues passing `f`: by priority, most urgent
/// first, and by creation time, newest first, within one priority.
pub open spec fn list_statement(f: ListFilters) -> SqlStatementData {
    SqlStatementData { sql: filtered(SELECT_ISSUES@, f), params: with_params(Seq::empty(), f) }
}

/// The statement that searches title, description and id for `needle` among
/// the issues passing `f`.
pub open spec fn search_statement(needle: Seq<char>, f: ListFilters) -> SqlStatementData {
    SqlStatementData {
        sql: filtered(SELECT_ISSUES@ + " AND (title LIKE ? ESCAPE '\\' OR description LIKE ? ESCAPE '\\' OR id LIKE ? ESCAPE '\\')"@, f),
        params: with_params(
            seq![
                SqlData::Text(contains_pattern(needle)),
                SqlData::Text(contains_pattern(needle)),
                SqlData::Text(contains_pattern(needle)),
            ],
            f,
        ),
    }
}

/// Appends `opening`, `n` placeholders and `)` to `sql`; nothing when `n` is 0.
fn push_in_clause(sql: &mut String, opening: &str, n: usize)
    ensures
        final(sql)@ == old(sql)@ + in_clause(opening@, n as nat),
{
    if n > 0 {
        sql.append(opening);
        sql.append("?");
        let mut i: usize = 1;
        while i < n
            invariant
                1 <= i <= n,
                sql@ == old(sql)@ + opening@ + placeholders(i as nat),
            decreases n - i,
        {
            sql.append(",?");
            i = i + 1;
            assert(sql@ =~= old(sql)@ + opening@ + placeholders(i as nat));
        }
        sql.append(")");
        assert(sql@ =~= old(sql)@ + in_clause(opening@, n as nat));
    } else {
        assert(sql@ =~= old(sql)@ + in_clause(opening@, n as nat));
    }
}

/// The pattern that matches the texts containing `needle`.
pub fn like_pattern(needle: &str) -> (r: String)
    ensures
        r@ == contains_pattern(needle@),
{
    let n: usize = needle.unicode_len();
    let mut r: String = "%".to_owned();
    let mut i: usize = 0;
    proof {
        reveal_strlit("\\");
        assert(needle@.take(0) =~= Seq::empty());
        assert(r@ =~= "%"@ + escaped(needle@.take(0)));
    }
    while i < n
        invariant
            i <= n,
            n == needle@.len(),
            "\\"@ == seq!['\\'],
            r@ == "%"@ + escaped(needle@.take(i as int)),
        decreases n - i,
    {
        let c: char = needle.get_char(i);
        proof {
            assert(needle@.take(i + 1).drop_last() =~= needle@.take(i as int));
            assert(needle@.take(i + 1).last() == c);
            assert(needle@.subrange(i as int, i + 1) =~= seq![c]);
        }
        if c == '%' || c == '_' || c == '\\' {
            r.append("\\");
        }
        r.append(needle.substring_char(i, i + 1));
        proof {
            if special(c) {
                assert(r@ =~= "%"@ + (escaped(needle@.take(i as int)) + seq!['\\', c]));
            } else {
                assert(r@ =~= "%"@ + escaped(needle@.take(i as int)).push(c));
            }
        }
        i = i + 1;
    }
    proof {
        assert(needle@.take(n as int) =~= needle@);
    }
    r.append("%");
    r
}

fn push_status_values(params: &mut Vec<SqlValue>, set: &Option<Vec<Status>>)
    ensures
        values_view(final(params)@) == values_view(old(params)@) + status_values(*set),
{
    match set {
        Some(v) => {
            let mut i: usize = 0;
            while i < v.len()
                invariant
                    i <= v.len(),
                    *set == Some(*v),
                    values_view(params@) == values_view(old(params)@) + status_values(*set).take(i as int),
                decreases v.len() - i,
            {
                let ghost before = params@;
                let value: SqlValue = SqlValue::Text(v[i].as_str().to_owned());
                params.push(value);
                proof {
                    values_view_push(before, value);
                    assert(status_values(*set).take(i + 1) =~= status_values(*set).take(i as int).push(value@));
                }
                i = i + 1;
            }
            assert(status_values(*set).take(i as int) =~= status_values(*set));
        },
        None => {
            assert(values_view(params@) =~= values_view(old(params)@) + status_values(*set));
        },
    }
}

fn push_type_values(params: &mut Vec<SqlValue>, set: &Option<Vec<IssueType>>)
    ensures
        values_view(final(params)@) == values_view(old(params)@) + type_values(*set),
{
    match set {
        Some(v) => {
            let mut i: usize = 0;
            while i < v.len()
                invariant
                    i <= v.len(),
                    *set == Some(*v),
                    values_view(params@) == values_view(old(params)@) + type_values(*set).take(i as int),
                decreases v.len() - i,
            {
                let ghost before = params@;
                let value: SqlValue = SqlValue::Text(v[i].as_str().to_owned());
                params.push(value);
                proof {
                    values_view_push(before, value);
                    assert(type_values(*set).take(i + 1) =~= type_values(*set).take(i as int).push(value@));
                }
                i = i + 1;
            }
            assert(type_values(*set).take(i as int) =~= type_values(*set));
        },
        None => {
            assert(values_view(params@) =~= values_view(old(params)@) + type_values(*set));
        },
    }
}

fn push_priority_values(params: &mut Vec<SqlValue>, set: &Option<Vec<Priority>>)
    ensures
        values_view(final(params)@) == values_view(old(params)@) + priority_values(*set),
{
    match set {
        Some(v) => {
            let mut i: usize = 0;
            while i < v.len()
                invariant
                    i <= v.len(),
                    *set == Some(*v),
                    values_view(params@) == values_view(old(params)@) + priority_values(*set).take(i as int),
                decreases v.len() - i,
            {
                let ghost before = params@;
                let value: SqlValue = SqlValue::Integer(v[i].0 as i64);
                params.push(value);
                proof {
                    values_view_push(before, value);
                    assert(priority_values(*set).take(i + 1) =~= priority_values(*set).take(i as int).push(value@));
                }
                i = i + 1;
            }
            assert(priority_values(*set).take(i as int) =~= priority_values(*set));
        },
        None => {
            assert(values_view(params@) =~= values_view(old(params)@) + priority_values(*set));
        },
    }
}

fn set_len<T>(set: &Option<Vec<T>>) -> (n: usize)
    ensures
        n == set_size(*set),
{
    match set {
        Some(v) => v.len(),
        None => 0,
    }
}

fn push_sets(sql: &mut String, params: &mut Vec<SqlValue>, f: &ListFilters)
    ensures
        final(sql)@ == old(sql)@ + sets_sql(*f),
        values_view(final(params)@) == values_view(old(params)@) + sets_params(*f),
{
    push_in_clause(sql, " AND status IN (", set_len(&f.statuses));
    push_status_values(params, &f.statuses);
    push_in_clause(sql, " AND issue_type IN (", set_len(&f.types));
    push_type_values(params, &f.types);
    push_in_clause(sql, " AND priority IN (", set_len(&f.priorities));
    push_priority_values(params, &f.priorities);
    assert(sql@ =~= old(sql)@ + sets_sql(*f));
    assert(values_view(params@) =~= values_view(old(params)@) + sets_params(*f));
}

fn push_flags(sql: &mut String, f: &ListFilters)
    ensures
        final(sql)@ == old(sql)@ + flags_sql(*f),
{
    if f.assignee.is_some() {
        sql.append(" AND assignee = ?");
    }
    if f.unassigned {
        sql.append(" AND assignee IS NULL");
    }
    if !f.include_closed {
        sql.append(" AND status NOT IN ('closed', 'tombstone')");
    }
    if !f.include_templates {
        sql.append(" AND (is_template = 0 OR is_template IS NULL)");
    }
    assert(sql@ =~= old(sql)@ + flags_sql(*f));
}

fn push_texts(params: &mut Vec<SqlValue>, list: &Vec<String>)
    ensures
        values_view(final(params)@) == values_view(old(params)@) + text_values(texts(list@)),
{
    let mut i: usize = 0;
    assert(values_view(params@) =~= values_view(old(params)@) + text_values(texts(list@)).take(0));
    while i < list.len()
        invariant
            i <= list.len(),
            values_view(params@) == values_view(old(params)@) + text_values(texts(list@)).take(i as int),
        decreases list.len() - i,
    {
        let ghost before = params@;
        let value: SqlValue = SqlValue::Text(list[i].clone());
        params.push(value);
        proof {
            values_view_push(before, value);
            assert(text_values(texts(list@)).take(i + 1) =~= text_values(texts(list@)).take(i as int).push(value@));
        }
        i = i + 1;
    }
    assert(text_values(texts(list@)).take(i as int) =~= text_values(texts(list@)));
}

fn push_pattern(params: &mut Vec<SqlValue>, needle: &Option<String>)
    ensures
        values_view(final(params)@) == values_view(old(params)@) + pattern_value(*needle),
{
    if let Some(t) = needle {
        let ghost before = params@;
        let value: SqlValue = SqlValue::Text(like_pattern(t.as_str()));
        params.push(value);
        proof {
            values_view_push(before, value);
        }
    }
    assert(values_view(params@) =~= values_view(old(params)@) + pattern_value(*needle));
}

fn push_priority(params: &mut Vec<SqlValue>, priority: &Option<Priority>)
    ensures
        values_view(final(params)@) == values_view(old(params)@) + priority_value(*priority),
{
    if let Some(p) = priority {
        let ghost before = params@;
        let value: SqlValue = SqlValue::Integer(p.0 as i64);
        params.push(value);
        proof {
            values_view_push(before, value);
        }
    }
    assert(values_view(params@) =~= values_view(old(params)@) + priority_value(*priority));
}

fn push_assignee(params: &mut Vec<SqlValue>, assignee: &Option<String>)
    ensures
        values_view(final(params)@) == values_view(old(params)@) + (match *assignee {
            Some(a) => seq![SqlData::Text(a@)],
            None => Seq::empty(),
        }),
{
    if let Some(a) = assignee {
        let ghost before = params@;
        let value: SqlValue = SqlValue::Text(a.clone());
        params.push(value);
        proof {
            values_view_push(before, value);
        }
    }
    assert(values_view(params@) =~= values_view(old(params)@) + (match *assignee {
        Some(a) => seq![SqlData::Text(a@)],
        None => Seq::empty(),
    }));
}

fn push_instant(params: &mut Vec<SqlValue>, instant: &Option<Timestamp>)
    ensures
        values_view(final(params)@) == values_view(old(params)@) + instant_value(*instant),
{
    if let Some(t) = instant {
        let ghost before = params@;
        let value: SqlValue = SqlValue::Text(t.to_rfc3339());
        params.push(value);
        proof {
            values_view_push(before, value);
        }
    }
    assert(values_view(params@) =~= values_view(old(params)@) + instant_value(*instant));
}

fn push_repeated(sql: &mut String, text: &str, n: usize)
    ensures
        final(sql)@ == old(sql)@ + repeated(text@, n as nat),
{
    let mut i: usize = 0;
    assert(sql@ =~= old(sql)@ + repeated(text@, 0));
    while i < n
        invariant
            i <= n,
            sql@ == old(sql)@ + repeated(text@, i as nat),
        decreases n - i,
    {
        sql.append(text);
        i = i + 1;
        assert(sql@ =~= old(sql)@ + repeated(text@, i as nat));
    }
}

fn push_any_label(sql: &mut String, n: usize)
    ensures
        final(sql)@ == old(sql)@ + any_label_clause(n as nat),
{
    if n > 0 {
        let mut inner: String = String::new();
        push_in_clause(&mut inner, HAS_ANY_LABEL, n);
        sql.append(inner.as_str());
        sql.append(")");
        proof {
            reveal_strlit(")");
            reveal_strlit("))");
            assert(")"@ + ")"@ =~= "))"@);
            assert(sql@ =~= old(sql)@ + any_label_clause(n as nat));
        }
    } else {
        assert(sql@ =~= old(sql)@ + any_label_clause(n as nat));
    }
}

fn push_when(sql: &mut String, wanted: bool, text: &str)
    ensures
        final(sql)@ == old(sql)@ + when(wanted, text@),
{
    if wanted {
        sql.append(text);
    }
    assert(sql@ =~= old(sql)@ + when(wanted, text@));
}

/// Appends every condition of the filters to a statement under construction.
fn push_conditions(sql: &mut String, params: &mut Vec<SqlValue>, f: &ListFilters)
    ensures
        final(sql)@ == with_conditions(old(sql)@, *f),
        values_view(final(params)@) == with_params(values_view(old(params)@), *f),
{
    push_sets(sql, params, f);
    push_flags(sql, f);
    assert(sql@ =~= old(sql)@ + sets_sql(*f) + flags_sql(*f));
    push_when(sql, f.title_contains.is_some(), " AND title LIKE ? ESCAPE '\\'");
    push_repeated(sql, HAS_LABEL, f.labels_all.len());
    push_any_label(sql, f.labels_any.len());
    push_when(sql, f.priority_min.is_some(), " AND priority >= ?");
    push_when(sql, f.priority_max.is_some(), " AND priority <= ?");
    push_when(sql, f.description_contains.is_some(), " AND description LIKE ? ESCAPE '\\'");
    push_when(sql, f.notes_contains.is_some(), " AND notes LIKE ? ESCAPE '\\'");
    push_when(sql, f.overdue_before.is_some(), " AND due_at IS NOT NULL AND due_at < ?");
    push_in_clause(sql, " AND id IN (", f.ids.len());
    push_when(sql, f.not_deferred_at.is_some(), " AND (defer_until IS NULL OR defer_until <= ?)");

    push_assignee(params, &f.assignee);
    push_pattern(params, &f.title_contains);
    push_texts(params, &f.labels_all);
    push_texts(params, &f.labels_any);
    push_priority(params, &f.priority_min);
    push_priority(params, &f.priority_max);
    push_pattern(params, &f.description_contains);
    push_pattern(params, &f.notes_contains);
    push_instant(params, &f.overdue_before);
    push_texts(params, &f.ids);
    push_instant(params, &f.not_deferred_at);
}

/// Appends the conditions, the ordering and the limit to a statement under
/// construction.
fn push_filters(sql: &mut String, params: &mut Vec<SqlValue>, f: &ListFilters)
    ensures
        final(sql)@ == filtered(old(sql)@, *f),
        values_view(final(params)@) == with_params(values_view(old(params)@), *f),
{
    push_conditions(sql, params, f);
    sql.append(order_by(f.sort, f.reverse));
    let ghost ordered = sql@;
    if let Some(limit) = f.limit {
        if limit > 0 {
            sql.append(" LIMIT ");
            let number: String = format_decimal(limit as u64);
            sql.append(number.as_str());
        }
    }
    assert(sql@ =~= ordered + limit_clause(f.limit));
}

/// Values without a floating-point number, one list after another, are
/// values without one.
proof fn joined_values_can_be_bound(first: Seq<SqlData>, second: Seq<SqlData>)
    requires
        !binds_real(first),
        !binds_real(second),
    ensures
        !binds_real(first + second),
{
    assert forall|i: int| 0 <= i < (first + second).len() implies !(#[trigger] (first + second)[i] is Real) by {
        if i < first.len() {
            assert((first + second)[i] == first[i]);
        } else {
            assert((first + second)[i] == second[i - first.len()]);
        }
    }
}

/// The values of the conditions of a filter are texts and integers, so a
/// statement can take them.
pub proof fn filter_values_can_be_bound(params: Seq<SqlData>, f: ListFilters)
    requires
        !binds_real(params),
    ensures
        !binds_real(with_params(params, f)),
{
    let sets = status_values(f.statuses) + type_values(f.types);
    joined_values_can_be_bound(status_values(f.statuses), type_values(f.types));
    joined_values_can_be_bound(sets, priority_values(f.priorities));
    let a = params + sets_params(f);
    joined_values_can_be_bound(params, sets_params(f));
    let assignee = match f.assignee {
        Some(name) => seq![SqlData::Text(name@)],
        None => Seq::empty(),
    };
    joined_values_can_be_bound(a, assignee);
    let b = a + assignee;
    joined_values_can_be_bound(b, pattern_value(f.title_contains));
    let c = b + pattern_value(f.title_contains);
    joined_values_can_be_bound(c, text_values(texts(f.labels_all@)));
    let d = c + text_values(texts(f.labels_all@));
    joined_values_can_be_bound(d, text_values(texts(f.labels_any@)));
    let e = d + text_values(texts(f.labels_any@));
    joined_values_can_be_bound(e, priority_value(f.priority_min));
    let g = e + priority_value(f.priority_min);
    joined_values_can_be_bound(g, priority_value(f.priority_max));
    let h = g + priority_value(f.priority_max);
    joined_values_can_be_bound(h, pattern_value(f.description_contains));
    let k = h + pattern_value(f.description_contains);
    joined_values_can_be_bound(k, pattern_value(f.notes_contains));
    let l = k + pattern_value(f.notes_contains);
    joined_values_can_be_bound(l, instant_value(f.overdue_before));
    let m = l + instant_value(f.overdue_before);
    joined_values_can_be_bound(m, text_values(texts(f.ids@)));
    let n = m + text_values(texts(f.ids@));
    joined_values_can_be_bound(n, instant_value(f.not_deferred_at));
}

/// Builds the statement that lists the issues passing `filters`.
pub fn build_list_query(filters: &ListFilters) -> (r: SqlStatement)
    ensures
        r@ == list_statement(*filters),
        !binds_real(r@.params),
{
    let mut sql: String = SELECT_ISSUES.to_owned();
    let mut params: Vec<SqlValue> = Vec::new();
    assert(values_view(params@) =~= Seq::empty());
    push_filters(&mut sql, &mut params, filters);
    proof {
        filter_values_can_be_bound(Seq::empty(), *filters);
    }
    SqlStatement { sql, params }
}

/// Builds the statement that searches for `needle`, already trimmed, among the
/// issues passing `filters`.
pub fn build_search_query(needle: &str, filters: &ListFilters) -> (r: SqlStatement)
    ensures
        r@ == search_statement(needle@, *filters),
        !binds_real(r@.params),
{
    let mut sql: String = SELECT_ISSUES.to_owned();
    sql.append(" AND (title LIKE ? ESCAPE '\\' OR description LIKE ? ESCAPE '\\' OR id LIKE ? ESCAPE '\\')");
    let mut params: Vec<SqlValue> = Vec::new();
    params.push(SqlValue::Text(like_pattern(needle)));
    params.push(SqlValue::Text(like_pattern(needle)));
    params.push(SqlValue::Text(like_pattern(needle)));
    assert(values_view(params@) =~= seq![
        SqlData::Text(contains_pattern(needle@)),
        SqlData::Text(contains_pattern(needle@)),
        SqlData::Text(contains_pattern(needle@)),
    ]);
    let ghost patterns = values_view(params@);
    push_filters(&mut sql, &mut params, filters);
    proof {
        filter_values_can_be_bound(patterns, *filters);
    }
    SqlStatement { sql, params }
}

/// What a count is grouped by.
#[derive(Clone, Copy, Debug, PartialEq, Eq, Structural)]
pub enum Grouping {
    Status,
    Priority,
    Type,
    Assignee,
    Label,
}

/// The column that a grouping groups by.
pub open spec fn grouping_column(by: Grouping) -> Seq<char> {
    match by {
        Grouping::Status => "status"@,
        Grouping::Priority => "priority"@,
        Grouping::Type => "issue_type"@,
        Grouping::Assignee => "assignee"@,
        Grouping::Label => "label"@,
    }
}

/// The table, or tables, that a count reads.
pub open spec fn counted_tables(by: Option<Grouping>) -> Seq<char> {
    match by {
        Some(Grouping::Label) => " FROM issues JOIN labels ON labels.issue_id = issues.id WHERE 1=1"@,
        _ => " FROM issues WHERE 1=1"@,
    }
}

/// The start of a count: what is selected, and from where.
pub open spec fn count_head(by: Option<Grouping>) -> Seq<char> {
    match by {
        Some(g) => "SELECT "@ + grouping_column(g) + ", count(*)"@ + counted_tables(by),
        None => "SELECT count(*)"@ + counted_tables(by),
    }
}

/// The end of a count: the grouping and the order of the groups.
pub open spec fn count_tail(by: Option<Grouping>) -> Seq<char> {
    match by {
        Some(g) => " GROUP BY "@ + grouping_column(g) + " ORDER BY "@ + grouping_column(g),
        None => Seq::empty(),
    }
}

/// The statement that counts the issues passing `f`: all together where
/// `by` is `None`, and otherwise for each value of the column that `by`
/// names, in the order of the values.  The limit of the filters does not
/// bear on a count.
pub open spec fn count_statement(by: Option<Grouping>, f: ListFilters) -> SqlStatementData {
    SqlStatementData {
        sql: with_conditions(count_head(by), f) + count_tail(by),
        params: with_params(Seq::empty(), f),
    }
}

fn column_of(by: Grouping) -> (r: &'static str)
    ensures
        r@ == grouping_column(by),
{
    match by {
        Grouping::Status => "status",
        Grouping::Priority => "priority",
        Grouping::Type => "issue_type",
        Grouping::Assignee => "assignee",
        Grouping::Label => "label",
    }
}

fn count_start(by: Option<Grouping>) -> (r: String)
    ensures
        r@ == count_head(by),
{
    let mut sql: String = match by {
        Some(g) => {
            let mut sql: String = "SELECT ".to_owned();
            sql.append(column_of(g));
            sql.append(", count(*)");
            sql
        },
        None => "SELECT count(*)".to_owned(),
    };
    match by {
        Some(Grouping::Label) => {
            sql.append(" FROM issues JOIN labels ON labels.issue_id = issues.id WHERE 1=1");
        },
        _ => {
            sql.append(" FROM issues WHERE 1=1");
        },
    }
    sql
}

/// Builds the statement that counts the issues passing `filters`.
pub fn build_count_query(by: Option<Grouping>, filters: &ListFilters) -> (r: SqlStatement)
    ensures
        r@ == count_statement(by, *filters),
        !binds_real(r@.params),
{
    let mut sql: String = count_start(by);
    let mut params: Vec<SqlValue> = Vec::new();
    assert(values_view(params@) =~= Seq::empty());
    push_conditions(&mut sql, &mut params, filters);
    let ghost conditioned = sql@;
    match by {
        Some(g) => {
            sql.append(" GROUP BY ");
            sql.append(column_of(g));
            sql.append(" ORDER BY ");
            sql.append(column_of(g));
        },
        None => {},
    }
    assert(sql@ =~= conditioned + count_tail(by));
    proof {
        filter_values_can_be_bound(Seq::empty(), *filters);
    }
    SqlStatement { sql, params }
}

} // verus!
