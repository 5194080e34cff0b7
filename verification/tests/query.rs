use beads_rust::model::{IssueType, Priority, Status};
use beads_rust::storage::query::{
    build_list_query, build_search_query, like_pattern, order_by, ListFilters, SortKey, SELECT_ISSUES,
};
use beads_rust::storage::sql::SqlValue;
use beads_rust::time::Timestamp;

fn texts(params: &[SqlValue]) -> Vec<String> {
    params
        .iter()
        .map(|p| match p {
            SqlValue::Text(s) => format!("t:{s}"),
            SqlValue::Integer(i) => format!("i:{i}"),
            SqlValue::Null => "null".to_string(),
            SqlValue::Real => "real".to_string(),
            SqlValue::Blob(_) => "blob".to_string(),
        })
        .collect()
}

#[test]
fn default_filters_hide_closed_and_templates() {
    let q = build_list_query(&ListFilters::default());
    assert_eq!(
        q.sql,
        format!(
            "{SELECT_ISSUES} AND status NOT IN ('closed', 'tombstone') AND (is_template = 0 OR is_template IS NULL) ORDER BY priority ASC, created_at DESC"
        )
    );
    assert!(q.params.is_empty());
}

#[test]
fn every_filter_adds_its_condition_in_order() {
    let filters = ListFilters {
        statuses: Some(vec![Status::Open, Status::Blocked]),
        types: Some(vec![IssueType::Bug]),
        priorities: Some(vec![Priority(0), Priority(1), Priority(2)]),
        assignee: Some("alice".to_string()),
        unassigned: true,
        include_closed: true,
        include_templates: true,
        title_contains: Some("spec".to_string()),
        limit: Some(25),
        ..ListFilters::default()
    };
    let q = build_list_query(&filters);
    assert_eq!(
        q.sql,
        format!(
            "{SELECT_ISSUES} AND status IN (?,?) AND issue_type IN (?) AND priority IN (?,?,?) AND assignee = ? AND assignee IS NULL AND title LIKE ? ESCAPE '\\' ORDER BY priority ASC, created_at DESC LIMIT 25"
        )
    );
    assert_eq!(
        texts(&q.params),
        vec!["t:open", "t:blocked", "t:bug", "i:0", "i:1", "i:2", "t:alice", "t:%spec%"]
    );
}

#[test]
fn empty_sets_and_limit_zero_do_not_filter() {
    let filters = ListFilters {
        statuses: Some(vec![]),
        types: Some(vec![]),
        priorities: Some(vec![]),
        include_closed: true,
        include_templates: true,
        limit: Some(0),
        ..ListFilters::default()
    };
    let q = build_list_query(&filters);
    assert_eq!(q.sql, format!("{SELECT_ISSUES} ORDER BY priority ASC, created_at DESC"));
    assert!(q.params.is_empty());
}

#[test]
fn search_looks_in_title_description_and_id() {
    let q = build_search_query("login", &ListFilters::default());
    assert_eq!(
        q.sql,
        format!(
            "{SELECT_ISSUES} AND (title LIKE ? ESCAPE '\\' OR description LIKE ? ESCAPE '\\' OR id LIKE ? ESCAPE '\\') AND status NOT IN ('closed', 'tombstone') AND (is_template = 0 OR is_template IS NULL) ORDER BY priority ASC, created_at DESC"
        )
    );
    assert_eq!(texts(&q.params), vec!["t:%login%", "t:%login%", "t:%login%"]);
}

#[test]
fn search_binds_its_pattern_before_the_filters() {
    let filters = ListFilters {
        statuses: Some(vec![Status::Closed]),
        include_closed: true,
        title_contains: Some("x".to_string()),
        limit: Some(3),
        ..ListFilters::default()
    };
    let q = build_search_query("a b", &filters);
    assert_eq!(
        texts(&q.params),
        vec!["t:%a b%", "t:%a b%", "t:%a b%", "t:closed", "t:%x%"]
    );
    assert!(q.sql.ends_with(" AND title LIKE ? ESCAPE '\\' ORDER BY priority ASC, created_at DESC LIMIT 3"));
}

#[test]
fn pattern_wraps_the_needle() {
    assert_eq!(like_pattern("abc"), "%abc%");
    assert_eq!(like_pattern(""), "%%");
    assert_eq!(like_pattern("50%"), "%50\\%%");
    assert_eq!(like_pattern("a_b"), "%a\\_b%");
    assert_eq!(like_pattern("c:\\dir"), "%c:\\\\dir%");
    assert_eq!(like_pattern("%_\\"), "%\\%\\_\\\\%");
    assert_eq!(like_pattern("é%ü"), "%é\\%ü%");
}

#[test]
fn further_conditions_follow_the_title() {
    let filters = ListFilters {
        include_closed: true,
        include_templates: true,
        title_contains: Some("t".to_string()),
        labels_all: vec!["urgent".to_string(), "backend".to_string()],
        labels_any: vec!["a".to_string(), "b".to_string(), "c".to_string()],
        priority_min: Some(Priority(1)),
        priority_max: Some(Priority(3)),
        description_contains: Some("d".to_string()),
        notes_contains: Some("n".to_string()),
        overdue_before: Some(Timestamp::from_unix(1431648000, 0).unwrap()),
        ids: vec!["bd-001".to_string(), "bd-002".to_string()],
        not_deferred_at: Some(Timestamp::from_unix(1431648001, 500).unwrap()),
        ..ListFilters::default()
    };
    let q = build_list_query(&filters);
    let has_label = " AND EXISTS (SELECT 1 FROM labels WHERE labels.issue_id = issues.id AND labels.label = ?)";
    assert_eq!(
        q.sql,
        format!(
            "{SELECT_ISSUES} AND title LIKE ? ESCAPE '\\'{has_label}{has_label} AND EXISTS (SELECT 1 FROM labels WHERE labels.issue_id = issues.id AND labels.label IN (?,?,?)) AND priority >= ? AND priority <= ? AND description LIKE ? ESCAPE '\\' AND notes LIKE ? ESCAPE '\\' AND due_at IS NOT NULL AND due_at < ? AND id IN (?,?) AND (defer_until IS NULL OR defer_until <= ?) ORDER BY priority ASC, created_at DESC"
        )
    );
    assert_eq!(
        texts(&q.params),
        vec![
            "t:%t%",
            "t:urgent",
            "t:backend",
            "t:a",
            "t:b",
            "t:c",
            "i:1",
            "i:3",
            "t:%d%",
            "t:%n%",
            "t:2015-05-15T00:00:00+00:00",
            "t:bd-001",
            "t:bd-002",
            "t:2015-05-15T00:00:01.000000500+00:00",
        ]
    );
}

#[test]
fn listing_is_ordered_by_the_key_that_is_named() {
    let order = |sort: Option<SortKey>, reverse: bool| -> String {
        let q = build_list_query(&ListFilters {
            include_closed: true,
            include_templates: true,
            limit: Some(7),
            sort,
            reverse,
            ..ListFilters::default()
        });
        q.sql.strip_prefix(SELECT_ISSUES).unwrap().to_string()
    };
    assert_eq!(order(None, false), " ORDER BY priority ASC, created_at DESC LIMIT 7");
    assert_eq!(order(None, true), " ORDER BY priority DESC, created_at ASC LIMIT 7");
    assert_eq!(order(Some(SortKey::Priority), false), " ORDER BY priority ASC, created_at DESC LIMIT 7");
    assert_eq!(order(Some(SortKey::Priority), true), " ORDER BY priority DESC, created_at ASC LIMIT 7");
    assert_eq!(order(Some(SortKey::CreatedAt), false), " ORDER BY created_at ASC, id ASC LIMIT 7");
    assert_eq!(order(Some(SortKey::CreatedAt), true), " ORDER BY created_at DESC, id DESC LIMIT 7");
    assert_eq!(order(Some(SortKey::UpdatedAt), false), " ORDER BY updated_at ASC, id ASC LIMIT 7");
    assert_eq!(order(Some(SortKey::UpdatedAt), true), " ORDER BY updated_at DESC, id DESC LIMIT 7");
    assert_eq!(order(Some(SortKey::Title), false), " ORDER BY title ASC, id ASC LIMIT 7");
    assert_eq!(order(Some(SortKey::Title), true), " ORDER BY title DESC, id DESC LIMIT 7");
    assert_eq!(order_by(Some(SortKey::Title), false), " ORDER BY title ASC, id ASC");
    let search = build_search_query("x", &ListFilters { sort: Some(SortKey::Title), ..ListFilters::default() });
    assert!(search.sql.ends_with(" ORDER BY title ASC, id ASC"));
}
