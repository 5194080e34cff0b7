use beads_rust::error::BeadsError;
use beads_rust::model::{IssueType, Priority, Status};
use beads_rust::storage::rows::{
    column_int, column_optional_int, column_optional_text, column_text, comment_from_row,
    count_to_size, edges_from_rows, issue_from_row, metadata_from_row, parse_issue_type,
    labels_from_rows, parse_status, read_count, read_first_text, read_texts,
};
use beads_rust::model::{Comment, Event, EventType, Issue};
use beads_rust::storage::events::first_events;
use beads_rust::storage::sql::{SqlStatement, SqlValue};
use beads_rust::storage::sqlite::{comments_on, first_issue, run_all, within_limit, SqliteStorage};
use beads_rust::readiness::BlockedIssue;
use beads_rust::storage::statements::insert_issue;
use beads_rust::storage::work::{cache_entry, cached_entries};
use beads_rust::time::Timestamp;

fn text(s: &str) -> SqlValue {
    SqlValue::Text(s.to_string())
}

fn issue_row() -> Vec<SqlValue> {
    vec![
        text("bd-001"),                       // id
        SqlValue::Null,                      // content_hash
        text("Write spec"),                  // title
        text("All of it"),                   // description
        SqlValue::Null,                      // design
        SqlValue::Null,                      // acceptance_criteria
        SqlValue::Null,                      // notes
        text("in_progress"),                 // status
        SqlValue::Integer(1),                // priority
        text("bug"),                         // issue_type
        text("alice"),                       // assignee
        SqlValue::Null,                      // owner
        SqlValue::Integer(90),               // estimated_minutes
        text("2015-05-15T00:00:00+00:00"),   // created_at
        text("bob"),                         // created_by
        text("2015-05-15T00:00:01+00:00"),   // updated_at
        SqlValue::Null,                      // closed_at
        SqlValue::Null,                      // close_reason
        SqlValue::Null,                      // closed_by_session
        text("2015-06-01T00:00:00+00:00"),   // due_at
        SqlValue::Null,                      // defer_until
        SqlValue::Null,                      // external_ref
        SqlValue::Null,                      // source_system
        SqlValue::Null,                      // deleted_at
        SqlValue::Null,                      // deleted_by
        SqlValue::Null,                      // delete_reason
        SqlValue::Null,                      // original_type
        SqlValue::Null,                      // compaction_level
        SqlValue::Null,                      // compacted_at
        SqlValue::Null,                      // compacted_at_commit
        SqlValue::Null,                      // original_size
        SqlValue::Null,                      // sender
        SqlValue::Integer(0),                // ephemeral
        SqlValue::Integer(1),                // pinned
        SqlValue::Null,                      // is_template
    ]
}

fn fallback() -> Timestamp {
    Timestamp::from_unix(7, 0).unwrap()
}

#[test]
fn stored_status_defaults_to_open() {
    assert_eq!(parse_status(Some("closed")), Status::Closed);
    assert_eq!(parse_status(Some("tombstone")), Status::Tombstone);
    assert_eq!(parse_status(Some("nonsense")), Status::Open);
    assert_eq!(parse_status(None), Status::Open);
}

#[test]
fn stored_issue_type_defaults_to_task() {
    assert_eq!(parse_issue_type(Some("epic")), IssueType::Epic);
    assert_eq!(parse_issue_type(Some("nonsense")), IssueType::Task);
    assert_eq!(parse_issue_type(None), IssueType::Task);
}

#[test]
fn issue_row_is_decoded_column_by_column() {
    let issue = issue_from_row(&issue_row(), fallback()).unwrap();
    assert_eq!(issue.id, "bd-001");
    assert_eq!(issue.content_hash, None);
    assert_eq!(issue.title, "Write spec");
    assert_eq!(issue.description.as_deref(), Some("All of it"));
    assert_eq!(issue.status, Status::InProgress);
    assert_eq!(issue.priority, Priority(1));
    assert_eq!(issue.issue_type, IssueType::Bug);
    assert_eq!(issue.assignee.as_deref(), Some("alice"));
    assert_eq!(issue.estimated_minutes, Some(90));
    assert_eq!(issue.created_at, Timestamp::from_unix(1431648000, 0).unwrap());
    assert_eq!(issue.created_by.as_deref(), Some("bob"));
    assert_eq!(issue.updated_at, Timestamp::from_unix(1431648001, 0).unwrap());
    assert_eq!(issue.closed_at, None);
    assert_eq!(issue.due_at, Some(Timestamp::from_unix(1433116800, 0).unwrap()));
    assert_eq!(issue.defer_until, None);
    assert!(!issue.ephemeral);
    assert!(issue.pinned);
    assert!(!issue.is_template);
    assert!(issue.labels.is_empty());
    assert!(issue.dependencies.is_empty());
    assert!(issue.comments.is_empty());
}

#[test]
fn missing_status_priority_and_type_take_the_defaults() {
    let mut row = issue_row();
    row[7] = SqlValue::Null;
    row[8] = SqlValue::Null;
    row[9] = SqlValue::Null;
    let issue = issue_from_row(&row, fallback()).unwrap();
    assert_eq!(issue.status, Status::Open);
    assert_eq!(issue.priority, Priority(2));
    assert_eq!(issue.issue_type, IssueType::Task);
}

#[test]
fn unreadable_time_is_read_as_the_fallback() {
    let mut row = issue_row();
    row[13] = text("once upon a time");
    row[19] = text("soon");
    let issue = issue_from_row(&row, fallback()).unwrap();
    assert_eq!(issue.created_at, fallback());
    assert_eq!(issue.due_at, Some(fallback()));
}

#[test]
fn row_of_the_wrong_shape_is_a_schema_error() {
    let mut short = issue_row();
    short.pop();
    assert!(matches!(issue_from_row(&short, fallback()), Err(BeadsError::SchemaError { .. })));

    let mut no_id = issue_row();
    no_id[0] = SqlValue::Null;
    assert!(matches!(issue_from_row(&no_id, fallback()), Err(BeadsError::SchemaError { .. })));

    let mut wide = issue_row();
    wide[8] = SqlValue::Integer(1 << 40);
    assert!(matches!(issue_from_row(&wide, fallback()), Err(BeadsError::SchemaError { .. })));

    let mut real = issue_row();
    real[12] = SqlValue::Real;
    assert!(matches!(issue_from_row(&real, fallback()), Err(BeadsError::SchemaError { .. })));

    let mut blob = issue_row();
    blob[2] = SqlValue::Blob(vec![1, 2, 3]);
    assert!(matches!(issue_from_row(&blob, fallback()), Err(BeadsError::SchemaError { .. })));
}

#[test]
fn columns_are_read_by_type() {
    let row = vec![text("a"), SqlValue::Null, SqlValue::Integer(-5), SqlValue::Integer(i64::MAX)];
    assert_eq!(column_text(&row, 0).unwrap(), "a");
    assert!(column_text(&row, 1).is_err());
    assert!(column_text(&row, 9).is_err());
    assert_eq!(column_optional_text(&row, 0).unwrap().as_deref(), Some("a"));
    assert_eq!(column_optional_text(&row, 1).unwrap(), None);
    assert!(column_optional_text(&row, 2).is_err());
    assert_eq!(column_optional_int(&row, 2).unwrap(), Some(-5));
    assert_eq!(column_optional_int(&row, 1).unwrap(), None);
    assert!(column_optional_int(&row, 3).is_err());
    assert!(column_optional_int(&row, 0).is_err());
    assert_eq!(column_int(&row, 3).unwrap(), i64::MAX);
    assert!(column_int(&row, 1).is_err());
}

#[test]
fn comment_row_is_decoded() {
    let row = vec![
        SqlValue::Integer(12),
        text("bd-001"),
        text("alice"),
        text("looks good"),
        text("2015-05-15T00:00:00+00:00"),
    ];
    let comment = comment_from_row(&row, fallback()).unwrap();
    assert_eq!(comment.id, 12);
    assert_eq!(comment.issue_id, "bd-001");
    assert_eq!(comment.author, "alice");
    assert_eq!(comment.body, "looks good");
    assert_eq!(comment.created_at, Timestamp::from_unix(1431648000, 0).unwrap());
    assert!(comment_from_row(&row[..4].to_vec(), fallback()).is_err());
}

#[test]
fn metadata_of_a_missing_issue_takes_the_defaults() {
    let row = vec![text("bd-009"), SqlValue::Null, SqlValue::Null, SqlValue::Null, SqlValue::Null];
    let record = metadata_from_row(&row).unwrap();
    assert_eq!(record.id, "bd-009");
    assert_eq!(record.title, "");
    assert_eq!(record.status, Status::Open);
    assert_eq!(record.priority, Priority(2));
    assert_eq!(record.dep_type, "blocks");

    let full = vec![text("bd-002"), text("Design"), text("closed"), SqlValue::Integer(0), text("related")];
    let record = metadata_from_row(&full).unwrap();
    assert_eq!(record.title, "Design");
    assert_eq!(record.status, Status::Closed);
    assert_eq!(record.priority, Priority(0));
    assert_eq!(record.dep_type, "related");
}

#[test]
fn counts_are_read_from_the_first_row() {
    assert_eq!(read_count(&vec![vec![SqlValue::Integer(3)]]).unwrap(), 3);
    assert!(matches!(read_count(&vec![]), Err(BeadsError::SchemaError { .. })));
    assert!(matches!(read_count(&vec![vec![text("3")]]), Err(BeadsError::SchemaError { .. })));
    assert_eq!(count_to_size(3), 3);
    assert_eq!(count_to_size(0), 0);
    assert_eq!(count_to_size(-1), 0);
}

#[test]
fn text_lists_and_edges_are_read_row_by_row() {
    let rows = vec![vec![text("a"), text("b")], vec![text("c"), text("d")]];
    assert_eq!(read_texts(&rows).unwrap(), vec!["a", "c"]);
    let edges = edges_from_rows(&rows).unwrap();
    assert_eq!(edges.len(), 2);
    assert_eq!((edges[0].from.as_str(), edges[0].to.as_str()), ("a", "b"));
    assert_eq!((edges[1].from.as_str(), edges[1].to.as_str()), ("c", "d"));
    assert!(read_texts(&vec![vec![SqlValue::Null]]).is_err());
    assert!(edges_from_rows(&vec![vec![text("a")]]).is_err());
    assert_eq!(read_first_text(&vec![]).unwrap(), None);
    assert_eq!(read_first_text(&rows).unwrap().as_deref(), Some("a"));
    assert!(read_first_text(&vec![vec![SqlValue::Null]]).is_err());
}

#[test]
fn looked_up_issue_is_the_one_asked_for() {
    let found = first_issue(&vec![issue_row()], "bd-001", fallback()).unwrap().unwrap();
    assert_eq!(found.id, "bd-001");
    assert_eq!(found.title, "Write spec");
    assert!(first_issue(&vec![], "bd-001", fallback()).unwrap().is_none());
    assert!(matches!(
        first_issue(&vec![issue_row()], "bd-002", fallback()),
        Err(BeadsError::Internal { .. })
    ));
    assert!(matches!(
        first_issue(&vec![vec![text("bd-001")]], "bd-001", fallback()),
        Err(BeadsError::SchemaError { .. })
    ));
    let two = first_issue(&vec![issue_row(), issue_row()], "bd-001", fallback()).unwrap().unwrap();
    assert_eq!(two.id, "bd-001");
}

#[test]
fn lists_are_cut_down_to_their_limit() {
    let issues = |n: usize| -> Vec<Issue> {
        (0..n).map(|i| Issue::new(&format!("bd-{i}"), "T", fallback())).collect()
    };
    let ids = |list: Vec<Issue>| -> Vec<String> { list.into_iter().map(|i| i.id).collect() };
    assert_eq!(ids(within_limit(issues(4), Some(2))), vec!["bd-0", "bd-1"]);
    assert_eq!(within_limit(issues(4), Some(4)).len(), 4);
    assert_eq!(within_limit(issues(4), Some(9)).len(), 4);
    assert_eq!(within_limit(issues(4), Some(0)).len(), 4);
    assert_eq!(within_limit(issues(4), None).len(), 4);
    assert!(within_limit(issues(0), Some(3)).is_empty());

    let events = |n: i64| -> Vec<Event> {
        (0..n)
            .map(|i| Event {
                id: i,
                issue_id: "bd-1".to_string(),
                event_type: EventType::Updated,
                actor: "a".to_string(),
                old_value: None,
                new_value: None,
                comment: None,
                created_at: fallback(),
            })
            .collect()
    };
    let kept: Vec<i64> = first_events(events(5), 2).into_iter().map(|e| e.id).collect();
    assert_eq!(kept, vec![0, 1]);
    assert_eq!(first_events(events(5), 0).len(), 5);
    assert_eq!(first_events(events(5), 5).len(), 5);
    assert_eq!(first_events(events(5), 7).len(), 5);
}

#[test]
fn comments_of_another_issue_are_refused() {
    let comment = |issue: &str| Comment {
        id: 1,
        issue_id: issue.to_string(),
        author: "a".to_string(),
        body: "b".to_string(),
        created_at: fallback(),
    };
    assert_eq!(comments_on(vec![comment("bd-1"), comment("bd-1")], "bd-1").unwrap().len(), 2);
    assert!(comments_on(vec![], "bd-1").unwrap().is_empty());
    assert!(matches!(
        comments_on(vec![comment("bd-1"), comment("bd-2")], "bd-1"),
        Err(BeadsError::Internal { .. })
    ));
}

#[test]
fn cache_rows_are_read_one_entry_to_a_row() {
    let rows = vec![
        vec![text("bd-002"), text(r#"["bd-001"]"#)],
        vec![text("bd-003"), text(r#"["bd-001","bd-002"]"#)],
        vec![text("bd-004"), text("[]")],
    ];
    let list = cached_entries(&rows).unwrap();
    assert_eq!(list.len(), 3);
    assert_eq!(list[1].id, "bd-003");
    assert_eq!(list[1].blocked_by, vec!["bd-001", "bd-002"]);
    assert!(list[2].blocked_by.is_empty());
    assert!(matches!(
        cached_entries(&vec![vec![text("bd-002"), text("bd-001")]]),
        Err(BeadsError::SchemaError { .. })
    ));
    assert!(matches!(cached_entries(&vec![vec![text("bd-002")]]), Err(BeadsError::SchemaError { .. })));
    assert!(cached_entries(&vec![]).unwrap().is_empty());
}

#[test]
fn statements_run_in_order_and_stop_at_the_first_failure() {
    let mut storage = SqliteStorage::open_memory().unwrap();
    storage.create_issue(&Issue::new("bd-1", "T", fallback()), "tester").unwrap();
    let conn = storage.connection();
    let label = |issue: &str, label: &str| SqlStatement {
        sql: "INSERT INTO labels (issue_id, label) VALUES (?, ?)".to_string(),
        params: vec![text(issue), text(label)],
    };
    run_all(conn, &vec![]).unwrap();
    run_all(conn, &vec![label("bd-1", "a"), label("bd-1", "b")]).unwrap();
    let broken = SqlStatement { sql: "INSERT INTO nowhere VALUES (1)".to_string(), params: vec![] };
    assert!(run_all(conn, &vec![label("bd-1", "c"), broken, label("bd-1", "d")]).is_err());
    let unbound = SqlStatement { sql: "SELECT ?".to_string(), params: vec![SqlValue::Real] };
    assert!(matches!(run_all(conn, &vec![unbound]), Err(BeadsError::InvalidArgument { .. })));
    assert_eq!(storage.get_labels("bd-1").unwrap(), vec!["a", "b", "c"]);
}

#[test]
fn cache_entry_holds_the_ids_as_a_json_array() {
    let entry = BlockedIssue {
        id: "bd-003".to_string(),
        blocked_by: vec!["bd-001".to_string(), "a\"b".to_string(), "c\\d".to_string()],
    };
    let statement = cache_entry(&entry);
    assert!(statement.sql.starts_with("INSERT"));
    assert!(matches!(&statement.params[0], SqlValue::Text(id) if id == "bd-003"));
    assert!(matches!(&statement.params[1], SqlValue::Text(json) if json == r#"["bd-001","a\"b","c\\d"]"#));
    assert_eq!(statement.params.len(), 2);
    let none = cache_entry(&BlockedIssue { id: "bd-004".to_string(), blocked_by: vec![] });
    assert!(matches!(&none.params[1], SqlValue::Text(json) if json == "[]"));
    let back = cached_entries(&vec![statement.params.clone()]).unwrap();
    assert_eq!(back[0].id, "bd-003");
    assert_eq!(back[0].blocked_by, entry.blocked_by);
}

#[test]
fn labels_are_read_in_order_whatever_the_rows() {
    let rows = vec![vec![text("urgent")], vec![text("backend")], vec![text("Api")], vec![text("later")]];
    assert_eq!(labels_from_rows(&rows).unwrap(), vec!["Api", "backend", "later", "urgent"]);
    assert_eq!(read_texts(&rows).unwrap(), vec!["urgent", "backend", "Api", "later"]);
    assert!(labels_from_rows(&vec![]).unwrap().is_empty());
    assert!(matches!(
        labels_from_rows(&vec![vec![text("a")], vec![SqlValue::Integer(1)]]),
        Err(BeadsError::SchemaError { .. })
    ));
}

#[test]
fn row_that_is_written_is_read_as_the_issue() {
    let stamp = |secs: i64, nanos: u32| Timestamp::from_unix(secs, nanos).unwrap();
    let mut issue = Issue::new("bd-0z9", "Write \"spec\"", stamp(1_700_000_000, 123_456_789));
    issue.content_hash = Some("abc".to_string());
    issue.description = Some("d".to_string());
    issue.design = Some("g".to_string());
    issue.acceptance_criteria = Some("a".to_string());
    issue.notes = Some("n".to_string());
    issue.status = Status::Closed;
    issue.priority = Priority(4);
    issue.issue_type = IssueType::Epic;
    issue.assignee = Some("alice".to_string());
    issue.owner = Some("bob".to_string());
    issue.estimated_minutes = Some(90);
    issue.created_by = Some("carol".to_string());
    issue.updated_at = stamp(1_700_000_100, 5_000);
    issue.closed_at = Some(stamp(1_700_000_100, 5_000));
    issue.close_reason = Some("done".to_string());
    issue.closed_by_session = Some("s-1".to_string());
    issue.due_at = Some(stamp(1_800_000_000, 0));
    issue.defer_until = Some(stamp(1_750_000_000, 1));
    issue.external_ref = Some("gh-9".to_string());
    issue.source_system = Some("github".to_string());
    issue.compaction_level = Some(2);
    issue.compacted_at = Some(stamp(1_700_000_050, 999_999_999));
    issue.compacted_at_commit = Some("deadbeef".to_string());
    issue.original_size = Some(1234);
    issue.sender = Some("dave".to_string());
    issue.ephemeral = true;
    issue.pinned = false;
    issue.is_template = true;
    let statement = insert_issue(&issue);
    assert_eq!(statement.params.len(), 35);
    let back = issue_from_row(&statement.params, stamp(0, 0)).unwrap();
    assert_eq!(format!("{back:?}"), format!("{issue:?}"));

    let bare = Issue::new("bd-001", "T", stamp(0, 0));
    let back = issue_from_row(&insert_issue(&bare).params, stamp(9, 9)).unwrap();
    assert_eq!(format!("{back:?}"), format!("{bare:?}"));
}
