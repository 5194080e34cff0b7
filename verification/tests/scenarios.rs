use beads_rust::error::BeadsError;
use beads_rust::graph::{plan_delete, reachable_from, direct_dependents, turn_edges, Edge};
use beads_rust::model::{EventType, Issue, IssueType, Priority, Status};
use beads_rust::storage::events::{get_events, list_events, select_journal, EventFilters};
use beads_rust::storage::lifecycle::{check_close, check_reopen};
use beads_rust::storage::query::ListFilters;
use beads_rust::storage::sqlite::SqliteStorage;
use beads_rust::time::Timestamp;

fn at(secs: i64) -> Timestamp {
    Timestamp::from_unix(secs, 0).unwrap()
}

fn store_with(ids: &[&str]) -> SqliteStorage {
    let mut storage = SqliteStorage::open_memory().unwrap();
    for (n, id) in ids.iter().enumerate() {
        let issue = Issue::new(id, &format!("Issue {id}"), at(1000 + n as i64));
        storage.create_issue(&issue, "tester").unwrap();
    }
    storage
}

fn scalar(storage: &SqliteStorage, sql: &str) -> i64 {
    storage.connection().query_row(sql, [], |row| row.get(0)).unwrap()
}

fn edges(pairs: &[(&str, &str)]) -> Vec<Edge> {
    pairs
        .iter()
        .map(|(from, to)| Edge { from: from.to_string(), to: to.to_string() })
        .collect()
}

#[test]
fn create_and_list() {
    let mut storage = SqliteStorage::open_memory().unwrap();
    let id = storage.generate_issue_id("bd").unwrap();
    assert_eq!(id, "bd-001");
    let mut issue = Issue::new(&id, "Write spec", Timestamp::now());
    issue.priority = Priority(1);
    issue.issue_type = IssueType::Task;
    storage.create_issue(&issue, "tester").unwrap();

    let list = storage.list_issues(&ListFilters::default()).unwrap();
    assert_eq!(list.len(), 1);
    assert_eq!(list[0].id, "bd-001");
    assert_eq!(list[0].status, Status::Open);
    assert_eq!(list[0].priority, Priority(1));
    assert_eq!(list[0].issue_type, IssueType::Task);
    assert_eq!(storage.generate_issue_id("bd").unwrap(), "bd-002");
    assert_eq!(storage.generate_issue_id("other").unwrap(), "other-001");
}

#[test]
fn generated_id_skips_ids_that_came_from_elsewhere() {
    let mut storage = store_with(&["bd-002", "bd-003", "bdx-001"]);
    assert_eq!(storage.generate_issue_id("bd").unwrap(), "bd-004");
    storage.create_issue(&Issue::new("bd-005", "Imported", at(1)), "import").unwrap();
    assert_eq!(storage.generate_issue_id("bd").unwrap(), "bd-004");
    storage.create_issue(&Issue::new("bd-004", "Next", at(2)), "tester").unwrap();
    assert_eq!(storage.generate_issue_id("bd").unwrap(), "bd-006");
    assert!(matches!(storage.generate_issue_id("BD"), Err(BeadsError::InvalidPrefix { .. })));
}

#[test]
fn dependency_and_readiness() {
    let mut storage = SqliteStorage::open_memory().unwrap();
    storage.create_issue(&Issue::new("bd-001", "Design", at(1)), "tester").unwrap();
    storage.create_issue(&Issue::new("bd-002", "Implement", at(2)), "tester").unwrap();
    storage.add_dependency("bd-002", "bd-001", "blocks", "tester").unwrap();

    assert_eq!(storage.ready_issues().unwrap(), vec!["bd-001"]);
    let blocked = storage.blocked_issues().unwrap();
    assert_eq!(blocked.len(), 1);
    assert_eq!(blocked[0].id, "bd-002");
    assert_eq!(blocked[0].blocked_by, vec!["bd-001"]);
    // the list was written to the cache
    let cached: String = storage
        .connection()
        .query_row("SELECT blocked_by_json FROM blocked_issues_cache WHERE issue_id = 'bd-002'", [], |r| r.get(0))
        .unwrap();
    assert_eq!(cached, r#"["bd-001"]"#);
    // and is read from it
    let again = storage.blocked_issues().unwrap();
    assert_eq!(again.len(), 1);
    assert_eq!(again[0].blocked_by, vec!["bd-001"]);

    let closed = storage.close_issue("bd-001", Some("done"), "tester").unwrap();
    assert_eq!(closed.status, Status::Closed);
    assert_eq!(scalar(&storage, "SELECT count(*) FROM blocked_issues_cache"), 0);
    assert_eq!(storage.ready_issues().unwrap(), vec!["bd-002"]);
    assert!(storage.blocked_issues().unwrap().is_empty());
}

#[test]
fn cache_that_is_populated_is_trusted() {
    let mut storage = store_with(&["bd-001"]);
    storage
        .connection()
        .execute(
            "INSERT INTO blocked_issues_cache (issue_id, blocked_by_json) VALUES (?, ?)",
            ["bd-cached", r#"["bd-a","bd-\"b\""]"#],
        )
        .unwrap();
    let blocked = storage.blocked_issues().unwrap();
    assert_eq!(blocked.len(), 1);
    assert_eq!(blocked[0].id, "bd-cached");
    assert_eq!(blocked[0].blocked_by, vec!["bd-a", "bd-\"b\""]);

    storage
        .connection()
        .execute("UPDATE blocked_issues_cache SET blocked_by_json = 'nonsense'", [])
        .unwrap();
    assert!(matches!(storage.blocked_issues(), Err(BeadsError::SchemaError { .. })));
}

#[test]
fn closing_and_reopening() {
    let mut storage = store_with(&["bd-001"]);
    assert!(matches!(
        storage.reopen_issue("bd-001", "alice"),
        Err(BeadsError::NotClosed { .. })
    ));
    let closed = storage.close_issue("bd-001", Some("fixed"), "alice").unwrap();
    assert_eq!(closed.status, Status::Closed);
    assert_eq!(closed.close_reason.as_deref(), Some("fixed"));
    assert_eq!(closed.closed_at, Some(closed.updated_at));
    assert!(storage.list_issues(&ListFilters::default()).unwrap().is_empty());

    let reopened = storage.reopen_issue("bd-001", "bob").unwrap();
    assert_eq!(reopened.status, Status::Open);
    assert_eq!(reopened.closed_at, None);
    assert_eq!(reopened.close_reason, None);

    let events = get_events(storage.connection(), "bd-001", 0).unwrap();
    let kinds: Vec<(&str, &str)> =
        events.iter().map(|e| (e.event_type.as_str(), e.actor.as_str())).collect();
    assert_eq!(kinds, vec![("created", "tester"), ("closed", "alice"), ("reopened", "bob")]);
    assert_eq!(events[1].comment.as_deref(), Some("fixed"));

    assert!(matches!(
        storage.close_issue("bd-404", None, "alice"),
        Err(BeadsError::IssueNotFound { .. })
    ));
    storage.delete_issue("bd-001", "alice", "gone").unwrap();
    assert!(matches!(
        storage.close_issue("bd-001", None, "alice"),
        Err(BeadsError::InvalidTransition { .. })
    ));
    assert!(matches!(
        storage.reopen_issue("bd-001", "alice"),
        Err(BeadsError::NotClosed { .. })
    ));
}

#[test]
fn transitions_are_checked() {
    assert!(check_close(Status::Open).is_ok());
    assert!(check_close(Status::Closed).is_ok());
    match check_close(Status::Tombstone) {
        Err(BeadsError::InvalidTransition { from, to }) => {
            assert_eq!(from, "tombstone");
            assert_eq!(to, "closed");
        }
        other => panic!("expected InvalidTransition, got {other:?}"),
    }
    assert!(check_reopen("bd-001", Status::Closed).is_ok());
    for status in [Status::Open, Status::InProgress, Status::Blocked, Status::Tombstone] {
        match check_reopen("bd-001", status) {
            Err(BeadsError::NotClosed { id }) => assert_eq!(id, "bd-001"),
            other => panic!("expected NotClosed, got {other:?}"),
        }
    }
}

#[test]
fn cascade_delete() {
    // B depends on A, C on B
    let mut storage = store_with(&["bd-a", "bd-b", "bd-c", "bd-d"]);
    storage.add_dependency("bd-b", "bd-a", "blocks", "tester").unwrap();
    storage.add_dependency("bd-c", "bd-b", "blocks", "tester").unwrap();
    let events_before = scalar(&storage, "SELECT count(*) FROM events WHERE event_type = 'deleted'");
    assert_eq!(events_before, 0);

    let preview = storage.preview_delete("bd-a", true, false).unwrap();
    assert_eq!(preview.deleted, vec!["bd-a", "bd-b", "bd-c"]);
    assert_eq!(scalar(&storage, "SELECT count(*) FROM issues WHERE status = 'tombstone'"), 0);

    let plan = storage.delete_with_dependents("bd-a", "alice", "obsolete", true, false).unwrap();
    assert_eq!(plan.deleted, vec!["bd-a", "bd-b", "bd-c"]);
    assert!(plan.orphaned.is_empty());
    for id in ["bd-a", "bd-b", "bd-c"] {
        let issue = storage.get_issue(id).unwrap().unwrap();
        assert_eq!(issue.status, Status::Tombstone);
        assert!(issue.is_tombstone_consistent());
        assert_eq!(issue.original_type.as_deref(), Some("task"));
    }
    assert_eq!(storage.get_issue("bd-d").unwrap().unwrap().status, Status::Open);
    assert_eq!(scalar(&storage, "SELECT count(*) FROM events WHERE event_type = 'deleted'"), 3);
    assert_eq!(scalar(&storage, "SELECT count(*) FROM dependencies"), 2);
    assert_eq!(scalar(&storage, "SELECT count(*) FROM blocked_issues_cache"), 0);
}

#[test]
fn delete_with_dependents_needs_cascade_or_force() {
    let mut storage = store_with(&["bd-a", "bd-b", "bd-c"]);
    storage.add_dependency("bd-b", "bd-a", "blocks", "tester").unwrap();
    storage.add_dependency("bd-c", "bd-a", "related", "tester").unwrap();
    match storage.delete_with_dependents("bd-a", "alice", "x", false, false) {
        Err(BeadsError::HasDependents { id, count }) => {
            assert_eq!(id, "bd-a");
            assert_eq!(count, 2);
        }
        other => panic!("expected HasDependents, got {other:?}"),
    }
    assert_eq!(scalar(&storage, "SELECT count(*) FROM issues WHERE status = 'tombstone'"), 0);

    let mut plan = storage.delete_with_dependents("bd-a", "alice", "x", false, true).unwrap();
    plan.orphaned.sort();
    assert_eq!(plan.deleted, vec!["bd-a"]);
    assert_eq!(plan.orphaned, vec!["bd-b", "bd-c"]);
    assert_eq!(scalar(&storage, "SELECT count(*) FROM issues WHERE status = 'tombstone'"), 1);

    let plan = storage.delete_with_dependents("bd-c", "alice", "x", false, false).unwrap();
    assert_eq!(plan.deleted, vec!["bd-c"]);
    assert!(plan.orphaned.is_empty());
    assert!(matches!(
        storage.delete_with_dependents("bd-404", "alice", "x", true, false),
        Err(BeadsError::IssueNotFound { .. })
    ));
}

#[test]
fn deletion_plans() {
    let g = edges(&[("b", "a"), ("c", "b"), ("d", "a"), ("e", "z"), ("b", "a")]);
    let plan = plan_delete("a", &g, true, false).unwrap();
    let mut deleted = plan.deleted.clone();
    deleted.sort();
    assert_eq!(plan.deleted[0], "a");
    assert_eq!(deleted, vec!["a", "b", "c", "d"]);
    assert!(plan.orphaned.is_empty());

    let plan = plan_delete("a", &g, false, true).unwrap();
    assert_eq!(plan.deleted, vec!["a"]);
    assert_eq!(plan.orphaned, vec!["b", "d"]);

    match plan_delete("a", &g, false, false) {
        Err(BeadsError::HasDependents { id, count }) => {
            assert_eq!(id, "a");
            assert_eq!(count, 2);
        }
        other => panic!("expected HasDependents, got {other:?}"),
    }
    let plan = plan_delete("c", &g, false, false).unwrap();
    assert_eq!(plan.deleted, vec!["c"]);
    assert!(plan.orphaned.is_empty());

    assert_eq!(direct_dependents(&g, "a"), vec!["b", "d"]);
    assert!(direct_dependents(&g, "c").is_empty());
    assert_eq!(reachable_from(&g, "c"), vec!["c", "b", "a"]);
    let turned = turn_edges(&g);
    assert_eq!((turned[0].from.as_str(), turned[0].to.as_str()), ("a", "b"));
    assert_eq!(turned.len(), 5);
}

#[test]
fn labels_can_be_removed_and_comments_added() {
    let mut storage = store_with(&["bd-001"]);
    storage.add_label("bd-001", "urgent", "tester").unwrap();
    assert!(storage.remove_label("bd-001", "urgent", "alice").unwrap());
    assert!(!storage.remove_label("bd-001", "urgent", "alice").unwrap());
    assert!(storage.get_labels("bd-001").unwrap().is_empty());
    assert!(matches!(
        storage.remove_label("bd-404", "urgent", "alice"),
        Err(BeadsError::IssueNotFound { .. })
    ));

    storage.add_comment("bd-001", "bob", "first").unwrap();
    storage.add_comment("bd-001", "carol", "second").unwrap();
    let comments = storage.get_comments("bd-001").unwrap();
    let seen: Vec<(&str, &str)> = comments.iter().map(|c| (c.author.as_str(), c.body.as_str())).collect();
    assert_eq!(seen, vec![("bob", "first"), ("carol", "second")]);
    assert!(matches!(
        storage.add_comment("bd-001", "bob", ""),
        Err(BeadsError::InvalidArgument { .. })
    ));
    assert!(matches!(
        storage.add_comment("bd-404", "bob", "x"),
        Err(BeadsError::IssueNotFound { .. })
    ));

    let events = get_events(storage.connection(), "bd-001", 0).unwrap();
    let kinds: Vec<(&str, &str)> =
        events.iter().map(|e| (e.event_type.as_str(), e.actor.as_str())).collect();
    assert_eq!(
        kinds,
        vec![
            ("created", "tester"),
            ("label_added", "tester"),
            ("label_removed", "alice"),
            ("comment_added", "bob"),
            ("comment_added", "carol"),
        ]
    );
    assert_eq!(events[2].comment.as_deref(), Some("Removed label urgent"));
    assert_eq!(events[3].comment.as_deref(), Some("Comment by bob"));
}

#[test]
fn journal_is_listed_by_issue_type_and_actor() {
    let mut storage = store_with(&["bd-001", "bd-002"]);
    storage.add_label("bd-001", "x", "alice").unwrap();
    storage.add_label("bd-002", "y", "bob").unwrap();
    storage.close_issue("bd-001", None, "alice").unwrap();

    let list = |filters: EventFilters| -> Vec<(String, String, String)> {
        list_events(storage.connection(), &filters)
            .unwrap()
            .into_iter()
            .map(|e| (e.issue_id, e.event_type.as_str().to_string(), e.actor))
            .collect()
    };
    assert_eq!(list(EventFilters::default()).len(), 5);
    assert_eq!(
        list(EventFilters { issue_id: Some("bd-001".to_string()), ..EventFilters::default() }).len(),
        3
    );
    assert_eq!(
        list(EventFilters { event_type: Some(EventType::LabelAdded), ..EventFilters::default() }),
        vec![
            ("bd-001".to_string(), "label_added".to_string(), "alice".to_string()),
            ("bd-002".to_string(), "label_added".to_string(), "bob".to_string()),
        ]
    );
    assert_eq!(
        list(EventFilters { actor: Some("alice".to_string()), ..EventFilters::default() }).len(),
        2
    );
    assert_eq!(
        list(EventFilters {
            issue_id: Some("bd-001".to_string()),
            event_type: Some(EventType::Closed),
            actor: Some("alice".to_string()),
            limit: 1,
        }),
        vec![("bd-001".to_string(), "closed".to_string(), "alice".to_string())]
    );
    assert_eq!(list(EventFilters { limit: 2, ..EventFilters::default() }).len(), 2);

    let statement = select_journal(&EventFilters {
        issue_id: Some("bd-001".to_string()),
        event_type: None,
        actor: Some("a".to_string()),
        limit: 7,
    });
    assert!(statement
        .sql
        .ends_with(" WHERE 1=1 AND issue_id = ? AND actor = ? ORDER BY created_at ASC, id ASC LIMIT 7"));
    assert_eq!(statement.params.len(), 2);
    // events ids grow with every event
    let ids: Vec<i64> = list_events(storage.connection(), &EventFilters::default())
        .unwrap()
        .iter()
        .map(|e| e.id)
        .collect();
    assert!(ids.windows(2).all(|w| w[0] < w[1]));
}
