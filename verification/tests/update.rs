use beads_rust::error::BeadsError;
use beads_rust::model::{EventType, Issue, IssueType, Priority, Status};
use beads_rust::storage::context::MutationContext;
use beads_rust::storage::events::get_events;
use beads_rust::storage::sqlite::SqliteStorage;
use beads_rust::storage::update::{apply_patch, check_patch, check_patch_alone, same_optional_text, IssueUpdate};
use beads_rust::time::Timestamp;

fn at(secs: i64) -> Timestamp {
    Timestamp::from_unix(secs, 0).unwrap()
}

fn issue() -> Issue {
    let mut issue = Issue::new("bd-001", "Write spec", at(10));
    issue.assignee = Some("alice".to_string());
    issue
}

#[test]
fn each_changed_field_leaves_its_own_event() {
    let mut issue = issue();
    let mut ctx = MutationContext::new("update_issue", "bob");
    let patch = IssueUpdate {
        title: Some("Write the spec".to_string()),
        description: Some(Some("all of it".to_string())),
        issue_type: Some(IssueType::Doc),
        status: Some(Status::InProgress),
        priority: Some(Priority(0)),
        assignee: Some(None),
    };
    assert!(apply_patch(&mut issue, &patch, &mut ctx));

    assert_eq!(issue.title, "Write the spec");
    assert_eq!(issue.description.as_deref(), Some("all of it"));
    assert_eq!(issue.issue_type, IssueType::Doc);
    assert_eq!(issue.status, Status::InProgress);
    assert_eq!(issue.priority, Priority(0));
    assert_eq!(issue.assignee, None);
    assert_eq!(issue.updated_at, ctx.started_at);
    assert_eq!(issue.created_at, at(10));

    let seen: Vec<(EventType, Option<&str>, Option<&str>)> = ctx
        .events
        .iter()
        .map(|e| (e.event_type, e.old_value.as_deref(), e.new_value.as_deref()))
        .collect();
    assert_eq!(
        seen,
        vec![
            (EventType::Updated, Some("Write spec"), Some("Write the spec")),
            (EventType::Updated, None, Some("all of it")),
            (EventType::Updated, Some("task"), Some("doc")),
            (EventType::StatusChanged, Some("open"), Some("in_progress")),
            (EventType::PriorityChanged, Some("2"), Some("0")),
            (EventType::Assigned, Some("alice"), None),
        ]
    );
    for event in &ctx.events {
        assert_eq!(event.actor, "bob");
        assert_eq!(event.issue_id, "bd-001");
        assert_eq!(event.created_at, issue.updated_at);
        assert_eq!(event.comment, None);
    }
    assert_eq!(ctx.dirty_ids, vec!["bd-001"]);
    assert!(ctx.invalidate_blocked_cache);
}

#[test]
fn patch_that_changes_nothing_records_nothing() {
    let mut issue = issue();
    let mut ctx = MutationContext::new("update_issue", "bob");
    let same = IssueUpdate {
        title: Some("Write spec".to_string()),
        description: Some(None),
        issue_type: Some(IssueType::Task),
        status: Some(Status::Open),
        priority: Some(Priority(2)),
        assignee: Some(Some("alice".to_string())),
    };
    assert!(!apply_patch(&mut issue, &same, &mut ctx));
    assert!(!apply_patch(&mut issue, &IssueUpdate::default(), &mut ctx));
    assert!(ctx.events.is_empty());
    assert!(ctx.dirty_ids.is_empty());
    assert!(!ctx.invalidate_blocked_cache);
    assert_eq!(issue.updated_at, at(10));
}

#[test]
fn cache_is_kept_unless_the_status_changes() {
    let mut issue = issue();
    let mut ctx = MutationContext::new("update_issue", "bob");
    let patch = IssueUpdate { priority: Some(Priority(4)), ..IssueUpdate::default() };
    assert!(apply_patch(&mut issue, &patch, &mut ctx));
    assert_eq!(ctx.events.len(), 1);
    assert_eq!(ctx.events[0].event_type, EventType::PriorityChanged);
    assert_eq!(ctx.dirty_ids, vec!["bd-001"]);
    assert!(!ctx.invalidate_blocked_cache);
}

#[test]
fn patches_are_checked() {
    let issue = issue();
    assert!(check_patch(&issue, &IssueUpdate::default()).is_ok());
    assert!(matches!(
        check_patch(&issue, &IssueUpdate { title: Some(String::new()), ..IssueUpdate::default() }),
        Err(BeadsError::InvalidArgument { .. })
    ));
    assert!(matches!(
        check_patch(&issue, &IssueUpdate { priority: Some(Priority(5)), ..IssueUpdate::default() }),
        Err(BeadsError::InvalidArgument { .. })
    ));
    assert!(matches!(
        check_patch(&issue, &IssueUpdate { priority: Some(Priority(-1)), ..IssueUpdate::default() }),
        Err(BeadsError::InvalidArgument { .. })
    ));
    for status in [Status::Closed, Status::Tombstone] {
        match check_patch(&issue, &IssueUpdate { status: Some(status), ..IssueUpdate::default() }) {
            Err(BeadsError::InvalidTransition { from, to }) => {
                assert_eq!(from, "open");
                assert_eq!(to, status.as_str());
            }
            other => panic!("expected InvalidTransition, got {other:?}"),
        }
    }
    for status in [Status::Open, Status::InProgress, Status::Blocked] {
        assert!(check_patch(&issue, &IssueUpdate { status: Some(status), ..IssueUpdate::default() }).is_ok());
    }
    let mut closed = issue.clone();
    closed.status = Status::Closed;
    assert!(matches!(
        check_patch(&closed, &IssueUpdate { status: Some(Status::Open), ..IssueUpdate::default() }),
        Err(BeadsError::InvalidTransition { .. })
    ));
    // leaving a closed issue closed is no transition
    assert!(check_patch(&closed, &IssueUpdate { status: Some(Status::Closed), ..IssueUpdate::default() }).is_ok());
}

#[test]
fn optional_texts_compare() {
    assert!(same_optional_text(&None, &None));
    assert!(same_optional_text(&Some("a".to_string()), &Some("a".to_string())));
    assert!(!same_optional_text(&Some("a".to_string()), &Some("b".to_string())));
    assert!(!same_optional_text(&Some(String::new()), &None));
}

#[test]
fn update_is_written_and_journalled() {
    let mut storage = SqliteStorage::open_memory().unwrap();
    storage.create_issue(&issue(), "tester").unwrap();
    storage.connection().execute("DELETE FROM dirty_issues", []).unwrap();

    let patch = IssueUpdate {
        status: Some(Status::InProgress),
        assignee: Some(Some("carol".to_string())),
        ..IssueUpdate::default()
    };
    let updated = storage.update_issue("bd-001", &patch, "bob").unwrap();
    assert_eq!(updated.status, Status::InProgress);
    assert_eq!(updated.assignee.as_deref(), Some("carol"));

    let read = storage.get_issue("bd-001").unwrap().unwrap();
    assert_eq!(read.status, Status::InProgress);
    assert_eq!(read.assignee.as_deref(), Some("carol"));
    assert_eq!(read.title, "Write spec");
    assert_eq!(read.updated_at, updated.updated_at);
    assert!(read.updated_at != at(10));

    let events = get_events(storage.connection(), "bd-001", 0).unwrap();
    let kinds: Vec<&str> = events.iter().map(|e| e.event_type.as_str()).collect();
    assert_eq!(kinds, vec!["created", "status_changed", "assigned"]);
    assert_eq!(events[1].old_value.as_deref(), Some("open"));
    assert_eq!(events[1].new_value.as_deref(), Some("in_progress"));
    assert_eq!(events[2].old_value.as_deref(), Some("alice"));
    assert_eq!(events[2].new_value.as_deref(), Some("carol"));
    assert_eq!(events[1].created_at, read.updated_at);

    let dirty: i64 = storage
        .connection()
        .query_row("SELECT count(*) FROM dirty_issues", [], |r| r.get(0))
        .unwrap();
    assert_eq!(dirty, 1);
}

#[test]
fn update_that_changes_nothing_writes_nothing() {
    let mut storage = SqliteStorage::open_memory().unwrap();
    storage.create_issue(&issue(), "tester").unwrap();
    storage.connection().execute("DELETE FROM dirty_issues", []).unwrap();
    let read = storage.update_issue("bd-001", &IssueUpdate::default(), "bob").unwrap();
    assert_eq!(read.updated_at, at(10));
    let events: i64 = storage.connection().query_row("SELECT count(*) FROM events", [], |r| r.get(0)).unwrap();
    assert_eq!(events, 1);
    let dirty: i64 = storage
        .connection()
        .query_row("SELECT count(*) FROM dirty_issues", [], |r| r.get(0))
        .unwrap();
    assert_eq!(dirty, 0);
}

#[test]
fn update_refuses_what_it_may_not_do() {
    let mut storage = SqliteStorage::open_memory().unwrap();
    storage.create_issue(&issue(), "tester").unwrap();
    assert!(matches!(
        storage.update_issue("bd-404", &IssueUpdate::default(), "bob"),
        Err(BeadsError::IssueNotFound { .. })
    ));
    assert!(matches!(
        storage.update_issue(
            "bd-001",
            &IssueUpdate { status: Some(Status::Closed), ..IssueUpdate::default() },
            "bob"
        ),
        Err(BeadsError::InvalidTransition { .. })
    ));
    assert_eq!(storage.get_issue("bd-001").unwrap().unwrap().status, Status::Open);
    // a patch that no issue can take is refused whether the issue exists or not
    let untitled = IssueUpdate { title: Some(String::new()), ..IssueUpdate::default() };
    let unranked = IssueUpdate { priority: Some(Priority(5)), ..IssueUpdate::default() };
    for id in ["bd-001", "bd-404"] {
        for patch in [&untitled, &unranked] {
            assert!(matches!(check_patch_alone(patch), Err(BeadsError::InvalidArgument { .. })));
            assert!(matches!(
                storage.update_issue(id, patch, "bob"),
                Err(BeadsError::InvalidArgument { .. })
            ));
        }
    }
    assert!(check_patch_alone(&IssueUpdate::default()).is_ok());
    assert!(check_patch_alone(&IssueUpdate { status: Some(Status::Closed), ..IssueUpdate::default() }).is_ok());
    assert_eq!(storage.get_issue("bd-001").unwrap().unwrap().title, issue().title);
}
