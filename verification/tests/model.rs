use beads_rust::model::{DependencyType, EventType, Issue, IssueType, Priority, Status};
use beads_rust::time::Timestamp;

fn at(secs: i64) -> Timestamp {
    Timestamp::from_unix(secs, 0).unwrap()
}

#[test]
fn status_spellings_round_trip() {
    let all = [
        (Status::Open, "open"),
        (Status::InProgress, "in_progress"),
        (Status::Blocked, "blocked"),
        (Status::Closed, "closed"),
        (Status::Tombstone, "tombstone"),
    ];
    for (status, text) in all {
        assert_eq!(status.as_str(), text);
        assert_eq!(Status::parse(text), Some(status));
    }
    assert_eq!(Status::parse("Open"), None);
    assert_eq!(Status::parse(""), None);
    assert_eq!(Status::parse("done"), None);
}

#[test]
fn only_closed_and_tombstone_are_terminal() {
    assert!(!Status::Open.is_terminal());
    assert!(!Status::InProgress.is_terminal());
    assert!(!Status::Blocked.is_terminal());
    assert!(Status::Closed.is_terminal());
    assert!(Status::Tombstone.is_terminal());
}

#[test]
fn issue_type_spellings_round_trip() {
    let all = [
        (IssueType::Task, "task"),
        (IssueType::Bug, "bug"),
        (IssueType::Feature, "feature"),
        (IssueType::Epic, "epic"),
        (IssueType::Chore, "chore"),
        (IssueType::Spike, "spike"),
        (IssueType::Doc, "doc"),
        (IssueType::Test, "test"),
        (IssueType::Other, "other"),
    ];
    for (issue_type, text) in all {
        assert_eq!(issue_type.as_str(), text);
        assert_eq!(IssueType::parse(text), Some(issue_type));
    }
    assert_eq!(IssueType::parse("story"), None);
}

#[test]
fn dependency_type_spellings_round_trip() {
    let all = [
        (DependencyType::Blocks, "blocks"),
        (DependencyType::ParentChild, "parent-child"),
        (DependencyType::Related, "related"),
        (DependencyType::DiscoveredFrom, "discovered-from"),
    ];
    for (dep_type, text) in all {
        assert_eq!(dep_type.as_str(), text);
        assert_eq!(DependencyType::parse(text), Some(dep_type));
    }
    assert_eq!(DependencyType::parse("parent_child"), None);
}

#[test]
fn event_type_spellings_round_trip() {
    let all = [
        (EventType::Created, "created"),
        (EventType::Updated, "updated"),
        (EventType::StatusChanged, "status_changed"),
        (EventType::PriorityChanged, "priority_changed"),
        (EventType::Assigned, "assigned"),
        (EventType::Closed, "closed"),
        (EventType::Reopened, "reopened"),
        (EventType::Deleted, "deleted"),
        (EventType::LabelAdded, "label_added"),
        (EventType::LabelRemoved, "label_removed"),
        (EventType::DependencyAdded, "dependency_added"),
        (EventType::DependencyRemoved, "dependency_removed"),
        (EventType::CommentAdded, "comment_added"),
    ];
    for (event_type, text) in all {
        assert_eq!(event_type.as_str(), text);
        assert_eq!(EventType::parse(text), Some(event_type));
    }
    assert_eq!(EventType::parse("renamed"), None);
}

#[test]
fn defaults_are_open_medium_task() {
    assert_eq!(Status::default(), Status::Open);
    assert_eq!(Priority::default(), Priority(2));
    assert_eq!(IssueType::default(), IssueType::Task);
    assert_eq!(DependencyType::default(), DependencyType::Blocks);
}

#[test]
fn priorities_run_from_0_to_4() {
    assert_eq!(Priority::critical(), Priority(0));
    assert_eq!(Priority::high(), Priority(1));
    assert_eq!(Priority::medium(), Priority(2));
    assert_eq!(Priority::low(), Priority(3));
    assert_eq!(Priority::backlog(), Priority(4));
    assert_eq!(Priority::new(0), Some(Priority(0)));
    assert_eq!(Priority::new(4), Some(Priority(4)));
    assert_eq!(Priority::new(5), None);
    assert_eq!(Priority::new(-1), None);
}

#[test]
fn new_issue_has_the_defaults() {
    let issue = Issue::new("bd-001", "Write spec", at(100));
    assert_eq!(issue.id, "bd-001");
    assert_eq!(issue.title, "Write spec");
    assert_eq!(issue.status, Status::Open);
    assert_eq!(issue.priority, Priority(2));
    assert_eq!(issue.issue_type, IssueType::Task);
    assert_eq!(issue.created_at, at(100));
    assert_eq!(issue.updated_at, at(100));
    assert!(!issue.ephemeral && !issue.pinned && !issue.is_template);
    assert!(issue.labels.is_empty() && issue.dependencies.is_empty() && issue.comments.is_empty());
    assert!(issue.is_tombstone_consistent());
}

#[test]
fn deleting_fills_all_four_tombstone_fields() {
    let mut issue = Issue::new("bd-001", "Write spec", at(100));
    issue.issue_type = IssueType::Bug;
    issue.mark_deleted("alice", "duplicate", at(200));
    assert_eq!(issue.status, Status::Tombstone);
    assert_eq!(issue.deleted_at, Some(at(200)));
    assert_eq!(issue.deleted_by.as_deref(), Some("alice"));
    assert_eq!(issue.delete_reason.as_deref(), Some("duplicate"));
    assert_eq!(issue.original_type.as_deref(), Some("bug"));
    assert_eq!(issue.updated_at, at(200));
    assert_eq!(issue.created_at, at(100));
    assert!(issue.is_tombstone_consistent());
}

#[test]
fn restoring_clears_the_tombstone_fields_and_keeps_the_type() {
    let mut issue = Issue::new("bd-001", "Write spec", at(100));
    issue.issue_type = IssueType::Feature;
    issue.mark_deleted("alice", "duplicate", at(200));
    issue.issue_type = IssueType::Task;
    issue.restore(at(300));
    assert_eq!(issue.status, Status::Open);
    assert_eq!(issue.issue_type, IssueType::Feature);
    assert_eq!(issue.deleted_at, None);
    assert_eq!(issue.deleted_by, None);
    assert_eq!(issue.delete_reason, None);
    assert_eq!(issue.original_type, None);
    assert_eq!(issue.updated_at, at(300));
    assert!(issue.is_tombstone_consistent());
}

#[test]
fn half_a_tombstone_is_not_consistent() {
    let mut issue = Issue::new("bd-001", "Write spec", at(100));
    issue.deleted_by = Some("alice".to_string());
    assert!(!issue.is_tombstone_consistent());
    let mut gone = Issue::new("bd-002", "Other", at(100));
    gone.status = Status::Tombstone;
    assert!(!gone.is_tombstone_consistent());
}
