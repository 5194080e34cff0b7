use beads_rust::error::BeadsError;
use beads_rust::graph::DeletePlan;
use beads_rust::model::{DependencyType, Issue, IssueType, Priority, Status};
use beads_rust::storage::exchange::exported_marks;
use beads_rust::storage::lifecycle::{deleted_as, next_id, plan_from_rows};
use beads_rust::storage::sql::SqlValue;
use beads_rust::storage::sqlite::{
    check_new_issue, counted_some, decide_link, found_issue, id_is_free, issue_is_there, settled_as,
    SqliteStorage,
};
use beads_rust::time::Timestamp;

fn at(secs: i64) -> Timestamp {
    Timestamp::from_unix(secs, 0).unwrap()
}

fn text(s: &str) -> SqlValue {
    SqlValue::Text(s.to_string())
}

fn count(n: i64) -> Vec<Vec<SqlValue>> {
    vec![vec![SqlValue::Integer(n)]]
}

fn edges(pairs: &[(&str, &str)]) -> Vec<Vec<SqlValue>> {
    pairs.iter().map(|(from, to)| vec![text(from), text(to)]).collect()
}

fn store_with(ids: &[&str]) -> SqliteStorage {
    let mut storage = SqliteStorage::open_memory().unwrap();
    for (n, id) in ids.iter().enumerate() {
        storage.create_issue(&Issue::new(id, "T", at(n as i64 + 1)), "tester").unwrap();
    }
    storage
}

fn scalar(storage: &SqliteStorage, sql: &str) -> i64 {
    storage.connection().query_row(sql, [], |r| r.get(0)).unwrap()
}

#[test]
fn count_says_whether_an_id_is_held() {
    assert_eq!(counted_some(&count(0)).unwrap(), false);
    assert_eq!(counted_some(&count(1)).unwrap(), true);
    assert_eq!(counted_some(&count(7)).unwrap(), true);
    assert!(matches!(counted_some(&vec![]), Err(BeadsError::SchemaError { .. })));
    assert!(matches!(counted_some(&vec![vec![text("one")]]), Err(BeadsError::SchemaError { .. })));

    assert!(id_is_free(&count(0), "bd-001").is_ok());
    match id_is_free(&count(1), "bd-001") {
        Err(BeadsError::IdCollision { id }) => assert_eq!(id, "bd-001"),
        other => panic!("{other:?}"),
    }
    assert!(matches!(id_is_free(&vec![], "bd-001"), Err(BeadsError::SchemaError { .. })));

    assert!(issue_is_there(&count(1), "bd-001").is_ok());
    match issue_is_there(&count(0), "bd-404") {
        Err(BeadsError::IssueNotFound { id }) => assert_eq!(id, "bd-404"),
        other => panic!("{other:?}"),
    }
    assert!(matches!(issue_is_there(&vec![], "bd-001"), Err(BeadsError::SchemaError { .. })));
}

#[test]
fn answer_without_a_row_is_not_found() {
    match found_issue(&vec![], "bd-404", at(1)) {
        Err(BeadsError::IssueNotFound { id }) => assert_eq!(id, "bd-404"),
        other => panic!("{other:?}"),
    }
    assert!(matches!(
        found_issue(&vec![vec![text("bd-001")]], "bd-001", at(1)),
        Err(BeadsError::SchemaError { .. })
    ));
}

#[test]
fn issue_read_back_must_be_as_it_was_written() {
    let mut closed = Issue::new("bd-001", "T", at(1));
    closed.status = Status::Closed;
    closed.closed_at = Some(at(5));
    closed.updated_at = at(5);
    assert_eq!(settled_as(closed.copy(), Status::Closed, &at(5), &at(1)).unwrap().status, Status::Closed);
    assert!(matches!(settled_as(closed.copy(), Status::Open, &at(5), &at(1)), Err(BeadsError::Internal { .. })));
    assert!(matches!(settled_as(closed.copy(), Status::Closed, &at(6), &at(1)), Err(BeadsError::Internal { .. })));
    assert!(matches!(settled_as(closed.copy(), Status::Closed, &at(5), &at(2)), Err(BeadsError::Internal { .. })));
    let mut early = closed.copy();
    early.closed_at = Some(at(4));
    assert!(matches!(settled_as(early, Status::Closed, &at(5), &at(1)), Err(BeadsError::Internal { .. })));
    let mut unclosed = closed.copy();
    unclosed.closed_at = None;
    assert!(matches!(settled_as(unclosed, Status::Closed, &at(5), &at(1)), Err(BeadsError::Internal { .. })));
    let mut odd = closed.copy();
    odd.deleted_by = Some("erin".to_string());
    assert!(matches!(settled_as(odd, Status::Closed, &at(5), &at(1)), Err(BeadsError::Internal { .. })));

    let mut open = Issue::new("bd-003", "T", at(1));
    open.updated_at = at(7);
    assert_eq!(settled_as(open.copy(), Status::Open, &at(7), &at(1)).unwrap().id, "bd-003");
    let mut stale = open.copy();
    stale.closed_at = Some(at(5));
    assert!(matches!(settled_as(stale, Status::Open, &at(7), &at(1)), Err(BeadsError::Internal { .. })));

    let mut gone = Issue::new("bd-002", "T", at(1));
    gone.issue_type = IssueType::Bug;
    gone.mark_deleted("erin", "duplicate", at(2));
    gone.updated_at = at(2);
    assert!(deleted_as(gone.copy(), "erin", "duplicate", IssueType::Bug, &at(2), &at(1)).is_ok());
    assert!(matches!(
        deleted_as(gone.copy(), "erin", "duplicate", IssueType::Bug, &at(3), &at(1)),
        Err(BeadsError::Internal { .. })
    ));
    assert!(matches!(
        deleted_as(gone.copy(), "erin", "duplicate", IssueType::Bug, &at(2), &at(0)),
        Err(BeadsError::Internal { .. })
    ));
    let mut late = gone.copy();
    late.updated_at = at(9);
    assert!(matches!(
        deleted_as(late, "erin", "duplicate", IssueType::Bug, &at(2), &at(1)),
        Err(BeadsError::Internal { .. })
    ));
    assert!(matches!(
        deleted_as(gone.copy(), "alice", "duplicate", IssueType::Bug, &at(2), &at(1)),
        Err(BeadsError::Internal { .. })
    ));
    assert!(matches!(
        deleted_as(gone.copy(), "erin", "other", IssueType::Bug, &at(2), &at(1)),
        Err(BeadsError::Internal { .. })
    ));
    assert!(matches!(
        deleted_as(gone.copy(), "erin", "duplicate", IssueType::Task, &at(2), &at(1)),
        Err(BeadsError::Internal { .. })
    ));
    assert!(matches!(
        deleted_as(closed, "erin", "duplicate", IssueType::Task, &at(5), &at(1)),
        Err(BeadsError::Internal { .. })
    ));
}

#[test]
fn new_edge_is_decided_by_the_answers() {
    let now = at(1431648000);
    let decide = |kind: DependencyType, link: i64, parents: usize, blocks: &[(&str, &str)]| {
        let parent_rows: Vec<Vec<SqlValue>> = (0..parents).map(|_| vec![text("bd-009")]).collect();
        decide_link("bd-003", "bd-001", kind, &count(link), &parent_rows, &edges(blocks), &now, "carol")
    };
    let chain = [("bd-001", "bd-002"), ("bd-002", "bd-003")];

    let accepted = decide(DependencyType::Blocks, 0, 0, &[("bd-002", "bd-003")]).unwrap();
    assert!(accepted.sql.starts_with("INSERT INTO dependencies"));
    assert_eq!(accepted.params.len(), 5);
    assert!(matches!(&accepted.params[0], SqlValue::Text(t) if t == "bd-003"));
    assert!(matches!(&accepted.params[1], SqlValue::Text(t) if t == "bd-001"));
    assert!(matches!(&accepted.params[2], SqlValue::Text(t) if t == "blocks"));
    assert!(matches!(&accepted.params[3], SqlValue::Text(t) if t == "2015-05-15T00:00:00+00:00"));
    assert!(matches!(&accepted.params[4], SqlValue::Text(t) if t == "carol"));

    match decide(DependencyType::Blocks, 0, 0, &chain) {
        Err(BeadsError::CycleDetected { issue_id, depends_on_id }) => {
            assert_eq!((issue_id.as_str(), depends_on_id.as_str()), ("bd-003", "bd-001"));
        }
        other => panic!("{other:?}"),
    }
    // only `blocks` edges close cycles
    assert!(decide(DependencyType::Related, 0, 0, &chain).is_ok());
    assert!(matches!(
        decide(DependencyType::Related, 1, 0, &[]),
        Err(BeadsError::InvalidArgument { .. })
    ));
    assert!(matches!(
        decide(DependencyType::Blocks, 2, 0, &chain),
        Err(BeadsError::InvalidArgument { .. })
    ));
    match decide(DependencyType::ParentChild, 0, 1, &[]) {
        Err(BeadsError::ParentExists { id }) => assert_eq!(id, "bd-003"),
        other => panic!("{other:?}"),
    }
    assert!(decide(DependencyType::ParentChild, 0, 0, &chain).is_ok());
    assert!(decide(DependencyType::Blocks, 0, 1, &[]).is_ok());
    assert!(matches!(
        decide_link("bd-001", "bd-001", DependencyType::Related, &count(0), &vec![], &vec![], &now, "carol"),
        Err(BeadsError::InvalidArgument { .. })
    ));
    assert!(matches!(
        decide_link("bd-003", "bd-001", DependencyType::Blocks, &vec![], &vec![], &vec![], &now, "carol"),
        Err(BeadsError::SchemaError { .. })
    ));
    assert!(matches!(
        decide_link("bd-003", "bd-001", DependencyType::Blocks, &count(0), &vec![], &vec![vec![text("x")]], &now, "carol"),
        Err(BeadsError::SchemaError { .. })
    ));
}

#[test]
fn deletion_is_planned_from_the_edges() {
    let rows = edges(&[("bd-002", "bd-001"), ("bd-003", "bd-002"), ("bd-004", "bd-009")]);
    let names = |plan: DeletePlan| -> (Vec<String>, Vec<String>) { (plan.deleted, plan.orphaned) };
    match plan_from_rows("bd-001", &rows, false, false) {
        Err(BeadsError::HasDependents { id, count }) => assert_eq!((id.as_str(), count), ("bd-001", 1)),
        other => panic!("{other:?}"),
    }
    assert_eq!(
        names(plan_from_rows("bd-001", &rows, false, true).unwrap()),
        (vec!["bd-001".to_string()], vec!["bd-002".to_string()])
    );
    let (deleted, orphaned) = names(plan_from_rows("bd-001", &rows, true, false).unwrap());
    assert_eq!(deleted, vec!["bd-001", "bd-002", "bd-003"]);
    assert!(orphaned.is_empty());
    assert_eq!(names(plan_from_rows("bd-003", &rows, false, false).unwrap()).0, vec!["bd-003"]);
    assert!(matches!(
        plan_from_rows("bd-001", &vec![vec![text("bd-002")]], false, false),
        Err(BeadsError::SchemaError { .. })
    ));
}

#[test]
fn next_id_starts_after_the_number_of_issues() {
    let ids = |list: &[&str]| -> Vec<String> { list.iter().map(|s| s.to_string()).collect() };
    assert_eq!(next_id("bd", &ids(&[])).unwrap(), "bd-001");
    assert_eq!(next_id("bd", &ids(&["bd-001"])).unwrap(), "bd-002");
    assert_eq!(next_id("bd", &ids(&["bd-002", "bd-xyz"])).unwrap(), "bd-003");
    assert_eq!(next_id("bd", &ids(&["bd-003", "bd-004", "bd-005"])).unwrap(), "bd-006");
    match next_id("Bad", &ids(&[])) {
        Err(BeadsError::InvalidPrefix { prefix }) => assert_eq!(prefix, "Bad"),
        other => panic!("{other:?}"),
    }
}

#[test]
fn issue_is_created_under_a_new_id_in_one_go() {
    let mut storage = SqliteStorage::open_memory().unwrap();
    let mut draft = Issue::new("whatever", "Write spec", at(5));
    draft.priority = Priority(1);
    draft.description = Some("all of it".to_string());
    let first = storage.create_issue_anew("bd", &draft, "alice").unwrap();
    assert_eq!(first.id, "bd-001");
    assert_eq!((first.title.as_str(), first.priority, first.status), ("Write spec", Priority(1), Status::Open));
    let second = storage.create_issue_anew("bd", &draft, "alice").unwrap();
    assert_eq!(second.id, "bd-002");
    let other = storage.create_issue_anew("other", &Issue::new("", "T", at(6)), "alice").unwrap();
    assert_eq!(other.id, "other-001");
    let read = storage.get_issue("bd-001").unwrap().unwrap();
    assert_eq!(format!("{read:?}"), format!("{first:?}"));
    assert_eq!(scalar(&storage, "SELECT count(*) FROM events WHERE event_type = 'created' AND actor = 'alice'"), 3);
    assert_eq!(scalar(&storage, "SELECT count(*) FROM dirty_issues"), 3);

    assert!(matches!(
        storage.create_issue_anew("BD", &draft, "alice"),
        Err(BeadsError::InvalidPrefix { .. })
    ));
    assert!(matches!(
        storage.create_issue_anew("bd", &Issue::new("bd-9", "", at(5)), "alice"),
        Err(BeadsError::InvalidArgument { .. })
    ));
    let mut unranked = draft.copy();
    unranked.priority = Priority(9);
    assert!(matches!(
        storage.create_issue_anew("bd", &unranked, "alice"),
        Err(BeadsError::InvalidArgument { .. })
    ));
    assert_eq!(storage.count_issues().unwrap(), 3);
    // a tombstone holds its id
    storage.delete_issue("bd-002", "alice", "gone").unwrap();
    assert_eq!(storage.create_issue_anew("bd", &draft, "alice").unwrap().id, "bd-003");
    assert!(check_new_issue(&draft).is_ok());
}

#[test]
fn taken_id_is_refused_and_held_ids_are_known() {
    let mut storage = store_with(&["bd-1"]);
    storage.delete_issue("bd-1", "t", "r").unwrap();
    assert_eq!(storage.id_exists("bd-1").unwrap(), true);
    assert_eq!(storage.id_exists("bd-2").unwrap(), false);
    let events = scalar(&storage, "SELECT count(*) FROM events");
    match storage.create_issue(&Issue::new("bd-1", "Again", at(9)), "t") {
        Err(BeadsError::IdCollision { id }) => assert_eq!(id, "bd-1"),
        other => panic!("{other:?}"),
    }
    assert_eq!(storage.count_issues().unwrap(), 1);
    assert_eq!(scalar(&storage, "SELECT count(*) FROM events"), events);
    assert_eq!(storage.get_issue("bd-1").unwrap().unwrap().title, "T");
}

#[test]
fn issue_with_dependents_is_not_deleted_alone() {
    let mut storage = store_with(&["bd-001", "bd-002"]);
    storage.add_dependency("bd-002", "bd-001", "blocks", "t").unwrap();
    let events = scalar(&storage, "SELECT count(*) FROM events");
    match storage.delete_issue("bd-001", "alice", "gone") {
        Err(BeadsError::HasDependents { id, count }) => assert_eq!((id.as_str(), count), ("bd-001", 1)),
        other => panic!("{other:?}"),
    }
    assert_eq!(storage.get_issue("bd-001").unwrap().unwrap().status, Status::Open);
    assert_eq!(scalar(&storage, "SELECT count(*) FROM events"), events);

    let deleted = storage.delete_issue("bd-002", "alice", "gone").unwrap();
    assert_eq!(deleted.id, "bd-002");
    assert_eq!(deleted.status, Status::Tombstone);
    assert_eq!(deleted.deleted_by.as_deref(), Some("alice"));
    assert_eq!(deleted.delete_reason.as_deref(), Some("gone"));
    assert_eq!(deleted.original_type.as_deref(), Some("task"));
    let read = storage.get_issue("bd-002").unwrap().unwrap();
    assert_eq!(format!("{read:?}"), format!("{deleted:?}"));
    // its dependent is a tombstone now, so the first can go
    assert_eq!(storage.delete_issue("bd-001", "alice", "gone").unwrap().status, Status::Tombstone);
}

#[test]
fn closing_and_reopening_hand_back_the_issue_as_it_is() {
    let mut storage = store_with(&["bd-001"]);
    let closed = storage.close_issue("bd-001", Some("done"), "alice").unwrap();
    assert_eq!((closed.id.as_str(), closed.status), ("bd-001", Status::Closed));
    assert!(closed.closed_at.is_some());
    let open = storage.reopen_issue("bd-001", "alice").unwrap();
    assert_eq!((open.id.as_str(), open.status), ("bd-001", Status::Open));
    assert!(open.closed_at.is_none());
}

#[test]
fn edges_are_refused_by_the_rule() {
    let mut storage = store_with(&["bd-001", "bd-002", "bd-003"]);
    storage.add_dependency("bd-001", "bd-002", "blocks", "t").unwrap();
    storage.add_dependency("bd-002", "bd-003", "blocks", "t").unwrap();
    assert!(matches!(
        storage.add_dependency("bd-003", "bd-001", "blocks", "t"),
        Err(BeadsError::CycleDetected { .. })
    ));
    assert_eq!(storage.count_dependencies("bd-003").unwrap(), 0);
    assert_eq!(storage.get_dependencies("bd-001").unwrap(), vec!["bd-002"]);
    assert_eq!(storage.get_dependencies("bd-002").unwrap(), vec!["bd-003"]);

    assert!(matches!(
        storage.add_dependency("bd-001", "bd-002", "blocks", "t"),
        Err(BeadsError::InvalidArgument { .. })
    ));
    assert_eq!(storage.count_dependencies("bd-001").unwrap(), 1);
    assert_eq!(
        scalar(&storage, "SELECT count(*) FROM events WHERE issue_id = 'bd-001' AND event_type = 'dependency_added'"),
        1
    );

    storage.add_dependency("bd-003", "bd-001", "parent-child", "t").unwrap();
    match storage.add_dependency("bd-003", "bd-002", "parent-child", "t") {
        Err(BeadsError::ParentExists { id }) => assert_eq!(id, "bd-003"),
        other => panic!("{other:?}"),
    }
    assert_eq!(storage.get_parent_id("bd-003").unwrap().as_deref(), Some("bd-001"));
}

#[test]
fn removing_all_edges_marks_both_ends() {
    let mut storage = store_with(&["bd-001", "bd-002", "bd-003", "bd-004"]);
    storage.add_dependency("bd-001", "bd-002", "blocks", "t").unwrap();
    storage.add_dependency("bd-003", "bd-001", "related", "t").unwrap();
    storage.connection().execute("DELETE FROM dirty_issues", []).unwrap();
    assert_eq!(storage.remove_all_dependencies("bd-001", "t").unwrap(), 2);
    assert_eq!(storage.dirty_ids().unwrap(), vec!["bd-001", "bd-002", "bd-003"]);
    assert_eq!(storage.count_dependencies("bd-001").unwrap(), 0);
    assert_eq!(storage.count_dependents("bd-001").unwrap(), 0);
    storage.connection().execute("DELETE FROM dirty_issues", []).unwrap();
    assert_eq!(storage.remove_all_dependencies("bd-001", "t").unwrap(), 0);
    assert!(storage.dirty_ids().unwrap().is_empty());
}

#[test]
fn export_takes_off_the_marks_of_what_it_wrote() {
    let ids = |list: &[&str]| -> Vec<String> { list.iter().map(|s| s.to_string()).collect() };
    let issues = vec![Issue::new("bd-002", "T", at(1)), Issue::new("bd-003", "T", at(1))];
    assert_eq!(exported_marks(true, ids(&["bd-001", "bd-002"]), &issues), vec!["bd-001", "bd-002"]);
    assert_eq!(exported_marks(false, ids(&["bd-001", "bd-002"]), &issues), vec!["bd-002", "bd-003"]);
    assert!(exported_marks(false, ids(&["bd-001"]), &vec![]).is_empty());

    let mut storage = store_with(&["bd-001", "bd-002", "bd-003"]);
    let stale = storage.export_issues(false).unwrap();
    storage.clear_exported(false, &stale[..2].to_vec()).unwrap();
    assert_eq!(storage.dirty_ids().unwrap(), vec!["bd-003"]);
    storage.delete_issue("bd-001", "t", "gone").unwrap();
    let full = storage.export_issues(true).unwrap();
    assert_eq!(full.len(), 2);
    storage.clear_exported(true, &full).unwrap();
    assert!(storage.dirty_ids().unwrap().is_empty());
}
