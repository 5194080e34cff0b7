use beads_rust::model::{Dependency, DependencyType, Issue, Status};
use beads_rust::jsonl::render_line;
use beads_rust::model::{Comment, Priority};
use beads_rust::readiness::{
    blocked_by, has_open_issue, is_blocking, issue_is_ready, ready_among_listed, ready_issues,
};
use beads_rust::storage::query::{ListFilters, SortKey};
use beads_rust::storage::sqlite::SqliteStorage;
use beads_rust::time::Timestamp;

fn at(secs: i64) -> Timestamp {
    Timestamp::from_unix(secs, 0).unwrap()
}

fn issue(id: &str, status: Status) -> Issue {
    let mut issue = Issue::new(id, "title", at(0));
    issue.status = status;
    issue
}

fn dep(from: &str, to: &str, dep_type: DependencyType) -> Dependency {
    Dependency {
        issue_id: from.to_string(),
        depends_on_id: to.to_string(),
        dep_type,
        created_at: at(0),
        created_by: None,
    }
}

#[test]
fn dependency_holds_back_until_its_target_closes() {
    // bd-002 depends on bd-001
    let mut issues = vec![issue("bd-001", Status::Open), issue("bd-002", Status::Open)];
    let deps = vec![dep("bd-002", "bd-001", DependencyType::Blocks)];
    assert_eq!(ready_issues(&issues, &deps, &at(10)), vec!["bd-001"]);
    assert_eq!(blocked_by(&issues, &deps, "bd-002"), vec!["bd-001"]);
    assert!(blocked_by(&issues, &deps, "bd-001").is_empty());

    issues[0].status = Status::Closed;
    assert_eq!(ready_issues(&issues, &deps, &at(10)), vec!["bd-002"]);
    assert!(blocked_by(&issues, &deps, "bd-002").is_empty());
}

#[test]
fn only_blocks_edges_hold_back() {
    let issues = vec![issue("a", Status::Open), issue("b", Status::Open)];
    for dep_type in [DependencyType::Related, DependencyType::ParentChild, DependencyType::DiscoveredFrom] {
        let deps = vec![dep("b", "a", dep_type)];
        assert_eq!(ready_issues(&issues, &deps, &at(10)), vec!["a", "b"]);
        assert!(!is_blocking(&issues, &deps[0]));
    }
    assert!(is_blocking(&issues, &dep("b", "a", DependencyType::Blocks)));
}

#[test]
fn terminal_and_missing_targets_do_not_hold_back() {
    let issues = vec![
        issue("a", Status::Tombstone),
        issue("b", Status::Open),
        issue("c", Status::Closed),
    ];
    let deps = vec![
        dep("b", "a", DependencyType::Blocks),
        dep("b", "c", DependencyType::Blocks),
        dep("b", "gone", DependencyType::Blocks),
    ];
    assert_eq!(ready_issues(&issues, &deps, &at(10)), vec!["b"]);
    assert!(!has_open_issue(&issues, "a"));
    assert!(has_open_issue(&issues, "b"));
    assert!(!has_open_issue(&issues, "c"));
    assert!(!has_open_issue(&issues, "gone"));
}

#[test]
fn blocked_and_in_progress_targets_hold_back() {
    for status in [Status::Open, Status::InProgress, Status::Blocked] {
        let issues = vec![issue("a", status), issue("b", Status::Open)];
        let deps = vec![dep("b", "a", DependencyType::Blocks)];
        assert!(!issue_is_ready(&issues, &deps, &issues[1], &at(10)));
    }
}

#[test]
fn only_open_and_in_progress_issues_are_ready() {
    let issues = vec![
        issue("a", Status::Open),
        issue("b", Status::InProgress),
        issue("c", Status::Blocked),
        issue("d", Status::Closed),
        issue("e", Status::Tombstone),
    ];
    assert_eq!(ready_issues(&issues, &vec![], &at(10)), vec!["a", "b"]);
}

#[test]
fn templates_are_never_ready() {
    let mut template = issue("a", Status::Open);
    template.is_template = true;
    let issues = vec![template, issue("b", Status::Open)];
    assert_eq!(ready_issues(&issues, &vec![], &at(10)), vec!["b"]);
}

#[test]
fn deferred_issues_are_ready_from_their_date_on() {
    let mut deferred = issue("a", Status::Open);
    deferred.defer_until = Some(at(100));
    let issues = vec![deferred];
    assert!(ready_issues(&issues, &vec![], &at(99)).is_empty());
    assert_eq!(ready_issues(&issues, &vec![], &at(100)), vec!["a"]);
    assert_eq!(ready_issues(&issues, &vec![], &at(101)), vec!["a"]);
}

#[test]
fn every_blocker_is_listed_in_the_order_of_the_edges() {
    let issues = vec![
        issue("a", Status::Open),
        issue("b", Status::Open),
        issue("c", Status::Closed),
        issue("d", Status::InProgress),
    ];
    let deps = vec![
        dep("a", "d", DependencyType::Blocks),
        dep("x", "b", DependencyType::Blocks),
        dep("a", "c", DependencyType::Blocks),
        dep("a", "b", DependencyType::Blocks),
    ];
    assert_eq!(blocked_by(&issues, &deps, "a"), vec!["d", "b"]);
}

#[test]
fn ready_issues_of_a_listing_keep_its_order_and_its_limit() {
    let mut deferred = issue("d", Status::Open);
    deferred.defer_until = Some(at(100));
    let mut template = issue("t", Status::Open);
    template.is_template = true;
    let issues = vec![
        issue("a", Status::Open),
        issue("b", Status::InProgress),
        issue("c", Status::Open),
        deferred,
        template,
        issue("e", Status::Blocked),
        issue("f", Status::Closed),
        issue("g", Status::Open),
    ];
    let deps = vec![dep("c", "a", DependencyType::Blocks), dep("g", "f", DependencyType::Blocks)];
    let listed: Vec<Issue> = ["g", "f", "e", "t", "d", "c", "b", "a"]
        .iter()
        .map(|id| issues.iter().find(|i| i.id == *id).unwrap().copy())
        .collect();
    let ids = |limit: Option<usize>, now: i64| -> Vec<String> {
        ready_among_listed(&issues, &deps, &listed, &at(now), limit).into_iter().map(|i| i.id).collect()
    };
    assert_eq!(ids(None, 10), vec!["g", "b", "a"]);
    assert_eq!(ids(Some(0), 10), vec!["g", "b", "a"]);
    assert_eq!(ids(Some(2), 10), vec!["g", "b"]);
    assert_eq!(ids(Some(3), 10), vec!["g", "b", "a"]);
    assert_eq!(ids(Some(9), 10), vec!["g", "b", "a"]);
    assert_eq!(ids(Some(1), 100), vec!["g"]);
    assert_eq!(ids(None, 100), vec!["g", "d", "b", "a"]);
    assert!(ready_among_listed(&issues, &deps, &vec![], &at(10), None).is_empty());
}

#[test]
fn copy_keeps_every_field() {
    let mut original = issue("bd-001", Status::Closed);
    original.description = Some("d".to_string());
    original.priority = Priority(4);
    original.labels = vec!["x".to_string(), "y".to_string()];
    original.dependencies = vec![dep("bd-001", "bd-000", DependencyType::Related)];
    original.comments = vec![Comment {
        id: 3,
        issue_id: "bd-001".to_string(),
        author: "a".to_string(),
        body: "b".to_string(),
        created_at: at(5),
    }];
    original.closed_at = Some(at(9));
    original.content_hash = Some("h".to_string());
    original.sender = Some("s".to_string());
    original.pinned = true;
    let copy = original.copy();
    assert_eq!(render_line(&copy), render_line(&original));
    assert_eq!(format!("{copy:?}"), format!("{original:?}"));
    assert_eq!(format!("{:?}", original.dependencies[0].copy()), format!("{:?}", original.dependencies[0]));
    assert_eq!(format!("{:?}", original.comments[0].copy()), format!("{:?}", original.comments[0]));
}

#[test]
fn store_lists_the_ready_issues_that_pass_the_filters() {
    let mut storage = SqliteStorage::open_memory().unwrap();
    for (id, priority, assignee) in
        [("bd-001", 2, Some("ann")), ("bd-002", 0, None), ("bd-003", 1, Some("ann")), ("bd-004", 3, Some("bob"))]
    {
        let mut new = Issue::new(id, "T", at(10));
        new.priority = Priority(priority);
        new.assignee = assignee.map(str::to_string);
        storage.create_issue(&new, "tester").unwrap();
    }
    storage.add_dependency("bd-002", "bd-001", "blocks", "tester").unwrap();
    let ids = |storage: &SqliteStorage, filters: ListFilters| -> Vec<String> {
        storage.ready(&filters).unwrap().into_iter().map(|i| i.id).collect()
    };
    assert_eq!(ids(&storage, ListFilters::default()), vec!["bd-003", "bd-001", "bd-004"]);
    assert_eq!(ids(&storage, ListFilters { limit: Some(2), ..ListFilters::default() }), vec!["bd-003", "bd-001"]);
    assert_eq!(ids(&storage, ListFilters { limit: Some(0), ..ListFilters::default() }), vec!["bd-003", "bd-001", "bd-004"]);
    assert_eq!(
        ids(&storage, ListFilters { assignee: Some("ann".to_string()), reverse: true, ..ListFilters::default() }),
        vec!["bd-001", "bd-003"]
    );
    assert_eq!(
        ids(&storage, ListFilters { sort: Some(SortKey::Title), limit: Some(1), ..ListFilters::default() }),
        vec!["bd-001"]
    );
    // the blocked issue comes first in the listing, and is passed over before the limit counts
    assert_eq!(storage.list_issues(&ListFilters { limit: Some(1), ..ListFilters::default() }).unwrap()[0].id, "bd-002");
    assert_eq!(ids(&storage, ListFilters { limit: Some(1), ..ListFilters::default() }), vec!["bd-003"]);
    storage.close_issue("bd-001", None, "tester").unwrap();
    assert_eq!(ids(&storage, ListFilters::default()), vec!["bd-002", "bd-003", "bd-004"]);
    assert_eq!(ids(&storage, ListFilters { include_closed: true, ..ListFilters::default() }), vec!["bd-002", "bd-003", "bd-004"]);
}
