use beads_rust::cli::{count_filters, grouping, parse_spelled_priorities, CountArgs, CountBy};
use beads_rust::error::BeadsError;
use beads_rust::model::{Dependency, DependencyType, Issue, IssueType, Priority, Status};
use beads_rust::stats::{age_of, average_age_of, count_selected, stats, Selector};
use beads_rust::storage::query::{build_count_query, Grouping, ListFilters};
use beads_rust::storage::sqlite::SqliteStorage;
use beads_rust::time::Timestamp;

fn at(secs: i64) -> Timestamp {
    Timestamp::from_unix(secs, 0).unwrap()
}

fn issue(id: &str, status: Status, issue_type: IssueType, priority: i32) -> Issue {
    let mut issue = Issue::new(id, "t", at(0));
    issue.status = status;
    issue.issue_type = issue_type;
    issue.priority = Priority(priority);
    issue
}

fn sample() -> (Vec<Issue>, Vec<Dependency>) {
    let mut overdue = issue("d", Status::InProgress, IssueType::Bug, 0);
    overdue.due_at = Some(at(50));
    let mut late_but_closed = issue("e", Status::Closed, IssueType::Doc, 4);
    late_but_closed.due_at = Some(at(50));
    let issues = vec![
        issue("a", Status::Open, IssueType::Task, 2),
        issue("b", Status::Open, IssueType::Bug, 1),
        issue("c", Status::Blocked, IssueType::Task, 2),
        overdue,
        late_but_closed,
        issue("f", Status::Tombstone, IssueType::Epic, 3),
    ];
    let deps = vec![Dependency {
        issue_id: "b".to_string(),
        depends_on_id: "a".to_string(),
        dep_type: DependencyType::Blocks,
        created_at: at(0),
        created_by: None,
    }];
    (issues, deps)
}

#[test]
fn issues_are_counted_by_selector() {
    let (issues, _) = sample();
    assert_eq!(count_selected(&issues, Selector::All), 6);
    assert_eq!(count_selected(&issues, Selector::OfStatus(Status::Open)), 2);
    assert_eq!(count_selected(&issues, Selector::OfStatus(Status::Closed)), 1);
    assert_eq!(count_selected(&issues, Selector::OfType(IssueType::Bug)), 2);
    assert_eq!(count_selected(&issues, Selector::OfType(IssueType::Spike)), 0);
    assert_eq!(count_selected(&issues, Selector::OfPriority(Priority(2))), 2);
    assert_eq!(count_selected(&issues, Selector::Overdue(at(100))), 1);
    assert_eq!(count_selected(&issues, Selector::Overdue(at(50))), 0);
    assert_eq!(count_selected(&vec![], Selector::All), 0);
}

#[test]
fn stats_cross_tabulate() {
    let (issues, deps) = sample();
    let s = stats(&issues, &deps, &at(100));
    assert_eq!(s.total, 6);
    assert_eq!((s.open, s.in_progress, s.blocked_status, s.closed, s.tombstones), (2, 1, 1, 1, 1));
    assert_eq!(s.open + s.in_progress + s.blocked_status + s.closed + s.tombstones, s.total);
    assert_eq!((s.tasks, s.bugs, s.features, s.epics, s.docs), (2, 2, 0, 1, 1));
    assert_eq!((s.critical, s.high, s.medium, s.low, s.backlog), (1, 1, 2, 1, 1));
    assert_eq!(s.ready, 2);
    assert_eq!(s.blocked, 1);
    assert_eq!(s.overdue, 1);
    assert_eq!(s.average_age, 100);
}

#[test]
fn mean_age_is_taken_over_the_unfinished_issues() {
    let mut young = issue("a", Status::Open, IssueType::Task, 2);
    young.created_at = at(90);
    let mut old = issue("b", Status::InProgress, IssueType::Task, 2);
    old.created_at = Timestamp::from_unix(-4, 999_999_999).unwrap();
    let mut held = issue("c", Status::Blocked, IssueType::Task, 2);
    held.created_at = at(100);
    let mut unborn = issue("d", Status::Open, IssueType::Task, 2);
    unborn.created_at = at(500);
    let mut done = issue("e", Status::Closed, IssueType::Task, 2);
    done.created_at = at(1);
    let mut gone = issue("f", Status::Tombstone, IssueType::Task, 2);
    gone.created_at = at(2);
    let now = at(100);
    assert_eq!(age_of(&young, &now), 10);
    assert_eq!(age_of(&old, &now), 104);
    assert_eq!(age_of(&held, &now), 0);
    assert_eq!(age_of(&unborn, &now), 0);
    assert_eq!(age_of(&done, &now), 0);
    assert_eq!(age_of(&gone, &now), 0);
    assert_eq!(Selector::Unfinished, Selector::Unfinished);
    let all = vec![young.clone(), old.clone(), held, unborn, done.clone(), gone.clone()];
    assert_eq!(count_selected(&all, Selector::Unfinished), 4);
    // (10 + 104 + 0 + 0) / 4, rounded down
    assert_eq!(average_age_of(&all, &now), 28);
    assert_eq!(average_age_of(&vec![young, old], &now), 57);
    assert_eq!(average_age_of(&vec![done, gone], &now), 0);
    assert_eq!(average_age_of(&vec![], &now), 0);
    let mut ancient = issue("g", Status::Open, IssueType::Task, 2);
    ancient.created_at = Timestamp::from_unix(-8_000_000_000_000, 0).unwrap();
    let far = Timestamp::from_unix(8_000_000_000_000, 0).unwrap();
    assert_eq!(average_age_of(&vec![ancient.clone(), ancient], &far), 16_000_000_000_000);
}

#[test]
fn count_statement_groups_and_orders() {
    let q = build_count_query(None, &ListFilters::default());
    assert_eq!(
        q.sql,
        "SELECT count(*) FROM issues WHERE 1=1 AND status NOT IN ('closed', 'tombstone') AND (is_template = 0 OR is_template IS NULL)"
    );
    let filters = ListFilters {
        statuses: Some(vec![Status::Open]),
        include_closed: true,
        include_templates: true,
        title_contains: Some("x".to_string()),
        limit: Some(5),
        ..ListFilters::default()
    };
    let q = build_count_query(Some(Grouping::Priority), &filters);
    assert_eq!(
        q.sql,
        "SELECT priority, count(*) FROM issues WHERE 1=1 AND status IN (?) AND title LIKE ? ESCAPE '\\' GROUP BY priority ORDER BY priority"
    );
    assert_eq!(q.params.len(), 2);
    let q = build_count_query(Some(Grouping::Label), &ListFilters::default());
    assert!(q.sql.starts_with(
        "SELECT label, count(*) FROM issues JOIN labels ON labels.issue_id = issues.id WHERE 1=1"
    ));
    assert!(q.sql.ends_with(" GROUP BY label ORDER BY label"));
}

#[test]
fn store_counts_and_groups() {
    let mut storage = SqliteStorage::open_memory().unwrap();
    let (issues, _) = sample();
    for issue in issues.iter().filter(|i| i.status != Status::Tombstone) {
        storage.create_issue(issue, "tester").unwrap();
    }
    storage.add_label("a", "urgent", "tester").unwrap();
    storage.add_label("b", "urgent", "tester").unwrap();
    storage.add_label("b", "backend", "tester").unwrap();
    storage
        .connection()
        .execute("UPDATE issues SET assignee = 'alice' WHERE id IN ('a', 'c')", [])
        .unwrap();
    let all = ListFilters { include_closed: true, ..ListFilters::default() };

    assert_eq!(storage.count_filtered(&ListFilters::default()).unwrap(), 4);
    assert_eq!(storage.count_filtered(&all).unwrap(), 5);

    let pairs = |by: Grouping, filters: &ListFilters| -> Vec<(String, usize)> {
        storage
            .count_grouped(by, filters)
            .unwrap()
            .into_iter()
            .map(|g| (g.key, g.count))
            .collect()
    };
    assert_eq!(
        pairs(Grouping::Status, &all),
        vec![
            ("blocked".to_string(), 1),
            ("closed".to_string(), 1),
            ("in_progress".to_string(), 1),
            ("open".to_string(), 2),
        ]
    );
    assert_eq!(
        pairs(Grouping::Priority, &ListFilters::default()),
        vec![("0".to_string(), 1), ("1".to_string(), 1), ("2".to_string(), 2)]
    );
    assert_eq!(
        pairs(Grouping::Type, &ListFilters::default()),
        vec![("bug".to_string(), 2), ("task".to_string(), 2)]
    );
    assert_eq!(
        pairs(Grouping::Assignee, &ListFilters::default()),
        vec![("(none)".to_string(), 2), ("alice".to_string(), 2)]
    );
    assert_eq!(
        pairs(Grouping::Label, &ListFilters::default()),
        vec![("backend".to_string(), 1), ("urgent".to_string(), 2)]
    );

    storage.add_dependency("b", "a", "blocks", "tester").unwrap();
    let s = storage.stats().unwrap();
    assert_eq!(s.total, 5);
    assert_eq!(s.open, 2);
    assert_eq!(s.closed, 1);
    assert_eq!(s.ready, 2);
    assert_eq!(s.blocked, 1);
    assert_eq!(s.overdue, 1);
}

#[test]
fn count_arguments_become_filters() {
    let args = CountArgs {
        by: Some(CountBy::Status),
        status: vec!["open".to_string()],
        types: vec!["bug".to_string(), "task".to_string()],
        priority: vec!["P0".to_string(), "1".to_string()],
        assignee: Some("alice".to_string()),
        unassigned: false,
        include_closed: true,
        include_templates: true,
        title_contains: None,
    };
    let f = count_filters(&args).unwrap();
    assert_eq!(f.statuses, Some(vec![Status::Open]));
    assert_eq!(f.types, Some(vec![IssueType::Bug, IssueType::Task]));
    assert_eq!(f.priorities, Some(vec![Priority(0), Priority(1)]));
    assert_eq!(f.assignee.as_deref(), Some("alice"));
    assert!(f.include_closed && f.include_templates);
    assert_eq!(f.limit, None);

    let bad = CountArgs { priority: vec!["P9".to_string()], ..args.clone() };
    assert!(matches!(count_filters(&bad), Err(BeadsError::InvalidArgument { .. })));
    assert!(matches!(
        parse_spelled_priorities(&vec!["urgent".to_string()]),
        Err(BeadsError::InvalidArgument { .. })
    ));
    assert_eq!(grouping(CountBy::Label), Grouping::Label);
    assert_eq!(grouping(CountBy::Type), Grouping::Type);
}
