use beads_rust::hash::content_hash;
use beads_rust::jsonl::render_line;
use beads_rust::model::{Issue, IssueType, Status};
use beads_rust::storage::events::get_events;
use beads_rust::storage::query::ListFilters;
use beads_rust::storage::sqlite::SqliteStorage;
use beads_rust::sync::{merge_lines, settle, without_lines, ExportLine, ImportCounts};
use beads_rust::time::Timestamp;

fn at(secs: i64) -> Timestamp {
    Timestamp::from_unix(secs, 0).unwrap()
}

fn scalar(storage: &SqliteStorage, sql: &str) -> i64 {
    storage.connection().query_row(sql, [], |row| row.get(0)).unwrap()
}

fn populated() -> SqliteStorage {
    let mut storage = SqliteStorage::open_memory().unwrap();
    for (n, (id, title)) in [("bd-001", "Design"), ("bd-002", "Implement"), ("bd-003", "Ship")]
        .iter()
        .enumerate()
    {
        storage.create_issue(&Issue::new(id, title, at(100 + n as i64)), "tester").unwrap();
        storage.add_label(id, "urgent", "tester").unwrap();
        storage.add_label(id, "backend", "tester").unwrap();
        storage
            .connection()
            .execute(
                "INSERT INTO comments (issue_id, author, text, created_at) VALUES (?, ?, ?, ?)",
                [*id, "alice", "a comment", "2015-05-15T00:00:00+00:00"],
            )
            .unwrap();
    }
    storage.add_dependency("bd-002", "bd-001", "blocks", "tester").unwrap();
    storage.add_dependency("bd-003", "bd-002", "blocks", "tester").unwrap();
    storage
}

fn line(id: &str, text: &str) -> ExportLine {
    ExportLine { id: id.to_string(), text: text.to_string() }
}

fn pairs(lines: &[ExportLine]) -> Vec<(String, String)> {
    lines.iter().map(|l| (l.id.clone(), l.text.clone())).collect()
}

#[test]
fn round_trip() {
    let storage = populated();
    let exported = storage.export_issues(true).unwrap();
    assert_eq!(exported.len(), 3);
    for issue in &exported {
        assert_eq!(issue.labels, vec!["backend", "urgent"]);
        assert_eq!(issue.comments.len(), 1);
        assert_eq!(issue.content_hash.as_deref(), Some(content_hash(issue).as_str()));
    }
    assert_eq!(exported[1].dependencies.len(), 1);
    assert_eq!(exported[1].dependencies[0].depends_on_id, "bd-001");
    let hashes: Vec<String> = exported.iter().map(|i| i.content_hash.clone().unwrap()).collect();
    let lines: Vec<String> = exported.iter().map(render_line).collect();

    let mut fresh = SqliteStorage::open_memory().unwrap();
    let counts = fresh.import_issues(exported.clone()).unwrap();
    assert_eq!(counts, ImportCounts { inserted: 3, updated: 0, skipped: 0 });

    let back = fresh.export_issues(true).unwrap();
    assert_eq!(back.len(), 3);
    for (n, issue) in back.iter().enumerate() {
        assert_eq!(issue.id, exported[n].id);
        assert_eq!(issue.title, exported[n].title);
        assert_eq!(issue.labels, exported[n].labels);
        assert_eq!(issue.created_at, exported[n].created_at);
        assert_eq!(issue.updated_at, exported[n].updated_at);
        assert_eq!(issue.comments.len(), 1);
        assert_eq!(issue.comments[0].body, "a comment");
        assert_eq!(issue.comments[0].created_at, exported[n].comments[0].created_at);
        assert_eq!(issue.dependencies.len(), exported[n].dependencies.len());
        assert_eq!(issue.content_hash.as_deref(), Some(hashes[n].as_str()));
    }
    let lines_back: Vec<String> = back
        .iter()
        .map(|issue| {
            let mut same_ids = issue.clone();
            for (k, comment) in same_ids.comments.iter_mut().enumerate() {
                comment.id = exported.iter().find(|e| e.id == issue.id).unwrap().comments[k].id;
            }
            render_line(&same_ids)
        })
        .collect();
    assert_eq!(lines_back, lines);
    // the import left nothing to export
    assert_eq!(scalar(&fresh, "SELECT count(*) FROM dirty_issues"), 0);
    let events = get_events(fresh.connection(), "bd-001", 0).unwrap();
    assert_eq!(events.len(), 1);
    assert_eq!(events[0].event_type.as_str(), "created");
    assert_eq!(events[0].actor, "import");
}

#[test]
fn import_twice_changes_nothing_the_second_time() {
    let storage = populated();
    let exported = storage.export_issues(true).unwrap();
    let mut fresh = SqliteStorage::open_memory().unwrap();
    fresh.import_issues(exported.clone()).unwrap();
    let events_after_first = scalar(&fresh, "SELECT count(*) FROM events");
    let counts = fresh.import_issues(exported).unwrap();
    assert_eq!(counts, ImportCounts { inserted: 0, updated: 0, skipped: 3 });
    assert_eq!(scalar(&fresh, "SELECT count(*) FROM events"), events_after_first);
}

#[test]
fn import_updates_resurrects_and_deletes() {
    let mut storage = populated();
    let exported = storage.export_issues(true).unwrap();
    storage.delete_issue("bd-003", "tester", "gone").unwrap();

    let mut changed = exported[0].clone();
    changed.title = "Design again".to_string();
    let mut deleted = exported[1].clone();
    deleted.status = Status::Tombstone;
    let back = exported[2].clone();

    let counts = storage.import_issues(vec![changed, deleted, back]).unwrap();
    assert_eq!(counts, ImportCounts { inserted: 0, updated: 3, skipped: 0 });

    assert_eq!(storage.get_issue("bd-001").unwrap().unwrap().title, "Design again");
    let gone = storage.get_issue("bd-002").unwrap().unwrap();
    assert_eq!(gone.status, Status::Tombstone);
    assert!(gone.is_tombstone_consistent());
    assert_eq!(gone.deleted_by.as_deref(), Some("import"));
    assert_eq!(gone.original_type.as_deref(), Some("task"));
    let alive = storage.get_issue("bd-003").unwrap().unwrap();
    assert_eq!(alive.status, Status::Open);
    assert!(alive.is_tombstone_consistent());

    let kinds = |id: &str| -> Vec<String> {
        get_events(storage.connection(), id, 0)
            .unwrap()
            .iter()
            .filter(|e| e.actor == "import")
            .map(|e| e.event_type.as_str().to_string())
            .collect()
    };
    assert_eq!(kinds("bd-001"), vec!["updated"]);
    assert_eq!(kinds("bd-002"), vec!["deleted"]);
    assert_eq!(kinds("bd-003"), vec!["reopened"]);
    assert_eq!(scalar(&storage, "SELECT count(*) FROM dirty_issues WHERE issue_id LIKE 'bd-00%'"), 0);
    assert_eq!(scalar(&storage, "SELECT count(*) FROM blocked_issues_cache"), 0);
}

#[test]
fn incremental_export_holds_the_dirty_issues() {
    let mut storage = populated();
    let all: Vec<String> = storage.dirty_ids().unwrap();
    assert_eq!(all, vec!["bd-001", "bd-002", "bd-003"]);
    storage.clear_dirty(&all).unwrap();
    assert!(storage.dirty_ids().unwrap().is_empty());
    assert!(storage.export_issues(false).unwrap().is_empty());

    storage.add_label("bd-002", "later", "tester").unwrap();
    storage.delete_issue("bd-003", "tester", "gone").unwrap();
    let dirty = storage.export_issues(false).unwrap();
    let ids: Vec<&str> = dirty.iter().map(|i| i.id.as_str()).collect();
    assert_eq!(ids, vec!["bd-002", "bd-003"]);
    assert_eq!(dirty[0].labels, vec!["backend", "later", "urgent"]);
    assert_eq!(dirty[1].status, Status::Tombstone);
    // a full export leaves the tombstone out
    let full = storage.export_issues(true).unwrap();
    let ids: Vec<&str> = full.iter().map(|i| i.id.as_str()).collect();
    assert_eq!(ids, vec!["bd-001", "bd-002"]);
    assert_eq!(storage.list_issues(&ListFilters::default()).unwrap().len(), 2);
}

#[test]
fn full_issue_carries_its_hash() {
    let storage = populated();
    let issue = storage.get_full_issue("bd-002").unwrap().unwrap();
    assert_eq!(issue.content_hash.as_deref(), Some(content_hash(&issue).as_str()));
    assert_eq!(issue.dependencies.len(), 1);
    assert!(storage.get_full_issue("bd-404").unwrap().is_none());
}

#[test]
fn imported_rows_are_made_consistent() {
    let mut tombstone = Issue::new("bd-001", "t", at(1));
    tombstone.status = Status::Tombstone;
    tombstone.issue_type = IssueType::Bug;
    settle(&mut tombstone, Some(IssueType::Epic), at(50));
    assert_eq!(tombstone.deleted_at, Some(at(50)));
    assert_eq!(tombstone.deleted_by.as_deref(), Some("import"));
    assert_eq!(tombstone.delete_reason.as_deref(), Some("imported"));
    assert_eq!(tombstone.original_type.as_deref(), Some("epic"));
    assert!(tombstone.is_tombstone_consistent());

    let mut own = Issue::new("bd-001", "t", at(1));
    own.status = Status::Tombstone;
    own.issue_type = IssueType::Bug;
    own.deleted_by = Some("alice".to_string());
    settle(&mut own, None, at(50));
    assert_eq!(own.deleted_by.as_deref(), Some("alice"));
    assert_eq!(own.original_type.as_deref(), Some("bug"));

    let mut living = Issue::new("bd-002", "t", at(1));
    living.deleted_by = Some("alice".to_string());
    living.original_type = Some("bug".to_string());
    settle(&mut living, None, at(50));
    assert_eq!(living.deleted_by, None);
    assert_eq!(living.original_type, None);
    assert!(living.is_tombstone_consistent());
}

#[test]
fn fresh_lines_replace_in_place_and_new_lines_follow() {
    let existing = vec![line("a", "a1"), line("b", "b1"), line("c", "c1")];
    let fresh = vec![line("d", "d2"), line("b", "b2"), line("e", "e2"), line("d", "d3")];
    let merged = merge_lines(&existing, &fresh);
    assert_eq!(
        pairs(&merged),
        vec![
            ("a".to_string(), "a1".to_string()),
            ("b".to_string(), "b2".to_string()),
            ("c".to_string(), "c1".to_string()),
            ("d".to_string(), "d2".to_string()),
            ("e".to_string(), "e2".to_string()),
        ]
    );
    assert_eq!(pairs(&merge_lines(&existing, &vec![])), pairs(&existing));
    assert_eq!(pairs(&merge_lines(&vec![], &fresh[..3].to_vec())), pairs(&fresh[..3]));
}

#[test]
fn lines_of_pruned_issues_are_dropped() {
    let lines = vec![line("a", "a1"), line("b", "b1"), line("c", "c1")];
    let kept = without_lines(&lines, &vec!["b".to_string(), "z".to_string()]);
    assert_eq!(
        pairs(&kept),
        vec![("a".to_string(), "a1".to_string()), ("c".to_string(), "c1".to_string())]
    );
    assert_eq!(pairs(&without_lines(&lines, &vec![])), pairs(&lines));
}

#[test]
fn full_export_leaves_tombstones_out() {
    let mut storage = SqliteStorage::open_memory().unwrap();
    for id in ["bd-001", "bd-002", "bd-003"] {
        storage
            .create_issue(&Issue::new(id, "T", Timestamp::from_unix(1, 0).unwrap()), "tester")
            .unwrap();
    }
    storage.delete_issue("bd-002", "tester", "gone").unwrap();
    let full: Vec<String> = storage.export_issues(true).unwrap().into_iter().map(|i| i.id).collect();
    assert_eq!(full, vec!["bd-001", "bd-003"]);
    let stale: Vec<String> = storage.export_issues(false).unwrap().into_iter().map(|i| i.id).collect();
    assert_eq!(stale, vec!["bd-001", "bd-002", "bd-003"]);
    let found = storage.get_full_issue("bd-002").unwrap().unwrap();
    assert_eq!(found.id, "bd-002");
    assert!(storage.get_full_issue("bd-404").unwrap().is_none());
}
