use beads_rust::error::BeadsError;
use beads_rust::export::{export_text, flushed_text, fresh_lines, lines_of_export, pruned_text, read_export};
use beads_rust::hash::content_hash;
use beads_rust::jsonl::render_line;
use beads_rust::model::{Comment, Dependency, DependencyType, Issue, IssueType, Priority, Status};
use beads_rust::record::{issue_of_record, parse_line, record_of_line, CommentRecord, DependencyRecord, IssueRecord};
use beads_rust::sync::ExportLine;
use beads_rust::text::split;
use beads_rust::time::Timestamp;

fn at(secs: i64) -> Timestamp {
    Timestamp::from_unix(secs, 0).unwrap()
}

fn minimal(id: &str) -> IssueRecord {
    IssueRecord {
        id: id.to_string(),
        title: "Write spec".to_string(),
        description: None,
        design: None,
        acceptance_criteria: None,
        notes: None,
        status: None,
        priority: None,
        issue_type: None,
        assignee: None,
        owner: None,
        estimated_minutes: None,
        labels: vec![],
        dependencies: vec![],
        comments: vec![],
        created_at: "2015-05-15T00:00:00+00:00".to_string(),
        created_by: None,
        updated_at: "2015-05-15T00:02:00Z".to_string(),
        closed_at: None,
        close_reason: None,
        due_at: None,
        defer_until: None,
        external_ref: None,
        source_system: None,
        deleted_at: None,
        deleted_by: None,
        delete_reason: None,
        original_type: None,
        content_hash: None,
    }
}

fn full_issue() -> Issue {
    let mut issue = Issue::new("bd-002", "Implement \"it\"", at(1431648000));
    issue.description = Some("All of it\nand more".to_string());
    issue.design = Some("Boxes".to_string());
    issue.acceptance_criteria = Some("Works".to_string());
    issue.notes = Some("Later".to_string());
    issue.status = Status::Tombstone;
    issue.priority = Priority(0);
    issue.issue_type = IssueType::Bug;
    issue.assignee = Some("alice".to_string());
    issue.owner = Some("bob".to_string());
    issue.estimated_minutes = Some(90);
    issue.labels = vec!["backend".to_string(), "urgent".to_string()];
    issue.updated_at = Timestamp::from_unix(1431648120, 250_000_000).unwrap();
    issue.dependencies = vec![
        Dependency {
            issue_id: "bd-002".to_string(),
            depends_on_id: "bd-001".to_string(),
            dep_type: DependencyType::Blocks,
            created_at: issue.updated_at,
            created_by: None,
        },
        Dependency {
            issue_id: "bd-002".to_string(),
            depends_on_id: "bd-000".to_string(),
            dep_type: DependencyType::ParentChild,
            created_at: issue.updated_at,
            created_by: None,
        },
    ];
    issue.comments = vec![Comment {
        id: 7,
        issue_id: "bd-002".to_string(),
        author: "carol".to_string(),
        body: "looks good".to_string(),
        created_at: at(1431648060),
    }];
    issue.created_by = Some("dave".to_string());
    issue.closed_at = Some(at(1431648180));
    issue.close_reason = Some("done".to_string());
    issue.due_at = Some(at(1433116800));
    issue.defer_until = Some(at(1431734400));
    issue.external_ref = Some("GH-1".to_string());
    issue.source_system = Some("github".to_string());
    issue.deleted_at = Some(at(1431648240));
    issue.deleted_by = Some("erin".to_string());
    issue.delete_reason = Some("duplicate".to_string());
    issue.original_type = Some("bug".to_string());
    issue.content_hash = Some(content_hash(&issue));
    issue
}

#[test]
fn record_without_optional_members_gets_the_defaults() {
    let issue = issue_of_record(&minimal("bd-001")).unwrap();
    assert_eq!(issue.id, "bd-001");
    assert_eq!(issue.title, "Write spec");
    assert_eq!(issue.status, Status::Open);
    assert_eq!(issue.priority, Priority(2));
    assert_eq!(issue.issue_type, IssueType::Task);
    assert_eq!(issue.created_at, at(1431648000));
    assert_eq!(issue.updated_at, at(1431648120));
    assert!(issue.labels.is_empty() && issue.dependencies.is_empty() && issue.comments.is_empty());
    assert!(issue.description.is_none() && issue.closed_at.is_none() && issue.estimated_minutes.is_none());
    assert!(!issue.is_template && !issue.pinned && !issue.ephemeral);
}

#[test]
fn record_members_are_checked() {
    let read = |change: &dyn Fn(&mut IssueRecord)| {
        let mut record = minimal("bd-001");
        change(&mut record);
        issue_of_record(&record)
    };
    assert!(read(&|r| r.created_at = "yesterday".to_string()).is_none());
    assert!(read(&|r| r.updated_at = String::new()).is_none());
    assert!(read(&|r| r.status = Some("done".to_string())).is_none());
    assert_eq!(read(&|r| r.status = Some("in_progress".to_string())).unwrap().status, Status::InProgress);
    assert!(read(&|r| r.priority = Some(5)).is_none());
    assert!(read(&|r| r.priority = Some(-1)).is_none());
    assert_eq!(read(&|r| r.priority = Some(0)).unwrap().priority, Priority(0));
    assert_eq!(read(&|r| r.priority = Some(4)).unwrap().priority, Priority(4));
    assert!(read(&|r| r.issue_type = Some("story".to_string())).is_none());
    assert_eq!(read(&|r| r.issue_type = Some("epic".to_string())).unwrap().issue_type, IssueType::Epic);
    assert!(read(&|r| r.estimated_minutes = Some(1 << 31)).is_none());
    assert!(read(&|r| r.estimated_minutes = Some(-(1 << 31) - 1)).is_none());
    assert_eq!(read(&|r| r.estimated_minutes = Some((1 << 31) - 1)).unwrap().estimated_minutes, Some(i32::MAX));
    assert_eq!(read(&|r| r.estimated_minutes = Some(-(1 << 31))).unwrap().estimated_minutes, Some(i32::MIN));
    assert!(read(&|r| r.closed_at = Some("soon".to_string())).is_none());
    assert!(read(&|r| r.due_at = Some("soon".to_string())).is_none());
    assert!(read(&|r| r.defer_until = Some("soon".to_string())).is_none());
    assert!(read(&|r| r.deleted_at = Some("soon".to_string())).is_none());
    assert_eq!(
        read(&|r| r.due_at = Some("2015-06-01T02:00:00+02:00".to_string())).unwrap().due_at,
        Some(at(1433116800))
    );
    assert!(read(&|r| r.dependencies = vec![DependencyRecord {
        id: "bd-000".to_string(),
        dep_type: Some("needs".to_string())
    }])
    .is_none());
    assert!(read(&|r| r.comments = vec![CommentRecord {
        id: None,
        author: "a".to_string(),
        text: "t".to_string(),
        created_at: "then".to_string()
    }])
    .is_none());
}

#[test]
fn dependencies_and_comments_of_a_record_belong_to_its_issue() {
    let mut record = minimal("bd-009");
    record.dependencies = vec![
        DependencyRecord { id: "bd-001".to_string(), dep_type: None },
        DependencyRecord { id: "bd-002".to_string(), dep_type: Some("discovered-from".to_string()) },
    ];
    record.comments = vec![
        CommentRecord {
            id: None,
            author: "carol".to_string(),
            text: "first".to_string(),
            created_at: "2015-05-15T00:01:00Z".to_string(),
        },
        CommentRecord {
            id: Some(12),
            author: "dave".to_string(),
            text: "second".to_string(),
            created_at: "2015-05-15T00:03:00Z".to_string(),
        },
    ];
    let issue = issue_of_record(&record).unwrap();
    assert_eq!(issue.dependencies.len(), 2);
    assert_eq!(issue.dependencies[0].issue_id, "bd-009");
    assert_eq!(issue.dependencies[0].depends_on_id, "bd-001");
    assert_eq!(issue.dependencies[0].dep_type, DependencyType::Blocks);
    assert_eq!(issue.dependencies[0].created_at, at(1431648120));
    assert_eq!(issue.dependencies[1].depends_on_id, "bd-002");
    assert_eq!(issue.dependencies[1].dep_type, DependencyType::DiscoveredFrom);
    assert_eq!(issue.comments.len(), 2);
    assert_eq!((issue.comments[0].id, issue.comments[0].issue_id.as_str()), (0, "bd-009"));
    assert_eq!(issue.comments[0].body, "first");
    assert_eq!(issue.comments[0].created_at, at(1431648060));
    assert_eq!((issue.comments[1].id, issue.comments[1].author.as_str()), (12, "dave"));
}

#[test]
fn line_is_read_member_by_member() {
    let record = record_of_line(
        r#"{"id":"bd-1","title":"T","priority":3,"type":"bug","labels":["a","b"],"unknown":{"x":1},"notes":null,"dependencies":[{"id":"bd-0"}],"comments":[{"author":"a","text":"t","created_at":"c"}],"created_at":"x","updated_at":"y","estimated_minutes":15}"#,
    )
    .unwrap();
    assert_eq!(record.id, "bd-1");
    assert_eq!(record.title, "T");
    assert_eq!(record.priority, Some(3));
    assert_eq!(record.issue_type.as_deref(), Some("bug"));
    assert_eq!(record.status, None);
    assert_eq!(record.notes, None);
    assert_eq!(record.labels, vec!["a", "b"]);
    assert_eq!(record.estimated_minutes, Some(15));
    assert_eq!(record.dependencies.len(), 1);
    assert_eq!(record.dependencies[0].id, "bd-0");
    assert_eq!(record.dependencies[0].dep_type, None);
    assert_eq!(record.comments.len(), 1);
    assert_eq!(record.comments[0].id, None);
    assert_eq!(record.comments[0].created_at, "c");
    assert_eq!((record.created_at.as_str(), record.updated_at.as_str()), ("x", "y"));
}

#[test]
fn malformed_lines_are_no_records() {
    let stamp = r#""created_at":"2015-05-15T00:00:00Z","updated_at":"2015-05-15T00:00:00Z""#;
    for line in [
        String::new(),
        "not json".to_string(),
        "[]".to_string(),
        "42".to_string(),
        format!(r#"{{"title":"no id",{stamp}}}"#),
        format!(r#"{{"id":"bd-1",{stamp}}}"#),
        format!(r#"{{"id":7,"title":"T",{stamp}}}"#),
        r#"{"id":"bd-1","title":"T","updated_at":"2015-05-15T00:00:00Z"}"#.to_string(),
        r#"{"id":"bd-1","title":"T","created_at":"2015-05-15T00:00:00Z"}"#.to_string(),
        format!(r#"{{"id":"bd-1","title":"T","priority":"high",{stamp}}}"#),
        format!(r#"{{"id":"bd-1","title":"T","priority":2.5,{stamp}}}"#),
        format!(r#"{{"id":"bd-1","title":"T","labels":"a",{stamp}}}"#),
        format!(r#"{{"id":"bd-1","title":"T","labels":[1],{stamp}}}"#),
        format!(r#"{{"id":"bd-1","title":"T","dependencies":[{{"type":"blocks"}}],{stamp}}}"#),
        format!(r#"{{"id":"bd-1","title":"T","comments":[{{"author":"a"}}],{stamp}}}"#),
        format!(r#"{{"id":"bd-1","title":"T","description":5,{stamp}}}"#),
        format!(r#"{{"id":"bd-1","title":"T",{stamp}"#),
    ] {
        assert!(record_of_line(&line).is_none(), "{line}");
        assert!(parse_line(&line).is_none(), "{line}");
    }
    let good = format!(r#"{{"id":"bd-1","title":"T",{stamp}}}"#);
    assert!(parse_line(&good).is_some());
    let bad_status = format!(r#"{{"id":"bd-1","title":"T","status":"done",{stamp}}}"#);
    assert!(record_of_line(&bad_status).is_some());
    assert!(parse_line(&bad_status).is_none());
}

#[test]
fn written_line_reads_back_as_the_same_issue() {
    let issue = full_issue();
    let line = render_line(&issue);
    let back = parse_line(&line).unwrap();
    assert_eq!(render_line(&back), line);
    assert_eq!(content_hash(&back), content_hash(&issue));
    assert_eq!(back.content_hash, issue.content_hash);
    assert_eq!(back.id, issue.id);
    assert_eq!(back.title, issue.title);
    assert_eq!(back.description, issue.description);
    assert_eq!(back.status, Status::Tombstone);
    assert_eq!(back.labels, issue.labels);
    assert_eq!(back.updated_at, issue.updated_at);
    assert_eq!(back.created_at, issue.created_at);
    assert_eq!(back.closed_at, issue.closed_at);
    assert_eq!(back.deleted_at, issue.deleted_at);
    assert_eq!(back.dependencies.len(), 2);
    for (a, b) in back.dependencies.iter().zip(&issue.dependencies) {
        assert_eq!(
            (&a.issue_id, &a.depends_on_id, a.dep_type, a.created_at),
            (&b.issue_id, &b.depends_on_id, b.dep_type, b.created_at)
        );
    }
    assert_eq!(back.comments.len(), 1);
    assert_eq!(back.comments[0].id, 7);
    assert_eq!(back.comments[0].body, "looks good");
    assert_eq!(back.comments[0].created_at, at(1431648060));

    let plain = Issue::new("bd-001", "Write spec", at(1431648000));
    let again = parse_line(&render_line(&plain)).unwrap();
    assert_eq!(render_line(&again), render_line(&plain));
    assert_eq!(content_hash(&again), content_hash(&plain));
}

#[test]
fn text_is_split_at_every_separator() {
    assert_eq!(split("a,b,c", ','), vec!["a", "b", "c"]);
    assert_eq!(split("", ','), vec![""]);
    assert_eq!(split(",", ','), vec!["", ""]);
    assert_eq!(split("a,,b,", ','), vec!["a", "", "b", ""]);
    assert_eq!(split("no separator", ','), vec!["no separator"]);
    assert_eq!(split("é\nü\n", '\n'), vec!["é", "ü", ""]);
}

fn line_of(id: &str, title: &str) -> String {
    render_line(&Issue::new(id, title, at(1431648000)))
}

#[test]
fn export_is_read_line_by_line() {
    let text = format!("{}\n\n{}\r\n   \n{}\n", line_of("bd-001", "A"), line_of("bd-002", "B"), line_of("bd-003", "C"));
    let reading = read_export(&text, false).unwrap();
    let ids: Vec<&str> = reading.issues.iter().map(|i| i.id.as_str()).collect();
    assert_eq!(ids, vec!["bd-001", "bd-002", "bd-003"]);
    assert_eq!(reading.malformed, 0);
    let empty = read_export("", false).unwrap();
    assert!(empty.issues.is_empty());
    assert_eq!(empty.malformed, 0);
}

#[test]
fn strict_reading_stops_at_the_malformed_line() {
    let text = format!("{}\n\nnot json\n{}\n{{}}\n", line_of("bd-001", "A"), line_of("bd-002", "B"));
    match read_export(&text, false) {
        Err(BeadsError::ParseError { line, .. }) => assert_eq!(line, 3),
        other => panic!("{other:?}"),
    }
    let reading = read_export(&text, true).unwrap();
    let ids: Vec<&str> = reading.issues.iter().map(|i| i.id.as_str()).collect();
    assert_eq!(ids, vec!["bd-001", "bd-002"]);
    assert_eq!(reading.malformed, 2);
}

#[test]
fn second_line_of_an_issue_is_malformed() {
    let text = format!("{}\n{}\n{}\n", line_of("bd-001", "A"), line_of("bd-002", "B"), line_of("bd-001", "Again"));
    match read_export(&text, false) {
        Err(BeadsError::ParseError { line, .. }) => assert_eq!(line, 3),
        other => panic!("{other:?}"),
    }
    let reading = read_export(&text, true).unwrap();
    assert_eq!(reading.issues.len(), 2);
    assert_eq!(reading.issues[0].title, "A");
    assert_eq!(reading.malformed, 1);
}

#[test]
fn export_is_written_with_a_line_feed_after_each_line() {
    let lines = vec![
        ExportLine { id: "a".to_string(), text: "{1}".to_string() },
        ExportLine { id: "b".to_string(), text: "{2}".to_string() },
    ];
    assert_eq!(export_text(&lines), "{1}\n{2}\n");
    assert_eq!(export_text(&vec![]), "");
    let issues = vec![Issue::new("bd-001", "A", at(1431648000)), Issue::new("bd-002", "B", at(1431648000))];
    let fresh = fresh_lines(&issues);
    assert_eq!(fresh.len(), 2);
    assert_eq!(fresh[1].id, "bd-002");
    assert_eq!(fresh[1].text, line_of("bd-002", "B"));
}

#[test]
fn existing_lines_are_found_under_their_ids() {
    let text = format!("{}\n\nnot json\n{}\n", line_of("bd-001", "A"), line_of("bd-002", "B"));
    let lines = lines_of_export(&text);
    let ids: Vec<&str> = lines.iter().map(|l| l.id.as_str()).collect();
    assert_eq!(ids, vec!["bd-001", "", "bd-002"]);
    assert_eq!(lines[0].text, line_of("bd-001", "A"));
    assert_eq!(lines[1].text, "not json");
    assert!(lines_of_export("\n\n").is_empty());
}

#[test]
fn flush_replaces_lines_in_place_and_appends_new_ones() {
    let existing = format!("{}\n{}\n", line_of("bd-001", "A"), line_of("bd-002", "B"));
    let changed = vec![Issue::new("bd-003", "C", at(1431648000)), Issue::new("bd-001", "A2", at(1431648000))];
    assert_eq!(
        flushed_text(Some(&existing), &changed, false),
        format!("{}\n{}\n{}\n", line_of("bd-001", "A2"), line_of("bd-002", "B"), line_of("bd-003", "C"))
    );
    assert_eq!(
        flushed_text(Some(&existing), &changed, true),
        format!("{}\n{}\n", line_of("bd-003", "C"), line_of("bd-001", "A2"))
    );
    assert_eq!(
        flushed_text(None, &changed, false),
        format!("{}\n{}\n", line_of("bd-003", "C"), line_of("bd-001", "A2"))
    );
    assert_eq!(flushed_text(Some(&existing), &vec![], false), existing);
    assert_eq!(flushed_text(None, &vec![], true), "");
    let reading = read_export(&flushed_text(Some(&existing), &changed, false), false).unwrap();
    assert_eq!(reading.issues.len(), 3);
    assert_eq!(reading.issues[0].title, "A2");
}

#[test]
fn pruning_takes_the_lines_of_deleted_issues_out() {
    let existing = format!("{}\n{}\n\n{}\n", line_of("bd-001", "A"), line_of("bd-002", "B"), line_of("bd-003", "C"));
    let gone = vec!["bd-002".to_string(), "bd-404".to_string()];
    assert_eq!(
        pruned_text(&existing, &gone),
        format!("{}\n{}\n", line_of("bd-001", "A"), line_of("bd-003", "C"))
    );
    assert_eq!(pruned_text(&existing, &vec![]), format!("{}\n{}\n{}\n", line_of("bd-001", "A"), line_of("bd-002", "B"), line_of("bd-003", "C")));
    assert_eq!(pruned_text("", &gone), "");
}
