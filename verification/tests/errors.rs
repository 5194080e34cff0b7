use beads_rust::error::{invalid_argument, schema_error, BeadsError};
use beads_rust::storage::driver::FailureKind;
use beads_rust::storage::sqlite::{report_failure, storage_error, SqliteStorage};

fn all_errors() -> Vec<BeadsError> {
    vec![
        BeadsError::IssueNotFound { id: "bd-1".into() },
        BeadsError::IdCollision { id: "bd-1".into() },
        BeadsError::InvalidId { id: "x".into() },
        BeadsError::InvalidPrefix { prefix: "X".into() },
        BeadsError::InvalidArgument { message: "m".into() },
        BeadsError::CycleDetected { issue_id: "bd-1".into(), depends_on_id: "bd-2".into() },
        BeadsError::ParentExists { id: "bd-1".into() },
        BeadsError::HasDependents { id: "bd-1".into(), count: 2 },
        BeadsError::NotClosed { id: "bd-1".into() },
        BeadsError::InvalidTransition { from: "closed".into(), to: "open".into() },
        BeadsError::LockContention,
        BeadsError::StaleDatabase,
        BeadsError::ParseError { line: 12, message: "m".into() },
        BeadsError::IoError { message: "m".into() },
        BeadsError::SchemaError { message: "m".into() },
        BeadsError::Internal { message: "m".into() },
        BeadsError::AlreadyInitialized,
    ]
}

#[test]
fn every_error_has_its_code() {
    let codes: Vec<&str> = all_errors().iter().map(|e| e.code()).collect();
    assert_eq!(
        codes,
        vec![
            "IssueNotFound",
            "IdCollision",
            "InvalidId",
            "InvalidPrefix",
            "InvalidArgument",
            "CycleDetected",
            "ParentExists",
            "HasDependents",
            "NotClosed",
            "InvalidTransition",
            "LockContention",
            "StaleDatabase",
            "ParseError",
            "IoError",
            "SchemaError",
            "Internal",
            "AlreadyInitialized",
        ]
    );
}

#[test]
fn domain_errors_exit_with_1_and_machine_errors_with_2() {
    let codes: Vec<i32> = all_errors().iter().map(|e| e.exit_code()).collect();
    assert_eq!(codes, vec![1, 1, 1, 1, 1, 1, 1, 1, 1, 1, 2, 1, 1, 2, 2, 2, 1]);
}

#[test]
fn messages_say_what_went_wrong() {
    let messages: Vec<String> = all_errors().iter().map(|e| e.message()).collect();
    assert_eq!(messages[0], "issue not found: bd-1");
    assert_eq!(messages[1], "an issue with this id exists already: bd-1");
    assert_eq!(messages[5], "a dependency of bd-1 on bd-2 would close a cycle");
    assert_eq!(messages[7], "other issues depend on bd-1: 2");
    assert_eq!(messages[9], "an issue cannot go from closed to open");
    assert_eq!(messages[10], "the database is locked by another process");
    assert_eq!(messages[12], "line 12: m");
    assert_eq!(messages[15], "internal error: m");
    assert_eq!(messages[16], "the directory holds a workspace already");
}

#[test]
fn errors_name_their_issue_and_line() {
    let errors = all_errors();
    assert_eq!(errors[0].issue_id(), Some("bd-1"));
    assert_eq!(errors[5].issue_id(), Some("bd-1"));
    assert_eq!(errors[7].issue_id(), Some("bd-1"));
    assert_eq!(errors[4].issue_id(), None);
    assert_eq!(errors[12].issue_id(), None);
    assert_eq!(errors[12].line_number(), Some(12));
    assert_eq!(errors[0].line_number(), None);
    assert!(errors[11].hint().is_some());
    assert!(errors[10].hint().is_some());
    assert!(errors[7].hint().is_some());
    assert!(errors[16].hint().is_some());
    assert!(errors[0].hint().is_none());
}

#[test]
fn error_builders_keep_the_message() {
    assert!(matches!(schema_error("x"), BeadsError::SchemaError { message } if message == "x"));
    assert!(matches!(invalid_argument("x"), BeadsError::InvalidArgument { message } if message == "x"));
}

#[test]
fn failures_of_the_database_are_reported_by_kind() {
    assert!(matches!(report_failure(FailureKind::Busy, "m".into()), BeadsError::LockContention));
    assert!(matches!(report_failure(FailureKind::Locked, "m".into()), BeadsError::LockContention));
    assert!(matches!(report_failure(FailureKind::Io, "m".into()), BeadsError::IoError { message } if message == "m"));
    assert!(matches!(report_failure(FailureKind::CannotOpen, "m".into()), BeadsError::IoError { .. }));
    assert!(matches!(report_failure(FailureKind::NotADatabase, "m".into()), BeadsError::SchemaError { .. }));
    assert!(matches!(report_failure(FailureKind::Corrupt, "m".into()), BeadsError::SchemaError { .. }));
    assert!(matches!(report_failure(FailureKind::Constraint, "m".into()), BeadsError::Internal { .. }));
    assert!(matches!(report_failure(FailureKind::Other, "m".into()), BeadsError::Internal { message } if message == "m"));
}

#[test]
fn failure_of_sqlite_becomes_an_error_with_its_message() {
    let storage = SqliteStorage::open_memory().unwrap();
    let failure = storage.connection().execute("SELECT * FROM no_such_table", []).unwrap_err();
    match storage_error(failure) {
        BeadsError::Internal { message } => assert!(message.contains("no_such_table")),
        other => panic!("expected Internal, got {other:?}"),
    }
    let constraint = storage
        .connection()
        .execute("INSERT INTO issues (id) VALUES ('x')", [])
        .unwrap_err();
    assert!(matches!(storage_error(constraint), BeadsError::Internal { .. }));
    assert!(matches!(
        SqliteStorage::open("/nonexistent-directory/for/sure/beads.db"),
        Err(BeadsError::IoError { .. })
    ));
}
