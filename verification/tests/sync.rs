use beads_rust::error::BeadsError;
use beads_rust::model::{Issue, Status};
use beads_rust::sync::{
    allow_write, check_freshness, check_lines, decide_import, tally, Freshness, ImportAction,
    ImportCounts,
};
use beads_rust::time::Timestamp;

fn issue(title: &str, status: Status) -> Issue {
    let mut issue = Issue::new("bd-001", title, Timestamp::from_unix(0, 0).unwrap());
    issue.status = status;
    issue
}

#[test]
fn line_without_a_local_issue_is_inserted() {
    assert_eq!(decide_import(None, &issue("a", Status::Open)), ImportAction::Insert);
    assert_eq!(decide_import(None, &issue("a", Status::Tombstone)), ImportAction::Insert);
}

#[test]
fn line_with_the_same_hash_is_skipped() {
    let held = issue("a", Status::Open);
    let mut incoming = issue("a", Status::Open);
    incoming.updated_at = Timestamp::from_unix(99, 0).unwrap();
    assert_eq!(decide_import(Some(&held), &incoming), ImportAction::Skip);
    assert_eq!(decide_import(Some(&incoming), &incoming), ImportAction::Skip);
}

#[test]
fn line_with_another_hash_updates() {
    let held = issue("a", Status::Open);
    assert_eq!(decide_import(Some(&held), &issue("b", Status::Open)), ImportAction::Update);
    assert_eq!(decide_import(Some(&held), &issue("a", Status::Closed)), ImportAction::Update);
}

#[test]
fn living_line_brings_a_tombstone_back() {
    let held = issue("a", Status::Tombstone);
    assert_eq!(decide_import(Some(&held), &issue("a", Status::Open)), ImportAction::Resurrect);
    assert_eq!(decide_import(Some(&held), &issue("b", Status::Closed)), ImportAction::Resurrect);
}

#[test]
fn tombstone_line_deletes_a_living_issue() {
    let held = issue("a", Status::Open);
    assert_eq!(
        decide_import(Some(&held), &issue("a", Status::Tombstone)),
        ImportAction::ApplyTombstone
    );
}

#[test]
fn two_tombstones_are_compared_by_hash() {
    let held = issue("a", Status::Tombstone);
    assert_eq!(decide_import(Some(&held), &issue("a", Status::Tombstone)), ImportAction::Skip);
    assert_eq!(decide_import(Some(&held), &issue("b", Status::Tombstone)), ImportAction::Update);
}

#[test]
fn actions_are_counted() {
    let actions = vec![
        ImportAction::Insert,
        ImportAction::Skip,
        ImportAction::Update,
        ImportAction::Insert,
        ImportAction::Resurrect,
        ImportAction::ApplyTombstone,
        ImportAction::Skip,
        ImportAction::Skip,
    ];
    assert_eq!(tally(&actions), ImportCounts { inserted: 2, updated: 3, skipped: 3 });
    assert_eq!(tally(&vec![]), ImportCounts { inserted: 0, updated: 0, skipped: 0 });
}

#[test]
fn strict_import_stops_at_the_first_malformed_line() {
    match check_lines(&vec![true, true, false, true, false], false) {
        Err(BeadsError::ParseError { line, .. }) => assert_eq!(line, 3),
        other => panic!("expected ParseError, got {other:?}"),
    }
    match check_lines(&vec![false], false) {
        Err(BeadsError::ParseError { line, .. }) => assert_eq!(line, 1),
        other => panic!("expected ParseError, got {other:?}"),
    }
    assert_eq!(check_lines(&vec![true, true], false).unwrap(), 0);
    assert_eq!(check_lines(&vec![], false).unwrap(), 0);
}

#[test]
fn lenient_import_counts_the_malformed_lines() {
    assert_eq!(check_lines(&vec![true, true, false, true, false], true).unwrap(), 2);
    assert_eq!(check_lines(&vec![true], true).unwrap(), 0);
    assert_eq!(check_lines(&vec![false, false, false], true).unwrap(), 3);
}

#[test]
fn newer_export_is_imported_unless_changes_are_pending() {
    assert_eq!(check_freshness(false, false), Freshness::Fresh);
    assert_eq!(check_freshness(false, true), Freshness::Fresh);
    assert_eq!(check_freshness(true, false), Freshness::AutoImport);
    assert_eq!(check_freshness(true, true), Freshness::Stale);
}

#[test]
fn stale_database_needs_leave_to_write() {
    assert!(matches!(allow_write(Freshness::Stale, false), Err(BeadsError::StaleDatabase)));
    assert!(allow_write(Freshness::Stale, true).is_ok());
    assert!(allow_write(Freshness::Fresh, false).is_ok());
    assert!(allow_write(Freshness::AutoImport, false).is_ok());
}
