use beads_rust::error::BeadsError;
use beads_rust::util::{
    check_init, db_path, export_path, join_path, last_touched_id_in, last_touched_path, resolve_cache_dir,
    BEADS_CACHE_DIR_ENV, DB_EXTENSION, EXPORT_EXTENSION,
};

#[test]
fn cache_dir_is_the_override_unless_empty() {
    assert_eq!(resolve_cache_dir("/repo/.beads", None), "/repo/.beads");
    assert_eq!(resolve_cache_dir("/repo/.beads", Some("")), "/repo/.beads");
    assert_eq!(resolve_cache_dir("/repo/.beads", Some("/tmp/cache")), "/tmp/cache");
    assert_eq!(BEADS_CACHE_DIR_ENV, "BEADS_CACHE_DIR");
}

#[test]
fn paths_are_joined_with_one_slash() {
    assert_eq!(join_path("/repo/.beads", "beads.db"), "/repo/.beads/beads.db");
    assert_eq!(join_path("/repo/.beads/", "beads.db"), "/repo/.beads/beads.db");
    assert_eq!(join_path("", "beads.db"), "beads.db");
    assert_eq!(join_path("/", "beads.db"), "/beads.db");
}

#[test]
fn transient_files_live_in_the_cache_dir() {
    assert_eq!(last_touched_path("/repo/.beads", None), "/repo/.beads/last-touched");
    assert_eq!(last_touched_path("/repo/.beads", Some("/tmp/cache")), "/tmp/cache/last-touched");
    assert_eq!(db_path("/repo/.beads", None, "bd"), "/repo/.beads/bd.db");
    assert_eq!(db_path("/repo/.beads", Some("/fast"), "bd"), "/fast/bd.db");
    assert_eq!(db_path("/repo/.beads", Some(""), "br"), "/repo/.beads/br.db");
    assert_eq!(db_path("/repo/.beads/", None, "proj9"), "/repo/.beads/proj9.db");
    assert_eq!(export_path("/repo/.beads", "bd"), "/repo/.beads/bd.jsonl");
    assert_eq!(export_path("/repo/.beads/", "br"), "/repo/.beads/br.jsonl");
    assert_eq!((DB_EXTENSION, EXPORT_EXTENSION), (".db", ".jsonl"));
}

#[test]
fn last_touched_id_is_the_first_line_trimmed() {
    assert_eq!(last_touched_id_in("bd-abc123\n"), "bd-abc123");
    assert_eq!(last_touched_id_in("  bd-abc123  \r\nbd-other\n"), "bd-abc123");
    assert_eq!(last_touched_id_in("bd-abc123"), "bd-abc123");
    assert_eq!(last_touched_id_in(""), "");
    assert_eq!(last_touched_id_in("\nbd-abc123"), "");
    assert_eq!(last_touched_id_in("   \n"), "");
}

#[test]
fn a_workspace_is_made_once_unless_forced() {
    assert!(matches!(check_init(true, false), Err(BeadsError::AlreadyInitialized)));
    assert!(check_init(true, true).is_ok());
    assert!(check_init(false, false).is_ok());
    assert!(check_init(false, true).is_ok());
}
