use beads_rust::history::{
    backup_name, backups_in, latest_backup, list_backups, parse_backup_name, plan_backup,
    prune_backups, read_backup_time, should_backup, sort_newest_first, BackupEntry, HistoryConfig,
    HISTORY_DIR,
};
use beads_rust::time::Timestamp;

fn at(secs: i64) -> Timestamp {
    Timestamp::from_unix(secs, 0).unwrap()
}

fn entries(times: &[i64]) -> Vec<BackupEntry> {
    times
        .iter()
        .map(|t| BackupEntry { name: format!("issues.{t}.jsonl"), taken_at: at(*t) })
        .collect()
}

const DAY: i64 = 86400;

#[test]
fn history_defaults() {
    let config = HistoryConfig::default();
    assert!(config.enabled);
    assert_eq!(config.max_count, 100);
    assert_eq!(config.max_age_days, 30);
    assert_eq!(HISTORY_DIR, ".br_history");
}

#[test]
fn backup_is_taken_unless_disabled_missing_or_unchanged() {
    let on = HistoryConfig::default();
    let off = HistoryConfig { enabled: false, ..on };
    assert!(should_backup(&on, true, false));
    assert!(!should_backup(&on, true, true));
    assert!(!should_backup(&on, false, false));
    assert!(!should_backup(&off, true, false));
}

#[test]
fn backup_is_named_after_its_time() {
    assert_eq!(
        backup_name("issues", "jsonl", &at(1431648000)).as_deref(),
        Some("issues.20150515_000000.jsonl")
    );
    assert_eq!(
        backup_name("bd", "jsonl", &at(1700000000)).as_deref(),
        Some("bd.20231114_221320.jsonl")
    );
}

#[test]
fn time_is_read_from_the_name() {
    assert_eq!(parse_backup_name("issues.20150515_000000.jsonl", "issues"), Some(at(1431648000)));
    assert_eq!(parse_backup_name("bd.20231114_221320.jsonl", "bd"), Some(at(1700000000)));
    let name = backup_name("issues", "jsonl", &at(1234567890)).unwrap();
    assert_eq!(parse_backup_name(&name, "issues"), Some(at(1234567890)));
}

#[test]
fn names_of_other_files_are_ignored() {
    assert_eq!(parse_backup_name("issues.20150515_000000.jsonl", "other"), None);
    assert_eq!(parse_backup_name("issues.20150515_000000.jsonl", "issue"), None);
    assert_eq!(parse_backup_name("issues.jsonl", "issues"), None);
    assert_eq!(parse_backup_name("issues.20150515_000000", "issues"), None);
    assert_eq!(parse_backup_name("issues.20150515-000000.jsonl", "issues"), None);
    assert_eq!(parse_backup_name("issues.yesterday_evening.jsonl", "issues"), None);
    assert_eq!(parse_backup_name("issues.20151345_000000.jsonl", "issues"), None);
    assert_eq!(parse_backup_name("", "issues"), None);
}

#[test]
fn old_backups_are_thrown_away() {
    let now = at(100 * DAY);
    let list = entries(&[100 * DAY - 31 * DAY, 100 * DAY - 30 * DAY, 100 * DAY - 30 * DAY - 1, 99 * DAY]);
    let config = HistoryConfig { enabled: true, max_count: 100, max_age_days: 30 };
    assert_eq!(prune_backups(&list, &config, &now), vec![true, false, true, false]);
}

#[test]
fn only_the_newest_are_kept() {
    let now = at(1000);
    let list = entries(&[10, 50, 30, 40, 20]);
    let config = HistoryConfig { enabled: true, max_count: 3, max_age_days: 30 };
    assert_eq!(prune_backups(&list, &config, &now), vec![true, false, false, false, true]);
    let kept = prune_backups(&list, &config, &now).iter().filter(|d| !**d).count();
    assert_eq!(kept, 3);
}

#[test]
fn ties_are_broken_by_position() {
    let now = at(1000);
    let list = entries(&[5, 5, 5, 5]);
    let config = HistoryConfig { enabled: true, max_count: 2, max_age_days: 30 };
    assert_eq!(prune_backups(&list, &config, &now), vec![true, true, false, false]);
}

#[test]
fn expired_backups_do_not_take_room() {
    let now = at(100 * DAY);
    let list = entries(&[99 * DAY, 10 * DAY, 98 * DAY, 20 * DAY, 97 * DAY]);
    let config = HistoryConfig { enabled: true, max_count: 2, max_age_days: 30 };
    assert_eq!(prune_backups(&list, &config, &now), vec![false, true, false, true, true]);
}

#[test]
fn no_room_keeps_nothing_and_much_room_keeps_all() {
    let now = at(1000);
    let list = entries(&[10, 20, 30]);
    let none = HistoryConfig { enabled: true, max_count: 0, max_age_days: 30 };
    assert_eq!(prune_backups(&list, &none, &now), vec![true, true, true]);
    let all = HistoryConfig { enabled: true, max_count: 3, max_age_days: 30 };
    assert_eq!(prune_backups(&list, &all, &now), vec![false, false, false]);
    assert!(prune_backups(&vec![], &all, &now).is_empty());
}

/// A directory of backups: the names of its files, each with its bytes.
struct HistoryDir {
    files: Vec<(String, Vec<u8>)>,
}

impl HistoryDir {
    fn new() -> Self {
        HistoryDir { files: Vec::new() }
    }

    fn with_names(names: &[String]) -> Self {
        HistoryDir { files: names.iter().map(|n| (n.clone(), b"data".to_vec())).collect() }
    }

    fn names(&self) -> Vec<String> {
        let mut names: Vec<String> = self.files.iter().map(|f| f.0.clone()).collect();
        names.sort();
        names
    }

    fn bytes(&self, name: &str) -> Option<&Vec<u8>> {
        self.files.iter().find(|f| f.0 == name).map(|f| &f.1)
    }

    /// What happens before an export replaces the file `<stem>.jsonl` that
    /// holds `target`: the plan of the library, carried out.
    fn backup_before_export(&mut self, config: &HistoryConfig, stem: &str, target: Option<&[u8]>, now: Timestamp) {
        let names = self.names();
        let existing = backups_in(&names, Some(&format!("{stem}.")));
        let same_as_latest = match (latest_backup(&existing), target) {
            (Some(at), Some(current)) => self.bytes(&existing[at].name).map(|old| old == current).unwrap_or(false),
            _ => false,
        };
        let plan = plan_backup(&names, config, stem, "jsonl", target.is_some(), same_as_latest, &now);
        if let Some(name) = plan.create {
            self.files.retain(|f| f.0 != name);
            self.files.push((name, target.unwrap().to_vec()));
        }
        for name in plan.remove {
            self.files.retain(|f| f.0 != name);
        }
    }

    /// Throws away what the rule marks, and says how many backups went.
    fn prune(&mut self, keep: usize, older_than_days: Option<u32>, now: Timestamp) -> usize {
        let entries = list_backups(&self.names(), None);
        let config = HistoryConfig { enabled: true, max_count: keep, max_age_days: older_than_days.unwrap_or(u32::MAX) };
        let flags = prune_backups(&entries, &config, &now);
        let mut deleted = 0;
        for (entry, gone) in entries.iter().zip(flags) {
            if gone {
                self.files.retain(|f| f.0 != entry.name);
                deleted += 1;
            }
        }
        deleted
    }
}

const NOW: i64 = 1_700_000_000;
const HOUR: i64 = 3600;

fn stamped(stem: &str, taken_at: i64) -> String {
    backup_name(stem, "jsonl", &at(taken_at)).unwrap()
}

#[test]
fn disabled_config_skips_backup() {
    let mut dir = HistoryDir::new();
    let config = HistoryConfig { enabled: false, max_count: 100, max_age_days: 30 };

    dir.backup_before_export(&config, "issues", Some(b"some content"), at(NOW));

    assert!(dir.files.is_empty(), "disabled config should not create a backup");
    let plan = plan_backup(&vec![stamped("issues", NOW - 90 * DAY)], &config, "issues", "jsonl", true, false, &at(NOW));
    assert!(plan.create.is_none() && plan.remove.is_empty());
}

#[test]
fn nonexistent_target_skips_backup() {
    let mut dir = HistoryDir::new();
    let config = HistoryConfig::default();

    dir.backup_before_export(&config, "does_not_exist", None, at(NOW));

    assert!(dir.files.is_empty());
}

#[test]
fn changed_content_creates_new_backup() {
    let mut dir = HistoryDir::new();
    let config = HistoryConfig::default();

    dir.backup_before_export(&config, "issues", Some(b"version 1"), at(NOW));
    dir.backup_before_export(&config, "issues", Some(b"version 2"), at(NOW + 1));

    let backups = list_backups(&dir.names(), None);
    assert_eq!(backups.len(), 2, "changed content should create a second backup");
}

#[test]
fn identical_content_is_deduplicated() {
    let mut dir = HistoryDir::new();
    let config = HistoryConfig::default();

    dir.backup_before_export(&config, "issues", Some(b"identical content"), at(NOW));
    dir.backup_before_export(&config, "issues", Some(b"identical content"), at(NOW + 1));
    dir.backup_before_export(&config, "issues", Some(b"identical content"), at(NOW + 2));

    let backups = list_backups(&dir.names(), None);
    assert_eq!(backups.len(), 1, "identical content should be deduplicated to one backup");
    assert_eq!(backups[0].name, stamped("issues", NOW));
}

#[test]
fn rotation_by_count_keeps_newest() {
    let mut dir = HistoryDir::new();
    let config = HistoryConfig { enabled: true, max_count: 2, max_age_days: 365 };

    for i in 0..4 {
        dir.backup_before_export(&config, "issues", Some(format!("version {i}").as_bytes()), at(NOW + i));
    }

    let backups = list_backups(&dir.names(), None);
    assert_eq!(backups.len(), 2, "rotation should keep only 2 newest");
    assert!(backups[0].taken_at.unix_seconds() > backups[1].taken_at.unix_seconds());
    assert_eq!(backups[0].taken_at, at(NOW + 3));
    assert_eq!(backups[1].taken_at, at(NOW + 2));
    assert_eq!(dir.bytes(&backups[0].name).unwrap(), b"version 3");
}

#[test]
fn rotation_by_age_deletes_old() {
    let recent = stamped("issues", NOW - HOUR);
    let old = stamped("issues", NOW - 40 * DAY);
    let mut dir = HistoryDir::with_names(&[recent.clone(), old]);

    let deleted = dir.prune(100, Some(30), at(NOW));
    assert_eq!(deleted, 1, "should delete 1 old backup");

    let remaining = list_backups(&dir.names(), None);
    assert_eq!(remaining.len(), 1);
    assert_eq!(remaining[0].name, recent, "recent backup should remain");
}

#[test]
fn mixed_stems_rotate_independently() {
    let mut dir = HistoryDir::new();
    let config = HistoryConfig { enabled: true, max_count: 1, max_age_days: 365 };

    dir.backup_before_export(&config, "issues", Some(b"issues v1"), at(NOW));
    dir.backup_before_export(&config, "issues", Some(b"issues v2"), at(NOW + 1));
    dir.backup_before_export(&config, "archive", Some(b"archive v1"), at(NOW + 2));
    dir.backup_before_export(&config, "archive", Some(b"archive v2"), at(NOW + 3));

    let issues_backups = list_backups(&dir.names(), Some("issues."));
    let archive_backups = list_backups(&dir.names(), Some("archive."));
    assert_eq!(issues_backups.len(), 1, "issues should have exactly 1 backup after rotation");
    assert_eq!(archive_backups.len(), 1, "archive should have exactly 1 backup after rotation");
    assert_eq!(dir.bytes(&issues_backups[0].name).unwrap(), b"issues v2");
    assert_eq!(dir.bytes(&archive_backups[0].name).unwrap(), b"archive v2");
    assert_eq!(list_backups(&dir.names(), None).len(), 2);
}

#[test]
fn list_backups_prefix_filter() {
    let names = vec![stamped("issues", NOW), stamped("archive", NOW), stamped("tasks", NOW)];

    assert_eq!(list_backups(&names, None).len(), 3);

    let filtered = list_backups(&names, Some("issues."));
    assert_eq!(filtered.len(), 1);
    assert!(filtered[0].name.contains("issues."));

    assert_eq!(list_backups(&names, Some("archive.")).len(), 1);
    assert_eq!(list_backups(&names, Some("nonexistent.")).len(), 0);
    assert_eq!(backups_in(&names, Some("tasks.")).len(), 1);
}

#[test]
fn list_backups_nonexistent_dir_returns_empty() {
    let backups = list_backups(&vec![], None);
    assert!(backups.is_empty());
    assert_eq!(latest_backup(&backups), None);
}

#[test]
fn list_backups_skips_invalid_filenames() {
    let names = vec![
        stamped("issues", NOW),
        "issues.not_a_timestamp.jsonl".to_string(),
        "random_file.txt".to_string(),
        "issues.jsonl".to_string(),
    ];

    let backups = list_backups(&names, None);
    assert_eq!(backups.len(), 1, "should only list validly-timestamped backup files");
    assert_eq!(read_backup_time("issues.not_a_timestamp.jsonl"), None);
    assert_eq!(read_backup_time("random_file.txt"), None);
    assert_eq!(read_backup_time("issues.jsonl"), None);
    assert_eq!(read_backup_time(".20231114_221320.jsonl"), None);
    assert_eq!(read_backup_time("a.20231114_221320.jsonl"), Some(at(NOW)));
    assert_eq!(read_backup_time("my.issues.20231114_221320.jsonl"), Some(at(NOW)));
    assert_eq!(read_backup_time("issues.20231114_221320"), None);
}

#[test]
fn prune_zero_keep_deletes_all() {
    let names: Vec<String> = (0..5).map(|i| stamped("issues", NOW - i * HOUR)).collect();
    let mut dir = HistoryDir::with_names(&names);
    assert_eq!(list_backups(&dir.names(), None).len(), 5);

    let deleted = dir.prune(0, None, at(NOW));
    assert_eq!(deleted, 5);
    assert!(list_backups(&dir.names(), None).is_empty());
}

#[test]
fn prune_empty_dir_is_noop() {
    let mut dir = HistoryDir::new();
    let deleted = dir.prune(10, None, at(NOW));
    assert_eq!(deleted, 0);
}

#[test]
fn backup_entry_fields_populated() {
    let mut dir = HistoryDir::new();
    let config = HistoryConfig::default();
    let now = Timestamp::now();

    dir.backup_before_export(&config, "issues", Some(b"hello world"), now);

    let backups = list_backups(&dir.names(), None);
    assert_eq!(backups.len(), 1);
    let entry: &BackupEntry = &backups[0];
    assert!(dir.bytes(&entry.name).is_some(), "backup file should exist");
    assert_eq!(dir.bytes(&entry.name).unwrap().len(), 11, "size should match 'hello world'");
    let age = Timestamp::now().unix_seconds() - entry.taken_at.unix_seconds();
    assert!((0..60).contains(&age), "backup timestamp should be recent, got age: {age}");
}

#[test]
fn backups_sorted_newest_first() {
    let old = stamped("issues", NOW - 3 * HOUR);
    let mid = stamped("issues", NOW - 2 * HOUR);
    let new = stamped("issues", NOW - HOUR);

    let backups = list_backups(&vec![mid.clone(), old.clone(), new.clone()], None);

    assert_eq!(backups.len(), 3);
    assert!(backups[0].taken_at.unix_seconds() > backups[1].taken_at.unix_seconds());
    assert!(backups[1].taken_at.unix_seconds() > backups[2].taken_at.unix_seconds());
    let names: Vec<&str> = backups.iter().map(|b| b.name.as_str()).collect();
    assert_eq!(names, vec![new.as_str(), mid.as_str(), old.as_str()]);

    let unsorted = backups_in(&vec![mid.clone(), old.clone(), new.clone()], None);
    let names: Vec<&str> = unsorted.iter().map(|b| b.name.as_str()).collect();
    assert_eq!(names, vec![mid.as_str(), old.as_str(), new.as_str()]);
    assert_eq!(latest_backup(&unsorted), Some(2));
    let again = sort_newest_first(&unsorted);
    assert_eq!(again[0].name, new);
    let same_second = vec![
        BackupEntry { name: "a".to_string(), taken_at: at(5) },
        BackupEntry { name: "b".to_string(), taken_at: at(9) },
        BackupEntry { name: "c".to_string(), taken_at: at(5) },
        BackupEntry { name: "d".to_string(), taken_at: at(9) },
    ];
    let order: Vec<String> = sort_newest_first(&same_second).into_iter().map(|b| b.name).collect();
    assert_eq!(order, vec!["b", "d", "a", "c"]);
    assert_eq!(latest_backup(&same_second), Some(3));
}

#[test]
fn plan_names_the_backup_and_what_goes() {
    let config = HistoryConfig { enabled: true, max_count: 2, max_age_days: 30 };
    let names = vec![
        stamped("issues", NOW - 40 * DAY),
        stamped("issues", NOW - 2 * HOUR),
        stamped("issues", NOW - HOUR),
        stamped("archive", NOW - 50 * DAY),
        "issues.jsonl".to_string(),
    ];
    let plan = plan_backup(&names, &config, "issues", "jsonl", true, false, &at(NOW));
    assert_eq!(plan.create, Some(stamped("issues", NOW)));
    assert_eq!(plan.remove, vec![stamped("issues", NOW - 40 * DAY), stamped("issues", NOW - 2 * HOUR)]);

    let unchanged = plan_backup(&names, &config, "issues", "jsonl", true, true, &at(NOW));
    assert!(unchanged.create.is_none() && unchanged.remove.is_empty());

    // a second backup within the same second takes the place of the first
    let again = plan_backup(&vec![stamped("issues", NOW)], &config, "issues", "jsonl", true, false, &at(NOW));
    assert_eq!(again.create, Some(stamped("issues", NOW)));
    assert!(again.remove.is_empty());

    let none_kept = HistoryConfig { enabled: true, max_count: 0, max_age_days: 30 };
    let plan = plan_backup(&vec![], &none_kept, "issues", "jsonl", true, false, &at(NOW));
    assert_eq!(plan.create, Some(stamped("issues", NOW)));
    assert_eq!(plan.remove, vec![stamped("issues", NOW)]);
}
