use beads_rust::error::BeadsError;
use beads_rust::ids::{
    child_id, find_matching_ids, id_depth, is_child_id, is_valid_id_format, normalize_id,
    resolve_id, resolve_one, MatchType,
};
use beads_rust::text::has_prefix;

fn ids(list: &[&str]) -> Vec<String> {
    list.iter().map(|s| s.to_string()).collect()
}

#[test]
fn id_is_prefix_hyphen_suffix() {
    assert!(is_valid_id_format("bd-001"));
    assert!(is_valid_id_format("br-zzz9"));
    assert!(is_valid_id_format("a-0"));
    assert!(is_valid_id_format("a1b2c3d4e5-abc"));
    assert!(!is_valid_id_format(""));
    assert!(!is_valid_id_format("bd"));
    assert!(!is_valid_id_format("bd-"));
    assert!(!is_valid_id_format("-001"));
    assert!(!is_valid_id_format("BD-001"));
    assert!(!is_valid_id_format("bd-00A"));
    assert!(!is_valid_id_format("bd-0-1"));
    assert!(!is_valid_id_format("bd_001"));
    assert!(!is_valid_id_format("1d-001"));
    assert!(!is_valid_id_format("a1b2c3d4e5f-abc"));
    assert!(!is_valid_id_format("bd-001.1"));
    assert!(!is_valid_id_format("bd-00 1"));
}

#[test]
fn child_ids_count_their_generations() {
    assert_eq!(child_id("bd-001", 1), "bd-001.1");
    assert_eq!(child_id("bd-001.1", 12), "bd-001.1.12");
    assert_eq!(id_depth("bd-001"), 0);
    assert_eq!(id_depth("bd-001.1"), 1);
    assert_eq!(id_depth("bd-001.1.12"), 2);
    assert_eq!(id_depth(&child_id(&child_id("bd-001", 3), 4)), 2);
    assert!(!is_child_id("bd-001"));
    assert!(is_child_id("bd-001.2"));
}

#[test]
fn ids_are_normalized_before_lookup() {
    assert_eq!(normalize_id("  BD-00A \n"), "bd-00a");
    assert_eq!(normalize_id("bd-001"), "bd-001");
    assert_eq!(normalize_id(""), "");
}

#[test]
fn prefixes_are_found() {
    assert!(has_prefix("bd-001", "bd-"));
    assert!(has_prefix("bd-001", ""));
    assert!(has_prefix("bd-001", "bd-001"));
    assert!(!has_prefix("bd-001", "bd-0010"));
    assert!(!has_prefix("bd-001", "d-"));
    let all = ids(&["bd-001", "bd-002", "bd-010", "zz-001"]);
    assert_eq!(find_matching_ids(&all, "bd-0"), vec!["bd-001", "bd-002", "bd-010"]);
    assert_eq!(find_matching_ids(&all, "bd-00"), vec!["bd-001", "bd-002"]);
    assert!(find_matching_ids(&all, "x").is_empty());
}

#[test]
fn exact_match_wins() {
    let all = ids(&["bd-001", "bd-0010", "bd-002"]);
    let r = resolve_id("bd-001", &all, "bd");
    assert_eq!(r.match_type, MatchType::Exact);
    assert_eq!(r.ids, vec!["bd-001"]);
    let r = resolve_id(" BD-001 ", &all, "bd");
    assert_eq!(r.match_type, MatchType::Exact);
    assert_eq!(r.ids, vec!["bd-001"]);
}

#[test]
fn bare_suffix_takes_the_prefix_of_the_workspace() {
    let all = ids(&["bd-001", "bd-0010", "bd-002", "zz-002"]);
    let r = resolve_id("002", &all, "bd");
    assert_eq!(r.match_type, MatchType::Exact);
    assert_eq!(r.ids, vec!["bd-002"]);
    let r = resolve_id("002", &all, "zz");
    assert_eq!(r.match_type, MatchType::Exact);
    assert_eq!(r.ids, vec!["zz-002"]);
}

#[test]
fn unique_prefix_resolves() {
    let all = ids(&["bd-abc", "bd-abd", "bd-xyz"]);
    let r = resolve_id("bd-x", &all, "bd");
    assert_eq!(r.match_type, MatchType::UniquePrefix);
    assert_eq!(r.ids, vec!["bd-xyz"]);
    let r = resolve_id("x", &all, "bd");
    assert_eq!(r.match_type, MatchType::UniquePrefix);
    assert_eq!(r.ids, vec!["bd-xyz"]);
    assert_eq!(resolve_one("xy", &all, "bd").unwrap(), "bd-xyz");
    assert_eq!(resolve_one("bd-abc", &all, "bd").unwrap(), "bd-abc");
}

#[test]
fn ambiguous_input_lists_its_candidates() {
    let all = ids(&["bd-abc", "bd-abd", "bd-xyz"]);
    let r = resolve_id("ab", &all, "bd");
    assert_eq!(r.match_type, MatchType::Ambiguous);
    assert_eq!(r.ids, vec!["bd-abc", "bd-abd"]);
    match resolve_one(" ab", &all, "bd") {
        Err(BeadsError::InvalidId { id }) => assert_eq!(id, " ab"),
        other => panic!("expected InvalidId, got {other:?}"),
    }
}

#[test]
fn unknown_input_is_not_found() {
    let all = ids(&["bd-abc"]);
    let r = resolve_id("q", &all, "bd");
    assert_eq!(r.match_type, MatchType::NotFound);
    assert!(r.ids.is_empty());
    match resolve_one("q", &all, "bd") {
        Err(BeadsError::IssueNotFound { id }) => assert_eq!(id, "q"),
        other => panic!("expected IssueNotFound, got {other:?}"),
    }
    assert_eq!(resolve_id("abc", &ids(&[]), "bd").match_type, MatchType::NotFound);
}
