use beads_rust::error::BeadsError;
use beads_rust::ids::{
    candidate_id, format_suffix, generate_id, is_valid_prefix, suffix_width, validate_prefix,
};

fn ids(list: &[&str]) -> Vec<String> {
    list.iter().map(|s| s.to_string()).collect()
}

#[test]
fn prefix_is_a_letter_then_up_to_nine_letters_and_digits() {
    assert!(is_valid_prefix("br"));
    assert!(is_valid_prefix("bd"));
    assert!(is_valid_prefix("a"));
    assert!(is_valid_prefix("a1b2c3d4e5"));
    assert!(!is_valid_prefix(""));
    assert!(!is_valid_prefix("1a"));
    assert!(!is_valid_prefix("Bd"));
    assert!(!is_valid_prefix("b-d"));
    assert!(!is_valid_prefix("b d"));
    assert!(!is_valid_prefix("a1b2c3d4e5f"));
    assert!(!is_valid_prefix("bé"));
}

#[test]
fn invalid_prefix_is_reported_with_the_prefix() {
    assert!(validate_prefix("bd").is_ok());
    match validate_prefix("BD") {
        Err(BeadsError::InvalidPrefix { prefix }) => assert_eq!(prefix, "BD"),
        other => panic!("expected InvalidPrefix, got {other:?}"),
    }
}

#[test]
fn width_starts_at_three_and_grows_at_eighty_percent() {
    assert_eq!(suffix_width(0), 3);
    assert_eq!(suffix_width(1), 3);
    assert_eq!(suffix_width(37324), 3);
    assert_eq!(suffix_width(37325), 4);
    assert_eq!(suffix_width(1343692), 4);
    assert_eq!(suffix_width(1343693), 5);
    assert_eq!(suffix_width(u64::MAX), 13);
}

#[test]
fn width_never_shrinks() {
    let mut last = 0;
    for count in [0u64, 10, 1000, 37324, 37325, 100000, 1343693, 1 << 40, u64::MAX] {
        let w = suffix_width(count);
        assert!(w >= last);
        last = w;
    }
}

#[test]
fn suffix_is_padded_with_zeros() {
    assert_eq!(format_suffix(1, 3), "001");
    assert_eq!(format_suffix(0, 3), "000");
    assert_eq!(format_suffix(35, 3), "00z");
    assert_eq!(format_suffix(36, 3), "010");
    assert_eq!(format_suffix(46655, 3), "zzz");
    assert_eq!(format_suffix(46656, 3), "1000");
    assert_eq!(format_suffix(1, 5), "00001");
    assert_eq!(format_suffix(7, 0), "7");
}

#[test]
fn candidate_joins_prefix_and_suffix() {
    assert_eq!(candidate_id("bd", 1, 3), "bd-001");
    assert_eq!(candidate_id("proj", 71, 4), "proj-001z");
}

#[test]
fn first_id_of_a_prefix() {
    assert_eq!(generate_id("bd", &ids(&[]), 1, 0).unwrap(), "bd-001");
}

#[test]
fn taken_ids_are_skipped() {
    let existing = ids(&["bd-001", "bd-002", "bd-004", "other-003"]);
    assert_eq!(generate_id("bd", &existing, 1, 3).unwrap(), "bd-003");
    assert_eq!(generate_id("bd", &existing, 4, 3).unwrap(), "bd-005");
    assert_eq!(generate_id("bd", &existing, 9, 3).unwrap(), "bd-009");
}

#[test]
fn generated_id_is_never_among_the_existing() {
    let mut existing: Vec<String> = Vec::new();
    for n in 1..=40u64 {
        let id = generate_id("bd", &existing, 1, existing.len() as u64).unwrap();
        assert!(!existing.contains(&id));
        assert_eq!(id, candidate_id("bd", n, 3));
        existing.push(id);
    }
}

#[test]
fn generation_checks_the_prefix() {
    assert!(matches!(
        generate_id("Bad", &ids(&[]), 1, 0),
        Err(BeadsError::InvalidPrefix { .. })
    ));
}

#[test]
fn generation_stops_when_the_counters_run_out() {
    let last = candidate_id("bd", u64::MAX, 3);
    assert!(matches!(
        generate_id("bd", &vec![last], u64::MAX, 0),
        Err(BeadsError::Internal { .. })
    ));
    assert_eq!(generate_id("bd", &ids(&[]), u64::MAX, 0).unwrap(), "bd-3w5e11264sgsf");
}
