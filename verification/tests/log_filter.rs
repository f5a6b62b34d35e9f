use openvpn3_gui_rs::log_buffer::{ClockTime, LogEntry};
use openvpn3_gui_rs::log_format::{any_passes_filter, level_index_to_min, passes_filter, LoweredQuery};

fn entry(category: u32, message: &str) -> LogEntry {
    LogEntry {
        timestamp: ClockTime::new(0, 0).unwrap(),
        session_path: String::new(),
        config_name: String::new(),
        category,
        message: message.to_string(),
    }
}

#[test]
fn level_index_to_min_maps_all_variants() {
    assert_eq!(level_index_to_min(0), 0, "index 0 = All");
    assert_eq!(level_index_to_min(1), 5, "index 1 = Warn+");
    assert_eq!(level_index_to_min(2), 6, "index 2 = Error");
}

#[test]
fn level_index_to_min_clamps_out_of_range_to_all() {
    assert_eq!(level_index_to_min(3), 0);
    assert_eq!(level_index_to_min(u32::MAX), 0);
}
fn pf(entry: &LogEntry, search: &str, level_min: u32) -> bool {
    passes_filter(entry, &LoweredQuery::new(search), level_min)
}

#[test]
fn passes_filter_empty_search_matches_all_at_or_above_level() {
    assert!(pf(&entry(6, "anything"), "", 0));
    assert!(pf(&entry(5, "warn text"), "", 5));
    assert!(pf(&entry(6, "err"), "", 6));
}

#[test]
fn passes_filter_rejects_below_level_regardless_of_search() {
    assert!(!pf(&entry(3, "match"), "", 5));
    assert!(!pf(&entry(3, "match"), "match", 5));
}

#[test]
fn passes_filter_substring_match_is_case_insensitive() {
    assert!(pf(&entry(0, "Connection Refused"), "refused", 0));
    assert!(pf(&entry(0, "connection refused"), "REFUSED", 0));
    assert!(pf(&entry(0, "REFUSED"), "fus", 0));
}

#[test]
fn passes_filter_rejects_when_search_present_but_not_in_message() {
    assert!(!pf(&entry(6, "unrelated"), "missing", 0));
}

#[test]
fn passes_filter_both_gates_apply_simultaneously() {
    assert!(!pf(&entry(6, "nope"), "match", 0));
    assert!(!pf(&entry(3, "match"), "match", 5));
    assert!(pf(&entry(6, "match"), "match", 5));
}

#[test]
fn lowered_query_lowers_once_and_matches_case_insensitively() {
    let q = LoweredQuery::new("REFUSED");
    assert!(passes_filter(&entry(0, "connection refused"), &q, 0));
    assert!(passes_filter(&entry(0, "Connection REFUSED"), &q, 0));
    assert!(passes_filter(
        &entry(0, "anything"),
        &LoweredQuery::new(""),
        0
    ));
}

#[test]
fn any_passes_filter_false_on_empty_slice() {
    assert!(!any_passes_filter(&[], "", 0));
    assert!(!any_passes_filter(&[], "anything", 6));
}

#[test]
fn any_passes_filter_true_iff_at_least_one_passes() {
    let entries = vec![
        entry(3, "below level"),
        entry(6, "no match"),
        entry(6, "target hit"),
    ];
    assert!(any_passes_filter(&entries, "target", 5));
}

#[test]
fn any_passes_filter_false_when_all_filtered_out() {
    let entries = vec![entry(3, "below"), entry(6, "wrong")];
    assert!(!any_passes_filter(&entries, "target", 5));
}
