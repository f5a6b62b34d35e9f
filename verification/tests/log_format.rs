use openvpn3_gui_rs::log_buffer::ClockTime;
use openvpn3_gui_rs::log_format::{format_log_line, log_category_label};

#[test]
fn test_log_category_label_known_values() {
    assert_eq!(log_category_label(1), "DEBUG");
    assert_eq!(log_category_label(4), "INFO");
    assert_eq!(log_category_label(5), "WARN");
    assert_eq!(log_category_label(6), "ERROR");
    assert_eq!(log_category_label(7), "CRIT");
    assert_eq!(log_category_label(8), "FATAL");
}

#[test]
fn test_log_category_label_unknown_falls_back() {
    assert_eq!(log_category_label(0), "LOG");
    assert_eq!(log_category_label(99), "LOG");
}

#[test]
fn test_format_log_line() {
    let ts = ClockTime::new(14 * 3600 + 32 * 60 + 1, 0).unwrap();
    let line = format_log_line(&ts, 4, "Connecting to server...");
    assert_eq!(line, "14:32:01 [INFO] Connecting to server...\n");
}

#[test]
fn test_format_log_line_error() {
    let ts = ClockTime::new(9 * 3600 + 5 * 60 + 30, 0).unwrap();
    let line = format_log_line(&ts, 6, "Connection refused");
    assert_eq!(line, "09:05:30 [ERROR] Connection refused\n");
}
