use openvpn3_gui_rs::log_buffer::{
    is_log_signal, name_for_logs, received, ClockTime, LogBuffer, LogEntry, MAX_LOG_ENTRIES,
};
use openvpn3_gui_rs::log_format::{
    export_file_name, format_export, format_log_line, passes_lowered, rebuild_buffer,
    sanitize_filename, visible_entries, LoweredQuery,
};
use openvpn3_gui_rs::log_viewer::{
    history, remember_window_size, sort_by_time, tab_names, LogTab, LogViewer,
};
use openvpn3_gui_rs::protocol::{MessageType, SessionStatus};
use openvpn3_gui_rs::settings::Settings;
use openvpn3_gui_rs::tray::{new_session, VpnTray};

fn entry(secs: u32, path: &str, name: &str, category: u32, message: &str) -> LogEntry {
    LogEntry {
        timestamp: ClockTime::new(secs, 0).unwrap(),
        session_path: path.into(),
        config_name: name.into(),
        category,
        message: message.into(),
    }
}

fn tray_with(sessions: &[(&str, &str)]) -> VpnTray {
    let mut tray = VpnTray::new();
    for (path, name) in sessions {
        let s = new_session(path, "/c", name, SessionStatus::new(2, 7, String::new()));
        tray.put_session(path, s);
    }
    tray
}

#[test]
fn a_clock_time_stays_within_the_day() {
    assert!(ClockTime::new(86_399, 999_999_999).is_some());
    assert!(ClockTime::new(86_400, 0).is_none());
    let t = ClockTime::new(3_661, 5).unwrap();
    assert_eq!(t.parts(), (3_661, 5));
    assert_eq!(t.clone().parts(), (3_661, 5));
}

#[test]
fn a_leap_second_is_the_sixtieth() {
    let leap = ClockTime::new(86_399, 1_500_000_000).unwrap();
    assert_eq!(format_log_line(&leap, 4, "x"), "23:59:60 [INFO] x\n");
    assert!(ClockTime::new(86_398, 1_500_000_000).is_none());
    let midnight = ClockTime::new(0, 0).unwrap();
    assert_eq!(format_log_line(&midnight, 9, ""), "00:00:00 [LOG] \n");
}

#[test]
fn a_full_buffer_drops_its_oldest_messages() {
    let mut buffer = LogBuffer::new();
    for i in 0..MAX_LOG_ENTRIES {
        buffer.push_entry(entry(1, "/s", "Work", 4, &i.to_string()));
    }
    assert_eq!(buffer.len(), MAX_LOG_ENTRIES);
    buffer.push_entry(entry(1, "/s", "Work", 4, "latest"));
    assert_eq!(buffer.len(), 4501);
    assert_eq!(buffer.entry(0).message, "500");
    assert_eq!(buffer.entry(4500).message, "latest");
}

#[test]
fn only_log_signals_are_taken_in() {
    let text = |s: &str| Some(s.to_string());
    assert!(is_log_signal(MessageType::Signal, &text("net.openvpn.v3.backends"), &text("Log")));
    assert!(!is_log_signal(MessageType::MethodCall, &text("net.openvpn.v3.backends"), &text("Log")));
    assert!(!is_log_signal(MessageType::Signal, &text("org.example"), &text("Log")));
    assert!(!is_log_signal(MessageType::Signal, &text("net.openvpn.v3.backends"), &None));
}

#[test]
fn a_message_is_filed_under_its_sessions_name() {
    let tray = tray_with(&[("/s", "Work")]);
    assert_eq!(name_for_logs(&tray, "/s"), "Work");
    assert_eq!(name_for_logs(&tray, "/gone"), "VPN");
    let e = received(&tray, "/s", ClockTime::new(7, 0).unwrap(), 6, "bad");
    assert_eq!(e.session_path, "/s");
    assert_eq!(e.config_name, "Work");
    assert_eq!(e.category, 6);
    assert_eq!(e.message, "bad");
    assert_eq!(e.timestamp.parts(), (7, 0));
}

#[test]
fn messages_are_sorted_and_keep_their_order() {
    let sorted = sort_by_time(vec![
        entry(5, "/a", "Work", 4, "b"),
        entry(3, "/a", "Work", 4, "a"),
        entry(5, "/b", "Work", 4, "c"),
    ]);
    let texts: Vec<&str> = sorted.iter().map(|e| e.message.as_str()).collect();
    assert_eq!(texts, vec!["a", "b", "c"]);
}

#[test]
fn the_filter_goes_by_level_and_text() {
    let entries = vec![
        entry(1, "/a", "Work", 4, "Connecting to SERVER"),
        entry(2, "/a", "Work", 6, "server refused"),
        entry(3, "/a", "Work", 1, "tick"),
    ];
    assert_eq!(visible_entries(&entries, "", 0).len(), 3);
    assert_eq!(visible_entries(&entries, "Server", 0).len(), 2);
    assert_eq!(visible_entries(&entries, "Server", 5).len(), 1);
    assert_eq!(rebuild_buffer(&entries, "REFUSED", 0), "00:00:02 [ERROR] server refused\n");
    let query = LoweredQuery::new("SeRv");
    assert!(passes_lowered(6, "server refused", &query, 5));
    assert!(!passes_lowered(4, "server refused", &query, 5));
    assert!(!passes_lowered(6, "SERVER", &query, 0));
}

#[test]
fn file_names_hold_no_separator() {
    assert_eq!(sanitize_filename("a/b c.d-e_F9"), "a_b_c_d-e_F9");
    assert_eq!(sanitize_filename("tür"), "t_r");
    assert_eq!(
        export_file_name("my vpn", "20240101-120000"),
        "openvpn3-gui-my_vpn-20240101-120000.log"
    );
}

#[test]
fn a_tab_shows_what_passes_its_filter() {
    let mut buffer = LogBuffer::new();
    buffer.push_entry(entry(2, "/b", "Work", 4, "second"));
    buffer.push_entry(entry(1, "/a", "Work", 6, "first"));
    buffer.push_entry(entry(1, "/x", "Home", 6, "other"));
    let sessions = buffer.sessions_with_logs();
    let texts: Vec<String> =
        history(&buffer, &sessions, "Work").iter().map(|e| e.message.clone()).collect();
    assert_eq!(texts, vec!["first", "second"]);
    let mut tab = LogTab::create_tab_for_config(&buffer, &sessions, "Work");
    assert_eq!(tab.text(), "00:00:01 [ERROR] first\n00:00:02 [INFO] second\n");
    tab.set_search("FIRST");
    assert_eq!(tab.text(), "00:00:01 [ERROR] first\n");
    assert!(tab.can_export());
    assert_eq!(tab.append(entry(3, "/a", "Work", 4, "third")), None);
    assert_eq!(
        tab.append(entry(4, "/a", "Work", 4, "First again")),
        Some("00:00:04 [INFO] First again\n".to_string())
    );
    assert_eq!(tab.visible().len(), 2);
    assert_eq!(
        tab.export_text("2024-05-01 12:00:00"),
        "# OpenVPN3 GUI log of 'Work', exported 2024-05-01 12:00:00\n\
         00:00:01 [ERROR] first\n00:00:04 [INFO] First again\n# Messages: 2\n"
    );
    assert_eq!(
        format_export(&[], "Home", "now"),
        "# OpenVPN3 GUI log of 'Home', exported now\n# Messages: 0\n"
    );
    tab.set_search("");
    tab.set_level(0);
    assert_eq!(tab.visible().len(), 4);
    tab.set_search("nothing like it");
    assert!(!tab.can_export());
    assert_eq!(tab.text(), "");
}

#[test]
fn an_empty_tab_says_that_it_listens() {
    let buffer = LogBuffer::new();
    let mut tab = LogTab::create_tab_for_config(&buffer, &[], "Work");
    assert_eq!(tab.text(), "Listening for log messages from 'Work'...\n");
    let line = tab.append(entry(1, "/a", "Work", 4, "x")).unwrap();
    assert_eq!(tab.text(), format!("Listening for log messages from 'Work'...\n{}", line));
}

#[test]
fn the_viewer_makes_a_tab_for_every_name() {
    let tray = tray_with(&[("/w", "Work"), ("/h", "Home")]);
    let mut buffer = LogBuffer::new();
    buffer.push_entry(entry(1, "/old", "Alpha", 4, "old"));
    let sessions = buffer.sessions_with_logs();
    assert_eq!(tab_names(&tray, &sessions), vec!["Alpha", "Home", "Work"]);
    let (mut viewer, names) = LogViewer::build_log_viewer(&tray, &buffer, &sessions);
    assert_eq!(names, vec!["Alpha", "Home", "Work"]);
    assert!(!viewer.placeholder);
    let at = ClockTime::new(9, 0).unwrap();
    let update = viewer.take_message(&tray, &buffer, &sessions, "/w", at.clone(), 4, "hello");
    assert_eq!(update.name, "Work");
    assert!(!update.new_tab);
    assert_eq!(update.line.as_deref(), Some("00:00:09 [INFO] hello\n"));
    let update = viewer.take_message(&tray, &buffer, &sessions, "/new", at, 4, "hi");
    assert_eq!(update.name, "VPN");
    assert!(update.new_tab);
    assert!(!update.drop_placeholder);
    assert_eq!(viewer.tabs.len(), 4);
}

#[test]
fn the_first_tab_replaces_the_placeholder() {
    let tray = tray_with(&[]);
    let buffer = LogBuffer::new();
    let (mut viewer, names) = LogViewer::build_log_viewer(&tray, &buffer, &[]);
    assert!(names.is_empty());
    assert!(viewer.placeholder);
    let at = ClockTime::new(9, 0).unwrap();
    let update = viewer.take_message(&tray, &buffer, &[], "/s", at, 4, "hi");
    assert!(update.new_tab && update.drop_placeholder);
    assert!(!viewer.placeholder);
}

#[test]
fn an_empty_window_size_is_not_remembered() {
    let mut settings = Settings::new_empty();
    remember_window_size(&mut settings, 500, 400);
    assert_eq!(settings.logs_window_width(), 800);
    remember_window_size(&mut settings, 0, 400);
    assert_eq!(settings.logs_window_height(), 600);
}
