use openvpn3_gui_rs::about::{os_name, system_info};
use openvpn3_gui_rs::cidrs::{listed, parse_byte};
use openvpn3_gui_rs::clock::{Moment, NANOS_PER_SEC};
use openvpn3_gui_rs::keyed::StringMap;
use openvpn3_gui_rs::policy::{display_label_lowered, is_storable_lowered};
use openvpn3_gui_rs::protocol::SessionStatus;
use openvpn3_gui_rs::retry::{record_auth_attempt, should_retry_auth, AuthAttempt, LoginBudgets};
use openvpn3_gui_rs::settings::{Settings, SettingsValues};
use openvpn3_gui_rs::stall::stall_reconnect_due;
use openvpn3_gui_rs::startup::{
    after_init_attempt, build_session_entry, handle_startup_connect, init_complete,
    scan_initial_sessions, InitStep, SessionRead, INIT_ATTEMPTS,
};
use openvpn3_gui_rs::stats::{
    byte_unit, learn_device_name, refresh_rows, stats_are_over, stats_title, ByteUnit,
};
use openvpn3_gui_rs::text::{
    chars_of, copy_strings, decimal_text, find_char, is_digit, is_whitespace, join, less,
    string_of, to_ascii_lowercase, trim,
};
use openvpn3_gui_rs::tray::{
    find_config_name, new_session, resolve_config_name, session_config_identity,
    session_config_name, ConfigInfo, VpnTray,
};
use openvpn3_gui_rs::version::{log_manager_version_assessment, ManagerVersion};
use openvpn3_gui_rs::windows::{find_active_modal, Present, Toplevel, WindowRegistry};

fn at(secs: u64) -> Moment {
    Moment { nanos: secs * NANOS_PER_SEC }
}

fn connected() -> SessionStatus {
    SessionStatus::new(2, 7, String::new())
}

fn values() -> SettingsValues {
    SettingsValues {
        startup_action: "".into(),
        most_recent_config_id: "".into(),
        most_recent_config_name: "".into(),
        specific_config_path: "".into(),
        stats_refresh_interval: 30,
        connection_timeout: 45,
        health_check_stall_seconds: 60,
        auto_reconnect_delay_seconds: 30,
        warn_on_unexpected_disconnect: true,
        auto_reconnect: false,
        show_notifications: true,
        enable_kill_switch: false,
        kill_switch_allow_lan: false,
        show_first_run_help: true,
        launch_on_login: false,
        kill_switch_block_during_pause: false,
        bypass_cidrs: Vec::new(),
        bypass_cidrs_disabled: Vec::new(),
        bypass_cidrs_max_count: 16,
        logs_window_width: 800,
        logs_window_height: 600,
    }
}

#[test]
fn the_system_is_named_by_its_release_file() {
    let release = "ID=x\r\nPRETTY_NAME=\"Some Linux 1.0\"\r\nPRETTY_NAME=Other\n";
    assert_eq!(os_name(release).as_deref(), Some("Some Linux 1.0"));
    assert_eq!(os_name("ID=x\n"), None);
    assert_eq!(os_name(""), None);
    assert_eq!(os_name("PRETTY_NAME=PRETTY_NAME=y").as_deref(), Some("y"));
    assert_eq!(
        system_info(4, 12, 3, &Some(release.into()), "linux"),
        "A Rust OpenVPN3 GUI for Linux\n\nGTK: 4.12.3\nOS: Some Linux 1.0"
    );
    assert_eq!(
        system_info(4, 0, 0, &None, "linux"),
        "A Rust OpenVPN3 GUI for Linux\n\nGTK: 4.0.0\nOS: linux"
    );
}

#[test]
fn texts_are_taken_apart_and_put_together() {
    assert_eq!(chars_of("aé"), vec!['a', 'é']);
    assert_eq!(string_of(&['a', 'é']), "aé");
    assert!(is_digit('0') && is_digit('9') && !is_digit('a') && !is_digit('٣'));
    assert_eq!(to_ascii_lowercase("AbÇ1"), "abÇ1");
    for c in ['\t', '\n', '\u{b}', '\r', ' ', '\u{85}', '\u{a0}', '\u{1680}', '\u{2009}',
        '\u{2028}', '\u{2029}', '\u{202f}', '\u{205f}', '\u{3000}'] {
        assert!(is_whitespace(c) && c.is_whitespace());
    }
    for c in ['a', '\u{8}', '\u{e}', '\u{200b}', '\u{180e}', '\u{feff}'] {
        assert_eq!(is_whitespace(c), c.is_whitespace());
    }
    assert_eq!(trim("\u{3000} a b\n"), "a b");
    assert_eq!(decimal_text(0), "0");
    assert_eq!(decimal_text(u64::MAX), "18446744073709551615");
    assert!(less("a", "b") && less("a", "aa") && !less("b", "a") && !less("a", "a"));
    let parts = vec!["a".to_string(), "b".to_string()];
    assert_eq!(join(&parts, ", "), "a, b");
    assert_eq!(join(&[], ", "), "");
    assert_eq!(copy_strings(&parts), parts);
    assert_eq!(find_char(&['a', 'b'], 'b'), 1);
    assert_eq!(find_char(&['a', 'b'], 'c'), 2);
}

#[test]
fn whitespace_is_what_std_says_it_is() {
    for n in 0..0x11_0000u32 {
        if let Some(c) = char::from_u32(n) {
            assert_eq!(is_whitespace(c), c.is_whitespace());
        }
    }
}

#[test]
fn lists_and_bytes_are_read() {
    assert!(listed(&["a".to_string()], "a"));
    assert!(!listed(&["a".to_string()], "b"));
    assert_eq!(parse_byte("255"), Some(255));
    assert_eq!(parse_byte("256"), None);
    assert_eq!(parse_byte(""), None);
    assert_eq!(parse_byte("+7"), "+7".parse::<u8>().ok());
    assert_eq!(parse_byte("+"), None);
    assert_eq!(parse_byte("-0"), "-0".parse::<u8>().ok());
    assert_eq!(parse_byte("007"), Some(7));
    assert_eq!(parse_byte("0000000000255"), Some(255));
}

#[test]
fn time_does_not_run_backwards() {
    assert_eq!(at(10).seconds_since(&at(4)), 6);
    assert_eq!(at(4).seconds_since(&at(10)), 0);
    let nearly = Moment { nanos: 2 * NANOS_PER_SEC - 1 };
    assert_eq!(nearly.seconds_since(&at(0)), 1);
}

#[test]
fn a_map_keeps_one_value_for_each_key() {
    let mut map: StringMap<u32> = StringMap::new();
    map.insert("a".into(), 1);
    map.insert("a".into(), 2);
    assert_eq!(map.len(), 1);
    assert_eq!(map.key_at(0), "a");
    assert_eq!(*map.value_at(0), 2);
    map.clear();
    assert_eq!(map.get("a"), None);
}

#[test]
fn labels_in_lower_case_are_judged() {
    assert!(is_storable_lowered("username", false));
    assert!(is_storable_lowered("password", true));
    assert!(!is_storable_lowered("one-time password", true));
    assert_eq!(display_label_lowered("enter username"), "Auth Username");
    assert_eq!(display_label_lowered("enter password"), "Auth Password");
    assert_eq!(display_label_lowered("authenticator code"), "Authentication Code");
}

#[test]
fn a_login_is_given_up_after_three_failures() {
    let mut budgets = LoginBudgets::new();
    assert_eq!(budgets.judge_auth_failure(at(1), "/c"), (true, 1));
    assert_eq!(budgets.judge_auth_failure(at(2), "/c"), (true, 2));
    assert_eq!(budgets.judge_auth_failure(at(2), "/other"), (true, 1));
    assert_eq!(budgets.judge_auth_failure(at(3), "/c"), (false, 3));
    assert_eq!(budgets.get("/c"), None);
    assert_eq!(budgets.judge_auth_failure(at(4), "/c"), (true, 1));
    assert_eq!(budgets.judge_auth_failure(at(1000), "/c"), (true, 1));
    assert_eq!(budgets.judge_auth_failure(at(1000), ""), (false, 3));
    assert_eq!(budgets.get(""), None);
    budgets.remove("/c");
    assert_eq!(budgets.get("/c"), None);
    assert!(should_retry_auth(2, "/c"));
    assert!(!should_retry_auth(3, "/c"));
    assert!(!should_retry_auth(1, ""));
    let mut state: StringMap<AuthAttempt> = StringMap::new();
    assert_eq!(record_auth_attempt(&mut state, at(1), "/c"), 1);
    assert_eq!(record_auth_attempt(&mut state, at(1), "/c"), 2);
}

#[test]
fn a_stall_is_due_after_threshold_and_cooldown() {
    assert!(stall_reconnect_due(Some(at(0)), None, true, 60, 60, at(60)));
    assert!(!stall_reconnect_due(Some(at(0)), None, true, 60, 60, at(59)));
    assert!(!stall_reconnect_due(Some(at(0)), None, false, 60, 60, at(60)));
    assert!(!stall_reconnect_due(None, None, true, 60, 60, at(60)));
    assert!(!stall_reconnect_due(Some(at(0)), None, true, 0, 60, at(60)));
    assert!(!stall_reconnect_due(Some(at(0)), Some(at(61)), true, 60, 60, at(100)));
}

#[test]
fn sessions_found_at_start_are_entered() {
    let read = |path: &str, status| SessionRead {
        path: path.into(),
        config_path: Some("/c".into()),
        config_name: None,
        status,
    };
    let up = build_session_entry(read("/up", Some((2, 7))), at(9));
    assert!(up.connected && !up.pending_auth);
    assert_eq!(up.entry.connected_at, Some(at(9)));
    assert_eq!(up.entry.config_name, "VPN Connection");
    let found = scan_initial_sessions(
        vec![read("/up", Some((2, 7))), read("/ask", Some((3, 20))), read("/dead", None)],
        at(9),
    );
    assert_eq!(found.sessions.len(), 3);
    assert_eq!(found.connected_paths, vec!["/up"]);
    assert_eq!(found.pending_auth, vec!["/ask"]);
}

#[test]
fn the_start_connects_what_was_chosen() {
    let configs = vec![
        ConfigInfo { path: "/c".into(), name: "Work".into() },
        ConfigInfo { path: "/d".into(), name: "Home".into() },
    ];
    let mut v = values();
    v.startup_action = "connect-recent".into();
    v.most_recent_config_id = "/c".into();
    v.most_recent_config_name = "Old Name".into();
    v.specific_config_path = "/d".into();
    let recent = Settings::new(Some(v));
    assert_eq!(
        handle_startup_connect(&recent, &configs),
        Some(("/c".to_string(), "Old Name".to_string()))
    );
    assert_eq!(handle_startup_connect(&recent, &Vec::new()), None);
    let mut specific = recent;
    specific.set_startup_action("connect-specific");
    assert_eq!(
        handle_startup_connect(&specific, &configs),
        Some(("/d".to_string(), "Home".to_string()))
    );
    specific.set_startup_action("none");
    assert_eq!(handle_startup_connect(&specific, &configs), None);
    assert_eq!(after_init_attempt(1, INIT_ATTEMPTS, true), InitStep::Ready);
    assert_eq!(after_init_attempt(9, INIT_ATTEMPTS, false), InitStep::Again);
    assert_eq!(after_init_attempt(10, INIT_ATTEMPTS, false), InitStep::GiveUp);
}

#[test]
fn the_tray_shows_the_kill_switch_once_the_start_is_complete() {
    let mut tray = VpnTray::new();
    let mut settings = Settings::new(Some(values()));
    assert!(!tray.kill_switch_enabled);
    settings.set_enable_kill_switch(true);
    init_complete(&mut tray, &settings);
    assert!(tray.kill_switch_enabled);
    settings.set_enable_kill_switch(false);
    init_complete(&mut tray, &settings);
    assert!(!tray.kill_switch_enabled);
}

#[test]
fn the_statistics_show_what_is_known() {
    let mut s = new_session("/s", "/c", "Work", connected());
    s.bytes_in = 5;
    let rows = refresh_rows(Some(&s), "Connected", &Some("t".into()), &None, at(100));
    assert_eq!((rows.since.as_str(), rows.duration.as_str()), ("—", "—"));
    s.connected_at = Some(at(10));
    let rows =
        refresh_rows(Some(&s), "Connected", &Some("t".into()), &Some("tun0".into()), at(100));
    assert_eq!((rows.since.as_str(), rows.duration.as_str()), ("t", "1m 30s"));
    assert_eq!((rows.status.as_str(), rows.interface.as_str()), ("Connected", "tun0"));
    assert_eq!(rows.bytes_in, "5 B");
    let rows = refresh_rows(None, "Connected", &None, &None, at(100));
    assert_eq!(rows.status, "Unknown");
    assert_eq!(byte_unit(1023), ByteUnit::Bytes);
    assert_eq!(byte_unit(1024), ByteUnit::Kilobytes);
    assert_eq!(byte_unit(1024 * 1024), ByteUnit::Megabytes);
    assert_eq!(byte_unit(1024 * 1024 * 1024), ByteUnit::Gigabytes);
    assert_eq!(byte_unit(u64::MAX), ByteUnit::Gigabytes);
}

#[test]
fn the_statistics_close_with_their_session() {
    let mut tray = VpnTray::new();
    assert!(stats_are_over(&tray, "/s"));
    assert_eq!(stats_title(&tray, "/s"), "Statistics — VPN Connection");
    tray.put_session("/s", new_session("/s", "/c", "Work", connected()));
    assert!(!stats_are_over(&tray, "/s"));
    assert_eq!(stats_title(&tray, "/s"), "Statistics — Work");
    let failed = SessionStatus::new(2, 10, String::new());
    tray.put_session("/s", new_session("/s", "/c", "Work", failed));
    assert!(stats_are_over(&tray, "/s"));
    let mut device = None;
    learn_device_name(&mut device, Some("".into()));
    assert_eq!(device, None);
    learn_device_name(&mut device, Some("tun0".into()));
    learn_device_name(&mut device, Some("tun1".into()));
    assert_eq!(device.as_deref(), Some("tun0"));
}

#[test]
fn the_tray_knows_its_sessions_and_configurations() {
    let mut tray = VpnTray::new();
    assert!(!tray.any_connected());
    tray.put_session("/s", new_session("/s", "/c", "Work", connected()));
    assert!(tray.any_connected());
    assert_eq!(session_config_identity(&tray, "/s"), ("Work".to_string(), "/c".to_string()));
    assert_eq!(session_config_name(&tray, "/gone"), "VPN Connection");
    tray.configs.push(ConfigInfo { path: "/c".into(), name: "Named".into() });
    assert_eq!(find_config_name(&tray.configs, "/c").as_deref(), Some("Named"));
    assert_eq!(find_config_name(&tray.configs, "/d"), None);
    assert_eq!(resolve_config_name(&tray, "/d"), "Unknown");
    tray.set_kill_switch_active("/s", true);
    assert!(tray.session("/s").unwrap().kill_switch_active);
    tray.clear_kill_switch_flags();
    assert!(!tray.session("/s").unwrap().kill_switch_active);
    tray.remove_sessions_of("/c");
    assert!(tray.session("/s").is_none());
    tray.put_session("/s", new_session("/s", "/c", "Work", connected()));
    tray.remove_session("/s");
    tray.clear_sessions();
    assert_eq!(tray.sessions.len(), 0);
}

#[test]
fn settings_are_read_back() {
    let mut s = Settings::new(Some(values()));
    s.set_most_recent_config_id("/c");
    s.set_most_recent_config_name("Work");
    s.set_specific_config_path("/d");
    assert_eq!(s.most_recent_config_id(), "/c");
    assert_eq!(s.most_recent_config_name(), "Work");
    assert_eq!(s.specific_config_path(), "/d");
    let mut none = Settings::new_empty();
    none.set_most_recent_config_id("/c");
    assert_eq!(none.most_recent_config_id(), "");
}

#[test]
fn the_managers_version_is_assessed() {
    assert_eq!(log_manager_version_assessment(19), ManagerVersion::Unsupported);
    assert_eq!(log_manager_version_assessment(20), ManagerVersion::BelowRecommended);
    assert_eq!(log_manager_version_assessment(21), ManagerVersion::Fine);
}

#[test]
fn a_window_is_shown_once() {
    let mut windows = WindowRegistry::new();
    assert_eq!(windows.present_inner("logs", true, None, true), Present::Build);
    windows.register("logs", 7);
    assert_eq!(windows.present_inner("logs", true, None, true), Present::Raise(7));
    assert_eq!(windows.present_inner("logs", true, None, false), Present::Build);
    assert_eq!(windows.present_inner("logs", true, Some(3), true), Present::RaiseModal(3));
    assert_eq!(windows.present_inner("logs", false, Some(3), true), Present::Raise(7));
    windows.forget("logs");
    assert_eq!(windows.present_inner("logs", true, None, true), Present::Build);
}

#[test]
fn the_first_blocking_window_is_found() {
    let w = |id, modal, visible, in_destruction| Toplevel { id, modal, visible, in_destruction };
    assert_eq!(find_active_modal(&[]), None);
    assert_eq!(
        find_active_modal(&[
            w(1, false, true, false),
            w(2, true, false, false),
            w(3, true, true, true),
            w(4, true, true, false),
            w(5, true, true, false),
        ]),
        Some(4)
    );
}
