use openvpn3_gui_rs::clock::{Moment, NANOS_PER_SEC};
use openvpn3_gui_rs::protocol::{
    MessageType, SessionManagerEventType, SessionStatus, StatusMajor, StatusMinor,
};
use openvpn3_gui_rs::registers::Registers;
use openvpn3_gui_rs::sessions::{
    after_ready, after_tunnel_error, begin_connect, decode_status, handle_cancelled_login,
    handle_disconnect,
    handle_reconnect, handle_remove_config, handle_session_created, handle_session_destroyed,
    is_retryable_activation_error, last_auto_reconnect_attempt, new_tunnel_retry, or_text,
    poll_rules, poll_session, protect_plan, quit_needs_confirmation, reapply_due,
    record_auto_reconnect_attempt, session_action, session_started, DropAnswer, PollRules,
    ReadyStep, SessionAction,
};
use openvpn3_gui_rs::settings::{Settings, SettingsValues};
use openvpn3_gui_rs::status::{
    backfill_session_identity, begin_timeout_watch, end_timeout_watch, handle_conn_failed,
    handle_session_error, on_status_change, schedule_disconnected_removal,
    send_status_notification, try_handle_auth, upsert_session_state, StatusAction, StatusEvent,
};
use openvpn3_gui_rs::tray::{new_session, ConfigInfo, VpnTray};

const CONNECTION: u32 = 2;
const SESSION: u32 = 3;
const CONNECTING: u32 = 6;
const CONNECTED: u32 = 7;
const DISCONNECTED: u32 = 9;
const FAILED: u32 = 10;
const AUTH_FAILED: u32 = 11;
const PAUSED: u32 = 14;

fn at(secs: u64) -> Moment {
    Moment { nanos: secs * NANOS_PER_SEC }
}

fn values() -> SettingsValues {
    SettingsValues {
        startup_action: "".into(),
        most_recent_config_id: "".into(),
        most_recent_config_name: "".into(),
        specific_config_path: "".into(),
        stats_refresh_interval: 30,
        connection_timeout: 45,
        health_check_stall_seconds: 60,
        auto_reconnect_delay_seconds: 30,
        warn_on_unexpected_disconnect: true,
        auto_reconnect: false,
        show_notifications: true,
        enable_kill_switch: false,
        kill_switch_allow_lan: false,
        show_first_run_help: true,
        launch_on_login: false,
        kill_switch_block_during_pause: false,
        bypass_cidrs: Vec::new(),
        bypass_cidrs_disabled: Vec::new(),
        bypass_cidrs_max_count: 16,
        logs_window_width: 800,
        logs_window_height: 600,
    }
}

fn with(change: fn(&mut SettingsValues)) -> Settings {
    let mut v = values();
    change(&mut v);
    Settings::new(Some(v))
}

fn event(path: &str, major: u32, minor: u32, message: &str, secs: u64) -> StatusEvent {
    StatusEvent {
        path: path.to_string(),
        major,
        minor,
        message: message.to_string(),
        uri_scheme: None,
        now: at(secs),
    }
}

fn registers_with(path: &str, config_path: &str, name: &str, major: u32, minor: u32) -> Registers {
    let mut reg = Registers::new();
    let s = new_session(path, config_path, name, SessionStatus::new(major, minor, String::new()));
    reg.tray.put_session(path, s);
    reg
}

#[test]
fn a_connected_session_is_protected_and_announced() {
    let mut reg = registers_with("/s", "/c", "Work", CONNECTION, CONNECTING);
    let settings = Settings::new(Some(values()));
    let actions = on_status_change(&mut reg, &settings, &event("/s", CONNECTION, CONNECTED, "", 5));
    assert_eq!(actions.len(), 2);
    assert!(matches!(&actions[0], StatusAction::Protect { session_path } if session_path == "/s"));
    match &actions[1] {
        StatusAction::Announce { previous: Some((name, before)), status } => {
            assert_eq!(name, "Work");
            assert_eq!(before.minor, StatusMinor::ConnConnecting);
            assert_eq!(status.minor, StatusMinor::ConnConnected);
        }
        other => panic!("{:?}", other),
    }
    let s = reg.tray.session("/s").unwrap();
    assert_eq!(s.connected_at, Some(at(5)));
    assert!(s.status.is_connected());
}

#[test]
fn a_repeated_report_does_nothing() {
    let mut reg = registers_with("/s", "/c", "Work", CONNECTION, CONNECTING);
    let settings = Settings::new(Some(values()));
    let ev = event("/s", CONNECTION, CONNECTED, "", 5);
    assert_eq!(on_status_change(&mut reg, &settings, &ev).len(), 2);
    let again = event("/s", CONNECTION, CONNECTED, "", 9);
    assert_eq!(on_status_change(&mut reg, &settings, &again).len(), 0);
    assert_eq!(reg.tray.session("/s").unwrap().connected_at, Some(at(5)));
}

#[test]
fn an_unknown_session_that_is_connected_is_asked_for_its_configuration() {
    let mut reg = Registers::new();
    let settings = Settings::new(Some(values()));
    let actions = on_status_change(&mut reg, &settings, &event("/s", CONNECTION, CONNECTED, "", 5));
    assert_eq!(actions.len(), 3);
    assert!(matches!(&actions[1], StatusAction::BackfillIdentity { session_path } if session_path == "/s"));
    assert!(matches!(&actions[2], StatusAction::Announce { previous: None, .. }));
    backfill_session_identity(&mut reg, "/s", Some("/c".into()), Some("Work".into()));
    let s = reg.tray.session("/s").unwrap();
    assert_eq!((s.config_path.as_str(), s.config_name.as_str()), ("/c", "Work"));
    backfill_session_identity(&mut reg, "/s", Some("/other".into()), Some("Other".into()));
    assert_eq!(reg.tray.session("/s").unwrap().config_name, "Work");
}

#[test]
fn a_pause_releases_the_firewall_only_if_it_may() {
    for (enabled, block, expected) in [
        (true, false, true),
        (true, true, false),
        (false, false, false),
        (false, true, false),
    ] {
        let mut v = values();
        v.enable_kill_switch = enabled;
        v.kill_switch_block_during_pause = block;
        let settings = Settings::new(Some(v));
        let mut reg = registers_with("/s", "/c", "Work", CONNECTION, CONNECTED);
        let actions = on_status_change(&mut reg, &settings, &event("/s", CONNECTION, PAUSED, "", 5));
        let released = actions
            .iter()
            .any(|a| matches!(a, StatusAction::ReleaseForPause { session_path } if session_path == "/s"));
        assert_eq!(released, expected);
    }
}

#[test]
fn a_connecting_session_is_watched() {
    let mut reg = registers_with("/s", "/c", "Work", CONNECTION, 5);
    let settings = Settings::new(Some(values()));
    let actions =
        on_status_change(&mut reg, &settings, &event("/s", CONNECTION, CONNECTING, "", 5));
    match &actions[0] {
        StatusAction::WatchTimeout { session_path, generation, seconds } => {
            assert_eq!(session_path, "/s");
            assert_eq!(*generation, 1);
            assert_eq!(*seconds, 45);
        }
        other => panic!("{:?}", other),
    }
    let toast = end_timeout_watch(&reg, "/s", 1).unwrap();
    assert_eq!(toast.summary, "Work: Still Connecting");
    assert_eq!(
        toast.body,
        "Connection to 'Work' is taking longer than expected. You can disconnect and try again."
    );
    assert_eq!(toast.urgency, 2);
}

#[test]
fn only_the_latest_watch_warns() {
    let mut reg = registers_with("/s", "/c", "Work", CONNECTION, CONNECTING);
    assert_eq!(begin_timeout_watch(&mut reg, "/s"), 1);
    assert_eq!(begin_timeout_watch(&mut reg, "/s"), 2);
    assert!(end_timeout_watch(&reg, "/s", 1).is_none());
    assert!(end_timeout_watch(&reg, "/s", 2).is_some());
    assert!(end_timeout_watch(&reg, "/other", 2).is_none());
    reg.timeouts.insert("/s".into(), u64::MAX);
    assert_eq!(begin_timeout_watch(&mut reg, "/s"), 0);
}

#[test]
fn three_failed_logins_end_the_session() {
    let mut reg = registers_with("/s", "/c", "Work", CONNECTION, CONNECTING);
    let settings = Settings::new(Some(values()));
    for (secs, minor_before) in [(10u64, CONNECTING), (20, CONNECTING)] {
        let _ = on_status_change(
            &mut reg,
            &settings,
            &event("/s", CONNECTION, minor_before, "", secs),
        );
        let actions = on_status_change(
            &mut reg,
            &settings,
            &event("/s", CONNECTION, AUTH_FAILED, "", secs + 1),
        );
        assert_eq!(actions.len(), 2);
        match &actions[0] {
            StatusAction::Notify { toast } => {
                assert_eq!(toast.summary, "Work: Authentication Failed");
                assert_eq!(toast.body, "Wrong credentials for 'Work'. Retrying...");
            }
            other => panic!("{:?}", other),
        }
        assert!(matches!(&actions[1], StatusAction::RetryTunnel { config_path, .. } if config_path == "/c"));
    }
    assert!(reg.auth_retry.contains("/s"));
    let _ = on_status_change(&mut reg, &settings, &event("/s", CONNECTION, CONNECTING, "", 30));
    let actions =
        on_status_change(&mut reg, &settings, &event("/s", CONNECTION, AUTH_FAILED, "", 31));
    assert_eq!(actions.len(), 1);
    match &actions[0] {
        StatusAction::DisconnectWithMessage { session_path, title, body } => {
            assert_eq!(session_path, "/s");
            assert_eq!(title, "Authentication Failed");
            assert_eq!(body, "Too many failed attempts for 'Work'. Session disconnected.");
        }
        other => panic!("{:?}", other),
    }
    assert!(reg.user_disconnected.contains("/s"));
    assert!(!reg.attempts.get("/c").is_some());
}

#[test]
fn a_connection_restores_the_budget() {
    let mut reg = registers_with("/s", "/c", "Work", CONNECTION, CONNECTING);
    let settings = Settings::new(Some(values()));
    let _ = on_status_change(&mut reg, &settings, &event("/s", CONNECTION, AUTH_FAILED, "", 1));
    assert_eq!(reg.attempts.get("/c").unwrap().count, 1);
    let _ = on_status_change(&mut reg, &settings, &event("/s", CONNECTION, CONNECTED, "", 2));
    assert!(!reg.attempts.get("/c").is_some());
}

#[test]
fn failures_and_errors_are_told_in_full() {
    let mut reg = registers_with("/s", "/c", "Work", CONNECTION, CONNECTING);
    match handle_conn_failed(&mut reg, "/s") {
        StatusAction::DisconnectWithMessage { title, body, .. } => {
            assert_eq!(title, "Connection Failed");
            assert_eq!(body, "Connection failed for 'Work'. Please try again.");
        }
        other => panic!("{:?}", other),
    }
    match handle_session_error(&mut reg, "/s", "") {
        StatusAction::DisconnectWithMessage { title, body, .. } => {
            assert_eq!(title, "VPN Error");
            assert_eq!(body, "VPN error for 'Work'.");
        }
        other => panic!("{:?}", other),
    }
    match handle_session_error(&mut reg, "/s", "no route") {
        StatusAction::DisconnectWithMessage { body, .. } => {
            assert_eq!(body, "VPN error for 'Work': no route");
        }
        other => panic!("{:?}", other),
    }
    assert!(reg.user_disconnected.contains("/s"));
    let settings = Settings::new(Some(values()));
    let mut reg = registers_with("/s", "/c", "Work", CONNECTION, CONNECTING);
    let actions = on_status_change(&mut reg, &settings, &event("/s", CONNECTION, FAILED, "", 1));
    assert_eq!(actions.len(), 1);
}

#[test]
fn a_waiting_session_is_answered_by_its_kind() {
    let reg = registers_with("/s", "/c", "Work", SESSION, 17);
    let settings = Settings::new(Some(values()));
    let input = try_handle_auth(&reg, &settings, &event("/s", CONNECTION, 4, "", 1)).unwrap();
    assert!(matches!(&input, StatusAction::QueryInput { config_path, config_name, .. }
        if config_path == "/c" && config_name == "Work"));
    let login = try_handle_auth(&reg, &settings, &event("/s", SESSION, 20, "", 1)).unwrap();
    assert!(matches!(&login, StatusAction::RequestCredentials { .. }));
    let code = try_handle_auth(&reg, &settings, &event("/s", SESSION, 21, "", 1)).unwrap();
    assert!(matches!(&code, StatusAction::RequestCredentials { .. }));
    let mut ev = event("/s", SESSION, 22, " https://login.example/x ", 1);
    ev.uri_scheme = Some("HTTPS".into());
    match try_handle_auth(&reg, &settings, &ev).unwrap() {
        StatusAction::BrowserAuth { notice, launch } => {
            let notice = notice.unwrap();
            assert_eq!(notice.summary, "Work: Browser Authentication Required");
            assert_eq!(notice.body, "Opening browser for authentication:\nhttps://login.example/x");
            assert_eq!(launch.unwrap(), "https://login.example/x");
        }
        other => panic!("{:?}", other),
    }
    assert!(try_handle_auth(&reg, &settings, &event("/s", CONNECTION, CONNECTED, "", 1)).is_none());
}

#[test]
fn a_status_is_announced_only_when_it_reads_differently() {
    let settings = Settings::new(Some(values()));
    let told = send_status_notification(
        &settings,
        &Some(("Work".into(), "Connecting".into())),
        "Connected",
    )
    .unwrap();
    assert_eq!(told.summary, "VPN: Work");
    assert_eq!(told.body, "Work: Status change from Connecting to Connected");
    assert_eq!(told.dedup_key, "Work");
    assert!(send_status_notification(&settings, &Some(("Work".into(), "X".into())), "X").is_none());
    let first = send_status_notification(&settings, &None, "Connected").unwrap();
    assert_eq!(first.summary, "VPN: VPN Connection");
    assert_eq!(first.body, "Connected");
    let quiet = with(|v| v.show_notifications = false);
    assert!(send_status_notification(&quiet, &None, "Connected").is_none());
}

#[test]
fn upserting_tells_whether_the_session_was_unknown() {
    let mut reg = Registers::new();
    let status = SessionStatus::new(CONNECTION, CONNECTED, String::new());
    assert!(upsert_session_state(&mut reg, "/s", status, at(1)));
    assert!(!upsert_session_state(&mut reg, "/s", status, at(2)));
    assert!(reg.tray.session("/s").is_some());
}

#[test]
fn an_expected_drop_leads_to_a_teardown() {
    let settings = with(|v| v.auto_reconnect = true);
    let mut reg = registers_with("/s", "/c", "Work", CONNECTION, CONNECTED);
    handle_disconnect(&mut reg, "/s");
    assert!(matches!(
        handle_session_destroyed(&mut reg, &settings, "/s"),
        DropAnswer::Teardown { auth_retry: false }
    ));
    handle_cancelled_login(&mut reg, "/s");
    assert!(matches!(
        handle_session_destroyed(&mut reg, &settings, "/s"),
        DropAnswer::Teardown { auth_retry: false }
    ));
    reg.auth_retry.insert("/s");
    assert!(matches!(
        handle_session_destroyed(&mut reg, &settings, "/s"),
        DropAnswer::Teardown { auth_retry: true }
    ));
    assert!(!reg.auth_retry.contains("/s"));
    assert!(!reg.user_disconnected.contains("/s"));
}

#[test]
fn an_unexpected_drop_leads_to_a_reconnect() {
    let offer = Settings::new(Some(values()));
    let mut reg = registers_with("/s", "/c", "Work", CONNECTION, CONNECTED);
    match handle_session_destroyed(&mut reg, &offer, "/s") {
        DropAnswer::OfferReconnect { config_path, config_name } => {
            assert_eq!((config_path.as_str(), config_name.as_str()), ("/c", "Work"));
        }
        other => panic!("{:?}", other),
    }
    let auto = with(|v| v.auto_reconnect = true);
    match handle_session_destroyed(&mut reg, &auto, "/s") {
        DropAnswer::AutoReconnect { config_path, delay, .. } => {
            assert_eq!(config_path, "/c");
            assert_eq!(delay, 30);
        }
        other => panic!("{:?}", other),
    }
    assert!(matches!(handle_session_destroyed(&mut reg, &auto, "/none"), DropAnswer::Nothing));
    let mut nameless = registers_with("/s", "", "VPN Connection", CONNECTION, CONNECTED);
    assert!(matches!(handle_session_destroyed(&mut nameless, &auto, "/s"), DropAnswer::Nothing));
}

#[test]
fn a_session_that_left_the_tray_early_is_still_reconnected() {
    let settings = Settings::new(Some(values()));
    let mut reg = registers_with("/s", "/c", "Work", CONNECTION, CONNECTED);
    let actions =
        on_status_change(&mut reg, &settings, &event("/s", CONNECTION, DISCONNECTED, "", 1));
    assert!(matches!(&actions[0], StatusAction::RemoveLater { session_path } if session_path == "/s"));
    reg.tray.remove_session("/s");
    assert!(matches!(
        handle_session_destroyed(&mut reg, &settings, "/s"),
        DropAnswer::OfferReconnect { .. }
    ));
    assert!(matches!(
        handle_session_destroyed(&mut reg, &settings, "/s"),
        DropAnswer::Nothing
    ));
}

#[test]
fn what_was_remembered_of_a_session_is_taken_once() {
    let mut reg = Registers::new();
    reg.remember_destroyed("/s", "/c", "Work");
    assert_eq!(reg.take_destroyed("/s"), Some(("/c".to_string(), "Work".to_string())));
    assert_eq!(reg.take_destroyed("/s"), None);
    let mut nameless = registers_with("/s", "", "VPN Connection", CONNECTION, CONNECTED);
    schedule_disconnected_removal(&mut nameless, "/s");
    assert_eq!(nameless.take_destroyed("/s"), None);
}

#[test]
fn an_announced_session_is_entered_once() {
    let mut tray = VpnTray::new();
    handle_session_created(&mut tray, "/s", None, None, None);
    let s = tray.session("/s").unwrap();
    assert_eq!((s.config_path.as_str(), s.config_name.as_str()), ("", "VPN Connection"));
    assert_eq!(s.status.major, StatusMajor::Unset);
    handle_session_created(
        &mut tray,
        "/s",
        Some("/c".into()),
        Some("Work".into()),
        Some((CONNECTION, CONNECTED)),
    );
    let s = tray.session("/s").unwrap();
    assert_eq!((s.config_path.as_str(), s.config_name.as_str()), ("/c", "Work"));
    assert_eq!(s.status.major, StatusMajor::Unset);
    handle_session_created(&mut tray, "/s", Some("/d".into()), Some("Home".into()), None);
    assert_eq!(tray.session("/s").unwrap().config_path, "/c");
}

#[test]
fn connecting_replaces_what_is_left_of_a_configuration() {
    let mut tray = VpnTray::new();
    let mut settings = Settings::new(Some(values()));
    tray.configs.push(ConfigInfo { path: "/c".into(), name: "Work".into() });
    session_started(&mut tray, "/old", "/c", "Work");
    session_started(&mut tray, "/other", "/d", "Home");
    assert_eq!(begin_connect(&mut tray, &mut settings, "/c"), "Work");
    assert!(tray.session("/old").is_none());
    assert!(tray.session("/other").is_some());
    assert_eq!(settings.get_most_recent_config(), ("/c".to_string(), "Work".to_string()));
    session_started(&mut tray, "/new", "/c", "Work");
    assert_eq!(tray.sessions.len(), 2);
    assert_eq!(begin_connect(&mut tray, &mut settings, "/none"), "Unknown");
}

#[test]
fn a_starting_service_is_tried_four_times() {
    let starting = Some("org.freedesktop.DBus.Error.ServiceUnknown".to_string());
    assert_eq!(new_tunnel_retry(1, &starting), Some(500));
    assert_eq!(new_tunnel_retry(2, &starting), Some(1000));
    assert_eq!(new_tunnel_retry(3, &starting), Some(2000));
    assert_eq!(new_tunnel_retry(4, &starting), None);
    assert_eq!(new_tunnel_retry(0, &starting), None);
    assert_eq!(new_tunnel_retry(1, &Some("org.freedesktop.DBus.Error.Failed".into())), None);
    assert_eq!(new_tunnel_retry(1, &None), None);
}

#[test]
fn a_bus_error_is_judged_by_its_name() {
    let call = zbus::Message::method_call("/a", "B").unwrap().build(&()).unwrap();
    let name = zbus::names::OwnedErrorName::try_from("org.freedesktop.DBus.Error.UnknownObject")
        .unwrap();
    let starting = zbus::Error::MethodError(name, None, call.clone());
    assert!(is_retryable_activation_error(&starting));
    assert_eq!(after_tunnel_error(2, &starting), Some(1000));
    let name = zbus::names::OwnedErrorName::try_from("org.freedesktop.DBus.Error.AccessDenied")
        .unwrap();
    let denied = zbus::Error::MethodError(name, None, call);
    assert!(!is_retryable_activation_error(&denied));
    assert_eq!(after_tunnel_error(2, &denied), None);
    assert!(!is_retryable_activation_error(&zbus::Error::InvalidReply));
}

#[test]
fn a_stalled_session_is_reconnected_once_for_its_configuration() {
    let rules = PollRules { stall_threshold: 60, auto_reconnect: true, cooldown_secs: 60 };
    let mut reg = registers_with("/s", "/c", "Work", CONNECTION, CONNECTED);
    assert!(!poll_session(&mut reg, "/s", 10, 20, rules, at(1000)));
    assert_eq!(reg.tray.session("/s").unwrap().bytes_in, 10);
    assert!(!poll_session(&mut reg, "/s", 10, 20, rules, at(1030)));
    assert!(!poll_session(&mut reg, "/s", 10, 20, rules, at(1089)));
    assert!(poll_session(&mut reg, "/s", 10, 20, rules, at(1090)));
    assert_eq!(last_auto_reconnect_attempt(&reg, "/c"), Some(at(1090)));
    let mut successor = new_session(
        "/next",
        "/c",
        "Work",
        SessionStatus::new(CONNECTION, CONNECTED, String::new()),
    );
    successor.idle_started_at = Some(at(100));
    successor.idle_since = Some(at(100));
    reg.tray.put_session("/next", successor);
    assert!(!poll_session(&mut reg, "/next", 0, 0, rules, at(1149)));
    assert!(poll_session(&mut reg, "/next", 0, 0, rules, at(1150)));
    assert!(!poll_session(&mut reg, "/gone", 0, 0, rules, at(1400)));
}

#[test]
fn the_poll_goes_by_the_settings() {
    let settings = with(|v| {
        v.auto_reconnect = true;
        v.auto_reconnect_delay_seconds = 45;
        v.health_check_stall_seconds = 90;
    });
    let rules = poll_rules(&settings);
    assert_eq!(rules.stall_threshold, 90);
    assert!(rules.auto_reconnect);
    assert_eq!(rules.cooldown_secs, 90);
    let mut reg = Registers::new();
    assert_eq!(last_auto_reconnect_attempt(&reg, "/c"), None);
    record_auto_reconnect_attempt(&mut reg, "/c", at(7));
    assert_eq!(last_auto_reconnect_attempt(&reg, "/c"), Some(at(7)));
}

#[test]
fn the_user_marks_what_they_end() {
    let mut reg = registers_with("/s", "/c", "Work", CONNECTION, AUTH_FAILED);
    let settings = Settings::new(Some(values()));
    let _ = on_status_change(&mut reg, &settings, &event("/s", CONNECTION, AUTH_FAILED, "", 1));
    assert!(reg.attempts.get("/c").is_some());
    handle_reconnect(&mut reg, "/s");
    assert!(reg.user_disconnected.contains("/s"));
    assert!(reg.attempts.get("/c").is_some());
    handle_disconnect(&mut reg, "/s");
    assert!(!reg.attempts.get("/c").is_some());
    let _ = on_status_change(&mut reg, &settings, &event("/s", CONNECTION, CONNECTING, "", 2));
    let _ = on_status_change(&mut reg, &settings, &event("/s", CONNECTION, AUTH_FAILED, "", 3));
    handle_remove_config(&mut reg, "/c");
    assert!(!reg.attempts.get("/c").is_some());
}

#[test]
fn quitting_is_confirmed_while_a_protected_session_is_up() {
    let protected = with(|v| v.enable_kill_switch = true);
    let open = Settings::new(Some(values()));
    let up = registers_with("/s", "/c", "Work", CONNECTION, CONNECTED);
    let down = registers_with("/s", "/c", "Work", CONNECTION, DISCONNECTED);
    assert!(quit_needs_confirmation(&up.tray, &protected));
    assert!(!quit_needs_confirmation(&up.tray, &open));
    assert!(!quit_needs_confirmation(&down.tray, &protected));
}

#[test]
fn a_session_is_asked_whether_it_is_ready() {
    assert_eq!(after_ready(true, false), ReadyStep::Connect);
    assert_eq!(after_ready(true, true), ReadyStep::Wait);
    assert_eq!(after_ready(false, false), ReadyStep::AskUser);
    assert_eq!(after_ready(false, true), ReadyStep::AskUser);
    assert_eq!(session_action("disconnect"), Some(SessionAction::Disconnect));
    assert_eq!(session_action("pause"), Some(SessionAction::Pause));
    assert_eq!(session_action("resume"), Some(SessionAction::Resume));
    assert_eq!(session_action("restart"), Some(SessionAction::Restart));
    assert_eq!(session_action("reboot"), None);
}

#[test]
fn the_plan_holds_the_enabled_networks() {
    let settings = with(|v| {
        v.bypass_cidrs = vec!["10.0.0.0/8".into(), "192.168.0.0/16".into()];
        v.bypass_cidrs_disabled = vec!["10.0.0.0/8".into()];
        v.kill_switch_allow_lan = true;
    });
    let plan = protect_plan(&settings);
    assert_eq!(plan.bypass, vec!["192.168.0.0/16".to_string()]);
    assert!(!plan.kill_switch);
    assert!(plan.allow_lan);
    assert!(reapply_due(1, &plan));
    assert!(!reapply_due(0, &plan));
    assert!(!reapply_due(1, &protect_plan(&Settings::new_empty())));
}

#[test]
fn what_was_not_read_has_a_default() {
    assert_eq!(or_text(Some("a".into()), "b"), "a");
    assert_eq!(or_text(None, "b"), "b");
    assert_eq!(decode_status(None).major, StatusMajor::Unset);
    assert!(decode_status(Some((CONNECTION, CONNECTED))).is_connected());
    assert_eq!(decode_status(Some((99, 99))).minor, StatusMinor::Unset);
}

#[test]
fn a_status_is_sorted_by_its_numbers() {
    let s = |major, minor| SessionStatus::new(major, minor, "text".into());
    assert!(s(CONNECTION, CONNECTING).is_connecting());
    assert!(s(CONNECTION, PAUSED).is_paused());
    assert!(s(CONNECTION, DISCONNECTED).is_disconnected());
    assert!(s(CONNECTION, 16).is_disconnected());
    assert!(s(CONNECTION, FAILED).is_error());
    assert!(s(CONNECTION, AUTH_FAILED).is_error());
    assert!(s(1, 1).is_error());
    assert!(s(5, 29).is_error());
    assert!(!s(CONNECTION, CONNECTED).is_error());
    assert!(s(CONNECTION, 4).needs_user_input());
    assert!(s(SESSION, 20).needs_credentials());
    assert!(s(SESSION, 21).needs_challenge());
    assert!(s(SESSION, 22).needs_url_auth());
    assert!(s(SESSION, 22).is_auth_request());
    assert!(!s(SESSION, 19).is_auth_request());
    assert_eq!(SessionManagerEventType::from_number(1), Some(SessionManagerEventType::SessCreated));
    assert_eq!(
        SessionManagerEventType::from_number(2),
        Some(SessionManagerEventType::SessDestroyed)
    );
    assert_eq!(SessionManagerEventType::from_number(3), None);
    assert_ne!(MessageType::Signal, MessageType::MethodCall);
}
