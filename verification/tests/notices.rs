use openvpn3_gui_rs::auth::{auth_request, browser_auth, AuthRequest};
use openvpn3_gui_rs::autostart::{
    autostart_path, is_enabled, launch_on_login_toggled, sync_gsettings_from_fs, AutostartBase,
};
use openvpn3_gui_rs::configs::{
    default_import_name, export_failure_notice, failure_notice, fetch_config_infos,
    forget_notice, forget_question, import_is_named, import_notice, judge_import,
    monitoring_failure_notice, protect_failure_notice, reapply_failure_notice, refresh_configs,
    rejection_text, removal_notice, removal_question, show_import_result_dialog,
    startup_failure_notice, FailedAction, ForgetResult, ImportVerdict,
};
use openvpn3_gui_rs::notify::{
    after_send, clear_all, clear_notification_dedup, handle_first_run_action,
    handle_reconnect_action, is_text, record, resolve_replaces_id, show_bypass_active_notification,
    show_bypass_drift_notification, show_bypass_failed_notification,
    show_bypass_partial_notification, show_bypass_recovered_notification,
    show_connection_notification, show_error_notification, show_first_run_help_notification, show_helper_missing_notification, show_info_notification,
    show_killswitch_active_notification, show_killswitch_inactive_notification,
    show_reconnect_notification, withdraw_first_run_help_notification, NotificationIds,
    ReconnectChoice, SendError, SendStep, EXPIRE_DEFAULT, EXPIRE_NEVER, FIRST_RUN_HELP_KEY,
};
use openvpn3_gui_rs::protocol::{MessageType, SessionStatus};
use openvpn3_gui_rs::service::{
    handle_config_service_appeared, handle_sessions_service_lost, parse_name_owner_changed,
    service_news, sessions_lost_notices, ServiceNews,
};
use openvpn3_gui_rs::settings::{Settings, SettingsValues};
use openvpn3_gui_rs::tray::{new_session, BypassState, ConfigInfo, VpnTray};

fn values() -> SettingsValues {
    SettingsValues {
        startup_action: "".into(),
        most_recent_config_id: "".into(),
        most_recent_config_name: "".into(),
        specific_config_path: "".into(),
        stats_refresh_interval: 30,
        connection_timeout: 45,
        health_check_stall_seconds: 60,
        auto_reconnect_delay_seconds: 30,
        warn_on_unexpected_disconnect: true,
        auto_reconnect: false,
        show_notifications: true,
        enable_kill_switch: false,
        kill_switch_allow_lan: false,
        show_first_run_help: true,
        launch_on_login: false,
        kill_switch_block_during_pause: false,
        bypass_cidrs: Vec::new(),
        bypass_cidrs_disabled: Vec::new(),
        bypass_cidrs_max_count: 16,
        logs_window_width: 800,
        logs_window_height: 600,
    }
}

fn loud() -> Settings {
    Settings::new(Some(values()))
}

fn quiet() -> Settings {
    let mut v = values();
    v.show_notifications = false;
    v.warn_on_unexpected_disconnect = false;
    v.show_first_run_help = false;
    Settings::new(Some(v))
}

fn tray() -> VpnTray {
    let mut tray = VpnTray::new();
    let mut s = new_session("/s", "/c", "Work", SessionStatus::new(2, 7, String::new()));
    s.kill_switch_active = true;
    tray.put_session("/s", s);
    tray.configs.push(ConfigInfo { path: "/c".into(), name: "Work".into() });
    tray.bypass_state = BypassState::Active { applied: 1, failed: 0 };
    tray
}

#[test]
fn plain_notifications_are_keyed_by_their_title() {
    let info = show_info_notification(&loud(), "Title", "Text").unwrap();
    assert_eq!((info.summary.as_str(), info.body.as_str()), ("Title", "Text"));
    assert_eq!(info.dedup_key, "Title");
    assert_eq!((info.urgency, info.expire_timeout), (1, EXPIRE_DEFAULT));
    assert_eq!(info.icon, "network-vpn");
    assert!(show_info_notification(&quiet(), "Title", "Text").is_none());
    let error = show_error_notification("Title", "Text");
    assert_eq!(error.urgency, 2);
    let conn = show_connection_notification(&loud(), "Work", "Connected").unwrap();
    assert_eq!((conn.summary.as_str(), conn.dedup_key.as_str()), ("VPN: Work", "Work"));
    assert!(show_connection_notification(&quiet(), "Work", "Connected").is_none());
}

#[test]
fn the_kill_switch_has_one_notification() {
    let on = show_killswitch_active_notification(&loud()).unwrap();
    let off = show_killswitch_inactive_notification(&loud()).unwrap();
    assert_eq!(on.dedup_key, off.dedup_key);
    assert_eq!(on.summary, "Kill-Switch Active");
    assert_eq!((on.urgency, on.expire_timeout), (2, EXPIRE_NEVER));
    assert_eq!(off.summary, "Kill-Switch Inactive");
    assert_eq!((off.urgency, off.expire_timeout), (1, EXPIRE_DEFAULT));
    assert!(show_killswitch_active_notification(&quiet()).is_none());
    assert!(show_killswitch_inactive_notification(&quiet()).is_none());
    assert!(show_helper_missing_notification(&loud()).is_some());
}

#[test]
fn the_bypass_notifications_count_and_list() {
    let one = show_bypass_active_notification(&loud(), 1).unwrap();
    assert_eq!(one.body, "1 bypass network routed outside the VPN tunnel.");
    let many = show_bypass_active_notification(&loud(), 12).unwrap();
    assert_eq!(many.body, "12 bypass networks routed outside the VPN tunnel.");
    let failed: Vec<(String, String)> =
        (0..7).map(|i| (format!("10.{}.0.0/16", i), "x".to_string())).collect();
    let partial = show_bypass_partial_notification(&loud(), 3, &failed).unwrap();
    assert_eq!(
        partial.body,
        "3 bypass network(s) routed; 7 failed: 10.0.0.0/16, 10.1.0.0/16, 10.2.0.0/16, 10.3.0.0/16, 10.4.0.0/16 (+2 more)"
    );
    assert!(show_bypass_failed_notification(&loud()).is_some());
    assert!(show_bypass_failed_notification(&quiet()).is_none());
    let drift = show_bypass_drift_notification(&loud(), &vec!["10.0.0.0/8".into()]).unwrap();
    assert_eq!(
        drift.body,
        "1 bypass CIDR(s) missing from the firewall — bypassed hosts may not route correctly: 10.0.0.0/8\nReconnect to re-install them."
    );
    assert!(show_bypass_drift_notification(&loud(), &vec![]).is_none());
}

#[test]
fn the_recovery_replaces_the_warning_about_drift() {
    let warning = show_bypass_drift_notification(&loud(), &vec!["10.0.0.0/8".into()]).unwrap();
    let news = show_bypass_recovered_notification(&loud()).unwrap();
    assert_eq!(warning.expire_timeout, EXPIRE_NEVER);
    assert_eq!((news.urgency, news.expire_timeout), (1, EXPIRE_DEFAULT));
    assert_eq!(news.body, "All bypass networks are in the firewall again.");
    let mut ids = NotificationIds::new();
    record(&mut ids, &warning.dedup_key, 7);
    assert_eq!(resolve_replaces_id(&ids, &news.dedup_key), 7);
    assert!(show_bypass_recovered_notification(&quiet()).is_none());
}

#[test]
fn a_stale_notification_is_sent_once_more() {
    assert!(matches!(after_send(Ok(7), 3), SendStep::Done(7)));
    assert!(matches!(after_send(Err(SendError::Call("x".into())), 3), SendStep::Again(0)));
    assert!(matches!(
        after_send(Err(SendError::Call("x".into())), 0),
        SendStep::Failed(SendError::Call(_))
    ));
    assert!(matches!(
        after_send(Err(SendError::Deserialize("x".into())), 3),
        SendStep::Failed(SendError::Deserialize(_))
    ));
}

#[test]
fn the_help_is_withdrawn_once() {
    let mut ids: NotificationIds = NotificationIds::new();
    assert_eq!(withdraw_first_run_help_notification(&mut ids), None);
    record(&mut ids, FIRST_RUN_HELP_KEY, 9);
    assert_eq!(withdraw_first_run_help_notification(&mut ids), Some(9));
    assert_eq!(withdraw_first_run_help_notification(&mut ids), None);
    record(&mut ids, "a", 1);
    clear_all(&mut ids);
    assert_eq!(resolve_replaces_id(&ids, "a"), 0);
    record(&mut ids, "a", 1);
    clear_notification_dedup(&mut ids);
    assert_eq!(ids.len(), 0);
}

#[test]
fn a_drop_is_offered_for_reconnection() {
    let spec = show_reconnect_notification(&loud(), "Work").unwrap();
    assert_eq!(spec.summary, "VPN Disconnected");
    assert_eq!(spec.body, "'Work' disconnected unexpectedly.");
    assert_eq!(spec.actions, vec!["reconnect", "Reconnect", "dismiss", "Dismiss"]);
    assert!(show_reconnect_notification(&quiet(), "Work").is_none());
    assert!(show_first_run_help_notification(&loud()).is_some());
    assert!(show_first_run_help_notification(&quiet()).is_none());
    let mut t = tray();
    assert_eq!(handle_reconnect_action("reconnect", &mut t), ReconnectChoice::Reconnect);
    assert_eq!(handle_reconnect_action("else", &mut t), ReconnectChoice::Ignore);
    assert!(t.session("/s").unwrap().kill_switch_active);
    assert_eq!(handle_reconnect_action("dismiss", &mut t), ReconnectChoice::Dismiss);
    assert!(!t.session("/s").unwrap().kill_switch_active);
    assert_eq!(t.bypass_state, BypassState::Off);
}

#[test]
fn the_help_can_be_switched_off() {
    let mut settings = loud();
    assert!(handle_first_run_action("preferences", &mut settings));
    assert!(settings.show_first_run_help());
    assert!(!handle_first_run_action("dont-show", &mut settings));
    assert!(!settings.show_first_run_help());
    assert!(!handle_first_run_action("else", &mut settings));
    assert!(is_text(&Some("a".into()), "a"));
    assert!(!is_text(&Some("a".into()), "b"));
    assert!(!is_text(&None, "a"));
}

#[test]
fn a_request_is_told_from_the_status() {
    let s = |major, minor| SessionStatus::new(major, minor, String::new());
    assert_eq!(auth_request(&s(2, 4)), Some(AuthRequest::UserInput));
    assert_eq!(auth_request(&s(3, 20)), Some(AuthRequest::Credentials));
    assert_eq!(auth_request(&s(3, 21)), Some(AuthRequest::Credentials));
    assert_eq!(auth_request(&s(3, 22)), Some(AuthRequest::Url));
    assert_eq!(auth_request(&s(2, 7)), None);
}

#[test]
fn only_web_addresses_are_opened() {
    let (toast, launch) = browser_auth(&loud(), "Work", "", &None);
    assert_eq!(toast.unwrap().body, "Please complete authentication in your browser.");
    assert_eq!(launch, None);
    let (toast, launch) = browser_auth(&loud(), "Work", "file:///etc/passwd", &Some("file".into()));
    assert_eq!(
        toast.unwrap().body,
        "The VPN server sent an authentication address that is not a web link, so it was not opened:\nfile:///etc/passwd"
    );
    assert_eq!(launch, None);
    let (toast, launch) = browser_auth(&quiet(), "Work", "http://x ", &Some("Http".into()));
    assert!(toast.is_none());
    assert_eq!(launch.as_deref(), Some("http://x"));
}

#[test]
fn the_entry_lies_below_a_known_directory() {
    let xdg = autostart_path(true, true).unwrap();
    assert_eq!(xdg.base, AutostartBase::XdgConfigHome);
    assert_eq!(xdg.below, vec!["autostart", "net.openvpn.openvpn3_gui_rs.desktop"]);
    let home = autostart_path(false, true).unwrap();
    assert_eq!(home.base, AutostartBase::Home);
    assert_eq!(home.below, vec![".config", "autostart", "net.openvpn.openvpn3_gui_rs.desktop"]);
    assert!(autostart_path(false, false).is_none());
    assert!(is_enabled(Some(true)));
    assert!(!is_enabled(Some(false)));
    assert!(!is_enabled(None));
}

#[test]
fn the_login_setting_follows_the_entry() {
    let mut settings = loud();
    sync_gsettings_from_fs(&mut settings, Some(true));
    assert!(settings.launch_on_login());
    sync_gsettings_from_fs(&mut settings, None);
    assert!(!settings.launch_on_login());
    assert!(launch_on_login_toggled(&mut settings, true, &Ok(())).is_none());
    assert!(settings.launch_on_login());
    let toast = launch_on_login_toggled(&mut settings, false, &Err("denied".into())).unwrap();
    assert_eq!(toast.summary, "Launch on Login Failed");
    assert_eq!(toast.body, "Could not update autostart entry: denied");
    assert!(settings.launch_on_login());
}

#[test]
fn configurations_without_a_name_are_left_out() {
    let reads = vec![
        ("/a".to_string(), Some("A".to_string())),
        ("/b".to_string(), None),
        ("/c".to_string(), Some("C".to_string())),
    ];
    let infos = fetch_config_infos(&reads);
    assert_eq!(infos.len(), 2);
    assert_eq!((infos[1].path.as_str(), infos[1].name.as_str()), ("/c", "C"));
    let mut t = tray();
    refresh_configs(&mut t, &reads);
    assert_eq!(t.configs.len(), 2);
    assert_eq!(default_import_name(Some("office".into())), "office");
    assert_eq!(default_import_name(None), "VPN");
    assert!(import_is_named("x"));
    assert!(!import_is_named(""));
}

#[test]
fn an_import_is_judged_by_its_check() {
    assert_eq!(judge_import(&None), ImportVerdict::Keep);
    for supported in ["UnknownMethod", "NoSuchMethod", "does not exist", "No such interface"] {
        assert_eq!(judge_import(&Some(format!("x {} y", supported))), ImportVerdict::Keep);
    }
    assert_eq!(judge_import(&Some("missing remote".into())), ImportVerdict::Reject);
    assert_eq!(rejection_text("missing remote"), "configuration failed validation: missing remote");
    let ok = import_notice(&loud(), "Work", &None).unwrap();
    assert_eq!(ok.body, "Configuration 'Work' has been imported");
    let bad = import_notice(&quiet(), "Work", &Some("x".into())).unwrap();
    assert_eq!(bad.body, "Could not import configuration: x");
    assert_eq!(
        show_import_result_dialog(true, "Work", &None).1,
        "Configuration 'Work' has been imported."
    );
    assert_eq!(
        show_import_result_dialog(false, "Work", &Some("x".into())),
        ("Import Failed".to_string(), "Could not import configuration 'Work':\nx".to_string())
    );
    assert_eq!(
        show_import_result_dialog(false, "Work", &None).1,
        "Could not import configuration 'Work'."
    );
}

#[test]
fn removals_and_failures_are_told() {
    assert_eq!(
        removal_notice(&loud(), &None).unwrap().body,
        "Configuration has been removed"
    );
    assert_eq!(
        removal_notice(&quiet(), &Some("x".into())).unwrap().body,
        "Could not remove configuration: x"
    );
    assert_eq!(
        forget_notice(&loud(), "Work", &ForgetResult::Forgotten(0)).unwrap().body,
        "No saved credentials found for 'Work'."
    );
    assert_eq!(
        forget_notice(&loud(), "Work", &ForgetResult::Forgotten(2)).unwrap().body,
        "2 saved credential(s) removed for 'Work'."
    );
    assert_eq!(
        forget_notice(&quiet(), "Work", &ForgetResult::Locked).unwrap().body,
        "Keyring is locked — saved credentials could not be forgotten."
    );
    assert_eq!(
        forget_notice(&quiet(), "Work", &ForgetResult::Failed("x".into())).unwrap().body,
        "Could not forget credentials: x"
    );
    assert_eq!(
        removal_question("Work"),
        "Remove configuration 'Work'?\n\nThis action cannot be undone."
    );
    assert!(forget_question("Work").starts_with("Forget saved credentials for 'Work'?\n\n"));
    for (action, title, text) in [
        (FailedAction::Connect, "Connection Failed", "Could not connect to VPN: e"),
        (FailedAction::Reconnect, "Reconnect Failed", "Could not reconnect to VPN: e"),
        (FailedAction::Disconnect, "Disconnect Failed", "Could not disconnect VPN session: e"),
        (FailedAction::Pause, "Pause Failed", "Could not pause VPN session: e"),
        (FailedAction::Resume, "Resume Failed", "Could not resume VPN session: e"),
        (FailedAction::Restart, "Restart Failed", "Could not restart VPN session: e"),
    ] {
        let toast = failure_notice(action, "e");
        assert_eq!((toast.summary.as_str(), toast.body.as_str()), (title, text));
    }
    assert_eq!(startup_failure_notice("Work", "e").body, "Could not connect to 'Work': e");
    assert_eq!(
        reapply_failure_notice("e").body,
        "Firewall rules could not be re-applied after restart: e"
    );
    assert_eq!(protect_failure_notice("e").body, "Firewall rules could not be applied: e");
    assert_eq!(export_failure_notice("/x", "e").body, "Could not write to /x: e");
    assert_eq!(monitoring_failure_notice().summary, "Status Monitoring Failed");
}

#[test]
fn a_change_of_owner_is_read() {
    let body = Some(("n".to_string(), "".to_string(), ":1".to_string()));
    let member = Some("NameOwnerChanged".to_string());
    assert_eq!(parse_name_owner_changed(MessageType::Signal, &member, body.clone()), body);
    assert_eq!(parse_name_owner_changed(MessageType::MethodCall, &member, body.clone()), None);
    assert_eq!(parse_name_owner_changed(MessageType::Signal, &None, body), None);
    assert_eq!(parse_name_owner_changed(MessageType::Signal, &member, None), None);
    assert_eq!(
        service_news("net.openvpn.v3.configuration", "", ":1.5"),
        ServiceNews::ConfigAppeared
    );
    assert_eq!(service_news("net.openvpn.v3.sessions", ":1.5", ""), ServiceNews::SessionsLost);
    assert_eq!(service_news("net.openvpn.v3.sessions", "", ":1.5"), ServiceNews::Nothing);
    assert_eq!(service_news("net.openvpn.v3.configuration", ":1.5", ""), ServiceNews::Nothing);
}

#[test]
fn a_lost_service_takes_its_sessions_along() {
    let mut t = tray();
    assert!(handle_sessions_service_lost(&mut t));
    assert_eq!(t.sessions.len(), 0);
    assert_eq!(t.bypass_state, BypassState::Off);
    assert_eq!(t.configs.len(), 1);
    assert!(!handle_sessions_service_lost(&mut t));
    let (off, gone) = sessions_lost_notices(&loud(), true);
    assert_eq!(off.unwrap().summary, "Kill-Switch Inactive");
    assert_eq!(gone.unwrap().summary, "OpenVPN3 Sessions Service Stopped");
    let (off, gone) = sessions_lost_notices(&loud(), false);
    assert!(off.is_none() && gone.is_none());
    let mut t = tray();
    handle_config_service_appeared(&mut t);
    assert_eq!((t.sessions.len(), t.configs.len()), (0, 0));
}
