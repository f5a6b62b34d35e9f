use openvpn3_gui_rs::bypass::{
    after_set, apply_bypass, apply_bypass_live, apply_bypass_outcome_to_tray, extract_diagnostic,
    validate_bypass_cidrs, AfterSet, BypassPush, HelperFault,
};
use openvpn3_gui_rs::cidrs::IpFamily;
use openvpn3_gui_rs::drift::{
    check_bypass_drift, drift_check_due, drift_notification, BypassApplyOutcome, BypassReport,
    DriftNews,
};
use openvpn3_gui_rs::kill_switch::{
    add_rules_answer, finish_rebind, full_killswitch_teardown, helper_present,
    pause_full_teardown, record_protection, rules_can_be_applied, snapshot, teardown_for,
    KillSwitchTeardown, ProtectOccasion,
};
use openvpn3_gui_rs::preferences::{
    apply_kill_switch_transition, clear_credentials_notice, clear_kill_switch_rules,
    connected_paths, general_form, helper_probed, persist_preferences, security_form,
    tick_kill_switch, ConfigChoice, GeneralInput, KillSwitchChange, StartupChoice,
};
use openvpn3_gui_rs::protect::{
    on_connected, protect_steps, reapply_firewall_on_startup, ProtectStep,
};
use openvpn3_gui_rs::protocol::SessionStatus;
use openvpn3_gui_rs::routing::{apply_bypass_changes, RoutingEditor};
use openvpn3_gui_rs::sessions::ProtectPlan;
use openvpn3_gui_rs::settings::{Settings, SettingsValues};
use openvpn3_gui_rs::tray::{new_session, BypassState, ConfigInfo, VpnTray};

fn values() -> SettingsValues {
    SettingsValues {
        startup_action: "connect-specific".into(),
        most_recent_config_id: "/r".into(),
        most_recent_config_name: "Recent".into(),
        specific_config_path: "".into(),
        stats_refresh_interval: 30,
        connection_timeout: 45,
        health_check_stall_seconds: 0,
        auto_reconnect_delay_seconds: 30,
        warn_on_unexpected_disconnect: false,
        auto_reconnect: false,
        show_notifications: true,
        enable_kill_switch: false,
        kill_switch_allow_lan: false,
        show_first_run_help: true,
        launch_on_login: false,
        kill_switch_block_during_pause: false,
        bypass_cidrs: vec!["10.0.0.0/8".into(), "fd00::/8".into()],
        bypass_cidrs_disabled: vec!["fd00::/8".into()],
        bypass_cidrs_max_count: 3,
        logs_window_width: 800,
        logs_window_height: 600,
    }
}

fn settings() -> Settings {
    Settings::new(Some(values()))
}

fn connected() -> SessionStatus {
    SessionStatus::new(2, 7, String::new())
}

fn tray_with(sessions: &[(&str, bool, bool)]) -> VpnTray {
    let mut tray = VpnTray::new();
    for (path, up, flag) in sessions {
        let status = if *up { connected() } else { SessionStatus::new(2, 9, String::new()) };
        let mut s = new_session(path, "/c", "Work", status);
        s.kill_switch_active = *flag;
        tray.put_session(path, s);
    }
    tray
}

#[test]
fn the_firewall_moves_to_a_protected_survivor() {
    let tray = tray_with(&[("/a", true, true), ("/b", true, false), ("/c", false, true)]);
    assert_eq!(teardown_for(&tray, "/a", false), KillSwitchTeardown::Full);
    assert_eq!(
        teardown_for(&tray, "/b", false),
        KillSwitchTeardown::RebindTo { session_path: "/a".into() }
    );
    assert_eq!(teardown_for(&tray, "/b", true), KillSwitchTeardown::Skip);
    let mut all = snapshot(&tray);
    all.sort();
    assert_eq!(
        all,
        vec![
            ("/a".to_string(), true, true),
            ("/b".to_string(), true, false),
            ("/c".to_string(), false, true)
        ]
    );
}

#[test]
fn a_teardown_clears_every_flag() {
    let mut tray = tray_with(&[("/a", true, true), ("/b", true, true)]);
    tray.bypass_state = BypassState::Active { applied: 2, failed: 0 };
    pause_full_teardown(&mut tray);
    assert!(!tray.session("/a").unwrap().kill_switch_active);
    assert!(!tray.session("/b").unwrap().kill_switch_active);
    assert_eq!(tray.bypass_state, BypassState::Active { applied: 2, failed: 0 });
    full_killswitch_teardown(&mut tray);
    assert_eq!(tray.bypass_state, BypassState::Off);
}

#[test]
fn a_rebind_that_fails_takes_the_firewall_down() {
    let mut tray = tray_with(&[("/a", true, true), ("/b", true, true)]);
    tray.bypass_state = BypassState::Active { applied: 1, failed: 0 };
    assert!(!finish_rebind(&mut tray, "/a", Some(true), true));
    assert!(!tray.session("/a").unwrap().kill_switch_active);
    assert!(tray.session("/b").unwrap().kill_switch_active);
    assert!(finish_rebind(&mut tray, "/a", Some(false), false));
    assert!(!tray.session("/b").unwrap().kill_switch_active);
    assert_eq!(tray.bypass_state, BypassState::Active { applied: 1, failed: 0 });
    assert!(finish_rebind(&mut tray, "/a", None, true));
    assert_eq!(tray.bypass_state, BypassState::Off);
}

#[test]
fn the_helper_is_asked_only_when_it_can_be() {
    let names = vec!["org.example".to_string(), "net.openvpn.v3.killswitch".to_string()];
    assert!(helper_present(&names));
    assert!(!helper_present(&names[..1]));
    assert!(add_rules_answer(None));
    assert!(add_rules_answer(Some(true)));
    assert!(!add_rules_answer(Some(false)));
    assert!(rules_can_be_applied("tun0", "192.0.2.1"));
    assert!(!rules_can_be_applied("", "192.0.2.1"));
    assert!(!rules_can_be_applied("tun0", ""));
}

#[test]
fn a_missing_helper_is_told_once_of_a_fresh_connection() {
    let mut tray = tray_with(&[("/a", true, false)]);
    let s = settings();
    let mut told = false;
    for occasion in [ProtectOccasion::Start, ProtectOccasion::Switched] {
        assert!(record_protection(&mut tray, &s, "/a", &Ok(false), occasion, &mut told).is_none());
        assert!(!told);
    }
    let fresh = ProtectOccasion::Connected;
    let toast = record_protection(&mut tray, &s, "/a", &Ok(false), fresh, &mut told).unwrap();
    assert_eq!(toast.summary, "Kill-Switch Helper Not Installed");
    assert!(told);
    assert!(record_protection(&mut tray, &s, "/a", &Ok(false), fresh, &mut told).is_none());
    assert!(!tray.session("/a").unwrap().kill_switch_active);
}

#[test]
fn what_is_told_of_a_failure_depends_on_the_occasion() {
    let mut tray = tray_with(&[("/a", true, false)]);
    let quiet = Settings::new(Some(SettingsValues { show_notifications: false, ..values() }));
    let mut told = false;
    let failed = Err("no bus".to_string());
    let mut news = |occasion| {
        record_protection(&mut tray, &quiet, "/a", &failed, occasion, &mut told)
            .map(|t| (t.summary, t.body))
    };
    assert_eq!(
        news(ProtectOccasion::Connected),
        Some((
            "Kill-Switch Failed".to_string(),
            "Firewall rules could not be applied: no bus".to_string()
        ))
    );
    assert_eq!(
        news(ProtectOccasion::Start),
        Some((
            "Kill-Switch Re-Apply Failed".to_string(),
            "Firewall rules could not be re-applied after restart: no bus".to_string()
        ))
    );
    assert_eq!(news(ProtectOccasion::Switched), None);
    assert!(!told);
}

#[test]
fn a_protected_session_is_shown_and_told_on_every_occasion() {
    for occasion in
        [ProtectOccasion::Connected, ProtectOccasion::Start, ProtectOccasion::Switched]
    {
        let mut tray = tray_with(&[("/a", true, false)]);
        let mut told = false;
        let toast =
            record_protection(&mut tray, &settings(), "/a", &Ok(true), occasion, &mut told);
        assert_eq!(toast.unwrap().summary, "Kill-Switch Active");
        assert!(tray.session("/a").unwrap().kill_switch_active);
        assert!(record_protection(&mut tray, &settings(), "/z", &Ok(true), occasion, &mut told)
            .is_some());
        assert!(tray.session("/z").is_none());
    }
}

#[test]
fn the_networks_reach_the_helper_before_the_firewall() {
    let firewall =
        |path: &str, allow_lan| ProtectStep::Firewall { session_path: path.into(), allow_lan };
    let networks = || ProtectStep::Bypass(vec!["10.0.0.0/8".to_string()]);
    let on = Settings::new(Some(SettingsValues {
        enable_kill_switch: true,
        kill_switch_allow_lan: true,
        ..values()
    }));
    assert_eq!(on_connected(&on, "/a"), vec![networks(), firewall("/a", true)]);
    assert_eq!(
        reapply_firewall_on_startup(&on, vec!["/a".into(), "/b".into()]),
        vec![networks(), firewall("/a", true), firewall("/b", true)]
    );
    assert_eq!(reapply_firewall_on_startup(&on, vec![]), vec![]);
    assert_eq!(on_connected(&settings(), "/a"), vec![networks()]);
    let plan = |kill_switch| ProtectPlan { bypass: vec![], kill_switch, allow_lan: false };
    assert_eq!(protect_steps(plan(true), vec!["/a".into()]), vec![firewall("/a", false)]);
    assert_eq!(protect_steps(plan(false), vec!["/a".into()]), vec![]);
}

#[test]
fn a_list_of_networks_is_handed_over_if_there_is_one() {
    assert_eq!(apply_bypass(vec![]), None);
    assert_eq!(apply_bypass(vec!["10.0.0.0/8".into()]), Some(vec!["10.0.0.0/8".to_string()]));
    let mut tray = tray_with(&[]);
    tray.bypass_state = BypassState::Active { applied: 1, failed: 0 };
    assert!(matches!(
        apply_bypass_live(&mut tray, vec!["10.0.0.0/8".into()]),
        BypassPush::Install(list) if list == vec!["10.0.0.0/8".to_string()]
    ));
    assert_eq!(tray.bypass_state, BypassState::Active { applied: 1, failed: 0 });
    assert!(matches!(apply_bypass_live(&mut tray, vec![]), BypassPush::Clear));
    assert_eq!(tray.bypass_state, BypassState::Off);
    assert_eq!(after_set(true), AfterSet::Install);
    assert_eq!(after_set(false), AfterSet::Report);
}

#[test]
fn the_outcome_of_an_apply_is_shown_and_told() {
    let mut tray = tray_with(&[]);
    let all = BypassApplyOutcome { applied: vec!["10.0.0.0/8".into()], failed: vec![] };
    let toast = apply_bypass_outcome_to_tray(&mut tray, &settings(), Some(all)).unwrap();
    assert_eq!(toast.summary, "Split Tunneling Active");
    assert_eq!(toast.body, "1 bypass network routed outside the VPN tunnel.");
    assert_eq!(tray.bypass_state, BypassState::Active { applied: 1, failed: 0 });
    let some = BypassApplyOutcome {
        applied: vec!["10.0.0.0/8".into()],
        failed: vec![("fd00::/8".into(), "no route".into())],
    };
    let toast = apply_bypass_outcome_to_tray(&mut tray, &settings(), Some(some)).unwrap();
    assert_eq!(toast.summary, "Split Tunneling Partially Applied");
    assert_eq!(tray.bypass_state, BypassState::Active { applied: 1, failed: 1 });
    let toast = apply_bypass_outcome_to_tray(&mut tray, &settings(), None).unwrap();
    assert_eq!(toast.summary, "Split Tunneling Apply Failed");
    assert_eq!(
        toast.body,
        "Bypass routes could not be installed. Reconnect or check helper logs."
    );
    assert_eq!(tray.bypass_state, BypassState::Failed);
}

#[test]
fn a_refusal_is_told_in_the_helpers_words() {
    assert_eq!(extract_diagnostic("InvalidArgs: bad prefix"), "bad prefix");
    assert_eq!(extract_diagnostic("Timeout"), "Timeout");
    assert_eq!(validate_bypass_cidrs(&HelperFault::NoBus), "system bus unavailable");
    assert_eq!(validate_bypass_cidrs(&HelperFault::NotInstalled), "helper not installed");
    assert_eq!(
        validate_bypass_cidrs(&HelperFault::NoProxy("x".into())),
        "proxy build failed: x"
    );
    assert_eq!(
        validate_bypass_cidrs(&HelperFault::Refused("InvalidArgs: overlap".into())),
        "overlap"
    );
}

#[test]
fn drift_is_told_once_and_can_recover() {
    let mut state = BypassState::Active { applied: 3, failed: 1 };
    let missing = BypassReport {
        v4_missing: vec!["10.0.0.0/8".into()],
        v6_missing: vec!["fd00::/8".into()],
        extra: vec![],
    };
    assert!(!missing.is_clean());
    assert_eq!(check_bypass_drift(&mut state, &missing), DriftNews::Drifted);
    assert_eq!(
        state,
        BypassState::Drifted { missing: 2, extra: 0, prev_applied: 3, prev_failed: 1 }
    );
    assert_eq!(check_bypass_drift(&mut state, &missing), DriftNews::Nothing);
    let clean = BypassReport { v4_missing: vec![], v6_missing: vec![], extra: vec![] };
    assert!(clean.is_clean());
    assert_eq!(check_bypass_drift(&mut state, &clean), DriftNews::Recovered);
    assert_eq!(state, BypassState::Active { applied: 3, failed: 1 });
    assert_eq!(check_bypass_drift(&mut state, &clean), DriftNews::Nothing);
    assert!(drift_check_due(&state, true));
    assert!(!drift_check_due(&state, false));
    assert!(!drift_check_due(&BypassState::Off, true));
}

#[test]
fn a_network_is_added_after_the_helper_has_checked_it() {
    let mut editor = RoutingEditor::new(&settings());
    assert_eq!(editor.counter(), "2 of 3 entries");
    assert!(editor.is_on(0));
    assert!(!editor.is_on(1));
    editor.changed("  ", None);
    assert!(!editor.can_submit);
    assert_eq!(editor.submit(), None);
    editor.changed("10.1.0.0/16 ", Some(IpFamily::V4));
    assert!(editor.can_submit);
    let asked = editor.submit().unwrap();
    assert_eq!(asked, vec!["10.0.0.0/8", "fd00::/8", "10.1.0.0/16"]);
    assert!(!editor.can_submit);
    editor.validated(Err("overlaps".into()));
    assert_eq!(editor.message.as_deref(), Some("overlaps"));
    assert!(editor.can_submit);
    assert_eq!(editor.entries.len(), 2);
    editor.validated(Ok(asked));
    assert_eq!(editor.entries.len(), 3);
    assert_eq!(editor.text, "");
    editor.changed("10.2.0.0/16", Some(IpFamily::V4));
    assert!(!editor.can_submit);
    assert_eq!(
        editor.message.as_deref(),
        Some("List is full (3 of 3 entries). Remove one to add another.")
    );
}

#[test]
fn a_network_is_changed_in_its_place() {
    let mut editor = RoutingEditor::new(&settings());
    editor.activate(1, Some(IpFamily::V6));
    assert_eq!(editor.editing, Some(1));
    assert_eq!(editor.text, "fd00::/8");
    editor.changed("fd00::/16", Some(IpFamily::V6));
    assert_eq!(editor.submit().unwrap(), vec!["10.0.0.0/8", "fd00::/16"]);
    editor.cancel();
    assert_eq!(editor.editing, None);
    assert_eq!(editor.text, "");
    editor.activate(9, None);
    assert_eq!(editor.editing, None);
}

#[test]
fn a_row_of_a_full_list_can_be_submitted_once_something_is_typed() {
    let mut editor = RoutingEditor::new(&settings());
    editor.max_count = 2;
    editor.changed("10.1.0.0/16", Some(IpFamily::V4));
    assert!(!editor.can_submit);
    editor.activate(0, Some(IpFamily::V4));
    assert_eq!(editor.editing, Some(0));
    assert!(!editor.can_submit);
    assert_eq!(editor.message, None);
    editor.changed("10.0.0.0/9", Some(IpFamily::V4));
    assert!(editor.can_submit);
    assert_eq!(editor.submit().unwrap(), vec!["10.0.0.0/9", "fd00::/8"]);
}

#[test]
fn the_news_of_a_comparison_is_told() {
    let report = BypassReport {
        v4_missing: vec!["10.0.0.0/8".into()],
        v6_missing: vec!["fd00::/8".into()],
        extra: vec![],
    };
    assert_eq!(report.missing(), vec!["10.0.0.0/8", "fd00::/8"]);
    let warning = drift_notification(&settings(), DriftNews::Drifted, &report).unwrap();
    assert_eq!(warning.summary, "Split Tunneling Drifted");
    assert!(warning.body.contains("10.0.0.0/8, fd00::/8"));
    let news = drift_notification(&settings(), DriftNews::Recovered, &report).unwrap();
    assert_eq!(news.summary, "Split Tunneling Recovered");
    assert_eq!(news.dedup_key, warning.dedup_key);
    assert!(drift_notification(&settings(), DriftNews::Nothing, &report).is_none());
}

#[test]
fn a_network_is_switched_and_deleted() {
    let mut editor = RoutingEditor::new(&settings());
    editor.toggle(0, false);
    assert_eq!(editor.disabled, vec!["fd00::/8", "10.0.0.0/8"]);
    editor.toggle(0, true);
    assert_eq!(editor.disabled, vec!["fd00::/8"]);
    editor.toggle(7, false);
    assert_eq!(editor.disabled, vec!["fd00::/8"]);
    editor.activate(1, Some(IpFamily::V6));
    editor.delete(1);
    assert_eq!(editor.entries, vec!["10.0.0.0/8"]);
    assert!(editor.disabled.is_empty());
    assert_eq!(editor.editing, None);
}

#[test]
fn changed_lists_are_stored_and_pushed_while_connected() {
    let mut stored = settings();
    let mut editor = RoutingEditor::new(&stored);
    let up = tray_with(&[("/a", true, false)]);
    let down = tray_with(&[("/a", false, false)]);
    assert_eq!(apply_bypass_changes(&mut stored, &editor, &up), None);
    editor.toggle(1, true);
    assert_eq!(apply_bypass_changes(&mut stored, &editor, &down), None);
    assert!(stored.bypass_cidrs_disabled().is_empty());
    assert_eq!(
        apply_bypass_changes(&mut stored, &editor, &up),
        Some(vec!["10.0.0.0/8".to_string(), "fd00::/8".to_string()])
    );
    assert_eq!(stored.bypass_cidrs().len(), 2);
}

#[test]
fn the_preferences_open_with_what_is_stored() {
    let configs = vec![ConfigInfo { path: "/c".into(), name: "Work".into() }];
    let form = general_form(&settings(), &configs, true);
    assert!(form.launch_on_login);
    assert_eq!(form.startup, StartupChoice::Specific);
    assert!(form.config_sensitive);
    assert!(matches!(form.config, ConfigChoice::First));
    assert!(!form.stall_detection);
    assert_eq!(form.stall_seconds, 60);
    let form = general_form(&settings(), &[], false);
    assert!(matches!(form.config, ConfigChoice::Unset));
    let mut v = values();
    v.specific_config_path = "/c".into();
    v.startup_action = "connect-recent".into();
    v.health_check_stall_seconds = 120;
    let form = general_form(&Settings::new(Some(v)), &configs, false);
    assert_eq!(form.startup, StartupChoice::Recent);
    assert!(matches!(form.config, ConfigChoice::Path(p) if p == "/c"));
    assert!(form.stall_detection);
    assert_eq!(form.stall_seconds, 120);
}

#[test]
fn the_warning_comes_with_the_kill_switch() {
    let mut form = security_form(&settings());
    assert!(!form.warn_on_disconnect);
    assert!(form.warning_sensitive);
    tick_kill_switch(&mut form, true);
    assert!(form.warn_on_disconnect && !form.warning_sensitive && form.options_sensitive);
    helper_probed(&mut form, true);
    assert!(!form.helper_hint);
    helper_probed(&mut form, false);
    assert!(form.helper_hint);
    tick_kill_switch(&mut form, false);
    assert!(form.warn_on_disconnect && form.warning_sensitive && !form.helper_hint);
}

#[test]
fn saved_preferences_are_clamped_and_shown() {
    let mut stored = settings();
    let mut tray = tray_with(&[]);
    let mut security = security_form(&stored);
    tick_kill_switch(&mut security, true);
    let general = GeneralInput {
        radio_specific: true,
        radio_recent: false,
        config: Some(("/c".into(), "Work".into())),
        notifications: false,
        first_run_help: false,
        interval: 1,
        timeout: 9999,
        stall_detection: false,
        stall_seconds: 90,
        auto_reconnect: true,
        reconnect_delay: 0,
    };
    persist_preferences(&mut stored, &general, &security, &mut tray);
    assert_eq!(stored.startup_action(), "connect-specific");
    assert_eq!(stored.specific_config_path(), "/c");
    assert_eq!(stored.get_most_recent_config(), ("/c".to_string(), "Work".to_string()));
    assert_eq!(stored.stats_refresh_interval(), 10);
    assert_eq!(stored.connection_timeout(), 300);
    assert_eq!(stored.health_check_stall_seconds(), 0);
    assert_eq!(stored.auto_reconnect_delay_seconds(), 5);
    assert!(stored.warn_on_unexpected_disconnect());
    assert!(stored.enable_kill_switch());
    assert!(!stored.show_notifications());
    assert!(tray.kill_switch_enabled);
}

#[test]
fn a_switched_kill_switch_changes_the_connected_sessions() {
    let tray = tray_with(&[("/a", true, false), ("/b", false, false)]);
    assert_eq!(connected_paths(&tray), vec!["/a".to_string()]);
    let mut form = security_form(&settings());
    assert!(matches!(apply_kill_switch_transition(&tray, false, &form), KillSwitchChange::Nothing));
    assert!(matches!(apply_kill_switch_transition(&tray, true, &form), KillSwitchChange::Release));
    tick_kill_switch(&mut form, true);
    assert!(matches!(
        apply_kill_switch_transition(&tray, false, &form),
        KillSwitchChange::Protect(p) if p == vec!["/a".to_string()]
    ));
    assert!(matches!(
        apply_kill_switch_transition(&tray_with(&[]), false, &form),
        KillSwitchChange::Nothing
    ));
}

#[test]
fn released_rules_leave_no_flag() {
    let mut tray = tray_with(&[("/a", true, true)]);
    let toast = clear_kill_switch_rules(&mut tray, &settings()).unwrap();
    assert_eq!(toast.summary, "Kill-Switch Inactive");
    assert!(!tray.session("/a").unwrap().kill_switch_active);
}

#[test]
fn cleared_secrets_are_counted() {
    let toast = clear_credentials_notice(&settings(), &Ok(0)).unwrap();
    assert_eq!(toast.body, "No saved credentials found.");
    let toast = clear_credentials_notice(&settings(), &Ok(12)).unwrap();
    assert_eq!(toast.body, "12 saved credential(s) removed.");
    let toast = clear_credentials_notice(&settings(), &Err("locked".into())).unwrap();
    assert_eq!(toast.summary, "Clear Failed");
    assert_eq!(toast.body, "Could not clear credentials: locked");
}
