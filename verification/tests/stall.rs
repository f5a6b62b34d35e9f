use openvpn3_gui_rs::clock::{Moment, NANOS_PER_SEC};
use openvpn3_gui_rs::protocol::{SessionStatus, StatusMajor, StatusMinor};
use openvpn3_gui_rs::stall::{apply_stall_detection, should_auto_reconnect_on_stall};
use openvpn3_gui_rs::tray::SessionInfo;

fn now() -> Moment {
    Moment { nanos: 1_000_000 * NANOS_PER_SEC }
}

fn ago(secs: u64) -> Moment {
    Moment { nanos: now().nanos - secs * NANOS_PER_SEC }
}

fn make_connected_session() -> SessionInfo {
    SessionInfo {
        session_path: "/test/sess".into(),
        config_path: "/test/cfg".into(),
        config_name: "TestVPN".into(),
        status: SessionStatus {
            major: StatusMajor::Connection,
            minor: StatusMinor::ConnConnected,
        },
        connected_at: None,
        bytes_in: 1000,
        bytes_out: 500,
        last_bytes_in: 1000,
        last_bytes_out: 500,
        idle_started_at: None,
        idle_since: None,
        auto_reconnect_attempted_at: None,
        kill_switch_active: false,
    }
}

#[test]
fn stall_test_traffic_clears_idle() {
    let mut s = make_connected_session();
    s.idle_since = Some(now());
    apply_stall_detection(&mut s, 2000, 1000, 60, now());
    assert!(s.idle_since.is_none());
    assert_eq!(s.bytes_in, 2000);
    assert_eq!(s.bytes_out, 1000);
}

#[test]
fn stall_test_zero_delta_below_threshold_not_idle() {
    let mut s = make_connected_session();
    apply_stall_detection(&mut s, 1000, 500, 60, now());
    assert!(s.idle_since.is_none());
}

#[test]
fn stall_test_zero_delta_past_threshold_marks_idle() {
    let mut s = make_connected_session();
    s.idle_started_at = Some(ago(120));
    apply_stall_detection(&mut s, 1000, 500, 60, now());
    assert!(s.idle_since.is_some());
}

#[test]
fn stall_test_idle_clock_accumulates_across_polls() {
    let mut s = make_connected_session();
    apply_stall_detection(&mut s, 1000, 500, 60, now());
    let started = s.idle_started_at.expect("start-clock set on first poll");
    apply_stall_detection(&mut s, 1000, 500, 60, now());
    assert_eq!(
        s.idle_started_at,
        Some(started),
        "start-clock must not be reset on subsequent polls"
    );
}

#[test]
fn stall_test_disabled_threshold_never_idles() {
    let mut s = make_connected_session();
    apply_stall_detection(&mut s, 1000, 500, 0, now());
    assert!(s.idle_since.is_none());
}

#[test]
fn stall_test_disabled_clears_existing_idle() {
    let mut s = make_connected_session();
    s.idle_since = Some(now());
    apply_stall_detection(&mut s, 1000, 500, 0, now());
    assert!(s.idle_since.is_none());
}

#[test]
fn stall_test_non_connected_session_never_marked_idle() {
    let mut s = make_connected_session();
    s.status.minor = StatusMinor::ConnFailed;
    s.idle_started_at = Some(ago(120));
    s.idle_since = Some(ago(120));
    apply_stall_detection(&mut s, 1000, 500, 60, now());
    assert!(s.idle_since.is_none(), "idle flag cleared on non-Connected");
    assert!(
        s.idle_started_at.is_none(),
        "idle clock cleared on non-Connected"
    );
    assert_eq!(s.bytes_in, 1000);
    assert_eq!(s.bytes_out, 500);
}

#[test]
fn stall_test_should_reconnect_disabled_setting() {
    let mut s = make_connected_session();
    s.idle_since = Some(ago(120));
    assert!(!should_auto_reconnect_on_stall(&mut s, false, 60, 60, now()));
    assert!(s.auto_reconnect_attempted_at.is_none());
}

#[test]
fn stall_test_should_reconnect_threshold_zero() {
    let mut s = make_connected_session();
    s.idle_since = Some(ago(120));
    assert!(!should_auto_reconnect_on_stall(&mut s, true, 0, 60, now()));
}

#[test]
fn stall_test_should_reconnect_not_idle() {
    let mut s = make_connected_session();
    s.idle_since = None;
    assert!(!should_auto_reconnect_on_stall(&mut s, true, 60, 60, now()));
}

#[test]
fn stall_test_should_reconnect_below_threshold() {
    let mut s = make_connected_session();
    s.idle_since = Some(now());
    assert!(!should_auto_reconnect_on_stall(&mut s, true, 60, 60, now()));
}

#[test]
fn stall_test_should_reconnect_fires_past_threshold() {
    let mut s = make_connected_session();
    s.idle_since = Some(ago(120));
    assert!(should_auto_reconnect_on_stall(&mut s, true, 60, 60, now()));
    assert!(s.auto_reconnect_attempted_at.is_some());
}

#[test]
fn stall_test_should_reconnect_cooldown_blocks_loop() {
    let mut s = make_connected_session();
    s.idle_since = Some(ago(120));
    s.auto_reconnect_attempted_at = Some(now());
    assert!(!should_auto_reconnect_on_stall(&mut s, true, 60, 60, now()));
}

#[test]
fn stall_test_should_reconnect_after_cooldown_expires() {
    let mut s = make_connected_session();
    s.idle_since = Some(ago(120));
    s.auto_reconnect_attempted_at =
        Some(ago(120));
    assert!(should_auto_reconnect_on_stall(&mut s, true, 60, 60, now()));
}
