use openvpn3_gui_rs::clock::Moment;
use openvpn3_gui_rs::protocol::{MessageType, SessionStatus, StatusMajor, StatusMinor};
use openvpn3_gui_rs::status::{apply_status_transition, is_status_change, should_dispatch, DispatchReason};
use openvpn3_gui_rs::tray::SessionInfo;

fn now() -> Moment {
    Moment { nanos: 5_000_000_000 }
}

fn connected() -> SessionStatus {
    SessionStatus {
        major: StatusMajor::Connection,
        minor: StatusMinor::ConnConnected,
    }
}

fn failed() -> SessionStatus {
    SessionStatus {
        major: StatusMajor::Connection,
        minor: StatusMinor::ConnFailed,
    }
}
fn seeded_connected() -> SessionInfo {
    SessionInfo {
        session_path: "/t".into(),
        config_path: String::new(),
        config_name: "T".into(),
        status: connected(),
        connected_at: None,
        bytes_in: 999,
        bytes_out: 888,
        last_bytes_in: 999,
        last_bytes_out: 888,
        idle_started_at: Some(now()),
        idle_since: Some(now()),
        auto_reconnect_attempted_at: None,
        kill_switch_active: false,
    }
}

#[test]
fn into_connected_resets_baseline_and_idle() {
    let mut s = seeded_connected();
    s.status = failed();
    s.last_bytes_in = 100;
    s.idle_since = Some(now());
    apply_status_transition(&mut s, connected());
    assert_eq!(s.last_bytes_in, 0);
    assert_eq!(s.last_bytes_out, 0);
    assert!(s.idle_started_at.is_none());
    assert!(s.idle_since.is_none());
    assert!(s.status.is_connected());
}

#[test]
fn out_of_connected_clears_idle_only() {
    let mut s = seeded_connected();
    apply_status_transition(&mut s, failed());
    assert_eq!(s.last_bytes_in, 999, "counters preserved out of Connected");
    assert!(s.idle_started_at.is_none());
    assert!(s.idle_since.is_none());
}

#[test]
fn same_connected_state_no_reset() {
    let mut s = seeded_connected();
    let before = s.last_bytes_in;
    apply_status_transition(&mut s, connected());
    assert_eq!(s.last_bytes_in, before, "no reset on Connected→Connected");
}

#[test]
fn status_field_always_updated() {
    let mut s = seeded_connected();
    apply_status_transition(&mut s, failed());
    assert!(!s.status.is_connected());
}

#[test]
fn is_status_change_accepts_backend_statuschange_signal() {
    assert!(is_status_change(
        MessageType::Signal,
        &Some("net.openvpn.v3.backends".to_string()),
        &Some("StatusChange".to_string()),
    ));
}

#[test]
fn is_status_change_rejects_non_signal_method_call() {
    assert!(!is_status_change(
        MessageType::MethodCall,
        &Some("net.openvpn.v3.backends".to_string()),
        &Some("StatusChange".to_string()),
    ));
}

#[test]
fn is_status_change_rejects_wrong_interface() {
    assert!(!is_status_change(
        MessageType::Signal,
        &Some("net.openvpn.v3.sessions".to_string()),
        &Some("StatusChange".to_string()),
    ));
}

#[test]
fn is_status_change_rejects_wrong_member() {
    assert!(!is_status_change(
        MessageType::Signal,
        &Some("net.openvpn.v3.backends".to_string()),
        &Some("Log".to_string()),
    ));
}

#[test]
fn is_status_change_rejects_missing_interface_or_member() {
    assert!(!is_status_change(
        MessageType::Signal,
        &None,
        &Some("StatusChange".to_string())
    ));
    assert!(!is_status_change(
        MessageType::Signal,
        &Some("net.openvpn.v3.backends".to_string()),
        &None,
    ));
}

#[test]
fn should_dispatch_first_seen_for_new_path() {
    assert_eq!(
        should_dispatch(None, 3, 4, false),
        Some(DispatchReason::FirstSeen)
    );
}

#[test]
fn should_dispatch_none_for_repeat_non_auth() {
    assert_eq!(should_dispatch(Some((3, 4)), 3, 4, false), None);
}

#[test]
fn should_dispatch_changed_for_repeat_with_new_minor() {
    assert_eq!(
        should_dispatch(Some((3, 4)), 3, 5, false),
        Some(DispatchReason::Changed)
    );
}

#[test]
fn should_dispatch_auth_exempt_for_repeat() {
    assert_eq!(
        should_dispatch(Some((7, 8)), 7, 8, true),
        Some(DispatchReason::AuthExempt)
    );
}

#[test]
fn should_dispatch_first_seen_dominates_auth() {
    assert_eq!(
        should_dispatch(None, 7, 8, true),
        Some(DispatchReason::FirstSeen)
    );
}

#[test]
fn should_dispatch_changed_when_auth_and_minor_differ() {
    assert_eq!(
        should_dispatch(Some((7, 8)), 7, 9, true),
        Some(DispatchReason::Changed)
    );
}
