use openvpn3_gui_rs::protocol::{SessionStatus, StatusMajor, StatusMinor};
use openvpn3_gui_rs::status::{build_unseen_session, classify_error, ErrorAction};
use openvpn3_gui_rs::tray::FALLBACK_NAME;

fn connected() -> SessionStatus {
    SessionStatus {
        major: StatusMajor::Connection,
        minor: StatusMinor::ConnConnected,
    }
}

fn status_of(major: StatusMajor, minor: StatusMinor) -> SessionStatus {
    SessionStatus { major, minor }
}

#[test]
fn classify_error_auth_failed_dominates_is_error() {
    assert_eq!(
        classify_error(&status_of(
            StatusMajor::Connection,
            StatusMinor::ConnAuthFailed
        )),
        ErrorAction::AuthFailed
    );
}

#[test]
fn classify_error_conn_failed_dominates_is_error() {
    assert_eq!(
        classify_error(&status_of(StatusMajor::Connection, StatusMinor::ConnFailed)),
        ErrorAction::ConnFailed
    );
}

#[test]
fn classify_error_cfg_error_is_session_error() {
    assert_eq!(
        classify_error(&status_of(StatusMajor::CfgError, StatusMinor::CfgError)),
        ErrorAction::SessionError
    );
}

#[test]
fn classify_error_connected_is_none() {
    assert_eq!(
        classify_error(&status_of(
            StatusMajor::Connection,
            StatusMinor::ConnConnected
        )),
        ErrorAction::NoError
    );
}

#[test]
fn build_unseen_session_has_zeroed_baselines_and_fallback_name() {
    let s = build_unseen_session("/x/y", connected());
    assert_eq!(s.session_path, "/x/y");
    assert_eq!(s.config_name, FALLBACK_NAME.to_string());
    assert_eq!(s.config_path, "");
    assert_eq!(s.bytes_in, 0);
    assert_eq!(s.bytes_out, 0);
    assert_eq!(s.last_bytes_in, 0);
    assert_eq!(s.last_bytes_out, 0);
    assert!(s.connected_at.is_none());
    assert!(s.idle_since.is_none());
    assert!(s.status.is_connected());
}
