use openvpn3_gui_rs::registers::Registers;
use openvpn3_gui_rs::sessions::is_retryable_activation_error_name;

const P1: &str = "/net/openvpn/v3/sessions/test000000000001";
const P2: &str = "/net/openvpn/v3/sessions/test000000000002";

#[test]
fn test_user_disconnected_insert_and_remove() {
    let mut reg = Registers::new();
    reg.user_disconnected.insert(P1);
    let removed = reg.user_disconnected.remove(P1);
    assert!(removed, "inserted path should be removable");
    let again = reg.user_disconnected.remove(P1);
    assert!(!again, "second remove of same path should return false");
}

#[test]
fn test_user_disconnected_missing_path_returns_false() {
    let mut reg = Registers::new();
    let removed = reg.user_disconnected.remove(P2);
    assert!(!removed, "removing absent path should return false");
}

#[test]
fn test_user_disconnected_multiple_sessions() {
    let mut reg = Registers::new();
    reg.user_disconnected.insert(P1);
    reg.user_disconnected.insert(P2);
    reg.user_disconnected.remove(P1);
    let p2_present = reg.user_disconnected.contains(P2);
    assert!(p2_present, "P2 should still be present after removing P1");
}

#[test]
fn test_user_disconnected_lock_accessible() {
    let reg = Registers::new();
    assert!(!reg.user_disconnected.contains(P1));
}

#[test]
fn test_retryable_activation_error_unknown_object() {
    assert!(is_retryable_activation_error_name(
        "org.freedesktop.DBus.Error.UnknownObject"
    ));
}

#[test]
fn test_retryable_activation_error_unknown_method() {
    assert!(is_retryable_activation_error_name(
        "org.freedesktop.DBus.Error.UnknownMethod"
    ));
}

#[test]
fn test_retryable_activation_error_service_unknown() {
    assert!(is_retryable_activation_error_name(
        "org.freedesktop.DBus.Error.ServiceUnknown"
    ));
}

#[test]
fn test_retryable_activation_error_name_has_no_owner() {
    assert!(is_retryable_activation_error_name(
        "org.freedesktop.DBus.Error.NameHasNoOwner"
    ));
}

#[test]
fn test_retryable_activation_error_rejects_access_denied() {
    assert!(!is_retryable_activation_error_name(
        "org.freedesktop.DBus.Error.AccessDenied"
    ));
}

#[test]
fn test_retryable_activation_error_rejects_no_reply() {
    assert!(!is_retryable_activation_error_name(
        "org.freedesktop.DBus.Error.NoReply"
    ));
}

#[test]
fn test_retryable_activation_error_rejects_empty() {
    assert!(!is_retryable_activation_error_name(""));
}
