use openvpn3_gui_rs::submit::{keyring_unlock_hint, sanitize_for_log, save_failure_hint};

#[test]
fn save_failure_hint_distinguishes_locked() {
    assert_eq!(
        save_failure_hint(true),
        "Keyring is locked — credentials could not be saved."
    );
    assert_eq!(
        save_failure_hint(false),
        "Could not save credentials to the keyring."
    );
}

#[test]
fn keyring_unlock_hint_distinguishes_locked() {
    assert_eq!(
        keyring_unlock_hint(true),
        "Keyring is locked. Enter credentials manually."
    );
    assert_eq!(
        keyring_unlock_hint(false),
        "Could not unlock the keyring. Enter credentials manually."
    );
}

#[test]
fn sanitize_for_log_strips_newlines_and_controls() {
    assert_eq!(
        sanitize_for_log("username\r\n[ERROR] forged"),
        "username??[ERROR] forged"
    );
    assert_eq!(sanitize_for_log("a\tb"), "a?b");
    assert_eq!(sanitize_for_log("normal label"), "normal label");
    assert_eq!(sanitize_for_log("café"), "café");
}
