use openvpn3_gui_rs::policy::{display_label_for, is_storable_field};

#[test]
fn test_storable_username() {
    assert!(is_storable_field("Username", false));
    assert!(is_storable_field("username", false));
}

#[test]
fn test_storable_password() {
    assert!(is_storable_field("Password", false));
    assert!(is_storable_field("password", false));
}

#[test]
fn test_storable_masked_field() {
    assert!(is_storable_field("Token", true));
    assert!(is_storable_field("Private Key", true));
}

#[test]
fn test_single_use_fields_never_storable() {
    for label in [
        "One-Time Code",
        "OTP",
        "TOTP",
        "Two-Factor Code",
        "Challenge Response",
        "Verification Code",
    ] {
        assert!(
            !is_storable_field(label, true),
            "{label} must not be storable"
        );
        assert!(
            !is_storable_field(label, false),
            "{label} must not be storable even when unmasked"
        );
    }
}

#[test]
fn test_not_storable_unmasked_other() {
    assert!(!is_storable_field("Token", false));
    assert!(!is_storable_field("Private Key", false));
}

#[test]
fn test_display_label_username() {
    assert_eq!(display_label_for("Username"), "Auth Username");
    assert_eq!(display_label_for("Enter username"), "Auth Username");
}

#[test]
fn test_display_label_password() {
    assert_eq!(display_label_for("Password"), "Auth Password");
    assert_eq!(display_label_for("Your password"), "Auth Password");
}

#[test]
fn test_display_label_fallback() {
    assert_eq!(display_label_for("One-Time Code"), "Authentication Code");
    assert_eq!(display_label_for("challenge"), "Authentication Code");
}

#[test]
fn a_one_time_value_is_never_storable_with_or_without_a_dash() {
    for label in ["One Time Password", "one time password", "ONE TIME PIN"] {
        assert!(!is_storable_field(label, true));
        assert!(!is_storable_field(label, false));
    }
}
