use openvpn3_gui_rs::slots::{build_labels_to_try, slot_mask};

#[test]
fn build_labels_starts_with_slot_labels() {
    let slots = vec![(1, 0, 0, "Server User".to_string(), false)];
    let labels = build_labels_to_try(&slots);
    assert_eq!(labels.first().map(String::as_str), Some("Server User"));
    assert!(labels.contains(&"Username".to_string()));
    assert!(labels.contains(&"Password".to_string()));
    assert!(labels.contains(&"One-Time Code".to_string()));
}

#[test]
fn build_labels_includes_common_variants() {
    let labels = build_labels_to_try(&[]);
    assert!(labels.contains(&"Enter Password".to_string()));
    assert!(labels.contains(&"Your password".to_string()));
    assert!(labels.contains(&"one-time code".to_string()));
}

#[test]
fn slot_mask_finds_masked_label() {
    let slots = vec![(1, 0, 0, "Password".to_string(), true)];
    assert!(slot_mask("Password", &slots));
}

#[test]
fn slot_mask_unmasked_slot_is_false() {
    let slots = vec![(1, 0, 0, "Username".to_string(), false)];
    assert!(!slot_mask("Username", &slots));
}

#[test]
fn slot_mask_missing_label_is_false() {
    let slots = vec![(1, 0, 0, "Password".to_string(), true)];
    assert!(!slot_mask("Username", &slots));
}
