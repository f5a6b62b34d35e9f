use openvpn3_gui_rs::notify::NotificationIds;

const TEST_notification_FIX: &str = "__notif_test__";

fn test_key(suffix: &str) -> String {
    format!("{}{}", TEST_notification_FIX, suffix)
}

#[test]
fn notification_test_notification_ids_lock_is_accessible() {
    let m: NotificationIds = NotificationIds::new();
    assert_eq!(m.len(), 0);
}

#[test]
fn notification_test_notification_ids_insert_and_retrieve() {
    let key = test_key("insert");
    let mut m: NotificationIds = NotificationIds::new();
    m.insert(key.clone(), 99u32);
    let stored = *m.get(&key).unwrap_or(&0);
    assert_eq!(stored, 99);
}

#[test]
fn notification_test_notification_ids_missing_key_returns_zero() {
    let key = test_key("missing");
    let m: NotificationIds = NotificationIds::new();
    let stored = *m.get(&key).unwrap_or(&0);
    assert_eq!(stored, 0);
}

#[test]
fn notification_test_notification_ids_overwrite() {
    let key = test_key("overwrite");
    let mut m: NotificationIds = NotificationIds::new();
    m.insert(key.clone(), 1u32);
    m.insert(key.clone(), 2u32);
    let stored = *m.get(&key).unwrap_or(&0);
    assert_eq!(stored, 2);
}

#[test]
fn notification_test_notification_ids_remove() {
    let key = test_key("remove");
    let mut m: NotificationIds = NotificationIds::new();
    m.insert(key.clone(), 5u32);
    m.remove(&key);
    let stored = *m.get(&key).unwrap_or(&0);
    assert_eq!(stored, 0);
}
