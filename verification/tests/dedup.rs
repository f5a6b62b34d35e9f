use openvpn3_gui_rs::notify::{needs_prune, record, NotificationIds, MAX_NOTIFICATION_IDS};

const TEST_dedup_FIX: &str = "__notif_test__";

fn test_key(suffix: &str) -> String {
    format!("{}{}", TEST_dedup_FIX, suffix)
}

#[test]
fn dedup_test_notification_ids_lock_is_accessible() {
    let m: NotificationIds = NotificationIds::new();
    assert_eq!(m.len(), 0);
}

#[test]
fn dedup_test_notification_ids_insert_and_retrieve() {
    let key = test_key("insert");
    let mut m: NotificationIds = NotificationIds::new();
    m.insert(key.clone(), 99u32);
    let stored = *m.get(&key).unwrap_or(&0);
    assert_eq!(stored, 99);
}

#[test]
fn dedup_test_notification_ids_missing_key_returns_zero() {
    let key = test_key("missing");
    let m: NotificationIds = NotificationIds::new();
    let stored = *m.get(&key).unwrap_or(&0);
    assert_eq!(stored, 0);
}

#[test]
fn dedup_test_notification_ids_overwrite() {
    let key = test_key("overwrite");
    let mut m: NotificationIds = NotificationIds::new();
    m.insert(key.clone(), 1u32);
    m.insert(key.clone(), 2u32);
    let stored = *m.get(&key).unwrap_or(&0);
    assert_eq!(stored, 2);
}

#[test]
fn dedup_test_notification_ids_remove() {
    let key = test_key("remove");
    let mut m: NotificationIds = NotificationIds::new();
    m.insert(key.clone(), 5u32);
    m.remove(&key);
    let stored = *m.get(&key).unwrap_or(&0);
    assert_eq!(stored, 0);
}

#[test]
fn needs_prune_only_at_or_above_cap() {
    assert!(!needs_prune(0));
    assert!(!needs_prune(1));
    assert!(!needs_prune(MAX_NOTIFICATION_IDS - 1));
    assert!(
        needs_prune(MAX_NOTIFICATION_IDS),
        "inserting once the cap is reached must prune first"
    );
    assert!(needs_prune(MAX_NOTIFICATION_IDS + 100));
}

#[test]
fn record_stores_and_is_retrievable() {
    let key = test_key("record_store");
    let mut m: NotificationIds = NotificationIds::new();
    record(&mut m, &key, 777);
    let stored = m.get(&key).copied().unwrap_or(0);
    assert_eq!(stored, 777);
}
