use openvpn3_gui_rs::notify::{next_retry_id, resolve_replaces_id, NotificationIds, SendError};

#[test]
fn call_failure_with_stale_id_retries_fresh() {
    let err = SendError::Call("stale replaces_id".to_string());
    assert_eq!(next_retry_id(&err, 42), Some(0));
}

#[test]
fn call_failure_with_fresh_id_is_terminal() {
    let err = SendError::Call("transport error".to_string());
    assert_eq!(next_retry_id(&err, 0), None);
}

#[test]
fn deserialize_failure_is_always_terminal() {
    let err = SendError::Deserialize("bad body".to_string());
    assert_eq!(next_retry_id(&err, 99), None);
    assert_eq!(next_retry_id(&err, 0), None);
}

#[test]
fn matching_key_reuses_stored_id() {
    let mut map: NotificationIds = NotificationIds::new();
    map.insert("__killswitch_state__".to_string(), 7u32);
    assert_eq!(resolve_replaces_id(&map, "__killswitch_state__"), 7);
}

#[test]
fn no_match_uses_fresh_zero() {
    let map: NotificationIds = NotificationIds::new();
    assert_eq!(resolve_replaces_id(&map, "__bypass_state__"), 0);
}

#[test]
fn stale_id_send_falls_back_fresh() {
    let mut map: NotificationIds = NotificationIds::new();
    map.insert("__bypass_state__".to_string(), 5u32);
    let rid = resolve_replaces_id(&map, "__bypass_state__");
    assert_eq!(rid, 5);
    let err = SendError::Call("id 5 was reaped".to_string());
    assert_eq!(next_retry_id(&err, rid), Some(0));
}
