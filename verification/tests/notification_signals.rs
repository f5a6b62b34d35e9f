use openvpn3_gui_rs::notify::{
    classify_notification_signal, first_run_help_spec, reconnect_spec, NotifMessage, NotifSignal,
    FIRST_RUN_HELP_KEY,
};
use openvpn3_gui_rs::protocol::MessageType;

fn signal(member: &str) -> NotifMessage {
    NotifMessage {
        message_type: MessageType::Signal,
        interface: Some("org.freedesktop.Notifications".to_string()),
        member: Some(member.to_string()),
        action_body: None,
        closed_body: None,
    }
}

fn action_signal(member: &str, id: u32, key: &str) -> NotifMessage {
    NotifMessage { action_body: Some((id, key.to_string())), ..signal(member) }
}

fn closed_signal(member: &str, id: u32, reason: u32) -> NotifMessage {
    NotifMessage { closed_body: Some((id, reason)), ..signal(member) }
}

#[test]
fn classify_action_invoked_for_our_id() {
    let msg = action_signal("ActionInvoked", 7, "reconnect");
    assert_eq!(
        classify_notification_signal(&msg, 7),
        Some(NotifSignal::Action("reconnect".into()))
    );
}

#[test]
fn classify_action_invoked_for_other_id_is_skipped() {
    let msg = action_signal("ActionInvoked", 99, "reconnect");
    assert_eq!(classify_notification_signal(&msg, 7), None);
}

#[test]
fn classify_closed_for_our_id() {
    let msg = closed_signal("NotificationClosed", 7, 2);
    assert_eq!(
        classify_notification_signal(&msg, 7),
        Some(NotifSignal::Closed)
    );
}

#[test]
fn classify_closed_for_other_id_is_skipped() {
    let msg = closed_signal("NotificationClosed", 99, 2);
    assert_eq!(classify_notification_signal(&msg, 7), None);
}

#[test]
fn classify_unknown_member_is_skipped() {
    let msg = action_signal("UnrelatedSignal", 7, "x");
    assert_eq!(classify_notification_signal(&msg, 7), None);
}

#[test]
fn reconnect_spec_is_critical_and_persistent() {
    let s = reconnect_spec("acme");
    assert_eq!(s.icon, "network-vpn");
    assert_eq!(s.summary, "VPN Disconnected");
    assert!(
        s.body.contains("'acme'"),
        "body names the config: {}",
        s.body
    );
    assert_eq!(s.actions,
        &["reconnect", "Reconnect", "dismiss", "Dismiss"]);
    assert_eq!(s.urgency, 2, "unexpected disconnect is critical");
    assert_eq!(s.expire_timeout, 0, "must not auto-dismiss");
    assert_eq!(s.dedup_key, "acme");
}

#[test]
fn first_run_help_spec_is_informational_with_default_expiry() {
    let s = first_run_help_spec();
    assert_eq!(s.icon, "dialog-information");
    assert_eq!(s.summary, "OpenVPN3 Service Not Running");
    assert!(s.body.contains("could not be reached"));
    assert_eq!(
        s.actions,
        &[
            "preferences",
            "Open Preferences",
            "dont-show",
            "Don't Show Again"
        ]
    );
    assert_eq!(s.urgency, 1, "first-run help is normal urgency");
    assert_eq!(s.expire_timeout, -1, "daemon picks the expiry");
    assert_eq!(s.dedup_key, FIRST_RUN_HELP_KEY);
}
