use openvpn3_gui_rs::config::{OPENVPN3_SERVICE, OPENVPN3_SESSIONS_SERVICE};
use openvpn3_gui_rs::service::{classify_stream_item, is_service_appeared, is_service_lost, StreamItem};

#[test]
fn test_service_appeared_valid() {
    assert!(is_service_appeared(
        "net.openvpn.v3.configuration",
        OPENVPN3_SERVICE,
        "",
        ":1.42"
    ));
}

#[test]
fn test_service_appeared_wrong_name() {
    assert!(!is_service_appeared(
        "com.example.Other",
        OPENVPN3_SERVICE,
        "",
        ":1.42"
    ));
}

#[test]
fn test_service_appeared_old_owner_not_empty() {
    assert!(!is_service_appeared(
        "net.openvpn.v3.configuration",
        OPENVPN3_SERVICE,
        ":1.10",
        ":1.42"
    ));
}

#[test]
fn test_service_appeared_new_owner_empty() {
    assert!(!is_service_appeared(
        "net.openvpn.v3.configuration",
        OPENVPN3_SERVICE,
        "",
        ""
    ));
}

#[test]
fn test_service_appeared_both_owners_empty() {
    assert!(!is_service_appeared(
        "net.openvpn.v3.configuration",
        OPENVPN3_SERVICE,
        "",
        ""
    ));
}

#[test]
fn test_service_lost_valid() {
    assert!(is_service_lost(
        "net.openvpn.v3.sessions",
        OPENVPN3_SESSIONS_SERVICE,
        ":1.42",
        ""
    ));
}

#[test]
fn test_service_lost_wrong_name() {
    assert!(!is_service_lost(
        "com.example.Other",
        OPENVPN3_SESSIONS_SERVICE,
        ":1.42",
        ""
    ));
}

#[test]
fn test_service_lost_old_owner_empty() {
    assert!(!is_service_lost(
        "net.openvpn.v3.sessions",
        OPENVPN3_SESSIONS_SERVICE,
        "",
        ""
    ));
}

#[test]
fn test_service_lost_new_owner_not_empty() {
    assert!(!is_service_lost(
        "net.openvpn.v3.sessions",
        OPENVPN3_SESSIONS_SERVICE,
        ":1.42",
        ":1.43"
    ));
}

#[test]
fn stream_error_is_skipped_not_terminal() {
    let item = classify_stream_item(Err::<(), _>(zbus::Error::InvalidReply));
    assert!(matches!(item, StreamItem::SkipTransientError(_)));
}

#[test]
fn every_stream_item_outcome_keeps_watching() {
    for err in [
        zbus::Error::InvalidReply,
        zbus::Error::Unsupported,
        zbus::Error::InvalidField,
    ] {
        match classify_stream_item(Err::<(), _>(err)) {
            StreamItem::SkipTransientError(_) => {}
            StreamItem::Deliver(_) => panic!("an Err must not be delivered as a message"),
        }
    }
}
