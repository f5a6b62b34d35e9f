use openvpn3_gui_rs::credential_store::{
    config_id_key, is_locked_error, legacy_search_attrs, search_attrs_for_config, Attributes,
    CredentialStore, APP_ID,
};

fn attr<'a>(attrs: &'a Attributes, name: &str) -> Option<&'a str> {
    attrs.get(name).map(|s| s.as_str())
}

#[test]
fn test_new_succeeds() {
    assert!(CredentialStore::new().is_ok());
}

#[test]
fn test_default_creates_instance() {
    let _store = CredentialStore::default();
}

#[test]
fn search_attrs_for_config_includes_config_id_not_key() {
    let attrs = search_attrs_for_config("work-vpn");
    assert_eq!(attr(&attrs, "application"), Some(APP_ID));
    assert_eq!(
        attr(&attrs, "config-id"),
        Some(config_id_key("work-vpn").as_str()),
        "config-id must be the hashed path, not the raw path"
    );
    assert_ne!(
        attr(&attrs, "config-id"),
        Some("work-vpn"),
        "the raw path must not appear verbatim in the unencrypted attribute"
    );
    assert!(
        !attrs.contains_key("key"),
        "per-config delete must NOT include the `key` attribute, or it would only match one field"
    );
    assert_eq!(
        attrs.len(),
        2,
        "exactly application + config-id, nothing else"
    );
}

#[test]
fn config_id_key_is_deterministic_and_path_specific() {
    assert_eq!(
        config_id_key("/net/openvpn/v3/configuration/cfg/1"),
        config_id_key("/net/openvpn/v3/configuration/cfg/1")
    );
    assert_ne!(
        config_id_key("/net/openvpn/v3/configuration/cfg/1"),
        config_id_key("/net/openvpn/v3/configuration/cfg/2")
    );
}

#[test]
fn config_id_key_hides_the_raw_path() {
    let path = "/net/openvpn/v3/configuration/cfg/1";
    let key = config_id_key(path);
    assert!(
        !key.contains(path),
        "hashed config-id must not embed the raw path"
    );
    assert!(
        !key.contains("openvpn") && !key.contains("configuration"),
        "hashed config-id must not leak recognizable path tokens"
    );
    assert!(
        key.starts_with("v1:"),
        "version prefix must tag the encoding scheme for future migrations"
    );
    assert_ne!(config_id_key("/a/cfg/1"), config_id_key("/b/cfg/1"));
}

#[test]
fn config_id_key_is_one_way() {
    let key = config_id_key("/net/openvpn/v3/configuration/cfg/1");
    let digest = key.strip_prefix("v1:").unwrap_or(&key);
    assert_eq!(digest.len(), 64, "expected SHA-256 hex (64 chars)");
    assert!(
        digest.chars().all(|c| c.is_ascii_hexdigit()),
        "digest must be lowercase hex"
    );
}

#[test]
fn search_attrs_for_config_isolates_configs() {
    let a = search_attrs_for_config("alpha");
    let b = search_attrs_for_config("beta");
    assert_ne!(
        attr(&a, "config-id"),
        attr(&b, "config-id"),
        "per-config queries must be config-specific"
    );
    assert_eq!(attr(&a, "application"), attr(&b, "application"));
}

#[test]
fn search_attrs_for_config_isolates_same_named_configs() {
    let path_a = "/net/openvpn/v3/configuration/cfg/1";
    let path_b = "/net/openvpn/v3/configuration/cfg/2";
    let a = search_attrs_for_config(path_a);
    let b = search_attrs_for_config(path_b);
    assert_ne!(
        attr(&a, "config-id"),
        attr(&b, "config-id"),
        "same-named configs MUST have distinct path-keyed queries, or removing one wipes both"
    );
}

#[test]
fn legacy_search_attrs_pins_pre_migration_scheme() {
    let attrs = legacy_search_attrs("work-vpn", "Username");
    assert_eq!(attr(&attrs, "application"), Some(APP_ID));
    assert_eq!(attr(&attrs, "config-id"), Some("work-vpn"));
    assert_eq!(attr(&attrs, "key"), Some("Username"));
    assert_eq!(attrs.len(), 3, "legacy query is the full triple");
}

#[test]
fn is_locked_error_detects_islocked_variant() {
    let err: anyhow::Error = anyhow::Error::new(oo7::Error::DBus(oo7::dbus::Error::Service(
        oo7::dbus::ServiceError::IsLocked("/org/freedesktop/secrets/collection/default".into()),
    )));
    assert!(is_locked_error(&err));
}

#[test]
fn is_locked_error_walks_anyhow_context_chain() {
    let raw = oo7::Error::DBus(oo7::dbus::Error::Service(
        oo7::dbus::ServiceError::IsLocked("default".into()),
    ));
    let wrapped: anyhow::Error = anyhow::Error::new(raw).context("get_with_keyring failed");
    assert!(
        is_locked_error(&wrapped),
        "must detect locked state through an anyhow context chain"
    );
}

#[test]
fn is_locked_error_treats_dismissed_as_locked() {
    let dismissed: anyhow::Error =
        anyhow::Error::new(oo7::Error::DBus(oo7::dbus::Error::Dismissed));
    assert!(
        is_locked_error(&dismissed),
        "a dismissed unlock prompt means the keyring stayed locked"
    );
}

#[test]
fn is_locked_error_rejects_unrelated_error() {
    let not_found: anyhow::Error =
        anyhow::Error::new(oo7::Error::DBus(oo7::dbus::Error::NotFound("x".into())));
    assert!(!is_locked_error(&not_found));
}
