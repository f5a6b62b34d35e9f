use openvpn3_gui_rs::windows::WindowRegistry;

const TEST_PREFIX: &str = "__singleton_test__";

fn test_key(suffix: &str) -> String {
    format!("{}{}", TEST_PREFIX, suffix)
}

#[test]
fn test_registry_accessible() {
    let registry = WindowRegistry::new();
    assert!(!registry.contains_key(&test_key("any")));
}

#[test]
fn test_weak_ref_absent_returns_none() {
    let registry = WindowRegistry::new();
    assert!(registry.upgrade(&test_key("absent"), true).is_none());
}

#[test]
fn test_weak_ref_after_drop_returns_none() {
    let key = test_key("dropped");
    let mut registry = WindowRegistry::new();
    registry.register(&key, 1);
    assert!(registry.upgrade(&key, false).is_none());
}

#[test]
fn test_distinct_keys_isolated() {
    let k1 = test_key("iso1");
    let k2 = test_key("iso2");
    let mut registry = WindowRegistry::new();
    registry.register(&k1, 1);
    assert!(registry.contains_key(&k1));
    assert!(!registry.contains_key(&k2));
}
