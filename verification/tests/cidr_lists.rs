use openvpn3_gui_rs::cidrs::{cidr_address, enabled_cidrs, split_v4_v6, IpFamily};

/// The family of the address in each network of these tests.
fn family_of(address: &str) -> Option<IpFamily> {
    match address {
        "10.0.0.0" | "192.168.1.0" => Some(IpFamily::V4),
        "2001:db8::" | "::1" => Some(IpFamily::V6),
        _ => None,
    }
}

fn split(cidrs: &[String]) -> (Vec<String>, Vec<String>) {
    let families: Vec<Option<IpFamily>> =
        cidrs.iter().map(|c| family_of(&cidr_address(c))).collect();
    split_v4_v6(cidrs, &families)
}

#[test]
fn empty_disabled_returns_all() {
    let all = vec!["10.0.0.0/8".to_string(), "192.168.1.0/24".to_string()];
    assert_eq!(enabled_cidrs(&all, &[]), all);
}

#[test]
fn all_disabled_returns_empty() {
    let all = vec!["10.0.0.0/8".to_string(), "192.168.1.0/24".to_string()];
    assert!(enabled_cidrs(&all, &all).is_empty());
}

#[test]
fn mixed_preserves_order() {
    let all = vec![
        "10.0.0.0/8".to_string(),
        "192.168.1.0/24".to_string(),
        "2001:db8::/32".to_string(),
    ];
    let disabled = vec!["192.168.1.0/24".to_string()];
    assert_eq!(
        enabled_cidrs(&all, &disabled),
        vec!["10.0.0.0/8".to_string(), "2001:db8::/32".to_string()]
    );
}

#[test]
fn orphan_disabled_entries_ignored() {
    let all = vec!["10.0.0.0/8".to_string()];
    let disabled = vec!["172.16.0.0/12".to_string()];
    assert_eq!(enabled_cidrs(&all, &disabled), all);
}

#[test]
fn split_v4_v6_separates_families_preserving_order() {
    let cidrs = vec![
        "10.0.0.0/8".to_string(),
        "2001:db8::/32".to_string(),
        "192.168.1.0/24".to_string(),
        "::1/128".to_string(),
    ];
    let (v4, v6) = split(&cidrs);
    assert_eq!(
        v4,
        vec!["10.0.0.0/8".to_string(), "192.168.1.0/24".to_string()]
    );
    assert_eq!(v6, vec!["2001:db8::/32".to_string(), "::1/128".to_string()]);
}

#[test]
fn split_v4_v6_drops_malformed() {
    let cidrs = vec![
        "10.0.0.0/8".to_string(),
        "not-a-cidr".to_string(),
        "999.999.999.999/24".to_string(),
    ];
    let (v4, v6) = split(&cidrs);
    assert_eq!(v4, vec!["10.0.0.0/8".to_string()]);
    assert!(v6.is_empty());
}

#[test]
fn split_v4_v6_empty_input() {
    let (v4, v6) = split(&[]);
    assert!(v4.is_empty());
    assert!(v6.is_empty());
}
