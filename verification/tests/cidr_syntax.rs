use openvpn3_gui_rs::cidrs::{check_syntax, cidr_address, IpFamily};

/// The family of the address in each text of these tests.
fn family_of(address: &str) -> Option<IpFamily> {
    match address {
        "10.0.0.0" | "192.168.1.0" | "1.2.3.4" | "10.0.0.1" => Some(IpFamily::V4),
        "2001:db8::" | "::1" | "fe80::" => Some(IpFamily::V6),
        _ => None,
    }
}

fn checked(input: &str) -> Result<(), String> {
    check_syntax(input, family_of(&cidr_address(input)))
}

#[test]
fn syntax_accepts_ipv4() {
    assert!(checked("10.0.0.0/8").is_ok());
    assert!(checked("192.168.1.0/24").is_ok());
    assert!(checked("1.2.3.4/32").is_ok());
}

#[test]
fn syntax_accepts_ipv6() {
    assert!(checked("2001:db8::/32").is_ok());
    assert!(checked("::1/128").is_ok());
    assert!(checked("fe80::/10").is_ok());
}

#[test]
fn syntax_rejects_missing_prefix() {
    let err = checked("10.0.0.0").unwrap_err();
    assert!(err.contains("Missing /prefix"));
}

#[test]
fn syntax_rejects_empty_address() {
    assert!(checked("/8").is_err());
}

#[test]
fn syntax_rejects_empty_prefix() {
    assert!(checked("10.0.0.0/").is_err());
}

#[test]
fn syntax_rejects_unparseable_address() {
    assert!(checked("not-an-ip/24").is_err());
}

#[test]
fn syntax_rejects_unparseable_prefix() {
    assert!(checked("10.0.0.0/abc").is_err());
}

#[test]
fn syntax_rejects_prefix_zero() {
    let err = checked("1.2.3.4/0").unwrap_err();
    assert!(err.contains("/0"));
}

#[test]
fn syntax_rejects_ipv4_prefix_oversize() {
    let err = checked("10.0.0.0/33").unwrap_err();
    assert!(err.contains("out of range"));
}

#[test]
fn syntax_rejects_ipv6_prefix_oversize() {
    let err = checked("2001:db8::/129").unwrap_err();
    assert!(err.contains("out of range"));
}

#[test]
fn syntax_accepts_canonicalizable_v4() {
    assert!(checked("10.0.0.1/8").is_ok());
}
