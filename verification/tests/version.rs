use openvpn3_gui_rs::version::{helper_version_below_min, parse_manager_version, parse_semver};

#[test]
fn test_parse_version_none() {
    assert_eq!(parse_manager_version(None), 0);
}

#[test]
fn test_parse_version_v_prefix() {
    assert_eq!(parse_manager_version(Some("v18".into())), 18);
}

#[test]
fn test_parse_version_v_prefix_with_suffix() {
    assert_eq!(parse_manager_version(Some("v18.2".into())), 18);
}

#[test]
fn test_parse_version_git() {
    assert_eq!(parse_manager_version(Some("git:abc123".into())), 9999);
}

#[test]
fn test_parse_version_bare_number() {
    assert_eq!(parse_manager_version(Some("42".into())), 0);
}

#[test]
fn test_parse_version_empty_string() {
    assert_eq!(parse_manager_version(Some(String::new())), 0);
}

#[test]
fn semver_basic() {
    assert_eq!(parse_semver("0.1.0"), (0, 1, 0));
    assert_eq!(parse_semver("1.2.3"), (1, 2, 3));
    assert_eq!(parse_semver("10.20.30"), (10, 20, 30));
}

#[test]
fn semver_partial_components_default_to_zero() {
    assert_eq!(parse_semver("1"), (1, 0, 0));
    assert_eq!(parse_semver("1.2"), (1, 2, 0));
    assert_eq!(parse_semver(""), (0, 0, 0));
}

#[test]
fn semver_strips_non_numeric_suffix() {
    assert_eq!(parse_semver("1.2.3-beta"), (1, 2, 3));
    assert_eq!(parse_semver("1.2.3+build42"), (1, 2, 3));
}

#[test]
fn semver_below_min_compares_correctly() {
    assert!(helper_version_below_min("0.0.9", "0.1.0"));
    assert!(!helper_version_below_min("0.1.0", "0.1.0"));
    assert!(!helper_version_below_min("1.0.0", "0.1.0"));
    assert!(helper_version_below_min("0.1.0", "0.2.0"));
    assert!(!helper_version_below_min("0.2.0", "0.2.0"));
}
