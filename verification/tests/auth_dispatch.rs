use openvpn3_gui_rs::auth_dispatch::{dispatch_from_groups, AuthDispatch};

#[test]
fn test_dispatch_user_password() {
    assert_eq!(
        dispatch_from_groups(&[(1, 1)]),
        Some(AuthDispatch::Credentials)
    );
}

#[test]
fn test_dispatch_static_challenge() {
    assert_eq!(
        dispatch_from_groups(&[(1, 4)]),
        Some(AuthDispatch::Challenge)
    );
}

#[test]
fn test_dispatch_dynamic_challenge() {
    assert_eq!(
        dispatch_from_groups(&[(1, 5)]),
        Some(AuthDispatch::Challenge)
    );
}

#[test]
fn test_dispatch_auth_pending() {
    assert_eq!(
        dispatch_from_groups(&[(1, 6)]),
        Some(AuthDispatch::Challenge)
    );
}

#[test]
fn test_dispatch_mixed_credentials_and_challenge() {
    assert_eq!(
        dispatch_from_groups(&[(1, 1), (1, 4)]),
        Some(AuthDispatch::Challenge)
    );
}

#[test]
fn test_dispatch_unknown_group() {
    assert_eq!(dispatch_from_groups(&[(1, 99)]), None);
}

#[test]
fn test_dispatch_wrong_type() {
    assert_eq!(dispatch_from_groups(&[(2, 1)]), None);
}

#[test]
fn test_dispatch_empty() {
    assert_eq!(dispatch_from_groups(&[]), None);
}
