use openvpn3_gui_rs::preferences::resolve_startup_action;

#[test]
fn specific_radio_yields_connect_specific() {
    assert_eq!(resolve_startup_action(true, false), "connect-specific");
}

#[test]
fn specific_takes_precedence_over_recent() {
    assert_eq!(resolve_startup_action(true, true), "connect-specific");
}

#[test]
fn recent_radio_yields_connect_recent() {
    assert_eq!(resolve_startup_action(false, true), "connect-recent");
}

#[test]
fn neither_radio_yields_none() {
    assert_eq!(resolve_startup_action(false, false), "none");
}
