use openvpn3_gui_rs::autostart::{
    autostart_path, desktop_entry, disable, enable, entry_removed, entry_written, is_enabled,
    AutostartBase, EntryReply,
};

#[test]
fn desktop_entry_contains_required_keys() {
    let body = desktop_entry();
    assert!(body.contains("[Desktop Entry]"));
    assert!(body.contains("Type=Application"));
    assert!(body.contains("Exec=openvpn3-gui-rs"));
    assert!(body.contains("X-GNOME-Autostart-enabled=true"));
}

#[test]
fn autostart_path_uses_xdg_config_home_when_set() {
    let place = autostart_path(true, true).expect("path");
    assert_eq!(place.base, AutostartBase::XdgConfigHome);
    let p = format!("/tmp/xdg-test/{}", place.below.join("/"));
    assert!(p.starts_with("/tmp/xdg-test/autostart/"));
    assert!(p.ends_with(".desktop"));
}

#[test]
fn the_entry_is_written_and_removed_where_it_lies() {
    let written = enable(true, true).unwrap();
    assert_eq!(written.base, AutostartBase::XdgConfigHome);
    assert_eq!(written.below.first().map(String::as_str), Some("autostart"));
    let removed = disable(false, true).unwrap();
    assert_eq!(removed.base, AutostartBase::Home);
    assert_eq!(removed.below.first().map(String::as_str), Some(".config"));
}

#[test]
fn without_a_place_starting_on_login_is_off() {
    assert_eq!(enable(false, false).unwrap_err(), "XDG_CONFIG_HOME and HOME both unset");
    assert!(disable(false, false).is_none());
    assert!(!is_enabled(None));
}

#[test]
fn a_missing_entry_is_an_error_only_when_it_is_written() {
    assert_eq!(entry_written(EntryReply::Done), Ok(()));
    assert_eq!(entry_written(EntryReply::NotFound("gone".into())), Err("gone".to_string()));
    assert_eq!(entry_written(EntryReply::Failed("denied".into())), Err("denied".to_string()));
    assert_eq!(entry_removed(EntryReply::Done), Ok(()));
    assert_eq!(entry_removed(EntryReply::NotFound("gone".into())), Ok(()));
    assert_eq!(entry_removed(EntryReply::Failed("denied".into())), Err("denied".to_string()));
}

#[test]
fn starting_on_login_is_read_back() {
    for (want, reply) in [
        (true, EntryReply::Done),
        (false, EntryReply::Done),
        (false, EntryReply::NotFound("gone".into())),
    ] {
        let there = want;
        let result = if want { entry_written(reply) } else { entry_removed(reply) };
        assert_eq!(result, Ok(()));
        assert_eq!(is_enabled(Some(there)), want);
    }
}
