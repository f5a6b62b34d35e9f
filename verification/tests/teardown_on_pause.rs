use openvpn3_gui_rs::kill_switch::{
    decide_kill_switch_teardown, should_teardown_on_pause, KillSwitchTeardown,
};

const PAUSED: &str = "/net/openvpn/v3/sessions/paused";
const OTHER: &str = "/net/openvpn/v3/sessions/other";

fn sess(path: &str, connected: bool, ks: bool) -> (String, bool, bool) {
    (path.to_string(), connected, ks)
}

#[test]
fn teardown_on_pause_only_when_enabled_and_not_blocking() {
    assert!(!should_teardown_on_pause(false, false));
    assert!(!should_teardown_on_pause(false, true));
    assert!(!should_teardown_on_pause(true, true));
    assert!(should_teardown_on_pause(true, false));
}

#[test]
fn pause_with_protected_survivor_rebinds_instead_of_wiping() {
    let d = decide_kill_switch_teardown(
        PAUSED,
        false,
        vec![sess(PAUSED, false, true), sess(OTHER, true, true)],
    );
    assert_eq!(
        d,
        KillSwitchTeardown::RebindTo {
            session_path: OTHER.to_string()
        },
        "pausing one session must not tear down a still-protected survivor"
    );
}

#[test]
fn pause_of_only_protected_session_tears_down_fully() {
    let d = decide_kill_switch_teardown(PAUSED, false, vec![sess(PAUSED, false, true)]);
    assert_eq!(d, KillSwitchTeardown::Full);
}

#[test]
fn pause_with_unprotected_survivor_tears_down_fully() {
    let d = decide_kill_switch_teardown(PAUSED, false, vec![sess(OTHER, true, false)]);
    assert_eq!(d, KillSwitchTeardown::Full);
}

#[test]
fn pause_never_skips_teardown() {
    for survivors in [
        vec![],
        vec![sess(PAUSED, false, true)],
        vec![sess(OTHER, true, true)],
    ] {
        assert_ne!(
            decide_kill_switch_teardown(PAUSED, false, survivors),
            KillSwitchTeardown::Skip
        );
    }
}
