use openvpn3_gui_rs::kill_switch::{decide_kill_switch_teardown, KillSwitchTeardown};

const A: &str = "/net/openvpn/v3/sessions/aaaa";
const B: &str = "/net/openvpn/v3/sessions/bbbb";
fn sess(path: &str, connected: bool, ks: bool) -> (String, bool, bool) {
    (path.to_string(), connected, ks)
}

#[test]
fn auth_retry_always_skips_teardown() {
    let d = decide_kill_switch_teardown(A, true, vec![]);
    assert_eq!(d, KillSwitchTeardown::Skip);
}

#[test]
fn last_protected_session_tears_down_fully() {
    let d = decide_kill_switch_teardown(A, false, vec![sess(A, true, true)]);
    assert_eq!(d, KillSwitchTeardown::Full);
}

#[test]
fn no_sessions_left_tears_down_fully() {
    let d = decide_kill_switch_teardown(A, false, vec![]);
    assert_eq!(d, KillSwitchTeardown::Full);
}

#[test]
fn surviving_protected_session_triggers_rebind() {
    let d =
        decide_kill_switch_teardown(A, false, vec![sess(A, false, true), sess(B, true, true)]);
    assert_eq!(
        d,
        KillSwitchTeardown::RebindTo {
            session_path: B.to_string()
        }
    );
}

#[test]
fn survivor_without_kill_switch_does_not_block_teardown() {
    let d = decide_kill_switch_teardown(A, false, vec![sess(B, true, false)]);
    assert_eq!(d, KillSwitchTeardown::Full);
}

#[test]
fn disconnected_protected_survivor_does_not_block_teardown() {
    let d = decide_kill_switch_teardown(A, false, vec![sess(B, false, true)]);
    assert_eq!(d, KillSwitchTeardown::Full);
}

#[test]
fn auth_retry_wins_even_with_protected_survivor() {
    let d = decide_kill_switch_teardown(A, true, vec![sess(B, true, true)]);
    assert_eq!(d, KillSwitchTeardown::Skip);
}
