use openvpn3_gui_rs::clock::{Moment, NANOS_PER_SEC};
use openvpn3_gui_rs::keyed::StringMap;
use openvpn3_gui_rs::retry::{next_attempt, AuthAttempt, AUTH_RETRY_WINDOW_SECS, MAX_CREDENTIAL_ATTEMPTS};

fn moment(secs: u64) -> Moment {
    Moment { nanos: secs * NANOS_PER_SEC }
}

fn later(t: Moment, secs: u64) -> Moment {
    Moment { nanos: t.nanos + secs * NANOS_PER_SEC }
}

#[test]
fn retry_fresh_config_starts_at_one() {
    let mut state: StringMap<AuthAttempt> = StringMap::new();
    let now = moment(1000);
    assert_eq!(next_attempt(&mut state, now, "vpn-a"), 1);
}

#[test]
fn retry_repeated_failures_within_window_increment() {
    let mut state: StringMap<AuthAttempt> = StringMap::new();
    let t0 = moment(1000);
    assert_eq!(next_attempt(&mut state, t0, "vpn-a"), 1);
    let t1 = later(t0, 10);
    assert_eq!(next_attempt(&mut state, t1, "vpn-a"), 2);
    let t2 = later(t1, 10);
    assert_eq!(next_attempt(&mut state, t2, "vpn-a"), 3);
}

#[test]
fn retry_counter_keeps_climbing_past_cap_gate_lives_in_caller() {
    let mut state: StringMap<AuthAttempt> = StringMap::new();
    let mut t = moment(1000);
    for expected in 1..=(MAX_CREDENTIAL_ATTEMPTS + 1) {
        assert_eq!(next_attempt(&mut state, t, "vpn-a"), expected);
        t = later(t, 5);
    }
}

#[test]
fn retry_failure_after_window_resets_to_one() {
    let mut state: StringMap<AuthAttempt> = StringMap::new();
    let t0 = moment(1000);
    assert_eq!(next_attempt(&mut state, t0, "vpn-a"), 1);
    assert_eq!(
        next_attempt(&mut state, later(t0, 10), "vpn-a"),
        2
    );
    let stale = later(t0, 10 + AUTH_RETRY_WINDOW_SECS + 1);
    assert_eq!(next_attempt(&mut state, stale, "vpn-a"), 1);
}

#[test]
fn retry_exactly_at_window_boundary_does_not_reset() {
    let mut state: StringMap<AuthAttempt> = StringMap::new();
    let t0 = moment(1000);
    assert_eq!(next_attempt(&mut state, t0, "vpn-a"), 1);
    let boundary = later(t0, AUTH_RETRY_WINDOW_SECS);
    assert_eq!(next_attempt(&mut state, boundary, "vpn-a"), 2);
}

#[test]
fn retry_distinct_configs_count_independently() {
    let mut state: StringMap<AuthAttempt> = StringMap::new();
    let t = moment(1000);
    assert_eq!(next_attempt(&mut state, t, "vpn-a"), 1);
    assert_eq!(next_attempt(&mut state, t, "vpn-b"), 1);
    assert_eq!(next_attempt(&mut state, t, "vpn-a"), 2);
    assert_eq!(next_attempt(&mut state, t, "vpn-b"), 2);
}
#[test]
fn same_name_different_path_budgets_isolate() {
    let mut state: StringMap<AuthAttempt> = StringMap::new();
    let t = moment(1000);
    let path_a = "/net/openvpn/v3/configuration/a1";
    let path_b = "/net/openvpn/v3/configuration/b2";
    assert_eq!(next_attempt(&mut state, t, path_a), 1);
    assert_eq!(next_attempt(&mut state, t, path_a), 2);
    assert_eq!(next_attempt(&mut state, t, path_b), 1);
    assert_eq!(next_attempt(&mut state, t, path_a), 3);
}
#[test]
fn remove_key_resets_budget_within_window() {
    let mut state: StringMap<AuthAttempt> = StringMap::new();
    let t0 = moment(1000);
    assert_eq!(
        next_attempt(&mut state, t0, "/net/openvpn/v3/configuration/a1"),
        1
    );
    assert_eq!(
        next_attempt(
            &mut state,
            later(t0, 10),
            "/net/openvpn/v3/configuration/a1"
        ),
        2
    );
    state.remove("/net/openvpn/v3/configuration/a1");
    assert_eq!(
        next_attempt(
            &mut state,
            later(t0, 30),
            "/net/openvpn/v3/configuration/a1"
        ),
        1
    );
}
