use openvpn3_gui_rs::drift::{outcome_to_state, BypassApplyOutcome};
use openvpn3_gui_rs::tray::BypassState;

fn outcome(applied: &[&str], failed: &[&[&str; 2]]) -> BypassApplyOutcome {
    BypassApplyOutcome {
        applied: applied.iter().map(|s| s.to_string()).collect(),
        failed: failed
            .iter()
            .map(|pair| (pair[0].to_string(), pair[1].to_string()))
            .collect(),
    }
}

#[test]
fn none_outcome_maps_to_failed_state() {
    assert!(matches!(outcome_to_state(&None), BypassState::Failed));
}

#[test]
fn all_applied_maps_to_active_with_zero_failed() {
    let out = outcome(&["10.0.0.0/8", "192.168.1.0/24"], &[]);
    match outcome_to_state(&Some(out)) {
        BypassState::Active { applied, failed } => {
            assert_eq!(applied, 2);
            assert_eq!(failed, 0);
        }
        other => panic!("expected Active, got {other:?}"),
    }
}

#[test]
fn partial_maps_to_active_with_failure_count() {
    let out = outcome(&["10.0.0.0/8"], &[&["fe80::/64", "rt-table unreachable"]]);
    match outcome_to_state(&Some(out)) {
        BypassState::Active { applied, failed } => {
            assert_eq!(applied, 1);
            assert_eq!(failed, 1);
        }
        other => panic!("expected Active, got {other:?}"),
    }
}

#[test]
fn partial_with_multiple_failures_preserves_exact_count() {
    let out = outcome(
        &["10.0.0.0/8"],
        &[
            &["fe80::/64", "rt-table unreachable"],
            &["2001:db8::/32", "permission denied"],
        ],
    );
    match outcome_to_state(&Some(out)) {
        BypassState::Active { applied, failed } => {
            assert_eq!(applied, 1);
            assert_eq!(failed, 2);
        }
        other => panic!("expected Active, got {other:?}"),
    }
}

#[test]
fn empty_applied_with_no_failures_still_active_zero() {
    let out = outcome(&[], &[]);
    assert!(matches!(
        outcome_to_state(&Some(out)),
        BypassState::Active {
            applied: 0,
            failed: 0
        }
    ));
}
