use openvpn3_gui_rs::drift::{bypass_is_live, drift_transition, recover_from_drift};
use openvpn3_gui_rs::tray::BypassState;

#[test]
fn bypass_is_live_true_for_active_and_drifted() {
    assert!(bypass_is_live(&BypassState::Active {
        applied: 3,
        failed: 1
    }));
    assert!(bypass_is_live(&BypassState::Drifted {
        missing: 1,
        extra: 0,
        prev_applied: 3,
        prev_failed: 1
    }));
}

#[test]
fn bypass_is_live_false_for_off_and_failed() {
    assert!(!bypass_is_live(&BypassState::Off));
    assert!(!bypass_is_live(&BypassState::Failed));
}

#[test]
fn recover_from_drift_restores_prev_counts_as_active() {
    let d = BypassState::Drifted {
        missing: 2,
        extra: 1,
        prev_applied: 5,
        prev_failed: 2,
    };
    assert!(matches!(
        recover_from_drift(&d),
        Some(BypassState::Active {
            applied: 5,
            failed: 2
        })
    ));
}

#[test]
fn recover_from_drift_none_when_not_drifted() {
    assert!(
        recover_from_drift(&BypassState::Active {
            applied: 1,
            failed: 0
        })
        .is_none()
    );
    assert!(recover_from_drift(&BypassState::Off).is_none());
}

#[test]
fn drift_transition_active_to_drifted_notifies() {
    let active = BypassState::Active {
        applied: 4,
        failed: 1,
    };
    let (new, notify) = drift_transition(&active, 2, 0).unwrap();
    assert!(matches!(
        new,
        BypassState::Drifted {
            missing: 2,
            extra: 0,
            prev_applied: 4,
            prev_failed: 1
        }
    ));
    assert!(notify, "first drift must notify");
}

#[test]
fn drift_transition_drifted_unchanged_dims_no_notify() {
    let drifted = BypassState::Drifted {
        missing: 2,
        extra: 0,
        prev_applied: 4,
        prev_failed: 1,
    };
    let (new, notify) = drift_transition(&drifted, 2, 0).unwrap();
    assert!(matches!(
        new,
        BypassState::Drifted {
            missing: 2,
            extra: 0,
            prev_applied: 4,
            prev_failed: 1
        }
    ));
    assert!(!notify, "unchanged drift dims must not re-notify");
}

#[test]
fn drift_transition_drifted_changed_dims_notifies() {
    let drifted = BypassState::Drifted {
        missing: 2,
        extra: 0,
        prev_applied: 4,
        prev_failed: 1,
    };
    let (new, notify) = drift_transition(&drifted, 3, 1).unwrap();
    assert!(matches!(
        new,
        BypassState::Drifted {
            missing: 3,
            extra: 1,
            prev_applied: 4,
            prev_failed: 1
        }
    ));
    assert!(notify);
}

#[test]
fn drift_transition_off_is_stale_gate() {
    assert!(drift_transition(&BypassState::Off, 1, 0).is_none());
    assert!(drift_transition(&BypassState::Failed, 1, 0).is_none());
}
