//! The bypass routes' state: how an apply ends, and how the installed sets
//! drift from the wanted ones and come back.
use vstd::prelude::*;
use vstd::string::*;

use crate::notify::{
    bypass_drift_toast, bypass_recovered_toast, law_route_notices_tell_counts_and_names, short_list,
    show_bypass_drift_notification, show_bypass_recovered_notification, shown, Toast,
};
use crate::settings::Settings;
use crate::text::{copy_strings, has_substring, texts};
use crate::tray::BypassState;

verus! {

/// What the helper reports after installing the bypass routes: the networks
/// routed, and those refused with the reason.
#[derive(Debug)]
pub struct BypassApplyOutcome {
    pub applied: Vec<String>,
    pub failed: Vec<(String, String)>,
}

/// The state after an apply; no report means that it failed as a whole.
pub fn outcome_to_state(outcome: &Option<BypassApplyOutcome>) -> (r: BypassState)
    ensures
        r == (match *outcome {
            None => BypassState::Failed,
            Some(out) => BypassState::Active {
                applied: out.applied@.len() as usize,
                failed: out.failed@.len() as usize,
            },
        }),
{
    match outcome {
        None => BypassState::Failed,
        Some(out) => BypassState::Active { applied: out.applied.len(), failed: out.failed.len() },
    }
}

pub open spec fn live(state: BypassState) -> bool {
    state is Active || state is Drifted
}

/// Whether routes are installed, so that they can be verified.
pub fn bypass_is_live(state: &BypassState) -> (r: bool)
    ensures
        r == live(*state),
{
    match state {
        BypassState::Active { .. } => true,
        BypassState::Drifted { .. } => true,
        _ => false,
    }
}

pub open spec fn recovered(state: BypassState) -> Option<BypassState> {
    match state {
        BypassState::Drifted { prev_applied, prev_failed, .. } => Some(
            BypassState::Active { applied: prev_applied, failed: prev_failed },
        ),
        _ => None,
    }
}

/// The state once the sets match again: the counts of the last apply, or
/// nothing if there was no drift.
pub fn recover_from_drift(state: &BypassState) -> (r: Option<BypassState>)
    ensures
        r == recovered(*state),
{
    match state {
        BypassState::Drifted { prev_applied, prev_failed, .. } => Some(
            BypassState::Active { applied: *prev_applied, failed: *prev_failed },
        ),
        _ => None,
    }
}

pub open spec fn drifted(state: BypassState, missing: usize, extra: usize) -> Option<
    (BypassState, bool),
> {
    match state {
        BypassState::Active { applied, failed } => Some(
            (
                BypassState::Drifted {
                    missing,
                    extra,
                    prev_applied: applied,
                    prev_failed: failed,
                },
                true,
            ),
        ),
        BypassState::Drifted {
            missing: prev_missing,
            extra: prev_extra,
            prev_applied,
            prev_failed,
        } => Some(
            (
                BypassState::Drifted { missing, extra, prev_applied, prev_failed },
                prev_missing != missing || prev_extra != extra,
            ),
        ),
        _ => None,
    }
}

/// The state after a report of `missing` and `extra` networks, and whether to
/// tell the user: of a new drift, and of one whose counts have changed. When
/// no routes are installed any more, the report is stale and changes nothing.
pub fn drift_transition(state: &BypassState, missing: usize, extra: usize) -> (r: Option<
    (BypassState, bool),
>)
    ensures
        r == drifted(*state, missing, extra),
{
    match state {
        BypassState::Active { applied, failed } => Some(
            (
                BypassState::Drifted {
                    missing,
                    extra,
                    prev_applied: *applied,
                    prev_failed: *failed,
                },
                true,
            ),
        ),
        BypassState::Drifted {
            missing: prev_missing,
            extra: prev_extra,
            prev_applied,
            prev_failed,
        } => Some(
            (
                BypassState::Drifted {
                    missing,
                    extra,
                    prev_applied: *prev_applied,
                    prev_failed: *prev_failed,
                },
                *prev_missing != missing || *prev_extra != extra,
            ),
        ),
        _ => None,
    }
}

/// What a comparison of the installed sets with the wanted ones found.
#[derive(Debug)]
pub struct BypassReport {
    pub v4_missing: Vec<String>,
    pub v6_missing: Vec<String>,
    pub extra: Vec<String>,
}

impl BypassReport {
    /// How many networks are missing, of both families; as many as can be
    /// counted if there are more.
    pub open spec fn missing_count(self) -> usize {
        let n = self.v4_missing@.len() + self.v6_missing@.len();
        if n <= usize::MAX {
            n as usize
        } else {
            usize::MAX
        }
    }

    pub open spec fn clean(self) -> bool {
        self.v4_missing@.len() == 0 && self.v6_missing@.len() == 0 && self.extra@.len() == 0
    }

    /// The networks that are missing, those of IPv4 first.
    pub open spec fn all_missing(self) -> Seq<Seq<char>> {
        texts(self.v4_missing@) + texts(self.v6_missing@)
    }

    /// The networks that are missing, those of IPv4 first.
    pub fn missing(&self) -> (r: Vec<String>)
        ensures
            texts(r@) == self.all_missing(),
    {
        let mut all = copy_strings(self.v4_missing.as_slice());
        let mut v6 = copy_strings(self.v6_missing.as_slice());
        let ghost v4_list = all@;
        let ghost v6_list = v6@;
        all.append(&mut v6);
        assert(all@ =~= v4_list + v6_list);
        assert(texts(all@) =~= texts(v4_list) + texts(v6_list));
        all
    }

    /// Whether the sets match.
    pub fn is_clean(&self) -> (r: bool)
        ensures
            r == self.clean(),
    {
        self.v4_missing.len() == 0 && self.v6_missing.len() == 0 && self.extra.len() == 0
    }
}

/// What the user is told after a comparison.
#[derive(Clone, Copy, Debug, PartialEq, Eq, Structural)]
pub enum DriftNews {
    Nothing,
    Recovered,
    Drifted,
}

/// The state and the news after a comparison.
pub open spec fn after_report(
    state: BypassState,
    clean: bool,
    missing: usize,
    extra: usize,
) -> (BypassState, DriftNews) {
    if clean {
        match recovered(state) {
            Some(s) => (s, DriftNews::Recovered),
            None => (state, DriftNews::Nothing),
        }
    } else {
        match drifted(state, missing, extra) {
            Some((s, true)) => (s, DriftNews::Drifted),
            Some((s, false)) => (s, DriftNews::Nothing),
            None => (state, DriftNews::Nothing),
        }
    }
}

/// Takes in a comparison of the installed sets with the wanted ones.
pub fn check_bypass_drift(state: &mut BypassState, report: &BypassReport) -> (r: DriftNews)
    ensures
        (*final(state), r) == after_report(
            *old(state),
            report.clean(),
            report.missing_count(),
            report.extra@.len() as usize,
        ),
{
    if report.is_clean() {
        match recover_from_drift(state) {
            Some(restored) => {
                *state = restored;
                DriftNews::Recovered
            },
            None => DriftNews::Nothing,
        }
    } else {
        let missing: usize = report.v4_missing.len().saturating_add(report.v6_missing.len());
        match drift_transition(state, missing, report.extra.len()) {
            Some((new_state, notify)) => {
                *state = new_state;
                if notify {
                    DriftNews::Drifted
                } else {
                    DriftNews::Nothing
                }
            },
            None => DriftNews::Nothing,
        }
    }
}

/// What is told of the news of a comparison, if notifications are on.
pub open spec fn drift_told(news: DriftNews, on: bool, missing: Seq<Seq<char>>) -> Option<
    Toast<Seq<char>>,
> {
    if !on {
        None
    } else {
        match news {
            DriftNews::Nothing => None,
            DriftNews::Recovered => Some(bypass_recovered_toast()),
            DriftNews::Drifted => if missing.len() > 0 {
                Some(bypass_drift_toast(missing))
            } else {
                None
            },
        }
    }
}

/// The notification about the news of a comparison: the missing networks are
/// named, and the recovery replaces what was said about them.
pub fn drift_notification(settings: &Settings, news: DriftNews, report: &BypassReport) -> (r:
    Option<Toast>)
    ensures
        match news {
            DriftNews::Nothing => r is None,
            DriftNews::Recovered => shown(
                r,
                settings.show_notifications_spec(),
                bypass_recovered_toast(),
            ),
            DriftNews::Drifted => shown(
                r,
                settings.show_notifications_spec() && report.all_missing().len() > 0,
                bypass_drift_toast(report.all_missing()),
            ),
        },
        match drift_told(news, settings.show_notifications_spec(), report.all_missing()) {
            Some(toast) => r is Some && r->0@ == toast,
            None => r is None,
        },
{
    match news {
        DriftNews::Nothing => None,
        DriftNews::Recovered => show_bypass_recovered_notification(settings),
        DriftNews::Drifted => {
            let missing = report.missing();
            show_bypass_drift_notification(settings, &missing)
        },
    }
}

/// A comparison is due.
pub open spec fn comparison_due(state: BypassState, any_connected: bool) -> bool {
    live(state) && any_connected
}

/// Whether a comparison is due: routes are installed and a session is
/// connected.
pub fn drift_check_due(state: &BypassState, any_connected: bool) -> (r: bool)
    ensures
        r == (live(*state) && any_connected),
        r == comparison_due(*state, any_connected),
{
    bypass_is_live(state) && any_connected
}

/// The state after a run of drift reports.
pub open spec fn after_drifts(state: BypassState, reports: Seq<(usize, usize)>) -> BypassState
    decreases reports.len(),
{
    if reports.len() == 0 {
        state
    } else {
        let before = after_drifts(state, reports.drop_last());
        match drifted(before, reports.last().0, reports.last().1) {
            Some((s, _)) => s,
            None => before,
        }
    }
}

/// However many drift reports come in a row, the recovery after them restores
/// the counts of the last apply.
pub proof fn law_recovery_restores_the_apply(
    applied: usize,
    failed: usize,
    reports: Seq<(usize, usize)>,
)
    requires
        reports.len() > 0,
    ensures
        recovered(after_drifts(BypassState::Active { applied, failed }, reports)) == Some(
            BypassState::Active { applied, failed },
        ),
    decreases reports.len(),
{
    if reports.len() > 1 {
        law_recovery_restores_the_apply(applied, failed, reports.drop_last());
    } else {
        assert(reports.drop_last() =~= Seq::empty());
        assert(after_drifts(BypassState::Active { applied, failed }, reports.drop_last())
            == BypassState::Active { applied, failed });
    }
}

/// A comparison never brings routes back to life that were taken down, and
/// never takes down those that are installed.
pub proof fn law_comparison_keeps_liveness(
    state: BypassState,
    clean: bool,
    missing: usize,
    extra: usize,
)
    ensures
        live(after_report(state, clean, missing, extra).0) == live(state),
        !live(state) ==> after_report(state, clean, missing, extra) == (state, DriftNews::Nothing),
{
}

/// The same drift is announced once: a second report with the same counts is
/// not news.
pub proof fn law_persistent_drift_is_announced_once(
    state: BypassState,
    missing: usize,
    extra: usize,
)
    ensures
        ({
            let once = after_report(state, false, missing, extra);
            after_report(once.0, false, missing, extra) == (once.0, DriftNews::Nothing)
        }),
{
}

/// While routes are installed, a drift is told just when it changes the state:
/// when it is new, or when the number of missing or of extra networks differs
/// from what was told last.
pub proof fn law_changed_drift_is_told(state: BypassState, missing: usize, extra: usize)
    requires
        state is Active || state is Drifted,
    ensures
        ({
            let (after, news) = after_report(state, false, missing, extra);
            &&& news == DriftNews::Drifted <==> after != state
            &&& news == DriftNews::Nothing <==> after == state
            &&& state is Active ==> news == DriftNews::Drifted
            &&& state matches BypassState::Drifted { missing: m0, extra: x0, .. } ==> (news
                == DriftNews::Nothing <==> m0 == missing && x0 == extra)
        }),
{
}

/// A drift that is reported is the drift that is kept, beside the counts of
/// the apply before it.
pub proof fn law_drift_keeps_the_latest_counts(
    applied: usize,
    failed: usize,
    old_missing: usize,
    old_extra: usize,
    missing: usize,
    extra: usize,
)
    ensures
        ({
            let latest = BypassState::Drifted {
                missing,
                extra,
                prev_applied: applied,
                prev_failed: failed,
            };
            let older = BypassState::Drifted {
                missing: old_missing,
                extra: old_extra,
                prev_applied: applied,
                prev_failed: failed,
            };
            &&& after_report(BypassState::Active { applied, failed }, false, missing, extra).0
                == latest
            &&& after_report(older, false, missing, extra).0 == latest
            &&& after_report(older, true, missing, extra) == (
                BypassState::Active { applied, failed },
                DriftNews::Recovered,
            )
        }),
{
}

/// A comparison without a difference is news only after a drift, and routes
/// that are not installed have no news at all.
pub proof fn law_recovery_needs_a_drift(
    state: BypassState,
    clean: bool,
    missing: usize,
    extra: usize,
)
    ensures
        ({
            let (after, news) = after_report(state, clean, missing, extra);
            &&& news == DriftNews::Recovered <==> clean && state is Drifted
            &&& clean && !(state is Drifted) ==> after == state && news == DriftNews::Nothing
            &&& state is Off || state is Failed ==> after == state && news == DriftNews::Nothing
        }),
{
}

/// A comparison counts every missing network of both families, lists those of
/// IPv4 before those of IPv6, and is clean only if nothing is missing and
/// nothing is there that should not be.
pub proof fn law_report_counts_both_families(report: BypassReport)
    ensures
        ({
            let n4 = report.v4_missing@.len();
            let n6 = report.v6_missing@.len();
            &&& report.clean() <==> n4 == 0 && n6 == 0 && report.extra@.len() == 0
            &&& n4 + n6 <= usize::MAX ==> report.missing_count() == n4 + n6
            &&& n4 + n6 > usize::MAX ==> report.missing_count() == usize::MAX
            &&& report.all_missing().len() == n4 + n6
            &&& forall|i: int| 0 <= i < n4 ==> #[trigger] report.all_missing()[i]
                == report.v4_missing@[i]@
            &&& forall|i: int| 0 <= i < n6 ==> #[trigger] report.all_missing()[n4 + i]
                == report.v6_missing@[i]@
        }),
{
}

/// Routes are compared with the wanted ones while they are installed, drifted
/// or not, and only then.
pub proof fn law_installed_routes_are_live(state: BypassState)
    ensures
        live(state) <==> state != BypassState::Off && state != BypassState::Failed,
{
}

/// With notifications on a recovery is always told, and a drift just when
/// networks are missing, with their names; with them off nothing is.
pub proof fn law_what_is_told_of_drift(news: DriftNews, on: bool, missing: Seq<Seq<char>>)
    ensures
        ({
            let told = drift_told(news, on, missing);
            &&& told is Some <==> on && (news == DriftNews::Recovered || news == DriftNews::Drifted
                && missing.len() > 0)
            &&& told is Some ==> (told->0).dedup_key == "__bypass_state__"@
            &&& told is Some && news == DriftNews::Drifted ==> (told->0).urgency == 2 && (
            told->0).expire_timeout == 0 && has_substring((told->0).body, short_list(missing))
            &&& told is Some && news == DriftNews::Recovered ==> (told->0).urgency == 1 && (
            told->0).expire_timeout == -1
        }),
{
    law_route_notices_tell_counts_and_names(missing.len(), missing);
}

/// Routes are compared just while they are installed and some session is
/// connected.
pub proof fn law_when_routes_are_compared(state: BypassState, any_connected: bool)
    ensures
        comparison_due(state, any_connected) <==> any_connected && state != BypassState::Off
            && state != BypassState::Failed,
{
}

} // verus!
