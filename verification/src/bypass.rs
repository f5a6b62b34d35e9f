//! Routing networks outside the tunnel: when the helper is asked, and what its
//! answer means.
use vstd::prelude::*;
use vstd::string::*;

use crate::drift::{after_report, outcome_to_state, BypassApplyOutcome};
use crate::notify::{
    bypass_active_body, bypass_partial_body, first_texts, law_route_notices_tell_counts_and_names,
    short_list, show_bypass_active_notification, show_bypass_failed_notification,
    show_bypass_partial_notification, shown, state_toast, Toast, BYPASS_STATE_KEY, EXPIRE_DEFAULT,
    EXPIRE_NEVER,
};
use crate::settings::Settings;
use crate::text::{
    decimal, has_substring, law_part_occurs_in_the_whole, law_text_starts_with_its_front,
    starts_with_spec, strip_prefix,
};
use crate::tray::{BypassState, TrayModel, VpnTray};

verus! {

/// The state after an apply; no report means that it failed as a whole.
pub open spec fn applied_state(outcome: Option<BypassApplyOutcome>) -> BypassState {
    match outcome {
        None => BypassState::Failed,
        Some(out) => BypassState::Active {
            applied: out.applied@.len() as usize,
            failed: out.failed@.len() as usize,
        },
    }
}

/// What is asked of the helper for a list of networks.
#[derive(Debug)]
pub enum BypassPush {
    /// Take the routes down and forget the list.
    Clear,
    /// Hand over the list, and install the routes if it is accepted.
    Install(Vec<String>),
}

/// The networks for which the helper is asked to install routes when a session
/// connects, if there are any.
pub fn apply_bypass(cidrs: Vec<String>) -> (r: Option<Vec<String>>)
    ensures
        r == (if cidrs@.len() == 0 {
            None
        } else {
            Some(cidrs)
        }),
{
    if cidrs.len() == 0 {
        None
    } else {
        Some(cidrs)
    }
}

/// The tray once the list has been changed while a session is connected.
pub open spec fn after_live_change(tray: TrayModel, networks: nat) -> TrayModel {
    if networks == 0 {
        TrayModel { bypass_state: BypassState::Off, ..tray }
    } else {
        tray
    }
}

/// What is asked of the helper when the list has been changed while a session
/// is connected. Clearing it leaves no routes.
pub fn apply_bypass_live(tray: &mut VpnTray, enabled: Vec<String>) -> (r: BypassPush)
    ensures
        enabled@.len() == 0 ==> r is Clear && final(tray)@ == (TrayModel {
            bypass_state: BypassState::Off,
            ..old(tray)@
        }),
        enabled@.len() > 0 ==> r == BypassPush::Install(enabled) && *final(tray) == *old(tray),
        final(tray)@ == after_live_change(old(tray)@, enabled@.len()),
{
    if enabled.len() == 0 {
        tray.bypass_state = BypassState::Off;
        BypassPush::Clear
    } else {
        BypassPush::Install(enabled)
    }
}

/// What follows once the list was handed over.
#[derive(Clone, Copy, Debug, PartialEq, Eq, Structural)]
pub enum AfterSet {
    /// Install the routes.
    Install,
    /// Tell that the apply failed.
    Report,
}

/// What follows once the list was handed over: the routes are only installed
/// if the helper accepted it, since it keeps its old list otherwise.
pub fn after_set(accepted: bool) -> (r: AfterSet)
    ensures
        r == (if accepted {
            AfterSet::Install
        } else {
            AfterSet::Report
        }),
{
    if accepted {
        AfterSet::Install
    } else {
        AfterSet::Report
    }
}

/// The notification about an apply.
pub open spec fn outcome_toast(outcome: Option<BypassApplyOutcome>) -> Toast<Seq<char>> {
    match outcome {
        Some(out) => if out.failed@.len() == 0 {
            state_toast(
                BYPASS_STATE_KEY@,
                "Split Tunneling Active"@,
                bypass_active_body(out.applied@.len()),
                1,
                EXPIRE_DEFAULT,
            )
        } else {
            state_toast(
                BYPASS_STATE_KEY@,
                "Split Tunneling Partially Applied"@,
                bypass_partial_body(out.applied@.len(), first_texts(out.failed@)),
                2,
                EXPIRE_NEVER,
            )
        },
        None => state_toast(
            BYPASS_STATE_KEY@,
            "Split Tunneling Apply Failed"@,
            "Bypass routes could not be installed. Reconnect or check helper logs."@,
            2,
            EXPIRE_NEVER,
        ),
    }
}

/// Takes in the outcome of an apply: the state that is shown, and the
/// notification that tells of it.
pub fn apply_bypass_outcome_to_tray(
    tray: &mut VpnTray,
    settings: &Settings,
    outcome: Option<BypassApplyOutcome>,
) -> (r: Option<Toast>)
    ensures
        final(tray)@ == (TrayModel { bypass_state: applied_state(outcome), ..old(tray)@ }),
        shown(r, settings.show_notifications_spec(), outcome_toast(outcome)),
{
    let state = outcome_to_state(&outcome);
    tray.bypass_state = state;
    match outcome {
        Some(out) => if out.failed.len() == 0 {
            show_bypass_active_notification(settings, out.applied.len())
        } else {
            show_bypass_partial_notification(settings, out.applied.len(), &out.failed)
        },
        None => show_bypass_failed_notification(settings),
    }
}

/// Why the helper could not check a list of networks.
#[derive(Debug)]
pub enum HelperFault {
    NoBus,
    NotInstalled,
    /// The helper cannot be called; the error's text.
    NoProxy(String),
    /// The helper refused the list; the error's text.
    Refused(String),
}

/// The helper's own words in the text of a refusal.
pub open spec fn diagnostic(raw: Seq<char>) -> Seq<char> {
    if starts_with_spec(raw, "InvalidArgs: "@) {
        raw.skip("InvalidArgs: "@.len() as int)
    } else {
        raw
    }
}

/// The helper's own words: the text of its error without the error's kind.
pub fn extract_diagnostic(raw: &str) -> (r: String)
    ensures
        r@ == diagnostic(raw@),
{
    match strip_prefix(raw, "InvalidArgs: ") {
        Some(rest) => rest,
        None => raw.to_owned(),
    }
}

pub open spec fn fault_text(fault: HelperFault) -> Seq<char> {
    match fault {
        HelperFault::NoBus => "system bus unavailable"@,
        HelperFault::NotInstalled => "helper not installed"@,
        HelperFault::NoProxy(e) => "proxy build failed: "@ + e@,
        HelperFault::Refused(e) => diagnostic(e@),
    }
}

/// What the user is told when the helper did not accept a list.
pub fn validate_bypass_cidrs(fault: &HelperFault) -> (r: String)
    ensures
        r@ == fault_text(*fault),
{
    match fault {
        HelperFault::NoBus => "system bus unavailable".to_owned(),
        HelperFault::NotInstalled => "helper not installed".to_owned(),
        HelperFault::NoProxy(e) => {
            let mut text = "proxy build failed: ".to_owned();
            text.append(e.as_str());
            text
        },
        HelperFault::Refused(e) => extract_diagnostic(e.as_str()),
    }
}

/// After an apply the state counts what was routed and what was refused; an
/// apply without a report has failed. A drift and its recovery lead back to
/// that state.
pub proof fn law_apply_is_counted(
    outcome: Option<BypassApplyOutcome>,
    missing: usize,
    extra: usize,
)
    ensures
        ({
            let state = applied_state(outcome);
            &&& outcome is None <==> state == BypassState::Failed
            &&& outcome matches Some(out) ==> {
                &&& state is Active
                &&& state->applied == out.applied@.len() as usize
                &&& state->failed == out.failed@.len() as usize
                &&& after_report(
                    after_report(state, false, missing, extra).0,
                    true,
                    missing,
                    extra,
                ).0 == state
            }
        }),
{
}

/// What is told of an apply: all is well only if nothing was refused, and a
/// warning stays until it is dismissed. All of it goes under one key.
pub proof fn law_apply_is_told(outcome: Option<BypassApplyOutcome>)
    ensures
        ({
            let toast = outcome_toast(outcome);
            let good = outcome is Some && outcome->0.failed@.len() == 0;
            &&& toast.dedup_key == "__bypass_state__"@
            &&& toast.urgency == (if good {
                1u8
            } else {
                2u8
            })
            &&& toast.expire_timeout == (if good {
                -1i32
            } else {
                0i32
            })
            &&& toast.summary == (if good {
                "Split Tunneling Active"@
            } else if outcome is Some {
                "Split Tunneling Partially Applied"@
            } else {
                "Split Tunneling Apply Failed"@
            })
            &&& outcome is Some ==> starts_with_spec(
                toast.body,
                decimal(outcome->0.applied@.len()),
            )
            &&& outcome is Some && !good ==> has_substring(
                toast.body,
                short_list(first_texts(outcome->0.failed@)),
            )
        }),
{
    if outcome is Some {
        law_route_notices_tell_counts_and_names(
            outcome->0.applied@.len(),
            first_texts(outcome->0.failed@),
        );
    }
}

/// Of a refusal the user sees the helper's words: all of them, without the
/// error's kind where the text begins with it.
pub proof fn law_refusal_in_the_helpers_words(words: Seq<char>)
    ensures
        diagnostic("InvalidArgs: "@ + words) == words,
        !starts_with_spec(words, "InvalidArgs: "@) ==> diagnostic(words) == words,
        diagnostic(words).len() <= words.len(),
        words.skip(words.len() - diagnostic(words).len()) == diagnostic(words),
{
    law_text_starts_with_its_front("InvalidArgs: "@, words);
    if !starts_with_spec(words, "InvalidArgs: "@) {
        assert(words.skip(0) =~= words);
    }
}

/// What the user is told when a list could not be checked holds the words of
/// the error, where there are any.
pub proof fn law_faults_tell_the_error(e: String)
    ensures
        has_substring(fault_text(HelperFault::NoProxy(e)), e@),
        fault_text(HelperFault::Refused(e)) == diagnostic(e@),
        fault_text(HelperFault::NoBus) == "system bus unavailable"@,
        fault_text(HelperFault::NotInstalled) == "helper not installed"@,
{
    let a = "proxy build failed: "@;
    law_part_occurs_in_the_whole(a, e@, Seq::empty());
    assert(a + e@ + Seq::empty() =~= a + e@);
}

/// Clearing the list takes the routes off the tray at once; any other list
/// waits for the helper's report.
pub proof fn law_cleared_list_shows_no_routes(tray: TrayModel, networks: nat)
    ensures
        networks == 0 ==> after_live_change(tray, networks).bypass_state == BypassState::Off,
        networks > 0 ==> after_live_change(tray, networks) == tray,
        after_live_change(tray, networks).sessions == tray.sessions,
        after_live_change(tray, networks).configs == tray.configs,
        after_live_change(tray, networks).kill_switch_enabled == tray.kill_switch_enabled,
{
}

} // verus!
