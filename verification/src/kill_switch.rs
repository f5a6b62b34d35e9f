//! The kill switch. The helper keeps one firewall table for all sessions, so
//! whether it is taken down depends on who else relies on it.
use vstd::prelude::*;
use vstd::string::*;

use crate::cidrs::listed;
use crate::config::BUS_NAME;
use crate::configs::{
    law_failure_notices_tell_the_error, protect_failure_notice, protect_failure_toast,
    reapply_failure_notice, reapply_failure_toast,
};
use crate::keyed::{holds_at, linked};
use crate::notify::{
    helper_missing_toast, killswitch_active_toast, show_helper_missing_notification,
    show_killswitch_active_notification, Toast,
};
use crate::protocol::{StatusMajor, StatusMinor};
use crate::search::{first_index, lemma_first_index, lemma_first_index_fits};
use crate::settings::Settings;
use crate::text::{has_substring, same, texts};
use crate::tray::{flags_cleared, BypassState, SessionInfo, TrayModel, VpnTray};

verus! {

/// What happens to the firewall when a session goes away.
#[derive(Debug, PartialEq, Eq)]
pub enum KillSwitchTeardown<T = String> {
    /// Nobody relies on it any more: take it down.
    Full,
    /// Another session relies on it: bind it to that session's tunnel.
    RebindTo { session_path: T },
    /// The session is about to be replaced: leave it alone.
    Skip,
}

/// A session, as path, connected and protected, keeps the firewall up when the
/// session at `gone` goes away.
pub open spec fn keeps_firewall(gone: Seq<char>) -> spec_fn((String, bool, bool)) -> bool {
    |survivor: (String, bool, bool)| survivor.0@ != gone && survivor.1 && survivor.2
}

/// Decides about the firewall when the session at `destroyed_path` goes away.
/// `survivors` holds path, connected and protected of every session, perhaps
/// still of the destroyed one itself.
pub fn decide_kill_switch_teardown(
    destroyed_path: &str,
    is_auth_retry: bool,
    survivors: Vec<(String, bool, bool)>,
) -> (r: KillSwitchTeardown)
    ensures
        ({
            let i = first_index(survivors@, keeps_firewall(destroyed_path@));
            if is_auth_retry {
                r == KillSwitchTeardown::<String>::Skip
            } else if i < survivors@.len() {
                r == (KillSwitchTeardown::RebindTo { session_path: survivors@[i].0 })
            } else {
                r == KillSwitchTeardown::<String>::Full
            }
        }),
{
    if is_auth_retry {
        return KillSwitchTeardown::Skip;
    }
    let mut i: usize = 0;
    while i < survivors.len()
        invariant
            i <= survivors.len(),
            !is_auth_retry,
            forall|j: int|
                0 <= j < i ==> !keeps_firewall(destroyed_path@)(#[trigger] survivors@[j]),
        decreases survivors.len() - i,
    {
        let differs = !same(survivors[i].0.as_str(), destroyed_path);
        if differs && survivors[i].1 && survivors[i].2 {
            proof {
                lemma_first_index(survivors@, keeps_firewall(destroyed_path@), i as int);
            }
            return KillSwitchTeardown::RebindTo { session_path: survivors[i].0.clone() };
        }
        i = i + 1;
    }
    proof {
        lemma_first_index(survivors@, keeps_firewall(destroyed_path@), i as int);
    }
    KillSwitchTeardown::Full
}

/// The session at `p` keeps the firewall up when the one at `gone` goes away.
pub open spec fn protected_survivor(
    sessions: Map<Seq<char>, SessionInfo<Seq<char>>>,
    gone: Seq<char>,
    p: Seq<char>,
) -> bool {
    sessions.contains_key(p) && p != gone && sessions[p].status.connected()
        && sessions[p].kill_switch_active
}

/// The list `s` is a snapshot of the sessions: each once, in some order.
pub open spec fn is_snapshot(
    s: Seq<(String, bool, bool)>,
    sessions: Map<Seq<char>, SessionInfo<Seq<char>>>,
) -> bool {
    &&& forall|i: int|
        0 <= i < s.len() ==> {
            &&& sessions.contains_key((#[trigger] s[i]).0@)
            &&& s[i].1 == sessions[s[i].0@].status.connected()
            &&& s[i].2 == sessions[s[i].0@].kill_switch_active
        }
    &&& forall|p: Seq<char>| #[trigger]
        sessions.contains_key(p) ==> exists|i: int| 0 <= i < s.len() && (#[trigger] s[i]).0@ == p
    &&& forall|i: int, j: int|
        0 <= i < j < s.len() ==> (#[trigger] s[i]).0@ != (#[trigger] s[j]).0@
}

/// Path, connected and protected of every session.
pub fn snapshot(tray: &VpnTray) -> (r: Vec<(String, bool, bool)>)
    ensures
        is_snapshot(r@, tray@.sessions),
{
    let mut out: Vec<(String, bool, bool)> = Vec::new();
    let n = tray.sessions.len();
    let mut i: usize = 0;
    while i < n
        invariant
            i <= n,
            n == tray.sessions.pairs().len(),
            linked(tray.sessions.pairs(), tray.sessions@),
            out.len() == i,
            forall|j: int|
                0 <= j < i ==> {
                    &&& (#[trigger] out@[j]).0@ == tray.sessions.pairs()[j].0
                    &&& out@[j].1 == tray.sessions.pairs()[j].1.status.connected()
                    &&& out@[j].2 == tray.sessions.pairs()[j].1.kill_switch_active
                },
        decreases n - i,
    {
        let s = tray.sessions.value_at(i);
        out.push(
            (tray.sessions.key_at(i).to_owned(), s.status.is_connected(), s.kill_switch_active),
        );
        i = i + 1;
    }
    proof {
        assert forall|i: int| 0 <= i < out@.len() implies {
            &&& tray@.sessions.contains_key((#[trigger] out@[i]).0@)
            &&& out@[i].1 == tray@.sessions[out@[i].0@].status.connected()
            &&& out@[i].2 == tray@.sessions[out@[i].0@].kill_switch_active
        } by {
            assert(tray.sessions@.contains_key(tray.sessions.pairs()[i].0));
        }
        assert forall|p: Seq<char>| #[trigger] tray@.sessions.contains_key(p) implies exists|i: int|
            0 <= i < out@.len() && (#[trigger] out@[i]).0@ == p by {
            assert(tray.sessions@.contains_key(p));
            let j = choose|j: int| holds_at(tray.sessions.pairs(), p, j);
            assert(out@[j].0@ == p);
        }
        assert forall|i: int, j: int| 0 <= i < j < out@.len() implies (#[trigger] out@[i]).0@ != (
        #[trigger] out@[j]).0@ by {
            assert(tray.sessions.pairs()[i].0 != tray.sessions.pairs()[j].0);
        }
    }
    out
}

/// What may be decided when the session at `gone` goes away, given the
/// sessions at that time.
pub open spec fn teardown_fits(
    t: KillSwitchTeardown,
    sessions: Map<Seq<char>, SessionInfo<Seq<char>>>,
    gone: Seq<char>,
    is_auth_retry: bool,
) -> bool {
    match t {
        KillSwitchTeardown::Skip => is_auth_retry,
        KillSwitchTeardown::RebindTo { session_path } => !is_auth_retry && protected_survivor(
            sessions,
            gone,
            session_path@,
        ),
        KillSwitchTeardown::Full => !is_auth_retry && forall|p: Seq<char>|
            !#[trigger] protected_survivor(sessions, gone, p),
    }
}

/// Decides about the firewall when the session at `gone` goes away, against
/// the tray as it is now. Which of several protected survivors is chosen is
/// left open.
pub fn teardown_for(tray: &VpnTray, gone: &str, is_auth_retry: bool) -> (r: KillSwitchTeardown)
    ensures
        teardown_fits(r, tray@.sessions, gone@, is_auth_retry),
{
    let survivors = snapshot(tray);
    let ghost list = survivors@;
    let r = decide_kill_switch_teardown(gone, is_auth_retry, survivors);
    proof {
        lemma_first_index_fits(list, keeps_firewall(gone@));
        let i = first_index(list, keeps_firewall(gone@));
        if !is_auth_retry {
            if i < list.len() {
                assert(keeps_firewall(gone@)(list[i]));
                assert(tray@.sessions.contains_key(list[i].0@));
            } else {
                assert forall|p: Seq<char>| !#[trigger] protected_survivor(
                    tray@.sessions,
                    gone@,
                    p,
                ) by {
                    if protected_survivor(tray@.sessions, gone@, p) {
                        let j = choose|j: int| 0 <= j < list.len() && (#[trigger] list[j]).0@ == p;
                        assert(keeps_firewall(gone@)(list[j]));
                    }
                }
            }
        }
    }
    r
}

/// Pausing a session releases the firewall.
pub open spec fn pause_releases(enable_kill_switch: bool, block_during_pause: bool) -> bool {
    enable_kill_switch && !block_during_pause
}

/// Whether pausing a session releases the firewall at all: the kill switch is
/// on and is not meant to hold during a pause.
pub fn should_teardown_on_pause(enable_kill_switch: bool, block_during_pause: bool) -> (r: bool)
    ensures
        r == (enable_kill_switch && !block_during_pause),
        r == pause_releases(enable_kill_switch, block_during_pause),
{
    enable_kill_switch && !block_during_pause
}

/// The tray once the firewall was taken down, with or without the bypass
/// routes.
pub open spec fn torn_down(tray: TrayModel, bypass_too: bool) -> TrayModel {
    TrayModel {
        sessions: flags_cleared(tray.sessions),
        bypass_state: if bypass_too {
            BypassState::Off
        } else {
            tray.bypass_state
        },
        ..tray
    }
}

/// Records that the firewall and the bypass routes were taken down.
pub fn full_killswitch_teardown(tray: &mut VpnTray)
    ensures
        final(tray)@ == (TrayModel {
            sessions: flags_cleared(old(tray)@.sessions),
            bypass_state: BypassState::Off,
            ..old(tray)@
        }),
        final(tray)@ == torn_down(old(tray)@, true),
{
    tray.clear_kill_switch_flags();
    tray.bypass_state = BypassState::Off;
}

/// Records that the firewall was taken down for a pause; the bypass routes
/// stay.
pub fn pause_full_teardown(tray: &mut VpnTray)
    ensures
        final(tray)@ == (TrayModel {
            sessions: flags_cleared(old(tray)@.sessions),
            ..old(tray)@
        }),
        final(tray)@ == torn_down(old(tray)@, false),
{
    tray.clear_kill_switch_flags();
}

/// What the tray shows after the attempt to bind the firewall to a survivor:
/// on success only the session that went away loses its flag, else the
/// firewall has to come down.
pub open spec fn after_rebind(
    tray: TrayModel,
    gone: Seq<char>,
    rebound: bool,
    drop_bypass: bool,
) -> TrayModel {
    if rebound {
        TrayModel {
            sessions: if tray.sessions.contains_key(gone) {
                tray.sessions.insert(
                    gone,
                    SessionInfo { kill_switch_active: false, ..tray.sessions[gone] },
                )
            } else {
                tray.sessions
            },
            ..tray
        }
    } else {
        TrayModel {
            sessions: flags_cleared(tray.sessions),
            bypass_state: if drop_bypass {
                BypassState::Off
            } else {
                tray.bypass_state
            },
            ..tray
        }
    }
}

/// The firewall has to come down after the attempt to bind it to a survivor.
pub open spec fn comes_down(outcome: Option<bool>) -> bool {
    outcome is None || !(outcome->0)
}

/// Records the attempt to bind the firewall to a survivor. `outcome` is the
/// helper's answer, nothing if the call failed; `drop_bypass` says whether a
/// failure takes the bypass routes down too. Returns whether the firewall has
/// to come down.
pub fn finish_rebind(
    tray: &mut VpnTray,
    gone: &str,
    outcome: Option<bool>,
    drop_bypass: bool,
) -> (r: bool)
    ensures
        r == (outcome != Some(true)),
        r == comes_down(outcome),
        final(tray)@ == after_rebind(old(tray)@, gone@, outcome == Some(true), drop_bypass),
{
    let rebound = match outcome {
        Some(true) => true,
        _ => false,
    };
    if rebound {
        tray.set_kill_switch_active(gone, false);
    } else if drop_bypass {
        full_killswitch_teardown(tray);
    } else {
        pause_full_teardown(tray);
    }
    !rebound
}

/// Whether the helper is installed: the bus can start it. `names` are the
/// services that the bus can start.
pub fn helper_present(names: &[String]) -> (r: bool)
    ensures
        r == texts(names@).contains(BUS_NAME@),
{
    listed(names, BUS_NAME)
}

/// The helper counts as there.
pub open spec fn counts_as_installed(installed: Option<bool>) -> bool {
    installed is None || installed->0
}

/// What asking the helper for rules came to: only a helper that is not
/// installed counts as a refusal. `installed` is unknown without a bus.
pub fn add_rules_answer(installed: Option<bool>) -> (r: bool)
    ensures
        r == (installed != Some(false)),
        r == counts_as_installed(installed),
{
    match installed {
        Some(present) => present,
        None => true,
    }
}

/// The tunnel's device and the server's address are known.
pub open spec fn tunnel_is_known(device_name: Seq<char>, server_ip: Seq<char>) -> bool {
    device_name.len() > 0 && server_ip.len() > 0
}

/// The helper can be asked for rules only once the tunnel's device and the
/// server's address are known.
pub fn rules_can_be_applied(device_name: &str, server_ip: &str) -> (r: bool)
    ensures
        r == (device_name@.len() > 0 && server_ip@.len() > 0),
        r == tunnel_is_known(device_name@, server_ip@),
{
    !device_name.is_empty() && !server_ip.is_empty()
}

/// On which occasion a session is protected.
#[derive(Clone, Copy, Debug, PartialEq, Eq, Structural)]
pub enum ProtectOccasion {
    /// It has just connected.
    Connected,
    /// It was connected before the program started.
    Start,
    /// The kill switch was switched on in the preferences.
    Switched,
}

/// What is told after the helper was asked to protect a session, if
/// notifications are `on`: that it is protected; that the helper is missing,
/// only of a session that has just connected and only if this was not `told`
/// before; and that the call failed, unless the kill switch was only just
/// switched on. A failure is told even while notifications are off.
pub open spec fn protection_news(
    outcome: Result<bool, String>,
    occasion: ProtectOccasion,
    told: bool,
    on: bool,
) -> Option<Toast<Seq<char>>> {
    match outcome {
        Ok(true) => if on {
            Some(killswitch_active_toast())
        } else {
            None
        },
        Ok(false) => if occasion == ProtectOccasion::Connected && !told && on {
            Some(helper_missing_toast())
        } else {
            None
        },
        Err(e) => match occasion {
            ProtectOccasion::Connected => Some(protect_failure_toast(e@)),
            ProtectOccasion::Start => Some(reapply_failure_toast(e@)),
            ProtectOccasion::Switched => None,
        },
    }
}

/// The tray after the helper was asked to protect a session.
pub open spec fn protection_shown(
    tray: TrayModel,
    path: Seq<char>,
    outcome: Result<bool, String>,
) -> TrayModel {
    if outcome == Ok::<bool, String>(true) && tray.sessions.contains_key(path) {
        TrayModel {
            sessions: tray.sessions.insert(
                path,
                SessionInfo { kill_switch_active: true, ..tray.sessions[path] },
            ),
            ..tray
        }
    } else {
        tray
    }
}

/// Takes in what came of asking the helper to protect a session: its answer,
/// or the error of the call. The result is what the user is told. A session
/// that is still known is shown as protected if the helper has agreed.
pub fn record_protection(
    tray: &mut VpnTray,
    settings: &Settings,
    path: &str,
    outcome: &Result<bool, String>,
    occasion: ProtectOccasion,
    helper_missing_told: &mut bool,
) -> (r: Option<Toast>)
    ensures
        match protection_news(
            *outcome,
            occasion,
            *old(helper_missing_told),
            settings.show_notifications_spec(),
        ) {
            Some(toast) => r is Some && r->0@ == toast,
            None => r is None,
        },
        *final(helper_missing_told) == (*old(helper_missing_told) || occasion
            == ProtectOccasion::Connected && *outcome == Ok::<bool, String>(false)),
        final(tray)@ == (if *outcome == Ok::<bool, String>(true)
            && old(tray)@.sessions.contains_key(path@) {
            TrayModel {
                sessions: old(tray)@.sessions.insert(
                    path@,
                    SessionInfo { kill_switch_active: true, ..old(tray)@.sessions[path@] },
                ),
                ..old(tray)@
            }
        } else {
            old(tray)@
        }),
        final(tray)@ == protection_shown(old(tray)@, path@, *outcome),
{
    match outcome {
        Ok(true) => {
            tray.set_kill_switch_active(path, true);
            show_killswitch_active_notification(settings)
        },
        Ok(false) => match occasion {
            ProtectOccasion::Connected => if *helper_missing_told {
                None
            } else {
                *helper_missing_told = true;
                show_helper_missing_notification(settings)
            },
            _ => None,
        },
        Err(e) => match occasion {
            ProtectOccasion::Connected => Some(protect_failure_notice(e.as_str())),
            ProtectOccasion::Start => Some(reapply_failure_notice(e.as_str())),
            ProtectOccasion::Switched => None,
        },
    }
}

/// A missing helper is told once: after a session that has just connected has
/// met it, whether that was shown or not, no session tells of it again.
pub proof fn law_missing_helper_is_told_once(occasion: ProtectOccasion, on: bool, told: bool)
    ensures
        protection_news(Ok(false), occasion, true, on) is None,
        occasion != ProtectOccasion::Connected ==> protection_news(
            Ok(false),
            occasion,
            told,
            on,
        ) is None,
{
}

/// While another session is connected and protected, the firewall does not
/// come down with the one that goes away.
pub proof fn law_protected_survivor_keeps_firewall(
    t: KillSwitchTeardown,
    sessions: Map<Seq<char>, SessionInfo<Seq<char>>>,
    gone: Seq<char>,
    is_auth_retry: bool,
    p: Seq<char>,
)
    requires
        teardown_fits(t, sessions, gone, is_auth_retry),
        protected_survivor(sessions, gone, p),
    ensures
        t !is Full,
{
}

/// The replacement of a session after a failed login leaves the firewall
/// alone, and nothing else does.
pub proof fn law_only_a_replacement_is_skipped(
    t: KillSwitchTeardown,
    sessions: Map<Seq<char>, SessionInfo<Seq<char>>>,
    gone: Seq<char>,
    is_auth_retry: bool,
)
    requires
        teardown_fits(t, sessions, gone, is_auth_retry),
    ensures
        t is Skip <==> is_auth_retry,
{
}

/// A successful rebind leaves every other session's flag alone.
pub proof fn law_rebind_keeps_the_survivors(
    tray: TrayModel,
    gone: Seq<char>,
    drop_bypass: bool,
    p: Seq<char>,
)
    requires
        protected_survivor(tray.sessions, gone, p),
    ensures
        protected_survivor(after_rebind(tray, gone, true, drop_bypass).sessions, gone, p),
        after_rebind(tray, gone, true, drop_bypass).bypass_state == tray.bypass_state,
{
}

/// After a full teardown no session is shown as protected.
pub proof fn law_teardown_leaves_no_flag(tray: TrayModel, gone: Seq<char>, p: Seq<char>)
    requires
        after_rebind(tray, gone, false, true).sessions.contains_key(p),
    ensures
        !after_rebind(tray, gone, false, true).sessions[p].kill_switch_active,
        after_rebind(tray, gone, false, true).bypass_state == BypassState::Off,
{
}

/// The firewall is bound to the first session of the list that is another one,
/// connected and protected, if there is such a session at all.
pub proof fn law_first_protected_survivor_is_chosen(
    survivors: Seq<(String, bool, bool)>,
    gone: Seq<char>,
    i: int,
)
    requires
        0 <= i < survivors.len(),
        survivors[i].0@ != gone && survivors[i].1 && survivors[i].2,
        forall|j: int|
            0 <= j < i ==> (#[trigger] survivors[j]).0@ == gone || !survivors[j].1
                || !survivors[j].2,
    ensures
        first_index(survivors, keeps_firewall(gone)) == i,
{
    assert forall|j: int| 0 <= j < i implies !keeps_firewall(gone)(#[trigger] survivors[j]) by {
        assert(survivors[j].0@ == gone || !survivors[j].1 || !survivors[j].2);
    }
    lemma_first_index(survivors, keeps_firewall(gone), i);
}

/// Without another session that is connected and protected there is nobody to
/// bind the firewall to.
pub proof fn law_no_survivor_no_rebind(survivors: Seq<(String, bool, bool)>, gone: Seq<char>)
    requires
        forall|j: int|
            0 <= j < survivors.len() ==> (#[trigger] survivors[j]).0@ == gone || !survivors[j].1
                || !survivors[j].2,
    ensures
        first_index(survivors, keeps_firewall(gone)) == survivors.len(),
{
    assert forall|j: int| 0 <= j < survivors.len() implies !keeps_firewall(gone)(
        #[trigger] survivors[j],
    ) by {
        assert(survivors[j].0@ == gone || !survivors[j].1 || !survivors[j].2);
    }
    lemma_first_index(survivors, keeps_firewall(gone), survivors.len() as int);
}

/// What is decided when a session goes away: nothing if it is being replaced;
/// else the firewall is bound to another session that is known, connected and
/// protected, as soon as there is one, and comes down if there is none.
pub proof fn law_firewall_follows_the_sessions(
    t: KillSwitchTeardown,
    sessions: Map<Seq<char>, SessionInfo<Seq<char>>>,
    gone: Seq<char>,
    is_auth_retry: bool,
)
    requires
        teardown_fits(t, sessions, gone, is_auth_retry),
    ensures
        is_auth_retry ==> t is Skip,
        !is_auth_retry && (exists|p: Seq<char>| #[trigger]
            sessions.contains_key(p) && p != gone && sessions[p].status.major
                == StatusMajor::Connection && sessions[p].status.minor == StatusMinor::ConnConnected
                && sessions[p].kill_switch_active) ==> t is RebindTo,
        !is_auth_retry && (forall|p: Seq<char>| #[trigger]
            sessions.contains_key(p) ==> p == gone || sessions[p].status.major
                != StatusMajor::Connection || sessions[p].status.minor != StatusMinor::ConnConnected
                || !sessions[p].kill_switch_active) ==> t is Full,
        t matches KillSwitchTeardown::RebindTo { session_path } ==> {
            &&& sessions.contains_key(session_path@)
            &&& session_path@ != gone
            &&& sessions[session_path@].status.major == StatusMajor::Connection
            &&& sessions[session_path@].status.minor == StatusMinor::ConnConnected
            &&& sessions[session_path@].kill_switch_active
        },
{
    if !is_auth_retry && t is Full {
        assert forall|p: Seq<char>| #[trigger] sessions.contains_key(p) implies p == gone
            || !sessions[p].status.connected() || !sessions[p].kill_switch_active by {
            assert(!protected_survivor(sessions, gone, p));
        }
    }
}

/// What the tray shows after the firewall was bound to another session, or had
/// to come down because it could not be: in the first case only the session
/// that went away loses its flag, in the second every session does, and the
/// bypass routes are off just when they were to go down too.
pub proof fn law_flags_after_a_rebind(
    tray: TrayModel,
    gone: Seq<char>,
    rebound: bool,
    drop_bypass: bool,
    p: Seq<char>,
)
    ensures
        ({
            let after = after_rebind(tray, gone, rebound, drop_bypass);
            &&& after.sessions.contains_key(p) <==> tray.sessions.contains_key(p)
            &&& tray.sessions.contains_key(p) ==> {
                &&& after.sessions[p].kill_switch_active <==> {
                    tray.sessions[p].kill_switch_active && rebound && p != gone
                }
                &&& tray.sessions[p] == (SessionInfo {
                    kill_switch_active: tray.sessions[p].kill_switch_active,
                    ..after.sessions[p]
                })
            }
            &&& after.bypass_state == (if !rebound && drop_bypass {
                BypassState::Off
            } else {
                tray.bypass_state
            })
            &&& after.configs == tray.configs
            &&& after.kill_switch_enabled == tray.kill_switch_enabled
        }),
{
}

/// When something is told of protecting a session: success while notifications
/// are on; a missing helper once, on a connect, while they are on; a failed
/// call always, unless the kill switch was only just switched on.
pub proof fn law_what_is_told_of_protection(
    outcome: Result<bool, String>,
    occasion: ProtectOccasion,
    told: bool,
    on: bool,
)
    ensures
        ({
            let news = protection_news(outcome, occasion, told, on);
            &&& outcome == Ok::<bool, String>(true) ==> (news is Some <==> on)
            &&& outcome == Ok::<bool, String>(false) ==> (news is Some <==> on && !told && occasion
                == ProtectOccasion::Connected)
            &&& outcome is Err ==> (news is Some <==> occasion != ProtectOccasion::Switched)
            &&& outcome == Ok::<bool, String>(true) && on ==> (news->0).summary
                == "Kill-Switch Active"@
            &&& outcome == Ok::<bool, String>(false) && news is Some ==> (news->0).summary
                == "Kill-Switch Helper Not Installed"@
            &&& outcome is Err && news is Some ==> has_substring((news->0).body, outcome->Err_0@)
        }),
{
    if outcome is Err && occasion != ProtectOccasion::Switched {
        law_failure_notices_tell_the_error(outcome->Err_0@);
    }
}

/// A session is shown as protected once the helper has agreed, if it is still
/// known; nothing else of the tray changes, and no refusal or failure changes
/// anything.
pub proof fn law_agreement_shows_the_flag(
    tray: TrayModel,
    path: Seq<char>,
    outcome: Result<bool, String>,
    p: Seq<char>,
)
    ensures
        ({
            let after = protection_shown(tray, path, outcome);
            let agreed = outcome is Ok && outcome->Ok_0;
            &&& !agreed ==> after == tray
            &&& after.sessions.contains_key(p) <==> tray.sessions.contains_key(p)
            &&& agreed && tray.sessions.contains_key(path)
                ==> after.sessions[path].kill_switch_active
            &&& p != path ==> after.sessions[p] == tray.sessions[p]
            &&& tray.sessions.contains_key(path) ==> after.sessions[path] == (SessionInfo {
                kill_switch_active: after.sessions[path].kill_switch_active,
                ..tray.sessions[path]
            })
            &&& after.configs == tray.configs
            &&& after.bypass_state == tray.bypass_state
            &&& after.kill_switch_enabled == tray.kill_switch_enabled
        }),
{
}

/// A snapshot has every session of the tray with its own marks, once, and no
/// other.
pub proof fn law_snapshot_is_faithful(
    s: Seq<(String, bool, bool)>,
    sessions: Map<Seq<char>, SessionInfo<Seq<char>>>,
    p: Seq<char>,
    i: int,
    j: int,
)
    requires
        is_snapshot(s, sessions),
        0 <= i < s.len(),
        0 <= j < s.len(),
    ensures
        sessions.contains_key(p) <==> exists|k: int| 0 <= k < s.len() && (#[trigger] s[k]).0@ == p,
        s[i].1 <==> sessions[s[i].0@].status.major == StatusMajor::Connection
            && sessions[s[i].0@].status.minor == StatusMinor::ConnConnected,
        s[i].2 <==> sessions[s[i].0@].kill_switch_active,
        i != j ==> s[i].0@ != s[j].0@,
{
}

/// The firewall stays only if the helper said that it was bound to the
/// survivor; no answer counts as a refusal there, and as consent where the
/// helper is asked whether it is installed.
pub proof fn law_missing_answers(answer: Option<bool>)
    ensures
        comes_down(answer) <==> answer != Some(true),
        counts_as_installed(answer) <==> answer != Some(false),
        comes_down(None) && counts_as_installed(None),
{
}

/// Rules need both ends of the tunnel, and a pause releases the firewall just
/// when the kill switch is on and not meant to hold.
pub proof fn law_when_rules_come_and_go(
    device_name: Seq<char>,
    server_ip: Seq<char>,
    on: bool,
    hold: bool,
)
    ensures
        !tunnel_is_known(device_name, server_ip) <==> device_name.len() == 0 || server_ip.len()
            == 0,
        pause_releases(on, hold) <==> on && !hold,
{
}

/// Taking the firewall down leaves no session protected and loses none; a
/// pause keeps the bypass routes. It is what a failed rebind comes to.
pub proof fn law_after_a_teardown(
    tray: TrayModel,
    gone: Seq<char>,
    bypass_too: bool,
    p: Seq<char>,
)
    ensures
        ({
            let after = torn_down(tray, bypass_too);
            &&& after == after_rebind(tray, gone, false, bypass_too)
            &&& after.sessions.contains_key(p) <==> tray.sessions.contains_key(p)
            &&& tray.sessions.contains_key(p) ==> !after.sessions[p].kill_switch_active
            &&& bypass_too ==> after.bypass_state == BypassState::Off
            &&& !bypass_too ==> after.bypass_state == tray.bypass_state
            &&& after.configs == tray.configs
        }),
{
}

} // verus!
