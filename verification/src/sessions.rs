//! The life of sessions: announced, started, polled, dropped, and started
//! again.
use vstd::prelude::*;
use vstd::string::*;

use crate::cidrs::{enabled, enabled_cidrs};
use crate::clock::{law_seconds_are_whole, Moment};
use crate::protocol::{major_of, minor_of, SessionStatus, StatusMajor, StatusMinor};
use crate::registers::{Registers, RegistersModel};
use crate::search::{first_index, lemma_first_index_fits};
use crate::settings::{Settings, SettingsValues};
use crate::stall::{
    after_poll, apply_stall_detection, idle_start, reconnect_due, stall_reconnect_due,
};
use crate::status::{budget_cleared, clear_credential_attempts, given_up};
use crate::text::{contains, opt_text, same, texts};
use crate::tray::{
    config_name_of, fresh_session, law_any_connected_session_counts, lies_at, new_session,
    resolve_config_name, some_connected, without_config, SessionInfo, TrayModel, VpnTray, FALLBACK_NAME, UNKNOWN_CONFIG_NAME,
};

verus! {

/// The text, or the other one if there is none.
pub open spec fn text_or(s: Option<String>, other: Seq<char>) -> Seq<char> {
    match s {
        Some(t) => t@,
        None => other,
    }
}

/// The text, or the other one if there is none.
pub fn or_text(s: Option<String>, other: &str) -> (r: String)
    ensures
        r@ == text_or(s, other@),
{
    match s {
        Some(t) => t,
        None => other.to_owned(),
    }
}

/// The decoded status; a status that could not be read counts as unset.
pub open spec fn status_or_unset(status: Option<(u32, u32)>) -> SessionStatus {
    match status {
        Some((major, minor)) => SessionStatus { major: major_of(major), minor: minor_of(minor) },
        None => SessionStatus { major: major_of(0), minor: minor_of(0) },
    }
}

/// Decodes a status that was read, if it could be read.
pub fn decode_status(status: Option<(u32, u32)>) -> (r: SessionStatus)
    ensures
        r == status_or_unset(status),
{
    match status {
        Some((major, minor)) => SessionStatus::new(major, minor, String::new()),
        None => SessionStatus::new(0, 0, String::new()),
    }
}

/// The sessions after one was announced: an entry without a configuration is
/// given it, one with a configuration is kept, and an unknown session gets an
/// entry.
pub open spec fn announced(
    sessions: Map<Seq<char>, SessionInfo<Seq<char>>>,
    path: Seq<char>,
    config_path: Seq<char>,
    config_name: Seq<char>,
    status: SessionStatus,
) -> Map<Seq<char>, SessionInfo<Seq<char>>> {
    if !sessions.contains_key(path) {
        sessions.insert(path, fresh_session(path, config_path, config_name, status))
    } else if sessions[path].config_path.len() == 0 {
        sessions.insert(path, SessionInfo { config_path, config_name, ..sessions[path] })
    } else {
        sessions
    }
}

/// Takes in the announcement of a session. What could not be read of it is
/// nothing; it then has the fallback name, no configuration and no status.
pub fn handle_session_created(
    tray: &mut VpnTray,
    path: &str,
    config_path: Option<String>,
    config_name: Option<String>,
    status: Option<(u32, u32)>,
)
    ensures
        final(tray)@ == (TrayModel {
            sessions: announced(
                old(tray)@.sessions,
                path@,
                text_or(config_path, Seq::empty()),
                text_or(config_name, FALLBACK_NAME@),
                status_or_unset(status),
            ),
            ..old(tray)@
        }),
{
    let none = String::new();
    assert(none@ =~= Seq::empty());
    let config_path = or_text(config_path, none.as_str());
    let config_name = or_text(config_name, FALLBACK_NAME);
    let found = match tray.session(path) {
        Some(s) => Some(s.clone()),
        None => None,
    };
    match found {
        Some(mut s) => {
            if s.config_path.as_str().is_empty() {
                s.config_path = config_path;
                s.config_name = config_name;
                tray.put_session(path, s);
            }
        },
        None => {
            let s = new_session(
                path,
                config_path.as_str(),
                config_name.as_str(),
                decode_status(status),
            );
            tray.put_session(path, s);
        },
    }
}

/// What is done about a session that is gone.
#[derive(Debug)]
pub enum DropAnswer<T = String> {
    /// The drop was expected: decide about the firewall.
    Teardown { auth_retry: bool },
    /// Reconnect after so many seconds.
    AutoReconnect { config_path: T, config_name: T, delay: u32 },
    /// Offer the user to reconnect.
    OfferReconnect { config_path: T, config_name: T },
    /// There is nothing to reconnect to.
    Nothing,
}

impl View for DropAnswer<String> {
    type V = DropAnswer<Seq<char>>;

    open spec fn view(&self) -> DropAnswer<Seq<char>> {
        match *self {
            DropAnswer::Teardown { auth_retry } => DropAnswer::Teardown { auth_retry },
            DropAnswer::AutoReconnect { config_path, config_name, delay } =>
                DropAnswer::AutoReconnect {
                config_path: config_path@,
                config_name: config_name@,
                delay,
            },
            DropAnswer::OfferReconnect { config_path, config_name } =>
                DropAnswer::OfferReconnect {
                config_path: config_path@,
                config_name: config_name@,
            },
            DropAnswer::Nothing => DropAnswer::Nothing,
        }
    }
}

/// Configuration path and name of a session that is gone: from the tray, or
/// else from what was remembered of it.
pub open spec fn last_identity(m: RegistersModel, path: Seq<char>) -> Option<
    (Seq<char>, Seq<char>),
> {
    if m.tray.sessions.contains_key(path) {
        Some((m.tray.sessions[path].config_path, m.tray.sessions[path].config_name))
    } else if m.recent_destroyed.contains_key(path) {
        Some(m.recent_destroyed[path])
    } else {
        None
    }
}

/// The registers after a session was announced as gone: its marks are used up,
/// and so is what was remembered of it, if that was needed.
pub open spec fn destroyed_state(m: RegistersModel, path: Seq<char>) -> RegistersModel {
    RegistersModel {
        user_disconnected: m.user_disconnected.remove(path),
        auth_retry: m.auth_retry.remove(path),
        recent_destroyed: if m.tray.sessions.contains_key(path) {
            m.recent_destroyed
        } else {
            m.recent_destroyed.remove(path)
        },
        ..m
    }
}

/// What is done about a session that is gone.
pub open spec fn destroyed_answer(
    m: RegistersModel,
    path: Seq<char>,
    settings: Settings,
) -> DropAnswer<Seq<char>> {
    if m.user_disconnected.contains(path) || m.auth_retry.contains(path) {
        DropAnswer::Teardown { auth_retry: m.auth_retry.contains(path) }
    } else {
        match last_identity(m, path) {
            Some((config_path, config_name)) => if config_path.len() == 0 {
                DropAnswer::Nothing
            } else if settings.auto_reconnect_spec() {
                DropAnswer::AutoReconnect {
                    config_path,
                    config_name,
                    delay: settings.auto_reconnect_delay_seconds_spec() as u32,
                }
            } else {
                DropAnswer::OfferReconnect { config_path, config_name }
            },
            None => DropAnswer::Nothing,
        }
    }
}

/// Takes in that a session is gone and says what is to be done about it.
pub fn handle_session_destroyed(reg: &mut Registers, settings: &Settings, path: &str) -> (r:
    DropAnswer)
    ensures
        final(reg)@ == destroyed_state(old(reg)@, path@),
        r@ == destroyed_answer(old(reg)@, path@, *settings),
{
    let in_tray = match reg.tray.session(path) {
        Some(s) => Some((s.config_path.clone(), s.config_name.clone())),
        None => None,
    };
    let identity = match in_tray {
        Some(p) => Some(p),
        None => reg.take_destroyed(path),
    };
    let user_initiated = reg.user_disconnected.remove(path);
    let auth_retry = reg.auth_retry.remove(path);
    if user_initiated || auth_retry {
        return DropAnswer::Teardown { auth_retry };
    }
    match identity {
        Some((config_path, config_name)) => if config_path.as_str().is_empty() {
            DropAnswer::Nothing
        } else if settings.auto_reconnect() {
            DropAnswer::AutoReconnect {
                config_path,
                config_name,
                delay: settings.auto_reconnect_delay_seconds(),
            }
        } else {
            DropAnswer::OfferReconnect { config_path, config_name }
        },
        None => DropAnswer::Nothing,
    }
}

/// An expected drop never leads to a reconnect, an unexpected one never takes
/// the firewall down.
pub proof fn law_drop_is_expected_or_not(
    m: RegistersModel,
    path: Seq<char>,
    settings: Settings,
)
    ensures
        destroyed_answer(m, path, settings) is Teardown <==> m.user_disconnected.contains(path)
            || m.auth_retry.contains(path),
        destroyed_answer(m, path, settings) == (DropAnswer::<Seq<char>>::Teardown {
            auth_retry: true,
        }) <==> m.auth_retry.contains(path),
{
}

/// The marks of a session do not outlive the announcement that it is gone.
pub proof fn law_marks_are_used_up(m: RegistersModel, path: Seq<char>, settings: Settings)
    ensures
        !destroyed_state(m, path).user_disconnected.contains(path),
        !destroyed_state(m, path).auth_retry.contains(path),
        destroyed_answer(destroyed_state(m, path), path, settings) !is Teardown,
{
}

/// A session that left the tray after it was disconnected can still be
/// reconnected when the manager announces that it is gone.
pub proof fn law_early_removal_keeps_the_reconnect(
    m: RegistersModel,
    path: Seq<char>,
    settings: Settings,
)
    requires
        m.tray.sessions.contains_key(path),
        m.tray.sessions[path].config_path.len() > 0,
        !m.user_disconnected.contains(path),
        !m.auth_retry.contains(path),
    ensures
        ({
            let scheduled = crate::status::removal_scheduled(m, path);
            let removed = RegistersModel {
                tray: TrayModel {
                    sessions: scheduled.tray.sessions.remove(path),
                    ..scheduled.tray
                },
                ..scheduled
            };
            destroyed_answer(removed, path, settings) == destroyed_answer(m, path, settings)
                && destroyed_answer(m, path, settings) !is Nothing
        }),
{
}

pub open spec fn retryable_error_name(name: Seq<char>) -> bool {
    ||| name == "org.freedesktop.DBus.Error.UnknownObject"@
    ||| name == "org.freedesktop.DBus.Error.UnknownMethod"@
    ||| name == "org.freedesktop.DBus.Error.ServiceUnknown"@
    ||| name == "org.freedesktop.DBus.Error.NameHasNoOwner"@
}

/// Whether a bus error means only that the service is still starting.
pub fn is_retryable_activation_error_name(name: &str) -> (r: bool)
    ensures
        r == retryable_error_name(name@),
{
    same(name, "org.freedesktop.DBus.Error.UnknownObject") || same(
        name,
        "org.freedesktop.DBus.Error.UnknownMethod",
    ) || same(name, "org.freedesktop.DBus.Error.ServiceUnknown") || same(
        name,
        "org.freedesktop.DBus.Error.NameHasNoOwner",
    )
}

/// The pause before the next attempt to start a session after `failures`
/// failures, in milliseconds; there are four attempts in all.
pub open spec fn tunnel_backoff(failures: nat) -> Option<u64> {
    if failures == 1 {
        Some(500)
    } else if failures == 2 {
        Some(1000)
    } else if failures == 3 {
        Some(2000)
    } else {
        None
    }
}

/// The pause before the next attempt to start a session, after the attempt
/// with this number failed with a bus error of this name, if it had one.
pub open spec fn tunnel_retry(failures: nat, error_name: Option<Seq<char>>) -> Option<u64> {
    if error_name is Some && retryable_error_name(error_name->0) {
        tunnel_backoff(failures)
    } else {
        None
    }
}

/// Whether to try again to start a session after its `failures`-th attempt
/// failed, and after which pause in milliseconds. `error_name` is the name of
/// the bus error, if it was one.
pub fn new_tunnel_retry(failures: u32, error_name: &Option<String>) -> (r: Option<u64>)
    ensures
        r == tunnel_retry(failures as nat, opt_text(*error_name)),
{
    let retryable = match error_name {
        Some(n) => is_retryable_activation_error_name(n.as_str()),
        None => false,
    };
    if !retryable {
        return None;
    }
    match failures {
        1 => Some(500),
        2 => Some(1000),
        3 => Some(2000),
        _ => None,
    }
}

/// `zbus::Error`, what a call on the bus fails with.
#[verifier::external_type_specification]
#[verifier::external_body]
pub struct ExZbusError(zbus::Error);

/// The name of the error that a method on the bus answered with, if the error
/// is such an answer.
pub uninterp spec fn method_error_name(e: zbus::Error) -> Option<Seq<char>>;

/// `zbus::Error::MethodError`: the name that the variant holds; the other
/// variants hold none.
#[verifier::external_body]
fn error_name_of(e: &zbus::Error) -> (r: Option<String>)
    ensures
        opt_text(r) == method_error_name(*e),
{
    match e {
        zbus::Error::MethodError(name, _, _) => Some(name.as_str().to_string()),
        _ => None,
    }
}

/// Whether an error means only that the service is still starting.
pub fn is_retryable_activation_error(err: &zbus::Error) -> (r: bool)
    ensures
        r == (method_error_name(*err) is Some && retryable_error_name(method_error_name(*err)->0)),
{
    match error_name_of(err) {
        Some(name) => is_retryable_activation_error_name(name.as_str()),
        None => false,
    }
}

/// Whether to try again to start a session after its `failures`-th attempt
/// failed with this error, and after which pause in milliseconds.
pub fn after_tunnel_error(failures: u32, err: &zbus::Error) -> (r: Option<u64>)
    ensures
        r == tunnel_retry(failures as nat, method_error_name(*err)),
{
    let name = error_name_of(err);
    new_tunnel_retry(failures, &name)
}

pub open spec fn display_name(tray: TrayModel, config_path: Seq<char>) -> Seq<char> {
    match config_name_of(tray.configs, config_path) {
        Some(n) => n,
        None => UNKNOWN_CONFIG_NAME@,
    }
}

/// Begins to connect a configuration: it becomes the one used last, and what
/// is left of its earlier sessions is forgotten. Returns its name.
pub fn begin_connect(tray: &mut VpnTray, settings: &mut Settings, config_path: &str) -> (r: String)
    ensures
        r@ == display_name(old(tray)@, config_path@),
        final(tray)@ == (TrayModel {
            sessions: without_config(old(tray)@.sessions, config_path@),
            ..old(tray)@
        }),
        old(settings).store is None ==> final(settings).store is None,
        old(settings).store is Some ==> final(settings).store == Some(
            SettingsValues {
                most_recent_config_id: final(settings).store->0.most_recent_config_id,
                most_recent_config_name: final(settings).store->0.most_recent_config_name,
                ..old(settings).store->0
            },
        ),
        old(settings).store is Some ==> final(settings).most_recent_config_id_view()
            == config_path@,
        old(settings).store is Some ==> final(settings).most_recent_config_name_view() == r@,
{
    let name = resolve_config_name(tray, config_path);
    settings.set_most_recent_config(config_path, name.as_str());
    tray.remove_sessions_of(config_path);
    name
}

/// The sessions once one was started for a configuration.
pub open spec fn started(
    sessions: Map<Seq<char>, SessionInfo<Seq<char>>>,
    path: Seq<char>,
    config_path: Seq<char>,
    config_name: Seq<char>,
) -> Map<Seq<char>, SessionInfo<Seq<char>>> {
    sessions.insert(path, fresh_session(path, config_path, config_name, status_or_unset(None)))
}

/// Enters the session that was started for a configuration.
pub fn session_started(tray: &mut VpnTray, path: &str, config_path: &str, config_name: &str)
    ensures
        final(tray)@ == (TrayModel {
            sessions: old(tray)@.sessions.insert(
                path@,
                fresh_session(path@, config_path@, config_name@, status_or_unset(None)),
            ),
            ..old(tray)@
        }),
        final(tray)@.sessions == started(
            old(tray)@.sessions,
            path@,
            config_path@,
            config_name@,
        ),
{
    let s = new_session(path, config_path, config_name, decode_status(None));
    tray.put_session(path, s);
}

/// After a configuration was connected it has exactly one session.
pub proof fn law_connect_leaves_one_session(
    sessions: Map<Seq<char>, SessionInfo<Seq<char>>>,
    path: Seq<char>,
    config_path: Seq<char>,
    config_name: Seq<char>,
    p: Seq<char>,
)
    requires
        ({
            let after = without_config(sessions, config_path).insert(
                path,
                fresh_session(path, config_path, config_name, status_or_unset(None)),
            );
            after.contains_key(p) && after[p].config_path == config_path
        }),
    ensures
        p == path,
{
}

/// When the configuration was last reconnected after a stall.
pub fn last_auto_reconnect_attempt(reg: &Registers, config_path: &str) -> (r: Option<Moment>)
    ensures
        r == (if reg@.reconnects.contains_key(config_path@) {
            Some(reg@.reconnects[config_path@])
        } else {
            None
        }),
{
    match reg.reconnects.get(config_path) {
        Some(t) => Some(*t),
        None => None,
    }
}

/// Remembers that the configuration is reconnected after a stall.
pub fn record_auto_reconnect_attempt(reg: &mut Registers, config_path: &str, now: Moment)
    ensures
        final(reg)@ == (RegistersModel {
            reconnects: old(reg)@.reconnects.insert(config_path@, now),
            ..old(reg)@
        }),
{
    reg.reconnects.insert(config_path.to_owned(), now);
}

/// What a poll of the byte counters goes by.
#[derive(Clone, Copy, Debug)]
pub struct PollRules {
    pub stall_threshold: u32,
    pub auto_reconnect: bool,
    pub cooldown_secs: u64,
}

/// The seconds after a reconnect in which a configuration is not reconnected
/// again.
pub open spec fn cooldown_of(settings: Settings) -> int {
    2 * settings.auto_reconnect_delay_seconds_spec()
}

/// The rules that the settings give; the cooldown is twice the delay of a
/// reconnect.
pub fn poll_rules(settings: &Settings) -> (r: PollRules)
    ensures
        r.stall_threshold == settings.health_check_stall_seconds_spec(),
        r.auto_reconnect == settings.auto_reconnect_spec(),
        r.cooldown_secs == 2 * settings.auto_reconnect_delay_seconds_spec(),
        r.cooldown_secs == cooldown_of(*settings),
{
    PollRules {
        stall_threshold: settings.health_check_stall_seconds(),
        auto_reconnect: settings.auto_reconnect(),
        cooldown_secs: settings.auto_reconnect_delay_seconds() as u64 * 2,
    }
}

/// Whether a poll of the session leads to a reconnect.
pub open spec fn poll_reconnects(
    m: RegistersModel,
    path: Seq<char>,
    bytes_in: u64,
    bytes_out: u64,
    rules: PollRules,
    now: Moment,
) -> bool {
    let s = m.tray.sessions[path];
    &&& m.tray.sessions.contains_key(path)
    &&& s.config_path.len() > 0
    &&& reconnect_due(
        after_poll(s, bytes_in, bytes_out, rules.stall_threshold, now).idle_since,
        if m.reconnects.contains_key(s.config_path) {
            Some(m.reconnects[s.config_path])
        } else {
            None
        },
        rules.auto_reconnect,
        rules.stall_threshold,
        rules.cooldown_secs,
        now,
    )
}

/// The registers after a poll of the session.
pub open spec fn polled(
    m: RegistersModel,
    path: Seq<char>,
    bytes_in: u64,
    bytes_out: u64,
    rules: PollRules,
    now: Moment,
) -> RegistersModel {
    let s = m.tray.sessions[path];
    if !m.tray.sessions.contains_key(path) {
        m
    } else {
        RegistersModel {
            tray: TrayModel {
                sessions: m.tray.sessions.insert(
                    path,
                    after_poll(s, bytes_in, bytes_out, rules.stall_threshold, now),
                ),
                ..m.tray
            },
            reconnects: if poll_reconnects(m, path, bytes_in, bytes_out, rules, now) {
                m.reconnects.insert(s.config_path, now)
            } else {
                m.reconnects
            },
            ..m
        }
    }
}

/// Takes in the byte counters of a session. Says whether it has stalled and is
/// to be reconnected; the cooldown goes by the configuration, so that it
/// outlives the session.
pub fn poll_session(
    reg: &mut Registers,
    path: &str,
    bytes_in: u64,
    bytes_out: u64,
    rules: PollRules,
    now: Moment,
) -> (r: bool)
    ensures
        r == poll_reconnects(old(reg)@, path@, bytes_in, bytes_out, rules, now),
        final(reg)@ == polled(old(reg)@, path@, bytes_in, bytes_out, rules, now),
{
    let found = match reg.tray.session(path) {
        Some(s) => Some(s.clone()),
        None => None,
    };
    match found {
        Some(mut s) => {
            apply_stall_detection(&mut s, bytes_in, bytes_out, rules.stall_threshold, now);
            let idle_since = s.idle_since;
            let config_path = s.config_path.clone();
            assert(s@ == after_poll(
                old(reg)@.tray.sessions[path@],
                bytes_in,
                bytes_out,
                rules.stall_threshold,
                now,
            ));
            reg.tray.put_session(path, s);
            let due = !config_path.as_str().is_empty() && stall_reconnect_due(
                idle_since,
                last_auto_reconnect_attempt(reg, config_path.as_str()),
                rules.auto_reconnect,
                rules.stall_threshold,
                rules.cooldown_secs,
                now,
            );
            if due {
                record_auto_reconnect_attempt(reg, config_path.as_str(), now);
            }
            due
        },
        None => false,
    }
}

/// Sessions of one configuration are not reconnected again before the cooldown
/// is over, even if the session in question is a new one.
pub proof fn law_cooldown_outlives_the_session(
    m: RegistersModel,
    first: Seq<char>,
    second: Seq<char>,
    counters: (u64, u64, u64, u64),
    rules: PollRules,
    now: Moment,
    later: Moment,
)
    requires
        poll_reconnects(m, first, counters.0, counters.1, rules, now),
        later.secs_since(now) < rules.cooldown_secs,
    ensures
        ({
            let n = polled(m, first, counters.0, counters.1, rules, now);
            forall|successor: RegistersModel|
                successor.reconnects == n.reconnects && successor.tray.sessions.contains_key(
                    second,
                ) && successor.tray.sessions[second].config_path
                    == m.tray.sessions[first].config_path ==> !#[trigger] poll_reconnects(
                    successor,
                    second,
                    counters.2,
                    counters.3,
                    rules,
                    later,
                )
        }),
{
}

/// The registers once the user disconnects a session.
pub open spec fn dropped_by_user(m: RegistersModel, path: Seq<char>) -> RegistersModel {
    budget_cleared(given_up(m, path), path)
}

/// Marks that the user disconnects a session: it will not be offered for
/// reconnection, and its configuration's login budget starts over.
pub fn handle_disconnect(reg: &mut Registers, path: &str)
    ensures
        final(reg)@ == budget_cleared(
            (RegistersModel {
                user_disconnected: old(reg)@.user_disconnected.insert(path@),
                ..old(reg)@
            }),
            path@,
        ),
        final(reg)@ == dropped_by_user(old(reg)@, path@),
{
    reg.user_disconnected.insert(path);
    clear_credential_attempts(reg, path);
}

/// Marks that the user replaces a session by a new one.
pub fn handle_reconnect(reg: &mut Registers, path: &str)
    ensures
        final(reg)@ == (RegistersModel {
            user_disconnected: old(reg)@.user_disconnected.insert(path@),
            ..old(reg)@
        }),
        final(reg)@ == given_up(old(reg)@, path@),
{
    reg.user_disconnected.insert(path);
}

/// Marks that a session is given up because the user cancelled its login.
pub fn handle_cancelled_login(reg: &mut Registers, path: &str)
    ensures
        final(reg)@ == given_up(old(reg)@, path@),
{
    reg.user_disconnected.insert(path);
}

/// Drops the login budget of a configuration that the user removes.
pub fn handle_remove_config(reg: &mut Registers, config_path: &str)
    ensures
        final(reg)@ == (RegistersModel {
            attempts: old(reg)@.attempts.remove(config_path@),
            ..old(reg)@
        }),
{
    reg.attempts.remove(config_path);
}

/// Quitting would take down the protection of a connected session.
pub open spec fn quitting_unprotects(
    sessions: Map<Seq<char>, SessionInfo<Seq<char>>>,
    settings: Settings,
) -> bool {
    some_connected(sessions) && settings.enable_kill_switch_spec()
}

/// Whether quitting has to be confirmed: it would take down the protection of
/// a connected session.
pub fn quit_needs_confirmation(tray: &VpnTray, settings: &Settings) -> (r: bool)
    ensures
        r == (some_connected(tray@.sessions) && settings.enable_kill_switch_spec()),
        r == quitting_unprotects(tray@.sessions, *settings),
{
    tray.any_connected() && settings.enable_kill_switch()
}

/// What follows the question whether a session is ready.
#[derive(Clone, Copy, Debug, PartialEq, Eq, Structural)]
pub enum ReadyStep {
    /// Tell it to connect.
    Connect,
    /// Nothing: it goes on by itself.
    Wait,
    /// Ask the user for what it needs.
    AskUser,
}

/// What follows the question whether a session is ready.
pub open spec fn ready_step(ready: bool, resumed: bool) -> ReadyStep {
    if !ready {
        ReadyStep::AskUser
    } else if resumed {
        ReadyStep::Wait
    } else {
        ReadyStep::Connect
    }
}

/// What follows the question whether a session is ready: a new one is told to
/// connect, a resumed one goes on by itself, and one that is not ready needs
/// something from the user.
pub fn after_ready(ready: bool, resumed: bool) -> (r: ReadyStep)
    ensures
        r == (if !ready {
            ReadyStep::AskUser
        } else if resumed {
            ReadyStep::Wait
        } else {
            ReadyStep::Connect
        }),
        r == ready_step(ready, resumed),
{
    if !ready {
        ReadyStep::AskUser
    } else if resumed {
        ReadyStep::Wait
    } else {
        ReadyStep::Connect
    }
}

/// What the user can do with a session.
#[derive(Clone, Copy, Debug, PartialEq, Eq, Structural)]
pub enum SessionAction {
    Disconnect,
    Pause,
    Resume,
    Restart,
}

/// The action with this name.
pub open spec fn action_named(name: Seq<char>) -> Option<SessionAction> {
    if name == "disconnect"@ {
        Some(SessionAction::Disconnect)
    } else if name == "pause"@ {
        Some(SessionAction::Pause)
    } else if name == "resume"@ {
        Some(SessionAction::Resume)
    } else if name == "restart"@ {
        Some(SessionAction::Restart)
    } else {
        None
    }
}

/// The action with this name, if there is one.
pub fn session_action(name: &str) -> (r: Option<SessionAction>)
    ensures
        r == (if name@ == "disconnect"@ {
            Some(SessionAction::Disconnect)
        } else if name@ == "pause"@ {
            Some(SessionAction::Pause)
        } else if name@ == "resume"@ {
            Some(SessionAction::Resume)
        } else if name@ == "restart"@ {
            Some(SessionAction::Restart)
        } else {
            None
        }),
        r == action_named(name@),
{
    if same(name, "disconnect") {
        Some(SessionAction::Disconnect)
    } else if same(name, "pause") {
        Some(SessionAction::Pause)
    } else if same(name, "resume") {
        Some(SessionAction::Resume)
    } else if same(name, "restart") {
        Some(SessionAction::Restart)
    } else {
        None
    }
}

/// What the firewall and the routes need once a session is connected.
#[derive(Debug)]
pub struct ProtectPlan {
    /// The networks to route outside the tunnel; none if it is empty.
    pub bypass: Vec<String>,
    /// Whether to install the firewall.
    pub kill_switch: bool,
    pub allow_lan: bool,
}

/// What the settings ask for once a session is connected.
pub fn protect_plan(settings: &Settings) -> (r: ProtectPlan)
    ensures
        texts(r.bypass@) == enabled(
            settings.bypass_cidrs_view(),
            settings.bypass_cidrs_disabled_view(),
        ),
        r.kill_switch == settings.enable_kill_switch_spec(),
        r.allow_lan == settings.kill_switch_allow_lan_spec(),
{
    let all = settings.bypass_cidrs();
    let off = settings.bypass_cidrs_disabled();
    ProtectPlan {
        bypass: enabled_cidrs(all.as_slice(), off.as_slice()),
        kill_switch: settings.enable_kill_switch(),
        allow_lan: settings.kill_switch_allow_lan(),
    }
}

/// Protection has to be installed again at start.
pub open spec fn reapplies(connected: nat, kill_switch: bool, networks: nat) -> bool {
    connected > 0 && (kill_switch || networks > 0)
}

/// Whether protection has to be installed again for sessions that were
/// connected before the program started.
pub fn reapply_due(connected: usize, plan: &ProtectPlan) -> (r: bool)
    ensures
        r == (connected > 0 && (plan.kill_switch || plan.bypass@.len() > 0)),
        r == reapplies(connected as nat, plan.kill_switch, plan.bypass@.len()),
{
    connected > 0 && (plan.kill_switch || plan.bypass.len() > 0)
}

/// An announced session has an entry afterwards. One that was there keeps all
/// of it but a configuration that was not known; one that was not is new, with
/// what was announced.
pub proof fn law_announcement_adds_what_is_missing(
    sessions: Map<Seq<char>, SessionInfo<Seq<char>>>,
    path: Seq<char>,
    config_path: Seq<char>,
    config_name: Seq<char>,
    status: SessionStatus,
    p: Seq<char>,
)
    ensures
        ({
            let after = announced(sessions, path, config_path, config_name, status);
            let was = sessions[path];
            let s = after[path];
            &&& after.contains_key(p) <==> p == path || sessions.contains_key(p)
            &&& p != path && sessions.contains_key(p) ==> after[p] == sessions[p]
            &&& sessions.contains_key(path) && was.config_path.len() > 0 ==> s == was
            &&& sessions.contains_key(path) && was.config_path.len() == 0 ==> s.config_path
                == config_path && s.config_name == config_name && s == SessionInfo {
                config_path,
                config_name,
                ..was
            }
            &&& !sessions.contains_key(path) ==> {
                &&& s.session_path == path
                &&& s.config_path == config_path
                &&& s.config_name == config_name
                &&& s.status == status
                &&& s.connected_at is None
                &&& s.bytes_in == 0 && s.bytes_out == 0
                &&& s.last_bytes_in == 0 && s.last_bytes_out == 0
                &&& s.idle_started_at is None && s.idle_since is None
                &&& s.auto_reconnect_attempted_at is None
                &&& !s.kill_switch_active
            }
        }),
{
}

/// A status that could not be read counts as none.
pub proof fn law_unread_status_is_unset(status: Option<(u32, u32)>)
    ensures
        status is None ==> status_or_unset(status).major == StatusMajor::Unset && status_or_unset(
            status,
        ).minor == StatusMinor::Unset,
        status matches Some((major, minor)) ==> status_or_unset(status).major == major_of(major)
            && status_or_unset(status).minor == minor_of(minor),
{
}

/// An unexpected drop of a session with a known configuration is always
/// answered: by a reconnect after the delay of the settings, where they say
/// so, and else by an offer. The configuration is the one in the tray, or the
/// one that was remembered when the session left the tray.
pub proof fn law_unexpected_drop_is_answered(
    m: RegistersModel,
    path: Seq<char>,
    settings: Settings,
)
    requires
        !m.user_disconnected.contains(path),
        !m.auth_retry.contains(path),
    ensures
        ({
            let answer = destroyed_answer(m, path, settings);
            let s = m.tray.sessions[path];
            let kept = m.recent_destroyed[path];
            let known = m.tray.sessions.contains_key(path);
            let remembered = !known && m.recent_destroyed.contains_key(path);
            let config_path = if known {
                s.config_path
            } else {
                kept.0
            };
            let config_name = if known {
                s.config_name
            } else {
                kept.1
            };
            let able = (known || remembered) && config_path.len() > 0;
            &&& able && settings.auto_reconnect_spec() ==> {
                &&& answer is AutoReconnect
                &&& answer->AutoReconnect_config_path == config_path
                &&& answer->AutoReconnect_config_name == config_name
                &&& answer->delay == settings.auto_reconnect_delay_seconds_spec()
            }
            &&& able && !settings.auto_reconnect_spec() ==> answer == (DropAnswer::OfferReconnect {
                config_path,
                config_name,
            })
            &&& !able ==> answer is Nothing
        }),
{
}

/// A session that the user disconnects, or whose login is tried again, is
/// never offered for reconnection when it is gone, whatever happens to other
/// sessions in between.
pub proof fn law_deliberate_drop_is_final(
    m: RegistersModel,
    path: Seq<char>,
    other: Seq<char>,
    settings: Settings,
)
    requires
        other != path,
        m.user_disconnected.contains(path) || m.auth_retry.contains(path),
    ensures
        destroyed_answer(destroyed_state(m, other), path, settings) == (DropAnswer::<
            Seq<char>,
        >::Teardown { auth_retry: m.auth_retry.contains(path) }),
{
}

/// That a session is gone concerns nothing but its own marks and what was
/// remembered of it.
pub proof fn law_drop_concerns_its_session(m: RegistersModel, path: Seq<char>, other: Seq<char>)
    requires
        other != path,
    ensures
        ({
            let n = destroyed_state(m, path);
            &&& n.user_disconnected.contains(other) == m.user_disconnected.contains(other)
            &&& n.auth_retry.contains(other) == m.auth_retry.contains(other)
            &&& n.recent_destroyed.contains_key(other) == m.recent_destroyed.contains_key(other)
            &&& n.recent_destroyed[other] == m.recent_destroyed[other]
            &&& !m.tray.sessions.contains_key(path) ==> !n.recent_destroyed.contains_key(path)
            &&& n.tray == m.tray
            &&& n.attempts == m.attempts
            &&& n.last_signal == m.last_signal
            &&& n.timeouts == m.timeouts
            &&& n.reconnects == m.reconnects
        }),
{
}

/// A session is started at most four times: after the first three failures,
/// and only if the service may still be starting, it is tried again, each time
/// after twice the pause.
pub proof fn law_tunnel_retries_double(failures: nat, error_name: Option<Seq<char>>)
    ensures
        ({
            let again = tunnel_retry(failures, error_name);
            let starting = error_name is Some && (error_name->0
                == "org.freedesktop.DBus.Error.UnknownObject"@ || error_name->0
                == "org.freedesktop.DBus.Error.UnknownMethod"@ || error_name->0
                == "org.freedesktop.DBus.Error.ServiceUnknown"@ || error_name->0
                == "org.freedesktop.DBus.Error.NameHasNoOwner"@);
            &&& again is Some <==> starting && 1 <= failures <= 3
            &&& again is Some && failures == 1 ==> again->0 == 500
            &&& again is Some && failures < 3 ==> tunnel_retry(failures + 1, error_name) is Some
                && tunnel_retry(failures + 1, error_name)->0 == 2 * again->0
        }),
{
}

/// A configuration is shown with its name, and as unknown just when it is not
/// in the list.
pub proof fn law_listed_config_has_its_name(tray: TrayModel, config_path: Seq<char>)
    ensures
        (exists|i: int|
            0 <= i < tray.configs.len() && (#[trigger] tray.configs[i]).path == config_path
                && tray.configs[i].name == display_name(tray, config_path)) || (display_name(
            tray,
            config_path,
        ) == "Unknown"@ && forall|i: int|
            0 <= i < tray.configs.len() ==> (#[trigger] tray.configs[i]).path != config_path),
{
    lemma_first_index_fits(tray.configs, lies_at(config_path));
    let i = first_index(tray.configs, lies_at(config_path));
    if i < tray.configs.len() {
        assert(lies_at(config_path)(tray.configs[i]));
    } else {
        assert forall|j: int| 0 <= j < tray.configs.len() implies (#[trigger] tray.configs[j]).path
            != config_path by {
            assert(!lies_at(config_path)(tray.configs[j]));
        }
    }
}

/// A poll reconnects a session just when reconnecting and detection are on,
/// the session has a configuration and is connected, its counters have not
/// grown, it has been idle for the threshold, and its configuration was not
/// reconnected within the cooldown.
pub proof fn law_poll_reconnects_a_stalled_session(
    m: RegistersModel,
    path: Seq<char>,
    bytes_in: u64,
    bytes_out: u64,
    rules: PollRules,
    now: Moment,
)
    ensures
        ({
            let s = m.tray.sessions[path];
            poll_reconnects(m, path, bytes_in, bytes_out, rules, now) <==> {
                &&& m.tray.sessions.contains_key(path)
                &&& s.config_path.len() > 0
                &&& rules.auto_reconnect
                &&& rules.stall_threshold > 0
                &&& s.status.major == StatusMajor::Connection
                &&& s.status.minor == StatusMinor::ConnConnected
                &&& bytes_in <= s.last_bytes_in
                &&& bytes_out <= s.last_bytes_out
                &&& s.idle_started_at is Some
                &&& now.nanos >= (s.idle_started_at->0).nanos + rules.stall_threshold
                    * 1_000_000_000
                &&& m.reconnects.contains_key(s.config_path) && rules.cooldown_secs > 0
                    ==> now.nanos >= m.reconnects[s.config_path].nanos + rules.cooldown_secs
                    * 1_000_000_000
            }
        }),
{
    let s = m.tray.sessions[path];
    if rules.stall_threshold > 0 {
        law_seconds_are_whole(now, idle_start(s, now), rules.stall_threshold as nat);
    }
    if rules.cooldown_secs > 0 && m.reconnects.contains_key(s.config_path) {
        law_seconds_are_whole(now, m.reconnects[s.config_path], rules.cooldown_secs as nat);
    }
}

/// A poll changes the polled session's counters and idle clock, stamps its
/// configuration just when it is reconnected, and changes nothing else.
pub proof fn law_poll_concerns_its_session(
    m: RegistersModel,
    path: Seq<char>,
    bytes_in: u64,
    bytes_out: u64,
    rules: PollRules,
    now: Moment,
    other: Seq<char>,
)
    ensures
        ({
            let n = polled(m, path, bytes_in, bytes_out, rules, now);
            let due = poll_reconnects(m, path, bytes_in, bytes_out, rules, now);
            let config_path = m.tray.sessions[path].config_path;
            &&& n.tray.sessions.contains_key(other) == m.tray.sessions.contains_key(other)
            &&& other != path ==> n.tray.sessions[other] == m.tray.sessions[other]
            &&& m.tray.sessions.contains_key(path) ==> {
                &&& n.tray.sessions[path].bytes_in == bytes_in
                &&& n.tray.sessions[path].bytes_out == bytes_out
                &&& n.tray.sessions[path].last_bytes_in == bytes_in
                &&& n.tray.sessions[path].last_bytes_out == bytes_out
                &&& n.tray.sessions[path].status == m.tray.sessions[path].status
                &&& n.tray.sessions[path].config_path == config_path
            }
            &&& due ==> n.reconnects == m.reconnects.insert(config_path, now)
            &&& !due ==> n.reconnects == m.reconnects
            &&& n.tray.configs == m.tray.configs
            &&& n.tray.bypass_state == m.tray.bypass_state
            &&& n.user_disconnected == m.user_disconnected
            &&& n.auth_retry == m.auth_retry
            &&& n.attempts == m.attempts
            &&& n.recent_destroyed == m.recent_destroyed
            &&& n.last_signal == m.last_signal
            &&& n.timeouts == m.timeouts
        }),
{
}

/// A started session is entered as a new one of its configuration, and no
/// other session changes.
pub proof fn law_started_session_is_entered(
    sessions: Map<Seq<char>, SessionInfo<Seq<char>>>,
    path: Seq<char>,
    config_path: Seq<char>,
    config_name: Seq<char>,
    p: Seq<char>,
)
    ensures
        ({
            let after = started(sessions, path, config_path, config_name);
            let s = after[path];
            &&& after.contains_key(p) <==> p == path || sessions.contains_key(p)
            &&& p != path ==> after[p] == sessions[p]
            &&& s.session_path == path
            &&& s.config_path == config_path
            &&& s.config_name == config_name
            &&& s.status.major == StatusMajor::Unset && s.status.minor == StatusMinor::Unset
            &&& s.connected_at is None
            &&& s.bytes_in == 0 && s.bytes_out == 0
            &&& s.last_bytes_in == 0 && s.last_bytes_out == 0
            &&& s.idle_started_at is None && s.idle_since is None
            &&& s.auto_reconnect_attempted_at is None
            &&& !s.kill_switch_active
        }),
{
}

/// The cooldown is twice the delay of a reconnect, so it is never shorter than
/// ten seconds nor longer than ten minutes.
pub proof fn law_cooldown_is_twice_the_delay(settings: Settings)
    ensures
        cooldown_of(settings) == settings.auto_reconnect_delay_seconds_spec()
            + settings.auto_reconnect_delay_seconds_spec(),
        10 <= cooldown_of(settings) <= 600,
{
}

/// A session that the user disconnects is not offered for reconnection when it
/// is gone, and its configuration's logins count from one again; nothing else
/// changes.
pub proof fn law_user_has_the_last_word(
    m: RegistersModel,
    path: Seq<char>,
    settings: Settings,
    p: Seq<char>,
)
    ensures
        ({
            let n = dropped_by_user(m, path);
            let known = m.tray.sessions.contains_key(path);
            let config_path = m.tray.sessions[path].config_path;
            &&& destroyed_answer(n, path, settings) is Teardown
            &&& destroyed_answer(given_up(m, path), path, settings) is Teardown
            &&& n.user_disconnected.contains(p) <==> p == path || m.user_disconnected.contains(p)
            &&& n.attempts.contains_key(p) <==> m.attempts.contains_key(p) && !(known
                && config_path == p && p.len() > 0)
            &&& n.attempts.contains_key(p) ==> n.attempts[p] == m.attempts[p]
            &&& n.tray == m.tray
            &&& n.auth_retry == m.auth_retry
            &&& n.recent_destroyed == m.recent_destroyed
            &&& n.last_signal == m.last_signal
            &&& n.timeouts == m.timeouts
            &&& n.reconnects == m.reconnects
            &&& given_up(m, path) == RegistersModel {
                user_disconnected: m.user_disconnected.insert(path),
                ..m
            }
        }),
{
}

/// Quitting is confirmed just when the kill switch is on and some session is
/// connected.
pub proof fn law_quitting_is_confirmed(
    sessions: Map<Seq<char>, SessionInfo<Seq<char>>>,
    settings: Settings,
)
    ensures
        quitting_unprotects(sessions, settings) <==> settings.enable_kill_switch_spec() && exists|
            p: Seq<char>,
        | #[trigger]
            sessions.contains_key(p) && sessions[p].status.major == StatusMajor::Connection
                && sessions[p].status.minor == StatusMinor::ConnConnected,
{
    law_any_connected_session_counts(sessions);
}

/// A session that is not ready needs the user; of those that are, a new one is
/// told to connect and a resumed one is not.
pub proof fn law_ready_sessions(ready: bool, resumed: bool)
    ensures
        ready_step(ready, resumed) == ReadyStep::AskUser <==> !ready,
        ready_step(ready, resumed) == ReadyStep::Connect <==> ready && !resumed,
        ready_step(ready, resumed) == ReadyStep::Wait <==> ready && resumed,
{
}

/// Each action has one name, and no other name stands for one.
pub proof fn law_actions_by_name(name: Seq<char>)
    ensures
        action_named(name) == Some(SessionAction::Disconnect) <==> name == "disconnect"@,
        action_named(name) == Some(SessionAction::Pause) <==> name == "pause"@,
        action_named(name) == Some(SessionAction::Resume) <==> name == "resume"@,
        action_named(name) == Some(SessionAction::Restart) <==> name == "restart"@,
{
    reveal_strlit("disconnect");
    reveal_strlit("pause");
    reveal_strlit("resume");
    reveal_strlit("restart");
    assert("disconnect"@.len() == 10 && "pause"@.len() == 5 && "resume"@.len() == 6
        && "restart"@.len() == 7);
}

/// At start there is something to install again just when some session was
/// connected and the kill switch is on or some network is to be bypassed.
pub proof fn law_protection_is_reapplied(connected: nat, kill_switch: bool, networks: nat)
    ensures
        !reapplies(connected, kill_switch, networks) <==> connected == 0 || !kill_switch && networks
            == 0,
{
}

/// A text that could be read is taken, and only without one the other.
pub proof fn law_text_or_other(s: Option<String>, other: Seq<char>)
    ensures
        s matches Some(t) ==> text_or(s, other) == t@,
        s is None ==> text_or(s, other) == other,
{
}

} // verus!
