//! Status reports of sessions: which are taken in, what each changes, and what
//! is to be done about it.
use vstd::prelude::*;
use vstd::string::*;

use crate::auth::{
    auth_request, browser_auth, law_what_is_opened_and_shown, request_of, uri_verdict, url_body,
    url_title, AuthRequest, AuthUriVerdict,
};
use crate::clock::Moment;
use crate::kill_switch::should_teardown_on_pause;
use crate::notify::{
    is_text, plain_toast, show_connection_notification, show_error_notification, shown,
    state_toast, text_is, Toast, EXPIRE_DEFAULT,
};
use crate::protocol::{
    law_status_numbers, major_of, minor_of, MessageType, SessionStatus, StatusMajor, StatusMinor,
};
use crate::registers::{Registers, RegistersModel};
use crate::retry::{
    judged_attempt, law_failures_are_numbered, law_failures_are_remembered, retry_granted, settled,
};
use crate::settings::Settings;
use crate::text::{
    ascii_lowered, has_substring, law_part_occurs_in_the_whole, law_text_starts_with_its_front,
    occurs_at, opt_text, same, starts_with_spec, trimmed,
};
use crate::tray::{
    fresh_session, identity_of, new_session, session_config_identity, session_config_name,
    SessionInfo, TrayModel, FALLBACK_NAME,
};

verus! {

pub open spec fn from_backend(
    msg_type: MessageType,
    interface: Option<String>,
    member: Option<String>,
) -> bool {
    msg_type == MessageType::Signal && text_is(interface, "net.openvpn.v3.backends"@) && text_is(
        member,
        "StatusChange"@,
    )
}

/// Whether a bus message is a status report: a signal of that name from the
/// backend's interface.
pub fn is_status_change(
    msg_type: MessageType,
    interface: &Option<String>,
    member: &Option<String>,
) -> (r: bool)
    ensures
        r == from_backend(msg_type, *interface, *member),
{
    msg_type == MessageType::Signal && is_text(interface, "net.openvpn.v3.backends") && is_text(
        member,
        "StatusChange",
    )
}

/// Why a status report is taken in.
#[derive(Clone, Copy, Debug, PartialEq, Eq, Structural)]
pub enum DispatchReason {
    /// The first one of this session.
    FirstSeen,
    /// Its numbers differ from the last one's.
    Changed,
    /// A repetition, but one that asks the user for something.
    AuthExempt,
}

pub open spec fn dispatch_reason(
    prev: Option<(u32, u32)>,
    major: u32,
    minor: u32,
    is_auth: bool,
) -> Option<DispatchReason> {
    match prev {
        None => Some(DispatchReason::FirstSeen),
        Some(p) => if p != (major, minor) {
            Some(DispatchReason::Changed)
        } else if is_auth {
            Some(DispatchReason::AuthExempt)
        } else {
            None
        },
    }
}

/// Whether a status report is taken in, and why. Every report arrives twice,
/// so a repetition is dropped, unless it asks the user for something.
pub fn should_dispatch(
    prev: Option<(u32, u32)>,
    major: u32,
    minor: u32,
    is_auth: bool,
) -> (r: Option<DispatchReason>)
    ensures
        r == dispatch_reason(prev, major, minor, is_auth),
{
    match prev {
        None => Some(DispatchReason::FirstSeen),
        Some((a, b)) => if a != major || b != minor {
            Some(DispatchReason::Changed)
        } else if is_auth {
            Some(DispatchReason::AuthExempt)
        } else {
            None
        },
    }
}

/// A session after a change of its status. Becoming connected resets the
/// baseline of the byte counters, and both becoming connected and ceasing to
/// be resets the idle clock.
pub open spec fn transitioned<T>(s: SessionInfo<T>, status: SessionStatus) -> SessionInfo<T> {
    let was = s.status.connected();
    let is = status.connected();
    SessionInfo {
        status,
        last_bytes_in: if !was && is {
            0
        } else {
            s.last_bytes_in
        },
        last_bytes_out: if !was && is {
            0
        } else {
            s.last_bytes_out
        },
        idle_started_at: if was != is {
            None
        } else {
            s.idle_started_at
        },
        idle_since: if was != is {
            None
        } else {
            s.idle_since
        },
        ..s
    }
}

/// Takes in a new status of a session.
pub fn apply_status_transition(session: &mut SessionInfo, status: SessionStatus)
    ensures
        *final(session) == transitioned(*old(session), status),
{
    let was_connected = session.status.is_connected();
    let now_connected = status.is_connected();
    session.status = status;
    if !was_connected && now_connected {
        session.last_bytes_in = 0;
        session.last_bytes_out = 0;
        session.idle_started_at = None;
        session.idle_since = None;
    }
    if was_connected && !now_connected {
        session.idle_started_at = None;
        session.idle_since = None;
    }
}

/// The kinds of errors a status can be.
#[derive(Clone, Copy, Debug, PartialEq, Eq, Structural)]
pub enum ErrorAction {
    AuthFailed,
    ConnFailed,
    SessionError,
    NoError,
}

pub open spec fn error_action(status: SessionStatus) -> ErrorAction {
    if status.auth_failed() {
        ErrorAction::AuthFailed
    } else if status.conn_failed() {
        ErrorAction::ConnFailed
    } else if status.error() {
        ErrorAction::SessionError
    } else {
        ErrorAction::NoError
    }
}

/// The kind of error that a status is; a failed login and a failed connection
/// go before the general case.
pub fn classify_error(status: &SessionStatus) -> (r: ErrorAction)
    ensures
        r == error_action(*status),
{
    if status.major == StatusMajor::Connection && status.minor == StatusMinor::ConnAuthFailed {
        ErrorAction::AuthFailed
    } else if status.major == StatusMajor::Connection && status.minor == StatusMinor::ConnFailed {
        ErrorAction::ConnFailed
    } else if status.is_error() {
        ErrorAction::SessionError
    } else {
        ErrorAction::NoError
    }
}

pub open spec fn unseen_session(path: Seq<char>, status: SessionStatus) -> SessionInfo<Seq<char>> {
    fresh_session(path, Seq::empty(), FALLBACK_NAME@, status)
}

/// The entry of a session that reports its status before it was announced.
pub fn build_unseen_session(path: &str, status: SessionStatus) -> (r: SessionInfo)
    ensures
        r@ == unseen_session(path@, status),
{
    let none = String::new();
    new_session(path, none.as_str(), FALLBACK_NAME, status)
}

/// A status report. `uri_scheme` is the URI scheme that the trimmed message
/// starts with, if any. `T` is the type of its texts.
#[derive(Debug)]
pub struct StatusEvent<T = String> {
    pub path: T,
    pub major: u32,
    pub minor: u32,
    pub message: T,
    pub uri_scheme: Option<T>,
    pub now: Moment,
}

impl View for StatusEvent<String> {
    type V = StatusEvent<Seq<char>>;

    open spec fn view(&self) -> StatusEvent<Seq<char>> {
        StatusEvent {
            path: self.path@,
            major: self.major,
            minor: self.minor,
            message: self.message@,
            uri_scheme: opt_text(self.uri_scheme),
            now: self.now,
        }
    }
}

impl<T> StatusEvent<T> {
    pub open spec fn status(self) -> SessionStatus {
        SessionStatus { major: major_of(self.major), minor: minor_of(self.minor) }
    }
}

/// What is to be done about a status report.
#[derive(Debug)]
pub enum StatusAction<T = String> {
    /// Ask the session which input it needs, then open the dialog for it.
    QueryInput { session_path: T, config_path: T, config_name: T },
    /// Open the credentials dialog.
    RequestCredentials { session_path: T, config_path: T, config_name: T },
    /// Show a notification and open an address in the browser, as far as they
    /// are given.
    BrowserAuth { notice: Option<Toast<T>>, launch: Option<T> },
    /// Show a notification.
    Notify { toast: Toast<T> },
    /// Disconnect the session and start a new one with the configuration.
    RetryTunnel { session_path: T, config_path: T },
    /// Disconnect the session and show an error.
    DisconnectWithMessage { session_path: T, title: T, body: T },
    /// Install the bypass routes and the firewall for the session.
    Protect { session_path: T },
    /// Release the firewall as far as other sessions allow.
    ReleaseForPause { session_path: T },
    /// Ask the session for its configuration.
    BackfillIdentity { session_path: T },
    /// Remove the session from the tray a little later.
    RemoveLater { session_path: T },
    /// Warn if the session still connects after so many seconds, unless a
    /// later watch of it has begun.
    WatchTimeout { session_path: T, generation: u64, seconds: u32 },
    /// Tell of the change of status; `previous` is the session's name and
    /// status before, if it was known.
    Announce { previous: Option<(T, SessionStatus)>, status: SessionStatus },
}

pub open spec fn opt_toast(t: Option<Toast>) -> Option<Toast<Seq<char>>> {
    match t {
        Some(x) => Some(x@),
        None => None,
    }
}

pub open spec fn previous_model(p: Option<(String, SessionStatus)>) -> Option<
    (Seq<char>, SessionStatus),
> {
    match p {
        Some(x) => Some((x.0@, x.1)),
        None => None,
    }
}

impl View for StatusAction<String> {
    type V = StatusAction<Seq<char>>;

    open spec fn view(&self) -> StatusAction<Seq<char>> {
        match *self {
            StatusAction::QueryInput { session_path, config_path, config_name } =>
                StatusAction::QueryInput {
                session_path: session_path@,
                config_path: config_path@,
                config_name: config_name@,
            },
            StatusAction::RequestCredentials { session_path, config_path, config_name } =>
                StatusAction::RequestCredentials {
                session_path: session_path@,
                config_path: config_path@,
                config_name: config_name@,
            },
            StatusAction::BrowserAuth { notice, launch } => StatusAction::BrowserAuth {
                notice: opt_toast(notice),
                launch: opt_text(launch),
            },
            StatusAction::Notify { toast } => StatusAction::Notify { toast: toast@ },
            StatusAction::RetryTunnel { session_path, config_path } => StatusAction::RetryTunnel {
                session_path: session_path@,
                config_path: config_path@,
            },
            StatusAction::DisconnectWithMessage { session_path, title, body } =>
                StatusAction::DisconnectWithMessage {
                session_path: session_path@,
                title: title@,
                body: body@,
            },
            StatusAction::Protect { session_path } => StatusAction::Protect {
                session_path: session_path@,
            },
            StatusAction::ReleaseForPause { session_path } => StatusAction::ReleaseForPause {
                session_path: session_path@,
            },
            StatusAction::BackfillIdentity { session_path } => StatusAction::BackfillIdentity {
                session_path: session_path@,
            },
            StatusAction::RemoveLater { session_path } => StatusAction::RemoveLater {
                session_path: session_path@,
            },
            StatusAction::WatchTimeout { session_path, generation, seconds } =>
                StatusAction::WatchTimeout { session_path: session_path@, generation, seconds },
            StatusAction::Announce { previous, status } => StatusAction::Announce {
                previous: previous_model(previous),
                status,
            },
        }
    }
}

pub open spec fn actions_model(s: Seq<StatusAction>) -> Seq<StatusAction<Seq<char>>> {
    Seq::new(s.len(), |i: int| s[i]@)
}

/// The item, if the condition holds.
pub open spec fn when<A>(condition: bool, item: A) -> Seq<A> {
    if condition {
        seq![item]
    } else {
        Seq::empty()
    }
}

/// The name and status that the tray has for the reporting session.
pub open spec fn previous_of(m: RegistersModel, path: Seq<char>) -> Option<
    (Seq<char>, SessionStatus),
> {
    if m.tray.sessions.contains_key(path) {
        Some((m.tray.sessions[path].config_name, m.tray.sessions[path].status))
    } else {
        None
    }
}

/// The registers once the report is taken in: its numbers are remembered, and
/// the session, if it is known, has its new status.
pub open spec fn noted(m: RegistersModel, ev: StatusEvent<Seq<char>>) -> RegistersModel {
    RegistersModel {
        last_signal: m.last_signal.insert(ev.path, (ev.major, ev.minor)),
        tray: TrayModel {
            sessions: if m.tray.sessions.contains_key(ev.path) {
                m.tray.sessions.insert(
                    ev.path,
                    transitioned(m.tray.sessions[ev.path], ev.status()),
                )
            } else {
                m.tray.sessions
            },
            ..m.tray
        },
        ..m
    }
}

fn note(reg: &mut Registers, ev: &StatusEvent, status: SessionStatus)
    requires
        status == ev.status(),
    ensures
        final(reg)@ == noted(old(reg)@, ev@),
{
    reg.last_signal.insert(ev.path.clone(), (ev.major, ev.minor));
    let found = match reg.tray.session(ev.path.as_str()) {
        Some(s) => Some(s.clone()),
        None => None,
    };
    match found {
        Some(mut s) => {
            apply_status_transition(&mut s, status);
            reg.tray.put_session(ev.path.as_str(), s);
        },
        None => {},
    }
}

/// What a waiting session is answered.
pub open spec fn auth_step(
    m: RegistersModel,
    request: AuthRequest,
    ev: StatusEvent<Seq<char>>,
    notifications: bool,
) -> StatusAction<Seq<char>> {
    let (config_name, config_path) = identity_of(m.tray.sessions, ev.path);
    match request {
        AuthRequest::UserInput => StatusAction::QueryInput {
            session_path: ev.path,
            config_path,
            config_name,
        },
        AuthRequest::Credentials => StatusAction::RequestCredentials {
            session_path: ev.path,
            config_path,
            config_name,
        },
        AuthRequest::Url => StatusAction::BrowserAuth {
            notice: if notifications {
                Some(
                    plain_toast(url_title(config_name), url_body(ev.message, ev.uri_scheme), 1),
                )
            } else {
                None
            },
            launch: if uri_verdict(ev.message, ev.uri_scheme) == AuthUriVerdict::Launchable {
                Some(trimmed(ev.message))
            } else {
                None
            },
        },
    }
}

fn answer_request(
    reg: &Registers,
    settings: &Settings,
    request: AuthRequest,
    ev: &StatusEvent,
) -> (r: StatusAction)
    ensures
        r@ == auth_step(reg@, request, ev@, settings.show_notifications_spec()),
{
    let (config_name, config_path) = session_config_identity(&reg.tray, ev.path.as_str());
    match request {
        AuthRequest::UserInput => StatusAction::QueryInput {
            session_path: ev.path.clone(),
            config_path,
            config_name,
        },
        AuthRequest::Credentials => StatusAction::RequestCredentials {
            session_path: ev.path.clone(),
            config_path,
            config_name,
        },
        AuthRequest::Url => {
            let (notice, launch) = browser_auth(
                settings,
                config_name.as_str(),
                ev.message.as_str(),
                &ev.uri_scheme,
            );
            StatusAction::BrowserAuth { notice, launch }
        },
    }
}

/// Answers a report of a waiting session, without noting the report; nothing
/// if the session does not wait.
pub fn try_handle_auth(reg: &Registers, settings: &Settings, ev: &StatusEvent) -> (r: Option<
    StatusAction,
>)
    ensures
        match request_of(ev.status()) {
            Some(request) => r is Some && r->0@ == auth_step(
                reg@,
                request,
                ev@,
                settings.show_notifications_spec(),
            ),
            None => r is None,
        },
        r is Some == ev.status().auth_request(),
{
    let status = SessionStatus::new(ev.major, ev.minor, ev.message.clone());
    match auth_request(&status) {
        Some(request) => Some(answer_request(reg, settings, request, ev)),
        None => None,
    }
}

/// The registers after a failed login: the failure is counted; a session that
/// is tried again is marked as being replaced, one that is given up as
/// disconnected, and its budget is dropped.
pub open spec fn auth_failed_state(
    m: RegistersModel,
    path: Seq<char>,
    now: Moment,
) -> RegistersModel {
    let config_path = identity_of(m.tray.sessions, path).1;
    let retry = retry_granted(judged_attempt(m.attempts, now, config_path), config_path);
    RegistersModel {
        attempts: settled(m.attempts, now, config_path),
        auth_retry: if retry {
            m.auth_retry.insert(path)
        } else {
            m.auth_retry
        },
        user_disconnected: if retry {
            m.user_disconnected
        } else {
            m.user_disconnected.insert(path)
        },
        ..m
    }
}

/// What is done about a failed login.
pub open spec fn auth_failed_actions(m: RegistersModel, path: Seq<char>, now: Moment) -> Seq<
    StatusAction<Seq<char>>,
> {
    let (config_name, config_path) = identity_of(m.tray.sessions, path);
    if retry_granted(judged_attempt(m.attempts, now, config_path), config_path) {
        seq![
            StatusAction::Notify {
                toast: plain_toast(
                    config_name + ": Authentication Failed"@,
                    "Wrong credentials for '"@ + config_name + "'. Retrying..."@,
                    2,
                ),
            },
            StatusAction::RetryTunnel { session_path: path, config_path },
        ]
    } else {
        seq![
            StatusAction::DisconnectWithMessage {
                session_path: path,
                title: "Authentication Failed"@,
                body: "Too many failed attempts for '"@ + config_name
                    + "'. Session disconnected."@,
            },
        ]
    }
}

/// Takes in a failed login of the session at `path`.
pub fn handle_auth_failed(reg: &mut Registers, path: &str, now: Moment) -> (r: Vec<StatusAction>)
    ensures
        final(reg)@ == auth_failed_state(old(reg)@, path@, now),
        actions_model(r@) == auth_failed_actions(old(reg)@, path@, now),
{
    let (config_name, config_path) = session_config_identity(&reg.tray, path);
    let (retry, _attempt) = reg.attempts.judge_auth_failure(now, config_path.as_str());
    let mut out: Vec<StatusAction> = Vec::new();
    if retry {
        let mut title = config_name.clone();
        title.append(": Authentication Failed");
        let mut body = "Wrong credentials for '".to_owned();
        body.append(config_name.as_str());
        body.append("'. Retrying...");
        reg.auth_retry.insert(path);
        out.push(
            StatusAction::Notify {
                toast: show_error_notification(title.as_str(), body.as_str()),
            },
        );
        out.push(StatusAction::RetryTunnel { session_path: path.to_owned(), config_path });
    } else {
        let mut body = "Too many failed attempts for '".to_owned();
        body.append(config_name.as_str());
        body.append("'. Session disconnected.");
        reg.user_disconnected.insert(path);
        out.push(
            StatusAction::DisconnectWithMessage {
                session_path: path.to_owned(),
                title: "Authentication Failed".to_owned(),
                body,
            },
        );
    }
    assert(actions_model(out@) =~= auth_failed_actions(old(reg)@, path@, now));
    out
}

pub open spec fn conn_failed_body(config_name: Seq<char>) -> Seq<char> {
    "Connection failed for '"@ + config_name + "'. Please try again."@
}

pub open spec fn session_error_body(config_name: Seq<char>, message: Seq<char>) -> Seq<char> {
    if message.len() == 0 {
        "VPN error for '"@ + config_name + "'."@
    } else {
        "VPN error for '"@ + config_name + "': "@ + message
    }
}

/// The registers once a session is given up with a message.
pub open spec fn given_up(m: RegistersModel, path: Seq<char>) -> RegistersModel {
    RegistersModel { user_disconnected: m.user_disconnected.insert(path), ..m }
}

/// Takes in a failed connection of the session at `path`.
pub fn handle_conn_failed(reg: &mut Registers, path: &str) -> (r: StatusAction)
    ensures
        final(reg)@ == given_up(old(reg)@, path@),
        r@ == (StatusAction::DisconnectWithMessage {
            session_path: path@,
            title: "Connection Failed"@,
            body: conn_failed_body(identity_of(old(reg)@.tray.sessions, path@).0),
        }),
{
    let config_name = session_config_name(&reg.tray, path);
    let mut body = "Connection failed for '".to_owned();
    body.append(config_name.as_str());
    body.append("'. Please try again.");
    reg.user_disconnected.insert(path);
    StatusAction::DisconnectWithMessage {
        session_path: path.to_owned(),
        title: "Connection Failed".to_owned(),
        body,
    }
}

/// Takes in any other error of the session at `path`.
pub fn handle_session_error(reg: &mut Registers, path: &str, message: &str) -> (r: StatusAction)
    ensures
        final(reg)@ == given_up(old(reg)@, path@),
        r@ == (StatusAction::DisconnectWithMessage {
            session_path: path@,
            title: "VPN Error"@,
            body: session_error_body(identity_of(old(reg)@.tray.sessions, path@).0, message@),
        }),
{
    let config_name = session_config_name(&reg.tray, path);
    let mut body = "VPN error for '".to_owned();
    body.append(config_name.as_str());
    if message.is_empty() {
        body.append("'.");
    } else {
        body.append("': ");
        body.append(message);
    }
    reg.user_disconnected.insert(path);
    StatusAction::DisconnectWithMessage {
        session_path: path.to_owned(),
        title: "VPN Error".to_owned(),
        body,
    }
}

/// The login budgets once the session at `path` is connected: its
/// configuration's is dropped.
pub open spec fn budget_cleared(m: RegistersModel, path: Seq<char>) -> RegistersModel {
    if m.tray.sessions.contains_key(path) && m.tray.sessions[path].config_path.len() > 0 {
        RegistersModel { attempts: m.attempts.remove(m.tray.sessions[path].config_path), ..m }
    } else {
        m
    }
}

/// Drops the login budget of a session's configuration, if both are known.
pub fn clear_credential_attempts(reg: &mut Registers, path: &str)
    ensures
        final(reg)@ == budget_cleared(old(reg)@, path@),
{
    let config_path = match reg.tray.session(path) {
        Some(s) => Some(s.config_path.clone()),
        None => None,
    };
    match config_path {
        Some(cp) => if !cp.as_str().is_empty() {
            reg.attempts.remove(cp.as_str());
        },
        None => {},
    }
}

/// The sessions once the report of the one at `path` is settled: a known one
/// that is connected for the first time gets its time of connection, an
/// unknown one gets an entry.
pub open spec fn upserted(
    sessions: Map<Seq<char>, SessionInfo<Seq<char>>>,
    path: Seq<char>,
    status: SessionStatus,
    now: Moment,
) -> Map<Seq<char>, SessionInfo<Seq<char>>> {
    if !sessions.contains_key(path) {
        sessions.insert(path, unseen_session(path, status))
    } else if status.connected() && sessions[path].connected_at is None {
        sessions.insert(path, SessionInfo { connected_at: Some(now), ..sessions[path] })
    } else {
        sessions
    }
}

/// Settles the entry of a session that reported its status. Says whether the
/// session was unknown.
pub fn upsert_session_state(
    reg: &mut Registers,
    path: &str,
    status: SessionStatus,
    now: Moment,
) -> (r: bool)
    ensures
        r == !old(reg)@.tray.sessions.contains_key(path@),
        final(reg)@ == (RegistersModel {
            tray: TrayModel {
                sessions: upserted(old(reg)@.tray.sessions, path@, status, now),
                ..old(reg)@.tray
            },
            ..old(reg)@
        }),
{
    let found = match reg.tray.session(path) {
        Some(s) => Some(s.clone()),
        None => None,
    };
    match found {
        Some(mut s) => {
            if status.is_connected() && s.connected_at.is_none() {
                s.connected_at = Some(now);
                reg.tray.put_session(path, s);
            }
            false
        },
        None => {
            let s = build_unseen_session(path, status);
            reg.tray.put_session(path, s);
            true
        },
    }
}

/// The registers once a disconnected session is scheduled for removal: its
/// configuration, if known, is kept for the manager's announcement.
pub open spec fn removal_scheduled(m: RegistersModel, path: Seq<char>) -> RegistersModel {
    if m.tray.sessions.contains_key(path) && m.tray.sessions[path].config_path.len() > 0 {
        RegistersModel {
            recent_destroyed: m.recent_destroyed.insert(
                path,
                (m.tray.sessions[path].config_path, m.tray.sessions[path].config_name),
            ),
            ..m
        }
    } else {
        m
    }
}

/// Keeps the configuration of a session that is about to leave the tray.
pub fn schedule_disconnected_removal(reg: &mut Registers, path: &str)
    ensures
        final(reg)@ == removal_scheduled(old(reg)@, path@),
{
    let identity = match reg.tray.session(path) {
        Some(s) => Some((s.config_path.clone(), s.config_name.clone())),
        None => None,
    };
    match identity {
        Some((cp, cn)) => if !cp.as_str().is_empty() {
            reg.remember_destroyed(path, cp.as_str(), cn.as_str());
        },
        None => {},
    }
}

/// The number of the next timeout watch of a session.
pub open spec fn next_generation(timeouts: Map<Seq<char>, u64>, path: Seq<char>) -> u64 {
    if !timeouts.contains_key(path) {
        1
    } else if timeouts[path] == u64::MAX {
        0
    } else {
        (timeouts[path] + 1) as u64
    }
}

/// Begins a timeout watch of a session; older ones are thereby void.
pub fn begin_timeout_watch(reg: &mut Registers, path: &str) -> (r: u64)
    ensures
        r == next_generation(old(reg)@.timeouts, path@),
        final(reg)@ == (RegistersModel {
            timeouts: old(reg)@.timeouts.insert(path@, r),
            ..old(reg)@
        }),
{
    let generation: u64 = match reg.timeouts.get(path) {
        Some(g) => if *g == u64::MAX {
            0
        } else {
            *g + 1
        },
        None => 1,
    };
    reg.timeouts.insert(path.to_owned(), generation);
    generation
}

/// The warning of a timeout watch.
pub open spec fn timeout_toast(config_name: Seq<char>) -> Toast<Seq<char>> {
    plain_toast(
        config_name + ": Still Connecting"@,
        "Connection to '"@ + config_name
            + "' is taking longer than expected. You can disconnect and try again."@,
        2,
    )
}

/// The warning is due: the watch is the latest one and the session still
/// connects.
pub open spec fn timeout_due(m: RegistersModel, path: Seq<char>, generation: u64) -> bool {
    &&& m.timeouts.contains_key(path)
    &&& m.timeouts[path] == generation
    &&& m.tray.sessions.contains_key(path)
    &&& m.tray.sessions[path].status.connecting()
}

/// Ends the timeout watch with this number: the warning, if it is due.
pub fn end_timeout_watch(reg: &Registers, path: &str, generation: u64) -> (r: Option<Toast>)
    ensures
        timeout_due(reg@, path@, generation) ==> r is Some && r->0@ == timeout_toast(
            reg@.tray.sessions[path@].config_name,
        ),
        !timeout_due(reg@, path@, generation) ==> r is None,
{
    let current = match reg.timeouts.get(path) {
        Some(g) => *g == generation,
        None => false,
    };
    if !current {
        return None;
    }
    match reg.tray.session(path) {
        Some(s) => if s.status.is_connecting() {
            let mut title = s.config_name.clone();
            title.append(": Still Connecting");
            let mut body = "Connection to '".to_owned();
            body.append(s.config_name.as_str());
            body.append("' is taking longer than expected. You can disconnect and try again.");
            Some(show_error_notification(title.as_str(), body.as_str()))
        } else {
            None
        },
        None => None,
    }
}

/// The registers after a report that is neither a request nor an error.
pub open spec fn settled_state(m: RegistersModel, ev: StatusEvent<Seq<char>>) -> RegistersModel {
    let status = ev.status();
    let a = if status.connected() {
        budget_cleared(m, ev.path)
    } else {
        m
    };
    let b = RegistersModel {
        tray: TrayModel {
            sessions: upserted(a.tray.sessions, ev.path, status, ev.now),
            ..a.tray
        },
        ..a
    };
    let c = if status.disconnected() {
        removal_scheduled(b, ev.path)
    } else {
        b
    };
    if status.connecting() {
        RegistersModel {
            timeouts: c.timeouts.insert(ev.path, next_generation(c.timeouts, ev.path)),
            ..c
        }
    } else {
        c
    }
}

/// What is done about a report that is neither a request nor an error.
pub open spec fn settled_actions(
    m: RegistersModel,
    previous: Option<(Seq<char>, SessionStatus)>,
    ev: StatusEvent<Seq<char>>,
    settings: Settings,
) -> Seq<StatusAction<Seq<char>>> {
    let status = ev.status();
    let known = m.tray.sessions.contains_key(ev.path);
    when(status.connected(), StatusAction::Protect { session_path: ev.path }) + when(
        status.paused() && settings.enable_kill_switch_spec()
            && !settings.kill_switch_block_during_pause_spec(),
        StatusAction::ReleaseForPause { session_path: ev.path },
    ) + when(
        !known && status.connected(),
        StatusAction::BackfillIdentity { session_path: ev.path },
    ) + when(status.disconnected(), StatusAction::RemoveLater { session_path: ev.path }) + when(
        status.connecting(),
        StatusAction::WatchTimeout {
            session_path: ev.path,
            generation: next_generation(m.timeouts, ev.path),
            seconds: settings.connection_timeout_spec() as u32,
        },
    ) + seq![StatusAction::Announce { previous, status }]
}

fn push_action(out: &mut Vec<StatusAction>, a: StatusAction)
    ensures
        actions_model(final(out)@) == actions_model(old(out)@).push(a@),
{
    out.push(a);
    assert(actions_model(out@) =~= actions_model(old(out)@).push(a@));
}

fn settle(
    reg: &mut Registers,
    settings: &Settings,
    previous: Option<(String, SessionStatus)>,
    ev: &StatusEvent,
    status: SessionStatus,
) -> (r: Vec<StatusAction>)
    requires
        status == ev.status(),
    ensures
        final(reg)@ == settled_state(old(reg)@, ev@),
        actions_model(r@) == settled_actions(
            old(reg)@,
            previous_model(previous),
            ev@,
            *settings,
        ),
{
    let path = ev.path.as_str();
    let mut out: Vec<StatusAction> = Vec::new();
    let ghost m = reg@;
    assert(actions_model(out@) =~= Seq::empty());
    if status.is_connected() {
        clear_credential_attempts(reg, path);
        push_action(&mut out, StatusAction::Protect { session_path: path.to_owned() });
    }
    let ghost s1 = when(status.connected(), StatusAction::Protect { session_path: ev@.path });
    assert(actions_model(out@) =~= s1);
    if status.is_paused() && should_teardown_on_pause(
        settings.enable_kill_switch(),
        settings.kill_switch_block_during_pause(),
    ) {
        push_action(&mut out, StatusAction::ReleaseForPause { session_path: path.to_owned() });
    }
    let ghost s2 = s1 + when(
        status.paused() && settings.enable_kill_switch_spec()
            && !settings.kill_switch_block_during_pause_spec(),
        StatusAction::ReleaseForPause { session_path: ev@.path },
    );
    assert(actions_model(out@) =~= s2);
    let unknown = upsert_session_state(reg, path, status, ev.now);
    if unknown && status.is_connected() {
        push_action(&mut out, StatusAction::BackfillIdentity { session_path: path.to_owned() });
    }
    let ghost s3 = s2 + when(
        !m.tray.sessions.contains_key(ev@.path) && status.connected(),
        StatusAction::BackfillIdentity { session_path: ev@.path },
    );
    assert(actions_model(out@) =~= s3);
    if status.is_disconnected() {
        schedule_disconnected_removal(reg, path);
        push_action(&mut out, StatusAction::RemoveLater { session_path: path.to_owned() });
    }
    let ghost s4 = s3 + when(
        status.disconnected(),
        StatusAction::RemoveLater { session_path: ev@.path },
    );
    assert(actions_model(out@) =~= s4);
    if status.is_connecting() {
        let generation = begin_timeout_watch(reg, path);
        push_action(
            &mut out,
            StatusAction::WatchTimeout {
                session_path: path.to_owned(),
                generation,
                seconds: settings.connection_timeout(),
            },
        );
    }
    let ghost s5 = s4 + when(
        status.connecting(),
        StatusAction::WatchTimeout {
            session_path: ev@.path,
            generation: next_generation(m.timeouts, ev@.path),
            seconds: settings.connection_timeout_spec() as u32,
        },
    );
    assert(actions_model(out@) =~= s5);
    push_action(&mut out, StatusAction::Announce { previous, status });
    out
}

/// The registers after a status report.
pub open spec fn status_state(m: RegistersModel, ev: StatusEvent<Seq<char>>) -> RegistersModel {
    let status = ev.status();
    let n = noted(m, ev);
    if !taken_in(m, ev) {
        m
    } else if status.auth_request() {
        n
    } else {
        match error_action(status) {
            ErrorAction::AuthFailed => auth_failed_state(n, ev.path, ev.now),
            ErrorAction::ConnFailed => given_up(n, ev.path),
            ErrorAction::SessionError => given_up(n, ev.path),
            ErrorAction::NoError => settled_state(n, ev),
        }
    }
}

/// Whether the report is not a mere repetition.
pub open spec fn taken_in(m: RegistersModel, ev: StatusEvent<Seq<char>>) -> bool {
    let prev = if m.last_signal.contains_key(ev.path) {
        Some(m.last_signal[ev.path])
    } else {
        None
    };
    dispatch_reason(prev, ev.major, ev.minor, ev.status().auth_request()) is Some
}

/// What is done about a status report.
pub open spec fn status_actions(
    m: RegistersModel,
    ev: StatusEvent<Seq<char>>,
    settings: Settings,
) -> Seq<StatusAction<Seq<char>>> {
    let status = ev.status();
    let n = noted(m, ev);
    let config_name = identity_of(n.tray.sessions, ev.path).0;
    if !taken_in(m, ev) {
        Seq::empty()
    } else if status.auth_request() {
        seq![auth_step(n, request_of(status)->0, ev, settings.show_notifications_spec())]
    } else {
        match error_action(status) {
            ErrorAction::AuthFailed => auth_failed_actions(n, ev.path, ev.now),
            ErrorAction::ConnFailed => seq![
                StatusAction::DisconnectWithMessage {
                    session_path: ev.path,
                    title: "Connection Failed"@,
                    body: conn_failed_body(config_name),
                },
            ],
            ErrorAction::SessionError => seq![
                StatusAction::DisconnectWithMessage {
                    session_path: ev.path,
                    title: "VPN Error"@,
                    body: session_error_body(config_name, ev.message),
                },
            ],
            ErrorAction::NoError => settled_actions(n, previous_of(m, ev.path), ev, settings),
        }
    }
}

/// Takes in a status report and says what is to be done about it, in order.
pub fn on_status_change(reg: &mut Registers, settings: &Settings, ev: &StatusEvent) -> (r: Vec<
    StatusAction,
>)
    ensures
        final(reg)@ == status_state(old(reg)@, ev@),
        actions_model(r@) == status_actions(old(reg)@, ev@, *settings),
{
    let status = SessionStatus::new(ev.major, ev.minor, ev.message.clone());
    let path = ev.path.as_str();
    let prev: Option<(u32, u32)> = match reg.last_signal.get(path) {
        Some(p) => Some(*p),
        None => None,
    };
    let mut out: Vec<StatusAction> = Vec::new();
    assert(actions_model(out@) =~= Seq::empty());
    if should_dispatch(prev, ev.major, ev.minor, status.is_auth_request()).is_none() {
        return out;
    }
    let previous: Option<(String, SessionStatus)> = match reg.tray.session(path) {
        Some(s) => Some((s.config_name.clone(), s.status)),
        None => None,
    };
    note(reg, ev, status);
    match auth_request(&status) {
        Some(request) => {
            let a = answer_request(reg, settings, request, ev);
            push_action(&mut out, a);
            assert(actions_model(out@) =~= seq![a@]);
            out
        },
        None => match classify_error(&status) {
            ErrorAction::AuthFailed => handle_auth_failed(reg, path, ev.now),
            ErrorAction::ConnFailed => {
                let a = handle_conn_failed(reg, path);
                push_action(&mut out, a);
                assert(actions_model(out@) =~= seq![a@]);
                out
            },
            ErrorAction::SessionError => {
                let a = handle_session_error(reg, path, ev.message.as_str());
                push_action(&mut out, a);
                assert(actions_model(out@) =~= seq![a@]);
                out
            },
            ErrorAction::NoError => settle(reg, settings, previous, ev, status),
        },
    }
}

/// What is told of a change of status, given the descriptions of both.
pub open spec fn announcement(
    previous: Option<(Seq<char>, Seq<char>)>,
    new_desc: Seq<char>,
) -> Option<(Seq<char>, Seq<char>)> {
    match previous {
        Some((name, prev)) => if prev != new_desc {
            Some((name, name + ": Status change from "@ + prev + " to "@ + new_desc))
        } else {
            None
        },
        None => Some((FALLBACK_NAME@, new_desc)),
    }
}

/// The notification of a change of status. `previous` is the session's name
/// and the description of its status before, if it was known; nothing is told
/// when the description stays the same.
pub fn send_status_notification(
    settings: &Settings,
    previous: &Option<(String, String)>,
    new_desc: &str,
) -> (r: Option<Toast>)
    ensures
        ({
            let told = announcement(
                match *previous {
                    Some(p) => Some((p.0@, p.1@)),
                    None => None,
                },
                new_desc@,
            );
            match told {
                Some((name, body)) => shown(
                    r,
                    settings.show_notifications_spec(),
                    state_toast(name, "VPN: "@ + name, body, 1, EXPIRE_DEFAULT),
                ),
                None => r is None,
            }
        }),
{
    match previous {
        Some((name, prev)) => if !same(prev.as_str(), new_desc) {
            let mut body = name.clone();
            body.append(": Status change from ");
            body.append(prev.as_str());
            body.append(" to ");
            body.append(new_desc);
            show_connection_notification(settings, name.as_str(), body.as_str())
        } else {
            None
        },
        None => show_connection_notification(settings, FALLBACK_NAME, new_desc),
    }
}

/// A session's entry once its configuration was asked for. What the session
/// did not tell stays as it is, and a configuration already known is kept.
pub open spec fn backfilled(
    s: SessionInfo<Seq<char>>,
    config_path: Option<Seq<char>>,
    config_name: Option<Seq<char>>,
) -> SessionInfo<Seq<char>> {
    if s.config_path.len() > 0 {
        s
    } else {
        SessionInfo {
            config_path: match config_path {
                Some(p) => p,
                None => s.config_path,
            },
            config_name: match config_name {
                Some(n) => n,
                None => s.config_name,
            },
            ..s
        }
    }
}

/// Fills in the configuration of a session that reported its status before it
/// was announced.
pub fn backfill_session_identity(
    reg: &mut Registers,
    path: &str,
    config_path: Option<String>,
    config_name: Option<String>,
)
    ensures
        final(reg)@ == (RegistersModel {
            tray: TrayModel {
                sessions: if old(reg)@.tray.sessions.contains_key(path@) {
                    old(reg)@.tray.sessions.insert(
                        path@,
                        backfilled(
                            old(reg)@.tray.sessions[path@],
                            opt_text(config_path),
                            opt_text(config_name),
                        ),
                    )
                } else {
                    old(reg)@.tray.sessions
                },
                ..old(reg)@.tray
            },
            ..old(reg)@
        }),
{
    let found = match reg.tray.session(path) {
        Some(s) => Some(s.clone()),
        None => None,
    };
    match found {
        Some(mut s) => {
            if s.config_path.as_str().is_empty() {
                match config_path {
                    Some(p) => {
                        s.config_path = p;
                    },
                    None => {},
                }
                match config_name {
                    Some(n) => {
                        s.config_name = n;
                    },
                    None => {},
                }
            }
            assert(s@ == backfilled(
                old(reg)@.tray.sessions[path@],
                opt_text(config_path),
                opt_text(config_name),
            ));
            reg.tray.put_session(path, s);
        },
        None => {},
    }
}

/// A report with the same numbers as the last one of the same session.
pub open spec fn repeats(again: StatusEvent<Seq<char>>, ev: StatusEvent<Seq<char>>) -> bool {
    again.path == ev.path && again.major == ev.major && again.minor == ev.minor
}

/// A repeated report changes nothing and asks for nothing, unless it asks the
/// user for something.
pub proof fn law_repetition_is_dropped(
    m: RegistersModel,
    ev: StatusEvent<Seq<char>>,
    again: StatusEvent<Seq<char>>,
    settings: Settings,
)
    requires
        repeats(again, ev),
        !ev.status().auth_request(),
    ensures
        status_state(status_state(m, ev), again) == status_state(m, ev),
        status_actions(status_state(m, ev), again, settings) == Seq::<
            StatusAction<Seq<char>>,
        >::empty(),
{
    let n = status_state(m, ev);
    assert(n.last_signal.contains_key(ev.path));
    assert(n.last_signal[ev.path] == (ev.major, ev.minor));
}

/// A report that asks the user for something is answered every time.
pub proof fn law_requests_are_always_answered(
    m: RegistersModel,
    ev: StatusEvent<Seq<char>>,
    settings: Settings,
)
    requires
        ev.status().auth_request(),
    ensures
        status_actions(m, ev, settings).len() == 1,
        status_actions(m, ev, settings)[0] is QueryInput || status_actions(
            m,
            ev,
            settings,
        )[0] is RequestCredentials || status_actions(m, ev, settings)[0] is BrowserAuth,
{
}

/// A report leaves alone every other session, the protection flags, the
/// bypass routes and the configurations, and loses no session.
pub proof fn law_report_concerns_its_session(
    m: RegistersModel,
    ev: StatusEvent<Seq<char>>,
    p: Seq<char>,
)
    requires
        m.tray.sessions.contains_key(p),
    ensures
        ({
            let n = status_state(m, ev);
            &&& n.tray.sessions.contains_key(p)
            &&& p != ev.path ==> n.tray.sessions[p] == m.tray.sessions[p]
            &&& n.tray.sessions[p].config_path == m.tray.sessions[p].config_path
            &&& n.tray.sessions[p].config_name == m.tray.sessions[p].config_name
            &&& n.tray.sessions[p].kill_switch_active == m.tray.sessions[p].kill_switch_active
            &&& n.tray.bypass_state == m.tray.bypass_state
            &&& n.tray.configs == m.tray.configs
            &&& n.tray.kill_switch_enabled == m.tray.kill_switch_enabled
        }),
{
}

/// A report that is taken in leaves a known session with the reported status.
pub proof fn law_status_is_always_updated(m: RegistersModel, ev: StatusEvent<Seq<char>>)
    requires
        taken_in(m, ev),
        m.tray.sessions.contains_key(ev.path),
    ensures
        status_state(m, ev).tray.sessions[ev.path].status == ev.status(),
{
}

/// After a failed login the session is marked either as being replaced or as
/// given up, and the mark says which of the two is done.
pub proof fn law_failed_login_is_retried_or_given_up(
    m: RegistersModel,
    path: Seq<char>,
    now: Moment,
)
    requires
        m.valid(),
    ensures
        ({
            let n = auth_failed_state(m, path, now);
            let done = auth_failed_actions(m, path, now);
            &&& n.valid()
            &&& done.last() is RetryTunnel || done.last() is DisconnectWithMessage
            &&& done.last() is RetryTunnel ==> n.auth_retry.contains(path)
                && n.user_disconnected == m.user_disconnected
            &&& done.last() is DisconnectWithMessage ==> n.user_disconnected.contains(path)
                && n.auth_retry == m.auth_retry
            &&& identity_of(m.tray.sessions, path).1.len() == 0
                ==> done.last() is DisconnectWithMessage
        }),
{
}

/// Once a later watch has begun, an earlier one never warns.
pub proof fn law_only_the_latest_watch_warns(
    m: RegistersModel,
    path: Seq<char>,
    older: u64,
)
    requires
        m.timeouts.contains_key(path),
        m.timeouts[path] == older,
    ensures
        ({
            let n = RegistersModel {
                timeouts: m.timeouts.insert(path, next_generation(m.timeouts, path)),
                ..m
            };
            !timeout_due(n, path, older)
        }),
{
}

/// A session that has just connected starts from clean baselines.
pub proof fn law_connecting_resets_baselines<T>(s: SessionInfo<T>, status: SessionStatus)
    requires
        !s.status.connected(),
        status.connected(),
    ensures
        transitioned(s, status).last_bytes_in == 0,
        transitioned(s, status).last_bytes_out == 0,
        transitioned(s, status).idle_started_at is None,
        transitioned(s, status).idle_since is None,
{
}

/// A session that is not connected shows no stall warning, provided it showed
/// none unless it was connected.
pub proof fn law_no_stall_warning_unless_connected<T>(s: SessionInfo<T>, status: SessionStatus)
    requires
        s.idle_since is Some ==> s.status.connected(),
    ensures
        transitioned(s, status).idle_since is Some ==> transitioned(s, status).status.connected(),
{
}

proof fn lemma_contains_concat<A>(a: Seq<A>, b: Seq<A>, x: A)
    ensures
        (a + b).contains(x) <==> a.contains(x) || b.contains(x),
{
    if a.contains(x) {
        let i = choose|i: int| 0 <= i < a.len() && a[i] == x;
        assert((a + b)[i] == x);
    }
    if b.contains(x) {
        let i = choose|i: int| 0 <= i < b.len() && b[i] == x;
        assert((a + b)[a.len() + i] == x);
    }
    if (a + b).contains(x) {
        let i = choose|i: int| 0 <= i < (a + b).len() && (a + b)[i] == x;
        if i < a.len() {
            assert(a[i] == x);
        } else {
            assert(b[i - a.len()] == x);
        }
    }
}

proof fn lemma_contains_when<A>(condition: bool, item: A, x: A)
    ensures
        (when(condition, item)).contains(x) <==> condition && item == x,
{
    if condition {
        assert(seq![item][0] == item);
    }
}

/// Which actions a settled report asks for.
proof fn lemma_settled_contains(
    m: RegistersModel,
    previous: Option<(Seq<char>, SessionStatus)>,
    ev: StatusEvent<Seq<char>>,
    settings: Settings,
    x: StatusAction<Seq<char>>,
)
    ensures
        settled_actions(m, previous, ev, settings).contains(x) <==> {
            let status = ev.status();
            ||| status.connected() && x == (StatusAction::Protect { session_path: ev.path })
            ||| status.paused() && settings.enable_kill_switch_spec()
                && !settings.kill_switch_block_during_pause_spec() && x == (
            StatusAction::ReleaseForPause { session_path: ev.path })
            ||| !m.tray.sessions.contains_key(ev.path) && status.connected() && x == (
            StatusAction::BackfillIdentity { session_path: ev.path })
            ||| status.disconnected() && x == (StatusAction::RemoveLater { session_path: ev.path })
            ||| status.connecting() && x == (StatusAction::WatchTimeout {
                session_path: ev.path,
                generation: next_generation(m.timeouts, ev.path),
                seconds: settings.connection_timeout_spec() as u32,
            })
            ||| x == (StatusAction::Announce { previous, status })
        },
{
    let status = ev.status();
    let known = m.tray.sessions.contains_key(ev.path);
    let a1 = StatusAction::Protect { session_path: ev.path };
    let a2 = StatusAction::ReleaseForPause { session_path: ev.path };
    let a3 = StatusAction::BackfillIdentity { session_path: ev.path };
    let a4 = StatusAction::RemoveLater { session_path: ev.path };
    let a5 = StatusAction::WatchTimeout {
        session_path: ev.path,
        generation: next_generation(m.timeouts, ev.path),
        seconds: settings.connection_timeout_spec() as u32,
    };
    let a6 = StatusAction::Announce { previous, status };
    let c2 = status.paused() && settings.enable_kill_switch_spec()
        && !settings.kill_switch_block_during_pause_spec();
    let c3 = !known && status.connected();
    let s1 = when(status.connected(), a1);
    let s2 = s1 + when(c2, a2);
    let s3 = s2 + when(c3, a3);
    let s4 = s3 + when(status.disconnected(), a4);
    let s5 = s4 + when(status.connecting(), a5);
    lemma_contains_when(status.connected(), a1, x);
    lemma_contains_when(c2, a2, x);
    lemma_contains_when(c3, a3, x);
    lemma_contains_when(status.disconnected(), a4, x);
    lemma_contains_when(status.connecting(), a5, x);
    lemma_contains_when(true, a6, x);
    lemma_contains_concat(s1, when(c2, a2), x);
    lemma_contains_concat(s2, when(c3, a3), x);
    lemma_contains_concat(s3, when(status.disconnected(), a4), x);
    lemma_contains_concat(s4, when(status.connecting(), a5), x);
    lemma_contains_concat(s5, seq![a6], x);
}

/// The last report of the session did not have the same numbers.
pub open spec fn is_news(m: RegistersModel, ev: StatusEvent<Seq<char>>) -> bool {
    !m.last_signal.contains_key(ev.path) || m.last_signal[ev.path].0 != ev.major
        || m.last_signal[ev.path].1 != ev.minor
}

/// Every report that a session is connected, unless it repeats the last one,
/// has the routes and the firewall installed for that session, whatever was
/// known of it before and whatever the settings; nothing else has, and nothing
/// has them installed for another session.
pub proof fn law_every_connect_is_protected(
    m: RegistersModel,
    ev: StatusEvent<Seq<char>>,
    settings: Settings,
    p: Seq<char>,
)
    ensures
        status_actions(m, ev, settings).contains(StatusAction::Protect { session_path: p }) <==> {
            &&& p == ev.path
            &&& ev.major == 2
            &&& ev.minor == 7
            &&& !m.last_signal.contains_key(ev.path) || m.last_signal[ev.path] != (2u32, 7u32)
        },
{
    lemma_settled_contains(
        noted(m, ev),
        previous_of(m, ev.path),
        ev,
        settings,
        StatusAction::Protect { session_path: p },
    );
}

/// A session that is paused and resumed is protected again: of the reports
/// that it is connected, paused and connected once more, the last has the
/// routes and the firewall installed just as the first.
pub proof fn law_resuming_protects_again(
    m: RegistersModel,
    connect: StatusEvent<Seq<char>>,
    pause: StatusEvent<Seq<char>>,
    resume: StatusEvent<Seq<char>>,
    settings: Settings,
)
    requires
        pause.path == connect.path && resume.path == connect.path,
        connect.major == 2 && connect.minor == 7,
        pause.major == 2 && pause.minor == 14,
        resume.major == 2 && resume.minor == 7,
    ensures
        ({
            let a = status_state(m, connect);
            let b = status_state(a, pause);
            let protect = StatusAction::Protect { session_path: connect.path };
            let release = StatusAction::ReleaseForPause { session_path: connect.path };
            &&& (!m.last_signal.contains_key(connect.path) || m.last_signal[connect.path] != (
            2u32, 7u32)) ==> status_actions(m, connect, settings).contains(protect)
            &&& !status_actions(a, pause, settings).contains(protect)
            &&& status_actions(a, pause, settings).contains(release) <==> {
                settings.enable_kill_switch_spec()
                    && !settings.kill_switch_block_during_pause_spec()
            }
            &&& status_actions(b, resume, settings).contains(protect)
            &&& b.tray.sessions.contains_key(connect.path)
            &&& status_state(b, resume).tray.sessions[connect.path].status == resume.status()
            &&& status_state(b, resume).tray.sessions[connect.path].connected_at is Some
            &&& b.tray.sessions[connect.path].connected_at is Some ==> status_state(
                b,
                resume,
            ).tray.sessions[connect.path].connected_at == b.tray.sessions[connect.path].connected_at
        }),
{
    let a = status_state(m, connect);
    let b = status_state(a, pause);
    law_every_connect_is_protected(m, connect, settings, connect.path);
    law_every_connect_is_protected(a, pause, settings, connect.path);
    assert(b.last_signal[connect.path] == (2u32, 14u32));
    law_every_connect_is_protected(b, resume, settings, connect.path);
    assert(a.last_signal[connect.path] == (2u32, 7u32));
    lemma_settled_contains(
        noted(a, pause),
        previous_of(a, pause.path),
        pause,
        settings,
        StatusAction::ReleaseForPause { session_path: connect.path },
    );
}

/// The firewall is released for a pause just when the session newly reports
/// that it is paused, the kill switch is on and it is not to block during a
/// pause; nothing else in the registers or the report matters.
pub proof fn law_pause_releases_the_firewall(
    m: RegistersModel,
    ev: StatusEvent<Seq<char>>,
    settings: Settings,
    p: Seq<char>,
)
    ensures
        status_actions(m, ev, settings).contains(StatusAction::ReleaseForPause { session_path: p })
            <==> {
            &&& p == ev.path
            &&& ev.major == 2
            &&& ev.minor == 14
            &&& !m.last_signal.contains_key(ev.path) || m.last_signal[ev.path] != (2u32, 14u32)
            &&& settings.enable_kill_switch_spec()
            &&& !settings.kill_switch_block_during_pause_spec()
        },
{
    lemma_settled_contains(
        noted(m, ev),
        previous_of(m, ev.path),
        ev,
        settings,
        StatusAction::ReleaseForPause { session_path: p },
    );
}

/// A session leaves the tray after every new report that it is disconnected or
/// done, and after no other report.
pub proof fn law_disconnected_session_leaves(
    m: RegistersModel,
    ev: StatusEvent<Seq<char>>,
    settings: Settings,
    p: Seq<char>,
)
    ensures
        status_actions(m, ev, settings).contains(StatusAction::RemoveLater { session_path: p })
            <==> {
            &&& p == ev.path
            &&& ev.major == 2
            &&& ev.minor == 9 || ev.minor == 16
            &&& is_news(m, ev)
        },
{
    lemma_settled_contains(
        noted(m, ev),
        previous_of(m, ev.path),
        ev,
        settings,
        StatusAction::RemoveLater { session_path: p },
    );
}

/// A session is asked for its configuration just when it newly reports that it
/// is connected and the tray has no entry of it.
pub proof fn law_unknown_session_is_asked_who_it_is(
    m: RegistersModel,
    ev: StatusEvent<Seq<char>>,
    settings: Settings,
    p: Seq<char>,
)
    ensures
        status_actions(m, ev, settings).contains(
            StatusAction::BackfillIdentity { session_path: p },
        ) <==> {
            &&& p == ev.path
            &&& ev.major == 2
            &&& ev.minor == 7
            &&& !m.tray.sessions.contains_key(p)
            &&& is_news(m, ev)
        },
{
    lemma_settled_contains(
        noted(m, ev),
        previous_of(m, ev.path),
        ev,
        settings,
        StatusAction::BackfillIdentity { session_path: p },
    );
}

/// A timeout watch begins just when a session newly reports that it connects;
/// it waits as long as the settings say, and it is the one that the registers
/// hold afterwards and that differs from the one before.
pub proof fn law_connecting_session_is_watched(
    m: RegistersModel,
    ev: StatusEvent<Seq<char>>,
    settings: Settings,
    p: Seq<char>,
    generation: u64,
    seconds: u32,
)
    ensures
        ({
            let n = status_state(m, ev);
            let watch = StatusAction::WatchTimeout { session_path: p, generation, seconds };
            let begins = ev.major == 2 && ev.minor == 6 && is_news(m, ev);
            &&& status_actions(m, ev, settings).contains(watch) <==> {
                &&& begins
                &&& p == ev.path
                &&& n.timeouts.contains_key(p)
                &&& n.timeouts[p] == generation
                &&& seconds == settings.connection_timeout_spec()
            }
            &&& begins ==> n.timeouts.contains_key(ev.path) && (m.timeouts.contains_key(ev.path)
                ==> m.timeouts[ev.path] != n.timeouts[ev.path])
            &&& begins ==> timeout_due(n, ev.path, n.timeouts[ev.path])
            &&& !begins ==> n.timeouts == m.timeouts
            &&& p != ev.path ==> n.timeouts.contains_key(p) == m.timeouts.contains_key(p)
                && n.timeouts[p] == m.timeouts[p]
        }),
{
    lemma_settled_contains(
        noted(m, ev),
        previous_of(m, ev.path),
        ev,
        settings,
        StatusAction::WatchTimeout { session_path: p, generation, seconds },
    );
}

/// A timeout watch warns just when it is the latest one of its session and the
/// session is known and connecting.
pub proof fn law_watch_warns_while_connecting(
    m: RegistersModel,
    path: Seq<char>,
    generation: u64,
)
    ensures
        timeout_due(m, path, generation) <==> {
            &&& m.timeouts.contains_key(path) && m.timeouts[path] == generation
            &&& m.tray.sessions.contains_key(path)
            &&& m.tray.sessions[path].status.major == StatusMajor::Connection
            &&& m.tray.sessions[path].status.minor == StatusMinor::ConnConnecting
        },
{
}

/// A new report that is neither a request nor an error is announced, and last
/// of all: with its own status, and with the name and status that the session
/// had, if it was known.
pub proof fn law_every_change_is_announced(
    m: RegistersModel,
    ev: StatusEvent<Seq<char>>,
    settings: Settings,
)
    requires
        is_news(m, ev),
        ev.major != 1,
        ev.major == 2 ==> ev.minor != 4 && ev.minor != 10 && ev.minor != 11,
        ev.major == 3 ==> ev.minor != 20 && ev.minor != 21 && ev.minor != 22,
        ev.major == 5 ==> ev.minor != 29,
    ensures
        ({
            let done = status_actions(m, ev, settings);
            let known = m.tray.sessions.contains_key(ev.path);
            &&& done.len() > 0
            &&& done.last() matches StatusAction::Announce { previous, status } && {
                &&& status == ev.status()
                &&& known ==> previous == Some(
                    (m.tray.sessions[ev.path].config_name, m.tray.sessions[ev.path].status),
                )
                &&& !known ==> previous is None
            }
            &&& status_state(m, ev).tray.sessions.contains_key(ev.path)
            &&& status_state(m, ev).tray.sessions[ev.path].status == ev.status()
        }),
{
}

/// What is done about a new report is decided by its numbers: a request is
/// answered, an error ends the session or has it tried again, and all else is
/// announced. Each of the three leaves out the other two.
pub proof fn law_reports_by_their_numbers(
    m: RegistersModel,
    ev: StatusEvent<Seq<char>>,
    settings: Settings,
)
    ensures
        ({
            let done = status_actions(m, ev, settings);
            let asks = ev.major == 2 && ev.minor == 4 || ev.major == 3 && (ev.minor == 20 || ev.minor
                == 21 || ev.minor == 22);
            let fails = ev.major == 1 || ev.major == 2 && (ev.minor == 10 || ev.minor == 11)
                || ev.major == 5 && ev.minor == 29;
            &&& done.len() == 0 <==> !asks && !is_news(m, ev)
            &&& done.len() > 0 ==> {
                let x = done.last();
                &&& x is QueryInput <==> ev.major == 2 && ev.minor == 4
                &&& x is RequestCredentials <==> ev.major == 3 && (ev.minor == 20 || ev.minor
                    == 21)
                &&& x is BrowserAuth <==> ev.major == 3 && ev.minor == 22
                &&& x is DisconnectWithMessage || x is RetryTunnel <==> fails
                &&& x is RetryTunnel ==> ev.major == 2 && ev.minor == 11
                &&& x is Announce <==> !asks && !fails
                &&& asks ==> done.len() == 1
                &&& fails && !(ev.major == 2 && ev.minor == 11) ==> done.len() == 1
            }
        }),
{
    law_status_numbers(ev.major, ev.minor);
    let asks = ev.status().auth_request();
    assert(taken_in(m, ev) == (asks || is_news(m, ev)));
    let n = noted(m, ev);
    if taken_in(m, ev) && !asks {
        if ev.status().auth_failed() {
            assert(status_actions(m, ev, settings) == auth_failed_actions(n, ev.path, ev.now));
        } else if ev.status().error() {
            assert(status_actions(m, ev, settings).len() == 1);
        } else {
            let done = settled_actions(n, previous_of(m, ev.path), ev, settings);
            assert(status_actions(m, ev, settings) == done);
            assert(done.last() is Announce);
        }
    }
}

/// A repetition is dropped just when the last report of the session had the
/// same two numbers and the report asks the user for nothing.
pub proof fn law_only_repetitions_are_dropped(m: RegistersModel, ev: StatusEvent<Seq<char>>)
    ensures
        !taken_in(m, ev) <==> {
            &&& m.last_signal.contains_key(ev.path)
            &&& m.last_signal[ev.path].0 == ev.major && m.last_signal[ev.path].1 == ev.minor
            &&& !(ev.major == 2 && ev.minor == 4)
            &&& !(ev.major == 3 && (ev.minor == 20 || ev.minor == 21 || ev.minor == 22))
        },
        taken_in(m, ev) ==> status_state(m, ev).last_signal == m.last_signal.insert(
            ev.path,
            (ev.major, ev.minor),
        ),
        !taken_in(m, ev) ==> status_state(m, ev) == m,
{
    law_status_numbers(ev.major, ev.minor);
}

/// Why a report is taken in: there was none before, it has other numbers, or
/// it is a repeated request.
pub proof fn law_dispatch_reasons(
    prev: Option<(u32, u32)>,
    major: u32,
    minor: u32,
    is_auth: bool,
)
    ensures
        dispatch_reason(prev, major, minor, is_auth) == Some(DispatchReason::FirstSeen)
            <==> prev is None,
        dispatch_reason(prev, major, minor, is_auth) == Some(DispatchReason::Changed) <==> (
        prev matches Some((a, b)) && (a != major || b != minor)),
        dispatch_reason(prev, major, minor, is_auth) == Some(DispatchReason::AuthExempt) <==> prev
            == Some((major, minor)) && is_auth,
{
}

/// What a new status does to a session: the idle clock is stopped just when
/// the session becomes connected or ceases to be, the baselines of the
/// counters are zeroed just when it becomes connected, and nothing but these
/// and the status is touched.
pub proof fn law_status_transition<T>(s: SessionInfo<T>, status: SessionStatus)
    ensures
        ({
            let after = transitioned(s, status);
            let was = s.status.major == StatusMajor::Connection && s.status.minor
                == StatusMinor::ConnConnected;
            let will = status.major == StatusMajor::Connection && status.minor
                == StatusMinor::ConnConnected;
            &&& after.status == status
            &&& was != will ==> after.idle_started_at is None && after.idle_since is None
            &&& was == will ==> after.idle_started_at == s.idle_started_at && after.idle_since
                == s.idle_since
            &&& !was && will ==> after.last_bytes_in == 0 && after.last_bytes_out == 0
            &&& was || !will ==> after.last_bytes_in == s.last_bytes_in && after.last_bytes_out
                == s.last_bytes_out
            &&& after.session_path == s.session_path
            &&& after.config_path == s.config_path
            &&& after.config_name == s.config_name
            &&& after.connected_at == s.connected_at
            &&& after.bytes_in == s.bytes_in && after.bytes_out == s.bytes_out
            &&& after.auto_reconnect_attempted_at == s.auto_reconnect_attempted_at
            &&& after.kill_switch_active == s.kill_switch_active
        }),
{
}

/// A failed login is tried again just when the session's configuration is
/// known and this is not the third failure in a row, each within five minutes
/// of the one before. It is then marked as being replaced and the failure is
/// counted; else the session is given up and the configuration starts over.
pub proof fn law_failed_login_by_its_count(
    m: RegistersModel,
    ev: StatusEvent<Seq<char>>,
    settings: Settings,
)
    requires
        m.valid(),
        is_news(m, ev),
        ev.major == 2 && ev.minor == 11,
    ensures
        ({
            let done = status_actions(m, ev, settings);
            let n = status_state(m, ev);
            let config_path = m.tray.sessions[ev.path].config_path;
            let before = m.attempts[config_path];
            let recent = m.attempts.contains_key(config_path) && ev.now.nanos
                < before.last_failure.nanos + 301_000_000_000;
            let again = m.tray.sessions.contains_key(ev.path) && config_path.len() > 0 && !(recent
                && before.count >= 2);
            &&& again ==> {
                &&& done.len() == 2
                &&& done[0] is Notify
                &&& done[1] == (StatusAction::RetryTunnel { session_path: ev.path, config_path })
                &&& n.auth_retry == m.auth_retry.insert(ev.path)
                &&& n.user_disconnected == m.user_disconnected
                &&& n.attempts.contains_key(config_path)
                &&& n.attempts[config_path].last_failure == ev.now
                &&& n.attempts[config_path].count == (if recent {
                    before.count + 1
                } else {
                    1
                })
            }
            &&& !again ==> {
                &&& done.len() == 1
                &&& done[0] is DisconnectWithMessage
                &&& done[0]->DisconnectWithMessage_session_path == ev.path
                &&& done[0]->title == "Authentication Failed"@
                &&& n.user_disconnected == m.user_disconnected.insert(ev.path)
                &&& n.auth_retry == m.auth_retry
                &&& m.tray.sessions.contains_key(ev.path) ==> !n.attempts.contains_key(config_path)
            }
            &&& n.recent_destroyed == m.recent_destroyed
            &&& n.timeouts == m.timeouts
            &&& n.reconnects == m.reconnects
        }),
{
    law_status_numbers(ev.major, ev.minor);
    let config_path = m.tray.sessions[ev.path].config_path;
    law_failures_are_numbered(m.attempts, ev.now, config_path);
    law_failures_are_remembered(m.attempts, ev.now, config_path, config_path);
    if m.tray.sessions.contains_key(ev.path) && config_path.len() == 0 {
        assert(config_path =~= Seq::empty());
    }
}

/// Any other error gives the session up: it is disconnected, marked so that no
/// reconnect is offered, and the message names its configuration.
pub proof fn law_errors_give_the_session_up(
    m: RegistersModel,
    ev: StatusEvent<Seq<char>>,
    settings: Settings,
)
    requires
        is_news(m, ev),
        ev.major == 1 || ev.major == 2 && ev.minor == 10 || ev.major == 5 && ev.minor == 29,
    ensures
        ({
            let done = status_actions(m, ev, settings);
            let n = status_state(m, ev);
            let name = if m.tray.sessions.contains_key(ev.path) {
                m.tray.sessions[ev.path].config_name
            } else {
                "VPN Connection"@
            };
            &&& done.len() == 1
            &&& done[0] is DisconnectWithMessage
            &&& done[0]->DisconnectWithMessage_session_path == ev.path
            &&& done[0]->title == (if ev.major == 2 {
                "Connection Failed"@
            } else {
                "VPN Error"@
            })
            &&& has_substring(done[0]->body, "'"@ + name + "'"@)
            &&& ev.major != 2 && ev.message.len() > 0 ==> has_substring(done[0]->body, ev.message)
            &&& n.user_disconnected == m.user_disconnected.insert(ev.path)
            &&& n.auth_retry == m.auth_retry
            &&& n.attempts == m.attempts
            &&& n.recent_destroyed == m.recent_destroyed
            &&& n.timeouts == m.timeouts
            &&& n.reconnects == m.reconnects
        }),
{
    law_status_numbers(ev.major, ev.minor);
    let name = identity_of(m.tray.sessions, ev.path).0;
    let quoted = "'"@ + name + "'"@;
    let body = status_actions(m, ev, settings)[0]->body;
    reveal_strlit("'");
    reveal_strlit("Connection failed for '");
    reveal_strlit("'. Please try again.");
    reveal_strlit("VPN error for '");
    reveal_strlit("'.");
    reveal_strlit("': ");
    if ev.major == 2 {
        assert(body.subrange(22, 22int + quoted.len()) =~= quoted);
        assert(occurs_at(body, quoted, 22));
    } else {
        assert(body.subrange(14, 14int + quoted.len()) =~= quoted);
        assert(occurs_at(body, quoted, 14));
        if ev.message.len() > 0 {
            let at = 18int + name.len();
            assert(body.subrange(at, at + ev.message.len()) =~= ev.message);
            assert(occurs_at(body, ev.message, at));
        }
    }
}

/// A request is answered for the reporting session with its configuration, if
/// it is known, and with the fallback name, if it is not; the registers change
/// only in what was last reported.
pub proof fn law_requests_name_their_config(
    m: RegistersModel,
    ev: StatusEvent<Seq<char>>,
    settings: Settings,
)
    requires
        ev.major == 2 && ev.minor == 4 || ev.major == 3 && (ev.minor == 20 || ev.minor == 21),
    ensures
        ({
            let done = status_actions(m, ev, settings);
            let n = status_state(m, ev);
            let known = m.tray.sessions.contains_key(ev.path);
            let s = m.tray.sessions[ev.path];
            let name = if known {
                s.config_name
            } else {
                "VPN Connection"@
            };
            let path = if known {
                s.config_path
            } else {
                Seq::empty()
            };
            &&& done.len() == 1
            &&& ev.major == 2 ==> done[0] == (StatusAction::QueryInput {
                session_path: ev.path,
                config_path: path,
                config_name: name,
            })
            &&& ev.major == 3 ==> done[0] == (StatusAction::RequestCredentials {
                session_path: ev.path,
                config_path: path,
                config_name: name,
            })
            &&& n.user_disconnected == m.user_disconnected
            &&& n.auth_retry == m.auth_retry
            &&& n.attempts == m.attempts
            &&& n.recent_destroyed == m.recent_destroyed
            &&& n.timeouts == m.timeouts
            &&& n.reconnects == m.reconnects
            &&& n.tray.sessions.dom() == m.tray.sessions.dom()
        }),
{
    law_status_numbers(ev.major, ev.minor);
    assert(status_state(m, ev).tray.sessions.dom() =~= m.tray.sessions.dom());
}

/// What a report that is neither a request nor an error does to the registers:
/// connecting for good starts the configuration's login budget over, a
/// disconnected session's configuration is remembered, and the marks of the
/// sessions stay.
pub proof fn law_what_a_change_leaves_behind(
    m: RegistersModel,
    ev: StatusEvent<Seq<char>>,
    id: Seq<char>,
)
    requires
        is_news(m, ev),
        ev.major != 1,
        ev.major == 2 ==> ev.minor != 4 && ev.minor != 10 && ev.minor != 11,
        ev.major == 3 ==> ev.minor != 20 && ev.minor != 21 && ev.minor != 22,
        ev.major == 5 ==> ev.minor != 29,
    ensures
        ({
            let n = status_state(m, ev);
            let known = m.tray.sessions.contains_key(ev.path);
            let was = m.tray.sessions[ev.path];
            let s = n.tray.sessions[ev.path];
            let connected = ev.major == 2 && ev.minor == 7;
            let gone = ev.major == 2 && (ev.minor == 9 || ev.minor == 16);
            &&& n.attempts.contains_key(id) <==> m.attempts.contains_key(id) && !(connected
                && known && was.config_path == id && id.len() > 0)
            &&& n.attempts.contains_key(id) ==> n.attempts[id] == m.attempts[id]
            &&& n.recent_destroyed == (if gone && known && was.config_path.len() > 0 {
                m.recent_destroyed.insert(ev.path, (was.config_path, was.config_name))
            } else {
                m.recent_destroyed
            })
            &&& n.user_disconnected == m.user_disconnected
            &&& n.auth_retry == m.auth_retry
            &&& n.reconnects == m.reconnects
            &&& n.tray.sessions.dom() == m.tray.sessions.dom().insert(ev.path)
            &&& known ==> s.connected_at == (if connected && was.connected_at is None {
                Some(ev.now)
            } else {
                was.connected_at
            })
            &&& !known ==> {
                &&& s.session_path == ev.path
                &&& s.config_path.len() == 0
                &&& s.config_name == "VPN Connection"@
                &&& s.connected_at is None
                &&& s.bytes_in == 0 && s.bytes_out == 0
                &&& s.last_bytes_in == 0 && s.last_bytes_out == 0
                &&& s.idle_started_at is None && s.idle_since is None
                &&& s.auto_reconnect_attempted_at is None
                &&& !s.kill_switch_active
            }
        }),
{
    law_status_numbers(ev.major, ev.minor);
    assert(status_state(m, ev).tray.sessions.dom() =~= m.tray.sessions.dom().insert(ev.path));
}

/// A change of status is told unless a known session's description stays the
/// same; what is told names the session and ends with the new description.
pub proof fn law_changed_descriptions_are_told(
    previous: Option<(Seq<char>, Seq<char>)>,
    new_desc: Seq<char>,
)
    ensures
        ({
            let told = announcement(previous, new_desc);
            &&& told is None <==> (previous matches Some((_, prev)) && prev == new_desc)
            &&& previous is None ==> told == Some(("VPN Connection"@, new_desc))
            &&& told is Some ==> (told->0).1.len() >= new_desc.len() && (told->0).1.skip(
                (told->0).1.len() - new_desc.len(),
            ) == new_desc
            &&& told is Some && previous is Some ==> {
                let name = (previous->0).0;
                let prev = (previous->0).1;
                &&& (told->0).0 == name
                &&& starts_with_spec((told->0).1, name)
                &&& has_substring((told->0).1, prev)
            }
        }),
{
    let told = announcement(previous, new_desc);
    if told is Some {
        let body = (told->0).1;
        assert(body.skip(body.len() - new_desc.len()) =~= new_desc);
        if previous is Some {
            let name = (previous->0).0;
            let prev = (previous->0).1;
            reveal_strlit(": Status change from ");
            assert(body.take(name.len() as int) =~= name);
            let at = 21int + name.len();
            assert(body.subrange(at, at + prev.len()) =~= prev);
            assert(occurs_at(body, prev, at));
        }
    }
}

/// What a session tells of its configuration is taken over just when nothing
/// was known of it; nothing but path and name is touched.
pub proof fn law_backfill_fills_gaps_only(
    s: SessionInfo<Seq<char>>,
    config_path: Option<Seq<char>>,
    config_name: Option<Seq<char>>,
)
    ensures
        ({
            let after = backfilled(s, config_path, config_name);
            &&& s.config_path.len() > 0 ==> after == s
            &&& s.config_path.len() == 0 && config_path is Some ==> after.config_path
                == config_path->0
            &&& s.config_path.len() == 0 && config_name is Some ==> after.config_name
                == config_name->0
            &&& config_path is None ==> after.config_path == s.config_path
            &&& config_name is None ==> after.config_name == s.config_name
            &&& after == SessionInfo {
                config_path: after.config_path,
                config_name: after.config_name,
                ..s
            }
        }),
{
}

/// A report on the bus is a signal from the backend's interface, whoever else
/// sends something of that name.
pub proof fn law_reports_come_from_the_backend(
    msg_type: MessageType,
    interface: Option<String>,
    member: Option<String>,
)
    ensures
        from_backend(msg_type, interface, member) <==> {
            &&& msg_type == MessageType::Signal
            &&& interface is Some && interface->0@ == "net.openvpn.v3.backends"@
            &&& member is Some && member->0@ == "StatusChange"@
        },
{
}

/// A session that asks for a login in the browser is answered with its
/// address, which is opened just when it is a web address; the user is told
/// while notifications are on.
pub proof fn law_browser_login(
    m: RegistersModel,
    ev: StatusEvent<Seq<char>>,
    settings: Settings,
)
    requires
        ev.major == 3 && ev.minor == 22,
    ensures
        ({
            let done = status_actions(m, ev, settings);
            let web = trimmed(ev.message).len() > 0 && ev.uri_scheme is Some && (ascii_lowered(
                ev.uri_scheme->0,
            ) == "http"@ || ascii_lowered(ev.uri_scheme->0) == "https"@);
            let name = if m.tray.sessions.contains_key(ev.path) {
                m.tray.sessions[ev.path].config_name
            } else {
                "VPN Connection"@
            };
            &&& done.len() == 1
            &&& done[0] is BrowserAuth
            &&& done[0]->launch == (if web {
                Some(trimmed(ev.message))
            } else {
                None
            })
            &&& done[0]->notice is Some <==> settings.show_notifications_spec()
            &&& done[0]->notice matches Some(toast) ==> {
                &&& starts_with_spec(toast.summary, name)
                &&& has_substring(toast.body, trimmed(ev.message))
                &&& toast.urgency == 1
            }
        }),
{
    law_status_numbers(ev.major, ev.minor);
    law_what_is_opened_and_shown(ev.message, ev.uri_scheme);
    let name = identity_of(m.tray.sessions, ev.path).0;
    law_text_starts_with_its_front(name, ": Browser Authentication Required"@);
}

/// A report on one session leaves the last numbers, the watch and the marks of
/// every other session alone.
pub proof fn law_report_spares_other_sessions(
    m: RegistersModel,
    ev: StatusEvent<Seq<char>>,
    p: Seq<char>,
)
    requires
        p != ev.path,
    ensures
        ({
            let n = status_state(m, ev);
            &&& n.last_signal.contains_key(p) == m.last_signal.contains_key(p)
            &&& n.last_signal[p] == m.last_signal[p]
            &&& n.timeouts.contains_key(p) == m.timeouts.contains_key(p)
            &&& n.timeouts[p] == m.timeouts[p]
            &&& n.user_disconnected.contains(p) == m.user_disconnected.contains(p)
            &&& n.auth_retry.contains(p) == m.auth_retry.contains(p)
            &&& n.recent_destroyed.contains_key(p) == m.recent_destroyed.contains_key(p)
            &&& n.recent_destroyed[p] == m.recent_destroyed[p]
            &&& n.tray.sessions.contains_key(p) == m.tray.sessions.contains_key(p)
            &&& n.tray.sessions[p] == m.tray.sessions[p]
            &&& n.reconnects == m.reconnects
        }),
{
}

/// The warning of a timeout watch names the session's configuration.
pub proof fn law_timeout_warning_names_the_config(config_name: Seq<char>)
    ensures
        starts_with_spec(timeout_toast(config_name).summary, config_name),
        has_substring(timeout_toast(config_name).body, config_name),
        timeout_toast(config_name).urgency == 2,
{
    law_text_starts_with_its_front(config_name, ": Still Connecting"@);
    law_part_occurs_in_the_whole(
        "Connection to '"@,
        config_name,
        "' is taking longer than expected. You can disconnect and try again."@,
    );
}

/// The kinds of errors, by the numbers of the report.
pub proof fn law_errors_by_number(major: u32, minor: u32)
    ensures
        ({
            let kind = error_action(SessionStatus { major: major_of(major), minor: minor_of(minor) });
            &&& kind == ErrorAction::AuthFailed <==> major == 2 && minor == 11
            &&& kind == ErrorAction::ConnFailed <==> major == 2 && minor == 10
            &&& kind == ErrorAction::SessionError <==> major == 1 || major == 5 && minor == 29
        }),
{
    law_status_numbers(major, minor);
}

/// The watches of a session are numbered from one on, each one higher than the
/// one before, and from zero again behind the highest number.
pub proof fn law_watches_are_numbered(timeouts: Map<Seq<char>, u64>, path: Seq<char>)
    ensures
        !timeouts.contains_key(path) ==> next_generation(timeouts, path) == 1,
        timeouts.contains_key(path) && timeouts[path] < u64::MAX ==> next_generation(timeouts, path)
            == timeouts[path] + 1,
        timeouts.contains_key(path) && timeouts[path] == u64::MAX ==> next_generation(
            timeouts,
            path,
        ) == 0,
{
}

/// A report that is taken in changes a known session only as its new status
/// does, and by the time of its connection.
pub proof fn law_report_changes_only_the_status(m: RegistersModel, ev: StatusEvent<Seq<char>>)
    requires
        m.tray.sessions.contains_key(ev.path),
        taken_in(m, ev),
    ensures
        ({
            let after = status_state(m, ev).tray.sessions[ev.path];
            after == SessionInfo {
                connected_at: after.connected_at,
                ..transitioned(m.tray.sessions[ev.path], ev.status())
            }
        }),
        !(ev.major == 2 && ev.minor == 7) ==> status_state(m, ev).tray.sessions[ev.path].connected_at
            == m.tray.sessions[ev.path].connected_at,
{
    law_status_numbers(ev.major, ev.minor);
}

/// What is told of a failed login names the configuration, whether it is tried
/// again or given up, and is critical where it is a notification.
pub proof fn law_failed_login_is_told(m: RegistersModel, path: Seq<char>, now: Moment)
    ensures
        ({
            let first = auth_failed_actions(m, path, now)[0];
            let name = if m.tray.sessions.contains_key(path) {
                m.tray.sessions[path].config_name
            } else {
                "VPN Connection"@
            };
            &&& first matches StatusAction::Notify { toast } ==> {
                &&& starts_with_spec(toast.summary, name)
                &&& has_substring(toast.body, name)
                &&& toast.urgency == 2
            }
            &&& first is Notify || first is DisconnectWithMessage && has_substring(
                first->body,
                name,
            )
        }),
{
    let name = identity_of(m.tray.sessions, path).0;
    law_text_starts_with_its_front(name, ": Authentication Failed"@);
    law_part_occurs_in_the_whole("Wrong credentials for '"@, name, "'. Retrying..."@);
    law_part_occurs_in_the_whole(
        "Too many failed attempts for '"@,
        name,
        "'. Session disconnected."@,
    );
}

/// Three failed logins in a row, none more than five minutes after the one
/// before, end a session: the first two are tried again, the third is not.
pub proof fn law_third_failure_ends_the_session(
    m: RegistersModel,
    path: Seq<char>,
    first: Moment,
    second: Moment,
    third: Moment,
)
    requires
        m.valid(),
        m.tray.sessions.contains_key(path),
        m.tray.sessions[path].config_path.len() > 0,
        !m.attempts.contains_key(m.tray.sessions[path].config_path),
        second.nanos < first.nanos + 301_000_000_000,
        third.nanos < second.nanos + 301_000_000_000,
    ensures
        ({
            let a = auth_failed_state(m, path, first);
            let b = auth_failed_state(a, path, second);
            &&& auth_failed_actions(m, path, first).last() is RetryTunnel
            &&& auth_failed_actions(a, path, second).last() is RetryTunnel
            &&& auth_failed_actions(b, path, third).last() is DisconnectWithMessage
        }),
{
    let id = m.tray.sessions[path].config_path;
    let a = auth_failed_state(m, path, first);
    let b = auth_failed_state(a, path, second);
    law_failures_are_numbered(m.attempts, first, id);
    law_failures_are_remembered(m.attempts, first, id, id);
    law_failures_are_numbered(a.attempts, second, id);
    law_failed_login_is_retried_or_given_up(m, path, first);
    law_failures_are_remembered(a.attempts, second, id, id);
    law_failures_are_numbered(b.attempts, third, id);
}

} // verus!
