//! Numbers of the OpenVPN 3 message-bus protocol, decoded: session statuses,
//! manager events, attention types and the kinds of bus messages.
use vstd::prelude::*;

verus! {

/// The area that a session status speaks of.
#[derive(Clone, Copy, Debug, PartialEq, Eq, Structural)]
pub enum StatusMajor {
    Unset,
    CfgError,
    Connection,
    Session,
    Pkcs11,
    Process,
}

/// The event within the area.
#[derive(Clone, Copy, Debug, PartialEq, Eq, Structural)]
pub enum StatusMinor {
    Unset,
    CfgError,
    CfgOk,
    CfgInlineMissing,
    CfgRequireUser,
    ConnInit,
    ConnConnecting,
    ConnConnected,
    ConnDisconnecting,
    ConnDisconnected,
    ConnFailed,
    ConnAuthFailed,
    ConnReconnecting,
    ConnPausing,
    ConnPaused,
    ConnResuming,
    ConnDone,
    SessNew,
    SessBackendCompleted,
    SessRemoved,
    SessAuthUserpass,
    SessAuthChallenge,
    SessAuthUrl,
    Pkcs11Sign,
    Pkcs11Encrypt,
    Pkcs11Decrypt,
    Pkcs11Verify,
    ProcStarted,
    ProcStopped,
    ProcKilled,
}

pub open spec fn major_of(n: u32) -> StatusMajor {
    if n == 1 {
        StatusMajor::CfgError
    } else if n == 2 {
        StatusMajor::Connection
    } else if n == 3 {
        StatusMajor::Session
    } else if n == 4 {
        StatusMajor::Pkcs11
    } else if n == 5 {
        StatusMajor::Process
    } else {
        StatusMajor::Unset
    }
}

/// The minor statuses in the order of their numbers.
pub open spec fn minor_table() -> Seq<StatusMinor> {
    seq![
        StatusMinor::Unset,
        StatusMinor::CfgError,
        StatusMinor::CfgOk,
        StatusMinor::CfgInlineMissing,
        StatusMinor::CfgRequireUser,
        StatusMinor::ConnInit,
        StatusMinor::ConnConnecting,
        StatusMinor::ConnConnected,
        StatusMinor::ConnDisconnecting,
        StatusMinor::ConnDisconnected,
        StatusMinor::ConnFailed,
        StatusMinor::ConnAuthFailed,
        StatusMinor::ConnReconnecting,
        StatusMinor::ConnPausing,
        StatusMinor::ConnPaused,
        StatusMinor::ConnResuming,
        StatusMinor::ConnDone,
        StatusMinor::SessNew,
        StatusMinor::SessBackendCompleted,
        StatusMinor::SessRemoved,
        StatusMinor::SessAuthUserpass,
        StatusMinor::SessAuthChallenge,
        StatusMinor::SessAuthUrl,
        StatusMinor::Pkcs11Sign,
        StatusMinor::Pkcs11Encrypt,
        StatusMinor::Pkcs11Decrypt,
        StatusMinor::Pkcs11Verify,
        StatusMinor::ProcStarted,
        StatusMinor::ProcStopped,
        StatusMinor::ProcKilled,
    ]
}

pub open spec fn minor_of(n: u32) -> StatusMinor {
    if n < minor_table().len() {
        minor_table()[n as int]
    } else {
        StatusMinor::Unset
    }
}

fn decode_major(n: u32) -> (r: StatusMajor)
    ensures
        r == major_of(n),
{
    match n {
        1 => StatusMajor::CfgError,
        2 => StatusMajor::Connection,
        3 => StatusMajor::Session,
        4 => StatusMajor::Pkcs11,
        5 => StatusMajor::Process,
        _ => StatusMajor::Unset,
    }
}

fn decode_minor(n: u32) -> (r: StatusMinor)
    ensures
        r == minor_of(n),
{
    match n {
        1 => StatusMinor::CfgError,
        2 => StatusMinor::CfgOk,
        3 => StatusMinor::CfgInlineMissing,
        4 => StatusMinor::CfgRequireUser,
        5 => StatusMinor::ConnInit,
        6 => StatusMinor::ConnConnecting,
        7 => StatusMinor::ConnConnected,
        8 => StatusMinor::ConnDisconnecting,
        9 => StatusMinor::ConnDisconnected,
        10 => StatusMinor::ConnFailed,
        11 => StatusMinor::ConnAuthFailed,
        12 => StatusMinor::ConnReconnecting,
        13 => StatusMinor::ConnPausing,
        14 => StatusMinor::ConnPaused,
        15 => StatusMinor::ConnResuming,
        16 => StatusMinor::ConnDone,
        17 => StatusMinor::SessNew,
        18 => StatusMinor::SessBackendCompleted,
        19 => StatusMinor::SessRemoved,
        20 => StatusMinor::SessAuthUserpass,
        21 => StatusMinor::SessAuthChallenge,
        22 => StatusMinor::SessAuthUrl,
        23 => StatusMinor::Pkcs11Sign,
        24 => StatusMinor::Pkcs11Encrypt,
        25 => StatusMinor::Pkcs11Decrypt,
        26 => StatusMinor::Pkcs11Verify,
        27 => StatusMinor::ProcStarted,
        28 => StatusMinor::ProcStopped,
        29 => StatusMinor::ProcKilled,
        _ => StatusMinor::Unset,
    }
}

/// Where a session stands.
#[derive(Clone, Copy, Debug, PartialEq, Eq, Structural)]
pub struct SessionStatus {
    pub major: StatusMajor,
    pub minor: StatusMinor,
}

impl SessionStatus {
    pub open spec fn connected(self) -> bool {
        self.major == StatusMajor::Connection && self.minor == StatusMinor::ConnConnected
    }

    pub open spec fn paused(self) -> bool {
        self.major == StatusMajor::Connection && self.minor == StatusMinor::ConnPaused
    }

    pub open spec fn connecting(self) -> bool {
        self.major == StatusMajor::Connection && self.minor == StatusMinor::ConnConnecting
    }

    pub open spec fn disconnected(self) -> bool {
        self.major == StatusMajor::Connection && (self.minor == StatusMinor::ConnDisconnected
            || self.minor == StatusMinor::ConnDone)
    }

    pub open spec fn auth_failed(self) -> bool {
        self.major == StatusMajor::Connection && self.minor == StatusMinor::ConnAuthFailed
    }

    pub open spec fn conn_failed(self) -> bool {
        self.major == StatusMajor::Connection && self.minor == StatusMinor::ConnFailed
    }

    pub open spec fn error(self) -> bool {
        ||| self.major == StatusMajor::CfgError
        ||| self.auth_failed()
        ||| self.conn_failed()
        ||| self.major == StatusMajor::Process && self.minor == StatusMinor::ProcKilled
    }

    pub open spec fn user_input(self) -> bool {
        self.major == StatusMajor::Connection && self.minor == StatusMinor::CfgRequireUser
    }

    pub open spec fn credentials(self) -> bool {
        self.major == StatusMajor::Session && self.minor == StatusMinor::SessAuthUserpass
    }

    pub open spec fn challenge(self) -> bool {
        self.major == StatusMajor::Session && self.minor == StatusMinor::SessAuthChallenge
    }

    pub open spec fn url_auth(self) -> bool {
        self.major == StatusMajor::Session && self.minor == StatusMinor::SessAuthUrl
    }

    /// The session waits for something from the user.
    pub open spec fn auth_request(self) -> bool {
        self.user_input() || self.credentials() || self.url_auth() || self.challenge()
    }

    /// Decodes the two numbers of a status report; the report's text is not
    /// part of the status.
    pub fn new(major: u32, minor: u32, message: String) -> (r: Self)
        ensures
            r.major == major_of(major),
            r.minor == minor_of(minor),
    {
        SessionStatus { major: decode_major(major), minor: decode_minor(minor) }
    }

    pub fn is_connected(&self) -> (r: bool)
        ensures
            r == self.connected(),
    {
        self.major == StatusMajor::Connection && self.minor == StatusMinor::ConnConnected
    }

    pub fn is_paused(&self) -> (r: bool)
        ensures
            r == self.paused(),
    {
        self.major == StatusMajor::Connection && self.minor == StatusMinor::ConnPaused
    }

    pub fn is_connecting(&self) -> (r: bool)
        ensures
            r == self.connecting(),
    {
        self.major == StatusMajor::Connection && self.minor == StatusMinor::ConnConnecting
    }

    pub fn is_disconnected(&self) -> (r: bool)
        ensures
            r == self.disconnected(),
    {
        self.major == StatusMajor::Connection && (self.minor == StatusMinor::ConnDisconnected
            || self.minor == StatusMinor::ConnDone)
    }

    pub fn is_error(&self) -> (r: bool)
        ensures
            r == self.error(),
    {
        self.major == StatusMajor::CfgError || self.major == StatusMajor::Connection && (self.minor
            == StatusMinor::ConnAuthFailed || self.minor == StatusMinor::ConnFailed) || self.major
            == StatusMajor::Process && self.minor == StatusMinor::ProcKilled
    }

    pub fn needs_user_input(&self) -> (r: bool)
        ensures
            r == self.user_input(),
    {
        self.major == StatusMajor::Connection && self.minor == StatusMinor::CfgRequireUser
    }

    pub fn needs_credentials(&self) -> (r: bool)
        ensures
            r == self.credentials(),
    {
        self.major == StatusMajor::Session && self.minor == StatusMinor::SessAuthUserpass
    }

    pub fn needs_challenge(&self) -> (r: bool)
        ensures
            r == self.challenge(),
    {
        self.major == StatusMajor::Session && self.minor == StatusMinor::SessAuthChallenge
    }

    pub fn needs_url_auth(&self) -> (r: bool)
        ensures
            r == self.url_auth(),
    {
        self.major == StatusMajor::Session && self.minor == StatusMinor::SessAuthUrl
    }

    pub fn is_auth_request(&self) -> (r: bool)
        ensures
            r == self.auth_request(),
    {
        self.needs_user_input() || self.needs_credentials() || self.needs_url_auth()
            || self.needs_challenge()
    }
}

/// The kinds of messages on the bus.
#[derive(Clone, Copy, Debug, PartialEq, Eq, Structural)]
pub enum MessageType {
    MethodCall,
    MethodReturn,
    Error,
    Signal,
}

/// What the session manager announces about a session.
#[derive(Clone, Copy, Debug, PartialEq, Eq, Structural)]
pub enum SessionManagerEventType {
    SessCreated,
    SessDestroyed,
}

pub open spec fn event_of(n: u16) -> Option<SessionManagerEventType> {
    if n == 1 {
        Some(SessionManagerEventType::SessCreated)
    } else if n == 2 {
        Some(SessionManagerEventType::SessDestroyed)
    } else {
        None
    }
}

impl SessionManagerEventType {
    /// Decodes the event number; other numbers announce nothing of interest.
    pub fn from_number(n: u16) -> (r: Option<SessionManagerEventType>)
        ensures
            r == event_of(n),
    {
        match n {
            1 => Some(SessionManagerEventType::SessCreated),
            2 => Some(SessionManagerEventType::SessDestroyed),
            _ => None,
        }
    }
}

/// The attention type of the input queue under which user name, password and
/// challenge slots stand.
pub const ATTENTION_CREDENTIALS: u32 = 1;

/// The statuses that the program acts on, each by the two numbers that it is
/// reported with; no other numbers stand for it.
pub proof fn law_status_numbers(major: u32, minor: u32)
    ensures
        ({
            let s = SessionStatus { major: major_of(major), minor: minor_of(minor) };
            &&& s.connecting() <==> major == 2 && minor == 6
            &&& s.connected() <==> major == 2 && minor == 7
            &&& s.paused() <==> major == 2 && minor == 14
            &&& s.disconnected() <==> major == 2 && (minor == 9 || minor == 16)
            &&& s.conn_failed() <==> major == 2 && minor == 10
            &&& s.auth_failed() <==> major == 2 && minor == 11
            &&& s.error() <==> major == 1 || major == 2 && (minor == 10 || minor == 11) || major == 5
                && minor == 29
            &&& s.user_input() <==> major == 2 && minor == 4
            &&& s.credentials() <==> major == 3 && minor == 20
            &&& s.challenge() <==> major == 3 && minor == 21
            &&& s.url_auth() <==> major == 3 && minor == 22
            &&& s.auth_request() <==> major == 2 && minor == 4 || major == 3 && (minor == 20
                || minor == 21 || minor == 22)
        }),
{
}

/// Different numbers of known events stand for different events, and every
/// number that is not known stands for none.
pub proof fn law_decoding_is_one_to_one(a: u32, b: u32)
    ensures
        a <= 5 && b <= 5 && major_of(a) == major_of(b) ==> a == b,
        a <= 29 && b <= 29 && minor_of(a) == minor_of(b) ==> a == b,
        major_of(a) == StatusMajor::Unset <==> a == 0 || a > 5,
        minor_of(a) == StatusMinor::Unset <==> a == 0 || a > 29,
{
}

/// The manager announces the birth of a session by one and its end by two, and
/// nothing of interest by any other number.
pub proof fn law_manager_events(n: u16)
    ensures
        event_of(n) == Some(SessionManagerEventType::SessCreated) <==> n == 1,
        event_of(n) == Some(SessionManagerEventType::SessDestroyed) <==> n == 2,
        event_of(n) is None <==> n != 1 && n != 2,
{
}

} // verus!
