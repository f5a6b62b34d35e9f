//! What a session that waits for the user asks for, and what is done with an
//! authentication address that the server sends.
use vstd::prelude::*;
use vstd::string::*;

use crate::notify::{plain_toast, show_info_notification, shown, Toast};
use crate::protocol::{law_status_numbers, major_of, minor_of, SessionStatus};
use crate::settings::Settings;
use crate::text::{
    ascii_lowered, has_substring, law_part_occurs_in_the_whole, occurs_at, opt_text, same,
    to_ascii_lowercase, trim, trimmed,
};

verus! {

/// What a waiting session asks for.
#[derive(Clone, Copy, Debug, PartialEq, Eq, Structural)]
pub enum AuthRequest {
    /// Some input; the session's queue tells which.
    UserInput,
    /// The credentials dialog, for user name and password or a challenge.
    Credentials,
    /// A login in the browser.
    Url,
}

pub open spec fn request_of(status: SessionStatus) -> Option<AuthRequest> {
    if status.user_input() {
        Some(AuthRequest::UserInput)
    } else if status.credentials() {
        Some(AuthRequest::Credentials)
    } else if status.url_auth() {
        Some(AuthRequest::Url)
    } else if status.challenge() {
        Some(AuthRequest::Credentials)
    } else {
        None
    }
}

/// What a session with this status asks for, if it waits for the user.
pub fn auth_request(status: &SessionStatus) -> (r: Option<AuthRequest>)
    ensures
        r == request_of(*status),
        r is Some == status.auth_request(),
{
    if status.needs_user_input() {
        Some(AuthRequest::UserInput)
    } else if status.needs_credentials() {
        Some(AuthRequest::Credentials)
    } else if status.needs_url_auth() {
        Some(AuthRequest::Url)
    } else if status.needs_challenge() {
        Some(AuthRequest::Credentials)
    } else {
        None
    }
}

/// What an authentication address is worth.
#[derive(Clone, Copy, Debug, PartialEq, Eq, Structural)]
pub enum AuthUriVerdict {
    /// There is none.
    Empty,
    /// A web address, which may be opened.
    Launchable,
    /// Anything else, which is only shown.
    Blocked,
}

pub open spec fn web_scheme(scheme: Option<Seq<char>>) -> bool {
    scheme is Some && (ascii_lowered(scheme->0) == "http"@ || ascii_lowered(scheme->0)
        == "https"@)
}

pub open spec fn uri_verdict(message: Seq<char>, scheme: Option<Seq<char>>) -> AuthUriVerdict {
    if trimmed(message).len() == 0 {
        AuthUriVerdict::Empty
    } else if web_scheme(scheme) {
        AuthUriVerdict::Launchable
    } else {
        AuthUriVerdict::Blocked
    }
}

/// Judges the address that the server sent as `message`. `scheme` is the URI
/// scheme that the trimmed message starts with, if it starts with one. Only
/// the web's schemes, in any case, may be opened.
pub fn classify_auth_uri(message: &str, scheme: &Option<String>) -> (r: AuthUriVerdict)
    ensures
        r == uri_verdict(message@, opt_text(*scheme)),
{
    let t = trim(message);
    if t.as_str().is_empty() {
        return AuthUriVerdict::Empty;
    }
    match scheme {
        Some(s) => {
            let lower = to_ascii_lowercase(s.as_str());
            if same(lower.as_str(), "http") || same(lower.as_str(), "https") {
                AuthUriVerdict::Launchable
            } else {
                AuthUriVerdict::Blocked
            }
        },
        None => AuthUriVerdict::Blocked,
    }
}

pub open spec fn url_body(message: Seq<char>, scheme: Option<Seq<char>>) -> Seq<char> {
    match uri_verdict(message, scheme) {
        AuthUriVerdict::Empty => "Please complete authentication in your browser."@,
        AuthUriVerdict::Launchable => "Opening browser for authentication:\n"@ + trimmed(message),
        AuthUriVerdict::Blocked =>
            "The VPN server sent an authentication address that is not a web link, so it was not opened:\n"@
            + trimmed(message),
    }
}

pub open spec fn url_title(config_name: Seq<char>) -> Seq<char> {
    config_name + ": Browser Authentication Required"@
}

/// The notification about a login in the browser, unless notifications are
/// off, and the address to open, if it is a web address.
pub fn browser_auth(
    settings: &Settings,
    config_name: &str,
    message: &str,
    scheme: &Option<String>,
) -> (r: (Option<Toast>, Option<String>))
    ensures
        shown(
            r.0,
            settings.show_notifications_spec(),
            plain_toast(url_title(config_name@), url_body(message@, opt_text(*scheme)), 1),
        ),
        opt_text(r.1) == (if uri_verdict(message@, opt_text(*scheme))
            == AuthUriVerdict::Launchable {
            Some(trimmed(message@))
        } else {
            None
        }),
{
    let url = trim(message);
    let verdict = classify_auth_uri(message, scheme);
    let mut body = match verdict {
        AuthUriVerdict::Empty => "Please complete authentication in your browser.".to_owned(),
        AuthUriVerdict::Launchable => "Opening browser for authentication:\n".to_owned(),
        AuthUriVerdict::Blocked =>
            "The VPN server sent an authentication address that is not a web link, so it was not opened:\n".to_owned(),
    };
    match verdict {
        AuthUriVerdict::Empty => {},
        _ => {
            body.append(url.as_str());
        },
    }
    let mut title = config_name.to_owned();
    title.append(": Browser Authentication Required");
    let toast = show_info_notification(settings, title.as_str(), body.as_str());
    let launch = match verdict {
        AuthUriVerdict::Launchable => Some(url),
        _ => None,
    };
    (toast, launch)
}

/// Nothing but an address with a web scheme is ever opened.
pub proof fn law_only_web_addresses_are_opened(message: Seq<char>, scheme: Option<Seq<char>>)
    ensures
        uri_verdict(message, scheme) == AuthUriVerdict::Launchable ==> web_scheme(scheme)
            && trimmed(message).len() > 0,
        scheme is None ==> uri_verdict(message, scheme) != AuthUriVerdict::Launchable,
{
}

/// What a session asks for, by the numbers of its report.
pub proof fn law_requests_by_number(major: u32, minor: u32)
    ensures
        ({
            let asked = request_of(
                SessionStatus { major: major_of(major), minor: minor_of(minor) },
            );
            &&& asked == Some(AuthRequest::UserInput) <==> major == 2 && minor == 4
            &&& asked == Some(AuthRequest::Credentials) <==> major == 3 && (minor == 20 || minor
                == 21)
            &&& asked == Some(AuthRequest::Url) <==> major == 3 && minor == 22
            &&& asked is None <==> !(major == 2 && minor == 4) && !(major == 3 && 20 <= minor
                <= 22)
        }),
{
    law_status_numbers(major, minor);
}

/// An address is opened just when there is one and its scheme is one of the
/// web's two, in whatever case; an address that is not opened is still shown.
pub proof fn law_what_is_opened_and_shown(message: Seq<char>, scheme: Option<Seq<char>>)
    ensures
        uri_verdict(message, scheme) == AuthUriVerdict::Launchable <==> {
            &&& trimmed(message).len() > 0
            &&& scheme is Some
            &&& ascii_lowered(scheme->0) == "http"@ || ascii_lowered(scheme->0) == "https"@
        },
        uri_verdict(message, scheme) == AuthUriVerdict::Empty <==> trimmed(message).len() == 0,
        has_substring(url_body(message, scheme), trimmed(message)),
        uri_verdict(message, scheme) == AuthUriVerdict::Launchable <==> trimmed(message).len() > 0
            && url_body(message, scheme) == "Opening browser for authentication:\n"@ + trimmed(
            message,
        ),
{
    let t = trimmed(message);
    let a = "Opening browser for authentication:\n"@;
    let b =
        "The VPN server sent an authentication address that is not a web link, so it was not opened:\n"@;
    law_part_occurs_in_the_whole(a, t, Seq::empty());
    law_part_occurs_in_the_whole(b, t, Seq::empty());
    assert(a + t + Seq::empty() =~= a + t);
    assert(b + t + Seq::empty() =~= b + t);
    reveal_strlit("Opening browser for authentication:\n");
    reveal_strlit(
        "The VPN server sent an authentication address that is not a web link, so it was not opened:\n",
    );
    assert((a + t).len() != (b + t).len());
    if t.len() == 0 {
        let body = url_body(message, scheme);
        assert(body.subrange(0, 0int + t.len()) =~= t);
        assert(occurs_at(body, t, 0));
    }
}

/// The scheme's case does not matter.
pub proof fn law_scheme_in_any_case(message: Seq<char>, a: Seq<char>, b: Seq<char>)
    requires
        ascii_lowered(a) == ascii_lowered(b),
    ensures
        uri_verdict(message, Some(a)) == uri_verdict(message, Some(b)),
{
}

} // verus!
