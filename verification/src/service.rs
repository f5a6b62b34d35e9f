//! The services on the bus: when one comes up or goes down.
use vstd::prelude::*;
use vstd::string::*;

use crate::config::{OPENVPN3_SERVICE, OPENVPN3_SESSIONS_SERVICE};
use crate::notify::{
    is_text, plain_toast, show_info_notification, show_killswitch_inactive_notification, shown,
    state_toast, text_is, Toast, EXPIRE_DEFAULT, KILLSWITCH_STATE_KEY,
};
use crate::protocol::MessageType;
use crate::settings::Settings;
use crate::text::same;
use crate::tray::{BypassState, ConfigInfo, TrayModel, VpnTray};

verus! {

/// Whether the change of owner means that the service `expected` came up.
pub fn is_service_appeared(name: &str, expected: &str, old_owner: &str, new_owner: &str) -> (r:
    bool)
    ensures
        r == (name@ == expected@ && old_owner@.len() == 0 && new_owner@.len() > 0),
{
    same(name, expected) && old_owner.is_empty() && !new_owner.is_empty()
}

/// Whether the change of owner means that the service `expected` went down.
pub fn is_service_lost(name: &str, expected: &str, old_owner: &str, new_owner: &str) -> (r: bool)
    ensures
        r == (name@ == expected@ && old_owner@.len() > 0 && new_owner@.len() == 0),
{
    same(name, expected) && !old_owner.is_empty() && new_owner.is_empty()
}

/// What a change of owner means.
#[derive(Clone, Copy, Debug, PartialEq, Eq, Structural)]
pub enum ServiceNews {
    /// The configuration manager came up: start over.
    ConfigAppeared,
    /// The session manager went down: its sessions are gone.
    SessionsLost,
    Nothing,
}

/// What the change of the owner of `name` means.
pub open spec fn owner_news(
    name: Seq<char>,
    old_owner: Seq<char>,
    new_owner: Seq<char>,
) -> ServiceNews {
    if name == OPENVPN3_SERVICE@ && old_owner.len() == 0 && new_owner.len() > 0 {
        ServiceNews::ConfigAppeared
    } else if name == OPENVPN3_SESSIONS_SERVICE@ && old_owner.len() > 0 && new_owner.len() == 0 {
        ServiceNews::SessionsLost
    } else {
        ServiceNews::Nothing
    }
}

/// What the change of the owner of `name` means.
pub fn service_news(name: &str, old_owner: &str, new_owner: &str) -> (r: ServiceNews)
    ensures
        r == (if name@ == OPENVPN3_SERVICE@ && old_owner@.len() == 0 && new_owner@.len() > 0 {
            ServiceNews::ConfigAppeared
        } else if name@ == OPENVPN3_SESSIONS_SERVICE@ && old_owner@.len() > 0 && new_owner@.len()
            == 0 {
            ServiceNews::SessionsLost
        } else {
            ServiceNews::Nothing
        }),
        r == owner_news(name@, old_owner@, new_owner@),
{
    if is_service_appeared(name, OPENVPN3_SERVICE, old_owner, new_owner) {
        ServiceNews::ConfigAppeared
    } else if is_service_lost(name, OPENVPN3_SESSIONS_SERVICE, old_owner, new_owner) {
        ServiceNews::SessionsLost
    } else {
        ServiceNews::Nothing
    }
}

/// The three texts of a change of owner, if the message is one. `body` is what
/// the message's body reads as, if it reads as three texts.
pub fn parse_name_owner_changed(
    msg_type: MessageType,
    member: &Option<String>,
    body: Option<(String, String, String)>,
) -> (r: Option<(String, String, String)>)
    ensures
        r == (if msg_type == MessageType::Signal && text_is(*member, "NameOwnerChanged"@) {
            body
        } else {
            None
        }),
{
    if msg_type == MessageType::Signal && is_text(member, "NameOwnerChanged") {
        body
    } else {
        None
    }
}

/// What is done with an item of the message stream.
#[derive(Debug)]
pub enum StreamItem<M, E> {
    /// Look at the message.
    Deliver(M),
    /// Skip the error and go on.
    SkipTransientError(E),
}

/// Sorts an item of the message stream. No item ends the watch.
pub fn classify_stream_item<M, E>(item: Result<M, E>) -> (r: StreamItem<M, E>)
    ensures
        r == (match item {
            Ok(m) => StreamItem::Deliver(m),
            Err(e) => StreamItem::SkipTransientError(e),
        }),
{
    match item {
        Ok(m) => StreamItem::Deliver(m),
        Err(e) => StreamItem::SkipTransientError(e),
    }
}

/// The tray once the configuration manager came up.
pub open spec fn started_over(tray: TrayModel) -> TrayModel {
    TrayModel { sessions: Map::empty(), configs: Seq::empty(), ..tray }
}

/// The tray once the session manager went down.
pub open spec fn bereft(tray: TrayModel) -> TrayModel {
    TrayModel { sessions: Map::empty(), bypass_state: BypassState::Off, ..tray }
}

/// Forgets everything that came from the services.
pub fn handle_config_service_appeared(tray: &mut VpnTray)
    ensures
        final(tray)@ == (TrayModel {
            sessions: Map::empty(),
            configs: Seq::empty(),
            ..old(tray)@
        }),
        final(tray)@ == started_over(old(tray)@),
{
    tray.clear_sessions();
    tray.configs = Vec::new();
    assert(tray@.configs =~= Seq::<ConfigInfo<Seq<char>>>::empty());
}

/// Forgets the sessions and the bypass routes; says whether there were any
/// sessions, which the user is then told about.
pub fn handle_sessions_service_lost(tray: &mut VpnTray) -> (r: bool)
    ensures
        r == (old(tray)@.sessions.dom() != Set::<Seq<char>>::empty()),
        final(tray)@ == (TrayModel {
            sessions: Map::empty(),
            bypass_state: BypassState::Off,
            ..old(tray)@
        }),
        final(tray)@ == bereft(old(tray)@),
{
    let n = tray.sessions.len();
    let had_sessions = n > 0;
    proof {
        let dom = old(tray)@.sessions.dom();
        assert(dom =~= old(tray).sessions@.dom());
        if dom == Set::<Seq<char>>::empty() {
            assert(dom.len() == 0);
        } else {
            let p = choose|p: Seq<char>| dom.contains(p);
            assert(dom =~= Set::<Seq<char>>::empty() || dom.contains(p));
            vstd::set_lib::lemma_set_empty_equivalency_len(dom);
        }
    }
    tray.clear_sessions();
    tray.bypass_state = BypassState::Off;
    had_sessions
}

/// The notifications after the session manager went down: that the kill switch
/// is off, and that the connections are gone. Without sessions there are none.
pub fn sessions_lost_notices(settings: &Settings, had_sessions: bool) -> (r: (
    Option<Toast>,
    Option<Toast>,
))
    ensures
        shown(
            r.0,
            had_sessions && settings.show_notifications_spec(),
            state_toast(
                KILLSWITCH_STATE_KEY@,
                "Kill-Switch Inactive"@,
                "Firewall rules removed. All traffic flows normally."@,
                1,
                EXPIRE_DEFAULT,
            ),
        ),
        shown(
            r.1,
            had_sessions && settings.show_notifications_spec(),
            plain_toast(
                "OpenVPN3 Sessions Service Stopped"@,
                "Active connections were cleared. Reconnect after the service restarts."@,
                1,
            ),
        ),
{
    if had_sessions {
        (
            show_killswitch_inactive_notification(settings),
            show_info_notification(
                settings,
                "OpenVPN3 Sessions Service Stopped",
                "Active connections were cleared. Reconnect after the service restarts.",
            ),
        )
    } else {
        (None, None)
    }
}

/// The program starts over when the configuration manager gets an owner that
/// it did not have, and loses its sessions when the session manager loses its
/// owner; no other change of any name matters.
pub proof fn law_changes_of_owner(name: Seq<char>, old_owner: Seq<char>, new_owner: Seq<char>)
    ensures
        owner_news(name, old_owner, new_owner) == ServiceNews::ConfigAppeared <==> {
            &&& name == "net.openvpn.v3.configuration"@
            &&& old_owner.len() == 0
            &&& new_owner.len() > 0
        },
        owner_news(name, old_owner, new_owner) == ServiceNews::SessionsLost <==> {
            &&& name == "net.openvpn.v3.sessions"@
            &&& old_owner.len() > 0
            &&& new_owner.len() == 0
        },
{
    reveal_strlit("net.openvpn.v3.configuration");
    reveal_strlit("net.openvpn.v3.sessions");
    assert("net.openvpn.v3.configuration"@.len() != "net.openvpn.v3.sessions"@.len());
}

/// Without the session manager there are no sessions and no bypass routes; a
/// new configuration manager leaves no sessions and no configurations. All
/// else stays.
pub proof fn law_what_a_service_takes_along(tray: TrayModel, p: Seq<char>)
    ensures
        !bereft(tray).sessions.contains_key(p),
        bereft(tray).bypass_state == BypassState::Off,
        bereft(tray).configs == tray.configs,
        bereft(tray).kill_switch_enabled == tray.kill_switch_enabled,
        !started_over(tray).sessions.contains_key(p),
        started_over(tray).configs.len() == 0,
        started_over(tray).bypass_state == tray.bypass_state,
        started_over(tray).kill_switch_enabled == tray.kill_switch_enabled,
{
}

} // verus!
