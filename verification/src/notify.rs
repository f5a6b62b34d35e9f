//! Desktop notifications: what each one says, which earlier one it replaces,
//! what is tried again, and what an answer to one means.
use vstd::prelude::*;
use vstd::string::*;

use crate::keyed::StringMap;
use crate::protocol::MessageType;
use crate::settings::{Settings, SettingsValues};
use crate::text::{
    decimal, decimal_text, has_substring, join, joined, law_part_occurs_in_the_whole,
    law_text_starts_with_its_front, same, starts_with_spec, texts,
};
use crate::tray::{flags_cleared, BypassState, TrayModel, VpnTray};

verus! {

/// A notification without buttons. `T` is the type of its texts.
#[derive(Debug)]
pub struct Toast<T = String> {
    pub icon: T,
    pub summary: T,
    pub body: T,
    /// 1 is normal, 2 is critical.
    pub urgency: u8,
    /// How long it stays on screen.
    pub expire_timeout: i32,
    /// A later notification with the same key replaces this one.
    pub dedup_key: T,
}

impl View for Toast<String> {
    type V = Toast<Seq<char>>;

    open spec fn view(&self) -> Toast<Seq<char>> {
        Toast {
            icon: self.icon@,
            summary: self.summary@,
            body: self.body@,
            urgency: self.urgency,
            expire_timeout: self.expire_timeout,
            dedup_key: self.dedup_key@,
        }
    }
}

/// The identifiers of the notifications on screen, by key.
pub type NotificationIds = StringMap<u32>;

/// The desktop decides how long a notification stays.
pub const EXPIRE_DEFAULT: i32 = -1;

/// A notification stays until the user dismisses it.
pub const EXPIRE_NEVER: i32 = 0;

/// So many keys are remembered at most.
pub const MAX_NOTIFICATION_IDS: usize = 256;

pub const FIRST_RUN_HELP_KEY: &'static str = "__first_run_help__";

pub const KILLSWITCH_STATE_KEY: &'static str = "__killswitch_state__";

pub const BYPASS_STATE_KEY: &'static str = "__bypass_state__";

pub open spec fn replaces(ids: Map<Seq<char>, u32>, key: Seq<char>) -> u32 {
    if ids.contains_key(key) {
        ids[key]
    } else {
        0
    }
}

/// The identifier of the notification to replace: the one last recorded under
/// `key`, or 0 for a new notification.
pub fn resolve_replaces_id(map: &NotificationIds, key: &str) -> (r: u32)
    ensures
        r == replaces(map@, key@),
{
    match map.get(key) {
        Some(id) => *id,
        None => 0,
    }
}

/// Whether a map of this many keys is emptied before the next is recorded.
pub fn needs_prune(len: usize) -> (r: bool)
    ensures
        r == (len >= MAX_NOTIFICATION_IDS),
{
    len >= MAX_NOTIFICATION_IDS
}

pub open spec fn recorded(
    ids: Map<Seq<char>, u32>,
    key: Seq<char>,
    id: u32,
) -> Map<Seq<char>, u32> {
    if ids.dom().len() >= MAX_NOTIFICATION_IDS {
        Map::empty().insert(key, id)
    } else {
        ids.insert(key, id)
    }
}

/// Remembers the identifier of the notification shown under `key`. A full map
/// is emptied first.
pub fn record(map: &mut NotificationIds, key: &str, id: u32)
    ensures
        final(map)@ == recorded(old(map)@, key@, id),
{
    if needs_prune(map.len()) {
        map.clear();
    }
    map.insert(key.to_owned(), id);
}

/// Forgets every identifier.
pub fn clear_all(map: &mut NotificationIds)
    ensures
        final(map)@ == Map::<Seq<char>, u32>::empty(),
{
    map.clear();
}

/// Forgets every identifier, as when all notifications are stale.
pub fn clear_notification_dedup(map: &mut NotificationIds)
    ensures
        final(map)@ == Map::<Seq<char>, u32>::empty(),
{
    clear_all(map);
}

/// The map of identifiers never outgrows its limit.
pub proof fn law_ids_stay_bounded(ids: Map<Seq<char>, u32>, key: Seq<char>, id: u32)
    requires
        ids.dom().finite(),
        ids.dom().len() <= MAX_NOTIFICATION_IDS,
    ensures
        recorded(ids, key, id).dom().finite(),
        recorded(ids, key, id).dom().len() <= MAX_NOTIFICATION_IDS,
{
    broadcast use vstd::set::group_set_axioms;

    assert(ids.insert(key, id).dom() =~= ids.dom().insert(key));
    let empty = Map::<Seq<char>, u32>::empty();
    assert(empty.insert(key, id).dom() =~= Set::empty().insert(key));
}

/// What was recorded last under a key is what the next notification with that
/// key replaces; other keys are left alone unless the map was full.
pub proof fn law_recorded_id_is_replaced(
    ids: Map<Seq<char>, u32>,
    key: Seq<char>,
    id: u32,
    other: Seq<char>,
)
    ensures
        replaces(recorded(ids, key, id), key) == id,
        other != key && ids.dom().len() < MAX_NOTIFICATION_IDS ==> replaces(
            recorded(ids, key, id),
            other,
        ) == replaces(ids, other),
{
}

/// How sending a notification failed.
#[derive(Debug)]
pub enum SendError {
    /// The call itself failed; nothing is on screen.
    Call(String),
    /// The call was answered, but the answer made no sense; the notification
    /// is on screen.
    Deserialize(String),
}

pub open spec fn retry_id(err: SendError, replaces_id: u32) -> Option<u32> {
    if err is Call && replaces_id != 0 {
        Some(0)
    } else {
        None
    }
}

/// The identifier to try again with: a failed call that meant to replace a
/// notification is tried once more as a new one. What is on screen is not sent
/// twice.
pub fn next_retry_id(err: &SendError, replaces_id: u32) -> (r: Option<u32>)
    ensures
        r == retry_id(*err, replaces_id),
{
    match err {
        SendError::Call(_) => if replaces_id != 0 {
            Some(0)
        } else {
            None
        },
        SendError::Deserialize(_) => None,
    }
}

/// What follows an attempt to send.
#[derive(Debug)]
pub enum SendStep {
    /// The notification is on screen under this identifier.
    Done(u32),
    /// Send again, replacing this identifier.
    Again(u32),
    /// Give up.
    Failed(SendError),
}

/// What follows an attempt to send that replaced `replaces_id`.
pub open spec fn send_step(outcome: Result<u32, SendError>, replaces_id: u32) -> SendStep {
    match outcome {
        Ok(id) => SendStep::Done(id),
        Err(e) => match retry_id(e, replaces_id) {
            Some(next) => SendStep::Again(next),
            None => SendStep::Failed(e),
        },
    }
}

/// What follows an attempt to send that replaced `replaces_id`.
pub fn after_send(outcome: Result<u32, SendError>, replaces_id: u32) -> (r: SendStep)
    ensures
        match outcome {
            Ok(id) => r == SendStep::Done(id),
            Err(e) => match retry_id(e, replaces_id) {
                Some(next) => r == SendStep::Again(next),
                None => r == SendStep::Failed(e),
            },
        },
        r == send_step(outcome, replaces_id),
{
    match outcome {
        Ok(id) => SendStep::Done(id),
        Err(e) => match next_retry_id(&e, replaces_id) {
            Some(next) => SendStep::Again(next),
            None => SendStep::Failed(e),
        },
    }
}

/// A second failure in a row is final.
pub proof fn law_at_most_two_sends(first: SendError, second: SendError, replaces_id: u32)
    requires
        retry_id(first, replaces_id) is Some,
    ensures
        retry_id(second, retry_id(first, replaces_id)->0) is None,
{
}

/// A plain notification, with its summary as key.
pub open spec fn plain_toast(summary: Seq<char>, body: Seq<char>, urgency: u8) -> Toast<Seq<char>> {
    Toast {
        icon: "network-vpn"@,
        summary,
        body,
        urgency,
        expire_timeout: EXPIRE_DEFAULT,
        dedup_key: summary,
    }
}

/// A notification of a state, under the key that the states of one kind share.
pub open spec fn state_toast(
    key: Seq<char>,
    summary: Seq<char>,
    body: Seq<char>,
    urgency: u8,
    expire_timeout: i32,
) -> Toast<Seq<char>> {
    Toast { icon: "network-vpn"@, summary, body, urgency, expire_timeout, dedup_key: key }
}

fn make_toast(
    key: &str,
    summary: &str,
    body: String,
    urgency: u8,
    expire_timeout: i32,
) -> (r: Toast)
    ensures
        r@ == state_toast(key@, summary@, body@, urgency, expire_timeout),
{
    Toast {
        icon: "network-vpn".to_owned(),
        summary: summary.to_owned(),
        body,
        urgency,
        expire_timeout,
        dedup_key: key.to_owned(),
    }
}

fn send_notification(summary: &str, body: &str, urgency: u8) -> (r: Toast)
    ensures
        r@ == plain_toast(summary@, body@, urgency),
{
    make_toast(summary, summary, body.to_owned(), urgency, EXPIRE_DEFAULT)
}

/// The optional notification `r` is `want`, if notifications are on.
pub open spec fn shown(r: Option<Toast>, on: bool, want: Toast<Seq<char>>) -> bool {
    if on {
        r is Some && r->0@ == want
    } else {
        r is None
    }
}

/// An informational notification, unless notifications are off.
pub fn show_info_notification(settings: &Settings, title: &str, message: &str) -> (r: Option<
    Toast,
>)
    ensures
        shown(r, settings.show_notifications_spec(), plain_toast(title@, message@, 1)),
{
    if !settings.show_notifications() {
        return None;
    }
    Some(send_notification(title, message, 1))
}

/// An error notification, whatever the settings say.
pub fn show_error_notification(title: &str, message: &str) -> (r: Toast)
    ensures
        r@ == plain_toast(title@, message@, 2),
{
    send_notification(title, message, 2)
}

/// A notification of a session's status, which replaces the last one of the
/// same configuration.
pub fn show_connection_notification(settings: &Settings, config_name: &str, status: &str) -> (r:
    Option<Toast>)
    ensures
        shown(
            r,
            settings.show_notifications_spec(),
            state_toast(config_name@, "VPN: "@ + config_name@, status@, 1, EXPIRE_DEFAULT),
        ),
{
    if !settings.show_notifications() {
        return None;
    }
    let mut title = "VPN: ".to_owned();
    title.append(config_name);
    Some(make_toast(config_name, title.as_str(), status.to_owned(), 1, EXPIRE_DEFAULT))
}

pub open spec fn helper_missing_toast() -> Toast<Seq<char>> {
    plain_toast(
        "Kill-Switch Helper Not Installed"@,
        "Install the openvpn3-killswitch-helper package for firewall enforcement."@,
        1,
    )
}

/// Tells that the kill-switch helper is not installed.
pub fn show_helper_missing_notification(settings: &Settings) -> (r: Option<Toast>)
    ensures
        shown(r, settings.show_notifications_spec(), helper_missing_toast()),
{
    if !settings.show_notifications() {
        return None;
    }
    Some(
        send_notification(
            "Kill-Switch Helper Not Installed",
            "Install the openvpn3-killswitch-helper package for firewall enforcement.",
            1,
        ),
    )
}

pub open spec fn killswitch_active_toast() -> Toast<Seq<char>> {
    state_toast(
        KILLSWITCH_STATE_KEY@,
        "Kill-Switch Active"@,
        "Non-VPN traffic blocked while the tunnel is up."@,
        2,
        EXPIRE_NEVER,
    )
}

/// Tells that the kill switch is up.
pub fn show_killswitch_active_notification(settings: &Settings) -> (r: Option<Toast>)
    ensures
        shown(r, settings.show_notifications_spec(), killswitch_active_toast()),
{
    if !settings.show_notifications() {
        return None;
    }
    Some(
        make_toast(
            KILLSWITCH_STATE_KEY,
            "Kill-Switch Active",
            "Non-VPN traffic blocked while the tunnel is up.".to_owned(),
            2,
            EXPIRE_NEVER,
        ),
    )
}

/// Tells that the kill switch is down.
pub fn show_killswitch_inactive_notification(settings: &Settings) -> (r: Option<Toast>)
    ensures
        shown(
            r,
            settings.show_notifications_spec(),
            state_toast(
                KILLSWITCH_STATE_KEY@,
                "Kill-Switch Inactive"@,
                "Firewall rules removed. All traffic flows normally."@,
                1,
                EXPIRE_DEFAULT,
            ),
        ),
{
    if !settings.show_notifications() {
        return None;
    }
    Some(
        make_toast(
            KILLSWITCH_STATE_KEY,
            "Kill-Switch Inactive",
            "Firewall rules removed. All traffic flows normally.".to_owned(),
            1,
            EXPIRE_DEFAULT,
        ),
    )
}

pub open spec fn bypass_active_body(count: nat) -> Seq<char> {
    if count == 1 {
        "1 bypass network routed outside the VPN tunnel."@
    } else {
        decimal(count) + " bypass networks routed outside the VPN tunnel."@
    }
}

/// Tells that all bypass routes are installed.
pub fn show_bypass_active_notification(settings: &Settings, count: usize) -> (r: Option<Toast>)
    ensures
        shown(
            r,
            settings.show_notifications_spec(),
            state_toast(
                BYPASS_STATE_KEY@,
                "Split Tunneling Active"@,
                bypass_active_body(count as nat),
                1,
                EXPIRE_DEFAULT,
            ),
        ),
{
    if !settings.show_notifications() {
        return None;
    }
    let body = if count == 1 {
        "1 bypass network routed outside the VPN tunnel.".to_owned()
    } else {
        let mut b = decimal_text(count as u64);
        b.append(" bypass networks routed outside the VPN tunnel.");
        b
    };
    Some(make_toast(BYPASS_STATE_KEY, "Split Tunneling Active", body, 1, EXPIRE_DEFAULT))
}

/// So many networks are named in a notification.
pub const MAX_LISTED: usize = 5;

/// The first few entries of a list, and how many more there are.
pub open spec fn short_list(items: Seq<Seq<char>>) -> Seq<char> {
    if items.len() > MAX_LISTED {
        joined(items.take(MAX_LISTED as int), ", "@) + (" (+"@ + decimal(
            (items.len() - MAX_LISTED) as nat,
        ) + " more)"@)
    } else {
        joined(items, ", "@)
    }
}

fn list_briefly(items: &Vec<String>) -> (r: String)
    ensures
        r@ == short_list(texts(items@)),
{
    if items.len() > MAX_LISTED {
        let mut out = join(&items[0..MAX_LISTED], ", ");
        assert(texts(items@.subrange(0, MAX_LISTED as int)) =~= texts(items@).take(
            MAX_LISTED as int,
        ));
        let ghost head = out@;
        out.append(" (+");
        out.append(decimal_text((items.len() - MAX_LISTED) as u64).as_str());
        out.append(" more)");
        assert(out@ =~= head + (" (+"@ + decimal((items@.len() - MAX_LISTED) as nat) + " more)"@));
        out
    } else {
        join(items.as_slice(), ", ")
    }
}

pub open spec fn first_texts(s: Seq<(String, String)>) -> Seq<Seq<char>> {
    Seq::new(s.len(), |i: int| s[i].0@)
}

fn firsts(pairs: &Vec<(String, String)>) -> (r: Vec<String>)
    ensures
        texts(r@) == first_texts(pairs@),
{
    let mut out: Vec<String> = Vec::new();
    let mut i: usize = 0;
    while i < pairs.len()
        invariant
            i <= pairs.len(),
            out.len() == i,
            forall|j: int| 0 <= j < i ==> (#[trigger] out@[j])@ == pairs@[j].0@,
        decreases pairs.len() - i,
    {
        out.push(pairs[i].0.clone());
        i = i + 1;
    }
    assert(texts(out@) =~= first_texts(pairs@));
    out
}

pub open spec fn bypass_partial_body(applied: nat, failed: Seq<Seq<char>>) -> Seq<char> {
    decimal(applied) + " bypass network(s) routed; "@ + decimal(failed.len()) + " failed: "@
        + short_list(failed)
}

/// Tells that some bypass routes could not be installed, and which.
pub fn show_bypass_partial_notification(
    settings: &Settings,
    applied: usize,
    failed: &Vec<(String, String)>,
) -> (r: Option<Toast>)
    ensures
        shown(
            r,
            settings.show_notifications_spec(),
            state_toast(
                BYPASS_STATE_KEY@,
                "Split Tunneling Partially Applied"@,
                bypass_partial_body(applied as nat, first_texts(failed@)),
                2,
                EXPIRE_NEVER,
            ),
        ),
{
    if !settings.show_notifications() {
        return None;
    }
    let names = firsts(failed);
    let mut body = decimal_text(applied as u64);
    body.append(" bypass network(s) routed; ");
    body.append(decimal_text(failed.len() as u64).as_str());
    body.append(" failed: ");
    body.append(list_briefly(&names).as_str());
    Some(make_toast(BYPASS_STATE_KEY, "Split Tunneling Partially Applied", body, 2, EXPIRE_NEVER))
}

/// Tells that the bypass routes could not be installed at all.
pub fn show_bypass_failed_notification(settings: &Settings) -> (r: Option<Toast>)
    ensures
        shown(
            r,
            settings.show_notifications_spec(),
            state_toast(
                BYPASS_STATE_KEY@,
                "Split Tunneling Apply Failed"@,
                "Bypass routes could not be installed. Reconnect or check helper logs."@,
                2,
                EXPIRE_NEVER,
            ),
        ),
{
    if !settings.show_notifications() {
        return None;
    }
    Some(
        make_toast(
            BYPASS_STATE_KEY,
            "Split Tunneling Apply Failed",
            "Bypass routes could not be installed. Reconnect or check helper logs.".to_owned(),
            2,
            EXPIRE_NEVER,
        ),
    )
}

pub open spec fn bypass_drift_body(missing: Seq<Seq<char>>) -> Seq<char> {
    decimal(missing.len())
        + " bypass CIDR(s) missing from the firewall — bypassed hosts may not route correctly: "@
        + short_list(missing) + "\nReconnect to re-install them."@
}

/// The warning that networks have vanished from the firewall.
pub open spec fn bypass_drift_toast(missing: Seq<Seq<char>>) -> Toast<Seq<char>> {
    state_toast(
        BYPASS_STATE_KEY@,
        "Split Tunneling Drifted"@,
        bypass_drift_body(missing),
        2,
        EXPIRE_NEVER,
    )
}

/// Tells which networks have vanished from the firewall; nothing if none has.
pub fn show_bypass_drift_notification(settings: &Settings, missing: &Vec<String>) -> (r: Option<
    Toast,
>)
    ensures
        shown(
            r,
            settings.show_notifications_spec() && missing@.len() > 0,
            bypass_drift_toast(texts(missing@)),
        ),
{
    if !settings.show_notifications() {
        return None;
    }
    if missing.len() == 0 {
        return None;
    }
    let mut body = decimal_text(missing.len() as u64);
    body.append(
        " bypass CIDR(s) missing from the firewall — bypassed hosts may not route correctly: ",
    );
    body.append(list_briefly(missing).as_str());
    body.append("\nReconnect to re-install them.");
    Some(make_toast(BYPASS_STATE_KEY, "Split Tunneling Drifted", body, 2, EXPIRE_NEVER))
}

/// The news that all bypass networks are in the firewall again.
pub open spec fn bypass_recovered_toast() -> Toast<Seq<char>> {
    state_toast(
        BYPASS_STATE_KEY@,
        "Split Tunneling Recovered"@,
        "All bypass networks are in the firewall again."@,
        1,
        EXPIRE_DEFAULT,
    )
}

/// Tells that the networks that had vanished are in the firewall again.
pub fn show_bypass_recovered_notification(settings: &Settings) -> (r: Option<Toast>)
    ensures
        shown(r, settings.show_notifications_spec(), bypass_recovered_toast()),
{
    if !settings.show_notifications() {
        return None;
    }
    Some(
        make_toast(
            BYPASS_STATE_KEY,
            "Split Tunneling Recovered",
            "All bypass networks are in the firewall again.".to_owned(),
            1,
            EXPIRE_DEFAULT,
        ),
    )
}

/// The warning about vanished networks stays until it is dismissed or
/// replaced, and the news of the recovery replaces it and does not stay.
pub proof fn law_recovery_replaces_the_warning(
    ids: Map<Seq<char>, u32>,
    id: u32,
    missing: Seq<Seq<char>>,
)
    ensures
        bypass_drift_toast(missing).expire_timeout == EXPIRE_NEVER,
        bypass_recovered_toast().expire_timeout == EXPIRE_DEFAULT,
        replaces(
            recorded(ids, bypass_drift_toast(missing).dedup_key, id),
            bypass_recovered_toast().dedup_key,
        ) == id,
{
}

/// A notification with buttons. `actions` holds a key and a label for each.
#[derive(Debug)]
pub struct NotifSpec {
    pub icon: String,
    pub summary: String,
    pub body: String,
    pub actions: Vec<String>,
    pub urgency: u8,
    pub expire_timeout: i32,
    pub dedup_key: String,
}

fn four(a: &str, b: &str, c: &str, d: &str) -> (r: Vec<String>)
    ensures
        texts(r@) == seq![a@, b@, c@, d@],
{
    let mut v: Vec<String> = Vec::new();
    v.push(a.to_owned());
    v.push(b.to_owned());
    v.push(c.to_owned());
    v.push(d.to_owned());
    assert(texts(v@) =~= seq![a@, b@, c@, d@]);
    v
}

pub open spec fn is_reconnect_spec(s: NotifSpec, config_name: Seq<char>) -> bool {
    &&& s.icon@ == "network-vpn"@
    &&& s.summary@ == "VPN Disconnected"@
    &&& s.body@ == "'"@ + config_name + "' disconnected unexpectedly."@
    &&& texts(s.actions@) == seq!["reconnect"@, "Reconnect"@, "dismiss"@, "Dismiss"@]
    &&& s.urgency == 2
    &&& s.expire_timeout == EXPIRE_NEVER
    &&& s.dedup_key@ == config_name
}

/// The notification that offers to reconnect after an unexpected drop.
pub fn reconnect_spec(config_name: &str) -> (r: NotifSpec)
    ensures
        is_reconnect_spec(r, config_name@),
{
    let mut body = "'".to_owned();
    body.append(config_name);
    body.append("' disconnected unexpectedly.");
    NotifSpec {
        icon: "network-vpn".to_owned(),
        summary: "VPN Disconnected".to_owned(),
        body,
        actions: four("reconnect", "Reconnect", "dismiss", "Dismiss"),
        urgency: 2,
        expire_timeout: EXPIRE_NEVER,
        dedup_key: config_name.to_owned(),
    }
}

pub open spec fn is_first_run_help_spec(s: NotifSpec) -> bool {
    &&& s.icon@ == "dialog-information"@
    &&& s.summary@ == "OpenVPN3 Service Not Running"@
    &&& s.body@
        == "The OpenVPN3 backend could not be reached. VPN profiles will not appear until the service is running."@
    &&& texts(s.actions@) == seq![
        "preferences"@,
        "Open Preferences"@,
        "dont-show"@,
        "Don't Show Again"@,
    ]
    &&& s.urgency == 1
    &&& s.expire_timeout == EXPIRE_DEFAULT
    &&& s.dedup_key@ == FIRST_RUN_HELP_KEY@
}

/// The notification that explains what to do when the service is absent.
pub fn first_run_help_spec() -> (r: NotifSpec)
    ensures
        is_first_run_help_spec(r),
{
    NotifSpec {
        icon: "dialog-information".to_owned(),
        summary: "OpenVPN3 Service Not Running".to_owned(),
        body:
            "The OpenVPN3 backend could not be reached. VPN profiles will not appear until the service is running.".to_owned(),
        actions: four("preferences", "Open Preferences", "dont-show", "Don't Show Again"),
        urgency: 1,
        expire_timeout: EXPIRE_DEFAULT,
        dedup_key: FIRST_RUN_HELP_KEY.to_owned(),
    }
}

/// The reconnect notification, unless the warning is switched off.
pub fn show_reconnect_notification(settings: &Settings, config_name: &str) -> (r: Option<NotifSpec>)
    ensures
        settings.warn_on_unexpected_disconnect_spec() ==> r is Some && is_reconnect_spec(
            r->0,
            config_name@,
        ),
        !settings.warn_on_unexpected_disconnect_spec() ==> r is None,
{
    if !settings.warn_on_unexpected_disconnect() {
        return None;
    }
    Some(reconnect_spec(config_name))
}

/// The help notification, unless it is switched off.
pub fn show_first_run_help_notification(settings: &Settings) -> (r: Option<NotifSpec>)
    ensures
        settings.show_first_run_help_spec() ==> r is Some && is_first_run_help_spec(r->0),
        !settings.show_first_run_help_spec() ==> r is None,
{
    if !settings.show_first_run_help() {
        return None;
    }
    Some(first_run_help_spec())
}

/// Takes the help notification off the books; its identifier, if it is on
/// screen.
pub fn withdraw_first_run_help_notification(map: &mut NotificationIds) -> (r: Option<u32>)
    ensures
        final(map)@ == old(map)@.remove(FIRST_RUN_HELP_KEY@),
        r == (if replaces(old(map)@, FIRST_RUN_HELP_KEY@) != 0 {
            Some(replaces(old(map)@, FIRST_RUN_HELP_KEY@))
        } else {
            None
        }),
{
    match map.remove(FIRST_RUN_HELP_KEY) {
        Some(id) => if id != 0 {
            Some(id)
        } else {
            None
        },
        None => None,
    }
}

/// A message from the notification service. The two bodies are what the
/// message's body reads as, where it reads as such a pair.
#[derive(Debug)]
pub struct NotifMessage {
    pub message_type: MessageType,
    pub interface: Option<String>,
    pub member: Option<String>,
    pub action_body: Option<(u32, String)>,
    pub closed_body: Option<(u32, u32)>,
}

/// What a message means for one notification.
#[derive(Debug, PartialEq, Eq)]
pub enum NotifSignal {
    /// A button was pressed; its key.
    Action(String),
    /// The notification is gone.
    Closed,
}

/// The optional text is this one.
pub open spec fn text_is(s: Option<String>, t: Seq<char>) -> bool {
    s is Some && s->0@ == t
}

/// Whether the optional text is this one.
pub fn is_text(s: &Option<String>, t: &str) -> (r: bool)
    ensures
        r == text_is(*s, t@),
{
    match s {
        Some(x) => same(x.as_str(), t),
        None => false,
    }
}

pub open spec fn from_notifications(m: NotifMessage) -> bool {
    m.message_type == MessageType::Signal && text_is(
        m.interface,
        "org.freedesktop.Notifications"@,
    )
}

/// The message says that a button of notification `id` was pressed.
pub open spec fn is_action_for(m: NotifMessage, id: u32) -> bool {
    from_notifications(m) && text_is(m.member, "ActionInvoked"@) && m.action_body is Some
        && (m.action_body->0).0 == id
}

/// The message says that notification `id` was closed.
pub open spec fn is_close_of(m: NotifMessage, id: u32) -> bool {
    from_notifications(m) && text_is(m.member, "NotificationClosed"@) && m.closed_body is Some
        && (m.closed_body->0).0 == id
}

/// What a message means for notification `target_id`; nothing for messages of
/// other kinds, from elsewhere, about other notifications or with a body that
/// makes no sense.
pub fn classify_notification_signal(msg: &NotifMessage, target_id: u32) -> (r: Option<NotifSignal>)
    ensures
        match r {
            Some(NotifSignal::Action(key)) => is_action_for(*msg, target_id) && key@
                == (msg.action_body->0).1@,
            Some(NotifSignal::Closed) => is_close_of(*msg, target_id),
            None => !is_action_for(*msg, target_id) && !is_close_of(*msg, target_id),
        },
{
    proof {
        reveal_strlit("ActionInvoked");
        reveal_strlit("NotificationClosed");
        assert("ActionInvoked"@.len() != "NotificationClosed"@.len());
    }
    if msg.message_type != MessageType::Signal {
        return None;
    }
    if !is_text(&msg.interface, "org.freedesktop.Notifications") {
        return None;
    }
    if is_text(&msg.member, "ActionInvoked") {
        match &msg.action_body {
            Some((id, key)) => if *id == target_id {
                Some(NotifSignal::Action(key.clone()))
            } else {
                None
            },
            None => None,
        }
    } else if is_text(&msg.member, "NotificationClosed") {
        match &msg.closed_body {
            Some((id, _)) => if *id == target_id {
                Some(NotifSignal::Closed)
            } else {
                None
            },
            None => None,
        }
    } else {
        None
    }
}

/// What a button of the reconnect notification calls for.
#[derive(Clone, Copy, Debug, PartialEq, Eq, Structural)]
pub enum ReconnectChoice {
    /// Connect the configuration again; the firewall stays as it is.
    Reconnect,
    /// Take down the firewall rules and the bypass routes.
    Dismiss,
    /// Not a button of this notification: keep listening.
    Ignore,
}

pub open spec fn reconnect_choice(key: Seq<char>) -> ReconnectChoice {
    if key == "reconnect"@ {
        ReconnectChoice::Reconnect
    } else if key == "dismiss"@ {
        ReconnectChoice::Dismiss
    } else {
        ReconnectChoice::Ignore
    }
}

/// Takes in a button of the reconnect notification. Dismissing it clears the
/// protection that the tray shows.
pub fn handle_reconnect_action(key: &str, tray: &mut VpnTray) -> (r: ReconnectChoice)
    ensures
        r == reconnect_choice(key@),
        final(tray)@ == (if r == ReconnectChoice::Dismiss {
            TrayModel {
                sessions: flags_cleared(old(tray)@.sessions),
                bypass_state: BypassState::Off,
                ..old(tray)@
            }
        } else {
            old(tray)@
        }),
{
    if same(key, "reconnect") {
        ReconnectChoice::Reconnect
    } else if same(key, "dismiss") {
        tray.clear_kill_switch_flags();
        tray.bypass_state = BypassState::Off;
        ReconnectChoice::Dismiss
    } else {
        ReconnectChoice::Ignore
    }
}

/// Takes in a button of the help notification: whether to open the
/// preferences. The other button switches the help off.
pub fn handle_first_run_action(key: &str, settings: &mut Settings) -> (r: bool)
    ensures
        r == (key@ == "preferences"@),
        key@ == "dont-show"@ && old(settings).store is Some ==> final(settings).store == Some(
            SettingsValues { show_first_run_help: false, ..old(settings).store->0 },
        ),
        key@ != "dont-show"@ || old(settings).store is None ==> *final(settings) == *old(settings),
{
    proof {
        reveal_strlit("preferences");
        reveal_strlit("dont-show");
        assert("preferences"@.len() != "dont-show"@.len());
    }
    if same(key, "preferences") {
        true
    } else {
        if same(key, "dont-show") {
            settings.set_show_first_run_help(false);
        }
        false
    }
}

/// The first few networks are all named; of more than five, the first five are
/// and the rest is counted.
pub proof fn law_short_list_names_or_counts_all(items: Seq<Seq<char>>)
    ensures
        items.len() <= 5 ==> short_list(items) == joined(items, ", "@),
        items.len() > 5 ==> starts_with_spec(short_list(items), joined(items.take(5), ", "@)),
        items.len() > 5 ==> has_substring(short_list(items), decimal((items.len() - 5) as nat)),
{
    if items.len() > 5 {
        let head = joined(items.take(5), ", "@);
        let count = decimal((items.len() - 5) as nat);
        law_text_starts_with_its_front(head, " (+"@ + count + " more)"@);
        law_part_occurs_in_the_whole(head + " (+"@, count, " more)"@);
        assert(head + " (+"@ + count + " more)"@ =~= short_list(items));
    }
}

/// What is told of the routes says how many there are, and of those that
/// failed or vanished also which.
pub proof fn law_route_notices_tell_counts_and_names(
    count: nat,
    failed: Seq<Seq<char>>,
)
    ensures
        starts_with_spec(bypass_active_body(count), decimal(count)),
        starts_with_spec(bypass_partial_body(count, failed), decimal(count)),
        has_substring(bypass_partial_body(count, failed), decimal(failed.len())),
        has_substring(bypass_partial_body(count, failed), short_list(failed)),
        starts_with_spec(bypass_drift_body(failed), decimal(failed.len())),
        has_substring(bypass_drift_body(failed), short_list(failed)),
{
    if count == 1 {
        reveal_strlit("1 bypass network routed outside the VPN tunnel.");
        assert(decimal(1) =~= seq!['1']);
        assert(bypass_active_body(1).take(1) =~= seq!['1']);
    } else {
        law_text_starts_with_its_front(
            decimal(count),
            " bypass networks routed outside the VPN tunnel."@,
        );
    }
    let a = decimal(count) + " bypass network(s) routed; "@;
    let b = a + decimal(failed.len()) + " failed: "@;
    law_part_occurs_in_the_whole(a, decimal(failed.len()), " failed: "@ + short_list(failed));
    assert(a + decimal(failed.len()) + (" failed: "@ + short_list(failed))
        =~= bypass_partial_body(count, failed));
    law_part_occurs_in_the_whole(b, short_list(failed), Seq::empty());
    assert(b + short_list(failed) + Seq::empty() =~= bypass_partial_body(count, failed));
    assert(bypass_partial_body(count, failed).take(decimal(count).len() as int) =~= decimal(count));
    let c =
        " bypass CIDR(s) missing from the firewall — bypassed hosts may not route correctly: "@;
    law_part_occurs_in_the_whole(
        decimal(failed.len()) + c,
        short_list(failed),
        "\nReconnect to re-install them."@,
    );
    assert(bypass_drift_body(failed).take(decimal(failed.len()).len() as int) =~= decimal(
        failed.len(),
    ));
}

/// A failed call that was to replace a notification is repeated as a new one;
/// nothing else is sent again.
pub proof fn law_failed_replacement_is_sent_anew(err: SendError, replaces_id: u32)
    ensures
        retry_id(err, replaces_id) is Some <==> err is Call && replaces_id != 0,
        retry_id(err, replaces_id) is Some ==> retry_id(err, replaces_id)->0 == 0,
{
}

/// A key that nothing was recorded under replaces nothing; a full map forgets
/// all other keys before the next one is recorded.
pub proof fn law_full_map_starts_over(
    ids: Map<Seq<char>, u32>,
    key: Seq<char>,
    id: u32,
    other: Seq<char>,
)
    requires
        other != key,
    ensures
        !ids.contains_key(other) ==> replaces(ids, other) == 0,
        ids.contains_key(other) ==> replaces(ids, other) == ids[other],
        ids.dom().len() >= 256 ==> replaces(recorded(ids, key, id), other) == 0,
        ids.dom().len() < 256 ==> replaces(recorded(ids, key, id), other) == replaces(ids, other),
{
}

/// The notifications of one kind of state share a key, so that each replaces
/// the one before; warnings are critical and stay, good news does not.
pub proof fn law_states_replace_each_other(missing: Seq<Seq<char>>)
    ensures
        bypass_drift_toast(missing).dedup_key == "__bypass_state__"@,
        bypass_recovered_toast().dedup_key == "__bypass_state__"@,
        killswitch_active_toast().dedup_key == "__killswitch_state__"@,
        bypass_drift_toast(missing).urgency == 2,
        bypass_drift_toast(missing).expire_timeout == 0,
        bypass_recovered_toast().urgency == 1,
        bypass_recovered_toast().expire_timeout == -1,
        killswitch_active_toast().urgency == 2,
        killswitch_active_toast().expire_timeout == 0,
        helper_missing_toast().urgency == 1,
        helper_missing_toast().dedup_key == helper_missing_toast().summary,
        bypass_drift_toast(missing).body == bypass_drift_body(missing),
{
}

/// A plain notification is kept apart by its summary, a notification of a
/// state by its key; both say what they were given.
pub proof fn law_notifications_say_what_they_are_given(
    key: Seq<char>,
    summary: Seq<char>,
    body: Seq<char>,
    urgency: u8,
    expire: i32,
)
    ensures
        ({
            let plain = plain_toast(summary, body, urgency);
            let state = state_toast(key, summary, body, urgency, expire);
            &&& plain.summary == summary && plain.body == body && plain.urgency == urgency
            &&& plain.dedup_key == summary && plain.expire_timeout == -1
            &&& state.summary == summary && state.body == body && state.urgency == urgency
            &&& state.dedup_key == key && state.expire_timeout == expire
            &&& plain.icon == state.icon
        }),
{
}

/// With notifications off nothing is shown; with them on just what was wanted.
pub proof fn law_shown_only_when_on(r: Option<Toast>, want: Toast<Seq<char>>)
    ensures
        shown(r, false, want) <==> r is None,
        shown(r, true, want) <==> r is Some && r->0@ == want,
{
}

/// Of the buttons, one reconnects and one dismisses; all else is ignored.
pub proof fn law_reconnect_buttons(key: Seq<char>)
    ensures
        reconnect_choice(key) == ReconnectChoice::Reconnect <==> key == "reconnect"@,
        reconnect_choice(key) == ReconnectChoice::Dismiss <==> key == "dismiss"@,
        reconnect_choice(key) == ReconnectChoice::Ignore <==> key != "reconnect"@ && key
            != "dismiss"@,
{
    reveal_strlit("reconnect");
    reveal_strlit("dismiss");
    assert("reconnect"@.len() != "dismiss"@.len());
}

/// A message concerns a notification just when it is a signal of the
/// notification service, says what happened, and bears that identifier; so it
/// never concerns two notifications, nor means both.
pub proof fn law_signals_by_identifier(m: NotifMessage, id: u32, other: u32)
    ensures
        is_action_for(m, id) <==> {
            &&& m.message_type == MessageType::Signal
            &&& m.interface is Some && m.interface->0@ == "org.freedesktop.Notifications"@
            &&& m.member is Some && m.member->0@ == "ActionInvoked"@
            &&& m.action_body is Some && (m.action_body->0).0 == id
        },
        is_close_of(m, id) <==> {
            &&& m.message_type == MessageType::Signal
            &&& m.interface is Some && m.interface->0@ == "org.freedesktop.Notifications"@
            &&& m.member is Some && m.member->0@ == "NotificationClosed"@
            &&& m.closed_body is Some && (m.closed_body->0).0 == id
        },
        other != id ==> !(is_action_for(m, id) && is_action_for(m, other)) && !(is_close_of(m, id)
            && is_close_of(m, other)),
        !(is_action_for(m, id) && is_close_of(m, id)),
{
    reveal_strlit("ActionInvoked");
    reveal_strlit("NotificationClosed");
    assert("ActionInvoked"@.len() != "NotificationClosed"@.len());
}

/// The notification that offers to reconnect names the configuration, is
/// critical and stays, and replaces the last one of the same configuration;
/// its first button reconnects and its second dismisses.
pub proof fn law_offer_to_reconnect(s: NotifSpec, config_name: Seq<char>)
    requires
        is_reconnect_spec(s, config_name),
    ensures
        has_substring(s.body@, config_name),
        s.urgency == 2 && s.expire_timeout == 0,
        s.dedup_key@ == config_name,
        s.actions@.len() == 4,
        reconnect_choice(texts(s.actions@)[0]) == ReconnectChoice::Reconnect,
        reconnect_choice(texts(s.actions@)[2]) == ReconnectChoice::Dismiss,
{
    law_part_occurs_in_the_whole("'"@, config_name, "' disconnected unexpectedly."@);
    law_reconnect_buttons("reconnect"@);
    law_reconnect_buttons("dismiss"@);
    assert(texts(s.actions@).len() == 4);
}

/// The help notification goes away by itself, has a key of its own, and offers
/// the preferences and not to be shown again.
pub proof fn law_offer_of_help(s: NotifSpec)
    requires
        is_first_run_help_spec(s),
    ensures
        s.urgency == 1 && s.expire_timeout == -1,
        s.dedup_key@ == "__first_run_help__"@,
        s.actions@.len() == 4,
        texts(s.actions@)[0] == "preferences"@,
        texts(s.actions@)[2] == "dont-show"@,
{
    assert(texts(s.actions@).len() == 4);
}

/// Sending ends with the identifier that the service gave, or with its error,
/// after two attempts at most; the second one is never a replacement.
pub proof fn law_ends_of_sending(outcome: Result<u32, SendError>, replaces_id: u32)
    ensures
        outcome matches Ok(id) ==> send_step(outcome, replaces_id) == SendStep::Done(id),
        outcome matches Err(e) ==> {
            &&& e is Call && replaces_id != 0 ==> send_step(outcome, replaces_id)
                == SendStep::Again(0)
            &&& !(e is Call) || replaces_id == 0 ==> send_step(outcome, replaces_id)
                == SendStep::Failed(e)
        },
        !(send_step(outcome, 0) is Again),
{
}

} // verus!
