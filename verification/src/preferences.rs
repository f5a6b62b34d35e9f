//! The preferences: what the dialog shows at first, what is stored, and what
//! changes at once.
use vstd::prelude::*;
use vstd::string::*;

use crate::keyed::{holds_at, linked};
use crate::notify::{
    plain_toast, show_error_notification, show_info_notification,
    show_killswitch_inactive_notification, shown, state_toast, Toast, EXPIRE_DEFAULT,
    KILLSWITCH_STATE_KEY,
};
use crate::protocol::{StatusMajor, StatusMinor};
use crate::settings::{clamped, Settings, SettingsValues};
use crate::text::{decimal, decimal_text, same, texts};
use crate::tray::{flags_cleared, ConfigInfo, TrayModel, VpnTray};

verus! {

pub open spec fn startup_action_of(specific: bool, recent: bool) -> Seq<char> {
    if specific {
        "connect-specific"@
    } else if recent {
        "connect-recent"@
    } else {
        "none"@
    }
}

/// The startup action for the choice of radio buttons.
pub fn resolve_startup_action(radio_specific: bool, radio_recent: bool) -> (r: &'static str)
    ensures
        r@ == startup_action_of(radio_specific, radio_recent),
{
    if radio_specific {
        "connect-specific"
    } else if radio_recent {
        "connect-recent"
    } else {
        "none"
    }
}

/// Which radio button is pressed at first.
#[derive(Clone, Copy, Debug, PartialEq, Eq, Structural)]
pub enum StartupChoice {
    DoNothing,
    Recent,
    Specific,
}

/// Which configuration is chosen at first.
#[derive(Debug)]
pub enum ConfigChoice {
    /// The one with this path.
    Path(String),
    First,
    Unset,
}

/// The tab with the general preferences as it opens.
#[derive(Debug)]
pub struct GeneralForm {
    pub launch_on_login: bool,
    pub startup: StartupChoice,
    pub config: ConfigChoice,
    pub config_sensitive: bool,
    pub notifications: bool,
    pub first_run_help: bool,
    pub interval: u32,
    pub timeout: u32,
    pub stall_detection: bool,
    pub stall_seconds: u32,
    pub auto_reconnect: bool,
    pub reconnect_delay: u32,
}

pub open spec fn startup_choice_of(action: Seq<char>) -> StartupChoice {
    if action == "connect-recent"@ {
        StartupChoice::Recent
    } else if action == "connect-specific"@ {
        StartupChoice::Specific
    } else {
        StartupChoice::DoNothing
    }
}

/// The form shows the general preferences as they are.
pub open spec fn is_form_of(
    form: GeneralForm,
    settings: Settings,
    configs: nat,
    autostart: bool,
) -> bool {
    let stall = settings.health_check_stall_seconds_spec();
    let path = settings.specific_config_path_view();
    &&& form.launch_on_login == autostart
    &&& form.startup == startup_choice_of(settings.startup_action_view())
    &&& form.config_sensitive == (form.startup == StartupChoice::Specific)
    &&& form.config is Path == (path.len() > 0)
    &&& form.config is First == (path.len() == 0 && configs > 0)
    &&& form.config matches ConfigChoice::Path(p) ==> p@ == path
    &&& form.notifications == settings.show_notifications_spec()
    &&& form.first_run_help == settings.show_first_run_help_spec()
    &&& form.interval == settings.stats_refresh_interval_spec()
    &&& form.timeout == settings.connection_timeout_spec()
    &&& form.stall_detection == (stall > 0)
    &&& form.stall_seconds == (if stall > 0 {
        stall
    } else {
        60
    })
    &&& form.auto_reconnect == settings.auto_reconnect_spec()
    &&& form.reconnect_delay == settings.auto_reconnect_delay_seconds_spec()
}

/// The tab with the general preferences as it opens. `autostart` is whether
/// the program is started on login. Where no stall is detected, a threshold of
/// a minute is offered.
pub fn general_form(settings: &Settings, configs: &[ConfigInfo], autostart: bool) -> (r: GeneralForm)
    ensures
        r.launch_on_login == autostart,
        r.startup == startup_choice_of(settings.startup_action_view()),
        r.config_sensitive == (r.startup == StartupChoice::Specific),
        match r.config {
            ConfigChoice::Path(p) => p@ == settings.specific_config_path_view() && p@.len() > 0,
            ConfigChoice::First => settings.specific_config_path_view().len() == 0
                && configs@.len() > 0,
            ConfigChoice::Unset => settings.specific_config_path_view().len() == 0
                && configs@.len() == 0,
        },
        r.notifications == settings.show_notifications_spec(),
        r.first_run_help == settings.show_first_run_help_spec(),
        r.interval == settings.stats_refresh_interval_spec(),
        r.timeout == settings.connection_timeout_spec(),
        r.stall_detection == (settings.health_check_stall_seconds_spec() > 0),
        r.stall_seconds == (if settings.health_check_stall_seconds_spec() > 0 {
            settings.health_check_stall_seconds_spec()
        } else {
            60
        }),
        r.auto_reconnect == settings.auto_reconnect_spec(),
        r.reconnect_delay == settings.auto_reconnect_delay_seconds_spec(),
        is_form_of(r, *settings, configs@.len(), autostart),
{
    proof {
        reveal_strlit("connect-recent");
        reveal_strlit("connect-specific");
        assert("connect-recent"@.len() != "connect-specific"@.len());
    }
    let action = settings.startup_action();
    let startup = if same(action.as_str(), "connect-recent") {
        StartupChoice::Recent
    } else if same(action.as_str(), "connect-specific") {
        StartupChoice::Specific
    } else {
        StartupChoice::DoNothing
    };
    let path = settings.specific_config_path();
    let config = if !path.as_str().is_empty() {
        ConfigChoice::Path(path)
    } else if configs.len() > 0 {
        ConfigChoice::First
    } else {
        ConfigChoice::Unset
    };
    let stall = settings.health_check_stall_seconds();
    GeneralForm {
        launch_on_login: autostart,
        startup,
        config,
        config_sensitive: startup == StartupChoice::Specific,
        notifications: settings.show_notifications(),
        first_run_help: settings.show_first_run_help(),
        interval: settings.stats_refresh_interval(),
        timeout: settings.connection_timeout(),
        stall_detection: stall > 0,
        stall_seconds: if stall > 0 {
            stall
        } else {
            60
        },
        auto_reconnect: settings.auto_reconnect(),
        reconnect_delay: settings.auto_reconnect_delay_seconds(),
    }
}

/// What the user has entered in the general preferences.
#[derive(Debug)]
pub struct GeneralInput {
    pub radio_specific: bool,
    pub radio_recent: bool,
    /// Path and name of the chosen configuration.
    pub config: Option<(String, String)>,
    pub notifications: bool,
    pub first_run_help: bool,
    pub interval: u32,
    pub timeout: u32,
    pub stall_detection: bool,
    pub stall_seconds: u32,
    pub auto_reconnect: bool,
    pub reconnect_delay: u32,
}

/// The tab with the security preferences: what is ticked, and what can be.
#[derive(Clone, Copy, Debug, PartialEq, Eq, Structural)]
pub struct SecurityForm {
    pub kill_switch: bool,
    pub allow_lan: bool,
    pub block_during_pause: bool,
    pub warn_on_disconnect: bool,
    /// The options of the kill switch can be changed.
    pub options_sensitive: bool,
    /// The warning can be switched off.
    pub warning_sensitive: bool,
    /// It is said that the helper is missing.
    pub helper_hint: bool,
}

/// The tab with the security preferences as it opens.
pub open spec fn security_shown(settings: Settings) -> SecurityForm {
    SecurityForm {
        kill_switch: settings.enable_kill_switch_spec(),
        allow_lan: settings.kill_switch_allow_lan_spec(),
        block_during_pause: settings.kill_switch_block_during_pause_spec(),
        warn_on_disconnect: settings.warn_on_unexpected_disconnect_spec()
            || settings.enable_kill_switch_spec(),
        options_sensitive: settings.enable_kill_switch_spec(),
        warning_sensitive: !settings.enable_kill_switch_spec(),
        helper_hint: false,
    }
}

/// The tab with the security preferences as it opens. With the kill switch on
/// the warning is on too.
pub fn security_form(settings: &Settings) -> (r: SecurityForm)
    ensures
        r == (SecurityForm {
            kill_switch: settings.enable_kill_switch_spec(),
            allow_lan: settings.kill_switch_allow_lan_spec(),
            block_during_pause: settings.kill_switch_block_during_pause_spec(),
            warn_on_disconnect: settings.warn_on_unexpected_disconnect_spec()
                || settings.enable_kill_switch_spec(),
            options_sensitive: settings.enable_kill_switch_spec(),
            warning_sensitive: !settings.enable_kill_switch_spec(),
            helper_hint: false,
        }),
        r == security_shown(*settings),
{
    let on = settings.enable_kill_switch();
    SecurityForm {
        kill_switch: on,
        allow_lan: settings.kill_switch_allow_lan(),
        block_during_pause: settings.kill_switch_block_during_pause(),
        warn_on_disconnect: settings.warn_on_unexpected_disconnect() || on,
        options_sensitive: on,
        warning_sensitive: !on,
        helper_hint: false,
    }
}

pub open spec fn kill_switch_ticked(f: SecurityForm, on: bool) -> SecurityForm {
    SecurityForm {
        kill_switch: on,
        options_sensitive: on,
        warning_sensitive: !on,
        warn_on_disconnect: f.warn_on_disconnect || on,
        helper_hint: f.helper_hint && on,
        ..f
    }
}

/// Takes in that the kill switch was ticked or unticked.
pub fn tick_kill_switch(f: &mut SecurityForm, on: bool)
    ensures
        *final(f) == kill_switch_ticked(*old(f), on),
{
    f.kill_switch = on;
    f.options_sensitive = on;
    f.warning_sensitive = !on;
    if on {
        f.warn_on_disconnect = true;
    } else {
        f.helper_hint = false;
    }
}

/// Takes in whether the helper is installed.
pub fn helper_probed(f: &mut SecurityForm, present: bool)
    ensures
        *final(f) == (SecurityForm { helper_hint: old(f).helper_hint || !present, ..*old(f) }),
{
    if !present {
        f.helper_hint = true;
    }
}

/// However the kill switch is ticked, the warning is on while it is on, and
/// can only be switched off while it is off.
pub proof fn law_warning_accompanies_the_kill_switch(f: SecurityForm, on: bool)
    ensures
        kill_switch_ticked(f, on).kill_switch ==> kill_switch_ticked(f, on).warn_on_disconnect,
        kill_switch_ticked(f, on).warning_sensitive == !kill_switch_ticked(f, on).kill_switch,
        kill_switch_ticked(f, on).options_sensitive == kill_switch_ticked(f, on).kill_switch,
{
}

/// The stored values after the preferences were saved.
pub open spec fn is_saved(
    after: SettingsValues,
    before: SettingsValues,
    general: GeneralInput,
    security: SecurityForm,
) -> bool {
    &&& after.startup_action@ == startup_action_of(general.radio_specific, general.radio_recent)
    &&& remembers(after, before, general)
    &&& after == SettingsValues {
        startup_action: after.startup_action,
        specific_config_path: after.specific_config_path,
        most_recent_config_id: after.most_recent_config_id,
        most_recent_config_name: after.most_recent_config_name,
        show_notifications: general.notifications,
        show_first_run_help: general.first_run_help,
        stats_refresh_interval: clamped(general.interval as int, 10, 300) as u32,
        connection_timeout: clamped(general.timeout as int, 5, 300) as u32,
        health_check_stall_seconds: if general.stall_detection {
            clamped(general.stall_seconds as int, 0, 600) as u32
        } else {
            0
        },
        auto_reconnect: general.auto_reconnect,
        auto_reconnect_delay_seconds: clamped(general.reconnect_delay as int, 5, 300) as u32,
        warn_on_unexpected_disconnect: security.warn_on_disconnect,
        enable_kill_switch: security.kill_switch,
        kill_switch_allow_lan: security.allow_lan,
        kill_switch_block_during_pause: security.block_during_pause,
        ..before
    }
}

/// The chosen configuration is remembered, if a specific one is to be
/// connected; else the stored one stays.
pub open spec fn remembers(
    after: SettingsValues,
    before: SettingsValues,
    general: GeneralInput,
) -> bool {
    if general.radio_specific && general.config is Some {
        &&& after.specific_config_path@ == (general.config->0).0@
        &&& after.most_recent_config_id@ == (general.config->0).0@
        &&& after.most_recent_config_name@ == (general.config->0).1@
    } else {
        &&& after.specific_config_path == before.specific_config_path
        &&& after.most_recent_config_id == before.most_recent_config_id
        &&& after.most_recent_config_name == before.most_recent_config_name
    }
}

/// Remembers the chosen configuration, if a specific one is to be connected.
fn remember_specific_config(settings: &mut Settings, general: &GeneralInput)
    ensures
        final(settings).store is Some == old(settings).store is Some,
        old(settings).store is Some ==> {
            let before = old(settings).store->0;
            let after = final(settings).store->0;
            &&& remembers(after, before, *general)
            &&& after == (SettingsValues {
                specific_config_path: after.specific_config_path,
                most_recent_config_id: after.most_recent_config_id,
                most_recent_config_name: after.most_recent_config_name,
                ..before
            })
        },
{
    if general.radio_specific {
        match &general.config {
            Some(c) => {
                settings.set_specific_config_path(c.0.as_str());
                settings.set_most_recent_config(c.0.as_str(), c.1.as_str());
            },
            None => {},
        }
    }
}

/// Stores what the user has entered, and shows whether the kill switch is on.
pub fn persist_preferences(
    settings: &mut Settings,
    general: &GeneralInput,
    security: &SecurityForm,
    tray: &mut VpnTray,
)
    ensures
        final(settings).store is Some == old(settings).store is Some,
        old(settings).store is Some ==> is_saved(
            final(settings).store->0,
            old(settings).store->0,
            *general,
            *security,
        ),
        final(tray)@ == (TrayModel { kill_switch_enabled: security.kill_switch, ..old(tray)@ }),
{
    remember_specific_config(settings, general);
    settings.set_startup_action(
        resolve_startup_action(general.radio_specific, general.radio_recent),
    );
    settings.set_show_notifications(general.notifications);
    settings.set_show_first_run_help(general.first_run_help);
    settings.set_stats_refresh_interval(general.interval);
    settings.set_connection_timeout(general.timeout);
    settings.set_health_check_stall_seconds(
        if general.stall_detection {
            general.stall_seconds
        } else {
            0
        },
    );
    settings.set_auto_reconnect(general.auto_reconnect);
    settings.set_auto_reconnect_delay_seconds(general.reconnect_delay);
    settings.set_warn_on_unexpected_disconnect(security.warn_on_disconnect);
    settings.set_enable_kill_switch(security.kill_switch);
    settings.set_kill_switch_allow_lan(security.allow_lan);
    settings.set_kill_switch_block_during_pause(security.block_during_pause);
    tray.kill_switch_enabled = security.kill_switch;
}

/// The user has left the general preferences as they were shown.
pub open spec fn untouched(form: GeneralForm, input: GeneralInput) -> bool {
    &&& input.radio_specific == (form.startup == StartupChoice::Specific)
    &&& input.radio_recent == (form.startup == StartupChoice::Recent)
    &&& input.notifications == form.notifications
    &&& input.first_run_help == form.first_run_help
    &&& input.interval == form.interval
    &&& input.timeout == form.timeout
    &&& input.stall_detection == form.stall_detection
    &&& input.stall_seconds == form.stall_seconds
    &&& input.auto_reconnect == form.auto_reconnect
    &&& input.reconnect_delay == form.reconnect_delay
}

/// Saving the preferences as they were shown keeps what every setting means.
/// Only the warning about drops is switched on if the kill switch is on.
pub proof fn law_saving_untouched_preferences(
    before: SettingsValues,
    after: SettingsValues,
    form: GeneralForm,
    input: GeneralInput,
    security: SecurityForm,
)
    requires
        is_saved(after, before, input, security),
        untouched(form, input),
        ({
            let settings = Settings { store: Some(before) };
            &&& form.startup == startup_choice_of(settings.startup_action_view())
            &&& form.notifications == settings.show_notifications_spec()
            &&& form.first_run_help == settings.show_first_run_help_spec()
            &&& form.interval == settings.stats_refresh_interval_spec()
            &&& form.timeout == settings.connection_timeout_spec()
            &&& form.stall_detection == (settings.health_check_stall_seconds_spec() > 0)
            &&& form.stall_detection ==> form.stall_seconds
                == settings.health_check_stall_seconds_spec()
            &&& form.auto_reconnect == settings.auto_reconnect_spec()
            &&& form.reconnect_delay == settings.auto_reconnect_delay_seconds_spec()
            &&& security.kill_switch == settings.enable_kill_switch_spec()
            &&& security.allow_lan == settings.kill_switch_allow_lan_spec()
            &&& security.block_during_pause == settings.kill_switch_block_during_pause_spec()
            &&& security.warn_on_disconnect == (settings.warn_on_unexpected_disconnect_spec()
                || settings.enable_kill_switch_spec())
        }),
    ensures
        ({
            let old_settings = Settings { store: Some(before) };
            let settings = Settings { store: Some(after) };
            &&& startup_choice_of(settings.startup_action_view()) == form.startup
            &&& settings.show_notifications_spec() == old_settings.show_notifications_spec()
            &&& settings.show_first_run_help_spec() == old_settings.show_first_run_help_spec()
            &&& settings.stats_refresh_interval_spec()
                == old_settings.stats_refresh_interval_spec()
            &&& settings.connection_timeout_spec() == old_settings.connection_timeout_spec()
            &&& settings.health_check_stall_seconds_spec()
                == old_settings.health_check_stall_seconds_spec()
            &&& settings.auto_reconnect_spec() == old_settings.auto_reconnect_spec()
            &&& settings.auto_reconnect_delay_seconds_spec()
                == old_settings.auto_reconnect_delay_seconds_spec()
            &&& settings.enable_kill_switch_spec() == old_settings.enable_kill_switch_spec()
            &&& settings.kill_switch_allow_lan_spec() == old_settings.kill_switch_allow_lan_spec()
            &&& settings.kill_switch_block_during_pause_spec()
                == old_settings.kill_switch_block_during_pause_spec()
            &&& settings.warn_on_unexpected_disconnect_spec() == (
            old_settings.warn_on_unexpected_disconnect_spec()
                || old_settings.enable_kill_switch_spec())
            &&& settings.bypass_cidrs_view() == old_settings.bypass_cidrs_view()
            &&& settings.launch_on_login_spec() == old_settings.launch_on_login_spec()
        }),
{
    reveal_strlit("connect-recent");
    reveal_strlit("connect-specific");
    reveal_strlit("none");
    assert("connect-recent"@.len() == 14 && "connect-specific"@.len() == 16 && "none"@.len() == 4);
}

/// A session with this path is connected.
pub open spec fn is_connected_path(tray: VpnTray, path: Seq<char>) -> bool {
    tray@.sessions.contains_key(path) && tray@.sessions[path].status.connected()
}

/// The paths of the connected sessions, each once, in no particular order.
pub fn connected_paths(tray: &VpnTray) -> (r: Vec<String>)
    ensures
        texts(r@).no_duplicates(),
        forall|p: Seq<char>| #[trigger] texts(r@).contains(p) <==> is_connected_path(*tray, p),
{
    let mut out: Vec<String> = Vec::new();
    let n = tray.sessions.len();
    let ghost pairs = tray.sessions.pairs();
    let mut i: usize = 0;
    while i < n
        invariant
            i <= n,
            n == pairs.len(),
            pairs == tray.sessions.pairs(),
            linked(pairs, tray.sessions@),
            texts(out@).no_duplicates(),
            forall|p: Seq<char>|
                #[trigger] texts(out@).contains(p) <==> exists|k: int|
                    k < i && holds_at(pairs, p, k) && (#[trigger] pairs[k]).1.status.connected(),
        decreases n - i,
    {
        let ghost before = texts(out@);
        let ghost p0 = pairs[i as int].0;
        if tray.sessions.value_at(i).status.is_connected() {
            out.push(tray.sessions.key_at(i).to_owned());
            assert(texts(out@) =~= before.push(p0));
            assert(!before.contains(p0)) by {
                if before.contains(p0) {
                    let k = choose|k: int|
                        k < i && holds_at(pairs, p0, k)
                            && (#[trigger] pairs[k]).1.status.connected();
                    assert(pairs[k].0 == pairs[i as int].0);
                }
            }
        }
        assert forall|p: Seq<char>| #[trigger]
            texts(out@).contains(p) <==> exists|k: int|
                k < i + 1 && holds_at(pairs, p, k) && (#[trigger] pairs[k]).1.status.connected() by {
            let now = texts(out@);
            if now.contains(p) {
                if before.contains(p) {
                    let k = choose|k: int|
                        k < i && holds_at(pairs, p, k)
                            && (#[trigger] pairs[k]).1.status.connected();
                    assert(k < i + 1 && holds_at(pairs, p, k)
                        && pairs[k].1.status.connected());
                } else {
                    let at = choose|at: int| 0 <= at < now.len() && now[at] == p;
                    if at < before.len() {
                        assert(before[at] == p);
                    }
                    assert(holds_at(pairs, p, i as int)
                        && pairs[i as int].1.status.connected());
                }
            }
            if exists|k: int|
                k < i + 1 && holds_at(pairs, p, k) && (#[trigger] pairs[k]).1.status.connected() {
                let k = choose|k: int|
                    k < i + 1 && holds_at(pairs, p, k)
                        && (#[trigger] pairs[k]).1.status.connected();
                if k < i {
                    assert(before.contains(p));
                    let at = choose|at: int| 0 <= at < before.len() && before[at] == p;
                    assert(now[at] == p);
                } else {
                    assert(now[before.len() as int] == p);
                }
            }
        }
        i = i + 1;
    }
    proof {
        assert forall|p: Seq<char>| #[trigger]
            texts(out@).contains(p) <==> is_connected_path(*tray, p) by {
            if texts(out@).contains(p) {
                let k = choose|k: int|
                    k < i && holds_at(pairs, p, k) && (#[trigger] pairs[k]).1.status.connected();
                assert(tray.sessions@.contains_key(pairs[k].0));
            }
            if is_connected_path(*tray, p) {
                assert(tray.sessions@.contains_key(p));
                let k = choose|k: int| holds_at(pairs, p, k);
                assert(k < i && holds_at(pairs, p, k) && pairs[k].1.status.connected());
            }
        }
    }
    out
}

/// What changes at once when the kill switch was switched.
#[derive(Debug)]
pub enum KillSwitchChange {
    Nothing,
    /// Protect these sessions.
    Protect(Vec<String>),
    /// Take the rules down.
    Release,
}

/// The change is what follows at once when the kill switch was on or off and
/// now is.
pub open spec fn is_change_for(
    change: KillSwitchChange,
    tray: VpnTray,
    was_on: bool,
    is_on: bool,
) -> bool {
    if was_on == is_on {
        change is Nothing
    } else if was_on {
        change is Release
    } else {
        &&& change is Protect == (exists|p: Seq<char>| #[trigger] is_connected_path(tray, p))
        &&& change is Protect ==> texts(change->0@).no_duplicates() && forall|p: Seq<char>|
            #[trigger] texts(change->0@).contains(p) <==> is_connected_path(tray, p)
        &&& !(change is Release)
    }
}

/// What changes at once when the preferences are saved: connected sessions get
/// their protection, or lose it, if the kill switch was switched.
pub fn apply_kill_switch_transition(
    tray: &VpnTray,
    was_on: bool,
    security: &SecurityForm,
) -> (r: KillSwitchChange)
    ensures
        was_on == security.kill_switch ==> r is Nothing,
        was_on && !security.kill_switch ==> r is Release,
        !was_on && security.kill_switch ==> {
            &&& r is Protect == (exists|p: Seq<char>| #[trigger] is_connected_path(*tray, p))
            &&& r is Protect ==> texts(r->0@).no_duplicates() && forall|p: Seq<char>|
                #[trigger] texts(r->0@).contains(p) <==> is_connected_path(*tray, p)
            &&& !(r is Release)
        },
        is_change_for(r, *tray, was_on, security.kill_switch),
{
    if was_on == security.kill_switch {
        return KillSwitchChange::Nothing;
    }
    if was_on {
        return KillSwitchChange::Release;
    }
    let paths = connected_paths(tray);
    if paths.len() > 0 {
        assert(texts(paths@).contains(texts(paths@)[0]));
        assert(is_connected_path(*tray, texts(paths@)[0]));
        KillSwitchChange::Protect(paths)
    } else {
        proof {
            assert forall|p: Seq<char>| !#[trigger] is_connected_path(*tray, p) by {
                assert(!texts(paths@).contains(p));
            }
        }
        KillSwitchChange::Nothing
    }
}

/// Takes in that the rules were taken down: no session is protected any more.
pub fn clear_kill_switch_rules(tray: &mut VpnTray, settings: &Settings) -> (r: Option<Toast>)
    ensures
        final(tray)@ == (TrayModel {
            sessions: flags_cleared(old(tray)@.sessions),
            ..old(tray)@
        }),
        shown(
            r,
            settings.show_notifications_spec(),
            state_toast(
                KILLSWITCH_STATE_KEY@,
                "Kill-Switch Inactive"@,
                "Firewall rules removed. All traffic flows normally."@,
                1,
                EXPIRE_DEFAULT,
            ),
        ),
{
    tray.clear_kill_switch_flags();
    show_killswitch_inactive_notification(settings)
}

/// What is told after all secrets were cleared: how many there were, or the
/// text of the error.
pub fn clear_credentials_notice(settings: &Settings, result: &Result<usize, String>) -> (r: Option<
    Toast,
>)
    ensures
        match *result {
            Ok(n) => shown(
                r,
                settings.show_notifications_spec(),
                plain_toast(
                    "Credentials Cleared"@,
                    if n == 0 {
                        "No saved credentials found."@
                    } else {
                        decimal(n as nat) + " saved credential(s) removed."@
                    },
                    1,
                ),
            ),
            Err(e) => r is Some && r->0@ == plain_toast(
                "Clear Failed"@,
                "Could not clear credentials: "@ + e@,
                2,
            ),
        },
{
    match result {
        Ok(n) => if *n == 0 {
            show_info_notification(settings, "Credentials Cleared", "No saved credentials found.")
        } else {
            let mut text = decimal_text(*n as u64);
            text.append(" saved credential(s) removed.");
            show_info_notification(settings, "Credentials Cleared", text.as_str())
        },
        Err(e) => {
            let mut text = "Could not clear credentials: ".to_owned();
            text.append(e.as_str());
            Some(show_error_notification("Clear Failed", text.as_str()))
        },
    }
}

/// What is stored for a radio button presses the same one when the preferences
/// are opened again.
pub proof fn law_startup_choice_reads_back(specific: bool, recent: bool)
    ensures
        startup_choice_of(startup_action_of(specific, recent)) == (if specific {
            StartupChoice::Specific
        } else if recent {
            StartupChoice::Recent
        } else {
            StartupChoice::DoNothing
        }),
        specific ==> startup_action_of(specific, recent) == "connect-specific"@,
        !specific && recent ==> startup_action_of(specific, recent) == "connect-recent"@,
{
    reveal_strlit("connect-recent");
    reveal_strlit("connect-specific");
    reveal_strlit("none");
    assert("connect-recent"@.len() == 14 && "connect-specific"@.len() == 16 && "none"@.len() == 4);
}

/// Ticking the kill switch switches the warning on, and unticking it takes
/// the hint about the helper away; the other options keep their ticks.
pub proof fn law_ticking_the_kill_switch(f: SecurityForm, on: bool)
    ensures
        ({
            let after = kill_switch_ticked(f, on);
            &&& after.kill_switch == on
            &&& after.options_sensitive == on
            &&& after.warning_sensitive == !on
            &&& on ==> after.warn_on_disconnect && after.helper_hint == f.helper_hint
            &&& !on ==> after.warn_on_disconnect == f.warn_on_disconnect && !after.helper_hint
            &&& after.allow_lan == f.allow_lan
            &&& after.block_during_pause == f.block_during_pause
        }),
{
}

/// What the user has entered counts once it is saved, each number within its
/// limits; a threshold without stall detection counts as none. What cannot be
/// entered here stays as it was stored.
pub proof fn law_saved_preferences_count(
    after: SettingsValues,
    before: SettingsValues,
    general: GeneralInput,
    security: SecurityForm,
)
    requires
        is_saved(after, before, general, security),
    ensures
        ({
            let s = Settings { store: Some(after) };
            &&& s.show_notifications_spec() == general.notifications
            &&& s.show_first_run_help_spec() == general.first_run_help
            &&& 10 <= general.interval <= 300 ==> s.stats_refresh_interval_spec()
                == general.interval
            &&& 5 <= general.timeout <= 300 ==> s.connection_timeout_spec() == general.timeout
            &&& !general.stall_detection ==> s.health_check_stall_seconds_spec() == 0
            &&& general.stall_detection && general.stall_seconds <= 600
                ==> s.health_check_stall_seconds_spec() == general.stall_seconds
            &&& s.auto_reconnect_spec() == general.auto_reconnect
            &&& 5 <= general.reconnect_delay <= 300 ==> s.auto_reconnect_delay_seconds_spec()
                == general.reconnect_delay
            &&& s.warn_on_unexpected_disconnect_spec() == security.warn_on_disconnect
            &&& s.enable_kill_switch_spec() == security.kill_switch
            &&& s.kill_switch_allow_lan_spec() == security.allow_lan
            &&& s.kill_switch_block_during_pause_spec() == security.block_during_pause
            &&& general.radio_specific ==> s.startup_action_view() == "connect-specific"@
            &&& !general.radio_specific && general.radio_recent ==> s.startup_action_view()
                == "connect-recent"@
            &&& !general.radio_specific && !general.radio_recent ==> s.startup_action_view()
                == "none"@
            &&& general.radio_specific && general.config is Some ==> {
                &&& s.specific_config_path_view() == (general.config->0).0@
                &&& s.most_recent_config_id_view() == (general.config->0).0@
                &&& s.most_recent_config_name_view() == (general.config->0).1@
            }
            &&& !(general.radio_specific && general.config is Some) ==> {
                &&& after.specific_config_path == before.specific_config_path
                &&& after.most_recent_config_id == before.most_recent_config_id
                &&& after.most_recent_config_name == before.most_recent_config_name
            }
            &&& after.launch_on_login == before.launch_on_login
            &&& after.bypass_cidrs == before.bypass_cidrs
            &&& after.bypass_cidrs_disabled == before.bypass_cidrs_disabled
            &&& after.bypass_cidrs_max_count == before.bypass_cidrs_max_count
            &&& after.logs_window_width == before.logs_window_width
            &&& after.logs_window_height == before.logs_window_height
        }),
{
}

/// A path is that of a connected session just when the tray has a session
/// under it and that session is connected.
pub proof fn law_connected_paths_are_known(tray: VpnTray, path: Seq<char>)
    ensures
        is_connected_path(tray, path) <==> {
            &&& tray@.sessions.contains_key(path)
            &&& tray@.sessions[path].status.major == StatusMajor::Connection
            &&& tray@.sessions[path].status.minor == StatusMinor::ConnConnected
        },
{
}

/// The security preferences open with what is stored; the warning is ticked,
/// and cannot be switched off, while the kill switch is on.
pub proof fn law_security_preferences_as_stored(settings: Settings)
    ensures
        ({
            let f = security_shown(settings);
            &&& f.kill_switch == settings.enable_kill_switch_spec()
            &&& f.allow_lan == settings.kill_switch_allow_lan_spec()
            &&& f.block_during_pause == settings.kill_switch_block_during_pause_spec()
            &&& f.kill_switch ==> f.warn_on_disconnect
            &&& !f.kill_switch ==> f.warn_on_disconnect
                == settings.warn_on_unexpected_disconnect_spec()
            &&& f.options_sensitive == f.kill_switch
            &&& f.warning_sensitive == !f.kill_switch
            &&& !f.helper_hint
            &&& kill_switch_ticked(f, f.kill_switch) == f
        }),
{
}

/// Switching the kill switch off releases the firewall, whoever is connected;
/// switching it on protects every connected session, and only those; leaving
/// it as it is changes nothing.
pub proof fn law_switching_the_kill_switch(
    change: KillSwitchChange,
    tray: VpnTray,
    was_on: bool,
    is_on: bool,
    p: Seq<char>,
)
    requires
        is_change_for(change, tray, was_on, is_on),
    ensures
        ({
            let connected = tray@.sessions.contains_key(p) && tray@.sessions[p].status.major
                == StatusMajor::Connection && tray@.sessions[p].status.minor
                == StatusMinor::ConnConnected;
            &&& change is Release <==> was_on && !is_on
            &&& was_on == is_on ==> change is Nothing
            &&& !was_on && is_on && connected ==> change is Protect
            &&& change is Protect ==> !was_on && is_on && (texts(change->0@).contains(p)
                <==> connected)
        }),
{
    assert(is_connected_path(tray, p) || !is_connected_path(tray, p));
}

/// The general preferences open with what is stored: the button of the startup
/// action is pressed, the chosen configuration shown, or the first one if none
/// was chosen, and a threshold is offered even where no stall is detected.
pub proof fn law_general_preferences_as_stored(
    form: GeneralForm,
    settings: Settings,
    configs: nat,
    autostart: bool,
)
    requires
        is_form_of(form, settings, configs, autostart),
    ensures
        ({
            let action = settings.startup_action_view();
            let path = settings.specific_config_path_view();
            &&& form.launch_on_login == autostart
            &&& form.startup == StartupChoice::Recent <==> action == "connect-recent"@
            &&& form.startup == StartupChoice::Specific <==> action == "connect-specific"@
            &&& form.config_sensitive <==> action == "connect-specific"@
            &&& form.config matches ConfigChoice::Path(p) ==> p@ == path && path.len() > 0
            &&& form.config is First <==> path.len() == 0 && configs > 0
            &&& form.config is Unset <==> path.len() == 0 && configs == 0
            &&& form.notifications == settings.show_notifications_spec()
            &&& form.first_run_help == settings.show_first_run_help_spec()
            &&& form.interval == settings.stats_refresh_interval_spec()
            &&& form.timeout == settings.connection_timeout_spec()
            &&& form.stall_detection <==> settings.health_check_stall_seconds_spec() != 0
            &&& form.stall_detection ==> form.stall_seconds
                == settings.health_check_stall_seconds_spec()
            &&& !form.stall_detection ==> form.stall_seconds == 60
            &&& form.auto_reconnect == settings.auto_reconnect_spec()
            &&& form.reconnect_delay == settings.auto_reconnect_delay_seconds_spec()
        }),
{
    reveal_strlit("connect-recent");
    reveal_strlit("connect-specific");
    assert("connect-recent"@.len() != "connect-specific"@.len());
}

} // verus!
