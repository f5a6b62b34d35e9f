//! The application's settings: what is stored, with the defaults that hold
//! where no store is available and the limits that hold in any case.
use vstd::prelude::*;
use vstd::string::*;

use crate::text::{copy_strings, texts};

verus! {

/// The values in the settings store.
#[derive(Debug)]
pub struct SettingsValues {
    pub startup_action: String,
    pub most_recent_config_id: String,
    pub most_recent_config_name: String,
    pub specific_config_path: String,
    pub stats_refresh_interval: u32,
    pub connection_timeout: u32,
    pub health_check_stall_seconds: u32,
    pub auto_reconnect_delay_seconds: u32,
    pub warn_on_unexpected_disconnect: bool,
    pub auto_reconnect: bool,
    pub show_notifications: bool,
    pub enable_kill_switch: bool,
    pub kill_switch_allow_lan: bool,
    pub show_first_run_help: bool,
    pub launch_on_login: bool,
    pub kill_switch_block_during_pause: bool,
    pub bypass_cidrs: Vec<String>,
    pub bypass_cidrs_disabled: Vec<String>,
    pub bypass_cidrs_max_count: i32,
    pub logs_window_width: i32,
    pub logs_window_height: i32,
}

/// The settings. Without a store every setting has its default and nothing can
/// be changed.
#[derive(Debug)]
pub struct Settings {
    pub store: Option<SettingsValues>,
}

/// The number of `lo..=hi` closest to `x`.
pub open spec fn clamped(x: int, lo: int, hi: int) -> int {
    if x < lo {
        lo
    } else if x > hi {
        hi
    } else {
        x
    }
}

fn clamp_u32(x: u32, lo: u32, hi: u32) -> (r: u32)
    requires
        lo <= hi,
    ensures
        r == clamped(x as int, lo as int, hi as int),
{
    if x < lo {
        lo
    } else if x > hi {
        hi
    } else {
        x
    }
}

fn clamp_i32(x: i32, lo: i32, hi: i32) -> (r: i32)
    requires
        lo <= hi,
    ensures
        r == clamped(x as int, lo as int, hi as int),
{
    if x < lo {
        lo
    } else if x > hi {
        hi
    } else {
        x
    }
}

impl Settings {
    /// Settings without a store.
    pub fn new_empty() -> (r: Self)
        ensures
            r.store is None,
    {
        Settings { store: None }
    }

    /// Settings over the values read from the store, if there is one.
    pub fn new(store: Option<SettingsValues>) -> (r: Self)
        ensures
            r.store == store,
    {
        Settings { store }
    }


    pub open spec fn startup_action_view(self) -> Seq<char> {
        match self.store {
            Some(v) => v.startup_action@,
            None => Seq::empty(),
        }
    }

    /// What to do at start: `connect-recent`, `connect-specific` or nothing.
    pub fn startup_action(&self) -> (r: String)
        ensures
            r@ == self.startup_action_view(),
    {
        match &self.store {
            Some(v) => v.startup_action.clone(),
            None => String::new(),
        }
    }

    /// Stores the setting.
    pub fn set_startup_action(&mut self, value: &str)
        ensures
            old(self).store is None ==> final(self).store is None,
            old(self).store is Some ==> final(self).store == Some(
                SettingsValues {
                    startup_action: final(self).store->0.startup_action,
                    ..old(self).store->0
                },
            ) && final(self).store->0.startup_action@ == value@,
            old(self).store is Some ==> final(self).startup_action_view() == value@,
    {
        match self.store.take() {
            Some(mut v) => {
                v.startup_action = value.to_owned();
                self.store = Some(v);
            },
            None => {
                self.store = None;
            },
        }
    }

    pub open spec fn most_recent_config_id_view(self) -> Seq<char> {
        match self.store {
            Some(v) => v.most_recent_config_id@,
            None => Seq::empty(),
        }
    }

    /// The path of the configuration used last.
    pub fn most_recent_config_id(&self) -> (r: String)
        ensures
            r@ == self.most_recent_config_id_view(),
    {
        match &self.store {
            Some(v) => v.most_recent_config_id.clone(),
            None => String::new(),
        }
    }

    /// Stores the setting.
    pub fn set_most_recent_config_id(&mut self, value: &str)
        ensures
            old(self).store is None ==> final(self).store is None,
            old(self).store is Some ==> final(self).store == Some(
                SettingsValues {
                    most_recent_config_id: final(self).store->0.most_recent_config_id,
                    ..old(self).store->0
                },
            ) && final(self).store->0.most_recent_config_id@ == value@,
            old(self).store is Some ==> final(self).most_recent_config_id_view() == value@,
    {
        match self.store.take() {
            Some(mut v) => {
                v.most_recent_config_id = value.to_owned();
                self.store = Some(v);
            },
            None => {
                self.store = None;
            },
        }
    }

    pub open spec fn most_recent_config_name_view(self) -> Seq<char> {
        match self.store {
            Some(v) => v.most_recent_config_name@,
            None => Seq::empty(),
        }
    }

    /// The name of the configuration used last.
    pub fn most_recent_config_name(&self) -> (r: String)
        ensures
            r@ == self.most_recent_config_name_view(),
    {
        match &self.store {
            Some(v) => v.most_recent_config_name.clone(),
            None => String::new(),
        }
    }

    /// Stores the setting.
    pub fn set_most_recent_config_name(&mut self, value: &str)
        ensures
            old(self).store is None ==> final(self).store is None,
            old(self).store is Some ==> final(self).store == Some(
                SettingsValues {
                    most_recent_config_name: final(self).store->0.most_recent_config_name,
                    ..old(self).store->0
                },
            ) && final(self).store->0.most_recent_config_name@ == value@,
            old(self).store is Some ==> final(self).most_recent_config_name_view() == value@,
    {
        match self.store.take() {
            Some(mut v) => {
                v.most_recent_config_name = value.to_owned();
                self.store = Some(v);
            },
            None => {
                self.store = None;
            },
        }
    }

    pub open spec fn specific_config_path_view(self) -> Seq<char> {
        match self.store {
            Some(v) => v.specific_config_path@,
            None => Seq::empty(),
        }
    }

    /// The path of the configuration to connect at start.
    pub fn specific_config_path(&self) -> (r: String)
        ensures
            r@ == self.specific_config_path_view(),
    {
        match &self.store {
            Some(v) => v.specific_config_path.clone(),
            None => String::new(),
        }
    }

    /// Stores the setting.
    pub fn set_specific_config_path(&mut self, value: &str)
        ensures
            old(self).store is None ==> final(self).store is None,
            old(self).store is Some ==> final(self).store == Some(
                SettingsValues {
                    specific_config_path: final(self).store->0.specific_config_path,
                    ..old(self).store->0
                },
            ) && final(self).store->0.specific_config_path@ == value@,
            old(self).store is Some ==> final(self).specific_config_path_view() == value@,
    {
        match self.store.take() {
            Some(mut v) => {
                v.specific_config_path = value.to_owned();
                self.store = Some(v);
            },
            None => {
                self.store = None;
            },
        }
    }

    pub open spec fn stats_refresh_interval_spec(self) -> int {
        match self.store {
            Some(v) => clamped(v.stats_refresh_interval as int, 10, 300),
            None => 30,
        }
    }

    /// Seconds between two refreshes of the statistics. Default 30, held within 10 and 300.
    pub fn stats_refresh_interval(&self) -> (r: u32)
        ensures
            r == self.stats_refresh_interval_spec(),
    {
        match &self.store {
            Some(v) => clamp_u32(v.stats_refresh_interval, 10, 300),
            None => 30,
        }
    }

    /// Stores the setting, brought within its limits.
    pub fn set_stats_refresh_interval(&mut self, value: u32)
        ensures
            old(self).store is None ==> final(self).store is None,
            old(self).store is Some ==> final(self).store == Some(
                SettingsValues {
                    stats_refresh_interval: clamped(value as int, 10, 300) as u32,
                    ..old(self).store->0
                },
            ),
            old(self).store is Some ==> final(self).stats_refresh_interval_spec() == clamped(
                value as int,
                10,
                300,
            ),
    {
        match self.store.take() {
            Some(mut v) => {
                v.stats_refresh_interval = clamp_u32(value, 10, 300);
                self.store = Some(v);
            },
            None => {
                self.store = None;
            },
        }
    }

    pub open spec fn connection_timeout_spec(self) -> int {
        match self.store {
            Some(v) => clamped(v.connection_timeout as int, 5, 300),
            None => 30,
        }
    }

    /// Seconds after which a connection attempt counts as slow. Default 30, held within 5 and 300.
    pub fn connection_timeout(&self) -> (r: u32)
        ensures
            r == self.connection_timeout_spec(),
    {
        match &self.store {
            Some(v) => clamp_u32(v.connection_timeout, 5, 300),
            None => 30,
        }
    }

    /// Stores the setting, brought within its limits.
    pub fn set_connection_timeout(&mut self, value: u32)
        ensures
            old(self).store is None ==> final(self).store is None,
            old(self).store is Some ==> final(self).store == Some(
                SettingsValues {
                    connection_timeout: clamped(value as int, 5, 300) as u32,
                    ..old(self).store->0
                },
            ),
            old(self).store is Some ==> final(self).connection_timeout_spec() == clamped(
                value as int,
                5,
                300,
            ),
    {
        match self.store.take() {
            Some(mut v) => {
                v.connection_timeout = clamp_u32(value, 5, 300);
                self.store = Some(v);
            },
            None => {
                self.store = None;
            },
        }
    }

    pub open spec fn health_check_stall_seconds_spec(self) -> int {
        match self.store {
            Some(v) => clamped(v.health_check_stall_seconds as int, 0, 600),
            None => 60,
        }
    }

    /// Seconds without traffic after which a session counts as stalled; zero turns the detection off. Default 60, held within 0 and 600.
    pub fn health_check_stall_seconds(&self) -> (r: u32)
        ensures
            r == self.health_check_stall_seconds_spec(),
    {
        match &self.store {
            Some(v) => clamp_u32(v.health_check_stall_seconds, 0, 600),
            None => 60,
        }
    }

    /// Stores the setting, brought within its limits.
    pub fn set_health_check_stall_seconds(&mut self, value: u32)
        ensures
            old(self).store is None ==> final(self).store is None,
            old(self).store is Some ==> final(self).store == Some(
                SettingsValues {
                    health_check_stall_seconds: clamped(value as int, 0, 600) as u32,
                    ..old(self).store->0
                },
            ),
            old(self).store is Some ==> final(self).health_check_stall_seconds_spec() == clamped(
                value as int,
                0,
                600,
            ),
    {
        match self.store.take() {
            Some(mut v) => {
                v.health_check_stall_seconds = clamp_u32(value, 0, 600);
                self.store = Some(v);
            },
            None => {
                self.store = None;
            },
        }
    }

    pub open spec fn auto_reconnect_delay_seconds_spec(self) -> int {
        match self.store {
            Some(v) => clamped(v.auto_reconnect_delay_seconds as int, 5, 300),
            None => 30,
        }
    }

    /// Seconds to wait before reconnecting after an unexpected drop. Default 30, held within 5 and 300.
    pub fn auto_reconnect_delay_seconds(&self) -> (r: u32)
        ensures
            r == self.auto_reconnect_delay_seconds_spec(),
    {
        match &self.store {
            Some(v) => clamp_u32(v.auto_reconnect_delay_seconds, 5, 300),
            None => 30,
        }
    }

    /// Stores the setting, brought within its limits.
    pub fn set_auto_reconnect_delay_seconds(&mut self, value: u32)
        ensures
            old(self).store is None ==> final(self).store is None,
            old(self).store is Some ==> final(self).store == Some(
                SettingsValues {
                    auto_reconnect_delay_seconds: clamped(value as int, 5, 300) as u32,
                    ..old(self).store->0
                },
            ),
            old(self).store is Some ==> final(self).auto_reconnect_delay_seconds_spec() == clamped(
                value as int,
                5,
                300,
            ),
    {
        match self.store.take() {
            Some(mut v) => {
                v.auto_reconnect_delay_seconds = clamp_u32(value, 5, 300);
                self.store = Some(v);
            },
            None => {
                self.store = None;
            },
        }
    }

    pub open spec fn logs_window_width_spec(self) -> int {
        match self.store {
            Some(v) => clamped(v.logs_window_width as int, 400, 4000),
            None => 800,
        }
    }

    /// Width of the log window, in pixels. Default 800, held within 400 and 4000.
    pub fn logs_window_width(&self) -> (r: i32)
        ensures
            r == self.logs_window_width_spec(),
    {
        match &self.store {
            Some(v) => clamp_i32(v.logs_window_width, 400, 4000),
            None => 800,
        }
    }

    /// Stores the setting, brought within its limits.
    pub fn set_logs_window_width(&mut self, value: i32)
        ensures
            old(self).store is None ==> final(self).store is None,
            old(self).store is Some ==> final(self).store == Some(
                SettingsValues {
                    logs_window_width: clamped(value as int, 400, 4000) as i32,
                    ..old(self).store->0
                },
            ),
            old(self).store is Some ==> final(self).logs_window_width_spec() == clamped(
                value as int,
                400,
                4000,
            ),
    {
        match self.store.take() {
            Some(mut v) => {
                v.logs_window_width = clamp_i32(value, 400, 4000);
                self.store = Some(v);
            },
            None => {
                self.store = None;
            },
        }
    }

    pub open spec fn logs_window_height_spec(self) -> int {
        match self.store {
            Some(v) => clamped(v.logs_window_height as int, 300, 3000),
            None => 600,
        }
    }

    /// Height of the log window, in pixels. Default 600, held within 300 and 3000.
    pub fn logs_window_height(&self) -> (r: i32)
        ensures
            r == self.logs_window_height_spec(),
    {
        match &self.store {
            Some(v) => clamp_i32(v.logs_window_height, 300, 3000),
            None => 600,
        }
    }

    /// Stores the setting, brought within its limits.
    pub fn set_logs_window_height(&mut self, value: i32)
        ensures
            old(self).store is None ==> final(self).store is None,
            old(self).store is Some ==> final(self).store == Some(
                SettingsValues {
                    logs_window_height: clamped(value as int, 300, 3000) as i32,
                    ..old(self).store->0
                },
            ),
            old(self).store is Some ==> final(self).logs_window_height_spec() == clamped(
                value as int,
                300,
                3000,
            ),
    {
        match self.store.take() {
            Some(mut v) => {
                v.logs_window_height = clamp_i32(value, 300, 3000);
                self.store = Some(v);
            },
            None => {
                self.store = None;
            },
        }
    }

    pub open spec fn warn_on_unexpected_disconnect_spec(self) -> bool {
        match self.store {
            Some(v) => v.warn_on_unexpected_disconnect,
            None => true,
        }
    }

    /// Whether to warn of an unexpected disconnect. Default yes.
    pub fn warn_on_unexpected_disconnect(&self) -> (r: bool)
        ensures
            r == self.warn_on_unexpected_disconnect_spec(),
    {
        match &self.store {
            Some(v) => v.warn_on_unexpected_disconnect,
            None => true,
        }
    }

    /// Stores the setting.
    pub fn set_warn_on_unexpected_disconnect(&mut self, enabled: bool)
        ensures
            old(self).store is None ==> final(self).store is None,
            old(self).store is Some ==> final(self).store == Some(
                SettingsValues { warn_on_unexpected_disconnect: enabled, ..old(self).store->0 },
            ),
            old(self).store is Some ==> final(self).warn_on_unexpected_disconnect_spec() == enabled,
    {
        match self.store.take() {
            Some(mut v) => {
                v.warn_on_unexpected_disconnect = enabled;
                self.store = Some(v);
            },
            None => {
                self.store = None;
            },
        }
    }

    pub open spec fn auto_reconnect_spec(self) -> bool {
        match self.store {
            Some(v) => v.auto_reconnect,
            None => false,
        }
    }

    /// Whether to reconnect after an unexpected drop. Default no.
    pub fn auto_reconnect(&self) -> (r: bool)
        ensures
            r == self.auto_reconnect_spec(),
    {
        match &self.store {
            Some(v) => v.auto_reconnect,
            None => false,
        }
    }

    /// Stores the setting.
    pub fn set_auto_reconnect(&mut self, enabled: bool)
        ensures
            old(self).store is None ==> final(self).store is None,
            old(self).store is Some ==> final(self).store == Some(
                SettingsValues { auto_reconnect: enabled, ..old(self).store->0 },
            ),
            old(self).store is Some ==> final(self).auto_reconnect_spec() == enabled,
    {
        match self.store.take() {
            Some(mut v) => {
                v.auto_reconnect = enabled;
                self.store = Some(v);
            },
            None => {
                self.store = None;
            },
        }
    }

    pub open spec fn show_notifications_spec(self) -> bool {
        match self.store {
            Some(v) => v.show_notifications,
            None => true,
        }
    }

    /// Whether to show desktop notifications. Default yes.
    pub fn show_notifications(&self) -> (r: bool)
        ensures
            r == self.show_notifications_spec(),
    {
        match &self.store {
            Some(v) => v.show_notifications,
            None => true,
        }
    }

    /// Stores the setting.
    pub fn set_show_notifications(&mut self, enabled: bool)
        ensures
            old(self).store is None ==> final(self).store is None,
            old(self).store is Some ==> final(self).store == Some(
                SettingsValues { show_notifications: enabled, ..old(self).store->0 },
            ),
            old(self).store is Some ==> final(self).show_notifications_spec() == enabled,
    {
        match self.store.take() {
            Some(mut v) => {
                v.show_notifications = enabled;
                self.store = Some(v);
            },
            None => {
                self.store = None;
            },
        }
    }

    pub open spec fn enable_kill_switch_spec(self) -> bool {
        match self.store {
            Some(v) => v.enable_kill_switch,
            None => false,
        }
    }

    /// Whether the kill switch is on. Default no.
    pub fn enable_kill_switch(&self) -> (r: bool)
        ensures
            r == self.enable_kill_switch_spec(),
    {
        match &self.store {
            Some(v) => v.enable_kill_switch,
            None => false,
        }
    }

    /// Stores the setting.
    pub fn set_enable_kill_switch(&mut self, enabled: bool)
        ensures
            old(self).store is None ==> final(self).store is None,
            old(self).store is Some ==> final(self).store == Some(
                SettingsValues { enable_kill_switch: enabled, ..old(self).store->0 },
            ),
            old(self).store is Some ==> final(self).enable_kill_switch_spec() == enabled,
    {
        match self.store.take() {
            Some(mut v) => {
                v.enable_kill_switch = enabled;
                self.store = Some(v);
            },
            None => {
                self.store = None;
            },
        }
    }

    pub open spec fn kill_switch_allow_lan_spec(self) -> bool {
        match self.store {
            Some(v) => v.kill_switch_allow_lan,
            None => true,
        }
    }

    /// Whether the kill switch lets local traffic pass. Default yes.
    pub fn kill_switch_allow_lan(&self) -> (r: bool)
        ensures
            r == self.kill_switch_allow_lan_spec(),
    {
        match &self.store {
            Some(v) => v.kill_switch_allow_lan,
            None => true,
        }
    }

    /// Stores the setting.
    pub fn set_kill_switch_allow_lan(&mut self, enabled: bool)
        ensures
            old(self).store is None ==> final(self).store is None,
            old(self).store is Some ==> final(self).store == Some(
                SettingsValues { kill_switch_allow_lan: enabled, ..old(self).store->0 },
            ),
            old(self).store is Some ==> final(self).kill_switch_allow_lan_spec() == enabled,
    {
        match self.store.take() {
            Some(mut v) => {
                v.kill_switch_allow_lan = enabled;
                self.store = Some(v);
            },
            None => {
                self.store = None;
            },
        }
    }

    pub open spec fn show_first_run_help_spec(self) -> bool {
        match self.store {
            Some(v) => v.show_first_run_help,
            None => true,
        }
    }

    /// Whether to show help when the service is absent. Default yes.
    pub fn show_first_run_help(&self) -> (r: bool)
        ensures
            r == self.show_first_run_help_spec(),
    {
        match &self.store {
            Some(v) => v.show_first_run_help,
            None => true,
        }
    }

    /// Stores the setting.
    pub fn set_show_first_run_help(&mut self, enabled: bool)
        ensures
            old(self).store is None ==> final(self).store is None,
            old(self).store is Some ==> final(self).store == Some(
                SettingsValues { show_first_run_help: enabled, ..old(self).store->0 },
            ),
            old(self).store is Some ==> final(self).show_first_run_help_spec() == enabled,
    {
        match self.store.take() {
            Some(mut v) => {
                v.show_first_run_help = enabled;
                self.store = Some(v);
            },
            None => {
                self.store = None;
            },
        }
    }

    pub open spec fn launch_on_login_spec(self) -> bool {
        match self.store {
            Some(v) => v.launch_on_login,
            None => false,
        }
    }

    /// Whether the program is started at login; a mirror of the file system. Default no.
    pub fn launch_on_login(&self) -> (r: bool)
        ensures
            r == self.launch_on_login_spec(),
    {
        match &self.store {
            Some(v) => v.launch_on_login,
            None => false,
        }
    }

    /// Stores the setting.
    pub fn set_launch_on_login(&mut self, enabled: bool)
        ensures
            old(self).store is None ==> final(self).store is None,
            old(self).store is Some ==> final(self).store == Some(
                SettingsValues { launch_on_login: enabled, ..old(self).store->0 },
            ),
            old(self).store is Some ==> final(self).launch_on_login_spec() == enabled,
    {
        match self.store.take() {
            Some(mut v) => {
                v.launch_on_login = enabled;
                self.store = Some(v);
            },
            None => {
                self.store = None;
            },
        }
    }

    pub open spec fn kill_switch_block_during_pause_spec(self) -> bool {
        match self.store {
            Some(v) => v.kill_switch_block_during_pause,
            None => false,
        }
    }

    /// Whether the kill switch stays up while a session is paused. Default no.
    pub fn kill_switch_block_during_pause(&self) -> (r: bool)
        ensures
            r == self.kill_switch_block_during_pause_spec(),
    {
        match &self.store {
            Some(v) => v.kill_switch_block_during_pause,
            None => false,
        }
    }

    /// Stores the setting.
    pub fn set_kill_switch_block_during_pause(&mut self, enabled: bool)
        ensures
            old(self).store is None ==> final(self).store is None,
            old(self).store is Some ==> final(self).store == Some(
                SettingsValues { kill_switch_block_during_pause: enabled, ..old(self).store->0 },
            ),
            old(self).store is Some ==> final(self).kill_switch_block_during_pause_spec() == enabled,
    {
        match self.store.take() {
            Some(mut v) => {
                v.kill_switch_block_during_pause = enabled;
                self.store = Some(v);
            },
            None => {
                self.store = None;
            },
        }
    }

    pub open spec fn bypass_cidrs_view(self) -> Seq<Seq<char>> {
        match self.store {
            Some(v) => texts(v.bypass_cidrs@),
            None => Seq::empty(),
        }
    }

    /// The networks routed outside the tunnel.
    pub fn bypass_cidrs(&self) -> (r: Vec<String>)
        ensures
            texts(r@) == self.bypass_cidrs_view(),
    {
        match &self.store {
            Some(v) => copy_strings(v.bypass_cidrs.as_slice()),
            None => Vec::new(),
        }
    }

    /// Stores the list.
    pub fn set_bypass_cidrs(&mut self, cidrs: &[String])
        ensures
            old(self).store is None ==> final(self).store is None,
            old(self).store is Some ==> final(self).store == Some(
                SettingsValues { bypass_cidrs: final(self).store->0.bypass_cidrs, ..old(self).store->0 },
            ) && final(self).store->0.bypass_cidrs@ == cidrs@,
            old(self).store is Some ==> final(self).bypass_cidrs_view() == texts(cidrs@),
    {
        match self.store.take() {
            Some(mut v) => {
                v.bypass_cidrs = copy_strings(cidrs);
                self.store = Some(v);
            },
            None => {
                self.store = None;
            },
        }
    }

    pub open spec fn bypass_cidrs_disabled_view(self) -> Seq<Seq<char>> {
        match self.store {
            Some(v) => texts(v.bypass_cidrs_disabled@),
            None => Seq::empty(),
        }
    }

    /// The networks of that list that are switched off for now.
    pub fn bypass_cidrs_disabled(&self) -> (r: Vec<String>)
        ensures
            texts(r@) == self.bypass_cidrs_disabled_view(),
    {
        match &self.store {
            Some(v) => copy_strings(v.bypass_cidrs_disabled.as_slice()),
            None => Vec::new(),
        }
    }

    /// Stores the list.
    pub fn set_bypass_cidrs_disabled(&mut self, cidrs: &[String])
        ensures
            old(self).store is None ==> final(self).store is None,
            old(self).store is Some ==> final(self).store == Some(
                SettingsValues { bypass_cidrs_disabled: final(self).store->0.bypass_cidrs_disabled, ..old(self).store->0 },
            ) && final(self).store->0.bypass_cidrs_disabled@ == cidrs@,
            old(self).store is Some ==> final(self).bypass_cidrs_disabled_view() == texts(cidrs@),
    {
        match self.store.take() {
            Some(mut v) => {
                v.bypass_cidrs_disabled = copy_strings(cidrs);
                self.store = Some(v);
            },
            None => {
                self.store = None;
            },
        }
    }

    pub open spec fn bypass_cidrs_max_count_spec(self) -> int {
        match self.store {
            Some(v) => clamped(v.bypass_cidrs_max_count as int, 1, 128),
            None => 32,
        }
    }

    /// How many bypass networks the user may list. Default 32, held within 1
    /// and the helper's own ceiling of 128.
    pub fn bypass_cidrs_max_count(&self) -> (r: i32)
        ensures
            r == self.bypass_cidrs_max_count_spec(),
    {
        match &self.store {
            Some(v) => clamp_i32(v.bypass_cidrs_max_count, 1, 128),
            None => 32,
        }
    }

    /// The configuration used last: its path and its name.
    pub fn get_most_recent_config(&self) -> (r: (String, String))
        ensures
            r.0@ == self.most_recent_config_id_view(),
            r.1@ == self.most_recent_config_name_view(),
    {
        (self.most_recent_config_id(), self.most_recent_config_name())
    }

    /// Stores the configuration used last.
    pub fn set_most_recent_config(&mut self, id: &str, name: &str)
        ensures
            old(self).store is None ==> final(self).store is None,
            old(self).store is Some ==> final(self).store == Some(
                SettingsValues {
                    most_recent_config_id: final(self).store->0.most_recent_config_id,
                    most_recent_config_name: final(self).store->0.most_recent_config_name,
                    ..old(self).store->0
                },
            ) && final(self).store->0.most_recent_config_id@ == id@
                && final(self).store->0.most_recent_config_name@ == name@,
    {
        self.set_most_recent_config_id(id);
        self.set_most_recent_config_name(name);
    }
}

impl Default for Settings {
    /// Settings without a store.
    fn default() -> (r: Self)
        ensures
            r.store is None,
    {
        Settings { store: None }
    }
}

/// Every numeric setting stays within its limits, whatever is in the store.
pub proof fn law_numbers_stay_within_limits(s: Settings)
    ensures
        10 <= s.stats_refresh_interval_spec() <= 300,
        5 <= s.connection_timeout_spec() <= 300,
        0 <= s.health_check_stall_seconds_spec() <= 600,
        5 <= s.auto_reconnect_delay_seconds_spec() <= 300,
        400 <= s.logs_window_width_spec() <= 4000,
        300 <= s.logs_window_height_spec() <= 3000,
        1 <= s.bypass_cidrs_max_count_spec() <= 128,
{
}

/// A stored number within its limits counts as it is, and one beyond them as
/// the nearer limit; without a store the defaults count.
pub proof fn law_numbers_and_their_limits(s: Settings)
    ensures
        s.store is None ==> {
            &&& s.stats_refresh_interval_spec() == 30
            &&& s.connection_timeout_spec() == 30
            &&& s.health_check_stall_seconds_spec() == 60
            &&& s.auto_reconnect_delay_seconds_spec() == 30
            &&& s.logs_window_width_spec() == 800
            &&& s.logs_window_height_spec() == 600
            &&& s.bypass_cidrs_max_count_spec() == 32
        },
        s.store matches Some(v) ==> {
            &&& 10 <= v.stats_refresh_interval <= 300 ==> s.stats_refresh_interval_spec()
                == v.stats_refresh_interval
            &&& v.stats_refresh_interval < 10 ==> s.stats_refresh_interval_spec() == 10
            &&& v.stats_refresh_interval > 300 ==> s.stats_refresh_interval_spec() == 300
            &&& 5 <= v.connection_timeout <= 300 ==> s.connection_timeout_spec()
                == v.connection_timeout
            &&& v.connection_timeout < 5 ==> s.connection_timeout_spec() == 5
            &&& v.connection_timeout > 300 ==> s.connection_timeout_spec() == 300
            &&& v.health_check_stall_seconds <= 600 ==> s.health_check_stall_seconds_spec()
                == v.health_check_stall_seconds
            &&& v.health_check_stall_seconds > 600 ==> s.health_check_stall_seconds_spec() == 600
            &&& 5 <= v.auto_reconnect_delay_seconds <= 300
                ==> s.auto_reconnect_delay_seconds_spec() == v.auto_reconnect_delay_seconds
            &&& v.auto_reconnect_delay_seconds < 5 ==> s.auto_reconnect_delay_seconds_spec() == 5
            &&& v.auto_reconnect_delay_seconds > 300 ==> s.auto_reconnect_delay_seconds_spec()
                == 300
            &&& 400 <= v.logs_window_width <= 4000 ==> s.logs_window_width_spec()
                == v.logs_window_width
            &&& v.logs_window_width < 400 ==> s.logs_window_width_spec() == 400
            &&& v.logs_window_width > 4000 ==> s.logs_window_width_spec() == 4000
            &&& 300 <= v.logs_window_height <= 3000 ==> s.logs_window_height_spec()
                == v.logs_window_height
            &&& v.logs_window_height < 300 ==> s.logs_window_height_spec() == 300
            &&& v.logs_window_height > 3000 ==> s.logs_window_height_spec() == 3000
            &&& 1 <= v.bypass_cidrs_max_count <= 128 ==> s.bypass_cidrs_max_count_spec()
                == v.bypass_cidrs_max_count
            &&& v.bypass_cidrs_max_count < 1 ==> s.bypass_cidrs_max_count_spec() == 1
            &&& v.bypass_cidrs_max_count > 128 ==> s.bypass_cidrs_max_count_spec() == 128
        },
{
}

/// Texts, lists and switches count as they are stored. Without a store the
/// texts and lists are empty; the user is warned, notified and helped, the
/// local network stays open, and everything else is off.
pub proof fn law_texts_and_switches(s: Settings)
    ensures
        s.store is None ==> {
            &&& s.startup_action_view().len() == 0
            &&& s.most_recent_config_id_view().len() == 0
            &&& s.most_recent_config_name_view().len() == 0
            &&& s.specific_config_path_view().len() == 0
            &&& s.bypass_cidrs_view().len() == 0
            &&& s.bypass_cidrs_disabled_view().len() == 0
            &&& s.warn_on_unexpected_disconnect_spec()
            &&& s.show_notifications_spec()
            &&& s.show_first_run_help_spec()
            &&& s.kill_switch_allow_lan_spec()
            &&& !s.auto_reconnect_spec()
            &&& !s.enable_kill_switch_spec()
            &&& !s.launch_on_login_spec()
            &&& !s.kill_switch_block_during_pause_spec()
        },
        s.store matches Some(v) ==> {
            &&& s.startup_action_view() == v.startup_action@
            &&& s.most_recent_config_id_view() == v.most_recent_config_id@
            &&& s.most_recent_config_name_view() == v.most_recent_config_name@
            &&& s.specific_config_path_view() == v.specific_config_path@
            &&& s.bypass_cidrs_view() == texts(v.bypass_cidrs@)
            &&& s.bypass_cidrs_disabled_view() == texts(v.bypass_cidrs_disabled@)
            &&& s.warn_on_unexpected_disconnect_spec() == v.warn_on_unexpected_disconnect
            &&& s.show_notifications_spec() == v.show_notifications
            &&& s.show_first_run_help_spec() == v.show_first_run_help
            &&& s.kill_switch_allow_lan_spec() == v.kill_switch_allow_lan
            &&& s.auto_reconnect_spec() == v.auto_reconnect
            &&& s.enable_kill_switch_spec() == v.enable_kill_switch
            &&& s.launch_on_login_spec() == v.launch_on_login
            &&& s.kill_switch_block_during_pause_spec() == v.kill_switch_block_during_pause
        },
{
}

/// Bringing a number within limits gives the nearest number there.
pub proof fn law_nearest_within_limits(x: int, lo: int, hi: int, other: int)
    requires
        lo <= other <= hi,
    ensures
        lo <= clamped(x, lo, hi) <= hi,
        lo <= x <= hi ==> clamped(x, lo, hi) == x,
        x < lo ==> clamped(x, lo, hi) - x <= other - x,
        x > hi ==> x - clamped(x, lo, hi) <= x - other,
{
}

} // verus!
