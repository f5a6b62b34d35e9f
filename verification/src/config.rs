//! Names and numbers of the application.
use vstd::prelude::*;

verus! {

/// The application's name.
pub const APPLICATION_NAME: &'static str = "openvpn3-gui-rs";

/// The application's title.
pub const APPLICATION_TITLE: &'static str = "OpenVPN3 GUI";

/// The application's identifier on the bus.
pub const APPLICATION_ID: &'static str = "net.openvpn.openvpn3_gui_rs";

/// The bus name of the configuration manager.
pub const OPENVPN3_SERVICE: &'static str = "net.openvpn.v3.configuration";

/// The bus name of the session manager.
pub const OPENVPN3_SESSIONS_SERVICE: &'static str = "net.openvpn.v3.sessions";

/// The oldest manager that is supported.
pub const MANAGER_VERSION_MINIMUM: u32 = 20;

/// The oldest manager that is recommended.
pub const MANAGER_VERSION_RECOMMENDED: u32 = 21;

/// The oldest kill-switch helper that is supported.
pub const MIN_HELPER_VERSION: &'static str = "0.1.0";

/// The icon of an idle application.
pub const DEFAULT_ICON: &'static str = "openvpn3-gui-rs-idle";

/// The description of a status that is not known.
pub const DEFAULT_DESCRIPTION: &'static str = "Unknown";

/// The bus name of the kill-switch helper.
pub const BUS_NAME: &'static str = "net.openvpn.v3.killswitch";

/// The object path of the kill-switch helper.
pub const OBJECT_PATH: &'static str = "/net/openvpn/v3/killswitch";

} // verus!
