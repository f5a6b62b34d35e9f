//! Starting on login: the entry that the desktop reads, where it lies, and how
//! the setting follows it.
use vstd::prelude::*;
use vstd::string::*;

use crate::config::APPLICATION_ID;
use crate::notify::{plain_toast, show_error_notification, Toast};
use crate::settings::{Settings, SettingsValues};
use crate::text::texts;

verus! {

/// The directory below which the entry lies.
#[derive(Clone, Copy, Debug, PartialEq, Eq, Structural)]
pub enum AutostartBase {
    /// The one that `XDG_CONFIG_HOME` names.
    XdgConfigHome,
    /// The user's home directory.
    Home,
}

/// Where the entry lies: the steps below a directory.
#[derive(Debug)]
pub struct AutostartPath {
    pub base: AutostartBase,
    pub below: Vec<String>,
}

/// What is said when neither directory is known.
pub const NO_PLACE: &'static str = "XDG_CONFIG_HOME and HOME both unset";

/// The path is that of the entry: below `XDG_CONFIG_HOME` if that is known,
/// else below the home directory.
pub open spec fn is_entry_path(path: AutostartPath, xdg_config_home: bool) -> bool {
    if xdg_config_home {
        path.base == AutostartBase::XdgConfigHome && texts(path.below@) == seq![
            "autostart"@,
            APPLICATION_ID@ + ".desktop"@,
        ]
    } else {
        path.base == AutostartBase::Home && texts(path.below@) == seq![
            ".config"@,
            "autostart"@,
            APPLICATION_ID@ + ".desktop"@,
        ]
    }
}

/// Where the entry lies, given which directories are known.
pub fn autostart_path(xdg_config_home: bool, home: bool) -> (r: Option<AutostartPath>)
    ensures
        r is None == (!xdg_config_home && !home),
        r is Some ==> is_entry_path(r->0, xdg_config_home),
{
    let mut below: Vec<String> = Vec::new();
    let base = if xdg_config_home {
        AutostartBase::XdgConfigHome
    } else if home {
        below.push(".config".to_owned());
        AutostartBase::Home
    } else {
        return None;
    };
    below.push("autostart".to_owned());
    let mut name = APPLICATION_ID.to_owned();
    name.append(".desktop");
    below.push(name);
    assert(texts(below@) =~= (if xdg_config_home {
        seq!["autostart"@, APPLICATION_ID@ + ".desktop"@]
    } else {
        seq![".config"@, "autostart"@, APPLICATION_ID@ + ".desktop"@]
    }));
    Some(AutostartPath { base, below })
}

/// Where to write the entry that makes the program start on login, in place of
/// one that is there; the directories above it are made first. An error if
/// there is no place for it.
pub fn enable(xdg_config_home: bool, home: bool) -> (r: Result<AutostartPath, String>)
    ensures
        r is Ok == (xdg_config_home || home),
        r is Ok ==> is_entry_path(r->Ok_0, xdg_config_home),
        r is Err ==> r->Err_0@ == NO_PLACE@,
{
    match autostart_path(xdg_config_home, home) {
        Some(path) => Ok(path),
        None => Err(NO_PLACE.to_owned()),
    }
}

/// Where to remove the entry, so that the program does not start on login;
/// nothing if there is no place for it.
pub fn disable(xdg_config_home: bool, home: bool) -> (r: Option<AutostartPath>)
    ensures
        r is Some == (xdg_config_home || home),
        r is Some ==> is_entry_path(r->0, xdg_config_home),
{
    autostart_path(xdg_config_home, home)
}

/// What the file system answered when the entry was to be written or removed.
#[derive(Debug)]
pub enum EntryReply<T = String> {
    /// It was written or removed.
    Done,
    /// There is no such file.
    NotFound(T),
    /// It failed in another way; the error's text.
    Failed(T),
}

pub open spec fn write_result(reply: EntryReply) -> Result<(), String> {
    match reply {
        EntryReply::Done => Ok(()),
        EntryReply::NotFound(e) => Err(e),
        EntryReply::Failed(e) => Err(e),
    }
}

/// How writing the entry ended.
pub fn entry_written(reply: EntryReply) -> (r: Result<(), String>)
    ensures
        r == write_result(reply),
{
    match reply {
        EntryReply::Done => Ok(()),
        EntryReply::NotFound(e) => Err(e),
        EntryReply::Failed(e) => Err(e),
    }
}

pub open spec fn remove_result(reply: EntryReply) -> Result<(), String> {
    match reply {
        EntryReply::Failed(e) => Err(e),
        _ => Ok(()),
    }
}

/// How removing the entry ended. That there is none is no error.
pub fn entry_removed(reply: EntryReply) -> (r: Result<(), String>)
    ensures
        r == remove_result(reply),
{
    match reply {
        EntryReply::Failed(e) => Err(e),
        _ => Ok(()),
    }
}

/// The entry is there; nothing is known of it if there is no place for it.
pub open spec fn starts_on_login(entry_exists: Option<bool>) -> bool {
    entry_exists == Some(true)
}

/// Whether the program starts on login: whether the entry is there, if there is
/// a place for it.
pub fn is_enabled(entry_exists: Option<bool>) -> (r: bool)
    ensures
        r == starts_on_login(entry_exists),
{
    match entry_exists {
        Some(exists) => exists,
        None => false,
    }
}

/// The setting follows the entry. It is only stored if it differs.
pub fn sync_gsettings_from_fs(settings: &mut Settings, entry_exists: Option<bool>)
    ensures
        final(settings).store is Some == old(settings).store is Some,
        old(settings).store is Some ==> final(settings).store->0 == (SettingsValues {
            launch_on_login: starts_on_login(entry_exists),
            ..old(settings).store->0
        }),
{
    let state = is_enabled(entry_exists);
    if settings.launch_on_login() != state {
        settings.set_launch_on_login(state);
    }
}

/// Takes in how writing or removing the entry ended: the setting follows if it
/// worked, and the user is told if it did not.
pub fn launch_on_login_toggled(
    settings: &mut Settings,
    want: bool,
    result: &Result<(), String>,
) -> (r: Option<Toast>)
    ensures
        final(settings).store is Some == old(settings).store is Some,
        match *result {
            Ok(_) => r is None && (old(settings).store is Some ==> final(settings).store->0 == (
            SettingsValues { launch_on_login: want, ..old(settings).store->0 })),
            Err(e) => *final(settings) == *old(settings) && r is Some && r->0@ == plain_toast(
                "Launch on Login Failed"@,
                "Could not update autostart entry: "@ + e@,
                2,
            ),
        },
{
    match result {
        Ok(_) => {
            settings.set_launch_on_login(want);
            None
        },
        Err(e) => {
            let mut text = "Could not update autostart entry: ".to_owned();
            text.append(e.as_str());
            Some(show_error_notification("Launch on Login Failed", text.as_str()))
        },
    }
}

/// The entry that makes the desktop start the program on login.
pub const DESKTOP_ENTRY: &'static str =
    "[Desktop Entry]\nType=Application\nName=OpenVPN3 GUI\nComment=A Rust OpenVPN3 GUI for Linux\nExec=openvpn3-gui-rs\nIcon=openvpn3-gui-rs-idle\nTerminal=false\nCategories=Network;VPN;Security;\nStartupNotify=false\nX-GNOME-Autostart-enabled=true\nX-KDE-autostart-phase=2\nHidden=false\n";

/// The text of the entry.
pub fn desktop_entry() -> (r: &'static str)
    ensures
        r@ == DESKTOP_ENTRY@,
{
    DESKTOP_ENTRY
}

/// What is known of the entry, given whether there is a place for it and
/// whether the file is there.
pub open spec fn entry_state(place: bool, there: bool) -> Option<bool> {
    if place {
        Some(there)
    } else {
        None
    }
}

/// The file is there or not after the file system was told to write it and has
/// answered: once it says that it was written, it is there.
pub open spec fn after_writing(reply: EntryReply, there: bool) -> bool {
    reply is Done ==> there
}

/// The file is there or not after the file system was told to remove it and has
/// answered: once it says that it was removed, or that there is none, it is
/// not there.
pub open spec fn after_removing(reply: EntryReply, there: bool) -> bool {
    !(reply is Failed) ==> !there
}

/// Once starting on login was switched on, it is read back as on.
pub proof fn law_switched_on_is_read_back(
    xdg_config_home: bool,
    home: bool,
    reply: EntryReply,
    there: bool,
)
    requires
        xdg_config_home || home,
        after_writing(reply, there),
        write_result(reply) is Ok,
    ensures
        starts_on_login(entry_state(xdg_config_home || home, there)),
{
}

/// Once starting on login was switched off, it is read back as off, also if
/// there was no entry to remove or is no place for one. Without a place for the
/// entry it is off whatever was asked for.
pub proof fn law_switched_off_is_read_back(
    xdg_config_home: bool,
    home: bool,
    reply: EntryReply,
    there: bool,
)
    requires
        xdg_config_home || home ==> after_removing(reply, there) && remove_result(reply) is Ok,
    ensures
        !starts_on_login(entry_state(xdg_config_home || home, there)),
{
}

/// After the setting has followed the entry, it says what the entry says,
/// whatever it said before.
pub proof fn law_setting_follows_the_entry(
    before: SettingsValues,
    after: SettingsValues,
    entry_exists: Option<bool>,
)
    requires
        after == (SettingsValues { launch_on_login: starts_on_login(entry_exists), ..before }),
    ensures
        (Settings { store: Some(after) }).launch_on_login_spec() == starts_on_login(entry_exists),
{
}

/// The entry lies in the directory for such entries, under the application's
/// identifier: below the configured directory if that is known, else below the
/// home directory's own.
pub proof fn law_place_of_the_entry(path: AutostartPath, xdg_config_home: bool)
    requires
        is_entry_path(path, xdg_config_home),
    ensures
        ({
            let below = texts(path.below@);
            let n = below.len() as int;
            &&& path.base == AutostartBase::XdgConfigHome <==> xdg_config_home
            &&& path.base == AutostartBase::Home <==> !xdg_config_home
            &&& n == (if xdg_config_home {
                2int
            } else {
                3int
            })
            &&& below[n - 2] == "autostart"@
            &&& below[n - 1] == "net.openvpn.openvpn3_gui_rs"@ + ".desktop"@
            &&& !xdg_config_home ==> below[0] == ".config"@
        }),
{
}

/// Writing ends well just when the entry was written; removing ends well
/// unless it failed, and then the error is told as it is.
pub proof fn law_ends_of_writing_and_removing(reply: EntryReply)
    ensures
        write_result(reply) is Ok <==> reply is Done,
        remove_result(reply) is Ok <==> reply is Done || reply is NotFound,
        reply matches EntryReply::Failed(e) ==> write_result(reply) == Err::<(), String>(e)
            && remove_result(reply) == Err::<(), String>(e),
        reply matches EntryReply::NotFound(e) ==> write_result(reply) == Err::<(), String>(e),
{
}

/// The program starts on login just when the entry is known to be there.
pub proof fn law_entry_decides_about_login(entry_exists: Option<bool>)
    ensures
        starts_on_login(entry_exists) <==> entry_exists is Some && entry_exists->0,
{
}

} // verus!
