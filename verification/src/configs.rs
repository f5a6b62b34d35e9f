//! Configurations: listing, importing, removing and forgetting them, and what
//! the user is told about it.
use vstd::prelude::*;
use vstd::string::*;

use crate::notify::{
    plain_toast, show_error_notification, show_info_notification, shown, Toast,
};
use crate::sessions::{or_text, text_or};
use crate::settings::Settings;
use crate::text::{
    contains, decimal, decimal_text, has_substring, law_part_occurs_in_the_whole, opt_text,
};
use crate::tray::{configs_model, ConfigInfo, TrayModel, VpnTray};

verus! {

/// The configurations whose name could be read, in order. Each read is a path
/// and its name, if there is one.
pub open spec fn named_configs(reads: Seq<(String, Option<String>)>) -> Seq<
    ConfigInfo<Seq<char>>,
>
    decreases reads.len(),
{
    if reads.len() == 0 {
        Seq::empty()
    } else {
        let rest = named_configs(reads.drop_last());
        match reads.last().1 {
            Some(name) => rest.push(ConfigInfo { path: reads.last().0@, name: name@ }),
            None => rest,
        }
    }
}

/// The configurations whose name could be read, in order.
pub fn fetch_config_infos(reads: &[(String, Option<String>)]) -> (r: Vec<ConfigInfo>)
    ensures
        configs_model(r@) == named_configs(reads@),
{
    let mut out: Vec<ConfigInfo> = Vec::new();
    let mut i: usize = 0;
    assert(reads@.take(0) =~= Seq::empty());
    assert(configs_model(out@) =~= named_configs(reads@.take(0)));
    while i < reads.len()
        invariant
            i <= reads.len(),
            configs_model(out@) == named_configs(reads@.take(i as int)),
        decreases reads.len() - i,
    {
        let ghost before = configs_model(out@);
        assert(reads@.take(i as int + 1).drop_last() =~= reads@.take(i as int));
        match &reads[i].1 {
            Some(name) => {
                let info = ConfigInfo { path: reads[i].0.clone(), name: name.clone() };
                out.push(info);
                assert(configs_model(out@) =~= before.push(info@));
            },
            None => {},
        }
        i = i + 1;
    }
    assert(reads@.take(i as int) =~= reads@);
    out
}

/// Shows the configurations whose name could be read.
pub fn refresh_configs(tray: &mut VpnTray, reads: &[(String, Option<String>)])
    ensures
        final(tray)@ == (TrayModel { configs: named_configs(reads@), ..old(tray)@ }),
{
    tray.configs = fetch_config_infos(reads);
}

/// The name that is offered for an import: the file's name without its
/// extension, if that is text.
pub fn default_import_name(stem: Option<String>) -> (r: String)
    ensures
        r@ == text_or(stem, "VPN"@),
{
    or_text(stem, "VPN")
}

/// Whether an import is started under this name; without one the window just
/// closes.
pub fn import_is_named(name: &str) -> (r: bool)
    ensures
        r == (name@.len() > 0),
{
    !name.is_empty()
}

/// What follows the check of a configuration that was just imported.
#[derive(Clone, Copy, Debug, PartialEq, Eq, Structural)]
pub enum ImportVerdict {
    /// It is kept.
    Keep,
    /// It is removed again, and the import has failed.
    Reject,
}

/// The error says that the service cannot check configurations.
pub open spec fn check_unsupported(error: Seq<char>) -> bool {
    has_substring(error, "UnknownMethod"@) || has_substring(error, "NoSuchMethod"@)
        || has_substring(error, "not exist"@) || has_substring(error, "No such interface"@)
}

/// What follows the check of a configuration that was just imported.
pub open spec fn import_verdict(error: Option<Seq<char>>) -> ImportVerdict {
    match error {
        Some(e) => if check_unsupported(e) {
            ImportVerdict::Keep
        } else {
            ImportVerdict::Reject
        },
        None => ImportVerdict::Keep,
    }
}

/// What follows the check of a configuration that was just imported; `error`
/// is the text of the check's error. Services that cannot check configurations
/// accept every one.
pub fn judge_import(error: &Option<String>) -> (r: ImportVerdict)
    ensures
        r == (match *error {
            Some(e) => if check_unsupported(e@) {
                ImportVerdict::Keep
            } else {
                ImportVerdict::Reject
            },
            None => ImportVerdict::Keep,
        }),
        r == import_verdict(opt_text(*error)),
{
    match error {
        Some(e) => if contains(e.as_str(), "UnknownMethod") || contains(
            e.as_str(),
            "NoSuchMethod",
        ) || contains(e.as_str(), "not exist") || contains(e.as_str(), "No such interface") {
            ImportVerdict::Keep
        } else {
            ImportVerdict::Reject
        },
        None => ImportVerdict::Keep,
    }
}

/// The error of an import whose configuration was rejected.
pub fn rejection_text(error: &str) -> (r: String)
    ensures
        r@ == "configuration failed validation: "@ + error@,
{
    let mut out = "configuration failed validation: ".to_owned();
    out.append(error);
    out
}

/// The notification about an import; an error is its text.
pub fn import_notice(settings: &Settings, name: &str, error: &Option<String>) -> (r: Option<Toast>)
    ensures
        match *error {
            None => shown(
                r,
                settings.show_notifications_spec(),
                plain_toast(
                    "Import Successful"@,
                    "Configuration '"@ + name@ + "' has been imported"@,
                    1,
                ),
            ),
            Some(e) => r is Some && r->0@ == plain_toast(
                "Import Failed"@,
                "Could not import configuration: "@ + e@,
                2,
            ),
        },
{
    match error {
        None => {
            let mut text = "Configuration '".to_owned();
            text.append(name);
            text.append("' has been imported");
            show_info_notification(settings, "Import Successful", text.as_str())
        },
        Some(e) => {
            let mut text = "Could not import configuration: ".to_owned();
            text.append(e.as_str());
            Some(show_error_notification("Import Failed", text.as_str()))
        },
    }
}

/// Title and text of the window that tells how an import ended, whatever the
/// settings say.
pub fn show_import_result_dialog(success: bool, name: &str, detail: &Option<String>) -> (r: (
    String,
    String,
))
    ensures
        r.0@ == (if success {
            "Import Successful"@
        } else {
            "Import Failed"@
        }),
        r.1@ == (if success {
            "Configuration '"@ + name@ + "' has been imported."@
        } else {
            match *detail {
                Some(d) => "Could not import configuration '"@ + name@ + "':\n"@ + d@,
                None => "Could not import configuration '"@ + name@ + "'."@,
            }
        }),
{
    if success {
        let mut text = "Configuration '".to_owned();
        text.append(name);
        text.append("' has been imported.");
        ("Import Successful".to_owned(), text)
    } else {
        let mut text = "Could not import configuration '".to_owned();
        text.append(name);
        match detail {
            Some(d) => {
                text.append("':\n");
                text.append(d.as_str());
            },
            None => {
                text.append("'.");
            },
        }
        ("Import Failed".to_owned(), text)
    }
}

/// The notification about a removal; an error is its text.
pub fn removal_notice(settings: &Settings, error: &Option<String>) -> (r: Option<Toast>)
    ensures
        match *error {
            None => shown(
                r,
                settings.show_notifications_spec(),
                plain_toast("Configuration Removed"@, "Configuration has been removed"@, 1),
            ),
            Some(e) => r is Some && r->0@ == plain_toast(
                "Remove Failed"@,
                "Could not remove configuration: "@ + e@,
                2,
            ),
        },
{
    match error {
        None => show_info_notification(
            settings,
            "Configuration Removed",
            "Configuration has been removed",
        ),
        Some(e) => {
            let mut text = "Could not remove configuration: ".to_owned();
            text.append(e.as_str());
            Some(show_error_notification("Remove Failed", text.as_str()))
        },
    }
}

/// How forgetting the secrets of a configuration ended.
#[derive(Debug)]
pub enum ForgetResult {
    /// So many secrets were deleted.
    Forgotten(usize),
    /// The keyring is locked.
    Locked,
    /// It failed; the error's text.
    Failed(String),
}

/// The notification about forgetting the secrets of a configuration.
pub fn forget_notice(settings: &Settings, name: &str, result: &ForgetResult) -> (r: Option<Toast>)
    ensures
        match *result {
            ForgetResult::Forgotten(n) => shown(
                r,
                settings.show_notifications_spec(),
                plain_toast(
                    "Credentials Forgotten"@,
                    if n == 0 {
                        "No saved credentials found for '"@ + name@ + "'."@
                    } else {
                        decimal(n as nat) + " saved credential(s) removed for '"@ + name@ + "'."@
                    },
                    1,
                ),
            ),
            ForgetResult::Locked => r is Some && r->0@ == plain_toast(
                "Forget Failed"@,
                "Keyring is locked — saved credentials could not be forgotten."@,
                2,
            ),
            ForgetResult::Failed(e) => r is Some && r->0@ == plain_toast(
                "Forget Failed"@,
                "Could not forget credentials: "@ + e@,
                2,
            ),
        },
{
    match result {
        ForgetResult::Forgotten(n) => {
            let text = if *n == 0 {
                let mut t = "No saved credentials found for '".to_owned();
                t.append(name);
                t.append("'.");
                t
            } else {
                let mut t = decimal_text(*n as u64);
                t.append(" saved credential(s) removed for '");
                t.append(name);
                t.append("'.");
                t
            };
            show_info_notification(settings, "Credentials Forgotten", text.as_str())
        },
        ForgetResult::Locked => Some(
            show_error_notification(
                "Forget Failed",
                "Keyring is locked — saved credentials could not be forgotten.",
            ),
        ),
        ForgetResult::Failed(e) => {
            let mut text = "Could not forget credentials: ".to_owned();
            text.append(e.as_str());
            Some(show_error_notification("Forget Failed", text.as_str()))
        },
    }
}

/// What the window asks before a configuration is removed.
pub fn removal_question(name: &str) -> (r: String)
    ensures
        r@ == "Remove configuration '"@ + name@ + "'?\n\nThis action cannot be undone."@,
{
    let mut text = "Remove configuration '".to_owned();
    text.append(name);
    text.append("'?\n\nThis action cannot be undone.");
    text
}

/// What the window asks before the secrets of a configuration are forgotten.
pub fn forget_question(name: &str) -> (r: String)
    ensures
        r@ == "Forget saved credentials for '"@ + name@
            + "'?\n\nRemoves the saved username and password for this configuration. The configuration itself is kept.\n\nThis action cannot be undone."@,
{
    let mut text = "Forget saved credentials for '".to_owned();
    text.append(name);
    text.append(
        "'?\n\nRemoves the saved username and password for this configuration. The configuration itself is kept.\n\nThis action cannot be undone.",
    );
    text
}

/// What the user asked a session to do, when it failed.
#[derive(Clone, Copy, Debug, PartialEq, Eq, Structural)]
pub enum FailedAction {
    Connect,
    Reconnect,
    Disconnect,
    Pause,
    Resume,
    Restart,
}

pub open spec fn failure_title(action: FailedAction) -> Seq<char> {
    match action {
        FailedAction::Connect => "Connection Failed"@,
        FailedAction::Reconnect => "Reconnect Failed"@,
        FailedAction::Disconnect => "Disconnect Failed"@,
        FailedAction::Pause => "Pause Failed"@,
        FailedAction::Resume => "Resume Failed"@,
        FailedAction::Restart => "Restart Failed"@,
    }
}

pub open spec fn failure_text(action: FailedAction) -> Seq<char> {
    match action {
        FailedAction::Connect => "Could not connect to VPN: "@,
        FailedAction::Reconnect => "Could not reconnect to VPN: "@,
        FailedAction::Disconnect => "Could not disconnect VPN session: "@,
        FailedAction::Pause => "Could not pause VPN session: "@,
        FailedAction::Resume => "Could not resume VPN session: "@,
        FailedAction::Restart => "Could not restart VPN session: "@,
    }
}

/// The notification about an action that failed; `error` is the error's text.
pub fn failure_notice(action: FailedAction, error: &str) -> (r: Toast)
    ensures
        r@ == plain_toast(failure_title(action), failure_text(action) + error@, 2),
{
    let (title, start): (&str, &str) = match action {
        FailedAction::Connect => ("Connection Failed", "Could not connect to VPN: "),
        FailedAction::Reconnect => ("Reconnect Failed", "Could not reconnect to VPN: "),
        FailedAction::Disconnect => ("Disconnect Failed", "Could not disconnect VPN session: "),
        FailedAction::Pause => ("Pause Failed", "Could not pause VPN session: "),
        FailedAction::Resume => ("Resume Failed", "Could not resume VPN session: "),
        FailedAction::Restart => ("Restart Failed", "Could not restart VPN session: "),
    };
    let mut text = start.to_owned();
    text.append(error);
    show_error_notification(title, text.as_str())
}

/// The notification about a connection at startup that failed.
pub fn startup_failure_notice(name: &str, error: &str) -> (r: Toast)
    ensures
        r@ == plain_toast(
            "Connection Failed"@,
            "Could not connect to '"@ + name@ + "': "@ + error@,
            2,
        ),
{
    let mut text = "Could not connect to '".to_owned();
    text.append(name);
    text.append("': ");
    text.append(error);
    show_error_notification("Connection Failed", text.as_str())
}

pub open spec fn reapply_failure_toast(error: Seq<char>) -> Toast<Seq<char>> {
    plain_toast(
        "Kill-Switch Re-Apply Failed"@,
        "Firewall rules could not be re-applied after restart: "@ + error,
        2,
    )
}

/// The notification when a session that was connected before the program
/// started could not be protected again.
pub fn reapply_failure_notice(error: &str) -> (r: Toast)
    ensures
        r@ == reapply_failure_toast(error@),
{
    let mut text = "Firewall rules could not be re-applied after restart: ".to_owned();
    text.append(error);
    show_error_notification("Kill-Switch Re-Apply Failed", text.as_str())
}

pub open spec fn protect_failure_toast(error: Seq<char>) -> Toast<Seq<char>> {
    plain_toast("Kill-Switch Failed"@, "Firewall rules could not be applied: "@ + error, 2)
}

/// The notification when the rules of a session that has just connected could
/// not be applied.
pub fn protect_failure_notice(error: &str) -> (r: Toast)
    ensures
        r@ == protect_failure_toast(error@),
{
    let mut text = "Firewall rules could not be applied: ".to_owned();
    text.append(error);
    show_error_notification("Kill-Switch Failed", text.as_str())
}

/// The notification when an exported log could not be written to `path`.
pub fn export_failure_notice(path: &str, error: &str) -> (r: Toast)
    ensures
        r@ == plain_toast(
            "Log Export Failed"@,
            "Could not write to "@ + path@ + ": "@ + error@,
            2,
        ),
{
    let mut text = "Could not write to ".to_owned();
    text.append(path);
    text.append(": ");
    text.append(error);
    show_error_notification("Log Export Failed", text.as_str())
}

/// The notification when the program cannot follow the sessions' statuses.
pub fn monitoring_failure_notice() -> (r: Toast)
    ensures
        r@ == plain_toast(
            "Status Monitoring Failed"@,
            "Could not subscribe to VPN status updates. The app will run but may not reflect connection changes."@,
            2,
        ),
{
    show_error_notification(
        "Status Monitoring Failed",
        "Could not subscribe to VPN status updates. The app will run but may not reflect connection changes.",
    )
}

/// What is told of a failure to protect a session holds the error's text, is
/// critical, and differs by the occasion.
pub proof fn law_failure_notices_tell_the_error(error: Seq<char>)
    ensures
        has_substring(protect_failure_toast(error).body, error),
        has_substring(reapply_failure_toast(error).body, error),
        protect_failure_toast(error).urgency == 2,
        reapply_failure_toast(error).urgency == 2,
        protect_failure_toast(error).summary != reapply_failure_toast(error).summary,
{
    let a = "Firewall rules could not be applied: "@;
    let b = "Firewall rules could not be re-applied after restart: "@;
    law_part_occurs_in_the_whole(a, error, Seq::empty());
    law_part_occurs_in_the_whole(b, error, Seq::empty());
    assert(a + error + Seq::empty() =~= a + error);
    assert(b + error + Seq::empty() =~= b + error);
    reveal_strlit("Kill-Switch Failed");
    reveal_strlit("Kill-Switch Re-Apply Failed");
    assert("Kill-Switch Failed"@.len() != "Kill-Switch Re-Apply Failed"@.len());
}

/// The list of configurations holds every one whose name could be read and no
/// other.
pub proof fn law_every_named_config_is_listed(
    reads: Seq<(String, Option<String>)>,
    c: ConfigInfo<Seq<char>>,
)
    ensures
        named_configs(reads).contains(c) <==> exists|i: int|
            0 <= i < reads.len() && (#[trigger] reads[i]).1 is Some && c.path == reads[i].0@
                && c.name == (reads[i].1->0)@,
    decreases reads.len(),
{
    let all = named_configs(reads);
    if reads.len() > 0 {
        let rest = reads.drop_last();
        let before = named_configs(rest);
        law_every_named_config_is_listed(rest, c);
        if before.contains(c) {
            let k = choose|k: int| 0 <= k < before.len() && before[k] == c;
            assert(all[k] == c);
            let i = choose|i: int|
                0 <= i < rest.len() && (#[trigger] rest[i]).1 is Some && c.path == rest[i].0@
                    && c.name == (rest[i].1->0)@;
            assert(reads[i] == rest[i]);
        } else if all.contains(c) {
            let k = choose|k: int| 0 <= k < all.len() && all[k] == c;
            if k < before.len() {
                assert(before[k] == c);
            }
            assert(reads[reads.len() - 1] == reads.last());
        }
        if exists|i: int|
            0 <= i < reads.len() && (#[trigger] reads[i]).1 is Some && c.path == reads[i].0@
                && c.name == (reads[i].1->0)@ {
            let i = choose|i: int|
                0 <= i < reads.len() && (#[trigger] reads[i]).1 is Some && c.path == reads[i].0@
                    && c.name == (reads[i].1->0)@;
            if i < rest.len() {
                assert(rest[i] == reads[i]);
            } else {
                assert(all[all.len() - 1] == c);
            }
        }
    }
}

/// The list keeps the order in which the configurations were read.
pub proof fn law_configs_keep_their_order(
    first: Seq<(String, Option<String>)>,
    second: Seq<(String, Option<String>)>,
)
    ensures
        named_configs(first + second) == named_configs(first) + named_configs(second),
    decreases second.len(),
{
    if second.len() == 0 {
        assert(first + second =~= first);
        assert(named_configs(first) + named_configs(second) =~= named_configs(first));
    } else {
        assert((first + second).drop_last() =~= first + second.drop_last());
        law_configs_keep_their_order(first, second.drop_last());
        assert(named_configs(first + second) =~= named_configs(first) + named_configs(second));
    }
}

/// An import survives a failed check just when the error has one of the words
/// for a check that the service does not offer, wherever they stand in it.
pub proof fn law_unsupported_check_is_recognised(before: Seq<char>, after: Seq<char>)
    ensures
        check_unsupported(before + "UnknownMethod"@ + after),
        check_unsupported(before + "NoSuchMethod"@ + after),
        check_unsupported(before + "not exist"@ + after),
        check_unsupported(before + "No such interface"@ + after),
        check_unsupported(before) ==> has_substring(before, "UnknownMethod"@) || has_substring(
            before,
            "NoSuchMethod"@,
        ) || has_substring(before, "not exist"@) || has_substring(before, "No such interface"@),
{
    law_part_occurs_in_the_whole(before, "UnknownMethod"@, after);
    law_part_occurs_in_the_whole(before, "NoSuchMethod"@, after);
    law_part_occurs_in_the_whole(before, "not exist"@, after);
    law_part_occurs_in_the_whole(before, "No such interface"@, after);
}

/// The title of a failure names what was asked for, and no two actions share
/// one; the text in front of the error differs as well.
pub proof fn law_failures_by_action(a: FailedAction, b: FailedAction)
    ensures
        a == FailedAction::Connect ==> failure_title(a) == "Connection Failed"@ && failure_text(a)
            == "Could not connect to VPN: "@,
        a == FailedAction::Reconnect ==> failure_title(a) == "Reconnect Failed"@ && failure_text(a)
            == "Could not reconnect to VPN: "@,
        a == FailedAction::Disconnect ==> failure_title(a) == "Disconnect Failed"@ && failure_text(
            a,
        ) == "Could not disconnect VPN session: "@,
        a == FailedAction::Pause ==> failure_title(a) == "Pause Failed"@ && failure_text(a)
            == "Could not pause VPN session: "@,
        a == FailedAction::Resume ==> failure_title(a) == "Resume Failed"@ && failure_text(a)
            == "Could not resume VPN session: "@,
        a == FailedAction::Restart ==> failure_title(a) == "Restart Failed"@ && failure_text(a)
            == "Could not restart VPN session: "@,
        a != b ==> failure_title(a) != failure_title(b),
{
    reveal_strlit("Connection Failed");
    reveal_strlit("Reconnect Failed");
    reveal_strlit("Disconnect Failed");
    reveal_strlit("Pause Failed");
    reveal_strlit("Resume Failed");
    reveal_strlit("Restart Failed");
    assert("Connection Failed"@[0] == 'C');
    assert("Disconnect Failed"@[0] == 'D');
    assert("Pause Failed"@[0] == 'P');
    assert("Reconnect Failed"@[2] == 'c');
    assert("Resume Failed"@[2] == 's' && "Resume Failed"@[3] == 'u');
    assert("Restart Failed"@[2] == 's' && "Restart Failed"@[3] == 't');
    assert("Reconnect Failed"@[0] == 'R' && "Resume Failed"@[0] == 'R' && "Restart Failed"@[0]
        == 'R');
}

/// An import is kept if its check found no fault, or could not be made; any
/// other error rejects it.
pub proof fn law_imports_are_judged(error: Option<Seq<char>>)
    ensures
        import_verdict(error) == ImportVerdict::Reject <==> error is Some && !has_substring(
            error->0,
            "UnknownMethod"@,
        ) && !has_substring(error->0, "NoSuchMethod"@) && !has_substring(error->0, "not exist"@)
            && !has_substring(error->0, "No such interface"@),
{
}

} // verus!
