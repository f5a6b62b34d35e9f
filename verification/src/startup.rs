//! The start of the program: sessions that are already there, the
//! configuration to connect, and how often the service is tried.
use vstd::prelude::*;
use vstd::string::*;

use crate::clock::Moment;
use crate::keyed::StringMap;
use crate::protocol::{law_status_numbers, major_of, minor_of, StatusMajor, StatusMinor};
use crate::search::{first_index, lemma_first_index_fits};
use crate::sessions::{decode_status, or_text, status_or_unset, text_or};
use crate::settings::Settings;
use crate::text::{same, texts};
use crate::tray::{
    config_name_of, configs_model, find_config_name, fresh_session, lies_at, new_session,
    sessions_model, ConfigInfo, SessionInfo, TrayModel, VpnTray, FALLBACK_NAME,
};

verus! {

/// What was read of a session at start. What could not be read is nothing.
#[derive(Debug)]
pub struct SessionRead {
    pub path: String,
    pub config_path: Option<String>,
    pub config_name: Option<String>,
    pub status: Option<(u32, u32)>,
}

/// The entry of a session that was there before the program. One that is
/// connected counts as connected since now.
pub open spec fn scanned_entry(read: SessionRead, now: Moment) -> SessionInfo<Seq<char>> {
    let status = status_or_unset(read.status);
    SessionInfo {
        connected_at: if status.connected() {
            Some(now)
        } else {
            None
        },
        ..fresh_session(
            read.path@,
            text_or(read.config_path, Seq::empty()),
            text_or(read.config_name, FALLBACK_NAME@),
            status,
        )
    }
}

/// A session as found at start.
pub struct ScannedSession {
    pub entry: SessionInfo,
    /// It needs its protection back.
    pub connected: bool,
    /// It waits for the user.
    pub pending_auth: bool,
}

/// Makes the entry of a session that was there before the program.
pub fn build_session_entry(read: SessionRead, now: Moment) -> (r: ScannedSession)
    ensures
        r.entry@ == scanned_entry(read, now),
        r.connected == status_or_unset(read.status).connected(),
        r.pending_auth == status_or_unset(read.status).auth_request(),
{
    let status = decode_status(read.status);
    let connected = status.is_connected();
    let pending_auth = status.is_auth_request();
    let none = String::new();
    assert(none@ =~= Seq::empty());
    let config_path = or_text(read.config_path, none.as_str());
    let config_name = or_text(read.config_name, FALLBACK_NAME);
    let mut entry = new_session(
        read.path.as_str(),
        config_path.as_str(),
        config_name.as_str(),
        status,
    );
    if connected {
        entry.connected_at = Some(now);
    }
    ScannedSession { entry, connected, pending_auth }
}

/// The sessions as found at start, by path; of two with the same path the
/// later counts.
pub open spec fn scanned_sessions(reads: Seq<SessionRead>, now: Moment) -> Map<
    Seq<char>,
    SessionInfo<Seq<char>>,
>
    decreases reads.len(),
{
    if reads.len() == 0 {
        Map::empty()
    } else {
        scanned_sessions(reads.drop_last(), now).insert(
            reads.last().path@,
            scanned_entry(reads.last(), now),
        )
    }
}

/// The paths of the sessions whose status fits, in order.
pub open spec fn paths_where(
    reads: Seq<SessionRead>,
    fits: spec_fn(SessionRead) -> bool,
) -> Seq<Seq<char>>
    decreases reads.len(),
{
    if reads.len() == 0 {
        Seq::empty()
    } else if fits(reads.last()) {
        paths_where(reads.drop_last(), fits).push(reads.last().path@)
    } else {
        paths_where(reads.drop_last(), fits)
    }
}

pub open spec fn found_connected() -> spec_fn(SessionRead) -> bool {
    |r: SessionRead| status_or_unset(r.status).connected()
}

pub open spec fn found_waiting() -> spec_fn(SessionRead) -> bool {
    |r: SessionRead| status_or_unset(r.status).auth_request()
}

/// The sessions at start, the paths of the connected ones and of those that
/// wait for the user.
pub struct InitialSessions {
    pub sessions: StringMap<SessionInfo>,
    pub connected_paths: Vec<String>,
    pub pending_auth: Vec<String>,
}

/// Takes in the sessions that were there before the program.
pub fn scan_initial_sessions(reads: Vec<SessionRead>, now: Moment) -> (r: InitialSessions)
    ensures
        sessions_model(r.sessions@) == scanned_sessions(reads@, now),
        texts(r.connected_paths@) == paths_where(reads@, found_connected()),
        texts(r.pending_auth@) == paths_where(reads@, found_waiting()),
{
    let ghost all = reads@;
    let mut sessions: StringMap<SessionInfo> = StringMap::new();
    let mut connected_paths: Vec<String> = Vec::new();
    let mut pending_auth: Vec<String> = Vec::new();
    let mut i: usize = 0;
    proof {
        assert(all.take(0) =~= Seq::empty());
        assert(sessions_model(sessions@) =~= Map::empty());
        assert(texts(connected_paths@) =~= Seq::empty());
        assert(texts(pending_auth@) =~= Seq::empty());
    }
    while i < reads.len()
        invariant
            i <= reads.len(),
            all == reads@,
            sessions_model(sessions@) == scanned_sessions(all.take(i as int), now),
            texts(connected_paths@) == paths_where(all.take(i as int), found_connected()),
            texts(pending_auth@) == paths_where(all.take(i as int), found_waiting()),
        decreases reads.len() - i,
    {
        let read = copy_read(&reads[i]);
        let path = read.path.clone();
        let ghost before = all.take(i as int);
        let ghost after = all.take(i as int + 1);
        let ghost model = sessions_model(sessions@);
        let ghost cp = texts(connected_paths@);
        let ghost pa = texts(pending_auth@);
        proof {
            assert(after.drop_last() =~= before);
            assert(after.last() == read);
        }
        let scanned = build_session_entry(read, now);
        if scanned.connected {
            connected_paths.push(path.clone());
            assert(texts(connected_paths@) =~= cp.push(path@));
        }
        if scanned.pending_auth {
            pending_auth.push(path.clone());
            assert(texts(pending_auth@) =~= pa.push(path@));
        }
        let ghost entry = scanned.entry@;
        sessions.insert(path, scanned.entry);
        assert(sessions_model(sessions@) =~= model.insert(path@, entry));
        i = i + 1;
    }
    assert(all.take(i as int) =~= all);
    InitialSessions { sessions, connected_paths, pending_auth }
}

fn copy_option(s: &Option<String>) -> (r: Option<String>)
    ensures
        r == *s,
{
    match s {
        Some(t) => Some(t.clone()),
        None => None,
    }
}

fn copy_read(read: &SessionRead) -> (r: SessionRead)
    ensures
        r == *read,
{
    SessionRead {
        path: read.path.clone(),
        config_path: copy_option(&read.config_path),
        config_name: copy_option(&read.config_name),
        status: read.status,
    }
}

/// The configuration to connect at start, as path and name: the one used last
/// or the one chosen for it, if it is still in the list.
pub open spec fn startup_choice(
    settings: Settings,
    configs: Seq<ConfigInfo<Seq<char>>>,
) -> Option<(Seq<char>, Seq<char>)> {
    if settings.startup_action_view() == "connect-recent"@ {
        let path = settings.most_recent_config_id_view();
        if path.len() > 0 && config_name_of(configs, path) is Some {
            Some((path, settings.most_recent_config_name_view()))
        } else {
            None
        }
    } else if settings.startup_action_view() == "connect-specific"@ {
        let path = settings.specific_config_path_view();
        match config_name_of(configs, path) {
            Some(name) => if path.len() > 0 {
                Some((path, name))
            } else {
                None
            },
            None => None,
        }
    } else {
        None
    }
}

/// Picks the configuration to connect at start.
pub fn handle_startup_connect(settings: &Settings, configs: &Vec<ConfigInfo>) -> (r: Option<
    (String, String),
>)
    ensures
        match startup_choice(*settings, configs_model(configs@)) {
            Some((path, name)) => r is Some && (r->0).0@ == path && (r->0).1@ == name,
            None => r is None,
        },
{
    proof {
        reveal_strlit("connect-recent");
        reveal_strlit("connect-specific");
        assert("connect-recent"@.len() != "connect-specific"@.len());
    }
    let action = settings.startup_action();
    if same(action.as_str(), "connect-recent") {
        let (path, name) = settings.get_most_recent_config();
        if path.as_str().is_empty() {
            return None;
        }
        match find_config_name(configs, path.as_str()) {
            Some(_) => Some((path, name)),
            None => None,
        }
    } else if same(action.as_str(), "connect-specific") {
        let path = settings.specific_config_path();
        if path.as_str().is_empty() {
            return None;
        }
        match find_config_name(configs, path.as_str()) {
            Some(name) => Some((path, name)),
            None => None,
        }
    } else {
        None
    }
}

/// Takes in that the start is complete: the tray shows whether the kill switch
/// is on.
pub fn init_complete(tray: &mut VpnTray, settings: &Settings)
    ensures
        final(tray)@ == (TrayModel {
            kill_switch_enabled: settings.enable_kill_switch_spec(),
            ..old(tray)@
        }),
{
    tray.kill_switch_enabled = settings.enable_kill_switch();
}

/// How often the service is tried at start, three seconds apart.
pub const INIT_ATTEMPTS: u32 = 10;

/// How often the service is tried after it has come back, two seconds apart.
pub const REINIT_ATTEMPTS: u32 = 5;

/// What follows an attempt to reach the service.
#[derive(Clone, Copy, Debug, PartialEq, Eq, Structural)]
pub enum InitStep {
    /// It was reached.
    Ready,
    /// Try again after a pause.
    Again,
    /// It was tried often enough.
    GiveUp,
}

/// What follows the attempt with this number.
pub open spec fn init_step(attempt: nat, limit: nat, reached: bool) -> InitStep {
    if reached {
        InitStep::Ready
    } else if attempt < limit {
        InitStep::Again
    } else {
        InitStep::GiveUp
    }
}

/// What follows the attempt with this number, counted from one.
pub fn after_init_attempt(attempt: u32, limit: u32, reached: bool) -> (r: InitStep)
    ensures
        r == (if reached {
            InitStep::Ready
        } else if attempt < limit {
            InitStep::Again
        } else {
            InitStep::GiveUp
        }),
        r == init_step(attempt as nat, limit as nat, reached),
{
    if reached {
        InitStep::Ready
    } else if attempt < limit {
        InitStep::Again
    } else {
        InitStep::GiveUp
    }
}

proof fn lemma_listed_name(configs: Seq<ConfigInfo<Seq<char>>>, path: Seq<char>)
    ensures
        config_name_of(configs, path) is Some <==> exists|i: int|
            0 <= i < configs.len() && (#[trigger] configs[i]).path == path,
        config_name_of(configs, path) is Some ==> exists|i: int|
            0 <= i < configs.len() && (#[trigger] configs[i]).path == path && configs[i].name
                == config_name_of(configs, path)->0,
{
    lemma_first_index_fits(configs, lies_at(path));
    let i = first_index(configs, lies_at(path));
    if i < configs.len() {
        assert(lies_at(path)(configs[i]));
        assert(configs[i].path == path);
    }
    assert forall|j: int| 0 <= j < configs.len() && (#[trigger] configs[j]).path
        == path implies i < configs.len() by {
        if i == configs.len() {
            assert(!lies_at(path)(configs[j]));
        }
    }
}

/// What is connected at start is in the list of configurations, under the path
/// that was used last or chosen; nothing else ever is, whichever the action.
pub proof fn law_startup_connects_a_listed_config(
    settings: Settings,
    configs: Seq<ConfigInfo<Seq<char>>>,
)
    ensures
        startup_choice(settings, configs) matches Some((path, name)) ==> {
            &&& path.len() > 0
            &&& exists|i: int| 0 <= i < configs.len() && (#[trigger] configs[i]).path == path
            &&& settings.startup_action_view() == "connect-recent"@ && path
                == settings.most_recent_config_id_view() && name
                == settings.most_recent_config_name_view() || settings.startup_action_view()
                == "connect-specific"@ && path == settings.specific_config_path_view() && exists|
                i: int,
            |
                0 <= i < configs.len() && (#[trigger] configs[i]).path == path && configs[i].name
                    == name
        },
{
    lemma_listed_name(configs, settings.most_recent_config_id_view());
    lemma_listed_name(configs, settings.specific_config_path_view());
}

/// A configuration that is in the list is connected at start: the one used
/// last, where the action says so, and the chosen one, where it says that.
pub proof fn law_listed_config_is_connected_at_startup(
    settings: Settings,
    configs: Seq<ConfigInfo<Seq<char>>>,
    i: int,
)
    requires
        0 <= i < configs.len(),
        configs[i].path.len() > 0,
    ensures
        settings.startup_action_view() == "connect-recent"@ && configs[i].path
            == settings.most_recent_config_id_view() ==> startup_choice(settings, configs) == Some(
            (configs[i].path, settings.most_recent_config_name_view()),
        ),
        settings.startup_action_view() == "connect-specific"@ && configs[i].path
            == settings.specific_config_path_view() ==> startup_choice(settings, configs) is Some
            && (startup_choice(settings, configs)->0).0 == configs[i].path,
        settings.startup_action_view() == "connect-specific"@ && configs[i].path
            == settings.specific_config_path_view() && (forall|j: int|
            0 <= j < configs.len() && j != i ==> (#[trigger] configs[j]).path != configs[i].path)
            ==> startup_choice(settings, configs) == Some((configs[i].path, configs[i].name)),
{
    reveal_strlit("connect-recent");
    reveal_strlit("connect-specific");
    assert("connect-recent"@.len() != "connect-specific"@.len());
    lemma_listed_name(configs, configs[i].path);
}

/// Without one of the two actions nothing is connected at start.
pub proof fn law_other_actions_connect_nothing(
    settings: Settings,
    configs: Seq<ConfigInfo<Seq<char>>>,
)
    requires
        settings.startup_action_view() != "connect-recent"@,
        settings.startup_action_view() != "connect-specific"@,
    ensures
        startup_choice(settings, configs) is None,
{
}

/// Every session that was there before the program has an entry under its
/// path, made from what was read of it last; a session that is connected
/// counts as connected since now, and none as protected.
pub proof fn law_scan_keeps_every_session(reads: Seq<SessionRead>, now: Moment, i: int)
    requires
        0 <= i < reads.len(),
        forall|j: int| i < j < reads.len() ==> (#[trigger] reads[j]).path@ != reads[i].path@,
    ensures
        ({
            let found = scanned_sessions(reads, now);
            let entry = found[reads[i].path@];
            &&& found.contains_key(reads[i].path@)
            &&& entry.session_path == reads[i].path@
            &&& reads[i].config_path matches Some(t) ==> entry.config_path == t@
            &&& reads[i].config_path is None ==> entry.config_path.len() == 0
            &&& reads[i].config_name matches Some(t) ==> entry.config_name == t@
            &&& reads[i].config_name is None ==> entry.config_name == "VPN Connection"@
            &&& reads[i].status matches Some((major, minor)) ==> entry.status.major == major_of(
                major,
            ) && entry.status.minor == minor_of(minor)
            &&& reads[i].status is None ==> entry.status.major == StatusMajor::Unset
                && entry.status.minor == StatusMinor::Unset
            &&& entry.connected_at == (if reads[i].status == Some((2u32, 7u32)) {
                Some(now)
            } else {
                None
            })
            &&& entry.bytes_in == 0 && entry.bytes_out == 0
            &&& entry.last_bytes_in == 0 && entry.last_bytes_out == 0
            &&& entry.idle_started_at is None && entry.idle_since is None
            &&& entry.auto_reconnect_attempted_at is None
            &&& !entry.kill_switch_active
        }),
    decreases reads.len(),
{
    if i < reads.len() - 1 {
        assert(reads.last().path@ != reads[i].path@);
        law_scan_keeps_every_session(reads.drop_last(), now, i);
    }
    if reads[i].status is Some {
        let (major, minor) = reads[i].status->0;
        law_status_numbers(major, minor);
    }
}

/// The scan makes no session up.
pub proof fn law_scan_invents_no_session(reads: Seq<SessionRead>, now: Moment, path: Seq<char>)
    requires
        scanned_sessions(reads, now).contains_key(path),
    ensures
        exists|i: int| 0 <= i < reads.len() && (#[trigger] reads[i]).path@ == path,
    decreases reads.len(),
{
    if reads.len() > 0 {
        if reads.last().path@ == path {
            assert(reads[reads.len() - 1].path@ == path);
        } else {
            let rest = reads.drop_last();
            law_scan_invents_no_session(rest, now, path);
            let i = choose|i: int| 0 <= i < rest.len() && (#[trigger] rest[i]).path@ == path;
            assert(reads[i].path@ == path);
        }
    }
}

proof fn lemma_paths_where(
    reads: Seq<SessionRead>,
    fits: spec_fn(SessionRead) -> bool,
    path: Seq<char>,
)
    ensures
        paths_where(reads, fits).contains(path) <==> exists|i: int|
            0 <= i < reads.len() && (#[trigger] reads[i]).path@ == path && fits(reads[i]),
    decreases reads.len(),
{
    if reads.len() > 0 {
        let rest = reads.drop_last();
        let all = paths_where(reads, fits);
        let before = paths_where(rest, fits);
        lemma_paths_where(rest, fits, path);
        if before.contains(path) {
            let k = choose|k: int| 0 <= k < before.len() && before[k] == path;
            assert(all[k] == path);
            let i = choose|i: int|
                0 <= i < rest.len() && (#[trigger] rest[i]).path@ == path && fits(rest[i]);
            assert(reads[i].path@ == path && fits(reads[i]));
        }
        if fits(reads.last()) && reads.last().path@ == path {
            assert(all[all.len() - 1] == path);
            assert(reads[reads.len() - 1].path@ == path);
        }
        if all.contains(path) && !before.contains(path) {
            let k = choose|k: int| 0 <= k < all.len() && all[k] == path;
            if k < before.len() {
                assert(before[k] == path);
            }
            assert(reads[reads.len() - 1].path@ == path);
        }
        if exists|i: int|
            0 <= i < reads.len() && (#[trigger] reads[i]).path@ == path && fits(reads[i]) {
            let i = choose|i: int|
                0 <= i < reads.len() && (#[trigger] reads[i]).path@ == path && fits(reads[i]);
            if i < rest.len() {
                assert(rest[i] == reads[i]);
            }
        }
    }
}

/// The sessions that get their protection back are those that were connected,
/// and the sessions whose dialogs are opened those that waited for the user.
pub proof fn law_scan_lists_by_status(reads: Seq<SessionRead>, path: Seq<char>)
    ensures
        paths_where(reads, found_connected()).contains(path) <==> exists|i: int|
            0 <= i < reads.len() && (#[trigger] reads[i]).path@ == path && reads[i].status == Some(
                (2u32, 7u32),
            ),
        paths_where(reads, found_waiting()).contains(path) <==> exists|i: int|
            0 <= i < reads.len() && (#[trigger] reads[i]).path@ == path && (reads[i].status == Some(
                (2u32, 4u32),
            ) || reads[i].status == Some((3u32, 20u32)) || reads[i].status == Some((3u32, 21u32))
                || reads[i].status == Some((3u32, 22u32))),
{
    lemma_paths_where(reads, found_connected(), path);
    lemma_paths_where(reads, found_waiting(), path);
    assert forall|i: int| 0 <= i < reads.len() implies (found_connected()(#[trigger] reads[i])
        <==> reads[i].status == Some((2u32, 7u32))) && (found_waiting()(reads[i])
        <==> reads[i].status == Some((2u32, 4u32)) || reads[i].status == Some((3u32, 20u32))
        || reads[i].status == Some((3u32, 21u32)) || reads[i].status == Some((3u32, 22u32))) by {
        if reads[i].status is Some {
            let (major, minor) = reads[i].status->0;
            law_status_numbers(major, minor);
        }
    }
}

/// The lists keep the order of the sessions, and each session stands in them
/// as often as it was read.
pub proof fn law_scan_lists_in_order(
    first: Seq<SessionRead>,
    second: Seq<SessionRead>,
    fits: spec_fn(SessionRead) -> bool,
)
    ensures
        paths_where(first + second, fits) == paths_where(first, fits) + paths_where(second, fits),
    decreases second.len(),
{
    if second.len() == 0 {
        assert(first + second =~= first);
        assert(paths_where(first, fits) + paths_where(second, fits) =~= paths_where(first, fits));
    } else {
        assert((first + second).drop_last() =~= first + second.drop_last());
        law_scan_lists_in_order(first, second.drop_last(), fits);
        assert(paths_where(first + second, fits) =~= paths_where(first, fits) + paths_where(
            second,
            fits,
        ));
    }
}

/// A service that is never reached is tried just as often as the limit says:
/// every attempt before the last is followed by another one, and the last by
/// none. One that is reached is not tried again.
pub proof fn law_attempts_up_to_the_limit(attempt: nat, limit: nat)
    requires
        1 <= attempt <= limit,
    ensures
        init_step(attempt, limit, false) == InitStep::Again <==> attempt + 1 <= limit,
        init_step(attempt, limit, false) == InitStep::GiveUp <==> attempt == limit,
        init_step(attempt, limit, true) == InitStep::Ready,
{
}

} // verus!
