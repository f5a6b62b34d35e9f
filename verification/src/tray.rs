//! What the tray icon knows: the sessions, the configurations, the state of
//! the bypass routes and whether the kill switch is on.
use vstd::prelude::*;
use vstd::string::*;

use crate::clock::Moment;
use crate::keyed::StringMap;
use crate::keyed::{holds_at, linked};
use crate::protocol::{SessionStatus, StatusMajor, StatusMinor};
use crate::search::{first_index, lemma_first_index};
use crate::text::same;

verus! {

/// The label of a session whose configuration is not known.
pub const FALLBACK_NAME: &'static str = "VPN Connection";

/// The label of a configuration that is not in the list.
pub const UNKNOWN_CONFIG_NAME: &'static str = "Unknown";

/// One VPN session. `T` is the type of its texts: `String` in the running
/// program, a sequence of characters in specifications.
#[derive(Debug)]
pub struct SessionInfo<T = String> {
    pub session_path: T,
    pub config_path: T,
    pub config_name: T,
    pub status: SessionStatus,
    pub connected_at: Option<Moment>,
    pub bytes_in: u64,
    pub bytes_out: u64,
    pub last_bytes_in: u64,
    pub last_bytes_out: u64,
    pub idle_started_at: Option<Moment>,
    pub idle_since: Option<Moment>,
    pub auto_reconnect_attempted_at: Option<Moment>,
    pub kill_switch_active: bool,
}

impl View for SessionInfo<String> {
    type V = SessionInfo<Seq<char>>;

    open spec fn view(&self) -> SessionInfo<Seq<char>> {
        SessionInfo {
            session_path: self.session_path@,
            config_path: self.config_path@,
            config_name: self.config_name@,
            status: self.status,
            connected_at: self.connected_at,
            bytes_in: self.bytes_in,
            bytes_out: self.bytes_out,
            last_bytes_in: self.last_bytes_in,
            last_bytes_out: self.last_bytes_out,
            idle_started_at: self.idle_started_at,
            idle_since: self.idle_since,
            auto_reconnect_attempted_at: self.auto_reconnect_attempted_at,
            kill_switch_active: self.kill_switch_active,
        }
    }
}

impl Clone for SessionInfo<String> {
    fn clone(&self) -> (r: Self)
        ensures
            r == *self,
    {
        SessionInfo {
            session_path: self.session_path.clone(),
            config_path: self.config_path.clone(),
            config_name: self.config_name.clone(),
            status: self.status,
            connected_at: self.connected_at,
            bytes_in: self.bytes_in,
            bytes_out: self.bytes_out,
            last_bytes_in: self.last_bytes_in,
            last_bytes_out: self.last_bytes_out,
            idle_started_at: self.idle_started_at,
            idle_since: self.idle_since,
            auto_reconnect_attempted_at: self.auto_reconnect_attempted_at,
            kill_switch_active: self.kill_switch_active,
        }
    }
}

/// A session with the given identity and status, all counters at zero, never
/// connected, not idle and not protected.
pub open spec fn fresh_session(
    session_path: Seq<char>,
    config_path: Seq<char>,
    config_name: Seq<char>,
    status: SessionStatus,
) -> SessionInfo<Seq<char>> {
    SessionInfo {
        session_path,
        config_path,
        config_name,
        status,
        connected_at: None,
        bytes_in: 0,
        bytes_out: 0,
        last_bytes_in: 0,
        last_bytes_out: 0,
        idle_started_at: None,
        idle_since: None,
        auto_reconnect_attempted_at: None,
        kill_switch_active: false,
    }
}

/// Makes the entry of a session that was just seen.
pub fn new_session(
    session_path: &str,
    config_path: &str,
    config_name: &str,
    status: SessionStatus,
) -> (r: SessionInfo)
    ensures
        r@ == fresh_session(session_path@, config_path@, config_name@, status),
{
    SessionInfo {
        session_path: session_path.to_owned(),
        config_path: config_path.to_owned(),
        config_name: config_name.to_owned(),
        status,
        connected_at: None,
        bytes_in: 0,
        bytes_out: 0,
        last_bytes_in: 0,
        last_bytes_out: 0,
        idle_started_at: None,
        idle_since: None,
        auto_reconnect_attempted_at: None,
        kill_switch_active: false,
    }
}

/// A configuration: its object path, which is unique, and its display name,
/// which two configurations may share.
#[derive(Debug)]
pub struct ConfigInfo<T = String> {
    pub path: T,
    pub name: T,
}

impl View for ConfigInfo<String> {
    type V = ConfigInfo<Seq<char>>;

    open spec fn view(&self) -> ConfigInfo<Seq<char>> {
        ConfigInfo { path: self.path@, name: self.name@ }
    }
}

/// Where the bypass routes stand.
#[derive(Clone, Copy, Debug, PartialEq, Eq, Structural)]
pub enum BypassState {
    /// No bypass routes are installed.
    Off,
    /// Installing them failed as a whole.
    Failed,
    /// They are installed, some of them perhaps not.
    Active { applied: usize, failed: usize },
    /// The installed sets no longer match the wanted ones; the counts of the
    /// last apply are kept for the recovery.
    Drifted { missing: usize, extra: usize, prev_applied: usize, prev_failed: usize },
}

pub struct VpnTray {
    pub sessions: StringMap<SessionInfo>,
    pub configs: Vec<ConfigInfo>,
    pub bypass_state: BypassState,
    pub kill_switch_enabled: bool,
}

/// The mathematical model of the tray.
pub struct TrayModel {
    pub sessions: Map<Seq<char>, SessionInfo<Seq<char>>>,
    pub configs: Seq<ConfigInfo<Seq<char>>>,
    pub bypass_state: BypassState,
    pub kill_switch_enabled: bool,
}

pub open spec fn sessions_model(m: Map<Seq<char>, SessionInfo>) -> Map<
    Seq<char>,
    SessionInfo<Seq<char>>,
> {
    m.map_values(|s: SessionInfo| s@)
}

pub open spec fn configs_model(s: Seq<ConfigInfo>) -> Seq<ConfigInfo<Seq<char>>> {
    Seq::new(s.len(), |i: int| s[i]@)
}

impl View for VpnTray {
    type V = TrayModel;

    open spec fn view(&self) -> TrayModel {
        TrayModel {
            sessions: sessions_model(self.sessions@),
            configs: configs_model(self.configs@),
            bypass_state: self.bypass_state,
            kill_switch_enabled: self.kill_switch_enabled,
        }
    }
}

/// The name and the configuration path to show for a session; an unknown
/// session has the fallback name and the empty path.
pub open spec fn identity_of(
    sessions: Map<Seq<char>, SessionInfo<Seq<char>>>,
    path: Seq<char>,
) -> (Seq<char>, Seq<char>) {
    if sessions.contains_key(path) {
        (sessions[path].config_name, sessions[path].config_path)
    } else {
        (FALLBACK_NAME@, Seq::empty())
    }
}

/// Whether some session is connected.
pub open spec fn some_connected(sessions: Map<Seq<char>, SessionInfo<Seq<char>>>) -> bool {
    exists|p: Seq<char>| #[trigger] sessions.contains_key(p) && sessions[p].status.connected()
}

/// Every session with its kill-switch flag cleared.
pub open spec fn flags_cleared(sessions: Map<Seq<char>, SessionInfo<Seq<char>>>) -> Map<
    Seq<char>,
    SessionInfo<Seq<char>>,
> {
    sessions.map_values(
        |s: SessionInfo<Seq<char>>| (SessionInfo { kill_switch_active: false, ..s }),
    )
}

impl VpnTray {
    /// A tray that knows of nothing.
    pub fn new() -> (r: Self)
        ensures
            r@.sessions == Map::<Seq<char>, SessionInfo<Seq<char>>>::empty(),
            r@.configs.len() == 0,
            r@.bypass_state == BypassState::Off,
            !r@.kill_switch_enabled,
    {
        let r = VpnTray {
            sessions: StringMap::new(),
            configs: Vec::new(),
            bypass_state: BypassState::Off,
            kill_switch_enabled: false,
        };
        assert(r@.sessions =~= Map::<Seq<char>, SessionInfo<Seq<char>>>::empty());
        r
    }

    /// Stores a session under its path, in place of what was there.
    pub fn put_session(&mut self, path: &str, session: SessionInfo)
        ensures
            final(self)@ == (TrayModel {
                sessions: old(self)@.sessions.insert(path@, session@),
                ..old(self)@
            }),
    {
        self.sessions.insert(path.to_owned(), session);
        assert(self@.sessions =~= old(self)@.sessions.insert(path@, session@));
        assert(self@.configs =~= old(self)@.configs);
    }

    /// Forgets a session.
    pub fn remove_session(&mut self, path: &str)
        ensures
            final(self)@ == (TrayModel {
                sessions: old(self)@.sessions.remove(path@),
                ..old(self)@
            }),
    {
        let gone = self.sessions.remove(path);
        assert(self@.sessions =~= old(self)@.sessions.remove(path@));
        assert(self@.configs =~= old(self)@.configs);
    }

    /// The session under `path`.
    pub fn session(&self, path: &str) -> (r: Option<&SessionInfo>)
        ensures
            self@.sessions.contains_key(path@) ==> r is Some && r->0@ == self@.sessions[path@],
            !self@.sessions.contains_key(path@) ==> r is None,
    {
        self.sessions.get(path)
    }

    /// Whether some session is connected.
    pub fn any_connected(&self) -> (r: bool)
        ensures
            r == some_connected(self@.sessions),
    {
        let n = self.sessions.len();
        let mut i: usize = 0;
        while i < n
            invariant
                i <= n,
                n == self.sessions.pairs().len(),
                linked(self.sessions.pairs(), self.sessions@),
                forall|j: int|
                    0 <= j < i ==> !(#[trigger] self.sessions.pairs()[j]).1.status.connected(),
            decreases n - i,
        {
            if self.sessions.value_at(i).status.is_connected() {
                assert(self@.sessions.contains_key(self.sessions.pairs()[i as int].0));
                return true;
            }
            i = i + 1;
        }
        assert forall|p: Seq<char>| #[trigger] self@.sessions.contains_key(p) implies !(
        self@.sessions[p].status.connected()) by {
            assert(self.sessions@.contains_key(p));
            let j = choose|j: int| holds_at(self.sessions.pairs(), p, j);
            assert(!self.sessions.pairs()[j].1.status.connected());
        }
        false
    }

    /// Sets or clears the kill-switch flag of one session, if it is known.
    pub fn set_kill_switch_active(&mut self, path: &str, active: bool)
        ensures
            final(self)@ == (TrayModel {
                sessions: if old(self)@.sessions.contains_key(path@) {
                    old(self)@.sessions.insert(
                        path@,
                        SessionInfo {
                            kill_switch_active: active,
                            ..old(self)@.sessions[path@]
                        },
                    )
                } else {
                    old(self)@.sessions
                },
                ..old(self)@
            }),
    {
        let found = match self.session(path) {
            Some(s) => Some(s.clone()),
            None => None,
        };
        match found {
            Some(mut s) => {
                s.kill_switch_active = active;
                self.put_session(path, s);
            },
            None => {},
        }
    }

    /// Forgets every session of the configuration.
    pub fn remove_sessions_of(&mut self, config_path: &str)
        ensures
            final(self)@ == (TrayModel {
                sessions: without_config(old(self)@.sessions, config_path@),
                ..old(self)@
            }),
    {
        let n = self.sessions.len();
        let mut kept: StringMap<SessionInfo> = StringMap::new();
        let mut i: usize = 0;
        let ghost all = self.sessions.pairs();
        while i < n
            invariant
                i <= n,
                n == all.len(),
                all == self.sessions.pairs(),
                *self == *old(self),
                linked(all, self.sessions@),
                forall|k: Seq<char>| #[trigger]
                    kept@.contains_key(k) <==> exists|j: int|
                        0 <= j < i && (#[trigger] all[j]).0 == k && all[j].1.config_path@
                            != config_path@,
                forall|k: Seq<char>| #[trigger]
                    kept@.contains_key(k) ==> self.sessions@.contains_key(k) && kept@[k]
                        == self.sessions@[k],
            decreases n - i,
        {
            let s = self.sessions.value_at(i);
            if !same(s.config_path.as_str(), config_path) {
                kept.insert(self.sessions.key_at(i).to_owned(), s.clone());
            }
            i = i + 1;
        }
        proof {
            let want = without_config(self@.sessions, config_path@);
            assert forall|k: Seq<char>| sessions_model(kept@).contains_key(k)
                == want.contains_key(k) by {
                if self.sessions@.contains_key(k) {
                    let j = choose|j: int| holds_at(all, k, j);
                    assert(all[j].0 == k);
                    assert(self.sessions@[all[j].0] == all[j].1);
                }
                if kept@.contains_key(k) {
                    let j = choose|j: int|
                        0 <= j < n && (#[trigger] all[j]).0 == k && all[j].1.config_path@
                            != config_path@;
                    assert(self.sessions@[all[j].0] == all[j].1);
                }
            }
            assert(sessions_model(kept@) =~= want);
        }
        self.sessions = kept;
    }

    /// Forgets every session.
    pub fn clear_sessions(&mut self)
        ensures
            final(self)@ == (TrayModel { sessions: Map::empty(), ..old(self)@ }),
    {
        self.sessions.clear();
        assert(self@.sessions =~= Map::<Seq<char>, SessionInfo<Seq<char>>>::empty());
    }

    /// Clears the kill-switch flag of every session.
    pub fn clear_kill_switch_flags(&mut self)
        ensures
            final(self)@ == (TrayModel {
                sessions: flags_cleared(old(self)@.sessions),
                ..old(self)@
            }),
    {
        let n = self.sessions.len();
        let mut i: usize = 0;
        let ghost before = self.sessions.pairs();
        while i < n
            invariant
                i <= n,
                n == before.len(),
                linked(before, old(self).sessions@),
                linked(self.sessions.pairs(), self.sessions@),
                self.sessions.pairs().len() == n,
                self.configs == old(self).configs,
                self.bypass_state == old(self).bypass_state,
                self.kill_switch_enabled == old(self).kill_switch_enabled,
                forall|j: int|
                    0 <= j < n ==> (#[trigger] self.sessions.pairs()[j]).0 == before[j].0,
                forall|j: int|
                    0 <= j < i ==> (#[trigger] self.sessions.pairs()[j]).1@ == (SessionInfo {
                        kill_switch_active: false,
                        ..before[j].1@
                    }),
                forall|j: int| i <= j < n ==> #[trigger] self.sessions.pairs()[j] == before[j],
            decreases n - i,
        {
            let key = self.sessions.key_at(i).to_owned();
            let mut s = self.sessions.value_at(i).clone();
            s.kill_switch_active = false;
            proof {
                assert(holds_at(self.sessions.pairs(), key@, i as int));
            }
            self.sessions.insert(key, s);
            let m = self.sessions.len();
            i = i + 1;
        }
        proof {
            let want = flags_cleared(old(self)@.sessions);
            assert forall|k: Seq<char>| self@.sessions.contains_key(k) == want.contains_key(k) by {
                if self.sessions@.contains_key(k) {
                    let j = choose|j: int| holds_at(self.sessions.pairs(), k, j);
                    assert(old(self).sessions@.contains_key(before[j].0));
                }
                if old(self).sessions@.contains_key(k) {
                    let j = choose|j: int| holds_at(before, k, j);
                    assert(self.sessions@.contains_key(self.sessions.pairs()[j].0));
                }
            }
            assert forall|k: Seq<char>| self@.sessions.contains_key(k) implies self@.sessions[k]
                == want[k] by {
                let j = choose|j: int| holds_at(self.sessions.pairs(), k, j);
                assert(self.sessions.pairs()[j].1@ == (SessionInfo {
                    kill_switch_active: false,
                    ..before[j].1@
                }));
                assert(old(self).sessions@[before[j].0] == before[j].1);
            }
            assert(self@.sessions =~= want);
        }
    }
}

/// The sessions that do not belong to the configuration.
pub open spec fn without_config(
    sessions: Map<Seq<char>, SessionInfo<Seq<char>>>,
    config_path: Seq<char>,
) -> Map<Seq<char>, SessionInfo<Seq<char>>> {
    Map::new(
        |p: Seq<char>| sessions.contains_key(p) && sessions[p].config_path != config_path,
        |p: Seq<char>| sessions[p],
    )
}

/// The name and the configuration path to show for the session at `path`.
pub fn session_config_identity(tray: &VpnTray, path: &str) -> (r: (String, String))
    ensures
        (r.0@, r.1@) == identity_of(tray@.sessions, path@),
{
    match tray.session(path) {
        Some(s) => (s.config_name.clone(), s.config_path.clone()),
        None => (FALLBACK_NAME.to_owned(), String::new()),
    }
}

/// The name to show for the session at `path`.
pub fn session_config_name(tray: &VpnTray, path: &str) -> (r: String)
    ensures
        r@ == identity_of(tray@.sessions, path@).0,
{
    session_config_identity(tray, path).0
}

/// The configuration has this path.
pub open spec fn lies_at(path: Seq<char>) -> spec_fn(ConfigInfo<Seq<char>>) -> bool {
    |c: ConfigInfo<Seq<char>>| c.path == path
}

/// The display name of the first configuration with this path.
pub open spec fn config_name_of(
    configs: Seq<ConfigInfo<Seq<char>>>,
    path: Seq<char>,
) -> Option<Seq<char>> {
    let i = first_index(configs, lies_at(path));
    if i < configs.len() {
        Some(configs[i].name)
    } else {
        None
    }
}

/// The display name of the configuration with this path, if it is in the list.
pub fn find_config_name(configs: &Vec<ConfigInfo>, path: &str) -> (r: Option<String>)
    ensures
        match config_name_of(configs_model(configs@), path@) {
            Some(n) => r is Some && r->0@ == n,
            None => r is None,
        },
{
    let mut i: usize = 0;
    while i < configs.len()
        invariant
            i <= configs.len(),
            forall|j: int| 0 <= j < i ==> !lies_at(path@)(#[trigger] configs_model(configs@)[j]),
        decreases configs.len() - i,
    {
        if same(configs[i].path.as_str(), path) {
            proof {
                lemma_first_index(configs_model(configs@), lies_at(path@), i as int);
            }
            return Some(configs[i].name.clone());
        }
        i = i + 1;
    }
    proof {
        lemma_first_index(configs_model(configs@), lies_at(path@), i as int);
    }
    None
}

/// The display name of a configuration.
pub fn resolve_config_name(tray: &VpnTray, config_path: &str) -> (r: String)
    ensures
        r@ == (match config_name_of(tray@.configs, config_path@) {
            Some(n) => n,
            None => UNKNOWN_CONFIG_NAME@,
        }),
{
    match find_config_name(&tray.configs, config_path) {
        Some(n) => n,
        None => UNKNOWN_CONFIG_NAME.to_owned(),
    }
}

/// A session shows the name and path of its configuration; one that is not
/// known shows the fallback name and no path.
pub proof fn law_identity_of_a_session(
    sessions: Map<Seq<char>, SessionInfo<Seq<char>>>,
    path: Seq<char>,
)
    ensures
        sessions.contains_key(path) ==> identity_of(sessions, path).0 == sessions[path].config_name
            && identity_of(sessions, path).1 == sessions[path].config_path,
        !sessions.contains_key(path) ==> identity_of(sessions, path).0 == "VPN Connection"@
            && identity_of(sessions, path).1.len() == 0,
{
}

/// Forgetting the sessions of a configuration forgets all of them and keeps
/// every other one as it is.
pub proof fn law_forgetting_a_config_spares_the_rest(
    sessions: Map<Seq<char>, SessionInfo<Seq<char>>>,
    config_path: Seq<char>,
    p: Seq<char>,
)
    ensures
        without_config(sessions, config_path).contains_key(p) <==> sessions.contains_key(p)
            && sessions[p].config_path != config_path,
        without_config(sessions, config_path).contains_key(p) ==> without_config(
            sessions,
            config_path,
        )[p] == sessions[p],
{
}

/// Clearing the flags leaves no session protected, loses none and changes
/// nothing else of it.
pub proof fn law_no_flag_survives_clearing(
    sessions: Map<Seq<char>, SessionInfo<Seq<char>>>,
    p: Seq<char>,
)
    ensures
        flags_cleared(sessions).contains_key(p) <==> sessions.contains_key(p),
        sessions.contains_key(p) ==> !flags_cleared(sessions)[p].kill_switch_active,
        sessions.contains_key(p) ==> sessions[p] == (SessionInfo {
            kill_switch_active: sessions[p].kill_switch_active,
            ..flags_cleared(sessions)[p]
        }),
{
}

/// One connected session is enough, and one is needed.
pub proof fn law_any_connected_session_counts(sessions: Map<Seq<char>, SessionInfo<Seq<char>>>)
    ensures
        some_connected(sessions) <==> exists|p: Seq<char>| #[trigger]
            sessions.contains_key(p) && sessions[p].status.major == StatusMajor::Connection
                && sessions[p].status.minor == StatusMinor::ConnConnected,
{
}

/// The name of a configuration is that of the first one with its path, and
/// there is none just when no configuration has the path.
pub proof fn law_config_name_is_the_first(
    configs: Seq<ConfigInfo<Seq<char>>>,
    path: Seq<char>,
    i: int,
)
    requires
        0 <= i < configs.len(),
        configs[i].path == path,
        forall|j: int| 0 <= j < i ==> (#[trigger] configs[j]).path != path,
    ensures
        config_name_of(configs, path) == Some(configs[i].name),
{
    assert forall|j: int| 0 <= j < i implies !lies_at(path)(#[trigger] configs[j]) by {
        assert(configs[j].path != path);
    }
    lemma_first_index(configs, lies_at(path), i);
}

/// A path that no configuration has, has no name.
pub proof fn law_unlisted_config_has_no_name(configs: Seq<ConfigInfo<Seq<char>>>, path: Seq<char>)
    requires
        forall|j: int| 0 <= j < configs.len() ==> (#[trigger] configs[j]).path != path,
    ensures
        config_name_of(configs, path) is None,
{
    assert forall|j: int| 0 <= j < configs.len() implies !lies_at(path)(
        #[trigger] configs[j],
    ) by {
        assert(configs[j].path != path);
    }
    lemma_first_index(configs, lies_at(path), configs.len() as int);
}

/// A new session has what it is given, and starts from nothing: never
/// connected, no traffic, not idle, not protected.
pub proof fn law_new_sessions_start_from_nothing(
    session_path: Seq<char>,
    config_path: Seq<char>,
    config_name: Seq<char>,
    status: SessionStatus,
)
    ensures
        ({
            let s = fresh_session(session_path, config_path, config_name, status);
            &&& s.session_path == session_path
            &&& s.config_path == config_path
            &&& s.config_name == config_name
            &&& s.status == status
            &&& s.connected_at is None
            &&& s.bytes_in == 0 && s.bytes_out == 0
            &&& s.last_bytes_in == 0 && s.last_bytes_out == 0
            &&& s.idle_started_at is None && s.idle_since is None
            &&& s.auto_reconnect_attempted_at is None
            &&& !s.kill_switch_active
        }),
{
}

} // verus!
