//! The registers that the event handlers share: the tray and what is
//! remembered about sessions and configurations between events.
use vstd::prelude::*;
use vstd::string::*;

use crate::clock::Moment;
use crate::keyed::{StringMap, StringSet};
use crate::retry::{budgets_open, no_shared_budget, AuthAttempt, LoginBudgets};
use crate::tray::{BypassState, TrayModel, VpnTray};

verus! {

pub struct Registers {
    pub tray: VpnTray,
    /// Sessions that the user, or an error message, disconnected.
    pub user_disconnected: StringSet,
    /// Sessions that are replaced after a failed login.
    pub auth_retry: StringSet,
    /// Configuration path and name of sessions that are about to leave the
    /// tray.
    pub recent_destroyed: StringMap<(String, String)>,
    /// The login failures per configuration path.
    pub attempts: LoginBudgets,
    /// The last status numbers per session.
    pub last_signal: StringMap<(u32, u32)>,
    /// The number of the latest timeout watch per session.
    pub timeouts: StringMap<u64>,
    /// The last reconnect of a stalled session per configuration path.
    pub reconnects: StringMap<Moment>,
}

/// The mathematical model of the registers.
pub struct RegistersModel {
    pub tray: TrayModel,
    pub user_disconnected: Set<Seq<char>>,
    pub auth_retry: Set<Seq<char>>,
    pub recent_destroyed: Map<Seq<char>, (Seq<char>, Seq<char>)>,
    pub attempts: Map<Seq<char>, AuthAttempt>,
    pub last_signal: Map<Seq<char>, (u32, u32)>,
    pub timeouts: Map<Seq<char>, u64>,
    pub reconnects: Map<Seq<char>, Moment>,
}

pub open spec fn pairs_model(m: Map<Seq<char>, (String, String)>) -> Map<
    Seq<char>,
    (Seq<char>, Seq<char>),
> {
    m.map_values(|p: (String, String)| (p.0@, p.1@))
}

impl View for Registers {
    type V = RegistersModel;

    open spec fn view(&self) -> RegistersModel {
        RegistersModel {
            tray: self.tray@,
            user_disconnected: self.user_disconnected@,
            auth_retry: self.auth_retry@,
            recent_destroyed: pairs_model(self.recent_destroyed@),
            attempts: self.attempts@,
            last_signal: self.last_signal@,
            timeouts: self.timeouts@,
            reconnects: self.reconnects@,
        }
    }
}

impl RegistersModel {
    /// Every login budget that is kept has attempts left, and none is kept
    /// under the empty path.
    pub open spec fn valid(self) -> bool {
        budgets_open(self.attempts) && no_shared_budget(self.attempts)
    }
}

impl Registers {
    /// The registers at start.
    pub fn new() -> (r: Self)
        ensures
            r@ == (RegistersModel {
                tray: TrayModel {
                    sessions: Map::empty(),
                    configs: Seq::empty(),
                    bypass_state: BypassState::Off,
                    kill_switch_enabled: false,
                },
                user_disconnected: Set::empty(),
                auth_retry: Set::empty(),
                recent_destroyed: Map::empty(),
                attempts: Map::empty(),
                last_signal: Map::empty(),
                timeouts: Map::empty(),
                reconnects: Map::empty(),
            }),
    {
        let r = Registers {
            tray: VpnTray::new(),
            user_disconnected: StringSet::new(),
            auth_retry: StringSet::new(),
            recent_destroyed: StringMap::new(),
            attempts: LoginBudgets::new(),
            last_signal: StringMap::new(),
            timeouts: StringMap::new(),
            reconnects: StringMap::new(),
        };
        assert(r@.recent_destroyed =~= Map::empty());
        assert(r@.tray.configs =~= Seq::empty());
        r
    }

    /// Remembers the configuration of a session that is about to leave.
    pub fn remember_destroyed(&mut self, path: &str, config_path: &str, config_name: &str)
        ensures
            final(self)@ == (RegistersModel {
                recent_destroyed: old(self)@.recent_destroyed.insert(
                    path@,
                    (config_path@, config_name@),
                ),
                ..old(self)@
            }),
    {
        self.recent_destroyed.insert(
            path.to_owned(),
            (config_path.to_owned(), config_name.to_owned()),
        );
        assert(self@.recent_destroyed =~= old(self)@.recent_destroyed.insert(
            path@,
            (config_path@, config_name@),
        ));
    }

    /// Takes out what was remembered of a session.
    pub fn take_destroyed(&mut self, path: &str) -> (r: Option<(String, String)>)
        ensures
            final(self)@ == (RegistersModel {
                recent_destroyed: old(self)@.recent_destroyed.remove(path@),
                ..old(self)@
            }),
            match r {
                Some(p) => old(self)@.recent_destroyed.contains_key(path@) && (p.0@, p.1@) == old(
                    self,
                )@.recent_destroyed[path@],
                None => !old(self)@.recent_destroyed.contains_key(path@),
            },
    {
        let r = self.recent_destroyed.remove(path);
        assert(self@.recent_destroyed =~= old(self)@.recent_destroyed.remove(path@));
        r
    }
}

} // verus!
