//! The budget of authentication attempts, kept per configuration path.
use vstd::prelude::*;
use vstd::string::*;

use crate::clock::{law_seconds_are_whole, Moment};
use crate::keyed::StringMap;

verus! {

/// The failure with this number ends the retries.
pub const MAX_CREDENTIAL_ATTEMPTS: u32 = 3;

/// A failure older than this many seconds no longer counts.
pub const AUTH_RETRY_WINDOW_SECS: u64 = 300;

/// The failures in a row of one configuration and the time of the last.
#[derive(Clone, Copy, Debug, PartialEq, Eq, Structural)]
pub struct AuthAttempt {
    pub count: u32,
    pub last_failure: Moment,
}

/// The number of a failure of `config_id` at `now`: one more than the last
/// one within the window, else one.
pub open spec fn attempt_number(
    state: Map<Seq<char>, AuthAttempt>,
    now: Moment,
    config_id: Seq<char>,
) -> nat {
    if state.contains_key(config_id) && now.secs_since(state[config_id].last_failure)
        <= AUTH_RETRY_WINDOW_SECS {
        (state[config_id].count + 1) as nat
    } else {
        1
    }
}

/// Records one authentication failure of the configuration with the path
/// `config_id` and returns its number. The number is not capped here.
pub fn next_attempt(state: &mut StringMap<AuthAttempt>, now: Moment, config_id: &str) -> (r: u32)
    requires
        config_id@.len() > 0,
        attempt_number(old(state)@, now, config_id@) <= u32::MAX,
    ensures
        r == attempt_number(old(state)@, now, config_id@),
        final(state)@ == old(state)@.insert(
            config_id@,
            (AuthAttempt { count: r, last_failure: now }),
        ),
{
    let count: u32 = match state.get(config_id) {
        Some(entry) => if now.seconds_since(&entry.last_failure) > AUTH_RETRY_WINDOW_SECS {
            1
        } else {
            entry.count + 1
        },
        None => 1,
    };
    state.insert(config_id.to_owned(), AuthAttempt { count, last_failure: now });
    count
}

/// Every budget that is kept has attempts left.
pub open spec fn budgets_open(state: Map<Seq<char>, AuthAttempt>) -> bool {
    forall|id: Seq<char>|
        #[trigger] state.contains_key(id) ==> 1 <= state[id].count < MAX_CREDENTIAL_ATTEMPTS
}

/// No budget is kept under the empty path, which would be shared by every
/// session whose configuration is unknown.
pub open spec fn no_shared_budget(state: Map<Seq<char>, AuthAttempt>) -> bool {
    !state.contains_key(Seq::empty())
}

/// The number to judge a failure by; one without a configuration path counts
/// as the last.
pub open spec fn judged_attempt(
    state: Map<Seq<char>, AuthAttempt>,
    now: Moment,
    config_path: Seq<char>,
) -> nat {
    if config_path.len() == 0 {
        MAX_CREDENTIAL_ATTEMPTS as nat
    } else {
        attempt_number(state, now, config_path)
    }
}

/// Records one authentication failure and returns the number to judge it by.
/// A failure without a configuration path is not recorded.
pub fn record_auth_attempt(
    state: &mut StringMap<AuthAttempt>,
    now: Moment,
    config_path: &str,
) -> (r: u32)
    requires
        judged_attempt(old(state)@, now, config_path@) <= u32::MAX,
    ensures
        r == judged_attempt(old(state)@, now, config_path@),
        final(state)@ == (if config_path@.len() == 0 {
            old(state)@
        } else {
            old(state)@.insert(config_path@, (AuthAttempt { count: r, last_failure: now }))
        }),
{
    if config_path.is_empty() {
        MAX_CREDENTIAL_ATTEMPTS
    } else {
        next_attempt(state, now, config_path)
    }
}

pub open spec fn retry_granted(attempt: nat, config_path: Seq<char>) -> bool {
    attempt < MAX_CREDENTIAL_ATTEMPTS && config_path.len() > 0
}

/// Whether a failure with this number is followed by another attempt.
pub fn should_retry_auth(attempt: u32, config_path: &str) -> (r: bool)
    ensures
        r == retry_granted(attempt as nat, config_path@),
{
    attempt < MAX_CREDENTIAL_ATTEMPTS && !config_path.is_empty()
}

/// What the budgets are after a failure has been judged: kept if another
/// attempt follows, dropped if not.
pub open spec fn settled(
    state: Map<Seq<char>, AuthAttempt>,
    now: Moment,
    config_path: Seq<char>,
) -> Map<Seq<char>, AuthAttempt> {
    let attempt = judged_attempt(state, now, config_path);
    if retry_granted(attempt, config_path) {
        state.insert(config_path, AuthAttempt { count: attempt as u32, last_failure: now })
    } else {
        state.remove(config_path)
    }
}

/// The login budgets that are kept, by configuration path. Each has attempts
/// left, and none is kept under the empty path.
pub struct LoginBudgets {
    kept: StringMap<AuthAttempt>,
}

impl View for LoginBudgets {
    type V = Map<Seq<char>, AuthAttempt>;

    closed spec fn view(&self) -> Map<Seq<char>, AuthAttempt> {
        self.kept@
    }
}

impl LoginBudgets {
    #[verifier::type_invariant]
    spec fn well_formed(self) -> bool {
        budgets_open(self.kept@) && no_shared_budget(self.kept@)
    }

    /// No budget at all.
    pub fn new() -> (r: Self)
        ensures
            r@ == Map::<Seq<char>, AuthAttempt>::empty(),
    {
        LoginBudgets { kept: StringMap::new() }
    }

    /// The budget of a configuration, if one is kept.
    pub fn get(&self, config_path: &str) -> (r: Option<AuthAttempt>)
        ensures
            r == (if self@.contains_key(config_path@) {
                Some(self@[config_path@])
            } else {
                None
            }),
            r is Some ==> 1 <= r->0.count < MAX_CREDENTIAL_ATTEMPTS && config_path@.len() > 0,
    {
        proof {
            use_type_invariant(self);
        }
        match self.kept.get(config_path) {
            Some(a) => {
                proof {
                    if config_path@.len() == 0 {
                        assert(config_path@ =~= Seq::empty());
                    }
                }
                Some(*a)
            },
            None => None,
        }
    }

    fn take(&mut self) -> (r: StringMap<AuthAttempt>)
        ensures
            r@ == old(self)@,
            budgets_open(r@),
            no_shared_budget(r@),
    {
        proof {
            use_type_invariant(&*self);
        }
        let mut kept: StringMap<AuthAttempt> = StringMap::new();
        std::mem::swap(&mut kept, &mut self.kept);
        kept
    }

    /// Drops the budget of a configuration.
    pub fn remove(&mut self, config_path: &str)
        ensures
            final(self)@ == old(self)@.remove(config_path@),
    {
        let mut kept = self.take();
        let gone = kept.remove(config_path);
        self.kept = kept;
    }

    /// Judges an authentication failure: whether another attempt follows, and
    /// its number. When none follows, the budget is dropped, so that the user
    /// can start over.
    pub fn judge_auth_failure(&mut self, now: Moment, config_path: &str) -> (r: (bool, u32))
        ensures
            r.1 == judged_attempt(old(self)@, now, config_path@),
            r.0 == retry_granted(r.1 as nat, config_path@),
            final(self)@ == settled(old(self)@, now, config_path@),
            1 <= r.1 <= MAX_CREDENTIAL_ATTEMPTS,
    {
        let mut kept = self.take();
        let ghost before = kept@;
        proof {
            law_judging_keeps_budgets_open(before, now, config_path@);
        }
        let attempt = record_auth_attempt(&mut kept, now, config_path);
        let retry = should_retry_auth(attempt, config_path);
        if !retry {
            let gone = kept.remove(config_path);
            assert(kept@ =~= before.remove(config_path@));
        }
        self.kept = kept;
        (retry, attempt)
    }
}

/// Failures of one configuration leave the numbers of every other one alone.
pub proof fn law_budgets_are_isolated(
    state: Map<Seq<char>, AuthAttempt>,
    now: Moment,
    later: Moment,
    id: Seq<char>,
    other: Seq<char>,
)
    requires
        id != other,
    ensures
        attempt_number(settled(state, now, id), later, other) == attempt_number(
            state,
            later,
            other,
        ),
{
}

/// After its budget was dropped, a configuration starts at one again.
pub proof fn law_dropped_budget_starts_over(
    state: Map<Seq<char>, AuthAttempt>,
    now: Moment,
    id: Seq<char>,
)
    ensures
        attempt_number(state.remove(id), now, id) == 1,
{
}

/// Judging a failure keeps every budget open and never makes one for the empty
/// path.
pub proof fn law_judging_keeps_budgets_open(
    state: Map<Seq<char>, AuthAttempt>,
    now: Moment,
    config_path: Seq<char>,
)
    requires
        budgets_open(state),
        no_shared_budget(state),
    ensures
        budgets_open(settled(state, now, config_path)),
        no_shared_budget(settled(state, now, config_path)),
{
}

/// The times of a run of failures, each within the window of the one before.
pub open spec fn in_one_window(times: Seq<Moment>) -> bool {
    forall|i: int|
        0 < i < times.len() ==> (#[trigger] times[i]).secs_since(times[i - 1])
            <= AUTH_RETRY_WINDOW_SECS
}

/// The budgets after a run of failures of one configuration.
pub open spec fn after_failures(
    state: Map<Seq<char>, AuthAttempt>,
    times: Seq<Moment>,
    id: Seq<char>,
) -> Map<Seq<char>, AuthAttempt>
    decreases times.len(),
{
    if times.len() == 0 {
        state
    } else {
        settled(after_failures(state, times.drop_last(), id), times.last(), id)
    }
}

/// Whether the last failure of a run is followed by another attempt.
pub open spec fn last_is_retried(
    state: Map<Seq<char>, AuthAttempt>,
    times: Seq<Moment>,
    id: Seq<char>,
) -> bool {
    retry_granted(
        judged_attempt(after_failures(state, times.drop_last(), id), times.last(), id),
        id,
    )
}

/// A configuration that fails over and over within the window is tried again
/// after every failure but the one with the last number.
pub proof fn law_lockout_after_the_last_attempt(
    state: Map<Seq<char>, AuthAttempt>,
    times: Seq<Moment>,
    id: Seq<char>,
)
    requires
        id.len() > 0,
        !state.contains_key(id),
        in_one_window(times),
        1 <= times.len() <= MAX_CREDENTIAL_ATTEMPTS,
    ensures
        last_is_retried(state, times, id) == (times.len() < MAX_CREDENTIAL_ATTEMPTS),
        times.len() < MAX_CREDENTIAL_ATTEMPTS ==> after_failures(state, times, id)
            == after_failures(state, times.drop_last(), id).insert(
            id,
            (AuthAttempt { count: times.len() as u32, last_failure: times.last() }),
        ),
        times.len() == MAX_CREDENTIAL_ATTEMPTS ==> !after_failures(state, times, id).contains_key(
            id,
        ),
    decreases times.len(),
{
    if times.len() > 1 {
        let rest = times.drop_last();
        assert(in_one_window(rest)) by {
            assert forall|i: int| 0 < i < rest.len() implies (#[trigger] rest[i]).secs_since(
                rest[i - 1],
            ) <= AUTH_RETRY_WINDOW_SECS by {
                assert(rest[i] == times[i]);
                assert(rest[i - 1] == times[i - 1]);
            }
        }
        law_lockout_after_the_last_attempt(state, rest, id);
        assert(times[times.len() - 1].secs_since(times[times.len() - 2])
            <= AUTH_RETRY_WINDOW_SECS);
        assert(rest.last() == times[times.len() - 2]);
    } else {
        assert(times.drop_last() =~= Seq::empty());
        assert(after_failures(state, times.drop_last(), id) == state);
    }
}

/// Which number a failure has: it follows on the last one of the same
/// configuration unless more than five minutes lie between them, and one
/// without a configuration counts as the third. The third ends the retries.
pub proof fn law_failures_are_numbered(
    state: Map<Seq<char>, AuthAttempt>,
    now: Moment,
    id: Seq<char>,
)
    ensures
        ({
            let n = judged_attempt(state, now, id);
            let counts = state.contains_key(id) && now.nanos < state[id].last_failure.nanos
                + 301_000_000_000;
            &&& id.len() == 0 ==> n == 3
            &&& id.len() > 0 && counts ==> n == state[id].count + 1
            &&& id.len() > 0 && !counts ==> n == 1
            &&& retry_granted(n, id) <==> id.len() > 0 && n < 3
        }),
{
    if state.contains_key(id) {
        law_seconds_are_whole(now, state[id].last_failure, 301);
    }
}

/// A failure that is followed by another attempt is remembered with its number
/// and its time; one that is not leaves its configuration without a budget.
/// Every other configuration keeps what it has.
pub proof fn law_failures_are_remembered(
    state: Map<Seq<char>, AuthAttempt>,
    now: Moment,
    id: Seq<char>,
    other: Seq<char>,
)
    requires
        budgets_open(state),
    ensures
        ({
            let after = settled(state, now, id);
            let n = judged_attempt(state, now, id);
            &&& after.contains_key(id) <==> id.len() > 0 && n < 3
            &&& after.contains_key(id) ==> after[id].count == n && after[id].last_failure == now
            &&& other != id ==> after.contains_key(other) == state.contains_key(other)
                && after[other] == state[other]
        }),
{
}

} // verus!
