//! Stall detection: a connected session whose byte counters stand still.
use vstd::prelude::*;

use crate::clock::{law_seconds_are_whole, Moment};
use crate::protocol::{StatusMajor, StatusMinor};
use crate::tray::SessionInfo;

verus! {

/// The poll shows no traffic since the one before.
pub open spec fn quiet<T>(s: SessionInfo<T>, bytes_in: u64, bytes_out: u64) -> bool {
    bytes_in <= s.last_bytes_in && bytes_out <= s.last_bytes_out
}

/// The idle clock runs on: detection is on, there was no traffic, and the
/// session is connected.
pub open spec fn idling<T>(
    s: SessionInfo<T>,
    bytes_in: u64,
    bytes_out: u64,
    threshold_secs: u32,
) -> bool {
    threshold_secs > 0 && quiet(s, bytes_in, bytes_out) && s.status.connected()
}

/// When the idle time began, given that it goes on.
pub open spec fn idle_start<T>(s: SessionInfo<T>, now: Moment) -> Moment {
    match s.idle_started_at {
        Some(t) => t,
        None => now,
    }
}

/// A session after a poll of its byte counters.
pub open spec fn after_poll<T>(
    s: SessionInfo<T>,
    bytes_in: u64,
    bytes_out: u64,
    threshold_secs: u32,
    now: Moment,
) -> SessionInfo<T> {
    let idle = idling(s, bytes_in, bytes_out, threshold_secs);
    let start = idle_start(s, now);
    SessionInfo {
        bytes_in,
        bytes_out,
        last_bytes_in: bytes_in,
        last_bytes_out: bytes_out,
        idle_started_at: if idle {
            Some(start)
        } else {
            None
        },
        idle_since: if idle && now.secs_since(start) >= threshold_secs {
            Some(start)
        } else {
            None
        },
        ..s
    }
}

/// Takes in the byte counters of a poll at `now`. The idle clock starts with
/// the first poll without traffic and the stall warning, `idle_since`, is set
/// once the clock has reached the threshold; traffic, a threshold of zero and
/// a session that is not connected reset both.
pub fn apply_stall_detection(
    session: &mut SessionInfo,
    bytes_in: u64,
    bytes_out: u64,
    threshold_secs: u32,
    now: Moment,
)
    ensures
        *final(session) == after_poll(*old(session), bytes_in, bytes_out, threshold_secs, now),
{
    let quiet_now = bytes_in <= session.last_bytes_in && bytes_out <= session.last_bytes_out;
    session.bytes_in = bytes_in;
    session.bytes_out = bytes_out;
    session.last_bytes_in = bytes_in;
    session.last_bytes_out = bytes_out;
    if threshold_secs == 0 || !quiet_now || !session.status.is_connected() {
        session.idle_started_at = None;
        session.idle_since = None;
        return;
    }
    let started = match session.idle_started_at {
        Some(t) => t,
        None => now,
    };
    session.idle_started_at = Some(started);
    session.idle_since = if now.seconds_since(&started) >= threshold_secs as u64 {
        Some(started)
    } else {
        None
    };
}

/// Whether a session idle since `idle_since`, last reconnected at
/// `last_attempt`, is to be reconnected at `now`.
pub open spec fn reconnect_due(
    idle_since: Option<Moment>,
    last_attempt: Option<Moment>,
    auto_reconnect: bool,
    threshold_secs: u32,
    cooldown_secs: u64,
    now: Moment,
) -> bool {
    &&& auto_reconnect
    &&& threshold_secs > 0
    &&& idle_since is Some
    &&& now.secs_since(idle_since->0) >= threshold_secs
    &&& (last_attempt is Some ==> now.secs_since(last_attempt->0) >= cooldown_secs)
}

/// Whether a stall that began at `idle_since` is to be answered by a
/// reconnect: reconnecting and detection are on, the threshold is reached, and
/// the cooldown since the last attempt is over.
pub fn stall_reconnect_due(
    idle_since: Option<Moment>,
    last_attempt: Option<Moment>,
    auto_reconnect: bool,
    threshold_secs: u32,
    cooldown_secs: u64,
    now: Moment,
) -> (r: bool)
    ensures
        r == reconnect_due(
            idle_since,
            last_attempt,
            auto_reconnect,
            threshold_secs,
            cooldown_secs,
            now,
        ),
{
    if !auto_reconnect || threshold_secs == 0 {
        return false;
    }
    match idle_since {
        None => false,
        Some(since) => if now.seconds_since(&since) < threshold_secs as u64 {
            false
        } else {
            match last_attempt {
                Some(last) => now.seconds_since(&last) >= cooldown_secs,
                None => true,
            }
        },
    }
}

/// A session after it was asked whether it is to be reconnected.
pub open spec fn stamped<T>(s: SessionInfo<T>, due: bool, now: Moment) -> SessionInfo<T> {
    if due {
        SessionInfo { auto_reconnect_attempted_at: Some(now), ..s }
    } else {
        s
    }
}

/// Whether a stalled session is to be reconnected at `now`. A positive answer
/// is stamped on the session as its last attempt.
pub fn should_auto_reconnect_on_stall(
    session: &mut SessionInfo,
    auto_reconnect: bool,
    threshold_secs: u32,
    cooldown_secs: u64,
    now: Moment,
) -> (r: bool)
    ensures
        r == reconnect_due(
            old(session).idle_since,
            old(session).auto_reconnect_attempted_at,
            auto_reconnect,
            threshold_secs,
            cooldown_secs,
            now,
        ),
        *final(session) == (if r {
            SessionInfo { auto_reconnect_attempted_at: Some(now), ..*old(session) }
        } else {
            *old(session)
        }),
        *final(session) == stamped(*old(session), r, now),
{
    let due = stall_reconnect_due(
        session.idle_since,
        session.auto_reconnect_attempted_at,
        auto_reconnect,
        threshold_secs,
        cooldown_secs,
        now,
    );
    if due {
        session.auto_reconnect_attempted_at = Some(now);
    }
    due
}

/// The stall warning is on only while the session is connected, detection is
/// on and the idle clock has reached the threshold; it shows the start of that
/// clock.
pub proof fn law_warning_means_stalled<T>(
    s: SessionInfo<T>,
    bytes_in: u64,
    bytes_out: u64,
    threshold_secs: u32,
    now: Moment,
)
    ensures
        ({
            let t = after_poll(s, bytes_in, bytes_out, threshold_secs, now);
            t.idle_since is Some ==> {
                &&& t.status.connected()
                &&& threshold_secs > 0
                &&& t.idle_started_at == t.idle_since
                &&& now.secs_since(t.idle_since->0) >= threshold_secs
                &&& quiet(s, bytes_in, bytes_out)
            }
        }),
{
}

/// The idle clock is not restarted by further polls without traffic.
pub proof fn law_idle_clock_accumulates<T>(
    s: SessionInfo<T>,
    bytes_in: u64,
    bytes_out: u64,
    threshold_secs: u32,
    first: Moment,
    second: Moment,
)
    requires
        idling(s, bytes_in, bytes_out, threshold_secs),
    ensures
        ({
            let once = after_poll(s, bytes_in, bytes_out, threshold_secs, first);
            let twice = after_poll(once, bytes_in, bytes_out, threshold_secs, second);
            &&& twice.idle_started_at == once.idle_started_at
            &&& twice.idle_since is Some <==> second.secs_since(idle_start(s, first))
                >= threshold_secs
        }),
{
}

/// After a reconnect at `at`, no further one is due before the cooldown is
/// over, however long the session stays idle.
pub proof fn law_cooldown_holds(
    idle_since: Option<Moment>,
    at: Moment,
    later: Moment,
    auto_reconnect: bool,
    threshold_secs: u32,
    cooldown_secs: u64,
)
    requires
        later.secs_since(at) < cooldown_secs,
    ensures
        !reconnect_due(
            idle_since,
            Some(at),
            auto_reconnect,
            threshold_secs,
            cooldown_secs,
            later,
        ),
{
}

/// A connected session without traffic keeps the start of its idle time, and
/// shows it as soon as, and as long as, that time reaches the threshold. Of
/// the session only its status, its counters and the start of its idle time
/// matter.
pub proof fn law_silence_is_reported<T>(
    s: SessionInfo<T>,
    bytes_in: u64,
    bytes_out: u64,
    threshold_secs: u32,
    now: Moment,
)
    requires
        threshold_secs > 0,
        s.status.major == StatusMajor::Connection && s.status.minor == StatusMinor::ConnConnected,
        bytes_in <= s.last_bytes_in,
        bytes_out <= s.last_bytes_out,
    ensures
        ({
            let after = after_poll(s, bytes_in, bytes_out, threshold_secs, now);
            &&& s.idle_started_at matches Some(t) ==> {
                &&& after.idle_started_at == Some(t)
                &&& now.nanos >= t.nanos + threshold_secs * 1_000_000_000 ==> after.idle_since == Some(t)
                &&& now.nanos < t.nanos + threshold_secs * 1_000_000_000 ==> after.idle_since is None
            }
            &&& s.idle_started_at is None ==> {
                &&& after.idle_started_at == Some(now)
                &&& after.idle_since is None
            }
        }),
{
    law_seconds_are_whole(now, idle_start(s, now), threshold_secs as nat);
}

/// Traffic in either direction, a threshold of zero and any status but
/// connected stop the idle clock and take the warning back.
pub proof fn law_activity_clears_the_warning<T>(
    s: SessionInfo<T>,
    bytes_in: u64,
    bytes_out: u64,
    threshold_secs: u32,
    now: Moment,
)
    requires
        bytes_in > s.last_bytes_in || bytes_out > s.last_bytes_out || threshold_secs == 0
            || s.status.major != StatusMajor::Connection || s.status.minor
            != StatusMinor::ConnConnected,
    ensures
        after_poll(s, bytes_in, bytes_out, threshold_secs, now).idle_started_at is None,
        after_poll(s, bytes_in, bytes_out, threshold_secs, now).idle_since is None,
{
}

/// A poll stores the counters, also as the baseline of the next poll, and
/// touches nothing else but the idle clock.
pub proof fn law_poll_stores_the_counters<T>(
    s: SessionInfo<T>,
    bytes_in: u64,
    bytes_out: u64,
    threshold_secs: u32,
    now: Moment,
)
    ensures
        ({
            let after = after_poll(s, bytes_in, bytes_out, threshold_secs, now);
            &&& after.bytes_in == bytes_in && after.last_bytes_in == bytes_in
            &&& after.bytes_out == bytes_out && after.last_bytes_out == bytes_out
            &&& after.session_path == s.session_path
            &&& after.config_path == s.config_path
            &&& after.config_name == s.config_name
            &&& after.status == s.status
            &&& after.connected_at == s.connected_at
            &&& after.auto_reconnect_attempted_at == s.auto_reconnect_attempted_at
            &&& after.kill_switch_active == s.kill_switch_active
        }),
{
}

/// A session that stays connected and silent over any two polls shows the
/// warning after the second, if they lie the threshold apart.
pub proof fn law_two_silent_polls_warn<T>(
    s: SessionInfo<T>,
    threshold_secs: u32,
    first: Moment,
    second: Moment,
)
    requires
        threshold_secs > 0,
        s.status.major == StatusMajor::Connection && s.status.minor == StatusMinor::ConnConnected,
        second.nanos >= first.nanos + threshold_secs * 1_000_000_000,
        s.idle_started_at matches Some(t) ==> t.nanos <= first.nanos,
    ensures
        ({
            let once = after_poll(s, s.last_bytes_in, s.last_bytes_out, threshold_secs, first);
            let twice = after_poll(
                once,
                s.last_bytes_in,
                s.last_bytes_out,
                threshold_secs,
                second,
            );
            &&& twice.idle_since is Some
            &&& (twice.idle_since->0).nanos <= first.nanos
        }),
{
    law_seconds_are_whole(second, idle_start(s, first), threshold_secs as nat);
}

/// A stalled session is reconnected just when reconnecting and detection are
/// on, the stall has lasted for the threshold, and an earlier attempt, if
/// there was one, lies the cooldown back.
pub proof fn law_reconnect_after_threshold_and_cooldown(
    since: Moment,
    last_attempt: Option<Moment>,
    auto_reconnect: bool,
    threshold_secs: u32,
    cooldown_secs: u64,
    now: Moment,
)
    ensures
        reconnect_due(
            Some(since),
            last_attempt,
            auto_reconnect,
            threshold_secs,
            cooldown_secs,
            now,
        ) <==> {
            &&& auto_reconnect
            &&& threshold_secs > 0
            &&& now.nanos >= since.nanos + threshold_secs * 1_000_000_000
            &&& last_attempt matches Some(last) ==> now.nanos >= last.nanos + cooldown_secs * 1_000_000_000
                || cooldown_secs == 0
        },
        !reconnect_due(None, last_attempt, auto_reconnect, threshold_secs, cooldown_secs, now),
{
    if threshold_secs > 0 {
        law_seconds_are_whole(now, since, threshold_secs as nat);
    }
    if last_attempt is Some && cooldown_secs > 0 {
        law_seconds_are_whole(now, last_attempt->0, cooldown_secs as nat);
    }
}

/// An attempt is stamped just when the session is to be reconnected, and
/// nothing else of the session changes.
pub proof fn law_attempts_are_stamped<T>(s: SessionInfo<T>, due: bool, now: Moment)
    ensures
        due ==> stamped(s, due, now).auto_reconnect_attempted_at == Some(now),
        !due ==> stamped(s, due, now) == s,
        stamped(s, due, now) == (SessionInfo {
            auto_reconnect_attempted_at: stamped(s, due, now).auto_reconnect_attempted_at,
            ..s
        }),
{
}

} // verus!
