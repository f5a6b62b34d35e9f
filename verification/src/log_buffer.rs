//! The log messages of all sessions, kept in memory for the log viewer.
use vstd::prelude::*;
use vstd::string::*;

use crate::keyed::{has_key, holds_at, linked, StringMap};
use crate::notify::{is_text, text_is};
use crate::protocol::MessageType;
use crate::text::same;
use crate::tray::{SessionInfo, VpnTray};

verus! {

/// So many messages are kept at most.
pub const MAX_LOG_ENTRIES: usize = 5000;

/// So many of the oldest messages make room when the buffer is full.
pub const DROPPED_AT_ONCE: usize = 500;

/// Where no session has the path, its messages go under this name.
pub const UNNAMED: &'static str = "VPN";

/// A time of day, in seconds since midnight and nanoseconds. In a leap second
/// the nanoseconds run on past a full second.
#[derive(Debug)]
pub struct ClockTime {
    secs: u32,
    nanos: u32,
}

pub open spec fn is_time_of_day(secs: u32, nanos: u32) -> bool {
    secs < 86_400 && nanos < 2_000_000_000 && (nanos < 1_000_000_000 || secs % 60 == 59)
}

impl View for ClockTime {
    type V = (u32, u32);

    closed spec fn view(&self) -> (u32, u32) {
        (self.secs, self.nanos)
    }
}

impl ClockTime {
    #[verifier::type_invariant]
    spec fn within_the_day(self) -> bool {
        is_time_of_day(self.secs, self.nanos)
    }

    /// The time of day with these numbers, if there is one.
    pub fn new(secs: u32, nanos: u32) -> (r: Option<ClockTime>)
        ensures
            r is Some == is_time_of_day(secs, nanos),
            r is Some ==> (r->0)@ == (secs, nanos),
    {
        if secs < 86_400 && nanos < 2_000_000_000 && (nanos < 1_000_000_000 || secs % 60 == 59) {
            Some(ClockTime { secs, nanos })
        } else {
            None
        }
    }

    /// The seconds since midnight and the nanoseconds.
    pub fn parts(&self) -> (r: (u32, u32))
        ensures
            r == self@,
            is_time_of_day(r.0, r.1),
    {
        proof {
            use_type_invariant(self);
        }
        (self.secs, self.nanos)
    }
}

impl Clone for ClockTime {
    fn clone(&self) -> (r: Self)
        ensures
            r == *self,
    {
        proof {
            use_type_invariant(self);
        }
        ClockTime { secs: self.secs, nanos: self.nanos }
    }
}

/// The order of times of day.
pub open spec fn not_after(a: (u32, u32), b: (u32, u32)) -> bool {
    a.0 < b.0 || a.0 == b.0 && a.1 <= b.1
}

/// A log message.
#[derive(Debug)]
pub struct LogEntry {
    /// When it was received.
    pub timestamp: ClockTime,
    /// The session that it came from.
    pub session_path: String,
    /// The name of the session's configuration when it was received.
    pub config_name: String,
    /// From 1, debugging, to 8, fatal.
    pub category: u32,
    pub message: String,
}

impl Clone for LogEntry {
    fn clone(&self) -> (r: Self)
        ensures
            r == *self,
    {
        LogEntry {
            timestamp: self.timestamp.clone(),
            session_path: self.session_path.clone(),
            config_name: self.config_name.clone(),
            category: self.category,
            message: self.message.clone(),
        }
    }
}

/// The buffer.
pub struct LogBuffer {
    entries: Vec<LogEntry>,
}

/// The messages after another one has come: a full buffer first loses its
/// oldest ones.
pub open spec fn pushed(entries: Seq<LogEntry>, entry: LogEntry) -> Seq<LogEntry> {
    if entries.len() >= MAX_LOG_ENTRIES {
        entries.skip(DROPPED_AT_ONCE as int).push(entry)
    } else {
        entries.push(entry)
    }
}

/// The message comes from the session at `path`.
pub open spec fn from_session(path: Seq<char>) -> spec_fn(LogEntry) -> bool {
    |e: LogEntry| e.session_path@ == path
}

/// The paths with messages, each with the name that its latest message has.
pub open spec fn names_by_path(entries: Seq<LogEntry>) -> Map<Seq<char>, Seq<char>>
    decreases entries.len(),
{
    if entries.len() == 0 {
        Map::empty()
    } else {
        names_by_path(entries.drop_last()).insert(
            entries.last().session_path@,
            entries.last().config_name@,
        )
    }
}

/// The texts of pairs.
pub open spec fn pair_texts(s: Seq<(String, String)>) -> Seq<(Seq<char>, Seq<char>)> {
    Seq::new(s.len(), |i: int| (s[i].0@, s[i].1@))
}

impl View for LogBuffer {
    type V = Seq<LogEntry>;

    closed spec fn view(&self) -> Seq<LogEntry> {
        self.entries@
    }
}

impl LogBuffer {
    #[verifier::type_invariant]
    spec fn within_limit(self) -> bool {
        self.entries@.len() <= MAX_LOG_ENTRIES
    }

    /// An empty buffer.
    pub fn new() -> (r: Self)
        ensures
            r@ == Seq::<LogEntry>::empty(),
    {
        LogBuffer { entries: Vec::new() }
    }

    /// Adds a message, at the expense of the oldest ones if the buffer is full.
    pub fn push_entry(&mut self, entry: LogEntry)
        ensures
            final(self)@ == pushed(old(self)@, entry),
            final(self)@.len() <= MAX_LOG_ENTRIES,
    {
        proof {
            use_type_invariant(&*self);
        }
        let mut entries: Vec<LogEntry> = Vec::new();
        std::mem::swap(&mut entries, &mut self.entries);
        if entries.len() >= MAX_LOG_ENTRIES {
            entries = entries.split_off(DROPPED_AT_ONCE);
            assert(entries@ =~= old(self)@.skip(DROPPED_AT_ONCE as int));
        }
        entries.push(entry);
        self.entries = entries;
    }

    /// How many messages there are.
    pub fn len(&self) -> (r: usize)
        ensures
            r == self@.len(),
            r <= MAX_LOG_ENTRIES,
    {
        proof {
            use_type_invariant(self);
        }
        self.entries.len()
    }

    /// The message at position `i`, the oldest being at 0.
    pub fn entry(&self, i: usize) -> (r: &LogEntry)
        requires
            i < self@.len(),
        ensures
            *r == self@[i as int],
    {
        &self.entries[i]
    }

    /// The messages of one session, oldest first.
    pub fn entries_for_session(&self, session_path: &str) -> (r: Vec<LogEntry>)
        ensures
            r@ == self@.filter(from_session(session_path@)),
    {
        let mut out: Vec<LogEntry> = Vec::new();
        let mut i: usize = 0;
        let ghost pred = from_session(session_path@);
        proof {
            reveal(Seq::filter);
            assert(self@.take(0).filter(pred) =~= Seq::empty());
        }
        while i < self.entries.len()
            invariant
                i <= self.entries.len(),
                pred == from_session(session_path@),
                out@ == self@.take(i as int).filter(pred),
            decreases self.entries.len() - i,
        {
            proof {
                reveal(Seq::filter);
                assert(self@.take(i as int + 1).drop_last() =~= self@.take(i as int));
            }
            if same(self.entries[i].session_path.as_str(), session_path) {
                out.push(self.entries[i].clone());
            }
            i = i + 1;
        }
        assert(self@.take(i as int) =~= self@);
        out
    }

    /// The paths with messages, each once and with the name that its latest
    /// message has, in no particular order.
    pub fn sessions_with_logs(&self) -> (r: Vec<(String, String)>)
        ensures
            linked(pair_texts(r@), names_by_path(self@)),
    {
        let mut seen: StringMap<String> = StringMap::new();
        let mut i: usize = 0;
        assert(self@.take(0) =~= Seq::empty());
        assert(seen@.map_values(|n: String| n@) =~= names_by_path(self@.take(0)));
        while i < self.entries.len()
            invariant
                i <= self.entries.len(),
                seen@.map_values(|n: String| n@) == names_by_path(self@.take(i as int)),
            decreases self.entries.len() - i,
        {
            let ghost before = seen@;
            assert(self@.take(i as int + 1).drop_last() =~= self@.take(i as int));
            seen.insert(
                self.entries[i].session_path.clone(),
                self.entries[i].config_name.clone(),
            );
            i = i + 1;
            assert(seen@.map_values(|n: String| n@) =~= names_by_path(self@.take(i as int)));
        }
        assert(self@.take(i as int) =~= self@);
        let n = seen.len();
        let mut out: Vec<(String, String)> = Vec::new();
        let mut j: usize = 0;
        while j < n
            invariant
                j <= n,
                n == seen.pairs().len(),
                out.len() == j,
                forall|k: int|
                    0 <= k < j ==> (#[trigger] out@[k]).0@ == seen.pairs()[k].0 && out@[k].1
                        == seen.pairs()[k].1,
            decreases n - j,
        {
            out.push((seen.key_at(j).to_owned(), seen.value_at(j).clone()));
            j = j + 1;
        }
        proof {
            let listed = pair_texts(out@);
            let names = names_by_path(self@);
            assert(names == seen@.map_values(|n: String| n@));
            assert forall|k: int| 0 <= k < listed.len() implies (#[trigger] listed[k]).0
                == seen.pairs()[k].0 && listed[k].1 == seen.pairs()[k].1@ by {
                assert(listed[k].0 == out@[k].0@);
            }
            assert forall|k: Seq<char>| #[trigger] names.contains_key(k) implies has_key(
                listed,
                k,
            ) by {
                assert(seen@.contains_key(k));
                let at = choose|at: int| holds_at(seen.pairs(), k, at);
                assert(holds_at(listed, k, at));
            }
        }
        out
    }
}

/// The buffer keeps the latest message, and the ones before it in their order.
pub proof fn law_buffer_keeps_the_latest(entries: Seq<LogEntry>, entry: LogEntry)
    requires
        entries.len() <= MAX_LOG_ENTRIES,
    ensures
        pushed(entries, entry).len() <= MAX_LOG_ENTRIES,
        pushed(entries, entry).last() == entry,
        pushed(entries, entry).drop_last() == entries.skip(
            entries.len() - pushed(entries, entry).len() + 1,
        ),
        entries.len() < MAX_LOG_ENTRIES ==> pushed(entries, entry).drop_last() == entries,
{
    let after = pushed(entries, entry);
    assert(after.drop_last() =~= entries.skip(entries.len() - after.len() + 1));
}

pub open spec fn log_signal(
    msg_type: MessageType,
    interface: Option<String>,
    member: Option<String>,
) -> bool {
    msg_type == MessageType::Signal && text_is(interface, "net.openvpn.v3.backends"@) && text_is(
        member,
        "Log"@,
    )
}

/// Whether a bus message is a log message of a session.
pub fn is_log_signal(
    msg_type: MessageType,
    interface: &Option<String>,
    member: &Option<String>,
) -> (r: bool)
    ensures
        r == log_signal(msg_type, *interface, *member),
{
    msg_type == MessageType::Signal && is_text(interface, "net.openvpn.v3.backends") && is_text(
        member,
        "Log",
    )
}

/// The name under which the messages of the session at `path` go.
pub open spec fn log_name(
    sessions: Map<Seq<char>, SessionInfo<Seq<char>>>,
    path: Seq<char>,
) -> Seq<char> {
    if sessions.contains_key(path) {
        sessions[path].config_name
    } else {
        UNNAMED@
    }
}

/// The name under which the messages of the session at `path` go.
pub fn name_for_logs(tray: &VpnTray, path: &str) -> (r: String)
    ensures
        r@ == log_name(tray@.sessions, path@),
{
    match tray.session(path) {
        Some(s) => s.config_name.clone(),
        None => UNNAMED.to_owned(),
    }
}

/// The entry for a message that has just come from the session at `path`.
pub fn received(
    tray: &VpnTray,
    path: &str,
    timestamp: ClockTime,
    category: u32,
    message: &str,
) -> (r: LogEntry)
    ensures
        r.timestamp == timestamp,
        r.session_path@ == path@,
        r.config_name@ == log_name(tray@.sessions, path@),
        r.category == category,
        r.message@ == message@,
{
    LogEntry {
        timestamp,
        session_path: path.to_owned(),
        config_name: name_for_logs(tray, path),
        category,
        message: message.to_owned(),
    }
}

/// A buffer with fewer than five thousand messages keeps them all and the new
/// one; a full one loses its five hundred oldest, and no other.
pub proof fn law_oldest_messages_make_room(entries: Seq<LogEntry>, entry: LogEntry)
    ensures
        entries.len() < 5000 ==> pushed(entries, entry) == entries.push(entry),
        entries.len() >= 5000 ==> pushed(entries, entry).len() == entries.len() - 499,
        entries.len() >= 5000 ==> pushed(entries, entry).last() == entry,
        entries.len() >= 5000 ==> forall|i: int|
            0 <= i < entries.len() - 500 ==> #[trigger] pushed(entries, entry)[i] == entries[i
                + 500],
{
}

/// A path with messages has the name that the latest of them bears.
pub proof fn law_latest_message_names_the_path(entries: Seq<LogEntry>, i: int)
    requires
        0 <= i < entries.len(),
        forall|j: int|
            i < j < entries.len() ==> (#[trigger] entries[j]).session_path@
                != entries[i].session_path@,
    ensures
        names_by_path(entries).contains_key(entries[i].session_path@),
        names_by_path(entries)[entries[i].session_path@] == entries[i].config_name@,
    decreases entries.len(),
{
    if i < entries.len() - 1 {
        let rest = entries.drop_last();
        assert(entries[entries.len() - 1].session_path@ != entries[i].session_path@);
        assert forall|j: int| i < j < rest.len() implies (#[trigger] rest[j]).session_path@
            != rest[i].session_path@ by {
            assert(rest[j] == entries[j]);
        }
        law_latest_message_names_the_path(rest, i);
    }
}

/// Only paths with messages have a name.
pub proof fn law_only_paths_with_messages_are_named(entries: Seq<LogEntry>, path: Seq<char>)
    requires
        names_by_path(entries).contains_key(path),
    ensures
        exists|i: int| 0 <= i < entries.len() && (#[trigger] entries[i]).session_path@ == path,
    decreases entries.len(),
{
    if entries.len() > 0 {
        if entries.last().session_path@ == path {
            assert(entries[entries.len() - 1].session_path@ == path);
        } else {
            let rest = entries.drop_last();
            law_only_paths_with_messages_are_named(rest, path);
            let i = choose|i: int|
                0 <= i < rest.len() && (#[trigger] rest[i]).session_path@ == path;
            assert(entries[i].session_path@ == path);
        }
    }
}

/// A time of day has fewer seconds than a day and less than one second of
/// nanoseconds, or less than two in the last second of a minute.
pub proof fn law_times_of_day(h: u32, m: u32, s: u32, nanos: u32)
    requires
        h < 24 && m < 60 && s < 60,
    ensures
        is_time_of_day((3600 * h + 60 * m + s) as u32, nanos) <==> nanos < 1_000_000_000 || s == 59
            && nanos < 2_000_000_000,
        h == 23 && m == 59 && s == 59 ==> !is_time_of_day((3600 * h + 60 * m + s + 1) as u32, nanos),
{
    let n = 3600 * h + 60 * m + s;
    assert(n % 60 == s);
}

/// Times of day are ordered by the second, then by the nanosecond.
pub proof fn law_times_are_ordered(a: (u32, u32), b: (u32, u32), c: (u32, u32))
    ensures
        a.0 != b.0 ==> (not_after(a, b) <==> a.0 < b.0),
        a.0 == b.0 ==> (not_after(a, b) <==> a.1 <= b.1),
        not_after(a, b) || not_after(b, a),
        not_after(a, b) && not_after(b, a) ==> a == b,
        not_after(a, b) && not_after(b, c) ==> not_after(a, c),
{
}

/// The messages of a session go under its configuration's name, and those of a
/// session that is not known under one name for all.
pub proof fn law_name_of_the_messages(
    sessions: Map<Seq<char>, SessionInfo<Seq<char>>>,
    path: Seq<char>,
)
    ensures
        sessions.contains_key(path) ==> log_name(sessions, path) == sessions[path].config_name,
        !sessions.contains_key(path) ==> log_name(sessions, path) == "VPN"@,
{
}

/// A log message on the bus is a signal of that name from the backend's
/// interface.
pub proof fn law_log_messages_come_from_the_backend(
    msg_type: MessageType,
    interface: Option<String>,
    member: Option<String>,
)
    ensures
        log_signal(msg_type, interface, member) <==> {
            &&& msg_type == MessageType::Signal
            &&& interface is Some && interface->0@ == "net.openvpn.v3.backends"@
            &&& member is Some && member->0@ == "Log"@
        },
{
}

/// A message belongs to the session whose path it bears, and to no other.
pub proof fn law_message_belongs_to_its_session(e: LogEntry, path: Seq<char>)
    ensures
        from_session(path)(e) <==> e.session_path@ == path,
{
}

} // verus!
