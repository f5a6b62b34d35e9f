//! The log viewer: one tab for each configuration name, filled from the buffer
//! and then from the messages as they come.
use vstd::prelude::*;
use vstd::string::*;

use crate::keyed::{holds_at, linked, StringMap};
use crate::log_buffer::{
    from_session, log_name, name_for_logs, not_after, ClockTime, LogBuffer, LogEntry,
};
use crate::log_format::{
    any_passes_filter, entry_line, export_footer, export_header, format_export, format_log_line,
    level_index_to_min, level_min_of, line_text, passes, passes_filter, rebuild_buffer, rendered,
    some_passes, visible, visible_entries, LoweredQuery,
};
use crate::settings::{clamped, Settings, SettingsValues};
use crate::text::{
    has_substring, law_part_occurs_in_the_whole, law_text_order_is_total,
    law_text_starts_with_its_front, less, lex_less, lowercase, same, starts_with_spec, texts,
};
use crate::tray::VpnTray;

verus! {

/// The message came at time `t`.
pub open spec fn came_at(t: (u32, u32)) -> spec_fn(LogEntry) -> bool {
    |e: LogEntry| e.timestamp@ == t
}

pub open spec fn in_time_order(s: Seq<LogEntry>) -> bool {
    forall|i: int, j: int|
        0 <= i < j < s.len() ==> not_after(
            (#[trigger] s[i]).timestamp@,
            (#[trigger] s[j]).timestamp@,
        )
}

/// `r` holds the messages of `s` in the order of their times, and those with
/// the same time in their old order.
pub open spec fn is_time_sorted(r: Seq<LogEntry>, s: Seq<LogEntry>) -> bool {
    &&& in_time_order(r)
    &&& forall|t: (u32, u32)|
        r.filter(#[trigger] came_at(t)) == s.filter(came_at(t))
}

proof fn lemma_none_passes(s: Seq<LogEntry>, pred: spec_fn(LogEntry) -> bool)
    requires
        forall|i: int| 0 <= i < s.len() ==> !pred(#[trigger] s[i]),
    ensures
        s.filter(pred) == Seq::<LogEntry>::empty(),
    decreases s.len(),
{
    reveal(Seq::filter);
    if s.len() > 0 {
        assert(!pred(s[s.len() - 1]));
        assert forall|i: int| 0 <= i < s.drop_last().len() implies !pred(
            #[trigger] s.drop_last()[i],
        ) by {
            assert(s.drop_last()[i] == s[i]);
        }
        lemma_none_passes(s.drop_last(), pred);
    }
    assert(s.filter(pred) =~= Seq::<LogEntry>::empty());
}

proof fn lemma_insert_sorted(a: Seq<LogEntry>, s: Seq<LogEntry>, e: LogEntry, at: int)
    requires
        is_time_sorted(a, s),
        0 <= at <= a.len(),
        forall|i: int| 0 <= i < at ==> not_after((#[trigger] a[i]).timestamp@, e.timestamp@),
        forall|i: int| at <= i < a.len() ==> !not_after((#[trigger] a[i]).timestamp@, e.timestamp@),
    ensures
        is_time_sorted(a.insert(at, e), s.push(e)),
{
    let r = a.insert(at, e);
    let front = a.take(at);
    let back = a.skip(at);
    assert(r =~= front + seq![e] + back);
    assert(a =~= front + back);
    assert(s.push(e) =~= s + seq![e]);
    assert(in_time_order(r)) by {
        assert forall|i: int, j: int| 0 <= i < j < r.len() implies not_after(
            (#[trigger] r[i]).timestamp@,
            (#[trigger] r[j]).timestamp@,
        ) by {
            if i < at && j > at {
                assert(r[i] == a[i] && r[j] == a[j - 1]);
            } else if i < at && j < at {
                assert(r[i] == a[i] && r[j] == a[j]);
            } else if i > at {
                assert(r[i] == a[i - 1] && r[j] == a[j - 1]);
            } else if i == at {
                assert(r[j] == a[j - 1]);
            } else {
                assert(r[i] == a[i]);
            }
        }
    }
    assert forall|t: (u32, u32)| r.filter(#[trigger] came_at(t)) == s.push(e).filter(
        came_at(t),
    ) by {
        let pred = came_at(t);
        Seq::filter_distributes_over_add(front + seq![e], back, pred);
        Seq::filter_distributes_over_add(front, seq![e], pred);
        Seq::filter_distributes_over_add(front, back, pred);
        Seq::filter_distributes_over_add(s, seq![e], pred);
        assert(a.filter(pred) == s.filter(pred));
        if pred(e) {
            assert forall|i: int| 0 <= i < back.len() implies !pred(#[trigger] back[i]) by {
                assert(back[i] == a[at + i]);
            }
            lemma_none_passes(back, pred);
            assert(front.filter(pred) + back.filter(pred) =~= front.filter(pred));
            assert(r.filter(pred) =~= s.push(e).filter(pred));
        } else {
            lemma_none_passes(seq![e], pred);
            assert(r.filter(pred) =~= s.push(e).filter(pred));
        }
    }
}

fn comes_after(a: &LogEntry, b: &LogEntry) -> (r: bool)
    ensures
        r == !not_after(a.timestamp@, b.timestamp@),
{
    let x = a.timestamp.parts();
    let y = b.timestamp.parts();
    x.0 > y.0 || x.0 == y.0 && x.1 > y.1
}

/// Sorts messages by their times; those with the same time keep their order.
pub fn sort_by_time(entries: Vec<LogEntry>) -> (r: Vec<LogEntry>)
    ensures
        is_time_sorted(r@, entries@),
{
    let mut out: Vec<LogEntry> = Vec::new();
    let mut i: usize = 0;
    assert(entries@.take(0) =~= Seq::empty());
    assert(is_time_sorted(out@, entries@.take(0)));
    while i < entries.len()
        invariant
            i <= entries.len(),
            is_time_sorted(out@, entries@.take(i as int)),
        decreases entries.len() - i,
    {
        let e = entries[i].clone();
        let mut at: usize = out.len();
        while at > 0 && comes_after(&out[at - 1], &e)
            invariant
                at <= out.len(),
                forall|k: int|
                    at <= k < out.len() ==> !not_after(
                        (#[trigger] out@[k]).timestamp@,
                        e.timestamp@,
                    ),
            decreases at,
        {
            at = at - 1;
        }
        proof {
            assert forall|k: int| 0 <= k < at implies not_after(
                (#[trigger] out@[k]).timestamp@,
                e.timestamp@,
            ) by {
                let last = out@[at - 1];
                if k < at - 1 {
                    assert(not_after(out@[k].timestamp@, last.timestamp@));
                }
            }
            lemma_insert_sorted(out@, entries@.take(i as int), e, at as int);
            assert(entries@.take(i as int + 1) =~= entries@.take(i as int).push(e));
        }
        out.insert(at, e);
        i = i + 1;
    }
    assert(entries@.take(i as int) =~= entries@);
    out
}

/// The messages of the sessions with this name, one session after the other.
pub open spec fn gathered(
    entries: Seq<LogEntry>,
    sessions: Seq<(String, String)>,
    config_name: Seq<char>,
) -> Seq<LogEntry>
    decreases sessions.len(),
{
    if sessions.len() == 0 {
        Seq::empty()
    } else if sessions.last().1@ == config_name {
        gathered(entries, sessions.drop_last(), config_name) + entries.filter(
            from_session(sessions.last().0@),
        )
    } else {
        gathered(entries, sessions.drop_last(), config_name)
    }
}

/// The messages that are kept for a configuration name, in the order of their
/// times. `sessions` are the paths with messages and their names.
pub fn history(buffer: &LogBuffer, sessions: &[(String, String)], config_name: &str) -> (r: Vec<
    LogEntry,
>)
    ensures
        is_time_sorted(r@, gathered(buffer@, sessions@, config_name@)),
{
    let mut all: Vec<LogEntry> = Vec::new();
    let mut i: usize = 0;
    assert(sessions@.take(0) =~= Seq::empty());
    while i < sessions.len()
        invariant
            i <= sessions.len(),
            all@ == gathered(buffer@, sessions@.take(i as int), config_name@),
        decreases sessions.len() - i,
    {
        assert(sessions@.take(i as int + 1).drop_last() =~= sessions@.take(i as int));
        if same(sessions[i].1.as_str(), config_name) {
            let mut more = buffer.entries_for_session(sessions[i].0.as_str());
            all.append(&mut more);
        }
        i = i + 1;
    }
    assert(sessions@.take(i as int) =~= sessions@);
    sort_by_time(all)
}

/// The names are in order, each once.
pub open spec fn strictly_sorted(names: Seq<Seq<char>>) -> bool {
    forall|i: int, j: int|
        0 <= i < j < names.len() ==> lex_less(#[trigger] names[i], #[trigger] names[j])
}

proof fn lemma_lex_transitive(a: Seq<char>, b: Seq<char>, c: Seq<char>)
    requires
        lex_less(a, b),
        lex_less(b, c),
    ensures
        lex_less(a, c),
    decreases a.len(),
{
    if a.len() > 0 && b.len() > 0 && c.len() > 0 && a[0] == b[0] && b[0] == c[0] {
        lemma_lex_transitive(a.drop_first(), b.drop_first(), c.drop_first());
    }
}

proof fn lemma_lex_total(a: Seq<char>, b: Seq<char>)
    ensures
        a == b || lex_less(a, b) || lex_less(b, a),
    decreases a.len(),
{
    if a.len() > 0 && b.len() > 0 {
        if a[0] == b[0] {
            lemma_lex_total(a.drop_first(), b.drop_first());
            if a.drop_first() == b.drop_first() {
                assert(a =~= seq![a[0]] + a.drop_first());
                assert(b =~= seq![b[0]] + b.drop_first());
            }
        }
    } else if a.len() == 0 && b.len() == 0 {
        assert(a =~= b);
    }
}

/// Puts a name into a sorted list, unless it is there.
fn add_name(names: &mut Vec<String>, name: &str)
    requires
        strictly_sorted(texts(old(names)@)),
    ensures
        strictly_sorted(texts(final(names)@)),
        forall|n: Seq<char>|
            #[trigger] texts(final(names)@).contains(n) <==> texts(old(names)@).contains(n) || n
                == name@,
{
    let mut at: usize = 0;
    while at < names.len() && less(names[at].as_str(), name)
        invariant
            at <= names.len(),
            forall|k: int| 0 <= k < at ==> lex_less((#[trigger] names@[k])@, name@),
        decreases names.len() - at,
    {
        at = at + 1;
    }
    let ghost before = texts(names@);
    if at < names.len() && same(names[at].as_str(), name) {
        assert(before[at as int] == name@);
        return;
    }
    names.insert(at, name.to_owned());
    proof {
        let after = texts(names@);
        assert(after =~= before.insert(at as int, name@));
        if at < before.len() {
            lemma_lex_total(before[at as int], name@);
        }
        assert forall|i: int, j: int| 0 <= i < j < after.len() implies lex_less(
            #[trigger] after[i],
            #[trigger] after[j],
        ) by {
            if i < at && j == at {
                assert(after[i] == before[i]);
            } else if i < at && j < at {
                assert(after[i] == before[i] && after[j] == before[j]);
            } else if i < at && j > at {
                assert(after[i] == before[i] && after[j] == before[j - 1]);
            } else if i == at {
                assert(after[j] == before[j - 1]);
                if j - 1 > at {
                    assert(lex_less(before[at as int], before[j - 1]));
                    lemma_lex_transitive(name@, before[at as int], before[j - 1]);
                }
            } else {
                assert(after[i] == before[i - 1] && after[j] == before[j - 1]);
            }
        }
        assert forall|n: Seq<char>| #[trigger]
            after.contains(n) <==> before.contains(n) || n == name@ by {
            if after.contains(n) {
                let i = choose|i: int| 0 <= i < after.len() && after[i] == n;
                if i < at {
                    assert(before[i] == n);
                } else if i > at {
                    assert(before[i - 1] == n);
                }
            }
            if before.contains(n) {
                let i = choose|i: int| 0 <= i < before.len() && before[i] == n;
                if i < at {
                    assert(after[i] == n);
                } else {
                    assert(after[i + 1] == n);
                }
            }
            assert(after[at as int] == name@);
        }
    }
}

/// A name has a tab when the viewer opens: some session or some message in the
/// buffer has it.
pub open spec fn has_tab(
    tray: VpnTray,
    sessions: Seq<(String, String)>,
    name: Seq<char>,
) -> bool {
    ||| exists|p: Seq<char>| #[trigger]
        tray@.sessions.contains_key(p) && tray@.sessions[p].config_name == name
    ||| exists|i: int| 0 <= i < sessions.len() && (#[trigger] sessions[i]).1@ == name
}

/// The names of the tabs when the viewer opens, in order.
pub fn tab_names(tray: &VpnTray, sessions: &[(String, String)]) -> (r: Vec<String>)
    ensures
        strictly_sorted(texts(r@)),
        forall|n: Seq<char>|
            #[trigger] texts(r@).contains(n) <==> has_tab(*tray, sessions@, n),
{
    let mut names: Vec<String> = Vec::new();
    let n = tray.sessions.len();
    let ghost pairs = tray.sessions.pairs();
    let mut i: usize = 0;
    assert(texts(names@) =~= Seq::empty());
    while i < n
        invariant
            i <= n,
            n == pairs.len(),
            pairs == tray.sessions.pairs(),
            strictly_sorted(texts(names@)),
            forall|t: Seq<char>|
                #[trigger] texts(names@).contains(t) <==> exists|k: int|
                    0 <= k < i && (#[trigger] pairs[k]).1.config_name@ == t,
        decreases n - i,
    {
        let ghost before = texts(names@);
        let name = tray.sessions.value_at(i).config_name.clone();
        add_name(&mut names, name.as_str());
        assert forall|t: Seq<char>| #[trigger]
            texts(names@).contains(t) <==> exists|k: int|
                0 <= k < i + 1 && (#[trigger] pairs[k]).1.config_name@ == t by {
            if exists|k: int| 0 <= k < i + 1 && (#[trigger] pairs[k]).1.config_name@ == t {
                let k = choose|k: int| 0 <= k < i + 1 && (#[trigger] pairs[k]).1.config_name@ == t;
                if k < i {
                    assert(before.contains(t));
                }
            }
            if before.contains(t) {
                let k = choose|k: int| 0 <= k < i && (#[trigger] pairs[k]).1.config_name@ == t;
                assert(pairs[k].1.config_name@ == t);
            }
            assert(pairs[i as int].1.config_name@ == name@);
        }
        i = i + 1;
    }
    let mut j: usize = 0;
    while j < sessions.len()
        invariant
            j <= sessions.len(),
            n == pairs.len(),
            strictly_sorted(texts(names@)),
            forall|t: Seq<char>|
                #[trigger] texts(names@).contains(t) <==> (exists|k: int|
                    0 <= k < n && (#[trigger] pairs[k]).1.config_name@ == t) || (exists|k: int|
                    0 <= k < j && (#[trigger] sessions@[k]).1@ == t),
        decreases sessions.len() - j,
    {
        let ghost before = texts(names@);
        add_name(&mut names, sessions[j].1.as_str());
        assert forall|t: Seq<char>| #[trigger]
            texts(names@).contains(t) <==> (exists|k: int|
                0 <= k < n && (#[trigger] pairs[k]).1.config_name@ == t) || (exists|k: int|
                0 <= k < j + 1 && (#[trigger] sessions@[k]).1@ == t) by {
            if exists|k: int| 0 <= k < j + 1 && (#[trigger] sessions@[k]).1@ == t {
                let k = choose|k: int| 0 <= k < j + 1 && (#[trigger] sessions@[k]).1@ == t;
                if k < j {
                    assert(before.contains(t));
                }
            }
            if exists|k: int| 0 <= k < n && (#[trigger] pairs[k]).1.config_name@ == t {
                assert(before.contains(t));
            }
            if before.contains(t) && !(exists|k: int|
                0 <= k < n && (#[trigger] pairs[k]).1.config_name@ == t) {
                let k = choose|k: int| 0 <= k < j && (#[trigger] sessions@[k]).1@ == t;
                assert(sessions@[k].1@ == t);
            }
            assert(sessions@[j as int].1@ == sessions@[j as int].1@);
        }
        j = j + 1;
    }
    proof {
        assert forall|t: Seq<char>| #[trigger]
            texts(names@).contains(t) <==> has_tab(*tray, sessions@, t) by {
            if exists|k: int| 0 <= k < n && (#[trigger] pairs[k]).1.config_name@ == t {
                let k = choose|k: int| 0 <= k < n && (#[trigger] pairs[k]).1.config_name@ == t;
                assert(tray@.sessions.contains_key(pairs[k].0));
            }
            if exists|p: Seq<char>| #[trigger]
                tray@.sessions.contains_key(p) && tray@.sessions[p].config_name == t {
                let p = choose|p: Seq<char>| #[trigger]
                    tray@.sessions.contains_key(p) && tray@.sessions[p].config_name == t;
                assert(tray.sessions@.contains_key(p));
                let k = choose|k: int| holds_at(pairs, p, k);
                assert(pairs[k].1.config_name@ == t);
            }
        }
    }
    names
}

/// What an empty tab says at first.
pub open spec fn hint_text(config_name: Seq<char>) -> Seq<char> {
    "Listening for log messages from '"@ + config_name + "'...\n"@
}

/// A tab, with the text that it shows.
pub struct LogTab {
    name: String,
    entries: Vec<LogEntry>,
    search: String,
    level_min: u32,
    hint: bool,
    shown: String,
}

/// A tab as its users see it.
#[verifier::ext_equal]
pub struct TabModel {
    pub name: Seq<char>,
    /// All messages, also those that are not shown.
    pub entries: Seq<LogEntry>,
    pub search: Seq<char>,
    pub level_min: u32,
    /// The text begins with the hint.
    pub hint: bool,
}

impl TabModel {
    /// The messages that pass the filter.
    pub open spec fn visible(self) -> Seq<LogEntry> {
        visible(self.entries, self.search, self.level_min)
    }

    /// The text that the tab shows.
    pub open spec fn shown(self) -> Seq<char> {
        if self.hint {
            hint_text(self.name) + rendered(self.visible())
        } else {
            rendered(self.visible())
        }
    }

    /// A message passes the filter.
    pub open spec fn shows(self, e: LogEntry) -> bool {
        passes(lowercase(self.search), self.level_min)(e)
    }

    /// A tab as it is made, with the messages that are kept for its name.
    pub open spec fn is_new(
        self,
        entries: Seq<LogEntry>,
        sessions: Seq<(String, String)>,
        config_name: Seq<char>,
    ) -> bool {
        &&& self.name == config_name
        &&& is_time_sorted(self.entries, gathered(entries, sessions, config_name))
        &&& self.search.len() == 0
        &&& self.level_min == 0
        &&& self.hint == (self.entries.len() == 0)
    }
}

impl View for LogTab {
    type V = TabModel;

    closed spec fn view(&self) -> TabModel {
        TabModel {
            name: self.name@,
            entries: self.entries@,
            search: self.search@,
            level_min: self.level_min,
            hint: self.hint,
        }
    }
}

proof fn lemma_visible_push(entries: Seq<LogEntry>, e: LogEntry, search: Seq<char>, level_min: u32)
    ensures
        visible(entries.push(e), search, level_min) == (if passes(lowercase(search), level_min)(e) {
            visible(entries, search, level_min).push(e)
        } else {
            visible(entries, search, level_min)
        }),
        rendered(visible(entries.push(e), search, level_min)) == rendered(
            visible(entries, search, level_min),
        ) + (if passes(lowercase(search), level_min)(e) {
            entry_line(e)
        } else {
            Seq::empty()
        }),
{
    reveal(Seq::filter);
    let before = visible(entries, search, level_min);
    assert(entries.push(e).drop_last() =~= entries);
    assert(before.push(e).drop_last() =~= before);
    assert(rendered(before) + Seq::empty() =~= rendered(before));
}

impl LogTab {
    #[verifier::type_invariant]
    spec fn text_fits(self) -> bool {
        self.shown@ == self@.shown()
    }

    /// A tab with the messages that are kept for its name. While there are
    /// none, it says that it is listening.
    pub fn create_tab_for_config(
        buffer: &LogBuffer,
        sessions: &[(String, String)],
        config_name: &str,
    ) -> (r: Self)
        ensures
            r@.is_new(buffer@, sessions@, config_name@),
    {
        let entries = history(buffer, sessions, config_name);
        let search = String::new();
        assert(search@ =~= Seq::empty());
        let hint = entries.len() == 0;
        let shown = if hint {
            let mut text = "Listening for log messages from '".to_owned();
            text.append(config_name);
            text.append("'...\n");
            proof {
                reveal(Seq::filter);
                assert(visible(entries@, search@, 0) =~= Seq::empty());
                assert(text@ =~= hint_text(config_name@) + rendered(
                    visible(entries@, search@, 0),
                ));
            }
            text
        } else {
            rebuild_buffer(entries.as_slice(), search.as_str(), 0)
        };
        LogTab { name: config_name.to_owned(), entries, search, level_min: 0, hint, shown }
    }

    /// The text that the tab shows.
    pub fn text(&self) -> (r: &str)
        ensures
            r@ == self@.shown(),
    {
        proof {
            use_type_invariant(self);
        }
        self.shown.as_str()
    }

    fn take(&mut self) -> (r: LogTab)
        ensures
            r == *old(self),
    {
        let mut tab = LogTab {
            name: String::new(),
            entries: Vec::new(),
            search: String::new(),
            level_min: 0,
            hint: false,
            shown: {
                let text = String::new();
                proof {
                    reveal(Seq::filter);
                    let none = Seq::<LogEntry>::empty();
                    assert(visible(none, Seq::empty(), 0) =~= none);
                    assert(text@ =~= rendered(visible(none, Seq::empty(), 0)));
                }
                text
            },
        };
        std::mem::swap(self, &mut tab);
        tab
    }

    fn refilter(&mut self, search: String, level_min: u32)
        ensures
            final(self)@ == (TabModel { search: search@, level_min, hint: false, ..old(self)@ }),
    {
        let tab = self.take();
        let shown = rebuild_buffer(tab.entries.as_slice(), search.as_str(), level_min);
        *self =
        LogTab { name: tab.name, entries: tab.entries, search, level_min, hint: false, shown };
    }

    /// Takes a new search term: the text is made anew.
    pub fn set_search(&mut self, search: &str)
        ensures
            final(self)@ == (TabModel { search: search@, hint: false, ..old(self)@ }),
    {
        let level_min = self.level_min;
        self.refilter(search.to_owned(), level_min);
    }

    /// Takes a new choice of level: the text is made anew.
    pub fn set_level(&mut self, idx: u32)
        ensures
            final(self)@ == (TabModel { level_min: level_min_of(idx), hint: false, ..old(self)@ }),
    {
        let search = self.search.clone();
        self.refilter(search, level_index_to_min(idx));
    }

    /// Takes in a message; the result is the line that is added to the text,
    /// if the message passes the filter.
    pub fn append(&mut self, entry: LogEntry) -> (r: Option<String>)
        ensures
            final(self)@ == (TabModel { entries: old(self)@.entries.push(entry), ..old(self)@ }),
            r is Some == old(self)@.shows(entry),
            r is Some ==> r->0@ == entry_line(entry),
    {
        proof {
            use_type_invariant(&*self);
            lemma_visible_push(self@.entries, entry, self@.search, self@.level_min);
        }
        let query = LoweredQuery::new(self.search.as_str());
        let line = if passes_filter(&entry, &query, self.level_min) {
            Some(format_log_line(&entry.timestamp, entry.category, entry.message.as_str()))
        } else {
            None
        };
        let tab = self.take();
        let mut shown = tab.shown;
        match &line {
            Some(text) => {
                shown.append(text.as_str());
            },
            None => {},
        }
        let mut entries = tab.entries;
        entries.push(entry);
        assert(shown@ =~= (TabModel {
            entries: old(self)@.entries.push(entry),
            ..old(self)@
        }).shown());
        *self =
        LogTab {
            name: tab.name,
            entries,
            search: tab.search,
            level_min: tab.level_min,
            hint: tab.hint,
            shown,
        };
        line
    }

    /// Whether there is something to export.
    pub fn can_export(&self) -> (r: bool)
        ensures
            r == some_passes(self@.entries, lowercase(self@.search), self@.level_min),
    {
        any_passes_filter(self.entries.as_slice(), self.search.as_str(), self.level_min)
    }

    /// The text of an export at the time `stamp`: a header, a line for each
    /// message that is shown, and a footer.
    pub fn export_text(&self, stamp: &str) -> (r: String)
        ensures
            r@ == export_header(self@.name, stamp@) + rendered(self@.visible()) + export_footer(
                self@.visible().len(),
            ),
    {
        let shown = self.visible();
        format_export(shown.as_slice(), self.name.as_str(), stamp)
    }

    /// The messages to export: those that are shown.
    pub fn visible(&self) -> (r: Vec<LogEntry>)
        ensures
            r@ == self@.visible(),
    {
        visible_entries(self.entries.as_slice(), self.search.as_str(), self.level_min)
    }
}

/// Where messages go: by the path of their session, the name of the tab.
pub open spec fn routes_of(m: Map<Seq<char>, String>) -> Map<Seq<char>, Seq<char>> {
    m.map_values(|n: String| n@)
}

/// The routes when the viewer opens: the names of the sessions, and over them
/// those of the buffer.
pub open spec fn first_routes(tray: VpnTray, sessions: Seq<(String, String)>) -> Map<
    Seq<char>,
    Seq<char>,
>
    decreases sessions.len(),
{
    if sessions.len() == 0 {
        Map::new(
            |p: Seq<char>| tray@.sessions.contains_key(p),
            |p: Seq<char>| tray@.sessions[p].config_name,
        )
    } else {
        first_routes(tray, sessions.drop_last()).insert(sessions.last().0@, sessions.last().1@)
    }
}

/// The viewer.
pub struct LogViewer {
    pub tabs: StringMap<LogTab>,
    /// The tab that the messages of a session go to, by the session's path.
    pub routes: StringMap<String>,
    /// The viewer shows that there are no sessions.
    pub placeholder: bool,
}

/// The viewer as it opens, with a tab for each of `names`.
pub open spec fn is_opened(
    v: LogViewer,
    names: Seq<Seq<char>>,
    tray: VpnTray,
    entries: Seq<LogEntry>,
    sessions: Seq<(String, String)>,
) -> bool {
    &&& forall|n: Seq<char>| #[trigger] v.tabs@.contains_key(n) <==> names.contains(n)
    &&& forall|n: Seq<char>| #[trigger]
        v.tabs@.contains_key(n) ==> v.tabs@[n]@.is_new(entries, sessions, n)
    &&& routes_of(v.routes@) == first_routes(tray, sessions)
    &&& v.placeholder == (names.len() == 0)
}

fn open_routes(tray: &VpnTray, sessions: &[(String, String)]) -> (r: StringMap<String>)
    ensures
        routes_of(r@) == first_routes(*tray, sessions@),
{
    let mut routes: StringMap<String> = StringMap::new();
    let n = tray.sessions.len();
    let ghost pairs = tray.sessions.pairs();
    let mut i: usize = 0;
    while i < n
        invariant
            i <= n,
            n == pairs.len(),
            pairs == tray.sessions.pairs(),
            linked(pairs, tray.sessions@),
            forall|p: Seq<char>|
                #[trigger] routes@.contains_key(p) <==> exists|k: int|
                    k < i && holds_at(pairs, p, k),
            forall|k: int|
                0 <= k < i ==> routes@.contains_key((#[trigger] pairs[k]).0)
                    && routes@[pairs[k].0]@ == pairs[k].1.config_name@,
        decreases n - i,
    {
        let ghost before = routes@;
        let key = tray.sessions.key_at(i).to_owned();
        routes.insert(key, tray.sessions.value_at(i).config_name.clone());
        assert forall|p: Seq<char>| #[trigger]
            routes@.contains_key(p) <==> exists|k: int| k < i + 1 && holds_at(pairs, p, k) by {
            if before.contains_key(p) {
                let k = choose|k: int| k < i && holds_at(pairs, p, k);
                assert(k < i + 1 && holds_at(pairs, p, k));
            }
            assert(holds_at(pairs, key@, i as int));
            if exists|k: int| k < i + 1 && holds_at(pairs, p, k) {
                let k = choose|k: int| k < i + 1 && holds_at(pairs, p, k);
                if k < i {
                    assert(before.contains_key(p));
                }
            }
        }
        i = i + 1;
    }
    proof {
        let want = first_routes(*tray, Seq::empty());
        assert forall|p: Seq<char>| #[trigger]
            routes_of(routes@).contains_key(p) == want.contains_key(p) by {
            if want.contains_key(p) {
                assert(tray.sessions@.contains_key(p));
                let k = choose|k: int| holds_at(pairs, p, k);
                assert(k < i && holds_at(pairs, p, k));
                assert(routes@.contains_key(p));
            }
            if routes@.contains_key(p) {
                let k = choose|k: int| k < i && holds_at(pairs, p, k);
                assert(tray.sessions@.contains_key(pairs[k].0));
            }
        }
        assert forall|p: Seq<char>| routes_of(routes@).contains_key(p) implies routes_of(
            routes@,
        )[p] == want[p] by {
            let k = choose|k: int| k < i && holds_at(pairs, p, k);
            assert(routes@[pairs[k].0]@ == pairs[k].1.config_name@);
            assert(tray.sessions@[pairs[k].0] == pairs[k].1);
        }
        assert(routes_of(routes@) =~= want);
    }
    let mut j: usize = 0;
    assert(sessions@.take(0) =~= Seq::empty());
    while j < sessions.len()
        invariant
            j <= sessions.len(),
            routes_of(routes@) == first_routes(*tray, sessions@.take(j as int)),
        decreases sessions.len() - j,
    {
        assert(sessions@.take(j as int + 1).drop_last() =~= sessions@.take(j as int));
        let ghost before = routes@;
        routes.insert(sessions[j].0.clone(), sessions[j].1.clone());
        assert(routes_of(routes@) =~= routes_of(before).insert(
            sessions@[j as int].0@,
            sessions@[j as int].1@,
        ));
        j = j + 1;
    }
    assert(sessions@.take(j as int) =~= sessions@);
    routes
}

/// What has changed in the viewer.
#[derive(Debug)]
pub struct ViewerUpdate {
    /// The tab that the message went to.
    pub name: String,
    /// The tab is new.
    pub new_tab: bool,
    /// The page that says that there are no sessions goes.
    pub drop_placeholder: bool,
    /// The line that is added to the tab's text.
    pub line: Option<String>,
}

/// A message that has just come, under the name that it was routed to.
pub open spec fn is_message(
    e: LogEntry,
    path: Seq<char>,
    name: Seq<char>,
    timestamp: ClockTime,
    category: u32,
    message: Seq<char>,
) -> bool {
    &&& e.timestamp == timestamp
    &&& e.session_path@ == path
    &&& e.config_name@ == name
    &&& e.category == category
    &&& e.message@ == message
}

/// The name of the tab that the messages of the session at `path` go to.
pub open spec fn route_name(
    routes: Map<Seq<char>, Seq<char>>,
    tray: VpnTray,
    path: Seq<char>,
) -> Seq<char> {
    if routes.contains_key(path) {
        routes[path]
    } else {
        log_name(tray@.sessions, path)
    }
}

impl LogViewer {
    /// Opens the viewer: a tab for each name that a session or a message in the
    /// buffer has. The names are returned in the order of the tabs.
    pub fn build_log_viewer(
        tray: &VpnTray,
        buffer: &LogBuffer,
        sessions: &[(String, String)],
    ) -> (r: (LogViewer, Vec<String>))
        ensures
            strictly_sorted(texts(r.1@)),
            forall|n: Seq<char>|
                #[trigger] texts(r.1@).contains(n) <==> has_tab(*tray, sessions@, n),
            is_opened(r.0, texts(r.1@), *tray, buffer@, sessions@),
    {
        let names = tab_names(tray, sessions);
        let mut tabs: StringMap<LogTab> = StringMap::new();
        let mut i: usize = 0;
        while i < names.len()
            invariant
                i <= names.len(),
                forall|n: Seq<char>|
                    #[trigger] tabs@.contains_key(n) <==> exists|k: int|
                        0 <= k < i && (#[trigger] names@[k])@ == n,
                forall|n: Seq<char>| #[trigger]
                    tabs@.contains_key(n) ==> tabs@[n]@.is_new(buffer@, sessions@, n),
            decreases names.len() - i,
        {
            let ghost before = tabs@;
            let tab = LogTab::create_tab_for_config(buffer, sessions, names[i].as_str());
            tabs.insert(names[i].clone(), tab);
            assert forall|n: Seq<char>| #[trigger]
                tabs@.contains_key(n) <==> exists|k: int|
                    0 <= k < i + 1 && (#[trigger] names@[k])@ == n by {
                if before.contains_key(n) {
                    let k = choose|k: int| 0 <= k < i && (#[trigger] names@[k])@ == n;
                    assert(names@[k]@ == n);
                }
                if exists|k: int| 0 <= k < i + 1 && (#[trigger] names@[k])@ == n {
                    let k = choose|k: int| 0 <= k < i + 1 && (#[trigger] names@[k])@ == n;
                    if k < i {
                        assert(before.contains_key(n));
                    }
                }
                assert(names@[i as int]@ == names@[i as int]@);
            }
            i = i + 1;
        }
        proof {
            let list = texts(names@);
            assert forall|n: Seq<char>| #[trigger]
                tabs@.contains_key(n) <==> list.contains(n) by {
                if tabs@.contains_key(n) {
                    let k = choose|k: int| 0 <= k < names@.len() && (#[trigger] names@[k])@ == n;
                    assert(list[k] == n);
                }
                if list.contains(n) {
                    let k = choose|k: int| 0 <= k < list.len() && list[k] == n;
                    assert(names@[k]@ == n);
                }
            }
        }
        let routes = open_routes(tray, sessions);
        let placeholder = names.len() == 0;
        (LogViewer { tabs, routes, placeholder }, names)
    }

    fn route(&mut self, tray: &VpnTray, path: &str) -> (r: String)
        ensures
            r@ == route_name(routes_of(old(self).routes@), *tray, path@),
            routes_of(final(self).routes@) == routes_of(old(self).routes@).insert(path@, r@),
            final(self).tabs == old(self).tabs,
            final(self).placeholder == old(self).placeholder,
    {
        match self.routes.get(path) {
            Some(name) => {
                let r = name.clone();
                assert(routes_of(self.routes@) =~= routes_of(self.routes@).insert(path@, r@));
                r
            },
            None => {
                let r = name_for_logs(tray, path);
                self.routes.insert(path.to_owned(), r.clone());
                assert(routes_of(self.routes@) =~= routes_of(old(self).routes@).insert(
                    path@,
                    r@,
                ));
                r
            },
        }
    }

    /// Takes in a message as it comes: it goes to the tab of its session, which
    /// is made if there is none yet.
    pub fn take_message(
        &mut self,
        tray: &VpnTray,
        buffer: &LogBuffer,
        sessions: &[(String, String)],
        path: &str,
        timestamp: ClockTime,
        category: u32,
        message: &str,
    ) -> (r: ViewerUpdate)
        ensures
            r.name@ == route_name(routes_of(old(self).routes@), *tray, path@),
            r.new_tab == !old(self).tabs@.contains_key(r.name@),
            r.drop_placeholder == (r.new_tab && old(self).placeholder),
            final(self).placeholder == (old(self).placeholder && !r.new_tab),
            routes_of(final(self).routes@) == routes_of(old(self).routes@).insert(path@, r.name@),
            final(self).tabs@.dom() == old(self).tabs@.dom().insert(r.name@),
            forall|n: Seq<char>|
                n != r.name@ && #[trigger] old(self).tabs@.contains_key(n) ==> final(self).tabs@[n]
                    == old(self).tabs@[n],
            ({
                let tab = final(self).tabs@[r.name@]@;
                let before = TabModel { entries: tab.entries.drop_last(), ..tab };
                let e = tab.entries.last();
                &&& tab.entries.len() > 0
                &&& is_message(e, path@, r.name@, timestamp, category, message@)
                &&& if r.new_tab {
                    before.is_new(buffer@, sessions@, r.name@)
                } else {
                    before == old(self).tabs@[r.name@]@
                }
                &&& r.line is Some == tab.shows(e)
                &&& r.line is Some ==> r.line->0@ == entry_line(e)
            }),
    {
        let name = self.route(tray, path);
        let mut new_tab = false;
        let mut drop_placeholder = false;
        let taken = self.tabs.remove(name.as_str());
        let mut tab = match taken {
            Some(t) => t,
            None => {
                new_tab = true;
                drop_placeholder = self.placeholder;
                self.placeholder = false;
                LogTab::create_tab_for_config(buffer, sessions, name.as_str())
            },
        };
        let ghost first = tab@;
        let entry = LogEntry {
            timestamp,
            session_path: path.to_owned(),
            config_name: name.clone(),
            category,
            message: message.to_owned(),
        };
        let line = tab.append(entry);
        assert(tab@.entries.drop_last() =~= first.entries);
        assert((TabModel { entries: tab@.entries.drop_last(), ..tab@ }) == first);
        self.tabs.insert(name.clone(), tab);
        assert(self.tabs@.dom() =~= old(self).tabs@.dom().insert(name@));
        ViewerUpdate { name, new_tab, drop_placeholder, line }
    }
}

/// A tab always shows exactly the messages that pass its filter, one line
/// each, whether they were there when the filter was set or came later.
pub proof fn law_tab_shows_what_passes(tab: TabModel, e: LogEntry, search: Seq<char>, idx: u32)
    ensures
        ({
            let longer = TabModel { entries: tab.entries.push(e), ..tab };
            let refiltered = TabModel {
                search,
                level_min: level_min_of(idx),
                hint: false,
                ..longer
            };
            &&& longer.shown() == tab.shown() + (if tab.shows(e) {
                entry_line(e)
            } else {
                Seq::empty()
            })
            &&& refiltered.shown() == rendered(refiltered.visible())
        }),
{
    lemma_visible_push(tab.entries, e, tab.search, tab.level_min);
    let longer = TabModel { entries: tab.entries.push(e), ..tab };
    assert(longer.shown() =~= tab.shown() + (if tab.shows(e) {
        entry_line(e)
    } else {
        Seq::empty()
    }));
}

/// Remembers the size of the viewer's window when it closes, if it has one.
pub fn remember_window_size(settings: &mut Settings, width: i32, height: i32)
    ensures
        width <= 0 || height <= 0 ==> *final(settings) == *old(settings),
        width > 0 && height > 0 && old(settings).store is None ==> final(settings).store is None,
        width > 0 && height > 0 && old(settings).store is Some ==> final(settings).store == Some(
            SettingsValues {
                logs_window_width: clamped(width as int, 400, 4000) as i32,
                logs_window_height: clamped(height as int, 300, 3000) as i32,
                ..old(settings).store->0
            },
        ),
{
    if width > 0 && height > 0 {
        settings.set_logs_window_width(width);
        settings.set_logs_window_height(height);
    }
}

/// A tab gathers just the messages whose session goes under its name.
pub proof fn law_tab_gathers_its_messages(
    entries: Seq<LogEntry>,
    sessions: Seq<(String, String)>,
    config_name: Seq<char>,
    e: LogEntry,
)
    ensures
        gathered(entries, sessions, config_name).contains(e) <==> entries.contains(e) && exists|
            i: int,
        |
            0 <= i < sessions.len() && (#[trigger] sessions[i]).1@ == config_name && sessions[i].0@
                == e.session_path@,
    decreases sessions.len(),
{
    let all = gathered(entries, sessions, config_name);
    if sessions.len() > 0 {
        let rest = sessions.drop_last();
        let last = sessions.last();
        let before = gathered(entries, rest, config_name);
        law_tab_gathers_its_messages(entries, rest, config_name, e);
        assert(sessions[sessions.len() - 1] == last);
        assert forall|i: int| 0 <= i < rest.len() implies #[trigger] rest[i] == sessions[i] by {
        }
        if exists|i: int|
            0 <= i < rest.len() && (#[trigger] rest[i]).1@ == config_name && rest[i].0@
                == e.session_path@ {
            let i = choose|i: int|
                0 <= i < rest.len() && (#[trigger] rest[i]).1@ == config_name && rest[i].0@
                    == e.session_path@;
            assert(sessions[i].1@ == config_name);
        }
        if exists|i: int|
            0 <= i < sessions.len() && (#[trigger] sessions[i]).1@ == config_name && sessions[i].0@
                == e.session_path@ {
            let i = choose|i: int|
                0 <= i < sessions.len() && (#[trigger] sessions[i]).1@ == config_name
                    && sessions[i].0@ == e.session_path@;
            if i < rest.len() {
                assert(rest[i].1@ == config_name);
            }
        }
        if last.1@ == config_name {
            let more = entries.filter(from_session(last.0@));
            lemma_filter_contains(entries, from_session(last.0@), e);
            assert(all == before + more);
            if before.contains(e) {
                let k = choose|k: int| 0 <= k < before.len() && before[k] == e;
                assert(all[k] == e);
            }
            if more.contains(e) {
                let k = choose|k: int| 0 <= k < more.len() && more[k] == e;
                assert(all[before.len() + k] == e);
            }
            if all.contains(e) {
                let k = choose|k: int| 0 <= k < all.len() && all[k] == e;
                if k < before.len() {
                    assert(before[k] == e);
                } else {
                    assert(more[k - before.len()] == e);
                }
            }
        }
    }
}

proof fn lemma_filter_contains(
    entries: Seq<LogEntry>,
    pred: spec_fn(LogEntry) -> bool,
    e: LogEntry,
)
    ensures
        entries.filter(pred).contains(e) <==> entries.contains(e) && pred(e),
    decreases entries.len(),
{
    reveal(Seq::filter);
    if entries.len() > 0 {
        let rest = entries.drop_last();
        let last = entries.last();
        lemma_filter_contains(rest, pred, e);
        let before = rest.filter(pred);
        let after = entries.filter(pred);
        assert(entries[entries.len() - 1] == last);
        if rest.contains(e) {
            let i = choose|i: int| 0 <= i < rest.len() && rest[i] == e;
            assert(entries[i] == e);
        }
        if entries.contains(e) && e != last {
            let i = choose|i: int| 0 <= i < entries.len() && entries[i] == e;
            assert(rest[i] == e);
        }
        if pred(last) {
            assert(after == before.push(last));
            assert(after[before.len() as int] == last);
            if before.contains(e) {
                let i = choose|i: int| 0 <= i < before.len() && before[i] == e;
                assert(after[i] == e);
            }
            if after.contains(e) && e != last {
                let i = choose|i: int| 0 <= i < after.len() && after[i] == e;
                assert(before[i] == e);
            }
        } else {
            assert(after == before);
        }
    }
}

/// Sorting by time neither loses a message nor makes one up, and puts none
/// before an earlier one.
pub proof fn law_sorting_keeps_the_messages(r: Seq<LogEntry>, s: Seq<LogEntry>, e: LogEntry)
    requires
        is_time_sorted(r, s),
    ensures
        r.contains(e) <==> s.contains(e),
        forall|i: int, j: int|
            0 <= i < j < r.len() ==> {
                let a = (#[trigger] r[i]).timestamp@;
                let b = (#[trigger] r[j]).timestamp@;
                a.0 < b.0 || a.0 == b.0 && a.1 <= b.1
            },
{
    let at = came_at(e.timestamp@);
    lemma_filter_contains(r, at, e);
    lemma_filter_contains(s, at, e);
    assert(r.filter(at) == s.filter(at));
}

/// The messages of a session in the buffer go to the tab of the name that the
/// buffer has for it last.
pub proof fn law_buffer_decides_the_route(
    tray: VpnTray,
    sessions: Seq<(String, String)>,
    i: int,
)
    requires
        0 <= i < sessions.len(),
        forall|j: int| i < j < sessions.len() ==> (#[trigger] sessions[j]).0@ != sessions[i].0@,
    ensures
        first_routes(tray, sessions).contains_key(sessions[i].0@),
        first_routes(tray, sessions)[sessions[i].0@] == sessions[i].1@,
    decreases sessions.len(),
{
    if i < sessions.len() - 1 {
        let rest = sessions.drop_last();
        assert(sessions[sessions.len() - 1].0@ != sessions[i].0@);
        assert forall|j: int| i < j < rest.len() implies (#[trigger] rest[j]).0@ != rest[i].0@ by {
            assert(rest[j] == sessions[j]);
        }
        law_buffer_decides_the_route(tray, rest, i);
    }
}

/// The messages of a session that is not in the buffer go to the tab of its
/// configuration, if the session is known.
pub proof fn law_tray_decides_the_other_routes(
    tray: VpnTray,
    sessions: Seq<(String, String)>,
    path: Seq<char>,
)
    requires
        forall|j: int| 0 <= j < sessions.len() ==> (#[trigger] sessions[j]).0@ != path,
    ensures
        first_routes(tray, sessions).contains_key(path) <==> tray@.sessions.contains_key(path),
        tray@.sessions.contains_key(path) ==> first_routes(tray, sessions)[path]
            == tray@.sessions[path].config_name,
    decreases sessions.len(),
{
    if sessions.len() > 0 {
        let rest = sessions.drop_last();
        assert(sessions[sessions.len() - 1].0@ != path);
        assert forall|j: int| 0 <= j < rest.len() implies (#[trigger] rest[j]).0@ != path by {
            assert(rest[j] == sessions[j]);
        }
        law_tray_decides_the_other_routes(tray, rest, path);
    }
}

/// A message follows the route of its session; without one it goes under the
/// session's name as it is now.
pub proof fn law_route_goes_before_the_name(
    routes: Map<Seq<char>, Seq<char>>,
    tray: VpnTray,
    path: Seq<char>,
)
    ensures
        routes.contains_key(path) ==> route_name(routes, tray, path) == routes[path],
        !routes.contains_key(path) && tray@.sessions.contains_key(path) ==> route_name(
            routes,
            tray,
            path,
        ) == tray@.sessions[path].config_name,
        !routes.contains_key(path) && !tray@.sessions.contains_key(path) ==> route_name(
            routes,
            tray,
            path,
        ) == "VPN"@,
{
}

/// A tab shows a line for each message that passes, in order, behind the hint
/// where that still stands.
pub proof fn law_filter_decides_what_is_shown(tab: TabModel, e: LogEntry)
    ensures
        tab.shows(e) <==> e.category >= tab.level_min && (lowercase(tab.search).len() == 0
            || has_substring(lowercase(e.message@), lowercase(tab.search))),
        tab.visible().contains(e) <==> tab.entries.contains(e) && tab.shows(e),
        !tab.hint ==> tab.shown() == rendered(tab.visible()),
        tab.hint ==> starts_with_spec(tab.shown(), hint_text(tab.name)) && tab.shown().skip(
            hint_text(tab.name).len() as int,
        ) == rendered(tab.visible()),
        has_substring(hint_text(tab.name), tab.name),
{
    lemma_filter_contains(tab.entries, passes(lowercase(tab.search), tab.level_min), e);
    law_text_starts_with_its_front(hint_text(tab.name), rendered(tab.visible()));
    law_part_occurs_in_the_whole("Listening for log messages from '"@, tab.name, "'...\n"@);
}

/// A message that comes adds its line at the end of what a tab shows, if it
/// passes, and leaves the text alone if it does not.
pub proof fn law_message_adds_its_line(tab: TabModel, e: LogEntry)
    ensures
        ({
            let after = TabModel { entries: tab.entries.push(e), ..tab };
            &&& tab.shows(e) ==> after.shown() == tab.shown() + entry_line(e)
            &&& !tab.shows(e) ==> after.shown() == tab.shown()
        }),
{
    lemma_visible_push(tab.entries, e, tab.search, tab.level_min);
    let after = TabModel { entries: tab.entries.push(e), ..tab };
    if tab.shows(e) {
        assert(after.shown() =~= tab.shown() + entry_line(e));
    } else {
        assert(after.shown() =~= tab.shown());
    }
}

/// A new tab filters nothing, has the messages of its sessions, and says that
/// it listens just when there are none.
pub proof fn law_new_tab(
    tab: TabModel,
    entries: Seq<LogEntry>,
    sessions: Seq<(String, String)>,
    name: Seq<char>,
    e: LogEntry,
)
    requires
        tab.is_new(entries, sessions, name),
    ensures
        tab.name == name,
        tab.search.len() == 0,
        tab.level_min == 0,
        tab.hint <==> tab.entries.len() == 0,
        tab.entries.contains(e) <==> entries.contains(e) && exists|i: int|
            0 <= i < sessions.len() && (#[trigger] sessions[i]).1@ == name && sessions[i].0@
                == e.session_path@,
{
    law_tab_gathers_its_messages(entries, sessions, name, e);
    law_sorting_keeps_the_messages(tab.entries, gathered(entries, sessions, name), e);
}

/// A name has a tab as soon as one session or one message has it.
pub proof fn law_every_name_has_a_tab(
    tray: VpnTray,
    sessions: Seq<(String, String)>,
    p: Seq<char>,
    i: int,
)
    ensures
        tray@.sessions.contains_key(p) ==> has_tab(tray, sessions, tray@.sessions[p].config_name),
        0 <= i < sessions.len() ==> has_tab(tray, sessions, sessions[i].1@),
{
}

/// The tabs stand in the order of their names, and no name twice.
pub proof fn law_tabs_in_order(names: Seq<Seq<char>>, i: int, j: int)
    requires
        strictly_sorted(names),
        0 <= i < j < names.len(),
    ensures
        lex_less(names[i], names[j]),
        names[i] != names[j],
{
    law_text_order_is_total(names[i], names[j], names[j]);
}

/// A message that comes keeps its time, session, category and text, and goes
/// under the name that it was routed to.
pub proof fn law_message_is_kept_whole(
    e: LogEntry,
    path: Seq<char>,
    name: Seq<char>,
    timestamp: ClockTime,
    category: u32,
    message: Seq<char>,
)
    requires
        is_message(e, path, name, timestamp, category, message),
    ensures
        entry_line(e) == line_text(timestamp@, category, message),
        e.session_path@ == path && e.config_name@ == name,
        from_session(path)(e),
{
}

/// The viewer opens with one tab for each name, and says that there are no
/// sessions just when there is no name.
pub proof fn law_viewer_opens_with_its_tabs(
    v: LogViewer,
    names: Seq<Seq<char>>,
    tray: VpnTray,
    entries: Seq<LogEntry>,
    sessions: Seq<(String, String)>,
    n: Seq<char>,
)
    requires
        is_opened(v, names, tray, entries, sessions),
    ensures
        v.tabs@.contains_key(n) <==> names.contains(n),
        v.placeholder <==> names.len() == 0,
        names.contains(n) ==> v.tabs@[n]@.name == n,
        forall|p: Seq<char>|
            #[trigger] v.routes@.contains_key(p) ==> v.routes@[p]@ == first_routes(
                tray,
                sessions,
            )[p],
{
    assert forall|p: Seq<char>| #[trigger] v.routes@.contains_key(p) implies v.routes@[p]@
        == first_routes(tray, sessions)[p] by {
        assert(routes_of(v.routes@)[p] == v.routes@[p]@);
    }
    if names.contains(n) {
        assert(v.tabs@.contains_key(n));
    }
}

/// A name that neither a session nor a message has, has no tab.
pub proof fn law_no_tab_without_a_session(
    tray: VpnTray,
    sessions: Seq<(String, String)>,
    name: Seq<char>,
)
    requires
        forall|p: Seq<char>| #[trigger]
            tray@.sessions.contains_key(p) ==> tray@.sessions[p].config_name != name,
        forall|i: int| 0 <= i < sessions.len() ==> (#[trigger] sessions[i]).1@ != name,
    ensures
        !has_tab(tray, sessions, name),
{
}

} // verus!
