//! What a line of the log looks like, which lines are shown, and how an export
//! is named.
use vstd::prelude::*;
use vstd::string::*;

use crate::log_buffer::{is_time_of_day, ClockTime, LogEntry};
use crate::text::{
    chars_of, contains, decimal, decimal_text, digit_char, digits_value, has_substring,
    law_part_occurs_in_the_whole, lowercase, occurs_at, starts_with_spec, to_lowercase,
};

verus! {

pub open spec fn category_label(category: u32) -> Seq<char> {
    match category {
        1 => "DEBUG"@,
        2 => "VERB2"@,
        3 => "VERB1"@,
        4 => "INFO"@,
        5 => "WARN"@,
        6 => "ERROR"@,
        7 => "CRIT"@,
        8 => "FATAL"@,
        _ => "LOG"@,
    }
}

/// The label of a category.
pub fn log_category_label(category: u32) -> (r: &'static str)
    ensures
        r@ == category_label(category),
{
    match category {
        1 => "DEBUG",
        2 => "VERB2",
        3 => "VERB1",
        4 => "INFO",
        5 => "WARN",
        6 => "ERROR",
        7 => "CRIT",
        8 => "FATAL",
        _ => "LOG",
    }
}

/// Hours, minutes and seconds, each with two digits.
pub const TIME_FORMAT: &'static str = "%H:%M:%S";

pub open spec fn two_digits(n: nat) -> Seq<char> {
    seq![digit_char(n / 10), digit_char(n % 10)]
}

/// A time of day as hours, minutes and seconds. A leap second is second 60.
pub open spec fn time_text(t: (u32, u32)) -> Seq<char> {
    two_digits((t.0 / 3600) as nat) + seq![':'] + two_digits((t.0 / 60 % 60) as nat) + seq![':']
        + two_digits((t.0 % 60 + t.1 / 1_000_000_000) as nat)
}

/// `NaiveTime::format` of the `chrono` crate, on the time that
/// `NaiveTime::from_num_seconds_from_midnight_opt` makes of the two numbers:
/// none if they are no time of day, else its hours, minutes and seconds with
/// two digits each, where a leap second is rendered as 60. Nothing is claimed
/// of other formats.
#[verifier::external_body]
fn format_time(secs: u32, nanos: u32, fmt: &str) -> (r: Option<String>)
    requires
        fmt@ == TIME_FORMAT@,
    ensures
        r is Some == is_time_of_day(secs, nanos),
        r is Some ==> r->0@ == time_text((secs, nanos)),
{
    let time = chrono::NaiveTime::from_num_seconds_from_midnight_opt(secs, nanos);
    time.map(|t| t.format(fmt).to_string())
}

pub open spec fn line_text(timestamp: (u32, u32), category: u32, message: Seq<char>) -> Seq<char> {
    time_text(timestamp) + " ["@ + category_label(category) + "] "@ + message + "\n"@
}

/// A line of the log: time, category and message.
pub fn format_log_line(timestamp: &ClockTime, category: u32, message: &str) -> (r: String)
    ensures
        r@ == line_text(timestamp@, category, message@),
{
    let (secs, nanos) = timestamp.parts();
    let mut line = match format_time(secs, nanos, TIME_FORMAT) {
        Some(t) => t,
        None => String::new(),
    };
    line.append(" [");
    line.append(log_category_label(category));
    line.append("] ");
    line.append(message);
    line.append("\n");
    line
}

/// A search term in lower case.
#[derive(Debug)]
pub struct LoweredQuery(String);

impl View for LoweredQuery {
    type V = Seq<char>;

    closed spec fn view(&self) -> Seq<char> {
        self.0@
    }
}

impl LoweredQuery {
    /// The lower-case form of a search term.
    pub fn new(search: &str) -> (r: Self)
        ensures
            r@ == lowercase(search@),
            search@.len() == 0 ==> r@.len() == 0,
    {
        LoweredQuery(to_lowercase(search))
    }

    /// Whether there is nothing to search for.
    pub fn is_empty(&self) -> (r: bool)
        ensures
            r == (self@.len() == 0),
    {
        self.0.as_str().is_empty()
    }

    pub fn as_str(&self) -> (r: &str)
        ensures
            r@ == self@,
    {
        self.0.as_str()
    }
}

/// A message with this category and this text, in lower case, is shown: it is
/// grave enough and contains the search term.
pub open spec fn lowered_passes(
    category: u32,
    lowered: Seq<char>,
    query: Seq<char>,
    level_min: u32,
) -> bool {
    category >= level_min && (query.len() == 0 || has_substring(lowered, query))
}

/// Whether a message with this category and this text, in lower case, is shown.
pub fn passes_lowered(category: u32, lowered: &str, query: &LoweredQuery, level_min: u32) -> (r:
    bool)
    ensures
        r == lowered_passes(category, lowered@, query@, level_min),
{
    if category < level_min {
        return false;
    }
    query.is_empty() || contains(lowered, query.as_str())
}

/// The message passes the filter.
pub open spec fn passes(query: Seq<char>, level_min: u32) -> spec_fn(LogEntry) -> bool {
    |e: LogEntry| lowered_passes(e.category, lowercase(e.message@), query, level_min)
}

/// Whether a message is shown.
pub fn passes_filter(entry: &LogEntry, query: &LoweredQuery, level_min: u32) -> (r: bool)
    ensures
        r == passes(query@, level_min)(*entry),
{
    let lowered = to_lowercase(entry.message.as_str());
    passes_lowered(entry.category, lowered.as_str(), query, level_min)
}

/// Some message passes the filter.
pub open spec fn some_passes(entries: Seq<LogEntry>, query: Seq<char>, level_min: u32) -> bool {
    exists|i: int| 0 <= i < entries.len() && passes(query, level_min)(#[trigger] entries[i])
}

/// Whether some message is shown.
pub fn any_passes_filter(entries: &[LogEntry], search: &str, level_min: u32) -> (r: bool)
    ensures
        r == some_passes(entries@, lowercase(search@), level_min),
{
    let query = LoweredQuery::new(search);
    let mut i: usize = 0;
    while i < entries.len()
        invariant
            i <= entries.len(),
            query@ == lowercase(search@),
            forall|j: int| 0 <= j < i ==> !passes(query@, level_min)(#[trigger] entries@[j]),
        decreases entries.len() - i,
    {
        if passes_filter(&entries[i], &query, level_min) {
            return true;
        }
        i = i + 1;
    }
    false
}

/// The messages that are shown, in order.
pub open spec fn visible(entries: Seq<LogEntry>, search: Seq<char>, level_min: u32) -> Seq<
    LogEntry,
> {
    entries.filter(passes(lowercase(search), level_min))
}

/// The messages that are shown, in order.
pub fn visible_entries(entries: &[LogEntry], search: &str, level_min: u32) -> (r: Vec<LogEntry>)
    ensures
        r@ == visible(entries@, search@, level_min),
{
    let query = LoweredQuery::new(search);
    let mut out: Vec<LogEntry> = Vec::new();
    let mut i: usize = 0;
    let ghost pred = passes(query@, level_min);
    proof {
        reveal(Seq::filter);
        assert(entries@.take(0).filter(pred) =~= Seq::empty());
    }
    while i < entries.len()
        invariant
            i <= entries.len(),
            pred == passes(query@, level_min),
            out@ == entries@.take(i as int).filter(pred),
        decreases entries.len() - i,
    {
        proof {
            reveal(Seq::filter);
            assert(entries@.take(i as int + 1).drop_last() =~= entries@.take(i as int));
        }
        if passes_filter(&entries[i], &query, level_min) {
            out.push(entries[i].clone());
        }
        i = i + 1;
    }
    assert(entries@.take(i as int) =~= entries@);
    out
}

pub open spec fn entry_line(e: LogEntry) -> Seq<char> {
    line_text(e.timestamp@, e.category, e.message@)
}

/// The lines of messages, one after the other.
pub open spec fn rendered(entries: Seq<LogEntry>) -> Seq<char>
    decreases entries.len(),
{
    if entries.len() == 0 {
        Seq::empty()
    } else {
        rendered(entries.drop_last()) + entry_line(entries.last())
    }
}

fn render(shown: &[LogEntry]) -> (r: String)
    ensures
        r@ == rendered(shown@),
{
    let mut text = String::new();
    let mut i: usize = 0;
    assert(shown@.take(0) =~= Seq::empty());
    assert(text@ =~= Seq::empty());
    while i < shown.len()
        invariant
            i <= shown.len(),
            text@ == rendered(shown@.take(i as int)),
        decreases shown.len() - i,
    {
        assert(shown@.take(i as int + 1).drop_last() =~= shown@.take(i as int));
        let e = &shown[i];
        text.append(format_log_line(&e.timestamp, e.category, e.message.as_str()).as_str());
        i = i + 1;
    }
    assert(shown@.take(i as int) =~= shown@);
    text
}

/// The text that shows the messages that pass the filter.
pub fn rebuild_buffer(entries: &[LogEntry], search: &str, level_min: u32) -> (r: String)
    ensures
        r@ == rendered(visible(entries@, search@, level_min)),
{
    let shown = visible_entries(entries, search, level_min);
    render(shown.as_slice())
}

/// What an export begins with: whose log it is, and when it was exported.
pub open spec fn export_header(config_name: Seq<char>, stamp: Seq<char>) -> Seq<char> {
    "# OpenVPN3 GUI log of '"@ + config_name + "', exported "@ + stamp + "\n"@
}

/// What an export ends with: how many messages it holds.
pub open spec fn export_footer(count: nat) -> Seq<char> {
    "# Messages: "@ + decimal(count) + "\n"@
}

/// The text of an export: a header, a line for each message, and a footer.
/// `stamp` is the time of the export.
pub fn format_export(entries: &[LogEntry], config_name: &str, stamp: &str) -> (r: String)
    ensures
        r@ == export_header(config_name@, stamp@) + rendered(entries@) + export_footer(
            entries@.len(),
        ),
{
    let mut text = "# OpenVPN3 GUI log of '".to_owned();
    text.append(config_name);
    text.append("', exported ");
    text.append(stamp);
    text.append("\n");
    text.append(render(entries).as_str());
    let ghost before = text@;
    text.append("# Messages: ");
    text.append(decimal_text(entries.len() as u64).as_str());
    text.append("\n");
    assert(text@ =~= before + export_footer(entries@.len()));
    text
}

/// The least category that a choice of level shows: all, warnings and above,
/// or errors and above.
pub fn level_index_to_min(idx: u32) -> (r: u32)
    ensures
        r == level_min_of(idx),
{
    match idx {
        1 => 5,
        2 => 6,
        _ => 0,
    }
}

pub open spec fn level_min_of(idx: u32) -> u32 {
    match idx {
        1 => 5,
        2 => 6,
        _ => 0,
    }
}

pub open spec fn filename_char(c: char) -> bool {
    'a' <= c && c <= 'z' || 'A' <= c && c <= 'Z' || '0' <= c && c <= '9' || c == '-' || c == '_'
}

pub open spec fn filename_text(name: Seq<char>) -> Seq<char> {
    Seq::new(
        name.len(),
        |i: int|
            if filename_char(name[i]) {
                name[i]
            } else {
                '_'
            },
    )
}

/// The name with every character that is no ASCII letter, digit, dash or
/// underscore replaced by an underscore.
pub fn sanitize_filename(name: &str) -> (r: String)
    ensures
        r@ == filename_text(name@),
{
    let cs = chars_of(name);
    let mut out = String::new();
    let mut i: usize = 0;
    while i < cs.len()
        invariant
            i <= cs.len(),
            cs@ == name@,
            out@ == filename_text(name@).take(i as int),
        decreases cs.len() - i,
    {
        let c = cs[i];
        if 'a' <= c && c <= 'z' || 'A' <= c && c <= 'Z' || '0' <= c && c <= '9' || c == '-' || c
            == '_' {
            out.push(c);
        } else {
            out.push('_');
        }
        i = i + 1;
        assert(out@ =~= filename_text(name@).take(i as int));
    }
    assert(filename_text(name@).take(i as int) =~= filename_text(name@));
    out
}

/// The name that an export is offered under. `stamp` is the time of the
/// export.
pub fn export_file_name(config_name: &str, stamp: &str) -> (r: String)
    ensures
        r@ == "openvpn3-gui-"@ + filename_text(config_name@) + "-"@ + stamp@ + ".log"@,
{
    let mut out = "openvpn3-gui-".to_owned();
    out.append(sanitize_filename(config_name).as_str());
    out.append("-");
    out.append(stamp);
    out.append(".log");
    out
}

/// A file name has no path separator and as many characters as the name that
/// it was made of.
pub proof fn law_file_names_are_safe(name: Seq<char>)
    ensures
        filename_text(name).len() == name.len(),
        forall|i: int|
            0 <= i < name.len() ==> filename_char(#[trigger] filename_text(name)[i])
                && filename_text(name)[i] != '/',
        filename_text(filename_text(name)) == filename_text(name),
{
    assert(filename_text(filename_text(name)) =~= filename_text(name));
}

/// What is shown at a graver level is also shown at a milder one.
pub proof fn law_levels_are_nested(e: LogEntry, query: Seq<char>, idx: u32)
    ensures
        passes(query, level_min_of(2))(e) ==> passes(query, level_min_of(1))(e),
        passes(query, level_min_of(idx))(e) ==> passes(query, level_min_of(0))(e),
{
}

/// A time of day is shown as hours, minutes and seconds of two digits each; a
/// leap second counts as the second behind the last one.
pub proof fn law_time_by_its_parts(h: u32, m: u32, s: u32, nanos: u32)
    requires
        h < 24 && m < 60 && s < 60,
        nanos < 1_000_000_000 || s == 59 && nanos < 2_000_000_000,
    ensures
        ({
            let text = time_text(((3600 * h + 60 * m + s) as u32, nanos));
            &&& text.len() == 8
            &&& text[2] == ':' && text[5] == ':'
            &&& digits_value(text.subrange(0, 2)) == h
            &&& digits_value(text.subrange(3, 5)) == m
            &&& digits_value(text.subrange(6, 8)) == (if nanos < 1_000_000_000 {
                s as int
            } else {
                60
            })
        }),
{
    let n = 3600 * h + 60 * m + s;
    assert(n / 3600 == h);
    assert(n / 60 % 60 == m);
    assert(n % 60 == s);
    let second = (s + nanos / 1_000_000_000) as nat;
    let text = time_text((n as u32, nanos));
    lemma_two_digits(h as nat);
    lemma_two_digits(m as nat);
    lemma_two_digits(second);
    assert(text.subrange(0, 2) =~= two_digits(h as nat));
    assert(text.subrange(3, 5) =~= two_digits(m as nat));
    assert(text.subrange(6, 8) =~= two_digits(second));
}

proof fn lemma_two_digits(n: nat)
    requires
        n < 100,
    ensures
        digits_value(two_digits(n)) == n,
{
    let d = two_digits(n);
    assert(digit_char(n / 10) as u32 == 48 + n / 10);
    assert(digit_char(n % 10) as u32 == 48 + n % 10);
    assert(d.drop_last() =~= seq![digit_char(n / 10)]);
    assert(d.drop_last().drop_last() =~= Seq::empty());
    assert(digits_value(d.drop_last().drop_last()) == 0);
    assert(digits_value(d.drop_last()) == n / 10);
}

/// A line begins with its time, names its category, and ends with the message
/// and a line feed.
pub proof fn law_line_holds_all_of_the_message(
    timestamp: (u32, u32),
    category: u32,
    message: Seq<char>,
)
    ensures
        ({
            let line = line_text(timestamp, category, message);
            &&& starts_with_spec(line, time_text(timestamp))
            &&& has_substring(line, "["@ + category_label(category) + "]"@)
            &&& line.last() == '\n'
            &&& line.len() > message.len()
            &&& line.subrange(line.len() - 1 - message.len(), line.len() - 1) == message
        }),
{
    let line = line_text(timestamp, category, message);
    let time = time_text(timestamp);
    let label = category_label(category);
    let mark = "["@ + label + "]"@;
    reveal_strlit(" [");
    reveal_strlit("] ");
    reveal_strlit("[");
    reveal_strlit("]");
    reveal_strlit("\n");
    assert(line.take(time.len() as int) =~= time);
    let at = time.len() as int + 1;
    assert(line.subrange(at, at + mark.len()) =~= mark);
    assert(occurs_at(line, mark, at));
    assert(line.subrange(line.len() - 1 - message.len(), line.len() - 1) =~= message);
}

/// The labels of the categories, from debugging to fatal.
pub proof fn law_labels_of_the_categories(category: u32)
    ensures
        category == 1 ==> category_label(category) == "DEBUG"@,
        category == 2 ==> category_label(category) == "VERB2"@,
        category == 3 ==> category_label(category) == "VERB1"@,
        category == 4 ==> category_label(category) == "INFO"@,
        category == 5 ==> category_label(category) == "WARN"@,
        category == 6 ==> category_label(category) == "ERROR"@,
        category == 7 ==> category_label(category) == "CRIT"@,
        category == 8 ==> category_label(category) == "FATAL"@,
        category == 0 || category > 8 ==> category_label(category) == "LOG"@,
{
}

/// A message is shown just when it is as grave as asked for and has the search
/// term, which the empty one always is; both are compared in lower case.
pub proof fn law_what_is_shown(entries: Seq<LogEntry>, search: Seq<char>, level_min: u32, e: LogEntry)
    ensures
        visible(entries, search, level_min).contains(e) <==> {
            &&& entries.contains(e)
            &&& e.category >= level_min
            &&& lowercase(search).len() == 0 || has_substring(
                lowercase(e.message@),
                lowercase(search),
            )
        },
    decreases entries.len(),
{
    reveal(Seq::filter);
    if entries.len() > 0 {
        let rest = entries.drop_last();
        let last = entries.last();
        law_what_is_shown(rest, search, level_min, e);
        let before = visible(rest, search, level_min);
        let after = visible(entries, search, level_min);
        assert(entries[entries.len() - 1] == last);
        if rest.contains(e) {
            let i = choose|i: int| 0 <= i < rest.len() && rest[i] == e;
            assert(entries[i] == e);
        }
        if entries.contains(e) && e != last {
            let i = choose|i: int| 0 <= i < entries.len() && entries[i] == e;
            assert(rest[i] == e);
        }
        if before.contains(e) {
            let i = choose|i: int| 0 <= i < before.len() && before[i] == e;
            assert(after[i] == e);
        }
        if after.contains(e) && e != last {
            let i = choose|i: int| 0 <= i < after.len() && after[i] == e;
            assert(before[i] == e);
        }
        if passes(lowercase(search), level_min)(last) {
            assert(after == before.push(last));
            assert(after[before.len() as int] == last);
        } else {
            assert(after == before);
        }
    }
}

/// What is shown of two runs of messages is what is shown of the first and
/// then of the second, and so is the text: no message moves.
pub proof fn law_shown_in_order(
    first: Seq<LogEntry>,
    second: Seq<LogEntry>,
    search: Seq<char>,
    level_min: u32,
)
    ensures
        visible(first + second, search, level_min) == visible(first, search, level_min) + visible(
            second,
            search,
            level_min,
        ),
        rendered(first + second) == rendered(first) + rendered(second),
        first.len() == 1 ==> rendered(first) == line_text(
            first[0].timestamp@,
            first[0].category,
            first[0].message@,
        ),
    decreases second.len(),
{
    Seq::filter_distributes_over_add(first, second, passes(lowercase(search), level_min));
    if first.len() == 1 {
        assert(first.drop_last() =~= Seq::empty());
        assert(rendered(first.drop_last()) =~= Seq::empty());
        assert(rendered(first) =~= entry_line(first[0]));
    }
    if second.len() == 0 {
        assert(first + second =~= first);
        assert(rendered(first) + rendered(second) =~= rendered(first));
    } else {
        assert((first + second).drop_last() =~= first + second.drop_last());
        law_shown_in_order(first, second.drop_last(), search, level_min);
        assert(rendered(first + second) =~= rendered(first) + rendered(second));
    }
}

/// There is something to show just when one of the messages is shown.
pub proof fn law_something_is_shown(entries: Seq<LogEntry>, search: Seq<char>, level_min: u32)
    ensures
        some_passes(entries, lowercase(search), level_min) <==> visible(
            entries,
            search,
            level_min,
        ).len() > 0,
    decreases entries.len(),
{
    reveal(Seq::filter);
    let pred = passes(lowercase(search), level_min);
    if entries.len() > 0 {
        let rest = entries.drop_last();
        law_something_is_shown(rest, search, level_min);
        if some_passes(rest, lowercase(search), level_min) {
            let i = choose|i: int| 0 <= i < rest.len() && pred(#[trigger] rest[i]);
            assert(pred(entries[i]));
        }
        if some_passes(entries, lowercase(search), level_min) {
            let i = choose|i: int| 0 <= i < entries.len() && pred(#[trigger] entries[i]);
            if i < rest.len() {
                assert(pred(rest[i]));
            }
        }
        if pred(entries.last()) {
            assert(pred(entries[entries.len() - 1]));
        }
    }
}

/// The second choice of level shows warnings and what is graver, the third
/// errors and what is graver, and any other everything.
pub proof fn law_choices_of_level(idx: u32, category: u32)
    ensures
        category >= level_min_of(idx) <==> (idx == 1 ==> category >= 5) && (idx == 2 ==> category
            >= 6),
{
}

/// Letters, digits, dashes and underscores of a name stay in a file's name;
/// every other character becomes an underscore.
pub proof fn law_file_name_by_character(name: Seq<char>, i: int)
    requires
        0 <= i < name.len(),
    ensures
        ({
            let c = name[i];
            let plain = 'a' <= c && c <= 'z' || 'A' <= c && c <= 'Z' || '0' <= c && c <= '9' || c
                == '-' || c == '_';
            &&& filename_text(name).len() == name.len()
            &&& plain ==> filename_text(name)[i] == c
            &&& !plain ==> filename_text(name)[i] == '_'
        }),
{
}

/// An export says whose log it is, when it was made, and how many messages it
/// holds.
pub proof fn law_export_tells_whose_and_when(name: Seq<char>, stamp: Seq<char>, count: nat)
    ensures
        has_substring(export_header(name, stamp), "'"@ + name + "'"@),
        has_substring(export_header(name, stamp), stamp),
        has_substring(export_footer(count), decimal(count)),
{
    let a = "# OpenVPN3 GUI log of '"@;
    let b = "', exported "@;
    let header = export_header(name, stamp);
    let quoted = "'"@ + name + "'"@;
    reveal_strlit("# OpenVPN3 GUI log of '");
    reveal_strlit("', exported ");
    reveal_strlit("'");
    let at = a.len() as int - 1;
    assert(header.subrange(at, at + quoted.len()) =~= quoted);
    assert(occurs_at(header, quoted, at));
    law_part_occurs_in_the_whole(a + name + b, stamp, "\n"@);
    law_part_occurs_in_the_whole("# Messages: "@, decimal(count), "\n"@);
}

} // verus!
