//! What the about window says of the system.
use vstd::prelude::*;
use vstd::string::*;

use crate::search::{lemma_first_index, lemma_first_index_fits};
use crate::text::{
    chars_of, decimal, decimal_text, find_char, is_char, law_position_is_the_first, position_of,
    starts_with_spec, string_of,
};

verus! {

/// What the line with the system's name begins with.
pub const NAME_KEY: &'static str = "PRETTY_NAME=";

/// A line without the carriage return that ends it.
pub open spec fn without_return(line: Seq<char>) -> Seq<char> {
    if line.len() > 0 && line.last() == '\r' {
        line.drop_last()
    } else {
        line
    }
}

/// The first line of a text: up to the first line feed, or all of it.
pub open spec fn first_line(s: Seq<char>) -> Seq<char> {
    let at = position_of(s, '\n');
    if at < s.len() {
        without_return(s.take(at))
    } else {
        s
    }
}

/// A text without a beginning, however often it is repeated there.
pub open spec fn without_start(s: Seq<char>, start: Seq<char>) -> Seq<char>
    decreases s.len(),
{
    if start.len() > 0 && starts_with_spec(s, start) {
        without_start(s.skip(start.len() as int), start)
    } else {
        s
    }
}

/// A text without the quotation marks in front.
pub open spec fn unquoted_start(s: Seq<char>) -> Seq<char>
    decreases s.len(),
{
    if s.len() > 0 && s[0] == '"' {
        unquoted_start(s.drop_first())
    } else {
        s
    }
}

/// A text without the quotation marks at its end.
pub open spec fn unquoted_end(s: Seq<char>) -> Seq<char>
    decreases s.len(),
{
    if s.len() > 0 && s.last() == '"' {
        unquoted_end(s.drop_last())
    } else {
        s
    }
}

/// The name of the system in the text of its release file: what follows the
/// key on the first line that begins with it, without quotation marks.
pub open spec fn pretty_name(s: Seq<char>) -> Option<Seq<char>>
    decreases s.len(),
{
    if s.len() == 0 {
        None
    } else if starts_with_spec(first_line(s), NAME_KEY@) {
        Some(unquoted_end(unquoted_start(without_start(first_line(s), NAME_KEY@))))
    } else if position_of(s, '\n') < s.len() {
        proof {
            lemma_first_index_fits(s, is_char('\n'));
        }
        pretty_name(s.skip(position_of(s, '\n') + 1))
    } else {
        None
    }
}

fn begins_with(cs: &[char], from: usize, to: usize, start: &[char]) -> (r: bool)
    requires
        from <= to <= cs@.len(),
    ensures
        r == starts_with_spec(cs@.subrange(from as int, to as int), start@),
{
    let ghost part = cs@.subrange(from as int, to as int);
    if start.len() > to - from {
        return false;
    }
    let mut i: usize = 0;
    while i < start.len()
        invariant
            i <= start.len(),
            start.len() <= to - from,
            from <= to <= cs@.len(),
            part == cs@.subrange(from as int, to as int),
            forall|k: int| 0 <= k < i ==> part[k] == #[trigger] start@[k],
        decreases start.len() - i,
    {
        if cs[from + i] != start[i] {
            assert(part[i as int] != start@[i as int]);
            assert(part.take(start@.len() as int)[i as int] != start@[i as int]);
            return false;
        }
        assert(part[i as int] == start@[i as int]);
        i = i + 1;
    }
    assert(part.take(start@.len() as int) =~= start@);
    true
}

/// The name on a line that begins with the key.
fn name_on(cs: &[char], from: usize, to: usize, key: &[char]) -> (r: String)
    requires
        from <= to <= cs@.len(),
        key@.len() > 0,
    ensures
        r@ == unquoted_end(
            unquoted_start(without_start(cs@.subrange(from as int, to as int), key@)),
        ),
{
    let ghost line = cs@.subrange(from as int, to as int);
    let mut a: usize = from;
    while begins_with(cs, a, to, key)
        invariant
            from <= a <= to <= cs@.len(),
            key@.len() > 0,
            without_start(line, key@) == without_start(
                cs@.subrange(a as int, to as int),
                key@,
            ),
        decreases to - a,
    {
        assert(cs@.subrange(a as int, to as int).skip(key@.len() as int) =~= cs@.subrange(
            a + key@.len(),
            to as int,
        ));
        a = a + key.len();
    }
    let ghost rest = cs@.subrange(a as int, to as int);
    assert(without_start(line, key@) == rest);
    while a < to && cs[a] == '"'
        invariant
            from <= a <= to <= cs@.len(),
            unquoted_start(rest) == unquoted_start(cs@.subrange(a as int, to as int)),
        decreases to - a,
    {
        assert(cs@.subrange(a as int, to as int).drop_first() =~= cs@.subrange(
            a + 1,
            to as int,
        ));
        a = a + 1;
    }
    let mut b: usize = to;
    assert(unquoted_start(rest) == cs@.subrange(a as int, to as int));
    while a < b && cs[b - 1] == '"'
        invariant
            a <= b <= to <= cs@.len(),
            unquoted_end(unquoted_start(rest)) == unquoted_end(
                cs@.subrange(a as int, b as int),
            ),
        decreases b - a,
    {
        assert(cs@.subrange(a as int, b as int).drop_last() =~= cs@.subrange(
            a as int,
            b as int - 1,
        ));
        b = b - 1;
    }
    assert(unquoted_end(unquoted_start(rest)) == cs@.subrange(a as int, b as int));
    string_of(&cs[a..b])
}

/// The name of the system in the text of its release file.
pub fn os_name(release: &str) -> (r: Option<String>)
    ensures
        match pretty_name(release@) {
            Some(name) => r is Some && r->0@ == name,
            None => r is None,
        },
{
    proof {
        reveal_strlit("PRETTY_NAME=");
    }
    let cs = chars_of(release);
    let key = chars_of(NAME_KEY);
    let n = cs.len();
    let mut from: usize = 0;
    assert(cs@.skip(0) =~= release@);
    while from < n
        invariant
            from <= n,
            n == cs@.len(),
            cs@ == release@,
            key@ == NAME_KEY@,
            key@.len() > 0,
            pretty_name(release@) == pretty_name(release@.skip(from as int)),
        decreases n - from,
    {
        let ghost tail = release@.skip(from as int);
        let at = find_char(&cs[from..n], '\n');
        assert(cs@.subrange(from as int, n as int) =~= tail);
        let mut end: usize = from + at;
        let terminated = end < n;
        assert(tail.take(at as int) =~= cs@.subrange(from as int, end as int));
        if terminated && end > from && cs[end - 1] == '\r' {
            assert(tail.take(at as int).last() == '\r');
            assert(tail.take(at as int).drop_last() =~= cs@.subrange(
                from as int,
                end as int - 1,
            ));
            end = end - 1;
        }
        assert(first_line(tail) =~= cs@.subrange(from as int, end as int));
        if begins_with(cs.as_slice(), from, end, key.as_slice()) {
            return Some(name_on(cs.as_slice(), from, end, key.as_slice()));
        }
        if !terminated {
            return None;
        }
        assert(tail.skip(at as int + 1) =~= release@.skip(from + at + 1));
        from = from + at + 1;
    }
    assert(release@.skip(from as int).len() == 0);
    None
}

/// What the about window says of the system: the versions of the toolkit and
/// the name of the system, or of its kind where the release file says none.
pub fn system_info(major: u32, minor: u32, micro: u32, release: &Option<String>, kind: &str) -> (r:
    String)
    ensures
        r@ == "A Rust OpenVPN3 GUI for Linux\n\nGTK: "@ + decimal(major as nat) + "."@ + decimal(
            minor as nat,
        ) + "."@ + decimal(micro as nat) + "\nOS: "@ + (match *release {
            Some(text) => match pretty_name(text@) {
                Some(name) => name,
                None => kind@,
            },
            None => kind@,
        }),
{
    let mut out = "A Rust OpenVPN3 GUI for Linux\n\nGTK: ".to_owned();
    out.append(decimal_text(major as u64).as_str());
    out.append(".");
    out.append(decimal_text(minor as u64).as_str());
    out.append(".");
    out.append(decimal_text(micro as u64).as_str());
    out.append("\nOS: ");
    let name = match release {
        Some(text) => os_name(text.as_str()),
        None => None,
    };
    match name {
        Some(n) => {
            out.append(n.as_str());
        },
        None => {
            out.append(kind);
        },
    }
    out
}

proof fn lemma_line_and_rest(line: Seq<char>, rest: Seq<char>)
    requires
        !line.contains('\n'),
    ensures
        position_of(line + seq!['\n'] + rest, '\n') == line.len(),
        (line + seq!['\n'] + rest).take(line.len() as int) == line,
        (line + seq!['\n'] + rest).skip(line.len() as int + 1) == rest,
        position_of(line, '\n') == line.len(),
{
    let s = line + seq!['\n'] + rest;
    assert(s[line.len() as int] == '\n');
    assert forall|j: int| 0 <= j < line.len() implies s[j] != '\n' by {
        assert(s[j] == line[j]);
    }
    law_position_is_the_first(s, '\n', line.len() as int);
    assert(s.take(line.len() as int) =~= line);
    assert(s.skip(line.len() as int + 1) =~= rest);
    assert forall|j: int| 0 <= j < line.len() implies !is_char('\n')(#[trigger] line[j]) by {
    }
    lemma_first_index(line, is_char('\n'), line.len() as int);
}

/// A line that does not begin with the key is passed over, and a text of such
/// lines alone names nothing.
pub proof fn law_other_lines_are_passed_over(line: Seq<char>, rest: Seq<char>)
    requires
        !line.contains('\n'),
        line.len() == 0 || line[0] != 'P',
    ensures
        pretty_name(line + seq!['\n'] + rest) == pretty_name(rest),
        pretty_name(line) is None,
{
    reveal_strlit("PRETTY_NAME=");
    let s = line + seq!['\n'] + rest;
    lemma_line_and_rest(line, rest);
    assert(NAME_KEY@[0] == 'P');
    assert forall|t: Seq<char>| (t.len() == 0 || t[0] != 'P') implies !#[trigger] starts_with_spec(
        t,
        NAME_KEY@,
    ) by {
        if t.len() >= NAME_KEY@.len() {
            assert(t.take(NAME_KEY@.len() as int)[0] == t[0]);
        }
    }
    assert(first_line(s).len() == 0 || first_line(s)[0] == line[0]);
    assert(!starts_with_spec(first_line(s), NAME_KEY@));
    assert(first_line(line) == line);
    assert(!starts_with_spec(line, NAME_KEY@));
}

/// The name behind the key, with or without quotation marks around it, is the
/// name of the system, whatever lines follow.
pub proof fn law_name_behind_the_key(name: Seq<char>, rest: Seq<char>)
    requires
        !name.contains('\n'),
        name.len() > 0,
        name[0] != '"' && name[0] != 'P',
        name.last() != '"' && name.last() != '\r',
    ensures
        pretty_name("PRETTY_NAME="@ + (seq!['"'] + name + seq!['"']) + seq!['\n'] + rest) == Some(
            name,
        ),
        pretty_name("PRETTY_NAME="@ + name + seq!['\n'] + rest) == Some(name),
        pretty_name("PRETTY_NAME="@ + name) == Some(name),
{
    reveal_strlit("PRETTY_NAME=");
    let key = "PRETTY_NAME="@;
    let quoted = seq!['"'] + name + seq!['"'];
    lemma_behind_the_key(key, quoted, rest);
    lemma_behind_the_key(key, name, rest);
    let inner = name + seq!['"'];
    assert(quoted.drop_first() =~= inner);
    assert(inner[0] == name[0]);
    assert(unquoted_start(inner) == inner);
    assert(inner.drop_last() =~= name);
    assert(inner.last() == '"');
    assert(unquoted_end(name) == name);
    assert(unquoted_end(inner) == name);
    assert(unquoted_start(name) == name);
}

proof fn lemma_behind_the_key(key: Seq<char>, text: Seq<char>, rest: Seq<char>)
    requires
        key == NAME_KEY@,
        !text.contains('\n'),
        text.len() > 0,
        text[0] != 'P',
        text.last() != '\r',
    ensures
        pretty_name(key + text + seq!['\n'] + rest) == Some(unquoted_end(unquoted_start(text))),
        pretty_name(key + text) == Some(unquoted_end(unquoted_start(text))),
{
    reveal_strlit("PRETTY_NAME=");
    let line = key + text;
    assert(!line.contains('\n')) by {
        if line.contains('\n') {
            let i = choose|i: int| 0 <= i < line.len() && line[i] == '\n';
            if i < key.len() {
                assert(key[i] == '\n');
            } else {
                assert(text[i - key.len()] == '\n');
            }
        }
    }
    lemma_line_and_rest(line, rest);
    let s = line + seq!['\n'] + rest;
    assert(line.last() == text.last());
    assert(first_line(s) == line);
    assert(first_line(line) == line);
    assert(line.take(key.len() as int) =~= key);
    assert(line.skip(key.len() as int) =~= text);
    assert(!starts_with_spec(text, key)) by {
        if text.len() >= key.len() {
            assert(text.take(key.len() as int)[0] == text[0]);
            assert(key[0] == 'P');
        }
    }
    assert(without_start(text, key) == text);
    assert(without_start(line, key) == text);
}

proof fn lemma_unquoted(s: Seq<char>) -> (ends: (int, int))
    ensures
        ({
            let (a, b) = ends;
            &&& 0 <= a <= b <= s.len()
            &&& unquoted_end(unquoted_start(s)) == s.subrange(a, b)
            &&& forall|i: int| 0 <= i < s.len() && !(a <= i < b) ==> #[trigger] s[i] == '"'
            &&& a < b ==> s[a] != '"' && s[b - 1] != '"'
        }),
    decreases s.len(),
{
    if s.len() > 0 && s[0] == '"' {
        let (a, b) = lemma_unquoted(s.drop_first());
        assert(s.drop_first().subrange(a, b) =~= s.subrange(a + 1, b + 1));
        assert forall|i: int| 0 <= i < s.len() && !(a + 1 <= i < b + 1) implies #[trigger] s[i]
            == '"' by {
            if i > 0 {
                assert(s.drop_first()[i - 1] == s[i]);
            }
        }
        if a < b {
            assert(s.drop_first()[a] == s[a + 1]);
            assert(s.drop_first()[b - 1] == s[b]);
        }
        (a + 1, b + 1)
    } else {
        let b = lemma_unquoted_end(s);
        assert(s.take(b) =~= s.subrange(0, b));
        if b > 0 {
            assert(s[0] != '"');
        }
        (0, b)
    }
}

proof fn lemma_unquoted_end(s: Seq<char>) -> (b: int)
    ensures
        0 <= b <= s.len(),
        unquoted_end(s) == s.take(b),
        forall|i: int| b <= i < s.len() ==> #[trigger] s[i] == '"',
        b > 0 ==> s[b - 1] != '"',
    decreases s.len(),
{
    if s.len() > 0 && s.last() == '"' {
        let b = lemma_unquoted_end(s.drop_last());
        assert(s.drop_last().take(b) =~= s.take(b));
        assert forall|i: int| b <= i < s.len() implies #[trigger] s[i] == '"' by {
            if i < s.len() - 1 {
                assert(s.drop_last()[i] == s[i]);
            }
        }
        b
    } else {
        assert(s.take(s.len() as int) =~= s);
        s.len() as int
    }
}

/// Quotation marks are cut off at both ends, and nothing else is: none is left
/// there, and all that is missing from the text are quotation marks.
pub proof fn law_quotation_marks_are_cut_off(s: Seq<char>)
    ensures
        ({
            let name = unquoted_end(unquoted_start(s));
            &&& name.len() > 0 ==> name[0] != '"' && name.last() != '"'
            &&& exists|a: int, b: int|
                0 <= a <= b <= s.len() && name == #[trigger] s.subrange(a, b) && forall|i: int|
                    0 <= i < s.len() && !(a <= i < b) ==> #[trigger] s[i] == '"'
        }),
{
    let (a, b) = lemma_unquoted(s);
    let name = unquoted_end(unquoted_start(s));
    assert(name == s.subrange(a, b));
    if a < b {
        assert(name[0] == s[a]);
        assert(name.last() == s[b - 1]);
    }
}

/// A line ends before its line feed and before a carriage return in front of
/// it; the last line of a text needs neither.
pub proof fn law_lines_end_at_the_line_feed(line: Seq<char>, rest: Seq<char>)
    requires
        !line.contains('\n'),
        line.len() > 0 ==> line.last() != '\r',
    ensures
        first_line(line + seq!['\n'] + rest) == line,
        first_line((line + seq!['\r']) + seq!['\n'] + rest) == line,
        first_line(line) == line,
{
    let longer = line + seq!['\r'];
    assert(!longer.contains('\n')) by {
        if longer.contains('\n') {
            let i = choose|i: int| 0 <= i < longer.len() && longer[i] == '\n';
            assert(line[i] == '\n');
        }
    }
    lemma_line_and_rest(line, rest);
    lemma_line_and_rest(longer, rest);
    assert(longer.last() == '\r');
    assert(longer.drop_last() =~= line);
}

} // verus!
