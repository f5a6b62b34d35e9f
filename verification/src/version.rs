//! Versions of the OpenVPN 3 manager and of the kill-switch helper.
use vstd::prelude::*;
use vstd::string::*;

use crate::config::{MANAGER_VERSION_MINIMUM, MANAGER_VERSION_RECOMMENDED};
use crate::search::{first_index, lemma_first_index};
use crate::text::{
    all_digits, chars_of, decimal, digits_value, find_char, is_char, is_digit, is_digit_spec,
    law_numeral_reads_back, law_position_is_the_first, lemma_digits_monotonic, opt_text,
    position_of, starts_with_spec, strip_prefix,
};

verus! {

/// The character is no decimal digit.
pub open spec fn is_no_digit() -> spec_fn(char) -> bool {
    |c: char| !is_digit_spec(c)
}

/// How many decimal digits `s` starts with.
pub open spec fn digit_count(s: Seq<char>) -> int {
    first_index(s, is_no_digit())
}

/// The number that `s` starts with; zero if there is none or it is too large.
pub open spec fn leading_number(s: Seq<char>) -> nat {
    let n = digits_value(s.take(digit_count(s)));
    if n <= u32::MAX {
        n
    } else {
        0
    }
}

/// Reads the number that `cs` starts with.
fn read_number(cs: &[char]) -> (r: u32)
    ensures
        r == leading_number(cs@),
{
    let mut end: usize = 0;
    while end < cs.len() && is_digit(cs[end])
        invariant
            end <= cs.len(),
            forall|j: int| 0 <= j < end ==> is_digit_spec(#[trigger] cs@[j]),
        decreases cs.len() - end,
    {
        end = end + 1;
    }
    proof {
        lemma_first_index(cs@, is_no_digit(), end as int);
    }
    let ghost d = cs@.take(end as int);
    let mut n: u32 = 0;
    let mut i: usize = 0;
    assert(d.take(0) =~= Seq::empty());
    assert(all_digits(d));
    while i < end
        invariant
            i <= end <= cs.len(),
            d == cs@.take(end as int),
            all_digits(d),
            end == digit_count(cs@),
            n == digits_value(d.take(i as int)),
        decreases end - i,
    {
        assert(is_digit_spec(d[i as int]));
        let v: u64 = n as u64 * 10 + (cs[i] as u32 - 48) as u64;
        proof {
            assert(d.take(i as int + 1).drop_last() =~= d.take(i as int));
            lemma_digits_monotonic(d, i as int + 1);
        }
        if v > u32::MAX as u64 {
            return 0;
        }
        n = v as u32;
        i = i + 1;
    }
    assert(d.take(i as int) =~= d);
    n
}

/// The number of a manager's version.
pub open spec fn manager_number(version: Option<Seq<char>>) -> nat {
    match version {
        Some(v) => if starts_with_spec(v, "git:"@) {
            9999
        } else if starts_with_spec(v, "v"@) {
            leading_number(v.skip(1))
        } else {
            0
        },
        None => 0,
    }
}

/// Reads the manager's version: a development build counts as newer than any
/// release, and what is no version counts as zero.
pub fn parse_manager_version(version: Option<String>) -> (r: u32)
    ensures
        r == (match version {
            None => 0,
            Some(v) => if starts_with_spec(v@, "git:"@) {
                9999
            } else if starts_with_spec(v@, "v"@) {
                leading_number(v@.skip("v"@.len() as int))
            } else {
                0
            },
        }),
        r == manager_number(opt_text(version)),
{
    proof {
        reveal_strlit("v");
    }
    match version {
        None => 0,
        Some(v) => if strip_prefix(v.as_str(), "git:").is_some() {
            9999
        } else {
            match strip_prefix(v.as_str(), "v") {
                Some(rest) => {
                    let cs = chars_of(rest.as_str());
                    read_number(cs.as_slice())
                },
                None => 0,
            }
        },
    }
}

/// How the manager's version is judged.
#[derive(Clone, Copy, Debug, PartialEq, Eq, Structural)]
pub enum ManagerVersion {
    Unsupported,
    BelowRecommended,
    Fine,
}

/// How a manager with this number is judged.
pub open spec fn manager_verdict(number: nat) -> ManagerVersion {
    if number < MANAGER_VERSION_MINIMUM {
        ManagerVersion::Unsupported
    } else if number < MANAGER_VERSION_RECOMMENDED {
        ManagerVersion::BelowRecommended
    } else {
        ManagerVersion::Fine
    }
}

/// Judges the manager's version.
pub fn log_manager_version_assessment(manager_version: u32) -> (r: ManagerVersion)
    ensures
        r == (if manager_version < MANAGER_VERSION_MINIMUM {
            ManagerVersion::Unsupported
        } else if manager_version < MANAGER_VERSION_RECOMMENDED {
            ManagerVersion::BelowRecommended
        } else {
            ManagerVersion::Fine
        }),
        r == manager_verdict(manager_version as nat),
{
    if manager_version < MANAGER_VERSION_MINIMUM {
        ManagerVersion::Unsupported
    } else if manager_version < MANAGER_VERSION_RECOMMENDED {
        ManagerVersion::BelowRecommended
    } else {
        ManagerVersion::Fine
    }
}

/// The part of `s` before its first dot.
pub open spec fn head(s: Seq<char>) -> Seq<char> {
    s.take(position_of(s, '.'))
}

/// What follows the first dot of `s`, nothing if there is none.
pub open spec fn tail(s: Seq<char>) -> Seq<char> {
    if position_of(s, '.') < s.len() {
        s.skip(position_of(s, '.') + 1)
    } else {
        Seq::empty()
    }
}

/// The three numbers of a version; missing ones and those that are no numbers
/// count as zero.
pub open spec fn semver(s: Seq<char>) -> (nat, nat, nat) {
    (
        leading_number(head(s)),
        leading_number(head(tail(s))),
        leading_number(head(tail(tail(s)))),
    )
}

/// Reads the number before the first dot and returns where the rest begins.
fn read_part(cs: &Vec<char>, from: usize) -> (r: (u32, usize))
    requires
        from <= cs.len(),
    ensures
        r.0 == leading_number(head(cs@.skip(from as int))),
        from <= r.1 <= cs.len(),
        cs@.skip(r.1 as int) == tail(cs@.skip(from as int)),
{
    let rest = &cs[from..cs.len()];
    assert(rest@ =~= cs@.skip(from as int));
    let at = find_char(rest, '.');
    let n = read_number(&rest[0..at]);
    assert(rest@.subrange(0, at as int) =~= head(rest@));
    let next: usize = if at < rest.len() {
        from + at + 1
    } else {
        cs.len()
    };
    assert(cs@.skip(next as int) =~= tail(cs@.skip(from as int)));
    (n, next)
}

/// Reads the three numbers of a version.
pub fn parse_semver(s: &str) -> (r: (u32, u32, u32))
    ensures
        (r.0 as nat, r.1 as nat, r.2 as nat) == semver(s@),
{
    let cs = chars_of(s);
    assert(cs@.skip(0) =~= s@);
    let (major, a) = read_part(&cs, 0);
    let (minor, b) = read_part(&cs, a);
    let (patch, _c) = read_part(&cs, b);
    (major, minor, patch)
}

/// The order of versions.
pub open spec fn version_less(a: (nat, nat, nat), b: (nat, nat, nat)) -> bool {
    a.0 < b.0 || a.0 == b.0 && (a.1 < b.1 || a.1 == b.1 && a.2 < b.2)
}

/// Whether a version is older than the minimum.
pub fn helper_version_below_min(version: &str, minimum: &str) -> (r: bool)
    ensures
        r == version_less(semver(version@), semver(minimum@)),
{
    let a = parse_semver(version);
    let b = parse_semver(minimum);
    a.0 < b.0 || a.0 == b.0 && (a.1 < b.1 || a.1 == b.1 && a.2 < b.2)
}

/// Versions are ordered strictly and totally.
pub proof fn law_versions_are_ordered(
    a: (nat, nat, nat),
    b: (nat, nat, nat),
    c: (nat, nat, nat),
)
    ensures
        !version_less(a, a),
        version_less(a, b) && version_less(b, c) ==> version_less(a, c),
        version_less(a, b) || version_less(b, a) || a == b,
{
}

/// A text has the number of the numeral that it starts with, whatever follows
/// behind the digits; a text that starts with none has zero.
pub proof fn law_leading_numeral_counts(n: nat, rest: Seq<char>)
    requires
        rest.len() > 0 ==> !('0' <= rest[0] && rest[0] <= '9'),
    ensures
        n <= u32::MAX ==> leading_number(decimal(n) + rest) == n,
        n > u32::MAX ==> leading_number(decimal(n) + rest) == 0,
        leading_number(rest) == 0,
{
    law_numeral_reads_back(n);
    let d = decimal(n);
    let s = d + rest;
    assert forall|j: int| 0 <= j < d.len() implies !is_no_digit()(#[trigger] s[j]) by {
        assert(s[j] == d[j]);
        assert(is_digit_spec(d[j]));
    }
    if rest.len() > 0 {
        assert(s[d.len() as int] == rest[0]);
    }
    lemma_first_index(s, is_no_digit(), d.len() as int);
    assert(s.take(d.len() as int) =~= d);
    lemma_first_index(rest, is_no_digit(), 0);
    assert(rest.take(0) =~= Seq::empty());
    assert(digits_value(rest.take(0)) == 0);
}

proof fn lemma_head_and_tail(front: Seq<char>, rest: Seq<char>)
    requires
        !front.contains('.'),
    ensures
        head(front + seq!['.'] + rest) == front,
        tail(front + seq!['.'] + rest) == rest,
{
    let s = front + seq!['.'] + rest;
    assert(s[front.len() as int] == '.');
    assert forall|j: int| 0 <= j < front.len() implies s[j] != '.' by {
        assert(s[j] == front[j]);
        assert(front.contains(front[j]));
    }
    law_position_is_the_first(s, '.', front.len() as int);
    assert(s.take(front.len() as int) =~= front);
    assert(s.skip(front.len() as int + 1) =~= rest);
}

proof fn lemma_numeral_has_no_dot(n: nat)
    ensures
        !decimal(n).contains('.'),
{
    law_numeral_reads_back(n);
    if decimal(n).contains('.') {
        let i = choose|i: int| 0 <= i < decimal(n).len() && decimal(n)[i] == '.';
        assert(is_digit_spec(decimal(n)[i]));
    }
}

/// A version that is written as three numerals with dots between them has
/// these three numbers, whatever is written behind the third, unless that goes
/// on with a digit.
pub proof fn law_version_has_its_three_numbers(a: nat, b: nat, c: nat, rest: Seq<char>)
    requires
        a <= u32::MAX && b <= u32::MAX && c <= u32::MAX,
        rest.len() > 0 ==> !('0' <= rest[0] && rest[0] <= '9'),
        !rest.contains('.'),
    ensures
        semver(
            decimal(a) + seq!['.'] + (decimal(b) + seq!['.'] + (decimal(c) + rest)),
        ) == (a, b, c),
{
    let z = decimal(c) + rest;
    let y = decimal(b) + seq!['.'] + z;
    lemma_numeral_has_no_dot(a);
    lemma_numeral_has_no_dot(b);
    lemma_numeral_has_no_dot(c);
    lemma_head_and_tail(decimal(a), y);
    lemma_head_and_tail(decimal(b), z);
    assert forall|j: int| 0 <= j < z.len() implies !is_char('.')(#[trigger] z[j]) by {
        if j < decimal(c).len() {
            assert(z[j] == decimal(c)[j]);
        } else {
            assert(z[j] == rest[j - decimal(c).len()]);
        }
    }
    lemma_first_index(z, is_char('.'), z.len() as int);
    assert(head(z) =~= z);
    law_leading_numeral_counts(a, Seq::empty());
    law_leading_numeral_counts(b, Seq::empty());
    law_leading_numeral_counts(c, rest);
    assert(decimal(a) + Seq::<char>::empty() =~= decimal(a));
    assert(decimal(b) + Seq::<char>::empty() =~= decimal(b));
}

/// The first number in which two versions differ decides which is older.
pub proof fn law_older_by_the_first_difference(a: (nat, nat, nat), b: (nat, nat, nat))
    ensures
        a.0 != b.0 ==> (version_less(a, b) <==> a.0 < b.0),
        a.0 == b.0 && a.1 != b.1 ==> (version_less(a, b) <==> a.1 < b.1),
        a.0 == b.0 && a.1 == b.1 ==> (version_less(a, b) <==> a.2 < b.2),
{
}

/// A release counts as the number behind its letter, a development build as
/// newer than any release there is, and anything else as none.
pub proof fn law_manager_numbers(n: nat, rest: Seq<char>)
    requires
        rest.len() > 0 ==> !('0' <= rest[0] && rest[0] <= '9'),
    ensures
        n <= u32::MAX ==> manager_number(Some("v"@ + (decimal(n) + rest))) == n,
        manager_number(Some("git:"@ + rest)) == 9999,
        manager_number(None) == 0,
        rest.len() > 0 && rest[0] != 'v' && rest[0] != 'g' ==> manager_number(Some(rest)) == 0,
{
    reveal_strlit("v");
    reveal_strlit("git:");
    let s = "v"@ + (decimal(n) + rest);
    assert(s[0] == 'v');
    assert("git:"@[0] == 'g');
    assert(s.skip(1) =~= decimal(n) + rest);
    assert(s.take(1) =~= "v"@);
    if s.len() >= 4 {
        assert(s.take(4)[0] == s[0]);
    }
    law_leading_numeral_counts(n, rest);
    let g = "git:"@ + rest;
    assert(g.take(4) =~= "git:"@);
    if rest.len() >= 4 {
        assert(rest.take(4)[0] == rest[0]);
    }
    if rest.len() >= 1 {
        assert(rest.take(1)[0] == rest[0]);
    }
}

/// Managers before the twentieth release are not supported, the twentieth is,
/// and later ones are recommended.
pub proof fn law_judgement_of_managers(number: nat)
    ensures
        manager_verdict(number) == ManagerVersion::Unsupported <==> number < 20,
        manager_verdict(number) == ManagerVersion::BelowRecommended <==> number == 20,
        manager_verdict(number) == ManagerVersion::Fine <==> number > 20,
{
}

} // verus!
