//! Bypass networks: which are enabled, to which address family they belong,
//! and whether the text of one is well formed.
use vstd::prelude::*;
use vstd::string::*;

use crate::search::lemma_first_index;
use crate::text::{
    all_digits, chars_of, decimal, decimal_text, digits_value, find_char, has_substring, is_char,
    is_digit, is_digit_spec, law_numeral_reads_back, law_position_is_the_first,
    lemma_digits_monotonic, occurs_at, position_of, same, string_of, texts,
};

verus! {

/// Whether `s` is one of the strings of `list`.
pub fn listed(list: &[String], s: &str) -> (r: bool)
    ensures
        r == texts(list@).contains(s@),
{
    let mut i: usize = 0;
    while i < list.len()
        invariant
            i <= list.len(),
            forall|j: int| 0 <= j < i ==> #[trigger] texts(list@)[j] != s@,
        decreases list.len() - i,
    {
        if same(list[i].as_str(), s) {
            assert(texts(list@)[i as int] == s@);
            return true;
        }
        i = i + 1;
    }
    false
}

/// The entries of `all` that are not in `disabled`, in their order.
pub open spec fn enabled(all: Seq<Seq<char>>, disabled: Seq<Seq<char>>) -> Seq<Seq<char>> {
    all.filter(|c: Seq<char>| !disabled.contains(c))
}

/// The entries of `all` that are not in `disabled`, in their order.
pub fn enabled_cidrs(all: &[String], disabled: &[String]) -> (r: Vec<String>)
    ensures
        texts(r@) == enabled(texts(all@), texts(disabled@)),
{
    let mut out: Vec<String> = Vec::new();
    let ghost keep = |c: Seq<char>| !texts(disabled@).contains(c);
    let mut i: usize = 0;
    proof {
        assert(texts(all@).take(0) =~= Seq::empty());
        reveal(Seq::filter);
        assert(texts(out@) =~= texts(all@).take(0).filter(keep));
    }
    while i < all.len()
        invariant
            i <= all.len(),
            keep == (|c: Seq<char>| !texts(disabled@).contains(c)),
            texts(out@) == texts(all@).take(i as int).filter(keep),
        decreases all.len() - i,
    {
        let ghost before = texts(all@).take(i as int);
        let ghost c = texts(all@)[i as int];
        let ghost old_out = texts(out@);
        proof {
            reveal(Seq::filter);
            assert(texts(all@).take(i as int + 1) =~= before.push(c));
            assert(before.push(c).drop_last() =~= before);
        }
        if !listed(disabled, all[i].as_str()) {
            out.push(all[i].clone());
            assert(texts(out@) =~= old_out.push(c));
        }
        i = i + 1;
    }
    assert(texts(all@).take(i as int) =~= texts(all@));
    out
}

/// The two families of addresses.
#[derive(Clone, Copy, Debug, PartialEq, Eq, Structural)]
pub enum IpFamily {
    V4,
    V6,
}

/// The entries whose address belongs to `family`, in their order.
pub open spec fn of_family(
    cidrs: Seq<Seq<char>>,
    families: Seq<Option<IpFamily>>,
    family: IpFamily,
) -> Seq<Seq<char>>
    decreases cidrs.len(),
{
    if cidrs.len() == 0 {
        Seq::empty()
    } else {
        let rest = of_family(cidrs.drop_last(), families.drop_last(), family);
        if families.last() == Some(family) {
            rest.push(cidrs.last())
        } else {
            rest
        }
    }
}

/// Splits a list of networks by the family of their addresses. `families[i]`
/// is the family of the address of `cidrs[i]`, nothing if that is no address;
/// such an entry is dropped.
pub fn split_v4_v6(cidrs: &[String], families: &[Option<IpFamily>]) -> (r: (
    Vec<String>,
    Vec<String>,
))
    requires
        cidrs@.len() == families@.len(),
    ensures
        texts(r.0@) == of_family(texts(cidrs@), families@, IpFamily::V4),
        texts(r.1@) == of_family(texts(cidrs@), families@, IpFamily::V6),
{
    let mut v4: Vec<String> = Vec::new();
    let mut v6: Vec<String> = Vec::new();
    let mut i: usize = 0;
    assert(texts(cidrs@).take(0) =~= Seq::empty());
    assert(texts(v4@) =~= Seq::empty());
    assert(texts(v6@) =~= Seq::empty());
    while i < cidrs.len()
        invariant
            i <= cidrs.len(),
            cidrs@.len() == families@.len(),
            texts(v4@) == of_family(
                texts(cidrs@).take(i as int),
                families@.take(i as int),
                IpFamily::V4,
            ),
            texts(v6@) == of_family(
                texts(cidrs@).take(i as int),
                families@.take(i as int),
                IpFamily::V6,
            ),
        decreases cidrs.len() - i,
    {
        let ghost c = texts(cidrs@)[i as int];
        let ghost old_v4 = texts(v4@);
        let ghost old_v6 = texts(v6@);
        proof {
            assert(texts(cidrs@).take(i as int + 1).drop_last() =~= texts(cidrs@).take(i as int));
            assert(families@.take(i as int + 1).drop_last() =~= families@.take(i as int));
        }
        match families[i] {
            Some(IpFamily::V4) => {
                v4.push(cidrs[i].clone());
                assert(texts(v4@) =~= old_v4.push(c));
            },
            Some(IpFamily::V6) => {
                v6.push(cidrs[i].clone());
                assert(texts(v6@) =~= old_v6.push(c));
            },
            None => {},
        }
        i = i + 1;
    }
    assert(texts(cidrs@).take(i as int) =~= texts(cidrs@));
    assert(families@.take(i as int) =~= families@);
    (v4, v6)
}

/// The part of a network before its first slash.
pub open spec fn address_part(s: Seq<char>) -> Seq<char> {
    s.take(position_of(s, '/'))
}

/// The part of a network after its first slash.
pub open spec fn prefix_part(s: Seq<char>) -> Seq<char> {
    s.skip(position_of(s, '/') + 1)
}

/// The address of a network, which is what stands before the first slash.
pub fn cidr_address(cidr: &str) -> (r: String)
    ensures
        r@ == address_part(cidr@),
{
    let cs = chars_of(cidr);
    let at = find_char(&cs, '/');
    let r = string_of(&cs[0..at]);
    assert(r@ =~= address_part(cidr@));
    r
}

/// The digits of a number, which may carry a plus sign in front.
pub open spec fn number_digits(s: Seq<char>) -> Seq<char> {
    if s.len() > 0 && s[0] == '+' {
        s.skip(1)
    } else {
        s
    }
}

/// The text denotes a number that fits in a byte.
pub open spec fn is_byte_number(s: Seq<char>) -> bool {
    &&& number_digits(s).len() > 0
    &&& all_digits(number_digits(s))
    &&& digits_value(number_digits(s)) <= 255
}

/// Reads a decimal number that fits in a byte.
pub fn parse_byte(s: &str) -> (r: Option<u8>)
    ensures
        is_byte_number(s@) ==> r is Some && r->0 == digits_value(number_digits(s@)),
        !is_byte_number(s@) ==> r is None,
{
    let cs = chars_of(s);
    let from: usize = if cs.len() > 0 && cs[0] == '+' {
        1
    } else {
        0
    };
    let ghost d = number_digits(s@);
    assert(d =~= s@.skip(from as int));
    if from == cs.len() {
        return None;
    }
    let mut n: u32 = 0;
    let mut i: usize = from;
    assert(d.take(0) =~= Seq::empty());
    while i < cs.len()
        invariant
            from <= i <= cs.len(),
            cs@ == s@,
            d == s@.skip(from as int),
            forall|j: int| 0 <= j < i - from ==> is_digit_spec(#[trigger] d[j]),
            n == digits_value(d.take(i - from)),
            n <= 255,
            d == number_digits(s@),
        decreases cs.len() - i,
    {
        let c = cs[i];
        assert(d[i - from] == c);
        if !is_digit(c) {
            return None;
        }
        let v: u32 = n * 10 + (c as u32 - 48);
        proof {
            assert(d.take(i - from + 1).drop_last() =~= d.take(i - from));
        }
        if v > 255 {
            proof {
                if all_digits(d) {
                    lemma_digits_monotonic(d, i - from + 1);
                }
            }
            return None;
        }
        n = v;
        i = i + 1;
    }
    assert(d.take(i - from) =~= d);
    Some(n as u8)
}

/// The longest prefix of a family.
pub open spec fn prefix_limit(family: IpFamily) -> nat {
    match family {
        IpFamily::V4 => 32,
        IpFamily::V6 => 128,
    }
}

pub open spec fn family_name(family: IpFamily) -> Seq<char> {
    match family {
        IpFamily::V4 => "IPv4"@,
        IpFamily::V6 => "IPv6"@,
    }
}

/// What is wrong with the text of a network, given the family of its address
/// part (nothing if that is no address). The first fault counts.
pub open spec fn syntax_fault(input: Seq<char>, family: Option<IpFamily>) -> Option<Seq<char>> {
    if !input.contains('/') {
        Some("Missing /prefix (e.g. 10.0.0.0/8)"@)
    } else if address_part(input).len() == 0 || prefix_part(input).len() == 0 {
        Some("Empty address or prefix"@)
    } else if family is None {
        Some("'"@ + address_part(input) + "' is not a valid IP address"@)
    } else if !is_byte_number(prefix_part(input)) {
        Some("'"@ + prefix_part(input) + "' is not a valid prefix length"@)
    } else {
        let prefix = digits_value(number_digits(prefix_part(input)));
        let limit = prefix_limit(family->0);
        if prefix == 0 {
            Some("Prefix /0 not allowed (would bypass everything)"@)
        } else if prefix > limit {
            Some(
                "Prefix /"@ + decimal(prefix) + " out of range for "@ + family_name(family->0)
                    + " (max /"@ + decimal(limit) + ")"@,
            )
        } else {
            None
        }
    }
}

/// Checks the text of a network: an address, a slash, and a prefix length that
/// is not zero and fits the address's family. `family` is the family of the
/// address part, nothing if that is no address.
pub fn check_syntax(input: &str, family: Option<IpFamily>) -> (r: Result<(), String>)
    ensures
        match syntax_fault(input@, family) {
            None => r is Ok,
            Some(m) => r is Err && r->Err_0@ == m,
        },
{
    let cs = chars_of(input);
    let at = find_char(&cs, '/');
    if at == cs.len() {
        return Err("Missing /prefix (e.g. 10.0.0.0/8)".to_owned());
    }
    assert(input@[at as int] == '/');
    let addr = string_of(&cs[0..at]);
    let prefix_str = string_of(&cs[at + 1..cs.len()]);
    assert(addr@ =~= address_part(input@));
    assert(prefix_str@ =~= prefix_part(input@));
    if addr.as_str().is_empty() || prefix_str.as_str().is_empty() {
        return Err("Empty address or prefix".to_owned());
    }
    let fam = match family {
        None => {
            let mut m = "'".to_owned();
            m.append(addr.as_str());
            m.append("' is not a valid IP address");
            return Err(m);
        },
        Some(f) => f,
    };
    let prefix: u8 = match parse_byte(prefix_str.as_str()) {
        None => {
            let mut m = "'".to_owned();
            m.append(prefix_str.as_str());
            m.append("' is not a valid prefix length");
            return Err(m);
        },
        Some(p) => p,
    };
    let max: u8 = match fam {
        IpFamily::V4 => 32,
        IpFamily::V6 => 128,
    };
    if prefix == 0 {
        return Err("Prefix /0 not allowed (would bypass everything)".to_owned());
    }
    if prefix > max {
        let mut m = "Prefix /".to_owned();
        m.append(decimal_text(prefix as u64).as_str());
        m.append(" out of range for ");
        m.append(
            match fam {
                IpFamily::V4 => "IPv4",
                IpFamily::V6 => "IPv6",
            },
        );
        m.append(" (max /");
        m.append(decimal_text(max as u64).as_str());
        m.append(")");
        return Err(m);
    }
    Ok(())
}

/// An enabled network is one of the list and not one of the disabled ones, and
/// disabling what is not in the list changes nothing.
pub proof fn law_enabled_is_the_difference(all: Seq<Seq<char>>, disabled: Seq<Seq<char>>)
    ensures
        forall|c: Seq<char>|
            #[trigger] enabled(all, disabled).contains(c) <==> all.contains(c)
                && !disabled.contains(c),
        (forall|c: Seq<char>| #[trigger] disabled.contains(c) ==> !all.contains(c)) ==> enabled(
            all,
            disabled,
        ) == all,
    decreases all.len(),
{
    reveal(Seq::filter);
    if all.len() > 0 {
        let rest = all.drop_last();
        law_enabled_is_the_difference(rest, disabled);
        let c0 = all.last();
        assert(all =~= rest.push(c0));
        assert(all.contains(c0)) by {
            assert(all[all.len() - 1] == c0);
        }
        assert forall|c: Seq<char>| #[trigger] enabled(all, disabled).contains(c) <==> all.contains(
            c,
        ) && !disabled.contains(c) by {
            let e = enabled(all, disabled);
            let r = enabled(rest, disabled);
            lemma_push_contains(rest, c0, c);
            if !disabled.contains(c0) {
                assert(e == r.push(c0));
                lemma_push_contains(r, c0, c);
            } else {
                assert(e == r);
            }
            assert(r.contains(c) <==> rest.contains(c) && !disabled.contains(c));
        }
        if forall|c: Seq<char>| #[trigger] disabled.contains(c) ==> !all.contains(c) {
            assert forall|c: Seq<char>| #[trigger] disabled.contains(c) implies !rest.contains(
                c,
            ) by {
                lemma_push_contains(rest, c0, c);
            }
            assert(!disabled.contains(c0));
        }
    }
}

proof fn lemma_push_contains(s: Seq<Seq<char>>, x: Seq<char>, c: Seq<char>)
    ensures
        s.push(x).contains(c) <==> s.contains(c) || c == x,
{
    let t = s.push(x);
    assert(t[s.len() as int] == x);
    if s.contains(c) {
        let i = choose|i: int| 0 <= i < s.len() && s[i] == c;
        assert(t[i] == c);
    }
    if t.contains(c) {
        let i = choose|i: int| 0 <= i < t.len() && t[i] == c;
        if i < s.len() {
            assert(s[i] == c);
        }
    }
}

/// Switching networks off keeps the order of the others, each as often as it
/// stands in the list.
pub proof fn law_enabled_keeps_the_order(
    first: Seq<Seq<char>>,
    second: Seq<Seq<char>>,
    disabled: Seq<Seq<char>>,
)
    ensures
        enabled(first + second, disabled) == enabled(first, disabled) + enabled(second, disabled),
        first.len() == 1 && !disabled.contains(first[0]) ==> enabled(first, disabled) == first,
        first.len() == 1 && disabled.contains(first[0]) ==> enabled(first, disabled).len() == 0,
    decreases second.len(),
{
    reveal(Seq::filter);
    if first.len() == 1 {
        assert(first.drop_last() =~= Seq::empty());
        assert(enabled(first.drop_last(), disabled) =~= Seq::empty());
        assert(first.last() == first[0]);
        assert(Seq::<Seq<char>>::empty().push(first[0]) =~= first);
    }
    if second.len() == 0 {
        assert(first + second =~= first);
        assert(enabled(first, disabled) + enabled(second, disabled) =~= enabled(first, disabled));
    } else {
        law_enabled_keeps_the_order(first, second.drop_last(), disabled);
        assert((first + second).drop_last() =~= first + second.drop_last());
        assert((first + second).last() == second.last());
        assert(enabled(first + second, disabled) =~= enabled(first, disabled) + enabled(
            second,
            disabled,
        ));
    }
}

/// Every network whose address is one stands in the list of its family, and in
/// no other; nothing else stands there.
pub proof fn law_networks_are_split_by_family(
    cidrs: Seq<Seq<char>>,
    families: Seq<Option<IpFamily>>,
    family: IpFamily,
    c: Seq<char>,
)
    requires
        cidrs.len() == families.len(),
    ensures
        of_family(cidrs, families, family).contains(c) <==> exists|i: int|
            0 <= i < cidrs.len() && #[trigger] cidrs[i] == c && families[i] == Some(family),
    decreases cidrs.len(),
{
    let all = of_family(cidrs, families, family);
    if cidrs.len() > 0 {
        let rest = cidrs.drop_last();
        let others = families.drop_last();
        let before = of_family(rest, others, family);
        law_networks_are_split_by_family(rest, others, family, c);
        lemma_push_contains(before, cidrs.last(), c);
        if before.contains(c) {
            let i = choose|i: int|
                0 <= i < rest.len() && #[trigger] rest[i] == c && others[i] == Some(family);
            assert(cidrs[i] == c && families[i] == Some(family));
        }
        if all.contains(c) && !before.contains(c) {
            assert(cidrs[cidrs.len() - 1] == c);
        }
        if exists|i: int|
            0 <= i < cidrs.len() && #[trigger] cidrs[i] == c && families[i] == Some(family) {
            let i = choose|i: int|
                0 <= i < cidrs.len() && #[trigger] cidrs[i] == c && families[i] == Some(family);
            if i < rest.len() {
                assert(rest[i] == c && others[i] == Some(family));
            }
        }
    }
}

/// The split keeps the order of the networks.
pub proof fn law_split_keeps_the_order(
    a: Seq<Seq<char>>,
    b: Seq<Seq<char>>,
    fa: Seq<Option<IpFamily>>,
    fb: Seq<Option<IpFamily>>,
    family: IpFamily,
)
    requires
        a.len() == fa.len(),
        b.len() == fb.len(),
    ensures
        of_family(a + b, fa + fb, family) == of_family(a, fa, family) + of_family(b, fb, family),
    decreases b.len(),
{
    if b.len() == 0 {
        assert(a + b =~= a);
        assert(fa + fb =~= fa);
        assert(of_family(a, fa, family) + of_family(b, fb, family) =~= of_family(a, fa, family));
    } else {
        law_split_keeps_the_order(a, b.drop_last(), fa, fb.drop_last(), family);
        assert((a + b).drop_last() =~= a + b.drop_last());
        assert((fa + fb).drop_last() =~= fa + fb.drop_last());
        assert(of_family(a + b, fa + fb, family) =~= of_family(a, fa, family) + of_family(
            b,
            fb,
            family,
        ));
    }
}

/// A network is split at its first slash.
pub proof fn law_network_is_split_at_the_slash(address: Seq<char>, prefix: Seq<char>)
    requires
        !address.contains('/'),
    ensures
        address_part(address + seq!['/'] + prefix) == address,
        prefix_part(address + seq!['/'] + prefix) == prefix,
        address_part(address) == address,
{
    let s = address + seq!['/'] + prefix;
    assert(s[address.len() as int] == '/');
    assert forall|j: int| 0 <= j < address.len() implies s[j] != '/' by {
        assert(address[j] == s[j]);
    }
    law_position_is_the_first(s, '/', address.len() as int);
    assert(s.take(address.len() as int) =~= address);
    assert(s.skip(address.len() as int + 1) =~= prefix);
    assert forall|j: int| 0 <= j < address.len() implies !is_char('/')(#[trigger] address[j]) by {
    }
    lemma_first_index(address, is_char('/'), address.len() as int);
    assert(address.take(address.len() as int) =~= address);
}

proof fn lemma_well_formed(
    address: Seq<char>,
    prefix: Seq<char>,
    digits: Seq<char>,
    family: Option<IpFamily>,
)
    requires
        !address.contains('/'),
        digits == number_digits(prefix),
    ensures
        syntax_fault(address + seq!['/'] + prefix, family) is None <==> {
            &&& address.len() > 0
            &&& family is Some
            &&& digits.len() > 0
            &&& all_digits(digits)
            &&& 1 <= digits_value(digits)
            &&& family == Some(IpFamily::V4) ==> digits_value(digits) <= 32
            &&& family == Some(IpFamily::V6) ==> digits_value(digits) <= 128
        },
{
    let input = address + seq!['/'] + prefix;
    law_network_is_split_at_the_slash(address, prefix);
    assert(input[address.len() as int] == '/');
    assert(input.contains('/'));
    if family is Some {
        let f = family->0;
        assert(f == IpFamily::V4 || f == IpFamily::V6);
    }
}

/// A network is well formed just when it has an address of some family before
/// its first slash and behind it, perhaps with a plus sign, the digits of a
/// number that is not zero and not above what the family allows.
pub proof fn law_which_networks_are_well_formed(
    address: Seq<char>,
    digits: Seq<char>,
    family: Option<IpFamily>,
)
    requires
        !address.contains('/'),
        digits.len() > 0 ==> digits[0] != '+',
    ensures
        syntax_fault(address + seq!['/'] + digits, family) is None <==> {
            &&& address.len() > 0
            &&& family is Some
            &&& digits.len() > 0
            &&& forall|i: int| 0 <= i < digits.len() ==> '0' <= #[trigger] digits[i] && digits[i]
                <= '9'
            &&& 1 <= digits_value(digits)
            &&& family == Some(IpFamily::V4) ==> digits_value(digits) <= 32
            &&& family == Some(IpFamily::V6) ==> digits_value(digits) <= 128
        },
        syntax_fault(address + seq!['/'] + (seq!['+'] + digits), family) is None <==> syntax_fault(
            address + seq!['/'] + digits,
            family,
        ) is None,
        syntax_fault(address, family) is Some,
{
    let signed = seq!['+'] + digits;
    assert(signed[0] == '+');
    assert(signed.skip(1) =~= digits);
    lemma_well_formed(address, digits, digits, family);
    lemma_well_formed(address, signed, digits, family);
    assert(all_digits(digits) <==> forall|i: int|
        0 <= i < digits.len() ==> '0' <= #[trigger] digits[i] && digits[i] <= '9');
}

/// A prefix length that is written as a plain numeral is accepted just when it
/// lies between one and the number of bits of the address.
pub proof fn law_prefix_lengths(address: Seq<char>, n: nat, family: IpFamily)
    requires
        address.len() > 0,
        !address.contains('/'),
    ensures
        syntax_fault(address + seq!['/'] + decimal(n), Some(family)) is None <==> 1 <= n <= (
        if family == IpFamily::V4 {
            32int
        } else {
            128int
        }),
{
    law_numeral_reads_back(n);
    assert(is_digit_spec(decimal(n)[0]));
    law_which_networks_are_well_formed(address, decimal(n), Some(family));
    assert(forall|i: int| 0 <= i < decimal(n).len() ==> is_digit_spec(#[trigger] decimal(n)[i]));
}

/// What is said of a malformed network names the part that is wrong.
pub proof fn law_faults_name_the_part(address: Seq<char>, prefix: Seq<char>, family: IpFamily)
    requires
        !address.contains('/'),
        address.len() > 0,
        prefix.len() > 0,
    ensures
        has_substring(
            syntax_fault(address + seq!['/'] + prefix, None)->0,
            "'"@ + address + "'"@,
        ),
        !is_byte_number(prefix) ==> has_substring(
            syntax_fault(address + seq!['/'] + prefix, Some(family))->0,
            "'"@ + prefix + "'"@,
        ),
{
    let input = address + seq!['/'] + prefix;
    assert(input[address.len() as int] == '/');
    law_network_is_split_at_the_slash(address, prefix);
    reveal_strlit("'");
    reveal_strlit("' is not a valid IP address");
    reveal_strlit("' is not a valid prefix length");
    let a = "'"@ + address + "'"@;
    let b = "'"@ + prefix + "'"@;
    let said = "'"@ + address + "' is not a valid IP address"@;
    let told = "'"@ + prefix + "' is not a valid prefix length"@;
    assert(said.subrange(0, 0int + a.len()) =~= a);
    assert(told.subrange(0, 0int + b.len()) =~= b);
    assert(occurs_at(said, a, 0));
    assert(occurs_at(told, b, 0));
}

} // verus!
