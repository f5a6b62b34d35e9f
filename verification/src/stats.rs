//! The statistics window: what its rows say, and when it closes.
use vstd::prelude::*;
use vstd::string::*;

use crate::clock::Moment;
use crate::text::{decimal, decimal_text};
use crate::tray::{SessionInfo, VpnTray, FALLBACK_NAME};

verus! {

pub open spec fn duration_text(secs: nat) -> Seq<char> {
    if secs < 60 {
        decimal(secs) + "s"@
    } else if secs < 3600 {
        decimal(secs / 60) + "m "@ + decimal(secs % 60) + "s"@
    } else {
        decimal(secs / 3600) + "h "@ + decimal(secs % 3600 / 60) + "m "@ + decimal(secs % 60)
            + "s"@
    }
}

/// A duration in hours, minutes and seconds, without leading units that are
/// zero.
pub fn format_duration(secs: u64) -> (r: String)
    ensures
        r@ == duration_text(secs as nat),
{
    let mut out: String;
    if secs < 60 {
        out = decimal_text(secs);
    } else if secs < 3600 {
        out = decimal_text(secs / 60);
        out.append("m ");
        out.append(decimal_text(secs % 60).as_str());
    } else {
        out = decimal_text(secs / 3600);
        out.append("h ");
        out.append(decimal_text(secs % 3600 / 60).as_str());
        out.append("m ");
        out.append(decimal_text(secs % 60).as_str());
    }
    out.append("s");
    out
}

/// The unit in which a number of bytes is shown.
#[derive(Clone, Copy, Debug, PartialEq, Eq, Structural)]
pub enum ByteUnit {
    Bytes,
    Kilobytes,
    Megabytes,
    Gigabytes,
}

pub open spec fn unit_size(unit: ByteUnit) -> nat {
    match unit {
        ByteUnit::Bytes => 1,
        ByteUnit::Kilobytes => 1024,
        ByteUnit::Megabytes => 1024 * 1024,
        ByteUnit::Gigabytes => 1024 * 1024 * 1024,
    }
}

/// The largest unit of which there is at least one.
pub open spec fn unit_of(bytes: nat) -> ByteUnit {
    if bytes < unit_size(ByteUnit::Kilobytes) {
        ByteUnit::Bytes
    } else if bytes < unit_size(ByteUnit::Megabytes) {
        ByteUnit::Kilobytes
    } else if bytes < unit_size(ByteUnit::Gigabytes) {
        ByteUnit::Megabytes
    } else {
        ByteUnit::Gigabytes
    }
}

/// The unit in which a number of bytes is shown: the largest one of which
/// there is at least one.
pub fn byte_unit(bytes: u64) -> (r: ByteUnit)
    ensures
        r == unit_of(bytes as nat),
{
    if bytes < 1024 {
        ByteUnit::Bytes
    } else if bytes < 1024 * 1024 {
        ByteUnit::Kilobytes
    } else if bytes < 1024 * 1024 * 1024 {
        ByteUnit::Megabytes
    } else {
        ByteUnit::Gigabytes
    }
}

/// The quotient rounded to a whole number; halves go to the even neighbour.
pub open spec fn nearest(n: nat, d: nat) -> nat
    recommends
        d > 0,
{
    let q = n / d;
    let twice = 2 * (n % d);
    if twice > d || twice == d && q % 2 == 1 {
        q + 1
    } else {
        q
    }
}

fn nearest_of(n: u128, d: u128) -> (r: u128)
    requires
        0 < d <= 0x1_0000_0000,
        n <= 0xff_ffff_ffff_ffff_ffff,
    ensures
        r == nearest(n as nat, d as nat),
        d == 1 ==> r == n,
{
    let q: u128 = n / d;
    let rest: u128 = n % d;
    if 2 * rest > d || 2 * rest == d && q % 2 == 1 {
        q + 1
    } else {
        q
    }
}

/// How far apart the numbers of double precision are near `b`.
pub open spec fn spacing(b: nat) -> nat
    decreases b,
{
    if b < 0x20_0000_0000_0000 {
        1
    } else {
        2 * spacing(b / 2)
    }
}

/// The number of double precision that is nearest to `b`.
pub open spec fn double_of(b: nat) -> nat {
    nearest(b, spacing(b)) * spacing(b)
}

proof fn lemma_nearest_bound(n: nat, d: nat)
    requires
        d > 0,
    ensures
        nearest(n, d) * d <= n + d,
{
    let q = n / d;
    assert(q * d <= n) by (nonlinear_arith)
        requires
            q == n / d,
            d > 0,
    ;
    assert((q + 1) * d == q * d + d) by (nonlinear_arith);
}

/// The number of double precision that is nearest to `b`.
fn nearest_double(b: u64) -> (r: u128)
    ensures
        r == double_of(b as nat),
        r <= 0x2_0000_0000_0000_0000,
{
    let mut d: u128 = 1;
    let mut rest: u64 = b;
    while rest >= 0x20_0000_0000_0000
        invariant
            d * spacing(rest as nat) == spacing(b as nat),
            1 <= d,
            rest * d <= b,
            rest >= 0x10_0000_0000_0000 || d == 1,
        decreases rest,
    {
        assert(d <= 0x800) by (nonlinear_arith)
            requires
                rest * d <= b,
                rest >= 0x20_0000_0000_0000,
                b <= 0xffff_ffff_ffff_ffff,
                d >= 1,
        ;
        let half: u64 = rest / 2;
        assert(spacing(rest as nat) == 2 * spacing(half as nat));
        assert((d * 2) * spacing(half as nat) == d * spacing(rest as nat)) by (nonlinear_arith)
            requires
                spacing(rest as nat) == 2 * spacing(half as nat),
        ;
        assert(half * (d * 2) <= rest * d) by (nonlinear_arith)
            requires
                half * 2 <= rest,
                d >= 1,
        ;
        rest = half;
        d = d * 2;
    }
    assert(d <= 0x1000) by (nonlinear_arith)
        requires
            rest * d <= b,
            rest >= 0x10_0000_0000_0000 || d == 1,
            b <= 0xffff_ffff_ffff_ffff,
            d >= 1,
    ;
    assert(spacing(rest as nat) == 1);
    assert(d == spacing(b as nat));
    let m = nearest_of(b as u128, d);
    proof {
        lemma_nearest_bound(b as nat, d as nat);
    }
    m * d
}

pub open spec fn unit_name(unit: ByteUnit) -> Seq<char> {
    match unit {
        ByteUnit::Bytes => " B"@,
        ByteUnit::Kilobytes => " KB"@,
        ByteUnit::Megabytes => " MB"@,
        ByteUnit::Gigabytes => " GB"@,
    }
}

/// A number of bytes in its unit, with one decimal place: the number of double
/// precision nearest to it, rounded to tenths of the unit.
pub open spec fn bytes_text(bytes: nat) -> Seq<char> {
    let unit = unit_of(bytes);
    if unit == ByteUnit::Bytes {
        decimal(bytes) + unit_name(unit)
    } else {
        let tenths = nearest(10 * double_of(bytes), unit_size(unit));
        decimal(tenths / 10) + "."@ + decimal(tenths % 10) + unit_name(unit)
    }
}

/// A number of bytes in its unit, with one decimal place.
pub fn format_bytes(bytes: u64) -> (r: String)
    ensures
        r@ == bytes_text(bytes as nat),
{
    let (size, name): (u128, &str) = match byte_unit(bytes) {
        ByteUnit::Bytes => {
            let mut out = decimal_text(bytes);
            out.append(" B");
            return out;
        },
        ByteUnit::Kilobytes => (1024, " KB"),
        ByteUnit::Megabytes => (1024 * 1024, " MB"),
        ByteUnit::Gigabytes => (1024 * 1024 * 1024, " GB"),
    };
    let n: u128 = nearest_double(bytes) * 10;
    let tenths: u128 = nearest_of(n, size);
    proof {
        lemma_tenths_bound(n as nat, size as nat);
    }
    let tenths: u64 = tenths as u64;
    let mut out = decimal_text(tenths / 10);
    out.append(".");
    out.append(decimal_text(tenths % 10).as_str());
    out.append(name);
    out
}

proof fn lemma_tenths_bound(n: nat, d: nat)
    requires
        d >= 1024,
        n <= 0x14_0000_0000_0000_0000,
    ensures
        nearest(n, d) <= 0xffff_ffff_ffff_ffff,
{
    assert(n / d <= n / 1024) by (nonlinear_arith)
        requires
            d >= 1024,
    ;
}

/// What the rows of the window say.
#[derive(Debug)]
pub struct StatsRows {
    pub status: String,
    pub since: String,
    pub duration: String,
    pub interface: String,
    pub bytes_in: String,
    pub bytes_out: String,
}

/// What a row without a value says.
pub const NO_VALUE: &'static str = "—";

pub open spec fn text_or_dash(t: Option<String>) -> Seq<char> {
    match t {
        Some(s) => s@,
        None => NO_VALUE@,
    }
}

fn or_dash(t: &Option<String>) -> (r: String)
    ensures
        r@ == text_or_dash(*t),
{
    match t {
        Some(s) => s.clone(),
        None => NO_VALUE.to_owned(),
    }
}

/// The rows are those of a session, or of none.
pub open spec fn are_rows_of(
    rows: StatsRows,
    session: Option<SessionInfo>,
    description: Seq<char>,
    since: Option<String>,
    device_name: Option<String>,
    now: Moment,
) -> bool {
    &&& rows.interface@ == text_or_dash(device_name)
    &&& match session {
        Some(s) => {
            &&& rows.status@ == description
            &&& rows.bytes_in@ == bytes_text(s.bytes_in as nat)
            &&& rows.bytes_out@ == bytes_text(s.bytes_out as nat)
            &&& match s.connected_at {
                Some(t) => rows.since@ == text_or_dash(since) && rows.duration@ == duration_text(
                    now.secs_since(t),
                ),
                None => rows.since@ == NO_VALUE@ && rows.duration@ == NO_VALUE@,
            }
        },
        None => {
            &&& rows.status@ == "Unknown"@
            &&& rows.since@ == NO_VALUE@
            &&& rows.duration@ == NO_VALUE@
            &&& rows.bytes_in@ == bytes_text(0)
            &&& rows.bytes_out@ == bytes_text(0)
        },
    }
}

/// What the rows say. `description` describes the session's status, and `since`
/// is the time of day at which it connected, if it can be told.
pub fn refresh_rows(
    session: Option<&SessionInfo>,
    description: &str,
    since: &Option<String>,
    device_name: &Option<String>,
    now: Moment,
) -> (r: StatsRows)
    ensures
        r.interface@ == text_or_dash(*device_name),
        match session {
            Some(s) => {
                &&& r.status@ == description@
                &&& r.bytes_in@ == bytes_text(s.bytes_in as nat)
                &&& r.bytes_out@ == bytes_text(s.bytes_out as nat)
                &&& match s.connected_at {
                    Some(t) => r.since@ == text_or_dash(*since) && r.duration@ == duration_text(
                        now.secs_since(t),
                    ),
                    None => r.since@ == NO_VALUE@ && r.duration@ == NO_VALUE@,
                }
            },
            None => {
                &&& r.status@ == "Unknown"@
                &&& r.since@ == NO_VALUE@
                &&& r.duration@ == NO_VALUE@
                &&& r.bytes_in@ == bytes_text(0)
                &&& r.bytes_out@ == bytes_text(0)
            },
        },
        are_rows_of(
            r,
            match session {
                Some(s) => Some(*s),
                None => None,
            },
            description@,
            *since,
            *device_name,
            now,
        ),
{
    let interface = or_dash(device_name);
    match session {
        Some(s) => {
            let (since_text, duration) = match &s.connected_at {
                Some(t) => (or_dash(since), format_duration(now.seconds_since(t))),
                None => (NO_VALUE.to_owned(), NO_VALUE.to_owned()),
            };
            StatsRows {
                status: description.to_owned(),
                since: since_text,
                duration,
                interface,
                bytes_in: format_bytes(s.bytes_in),
                bytes_out: format_bytes(s.bytes_out),
            }
        },
        None => StatsRows {
            status: "Unknown".to_owned(),
            since: NO_VALUE.to_owned(),
            duration: NO_VALUE.to_owned(),
            interface,
            bytes_in: format_bytes(0),
            bytes_out: format_bytes(0),
        },
    }
}

/// The window's title.
pub fn stats_title(tray: &VpnTray, path: &str) -> (r: String)
    ensures
        r@ == "Statistics — "@ + (if tray@.sessions.contains_key(path@) {
            tray@.sessions[path@].config_name
        } else {
            FALLBACK_NAME@
        }),
{
    let mut out = "Statistics — ".to_owned();
    match tray.session(path) {
        Some(s) => {
            out.append(s.config_name.as_str());
        },
        None => {
            out.append(FALLBACK_NAME);
        },
    }
    out
}

/// Whether the window closes: its session is gone, disconnected or failed.
pub fn stats_are_over(tray: &VpnTray, path: &str) -> (r: bool)
    ensures
        r == (!tray@.sessions.contains_key(path@) || tray@.sessions[path@].status.disconnected()
            || tray@.sessions[path@].status.error()),
{
    match tray.session(path) {
        Some(s) => s.status.is_disconnected() || s.status.is_error(),
        None => true,
    }
}

/// Takes in the name of the tunnel's device, once it is known.
pub fn learn_device_name(known: &mut Option<String>, found: Option<String>)
    ensures
        *final(known) == (if *old(known) is None && found is Some && found->0@.len() > 0 {
            found
        } else {
            *old(known)
        }),
{
    if known.is_none() {
        match found {
            Some(name) => if !name.as_str().is_empty() {
                *known = Some(name);
            },
            None => {},
        }
    }
}

/// A duration is shown in hours, minutes and seconds, with no leading unit of
/// which there is none.
pub proof fn law_duration_by_its_parts(h: nat, m: nat, s: nat)
    requires
        m < 60,
        s < 60,
    ensures
        h > 0 ==> duration_text(3600 * h + 60 * m + s) == decimal(h) + "h "@ + decimal(m) + "m "@
            + decimal(s) + "s"@,
        m > 0 ==> duration_text(60 * m + s) == decimal(m) + "m "@ + decimal(s) + "s"@,
        duration_text(s) == decimal(s) + "s"@,
{
    let n = 3600 * h + 60 * m + s;
    assert(n / 3600 == h);
    assert(n % 3600 == 60 * m + s);
    assert(n % 3600 / 60 == m);
    assert(n % 60 == s);
    let k = 60 * m + s;
    assert(k / 60 == m && k % 60 == s);
}

/// A number of bytes is shown in the largest unit of which there is at least
/// one; units differ by a factor of 1024.
pub proof fn law_unit_of_a_number_of_bytes(bytes: nat)
    ensures
        unit_of(bytes) == ByteUnit::Bytes <==> bytes < 1024,
        unit_of(bytes) == ByteUnit::Kilobytes <==> 1024 <= bytes < 1_048_576,
        unit_of(bytes) == ByteUnit::Megabytes <==> 1_048_576 <= bytes < 1_073_741_824,
        unit_of(bytes) == ByteUnit::Gigabytes <==> bytes >= 1_073_741_824,
        bytes > 0 ==> unit_size(unit_of(bytes)) <= bytes,
        unit_of(bytes) != ByteUnit::Gigabytes ==> bytes < 1024 * unit_size(unit_of(bytes)),
{
}

/// Rounding a quotient is off by half at most, and halves go to the even
/// neighbour.
pub proof fn law_rounding_is_off_by_half_at_most(n: nat, d: nat)
    requires
        d > 0,
    ensures
        2 * (n - nearest(n, d) * d) <= d,
        2 * (nearest(n, d) * d - n) <= d,
        2 * (n % d) == d ==> nearest(n, d) % 2 == 0,
        n % d == 0 ==> nearest(n, d) * d == n,
{
    let q = n / d;
    let rest = n % d;
    assert(n == q * d + rest && rest < d) by (nonlinear_arith)
        requires
            q == n / d,
            rest == n % d,
            d > 0,
    ;
    assert((q + 1) * d == q * d + d) by (nonlinear_arith);
}

/// A number of bytes below two to the fifty-third is a number of double
/// precision itself.
pub proof fn law_small_numbers_are_exact(bytes: nat)
    requires
        bytes < 0x20_0000_0000_0000,
    ensures
        double_of(bytes) == bytes,
{
    assert(bytes / 1 == bytes && bytes % 1 == 0);
    assert(nearest(bytes, 1) * 1 == nearest(bytes, 1));
}

/// Beyond that the numbers of double precision lie as far apart as fifty-three
/// binary places allow, and the nearest one is off by half of that at most.
pub proof fn law_large_numbers_are_rounded(bytes: nat)
    requires
        bytes >= 0x20_0000_0000_0000,
    ensures
        spacing(bytes) >= 2,
        spacing(bytes) * 0x10_0000_0000_0000 <= bytes,
        bytes < spacing(bytes) * 0x20_0000_0000_0000,
        2 * (bytes - double_of(bytes)) <= spacing(bytes),
        2 * (double_of(bytes) - bytes) <= spacing(bytes),
    decreases bytes,
{
    lemma_spacing(bytes);
    law_rounding_is_off_by_half_at_most(bytes, spacing(bytes));
}

proof fn lemma_spacing(b: nat)
    ensures
        spacing(b) >= 1,
        b >= 0x20_0000_0000_0000 ==> spacing(b) >= 2,
        b >= 0x20_0000_0000_0000 ==> spacing(b) * 0x10_0000_0000_0000 <= b,
        b < spacing(b) * 0x20_0000_0000_0000,
    decreases b,
{
    if b >= 0x20_0000_0000_0000 {
        lemma_spacing(b / 2);
    }
}

/// Below one unit of a thousand bytes the number itself is shown; from there
/// on it is shown with one decimal place that is off by half a tenth at most.
pub proof fn law_bytes_are_shown_to_the_tenth(bytes: nat)
    ensures
        bytes < 1024 ==> bytes_text(bytes) == decimal(bytes) + " B"@,
        1024 <= bytes < 0x20_0000_0000_0000 ==> exists|t: nat|
            bytes_text(bytes) == #[trigger] decimal(t / 10) + "."@ + decimal(t % 10) + unit_name(
                unit_of(bytes),
            ) && 2 * (10 * bytes - t * unit_size(unit_of(bytes))) <= unit_size(unit_of(bytes)) && 2
                * (t * unit_size(unit_of(bytes)) - 10 * bytes) <= unit_size(unit_of(bytes)),
{
    if 1024 <= bytes < 0x20_0000_0000_0000 {
        law_small_numbers_are_exact(bytes);
        let size = unit_size(unit_of(bytes));
        law_rounding_is_off_by_half_at_most(10 * bytes, size);
        let t = nearest(10 * bytes, size);
        assert(bytes_text(bytes) == decimal(t / 10) + "."@ + decimal(t % 10) + unit_name(
            unit_of(bytes),
        ));
    }
}

/// The names of the units.
pub proof fn law_names_of_the_units(unit: ByteUnit)
    ensures
        unit == ByteUnit::Bytes ==> unit_name(unit) == " B"@,
        unit == ByteUnit::Kilobytes ==> unit_name(unit) == " KB"@,
        unit == ByteUnit::Megabytes ==> unit_name(unit) == " MB"@,
        unit == ByteUnit::Gigabytes ==> unit_name(unit) == " GB"@,
{
}

/// A row without a value shows a dash, any other its value.
pub proof fn law_rows_without_a_value(t: Option<String>)
    ensures
        t matches Some(s) ==> text_or_dash(t) == s@,
        t is None ==> text_or_dash(t) == "—"@,
{
}

/// The rows show the counters of the session each in its own row, and a
/// duration just when the session has been connected, counted from then on; a
/// session that is not known has transferred nothing.
pub proof fn law_rows_show_the_session(
    rows: StatsRows,
    session: Option<SessionInfo>,
    description: Seq<char>,
    since: Option<String>,
    device_name: Option<String>,
    now: Moment,
)
    requires
        are_rows_of(rows, session, description, since, device_name, now),
    ensures
        session matches Some(s) ==> {
            &&& rows.status@ == description
            &&& rows.bytes_in@ == bytes_text(s.bytes_in as nat)
            &&& rows.bytes_out@ == bytes_text(s.bytes_out as nat)
            &&& s.connected_at matches Some(t) ==> rows.duration@ == duration_text(
                now.secs_since(t),
            )
            &&& s.connected_at is None ==> rows.duration@ == "—"@ && rows.since@ == "—"@
            &&& s.connected_at is Some && since is Some ==> rows.since@ == since->0@
        },
        session is None ==> rows.status@ == "Unknown"@ && rows.bytes_in@ == rows.bytes_out@
            && rows.duration@ == rows.since@,
        device_name is Some ==> rows.interface@ == device_name->0@,
        device_name is None ==> rows.interface@ == "—"@,
{
}

} // verus!
