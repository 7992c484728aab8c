//! Civil dates from day counts and the date/time texts written into files.

use vstd::prelude::*;
use crate::text::{push_char, push_zero_padded, zero_padded};

verus! {

/// Largest day count for which the civil-date arithmetic stays within `i64`.
pub open spec fn max_day_count() -> int {
    2305843009212974788
}

/// Year, month and day that this module's formula gives for day number `days`: the
/// calendar date `days - 305` days after 1970-01-01 (day 0 gives 1969-03-02), with the
/// year counted from March, so that in January and February the year is one less than
/// the calendar year.
#[verifier::opaque]
pub open spec fn civil_from_days(days: int) -> (int, int, int) {
    let j = days + 719163;
    let a = (4 * j + 3) / 146097;
    let b = j - (146097 * a) / 4;
    let c = (4 * b + 3) / 1461;
    let d = b - (1461 * c) / 4;
    let e = (5 * d + 2) / 153;
    let day = d - (153 * e + 2) / 5 + 1;
    let month = (e + 2) % 12 + 1;
    let year = 100 * a + c;
    (year, month, day)
}

/// `(year, month, day)` of day number `days` (see [`civil_from_days`]: day 0 is
/// 1969-03-02); the year is truncated to 32 bits.
pub fn days_to_ymd(days: u64) -> (r: (u32, u32, u32))
    requires
        days <= max_day_count(),
    ensures
        r.0 == civil_from_days(days as int).0 as u32,
        r.1 == civil_from_days(days as int).1,
        r.2 == civil_from_days(days as int).2,
        1 <= r.1 <= 12,
        1 <= r.2 <= 31,
{
    reveal(civil_from_days);
    let j: u64 = days + 719163;
    let a: u64 = (4 * j + 3) / 146097;
    assert(146097 * a <= 4 * j + 3);
    let b: u64 = j - (146097 * a) / 4;
    assert(4 * b + 3 < 146097 * 4);
    let c: u64 = (4 * b + 3) / 1461;
    assert(1461 * c <= 4 * b + 3);
    let d: u64 = b - (1461 * c) / 4;
    assert(d <= 365);
    let e: u64 = (5 * d + 2) / 153;
    assert(153 * e <= 5 * d + 2 && 5 * d + 2 < 153 * e + 153);
    let day: u64 = d - (153 * e + 2) / 5 + 1;
    assert(1 <= day <= 31);
    let month: u64 = (e + 2) % 12 + 1;
    let year: u64 = 100 * a + c;
    (year as u32, month as u32, day as u32)
}

/// `YYYY-MM-DDTHH:MM:SSZ` for `secs` seconds: the date of day number `secs / 86400`
/// (see [`civil_from_days`]: second 0 falls on 1969-03-02) and the time of day.
pub open spec fn iso8601_text(secs: nat) -> Seq<char> {
    let ymd = civil_from_days((secs / 86400) as int);
    zero_padded((ymd.0 as u32) as nat, 4) + seq!['-'] + zero_padded(ymd.1 as nat, 2) + seq!['-']
        + zero_padded(ymd.2 as nat, 2) + seq!['T'] + zero_padded(((secs / 3600) % 24) as nat, 2)
        + seq![':'] + zero_padded(((secs / 60) % 60) as nat, 2) + seq![':'] + zero_padded(
        (secs % 60) as nat,
        2,
    ) + seq!['Z']
}

/// `DD/MM/YYYY` of day number `secs / 86400` (see [`civil_from_days`]), the MoTeC header
/// date.
pub open spec fn ld_date_text(secs: nat) -> Seq<char> {
    let ymd = civil_from_days((secs / 86400) as int);
    zero_padded(ymd.2 as nat, 2) + seq!['/'] + zero_padded(ymd.1 as nat, 2) + seq!['/']
        + zero_padded((ymd.0 as u32) as nat, 4)
}

/// `HH:MM:SS`, the time of day of `secs` seconds (the MoTeC header time).
pub open spec fn ld_time_text(secs: nat) -> Seq<char> {
    zero_padded(((secs / 3600) % 24) as nat, 2) + seq![':'] + zero_padded(
        ((secs / 60) % 60) as nat,
        2,
    ) + seq![':'] + zero_padded((secs % 60) as nat, 2)
}

/// The `YYYY-MM-DDTHH:MM:SSZ` text of `secs` seconds (see [`iso8601_text`]: second 0 gives
/// 1969-03-02T00:00:00Z).
pub fn format_iso8601(secs: u64) -> (r: String)
    ensures
        r@ == iso8601_text(secs as nat),
{
    let (y, m, d) = days_to_ymd(secs / 86400);
    let mut out = String::new();
    push_zero_padded(&mut out, y as u64, 4);
    push_char(&mut out, '-');
    push_zero_padded(&mut out, m as u64, 2);
    push_char(&mut out, '-');
    push_zero_padded(&mut out, d as u64, 2);
    push_char(&mut out, 'T');
    push_zero_padded(&mut out, (secs / 3600) % 24, 2);
    push_char(&mut out, ':');
    push_zero_padded(&mut out, (secs / 60) % 60, 2);
    push_char(&mut out, ':');
    push_zero_padded(&mut out, secs % 60, 2);
    push_char(&mut out, 'Z');
    assert(out@ =~= iso8601_text(secs as nat));
    out
}

/// The `DD/MM/YYYY` date of `secs` seconds (see [`ld_date_text`]).
pub fn ld_date(secs: u64) -> (r: String)
    ensures
        r@ == ld_date_text(secs as nat),
{
    let (y, m, d) = days_to_ymd(secs / 86400);
    let mut out = String::new();
    push_zero_padded(&mut out, d as u64, 2);
    push_char(&mut out, '/');
    push_zero_padded(&mut out, m as u64, 2);
    push_char(&mut out, '/');
    push_zero_padded(&mut out, y as u64, 4);
    assert(out@ =~= ld_date_text(secs as nat));
    out
}

/// The `HH:MM:SS` time of day of `secs` seconds.
pub fn ld_time(secs: u64) -> (r: String)
    ensures
        r@ == ld_time_text(secs as nat),
{
    let mut out = String::new();
    push_zero_padded(&mut out, (secs / 3600) % 24, 2);
    push_char(&mut out, ':');
    push_zero_padded(&mut out, (secs / 60) % 60, 2);
    push_char(&mut out, ':');
    push_zero_padded(&mut out, secs % 60, 2);
    assert(out@ =~= ld_time_text(secs as nat));
    out
}

} // verus!
