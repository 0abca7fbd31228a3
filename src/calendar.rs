//! Validity and text forms of dates, times of day and UTC offsets.
use vstd::prelude::*;
use crate::digits::{append_fixed, fixed_digits};
use crate::value::{CalendarDate, ClockTime, DateAndTime, OffsetDateTime};

verus! {

pub open spec fn is_leap_year(y: int) -> bool {
    y % 4 == 0 && (y % 100 != 0 || y % 400 == 0)
}

pub open spec fn days_in_month(y: int, m: int) -> int {
    if m == 2 {
        if is_leap_year(y) { 29 } else { 28 }
    } else if m == 4 || m == 6 || m == 9 || m == 11 {
        30
    } else {
        31
    }
}

/// A date that exists in the proleptic Gregorian calendar, with a four-digit year.
pub open spec fn date_valid(d: CalendarDate) -> bool {
    d.year <= 9999 && 1 <= d.month <= 12 && 1 <= d.day <= days_in_month(d.year as int, d.month as int)
}

/// A time of day without leap seconds.
pub open spec fn time_valid(t: ClockTime) -> bool {
    t.hour < 24 && t.minute < 60 && t.second < 60 && t.nanosecond < 1_000_000_000
}

pub open spec fn date_time_valid(dt: DateAndTime) -> bool {
    date_valid(dt.date) && time_valid(dt.time)
}

/// An offset of less than a day either way.
pub open spec fn offset_valid(m: int) -> bool {
    -1440 < m < 1440
}

pub open spec fn offset_date_time_valid(o: OffsetDateTime) -> bool {
    date_time_valid(o.local) && offset_valid(o.offset_minutes as int)
}

/// `YYYY-MM-DD`.
pub open spec fn date_text(d: CalendarDate) -> Seq<char> {
    fixed_digits(d.year as nat, 4) + seq!['-'] + fixed_digits(d.month as nat, 2) + seq!['-']
        + fixed_digits(d.day as nat, 2)
}

/// A dot and the first `digits` (3, 6 or 9) digits of the second's fraction; nothing for 0 digits.
pub open spec fn fraction_text(nanos: nat, digits: nat) -> Seq<char> {
    if digits == 3 {
        seq!['.'] + fixed_digits(nanos / 1_000_000, 3)
    } else if digits == 6 {
        seq!['.'] + fixed_digits(nanos / 1000, 6)
    } else if digits == 9 {
        seq!['.'] + fixed_digits(nanos, 9)
    } else {
        Seq::empty()
    }
}

/// `HH:MM:SS` followed by the fraction of `digits` digits.
pub open spec fn time_text(t: ClockTime, digits: nat) -> Seq<char> {
    fixed_digits(t.hour as nat, 2) + seq![':'] + fixed_digits(t.minute as nat, 2) + seq![':']
        + fixed_digits(t.second as nat, 2) + fraction_text(t.nanosecond as nat, digits)
}

/// `YYYY-MM-DDTHH:MM:SS` followed by the fraction of `digits` digits.
pub open spec fn date_time_text(dt: DateAndTime, digits: nat) -> Seq<char> {
    date_text(dt.date) + seq!['T'] + time_text(dt.time, digits)
}

/// The fewest of 0, 3, 6 or 9 fraction digits that show `nanos` exactly.
pub open spec fn auto_fraction_digits(nanos: nat) -> nat {
    if nanos == 0 {
        0
    } else if nanos % 1_000_000 == 0 {
        3
    } else if nanos % 1000 == 0 {
        6
    } else {
        9
    }
}

/// `+HH:MM` or `-HH:MM`.
pub open spec fn offset_text(m: int) -> Seq<char> {
    let a: nat = if m < 0 { (-m) as nat } else { m as nat };
    (if m < 0 { seq!['-'] } else { seq!['+'] }) + fixed_digits(a / 60, 2) + seq![':']
        + fixed_digits(a % 60, 2)
}

/// The RFC 3339 form: local date and time, the shortest exact fraction, and the offset.
pub open spec fn offset_date_time_text(o: OffsetDateTime) -> Seq<char> {
    date_time_text(o.local, auto_fraction_digits(o.local.time.nanosecond as nat)) + offset_text(
        o.offset_minutes as int,
    )
}

pub fn date_is_valid(d: &CalendarDate) -> (r: bool)
    ensures
        r == date_valid(*d),
{
    if d.year > 9999 || d.month < 1 || d.month > 12 || d.day < 1 {
        return false;
    }
    let y = d.year;
    let leap = y % 4 == 0 && (y % 100 != 0 || y % 400 == 0);
    let last: u8 = if d.month == 2 {
        if leap { 29 } else { 28 }
    } else if d.month == 4 || d.month == 6 || d.month == 9 || d.month == 11 {
        30
    } else {
        31
    };
    d.day <= last
}

pub fn time_is_valid(t: &ClockTime) -> (r: bool)
    ensures
        r == time_valid(*t),
{
    t.hour < 24 && t.minute < 60 && t.second < 60 && t.nanosecond < 1_000_000_000
}

pub fn append_date(out: &mut String, d: &CalendarDate)
    ensures
        final(out)@ == old(out)@ + date_text(*d),
{
    proof { reveal_strlit("-"); }
    append_fixed(out, d.year as u64, 4);
    out.append("-");
    append_fixed(out, d.month as u64, 2);
    out.append("-");
    append_fixed(out, d.day as u64, 2);
    assert(final(out)@ =~= old(out)@ + date_text(*d));
}

pub fn append_time(out: &mut String, t: &ClockTime, digits: u8)
    ensures
        final(out)@ == old(out)@ + time_text(*t, digits as nat),
{
    proof {
        reveal_strlit(":");
        reveal_strlit(".");
    }
    append_fixed(out, t.hour as u64, 2);
    out.append(":");
    append_fixed(out, t.minute as u64, 2);
    out.append(":");
    append_fixed(out, t.second as u64, 2);
    let n = t.nanosecond as u64;
    if digits == 3 {
        out.append(".");
        append_fixed(out, n / 1_000_000, 3);
    } else if digits == 6 {
        out.append(".");
        append_fixed(out, n / 1000, 6);
    } else if digits == 9 {
        out.append(".");
        append_fixed(out, n, 9);
    }
    assert(final(out)@ =~= old(out)@ + time_text(*t, digits as nat));
}

pub fn append_date_time(out: &mut String, dt: &DateAndTime, digits: u8)
    ensures
        final(out)@ == old(out)@ + date_time_text(*dt, digits as nat),
{
    proof { reveal_strlit("T"); }
    append_date(out, &dt.date);
    out.append("T");
    append_time(out, &dt.time, digits);
    assert(final(out)@ =~= old(out)@ + date_time_text(*dt, digits as nat));
}

pub fn append_offset_date_time(out: &mut String, o: &OffsetDateTime)
    ensures
        final(out)@ == old(out)@ + offset_date_time_text(*o),
{
    proof {
        reveal_strlit("-");
        reveal_strlit("+");
        reveal_strlit(":");
    }
    let n = o.local.time.nanosecond;
    let digits: u8 = if n == 0 {
        0
    } else if n % 1_000_000 == 0 {
        3
    } else if n % 1000 == 0 {
        6
    } else {
        9
    };
    append_date_time(out, &o.local, digits);
    let m = o.offset_minutes;
    let a: u64 = if m < 0 { (-(m as i32)) as u64 } else { m as u64 };
    if m < 0 {
        out.append("-");
    } else {
        out.append("+");
    }
    append_fixed(out, a / 60, 2);
    out.append(":");
    append_fixed(out, a % 60, 2);
    assert(final(out)@ =~= old(out)@ + offset_date_time_text(*o));
}

} // verus!
