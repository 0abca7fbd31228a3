//! The text form of a typed value, with width-based truncation.
use vstd::prelude::*;
use crate::calendar::{
    append_date, append_date_time, append_offset_date_time, append_time, date_is_valid, date_text,
    date_time_text, date_time_valid, date_valid, offset_date_time_text, offset_date_time_valid, time_is_valid, time_text, time_valid,
};
use crate::digits::{append_hex_pair, append_int, hex_pair, int_text};
use crate::value::{
    CalendarDate, ClockTime, DateAndTime, Decimal, FloatText, Guid, OffsetDateTime, TypedValue,
};

verus! {

pub open spec fn null_text() -> Seq<char> {
    seq!['n', 'u', 'l', 'l']
}

pub open spec fn ellipsis() -> Seq<char> {
    seq!['.', '.', '.']
}

pub open spec fn bool_text(b: bool) -> Seq<char> {
    if b {
        seq!['t', 'r', 'u', 'e']
    } else {
        seq!['f', 'a', 'l', 's', 'e']
    }
}

/// Text longer than the width less two is cut to the width less three and
/// ends in `...`; widths below three keep no characters.
pub open spec fn truncated_text(s: Seq<char>, max_width: Option<usize>) -> Seq<char> {
    match max_width {
        None => s,
        Some(w) => {
            let limit: int = if w >= 2 { w - 2 } else { 0 };
            let keep: int = if w >= 3 { w - 3 } else { 0 };
            if s.len() > limit {
                s.subrange(0, keep) + ellipsis()
            } else {
                s
            }
        },
    }
}

/// Two hex digits for each byte, in order.
pub open spec fn hex_text(b: Seq<u8>) -> Seq<char>
    decreases b.len(),
{
    if b.len() == 0 {
        Seq::empty()
    } else {
        hex_text(b.drop_last()) + hex_pair(b.last())
    }
}

/// More bytes than the width: the first `width / 2 - 2` of them (none below
/// a width of four) in hex, then `...`.
pub open spec fn binary_text(b: Seq<u8>, max_width: Option<usize>) -> Seq<char> {
    match max_width {
        None => hex_text(b),
        Some(w) => {
            let keep: int = if w / 2 >= 2 { w / 2 - 2 } else { 0 };
            if b.len() > w {
                hex_text(b.subrange(0, keep)) + ellipsis()
            } else {
                hex_text(b)
            }
        },
    }
}

/// The hyphenated form `xxxxxxxx-xxxx-xxxx-xxxx-xxxxxxxxxxxx`.
pub open spec fn guid_text(b: Seq<u8>) -> Seq<char> {
    hex_text(b.subrange(0, 4)) + seq!['-'] + hex_text(b.subrange(4, 6)) + seq!['-'] + hex_text(
        b.subrange(6, 8),
    ) + seq!['-'] + hex_text(b.subrange(8, 10)) + seq!['-'] + hex_text(b.subrange(10, 16))
}

/// What tiberius's `Numeric` prints for `value` at `scale`.
pub uninterp spec fn numeric_text(value: i128, scale: u8) -> Seq<char>;

/// A decimal's text; a scale beyond 37 digits cannot be read and shows as `null`.
pub open spec fn decimal_text(d: Decimal) -> Seq<char> {
    if d.scale < 38 {
        numeric_text(d.value, d.scale)
    } else {
        null_text()
    }
}

/// Relies on tiberius's `Numeric::new_with_scale` (which asserts a scale below 38)
/// and its `Display`: the same value and scale always print the same text.
#[verifier::external_body]
fn numeric_to_string(value: i128, scale: u8) -> (r: String)
    requires
        scale < 38,
    ensures
        r@ == numeric_text(value, scale),
{
    tiberius::numeric::Numeric::new_with_scale(value, scale).to_string()
}

pub open spec fn date_or_null(valid: bool, text: Seq<char>) -> Seq<char> {
    if valid {
        text
    } else {
        null_text()
    }
}

/// The text form of `v` under an optional width.
pub open spec fn rendered(v: TypedValue, max_width: Option<usize>) -> Seq<char> {
    match v {
        TypedValue::UInt8(Some(x)) => int_text(x as int),
        TypedValue::Int16(Some(x)) => int_text(x as int),
        TypedValue::Int32(Some(x)) => int_text(x as int),
        TypedValue::Int64(Some(x)) => int_text(x as int),
        TypedValue::Float32(Some(f)) => f.display@,
        TypedValue::Float64(Some(f)) => f.display@,
        TypedValue::Bool(Some(b)) => bool_text(b),
        TypedValue::String(Some(s)) => truncated_text(s@, max_width),
        TypedValue::Guid(Some(g)) => guid_text(g.bytes@),
        TypedValue::Binary(Some(b)) => binary_text(b@, max_width),
        TypedValue::Decimal(Some(d)) => decimal_text(d),
        TypedValue::Xml(Some(x)) => truncated_text(x@, max_width),
        TypedValue::DateTime(Some(d)) => date_or_null(date_time_valid(d), date_time_text(d, 3)),
        TypedValue::SmallDateTime(Some(d)) => date_or_null(date_time_valid(d), date_time_text(d, 0)),
        TypedValue::Time(Some(t)) => date_or_null(time_valid(t), time_text(t, 3)),
        TypedValue::Date(Some(d)) => date_or_null(date_valid(d), date_text(d)),
        TypedValue::DateTime2(Some(d)) => date_or_null(date_time_valid(d), date_time_text(d, 6)),
        TypedValue::DateTimeOffset(Some(o)) => date_or_null(
            offset_date_time_valid(o),
            offset_date_time_text(o),
        ),
        _ => null_text(),
    }
}

/// `null`, the text of every absent payload.
pub fn fmt_null() -> (r: String)
    ensures
        r@ == null_text(),
{
    proof { reveal_strlit("null"); }
    String::from_str("null")
}

/// An integer payload in decimal, or `null`.
pub fn fmt_std(val: Option<i64>) -> (r: String)
    ensures
        r@ == match val {
            Some(i) => int_text(i as int),
            None => null_text(),
        },
{
    match val {
        Some(i) => {
            let mut out = String::new();
            append_int(&mut out, i);
            out
        },
        None => fmt_null(),
    }
}

/// A text payload, truncated to the width, or `null`.
pub fn fmt_str(s: &Option<String>, max_width: Option<usize>) -> (r: String)
    ensures
        r@ == match s {
            Some(s) => truncated_text(s@, max_width),
            None => null_text(),
        },
{
    match s {
        None => fmt_null(),
        Some(s) => {
            let text = s.as_str();
            match max_width {
                None => String::from_str(text),
                Some(w) => {
                    let n = text.unicode_len();
                    let limit: usize = if w >= 2 { w - 2 } else { 0 };
                    let keep: usize = if w >= 3 { w - 3 } else { 0 };
                    if n > limit {
                        proof { reveal_strlit("..."); }
                        let mut out = String::from_str(text.substring_char(0, keep));
                        out.append("...");
                        out
                    } else {
                        String::from_str(text)
                    }
                },
            }
        },
    }
}

/// An XML payload as its text, truncated like any text, or `null`.
pub fn fmt_xml(x: &Option<String>, max_width: Option<usize>) -> (r: String)
    ensures
        r@ == match x {
            Some(x) => truncated_text(x@, max_width),
            None => null_text(),
        },
{
    fmt_str(x, max_width)
}

/// Appends the hex digits of `b[from..to]`.
pub fn append_hex(out: &mut String, b: &[u8], from: usize, to: usize)
    requires
        from <= to <= b@.len(),
    ensures
        final(out)@ == old(out)@ + hex_text(b@.subrange(from as int, to as int)),
{
    let mut i = from;
    while i < to
        invariant
            from <= i <= to <= b@.len(),
            out@ == old(out)@ + hex_text(b@.subrange(from as int, i as int)),
        decreases to - i,
    {
        append_hex_pair(out, b[i]);
        proof {
            let next = b@.subrange(from as int, i + 1);
            assert(next.drop_last() =~= b@.subrange(from as int, i as int));
            assert(out@ =~= old(out)@ + hex_text(next));
        }
        i = i + 1;
    }
}

/// A binary payload in hex, truncated by byte count, or `null`.
pub fn fmt_hex(b: &Option<Vec<u8>>, max_width: Option<usize>) -> (r: String)
    ensures
        r@ == match b {
            Some(b) => binary_text(b@, max_width),
            None => null_text(),
        },
{
    match b {
        None => fmt_null(),
        Some(b) => {
            let bytes = b.as_slice();
            let n = bytes.len();
            let mut out = String::new();
            match max_width {
                Some(w) => {
                    if n > w {
                        let keep: usize = if w / 2 >= 2 { w / 2 - 2 } else { 0 };
                        append_hex(&mut out, bytes, 0, keep);
                        proof { reveal_strlit("..."); }
                        out.append("...");
                    } else {
                        append_hex(&mut out, bytes, 0, n);
                        assert(bytes@.subrange(0, n as int) =~= bytes@);
                    }
                },
                None => {
                    append_hex(&mut out, bytes, 0, n);
                    assert(bytes@.subrange(0, n as int) =~= bytes@);
                },
            }
            out
        },
    }
}

/// A GUID payload in its hyphenated form, or `null`.
pub fn fmt_guid(g: &Option<Guid>) -> (r: String)
    ensures
        r@ == match g {
            Some(g) => guid_text(g.bytes@),
            None => null_text(),
        },
{
    match g {
        None => fmt_null(),
        Some(g) => {
            proof { reveal_strlit("-"); }
            let b = g.bytes.as_slice();
            let mut out = String::new();
            append_hex(&mut out, b, 0, 4);
            out.append("-");
            append_hex(&mut out, b, 4, 6);
            out.append("-");
            append_hex(&mut out, b, 6, 8);
            out.append("-");
            append_hex(&mut out, b, 8, 10);
            out.append("-");
            append_hex(&mut out, b, 10, 16);
            assert(out@ =~= guid_text(g.bytes@));
            out
        },
    }
}

/// A date payload as `YYYY-MM-DD`; `null` where absent or no calendar date.
pub fn fmt_date(d: &Option<CalendarDate>) -> (r: String)
    ensures
        r@ == match d {
            Some(d) => date_or_null(date_valid(*d), date_text(*d)),
            None => null_text(),
        },
{
    match d {
        Some(d) if date_is_valid(d) => {
            let mut out = String::new();
            append_date(&mut out, d);
            out
        },
        _ => fmt_null(),
    }
}

/// A time payload as `HH:MM:SS.fff`; `null` where absent or no time of day.
pub fn fmt_time(t: &Option<ClockTime>) -> (r: String)
    ensures
        r@ == match t {
            Some(t) => date_or_null(time_valid(*t), time_text(*t, 3)),
            None => null_text(),
        },
{
    match t {
        Some(t) if time_is_valid(t) => {
            let mut out = String::new();
            append_time(&mut out, t, 3);
            out
        },
        _ => fmt_null(),
    }
}

/// A date-and-time payload with `digits` fraction digits; `null` where absent or invalid.
pub fn fmt_date_time(d: &Option<DateAndTime>, digits: u8) -> (r: String)
    ensures
        r@ == match d {
            Some(d) => date_or_null(date_time_valid(*d), date_time_text(*d, digits as nat)),
            None => null_text(),
        },
{
    match d {
        Some(d) if date_is_valid(&d.date) && time_is_valid(&d.time) => {
            let mut out = String::new();
            append_date_time(&mut out, d, digits);
            out
        },
        _ => fmt_null(),
    }
}

/// A payload with a UTC offset in its RFC 3339 form; `null` where absent or invalid.
pub fn fmt_offset_date_time(o: &Option<OffsetDateTime>) -> (r: String)
    ensures
        r@ == match o {
            Some(o) => date_or_null(offset_date_time_valid(*o), offset_date_time_text(*o)),
            None => null_text(),
        },
{
    match o {
        Some(o) if date_is_valid(&o.local.date) && time_is_valid(&o.local.time)
            && -1440 < o.offset_minutes && o.offset_minutes < 1440 => {
            let mut out = String::new();
            append_offset_date_time(&mut out, o);
            out
        },
        _ => fmt_null(),
    }
}

/// A decimal payload, or `null`.
pub fn fmt_decimal(d: &Option<Decimal>) -> (r: String)
    ensures
        r@ == match d {
            Some(d) => decimal_text(*d),
            None => null_text(),
        },
{
    match d {
        Some(d) if d.scale < 38 => numeric_to_string(d.value, d.scale),
        _ => fmt_null(),
    }
}

/// A boolean payload as `true` or `false`, or `null`.
pub fn fmt_bool(b: Option<bool>) -> (r: String)
    ensures
        r@ == match b {
            Some(b) => bool_text(b),
            None => null_text(),
        },
{
    match b {
        Some(true) => {
            proof { reveal_strlit("true"); }
            String::from_str("true")
        },
        Some(false) => {
            proof { reveal_strlit("false"); }
            String::from_str("false")
        },
        None => fmt_null(),
    }
}

/// A floating-point payload in its display form, or `null`.
pub fn fmt_float(f: &Option<FloatText>) -> (r: String)
    ensures
        r@ == match f {
            Some(f) => f.display@,
            None => null_text(),
        },
{
    match f {
        Some(f) => String::from_str(f.display.as_str()),
        None => fmt_null(),
    }
}

impl TypedValue {
    /// The value's text; strings, XML and binary are cut to `max_width` where it is given.
    pub fn render(&self, max_width: Option<usize>) -> (r: String)
        ensures
            r@ == rendered(*self, max_width),
    {
        match self {
            TypedValue::UInt8(x) => fmt_std(
                match x {
                    Some(x) => Some(*x as i64),
                    None => None,
                },
            ),
            TypedValue::Int16(x) => fmt_std(
                match x {
                    Some(x) => Some(*x as i64),
                    None => None,
                },
            ),
            TypedValue::Int32(x) => fmt_std(
                match x {
                    Some(x) => Some(*x as i64),
                    None => None,
                },
            ),
            TypedValue::Int64(x) => fmt_std(*x),
            TypedValue::Float32(f) => fmt_float(f),
            TypedValue::Float64(f) => fmt_float(f),
            TypedValue::Bool(b) => fmt_bool(*b),
            TypedValue::String(s) => fmt_str(s, max_width),
            TypedValue::Guid(g) => fmt_guid(g),
            TypedValue::Binary(b) => fmt_hex(b, max_width),
            TypedValue::Decimal(d) => fmt_decimal(d),
            TypedValue::Xml(x) => fmt_xml(x, max_width),
            TypedValue::DateTime(d) => fmt_date_time(d, 3),
            TypedValue::SmallDateTime(d) => fmt_date_time(d, 0),
            TypedValue::Time(t) => fmt_time(t),
            TypedValue::Date(d) => fmt_date(d),
            TypedValue::DateTime2(d) => fmt_date_time(d, 6),
            TypedValue::DateTimeOffset(o) => fmt_offset_date_time(o),
        }
    }
}

} // verus!
