use mssql_cli::json::{encode_value, JsonValue};
use mssql_cli::render::{fmt_hex, fmt_null, fmt_std, fmt_str};
use mssql_cli::value::{
    CalendarDate, ClockTime, DateAndTime, Decimal, FloatText, Guid, OffsetDateTime, TypedValue,
};

fn all_absent() -> Vec<TypedValue> {
    vec![
        TypedValue::UInt8(None),
        TypedValue::Int16(None),
        TypedValue::Int32(None),
        TypedValue::Int64(None),
        TypedValue::Float32(None),
        TypedValue::Float64(None),
        TypedValue::Bool(None),
        TypedValue::String(None),
        TypedValue::Guid(None),
        TypedValue::Binary(None),
        TypedValue::Decimal(None),
        TypedValue::Xml(None),
        TypedValue::DateTime(None),
        TypedValue::SmallDateTime(None),
        TypedValue::Time(None),
        TypedValue::Date(None),
        TypedValue::DateTime2(None),
        TypedValue::DateTimeOffset(None),
    ]
}

fn date_time(y: u16, mo: u8, d: u8, h: u8, mi: u8, s: u8, ns: u32) -> DateAndTime {
    DateAndTime {
        date: CalendarDate { year: y, month: mo, day: d },
        time: ClockTime { hour: h, minute: mi, second: s, nanosecond: ns },
    }
}

#[test]
fn absent_payloads_render_null() {
    for v in all_absent() {
        assert!(v.is_null());
        assert_eq!(v.render(None), "null");
        assert_eq!(v.render(Some(1)), "null");
        let j = encode_value(&v);
        assert!(matches!(j, JsonValue::Null));
        assert_eq!(j.to_json(), "null");
    }
    assert_eq!(fmt_null(), "null");
}

#[test]
fn long_text_is_cut_to_width() {
    let s = "x".repeat(100);
    let r = TypedValue::String(Some(s)).render(Some(10));
    assert_eq!(r.chars().count(), 10);
    assert_eq!(r, format!("{}...", "x".repeat(7)));
}

#[test]
fn text_within_width_is_kept() {
    assert_eq!(fmt_str(&Some("abcdefgh".to_string()), Some(10)), "abcdefgh");
    assert_eq!(fmt_str(&Some("abcdefghi".to_string()), Some(10)), "abcdefghi".chars().take(7).collect::<String>() + "...");
    assert_eq!(fmt_str(&Some("abc".to_string()), None), "abc");
}

#[test]
fn narrow_widths_do_not_underflow() {
    assert_eq!(fmt_str(&Some("abc".to_string()), Some(0)), "...");
    assert_eq!(fmt_str(&Some("abc".to_string()), Some(2)), "...");
    assert_eq!(fmt_str(&Some(String::new()), Some(0)), "");
    assert_eq!(fmt_hex(&Some(vec![1, 2, 3]), Some(1)), "...");
}

#[test]
fn text_is_cut_by_characters() {
    let s = "é".repeat(20);
    assert_eq!(fmt_str(&Some(s), Some(6)), "ééé...");
}

#[test]
fn long_binary_is_cut_by_bytes() {
    let b: Vec<u8> = (0..50).collect();
    let r = TypedValue::Binary(Some(b)).render(Some(10));
    assert_eq!(r, "000102...");
}

#[test]
fn binary_is_two_hex_digits_per_byte() {
    assert_eq!(fmt_hex(&Some(vec![0x05, 0xab, 0xff, 0x10]), None), "05abff10");
    assert_eq!(fmt_hex(&Some(vec![]), None), "");
    assert_eq!(fmt_hex(&None, None), "null");
}

#[test]
fn xml_is_cut_like_text() {
    let x = TypedValue::Xml(Some("<a>hello world</a>".to_string()));
    assert_eq!(x.render(Some(8)), "<a>he...");
    assert_eq!(x.render(None), "<a>hello world</a>");
}

#[test]
fn integers_render_in_decimal() {
    assert_eq!(TypedValue::UInt8(Some(255)).render(None), "255");
    assert_eq!(TypedValue::Int16(Some(-32768)).render(None), "-32768");
    assert_eq!(TypedValue::Int32(Some(0)).render(None), "0");
    assert_eq!(TypedValue::Int64(Some(i64::MIN)).render(None), "-9223372036854775808");
    assert_eq!(fmt_std(Some(1234567890)), "1234567890");
    assert_eq!(fmt_std(None), "null");
}

#[test]
fn booleans_render_as_words() {
    assert_eq!(TypedValue::Bool(Some(true)).render(None), "true");
    assert_eq!(TypedValue::Bool(Some(false)).render(None), "false");
}

#[test]
fn floats_render_their_texts() {
    let f = FloatText { display: "1.5".to_string(), json: Some("1.5".to_string()) };
    assert_eq!(TypedValue::Float64(Some(f)).render(None), "1.5");
}

#[test]
fn guid_renders_hyphenated() {
    let g = Guid {
        bytes: [
            0x67, 0xe5, 0x50, 0x44, 0x10, 0xb1, 0x42, 0x6f, 0x92, 0x47, 0xbb, 0x68, 0x0e, 0x5f,
            0xe0, 0xc8,
        ],
    };
    assert_eq!(TypedValue::Guid(Some(g)).render(None), "67e55044-10b1-426f-9247-bb680e5fe0c8");
}

#[test]
fn decimal_renders_with_scale() {
    let d = Decimal { value: 12345, scale: 2 };
    assert_eq!(TypedValue::Decimal(Some(d)).render(None), "123.45");
    let d = Decimal { value: 7, scale: 3 };
    assert_eq!(TypedValue::Decimal(Some(d)).render(None), "0.007");
}

#[test]
fn decimal_with_unreadable_scale_is_null() {
    let d = Decimal { value: 1, scale: 40 };
    assert_eq!(TypedValue::Decimal(Some(d)).render(None), "null");
}

#[test]
fn datetime_renders_with_milliseconds() {
    let v = TypedValue::DateTime(Some(date_time(2024, 1, 2, 3, 4, 5, 678_000_000)));
    assert_eq!(v.render(None), "2024-01-02T03:04:05.678");
    assert_eq!(encode_value(&v).to_json(), "\"2024-01-02T03:04:05.678\"");
}

#[test]
fn date_and_time_kinds_render_in_their_forms() {
    let d = CalendarDate { year: 987, month: 12, day: 31 };
    assert_eq!(TypedValue::Date(Some(d)).render(None), "0987-12-31");
    let t = ClockTime { hour: 23, minute: 59, second: 58, nanosecond: 123_456_789 };
    assert_eq!(TypedValue::Time(Some(t)).render(None), "23:59:58.123");
    let sdt = date_time(2000, 2, 29, 12, 30, 0, 0);
    assert_eq!(TypedValue::SmallDateTime(Some(sdt)).render(None), "2000-02-29T12:30:00");
    let dt2 = date_time(2024, 6, 1, 0, 0, 1, 123_456_700);
    assert_eq!(TypedValue::DateTime2(Some(dt2)).render(None), "2024-06-01T00:00:01.123456");
}

#[test]
fn offset_datetime_renders_rfc3339() {
    let o = OffsetDateTime { local: date_time(2024, 3, 4, 5, 6, 7, 0), offset_minutes: 330 };
    assert_eq!(TypedValue::DateTimeOffset(Some(o)).render(None), "2024-03-04T05:06:07+05:30");
    let o = OffsetDateTime { local: date_time(2024, 3, 4, 5, 6, 7, 500_000_000), offset_minutes: -60 };
    assert_eq!(TypedValue::DateTimeOffset(Some(o)).render(None), "2024-03-04T05:06:07.500-01:00");
    let o = OffsetDateTime { local: date_time(2024, 3, 4, 5, 6, 7, 1_500), offset_minutes: 0 };
    assert_eq!(TypedValue::DateTimeOffset(Some(o)).render(None), "2024-03-04T05:06:07.000001500+00:00");
}

#[test]
fn impossible_dates_render_null() {
    let d = CalendarDate { year: 2023, month: 2, day: 29 };
    assert_eq!(TypedValue::Date(Some(d)).render(None), "null");
    let t = ClockTime { hour: 24, minute: 0, second: 0, nanosecond: 0 };
    assert_eq!(TypedValue::Time(Some(t)).render(None), "null");
    let o = OffsetDateTime { local: date_time(2024, 3, 4, 5, 6, 7, 0), offset_minutes: 1440 };
    assert_eq!(TypedValue::DateTimeOffset(Some(o)).render(None), "null");
}

#[test]
fn rendering_twice_gives_the_same_text() {
    let v = TypedValue::String(Some("repeat me please".to_string()));
    assert_eq!(v.render(Some(9)), v.render(Some(9)));
    let b = TypedValue::Binary(Some(vec![9; 30]));
    assert_eq!(b.render(Some(12)), b.render(Some(12)));
}
