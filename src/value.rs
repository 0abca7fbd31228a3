//! The typed column value and the plain payloads it carries.
use vstd::prelude::*;

verus! {

/// A floating-point payload, held as the two texts it is shown as: its
/// display form and its JSON number (`None` where it has none: NaN, infinities).
pub struct FloatText {
    pub display: String,
    pub json: Option<String>,
}

/// A 16-byte GUID, in the byte order it is printed in.
pub struct Guid {
    pub bytes: [u8; 16],
}

/// A decimal number: `value` scaled down by `10^scale`.
pub struct Decimal {
    pub value: i128,
    pub scale: u8,
}

/// A calendar date.
pub struct CalendarDate {
    pub year: u16,
    pub month: u8,
    pub day: u8,
}

/// A time of day, to the nanosecond.
pub struct ClockTime {
    pub hour: u8,
    pub minute: u8,
    pub second: u8,
    pub nanosecond: u32,
}

/// A date with a time of day.
pub struct DateAndTime {
    pub date: CalendarDate,
    pub time: ClockTime,
}

/// A local date and time with its offset from UTC in minutes.
pub struct OffsetDateTime {
    pub local: DateAndTime,
    pub offset_minutes: i16,
}

/// One decoded column value; `None` in a payload is SQL NULL.
pub enum TypedValue {
    UInt8(Option<u8>),
    Int16(Option<i16>),
    Int32(Option<i32>),
    Int64(Option<i64>),
    Float32(Option<FloatText>),
    Float64(Option<FloatText>),
    Bool(Option<bool>),
    String(Option<String>),
    Guid(Option<Guid>),
    Binary(Option<Vec<u8>>),
    Decimal(Option<Decimal>),
    Xml(Option<String>),
    DateTime(Option<DateAndTime>),
    SmallDateTime(Option<DateAndTime>),
    Time(Option<ClockTime>),
    Date(Option<CalendarDate>),
    DateTime2(Option<DateAndTime>),
    DateTimeOffset(Option<OffsetDateTime>),
}

impl TypedValue {
    /// Whether the payload is absent.
    pub open spec fn is_null_spec(&self) -> bool {
        match self {
            TypedValue::UInt8(p) => p is None,
            TypedValue::Int16(p) => p is None,
            TypedValue::Int32(p) => p is None,
            TypedValue::Int64(p) => p is None,
            TypedValue::Float32(p) => p is None,
            TypedValue::Float64(p) => p is None,
            TypedValue::Bool(p) => p is None,
            TypedValue::String(p) => p is None,
            TypedValue::Guid(p) => p is None,
            TypedValue::Binary(p) => p is None,
            TypedValue::Decimal(p) => p is None,
            TypedValue::Xml(p) => p is None,
            TypedValue::DateTime(p) => p is None,
            TypedValue::SmallDateTime(p) => p is None,
            TypedValue::Time(p) => p is None,
            TypedValue::Date(p) => p is None,
            TypedValue::DateTime2(p) => p is None,
            TypedValue::DateTimeOffset(p) => p is None,
        }
    }

    /// Whether the payload is absent (SQL NULL).
    #[verifier::when_used_as_spec(is_null_spec)]
    pub fn is_null(&self) -> (r: bool)
        ensures
            r == self.is_null_spec(),
    {
        match self {
            TypedValue::UInt8(p) => p.is_none(),
            TypedValue::Int16(p) => p.is_none(),
            TypedValue::Int32(p) => p.is_none(),
            TypedValue::Int64(p) => p.is_none(),
            TypedValue::Float32(p) => p.is_none(),
            TypedValue::Float64(p) => p.is_none(),
            TypedValue::Bool(p) => p.is_none(),
            TypedValue::String(p) => p.is_none(),
            TypedValue::Guid(p) => p.is_none(),
            TypedValue::Binary(p) => p.is_none(),
            TypedValue::Decimal(p) => p.is_none(),
            TypedValue::Xml(p) => p.is_none(),
            TypedValue::DateTime(p) => p.is_none(),
            TypedValue::SmallDateTime(p) => p.is_none(),
            TypedValue::Time(p) => p.is_none(),
            TypedValue::Date(p) => p.is_none(),
            TypedValue::DateTime2(p) => p.is_none(),
            TypedValue::DateTimeOffset(p) => p.is_none(),
        }
    }
}

} // verus!
