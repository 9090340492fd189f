//! Tagged SQL values, as a query builder hands them over.

use sea_query::prelude::time::{Date, Time};
use sea_query::prelude::{
    BigDecimal, Decimal, FixedOffset, Json, NaiveDate, NaiveDateTime, NaiveTime, OffsetDateTime,
    PrimitiveDateTime, Uuid,
};
use vstd::prelude::*;

verus! {

/// A `chrono` date and time with its offset from UTC: the instant as a
/// naive UTC date and time, and the offset in which it is shown.
#[derive(Debug, PartialEq)]
pub struct Zoned {
    pub utc: NaiveDateTime,
    pub offset: FixedOffset,
}

/// One SQL value, tagged with its kind. An absent payload is SQL NULL.
///
/// A real number is held by the bit pattern of its IEEE 754 encoding. The
/// four kinds that D1 cannot hold carry no payload.
#[derive(Debug, PartialEq)]
pub enum Value {
    Bool(Option<bool>),
    TinyInt(Option<i8>),
    SmallInt(Option<i16>),
    Int(Option<i32>),
    BigInt(Option<i64>),
    TinyUnsigned(Option<u8>),
    SmallUnsigned(Option<u16>),
    Unsigned(Option<u32>),
    BigUnsigned(Option<u64>),
    Float(Option<u32>),
    Double(Option<u64>),
    String(Option<String>),
    Char(Option<char>),
    Bytes(Option<Vec<u8>>),
    Json(Option<Json>),
    ChronoDate(Option<NaiveDate>),
    ChronoTime(Option<NaiveTime>),
    ChronoDateTime(Option<NaiveDateTime>),
    ChronoDateTimeUtc(Option<Zoned>),
    ChronoDateTimeLocal(Option<Zoned>),
    ChronoDateTimeWithTimeZone(Option<Zoned>),
    TimeDate(Option<Date>),
    TimeTime(Option<Time>),
    TimeDateTime(Option<PrimitiveDateTime>),
    TimeDateTimeWithTimeZone(Option<OffsetDateTime>),
    Uuid(Option<Uuid>),
    Decimal(Option<Decimal>),
    BigDecimal(Option<BigDecimal>),
    Array,
    Vector,
    IpNetwork,
    MacAddress,
}

/// A kind of value that D1 cannot hold.
#[derive(Clone, Copy, Debug, PartialEq, Eq, Structural)]
pub enum Unsupported {
    Array,
    Vector,
    IpNetwork,
    MacAddress,
}

impl Unsupported {
    /// The text of `message`.
    pub open spec fn message_text(self) -> Seq<char> {
        match self {
            Unsupported::Array => "D1 doesn't support SQL array arguments"@,
            Unsupported::Vector => "D1 doesn't support vector arguments"@,
            Unsupported::IpNetwork => "D1 doesn't support IpNetwork arguments"@,
            Unsupported::MacAddress => "D1 doesn't support MacAddress arguments"@,
        }
    }

    /// The fixed message that names the kind.
    pub fn message(&self) -> (text: &'static str)
        ensures
            text@ == self.message_text(),
    {
        match self {
            Unsupported::Array => "D1 doesn't support SQL array arguments",
            Unsupported::Vector => "D1 doesn't support vector arguments",
            Unsupported::IpNetwork => "D1 doesn't support IpNetwork arguments",
            Unsupported::MacAddress => "D1 doesn't support MacAddress arguments",
        }
    }
}

impl Value {
    /// The kind for which the value is refused, if it is one of the four
    /// that D1 cannot hold.
    pub open spec fn refusal(self) -> Option<Unsupported> {
        match self {
            Value::Array => Some(Unsupported::Array),
            Value::Vector => Some(Unsupported::Vector),
            Value::IpNetwork => Some(Unsupported::IpNetwork),
            Value::MacAddress => Some(Unsupported::MacAddress),
            _ => None,
        }
    }

    /// Whether D1 can hold a value of this kind.
    pub open spec fn supported(self) -> bool {
        self.refusal() is None
    }

    /// Whether the value is SQL NULL: a supported kind without a payload.
    pub open spec fn is_null(self) -> bool {
        match self {
            Value::Bool(v) => v is None,
            Value::TinyInt(v) => v is None,
            Value::SmallInt(v) => v is None,
            Value::Int(v) => v is None,
            Value::BigInt(v) => v is None,
            Value::TinyUnsigned(v) => v is None,
            Value::SmallUnsigned(v) => v is None,
            Value::Unsigned(v) => v is None,
            Value::BigUnsigned(v) => v is None,
            Value::Float(v) => v is None,
            Value::Double(v) => v is None,
            Value::String(v) => v is None,
            Value::Char(v) => v is None,
            Value::Bytes(v) => v is None,
            Value::Json(v) => v is None,
            Value::ChronoDate(v) => v is None,
            Value::ChronoTime(v) => v is None,
            Value::ChronoDateTime(v) => v is None,
            Value::ChronoDateTimeUtc(v) => v is None,
            Value::ChronoDateTimeLocal(v) => v is None,
            Value::ChronoDateTimeWithTimeZone(v) => v is None,
            Value::TimeDate(v) => v is None,
            Value::TimeTime(v) => v is None,
            Value::TimeDateTime(v) => v is None,
            Value::TimeDateTimeWithTimeZone(v) => v is None,
            Value::Uuid(v) => v is None,
            Value::Decimal(v) => v is None,
            Value::BigDecimal(v) => v is None,
            Value::Array | Value::Vector | Value::IpNetwork | Value::MacAddress => false,
        }
    }
}

/// Why a list of values cannot be bound: the place of the first value of a
/// kind that D1 cannot hold, and that kind.
#[derive(Clone, Copy, Debug, PartialEq, Eq, Structural)]
pub struct BindError {
    pub index: usize,
    pub kind: Unsupported,
}

/// The values of one query, in the order of its placeholders.
#[derive(Debug, PartialEq)]
pub struct SqlxValues(pub Vec<Value>);

} // verus!
