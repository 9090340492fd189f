//! The payload types of the value kinds that other crates define, as
//! `sea_query` hands them on. A payload of such a type is carried through
//! unread.

use vstd::prelude::*;

verus! {

/// `serde_json::Value`: a JSON document.
#[verifier::external_type_specification]
#[verifier::external_body]
pub struct ExJson(sea_query::prelude::Json);

/// `chrono::NaiveDate`: a calendar date.
#[verifier::external_type_specification]
#[verifier::external_body]
pub struct ExNaiveDate(sea_query::prelude::NaiveDate);

/// `chrono::NaiveTime`: a time of day.
#[verifier::external_type_specification]
#[verifier::external_body]
pub struct ExNaiveTime(sea_query::prelude::NaiveTime);

/// `chrono::NaiveDateTime`: a date and time without an offset.
#[verifier::external_type_specification]
#[verifier::external_body]
pub struct ExNaiveDateTime(sea_query::prelude::NaiveDateTime);

/// `chrono::FixedOffset`: an offset from UTC.
#[verifier::external_type_specification]
#[verifier::external_body]
pub struct ExFixedOffset(sea_query::prelude::FixedOffset);

/// `time::Date`: a calendar date.
#[verifier::external_type_specification]
#[verifier::external_body]
pub struct ExDate(sea_query::prelude::time::Date);

/// `time::Time`: a time of day.
#[verifier::external_type_specification]
#[verifier::external_body]
pub struct ExTime(sea_query::prelude::time::Time);

/// `time::PrimitiveDateTime`: a date and time without an offset.
#[verifier::external_type_specification]
#[verifier::external_body]
pub struct ExPrimitiveDateTime(sea_query::prelude::PrimitiveDateTime);

/// `time::OffsetDateTime`: a date and time with its offset from UTC.
#[verifier::external_type_specification]
#[verifier::external_body]
pub struct ExOffsetDateTime(sea_query::prelude::OffsetDateTime);

/// `uuid::Uuid`: a universally unique identifier.
#[verifier::external_type_specification]
#[verifier::external_body]
pub struct ExUuid(sea_query::prelude::Uuid);

/// `rust_decimal::Decimal`: a decimal number of up to 96 bits.
#[verifier::external_type_specification]
#[verifier::external_body]
pub struct ExDecimal(sea_query::prelude::Decimal);

/// `bigdecimal::BigDecimal`: a decimal number of any precision.
#[verifier::external_type_specification]
#[verifier::external_body]
pub struct ExBigDecimal(sea_query::prelude::BigDecimal);

} // verus!
