//! The kinds that are bound as text: how each is written.

use sea_query::prelude::time::{Date, Time};
use sea_query::prelude::{BigDecimal, OffsetDateTime, PrimitiveDateTime};
use vstd::prelude::*;

verus! {

/// The text that `time` writes for a calendar date.
pub uninterp spec fn date_text(date: Date) -> Seq<char>;

/// The text that `time` writes for a time of day.
pub uninterp spec fn time_text(time: Time) -> Seq<char>;

/// The text that `time` writes for a date and time without an offset.
pub uninterp spec fn date_time_text(date_time: PrimitiveDateTime) -> Seq<char>;

/// The text that `time` writes for a date and time with its offset.
pub uninterp spec fn offset_date_time_text(date_time: OffsetDateTime) -> Seq<char>;

/// The text that `bigdecimal` writes for a decimal number, in this build of
/// it: where it turns to the exponential form is fixed when `bigdecimal` is
/// built.
pub uninterp spec fn big_decimal_text(number: BigDecimal) -> Seq<char>;

/// `char`'s `to_string`: the string of that one character.
#[verifier::external_body]
pub(crate) fn char_to_text(c: char) -> (text: String)
    ensures
        text@ == seq![c],
{
    c.to_string()
}

/// `to_string` of `time::Date`, which writes the date through its
/// `Display`. The text depends on the date alone.
#[verifier::external_body]
pub(crate) fn date_to_text(date: Date) -> (text: String)
    ensures
        text@ == date_text(date),
{
    date.to_string()
}

/// `to_string` of `time::Time`, which writes the time of day through its
/// `Display`. The text depends on the time alone.
#[verifier::external_body]
pub(crate) fn time_to_text(time: Time) -> (text: String)
    ensures
        text@ == time_text(time),
{
    time.to_string()
}

/// `to_string` of `time::PrimitiveDateTime`, which writes date and time
/// through its `Display`. The text depends on the value alone.
#[verifier::external_body]
pub(crate) fn date_time_to_text(date_time: PrimitiveDateTime) -> (text: String)
    ensures
        text@ == date_time_text(date_time),
{
    date_time.to_string()
}

/// `to_string` of `time::OffsetDateTime`, which writes date, time and
/// offset through its `Display`. The text depends on the value alone.
#[verifier::external_body]
pub(crate) fn offset_date_time_to_text(date_time: OffsetDateTime) -> (text: String)
    ensures
        text@ == offset_date_time_text(date_time),
{
    date_time.to_string()
}

/// `to_string` of `bigdecimal::BigDecimal`, which writes the number through
/// its `Display`. Within one build of `bigdecimal` the text depends on the
/// number alone; the build fixes the thresholds of the exponential form.
#[verifier::external_body]
pub(crate) fn big_decimal_to_text(number: BigDecimal) -> (text: String)
    ensures
        text@ == big_decimal_text(number),
{
    number.to_string()
}

} // verus!
