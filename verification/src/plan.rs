//! Which argument each value becomes.

use crate::param::{views, Param, ParamView};
use crate::text::{
    big_decimal_text, big_decimal_to_text, char_to_text, date_text, date_time_text,
    date_time_to_text, date_to_text, offset_date_time_text, offset_date_time_to_text, time_text,
    time_to_text,
};
use crate::value::{BindError, SqlxValues, Unsupported, Value};
use vstd::prelude::*;

verus! {

impl Value {
    /// The argument that the value is bound as, if D1 can hold its kind.
    ///
    /// A value without a payload is NULL whatever its kind. A character is
    /// the text of that one character; the values of `time` and the decimal
    /// numbers of `bigdecimal` are the text that their crate writes for
    /// them. Every other payload is handed on as it is, the three kinds of
    /// `chrono` date and time with an offset alike.
    pub open spec fn param(self) -> Option<ParamView> {
        match self {
            Value::Bool(Some(v)) => Some(ParamView::Bool(v)),
            Value::TinyInt(Some(v)) => Some(ParamView::TinyInt(v)),
            Value::SmallInt(Some(v)) => Some(ParamView::SmallInt(v)),
            Value::Int(Some(v)) => Some(ParamView::Int(v)),
            Value::BigInt(Some(v)) => Some(ParamView::BigInt(v)),
            Value::TinyUnsigned(Some(v)) => Some(ParamView::TinyUnsigned(v)),
            Value::SmallUnsigned(Some(v)) => Some(ParamView::SmallUnsigned(v)),
            Value::Unsigned(Some(v)) => Some(ParamView::Unsigned(v)),
            Value::BigUnsigned(Some(v)) => Some(ParamView::BigUnsigned(v)),
            Value::Float(Some(bits)) => Some(ParamView::Float(bits)),
            Value::Double(Some(bits)) => Some(ParamView::Double(bits)),
            Value::String(Some(text)) => Some(ParamView::Text(text@)),
            Value::Char(Some(c)) => Some(ParamView::Text(seq![c])),
            Value::Bytes(Some(bytes)) => Some(ParamView::Blob(bytes@)),
            Value::Json(Some(v)) => Some(ParamView::Json(v)),
            Value::ChronoDate(Some(v)) => Some(ParamView::ChronoDate(v)),
            Value::ChronoTime(Some(v)) => Some(ParamView::ChronoTime(v)),
            Value::ChronoDateTime(Some(v)) => Some(ParamView::ChronoDateTime(v)),
            Value::ChronoDateTimeUtc(Some(v)) => Some(ParamView::ChronoZoned(v)),
            Value::ChronoDateTimeLocal(Some(v)) => Some(ParamView::ChronoZoned(v)),
            Value::ChronoDateTimeWithTimeZone(Some(v)) => Some(ParamView::ChronoZoned(v)),
            Value::TimeDate(Some(v)) => Some(ParamView::Text(date_text(v))),
            Value::TimeTime(Some(v)) => Some(ParamView::Text(time_text(v))),
            Value::TimeDateTime(Some(v)) => Some(ParamView::Text(date_time_text(v))),
            Value::TimeDateTimeWithTimeZone(Some(v)) => Some(
                ParamView::Text(offset_date_time_text(v)),
            ),
            Value::Uuid(Some(v)) => Some(ParamView::Uuid(v)),
            Value::Decimal(Some(v)) => Some(ParamView::Decimal(v)),
            Value::BigDecimal(Some(v)) => Some(ParamView::Text(big_decimal_text(v))),
            Value::Array | Value::Vector | Value::IpNetwork | Value::MacAddress => None,
            _ => Some(ParamView::Null),
        }
    }

    /// Turns the value into the argument that it is bound as, or says which
    /// kind D1 cannot hold.
    pub fn into_param(self) -> (r: Result<Param, Unsupported>)
        ensures
            self.refusal() matches Some(kind) ==> r == Err::<Param, Unsupported>(kind),
            self.refusal() is None ==> r is Ok && Some(r->Ok_0@) == self.param(),
    {
        match self {
            Value::Bool(Some(v)) => Ok(Param::Bool(v)),
            Value::TinyInt(Some(v)) => Ok(Param::TinyInt(v)),
            Value::SmallInt(Some(v)) => Ok(Param::SmallInt(v)),
            Value::Int(Some(v)) => Ok(Param::Int(v)),
            Value::BigInt(Some(v)) => Ok(Param::BigInt(v)),
            Value::TinyUnsigned(Some(v)) => Ok(Param::TinyUnsigned(v)),
            Value::SmallUnsigned(Some(v)) => Ok(Param::SmallUnsigned(v)),
            Value::Unsigned(Some(v)) => Ok(Param::Unsigned(v)),
            Value::BigUnsigned(Some(v)) => Ok(Param::BigUnsigned(v)),
            Value::Float(Some(bits)) => Ok(Param::Float(bits)),
            Value::Double(Some(bits)) => Ok(Param::Double(bits)),
            Value::String(Some(text)) => Ok(Param::Text(text)),
            Value::Char(Some(c)) => Ok(Param::Text(char_to_text(c))),
            Value::Bytes(Some(bytes)) => Ok(Param::Blob(bytes)),
            Value::Json(Some(v)) => Ok(Param::Json(v)),
            Value::ChronoDate(Some(v)) => Ok(Param::ChronoDate(v)),
            Value::ChronoTime(Some(v)) => Ok(Param::ChronoTime(v)),
            Value::ChronoDateTime(Some(v)) => Ok(Param::ChronoDateTime(v)),
            Value::ChronoDateTimeUtc(Some(v)) => Ok(Param::ChronoZoned(v)),
            Value::ChronoDateTimeLocal(Some(v)) => Ok(Param::ChronoZoned(v)),
            Value::ChronoDateTimeWithTimeZone(Some(v)) => Ok(Param::ChronoZoned(v)),
            Value::TimeDate(Some(v)) => Ok(Param::Text(date_to_text(v))),
            Value::TimeTime(Some(v)) => Ok(Param::Text(time_to_text(v))),
            Value::TimeDateTime(Some(v)) => Ok(Param::Text(date_time_to_text(v))),
            Value::TimeDateTimeWithTimeZone(Some(v)) => Ok(
                Param::Text(offset_date_time_to_text(v)),
            ),
            Value::Uuid(Some(v)) => Ok(Param::Uuid(v)),
            Value::Decimal(Some(v)) => Ok(Param::Decimal(v)),
            Value::BigDecimal(Some(v)) => Ok(Param::Text(big_decimal_to_text(v))),
            Value::Array => Err(Unsupported::Array),
            Value::Vector => Err(Unsupported::Vector),
            Value::IpNetwork => Err(Unsupported::IpNetwork),
            Value::MacAddress => Err(Unsupported::MacAddress),
            Value::Bool(None)
            | Value::TinyInt(None)
            | Value::SmallInt(None)
            | Value::Int(None)
            | Value::BigInt(None)
            | Value::TinyUnsigned(None)
            | Value::SmallUnsigned(None)
            | Value::Unsigned(None)
            | Value::BigUnsigned(None)
            | Value::Float(None)
            | Value::Double(None)
            | Value::String(None)
            | Value::Char(None)
            | Value::Bytes(None)
            | Value::Json(None)
            | Value::ChronoDate(None)
            | Value::ChronoTime(None)
            | Value::ChronoDateTime(None)
            | Value::ChronoDateTimeUtc(None)
            | Value::ChronoDateTimeLocal(None)
            | Value::ChronoDateTimeWithTimeZone(None)
            | Value::TimeDate(None)
            | Value::TimeTime(None)
            | Value::TimeDateTime(None)
            | Value::TimeDateTimeWithTimeZone(None)
            | Value::Uuid(None)
            | Value::Decimal(None)
            | Value::BigDecimal(None) => Ok(Param::Null),
        }
    }
}

/// Whether D1 can hold every value of the list.
pub open spec fn all_supported(values: Seq<Value>) -> bool {
    forall|i: int| 0 <= i < values.len() ==> (#[trigger] values[i]).supported()
}

/// The arguments of a list of values: one for each value, in its place.
pub open spec fn params_of(values: Seq<Value>) -> Seq<ParamView>
    recommends
        all_supported(values),
{
    Seq::new(values.len(), |i: int| values[i].param().unwrap())
}

/// Whether `e` tells where `values` is refused: at the first value of a kind
/// that D1 cannot hold, for that kind.
pub open spec fn refused_at(values: Seq<Value>, e: BindError) -> bool {
    &&& e.index < values.len()
    &&& values[e.index as int].refusal() == Some(e.kind)
    &&& all_supported(values.take(e.index as int))
}

impl SqlxValues {
    /// Turns the values into the arguments of the query: one for each value,
    /// in the order of the values, each as `Value::param` gives it. Where a
    /// value is of a kind that D1 cannot hold, no argument is handed out but
    /// the place and the kind of the first such value.
    pub fn into_arguments(self) -> (r: Result<Vec<Param>, BindError>)
        ensures
            r is Ok <==> all_supported(self.0@),
            r matches Ok(params) ==> {
                &&& params.len() == self.0.len()
                &&& views(params@) == params_of(self.0@)
            },
            r matches Err(e) ==> refused_at(self.0@, e),
    {
        let ghost values = self.0@;
        let mut params: Vec<Param> = Vec::new();
        for value in it: self.0.into_iter()
            invariant
                it.seq() == values,
                params.len() == it.index(),
                forall|i: int| 0 <= i < it.index() ==> (#[trigger] values[i]).supported(),
                forall|i: int|
                    0 <= i < it.index() ==> Some((#[trigger] params[i])@) == values[i].param(),
        {
            let index: usize = params.len();
            match value.into_param() {
                Ok(param) => {
                    params.push(param);
                },
                Err(kind) => {
                    return Err(BindError { index, kind });
                },
            }
        }
        Ok(params)
    }
}

/// A list that D1 can hold has one argument for each value, in the order of
/// the values: none is left out, none stands twice, and a value without a
/// payload has its place like any other.
pub proof fn one_argument_for_each_value(values: Seq<Value>)
    requires
        all_supported(values),
    ensures
        params_of(values).len() == values.len(),
        forall|i: int|
            0 <= i < values.len() ==> Some(#[trigger] params_of(values)[i]) == values[i].param(),
{
}

/// A value of a kind that D1 can hold is bound as NULL exactly where it has
/// no payload, whatever its kind: also where a payload would have been
/// written as text.
pub proof fn null_is_bound_as_null(value: Value)
    requires
        value.supported(),
    ensures
        value.is_null() <==> value.param() == Some(ParamView::Null),
{
}

/// A character is bound as the text of that one character.
pub proof fn character_is_bound_as_its_text(c: char)
    ensures
        Value::Char(Some(c)).param() == Some(ParamView::Text(seq![c])),
        seq![c].len() == 1,
        seq![c][0] == c,
{
}

/// One value of a kind that D1 cannot hold is enough for the whole list to
/// be refused, wherever in the list it stands.
pub proof fn unsupported_value_refuses_the_list(values: Seq<Value>, i: int)
    requires
        0 <= i < values.len(),
        !values[i].supported(),
    ensures
        !all_supported(values),
{
}

} // verus!
