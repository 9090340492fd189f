//! The arguments of a query, as the driver is handed them.

use crate::value::Zoned;
use sea_query::prelude::{Decimal, Json, NaiveDate, NaiveDateTime, NaiveTime, Uuid};
use vstd::prelude::*;

verus! {

/// One argument of a query: SQL NULL, or a value in the Rust type in which
/// the driver is handed it. A real number is held by the bit pattern of its
/// IEEE 754 encoding.
#[derive(Debug, PartialEq)]
pub enum Param {
    Null,
    Bool(bool),
    TinyInt(i8),
    SmallInt(i16),
    Int(i32),
    BigInt(i64),
    TinyUnsigned(u8),
    SmallUnsigned(u16),
    Unsigned(u32),
    BigUnsigned(u64),
    Float(u32),
    Double(u64),
    Text(String),
    Blob(Vec<u8>),
    Json(Json),
    ChronoDate(NaiveDate),
    ChronoTime(NaiveTime),
    ChronoDateTime(NaiveDateTime),
    ChronoZoned(Zoned),
    Uuid(Uuid),
    Decimal(Decimal),
}

/// An argument in contracts: text by its characters, a blob by its bytes.
pub enum ParamView {
    Null,
    Bool(bool),
    TinyInt(i8),
    SmallInt(i16),
    Int(i32),
    BigInt(i64),
    TinyUnsigned(u8),
    SmallUnsigned(u16),
    Unsigned(u32),
    BigUnsigned(u64),
    Float(u32),
    Double(u64),
    Text(Seq<char>),
    Blob(Seq<u8>),
    Json(Json),
    ChronoDate(NaiveDate),
    ChronoTime(NaiveTime),
    ChronoDateTime(NaiveDateTime),
    ChronoZoned(Zoned),
    Uuid(Uuid),
    Decimal(Decimal),
}

impl View for Param {
    type V = ParamView;

    open spec fn view(&self) -> ParamView {
        match *self {
            Param::Null => ParamView::Null,
            Param::Bool(v) => ParamView::Bool(v),
            Param::TinyInt(v) => ParamView::TinyInt(v),
            Param::SmallInt(v) => ParamView::SmallInt(v),
            Param::Int(v) => ParamView::Int(v),
            Param::BigInt(v) => ParamView::BigInt(v),
            Param::TinyUnsigned(v) => ParamView::TinyUnsigned(v),
            Param::SmallUnsigned(v) => ParamView::SmallUnsigned(v),
            Param::Unsigned(v) => ParamView::Unsigned(v),
            Param::BigUnsigned(v) => ParamView::BigUnsigned(v),
            Param::Float(bits) => ParamView::Float(bits),
            Param::Double(bits) => ParamView::Double(bits),
            Param::Text(text) => ParamView::Text(text@),
            Param::Blob(bytes) => ParamView::Blob(bytes@),
            Param::Json(v) => ParamView::Json(v),
            Param::ChronoDate(v) => ParamView::ChronoDate(v),
            Param::ChronoTime(v) => ParamView::ChronoTime(v),
            Param::ChronoDateTime(v) => ParamView::ChronoDateTime(v),
            Param::ChronoZoned(v) => ParamView::ChronoZoned(v),
            Param::Uuid(v) => ParamView::Uuid(v),
            Param::Decimal(v) => ParamView::Decimal(v),
        }
    }
}

/// A list of arguments in contracts.
pub open spec fn views(params: Seq<Param>) -> Seq<ParamView> {
    Seq::new(params.len(), |i: int| params[i]@)
}

} // verus!
