//! Typed parameters of a stored-procedure call.

use vstd::prelude::*;
use vstd::std_specs::convert::FromSpecImpl;
use crate::shared::db::row::{SqlValueView, clone_bytes, clone_text, copy_bytes};
use crate::shared::decimal::{Decimal, DecimalView};
use crate::shared::ids::Uuid;
use crate::shared::temporal::{DateTimeUtc, NaiveDate, NaiveDateTime};

verus! {

/// One positional parameter of a procedure call, tagged with the type it is
/// bound as. The `Opt` variants bind SQL `NULL` when they hold nothing.
#[derive(Debug, Clone, PartialEq, Eq)]
pub enum MySqlParam {
    I8(i8),
    I16(i16),
    I32(i32),
    I64(i64),
    U8(u8),
    U16(u16),
    U32(u32),
    U64(u64),
    /// A single-precision number, as its IEEE 754 bit pattern.
    F32(u32),
    /// A double-precision number, as its IEEE 754 bit pattern.
    F64(u64),
    Bool(bool),
    String(String),
    Bytes(Vec<u8>),
    OptI8(Option<i8>),
    OptI16(Option<i16>),
    OptI32(Option<i32>),
    OptI64(Option<i64>),
    OptU8(Option<u8>),
    OptU16(Option<u16>),
    OptU32(Option<u32>),
    OptU64(Option<u64>),
    /// A nullable single-precision number, as its IEEE 754 bit pattern.
    OptF32(Option<u32>),
    /// A nullable double-precision number, as its IEEE 754 bit pattern.
    OptF64(Option<u64>),
    OptBool(Option<bool>),
    OptString(Option<String>),
    OptBytes(Option<Vec<u8>>),
    NaiveDate(NaiveDate),
    NaiveDateTime(NaiveDateTime),
    DateTimeUtc(DateTimeUtc),
    OptNaiveDate(Option<NaiveDate>),
    OptNaiveDateTime(Option<NaiveDateTime>),
    OptDateTimeUtc(Option<DateTimeUtc>),
    /// An identity, bound as its sixteen bytes.
    Uuid(Uuid),
    OptUuid(Option<Uuid>),
    Decimal(Decimal),
    OptDecimal(Option<Decimal>),
}

/// What a [`MySqlParam`] stands for.
pub enum MySqlParamView {
    I8(i8),
    I16(i16),
    I32(i32),
    I64(i64),
    U8(u8),
    U16(u16),
    U32(u32),
    U64(u64),
    F32(u32),
    F64(u64),
    Bool(bool),
    String(Seq<char>),
    Bytes(Seq<u8>),
    OptI8(Option<i8>),
    OptI16(Option<i16>),
    OptI32(Option<i32>),
    OptI64(Option<i64>),
    OptU8(Option<u8>),
    OptU16(Option<u16>),
    OptU32(Option<u32>),
    OptU64(Option<u64>),
    OptF32(Option<u32>),
    OptF64(Option<u64>),
    OptBool(Option<bool>),
    OptString(Option<Seq<char>>),
    OptBytes(Option<Seq<u8>>),
    NaiveDate(NaiveDate),
    NaiveDateTime(NaiveDateTime),
    DateTimeUtc(DateTimeUtc),
    OptNaiveDate(Option<NaiveDate>),
    OptNaiveDateTime(Option<NaiveDateTime>),
    OptDateTimeUtc(Option<DateTimeUtc>),
    Uuid(Seq<u8>),
    OptUuid(Option<Seq<u8>>),
    Decimal(DecimalView),
    OptDecimal(Option<DecimalView>),
}

impl DeepView for MySqlParam {
    type V = MySqlParamView;

    open spec fn deep_view(&self) -> MySqlParamView {
        match *self {
            MySqlParam::I8(v) => MySqlParamView::I8(v),
            MySqlParam::I16(v) => MySqlParamView::I16(v),
            MySqlParam::I32(v) => MySqlParamView::I32(v),
            MySqlParam::I64(v) => MySqlParamView::I64(v),
            MySqlParam::U8(v) => MySqlParamView::U8(v),
            MySqlParam::U16(v) => MySqlParamView::U16(v),
            MySqlParam::U32(v) => MySqlParamView::U32(v),
            MySqlParam::U64(v) => MySqlParamView::U64(v),
            MySqlParam::F32(v) => MySqlParamView::F32(v),
            MySqlParam::F64(v) => MySqlParamView::F64(v),
            MySqlParam::Bool(v) => MySqlParamView::Bool(v),
            MySqlParam::String(v) => MySqlParamView::String(v@),
            MySqlParam::Bytes(v) => MySqlParamView::Bytes(v@),
            MySqlParam::OptI8(v) => MySqlParamView::OptI8(v),
            MySqlParam::OptI16(v) => MySqlParamView::OptI16(v),
            MySqlParam::OptI32(v) => MySqlParamView::OptI32(v),
            MySqlParam::OptI64(v) => MySqlParamView::OptI64(v),
            MySqlParam::OptU8(v) => MySqlParamView::OptU8(v),
            MySqlParam::OptU16(v) => MySqlParamView::OptU16(v),
            MySqlParam::OptU32(v) => MySqlParamView::OptU32(v),
            MySqlParam::OptU64(v) => MySqlParamView::OptU64(v),
            MySqlParam::OptF32(v) => MySqlParamView::OptF32(v),
            MySqlParam::OptF64(v) => MySqlParamView::OptF64(v),
            MySqlParam::OptBool(v) => MySqlParamView::OptBool(v),
            MySqlParam::OptString(v) => MySqlParamView::OptString(v.deep_view()),
            MySqlParam::OptBytes(v) => MySqlParamView::OptBytes(v.deep_view()),
            MySqlParam::NaiveDate(v) => MySqlParamView::NaiveDate(v),
            MySqlParam::NaiveDateTime(v) => MySqlParamView::NaiveDateTime(v),
            MySqlParam::DateTimeUtc(v) => MySqlParamView::DateTimeUtc(v),
            MySqlParam::OptNaiveDate(v) => MySqlParamView::OptNaiveDate(v),
            MySqlParam::OptNaiveDateTime(v) => MySqlParamView::OptNaiveDateTime(v),
            MySqlParam::OptDateTimeUtc(v) => MySqlParamView::OptDateTimeUtc(v),
            MySqlParam::Uuid(v) => MySqlParamView::Uuid(v@),
            MySqlParam::OptUuid(v) => MySqlParamView::OptUuid(v.deep_view()),
            MySqlParam::Decimal(v) => MySqlParamView::Decimal(v@),
            MySqlParam::OptDecimal(v) => MySqlParamView::OptDecimal(v.deep_view()),
        }
    }
}

impl View for MySqlParam {
    type V = MySqlParamView;

    open spec fn view(&self) -> MySqlParamView {
        self.deep_view()
    }
}

impl MySqlParam {
    /// A copy of the parameter.
    pub fn replicate(&self) -> (r: MySqlParam)
        ensures
            r@ == self@,
    {
        match self {
            MySqlParam::I8(v) => MySqlParam::I8(*v),
            MySqlParam::I16(v) => MySqlParam::I16(*v),
            MySqlParam::I32(v) => MySqlParam::I32(*v),
            MySqlParam::I64(v) => MySqlParam::I64(*v),
            MySqlParam::U8(v) => MySqlParam::U8(*v),
            MySqlParam::U16(v) => MySqlParam::U16(*v),
            MySqlParam::U32(v) => MySqlParam::U32(*v),
            MySqlParam::U64(v) => MySqlParam::U64(*v),
            MySqlParam::F32(v) => MySqlParam::F32(*v),
            MySqlParam::F64(v) => MySqlParam::F64(*v),
            MySqlParam::Bool(v) => MySqlParam::Bool(*v),
            MySqlParam::String(v) => MySqlParam::String(v.clone()),
            MySqlParam::Bytes(v) => MySqlParam::Bytes(copy_bytes(v)),
            MySqlParam::OptI8(v) => MySqlParam::OptI8(*v),
            MySqlParam::OptI16(v) => MySqlParam::OptI16(*v),
            MySqlParam::OptI32(v) => MySqlParam::OptI32(*v),
            MySqlParam::OptI64(v) => MySqlParam::OptI64(*v),
            MySqlParam::OptU8(v) => MySqlParam::OptU8(*v),
            MySqlParam::OptU16(v) => MySqlParam::OptU16(*v),
            MySqlParam::OptU32(v) => MySqlParam::OptU32(*v),
            MySqlParam::OptU64(v) => MySqlParam::OptU64(*v),
            MySqlParam::OptF32(v) => MySqlParam::OptF32(*v),
            MySqlParam::OptF64(v) => MySqlParam::OptF64(*v),
            MySqlParam::OptBool(v) => MySqlParam::OptBool(*v),
            MySqlParam::OptString(v) => MySqlParam::OptString(clone_text(v)),
            MySqlParam::OptBytes(v) => MySqlParam::OptBytes(clone_bytes(v)),
            MySqlParam::NaiveDate(v) => MySqlParam::NaiveDate(*v),
            MySqlParam::NaiveDateTime(v) => MySqlParam::NaiveDateTime(*v),
            MySqlParam::DateTimeUtc(v) => MySqlParam::DateTimeUtc(*v),
            MySqlParam::OptNaiveDate(v) => MySqlParam::OptNaiveDate(*v),
            MySqlParam::OptNaiveDateTime(v) => MySqlParam::OptNaiveDateTime(*v),
            MySqlParam::OptDateTimeUtc(v) => MySqlParam::OptDateTimeUtc(*v),
            MySqlParam::Uuid(v) => MySqlParam::Uuid(*v),
            MySqlParam::OptUuid(v) => MySqlParam::OptUuid(*v),
            MySqlParam::Decimal(v) => MySqlParam::Decimal(*v),
            MySqlParam::OptDecimal(v) => MySqlParam::OptDecimal(*v),
        }
    }
}

/// What a store that keeps what it is given returns for a bound parameter:
/// text for text, bytes for bytes and identities, null for an optional
/// parameter that holds nothing. Floating-point parameters are left out.
pub open spec fn stored_value(param: MySqlParamView) -> SqlValueView {
    match param {
        MySqlParamView::I8(v) => SqlValueView::Int(v as i64),
        MySqlParamView::I16(v) => SqlValueView::Int(v as i64),
        MySqlParamView::I32(v) => SqlValueView::Int(v as i64),
        MySqlParamView::I64(v) => SqlValueView::Int(v),
        MySqlParamView::U8(v) => SqlValueView::UInt(v as u64),
        MySqlParamView::U16(v) => SqlValueView::UInt(v as u64),
        MySqlParamView::U32(v) => SqlValueView::UInt(v as u64),
        MySqlParamView::U64(v) => SqlValueView::UInt(v),
        MySqlParamView::Bool(v) => SqlValueView::Bool(v),
        MySqlParamView::String(v) => SqlValueView::Text(v),
        MySqlParamView::Bytes(v) => SqlValueView::Bytes(v),
        MySqlParamView::OptI64(Some(v)) => SqlValueView::Int(v),
        MySqlParamView::OptU32(Some(v)) => SqlValueView::UInt(v as u64),
        MySqlParamView::OptU64(Some(v)) => SqlValueView::UInt(v),
        MySqlParamView::OptBool(Some(v)) => SqlValueView::Bool(v),
        MySqlParamView::OptString(Some(v)) => SqlValueView::Text(v),
        MySqlParamView::OptBytes(Some(v)) => SqlValueView::Bytes(v),
        MySqlParamView::NaiveDate(v) => SqlValueView::Date(v),
        MySqlParamView::DateTimeUtc(v) => SqlValueView::DateTime(v),
        MySqlParamView::OptNaiveDate(Some(v)) => SqlValueView::Date(v),
        MySqlParamView::OptDateTimeUtc(Some(v)) => SqlValueView::DateTime(v),
        MySqlParamView::Uuid(v) => SqlValueView::Bytes(v),
        MySqlParamView::OptUuid(Some(v)) => SqlValueView::Bytes(v),
        MySqlParamView::Decimal(v) => SqlValueView::Decimal(v),
        MySqlParamView::OptDecimal(Some(v)) => SqlValueView::Decimal(v),
        _ => SqlValueView::Null,
    }
}

// Every value that can be bound converts into the parameter of its own type.

impl From<i8> for MySqlParam {
    fn from(v: i8) -> (param: Self) {
        MySqlParam::I8(v)
    }
}

impl FromSpecImpl<i8> for MySqlParam {
    open spec fn obeys_from_spec() -> bool {
        true
    }

    open spec fn from_spec(v: i8) -> Self {
        MySqlParam::I8(v)
    }
}

impl From<i16> for MySqlParam {
    fn from(v: i16) -> (param: Self) {
        MySqlParam::I16(v)
    }
}

impl FromSpecImpl<i16> for MySqlParam {
    open spec fn obeys_from_spec() -> bool {
        true
    }

    open spec fn from_spec(v: i16) -> Self {
        MySqlParam::I16(v)
    }
}

impl From<i32> for MySqlParam {
    fn from(v: i32) -> (param: Self) {
        MySqlParam::I32(v)
    }
}

impl FromSpecImpl<i32> for MySqlParam {
    open spec fn obeys_from_spec() -> bool {
        true
    }

    open spec fn from_spec(v: i32) -> Self {
        MySqlParam::I32(v)
    }
}

impl From<i64> for MySqlParam {
    fn from(v: i64) -> (param: Self) {
        MySqlParam::I64(v)
    }
}

impl FromSpecImpl<i64> for MySqlParam {
    open spec fn obeys_from_spec() -> bool {
        true
    }

    open spec fn from_spec(v: i64) -> Self {
        MySqlParam::I64(v)
    }
}

impl From<u8> for MySqlParam {
    fn from(v: u8) -> (param: Self) {
        MySqlParam::U8(v)
    }
}

impl FromSpecImpl<u8> for MySqlParam {
    open spec fn obeys_from_spec() -> bool {
        true
    }

    open spec fn from_spec(v: u8) -> Self {
        MySqlParam::U8(v)
    }
}

impl From<u16> for MySqlParam {
    fn from(v: u16) -> (param: Self) {
        MySqlParam::U16(v)
    }
}

impl FromSpecImpl<u16> for MySqlParam {
    open spec fn obeys_from_spec() -> bool {
        true
    }

    open spec fn from_spec(v: u16) -> Self {
        MySqlParam::U16(v)
    }
}

impl From<u32> for MySqlParam {
    fn from(v: u32) -> (param: Self) {
        MySqlParam::U32(v)
    }
}

impl FromSpecImpl<u32> for MySqlParam {
    open spec fn obeys_from_spec() -> bool {
        true
    }

    open spec fn from_spec(v: u32) -> Self {
        MySqlParam::U32(v)
    }
}

impl From<u64> for MySqlParam {
    fn from(v: u64) -> (param: Self) {
        MySqlParam::U64(v)
    }
}

impl FromSpecImpl<u64> for MySqlParam {
    open spec fn obeys_from_spec() -> bool {
        true
    }

    open spec fn from_spec(v: u64) -> Self {
        MySqlParam::U64(v)
    }
}

impl From<bool> for MySqlParam {
    fn from(v: bool) -> (param: Self) {
        MySqlParam::Bool(v)
    }
}

impl FromSpecImpl<bool> for MySqlParam {
    open spec fn obeys_from_spec() -> bool {
        true
    }

    open spec fn from_spec(v: bool) -> Self {
        MySqlParam::Bool(v)
    }
}

impl From<String> for MySqlParam {
    fn from(v: String) -> (param: Self) {
        MySqlParam::String(v)
    }
}

impl FromSpecImpl<String> for MySqlParam {
    open spec fn obeys_from_spec() -> bool {
        true
    }

    open spec fn from_spec(v: String) -> Self {
        MySqlParam::String(v)
    }
}

impl From<Vec<u8>> for MySqlParam {
    fn from(v: Vec<u8>) -> (param: Self) {
        MySqlParam::Bytes(v)
    }
}

impl FromSpecImpl<Vec<u8>> for MySqlParam {
    open spec fn obeys_from_spec() -> bool {
        true
    }

    open spec fn from_spec(v: Vec<u8>) -> Self {
        MySqlParam::Bytes(v)
    }
}

impl From<Option<i8>> for MySqlParam {
    fn from(v: Option<i8>) -> (param: Self) {
        MySqlParam::OptI8(v)
    }
}

impl FromSpecImpl<Option<i8>> for MySqlParam {
    open spec fn obeys_from_spec() -> bool {
        true
    }

    open spec fn from_spec(v: Option<i8>) -> Self {
        MySqlParam::OptI8(v)
    }
}

impl From<Option<i16>> for MySqlParam {
    fn from(v: Option<i16>) -> (param: Self) {
        MySqlParam::OptI16(v)
    }
}

impl FromSpecImpl<Option<i16>> for MySqlParam {
    open spec fn obeys_from_spec() -> bool {
        true
    }

    open spec fn from_spec(v: Option<i16>) -> Self {
        MySqlParam::OptI16(v)
    }
}

impl From<Option<i32>> for MySqlParam {
    fn from(v: Option<i32>) -> (param: Self) {
        MySqlParam::OptI32(v)
    }
}

impl FromSpecImpl<Option<i32>> for MySqlParam {
    open spec fn obeys_from_spec() -> bool {
        true
    }

    open spec fn from_spec(v: Option<i32>) -> Self {
        MySqlParam::OptI32(v)
    }
}

impl From<Option<i64>> for MySqlParam {
    fn from(v: Option<i64>) -> (param: Self) {
        MySqlParam::OptI64(v)
    }
}

impl FromSpecImpl<Option<i64>> for MySqlParam {
    open spec fn obeys_from_spec() -> bool {
        true
    }

    open spec fn from_spec(v: Option<i64>) -> Self {
        MySqlParam::OptI64(v)
    }
}

impl From<Option<u8>> for MySqlParam {
    fn from(v: Option<u8>) -> (param: Self) {
        MySqlParam::OptU8(v)
    }
}

impl FromSpecImpl<Option<u8>> for MySqlParam {
    open spec fn obeys_from_spec() -> bool {
        true
    }

    open spec fn from_spec(v: Option<u8>) -> Self {
        MySqlParam::OptU8(v)
    }
}

impl From<Option<u16>> for MySqlParam {
    fn from(v: Option<u16>) -> (param: Self) {
        MySqlParam::OptU16(v)
    }
}

impl FromSpecImpl<Option<u16>> for MySqlParam {
    open spec fn obeys_from_spec() -> bool {
        true
    }

    open spec fn from_spec(v: Option<u16>) -> Self {
        MySqlParam::OptU16(v)
    }
}

impl From<Option<u32>> for MySqlParam {
    fn from(v: Option<u32>) -> (param: Self) {
        MySqlParam::OptU32(v)
    }
}

impl FromSpecImpl<Option<u32>> for MySqlParam {
    open spec fn obeys_from_spec() -> bool {
        true
    }

    open spec fn from_spec(v: Option<u32>) -> Self {
        MySqlParam::OptU32(v)
    }
}

impl From<Option<u64>> for MySqlParam {
    fn from(v: Option<u64>) -> (param: Self) {
        MySqlParam::OptU64(v)
    }
}

impl FromSpecImpl<Option<u64>> for MySqlParam {
    open spec fn obeys_from_spec() -> bool {
        true
    }

    open spec fn from_spec(v: Option<u64>) -> Self {
        MySqlParam::OptU64(v)
    }
}

impl From<Option<bool>> for MySqlParam {
    fn from(v: Option<bool>) -> (param: Self) {
        MySqlParam::OptBool(v)
    }
}

impl FromSpecImpl<Option<bool>> for MySqlParam {
    open spec fn obeys_from_spec() -> bool {
        true
    }

    open spec fn from_spec(v: Option<bool>) -> Self {
        MySqlParam::OptBool(v)
    }
}

impl From<Option<String>> for MySqlParam {
    fn from(v: Option<String>) -> (param: Self) {
        MySqlParam::OptString(v)
    }
}

impl FromSpecImpl<Option<String>> for MySqlParam {
    open spec fn obeys_from_spec() -> bool {
        true
    }

    open spec fn from_spec(v: Option<String>) -> Self {
        MySqlParam::OptString(v)
    }
}

impl From<Option<Vec<u8>>> for MySqlParam {
    fn from(v: Option<Vec<u8>>) -> (param: Self) {
        MySqlParam::OptBytes(v)
    }
}

impl FromSpecImpl<Option<Vec<u8>>> for MySqlParam {
    open spec fn obeys_from_spec() -> bool {
        true
    }

    open spec fn from_spec(v: Option<Vec<u8>>) -> Self {
        MySqlParam::OptBytes(v)
    }
}

impl From<NaiveDate> for MySqlParam {
    fn from(v: NaiveDate) -> (param: Self) {
        MySqlParam::NaiveDate(v)
    }
}

impl FromSpecImpl<NaiveDate> for MySqlParam {
    open spec fn obeys_from_spec() -> bool {
        true
    }

    open spec fn from_spec(v: NaiveDate) -> Self {
        MySqlParam::NaiveDate(v)
    }
}

impl From<NaiveDateTime> for MySqlParam {
    fn from(v: NaiveDateTime) -> (param: Self) {
        MySqlParam::NaiveDateTime(v)
    }
}

impl FromSpecImpl<NaiveDateTime> for MySqlParam {
    open spec fn obeys_from_spec() -> bool {
        true
    }

    open spec fn from_spec(v: NaiveDateTime) -> Self {
        MySqlParam::NaiveDateTime(v)
    }
}

impl From<DateTimeUtc> for MySqlParam {
    fn from(v: DateTimeUtc) -> (param: Self) {
        MySqlParam::DateTimeUtc(v)
    }
}

impl FromSpecImpl<DateTimeUtc> for MySqlParam {
    open spec fn obeys_from_spec() -> bool {
        true
    }

    open spec fn from_spec(v: DateTimeUtc) -> Self {
        MySqlParam::DateTimeUtc(v)
    }
}

impl From<Option<NaiveDate>> for MySqlParam {
    fn from(v: Option<NaiveDate>) -> (param: Self) {
        MySqlParam::OptNaiveDate(v)
    }
}

impl FromSpecImpl<Option<NaiveDate>> for MySqlParam {
    open spec fn obeys_from_spec() -> bool {
        true
    }

    open spec fn from_spec(v: Option<NaiveDate>) -> Self {
        MySqlParam::OptNaiveDate(v)
    }
}

impl From<Option<NaiveDateTime>> for MySqlParam {
    fn from(v: Option<NaiveDateTime>) -> (param: Self) {
        MySqlParam::OptNaiveDateTime(v)
    }
}

impl FromSpecImpl<Option<NaiveDateTime>> for MySqlParam {
    open spec fn obeys_from_spec() -> bool {
        true
    }

    open spec fn from_spec(v: Option<NaiveDateTime>) -> Self {
        MySqlParam::OptNaiveDateTime(v)
    }
}

impl From<Option<DateTimeUtc>> for MySqlParam {
    fn from(v: Option<DateTimeUtc>) -> (param: Self) {
        MySqlParam::OptDateTimeUtc(v)
    }
}

impl FromSpecImpl<Option<DateTimeUtc>> for MySqlParam {
    open spec fn obeys_from_spec() -> bool {
        true
    }

    open spec fn from_spec(v: Option<DateTimeUtc>) -> Self {
        MySqlParam::OptDateTimeUtc(v)
    }
}

impl From<Uuid> for MySqlParam {
    fn from(v: Uuid) -> (param: Self) {
        MySqlParam::Uuid(v)
    }
}

impl FromSpecImpl<Uuid> for MySqlParam {
    open spec fn obeys_from_spec() -> bool {
        true
    }

    open spec fn from_spec(v: Uuid) -> Self {
        MySqlParam::Uuid(v)
    }
}

impl From<Option<Uuid>> for MySqlParam {
    fn from(v: Option<Uuid>) -> (param: Self) {
        MySqlParam::OptUuid(v)
    }
}

impl FromSpecImpl<Option<Uuid>> for MySqlParam {
    open spec fn obeys_from_spec() -> bool {
        true
    }

    open spec fn from_spec(v: Option<Uuid>) -> Self {
        MySqlParam::OptUuid(v)
    }
}

impl From<Decimal> for MySqlParam {
    fn from(v: Decimal) -> (param: Self) {
        MySqlParam::Decimal(v)
    }
}

impl FromSpecImpl<Decimal> for MySqlParam {
    open spec fn obeys_from_spec() -> bool {
        true
    }

    open spec fn from_spec(v: Decimal) -> Self {
        MySqlParam::Decimal(v)
    }
}

impl From<Option<Decimal>> for MySqlParam {
    fn from(v: Option<Decimal>) -> (param: Self) {
        MySqlParam::OptDecimal(v)
    }
}

impl FromSpecImpl<Option<Decimal>> for MySqlParam {
    open spec fn obeys_from_spec() -> bool {
        true
    }

    open spec fn from_spec(v: Option<Decimal>) -> Self {
        MySqlParam::OptDecimal(v)
    }
}

impl From<&String> for MySqlParam {
    fn from(v: &String) -> (param: Self) {
        MySqlParam::String(v.clone())
    }
}

impl FromSpecImpl<&String> for MySqlParam {
    open spec fn obeys_from_spec() -> bool {
        true
    }

    open spec fn from_spec(v: &String) -> Self {
        MySqlParam::String(*v)
    }
}

} // verus!
