//! Core data types: the tagged value, the quality indicator, the conversion
//! error, the fixed-point decimal record and the notification observer.

use crate::text::{
    decimal_digits, padded_decimal_digits, pow10, push_decimal, push_padded_decimal, push_str,
};
use std::sync::Arc;
use vstd::prelude::*;

verus! {

/// Type tag of a 16-bit signed integer.
pub const VT_I2: u32 = 2;

/// Type tag of a 32-bit signed integer.
pub const VT_I4: u32 = 3;

/// Type tag of a 32-bit float.
pub const VT_R4: u32 = 4;

/// Type tag of a 64-bit float.
pub const VT_R8: u32 = 5;

/// Type tag of a currency amount: a 64-bit integer scaled by 10,000.
pub const VT_CY: u32 = 6;

/// Type tag of a date: a 64-bit float counting days.
pub const VT_DATE: u32 = 7;

/// Type tag of an explicit-length wide string.
pub const VT_BSTR: u32 = 8;

/// Type tag of a boolean, stored as a 16-bit integer.
pub const VT_BOOL: u32 = 11;

/// Type tag of a 96-bit fixed-point decimal.
pub const VT_DECIMAL: u32 = 14;

/// Type tag of an 8-bit signed integer.
pub const VT_I1: u32 = 16;

/// Type tag of an 8-bit unsigned integer.
pub const VT_UI1: u32 = 17;

/// Type tag of a 16-bit unsigned integer.
pub const VT_UI2: u32 = 18;

/// Type tag of a 32-bit unsigned integer.
pub const VT_UI4: u32 = 19;

/// Type tag of a 64-bit signed integer.
pub const VT_I8: u32 = 20;

/// Type tag of a 64-bit unsigned integer.
pub const VT_UI8: u32 = 21;

/// Type tag of a platform signed integer, 32 bits wide on the native side.
pub const VT_INT: u32 = 22;

/// Type tag of a platform unsigned integer, 32 bits wide on the native side.
pub const VT_UINT: u32 = 23;

/// Type tag of a NUL-terminated single-byte string.
pub const VT_LPSTR: u32 = 30;

/// Type tag of a NUL-terminated wide string.
pub const VT_LPWSTR: u32 = 31;

/// Modifier bit: the value is a safe array of the base type.
pub const VT_ARRAY: u32 = 0x2000;

/// Modifier bit: the pointer leads to a pointer to the value.
pub const VT_BYREF: u32 = 0x4000;

/// Mask that leaves the base type of a tag.
pub const VT_TYPEMASK: u32 = 0xfff;

/// A 32-bit IEEE 754 number, held as its bit pattern.
#[derive(Debug, Clone, Copy, PartialEq, Eq, Structural)]
pub struct Float32 {
    pub bits: u32,
}

impl Float32 {
    /// The number with the given bit pattern.
    pub fn from_bits(bits: u32) -> (f: Float32)
        ensures
            f == (Float32 { bits }),
    {
        Float32 { bits }
    }

    /// The bit pattern of the number.
    pub fn to_bits(self) -> (bits: u32)
        ensures
            bits == self.bits,
    {
        self.bits
    }
}

/// A 64-bit IEEE 754 number, held as its bit pattern.
#[derive(Debug, Clone, Copy, PartialEq, Eq, Structural)]
pub struct Float64 {
    pub bits: u64,
}

impl Float64 {
    /// The number with the given bit pattern.
    pub fn from_bits(bits: u64) -> (f: Float64)
        ensures
            f == (Float64 { bits }),
    {
        Float64 { bits }
    }

    /// The bit pattern of the number.
    pub fn to_bits(self) -> (bits: u64)
        ensures
            bits == self.bits,
    {
        self.bits
    }
}

/// Reliability of a data point: the headline tri-state of a status code.
#[derive(Debug, Clone, Copy, PartialEq, Eq, Structural)]
pub enum OpcQuality {
    /// The value is reliable; encoded as 192.
    Good,
    /// The value is doubtful; encoded as 64.
    Uncertain,
    /// The value is not usable; encoded as 0.
    Bad,
}

impl OpcQuality {
    /// The quality that a status code carries in its bits 7 and 6: `00` is
    /// bad, `01` uncertain, `11` good, and the unassigned `10` counts as
    /// uncertain. All other bits are disregarded.
    pub open spec fn spec_from_raw(quality: i32) -> OpcQuality {
        let top = quality & 0xC0;
        if top == 0 {
            OpcQuality::Bad
        } else if top == 192 {
            OpcQuality::Good
        } else {
            OpcQuality::Uncertain
        }
    }

    /// The status code of a quality, with the sub-status and limit bits zero.
    pub open spec fn spec_to_raw(self) -> i32 {
        match self {
            OpcQuality::Good => 192,
            OpcQuality::Uncertain => 64,
            OpcQuality::Bad => 0,
        }
    }

    /// Decodes a status code.
    pub fn from_raw(quality: i32) -> (q: OpcQuality)
        ensures
            q == Self::spec_from_raw(quality),
    {
        let top: i32 = quality & 0xC0;
        if top == 0 {
            OpcQuality::Bad
        } else if top == 192 {
            OpcQuality::Good
        } else {
            OpcQuality::Uncertain
        }
    }

    /// Encodes a quality as a status code.
    pub fn to_raw(&self) -> (raw: i32)
        ensures
            raw == self.spec_to_raw(),
    {
        match self {
            OpcQuality::Good => 192,
            OpcQuality::Uncertain => 64,
            OpcQuality::Bad => 0,
        }
    }

    /// The name of a quality.
    pub open spec fn name(self) -> Seq<char> {
        match self {
            OpcQuality::Good => "Good"@,
            OpcQuality::Uncertain => "Uncertain"@,
            OpcQuality::Bad => "Bad"@,
        }
    }

    /// The name of the quality, as shown to users.
    pub fn to_string(&self) -> (s: String)
        ensures
            s@ == self.name(),
    {
        match self {
            OpcQuality::Good => "Good".to_string(),
            OpcQuality::Uncertain => "Uncertain".to_string(),
            OpcQuality::Bad => "Bad".to_string(),
        }
    }

    /// Encoding a quality and decoding the code gives the quality back.
    pub proof fn lemma_round_trip(q: OpcQuality)
        ensures
            Self::spec_from_raw(q.spec_to_raw()) == q,
    {
        assert(192i32 & 0xC0 == 192 && 64i32 & 0xC0 == 64 && 0i32 & 0xC0 == 0) by (bit_vector);
    }

    /// Decoding looks at bits 7 and 6 only, and re-encoding leaves every
    /// other bit zero.
    pub proof fn lemma_low_bits_discarded(quality: i32)
        ensures
            Self::spec_from_raw(quality) == Self::spec_from_raw(quality & 0xC0),
            Self::spec_from_raw(quality).spec_to_raw() & !0xC0i32 == 0,
            quality & 0xC0 == 192 ==> Self::spec_from_raw(quality) == OpcQuality::Good,
            quality & 0xC0 == 0 ==> Self::spec_from_raw(quality) == OpcQuality::Bad,
            quality & 0xC0 == 64 || quality & 0xC0 == 128 ==> Self::spec_from_raw(quality)
                == OpcQuality::Uncertain,
            quality & 0xC0 == 0 || quality & 0xC0 == 64 || quality & 0xC0 == 128 || quality & 0xC0
                == 192,
    {
        assert((quality & 0xC0) & 0xC0 == quality & 0xC0) by (bit_vector);
        assert(192i32 & !0xC0i32 == 0 && 64i32 & !0xC0i32 == 0 && 0i32 & !0xC0i32 == 0)
            by (bit_vector);
        assert(quality & 0xC0 == 0 || quality & 0xC0 == 64 || quality & 0xC0 == 128 || quality
            & 0xC0 == 192) by (bit_vector);
    }
}

/// Why a value could not be converted.
#[derive(Debug, Clone, PartialEq)]
pub enum OpcValueError {
    /// The value holds another kind than the one asked for.
    TypeMismatch { expected: String, actual: String },
    /// The native representation could not be read as the tagged kind.
    ConversionError(String),
    /// The type tag names no known kind; the raw tag is kept for diagnosis.
    InvalidValueType(u32),
}

/// Mathematical content of an [`OpcValueError`].
pub enum ValueErrorView {
    TypeMismatch { expected: Seq<char>, actual: Seq<char> },
    ConversionError(Seq<char>),
    InvalidValueType(u32),
}

impl View for OpcValueError {
    type V = ValueErrorView;

    open spec fn view(&self) -> ValueErrorView {
        match self {
            OpcValueError::TypeMismatch { expected, actual } => ValueErrorView::TypeMismatch {
                expected: expected@,
                actual: actual@,
            },
            OpcValueError::ConversionError(msg) => ValueErrorView::ConversionError(msg@),
            OpcValueError::InvalidValueType(tag) => ValueErrorView::InvalidValueType(*tag),
        }
    }
}

impl ValueErrorView {
    /// The message shown for the error.
    pub open spec fn message(self) -> Seq<char> {
        match self {
            ValueErrorView::TypeMismatch { expected, actual } => "Type mismatch: expected "@
                + expected + ", got "@ + actual,
            ValueErrorView::ConversionError(msg) => "Conversion error: "@ + msg,
            ValueErrorView::InvalidValueType(tag) => "Invalid value type: "@ + decimal_digits(
                tag as nat,
            ),
        }
    }
}

impl OpcValueError {
    /// An error for a value of kind `actual` where `expected` was asked for.
    pub fn type_mismatch(expected: &str, actual: &str) -> (e: OpcValueError)
        ensures
            e@ == (ValueErrorView::TypeMismatch { expected: expected@, actual: actual@ }),
    {
        OpcValueError::TypeMismatch { expected: expected.to_string(), actual: actual.to_string() }
    }

    /// An error for a native representation that could not be read.
    pub fn conversion_error(msg: &str) -> (e: OpcValueError)
        ensures
            e@ == ValueErrorView::ConversionError(msg@),
    {
        OpcValueError::ConversionError(msg.to_string())
    }

    /// The message of the error, as shown to users.
    pub fn to_string(&self) -> (s: String)
        ensures
            s@ == self@.message(),
    {
        match self {
            OpcValueError::TypeMismatch { expected, actual } => {
                let mut s = "Type mismatch: expected ".to_string();
                push_str(&mut s, expected.as_str());
                push_str(&mut s, ", got ");
                push_str(&mut s, actual.as_str());
                s
            },
            OpcValueError::ConversionError(msg) => {
                let mut s = "Conversion error: ".to_string();
                push_str(&mut s, msg.as_str());
                s
            },
            OpcValueError::InvalidValueType(tag) => {
                let mut s = "Invalid value type: ".to_string();
                push_decimal(&mut s, *tag as u128);
                s
            },
        }
    }
}

/// The content of one data point: a scalar of fixed width, a boolean, a
/// currency amount, a decimal rendered as text, a date, a string, or a
/// homogeneous array. Floats and dates are held as bit patterns.
#[derive(Debug, Clone, PartialEq)]
pub enum OpcValue {
    /// 8-bit signed integer.
    Int8(i8),
    /// 8-bit unsigned integer.
    UInt8(u8),
    /// 16-bit signed integer.
    Int16(i16),
    /// 16-bit unsigned integer.
    UInt16(u16),
    /// 32-bit signed integer.
    Int32(i32),
    /// 32-bit unsigned integer.
    UInt32(u32),
    /// 64-bit signed integer.
    Int64(i64),
    /// 64-bit unsigned integer.
    UInt64(u64),
    /// Platform-width signed integer.
    INT(isize),
    /// Platform-width unsigned integer.
    UINT(usize),
    /// 32-bit float.
    Float(Float32),
    /// 64-bit float.
    Double(Float64),
    /// Boolean.
    Bool(bool),
    /// Currency: a 64-bit integer implicitly scaled by 10,000.
    Cy(i64),
    /// Fixed-point decimal, rendered as decimal text.
    Decimal(String),
    /// Date: a 64-bit float counting days from the epoch.
    Date(Float64),
    /// Text.
    String(String),
    /// Array of 16-bit signed integers.
    ArrayInt16(Vec<i16>),
    /// Array of 16-bit unsigned integers.
    ArrayUInt16(Vec<u16>),
    /// Array of 32-bit signed integers.
    ArrayInt32(Vec<i32>),
    /// Array of 32-bit unsigned integers.
    ArrayUInt32(Vec<u32>),
    /// Array of 64-bit signed integers.
    ArrayInt64(Vec<i64>),
    /// Array of 64-bit unsigned integers.
    ArrayUInt64(Vec<u64>),
    /// Array of 32-bit floats.
    ArrayFloat(Vec<Float32>),
    /// Array of 64-bit floats.
    ArrayDouble(Vec<Float64>),
    /// Array of booleans.
    ArrayBool(Vec<bool>),
    /// Array of strings.
    ArrayString(Vec<String>),
}

/// Mathematical content of an [`OpcValue`].
pub enum ValueView {
    Int8(i8),
    UInt8(u8),
    Int16(i16),
    UInt16(u16),
    Int32(i32),
    UInt32(u32),
    Int64(i64),
    UInt64(u64),
    INT(isize),
    UINT(usize),
    Float(Float32),
    Double(Float64),
    Bool(bool),
    Cy(i64),
    Decimal(Seq<char>),
    Date(Float64),
    String(Seq<char>),
    ArrayInt16(Seq<i16>),
    ArrayUInt16(Seq<u16>),
    ArrayInt32(Seq<i32>),
    ArrayUInt32(Seq<u32>),
    ArrayInt64(Seq<i64>),
    ArrayUInt64(Seq<u64>),
    ArrayFloat(Seq<Float32>),
    ArrayDouble(Seq<Float64>),
    ArrayBool(Seq<bool>),
    ArrayString(Seq<Seq<char>>),
}

impl View for OpcValue {
    type V = ValueView;

    open spec fn view(&self) -> ValueView {
        match self {
            OpcValue::Int8(v) => ValueView::Int8(*v),
            OpcValue::UInt8(v) => ValueView::UInt8(*v),
            OpcValue::Int16(v) => ValueView::Int16(*v),
            OpcValue::UInt16(v) => ValueView::UInt16(*v),
            OpcValue::Int32(v) => ValueView::Int32(*v),
            OpcValue::UInt32(v) => ValueView::UInt32(*v),
            OpcValue::Int64(v) => ValueView::Int64(*v),
            OpcValue::UInt64(v) => ValueView::UInt64(*v),
            OpcValue::INT(v) => ValueView::INT(*v),
            OpcValue::UINT(v) => ValueView::UINT(*v),
            OpcValue::Float(v) => ValueView::Float(*v),
            OpcValue::Double(v) => ValueView::Double(*v),
            OpcValue::Bool(v) => ValueView::Bool(*v),
            OpcValue::Cy(v) => ValueView::Cy(*v),
            OpcValue::Decimal(v) => ValueView::Decimal(v@),
            OpcValue::Date(v) => ValueView::Date(*v),
            OpcValue::String(v) => ValueView::String(v@),
            OpcValue::ArrayInt16(v) => ValueView::ArrayInt16(v@),
            OpcValue::ArrayUInt16(v) => ValueView::ArrayUInt16(v@),
            OpcValue::ArrayInt32(v) => ValueView::ArrayInt32(v@),
            OpcValue::ArrayUInt32(v) => ValueView::ArrayUInt32(v@),
            OpcValue::ArrayInt64(v) => ValueView::ArrayInt64(v@),
            OpcValue::ArrayUInt64(v) => ValueView::ArrayUInt64(v@),
            OpcValue::ArrayFloat(v) => ValueView::ArrayFloat(v@),
            OpcValue::ArrayDouble(v) => ValueView::ArrayDouble(v@),
            OpcValue::ArrayBool(v) => ValueView::ArrayBool(v@),
            OpcValue::ArrayString(v) => ValueView::ArrayString(v.deep_view()),
        }
    }
}

impl ValueView {
    /// The name of the kind of a value.
    pub open spec fn kind_name(self) -> Seq<char> {
        match self {
            ValueView::Int8(_) => "I1"@,
            ValueView::UInt8(_) => "UI1"@,
            ValueView::Int16(_) => "Int16"@,
            ValueView::UInt16(_) => "UI2"@,
            ValueView::Int32(_) => "Int32"@,
            ValueView::UInt32(_) => "UI4"@,
            ValueView::Int64(_) => "I8"@,
            ValueView::UInt64(_) => "UI8"@,
            ValueView::INT(_) => "INT"@,
            ValueView::UINT(_) => "UINT"@,
            ValueView::Float(_) => "Float"@,
            ValueView::Double(_) => "Double"@,
            ValueView::Bool(_) => "Bool"@,
            ValueView::Cy(_) => "Cy"@,
            ValueView::Decimal(_) => "Decimal"@,
            ValueView::Date(_) => "Date"@,
            ValueView::String(_) => "String"@,
            ValueView::ArrayInt16(_) => "ArrayInt16"@,
            ValueView::ArrayUInt16(_) => "ArrayUI2"@,
            ValueView::ArrayInt32(_) => "ArrayInt32"@,
            ValueView::ArrayUInt32(_) => "ArrayUI4"@,
            ValueView::ArrayInt64(_) => "ArrayI8"@,
            ValueView::ArrayUInt64(_) => "ArrayUI8"@,
            ValueView::ArrayFloat(_) => "ArrayFloat"@,
            ValueView::ArrayDouble(_) => "ArrayDouble"@,
            ValueView::ArrayBool(_) => "ArrayBool"@,
            ValueView::ArrayString(_) => "ArrayString"@,
        }
    }

    /// The type tag under which the native side knows the kind of a value:
    /// the base tag of a scalar, and the array modifier with the element's
    /// base tag for an array.
    pub open spec fn raw_type(self) -> u32 {
        match self {
            ValueView::Int8(_) => 16,
            ValueView::UInt8(_) => 17,
            ValueView::Int16(_) => 2,
            ValueView::UInt16(_) => 18,
            ValueView::Int32(_) => 3,
            ValueView::UInt32(_) => 19,
            ValueView::Int64(_) => 20,
            ValueView::UInt64(_) => 21,
            ValueView::INT(_) => 22,
            ValueView::UINT(_) => 23,
            ValueView::Float(_) => 4,
            ValueView::Double(_) => 5,
            ValueView::Bool(_) => 11,
            ValueView::Cy(_) => 6,
            ValueView::Decimal(_) => 14,
            ValueView::Date(_) => 7,
            ValueView::String(_) => 8,
            ValueView::ArrayInt16(_) => 0x2002,
            ValueView::ArrayUInt16(_) => 0x2012,
            ValueView::ArrayInt32(_) => 0x2003,
            ValueView::ArrayUInt32(_) => 0x2013,
            ValueView::ArrayInt64(_) => 0x2014,
            ValueView::ArrayUInt64(_) => 0x2015,
            ValueView::ArrayFloat(_) => 0x2004,
            ValueView::ArrayDouble(_) => 0x2005,
            ValueView::ArrayBool(_) => 0x200b,
            ValueView::ArrayString(_) => 0x2008,
        }
    }

    /// Whether the value is an array.
    pub open spec fn is_array(self) -> bool {
        self.raw_type() >= 0x2000
    }
}

impl OpcValue {
    /// The name of the kind of the value.
    pub fn kind_name(&self) -> (name: &'static str)
        ensures
            name@ == self@.kind_name(),
    {
        match self {
            OpcValue::Int8(_) => "I1",
            OpcValue::UInt8(_) => "UI1",
            OpcValue::Int16(_) => "Int16",
            OpcValue::UInt16(_) => "UI2",
            OpcValue::Int32(_) => "Int32",
            OpcValue::UInt32(_) => "UI4",
            OpcValue::Int64(_) => "I8",
            OpcValue::UInt64(_) => "UI8",
            OpcValue::INT(_) => "INT",
            OpcValue::UINT(_) => "UINT",
            OpcValue::Float(_) => "Float",
            OpcValue::Double(_) => "Double",
            OpcValue::Bool(_) => "Bool",
            OpcValue::Cy(_) => "Cy",
            OpcValue::Decimal(_) => "Decimal",
            OpcValue::Date(_) => "Date",
            OpcValue::String(_) => "String",
            OpcValue::ArrayInt16(_) => "ArrayInt16",
            OpcValue::ArrayUInt16(_) => "ArrayUI2",
            OpcValue::ArrayInt32(_) => "ArrayInt32",
            OpcValue::ArrayUInt32(_) => "ArrayUI4",
            OpcValue::ArrayInt64(_) => "ArrayI8",
            OpcValue::ArrayUInt64(_) => "ArrayUI8",
            OpcValue::ArrayFloat(_) => "ArrayFloat",
            OpcValue::ArrayDouble(_) => "ArrayDouble",
            OpcValue::ArrayBool(_) => "ArrayBool",
            OpcValue::ArrayString(_) => "ArrayString",
        }
    }

    /// The type tag under which the native side knows the kind of the value.
    pub fn raw_type(&self) -> (tag: u32)
        ensures
            tag == self@.raw_type(),
            self@.is_array() ==> tag == VT_ARRAY | (tag & VT_TYPEMASK),
            self@.is_array() <==> tag & VT_ARRAY != 0,
            tag & VT_BYREF == 0,
            !self@.is_array() ==> tag & VT_TYPEMASK == tag,
    {
        let tag: u32 = match self {
            OpcValue::Int8(_) => VT_I1,
            OpcValue::UInt8(_) => VT_UI1,
            OpcValue::Int16(_) => VT_I2,
            OpcValue::UInt16(_) => VT_UI2,
            OpcValue::Int32(_) => VT_I4,
            OpcValue::UInt32(_) => VT_UI4,
            OpcValue::Int64(_) => VT_I8,
            OpcValue::UInt64(_) => VT_UI8,
            OpcValue::INT(_) => VT_INT,
            OpcValue::UINT(_) => VT_UINT,
            OpcValue::Float(_) => VT_R4,
            OpcValue::Double(_) => VT_R8,
            OpcValue::Bool(_) => VT_BOOL,
            OpcValue::Cy(_) => VT_CY,
            OpcValue::Decimal(_) => VT_DECIMAL,
            OpcValue::Date(_) => VT_DATE,
            OpcValue::String(_) => VT_BSTR,
            OpcValue::ArrayInt16(_) => VT_ARRAY | VT_I2,
            OpcValue::ArrayUInt16(_) => VT_ARRAY | VT_UI2,
            OpcValue::ArrayInt32(_) => VT_ARRAY | VT_I4,
            OpcValue::ArrayUInt32(_) => VT_ARRAY | VT_UI4,
            OpcValue::ArrayInt64(_) => VT_ARRAY | VT_I8,
            OpcValue::ArrayUInt64(_) => VT_ARRAY | VT_UI8,
            OpcValue::ArrayFloat(_) => VT_ARRAY | VT_R4,
            OpcValue::ArrayDouble(_) => VT_ARRAY | VT_R8,
            OpcValue::ArrayBool(_) => VT_ARRAY | VT_BOOL,
            OpcValue::ArrayString(_) => VT_ARRAY | VT_BSTR,
        };
        proof {
            lemma_array_tags();
            lemma_tag_bits(tag);
        }
        tag
    }
}

/// The error for a value of another kind than the one asked for.
pub open spec fn mismatch(expected: Seq<char>, actual: ValueView) -> ValueErrorView {
    ValueErrorView::TypeMismatch { expected, actual: actual.kind_name() }
}

impl TryFrom<OpcValue> for i16 {
    type Error = OpcValueError;

    /// The payload of a value of kind `Int16`.
    fn try_from(value: OpcValue) -> (r: Result<i16, OpcValueError>)
        ensures
            value matches OpcValue::Int16(v) ==> r == Ok::<i16, OpcValueError>(v),
            !(value is Int16) ==> (r matches Err(e) && e@ == mismatch("Int16"@, value@)),
    {
        match value {
            OpcValue::Int16(v) => Ok(v),
            _ => Err(OpcValueError::type_mismatch("Int16", value.kind_name())),
        }
    }
}

impl vstd::std_specs::convert::TryFromSpecImpl<OpcValue> for i16 {
    open spec fn obeys_try_from_spec() -> bool {
        false
    }

    open spec fn try_from_spec(v: OpcValue) -> Result<i16, OpcValueError> {
        arbitrary()
    }
}

impl TryFrom<OpcValue> for i32 {
    type Error = OpcValueError;

    /// The payload of a value of kind `Int32`.
    fn try_from(value: OpcValue) -> (r: Result<i32, OpcValueError>)
        ensures
            value matches OpcValue::Int32(v) ==> r == Ok::<i32, OpcValueError>(v),
            !(value is Int32) ==> (r matches Err(e) && e@ == mismatch("Int32"@, value@)),
    {
        match value {
            OpcValue::Int32(v) => Ok(v),
            _ => Err(OpcValueError::type_mismatch("Int32", value.kind_name())),
        }
    }
}

impl vstd::std_specs::convert::TryFromSpecImpl<OpcValue> for i32 {
    open spec fn obeys_try_from_spec() -> bool {
        false
    }

    open spec fn try_from_spec(v: OpcValue) -> Result<i32, OpcValueError> {
        arbitrary()
    }
}

impl TryFrom<OpcValue> for Float32 {
    type Error = OpcValueError;

    /// The payload of a value of kind `Float`.
    fn try_from(value: OpcValue) -> (r: Result<Float32, OpcValueError>)
        ensures
            value matches OpcValue::Float(v) ==> r == Ok::<Float32, OpcValueError>(v),
            !(value is Float) ==> (r matches Err(e) && e@ == mismatch("Float"@, value@)),
    {
        match value {
            OpcValue::Float(v) => Ok(v),
            _ => Err(OpcValueError::type_mismatch("Float", value.kind_name())),
        }
    }
}

impl vstd::std_specs::convert::TryFromSpecImpl<OpcValue> for Float32 {
    open spec fn obeys_try_from_spec() -> bool {
        false
    }

    open spec fn try_from_spec(v: OpcValue) -> Result<Float32, OpcValueError> {
        arbitrary()
    }
}

impl TryFrom<OpcValue> for Float64 {
    type Error = OpcValueError;

    /// The payload of a value of kind `Double`.
    fn try_from(value: OpcValue) -> (r: Result<Float64, OpcValueError>)
        ensures
            value matches OpcValue::Double(v) ==> r == Ok::<Float64, OpcValueError>(v),
            !(value is Double) ==> (r matches Err(e) && e@ == mismatch("Double"@, value@)),
    {
        match value {
            OpcValue::Double(v) => Ok(v),
            _ => Err(OpcValueError::type_mismatch("Double", value.kind_name())),
        }
    }
}

impl vstd::std_specs::convert::TryFromSpecImpl<OpcValue> for Float64 {
    open spec fn obeys_try_from_spec() -> bool {
        false
    }

    open spec fn try_from_spec(v: OpcValue) -> Result<Float64, OpcValueError> {
        arbitrary()
    }
}

impl TryFrom<OpcValue> for String {
    type Error = OpcValueError;

    /// The text of a string value.
    fn try_from(value: OpcValue) -> (r: Result<String, OpcValueError>)
        ensures
            value matches OpcValue::String(v) ==> (r matches Ok(s) && s@ == v@),
            !(value is String) ==> (r matches Err(e) && e@ == mismatch("String"@, value@)),
    {
        match value {
            OpcValue::String(v) => Ok(v),
            _ => Err(OpcValueError::type_mismatch("String", value.kind_name())),
        }
    }
}

impl vstd::std_specs::convert::TryFromSpecImpl<OpcValue> for String {
    open spec fn obeys_try_from_spec() -> bool {
        false
    }

    open spec fn try_from_spec(v: OpcValue) -> Result<String, OpcValueError> {
        arbitrary()
    }
}

impl TryFrom<OpcValue> for i8 {
    type Error = OpcValueError;

    /// The payload of a value of kind `Int8`.
    fn try_from(value: OpcValue) -> (r: Result<i8, OpcValueError>)
        ensures
            value matches OpcValue::Int8(v) ==> r == Ok::<i8, OpcValueError>(v),
            !(value is Int8) ==> (r matches Err(e) && e@ == mismatch("I1"@, value@)),
    {
        match value {
            OpcValue::Int8(v) => Ok(v),
            _ => Err(OpcValueError::type_mismatch("I1", value.kind_name())),
        }
    }
}

impl vstd::std_specs::convert::TryFromSpecImpl<OpcValue> for i8 {
    open spec fn obeys_try_from_spec() -> bool {
        false
    }

    open spec fn try_from_spec(v: OpcValue) -> Result<i8, OpcValueError> {
        arbitrary()
    }
}

impl TryFrom<OpcValue> for u8 {
    type Error = OpcValueError;

    /// The payload of a value of kind `UInt8`.
    fn try_from(value: OpcValue) -> (r: Result<u8, OpcValueError>)
        ensures
            value matches OpcValue::UInt8(v) ==> r == Ok::<u8, OpcValueError>(v),
            !(value is UInt8) ==> (r matches Err(e) && e@ == mismatch("UI1"@, value@)),
    {
        match value {
            OpcValue::UInt8(v) => Ok(v),
            _ => Err(OpcValueError::type_mismatch("UI1", value.kind_name())),
        }
    }
}

impl vstd::std_specs::convert::TryFromSpecImpl<OpcValue> for u8 {
    open spec fn obeys_try_from_spec() -> bool {
        false
    }

    open spec fn try_from_spec(v: OpcValue) -> Result<u8, OpcValueError> {
        arbitrary()
    }
}

impl TryFrom<OpcValue> for u16 {
    type Error = OpcValueError;

    /// The payload of a value of kind `UInt16`.
    fn try_from(value: OpcValue) -> (r: Result<u16, OpcValueError>)
        ensures
            value matches OpcValue::UInt16(v) ==> r == Ok::<u16, OpcValueError>(v),
            !(value is UInt16) ==> (r matches Err(e) && e@ == mismatch("UI2"@, value@)),
    {
        match value {
            OpcValue::UInt16(v) => Ok(v),
            _ => Err(OpcValueError::type_mismatch("UI2", value.kind_name())),
        }
    }
}

impl vstd::std_specs::convert::TryFromSpecImpl<OpcValue> for u16 {
    open spec fn obeys_try_from_spec() -> bool {
        false
    }

    open spec fn try_from_spec(v: OpcValue) -> Result<u16, OpcValueError> {
        arbitrary()
    }
}

impl TryFrom<OpcValue> for u32 {
    type Error = OpcValueError;

    /// The payload of a value of kind `UInt32`.
    fn try_from(value: OpcValue) -> (r: Result<u32, OpcValueError>)
        ensures
            value matches OpcValue::UInt32(v) ==> r == Ok::<u32, OpcValueError>(v),
            !(value is UInt32) ==> (r matches Err(e) && e@ == mismatch("UI4"@, value@)),
    {
        match value {
            OpcValue::UInt32(v) => Ok(v),
            _ => Err(OpcValueError::type_mismatch("UI4", value.kind_name())),
        }
    }
}

impl vstd::std_specs::convert::TryFromSpecImpl<OpcValue> for u32 {
    open spec fn obeys_try_from_spec() -> bool {
        false
    }

    open spec fn try_from_spec(v: OpcValue) -> Result<u32, OpcValueError> {
        arbitrary()
    }
}

impl TryFrom<OpcValue> for i64 {
    type Error = OpcValueError;

    /// The number of a 64-bit signed integer or of a currency amount.
    fn try_from(value: OpcValue) -> (r: Result<i64, OpcValueError>)
        ensures
            value matches OpcValue::Int64(v) ==> r == Ok::<i64, OpcValueError>(v),
            value matches OpcValue::Cy(v) ==> r == Ok::<i64, OpcValueError>(v),
            !(value is Int64) && !(value is Cy) ==> (r matches Err(e) && e@ == mismatch(
                "I8 or Cy"@,
                value@,
            )),
    {
        match value {
            OpcValue::Int64(v) => Ok(v),
            OpcValue::Cy(v) => Ok(v),
            _ => Err(OpcValueError::type_mismatch("I8 or Cy", value.kind_name())),
        }
    }
}

impl vstd::std_specs::convert::TryFromSpecImpl<OpcValue> for i64 {
    open spec fn obeys_try_from_spec() -> bool {
        false
    }

    open spec fn try_from_spec(v: OpcValue) -> Result<i64, OpcValueError> {
        arbitrary()
    }
}

impl TryFrom<OpcValue> for u64 {
    type Error = OpcValueError;

    /// The payload of a value of kind `UInt64`.
    fn try_from(value: OpcValue) -> (r: Result<u64, OpcValueError>)
        ensures
            value matches OpcValue::UInt64(v) ==> r == Ok::<u64, OpcValueError>(v),
            !(value is UInt64) ==> (r matches Err(e) && e@ == mismatch("UI8"@, value@)),
    {
        match value {
            OpcValue::UInt64(v) => Ok(v),
            _ => Err(OpcValueError::type_mismatch("UI8", value.kind_name())),
        }
    }
}

impl vstd::std_specs::convert::TryFromSpecImpl<OpcValue> for u64 {
    open spec fn obeys_try_from_spec() -> bool {
        false
    }

    open spec fn try_from_spec(v: OpcValue) -> Result<u64, OpcValueError> {
        arbitrary()
    }
}

impl TryFrom<OpcValue> for isize {
    type Error = OpcValueError;

    /// The payload of a value of kind `INT`.
    fn try_from(value: OpcValue) -> (r: Result<isize, OpcValueError>)
        ensures
            value matches OpcValue::INT(v) ==> r == Ok::<isize, OpcValueError>(v),
            !(value is INT) ==> (r matches Err(e) && e@ == mismatch("INT"@, value@)),
    {
        match value {
            OpcValue::INT(v) => Ok(v),
            _ => Err(OpcValueError::type_mismatch("INT", value.kind_name())),
        }
    }
}

impl vstd::std_specs::convert::TryFromSpecImpl<OpcValue> for isize {
    open spec fn obeys_try_from_spec() -> bool {
        false
    }

    open spec fn try_from_spec(v: OpcValue) -> Result<isize, OpcValueError> {
        arbitrary()
    }
}

impl TryFrom<OpcValue> for usize {
    type Error = OpcValueError;

    /// The payload of a value of kind `UINT`.
    fn try_from(value: OpcValue) -> (r: Result<usize, OpcValueError>)
        ensures
            value matches OpcValue::UINT(v) ==> r == Ok::<usize, OpcValueError>(v),
            !(value is UINT) ==> (r matches Err(e) && e@ == mismatch("UINT"@, value@)),
    {
        match value {
            OpcValue::UINT(v) => Ok(v),
            _ => Err(OpcValueError::type_mismatch("UINT", value.kind_name())),
        }
    }
}

impl vstd::std_specs::convert::TryFromSpecImpl<OpcValue> for usize {
    open spec fn obeys_try_from_spec() -> bool {
        false
    }

    open spec fn try_from_spec(v: OpcValue) -> Result<usize, OpcValueError> {
        arbitrary()
    }
}

impl TryFrom<OpcValue> for bool {
    type Error = OpcValueError;

    /// The payload of a value of kind `Bool`.
    fn try_from(value: OpcValue) -> (r: Result<bool, OpcValueError>)
        ensures
            value matches OpcValue::Bool(v) ==> r == Ok::<bool, OpcValueError>(v),
            !(value is Bool) ==> (r matches Err(e) && e@ == mismatch("Bool"@, value@)),
    {
        match value {
            OpcValue::Bool(v) => Ok(v),
            _ => Err(OpcValueError::type_mismatch("Bool", value.kind_name())),
        }
    }
}

impl vstd::std_specs::convert::TryFromSpecImpl<OpcValue> for bool {
    open spec fn obeys_try_from_spec() -> bool {
        false
    }

    open spec fn try_from_spec(v: OpcValue) -> Result<bool, OpcValueError> {
        arbitrary()
    }
}

/// The array modifier joined with each supported element tag.
pub proof fn lemma_array_tags()
    ensures
        VT_ARRAY | VT_I2 == 0x2002,
        VT_ARRAY | VT_UI2 == 0x2012,
        VT_ARRAY | VT_I4 == 0x2003,
        VT_ARRAY | VT_UI4 == 0x2013,
        VT_ARRAY | VT_I8 == 0x2014,
        VT_ARRAY | VT_UI8 == 0x2015,
        VT_ARRAY | VT_R4 == 0x2004,
        VT_ARRAY | VT_R8 == 0x2005,
        VT_ARRAY | VT_BOOL == 0x200b,
        VT_ARRAY | VT_BSTR == 0x2008,
{
    assert(0x2000u32 | 2 == 0x2002 && 0x2000u32 | 18 == 0x2012 && 0x2000u32 | 3 == 0x2003
        && 0x2000u32 | 19 == 0x2013 && 0x2000u32 | 20 == 0x2014 && 0x2000u32 | 21 == 0x2015
        && 0x2000u32 | 4 == 0x2004 && 0x2000u32 | 5 == 0x2005 && 0x2000u32 | 11 == 0x200b
        && 0x2000u32 | 8 == 0x2008) by (bit_vector);
}

/// How the modifier bits and the base type of a tag relate to its size.
pub proof fn lemma_tag_bits(tag: u32)
    ensures
        tag < 0x1000 ==> tag & VT_ARRAY == 0 && tag & VT_BYREF == 0 && tag & VT_TYPEMASK == tag,
        0x2000 <= tag < 0x3000 ==> tag & VT_ARRAY != 0 && tag & VT_BYREF == 0 && tag
            == VT_ARRAY | (tag & VT_TYPEMASK) && tag & VT_TYPEMASK == tag - 0x2000,
        tag & VT_TYPEMASK < 0x1000,
{
    assert(tag < 0x1000 ==> tag & 0x2000 == 0 && tag & 0x4000 == 0 && tag & 0xfff == tag)
        by (bit_vector);
    assert(0x2000 <= tag < 0x3000 ==> tag & 0x2000 != 0 && tag & 0x4000 == 0 && tag == 0x2000 | (
    tag & 0xfff) && tag & 0xfff == tag - 0x2000) by (bit_vector);
    assert(tag & 0xfff < 0x1000) by (bit_vector);
}

/// The native 96-bit fixed-point decimal record: a magnitude in a high 32-bit
/// and a low 64-bit word, a sign flag and a power-of-ten scale.
#[derive(Debug, Clone, Copy, PartialEq, Eq, Structural)]
pub struct Decimal {
    pub w_reserved: u16,
    pub scale: u8,
    pub sign: u8,
    pub hi32: u32,
    pub lo64: u64,
}

/// The sign flag of a negative decimal.
pub const DECIMAL_NEG: u8 = 0x80;

/// How a decimal of the given magnitude, scale and sign reads: the magnitude
/// divided by ten to the scale gives the integer digits; unless the scale or
/// the magnitude is zero a point and the remainder follow, zero-padded to
/// `scale` digits; a set sign puts a minus in front of a magnitude other
/// than zero.
pub open spec fn decimal_text(magnitude: nat, scale: nat, negative: bool) -> Seq<char> {
    let whole = decimal_digits(magnitude / pow10(scale));
    let body = if scale == 0 || magnitude == 0 {
        whole
    } else {
        whole + seq!['.'] + padded_decimal_digits(magnitude % pow10(scale), scale)
    };
    if negative && magnitude != 0 {
        seq!['-'] + body
    } else {
        body
    }
}

/// Powers of ten grow with the exponent, and are never zero.
pub proof fn lemma_pow10_monotonic(a: nat, b: nat)
    requires
        a <= b,
    ensures
        0 < pow10(a) <= pow10(b),
    decreases b,
{
    if b > 0 {
        if a < b {
            lemma_pow10_monotonic(a, (b - 1) as nat);
        } else {
            lemma_pow10_monotonic((a - 1) as nat, (b - 1) as nat);
        }
    }
}

/// Ten to the 28 fits in 128 bits, and ten to the 29 exceeds every 96-bit
/// magnitude.
pub proof fn lemma_pow10_bounds()
    ensures
        pow10(28) == 10000000000000000000000000000,
        pow10(29) > 0xffff_ffff_ffff_ffff_ffff_ffff,
{
    reveal_with_fuel(pow10, 30);
}

/// A set sign flag negates the text of a decimal other than zero, and zero
/// reads `0` whatever its scale and sign.
pub proof fn lemma_decimal_sign(magnitude: nat, scale: nat, negative: bool)
    ensures
        magnitude != 0 ==> decimal_text(magnitude, scale, true) == seq!['-'] + decimal_text(
            magnitude,
            scale,
            false,
        ),
        decimal_text(0, scale, negative) == seq!['0'],
{
    lemma_pow10_monotonic(0, scale);
    assert(0nat / pow10(scale) == 0) by (nonlinear_arith)
        requires
            pow10(scale) > 0,
    ;
}

impl Decimal {
    /// The magnitude: the high word above the low word.
    pub open spec fn magnitude(self) -> nat {
        (self.lo64 + self.hi32 * 0x1_0000_0000_0000_0000) as nat
    }

    /// Whether the sign flag is set.
    pub open spec fn is_negative(self) -> bool {
        self.sign == DECIMAL_NEG
    }

    /// The text of the decimal.
    pub open spec fn text(self) -> Seq<char> {
        decimal_text(self.magnitude(), self.scale as nat, self.is_negative())
    }

    /// Renders the decimal as text.
    pub fn to_string(&self) -> (s: String)
        ensures
            s@ == self.text(),
    {
        let magnitude: u128 = self.lo64 as u128 + (self.hi32 as u128) * 0x1_0000_0000_0000_0000;
        let mut whole: u128 = 0;
        let mut fraction: u128 = magnitude;
        proof {
            lemma_pow10_bounds();
        }
        if self.scale < 29 {
            let mut divisor: u128 = 1;
            let mut i: u8 = 0;
            while i < self.scale
                invariant
                    i <= self.scale < 29,
                    divisor == pow10(i as nat),
                    pow10(28) == 10000000000000000000000000000,
                decreases self.scale - i,
            {
                proof {
                    lemma_pow10_monotonic((i + 1) as nat, 28);
                }
                divisor = divisor * 10;
                i += 1;
            }
            proof {
                lemma_pow10_monotonic(0, self.scale as nat);
            }
            whole = magnitude / divisor;
            fraction = magnitude % divisor;
        } else {
            proof {
                lemma_pow10_monotonic(29, self.scale as nat);
                let p = pow10(self.scale as nat);
                assert(magnitude < p);
                assert(magnitude as nat / p == 0 && magnitude as nat % p == magnitude) by {
                    vstd::arithmetic::div_mod::lemma_small_mod(magnitude as nat, p);
                    vstd::arithmetic::div_mod::lemma_basic_div(magnitude as int, p as int);
                }
            }
        }
        let mut s = String::new();
        if self.sign == DECIMAL_NEG && magnitude != 0 {
            s.push('-');
        }
        let ghost sign_part = s@;
        push_decimal(&mut s, whole);
        if self.scale != 0 && magnitude != 0 {
            s.push('.');
            push_padded_decimal(&mut s, fraction, self.scale);
        }
        proof {
            let digits = decimal_digits(whole as nat);
            if self.scale != 0 && magnitude != 0 {
                assert(s@ == sign_part + (digits + seq!['.'] + padded_decimal_digits(
                    fraction as nat,
                    self.scale as nat,
                )));
            } else {
                assert(s@ == sign_part + digits);
            }
            if self.sign == DECIMAL_NEG && magnitude != 0 {
                assert(sign_part == seq!['-']);
            } else {
                assert(sign_part == Seq::<char>::empty());
            }
        }
        s
    }
}

/// The observer of a subscription: it receives each decoded notification. The
/// native side may call it from any thread, so implementations synchronise
/// whatever state they change.
pub trait OpcDataCallback: Send + Sync {
    /// Called once per value change of a subscribed item.
    fn on_data_change(
        &self,
        group_name: &str,
        item_name: &str,
        value: OpcValue,
        quality: OpcQuality,
        timestamp: u64,
    );
}

/// The shared container of one observer, as registered with the native side.
pub struct OpcCallbackContainer<C: OpcDataCallback + ?Sized> {
    pub callback: Arc<C>,
}

} // verus!
