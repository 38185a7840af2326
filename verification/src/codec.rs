//! The value codec: reading a tagged native value out of an image of its
//! memory, and laying a value out for the native side.

use crate::backend::{
    EncodedPayload, EncodedValue, EncodedView, Event, NativeBackend, PayloadView,
};
use crate::error::{ErrorView, OpcError};
use crate::memory::{ArrayData, RawValue, Release, SafeArrayImage, WideText};
use crate::payload::{elements, read_elements, Payload};
use crate::text::{decimal_digits, hex_digits, push_decimal, push_hex, push_str};
use crate::types::{
    Decimal, Float32, Float64, OpcValue, OpcValueError, ValueErrorView, ValueView, VT_ARRAY,
    VT_BOOL, VT_BSTR, VT_BYREF, VT_CY, VT_DATE, VT_DECIMAL, VT_I1, VT_I2, VT_I4, VT_I8, VT_INT,
    VT_LPSTR, VT_LPWSTR, VT_R4, VT_R8, VT_TYPEMASK, VT_UI1, VT_UI2, VT_UI4, VT_UI8, VT_UINT,
};
use crate::types::{lemma_tag_bits};
use crate::utils::{
    ansi_text, from_ansi_string, from_wide_string, to_wide_string, wide_string, wide_text,
};
use vstd::prelude::*;

verus! {

/// What decoding yields, in mathematical terms.
pub type Decoded = Result<ValueView, ValueErrorView>;

/// The mathematical content of a decoding result.
pub open spec fn decoded(r: Result<OpcValue, OpcValueError>) -> Decoded {
    match r {
        Ok(v) => Ok(v@),
        Err(e) => Err(e@),
    }
}

/// A failed conversion with the given message.
pub open spec fn conversion(msg: Seq<char>) -> Decoded {
    Err(ValueErrorView::ConversionError(msg))
}

/// Width in bytes of the payload of a base tag, for the kinds of fixed width.
pub open spec fn fixed_width(base: u32) -> Option<nat> {
    if base == VT_I1 || base == VT_UI1 {
        Some(1)
    } else if base == VT_I2 || base == VT_UI2 || base == VT_BOOL {
        Some(2)
    } else if base == VT_I4 || base == VT_UI4 || base == VT_R4 || base == VT_INT || base
        == VT_UINT {
        Some(4)
    } else if base == VT_I8 || base == VT_UI8 || base == VT_R8 || base == VT_CY || base
        == VT_DATE {
        Some(8)
    } else if base == VT_DECIMAL {
        Some(16)
    } else {
        None
    }
}

/// The name under which messages speak of the kind of a base tag.
pub open spec fn kind_label(base: u32) -> Seq<char> {
    if base == VT_I1 {
        "I1"@
    } else if base == VT_UI1 {
        "UI1"@
    } else if base == VT_I2 {
        "Int16"@
    } else if base == VT_UI2 {
        "UI2"@
    } else if base == VT_I4 {
        "Int32"@
    } else if base == VT_UI4 {
        "UI4"@
    } else if base == VT_I8 {
        "I8"@
    } else if base == VT_UI8 {
        "UI8"@
    } else if base == VT_INT {
        "INT"@
    } else if base == VT_UINT {
        "UINT"@
    } else if base == VT_R4 {
        "Float"@
    } else if base == VT_R8 {
        "Double"@
    } else if base == VT_BOOL {
        "Bool"@
    } else if base == VT_CY {
        "Cy"@
    } else if base == VT_DATE {
        "Date"@
    } else if base == VT_DECIMAL {
        "Decimal"@
    } else {
        "String"@
    }
}

/// Whether a base tag names a wide string, explicit-length or terminated.
pub open spec fn is_wide_kind(base: u32) -> bool {
    base == VT_BSTR || base == VT_LPWSTR
}

/// The decimal record stored in the first sixteen bytes.
pub open spec fn decimal_at(bytes: Seq<u8>) -> Decimal {
    Decimal {
        w_reserved: <u16 as Payload>::stored_at(bytes, 0),
        scale: bytes[2],
        sign: bytes[3],
        hi32: <u32 as Payload>::stored_at(bytes, 4),
        lo64: <u64 as Payload>::stored_at(bytes, 8),
    }
}

/// The value that the first bytes hold under a base tag of fixed width. The
/// platform integers are 32 bits wide on the native side.
pub open spec fn fixed_value(bytes: Seq<u8>, base: u32) -> ValueView {
    if base == VT_I1 {
        ValueView::Int8(<i8 as Payload>::stored_at(bytes, 0))
    } else if base == VT_UI1 {
        ValueView::UInt8(<u8 as Payload>::stored_at(bytes, 0))
    } else if base == VT_I2 {
        ValueView::Int16(<i16 as Payload>::stored_at(bytes, 0))
    } else if base == VT_UI2 {
        ValueView::UInt16(<u16 as Payload>::stored_at(bytes, 0))
    } else if base == VT_I4 {
        ValueView::Int32(<i32 as Payload>::stored_at(bytes, 0))
    } else if base == VT_UI4 {
        ValueView::UInt32(<u32 as Payload>::stored_at(bytes, 0))
    } else if base == VT_I8 {
        ValueView::Int64(<i64 as Payload>::stored_at(bytes, 0))
    } else if base == VT_UI8 {
        ValueView::UInt64(<u64 as Payload>::stored_at(bytes, 0))
    } else if base == VT_INT {
        ValueView::INT(<i32 as Payload>::stored_at(bytes, 0) as isize)
    } else if base == VT_UINT {
        ValueView::UINT(<u32 as Payload>::stored_at(bytes, 0) as usize)
    } else if base == VT_R4 {
        ValueView::Float(<Float32 as Payload>::stored_at(bytes, 0))
    } else if base == VT_R8 {
        ValueView::Double(<Float64 as Payload>::stored_at(bytes, 0))
    } else if base == VT_BOOL {
        ValueView::Bool(<bool as Payload>::stored_at(bytes, 0))
    } else if base == VT_CY {
        ValueView::Cy(<i64 as Payload>::stored_at(bytes, 0))
    } else if base == VT_DATE {
        ValueView::Date(<Float64 as Payload>::stored_at(bytes, 0))
    } else {
        ValueView::Decimal(decimal_at(bytes).text())
    }
}

/// Decoding without modifiers: what the pointer leads to, read as the base
/// type of the tag. A null pointer is an empty string for the string kinds
/// and an error for every other kind; an unknown base type is reported with
/// the whole tag.
pub open spec fn decode_base(value: RawValue, tag: u32) -> Decoded {
    let base = tag & VT_TYPEMASK;
    if is_wide_kind(base) {
        match value {
            RawValue::Null => Ok(ValueView::String(Seq::empty())),
            RawValue::Wide(text) => Ok(ValueView::String(wide_text(text.units@))),
            _ => conversion("Unreadable value memory for "@ + "String"@),
        }
    } else if base == VT_LPSTR {
        match value {
            RawValue::Null => Ok(ValueView::String(Seq::empty())),
            RawValue::Ansi(text) => Ok(ValueView::String(ansi_text(text.bytes@))),
            _ => conversion("Unreadable value memory for "@ + "String"@),
        }
    } else {
        match fixed_width(base) {
            None => Err(ValueErrorView::InvalidValueType(tag)),
            Some(width) => match value {
                RawValue::Null => conversion("Null pointer for "@ + kind_label(base)),
                RawValue::Bytes(bytes) => if bytes@.len() >= width {
                    Ok(fixed_value(bytes@, base))
                } else {
                    conversion("Unreadable value memory for "@ + kind_label(base))
                },
                _ => conversion("Unreadable value memory for "@ + kind_label(base)),
            },
        }
    }
}

fn label_of(base: u32) -> (label: &'static str)
    ensures
        label@ == kind_label(base),
{
    if base == VT_I1 {
        "I1"
    } else if base == VT_UI1 {
        "UI1"
    } else if base == VT_I2 {
        "Int16"
    } else if base == VT_UI2 {
        "UI2"
    } else if base == VT_I4 {
        "Int32"
    } else if base == VT_UI4 {
        "UI4"
    } else if base == VT_I8 {
        "I8"
    } else if base == VT_UI8 {
        "UI8"
    } else if base == VT_INT {
        "INT"
    } else if base == VT_UINT {
        "UINT"
    } else if base == VT_R4 {
        "Float"
    } else if base == VT_R8 {
        "Double"
    } else if base == VT_BOOL {
        "Bool"
    } else if base == VT_CY {
        "Cy"
    } else if base == VT_DATE {
        "Date"
    } else if base == VT_DECIMAL {
        "Decimal"
    } else {
        "String"
    }
}

/// Width in bytes of the payload of a base tag, for the kinds of fixed width.
pub fn width_of(base: u32) -> (width: Option<usize>)
    ensures
        match width {
            Some(w) => fixed_width(base) == Some(w as nat),
            None => fixed_width(base) is None,
        },
{
    if base == VT_I1 || base == VT_UI1 {
        Some(1)
    } else if base == VT_I2 || base == VT_UI2 || base == VT_BOOL {
        Some(2)
    } else if base == VT_I4 || base == VT_UI4 || base == VT_R4 || base == VT_INT || base
        == VT_UINT {
        Some(4)
    } else if base == VT_I8 || base == VT_UI8 || base == VT_R8 || base == VT_CY || base
        == VT_DATE {
        Some(8)
    } else if base == VT_DECIMAL {
        Some(16)
    } else {
        None
    }
}

fn failed(prefix: &str, detail: &str) -> (r: Result<OpcValue, OpcValueError>)
    ensures
        decoded(r) == conversion(prefix@ + detail@),
{
    let mut msg = prefix.to_string();
    push_str(&mut msg, detail);
    Err(OpcValueError::ConversionError(msg))
}

fn read_decimal(bytes: &[u8]) -> (d: Decimal)
    requires
        bytes.len() >= 16,
    ensures
        d == decimal_at(bytes@),
{
    Decimal {
        w_reserved: <u16 as Payload>::read(bytes, 0),
        scale: bytes[2],
        sign: bytes[3],
        hi32: <u32 as Payload>::read(bytes, 4),
        lo64: <u64 as Payload>::read(bytes, 8),
    }
}

fn read_fixed(bytes: &[u8], base: u32) -> (v: OpcValue)
    requires
        fixed_width(base) matches Some(w) && bytes.len() >= w,
    ensures
        v@ == fixed_value(bytes@, base),
{
    if base == VT_I1 {
        OpcValue::Int8(<i8 as Payload>::read(bytes, 0))
    } else if base == VT_UI1 {
        OpcValue::UInt8(<u8 as Payload>::read(bytes, 0))
    } else if base == VT_I2 {
        OpcValue::Int16(<i16 as Payload>::read(bytes, 0))
    } else if base == VT_UI2 {
        OpcValue::UInt16(<u16 as Payload>::read(bytes, 0))
    } else if base == VT_I4 {
        OpcValue::Int32(<i32 as Payload>::read(bytes, 0))
    } else if base == VT_UI4 {
        OpcValue::UInt32(<u32 as Payload>::read(bytes, 0))
    } else if base == VT_I8 {
        OpcValue::Int64(<i64 as Payload>::read(bytes, 0))
    } else if base == VT_UI8 {
        OpcValue::UInt64(<u64 as Payload>::read(bytes, 0))
    } else if base == VT_INT {
        OpcValue::INT(<i32 as Payload>::read(bytes, 0) as isize)
    } else if base == VT_UINT {
        OpcValue::UINT(<u32 as Payload>::read(bytes, 0) as usize)
    } else if base == VT_R4 {
        OpcValue::Float(<Float32 as Payload>::read(bytes, 0))
    } else if base == VT_R8 {
        OpcValue::Double(<Float64 as Payload>::read(bytes, 0))
    } else if base == VT_BOOL {
        OpcValue::Bool(<bool as Payload>::read(bytes, 0))
    } else if base == VT_CY {
        OpcValue::Cy(<i64 as Payload>::read(bytes, 0))
    } else if base == VT_DATE {
        OpcValue::Date(<Float64 as Payload>::read(bytes, 0))
    } else {
        OpcValue::Decimal(read_decimal(bytes).to_string())
    }
}

fn read_base(value: &RawValue, tag: u32) -> (r: Result<OpcValue, OpcValueError>)
    ensures
        decoded(r) == decode_base(*value, tag),
{
    let base = tag & VT_TYPEMASK;
    if base == VT_BSTR || base == VT_LPWSTR {
        match value {
            RawValue::Null => Ok(OpcValue::String(String::new())),
            RawValue::Wide(text) => Ok(OpcValue::String(from_wide_string(text.units.as_slice()))),
            _ => failed("Unreadable value memory for ", "String"),
        }
    } else if base == VT_LPSTR {
        match value {
            RawValue::Null => Ok(OpcValue::String(String::new())),
            RawValue::Ansi(text) => Ok(OpcValue::String(from_ansi_string(text.bytes.as_slice()))),
            _ => failed("Unreadable value memory for ", "String"),
        }
    } else {
        match width_of(base) {
            None => Err(OpcValueError::InvalidValueType(tag)),
            Some(width) => match value {
                RawValue::Null => failed("Null pointer for ", label_of(base)),
                RawValue::Bytes(bytes) => if bytes.len() >= width {
                    Ok(read_fixed(bytes.as_slice(), base))
                } else {
                    failed("Unreadable value memory for ", label_of(base))
                },
                _ => failed("Unreadable value memory for ", label_of(base)),
            },
        }
    }
}

/// Whether a base tag is supported as the element type of an array.
pub open spec fn is_element_kind(base: u32) -> bool {
    base == VT_I2 || base == VT_UI2 || base == VT_I4 || base == VT_UI4 || base == VT_I8 || base
        == VT_UI8 || base == VT_R4 || base == VT_R8 || base == VT_BOOL || base == VT_BSTR
}

/// Width in bytes of one array element of fixed width.
pub open spec fn element_width(base: u32) -> nat {
    match fixed_width(base) {
        Some(w) => w,
        None => 0,
    }
}

/// The number of elements between the bounds of a dimension, both included.
pub open spec fn element_count(lower: i32, upper: i32) -> int {
    upper - lower + 1
}

/// The text that an element of a string array points to; a null element is
/// the empty string.
pub open spec fn element_text(element: Option<WideText>) -> Seq<char> {
    match element {
        None => Seq::empty(),
        Some(text) => wide_text(text.units@),
    }
}

/// The array of `count` elements of fixed width stored one after another.
pub open spec fn array_of_bytes(bytes: Seq<u8>, base: u32, count: nat) -> ValueView {
    if base == VT_I2 {
        ValueView::ArrayInt16(elements::<i16>(bytes, count))
    } else if base == VT_UI2 {
        ValueView::ArrayUInt16(elements::<u16>(bytes, count))
    } else if base == VT_I4 {
        ValueView::ArrayInt32(elements::<i32>(bytes, count))
    } else if base == VT_UI4 {
        ValueView::ArrayUInt32(elements::<u32>(bytes, count))
    } else if base == VT_I8 {
        ValueView::ArrayInt64(elements::<i64>(bytes, count))
    } else if base == VT_UI8 {
        ValueView::ArrayUInt64(elements::<u64>(bytes, count))
    } else if base == VT_R4 {
        ValueView::ArrayFloat(elements::<Float32>(bytes, count))
    } else if base == VT_R8 {
        ValueView::ArrayDouble(elements::<Float64>(bytes, count))
    } else {
        ValueView::ArrayBool(elements::<bool>(bytes, count))
    }
}

/// The array of the texts that the first `count` elements point to.
pub open spec fn array_of_texts(texts: Seq<Option<WideText>>, count: nat) -> ValueView {
    ValueView::ArrayString(Seq::new(count, |i: int| element_text(texts[i])))
}

/// The array without elements of the given element type.
pub open spec fn empty_array(base: u32) -> ValueView {
    if base == VT_BSTR {
        array_of_texts(Seq::empty(), 0)
    } else {
        array_of_bytes(Seq::empty(), base, 0)
    }
}

/// Decoding the element memory of an array of `count` elements, `count`
/// above zero: the memory has to be of the element's sort and long enough.
pub open spec fn decode_elements(data: ArrayData, base: u32, count: nat) -> Decoded {
    match data {
        ArrayData::Bytes(bytes) => if base != VT_BSTR && bytes@.len() >= count * element_width(
            base,
        ) {
            Ok(array_of_bytes(bytes@, base, count))
        } else {
            conversion("Failed to access SAFEARRAY data"@)
        },
        ArrayData::Texts(texts) => if base == VT_BSTR && texts@.len() >= count {
            Ok(array_of_texts(texts@, count))
        } else {
            conversion("Failed to access SAFEARRAY data"@)
        },
        ArrayData::Unread => conversion("Failed to access SAFEARRAY data"@),
    }
}

/// Decoding under the array modifier: the pointer leads to a safe-array
/// descriptor of one dimension. An array without elements decodes to the
/// empty array of its element type whatever the element memory holds.
pub open spec fn decode_array(value: RawValue, tag: u32) -> Decoded {
    let base = tag & VT_TYPEMASK;
    match value {
        RawValue::Null => conversion("Null SAFEARRAY pointer"@),
        RawValue::Array(a) => {
            if a.dims != 1 {
                conversion(
                    "Multi-dimensional arrays not supported (dims="@ + decimal_digits(
                        a.dims as nat,
                    ) + ")"@,
                )
            } else if a.lower_bound is None {
                conversion("Failed to get array lower bound"@)
            } else if a.upper_bound is None {
                conversion("Failed to get array upper bound"@)
            } else {
                let count = element_count(a.lower_bound.unwrap(), a.upper_bound.unwrap());
                if count < 0 {
                    conversion("Invalid SAFEARRAY bounds"@)
                } else if !is_element_kind(base) {
                    conversion("Unsupported array element type: 0x"@ + hex_digits(base as nat))
                } else if count == 0 {
                    Ok(empty_array(base))
                } else {
                    decode_elements(a.data, base, count as nat)
                }
            }
        },
        _ => conversion("Unreadable SAFEARRAY memory"@),
    }
}

/// Decoding a tagged native value. The array modifier is looked at first;
/// under the by-reference modifier the pointer is followed once and what it
/// leads to is read as the base type; otherwise the pointer leads to the
/// payload itself.
pub open spec fn decode_value(value: RawValue, tag: u32) -> Decoded {
    if tag & VT_ARRAY != 0 {
        decode_array(value, tag)
    } else if tag & VT_BYREF != 0 {
        match value {
            RawValue::Null => conversion("Null pointer for byref type"@),
            RawValue::Pointer(inner) => decode_base(*inner, tag),
            _ => conversion("Unreadable value memory for byref type"@),
        }
    } else {
        decode_base(value, tag)
    }
}

fn fail(msg: &str) -> (r: Result<OpcValue, OpcValueError>)
    ensures
        decoded(r) == conversion(msg@),
{
    Err(OpcValueError::ConversionError(msg.to_string()))
}

fn is_element(base: u32) -> (b: bool)
    ensures
        b == is_element_kind(base),
{
    base == VT_I2 || base == VT_UI2 || base == VT_I4 || base == VT_UI4 || base == VT_I8 || base
        == VT_UI8 || base == VT_R4 || base == VT_R8 || base == VT_BOOL || base == VT_BSTR
}

fn read_byte_elements(bytes: &[u8], base: u32, count: usize) -> (v: OpcValue)
    requires
        is_element_kind(base),
        base != VT_BSTR,
        count * element_width(base) <= bytes.len(),
    ensures
        v@ == array_of_bytes(bytes@, base, count as nat),
{
    if base == VT_I2 {
        OpcValue::ArrayInt16(read_elements::<i16>(bytes, count))
    } else if base == VT_UI2 {
        OpcValue::ArrayUInt16(read_elements::<u16>(bytes, count))
    } else if base == VT_I4 {
        OpcValue::ArrayInt32(read_elements::<i32>(bytes, count))
    } else if base == VT_UI4 {
        OpcValue::ArrayUInt32(read_elements::<u32>(bytes, count))
    } else if base == VT_I8 {
        OpcValue::ArrayInt64(read_elements::<i64>(bytes, count))
    } else if base == VT_UI8 {
        OpcValue::ArrayUInt64(read_elements::<u64>(bytes, count))
    } else if base == VT_R4 {
        OpcValue::ArrayFloat(read_elements::<Float32>(bytes, count))
    } else if base == VT_R8 {
        OpcValue::ArrayDouble(read_elements::<Float64>(bytes, count))
    } else {
        OpcValue::ArrayBool(read_elements::<bool>(bytes, count))
    }
}

fn read_text_elements(texts: &Vec<Option<WideText>>, count: usize) -> (v: OpcValue)
    requires
        count <= texts.len(),
    ensures
        v@ == array_of_texts(texts@, count as nat),
{
    let mut out: Vec<String> = Vec::new();
    let mut i: usize = 0;
    while i < count
        invariant
            i <= count <= texts.len(),
            out@.len() == i,
            forall|k: int| 0 <= k < i ==> (#[trigger] out@[k])@ == element_text(texts@[k]),
        decreases count - i,
    {
        let text = match &texts[i] {
            None => String::new(),
            Some(t) => from_wide_string(t.units.as_slice()),
        };
        out.push(text);
        i = i + 1;
    }
    assert(out.deep_view() =~= Seq::new(count as nat, |k: int| element_text(texts@[k])));
    OpcValue::ArrayString(out)
}

fn read_array(value: &RawValue, tag: u32) -> (r: Result<OpcValue, OpcValueError>)
    ensures
        decoded(r) == decode_array(*value, tag),
{
    let base = tag & VT_TYPEMASK;
    match value {
        RawValue::Null => fail("Null SAFEARRAY pointer"),
        RawValue::Array(a) => {
            if a.dims != 1 {
                let mut msg = "Multi-dimensional arrays not supported (dims=".to_string();
                push_decimal(&mut msg, a.dims as u128);
                push_str(&mut msg, ")");
                return Err(OpcValueError::ConversionError(msg));
            }
            let lower: i32 = match a.lower_bound {
                None => {
                    return fail("Failed to get array lower bound");
                },
                Some(bound) => bound,
            };
            let upper: i32 = match a.upper_bound {
                None => {
                    return fail("Failed to get array upper bound");
                },
                Some(bound) => bound,
            };
            let count: i64 = upper as i64 - lower as i64 + 1;
            if count < 0 {
                return fail("Invalid SAFEARRAY bounds");
            }
            if !is_element(base) {
                let mut msg = "Unsupported array element type: 0x".to_string();
                push_hex(&mut msg, base as u128);
                return Err(OpcValueError::ConversionError(msg));
            }
            if count == 0 {
                if base == VT_BSTR {
                    let texts: Vec<Option<WideText>> = Vec::new();
                    return Ok(read_text_elements(&texts, 0));
                } else {
                    let bytes: Vec<u8> = Vec::new();
                    return Ok(read_byte_elements(bytes.as_slice(), base, 0));
                }
            }
            match &a.data {
                ArrayData::Bytes(bytes) => {
                    if base != VT_BSTR {
                        let width = match width_of(base) {
                            Some(w) => w,
                            None => 0,
                        };
                        assert(1 <= width <= 8 && width == element_width(base));
                        assert(count * width <= 0x8_0000_0000 && count <= count * width)
                            by (nonlinear_arith)
                            requires
                                0 < count <= 0x1_0000_0000,
                                1 <= width <= 8,
                        ;
                        let needed: u64 = (count as u64) * (width as u64);
                        if needed <= bytes.len() as u64 {
                            return Ok(read_byte_elements(bytes.as_slice(), base, count as usize));
                        }
                    }
                    fail("Failed to access SAFEARRAY data")
                },
                ArrayData::Texts(texts) => {
                    if base == VT_BSTR && count as u64 <= texts.len() as u64 {
                        return Ok(read_text_elements(texts, count as usize));
                    }
                    fail("Failed to access SAFEARRAY data")
                },
                ArrayData::Unread => fail("Failed to access SAFEARRAY data"),
            }
        },
        _ => fail("Unreadable SAFEARRAY memory"),
    }
}

impl OpcValue {
    /// Decodes a tagged native value from an image of the memory behind its
    /// pointer.
    pub fn decode(value: &RawValue, value_type: u32) -> (r: Result<OpcValue, OpcValueError>)
        ensures
            decoded(r) == decode_value(*value, value_type),
    {
        if value_type & VT_ARRAY != 0 {
            read_array(value, value_type)
        } else if value_type & VT_BYREF != 0 {
            match value {
                RawValue::Null => fail("Null pointer for byref type"),
                RawValue::Pointer(inner) => read_base(inner, value_type),
                _ => fail("Unreadable value memory for byref type"),
            }
        } else {
            read_base(value, value_type)
        }
    }
}

/// The buffers that the elements of a string array point to, in order; null
/// elements point to none.
pub open spec fn text_releases(texts: Seq<Option<WideText>>) -> Seq<Release>
    decreases texts.len(),
{
    if texts.len() == 0 {
        Seq::empty()
    } else {
        text_releases(texts.drop_last()) + match texts.last() {
            Some(text) => seq![Release::WideString(text.address)],
            None => Seq::empty(),
        }
    }
}

/// What the payload pointer of a value without the array modifier leads to:
/// under the by-reference modifier what the pointer found there leads to.
pub open spec fn pointee(value: RawValue, tag: u32) -> Option<RawValue> {
    if tag & VT_BYREF != 0 {
        match value {
            RawValue::Pointer(inner) => Some(*inner),
            _ => None,
        }
    } else {
        Some(value)
    }
}

/// The string buffers whose text decoding copies, in the order in which they
/// are handed back: the string of a string kind, or the strings of the
/// elements of a string array.
pub open spec fn releases_of(value: RawValue, tag: u32) -> Seq<Release> {
    let base = tag & VT_TYPEMASK;
    if tag & VT_ARRAY != 0 {
        match value {
            RawValue::Array(a) => match a.data {
                ArrayData::Texts(texts) => if a.dims == 1 && a.lower_bound is Some
                    && a.upper_bound is Some && base == VT_BSTR && 0 < element_count(
                    a.lower_bound.unwrap(),
                    a.upper_bound.unwrap(),
                ) <= texts@.len() {
                    text_releases(
                        texts@.take(
                            element_count(a.lower_bound.unwrap(), a.upper_bound.unwrap()),
                        ),
                    )
                } else {
                    Seq::empty()
                },
                _ => Seq::empty(),
            },
            _ => Seq::empty(),
        }
    } else {
        match pointee(value, tag) {
            Some(RawValue::Wide(text)) => if is_wide_kind(base) {
                seq![Release::WideString(text.address)]
            } else {
                Seq::empty()
            },
            Some(RawValue::Ansi(text)) => if base == VT_LPSTR {
                seq![Release::AnsiString(text.address)]
            } else {
                Seq::empty()
            },
            _ => Seq::empty(),
        }
    }
}

/// Where decoding fails no text was copied, and no buffer is handed back.
pub proof fn lemma_nothing_released_on_failure(value: RawValue, tag: u32)
    requires
        decode_value(value, tag) is Err,
    ensures
        releases_of(value, tag) == Seq::<Release>::empty(),
{
}

/// The element memory that decoding an array needs.
#[derive(Debug, Clone, Copy, PartialEq, Eq, Structural)]
pub enum ElementRequest {
    /// No element memory is looked at, and none is to be read.
    Nothing,
    /// `count` elements of `width` bytes each, as contiguous bytes.
    Bytes { count: u64, width: u8 },
    /// The strings that `count` element pointers lead to.
    Texts { count: u64 },
}

/// Which element memory decoding looks at, given what the descriptor says:
/// none unless the array has one dimension, its bounds could be had, it holds
/// at least one element and its element type is supported.
pub open spec fn element_request(
    dims: u32,
    lower_bound: Option<i32>,
    upper_bound: Option<i32>,
    tag: u32,
) -> ElementRequest {
    let base = tag & VT_TYPEMASK;
    if dims == 1 && lower_bound is Some && upper_bound is Some && is_element_kind(base)
        && element_count(lower_bound.unwrap(), upper_bound.unwrap()) > 0 {
        let count = element_count(lower_bound.unwrap(), upper_bound.unwrap()) as u64;
        if base == VT_BSTR {
            ElementRequest::Texts { count }
        } else {
            ElementRequest::Bytes { count, width: element_width(base) as u8 }
        }
    } else {
        ElementRequest::Nothing
    }
}

/// Tells which element memory of a safe array is to be read before the array
/// is decoded, given the number of dimensions and the bounds.
pub fn elements_to_read(
    dims: u32,
    lower_bound: Option<i32>,
    upper_bound: Option<i32>,
    value_type: u32,
) -> (request: ElementRequest)
    ensures
        request == element_request(dims, lower_bound, upper_bound, value_type),
{
    let base = value_type & VT_TYPEMASK;
    if dims != 1 || !is_element(base) {
        return ElementRequest::Nothing;
    }
    match (lower_bound, upper_bound) {
        (Some(lower), Some(upper)) => {
            let count: i64 = upper as i64 - lower as i64 + 1;
            if count <= 0 {
                ElementRequest::Nothing
            } else if base == VT_BSTR {
                ElementRequest::Texts { count: count as u64 }
            } else {
                let width: usize = match width_of(base) {
                    Some(w) => w,
                    None => 0,
                };
                ElementRequest::Bytes { count: count as u64, width: width as u8 }
            }
        },
        _ => ElementRequest::Nothing,
    }
}

/// What lies behind a payload pointer, by the base type of a tag.
#[derive(Debug, Clone, Copy, PartialEq, Eq, Structural)]
pub enum Shape {
    /// A wide string, read up to its terminator.
    Wide,
    /// A single-byte string, read up to its terminator.
    Ansi,
    /// A payload of `width` bytes.
    Fixed { width: u8 },
    /// Nothing that could be read: the base type is unknown.
    Unknown,
}

/// How the memory behind a value pointer is reached.
#[derive(Debug, Clone, Copy, PartialEq, Eq, Structural)]
pub enum Layout {
    /// The pointer leads to a safe-array descriptor.
    Array,
    /// The pointer leads to a pointer, and that one to the payload.
    Indirect(Shape),
    /// The pointer leads to the payload.
    Direct(Shape),
}

/// What lies behind the payload pointer of a base type.
pub open spec fn shape_of(base: u32) -> Shape {
    if is_wide_kind(base) {
        Shape::Wide
    } else if base == VT_LPSTR {
        Shape::Ansi
    } else {
        match fixed_width(base) {
            Some(width) => Shape::Fixed { width: width as u8 },
            None => Shape::Unknown,
        }
    }
}

/// How the memory behind the value pointer of a tag is reached: the array
/// modifier is looked at first, then the by-reference modifier.
pub open spec fn layout_of(tag: u32) -> Layout {
    if tag & VT_ARRAY != 0 {
        Layout::Array
    } else if tag & VT_BYREF != 0 {
        Layout::Indirect(shape_of(tag & VT_TYPEMASK))
    } else {
        Layout::Direct(shape_of(tag & VT_TYPEMASK))
    }
}

/// Tells how the memory behind a value pointer is to be read before the
/// value is decoded.
pub fn layout(value_type: u32) -> (l: Layout)
    ensures
        l == layout_of(value_type),
{
    let base = value_type & VT_TYPEMASK;
    let shape = if base == VT_BSTR || base == VT_LPWSTR {
        Shape::Wide
    } else if base == VT_LPSTR {
        Shape::Ansi
    } else {
        match width_of(base) {
            Some(width) => Shape::Fixed { width: width as u8 },
            None => Shape::Unknown,
        }
    };
    if value_type & VT_ARRAY != 0 {
        Layout::Array
    } else if value_type & VT_BYREF != 0 {
        Layout::Indirect(shape)
    } else {
        Layout::Direct(shape)
    }
}

/// Whether an image holds what a shape asks for; a null pointer holds
/// nothing and fits every shape.
pub open spec fn has_shape(value: RawValue, shape: Shape) -> bool {
    match value {
        RawValue::Null => true,
        RawValue::Wide(_) => shape == Shape::Wide,
        RawValue::Ansi(_) => shape == Shape::Ansi,
        RawValue::Bytes(bytes) => shape matches Shape::Fixed { width } && bytes@.len() >= width,
        _ => false,
    }
}

/// Whether an image of a value without the array modifier was read as the
/// layout of its tag asks.
pub open spec fn laid_out(value: RawValue, tag: u32) -> bool {
    match layout_of(tag) {
        Layout::Array => false,
        Layout::Indirect(shape) => match value {
            RawValue::Null => true,
            RawValue::Pointer(inner) => has_shape(*inner, shape),
            _ => false,
        },
        Layout::Direct(shape) => has_shape(value, shape),
    }
}

/// Whether the image of a safe array holds the element memory that decoding
/// asks for.
pub open spec fn supplied(a: SafeArrayImage, tag: u32) -> bool {
    match element_request(a.dims, a.lower_bound, a.upper_bound, tag) {
        ElementRequest::Nothing => true,
        ElementRequest::Bytes { count, width } => a.data matches ArrayData::Bytes(bytes)
            && bytes@.len() >= count * width,
        ElementRequest::Texts { count } => a.data matches ArrayData::Texts(texts) && texts@.len()
            >= count,
    }
}

/// An image that was read as the layout of its tag asks decodes to a value,
/// unless the base type is unknown or a pointer on the way is null for a
/// kind that is no string.
pub proof fn lemma_laid_out(value: RawValue, tag: u32)
    requires
        laid_out(value, tag),
    ensures
        match decode_value(value, tag) {
            Ok(_) => true,
            Err(ValueErrorView::InvalidValueType(t)) => t == tag && shape_of(tag & VT_TYPEMASK)
                == Shape::Unknown,
            Err(ValueErrorView::ConversionError(_)) => pointee(value, tag) is None || pointee(
                value,
                tag,
            ) == Some(RawValue::Null),
            Err(_) => false,
        },
{
}

/// A safe array of one dimension, with bounds that hold no negative number
/// of elements of a supported type, decodes to an array once the element
/// memory that decoding asks for is supplied.
pub proof fn lemma_supplied(a: SafeArrayImage, tag: u32)
    requires
        tag & VT_ARRAY != 0,
        is_element_kind(tag & VT_TYPEMASK),
        a.dims == 1,
        a.lower_bound matches Some(lower) && a.upper_bound matches Some(upper) && element_count(
            lower,
            upper,
        ) >= 0,
        supplied(a, tag),
    ensures
        decode_value(RawValue::Array(a), tag) is Ok,
{
}

/// An array without elements decodes to the empty array of its element type
/// and releases nothing, and no element memory is asked for or looked at:
/// the same holds whatever the element memory is.
pub proof fn lemma_empty_array(a: SafeArrayImage, b: SafeArrayImage, tag: u32)
    requires
        tag & VT_ARRAY != 0,
        is_element_kind(tag & VT_TYPEMASK),
        a.dims == 1,
        a.lower_bound matches Some(lower) && a.upper_bound matches Some(upper) && element_count(
            lower,
            upper,
        ) == 0,
        b.dims == a.dims && b.lower_bound == a.lower_bound && b.upper_bound == a.upper_bound,
    ensures
        decode_value(RawValue::Array(a), tag) == Ok::<ValueView, ValueErrorView>(
            empty_array(tag & VT_TYPEMASK),
        ),
        decode_value(RawValue::Array(b), tag) == decode_value(RawValue::Array(a), tag),
        element_request(a.dims, a.lower_bound, a.upper_bound, tag) == ElementRequest::Nothing,
        releases_of(RawValue::Array(a), tag) == Seq::<Release>::empty(),
        empty_array(tag & VT_TYPEMASK).is_array(),
{
}

/// Where no element memory is asked for, decoding does not depend on it.
pub proof fn lemma_unread_elements(a: SafeArrayImage, b: SafeArrayImage, tag: u32)
    requires
        tag & VT_ARRAY != 0,
        element_request(a.dims, a.lower_bound, a.upper_bound, tag) == ElementRequest::Nothing,
        b.dims == a.dims && b.lower_bound == a.lower_bound && b.upper_bound == a.upper_bound,
    ensures
        decode_value(RawValue::Array(b), tag) == decode_value(RawValue::Array(a), tag),
{
}

/// A tag without the array modifier never yields an array, whatever the
/// pointer leads to.
pub proof fn lemma_no_array_without_modifier(value: RawValue, tag: u32)
    requires
        tag & VT_ARRAY == 0,
    ensures
        decode_value(value, tag) matches Ok(v) ==> !v.is_array(),
{
}

/// A tag with the array modifier never yields anything but an array.
pub proof fn lemma_array_under_modifier(value: RawValue, tag: u32)
    requires
        tag & VT_ARRAY != 0,
    ensures
        decode_value(value, tag) matches Ok(v) ==> v.is_array(),
{
}

/// The tag without its by-reference modifier.
pub open spec fn without_by_reference(tag: u32) -> u32 {
    tag & !VT_BYREF
}

/// By reference: the pointer is followed exactly once, and what it leads to
/// is decoded as it would be under the tag without the modifier, except
/// that an unknown base type is reported with the whole tag. A null outer
/// pointer is a conversion error, and so is a second indirection.
pub proof fn lemma_by_reference(outer: RawValue, inner: RawValue, tag: u32)
    requires
        tag & VT_ARRAY == 0,
        tag & VT_BYREF != 0,
        outer matches RawValue::Pointer(target) && *target == inner,
    ensures
        decode_value(outer, tag) == (match decode_value(inner, without_by_reference(tag)) {
            Err(ValueErrorView::InvalidValueType(_)) => Err(ValueErrorView::InvalidValueType(tag)),
            other => other,
        }),
        decode_value(RawValue::Null, tag) == conversion("Null pointer for byref type"@),
        inner is Pointer ==> decode_value(outer, tag) is Err,
{
    let stripped = without_by_reference(tag);
    assert(stripped & VT_ARRAY == 0 && stripped & VT_BYREF == 0 && stripped & VT_TYPEMASK == tag
        & VT_TYPEMASK) by (bit_vector)
        requires
            tag & 0x2000u32 == 0,
            stripped == tag & !0x4000u32,
    ;
}

fn collect_text_releases(texts: &Vec<Option<WideText>>, count: usize) -> (out: Vec<Release>)
    requires
        count <= texts.len(),
    ensures
        out@ == text_releases(texts@.take(count as int)),
{
    let mut out: Vec<Release> = Vec::new();
    let mut i: usize = 0;
    assert(texts@.take(0) =~= Seq::<Option<WideText>>::empty());
    while i < count
        invariant
            i <= count <= texts.len(),
            out@ == text_releases(texts@.take(i as int)),
        decreases count - i,
    {
        assert(texts@.take(i + 1).drop_last() =~= texts@.take(i as int));
        assert(texts@.take(i + 1).last() == texts@[i as int]);
        match &texts[i] {
            Some(text) => {
                out.push(Release::WideString(text.address));
            },
            None => {
                assert(out@ + Seq::<Release>::empty() =~= out@);
            },
        }
        i = i + 1;
    }
    out
}

/// The call that hands one buffer back to the native side.
pub open spec fn release_event(buffer: Release) -> Event {
    match buffer {
        Release::WideString(address) => Event::FreeWideString { address },
        Release::AnsiString(address) => Event::FreeAnsiString { address },
    }
}

/// The calls that hand the given buffers back, in order.
pub open spec fn release_events(buffers: Seq<Release>) -> Seq<Event> {
    buffers.map_values(|buffer: Release| release_event(buffer))
}

/// The calls that decoding makes: with `free_string_memory` set, one for
/// each string buffer whose text it copied, and none otherwise.
pub open spec fn decode_events(value: RawValue, tag: u32, free_string_memory: bool) -> Seq<Event> {
    if free_string_memory {
        release_events(releases_of(value, tag))
    } else {
        Seq::empty()
    }
}

/// Hands the given buffers back to the native side, in order.
pub fn release_all<B: NativeBackend>(backend: &mut B, buffers: &Vec<Release>)
    ensures
        final(backend).log() == old(backend).log() + release_events(buffers@),
{
    let mut i: usize = 0;
    assert(backend.log() =~= old(backend).log() + release_events(buffers@.take(0)));
    while i < buffers.len()
        invariant
            i <= buffers.len(),
            backend.log() == old(backend).log() + release_events(buffers@.take(i as int)),
        decreases buffers.len() - i,
    {
        let ghost before = backend.log();
        match buffers[i] {
            Release::WideString(address) => backend.free_wide_string(address),
            Release::AnsiString(address) => backend.free_ansi_string(address),
        }
        assert(buffers@.take(i + 1) =~= buffers@.take(i as int).push(buffers@[i as int]));
        assert(release_events(buffers@.take(i + 1)) =~= release_events(
            buffers@.take(i as int),
        ).push(release_event(buffers@[i as int])));
        assert(backend.log() =~= old(backend).log() + release_events(buffers@.take(i + 1)));
        i = i + 1;
    }
    assert(buffers@.take(buffers@.len() as int) =~= buffers@);
}

/// What encoding yields, in mathematical terms.
pub type Encoded = Result<EncodedView, ErrorView>;

/// The mathematical content of an encoding result.
pub open spec fn encoded(r: Result<EncodedValue, OpcError>) -> Encoded {
    match r {
        Ok(v) => Ok(v@),
        Err(e) => Err(e@),
    }
}

/// A payload of fixed width under the given tag.
pub open spec fn fixed_payload(tag: u32, bytes: Seq<u8>) -> Encoded {
    Ok(EncodedView { type_tag: tag, payload: PayloadView::Bytes(bytes) })
}

/// How a value is laid out for the native side: a scalar as its native
/// representation under its base tag, a platform integer as its low 32 bits,
/// a string as a pointer to its wide form. Decimals and arrays are not
/// written.
pub open spec fn encode_value(v: ValueView) -> Encoded {
    match v {
        ValueView::Int8(x) => fixed_payload(v.raw_type(), x.stored()),
        ValueView::UInt8(x) => fixed_payload(v.raw_type(), x.stored()),
        ValueView::Int16(x) => fixed_payload(v.raw_type(), x.stored()),
        ValueView::UInt16(x) => fixed_payload(v.raw_type(), x.stored()),
        ValueView::Int32(x) => fixed_payload(v.raw_type(), x.stored()),
        ValueView::UInt32(x) => fixed_payload(v.raw_type(), x.stored()),
        ValueView::Int64(x) => fixed_payload(v.raw_type(), x.stored()),
        ValueView::UInt64(x) => fixed_payload(v.raw_type(), x.stored()),
        ValueView::INT(x) => fixed_payload(v.raw_type(), (x as i32).stored()),
        ValueView::UINT(x) => fixed_payload(v.raw_type(), (x as u32).stored()),
        ValueView::Float(x) => fixed_payload(v.raw_type(), x.stored()),
        ValueView::Double(x) => fixed_payload(v.raw_type(), x.stored()),
        ValueView::Bool(x) => fixed_payload(v.raw_type(), x.stored()),
        ValueView::Cy(x) => fixed_payload(v.raw_type(), x.stored()),
        ValueView::Date(x) => fixed_payload(v.raw_type(), x.stored()),
        ValueView::String(text) => Ok(
            EncodedView { type_tag: v.raw_type(), payload: PayloadView::Text(wide_string(text)) },
        ),
        ValueView::Decimal(_) => Err(
            ErrorView::OperationFailed("Decimal writes not implemented"@),
        ),
        _ => Err(ErrorView::OperationFailed("Array writes not implemented"@)),
    }
}

/// Whether a value is a scalar of fixed width: an integer, a float, a
/// boolean, a currency amount or a date.
pub open spec fn is_fixed_scalar(v: ValueView) -> bool {
    !v.is_array() && !(v is String) && !(v is Decimal)
}

/// Whether a platform integer fits the 32 bits that the native side reads.
pub open spec fn fits_native_width(v: ValueView) -> bool {
    &&& v matches ValueView::INT(x) ==> i32::MIN <= x <= i32::MAX
    &&& v matches ValueView::UINT(x) ==> x <= u32::MAX
}

/// Round trip: decoding the bytes that encoding lays out for a scalar of
/// fixed width, under the tag that encoding gives them, yields the scalar,
/// provided a platform integer fits the native 32 bits.
pub proof fn lemma_scalar_round_trip(v: ValueView, raw: RawValue)
    requires
        is_fixed_scalar(v),
        fits_native_width(v),
        raw matches RawValue::Bytes(bytes) && encode_value(v) == fixed_payload(
            v.raw_type(),
            bytes@,
        ),
    ensures
        decode_value(raw, v.raw_type()) == Ok::<ValueView, ValueErrorView>(v),
{
    lemma_tag_bits(v.raw_type());
    match v {
        ValueView::Int8(x) => x.lemma_round_trip(),
        ValueView::UInt8(x) => x.lemma_round_trip(),
        ValueView::Int16(x) => x.lemma_round_trip(),
        ValueView::UInt16(x) => x.lemma_round_trip(),
        ValueView::Int32(x) => x.lemma_round_trip(),
        ValueView::UInt32(x) => x.lemma_round_trip(),
        ValueView::Int64(x) => x.lemma_round_trip(),
        ValueView::UInt64(x) => x.lemma_round_trip(),
        ValueView::INT(x) => (x as i32).lemma_round_trip(),
        ValueView::UINT(x) => (x as u32).lemma_round_trip(),
        ValueView::Float(x) => x.lemma_round_trip(),
        ValueView::Double(x) => x.lemma_round_trip(),
        ValueView::Bool(x) => x.lemma_round_trip(),
        ValueView::Cy(x) => x.lemma_round_trip(),
        ValueView::Date(x) => x.lemma_round_trip(),
        _ => {},
    }
}

fn bytes_under(tag: u32, bytes: Vec<u8>) -> (r: Result<EncodedValue, OpcError>)
    ensures
        encoded(r) == fixed_payload(tag, bytes@),
{
    Ok(EncodedValue { type_tag: tag, payload: EncodedPayload::Bytes(bytes) })
}

impl OpcValue {
    /// The string buffers whose text [`OpcValue::decode`] copies out of the
    /// given image.
    pub fn releases(value: &RawValue, value_type: u32) -> (buffers: Vec<Release>)
        ensures
            buffers@ == releases_of(*value, value_type),
    {
        let base = value_type & VT_TYPEMASK;
        let mut none: Vec<Release> = Vec::new();
        if value_type & VT_ARRAY != 0 {
            if let RawValue::Array(a) = value {
                if let ArrayData::Texts(texts) = &a.data {
                    if a.dims == 1 && base == VT_BSTR {
                        if let Some(lower) = a.lower_bound {
                            if let Some(upper) = a.upper_bound {
                                let count: i64 = upper as i64 - lower as i64 + 1;
                                if 0 < count && count as u64 <= texts.len() as u64 {
                                    return collect_text_releases(texts, count as usize);
                                }
                            }
                        }
                    }
                }
            }
            none
        } else {
            let target: &RawValue = if value_type & VT_BYREF != 0 {
                match value {
                    RawValue::Pointer(inner) => inner,
                    _ => {
                        return none;
                    },
                }
            } else {
                value
            };
            match target {
                RawValue::Wide(text) => {
                    if base == VT_BSTR || base == VT_LPWSTR {
                        none.push(Release::WideString(text.address));
                    }
                },
                RawValue::Ansi(text) => {
                    if base == VT_LPSTR {
                        none.push(Release::AnsiString(text.address));
                    }
                },
                _ => {},
            }
            none
        }
    }

    /// Decodes a tagged native value from an image of the memory behind its
    /// pointer. With `free_string_memory` set, the string buffers whose text
    /// was copied are handed back to the backend afterwards, in order.
    pub fn from_raw<B: NativeBackend>(
        backend: &mut B,
        value: &RawValue,
        value_type: u32,
        free_string_memory: bool,
    ) -> (r: Result<OpcValue, OpcValueError>)
        ensures
            decoded(r) == decode_value(*value, value_type),
            final(backend).log() == old(backend).log() + decode_events(
                *value,
                value_type,
                free_string_memory,
            ),
    {
        let r = Self::decode(value, value_type);
        if free_string_memory && r.is_ok() {
            let buffers = Self::releases(value, value_type);
            release_all(backend, &buffers);
        } else {
            proof {
                if free_string_memory {
                    lemma_nothing_released_on_failure(*value, value_type);
                }
                assert(backend.log() =~= old(backend).log() + decode_events(
                    *value,
                    value_type,
                    free_string_memory,
                ));
            }
        }
        r
    }

    /// Lays the value out for a write.
    pub fn encode(&self) -> (r: Result<EncodedValue, OpcError>)
        ensures
            encoded(r) == encode_value(self@),
    {
        let tag = self.raw_type();
        match self {
            OpcValue::Int8(x) => bytes_under(tag, x.store()),
            OpcValue::UInt8(x) => bytes_under(tag, x.store()),
            OpcValue::Int16(x) => bytes_under(tag, x.store()),
            OpcValue::UInt16(x) => bytes_under(tag, x.store()),
            OpcValue::Int32(x) => bytes_under(tag, x.store()),
            OpcValue::UInt32(x) => bytes_under(tag, x.store()),
            OpcValue::Int64(x) => bytes_under(tag, x.store()),
            OpcValue::UInt64(x) => bytes_under(tag, x.store()),
            OpcValue::INT(x) => {
                let low: i32 = #[verifier::truncate]
                (*x as i32);
                bytes_under(tag, low.store())
            },
            OpcValue::UINT(x) => {
                let low: u32 = #[verifier::truncate]
                (*x as u32);
                bytes_under(tag, low.store())
            },
            OpcValue::Float(x) => bytes_under(tag, x.store()),
            OpcValue::Double(x) => bytes_under(tag, x.store()),
            OpcValue::Bool(x) => bytes_under(tag, x.store()),
            OpcValue::Cy(x) => bytes_under(tag, x.store()),
            OpcValue::Date(x) => bytes_under(tag, x.store()),
            OpcValue::String(s) => Ok(
                EncodedValue {
                    type_tag: tag,
                    payload: EncodedPayload::Text(to_wide_string(s.as_str())),
                },
            ),
            OpcValue::Decimal(_) => Err(
                OpcError::operation_failed("Decimal writes not implemented"),
            ),
            _ => Err(OpcError::operation_failed("Array writes not implemented")),
        }
    }
}

} // verus!
