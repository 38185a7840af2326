//! Conversion between Rust strings and the NUL-terminated strings of the
//! native side.

use crate::text::{
    before_terminator, byte_run_length, decode_utf8_lossy, encode_utf16, utf16_encoding,
    utf16_lossy_text, utf8_lossy_text, wide_run_length,
};
use crate::backend::{Event, NativeBackend};
use crate::memory::WideText;
use vstd::prelude::*;
use vstd::slice::slice_subrange;

verus! {

/// The text of a wide string: the code units before the first NUL, decoded
/// as UTF-16 with every invalid sequence replaced.
pub open spec fn wide_text(units: Seq<u16>) -> Seq<char> {
    utf16_lossy_text(before_terminator(units, 0u16))
}

/// The text of a single-byte string: the bytes before the first NUL, decoded
/// with every invalid sequence replaced.
pub open spec fn ansi_text(bytes: Seq<u8>) -> Seq<char> {
    utf8_lossy_text(before_terminator(bytes, 0u8))
}

/// The wide string that carries a text to the native side: its UTF-16 code
/// units and a terminating NUL.
pub open spec fn wide_string(text: Seq<char>) -> Seq<u16> {
    utf16_encoding(text).push(0u16)
}

/// Encodes a string as a NUL-terminated wide string.
pub fn to_wide_string(s: &str) -> (wide: Vec<u16>)
    ensures
        wide@ == wide_string(s@),
{
    let mut wide = encode_utf16(s);
    wide.push(0);
    wide
}

/// Decodes the wide string that starts at the beginning of `units` and ends
/// before the first NUL, or with the slice where it holds none.
pub fn from_wide_string(units: &[u16]) -> (s: String)
    ensures
        s@ == wide_text(units@),
{
    let n = wide_run_length(units);
    let run = slice_subrange(units, 0, n);
    assert(run@ =~= before_terminator(units@, 0u16));
    String::from_utf16_lossy(run)
}

/// Decodes the single-byte string that starts at the beginning of `bytes`
/// and ends before the first NUL, or with the slice where it holds none.
pub fn from_ansi_string(bytes: &[u8]) -> (s: String)
    ensures
        s@ == ansi_text(bytes@),
{
    let n = byte_run_length(bytes);
    let run = slice_subrange(bytes, 0, n);
    assert(run@ =~= before_terminator(bytes@, 0u8));
    decode_utf8_lossy(run)
}

/// The text behind a wide-string pointer; a null pointer reads as the empty
/// string.
pub open spec fn text_or_empty(text: Option<WideText>) -> Seq<char> {
    match text {
        Some(t) => wide_text(t.units@),
        None => Seq::empty(),
    }
}

/// Decodes what a wide-string pointer leads to; a null pointer gives the
/// empty string.
pub fn from_wide_text(text: &Option<WideText>) -> (s: String)
    ensures
        s@ == text_or_empty(*text),
{
    match text {
        Some(t) => from_wide_string(t.units.as_slice()),
        None => String::new(),
    }
}

/// The call that hands a wide string back to the native side: none for a
/// null address.
pub open spec fn wide_string_release(address: usize) -> Seq<Event> {
    if address != 0 {
        seq![Event::FreeWideString { address }]
    } else {
        Seq::empty()
    }
}

/// The call that hands a string array back to the native side: none for a
/// null address or an array without entries.
pub open spec fn string_array_release(address: usize, count: u32) -> Seq<Event> {
    if address != 0 && count > 0 {
        seq![Event::FreeStringArray { address, count }]
    } else {
        Seq::empty()
    }
}

/// Hands a wide string back to the native side, unless its address is null.
pub fn free_wide_string<B: NativeBackend>(backend: &mut B, address: usize)
    ensures
        final(backend).log() == old(backend).log() + wide_string_release(address),
{
    if address != 0 {
        backend.free_wide_string(address);
    }
    assert(final(backend).log() =~= old(backend).log() + wide_string_release(address));
}

/// Hands a string array back to the native side, unless its address is null
/// or it holds no entries.
pub fn free_wide_string_array<B: NativeBackend>(backend: &mut B, address: usize, count: u32)
    ensures
        final(backend).log() == old(backend).log() + string_array_release(address, count),
{
    if address != 0 && count > 0 {
        backend.free_string_array(address, count);
    }
    assert(final(backend).log() =~= old(backend).log() + string_array_release(address, count));
}

} // verus!
