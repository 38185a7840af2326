//! Owned images of the native memory behind a value pointer, and the
//! little-endian reading and writing of fixed-width payloads. The native side
//! is little-endian, and payloads are copied without byte swapping.

use vstd::prelude::*;

verus! {

/// A wide string of the native side: its address and the UTF-16 code units
/// found there.
#[derive(Debug, Clone, PartialEq)]
pub struct WideText {
    pub address: usize,
    pub units: Vec<u16>,
}

/// A single-byte string of the native side: its address and the bytes found
/// there.
#[derive(Debug, Clone, PartialEq)]
pub struct AnsiText {
    pub address: usize,
    pub bytes: Vec<u8>,
}

/// The element memory of a safe array.
#[derive(Debug, Clone, PartialEq)]
pub enum ArrayData {
    /// The element memory was not read.
    Unread,
    /// The contiguous bytes of fixed-width elements.
    Bytes(Vec<u8>),
    /// The strings that the elements point to; `None` is a null element.
    Texts(Vec<Option<WideText>>),
}

/// A safe-array descriptor: the number of dimensions, the bounds of the first
/// dimension where they could be had, and the element memory.
#[derive(Debug, Clone, PartialEq)]
pub struct SafeArrayImage {
    pub dims: u32,
    pub lower_bound: Option<i32>,
    pub upper_bound: Option<i32>,
    pub data: ArrayData,
}

/// What a value pointer of the native side leads to.
#[derive(Debug, PartialEq)]
pub enum RawValue {
    /// The pointer is null.
    Null,
    /// The bytes at the pointer.
    Bytes(Vec<u8>),
    /// The wide string at the pointer.
    Wide(WideText),
    /// The single-byte string at the pointer.
    Ansi(AnsiText),
    /// The pointer found at the pointer, and what that one leads to.
    Pointer(Box<RawValue>),
    /// The safe-array descriptor at the pointer.
    Array(SafeArrayImage),
}

/// A buffer of the native side that is handed back once its text is copied.
#[derive(Debug, Clone, Copy, PartialEq, Eq, Structural)]
pub enum Release {
    /// A wide string, by its address.
    WideString(usize),
    /// A single-byte string, by its address.
    AnsiString(usize),
}

/// The unsigned 16-bit number stored little-endian at `offset`.
pub open spec fn u16_at(bytes: Seq<u8>, offset: int) -> nat {
    (bytes[offset] + 256 * bytes[offset + 1]) as nat
}

/// The unsigned 32-bit number stored little-endian at `offset`.
pub open spec fn u32_at(bytes: Seq<u8>, offset: int) -> nat {
    u16_at(bytes, offset) + 65536 * u16_at(bytes, offset + 2)
}

/// The unsigned 64-bit number stored little-endian at `offset`.
pub open spec fn u64_at(bytes: Seq<u8>, offset: int) -> nat {
    u32_at(bytes, offset) + 4294967296 * u32_at(bytes, offset + 4)
}

/// The signed reading of an 8-bit pattern.
pub open spec fn signed8(n: nat) -> int {
    if n < 0x80 {
        n as int
    } else {
        n - 0x100
    }
}

/// The signed reading of a 16-bit pattern.
pub open spec fn signed16(n: nat) -> int {
    if n < 0x8000 {
        n as int
    } else {
        n - 0x1_0000
    }
}

/// The signed reading of a 32-bit pattern.
pub open spec fn signed32(n: nat) -> int {
    if n < 0x8000_0000 {
        n as int
    } else {
        n - 0x1_0000_0000
    }
}

/// The signed reading of a 64-bit pattern.
pub open spec fn signed64(n: nat) -> int {
    if n < 0x8000_0000_0000_0000 {
        n as int
    } else {
        n - 0x1_0000_0000_0000_0000
    }
}

/// The bit pattern of a signed number, in a word of `modulus` values.
pub open spec fn pattern(v: int, modulus: int) -> nat {
    if v >= 0 {
        v as nat
    } else {
        (v + modulus) as nat
    }
}

/// The two bytes that store a 16-bit pattern little-endian.
pub open spec fn le16(n: nat) -> Seq<u8> {
    seq![(n % 256) as u8, (n / 256 % 256) as u8]
}

/// The four bytes that store a 32-bit pattern little-endian.
pub open spec fn le32(n: nat) -> Seq<u8> {
    le16(n % 65536) + le16(n / 65536 % 65536)
}

/// The eight bytes that store a 64-bit pattern little-endian.
pub open spec fn le64(n: nat) -> Seq<u8> {
    le32(n % 4294967296) + le32(n / 4294967296 % 4294967296)
}

/// Reading back two stored bytes gives the pattern that was stored.
pub proof fn lemma_le16_round_trip(n: nat)
    requires
        n < 0x1_0000,
    ensures
        le16(n).len() == 2,
        u16_at(le16(n), 0) == n,
{
}

/// Reading back four stored bytes gives the pattern that was stored.
pub proof fn lemma_le32_round_trip(n: nat)
    requires
        n < 0x1_0000_0000,
    ensures
        le32(n).len() == 4,
        u32_at(le32(n), 0) == n,
{
    let lo = n % 65536;
    let hi = n / 65536 % 65536;
    let s = le32(n);
    lemma_le16_round_trip(lo);
    lemma_le16_round_trip(hi);
    assert(s[0] == le16(lo)[0] && s[1] == le16(lo)[1]);
    assert(s[2] == le16(hi)[0] && s[3] == le16(hi)[1]);
    assert(u16_at(s, 0) == lo);
    assert(u16_at(s, 2) == hi);
}

/// Reading back eight stored bytes gives the pattern that was stored.
pub proof fn lemma_le64_round_trip(n: nat)
    requires
        n < 0x1_0000_0000_0000_0000,
    ensures
        le64(n).len() == 8,
        u64_at(le64(n), 0) == n,
{
    let lo = n % 4294967296;
    let hi = n / 4294967296 % 4294967296;
    let s = le64(n);
    lemma_le32_round_trip(lo);
    lemma_le32_round_trip(hi);
    assert forall|i: int| 0 <= i < 4 implies s[i] == le32(lo)[i] && s[i + 4] == le32(hi)[i] by {}
    assert(u16_at(s, 0) == u16_at(le32(lo), 0));
    assert(u16_at(s, 2) == u16_at(le32(lo), 2));
    assert(u16_at(s, 4) == u16_at(le32(hi), 0));
    assert(u16_at(s, 6) == u16_at(le32(hi), 2));
    assert(u32_at(s, 0) == lo);
    assert(u32_at(s, 4) == hi);
}

/// The signed reading of the pattern of a signed number is the number.
pub proof fn lemma_signed_round_trip(v: int)
    ensures
        -0x80 <= v < 0x80 ==> signed8(pattern(v, 0x100)) == v && pattern(v, 0x100) < 0x100,
        -0x8000 <= v < 0x8000 ==> signed16(pattern(v, 0x1_0000)) == v && pattern(v, 0x1_0000)
            < 0x1_0000,
        -0x8000_0000 <= v < 0x8000_0000 ==> signed32(pattern(v, 0x1_0000_0000)) == v && pattern(
            v,
            0x1_0000_0000,
        ) < 0x1_0000_0000,
        -0x8000_0000_0000_0000 <= v < 0x8000_0000_0000_0000 ==> signed64(
            pattern(v, 0x1_0000_0000_0000_0000),
        ) == v && pattern(v, 0x1_0000_0000_0000_0000) < 0x1_0000_0000_0000_0000,
{
}

/// Reads the unsigned 16-bit number stored little-endian at `offset`.
pub fn read_u16(bytes: &[u8], offset: usize) -> (v: u16)
    requires
        offset + 2 <= bytes.len(),
    ensures
        v == u16_at(bytes@, offset as int),
{
    bytes[offset] as u16 + 256 * (bytes[offset + 1] as u16)
}

/// Reads the unsigned 32-bit number stored little-endian at `offset`.
pub fn read_u32(bytes: &[u8], offset: usize) -> (v: u32)
    requires
        offset + 4 <= bytes.len(),
    ensures
        v == u32_at(bytes@, offset as int),
{
    read_u16(bytes, offset) as u32 + 65536 * (read_u16(bytes, offset + 2) as u32)
}

/// Reads the unsigned 64-bit number stored little-endian at `offset`.
pub fn read_u64(bytes: &[u8], offset: usize) -> (v: u64)
    requires
        offset + 8 <= bytes.len(),
    ensures
        v == u64_at(bytes@, offset as int),
{
    read_u32(bytes, offset) as u64 + 4294967296 * (read_u32(bytes, offset + 4) as u64)
}

/// The signed number with the given 8-bit pattern.
pub fn to_i8(n: u8) -> (v: i8)
    ensures
        v == signed8(n as nat),
{
    if n < 0x80 {
        n as i8
    } else {
        (n - 0x80) as i8 + i8::MIN
    }
}

/// The signed number with the given 16-bit pattern.
pub fn to_i16(n: u16) -> (v: i16)
    ensures
        v == signed16(n as nat),
{
    if n < 0x8000 {
        n as i16
    } else {
        (n - 0x8000) as i16 + i16::MIN
    }
}

/// The signed number with the given 32-bit pattern.
pub fn to_i32(n: u32) -> (v: i32)
    ensures
        v == signed32(n as nat),
{
    if n < 0x8000_0000 {
        n as i32
    } else {
        (n - 0x8000_0000) as i32 + i32::MIN
    }
}

/// The signed number with the given 64-bit pattern.
pub fn to_i64(n: u64) -> (v: i64)
    ensures
        v == signed64(n as nat),
{
    if n < 0x8000_0000_0000_0000 {
        n as i64
    } else {
        (n - 0x8000_0000_0000_0000) as i64 + i64::MIN
    }
}

/// The 8-bit pattern of a signed number.
pub fn from_i8(v: i8) -> (n: u8)
    ensures
        n == pattern(v as int, 0x100),
{
    if v >= 0 {
        v as u8
    } else {
        (v - i8::MIN) as u8 + 0x80
    }
}

/// The 16-bit pattern of a signed number.
pub fn from_i16(v: i16) -> (n: u16)
    ensures
        n == pattern(v as int, 0x1_0000),
{
    if v >= 0 {
        v as u16
    } else {
        (v - i16::MIN) as u16 + 0x8000
    }
}

/// The 32-bit pattern of a signed number.
pub fn from_i32(v: i32) -> (n: u32)
    ensures
        n == pattern(v as int, 0x1_0000_0000),
{
    if v >= 0 {
        v as u32
    } else {
        (v - i32::MIN) as u32 + 0x8000_0000
    }
}

/// The 64-bit pattern of a signed number.
pub fn from_i64(v: i64) -> (n: u64)
    ensures
        n == pattern(v as int, 0x1_0000_0000_0000_0000),
{
    if v >= 0 {
        v as u64
    } else {
        (v - i64::MIN) as u64 + 0x8000_0000_0000_0000
    }
}

/// The two bytes that store `n` little-endian.
pub fn bytes_of_u16(n: u16) -> (out: Vec<u8>)
    ensures
        out@ == le16(n as nat),
{
    let mut out: Vec<u8> = Vec::new();
    out.push((n % 256) as u8);
    out.push((n / 256 % 256) as u8);
    out
}

/// The four bytes that store `n` little-endian.
pub fn bytes_of_u32(n: u32) -> (out: Vec<u8>)
    ensures
        out@ == le32(n as nat),
{
    let mut out = bytes_of_u16((n % 65536) as u16);
    let mut high = bytes_of_u16((n / 65536 % 65536) as u16);
    out.append(&mut high);
    out
}

/// The eight bytes that store `n` little-endian.
pub fn bytes_of_u64(n: u64) -> (out: Vec<u8>)
    ensures
        out@ == le64(n as nat),
{
    let mut out = bytes_of_u32((n % 4294967296) as u32);
    let mut high = bytes_of_u32((n / 4294967296 % 4294967296) as u32);
    out.append(&mut high);
    out
}

} // verus!
