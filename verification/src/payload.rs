//! Fixed-width payloads: how each scalar kind is stored in native memory and
//! read back from it.

use crate::memory::{
    bytes_of_u16, bytes_of_u32, bytes_of_u64, from_i16, from_i32, from_i64, from_i8, le16, le32,
    le64, lemma_le16_round_trip, lemma_le32_round_trip, lemma_le64_round_trip,
    lemma_signed_round_trip, pattern, read_u16, read_u32, read_u64, signed16, signed32, signed64,
    signed8, to_i16, to_i32, to_i64, to_i8, u16_at, u32_at, u64_at,
};
use crate::types::{Float32, Float64};
use vstd::prelude::*;

verus! {

/// A scalar with a fixed-width native representation.
pub trait Payload: Sized {
    /// Width in bytes of the native representation.
    spec fn width() -> nat;

    /// The scalar whose representation starts at `offset`.
    spec fn stored_at(bytes: Seq<u8>, offset: int) -> Self;

    /// The native representation of the scalar.
    spec fn stored(self) -> Seq<u8>;

    /// Reading back a stored scalar gives the scalar.
    proof fn lemma_round_trip(self)
        ensures
            self.stored().len() == Self::width(),
            Self::stored_at(self.stored(), 0) == self,
    ;

    /// Width in bytes of the native representation.
    fn size() -> (w: usize)
        ensures
            w == Self::width(),
            1 <= w <= 8,
    ;

    /// Reads the scalar whose representation starts at `offset`.
    fn read(bytes: &[u8], offset: usize) -> (v: Self)
        requires
            offset + Self::width() <= bytes.len(),
        ensures
            v == Self::stored_at(bytes@, offset as int),
    ;

    /// The native representation of the scalar.
    fn store(&self) -> (out: Vec<u8>)
        ensures
            out@ == self.stored(),
    ;
}

impl Payload for u8 {
    open spec fn width() -> nat {
        1
    }

    open spec fn stored_at(bytes: Seq<u8>, offset: int) -> u8 {
        bytes[offset]
    }

    open spec fn stored(self) -> Seq<u8> {
        seq![self]
    }

    proof fn lemma_round_trip(self) {

    }

    fn size() -> (w: usize) {
        1
    }

    fn read(bytes: &[u8], offset: usize) -> (v: u8) {
        bytes[offset]
    }

    fn store(&self) -> (out: Vec<u8>) {
        let mut out: Vec<u8> = Vec::new();
        out.push(*self);
        out
    }
}

impl Payload for i8 {
    open spec fn width() -> nat {
        1
    }

    open spec fn stored_at(bytes: Seq<u8>, offset: int) -> i8 {
        signed8(bytes[offset] as nat) as i8
    }

    open spec fn stored(self) -> Seq<u8> {
        seq![pattern(self as int, 0x100) as u8]
    }

    proof fn lemma_round_trip(self) {
        lemma_signed_round_trip(self as int);
    }

    fn size() -> (w: usize) {
        1
    }

    fn read(bytes: &[u8], offset: usize) -> (v: i8) {
        to_i8(bytes[offset])
    }

    fn store(&self) -> (out: Vec<u8>) {
        let mut out: Vec<u8> = Vec::new();
        out.push(from_i8(*self));
        out
    }
}

impl Payload for u16 {
    open spec fn width() -> nat {
        2
    }

    open spec fn stored_at(bytes: Seq<u8>, offset: int) -> u16 {
        u16_at(bytes, offset) as u16
    }

    open spec fn stored(self) -> Seq<u8> {
        le16(self as nat)
    }

    proof fn lemma_round_trip(self) {
        lemma_le16_round_trip(self as nat);
    }

    fn size() -> (w: usize) {
        2
    }

    fn read(bytes: &[u8], offset: usize) -> (v: u16) {
        read_u16(bytes, offset)
    }

    fn store(&self) -> (out: Vec<u8>) {
        bytes_of_u16(*self)
    }
}

impl Payload for i16 {
    open spec fn width() -> nat {
        2
    }

    open spec fn stored_at(bytes: Seq<u8>, offset: int) -> i16 {
        signed16(u16_at(bytes, offset)) as i16
    }

    open spec fn stored(self) -> Seq<u8> {
        le16(pattern(self as int, 0x1_0000))
    }

    proof fn lemma_round_trip(self) {
        lemma_signed_round_trip(self as int);
        lemma_le16_round_trip(pattern(self as int, 0x1_0000));
    }

    fn size() -> (w: usize) {
        2
    }

    fn read(bytes: &[u8], offset: usize) -> (v: i16) {
        to_i16(read_u16(bytes, offset))
    }

    fn store(&self) -> (out: Vec<u8>) {
        bytes_of_u16(from_i16(*self))
    }
}

impl Payload for u32 {
    open spec fn width() -> nat {
        4
    }

    open spec fn stored_at(bytes: Seq<u8>, offset: int) -> u32 {
        u32_at(bytes, offset) as u32
    }

    open spec fn stored(self) -> Seq<u8> {
        le32(self as nat)
    }

    proof fn lemma_round_trip(self) {
        lemma_le32_round_trip(self as nat);
    }

    fn size() -> (w: usize) {
        4
    }

    fn read(bytes: &[u8], offset: usize) -> (v: u32) {
        read_u32(bytes, offset)
    }

    fn store(&self) -> (out: Vec<u8>) {
        bytes_of_u32(*self)
    }
}

impl Payload for i32 {
    open spec fn width() -> nat {
        4
    }

    open spec fn stored_at(bytes: Seq<u8>, offset: int) -> i32 {
        signed32(u32_at(bytes, offset)) as i32
    }

    open spec fn stored(self) -> Seq<u8> {
        le32(pattern(self as int, 0x1_0000_0000))
    }

    proof fn lemma_round_trip(self) {
        lemma_signed_round_trip(self as int);
        lemma_le32_round_trip(pattern(self as int, 0x1_0000_0000));
    }

    fn size() -> (w: usize) {
        4
    }

    fn read(bytes: &[u8], offset: usize) -> (v: i32) {
        to_i32(read_u32(bytes, offset))
    }

    fn store(&self) -> (out: Vec<u8>) {
        bytes_of_u32(from_i32(*self))
    }
}

impl Payload for u64 {
    open spec fn width() -> nat {
        8
    }

    open spec fn stored_at(bytes: Seq<u8>, offset: int) -> u64 {
        u64_at(bytes, offset) as u64
    }

    open spec fn stored(self) -> Seq<u8> {
        le64(self as nat)
    }

    proof fn lemma_round_trip(self) {
        lemma_le64_round_trip(self as nat);
    }

    fn size() -> (w: usize) {
        8
    }

    fn read(bytes: &[u8], offset: usize) -> (v: u64) {
        read_u64(bytes, offset)
    }

    fn store(&self) -> (out: Vec<u8>) {
        bytes_of_u64(*self)
    }
}

impl Payload for i64 {
    open spec fn width() -> nat {
        8
    }

    open spec fn stored_at(bytes: Seq<u8>, offset: int) -> i64 {
        signed64(u64_at(bytes, offset)) as i64
    }

    open spec fn stored(self) -> Seq<u8> {
        le64(pattern(self as int, 0x1_0000_0000_0000_0000))
    }

    proof fn lemma_round_trip(self) {
        lemma_signed_round_trip(self as int);
        lemma_le64_round_trip(pattern(self as int, 0x1_0000_0000_0000_0000));
    }

    fn size() -> (w: usize) {
        8
    }

    fn read(bytes: &[u8], offset: usize) -> (v: i64) {
        to_i64(read_u64(bytes, offset))
    }

    fn store(&self) -> (out: Vec<u8>) {
        bytes_of_u64(from_i64(*self))
    }
}

impl Payload for Float32 {
    open spec fn width() -> nat {
        4
    }

    open spec fn stored_at(bytes: Seq<u8>, offset: int) -> Float32 {
        Float32 { bits: u32_at(bytes, offset) as u32 }
    }

    open spec fn stored(self) -> Seq<u8> {
        le32(self.bits as nat)
    }

    proof fn lemma_round_trip(self) {
        lemma_le32_round_trip(self.bits as nat);
    }

    fn size() -> (w: usize) {
        4
    }

    fn read(bytes: &[u8], offset: usize) -> (v: Float32) {
        Float32::from_bits(read_u32(bytes, offset))
    }

    fn store(&self) -> (out: Vec<u8>) {
        bytes_of_u32(self.to_bits())
    }
}

impl Payload for Float64 {
    open spec fn width() -> nat {
        8
    }

    open spec fn stored_at(bytes: Seq<u8>, offset: int) -> Float64 {
        Float64 { bits: u64_at(bytes, offset) as u64 }
    }

    open spec fn stored(self) -> Seq<u8> {
        le64(self.bits as nat)
    }

    proof fn lemma_round_trip(self) {
        lemma_le64_round_trip(self.bits as nat);
    }

    fn size() -> (w: usize) {
        8
    }

    fn read(bytes: &[u8], offset: usize) -> (v: Float64) {
        Float64::from_bits(read_u64(bytes, offset))
    }

    fn store(&self) -> (out: Vec<u8>) {
        bytes_of_u64(self.to_bits())
    }
}

impl Payload for bool {
    open spec fn width() -> nat {
        2
    }

    open spec fn stored_at(bytes: Seq<u8>, offset: int) -> bool {
        u16_at(bytes, offset) != 0
    }

    open spec fn stored(self) -> Seq<u8> {
        if self {
            seq![0xffu8, 0xffu8]
        } else {
            seq![0u8, 0u8]
        }
    }

    proof fn lemma_round_trip(self) {

    }

    fn size() -> (w: usize) {
        2
    }

    fn read(bytes: &[u8], offset: usize) -> (v: bool) {
        read_u16(bytes, offset) != 0
    }

    fn store(&self) -> (out: Vec<u8>) {
        let mut out: Vec<u8> = Vec::new();
        if *self {
            out.push(0xff);
            out.push(0xff);
        } else {
            out.push(0);
            out.push(0);
        }
        out
    }
}

/// The `count` scalars stored one after another from the start of `bytes`.
pub open spec fn elements<E: Payload>(bytes: Seq<u8>, count: nat) -> Seq<E> {
    Seq::new(count, |i: int| E::stored_at(bytes, i * E::width()))
}

/// Reads `count` scalars stored one after another from the start of `bytes`.
pub fn read_elements<E: Payload>(bytes: &[u8], count: usize) -> (v: Vec<E>)
    requires
        count * E::width() <= bytes.len(),
    ensures
        v@ == elements::<E>(bytes@, count as nat),
{
    let width = E::size();
    let mut v: Vec<E> = Vec::new();
    let mut i: usize = 0;
    let mut offset: usize = 0;
    while i < count
        invariant
            i <= count,
            width == E::width(),
            1 <= width <= 8,
            offset == i * width,
            count * width <= bytes.len(),
            v@ == elements::<E>(bytes@, i as nat),
        decreases count - i,
    {
        proof {
            assert((i + 1) * width <= count * width) by (nonlinear_arith)
                requires
                    i + 1 <= count,
                    width >= 0,
            ;
            assert((i + 1) * width == i * width + width) by (nonlinear_arith);
        }
        let e = E::read(bytes, offset);
        v.push(e);
        offset = offset + width;
        i = i + 1;
        assert(v@ =~= elements::<E>(bytes@, i as nat));
    }
    v
}

} // verus!
