//! Bit fields and byte order of the register map.

use vstd::prelude::*;

verus! {

/// Two to the power `n`, for the bit positions of a 16-bit register.
#[verifier::inline]
pub open spec fn two_pow(n: nat) -> int {
    if n == 0 {
        1
    } else if n == 1 {
        2
    } else if n == 2 {
        4
    } else if n == 3 {
        8
    } else if n == 4 {
        16
    } else if n == 5 {
        32
    } else if n == 6 {
        64
    } else if n == 7 {
        128
    } else if n == 8 {
        256
    } else if n == 9 {
        512
    } else if n == 10 {
        1024
    } else if n == 11 {
        2048
    } else if n == 12 {
        4096
    } else if n == 13 {
        8192
    } else if n == 14 {
        16384
    } else if n == 15 {
        32768
    } else {
        65536
    }
}

/// The `width`-bit field that starts at bit `start` of `word`, bit 0 being
/// the least significant.
#[verifier::opaque]
pub open spec fn bits(word: int, start: nat, width: nat) -> int {
    (word / two_pow(start)) % two_pow(width)
}

/// The low `width` bits of `value`, moved up to start at bit `start`.
#[verifier::inline]
pub open spec fn field(value: int, start: nat, width: nat) -> int {
    (value % two_pow(width)) * two_pow(start)
}

/// `value`, moved up to start at bit `start`.
#[verifier::inline]
pub open spec fn at(value: int, start: nat) -> int {
    value * two_pow(start)
}

/// A flag as the one-bit number it is stored as.
#[verifier::opaque]
pub open spec fn flag(b: bool) -> int {
    if b {
        1
    } else {
        0
    }
}

/// The number that two bytes hold, least significant byte first.
pub open spec fn le16(lo: u8, hi: u8) -> u16 {
    (lo + 256 * hi) as u16
}

/// The two bytes of a 16-bit number, least significant first.
pub open spec fn le16_bytes(v: u16) -> Seq<u8> {
    seq![(v % 256) as u8, (v / 256) as u8]
}

/// The four bytes of a 32-bit number, least significant first.
pub open spec fn le32_bytes(v: u32) -> Seq<u8> {
    le16_bytes((v % 65536) as u16) + le16_bytes((v / 65536) as u16)
}

/// The number that four bytes hold, least significant byte first.
pub open spec fn le32(b0: u8, b1: u8, b2: u8, b3: u8) -> u32 {
    (le16(b0, b1) + 65536 * le16(b2, b3)) as u32
}

/// The two bytes of a 16-bit number, most significant first.
pub open spec fn be16_bytes(v: u16) -> Seq<u8> {
    seq![(v / 256) as u8, (v % 256) as u8]
}

/// A 16-bit pattern read as a two's complement number.
pub open spec fn signed16(w: u16) -> int {
    if w < 32768 {
        w as int
    } else {
        w - 65536
    }
}

/// Splits a 16-bit number into its bytes, least significant first.
pub fn u16_to_le(v: u16) -> (b: [u8; 2])
    ensures
        b@ == le16_bytes(v),
        le16(b@[0], b@[1]) == v,
{
    let b = [(v % 256) as u8, (v / 256) as u8];
    assert(b@ =~= le16_bytes(v));
    b
}

/// Joins two bytes, least significant first, into a 16-bit number.
pub fn u16_from_le(lo: u8, hi: u8) -> (v: u16)
    ensures
        v == le16(lo, hi),
        le16_bytes(v) == seq![lo, hi],
{
    let v = lo as u16 + 256 * (hi as u16);
    assert(le16_bytes(v) =~= seq![lo, hi]);
    v
}

/// Splits a 16-bit number into its bytes, most significant first.
pub fn u16_to_be(v: u16) -> (b: [u8; 2])
    ensures
        b@ == be16_bytes(v),
{
    let b = [(v / 256) as u8, (v % 256) as u8];
    assert(b@ =~= be16_bytes(v));
    b
}

/// Splits a 32-bit number into its bytes, least significant first.
pub fn u32_to_le(v: u32) -> (b: [u8; 4])
    ensures
        b@ == le32_bytes(v),
        le32(b@[0], b@[1], b@[2], b@[3]) == v,
{
    let lo = u16_to_le((v % 65536) as u16);
    let hi = u16_to_le((v / 65536) as u16);
    let b = [lo[0], lo[1], hi[0], hi[1]];
    assert(b@ =~= le32_bytes(v));
    b
}

/// Joins four bytes, least significant first, into a 32-bit number.
pub fn u32_from_le(b0: u8, b1: u8, b2: u8, b3: u8) -> (v: u32)
    ensures
        v == le32(b0, b1, b2, b3),
        le32_bytes(v) == seq![b0, b1, b2, b3],
{
    let lo = u16_from_le(b0, b1);
    let hi = u16_from_le(b2, b3);
    let v = lo as u32 + 65536 * (hi as u32);
    assert(v % 65536 == lo && v / 65536 == hi);
    assert(le32_bytes(v) =~= seq![b0, b1, b2, b3]);
    v
}

/// Joins two bytes, least significant first, into a signed 16-bit number.
pub fn i16_from_le(lo: u8, hi: u8) -> (v: i16)
    ensures
        v == signed16(le16(lo, hi)),
{
    let w = u16_from_le(lo, hi);
    if w < 32768 {
        w as i16
    } else {
        (w as i32 - 65536) as i16
    }
}

/// A result that holds a block of bytes, with the block as a sequence.
pub open spec fn array_result<const N: usize, E>(r: Result<[u8; N], E>) -> Result<Seq<u8>, E> {
    match r {
        Ok(block) => Ok(block@),
        Err(e) => Err(e),
    }
}

/// A flag as the bit it is stored as.
pub fn flag_bit(b: bool) -> (v: u8)
    ensures
        v == flag(b),
        v <= 1,
{
    proof {
        reveal(flag);
    }
    if b {
        1
    } else {
        0
    }
}

} // verus!
