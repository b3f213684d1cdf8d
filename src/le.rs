//! Little-endian register fields: unsigned values and their two's-complement
//! reinterpretation, kept apart from any arithmetic done on them.

use vstd::prelude::*;

verus! {

/// Unsigned value of two bytes, least significant first.
pub open spec fn u16_le(lo: u8, hi: u8) -> int {
    lo + 256 * hi
}

/// Two bytes, least significant first, read as a two's-complement 16-bit value.
pub open spec fn i16_le(lo: u8, hi: u8) -> int {
    if hi < 128 {
        u16_le(lo, hi)
    } else {
        u16_le(lo, hi) - 65536
    }
}

/// Unsigned value of three bytes, least significant first.
pub open spec fn u24_le(b0: u8, b1: u8, b2: u8) -> int {
    b0 + 256 * b1 + 65536 * b2
}

/// Three bytes, least significant first, read as a two's-complement 24-bit
/// value: the top bit of the third byte is the sign.
pub open spec fn i24_le(b0: u8, b1: u8, b2: u8) -> int {
    if b2 < 128 {
        u24_le(b0, b1, b2)
    } else {
        u24_le(b0, b1, b2) - 0x100_0000
    }
}

/// Assembles an unsigned 16-bit value from its low and high bytes.
pub fn u16_from_le(lo: u8, hi: u8) -> (r: u16)
    ensures
        r == u16_le(lo, hi),
{
    let r: u16 = (lo as u16) | ((hi as u16) << 8u16);
    assert(((lo as u16) | ((hi as u16) << 8u16)) == lo + 256 * hi) by (bit_vector);
    r
}

/// Reinterprets a little-endian byte pair as a signed 16-bit value: a pair
/// whose high byte has its top bit set stands for a negative number.
pub fn i16_from_le(lo: u8, hi: u8) -> (r: i16)
    ensures
        r == i16_le(lo, hi),
{
    let u = u16_from_le(lo, hi);
    if hi < 128 {
        u as i16
    } else {
        (u as i32 - 65536) as i16
    }
}

/// Assembles an unsigned 24-bit value from three bytes, least significant first.
pub fn u24_from_le(b0: u8, b1: u8, b2: u8) -> (r: u32)
    ensures
        r == u24_le(b0, b1, b2),
        r < 0x100_0000,
{
    let r: u32 = (b0 as u32) | ((b1 as u32) << 8u32) | ((b2 as u32) << 16u32);
    assert(((b0 as u32) | ((b1 as u32) << 8u32) | ((b2 as u32) << 16u32)) == b0 + 256 * b1
        + 65536 * b2) by (bit_vector);
    r
}

/// Reinterprets three little-endian bytes as a signed 24-bit value, sign
/// extended to 32 bits.
pub fn i24_from_le(b0: u8, b1: u8, b2: u8) -> (r: i32)
    ensures
        r == i24_le(b0, b1, b2),
{
    let u = u24_from_le(b0, b1, b2);
    if b2 < 128 {
        u as i32
    } else {
        u as i32 - 0x100_0000
    }
}

} // verus!
