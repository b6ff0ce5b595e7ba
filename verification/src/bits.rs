//! Casts between integers that keep the low bits.
//!
//! The kernel reads some lengths, flags and offsets in another width or sign
//! than callers give them in. The bits are kept and read anew: a length loses
//! what does not fit, a negative number becomes a large one.

use libc::{c_int, off_t, size_t};
use vstd::prelude::*;

verus! {

/// A length modulo 2^32: its low 32 bits.
pub open spec fn low_u32(length: size_t) -> u32 {
    (length as int % 0x1_0000_0000) as u32
}

/// A signed number modulo 2^32: its bits, read as an unsigned number.
pub open spec fn bits_u32(number: c_int) -> u32 {
    (number as int % 0x1_0000_0000) as u32
}

/// An offset modulo 2^64: its bits, read as an unsigned number.
pub open spec fn bits_u64(offset: off_t) -> u64 {
    (offset as int % 0x1_0000_0000_0000_0000) as u64
}

/// The low 32 bits of a length.
pub fn length_u32(length: size_t) -> (low: u32)
    ensures
        low == low_u32(length),
        low == length as int % 0x1_0000_0000,
{
    assert(length as u32 == length as u64 % 0x1_0000_0000u64) by (bit_vector);
    length as u32
}

/// The bits of a signed number, read as an unsigned number.
pub fn number_u32(number: c_int) -> (bits: u32)
    ensures
        bits == bits_u32(number),
        bits == number as int % 0x1_0000_0000,
{
    assert(number as u32 == (if number >= 0 {
        number as int
    } else {
        number + 0x1_0000_0000
    })) by (bit_vector);
    number as u32
}

/// The bits of an offset, read as an unsigned number.
pub fn offset_u64(offset: off_t) -> (bits: u64)
    ensures
        bits == bits_u64(offset),
        bits == offset as int % 0x1_0000_0000_0000_0000,
{
    assert(offset as u64 == (if offset >= 0 {
        offset as int
    } else {
        offset + 0x1_0000_0000_0000_0000
    })) by (bit_vector);
    offset as u64
}

} // verus!
