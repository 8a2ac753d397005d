//! Bytes, words and the arithmetic that joins and splits them.
//!
//! The specification functions here are stated over the integers; the
//! executable functions use the shifts and masks a processor would, and are
//! proved to compute the same values.
use vstd::prelude::*;

verus! {

/// `value` reduced into the range of a byte.
#[verifier::opaque]
pub open spec fn wrap8(value: int) -> u8 {
    (value % 0x100) as u8
}

/// `value` reduced into the range of a 16-bit word.
#[verifier::opaque]
pub open spec fn wrap16(value: int) -> u16 {
    (value % 0x10000) as u16
}

/// The word whose high byte is `high` and whose low byte is `low`.
pub open spec fn word(high: u8, low: u8) -> u16 {
    (high as int * 0x100 + low as int) as u16
}

/// The high byte of `value`.
pub open spec fn high_byte(value: u16) -> u8 {
    (value as int / 0x100) as u8
}

/// The low byte of `value`.
pub open spec fn low_byte(value: u16) -> u8 {
    (value as int % 0x100) as u8
}

/// The number a byte stands for when read as two's complement.
pub open spec fn signed(byte: u8) -> int {
    if byte < 0x80 {
        byte as int
    } else {
        byte as int - 0x100
    }
}

/// Joining two bytes with a shift puts the first at 256 times its value.
pub proof fn lemma_shift_is_scaling(high: u8, low: u8)
    by (bit_vector)
    ensures
        (high as u16) << 8 | (low as u16) == high as u16 * 0x100 + low as u16,
{
}

/// Splitting a word with a shift and a mask divides it by 256.
pub proof fn lemma_shift_is_division(value: u16)
    by (bit_vector)
    ensures
        value >> 8 == value / 0x100,
        value & 0xFF == value % 0x100,
        value >> 8 < 0x100,
{
}

/// Joins two bytes into a word, `high` first.
pub fn make_word(high: u8, low: u8) -> (value: u16)
    ensures
        value == word(high, low),
        high_byte(value) == high,
        low_byte(value) == low,
{
    proof {
        lemma_shift_is_scaling(high, low);
    }
    (high as u16) << 8 | (low as u16)
}

/// The high byte of a word.
pub fn upper(value: u16) -> (byte: u8)
    ensures
        byte == high_byte(value),
{
    proof {
        lemma_shift_is_division(value);
    }
    (value >> 8) as u8
}

/// The low byte of a word.
pub fn lower(value: u16) -> (byte: u8)
    ensures
        byte == low_byte(value),
{
    proof {
        lemma_shift_is_division(value);
    }
    (value & 0xFF) as u8
}

/// Reads a byte as a two's-complement number.
pub fn to_signed(byte: u8) -> (value: i8)
    ensures
        value as int == signed(byte),
{
    if byte < 0x80 {
        byte as i8
    } else {
        (byte as i16 - 0x100) as i8
    }
}

} // verus!
