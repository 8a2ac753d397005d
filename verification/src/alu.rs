//! The arithmetic of the processor, stated over the integers.
//!
//! Each function gives the value an operation produces together with the
//! flags it leaves. Where an operation leaves a flag untouched, the function
//! takes the flags from before and hands that flag through.
use vstd::prelude::*;
use crate::bits::{wrap16, wrap8};
use crate::registers::FlagRegister;

verus! {

/// What an operation on bytes yields.
pub struct AluResult {
    pub value: u8,
    pub flags: FlagRegister,
}

/// What an operation on words yields.
pub struct WordResult {
    pub value: u16,
    pub flags: FlagRegister,
}

/// One if `carry` is set, zero if not.
pub open spec fn carry_value(carry: bool) -> int {
    if carry {
        1
    } else {
        0
    }
}

/// `a + b`, plus one if `carry_in` is set.
///
/// Z says whether the sum's low byte is zero, C whether the sum left the
/// byte, and H whether the low nibbles of `a` and `b` alone carry into
/// bit 4. N is clear.
pub open spec fn add_bytes(a: u8, b: u8, carry_in: bool) -> AluResult {
    let sum = a + b + carry_value(carry_in);
    AluResult {
        value: wrap8(sum),
        flags: FlagRegister {
            z: wrap8(sum) == 0,
            n: false,
            h: a % 0x10 + b % 0x10 > 0xF,
            c: sum > 0xFF,
        },
    }
}

/// `a - b`, less one if `carry_in` is set.
///
/// Z says whether the difference's low byte is zero, C whether the
/// subtraction borrowed, and H whether the low nibble of `b` alone exceeds
/// that of `a`. N is set.
pub open spec fn subtract_bytes(a: u8, b: u8, carry_in: bool) -> AluResult {
    let difference = a - b - carry_value(carry_in);
    AluResult {
        value: wrap8(difference),
        flags: FlagRegister {
            z: wrap8(difference) == 0,
            n: true,
            h: b % 0x10 > a % 0x10,
            c: difference < 0,
        },
    }
}

/// The flags of a bitwise operation whose result is `value`: Z says whether
/// it is zero, the others are clear.
pub open spec fn logic(value: u8) -> AluResult {
    AluResult { value, flags: FlagRegister { z: value == 0, n: false, h: false, c: false } }
}

/// Bitwise and.
pub open spec fn and(a: u8, b: u8) -> AluResult {
    logic(a & b)
}

/// Bitwise or.
pub open spec fn or(a: u8, b: u8) -> AluResult {
    logic(a | b)
}

/// Bitwise exclusive or.
pub open spec fn xor(a: u8, b: u8) -> AluResult {
    logic(a ^ b)
}

/// The flags of comparing `a` with `b`: those of `a - b`.
pub open spec fn compare(a: u8, b: u8) -> FlagRegister {
    subtract_bytes(a, b, false).flags
}

/// `value + 1`. H says whether the low nibble overflowed; C is left as it
/// was.
pub open spec fn increment(value: u8, flags: FlagRegister) -> AluResult {
    AluResult {
        value: wrap8(value + 1),
        flags: FlagRegister {
            z: wrap8(value + 1) == 0,
            n: false,
            h: value % 0x10 == 0xF,
            c: flags.c,
        },
    }
}

/// `value - 1`. H says whether the low nibble borrowed; C is left as it was.
pub open spec fn decrement(value: u8, flags: FlagRegister) -> AluResult {
    AluResult {
        value: wrap8(value - 1),
        flags: FlagRegister {
            z: wrap8(value - 1) == 0,
            n: true,
            h: value % 0x10 == 0,
            c: flags.c,
        },
    }
}

/// `a + b` on words. H says whether the low twelve bits carry into bit 12,
/// C whether the sum left the word; Z is left as it was.
pub open spec fn add_words(a: u16, b: u16, flags: FlagRegister) -> WordResult {
    WordResult {
        value: wrap16(a + b),
        flags: FlagRegister {
            z: flags.z,
            n: false,
            h: a % 0x1000 + b % 0x1000 > 0xFFF,
            c: a + b > 0xFFFF,
        },
    }
}

/// `word + offset` where `offset` is signed.
///
/// For an offset that is not negative, H and C say whether adding it to the
/// low nibble and to the low byte of `word` carries. For a negative offset
/// they say whether its magnitude exceeds the low nibble and the low byte of
/// `word`. Z and N are clear either way.
pub open spec fn add_signed(word: u16, offset: i8) -> WordResult {
    if offset >= 0 {
        WordResult {
            value: wrap16(word + offset),
            flags: FlagRegister {
                z: false,
                n: false,
                h: word % 0x10 + offset % 0x10 > 0xF,
                c: word % 0x100 + offset > 0xFF,
            },
        }
    } else {
        WordResult {
            value: wrap16(word + offset),
            flags: FlagRegister {
                z: false,
                n: false,
                h: (-offset) % 0x10 > word % 0x10,
                c: -offset > word % 0x100,
            },
        }
    }
}

/// The flags after a rotate or shift that produced `value` and moved
/// `carry` out.
pub open spec fn shifted(value: u8, carry: bool) -> AluResult {
    AluResult { value, flags: FlagRegister { z: value == 0, n: false, h: false, c: carry } }
}

/// Rotate left: bit 7 moves to bit 0 and to C.
pub open spec fn rlc(value: u8) -> AluResult {
    shifted(wrap8(value * 2 + value / 0x80), value >= 0x80)
}

/// Rotate left through carry: `carry_in` moves to bit 0, bit 7 to C.
pub open spec fn rl(value: u8, carry_in: bool) -> AluResult {
    shifted(wrap8(value * 2 + carry_value(carry_in)), value >= 0x80)
}

/// Rotate right: bit 0 moves to bit 7 and to C.
pub open spec fn rrc(value: u8) -> AluResult {
    shifted(wrap8(value / 2 + (value % 2) * 0x80), value % 2 == 1)
}

/// Rotate right through carry: `carry_in` moves to bit 7, bit 0 to C.
pub open spec fn rr(value: u8, carry_in: bool) -> AluResult {
    shifted(wrap8(value / 2 + carry_value(carry_in) * 0x80), value % 2 == 1)
}

/// Shift left: bit 0 becomes zero, bit 7 moves to C.
pub open spec fn sla(value: u8) -> AluResult {
    shifted(wrap8(value * 2), value >= 0x80)
}

/// Shift right keeping the sign: bit 7 stays, bit 0 moves to C.
pub open spec fn sra(value: u8) -> AluResult {
    shifted(wrap8(value / 2 + (value / 0x80) * 0x80), value % 2 == 1)
}

/// Shift right: bit 7 becomes zero, bit 0 moves to C.
pub open spec fn srl(value: u8) -> AluResult {
    shifted(wrap8(value as int / 2), value % 2 == 1)
}

/// Exchange the two nibbles. C is clear.
pub open spec fn swap(value: u8) -> AluResult {
    shifted(wrap8((value % 0x10) * 0x10 + value / 0x10), false)
}

/// Whether bit `bit` of `value` is one.
pub open spec fn bit_is_set(value: u8, bit: u8) -> bool {
    value & (1u8 << bit) != 0
}

/// The flags after testing bit `bit` of `value`: Z says that the bit is
/// zero, N is clear, H is set, C is left as it was.
pub open spec fn test_bit(value: u8, bit: u8, flags: FlagRegister) -> FlagRegister {
    FlagRegister { z: !bit_is_set(value, bit), n: false, h: true, c: flags.c }
}

/// `value` with bit `bit` one.
pub open spec fn set_bit(value: u8, bit: u8) -> u8 {
    value | (1u8 << bit)
}

/// `value` with bit `bit` zero.
pub open spec fn clear_bit(value: u8, bit: u8) -> u8 {
    value & !(1u8 << bit)
}

/// The bitwise complement of `value`.
pub open spec fn complement(value: u8) -> u8 {
    !value
}

/// The low nibble of a byte, as a remainder.
pub proof fn lemma_low_nibble(value: u8)
    by (bit_vector)
    ensures
        value & 0xF == value % 0x10,
{
}

/// Masks and shifts on a byte, as division and remainder.
pub proof fn lemma_byte_fields(value: u8)
    by (bit_vector)
    ensures
        value & 0xF == value % 0x10,
        value & 0x0F == value % 0x10,
        value & 1 == value % 2,
        value >> 1 == value / 2,
        value >> 4 == value / 0x10,
        value >> 7 == value / 0x80,
        value & 0x80 == (value / 0x80) * 0x80,
        value & 0b1000_0000 == (value / 0x80) * 0x80,
{
}

/// Masks on a word, as remainders.
pub proof fn lemma_word_fields(value: u16)
    by (bit_vector)
    ensures
        value & 0xF == value % 0x10,
        value & 0xFF == value % 0x100,
        value & 0xFFF == value % 0x1000,
        value & 0x00FF == value % 0x100,
{
}

/// The rotates and shifts written with `<<`, `>>` and `|`, as arithmetic.
pub proof fn lemma_rotations(value: u8, carry: u8)
    by (bit_vector)
    requires
        carry <= 1,
    ensures
        ({
            &&& value << 1 | value >> 7 == (value * 2 + value / 0x80) % 0x100
            &&& value << 1 | carry == (value * 2 + carry) % 0x100
            &&& (value & 1) << 7 | value >> 1 == value / 2 + (value % 2) * 0x80
            &&& carry << 7 | value >> 1 == value / 2 + carry * 0x80
            &&& value << 1 == (value * 2) % 0x100
            &&& (value >> 1) | (value & 0b1000_0000) == value / 2 + (value / 0x80) * 0x80
            &&& (value & 0x0F) << 4 | value >> 4 == (value % 0x10) * 0x10 + value / 0x10
        }),
{
}

/// The sum of two nibbles carries into bit 4 exactly when it exceeds 15.
pub proof fn lemma_half_carry(a: u8, b: u8)
    by (bit_vector)
    ensures
        (a & 0xF) + (b & 0xF) < 0x100,
        ((((a & 0xF) + (b & 0xF)) as u8) & 0x10 != 0) == (a % 0x10 + b % 0x10 > 0xF),
{
}

} // verus!
