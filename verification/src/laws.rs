//! What holds of the processor as a whole: statements that relate several
//! operations to one another, each one proved.
use vstd::prelude::*;
use crate::alu;
use crate::alu::AluResult;
use crate::bits::{high_byte, low_byte, signed, word, wrap16, wrap8};
use crate::cpu::{fetch, step, Machine};
use crate::decode::{
    condition,
    conditional,
    decode,
    decode_high,
    decode_low,
    implemented,
    instruction_length,
    operand_length,
    starts_instruction,
    Decoded,
    PREFIX,
};
use crate::execute::execute;
use crate::instruction::{Instruction, TargetRegister8};
use crate::registers::{byte_of_flags, flags_of_byte, FlagRegister, RegisterFile};

verus! {

/// A word is the join of its two halves, and the halves of a joined word are
/// the bytes it was joined from.
pub proof fn law_word_halves(value: u16, high: u8, low: u8)
    ensures
        word(high_byte(value), low_byte(value)) == value,
        high_byte(word(high, low)) == high,
        low_byte(word(high, low)) == low,
{
}

/// A register pair holds every word: what is written to it is read back,
/// high byte in the first register of the pair.
pub proof fn law_pairs_hold_words(registers: RegisterFile, value: u16)
    ensures
        registers.with_bc(value).bc() == value,
        registers.with_de(value).de() == value,
        registers.with_hl(value).hl() == value,
        registers.with_bc(value).b == value / 0x100,
        registers.with_bc(value).c == value % 0x100,
{
}

/// Writing a byte to the flags and reading them back keeps the upper nibble
/// and clears the lower one; so does writing a word to AF.
pub proof fn law_flag_byte_round_trip(registers: RegisterFile, value: u8, pair: u16)
    ensures
        byte_of_flags(flags_of_byte(value)) == value - value % 0x10,
        byte_of_flags(flags_of_byte(value)) == value & 0xF0,
        registers.with_af(pair).af() == pair - pair % 0x10,
{
    lemma_flag_digits(value);
    let low = low_byte(pair);
    lemma_flag_digits(low);
    assert(low % 0x10 == pair % 0x10);
}

/// The four upper binary digits of a byte, each at its weight, add up to the
/// byte without its lower nibble.
proof fn lemma_flag_digits(value: u8)
    ensures
        byte_of_flags(flags_of_byte(value)) == value - value % 0x10,
        byte_of_flags(flags_of_byte(value)) == value & 0xF0,
{
    reveal(flags_of_byte);
    reveal(byte_of_flags);
    let z: u8 = if value as int / 0x80 % 2 == 1 { 0x80 } else { 0 };
    let n: u8 = if value as int / 0x40 % 2 == 1 { 0x40 } else { 0 };
    let h: u8 = if value as int / 0x20 % 2 == 1 { 0x20 } else { 0 };
    let c: u8 = if value as int / 0x10 % 2 == 1 { 0x10 } else { 0 };
    assert(z + n + h + c == value - value % 0x10 && value & 0xF0 == value - value % 0x10)
        by (bit_vector)
        requires
            z == (if value / 0x80 % 2 == 1 { 0x80u8 } else { 0u8 }),
            n == (if value / 0x40 % 2 == 1 { 0x40u8 } else { 0u8 }),
            h == (if value / 0x20 % 2 == 1 { 0x20u8 } else { 0u8 }),
            c == (if value / 0x10 % 2 == 1 { 0x10u8 } else { 0u8 }),
    ;
}

/// Reading the flags as a byte and writing that byte back changes nothing.
pub proof fn law_flags_round_trip(flags: FlagRegister)
    ensures
        flags_of_byte(byte_of_flags(flags)) == flags,
{
    reveal(flags_of_byte);
    reveal(byte_of_flags);
}

/// Addition, with or without carry: the accumulator holds the sum, wrapped
/// to a byte; Z says whether it is zero, N is clear, H is bit 4 of the sum of
/// the two low nibbles, C says whether the sum left the byte. Nothing else
/// changes.
pub proof fn law_add_flags(m: Machine, value: u8, with_carry: bool)
    ensures
        ({
            let a = m.regs.a;
            let carry = alu::carry_value(with_carry && m.regs.f.c);
            let after = execute(
                m,
                if with_carry {
                    Instruction::Adc(value)
                } else {
                    Instruction::Add8(value)
                },
            );
            &&& after.regs.a == wrap8(a + value + carry)
            &&& after.regs.f.z == (after.regs.a == 0)
            &&& !after.regs.f.n
            &&& after.regs.f.h == ((((a & 0xF) + (value & 0xF)) as u8) & 0x10 != 0)
            &&& after.regs.f.c == (a + value + carry > 0xFF)
            &&& after == m.accumulate(AluResult { value: after.regs.a, flags: after.regs.f })
        }),
{
    reveal(execute);
    alu::lemma_half_carry(m.regs.a, value);
}

/// Subtraction, with or without carry: the accumulator holds the
/// difference, wrapped to a byte; Z says whether it is zero, N is set, H
/// says whether the low nibble of the operand exceeds that of the
/// accumulator, C whether the subtraction borrowed. Nothing else changes.
pub proof fn law_subtract_flags(m: Machine, value: u8, with_carry: bool)
    ensures
        ({
            let a = m.regs.a;
            let carry = alu::carry_value(with_carry && m.regs.f.c);
            let after = execute(
                m,
                if with_carry {
                    Instruction::Sbc(value)
                } else {
                    Instruction::Sub(value)
                },
            );
            &&& after.regs.a == wrap8(a - value - carry)
            &&& after.regs.f.z == (after.regs.a == 0)
            &&& after.regs.f.n
            &&& after.regs.f.h == ((value & 0xF) > (a & 0xF))
            &&& after.regs.f.c == (a - value - carry < 0)
            &&& after == m.accumulate(AluResult { value: after.regs.a, flags: after.regs.f })
        }),
{
    reveal(execute);
    alu::lemma_byte_fields(m.regs.a);
    alu::lemma_byte_fields(value);
}

/// Comparison sets the flags that subtraction without carry sets and
/// changes nothing else.
pub proof fn law_compare_flags(m: Machine, value: u8)
    ensures
        ({
            let a = m.regs.a;
            let after = execute(m, Instruction::Cp(value));
            &&& after.regs.f == execute(m, Instruction::Sub(value)).regs.f
            &&& after.regs.f.z == (a == value)
            &&& after.regs.f.n
            &&& after.regs.f.h == ((value & 0xF) > (a & 0xF))
            &&& after.regs.f.c == (a < value)
            &&& after == m.with_flags(after.regs.f)
        }),
{
    reveal(wrap8);
    reveal(execute);
    alu::lemma_byte_fields(m.regs.a);
    alu::lemma_byte_fields(value);
}

/// The bitwise operations: the accumulator holds the result, Z says whether
/// it is zero, and N, H and C are clear. Nothing else changes.
pub proof fn law_logic_flags(m: Machine, value: u8)
    ensures
        ({
            let a = m.regs.a;
            &&& execute(m, Instruction::And(value)) == m.accumulate(
                AluResult {
                    value: a & value,
                    flags: FlagRegister { z: a & value == 0, n: false, h: false, c: false },
                },
            )
            &&& execute(m, Instruction::Or(value)) == m.accumulate(
                AluResult {
                    value: a | value,
                    flags: FlagRegister { z: a | value == 0, n: false, h: false, c: false },
                },
            )
            &&& execute(m, Instruction::Xor(value)) == m.accumulate(
                AluResult {
                    value: a ^ value,
                    flags: FlagRegister { z: a ^ value == 0, n: false, h: false, c: false },
                },
            )
        }),
{
    reveal(execute);
}

/// Increment and decrement of a byte: Z says whether the result is zero, H
/// whether the low nibble overflowed or borrowed, N tells the two apart,
/// and C is left as it was.
pub proof fn law_step_flags(m: Machine, target: TargetRegister8)
    requires
        m.wf(),
    ensures
        ({
            let value = m.target(target);
            let up = execute(m, Instruction::Inc8(target));
            let down = execute(m, Instruction::Dec8(target));
            &&& up.target(target) == wrap8(value + 1)
            &&& up.regs.f == (FlagRegister {
                z: up.target(target) == 0,
                n: false,
                h: value & 0xF == 0xF,
                c: m.regs.f.c,
            })
            &&& down.target(target) == wrap8(value - 1)
            &&& down.regs.f == (FlagRegister {
                z: down.target(target) == 0,
                n: true,
                h: value & 0xF == 0,
                c: m.regs.f.c,
            })
        }),
{
    reveal(execute);
    alu::lemma_byte_fields(m.target(target));
}

/// The rotates, shifts and the swap, written with shifts and masks: the byte
/// that results, and the bit that is moved out and becomes C. Z says whether
/// the result is zero; N and H are clear. The shift right that keeps the
/// sign leaves bit 7 as it was; the swap clears C.
pub proof fn law_shift_results(value: u8, carry_in: bool)
    ensures
        ({
            let carry: u8 = if carry_in {
                1
            } else {
                0
            };
            let high = value & 0x80 != 0;
            let low = value & 1 != 0;
            &&& alu::rlc(value) == alu::shifted(value << 1 | value >> 7, high)
            &&& alu::rl(value, carry_in) == alu::shifted(value << 1 | carry, high)
            &&& alu::rrc(value) == alu::shifted((value & 1) << 7 | value >> 1, low)
            &&& alu::rr(value, carry_in) == alu::shifted(carry << 7 | value >> 1, low)
            &&& alu::sla(value) == alu::shifted(value << 1, high)
            &&& alu::sra(value) == alu::shifted((value >> 1) | (value & 0x80), low)
            &&& alu::srl(value) == alu::shifted(value >> 1, low)
            &&& alu::swap(value) == alu::shifted((value & 0x0F) << 4 | value >> 4, false)
        }),
{
    reveal(wrap8);
    let carry: u8 = if carry_in {
        1
    } else {
        0
    };
    alu::lemma_byte_fields(value);
    alu::lemma_rotations(value, carry);
}

/// Adding a word to HL: HL holds the sum, wrapped to a word; N is clear, H
/// says whether the low twelve bits carry into bit 12, C whether the sum
/// left the word, and Z is left as it was. Nothing else changes.
pub proof fn law_word_add_flags(m: Machine, value: u16)
    ensures
        ({
            let hl = m.regs.hl();
            let after = execute(m, Instruction::AddHL(value));
            &&& after.regs.hl() == wrap16(hl + value)
            &&& after.regs.f.z == m.regs.f.z
            &&& !after.regs.f.n
            &&& after.regs.f.h == ((hl & 0xFFF) + (value & 0xFFF) > 0xFFF)
            &&& after.regs.f.c == (hl + value > 0xFFFF)
            &&& after == m.with_regs(m.regs.with_hl(after.regs.hl()).with_flags(after.regs.f))
        }),
{
    reveal(execute);
    alu::lemma_word_fields(m.regs.hl());
    alu::lemma_word_fields(value);
}

/// Adding a signed byte to a word: Z and N are clear whatever the sign. For
/// an offset that is not negative, H and C are the carries out of the low
/// nibble and the low byte of the word; for a negative one they say whether
/// its magnitude exceeds the low nibble and the low byte of the word.
pub proof fn law_signed_offset_flags(word: u16, offset: i8)
    ensures
        ({
            let sum = alu::add_signed(word, offset);
            let magnitude: u16 = if offset >= 0 {
                offset as u16
            } else {
                (-offset) as u16
            };
            &&& sum.value == wrap16(word + offset)
            &&& !sum.flags.z
            &&& !sum.flags.n
            &&& offset >= 0 ==> sum.flags.h == ((word & 0xF) + (magnitude & 0xF) > 0xF)
            &&& offset >= 0 ==> sum.flags.c == ((word & 0xFF) + magnitude > 0xFF)
            &&& offset < 0 ==> sum.flags.h == (magnitude & 0xF > word & 0xF)
            &&& offset < 0 ==> sum.flags.c == (magnitude > word & 0xFF)
        }),
{
    let magnitude: u16 = if offset >= 0 {
        offset as u16
    } else {
        (-offset) as u16
    };
    alu::lemma_word_fields(word);
    alu::lemma_word_fields(magnitude);
}

/// Pushing a word and popping it again gives the word back and leaves the
/// stack pointer, and every other register, where it was.
pub proof fn law_push_pop(m: Machine, value: u16)
    requires
        m.wf(),
    ensures
        m.push(value).stack_top() == value,
        m.push(value).drop_top().regs == m.regs,
        m.push(value).wf(),
{
    reveal(wrap16);
    let high_at = wrap16(m.regs.sp - 1);
    let low_at = wrap16(m.regs.sp - 2);
    assert(high_at != low_at);
    assert(wrap16(low_at + 1) == high_at);
    assert(wrap16(low_at + 2) == m.regs.sp);
}

/// Pushing changes the two bytes below the stack pointer and no other.
pub proof fn law_push_frame(m: Machine, value: u16, address: u16)
    requires
        m.wf(),
        address != wrap16(m.regs.sp - 1),
        address != wrap16(m.regs.sp - 2),
    ensures
        m.push(value).read(address) == m.read(address),
{
}

/// A call followed at once by a return continues behind the call: the
/// program counter, the stack pointer and every other register are what they
/// were before the call.
pub proof fn law_call_ret(m: Machine, address: u16)
    requires
        m.wf(),
    ensures
        execute(m, Instruction::Call(address)).regs.pc == address,
        execute(execute(m, Instruction::Call(address)), Instruction::Ret).regs == m.regs,
{
    reveal(execute);
    law_push_pop(m, m.regs.pc);
    let called = m.call(address);
    assert(called.stack_top() == m.push(m.regs.pc).stack_top());
    assert(called.drop_top().regs == (RegisterFile { pc: address, ..m.regs }));
}

/// Testing a bit: Z says exactly whether the bit is zero, N is clear and H
/// is set whatever the bit, C is left as it was, and nothing else changes.
pub proof fn law_bit_flags(m: Machine, target: TargetRegister8, bit: u8)
    requires
        bit < 8,
    ensures
        ({
            let value = m.target(target);
            let after = execute(m, Instruction::Bit(target, bit));
            &&& after.regs.f.z == ((value >> bit) & 1 == 0)
            &&& !after.regs.f.n
            &&& after.regs.f.h
            &&& after.regs.f.c == m.regs.f.c
            &&& after == m.with_flags(after.regs.f)
        }),
{
    reveal(execute);
    let value = m.target(target);
    assert((value & (1u8 << bit) != 0) == ((value >> bit) & 1 != 0)) by (bit_vector)
        requires
            bit < 8,
    ;
    assert((value >> bit) & 1 == 0 || (value >> bit) & 1 == 1) by (bit_vector);
}

/// Setting a bit makes that bit one, clearing it makes it zero, and both
/// leave the other bits and all flags as they were.
pub proof fn law_set_and_clear(value: u8, bit: u8, other: u8)
    requires
        bit < 8,
        other < 8,
        other != bit,
    ensures
        alu::bit_is_set(alu::set_bit(value, bit), bit),
        !alu::bit_is_set(alu::clear_bit(value, bit), bit),
        alu::bit_is_set(alu::set_bit(value, bit), other) == alu::bit_is_set(value, other),
        alu::bit_is_set(alu::clear_bit(value, bit), other) == alu::bit_is_set(value, other),
{
    assert(((value | (1u8 << bit)) & (1u8 << bit) != 0) && ((value & !(1u8 << bit)) & (1u8 << bit)
        == 0)) by (bit_vector)
        requires
            bit < 8,
    ;
    assert(((value | (1u8 << bit)) & (1u8 << other) == value & (1u8 << other)) && ((value & !(1u8
        << bit)) & (1u8 << other) == value & (1u8 << other))) by (bit_vector)
        requires
            bit < 8,
            other < 8,
            other != bit,
    ;
}

/// An opcode has an instruction behind it exactly when it is not one of
/// those listed as having none, whatever the state.
pub proof fn law_decode_implemented(m: Machine, opcode: u8)
    ensures
        decode(m, opcode) is Some <==> implemented(opcode),
{
    reveal(decode);
    let x = opcode as int / 0x40;
    let y = opcode as int / 8 % 8;
    let z = opcode as int % 8;
    assert(opcode == x * 0x40 + y * 8 + z);
    if x == 0 {
        if z == 0 {
        } else if z == 7 {
        } else {
        }
    } else if x == 1 {
    } else if x == 2 {
    } else {
        if z == 1 {
        } else if z == 3 {
        } else if z == 4 {
        } else if z == 5 {
        } else if z == 6 {
        } else {
        }
    }
}

/// Every instruction that decoding gives is well formed.
pub proof fn law_decode_well_formed(m: Machine, opcode: u8)
    ensures
        decode(m, opcode) matches Some(decoded) ==> decoded.instruction.well_formed(),
{
    reveal(decode);
    let x = opcode as int / 0x40;
    let y = opcode as int / 8 % 8;
    let z = opcode as int % 8;
    if x == 0 {
        if z == 0 {
        } else if z == 1 {
        } else if z == 2 {
        } else if z == 3 {
        } else if z == 7 {
        } else {
        }
    } else if x == 1 {
    } else if x == 2 {
    } else {
        if z == 0 {
        } else if z == 1 {
        } else if z == 2 {
        } else if z == 5 {
        } else {
        }
    }
}

/// Decoding moves the program counter past the operands of the opcode, by
/// as many bytes as the opcode has operand bytes, whatever those bytes and
/// the registers hold.
pub proof fn law_decode_advances(m: Machine, opcode: u8)
    requires
        implemented(opcode),
    ensures
        decode(m, opcode) is Some,
        decode(m, opcode)->Some_0.machine.regs.pc == wrap16(m.regs.pc + operand_length(opcode)),
{
    reveal(decode);
    law_decode_implemented(m, opcode);
    law_skip_adds(m, 0, 0);
    law_skip_adds(m, 1, 0);
    law_skip_adds(m, 2, 0);
    let x = opcode as int / 0x40;
    let y = opcode as int / 8 % 8;
    let z = opcode as int % 8;
    assert(opcode == x * 0x40 + y * 8 + z);
    if x == 0 {
        lemma_low_advances(m, y, z);
    } else if x == 3 {
        lemma_high_advances(m, y, z);
    } else {
        assert(operand_length(opcode) == 0);
    }
}

/// How far decoding moved the program counter of `m`, where it moved it by
/// `count` bytes.
spec fn advanced(m: Machine, decoded: Option<Decoded>, count: int) -> bool {
    decoded matches Some(d) ==> d.machine.regs.pc == m.skip(count).regs.pc
}

proof fn lemma_low_advances(m: Machine, y: int, z: int)
    requires
        0 <= y < 8,
        0 <= z < 8,
    ensures
        advanced(m, decode_low(m, y, z), operand_length((y * 8 + z) as u8)),
{
    law_skip_adds(m, 0, 0);
    if z == 0 {
        if y == 1 {
        } else if y >= 3 {
        } else {
        }
    } else if z == 1 {
        if y == 0 || y == 2 || y == 4 || y == 6 {
        } else {
        }
    } else if z == 2 {
    } else if z == 3 {
    } else if z == 4 {
    } else if z == 5 {
    } else if z == 6 {
    } else {
    }
}

proof fn lemma_high_advances(m: Machine, y: int, z: int)
    requires
        0 <= y < 8,
        0 <= z < 8,
    ensures
        advanced(m, decode_high(m, y, z), operand_length((0xC0 + y * 8 + z) as u8)),
{
    law_skip_adds(m, 0, 0);
    if z == 0 {
        if y < 4 {
        } else {
        }
    } else if z == 1 {
    } else if z == 2 {
        if y < 4 {
        } else if y == 4 || y == 6 {
        } else {
        }
    } else if z == 3 {
    } else if z == 4 {
    } else if z == 5 {
        if y == 1 {
        } else {
        }
    } else if z == 6 {
    } else {
    }
}

/// An instruction can be read exactly where the opcode at the program
/// counter is the prefix or has an instruction behind it.
pub proof fn law_fetch_implemented(m: Machine)
    ensures
        fetch(m) is Some <==> starts_instruction(m.stream_byte(0)),
        step(m) is Some <==> starts_instruction(m.stream_byte(0)),
{
    law_decode_implemented(m.skip(1), m.stream_byte(0));
}

/// Reading one instruction moves the program counter by exactly the length
/// of that instruction.
pub proof fn law_fetch_advances(m: Machine)
    requires
        fetch(m) is Some,
    ensures
        fetch(m)->Some_0.machine.regs.pc == wrap16(
            m.regs.pc + instruction_length(m.stream_byte(0)),
        ),
{
    let opcode = m.stream_byte(0);
    law_skip_adds(m, 2, 0);
    law_skip_adds(m, 1, operand_length(opcode));
    law_skip_adds(m, 1 + operand_length(opcode), 0);
    if opcode != PREFIX {
        law_decode_implemented(m.skip(1), opcode);
        law_decode_advances(m.skip(1), opcode);
        law_skip_adds(m.skip(1), operand_length(opcode), 0);
    }
}

/// Moving the program counter twice is moving it once by the sum, and
/// moving it changes neither the memory nor the flags.
pub proof fn law_skip_adds(m: Machine, first: int, second: int)
    ensures
        m.skip(first).regs == m.regs.advance_pc(first),
        m.skip(first).mem == m.mem,
        m.skip(first).skip(second) == m.skip(first + second),
        m.skip(first).stream_byte(second) == m.stream_byte(first + second),
        m.skip(0) == m,
{
    reveal(wrap16);
    reveal(Machine::skip);
}

/// What the jump by a displacement and the conditional opcodes decode to.
proof fn lemma_decode_branches(m: Machine, opcode: u8)
    requires
        conditional(opcode) || opcode == 0x18,
    ensures
        ({
            let holds = condition(m.regs.f, opcode as int / 8 % 4);
            &&& opcode == 0x18 ==> decode(m, opcode) == m.decoded_past(
                1,
                Instruction::Jrn(m.stream_offset()),
            )
            &&& 0x20 <= opcode < 0x40 ==> decode(m, opcode) == m.decoded_past(
                1,
                Instruction::Jrcc(holds, m.stream_offset()),
            )
            &&& opcode >= 0x40 && opcode % 8 == 0 ==> decode(m, opcode) == m.decoded(
                Instruction::Retcc(holds),
            )
            &&& opcode % 8 == 2 ==> decode(m, opcode) == m.decoded_past(
                2,
                Instruction::Jpcc(holds, m.stream_word()),
            )
            &&& opcode % 8 == 4 ==> decode(m, opcode) == m.decoded_past(
                2,
                Instruction::Callcc(holds, m.stream_word()),
            )
        }),
{
    let x = opcode as int / 0x40;
    let y = opcode as int / 8 % 8;
    let z = opcode as int % 8;
    assert(x == 0 || x == 3);
    assert(z == 0 || z == 2 || z == 4);
    assert(x == 0 ==> z == 0 && 3 <= y < 8);
    assert(x == 3 ==> 0 <= y < 4);
    assert(opcode != 0x18 ==> opcode as int / 8 % 4 == y % 4);
    lemma_decode_fields(m, opcode);
    if x == 0 {
        lemma_low_branches(m, y);
    } else {
        lemma_high_branches(m, y);
    }
}

/// Decoding goes by the three fields of the opcode.
proof fn lemma_decode_fields(m: Machine, opcode: u8)
    ensures
        opcode < 0x40 ==> decode(m, opcode) == decode_low(
            m,
            opcode as int / 8 % 8,
            opcode as int % 8,
        ),
        opcode >= 0xC0 ==> decode(m, opcode) == decode_high(
            m,
            opcode as int / 8 % 8,
            opcode as int % 8,
        ),
{
    reveal(decode);
}

proof fn lemma_low_branches(m: Machine, y: int)
    requires
        3 <= y < 8,
    ensures
        y == 3 ==> decode_low(m, y, 0) == m.decoded_past(1, Instruction::Jrn(m.stream_offset())),
        y > 3 ==> decode_low(m, y, 0) == m.decoded_past(
            1,
            Instruction::Jrcc(condition(m.regs.f, y % 4), m.stream_offset()),
        ),
{
}

proof fn lemma_high_branches(m: Machine, y: int)
    requires
        0 <= y < 4,
    ensures
        decode_high(m, y, 0) == m.decoded(Instruction::Retcc(condition(m.regs.f, y % 4))),
        decode_high(m, y, 2) == m.decoded_past(
            2,
            Instruction::Jpcc(condition(m.regs.f, y % 4), m.stream_word()),
        ),
        decode_high(m, y, 4) == m.decoded_past(
            2,
            Instruction::Callcc(condition(m.regs.f, y % 4), m.stream_word()),
        ),
{
}

/// What the jumps by a displacement and the conditional instructions do.
proof fn lemma_execute_branches(m: Machine, holds: bool, address: u16, offset: i8)
    ensures
        execute(m, Instruction::Jrn(offset)) == m.skip(offset as int),
        execute(m, Instruction::Jrcc(holds, offset)) == if holds {
            m.skip(offset as int)
        } else {
            m
        },
        execute(m, Instruction::Retcc(holds)) == if holds {
            m.ret()
        } else {
            m
        },
        execute(m, Instruction::Jpcc(holds, address)) == if holds {
            m.jump(address)
        } else {
            m
        },
        execute(m, Instruction::Callcc(holds, address)) == if holds {
            m.call(address)
        } else {
            m
        },
{
    reveal(execute);
}

/// A conditional jump, call or return whose condition does not hold only
/// moves the program counter past the instruction, operands included.
pub proof fn law_branch_not_taken(m: Machine)
    requires
        conditional(m.stream_byte(0)),
        !condition(m.regs.f, m.stream_byte(0) as int / 8 % 4),
    ensures
        step(m) == Some(m.skip(instruction_length(m.stream_byte(0)))),
{
    let opcode = m.stream_byte(0);
    let behind = m.skip(1);
    law_skip_adds(m, 1, 0);
    law_skip_adds(m, 1, 1);
    law_skip_adds(m, 1, 2);
    lemma_decode_branches(behind, opcode);
    lemma_execute_branches(behind, false, behind.stream_word(), behind.stream_offset());
    lemma_execute_branches(behind.skip(1), false, behind.stream_word(), behind.stream_offset());
    lemma_execute_branches(behind.skip(2), false, behind.stream_word(), behind.stream_offset());
    assert(fetch(m) == decode(behind, opcode));
}

/// A conditional jump, call or return whose condition holds does what the
/// unconditional form does: it continues from behind the instruction by
/// the displacement, at the return address, or at the address given.
pub proof fn law_branch_taken(m: Machine)
    requires
        conditional(m.stream_byte(0)),
        condition(m.regs.f, m.stream_byte(0) as int / 8 % 4),
    ensures
        ({
            let opcode = m.stream_byte(0);
            let next = m.skip(instruction_length(opcode));
            let target = word(m.stream_byte(2), m.stream_byte(1));
            &&& opcode < 0x40 ==> step(m) == Some(next.skip(signed(m.stream_byte(1))))
            &&& opcode >= 0x40 && opcode % 8 == 0 ==> step(m) == Some(next.ret())
            &&& opcode % 8 == 2 ==> step(m) == Some(next.jump(target))
            &&& opcode % 8 == 4 ==> step(m) == Some(next.call(target))
        }),
{
    let opcode = m.stream_byte(0);
    let behind = m.skip(1);
    law_skip_adds(m, 1, 0);
    law_skip_adds(m, 1, 1);
    law_skip_adds(m, 1, 2);
    lemma_decode_branches(behind, opcode);
    lemma_execute_branches(behind, true, behind.stream_word(), behind.stream_offset());
    lemma_execute_branches(behind.skip(1), true, behind.stream_word(), behind.stream_offset());
    lemma_execute_branches(behind.skip(2), true, behind.stream_word(), behind.stream_offset());
    assert(fetch(m) == decode(behind, opcode));
    assert(behind.stream_offset() == signed(m.stream_byte(1)));
    assert(behind.stream_word() == word(m.stream_byte(2), m.stream_byte(1)));
}

/// A relative jump continues at the address behind its displacement byte,
/// moved by that byte read as a signed number.
pub proof fn law_relative_jump(m: Machine)
    requires
        m.stream_byte(0) == 0x18,
    ensures
        step(m) == Some(m.skip(2 + signed(m.stream_byte(1)))),
{
    let behind = m.skip(1);
    let offset = signed(m.stream_byte(1));
    law_skip_adds(m, 1, 0);
    law_skip_adds(m, 1, 1);
    law_skip_adds(m, 2, offset);
    lemma_decode_branches(behind, 0x18);
    lemma_execute_branches(m.skip(2), false, 0, behind.stream_offset());
    assert(fetch(m) == decode(behind, 0x18));
    assert(behind.stream_offset() == offset);
}

} // verus!
