//! The decoder: from an opcode byte to an instruction with its operands
//! resolved.
//!
//! The specification reads an opcode as three fields, `opcode / 64`,
//! `opcode / 8 % 8` and `opcode % 8`, and says for each combination which
//! instruction it is. The executable decoder is a table with one entry per
//! opcode, proved to agree with that reading.
use vstd::prelude::*;
use crate::alu;
use crate::bits::{signed, to_signed, wrap16};
use crate::cpu::{Cpu, Machine};
use crate::instruction::{
    Instruction,
    LoadRegister,
    StackOperationRegisters,
    TargetRegister16,
    TargetRegister8,
};
use crate::laws::{law_decode_advances, law_decode_implemented, law_decode_well_formed};
use crate::registers::FlagRegister;

verus! {

/// Why decoding stopped.
#[derive(Clone, Copy, Debug, PartialEq, Eq, Structural)]
pub enum CpuError {
    /// The opcode, given here, has no instruction behind it.
    UnimplementedOpcode(u8),
}

/// The base of the page that the short load forms address.
pub const IO_PAGE: u16 = 0xFF00;

/// The escape byte that announces a prefixed opcode.
pub const PREFIX: u8 = 0xCB;

/// An instruction together with the state that decoding it left.
pub struct Decoded {
    pub instruction: Instruction,
    pub machine: Machine,
}

/// The byte operand that a three-bit field selects.
pub open spec fn operand(field: int) -> TargetRegister8 {
    if field == 0 {
        TargetRegister8::B
    } else if field == 1 {
        TargetRegister8::C
    } else if field == 2 {
        TargetRegister8::D
    } else if field == 3 {
        TargetRegister8::E
    } else if field == 4 {
        TargetRegister8::H
    } else if field == 5 {
        TargetRegister8::L
    } else if field == 6 {
        TargetRegister8::HL
    } else {
        TargetRegister8::A
    }
}

/// The register that a three-bit field selects, for the fields that select
/// one: every field but 6.
pub open spec fn register(field: int) -> LoadRegister {
    if field == 0 {
        LoadRegister::B
    } else if field == 1 {
        LoadRegister::C
    } else if field == 2 {
        LoadRegister::D
    } else if field == 3 {
        LoadRegister::E
    } else if field == 4 {
        LoadRegister::H
    } else if field == 5 {
        LoadRegister::L
    } else {
        LoadRegister::A
    }
}

/// The 16-bit register that a two-bit field selects.
pub open spec fn wide_register(field: int) -> TargetRegister16 {
    if field == 0 {
        TargetRegister16::BC
    } else if field == 1 {
        TargetRegister16::DE
    } else if field == 2 {
        TargetRegister16::HL
    } else {
        TargetRegister16::SP
    }
}

/// The register pair that a two-bit field selects in a push or pop.
pub open spec fn stack_register(field: int) -> StackOperationRegisters {
    if field == 0 {
        StackOperationRegisters::BC
    } else if field == 1 {
        StackOperationRegisters::DE
    } else if field == 2 {
        StackOperationRegisters::HL
    } else {
        StackOperationRegisters::AF
    }
}

/// Whether the condition that a two-bit field selects holds of `flags`:
/// not zero, zero, no carry, carry.
pub open spec fn condition(flags: FlagRegister, field: int) -> bool {
    if field == 0 {
        !flags.z
    } else if field == 1 {
        flags.z
    } else if field == 2 {
        !flags.c
    } else {
        flags.c
    }
}

/// The arithmetic instruction on the accumulator that a three-bit field
/// selects.
pub open spec fn arithmetic(field: int, value: u8) -> Instruction {
    if field == 0 {
        Instruction::Add8(value)
    } else if field == 1 {
        Instruction::Adc(value)
    } else if field == 2 {
        Instruction::Sub(value)
    } else if field == 3 {
        Instruction::Sbc(value)
    } else if field == 4 {
        Instruction::And(value)
    } else if field == 5 {
        Instruction::Xor(value)
    } else if field == 6 {
        Instruction::Or(value)
    } else {
        Instruction::Cp(value)
    }
}

/// The rotate, shift or swap that a three-bit field selects after the
/// prefix.
pub open spec fn rotation(field: int, target: TargetRegister8) -> Instruction {
    if field == 0 {
        Instruction::Rlc(target)
    } else if field == 1 {
        Instruction::Rrc(target)
    } else if field == 2 {
        Instruction::Rl(target)
    } else if field == 3 {
        Instruction::Rr(target)
    } else if field == 4 {
        Instruction::Sla(target)
    } else if field == 5 {
        Instruction::Sra(target)
    } else if field == 6 {
        Instruction::Swap(target)
    } else {
        Instruction::Srl(target)
    }
}

impl Machine {
    /// An instruction decoded without reading from the instruction stream.
    pub open spec fn decoded(self, instruction: Instruction) -> Option<Decoded> {
        Some(Decoded { instruction, machine: self })
    }

    /// An instruction decoded after reading `count` bytes of operand.
    pub open spec fn decoded_past(self, count: int, instruction: Instruction) -> Option<Decoded> {
        Some(Decoded { instruction, machine: self.skip(count) })
    }

    /// The displacement at the program counter.
    pub open spec fn stream_offset(self) -> i8 {
        signed(self.stream_byte(0)) as i8
    }

    /// The address in the input/output page that `offset` selects.
    pub open spec fn io_address(self, offset: u8) -> u16 {
        (IO_PAGE + offset) as u16
    }

    /// The sum of the stack pointer and the displacement at the program
    /// counter, loaded into `target`. Decoding it sets the flags.
    pub open spec fn decoded_stack_offset(self, target: TargetRegister16) -> Option<Decoded> {
        let sum = alu::add_signed(self.regs.sp, self.stream_offset());
        Some(
            Decoded {
                instruction: Instruction::Load16(target, sum.value),
                machine: self.skip(1).with_flags(sum.flags),
            },
        )
    }

    /// A load or store through HL that then moves HL by `step`.
    pub open spec fn decoded_moving_hl(self, step: int, instruction: Instruction) -> Option<
        Decoded,
    > {
        Some(
            Decoded {
                instruction,
                machine: self.with_regs(self.regs.with_hl(wrap16(self.regs.hl() + step))),
            },
        )
    }
}

/// The opcodes 0x00 to 0x3F, by their fields `y` and `z`.
pub open spec fn decode_low(m: Machine, y: int, z: int) -> Option<Decoded> {
    let a = LoadRegister::A;
    if z == 0 {
        if y == 0 {
            m.decoded(Instruction::Nop)
        } else if y == 1 {
            m.decoded_past(2, Instruction::LoadStackPointerToMemory(m.stream_word()))
        } else if y == 2 {
            None
        } else if y == 3 {
            m.decoded_past(1, Instruction::Jrn(m.stream_offset()))
        } else {
            m.decoded_past(1, Instruction::Jrcc(condition(m.regs.f, y - 4), m.stream_offset()))
        }
    } else if z == 1 {
        if y % 2 == 0 {
            m.decoded_past(2, Instruction::Load16(wide_register(y / 2), m.stream_word()))
        } else {
            m.decoded(Instruction::AddHL(m.pair(wide_register(y / 2))))
        }
    } else if z == 2 {
        if y == 0 {
            m.decoded(Instruction::LoadToMemory(m.regs.bc(), a))
        } else if y == 1 {
            m.decoded(Instruction::Load(a, m.read(m.regs.bc())))
        } else if y == 2 {
            m.decoded(Instruction::LoadToMemory(m.regs.de(), a))
        } else if y == 3 {
            m.decoded(Instruction::Load(a, m.read(m.regs.de())))
        } else if y == 4 {
            m.decoded_moving_hl(1, Instruction::LoadToMemory(m.regs.hl(), a))
        } else if y == 5 {
            m.decoded_moving_hl(1, Instruction::Load(a, m.read(m.regs.hl())))
        } else if y == 6 {
            m.decoded_moving_hl(-1, Instruction::LoadToMemory(m.regs.hl(), a))
        } else {
            m.decoded_moving_hl(-1, Instruction::Load(a, m.read(m.regs.hl())))
        }
    } else if z == 3 {
        if y % 2 == 0 {
            m.decoded(Instruction::Inc16(wide_register(y / 2)))
        } else {
            m.decoded(Instruction::Dec16(wide_register(y / 2)))
        }
    } else if z == 4 {
        m.decoded(Instruction::Inc8(operand(y)))
    } else if z == 5 {
        m.decoded(Instruction::Dec8(operand(y)))
    } else if z == 6 {
        if y == 6 {
            m.decoded_past(1, Instruction::LoadToMemoryFromMemory(m.regs.hl(), m.stream_byte(0)))
        } else {
            m.decoded_past(1, Instruction::Load(register(y), m.stream_byte(0)))
        }
    } else {
        if y == 0 {
            m.decoded(Instruction::Rlc(TargetRegister8::A))
        } else if y == 1 {
            m.decoded(Instruction::Rrc(TargetRegister8::A))
        } else if y == 2 {
            m.decoded(Instruction::Rl(TargetRegister8::A))
        } else if y == 3 {
            m.decoded(Instruction::Rr(TargetRegister8::A))
        } else if y == 4 {
            None
        } else if y == 5 {
            m.decoded(Instruction::Cpl)
        } else if y == 6 {
            m.decoded(Instruction::Scf)
        } else {
            m.decoded(Instruction::Ccf)
        }
    }
}

/// The opcodes 0x40 to 0x7F, the loads between byte operands: `y` selects
/// the destination, `z` the source. Where both select the byte at HL there
/// is no instruction.
pub open spec fn decode_load(m: Machine, y: int, z: int) -> Option<Decoded> {
    if y == 6 && z == 6 {
        None
    } else if y == 6 {
        m.decoded(Instruction::LoadToMemory(m.regs.hl(), register(z)))
    } else {
        m.decoded(Instruction::Load(register(y), m.target(operand(z))))
    }
}

/// The opcodes 0xC0 to 0xFF, by their fields `y` and `z`.
pub open spec fn decode_high(m: Machine, y: int, z: int) -> Option<Decoded> {
    let a = LoadRegister::A;
    if z == 0 {
        if y < 4 {
            m.decoded(Instruction::Retcc(condition(m.regs.f, y)))
        } else if y == 4 {
            m.decoded_past(1, Instruction::LoadToMemory(m.io_address(m.stream_byte(0)), a))
        } else if y == 5 {
            m.decoded_stack_offset(TargetRegister16::SP)
        } else if y == 6 {
            m.decoded_past(1, Instruction::Load(a, m.read(m.io_address(m.stream_byte(0)))))
        } else {
            m.decoded_stack_offset(TargetRegister16::HL)
        }
    } else if z == 1 {
        if y % 2 == 0 {
            m.decoded(Instruction::PopStack(stack_register(y / 2)))
        } else if y == 1 {
            m.decoded(Instruction::Ret)
        } else if y == 3 {
            None
        } else if y == 5 {
            m.decoded(Instruction::Jphl)
        } else {
            m.decoded(Instruction::Load16(TargetRegister16::SP, m.regs.hl()))
        }
    } else if z == 2 {
        if y < 4 {
            m.decoded_past(2, Instruction::Jpcc(condition(m.regs.f, y), m.stream_word()))
        } else if y == 4 {
            m.decoded(Instruction::LoadToMemory(m.io_address(m.regs.c), a))
        } else if y == 5 {
            m.decoded_past(2, Instruction::LoadToMemory(m.stream_word(), a))
        } else if y == 6 {
            m.decoded(Instruction::Load(a, m.read(m.io_address(m.regs.c))))
        } else {
            m.decoded_past(2, Instruction::Load(a, m.read(m.stream_word())))
        }
    } else if z == 3 {
        if y == 0 {
            m.decoded_past(2, Instruction::Jp(m.stream_word()))
        } else {
            None
        }
    } else if z == 4 {
        if y < 4 {
            m.decoded_past(2, Instruction::Callcc(condition(m.regs.f, y), m.stream_word()))
        } else {
            None
        }
    } else if z == 5 {
        if y % 2 == 0 {
            m.decoded(Instruction::PushStack(stack_register(y / 2)))
        } else if y == 1 {
            m.decoded_past(2, Instruction::Call(m.stream_word()))
        } else {
            None
        }
    } else if z == 6 {
        if y == 3 {
            None
        } else {
            m.decoded_past(1, arithmetic(y, m.stream_byte(0)))
        }
    } else {
        m.decoded(Instruction::Rst((y * 8) as u8))
    }
}

/// The instruction that `opcode` stands for in state `m`, where `m` is the
/// state after the opcode itself was read, and the state after the operands
/// were read too; or nothing, where `opcode` has no instruction behind it.
#[verifier::opaque]
pub open spec fn decode(m: Machine, opcode: u8) -> Option<Decoded> {
    let x = opcode as int / 0x40;
    let y = opcode as int / 8 % 8;
    let z = opcode as int % 8;
    if x == 0 {
        decode_low(m, y, z)
    } else if x == 1 {
        decode_load(m, y, z)
    } else if x == 2 {
        m.decoded(arithmetic(y, m.target(operand(z))))
    } else {
        decode_high(m, y, z)
    }
}

/// The instruction that `opcode` stands for after the prefix: a rotate,
/// shift or swap, or a test, clearing or setting of bit `opcode / 8 % 8`,
/// on the operand that `opcode % 8` selects.
pub open spec fn decode_prefixed(opcode: u8) -> Instruction {
    let x = opcode as int / 0x40;
    let y = opcode as int / 8 % 8;
    let target = operand(opcode as int % 8);
    if x == 0 {
        rotation(y, target)
    } else if x == 1 {
        Instruction::Bit(target, y as u8)
    } else if x == 2 {
        Instruction::Res(target, y as u8)
    } else {
        Instruction::SetBit(target, y as u8)
    }
}

/// Whether `opcode` has an instruction behind it. Those that have none are
/// the decimal adjust, the halt, stop and interrupt instructions, the prefix
/// itself, subtraction of an immediate with carry, and the codes that the
/// processor leaves unassigned.
pub open spec fn implemented(opcode: u8) -> bool {
    !(opcode == 0x10 || opcode == 0x27 || opcode == 0x76 || opcode == 0xCB || opcode == 0xD3
        || opcode == 0xD9 || opcode == 0xDB || opcode == 0xDD || opcode == 0xDE || opcode == 0xE3
        || opcode == 0xE4 || opcode == 0xEB || opcode == 0xEC || opcode == 0xED || opcode == 0xF3
        || opcode == 0xF4 || opcode == 0xFB || opcode == 0xFC || opcode == 0xFD)
}

/// Whether an instruction can start with `opcode`: it is the prefix, or it
/// has an instruction behind it.
pub open spec fn starts_instruction(opcode: u8) -> bool {
    opcode == PREFIX || implemented(opcode)
}

/// How many bytes of operand follow `opcode` in the instruction stream.
pub open spec fn operand_length(opcode: u8) -> int {
    if opcode == 0x01 || opcode == 0x11 || opcode == 0x21 || opcode == 0x31 || opcode == 0x08
        || opcode == 0xC2 || opcode == 0xCA || opcode == 0xD2 || opcode == 0xDA || opcode == 0xC3
        || opcode == 0xC4 || opcode == 0xCC || opcode == 0xD4 || opcode == 0xDC || opcode == 0xCD
        || opcode == 0xEA || opcode == 0xFA {
        2
    } else if opcode == 0x06 || opcode == 0x0E || opcode == 0x16 || opcode == 0x1E || opcode == 0x26
        || opcode == 0x2E || opcode == 0x36 || opcode == 0x3E || opcode == 0x18 || opcode == 0x20
        || opcode == 0x28 || opcode == 0x30 || opcode == 0x38 || opcode == 0xC6 || opcode == 0xCE
        || opcode == 0xD6 || opcode == 0xE6 || opcode == 0xEE || opcode == 0xF6 || opcode == 0xFE
        || opcode == 0xE0 || opcode == 0xF0 || opcode == 0xE8 || opcode == 0xF8 {
        1
    } else {
        0
    }
}

/// Whether a decoder that was given `opcode` in state `before`, returned
/// `result` and left state `after`, did what `expected` asks for: either it
/// returned the instruction and left the state that `expected` holds, or,
/// where `expected` holds nothing, it reported `opcode` and changed nothing.
pub open spec fn decodes_as(
    result: Result<Instruction, CpuError>,
    after: Machine,
    expected: Option<Decoded>,
    before: Machine,
    opcode: u8,
) -> bool {
    match result {
        Ok(instruction) => expected == Some(Decoded { instruction, machine: after }),
        Err(error) => {
            &&& expected is None
            &&& error == CpuError::UnimplementedOpcode(opcode)
            &&& after == before
        },
    }
}

/// Whether `opcode` is a conditional jump, relative jump, call or return. Its
/// condition is the one that `opcode / 8 % 4` selects.
pub open spec fn conditional(opcode: u8) -> bool {
    ||| opcode == 0x20 || opcode == 0x28 || opcode == 0x30 || opcode == 0x38
    ||| opcode == 0xC0 || opcode == 0xC8 || opcode == 0xD0 || opcode == 0xD8
    ||| opcode == 0xC2 || opcode == 0xCA || opcode == 0xD2 || opcode == 0xDA
    ||| opcode == 0xC4 || opcode == 0xCC || opcode == 0xD4 || opcode == 0xDC
}

/// How many bytes the instruction that starts with `opcode` takes in the
/// instruction stream, the opcode included. A prefixed instruction takes
/// two.
pub open spec fn instruction_length(opcode: u8) -> int {
    if opcode == PREFIX {
        2
    } else {
        1 + operand_length(opcode)
    }
}

impl Cpu {
    /// Decodes `opcode`, which was just read from the instruction stream,
    /// and reads its operands, if it has any, from the stream.
    ///
    /// An opcode without an instruction is reported and leaves the state
    /// as it is.
    pub fn decode_opcode(&mut self, opcode: u8) -> (result: Result<Instruction, CpuError>)
        ensures
            match result {
                Ok(instruction) => decode(old(self)@, opcode) == Some(
                    Decoded { instruction, machine: final(self)@ },
                ),
                Err(error) => {
                    &&& decode(old(self)@, opcode) is None
                    &&& error == CpuError::UnimplementedOpcode(opcode)
                    &&& final(self)@ == old(self)@
                },
            },
            result is Ok <==> implemented(opcode),
            result matches Ok(instruction) ==> instruction.well_formed(),
            result is Ok ==> final(self)@.regs.pc == wrap16(
                old(self)@.regs.pc + operand_length(opcode),
            ),
    {
        proof {
            reveal(decode);
            law_decode_implemented(self@, opcode);
            law_decode_well_formed(self@, opcode);
            if implemented(opcode) {
                law_decode_advances(self@, opcode);
            }
        }
        if opcode <= 0x3F {
            self.table_00_3f(opcode)
        } else if opcode <= 0x7F {
            self.table_40_7f(opcode)
        } else if opcode <= 0xBF {
            self.table_80_bf(opcode)
        } else {
            self.table_c0_ff(opcode)
        }
    }

    /// The table for the opcodes 0x00 to 0x3F.
    #[verifier::rlimit(30)]
    fn table_00_3f(&mut self, opcode: u8) -> (result: Result<Instruction, CpuError>)
        requires
            opcode <= 0x3F,
        ensures
            decodes_as(
                result,
                final(self)@,
                decode_low(old(self)@, opcode as int / 8 % 8, opcode as int % 8),
                old(self)@,
                opcode,
            ),
    {
        match opcode {
            0x00 => return Ok(Instruction::Nop),
            0x01 => return Ok(Instruction::Load16(TargetRegister16::BC, self.next_word())),
            0x02 => return Ok(Instruction::LoadToMemory(self.registers.get_bc(), LoadRegister::A)),
            0x03 => return Ok(Instruction::Inc16(TargetRegister16::BC)),
            0x04 => return Ok(Instruction::Inc8(TargetRegister8::B)),
            0x05 => return Ok(Instruction::Dec8(TargetRegister8::B)),
            0x06 => return Ok(Instruction::Load(LoadRegister::B, self.next_byte())),
            0x07 => return Ok(Instruction::Rlc(TargetRegister8::A)),
            0x08 => return Ok(Instruction::LoadStackPointerToMemory(self.next_word())),
            0x09 => return Ok(Instruction::AddHL(self.registers.get_bc())),
            0x0A => return Ok(Instruction::Load(
                LoadRegister::A,
                self.mmu.read_byte(self.registers.get_bc()),
            )),
            0x0B => return Ok(Instruction::Dec16(TargetRegister16::BC)),
            0x0C => return Ok(Instruction::Inc8(TargetRegister8::C)),
            0x0D => return Ok(Instruction::Dec8(TargetRegister8::C)),
            0x0E => return Ok(Instruction::Load(LoadRegister::C, self.next_byte())),
            0x0F => return Ok(Instruction::Rrc(TargetRegister8::A)),
            0x11 => return Ok(Instruction::Load16(TargetRegister16::DE, self.next_word())),
            0x12 => return Ok(Instruction::LoadToMemory(self.registers.get_de(), LoadRegister::A)),
            0x13 => return Ok(Instruction::Inc16(TargetRegister16::DE)),
            0x14 => return Ok(Instruction::Inc8(TargetRegister8::D)),
            0x15 => return Ok(Instruction::Dec8(TargetRegister8::D)),
            0x16 => return Ok(Instruction::Load(LoadRegister::D, self.next_byte())),
            0x17 => return Ok(Instruction::Rl(TargetRegister8::A)),
            0x18 => return Ok(Instruction::Jrn(to_signed(self.next_byte()))),
            0x19 => return Ok(Instruction::AddHL(self.registers.get_de())),
            0x1A => return Ok(Instruction::Load(
                LoadRegister::A,
                self.mmu.read_byte(self.registers.get_de()),
            )),
            0x1B => return Ok(Instruction::Dec16(TargetRegister16::DE)),
            0x1C => return Ok(Instruction::Inc8(TargetRegister8::E)),
            0x1D => return Ok(Instruction::Dec8(TargetRegister8::E)),
            0x1E => return Ok(Instruction::Load(LoadRegister::E, self.next_byte())),
            0x1F => return Ok(Instruction::Rr(TargetRegister8::A)),
            0x20 => return Ok(Instruction::Jrcc(
                !self.registers.get_z_flag(),
                to_signed(self.next_byte()),
            )),
            0x21 => return Ok(Instruction::Load16(TargetRegister16::HL, self.next_word())),
            0x22 => return Ok(Instruction::LoadToMemory(
                self.registers.increment_hl(),
                LoadRegister::A,
            )),
            0x23 => return Ok(Instruction::Inc16(TargetRegister16::HL)),
            0x24 => return Ok(Instruction::Inc8(TargetRegister8::H)),
            0x25 => return Ok(Instruction::Dec8(TargetRegister8::H)),
            0x26 => return Ok(Instruction::Load(LoadRegister::H, self.next_byte())),
            0x28 => return Ok(Instruction::Jrcc(
                self.registers.get_z_flag(),
                to_signed(self.next_byte()),
            )),
            0x29 => return Ok(Instruction::AddHL(self.registers.get_hl())),
            0x2A => return Ok(Instruction::Load(
                LoadRegister::A,
                self.mmu.read_byte(self.registers.increment_hl()),
            )),
            0x2B => return Ok(Instruction::Dec16(TargetRegister16::HL)),
            0x2C => return Ok(Instruction::Inc8(TargetRegister8::L)),
            0x2D => return Ok(Instruction::Dec8(TargetRegister8::L)),
            0x2E => return Ok(Instruction::Load(LoadRegister::L, self.next_byte())),
            0x2F => return Ok(Instruction::Cpl),
            0x30 => return Ok(Instruction::Jrcc(
                !self.registers.get_c_flag(),
                to_signed(self.next_byte()),
            )),
            0x31 => return Ok(Instruction::Load16(TargetRegister16::SP, self.next_word())),
            0x32 => return Ok(Instruction::LoadToMemory(
                self.registers.decrement_hl(),
                LoadRegister::A,
            )),
            0x33 => return Ok(Instruction::Inc16(TargetRegister16::SP)),
            0x34 => return Ok(Instruction::Inc8(TargetRegister8::HL)),
            0x35 => return Ok(Instruction::Dec8(TargetRegister8::HL)),
            0x36 => return Ok(Instruction::LoadToMemoryFromMemory(
                self.registers.get_hl(),
                self.next_byte(),
            )),
            0x37 => return Ok(Instruction::Scf),
            0x38 => return Ok(Instruction::Jrcc(
                self.registers.get_c_flag(),
                to_signed(self.next_byte()),
            )),
            0x39 => return Ok(Instruction::AddHL(self.registers.get_sp())),
            0x3A => return Ok(Instruction::Load(
                LoadRegister::A,
                self.mmu.read_byte(self.registers.decrement_hl()),
            )),
            0x3B => return Ok(Instruction::Dec16(TargetRegister16::SP)),
            0x3C => return Ok(Instruction::Inc8(TargetRegister8::A)),
            0x3D => return Ok(Instruction::Dec8(TargetRegister8::A)),
            0x3E => return Ok(Instruction::Load(LoadRegister::A, self.next_byte())),
            0x3F => return Ok(Instruction::Ccf),
            // 0x10 (STOP) and 0x27 (DAA) have no instruction.
            _ => return Err(CpuError::UnimplementedOpcode(opcode)),
        }
    }

    /// The table for the opcodes 0x40 to 0x7F.
    #[verifier::rlimit(30)]
    fn table_40_7f(&mut self, opcode: u8) -> (result: Result<Instruction, CpuError>)
        requires
            0x40 <= opcode <= 0x7F,
        ensures
            decodes_as(
                result,
                final(self)@,
                decode_load(old(self)@, opcode as int / 8 % 8, opcode as int % 8),
                old(self)@,
                opcode,
            ),
    {
        match opcode {
            0x40 => return Ok(Instruction::Load(LoadRegister::B, self.registers.get_b())),
            0x41 => return Ok(Instruction::Load(LoadRegister::B, self.registers.get_c())),
            0x42 => return Ok(Instruction::Load(LoadRegister::B, self.registers.get_d())),
            0x43 => return Ok(Instruction::Load(LoadRegister::B, self.registers.get_e())),
            0x44 => return Ok(Instruction::Load(LoadRegister::B, self.registers.get_h())),
            0x45 => return Ok(Instruction::Load(LoadRegister::B, self.registers.get_l())),
            0x46 => return Ok(Instruction::Load(
                LoadRegister::B,
                self.mmu.read_byte(self.registers.get_hl()),
            )),
            0x47 => return Ok(Instruction::Load(LoadRegister::B, self.registers.get_a())),
            0x48 => return Ok(Instruction::Load(LoadRegister::C, self.registers.get_b())),
            0x49 => return Ok(Instruction::Load(LoadRegister::C, self.registers.get_c())),
            0x4A => return Ok(Instruction::Load(LoadRegister::C, self.registers.get_d())),
            0x4B => return Ok(Instruction::Load(LoadRegister::C, self.registers.get_e())),
            0x4C => return Ok(Instruction::Load(LoadRegister::C, self.registers.get_h())),
            0x4D => return Ok(Instruction::Load(LoadRegister::C, self.registers.get_l())),
            0x4E => return Ok(Instruction::Load(
                LoadRegister::C,
                self.mmu.read_byte(self.registers.get_hl()),
            )),
            0x4F => return Ok(Instruction::Load(LoadRegister::C, self.registers.get_a())),
            0x50 => return Ok(Instruction::Load(LoadRegister::D, self.registers.get_b())),
            0x51 => return Ok(Instruction::Load(LoadRegister::D, self.registers.get_c())),
            0x52 => return Ok(Instruction::Load(LoadRegister::D, self.registers.get_d())),
            0x53 => return Ok(Instruction::Load(LoadRegister::D, self.registers.get_e())),
            0x54 => return Ok(Instruction::Load(LoadRegister::D, self.registers.get_h())),
            0x55 => return Ok(Instruction::Load(LoadRegister::D, self.registers.get_l())),
            0x56 => return Ok(Instruction::Load(
                LoadRegister::D,
                self.mmu.read_byte(self.registers.get_hl()),
            )),
            0x57 => return Ok(Instruction::Load(LoadRegister::D, self.registers.get_a())),
            0x58 => return Ok(Instruction::Load(LoadRegister::E, self.registers.get_b())),
            0x59 => return Ok(Instruction::Load(LoadRegister::E, self.registers.get_c())),
            0x5A => return Ok(Instruction::Load(LoadRegister::E, self.registers.get_d())),
            0x5B => return Ok(Instruction::Load(LoadRegister::E, self.registers.get_e())),
            0x5C => return Ok(Instruction::Load(LoadRegister::E, self.registers.get_h())),
            0x5D => return Ok(Instruction::Load(LoadRegister::E, self.registers.get_l())),
            0x5E => return Ok(Instruction::Load(
                LoadRegister::E,
                self.mmu.read_byte(self.registers.get_hl()),
            )),
            0x5F => return Ok(Instruction::Load(LoadRegister::E, self.registers.get_a())),
            0x60 => return Ok(Instruction::Load(LoadRegister::H, self.registers.get_b())),
            0x61 => return Ok(Instruction::Load(LoadRegister::H, self.registers.get_c())),
            0x62 => return Ok(Instruction::Load(LoadRegister::H, self.registers.get_d())),
            0x63 => return Ok(Instruction::Load(LoadRegister::H, self.registers.get_e())),
            0x64 => return Ok(Instruction::Load(LoadRegister::H, self.registers.get_h())),
            0x65 => return Ok(Instruction::Load(LoadRegister::H, self.registers.get_l())),
            0x66 => return Ok(Instruction::Load(
                LoadRegister::H,
                self.mmu.read_byte(self.registers.get_hl()),
            )),
            0x67 => return Ok(Instruction::Load(LoadRegister::H, self.registers.get_a())),
            0x68 => return Ok(Instruction::Load(LoadRegister::L, self.registers.get_b())),
            0x69 => return Ok(Instruction::Load(LoadRegister::L, self.registers.get_c())),
            0x6A => return Ok(Instruction::Load(LoadRegister::L, self.registers.get_d())),
            0x6B => return Ok(Instruction::Load(LoadRegister::L, self.registers.get_e())),
            0x6C => return Ok(Instruction::Load(LoadRegister::L, self.registers.get_h())),
            0x6D => return Ok(Instruction::Load(LoadRegister::L, self.registers.get_l())),
            0x6E => return Ok(Instruction::Load(
                LoadRegister::L,
                self.mmu.read_byte(self.registers.get_hl()),
            )),
            0x6F => return Ok(Instruction::Load(LoadRegister::L, self.registers.get_a())),
            0x70 => return Ok(Instruction::LoadToMemory(self.registers.get_hl(), LoadRegister::B)),
            0x71 => return Ok(Instruction::LoadToMemory(self.registers.get_hl(), LoadRegister::C)),
            0x72 => return Ok(Instruction::LoadToMemory(self.registers.get_hl(), LoadRegister::D)),
            0x73 => return Ok(Instruction::LoadToMemory(self.registers.get_hl(), LoadRegister::E)),
            0x74 => return Ok(Instruction::LoadToMemory(self.registers.get_hl(), LoadRegister::H)),
            0x75 => return Ok(Instruction::LoadToMemory(self.registers.get_hl(), LoadRegister::L)),
            0x77 => return Ok(Instruction::LoadToMemory(self.registers.get_hl(), LoadRegister::A)),
            0x78 => return Ok(Instruction::Load(LoadRegister::A, self.registers.get_b())),
            0x79 => return Ok(Instruction::Load(LoadRegister::A, self.registers.get_c())),
            0x7A => return Ok(Instruction::Load(LoadRegister::A, self.registers.get_d())),
            0x7B => return Ok(Instruction::Load(LoadRegister::A, self.registers.get_e())),
            0x7C => return Ok(Instruction::Load(LoadRegister::A, self.registers.get_h())),
            0x7D => return Ok(Instruction::Load(LoadRegister::A, self.registers.get_l())),
            0x7E => return Ok(Instruction::Load(
                LoadRegister::A,
                self.mmu.read_byte(self.registers.get_hl()),
            )),
            0x7F => return Ok(Instruction::Load(LoadRegister::A, self.registers.get_a())),
            // 0x76 (HALT) has no instruction.
            _ => return Err(CpuError::UnimplementedOpcode(opcode)),
        }
    }

    /// The table for the opcodes 0x80 to 0xBF.
    #[verifier::rlimit(30)]
    fn table_80_bf(&mut self, opcode: u8) -> (result: Result<Instruction, CpuError>)
        requires
            0x80 <= opcode <= 0xBF,
        ensures
            decodes_as(
                result,
                final(self)@,
                old(self)@.decoded(
                    arithmetic(
                        opcode as int / 8 % 8,
                        old(self)@.target(operand(opcode as int % 8)),
                    ),
                ),
                old(self)@,
                opcode,
            ),
    {
        match opcode {
            0x80 => return Ok(Instruction::Add8(self.registers.get_b())),
            0x81 => return Ok(Instruction::Add8(self.registers.get_c())),
            0x82 => return Ok(Instruction::Add8(self.registers.get_d())),
            0x83 => return Ok(Instruction::Add8(self.registers.get_e())),
            0x84 => return Ok(Instruction::Add8(self.registers.get_h())),
            0x85 => return Ok(Instruction::Add8(self.registers.get_l())),
            0x86 => return Ok(Instruction::Add8(self.mmu.read_byte(self.registers.get_hl()))),
            0x87 => return Ok(Instruction::Add8(self.registers.get_a())),
            0x88 => return Ok(Instruction::Adc(self.registers.get_b())),
            0x89 => return Ok(Instruction::Adc(self.registers.get_c())),
            0x8A => return Ok(Instruction::Adc(self.registers.get_d())),
            0x8B => return Ok(Instruction::Adc(self.registers.get_e())),
            0x8C => return Ok(Instruction::Adc(self.registers.get_h())),
            0x8D => return Ok(Instruction::Adc(self.registers.get_l())),
            0x8E => return Ok(Instruction::Adc(self.mmu.read_byte(self.registers.get_hl()))),
            0x8F => return Ok(Instruction::Adc(self.registers.get_a())),
            0x90 => return Ok(Instruction::Sub(self.registers.get_b())),
            0x91 => return Ok(Instruction::Sub(self.registers.get_c())),
            0x92 => return Ok(Instruction::Sub(self.registers.get_d())),
            0x93 => return Ok(Instruction::Sub(self.registers.get_e())),
            0x94 => return Ok(Instruction::Sub(self.registers.get_h())),
            0x95 => return Ok(Instruction::Sub(self.registers.get_l())),
            0x96 => return Ok(Instruction::Sub(self.mmu.read_byte(self.registers.get_hl()))),
            0x97 => return Ok(Instruction::Sub(self.registers.get_a())),
            0x98 => return Ok(Instruction::Sbc(self.registers.get_b())),
            0x99 => return Ok(Instruction::Sbc(self.registers.get_c())),
            0x9A => return Ok(Instruction::Sbc(self.registers.get_d())),
            0x9B => return Ok(Instruction::Sbc(self.registers.get_e())),
            0x9C => return Ok(Instruction::Sbc(self.registers.get_h())),
            0x9D => return Ok(Instruction::Sbc(self.registers.get_l())),
            0x9E => return Ok(Instruction::Sbc(self.mmu.read_byte(self.registers.get_hl()))),
            0x9F => return Ok(Instruction::Sbc(self.registers.get_a())),
            0xA0 => return Ok(Instruction::And(self.registers.get_b())),
            0xA1 => return Ok(Instruction::And(self.registers.get_c())),
            0xA2 => return Ok(Instruction::And(self.registers.get_d())),
            0xA3 => return Ok(Instruction::And(self.registers.get_e())),
            0xA4 => return Ok(Instruction::And(self.registers.get_h())),
            0xA5 => return Ok(Instruction::And(self.registers.get_l())),
            0xA6 => return Ok(Instruction::And(self.mmu.read_byte(self.registers.get_hl()))),
            0xA7 => return Ok(Instruction::And(self.registers.get_a())),
            0xA8 => return Ok(Instruction::Xor(self.registers.get_b())),
            0xA9 => return Ok(Instruction::Xor(self.registers.get_c())),
            0xAA => return Ok(Instruction::Xor(self.registers.get_d())),
            0xAB => return Ok(Instruction::Xor(self.registers.get_e())),
            0xAC => return Ok(Instruction::Xor(self.registers.get_h())),
            0xAD => return Ok(Instruction::Xor(self.registers.get_l())),
            0xAE => return Ok(Instruction::Xor(self.mmu.read_byte(self.registers.get_hl()))),
            0xAF => return Ok(Instruction::Xor(self.registers.get_a())),
            0xB0 => return Ok(Instruction::Or(self.registers.get_b())),
            0xB1 => return Ok(Instruction::Or(self.registers.get_c())),
            0xB2 => return Ok(Instruction::Or(self.registers.get_d())),
            0xB3 => return Ok(Instruction::Or(self.registers.get_e())),
            0xB4 => return Ok(Instruction::Or(self.registers.get_h())),
            0xB5 => return Ok(Instruction::Or(self.registers.get_l())),
            0xB6 => return Ok(Instruction::Or(self.mmu.read_byte(self.registers.get_hl()))),
            0xB7 => return Ok(Instruction::Or(self.registers.get_a())),
            0xB8 => return Ok(Instruction::Cp(self.registers.get_b())),
            0xB9 => return Ok(Instruction::Cp(self.registers.get_c())),
            0xBA => return Ok(Instruction::Cp(self.registers.get_d())),
            0xBB => return Ok(Instruction::Cp(self.registers.get_e())),
            0xBC => return Ok(Instruction::Cp(self.registers.get_h())),
            0xBD => return Ok(Instruction::Cp(self.registers.get_l())),
            0xBE => return Ok(Instruction::Cp(self.mmu.read_byte(self.registers.get_hl()))),
            0xBF => return Ok(Instruction::Cp(self.registers.get_a())),
            // Every opcode of this range has an instruction.
            _ => return Err(CpuError::UnimplementedOpcode(opcode)),
        }
    }

    /// The table for the opcodes 0xC0 to 0xFF.
    #[verifier::rlimit(30)]
    fn table_c0_ff(&mut self, opcode: u8) -> (result: Result<Instruction, CpuError>)
        requires
            0xC0 <= opcode,
        ensures
            decodes_as(
                result,
                final(self)@,
                decode_high(old(self)@, opcode as int / 8 % 8, opcode as int % 8),
                old(self)@,
                opcode,
            ),
    {
        match opcode {
            0xC0 => return Ok(Instruction::Retcc(!self.registers.get_z_flag())),
            0xC1 => return Ok(Instruction::PopStack(StackOperationRegisters::BC)),
            0xC2 => return Ok(Instruction::Jpcc(!self.registers.get_z_flag(), self.next_word())),
            0xC3 => return Ok(Instruction::Jp(self.next_word())),
            0xC4 => return Ok(Instruction::Callcc(!self.registers.get_z_flag(), self.next_word())),
            0xC5 => return Ok(Instruction::PushStack(StackOperationRegisters::BC)),
            0xC6 => return Ok(Instruction::Add8(self.next_byte())),
            0xC7 => return Ok(Instruction::Rst(0x00)),
            0xC8 => return Ok(Instruction::Retcc(self.registers.get_z_flag())),
            0xC9 => return Ok(Instruction::Ret),
            0xCA => return Ok(Instruction::Jpcc(self.registers.get_z_flag(), self.next_word())),
            0xCC => return Ok(Instruction::Callcc(self.registers.get_z_flag(), self.next_word())),
            0xCD => return Ok(Instruction::Call(self.next_word())),
            0xCE => return Ok(Instruction::Adc(self.next_byte())),
            0xCF => return Ok(Instruction::Rst(0x08)),
            0xD0 => return Ok(Instruction::Retcc(!self.registers.get_c_flag())),
            0xD1 => return Ok(Instruction::PopStack(StackOperationRegisters::DE)),
            0xD2 => return Ok(Instruction::Jpcc(!self.registers.get_c_flag(), self.next_word())),
            0xD4 => return Ok(Instruction::Callcc(!self.registers.get_c_flag(), self.next_word())),
            0xD5 => return Ok(Instruction::PushStack(StackOperationRegisters::DE)),
            0xD6 => return Ok(Instruction::Sub(self.next_byte())),
            0xD7 => return Ok(Instruction::Rst(0x10)),
            0xD8 => return Ok(Instruction::Retcc(self.registers.get_c_flag())),
            0xDA => return Ok(Instruction::Jpcc(self.registers.get_c_flag(), self.next_word())),
            0xDC => return Ok(Instruction::Callcc(self.registers.get_c_flag(), self.next_word())),
            0xDF => return Ok(Instruction::Rst(0x18)),
            0xE0 => return Ok(Instruction::LoadToMemory(
                IO_PAGE + u16::from(self.next_byte()),
                LoadRegister::A,
            )),
            0xE1 => return Ok(Instruction::PopStack(StackOperationRegisters::HL)),
            0xE2 => return Ok(Instruction::LoadToMemory(
                IO_PAGE + u16::from(self.registers.get_c()),
                LoadRegister::A,
            )),
            0xE5 => return Ok(Instruction::PushStack(StackOperationRegisters::HL)),
            0xE6 => return Ok(Instruction::And(self.next_byte())),
            0xE7 => return Ok(Instruction::Rst(0x20)),
            0xE8 => {
                let byte: u8 = self.next_byte();
                let sp: u16 = self.registers.get_sp();
                return Ok(Instruction::Load16(
                    TargetRegister16::SP,
                    self.add_signed_byte_to_word(to_signed(byte), sp),
                ));
            },
            0xE9 => return Ok(Instruction::Jphl),
            0xEA => return Ok(Instruction::LoadToMemory(self.next_word(), LoadRegister::A)),
            0xEE => return Ok(Instruction::Xor(self.next_byte())),
            0xEF => return Ok(Instruction::Rst(0x28)),
            0xF0 => {
                let address: u8 = self.next_byte();
                let value: u8 = self.mmu.read_byte(IO_PAGE + u16::from(address));
                return Ok(Instruction::Load(LoadRegister::A, value));
            },
            0xF1 => return Ok(Instruction::PopStack(StackOperationRegisters::AF)),
            0xF2 => return Ok(Instruction::Load(
                LoadRegister::A,
                self.mmu.read_byte(IO_PAGE + u16::from(self.registers.get_c())),
            )),
            0xF5 => return Ok(Instruction::PushStack(StackOperationRegisters::AF)),
            0xF6 => return Ok(Instruction::Or(self.next_byte())),
            0xF7 => return Ok(Instruction::Rst(0x30)),
            0xF8 => {
                let byte: u8 = self.next_byte();
                let sp: u16 = self.registers.get_sp();
                return Ok(Instruction::Load16(
                    TargetRegister16::HL,
                    self.add_signed_byte_to_word(to_signed(byte), sp),
                ));
            },
            0xF9 => return Ok(Instruction::Load16(TargetRegister16::SP, self.registers.get_hl())),
            0xFA => {
                let address: u16 = self.next_word();
                return Ok(Instruction::Load(LoadRegister::A, self.mmu.read_byte(address)));
            },
            0xFE => return Ok(Instruction::Cp(self.next_byte())),
            0xFF => return Ok(Instruction::Rst(0x38)),
            // 0xCB is the prefix; 0xD9 (RETI), 0xDE, 0xF3 (DI), 0xFB (EI) and the
            // unassigned codes have no instruction.
            _ => return Err(CpuError::UnimplementedOpcode(opcode)),
        }
    }

    /// Decodes `opcode`, which was read after the prefix.
    pub fn decode_prefixed_opcode(&mut self, opcode: u8) -> (instruction: Instruction)
        ensures
            instruction == decode_prefixed(opcode),
            instruction.well_formed(),
            final(self)@ == old(self)@,
    {
        match opcode {
            0x37 => Instruction::Swap(TargetRegister8::A),
            0x30 => Instruction::Swap(TargetRegister8::B),
            0x31 => Instruction::Swap(TargetRegister8::C),
            0x32 => Instruction::Swap(TargetRegister8::D),
            0x33 => Instruction::Swap(TargetRegister8::E),
            0x34 => Instruction::Swap(TargetRegister8::H),
            0x35 => Instruction::Swap(TargetRegister8::L),
            0x36 => Instruction::Swap(TargetRegister8::HL),
            0x07 => Instruction::Rlc(TargetRegister8::A),
            0x00 => Instruction::Rlc(TargetRegister8::B),
            0x01 => Instruction::Rlc(TargetRegister8::C),
            0x02 => Instruction::Rlc(TargetRegister8::D),
            0x03 => Instruction::Rlc(TargetRegister8::E),
            0x04 => Instruction::Rlc(TargetRegister8::H),
            0x05 => Instruction::Rlc(TargetRegister8::L),
            0x06 => Instruction::Rlc(TargetRegister8::HL),
            0x17 => Instruction::Rl(TargetRegister8::A),
            0x10 => Instruction::Rl(TargetRegister8::B),
            0x11 => Instruction::Rl(TargetRegister8::C),
            0x12 => Instruction::Rl(TargetRegister8::D),
            0x13 => Instruction::Rl(TargetRegister8::E),
            0x14 => Instruction::Rl(TargetRegister8::H),
            0x15 => Instruction::Rl(TargetRegister8::L),
            0x16 => Instruction::Rl(TargetRegister8::HL),
            0x0F => Instruction::Rrc(TargetRegister8::A),
            0x08 => Instruction::Rrc(TargetRegister8::B),
            0x09 => Instruction::Rrc(TargetRegister8::C),
            0x0A => Instruction::Rrc(TargetRegister8::D),
            0x0B => Instruction::Rrc(TargetRegister8::E),
            0x0C => Instruction::Rrc(TargetRegister8::H),
            0x0D => Instruction::Rrc(TargetRegister8::L),
            0x0E => Instruction::Rrc(TargetRegister8::HL),
            0x1F => Instruction::Rr(TargetRegister8::A),
            0x18 => Instruction::Rr(TargetRegister8::B),
            0x19 => Instruction::Rr(TargetRegister8::C),
            0x1A => Instruction::Rr(TargetRegister8::D),
            0x1B => Instruction::Rr(TargetRegister8::E),
            0x1C => Instruction::Rr(TargetRegister8::H),
            0x1D => Instruction::Rr(TargetRegister8::L),
            0x1E => Instruction::Rr(TargetRegister8::HL),
            0x27 => Instruction::Sla(TargetRegister8::A),
            0x20 => Instruction::Sla(TargetRegister8::B),
            0x21 => Instruction::Sla(TargetRegister8::C),
            0x22 => Instruction::Sla(TargetRegister8::D),
            0x23 => Instruction::Sla(TargetRegister8::E),
            0x24 => Instruction::Sla(TargetRegister8::H),
            0x25 => Instruction::Sla(TargetRegister8::L),
            0x26 => Instruction::Sla(TargetRegister8::HL),
            0x2F => Instruction::Sra(TargetRegister8::A),
            0x28 => Instruction::Sra(TargetRegister8::B),
            0x29 => Instruction::Sra(TargetRegister8::C),
            0x2A => Instruction::Sra(TargetRegister8::D),
            0x2B => Instruction::Sra(TargetRegister8::E),
            0x2C => Instruction::Sra(TargetRegister8::H),
            0x2D => Instruction::Sra(TargetRegister8::L),
            0x2E => Instruction::Sra(TargetRegister8::HL),
            0x3F => Instruction::Srl(TargetRegister8::A),
            0x38 => Instruction::Srl(TargetRegister8::B),
            0x39 => Instruction::Srl(TargetRegister8::C),
            0x3A => Instruction::Srl(TargetRegister8::D),
            0x3B => Instruction::Srl(TargetRegister8::E),
            0x3C => Instruction::Srl(TargetRegister8::H),
            0x3D => Instruction::Srl(TargetRegister8::L),
            0x3E => Instruction::Srl(TargetRegister8::HL),
            0x47 | 0x4F | 0x57 | 0x5F | 0x67 | 0x6F | 0x77 | 0x7F => {
                let bit: u8 = (opcode - 0x47) / 0x8;
                Instruction::Bit(TargetRegister8::A, bit)
            },
            0x40 | 0x48 | 0x50 | 0x58 | 0x60 | 0x68 | 0x70 | 0x78 => {
                let bit: u8 = (opcode - 0x40) / 0x8;
                Instruction::Bit(TargetRegister8::B, bit)
            },
            0x41 | 0x49 | 0x51 | 0x59 | 0x61 | 0x69 | 0x71 | 0x79 => {
                let bit: u8 = (opcode - 0x41) / 0x8;
                Instruction::Bit(TargetRegister8::C, bit)
            },
            0x42 | 0x4A | 0x52 | 0x5A | 0x62 | 0x6A | 0x72 | 0x7A => {
                let bit: u8 = (opcode - 0x42) / 0x8;
                Instruction::Bit(TargetRegister8::D, bit)
            },
            0x43 | 0x4B | 0x53 | 0x5B | 0x63 | 0x6B | 0x73 | 0x7B => {
                let bit: u8 = (opcode - 0x43) / 0x8;
                Instruction::Bit(TargetRegister8::E, bit)
            },
            0x44 | 0x4C | 0x54 | 0x5C | 0x64 | 0x6C | 0x74 | 0x7C => {
                let bit: u8 = (opcode - 0x44) / 0x8;
                Instruction::Bit(TargetRegister8::H, bit)
            },
            0x45 | 0x4D | 0x55 | 0x5D | 0x65 | 0x6D | 0x75 | 0x7D => {
                let bit: u8 = (opcode - 0x45) / 0x8;
                Instruction::Bit(TargetRegister8::L, bit)
            },
            0x46 | 0x4E | 0x56 | 0x5E | 0x66 | 0x6E | 0x76 | 0x7E => {
                let bit: u8 = (opcode - 0x46) / 0x8;
                Instruction::Bit(TargetRegister8::HL, bit)
            },
            0xC7 | 0xCF | 0xD7 | 0xDF | 0xE7 | 0xEF | 0xF7 | 0xFF => {
                let bit: u8 = (opcode - 0xC7) / 0x8;
                Instruction::SetBit(TargetRegister8::A, bit)
            },
            0xC0 | 0xC8 | 0xD0 | 0xD8 | 0xE0 | 0xE8 | 0xF0 | 0xF8 => {
                let bit: u8 = (opcode - 0xC0) / 0x8;
                Instruction::SetBit(TargetRegister8::B, bit)
            },
            0xC1 | 0xC9 | 0xD1 | 0xD9 | 0xE1 | 0xE9 | 0xF1 | 0xF9 => {
                let bit: u8 = (opcode - 0xC1) / 0x8;
                Instruction::SetBit(TargetRegister8::C, bit)
            },
            0xC2 | 0xCA | 0xD2 | 0xDA | 0xE2 | 0xEA | 0xF2 | 0xFA => {
                let bit: u8 = (opcode - 0xC2) / 0x8;
                Instruction::SetBit(TargetRegister8::D, bit)
            },
            0xC3 | 0xCB | 0xD3 | 0xDB | 0xE3 | 0xEB | 0xF3 | 0xFB => {
                let bit: u8 = (opcode - 0xC3) / 0x8;
                Instruction::SetBit(TargetRegister8::E, bit)
            },
            0xC4 | 0xCC | 0xD4 | 0xDC | 0xE4 | 0xEC | 0xF4 | 0xFC => {
                let bit: u8 = (opcode - 0xC4) / 0x8;
                Instruction::SetBit(TargetRegister8::H, bit)
            },
            0xC5 | 0xCD | 0xD5 | 0xDD | 0xE5 | 0xED | 0xF5 | 0xFD => {
                let bit: u8 = (opcode - 0xC5) / 0x8;
                Instruction::SetBit(TargetRegister8::L, bit)
            },
            0xC6 | 0xCE | 0xD6 | 0xDE | 0xE6 | 0xEE | 0xF6 | 0xFE => {
                let bit: u8 = (opcode - 0xC6) / 0x8;
                Instruction::SetBit(TargetRegister8::HL, bit)
            },
            0x87 | 0x8F | 0x97 | 0x9F | 0xA7 | 0xAF | 0xB7 | 0xBF => {
                let bit: u8 = (opcode - 0x87) / 0x8;
                Instruction::Res(TargetRegister8::A, bit)
            },
            0x80 | 0x88 | 0x90 | 0x98 | 0xA0 | 0xA8 | 0xB0 | 0xB8 => {
                let bit: u8 = (opcode - 0x80) / 0x8;
                Instruction::Res(TargetRegister8::B, bit)
            },
            0x81 | 0x89 | 0x91 | 0x99 | 0xA1 | 0xA9 | 0xB1 | 0xB9 => {
                let bit: u8 = (opcode - 0x81) / 0x8;
                Instruction::Res(TargetRegister8::C, bit)
            },
            0x82 | 0x8A | 0x92 | 0x9A | 0xA2 | 0xAA | 0xB2 | 0xBA => {
                let bit: u8 = (opcode - 0x82) / 0x8;
                Instruction::Res(TargetRegister8::D, bit)
            },
            0x83 | 0x8B | 0x93 | 0x9B | 0xA3 | 0xAB | 0xB3 | 0xBB => {
                let bit: u8 = (opcode - 0x83) / 0x8;
                Instruction::Res(TargetRegister8::E, bit)
            },
            0x84 | 0x8C | 0x94 | 0x9C | 0xA4 | 0xAC | 0xB4 | 0xBC => {
                let bit: u8 = (opcode - 0x84) / 0x8;
                Instruction::Res(TargetRegister8::H, bit)
            },
            0x85 | 0x8D | 0x95 | 0x9D | 0xA5 | 0xAD | 0xB5 | 0xBD => {
                let bit: u8 = (opcode - 0x85) / 0x8;
                Instruction::Res(TargetRegister8::L, bit)
            },
            0x86 | 0x8E | 0x96 | 0x9E | 0xA6 | 0xAE | 0xB6 | 0xBE => {
                let bit: u8 = (opcode - 0x86) / 0x8;
                Instruction::Res(TargetRegister8::HL, bit)
            },
        }
    }
}

} // verus!
