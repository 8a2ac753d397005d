//! The executor: what each instruction does to the registers and the memory.
use vstd::prelude::*;
use crate::alu;
use crate::alu::AluResult;
use crate::bits::{high_byte, low_byte, lower, upper, wrap16, wrap8};
use crate::cpu::{Cpu, Machine};
use crate::instruction::{
    Instruction,
    LoadRegister,
    StackOperationRegisters,
    TargetRegister16,
    TargetRegister8,
};
use crate::registers::{FlagRegister, RegisterFile};

verus! {

impl Machine {
    /// This state with the flags replaced.
    pub open spec fn with_flags(self, flags: FlagRegister) -> Machine {
        self.with_regs(self.regs.with_flags(flags))
    }

    /// This state with the accumulator and the flags set from `result`.
    pub open spec fn accumulate(self, result: AluResult) -> Machine {
        self.with_regs(RegisterFile { a: result.value, f: result.flags, ..self.regs })
    }

    /// The value of a byte register.
    pub open spec fn load_register(self, register: LoadRegister) -> u8 {
        match register {
            LoadRegister::A => self.regs.a,
            LoadRegister::B => self.regs.b,
            LoadRegister::C => self.regs.c,
            LoadRegister::D => self.regs.d,
            LoadRegister::E => self.regs.e,
            LoadRegister::H => self.regs.h,
            LoadRegister::L => self.regs.l,
        }
    }

    /// This state with a byte register set to `value`.
    pub open spec fn with_load_register(self, register: LoadRegister, value: u8) -> Machine {
        match register {
            LoadRegister::A => self.with_regs(RegisterFile { a: value, ..self.regs }),
            LoadRegister::B => self.with_regs(RegisterFile { b: value, ..self.regs }),
            LoadRegister::C => self.with_regs(RegisterFile { c: value, ..self.regs }),
            LoadRegister::D => self.with_regs(RegisterFile { d: value, ..self.regs }),
            LoadRegister::E => self.with_regs(RegisterFile { e: value, ..self.regs }),
            LoadRegister::H => self.with_regs(RegisterFile { h: value, ..self.regs }),
            LoadRegister::L => self.with_regs(RegisterFile { l: value, ..self.regs }),
        }
    }

    /// The byte an in-place operation works on: a register, or the byte in
    /// memory that HL points at.
    pub open spec fn target(self, target: TargetRegister8) -> u8 {
        match target {
            TargetRegister8::A => self.regs.a,
            TargetRegister8::B => self.regs.b,
            TargetRegister8::C => self.regs.c,
            TargetRegister8::D => self.regs.d,
            TargetRegister8::E => self.regs.e,
            TargetRegister8::H => self.regs.h,
            TargetRegister8::L => self.regs.l,
            TargetRegister8::HL => self.read(self.regs.hl()),
        }
    }

    /// This state with the byte that `target` names set to `value`.
    pub open spec fn with_target(self, target: TargetRegister8, value: u8) -> Machine {
        match target {
            TargetRegister8::A => self.with_regs(RegisterFile { a: value, ..self.regs }),
            TargetRegister8::B => self.with_regs(RegisterFile { b: value, ..self.regs }),
            TargetRegister8::C => self.with_regs(RegisterFile { c: value, ..self.regs }),
            TargetRegister8::D => self.with_regs(RegisterFile { d: value, ..self.regs }),
            TargetRegister8::E => self.with_regs(RegisterFile { e: value, ..self.regs }),
            TargetRegister8::H => self.with_regs(RegisterFile { h: value, ..self.regs }),
            TargetRegister8::L => self.with_regs(RegisterFile { l: value, ..self.regs }),
            TargetRegister8::HL => self.write(self.regs.hl(), value),
        }
    }

    /// The value of a 16-bit register.
    pub open spec fn pair(self, register: TargetRegister16) -> u16 {
        match register {
            TargetRegister16::BC => self.regs.bc(),
            TargetRegister16::DE => self.regs.de(),
            TargetRegister16::HL => self.regs.hl(),
            TargetRegister16::SP => self.regs.sp,
        }
    }

    /// This state with a 16-bit register set to `value`.
    pub open spec fn with_pair(self, register: TargetRegister16, value: u16) -> Machine {
        match register {
            TargetRegister16::BC => self.with_regs(self.regs.with_bc(value)),
            TargetRegister16::DE => self.with_regs(self.regs.with_de(value)),
            TargetRegister16::HL => self.with_regs(self.regs.with_hl(value)),
            TargetRegister16::SP => self.with_regs(RegisterFile { sp: value, ..self.regs }),
        }
    }

    /// The value of a register pair that can be pushed.
    pub open spec fn stack_pair(self, register: StackOperationRegisters) -> u16 {
        match register {
            StackOperationRegisters::AF => self.regs.af(),
            StackOperationRegisters::BC => self.regs.bc(),
            StackOperationRegisters::DE => self.regs.de(),
            StackOperationRegisters::HL => self.regs.hl(),
        }
    }

    /// This state with a register pair that can be popped set to `value`.
    pub open spec fn with_stack_pair(
        self,
        register: StackOperationRegisters,
        value: u16,
    ) -> Machine {
        match register {
            StackOperationRegisters::AF => self.with_regs(self.regs.with_af(value)),
            StackOperationRegisters::BC => self.with_regs(self.regs.with_bc(value)),
            StackOperationRegisters::DE => self.with_regs(self.regs.with_de(value)),
            StackOperationRegisters::HL => self.with_regs(self.regs.with_hl(value)),
        }
    }

    /// This state after an in-place operation on `target` that yielded
    /// `result`: the flags and the byte are replaced.
    pub open spec fn apply(self, target: TargetRegister8, result: AluResult) -> Machine {
        self.with_flags(result.flags).with_target(target, result.value)
    }

    /// This state with `value` stored at `address`, low byte first; the
    /// high byte goes to the address after it, which for the last address is
    /// the first.
    pub open spec fn store_word(self, address: u16, value: u16) -> Machine {
        self.write(address, low_byte(value)).write(wrap16(address + 1), high_byte(value))
    }

    /// This state with the accumulator complemented and N and H set.
    pub open spec fn complement_accumulator(self) -> Machine {
        self.with_regs(
            RegisterFile {
                a: alu::complement(self.regs.a),
                f: FlagRegister { n: true, h: true, ..self.regs.f },
                ..self.regs
            },
        )
    }

    /// This state with the carry flag set to `carry` and N and H clear.
    pub open spec fn with_carry(self, carry: bool) -> Machine {
        self.with_flags(FlagRegister { n: false, h: false, c: carry, ..self.regs.f })
    }

    /// This state after adding `value` to HL.
    pub open spec fn add_to_hl(self, value: u16) -> Machine {
        let result = alu::add_words(self.regs.hl(), value, self.regs.f);
        self.with_regs(self.regs.with_hl(result.value).with_flags(result.flags))
    }
}

/// The state after executing `instruction` in state `m`.
#[verifier::opaque]
pub open spec fn execute(m: Machine, instruction: Instruction) -> Machine {
    let a = m.regs.a;
    let f = m.regs.f;
    match instruction {
        Instruction::Load(target, value) => m.with_load_register(target, value),
        Instruction::LoadToMemory(address, source) => m.write(address, m.load_register(source)),
        Instruction::LoadToMemoryFromMemory(address, value) => m.write(address, value),
        Instruction::Load16(target, value) => m.with_pair(target, value),
        Instruction::LoadStackPointerToMemory(address) => m.store_word(address, m.regs.sp),
        Instruction::PushStack(register) => m.push(m.stack_pair(register)),
        Instruction::PopStack(register) => m.drop_top().with_stack_pair(register, m.stack_top()),
        Instruction::Add8(value) => m.accumulate(alu::add_bytes(a, value, false)),
        Instruction::Adc(value) => m.accumulate(alu::add_bytes(a, value, f.c)),
        Instruction::Sub(value) => m.accumulate(alu::subtract_bytes(a, value, false)),
        Instruction::Sbc(value) => m.accumulate(alu::subtract_bytes(a, value, f.c)),
        Instruction::And(value) => m.accumulate(alu::and(a, value)),
        Instruction::Or(value) => m.accumulate(alu::or(a, value)),
        Instruction::Xor(value) => m.accumulate(alu::xor(a, value)),
        Instruction::Cp(value) => m.with_flags(alu::compare(a, value)),
        Instruction::Inc8(target) => m.apply(target, alu::increment(m.target(target), f)),
        Instruction::Dec8(target) => m.apply(target, alu::decrement(m.target(target), f)),
        Instruction::Inc16(target) => m.with_pair(target, wrap16(m.pair(target) + 1)),
        Instruction::Dec16(target) => m.with_pair(target, wrap16(m.pair(target) - 1)),
        Instruction::AddHL(value) => m.add_to_hl(value),
        Instruction::Swap(target) => m.apply(target, alu::swap(m.target(target))),
        Instruction::Cpl => m.complement_accumulator(),
        Instruction::Ccf => m.with_carry(!f.c),
        Instruction::Scf => m.with_carry(true),
        Instruction::Nop => m,
        Instruction::Rlc(target) => m.apply(target, alu::rlc(m.target(target))),
        Instruction::Rl(target) => m.apply(target, alu::rl(m.target(target), f.c)),
        Instruction::Rrc(target) => m.apply(target, alu::rrc(m.target(target))),
        Instruction::Rr(target) => m.apply(target, alu::rr(m.target(target), f.c)),
        Instruction::Sla(target) => m.apply(target, alu::sla(m.target(target))),
        Instruction::Sra(target) => m.apply(target, alu::sra(m.target(target))),
        Instruction::Srl(target) => m.apply(target, alu::srl(m.target(target))),
        Instruction::Bit(target, bit) => m.with_flags(alu::test_bit(m.target(target), bit, f)),
        Instruction::SetBit(target, bit) => m.with_target(
            target,
            alu::set_bit(m.target(target), bit),
        ),
        Instruction::Res(target, bit) => m.with_target(
            target,
            alu::clear_bit(m.target(target), bit),
        ),
        Instruction::Jp(address) => m.jump(address),
        Instruction::Jpcc(condition, address) => if condition {
            m.jump(address)
        } else {
            m
        },
        Instruction::Jphl => m.jump(m.regs.hl()),
        Instruction::Jrn(offset) => m.skip(offset as int),
        Instruction::Jrcc(condition, offset) => if condition {
            m.skip(offset as int)
        } else {
            m
        },
        Instruction::Call(address) => m.call(address),
        Instruction::Callcc(condition, address) => if condition {
            m.call(address)
        } else {
            m
        },
        Instruction::Rst(offset) => m.call(offset as u16),
        Instruction::Ret => m.ret(),
        Instruction::Retcc(condition) => if condition {
            m.ret()
        } else {
            m
        },
    }
}

impl Cpu {
    /// Executes one decoded instruction.
    pub fn execute_instruction(&mut self, instruction: Instruction)
        requires
            instruction.well_formed(),
        ensures
            final(self)@ == execute(old(self)@, instruction),
    {
        match instruction {
            Instruction::Load(..) | Instruction::LoadToMemory(..)
            | Instruction::LoadToMemoryFromMemory(..) | Instruction::Load16(..)
            | Instruction::LoadStackPointerToMemory(..) | Instruction::PushStack(..)
            | Instruction::PopStack(..) => self.execute_transfer(instruction),
            Instruction::Add8(..) | Instruction::Adc(..) | Instruction::Sub(..)
            | Instruction::Sbc(..) | Instruction::And(..) | Instruction::Or(..)
            | Instruction::Xor(..) | Instruction::Cp(..) | Instruction::Inc16(..)
            | Instruction::Dec16(..) | Instruction::AddHL(..) | Instruction::Cpl
            | Instruction::Ccf | Instruction::Scf | Instruction::Nop => {
                self.execute_arithmetic(instruction)
            },
            Instruction::Inc8(..) | Instruction::Dec8(..) | Instruction::Swap(..)
            | Instruction::Rlc(..) | Instruction::Rl(..) | Instruction::Rrc(..)
            | Instruction::Rr(..) | Instruction::Sla(..) | Instruction::Sra(..)
            | Instruction::Srl(..) | Instruction::Bit(..) | Instruction::SetBit(..)
            | Instruction::Res(..) => self.execute_in_place(instruction),
            Instruction::Jp(..) | Instruction::Jpcc(..) | Instruction::Jphl
            | Instruction::Jrn(..) | Instruction::Jrcc(..) | Instruction::Call(..)
            | Instruction::Callcc(..) | Instruction::Rst(..) | Instruction::Ret
            | Instruction::Retcc(..) => self.execute_flow(instruction),
        }
    }

    /// Executes an instruction that moves a byte or a word between
    /// registers, memory and the stack.
    fn execute_transfer(&mut self, instruction: Instruction)
        requires
            instruction.is_transfer(),
            instruction.well_formed(),
        ensures
            final(self)@ == execute(old(self)@, instruction),
    {
        proof {
            reveal(wrap16);
            reveal(execute);
        }
        match instruction {
            Instruction::Load(target, value) => self.write_load_register(&target, value),
            Instruction::LoadToMemory(address, source) => {
                let value: u8 = self.read_load_register(&source);
                self.store(address, value);
            },
            Instruction::LoadToMemoryFromMemory(address, value) => self.store(address, value),
            Instruction::Load16(target, value) => self.write_pair(&target, value),
            Instruction::LoadStackPointerToMemory(address) => {
                let sp_lsb: u8 = lower(self.registers.get_sp());
                let sp_msb: u8 = upper(self.registers.get_sp());
                self.store(address, sp_lsb);
                self.store(address.wrapping_add(1), sp_msb);
            },
            Instruction::PushStack(register) => {
                let value: u16 = self.read_stack_pair(&register);
                self.push(value);
            },
            Instruction::PopStack(register) => {
                let value: u16 = self.pop();
                self.write_stack_pair(&register, value);
            },
            _ => {},
        }
    }

    /// Executes an instruction that computes on the accumulator, on a
    /// 16-bit register or on the flags.
    fn execute_arithmetic(&mut self, instruction: Instruction)
        requires
            instruction.is_arithmetic(),
            instruction.well_formed(),
        ensures
            final(self)@ == execute(old(self)@, instruction),
    {
        proof {
            reveal(wrap16);
            reveal(execute);
        }
        match instruction {
            Instruction::Add8(register_value) => self.add8(register_value, false),
            Instruction::Adc(register_value) => self.add8(register_value, true),
            Instruction::Sub(register_value) => self.sub(register_value, false),
            Instruction::Sbc(register_value) => self.sub(register_value, true),
            Instruction::And(register_value) => self.and(register_value),
            Instruction::Or(register_value) => self.or(register_value),
            Instruction::Xor(register_value) => self.xor(register_value),
            Instruction::Cp(register_value) => self.compare(register_value),
            Instruction::Inc16(target) => {
                let value: u16 = self.read_pair(&target).wrapping_add(1);
                self.write_pair(&target, value);
            },
            Instruction::Dec16(target) => {
                let value: u16 = self.read_pair(&target).wrapping_sub(1);
                self.write_pair(&target, value);
            },
            Instruction::AddHL(register_value) => self.add16(register_value),
            Instruction::Cpl => self.complement_a(),
            Instruction::Ccf => self.complement_carry_flag(),
            Instruction::Scf => self.set_carry_flag(),
            Instruction::Nop => (),
            _ => {},
        }
    }

    /// Executes an instruction that works on one byte operand in place.
    fn execute_in_place(&mut self, instruction: Instruction)
        requires
            instruction.is_in_place(),
            instruction.well_formed(),
        ensures
            final(self)@ == execute(old(self)@, instruction),
    {
        proof {
            reveal(execute);
        }
        match instruction {
            Instruction::Inc8(target) => {
                let value: u8 = self.increment(self.read_target(&target));
                self.write_target(&target, value);
            },
            Instruction::Dec8(target) => {
                let value: u8 = self.decrement(self.read_target(&target));
                self.write_target(&target, value);
            },
            Instruction::Swap(target) => {
                let value: u8 = self.swap(self.read_target(&target));
                self.write_target(&target, value);
            },
            Instruction::Rlc(target) => {
                let value: u8 = self.rlc(self.read_target(&target));
                self.write_target(&target, value);
            },
            Instruction::Rl(target) => {
                let value: u8 = self.rl(self.read_target(&target));
                self.write_target(&target, value);
            },
            Instruction::Rrc(target) => {
                let value: u8 = self.rrc(self.read_target(&target));
                self.write_target(&target, value);
            },
            Instruction::Rr(target) => {
                let value: u8 = self.rr(self.read_target(&target));
                self.write_target(&target, value);
            },
            Instruction::Sla(target) => {
                let value: u8 = self.sla(self.read_target(&target));
                self.write_target(&target, value);
            },
            Instruction::Sra(target) => {
                let value: u8 = self.sra(self.read_target(&target));
                self.write_target(&target, value);
            },
            Instruction::Srl(target) => {
                let value: u8 = self.srl(self.read_target(&target));
                self.write_target(&target, value);
            },
            Instruction::Bit(target, bit) => self.bit(self.read_target(&target), bit),
            Instruction::SetBit(target, bit) => {
                let value: u8 = self.set(self.read_target(&target), bit);
                self.write_target(&target, value);
            },
            Instruction::Res(target, bit) => {
                let value: u8 = self.reset(self.read_target(&target), bit);
                self.write_target(&target, value);
            },
            _ => {},
        }
    }

    /// Executes an instruction that may change the program counter.
    fn execute_flow(&mut self, instruction: Instruction)
        requires
            instruction.is_flow(),
            instruction.well_formed(),
        ensures
            final(self)@ == execute(old(self)@, instruction),
    {
        proof {
            reveal(execute);
        }
        match instruction {
            Instruction::Jp(address) => self.jump(address),
            Instruction::Jpcc(condition, address) => {
                if condition {
                    self.jump(address);
                }
            },
            Instruction::Jphl => self.jump(self.registers.get_hl()),
            Instruction::Jrn(offset) => self.jump_relative(offset),
            Instruction::Jrcc(condition, offset) => {
                if condition {
                    self.jump_relative(offset);
                }
            },
            Instruction::Call(address) => self.call(address),
            Instruction::Callcc(condition, address) => {
                if condition {
                    self.call(address);
                }
            },
            Instruction::Rst(offset) => self.restart(offset),
            Instruction::Ret => self.ret(),
            Instruction::Retcc(condition) => {
                if condition {
                    self.ret();
                }
            },
            _ => {},
        }
    }

    /// Stores `value` at `address`.
    pub fn store(&mut self, address: u16, value: u8)
        ensures
            final(self)@ == old(self)@.write(address, value),
    {
        self.mmu.write_byte(address, value);
    }

    /// The value of a byte register.
    pub fn read_load_register(&self, register: &LoadRegister) -> (value: u8)
        ensures
            value == self@.load_register(*register),
    {
        match register {
            LoadRegister::A => self.registers.get_a(),
            LoadRegister::B => self.registers.get_b(),
            LoadRegister::C => self.registers.get_c(),
            LoadRegister::D => self.registers.get_d(),
            LoadRegister::E => self.registers.get_e(),
            LoadRegister::H => self.registers.get_h(),
            LoadRegister::L => self.registers.get_l(),
        }
    }

    /// Sets a byte register.
    pub fn write_load_register(&mut self, register: &LoadRegister, value: u8)
        ensures
            final(self)@ == old(self)@.with_load_register(*register, value),
    {
        match register {
            LoadRegister::A => self.registers.set_a(value),
            LoadRegister::B => self.registers.set_b(value),
            LoadRegister::C => self.registers.set_c(value),
            LoadRegister::D => self.registers.set_d(value),
            LoadRegister::E => self.registers.set_e(value),
            LoadRegister::H => self.registers.set_h(value),
            LoadRegister::L => self.registers.set_l(value),
        }
    }

    /// The value of a 16-bit register.
    pub fn read_pair(&self, register: &TargetRegister16) -> (value: u16)
        ensures
            value == self@.pair(*register),
    {
        match register {
            TargetRegister16::BC => self.registers.get_bc(),
            TargetRegister16::DE => self.registers.get_de(),
            TargetRegister16::HL => self.registers.get_hl(),
            TargetRegister16::SP => self.registers.get_sp(),
        }
    }

    /// Sets a 16-bit register.
    pub fn write_pair(&mut self, register: &TargetRegister16, value: u16)
        ensures
            final(self)@ == old(self)@.with_pair(*register, value),
    {
        match register {
            TargetRegister16::BC => self.registers.set_bc(value),
            TargetRegister16::DE => self.registers.set_de(value),
            TargetRegister16::HL => self.registers.set_hl(value),
            TargetRegister16::SP => self.registers.set_sp(value),
        }
    }

    /// The value of a register pair that can be pushed.
    pub fn read_stack_pair(&self, register: &StackOperationRegisters) -> (value: u16)
        ensures
            value == self@.stack_pair(*register),
    {
        match register {
            StackOperationRegisters::AF => self.registers.get_af(),
            StackOperationRegisters::BC => self.registers.get_bc(),
            StackOperationRegisters::DE => self.registers.get_de(),
            StackOperationRegisters::HL => self.registers.get_hl(),
        }
    }

    /// Sets a register pair that can be popped.
    pub fn write_stack_pair(&mut self, register: &StackOperationRegisters, value: u16)
        ensures
            final(self)@ == old(self)@.with_stack_pair(*register, value),
    {
        match register {
            StackOperationRegisters::AF => self.registers.set_af(value),
            StackOperationRegisters::BC => self.registers.set_bc(value),
            StackOperationRegisters::DE => self.registers.set_de(value),
            StackOperationRegisters::HL => self.registers.set_hl(value),
        }
    }

    /// The byte that `target` names.
    pub fn read_target(&self, target: &TargetRegister8) -> (value: u8)
        ensures
            value == self@.target(*target),
    {
        match target {
            TargetRegister8::A => self.registers.get_a(),
            TargetRegister8::B => self.registers.get_b(),
            TargetRegister8::C => self.registers.get_c(),
            TargetRegister8::D => self.registers.get_d(),
            TargetRegister8::E => self.registers.get_e(),
            TargetRegister8::H => self.registers.get_h(),
            TargetRegister8::L => self.registers.get_l(),
            TargetRegister8::HL => self.mmu.read_byte(self.registers.get_hl()),
        }
    }

    /// Sets the byte that `target` names.
    pub fn write_target(&mut self, target: &TargetRegister8, value: u8)
        ensures
            final(self)@ == old(self)@.with_target(*target, value),
    {
        match target {
            TargetRegister8::A => self.registers.set_a(value),
            TargetRegister8::B => self.registers.set_b(value),
            TargetRegister8::C => self.registers.set_c(value),
            TargetRegister8::D => self.registers.set_d(value),
            TargetRegister8::E => self.registers.set_e(value),
            TargetRegister8::H => self.registers.set_h(value),
            TargetRegister8::L => self.registers.set_l(value),
            TargetRegister8::HL => {
                let address: u16 = self.registers.get_hl();
                self.store(address, value)
            },
        }
    }

    /// Adds `value`, and the carry flag if `with_carry` is set, to the
    /// accumulator.
    pub fn add8(&mut self, value: u8, with_carry: bool)
        ensures
            final(self)@ == old(self)@.accumulate(
                alu::add_bytes(old(self)@.regs.a, value, with_carry && old(self)@.regs.f.c),
            ),
    {
        proof {
            reveal(wrap8);
        }
        let current_value: u8 = self.registers.get_a();
        let carry: u16 = if with_carry && self.registers.get_c_flag() {
            1
        } else {
            0
        };
        let sum: u16 = current_value as u16 + value as u16 + carry;
        let new_value: u8 = lower(sum);
        proof {
            alu::lemma_half_carry(current_value, value);
        }
        self.registers.set_a(new_value);
        self.registers.set_z_flag(new_value == 0);
        self.registers.set_n_flag(false);
        self.registers.set_h_flag(((current_value & 0xF) + (value & 0xF)) & 0x10 != 0);
        self.registers.set_c_flag(sum > 0xFF);
    }

    /// Adds the signed `byte` to `word` and sets the flags; returns the sum.
    pub fn add_signed_byte_to_word(&mut self, byte: i8, word: u16) -> (sum: u16)
        ensures
            sum == alu::add_signed(word, byte).value,
            final(self)@ == old(self)@.with_flags(alu::add_signed(word, byte).flags),
    {
        proof {
            reveal(wrap16);
        }
        self.registers.set_z_flag(false);
        self.registers.set_n_flag(false);
        proof {
            alu::lemma_word_fields(word);
        }
        if byte >= 0 {
            let abs_value: u16 = byte as u16;
            proof {
                alu::lemma_word_fields(abs_value);
            }
            self.registers.set_h_flag((word & 0xF) + (abs_value & 0xF) > 0xF);
            self.registers.set_c_flag((word & 0xFF) + abs_value > 0xFF);
            word.wrapping_add(abs_value)
        } else {
            let abs_value: u16 = (-(byte as i16)) as u16;
            proof {
                alu::lemma_word_fields(abs_value);
            }
            self.registers.set_h_flag(abs_value & 0xF > word & 0xF);
            self.registers.set_c_flag(abs_value > word & 0xFF);
            word.wrapping_sub(abs_value)
        }
    }

    /// Subtracts `value`, and the carry flag if `with_carry` is set, from
    /// the accumulator.
    pub fn sub(&mut self, value: u8, with_carry: bool)
        ensures
            final(self)@ == old(self)@.accumulate(
                alu::subtract_bytes(old(self)@.regs.a, value, with_carry && old(self)@.regs.f.c),
            ),
    {
        proof {
            reveal(wrap8);
        }
        let current_value: u8 = self.registers.get_a();
        let carry: u8 = if with_carry && self.registers.get_c_flag() {
            1
        } else {
            0
        };
        let new_value: u8 = current_value.wrapping_sub(value).wrapping_sub(carry);
        proof {
            let difference = current_value - value - carry;
            assert(new_value == if difference < 0 {
                difference + 0x100
            } else {
                difference
            });
            alu::lemma_low_nibble(current_value);
            alu::lemma_low_nibble(value);
        }
        self.registers.set_a(new_value);
        self.registers.set_z_flag(new_value == 0);
        self.registers.set_n_flag(true);
        self.registers.set_h_flag(value & 0xF > current_value & 0xF);
        self.registers.set_c_flag((current_value as u16) < value as u16 + carry as u16);
    }

    /// Replaces the accumulator by its bitwise and with `value`.
    pub fn and(&mut self, value: u8)
        ensures
            final(self)@ == old(self)@.accumulate(alu::and(old(self)@.regs.a, value)),
    {
        let result: u8 = self.registers.get_a() & value;
        self.registers.set_a(result);
        self.registers.set_z_flag(result == 0);
        self.registers.set_n_flag(false);
        self.registers.set_h_flag(false);
        self.registers.set_c_flag(false);
    }

    /// Replaces the accumulator by its bitwise or with `value`.
    pub fn or(&mut self, value: u8)
        ensures
            final(self)@ == old(self)@.accumulate(alu::or(old(self)@.regs.a, value)),
    {
        let result: u8 = self.registers.get_a() | value;
        self.registers.set_a(result);
        self.registers.set_z_flag(result == 0);
        self.registers.set_n_flag(false);
        self.registers.set_h_flag(false);
        self.registers.set_c_flag(false);
    }

    /// Replaces the accumulator by its bitwise exclusive or with `value`.
    pub fn xor(&mut self, value: u8)
        ensures
            final(self)@ == old(self)@.accumulate(alu::xor(old(self)@.regs.a, value)),
    {
        let result: u8 = self.registers.get_a() ^ value;
        self.registers.set_a(result);
        self.registers.set_z_flag(result == 0);
        self.registers.set_n_flag(false);
        self.registers.set_h_flag(false);
        self.registers.set_c_flag(false);
    }

    /// Sets the flags as subtracting `value` from the accumulator would, and
    /// leaves the accumulator as it is.
    pub fn compare(&mut self, value: u8)
        ensures
            final(self)@ == old(self)@.with_flags(alu::compare(old(self)@.regs.a, value)),
    {
        proof {
            reveal(wrap8);
        }
        let register_a: u8 = self.registers.get_a();
        proof {
            alu::lemma_low_nibble(register_a);
            alu::lemma_low_nibble(value);
        }
        self.registers.set_z_flag(register_a == value);
        self.registers.set_n_flag(true);
        self.registers.set_h_flag(register_a & 0xF < value & 0xF);
        self.registers.set_c_flag(register_a < value);
    }

    /// Returns `value + 1` and sets Z, N and H for it.
    pub fn increment(&mut self, value: u8) -> (result: u8)
        ensures
            result == alu::increment(value, old(self)@.regs.f).value,
            final(self)@ == old(self)@.with_flags(alu::increment(value, old(self)@.regs.f).flags),
    {
        proof {
            reveal(wrap8);
        }
        let result: u8 = value.wrapping_add(1);
        proof {
            alu::lemma_low_nibble(value);
        }
        self.registers.set_z_flag(result == 0);
        self.registers.set_n_flag(false);
        self.registers.set_h_flag(value & 0xF == 0xF);

        result
    }

    /// Returns `value - 1` and sets Z, N and H for it.
    pub fn decrement(&mut self, value: u8) -> (result: u8)
        ensures
            result == alu::decrement(value, old(self)@.regs.f).value,
            final(self)@ == old(self)@.with_flags(alu::decrement(value, old(self)@.regs.f).flags),
    {
        proof {
            reveal(wrap8);
        }
        let result: u8 = value.wrapping_sub(1);
        proof {
            alu::lemma_low_nibble(value);
        }
        self.registers.set_z_flag(result == 0);
        self.registers.set_n_flag(true);
        self.registers.set_h_flag(value & 0xF == 0);

        result
    }

    /// Adds `value` to HL.
    pub fn add16(&mut self, value: u16)
        ensures
            final(self)@ == old(self)@.add_to_hl(value),
    {
        proof {
            reveal(wrap16);
        }
        let current_value: u16 = self.registers.get_hl();
        let new_value: u16 = current_value.wrapping_add(value);
        proof {
            alu::lemma_word_fields(current_value);
            alu::lemma_word_fields(value);
        }
        let half_carry: bool = (current_value & 0xFFF) + (value & 0xFFF) > 0xFFF;
        let carry: bool = current_value as u32 + value as u32 > 0xFFFF;
        assert(new_value == wrap16(current_value + value));
        assert(half_carry == (current_value % 0x1000 + value % 0x1000 > 0xFFF));
        self.registers.set_hl(new_value);
        self.registers.set_n_flag(false);
        self.registers.set_h_flag(half_carry);
        self.registers.set_c_flag(carry);
    }

    /// Sets the flags after a rotate or shift that moved `carry` out and
    /// left `result`.
    fn set_shift_flags(&mut self, result: u8, carry: bool)
        ensures
            final(self)@ == old(self)@.with_flags(alu::shifted(result, carry).flags),
    {
        self.registers.set_z_flag(result == 0);
        self.registers.set_n_flag(false);
        self.registers.set_h_flag(false);
        self.registers.set_c_flag(carry);
    }

    /// Returns `value` with its nibbles exchanged and sets the flags for it.
    pub fn swap(&mut self, value: u8) -> (result: u8)
        ensures
            result == alu::swap(value).value,
            final(self)@ == old(self)@.with_flags(alu::swap(value).flags),
    {
        proof {
            reveal(wrap8);
        }
        let lower_nibble: u8 = value & 0x0F;
        let upper_nibble: u8 = value >> 4;
        let result: u8 = lower_nibble << 4 | upper_nibble;
        proof {
            alu::lemma_rotations(value, 0);
        }
        self.set_shift_flags(result, false);
        result
    }

    /// Complements the accumulator; sets N and H.
    pub fn complement_a(&mut self)
        ensures
            final(self)@ == old(self)@.complement_accumulator(),
    {
        let value: u8 = self.registers.get_a();
        self.registers.set_a(!value);
        self.registers.set_n_flag(true);
        self.registers.set_h_flag(true);
    }

    /// Sets the carry flag; clears N and H.
    pub fn set_carry_flag(&mut self)
        ensures
            final(self)@ == old(self)@.with_carry(true),
    {
        self.registers.set_n_flag(false);
        self.registers.set_h_flag(false);
        self.registers.set_c_flag(true);
    }

    /// Complements the carry flag; clears N and H.
    pub fn complement_carry_flag(&mut self)
        ensures
            final(self)@ == old(self)@.with_carry(!old(self)@.regs.f.c),
    {
        let value: bool = self.registers.get_c_flag();
        self.registers.set_c_flag(!value);
        self.registers.set_n_flag(false);
        self.registers.set_h_flag(false);
    }

    /// Returns `value` rotated left and sets the flags for it.
    pub fn rlc(&mut self, value: u8) -> (result: u8)
        ensures
            result == alu::rlc(value).value,
            final(self)@ == old(self)@.with_flags(alu::rlc(value).flags),
    {
        proof {
            reveal(wrap8);
        }
        let c: u8 = value >> 7;
        let result: u8 = value << 1 | c;
        proof {
            alu::lemma_byte_fields(value);
            alu::lemma_rotations(value, 0);
        }
        self.set_shift_flags(result, c != 0);
        result
    }

    /// Returns `value` rotated left through the carry flag and sets the
    /// flags for it.
    pub fn rl(&mut self, value: u8) -> (result: u8)
        ensures
            result == alu::rl(value, old(self)@.regs.f.c).value,
            final(self)@ == old(self)@.with_flags(alu::rl(value, old(self)@.regs.f.c).flags),
    {
        proof {
            reveal(wrap8);
        }
        let c: u8 = if self.registers.get_c_flag() {
            1
        } else {
            0
        };
        let result: u8 = value << 1 | c;
        proof {
            alu::lemma_byte_fields(value);
            alu::lemma_rotations(value, c);
        }
        self.set_shift_flags(result, (value >> 7) != 0);
        result
    }

    /// Returns `value` rotated right and sets the flags for it.
    pub fn rrc(&mut self, value: u8) -> (result: u8)
        ensures
            result == alu::rrc(value).value,
            final(self)@ == old(self)@.with_flags(alu::rrc(value).flags),
    {
        proof {
            reveal(wrap8);
        }
        let c: u8 = value & 1;
        let result: u8 = c << 7 | value >> 1;
        proof {
            alu::lemma_byte_fields(value);
            alu::lemma_rotations(value, 0);
        }
        self.set_shift_flags(result, c != 0);
        result
    }

    /// Returns `value` rotated right through the carry flag and sets the
    /// flags for it.
    pub fn rr(&mut self, value: u8) -> (result: u8)
        ensures
            result == alu::rr(value, old(self)@.regs.f.c).value,
            final(self)@ == old(self)@.with_flags(alu::rr(value, old(self)@.regs.f.c).flags),
    {
        proof {
            reveal(wrap8);
        }
        let c: u8 = if self.registers.get_c_flag() {
            1
        } else {
            0
        };
        let result: u8 = c << 7 | value >> 1;
        proof {
            alu::lemma_byte_fields(value);
            alu::lemma_rotations(value, c);
        }
        self.set_shift_flags(result, (value & 1) != 0);
        result
    }

    /// Returns `value` shifted left and sets the flags for it.
    pub fn sla(&mut self, value: u8) -> (result: u8)
        ensures
            result == alu::sla(value).value,
            final(self)@ == old(self)@.with_flags(alu::sla(value).flags),
    {
        proof {
            reveal(wrap8);
        }
        let c: u8 = value >> 7;
        let result: u8 = value << 1;
        proof {
            alu::lemma_byte_fields(value);
            alu::lemma_rotations(value, 0);
        }
        self.set_shift_flags(result, c != 0);
        result
    }

    /// Returns `value` shifted right with its sign kept and sets the flags
    /// for it.
    pub fn sra(&mut self, value: u8) -> (result: u8)
        ensures
            result == alu::sra(value).value,
            final(self)@ == old(self)@.with_flags(alu::sra(value).flags),
    {
        proof {
            reveal(wrap8);
        }
        let c: u8 = value & 1;
        let result: u8 = (value >> 1) | (value & 0b1000_0000);
        proof {
            alu::lemma_byte_fields(value);
            alu::lemma_rotations(value, 0);
        }
        self.set_shift_flags(result, c != 0);
        result
    }

    /// Returns `value` shifted right and sets the flags for it.
    pub fn srl(&mut self, value: u8) -> (result: u8)
        ensures
            result == alu::srl(value).value,
            final(self)@ == old(self)@.with_flags(alu::srl(value).flags),
    {
        proof {
            reveal(wrap8);
        }
        let c: u8 = value & 1;
        let result: u8 = value >> 1;
        proof {
            alu::lemma_byte_fields(value);
        }
        self.set_shift_flags(result, c != 0);
        result
    }

    /// Tests bit `bit` of `value`: Z says that it is zero, N is cleared, H
    /// is set, C stays.
    pub fn bit(&mut self, value: u8, bit: u8)
        requires
            bit < 8,
        ensures
            final(self)@ == old(self)@.with_flags(alu::test_bit(value, bit, old(self)@.regs.f)),
    {
        self.registers.set_z_flag((value & (1u8 << bit)) == 0);
        self.registers.set_n_flag(false);
        self.registers.set_h_flag(true);
    }

    /// `value` with bit `bit` set.
    pub fn set(&self, value: u8, bit: u8) -> (result: u8)
        requires
            bit < 8,
        ensures
            result == alu::set_bit(value, bit),
    {
        value | (1u8 << bit)
    }

    /// `value` with bit `bit` cleared.
    pub fn reset(&self, value: u8, bit: u8) -> (result: u8)
        requires
            bit < 8,
        ensures
            result == alu::clear_bit(value, bit),
    {
        value & !(1u8 << bit)
    }
}

} // verus!
