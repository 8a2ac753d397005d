//! The closed set of instruction forms the decoder produces and the executor
//! consumes.
use vstd::prelude::*;

verus! {

/// One decoded instruction with its operands resolved.
///
/// Immediate bytes have been read from the instruction stream, register
/// operands that are only read have been replaced by their values, memory
/// addresses have been computed, and the condition of a conditional form has
/// been tested against the flags.
#[derive(Debug)]
pub enum Instruction {
    /// Set a register to a value.
    Load(LoadRegister, u8),
    /// Store a register at an address.
    LoadToMemory(u16, LoadRegister),
    /// Store a value at an address.
    LoadToMemoryFromMemory(u16, u8),
    /// Set a 16-bit register to a value.
    Load16(TargetRegister16, u16),
    /// Store the stack pointer at an address, low byte first.
    LoadStackPointerToMemory(u16),
    PushStack(StackOperationRegisters),
    PopStack(StackOperationRegisters),
    Add8(u8),
    Adc(u8),
    Sub(u8),
    Sbc(u8),
    And(u8),
    Or(u8),
    Xor(u8),
    Cp(u8),
    Inc8(TargetRegister8),
    Dec8(TargetRegister8),
    Inc16(TargetRegister16),
    Dec16(TargetRegister16),
    /// Add a value to HL.
    AddHL(u16),
    Swap(TargetRegister8),
    Cpl,
    Ccf,
    Scf,
    Nop,
    Rlc(TargetRegister8),
    Rl(TargetRegister8),
    Rrc(TargetRegister8),
    Rr(TargetRegister8),
    Sla(TargetRegister8),
    Sra(TargetRegister8),
    Srl(TargetRegister8),
    /// Test a bit; the second field is the bit's index, 0 to 7.
    Bit(TargetRegister8, u8),
    /// Set a bit; the second field is the bit's index, 0 to 7.
    SetBit(TargetRegister8, u8),
    /// Clear a bit; the second field is the bit's index, 0 to 7.
    Res(TargetRegister8, u8),
    /// Jump to an address.
    Jp(u16),
    /// Jump to an address if the condition held.
    Jpcc(bool, u16),
    /// Jump to the address in HL.
    Jphl,
    /// Jump by a signed displacement.
    Jrn(i8),
    /// Jump by a signed displacement if the condition held.
    Jrcc(bool, i8),
    /// Call the subroutine at an address.
    Call(u16),
    /// Call the subroutine at an address if the condition held.
    Callcc(bool, u16),
    /// Call the subroutine at a restart vector.
    Rst(u8),
    Ret,
    /// Return if the condition held.
    Retcc(bool),
}

/// A byte register that can be loaded or stored.
#[derive(Debug)]
pub enum LoadRegister {
    A,
    B,
    C,
    D,
    E,
    H,
    L,
}

/// A byte an instruction works on in place: a register, or the byte in
/// memory that HL points at.
#[derive(Debug)]
pub enum TargetRegister8 {
    A,
    B,
    C,
    D,
    E,
    H,
    L,
    HL,
}

/// A 16-bit register.
#[derive(Debug)]
pub enum TargetRegister16 {
    BC,
    DE,
    HL,
    SP,
}

/// A register pair that can be pushed and popped.
#[derive(Debug)]
pub enum StackOperationRegisters {
    AF,
    BC,
    DE,
    HL,
}

impl Instruction {
    /// Whether the operands are in range: a bit index is below 8.
    pub open spec fn well_formed(self) -> bool {
        match self {
            Instruction::Bit(_, bit) => bit < 8,
            Instruction::SetBit(_, bit) => bit < 8,
            Instruction::Res(_, bit) => bit < 8,
            _ => true,
        }
    }

    /// Whether this instruction moves a byte or a word between registers, memory and the stack.
    pub open spec fn is_transfer(self) -> bool {
        self is Load || self is LoadToMemory || self is LoadToMemoryFromMemory || self is Load16
            || self is LoadStackPointerToMemory || self is PushStack || self is PopStack
    }

    /// Whether this instruction computes on the accumulator, on a 16-bit register or on the flags.
    pub open spec fn is_arithmetic(self) -> bool {
        self is Add8 || self is Adc || self is Sub || self is Sbc || self is And || self is Or
            || self is Xor || self is Cp || self is Inc16 || self is Dec16 || self is AddHL
            || self is Cpl || self is Ccf || self is Scf || self is Nop
    }

    /// Whether this instruction works on one byte operand in place.
    pub open spec fn is_in_place(self) -> bool {
        self is Inc8 || self is Dec8 || self is Swap || self is Rlc || self is Rl || self is Rrc
            || self is Rr || self is Sla || self is Sra || self is Srl || self is Bit
            || self is SetBit || self is Res
    }

    /// Whether this instruction may change the program counter.
    pub open spec fn is_flow(self) -> bool {
        self is Jp || self is Jpcc || self is Jphl || self is Jrn || self is Jrcc || self is Call
            || self is Callcc || self is Rst || self is Ret || self is Retcc
    }

    /// Tells whether the operands are in range. An instruction that the
    /// decoder produced always is.
    pub fn is_well_formed(&self) -> (answer: bool)
        ensures
            answer == self.well_formed(),
    {
        match self {
            Instruction::Bit(_, bit) => *bit < 8,
            Instruction::SetBit(_, bit) => *bit < 8,
            Instruction::Res(_, bit) => *bit < 8,
            _ => true,
        }
    }
}

} // verus!
