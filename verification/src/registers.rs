//! The register file: seven byte registers, four flags, the program counter
//! and the stack pointer.
use vstd::prelude::*;
use crate::bits::{high_byte, low_byte, lower, make_word, upper, word, wrap16};

verus! {

/// The four condition flags.
///
/// Read as a byte they fill the upper nibble: Z is bit 7, N bit 6, H bit 5
/// and C bit 4. The lower nibble of that byte is always zero.
#[derive(Clone, Copy, Debug)]
pub struct FlagRegister {
    /// Zero.
    pub z: bool,
    /// Subtract.
    pub n: bool,
    /// Half carry.
    pub h: bool,
    /// Carry.
    pub c: bool,
}

/// The bit of the flag byte that holds Z.
pub const Z_FLAG_MASK: u8 = 0x80;

/// The bit of the flag byte that holds N.
pub const N_FLAG_MASK: u8 = 0x40;

/// The bit of the flag byte that holds H.
pub const H_FLAG_MASK: u8 = 0x20;

/// The bit of the flag byte that holds C.
pub const C_FLAG_MASK: u8 = 0x10;

/// The flags held in the upper nibble of `value`: each flag is one binary
/// digit of it.
#[verifier::opaque]
pub open spec fn flags_of_byte(value: u8) -> FlagRegister {
    FlagRegister {
        z: value as int / 0x80 % 2 == 1,
        n: value as int / 0x40 % 2 == 1,
        h: value as int / 0x20 % 2 == 1,
        c: value as int / 0x10 % 2 == 1,
    }
}

/// What `flag` adds to the flag byte when it stands at `weight`.
pub open spec fn flag_weight(flag: bool, weight: int) -> int {
    if flag {
        weight
    } else {
        0
    }
}

/// The byte that holds `flags` in its upper nibble and zero below.
#[verifier::opaque]
pub open spec fn byte_of_flags(flags: FlagRegister) -> u8 {
    (flag_weight(flags.z, 0x80) + flag_weight(flags.n, 0x40) + flag_weight(flags.h, 0x20)
        + flag_weight(flags.c, 0x10)) as u8
}

/// Testing a bit of a byte with a mask reads one binary digit of it.
proof fn lemma_masks_read_digits(value: u8)
    by (bit_vector)
    ensures
        (value & 0x80 != 0) == (value / 0x80 % 2 == 1),
        (value & 0x40 != 0) == (value / 0x40 % 2 == 1),
        (value & 0x20 != 0) == (value / 0x20 % 2 == 1),
        (value & 0x10 != 0) == (value / 0x10 % 2 == 1),
{
}

/// Joining bits that lie apart adds them up.
proof fn lemma_masks_add_up(z: u8, n: u8, h: u8, c: u8)
    by (bit_vector)
    requires
        z == 0 || z == 0x80,
        n == 0 || n == 0x40,
        h == 0 || h == 0x20,
        c == 0 || c == 0x10,
    ensures
        z | n | h | c == z + n + h + c,
{
}

impl From<u8> for FlagRegister {
    fn from(value: u8) -> (flags: FlagRegister) {
        proof {
            reveal(flags_of_byte);
            lemma_masks_read_digits(value);
        }
        FlagRegister {
            z: value & Z_FLAG_MASK != 0,
            n: value & N_FLAG_MASK != 0,
            h: value & H_FLAG_MASK != 0,
            c: value & C_FLAG_MASK != 0,
        }
    }
}

impl vstd::std_specs::convert::FromSpecImpl<u8> for FlagRegister {
    open spec fn obeys_from_spec() -> bool {
        true
    }

    open spec fn from_spec(value: u8) -> FlagRegister {
        flags_of_byte(value)
    }
}

impl From<FlagRegister> for u8 {
    fn from(flags: FlagRegister) -> (value: u8) {
        let z: u8 = if flags.z {
            Z_FLAG_MASK
        } else {
            0
        };
        let n: u8 = if flags.n {
            N_FLAG_MASK
        } else {
            0
        };
        let h: u8 = if flags.h {
            H_FLAG_MASK
        } else {
            0
        };
        let c: u8 = if flags.c {
            C_FLAG_MASK
        } else {
            0
        };
        proof {
            reveal(byte_of_flags);
            lemma_masks_add_up(z, n, h, c);
        }
        z | n | h | c
    }
}

impl vstd::std_specs::convert::FromSpecImpl<FlagRegister> for u8 {
    open spec fn obeys_from_spec() -> bool {
        true
    }

    open spec fn from_spec(flags: FlagRegister) -> u8 {
        byte_of_flags(flags)
    }
}

/// The register file as a plain value: what [`Registers`] stands for in
/// contracts.
pub struct RegisterFile {
    pub a: u8,
    pub b: u8,
    pub c: u8,
    pub d: u8,
    pub e: u8,
    pub h: u8,
    pub l: u8,
    pub f: FlagRegister,
    pub pc: u16,
    pub sp: u16,
}

impl RegisterFile {
    /// The register file after a reset: all registers zero, all flags clear.
    pub open spec fn zero() -> RegisterFile {
        RegisterFile {
            a: 0,
            b: 0,
            c: 0,
            d: 0,
            e: 0,
            h: 0,
            l: 0,
            f: FlagRegister { z: false, n: false, h: false, c: false },
            pc: 0,
            sp: 0,
        }
    }

    /// The pair AF: A above the flag byte.
    pub open spec fn af(self) -> u16 {
        word(self.a, byte_of_flags(self.f))
    }

    /// The pair BC, B in the high byte.
    pub open spec fn bc(self) -> u16 {
        word(self.b, self.c)
    }

    /// The pair DE, D in the high byte.
    pub open spec fn de(self) -> u16 {
        word(self.d, self.e)
    }

    /// The pair HL, H in the high byte.
    pub open spec fn hl(self) -> u16 {
        word(self.h, self.l)
    }

    /// This register file with AF replaced by `value`; the lower nibble of
    /// `value` is dropped.
    pub open spec fn with_af(self, value: u16) -> RegisterFile {
        RegisterFile { a: high_byte(value), f: flags_of_byte(low_byte(value)), ..self }
    }

    /// This register file with BC replaced by `value`.
    pub open spec fn with_bc(self, value: u16) -> RegisterFile {
        RegisterFile { b: high_byte(value), c: low_byte(value), ..self }
    }

    /// This register file with DE replaced by `value`.
    pub open spec fn with_de(self, value: u16) -> RegisterFile {
        RegisterFile { d: high_byte(value), e: low_byte(value), ..self }
    }

    /// This register file with HL replaced by `value`.
    pub open spec fn with_hl(self, value: u16) -> RegisterFile {
        RegisterFile { h: high_byte(value), l: low_byte(value), ..self }
    }

    /// This register file with the flags replaced by `flags`.
    pub open spec fn with_flags(self, flags: FlagRegister) -> RegisterFile {
        RegisterFile { f: flags, ..self }
    }

    /// This register file with the program counter moved by `offset`,
    /// wrapping at the ends of the address space.
    pub open spec fn advance_pc(self, offset: int) -> RegisterFile {
        RegisterFile { pc: wrap16(self.pc + offset), ..self }
    }
}

/// The registers of the processor.
pub struct Registers {
    a: u8,
    b: u8,
    c: u8,
    d: u8,
    e: u8,
    h: u8,
    l: u8,
    f: FlagRegister,
    pc: u16,
    sp: u16,
}

impl View for Registers {
    type V = RegisterFile;

    closed spec fn view(&self) -> RegisterFile {
        RegisterFile {
            a: self.a,
            b: self.b,
            c: self.c,
            d: self.d,
            e: self.e,
            h: self.h,
            l: self.l,
            f: self.f,
            pc: self.pc,
            sp: self.sp,
        }
    }
}

impl Registers {
    /// All registers zero, all flags clear.
    pub fn new() -> (registers: Registers)
        ensures
            registers@ == RegisterFile::zero(),
    {
        proof {
            reveal(flags_of_byte);
        }
        Registers {
            a: 0x0,
            b: 0x0,
            c: 0x0,
            d: 0x0,
            e: 0x0,
            h: 0x0,
            l: 0x0,
            f: FlagRegister::from(0x0),
            pc: 0x0,
            sp: 0x0,
        }
    }

    /// The register A.
    pub fn get_a(&self) -> (value: u8)
        ensures
            value == self@.a,
    {
        self.a
    }

    /// Sets the register A and nothing else.
    pub fn set_a(&mut self, value: u8)
        ensures
            final(self)@ == (RegisterFile { a: value, ..old(self)@ }),
    {
        self.a = value;
    }

    /// The register B.
    pub fn get_b(&self) -> (value: u8)
        ensures
            value == self@.b,
    {
        self.b
    }

    /// Sets the register B and nothing else.
    pub fn set_b(&mut self, value: u8)
        ensures
            final(self)@ == (RegisterFile { b: value, ..old(self)@ }),
    {
        self.b = value;
    }

    /// The register C.
    pub fn get_c(&self) -> (value: u8)
        ensures
            value == self@.c,
    {
        self.c
    }

    /// Sets the register C and nothing else.
    pub fn set_c(&mut self, value: u8)
        ensures
            final(self)@ == (RegisterFile { c: value, ..old(self)@ }),
    {
        self.c = value;
    }

    /// The register D.
    pub fn get_d(&self) -> (value: u8)
        ensures
            value == self@.d,
    {
        self.d
    }

    /// Sets the register D and nothing else.
    pub fn set_d(&mut self, value: u8)
        ensures
            final(self)@ == (RegisterFile { d: value, ..old(self)@ }),
    {
        self.d = value;
    }

    /// The register E.
    pub fn get_e(&self) -> (value: u8)
        ensures
            value == self@.e,
    {
        self.e
    }

    /// Sets the register E and nothing else.
    pub fn set_e(&mut self, value: u8)
        ensures
            final(self)@ == (RegisterFile { e: value, ..old(self)@ }),
    {
        self.e = value;
    }

    /// The register H.
    pub fn get_h(&self) -> (value: u8)
        ensures
            value == self@.h,
    {
        self.h
    }

    /// Sets the register H and nothing else.
    pub fn set_h(&mut self, value: u8)
        ensures
            final(self)@ == (RegisterFile { h: value, ..old(self)@ }),
    {
        self.h = value;
    }

    /// The register L.
    pub fn get_l(&self) -> (value: u8)
        ensures
            value == self@.l,
    {
        self.l
    }

    /// Sets the register L and nothing else.
    pub fn set_l(&mut self, value: u8)
        ensures
            final(self)@ == (RegisterFile { l: value, ..old(self)@ }),
    {
        self.l = value;
    }

    /// The flags as a byte: Z, N, H, C in bits 7 to 4, zero below.
    pub fn get_f(&self) -> (value: u8)
        ensures
            value == byte_of_flags(self@.f),
            value % 0x10 == 0,
    {
        proof {
            reveal(byte_of_flags);
        }
        u8::from(self.f)
    }

    /// Sets the flags from bits 7 to 4 of `value`; the lower nibble is
    /// ignored.
    pub fn set_f(&mut self, value: u8)
        ensures
            final(self)@ == old(self)@.with_flags(flags_of_byte(value)),
    {
        self.f = FlagRegister::from(value);
    }

    /// The pair AF: A in the high byte, the flag byte in the low byte.
    pub fn get_af(&self) -> (value: u16)
        ensures
            value == self@.af(),
    {
        make_word(self.a, u8::from(self.f))
    }

    /// Sets A to the high byte of `value` and the flags from bits 7 to 4 of
    /// its low byte.
    pub fn set_af(&mut self, value: u16)
        ensures
            final(self)@ == old(self)@.with_af(value),
    {
        self.a = upper(value);
        self.f = FlagRegister::from(lower(value));
    }

    /// The pair BC: B in the high byte, C in the low byte.
    pub fn get_bc(&self) -> (value: u16)
        ensures
            value == self@.bc(),
    {
        make_word(self.b, self.c)
    }

    /// Sets B to the high byte of `value` and C to its low byte.
    pub fn set_bc(&mut self, value: u16)
        ensures
            final(self)@ == old(self)@.with_bc(value),
            final(self)@.bc() == value,
    {
        self.b = upper(value);
        self.c = lower(value);
    }

    /// The pair DE: D in the high byte, E in the low byte.
    pub fn get_de(&self) -> (value: u16)
        ensures
            value == self@.de(),
    {
        make_word(self.d, self.e)
    }

    /// Sets D to the high byte of `value` and E to its low byte.
    pub fn set_de(&mut self, value: u16)
        ensures
            final(self)@ == old(self)@.with_de(value),
            final(self)@.de() == value,
    {
        self.d = upper(value);
        self.e = lower(value);
    }

    /// The pair HL: H in the high byte, L in the low byte.
    pub fn get_hl(&self) -> (value: u16)
        ensures
            value == self@.hl(),
    {
        make_word(self.h, self.l)
    }

    /// Sets H to the high byte of `value` and L to its low byte.
    pub fn set_hl(&mut self, value: u16)
        ensures
            final(self)@ == old(self)@.with_hl(value),
            final(self)@.hl() == value,
    {
        self.h = upper(value);
        self.l = lower(value);
    }

    /// Sets the zero flag and leaves the other flags as they are.
    pub fn set_z_flag(&mut self, state: bool)
        ensures
            final(self)@ == old(self)@.with_flags(FlagRegister { z: state, ..old(self)@.f }),
    {
        self.f.z = state;
    }

    /// Sets the subtract flag and leaves the other flags as they are.
    pub fn set_n_flag(&mut self, state: bool)
        ensures
            final(self)@ == old(self)@.with_flags(FlagRegister { n: state, ..old(self)@.f }),
    {
        self.f.n = state;
    }

    /// Sets the half-carry flag and leaves the other flags as they are.
    pub fn set_h_flag(&mut self, state: bool)
        ensures
            final(self)@ == old(self)@.with_flags(FlagRegister { h: state, ..old(self)@.f }),
    {
        self.f.h = state;
    }

    /// Sets the carry flag and leaves the other flags as they are.
    pub fn set_c_flag(&mut self, state: bool)
        ensures
            final(self)@ == old(self)@.with_flags(FlagRegister { c: state, ..old(self)@.f }),
    {
        self.f.c = state;
    }

    /// The zero flag.
    pub fn get_z_flag(&self) -> (state: bool)
        ensures
            state == self@.f.z,
    {
        self.f.z
    }

    /// The carry flag.
    pub fn get_c_flag(&self) -> (state: bool)
        ensures
            state == self@.f.c,
    {
        self.f.c
    }

    /// The program counter.
    pub fn get_pc(&self) -> (value: u16)
        ensures
            value == self@.pc,
    {
        self.pc
    }

    /// Sets the program counter.
    pub fn set_pc(&mut self, value: u16)
        ensures
            final(self)@ == (RegisterFile { pc: value, ..old(self)@ }),
    {
        self.pc = value;
    }

    /// Moves the program counter to the next address; after 0xFFFF comes 0.
    pub fn increment_pc(&mut self)
        ensures
            final(self)@ == old(self)@.advance_pc(1),
    {
        proof {
            reveal(wrap16);
        }
        self.pc = self.pc.wrapping_add(1);
    }

    /// Returns the program counter and then moves it to the next address.
    pub fn get_and_increment_pc(&mut self) -> (value: u16)
        ensures
            value == old(self)@.pc,
            final(self)@ == old(self)@.advance_pc(1),
    {
        proof {
            reveal(wrap16);
        }
        let value: u16 = self.pc;
        self.pc = self.pc.wrapping_add(1);
        value
    }

    /// The stack pointer.
    pub fn get_sp(&self) -> (value: u16)
        ensures
            value == self@.sp,
    {
        self.sp
    }

    /// Sets the stack pointer.
    pub fn set_sp(&mut self, value: u16)
        ensures
            final(self)@ == (RegisterFile { sp: value, ..old(self)@ }),
    {
        self.sp = value;
    }

    /// Moves the stack pointer up by one; after 0xFFFF comes 0.
    pub fn increment_sp(&mut self)
        ensures
            final(self)@ == (RegisterFile { sp: wrap16(old(self)@.sp + 1), ..old(self)@ }),
    {
        proof {
            reveal(wrap16);
        }
        self.sp = self.sp.wrapping_add(1);
    }

    /// Moves the stack pointer down by one; before 0 comes 0xFFFF.
    pub fn decrement_sp(&mut self)
        ensures
            final(self)@ == (RegisterFile { sp: wrap16(old(self)@.sp - 1), ..old(self)@ }),
    {
        proof {
            reveal(wrap16);
        }
        self.sp = self.sp.wrapping_sub(1);
    }

    /// Returns HL and then adds one to it, wrapping.
    pub fn increment_hl(&mut self) -> (value: u16)
        ensures
            value == old(self)@.hl(),
            final(self)@ == old(self)@.with_hl(wrap16(old(self)@.hl() + 1)),
    {
        proof {
            reveal(wrap16);
        }
        let value: u16 = self.get_hl();
        self.set_hl(value.wrapping_add(1));
        value
    }

    /// Returns HL and then takes one from it, wrapping.
    pub fn decrement_hl(&mut self) -> (value: u16)
        ensures
            value == old(self)@.hl(),
            final(self)@ == old(self)@.with_hl(wrap16(old(self)@.hl() - 1)),
    {
        proof {
            reveal(wrap16);
        }
        let value: u16 = self.get_hl();
        self.set_hl(value.wrapping_sub(1));
        value
    }
}

} // verus!
