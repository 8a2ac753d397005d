use gameboy::cpu::Cpu;
use gameboy::instruction::{Instruction, TargetRegister16, TargetRegister8};

const Z: u8 = 0b1000_0000;
const N: u8 = 0b0100_0000;
const H: u8 = 0b0010_0000;
const C: u8 = 0b0001_0000;

fn flags(z: bool, n: bool, h: bool, c: bool) -> u8 {
    (if z { Z } else { 0 }) | (if n { N } else { 0 }) | (if h { H } else { 0 }) | (if c { C } else { 0 })
}

/// Runs `opcode` with the accumulator `a`, register B `b` and carry flag
/// `carry`, and returns the accumulator and the flag byte it leaves.
fn run_with_b(cpu: &mut Cpu, opcode: u8, a: u8, b: u8, carry: bool) -> (u8, u8) {
    cpu.registers.set_a(a);
    cpu.registers.set_b(b);
    cpu.registers.set_f(if carry { C } else { 0 });
    let instruction = cpu.decode_opcode(opcode).unwrap();
    cpu.execute_instruction(instruction);
    (cpu.registers.get_a(), cpu.registers.get_f())
}

#[test]
fn add_is_exact_for_all_operands() {
    let mut cpu = Cpu::new();
    for a in 0..=255u8 {
        for b in 0..=255u8 {
            for carry in [false, true] {
                let sum = u16::from(a) + u16::from(b);
                let half = (a & 0xF) + (b & 0xF) > 0xF;
                let expected = (sum as u8, flags(sum as u8 == 0, false, half, sum > 0xFF));
                // ADD A,B does not look at the carry flag
                assert_eq!(run_with_b(&mut cpu, 0x80, a, b, carry), expected);
            }
        }
    }
}

#[test]
fn adc_is_exact_for_all_operands() {
    let mut cpu = Cpu::new();
    for a in 0..=255u8 {
        for b in 0..=255u8 {
            for carry in [false, true] {
                let sum = u16::from(a) + u16::from(b) + u16::from(carry);
                let half = ((a & 0xF) + (b & 0xF)) & 0x10 != 0;
                let expected = (sum as u8, flags(sum as u8 == 0, false, half, sum > 0xFF));
                assert_eq!(run_with_b(&mut cpu, 0x88, a, b, carry), expected);
            }
        }
    }
}

#[test]
fn sub_is_exact_for_all_operands() {
    let mut cpu = Cpu::new();
    for a in 0..=255u8 {
        for b in 0..=255u8 {
            for carry in [false, true] {
                let difference = a.wrapping_sub(b);
                let expected = (difference, flags(difference == 0, true, (b & 0xF) > (a & 0xF), b > a));
                assert_eq!(run_with_b(&mut cpu, 0x90, a, b, carry), expected);
            }
        }
    }
}

#[test]
fn sbc_is_exact_for_all_operands() {
    let mut cpu = Cpu::new();
    for a in 0..=255u8 {
        for b in 0..=255u8 {
            for carry in [false, true] {
                let difference = i16::from(a) - i16::from(b) - i16::from(carry);
                let value = difference as u8;
                let expected = (value, flags(value == 0, true, (b & 0xF) > (a & 0xF), difference < 0));
                assert_eq!(run_with_b(&mut cpu, 0x98, a, b, carry), expected);
            }
        }
    }
}

#[test]
fn logic_is_exact_for_all_operands() {
    let mut cpu = Cpu::new();
    for a in 0..=255u8 {
        for b in 0..=255u8 {
            for carry in [false, true] {
                let and = a & b;
                let or = a | b;
                let xor = a ^ b;
                assert_eq!(run_with_b(&mut cpu, 0xA0, a, b, carry), (and, flags(and == 0, false, false, false)));
                assert_eq!(run_with_b(&mut cpu, 0xB0, a, b, carry), (or, flags(or == 0, false, false, false)));
                assert_eq!(run_with_b(&mut cpu, 0xA8, a, b, carry), (xor, flags(xor == 0, false, false, false)));
            }
        }
    }
}

#[test]
fn cp_is_exact_for_all_operands() {
    let mut cpu = Cpu::new();
    for a in 0..=255u8 {
        for b in 0..=255u8 {
            for carry in [false, true] {
                let expected = (a, flags(a == b, true, (b & 0xF) > (a & 0xF), b > a));
                assert_eq!(run_with_b(&mut cpu, 0xB8, a, b, carry), expected);
                let sub_flags = run_with_b(&mut cpu, 0x90, a, b, carry).1;
                assert_eq!(expected.1, sub_flags);
            }
        }
    }
}

#[test]
fn inc_and_dec_keep_the_carry_for_all_values() {
    let mut cpu = Cpu::new();
    for value in 0..=255u8 {
        for before in [0u8, Z, N, H, C, Z | N | H | C] {
            cpu.registers.set_b(value);
            cpu.registers.set_f(before);
            cpu.execute_instruction(Instruction::Inc8(TargetRegister8::B));
            let up = value.wrapping_add(1);
            assert_eq!(cpu.registers.get_b(), up);
            assert_eq!(
                cpu.registers.get_f(),
                flags(up == 0, false, value & 0xF == 0xF, before & C != 0)
            );

            cpu.registers.set_b(value);
            cpu.registers.set_f(before);
            cpu.execute_instruction(Instruction::Dec8(TargetRegister8::B));
            let down = value.wrapping_sub(1);
            assert_eq!(cpu.registers.get_b(), down);
            assert_eq!(
                cpu.registers.get_f(),
                flags(down == 0, true, value & 0xF == 0, before & C != 0)
            );
        }
    }
}

#[test]
fn inc_a_sets_half_carry_and_keeps_carry() {
    let mut cpu = Cpu::new();
    cpu.registers.set_a(0x0F);
    cpu.registers.set_f(N | H | C);
    let inc_a = cpu.decode_opcode(0x3C).unwrap();
    cpu.execute_instruction(inc_a);
    assert_eq!(cpu.registers.get_a(), 0x10);
    assert_eq!(cpu.registers.get_f(), H | C);
    assert_eq!(cpu.registers.get_f(), 0b0011_0000);
}

#[test]
fn inc_a_leaves_a_clear_carry_clear() {
    let mut cpu = Cpu::new();
    cpu.registers.set_a(0x0F);
    cpu.registers.set_f(N | H);
    let inc_a = cpu.decode_opcode(0x3C).unwrap();
    cpu.execute_instruction(inc_a);
    assert_eq!(cpu.registers.get_a(), 0x10);
    assert_eq!(cpu.registers.get_f(), 0b0010_0000);
}

#[test]
fn adc_of_ff_with_carry_adds_a_whole_byte() {
    let mut cpu = Cpu::new();
    cpu.registers.set_a(0x12);
    cpu.registers.set_f(C);
    cpu.execute_instruction(Instruction::Adc(0xFF));
    assert_eq!(cpu.registers.get_a(), 0x12);
    // 0x2 + 0xF carries out of the low nibble; 0x12 + 0xFF + 1 leaves the byte
    assert_eq!(cpu.registers.get_f(), H | C);
}

#[test]
fn sbc_of_ff_with_carry_takes_a_whole_byte() {
    let mut cpu = Cpu::new();
    cpu.registers.set_a(0x12);
    cpu.registers.set_f(C);
    cpu.execute_instruction(Instruction::Sbc(0xFF));
    assert_eq!(cpu.registers.get_a(), 0x12);
    assert_eq!(cpu.registers.get_f(), N | H | C);
}

#[test]
fn adc_half_carry_looks_at_the_operands_only() {
    let mut cpu = Cpu::new();
    cpu.registers.set_a(0x00);
    cpu.registers.set_f(C);
    cpu.execute_instruction(Instruction::Adc(0x0F));
    assert_eq!(cpu.registers.get_a(), 0x10);
    assert_eq!(cpu.registers.get_f(), 0);
}

#[test]
fn add_hl_is_exact_on_chosen_words() {
    let mut cpu = Cpu::new();
    let words = [0x0000u16, 0x0001, 0x0FFF, 0x1000, 0x7FFF, 0x8000, 0x8888, 0xF000, 0xFFFF];
    for hl in words {
        for value in words {
            for before in [0u8, Z | N | H | C] {
                cpu.registers.set_hl(hl);
                cpu.registers.set_f(before);
                cpu.execute_instruction(Instruction::AddHL(value));
                let sum = u32::from(hl) + u32::from(value);
                assert_eq!(cpu.registers.get_hl(), sum as u16);
                assert_eq!(
                    cpu.registers.get_f(),
                    flags(
                        before & Z != 0,
                        false,
                        (hl & 0xFFF) + (value & 0xFFF) > 0xFFF,
                        sum > 0xFFFF
                    )
                );
            }
        }
    }
}

#[test]
fn add_hl_half_carry_and_carry_are_apart() {
    let mut cpu = Cpu::new();
    cpu.registers.set_hl(0x0FFF);
    cpu.execute_instruction(Instruction::AddHL(0x0001));
    assert_eq!(cpu.registers.get_hl(), 0x1000);
    assert_eq!(cpu.registers.get_f(), H);

    cpu.registers.set_hl(0xF000);
    cpu.execute_instruction(Instruction::AddHL(0x1000));
    assert_eq!(cpu.registers.get_hl(), 0x0000);
    assert_eq!(cpu.registers.get_f(), C);
}

#[test]
fn signed_offset_is_exact_for_all_offsets() {
    let mut cpu = Cpu::new();
    for word in [0x0000u16, 0x000F, 0x0010, 0x00FF, 0x0100, 0x1234, 0x87FF, 0xFF80, 0xFFFF] {
        for offset in i8::MIN..=i8::MAX {
            cpu.registers.set_f(Z | N | H | C);
            let sum = cpu.add_signed_byte_to_word(offset, word);
            assert_eq!(sum, word.wrapping_add(offset as i16 as u16));
            let magnitude = (i16::from(offset)).unsigned_abs();
            let (half, carry) = if offset >= 0 {
                ((word & 0xF) + (magnitude & 0xF) > 0xF, (word & 0xFF) + magnitude > 0xFF)
            } else {
                ((magnitude & 0xF) > (word & 0xF), magnitude > (word & 0xFF))
            };
            assert_eq!(cpu.registers.get_f(), flags(false, false, half, carry));
        }
    }
}

#[test]
fn signed_offset_of_the_most_negative_byte() {
    let mut cpu = Cpu::new();
    let sum = cpu.add_signed_byte_to_word(-128, 0x1234);
    assert_eq!(sum, 0x1234 - 128);
    // magnitude 0x80: low nibble 0 does not exceed 4, 0x80 exceeds 0x34
    assert_eq!(cpu.registers.get_f(), C);
}

#[test]
fn negative_offset_borrows_from_the_low_byte() {
    let mut cpu = Cpu::new();
    let sum = cpu.add_signed_byte_to_word(-1, 0x0100);
    assert_eq!(sum, 0x00FF);
    assert_eq!(cpu.registers.get_f(), H | C);
}

#[test]
fn add_sp_and_ld_hl_sp_read_a_signed_byte() {
    let mut cpu = Cpu::new();
    cpu.registers.set_pc(0x0200);
    cpu.registers.set_sp(0xFFF8);
    cpu.mmu.write_byte(0x0200, 0xFE);
    let ld_hl = cpu.decode_opcode(0xF8).unwrap();
    assert_eq!(cpu.registers.get_pc(), 0x0201);
    cpu.execute_instruction(ld_hl);
    assert_eq!(cpu.registers.get_hl(), 0xFFF6);
    assert_eq!(cpu.registers.get_sp(), 0xFFF8);

    cpu.mmu.write_byte(0x0201, 0x08);
    let add_sp = cpu.decode_opcode(0xE8).unwrap();
    cpu.execute_instruction(add_sp);
    assert_eq!(cpu.registers.get_sp(), 0x0000);
    assert_eq!(cpu.registers.get_f(), H | C);
}

fn shift_case(instruction: Instruction, value: u8, carry: bool) -> (u8, u8) {
    let mut cpu = Cpu::new();
    cpu.registers.set_d(value);
    cpu.registers.set_f(if carry { Z | N | H | C } else { Z | N | H });
    cpu.execute_instruction(instruction);
    (cpu.registers.get_d(), cpu.registers.get_f())
}

#[test]
fn rotates_and_shifts_are_exact_for_all_values() {
    for value in 0..=255u8 {
        for carry in [false, true] {
            let cin = u8::from(carry);
            let d = TargetRegister8::D;
            let result = value.rotate_left(1);
            assert_eq!(
                shift_case(Instruction::Rlc(d), value, carry),
                (result, flags(result == 0, false, false, value & 0x80 != 0))
            );
            let d = TargetRegister8::D;
            let result = value << 1 | cin;
            assert_eq!(
                shift_case(Instruction::Rl(d), value, carry),
                (result, flags(result == 0, false, false, value & 0x80 != 0))
            );
            let d = TargetRegister8::D;
            let result = value.rotate_right(1);
            assert_eq!(
                shift_case(Instruction::Rrc(d), value, carry),
                (result, flags(result == 0, false, false, value & 1 != 0))
            );
            let d = TargetRegister8::D;
            let result = value >> 1 | cin << 7;
            assert_eq!(
                shift_case(Instruction::Rr(d), value, carry),
                (result, flags(result == 0, false, false, value & 1 != 0))
            );
            let d = TargetRegister8::D;
            let result = value << 1;
            assert_eq!(
                shift_case(Instruction::Sla(d), value, carry),
                (result, flags(result == 0, false, false, value & 0x80 != 0))
            );
            let d = TargetRegister8::D;
            let result = ((value as i8) >> 1) as u8;
            assert_eq!(
                shift_case(Instruction::Sra(d), value, carry),
                (result, flags(result == 0, false, false, value & 1 != 0))
            );
            let d = TargetRegister8::D;
            let result = value >> 1;
            assert_eq!(
                shift_case(Instruction::Srl(d), value, carry),
                (result, flags(result == 0, false, false, value & 1 != 0))
            );
            let d = TargetRegister8::D;
            let result = value << 4 | value >> 4;
            assert_eq!(
                shift_case(Instruction::Swap(d), value, carry),
                (result, flags(result == 0, false, false, false))
            );
        }
    }
}

fn target_of(index: u8) -> TargetRegister8 {
    match index {
        0 => TargetRegister8::B,
        1 => TargetRegister8::C,
        2 => TargetRegister8::D,
        3 => TargetRegister8::E,
        4 => TargetRegister8::H,
        5 => TargetRegister8::L,
        6 => TargetRegister8::HL,
        _ => TargetRegister8::A,
    }
}

#[test]
fn bit_sets_h_and_clears_n_for_every_operand_and_bit() {
    let mut cpu = Cpu::new();
    for index in 0..8u8 {
        for bit in 0..8u8 {
            for value in [0x00u8, 0xFF, 1 << bit, !(1 << bit)] {
                for before in [0u8, Z | N | H | C, N, C] {
                    cpu.registers.set_hl(0xC000);
                    cpu.write_target(&target_of(index), value);
                    cpu.registers.set_f(before);
                    let tested = cpu.read_target(&target_of(index));
                    cpu.execute_instruction(Instruction::Bit(target_of(index), bit));
                    assert_eq!(
                        cpu.registers.get_f(),
                        flags(tested & (1 << bit) == 0, false, true, before & C != 0)
                    );
                    assert_eq!(cpu.read_target(&target_of(index)), tested);
                }
            }
        }
    }
}

#[test]
fn res_clears_a_bit_that_is_already_clear() {
    let mut cpu = Cpu::new();
    cpu.registers.set_a(0b1010_1010);
    cpu.registers.set_f(Z | C);
    cpu.execute_instruction(Instruction::Res(TargetRegister8::A, 0));
    assert_eq!(cpu.registers.get_a(), 0b1010_1010);
    cpu.execute_instruction(Instruction::Res(TargetRegister8::A, 1));
    assert_eq!(cpu.registers.get_a(), 0b1010_1000);
    assert_eq!(cpu.registers.get_f(), Z | C);
}

#[test]
fn set_and_res_touch_one_bit_and_no_flag() {
    let mut cpu = Cpu::new();
    for value in 0..=255u8 {
        for bit in 0..8u8 {
            cpu.registers.set_f(Z | H);
            assert_eq!(cpu.set(value, bit), value | 1 << bit);
            assert_eq!(cpu.reset(value, bit), value & !(1 << bit));
            cpu.registers.set_e(value);
            cpu.execute_instruction(Instruction::SetBit(TargetRegister8::E, bit));
            assert_eq!(cpu.registers.get_e(), value | 1 << bit);
            cpu.execute_instruction(Instruction::Res(TargetRegister8::E, bit));
            assert_eq!(cpu.registers.get_e(), value & !(1 << bit));
            assert_eq!(cpu.registers.get_f(), Z | H);
        }
    }
}

#[test]
fn inc16_and_dec16_wrap_and_leave_the_flags() {
    let mut cpu = Cpu::new();
    cpu.registers.set_f(Z | N | H | C);
    cpu.registers.set_bc(0xFFFF);
    cpu.execute_instruction(Instruction::Inc16(TargetRegister16::BC));
    assert_eq!(cpu.registers.get_bc(), 0x0000);
    cpu.registers.set_sp(0x0000);
    cpu.execute_instruction(Instruction::Dec16(TargetRegister16::SP));
    assert_eq!(cpu.registers.get_sp(), 0xFFFF);
    assert_eq!(cpu.registers.get_f(), Z | N | H | C);
}

#[test]
fn cpl_ccf_and_scf_leave_the_zero_flag() {
    let mut cpu = Cpu::new();
    cpu.registers.set_a(0x00);
    cpu.registers.set_f(Z);
    cpu.execute_instruction(Instruction::Cpl);
    assert_eq!(cpu.registers.get_a(), 0xFF);
    assert_eq!(cpu.registers.get_f(), Z | N | H);
    cpu.execute_instruction(Instruction::Scf);
    assert_eq!(cpu.registers.get_f(), Z | C);
    cpu.execute_instruction(Instruction::Ccf);
    assert_eq!(cpu.registers.get_f(), Z);
}
