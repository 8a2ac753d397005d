use gameboy::cpu::Cpu;
use gameboy::decode::CpuError;
use gameboy::instruction::{Instruction, StackOperationRegisters};

const UNIMPLEMENTED: [u8; 19] = [
    0x10, 0x27, 0x76, 0xCB, 0xD3, 0xD9, 0xDB, 0xDD, 0xDE, 0xE3, 0xE4, 0xEB, 0xEC, 0xED, 0xF3, 0xF4,
    0xFB, 0xFC, 0xFD,
];

const TWO_OPERAND_BYTES: [u8; 17] = [
    0x01, 0x11, 0x21, 0x31, 0x08, 0xC2, 0xCA, 0xD2, 0xDA, 0xC3, 0xC4, 0xCC, 0xD4, 0xDC, 0xCD, 0xEA,
    0xFA,
];

const ONE_OPERAND_BYTE: [u8; 24] = [
    0x06, 0x0E, 0x16, 0x1E, 0x26, 0x2E, 0x36, 0x3E, 0x18, 0x20, 0x28, 0x30, 0x38, 0xC6, 0xCE, 0xD6,
    0xE6, 0xEE, 0xF6, 0xFE, 0xE0, 0xF0, 0xE8, 0xF8,
];

fn operand_bytes(opcode: u8) -> u16 {
    if TWO_OPERAND_BYTES.contains(&opcode) {
        2
    } else if ONE_OPERAND_BYTE.contains(&opcode) {
        1
    } else {
        0
    }
}

#[test]
fn push_then_pop_gives_every_word_back() {
    let mut cpu = Cpu::new();
    for stack_pointer in [0xFFFEu16, 0x0000, 0x0001, 0x0002, 0x8000] {
        for value in 0..=0xFFFFu16 {
            cpu.registers.set_sp(stack_pointer);
            cpu.push(value);
            assert_eq!(cpu.registers.get_sp(), stack_pointer.wrapping_sub(2));
            assert_eq!(cpu.pop(), value);
            assert_eq!(cpu.registers.get_sp(), stack_pointer);
        }
    }
}

#[test]
fn push_writes_high_byte_first_below_the_stack_pointer() {
    let mut cpu = Cpu::new();
    cpu.registers.set_sp(0xD000);
    cpu.push(0xBEEF);
    assert_eq!(cpu.mmu.read_byte(0xCFFF), 0xBE);
    assert_eq!(cpu.mmu.read_byte(0xCFFE), 0xEF);
    assert_eq!(cpu.registers.get_sp(), 0xCFFE);
}

#[test]
fn push_wraps_below_address_zero() {
    let mut cpu = Cpu::new();
    cpu.registers.set_sp(0x0001);
    cpu.push(0x1234);
    assert_eq!(cpu.mmu.read_byte(0x0000), 0x12);
    assert_eq!(cpu.mmu.read_byte(0xFFFF), 0x34);
    assert_eq!(cpu.registers.get_sp(), 0xFFFF);
    assert_eq!(cpu.pop(), 0x1234);
    assert_eq!(cpu.registers.get_sp(), 0x0001);
}

#[test]
fn pop_af_drops_the_low_nibble() {
    let mut cpu = Cpu::new();
    cpu.registers.set_sp(0xD000);
    cpu.push(0x12FF);
    cpu.execute_instruction(Instruction::PopStack(StackOperationRegisters::AF));
    assert_eq!(cpu.registers.get_af(), 0x12F0);
    assert_eq!(cpu.registers.get_a(), 0x12);
    assert_eq!(cpu.registers.get_f(), 0xF0);
}

#[test]
fn decode_moves_pc_by_the_operand_length_of_every_opcode() {
    let mut cpu = Cpu::new();
    for opcode in 0..=255u8 {
        if UNIMPLEMENTED.contains(&opcode) {
            continue;
        }
        for start in [0x0100u16, 0xFFFE, 0xFFFF] {
            for operand in [0x00u8, 0x7F, 0x80, 0xFF] {
                cpu.mmu.write_byte(start, operand);
                cpu.mmu.write_byte(start.wrapping_add(1), operand);
                cpu.registers.set_pc(start);
                let decoded = cpu.decode_opcode(opcode);
                assert!(decoded.is_ok());
                assert_eq!(cpu.registers.get_pc(), start.wrapping_add(operand_bytes(opcode)));
            }
        }
    }
}

#[test]
fn fetch_moves_pc_by_the_length_of_every_instruction() {
    let mut cpu = Cpu::new();
    for opcode in 0..=255u8 {
        if UNIMPLEMENTED.contains(&opcode) {
            continue;
        }
        cpu.registers.set_pc(0x0100);
        cpu.mmu.write_byte(0x0100, opcode);
        assert!(cpu.fetch().is_ok());
        assert_eq!(cpu.registers.get_pc(), 0x0101 + operand_bytes(opcode));
    }
    for second in 0..=255u8 {
        cpu.registers.set_pc(0x0100);
        cpu.mmu.write_byte(0x0100, 0xCB);
        cpu.mmu.write_byte(0x0101, second);
        assert!(cpu.fetch().is_ok());
        assert_eq!(cpu.registers.get_pc(), 0x0102);
    }
}

#[test]
fn opcodes_without_an_instruction_are_reported() {
    let mut cpu = Cpu::new();
    for opcode in 0..=255u8 {
        cpu.registers.set_pc(0x0100);
        cpu.registers.set_sp(0xD000);
        cpu.registers.set_hl(0xC000);
        cpu.registers.set_f(0xF0);
        let decoded = cpu.decode_opcode(opcode);
        if UNIMPLEMENTED.contains(&opcode) {
            assert!(matches!(decoded, Err(CpuError::UnimplementedOpcode(code)) if code == opcode));
            assert_eq!(cpu.registers.get_pc(), 0x0100);
            assert_eq!(cpu.registers.get_sp(), 0xD000);
            assert_eq!(cpu.registers.get_hl(), 0xC000);
            assert_eq!(cpu.registers.get_f(), 0xF0);
        } else {
            assert!(decoded.is_ok());
        }
    }
}

#[test]
fn step_stops_before_an_opcode_without_an_instruction() {
    let mut cpu = Cpu::new();
    cpu.registers.set_pc(0x0100);
    cpu.mmu.write_byte(0x0100, 0x76);
    assert_eq!(cpu.step(), Err(CpuError::UnimplementedOpcode(0x76)));
    assert_eq!(cpu.registers.get_pc(), 0x0100);
    assert_eq!(cpu.step(), Err(CpuError::UnimplementedOpcode(0x76)));
}

#[test]
fn step_decodes_behind_the_prefix() {
    let mut cpu = Cpu::new();
    cpu.registers.set_pc(0x0100);
    cpu.registers.set_a(0xF1);
    cpu.mmu.write_byte(0x0100, 0xCB);
    cpu.mmu.write_byte(0x0101, 0x37);
    assert_eq!(cpu.step(), Ok(()));
    assert_eq!(cpu.registers.get_a(), 0x1F);
    assert_eq!(cpu.registers.get_pc(), 0x0102);
}

#[test]
fn prefixed_opcodes_all_decode() {
    let mut cpu = Cpu::new();
    for opcode in 0..=255u8 {
        cpu.registers.set_pc(0x0100);
        let instruction = cpu.decode_prefixed_opcode(opcode);
        assert_eq!(cpu.registers.get_pc(), 0x0100);
        let bit = opcode / 8 % 8;
        match instruction {
            Instruction::Bit(_, index) => assert!(opcode / 64 == 1 && index == bit),
            Instruction::Res(_, index) => assert!(opcode / 64 == 2 && index == bit),
            Instruction::SetBit(_, index) => assert!(opcode / 64 == 3 && index == bit),
            _ => assert!(opcode < 0x40),
        }
    }
}

#[test]
fn relative_jump_forward_by_127() {
    let mut cpu = Cpu::new();
    cpu.registers.set_pc(0x1234);
    cpu.mmu.write_byte(0x1234, 0x7F);
    let jr = cpu.decode_opcode(0x18).unwrap();
    assert_eq!(cpu.registers.get_pc(), 0x1235);
    cpu.execute_instruction(jr);
    assert_eq!(cpu.registers.get_pc(), 0x1234 + 1 + 0x7F);
}

#[test]
fn relative_jump_back_by_one() {
    let mut cpu = Cpu::new();
    cpu.registers.set_pc(0x1234);
    cpu.mmu.write_byte(0x1234, 0xFF);
    let jr = cpu.decode_opcode(0x18).unwrap();
    let behind = cpu.registers.get_pc();
    cpu.execute_instruction(jr);
    assert_eq!(cpu.registers.get_pc(), behind - 1);
    assert_eq!(cpu.registers.get_pc(), 0x1234);
}

#[test]
fn relative_jump_back_by_128_and_across_zero() {
    let mut cpu = Cpu::new();
    cpu.registers.set_pc(0x0010);
    cpu.mmu.write_byte(0x0010, 0x80);
    let jr = cpu.decode_opcode(0x18).unwrap();
    cpu.execute_instruction(jr);
    assert_eq!(cpu.registers.get_pc(), 0xFF91);
}

#[test]
fn relative_jump_as_one_step() {
    let mut cpu = Cpu::new();
    cpu.registers.set_pc(0x2000);
    cpu.mmu.write_byte(0x2000, 0x18);
    cpu.mmu.write_byte(0x2001, 0xFE);
    assert_eq!(cpu.step(), Ok(()));
    // a jump by -2 from behind the instruction lands on the instruction
    assert_eq!(cpu.registers.get_pc(), 0x2000);
}

#[test]
fn jp_nz_not_taken_moves_past_the_address() {
    let mut cpu = Cpu::new();
    let old_pc: u16 = 0x0150;
    cpu.registers.set_pc(old_pc);
    cpu.registers.set_z_flag(true);
    cpu.mmu.write_byte(old_pc, 0xC2);
    cpu.mmu.write_byte(old_pc + 1, 0xAD);
    cpu.mmu.write_byte(old_pc + 2, 0xDE);
    assert_eq!(cpu.step(), Ok(()));
    assert_eq!(cpu.registers.get_pc(), old_pc + 3);
}

#[test]
fn branches_not_taken_move_past_the_instruction_only() {
    let cases: [(u8, u8, u16); 16] = [
        (0x20, 0x80, 2),
        (0x28, 0x00, 2),
        (0x30, 0x10, 2),
        (0x38, 0x00, 2),
        (0xC0, 0x80, 1),
        (0xC8, 0x00, 1),
        (0xD0, 0x10, 1),
        (0xD8, 0x00, 1),
        (0xC2, 0x80, 3),
        (0xCA, 0x00, 3),
        (0xD2, 0x10, 3),
        (0xDA, 0x00, 3),
        (0xC4, 0x80, 3),
        (0xCC, 0x00, 3),
        (0xD4, 0x10, 3),
        (0xDC, 0x00, 3),
    ];
    for (opcode, flags, length) in cases {
        let mut cpu = Cpu::new();
        cpu.registers.set_pc(0x0150);
        cpu.registers.set_sp(0xD000);
        cpu.registers.set_f(flags);
        cpu.mmu.write_byte(0x0150, opcode);
        cpu.mmu.write_byte(0x0151, 0x34);
        cpu.mmu.write_byte(0x0152, 0x12);
        assert_eq!(cpu.step(), Ok(()));
        assert_eq!(cpu.registers.get_pc(), 0x0150 + length);
        assert_eq!(cpu.registers.get_sp(), 0xD000);
        assert_eq!(cpu.registers.get_f(), flags);
        assert_eq!(cpu.mmu.read_byte(0xCFFF), 0x00);
        assert_eq!(cpu.mmu.read_byte(0xCFFE), 0x00);
    }
}

#[test]
fn branches_taken_go_where_the_plain_forms_go() {
    let cases: [(u8, u8); 12] = [
        (0x20, 0x00),
        (0x28, 0x80),
        (0x30, 0x00),
        (0x38, 0x10),
        (0xC2, 0x00),
        (0xCA, 0x80),
        (0xD2, 0x00),
        (0xDA, 0x10),
        (0xC4, 0x00),
        (0xCC, 0x80),
        (0xD4, 0x00),
        (0xDC, 0x10),
    ];
    for (opcode, flags) in cases {
        let mut cpu = Cpu::new();
        cpu.registers.set_pc(0x0150);
        cpu.registers.set_sp(0xD000);
        cpu.registers.set_f(flags);
        cpu.mmu.write_byte(0x0150, opcode);
        cpu.mmu.write_byte(0x0151, 0x34);
        cpu.mmu.write_byte(0x0152, 0x12);
        assert_eq!(cpu.step(), Ok(()));
        if opcode < 0x40 {
            assert_eq!(cpu.registers.get_pc(), 0x0152 + 0x34);
        } else {
            assert_eq!(cpu.registers.get_pc(), 0x1234);
        }
        if opcode % 8 == 4 {
            assert_eq!(cpu.registers.get_sp(), 0xCFFE);
            assert_eq!(cpu.pop(), 0x0153);
        } else {
            assert_eq!(cpu.registers.get_sp(), 0xD000);
        }
    }
}

#[test]
fn call_then_ret_continues_behind_the_call() {
    let mut cpu = Cpu::new();
    cpu.registers.set_pc(0x0100);
    cpu.registers.set_sp(0xFFFE);
    cpu.mmu.write_byte(0x0100, 0xCD);
    cpu.mmu.write_byte(0x0101, 0x00);
    cpu.mmu.write_byte(0x0102, 0x40);
    cpu.mmu.write_byte(0x4000, 0xC9);
    assert_eq!(cpu.step(), Ok(()));
    assert_eq!(cpu.registers.get_pc(), 0x4000);
    assert_eq!(cpu.registers.get_sp(), 0xFFFC);
    assert_eq!(cpu.step(), Ok(()));
    assert_eq!(cpu.registers.get_pc(), 0x0103);
    assert_eq!(cpu.registers.get_sp(), 0xFFFE);
}

#[test]
fn call_then_ret_for_chosen_addresses() {
    let mut cpu = Cpu::new();
    for behind in [0x0000u16, 0x0103, 0x7FFF, 0xFFFF] {
        for stack_pointer in [0xFFFEu16, 0x0001, 0xD000] {
            cpu.registers.set_pc(behind);
            cpu.registers.set_sp(stack_pointer);
            cpu.execute_instruction(Instruction::Call(0x4000));
            assert_eq!(cpu.registers.get_pc(), 0x4000);
            cpu.execute_instruction(Instruction::Ret);
            assert_eq!(cpu.registers.get_pc(), behind);
            assert_eq!(cpu.registers.get_sp(), stack_pointer);
        }
    }
}

#[test]
fn restart_goes_to_each_of_the_eight_vectors() {
    let mut cpu = Cpu::new();
    let opcodes = [0xC7u8, 0xCF, 0xD7, 0xDF, 0xE7, 0xEF, 0xF7, 0xFF];
    for (index, opcode) in opcodes.iter().enumerate() {
        cpu.registers.set_pc(0x1234);
        cpu.registers.set_sp(0xD000);
        let rst = cpu.decode_opcode(*opcode).unwrap();
        assert!(matches!(rst, Instruction::Rst(vector) if usize::from(vector) == index * 8));
        cpu.execute_instruction(rst);
        assert_eq!(usize::from(cpu.registers.get_pc()), index * 8);
        assert_eq!(cpu.pop(), 0x1234);
    }
}

#[test]
fn instruction_stream_wraps_behind_the_last_address() {
    let mut cpu = Cpu::new();
    cpu.mmu.write_byte(0xFFFF, 0xCD);
    cpu.mmu.write_byte(0x0000, 0xAB);
    cpu.registers.set_pc(0xFFFF);
    assert_eq!(cpu.next_byte(), 0xCD);
    assert_eq!(cpu.registers.get_pc(), 0x0000);
    cpu.registers.set_pc(0xFFFF);
    assert_eq!(cpu.next_word(), 0xABCD);
    assert_eq!(cpu.registers.get_pc(), 0x0001);
}

#[test]
fn the_last_address_can_be_read_and_written() {
    let mut cpu = Cpu::new();
    assert_eq!(cpu.mmu.read_byte(0xFFFF), 0x00);
    cpu.mmu.write_byte(0xFFFF, 0x5A);
    assert_eq!(cpu.mmu.read_byte(0xFFFF), 0x5A);
    assert_eq!(cpu.mmu.read_byte(0xFFFE), 0x00);
    assert_eq!(cpu.mmu.read_byte(0x0000), 0x00);
}

#[test]
fn stack_pointer_is_stored_low_byte_first_and_wraps() {
    let mut cpu = Cpu::new();
    cpu.registers.set_sp(0xABCD);
    cpu.execute_instruction(Instruction::LoadStackPointerToMemory(0xFFFF));
    assert_eq!(cpu.mmu.read_byte(0xFFFF), 0xCD);
    assert_eq!(cpu.mmu.read_byte(0x0000), 0xAB);
}

#[test]
fn loads_through_the_io_page_add_the_offset_to_the_address() {
    let mut cpu = Cpu::new();
    cpu.mmu.write_byte(0xFF00, 0x11);
    cpu.mmu.write_byte(0xFF42, 0x99);
    cpu.registers.set_c(0x42);
    let load = cpu.decode_opcode(0xF2).unwrap();
    cpu.execute_instruction(load);
    assert_eq!(cpu.registers.get_a(), 0x99);

    cpu.registers.set_a(0x77);
    cpu.registers.set_c(0xFF);
    let store = cpu.decode_opcode(0xE2).unwrap();
    cpu.execute_instruction(store);
    assert_eq!(cpu.mmu.read_byte(0xFFFF), 0x77);

    cpu.registers.set_pc(0x0100);
    cpu.mmu.write_byte(0x0100, 0x42);
    let load = cpu.decode_opcode(0xF0).unwrap();
    cpu.execute_instruction(load);
    assert_eq!(cpu.registers.get_a(), 0x99);
}

#[test]
fn loads_through_hl_move_hl_afterwards_and_wrap() {
    let mut cpu = Cpu::new();
    cpu.mmu.write_byte(0xFFFF, 0x21);
    cpu.registers.set_hl(0xFFFF);
    let load = cpu.decode_opcode(0x2A).unwrap();
    assert_eq!(cpu.registers.get_hl(), 0x0000);
    cpu.execute_instruction(load);
    assert_eq!(cpu.registers.get_a(), 0x21);

    cpu.registers.set_a(0x43);
    let store = cpu.decode_opcode(0x32).unwrap();
    assert_eq!(cpu.registers.get_hl(), 0xFFFF);
    cpu.execute_instruction(store);
    assert_eq!(cpu.mmu.read_byte(0x0000), 0x43);
}

#[test]
fn run_stops_when_pc_leaves_the_first_page() {
    let mut cpu = Cpu::new();
    // NOP; NOP; JP 0x0200
    cpu.mmu.write_byte(0x0002, 0xC3);
    cpu.mmu.write_byte(0x0003, 0x00);
    cpu.mmu.write_byte(0x0004, 0x02);
    assert_eq!(cpu.run(1000), Ok(3));
    assert_eq!(cpu.registers.get_pc(), 0x0200);
}

#[test]
fn run_stops_at_the_limit() {
    let mut cpu = Cpu::new();
    assert_eq!(cpu.run(0), Ok(0));
    assert_eq!(cpu.registers.get_pc(), 0x0000);
    assert_eq!(cpu.run(5), Ok(5));
    assert_eq!(cpu.registers.get_pc(), 0x0005);
    // a jump onto itself never leaves the page
    cpu.mmu.write_byte(0x0005, 0x18);
    cpu.mmu.write_byte(0x0006, 0xFE);
    assert_eq!(cpu.run(100), Ok(100));
    assert_eq!(cpu.registers.get_pc(), 0x0005);
}

#[test]
fn run_reports_the_opcode_it_cannot_decode() {
    let mut cpu = Cpu::new();
    cpu.mmu.write_byte(0x0003, 0xF3);
    assert_eq!(cpu.run(1000), Err(CpuError::UnimplementedOpcode(0xF3)));
    assert_eq!(cpu.registers.get_pc(), 0x0003);
}

#[test]
fn run_always_executes_the_first_instruction_within_the_limit() {
    let mut cpu = Cpu::new();
    cpu.registers.set_pc(0x4000);
    assert_eq!(cpu.run(10), Ok(1));
    assert_eq!(cpu.registers.get_pc(), 0x4001);
}
