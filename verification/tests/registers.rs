use gameboy::registers::Registers;

const BYTE: u8 = 0xDE;
const TWO_BYTES: u16 = 0xDEAD;

#[test]
fn register_a() {
    let mut registers = Registers::new();
    assert_eq!(registers.get_a(), 0x0);
    registers.set_a(BYTE);
    assert_eq!(registers.get_a(), BYTE);
}

#[test]
fn register_b() {
    let mut registers = Registers::new();
    assert_eq!(registers.get_b(), 0x0);
    registers.set_b(BYTE);
    assert_eq!(registers.get_b(), BYTE);
}

#[test]
fn register_c() {
    let mut registers = Registers::new();
    assert_eq!(registers.get_c(), 0x0);
    registers.set_c(BYTE);
    assert_eq!(registers.get_c(), BYTE);
}

#[test]
fn register_d() {
    let mut registers = Registers::new();
    assert_eq!(registers.get_d(), 0x0);
    registers.set_d(BYTE);
    assert_eq!(registers.get_d(), BYTE);
}

#[test]
fn register_e() {
    let mut registers = Registers::new();
    assert_eq!(registers.get_e(), 0x0);
    registers.set_e(BYTE);
    assert_eq!(registers.get_e(), BYTE);
}

#[test]
fn register_h() {
    let mut registers = Registers::new();
    assert_eq!(registers.get_h(), 0x0);
    registers.set_h(BYTE);
    assert_eq!(registers.get_h(), BYTE);
}

#[test]
fn register_l() {
    let mut registers = Registers::new();
    assert_eq!(registers.get_l(), 0x0);
    registers.set_l(BYTE);
    assert_eq!(registers.get_l(), BYTE);
}

#[test]
fn register_bc() {
    let mut registers = Registers::new();
    assert_eq!(registers.get_bc(), 0x0);
    registers.set_bc(TWO_BYTES);
    assert_eq!(registers.get_bc(), TWO_BYTES);

    registers.set_b(0xBE);
    assert_eq!(registers.get_bc(), 0xBEAD);

    registers.set_c(0xEF);
    assert_eq!(registers.get_bc(), 0xBEEF);
}

#[test]
fn register_de() {
    let mut registers = Registers::new();
    assert_eq!(registers.get_de(), 0x0);
    registers.set_de(TWO_BYTES);
    assert_eq!(registers.get_de(), TWO_BYTES);

    registers.set_d(0xBE);
    assert_eq!(registers.get_de(), 0xBEAD);

    registers.set_e(0xEF);
    assert_eq!(registers.get_de(), 0xBEEF);
}

#[test]
fn register_hl() {
    let mut registers = Registers::new();
    assert_eq!(registers.get_hl(), 0x0);
    registers.set_hl(TWO_BYTES);
    assert_eq!(registers.get_hl(), TWO_BYTES);

    registers.set_h(0xBE);
    assert_eq!(registers.get_hl(), 0xBEAD);

    registers.set_l(0xEF);
    assert_eq!(registers.get_hl(), 0xBEEF);
}

#[test]
fn register_f() {
    let mut registers = Registers::new();
    assert_eq!(registers.get_f(), 0b0000_0000);

    registers.set_f(0b1000_0000);
    assert_eq!(registers.get_f(), 0b1000_0000);

    registers.set_f(0b0100_0000);
    assert_eq!(registers.get_f(), 0b0100_0000);

    registers.set_f(0b0010_0000);
    assert_eq!(registers.get_f(), 0b0010_0000);

    registers.set_f(0b0001_0000);
    assert_eq!(registers.get_f(), 0b0001_0000);

    registers.set_f(0b1100_0000);
    assert_eq!(registers.get_f(), 0b1100_0000);

    registers.set_f(0b1110_0000);
    assert_eq!(registers.get_f(), 0b1110_0000);

    registers.set_f(0b1111_0000);
    assert_eq!(registers.get_f(), 0b1111_0000);

    // lower 4 bits are ignored
    registers.set_f(0b1111_1111);
    assert_eq!(registers.get_f(), 0b1111_0000);

    registers.set_z_flag(false);
    assert_eq!(registers.get_f(), 0b0111_0000);
    registers.set_n_flag(false);
    assert_eq!(registers.get_f(), 0b0011_0000);
    registers.set_h_flag(false);
    assert_eq!(registers.get_f(), 0b0001_0000);
    registers.set_c_flag(false);
    assert_eq!(registers.get_f(), 0b0000_0000);
    registers.set_z_flag(true);
    assert_eq!(registers.get_f(), 0b1000_0000);
    registers.set_n_flag(true);
    assert_eq!(registers.get_f(), 0b1100_0000);
    registers.set_h_flag(true);
    assert_eq!(registers.get_f(), 0b1110_0000);
    registers.set_c_flag(true);
    assert_eq!(registers.get_f(), 0b1111_0000);
}

#[test]
fn register_pc() {
    let mut registers = Registers::new();
    assert_eq!(registers.get_pc(), 0x0);
    registers.increment_pc();
    assert_eq!(registers.get_pc(), 0x1);
}

#[test]
fn register_sp() {
    let registers = Registers::new();
    assert_eq!(registers.get_sp(), 0x0);
}

#[test]
fn register_af() {
    let mut registers = Registers::new();
    assert_eq!(registers.get_af(), 0x0);
    registers.set_af(TWO_BYTES);
    // the lower nibble of the flag byte does not exist
    assert_eq!(registers.get_af(), 0xDEA0);
    assert_eq!(registers.get_a(), 0xDE);
    assert_eq!(registers.get_f(), 0xA0);
    assert!(registers.get_z_flag());
    assert!(!registers.get_c_flag());
}

#[test]
fn flag_byte_keeps_the_upper_nibble_of_every_byte() {
    let mut registers = Registers::new();
    for value in 0..=255u8 {
        registers.set_f(value);
        assert_eq!(registers.get_f(), value & 0xF0);
        assert_eq!(registers.get_z_flag(), value & 0x80 != 0);
        assert_eq!(registers.get_c_flag(), value & 0x10 != 0);
    }
}

#[test]
fn pairs_hold_every_word() {
    let mut registers = Registers::new();
    for value in 0..=0xFFFFu16 {
        registers.set_bc(value);
        registers.set_de(value);
        registers.set_hl(value);
        assert_eq!(registers.get_bc(), value);
        assert_eq!(registers.get_de(), value);
        assert_eq!(registers.get_hl(), value);
        assert_eq!(registers.get_b(), (value >> 8) as u8);
        assert_eq!(registers.get_c(), value as u8);
    }
}

#[test]
fn program_counter_wraps() {
    let mut registers = Registers::new();
    registers.set_pc(0xFFFF);
    registers.increment_pc();
    assert_eq!(registers.get_pc(), 0x0000);
    registers.set_pc(0xFFFF);
    assert_eq!(registers.get_and_increment_pc(), 0xFFFF);
    assert_eq!(registers.get_pc(), 0x0000);
}

#[test]
fn stack_pointer_and_hl_wrap() {
    let mut registers = Registers::new();
    registers.decrement_sp();
    assert_eq!(registers.get_sp(), 0xFFFF);
    registers.increment_sp();
    assert_eq!(registers.get_sp(), 0x0000);
    assert_eq!(registers.decrement_hl(), 0x0000);
    assert_eq!(registers.get_hl(), 0xFFFF);
    assert_eq!(registers.increment_hl(), 0xFFFF);
    assert_eq!(registers.get_hl(), 0x0000);
}
