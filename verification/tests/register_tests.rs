use emulator_core::EightBitRegister;
use emulator_core::Registers;
use emulator_core::SixteenBitRegister;

#[test]
fn initialises_with_boot_values() {
    let registers = Registers::new();
    assert_eq!(registers.read_sixteen(SixteenBitRegister::AF), 0x01b0);
    assert_eq!(registers.read_sixteen(SixteenBitRegister::BC), 0x0013);
    assert_eq!(registers.read_sixteen(SixteenBitRegister::DE), 0x00d8);
    assert_eq!(registers.read_sixteen(SixteenBitRegister::HL), 0x014d);
    assert_eq!(registers.read_sixteen(SixteenBitRegister::SP), 0xfffe);
    assert_eq!(registers.read_sixteen(SixteenBitRegister::PC), 0x0100);
}

#[test]
fn eight_bit_read_and_writes() {
    let mut registers = Registers::new();
    registers.write_eight(EightBitRegister::A, 0x12);
    assert_eq!(registers.read_eight(EightBitRegister::A), 0x12);

    registers.write_eight(EightBitRegister::B, 0x34);
    assert_eq!(registers.read_eight(EightBitRegister::B), 0x34);

    registers.write_eight(EightBitRegister::C, 0x56);
    assert_eq!(registers.read_eight(EightBitRegister::C), 0x56);

    registers.write_eight(EightBitRegister::D, 0x78);
    assert_eq!(registers.read_eight(EightBitRegister::D), 0x78);

    registers.write_eight(EightBitRegister::E, 0x9a);
    assert_eq!(registers.read_eight(EightBitRegister::E), 0x9a);

    registers.write_eight(EightBitRegister::H, 0xbc);
    assert_eq!(registers.read_eight(EightBitRegister::H), 0xbc);

    registers.write_eight(EightBitRegister::L, 0xde);
    assert_eq!(registers.read_eight(EightBitRegister::L), 0xde);
}

#[test]
fn sixteen_but_read_and_writes() {
    let mut registers = Registers::new();
    // The low nibble of F always reads zero, also through the AF pair.
    registers.write_sixteen(SixteenBitRegister::AF, 0x1234);
    assert_eq!(registers.read_sixteen(SixteenBitRegister::AF), 0x1230);

    registers.write_sixteen(SixteenBitRegister::BC, 0x5678);
    assert_eq!(registers.read_sixteen(SixteenBitRegister::BC), 0x5678);

    registers.write_sixteen(SixteenBitRegister::DE, 0x9abc);
    assert_eq!(registers.read_sixteen(SixteenBitRegister::DE), 0x9abc);

    registers.write_sixteen(SixteenBitRegister::HL, 0xdef0);
    assert_eq!(registers.read_sixteen(SixteenBitRegister::HL), 0xdef0);

    registers.write_sixteen(SixteenBitRegister::SP, 0x1234);
    assert_eq!(registers.read_sixteen(SixteenBitRegister::SP), 0x1234);

    registers.write_sixteen(SixteenBitRegister::PC, 0x5678);
    assert_eq!(registers.read_sixteen(SixteenBitRegister::PC), 0x5678);
}

#[test]
fn zero_flag() {
    let mut registers = Registers::new();
    registers.set_zero_flag(false);
    assert_eq!(registers.get_zero_flag(), false);
    assert_eq!(registers.read_sixteen(SixteenBitRegister::AF), 0x01b0 & !0x80);

    registers.set_zero_flag(true);
    assert_eq!(registers.get_zero_flag(), true);
    assert_eq!(registers.read_sixteen(SixteenBitRegister::AF), 0x01b0 | 0x80);
}

#[test]
fn subtract_flag() {
    let mut registers = Registers::new();
    registers.set_subtract_flag(true);
    assert_eq!(registers.get_subtract_flag(), true);
    assert_eq!(registers.read_sixteen(SixteenBitRegister::AF), 0x01b0 | 0x40);

    registers.set_subtract_flag(false);
    assert_eq!(registers.get_subtract_flag(), false);
    assert_eq!(registers.read_sixteen(SixteenBitRegister::AF), 0x01b0 & !0x40);
}

#[test]
fn half_carry_flag() {
    let mut registers = Registers::new();
    registers.set_half_carry_flag(true);
    assert_eq!(registers.get_half_carry_flag(), true);
    assert_eq!(registers.read_sixteen(SixteenBitRegister::AF), 0x01b0 | 0x20);

    registers.set_half_carry_flag(false);
    assert_eq!(registers.get_half_carry_flag(), false);
    assert_eq!(registers.read_sixteen(SixteenBitRegister::AF), 0x01b0 & !0x20)
}

#[test]
fn carry_flag() {
    let mut registers = Registers::new();
    registers.set_carry_flag(true);
    assert_eq!(registers.get_carry_flag(), true);
    assert_eq!(registers.read_sixteen(SixteenBitRegister::AF), 0x01b0 | 0x10);

    registers.set_carry_flag(false);
    assert_eq!(registers.get_carry_flag(), false);
    assert_eq!(registers.read_sixteen(SixteenBitRegister::AF), 0x01b0 & !0x10);
}
