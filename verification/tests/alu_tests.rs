use emulator_core::alu_adc;
use emulator_core::alu_adc_value;
use emulator_core::alu_add;
use emulator_core::alu_add_value;
use emulator_core::alu_and;
use emulator_core::alu_and_value;
use emulator_core::alu_cp;
use emulator_core::alu_cp_value;
use emulator_core::alu_dec_value;
use emulator_core::alu_inc_value;
use emulator_core::alu_or;
use emulator_core::alu_or_value;
use emulator_core::alu_sbc;
use emulator_core::alu_sbc_value;
use emulator_core::alu_sub;
use emulator_core::alu_sub_value;
use emulator_core::alu_xor;
use emulator_core::alu_xor_value;
use emulator_core::cpl;
use emulator_core::rlca;
use emulator_core::rra;
use emulator_core::rrca;
use emulator_core::scf;
use emulator_core::EightBitRegister;
use emulator_core::Registers;

fn reset_flags(registers: &mut Registers) {
    registers.set_zero_flag(false);
    registers.set_subtract_flag(false);
    registers.set_half_carry_flag(false);
    registers.set_carry_flag(false);
}

fn set_flags(registers: &mut Registers) {
    registers.set_zero_flag(true);
    registers.set_subtract_flag(true);
    registers.set_half_carry_flag(true);
    registers.set_carry_flag(true);
}

#[test]
fn alu_inc_value_basic() {
    let mut registers = Registers::new();

    let value = alu_inc_value(&mut registers, 0x01);

    assert_eq!(value, 0x02);
    assert!(!registers.get_zero_flag());
    assert!(!registers.get_subtract_flag());
    assert!(!registers.get_half_carry_flag());
}

#[test]
fn alu_inc_value_zero_flag_and_carry() {
    let mut registers = Registers::new();
    let value = alu_inc_value(&mut registers, 0xff);

    assert_eq!(value, 0x00);
    assert!(registers.get_zero_flag());
    assert!(!registers.get_subtract_flag());
    assert!(registers.get_half_carry_flag());
}

#[test]
fn alu_operations_alu_inc_half_carry_flag() {
    let mut registers = Registers::new();
    let value = alu_inc_value(&mut registers, 0x0f);

    assert_eq!(value, 0x10);
    assert!(!registers.get_zero_flag());
    assert!(!registers.get_subtract_flag());
    assert!(registers.get_half_carry_flag());
}

#[test]
fn alu_operations_alu_inc_basic() {
    let mut registers = Registers::new();

    let result = alu_inc_value(&mut registers, 0x01);

    assert_eq!(result, 0x02);
    assert_eq!(registers.get_zero_flag(), false);
    assert_eq!(registers.get_subtract_flag(), false);
    assert_eq!(registers.get_half_carry_flag(), false);
}

#[test]
fn alu_inc_zero_flag() {
    let mut registers = Registers::new();

    let result = alu_inc_value(&mut registers, 0xff);

    assert_eq!(result, 0x00);
    assert_eq!(registers.get_zero_flag(), true);
    assert_eq!(registers.get_subtract_flag(), false);
    assert_eq!(registers.get_half_carry_flag(), true);
}

#[test]
fn alu_inc_basic() {
    let mut registers = Registers::new();
    registers.write_eight(EightBitRegister::A, 0x01);

    emulator_core::alu_inc(&mut registers, EightBitRegister::A);

    assert_eq!(registers.read_eight(EightBitRegister::A), 0x02);
    assert!(!registers.get_zero_flag());
    assert!(!registers.get_subtract_flag());
    assert!(!registers.get_half_carry_flag());
}

#[test]
fn alu_dec_value_basic() {
    let mut registers = Registers::new();
    let value = alu_dec_value(&mut registers, 0x01);

    assert_eq!(value, 0x00);
    assert!(registers.get_zero_flag());
    assert!(registers.get_subtract_flag());
    assert!(!registers.get_half_carry_flag());
}

#[test]
fn alu_dec_value_half_carry_flag() {
    let mut registers = Registers::new();
    let value = alu_dec_value(&mut registers, 0x10);

    assert_eq!(value, 0x0f);
    assert!(!registers.get_zero_flag());
    assert!(registers.get_subtract_flag());
    assert!(registers.get_half_carry_flag());
}

#[test]
fn alu_operations_alu_dec_basic() {
    let mut registers = Registers::new();

    let result = alu_dec_value(&mut registers, 0x01);

    assert_eq!(result, 0x00);
    assert_eq!(registers.get_zero_flag(), true);
    assert_eq!(registers.get_subtract_flag(), true);
    assert_eq!(registers.get_half_carry_flag(), false);
}

#[test]
fn alu_dec_half_carry_flag() {
    let mut registers = Registers::new();

    let result = alu_dec_value(&mut registers, 0x10);

    assert_eq!(result, 0x0f);
    assert_eq!(registers.get_zero_flag(), false);
    assert_eq!(registers.get_subtract_flag(), true);
    assert_eq!(registers.get_half_carry_flag(), true);
}

#[test]
fn alu_dec_basic() {
    let mut registers = Registers::new();
    registers.write_eight(EightBitRegister::A, 0x01);

    emulator_core::alu_dec(&mut registers, EightBitRegister::A);

    assert_eq!(registers.read_eight(EightBitRegister::A), 0x00);
    assert!(registers.get_zero_flag());
    assert!(registers.get_subtract_flag());
    assert!(!registers.get_half_carry_flag());
}

#[test]
fn rlca_cycles_bits_and_sets_flags() {
    let mut registers = Registers::new();
    set_flags(&mut registers);
    registers.write_eight(EightBitRegister::A, 0b10001000);

    rlca(&mut registers);
    registers.read_eight(EightBitRegister::A);

    assert_eq!(registers.read_eight(EightBitRegister::A), 0b00010001);
    assert!(!registers.get_zero_flag());
    assert!(!registers.get_subtract_flag());
    assert!(!registers.get_half_carry_flag());
    assert!(registers.get_carry_flag());
}

#[test]
fn alu_operations_rlca_cycles_bits_and_sets_flags() {
    let mut registers = Registers::new();
    registers.write_eight(EightBitRegister::A, 0b10001000);

    rlca(&mut registers);
    let result = registers.read_eight(EightBitRegister::A);

    assert_eq!(result, 0b00010001);
    assert_eq!(registers.get_zero_flag(), false);
    assert_eq!(registers.get_subtract_flag(), false);
    assert_eq!(registers.get_half_carry_flag(), false);
    assert_eq!(registers.get_carry_flag(), true);
}

#[test]
fn rrca_cycles_bits_and_sets_flags() {
    let mut registers = Registers::new();
    set_flags(&mut registers);
    registers.write_eight(EightBitRegister::A, 0b00010001);

    rrca(&mut registers);
    registers.read_eight(EightBitRegister::A);

    assert_eq!(registers.read_eight(EightBitRegister::A), 0b10001000);
    assert!(!registers.get_zero_flag());
    assert!(!registers.get_subtract_flag());
    assert!(!registers.get_half_carry_flag());
    assert!(registers.get_carry_flag());
}

#[test]
fn rra_cycles_bits_and_sets_flags() {
    let mut registers = Registers::new();
    set_flags(&mut registers);
    registers.write_eight(EightBitRegister::A, 0b10001000);
    registers.set_carry_flag(true);

    rra(&mut registers);
    registers.read_eight(EightBitRegister::A);

    assert_eq!(registers.read_eight(EightBitRegister::A), 0b11000100);
    assert!(!registers.get_zero_flag());
    assert!(!registers.get_subtract_flag());
    assert!(!registers.get_half_carry_flag());
    assert!(!registers.get_carry_flag());
}

#[test]
fn cpl_flips_all_bits_and_sets_flags() {
    let mut registers = Registers::new();
    reset_flags(&mut registers);
    registers.write_eight(EightBitRegister::A, 0b10101010);

    cpl(&mut registers);

    assert_eq!(registers.read_eight(EightBitRegister::A), 0b01010101);
    assert!(!registers.get_zero_flag());
    assert!(registers.get_subtract_flag());
    assert!(registers.get_half_carry_flag());
    assert!(!registers.get_carry_flag());
}

#[test]
fn scf_sets_carry_flag() {
    let mut registers = Registers::new();
    reset_flags(&mut registers);

    scf(&mut registers);

    assert!(!registers.get_zero_flag());
    assert!(!registers.get_subtract_flag());
    assert!(!registers.get_half_carry_flag());
    assert!(registers.get_carry_flag());
}

#[test]
fn alu_add_value_basic() {
    let mut registers = Registers::new();
    registers.write_eight(EightBitRegister::A, 0x01);

    alu_add_value(&mut registers, 0x01);

    assert_eq!(registers.read_eight(EightBitRegister::A), 0x02);
    assert!(!registers.get_zero_flag());
    assert!(!registers.get_subtract_flag());
    assert!(!registers.get_half_carry_flag());
    assert!(!registers.get_carry_flag());
}

#[test]
fn alu_add_value_half_carry() {
    let mut registers = Registers::new();
    registers.write_eight(EightBitRegister::A, 0x0f);

    alu_add_value(&mut registers, 0x01);

    assert_eq!(registers.read_eight(EightBitRegister::A), 0x10);
    assert!(!registers.get_zero_flag());
    assert!(!registers.get_subtract_flag());
    assert!(registers.get_half_carry_flag());
    assert!(!registers.get_carry_flag());
}

#[test]
fn alu_add_value_carry() {
    let mut registers = Registers::new();
    registers.write_eight(EightBitRegister::A, 0xff);

    alu_add_value(&mut registers, 0x01);

    assert_eq!(registers.read_eight(EightBitRegister::A), 0x00);
    assert!(registers.get_zero_flag());
    assert!(!registers.get_subtract_flag());
    assert!(registers.get_half_carry_flag());
    assert!(registers.get_carry_flag());
}

#[test]
fn alu_add_basic() {
    let mut registers = Registers::new();
    registers.write_eight(EightBitRegister::A, 0x01);
    registers.write_eight(EightBitRegister::B, 0x01);

    alu_add(&mut registers, EightBitRegister::B);

    assert_eq!(registers.read_eight(EightBitRegister::A), 0x02);
    assert!(!registers.get_zero_flag());
    assert!(!registers.get_subtract_flag());
    assert!(!registers.get_half_carry_flag());
    assert!(!registers.get_carry_flag());
}

#[test]
fn alu_adc_value_basic() {
    let mut registers = Registers::new();
    registers.write_eight(EightBitRegister::A, 0x01);
    registers.set_carry_flag(true);

    alu_adc_value(&mut registers, 0x01);

    assert_eq!(registers.read_eight(EightBitRegister::A), 0x03);
    assert!(!registers.get_zero_flag());
    assert!(!registers.get_subtract_flag());
    assert!(!registers.get_half_carry_flag());
    assert!(!registers.get_carry_flag());
}

#[test]
fn alu_adc_value_half_carry() {
    let mut registers = Registers::new();
    registers.write_eight(EightBitRegister::A, 0x0f);
    registers.set_carry_flag(true);

    alu_adc_value(&mut registers, 0x01);

    assert_eq!(registers.read_eight(EightBitRegister::A), 0x11);
    assert!(!registers.get_zero_flag());
    assert!(!registers.get_subtract_flag());
    assert!(registers.get_half_carry_flag());
    assert!(!registers.get_carry_flag());
}

#[test]
fn alu_adc_value_carry() {
    let mut registers = Registers::new();
    registers.write_eight(EightBitRegister::A, 0xff);
    registers.set_carry_flag(true);

    alu_adc_value(&mut registers, 0x01);

    assert_eq!(registers.read_eight(EightBitRegister::A), 0x01);
    assert!(!registers.get_zero_flag());
    assert!(!registers.get_subtract_flag());
    assert!(registers.get_half_carry_flag());
    assert!(registers.get_carry_flag());
}

#[test]
fn alu_adc_basic() {
    let mut registers = Registers::new();
    registers.write_eight(EightBitRegister::A, 0x01);
    registers.write_eight(EightBitRegister::B, 0x01);
    registers.set_carry_flag(true);

    alu_adc(&mut registers, EightBitRegister::B);

    assert_eq!(registers.read_eight(EightBitRegister::A), 0x03);
    assert!(!registers.get_zero_flag());
    assert!(!registers.get_subtract_flag());
    assert!(!registers.get_half_carry_flag());
    assert!(!registers.get_carry_flag());
}

#[test]
fn alu_sub_value_basic() {
    let mut registers = Registers::new();
    registers.write_eight(EightBitRegister::A, 0x02);

    alu_sub_value(&mut registers, 0x01);

    assert_eq!(registers.read_eight(EightBitRegister::A), 0x01);
    assert!(!registers.get_zero_flag());
    assert!(registers.get_subtract_flag());
    assert!(!registers.get_half_carry_flag());
    assert!(!registers.get_carry_flag());
}

#[test]
fn alu_sub_value_carry_and_half_carry() {
    let mut registers = Registers::new();
    registers.write_eight(EightBitRegister::A, 0x00);

    alu_sub_value(&mut registers, 0x01);

    assert_eq!(registers.read_eight(EightBitRegister::A), 0xff);
    assert!(!registers.get_zero_flag());
    assert!(registers.get_subtract_flag());
    assert!(registers.get_half_carry_flag());
    assert!(registers.get_carry_flag());
}

#[test]
fn alu_sub_basic() {
    let mut registers = Registers::new();
    registers.write_eight(EightBitRegister::A, 0x02);
    registers.write_eight(EightBitRegister::B, 0x01);

    alu_sub(&mut registers, EightBitRegister::B);

    assert_eq!(registers.read_eight(EightBitRegister::A), 0x01);
    assert!(!registers.get_zero_flag());
    assert!(registers.get_subtract_flag());
    assert!(!registers.get_half_carry_flag());
    assert!(!registers.get_carry_flag());
}

#[test]
fn alu_sbc_value_basic() {
    let mut registers = Registers::new();
    registers.write_eight(EightBitRegister::A, 0x02);
    registers.set_carry_flag(true);

    alu_sbc_value(&mut registers, 0x01);

    assert_eq!(registers.read_eight(EightBitRegister::A), 0x00);
    assert!(registers.get_zero_flag());
    assert!(registers.get_subtract_flag());
    assert!(!registers.get_half_carry_flag());
    assert!(!registers.get_carry_flag());
}

#[test]
fn alu_sbc_value_carry_and_half_carry() {
    let mut registers = Registers::new();
    registers.write_eight(EightBitRegister::A, 0x00);
    registers.set_carry_flag(true);

    alu_sbc_value(&mut registers, 0x01);

    assert_eq!(registers.read_eight(EightBitRegister::A), 0xfe);
    assert!(!registers.get_zero_flag());
    assert!(registers.get_subtract_flag());
    assert!(registers.get_half_carry_flag());
    assert!(registers.get_carry_flag());
}

#[test]
fn alu_sbc_basic() {
    let mut registers = Registers::new();
    registers.write_eight(EightBitRegister::A, 0x02);
    registers.write_eight(EightBitRegister::B, 0x01);
    registers.set_carry_flag(true);

    alu_sbc(&mut registers, EightBitRegister::B);

    assert_eq!(registers.read_eight(EightBitRegister::A), 0x00);
    assert!(registers.get_zero_flag());
    assert!(registers.get_subtract_flag());
    assert!(!registers.get_half_carry_flag());
    assert!(!registers.get_carry_flag());
}

#[test]
fn alu_and_value_basic() {
    let mut registers = Registers::new();
    registers.write_eight(EightBitRegister::A, 0b10101010);

    alu_and_value(&mut registers, 0b11001100);

    assert_eq!(registers.read_eight(EightBitRegister::A), 0b10001000);
    assert!(!registers.get_zero_flag());
    assert!(!registers.get_subtract_flag());
    assert!(registers.get_half_carry_flag());
    assert!(!registers.get_carry_flag());
}

#[test]
fn alu_and_basic() {
    let mut registers = Registers::new();
    registers.write_eight(EightBitRegister::A, 0b10101010);
    registers.write_eight(EightBitRegister::B, 0b11001100);

    alu_and(&mut registers, EightBitRegister::B);

    assert_eq!(registers.read_eight(EightBitRegister::A), 0b10001000);
    assert!(!registers.get_zero_flag());
    assert!(!registers.get_subtract_flag());
    assert!(registers.get_half_carry_flag());
    assert!(!registers.get_carry_flag());
}

#[test]
fn alu_or_value_basic() {
    let mut registers = Registers::new();
    registers.write_eight(EightBitRegister::A, 0b10101010);

    alu_or_value(&mut registers, 0b11001100);

    assert_eq!(registers.read_eight(EightBitRegister::A), 0b11101110);
    assert!(!registers.get_zero_flag());
    assert!(!registers.get_subtract_flag());
    assert!(!registers.get_half_carry_flag());
    assert!(!registers.get_carry_flag());
}

#[test]
fn alu_or_basic() {
    let mut registers = Registers::new();
    registers.write_eight(EightBitRegister::A, 0b10101010);
    registers.write_eight(EightBitRegister::B, 0b11001100);

    alu_or(&mut registers, EightBitRegister::B);

    assert_eq!(registers.read_eight(EightBitRegister::A), 0b11101110);
    assert!(!registers.get_zero_flag());
    assert!(!registers.get_subtract_flag());
    assert!(!registers.get_half_carry_flag());
    assert!(!registers.get_carry_flag());
}

#[test]
fn alu_xor_value_basic() {
    let mut registers = Registers::new();
    registers.write_eight(EightBitRegister::A, 0b10101010);

    alu_xor_value(&mut registers, 0b11001100);

    assert_eq!(registers.read_eight(EightBitRegister::A), 0b01100110);
    assert!(!registers.get_zero_flag());
    assert!(!registers.get_subtract_flag());
    assert!(!registers.get_half_carry_flag());
    assert!(!registers.get_carry_flag());
}

#[test]
fn alu_xor_basic() {
    let mut registers = Registers::new();
    registers.write_eight(EightBitRegister::A, 0b10101010);
    registers.write_eight(EightBitRegister::B, 0b11001100);

    alu_xor(&mut registers, EightBitRegister::B);

    assert_eq!(registers.read_eight(EightBitRegister::A), 0b01100110);
    assert!(!registers.get_zero_flag());
    assert!(!registers.get_subtract_flag());
    assert!(!registers.get_half_carry_flag());
    assert!(!registers.get_carry_flag());
}

#[test]
fn alu_cp_value_basic() {
    let mut registers = Registers::new();
    registers.write_eight(EightBitRegister::A, 0x02);

    alu_cp_value(&mut registers, 0x01);

    assert!(!registers.get_zero_flag());
    assert!(registers.get_subtract_flag());
    assert!(!registers.get_half_carry_flag());
    assert!(!registers.get_carry_flag());
}

#[test]
fn alu_cp_basic() {
    let mut registers = Registers::new();
    registers.write_eight(EightBitRegister::A, 0x02);
    registers.write_eight(EightBitRegister::B, 0x01);

    alu_cp(&mut registers, EightBitRegister::B);

    assert!(!registers.get_zero_flag());
    assert!(registers.get_subtract_flag());
    assert!(!registers.get_half_carry_flag());
    assert!(!registers.get_carry_flag());
}
