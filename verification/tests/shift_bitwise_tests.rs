use emulator_core::bit;
use emulator_core::bit_val;
use emulator_core::res;
use emulator_core::res_val;
use emulator_core::rl;
use emulator_core::rl_val;
use emulator_core::rlc;
use emulator_core::rlc_val;
use emulator_core::rr;
use emulator_core::rr_val;
use emulator_core::rrc;
use emulator_core::rrc_val;
use emulator_core::set_val;
use emulator_core::sla;
use emulator_core::sla_val;
use emulator_core::sra;
use emulator_core::sra_val;
use emulator_core::srl;
use emulator_core::srl_val;
use emulator_core::swap;
use emulator_core::swap_value;
use emulator_core::EightBitRegister;
use emulator_core::Registers;

#[test]
fn test_srl_val_basic() {
    let mut registers = Registers::new();
    let value = 0b1010_1010;
    let result = srl_val(&mut registers, value);
    assert_eq!(result, 0b0101_0101);
    assert_eq!(registers.get_carry_flag(), false);
    assert_eq!(registers.get_half_carry_flag(), false);
    assert_eq!(registers.get_subtract_flag(), false);
    assert_eq!(registers.get_zero_flag(), false);
}

#[test]
fn test_srl_val_zero() {
    let mut registers = Registers::new();
    let value = 0b0000_0001;
    let result = srl_val(&mut registers, value);
    assert_eq!(result, 0b0000_0000);
    assert_eq!(registers.get_carry_flag(), true);
    assert_eq!(registers.get_half_carry_flag(), false);
    assert_eq!(registers.get_subtract_flag(), false);
    assert_eq!(registers.get_zero_flag(), true);
}

#[test]
fn test_srl_val_carry() {
    let mut registers = Registers::new();
    let value = 0b0000_0001;
    let result = srl_val(&mut registers, value);
    assert_eq!(result, 0b0000_0000);
    assert_eq!(registers.get_carry_flag(), true);
    assert_eq!(registers.get_half_carry_flag(), false);
    assert_eq!(registers.get_subtract_flag(), false);
    assert_eq!(registers.get_zero_flag(), true);
}

#[test]
fn test_srl_basic() {
    let mut registers = Registers::new();
    registers.write_eight(EightBitRegister::B, 0b1010_1010);
    srl(&mut registers, EightBitRegister::B);
    assert_eq!(registers.read_eight(EightBitRegister::B), 0b0101_0101);
    assert_eq!(registers.get_carry_flag(), false);
    assert_eq!(registers.get_half_carry_flag(), false);
    assert_eq!(registers.get_subtract_flag(), false);
    assert_eq!(registers.get_zero_flag(), false);
}

#[test]
fn test_rr_val_basic() {
    let mut registers = Registers::new();
    let value = 0b1010_1010;
    let result = rr_val(&mut registers, value);
    assert_eq!(result, 0b1101_0101);
    assert_eq!(registers.get_carry_flag(), false);
    assert_eq!(registers.get_half_carry_flag(), false);
    assert_eq!(registers.get_subtract_flag(), false);
    assert_eq!(registers.get_zero_flag(), false);
}

#[test]
fn test_rr_val_carry() {
    let mut registers = Registers::new();
    let value = 0b1010_1010;
    registers.set_carry_flag(true);
    let result = rr_val(&mut registers, value);
    assert_eq!(result, 0b1101_0101);
    assert_eq!(registers.get_carry_flag(), false);
    assert_eq!(registers.get_half_carry_flag(), false);
    assert_eq!(registers.get_subtract_flag(), false);
    assert_eq!(registers.get_zero_flag(), false);
}

#[test]
fn test_rr_val_zero() {
    let mut registers = Registers::new();
    let value = 0b0000_0001;
    registers.set_carry_flag(false);
    let result = rr_val(&mut registers, value);
    assert_eq!(result, 0b0000_0000);
    assert_eq!(registers.get_carry_flag(), true);
    assert_eq!(registers.get_half_carry_flag(), false);
    assert_eq!(registers.get_subtract_flag(), false);
    assert_eq!(registers.get_zero_flag(), true);
}

#[test]
fn test_rr_basic() {
    let mut registers = Registers::new();
    registers.write_eight(EightBitRegister::B, 0b1010_1010);
    rr(&mut registers, EightBitRegister::B);
    assert_eq!(registers.read_eight(EightBitRegister::B), 0b1101_0101);
    assert_eq!(registers.get_carry_flag(), false);
    assert_eq!(registers.get_half_carry_flag(), false);
    assert_eq!(registers.get_subtract_flag(), false);
    assert_eq!(registers.get_zero_flag(), false);
}

#[test]
fn shift_operations_test_srl_val_basic() {
    let mut registers = Registers::new();
    let value = 0b1010_1010;
    let result = srl_val(&mut registers, value);
    assert_eq!(result, 0b0101_0101);
    assert!(!registers.get_carry_flag());
    assert!(!registers.get_half_carry_flag());
    assert!(!registers.get_subtract_flag());
    assert!(!registers.get_zero_flag());
}

#[test]
fn shift_operations_test_srl_val_zero() {
    let mut registers = Registers::new();
    let value = 0b0000_0001;
    let result = srl_val(&mut registers, value);
    assert_eq!(result, 0b0000_0000);
    assert!(registers.get_carry_flag());
    assert!(!registers.get_half_carry_flag());
    assert!(!registers.get_subtract_flag());
    assert!(registers.get_zero_flag());
}

#[test]
fn shift_operations_test_srl_val_carry() {
    let mut registers = Registers::new();
    let value = 0b0000_0001;
    let result = srl_val(&mut registers, value);
    assert_eq!(result, 0b0000_0000);
    assert!(registers.get_carry_flag());
    assert!(!registers.get_half_carry_flag());
    assert!(!registers.get_subtract_flag());
    assert!(registers.get_zero_flag());
}

#[test]
fn shift_operations_test_srl_basic() {
    let mut registers = Registers::new();
    registers.write_eight(EightBitRegister::B, 0b1010_1010);
    srl(&mut registers, EightBitRegister::B);
    assert_eq!(registers.read_eight(EightBitRegister::B), 0b0101_0101);
    assert!(!registers.get_carry_flag());
    assert!(!registers.get_half_carry_flag());
    assert!(!registers.get_subtract_flag());
    assert!(!registers.get_zero_flag());
}

#[test]
fn shift_operations_test_rr_val_basic() {
    let mut registers = Registers::new();
    let value = 0b1010_1010;
    let result = rr_val(&mut registers, value);
    assert_eq!(result, 0b1101_0101);
    assert!(!registers.get_carry_flag());
    assert!(!registers.get_half_carry_flag());
    assert!(!registers.get_subtract_flag());
    assert!(!registers.get_zero_flag());
}

#[test]
fn shift_operations_test_rr_val_carry() {
    let mut registers = Registers::new();
    let value = 0b1010_1010;
    registers.set_carry_flag(true);
    let result = rr_val(&mut registers, value);
    assert_eq!(result, 0b1101_0101);
    assert!(!registers.get_carry_flag());
    assert!(!registers.get_half_carry_flag());
    assert!(!registers.get_subtract_flag());
    assert!(!registers.get_zero_flag());
}

#[test]
fn shift_operations_test_rr_val_zero() {
    let mut registers = Registers::new();
    let value = 0b0000_0001;
    registers.set_carry_flag(false);
    let result = rr_val(&mut registers, value);
    assert_eq!(result, 0b0000_0000);
    assert!(registers.get_carry_flag());
    assert!(!registers.get_half_carry_flag());
    assert!(!registers.get_subtract_flag());
    assert!(registers.get_zero_flag());
}

#[test]
fn shift_operations_test_rr_basic() {
    let mut registers = Registers::new();
    registers.write_eight(EightBitRegister::B, 0b1010_1010);
    rr(&mut registers, EightBitRegister::B);
    assert_eq!(registers.read_eight(EightBitRegister::B), 0b1101_0101);
    assert!(!registers.get_carry_flag());
    assert!(!registers.get_half_carry_flag());
    assert!(!registers.get_subtract_flag());
    assert!(!registers.get_zero_flag());
}

#[test]
fn test_rlc_value_basic() {
    let mut registers = Registers::new();
    let value = 0b1010_1010;
    let result = rlc_val(&mut registers, value);
    assert_eq!(result, 0b0101_0101);
    assert!(registers.get_carry_flag());
    assert!(!registers.get_half_carry_flag());
    assert!(!registers.get_subtract_flag());
    assert!(!registers.get_zero_flag());
}

#[test]
fn test_rlc_value_zero() {
    let mut registers = Registers::new();
    let value = 0b0000_0000;
    let result = rlc_val(&mut registers, value);
    assert_eq!(result, 0b0000_0000);
    assert!(!registers.get_carry_flag());
    assert!(!registers.get_half_carry_flag());
    assert!(!registers.get_subtract_flag());
    assert!(registers.get_zero_flag());
}

#[test]
fn test_rlc_basic() {
    let mut registers = Registers::new();
    registers.write_eight(EightBitRegister::B, 0b1010_1010);
    rlc(&mut registers, EightBitRegister::B);
    assert_eq!(registers.read_eight(EightBitRegister::B), 0b0101_0101);
    assert!(registers.get_carry_flag());
    assert!(!registers.get_half_carry_flag());
    assert!(!registers.get_subtract_flag());
    assert!(!registers.get_zero_flag());
}

#[test]
fn test_rrc_value_basic() {
    let mut registers = Registers::new();
    let value = 0b1010_1001;
    let result = rrc_val(&mut registers, value);
    assert_eq!(result, 0b1101_0100);
    assert!(registers.get_carry_flag());
    assert!(!registers.get_half_carry_flag());
    assert!(!registers.get_subtract_flag());
    assert!(!registers.get_zero_flag());
}

#[test]
fn test_rrc_value_zero() {
    let mut registers = Registers::new();
    let value = 0b0000_0000;
    let result = rrc_val(&mut registers, value);
    assert_eq!(result, 0b0000_0000);
    assert!(!registers.get_carry_flag());
    assert!(!registers.get_half_carry_flag());
    assert!(!registers.get_subtract_flag());
    assert!(registers.get_zero_flag());
}

#[test]
fn test_rrc_basic() {
    let mut registers = Registers::new();
    registers.write_eight(EightBitRegister::B, 0b1010_1001);
    rrc(&mut registers, EightBitRegister::B);
    assert_eq!(registers.read_eight(EightBitRegister::B), 0b1101_0100);
    assert!(registers.get_carry_flag());
    assert!(!registers.get_half_carry_flag());
    assert!(!registers.get_subtract_flag());
    assert!(!registers.get_zero_flag());
}

#[test]
fn test_rl_value_basic() {
    let mut registers = Registers::new();
    let value = 0b1010_1010;
    let result = rl_val(&mut registers, value);
    assert_eq!(result, 0b0101_0101);
    assert!(registers.get_carry_flag());
    assert!(!registers.get_half_carry_flag());
    assert!(!registers.get_subtract_flag());
    assert!(!registers.get_zero_flag());
}

#[test]
fn test_rl_value_zero() {
    let mut registers = Registers::new();
    registers.set_carry_flag(false);
    let value = 0b0000_0000;
    let result = rl_val(&mut registers, value);
    assert_eq!(result, 0b0000_0000);
    assert!(!registers.get_carry_flag());
    assert!(!registers.get_half_carry_flag());
    assert!(!registers.get_subtract_flag());
    assert!(registers.get_zero_flag());
}

#[test]
fn test_rl_basic() {
    let mut registers = Registers::new();
    registers.write_eight(EightBitRegister::B, 0b1010_1010);
    rl(&mut registers, EightBitRegister::B);
    assert_eq!(registers.read_eight(EightBitRegister::B), 0b0101_0101);
    assert!(registers.get_carry_flag());
    assert!(!registers.get_half_carry_flag());
    assert!(!registers.get_subtract_flag());
    assert!(!registers.get_zero_flag());
}

#[test]
fn test_sla_value_basic() {
    let mut registers = Registers::new();
    let value = 0b1010_1010;
    let result = sla_val(&mut registers, value);
    assert_eq!(result, 0b0101_0100);
    assert!(registers.get_carry_flag());
    assert!(!registers.get_half_carry_flag());
    assert!(!registers.get_subtract_flag());
    assert!(!registers.get_zero_flag());
}

#[test]
fn test_sla_value_zero() {
    let mut registers = Registers::new();
    let value = 0b0000_0000;
    let result = sla_val(&mut registers, value);
    assert_eq!(result, 0b0000_0000);
    assert!(!registers.get_carry_flag());
    assert!(!registers.get_half_carry_flag());
    assert!(!registers.get_subtract_flag());
    assert!(registers.get_zero_flag());
}

#[test]
fn test_sla_basic() {
    let mut registers = Registers::new();
    registers.write_eight(EightBitRegister::B, 0b1010_1010);
    sla(&mut registers, EightBitRegister::B);
    assert_eq!(registers.read_eight(EightBitRegister::B), 0b0101_0100);
    assert!(registers.get_carry_flag());
    assert!(!registers.get_half_carry_flag());
    assert!(!registers.get_subtract_flag());
    assert!(!registers.get_zero_flag());
}

#[test]
fn test_sra_value_basic() {
    let mut registers = Registers::new();
    let value = 0b1010_1010;
    let result = sra_val(&mut registers, value);
    assert_eq!(result, 0b1101_0101);
    assert!(!registers.get_carry_flag());
    assert!(!registers.get_half_carry_flag());
    assert!(!registers.get_subtract_flag());
    assert!(!registers.get_zero_flag());
}

#[test]
fn test_sra_value_zero() {
    let mut registers = Registers::new();
    let value = 0b0000_0000;
    let result = sra_val(&mut registers, value);
    assert_eq!(result, 0b0000_0000);
    assert!(!registers.get_carry_flag());
    assert!(!registers.get_half_carry_flag());
    assert!(!registers.get_subtract_flag());
    assert!(registers.get_zero_flag());
}

#[test]
fn test_sra_basic() {
    let mut registers = Registers::new();
    registers.write_eight(EightBitRegister::B, 0b1010_1010);
    sra(&mut registers, EightBitRegister::B);
    assert_eq!(registers.read_eight(EightBitRegister::B), 0b1101_0101);
    assert!(!registers.get_carry_flag());
    assert!(!registers.get_half_carry_flag());
    assert!(!registers.get_subtract_flag());
    assert!(!registers.get_zero_flag());
}

#[test]
fn test_swap_value() {
    let mut reg = Registers::new();
    let value = 0b1010_0110;
    let result = swap_value(&mut reg, value);
    assert_eq!(result, 0b0110_1010);
    assert!(!reg.get_zero_flag());
    assert!(!reg.get_subtract_flag());
    assert!(!reg.get_half_carry_flag());
    assert!(!reg.get_carry_flag());
}

#[test]
fn test_swap_value_zero() {
    let mut reg = Registers::new();
    let value = 0b0000_0000;
    let result = swap_value(&mut reg, value);
    assert_eq!(result, 0b0000_0000);
    assert!(reg.get_zero_flag());
    assert!(!reg.get_subtract_flag());
    assert!(!reg.get_half_carry_flag());
    assert!(!reg.get_carry_flag());
}

#[test]
fn test_swap() {
    let mut reg = Registers::new();
    reg.write_eight(EightBitRegister::B, 0b1110_0110);
    swap(&mut reg, EightBitRegister::B);
    assert_eq!(reg.read_eight(EightBitRegister::B), 0b0110_1110);
    assert!(!reg.get_zero_flag());
    assert!(!reg.get_subtract_flag());
    assert!(!reg.get_half_carry_flag());
    assert!(!reg.get_carry_flag());
}

#[test]
fn test_bit_val_unset() {
    let mut reg = Registers::new();
    let value = 0b1010_1010;
    bit_val(&mut reg, value, 0);
    assert!(reg.get_zero_flag());
    assert!(!reg.get_subtract_flag());
    assert!(reg.get_half_carry_flag());
}

#[test]
fn test_bit_val_set() {
    let mut reg = Registers::new();
    let value = 0b1010_1010;
    bit_val(&mut reg, value, 1);
    assert!(!reg.get_zero_flag());
    assert!(!reg.get_subtract_flag());
    assert!(reg.get_half_carry_flag());
}

#[test]
fn test_bit() {
    let mut reg = Registers::new();
    reg.write_eight(EightBitRegister::B, 0b1010_1010);
    bit(&mut reg, EightBitRegister::B, 0);
    assert!(reg.get_zero_flag());
    assert!(!reg.get_subtract_flag());
    assert!(reg.get_half_carry_flag());
}

#[test]
fn test_res_val_unset_bit() {
    let result = res_val(0b1010_1010, 0);
    assert_eq!(result, 0b1010_1010);
}

#[test]
fn test_res_val_set_bit() {
    let result = res_val(0b1010_1010, 1);
    assert_eq!(result, 0b1010_1000);
}

#[test]
fn test_res() {
    let mut reg = Registers::new();
    reg.write_eight(EightBitRegister::B, 0b1010_1010);
    res(&mut reg, EightBitRegister::B, 1);
    assert_eq!(reg.read_eight(EightBitRegister::B), 0b1010_1000);
}

#[test]
fn test_set_val_unset_bit() {
    let result = set_val(0b1010_1010, 4);
    assert_eq!(result, 0b1011_1010);
}

#[test]
fn test_set_val_set_bit() {
    let result = set_val(0b1010_1010, 1);
    assert_eq!(result, 0b1010_1010 | 0b0000_0010);
}

#[test]
fn test_set() {
    let mut reg = Registers::new();
    reg.write_eight(EightBitRegister::B, 0b1010_1010);
    emulator_core::cpu::bitwise_operations::set(&mut reg, EightBitRegister::B, 1);
    assert_eq!(reg.read_eight(EightBitRegister::B), 0b1010_1010 | 0b0000_0010);
}

#[test]
fn bitwise_operations_test_srl_val_basic() {
    let mut registers = Registers::new();
    let value = 0b1010_1010;
    let result = srl_val(&mut registers, value);
    assert_eq!(result, 0b0101_0101);
    assert_eq!(registers.get_carry_flag(), false);
    assert_eq!(registers.get_half_carry_flag(), false);
    assert_eq!(registers.get_subtract_flag(), false);
    assert_eq!(registers.get_zero_flag(), false);
}

#[test]
fn bitwise_operations_test_srl_val_zero() {
    let mut registers = Registers::new();
    let value = 0b0000_0001;
    let result = srl_val(&mut registers, value);
    assert_eq!(result, 0b0000_0000);
    assert_eq!(registers.get_carry_flag(), true);
    assert_eq!(registers.get_half_carry_flag(), false);
    assert_eq!(registers.get_subtract_flag(), false);
    assert_eq!(registers.get_zero_flag(), true);
}

#[test]
fn bitwise_operations_test_srl_val_carry() {
    let mut registers = Registers::new();
    let value = 0b0000_0001;
    let result = srl_val(&mut registers, value);
    assert_eq!(result, 0b0000_0000);
    assert_eq!(registers.get_carry_flag(), true);
    assert_eq!(registers.get_half_carry_flag(), false);
    assert_eq!(registers.get_subtract_flag(), false);
    assert_eq!(registers.get_zero_flag(), true);
}

#[test]
fn bitwise_operations_test_srl_basic() {
    let mut registers = Registers::new();
    registers.write_eight(EightBitRegister::B, 0b1010_1010);
    srl(&mut registers, EightBitRegister::B);
    assert_eq!(registers.read_eight(EightBitRegister::B), 0b0101_0101);
    assert_eq!(registers.get_carry_flag(), false);
    assert_eq!(registers.get_half_carry_flag(), false);
    assert_eq!(registers.get_subtract_flag(), false);
    assert_eq!(registers.get_zero_flag(), false);
}

#[test]
fn bitwise_operations_test_rr_val_basic() {
    let mut registers = Registers::new();
    let value = 0b1010_1010;
    let result = rr_val(&mut registers, value);
    assert_eq!(result, 0b1101_0101);
    assert_eq!(registers.get_carry_flag(), false);
    assert_eq!(registers.get_half_carry_flag(), false);
    assert_eq!(registers.get_subtract_flag(), false);
    assert_eq!(registers.get_zero_flag(), false);
}

#[test]
fn bitwise_operations_test_rr_val_carry() {
    let mut registers = Registers::new();
    let value = 0b1010_1010;
    registers.set_carry_flag(true);
    let result = rr_val(&mut registers, value);
    assert_eq!(result, 0b1101_0101);
    assert_eq!(registers.get_carry_flag(), false);
    assert_eq!(registers.get_half_carry_flag(), false);
    assert_eq!(registers.get_subtract_flag(), false);
    assert_eq!(registers.get_zero_flag(), false);
}

#[test]
fn bitwise_operations_test_rr_val_zero() {
    let mut registers = Registers::new();
    let value = 0b0000_0001;
    registers.set_carry_flag(false);
    let result = rr_val(&mut registers, value);
    assert_eq!(result, 0b0000_0000);
    assert_eq!(registers.get_carry_flag(), true);
    assert_eq!(registers.get_half_carry_flag(), false);
    assert_eq!(registers.get_subtract_flag(), false);
    assert_eq!(registers.get_zero_flag(), true);
}

#[test]
fn bitwise_operations_test_rr_basic() {
    let mut registers = Registers::new();
    registers.write_eight(EightBitRegister::B, 0b1010_1010);
    rr(&mut registers, EightBitRegister::B);
    assert_eq!(registers.read_eight(EightBitRegister::B), 0b1101_0101);
    assert_eq!(registers.get_carry_flag(), false);
    assert_eq!(registers.get_half_carry_flag(), false);
    assert_eq!(registers.get_subtract_flag(), false);
    assert_eq!(registers.get_zero_flag(), false);
}
