use emulator_core::call;
use emulator_core::call_c;
use emulator_core::call_nc;
use emulator_core::call_nz;
use emulator_core::call_z;
use emulator_core::create_cartridge;
use emulator_core::ret;
use emulator_core::ret_nz;
use emulator_core::stack_pop;
use emulator_core::stack_push;
use emulator_core::CallResult;
use emulator_core::Joypad;
use emulator_core::ReturnResult;
use emulator_core::SixteenBitRegister;
use emulator_core::CPU;
use emulator_core::MMU;
use emulator_core::PPU;

/// A CPU over a minimal ROM-only cartridge, post-boot.
fn test_cpu() -> CPU {
    let rom = vec![0u8; 0x8000];
    let cartridge = create_cartridge(rom, None);
    let mmu = MMU::new(PPU::new(), cartridge, Joypad::new());
    CPU::new(mmu)
}

#[test]
fn stack_push_and_pop() {
    let mut cpu = test_cpu();
    cpu.registers.write_sixteen(SixteenBitRegister::SP, 0xFFFE);
    stack_push(&mut cpu, 0x1234);
    stack_push(&mut cpu, 0x5678);
    stack_push(&mut cpu, 0x9ABC);
    assert_eq!(stack_pop(&mut cpu), 0x9ABC);
    assert_eq!(stack_pop(&mut cpu), 0x5678);
    assert_eq!(stack_pop(&mut cpu), 0x1234);
}

#[test]
fn call_and_return() {
    let mut cpu = test_cpu();
    cpu.registers.write_sixteen(SixteenBitRegister::PC, 0x1234);
    call(&mut cpu, 0x5678);
    assert_eq!(cpu.registers.read_sixteen(SixteenBitRegister::PC), 0x5678);
    ret(&mut cpu);
    assert_eq!(cpu.registers.read_sixteen(SixteenBitRegister::PC), 0x1234);
}

#[test]
fn call_nz_when_not_zero() {
    let mut cpu = test_cpu();
    cpu.registers.set_zero_flag(false);
    cpu.registers.write_sixteen(SixteenBitRegister::PC, 0x1234);
    let result = call_nz(&mut cpu, 0x5678);
    assert_eq!(result, CallResult::Called);
    assert_eq!(cpu.registers.read_sixteen(SixteenBitRegister::PC), 0x5678);
}

#[test]
fn call_nz_when_zero() {
    let mut cpu = test_cpu();
    cpu.registers.set_zero_flag(true);
    cpu.registers.write_sixteen(SixteenBitRegister::PC, 0x1234);
    let result = call_nz(&mut cpu, 0x5678);
    assert_eq!(result, CallResult::DidNotCall);
    assert_eq!(cpu.registers.read_sixteen(SixteenBitRegister::PC), 0x1234);
}

#[test]
fn call_z_when_zero() {
    let mut cpu = test_cpu();
    cpu.registers.set_zero_flag(true);
    cpu.registers.write_sixteen(SixteenBitRegister::PC, 0x1234);
    let result = call_z(&mut cpu, 0x5678);
    assert_eq!(result, CallResult::Called);
    assert_eq!(cpu.registers.read_sixteen(SixteenBitRegister::PC), 0x5678);
}

#[test]
fn call_z_when_not_zero() {
    let mut cpu = test_cpu();
    cpu.registers.set_zero_flag(false);
    cpu.registers.write_sixteen(SixteenBitRegister::PC, 0x1234);
    let result = call_z(&mut cpu, 0x5678);
    assert_eq!(result, CallResult::DidNotCall);
    assert_eq!(cpu.registers.read_sixteen(SixteenBitRegister::PC), 0x1234);
}

#[test]
fn call_nc_when_not_carry() {
    let mut cpu = test_cpu();
    cpu.registers.set_carry_flag(false);
    cpu.registers.write_sixteen(SixteenBitRegister::PC, 0x1234);
    let result = call_nc(&mut cpu, 0x5678);
    assert_eq!(result, CallResult::Called);
    assert_eq!(cpu.registers.read_sixteen(SixteenBitRegister::PC), 0x5678);
}

#[test]
fn call_nc_when_carry() {
    let mut cpu = test_cpu();
    cpu.registers.set_carry_flag(true);
    cpu.registers.write_sixteen(SixteenBitRegister::PC, 0x1234);
    let result = call_nc(&mut cpu, 0x5678);
    assert_eq!(result, CallResult::DidNotCall);
    assert_eq!(cpu.registers.read_sixteen(SixteenBitRegister::PC), 0x1234);
}

#[test]
fn call_c_when_not_zero() {
    let mut cpu = test_cpu();
    cpu.registers.set_carry_flag(false);
    cpu.registers.write_sixteen(SixteenBitRegister::PC, 0x1234);
    let result = call_c(&mut cpu, 0x5678);
    assert_eq!(result, CallResult::DidNotCall);
    assert_eq!(cpu.registers.read_sixteen(SixteenBitRegister::PC), 0x1234);
}

#[test]
fn call_c_when_zero() {
    let mut cpu = test_cpu();
    cpu.registers.set_carry_flag(true);
    cpu.registers.write_sixteen(SixteenBitRegister::PC, 0x1234);
    let result = call_c(&mut cpu, 0x5678);
    assert_eq!(result, CallResult::Called);
    assert_eq!(cpu.registers.read_sixteen(SixteenBitRegister::PC), 0x5678);
}

#[test]
fn ret_nz_when_not_zero() {
    let mut cpu = test_cpu();
    cpu.registers.set_zero_flag(false);
    cpu.registers.write_sixteen(SixteenBitRegister::PC, 0x1234);
    stack_push(&mut cpu, 0x5678);
    let result = ret_nz(&mut cpu);
    assert_eq!(result, ReturnResult::Returned);
    assert_eq!(cpu.registers.read_sixteen(SixteenBitRegister::PC), 0x5678);
}
