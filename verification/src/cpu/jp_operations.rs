//! Absolute and relative jumps, conditional on the zero and carry flags.
//! Each conditional form reports whether it jumped, so the decoder can
//! charge the taken or the not-taken cycle count.

use crate::cpu::alu_operations::jr;
use crate::cpu::alu_operations::signed_offset;
use crate::registers::Registers;
use crate::registers::SixteenBitRegister;
use vstd::prelude::*;

verus! {

/// Whether a conditional jump was taken.
#[derive(Debug, PartialEq, Eq, Copy, Clone, Structural)]
pub enum JumpResult {
    Jumped,
    DidNotJump,
}

/// The program counter after a relative jump by the signed offset.
pub open spec fn jr_target(r: Registers, value: u8) -> u16 {
    ((r.pc_reg() + signed_offset(value) + 0x10000) % 0x10000) as u16
}

/// JR NZ: relative jump when the zero flag is clear.
pub fn jr_nz(registers: &mut Registers, value: u8) -> (r: JumpResult)
    ensures
        !old(registers).zero_flag() ==> r == JumpResult::Jumped && *final(registers) == (Registers {
            pc: jr_target(*old(registers), value),
            ..*old(registers)
        }),
        old(registers).zero_flag() ==> r == JumpResult::DidNotJump && *final(registers) == *old(
            registers,
        ),
{
    if !registers.get_zero_flag() {
        jr(registers, value);
        JumpResult::Jumped
    } else {
        JumpResult::DidNotJump
    }
}

/// JR Z: relative jump when the zero flag is set.
pub fn jr_z(registers: &mut Registers, value: u8) -> (r: JumpResult)
    ensures
        old(registers).zero_flag() ==> r == JumpResult::Jumped && *final(registers) == (Registers {
            pc: jr_target(*old(registers), value),
            ..*old(registers)
        }),
        !old(registers).zero_flag() ==> r == JumpResult::DidNotJump && *final(registers) == *old(
            registers,
        ),
{
    if registers.get_zero_flag() {
        jr(registers, value);
        JumpResult::Jumped
    } else {
        JumpResult::DidNotJump
    }
}

/// JR NC: relative jump when the carry flag is clear.
pub fn jr_nc(registers: &mut Registers, value: u8) -> (r: JumpResult)
    ensures
        !old(registers).carry_flag() ==> r == JumpResult::Jumped && *final(registers) == (Registers {
            pc: jr_target(*old(registers), value),
            ..*old(registers)
        }),
        old(registers).carry_flag() ==> r == JumpResult::DidNotJump && *final(registers) == *old(
            registers,
        ),
{
    if !registers.get_carry_flag() {
        jr(registers, value);
        JumpResult::Jumped
    } else {
        JumpResult::DidNotJump
    }
}

/// JR C: relative jump when the carry flag is set.
pub fn jr_c(registers: &mut Registers, value: u8) -> (r: JumpResult)
    ensures
        old(registers).carry_flag() ==> r == JumpResult::Jumped && *final(registers) == (Registers {
            pc: jr_target(*old(registers), value),
            ..*old(registers)
        }),
        !old(registers).carry_flag() ==> r == JumpResult::DidNotJump && *final(registers) == *old(
            registers,
        ),
{
    if registers.get_carry_flag() {
        jr(registers, value);
        JumpResult::Jumped
    } else {
        JumpResult::DidNotJump
    }
}

/// JP: set the program counter to the address.
pub fn jp(registers: &mut Registers, address: u16)
    ensures
        *final(registers) == (Registers { pc: address, ..*old(registers) }),
{
    registers.write_sixteen(SixteenBitRegister::PC, address);
}

/// JP NZ: absolute jump when the zero flag is clear.
pub fn jp_nz(registers: &mut Registers, address: u16) -> (r: JumpResult)
    ensures
        !old(registers).zero_flag() ==> r == JumpResult::Jumped && *final(registers) == (Registers {
            pc: address,
            ..*old(registers)
        }),
        old(registers).zero_flag() ==> r == JumpResult::DidNotJump && *final(registers) == *old(
            registers,
        ),
{
    if !registers.get_zero_flag() {
        jp(registers, address);
        JumpResult::Jumped
    } else {
        JumpResult::DidNotJump
    }
}

/// JP Z: absolute jump when the zero flag is set.
pub fn jp_z(registers: &mut Registers, address: u16) -> (r: JumpResult)
    ensures
        old(registers).zero_flag() ==> r == JumpResult::Jumped && *final(registers) == (Registers {
            pc: address,
            ..*old(registers)
        }),
        !old(registers).zero_flag() ==> r == JumpResult::DidNotJump && *final(registers) == *old(
            registers,
        ),
{
    if registers.get_zero_flag() {
        jp(registers, address);
        JumpResult::Jumped
    } else {
        JumpResult::DidNotJump
    }
}

/// JP NC: absolute jump when the carry flag is clear.
pub fn jp_nc(registers: &mut Registers, address: u16) -> (r: JumpResult)
    ensures
        !old(registers).carry_flag() ==> r == JumpResult::Jumped && *final(registers) == (Registers {
            pc: address,
            ..*old(registers)
        }),
        old(registers).carry_flag() ==> r == JumpResult::DidNotJump && *final(registers) == *old(
            registers,
        ),
{
    if !registers.get_carry_flag() {
        jp(registers, address);
        JumpResult::Jumped
    } else {
        JumpResult::DidNotJump
    }
}

/// JP C: absolute jump when the carry flag is set.
pub fn jp_c(registers: &mut Registers, address: u16) -> (r: JumpResult)
    ensures
        old(registers).carry_flag() ==> r == JumpResult::Jumped && *final(registers) == (Registers {
            pc: address,
            ..*old(registers)
        }),
        !old(registers).carry_flag() ==> r == JumpResult::DidNotJump && *final(registers) == *old(
            registers,
        ),
{
    if registers.get_carry_flag() {
        jp(registers, address);
        JumpResult::Jumped
    } else {
        JumpResult::DidNotJump
    }
}

} // verus!
