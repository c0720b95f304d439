//! The CB-prefixed rotate and shift family: RLC, RRC, RL, RR, SLA, SRA and
//! SRL, on plain values and on registers. Unlike the accumulator rotates,
//! these set Z from the result.

use crate::registers::EightBitRegister;
use crate::registers::Registers;
use vstd::prelude::*;

verus! {

/// SRL: logical shift right; bit 0 lands in the carry, N and H clear.
pub fn srl_val(registers: &mut Registers, value: u8) -> (r: u8)
    ensures
        r == value >> 1,
        *final(registers) == (Registers {
            zf: value >> 1 == 0,
            nf: false,
            hf: false,
            cf: value & 1 == 1,
            ..*old(registers)
        }),
{
    let carry = value & 0b0000_0001 == 0b0000_0001;

    let result = value >> 1u8;
    registers.set_carry_flag(carry);
    registers.set_half_carry_flag(false);
    registers.set_subtract_flag(false);
    registers.set_zero_flag(result == 0);

    result
}

/// SRL on a register.
pub fn srl(registers: &mut Registers, reg: EightBitRegister)
    ensures
        *final(registers) == ({
            let v = old(registers).spec_eight(reg);
            (Registers {
                zf: v >> 1 == 0,
                nf: false,
                hf: false,
                cf: v & 1 == 1,
                ..*old(registers)
            }).spec_write_eight(reg, v >> 1)
        }),
{
    let value = registers.read_eight(reg);
    let result = srl_val(registers, value);
    registers.write_eight(reg, result);
}

/// The byte RR produces: the value shifted right with the old carry entering
/// bit 7.
pub open spec fn spec_rr(value: u8, carry_in: bool) -> u8 {
    if carry_in {
        (value >> 1u8) | 0b1000_0000u8
    } else {
        value >> 1u8
    }
}

/// RR: rotate right through the carry; bit 0 lands in the carry, N and H
/// clear, Z tracks the result.
pub fn rr_val(registers: &mut Registers, value: u8) -> (r: u8)
    ensures
        r == spec_rr(value, old(registers).carry_flag()),
        *final(registers) == (Registers {
            zf: spec_rr(value, old(registers).carry_flag()) == 0,
            nf: false,
            hf: false,
            cf: value & 1 == 1,
            ..*old(registers)
        }),
{
    let carry = value & 0b0000_0001 == 0b0000_0001;

    let mut result = value >> 1u8;
    if registers.get_carry_flag() {
        result = result | 0b1000_0000;
    }

    registers.set_carry_flag(carry);
    registers.set_half_carry_flag(false);
    registers.set_subtract_flag(false);
    registers.set_zero_flag(result == 0);

    result
}

/// RR on a register.
pub fn rr(registers: &mut Registers, reg: EightBitRegister)
    ensures
        *final(registers) == ({
            let v = old(registers).spec_eight(reg);
            let r = spec_rr(v, old(registers).carry_flag());
            (Registers {
                zf: r == 0,
                nf: false,
                hf: false,
                cf: v & 1 == 1,
                ..*old(registers)
            }).spec_write_eight(reg, r)
        }),
{
    let value = registers.read_eight(reg);
    let result = rr_val(registers, value);
    registers.write_eight(reg, result);
}

/// RLC: rotate left; bit 7 lands in both bit 0 and the carry, N and H clear,
/// Z tracks the result.
pub fn rlc_val(registers: &mut Registers, value: u8) -> (r: u8)
    ensures
        r == (value << 1) | (value >> 7),
        *final(registers) == (Registers {
            zf: (value << 1) | (value >> 7) == 0,
            nf: false,
            hf: false,
            cf: value & 0x80 == 0x80,
            ..*old(registers)
        }),
{
    let carry = value & 0b1000_0000 == 0b1000_0000;

    let result = value << 1u8 | (value >> 7u8);
    registers.set_carry_flag(carry);
    registers.set_half_carry_flag(false);
    registers.set_subtract_flag(false);
    registers.set_zero_flag(result == 0);

    result
}

/// RLC on a register.
pub fn rlc(registers: &mut Registers, reg: EightBitRegister)
    ensures
        *final(registers) == ({
            let v = old(registers).spec_eight(reg);
            (Registers {
                zf: (v << 1) | (v >> 7) == 0,
                nf: false,
                hf: false,
                cf: v & 0x80 == 0x80,
                ..*old(registers)
            }).spec_write_eight(reg, (v << 1) | (v >> 7))
        }),
{
    let value = registers.read_eight(reg);
    let result = rlc_val(registers, value);
    registers.write_eight(reg, result);
}

/// RRC: rotate right; bit 0 lands in both bit 7 and the carry, N and H
/// clear, Z tracks the result.
pub fn rrc_val(registers: &mut Registers, value: u8) -> (r: u8)
    ensures
        r == (value >> 1) | (value << 7),
        *final(registers) == (Registers {
            zf: (value >> 1) | (value << 7) == 0,
            nf: false,
            hf: false,
            cf: value & 1 == 1,
            ..*old(registers)
        }),
{
    let carry = value & 0b0000_0001 == 0b0000_0001;

    let result = value >> 1u8 | (value << 7u8);
    registers.set_carry_flag(carry);
    registers.set_half_carry_flag(false);
    registers.set_subtract_flag(false);
    registers.set_zero_flag(result == 0);

    result
}

/// RRC on a register.
pub fn rrc(registers: &mut Registers, reg: EightBitRegister)
    ensures
        *final(registers) == ({
            let v = old(registers).spec_eight(reg);
            (Registers {
                zf: (v >> 1) | (v << 7) == 0,
                nf: false,
                hf: false,
                cf: v & 1 == 1,
                ..*old(registers)
            }).spec_write_eight(reg, (v >> 1) | (v << 7))
        }),
{
    let value = registers.read_eight(reg);
    let result = rrc_val(registers, value);
    registers.write_eight(reg, result);
}

/// The byte RL produces: the value shifted left with the old carry entering
/// bit 0.
pub open spec fn spec_rl(value: u8, carry_in: bool) -> u8 {
    if carry_in {
        (value << 1u8) | 1u8
    } else {
        value << 1u8
    }
}

/// RL: rotate left through the carry; bit 7 lands in the carry, N and H
/// clear, Z tracks the result.
pub fn rl_val(registers: &mut Registers, value: u8) -> (r: u8)
    ensures
        r == spec_rl(value, old(registers).carry_flag()),
        *final(registers) == (Registers {
            zf: spec_rl(value, old(registers).carry_flag()) == 0,
            nf: false,
            hf: false,
            cf: value & 0x80 == 0x80,
            ..*old(registers)
        }),
{
    let carry = value & 0b1000_0000 == 0b1000_0000;

    let result: u8 = if registers.get_carry_flag() {
        (value << 1u8) | 0b0000_0001
    } else {
        value << 1u8
    };
    registers.set_carry_flag(carry);
    registers.set_half_carry_flag(false);
    registers.set_subtract_flag(false);
    registers.set_zero_flag(result == 0);

    result
}

/// RL on a register.
pub fn rl(registers: &mut Registers, reg: EightBitRegister)
    ensures
        *final(registers) == ({
            let v = old(registers).spec_eight(reg);
            let r = spec_rl(v, old(registers).carry_flag());
            (Registers {
                zf: r == 0,
                nf: false,
                hf: false,
                cf: v & 0x80 == 0x80,
                ..*old(registers)
            }).spec_write_eight(reg, r)
        }),
{
    let value = registers.read_eight(reg);
    let result = rl_val(registers, value);
    registers.write_eight(reg, result);
}

/// SLA: arithmetic shift left; bit 7 lands in the carry, N and H clear.
pub fn sla_val(registers: &mut Registers, value: u8) -> (r: u8)
    ensures
        r == value << 1,
        *final(registers) == (Registers {
            zf: value << 1 == 0,
            nf: false,
            hf: false,
            cf: value & 0x80 == 0x80,
            ..*old(registers)
        }),
{
    let carry = value & 0b1000_0000 == 0b1000_0000;

    let result = value << 1u8;
    registers.set_carry_flag(carry);
    registers.set_half_carry_flag(false);
    registers.set_subtract_flag(false);
    registers.set_zero_flag(result == 0);

    result
}

/// SLA on a register.
pub fn sla(registers: &mut Registers, reg: EightBitRegister)
    ensures
        *final(registers) == ({
            let v = old(registers).spec_eight(reg);
            (Registers {
                zf: v << 1 == 0,
                nf: false,
                hf: false,
                cf: v & 0x80 == 0x80,
                ..*old(registers)
            }).spec_write_eight(reg, v << 1)
        }),
{
    let value = registers.read_eight(reg);
    let result = sla_val(registers, value);
    registers.write_eight(reg, result);
}

/// SRA: arithmetic shift right; bit 7 is kept, bit 0 lands in the carry, N
/// and H clear.
pub fn sra_val(registers: &mut Registers, value: u8) -> (r: u8)
    ensures
        r == (value >> 1) | (value & 0x80),
        *final(registers) == (Registers {
            zf: (value >> 1) | (value & 0x80) == 0,
            nf: false,
            hf: false,
            cf: value & 1 == 1,
            ..*old(registers)
        }),
{
    let carry = value & 0b0000_0001 == 0b0000_0001;

    let result = (value >> 1u8) | (value & 0b1000_0000);
    registers.set_carry_flag(carry);
    registers.set_half_carry_flag(false);
    registers.set_subtract_flag(false);
    registers.set_zero_flag(result == 0);

    result
}

/// SRA on a register.
pub fn sra(registers: &mut Registers, reg: EightBitRegister)
    ensures
        *final(registers) == ({
            let v = old(registers).spec_eight(reg);
            (Registers {
                zf: (v >> 1) | (v & 0x80) == 0,
                nf: false,
                hf: false,
                cf: v & 1 == 1,
                ..*old(registers)
            }).spec_write_eight(reg, (v >> 1) | (v & 0x80))
        }),
{
    let value = registers.read_eight(reg);
    let result = sra_val(registers, value);
    registers.write_eight(reg, result);
}

} // verus!
