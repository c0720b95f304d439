//! Flag-accurate arithmetic on the accumulator and the 16-bit pairs: add,
//! subtract and compare with and without carry, increment/decrement, the BCD
//! adjust, the accumulator rotates, and relative jumps.

use crate::registers::EightBitRegister;
use crate::registers::Registers;
use crate::registers::SixteenBitRegister;
use vstd::prelude::*;

verus! {

broadcast use crate::bitmath::lemma_u8_low_mask, crate::bitmath::lemma_u16_low4_mask, crate::bitmath::lemma_u16_low8_mask;

/// Increment an 8-bit value: Z tracks the wrapped result, N clears, H is set
/// when the low nibble was 0xF, C is untouched.
pub fn alu_inc_value(registers: &mut Registers, value: u8) -> (r: u8)
    ensures
        r == (value + 1) % 256,
        *final(registers) == (Registers {
            zf: (value + 1) % 256 == 0,
            nf: false,
            hf: value & 0xf == 0xf,
            ..*old(registers)
        }),
{
    let result = value.wrapping_add(1);

    registers.set_zero_flag(result == 0);
    registers.set_subtract_flag(false);
    registers.set_half_carry_flag((value & 0xf) == 0xf);

    result
}

/// Increment a register through `alu_inc_value`.
pub fn alu_inc(registers: &mut Registers, reg: EightBitRegister)
    ensures
        *final(registers) == ({
            let v = old(registers).spec_eight(reg);
            (Registers {
                zf: (v + 1) % 256 == 0,
                nf: false,
                hf: v & 0xf == 0xf,
                ..*old(registers)
            }).spec_write_eight(reg, ((v + 1) % 256) as u8)
        }),
{
    let value = registers.read_eight(reg);
    let result = alu_inc_value(registers, value);

    registers.write_eight(reg, result);
}

/// Decrement an 8-bit value: Z tracks the wrapped result, N sets, H is set
/// when the low nibble was 0, C is untouched.
pub fn alu_dec_value(registers: &mut Registers, value: u8) -> (r: u8)
    ensures
        r == (value + 255) % 256,
        *final(registers) == (Registers {
            zf: (value + 255) % 256 == 0,
            nf: true,
            hf: value & 0xf == 0,
            ..*old(registers)
        }),
{
    let result = value.wrapping_sub(1);

    registers.set_zero_flag(result == 0);
    registers.set_subtract_flag(true);
    registers.set_half_carry_flag((value & 0xf) == 0x00);

    result
}

/// Decrement a register through `alu_dec_value`.
pub fn alu_dec(registers: &mut Registers, reg: EightBitRegister)
    ensures
        *final(registers) == ({
            let v = old(registers).spec_eight(reg);
            (Registers {
                zf: (v + 255) % 256 == 0,
                nf: true,
                hf: v & 0xf == 0,
                ..*old(registers)
            }).spec_write_eight(reg, ((v + 255) % 256) as u8)
        }),
{
    let value = registers.read_eight(reg);
    let result = alu_dec_value(registers, value);

    registers.write_eight(reg, result);
}

/// ADD A,v: Z on a zero result, N clears, H on a low-nibble carry, C on a
/// carry out of bit 7.
pub fn alu_add_value(registers: &mut Registers, value: u8)
    ensures
        *final(registers) == ({
            let a0 = old(registers).a_reg();
            Registers {
                a: ((a0 + value) % 256) as u8,
                zf: (a0 + value) % 256 == 0,
                nf: false,
                hf: (a0 & 0xf) + (value & 0xf) > 0xf,
                cf: a0 + value > 0xff,
                ..*old(registers)
            }
        }),
{
    let a = registers.read_eight(EightBitRegister::A);
    let result = a.wrapping_add(value);

    registers.set_zero_flag(result == 0);
    registers.set_subtract_flag(false);
    registers.set_half_carry_flag((a & 0xf) + (value & 0xf) > 0xf);
    registers.set_carry_flag((a as u16) + (value as u16) > 0xff);

    registers.write_eight(EightBitRegister::A, result);
}

/// ADD A,r for a register operand.
pub fn alu_add(registers: &mut Registers, reg: EightBitRegister)
    ensures
        *final(registers) == ({
            let a0 = old(registers).a_reg();
            let value = old(registers).spec_eight(reg);
            Registers {
                a: ((a0 + value) % 256) as u8,
                zf: (a0 + value) % 256 == 0,
                nf: false,
                hf: (a0 & 0xf) + (value & 0xf) > 0xf,
                cf: a0 + value > 0xff,
                ..*old(registers)
            }
        }),
{
    let value = registers.read_eight(reg);
    alu_add_value(registers, value);
}

/// ADC A,v: as ADD but the old carry joins the sum and both carry tests.
pub fn alu_adc_value(registers: &mut Registers, value: u8)
    ensures
        *final(registers) == ({
            let a0 = old(registers).a_reg();
            let cy: int = if old(registers).carry_flag() { 1 } else { 0 };
            Registers {
                a: ((a0 + value + cy) % 256) as u8,
                zf: (a0 + value + cy) % 256 == 0,
                nf: false,
                hf: (a0 & 0xf) + (value & 0xf) + cy > 0xf,
                cf: a0 + value + cy > 0xff,
                ..*old(registers)
            }
        }),
{
    let a = registers.read_eight(EightBitRegister::A);
    let carry: u8 = if registers.get_carry_flag() {
        1
    } else {
        0
    };
    let result = a.wrapping_add(value).wrapping_add(carry);

    registers.set_zero_flag(result == 0);
    registers.set_subtract_flag(false);
    registers.set_half_carry_flag((a & 0xf) + (value & 0xf) + carry > 0xf);
    registers.set_carry_flag((a as u16) + (value as u16) + (carry as u16) > 0xff);

    registers.write_eight(EightBitRegister::A, result);
}

/// ADC A,r for a register operand.
pub fn alu_adc(registers: &mut Registers, reg: EightBitRegister)
    ensures
        *final(registers) == ({
            let a0 = old(registers).a_reg();
            let value = old(registers).spec_eight(reg);
            let cy: int = if old(registers).carry_flag() { 1 } else { 0 };
            Registers {
                a: ((a0 + value + cy) % 256) as u8,
                zf: (a0 + value + cy) % 256 == 0,
                nf: false,
                hf: (a0 & 0xf) + (value & 0xf) + cy > 0xf,
                cf: a0 + value + cy > 0xff,
                ..*old(registers)
            }
        }),
{
    let value = registers.read_eight(reg);
    alu_adc_value(registers, value);
}

/// SUB A,v: Z on a zero result, N sets, H on a low-nibble borrow, C on a
/// full borrow.
pub fn alu_sub_value(registers: &mut Registers, value: u8)
    ensures
        *final(registers) == ({
            let a0 = old(registers).a_reg();
            Registers {
                a: ((a0 - value + 256) % 256) as u8,
                zf: a0 == value,
                nf: true,
                hf: (a0 & 0xf) < (value & 0xf),
                cf: a0 < value,
                ..*old(registers)
            }
        }),
{
    let a = registers.read_eight(EightBitRegister::A);
    let result = a.wrapping_sub(value);

    registers.set_zero_flag(result == 0);
    registers.set_subtract_flag(true);
    registers.set_half_carry_flag((a & 0xf) < (value & 0xf));
    registers.set_carry_flag(a < value);

    registers.write_eight(EightBitRegister::A, result);
}

/// SUB A,r for a register operand.
pub fn alu_sub(registers: &mut Registers, reg: EightBitRegister)
    ensures
        *final(registers) == ({
            let a0 = old(registers).a_reg();
            let value = old(registers).spec_eight(reg);
            Registers {
                a: ((a0 - value + 256) % 256) as u8,
                zf: a0 == value,
                nf: true,
                hf: (a0 & 0xf) < (value & 0xf),
                cf: a0 < value,
                ..*old(registers)
            }
        }),
{
    let value = registers.read_eight(reg);
    alu_sub_value(registers, value);
}

/// SBC A,v: as SUB but the old carry joins the subtrahend and both borrow
/// tests.
pub fn alu_sbc_value(registers: &mut Registers, value: u8)
    ensures
        *final(registers) == ({
            let a0 = old(registers).a_reg();
            let cy: int = if old(registers).carry_flag() { 1 } else { 0 };
            Registers {
                a: ((a0 - value - cy + 512) % 256) as u8,
                zf: (a0 - value - cy + 512) % 256 == 0,
                nf: true,
                hf: (a0 & 0xf) < (value & 0xf) + cy,
                cf: a0 < value + cy,
                ..*old(registers)
            }
        }),
{
    let a = registers.read_eight(EightBitRegister::A);
    let carry: u8 = if registers.get_carry_flag() {
        1
    } else {
        0
    };
    let result = a.wrapping_sub(value).wrapping_sub(carry);

    registers.set_zero_flag(result == 0);
    registers.set_subtract_flag(true);
    registers.set_half_carry_flag((a & 0xf) < (value & 0xf) + carry);
    registers.set_carry_flag((a as u16) < (value as u16) + (carry as u16));

    registers.write_eight(EightBitRegister::A, result);
}

/// SBC A,r for a register operand.
pub fn alu_sbc(registers: &mut Registers, reg: EightBitRegister)
    ensures
        *final(registers) == ({
            let a0 = old(registers).a_reg();
            let value = old(registers).spec_eight(reg);
            let cy: int = if old(registers).carry_flag() { 1 } else { 0 };
            Registers {
                a: ((a0 - value - cy + 512) % 256) as u8,
                zf: (a0 - value - cy + 512) % 256 == 0,
                nf: true,
                hf: (a0 & 0xf) < (value & 0xf) + cy,
                cf: a0 < value + cy,
                ..*old(registers)
            }
        }),
{
    let value = registers.read_eight(reg);
    alu_sbc_value(registers, value);
}

/// AND A,v: Z on a zero result; N and C clear, H sets.
pub fn alu_and_value(registers: &mut Registers, value: u8)
    ensures
        *final(registers) == ({
            let a0 = old(registers).a_reg();
            Registers {
                a: a0 & value,
                zf: a0 & value == 0,
                nf: false,
                hf: true,
                cf: false,
                ..*old(registers)
            }
        }),
{
    let a = registers.read_eight(EightBitRegister::A);
    let result = a & value;

    registers.set_zero_flag(result == 0);
    registers.set_subtract_flag(false);
    registers.set_half_carry_flag(true);
    registers.set_carry_flag(false);

    registers.write_eight(EightBitRegister::A, result);
}

/// AND A,r for a register operand.
pub fn alu_and(registers: &mut Registers, reg: EightBitRegister)
    ensures
        *final(registers) == ({
            let a0 = old(registers).a_reg();
            let value = old(registers).spec_eight(reg);
            Registers {
                a: a0 & value,
                zf: a0 & value == 0,
                nf: false,
                hf: true,
                cf: false,
                ..*old(registers)
            }
        }),
{
    let value = registers.read_eight(reg);
    alu_and_value(registers, value);
}

/// OR A,v: Z on a zero result; N, H and C clear.
pub fn alu_or_value(registers: &mut Registers, value: u8)
    ensures
        *final(registers) == ({
            let a0 = old(registers).a_reg();
            Registers {
                a: a0 | value,
                zf: a0 | value == 0,
                nf: false,
                hf: false,
                cf: false,
                ..*old(registers)
            }
        }),
{
    let a = registers.read_eight(EightBitRegister::A);
    let result = a | value;

    registers.set_zero_flag(result == 0);
    registers.set_subtract_flag(false);
    registers.set_half_carry_flag(false);
    registers.set_carry_flag(false);

    registers.write_eight(EightBitRegister::A, result);
}

/// OR A,r for a register operand.
pub fn alu_or(registers: &mut Registers, reg: EightBitRegister)
    ensures
        *final(registers) == ({
            let a0 = old(registers).a_reg();
            let value = old(registers).spec_eight(reg);
            Registers {
                a: a0 | value,
                zf: a0 | value == 0,
                nf: false,
                hf: false,
                cf: false,
                ..*old(registers)
            }
        }),
{
    let value = registers.read_eight(reg);
    alu_or_value(registers, value);
}

/// XOR A,v: Z on a zero result; N, H and C clear.
pub fn alu_xor_value(registers: &mut Registers, value: u8)
    ensures
        *final(registers) == ({
            let a0 = old(registers).a_reg();
            Registers {
                a: a0 ^ value,
                zf: a0 ^ value == 0,
                nf: false,
                hf: false,
                cf: false,
                ..*old(registers)
            }
        }),
{
    let a = registers.read_eight(EightBitRegister::A);
    let result = a ^ value;

    registers.set_zero_flag(result == 0);
    registers.set_subtract_flag(false);
    registers.set_half_carry_flag(false);
    registers.set_carry_flag(false);

    registers.write_eight(EightBitRegister::A, result);
}

/// XOR A,r for a register operand.
pub fn alu_xor(registers: &mut Registers, reg: EightBitRegister)
    ensures
        *final(registers) == ({
            let a0 = old(registers).a_reg();
            let value = old(registers).spec_eight(reg);
            Registers {
                a: a0 ^ value,
                zf: a0 ^ value == 0,
                nf: false,
                hf: false,
                cf: false,
                ..*old(registers)
            }
        }),
{
    let value = registers.read_eight(reg);
    alu_xor_value(registers, value);
}

/// CP A,v: SUB's flags without storing the result.
pub fn alu_cp_value(registers: &mut Registers, value: u8)
    ensures
        *final(registers) == ({
            let a0 = old(registers).a_reg();
            Registers {
                zf: a0 == value,
                nf: true,
                hf: (a0 & 0xf) < (value & 0xf),
                cf: a0 < value,
                ..*old(registers)
            }
        }),
{
    let a = registers.read_eight(EightBitRegister::A);
    let result = a.wrapping_sub(value);

    registers.set_zero_flag(result == 0);
    registers.set_subtract_flag(true);
    registers.set_half_carry_flag((a & 0xf) < (value & 0xf));
    registers.set_carry_flag(a < value);
}

/// CP A,r for a register operand.
pub fn alu_cp(registers: &mut Registers, reg: EightBitRegister)
    ensures
        *final(registers) == ({
            let a0 = old(registers).a_reg();
            let value = old(registers).spec_eight(reg);
            Registers {
                zf: a0 == value,
                nf: true,
                hf: (a0 & 0xf) < (value & 0xf),
                cf: a0 < value,
                ..*old(registers)
            }
        }),
{
    let value = registers.read_eight(reg);
    alu_cp_value(registers, value);
}

/// The byte reinterpreted as a two's-complement offset.
pub open spec fn signed_offset(value: u8) -> int {
    if value < 0x80 {
        value as int
    } else {
        value - 256
    }
}

/// LD HL,SP+s8: HL takes SP plus the signed offset; Z and N clear, H and C
/// come from the unsigned addition on the low byte.
pub fn ld_hl_sp_r8(registers: &mut Registers, value: u8)
    ensures
        *final(registers) == ({
            let sp0 = old(registers).sp_reg();
            let sum = ((sp0 + signed_offset(value) + 0x10000) % 0x10000) as u16;
            Registers {
                h: (sum / 256) as u8,
                l: (sum % 256) as u8,
                zf: false,
                nf: false,
                hf: (sp0 & 0xf) + (value as u16 & 0xf) > 0xf,
                cf: (sp0 & 0xff) + (value as u16 & 0xff) > 0xff,
                ..*old(registers)
            }
        }),
{
    let sp = registers.read_sixteen(SixteenBitRegister::SP);
    let result = add_signed(sp, value);

    registers.write_sixteen(SixteenBitRegister::HL, result);
    registers.set_zero_flag(false);
    registers.set_subtract_flag(false);
    registers.set_half_carry_flag((sp & 0xf) + (value as u16 & 0xf) > 0xf);
    registers.set_carry_flag((sp & 0xff) + (value as u16 & 0xff) > 0xff);
}

/// A 16-bit base plus a signed 8-bit offset, wrapping mod 0x10000.
fn add_signed(base: u16, value: u8) -> (r: u16)
    ensures
        r == (base + signed_offset(value) + 0x10000) % 0x10000,
{
    if value < 0x80 {
        base.wrapping_add(value as u16)
    } else {
        base.wrapping_sub(0x100 - value as u16)
    }
}

/// ADD HL,rr: N clears, H on a carry out of bit 11, C on a carry out of bit
/// 15; Z is untouched.
pub fn alu_add_16(registers: &mut Registers, reg: SixteenBitRegister)
    ensures
        *final(registers) == ({
            let hl0 = old(registers).spec_sixteen(SixteenBitRegister::HL);
            let value = old(registers).spec_sixteen(reg);
            let sum = ((hl0 + value) % 0x10000) as u16;
            Registers {
                h: (sum / 256) as u8,
                l: (sum % 256) as u8,
                nf: false,
                hf: (hl0 & 0xfff) + (value & 0xfff) > 0xfff,
                cf: hl0 + value > 0xffff,
                ..*old(registers)
            }
        }),
{
    broadcast use crate::bitmath::lemma_u16_low12_mask;

    let value = registers.read_sixteen(reg);
    let hl = registers.read_sixteen(SixteenBitRegister::HL);
    let result = hl.wrapping_add(value);

    registers.write_sixteen(SixteenBitRegister::HL, result);
    registers.set_subtract_flag(false);
    registers.set_half_carry_flag((hl & 0xfff) + (value & 0xfff) > 0xfff);
    registers.set_carry_flag(hl > 0xffff - value);
}

/// ADD SP,s8: SP takes the signed offset; Z and N clear, H and C come from
/// the unsigned addition on the low byte.
pub fn add_sp_r8(registers: &mut Registers, value: u8)
    ensures
        *final(registers) == ({
            let sp0 = old(registers).sp_reg();
            Registers {
                sp: ((sp0 + signed_offset(value) + 0x10000) % 0x10000) as u16,
                zf: false,
                nf: false,
                hf: (sp0 & 0xf) + (value as u16 & 0xf) > 0xf,
                cf: (sp0 & 0xff) + (value as u16 & 0xff) > 0xff,
                ..*old(registers)
            }
        }),
{
    let sp = registers.read_sixteen(SixteenBitRegister::SP);
    let result = add_signed(sp, value);

    registers.write_sixteen(SixteenBitRegister::SP, result);
    registers.set_zero_flag(false);
    registers.set_subtract_flag(false);
    registers.set_half_carry_flag((sp & 0xf) + (value as u16 & 0xf) > 0xf);
    registers.set_carry_flag((sp & 0xff) + (value as u16 & 0xff) > 0xff);
}

/// RLCA: rotate A left; bit 7 lands in both bit 0 and the carry; Z, N and H
/// clear.
pub fn rlca(registers: &mut Registers)
    ensures
        *final(registers) == ({
            let a0 = old(registers).a_reg();
            Registers {
                a: (a0 << 1) | (a0 >> 7),
                zf: false,
                nf: false,
                hf: false,
                cf: a0 & 0x80 != 0,
                ..*old(registers)
            }
        }),
{
    let value = registers.read_eight(EightBitRegister::A);
    let carry = value & 0x80 != 0;
    let result = (value << 1u8) | (value >> 7u8);

    registers.write_eight(EightBitRegister::A, result);
    registers.set_zero_flag(false);
    registers.set_subtract_flag(false);
    registers.set_half_carry_flag(false);
    registers.set_carry_flag(carry);
}

/// RRCA: rotate A right; bit 0 lands in both bit 7 and the carry; Z, N and H
/// clear.
pub fn rrca(registers: &mut Registers)
    ensures
        *final(registers) == ({
            let a0 = old(registers).a_reg();
            Registers {
                a: (a0 >> 1) | (a0 << 7),
                zf: false,
                nf: false,
                hf: false,
                cf: a0 & 0x01 != 0,
                ..*old(registers)
            }
        }),
{
    let value = registers.read_eight(EightBitRegister::A);
    let carry = value & 0x01 != 0;
    let result = (value >> 1u8) | (value << 7u8);

    registers.write_eight(EightBitRegister::A, result);
    registers.set_zero_flag(false);
    registers.set_subtract_flag(false);
    registers.set_half_carry_flag(false);
    registers.set_carry_flag(carry);
}

/// RRA: rotate A right through the carry flag; Z, N and H clear.
pub fn rra(registers: &mut Registers)
    ensures
        *final(registers) == ({
            let a0 = old(registers).a_reg();
            let cy: u8 = if old(registers).carry_flag() { 1 } else { 0 };
            Registers {
                a: (a0 >> 1) | (cy << 7),
                zf: false,
                nf: false,
                hf: false,
                cf: a0 & 0x01 != 0,
                ..*old(registers)
            }
        }),
{
    let value = registers.read_eight(EightBitRegister::A);
    let carry: u8 = if registers.get_carry_flag() {
        1
    } else {
        0
    };
    let result = (value >> 1u8) | (carry << 7u8);

    registers.write_eight(EightBitRegister::A, result);
    registers.set_zero_flag(false);
    registers.set_subtract_flag(false);
    registers.set_half_carry_flag(false);
    registers.set_carry_flag(value & 0x01 != 0);
}

/// RLA: rotate A left through the carry flag; Z, N and H clear.
pub fn rla(registers: &mut Registers)
    ensures
        *final(registers) == ({
            let a0 = old(registers).a_reg();
            let cy: u8 = if old(registers).carry_flag() { 1 } else { 0 };
            Registers {
                a: (a0 << 1) | cy,
                zf: false,
                nf: false,
                hf: false,
                cf: a0 & 0x80 != 0,
                ..*old(registers)
            }
        }),
{
    let value = registers.read_eight(EightBitRegister::A);
    let carry: u8 = if registers.get_carry_flag() {
        1
    } else {
        0
    };
    let result = (value << 1u8) | carry;

    registers.write_eight(EightBitRegister::A, result);
    registers.set_zero_flag(false);
    registers.set_subtract_flag(false);
    registers.set_half_carry_flag(false);
    registers.set_carry_flag(value & 0x80 != 0);
}

/// JR: the program counter moves by the signed offset, wrapping mod 0x10000.
pub fn jr(registers: &mut Registers, value: u8)
    ensures
        *final(registers) == (Registers {
            pc: ((old(registers).pc_reg() + signed_offset(value) + 0x10000) % 0x10000) as u16,
            ..*old(registers)
        }),
{
    let pc = registers.read_sixteen(SixteenBitRegister::PC);
    let target = add_signed(pc, value);
    registers.write_sixteen(SixteenBitRegister::PC, target);
}

/// The adjustment DAA adds to or subtracts from A, from the current N, H and
/// C flags: 0x06 for a low-nibble correction, 0x60 for a high one.
pub open spec fn daa_adjust(a: u8, n: bool, h: bool, c: bool) -> u8 {
    let base: u8 = if c {
        0x60
    } else {
        0x00
    };
    let with_low: u8 = if h || (!n && (a & 0x0f) > 0x09) {
        base | 0x06
    } else {
        base
    };
    if c || (!n && a > 0x99) {
        with_low | 0x60
    } else {
        with_low
    }
}

/// DAA: adjust A to a valid BCD result after an addition or subtraction.
/// Z tracks the adjusted value, H clears, C is set exactly when the
/// adjustment was at least 0x60, N is untouched.
#[verifier::rlimit(60)]
pub fn daa(registers: &mut Registers)
    ensures
        *final(registers) == ({
            let a0 = old(registers).a_reg();
            let n = old(registers).subtract_flag();
            let adjust = daa_adjust(
                a0,
                n,
                old(registers).half_carry_flag(),
                old(registers).carry_flag(),
            );
            let a1 = if n {
                ((a0 - adjust + 256) % 256) as u8
            } else {
                ((a0 + adjust) % 256) as u8
            };
            Registers {
                a: a1,
                zf: a1 == 0,
                hf: false,
                cf: adjust >= 0x60,
                ..*old(registers)
            }
        }),
{
    let mut a = registers.read_eight(EightBitRegister::A);
    let mut adjust: u8 = if registers.get_carry_flag() {
        0x60
    } else {
        0x00
    };
    if registers.get_half_carry_flag() || (!registers.get_subtract_flag() && (a & 0x0f) > 0x09) {
        adjust = adjust | 0x06;
    }
    if registers.get_carry_flag() || (!registers.get_subtract_flag() && a > 0x99) {
        adjust = adjust | 0x60;
    }

    if registers.get_subtract_flag() {
        a = a.wrapping_sub(adjust);
    } else {
        a = a.wrapping_add(adjust);
    }

    registers.set_zero_flag(a == 0);
    registers.set_half_carry_flag(false);
    registers.set_carry_flag(adjust >= 0x60);
    registers.write_eight(EightBitRegister::A, a);
}

/// CPL: complement every bit of A; N and H set, Z and C untouched.
pub fn cpl(registers: &mut Registers)
    ensures
        *final(registers) == (Registers {
            a: !old(registers).a_reg(),
            nf: true,
            hf: true,
            ..*old(registers)
        }),
{
    let value = registers.read_eight(EightBitRegister::A);
    registers.write_eight(EightBitRegister::A, !value);
    registers.set_subtract_flag(true);
    registers.set_half_carry_flag(true);
}

/// SCF: set the carry flag; N and H clear, Z untouched.
pub fn scf(registers: &mut Registers)
    ensures
        *final(registers) == (Registers { nf: false, hf: false, cf: true, ..*old(registers) }),
{
    registers.set_carry_flag(true);
    registers.set_subtract_flag(false);
    registers.set_half_carry_flag(false);
}

/// CCF: complement the carry flag; N and H clear, Z untouched.
pub fn ccf(registers: &mut Registers)
    ensures
        *final(registers) == (Registers {
            nf: false,
            hf: false,
            cf: !old(registers).carry_flag(),
            ..*old(registers)
        }),
{
    let carry = registers.get_carry_flag();
    registers.set_carry_flag(!carry);
    registers.set_subtract_flag(false);
    registers.set_half_carry_flag(false);
}


/// Subtracting `b` from `a` and then adding `b` back reproduces `a` modulo
/// 256, and the two steps agree on the flags: the addition reports a carry
/// exactly when the subtraction borrowed, and a half-carry exactly when the
/// subtraction half-borrowed. These are the values `alu_sub_value` and
/// `alu_add_value` compute and set.
pub proof fn lemma_sub_then_add_round_trip(a: u8, b: u8)
    ensures
        ((a - b + 256) % 256 + b) % 256 == a,
        ((a - b + 256) % 256 + b > 0xff) <==> a < b,
        ((a - b + 256) % 256 % 16 + (b & 0xf) > 0xf) <==> ((a & 0xf) < (b & 0xf)),
{
    let d = (a - b + 256) % 256;
    if a >= b {
        assert(d == a - b) by (nonlinear_arith)
            requires
                d == (a - b + 256) % 256 && b <= a < 256,
        ;
    } else {
        assert(d == a - b + 256) by (nonlinear_arith)
            requires
                d == (a - b + 256) % 256 && a < b < 256,
        ;
    }
    assert((d + b) % 256 == a) by (nonlinear_arith)
        requires
            (a >= b && d == a - b && a < 256) || (a < b && d == a - b + 256 && b < 256),
    ;
    assert(d % 16 == (a % 16 - b % 16 + 16) % 16) by (nonlinear_arith)
        requires
            (a >= b && d == a - b && a < 256 && b < 256) || (a < b && d == a - b + 256 && a < 256
                && b < 256),
    ;
    if a % 16 >= b % 16 {
        assert(d % 16 == a % 16 - b % 16) by (nonlinear_arith)
            requires
                d % 16 == (a % 16 - b % 16 + 16) % 16 && a % 16 >= b % 16,
        ;
    } else {
        assert(d % 16 == a % 16 - b % 16 + 16) by (nonlinear_arith)
            requires
                d % 16 == (a % 16 - b % 16 + 16) % 16 && a % 16 < b % 16,
        ;
    }
}
} // verus!
