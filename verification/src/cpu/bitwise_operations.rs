//! The CB-prefixed bit family: SWAP, BIT, RES and SET, on plain values and
//! on registers.

use crate::registers::EightBitRegister;
use crate::registers::Registers;
use vstd::prelude::*;

verus! {

/// The byte with its two nibbles exchanged.
pub open spec fn spec_swap(value: u8) -> u8 {
    ((value & 0x0F) << 4) | ((value & 0xF0) >> 4)
}

/// SWAP: exchange the nibbles; Z tracks the result, N, H and C clear.
pub fn swap_value(reg: &mut Registers, value: u8) -> (r: u8)
    ensures
        r == spec_swap(value),
        *final(reg) == (Registers {
            zf: spec_swap(value) == 0,
            nf: false,
            hf: false,
            cf: false,
            ..*old(reg)
        }),
{
    let result = ((value & 0x0F) << 4u8) | ((value & 0xF0) >> 4u8);
    reg.set_zero_flag(result == 0);
    reg.set_subtract_flag(false);
    reg.set_half_carry_flag(false);
    reg.set_carry_flag(false);
    result
}

/// SWAP on a register.
pub fn swap(reg: &mut Registers, register: EightBitRegister)
    ensures
        *final(reg) == ({
            let v = old(reg).spec_eight(register);
            (Registers {
                zf: spec_swap(v) == 0,
                nf: false,
                hf: false,
                cf: false,
                ..*old(reg)
            }).spec_write_eight(register, spec_swap(v))
        }),
{
    let value = reg.read_eight(register);
    let result = swap_value(reg, value);
    reg.write_eight(register, result);
}

/// Exchanging the nibbles twice gives the byte back.
pub proof fn lemma_swap_involution(value: u8)
    by (bit_vector)
    ensures
        spec_swap(spec_swap(value)) == value,
{
}

/// BIT b: Z is set exactly when bit `bit` of the value is clear; N clears
/// and H sets; the value itself and every register byte are untouched.
pub fn bit_val(registers: &mut Registers, value: u8, bit: u8)
    requires
        bit < 8,
    ensures
        *final(registers) == (Registers {
            zf: value & (1u8 << bit) == 0,
            nf: false,
            hf: true,
            ..*old(registers)
        }),
{
    let result = value & (1u8 << bit);
    registers.set_zero_flag(result == 0);
    registers.set_subtract_flag(false);
    registers.set_half_carry_flag(true);
}

/// BIT b on a register: flags only, no register byte changes.
pub fn bit(registers: &mut Registers, register: EightBitRegister, bit: u8)
    requires
        bit < 8,
    ensures
        *final(registers) == (Registers {
            zf: old(registers).spec_eight(register) & (1u8 << bit) == 0,
            nf: false,
            hf: true,
            ..*old(registers)
        }),
{
    let value = registers.read_eight(register);
    bit_val(registers, value, bit);
}

/// RES b: the value with bit `bit` cleared. Flags are untouched.
pub fn res_val(value: u8, bit: u8) -> (r: u8)
    requires
        bit < 8,
    ensures
        r == value & !(1u8 << bit),
{
    value & !(1u8 << bit)
}

/// RES b on a register.
pub fn res(registers: &mut Registers, register: EightBitRegister, bit: u8)
    requires
        bit < 8,
    ensures
        *final(registers) == old(registers).spec_write_eight(
            register,
            old(registers).spec_eight(register) & !(1u8 << bit),
        ),
{
    let value = registers.read_eight(register);
    let result = res_val(value, bit);
    registers.write_eight(register, result);
}

/// SET b: the value with bit `bit` set. Flags are untouched.
pub fn set_val(value: u8, bit: u8) -> (r: u8)
    requires
        bit < 8,
    ensures
        r == value | (1u8 << bit),
{
    value | (1u8 << bit)
}

/// SET b on a register.
pub fn set(registers: &mut Registers, register: EightBitRegister, bit: u8)
    requires
        bit < 8,
    ensures
        *final(registers) == old(registers).spec_write_eight(
            register,
            old(registers).spec_eight(register) | (1u8 << bit),
        ),
{
    let value = registers.read_eight(register);
    let result = set_val(value, bit);
    registers.write_eight(register, result);
}

} // verus!
