//! The CB-prefixed secondary opcode table: rotates, shifts, SWAP, and the
//! BIT/RES/SET families, over the eight operand columns (B, C, D, E, H, L,
//! the byte behind HL, A).

use crate::cpu::bitwise_operations::bit;
use crate::cpu::bitwise_operations::bit_val;
use crate::cpu::bitwise_operations::res;
use crate::cpu::bitwise_operations::res_val;
use crate::cpu::bitwise_operations::set_val;
use crate::cpu::bitwise_operations::swap;
use crate::cpu::bitwise_operations::swap_value;
use crate::cpu::register_code;
use crate::cpu::shift_operations::rl;
use crate::cpu::shift_operations::rl_val;
use crate::cpu::shift_operations::rlc;
use crate::cpu::shift_operations::rlc_val;
use crate::cpu::shift_operations::rr;
use crate::cpu::shift_operations::rr_val;
use crate::cpu::shift_operations::rrc;
use crate::cpu::shift_operations::rrc_val;
use crate::cpu::shift_operations::sla;
use crate::cpu::shift_operations::sla_val;
use crate::cpu::shift_operations::sra;
use crate::cpu::shift_operations::sra_val;
use crate::cpu::shift_operations::srl;
use crate::cpu::shift_operations::srl_val;
use crate::cpu::CPU;
use crate::registers::Registers;
use vstd::prelude::*;

verus! {

broadcast use crate::bitmath::lemma_u8_shr3, crate::bitmath::lemma_u8_low3_mask;


/// The byte a CB operation row produces from `value` (the rotate, shift,
/// swap, reset and set rows; the BIT rows write nothing back).
pub open spec fn spec_cb_result(r: Registers, value: u8, row: u8) -> u8 {
    if row == 0 {
        (value << 1u8) | (value >> 7u8)
    } else if row == 1 {
        (value >> 1u8) | (value << 7u8)
    } else if row == 2 {
        crate::cpu::shift_operations::spec_rl(value, r.carry_flag())
    } else if row == 3 {
        crate::cpu::shift_operations::spec_rr(value, r.carry_flag())
    } else if row == 4 {
        value << 1u8
    } else if row == 5 {
        (value >> 1u8) | (value & 0x80)
    } else if row == 6 {
        crate::cpu::bitwise_operations::spec_swap(value)
    } else if row == 7 {
        value >> 1u8
    } else if 16 <= row && row < 24 {
        value & !(1u8 << (row - 16) as u8)
    } else {
        value | (1u8 << (row - 24) as u8)
    }
}

/// The flag effect of a CB operation row applied to `value`: the rotates and
/// shifts set Z from their result and the carry from the shifted-out bit,
/// SWAP clears N, H and C, BIT tests the chosen bit, RES and SET leave the
/// flags alone.
pub open spec fn spec_cb_flags(r: Registers, value: u8, row: u8) -> Registers {
    if row < 8 {
        Registers {
            zf: spec_cb_result(r, value, row) == 0,
            nf: false,
            hf: false,
            cf: if row == 1 || row == 3 || row == 5 || row == 7 {
                value & 1 == 1
            } else if row == 6 {
                false
            } else {
                value & 0x80 == 0x80
            },
            ..r
        }
    } else if row < 16 {
        Registers { zf: value & (1u8 << (row - 8) as u8) == 0, nf: false, hf: true, ..r }
    } else {
        r
    }
}

/// Execute one CB-prefixed opcode, returning the m-cycle cost of the whole
/// instruction (prefix fetch included): 2 on a register, 3 for BIT on the
/// byte behind HL, 4 for the read-modify-write forms on it. The row
/// (bits 3..7) names the operation, the column (bits 0..2) the operand.
pub fn handle_cb_instructions(cpu: &mut CPU, opcode: u8) -> (r: u8)
    requires
        old(cpu).mmu.wf(),
    ensures
        final(cpu).mmu.wf(),
        2 <= r <= 4,
        r == crate::cpu::spec_cb_cost(opcode),
        final(cpu).halted == old(cpu).halted,
        final(cpu).ime == old(cpu).ime,
        final(cpu).stopped == old(cpu).stopped,
        opcode % 8 != 6 ==> final(cpu).mmu == old(cpu).mmu && final(cpu).registers == ({
            let reg = crate::cpu::spec_register_code(opcode % 8)->Some_0;
            let value = old(cpu).registers.spec_eight(reg);
            let row = opcode / 8;
            if 8 <= row && row < 16 {
                spec_cb_flags(old(cpu).registers, value, row)
            } else {
                spec_cb_flags(old(cpu).registers, value, row).spec_write_eight(
                    reg,
                    spec_cb_result(old(cpu).registers, value, row),
                )
            }
        }),
        opcode % 8 == 6 ==> ({
            let address = old(cpu).registers.spec_sixteen(
                crate::registers::SixteenBitRegister::HL,
            );
            let value = crate::mmu::spec_read(old(cpu).mmu, address);
            let row = opcode / 8;
            &&& final(cpu).registers == spec_cb_flags(old(cpu).registers, value, row)
            &&& (if 8 <= row && row < 16 {
                final(cpu).mmu == old(cpu).mmu
            } else {
                crate::mmu::spec_write_u8(
                    old(cpu).mmu,
                    final(cpu).mmu,
                    address,
                    spec_cb_result(old(cpu).registers, value, row),
                )
            })
        }),
{
    let row = opcode >> 3u8;
    let column = opcode & 0x07;

    match register_code(column) {
        Some(reg) => {
            if row < 8 {
                match row {
                    0 => rlc(&mut cpu.registers, reg),
                    1 => rrc(&mut cpu.registers, reg),
                    2 => rl(&mut cpu.registers, reg),
                    3 => rr(&mut cpu.registers, reg),
                    4 => sla(&mut cpu.registers, reg),
                    5 => sra(&mut cpu.registers, reg),
                    6 => swap(&mut cpu.registers, reg),
                    _ => srl(&mut cpu.registers, reg),
                }
            } else if row < 16 {
                bit(&mut cpu.registers, reg, row - 8);
            } else if row < 24 {
                res(&mut cpu.registers, reg, row - 16);
            } else {
                crate::cpu::bitwise_operations::set(&mut cpu.registers, reg, row - 24);
            }
            2
        },
        None => {
            let address = cpu.registers.read_sixteen(
                crate::registers::SixteenBitRegister::HL,
            );
            let value = cpu.mmu.read_u8(address);
            if 8 <= row && row < 16 {
                // BIT only tests: no write back.
                bit_val(&mut cpu.registers, value, row - 8);
                3
            } else {
                let result = if row < 8 {
                    match row {
                        0 => rlc_val(&mut cpu.registers, value),
                        1 => rrc_val(&mut cpu.registers, value),
                        2 => rl_val(&mut cpu.registers, value),
                        3 => rr_val(&mut cpu.registers, value),
                        4 => sla_val(&mut cpu.registers, value),
                        5 => sra_val(&mut cpu.registers, value),
                        6 => swap_value(&mut cpu.registers, value),
                        _ => srl_val(&mut cpu.registers, value),
                    }
                } else if row < 24 {
                    res_val(value, row - 16)
                } else {
                    set_val(value, row - 24)
                };
                cpu.mmu.write_u8(address, result);
                4
            }
        },
    }
}

} // verus!
