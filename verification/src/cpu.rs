//! The LR35902 CPU: fetch, decode and execute over the full opcode table,
//! interrupt dispatch, and the HALT state.

pub mod alu_operations;
pub mod bitwise_operations;
pub mod cb_instructions;
pub mod interrupts;
pub mod jp_operations;
pub mod shift_operations;
pub mod stack_operations;

use crate::cpu::alu_operations::add_sp_r8;
use crate::cpu::alu_operations::alu_adc;
use crate::cpu::alu_operations::alu_adc_value;
use crate::cpu::alu_operations::alu_add;
use crate::cpu::alu_operations::alu_add_16;
use crate::cpu::alu_operations::alu_add_value;
use crate::cpu::alu_operations::alu_and;
use crate::cpu::alu_operations::alu_and_value;
use crate::cpu::alu_operations::alu_cp;
use crate::cpu::alu_operations::alu_cp_value;
use crate::cpu::alu_operations::alu_dec;
use crate::cpu::alu_operations::alu_dec_value;
use crate::cpu::alu_operations::alu_inc;
use crate::cpu::alu_operations::alu_inc_value;
use crate::cpu::alu_operations::alu_or;
use crate::cpu::alu_operations::alu_or_value;
use crate::cpu::alu_operations::alu_sbc;
use crate::cpu::alu_operations::alu_sbc_value;
use crate::cpu::alu_operations::alu_sub;
use crate::cpu::alu_operations::alu_sub_value;
use crate::cpu::alu_operations::alu_xor;
use crate::cpu::alu_operations::alu_xor_value;
use crate::cpu::alu_operations::ccf;
use crate::cpu::alu_operations::cpl;
use crate::cpu::alu_operations::daa;
use crate::cpu::alu_operations::jr;
use crate::cpu::alu_operations::ld_hl_sp_r8;
use crate::cpu::alu_operations::rla;
use crate::cpu::alu_operations::rlca;
use crate::cpu::alu_operations::rra;
use crate::cpu::alu_operations::rrca;
use crate::cpu::alu_operations::scf;
use crate::cpu::jp_operations::jp;
use crate::cpu::jp_operations::jp_c;
use crate::cpu::jp_operations::jp_nc;
use crate::cpu::jp_operations::jp_nz;
use crate::cpu::jp_operations::jp_z;
use crate::cpu::jp_operations::jr_c;
use crate::cpu::jp_operations::jr_nc;
use crate::cpu::jp_operations::jr_nz;
use crate::cpu::jp_operations::jr_z;
use crate::cpu::jp_operations::JumpResult;
use crate::cpu::stack_operations::call;
use crate::cpu::stack_operations::call_c;
use crate::cpu::stack_operations::call_nc;
use crate::cpu::stack_operations::call_nz;
use crate::cpu::stack_operations::call_z;
use crate::cpu::stack_operations::ret;
use crate::cpu::stack_operations::ret_c;
use crate::cpu::stack_operations::ret_nc;
use crate::cpu::stack_operations::ret_nz;
use crate::cpu::stack_operations::ret_z;
use crate::cpu::stack_operations::stack_pop;
use crate::cpu::stack_operations::stack_push;
use crate::cpu::stack_operations::CallResult;
use crate::cpu::stack_operations::ReturnResult;
use crate::mmu::spec_read;
use crate::mmu::MMU;
use crate::timer::Timer;
use crate::registers::EightBitRegister;
use crate::registers::Registers;
use crate::registers::SixteenBitRegister;
use vstd::prelude::*;

verus! {

/// The CPU: the register file, the interrupt master-enable flag, and the
/// HALT and unrecoverable-stop states, around the MMU it drives.
pub struct CPU {
    pub halted: bool,
    pub mmu: MMU,
    pub registers: Registers,
    pub ime: bool,
    pub stopped: bool,
}



/// The m-cycle cost of the unconditional opcodes, from the LR35902 table.
pub open spec fn spec_base_cost(opcode: u8) -> u8 {
    if opcode == 0x01 || opcode == 0x11 || opcode == 0x21 || opcode == 0x31 || opcode == 0x18 {
        3
    } else if opcode == 0x08 {
        5
    } else if opcode == 0x34 || opcode == 0x35 || opcode == 0x36 {
        3
    } else if opcode == 0x02 || opcode == 0x03 || opcode == 0x06 || opcode == 0x09 || opcode == 0x0A
        || opcode == 0x0B || opcode == 0x0E || opcode == 0x12 || opcode == 0x13 || opcode == 0x16
        || opcode == 0x19 || opcode == 0x1A || opcode == 0x1B || opcode == 0x1E || opcode == 0x22
        || opcode == 0x23 || opcode == 0x26 || opcode == 0x29 || opcode == 0x2A || opcode == 0x2B
        || opcode == 0x2E || opcode == 0x32 || opcode == 0x33 || opcode == 0x39 || opcode == 0x3A
        || opcode == 0x3B || opcode == 0x3E {
        2
    } else if opcode <= 0x3F {
        1
    } else if opcode == 0xC1 || opcode == 0xD1 || opcode == 0xE1 || opcode == 0xF1 || opcode == 0xE0
        || opcode == 0xF8 {
        3
    } else if opcode == 0xC5 || opcode == 0xD5 || opcode == 0xE5 || opcode == 0xF5 || opcode == 0xC7
        || opcode == 0xCF || opcode == 0xD7 || opcode == 0xDF || opcode == 0xE7 || opcode == 0xEF
        || opcode == 0xF7 || opcode == 0xFF || opcode == 0xC3 || opcode == 0xC9 || opcode == 0xD9
        || opcode == 0xE8 || opcode == 0xEA || opcode == 0xFA {
        4
    } else if opcode == 0xCD {
        6
    } else if opcode == 0xC6 || opcode == 0xCE || opcode == 0xD6 || opcode == 0xDE || opcode == 0xE6
        || opcode == 0xEE || opcode == 0xF6 || opcode == 0xFE || opcode == 0xE2 || opcode == 0xF0
        || opcode == 0xF2 || opcode == 0xF9 {
        2
    } else {
        // JP (HL), DI, EI, and the undefined opcodes.
        1
    }
}

/// The m-cycle cost of a CB-prefixed opcode, whole instruction included:
/// 2 on a register column, 3 for BIT on the byte behind HL, 4 for the
/// read-modify-write forms on it.
pub open spec fn spec_cb_cost(cb: u8) -> u8 {
    if cb % 8 == 6 {
        if 8 <= cb / 8 && cb / 8 < 16 {
            3
        } else {
            4
        }
    } else {
        2
    }
}

/// The exact m-cycle cost of executing `opcode` from state `c`: fixed per
/// opcode, with the conditional jumps, calls and returns charging their
/// taken cost exactly when the flag condition holds, and the CB prefix
/// charging by the prefixed byte at PC.
pub open spec fn spec_opcode_cost(c: CPU, opcode: u8) -> u8 {
    if 0x40 <= opcode && opcode <= 0x7F && opcode != 0x76 {
        if opcode % 8 == 6 || (opcode / 8) % 8 == 6 {
            2
        } else {
            1
        }
    } else if 0x80 <= opcode && opcode <= 0xBF {
        if opcode % 8 == 6 {
            2
        } else {
            1
        }
    } else if opcode == 0xCB {
        spec_cb_cost(spec_read(c.mmu, c.registers.pc))
    } else if opcode == 0x20 {
        if !c.registers.zero_flag() {
            3
        } else {
            2
        }
    } else if opcode == 0x28 {
        if c.registers.zero_flag() {
            3
        } else {
            2
        }
    } else if opcode == 0x30 {
        if !c.registers.carry_flag() {
            3
        } else {
            2
        }
    } else if opcode == 0x38 {
        if c.registers.carry_flag() {
            3
        } else {
            2
        }
    } else if opcode == 0xC0 {
        if !c.registers.zero_flag() {
            5
        } else {
            2
        }
    } else if opcode == 0xC8 {
        if c.registers.zero_flag() {
            5
        } else {
            2
        }
    } else if opcode == 0xD0 {
        if !c.registers.carry_flag() {
            5
        } else {
            2
        }
    } else if opcode == 0xD8 {
        if c.registers.carry_flag() {
            5
        } else {
            2
        }
    } else if opcode == 0xC2 {
        if !c.registers.zero_flag() {
            4
        } else {
            3
        }
    } else if opcode == 0xCA {
        if c.registers.zero_flag() {
            4
        } else {
            3
        }
    } else if opcode == 0xD2 {
        if !c.registers.carry_flag() {
            4
        } else {
            3
        }
    } else if opcode == 0xDA {
        if c.registers.carry_flag() {
            4
        } else {
            3
        }
    } else if opcode == 0xC4 {
        if !c.registers.zero_flag() {
            6
        } else {
            3
        }
    } else if opcode == 0xCC {
        if c.registers.zero_flag() {
            6
        } else {
            3
        }
    } else if opcode == 0xD4 {
        if !c.registers.carry_flag() {
            6
        } else {
            3
        }
    } else if opcode == 0xDC {
        if c.registers.carry_flag() {
            6
        } else {
            3
        }
    } else {
        spec_base_cost(opcode)
    }
}


/// The register file after one of the eight accumulator operations of the
/// regular arithmetic block, by row: ADD, ADC, SUB, SBC, AND, XOR, OR, CP.
pub open spec fn spec_alu_regs(r: Registers, operation: u8, value: u8) -> Registers {
    let a0 = r.a_reg();
    if operation == 0 {
        Registers {
            a: ((a0 + value) % 256) as u8,
            zf: (a0 + value) % 256 == 0,
            nf: false,
            hf: (a0 & 0xf) + (value & 0xf) > 0xf,
            cf: a0 + value > 0xff,
            ..r
        }
    } else if operation == 1 {
        let cy: int = if r.carry_flag() {
            1
        } else {
            0
        };
        Registers {
            a: ((a0 + value + cy) % 256) as u8,
            zf: (a0 + value + cy) % 256 == 0,
            nf: false,
            hf: (a0 & 0xf) + (value & 0xf) + cy > 0xf,
            cf: a0 + value + cy > 0xff,
            ..r
        }
    } else if operation == 2 {
        Registers {
            a: ((a0 - value + 256) % 256) as u8,
            zf: a0 == value,
            nf: true,
            hf: (a0 & 0xf) < (value & 0xf),
            cf: a0 < value,
            ..r
        }
    } else if operation == 3 {
        let cy: int = if r.carry_flag() {
            1
        } else {
            0
        };
        Registers {
            a: ((a0 - value - cy + 512) % 256) as u8,
            zf: (a0 - value - cy + 512) % 256 == 0,
            nf: true,
            hf: (a0 & 0xf) < (value & 0xf) + cy,
            cf: a0 < value + cy,
            ..r
        }
    } else if operation == 4 {
        Registers {
            a: a0 & value,
            zf: a0 & value == 0,
            nf: false,
            hf: true,
            cf: false,
            ..r
        }
    } else if operation == 5 {
        Registers {
            a: a0 ^ value,
            zf: a0 ^ value == 0,
            nf: false,
            hf: false,
            cf: false,
            ..r
        }
    } else if operation == 6 {
        Registers {
            a: a0 | value,
            zf: a0 | value == 0,
            nf: false,
            hf: false,
            cf: false,
            ..r
        }
    } else {
        Registers {
            zf: a0 == value,
            nf: true,
            hf: (a0 & 0xf) < (value & 0xf),
            cf: a0 < value,
            ..r
        }
    }
}

/// IME after an opcode: DI clears it, EI and RETI set it, everything else
/// leaves it alone.
pub open spec fn spec_ime_after(ime: bool, opcode: u8) -> bool {
    if opcode == 0xF3 {
        false
    } else if opcode == 0xFB || opcode == 0xD9 {
        true
    } else {
        ime
    }
}

/// The opcodes outside the LR35902 table: fetching one is an unrecoverable
/// decode error.
pub open spec fn spec_undefined_opcode(opcode: u8) -> bool {
    opcode == 0xD3 || opcode == 0xDB || opcode == 0xDD || opcode == 0xE3 || opcode == 0xE4
        || opcode == 0xEB || opcode == 0xEC || opcode == 0xED || opcode == 0xF4 || opcode == 0xFC
        || opcode == 0xFD
}

/// The 8-bit operand a three-bit opcode field names: B, C, D, E, H, L,
/// `None` for the byte behind HL, then A.
pub open spec fn spec_register_code(code: u8) -> Option<EightBitRegister> {
    if code == 0 {
        Some(EightBitRegister::B)
    } else if code == 1 {
        Some(EightBitRegister::C)
    } else if code == 2 {
        Some(EightBitRegister::D)
    } else if code == 3 {
        Some(EightBitRegister::E)
    } else if code == 4 {
        Some(EightBitRegister::H)
    } else if code == 5 {
        Some(EightBitRegister::L)
    } else if code == 6 {
        None
    } else {
        Some(EightBitRegister::A)
    }
}

/// Decode a three-bit operand field.
pub fn register_code(code: u8) -> (r: Option<EightBitRegister>)
    requires
        code < 8,
    ensures
        r == spec_register_code(code),
{
    match code {
        0 => Some(EightBitRegister::B),
        1 => Some(EightBitRegister::C),
        2 => Some(EightBitRegister::D),
        3 => Some(EightBitRegister::E),
        4 => Some(EightBitRegister::H),
        5 => Some(EightBitRegister::L),
        6 => None,
        _ => Some(EightBitRegister::A),
    }
}

impl CPU {
    /// A CPU in post-boot state over the given MMU: interrupts disabled,
    /// not halted, not stopped.
    pub fn new(mmu: MMU) -> (r: CPU)
        requires
            mmu.wf(),
        ensures
            r.mmu == mmu,
            !r.halted,
            !r.ime,
            !r.stopped,
            r.registers.pc_reg() == 0x0100,
            r.mmu.wf(),
    {
        CPU { halted: false, registers: Registers::new(), ime: false, stopped: false, mmu }
    }

    /// Execute one instruction (or one idle HALT cycle), advance the MMU's
    /// clocked components by the same m-cycles, then service at most one
    /// pending interrupt; the return value is the m-cycles the whole step
    /// consumed. A CPU in the unrecoverable stopped state does nothing.
    pub fn step(&mut self) -> (r: u8)
        requires
            old(self).mmu.wf(),
        ensures
            final(self).mmu.wf(),
            r <= 10,
            old(self).stopped ==> r == 0 && *final(self) == *old(self),
            !old(self).stopped ==> 1 <= r,
            !old(self).stopped ==> (final(self).halted ==> (final(self).mmu.interrupts.interrupt_flag & final(self).mmu.interrupts.interrupt_enabled) == 0),
            old(self).halted && !old(self).stopped ==> r == 1 || r == 5,
            old(self).halted && !old(self).stopped && r == 1 ==> final(self).registers == old(self).registers && final(self).ime == old(self).ime && final(self).mmu.timer
                == (Timer {
                interrupt_request: false,
                ..crate::timer::spec_ticks(old(self).mmu.timer, 4)
            }),
            !old(self).halted && !old(self).stopped ==> {
                let cost = spec_opcode_cost(
                    (CPU {
                        registers: (Registers {
                            pc: ((old(self).registers.pc + 1) % 0x10000) as u16,
                            ..old(self).registers
                        }),
                        ..*old(self)
                    }),
                    spec_read(old(self).mmu, old(self).registers.pc),
                );
                r == cost || r == cost + 4
            },
    {
        if self.stopped {
            return 0;
        }

        let cycles = if !self.halted {
            let opcode = self.fetch_u8();
            self.handle_op(opcode)
        } else {
            1
        };

        self.mmu.step(cycles);

        let interrupt_cycles = self.interrupt_step();

        cycles + interrupt_cycles
    }

    /// Fetch the byte at PC and advance PC.
    fn fetch_u8(&mut self) -> (r: u8)
        requires
            old(self).mmu.wf(),
        ensures
            final(self).mmu.wf(),
            r == spec_read(old(self).mmu, old(self).registers.pc),
            *final(self) == (CPU {
                registers: Registers {
                    pc: ((old(self).registers.pc + 1) % 0x10000) as u16,
                    ..old(self).registers
                },
                ..*old(self)
            }),
    {
        let pc = self.registers.read_sixteen(SixteenBitRegister::PC);
        let value = self.mmu.read_u8(pc);
        self.registers.write_sixteen(SixteenBitRegister::PC, pc.wrapping_add(1));
        value
    }

    /// Fetch the little-endian word at PC and advance PC by two.
    fn fetch_u16(&mut self) -> (r: u16)
        requires
            old(self).mmu.wf(),
        ensures
            final(self).mmu.wf(),
            r == spec_read(old(self).mmu, old(self).registers.pc) + 256 * spec_read(
                old(self).mmu,
                ((old(self).registers.pc + 1) % 0x10000) as u16,
            ),
            *final(self) == (CPU {
                registers: Registers {
                    pc: ((old(self).registers.pc + 2) % 0x10000) as u16,
                    ..old(self).registers
                },
                ..*old(self)
            }),
    {
        let pc = self.registers.read_sixteen(SixteenBitRegister::PC);
        let value = self.mmu.read_u16(pc);
        self.registers.write_sixteen(SixteenBitRegister::PC, pc.wrapping_add(2));
        value
    }

    /// The byte behind HL.
    fn read_hl(&self) -> (r: u8)
        requires
            self.mmu.wf(),
        ensures
            r == spec_read(self.mmu, self.registers.spec_sixteen(SixteenBitRegister::HL)),
    {
        let addr = self.registers.read_sixteen(SixteenBitRegister::HL);
        self.mmu.read_u8(addr)
    }

    /// Store a byte behind HL.
    fn write_hl(&mut self, value: u8)
        requires
            old(self).mmu.wf(),
        ensures
            final(self).mmu.wf(),
            crate::mmu::spec_write_u8(
                old(self).mmu,
                final(self).mmu,
                old(self).registers.spec_sixteen(SixteenBitRegister::HL),
                value,
            ),
            final(self).registers == old(self).registers,
            final(self).halted == old(self).halted,
            final(self).ime == old(self).ime,
            final(self).stopped == old(self).stopped,
    {
        let addr = self.registers.read_sixteen(SixteenBitRegister::HL);
        self.mmu.write_u8(addr, value);
    }

    /// Execute one decoded opcode, returning its m-cycle cost. Conditional
    /// jumps, calls and returns charge their taken or not-taken cost as the
    /// condition decided. An opcode outside the LR35902 table moves the CPU
    /// into the unrecoverable stopped state.
    #[verifier::rlimit(100)]
    pub fn handle_op(&mut self, opcode: u8) -> (r: u8)
        requires
            old(self).mmu.wf(),
        ensures
            final(self).mmu.wf(),
            1 <= r <= 6,
            r == spec_opcode_cost(*old(self), opcode),
            final(self).ime == spec_ime_after(old(self).ime, opcode),
            final(self).stopped == (old(self).stopped || spec_undefined_opcode(opcode)),
            final(self).halted == (old(self).halted || opcode == 0x76),
            opcode == 0xF1 ==> final(self).mmu == old(self).mmu && final(self).registers
                == (Registers {
                sp: ((old(self).registers.sp + 2) % 0x10000) as u16,
                ..old(self).registers
            }).spec_write_sixteen(
                SixteenBitRegister::AF,
                (((spec_read(old(self).mmu, old(self).registers.sp) + 256 * spec_read(
                    old(self).mmu,
                    ((old(self).registers.sp + 1) % 0x10000) as u16,
                )) as u16) & 0xFFF0),
            ),
            0x40 <= opcode && opcode <= 0x7F && opcode != 0x76 ==> ({
                let dst = spec_register_code(((opcode - 0x40) / 8) as u8);
                let src = spec_register_code(opcode % 8);
                let hl = old(self).registers.spec_sixteen(SixteenBitRegister::HL);
                match (dst, src) {
                    (Some(d), Some(o)) => final(self).mmu == old(self).mmu && final(self).registers
                        == old(self).registers.spec_write_eight(
                        d,
                        old(self).registers.spec_eight(o),
                    ),
                    (Some(d), None) => final(self).mmu == old(self).mmu && final(self).registers
                        == old(self).registers.spec_write_eight(d, spec_read(old(self).mmu, hl)),
                    (None, Some(o)) => final(self).registers == old(self).registers
                        && crate::mmu::spec_write_u8(
                        old(self).mmu,
                        final(self).mmu,
                        hl,
                        old(self).registers.spec_eight(o),
                    ),
                    (None, None) => true,
                }
            }),
            0x80 <= opcode && opcode <= 0xBF ==> final(self).mmu == old(self).mmu && final(self).registers == ({
                let operation = ((opcode - 0x80) / 8) as u8;
                let hl = old(self).registers.spec_sixteen(SixteenBitRegister::HL);
                match spec_register_code(opcode % 8) {
                    Some(o) => spec_alu_regs(
                        old(self).registers,
                        operation,
                        old(self).registers.spec_eight(o),
                    ),
                    None => spec_alu_regs(
                        old(self).registers,
                        operation,
                        spec_read(old(self).mmu, hl),
                    ),
                }
            }),
    {
        if 0x40 <= opcode && opcode <= 0x7F && opcode != 0x76 {
            // The regular LD r,r' block: the destination in bits 3..5, the
            // source in bits 0..2, either possibly the byte behind HL.
            let dst = register_code((opcode - 0x40) / 8);
            let src = register_code(opcode % 8);
            return match (dst, src) {
                (Some(d), Some(s)) => {
                    let value = self.registers.read_eight(s);
                    self.registers.write_eight(d, value);
                    1
                },
                (Some(d), None) => {
                    let value = self.read_hl();
                    self.registers.write_eight(d, value);
                    2
                },
                (None, Some(s)) => {
                    let value = self.registers.read_eight(s);
                    self.write_hl(value);
                    2
                },
                (None, None) => 1,
            };
        }
        if 0x80 <= opcode && opcode <= 0xBF {
            // The regular arithmetic block: the operation in bits 3..5, the
            // operand in bits 0..2.
            let operation = (opcode - 0x80) / 8;
            return match register_code(opcode % 8) {
                Some(reg) => {
                    match operation {
                        0 => alu_add(&mut self.registers, reg),
                        1 => alu_adc(&mut self.registers, reg),
                        2 => alu_sub(&mut self.registers, reg),
                        3 => alu_sbc(&mut self.registers, reg),
                        4 => alu_and(&mut self.registers, reg),
                        5 => alu_xor(&mut self.registers, reg),
                        6 => alu_or(&mut self.registers, reg),
                        _ => alu_cp(&mut self.registers, reg),
                    }
                    1
                },
                None => {
                    let value = self.read_hl();
                    match operation {
                        0 => alu_add_value(&mut self.registers, value),
                        1 => alu_adc_value(&mut self.registers, value),
                        2 => alu_sub_value(&mut self.registers, value),
                        3 => alu_sbc_value(&mut self.registers, value),
                        4 => alu_and_value(&mut self.registers, value),
                        5 => alu_xor_value(&mut self.registers, value),
                        6 => alu_or_value(&mut self.registers, value),
                        _ => alu_cp_value(&mut self.registers, value),
                    }
                    2
                },
            };
        }
        if opcode <= 0x3F {
            return self.handle_op_low(opcode);
        }
        if opcode == 0x76 {
            // HALT
            self.halted = true;
            return 1;
        }
        self.handle_op_high(opcode)
    }

    /// The irregular 0x00..=0x3F quadrant of the opcode table: 16-bit loads
    /// and arithmetic, the accumulator rotates, relative jumps, DAA and the
    /// carry-flag operations.
    #[verifier::rlimit(100)]
    #[verifier::spinoff_prover]
    fn handle_op_low(&mut self, opcode: u8) -> (r: u8)
        requires
            old(self).mmu.wf(),
            opcode <= 0x3F,
        ensures
            final(self).mmu.wf(),
            1 <= r <= 6,
            r == spec_opcode_cost(*old(self), opcode),
            final(self).ime == old(self).ime,
            final(self).stopped == old(self).stopped,
            final(self).halted == old(self).halted,
    {
        match opcode {
            // NOP
            0x00 => 1,
            // LD BC, d16
            0x01 => {
                let value = self.fetch_u16();
                self.registers.write_sixteen(SixteenBitRegister::BC, value);
                3
            },
            // LD (BC), A
            0x02 => {
                let addr = self.registers.read_sixteen(SixteenBitRegister::BC);
                let value = self.registers.read_eight(EightBitRegister::A);
                self.mmu.write_u8(addr, value);
                2
            },
            // INC BC
            0x03 => {
                let value = self.registers.read_sixteen(SixteenBitRegister::BC);
                self.registers.write_sixteen(SixteenBitRegister::BC, value.wrapping_add(1));
                2
            },
            // INC B
            0x04 => {
                alu_inc(&mut self.registers, EightBitRegister::B);
                1
            },
            // DEC B
            0x05 => {
                alu_dec(&mut self.registers, EightBitRegister::B);
                1
            },
            // LD B, d8
            0x06 => {
                let value = self.fetch_u8();
                self.registers.write_eight(EightBitRegister::B, value);
                2
            },
            // RLCA
            0x07 => {
                rlca(&mut self.registers);
                1
            },
            // LD (a16), SP
            0x08 => {
                let addr = self.fetch_u16();
                let sp = self.registers.read_sixteen(SixteenBitRegister::SP);
                self.mmu.write_u16(addr, sp);
                5
            },
            // ADD HL, BC
            0x09 => {
                alu_add_16(&mut self.registers, SixteenBitRegister::BC);
                2
            },
            // LD A, (BC)
            0x0A => {
                let addr = self.registers.read_sixteen(SixteenBitRegister::BC);
                let value = self.mmu.read_u8(addr);
                self.registers.write_eight(EightBitRegister::A, value);
                2
            },
            // DEC BC
            0x0B => {
                let value = self.registers.read_sixteen(SixteenBitRegister::BC);
                self.registers.write_sixteen(SixteenBitRegister::BC, value.wrapping_sub(1));
                2
            },
            // INC C
            0x0C => {
                alu_inc(&mut self.registers, EightBitRegister::C);
                1
            },
            // DEC C
            0x0D => {
                alu_dec(&mut self.registers, EightBitRegister::C);
                1
            },
            // LD C, d8
            0x0E => {
                let value = self.fetch_u8();
                self.registers.write_eight(EightBitRegister::C, value);
                2
            },
            // RRCA
            0x0F => {
                rrca(&mut self.registers);
                1
            },
            // STOP
            0x10 => 1,
            // LD DE, d16
            0x11 => {
                let value = self.fetch_u16();
                self.registers.write_sixteen(SixteenBitRegister::DE, value);
                3
            },
            // LD (DE), A
            0x12 => {
                let addr = self.registers.read_sixteen(SixteenBitRegister::DE);
                let value = self.registers.read_eight(EightBitRegister::A);
                self.mmu.write_u8(addr, value);
                2
            },
            // INC DE
            0x13 => {
                let value = self.registers.read_sixteen(SixteenBitRegister::DE);
                self.registers.write_sixteen(SixteenBitRegister::DE, value.wrapping_add(1));
                2
            },
            // INC D
            0x14 => {
                alu_inc(&mut self.registers, EightBitRegister::D);
                1
            },
            // DEC D
            0x15 => {
                alu_dec(&mut self.registers, EightBitRegister::D);
                1
            },
            // LD D, d8
            0x16 => {
                let value = self.fetch_u8();
                self.registers.write_eight(EightBitRegister::D, value);
                2
            },
            // RLA
            0x17 => {
                rla(&mut self.registers);
                1
            },
            // JR r8
            0x18 => {
                let value = self.fetch_u8();
                jr(&mut self.registers, value);
                3
            },
            // ADD HL, DE
            0x19 => {
                alu_add_16(&mut self.registers, SixteenBitRegister::DE);
                2
            },
            // LD A, (DE)
            0x1A => {
                let addr = self.registers.read_sixteen(SixteenBitRegister::DE);
                let value = self.mmu.read_u8(addr);
                self.registers.write_eight(EightBitRegister::A, value);
                2
            },
            // DEC DE
            0x1B => {
                let value = self.registers.read_sixteen(SixteenBitRegister::DE);
                self.registers.write_sixteen(SixteenBitRegister::DE, value.wrapping_sub(1));
                2
            },
            // INC E
            0x1C => {
                alu_inc(&mut self.registers, EightBitRegister::E);
                1
            },
            // DEC E
            0x1D => {
                alu_dec(&mut self.registers, EightBitRegister::E);
                1
            },
            // LD E, d8
            0x1E => {
                let value = self.fetch_u8();
                self.registers.write_eight(EightBitRegister::E, value);
                2
            },
            // RRA
            0x1F => {
                rra(&mut self.registers);
                1
            },
            // JR NZ, r8
            0x20 => {
                let value = self.fetch_u8();
                match jr_nz(&mut self.registers, value) {
                    JumpResult::Jumped => 3,
                    JumpResult::DidNotJump => 2,
                }
            },
            // LD HL, d16
            0x21 => {
                let value = self.fetch_u16();
                self.registers.write_sixteen(SixteenBitRegister::HL, value);
                3
            },
            // LD (HL+), A
            0x22 => {
                let addr = self.registers.read_sixteen(SixteenBitRegister::HL);
                let value = self.registers.read_eight(EightBitRegister::A);
                self.mmu.write_u8(addr, value);
                self.registers.write_sixteen(SixteenBitRegister::HL, addr.wrapping_add(1));
                2
            },
            // INC HL
            0x23 => {
                let value = self.registers.read_sixteen(SixteenBitRegister::HL);
                self.registers.write_sixteen(SixteenBitRegister::HL, value.wrapping_add(1));
                2
            },
            // INC H
            0x24 => {
                alu_inc(&mut self.registers, EightBitRegister::H);
                1
            },
            // DEC H
            0x25 => {
                alu_dec(&mut self.registers, EightBitRegister::H);
                1
            },
            // LD H, d8
            0x26 => {
                let value = self.fetch_u8();
                self.registers.write_eight(EightBitRegister::H, value);
                2
            },
            // DAA
            0x27 => {
                daa(&mut self.registers);
                1
            },
            // JR Z, r8
            0x28 => {
                let value = self.fetch_u8();
                match jr_z(&mut self.registers, value) {
                    JumpResult::Jumped => 3,
                    JumpResult::DidNotJump => 2,
                }
            },
            // ADD HL, HL
            0x29 => {
                alu_add_16(&mut self.registers, SixteenBitRegister::HL);
                2
            },
            // LD A, (HL+)
            0x2A => {
                let addr = self.registers.read_sixteen(SixteenBitRegister::HL);
                let value = self.mmu.read_u8(addr);
                self.registers.write_eight(EightBitRegister::A, value);
                self.registers.write_sixteen(SixteenBitRegister::HL, addr.wrapping_add(1));
                2
            },
            // DEC HL
            0x2B => {
                let value = self.registers.read_sixteen(SixteenBitRegister::HL);
                self.registers.write_sixteen(SixteenBitRegister::HL, value.wrapping_sub(1));
                2
            },
            // INC L
            0x2C => {
                alu_inc(&mut self.registers, EightBitRegister::L);
                1
            },
            // DEC L
            0x2D => {
                alu_dec(&mut self.registers, EightBitRegister::L);
                1
            },
            // LD L, d8
            0x2E => {
                let value = self.fetch_u8();
                self.registers.write_eight(EightBitRegister::L, value);
                2
            },
            // CPL
            0x2F => {
                cpl(&mut self.registers);
                1
            },
            // JR NC, r8
            0x30 => {
                let value = self.fetch_u8();
                match jr_nc(&mut self.registers, value) {
                    JumpResult::Jumped => 3,
                    JumpResult::DidNotJump => 2,
                }
            },
            // LD SP, d16
            0x31 => {
                let value = self.fetch_u16();
                self.registers.write_sixteen(SixteenBitRegister::SP, value);
                3
            },
            // LD (HL-), A
            0x32 => {
                let addr = self.registers.read_sixteen(SixteenBitRegister::HL);
                let value = self.registers.read_eight(EightBitRegister::A);
                self.mmu.write_u8(addr, value);
                self.registers.write_sixteen(SixteenBitRegister::HL, addr.wrapping_sub(1));
                2
            },
            // INC SP
            0x33 => {
                let value = self.registers.read_sixteen(SixteenBitRegister::SP);
                self.registers.write_sixteen(SixteenBitRegister::SP, value.wrapping_add(1));
                2
            },
            // INC (HL)
            0x34 => {
                let value = self.read_hl();
                let result = alu_inc_value(&mut self.registers, value);
                self.write_hl(result);
                3
            },
            // DEC (HL)
            0x35 => {
                let value = self.read_hl();
                let result = alu_dec_value(&mut self.registers, value);
                self.write_hl(result);
                3
            },
            // LD (HL), d8
            0x36 => {
                let value = self.fetch_u8();
                self.write_hl(value);
                3
            },
            // SCF
            0x37 => {
                scf(&mut self.registers);
                1
            },
            // JR C, r8
            0x38 => {
                let value = self.fetch_u8();
                match jr_c(&mut self.registers, value) {
                    JumpResult::Jumped => 3,
                    JumpResult::DidNotJump => 2,
                }
            },
            // ADD HL, SP
            0x39 => {
                alu_add_16(&mut self.registers, SixteenBitRegister::SP);
                2
            },
            // LD A, (HL-)
            0x3A => {
                let addr = self.registers.read_sixteen(SixteenBitRegister::HL);
                let value = self.mmu.read_u8(addr);
                self.registers.write_eight(EightBitRegister::A, value);
                self.registers.write_sixteen(SixteenBitRegister::HL, addr.wrapping_sub(1));
                2
            },
            // DEC SP
            0x3B => {
                let value = self.registers.read_sixteen(SixteenBitRegister::SP);
                self.registers.write_sixteen(SixteenBitRegister::SP, value.wrapping_sub(1));
                2
            },
            // INC A
            0x3C => {
                alu_inc(&mut self.registers, EightBitRegister::A);
                1
            },
            // DEC A
            0x3D => {
                alu_dec(&mut self.registers, EightBitRegister::A);
                1
            },
            // LD A, d8
            0x3E => {
                let value = self.fetch_u8();
                self.registers.write_eight(EightBitRegister::A, value);
                2
            },
            // CCF
            0x3F => {
                ccf(&mut self.registers);
                1
            },
            _ => 1,
        }
    }

    /// The irregular 0xC0..=0xFF quadrant of the opcode table: stack and
    /// subroutine linkage, absolute jumps, the CB prefix, immediate
    /// arithmetic, the high-page loads and the interrupt-enable switches.
    #[verifier::rlimit(100)]
    #[verifier::spinoff_prover]
    fn handle_op_high(&mut self, opcode: u8) -> (r: u8)
        requires
            old(self).mmu.wf(),
            opcode >= 0xC0,
        ensures
            final(self).mmu.wf(),
            1 <= r <= 6,
            r == spec_opcode_cost(*old(self), opcode),
            final(self).ime == spec_ime_after(old(self).ime, opcode),
            final(self).stopped == (old(self).stopped || spec_undefined_opcode(opcode)),
            final(self).halted == old(self).halted,
            opcode == 0xF1 ==> final(self).mmu == old(self).mmu && final(self).registers
                == (Registers {
                sp: ((old(self).registers.sp + 2) % 0x10000) as u16,
                ..old(self).registers
            }).spec_write_sixteen(
                SixteenBitRegister::AF,
                (((spec_read(old(self).mmu, old(self).registers.sp) + 256 * spec_read(
                    old(self).mmu,
                    ((old(self).registers.sp + 1) % 0x10000) as u16,
                )) as u16) & 0xFFF0),
            ),
    {
        match opcode {
            // RET NZ
            0xC0 => match ret_nz(self) {
                ReturnResult::Returned => 5,
                ReturnResult::DidNotReturn => 2,
            },
            // POP BC
            0xC1 => {
                let value = stack_pop(self);
                self.registers.write_sixteen(SixteenBitRegister::BC, value);
                3
            },
            // JP NZ, a16
            0xC2 => {
                let value = self.fetch_u16();
                match jp_nz(&mut self.registers, value) {
                    JumpResult::Jumped => 4,
                    JumpResult::DidNotJump => 3,
                }
            },
            // JP a16
            0xC3 => {
                let value = self.fetch_u16();
                jp(&mut self.registers, value);
                4
            },
            // CALL NZ, a16
            0xC4 => {
                let value = self.fetch_u16();
                match call_nz(self, value) {
                    CallResult::Called => 6,
                    CallResult::DidNotCall => 3,
                }
            },
            // PUSH BC
            0xC5 => {
                let value = self.registers.read_sixteen(SixteenBitRegister::BC);
                stack_push(self, value);
                4
            },
            // ADD A, d8
            0xC6 => {
                let value = self.fetch_u8();
                alu_add_value(&mut self.registers, value);
                2
            },
            // RST 00H
            0xC7 => {
                call(self, 0x00);
                4
            },
            // RET Z
            0xC8 => match ret_z(self) {
                ReturnResult::Returned => 5,
                ReturnResult::DidNotReturn => 2,
            },
            // RET
            0xC9 => {
                ret(self);
                4
            },
            // JP Z, a16
            0xCA => {
                let value = self.fetch_u16();
                match jp_z(&mut self.registers, value) {
                    JumpResult::Jumped => 4,
                    JumpResult::DidNotJump => 3,
                }
            },
            // PREFIX CB
            0xCB => {
                let cb_opcode = self.fetch_u8();
                cb_instructions::handle_cb_instructions(self, cb_opcode)
            },
            // CALL Z, a16
            0xCC => {
                let value = self.fetch_u16();
                match call_z(self, value) {
                    CallResult::Called => 6,
                    CallResult::DidNotCall => 3,
                }
            },
            // CALL a16
            0xCD => {
                let value = self.fetch_u16();
                call(self, value);
                6
            },
            // ADC A, d8
            0xCE => {
                let value = self.fetch_u8();
                alu_adc_value(&mut self.registers, value);
                2
            },
            // RST 08H
            0xCF => {
                call(self, 0x08);
                4
            },
            // The 0xD0 row and the rest of the table live in their own
            // quadrants.
            _ => self.handle_op_dx(opcode),
        }
    }

    /// The 0xD0..=0xDF row of the opcode table: the carry-conditional
    /// returns, jumps and calls, RETI, and the immediate subtractions.
    #[verifier::rlimit(100)]
    #[verifier::spinoff_prover]
    fn handle_op_dx(&mut self, opcode: u8) -> (r: u8)
        requires
            old(self).mmu.wf(),
            opcode >= 0xD0,
        ensures
            final(self).mmu.wf(),
            1 <= r <= 6,
            r == spec_opcode_cost(*old(self), opcode),
            final(self).ime == spec_ime_after(old(self).ime, opcode),
            final(self).stopped == (old(self).stopped || spec_undefined_opcode(opcode)),
            final(self).halted == old(self).halted,
            opcode == 0xF1 ==> final(self).mmu == old(self).mmu && final(self).registers
                == (Registers {
                sp: ((old(self).registers.sp + 2) % 0x10000) as u16,
                ..old(self).registers
            }).spec_write_sixteen(
                SixteenBitRegister::AF,
                (((spec_read(old(self).mmu, old(self).registers.sp) + 256 * spec_read(
                    old(self).mmu,
                    ((old(self).registers.sp + 1) % 0x10000) as u16,
                )) as u16) & 0xFFF0),
            ),
    {
        match opcode {
            // RET NC
            0xD0 => match ret_nc(self) {
                ReturnResult::Returned => 5,
                ReturnResult::DidNotReturn => 2,
            },
            // POP DE
            0xD1 => {
                let value = stack_pop(self);
                self.registers.write_sixteen(SixteenBitRegister::DE, value);
                3
            },
            // JP NC, a16
            0xD2 => {
                let value = self.fetch_u16();
                match jp_nc(&mut self.registers, value) {
                    JumpResult::Jumped => 4,
                    JumpResult::DidNotJump => 3,
                }
            },
            // CALL NC, a16
            0xD4 => {
                let value = self.fetch_u16();
                match call_nc(self, value) {
                    CallResult::Called => 6,
                    CallResult::DidNotCall => 3,
                }
            },
            // PUSH DE
            0xD5 => {
                let value = self.registers.read_sixteen(SixteenBitRegister::DE);
                stack_push(self, value);
                4
            },
            // SUB d8
            0xD6 => {
                let value = self.fetch_u8();
                alu_sub_value(&mut self.registers, value);
                2
            },
            // RST 10H
            0xD7 => {
                call(self, 0x10);
                4
            },
            // RET C
            0xD8 => match ret_c(self) {
                ReturnResult::Returned => 5,
                ReturnResult::DidNotReturn => 2,
            },
            // RETI
            0xD9 => {
                ret(self);
                self.ime = true;
                4
            },
            // JP C, a16
            0xDA => {
                let value = self.fetch_u16();
                match jp_c(&mut self.registers, value) {
                    JumpResult::Jumped => 4,
                    JumpResult::DidNotJump => 3,
                }
            },
            // CALL C, a16
            0xDC => {
                let value = self.fetch_u16();
                match call_c(self, value) {
                    CallResult::Called => 6,
                    CallResult::DidNotCall => 3,
                }
            },
            // SBC A, d8
            0xDE => {
                let value = self.fetch_u8();
                alu_sbc_value(&mut self.registers, value);
                2
            },
            // RST 18H
            0xDF => {
                call(self, 0x18);
                4
            },
            // The rest of the table lives in the top quadrant.
            _ => self.handle_op_top(opcode),
        }
    }

    /// The irregular 0xE0..=0xFF quadrant of the opcode table: the high-page
    /// loads, the stack-pointer arithmetic, PUSH/POP AF and the
    /// interrupt-enable switches.
    #[verifier::rlimit(100)]
    #[verifier::spinoff_prover]
    fn handle_op_top(&mut self, opcode: u8) -> (r: u8)
        requires
            old(self).mmu.wf(),
            opcode >= 0xE0 || spec_undefined_opcode(opcode),
        ensures
            final(self).mmu.wf(),
            1 <= r <= 6,
            r == spec_opcode_cost(*old(self), opcode),
            final(self).ime == spec_ime_after(old(self).ime, opcode),
            final(self).stopped == (old(self).stopped || spec_undefined_opcode(opcode)),
            final(self).halted == old(self).halted,
            opcode == 0xF1 ==> final(self).mmu == old(self).mmu && final(self).registers
                == (Registers {
                sp: ((old(self).registers.sp + 2) % 0x10000) as u16,
                ..old(self).registers
            }).spec_write_sixteen(
                SixteenBitRegister::AF,
                (((spec_read(old(self).mmu, old(self).registers.sp) + 256 * spec_read(
                    old(self).mmu,
                    ((old(self).registers.sp + 1) % 0x10000) as u16,
                )) as u16) & 0xFFF0),
            ),
    {
        match opcode {
            // LDH (a8), A
            0xE0 => {
                let offset = self.fetch_u8();
                let addr = 0xFF00 + offset as u16;
                let value = self.registers.read_eight(EightBitRegister::A);
                self.mmu.write_u8(addr, value);
                3
            },
            // POP HL
            0xE1 => {
                let value = stack_pop(self);
                self.registers.write_sixteen(SixteenBitRegister::HL, value);
                3
            },
            // LD (C), A
            0xE2 => {
                let offset = self.registers.read_eight(EightBitRegister::C) as u16;
                let addr = 0xFF00 + offset;
                let value = self.registers.read_eight(EightBitRegister::A);
                self.mmu.write_u8(addr, value);
                2
            },
            // PUSH HL
            0xE5 => {
                let value = self.registers.read_sixteen(SixteenBitRegister::HL);
                stack_push(self, value);
                4
            },
            // AND d8
            0xE6 => {
                let value = self.fetch_u8();
                alu_and_value(&mut self.registers, value);
                2
            },
            // RST 20H
            0xE7 => {
                call(self, 0x20);
                4
            },
            // ADD SP, r8
            0xE8 => {
                let value = self.fetch_u8();
                add_sp_r8(&mut self.registers, value);
                4
            },
            // JP (HL)
            0xE9 => {
                let addr = self.registers.read_sixteen(SixteenBitRegister::HL);
                jp(&mut self.registers, addr);
                1
            },
            // LD (a16), A
            0xEA => {
                let addr = self.fetch_u16();
                let value = self.registers.read_eight(EightBitRegister::A);
                self.mmu.write_u8(addr, value);
                4
            },
            // XOR d8
            0xEE => {
                let value = self.fetch_u8();
                alu_xor_value(&mut self.registers, value);
                2
            },
            // RST 28H
            0xEF => {
                call(self, 0x28);
                4
            },
            // LDH A, (a8)
            0xF0 => {
                let offset = self.fetch_u8() as u16;
                let addr = offset + 0xFF00;
                let value = self.mmu.read_u8(addr);
                self.registers.write_eight(EightBitRegister::A, value);
                2
            },
            // POP AF; the popped word is masked so F's low nibble stays zero.
            0xF1 => {
                let value = stack_pop(self) & 0xFFF0;
                self.registers.write_sixteen(SixteenBitRegister::AF, value);
                3
            },
            // LD A, (C)
            0xF2 => {
                let offset = self.registers.read_eight(EightBitRegister::C) as u16;
                let addr = 0xFF00 + offset;
                let value = self.mmu.read_u8(addr);
                self.registers.write_eight(EightBitRegister::A, value);
                2
            },
            // DI
            0xF3 => {
                self.ime = false;
                1
            },
            // PUSH AF
            0xF5 => {
                let value = self.registers.read_sixteen(SixteenBitRegister::AF);
                stack_push(self, value);
                4
            },
            // OR d8
            0xF6 => {
                let value = self.fetch_u8();
                alu_or_value(&mut self.registers, value);
                2
            },
            // RST 30H
            0xF7 => {
                call(self, 0x30);
                4
            },
            // LD HL, SP+r8
            0xF8 => {
                let value = self.fetch_u8();
                ld_hl_sp_r8(&mut self.registers, value);
                3
            },
            // LD SP, HL
            0xF9 => {
                let value = self.registers.read_sixteen(SixteenBitRegister::HL);
                self.registers.write_sixteen(SixteenBitRegister::SP, value);
                2
            },
            // LD A, (a16)
            0xFA => {
                let addr = self.fetch_u16();
                let value = self.mmu.read_u8(addr);
                self.registers.write_eight(EightBitRegister::A, value);
                4
            },
            // EI
            0xFB => {
                self.ime = true;
                1
            },
            // CP d8
            0xFE => {
                let value = self.fetch_u8();
                alu_cp_value(&mut self.registers, value);
                2
            },
            // RST 38H
            0xFF => {
                call(self, 0x38);
                4
            },
            // An opcode outside the LR35902 table: an unrecoverable decode
            // error; the CPU freezes.
            _ => {
                self.stopped = true;
                1
            },
        }
    }
}

} // verus!
