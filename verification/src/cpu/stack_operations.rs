//! Stack operations and subroutine linkage: push, pop, CALL and RET with
//! their conditional forms. The stack grows downward from SP through the
//! normal memory map.

use crate::cpu::CPU;
use crate::mmu::spec_read;
use crate::mmu::spec_write_u8;
use crate::mmu::MMU;
use crate::registers::Registers;
use crate::registers::SixteenBitRegister;
use vstd::prelude::*;

verus! {

/// Whether a conditional call was taken.
#[derive(Debug, PartialEq, Eq, Copy, Clone, Structural)]
pub enum CallResult {
    Called,
    DidNotCall,
}

/// Whether a conditional return was taken.
#[derive(Debug, PartialEq, Eq, Copy, Clone, Structural)]
pub enum ReturnResult {
    Returned,
    DidNotReturn,
}

/// SP after a push: two lower, wrapping.
pub open spec fn spec_pushed_sp(sp: u16) -> u16 {
    ((sp - 2 + 0x10000) % 0x10000) as u16
}

/// Push a word: SP drops by two and the word is written there, low byte
/// first, through the memory map.
pub fn stack_push(cpu: &mut CPU, value: u16)
    requires
        old(cpu).mmu.wf(),
    ensures
        cpu_regs_after_push(*old(cpu), *final(cpu)),
        final(cpu).mmu.wf(),
        spec_pushed_word(old(cpu).mmu, final(cpu).mmu, old(cpu).registers.sp, value),
        final(cpu).halted == old(cpu).halted,
        final(cpu).ime == old(cpu).ime,
        final(cpu).stopped == old(cpu).stopped,
{
    let sp = cpu.registers.read_sixteen(SixteenBitRegister::SP).wrapping_sub(2);
    cpu.mmu.write_u16(sp, value);
    cpu.registers.write_sixteen(SixteenBitRegister::SP, sp);
}

/// The register file keeps everything but SP across a push.
pub open spec fn cpu_regs_after_push(o: CPU, f: CPU) -> bool {
    f.registers == (Registers { sp: spec_pushed_sp(o.registers.sp), ..o.registers })
}

/// The memory effect of pushing `value` with the stack pointer at `sp`: the
/// low byte written at `sp - 2` and the high byte at `sp - 1`, both through
/// the memory map.
pub open spec fn spec_pushed_word(o: MMU, f: MMU, sp: u16, value: u16) -> bool {
    exists|mid: MMU|
        #[trigger] spec_write_u8(o, mid, spec_pushed_sp(sp), (value % 256) as u8)
            && spec_write_u8(
            mid,
            f,
            ((spec_pushed_sp(sp) + 1) % 0x10000) as u16,
            (value / 256) as u8,
        )
}

/// Pop a word: the word at SP, low byte first, and SP rises by two.
pub fn stack_pop(cpu: &mut CPU) -> (r: u16)
    requires
        old(cpu).mmu.wf(),
    ensures
        final(cpu).mmu == old(cpu).mmu,
        final(cpu).mmu.wf(),
        r == spec_read(old(cpu).mmu, old(cpu).registers.sp) + 256 * spec_read(
            old(cpu).mmu,
            ((old(cpu).registers.sp + 1) % 0x10000) as u16,
        ),
        final(cpu).registers == (Registers {
            sp: ((old(cpu).registers.sp + 2) % 0x10000) as u16,
            ..old(cpu).registers
        }),
        final(cpu).halted == old(cpu).halted,
        final(cpu).ime == old(cpu).ime,
        final(cpu).stopped == old(cpu).stopped,
{
    let sp = cpu.registers.read_sixteen(SixteenBitRegister::SP);
    let value = cpu.mmu.read_u16(sp);

    cpu.registers.write_sixteen(SixteenBitRegister::SP, sp.wrapping_add(2));

    value
}

/// CALL: push the program counter and jump to the address.
pub fn call(cpu: &mut CPU, address: u16)
    requires
        old(cpu).mmu.wf(),
    ensures
        final(cpu).mmu.wf(),
        final(cpu).registers == (Registers {
            sp: spec_pushed_sp(old(cpu).registers.sp),
            pc: address,
            ..old(cpu).registers
        }),
        spec_pushed_word(old(cpu).mmu, final(cpu).mmu, old(cpu).registers.sp, old(cpu).registers.pc),
        final(cpu).halted == old(cpu).halted,
        final(cpu).ime == old(cpu).ime,
        final(cpu).stopped == old(cpu).stopped,
{
    let pc = cpu.registers.read_sixteen(SixteenBitRegister::PC);
    stack_push(cpu, pc);
    cpu.registers.write_sixteen(SixteenBitRegister::PC, address);
}

/// CALL NZ: call when the zero flag is clear.
pub fn call_nz(cpu: &mut CPU, address: u16) -> (r: CallResult)
    requires
        old(cpu).mmu.wf(),
    ensures
        final(cpu).mmu.wf(),
        final(cpu).halted == old(cpu).halted,
        final(cpu).ime == old(cpu).ime,
        final(cpu).stopped == old(cpu).stopped,
        r == (if old(cpu).registers.zero_flag() {
            CallResult::DidNotCall
        } else {
            CallResult::Called
        }),
        old(cpu).registers.zero_flag() ==> *final(cpu) == *old(cpu),
        !old(cpu).registers.zero_flag() ==> final(cpu).registers == (Registers {
            sp: spec_pushed_sp(old(cpu).registers.sp),
            pc: address,
            ..old(cpu).registers
        }) && spec_pushed_word(
            old(cpu).mmu,
            final(cpu).mmu,
            old(cpu).registers.sp,
            old(cpu).registers.pc,
        ),
{
    if !cpu.registers.get_zero_flag() {
        call(cpu, address);
        CallResult::Called
    } else {
        CallResult::DidNotCall
    }
}

/// CALL Z: call when the zero flag is set.
pub fn call_z(cpu: &mut CPU, address: u16) -> (r: CallResult)
    requires
        old(cpu).mmu.wf(),
    ensures
        final(cpu).mmu.wf(),
        final(cpu).halted == old(cpu).halted,
        final(cpu).ime == old(cpu).ime,
        final(cpu).stopped == old(cpu).stopped,
        r == (if old(cpu).registers.zero_flag() {
            CallResult::Called
        } else {
            CallResult::DidNotCall
        }),
        !old(cpu).registers.zero_flag() ==> *final(cpu) == *old(cpu),
        old(cpu).registers.zero_flag() ==> final(cpu).registers == (Registers {
            sp: spec_pushed_sp(old(cpu).registers.sp),
            pc: address,
            ..old(cpu).registers
        }) && spec_pushed_word(
            old(cpu).mmu,
            final(cpu).mmu,
            old(cpu).registers.sp,
            old(cpu).registers.pc,
        ),
{
    if cpu.registers.get_zero_flag() {
        call(cpu, address);
        CallResult::Called
    } else {
        CallResult::DidNotCall
    }
}

/// CALL NC: call when the carry flag is clear.
pub fn call_nc(cpu: &mut CPU, address: u16) -> (r: CallResult)
    requires
        old(cpu).mmu.wf(),
    ensures
        final(cpu).mmu.wf(),
        final(cpu).halted == old(cpu).halted,
        final(cpu).ime == old(cpu).ime,
        final(cpu).stopped == old(cpu).stopped,
        r == (if old(cpu).registers.carry_flag() {
            CallResult::DidNotCall
        } else {
            CallResult::Called
        }),
        old(cpu).registers.carry_flag() ==> *final(cpu) == *old(cpu),
        !old(cpu).registers.carry_flag() ==> final(cpu).registers == (Registers {
            sp: spec_pushed_sp(old(cpu).registers.sp),
            pc: address,
            ..old(cpu).registers
        }) && spec_pushed_word(
            old(cpu).mmu,
            final(cpu).mmu,
            old(cpu).registers.sp,
            old(cpu).registers.pc,
        ),
{
    if !cpu.registers.get_carry_flag() {
        call(cpu, address);
        CallResult::Called
    } else {
        CallResult::DidNotCall
    }
}

/// CALL C: call when the carry flag is set.
pub fn call_c(cpu: &mut CPU, address: u16) -> (r: CallResult)
    requires
        old(cpu).mmu.wf(),
    ensures
        final(cpu).mmu.wf(),
        final(cpu).halted == old(cpu).halted,
        final(cpu).ime == old(cpu).ime,
        final(cpu).stopped == old(cpu).stopped,
        r == (if old(cpu).registers.carry_flag() {
            CallResult::Called
        } else {
            CallResult::DidNotCall
        }),
        !old(cpu).registers.carry_flag() ==> *final(cpu) == *old(cpu),
        old(cpu).registers.carry_flag() ==> final(cpu).registers == (Registers {
            sp: spec_pushed_sp(old(cpu).registers.sp),
            pc: address,
            ..old(cpu).registers
        }) && spec_pushed_word(
            old(cpu).mmu,
            final(cpu).mmu,
            old(cpu).registers.sp,
            old(cpu).registers.pc,
        ),
{
    if cpu.registers.get_carry_flag() {
        call(cpu, address);
        CallResult::Called
    } else {
        CallResult::DidNotCall
    }
}

/// RET: pop the return address into the program counter.
pub fn ret(cpu: &mut CPU)
    requires
        old(cpu).mmu.wf(),
    ensures
        final(cpu).mmu == old(cpu).mmu,
        final(cpu).mmu.wf(),
        final(cpu).registers == (Registers {
            sp: ((old(cpu).registers.sp + 2) % 0x10000) as u16,
            pc: (spec_read(old(cpu).mmu, old(cpu).registers.sp) + 256 * spec_read(
                old(cpu).mmu,
                ((old(cpu).registers.sp + 1) % 0x10000) as u16,
            )) as u16,
            ..old(cpu).registers
        }),
        final(cpu).halted == old(cpu).halted,
        final(cpu).ime == old(cpu).ime,
        final(cpu).stopped == old(cpu).stopped,
{
    let address = stack_pop(cpu);
    cpu.registers.write_sixteen(SixteenBitRegister::PC, address);
}

/// RET NZ: return when the zero flag is clear.
pub fn ret_nz(cpu: &mut CPU) -> (r: ReturnResult)
    requires
        old(cpu).mmu.wf(),
    ensures
        final(cpu).mmu.wf(),
        final(cpu).halted == old(cpu).halted,
        final(cpu).ime == old(cpu).ime,
        final(cpu).stopped == old(cpu).stopped,
        r == (if old(cpu).registers.zero_flag() {
            ReturnResult::DidNotReturn
        } else {
            ReturnResult::Returned
        }),
        old(cpu).registers.zero_flag() ==> *final(cpu) == *old(cpu),
        !old(cpu).registers.zero_flag() ==> final(cpu).mmu == old(cpu).mmu && final(cpu).registers
            == (Registers {
            sp: ((old(cpu).registers.sp + 2) % 0x10000) as u16,
            pc: (spec_read(old(cpu).mmu, old(cpu).registers.sp) + 256 * spec_read(
                old(cpu).mmu,
                ((old(cpu).registers.sp + 1) % 0x10000) as u16,
            )) as u16,
            ..old(cpu).registers
        }),
{
    if !cpu.registers.get_zero_flag() {
        ret(cpu);
        ReturnResult::Returned
    } else {
        ReturnResult::DidNotReturn
    }
}

/// RET Z: return when the zero flag is set.
pub fn ret_z(cpu: &mut CPU) -> (r: ReturnResult)
    requires
        old(cpu).mmu.wf(),
    ensures
        final(cpu).mmu.wf(),
        final(cpu).halted == old(cpu).halted,
        final(cpu).ime == old(cpu).ime,
        final(cpu).stopped == old(cpu).stopped,
        r == (if old(cpu).registers.zero_flag() {
            ReturnResult::Returned
        } else {
            ReturnResult::DidNotReturn
        }),
        !old(cpu).registers.zero_flag() ==> *final(cpu) == *old(cpu),
        old(cpu).registers.zero_flag() ==> final(cpu).mmu == old(cpu).mmu && final(cpu).registers
            == (Registers {
            sp: ((old(cpu).registers.sp + 2) % 0x10000) as u16,
            pc: (spec_read(old(cpu).mmu, old(cpu).registers.sp) + 256 * spec_read(
                old(cpu).mmu,
                ((old(cpu).registers.sp + 1) % 0x10000) as u16,
            )) as u16,
            ..old(cpu).registers
        }),
{
    if cpu.registers.get_zero_flag() {
        ret(cpu);
        ReturnResult::Returned
    } else {
        ReturnResult::DidNotReturn
    }
}

/// RET NC: return when the carry flag is clear.
pub fn ret_nc(cpu: &mut CPU) -> (r: ReturnResult)
    requires
        old(cpu).mmu.wf(),
    ensures
        final(cpu).mmu.wf(),
        final(cpu).halted == old(cpu).halted,
        final(cpu).ime == old(cpu).ime,
        final(cpu).stopped == old(cpu).stopped,
        r == (if old(cpu).registers.carry_flag() {
            ReturnResult::DidNotReturn
        } else {
            ReturnResult::Returned
        }),
        old(cpu).registers.carry_flag() ==> *final(cpu) == *old(cpu),
        !old(cpu).registers.carry_flag() ==> final(cpu).mmu == old(cpu).mmu && final(cpu).registers
            == (Registers {
            sp: ((old(cpu).registers.sp + 2) % 0x10000) as u16,
            pc: (spec_read(old(cpu).mmu, old(cpu).registers.sp) + 256 * spec_read(
                old(cpu).mmu,
                ((old(cpu).registers.sp + 1) % 0x10000) as u16,
            )) as u16,
            ..old(cpu).registers
        }),
{
    if !cpu.registers.get_carry_flag() {
        ret(cpu);
        ReturnResult::Returned
    } else {
        ReturnResult::DidNotReturn
    }
}

/// RET C: return when the carry flag is set.
pub fn ret_c(cpu: &mut CPU) -> (r: ReturnResult)
    requires
        old(cpu).mmu.wf(),
    ensures
        final(cpu).mmu.wf(),
        final(cpu).halted == old(cpu).halted,
        final(cpu).ime == old(cpu).ime,
        final(cpu).stopped == old(cpu).stopped,
        r == (if old(cpu).registers.carry_flag() {
            ReturnResult::Returned
        } else {
            ReturnResult::DidNotReturn
        }),
        !old(cpu).registers.carry_flag() ==> *final(cpu) == *old(cpu),
        old(cpu).registers.carry_flag() ==> final(cpu).mmu == old(cpu).mmu && final(cpu).registers
            == (Registers {
            sp: ((old(cpu).registers.sp + 2) % 0x10000) as u16,
            pc: (spec_read(old(cpu).mmu, old(cpu).registers.sp) + 256 * spec_read(
                old(cpu).mmu,
                ((old(cpu).registers.sp + 1) % 0x10000) as u16,
            )) as u16,
            ..old(cpu).registers
        }),
{
    if cpu.registers.get_carry_flag() {
        ret(cpu);
        ReturnResult::Returned
    } else {
        ReturnResult::DidNotReturn
    }
}


/// A pushed word is read back at the new stack pointer: when both stack
/// bytes land in work RAM, reading the two bytes at SP after the push (as
/// `stack_pop` and RET do) reassembles the pushed word, so a CALL's return
/// address is exactly what RET will find.
pub proof fn lemma_pushed_word_read_back(o: MMU, f: MMU, sp: u16, value: u16)
    requires
        spec_pushed_word(o, f, sp, value),
        0xC000 <= spec_pushed_sp(sp),
        spec_pushed_sp(sp) + 1 <= 0xDFFF,
        o.wf(),
    ensures
        spec_read(f, spec_pushed_sp(sp)) + 256 * spec_read(
            f,
            ((spec_pushed_sp(sp) + 1) % 0x10000) as u16,
        ) == value,
{
    let a0 = spec_pushed_sp(sp);
    let a1 = ((a0 + 1) % 0x10000) as u16;
    let low = (value % 256) as u8;
    let high = (value / 256) as u8;
    let mid = choose|mid: MMU|
        #[trigger] crate::mmu::spec_write_u8(o, mid, a0, low) && crate::mmu::spec_write_u8(
            mid,
            f,
            a1,
            high,
        );
    crate::mmu::lemma_last_write_is_read_back(mid, f, a1, high);
    assert(spec_read(f, a0) == low);
}

} // verus!
