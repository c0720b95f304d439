//! Interrupt dispatch: the four cases over the master-enable flag and the
//! HALT state, and the scan of IF against IE from bit 0 (VBlank) up to
//! bit 4 (Joypad).

use crate::cpu::stack_operations::spec_pushed_sp;
use crate::cpu::stack_operations::spec_pushed_word;
use crate::cpu::stack_operations::stack_push;
use crate::cpu::CPU;
use crate::interrupts::spec_interrupt_bit;
use crate::interrupts::Interrupt;
use crate::mmu::MMU;
use crate::registers::Registers;
use crate::registers::SixteenBitRegister;
use vstd::prelude::*;

verus! {

/// The bit position of the highest-priority pending request: the lowest set
/// bit of IF masked by IE.
pub open spec fn spec_lowest_pending(mask: u8) -> int {
    if mask & 1 != 0 {
        0
    } else if mask & 2 != 0 {
        1
    } else if mask & 4 != 0 {
        2
    } else if mask & 8 != 0 {
        3
    } else {
        4
    }
}

/// The fixed service vector of each interrupt source.
pub open spec fn spec_interrupt_vector(index: int) -> u16 {
    (0x40 + index * 8) as u16
}

/// The IF bit of the highest-priority pending request.
pub open spec fn spec_pending_bit(mask: u8) -> u8 {
    if mask & 1 != 0 {
        1
    } else if mask & 2 != 0 {
        2
    } else if mask & 4 != 0 {
        4
    } else if mask & 8 != 0 {
        8
    } else {
        16
    }
}

/// Whether pushing the return address with the stack pointer at `sp` stays
/// clear of the IF register, so the acknowledged bit survives the push.
pub open spec fn spec_push_misses_interrupt_flag(sp: u16) -> bool {
    &&& spec_pushed_sp(sp) != 0xFF0F
    &&& ((spec_pushed_sp(sp) + 1) % 0x10000) != 0xFF0F
}

impl CPU {
    /// Request an interrupt from outside the core: set its bit in IF.
    pub fn request_interrupt(&mut self, interrupt: Interrupt)
        ensures
            final(self).mmu.interrupts.interrupt_flag == old(self).mmu.interrupts.interrupt_flag
                | crate::interrupts::spec_interrupt_bit(interrupt),
            final(self).mmu.interrupts.interrupt_enabled
                == old(self).mmu.interrupts.interrupt_enabled,
            final(self).registers == old(self).registers,
            final(self).halted == old(self).halted,
            final(self).ime == old(self).ime,
            final(self).stopped == old(self).stopped,
    {
        self.mmu.interrupts.request_interrupt(interrupt);
    }

    /// Service pending interrupts after an instruction, over the four cases
    /// of (IME, halted):
    /// - (false, false): nothing happens;
    /// - (false, true): a pending serviceable request only exits HALT;
    /// - (true, false): the highest-priority request is serviced;
    /// - (true, true): HALT exits, then the request is serviced.
    /// Servicing takes 4 m-cycles; whenever any IF-and-IE bit is set, the
    /// CPU is out of HALT afterwards.
    pub fn interrupt_step(&mut self) -> (r: u8)
        requires
            old(self).mmu.wf(),
        ensures
            final(self).mmu.wf(),
            r == 0 ==> final(self).mmu == old(self).mmu,
            r == 0 ==> final(self).registers == old(self).registers && final(self).ime == old(self).ime,
            r == 0 || r == 4,
            r <= 4,
            old(self).halted ==> (final(self).halted <==> (old(self).mmu.interrupts.interrupt_flag
                & old(self).mmu.interrupts.interrupt_enabled) == 0),
            !old(self).halted ==> final(self).halted == old(self).halted,
            final(self).halted ==> (final(self).mmu.interrupts.interrupt_flag
                & final(self).mmu.interrupts.interrupt_enabled) == 0,
            final(self).stopped == old(self).stopped,
            !old(self).ime ==> r == 0,
            !old(self).ime && (old(self).mmu.interrupts.interrupt_flag
                & old(self).mmu.interrupts.interrupt_enabled) == 0 ==> *final(self) == *old(self)
                && r == 0,
            ((old(self).mmu.interrupts.interrupt_flag & old(self).mmu.interrupts.interrupt_enabled)
                & 0x1F) == 0 ==> r == 0 && final(self).mmu == old(self).mmu && final(self).registers
                == old(self).registers && final(self).ime == old(self).ime,
            old(self).ime && ((old(self).mmu.interrupts.interrupt_flag
                & old(self).mmu.interrupts.interrupt_enabled) & 0x1F) != 0 ==> {
                let mask = old(self).mmu.interrupts.interrupt_flag
                    & old(self).mmu.interrupts.interrupt_enabled;
                &&& r == 4
                &&& !final(self).ime
                &&& final(self).registers == (Registers {
                    sp: spec_pushed_sp(old(self).registers.sp),
                    pc: spec_interrupt_vector(spec_lowest_pending(mask)),
                    ..old(self).registers
                })
                &&& (spec_push_misses_interrupt_flag(old(self).registers.sp) ==> final(self).mmu.interrupts.interrupt_flag == old(self).mmu.interrupts.interrupt_flag
                    & !spec_pending_bit(mask))
                &&& spec_pushed_word(
                    (MMU {
                        interrupts: (crate::interrupts::Interrupts {
                            interrupt_flag: old(self).mmu.interrupts.interrupt_flag
                                & !spec_pending_bit(mask),
                            ..old(self).mmu.interrupts
                        }),
                        ..old(self).mmu
                    }),
                    final(self).mmu,
                    old(self).registers.sp,
                    old(self).registers.pc,
                )
            },
    {
        if !self.ime && !self.halted {
            0
        } else if !self.ime {
            self.halted_pending_interrupt()
        } else if !self.halted {
            self.interrupt()
        } else {
            self.halted_interrupt()
        }
    }

    /// With IME clear but the CPU halted, any pending serviceable request
    /// exits HALT without being serviced.
    fn halted_pending_interrupt(&mut self) -> (r: u8)
        requires
            old(self).mmu.wf(),
        ensures
            final(self).mmu.wf(),
            r == 0,
            final(self).halted == ((old(self).mmu.interrupts.interrupt_flag
                & old(self).mmu.interrupts.interrupt_enabled) == 0 && old(self).halted),
            final(self).mmu == old(self).mmu,
            final(self).registers == old(self).registers,
            final(self).ime == old(self).ime,
            final(self).stopped == old(self).stopped,
    {
        if self.mmu.interrupts.interrupt_mask() == 0 {
            return 0;
        }

        self.halted = false;
        0
    }

    /// With IME set and the CPU halted, a pending request exits HALT and is
    /// serviced.
    fn halted_interrupt(&mut self) -> (r: u8)
        requires
            old(self).mmu.wf(),
        ensures
            final(self).mmu.wf(),
            r == 0 || r == 4,
            r <= 4,
            final(self).halted == ((old(self).mmu.interrupts.interrupt_flag
                & old(self).mmu.interrupts.interrupt_enabled) == 0 && old(self).halted),
            final(self).stopped == old(self).stopped,
            (old(self).mmu.interrupts.interrupt_flag & old(self).mmu.interrupts.interrupt_enabled)
                == 0 ==> *final(self) == *old(self) && r == 0,
            final(self).halted ==> final(self).mmu == old(self).mmu,
            ((old(self).mmu.interrupts.interrupt_flag & old(self).mmu.interrupts.interrupt_enabled)
                & 0x1F) == 0 ==> r == 0 && final(self).mmu == old(self).mmu && final(self).registers
                == old(self).registers && final(self).ime == old(self).ime,
            ((old(self).mmu.interrupts.interrupt_flag & old(self).mmu.interrupts.interrupt_enabled)
                & 0x1F) != 0 && old(self).ime ==> {
                let mask = old(self).mmu.interrupts.interrupt_flag
                    & old(self).mmu.interrupts.interrupt_enabled;
                &&& r == 4
                &&& !final(self).ime
                &&& final(self).registers == (Registers {
                    sp: spec_pushed_sp(old(self).registers.sp),
                    pc: spec_interrupt_vector(spec_lowest_pending(mask)),
                    ..old(self).registers
                })
                &&& (spec_push_misses_interrupt_flag(old(self).registers.sp) ==> final(self).mmu.interrupts.interrupt_flag == old(self).mmu.interrupts.interrupt_flag
                    & !spec_pending_bit(mask))
                &&& spec_pushed_word(
                    (MMU {
                        interrupts: (crate::interrupts::Interrupts {
                            interrupt_flag: old(self).mmu.interrupts.interrupt_flag
                                & !spec_pending_bit(mask),
                            ..old(self).mmu.interrupts
                        }),
                        ..old(self).mmu
                    }),
                    final(self).mmu,
                    old(self).registers.sp,
                    old(self).registers.pc,
                )
            },
    {
        proof {
            crate::bitmath::lemma_u8_low5_bits(
                old(self).mmu.interrupts.interrupt_flag
                    & old(self).mmu.interrupts.interrupt_enabled,
            );
        }
        if !self.mmu.interrupts.has_interrupt() {
            return 0;
        }

        self.halted = false;
        self.interrupt()
    }

    /// Service the highest-priority pending request: clear IME, acknowledge
    /// the IF bit, push PC, and jump to the source's fixed vector. Without
    /// a pending request nothing happens.
    fn interrupt(&mut self) -> (r: u8)
        requires
            old(self).mmu.wf(),
        ensures
            final(self).mmu.wf(),
            r == 0 || r == 4,
            r <= 4,
            final(self).halted == old(self).halted,
            final(self).stopped == old(self).stopped,
            ((old(self).mmu.interrupts.interrupt_flag & old(self).mmu.interrupts.interrupt_enabled)
                & 0x1F) == 0 ==> *final(self) == *old(self) && r == 0,
            ((old(self).mmu.interrupts.interrupt_flag & old(self).mmu.interrupts.interrupt_enabled)
                & 0x1F) != 0 ==> {
                let mask = old(self).mmu.interrupts.interrupt_flag
                    & old(self).mmu.interrupts.interrupt_enabled;
                &&& r == 4
                &&& !final(self).ime
                &&& final(self).registers == (Registers {
                    sp: spec_pushed_sp(old(self).registers.sp),
                    pc: spec_interrupt_vector(spec_lowest_pending(mask)),
                    ..old(self).registers
                })
                &&& (spec_push_misses_interrupt_flag(old(self).registers.sp) ==> final(self).mmu.interrupts.interrupt_flag == old(self).mmu.interrupts.interrupt_flag
                    & !spec_pending_bit(mask))
                &&& spec_pushed_word(
                    (MMU {
                        interrupts: (crate::interrupts::Interrupts {
                            interrupt_flag: old(self).mmu.interrupts.interrupt_flag
                                & !spec_pending_bit(mask),
                            ..old(self).mmu.interrupts
                        }),
                        ..old(self).mmu
                    }),
                    final(self).mmu,
                    old(self).registers.sp,
                    old(self).registers.pc,
                )
            },
    {
        let interrupts = self.mmu.interrupts.interrupt_mask();
        proof {
            crate::bitmath::lemma_u8_low5_bits(interrupts);
        }

        if interrupts & 1 != 0 {
            self.service(Interrupt::VBlank, 0x40)
        } else if interrupts & 2 != 0 {
            self.service(Interrupt::LCDStat, 0x48)
        } else if interrupts & 4 != 0 {
            self.service(Interrupt::Timer, 0x50)
        } else if interrupts & 8 != 0 {
            self.service(Interrupt::Serial, 0x58)
        } else if interrupts & 16 != 0 {
            self.service(Interrupt::Joypad, 0x60)
        } else {
            0
        }
    }

    /// The service sequence of one interrupt source: clear IME, clear its
    /// IF bit, push PC, jump to its vector; 4 m-cycles.
    fn service(&mut self, interrupt: Interrupt, vector: u16) -> (r: u8)
        requires
            old(self).mmu.wf(),
        ensures
            final(self).mmu.wf(),
            r == 4,
            !final(self).ime,
            final(self).registers == (Registers {
                sp: spec_pushed_sp(old(self).registers.sp),
                pc: vector,
                ..old(self).registers
            }),
            spec_pushed_word(
                (MMU {
                    interrupts: (crate::interrupts::Interrupts {
                        interrupt_flag: old(self).mmu.interrupts.interrupt_flag
                            & !spec_interrupt_bit(interrupt),
                        ..old(self).mmu.interrupts
                    }),
                    ..old(self).mmu
                }),
                final(self).mmu,
                old(self).registers.sp,
                old(self).registers.pc,
            ),
            spec_push_misses_interrupt_flag(old(self).registers.sp)
                ==> final(self).mmu.interrupts.interrupt_flag
                == old(self).mmu.interrupts.interrupt_flag & !spec_interrupt_bit(interrupt),
            final(self).halted == old(self).halted,
            final(self).stopped == old(self).stopped,
    {
        self.ime = false;
        self.mmu.interrupts.interrupt_service(interrupt);
        let pc = self.registers.read_sixteen(SixteenBitRegister::PC);
        stack_push(self, pc);
        self.registers.write_sixteen(SixteenBitRegister::PC, vector);
        proof {
            if spec_push_misses_interrupt_flag(old(self).registers.sp) {
                let o = MMU {
                    interrupts: (crate::interrupts::Interrupts {
                        interrupt_flag: old(self).mmu.interrupts.interrupt_flag
                            & !spec_interrupt_bit(interrupt),
                        ..old(self).mmu.interrupts
                    }),
                    ..old(self).mmu
                };
                let f = self.mmu;
                let sp = old(self).registers.sp;
                let pushed = choose|mid: MMU|
                    #[trigger] crate::mmu::spec_write_u8(
                        o,
                        mid,
                        spec_pushed_sp(sp),
                        (old(self).registers.pc % 256) as u8,
                    ) && crate::mmu::spec_write_u8(
                        mid,
                        f,
                        ((spec_pushed_sp(sp) + 1) % 0x10000) as u16,
                        (old(self).registers.pc / 256) as u8,
                    );
                crate::mmu::lemma_write_preserves_interrupt_flag(
                    o,
                    pushed,
                    spec_pushed_sp(sp),
                    (old(self).registers.pc % 256) as u8,
                );
                crate::mmu::lemma_write_preserves_interrupt_flag(
                    pushed,
                    f,
                    ((spec_pushed_sp(sp) + 1) % 0x10000) as u16,
                    (old(self).registers.pc / 256) as u8,
                );
            }
        }
        4
    }
}

} // verus!
