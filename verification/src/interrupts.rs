//! The interrupt registers: IF latches requests, IE masks which of them the
//! CPU may service. Five sources, priority from bit 0 (VBlank) to bit 4
//! (Joypad).

use vstd::prelude::*;

verus! {

/// The five interrupt sources, in priority order.
#[derive(Debug, Copy, Clone, PartialEq, Eq, Structural)]
pub enum Interrupt {
    VBlank,
    LCDStat,
    Timer,
    Serial,
    Joypad,
}

/// The IF bit an interrupt source occupies.
pub open spec fn spec_interrupt_bit(interrupt: Interrupt) -> u8 {
    match interrupt {
        Interrupt::VBlank => 0b1,
        Interrupt::LCDStat => 0b10,
        Interrupt::Timer => 0b100,
        Interrupt::Serial => 0b1000,
        Interrupt::Joypad => 0b10000,
    }
}

/// The IF and IE registers.
pub struct Interrupts {
    pub interrupt_enabled: u8,
    pub interrupt_flag: u8,
}

impl Interrupts {
    /// Both registers clear.
    pub fn new() -> (r: Interrupts)
        ensures
            r == (Interrupts { interrupt_flag: 0, interrupt_enabled: 0 }),
    {
        Interrupts { interrupt_flag: 0, interrupt_enabled: 0 }
    }

    /// Latch a request: set the source's bit in IF. It is serviced only once
    /// the matching IE bit is also set.
    pub fn request_interrupt(&mut self, interrupt: Interrupt)
        ensures
            *final(self) == (Interrupts {
                interrupt_flag: old(self).interrupt_flag | spec_interrupt_bit(interrupt),
                ..*old(self)
            }),
    {
        let bit = interrupt_bit(interrupt);
        self.interrupt_flag = self.interrupt_flag | bit;
    }

    /// Acknowledge a serviced interrupt: clear the source's bit in IF.
    pub fn interrupt_service(&mut self, interrupt: Interrupt)
        ensures
            *final(self) == (Interrupts {
                interrupt_flag: old(self).interrupt_flag & !spec_interrupt_bit(interrupt),
                ..*old(self)
            }),
    {
        let bit = interrupt_bit(interrupt);
        self.interrupt_flag = self.interrupt_flag & !bit;
    }

    /// The pending, serviceable requests: IF masked by IE.
    pub fn interrupt_mask(&self) -> (r: u8)
        ensures
            r == self.interrupt_flag & self.interrupt_enabled,
    {
        self.interrupt_flag & self.interrupt_enabled
    }

    /// Whether any serviceable request is pending.
    pub fn has_interrupt(&self) -> (r: bool)
        ensures
            r == (self.interrupt_flag & self.interrupt_enabled != 0),
    {
        self.interrupt_mask() != 0
    }

    pub fn write_interrupt_enabled(&mut self, value: u8)
        ensures
            *final(self) == (Interrupts { interrupt_enabled: value, ..*old(self) }),
    {
        self.interrupt_enabled = value;
    }

    pub fn write_interrupt_flag(&mut self, value: u8)
        ensures
            *final(self) == (Interrupts { interrupt_flag: value, ..*old(self) }),
    {
        self.interrupt_flag = value;
    }

    pub fn read_interrupt_enabled(&self) -> (r: u8)
        ensures
            r == self.interrupt_enabled,
    {
        self.interrupt_enabled
    }

    pub fn read_interrupt_flag(&self) -> (r: u8)
        ensures
            r == self.interrupt_flag,
    {
        self.interrupt_flag
    }
}

/// The IF bit of an interrupt source, as a value.
pub fn interrupt_bit(interrupt: Interrupt) -> (r: u8)
    ensures
        r == spec_interrupt_bit(interrupt),
{
    match interrupt {
        Interrupt::VBlank => 0b1,
        Interrupt::LCDStat => 0b10,
        Interrupt::Timer => 0b100,
        Interrupt::Serial => 0b1000,
        Interrupt::Joypad => 0b10000,
    }
}

} // verus!
