//! The joypad register at FF00: eight buttons in a 2x4 matrix behind two
//! active-low select bits. Pressing a button clears its bit and latches an
//! interrupt request that the MMU folds into IF.

use vstd::prelude::*;

verus! {

/// The eight Game Boy buttons.
#[derive(Debug, PartialEq, Eq, Clone, Copy, Structural)]
pub enum Button {
    Up,
    Down,
    Left,
    Right,
    A,
    B,
    Select,
    Start,
}

/// Joypad state: the two 4-bit signal groups (active low), the select mask
/// the CPU wrote (only bits 4 and 5 are kept), and the latched interrupt
/// request.
pub struct Joypad {
    pub interrupt_request: bool,
    pub button_signal: u8,
    pub dpad_signal: u8,
    pub mask: u8,
}

/// The signal bit a button occupies within its group.
pub open spec fn spec_button_bit(button: Button) -> u8 {
    match button {
        Button::Right => 0x1,
        Button::Left => 0x2,
        Button::Up => 0x4,
        Button::Down => 0x8,
        Button::A => 0x1,
        Button::B => 0x2,
        Button::Select => 0x4,
        Button::Start => 0x8,
    }
}

/// Whether a button belongs to the direction-pad group.
pub open spec fn spec_is_dpad(button: Button) -> bool {
    match button {
        Button::Right | Button::Left | Button::Up | Button::Down => true,
        _ => false,
    }
}

/// The byte a read of FF00 yields: the selected group's low nibble under the
/// select mask, or all-ones when neither group is selected.
pub open spec fn spec_joypad_read(j: Joypad) -> u8 {
    if j.mask & 0x10 == 0 {
        j.dpad_signal | j.mask
    } else if j.mask & 0x20 == 0 {
        j.button_signal | j.mask
    } else {
        j.mask | 0xF
    }
}

impl Joypad {
    /// All buttons released, no group selected, no interrupt pending.
    pub fn new() -> (r: Joypad)
        ensures
            r == (Joypad { interrupt_request: false, button_signal: 0xF, dpad_signal: 0xF, mask: 0 }),
    {
        Joypad { interrupt_request: false, button_signal: 0xF, dpad_signal: 0xF, mask: 0 }
    }

    /// Read FF00: the selected group under the mask, active low.
    pub fn read(&self) -> (r: u8)
        ensures
            r == spec_joypad_read(*self),
    {
        if self.mask & 0x10 == 0 {
            return self.dpad_signal | self.mask;
        }
        if self.mask & 0x20 == 0 {
            return self.button_signal | self.mask;
        }
        self.mask | 0xF
    }

    /// Write FF00: only the select bits in the upper nibble are stored.
    pub fn write(&mut self, value: u8)
        ensures
            *final(self) == (Joypad { mask: value & 0xF0, ..*old(self) }),
    {
        self.mask = value & 0xF0;
    }

    pub fn interrupt_requested(&self) -> (r: bool)
        ensures
            r == self.interrupt_request,
    {
        self.interrupt_request
    }

    pub fn reset_interrupt(&mut self)
        ensures
            *final(self) == (Joypad { interrupt_request: false, ..*old(self) }),
    {
        self.interrupt_request = false;
    }

    /// Press a button: clear its active-low bit in its group and latch the
    /// interrupt request.
    pub fn button_down(&mut self, button: Button)
        ensures
            *final(self) == (if spec_is_dpad(button) {
                Joypad {
                    dpad_signal: old(self).dpad_signal & !spec_button_bit(button),
                    interrupt_request: true,
                    ..*old(self)
                }
            } else {
                Joypad {
                    button_signal: old(self).button_signal & !spec_button_bit(button),
                    interrupt_request: true,
                    ..*old(self)
                }
            }),
    {
        match button {
            Button::Up => {
                self.dpad_signal = self.dpad_signal & !0x4;
            },
            Button::Down => {
                self.dpad_signal = self.dpad_signal & !0x8;
            },
            Button::Left => {
                self.dpad_signal = self.dpad_signal & !0x2;
            },
            Button::Right => {
                self.dpad_signal = self.dpad_signal & !0x1;
            },
            Button::A => {
                self.button_signal = self.button_signal & !0x1;
            },
            Button::B => {
                self.button_signal = self.button_signal & !0x2;
            },
            Button::Select => {
                self.button_signal = self.button_signal & !0x4;
            },
            Button::Start => {
                self.button_signal = self.button_signal & !0x8;
            },
        }

        self.interrupt_request = true;
    }

    /// Release a button: set its active-low bit in its group.
    pub fn button_release(&mut self, button: Button)
        ensures
            *final(self) == (if spec_is_dpad(button) {
                Joypad { dpad_signal: old(self).dpad_signal | spec_button_bit(button), ..*old(self) }
            } else {
                Joypad {
                    button_signal: old(self).button_signal | spec_button_bit(button),
                    ..*old(self)
                }
            }),
    {
        match button {
            Button::Up => {
                self.dpad_signal = self.dpad_signal | 0x4;
            },
            Button::Down => {
                self.dpad_signal = self.dpad_signal | 0x8;
            },
            Button::Left => {
                self.dpad_signal = self.dpad_signal | 0x2;
            },
            Button::Right => {
                self.dpad_signal = self.dpad_signal | 0x1;
            },
            Button::A => {
                self.button_signal = self.button_signal | 0x1;
            },
            Button::B => {
                self.button_signal = self.button_signal | 0x2;
            },
            Button::Select => {
                self.button_signal = self.button_signal | 0x4;
            },
            Button::Start => {
                self.button_signal = self.button_signal | 0x8;
            },
        }
    }
}

} // verus!
