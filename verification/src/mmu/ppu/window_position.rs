//! The window position registers WX and WY: where the window layer's origin
//! sits on the LCD. WX is stored offset by 7.

use vstd::prelude::*;

verus! {

/// The window origin registers.
pub struct WindowPosition {
    pub wx: u8,
    pub wy: u8,
}

/// Which window register is addressed.
#[derive(Debug, Clone, Copy, PartialEq, Eq, Structural)]
pub enum WindowPositionRegister {
    WX,
    WY,
}

impl Default for WindowPosition {
    /// Both registers zero.
    fn default() -> (r: WindowPosition)
        ensures
            r.wx == 0 && r.wy == 0,
    {
        WindowPosition { wx: 0, wy: 0 }
    }
}

impl WindowPosition {
    /// The screen row the window starts at.
    pub fn wy(&self) -> (r: u8)
        ensures
            r == self.wy,
    {
        self.wy
    }

    /// The screen column the window starts at: the stored value less 7,
    /// clamped at zero.
    pub fn wx(&self) -> (r: u8)
        ensures
            r == (if self.wx >= 7 {
                (self.wx - 7) as u8
            } else {
                0u8
            }),
    {
        if self.wx >= 7 {
            self.wx - 7
        } else {
            0
        }
    }
}

} // verus!
