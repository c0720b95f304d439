//! The background viewport registers SCX and SCY: which 160x144 window of
//! the 256x256 background plane the LCD shows.

use vstd::prelude::*;

verus! {

/// The viewport origin.
pub struct BackgroundViewport {
    pub scx: u8,
    pub scy: u8,
}

/// Which viewport register is addressed.
#[derive(Debug, Clone, Copy, PartialEq, Eq, Structural)]
pub enum ViewportRegister {
    SCX,
    SCY,
}

impl Default for BackgroundViewport {
    /// Both registers zero.
    fn default() -> (r: BackgroundViewport)
        ensures
            r.scx == 0 && r.scy == 0,
    {
        BackgroundViewport { scx: 0, scy: 0 }
    }
}

} // verus!
