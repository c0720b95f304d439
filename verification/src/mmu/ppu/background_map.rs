//! The two 32x32 background maps at 0x9800 and 0x9C00: each entry is the
//! tile number displayed at that background cell.

use vstd::prelude::*;

verus! {

/// Which background map is addressed: map 0 at 0x9800, map 1 at 0x9C00.
#[derive(Debug, Clone, Copy, PartialEq, Eq, Structural)]
pub enum BGMapSelection {
    Map0,
    Map1,
}

/// One 32x32 grid of tile numbers.
pub struct BackgroundMap(pub Vec<u8>);

/// The tile number at background-plane coordinates `(x, y)`: the maps tile
/// the plane in 8x8 cells, 32 to a row.
pub open spec fn spec_tile_number_at(map: Seq<u8>, x: u8, y: u8) -> u8 {
    map[(y / 8) * 32 + (x / 8)]
}

impl BackgroundMap {
    /// An all-zero map.
    pub fn new() -> (r: BackgroundMap)
        ensures
            r.0@ == Seq::new(0x400, |i: int| 0u8),
    {
        BackgroundMap(crate::cartridge::zeroed(0x400))
    }


    /// Whether an offset addresses a byte of the map.
    pub fn check_addr_range(addr: u16) -> (r: bool)
        ensures
            r == (addr < 0x400),
    {
        addr < 0x400
    }

    pub fn read(&self, addr: u16) -> (r: u8)
        requires
            addr < 0x400,
            self.0@.len() == 0x400,
        ensures
            r == self.0@[addr as int],
    {
        self.0[addr as usize]
    }

    pub fn write(&mut self, addr: u16, value: u8)
        requires
            addr < 0x400,
            old(self).0@.len() == 0x400,
        ensures
            final(self).0@ == old(self).0@.update(addr as int, value),
    {
        self.0.set(addr as usize, value);
    }

    /// The tile number at background-plane coordinates `(x, y)`.
    pub fn tile_number_at(&self, x: u8, y: u8) -> (r: u8)
        requires
            self.0@.len() == 0x400,
        ensures
            r == spec_tile_number_at(self.0@, x, y),
    {
        let col = (x / 8) as usize;
        let row = (y / 8) as usize;

        self.0[row * 32 + col]
    }
}

} // verus!
