//! A background tile: an 8x8 2bpp image borrowed from the tile-data store.

use crate::mmu::ppu::pixel::Pixel;
use crate::mmu::ppu::tile::row_pixel;
use crate::mmu::ppu::tile::spec_tile_pixel;
use vstd::prelude::*;

verus! {

/// A borrowed 16-byte tile image.
#[derive(Debug)]
pub struct BackgroundTile<'a>(pub &'a [u8]);

impl<'a> BackgroundTile<'a> {
    pub fn new(data: &'a [u8]) -> (r: BackgroundTile<'a>)
        ensures
            r.0@ == data@,
    {
        BackgroundTile(data)
    }

    /// The color of the pixel at `(x, y)`; tiles are 8x8.
    pub fn pixel_at(&self, x: u8, y: u8) -> (r: Pixel)
        requires
            x < 8,
            y < 8,
            self.0@.len() >= 16,
        ensures
            r == spec_tile_pixel(self.0@, x, y),
    {
        let line_first_byte = self.0[(y * 2) as usize];
        let line_second_byte = self.0[(y * 2 + 1) as usize];

        row_pixel(line_first_byte, line_second_byte, x)
    }
}

} // verus!
