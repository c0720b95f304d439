//! A sprite tile: an 8x8 or 8x16 2bpp image borrowed from the tile-data
//! store, read through the sprite's flip flags.

use crate::mmu::ppu::oam::SpriteFlags;
use crate::mmu::ppu::oam::SpriteSize;
use crate::mmu::ppu::pixel::Pixel;
use crate::mmu::ppu::tile::row_pixel;
use crate::mmu::ppu::tile::spec_tile_pixel;
use vstd::prelude::*;

verus! {

/// A borrowed sprite image: 16 bytes for a normal sprite, 32 for a tall one.
#[derive(Debug)]
pub struct SpriteTile<'a> {
    pub data: &'a [u8],
    pub size: SpriteSize,
}

/// The pixel of a sprite image at `(x, y)` once the flip flags are applied:
/// a horizontal flip mirrors the column, a vertical flip mirrors the row
/// over the sprite's height.
pub open spec fn spec_sprite_pixel(
    data: Seq<u8>,
    size: SpriteSize,
    x: u8,
    y: u8,
    flags: SpriteFlags,
) -> Pixel {
    let fx: u8 = if flags.spec_x_flip() {
        (7 - x) as u8
    } else {
        x
    };
    let fy: u8 = if flags.spec_y_flip() {
        (size.spec_height() - 1 - y) as u8
    } else {
        y
    };
    spec_tile_pixel(data, fx, fy)
}

impl<'a> SpriteTile<'a> {
    pub fn new(data: &'a [u8], size: SpriteSize) -> (r: SpriteTile<'a>)
        ensures
            r.data@ == data@,
            r.size == size,
    {
        SpriteTile { data, size }
    }

    /// The color of the pixel at `(x, y)` under the sprite's flip flags.
    pub fn pixel_at(&self, x: u8, y: u8, flags: SpriteFlags) -> (r: Pixel)
        requires
            x < 8,
            y < self.size.spec_height(),
            self.data@.len() == 2 * self.size.spec_height(),
        ensures
            r == spec_sprite_pixel(self.data@, self.size, x, y, flags),
    {
        let fx: u8 = if flags.x_flip() {
            7 - x
        } else {
            x
        };
        let fy: u8 = if flags.y_flip() {
            self.size.height() - 1 - y
        } else {
            y
        };

        let line_first_byte = self.data[(fy * 2) as usize];
        let line_second_byte = self.data[(fy * 2 + 1) as usize];

        row_pixel(line_first_byte, line_second_byte, fx)
    }
}

} // verus!
