//! An 8x8 tile in the 2-bits-per-pixel encoding: each row is two bytes, the
//! even byte holding every pixel's low bit and the odd byte its high bit,
//! with pixel 0 in bit 7.

use crate::mmu::ppu::pixel::spec_pixel_from_code;
use crate::mmu::ppu::pixel::Pixel;
use vstd::prelude::*;

verus! {

broadcast use crate::bitmath::lemma_u8_low1_mask;

/// An owned 16-byte tile image.
pub struct Tile(pub [u8; 16]);

/// The two-bit color code of pixel `x` in the row held by `low_byte` and
/// `high_byte`: pixel 0 sits in bit 7.
pub open spec fn spec_pixel_code(low_byte: u8, high_byte: u8, x: u8) -> u8 {
    ((((high_byte >> ((7 - x) as u8)) & 1) * 2 + ((low_byte >> ((7 - x) as u8)) & 1)) as u8)
}

/// The pixel at `(x, y)` of a 2bpp tile image: row `y` is bytes `2y` and
/// `2y + 1`.
pub open spec fn spec_tile_pixel(data: Seq<u8>, x: u8, y: u8) -> Pixel {
    spec_pixel_from_code(spec_pixel_code(data[2 * y], data[2 * y + 1], x))
}

/// Decode the pixel at `x` from a row's two bytes.
pub fn row_pixel(low_byte: u8, high_byte: u8, x: u8) -> (r: Pixel)
    requires
        x < 8,
    ensures
        r == spec_pixel_from_code(spec_pixel_code(low_byte, high_byte, x)),
{
    let shift = (7 - x) as u8;
    let bit_one = (low_byte >> shift) & 1;
    let bit_two = (high_byte >> shift) & 1;

    let code = bit_two * 2 + bit_one;

    crate::mmu::ppu::pixel::pixel_from_code(code)
}

impl Tile {
    pub fn new(data: [u8; 16]) -> (r: Tile)
        ensures
            r.0 == data,
    {
        Tile(data)
    }

    /// The color of the pixel at `(x, y)`; tiles are 8x8.
    pub fn pixel_at(&self, x: u8, y: u8) -> (r: Pixel)
        requires
            x < 8,
            y < 8,
        ensures
            r == spec_tile_pixel(self.0@, x, y),
    {
        let line_first_byte = self.0[(y * 2) as usize];
        let line_second_byte = self.0[(y * 2 + 1) as usize];

        row_pixel(line_first_byte, line_second_byte, x)
    }
}

} // verus!
