//! A pixel as a tile's 2-bits-per-pixel code: one of four color indices.

use vstd::prelude::*;

verus! {

/// A tile pixel's color index: 0 to 3.
#[derive(Debug, PartialEq, Eq, Clone, Copy, Structural)]
pub enum Pixel {
    Color0,
    Color1,
    Color2,
    Color3,
}

/// The pixel a two-bit code stands for.
pub open spec fn spec_pixel_from_code(code: u8) -> Pixel {
    if code == 0 {
        Pixel::Color0
    } else if code == 1 {
        Pixel::Color1
    } else if code == 2 {
        Pixel::Color2
    } else {
        Pixel::Color3
    }
}

/// Decode a two-bit code into a pixel.
pub fn pixel_from_code(code: u8) -> (r: Pixel)
    requires
        code < 4,
    ensures
        r == spec_pixel_from_code(code),
{
    match code {
        0 => Pixel::Color0,
        1 => Pixel::Color1,
        2 => Pixel::Color2,
        _ => Pixel::Color3,
    }
}

} // verus!
