//! The background palette register BGP: four 2-bit fields assigning a shade
//! to each background color index.

use crate::mmu::ppu::pixel::Pixel;
use vstd::prelude::*;

verus! {

broadcast use crate::bitmath::lemma_u8_low2_mask;

/// The shade a background pixel takes.
#[derive(Debug, Copy, Clone, PartialEq, Eq, Structural)]
pub enum BackgroundColor {
    White,
    LightGray,
    DarkGray,
    Black,
}

/// The BGP register.
pub struct BackgroundPalette(pub u8);

/// The shade a two-bit field value stands for.
pub open spec fn spec_background_color_from_code(code: u8) -> BackgroundColor {
    if code == 0 {
        BackgroundColor::White
    } else if code == 1 {
        BackgroundColor::LightGray
    } else if code == 2 {
        BackgroundColor::DarkGray
    } else {
        BackgroundColor::Black
    }
}

/// The shade palette register `reg` assigns to a pixel: field `i` sits at
/// bits `2i..2i+1`.
pub open spec fn spec_background_palette(reg: u8, pixel: Pixel) -> BackgroundColor {
    match pixel {
        Pixel::Color0 => spec_background_color_from_code(reg & 0b11),
        Pixel::Color1 => spec_background_color_from_code((reg >> 2u8) & 0b11),
        Pixel::Color2 => spec_background_color_from_code((reg >> 4u8) & 0b11),
        Pixel::Color3 => spec_background_color_from_code((reg >> 6u8) & 0b11),
    }
}

impl BackgroundPalette {
    pub fn new() -> (r: BackgroundPalette)
        ensures
            r.0 == 0,
    {
        BackgroundPalette(0)
    }

    pub fn read(&self) -> (r: u8)
        ensures
            r == self.0,
    {
        self.0
    }

    pub fn write(&mut self, value: u8)
        ensures
            final(self).0 == value,
    {
        self.0 = value;
    }

    /// Remap a pixel through the palette.
    pub fn color_from_pixel(&self, pixel: Pixel) -> (r: BackgroundColor)
        ensures
            r == spec_background_palette(self.0, pixel),
    {
        match pixel {
            Pixel::Color0 => background_color_from_code(self.0 & 0b11),
            Pixel::Color1 => background_color_from_code((self.0 >> 2u8) & 0b11),
            Pixel::Color2 => background_color_from_code((self.0 >> 4u8) & 0b11),
            Pixel::Color3 => background_color_from_code((self.0 >> 6u8) & 0b11),
        }
    }
}

/// Decode a two-bit field value into a shade.
fn background_color_from_code(code: u8) -> (r: BackgroundColor)
    requires
        code < 4,
    ensures
        r == spec_background_color_from_code(code),
{
    match code {
        0 => BackgroundColor::White,
        1 => BackgroundColor::LightGray,
        2 => BackgroundColor::DarkGray,
        _ => BackgroundColor::Black,
    }
}

} // verus!
