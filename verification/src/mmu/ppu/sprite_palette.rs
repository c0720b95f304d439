//! The two sprite palette registers OBP0 and OBP1. Color index 0 is
//! transparent for sprites, whatever the palette says.

use crate::mmu::ppu::pixel::Pixel;
use vstd::prelude::*;

verus! {

broadcast use crate::bitmath::lemma_u8_low2_mask;

/// Which of the two sprite palettes is addressed.
#[derive(Debug, Clone, Copy, PartialEq, Eq, Structural)]
pub enum SpritePaletteSelection {
    Palette0,
    Palette1,
}

/// The shade a sprite pixel takes; index 0 is always transparent.
#[derive(Debug, Copy, Clone, PartialEq, Eq, Structural)]
pub enum SpriteColor {
    White,
    LightGray,
    DarkGray,
    Black,
    Transparent,
}

/// An OBP palette register.
pub struct SpritePalette(pub u8);

/// The shade a two-bit field value stands for.
pub open spec fn spec_sprite_color_from_code(code: u8) -> SpriteColor {
    if code == 0 {
        SpriteColor::White
    } else if code == 1 {
        SpriteColor::LightGray
    } else if code == 2 {
        SpriteColor::DarkGray
    } else {
        SpriteColor::Black
    }
}

/// The shade palette register `reg` assigns to a sprite pixel: transparent
/// for index 0, else field `i` at bits `2i..2i+1`.
pub open spec fn spec_sprite_palette(reg: u8, pixel: Pixel) -> SpriteColor {
    match pixel {
        Pixel::Color0 => SpriteColor::Transparent,
        Pixel::Color1 => spec_sprite_color_from_code((reg >> 2u8) & 0b11),
        Pixel::Color2 => spec_sprite_color_from_code((reg >> 4u8) & 0b11),
        Pixel::Color3 => spec_sprite_color_from_code((reg >> 6u8) & 0b11),
    }
}

impl SpritePalette {
    pub fn new() -> (r: SpritePalette)
        ensures
            r.0 == 0,
    {
        SpritePalette(0)
    }

    pub fn read(&self) -> (r: u8)
        ensures
            r == self.0,
    {
        self.0
    }

    pub fn write(&mut self, value: u8)
        ensures
            final(self).0 == value,
    {
        self.0 = value;
    }

    /// Remap a sprite pixel through the palette; index 0 stays transparent.
    pub fn color_from_pixel(&self, pixel: Pixel) -> (r: SpriteColor)
        ensures
            r == spec_sprite_palette(self.0, pixel),
    {
        match pixel {
            Pixel::Color0 => SpriteColor::Transparent,
            Pixel::Color1 => sprite_color_from_code((self.0 >> 2u8) & 0b11),
            Pixel::Color2 => sprite_color_from_code((self.0 >> 4u8) & 0b11),
            Pixel::Color3 => sprite_color_from_code((self.0 >> 6u8) & 0b11),
        }
    }
}

/// Decode a two-bit field value into a sprite shade.
fn sprite_color_from_code(code: u8) -> (r: SpriteColor)
    requires
        code < 4,
    ensures
        r == spec_sprite_color_from_code(code),
{
    match code {
        0 => SpriteColor::White,
        1 => SpriteColor::LightGray,
        2 => SpriteColor::DarkGray,
        _ => SpriteColor::Black,
    }
}

} // verus!
