//! The LCDC register: each bit enables a layer or selects which map, tile
//! addressing mode or sprite size the pixel pipeline uses.

use crate::mmu::ppu::background_map::BGMapSelection;
use crate::mmu::ppu::oam::SpriteSize;
use crate::mmu::ppu::tiledata::TileAddressingMethod;
use vstd::prelude::*;

verus! {

/// The LCDC register:
/// - bit 7: LCD enable (the pixel pipeline runs only when set);
/// - bit 6: which map the window uses;
/// - bit 5: window enable;
/// - bit 4: tile addressing mode for background and window;
/// - bit 3: which map the background uses;
/// - bit 2: sprite size (8x8 or 8x16);
/// - bit 1: sprite enable;
/// - bit 0: background and window enable.
pub struct LCDControl(pub u8);

impl LCDControl {
    pub open spec fn spec_lcd_enable(self) -> bool {
        self.0 & 0b10000000 != 0
    }

    pub open spec fn spec_window_background_map(self) -> BGMapSelection {
        if self.0 & 0b01000000 == 0 {
            BGMapSelection::Map0
        } else {
            BGMapSelection::Map1
        }
    }

    pub open spec fn spec_window_enabled(self) -> bool {
        self.0 & 0b00100000 != 0
    }

    pub open spec fn spec_addressing_method(self) -> TileAddressingMethod {
        if self.0 & 0b00010000 == 0 {
            TileAddressingMethod::Signed
        } else {
            TileAddressingMethod::Unsigned
        }
    }

    pub open spec fn spec_background_background_map(self) -> BGMapSelection {
        if self.0 & 0b00001000 == 0 {
            BGMapSelection::Map0
        } else {
            BGMapSelection::Map1
        }
    }

    pub open spec fn spec_sprite_size(self) -> SpriteSize {
        if self.0 & 0b00000100 == 0 {
            SpriteSize::Normal
        } else {
            SpriteSize::Long
        }
    }

    pub open spec fn spec_sprites_enabled(self) -> bool {
        self.0 & 0b00000010 != 0
    }

    pub open spec fn spec_background_and_window_enabled(self) -> bool {
        self.0 & 0b00000001 != 0
    }

    pub fn new() -> (r: LCDControl)
        ensures
            r.0 == 0,
    {
        LCDControl(0)
    }

    pub fn read(&self) -> (r: u8)
        ensures
            r == self.0,
    {
        self.0
    }

    pub fn write(&mut self, value: u8)
        ensures
            final(self).0 == value,
    {
        self.0 = value;
    }

    /// Whether the LCD is enabled: if not, the pixel pipeline does not run.
    pub fn lcd_enable(&self) -> (r: bool)
        ensures
            r == self.spec_lcd_enable(),
    {
        self.0 & 0b10000000 != 0
    }

    /// Which background map the window layer uses.
    pub fn window_background_map(&self) -> (r: BGMapSelection)
        ensures
            r == self.spec_window_background_map(),
    {
        if self.0 & 0b01000000 == 0 {
            BGMapSelection::Map0
        } else {
            BGMapSelection::Map1
        }
    }

    /// Whether the window layer is drawn.
    pub fn window_enabled(&self) -> (r: bool)
        ensures
            r == self.spec_window_enabled(),
    {
        self.0 & 0b00100000 != 0
    }

    /// Which tile addressing mode the background and window use.
    pub fn addressing_method(&self) -> (r: TileAddressingMethod)
        ensures
            r == self.spec_addressing_method(),
    {
        if self.0 & 0b00010000 == 0 {
            TileAddressingMethod::Signed
        } else {
            TileAddressingMethod::Unsigned
        }
    }

    /// Which background map the background layer uses.
    pub fn background_background_map(&self) -> (r: BGMapSelection)
        ensures
            r == self.spec_background_background_map(),
    {
        if self.0 & 0b00001000 == 0 {
            BGMapSelection::Map0
        } else {
            BGMapSelection::Map1
        }
    }

    /// The sprite height mode: 8x8 or 8x16.
    pub fn sprite_size(&self) -> (r: SpriteSize)
        ensures
            r == self.spec_sprite_size(),
    {
        if self.0 & 0b00000100 == 0 {
            SpriteSize::Normal
        } else {
            SpriteSize::Long
        }
    }

    /// Whether sprites are drawn.
    pub fn sprites_enabled(&self) -> (r: bool)
        ensures
            r == self.spec_sprites_enabled(),
    {
        self.0 & 0b00000010 != 0
    }

    /// Whether the background and window layers are drawn.
    pub fn background_and_window_enabled(&self) -> (r: bool)
        ensures
            r == self.spec_background_and_window_enabled(),
    {
        self.0 & 0b00000001 != 0
    }

    /// Whether writing `value` would turn the LCD enable bit from on to off,
    /// which resets part of the pixel pipeline's state.
    pub fn is_lcd_enable_toggled_off(&self, value: u8) -> (r: bool)
        ensures
            r == (value & 0b10000000 == 0 && self.spec_lcd_enable()),
    {
        let is_new_lcd_disable = value & 0b10000000 == 0;

        is_new_lcd_disable && self.lcd_enable()
    }
}

} // verus!
