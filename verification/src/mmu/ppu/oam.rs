//! Object Attribute Memory: 40 sprite descriptors of four bytes each, plus
//! the decoded `Sprite` record and its flag byte.

use vstd::prelude::*;

verus! {

/// The sprite descriptor table at 0xFE00..=0xFE9F.
pub struct Oam(pub Vec<u8>);

/// The same table under the name earlier call sites use.
pub struct OAM(pub Vec<u8>);

/// A decoded sprite descriptor. `x` and `y` hold the raw stored bytes; the
/// stored values are offset by 8 and 16 so sprites can slide onto the
/// screen, and the `x()`/`y()` accessors subtract those offsets.
pub struct Sprite {
    pub x: u8,
    pub y: u8,
    pub tile_number: u8,
    pub flags: SpriteFlags,
}

/// Sprite height mode: 8x8 or 8x16.
#[derive(Debug, Copy, Clone, PartialEq, Eq, Structural)]
pub enum SpriteSize {
    Normal,
    Long,
}

/// Which of the two sprite palettes a sprite uses.
#[derive(Debug, PartialEq, Eq, Clone, Copy, Structural)]
pub enum PaletteNumber {
    OBP0,
    OBP1,
}

/// A sprite's flag byte:
/// - bit 7: background priority (non-zero background pixels cover the
///   sprite);
/// - bit 6: vertical flip;
/// - bit 5: horizontal flip;
/// - bit 4: palette select.
#[derive(Debug, PartialEq, Eq, Clone, Copy, Structural)]
pub struct SpriteFlags(pub u8);

impl SpriteSize {
    pub open spec fn spec_height(self) -> u8 {
        match self {
            SpriteSize::Normal => 8,
            SpriteSize::Long => 16,
        }
    }

    /// The sprite's height in pixels.
    pub fn height(&self) -> (r: u8)
        ensures
            r == self.spec_height(),
    {
        match self {
            SpriteSize::Normal => 8,
            SpriteSize::Long => 16,
        }
    }
}

impl SpriteFlags {
    pub open spec fn spec_bg_priority(self) -> bool {
        self.0 & 0b10000000 != 0
    }

    pub open spec fn spec_y_flip(self) -> bool {
        self.0 & 0b01000000 != 0
    }

    pub open spec fn spec_x_flip(self) -> bool {
        self.0 & 0b00100000 != 0
    }

    pub open spec fn spec_palette_number(self) -> PaletteNumber {
        if self.0 & 0b00010000 == 0 {
            PaletteNumber::OBP0
        } else {
            PaletteNumber::OBP1
        }
    }

    pub fn new(value: u8) -> (r: SpriteFlags)
        ensures
            r.0 == value,
    {
        SpriteFlags(value)
    }

    /// Whether non-zero background pixels cover this sprite; it is still
    /// drawn over background color index 0.
    pub fn bg_priority(&self) -> (r: bool)
        ensures
            r == self.spec_bg_priority(),
    {
        self.0 & 0b10000000 != 0
    }

    /// Whether the sprite is flipped vertically.
    pub fn y_flip(&self) -> (r: bool)
        ensures
            r == self.spec_y_flip(),
    {
        self.0 & 0b01000000 != 0
    }

    /// Whether the sprite is flipped horizontally.
    pub fn x_flip(&self) -> (r: bool)
        ensures
            r == self.spec_x_flip(),
    {
        self.0 & 0b00100000 != 0
    }

    /// Which sprite palette the sprite uses.
    pub fn palette_number(&self) -> (r: PaletteNumber)
        ensures
            r == self.spec_palette_number(),
    {
        if self.0 & 0b00010000 == 0 {
            PaletteNumber::OBP0
        } else {
            PaletteNumber::OBP1
        }
    }
}

impl Sprite {
    /// The sprite's true screen row: the stored byte less the 16-pixel
    /// offset.
    pub fn y(&self) -> (r: i16)
        ensures
            r == self.y - 16,
    {
        let y = self.y as i16;

        y - 16
    }

    /// The sprite's true screen column: the stored byte less the 8-pixel
    /// offset.
    pub fn x(&self) -> (r: i16)
        ensures
            r == self.x - 8,
    {
        let x = self.x as i16;

        x - 8
    }
}

/// The sprite decoded from descriptor `sprite_number` of an OAM image:
/// Y, X, tile number, flags.
pub open spec fn spec_sprite_at(oam: Seq<u8>, sprite_number: u8) -> Sprite {
    Sprite {
        y: oam[sprite_number * 4],
        x: oam[sprite_number * 4 + 1],
        tile_number: oam[sprite_number * 4 + 2],
        flags: SpriteFlags(oam[sprite_number * 4 + 3]),
    }
}

impl Oam {
    /// All descriptors zero.
    pub fn new() -> (r: Oam)
        ensures
            r.0@ == Seq::new(160, |i: int| 0u8),
    {
        Oam(crate::cartridge::zeroed(160))
    }

    pub fn read(&self, addr: u16) -> (r: u8)
        requires
            addr < 160,
            self.0@.len() == 160,
        ensures
            r == self.0@[addr as int],
    {
        self.0[addr as usize]
    }

    pub fn write(&mut self, addr: u16, value: u8)
        requires
            addr < 160,
            old(self).0@.len() == 160,
        ensures
            final(self).0@ == old(self).0@.update(addr as int, value),
    {
        self.0.set(addr as usize, value);
    }

    /// Decode one of the 40 sprite descriptors.
    pub fn sprite_at(&self, sprite_number: u8) -> (r: Sprite)
        requires
            sprite_number < 40,
            self.0@.len() == 160,
        ensures
            r == spec_sprite_at(self.0@, sprite_number),
    {
        let base = sprite_number as usize * 4;

        Sprite {
            x: self.0[base + 1],
            y: self.0[base],
            tile_number: self.0[base + 2],
            flags: SpriteFlags::new(self.0[base + 3]),
        }
    }
}

impl OAM {
    /// All descriptors zero.
    pub fn new() -> (r: OAM)
        ensures
            r.0@ == Seq::new(160, |i: int| 0u8),
    {
        OAM(crate::cartridge::zeroed(160))
    }

    pub fn read(&self, addr: u16) -> (r: u8)
        requires
            addr < 160,
            self.0@.len() == 160,
        ensures
            r == self.0@[addr as int],
    {
        self.0[addr as usize]
    }

    pub fn write(&mut self, addr: u16, value: u8)
        requires
            addr < 160,
            old(self).0@.len() == 160,
        ensures
            final(self).0@ == old(self).0@.update(addr as int, value),
    {
        self.0.set(addr as usize, value);
    }
}

} // verus!
