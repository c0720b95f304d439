//! The tile-data store at 0x8000..=0x97FF: 384 tiles of 16 bytes, reachable
//! under two addressing modes.

use crate::mmu::ppu::background_tile::BackgroundTile;
use crate::mmu::ppu::oam::SpriteSize;
use crate::mmu::ppu::sprite_tile::SpriteTile;
use vstd::prelude::*;

verus! {

/// The 0x1800 bytes of tile data.
pub struct TileData {
    pub data: Vec<u8>,
}

/// How a tile number selects a tile:
/// - `Unsigned`: an index from the base 0x8000, tiles 0..=255;
/// - `Signed`: a signed byte offset from the base 0x9000, tiles -128..=127.
#[derive(Debug, Clone, Copy, PartialEq, Eq, Structural)]
pub enum TileAddressingMethod {
    Signed,
    Unsigned,
}

/// The byte offset of a tile under an addressing mode.
pub open spec fn spec_tile_start(tile_number: u8, addressing_method: TileAddressingMethod) -> int {
    match addressing_method {
        TileAddressingMethod::Signed => if tile_number < 128 {
            0x1000 + tile_number * 16
        } else {
            0x1000 - (256 - tile_number) * 16
        },
        TileAddressingMethod::Unsigned => tile_number * 16,
    }
}

/// The byte offset of a sprite's tile: sprites always use unsigned
/// addressing, and a tall sprite uses the even tile of its pair.
pub open spec fn spec_sprite_tile_start(tile_number: u8, size: SpriteSize) -> int {
    match size {
        SpriteSize::Normal => tile_number * 16,
        SpriteSize::Long => (tile_number & !0b1) * 16,
    }
}

impl TileData {
    /// An all-zero store.
    pub fn new() -> (r: TileData)
        ensures
            r.data@ == Seq::new(0x1800, |i: int| 0u8),
    {
        TileData { data: crate::cartridge::zeroed(0x1800) }
    }

    pub fn read(&self, addr: u16) -> (r: u8)
        requires
            addr < 0x1800,
            self.data@.len() == 0x1800,
        ensures
            r == self.data@[addr as int],
    {
        self.data[addr as usize]
    }

    pub fn write(&mut self, addr: u16, value: u8)
        requires
            addr < 0x1800,
            old(self).data@.len() == 0x1800,
        ensures
            final(self).data@ == old(self).data@.update(addr as int, value),
    {
        self.data.set(addr as usize, value);
    }

    /// The background or window tile a tile number selects under the given
    /// addressing mode.
    pub fn tile_at(&self, tile_number: u8, addressing_method: TileAddressingMethod) -> (r:
        BackgroundTile<'_>)
        requires
            self.data@.len() == 0x1800,
        ensures
            r.0@ == self.data@.subrange(
                spec_tile_start(tile_number, addressing_method),
                spec_tile_start(tile_number, addressing_method) + 16,
            ),
    {
        let start: usize = match addressing_method {
            TileAddressingMethod::Signed => {
                if tile_number < 128 {
                    0x1000 + tile_number as usize * 16
                } else {
                    0x1000 - (256 - tile_number as usize) * 16
                }
            },
            TileAddressingMethod::Unsigned => tile_number as usize * 16,
        };

        BackgroundTile::new(&self.data.as_slice()[start..start + 16])
    }

    /// The sprite tile a sprite's tile number selects: 16 bytes for a normal
    /// sprite, the even-aligned 32 bytes for a tall one.
    pub fn sprite_tile_at(&self, tile_number: u8, sprite_size: SpriteSize) -> (r: SpriteTile<'_>)
        requires
            self.data@.len() == 0x1800,
        ensures
            r.data@ == self.data@.subrange(
                spec_sprite_tile_start(tile_number, sprite_size),
                spec_sprite_tile_start(tile_number, sprite_size) + 2 * sprite_size.spec_height(),
            ),
            r.size == sprite_size,
    {
        let (start, end): (usize, usize) = match sprite_size {
            SpriteSize::Normal => {
                let s = tile_number as usize * 16;
                (s, s + 16)
            },
            SpriteSize::Long => {
                let aligned = tile_number & !0b1;
                proof {
                    lemma_even_align(tile_number);
                }
                let s = aligned as usize * 16;
                (s, s + 32)
            },
        };

        SpriteTile::new(&self.data.as_slice()[start..end], sprite_size)
    }
}

/// Clearing the low bit keeps the value within range and even.
proof fn lemma_even_align(tile_number: u8)
    by (bit_vector)
    ensures
        (tile_number & !0b1) <= 254,
        (tile_number & !0b1) <= tile_number,
{
}

} // verus!
