use emulator_core::BackgroundColor;
use emulator_core::BackgroundMap;
use emulator_core::BackgroundPalette;
use emulator_core::BackgroundTile;
use emulator_core::BGMapSelection;
use emulator_core::LCDControl;
use emulator_core::LCDStatus;
use emulator_core::Oam;
use emulator_core::PPUMode;
use emulator_core::PaletteNumber;
use emulator_core::Pixel;
use emulator_core::SpriteColor;
use emulator_core::SpriteFlags;
use emulator_core::SpritePalette;
use emulator_core::SpriteSize;
use emulator_core::Tile;
use emulator_core::TileAddressingMethod;
use emulator_core::TileData;

fn smiley_face() -> [u8; 16] {
    [
        0b00000000, 0b00000000, 0b00100000, 0b00000100, 0b00100000, 0b00000100, 0b00000000,
        0b00000000, 0b00000000, 0b00000000, 0b00100100, 0b00100100, 0b00011000, 0b00011000,
        0b00000000, 0b00000000,
    ]
}

fn tall_smile_face() -> [u8; 32] {
    [
        0, 0, 32, 4, 32, 4, 0, 0, 0, 0, 0, 0, 0, 0, 0, 0, 0, 0, 0, 0, 0, 0, 0, 0, 0, 0, 36, 36,
        24, 24, 0, 0,
    ]
}

fn assert_smiley_face_bg_tile(tile: BackgroundTile) {
    assert_eq!(tile.pixel_at(2, 1), Pixel::Color1);
    assert_eq!(tile.pixel_at(2, 2), Pixel::Color1);
    assert_eq!(tile.pixel_at(5, 1), Pixel::Color2);
    assert_eq!(tile.pixel_at(5, 2), Pixel::Color2);
    assert_eq!(tile.pixel_at(2, 5), Pixel::Color3);
    assert_eq!(tile.pixel_at(5, 5), Pixel::Color3);
    assert_eq!(tile.pixel_at(3, 6), Pixel::Color3);
    assert_eq!(tile.pixel_at(4, 6), Pixel::Color3);
    assert_eq!(tile.pixel_at(7, 7), Pixel::Color0);
}

#[test]
fn background_map_read_write() {
    let mut map = BackgroundMap::new();
    for i in 0u16..0x3FF {
        map.write(i, 1);

        assert_eq!(map.read(i), 1);
    }
}

#[test]
fn tile_index_at() {
    let mut map = BackgroundMap::new();
    map.write(0, 1);
    map.write(1, 2);
    map.write(32, 3);
    map.write(33, 4);

    assert_eq!(map.tile_number_at(0, 0), 1);
    assert_eq!(map.tile_number_at(8, 3), 2);
    assert_eq!(map.tile_number_at(2, 8), 3);
    assert_eq!(map.tile_number_at(8, 8), 4);
}

#[test]
fn tile_pixel_at_returns_correct_pixel() {
    let tile = Tile::new(smiley_face());

    assert_eq!(tile.pixel_at(2, 1), Pixel::Color1);
    assert_eq!(tile.pixel_at(2, 2), Pixel::Color1);
    assert_eq!(tile.pixel_at(5, 1), Pixel::Color2);
    assert_eq!(tile.pixel_at(5, 2), Pixel::Color2);
    assert_eq!(tile.pixel_at(2, 5), Pixel::Color3);
    assert_eq!(tile.pixel_at(5, 5), Pixel::Color3);
    assert_eq!(tile.pixel_at(3, 6), Pixel::Color3);
    assert_eq!(tile.pixel_at(4, 6), Pixel::Color3);
    assert_eq!(tile.pixel_at(7, 7), Pixel::Color0);
}

#[test]
fn background_tile_pixel_at_returns_correct_pixel() {
    let face = smiley_face();
    let tile = BackgroundTile::new(&face);

    assert_eq!(tile.pixel_at(2, 1), Pixel::Color1);
    assert_eq!(tile.pixel_at(2, 2), Pixel::Color1);
    assert_eq!(tile.pixel_at(5, 1), Pixel::Color2);
    assert_eq!(tile.pixel_at(5, 2), Pixel::Color2);
    assert_eq!(tile.pixel_at(2, 5), Pixel::Color3);
    assert_eq!(tile.pixel_at(5, 5), Pixel::Color3);
    assert_eq!(tile.pixel_at(3, 6), Pixel::Color3);
    assert_eq!(tile.pixel_at(4, 6), Pixel::Color3);
    assert_eq!(tile.pixel_at(7, 7), Pixel::Color0);
}

#[test]
fn sprite_tile_pixel_at_default_flags() {
    let face = smiley_face();
    let tile = emulator_core::SpriteTile::new(&face, SpriteSize::Normal);
    let flags = SpriteFlags::new(0);

    assert_eq!(tile.pixel_at(2, 1, flags), Pixel::Color1);
    assert_eq!(tile.pixel_at(2, 2, flags), Pixel::Color1);
    assert_eq!(tile.pixel_at(5, 1, flags), Pixel::Color2);
    assert_eq!(tile.pixel_at(5, 2, flags), Pixel::Color2);
    assert_eq!(tile.pixel_at(2, 5, flags), Pixel::Color3);
    assert_eq!(tile.pixel_at(5, 5, flags), Pixel::Color3);
    assert_eq!(tile.pixel_at(3, 6, flags), Pixel::Color3);
    assert_eq!(tile.pixel_at(4, 6, flags), Pixel::Color3);
    assert_eq!(tile.pixel_at(7, 7, flags), Pixel::Color0);
}

#[test]
fn pixel_with_x_flip() {
    let face = smiley_face();
    let tile = emulator_core::SpriteTile::new(&face, SpriteSize::Normal);
    let flags = SpriteFlags::new(0b00100000);

    assert_eq!(tile.pixel_at(2, 1, flags), Pixel::Color2);
    assert_eq!(tile.pixel_at(2, 2, flags), Pixel::Color2);
    assert_eq!(tile.pixel_at(5, 1, flags), Pixel::Color1);
    assert_eq!(tile.pixel_at(5, 2, flags), Pixel::Color1);
    assert_eq!(tile.pixel_at(2, 5, flags), Pixel::Color3);
    assert_eq!(tile.pixel_at(5, 5, flags), Pixel::Color3);
    assert_eq!(tile.pixel_at(3, 6, flags), Pixel::Color3);
    assert_eq!(tile.pixel_at(4, 6, flags), Pixel::Color3);
    assert_eq!(tile.pixel_at(7, 7, flags), Pixel::Color0);
}

#[test]
fn pixel_with_y_flip() {
    let face = smiley_face();
    let tile = emulator_core::SpriteTile::new(&face, SpriteSize::Normal);
    let flags = SpriteFlags::new(0b01000000);

    assert_eq!(tile.pixel_at(2, 5, flags), Pixel::Color1);
    assert_eq!(tile.pixel_at(2, 6, flags), Pixel::Color1);
    assert_eq!(tile.pixel_at(5, 5, flags), Pixel::Color2);
    assert_eq!(tile.pixel_at(5, 6, flags), Pixel::Color2);

    assert_eq!(tile.pixel_at(2, 2, flags), Pixel::Color3);
    assert_eq!(tile.pixel_at(5, 2, flags), Pixel::Color3);
    assert_eq!(tile.pixel_at(3, 1, flags), Pixel::Color3);
    assert_eq!(tile.pixel_at(4, 1, flags), Pixel::Color3);

    assert_eq!(tile.pixel_at(7, 7, flags), Pixel::Color0);
}

#[test]
fn sprite_tile_pixel_at_with_both_flipped() {
    let face = smiley_face();
    let tile = emulator_core::SpriteTile::new(&face, SpriteSize::Normal);
    let flags = SpriteFlags::new(0b01100000);

    assert_eq!(tile.pixel_at(2, 5, flags), Pixel::Color2);
    assert_eq!(tile.pixel_at(2, 6, flags), Pixel::Color2);
    assert_eq!(tile.pixel_at(5, 5, flags), Pixel::Color1);
    assert_eq!(tile.pixel_at(5, 6, flags), Pixel::Color1);

    assert_eq!(tile.pixel_at(2, 2, flags), Pixel::Color3);
    assert_eq!(tile.pixel_at(5, 2, flags), Pixel::Color3);
    assert_eq!(tile.pixel_at(3, 1, flags), Pixel::Color3);
    assert_eq!(tile.pixel_at(4, 1, flags), Pixel::Color3);

    assert_eq!(tile.pixel_at(7, 7, flags), Pixel::Color0);
}

#[test]
fn pixel_at_x_flip() {
    let face = tall_smile_face();
    let tile = emulator_core::SpriteTile::new(&face, SpriteSize::Long);
    let flags = SpriteFlags::new(0b00100000);

    assert_eq!(tile.pixel_at(2, 1, flags), Pixel::Color2);
    assert_eq!(tile.pixel_at(2, 2, flags), Pixel::Color2);
    assert_eq!(tile.pixel_at(5, 1, flags), Pixel::Color1);
    assert_eq!(tile.pixel_at(5, 2, flags), Pixel::Color1);

    assert_eq!(tile.pixel_at(2, 13, flags), Pixel::Color3);
    assert_eq!(tile.pixel_at(5, 13, flags), Pixel::Color3);
    assert_eq!(tile.pixel_at(3, 14, flags), Pixel::Color3);
    assert_eq!(tile.pixel_at(4, 14, flags), Pixel::Color3);
    assert_eq!(tile.pixel_at(7, 15, flags), Pixel::Color0);
}

#[test]
fn pixel_at_y_flip() {
    let face = tall_smile_face();
    let tile = emulator_core::SpriteTile::new(&face, SpriteSize::Long);
    let flags = SpriteFlags::new(0b01000000);

    assert_eq!(tile.pixel_at(2, 14, flags), Pixel::Color1);
    assert_eq!(tile.pixel_at(2, 13, flags), Pixel::Color1);
    assert_eq!(tile.pixel_at(5, 14, flags), Pixel::Color2);
    assert_eq!(tile.pixel_at(5, 13, flags), Pixel::Color2);

    assert_eq!(tile.pixel_at(2, 2, flags), Pixel::Color3);
    assert_eq!(tile.pixel_at(5, 2, flags), Pixel::Color3);
    assert_eq!(tile.pixel_at(3, 1, flags), Pixel::Color3);
    assert_eq!(tile.pixel_at(4, 1, flags), Pixel::Color3);
    assert_eq!(tile.pixel_at(7, 15, flags), Pixel::Color0);
}

#[test]
fn tiledata_read_write_data() {
    let mut tiledata = TileData::new();

    for addr in 0..0x1800 {
        tiledata.write(addr, 1);
        assert_eq!(tiledata.read(addr), 1);
    }
}

#[test]
fn unsigned_access() {
    let smiley_face = smiley_face();
    let mut tiledata = TileData::new();

    // put a smiley face at tile 100
    for i in 0..16 {
        tiledata.write(100 * 16 + i, smiley_face[i as usize]);
    }

    let tile = tiledata.tile_at(100, TileAddressingMethod::Unsigned);

    assert_smiley_face_bg_tile(tile);
}

#[test]
fn signed_access_positive_offset() {
    let smiley_face = smiley_face();
    let mut tiledata = TileData::new();

    // put a smiley face at tile 300
    for i in 0..16 {
        tiledata.write(300 * 16 + i, smiley_face[i as usize]);
    }

    let tile = tiledata.tile_at(44, TileAddressingMethod::Signed);

    assert_smiley_face_bg_tile(tile);
}

#[test]
fn signed_access_negative_offset() {
    let smiley_face = smiley_face();
    let mut tiledata = TileData::new();

    // put a smiley face at tile 200
    for i in 0..16 {
        tiledata.write(200 * 16 + i, smiley_face[i as usize]);
    }

    let offset = -56;
    let tile = tiledata.tile_at(offset as u8, TileAddressingMethod::Signed);

    assert_smiley_face_bg_tile(tile);
}

#[test]
fn tile_at_unsigned_access() {
    let smiley_face = smiley_face();
    let mut tiledata = TileData::new();

    // put a smiley face at tile 100
    for i in 0..16 {
        tiledata.write(100 * 16 + i, smiley_face[i as usize]);
    }

    let tile = tiledata.tile_at(100, TileAddressingMethod::Unsigned);

    assert_smiley_face_bg_tile(tile);
}

#[test]
fn tile_at_signed_access_positive_offset() {
    let smiley_face = smiley_face();
    let mut tiledata = TileData::new();

    // put a smiley face at tile 300
    for i in 0..16 {
        tiledata.write(300 * 16 + i, smiley_face[i as usize]);
    }

    let tile = tiledata.tile_at(44, TileAddressingMethod::Signed);

    assert_smiley_face_bg_tile(tile);
}

#[test]
fn tile_at_signed_access_negative_offset() {
    let smiley_face = smiley_face();
    let mut tiledata = TileData::new();

    // put a smiley face at tile 200
    for i in 0..16 {
        tiledata.write(200 * 16 + i, smiley_face[i as usize]);
    }

    let offset = -56;
    let tile = tiledata.tile_at(offset as u8, TileAddressingMethod::Signed);

    assert_smiley_face_bg_tile(tile);
}

#[test]
fn normal_size_tile() {
    let smiley_face = smiley_face();
    let mut tiledata = TileData::new();

    // put a smiley face at tile 100
    for i in 0..16 {
        tiledata.write(100 * 16 + i, smiley_face[i as usize]);
    }

    let tile = tiledata.sprite_tile_at(100, SpriteSize::Normal);
    let flags = SpriteFlags::new(0);

    assert_eq!(tile.pixel_at(2, 1, flags), Pixel::Color1);
    assert_eq!(tile.pixel_at(2, 2, flags), Pixel::Color1);
    assert_eq!(tile.pixel_at(5, 1, flags), Pixel::Color2);
    assert_eq!(tile.pixel_at(5, 2, flags), Pixel::Color2);
    assert_eq!(tile.pixel_at(2, 5, flags), Pixel::Color3);
    assert_eq!(tile.pixel_at(5, 5, flags), Pixel::Color3);
    assert_eq!(tile.pixel_at(3, 6, flags), Pixel::Color3);
    assert_eq!(tile.pixel_at(4, 6, flags), Pixel::Color3);
    assert_eq!(tile.pixel_at(7, 7, flags), Pixel::Color0);
}

#[test]
fn long_size_tile() {
    let smiley_face = tall_smile_face();
    let mut tiledata = TileData::new();

    // put a tall smiley face at tile 100
    for i in 0..32 {
        tiledata.write(100 * 16 + i, smiley_face[i as usize]);
    }

    let tile = tiledata.sprite_tile_at(100, SpriteSize::Long);
    let flags = SpriteFlags::new(0);

    assert_eq!(tile.pixel_at(2, 1, flags), Pixel::Color1);
    assert_eq!(tile.pixel_at(2, 2, flags), Pixel::Color1);
    assert_eq!(tile.pixel_at(5, 1, flags), Pixel::Color2);
    assert_eq!(tile.pixel_at(5, 2, flags), Pixel::Color2);

    assert_eq!(tile.pixel_at(2, 13, flags), Pixel::Color3);
    assert_eq!(tile.pixel_at(5, 13, flags), Pixel::Color3);
    assert_eq!(tile.pixel_at(3, 14, flags), Pixel::Color3);
    assert_eq!(tile.pixel_at(4, 14, flags), Pixel::Color3);

    assert_eq!(tile.pixel_at(7, 15, flags), Pixel::Color0);
}

#[test]
fn lcd_control_read_write() {
    let mut lcdc = LCDControl::new();

    lcdc.write(100);

    assert_eq!(lcdc.read(), 100);
}

#[test]
fn lcd_control_lcd_enable() {
    let mut lcdc = LCDControl::new();
    lcdc.write(0b10000000);
    assert!(lcdc.lcd_enable());

    lcdc.write(0b00000000);
    assert!(!lcdc.lcd_enable());
}

#[test]
fn lcd_control_window_background_map() {
    let mut lcdc = LCDControl::new();
    lcdc.write(0b01000000);
    assert_eq!(lcdc.window_background_map(), BGMapSelection::Map1);

    lcdc.write(0b00000000);
    assert_eq!(lcdc.window_background_map(), BGMapSelection::Map0);
}

#[test]
fn lcd_control_window_enabled() {
    let mut lcdc = LCDControl::new();
    lcdc.write(0b00100000);
    assert!(lcdc.window_enabled());

    lcdc.write(0b00000000);
    assert!(!lcdc.window_enabled());
}

#[test]
fn lcd_control_addressing_method() {
    let mut lcdc = LCDControl::new();
    lcdc.write(0b00010000);
    assert_eq!(lcdc.addressing_method(), TileAddressingMethod::Unsigned);

    lcdc.write(0b00000000);
    assert_eq!(lcdc.addressing_method(), TileAddressingMethod::Signed);
}

#[test]
fn lcd_control_background_background_map() {
    let mut lcdc = LCDControl::new();
    lcdc.write(0b00001000);
    assert_eq!(lcdc.background_background_map(), BGMapSelection::Map1);

    lcdc.write(0b00000000);
    assert_eq!(lcdc.background_background_map(), BGMapSelection::Map0);
}

#[test]
fn lcd_control_sprite_size() {
    let mut lcdc = LCDControl::new();
    lcdc.write(0b00000100);
    assert_eq!(lcdc.sprite_size(), SpriteSize::Long);

    lcdc.write(0b00000000);
    assert_eq!(lcdc.sprite_size(), SpriteSize::Normal);
}

#[test]
fn lcd_control_sprites_enabled() {
    let mut lcdc = LCDControl::new();
    lcdc.write(0b00000010);
    assert!(lcdc.sprites_enabled());

    lcdc.write(0b00000000);
    assert!(!lcdc.sprites_enabled());
}

#[test]
fn lcd_control_background_and_window_enabled() {
    let mut lcdc = LCDControl::new();
    lcdc.write(0b00000001);
    assert!(lcdc.background_and_window_enabled());

    lcdc.write(0b00000000);
    assert!(!lcdc.background_and_window_enabled());
}

#[test]
fn lcdc_status_read_write() {
    let mut lcd_status = LCDStatus::new();

    lcd_status.write(100);

    assert_eq!(lcd_status.read(), 100);
}

#[test]
fn lyc_ie_stat_ie() {
    let mut lcd_status = LCDStatus::new();
    lcd_status.write(0b01000000);
    assert!(lcd_status.lyc_ly_stat_ie());

    lcd_status.write(0b00000000);
    assert!(!lcd_status.lyc_ly_stat_ie());
}

#[test]
fn oam_stat_ie() {
    let mut lcd_status = LCDStatus::new();
    lcd_status.write(0b00100000);
    assert!(lcd_status.oam_stat_ie());

    lcd_status.write(0b00000000);
    assert!(!lcd_status.oam_stat_ie());
}

#[test]
fn vblank_stat_ie() {
    let mut lcd_status = LCDStatus::new();
    lcd_status.write(0b00010000);
    assert!(lcd_status.vblank_stat_ie());

    lcd_status.write(0b00000000);
    assert!(!lcd_status.vblank_stat_ie());
}

#[test]
fn hblank_stat_ie() {
    let mut lcd_status = LCDStatus::new();
    lcd_status.write(0b00001000);
    assert!(lcd_status.hblank_stat_ie());

    lcd_status.write(0b00000000);
    assert!(!lcd_status.hblank_stat_ie());
}

#[test]
fn ppu_mode() {
    let mut lcd_status = LCDStatus::new();

    lcd_status.set_ppu_mode(PPUMode::Oam);
    assert_eq!(lcd_status.ppu_mode(), PPUMode::Oam);

    lcd_status.set_ppu_mode(PPUMode::VBlank);
    assert_eq!(lcd_status.ppu_mode(), PPUMode::VBlank);

    lcd_status.set_ppu_mode(PPUMode::HBlank);
    assert_eq!(lcd_status.ppu_mode(), PPUMode::HBlank);

    lcd_status.set_ppu_mode(PPUMode::Drawing);
    assert_eq!(lcd_status.ppu_mode(), PPUMode::Drawing);
}

#[test]
fn oam_read_write() {
    let mut map = Oam::new();
    for i in 0u16..160 {
        map.write(i, 1);

        assert_eq!(map.read(i), 1);
    }
}

#[test]
fn oam_sprite_at_returns_correct_sprite() {
    let mut map = Oam::new();
    map.write(20 * 4, 0x10);
    map.write(20 * 4 + 1, 0x20);
    map.write(20 * 4 + 2, 0x30);
    map.write(20 * 4 + 3, 0x40);

    let sprite = map.sprite_at(20);

    assert_eq!(sprite.x, 0x20);
    assert_eq!(sprite.y, 0x10);
    assert_eq!(sprite.tile_number, 0x30);
    assert_eq!(sprite.flags, SpriteFlags::new(0x40));
}

#[test]
fn oam_bg_priority() {
    let flags = SpriteFlags::new(0b00000000);
    assert!(!flags.bg_priority());

    let flags = SpriteFlags::new(0b10000000);
    assert!(flags.bg_priority());
}

#[test]
fn oam_y_flip() {
    let flags = SpriteFlags::new(0b00000000);
    assert!(!flags.y_flip());

    let flags = SpriteFlags::new(0b01000000);
    assert!(flags.y_flip());
}

#[test]
fn oam_x_flip() {
    let flags = SpriteFlags::new(0b00000000);
    assert!(!flags.x_flip());

    let flags = SpriteFlags::new(0b00100000);
    assert!(flags.x_flip());
}

#[test]
fn oam_palette_number() {
    let flags = SpriteFlags::new(0b00000000);
    assert_eq!(flags.palette_number(), PaletteNumber::OBP0);

    let flags = SpriteFlags::new(0b00010000);
    assert_eq!(flags.palette_number(), PaletteNumber::OBP1);
}

#[test]
fn background_palette_read_write() {
    let mut palette = BackgroundPalette::new();

    palette.write(20);

    assert_eq!(palette.read(), 20);
}

#[test]
fn background_palette_color_from_pixel() {
    let mut palette = BackgroundPalette::new();
    palette.write(0b01001110);

    assert_eq!(palette.color_from_pixel(Pixel::Color0), BackgroundColor::DarkGray);

    assert_eq!(palette.color_from_pixel(Pixel::Color1), BackgroundColor::Black);

    assert_eq!(palette.color_from_pixel(Pixel::Color2), BackgroundColor::White);

    assert_eq!(palette.color_from_pixel(Pixel::Color3), BackgroundColor::LightGray);
}

#[test]
fn sprite_palette_read_write() {
    let mut palette = SpritePalette::new();

    palette.write(20);

    assert_eq!(palette.read(), 20);
}

#[test]
fn sprite_palette_color_from_pixel() {
    let mut palette = SpritePalette::new();
    palette.write(0b10110010);

    assert_eq!(palette.color_from_pixel(Pixel::Color0), SpriteColor::Transparent);

    assert_eq!(palette.color_from_pixel(Pixel::Color1), SpriteColor::White);

    assert_eq!(palette.color_from_pixel(Pixel::Color2), SpriteColor::Black);

    assert_eq!(palette.color_from_pixel(Pixel::Color3), SpriteColor::DarkGray);
}
