//! The picture processing unit's building blocks: tiles, maps, palettes and
//! control registers.

pub mod background_map;
pub mod background_palette;
pub mod background_tile;
pub mod background_viewport;
pub mod lcd_control;
pub mod lcdc_status;
pub mod oam;
pub mod pixel;
pub mod renderer;
pub mod sprite_palette;
pub mod sprite_tile;
pub mod tile;
pub mod tiledata;
pub mod window_position;

use crate::interrupts::Interrupt;
use background_map::BackgroundMap;
use background_map::BGMapSelection;
use background_palette::BackgroundColor;
use background_palette::BackgroundPalette;
use background_viewport::BackgroundViewport;
use background_viewport::ViewportRegister;
use lcd_control::LCDControl;
use lcdc_status::LCDStatus;
use lcdc_status::PPUMode;
use oam::Oam;
use oam::Sprite;
use oam::SpriteFlags;
use pixel::Pixel;
use sprite_palette::SpriteColor;
use sprite_palette::SpritePalette;
use sprite_palette::SpritePaletteSelection;
use tiledata::TileData;
use window_position::WindowPosition;
use window_position::WindowPositionRegister;
use vstd::prelude::*;

verus! {

broadcast use crate::bitmath::lemma_u8_low2_mask;

/// The LCD's width in pixels.
pub const WIDTH: usize = 160;

/// The LCD's height in pixels.
pub const HEIGHT: usize = 144;

/// The interrupt requests the pixel pipeline has latched since the MMU last
/// folded them into IF.
pub struct InterruptRequests {
    pub vblank: bool,
    pub stat: bool,
}

impl Default for InterruptRequests {
    /// Nothing latched.
    fn default() -> (r: InterruptRequests)
        ensures
            !r.vblank && !r.stat,
    {
        InterruptRequests { vblank: false, stat: false }
    }
}

/// The picture processing unit: the video memories, the video registers,
/// the mode state machine, and the working and completed framebuffers.
///
/// `buffer` is the scanline compositor's working frame; at the final HBlank
/// of a frame it is copied into `frame`, `frame_ready` is raised for the
/// host, and the working frame is cleared. The four `pal_` words are the
/// 32-bit values the host's palette assigns to the four shades.
pub struct PPU {
    pub interrupt_request: InterruptRequests,
    pub background_viewport: BackgroundViewport,
    pub background_palette: BackgroundPalette,
    pub buffer: Vec<u32>,
    pub bg_priority: Vec<Pixel>,
    pub frame: Vec<u32>,
    pub frame_ready: bool,
    pub bg_map0: BackgroundMap,
    pub bg_map1: BackgroundMap,
    pub clock: u32,
    pub lcd_stat: LCDStatus,
    pub lcdc: LCDControl,
    pub ly: u8,
    pub lyc: u8,
    pub oam: Oam,
    pub sprite_palette_0: SpritePalette,
    pub sprite_palette_1: SpritePalette,
    pub tiledata: TileData,
    pub window_position: WindowPosition,
    pub pal_white: u32,
    pub pal_light: u32,
    pub pal_dark: u32,
    pub pal_black: u32,
}

impl PPU {
    /// The memories all have their hardware sizes.
    pub open spec fn wf(self) -> bool {
        &&& self.buffer@.len() == 23040
        &&& self.bg_priority@.len() == 23040
        &&& self.frame@.len() == 23040
        &&& self.bg_map0.0@.len() == 0x400
        &&& self.bg_map1.0@.len() == 0x400
        &&& self.oam.0@.len() == 160
        &&& self.tiledata.data@.len() == 0x1800
    }

    /// How many m-cycles a mode lasts on one scanline.
    pub open spec fn spec_mode_budget(mode: PPUMode) -> u32 {
        match mode {
            PPUMode::Oam => 20,
            PPUMode::Drawing => 43,
            PPUMode::HBlank => 51,
            PPUMode::VBlank => 114,
        }
    }

    /// The mode machine's state is consistent: the clock is within the
    /// mode's budget and LY is a visible line in modes 2, 3 and 0 and a
    /// VBlank line in mode 1.
    pub open spec fn phase_wf(self) -> bool {
        &&& self.clock < Self::spec_mode_budget(self.lcd_stat.spec_ppu_mode())
        &&& (match self.lcd_stat.spec_ppu_mode() {
            PPUMode::VBlank => 144 <= self.ly < 154,
            _ => self.ly < 144,
        })
    }

    /// The machine's position within the 17556-m-cycle frame: scanlines are
    /// 114 m-cycles (OAM scan 20, drawing 43, HBlank 51), and lines 144..154
    /// are VBlank.
    pub open spec fn spec_phase(self) -> int {
        match self.lcd_stat.spec_ppu_mode() {
            PPUMode::Oam => self.ly * 114 + self.clock,
            PPUMode::Drawing => self.ly * 114 + 20 + self.clock,
            PPUMode::HBlank => self.ly * 114 + 63 + self.clock,
            PPUMode::VBlank => self.ly * 114 + self.clock,
        }
    }

    /// Whether a step of `cycles` m-cycles crosses the frame boundary: the
    /// end of HBlank on line 143, at frame position 16416, where the
    /// finished frame is delivered and VBlank begins.
    pub open spec fn spec_enters_vblank(self, cycles: u8) -> bool {
        self.lcdc.spec_lcd_enable() && self.spec_phase() < 16416 && self.spec_phase() + cycles
            >= 16416
    }

    /// What the LCD-disable reset leaves alone: every video memory and
    /// register other than LCDC itself, LY, the mode clock, STAT and the
    /// working frame.
    pub open spec fn spec_disable_untouched(a: PPU, b: PPU) -> bool {
        &&& a.background_viewport == b.background_viewport
        &&& a.background_palette == b.background_palette
        &&& a.bg_priority@ == b.bg_priority@
        &&& a.frame@ == b.frame@
        &&& a.frame_ready == b.frame_ready
        &&& a.bg_map0.0@ == b.bg_map0.0@
        &&& a.bg_map1.0@ == b.bg_map1.0@
        &&& a.lyc == b.lyc
        &&& a.oam.0@ == b.oam.0@
        &&& a.sprite_palette_0 == b.sprite_palette_0
        &&& a.sprite_palette_1 == b.sprite_palette_1
        &&& a.tiledata.data@ == b.tiledata.data@
        &&& a.window_position == b.window_position
        &&& a.pal_white == b.pal_white
        &&& a.pal_light == b.pal_light
        &&& a.pal_dark == b.pal_dark
        &&& a.pal_black == b.pal_black
    }

    /// The registers and memories the mode machine never touches.
    pub open spec fn spec_static_unchanged(a: PPU, b: PPU) -> bool {
        &&& a.background_viewport == b.background_viewport
        &&& a.background_palette == b.background_palette
        &&& a.bg_map0.0@ == b.bg_map0.0@
        &&& a.bg_map1.0@ == b.bg_map1.0@
        &&& a.lcdc == b.lcdc
        &&& a.lyc == b.lyc
        &&& a.oam.0@ == b.oam.0@
        &&& a.sprite_palette_0 == b.sprite_palette_0
        &&& a.sprite_palette_1 == b.sprite_palette_1
        &&& a.tiledata.data@ == b.tiledata.data@
        &&& a.window_position == b.window_position
        &&& a.pal_white == b.pal_white
        &&& a.pal_light == b.pal_light
        &&& a.pal_dark == b.pal_dark
        &&& a.pal_black == b.pal_black
    }

    /// The 32-bit word the palette assigns to a background shade.
    pub open spec fn spec_shade_value(self, color: BackgroundColor) -> u32 {
        match color {
            BackgroundColor::White => self.pal_white,
            BackgroundColor::LightGray => self.pal_light,
            BackgroundColor::DarkGray => self.pal_dark,
            BackgroundColor::Black => self.pal_black,
        }
    }

    /// The 32-bit word the palette assigns to an opaque sprite shade.
    pub open spec fn spec_sprite_shade_value(self, color: SpriteColor) -> u32 {
        match color {
            SpriteColor::White => self.pal_white,
            SpriteColor::LightGray => self.pal_light,
            SpriteColor::DarkGray => self.pal_dark,
            SpriteColor::Black => self.pal_black,
            SpriteColor::Transparent => self.pal_white,
        }
    }

    /// A powered-on pipeline: cleared memories, mode 0 on line 0, the
    /// conventional grey palette, a black working frame.
    pub fn new() -> (r: PPU)
        ensures
            r.wf(),
            r.phase_wf(),
            r.clock == 0,
            r.ly == 0,
            r.lyc == 0,
            r.lcd_stat.0 == 0,
            r.lcdc.0 == 0,
            !r.frame_ready,
            !r.interrupt_request.vblank,
            !r.interrupt_request.stat,
            r.pal_white == 0xFFFFFF && r.pal_light == 0x454545 && r.pal_dark == 0xA8A8A8
                && r.pal_black == 0,
    {
        PPU {
            background_viewport: BackgroundViewport::default(),
            background_palette: BackgroundPalette::new(),
            bg_priority: filled_pixels(23040),
            bg_map0: BackgroundMap::new(),
            bg_map1: BackgroundMap::new(),
            buffer: filled(23040, 0),
            frame: filled(23040, 0),
            frame_ready: false,
            clock: 0,
            interrupt_request: InterruptRequests::default(),
            lcd_stat: LCDStatus::new(),
            lcdc: LCDControl::new(),
            ly: 0,
            lyc: 0,
            oam: Oam::new(),
            sprite_palette_0: SpritePalette::new(),
            sprite_palette_1: SpritePalette::new(),
            tiledata: TileData::new(),
            window_position: WindowPosition::default(),
            pal_white: 0xFFFFFF,
            pal_light: 0x454545,
            pal_dark: 0xA8A8A8,
            pal_black: 0,
        }
    }

    /// Replace the palette: the 32-bit words for white, light grey, dark
    /// grey and black.
    pub fn set_palette(&mut self, white: u32, light: u32, dark: u32, black: u32)
        ensures
            *final(self) == (PPU {
                pal_white: white,
                pal_light: light,
                pal_dark: dark,
                pal_black: black,
                ..*old(self)
            }),
    {
        self.pal_white = white;
        self.pal_light = light;
        self.pal_dark = dark;
        self.pal_black = black;
    }

    /// Read SCX or SCY.
    pub fn read_background_viewport(&self, viewport_register: ViewportRegister) -> (r: u8)
        ensures
            r == (match viewport_register {
                ViewportRegister::SCX => self.background_viewport.scx,
                ViewportRegister::SCY => self.background_viewport.scy,
            }),
    {
        match viewport_register {
            ViewportRegister::SCX => self.background_viewport.scx,
            ViewportRegister::SCY => self.background_viewport.scy,
        }
    }

    /// Write SCX or SCY.
    pub fn write_background_viewport(&mut self, viewport_register: ViewportRegister, value: u8)
        ensures
            *final(self) == (match viewport_register {
                ViewportRegister::SCX => PPU {
                    background_viewport: BackgroundViewport {
                        scx: value,
                        ..old(self).background_viewport
                    },
                    ..*old(self)
                },
                ViewportRegister::SCY => PPU {
                    background_viewport: BackgroundViewport {
                        scy: value,
                        ..old(self).background_viewport
                    },
                    ..*old(self)
                },
            }),
    {
        match viewport_register {
            ViewportRegister::SCX => {
                self.background_viewport.scx = value;
            },
            ViewportRegister::SCY => {
                self.background_viewport.scy = value;
            },
        }
    }

    /// Read BGP.
    pub fn read_background_palette(&self) -> (r: u8)
        ensures
            r == self.background_palette.0,
    {
        self.background_palette.read()
    }

    /// Write BGP.
    pub fn write_background_palette(&mut self, value: u8)
        ensures
            *final(self) == (PPU { background_palette: (BackgroundPalette(value)), ..*old(self) }),
    {
        self.background_palette.write(value)
    }

    /// Read a background map byte; each map takes offsets 0..0x400.
    pub fn read_bg_map(&self, bgmap: BGMapSelection, addr: u16) -> (r: u8)
        requires
            addr < 0x400,
            self.wf(),
        ensures
            r == (match bgmap {
                BGMapSelection::Map0 => self.bg_map0.0@[addr as int],
                BGMapSelection::Map1 => self.bg_map1.0@[addr as int],
            }),
    {
        match bgmap {
            BGMapSelection::Map0 => self.bg_map0.read(addr),
            BGMapSelection::Map1 => self.bg_map1.read(addr),
        }
    }

    /// Write a background map byte; each map takes offsets 0..0x400.
    pub fn write_bg_map(&mut self, bgmap: BGMapSelection, addr: u16, value: u8)
        requires
            addr < 0x400,
            old(self).wf(),
        ensures
            final(self).wf(),
            *final(self) == (match bgmap {
                BGMapSelection::Map0 => PPU {
                    bg_map0: (BackgroundMap(final(self).bg_map0.0)),
                    ..*old(self)
                },
                BGMapSelection::Map1 => PPU {
                    bg_map1: (BackgroundMap(final(self).bg_map1.0)),
                    ..*old(self)
                },
            }),
            match bgmap {
                BGMapSelection::Map0 => final(self).bg_map0.0@ == old(self).bg_map0.0@.update(
                    addr as int,
                    value,
                ),
                BGMapSelection::Map1 => final(self).bg_map1.0@ == old(self).bg_map1.0@.update(
                    addr as int,
                    value,
                ),
            },
    {
        match bgmap {
            BGMapSelection::Map0 => self.bg_map0.write(addr, value),
            BGMapSelection::Map1 => self.bg_map1.write(addr, value),
        }
    }

    /// Read STAT.
    pub fn read_lcd_stat(&self) -> (r: u8)
        ensures
            r == self.lcd_stat.0,
    {
        self.lcd_stat.read()
    }

    /// Write STAT. The low three bits (the mode and the coincidence flag)
    /// are maintained by the pipeline and stay as they are; only the
    /// interrupt-enable bits take the written value.
    pub fn write_lcd_stat(&mut self, value: u8)
        ensures
            *final(self) == (PPU {
                lcd_stat: (LCDStatus((value & !0x7) | (old(self).lcd_stat.0 & 0x7))),
                ..*old(self)
            }),
            final(self).lcd_stat.spec_ppu_mode() == old(self).lcd_stat.spec_ppu_mode(),
    {
        let kept = self.lcd_stat.read() & 0x7;
        self.lcd_stat.write((value & !0x7) | kept);
        proof {
            lemma_stat_write_keeps_low_bits(value, old(self).lcd_stat.0);
        }
    }

    /// Read LCDC.
    pub fn read_lcdc(&self) -> (r: u8)
        ensures
            r == self.lcdc.0,
    {
        self.lcdc.read()
    }

    /// Write LCDC. Turning the LCD enable bit off resets LY to 0, puts the
    /// machine into HBlank with a zero clock, and clears the working frame
    /// to black; the register itself always takes the written value.
    pub fn write_lcdc(&mut self, value: u8)
        requires
            old(self).wf(),
        ensures
            final(self).wf(),
            final(self).lcdc.0 == value,
            old(self).lcdc.spec_lcd_enable() && value & 0x80 == 0 ==> {
                &&& final(self).ly == 0
                &&& final(self).clock == 0
                &&& final(self).lcd_stat.spec_ppu_mode() == PPUMode::HBlank
                &&& final(self).buffer@ == Seq::new(23040, |i: int| old(self).pal_black)
                &&& final(self).phase_wf()
                &&& PPU::spec_disable_untouched(*old(self), *final(self))
            },
            !(old(self).lcdc.spec_lcd_enable() && value & 0x80 == 0) ==> *final(self) == (PPU {
                lcdc: (LCDControl(value)),
                ..*old(self)
            }),
    {
        if self.lcdc.is_lcd_enable_toggled_off(value) {
            self.update_ly(0);
            self.lcd_stat.set_ppu_mode(PPUMode::HBlank);
            self.clock = 0;
            self.reset_buffer();
        }

        self.lcdc.write(value)
    }

    /// Read OBP0 or OBP1.
    pub fn read_sprite_palette(&self, palette: SpritePaletteSelection) -> (r: u8)
        ensures
            r == (match palette {
                SpritePaletteSelection::Palette0 => self.sprite_palette_0.0,
                SpritePaletteSelection::Palette1 => self.sprite_palette_1.0,
            }),
    {
        match palette {
            SpritePaletteSelection::Palette0 => self.sprite_palette_0.read(),
            SpritePaletteSelection::Palette1 => self.sprite_palette_1.read(),
        }
    }

    /// Write OBP0 or OBP1.
    pub fn write_sprite_palette(&mut self, palette: SpritePaletteSelection, value: u8)
        ensures
            *final(self) == (match palette {
                SpritePaletteSelection::Palette0 => PPU {
                    sprite_palette_0: (SpritePalette(value)),
                    ..*old(self)
                },
                SpritePaletteSelection::Palette1 => PPU {
                    sprite_palette_1: (SpritePalette(value)),
                    ..*old(self)
                },
            }),
    {
        match palette {
            SpritePaletteSelection::Palette0 => self.sprite_palette_0.write(value),
            SpritePaletteSelection::Palette1 => self.sprite_palette_1.write(value),
        }
    }

    /// Read a tile-data byte; offsets 0..0x1800.
    pub fn read_tiledata(&self, addr: u16) -> (r: u8)
        requires
            addr < 0x1800,
            self.wf(),
        ensures
            r == self.tiledata.data@[addr as int],
    {
        self.tiledata.read(addr)
    }

    /// Write a tile-data byte; offsets 0..0x1800.
    pub fn write_tiledata(&mut self, addr: u16, value: u8)
        requires
            addr < 0x1800,
            old(self).wf(),
        ensures
            final(self).wf(),
            final(self).tiledata.data@ == old(self).tiledata.data@.update(addr as int, value),
            *final(self) == (PPU { tiledata: (TileData { data: final(self).tiledata.data }), ..*old(self) }),
    {
        self.tiledata.write(addr, value)
    }

    /// Read an OAM byte; offsets 0..160.
    pub fn read_oam(&self, addr: u16) -> (r: u8)
        requires
            addr < 160,
            self.wf(),
        ensures
            r == self.oam.0@[addr as int],
    {
        self.oam.read(addr)
    }

    /// Write an OAM byte; offsets 0..160.
    pub fn write_oam(&mut self, addr: u16, value: u8)
        requires
            addr < 160,
            old(self).wf(),
        ensures
            final(self).wf(),
            final(self).oam.0@ == old(self).oam.0@.update(addr as int, value),
            *final(self) == (PPU { oam: (Oam(final(self).oam.0)), ..*old(self) }),
    {
        self.oam.write(addr, value)
    }

    /// Read WX or WY.
    pub fn read_window_position(&self, register: WindowPositionRegister) -> (r: u8)
        ensures
            r == (match register {
                WindowPositionRegister::WX => self.window_position.wx,
                WindowPositionRegister::WY => self.window_position.wy,
            }),
    {
        match register {
            WindowPositionRegister::WX => self.window_position.wx,
            WindowPositionRegister::WY => self.window_position.wy,
        }
    }

    /// Write WX or WY.
    pub fn write_window_position(&mut self, register: WindowPositionRegister, value: u8)
        ensures
            *final(self) == (match register {
                WindowPositionRegister::WX => PPU {
                    window_position: WindowPosition { wx: value, ..old(self).window_position },
                    ..*old(self)
                },
                WindowPositionRegister::WY => PPU {
                    window_position: WindowPosition { wy: value, ..old(self).window_position },
                    ..*old(self)
                },
            }),
    {
        match register {
            WindowPositionRegister::WX => {
                self.window_position.wx = value;
            },
            WindowPositionRegister::WY => {
                self.window_position.wy = value;
            },
        }
    }

    /// Read LYC.
    pub fn read_lyc(&self) -> (r: u8)
        ensures
            r == self.lyc,
    {
        self.lyc
    }

    /// Write LYC and re-run the LY=LYC comparison.
    pub fn write_lyc(&mut self, value: u8)
        ensures
            final(self).lyc == value,
            final(self).ly == old(self).ly,
            final(self).lcd_stat.spec_ppu_mode() == old(self).lcd_stat.spec_ppu_mode(),
            PPU::spec_static_unchanged_but_lyc(*old(self), *final(self)),
    {
        self.lyc = value;
        self.ly_compare();
    }

    /// Everything but LYC, the coincidence flag and the latched interrupts.
    pub open spec fn spec_static_unchanged_but_lyc(a: PPU, b: PPU) -> bool {
        &&& a.background_viewport == b.background_viewport
        &&& a.background_palette == b.background_palette
        &&& a.buffer@ == b.buffer@
        &&& a.bg_priority@ == b.bg_priority@
        &&& a.frame@ == b.frame@
        &&& a.frame_ready == b.frame_ready
        &&& a.bg_map0.0@ == b.bg_map0.0@
        &&& a.bg_map1.0@ == b.bg_map1.0@
        &&& a.clock == b.clock
        &&& a.lcdc == b.lcdc
        &&& a.ly == b.ly
        &&& a.oam.0@ == b.oam.0@
        &&& a.sprite_palette_0 == b.sprite_palette_0
        &&& a.sprite_palette_1 == b.sprite_palette_1
        &&& a.tiledata.data@ == b.tiledata.data@
        &&& a.window_position == b.window_position
        &&& a.pal_white == b.pal_white
        &&& a.pal_light == b.pal_light
        &&& a.pal_dark == b.pal_dark
        &&& a.pal_black == b.pal_black
    }

    /// Read LY. Writes to LY have no channel at all: the MMU discards them,
    /// so they are observational no-ops.
    pub fn read_ly(&self) -> (r: u8)
        ensures
            r == self.ly,
    {
        self.ly
    }

    /// Compare LY with LYC: record the coincidence flag, and latch a STAT
    /// interrupt when they match and the LY=LYC enable bit is set.
    fn ly_compare(&mut self)
        ensures
            final(self).lcd_stat.0 == (if old(self).ly == old(self).lyc {
                old(self).lcd_stat.0 | 0b100
            } else {
                old(self).lcd_stat.0 & !0b100
            }),
            final(self).interrupt_request.stat == (old(self).interrupt_request.stat || (old(
                self,
            ).lcd_stat.spec_lyc_ly_stat_ie() && old(self).ly == old(self).lyc)),
            final(self).interrupt_request.vblank == old(self).interrupt_request.vblank,
            final(self).lcd_stat.spec_ppu_mode() == old(self).lcd_stat.spec_ppu_mode(),
            final(self).lcd_stat.spec_lyc_ly_stat_ie() == old(self).lcd_stat.spec_lyc_ly_stat_ie(),
            final(self).lcd_stat.spec_oam_stat_ie() == old(self).lcd_stat.spec_oam_stat_ie(),
            final(self).lcd_stat.spec_vblank_stat_ie() == old(self).lcd_stat.spec_vblank_stat_ie(),
            final(self).lcd_stat.spec_hblank_stat_ie() == old(self).lcd_stat.spec_hblank_stat_ie(),
            *final(self) == (PPU {
                lcd_stat: final(self).lcd_stat,
                interrupt_request: InterruptRequests {
                    stat: final(self).interrupt_request.stat,
                    vblank: old(self).interrupt_request.vblank,
                },
                ..*old(self)
            }),
    {
        let coincide = self.ly == self.lyc;
        self.lcd_stat.set_lyc_eq_ly(coincide);

        if self.lcd_stat.lyc_ly_stat_ie() && self.lyc == self.ly {
            self.request_stat_interrupt()
        }
    }

    /// Latch a STAT interrupt for the MMU to fold into IF.
    fn request_stat_interrupt(&mut self)
        ensures
            *final(self) == (PPU {
                interrupt_request: InterruptRequests {
                    stat: true,
                    vblank: old(self).interrupt_request.vblank,
                },
                ..*old(self)
            }),
    {
        self.interrupt_request.stat = true
    }

    /// Latch a VBlank interrupt for the MMU to fold into IF.
    fn request_vblank_interrupt(&mut self)
        ensures
            *final(self) == (PPU {
                interrupt_request: InterruptRequests {
                    stat: old(self).interrupt_request.stat,
                    vblank: true,
                },
                ..*old(self)
            }),
    {
        self.interrupt_request.vblank = true
    }

    /// Clear the working frame to the palette's black.
    fn reset_buffer(&mut self)
        requires
            old(self).wf(),
        ensures
            final(self).wf(),
            final(self).buffer@ == Seq::new(23040, |i: int| old(self).pal_black),
            *final(self) == (PPU { buffer: final(self).buffer, ..*old(self) }),
    {
        let black = self.pal_black;
        self.buffer = filled(23040, black);
    }
}

/// A vector of `len` copies of `value`.
fn filled(len: usize, value: u32) -> (r: Vec<u32>)
    ensures
        r@ == Seq::new(len as nat, |i: int| value),
{
    let mut v: Vec<u32> = Vec::new();
    let mut i: usize = 0;
    while i < len
        invariant
            i <= len,
            v@ == Seq::new(i as nat, |j: int| value),
        decreases len - i,
    {
        v.push(value);
        i = i + 1;
        proof {
            assert(v@ =~= Seq::new(i as nat, |j: int| value));
        }
    }
    v
}

/// A vector of `len` zero-index pixels.
fn filled_pixels(len: usize) -> (r: Vec<Pixel>)
    ensures
        r@ == Seq::new(len as nat, |i: int| Pixel::Color0),
{
    let mut v: Vec<Pixel> = Vec::new();
    let mut i: usize = 0;
    while i < len
        invariant
            i <= len,
            v@ == Seq::new(i as nat, |j: int| Pixel::Color0),
        decreases len - i,
    {
        v.push(Pixel::Color0);
        i = i + 1;
        proof {
            assert(v@ =~= Seq::new(i as nat, |j: int| Pixel::Color0));
        }
    }
    v
}

impl PPU {
    /// Set LY and re-run the LY=LYC comparison.
    fn update_ly(&mut self, value: u8)
        ensures
            final(self).ly == value,
            final(self).lcd_stat.0 == (if value == old(self).lyc {
                old(self).lcd_stat.0 | 0b100
            } else {
                old(self).lcd_stat.0 & !0b100
            }),
            final(self).interrupt_request.stat == (old(self).interrupt_request.stat || (old(
                self,
            ).lcd_stat.spec_lyc_ly_stat_ie() && value == old(self).lyc)),
            final(self).lcd_stat.spec_ppu_mode() == old(self).lcd_stat.spec_ppu_mode(),
            final(self).lcd_stat.spec_lyc_ly_stat_ie() == old(self).lcd_stat.spec_lyc_ly_stat_ie(),
            final(self).lcd_stat.spec_oam_stat_ie() == old(self).lcd_stat.spec_oam_stat_ie(),
            final(self).lcd_stat.spec_vblank_stat_ie() == old(self).lcd_stat.spec_vblank_stat_ie(),
            final(self).lcd_stat.spec_hblank_stat_ie() == old(self).lcd_stat.spec_hblank_stat_ie(),
            *final(self) == (PPU {
                ly: value,
                lcd_stat: final(self).lcd_stat,
                interrupt_request: InterruptRequests {
                    stat: final(self).interrupt_request.stat,
                    vblank: old(self).interrupt_request.vblank,
                },
                ..*old(self)
            }),
    {
        self.ly = value;
        self.ly_compare();
    }

    /// Enter a mode: store it in STAT, raise a STAT interrupt when that
    /// mode's enable bit is set, and always raise VBlank on entering mode 1.
    fn switch_mode(&mut self, mode: PPUMode)
        ensures
            final(self).lcd_stat.spec_ppu_mode() == mode,
            final(self).lcd_stat.0 == (old(self).lcd_stat.0 & !0x3) | lcdc_status::spec_mode_code(
                mode,
            ),
            final(self).interrupt_request.stat == (old(self).interrupt_request.stat || (match mode {
                PPUMode::HBlank => old(self).lcd_stat.spec_hblank_stat_ie(),
                PPUMode::VBlank => old(self).lcd_stat.spec_vblank_stat_ie(),
                PPUMode::Oam => old(self).lcd_stat.spec_oam_stat_ie(),
                PPUMode::Drawing => false,
            })),
            final(self).interrupt_request.vblank == (old(self).interrupt_request.vblank || mode
                == PPUMode::VBlank),
            *final(self) == (PPU {
                lcd_stat: final(self).lcd_stat,
                interrupt_request: final(self).interrupt_request,
                ..*old(self)
            }),
    {
        match mode {
            PPUMode::HBlank => {
                if self.lcd_stat.hblank_stat_ie() {
                    self.request_stat_interrupt()
                }

                self.lcd_stat.set_ppu_mode(PPUMode::HBlank)
            },
            PPUMode::VBlank => {
                if self.lcd_stat.vblank_stat_ie() {
                    self.request_stat_interrupt()
                }

                self.request_vblank_interrupt();

                self.lcd_stat.set_ppu_mode(PPUMode::VBlank)
            },
            PPUMode::Oam => {
                if self.lcd_stat.oam_stat_ie() {
                    self.request_stat_interrupt()
                }

                self.lcd_stat.set_ppu_mode(PPUMode::Oam)
            },
            PPUMode::Drawing => self.lcd_stat.set_ppu_mode(PPUMode::Drawing),
        }
    }

    /// Run the pixel pipeline for the given m-cycles. With the LCD disabled
    /// nothing moves. With it enabled, the machine's position in the frame
    /// advances by exactly the elapsed m-cycles, wrapping at the frame
    /// length of 17556 m-cycles (70224 clocks); the video registers and
    /// memories the pipeline only reads stay as they are.
    pub fn step(&mut self, cycles: u8)
        requires
            old(self).wf(),
            old(self).phase_wf(),
            cycles < 20,
        ensures
            final(self).wf(),
            final(self).phase_wf(),
            PPU::spec_static_unchanged(*old(self), *final(self)),
            !old(self).lcdc.spec_lcd_enable() ==> *final(self) == *old(self),
            old(self).lcdc.spec_lcd_enable() ==> final(self).spec_phase() == (old(
                self,
            ).spec_phase() + cycles) % 17556,
            final(self).interrupt_request.vblank == (old(self).interrupt_request.vblank || old(
                self,
            ).spec_enters_vblank(cycles)),
            old(self).interrupt_request.stat ==> final(self).interrupt_request.stat,
            old(self).spec_enters_vblank(cycles) && old(self).lcd_stat.spec_vblank_stat_ie()
                ==> final(self).interrupt_request.stat,
            old(self).spec_enters_vblank(cycles) ==> final(self).frame_ready && final(self).frame@
                == old(self).buffer@ && final(self).buffer@ == Seq::new(
                23040,
                |i: int| old(self).pal_black,
            ),
            !old(self).spec_enters_vblank(cycles) ==> final(self).frame@ == old(self).frame@
                && final(self).frame_ready == old(self).frame_ready,
    {
        if !self.lcdc.lcd_enable() {
            return ;
        }

        self.update_clock(cycles);

        let mode = self.lcd_stat.ppu_mode();
        match mode {
            PPUMode::HBlank => self.hblank_step(),
            PPUMode::VBlank => self.vblank_step(),
            PPUMode::Oam => self.oam_step(),
            PPUMode::Drawing => self.drawing_step(),
        }
    }

    /// Add the elapsed m-cycles to the mode clock.
    fn update_clock(&mut self, cycles: u8)
        requires
            old(self).clock < 114,
        ensures
            *final(self) == (PPU { clock: (old(self).clock + cycles) as u32, ..*old(self) }),
    {
        self.clock = self.clock + cycles as u32;
    }

    /// HBlank: once its budget is spent, move to the next line's OAM scan,
    /// or at the end of line 143 publish the finished frame, clear the
    /// working frame, and enter VBlank on line 144.
    fn hblank_step(&mut self)
        requires
            old(self).wf(),
            old(self).lcd_stat.spec_ppu_mode() == PPUMode::HBlank,
            old(self).ly < 144,
            old(self).clock < 71,
        ensures
            final(self).wf(),
            final(self).phase_wf(),
            PPU::spec_static_unchanged(*old(self), *final(self)),
            final(self).spec_phase() == old(self).spec_phase() % 17556,
            final(self).interrupt_request.vblank == (old(self).interrupt_request.vblank || (old(self).clock >= 51 && old(self).ly == 143)),
            old(self).interrupt_request.stat ==> final(self).interrupt_request.stat,
            old(self).clock >= 51 && old(self).ly == 143 && old(self).lcd_stat.spec_vblank_stat_ie()
                ==> final(self).interrupt_request.stat,
            old(self).clock >= 51 && old(self).ly == 143 ==> final(self).frame_ready && final(self).frame@ == old(self).buffer@ && final(self).buffer@ == Seq::new(
                23040,
                |i: int| old(self).pal_black,
            ),
            !(old(self).clock >= 51 && old(self).ly == 143) ==> final(self).frame@ == old(self).frame@ && final(self).frame_ready == old(self).frame_ready && final(self).buffer@
                == old(self).buffer@,
    {
        if self.clock < 51 {
            return ;
        }

        self.clock = self.clock % 51;

        if self.ly < 143 {
            let line = self.ly + 1;
            self.update_ly(line);
            self.switch_mode(PPUMode::Oam)
        } else {
            self.publish_frame();
            self.reset_buffer();
            self.update_ly(144);
            self.switch_mode(PPUMode::VBlank)
        }
    }

    /// Copy the completed working frame out for the host and raise the
    /// frame-ready flag.
    fn publish_frame(&mut self)
        requires
            old(self).wf(),
        ensures
            final(self).wf(),
            final(self).frame@ == old(self).buffer@,
            final(self).frame_ready,
            *final(self) == (PPU { frame: final(self).frame, frame_ready: true, ..*old(self) }),
    {
        self.frame = clone_words(&self.buffer);
        self.frame_ready = true;
    }

    /// VBlank: LY advances every 114 m-cycles; after line 153 the machine
    /// returns to the OAM scan of line 0.
    fn vblank_step(&mut self)
        requires
            old(self).wf(),
            old(self).lcd_stat.spec_ppu_mode() == PPUMode::VBlank,
            144 <= old(self).ly < 154,
            old(self).clock < 134,
        ensures
            final(self).wf(),
            final(self).phase_wf(),
            PPU::spec_static_unchanged(*old(self), *final(self)),
            final(self).spec_phase() == old(self).spec_phase() % 17556,
            final(self).interrupt_request.vblank == old(self).interrupt_request.vblank,
            old(self).interrupt_request.stat ==> final(self).interrupt_request.stat,
            final(self).frame@ == old(self).frame@,
            final(self).frame_ready == old(self).frame_ready,
            final(self).buffer@ == old(self).buffer@,
    {
        if self.clock < 114 {
            return ;
        }

        self.clock = self.clock % 114;
        let line = self.ly + 1;

        if line >= 154 {
            self.update_ly(0);
            self.switch_mode(PPUMode::Oam);
            proof {
                let c = old(self).clock as int;
                assert((17442 + c) % 17556 == c - 114) by (nonlinear_arith)
                    requires
                        114 <= c < 134,
                ;
            }
        } else {
            self.update_ly(line);
        }
    }

    /// The OAM scan: once its 20 m-cycles are spent, enter drawing.
    fn oam_step(&mut self)
        requires
            old(self).wf(),
            old(self).lcd_stat.spec_ppu_mode() == PPUMode::Oam,
            old(self).ly < 144,
            old(self).clock < 40,
        ensures
            final(self).wf(),
            final(self).phase_wf(),
            PPU::spec_static_unchanged(*old(self), *final(self)),
            final(self).spec_phase() == old(self).spec_phase() % 17556,
            final(self).interrupt_request.vblank == old(self).interrupt_request.vblank,
            old(self).interrupt_request.stat ==> final(self).interrupt_request.stat,
            final(self).frame@ == old(self).frame@,
            final(self).frame_ready == old(self).frame_ready,
            final(self).buffer@ == old(self).buffer@,
    {
        if self.clock < 20 {
            return ;
        }

        self.clock = self.clock % 20;
        self.switch_mode(PPUMode::Drawing);
    }

    /// Drawing: once its 43 m-cycles are spent, compose the current
    /// scanline into the working frame and enter HBlank.
    fn drawing_step(&mut self)
        requires
            old(self).wf(),
            old(self).lcd_stat.spec_ppu_mode() == PPUMode::Drawing,
            old(self).ly < 144,
            old(self).clock < 63,
        ensures
            final(self).wf(),
            final(self).phase_wf(),
            PPU::spec_static_unchanged(*old(self), *final(self)),
            final(self).spec_phase() == old(self).spec_phase() % 17556,
            final(self).interrupt_request.vblank == old(self).interrupt_request.vblank,
            old(self).interrupt_request.stat ==> final(self).interrupt_request.stat,
            final(self).frame@ == old(self).frame@,
            final(self).frame_ready == old(self).frame_ready,
    {
        if self.clock < 43 {
            return ;
        }

        self.clock = self.clock % 43;
        self.render_scanline();
        self.switch_mode(PPUMode::HBlank);
    }
}

/// A copy of a word vector.
fn clone_words(v: &Vec<u32>) -> (r: Vec<u32>)
    ensures
        r@ == v@,
{
    let mut out: Vec<u32> = Vec::new();
    let mut i: usize = 0;
    while i < v.len()
        invariant
            i <= v@.len(),
            out@ == v@.subrange(0, i as int),
        decreases v@.len() - i,
    {
        out.push(v[i]);
        i = i + 1;
        proof {
            assert(out@ =~= v@.subrange(0, i as int));
        }
    }
    proof {
        assert(out@ =~= v@);
    }
    out
}


/// The background-plane pixel the background layer shows at screen
/// coordinates `(x, y)`: the viewport offsets wrap over the 256-pixel
/// plane, the selected map names the tile, and LCDC's addressing mode
/// locates its data.
pub open spec fn spec_bg_pixel(p: PPU, x: u8, y: u8) -> Pixel {
    let tx = ((x + p.background_viewport.scx) % 256) as u8;
    let ty = ((y + p.background_viewport.scy) % 256) as u8;
    let map = if p.lcdc.spec_background_background_map() == BGMapSelection::Map0 {
        p.bg_map0.0@
    } else {
        p.bg_map1.0@
    };
    let tn = background_map::spec_tile_number_at(map, tx, ty);
    let start = tiledata::spec_tile_start(tn, p.lcdc.spec_addressing_method());
    let data = p.tiledata.data@.subrange(start, start + 16);
    tile::spec_tile_pixel(data, (tx % 8) as u8, (ty % 8) as u8)
}

/// The screen column the window starts at.
pub open spec fn spec_wx(p: PPU) -> u8 {
    if p.window_position.wx >= 7 {
        (p.window_position.wx - 7) as u8
    } else {
        0
    }
}

/// The window pixel shown at screen coordinates `(x, y)`: the window's own
/// map indexed by window-relative coordinates.
pub open spec fn spec_window_pixel(p: PPU, x: u8, y: u8) -> Pixel {
    let cx = (x - spec_wx(p)) as u8;
    let cy = (y - p.window_position.wy) as u8;
    let map = if p.lcdc.spec_window_background_map() == BGMapSelection::Map0 {
        p.bg_map0.0@
    } else {
        p.bg_map1.0@
    };
    let tn = background_map::spec_tile_number_at(map, cx, cy);
    let start = tiledata::spec_tile_start(tn, p.lcdc.spec_addressing_method());
    let data = p.tiledata.data@.subrange(start, start + 16);
    tile::spec_tile_pixel(data, (cx % 8) as u8, (cy % 8) as u8)
}

impl PPU {
    /// Everything outside the working frame and the priority plane is as it
    /// was: the renderers only compose pixels.
    pub open spec fn spec_render_frame(a: PPU, b: PPU) -> bool {
        &&& PPU::spec_static_unchanged(a, b)
        &&& a.ly == b.ly
        &&& a.clock == b.clock
        &&& a.lcd_stat == b.lcd_stat
        &&& a.interrupt_request.stat == b.interrupt_request.stat
        &&& a.interrupt_request.vblank == b.interrupt_request.vblank
        &&& a.frame@ == b.frame@
        &&& a.frame_ready == b.frame_ready
    }

    /// Compose the current scanline: the background (or window) layer when
    /// LCDC bit 0 allows it, then the sprite layer when bit 1 does.
    fn render_scanline(&mut self)
        requires
            old(self).wf(),
            old(self).ly < 144,
        ensures
            final(self).wf(),
            PPU::spec_render_frame(*old(self), *final(self)),
    {
        if self.lcdc.background_and_window_enabled() {
            self.render_background_scanline();
        }

        if self.lcdc.sprites_enabled() {
            self.render_sprites_at_scanline();
        }
    }

    /// Compose the background and window layers of the current scanline,
    /// pixel by pixel, recording each pixel's color index in the priority
    /// plane for the sprite mixer.
    fn render_background_scanline(&mut self)
        requires
            old(self).wf(),
            old(self).ly < 144,
        ensures
            final(self).wf(),
            PPU::spec_render_frame(*old(self), *final(self)),
    {
        let ly = self.ly;
        let mut x: u8 = 0;
        while x < 160
            invariant
                self.wf(),
                self.ly == ly,
                ly < 144,
                PPU::spec_render_frame(*old(self), *self),
            decreases 160 - x,
        {
            if self.is_window_pixel(x, ly) {
                self.render_window_layer_pixel(x, ly);
            } else {
                self.render_background_layer_pixel(x, ly);
            }
            x = x + 1;
        }
    }

    /// Whether screen coordinates `(x, y)` fall inside the enabled window.
    fn is_window_pixel(&self, x: u8, y: u8) -> (r: bool)
        ensures
            r == (self.lcdc.spec_window_enabled() && x >= spec_wx(*self) && y
                >= self.window_position.wy),
    {
        if !self.lcdc.window_enabled() {
            return false;
        }

        x >= self.window_position.wx() && y >= self.window_position.wy()
    }

    /// Compose one window pixel at screen coordinates `(x, y)`: look the
    /// tile up window-relative, remap through BGP, record the color index
    /// in the priority plane.
    #[verifier::rlimit(50)]
    #[verifier::spinoff_prover]
    fn render_window_layer_pixel(&mut self, x: u8, y: u8)
        requires
            old(self).wf(),
            x < 160,
            y < 144,
            x >= spec_wx(*old(self)),
            y >= old(self).window_position.wy,
        ensures
            final(self).wf(),
            PPU::spec_render_frame(*old(self), *final(self)),
            final(self).buffer@ == old(self).buffer@.update(
                y * 160 + x,
                old(self).spec_shade_value(
                    background_palette::spec_background_palette(
                        old(self).background_palette.0,
                        spec_window_pixel(*old(self), x, y),
                    ),
                ),
            ),
            final(self).bg_priority@ == old(self).bg_priority@.update(
                y * 160 + x,
                spec_window_pixel(*old(self), x, y),
            ),
    {
        let cx = x - self.window_position.wx();
        let cy = y - self.window_position.wy;

        let tile_number = match self.lcdc.window_background_map() {
            BGMapSelection::Map0 => self.bg_map0.tile_number_at(cx, cy),
            BGMapSelection::Map1 => self.bg_map1.tile_number_at(cx, cy),
        };
        let addressing_method = self.lcdc.addressing_method();

        let tile = self.tiledata.tile_at(tile_number, addressing_method);

        let pixel_x = cx % 8;
        let pixel_y = cy % 8;

        let pixel = tile.pixel_at(pixel_x, pixel_y);

        let color = self.background_palette.color_from_pixel(pixel);
        let word = self.shade_value(color);

        let idx = y as usize * 160 + x as usize;
        self.buffer.set(idx, word);
        self.bg_priority.set(idx, pixel);
    }

    /// Compose one background pixel at screen coordinates `(x, y)`: apply
    /// the viewport scroll, look the tile up, remap through BGP, record the
    /// color index in the priority plane.
    #[verifier::rlimit(50)]
    #[verifier::spinoff_prover]
    fn render_background_layer_pixel(&mut self, x: u8, y: u8)
        requires
            old(self).wf(),
            x < 160,
            y < 144,
        ensures
            final(self).wf(),
            PPU::spec_render_frame(*old(self), *final(self)),
            final(self).buffer@ == old(self).buffer@.update(
                y * 160 + x,
                old(self).spec_shade_value(
                    background_palette::spec_background_palette(
                        old(self).background_palette.0,
                        spec_bg_pixel(*old(self), x, y),
                    ),
                ),
            ),
            final(self).bg_priority@ == old(self).bg_priority@.update(
                y * 160 + x,
                spec_bg_pixel(*old(self), x, y),
            ),
    {
        let tile_x = x.wrapping_add(self.background_viewport.scx);
        let tile_y = y.wrapping_add(self.background_viewport.scy);

        let tile_number = match self.lcdc.background_background_map() {
            BGMapSelection::Map0 => self.bg_map0.tile_number_at(tile_x, tile_y),
            BGMapSelection::Map1 => self.bg_map1.tile_number_at(tile_x, tile_y),
        };
        let addressing_method = self.lcdc.addressing_method();

        let tile = self.tiledata.tile_at(tile_number, addressing_method);

        let pixel_x = tile_x % 8;
        let pixel_y = tile_y % 8;

        let pixel = tile.pixel_at(pixel_x, pixel_y);

        let color = self.background_palette.color_from_pixel(pixel);
        let word = self.shade_value(color);

        let idx = y as usize * 160 + x as usize;
        self.buffer.set(idx, word);
        self.bg_priority.set(idx, pixel);
    }

    /// Mix every sprite into the current scanline.
    fn render_sprites_at_scanline(&mut self)
        requires
            old(self).wf(),
            old(self).ly < 144,
        ensures
            final(self).wf(),
            PPU::spec_render_frame(*old(self), *final(self)),
    {
        let ly = self.ly;
        let mut idx: u8 = 0;
        while idx < 40
            invariant
                self.wf(),
                self.ly == ly,
                ly < 144,
                PPU::spec_render_frame(*old(self), *self),
            decreases 40 - idx,
        {
            self.render_sprite_at_scanline(idx);
            idx = idx + 1;
        }
    }

    /// Mix one sprite into the current scanline, when the line crosses it:
    /// fetch its tile row (respecting the flips) and mix its eight columns.
    fn render_sprite_at_scanline(&mut self, sprite_number: u8)
        requires
            old(self).wf(),
            old(self).ly < 144,
            sprite_number < 40,
        ensures
            final(self).wf(),
            PPU::spec_render_frame(*old(self), *final(self)),
            final(self).bg_priority@ == old(self).bg_priority@,
    {
        let sprite = self.oam.sprite_at(sprite_number);
        let sprite_size = self.lcdc.sprite_size();

        let ly = self.ly as i16;
        if ly < sprite.y() || ly >= sprite.y() + (sprite_size.height() as i16) {
            return ;
        }

        let y = (ly - sprite.y()) as u8;

        let mut x: u8 = 0;
        while x < 8
            invariant
                self.wf(),
                self.ly < 144,
                PPU::spec_render_frame(*old(self), *self),
                self.bg_priority@ == old(self).bg_priority@,
                sprite_size == self.lcdc.spec_sprite_size(),
                self.oam.0@ == old(self).oam.0@,
                y < sprite_size.spec_height(),
            decreases 8 - x,
        {
            let tile = self.tiledata.sprite_tile_at(sprite.tile_number, sprite_size);
            let pixel = tile.pixel_at(x, y, sprite.flags);
            self.render_sprite_pixel(pixel, &sprite, x, y);
            x = x + 1;
        }
    }

    /// Mix one sprite pixel into the working frame at the current scanline:
    /// - a pixel of color index 0 is transparent and leaves the frame
    ///   untouched at that column;
    /// - a sprite with the background-priority flag set never covers a
    ///   background pixel whose color index was non-zero;
    /// - otherwise the pixel, remapped through its OBP palette, overwrites
    ///   the frame (index-0 background pixels included).
    pub fn render_sprite_pixel(&mut self, sprite_pixel: Pixel, sprite: &Sprite, x: u8, _y: u8)
        requires
            old(self).wf(),
            old(self).ly < 144,
            x < 8,
        ensures
            final(self).wf(),
            PPU::spec_render_frame(*old(self), *final(self)),
            final(self).bg_priority@ == old(self).bg_priority@,
            ({
                let sx = x + sprite.x - 8;
                let idx = old(self).ly * 160 + sx;
                let covered = sprite.flags.spec_bg_priority() && old(self).bg_priority@[idx]
                    != Pixel::Color0;
                if sx < 0 || sx >= 160 || sprite_pixel == Pixel::Color0 || covered {
                    final(self).buffer@ == old(self).buffer@
                } else {
                    final(self).buffer@ == old(self).buffer@.update(
                        idx,
                        old(self).spec_sprite_shade_value(
                            sprite_palette::spec_sprite_palette(
                                (match sprite.flags.spec_palette_number() {
                                    oam::PaletteNumber::OBP0 => old(self).sprite_palette_0.0,
                                    oam::PaletteNumber::OBP1 => old(self).sprite_palette_1.0,
                                }),
                                sprite_pixel,
                            ),
                        ),
                    )
                }
            }),
    {
        let sx = x as i16 + sprite.x();

        if sx >= 160 || sx < 0 {
            return ;
        }

        if matches!(sprite_pixel, Pixel::Color0) {
            return ;
        }

        let idx = self.ly as usize * 160 + sx as usize;
        let background_pixel = self.bg_priority[idx];
        if sprite.flags.bg_priority() && !matches!(background_pixel, Pixel::Color0) {
            return ;
        }

        let palette_reg = match sprite.flags.palette_number() {
            oam::PaletteNumber::OBP0 => &self.sprite_palette_0,
            oam::PaletteNumber::OBP1 => &self.sprite_palette_1,
        };
        let color = palette_reg.color_from_pixel(sprite_pixel);
        let word = self.sprite_shade_value(color);

        self.buffer.set(idx, word);
    }

    /// The 32-bit word the palette assigns to a background shade.
    fn shade_value(&self, color: BackgroundColor) -> (r: u32)
        ensures
            r == self.spec_shade_value(color),
    {
        match color {
            BackgroundColor::White => self.pal_white,
            BackgroundColor::LightGray => self.pal_light,
            BackgroundColor::DarkGray => self.pal_dark,
            BackgroundColor::Black => self.pal_black,
        }
    }

    /// The 32-bit word the palette assigns to an opaque sprite shade.
    fn sprite_shade_value(&self, color: SpriteColor) -> (r: u32)
        ensures
            r == self.spec_sprite_shade_value(color),
    {
        match color {
            SpriteColor::White => self.pal_white,
            SpriteColor::LightGray => self.pal_light,
            SpriteColor::DarkGray => self.pal_dark,
            SpriteColor::Black => self.pal_black,
            SpriteColor::Transparent => self.pal_white,
        }
    }
}

/// Replacing only the upper bits of STAT leaves the two mode bits alone.
proof fn lemma_stat_write_keeps_low_bits(value: u8, reg: u8)
    by (bit_vector)
    ensures
        ((value & !0x7) | (reg & 0x7)) & 0b11 == reg & 0b11,
{
}


/// A full frame is exactly 17,556 m-cycles - 70,224 clocks at four per
/// m-cycle. `PPU::step` advances `spec_phase` by the elapsed m-cycles modulo
/// the frame length, so a run of steps totalling 17,556 m-cycles returns the
/// machine to the very position it started from, and no shorter total does.
pub proof fn lemma_frame_length(phase: int, elapsed: int)
    requires
        0 <= phase < 17556,
        0 < elapsed <= 17556,
    ensures
        (phase + 17556) % 17556 == phase,
        (phase + elapsed) % 17556 == phase ==> elapsed == 17556,
        17556 * 4 == 70224,
{
}

} // verus!
