//! The memory-management unit and the pixel pipeline it drives.

pub mod ppu;

use crate::cartridge::spec_cart_read_ram;
use crate::cartridge::spec_cart_read_rom;
use crate::cartridge::spec_cart_step;
use crate::cartridge::spec_cart_write_ram;
use crate::cartridge::spec_cart_write_rom;
use crate::cartridge::Cartridge;
use crate::cartridge::CartridgeView;
use crate::interrupts::Interrupt;
use crate::interrupts::Interrupts;
use crate::joypad::spec_joypad_read;
use crate::joypad::Joypad;
use crate::timer::spec_ticks;
use crate::timer::Timer;
use ppu::PPU;
use ppu::background_map::BGMapSelection;
use ppu::background_viewport::ViewportRegister;
use ppu::sprite_palette::SpritePaletteSelection;
use ppu::window_position::WindowPositionRegister;
use vstd::prelude::*;

verus! {

/// The memory-management unit: the fixed address decoder that routes every
/// read and write of the 16-bit address space to the component owning the
/// region, advances the clocked components, and folds their latched
/// interrupt requests into IF.
pub struct MMU {
    pub cartridge: Cartridge,
    pub empty: Vec<u8>,
    pub hram: Vec<u8>,
    pub io: Vec<u8>,
    pub joypad: Joypad,
    pub ppu: PPU,
    pub serial: Vec<u8>,
    pub timer: Timer,
    pub wrams: Vec<u8>,
    pub interrupts: Interrupts,
    pub clock_seconds: u64,
}

impl MMU {
    /// Every memory has its hardware size and the pixel pipeline is in a
    /// consistent state.
    pub open spec fn wf(self) -> bool {
        &&& self.empty@.len() == 0x60
        &&& self.hram@.len() == 0x80
        &&& self.io@.len() == 0x80
        &&& self.wrams@.len() == 0x2000
        &&& self.ppu.wf()
        &&& self.ppu.phase_wf()
    }
}

/// The byte a read yields at every address, following the memory map:
/// cartridge ROM, tile data, the two background maps, cartridge RAM, work
/// RAM and its echo, OAM, the absorbed region, and the I/O registers.
/// LY reads the pipeline's current scanline; unmapped addresses read zero.
pub open spec fn spec_read(m: MMU, addr: u16) -> u8 {
    if addr <= 0x7FFF {
        spec_cart_read_rom(m.cartridge@, addr)
    } else if addr <= 0x97FF {
        m.ppu.tiledata.data@[addr - 0x8000]
    } else if addr <= 0x9BFF {
        m.ppu.bg_map0.0@[addr - 0x9800]
    } else if addr <= 0x9FFF {
        m.ppu.bg_map1.0@[addr - 0x9C00]
    } else if addr <= 0xBFFF {
        spec_cart_read_ram(m.cartridge@, addr)
    } else if addr <= 0xDFFF {
        m.wrams@[addr - 0xC000]
    } else if addr <= 0xFDFF {
        m.wrams@[addr - 0xE000]
    } else if addr <= 0xFE9F {
        m.ppu.oam.0@[addr - 0xFE00]
    } else if addr <= 0xFEFF {
        m.empty@[addr - 0xFEA0]
    } else if addr == 0xFF00 {
        spec_joypad_read(m.joypad)
    } else if addr <= 0xFF02 {
        m.io@[addr - 0xFF00]
    } else if addr == 0xFF03 {
        0
    } else if addr == 0xFF04 {
        (m.timer.divider / 256) as u8
    } else if addr == 0xFF05 {
        m.timer.counter
    } else if addr == 0xFF06 {
        m.timer.modulo
    } else if addr == 0xFF07 {
        m.timer.control
    } else if addr <= 0xFF0E {
        0
    } else if addr == 0xFF0F {
        m.interrupts.interrupt_flag
    } else if addr <= 0xFF26 {
        m.io@[addr - 0xFF00]
    } else if addr <= 0xFF2F {
        0
    } else if addr <= 0xFF3F {
        m.io@[addr - 0xFF00]
    } else if addr == 0xFF40 {
        m.ppu.lcdc.0
    } else if addr == 0xFF41 {
        m.ppu.lcd_stat.0
    } else if addr == 0xFF42 {
        m.ppu.background_viewport.scy
    } else if addr == 0xFF43 {
        m.ppu.background_viewport.scx
    } else if addr == 0xFF44 {
        m.ppu.ly
    } else if addr == 0xFF45 {
        m.ppu.lyc
    } else if addr == 0xFF46 {
        0
    } else if addr == 0xFF47 {
        m.ppu.background_palette.0
    } else if addr == 0xFF48 {
        m.ppu.sprite_palette_0.0
    } else if addr == 0xFF49 {
        m.ppu.sprite_palette_1.0
    } else if addr == 0xFF4A {
        m.ppu.window_position.wy
    } else if addr == 0xFF4B {
        m.ppu.window_position.wx
    } else if addr <= 0xFF7F {
        0
    } else if addr <= 0xFFFE {
        m.hram@[addr - 0xFF80]
    } else {
        m.interrupts.interrupt_enabled
    }
}



/// Whether the pixel pipeline ends a step of `cycles` m-cycles with a VBlank
/// request latched: it was latched already, or the step crosses the frame
/// boundary.
pub open spec fn spec_vblank_latched(p: PPU, cycles: u8) -> bool {
    p.interrupt_request.vblank || p.spec_enters_vblank(cycles)
}

/// IF after the MMU folds the latched component requests in, in the order
/// the fold runs: the Timer bit, then LCDStat, then VBlank, then Joypad.
pub open spec fn spec_folded_flags(f: u8, timer: bool, stat: bool, vblank: bool, joypad: bool) -> u8 {
    let f1: u8 = if timer {
        f | 0b100
    } else {
        f
    };
    let f2: u8 = if stat {
        f1 | 0b10
    } else {
        f1
    };
    let f3: u8 = if vblank {
        f2 | 0b1
    } else {
        f2
    };
    if joypad {
        f3 | 0b10000
    } else {
        f3
    }
}

/// Everything except the cartridge is as it was.
pub open spec fn spec_same_but_cartridge(o: MMU, f: MMU) -> bool {
    &&& f.empty@ == o.empty@
    &&& f.hram@ == o.hram@
    &&& f.io@ == o.io@
    &&& f.joypad == o.joypad
    &&& f.ppu == o.ppu
    &&& f.serial@ == o.serial@
    &&& f.timer == o.timer
    &&& f.wrams@ == o.wrams@
    &&& f.interrupts == o.interrupts
    &&& f.clock_seconds == o.clock_seconds
}

/// Everything except the pixel pipeline is as it was.
pub open spec fn spec_same_but_ppu(o: MMU, f: MMU) -> bool {
    &&& f.cartridge@ == o.cartridge@
    &&& f.empty@ == o.empty@
    &&& f.hram@ == o.hram@
    &&& f.io@ == o.io@
    &&& f.joypad == o.joypad
    &&& f.serial@ == o.serial@
    &&& f.timer == o.timer
    &&& f.wrams@ == o.wrams@
    &&& f.interrupts == o.interrupts
    &&& f.clock_seconds == o.clock_seconds
}

/// Everything except work RAM is as it was.
pub open spec fn spec_same_but_wram(o: MMU, f: MMU) -> bool {
    &&& f.cartridge@ == o.cartridge@
    &&& f.empty@ == o.empty@
    &&& f.hram@ == o.hram@
    &&& f.io@ == o.io@
    &&& f.joypad == o.joypad
    &&& f.ppu == o.ppu
    &&& f.serial@ == o.serial@
    &&& f.timer == o.timer
    &&& f.interrupts == o.interrupts
    &&& f.clock_seconds == o.clock_seconds
}

/// Everything except high RAM is as it was.
pub open spec fn spec_same_but_hram(o: MMU, f: MMU) -> bool {
    &&& f.cartridge@ == o.cartridge@
    &&& f.empty@ == o.empty@
    &&& f.io@ == o.io@
    &&& f.joypad == o.joypad
    &&& f.ppu == o.ppu
    &&& f.serial@ == o.serial@
    &&& f.timer == o.timer
    &&& f.wrams@ == o.wrams@
    &&& f.interrupts == o.interrupts
    &&& f.clock_seconds == o.clock_seconds
}

/// Everything except the absorbed region is as it was.
pub open spec fn spec_same_but_empty(o: MMU, f: MMU) -> bool {
    &&& f.cartridge@ == o.cartridge@
    &&& f.hram@ == o.hram@
    &&& f.io@ == o.io@
    &&& f.joypad == o.joypad
    &&& f.ppu == o.ppu
    &&& f.serial@ == o.serial@
    &&& f.timer == o.timer
    &&& f.wrams@ == o.wrams@
    &&& f.interrupts == o.interrupts
    &&& f.clock_seconds == o.clock_seconds
}

/// Everything except the plain I/O bytes is as it was.
pub open spec fn spec_same_but_io(o: MMU, f: MMU) -> bool {
    &&& f.cartridge@ == o.cartridge@
    &&& f.empty@ == o.empty@
    &&& f.hram@ == o.hram@
    &&& f.joypad == o.joypad
    &&& f.ppu == o.ppu
    &&& f.serial@ == o.serial@
    &&& f.timer == o.timer
    &&& f.wrams@ == o.wrams@
    &&& f.interrupts == o.interrupts
    &&& f.clock_seconds == o.clock_seconds
}

/// Everything except the serial transcript is as it was.
pub open spec fn spec_same_but_serial(o: MMU, f: MMU) -> bool {
    &&& f.cartridge@ == o.cartridge@
    &&& f.empty@ == o.empty@
    &&& f.hram@ == o.hram@
    &&& f.io@ == o.io@
    &&& f.joypad == o.joypad
    &&& f.ppu == o.ppu
    &&& f.timer == o.timer
    &&& f.wrams@ == o.wrams@
    &&& f.interrupts == o.interrupts
    &&& f.clock_seconds == o.clock_seconds
}

/// Everything except the joypad is as it was.
pub open spec fn spec_same_but_joypad(o: MMU, f: MMU) -> bool {
    &&& f.cartridge@ == o.cartridge@
    &&& f.empty@ == o.empty@
    &&& f.hram@ == o.hram@
    &&& f.io@ == o.io@
    &&& f.ppu == o.ppu
    &&& f.serial@ == o.serial@
    &&& f.timer == o.timer
    &&& f.wrams@ == o.wrams@
    &&& f.interrupts == o.interrupts
    &&& f.clock_seconds == o.clock_seconds
}

/// Everything except the timer is as it was.
pub open spec fn spec_same_but_timer(o: MMU, f: MMU) -> bool {
    &&& f.cartridge@ == o.cartridge@
    &&& f.empty@ == o.empty@
    &&& f.hram@ == o.hram@
    &&& f.io@ == o.io@
    &&& f.joypad == o.joypad
    &&& f.ppu == o.ppu
    &&& f.serial@ == o.serial@
    &&& f.wrams@ == o.wrams@
    &&& f.interrupts == o.interrupts
    &&& f.clock_seconds == o.clock_seconds
}

/// Everything except IF and IE is as it was.
pub open spec fn spec_same_but_interrupts(o: MMU, f: MMU) -> bool {
    &&& f.cartridge@ == o.cartridge@
    &&& f.empty@ == o.empty@
    &&& f.hram@ == o.hram@
    &&& f.io@ == o.io@
    &&& f.joypad == o.joypad
    &&& f.ppu == o.ppu
    &&& f.serial@ == o.serial@
    &&& f.timer == o.timer
    &&& f.wrams@ == o.wrams@
    &&& f.clock_seconds == o.clock_seconds
}

/// Nothing at all changed.
pub open spec fn spec_same_mmu(o: MMU, f: MMU) -> bool {
    &&& f.cartridge@ == o.cartridge@
    &&& f.empty@ == o.empty@
    &&& f.hram@ == o.hram@
    &&& f.io@ == o.io@
    &&& f.joypad == o.joypad
    &&& f.ppu == o.ppu
    &&& f.serial@ == o.serial@
    &&& f.timer == o.timer
    &&& f.wrams@ == o.wrams@
    &&& f.interrupts == o.interrupts
    &&& f.clock_seconds == o.clock_seconds
}

/// What a write does at every address, following the memory map. Writes to
/// ROM space command the bank controller; writes to LY (0xFF44), 0xFF03,
/// 0xFF08..=0xFF0E, 0xFF27..=0xFF2F and 0xFF4C..=0xFF7F change nothing;
/// a write to 0xFF46 triggers the DMA copy into OAM; a write to 0xFF01
/// appends the byte to the serial transcript.
pub open spec fn spec_write_u8(o: MMU, f: MMU, addr: u16, value: u8) -> bool {
    if addr <= 0x7FFF {
        f.cartridge@ == spec_cart_write_rom(o.cartridge@, addr, value) && spec_same_but_cartridge(
            o,
            f,
        )
    } else if addr <= 0x97FF {
        f.ppu == (PPU { tiledata: f.ppu.tiledata, ..o.ppu }) && f.ppu.tiledata.data@
            == o.ppu.tiledata.data@.update(addr - 0x8000, value) && spec_same_but_ppu(o, f)
    } else if addr <= 0x9BFF {
        f.ppu == (PPU { bg_map0: f.ppu.bg_map0, ..o.ppu }) && f.ppu.bg_map0.0@
            == o.ppu.bg_map0.0@.update(addr - 0x9800, value) && spec_same_but_ppu(o, f)
    } else if addr <= 0x9FFF {
        f.ppu == (PPU { bg_map1: f.ppu.bg_map1, ..o.ppu }) && f.ppu.bg_map1.0@
            == o.ppu.bg_map1.0@.update(addr - 0x9C00, value) && spec_same_but_ppu(o, f)
    } else if addr <= 0xBFFF {
        f.cartridge@ == spec_cart_write_ram(o.cartridge@, addr, value) && spec_same_but_cartridge(
            o,
            f,
        )
    } else if addr <= 0xDFFF {
        f.wrams@ == o.wrams@.update(addr - 0xC000, value) && spec_same_but_wram(o, f)
    } else if addr <= 0xFDFF {
        f.wrams@ == o.wrams@.update(addr - 0xE000, value) && spec_same_but_wram(o, f)
    } else if addr <= 0xFE9F {
        f.ppu == (PPU { oam: f.ppu.oam, ..o.ppu }) && f.ppu.oam.0@ == o.ppu.oam.0@.update(
            addr - 0xFE00,
            value,
        ) && spec_same_but_ppu(o, f)
    } else if addr <= 0xFEFF {
        f.empty@ == o.empty@.update(addr - 0xFEA0, value) && spec_same_but_empty(o, f)
    } else if addr == 0xFF00 {
        f.joypad == (Joypad { mask: value & 0xF0, ..o.joypad }) && spec_same_but_joypad(o, f)
    } else if addr == 0xFF01 {
        f.serial@ == o.serial@.push(value) && spec_same_but_serial(o, f)
    } else if addr == 0xFF02 {
        f.io@ == o.io@.update(addr - 0xFF00, value) && spec_same_but_io(o, f)
    } else if addr == 0xFF03 {
        spec_same_mmu(o, f)
    } else if addr == 0xFF04 {
        f.timer == (Timer { divider: 0, ..o.timer }) && spec_same_but_timer(o, f)
    } else if addr == 0xFF05 {
        f.timer == (Timer { counter: value, ..o.timer }) && spec_same_but_timer(o, f)
    } else if addr == 0xFF06 {
        f.timer == (Timer { modulo: value, ..o.timer }) && spec_same_but_timer(o, f)
    } else if addr == 0xFF07 {
        f.timer == (Timer { control: value, ..o.timer }) && spec_same_but_timer(o, f)
    } else if addr <= 0xFF0E {
        spec_same_mmu(o, f)
    } else if addr == 0xFF0F {
        f.interrupts == (Interrupts { interrupt_flag: value, ..o.interrupts })
            && spec_same_but_interrupts(o, f)
    } else if addr <= 0xFF26 {
        f.io@ == o.io@.update(addr - 0xFF00, value) && spec_same_but_io(o, f)
    } else if addr <= 0xFF2F {
        spec_same_mmu(o, f)
    } else if addr <= 0xFF3F {
        f.io@ == o.io@.update(addr - 0xFF00, value) && spec_same_but_io(o, f)
    } else if addr == 0xFF40 {
        spec_same_but_ppu(o, f) && f.ppu.lcdc.0 == value && (if o.ppu.lcdc.spec_lcd_enable()
            && value & 0x80 == 0 {
            f.ppu.ly == 0 && f.ppu.clock == 0 && f.ppu.lcd_stat.spec_ppu_mode()
                == ppu::lcdc_status::PPUMode::HBlank && f.ppu.buffer@ == Seq::new(
                23040,
                |i: int| o.ppu.pal_black,
            ) && PPU::spec_disable_untouched(o.ppu, f.ppu)
        } else {
            f.ppu == (PPU { lcdc: f.ppu.lcdc, ..o.ppu })
        })
    } else if addr == 0xFF41 {
        f.ppu == (PPU { lcd_stat: f.ppu.lcd_stat, ..o.ppu }) && f.ppu.lcd_stat.0 == ((value & !0x7)
            | (o.ppu.lcd_stat.0 & 0x7)) && spec_same_but_ppu(o, f)
    } else if addr == 0xFF42 {
        f.ppu == (PPU {
            background_viewport: ppu::background_viewport::BackgroundViewport {
                scy: value,
                ..o.ppu.background_viewport
            },
            ..o.ppu
        }) && spec_same_but_ppu(o, f)
    } else if addr == 0xFF43 {
        f.ppu == (PPU {
            background_viewport: ppu::background_viewport::BackgroundViewport {
                scx: value,
                ..o.ppu.background_viewport
            },
            ..o.ppu
        }) && spec_same_but_ppu(o, f)
    } else if addr == 0xFF44 {
        spec_same_mmu(o, f)
    } else if addr == 0xFF45 {
        spec_same_but_ppu(o, f) && f.ppu.lyc == value && f.ppu.ly == o.ppu.ly
            && f.ppu.lcd_stat.spec_ppu_mode() == o.ppu.lcd_stat.spec_ppu_mode()
            && PPU::spec_static_unchanged_but_lyc(o.ppu, f.ppu)
    } else if addr == 0xFF46 {
        spec_same_but_ppu(o, f) && f.ppu == (PPU { oam: f.ppu.oam, ..o.ppu })
            && f.ppu.oam.0@.len() == 160 && (value <= 0xDF ==> f.ppu.oam.0@ == Seq::new(
            160,
            |i: int| spec_read(o, (value * 0x100 + i) as u16),
        ))
    } else if addr == 0xFF47 {
        f.ppu == (PPU {
            background_palette: (ppu::background_palette::BackgroundPalette(value)),
            ..o.ppu
        }) && spec_same_but_ppu(o, f)
    } else if addr == 0xFF48 {
        f.ppu == (PPU {
            sprite_palette_0: (ppu::sprite_palette::SpritePalette(value)),
            ..o.ppu
        }) && spec_same_but_ppu(o, f)
    } else if addr == 0xFF49 {
        f.ppu == (PPU {
            sprite_palette_1: (ppu::sprite_palette::SpritePalette(value)),
            ..o.ppu
        }) && spec_same_but_ppu(o, f)
    } else if addr == 0xFF4A {
        f.ppu == (PPU {
            window_position: ppu::window_position::WindowPosition {
                wy: value,
                ..o.ppu.window_position
            },
            ..o.ppu
        }) && spec_same_but_ppu(o, f)
    } else if addr == 0xFF4B {
        f.ppu == (PPU {
            window_position: ppu::window_position::WindowPosition {
                wx: value,
                ..o.ppu.window_position
            },
            ..o.ppu
        }) && spec_same_but_ppu(o, f)
    } else if addr <= 0xFF7F {
        spec_same_mmu(o, f)
    } else if addr <= 0xFFFE {
        f.hram@ == o.hram@.update(addr - 0xFF80, value) && spec_same_but_hram(o, f)
    } else {
        f.interrupts == (Interrupts { interrupt_enabled: value, ..o.interrupts })
            && spec_same_but_interrupts(o, f)
    }
}


impl MMU {
    /// Assemble the MMU and reproduce the post-boot I/O register values the
    /// boot ROM would have left behind.
    #[verifier::rlimit(100)]
    #[verifier::spinoff_prover]
    pub fn new(ppu: PPU, cartridge: Cartridge, joypad: Joypad) -> (r: MMU)
        requires
            ppu.wf(),
            ppu.phase_wf(),
        ensures
            r.wf(),
            r.serial@.len() == 0,
            r.cartridge@ == cartridge@,
            r.joypad == joypad,
            r.clock_seconds == 0,
            r.wrams@ == Seq::new(0x2000, |i: int| 0u8),
            r.timer == (Timer {
                divider: 0,
                counter: 0,
                modulo: 0,
                control: 0,
                interrupt_request: false,
                previous_and_result: false,
                has_overflowed: false,
            }),
            r.ppu.tiledata.data@ == ppu.tiledata.data@,
            r.ppu.oam.0@ == ppu.oam.0@,
            r.ppu.bg_map0.0@ == ppu.bg_map0.0@,
            r.ppu.bg_map1.0@ == ppu.bg_map1.0@,
            r.ppu.ly == ppu.ly,
            r.ppu.buffer@ == ppu.buffer@,
            r.ppu.frame@ == ppu.frame@,
            spec_read(r, 0xFF05) == 0,
            spec_read(r, 0xFF06) == 0,
            spec_read(r, 0xFF07) == 0,
            spec_read(r, 0xFF10) == 0x80,
            spec_read(r, 0xFF24) == 0x77,
            spec_read(r, 0xFF25) == 0xF3,
            spec_read(r, 0xFF26) == 0xF1,
            spec_read(r, 0xFF40) == 0x91,
            spec_read(r, 0xFF42) == 0,
            spec_read(r, 0xFF43) == 0,
            spec_read(r, 0xFF45) == 0,
            spec_read(r, 0xFF47) == 0xFC,
            spec_read(r, 0xFF48) == 0xFF,
            spec_read(r, 0xFF49) == 0xFF,
            spec_read(r, 0xFF4A) == 0,
            spec_read(r, 0xFF4B) == 0,
            spec_read(r, 0xFFFF) == 0,
    {
        let mut mmu = MMU {
            cartridge,
            empty: crate::cartridge::zeroed(0x60),
            hram: crate::cartridge::zeroed(0x80),
            io: crate::cartridge::zeroed(0x80),
            ppu,
            serial: Vec::new(),
            timer: Timer::new(),
            wrams: crate::cartridge::zeroed(0x2000),
            interrupts: Interrupts::new(),
            joypad,
            clock_seconds: 0,
        };

        mmu.write_u8(0xff05, 0);
        mmu.write_u8(0xff06, 0);
        mmu.write_u8(0xff07, 0);
        mmu.write_u8(0xff10, 0x80);
        mmu.write_u8(0xff11, 0xbf);
        mmu.write_u8(0xff14, 0xbf);
        mmu.write_u8(0xff16, 0x3f);
        mmu.write_u8(0xff19, 0xbf);
        mmu.write_u8(0xff1b, 0xff);
        mmu.write_u8(0xff1e, 0xbf);
        mmu.write_u8(0xff21, 0);
        mmu.write_u8(0xff22, 0);
        mmu.write_u8(0xff23, 0xbf);
        mmu.write_u8(0xff24, 0x77);
        mmu.write_u8(0xff25, 0xF3);
        mmu.write_u8(0xff26, 0xF1);
        proof {
            // 0x91 keeps the LCD enable bit on, so this write resets nothing.
            assert(0x91u8 & 0x80 != 0) by (bit_vector);
        }
        mmu.write_u8(0xff40, 0x91);
        mmu.write_u8(0xff42, 0);
        mmu.write_u8(0xff43, 0);
        mmu.write_u8(0xff45, 0);
        mmu.write_u8(0xff47, 0xfc);
        mmu.write_u8(0xff48, 0xff);
        mmu.write_u8(0xff49, 0xff);
        mmu.write_u8(0xff4a, 0);
        mmu.write_u8(0xff4b, 0);
        mmu.write_u8(0xffff, 0);

        mmu
    }

    /// Read one byte through the memory map.
    pub fn read_u8(&self, addr: u16) -> (r: u8)
        requires
            self.wf(),
        ensures
            r == spec_read(*self, addr),
    {
        if addr <= 0x7FFF {
            self.cartridge.read_rom(addr)
        } else if addr <= 0x97FF {
            self.ppu.read_tiledata(addr - 0x8000)
        } else if addr <= 0x9BFF {
            self.ppu.read_bg_map(BGMapSelection::Map0, addr - 0x9800)
        } else if addr <= 0x9FFF {
            self.ppu.read_bg_map(BGMapSelection::Map1, addr - 0x9C00)
        } else if addr <= 0xBFFF {
            self.cartridge.read_ram(addr)
        } else if addr <= 0xDFFF {
            self.wrams[(addr - 0xC000) as usize]
        } else if addr <= 0xFDFF {
            self.wrams[(addr - 0xE000) as usize]
        } else if addr <= 0xFE9F {
            self.ppu.read_oam(addr - 0xFE00)
        } else if addr <= 0xFEFF {
            self.empty[(addr - 0xFEA0) as usize]
        } else if addr == 0xFF00 {
            self.joypad.read()
        } else if addr <= 0xFF02 {
            self.io[(addr - 0xFF00) as usize]
        } else if addr == 0xFF03 {
            0
        } else if addr == 0xFF04 {
            self.timer.read_divider()
        } else if addr == 0xFF05 {
            self.timer.read_counter()
        } else if addr == 0xFF06 {
            self.timer.read_modulo()
        } else if addr == 0xFF07 {
            self.timer.read_control()
        } else if addr <= 0xFF0E {
            0
        } else if addr == 0xFF0F {
            self.interrupts.read_interrupt_flag()
        } else if addr <= 0xFF26 {
            self.io[(addr - 0xFF00) as usize]
        } else if addr <= 0xFF2F {
            0
        } else if addr <= 0xFF3F {
            self.io[(addr - 0xFF00) as usize]
        } else if addr == 0xFF40 {
            self.ppu.read_lcdc()
        } else if addr == 0xFF41 {
            self.ppu.read_lcd_stat()
        } else if addr == 0xFF42 {
            self.ppu.read_background_viewport(ViewportRegister::SCY)
        } else if addr == 0xFF43 {
            self.ppu.read_background_viewport(ViewportRegister::SCX)
        } else if addr == 0xFF44 {
            self.ppu.read_ly()
        } else if addr == 0xFF45 {
            self.ppu.read_lyc()
        } else if addr == 0xFF46 {
            0
        } else if addr == 0xFF47 {
            self.ppu.read_background_palette()
        } else if addr == 0xFF48 {
            self.ppu.read_sprite_palette(SpritePaletteSelection::Palette0)
        } else if addr == 0xFF49 {
            self.ppu.read_sprite_palette(SpritePaletteSelection::Palette1)
        } else if addr == 0xFF4A {
            self.ppu.read_window_position(WindowPositionRegister::WY)
        } else if addr == 0xFF4B {
            self.ppu.read_window_position(WindowPositionRegister::WX)
        } else if addr <= 0xFF7F {
            0
        } else if addr <= 0xFFFE {
            self.hram[(addr - 0xFF80) as usize]
        } else {
            self.interrupts.read_interrupt_enabled()
        }
    }

    /// Read a little-endian word: the low byte at `addr`, the high byte at
    /// the following address (wrapping at the top of the address space).
    pub fn read_u16(&self, addr: u16) -> (r: u16)
        requires
            self.wf(),
        ensures
            r == spec_read(*self, addr) + 256 * spec_read(
                *self,
                ((addr + 1) % 0x10000) as u16,
            ),
    {
        let low = self.read_u8(addr) as u16;
        let high = self.read_u8(addr.wrapping_add(1)) as u16;

        high * 256 + low
    }

    /// Write one byte through the memory map; see `spec_write_u8`.
    pub fn write_u8(&mut self, addr: u16, value: u8)
        requires
            old(self).wf(),
        ensures
            final(self).wf(),
            spec_write_u8(*old(self), *final(self), addr, value),
    {
        if addr <= 0x7FFF {
            self.cartridge.write_rom(addr, value)
        } else if addr <= 0x97FF {
            self.ppu.write_tiledata(addr - 0x8000, value)
        } else if addr <= 0x9BFF {
            self.ppu.write_bg_map(BGMapSelection::Map0, addr - 0x9800, value)
        } else if addr <= 0x9FFF {
            self.ppu.write_bg_map(BGMapSelection::Map1, addr - 0x9C00, value)
        } else if addr <= 0xBFFF {
            self.cartridge.write_ram(addr, value)
        } else if addr <= 0xDFFF {
            self.wrams.set((addr - 0xC000) as usize, value);
        } else if addr <= 0xFDFF {
            self.wrams.set((addr - 0xE000) as usize, value);
        } else if addr <= 0xFE9F {
            self.ppu.write_oam(addr - 0xFE00, value)
        } else if addr <= 0xFEFF {
            self.empty.set((addr - 0xFEA0) as usize, value);
        } else if addr == 0xFF00 {
            self.joypad.write(value)
        } else if addr == 0xFF01 {
            self.serial.push(value);
        } else if addr == 0xFF02 {
            self.io.set((addr - 0xFF00) as usize, value);
        } else if addr == 0xFF03 {
        } else if addr == 0xFF04 {
            self.timer.write_divider(value)
        } else if addr == 0xFF05 {
            self.timer.write_counter(value)
        } else if addr == 0xFF06 {
            self.timer.write_modulo(value)
        } else if addr == 0xFF07 {
            self.timer.write_control(value)
        } else if addr <= 0xFF0E {
        } else if addr == 0xFF0F {
            self.interrupts.write_interrupt_flag(value)
        } else if addr <= 0xFF26 {
            self.io.set((addr - 0xFF00) as usize, value);
        } else if addr <= 0xFF2F {
        } else if addr <= 0xFF3F {
            self.io.set((addr - 0xFF00) as usize, value);
        } else if addr == 0xFF40 {
            self.ppu.write_lcdc(value)
        } else if addr == 0xFF41 {
            self.ppu.write_lcd_stat(value)
        } else if addr == 0xFF42 {
            self.ppu.write_background_viewport(ViewportRegister::SCY, value)
        } else if addr == 0xFF43 {
            self.ppu.write_background_viewport(ViewportRegister::SCX, value)
        } else if addr == 0xFF44 {
            // LY is read-only: the write is discarded.
        } else if addr == 0xFF45 {
            self.ppu.write_lyc(value)
        } else if addr == 0xFF46 {
            self.dma_transfer(value)
        } else if addr == 0xFF47 {
            self.ppu.write_background_palette(value)
        } else if addr == 0xFF48 {
            self.ppu.write_sprite_palette(SpritePaletteSelection::Palette0, value)
        } else if addr == 0xFF49 {
            self.ppu.write_sprite_palette(SpritePaletteSelection::Palette1, value)
        } else if addr == 0xFF4A {
            self.ppu.write_window_position(WindowPositionRegister::WY, value)
        } else if addr == 0xFF4B {
            self.ppu.write_window_position(WindowPositionRegister::WX, value)
        } else if addr <= 0xFF7F {
        } else if addr <= 0xFFFE {
            self.hram.set((addr - 0xFF80) as usize, value);
        } else {
            self.interrupts.write_interrupt_enabled(value)
        }
    }

    /// Write a little-endian word: the low byte at `addr`, the high byte at
    /// the following address (wrapping at the top of the address space).
    pub fn write_u16(&mut self, addr: u16, value: u16)
        requires
            old(self).wf(),
        ensures
            final(self).wf(),
            exists|mid: MMU|
                #[trigger] spec_write_u8(*old(self), mid, addr, (value % 256) as u8)
                    && spec_write_u8(
                    mid,
                    *final(self),
                    ((addr + 1) % 0x10000) as u16,
                    (value / 256) as u8,
                ),
    {
        let low = (value % 256) as u8;
        let high = (value / 256) as u8;

        self.write_u8(addr, low);
        self.write_u8(addr.wrapping_add(1), high);
    }

    /// Advance the timer, the pixel pipeline and the cartridge by the
    /// elapsed m-cycles, then fold each component's latched interrupt
    /// request into IF and clear it.
    pub fn step(&mut self, m_cycles: u8)
        requires
            old(self).wf(),
            m_cycles < 20,
        ensures
            final(self).wf(),
            !final(self).timer.interrupt_request,
            !final(self).ppu.interrupt_request.stat,
            !final(self).ppu.interrupt_request.vblank,
            !final(self).joypad.interrupt_request,
            old(self).ppu.lcdc.spec_lcd_enable() ==> final(self).ppu.spec_phase() == (old(
                self,
            ).ppu.spec_phase() + m_cycles) % 17556,
            final(self).timer == (Timer {
                interrupt_request: false,
                ..spec_ticks(old(self).timer, 4 * m_cycles as nat)
            }),
            final(self).cartridge@ == spec_cart_step(old(self).cartridge@, old(self).clock_seconds),
            final(self).serial@ == old(self).serial@,
            final(self).wrams@ == old(self).wrams@,
            final(self).hram@ == old(self).hram@,
            final(self).interrupts.interrupt_enabled == old(self).interrupts.interrupt_enabled,
            exists|stat_latched: bool|
                {
                    &&& #[trigger] spec_folded_flags(
                        old(self).interrupts.interrupt_flag,
                        spec_ticks(old(self).timer, 4 * m_cycles as nat).interrupt_request,
                        stat_latched,
                        spec_vblank_latched(old(self).ppu, m_cycles),
                        old(self).joypad.interrupt_request,
                    ) == final(self).interrupts.interrupt_flag
                    &&& (old(self).ppu.interrupt_request.stat ==> stat_latched)
                    &&& (old(self).ppu.spec_enters_vblank(m_cycles)
                        && old(self).ppu.lcd_stat.spec_vblank_stat_ie() ==> stat_latched)
                },
    {
        self.timer.step(m_cycles);
        let now = self.clock_seconds;
        self.ppu.step(m_cycles);
        self.cartridge.step(m_cycles, now);

        let ghost stat_latched = self.ppu.interrupt_request.stat;

        if self.timer.interrupt_request {
            self.interrupts.request_interrupt(Interrupt::Timer);
            self.timer.interrupt_request = false;
        }

        if self.ppu.interrupt_request.stat {
            self.interrupts.request_interrupt(Interrupt::LCDStat);
            self.ppu.interrupt_request.stat = false;
        }

        if self.ppu.interrupt_request.vblank {
            self.interrupts.request_interrupt(Interrupt::VBlank);
            self.ppu.interrupt_request.vblank = false;
        }

        if self.joypad.interrupt_requested() {
            self.interrupts.request_interrupt(Interrupt::Joypad);
            self.joypad.reset_interrupt();
        }

        proof {
            lemma_timer_ticks_preserve_irqless(old(self).timer, 4 * m_cycles as nat);
            assert(spec_folded_flags(
                old(self).interrupts.interrupt_flag,
                spec_ticks(old(self).timer, 4 * m_cycles as nat).interrupt_request,
                stat_latched,
                spec_vblank_latched(old(self).ppu, m_cycles),
                old(self).joypad.interrupt_request,
            ) == self.interrupts.interrupt_flag);
        }
    }

    /// Record the wall-clock second count the host most recently observed;
    /// the MBC3 clock follows it.
    pub fn set_clock_seconds(&mut self, now: u64)
        ensures
            *final(self) == (MMU { clock_seconds: now, ..*old(self) }),
    {
        self.clock_seconds = now;
    }

    /// The cartridge RAM image to persist at shutdown, if the cartridge is
    /// battery-backed.
    pub fn save(&self) -> (r: Option<&Vec<u8>>)
        ensures
            r is Some <==> (match self.cartridge@ {
                CartridgeView::RomOnly(_) => false,
                CartridgeView::Mbc1(c) => c.has_battery,
                CartridgeView::Mbc3(c) => c.has_battery,
            }),
    {
        self.cartridge.save()
    }

    /// The DMA copy: 160 bytes from `value * 0x100` read through the normal
    /// memory map land in OAM. For every source page up to 0xDF (so the
    /// source does not overlap OAM itself), OAM byte `i` afterwards equals
    /// what `read(value * 0x100 + i)` yielded beforehand.
    fn dma_transfer(&mut self, value: u8)
        requires
            old(self).wf(),
        ensures
            final(self).wf(),
            spec_same_but_ppu(*old(self), *final(self)),
            final(self).ppu == (PPU { oam: final(self).ppu.oam, ..old(self).ppu }),
            final(self).ppu.oam.0@.len() == 160,
            value <= 0xDF ==> final(self).ppu.oam.0@ == Seq::new(
                160,
                |i: int| spec_read(*old(self), (value * 0x100 + i) as u16),
            ),
    {
        let start_address: u16 = (value as u16) * 0x100;

        let mut offset: u16 = 0;
        while offset < 160
            invariant
                offset <= 160,
                self.wf(),
                start_address == value * 0x100,
                spec_same_but_ppu(*old(self), *self),
                self.ppu == (PPU { oam: self.ppu.oam, ..old(self).ppu }),
                value <= 0xDF ==> forall|i: int|
                    0 <= i < offset ==> self.ppu.oam.0@[i] == spec_read(
                        *old(self),
                        (value * 0x100 + i) as u16,
                    ),
                value <= 0xDF ==> forall|i: int|
                    offset <= i < 160 ==> self.ppu.oam.0@[i] == old(self).ppu.oam.0@[i],
            decreases 160 - offset,
        {
            let source = start_address.wrapping_add(offset);
            let byte = self.read_u8(source);
            proof {
                if value <= 0xDF {
                    assert(source == value * 0x100 + offset);
                    lemma_read_ignores_oam(*old(self), *self, source);
                }
            }
            self.ppu.write_oam(offset, byte);
            offset = offset + 1;
        }
        proof {
            if value <= 0xDF {
                assert(self.ppu.oam.0@ =~= Seq::new(
                    160,
                    |i: int| spec_read(*old(self), (value * 0x100 + i) as u16),
                ));
            }
        }
    }
}

/// A read below the OAM region does not depend on OAM: two states that
/// differ only in the pixel pipeline's OAM bytes read alike there.
proof fn lemma_read_ignores_oam(o: MMU, f: MMU, addr: u16)
    requires
        spec_same_but_ppu(o, f),
        f.ppu == (PPU { oam: f.ppu.oam, ..o.ppu }),
        addr < 0xFE00,
    ensures
        spec_read(f, addr) == spec_read(o, addr),
{
}

/// Ticking the timer never clears a latched interrupt request.
proof fn lemma_timer_ticks_preserve_irqless(t: Timer, n: nat)
    ensures
        t.interrupt_request ==> spec_ticks(t, n).interrupt_request,
    decreases n,
{
    if n > 0 {
        lemma_timer_ticks_preserve_irqless(crate::timer::spec_tick(t), (n - 1) as nat);
    }
}


/// A write anywhere but IF itself leaves the IF register alone: only the
/// 0xFF0F branch of the decoder touches it.
pub proof fn lemma_write_preserves_interrupt_flag(o: MMU, f: MMU, addr: u16, value: u8)
    requires
        spec_write_u8(o, f, addr, value),
        addr != 0xFF0F,
    ensures
        f.interrupts.interrupt_flag == o.interrupts.interrupt_flag,
{
}

/// Writes to LY are observationally no-ops: after a write to 0xFF44 every
/// address reads exactly as it did before.
pub proof fn lemma_ly_write_is_noop(o: MMU, f: MMU, value: u8, addr: u16)
    requires
        spec_write_u8(o, f, 0xFF44, value),
    ensures
        spec_read(f, addr) == spec_read(o, addr),
{
}

/// Echo RAM: at any time, an address in 0xC000..=0xDDFF and its echo
/// 0x2000 above read the same work-RAM byte.
pub proof fn lemma_echo_ram_aliases_wram(m: MMU, addr: u16)
    requires
        0xC000 <= addr <= 0xDDFF,
    ensures
        spec_read(m, addr) == spec_read(m, (addr + 0x2000) as u16),
{
}

/// After a write to any plain readable-writable address - video memory, work
/// RAM and its echo, OAM, the absorbed region, TIMA, TMA, TAC, IF, the audio
/// and wave bytes, the video control registers, high RAM or IE - reading
/// that address back yields the byte just written.
pub proof fn lemma_last_write_is_read_back(o: MMU, f: MMU, addr: u16, value: u8)
    requires
        spec_write_u8(o, f, addr, value),
        (0x8000 <= addr <= 0x9FFF) || (0xC000 <= addr <= 0xFE9F) || (0xFEA0 <= addr <= 0xFEFF) || (
        0xFF05 <= addr <= 0xFF07) || addr == 0xFF0F || (0xFF10 <= addr <= 0xFF26) || (0xFF30 <= addr
            <= 0xFF3F) || addr == 0xFF40 || (0xFF42 <= addr <= 0xFF43) || addr == 0xFF45 || (0xFF47
            <= addr <= 0xFF4B) || (0xFF80 <= addr <= 0xFFFE) || addr == 0xFFFF,
        o.wf(),
    ensures
        spec_read(f, addr) == value,
{
}

} // verus!
