//! A cycle-accounted Game Boy (DMG) emulator core.
//!
//! The crate models the LR35902 CPU with its full opcode and CB-prefixed
//! instruction tables, the memory-management unit with its fixed address
//! decode, bank-switched cartridges (ROM-only, MBC1, MBC3 with a real-time
//! clock), the scanline-oriented pixel pipeline, the timer, and the joypad.

mod bitmath;
pub mod cartridge;
pub mod cpu;
mod interrupts;
mod joypad;
mod mmu;
mod registers;
mod timer;

pub use cartridge::create_cartridge;
pub use cartridge::Cartridge;
pub use cartridge::CartridgePersistence;
pub use cartridge::CartridgeType;
pub use cartridge::Days;
pub use cartridge::Header;
pub use cartridge::LatchedClockData;
pub use cartridge::NoMBC;
pub use cartridge::RAMSize;
pub use cartridge::ROMSize;
pub use cartridge::RTCState;
pub use cartridge::MBC1;
pub use cartridge::MBC3;
pub use cartridge::RTC;

pub use mmu::ppu::background_map::BackgroundMap;
pub use mmu::ppu::background_map::BGMapSelection;
pub use mmu::ppu::background_palette::BackgroundColor;
pub use mmu::ppu::background_palette::BackgroundPalette;
pub use mmu::ppu::background_tile::BackgroundTile;
pub use mmu::ppu::background_viewport::BackgroundViewport;
pub use mmu::ppu::background_viewport::ViewportRegister;
pub use mmu::ppu::lcd_control::LCDControl;
pub use mmu::ppu::lcdc_status::LCDStatus;
pub use mmu::ppu::lcdc_status::PPUMode;
pub use mmu::ppu::oam::Oam;
pub use mmu::ppu::oam::OAM;
pub use mmu::ppu::oam::PaletteNumber;
pub use mmu::ppu::oam::Sprite;
pub use mmu::ppu::oam::SpriteFlags;
pub use mmu::ppu::oam::SpriteSize;
pub use mmu::ppu::pixel::Pixel;
pub use mmu::ppu::renderer::Color;
pub use mmu::ppu::renderer::Renderer;
pub use mmu::ppu::renderer::TestRenderer;
pub use mmu::ppu::sprite_palette::SpriteColor;
pub use mmu::ppu::sprite_palette::SpritePalette;
pub use mmu::ppu::sprite_palette::SpritePaletteSelection;
pub use mmu::ppu::sprite_tile::SpriteTile;
pub use mmu::ppu::tile::Tile;
pub use mmu::ppu::tiledata::TileAddressingMethod;
pub use mmu::ppu::tiledata::TileData;
pub use mmu::ppu::window_position::WindowPosition;
pub use mmu::ppu::window_position::WindowPositionRegister;

pub use cpu::cb_instructions::handle_cb_instructions;
pub use cpu::stack_operations::call;
pub use cpu::stack_operations::call_c;
pub use cpu::stack_operations::call_nc;
pub use cpu::stack_operations::call_nz;
pub use cpu::stack_operations::call_z;
pub use cpu::stack_operations::ret;
pub use cpu::stack_operations::ret_c;
pub use cpu::stack_operations::ret_nc;
pub use cpu::stack_operations::ret_nz;
pub use cpu::stack_operations::ret_z;
pub use cpu::stack_operations::stack_pop;
pub use cpu::stack_operations::stack_push;
pub use cpu::stack_operations::CallResult;
pub use cpu::stack_operations::ReturnResult;
pub use cpu::CPU;

pub use cpu::alu_operations::lemma_sub_then_add_round_trip;
pub use mmu::ppu::InterruptRequests;
pub use mmu::ppu::PPU;
pub use mmu::MMU;

pub use interrupts::Interrupt;
pub use interrupts::Interrupts;
pub use joypad::Button;
pub use joypad::Joypad;
pub use timer::Timer;

pub use cpu::alu_operations::add_sp_r8;
pub use cpu::alu_operations::alu_adc;
pub use cpu::alu_operations::alu_adc_value;
pub use cpu::alu_operations::alu_add;
pub use cpu::alu_operations::alu_add_16;
pub use cpu::alu_operations::alu_add_value;
pub use cpu::alu_operations::alu_and;
pub use cpu::alu_operations::alu_and_value;
pub use cpu::alu_operations::alu_cp;
pub use cpu::alu_operations::alu_cp_value;
pub use cpu::alu_operations::alu_dec;
pub use cpu::alu_operations::alu_dec_value;
pub use cpu::alu_operations::alu_inc;
pub use cpu::alu_operations::alu_inc_value;
pub use cpu::alu_operations::alu_or;
pub use cpu::alu_operations::alu_or_value;
pub use cpu::alu_operations::alu_sbc;
pub use cpu::alu_operations::alu_sbc_value;
pub use cpu::alu_operations::alu_sub;
pub use cpu::alu_operations::alu_sub_value;
pub use cpu::alu_operations::alu_xor;
pub use cpu::alu_operations::alu_xor_value;
pub use cpu::alu_operations::ccf;
pub use cpu::alu_operations::cpl;
pub use cpu::alu_operations::daa;
pub use cpu::alu_operations::jr;
pub use cpu::alu_operations::ld_hl_sp_r8;
pub use cpu::alu_operations::rla;
pub use cpu::alu_operations::rlca;
pub use cpu::alu_operations::rra;
pub use cpu::alu_operations::rrca;
pub use cpu::alu_operations::scf;
pub use cpu::bitwise_operations::bit;
pub use cpu::bitwise_operations::bit_val;
pub use cpu::bitwise_operations::lemma_swap_involution;
pub use cpu::bitwise_operations::res;
pub use cpu::bitwise_operations::res_val;
pub use cpu::bitwise_operations::set_val;
pub use cpu::bitwise_operations::swap;
pub use cpu::bitwise_operations::swap_value;
pub use cpu::jp_operations::jp;
pub use cpu::jp_operations::jp_c;
pub use cpu::jp_operations::jp_nc;
pub use cpu::jp_operations::jp_nz;
pub use cpu::jp_operations::jp_z;
pub use cpu::jp_operations::jr_c;
pub use cpu::jp_operations::jr_nc;
pub use cpu::jp_operations::jr_nz;
pub use cpu::jp_operations::jr_z;
pub use cpu::jp_operations::JumpResult;
pub use cpu::shift_operations::rl;
pub use cpu::shift_operations::rl_val;
pub use cpu::shift_operations::rlc;
pub use cpu::shift_operations::rlc_val;
pub use cpu::shift_operations::rr;
pub use cpu::shift_operations::rr_val;
pub use cpu::shift_operations::rrc;
pub use cpu::shift_operations::rrc_val;
pub use cpu::shift_operations::sla;
pub use cpu::shift_operations::sla_val;
pub use cpu::shift_operations::sra;
pub use cpu::shift_operations::sra_val;
pub use cpu::shift_operations::srl;
pub use cpu::shift_operations::srl_val;

pub use registers::EightBitRegister;
pub use registers::Registers;
pub use registers::SixteenBitRegister;

use vstd::prelude::*;

verus! {

/// Machine cycles per second: the 4.194304 MHz clock over four.
pub const CYCLES_PER_SECOND: u64 = 1048576;

/// The pacing target: one full pixel-pipeline frame of 17,556 m-cycles per
/// displayed frame.
pub const CYCLES_PER_FRAME: u64 = 17556;

/// The 60 Hz frame length the pacing loop aims for, in milliseconds.
pub const TARGET_FRAME_MILLIS: u64 = 16;

/// The pacing decision: counts the m-cycles spent in the current frame and,
/// once the frame's budget is met, says how long the host should sleep to
/// hold the emulator at real time. A late frame sleeps zero and carries on.
pub struct Limiter {
    pub frame_cycles: u64,
    pub next_frame_millis: u64,
}

impl Limiter {
    pub fn new() -> (r: Limiter)
        ensures
            r.frame_cycles == 0,
            r.next_frame_millis == 0,
    {
        Limiter { frame_cycles: 0, next_frame_millis: 0 }
    }

    /// Account the step's cycles against the frame budget. Within the
    /// budget nothing is owed; once it is met, the count resets, the next
    /// frame is scheduled, and the result is how many milliseconds remain
    /// until the frame instant (zero when the frame ran late).
    pub fn step(&mut self, cycles: u8, now_millis: u64) -> (r: u64)
        requires
            old(self).frame_cycles < 0xFFFF_FFFF,
            now_millis < 0xFFFF_FFFF_FFFF,
        ensures
            old(self).frame_cycles + cycles < CYCLES_PER_FRAME ==> r == 0 && *final(self)
                == (Limiter {
                frame_cycles: (old(self).frame_cycles + cycles) as u64,
                ..*old(self)
            }),
            old(self).frame_cycles + cycles >= CYCLES_PER_FRAME ==> final(self).frame_cycles == 0
                && final(self).next_frame_millis == now_millis + TARGET_FRAME_MILLIS && r == (
            if old(self).next_frame_millis > now_millis {
                old(self).next_frame_millis - now_millis
            } else {
                0
            }),
    {
        self.frame_cycles = self.frame_cycles + cycles as u64;

        if self.frame_cycles < CYCLES_PER_FRAME {
            return 0;
        }

        let sleep_for: u64 = if self.next_frame_millis > now_millis {
            self.next_frame_millis - now_millis
        } else {
            0
        };

        self.frame_cycles = 0;
        self.next_frame_millis = now_millis + TARGET_FRAME_MILLIS;

        sleep_for
    }
}

/// The emulation context: the CPU (owning the whole machine) plus the
/// pacing decision. The host loop drives `step`, performs the sleep it asks
/// for, and persists `save`'s image at shutdown.
pub struct Emulator {
    pub cpu: CPU,
    pub limiter: Limiter,
}

impl Emulator {
    pub fn new(cpu: CPU) -> (r: Emulator)
        requires
            cpu.mmu.wf(),
        ensures
            r.cpu == cpu,
            r.cpu.mmu.wf(),
            r.limiter.frame_cycles == 0,
    {
        let limiter = Limiter::new();
        Emulator { cpu, limiter }
    }

    /// One emulator step at the host time `now_millis`: execute one CPU
    /// step and account it; the result is how many milliseconds the host
    /// should sleep before the next step to stay at real time.
    pub fn step(&mut self, now_millis: u64) -> (r: u64)
        requires
            old(self).cpu.mmu.wf(),
            old(self).limiter.frame_cycles < 0xFFFF_FFFF,
            now_millis < 0xFFFF_FFFF_FFFF,
        ensures
            final(self).cpu.mmu.wf(),
            final(self).limiter.frame_cycles < CYCLES_PER_FRAME,
            old(self).cpu.stopped ==> final(self).cpu == old(self).cpu,
            !old(self).cpu.stopped ==> (final(self).cpu.halted ==> (final(self).cpu.mmu.interrupts.interrupt_flag & final(self).cpu.mmu.interrupts.interrupt_enabled)
                == 0),
            r != 0 ==> r == old(self).limiter.next_frame_millis - now_millis && final(self).limiter.frame_cycles == 0 && final(self).limiter.next_frame_millis == now_millis
                + TARGET_FRAME_MILLIS,
            old(self).limiter.frame_cycles + 10 < CYCLES_PER_FRAME ==> r == 0 && old(self).limiter.frame_cycles <= final(self).limiter.frame_cycles <= old(self).limiter.frame_cycles + 10 && final(self).limiter.next_frame_millis == old(
                self,
            ).limiter.next_frame_millis,
    {
        let cycles = self.cpu.step();
        self.limiter.step(cycles, now_millis)
    }

    /// The cartridge RAM image to persist at shutdown, for a battery-backed
    /// cartridge.
    pub fn save(&self) -> (r: Option<&Vec<u8>>) {
        self.cpu.mmu.save()
    }
}

} // verus!
