//! MBC3: up to 2 MiB of ROM behind a 7-bit bank register, up to 32 KiB of
//! banked RAM, and a real-time clock whose five registers share the RAM
//! window with the RAM banks.

use crate::cartridge::header::spec_header_valid;
use crate::cartridge::header::spec_ram_bank_count;
use crate::cartridge::header::spec_rom_bank_mask;
use crate::cartridge::header::Header;
use crate::cartridge::header::RAMSize;
use crate::cartridge::header::ROMSize;
use crate::cartridge::rtc::spec_rtc_latch;
use crate::cartridge::rtc::spec_rtc_read;
use crate::cartridge::rtc::spec_rtc_update;
use crate::cartridge::rtc::spec_rtc_write_days_lower;
use crate::cartridge::rtc::spec_rtc_write_days_upper;
use crate::cartridge::rtc::spec_rtc_write_hours;
use crate::cartridge::rtc::spec_rtc_write_minutes;
use crate::cartridge::rtc::spec_rtc_write_seconds;
use crate::cartridge::rtc::Days;
use crate::cartridge::rtc::RTC;
use vstd::prelude::*;

verus! {

/// What the RAM window at 0xA000..=0xBFFF currently exposes: one of the RAM
/// banks, or one of the five clock registers.
#[derive(Debug, PartialEq, Eq, Clone, Copy, Structural)]
pub enum RegisterSelect {
    RamBank(u8),
    RTCSeconds,
    RTCMinutes,
    RTCHours,
    RTCDaysLower,
    RTCDaysUpper,
}

/// MBC3 cartridge state. `clock_seconds` is the wall-clock second count the
/// host handed over most recently; clock-register writes re-anchor against
/// it.
pub struct MBC3 {
    pub rom: Vec<u8>,
    pub ram: Vec<u8>,
    pub rom_bank: u8,
    pub ram_and_rtc_enabled: bool,
    pub register_select: RegisterSelect,
    pub header: Header,
    pub rtc: RTC,
    pub latch_register: u8,
    pub clock_seconds: u64,
    pub has_battery: bool,
}

/// The mathematical model of an MBC3 cartridge.
pub ghost struct Mbc3View {
    pub rom: Seq<u8>,
    pub ram: Seq<u8>,
    pub rom_bank: u8,
    pub ram_and_rtc_enabled: bool,
    pub register_select: RegisterSelect,
    pub rom_size: ROMSize,
    pub ram_size: RAMSize,
    pub rtc: RTC,
    pub latch_register: u8,
    pub clock_seconds: u64,
    pub has_battery: bool,
}

impl View for MBC3 {
    type V = Mbc3View;

    open spec fn view(&self) -> Mbc3View {
        Mbc3View {
            rom: self.rom@,
            ram: self.ram@,
            rom_bank: self.rom_bank,
            ram_and_rtc_enabled: self.ram_and_rtc_enabled,
            register_select: self.register_select,
            rom_size: self.header.rom_size,
            ram_size: self.header.ram_size,
            rtc: self.rtc,
            latch_register: self.latch_register,
            clock_seconds: self.clock_seconds,
            has_battery: self.has_battery,
        }
    }
}

/// The RAM offset a cartridge-space address reaches through a RAM bank.
pub open spec fn spec_mbc3_ram_offset(address: u16, bank: u8) -> int {
    (address - 0xA000) + bank * 0x2000
}

/// The byte a RAM-window read yields: 0xFF when RAM and clock are disabled;
/// the selected RAM bank's byte (0xFF past the end of the RAM), or the
/// selected clock register.
pub open spec fn spec_mbc3_read_ram(v: Mbc3View, address: u16) -> u8 {
    if !v.ram_and_rtc_enabled {
        0xFF
    } else {
        match v.register_select {
            RegisterSelect::RamBank(bank) => {
                let offset = spec_mbc3_ram_offset(address, bank);
                if offset < v.ram.len() {
                    v.ram[offset]
                } else {
                    0xFF
                }
            },
            RegisterSelect::RTCSeconds => spec_rtc_read(v.rtc, 0),
            RegisterSelect::RTCMinutes => spec_rtc_read(v.rtc, 1),
            RegisterSelect::RTCHours => spec_rtc_read(v.rtc, 2),
            RegisterSelect::RTCDaysLower => spec_rtc_read(v.rtc, 3),
            RegisterSelect::RTCDaysUpper => spec_rtc_read(v.rtc, 4),
        }
    }
}

/// The model after a RAM-window write: absorbed when disabled; else into the
/// selected RAM bank (absorbed past the end of the RAM) or the selected
/// clock register, which re-anchors against the last handed-over time.
pub open spec fn spec_mbc3_write_ram(v: Mbc3View, address: u16, value: u8) -> Mbc3View {
    if !v.ram_and_rtc_enabled {
        v
    } else {
        match v.register_select {
            RegisterSelect::RamBank(bank) => {
                let offset = spec_mbc3_ram_offset(address, bank);
                if offset < v.ram.len() {
                    Mbc3View { ram: v.ram.update(offset, value), ..v }
                } else {
                    v
                }
            },
            RegisterSelect::RTCSeconds => Mbc3View {
                rtc: spec_rtc_write_seconds(v.rtc, v.clock_seconds, value),
                ..v
            },
            RegisterSelect::RTCMinutes => Mbc3View {
                rtc: spec_rtc_write_minutes(v.rtc, v.clock_seconds, value),
                ..v
            },
            RegisterSelect::RTCHours => Mbc3View {
                rtc: spec_rtc_write_hours(v.rtc, v.clock_seconds, value),
                ..v
            },
            RegisterSelect::RTCDaysLower => Mbc3View {
                rtc: spec_rtc_write_days_lower(v.rtc, v.clock_seconds, value),
                ..v
            },
            RegisterSelect::RTCDaysUpper => Mbc3View {
                rtc: spec_rtc_write_days_upper(v.rtc, v.clock_seconds, value),
                ..v
            },
        }
    }
}

/// The byte a ROM read yields: the fixed bank below 0x4000, the selected
/// bank above it; 0xFF past the end of the image.
pub open spec fn spec_mbc3_read_rom(v: Mbc3View, address: u16) -> u8 {
    let offset: int = if address < 0x4000 {
        address as int
    } else {
        v.rom_bank * 0x4000 + (address - 0x4000)
    };
    if offset < v.rom.len() {
        v.rom[offset]
    } else {
        0xFF
    }
}

/// The model after a control write into ROM space:
/// - 0x0000..=0x1FFF: RAM and clock are enabled exactly by a low nibble of
///   0x0A;
/// - 0x2000..=0x3FFF: the 7-bit ROM bank; the value 0 selects bank 1,
///   anything else is masked to the cartridge size;
/// - 0x4000..=0x5FFF: 0..=3 select a RAM bank, 0x08..=0x0C a clock
///   register; other values do nothing;
/// - 0x6000..=0x7FFF: a write of 1 on top of a stored 0 latches the clock
///   registers; the written value is stored for the next edge test.
pub open spec fn spec_mbc3_write_rom(v: Mbc3View, address: u16, value: u8) -> Mbc3View {
    if address < 0x2000 {
        Mbc3View { ram_and_rtc_enabled: value & 0x0F == 0x0A, ..v }
    } else if address < 0x4000 {
        if value == 0 {
            Mbc3View { rom_bank: 1, ..v }
        } else {
            Mbc3View { rom_bank: value & spec_rom_bank_mask(v.rom_size), ..v }
        }
    } else if address < 0x6000 {
        if value <= 0x3 {
            Mbc3View { register_select: RegisterSelect::RamBank(value), ..v }
        } else if value == 0x8 {
            Mbc3View { register_select: RegisterSelect::RTCSeconds, ..v }
        } else if value == 0x9 {
            Mbc3View { register_select: RegisterSelect::RTCMinutes, ..v }
        } else if value == 0xA {
            Mbc3View { register_select: RegisterSelect::RTCHours, ..v }
        } else if value == 0xB {
            Mbc3View { register_select: RegisterSelect::RTCDaysLower, ..v }
        } else if value == 0xC {
            Mbc3View { register_select: RegisterSelect::RTCDaysUpper, ..v }
        } else {
            v
        }
    } else {
        let rtc = if v.latch_register == 0 && value == 1 {
            spec_rtc_latch(v.rtc)
        } else {
            v.rtc
        };
        Mbc3View { rtc, latch_register: value, ..v }
    }
}

/// The model after one emulation step at time `now`: the time is recorded
/// and the live clock registers are refreshed against it.
pub open spec fn spec_mbc3_step(v: Mbc3View, now: u64) -> Mbc3View {
    Mbc3View { clock_seconds: now, rtc: spec_rtc_update(v.rtc, now), ..v }
}

impl MBC3 {
    /// Build an MBC3 cartridge from a ROM image. `loaded_ram` is `Some` for
    /// a battery-backed board: the persisted RAM image, ignored in favour of
    /// zeroed RAM when its length does not match the header. The clock is
    /// anchored at zero; `anchor_clock` re-anchors it at the present time.
    pub fn new(rom: Vec<u8>, loaded_ram: Option<Vec<u8>>) -> (r: MBC3)
        requires
            spec_header_valid(rom@),
        ensures
            r.rom == rom,
            r.rom_bank == 1,
            !r.ram_and_rtc_enabled,
            r.register_select == RegisterSelect::RamBank(0),
            r.latch_register == 0,
            r.clock_seconds == 0,
            r.has_battery == loaded_ram is Some,
            r.rtc.zero == 0 && r.rtc.seconds == 0 && r.rtc.minutes == 0 && r.rtc.hours == 0
                && r.rtc.days == (Days(0)) && r.rtc.latched is None,
            r.ram@.len() == 0x2000 * spec_ram_bank_count(r.header.ram_size),
            Some(r.header.rom_size) == crate::cartridge::header::spec_rom_size(rom@[0x148]),
            Some(r.header.ram_size) == crate::cartridge::header::spec_ram_size(rom@[0x149]),
            match loaded_ram {
                Some(v) => if v@.len() == 0x2000 * spec_ram_bank_count(r.header.ram_size) {
                    r.ram@ == v@
                } else {
                    r.ram@ == Seq::new(r.ram@.len(), |i: int| 0u8)
                },
                None => r.ram@ == Seq::new(r.ram@.len(), |i: int| 0u8),
            },
    {
        let header = Header::new(&rom);
        let ram_banks = header.ram_bank_count();
        let has_battery = loaded_ram.is_some();

        let ram = crate::cartridge::valid_ram(loaded_ram, ram_banks);

        MBC3 {
            rom,
            ram,
            rom_bank: 1,
            register_select: RegisterSelect::RamBank(0),
            ram_and_rtc_enabled: false,
            header,
            rtc: RTC::new(0),
            latch_register: 0,
            clock_seconds: 0,
            has_battery,
        }
    }

    /// Read the RAM window: a RAM bank or a clock register.
    pub fn read_ram(&self, address: u16) -> (r: u8)
        requires
            0xA000 <= address <= 0xBFFF,
        ensures
            r == spec_mbc3_read_ram(self@, address),
    {
        if !self.ram_and_rtc_enabled {
            return 0xFF;
        }
        match self.register_select {
            RegisterSelect::RamBank(bank) => {
                let offset = (address - 0xA000) as usize + bank as usize * 0x2000;
                if offset < self.ram.len() {
                    self.ram[offset]
                } else {
                    0xFF
                }
            },
            RegisterSelect::RTCSeconds => self.rtc.read_seconds(),
            RegisterSelect::RTCMinutes => self.rtc.read_minutes(),
            RegisterSelect::RTCHours => self.rtc.read_hours(),
            RegisterSelect::RTCDaysLower => self.rtc.read_days_lower(),
            RegisterSelect::RTCDaysUpper => self.rtc.read_days_upper(),
        }
    }

    /// Write the RAM window: into a RAM bank or a clock register.
    pub fn write_ram(&mut self, address: u16, value: u8)
        requires
            0xA000 <= address <= 0xBFFF,
        ensures
            final(self)@ == spec_mbc3_write_ram(old(self)@, address, value),
    {
        if self.ram_and_rtc_enabled {
            let now = self.clock_seconds;
            match self.register_select {
                RegisterSelect::RamBank(bank) => {
                    let offset = (address - 0xA000) as usize + bank as usize * 0x2000;
                    if offset < self.ram.len() {
                        self.ram.set(offset, value);
                    }
                },
                RegisterSelect::RTCSeconds => self.rtc.write_seconds(now, value),
                RegisterSelect::RTCMinutes => self.rtc.write_minutes(now, value),
                RegisterSelect::RTCHours => self.rtc.write_hours(now, value),
                RegisterSelect::RTCDaysLower => self.rtc.write_days_lower(now, value),
                RegisterSelect::RTCDaysUpper => self.rtc.write_days_upper(now, value),
            }
        }
    }

    /// Read ROM space through the selected bank.
    pub fn read_rom(&self, address: u16) -> (r: u8)
        requires
            address <= 0x7FFF,
        ensures
            r == spec_mbc3_read_rom(self@, address),
    {
        let offset: usize = if address < 0x4000 {
            address as usize
        } else {
            self.rom_bank as usize * 0x4000 + (address as usize - 0x4000)
        };
        if offset < self.rom.len() {
            self.rom[offset]
        } else {
            0xFF
        }
    }

    /// A control write into ROM space; see `spec_mbc3_write_rom`.
    pub fn write_rom(&mut self, address: u16, value: u8)
        requires
            address <= 0x7FFF,
        ensures
            final(self)@ == spec_mbc3_write_rom(old(self)@, address, value),
    {
        if address < 0x2000 {
            self.ram_and_rtc_enabled = (value & 0x0F) == 0x0A;
        } else if address < 0x4000 {
            if value == 0 {
                self.rom_bank = 1;
            } else {
                self.rom_bank = value & self.rom_bank_mask();
            }
        } else if address < 0x6000 {
            match value {
                0x0..=0x3 => self.register_select = RegisterSelect::RamBank(value),
                0x8 => self.register_select = RegisterSelect::RTCSeconds,
                0x9 => self.register_select = RegisterSelect::RTCMinutes,
                0xA => self.register_select = RegisterSelect::RTCHours,
                0xB => self.register_select = RegisterSelect::RTCDaysLower,
                0xC => self.register_select = RegisterSelect::RTCDaysUpper,
                _ => (),
            }
        } else {
            if self.latch_register == 0 && value == 1 {
                self.rtc.latch();
            }
            self.latch_register = value;
        }
    }

    /// One emulation step at time `now` (in seconds): record the time and
    /// refresh the live clock registers against it.
    pub fn step(&mut self, now: u64)
        ensures
            final(self)@ == spec_mbc3_step(old(self)@, now),
    {
        self.clock_seconds = now;
        self.rtc.update(now);
    }

    /// Re-anchor the clock at the given time, as at power-on.
    pub fn anchor_clock(&mut self, now: u64)
        ensures
            final(self)@ == (Mbc3View {
                clock_seconds: now,
                rtc: RTC {
                    zero: now,
                    seconds: 0,
                    minutes: 0,
                    hours: 0,
                    days: (Days(0)),
                    latched: None,
                },
                ..old(self)@
            }),
    {
        self.clock_seconds = now;
        self.rtc = RTC::new(now);
    }

    /// The RAM image to persist: present only on a battery-backed board.
    pub fn save(&self) -> (r: Option<&Vec<u8>>)
        ensures
            r == (if self.has_battery {
                Some(&self.ram)
            } else {
                None::<&Vec<u8>>
            }),
    {
        if self.has_battery {
            Some(&self.ram)
        } else {
            None
        }
    }

    /// The bank-number mask for the cartridge's size.
    fn rom_bank_mask(&self) -> (r: u8)
        ensures
            r == spec_rom_bank_mask(self.header.rom_size),
    {
        match self.header.rom_size {
            ROMSize::KB32 => 0b1,
            ROMSize::KB64 => 0b11,
            ROMSize::KB128 => 0b111,
            ROMSize::KB256 => 0b1111,
            ROMSize::KB512 => 0b11111,
            ROMSize::KB1024 => 0b111111,
            ROMSize::KB2048 => 0b1111111,
            ROMSize::KB4096 => 0b11111111,
            ROMSize::KB8192 => 0b11111111,
        }
    }
}

/// A write of 1 to the latch region on top of a stored 0 freezes the clock
/// view: afterwards every clock-register read yields the snapshot, and
/// refreshing the live clock at any later time changes none of them, until
/// another 0-to-1 sequence latches anew.
pub proof fn lemma_latch_freezes_rtc_view(v: Mbc3View, address: u16, now: u64, index: int)
    requires
        0x6000 <= address <= 0x7FFF,
        v.latch_register == 0,
        v.ram_and_rtc_enabled,
        0 <= index <= 4,
    ensures
        ({
            let latched = spec_mbc3_write_rom(v, address, 1);
            spec_rtc_read(spec_rtc_update(latched.rtc, now), index) == spec_rtc_read(
                latched.rtc,
                index,
            )
        }),
{
}

} // verus!
