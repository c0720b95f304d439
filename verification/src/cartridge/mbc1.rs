//! MBC1: up to 2 MiB of ROM behind a 5-bit bank register with a 2-bit
//! secondary register, and up to 32 KiB of banked RAM behind an enable
//! latch and a banking-mode bit.

use crate::cartridge::header::spec_header_valid;
use crate::cartridge::header::spec_ram_bank_count;
use crate::cartridge::header::spec_rom_bank_mask;
use crate::cartridge::header::Header;
use crate::cartridge::header::RAMSize;
use crate::cartridge::header::ROMSize;
use vstd::prelude::*;

verus! {

/// Which meaning the 2-bit secondary register has: the high bits of the ROM
/// bank, or the RAM bank selector.
#[derive(Debug, PartialEq, Eq, Clone, Copy, Structural)]
pub enum BankingMode {
    Rom,
    Ram,
}

/// MBC1 cartridge state.
pub struct MBC1 {
    pub rom: Vec<u8>,
    pub ram: Vec<u8>,
    pub rom_bank: u8,
    pub ram_bank: u8,
    pub ram_enabled: bool,
    pub banking_mode: BankingMode,
    pub header: Header,
    pub has_battery: bool,
}

/// The mathematical model of an MBC1 cartridge.
pub ghost struct Mbc1View {
    pub rom: Seq<u8>,
    pub ram: Seq<u8>,
    pub rom_bank: u8,
    pub ram_bank: u8,
    pub ram_enabled: bool,
    pub banking_mode: BankingMode,
    pub rom_size: ROMSize,
    pub ram_size: RAMSize,
    pub has_battery: bool,
}

impl View for MBC1 {
    type V = Mbc1View;

    open spec fn view(&self) -> Mbc1View {
        Mbc1View {
            rom: self.rom@,
            ram: self.ram@,
            rom_bank: self.rom_bank,
            ram_bank: self.ram_bank,
            ram_enabled: self.ram_enabled,
            banking_mode: self.banking_mode,
            rom_size: self.header.rom_size,
            ram_size: self.header.ram_size,
            has_battery: self.has_battery,
        }
    }
}

/// The RAM offset a cartridge-space address reaches through the selected
/// bank.
pub open spec fn spec_mbc1_ram_offset(v: Mbc1View, address: u16) -> int {
    (address - 0xA000) + v.ram_bank * 0x2000
}

/// The byte a RAM read yields: 0xFF with RAM disabled; in RAM-banking mode
/// the selected bank, in ROM-banking mode always bank 0; 0xFF past the end
/// of the RAM.
pub open spec fn spec_mbc1_read_ram(v: Mbc1View, address: u16) -> u8 {
    if !v.ram_enabled {
        0xFF
    } else {
        let offset = if v.banking_mode == BankingMode::Ram {
            spec_mbc1_ram_offset(v, address)
        } else {
            address - 0xA000
        };
        if offset < v.ram.len() {
            v.ram[offset]
        } else {
            0xFF
        }
    }
}

/// The model after a RAM write: absorbed with RAM disabled; in RAM-banking
/// mode the byte in the selected bank is replaced, in ROM-banking mode only
/// bank 0 is visible, so the write lands there, mirroring the read; writes
/// past the end absorbed.
pub open spec fn spec_mbc1_write_ram(v: Mbc1View, address: u16, value: u8) -> Mbc1View {
    let offset = if v.banking_mode == BankingMode::Ram {
        spec_mbc1_ram_offset(v, address)
    } else {
        address - 0xA000
    };
    if v.ram_enabled && offset < v.ram.len() {
        Mbc1View { ram: v.ram.update(offset, value), ..v }
    } else {
        v
    }
}

/// The byte a ROM read yields: the fixed bank below 0x4000, the selected
/// bank above it; 0xFF past the end of the image.
pub open spec fn spec_mbc1_read_rom(v: Mbc1View, address: u16) -> u8 {
    let offset: int = if address < 0x4000 {
        address as int
    } else {
        v.rom_bank * 0x4000 + (address - 0x4000)
    };
    if offset < v.rom.len() {
        v.rom[offset]
    } else {
        0xFF
    }
}

/// The model after a control write into ROM space:
/// - 0x0000..=0x1FFF: RAM is enabled exactly by a low nibble of 0x0A;
/// - 0x2000..=0x3FFF: the ROM bank; a value whose low five bits are all
///   zero selects bank 1, anything else is masked to the cartridge size
///   (so on a small cartridge a raw value like 0x10 can select bank 0);
/// - 0x4000..=0x5FFF: in ROM mode the two bits become ROM-bank bits 5..6;
///   in RAM mode they select the RAM bank when the cartridge has it;
/// - 0x6000..=0x7FFF: bit 0 selects the banking mode.
pub open spec fn spec_mbc1_write_rom(v: Mbc1View, address: u16, value: u8) -> Mbc1View {
    if address < 0x2000 {
        Mbc1View { ram_enabled: value & 0x0F == 0x0A, ..v }
    } else if address < 0x4000 {
        if value & 0b11111 == 0 {
            Mbc1View { rom_bank: 1, ..v }
        } else {
            Mbc1View { rom_bank: value & spec_rom_bank_mask(v.rom_size), ..v }
        }
    } else if address < 0x6000 {
        if v.banking_mode == BankingMode::Rom {
            Mbc1View {
                rom_bank: (v.rom_bank | ((value & 0b11) << 5u8)) & spec_rom_bank_mask(v.rom_size),
                ..v
            }
        } else {
            if (value & 0b11) < spec_ram_bank_count(v.ram_size) {
                Mbc1View { ram_bank: value & 0b11, ..v }
            } else {
                v
            }
        }
    } else {
        Mbc1View {
            banking_mode: if value & 1 == 0 {
                BankingMode::Rom
            } else {
                BankingMode::Ram
            },
            ..v
        }
    }
}

impl MBC1 {
    /// Build an MBC1 cartridge from a ROM image. `loaded_ram` is `Some` for
    /// a battery-backed board: the persisted RAM image, which is ignored in
    /// favour of zeroed RAM when its length does not match the header.
    pub fn new(rom: Vec<u8>, loaded_ram: Option<Vec<u8>>) -> (r: MBC1)
        requires
            spec_header_valid(rom@),
        ensures
            r.rom == rom,
            r.rom_bank == 1,
            r.ram_bank == 0,
            !r.ram_enabled,
            r.banking_mode == BankingMode::Rom,
            r.has_battery == loaded_ram is Some,
            r.ram@.len() == 0x2000 * spec_ram_bank_count(r.header.ram_size),
            Some(r.header.rom_size) == crate::cartridge::header::spec_rom_size(rom@[0x148]),
            Some(r.header.ram_size) == crate::cartridge::header::spec_ram_size(rom@[0x149]),
            match loaded_ram {
                Some(v) => if v@.len() == 0x2000 * spec_ram_bank_count(r.header.ram_size) {
                    r.ram@ == v@
                } else {
                    r.ram@ == Seq::new(r.ram@.len(), |i: int| 0u8)
                },
                None => r.ram@ == Seq::new(r.ram@.len(), |i: int| 0u8),
            },
    {
        let header = Header::new(&rom);
        let ram_banks = header.ram_bank_count();
        let has_battery = loaded_ram.is_some();

        let ram = crate::cartridge::valid_ram(loaded_ram, ram_banks);

        MBC1 {
            rom,
            ram,
            rom_bank: 1,
            ram_bank: 0,
            ram_enabled: false,
            banking_mode: BankingMode::Rom,
            header,
            has_battery,
        }
    }

    /// Read cartridge RAM space through the enable latch and the mode bit.
    pub fn read_ram(&self, address: u16) -> (r: u8)
        requires
            0xA000 <= address <= 0xBFFF,
        ensures
            r == spec_mbc1_read_ram(self@, address),
    {
        if !self.ram_enabled {
            return 0xFF;
        }
        let offset: usize = if matches!(self.banking_mode, BankingMode::Ram) {
            (address - 0xA000) as usize + self.ram_bank as usize * 0x2000
        } else {
            (address - 0xA000) as usize
        };
        if offset < self.ram.len() {
            self.ram[offset]
        } else {
            0xFF
        }
    }

    /// Write cartridge RAM space: absorbed with RAM disabled; into the
    /// selected bank in RAM-banking mode, into the always-visible bank 0 in
    /// ROM-banking mode.
    pub fn write_ram(&mut self, address: u16, value: u8)
        requires
            0xA000 <= address <= 0xBFFF,
        ensures
            final(self)@ == spec_mbc1_write_ram(old(self)@, address, value),
    {
        if self.ram_enabled {
            let offset: usize = if matches!(self.banking_mode, BankingMode::Ram) {
                (address - 0xA000) as usize + self.ram_bank as usize * 0x2000
            } else {
                (address - 0xA000) as usize
            };
            if offset < self.ram.len() {
                self.ram.set(offset, value);
            }
        }
    }

    /// Read ROM space through the selected bank.
    pub fn read_rom(&self, address: u16) -> (r: u8)
        requires
            address <= 0x7FFF,
        ensures
            r == spec_mbc1_read_rom(self@, address),
    {
        let offset: usize = if address < 0x4000 {
            address as usize
        } else {
            self.rom_bank as usize * 0x4000 + (address as usize - 0x4000)
        };
        if offset < self.rom.len() {
            self.rom[offset]
        } else {
            0xFF
        }
    }

    /// A control write into ROM space; see `spec_mbc1_write_rom`.
    pub fn write_rom(&mut self, address: u16, value: u8)
        requires
            address <= 0x7FFF,
        ensures
            final(self)@ == spec_mbc1_write_rom(old(self)@, address, value),
    {
        if address < 0x2000 {
            self.ram_enabled = (value & 0x0F) == 0x0A;
        } else if address < 0x4000 {
            if value & 0b11111 == 0 {
                self.rom_bank = 1;
            } else {
                self.rom_bank = value & self.rom_bank_mask();
            }
        } else if address < 0x6000 {
            if matches!(self.banking_mode, BankingMode::Rom) {
                self.rom_bank = (self.rom_bank | ((value & 0b11) << 5u8)) & self.rom_bank_mask();
            } else {
                let bank = value & 0b11;
                if (bank as usize) < self.header.ram_bank_count() {
                    self.ram_bank = bank;
                }
            }
        } else {
            self.banking_mode = if value & 0x01 == 0 {
                BankingMode::Rom
            } else {
                BankingMode::Ram
            };
        }
    }

    /// The RAM image to persist: present only on a battery-backed board.
    pub fn save(&self) -> (r: Option<&Vec<u8>>)
        ensures
            r == (if self.has_battery {
                Some(&self.ram)
            } else {
                None::<&Vec<u8>>
            }),
    {
        if self.has_battery {
            Some(&self.ram)
        } else {
            None
        }
    }

    /// The bank-number mask for the cartridge's size: the smallest all-ones
    /// mask that covers every bank.
    fn rom_bank_mask(&self) -> (r: u8)
        ensures
            r == spec_rom_bank_mask(self.header.rom_size),
    {
        match self.header.rom_size {
            ROMSize::KB32 => 0b1,
            ROMSize::KB64 => 0b11,
            ROMSize::KB128 => 0b111,
            ROMSize::KB256 => 0b1111,
            ROMSize::KB512 => 0b11111,
            ROMSize::KB1024 => 0b111111,
            ROMSize::KB2048 => 0b1111111,
            ROMSize::KB4096 => 0b11111111,
            ROMSize::KB8192 => 0b11111111,
        }
    }
}

/// Writing 0x00 to the 0x2000 region selects bank 1 in the switchable slot.
pub proof fn lemma_bank_zero_becomes_one(v: Mbc1View)
    ensures
        spec_mbc1_write_rom(v, 0x2000, 0x00).rom_bank == 1,
{
    assert(0x00u8 & 0b11111 == 0) by (bit_vector);
}

/// On a 64 KiB cartridge (four banks), writing 0xFF to the 0x2000 region
/// selects bank 3: the value is masked to the two bank bits.
pub proof fn lemma_bank_masked_to_cartridge_size(v: Mbc1View)
    requires
        v.rom_size == ROMSize::KB64,
    ensures
        spec_mbc1_write_rom(v, 0x2000, 0xFF).rom_bank == 3,
{
    assert(0xFFu8 & 0b11111 != 0 && 0xFFu8 & 0b11 == 3) by (bit_vector);
}

/// On a cartridge of at most 256 KiB in the default mode, writing 0x10 to
/// the 0x2000 region makes bank 0 visible in the switchable slot: the
/// zero-test sees the raw five-bit value 0x10, while the size mask keeps
/// only its low four bits, which are zero.
pub proof fn lemma_bank_zero_reachable_on_small_cartridge(v: Mbc1View)
    requires
        v.rom_size == ROMSize::KB32 || v.rom_size == ROMSize::KB64 || v.rom_size
            == ROMSize::KB128 || v.rom_size == ROMSize::KB256,
    ensures
        spec_mbc1_write_rom(v, 0x2000, 0x10).rom_bank == 0,
{
    assert(0x10u8 & 0b11111 != 0 && 0x10u8 & 0b1 == 0 && 0x10u8 & 0b11 == 0 && 0x10u8 & 0b111 == 0
        && 0x10u8 & 0b1111 == 0) by (bit_vector);
}

/// In RAM-banking mode each 8 KiB RAM bank is independently readable and
/// writable while RAM is enabled: a write through bank `b` is read back at
/// the same address through bank `b`, and leaves every other bank's byte at
/// that address unchanged. In ROM-banking mode only bank 0 is visible, to
/// reads and writes alike, so a write there is read back there too.
pub proof fn lemma_ram_banks_independent(v: Mbc1View, address: u16, value: u8, other_bank: u8)
    requires
        0xA000 <= address <= 0xBFFF,
        v.ram_enabled,
        v.banking_mode == BankingMode::Ram,
        v.ram_bank < 4,
        other_bank < 4,
        other_bank != v.ram_bank,
        v.ram.len() == 0x2000 * 4,
    ensures
        spec_mbc1_read_ram(spec_mbc1_write_ram(v, address, value), address) == value,
        spec_mbc1_read_ram(
            Mbc1View { ram_bank: other_bank, ..spec_mbc1_write_ram(v, address, value) },
            address,
        ) == spec_mbc1_read_ram(Mbc1View { ram_bank: other_bank, ..v }, address),
        spec_mbc1_read_ram(
            Mbc1View { banking_mode: BankingMode::Rom, ..spec_mbc1_write_ram(v, address, value) },
            address,
        ) == (if v.ram_bank == 0 {
            value
        } else {
            v.ram[address - 0xA000]
        }),
{
}

/// In ROM-banking mode the RAM window is bank 0 both ways: with RAM enabled,
/// the last value written at an address is the value read back there,
/// whatever bank the stale selector names.
pub proof fn lemma_rom_mode_pins_bank_zero(v: Mbc1View, address: u16, value: u8)
    requires
        0xA000 <= address <= 0xBFFF,
        v.ram_enabled,
        v.banking_mode == BankingMode::Rom,
        address - 0xA000 < v.ram.len(),
    ensures
        spec_mbc1_read_ram(spec_mbc1_write_ram(v, address, value), address) == value,
{
}

} // verus!
