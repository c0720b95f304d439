//! The ROM-only board: 32 KiB of ROM, a conventional 8 KiB of RAM, no
//! banking. Writes into ROM space are ignored.

use vstd::prelude::*;

verus! {

/// A cartridge without a memory-bank controller.
pub struct NoMBC {
    pub rom: Vec<u8>,
    pub ram: Vec<u8>,
}

/// The mathematical model of a ROM-only cartridge: its two byte sequences.
pub ghost struct NoMbcView {
    pub rom: Seq<u8>,
    pub ram: Seq<u8>,
}

impl View for NoMBC {
    type V = NoMbcView;

    open spec fn view(&self) -> NoMbcView {
        NoMbcView { rom: self.rom@, ram: self.ram@ }
    }
}

/// The byte a RAM read yields: the byte at the offset, or 0xFF past the end
/// of the RAM.
pub open spec fn spec_no_mbc_read_ram(v: NoMbcView, address: u16) -> u8 {
    if address - 0xA000 < v.ram.len() {
        v.ram[address - 0xA000]
    } else {
        0xFF
    }
}

/// The model after a RAM write: the byte at the offset replaced, writes past
/// the end absorbed.
pub open spec fn spec_no_mbc_write_ram(v: NoMbcView, address: u16, value: u8) -> NoMbcView {
    if address - 0xA000 < v.ram.len() {
        NoMbcView { ram: v.ram.update(address - 0xA000, value), ..v }
    } else {
        v
    }
}

/// The byte a ROM read yields: the byte at the address, or 0xFF past the end
/// of the image.
pub open spec fn spec_no_mbc_read_rom(v: NoMbcView, address: u16) -> u8 {
    if address < v.rom.len() {
        v.rom[address as int]
    } else {
        0xFF
    }
}

impl NoMBC {
    /// Wrap a ROM image with zeroed 8 KiB RAM.
    pub fn new(rom: Vec<u8>) -> (r: NoMBC)
        ensures
            r.rom == rom,
            r.ram@ == Seq::new(0x2000, |i: int| 0u8),
    {
        let ram = crate::cartridge::zeroed(0x2000);
        NoMBC { rom, ram }
    }

    pub fn read_ram(&self, address: u16) -> (r: u8)
        requires
            0xA000 <= address <= 0xBFFF,
        ensures
            r == spec_no_mbc_read_ram(self@, address),
    {
        let offset = (address - 0xA000) as usize;
        if offset < self.ram.len() {
            self.ram[offset]
        } else {
            0xFF
        }
    }

    pub fn write_ram(&mut self, address: u16, value: u8)
        requires
            0xA000 <= address <= 0xBFFF,
        ensures
            final(self)@ == spec_no_mbc_write_ram(old(self)@, address, value),
    {
        let offset = (address - 0xA000) as usize;
        if offset < self.ram.len() {
            self.ram.set(offset, value);
        }
    }

    pub fn read_rom(&self, address: u16) -> (r: u8)
        ensures
            r == spec_no_mbc_read_rom(self@, address),
    {
        if (address as usize) < self.rom.len() {
            self.rom[address as usize]
        } else {
            0xFF
        }
    }

    /// ROM writes are ignored: there is no controller to command.
    pub fn write_rom(&mut self, _address: u16, _value: u8)
        ensures
            *final(self) == *old(self),
    {
    }
}

} // verus!
