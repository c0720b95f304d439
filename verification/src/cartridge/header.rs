//! The cartridge header: byte 0x147 selects the memory-bank controller,
//! 0x148 the ROM size and 0x149 the external RAM size.

use vstd::prelude::*;

verus! {

/// The controller families this core supports.
#[derive(Debug, PartialEq, Eq, Clone, Copy, Structural)]
pub enum CartridgeType {
    ROMOnly,
    MBC1,
    MBC1Battery,
    MBC3,
    MBC3Battery,
}

/// ROM size: 32 KiB times a power of two.
#[derive(Debug, PartialEq, Eq, Clone, Copy, Structural)]
pub enum ROMSize {
    KB32,
    KB64,
    KB128,
    KB256,
    KB512,
    KB1024,
    KB2048,
    KB4096,
    KB8192,
}

/// External RAM size.
#[derive(Debug, PartialEq, Eq, Clone, Copy, Structural)]
pub enum RAMSize {
    NoRam,
    KB2,
    KB8,
    KB32,
    KB128,
    KB64,
}

/// The decoded header fields.
pub struct Header {
    pub cartridge_type: CartridgeType,
    pub rom_size: ROMSize,
    pub ram_size: RAMSize,
}

/// The controller family encoded by header byte 0x147, if supported.
pub open spec fn spec_cartridge_type(value: u8) -> Option<CartridgeType> {
    if value == 0x00 || value == 0x08 || value == 0x09 {
        Some(CartridgeType::ROMOnly)
    } else if value == 0x01 || value == 0x02 {
        Some(CartridgeType::MBC1)
    } else if value == 0x03 {
        Some(CartridgeType::MBC1Battery)
    } else if value == 0x11 || value == 0x12 {
        Some(CartridgeType::MBC3)
    } else if value == 0x0F || value == 0x10 || value == 0x13 {
        Some(CartridgeType::MBC3Battery)
    } else {
        None
    }
}

/// The ROM size encoded by header byte 0x148, if known.
pub open spec fn spec_rom_size(value: u8) -> Option<ROMSize> {
    if value == 0x00 {
        Some(ROMSize::KB32)
    } else if value == 0x01 {
        Some(ROMSize::KB64)
    } else if value == 0x02 {
        Some(ROMSize::KB128)
    } else if value == 0x03 {
        Some(ROMSize::KB256)
    } else if value == 0x04 {
        Some(ROMSize::KB512)
    } else if value == 0x05 {
        Some(ROMSize::KB1024)
    } else if value == 0x06 {
        Some(ROMSize::KB2048)
    } else if value == 0x07 {
        Some(ROMSize::KB4096)
    } else if value == 0x08 {
        Some(ROMSize::KB8192)
    } else {
        None
    }
}

/// The RAM size encoded by header byte 0x149, if known.
pub open spec fn spec_ram_size(value: u8) -> Option<RAMSize> {
    if value == 0x00 {
        Some(RAMSize::NoRam)
    } else if value == 0x01 {
        Some(RAMSize::KB2)
    } else if value == 0x02 {
        Some(RAMSize::KB8)
    } else if value == 0x03 {
        Some(RAMSize::KB32)
    } else if value == 0x04 {
        Some(RAMSize::KB128)
    } else if value == 0x05 {
        Some(RAMSize::KB64)
    } else {
        None
    }
}

/// Whether a ROM image is long enough to hold a header and its three bytes
/// decode to known values.
pub open spec fn spec_header_valid(data: Seq<u8>) -> bool {
    &&& data.len() > 0x149
    &&& spec_cartridge_type(data[0x147]) is Some
    &&& spec_rom_size(data[0x148]) is Some
    &&& spec_ram_size(data[0x149]) is Some
}

/// The number of 16 KiB ROM banks a ROM size amounts to.
pub open spec fn spec_rom_bank_count(size: ROMSize) -> usize {
    match size {
        ROMSize::KB32 => 2,
        ROMSize::KB64 => 4,
        ROMSize::KB128 => 8,
        ROMSize::KB256 => 16,
        ROMSize::KB512 => 32,
        ROMSize::KB1024 => 64,
        ROMSize::KB2048 => 128,
        ROMSize::KB4096 => 256,
        ROMSize::KB8192 => 512,
    }
}

/// The number of 8 KiB RAM banks a RAM size amounts to. A 2 KiB cartridge
/// is carried as one partial bank.
pub open spec fn spec_ram_bank_count(size: RAMSize) -> usize {
    match size {
        RAMSize::NoRam => 0,
        RAMSize::KB2 => 1,
        RAMSize::KB8 => 1,
        RAMSize::KB32 => 4,
        RAMSize::KB128 => 16,
        RAMSize::KB64 => 8,
    }
}

/// The bank-number mask for a ROM size: the smallest all-ones mask that
/// covers every bank, capped at eight bits.
pub open spec fn spec_rom_bank_mask(size: ROMSize) -> u8 {
    match size {
        ROMSize::KB32 => 0b1,
        ROMSize::KB64 => 0b11,
        ROMSize::KB128 => 0b111,
        ROMSize::KB256 => 0b1111,
        ROMSize::KB512 => 0b11111,
        ROMSize::KB1024 => 0b111111,
        ROMSize::KB2048 => 0b1111111,
        ROMSize::KB4096 => 0b11111111,
        ROMSize::KB8192 => 0b11111111,
    }
}

impl Header {
    /// Decode the three header bytes of a ROM image.
    pub fn new(data: &Vec<u8>) -> (r: Header)
        requires
            spec_header_valid(data@),
        ensures
            Some(r.cartridge_type) == spec_cartridge_type(data@[0x147]),
            Some(r.rom_size) == spec_rom_size(data@[0x148]),
            Some(r.ram_size) == spec_ram_size(data@[0x149]),
    {
        let cartridge_type = match CartridgeType::try_from(&data[0x147]) {
            Ok(t) => t,
            Err(_) => CartridgeType::ROMOnly,
        };
        let rom_size = match ROMSize::try_from(&data[0x148]) {
            Ok(t) => t,
            Err(_) => ROMSize::KB32,
        };
        let ram_size = match RAMSize::try_from(&data[0x149]) {
            Ok(t) => t,
            Err(_) => RAMSize::NoRam,
        };
        Header { cartridge_type, rom_size, ram_size }
    }

    /// How many 16 KiB ROM banks the header declares.
    pub fn rom_bank_count(&self) -> (r: usize)
        ensures
            r == spec_rom_bank_count(self.rom_size),
    {
        match self.rom_size {
            ROMSize::KB32 => 2,
            ROMSize::KB64 => 4,
            ROMSize::KB128 => 8,
            ROMSize::KB256 => 16,
            ROMSize::KB512 => 32,
            ROMSize::KB1024 => 64,
            ROMSize::KB2048 => 128,
            ROMSize::KB4096 => 256,
            ROMSize::KB8192 => 512,
        }
    }

    /// How many 8 KiB RAM banks the header declares.
    pub fn ram_bank_count(&self) -> (r: usize)
        ensures
            r == spec_ram_bank_count(self.ram_size),
    {
        match self.ram_size {
            RAMSize::NoRam => 0,
            RAMSize::KB2 => 1,
            RAMSize::KB8 => 1,
            RAMSize::KB32 => 4,
            RAMSize::KB128 => 16,
            RAMSize::KB64 => 8,
        }
    }
}

impl CartridgeType {
    /// Decode header byte 0x147; unsupported values are reported back.
    pub fn try_from(value: &u8) -> (r: Result<CartridgeType, &'static str>)
        ensures
            r is Ok <==> spec_cartridge_type(*value) is Some,
            r is Ok ==> Some(r->Ok_0) == spec_cartridge_type(*value),
    {
        match *value {
            0x00 => Ok(CartridgeType::ROMOnly),
            0x01 => Ok(CartridgeType::MBC1),
            0x02 => Ok(CartridgeType::MBC1),
            0x03 => Ok(CartridgeType::MBC1Battery),
            0x08 => Ok(CartridgeType::ROMOnly),
            0x09 => Ok(CartridgeType::ROMOnly),
            0x0F => Ok(CartridgeType::MBC3Battery),
            0x10 => Ok(CartridgeType::MBC3Battery),
            0x11 => Ok(CartridgeType::MBC3),
            0x12 => Ok(CartridgeType::MBC3),
            0x13 => Ok(CartridgeType::MBC3Battery),
            _ => Err("Unsupported cartridge type"),
        }
    }
}

impl ROMSize {
    /// Decode header byte 0x148; unknown values are reported back.
    pub fn try_from(value: &u8) -> (r: Result<ROMSize, &'static str>)
        ensures
            r is Ok <==> spec_rom_size(*value) is Some,
            r is Ok ==> Some(r->Ok_0) == spec_rom_size(*value),
    {
        match *value {
            0x00 => Ok(ROMSize::KB32),
            0x01 => Ok(ROMSize::KB64),
            0x02 => Ok(ROMSize::KB128),
            0x03 => Ok(ROMSize::KB256),
            0x04 => Ok(ROMSize::KB512),
            0x05 => Ok(ROMSize::KB1024),
            0x06 => Ok(ROMSize::KB2048),
            0x07 => Ok(ROMSize::KB4096),
            0x08 => Ok(ROMSize::KB8192),
            _ => Err("Unknown rom size"),
        }
    }
}

impl RAMSize {
    /// Decode header byte 0x149; unknown values are reported back.
    pub fn try_from(value: &u8) -> (r: Result<RAMSize, &'static str>)
        ensures
            r is Ok <==> spec_ram_size(*value) is Some,
            r is Ok ==> Some(r->Ok_0) == spec_ram_size(*value),
    {
        match *value {
            0x00 => Ok(RAMSize::NoRam),
            0x01 => Ok(RAMSize::KB2),
            0x02 => Ok(RAMSize::KB8),
            0x03 => Ok(RAMSize::KB32),
            0x04 => Ok(RAMSize::KB128),
            0x05 => Ok(RAMSize::KB64),
            _ => Err("Unknown ram size"),
        }
    }
}

} // verus!
