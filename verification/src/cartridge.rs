//! Bank-switched cartridges: the ROM-only board, MBC1 and MBC3 (with its
//! real-time clock), dispatched as one closed type, plus the persistence
//! interface the host implements for battery-backed RAM.

pub mod header;
pub mod mbc1;
pub mod mbc3;
pub mod no_mbc;
pub mod rtc;

pub use header::CartridgeType;
pub use header::Header;
pub use header::RAMSize;
pub use header::ROMSize;
pub use mbc1::MBC1;
pub use mbc3::MBC3;
pub use no_mbc::NoMBC;
pub use rtc::Days;
pub use rtc::LatchedClockData;
pub use rtc::RTCState;
pub use rtc::RTC;

use header::spec_cartridge_type;
use header::spec_header_valid;
use mbc1::Mbc1View;
use mbc3::Mbc3View;
use no_mbc::NoMbcView;
use vstd::prelude::*;

verus! {

/// Persistence for battery-backed cartridge RAM, implemented by the host:
/// it yields the previously saved RAM image at construction and stores the
/// image handed to it at save time.
pub trait CartridgePersistence {
    /// Read the previously saved RAM image, if any.
    fn load_ram(&mut self) -> Vec<u8>;

    /// Persist the RAM image.
    fn write_ram(&mut self, ram: &Vec<u8>);
}

/// The three supported memory-bank controllers as one closed type; every
/// cartridge access dispatches on the variant.
pub enum Cartridge {
    RomOnly(NoMBC),
    Mbc1(MBC1),
    Mbc3(MBC3),
}

/// The mathematical model of a cartridge: the model of its controller.
pub ghost enum CartridgeView {
    RomOnly(NoMbcView),
    Mbc1(Mbc1View),
    Mbc3(Mbc3View),
}

impl View for Cartridge {
    type V = CartridgeView;

    open spec fn view(&self) -> CartridgeView {
        match self {
            Cartridge::RomOnly(c) => CartridgeView::RomOnly(c@),
            Cartridge::Mbc1(c) => CartridgeView::Mbc1(c@),
            Cartridge::Mbc3(c) => CartridgeView::Mbc3(c@),
        }
    }
}

/// The byte a cartridge RAM read yields.
pub open spec fn spec_cart_read_ram(v: CartridgeView, address: u16) -> u8 {
    match v {
        CartridgeView::RomOnly(c) => no_mbc::spec_no_mbc_read_ram(c, address),
        CartridgeView::Mbc1(c) => mbc1::spec_mbc1_read_ram(c, address),
        CartridgeView::Mbc3(c) => mbc3::spec_mbc3_read_ram(c, address),
    }
}

/// The cartridge model after a RAM write.
pub open spec fn spec_cart_write_ram(v: CartridgeView, address: u16, value: u8) -> CartridgeView {
    match v {
        CartridgeView::RomOnly(c) => CartridgeView::RomOnly(
            no_mbc::spec_no_mbc_write_ram(c, address, value),
        ),
        CartridgeView::Mbc1(c) => CartridgeView::Mbc1(mbc1::spec_mbc1_write_ram(c, address, value)),
        CartridgeView::Mbc3(c) => CartridgeView::Mbc3(mbc3::spec_mbc3_write_ram(c, address, value)),
    }
}

/// The byte a cartridge ROM read yields.
pub open spec fn spec_cart_read_rom(v: CartridgeView, address: u16) -> u8 {
    match v {
        CartridgeView::RomOnly(c) => no_mbc::spec_no_mbc_read_rom(c, address),
        CartridgeView::Mbc1(c) => mbc1::spec_mbc1_read_rom(c, address),
        CartridgeView::Mbc3(c) => mbc3::spec_mbc3_read_rom(c, address),
    }
}

/// The cartridge model after a control write into ROM space.
pub open spec fn spec_cart_write_rom(v: CartridgeView, address: u16, value: u8) -> CartridgeView {
    match v {
        CartridgeView::RomOnly(c) => CartridgeView::RomOnly(c),
        CartridgeView::Mbc1(c) => CartridgeView::Mbc1(mbc1::spec_mbc1_write_rom(c, address, value)),
        CartridgeView::Mbc3(c) => CartridgeView::Mbc3(mbc3::spec_mbc3_write_rom(c, address, value)),
    }
}

/// The cartridge model after one emulation step at time `now`.
pub open spec fn spec_cart_step(v: CartridgeView, now: u64) -> CartridgeView {
    match v {
        CartridgeView::RomOnly(c) => CartridgeView::RomOnly(c),
        CartridgeView::Mbc1(c) => CartridgeView::Mbc1(c),
        CartridgeView::Mbc3(c) => CartridgeView::Mbc3(mbc3::spec_mbc3_step(c, now)),
    }
}

impl Cartridge {
    /// Read a byte from cartridge RAM space (0xA000..=0xBFFF).
    pub fn read_ram(&self, address: u16) -> (r: u8)
        requires
            0xA000 <= address <= 0xBFFF,
        ensures
            r == spec_cart_read_ram(self@, address),
    {
        match self {
            Cartridge::RomOnly(c) => c.read_ram(address),
            Cartridge::Mbc1(c) => c.read_ram(address),
            Cartridge::Mbc3(c) => c.read_ram(address),
        }
    }

    /// Write a byte into cartridge RAM space (0xA000..=0xBFFF).
    pub fn write_ram(&mut self, address: u16, value: u8)
        requires
            0xA000 <= address <= 0xBFFF,
        ensures
            final(self)@ == spec_cart_write_ram(old(self)@, address, value),
    {
        match self {
            Cartridge::RomOnly(c) => c.write_ram(address, value),
            Cartridge::Mbc1(c) => c.write_ram(address, value),
            Cartridge::Mbc3(c) => c.write_ram(address, value),
        }
    }

    /// Read a byte from ROM space (0x0000..=0x7FFF) through the selected
    /// bank.
    pub fn read_rom(&self, address: u16) -> (r: u8)
        requires
            address <= 0x7FFF,
        ensures
            r == spec_cart_read_rom(self@, address),
    {
        match self {
            Cartridge::RomOnly(c) => c.read_rom(address),
            Cartridge::Mbc1(c) => c.read_rom(address),
            Cartridge::Mbc3(c) => c.read_rom(address),
        }
    }

    /// Write into ROM space (0x0000..=0x7FFF): a control command to the bank
    /// controller, never a data write.
    pub fn write_rom(&mut self, address: u16, value: u8)
        requires
            address <= 0x7FFF,
        ensures
            final(self)@ == spec_cart_write_rom(old(self)@, address, value),
    {
        match self {
            Cartridge::RomOnly(c) => c.write_rom(address, value),
            Cartridge::Mbc1(c) => c.write_rom(address, value),
            Cartridge::Mbc3(c) => c.write_rom(address, value),
        }
    }

    /// Advance per-cycle cartridge state. Only MBC3 has any: its clock is
    /// refreshed against `now`, in seconds.
    pub fn step(&mut self, _ticks: u8, now: u64)
        ensures
            final(self)@ == spec_cart_step(old(self)@, now),
    {
        match self {
            Cartridge::RomOnly(_) => (),
            Cartridge::Mbc1(_) => (),
            Cartridge::Mbc3(c) => c.step(now),
        }
    }

    /// The RAM image to persist at shutdown: the RAM contents for a
    /// battery-backed cartridge, nothing otherwise.
    pub fn save(&self) -> (r: Option<&Vec<u8>>)
        ensures
            r is Some <==> (match self@ {
                CartridgeView::RomOnly(_) => false,
                CartridgeView::Mbc1(c) => c.has_battery,
                CartridgeView::Mbc3(c) => c.has_battery,
            }),
            r matches Some(ram) ==> (match self@ {
                CartridgeView::RomOnly(_) => false,
                CartridgeView::Mbc1(c) => ram@ == c.ram,
                CartridgeView::Mbc3(c) => ram@ == c.ram,
            }),
    {
        match self {
            Cartridge::RomOnly(_) => None,
            Cartridge::Mbc1(c) => c.save(),
            Cartridge::Mbc3(c) => c.save(),
        }
    }

    /// Re-anchor the MBC3 clock at the given time, as at power-on; no other
    /// controller keeps time.
    pub fn anchor_clock(&mut self, now: u64)
        ensures
            final(self)@ == (match old(self)@ {
                CartridgeView::RomOnly(c) => CartridgeView::RomOnly(c),
                CartridgeView::Mbc1(c) => CartridgeView::Mbc1(c),
                CartridgeView::Mbc3(c) => CartridgeView::Mbc3(
                    mbc3::Mbc3View {
                        clock_seconds: now,
                        rtc: (rtc::RTC {
                            zero: now,
                            seconds: 0,
                            minutes: 0,
                            hours: 0,
                            days: (rtc::Days(0)),
                            latched: None,
                        }),
                        ..c
                    },
                ),
            }),
    {
        match self {
            Cartridge::RomOnly(_) => (),
            Cartridge::Mbc1(_) => (),
            Cartridge::Mbc3(c) => c.anchor_clock(now),
        }
    }
}

/// Build the cartridge the header calls for. `loaded_ram` is the persisted
/// RAM image for a battery-backed cartridge (`None` when there is no save
/// yet); a vector of the wrong length is ignored in favour of zeroed RAM.
pub fn create_cartridge(rom: Vec<u8>, loaded_ram: Option<Vec<u8>>) -> (r: Cartridge)
    requires
        spec_header_valid(rom@),
    ensures
        r@ is RomOnly <==> spec_cartridge_type(rom@[0x147]) == Some(CartridgeType::ROMOnly),
        r@ is Mbc1 <==> (spec_cartridge_type(rom@[0x147]) == Some(CartridgeType::MBC1)
            || spec_cartridge_type(rom@[0x147]) == Some(CartridgeType::MBC1Battery)),
        r@ is Mbc3 <==> (spec_cartridge_type(rom@[0x147]) == Some(CartridgeType::MBC3)
            || spec_cartridge_type(rom@[0x147]) == Some(CartridgeType::MBC3Battery)),
        r@ matches CartridgeView::Mbc1(c) ==> c.has_battery == (spec_cartridge_type(rom@[0x147])
            == Some(CartridgeType::MBC1Battery)),
        r@ matches CartridgeView::Mbc3(c) ==> c.has_battery == (spec_cartridge_type(rom@[0x147])
            == Some(CartridgeType::MBC3Battery)),
{
    let header = Header::new(&rom);

    match header.cartridge_type {
        CartridgeType::ROMOnly => Cartridge::RomOnly(NoMBC::new(rom)),
        CartridgeType::MBC1 => Cartridge::Mbc1(MBC1::new(rom, None)),
        CartridgeType::MBC1Battery => Cartridge::Mbc1(
            MBC1::new(
                rom,
                Some(
                    match loaded_ram {
                        Some(v) => v,
                        None => Vec::new(),
                    },
                ),
            ),
        ),
        CartridgeType::MBC3 => Cartridge::Mbc3(MBC3::new(rom, None)),
        CartridgeType::MBC3Battery => Cartridge::Mbc3(
            MBC3::new(
                rom,
                Some(
                    match loaded_ram {
                        Some(v) => v,
                        None => Vec::new(),
                    },
                ),
            ),
        ),
    }
}

/// A zero-filled byte vector of the given length.
pub fn zeroed(len: usize) -> (r: Vec<u8>)
    ensures
        r@ == Seq::new(len as nat, |i: int| 0u8),
{
    let mut ram: Vec<u8> = Vec::new();
    let mut i: usize = 0;
    while i < len
        invariant
            i <= len,
            ram@ == Seq::new(i as nat, |j: int| 0u8),
        decreases len - i,
    {
        ram.push(0);
        i = i + 1;
        proof {
            assert(ram@ =~= Seq::new(i as nat, |j: int| 0u8));
        }
    }
    ram
}

/// Keep a loaded RAM image only when it has exactly the expected size;
/// anything else (including no image at all) becomes zeroed RAM, so a
/// corrupt save degrades to a fresh one.
pub fn valid_ram(suspect_ram: Option<Vec<u8>>, ram_banks: usize) -> (r: Vec<u8>)
    requires
        ram_banks <= 16,
    ensures
        r@.len() == 0x2000 * ram_banks,
        match suspect_ram {
            Some(v) => if v@.len() == 0x2000 * ram_banks {
                r@ == v@
            } else {
                r@ == Seq::new((0x2000 * ram_banks) as nat, |i: int| 0u8)
            },
            None => r@ == Seq::new((0x2000 * ram_banks) as nat, |i: int| 0u8),
        },
{
    let expected = 0x2000 * ram_banks;
    match suspect_ram {
        Some(v) => {
            if v.len() == expected {
                v
            } else {
                zeroed(expected)
            }
        },
        None => zeroed(expected),
    }
}

} // verus!
