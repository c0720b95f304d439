//! The STAT register: the current pixel-pipeline mode in its low two bits,
//! the LY=LYC coincidence flag, and the four STAT-interrupt enables.

use vstd::prelude::*;

verus! {

/// The pixel pipeline's mode: HBlank (0), VBlank (1), the OAM scan (2) and
/// pixel drawing (3).
#[derive(Debug, Copy, Clone, PartialEq, Eq, Structural)]
pub enum PPUMode {
    HBlank,
    VBlank,
    Oam,
    Drawing,
}

/// The two-bit code a mode is stored as.
pub open spec fn spec_mode_code(mode: PPUMode) -> u8 {
    match mode {
        PPUMode::HBlank => 0,
        PPUMode::VBlank => 1,
        PPUMode::Oam => 2,
        PPUMode::Drawing => 3,
    }
}

/// The mode a two-bit code stands for.
pub open spec fn spec_mode_from_code(code: u8) -> PPUMode {
    if code == 0 {
        PPUMode::HBlank
    } else if code == 1 {
        PPUMode::VBlank
    } else if code == 2 {
        PPUMode::Oam
    } else {
        PPUMode::Drawing
    }
}

/// The STAT register:
/// - bit 6: LY=LYC interrupt enable;
/// - bit 5: mode-2 (OAM) interrupt enable;
/// - bit 4: mode-1 (VBlank) interrupt enable;
/// - bit 3: mode-0 (HBlank) interrupt enable;
/// - bit 2: coincidence flag, set while LY equals LYC;
/// - bits 1..0: the current mode.
#[derive(Debug)]
pub struct LCDStatus(pub u8);

impl LCDStatus {
    pub open spec fn spec_lyc_ly_stat_ie(self) -> bool {
        self.0 & 0b01000000 != 0
    }

    pub open spec fn spec_oam_stat_ie(self) -> bool {
        self.0 & 0b00100000 != 0
    }

    pub open spec fn spec_vblank_stat_ie(self) -> bool {
        self.0 & 0b00010000 != 0
    }

    pub open spec fn spec_hblank_stat_ie(self) -> bool {
        self.0 & 0b00001000 != 0
    }

    pub open spec fn spec_ppu_mode(self) -> PPUMode {
        spec_mode_from_code(self.0 & 0b11)
    }

    pub fn new() -> (r: LCDStatus)
        ensures
            r.0 == 0,
    {
        LCDStatus(0)
    }

    pub fn read(&self) -> (r: u8)
        ensures
            r == self.0,
    {
        self.0
    }

    pub fn write(&mut self, value: u8)
        ensures
            final(self).0 == value,
    {
        self.0 = value;
    }

    /// Whether the LY=LYC STAT interrupt is enabled.
    pub fn lyc_ly_stat_ie(&self) -> (r: bool)
        ensures
            r == self.spec_lyc_ly_stat_ie(),
    {
        self.0 & 0b01000000 != 0
    }

    /// Whether entering the OAM scan raises a STAT interrupt.
    pub fn oam_stat_ie(&self) -> (r: bool)
        ensures
            r == self.spec_oam_stat_ie(),
    {
        self.0 & 0b00100000 != 0
    }

    /// Whether entering VBlank raises a STAT interrupt.
    pub fn vblank_stat_ie(&self) -> (r: bool)
        ensures
            r == self.spec_vblank_stat_ie(),
    {
        self.0 & 0b00010000 != 0
    }

    /// Whether entering HBlank raises a STAT interrupt.
    pub fn hblank_stat_ie(&self) -> (r: bool)
        ensures
            r == self.spec_hblank_stat_ie(),
    {
        self.0 & 0b00001000 != 0
    }

    /// The pixel pipeline's current mode.
    pub fn ppu_mode(&self) -> (r: PPUMode)
        ensures
            r == self.spec_ppu_mode(),
    {
        broadcast use crate::bitmath::lemma_u8_low2_mask;

        match self.0 & 0b11 {
            0 => PPUMode::HBlank,
            1 => PPUMode::VBlank,
            2 => PPUMode::Oam,
            _ => PPUMode::Drawing,
        }
    }

    /// Store a new mode in the low two bits.
    pub fn set_ppu_mode(&mut self, mode: PPUMode)
        ensures
            final(self).0 == (old(self).0 & !0x3) | spec_mode_code(mode),
            final(self).spec_ppu_mode() == mode,
            final(self).spec_lyc_ly_stat_ie() == old(self).spec_lyc_ly_stat_ie(),
            final(self).spec_oam_stat_ie() == old(self).spec_oam_stat_ie(),
            final(self).spec_vblank_stat_ie() == old(self).spec_vblank_stat_ie(),
            final(self).spec_hblank_stat_ie() == old(self).spec_hblank_stat_ie(),
    {
        let value: u8 = match mode {
            PPUMode::HBlank => 0,
            PPUMode::VBlank => 1,
            PPUMode::Oam => 2,
            PPUMode::Drawing => 3,
        };

        self.0 = (self.0 & !0x3) | value;
        proof {
            lemma_set_mode_bits(old(self).0, value);
        }
    }

    /// Record whether LY currently equals LYC in the coincidence flag.
    pub fn set_lyc_eq_ly(&mut self, value: bool)
        ensures
            final(self).0 == (if value {
                old(self).0 | 0b00000100
            } else {
                old(self).0 & !0b00000100
            }),
            final(self).spec_ppu_mode() == old(self).spec_ppu_mode(),
            final(self).spec_lyc_ly_stat_ie() == old(self).spec_lyc_ly_stat_ie(),
            final(self).spec_oam_stat_ie() == old(self).spec_oam_stat_ie(),
            final(self).spec_vblank_stat_ie() == old(self).spec_vblank_stat_ie(),
            final(self).spec_hblank_stat_ie() == old(self).spec_hblank_stat_ie(),
    {
        if value {
            self.0 = self.0 | 0b00000100;
        } else {
            self.0 = self.0 & !0b00000100;
        }
        proof {
            lemma_set_coincidence_bit(old(self).0);
        }
    }
}

/// Replacing the low two bits leaves the enable bits alone and stores the
/// two-bit code exactly.
proof fn lemma_set_mode_bits(reg: u8, code: u8)
    by (bit_vector)
    requires
        code < 4,
    ensures
        ((reg & !0x3) | code) & 0b11 == code,
        ((reg & !0x3) | code) & 0b01000000 == reg & 0b01000000,
        ((reg & !0x3) | code) & 0b00100000 == reg & 0b00100000,
        ((reg & !0x3) | code) & 0b00010000 == reg & 0b00010000,
        ((reg & !0x3) | code) & 0b00001000 == reg & 0b00001000,
{
}

/// Setting or clearing bit 2 leaves the mode and enable bits alone.
proof fn lemma_set_coincidence_bit(reg: u8)
    by (bit_vector)
    ensures
        (reg | 0b100) & 0b11 == reg & 0b11,
        (reg & !0b100) & 0b11 == reg & 0b11,
        (reg | 0b100) & 0b01000000 == reg & 0b01000000,
        (reg & !0b100) & 0b01000000 == reg & 0b01000000,
        (reg | 0b100) & 0b00100000 == reg & 0b00100000,
        (reg & !0b100) & 0b00100000 == reg & 0b00100000,
        (reg | 0b100) & 0b00010000 == reg & 0b00010000,
        (reg & !0b100) & 0b00010000 == reg & 0b00010000,
        (reg | 0b100) & 0b00001000 == reg & 0b00001000,
        (reg & !0b100) & 0b00001000 == reg & 0b00001000,
{
}

} // verus!
