//! The LR35902 register file: eight 8-bit registers viewable as four 16-bit
//! pairs, the stack pointer, the program counter, and the four status flags
//! held in the upper nibble of F.

use vstd::prelude::*;

verus! {

/// The eight 8-bit registers. F is the flag register; its low nibble always
/// reads as zero.
#[derive(Clone, Copy, Debug)]
pub enum EightBitRegister {
    A,
    F,
    B,
    C,
    D,
    E,
    H,
    L,
}

/// The 16-bit register views: four pairs of 8-bit registers plus the stack
/// pointer and the program counter.
#[derive(Clone, Copy, Debug)]
pub enum SixteenBitRegister {
    AF,
    BC,
    DE,
    HL,
    SP,
    PC,
}

/// The register file. The four flags are held unpacked, so the low nibble of
/// F is zero by construction.
#[derive(Debug)]
pub struct Registers {
    pub a: u8,
    pub b: u8,
    pub c: u8,
    pub d: u8,
    pub e: u8,
    pub h: u8,
    pub l: u8,
    pub zf: bool,
    pub nf: bool,
    pub hf: bool,
    pub cf: bool,
    pub sp: u16,
    pub pc: u16,
}

impl Registers {
    pub open spec fn zero_flag(self) -> bool {
        self.zf
    }

    pub open spec fn subtract_flag(self) -> bool {
        self.nf
    }

    pub open spec fn half_carry_flag(self) -> bool {
        self.hf
    }

    pub open spec fn carry_flag(self) -> bool {
        self.cf
    }

    /// The byte that reading F yields: the four flags packed into the upper
    /// nibble, low nibble zero.
    pub open spec fn f_reg(self) -> u8 {
        ((if self.zf { 0x80int } else { 0int }) + (if self.nf { 0x40int } else { 0int })
            + (if self.hf { 0x20int } else { 0int }) + (if self.cf { 0x10int } else {
            0int
        })) as u8
    }

    pub open spec fn a_reg(self) -> u8 {
        self.a
    }

    pub open spec fn b_reg(self) -> u8 {
        self.b
    }

    pub open spec fn c_reg(self) -> u8 {
        self.c
    }

    pub open spec fn d_reg(self) -> u8 {
        self.d
    }

    pub open spec fn e_reg(self) -> u8 {
        self.e
    }

    pub open spec fn h_reg(self) -> u8 {
        self.h
    }

    pub open spec fn l_reg(self) -> u8 {
        self.l
    }

    pub open spec fn sp_reg(self) -> u16 {
        self.sp
    }

    pub open spec fn pc_reg(self) -> u16 {
        self.pc
    }

    /// The value an 8-bit register read yields.
    pub open spec fn spec_eight(self, register: EightBitRegister) -> u8 {
        match register {
            EightBitRegister::A => self.a,
            EightBitRegister::F => self.f_reg(),
            EightBitRegister::B => self.b,
            EightBitRegister::C => self.c,
            EightBitRegister::D => self.d,
            EightBitRegister::E => self.e,
            EightBitRegister::H => self.h,
            EightBitRegister::L => self.l,
        }
    }

    /// The value a 16-bit register read yields: pairs are high byte times 256
    /// plus low byte.
    pub open spec fn spec_sixteen(self, register: SixteenBitRegister) -> u16 {
        match register {
            SixteenBitRegister::AF => (self.a * 256 + self.f_reg()) as u16,
            SixteenBitRegister::BC => (self.b * 256 + self.c) as u16,
            SixteenBitRegister::DE => (self.d * 256 + self.e) as u16,
            SixteenBitRegister::HL => (self.h * 256 + self.l) as u16,
            SixteenBitRegister::SP => self.sp,
            SixteenBitRegister::PC => self.pc,
        }
    }

    /// The register file after an 8-bit write. A write to F keeps only the
    /// upper nibble of the written byte.
    pub open spec fn spec_write_eight(self, register: EightBitRegister, value: u8) -> Registers {
        match register {
            EightBitRegister::A => Registers { a: value, ..self },
            EightBitRegister::F => Registers {
                zf: value & 0x80 != 0,
                nf: value & 0x40 != 0,
                hf: value & 0x20 != 0,
                cf: value & 0x10 != 0,
                ..self
            },
            EightBitRegister::B => Registers { b: value, ..self },
            EightBitRegister::C => Registers { c: value, ..self },
            EightBitRegister::D => Registers { d: value, ..self },
            EightBitRegister::E => Registers { e: value, ..self },
            EightBitRegister::H => Registers { h: value, ..self },
            EightBitRegister::L => Registers { l: value, ..self },
        }
    }

    /// The register file after a 16-bit write: both halves of a pair are set
    /// atomically; a write to AF masks the low nibble off through F.
    pub open spec fn spec_write_sixteen(self, register: SixteenBitRegister, value: u16) -> Registers {
        match register {
            SixteenBitRegister::AF => self.spec_write_eight(
                EightBitRegister::A,
                (value / 256) as u8,
            ).spec_write_eight(EightBitRegister::F, (value % 256) as u8),
            SixteenBitRegister::BC => Registers {
                b: (value / 256) as u8,
                c: (value % 256) as u8,
                ..self
            },
            SixteenBitRegister::DE => Registers {
                d: (value / 256) as u8,
                e: (value % 256) as u8,
                ..self
            },
            SixteenBitRegister::HL => Registers {
                h: (value / 256) as u8,
                l: (value % 256) as u8,
                ..self
            },
            SixteenBitRegister::SP => Registers { sp: value, ..self },
            SixteenBitRegister::PC => Registers { pc: value, ..self },
        }
    }

    /// Post-boot register state: AF=0x01B0, BC=0x0013, DE=0x00D8, HL=0x014D,
    /// SP=0xFFFE, PC=0x0100.
    pub fn new() -> (r: Registers)
        ensures
            r.a_reg() == 0x01,
            r.f_reg() == 0xB0,
            r.b_reg() == 0x00,
            r.c_reg() == 0x13,
            r.d_reg() == 0x00,
            r.e_reg() == 0xD8,
            r.h_reg() == 0x01,
            r.l_reg() == 0x4D,
            r.sp_reg() == 0xFFFE,
            r.pc_reg() == 0x0100,
            r.zero_flag(),
            !r.subtract_flag(),
            r.half_carry_flag(),
            r.carry_flag(),
    {
        Registers {
            a: 0x01,
            b: 0x00,
            c: 0x13,
            d: 0x00,
            e: 0xD8,
            h: 0x01,
            l: 0x4D,
            zf: true,
            nf: false,
            hf: true,
            cf: true,
            sp: 0xFFFE,
            pc: 0x0100,
        }
    }

    pub fn read_eight(&self, register: EightBitRegister) -> (r: u8)
        ensures
            r == self.spec_eight(register),
    {
        match register {
            EightBitRegister::A => self.a,
            EightBitRegister::F => self.f_byte(),
            EightBitRegister::B => self.b,
            EightBitRegister::C => self.c,
            EightBitRegister::D => self.d,
            EightBitRegister::E => self.e,
            EightBitRegister::H => self.h,
            EightBitRegister::L => self.l,
        }
    }

    fn f_byte(&self) -> (r: u8)
        ensures
            r == self.f_reg(),
    {
        let mut value: u8 = 0;
        if self.zf {
            value = value + 0x80;
        }
        if self.nf {
            value = value + 0x40;
        }
        if self.hf {
            value = value + 0x20;
        }
        if self.cf {
            value = value + 0x10;
        }
        value
    }

    pub fn read_sixteen(&self, register: SixteenBitRegister) -> (r: u16)
        ensures
            r == self.spec_sixteen(register),
    {
        match register {
            SixteenBitRegister::AF => self.a as u16 * 256 + self.f_byte() as u16,
            SixteenBitRegister::BC => self.b as u16 * 256 + self.c as u16,
            SixteenBitRegister::DE => self.d as u16 * 256 + self.e as u16,
            SixteenBitRegister::HL => self.h as u16 * 256 + self.l as u16,
            SixteenBitRegister::SP => self.sp,
            SixteenBitRegister::PC => self.pc,
        }
    }

    pub fn write_eight(&mut self, register: EightBitRegister, value: u8)
        ensures
            *final(self) == old(self).spec_write_eight(register, value),
    {
        match register {
            EightBitRegister::A => {
                self.a = value;
            },
            EightBitRegister::F => {
                self.zf = value & 0x80 != 0;
                self.nf = value & 0x40 != 0;
                self.hf = value & 0x20 != 0;
                self.cf = value & 0x10 != 0;
            },
            EightBitRegister::B => {
                self.b = value;
            },
            EightBitRegister::C => {
                self.c = value;
            },
            EightBitRegister::D => {
                self.d = value;
            },
            EightBitRegister::E => {
                self.e = value;
            },
            EightBitRegister::H => {
                self.h = value;
            },
            EightBitRegister::L => {
                self.l = value;
            },
        }
    }

    pub fn write_sixteen(&mut self, register: SixteenBitRegister, value: u16)
        ensures
            *final(self) == old(self).spec_write_sixteen(register, value),
    {
        let high = (value / 256) as u8;
        let low = (value % 256) as u8;
        match register {
            SixteenBitRegister::AF => {
                self.write_eight(EightBitRegister::A, high);
                self.write_eight(EightBitRegister::F, low);
            },
            SixteenBitRegister::BC => {
                self.b = high;
                self.c = low;
            },
            SixteenBitRegister::DE => {
                self.d = high;
                self.e = low;
            },
            SixteenBitRegister::HL => {
                self.h = high;
                self.l = low;
            },
            SixteenBitRegister::SP => {
                self.sp = value;
            },
            SixteenBitRegister::PC => {
                self.pc = value;
            },
        }
    }


    /// Read a register, pass it through the caller's function, and write the
    /// result back.
    pub fn update_eight<F: Fn(u8) -> u8>(&mut self, register: EightBitRegister, updator: F)
        requires
            forall|v: u8| #[trigger] updator.requires((v,)),
        ensures
            exists|r: u8|
                updator.ensures((old(self).spec_eight(register),), r) && *final(self) == old(
                    self,
                ).spec_write_eight(register, r),
    {
        let value = self.read_eight(register);
        let updated = updator(value);
        self.write_eight(register, updated);
    }

    /// Read a 16-bit register, pass it through the caller's function, and
    /// write the result back.
    pub fn update_sixteen<F: Fn(u16) -> u16>(&mut self, register: SixteenBitRegister, updator: F)
        requires
            forall|v: u16| #[trigger] updator.requires((v,)),
        ensures
            exists|r: u16|
                updator.ensures((old(self).spec_sixteen(register),), r) && *final(self) == old(
                    self,
                ).spec_write_sixteen(register, r),
    {
        let value = self.read_sixteen(register);
        let updated = updator(value);
        self.write_sixteen(register, updated);
    }

    pub fn set_zero_flag(&mut self, value: bool)
        ensures
            *final(self) == (Registers { zf: value, ..*old(self) }),
    {
        self.zf = value;
    }

    pub fn get_zero_flag(&self) -> (r: bool)
        ensures
            r == self.zero_flag(),
    {
        self.zf
    }

    pub fn set_subtract_flag(&mut self, value: bool)
        ensures
            *final(self) == (Registers { nf: value, ..*old(self) }),
    {
        self.nf = value;
    }

    pub fn get_subtract_flag(&self) -> (r: bool)
        ensures
            r == self.subtract_flag(),
    {
        self.nf
    }

    pub fn set_half_carry_flag(&mut self, value: bool)
        ensures
            *final(self) == (Registers { hf: value, ..*old(self) }),
    {
        self.hf = value;
    }

    pub fn get_half_carry_flag(&self) -> (r: bool)
        ensures
            r == self.half_carry_flag(),
    {
        self.hf
    }

    pub fn set_carry_flag(&mut self, value: bool)
        ensures
            *final(self) == (Registers { cf: value, ..*old(self) }),
    {
        self.cf = value;
    }

    pub fn get_carry_flag(&self) -> (r: bool)
        ensures
            r == self.carry_flag(),
    {
        self.cf
    }
}

/// The low nibble of F is zero in every register state: reading F always
/// yields a multiple of 16.
pub proof fn lemma_f_low_nibble_zero(r: Registers)
    ensures
        r.f_reg() & 0x0F == 0,
        r.f_reg() % 16 == 0,
{
    assert(r.f_reg() % 16 == 0);
    lemma_u8_low_nibble(r.f_reg());
}

/// For every byte, masking with 0x0F agrees with taking the remainder mod 16.
pub proof fn lemma_u8_low_nibble(x: u8)
    by (bit_vector)
    ensures
        x & 0x0F == x % 16,
{
}

} // verus!
