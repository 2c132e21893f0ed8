use vstd::prelude::*;

verus! {

/// One of the four condition flags kept in the high nibble of F.
#[derive(Clone, Copy, Debug, PartialEq, Eq, Structural)]
pub enum Flag {
    /// Zero.
    Z,
    /// Subtract.
    S,
    /// Half carry.
    H,
    /// Carry.
    C,
}

pub const MASK_Z: u8 = 0x80;

pub const MASK_N: u8 = 0x40;

pub const MASK_H: u8 = 0x20;

pub const MASK_C: u8 = 0x10;

impl Flag {
    pub open spec fn spec_mask(self) -> u8 {
        match self {
            Flag::Z => MASK_Z,
            Flag::S => MASK_N,
            Flag::H => MASK_H,
            Flag::C => MASK_C,
        }
    }

    /// The bit of F that holds this flag.
    pub fn mask(self) -> (r: u8)
        ensures
            r == self.spec_mask(),
    {
        match self {
            Flag::Z => MASK_Z,
            Flag::S => MASK_N,
            Flag::H => MASK_H,
            Flag::C => MASK_C,
        }
    }
}

/// `f` with the bit `mask` set when `on` holds and cleared otherwise.
pub open spec fn with_flag(f: u8, mask: u8, on: bool) -> u8 {
    if on {
        f | mask
    } else {
        f & (mask ^ 0xFF)
    }
}

/// `f` with all four flags replaced, the low nibble kept.
pub open spec fn with_flags(f: u8, z: bool, n: bool, h: bool, c: bool) -> u8 {
    with_flag(with_flag(with_flag(with_flag(f, MASK_Z, z), MASK_N, n), MASK_H, h), MASK_C, c)
}

/// Whether the bit `mask` is set in `f`.
pub open spec fn has_flag(f: u8, mask: u8) -> bool {
    f & mask != 0
}

/// The 16-bit value of a register pair, high byte first.
pub open spec fn pair(high: u8, low: u8) -> u16 {
    (high as u16) << 8 | low as u16
}

pub open spec fn high_byte(v: u16) -> u8 {
    (v >> 8) as u8
}

pub open spec fn low_byte(v: u16) -> u8 {
    v as u8
}

/// Splitting a word into its bytes and joining them again gives the word back.
pub proof fn lemma_pair_split(v: u16)
    ensures
        pair(high_byte(v), low_byte(v)) == v,
{
    assert(((((v >> 8) as u8) as u16) << 8 | ((v as u8) as u16)) == v) by (bit_vector);
}

/// Setting or clearing one flag leaves the other bits of F alone, and the flag reads back as
/// it was set.
pub proof fn lemma_with_flags(f: u8, z: bool, n: bool, h: bool, c: bool)
    by (bit_vector)
    ensures
        has_flag(with_flags(f, z, n, h, c), MASK_Z) == z,
        has_flag(with_flags(f, z, n, h, c), MASK_N) == n,
        has_flag(with_flags(f, z, n, h, c), MASK_H) == h,
        has_flag(with_flags(f, z, n, h, c), MASK_C) == c,
        with_flags(f, z, n, h, c) & 0x0F == f & 0x0F,
{
}

/// Setting or clearing one of the four flags keeps the low nibble of F.
pub proof fn lemma_with_flag_low(f: u8, mask: u8, on: bool)
    by (bit_vector)
    requires
        mask == MASK_Z || mask == MASK_N || mask == MASK_H || mask == MASK_C,
    ensures
        with_flag(f, mask, on) & 0x0F == f & 0x0F,
{
}

/// The eight 8-bit registers, the program counter and the stack pointer.
#[derive(Clone, Copy, Debug)]
pub struct Registers {
    pub a: u8,
    pub b: u8,
    pub c: u8,
    pub d: u8,
    pub e: u8,
    pub h: u8,
    pub l: u8,
    pub f: u8,
    pub pc: u16,
    pub sp: u16,
}

impl Registers {
    /// The register file as the boot program leaves it.
    pub open spec fn reset() -> Registers {
        Registers {
            a: 0x01,
            b: 0x00,
            c: 0x13,
            d: 0x00,
            e: 0xD8,
            h: 0x01,
            l: 0x4D,
            f: 0xB0,
            pc: 0x0100,
            sp: 0xFFFE,
        }
    }

    /// F keeps its low nibble clear.
    pub open spec fn wf(self) -> bool {
        self.f & 0x0F == 0
    }

    pub open spec fn flag(self, mask: Flag) -> bool {
        has_flag(self.f, mask.spec_mask())
    }

    pub open spec fn spec_bc(self) -> u16 {
        pair(self.b, self.c)
    }

    pub open spec fn spec_de(self) -> u16 {
        pair(self.d, self.e)
    }

    pub open spec fn spec_hl(self) -> u16 {
        pair(self.h, self.l)
    }

    pub open spec fn spec_af(self) -> u16 {
        pair(self.a, self.f)
    }

    pub open spec fn with_bc(self, v: u16) -> Registers {
        Registers { b: high_byte(v), c: low_byte(v), ..self }
    }

    pub open spec fn with_de(self, v: u16) -> Registers {
        Registers { d: high_byte(v), e: low_byte(v), ..self }
    }

    pub open spec fn with_hl(self, v: u16) -> Registers {
        Registers { h: high_byte(v), l: low_byte(v), ..self }
    }

    pub open spec fn with_af(self, v: u16) -> Registers {
        Registers { a: high_byte(v), f: low_byte(v) & 0xF0, ..self }
    }

    pub open spec fn with_flags(self, z: bool, n: bool, h: bool, c: bool) -> Registers {
        Registers { f: with_flags(self.f, z, n, h, c), ..self }
    }

    pub fn new() -> (r: Registers)
        ensures
            r == Registers::reset(),
            r.wf(),
    {
        let r = Registers {
            a: 0x01,
            b: 0x00,
            c: 0x13,
            d: 0x00,
            e: 0xD8,
            h: 0x01,
            l: 0x4D,
            f: 0xB0,
            pc: 0x0100,
            sp: 0xFFFE,
        };
        assert(0xB0u8 & 0x0F == 0) by (bit_vector);
        r
    }

    /// Sets the flag `mask` when `flag` holds and clears it otherwise.
    pub fn set_flag(&mut self, mask: Flag, flag: bool)
        ensures
            *final(self) == (Registers { f: with_flag(old(self).f, mask.spec_mask(), flag), ..*old(self) }),
            final(self).f & 0x0F == old(self).f & 0x0F,
    {
        proof {
            lemma_with_flag_low(self.f, mask.spec_mask(), flag);
        }
        if flag {
            self.f = self.f | mask.mask();
        } else {
            self.f = self.f & (mask.mask() ^ 0xFF);
        }
    }

    /// Replaces all four flags.
    pub fn set_flags(&mut self, z: bool, n: bool, h: bool, c: bool)
        ensures
            *final(self) == old(self).with_flags(z, n, h, c),
            final(self).f & 0x0F == old(self).f & 0x0F,
    {
        self.set_flag(Flag::Z, z);
        self.set_flag(Flag::S, n);
        self.set_flag(Flag::H, h);
        self.set_flag(Flag::C, c);
    }

    pub fn zero(&self) -> (r: bool)
        ensures
            r == self.flag(Flag::Z),
    {
        self.f & MASK_Z != 0
    }

    pub fn subtract(&self) -> (r: bool)
        ensures
            r == self.flag(Flag::S),
    {
        self.f & MASK_N != 0
    }

    pub fn half_carry(&self) -> (r: bool)
        ensures
            r == self.flag(Flag::H),
    {
        self.f & MASK_H != 0
    }

    pub fn carry(&self) -> (r: bool)
        ensures
            r == self.flag(Flag::C),
    {
        self.f & MASK_C != 0
    }

    pub fn bc(&self) -> (r: u16)
        ensures
            r == self.spec_bc(),
    {
        (self.b as u16) << 8 | self.c as u16
    }

    pub fn de(&self) -> (r: u16)
        ensures
            r == self.spec_de(),
    {
        (self.d as u16) << 8 | self.e as u16
    }

    pub fn hl(&self) -> (r: u16)
        ensures
            r == self.spec_hl(),
    {
        (self.h as u16) << 8 | self.l as u16
    }

    pub fn af(&self) -> (r: u16)
        ensures
            r == self.spec_af(),
    {
        (self.a as u16) << 8 | self.f as u16
    }

    pub fn set_bc(&mut self, value: u16)
        ensures
            *final(self) == old(self).with_bc(value),
            final(self).spec_bc() == value,
    {
        self.b = (value >> 8) as u8;
        self.c = value as u8;
        proof {
            lemma_pair_split(value);
        }
    }

    pub fn set_de(&mut self, value: u16)
        ensures
            *final(self) == old(self).with_de(value),
            final(self).spec_de() == value,
    {
        self.d = (value >> 8) as u8;
        self.e = value as u8;
        proof {
            lemma_pair_split(value);
        }
    }

    pub fn set_hl(&mut self, value: u16)
        ensures
            *final(self) == old(self).with_hl(value),
            final(self).spec_hl() == value,
    {
        self.h = (value >> 8) as u8;
        self.l = value as u8;
        proof {
            lemma_pair_split(value);
        }
    }

    /// Loads A and F from a word; the low nibble of F stays clear.
    pub fn set_af(&mut self, value: u16)
        ensures
            *final(self) == old(self).with_af(value),
            final(self).spec_af() == value & 0xFFF0,
            final(self).wf(),
    {
        self.a = (value >> 8) as u8;
        self.f = (value as u8) & 0xF0;
        assert((((value >> 8) as u8) as u16) << 8 | (((value as u8) & 0xF0) as u16) == value
            & 0xFFF0) by (bit_vector);
        assert(((value as u8) & 0xF0) & 0x0F == 0) by (bit_vector);
    }
}

} // verus!
