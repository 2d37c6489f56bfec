//! The register file: seven 8-bit registers and the flags, with the 16-bit
//! pair views BC, DE, HL and AF, which are computed, never stored.
use vstd::prelude::*;

use crate::flags::{decode, encode, lemma_encode_decode, FlagsRegister};

verus! {

/// The register that supplies the operand of an arithmetic/logic instruction.
#[derive(Clone, Copy, Debug, PartialEq, Eq, Structural)]
pub enum ArithmeticTarget {
    A,
    B,
    C,
    D,
    E,
    H,
    L,
}

/// The register file. Each register holds a byte; the flags are kept as
/// four booleans.
#[derive(Clone, Copy, Debug, PartialEq, Eq, Structural)]
pub struct Registers {
    pub a: u8,
    pub b: u8,
    pub c: u8,
    pub d: u8,
    pub e: u8,
    pub f: FlagsRegister,
    pub h: u8,
    pub l: u8,
}

/// The 16-bit value with `hi` as its high byte and `lo` as its low byte.
pub open spec fn pair(hi: u8, lo: u8) -> u16 {
    (hi * 256 + lo) as u16
}

/// The high byte of a 16-bit value.
pub open spec fn high_byte(v: u16) -> u8 {
    (v / 256) as u8
}

/// The low byte of a 16-bit value.
pub open spec fn low_byte(v: u16) -> u8 {
    (v % 256) as u8
}

impl Registers {
    /// The value of the register named by `t`.
    pub open spec fn value_of(self, t: ArithmeticTarget) -> u8 {
        match t {
            ArithmeticTarget::A => self.a,
            ArithmeticTarget::B => self.b,
            ArithmeticTarget::C => self.c,
            ArithmeticTarget::D => self.d,
            ArithmeticTarget::E => self.e,
            ArithmeticTarget::H => self.h,
            ArithmeticTarget::L => self.l,
        }
    }

    /// These registers with the one named by `t` replaced by `v`.
    pub open spec fn with_value(self, t: ArithmeticTarget, v: u8) -> Registers {
        match t {
            ArithmeticTarget::A => Registers { a: v, ..self },
            ArithmeticTarget::B => Registers { b: v, ..self },
            ArithmeticTarget::C => Registers { c: v, ..self },
            ArithmeticTarget::D => Registers { d: v, ..self },
            ArithmeticTarget::E => Registers { e: v, ..self },
            ArithmeticTarget::H => Registers { h: v, ..self },
            ArithmeticTarget::L => Registers { l: v, ..self },
        }
    }

    /// The BC view: B high, C low.
    pub open spec fn bc(self) -> u16 {
        pair(self.b, self.c)
    }

    /// The DE view: D high, E low.
    pub open spec fn de(self) -> u16 {
        pair(self.d, self.e)
    }

    /// The HL view: H high, L low.
    pub open spec fn hl(self) -> u16 {
        pair(self.h, self.l)
    }

    /// The AF view: A high, the packed flags low.
    pub open spec fn af(self) -> u16 {
        pair(self.a, encode(self.f))
    }

    /// These registers after writing `v` to BC.
    pub open spec fn with_bc(self, v: u16) -> Registers {
        Registers { b: high_byte(v), c: low_byte(v), ..self }
    }

    /// These registers after writing `v` to DE.
    pub open spec fn with_de(self, v: u16) -> Registers {
        Registers { d: high_byte(v), e: low_byte(v), ..self }
    }

    /// These registers after writing `v` to HL.
    pub open spec fn with_hl(self, v: u16) -> Registers {
        Registers { h: high_byte(v), l: low_byte(v), ..self }
    }

    /// These registers after writing `v` to AF: the low byte goes through
    /// the flags decoding.
    pub open spec fn with_af(self, v: u16) -> Registers {
        Registers { a: high_byte(v), f: decode(low_byte(v)), ..self }
    }
}

/// Joins two bytes into a 16-bit value, `hi` in the upper byte.
fn join(hi: u8, lo: u8) -> (r: u16)
    ensures
        r == pair(hi, lo),
{
    let r = (hi as u16) << 8 | lo as u16;
    assert(r == hi * 256 + lo) by (bit_vector)
        requires
            r == (hi as u16) << 8u16 | lo as u16,
    ;
    r
}

/// Splits a 16-bit value into its high and low bytes.
fn split(value: u16) -> (r: (u8, u8))
    ensures
        r.0 == high_byte(value),
        r.1 == low_byte(value),
{
    let hi = ((value & 0xFF00) >> 8) as u8;
    let lo = (value & 0xFF) as u8;
    assert(((value & 0xFF00) >> 8u16) == value / 256 && (value & 0xFF) == value % 256)
        by (bit_vector);
    (hi, lo)
}

impl Registers {
    /// Reads BC: B high, C low.
    pub fn get_bc(&self) -> (r: u16)
        ensures
            r == self.bc(),
    {
        join(self.b, self.c)
    }

    /// Writes BC: the high byte to B, the low byte to C.
    pub fn set_bc(&mut self, value: u16)
        ensures
            *final(self) == old(self).with_bc(value),
    {
        let (hi, lo) = split(value);
        self.b = hi;
        self.c = lo;
    }

    /// Reads AF: A high, the packed flags low (bits 3..0 always zero).
    pub fn get_af(&self) -> (r: u16)
        ensures
            r == self.af(),
    {
        let a = self.a;
        let lo = u16::from(self.f);
        let r = (a as u16) << 8 | lo;
        assert(r == a * 256 + lo) by (bit_vector)
            requires
                lo < 256,
                r == (a as u16) << 8u16 | lo,
        ;
        r
    }

    /// Writes AF: the high byte to A, the low byte decoded into the flags.
    pub fn set_af(&mut self, value: u16)
        ensures
            *final(self) == old(self).with_af(value),
    {
        let (hi, lo) = split(value);
        self.a = hi;
        self.f = FlagsRegister::from(lo);
    }

    /// Reads DE: D high, E low.
    pub fn get_de(&self) -> (r: u16)
        ensures
            r == self.de(),
    {
        join(self.d, self.e)
    }

    /// Writes DE: the high byte to D, the low byte to E.
    pub fn set_de(&mut self, value: u16)
        ensures
            *final(self) == old(self).with_de(value),
    {
        let (hi, lo) = split(value);
        self.d = hi;
        self.e = lo;
    }

    /// Reads HL: H high, L low.
    pub fn get_hl(&self) -> (r: u16)
        ensures
            r == self.hl(),
    {
        join(self.h, self.l)
    }

    /// Writes HL: the high byte to H, the low byte to L.
    pub fn set_hl(&mut self, value: u16)
        ensures
            *final(self) == old(self).with_hl(value),
    {
        let (hi, lo) = split(value);
        self.h = hi;
        self.l = lo;
    }
}

/// Writing a 16-bit value to BC and reading BC back gives that value;
/// the same holds of DE and HL.
pub proof fn lemma_pair_round_trip(r: Registers, x: u16)
    ensures
        r.with_bc(x).bc() == x,
        r.with_de(x).de() == x,
        r.with_hl(x).hl() == x,
{
}

/// Writing a 16-bit value to AF and reading AF back gives that value with
/// bits 3..0 cleared: the flags byte has no storage for them.
pub proof fn lemma_af_round_trip(r: Registers, x: u16)
    ensures
        r.with_af(x).af() == x & 0xFFF0,
{
    let lo = low_byte(x);
    lemma_encode_decode(lo);
    let hi = high_byte(x);
    assert(hi * 256 + (lo & 0xF0) == x & 0xFFF0) by (bit_vector)
        requires
            hi == x / 256,
            lo == x % 256,
    ;
}

} // verus!
