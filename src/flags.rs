//! The flags register: four booleans, packed on demand into the high nibble
//! of a byte (zero = bit 7, subtract = bit 6, half carry = bit 5,
//! carry = bit 4, bits 3..0 always clear).
use vstd::prelude::*;

verus! {

pub const ZERO_FLAG_BYTE_POSITION: u8 = 7;

pub const SUBTRACT_FLAG_BYTE_POSITION: u8 = 6;

pub const HALF_CARRY_FLAG_BYTE_POSITION: u8 = 5;

pub const CARRY_FLAG_BYTE_POSITION: u8 = 4;

/// The four condition flags. The booleans are the source of truth; the
/// packed byte is produced only when asked for.
#[derive(Clone, Copy, Debug, PartialEq, Eq, Structural)]
pub struct FlagsRegister {
    pub zero: bool,
    pub subtract: bool,
    pub half_carry: bool,
    pub carry: bool,
}

/// 1 for a set flag, 0 for a clear one.
pub open spec fn bit_of(b: bool) -> int {
    if b { 1 } else { 0 }
}

/// The packed byte of `f`: each flag at its bit, the low nibble clear.
pub open spec fn encode(f: FlagsRegister) -> u8 {
    (128 * bit_of(f.zero) + 64 * bit_of(f.subtract) + 32 * bit_of(f.half_carry)
        + 16 * bit_of(f.carry)) as u8
}

/// The flags held in bits 7..4 of `b`; bits 3..0 are ignored.
pub open spec fn decode(b: u8) -> FlagsRegister {
    FlagsRegister {
        zero: (b / 128) % 2 == 1,
        subtract: (b / 64) % 2 == 1,
        half_carry: (b / 32) % 2 == 1,
        carry: (b / 16) % 2 == 1,
    }
}

/// 1 for `true`, 0 for `false`, as a byte.
fn flag_bit(b: bool) -> (r: u8)
    ensures
        r == bit_of(b),
{
    if b { 1 } else { 0 }
}

impl From<FlagsRegister> for u8 {
    /// Packs the flags into bits 7..4; bits 3..0 are zero.
    fn from(flag: FlagsRegister) -> (r: u8) {
        let z = flag_bit(flag.zero);
        let s = flag_bit(flag.subtract);
        let h = flag_bit(flag.half_carry);
        let c = flag_bit(flag.carry);
        let r = z << ZERO_FLAG_BYTE_POSITION | s << SUBTRACT_FLAG_BYTE_POSITION
            | h << HALF_CARRY_FLAG_BYTE_POSITION | c << CARRY_FLAG_BYTE_POSITION;
        assert(r == (128 * z + 64 * s + 32 * h + 16 * c) as u8) by (bit_vector)
            requires
                z <= 1 && s <= 1 && h <= 1 && c <= 1,
                r == z << 7u8 | s << 6u8 | h << 5u8 | c << 4u8,
        ;
        r
    }
}

impl vstd::std_specs::convert::FromSpecImpl<FlagsRegister> for u8 {
    open spec fn obeys_from_spec() -> bool {
        true
    }

    open spec fn from_spec(f: FlagsRegister) -> u8 {
        encode(f)
    }
}

impl From<FlagsRegister> for u16 {
    /// The packed flags as a 16-bit value: bits 7..4 as in the byte form,
    /// every other bit zero.
    fn from(flag: FlagsRegister) -> (r: u16) {
        let z = flag_bit(flag.zero) as u16;
        let s = flag_bit(flag.subtract) as u16;
        let h = flag_bit(flag.half_carry) as u16;
        let c = flag_bit(flag.carry) as u16;
        let r = z << ZERO_FLAG_BYTE_POSITION | s << SUBTRACT_FLAG_BYTE_POSITION
            | h << HALF_CARRY_FLAG_BYTE_POSITION | c << CARRY_FLAG_BYTE_POSITION;
        assert(r == 128 * z + 64 * s + 32 * h + 16 * c) by (bit_vector)
            requires
                z <= 1 && s <= 1 && h <= 1 && c <= 1,
                r == z << 7u16 | s << 6u16 | h << 5u16 | c << 4u16,
        ;
        r
    }
}

impl vstd::std_specs::convert::FromSpecImpl<FlagsRegister> for u16 {
    open spec fn obeys_from_spec() -> bool {
        true
    }

    open spec fn from_spec(f: FlagsRegister) -> u16 {
        encode(f) as u16
    }
}

impl From<u8> for FlagsRegister {
    /// Reads the flags from bits 7..4 of `byte`, ignoring bits 3..0.
    fn from(byte: u8) -> (r: FlagsRegister) {
        let zero = ((byte >> ZERO_FLAG_BYTE_POSITION) & 0b1) != 0;
        let subtract = ((byte >> SUBTRACT_FLAG_BYTE_POSITION) & 0b1) != 0;
        let half_carry = ((byte >> HALF_CARRY_FLAG_BYTE_POSITION) & 0b1) != 0;
        let carry = ((byte >> CARRY_FLAG_BYTE_POSITION) & 0b1) != 0;
        assert(((byte >> 7u8) & 1 != 0) == ((byte / 128) % 2 == 1)
            && ((byte >> 6u8) & 1 != 0) == ((byte / 64) % 2 == 1)
            && ((byte >> 5u8) & 1 != 0) == ((byte / 32) % 2 == 1)
            && ((byte >> 4u8) & 1 != 0) == ((byte / 16) % 2 == 1)) by (bit_vector);
        FlagsRegister { zero, subtract, half_carry, carry }
    }
}

impl vstd::std_specs::convert::FromSpecImpl<u8> for FlagsRegister {
    open spec fn obeys_from_spec() -> bool {
        true
    }

    open spec fn from_spec(b: u8) -> FlagsRegister {
        decode(b)
    }
}

/// Decoding a packed byte gives back the flags that were packed.
pub proof fn lemma_decode_encode(f: FlagsRegister)
    ensures
        decode(encode(f)) == f,
{
    let z = bit_of(f.zero) as u8;
    let s = bit_of(f.subtract) as u8;
    let h = bit_of(f.half_carry) as u8;
    let c = bit_of(f.carry) as u8;
    let b = encode(f);
    assert(b == 128 * z + 64 * s + 32 * h + 16 * c);
    assert((b / 128) % 2 == z && (b / 64) % 2 == s && (b / 32) % 2 == h && (b / 16) % 2 == c)
        by (bit_vector)
        requires
            z <= 1 && s <= 1 && h <= 1 && c <= 1,
            b == 128 * z + 64 * s + 32 * h + 16 * c,
    ;
}

/// Packing the flags read from a byte gives that byte with its low nibble
/// cleared: the low nibble has no flag behind it.
pub proof fn lemma_encode_decode(b: u8)
    ensures
        encode(decode(b)) == b & 0xF0,
{
    let f = decode(b);
    let z = bit_of(f.zero) as u8;
    let s = bit_of(f.subtract) as u8;
    let h = bit_of(f.half_carry) as u8;
    let c = bit_of(f.carry) as u8;
    assert(z == (b / 128) % 2 && s == (b / 64) % 2 && h == (b / 32) % 2 && c == (b / 16) % 2);
    assert(128 * z + 64 * s + 32 * h + 16 * c == b & 0xF0) by (bit_vector)
        requires
            z == (b / 128) % 2 && s == (b / 64) % 2 && h == (b / 32) % 2 && c == (b / 16) % 2,
    ;
}

} // verus!
