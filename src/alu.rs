//! What each arithmetic/logic instruction does to the register file, as
//! mathematics. These functions are the meaning of the executable
//! operations in `cpu`.
//!
//! All 8-bit results wrap modulo 256 and the 16-bit result of ADDHL wraps
//! modulo 65536; a wrap shows only in the carry flag. The half-carry flag
//! always compares the low nibble of A as it was before the operation with
//! the low nibble of the raw operand. For ADC and SBC the carry-in takes part
//! in the result and in the carry-out, but not in the half-carry test.
use vstd::prelude::*;

use crate::flags::{bit_of, FlagsRegister};
use crate::registers::{ArithmeticTarget, Registers};

verus! {

/// An 8-bit result: `x` modulo 256.
pub open spec fn wrap8(x: int) -> u8 {
    (x % 256) as u8
}

/// A 16-bit result: `x` modulo 65536.
pub open spec fn wrap16(x: int) -> u16 {
    (x % 65536) as u16
}

/// Flags after an addition into A of `v` that produced `sum` (unwrapped).
pub open spec fn add_flags(r: Registers, v: u8, sum: int) -> FlagsRegister {
    FlagsRegister {
        zero: wrap8(sum) == 0,
        subtract: false,
        half_carry: (r.a & 0xF) + (v & 0xF) > 0xF,
        carry: sum > 255,
    }
}

/// Flags after a subtraction of `v` from A that produced `diff` (unwrapped).
pub open spec fn sub_flags(r: Registers, v: u8, diff: int) -> FlagsRegister {
    FlagsRegister {
        zero: wrap8(diff) == 0,
        subtract: true,
        half_carry: (v & 0xF) > (r.a & 0xF),
        carry: diff < 0,
    }
}

/// ADD: A + v.
pub open spec fn alu_add(r: Registers, v: u8) -> Registers {
    Registers { a: wrap8(r.a + v), f: add_flags(r, v, r.a + v), ..r }
}

/// ADC: A + v + carry-in, one wrapping sum.
pub open spec fn alu_adc(r: Registers, v: u8) -> Registers {
    let sum = r.a + v + bit_of(r.f.carry);
    Registers { a: wrap8(sum), f: add_flags(r, v, sum), ..r }
}

/// ADDHL: HL + v, with v zero-extended; the half carry follows the nibble
/// rule on A and v.
pub open spec fn alu_add_hl(r: Registers, v: u8) -> Registers {
    let sum = r.hl() + v;
    let result = wrap16(sum);
    Registers {
        f: FlagsRegister {
            zero: result == 0,
            subtract: false,
            half_carry: (r.a & 0xF) + (v & 0xF) > 0xF,
            carry: sum > 65535,
        },
        ..r.with_hl(result)
    }
}

/// Flags after a bitwise operation with result `x`.
pub open spec fn logic_flags(x: u8, half_carry: bool) -> FlagsRegister {
    FlagsRegister { zero: x == 0, subtract: false, half_carry, carry: false }
}

/// AND: A & v; the half carry is always set.
pub open spec fn alu_and(r: Registers, v: u8) -> Registers {
    Registers { a: r.a & v, f: logic_flags(r.a & v, true), ..r }
}

/// OR: A | v.
pub open spec fn alu_or(r: Registers, v: u8) -> Registers {
    Registers { a: r.a | v, f: logic_flags(r.a | v, false), ..r }
}

/// XOR: A ^ v.
pub open spec fn alu_xor(r: Registers, v: u8) -> Registers {
    Registers { a: r.a ^ v, f: logic_flags(r.a ^ v, false), ..r }
}

/// SUB: A - v.
pub open spec fn alu_sub(r: Registers, v: u8) -> Registers {
    Registers { a: wrap8(r.a - v), f: sub_flags(r, v, r.a - v), ..r }
}

/// SBC: A - v - carry-in, one wrapping difference.
pub open spec fn alu_sbc(r: Registers, v: u8) -> Registers {
    let diff = r.a - v - bit_of(r.f.carry);
    Registers { a: wrap8(diff), f: sub_flags(r, v, diff), ..r }
}

/// CP: the flags of SUB, with A left as it was.
pub open spec fn alu_cp(r: Registers, v: u8) -> Registers {
    Registers { f: sub_flags(r, v, r.a - v), ..r }
}

/// INC: the register named by `t` plus one, written back to it; the carry
/// flag is kept.
pub open spec fn alu_inc(r: Registers, t: ArithmeticTarget) -> Registers {
    let v = r.value_of(t);
    let result = wrap8(v + 1);
    Registers {
        f: FlagsRegister {
            zero: result == 0,
            subtract: false,
            half_carry: (v & 0xF) + 1 > 0xF,
            carry: r.f.carry,
        },
        ..r.with_value(t, result)
    }
}

/// DEC: the register named by `t` minus one, written back to it; the carry
/// flag is kept.
pub open spec fn alu_dec(r: Registers, t: ArithmeticTarget) -> Registers {
    let v = r.value_of(t);
    let result = wrap8(v - 1);
    Registers {
        f: FlagsRegister {
            zero: result == 0,
            subtract: true,
            half_carry: 1 > (v & 0xF),
            carry: r.f.carry,
        },
        ..r.with_value(t, result)
    }
}

/// CCF: the carry flag inverted, all else kept.
pub open spec fn alu_ccf(r: Registers) -> Registers {
    Registers { f: FlagsRegister { carry: !r.f.carry, ..r.f }, ..r }
}

/// The low nibble of a byte is at most 0xF.
pub(crate) proof fn lemma_nibble_bound(x: u8)
    ensures
        x & 0xF <= 0xF,
{
    assert(x & 0xF <= 0xF) by (bit_vector);
}

} // verus!
