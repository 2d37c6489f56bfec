//! Properties of instruction execution that hold for every register state,
//! stated over `step`, the transition that `CPU::execute` performs.
use vstd::prelude::*;

use crate::flags::FlagsRegister;
use crate::instruction::{step, Instruction};
use crate::registers::{ArithmeticTarget, Registers};

verus! {

/// ADD sets carry exactly when A + v exceeds 255, zero exactly when the sum
/// is 0 modulo 256, and half carry exactly when the low nibbles of A and v
/// sum past 0xF; A receives the sum modulo 256.
pub proof fn lemma_add_flags(r: Registers, t: ArithmeticTarget)
    ensures
        ({
            let a = r.a;
            let v = r.value_of(t);
            let s = step(r, Instruction::ADD(t));
            &&& s.a == (a + v) % 256
            &&& s.f.carry == (a + v > 255)
            &&& s.f.zero == ((a + v) % 256 == 0)
            &&& s.f.half_carry == ((a & 0xF) + (v & 0xF) > 0xF)
            &&& !s.f.subtract
        }),
{
}

/// Subtracting A from itself gives 0 with zero and subtract set and carry and
/// half carry clear.
pub proof fn lemma_sub_self(r: Registers, t: ArithmeticTarget)
    requires
        r.value_of(t) == r.a,
    ensures
        step(r, Instruction::SUB(t)).a == 0,
        step(r, Instruction::SUB(t)).f == (FlagsRegister {
            zero: true,
            subtract: true,
            half_carry: false,
            carry: false,
        }),
{
}

/// CP leaves A (and every other register) as it was and sets the flags
/// exactly as SUB with the same operand does.
pub proof fn lemma_cp_is_flag_only_sub(r: Registers, t: ArithmeticTarget)
    ensures
        step(r, Instruction::CP(t)).a == r.a,
        step(r, Instruction::CP(t)).f == step(r, Instruction::SUB(t)).f,
        step(r, Instruction::CP(t)) == (Registers { f: step(r, Instruction::SUB(t)).f, ..r }),
{
}

/// AND always sets half carry and clears carry; OR and XOR always clear both.
pub proof fn lemma_logic_flags(r: Registers, t: ArithmeticTarget)
    ensures
        step(r, Instruction::AND(t)).f.half_carry,
        !step(r, Instruction::AND(t)).f.carry,
        !step(r, Instruction::OR(t)).f.half_carry,
        !step(r, Instruction::OR(t)).f.carry,
        !step(r, Instruction::XOR(t)).f.half_carry,
        !step(r, Instruction::XOR(t)).f.carry,
{
}

/// INC followed by DEC on the same register restores every register, and
/// neither of them changes the carry flag.
pub proof fn lemma_inc_then_dec(r: Registers, t: ArithmeticTarget)
    ensures
        ({
            let r1 = step(r, Instruction::INC(t));
            let r2 = step(r1, Instruction::DEC(t));
            &&& r2.value_of(t) == r.value_of(t)
            &&& r2 == (Registers { f: r2.f, ..r })
            &&& r1.f.carry == r.f.carry
            &&& r2.f.carry == r.f.carry
        }),
{
}

/// CCF inverts carry and keeps zero, subtract, half carry and every
/// register; a second CCF restores the original state.
pub proof fn lemma_ccf(r: Registers)
    ensures
        step(r, Instruction::CCF()).f.carry == !r.f.carry,
        step(r, Instruction::CCF()) == (Registers {
            f: FlagsRegister { carry: !r.f.carry, ..r.f },
            ..r
        }),
        step(step(r, Instruction::CCF()), Instruction::CCF()) == r,
{
}

} // verus!
