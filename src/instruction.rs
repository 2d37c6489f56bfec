//! Decoded instructions and the register-file transition each one denotes.
use vstd::prelude::*;

use crate::alu::{
    alu_adc, alu_add, alu_add_hl, alu_and, alu_ccf, alu_cp, alu_dec, alu_inc, alu_or, alu_sbc, alu_sub,
    alu_xor,
};
use crate::registers::{ArithmeticTarget, Registers};

verus! {

/// One decoded arithmetic/logic instruction with its operand register.
/// Every operation other than INC and DEC works on A with the named
/// register as the other operand; INC and DEC change the named register.
#[derive(Debug)]
pub enum Instruction {
    ADD(ArithmeticTarget),
    ADC(ArithmeticTarget),
    ADDHL(ArithmeticTarget),
    AND(ArithmeticTarget),
    CCF(),
    CP(ArithmeticTarget),
    DEC(ArithmeticTarget),
    INC(ArithmeticTarget),
    OR(ArithmeticTarget),
    SUB(ArithmeticTarget),
    SBC(ArithmeticTarget),
    XOR(ArithmeticTarget),
}

/// The register file after executing `i` on `r`.
pub open spec fn step(r: Registers, i: Instruction) -> Registers {
    match i {
        Instruction::ADD(t) => alu_add(r, r.value_of(t)),
        Instruction::ADC(t) => alu_adc(r, r.value_of(t)),
        Instruction::ADDHL(t) => alu_add_hl(r, r.value_of(t)),
        Instruction::AND(t) => alu_and(r, r.value_of(t)),
        Instruction::CCF() => alu_ccf(r),
        Instruction::CP(t) => alu_cp(r, r.value_of(t)),
        Instruction::DEC(t) => alu_dec(r, t),
        Instruction::INC(t) => alu_inc(r, t),
        Instruction::OR(t) => alu_or(r, r.value_of(t)),
        Instruction::SUB(t) => alu_sub(r, r.value_of(t)),
        Instruction::SBC(t) => alu_sbc(r, r.value_of(t)),
        Instruction::XOR(t) => alu_xor(r, r.value_of(t)),
    }
}

} // verus!
