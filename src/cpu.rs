//! The CPU aggregate and the dispatcher that executes decoded instructions.
use vstd::prelude::*;

use crate::alu::{
    alu_adc, alu_add, alu_add_hl, alu_and, alu_ccf, alu_cp, alu_dec, alu_inc, alu_or, alu_sbc, alu_sub,
    alu_xor, lemma_nibble_bound,
};
use crate::flags::FlagsRegister;
use crate::instruction::{step, Instruction};
use crate::memory::{MemoryBus, MEMORY_SIZE};
use crate::registers::{ArithmeticTarget, Registers};

verus! {

/// A CPU: its register file, a program counter (not used by the
/// operations here) and its memory surface.
pub struct CPU {
    pub registers: Registers,
    pub pc: u16,
    pub bus: MemoryBus,
}

impl CPU {
    /// This CPU with its register file replaced by `r`; the program counter
    /// and memory are kept.
    pub open spec fn with_registers(self, r: Registers) -> CPU {
        CPU { registers: r, ..self }
    }

    /// A CPU with every register zero, every flag clear, the program
    /// counter at zero and a zero-filled memory of `MEMORY_SIZE` bytes.
    pub fn new() -> (r: CPU)
        ensures
            r.registers == (Registers {
                a: 0,
                b: 0,
                c: 0,
                d: 0,
                e: 0,
                f: FlagsRegister { zero: false, subtract: false, half_carry: false, carry: false },
                h: 0,
                l: 0,
            }),
            r.pc == 0,
            r.bus@.len() == MEMORY_SIZE,
            forall|i: int| 0 <= i < MEMORY_SIZE ==> r.bus@[i] == 0,
    {
        CPU {
            registers: Registers {
                a: 0,
                b: 0,
                c: 0,
                d: 0,
                e: 0,
                f: FlagsRegister { zero: false, subtract: false, half_carry: false, carry: false },
                h: 0,
                l: 0,
            },
            pc: 0,
            bus: MemoryBus::new(),
        }
    }

    /// Executes one instruction. Every variant is handled; only the
    /// register file changes.
    pub fn execute(&mut self, instruction: Instruction)
        ensures
            *final(self) == old(self).with_registers(step(old(self).registers, instruction)),
    {
        match instruction {
            Instruction::ADD(target) => self.add(target),
            Instruction::ADC(target) => self.adc(target),
            Instruction::ADDHL(target) => self.add_hl(target),
            Instruction::AND(target) => self.and(target),
            Instruction::CCF() => self.ccf(),
            Instruction::CP(target) => self.cp(target),
            Instruction::DEC(target) => self.dec(target),
            Instruction::INC(target) => self.inc(target),
            Instruction::OR(target) => self.or(target),
            Instruction::SUB(target) => self.sub(target),
            Instruction::SBC(target) => self.sbc(target),
            Instruction::XOR(target) => self.xor(target),
        }
    }

    fn add(&mut self, target: ArithmeticTarget)
        ensures
            *final(self) == old(self).with_registers(
                alu_add(old(self).registers, old(self).registers.value_of(target)),
            ),
    {
        let value = self.get_register_value(target);
        let sum: u16 = self.registers.a as u16 + value as u16;
        let new_value = (sum % 256) as u8;
        self.update_flags_add(value, new_value, sum > 0xFF);
        self.set_register_value(ArithmeticTarget::A, new_value);
    }

    fn adc(&mut self, target: ArithmeticTarget)
        ensures
            *final(self) == old(self).with_registers(
                alu_adc(old(self).registers, old(self).registers.value_of(target)),
            ),
    {
        let carry: u16 = if self.registers.f.carry { 1 } else { 0 };
        let value = self.get_register_value(target);
        let sum: u16 = self.registers.a as u16 + value as u16 + carry;
        let new_value = (sum % 256) as u8;
        self.update_flags_add(value, new_value, sum > 0xFF);
        self.set_register_value(ArithmeticTarget::A, new_value);
    }

    fn add_hl(&mut self, target: ArithmeticTarget)
        ensures
            *final(self) == old(self).with_registers(
                alu_add_hl(old(self).registers, old(self).registers.value_of(target)),
            ),
    {
        let value = self.get_register_value(target);
        let hl = self.registers.get_hl();
        let sum: u32 = hl as u32 + value as u32;
        let result = (sum % 65536) as u16;
        self.registers.set_hl(result);
        self.update_flags_add_16_bit(value, result, sum > 0xFFFF);
    }

    fn and(&mut self, target: ArithmeticTarget)
        ensures
            *final(self) == old(self).with_registers(
                alu_and(old(self).registers, old(self).registers.value_of(target)),
            ),
    {
        let value = self.get_register_value(target);
        let result = self.registers.a & value;
        self.set_register_value(ArithmeticTarget::A, result);
        self.registers.f.zero = result == 0;
        self.registers.f.subtract = false;
        self.registers.f.half_carry = true;
        self.registers.f.carry = false;
    }

    fn ccf(&mut self)
        ensures
            *final(self) == old(self).with_registers(alu_ccf(old(self).registers)),
    {
        self.registers.f.carry = !self.registers.f.carry;
    }

    fn cp(&mut self, target: ArithmeticTarget)
        ensures
            *final(self) == old(self).with_registers(
                alu_cp(old(self).registers, old(self).registers.value_of(target)),
            ),
    {
        let value = self.get_register_value(target);
        let a = self.registers.a;
        self.update_flags_sub(value, a.wrapping_sub(value), a < value);
    }

    fn dec(&mut self, target: ArithmeticTarget)
        ensures
            *final(self) == old(self).with_registers(alu_dec(old(self).registers, target)),
    {
        let value = self.get_register_value(target);
        let new_value = value.wrapping_sub(1);
        self.set_register_value(target, new_value);
        self.registers.f.zero = new_value == 0;
        self.registers.f.subtract = true;
        self.registers.f.half_carry = (value & 0xF) == 0;
    }

    fn inc(&mut self, target: ArithmeticTarget)
        ensures
            *final(self) == old(self).with_registers(alu_inc(old(self).registers, target)),
    {
        let value = self.get_register_value(target);
        let new_value = value.wrapping_add(1);
        proof {
            lemma_nibble_bound(value);
        }
        self.set_register_value(target, new_value);
        self.registers.f.zero = new_value == 0;
        self.registers.f.subtract = false;
        self.registers.f.half_carry = (value & 0xF) == 0xF;
    }

    fn or(&mut self, target: ArithmeticTarget)
        ensures
            *final(self) == old(self).with_registers(
                alu_or(old(self).registers, old(self).registers.value_of(target)),
            ),
    {
        let value = self.get_register_value(target);
        let result = self.registers.a | value;
        self.set_register_value(ArithmeticTarget::A, result);
        self.registers.f.zero = result == 0;
        self.registers.f.subtract = false;
        self.registers.f.half_carry = false;
        self.registers.f.carry = false;
    }

    fn sub(&mut self, target: ArithmeticTarget)
        ensures
            *final(self) == old(self).with_registers(
                alu_sub(old(self).registers, old(self).registers.value_of(target)),
            ),
    {
        let value = self.get_register_value(target);
        let a = self.registers.a;
        let new_value = a.wrapping_sub(value);
        self.update_flags_sub(value, new_value, a < value);
        self.set_register_value(ArithmeticTarget::A, new_value);
    }

    fn sbc(&mut self, target: ArithmeticTarget)
        ensures
            *final(self) == old(self).with_registers(
                alu_sbc(old(self).registers, old(self).registers.value_of(target)),
            ),
    {
        let carry: u16 = if self.registers.f.carry { 1 } else { 0 };
        let value = self.get_register_value(target);
        let subtrahend: u16 = value as u16 + carry;
        let minuend: u16 = self.registers.a as u16;
        let new_value = ((minuend + 256 - subtrahend) % 256) as u8;
        self.update_flags_sub(value, new_value, minuend < subtrahend);
        self.set_register_value(ArithmeticTarget::A, new_value);
    }

    fn xor(&mut self, target: ArithmeticTarget)
        ensures
            *final(self) == old(self).with_registers(
                alu_xor(old(self).registers, old(self).registers.value_of(target)),
            ),
    {
        let value = self.get_register_value(target);
        let result = self.registers.a ^ value;
        self.set_register_value(ArithmeticTarget::A, result);
        self.registers.f.zero = result == 0;
        self.registers.f.subtract = false;
        self.registers.f.half_carry = false;
        self.registers.f.carry = false;
    }

    fn get_register_value(&self, target: ArithmeticTarget) -> (r: u8)
        ensures
            r == self.registers.value_of(target),
    {
        match target {
            ArithmeticTarget::A => self.registers.a,
            ArithmeticTarget::B => self.registers.b,
            ArithmeticTarget::C => self.registers.c,
            ArithmeticTarget::D => self.registers.d,
            ArithmeticTarget::E => self.registers.e,
            ArithmeticTarget::H => self.registers.h,
            ArithmeticTarget::L => self.registers.l,
        }
    }

    fn set_register_value(&mut self, target: ArithmeticTarget, value: u8)
        ensures
            *final(self) == old(self).with_registers(old(self).registers.with_value(target, value)),
    {
        match target {
            ArithmeticTarget::A => self.registers.a = value,
            ArithmeticTarget::B => self.registers.b = value,
            ArithmeticTarget::C => self.registers.c = value,
            ArithmeticTarget::D => self.registers.d = value,
            ArithmeticTarget::E => self.registers.e = value,
            ArithmeticTarget::H => self.registers.h = value,
            ArithmeticTarget::L => self.registers.l = value,
        }
    }

    /// Sets the flags of an 8-bit addition of `operand` into A, with A not
    /// yet overwritten.
    fn update_flags_add(&mut self, operand: u8, result: u8, did_overflow: bool)
        ensures
            *final(self) == old(self).with_registers(
                Registers {
                    f: FlagsRegister {
                        zero: result == 0,
                        subtract: false,
                        half_carry: (old(self).registers.a & 0xF) + (operand & 0xF) > 0xF,
                        carry: did_overflow,
                    },
                    ..old(self).registers
                },
            ),
    {
        self.registers.f.zero = result == 0;
        self.registers.f.subtract = false;
        self.registers.f.carry = did_overflow;
        proof {
            lemma_nibble_bound(self.registers.a);
            lemma_nibble_bound(operand);
        }
        self.registers.f.half_carry = (self.registers.a & 0xF) + (operand & 0xF) > 0xF;
    }

    /// Sets the flags of the 16-bit addition of `operand` into HL; the half
    /// carry follows the 8-bit nibble rule on A and `operand`.
    fn update_flags_add_16_bit(&mut self, operand: u8, result: u16, did_overflow: bool)
        ensures
            *final(self) == old(self).with_registers(
                Registers {
                    f: FlagsRegister {
                        zero: result == 0,
                        subtract: false,
                        half_carry: (old(self).registers.a & 0xF) + (operand & 0xF) > 0xF,
                        carry: did_overflow,
                    },
                    ..old(self).registers
                },
            ),
    {
        self.registers.f.zero = result == 0;
        self.registers.f.subtract = false;
        self.registers.f.carry = did_overflow;
        proof {
            lemma_nibble_bound(self.registers.a);
            lemma_nibble_bound(operand);
        }
        self.registers.f.half_carry = (self.registers.a & 0xF) + (operand & 0xF) > 0xF;
    }

    /// Sets the flags of an 8-bit subtraction of `operand` from A, with A
    /// not yet overwritten.
    fn update_flags_sub(&mut self, operand: u8, result: u8, did_underflow: bool)
        ensures
            *final(self) == old(self).with_registers(
                Registers {
                    f: FlagsRegister {
                        zero: result == 0,
                        subtract: true,
                        half_carry: (operand & 0xF) > (old(self).registers.a & 0xF),
                        carry: did_underflow,
                    },
                    ..old(self).registers
                },
            ),
    {
        self.registers.f.zero = result == 0;
        self.registers.f.subtract = true;
        self.registers.f.carry = did_underflow;
        self.registers.f.half_carry = (operand & 0xF) > (self.registers.a & 0xF);
    }
}

} // verus!
