use gb_cpu::cpu::CPU;
use gb_cpu::flags::FlagsRegister;
use gb_cpu::instruction::Instruction;
use gb_cpu::registers::ArithmeticTarget;

fn flags(zero: bool, subtract: bool, half_carry: bool, carry: bool) -> FlagsRegister {
    FlagsRegister { zero, subtract, half_carry, carry }
}

fn with_a_b(a: u8, b: u8) -> CPU {
    let mut cpu = CPU::new();
    cpu.registers.a = a;
    cpu.registers.b = b;
    cpu
}

#[test]
fn add_scenario_clears_all_flags() {
    let mut cpu = with_a_b(0x10, 0x20);
    cpu.execute(Instruction::ADD(ArithmeticTarget::B));
    assert_eq!(cpu.registers.a, 0x30);
    assert_eq!(cpu.registers.f, flags(false, false, false, false));
}

#[test]
fn add_flags_for_all_operands() {
    for a in 0u8..=255 {
        for v in [0u8, 1, 0x0F, 0x10, 0x7F, 0x80, 0xF1, 0xFF] {
            let mut cpu = with_a_b(a, v);
            cpu.execute(Instruction::ADD(ArithmeticTarget::B));
            let sum = a as u16 + v as u16;
            assert_eq!(cpu.registers.a, (sum % 256) as u8);
            assert_eq!(cpu.registers.f.carry, sum > 255);
            assert_eq!(cpu.registers.f.zero, sum % 256 == 0);
            assert_eq!(cpu.registers.f.half_carry, (a & 0xF) + (v & 0xF) > 0xF);
            assert!(!cpu.registers.f.subtract);
        }
    }
}

#[test]
fn add_overflow_and_half_carry() {
    let mut cpu = with_a_b(0xF8, 0x08);
    cpu.execute(Instruction::ADD(ArithmeticTarget::B));
    assert_eq!(cpu.registers.a, 0x00);
    assert_eq!(cpu.registers.f, flags(true, false, true, true));
}

#[test]
fn add_a_to_itself() {
    let mut cpu = CPU::new();
    cpu.registers.a = 0x81;
    cpu.execute(Instruction::ADD(ArithmeticTarget::A));
    assert_eq!(cpu.registers.a, 0x02);
    assert_eq!(cpu.registers.f, flags(false, false, false, true));
}

#[test]
fn adc_scenario_wraps_to_zero() {
    let mut cpu = CPU::new();
    cpu.registers.a = 0xFF;
    cpu.registers.f.carry = true;
    cpu.registers.c = 0;
    cpu.execute(Instruction::ADC(ArithmeticTarget::C));
    assert_eq!(cpu.registers.a, 0x00);
    assert!(cpu.registers.f.carry);
    assert!(cpu.registers.f.zero);
    assert!(!cpu.registers.f.subtract);
}

#[test]
fn adc_carry_in_with_largest_operand() {
    let mut cpu = with_a_b(0x00, 0xFF);
    cpu.registers.f.carry = true;
    cpu.execute(Instruction::ADC(ArithmeticTarget::B));
    assert_eq!(cpu.registers.a, 0x00);
    assert!(cpu.registers.f.carry);
    assert!(cpu.registers.f.zero);
    assert!(!cpu.registers.f.half_carry);
}

#[test]
fn adc_without_carry_in_is_add() {
    let mut cpu = with_a_b(0x3A, 0xC6);
    cpu.execute(Instruction::ADC(ArithmeticTarget::B));
    assert_eq!(cpu.registers.a, 0x00);
    assert_eq!(cpu.registers.f, flags(true, false, true, true));
}

#[test]
fn addhl_scenario() {
    let mut cpu = CPU::new();
    cpu.registers.set_hl(0x0011);
    cpu.registers.b = 0x01;
    cpu.execute(Instruction::ADDHL(ArithmeticTarget::B));
    assert_eq!(cpu.registers.get_hl(), 0x0012);
    assert_eq!(cpu.registers.f, flags(false, false, false, false));
}

#[test]
fn addhl_wraps_sixteen_bits() {
    let mut cpu = CPU::new();
    cpu.registers.set_hl(0xFFFF);
    cpu.registers.a = 0x0F;
    cpu.registers.b = 0x01;
    cpu.execute(Instruction::ADDHL(ArithmeticTarget::B));
    assert_eq!(cpu.registers.get_hl(), 0x0000);
    assert_eq!(cpu.registers.a, 0x0F);
    assert_eq!(cpu.registers.f, flags(true, false, true, true));
}

#[test]
fn addhl_from_l_reads_before_writing() {
    let mut cpu = CPU::new();
    cpu.registers.set_hl(0x12F0);
    cpu.execute(Instruction::ADDHL(ArithmeticTarget::L));
    assert_eq!(cpu.registers.get_hl(), 0x13E0);
    assert!(!cpu.registers.f.carry);
}

#[test]
fn and_scenario_forces_half_carry() {
    let mut cpu = with_a_b(0b0110, 0b1100);
    cpu.execute(Instruction::AND(ArithmeticTarget::B));
    assert_eq!(cpu.registers.a, 0b0100);
    assert!(cpu.registers.f.half_carry);
    assert!(!cpu.registers.f.carry);
}

#[test]
fn logic_flags_regardless_of_operands() {
    for (a, b) in [(0x00u8, 0x00u8), (0xFF, 0xFF), (0x0F, 0xF0), (0x12, 0x34)] {
        let mut cpu = with_a_b(a, b);
        cpu.registers.f = flags(true, true, true, true);
        cpu.execute(Instruction::AND(ArithmeticTarget::B));
        assert_eq!(cpu.registers.a, a & b);
        assert_eq!(cpu.registers.f, flags(a & b == 0, false, true, false));

        let mut cpu = with_a_b(a, b);
        cpu.registers.f = flags(true, true, true, true);
        cpu.execute(Instruction::OR(ArithmeticTarget::B));
        assert_eq!(cpu.registers.a, a | b);
        assert_eq!(cpu.registers.f, flags(a | b == 0, false, false, false));

        let mut cpu = with_a_b(a, b);
        cpu.registers.f = flags(true, true, true, true);
        cpu.execute(Instruction::XOR(ArithmeticTarget::B));
        assert_eq!(cpu.registers.a, a ^ b);
        assert_eq!(cpu.registers.f, flags(a ^ b == 0, false, false, false));
    }
}

#[test]
fn xor_a_with_itself_clears_a() {
    let mut cpu = CPU::new();
    cpu.registers.a = 0x5C;
    cpu.execute(Instruction::XOR(ArithmeticTarget::A));
    assert_eq!(cpu.registers.a, 0);
    assert_eq!(cpu.registers.f, flags(true, false, false, false));
}

#[test]
fn sub_scenario_flags() {
    let mut cpu = with_a_b(0x30, 0x10);
    cpu.execute(Instruction::SUB(ArithmeticTarget::B));
    assert_eq!(cpu.registers.a, 0x20);
    assert!(cpu.registers.f.subtract);
    assert!(!cpu.registers.f.carry);
    assert!(!cpu.registers.f.half_carry);
    assert!(!cpu.registers.f.zero);
}

#[test]
fn sub_of_equal_values_is_zero() {
    for a in 0u8..=255 {
        let mut cpu = with_a_b(a, a);
        cpu.execute(Instruction::SUB(ArithmeticTarget::B));
        assert_eq!(cpu.registers.a, 0);
        assert_eq!(cpu.registers.f, flags(true, true, false, false));
        let mut cpu = CPU::new();
        cpu.registers.a = a;
        cpu.execute(Instruction::SUB(ArithmeticTarget::A));
        assert_eq!(cpu.registers.a, 0);
        assert_eq!(cpu.registers.f, flags(true, true, false, false));
    }
}

#[test]
fn sub_underflow_sets_carry_and_half_carry() {
    let mut cpu = with_a_b(0x10, 0x21);
    cpu.execute(Instruction::SUB(ArithmeticTarget::B));
    assert_eq!(cpu.registers.a, 0xEF);
    assert_eq!(cpu.registers.f, flags(false, true, true, true));
}

#[test]
fn sub_half_carry_uses_a_before_the_operation() {
    let mut cpu = with_a_b(0x1F, 0x0E);
    cpu.execute(Instruction::SUB(ArithmeticTarget::B));
    assert_eq!(cpu.registers.a, 0x11);
    assert!(!cpu.registers.f.half_carry);
}

#[test]
fn sbc_borrow_in_and_out_in_one_step() {
    let mut cpu = with_a_b(0x00, 0xFF);
    cpu.registers.f.carry = true;
    cpu.execute(Instruction::SBC(ArithmeticTarget::B));
    assert_eq!(cpu.registers.a, 0x00);
    assert_eq!(cpu.registers.f, flags(true, true, true, true));

    let mut cpu = with_a_b(0x10, 0x10);
    cpu.registers.f.carry = true;
    cpu.execute(Instruction::SBC(ArithmeticTarget::B));
    assert_eq!(cpu.registers.a, 0xFF);
    assert_eq!(cpu.registers.f, flags(false, true, false, true));
}

#[test]
fn cp_keeps_a_and_matches_sub_flags() {
    for (a, b) in [(0x30u8, 0x10u8), (0x10, 0x30), (0x42, 0x42), (0x00, 0x01), (0xF0, 0x0F)] {
        let mut cp = with_a_b(a, b);
        cp.execute(Instruction::CP(ArithmeticTarget::B));
        let mut sub = with_a_b(a, b);
        sub.execute(Instruction::SUB(ArithmeticTarget::B));
        assert_eq!(cp.registers.a, a);
        assert_eq!(cp.registers.b, b);
        assert_eq!(cp.registers.f, sub.registers.f);
    }
}

#[test]
fn inc_then_dec_restores_and_keeps_carry() {
    for v in [0x00u8, 0x0F, 0x10, 0x7F, 0xFF] {
        for carry in [false, true] {
            let mut cpu = CPU::new();
            cpu.registers.d = v;
            cpu.registers.f.carry = carry;
            cpu.execute(Instruction::INC(ArithmeticTarget::D));
            assert_eq!(cpu.registers.f.carry, carry);
            cpu.execute(Instruction::DEC(ArithmeticTarget::D));
            assert_eq!(cpu.registers.d, v);
            assert_eq!(cpu.registers.f.carry, carry);
            assert_eq!(cpu.registers.a, 0);
        }
    }
}

#[test]
fn inc_wraps_and_sets_half_carry() {
    let mut cpu = CPU::new();
    cpu.registers.e = 0xFF;
    cpu.execute(Instruction::INC(ArithmeticTarget::E));
    assert_eq!(cpu.registers.e, 0x00);
    assert_eq!(cpu.registers.a, 0x00);
    assert_eq!(cpu.registers.f, flags(true, false, true, false));

    let mut cpu = CPU::new();
    cpu.registers.e = 0x3E;
    cpu.registers.a = 0x0F;
    cpu.execute(Instruction::INC(ArithmeticTarget::E));
    assert_eq!(cpu.registers.e, 0x3F);
    assert_eq!(cpu.registers.f, flags(false, false, false, false));
}

#[test]
fn dec_wraps_and_sets_half_carry() {
    let mut cpu = CPU::new();
    cpu.registers.h = 0x00;
    cpu.registers.f.carry = true;
    cpu.execute(Instruction::DEC(ArithmeticTarget::H));
    assert_eq!(cpu.registers.h, 0xFF);
    assert_eq!(cpu.registers.f, flags(false, true, true, true));

    let mut cpu = CPU::new();
    cpu.registers.h = 0x01;
    cpu.execute(Instruction::DEC(ArithmeticTarget::H));
    assert_eq!(cpu.registers.h, 0x00);
    assert_eq!(cpu.registers.f, flags(true, true, false, false));
}

#[test]
fn ccf_toggles_only_carry() {
    let mut cpu = CPU::new();
    cpu.registers.f = flags(true, false, true, false);
    cpu.execute(Instruction::CCF());
    assert_eq!(cpu.registers.f, flags(true, false, true, true));
    cpu.execute(Instruction::CCF());
    assert_eq!(cpu.registers.f, flags(true, false, true, false));
    assert_eq!(cpu.registers.a, 0);
}
