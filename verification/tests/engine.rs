use rustyboy::cpu::instructions::{ArithmeticTarget16, ArithmeticTarget8, Instruction};
use rustyboy::cpu::{new_cpu, ExecError};

#[test]
fn rotate_accumulator_left_moves_top_bit_to_carry() {
    let mut cpu = new_cpu();
    cpu.registers.a = 0b1000_0000;
    cpu.execute(Instruction::RLCA).unwrap();
    assert_eq!(cpu.registers.a, 0b0000_0001);
    assert!(cpu.registers.f.carry);
    assert!(!cpu.registers.f.zero);
    assert!(!cpu.registers.f.subtract);
    assert!(!cpu.registers.f.half_carry);
}

#[test]
fn rotate_accumulator_through_carry() {
    let mut cpu = new_cpu();
    cpu.registers.a = 0b1000_0000;
    cpu.registers.f.carry = false;
    cpu.execute(Instruction::RLA).unwrap();
    // The old carry (0) enters at bit 0 while bit 7 leaves for the flag.
    assert_eq!(cpu.registers.a, 0b0000_0000);
    assert!(cpu.registers.f.carry);
    cpu.execute(Instruction::RLA).unwrap();
    // Now the pending carry re-enters.
    assert_eq!(cpu.registers.a, 0b0000_0001);
    assert!(!cpu.registers.f.carry);
}

#[test]
fn rotate_accumulator_right_variants() {
    let mut cpu = new_cpu();
    cpu.registers.a = 0b0000_0001;
    cpu.execute(Instruction::RRCA).unwrap();
    assert_eq!(cpu.registers.a, 0b1000_0000);
    assert!(cpu.registers.f.carry);

    cpu.registers.a = 0b0000_0001;
    cpu.registers.f.carry = true;
    cpu.execute(Instruction::RRA).unwrap();
    assert_eq!(cpu.registers.a, 0b1000_0000);
    assert!(cpu.registers.f.carry);
}

#[test]
fn register_rotates_leave_zero_flag_alone() {
    let mut cpu = new_cpu();
    cpu.registers.f.zero = true;
    cpu.registers.b = 0b0100_0001;
    cpu.execute(Instruction::RLCr(ArithmeticTarget8::B)).unwrap();
    assert_eq!(cpu.registers.b, 0b1000_0010);
    assert!(!cpu.registers.f.carry);
    assert!(cpu.registers.f.zero); // untouched, unlike the accumulator forms

    cpu.registers.c = 0b0000_0011;
    cpu.execute(Instruction::RRCr(ArithmeticTarget8::C)).unwrap();
    assert_eq!(cpu.registers.c, 0b1000_0001);
    assert!(cpu.registers.f.carry);
}

#[test]
fn register_rotates_through_carry() {
    let mut cpu = new_cpu();
    cpu.registers.f.carry = true;
    cpu.registers.d = 0b0000_0000;
    cpu.execute(Instruction::RLr(ArithmeticTarget8::D)).unwrap();
    assert_eq!(cpu.registers.d, 0b0000_0001);
    assert!(!cpu.registers.f.carry);

    cpu.registers.f.carry = true;
    cpu.registers.e = 0b0000_0010;
    cpu.execute(Instruction::RRr(ArithmeticTarget8::E)).unwrap();
    assert_eq!(cpu.registers.e, 0b1000_0001);
    assert!(!cpu.registers.f.carry);
}

#[test]
fn shifts_update_carry_from_the_bit_shifted_out() {
    let mut cpu = new_cpu();
    cpu.registers.b = 0b1000_0001;
    cpu.execute(Instruction::SLAr(ArithmeticTarget8::B)).unwrap();
    assert_eq!(cpu.registers.b, 0b0000_0010);
    assert!(cpu.registers.f.carry);

    cpu.registers.c = 0b1000_0001;
    cpu.execute(Instruction::SRAr(ArithmeticTarget8::C)).unwrap();
    // Arithmetic right shift keeps the sign bit.
    assert_eq!(cpu.registers.c, 0b1100_0000);
    assert!(cpu.registers.f.carry);

    cpu.registers.d = 0b1000_0001;
    cpu.execute(Instruction::SRLr(ArithmeticTarget8::D)).unwrap();
    // Logical right shift zero-fills.
    assert_eq!(cpu.registers.d, 0b0100_0000);
    assert!(cpu.registers.f.carry);
}

#[test]
fn swap_exchanges_nibbles() {
    let mut cpu = new_cpu();
    cpu.registers.h = 0xAB;
    cpu.execute(Instruction::SWAPr(ArithmeticTarget8::H)).unwrap();
    assert_eq!(cpu.registers.h, 0xBA);
}

#[test]
fn bit_test_sets_zero_from_the_tested_bit() {
    let mut cpu = new_cpu();
    cpu.registers.b = 0b0000_0001;
    cpu.execute(Instruction::BITnr(0, ArithmeticTarget8::B)).unwrap();
    assert!(!cpu.registers.f.zero);
    assert!(cpu.registers.f.half_carry);
    assert!(!cpu.registers.f.subtract);
    cpu.execute(Instruction::BITnr(1, ArithmeticTarget8::B)).unwrap();
    assert!(cpu.registers.f.zero);
    assert!(cpu.registers.f.half_carry);
    assert!(!cpu.registers.f.subtract);
}

#[test]
fn bit_set_and_clear_mutate_only_the_target_bit() {
    let mut cpu = new_cpu();
    cpu.registers.l = 0b0000_0000;
    cpu.execute(Instruction::SETnr(3, ArithmeticTarget8::L)).unwrap();
    assert_eq!(cpu.registers.l, 0b0000_1000);
    cpu.execute(Instruction::SETnr(0, ArithmeticTarget8::L)).unwrap();
    assert_eq!(cpu.registers.l, 0b0000_1001);
    cpu.execute(Instruction::RESnr(3, ArithmeticTarget8::L)).unwrap();
    assert_eq!(cpu.registers.l, 0b0000_0001);
    // Flags stay where they were.
    assert!(!cpu.registers.f.zero);
    assert!(!cpu.registers.f.half_carry);
}

#[test]
fn bit_index_out_of_range_fails_and_leaves_state() {
    let mut cpu = new_cpu();
    cpu.registers.b = 0x5A;
    cpu.registers.f.zero = true;
    let before_b = cpu.registers.b;
    let r = cpu.execute(Instruction::BITnr(8, ArithmeticTarget8::B));
    assert_eq!(r, Err(ExecError::InvalidOperand));
    assert_eq!(cpu.registers.b, before_b);
    assert!(cpu.registers.f.zero);

    let r = cpu.execute(Instruction::SETnr(8, ArithmeticTarget8::B));
    assert_eq!(r, Err(ExecError::InvalidOperand));
    assert_eq!(cpu.registers.b, before_b);

    let r = cpu.execute(Instruction::RESnr(255, ArithmeticTarget8::B));
    assert_eq!(r, Err(ExecError::InvalidOperand));
    assert_eq!(cpu.registers.b, before_b);
}

#[test]
fn pair_increment_wraps_past_the_top() {
    let mut cpu = new_cpu();
    cpu.registers.set_hl(0xFFFF);
    cpu.execute(Instruction::INCRR(ArithmeticTarget16::HL)).unwrap();
    assert_eq!(cpu.registers.get_hl(), 0x0000);
}

#[test]
fn pair_decrement_wraps_past_zero() {
    let mut cpu = new_cpu();
    cpu.registers.set_hl(0x0000);
    cpu.execute(Instruction::DECRR(ArithmeticTarget16::HL)).unwrap();
    assert_eq!(cpu.registers.get_hl(), 0xFFFF);
    cpu.registers.sp = 0x0000;
    cpu.execute(Instruction::DECRR(ArithmeticTarget16::SP)).unwrap();
    assert_eq!(cpu.registers.sp, 0xFFFF);
}

#[test]
fn push_stores_high_byte_at_the_higher_address() {
    let mut cpu = new_cpu();
    cpu.registers.sp = 0xFFFE;
    cpu.registers.set_bc(0x1234);
    cpu.execute(Instruction::PUSH(ArithmeticTarget16::BC)).unwrap();
    assert_eq!(cpu.registers.sp, 0xFFFC);
    assert_eq!(cpu.memory[0xFFFD], 0x12);
    assert_eq!(cpu.memory[0xFFFC], 0x34);
}

#[test]
fn push_pop_round_trip_restores_the_pair() {
    let mut cpu = new_cpu();
    cpu.registers.sp = 0xFFFE;
    cpu.registers.set_bc(0x1234);
    cpu.execute(Instruction::PUSH(ArithmeticTarget16::BC)).unwrap();
    cpu.registers.set_bc(0x0000);
    cpu.execute(Instruction::POP(ArithmeticTarget16::BC)).unwrap();
    assert_eq!(cpu.registers.get_bc(), 0x1234);
    assert_eq!(cpu.registers.sp, 0xFFFE);
}

#[test]
fn push_pop_wraps_around_the_bottom_of_memory() {
    let mut cpu = new_cpu();
    cpu.registers.sp = 0x0001;
    cpu.registers.set_de(0xABCD);
    cpu.execute(Instruction::PUSH(ArithmeticTarget16::DE)).unwrap();
    assert_eq!(cpu.registers.sp, 0xFFFF);
    assert_eq!(cpu.memory[0x0000], 0xAB);
    assert_eq!(cpu.memory[0xFFFF], 0xCD);
    cpu.execute(Instruction::POP(ArithmeticTarget16::DE)).unwrap();
    assert_eq!(cpu.registers.get_de(), 0xABCD);
    assert_eq!(cpu.registers.sp, 0x0001);
}

#[test]
fn nop_and_halt_change_nothing() {
    let mut cpu = new_cpu();
    cpu.registers.a = 0x99;
    cpu.registers.f.carry = true;
    cpu.execute(Instruction::NOP).unwrap();
    assert_eq!(cpu.registers.a, 0x99);
    assert!(cpu.registers.f.carry);
    cpu.execute(Instruction::HALT).unwrap();
    assert_eq!(cpu.registers.a, 0x99);
    assert!(cpu.registers.f.carry);
}
