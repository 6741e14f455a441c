use rustyboy::cpu::instructions::{ArithmeticTarget16, ArithmeticTarget8, Instruction};
use rustyboy::cpu::new_cpu;
use rustyboy::cpu::registers::FlagsRegister;

#[test]
fn flags_pack_unpack_round_trip() {
    // Every combination of the four flags survives a pack and unpack.
    for bits in 0..16u8 {
        let f = FlagsRegister {
            zero: bits & 8 != 0,
            subtract: bits & 4 != 0,
            half_carry: bits & 2 != 0,
            carry: bits & 1 != 0,
        };
        let b = f.pack();
        assert_eq!(b & 0x0F, 0); // low nibble always zero when packed
        let g = FlagsRegister::unpack(b);
        assert_eq!(g.zero, f.zero);
        assert_eq!(g.subtract, f.subtract);
        assert_eq!(g.half_carry, f.half_carry);
        assert_eq!(g.carry, f.carry);
    }
}

#[test]
fn flags_unpack_pack_masks_low_nibble() {
    // Packing what a byte unpacks to keeps the high nibble and drops the
    // low one.
    for b in 0..=255u16 {
        let b = b as u8;
        assert_eq!(FlagsRegister::unpack(b).pack(), b & 0xF0);
    }
}

#[test]
fn flags_convert_through_from() {
    let f = FlagsRegister { zero: true, subtract: false, half_carry: true, carry: false };
    assert_eq!(u8::from(f), 0xA0);
    let g = FlagsRegister::from(0xA5u8);
    assert!(g.zero);
    assert!(!g.subtract);
    assert!(g.half_carry);
    assert!(!g.carry);
}

#[test]
fn af_view_packs_flags() {
    let mut cpu = new_cpu();
    cpu.registers.set_af(0x12F0);
    assert_eq!(cpu.registers.a, 0x12);
    assert!(cpu.registers.f.zero);
    assert!(cpu.registers.f.subtract);
    assert!(cpu.registers.f.half_carry);
    assert!(cpu.registers.f.carry);
    assert_eq!(cpu.registers.get_af(), 0x12F0);
    // The low nibble of the flags byte is ignored on unpack and zero on
    // pack.
    cpu.registers.set_af(0x34AF);
    assert_eq!(cpu.registers.get_af(), 0x34A0);
}

#[test]
fn pair_views_compose_high_and_low_bytes() {
    let mut cpu = new_cpu();
    cpu.registers.set_bc(0x1234);
    assert_eq!(cpu.registers.b, 0x12);
    assert_eq!(cpu.registers.c, 0x34);
    assert_eq!(cpu.registers.get_bc(), 0x1234);
    cpu.registers.set_de(0xBEEF);
    assert_eq!(cpu.registers.d, 0xBE);
    assert_eq!(cpu.registers.e, 0xEF);
    assert_eq!(cpu.registers.get_de(), 0xBEEF);
    cpu.registers.set_hl(0x8001);
    assert_eq!(cpu.registers.h, 0x80);
    assert_eq!(cpu.registers.l, 0x01);
    assert_eq!(cpu.registers.get_hl(), 0x8001);
}

#[test]
fn eight_bit_loads_move_values() {
    let mut cpu = new_cpu();
    cpu.execute(Instruction::LDri(ArithmeticTarget8::D, 0x77)).unwrap();
    assert_eq!(cpu.registers.d, 0x77);
    cpu.execute(Instruction::LDrr(ArithmeticTarget8::L, ArithmeticTarget8::D)).unwrap();
    assert_eq!(cpu.registers.l, 0x77);
    assert_eq!(cpu.registers.d, 0x77);
}

#[test]
fn sixteen_bit_loads_and_sp_moves() {
    let mut cpu = new_cpu();
    cpu.execute(Instruction::LDrrnn(ArithmeticTarget16::SP, 0xC0DE)).unwrap();
    assert_eq!(cpu.registers.sp, 0xC0DE);
    cpu.execute(Instruction::LDrrnn(ArithmeticTarget16::HL, 0x9ABC)).unwrap();
    assert_eq!(cpu.registers.get_hl(), 0x9ABC);
    cpu.execute(Instruction::LDSPHL()).unwrap();
    assert_eq!(cpu.registers.sp, 0x9ABC);
}

#[test]
fn reset_restores_the_zero_state() {
    let mut cpu = new_cpu();
    cpu.registers.set_af(0xFFF0);
    cpu.registers.set_bc(0x1111);
    cpu.registers.sp = 0x2222;
    cpu.reset();
    assert_eq!(cpu.registers.get_af(), 0);
    assert_eq!(cpu.registers.get_bc(), 0);
    assert_eq!(cpu.registers.get_de(), 0);
    assert_eq!(cpu.registers.get_hl(), 0);
    assert_eq!(cpu.registers.sp, 0);
    assert!(!cpu.registers.f.zero);
    assert!(!cpu.registers.f.subtract);
    assert!(!cpu.registers.f.half_carry);
    assert!(!cpu.registers.f.carry);
}

#[test]
fn carry_flag_controls_force_zero_set() {
    let mut cpu = new_cpu();
    cpu.execute(Instruction::SCF).unwrap();
    assert!(cpu.registers.f.carry);
    assert!(cpu.registers.f.zero);
    assert!(!cpu.registers.f.subtract);
    cpu.execute(Instruction::CCF).unwrap();
    assert!(!cpu.registers.f.carry);
    assert!(cpu.registers.f.zero);
    cpu.execute(Instruction::CCF).unwrap();
    assert!(cpu.registers.f.carry);
}

#[test]
fn flag_set_judges_half_carry_against_given_accumulator() {
    let mut f = FlagsRegister { zero: true, subtract: true, half_carry: false, carry: false };
    // 0x0F low nibble plus 0x01 low nibble crosses into bit 4.
    f.set(0x01, true, 0x0F);
    assert!(!f.zero);
    assert!(!f.subtract);
    assert!(f.half_carry);
    assert!(f.carry);
    f.set(0x00, false, 0x10);
    assert!(f.zero);
    assert!(!f.half_carry);
    assert!(!f.carry);
}
