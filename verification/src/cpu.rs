pub mod instructions;
pub mod registers;

use vstd::prelude::*;

use crate::cpu::instructions::{ArithmeticTarget16, ArithmeticTarget8, Instruction};
use crate::cpu::registers::{
    lemma_low_nibble, spec_flag_set, spec_hi, spec_lo, spec_pair, FlagsRegister, Registers,
};

verus! {

/// How large the byte-addressable memory behind the stack operations is:
/// the full sixteen-bit address space.
pub const MEMORY_SIZE: usize = 0x10000;

/// The processor: the register file, the program counter (state only,
/// never advanced here), and a flat byte memory standing in for the bus
/// that stack pushes and pops go through.
pub struct CPU {
    pub registers: Registers,
    pub pc: u16,
    pub memory: Vec<u8>,
}

/// Why `execute` can refuse an instruction.
#[derive(Debug, PartialEq, Eq, Structural)]
pub enum ExecError {
    /// A bit index outside 0-7 was given to a single-bit operation.
    InvalidOperand,
    /// Reserved for builds that leave instruction variants unimplemented;
    /// this build handles every variant, so it is never returned.
    UnsupportedInstruction,
    /// Reserved for a memory collaborator that can fail; the flat memory
    /// here always succeeds, so it is never returned.
    MemoryFault,
}

/// The one register file value with everything zeroed.
pub open spec fn spec_zero_registers() -> Registers {
    Registers {
        a: 0,
        b: 0,
        c: 0,
        d: 0,
        e: 0,
        f: FlagsRegister { zero: false, subtract: false, half_carry: false, carry: false },
        h: 0,
        l: 0,
        sp: 0,
    }
}

impl CPU {
    /// The structural invariant: the backing memory covers the whole
    /// sixteen-bit address space.
    pub open spec fn wf(self) -> bool {
        self.memory@.len() == MEMORY_SIZE
    }
}

/// Whether an instruction is well-formed: the single-bit operations need
/// a bit index between zero and seven; everything else is always valid.
pub open spec fn spec_instr_valid(i: Instruction) -> bool {
    match i {
        Instruction::BITnr(n, _) => n <= 7,
        Instruction::SETnr(n, _) => n <= 7,
        Instruction::RESnr(n, _) => n <= 7,
        _ => true,
    }
}

/// Builds a processor with all registers, flags, the program counter and
/// the whole memory zeroed.
pub fn new_cpu() -> (cpu: CPU)
    ensures
        cpu.wf(),
        cpu.registers == spec_zero_registers(),
        cpu.pc == 0,
        forall|i: int| 0 <= i < MEMORY_SIZE ==> cpu.memory@[i] == 0,
{
    let mut memory: Vec<u8> = Vec::new();
    while memory.len() < MEMORY_SIZE
        invariant
            memory@.len() <= MEMORY_SIZE,
            forall|i: int| 0 <= i < memory@.len() ==> memory@[i] == 0,
        decreases MEMORY_SIZE - memory.len(),
    {
        memory.push(0);
    }
    CPU {
        registers: Registers {
            a: 0,
            b: 0,
            c: 0,
            d: 0,
            e: 0,
            f: FlagsRegister { zero: false, subtract: false, half_carry: false, carry: false },
            h: 0,
            l: 0,
            sp: 0,
        },
        pc: 0,
        memory,
    }
}

/// The value an eight-bit register slot holds.
pub open spec fn spec_read8(r: Registers, t: ArithmeticTarget8) -> u8 {
    match t {
        ArithmeticTarget8::A => r.a,
        ArithmeticTarget8::B => r.b,
        ArithmeticTarget8::C => r.c,
        ArithmeticTarget8::D => r.d,
        ArithmeticTarget8::E => r.e,
        ArithmeticTarget8::H => r.h,
        ArithmeticTarget8::L => r.l,
    }
}

/// The register file after one eight-bit slot is overwritten.
pub open spec fn spec_write8(r: Registers, t: ArithmeticTarget8, v: u8) -> Registers {
    match t {
        ArithmeticTarget8::A => Registers { a: v, ..r },
        ArithmeticTarget8::B => Registers { b: v, ..r },
        ArithmeticTarget8::C => Registers { c: v, ..r },
        ArithmeticTarget8::D => Registers { d: v, ..r },
        ArithmeticTarget8::E => Registers { e: v, ..r },
        ArithmeticTarget8::H => Registers { h: v, ..r },
        ArithmeticTarget8::L => Registers { l: v, ..r },
    }
}

/// The value a sixteen-bit pair view holds.
pub open spec fn spec_read16(r: Registers, t: ArithmeticTarget16) -> u16 {
    match t {
        ArithmeticTarget16::BC => spec_pair(r.b, r.c),
        ArithmeticTarget16::DE => spec_pair(r.d, r.e),
        ArithmeticTarget16::HL => spec_pair(r.h, r.l),
        ArithmeticTarget16::SP => r.sp,
    }
}

/// The register file after a sixteen-bit pair view is overwritten: both
/// constituent slots change, or the stack pointer alone.
pub open spec fn spec_write16(r: Registers, t: ArithmeticTarget16, v: u16) -> Registers {
    match t {
        ArithmeticTarget16::BC => Registers { b: spec_hi(v), c: spec_lo(v), ..r },
        ArithmeticTarget16::DE => Registers { d: spec_hi(v), e: spec_lo(v), ..r },
        ArithmeticTarget16::HL => Registers { h: spec_hi(v), l: spec_lo(v), ..r },
        ArithmeticTarget16::SP => Registers { sp: v, ..r },
    }
}

/// The eight-bit sum with wraparound.
pub open spec fn spec_add_result(a: u8, v: u8) -> u8 {
    ((a + v) % 0x100) as u8
}

/// The flags of an eight-bit add: Zero from the wrapped sum, Carry from
/// the eight-bit overflow, Half-Carry from the low nibbles of the
/// operands, Subtract cleared.
pub open spec fn spec_add_flags(a: u8, v: u8) -> FlagsRegister {
    FlagsRegister {
        zero: spec_add_result(a, v) == 0,
        subtract: false,
        half_carry: (a & 0xF) + (v & 0xF) > 0xF,
        carry: a + v > 0xFF,
    }
}

/// The eight-bit difference with wraparound.
pub open spec fn spec_sub_result(a: u8, v: u8) -> u8 {
    ((a - v) % 0x100) as u8
}

/// The flags of an eight-bit subtract: Zero from the wrapped difference,
/// Carry from the borrow, Half-Carry from the low-nibble borrow,
/// Subtract set.
pub open spec fn spec_sub_flags(a: u8, v: u8) -> FlagsRegister {
    FlagsRegister {
        zero: spec_sub_result(a, v) == 0,
        subtract: true,
        half_carry: (a & 0xF) < (v & 0xF),
        carry: a < v,
    }
}

/// One plain add into the accumulator, result and flags.
pub open spec fn spec_add_acc(r: Registers, v: u8) -> Registers {
    Registers { a: spec_add_result(r.a, v), f: spec_add_flags(r.a, v), ..r }
}

/// Add, or add-with-carry as two sequential plain adds: the operand
/// first, then one more if the Carry flag from before the instruction was
/// set; the flags left behind are those of the last add performed.
pub open spec fn spec_add_value(r: Registers, v: u8, with_carry: bool) -> Registers {
    if with_carry && r.f.carry {
        spec_add_acc(spec_add_acc(r, v), 1)
    } else {
        spec_add_acc(r, v)
    }
}

/// Increment of one eight-bit register: an add of one applied to the
/// target slot, with the add flag rules judged against that slot's old
/// value.
pub open spec fn spec_inc8(r: Registers, t: ArithmeticTarget8) -> Registers {
    let v = spec_read8(r, t);
    spec_write8(Registers { f: spec_add_flags(v, 1), ..r }, t, spec_add_result(v, 1))
}

/// Decrement of one eight-bit register: a subtract of one applied to the
/// target slot, with the subtract flag rules judged against that slot's
/// old value.
pub open spec fn spec_dec8(r: Registers, t: ArithmeticTarget8) -> Registers {
    let v = spec_read8(r, t);
    spec_write8(Registers { f: spec_sub_flags(v, 1), ..r }, t, spec_sub_result(v, 1))
}

/// A sixteen-bit value one higher, wrapping past 0xFFFF to zero.
pub open spec fn spec_wrap_inc16(v: u16) -> u16 {
    ((v + 1) % 0x10000) as u16
}

/// A sixteen-bit value one lower, wrapping past zero to 0xFFFF.
pub open spec fn spec_wrap_dec16(v: u16) -> u16 {
    ((v - 1) % 0x10000) as u16
}

/// HL plus a pair, with sixteen-bit wraparound: Carry records the
/// sixteen-bit overflow, and Zero and Half-Carry are recomputed from the
/// low byte of the result by the same rule the eight-bit add-style flag
/// update uses, judged against the accumulator.
pub open spec fn spec_add_hl(r: Registers, p: ArithmeticTarget16) -> Registers {
    let sum = spec_pair(r.h, r.l) + spec_read16(r, p);
    let wrapped = (sum % 0x10000) as u16;
    Registers {
        h: spec_hi(wrapped),
        l: spec_lo(wrapped),
        f: spec_flag_set(spec_lo(wrapped), sum > 0xFFFF, r.a),
        ..r
    }
}

/// Bit 7 of a byte, the one a left shift pushes out.
pub open spec fn spec_bit7(v: u8) -> bool {
    (v >> 7) & 1 == 1
}

/// Bit 0 of a byte, the one a right shift pushes out.
pub open spec fn spec_bit0(v: u8) -> bool {
    v & 1 == 1
}

/// Circular left rotate by one: bit 7 re-enters as bit 0.
pub open spec fn spec_rotl(v: u8) -> u8 {
    (v << 1) | (v >> 7)
}

/// Circular right rotate by one: bit 0 re-enters as bit 7.
pub open spec fn spec_rotr(v: u8) -> u8 {
    (v >> 1) | (v << 7)
}

/// Left rotate through carry: the old Carry flag enters as bit 0 while
/// bit 7 leaves for the Carry flag.
pub open spec fn spec_rotl_through(v: u8, carry: bool) -> u8 {
    (v << 1) | (if carry { 1u8 } else { 0u8 })
}

/// Right rotate through carry: the old Carry flag enters as bit 7 while
/// bit 0 leaves for the Carry flag.
pub open spec fn spec_rotr_through(v: u8, carry: bool) -> u8 {
    (v >> 1) | (if carry { 0x80u8 } else { 0u8 })
}

/// Rotate of one register by one bit: the rotated byte is written back
/// and Carry records the bit shifted out; the other flags are untouched.
pub open spec fn spec_rotate_r(r: Registers, t: ArithmeticTarget8, left: bool, through: bool) -> Registers {
    let v = spec_read8(r, t);
    let result = if left {
        if through { spec_rotl_through(v, r.f.carry) } else { spec_rotl(v) }
    } else {
        if through { spec_rotr_through(v, r.f.carry) } else { spec_rotr(v) }
    };
    let out = if left { spec_bit7(v) } else { spec_bit0(v) };
    spec_write8(Registers { f: FlagsRegister { carry: out, ..r.f }, ..r }, t, result)
}

/// Rotate of the accumulator by one bit: like the register rotate, but
/// Zero, Subtract and Half-Carry are cleared as well.
pub open spec fn spec_rotate_a(r: Registers, left: bool, through: bool) -> Registers {
    let v = r.a;
    let result = if left {
        if through { spec_rotl_through(v, r.f.carry) } else { spec_rotl(v) }
    } else {
        if through { spec_rotr_through(v, r.f.carry) } else { spec_rotr(v) }
    };
    let out = if left { spec_bit7(v) } else { spec_bit0(v) };
    Registers {
        a: result,
        f: FlagsRegister { zero: false, subtract: false, half_carry: false, carry: out },
        ..r
    }
}

/// Arithmetic shift by one bit: a left shift zero-fills bit 0, a right
/// shift keeps the sign bit; Carry records the bit shifted out and the
/// other flags are untouched.
pub open spec fn spec_shift_arithmetic(r: Registers, t: ArithmeticTarget8, left: bool) -> Registers {
    let v = spec_read8(r, t);
    let result = if left { v << 1 } else { (v >> 1) | (v & 0x80) };
    let out = if left { spec_bit7(v) } else { spec_bit0(v) };
    spec_write8(Registers { f: FlagsRegister { carry: out, ..r.f }, ..r }, t, result)
}

/// Logical shift by one bit: both directions zero-fill; Carry records the
/// bit shifted out and the other flags are untouched.
pub open spec fn spec_shift_logical(r: Registers, t: ArithmeticTarget8, left: bool) -> Registers {
    let v = spec_read8(r, t);
    let result = if left { v << 1 } else { v >> 1 };
    let out = if left { spec_bit7(v) } else { spec_bit0(v) };
    spec_write8(Registers { f: FlagsRegister { carry: out, ..r.f }, ..r }, t, result)
}

/// Nibble swap: the high and low four bits of the register exchange
/// places; no flag changes.
pub open spec fn spec_swap(r: Registers, t: ArithmeticTarget8) -> Registers {
    let v = spec_read8(r, t);
    spec_write8(r, t, (v << 4) | (v >> 4))
}

/// Bit test: Zero records whether bit `n` of the register is clear,
/// Subtract is cleared, Half-Carry is set, Carry is untouched; no
/// register changes.
pub open spec fn spec_bit_test(r: Registers, n: u8, t: ArithmeticTarget8) -> Registers {
    Registers {
        f: FlagsRegister {
            zero: (1u8 << n) & spec_read8(r, t) == 0,
            subtract: false,
            half_carry: true,
            carry: r.f.carry,
        },
        ..r
    }
}

/// Bit set: bit `n` of the register becomes one; no flag changes.
pub open spec fn spec_bit_set(r: Registers, n: u8, t: ArithmeticTarget8) -> Registers {
    spec_write8(r, t, spec_read8(r, t) | (1u8 << n))
}

/// Bit clear: bit `n` of the register becomes zero; no flag changes.
pub open spec fn spec_bit_res(r: Registers, n: u8, t: ArithmeticTarget8) -> Registers {
    spec_write8(r, t, spec_read8(r, t) & ((1u8 << n) ^ 0xFF))
}

/// One plain subtract from the accumulator, result and flags.
pub open spec fn spec_sub_acc(r: Registers, v: u8) -> Registers {
    Registers { a: spec_sub_result(r.a, v), f: spec_sub_flags(r.a, v), ..r }
}

/// Subtract, or subtract-with-carry as two sequential plain subtracts,
/// mirroring `spec_add_value`.
pub open spec fn spec_sub_value(r: Registers, v: u8, with_carry: bool) -> Registers {
    if with_carry && r.f.carry {
        spec_sub_acc(spec_sub_acc(r, v), 1)
    } else {
        spec_sub_acc(r, v)
    }
}

/// The register file after one valid instruction executes against
/// register state `r` and memory `mem`: the transition function the
/// execution engine is held to.
pub open spec fn spec_step_regs(r: Registers, mem: Seq<u8>, i: Instruction) -> Registers {
    match i {
        Instruction::LDrr(d, s) => spec_write8(r, d, spec_read8(r, s)),
        Instruction::LDri(d, v) => spec_write8(r, d, v),
        Instruction::ADDr(t) => spec_add_value(r, spec_read8(r, t), false),
        Instruction::ADDi(v) => spec_add_value(r, v, false),
        Instruction::ADCr(t) => spec_add_value(r, spec_read8(r, t), true),
        Instruction::ADCi(v) => spec_add_value(r, v, true),
        Instruction::SUBr(t) => spec_sub_value(r, spec_read8(r, t), false),
        Instruction::SUBi(v) => spec_sub_value(r, v, false),
        Instruction::SBCr(t) => spec_sub_value(r, spec_read8(r, t), true),
        Instruction::SBCi(v) => spec_sub_value(r, v, true),
        Instruction::ANDr(t) => Registers { a: r.a & spec_read8(r, t), ..r },
        Instruction::ANDi(v) => Registers { a: r.a & v, ..r },
        Instruction::XORr(t) => Registers { a: r.a ^ spec_read8(r, t), ..r },
        Instruction::XORi(v) => Registers { a: r.a ^ v, ..r },
        Instruction::ORr(t) => Registers { a: r.a | spec_read8(r, t), ..r },
        Instruction::ORi(v) => Registers { a: r.a | v, ..r },
        Instruction::CPr(t) => Registers { f: spec_sub_flags(r.a, spec_read8(r, t)), ..r },
        Instruction::CPi(v) => Registers { f: spec_sub_flags(r.a, v), ..r },
        Instruction::INCr(t) => spec_inc8(r, t),
        Instruction::DECr(t) => spec_dec8(r, t),
        Instruction::CPL => Registers {
            a: (0xFF - r.a) as u8,
            f: FlagsRegister { subtract: true, half_carry: true, ..r.f },
            ..r
        },
        Instruction::ADDHLRR(p) => spec_add_hl(r, p),
        Instruction::INCRR(p) => spec_write16(r, p, spec_wrap_inc16(spec_read16(r, p))),
        Instruction::DECRR(p) => spec_write16(r, p, spec_wrap_dec16(spec_read16(r, p))),
        Instruction::RLCA => spec_rotate_a(r, true, false),
        Instruction::RLA => spec_rotate_a(r, true, true),
        Instruction::RRCA => spec_rotate_a(r, false, false),
        Instruction::RRA => spec_rotate_a(r, false, true),
        Instruction::RLCr(t) => spec_rotate_r(r, t, true, false),
        Instruction::RRCr(t) => spec_rotate_r(r, t, false, false),
        Instruction::RLr(t) => spec_rotate_r(r, t, true, true),
        Instruction::RRr(t) => spec_rotate_r(r, t, false, true),
        Instruction::SLAr(t) => spec_shift_arithmetic(r, t, true),
        Instruction::SRAr(t) => spec_shift_arithmetic(r, t, false),
        Instruction::SRLr(t) => spec_shift_logical(r, t, false),
        Instruction::SWAPr(t) => spec_swap(r, t),
        Instruction::BITnr(n, t) => spec_bit_test(r, n, t),
        Instruction::SETnr(n, t) => spec_bit_set(r, n, t),
        Instruction::RESnr(n, t) => spec_bit_res(r, n, t),
        Instruction::LDrrnn(p, v) => spec_write16(r, p, v),
        Instruction::LDSPHL() => Registers { sp: spec_pair(r.h, r.l), ..r },
        Instruction::PUSH(_) => Registers {
            sp: spec_wrap_dec16(spec_wrap_dec16(r.sp)),
            ..r
        },
        Instruction::POP(p) => {
            let lsb = mem[r.sp as int];
            let sp1 = spec_wrap_inc16(r.sp);
            let msb = mem[sp1 as int];
            let sp2 = spec_wrap_inc16(sp1);
            spec_write16(Registers { sp: sp2, ..r }, p, spec_pair(msb, lsb))
        },
        Instruction::SCF => Registers {
            f: FlagsRegister { zero: true, subtract: false, carry: true, ..r.f },
            ..r
        },
        Instruction::CCF => Registers {
            f: FlagsRegister { zero: true, subtract: false, carry: !r.f.carry, ..r.f },
            ..r
        },
        Instruction::NOP => r,
        Instruction::HALT => r,
    }
}

/// The loads and accumulator arithmetic/logic handled by the first
/// dispatch stage.
spec fn is_acc_alu_instr(i: Instruction) -> bool {
    match i {
        Instruction::LDrr(_, _) => true,
        Instruction::LDri(_, _) => true,
        Instruction::ADDr(_) => true,
        Instruction::ADDi(_) => true,
        Instruction::ADCr(_) => true,
        Instruction::ADCi(_) => true,
        Instruction::SUBr(_) => true,
        Instruction::SUBi(_) => true,
        Instruction::SBCr(_) => true,
        Instruction::SBCi(_) => true,
        Instruction::ANDr(_) => true,
        Instruction::ANDi(_) => true,
        Instruction::XORr(_) => true,
        Instruction::XORi(_) => true,
        Instruction::ORr(_) => true,
        Instruction::ORi(_) => true,
        Instruction::CPr(_) => true,
        Instruction::CPi(_) => true,
        _ => false,
    }
}

/// The register increments/decrements, sixteen-bit arithmetic and loads,
/// and control instructions handled by the second dispatch stage.
spec fn is_reg16_control_instr(i: Instruction) -> bool {
    match i {
        Instruction::INCr(_) => true,
        Instruction::DECr(_) => true,
        Instruction::CPL => true,
        Instruction::ADDHLRR(_) => true,
        Instruction::INCRR(_) => true,
        Instruction::DECRR(_) => true,
        Instruction::LDrrnn(_, _) => true,
        Instruction::LDSPHL() => true,
        Instruction::SCF => true,
        Instruction::CCF => true,
        Instruction::NOP => true,
        Instruction::HALT => true,
        _ => false,
    }
}

/// The rotates, shifts, single-bit operations and stack operations
/// handled by the third dispatch stage.
spec fn is_rot_bit_stack_instr(i: Instruction) -> bool {
    match i {
        Instruction::RLCA => true,
        Instruction::RLA => true,
        Instruction::RRCA => true,
        Instruction::RRA => true,
        Instruction::RLCr(_) => true,
        Instruction::RRCr(_) => true,
        Instruction::RLr(_) => true,
        Instruction::RRr(_) => true,
        Instruction::SLAr(_) => true,
        Instruction::SRAr(_) => true,
        Instruction::SRLr(_) => true,
        Instruction::SWAPr(_) => true,
        Instruction::BITnr(_, _) => true,
        Instruction::SETnr(_, _) => true,
        Instruction::RESnr(_, _) => true,
        Instruction::PUSH(_) => true,
        Instruction::POP(_) => true,
        _ => false,
    }
}

/// The memory after one valid instruction executes: only a push writes,
/// placing the pair's high byte at the higher of the two addresses below
/// the old stack pointer.
pub open spec fn spec_step_mem(r: Registers, mem: Seq<u8>, i: Instruction) -> Seq<u8> {
    match i {
        Instruction::PUSH(p) => {
            let v = spec_read16(r, p);
            let sp1 = spec_wrap_dec16(r.sp);
            let sp2 = spec_wrap_dec16(sp1);
            mem.update(sp1 as int, spec_hi(v)).update(sp2 as int, spec_lo(v))
        },
        _ => mem,
    }
}

impl CPU {
    /// Restores the zero state of the register file and program counter
    /// without touching the memory.
    pub fn reset(&mut self)
        ensures
            final(self).registers == spec_zero_registers(),
            final(self).pc == 0,
            final(self).memory == old(self).memory,
    {
        self.registers.a = 0;
        self.registers.b = 0;
        self.registers.c = 0;
        self.registers.d = 0;
        self.registers.e = 0;
        self.registers.f = FlagsRegister {
            zero: false,
            subtract: false,
            half_carry: false,
            carry: false,
        };
        self.registers.h = 0;
        self.registers.l = 0;
        self.registers.sp = 0;
        self.pc = 0;
    }

    fn read_register(&self, reg: ArithmeticTarget8) -> (v: u8)
        ensures
            v == spec_read8(self.registers, reg),
    {
        match reg {
            ArithmeticTarget8::A => self.registers.a,
            ArithmeticTarget8::B => self.registers.b,
            ArithmeticTarget8::C => self.registers.c,
            ArithmeticTarget8::D => self.registers.d,
            ArithmeticTarget8::E => self.registers.e,
            ArithmeticTarget8::H => self.registers.h,
            ArithmeticTarget8::L => self.registers.l,
        }
    }

    fn write_register(&mut self, reg: ArithmeticTarget8, value: u8)
        ensures
            final(self).registers == spec_write8(old(self).registers, reg, value),
            final(self).pc == old(self).pc,
            final(self).memory == old(self).memory,
    {
        match reg {
            ArithmeticTarget8::A => {
                self.registers.a = value;
            },
            ArithmeticTarget8::B => {
                self.registers.b = value;
            },
            ArithmeticTarget8::C => {
                self.registers.c = value;
            },
            ArithmeticTarget8::D => {
                self.registers.d = value;
            },
            ArithmeticTarget8::E => {
                self.registers.e = value;
            },
            ArithmeticTarget8::H => {
                self.registers.h = value;
            },
            ArithmeticTarget8::L => {
                self.registers.l = value;
            },
        }
    }

    fn read_register16(&self, reg: ArithmeticTarget16) -> (v: u16)
        ensures
            v == spec_read16(self.registers, reg),
    {
        match reg {
            ArithmeticTarget16::BC => self.registers.get_bc(),
            ArithmeticTarget16::DE => self.registers.get_de(),
            ArithmeticTarget16::HL => self.registers.get_hl(),
            ArithmeticTarget16::SP => self.registers.sp,
        }
    }

    fn write_register16(&mut self, reg: ArithmeticTarget16, value: u16)
        ensures
            final(self).registers == spec_write16(old(self).registers, reg, value),
            final(self).pc == old(self).pc,
            final(self).memory == old(self).memory,
    {
        match reg {
            ArithmeticTarget16::BC => self.registers.set_bc(value),
            ArithmeticTarget16::DE => self.registers.set_de(value),
            ArithmeticTarget16::HL => self.registers.set_hl(value),
            ArithmeticTarget16::SP => self.registers.sp = value,
        }
    }

    /// One plain eight-bit add against the accumulator: writes the flags,
    /// returns the wrapped sum, leaves the accumulator itself to the
    /// caller.
    fn add(&mut self, value: u8) -> (result: u8)
        ensures
            result == spec_add_result(old(self).registers.a, value),
            final(self).registers == (Registers {
                f: spec_add_flags(old(self).registers.a, value),
                ..old(self).registers
            }),
            final(self).pc == old(self).pc,
            final(self).memory == old(self).memory,
    {
        let a = self.registers.a;
        proof {
            lemma_low_nibble(a);
            lemma_low_nibble(value);
        }
        let sum: u16 = a as u16 + value as u16;
        let result: u8 = (sum % 0x100) as u8;
        self.registers.f = FlagsRegister {
            zero: result == 0,
            subtract: false,
            half_carry: (a & 0xF) + (value & 0xF) > 0xF,
            carry: sum > 0xFF,
        };
        result
    }

    fn add_value(&mut self, value: u8, with_carry: bool)
        ensures
            final(self).registers == spec_add_value(old(self).registers, value, with_carry),
            final(self).pc == old(self).pc,
            final(self).memory == old(self).memory,
    {
        let carry_in = self.registers.f.carry;
        let new_value = self.add(value);
        self.registers.a = new_value;
        if with_carry && carry_in {
            let new_value = self.add(1);
            self.registers.a = new_value;
        }
    }

    fn add_register(&mut self, reg: ArithmeticTarget8, with_carry: bool)
        ensures
            final(self).registers == spec_add_value(
                old(self).registers,
                spec_read8(old(self).registers, reg),
                with_carry,
            ),
            final(self).pc == old(self).pc,
            final(self).memory == old(self).memory,
    {
        let value = self.read_register(reg);
        self.add_value(value, with_carry);
    }

    /// One plain eight-bit subtract against the accumulator: writes the
    /// flags, returns the wrapped difference, leaves the accumulator to
    /// the caller.
    fn sub(&mut self, value: u8) -> (result: u8)
        ensures
            result == spec_sub_result(old(self).registers.a, value),
            final(self).registers == (Registers {
                f: spec_sub_flags(old(self).registers.a, value),
                ..old(self).registers
            }),
            final(self).pc == old(self).pc,
            final(self).memory == old(self).memory,
    {
        let a = self.registers.a;
        proof {
            lemma_low_nibble(a);
            lemma_low_nibble(value);
        }
        let diff: u16 = (a as u16 + 0x100) - (value as u16);
        let result: u8 = (diff % 0x100) as u8;
        self.registers.f = FlagsRegister {
            zero: result == 0,
            subtract: true,
            half_carry: (a & 0xF) < (value & 0xF),
            carry: a < value,
        };
        result
    }

    fn sub_value(&mut self, value: u8, with_carry: bool)
        ensures
            final(self).registers == spec_sub_value(old(self).registers, value, with_carry),
            final(self).pc == old(self).pc,
            final(self).memory == old(self).memory,
    {
        let carry_in = self.registers.f.carry;
        let new_value = self.sub(value);
        self.registers.a = new_value;
        if with_carry && carry_in {
            let new_value = self.sub(1);
            self.registers.a = new_value;
        }
    }

    fn sub_register(&mut self, reg: ArithmeticTarget8, with_carry: bool)
        ensures
            final(self).registers == spec_sub_value(
                old(self).registers,
                spec_read8(old(self).registers, reg),
                with_carry,
            ),
            final(self).pc == old(self).pc,
            final(self).memory == old(self).memory,
    {
        let value = self.read_register(reg);
        self.sub_value(value, with_carry);
    }

    fn and_value(&mut self, value: u8)
        ensures
            final(self).registers == (Registers {
                a: old(self).registers.a & value,
                ..old(self).registers
            }),
            final(self).pc == old(self).pc,
            final(self).memory == old(self).memory,
    {
        self.registers.a = self.registers.a & value;
    }

    fn and_register(&mut self, reg: ArithmeticTarget8)
        ensures
            final(self).registers == (Registers {
                a: old(self).registers.a & spec_read8(old(self).registers, reg),
                ..old(self).registers
            }),
            final(self).pc == old(self).pc,
            final(self).memory == old(self).memory,
    {
        let value = self.read_register(reg);
        self.and_value(value);
    }

    fn xor_value(&mut self, value: u8)
        ensures
            final(self).registers == (Registers {
                a: old(self).registers.a ^ value,
                ..old(self).registers
            }),
            final(self).pc == old(self).pc,
            final(self).memory == old(self).memory,
    {
        self.registers.a = self.registers.a ^ value;
    }

    fn xor_register(&mut self, reg: ArithmeticTarget8)
        ensures
            final(self).registers == (Registers {
                a: old(self).registers.a ^ spec_read8(old(self).registers, reg),
                ..old(self).registers
            }),
            final(self).pc == old(self).pc,
            final(self).memory == old(self).memory,
    {
        let value = self.read_register(reg);
        self.xor_value(value);
    }

    fn or_value(&mut self, value: u8)
        ensures
            final(self).registers == (Registers {
                a: old(self).registers.a | value,
                ..old(self).registers
            }),
            final(self).pc == old(self).pc,
            final(self).memory == old(self).memory,
    {
        self.registers.a = self.registers.a | value;
    }

    fn or_register(&mut self, reg: ArithmeticTarget8)
        ensures
            final(self).registers == (Registers {
                a: old(self).registers.a | spec_read8(old(self).registers, reg),
                ..old(self).registers
            }),
            final(self).pc == old(self).pc,
            final(self).memory == old(self).memory,
    {
        let value = self.read_register(reg);
        self.or_value(value);
    }

    /// Compare: the subtract flag update with the difference discarded.
    fn cp_value(&mut self, value: u8)
        ensures
            final(self).registers == (Registers {
                f: spec_sub_flags(old(self).registers.a, value),
                ..old(self).registers
            }),
            final(self).pc == old(self).pc,
            final(self).memory == old(self).memory,
    {
        let _ = self.sub(value);
    }

    fn cp_register(&mut self, reg: ArithmeticTarget8)
        ensures
            final(self).registers == (Registers {
                f: spec_sub_flags(old(self).registers.a, spec_read8(old(self).registers, reg)),
                ..old(self).registers
            }),
            final(self).pc == old(self).pc,
            final(self).memory == old(self).memory,
    {
        let value = self.read_register(reg);
        self.cp_value(value);
    }

    fn inc_register(&mut self, reg: ArithmeticTarget8)
        ensures
            final(self).registers == spec_inc8(old(self).registers, reg),
            final(self).pc == old(self).pc,
            final(self).memory == old(self).memory,
    {
        let v = self.read_register(reg);
        proof {
            lemma_low_nibble(v);
            lemma_low_nibble(1u8);
        }
        let sum: u16 = v as u16 + 1;
        let result: u8 = (sum % 0x100) as u8;
        self.registers.f = FlagsRegister {
            zero: result == 0,
            subtract: false,
            half_carry: (v & 0xF) + 1 > 0xF,
            carry: sum > 0xFF,
        };
        self.write_register(reg, result);
    }

    fn dec_register(&mut self, reg: ArithmeticTarget8)
        ensures
            final(self).registers == spec_dec8(old(self).registers, reg),
            final(self).pc == old(self).pc,
            final(self).memory == old(self).memory,
    {
        let v = self.read_register(reg);
        proof {
            lemma_low_nibble(v);
            lemma_low_nibble(1u8);
        }
        let diff: u16 = (v as u16 + 0x100) - 1;
        let result: u8 = (diff % 0x100) as u8;
        self.registers.f = FlagsRegister {
            zero: result == 0,
            subtract: true,
            half_carry: (v & 0xF) < 1,
            carry: v < 1,
        };
        self.write_register(reg, result);
    }

    fn inc_register16(&mut self, reg: ArithmeticTarget16)
        ensures
            final(self).registers == spec_write16(
                old(self).registers,
                reg,
                spec_wrap_inc16(spec_read16(old(self).registers, reg)),
            ),
            final(self).pc == old(self).pc,
            final(self).memory == old(self).memory,
    {
        let v = self.read_register16(reg);
        let next = if v == 0xFFFF { 0 } else { v + 1 };
        self.write_register16(reg, next);
    }

    fn dec_register16(&mut self, reg: ArithmeticTarget16)
        ensures
            final(self).registers == spec_write16(
                old(self).registers,
                reg,
                spec_wrap_dec16(spec_read16(old(self).registers, reg)),
            ),
            final(self).pc == old(self).pc,
            final(self).memory == old(self).memory,
    {
        let v = self.read_register16(reg);
        let next = if v == 0 { 0xFFFF } else { v - 1 };
        self.write_register16(reg, next);
    }

    /// Accumulator complement: A becomes its one's complement, Subtract
    /// and Half-Carry are set, Zero and Carry are untouched.
    fn cpl(&mut self)
        ensures
            final(self).registers == (Registers {
                a: (0xFF - old(self).registers.a) as u8,
                f: FlagsRegister { subtract: true, half_carry: true, ..old(self).registers.f },
                ..old(self).registers
            }),
            final(self).pc == old(self).pc,
            final(self).memory == old(self).memory,
    {
        self.registers.a = 0xFF - self.registers.a;
        self.registers.cpl();
    }

    fn set_carry_flag(&mut self)
        ensures
            final(self).registers == (Registers {
                f: FlagsRegister {
                    zero: true,
                    subtract: false,
                    carry: true,
                    ..old(self).registers.f
                },
                ..old(self).registers
            }),
            final(self).pc == old(self).pc,
            final(self).memory == old(self).memory,
    {
        self.registers.set_carry_flag();
    }

    fn complement_carry_flag(&mut self)
        ensures
            final(self).registers == (Registers {
                f: FlagsRegister {
                    zero: true,
                    subtract: false,
                    carry: !old(self).registers.f.carry,
                    ..old(self).registers.f
                },
                ..old(self).registers
            }),
            final(self).pc == old(self).pc,
            final(self).memory == old(self).memory,
    {
        self.registers.complement_carry_flag();
    }

    fn ld_ri(&mut self, dest_reg: ArithmeticTarget8, value: u8)
        ensures
            final(self).registers == spec_write8(old(self).registers, dest_reg, value),
            final(self).pc == old(self).pc,
            final(self).memory == old(self).memory,
    {
        self.write_register(dest_reg, value);
    }

    fn ld_rr(&mut self, dest_reg: ArithmeticTarget8, src_reg: ArithmeticTarget8)
        ensures
            final(self).registers == spec_write8(
                old(self).registers,
                dest_reg,
                spec_read8(old(self).registers, src_reg),
            ),
            final(self).pc == old(self).pc,
            final(self).memory == old(self).memory,
    {
        let value = self.read_register(src_reg);
        self.ld_ri(dest_reg, value);
    }

    fn ld_rrnn(&mut self, reg: ArithmeticTarget16, value: u16)
        ensures
            final(self).registers == spec_write16(old(self).registers, reg, value),
            final(self).pc == old(self).pc,
            final(self).memory == old(self).memory,
    {
        self.write_register16(reg, value);
    }

    fn ld_sphl(&mut self)
        ensures
            final(self).registers == (Registers {
                sp: spec_pair(old(self).registers.h, old(self).registers.l),
                ..old(self).registers
            }),
            final(self).pc == old(self).pc,
            final(self).memory == old(self).memory,
    {
        let hl = self.read_register16(ArithmeticTarget16::HL);
        self.write_register16(ArithmeticTarget16::SP, hl);
    }

    fn add_hl_rr(&mut self, src_reg: ArithmeticTarget16)
        ensures
            final(self).registers == spec_add_hl(old(self).registers, src_reg),
            final(self).pc == old(self).pc,
            final(self).memory == old(self).memory,
    {
        let hl = self.registers.get_hl();
        let rhs = self.read_register16(src_reg);
        let sum: u32 = hl as u32 + rhs as u32;
        let new_value: u16 = (sum % 0x10000) as u16;
        let overflow = sum > 0xFFFF;
        let low = (new_value % 0x100) as u8;
        self.registers.set_flags(low, overflow);
        self.registers.set_hl(new_value);
    }

    fn rotate_r_left(&mut self, reg: ArithmeticTarget8, with_carry: bool)
        ensures
            final(self).registers == spec_rotate_r(old(self).registers, reg, true, with_carry),
            final(self).pc == old(self).pc,
            final(self).memory == old(self).memory,
    {
        let v = self.read_register(reg);
        let carry_in = self.registers.f.carry;
        let result = if with_carry {
            (v << 1) | (if carry_in { 1u8 } else { 0u8 })
        } else {
            (v << 1) | (v >> 7)
        };
        self.registers.f.carry = (v >> 7) & 1 == 1;
        self.write_register(reg, result);
    }

    fn rotate_r_right(&mut self, reg: ArithmeticTarget8, with_carry: bool)
        ensures
            final(self).registers == spec_rotate_r(old(self).registers, reg, false, with_carry),
            final(self).pc == old(self).pc,
            final(self).memory == old(self).memory,
    {
        let v = self.read_register(reg);
        let carry_in = self.registers.f.carry;
        let result = if with_carry {
            (v >> 1) | (if carry_in { 0x80u8 } else { 0u8 })
        } else {
            (v >> 1) | (v << 7)
        };
        self.registers.f.carry = v & 1 == 1;
        self.write_register(reg, result);
    }

    /// Accumulator rotate left: unlike the register rotate, it also
    /// clears Zero, Subtract and Half-Carry.
    fn rotate_a_left(&mut self, with_carry: bool)
        ensures
            final(self).registers == spec_rotate_a(old(self).registers, true, with_carry),
            final(self).pc == old(self).pc,
            final(self).memory == old(self).memory,
    {
        let v = self.registers.a;
        let carry_in = self.registers.f.carry;
        let result = if with_carry {
            (v << 1) | (if carry_in { 1u8 } else { 0u8 })
        } else {
            (v << 1) | (v >> 7)
        };
        self.registers.a = result;
        self.registers.f = FlagsRegister {
            zero: false,
            subtract: false,
            half_carry: false,
            carry: (v >> 7) & 1 == 1,
        };
    }

    /// Accumulator rotate right: unlike the register rotate, it also
    /// clears Zero, Subtract and Half-Carry.
    fn rotate_a_right(&mut self, with_carry: bool)
        ensures
            final(self).registers == spec_rotate_a(old(self).registers, false, with_carry),
            final(self).pc == old(self).pc,
            final(self).memory == old(self).memory,
    {
        let v = self.registers.a;
        let carry_in = self.registers.f.carry;
        let result = if with_carry {
            (v >> 1) | (if carry_in { 0x80u8 } else { 0u8 })
        } else {
            (v >> 1) | (v << 7)
        };
        self.registers.a = result;
        self.registers.f = FlagsRegister {
            zero: false,
            subtract: false,
            half_carry: false,
            carry: v & 1 == 1,
        };
    }

    fn shift_arithmetic(&mut self, reg: ArithmeticTarget8, left: bool)
        ensures
            final(self).registers == spec_shift_arithmetic(old(self).registers, reg, left),
            final(self).pc == old(self).pc,
            final(self).memory == old(self).memory,
    {
        let v = self.read_register(reg);
        let result = if left {
            v << 1
        } else {
            (v >> 1) | (v & 0x80)
        };
        self.registers.f.carry = if left { (v >> 7) & 1 == 1 } else { v & 1 == 1 };
        self.write_register(reg, result);
    }

    fn shift_logical(&mut self, reg: ArithmeticTarget8, left: bool)
        ensures
            final(self).registers == spec_shift_logical(old(self).registers, reg, left),
            final(self).pc == old(self).pc,
            final(self).memory == old(self).memory,
    {
        let v = self.read_register(reg);
        let result = if left {
            v << 1
        } else {
            v >> 1
        };
        self.registers.f.carry = if left { (v >> 7) & 1 == 1 } else { v & 1 == 1 };
        self.write_register(reg, result);
    }

    fn swap_r(&mut self, reg: ArithmeticTarget8)
        ensures
            final(self).registers == spec_swap(old(self).registers, reg),
            final(self).pc == old(self).pc,
            final(self).memory == old(self).memory,
    {
        let v = self.read_register(reg);
        self.write_register(reg, (v << 4) | (v >> 4));
    }

    fn bit_nr(&mut self, which: u8, reg: ArithmeticTarget8) -> (r: Result<(), ExecError>)
        ensures
            which <= 7 ==> r is Ok && final(self).registers == spec_bit_test(
                old(self).registers,
                which,
                reg,
            ),
            which > 7 ==> r == Err::<(), ExecError>(ExecError::InvalidOperand) && final(self).registers
                == old(self).registers,
            final(self).pc == old(self).pc,
            final(self).memory == old(self).memory,
    {
        if which > 7 {
            return Err(ExecError::InvalidOperand);
        }
        let mask = (1u8 << which) & self.read_register(reg);
        self.registers.f.zero = mask == 0;
        self.registers.f.subtract = false;
        self.registers.f.half_carry = true;
        Ok(())
    }

    fn set_nr(&mut self, which: u8, reg: ArithmeticTarget8) -> (r: Result<(), ExecError>)
        ensures
            which <= 7 ==> r is Ok && final(self).registers == spec_bit_set(
                old(self).registers,
                which,
                reg,
            ),
            which > 7 ==> r == Err::<(), ExecError>(ExecError::InvalidOperand) && final(self).registers
                == old(self).registers,
            final(self).pc == old(self).pc,
            final(self).memory == old(self).memory,
    {
        if which > 7 {
            return Err(ExecError::InvalidOperand);
        }
        let mask = 1u8 << which;
        let value = self.read_register(reg) | mask;
        self.write_register(reg, value);
        Ok(())
    }

    fn res_nr(&mut self, which: u8, reg: ArithmeticTarget8) -> (r: Result<(), ExecError>)
        ensures
            which <= 7 ==> r is Ok && final(self).registers == spec_bit_res(
                old(self).registers,
                which,
                reg,
            ),
            which > 7 ==> r == Err::<(), ExecError>(ExecError::InvalidOperand) && final(self).registers
                == old(self).registers,
            final(self).pc == old(self).pc,
            final(self).memory == old(self).memory,
    {
        if which > 7 {
            return Err(ExecError::InvalidOperand);
        }
        let mask = (1u8 << which) ^ 0xFF;
        let value = self.read_register(reg) & mask;
        self.write_register(reg, value);
        Ok(())
    }

    /// One byte read from the flat memory standing in for the bus.
    fn read_memory(&self, address: u16) -> (v: u8)
        requires
            self.wf(),
        ensures
            v == self.memory@[address as int],
    {
        self.memory[address as usize]
    }

    /// One byte written to the flat memory standing in for the bus.
    fn write_memory(&mut self, address: u16, value: u8)
        requires
            old(self).wf(),
        ensures
            final(self).wf(),
            final(self).memory@ == old(self).memory@.update(address as int, value),
            final(self).registers == old(self).registers,
            final(self).pc == old(self).pc,
    {
        self.memory[address as usize] = value;
    }

    fn push_rr(&mut self, reg: ArithmeticTarget16)
        requires
            old(self).wf(),
        ensures
            final(self).wf(),
            final(self).registers == (Registers {
                sp: spec_wrap_dec16(spec_wrap_dec16(old(self).registers.sp)),
                ..old(self).registers
            }),
            final(self).memory@ == old(self).memory@.update(
                spec_wrap_dec16(old(self).registers.sp) as int,
                spec_hi(spec_read16(old(self).registers, reg)),
            ).update(
                spec_wrap_dec16(spec_wrap_dec16(old(self).registers.sp)) as int,
                spec_lo(spec_read16(old(self).registers, reg)),
            ),
            final(self).pc == old(self).pc,
    {
        let value = self.read_register16(reg);
        let msb = (value / 0x100) as u8;
        let lsb = (value % 0x100) as u8;
        let sp1 = if self.registers.sp == 0 { 0xFFFFu16 } else { self.registers.sp - 1 };
        self.registers.sp = sp1;
        self.write_memory(sp1, msb);
        let sp2 = if sp1 == 0 { 0xFFFFu16 } else { sp1 - 1 };
        self.registers.sp = sp2;
        self.write_memory(sp2, lsb);
    }

    fn pop_rr(&mut self, reg: ArithmeticTarget16)
        requires
            old(self).wf(),
        ensures
            final(self).wf(),
            final(self).registers == ({
                let lsb = old(self).memory@[old(self).registers.sp as int];
                let sp1 = spec_wrap_inc16(old(self).registers.sp);
                let msb = old(self).memory@[sp1 as int];
                let sp2 = spec_wrap_inc16(sp1);
                spec_write16(
                    Registers { sp: sp2, ..old(self).registers },
                    reg,
                    spec_pair(msb, lsb),
                )
            }),
            final(self).memory == old(self).memory,
            final(self).pc == old(self).pc,
    {
        let lsb = self.read_memory(self.registers.sp);
        let sp1 = if self.registers.sp == 0xFFFF { 0u16 } else { self.registers.sp + 1 };
        self.registers.sp = sp1;
        let msb = self.read_memory(sp1);
        let sp2 = if sp1 == 0xFFFF { 0u16 } else { sp1 + 1 };
        self.registers.sp = sp2;
        let value = (msb as u16) * 0x100 + (lsb as u16);
        self.write_register16(reg, value);
    }

    /// Applies one already-decoded instruction to the register file and,
    /// for stack operations, the memory. Every variant is handled; the
    /// only refusal is a single-bit operation whose index is out of
    /// range, which leaves all state untouched.
    pub fn execute(&mut self, instruction: Instruction) -> (r: Result<(), ExecError>)
        requires
            old(self).wf(),
        ensures
            final(self).wf(),
            final(self).pc == old(self).pc,
            r is Ok <==> spec_instr_valid(instruction),
            spec_instr_valid(instruction) ==> final(self).registers == spec_step_regs(
                old(self).registers,
                old(self).memory@,
                instruction,
            ) && final(self).memory@ == spec_step_mem(
                old(self).registers,
                old(self).memory@,
                instruction,
            ),
            !spec_instr_valid(instruction) ==> r == Err::<(), ExecError>(ExecError::InvalidOperand)
                && final(self).registers == old(self).registers
                && final(self).memory@ == old(self).memory@,
    {
        match instruction {
            Instruction::LDrr(..)
            | Instruction::LDri(..)
            | Instruction::ADDr(..)
            | Instruction::ADDi(..)
            | Instruction::ADCr(..)
            | Instruction::ADCi(..)
            | Instruction::SUBr(..)
            | Instruction::SUBi(..)
            | Instruction::SBCr(..)
            | Instruction::SBCi(..)
            | Instruction::ANDr(..)
            | Instruction::ANDi(..)
            | Instruction::XORr(..)
            | Instruction::XORi(..)
            | Instruction::ORr(..)
            | Instruction::ORi(..)
            | Instruction::CPr(..)
            | Instruction::CPi(..) => self.execute_acc_alu(instruction),
            Instruction::INCr(..)
            | Instruction::DECr(..)
            | Instruction::CPL
            | Instruction::ADDHLRR(..)
            | Instruction::INCRR(..)
            | Instruction::DECRR(..)
            | Instruction::LDrrnn(..)
            | Instruction::LDSPHL()
            | Instruction::SCF
            | Instruction::CCF
            | Instruction::NOP
            | Instruction::HALT => self.execute_reg16_control(instruction),
            Instruction::RLCA
            | Instruction::RLA
            | Instruction::RRCA
            | Instruction::RRA
            | Instruction::RLCr(..)
            | Instruction::RRCr(..)
            | Instruction::RLr(..)
            | Instruction::RRr(..)
            | Instruction::SLAr(..)
            | Instruction::SRAr(..)
            | Instruction::SRLr(..)
            | Instruction::SWAPr(..)
            | Instruction::BITnr(..)
            | Instruction::SETnr(..)
            | Instruction::RESnr(..)
            | Instruction::PUSH(..)
            | Instruction::POP(..) => self.execute_rot_bit_stack(instruction),
        }
    }

    /// First dispatch stage: loads and accumulator arithmetic/logic.
    fn execute_acc_alu(&mut self, instruction: Instruction) -> (r: Result<(), ExecError>)
        requires
            old(self).wf(),
            is_acc_alu_instr(instruction),
        ensures
            final(self).wf(),
            final(self).pc == old(self).pc,
            r is Ok <==> spec_instr_valid(instruction),
            spec_instr_valid(instruction) ==> final(self).registers == spec_step_regs(
                old(self).registers,
                old(self).memory@,
                instruction,
            ) && final(self).memory@ == spec_step_mem(
                old(self).registers,
                old(self).memory@,
                instruction,
            ),
            !spec_instr_valid(instruction) ==> r == Err::<(), ExecError>(ExecError::InvalidOperand)
                && final(self).registers == old(self).registers
                && final(self).memory@ == old(self).memory@,
    {
        match instruction {
            Instruction::LDrr(dest_reg, src_reg) => {
                self.ld_rr(dest_reg, src_reg);
                Ok(())
            },
            Instruction::LDri(dest_reg, value) => {
                self.ld_ri(dest_reg, value);
                Ok(())
            },
            Instruction::ADDr(reg) => {
                self.add_register(reg, false);
                Ok(())
            },
            Instruction::ADDi(value) => {
                self.add_value(value, false);
                Ok(())
            },
            Instruction::ADCr(reg) => {
                self.add_register(reg, true);
                Ok(())
            },
            Instruction::ADCi(value) => {
                self.add_value(value, true);
                Ok(())
            },
            Instruction::SUBr(reg) => {
                self.sub_register(reg, false);
                Ok(())
            },
            Instruction::SUBi(value) => {
                self.sub_value(value, false);
                Ok(())
            },
            Instruction::SBCr(reg) => {
                self.sub_register(reg, true);
                Ok(())
            },
            Instruction::SBCi(value) => {
                self.sub_value(value, true);
                Ok(())
            },
            Instruction::ANDr(reg) => {
                self.and_register(reg);
                Ok(())
            },
            Instruction::ANDi(value) => {
                self.and_value(value);
                Ok(())
            },
            Instruction::XORr(reg) => {
                self.xor_register(reg);
                Ok(())
            },
            Instruction::XORi(value) => {
                self.xor_value(value);
                Ok(())
            },
            Instruction::ORr(reg) => {
                self.or_register(reg);
                Ok(())
            },
            Instruction::ORi(value) => {
                self.or_value(value);
                Ok(())
            },
            Instruction::CPr(reg) => {
                self.cp_register(reg);
                Ok(())
            },
            Instruction::CPi(value) => {
                self.cp_value(value);
                Ok(())
            },
            // Unreachable: the dispatch stage's precondition admits only
            // its own instruction group.
            _ => Ok(()),
        }
    }

    /// Second dispatch stage: register increments/decrements, sixteen-bit
    /// arithmetic and loads, and control instructions.
    fn execute_reg16_control(&mut self, instruction: Instruction) -> (r: Result<(), ExecError>)
        requires
            old(self).wf(),
            is_reg16_control_instr(instruction),
        ensures
            final(self).wf(),
            final(self).pc == old(self).pc,
            r is Ok <==> spec_instr_valid(instruction),
            spec_instr_valid(instruction) ==> final(self).registers == spec_step_regs(
                old(self).registers,
                old(self).memory@,
                instruction,
            ) && final(self).memory@ == spec_step_mem(
                old(self).registers,
                old(self).memory@,
                instruction,
            ),
            !spec_instr_valid(instruction) ==> r == Err::<(), ExecError>(ExecError::InvalidOperand)
                && final(self).registers == old(self).registers
                && final(self).memory@ == old(self).memory@,
    {
        match instruction {
            Instruction::INCr(reg) => {
                self.inc_register(reg);
                Ok(())
            },
            Instruction::DECr(reg) => {
                self.dec_register(reg);
                Ok(())
            },
            Instruction::CPL => {
                self.cpl();
                Ok(())
            },
            Instruction::ADDHLRR(reg16) => {
                self.add_hl_rr(reg16);
                Ok(())
            },
            Instruction::INCRR(reg16) => {
                self.inc_register16(reg16);
                Ok(())
            },
            Instruction::DECRR(reg16) => {
                self.dec_register16(reg16);
                Ok(())
            },
            Instruction::LDrrnn(dest_reg, value) => {
                self.ld_rrnn(dest_reg, value);
                Ok(())
            },
            Instruction::LDSPHL() => {
                self.ld_sphl();
                Ok(())
            },
            Instruction::SCF => {
                self.set_carry_flag();
                Ok(())
            },
            Instruction::CCF => {
                self.complement_carry_flag();
                Ok(())
            },
            Instruction::NOP => Ok(()),
            Instruction::HALT => Ok(()),
            // Unreachable: the dispatch stage's precondition admits only
            // its own instruction group.
            _ => Ok(()),
        }
    }

    /// Third dispatch stage: rotates, shifts, single-bit operations and
    /// the stack operations.
    fn execute_rot_bit_stack(&mut self, instruction: Instruction) -> (r: Result<(), ExecError>)
        requires
            old(self).wf(),
            is_rot_bit_stack_instr(instruction),
        ensures
            final(self).wf(),
            final(self).pc == old(self).pc,
            r is Ok <==> spec_instr_valid(instruction),
            spec_instr_valid(instruction) ==> final(self).registers == spec_step_regs(
                old(self).registers,
                old(self).memory@,
                instruction,
            ) && final(self).memory@ == spec_step_mem(
                old(self).registers,
                old(self).memory@,
                instruction,
            ),
            !spec_instr_valid(instruction) ==> r == Err::<(), ExecError>(ExecError::InvalidOperand)
                && final(self).registers == old(self).registers
                && final(self).memory@ == old(self).memory@,
    {
        match instruction {
            Instruction::RLCA => {
                self.rotate_a_left(false);
                Ok(())
            },
            Instruction::RLA => {
                self.rotate_a_left(true);
                Ok(())
            },
            Instruction::RRCA => {
                self.rotate_a_right(false);
                Ok(())
            },
            Instruction::RRA => {
                self.rotate_a_right(true);
                Ok(())
            },
            Instruction::RLCr(reg8) => {
                self.rotate_r_left(reg8, false);
                Ok(())
            },
            Instruction::RRCr(reg8) => {
                self.rotate_r_right(reg8, false);
                Ok(())
            },
            Instruction::RLr(reg8) => {
                self.rotate_r_left(reg8, true);
                Ok(())
            },
            Instruction::RRr(reg8) => {
                self.rotate_r_right(reg8, true);
                Ok(())
            },
            Instruction::SLAr(reg8) => {
                self.shift_arithmetic(reg8, true);
                Ok(())
            },
            Instruction::SRAr(reg8) => {
                self.shift_arithmetic(reg8, false);
                Ok(())
            },
            Instruction::SRLr(reg8) => {
                self.shift_logical(reg8, false);
                Ok(())
            },
            Instruction::SWAPr(reg8) => {
                self.swap_r(reg8);
                Ok(())
            },
            Instruction::BITnr(which, reg8) => self.bit_nr(which, reg8),
            Instruction::SETnr(which, reg8) => self.set_nr(which, reg8),
            Instruction::RESnr(which, reg8) => self.res_nr(which, reg8),
            Instruction::PUSH(reg16) => {
                self.push_rr(reg16);
                Ok(())
            },
            Instruction::POP(reg16) => {
                self.pop_rr(reg16);
                Ok(())
            },
            // Unreachable: the dispatch stage's precondition admits only
            // its own instruction group.
            _ => Ok(()),
        }
    }

    /// A short fixed run of arithmetic instructions, kept as a smoke
    /// exercise of the engine; its outcome is pinned to the transition
    /// function step by step.
    pub fn test_run(&mut self)
        requires
            old(self).wf(),
        ensures
            final(self).wf(),
            final(self).pc == old(self).pc,
            final(self).memory@ == old(self).memory@,
            final(self).registers == ({
                let m = old(self).memory@;
                let r1 = spec_step_regs(
                    old(self).registers,
                    m,
                    Instruction::ADDr(ArithmeticTarget8::A),
                );
                let r2 = spec_step_regs(r1, m, Instruction::ADDi(3));
                let r3 = spec_step_regs(r2, m, Instruction::ADCr(ArithmeticTarget8::B));
                spec_step_regs(r3, m, Instruction::ADCi(2))
            }),
    {
        let _ = self.execute(Instruction::ADDr(ArithmeticTarget8::A));
        let _ = self.execute(Instruction::ADDi(3));
        let _ = self.execute(Instruction::ADCr(ArithmeticTarget8::B));
        let _ = self.execute(Instruction::ADCi(2));
    }
}

/// A sixteen-bit value is its high byte times 256 plus its low byte, so
/// reading back the pair view just written returns the value written.
pub proof fn lemma_read_write16(r: Registers, p: ArithmeticTarget16, v: u16)
    ensures
        spec_read16(spec_write16(r, p, v), p) == v,
{
    assert(spec_hi(v) * 0x100 + spec_lo(v) == v);
}

/// Splitting a composed pair returns the bytes it was composed from.
pub proof fn lemma_pair_split(hi: u8, lo: u8)
    ensures
        spec_hi(spec_pair(hi, lo)) == hi,
        spec_lo(spec_pair(hi, lo)) == lo,
{
}

/// Writing back into a pair view the value it already holds changes
/// nothing.
pub proof fn lemma_write_read16(r: Registers, p: ArithmeticTarget16)
    ensures
        spec_write16(r, p, spec_read16(r, p)) == r,
{
    match p {
        ArithmeticTarget16::BC => lemma_pair_split(r.b, r.c),
        ArithmeticTarget16::DE => lemma_pair_split(r.d, r.e),
        ArithmeticTarget16::HL => lemma_pair_split(r.h, r.l),
        ArithmeticTarget16::SP => {},
    }
}

/// Decrementing with wraparound never stays in place, and incrementing
/// undoes it.
pub proof fn lemma_wrap_inc_dec(x: u16)
    ensures
        spec_wrap_inc16(spec_wrap_dec16(x)) == x,
        spec_wrap_dec16(x) != x,
{
    if x == 0 {
        assert(spec_wrap_dec16(0) == 0xFFFF);
        assert(spec_wrap_inc16(0xFFFF) == 0);
    } else {
        assert(spec_wrap_dec16(x) == x - 1);
    }
}

/// A plain add leaves the sum modulo 256 in the accumulator, and Carry
/// records exactly whether the true sum exceeded the eight-bit range.
pub proof fn lemma_add_wraps(r: Registers, mem: Seq<u8>, v: u8)
    ensures
        spec_step_regs(r, mem, Instruction::ADDi(v)).a == (r.a + v) % 0x100,
        spec_step_regs(r, mem, Instruction::ADDi(v)).f.carry == (r.a + v > 0xFF),
{
}

/// Complementing the accumulator twice restores it, and each complement
/// sets Subtract and Half-Carry.
pub proof fn lemma_cpl_twice(r: Registers, mem: Seq<u8>)
    ensures
        spec_step_regs(spec_step_regs(r, mem, Instruction::CPL), mem, Instruction::CPL).a == r.a,
        spec_step_regs(r, mem, Instruction::CPL).f.subtract,
        spec_step_regs(r, mem, Instruction::CPL).f.half_carry,
        spec_step_regs(spec_step_regs(r, mem, Instruction::CPL), mem, Instruction::CPL).f.subtract,
        spec_step_regs(spec_step_regs(r, mem, Instruction::CPL), mem, Instruction::CPL).f.half_carry,
{
}

/// A pair increment or decrement wraps modulo 2^16 - past 0xFFFF an
/// increment reaches zero, past zero a decrement reaches 0xFFFF - and
/// neither touches the flags.
pub proof fn lemma_pair_wraps(r: Registers, mem: Seq<u8>, p: ArithmeticTarget16)
    ensures
        spec_read16(spec_step_regs(r, mem, Instruction::INCRR(p)), p) == (spec_read16(r, p) + 1)
            % 0x10000,
        spec_read16(spec_step_regs(r, mem, Instruction::DECRR(p)), p) == (spec_read16(r, p) - 1)
            % 0x10000,
        spec_step_regs(r, mem, Instruction::INCRR(p)).f == r.f,
        spec_step_regs(r, mem, Instruction::DECRR(p)).f == r.f,
{
    lemma_read_write16(r, p, spec_wrap_inc16(spec_read16(r, p)));
    lemma_read_write16(r, p, spec_wrap_dec16(spec_read16(r, p)));
}

/// Pushing a pair and then popping into the same pair restores the whole
/// register file, stack pointer included: the two bytes written below the
/// old stack pointer are read back in order and recomposed.
pub proof fn lemma_push_pop_round_trip(r: Registers, mem: Seq<u8>, p: ArithmeticTarget16)
    requires
        mem.len() == MEMORY_SIZE,
    ensures
        spec_step_regs(
            spec_step_regs(r, mem, Instruction::PUSH(p)),
            spec_step_mem(r, mem, Instruction::PUSH(p)),
            Instruction::POP(p),
        ) == r,
{
    let v = spec_read16(r, p);
    let sp1 = spec_wrap_dec16(r.sp);
    let sp2 = spec_wrap_dec16(sp1);
    let m1 = spec_step_mem(r, mem, Instruction::PUSH(p));
    lemma_wrap_inc_dec(r.sp);
    lemma_wrap_inc_dec(sp1);
    assert(m1[sp2 as int] == spec_lo(v));
    assert(m1[sp1 as int] == spec_hi(v));
    lemma_pair_split(spec_hi(v), spec_lo(v));
    assert(spec_pair(spec_hi(v), spec_lo(v)) == v);
    lemma_write_read16(r, p);
}

} // verus!
