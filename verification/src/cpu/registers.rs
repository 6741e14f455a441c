use vstd::prelude::*;

verus! {

/// The four condition flags: bit 7 of the packed byte is Zero, bit 6 is
/// Subtract, bit 5 is Half-Carry and bit 4 is Carry; bits 3-0 are always
/// zero when packed and are ignored when unpacking.
#[derive(Clone, Copy)]
pub struct FlagsRegister {
    pub zero: bool,       // Z
    pub subtract: bool,   // N
    pub half_carry: bool, // H
    pub carry: bool,      // C
}

/// The register file: seven eight-bit general-purpose slots, the flags and
/// the sixteen-bit stack pointer. The pairs AF, BC, DE and HL are derived
/// views, computed on access and never stored.
pub struct Registers {
    pub a: u8,
    pub b: u8,
    pub c: u8,
    pub d: u8,
    pub e: u8,
    pub f: FlagsRegister,
    pub h: u8,
    pub l: u8,
    pub sp: u16,
}

/// The packed flags byte built from the four booleans: Z in bit 7, N in
/// bit 6, H in bit 5, C in bit 4, low nibble zero.
pub open spec fn flags_byte(z: bool, n: bool, h: bool, c: bool) -> u8 {
    (if z { 0x80u8 } else { 0u8 }) | (if n { 0x40u8 } else { 0u8 })
        | (if h { 0x20u8 } else { 0u8 }) | (if c { 0x10u8 } else { 0u8 })
}

/// Packs a flags value into its byte form.
pub open spec fn spec_pack_flags(f: FlagsRegister) -> u8 {
    flags_byte(f.zero, f.subtract, f.half_carry, f.carry)
}

/// Unpacks a byte into the four flags, reading bits 7-4 and ignoring the
/// low nibble.
pub open spec fn spec_unpack_flags(b: u8) -> FlagsRegister {
    FlagsRegister {
        zero: (b >> 7) & 1 == 1,
        subtract: (b >> 6) & 1 == 1,
        half_carry: (b >> 5) & 1 == 1,
        carry: (b >> 4) & 1 == 1,
    }
}

/// The flag outcome shared by the eight-bit-add style updates: `value` is
/// the byte the flags are judged against, `overflow` becomes Carry, and
/// Half-Carry compares the low nibbles of `a` and `value`. Subtract is
/// always cleared.
pub open spec fn spec_flag_set(value: u8, overflow: bool, a: u8) -> FlagsRegister {
    FlagsRegister {
        zero: value == 0,
        subtract: false,
        half_carry: (a & 0xF) + (value & 0xF) > 0xF,
        carry: overflow,
    }
}

/// A sixteen-bit pair from its high and low bytes.
pub open spec fn spec_pair(hi: u8, lo: u8) -> u16 {
    (hi * 0x100 + lo) as u16
}

/// The high byte (bits 15-8) of a sixteen-bit value.
pub open spec fn spec_hi(v: u16) -> u8 {
    (v / 0x100) as u8
}

/// The low byte (bits 7-0) of a sixteen-bit value.
pub open spec fn spec_lo(v: u16) -> u8 {
    (v % 0x100) as u8
}

/// The low nibble of a byte is at most fifteen, and masking equals taking
/// the remainder by sixteen.
pub proof fn lemma_low_nibble(v: u8)
    ensures
        v & 0xF == v % 0x10,
        v & 0xF <= 0xF,
{
    assert(v & 0xF == v % 0x10 && v & 0xF <= 0xF) by (bit_vector);
}

/// Unpacking a packed flags value gives back exactly the value packed:
/// the four booleans land in distinct bits and are read back unchanged.
pub proof fn lemma_flags_round_trip(f: FlagsRegister)
    ensures
        spec_unpack_flags(spec_pack_flags(f)) == f,
{
    let z = f.zero;
    let n = f.subtract;
    let h = f.half_carry;
    let c = f.carry;
    assert((flags_byte(z, n, h, c) >> 7) & 1 == 1 <==> z) by (bit_vector);
    assert((flags_byte(z, n, h, c) >> 6) & 1 == 1 <==> n) by (bit_vector);
    assert((flags_byte(z, n, h, c) >> 5) & 1 == 1 <==> h) by (bit_vector);
    assert((flags_byte(z, n, h, c) >> 4) & 1 == 1 <==> c) by (bit_vector);
}

/// Packing the flags unpacked from a byte keeps the high nibble and
/// clears the low one: pack and unpack are inverse on the bits that carry
/// flag information.
pub proof fn lemma_flags_pack_unpack(b: u8)
    ensures
        spec_pack_flags(spec_unpack_flags(b)) == b & 0xF0,
{
    assert(flags_byte(
        (b >> 7) & 1 == 1,
        (b >> 6) & 1 == 1,
        (b >> 5) & 1 == 1,
        (b >> 4) & 1 == 1,
    ) == b & 0xF0) by (bit_vector);
}

impl FlagsRegister {
    /// Packs the four flags into their byte form.
    pub fn pack(self) -> (b: u8)
        ensures
            b == spec_pack_flags(self),
    {
        (if self.zero { 0x80u8 } else { 0u8 }) | (if self.subtract { 0x40u8 } else { 0u8 })
            | (if self.half_carry { 0x20u8 } else { 0u8 }) | (if self.carry { 0x10u8 } else { 0u8 })
    }

    /// Unpacks a byte into the four flags, ignoring its low nibble.
    pub fn unpack(byte: u8) -> (f: FlagsRegister)
        ensures
            f == spec_unpack_flags(byte),
    {
        FlagsRegister {
            zero: (byte >> 7) & 1 == 1,
            subtract: (byte >> 6) & 1 == 1,
            half_carry: (byte >> 5) & 1 == 1,
            carry: (byte >> 4) & 1 == 1,
        }
    }

    /// Records the flags of an eight-bit-add style result: Zero from
    /// `value`, Carry from `overflow`, Half-Carry from the low nibbles of
    /// `a` and `value`, Subtract cleared.
    pub fn set(&mut self, value: u8, overflow: bool, a: u8)
        ensures
            *final(self) == spec_flag_set(value, overflow, a),
    {
        proof {
            lemma_low_nibble(a);
            lemma_low_nibble(value);
        }
        self.zero = value == 0;
        self.subtract = false;
        self.carry = overflow;
        self.half_carry = (a & 0xF) + (value & 0xF) > 0xF;
    }

    /// Sets Carry, and with it forces Zero set and Subtract clear;
    /// Half-Carry is left alone.
    pub fn set_carry_flag(&mut self)
        ensures
            *final(self) == (FlagsRegister { zero: true, subtract: false, carry: true, ..*old(self) }),
    {
        self.zero = true;
        self.subtract = false;
        self.carry = true;
    }

    /// Flips Carry, and with it forces Zero set and Subtract clear;
    /// Half-Carry is left alone.
    pub fn complement_carry_flag(&mut self)
        ensures
            *final(self) == (FlagsRegister {
                zero: true,
                subtract: false,
                carry: !old(self).carry,
                ..*old(self)
            }),
    {
        self.zero = true;
        self.subtract = false;
        self.carry = !self.carry;
    }

    /// The flag half of accumulator complement: sets Subtract and
    /// Half-Carry, leaves Zero and Carry alone.
    pub fn cpl(&mut self)
        ensures
            *final(self) == (FlagsRegister { subtract: true, half_carry: true, ..*old(self) }),
    {
        self.subtract = true;
        self.half_carry = true;
    }
}

impl core::convert::From<FlagsRegister> for u8 {
    /// The packed byte form of the flags.
    fn from(flag: FlagsRegister) -> u8 {
        flag.pack()
    }
}

impl vstd::std_specs::convert::FromSpecImpl<FlagsRegister> for u8 {
    open spec fn obeys_from_spec() -> bool {
        true
    }

    open spec fn from_spec(v: FlagsRegister) -> u8 {
        spec_pack_flags(v)
    }
}

impl core::convert::From<u8> for FlagsRegister {
    /// The flags unpacked from a byte, its low nibble ignored.
    fn from(byte: u8) -> FlagsRegister {
        FlagsRegister::unpack(byte)
    }
}

impl vstd::std_specs::convert::FromSpecImpl<u8> for FlagsRegister {
    open spec fn obeys_from_spec() -> bool {
        true
    }

    open spec fn from_spec(v: u8) -> FlagsRegister {
        spec_unpack_flags(v)
    }
}

impl Registers {
    /// The AF view: accumulator in the high byte, packed flags in the low
    /// byte.
    pub fn get_af(&self) -> (v: u16)
        ensures
            v == spec_pair(self.a, spec_pack_flags(self.f)),
    {
        (self.a as u16) * 0x100 + (self.f.pack() as u16)
    }

    /// Writes the AF view: the high byte goes to the accumulator and the
    /// low byte is unpacked into the flags.
    pub fn set_af(&mut self, value: u16)
        ensures
            *final(self) == (Registers {
                a: spec_hi(value),
                f: spec_unpack_flags(spec_lo(value)),
                ..*old(self)
            }),
    {
        self.a = (value / 0x100) as u8;
        self.f = FlagsRegister::unpack((value % 0x100) as u8);
    }

    /// The BC view: B in the high byte, C in the low byte.
    pub fn get_bc(&self) -> (v: u16)
        ensures
            v == spec_pair(self.b, self.c),
    {
        (self.b as u16) * 0x100 + (self.c as u16)
    }

    /// Writes the BC view into B and C.
    pub fn set_bc(&mut self, value: u16)
        ensures
            *final(self) == (Registers { b: spec_hi(value), c: spec_lo(value), ..*old(self) }),
    {
        self.b = (value / 0x100) as u8;
        self.c = (value % 0x100) as u8;
    }

    /// The DE view: D in the high byte, E in the low byte.
    pub fn get_de(&self) -> (v: u16)
        ensures
            v == spec_pair(self.d, self.e),
    {
        (self.d as u16) * 0x100 + (self.e as u16)
    }

    /// Writes the DE view into D and E.
    pub fn set_de(&mut self, value: u16)
        ensures
            *final(self) == (Registers { d: spec_hi(value), e: spec_lo(value), ..*old(self) }),
    {
        self.d = (value / 0x100) as u8;
        self.e = (value % 0x100) as u8;
    }

    /// The HL view: H in the high byte, L in the low byte.
    pub fn get_hl(&self) -> (v: u16)
        ensures
            v == spec_pair(self.h, self.l),
    {
        (self.h as u16) * 0x100 + (self.l as u16)
    }

    /// Writes the HL view into H and L.
    pub fn set_hl(&mut self, value: u16)
        ensures
            *final(self) == (Registers { h: spec_hi(value), l: spec_lo(value), ..*old(self) }),
    {
        self.h = (value / 0x100) as u8;
        self.l = (value % 0x100) as u8;
    }

    /// Records add-style flags against the current accumulator.
    pub fn set_flags(&mut self, value: u8, overflow: bool)
        ensures
            *final(self) == (Registers {
                f: spec_flag_set(value, overflow, old(self).a),
                ..*old(self)
            }),
    {
        let a = self.a;
        self.f.set(value, overflow, a);
    }

    /// Sets Carry, forcing Zero set and Subtract clear.
    pub fn set_carry_flag(&mut self)
        ensures
            *final(self) == (Registers {
                f: FlagsRegister { zero: true, subtract: false, carry: true, ..old(self).f },
                ..*old(self)
            }),
    {
        self.f.set_carry_flag();
    }

    /// Flips Carry, forcing Zero set and Subtract clear.
    pub fn complement_carry_flag(&mut self)
        ensures
            *final(self) == (Registers {
                f: FlagsRegister {
                    zero: true,
                    subtract: false,
                    carry: !old(self).f.carry,
                    ..old(self).f
                },
                ..*old(self)
            }),
    {
        self.f.complement_carry_flag();
    }

    /// The flag half of accumulator complement: sets Subtract and
    /// Half-Carry.
    pub fn cpl(&mut self)
        ensures
            *final(self) == (Registers {
                f: FlagsRegister { subtract: true, half_carry: true, ..old(self).f },
                ..*old(self)
            }),
    {
        self.f.cpl();
    }
}

} // verus!
