//! The register file: eight 8-bit registers, the flag byte, the stack pointer
//! and the program counter, with the 16-bit pairs BC, DE, HL and AF.

use vstd::prelude::*;

verus! {

/// Mask of the Zero flag in the flag byte.
pub const SET_Z: u8 = 0b1000_0000;

/// Mask of the Subtract flag in the flag byte.
pub const SET_N: u8 = 0b0100_0000;

/// Mask of the Half-carry flag in the flag byte.
pub const SET_H: u8 = 0b0010_0000;

/// Mask of the Carry flag in the flag byte.
pub const SET_C: u8 = 0b0001_0000;

/// The 16-bit value whose high byte is `high` and whose low byte is `low`.
pub open spec fn pair(high: u8, low: u8) -> u16 {
    (high as int * 256 + low as int) as u16
}

/// The high byte of a 16-bit value.
pub open spec fn high_byte(value: u16) -> u8 {
    (value as int / 256) as u8
}

/// The low byte of a 16-bit value.
pub open spec fn low_byte(value: u16) -> u8 {
    (value as int % 256) as u8
}

/// The flag byte that holds exactly the four given flags: Zero in bit 7,
/// Subtract in bit 6, Half-carry in bit 5, Carry in bit 4, and a zero low
/// nibble.
pub open spec fn pack_flags(z: bool, n: bool, h: bool, c: bool) -> u8 {
    let zero: int = if z { 128 } else { 0 };
    let subtract: int = if n { 64 } else { 0 };
    let half_carry: int = if h { 32 } else { 0 };
    let carry: int = if c { 16 } else { 0 };
    (zero + subtract + half_carry + carry) as u8
}

/// Whether the Zero flag is set in a flag byte.
pub open spec fn zero_of(f: u8) -> bool {
    f as int / 128 % 2 == 1
}

/// Whether the Subtract flag is set in a flag byte.
pub open spec fn subtract_of(f: u8) -> bool {
    f as int / 64 % 2 == 1
}

/// Whether the Half-carry flag is set in a flag byte.
pub open spec fn half_carry_of(f: u8) -> bool {
    f as int / 32 % 2 == 1
}

/// Whether the Carry flag is set in a flag byte.
pub open spec fn carry_of(f: u8) -> bool {
    f as int / 16 % 2 == 1
}

/// A flag byte with its low nibble cleared.
pub open spec fn flag_bits(f: u8) -> u8 {
    (f as int - f as int % 16) as u8
}

/// How the bit operations on the flag byte read in arithmetic.
pub proof fn lemma_flag_masks(f: u8)
    ensures
        (f & SET_Z == SET_Z) == zero_of(f),
        (f & SET_N == SET_N) == subtract_of(f),
        (f & SET_H == SET_H) == half_carry_of(f),
        (f & SET_C == SET_C) == carry_of(f),
        f | SET_Z == (if zero_of(f) { f as int } else { f + 128 }),
        f | SET_N == (if subtract_of(f) { f as int } else { f + 64 }),
        f | SET_H == (if half_carry_of(f) { f as int } else { f + 32 }),
        f | SET_C == (if carry_of(f) { f as int } else { f + 16 }),
        f & !SET_Z == (if zero_of(f) { f - 128 } else { f as int }),
        f & !SET_N == (if subtract_of(f) { f - 64 } else { f as int }),
        f & !SET_H == (if half_carry_of(f) { f - 32 } else { f as int }),
        f & !SET_C == (if carry_of(f) { f - 16 } else { f as int }),
        f & 0xf0 == flag_bits(f),
        f == pack_flags(zero_of(f), subtract_of(f), half_carry_of(f), carry_of(f)) + f % 16,
{
    assert(
        ((f & 0x80 == 0x80) == (f / 128 % 2 == 1))
        && ((f & 0x40 == 0x40) == (f / 64 % 2 == 1))
        && ((f & 0x20 == 0x20) == (f / 32 % 2 == 1))
        && ((f & 0x10 == 0x10) == (f / 16 % 2 == 1))
        && (f | 0x80 == (if f / 128 % 2 == 1 { f } else { (f + 128) as u8 }))
        && (f | 0x40 == (if f / 64 % 2 == 1 { f } else { (f + 64) as u8 }))
        && (f | 0x20 == (if f / 32 % 2 == 1 { f } else { (f + 32) as u8 }))
        && (f | 0x10 == (if f / 16 % 2 == 1 { f } else { (f + 16) as u8 }))
        && (f & !0x80u8 == (if f / 128 % 2 == 1 { (f - 128) as u8 } else { f }))
        && (f & !0x40u8 == (if f / 64 % 2 == 1 { (f - 64) as u8 } else { f }))
        && (f & !0x20u8 == (if f / 32 % 2 == 1 { (f - 32) as u8 } else { f }))
        && (f & !0x10u8 == (if f / 16 % 2 == 1 { (f - 16) as u8 } else { f }))
        && (f & 0xf0 == (f - f % 16) as u8)
        && (f == (if f / 128 % 2 == 1 { 128u8 } else { 0u8 }) + (if f / 64 % 2 == 1 { 64u8 } else { 0u8 })
            + (if f / 32 % 2 == 1 { 32u8 } else { 0u8 }) + (if f / 16 % 2 == 1 { 16u8 } else { 0u8 })
            + f % 16)
    ) by (bit_vector);
}


/// How the shifts and masks on a register pair read in arithmetic.
pub proof fn lemma_pair_bits(high: u8, low: u8, value: u16)
    ensures
        (high as u16) << 8 | (low as u16) == pair(high, low),
        (value >> 8) as u8 == high_byte(value),
        (value & 0x00ff) as u8 == low_byte(value),
        value & 0xfff0 == pair(high_byte(value), flag_bits(low_byte(value))),
{
    assert((high as u16) << 8 | (low as u16) == (high as u16) * 256 + (low as u16)) by (bit_vector);
    assert(
        (value >> 8) == value / 256
        && (value & 0x00ff) == value % 256
        && (value & 0xfff0) == (value / 256) * 256 + ((value % 256) - (value % 256) % 16)
    ) by (bit_vector);
}

/// The register file. The low nibble of `f` is meant to be zero at all times:
/// every operation of this crate that writes `f` keeps it so.
#[derive(Debug, PartialEq, Eq, Clone, Copy)]
pub struct Registers {
    pub a: u8,
    pub b: u8,
    pub c: u8,
    pub d: u8,
    pub e: u8,
    pub f: u8,
    pub h: u8,
    pub l: u8,
    pub sp: u16,
    pub pc: u16,
}

impl Default for Registers {
    fn default() -> (r: Registers)
        ensures
            r == Registers::zeroed(),
    {
        Registers::new()
    }
}

impl Registers {
    /// The register file with every register zero.
    pub open spec fn zeroed() -> Registers {
        Registers { a: 0, b: 0, c: 0, d: 0, e: 0, f: 0, h: 0, l: 0, sp: 0, pc: 0 }
    }

    /// The invariant of the flag byte: its low nibble is zero.
    pub open spec fn wf(&self) -> bool {
        self.f as int % 16 == 0
    }

    /// The pair HL.
    pub open spec fn hl(&self) -> u16 {
        pair(self.h, self.l)
    }

    /// The pair BC.
    pub open spec fn bc(&self) -> u16 {
        pair(self.b, self.c)
    }

    /// The pair DE.
    pub open spec fn de(&self) -> u16 {
        pair(self.d, self.e)
    }

    /// The pair AF.
    pub open spec fn af(&self) -> u16 {
        pair(self.a, self.f)
    }

    /// These registers with HL replaced by `value`.
    pub open spec fn with_hl(&self, value: u16) -> Registers {
        Registers { h: high_byte(value), l: low_byte(value), ..*self }
    }

    /// These registers with BC replaced by `value`.
    pub open spec fn with_bc(&self, value: u16) -> Registers {
        Registers { b: high_byte(value), c: low_byte(value), ..*self }
    }

    /// These registers with DE replaced by `value`.
    pub open spec fn with_de(&self, value: u16) -> Registers {
        Registers { d: high_byte(value), e: low_byte(value), ..*self }
    }

    /// These registers with AF replaced by `value`, the low nibble of F
    /// forced to zero.
    pub open spec fn with_af(&self, value: u16) -> Registers {
        Registers { a: high_byte(value), f: flag_bits(low_byte(value)), ..*self }
    }

    /// These registers with the flag byte replaced by `f`.
    pub open spec fn with_f(&self, f: u8) -> Registers {
        Registers { f, ..*self }
    }

    /// These registers with the four flags replaced and every other bit,
    /// the low nibble of the flag byte included, as it was.
    pub open spec fn with_flags(&self, z: bool, n: bool, h: bool, c: bool) -> Registers {
        Registers { f: (pack_flags(z, n, h, c) + self.f as int % 16) as u8, ..*self }
    }

    /// Whether the Zero flag is set.
    pub open spec fn zero(&self) -> bool {
        zero_of(self.f)
    }

    /// Whether the Subtract flag is set.
    pub open spec fn subtract(&self) -> bool {
        subtract_of(self.f)
    }

    /// Whether the Half-carry flag is set.
    pub open spec fn half_carry(&self) -> bool {
        half_carry_of(self.f)
    }

    /// Whether the Carry flag is set.
    pub open spec fn carry(&self) -> bool {
        carry_of(self.f)
    }

    /// The register file at reset: every register zero.
    pub fn new() -> (r: Registers)
        ensures
            r == Registers::zeroed(),
    {
        Registers {
            a: 0x0,
            b: 0x0,
            c: 0x0,
            d: 0x0,
            e: 0x0,
            f: 0x0,
            h: 0x0,
            l: 0x0,
            sp: 0x0,
            pc: 0x0,
        }
    }

    /// Reads HL: H is the high byte, L the low byte.
    pub fn get_hl(&self) -> (value: u16)
        ensures
            value == self.hl(),
    {
        proof {
            lemma_pair_bits(self.h, self.l, 0);
        }
        (self.h as u16) << 8 | self.l as u16
    }

    /// Reads BC: B is the high byte, C the low byte.
    pub fn get_bc(&self) -> (value: u16)
        ensures
            value == self.bc(),
    {
        proof {
            lemma_pair_bits(self.b, self.c, 0);
        }
        (self.b as u16) << 8 | self.c as u16
    }

    /// Reads DE: D is the high byte, E the low byte.
    pub fn get_de(&self) -> (value: u16)
        ensures
            value == self.de(),
    {
        proof {
            lemma_pair_bits(self.d, self.e, 0);
        }
        (self.d as u16) << 8 | self.e as u16
    }

    /// Reads AF: A is the high byte, F the low byte.
    pub fn get_af(&self) -> (value: u16)
        ensures
            value == self.af(),
    {
        proof {
            lemma_pair_bits(self.a, self.f, 0);
        }
        (self.a as u16) << 8 | self.f as u16
    }

    /// Writes HL: the high byte to H, the low byte to L.
    pub fn set_hl(&mut self, value: u16)
        ensures
            *final(self) == old(self).with_hl(value),
    {
        proof {
            lemma_pair_bits(0, 0, value);
        }
        self.h = (value >> 8) as u8;
        self.l = (value & 0x00ff) as u8;
    }

    /// Writes BC: the high byte to B, the low byte to C.
    pub fn set_bc(&mut self, value: u16)
        ensures
            *final(self) == old(self).with_bc(value),
    {
        proof {
            lemma_pair_bits(0, 0, value);
        }
        self.b = (value >> 8) as u8;
        self.c = (value & 0x00ff) as u8;
    }

    /// Writes DE: the high byte to D, the low byte to E.
    pub fn set_de(&mut self, value: u16)
        ensures
            *final(self) == old(self).with_de(value),
    {
        proof {
            lemma_pair_bits(0, 0, value);
        }
        self.d = (value >> 8) as u8;
        self.e = (value & 0x00ff) as u8;
    }

    /// Writes AF. The low nibble of `value` is dropped, so that the flag byte
    /// keeps its invariant.
    pub fn set_af(&mut self, value: u16)
        ensures
            *final(self) == old(self).with_af(value),
            final(self).wf(),
    {
        proof {
            lemma_pair_bits(0, 0, value);
            lemma_flag_masks(low_byte(value));
        }
        self.a = (value >> 8) as u8;
        self.f = (value & 0x00ff) as u8 & 0xf0;
    }
}


impl Registers {
    /// Clears the whole flag byte.
    pub fn reset_flags(&mut self)
        ensures
            *final(self) == old(self).with_f(0),
    {
        self.f = 0x0;
    }

    /// The flag byte as it stands, for saving the flags around an operation.
    pub fn get_flags(&self) -> (f: u8)
        ensures
            f == self.f,
    {
        self.f
    }

    /// Restores a saved flag byte. The low nibble of `f` is dropped.
    pub fn set_flags(&mut self, f: u8)
        ensures
            *final(self) == old(self).with_f(flag_bits(f)),
            final(self).wf(),
    {
        proof {
            lemma_flag_masks(f);
        }
        self.f = f & 0xf0;
    }

    /// Writes all four flags at once and clears the low nibble.
    pub fn put_flags(&mut self, z: bool, n: bool, h: bool, c: bool)
        ensures
            *final(self) == old(self).with_f(pack_flags(z, n, h, c)),
            final(self).wf(),
    {
        self.f = 0x0;
        if z {
            self.set_z();
        }
        if n {
            self.set_n();
        }
        if h {
            self.set_h();
        }
        if c {
            self.set_c();
        }
    }

    /// Sets the Zero flag.
    pub fn set_z(&mut self)
        ensures
            *final(self) == old(self).with_flags(
                true,
                old(self).subtract(),
                old(self).half_carry(),
                old(self).carry(),
            ),
            old(self).wf() ==> final(self).wf(),
    {
        proof {
            lemma_flag_masks(self.f);
        }
        self.f |= SET_Z;
    }

    /// Clears the Zero flag.
    pub fn reset_z(&mut self)
        ensures
            *final(self) == old(self).with_flags(
                false,
                old(self).subtract(),
                old(self).half_carry(),
                old(self).carry(),
            ),
            old(self).wf() ==> final(self).wf(),
    {
        proof {
            lemma_flag_masks(self.f);
        }
        self.f &= !SET_Z;
    }

    /// Whether the Zero flag is set.
    pub fn get_z(&self) -> (set: bool)
        ensures
            set == self.zero(),
    {
        proof {
            lemma_flag_masks(self.f);
        }
        self.f & SET_Z == SET_Z
    }

    /// Sets the Subtract flag.
    pub fn set_n(&mut self)
        ensures
            *final(self) == old(self).with_flags(
                old(self).zero(),
                true,
                old(self).half_carry(),
                old(self).carry(),
            ),
            old(self).wf() ==> final(self).wf(),
    {
        proof {
            lemma_flag_masks(self.f);
        }
        self.f |= SET_N;
    }

    /// Clears the Subtract flag.
    pub fn reset_n(&mut self)
        ensures
            *final(self) == old(self).with_flags(
                old(self).zero(),
                false,
                old(self).half_carry(),
                old(self).carry(),
            ),
            old(self).wf() ==> final(self).wf(),
    {
        proof {
            lemma_flag_masks(self.f);
        }
        self.f &= !SET_N;
    }

    /// Whether the Subtract flag is set.
    pub fn get_n(&self) -> (set: bool)
        ensures
            set == self.subtract(),
    {
        proof {
            lemma_flag_masks(self.f);
        }
        self.f & SET_N == SET_N
    }

    /// Sets the Half-carry flag.
    pub fn set_h(&mut self)
        ensures
            *final(self) == old(self).with_flags(
                old(self).zero(),
                old(self).subtract(),
                true,
                old(self).carry(),
            ),
            old(self).wf() ==> final(self).wf(),
    {
        proof {
            lemma_flag_masks(self.f);
        }
        self.f |= SET_H;
    }

    /// Clears the Half-carry flag.
    pub fn reset_h(&mut self)
        ensures
            *final(self) == old(self).with_flags(
                old(self).zero(),
                old(self).subtract(),
                false,
                old(self).carry(),
            ),
            old(self).wf() ==> final(self).wf(),
    {
        proof {
            lemma_flag_masks(self.f);
        }
        self.f &= !SET_H;
    }

    /// Whether the Half-carry flag is set.
    pub fn get_h(&self) -> (set: bool)
        ensures
            set == self.half_carry(),
    {
        proof {
            lemma_flag_masks(self.f);
        }
        self.f & SET_H == SET_H
    }

    /// Sets the Carry flag.
    pub fn set_c(&mut self)
        ensures
            *final(self) == old(self).with_flags(
                old(self).zero(),
                old(self).subtract(),
                old(self).half_carry(),
                true,
            ),
            old(self).wf() ==> final(self).wf(),
    {
        proof {
            lemma_flag_masks(self.f);
        }
        self.f |= SET_C;
    }

    /// Clears the Carry flag.
    pub fn reset_c(&mut self)
        ensures
            *final(self) == old(self).with_flags(
                old(self).zero(),
                old(self).subtract(),
                old(self).half_carry(),
                false,
            ),
            old(self).wf() ==> final(self).wf(),
    {
        proof {
            lemma_flag_masks(self.f);
        }
        self.f &= !SET_C;
    }

    /// Whether the Carry flag is set.
    pub fn get_c(&self) -> (set: bool)
        ensures
            set == self.carry(),
    {
        proof {
            lemma_flag_masks(self.f);
        }
        self.f & SET_C == SET_C
    }
}

/// Reading a pair back after writing it gives the value written: for BC, DE
/// and HL the whole value, for AF the value without its low nibble, which the
/// flag byte never holds.
pub proof fn lemma_pair_round_trip(registers: Registers, value: u16)
    ensures
        registers.with_hl(value).hl() == value,
        registers.with_bc(value).bc() == value,
        registers.with_de(value).de() == value,
        registers.with_af(value).af() == value & 0xfff0,
        registers.with_af(value).wf(),
{
    lemma_pair_bits(0, 0, value);
}

/// Writing a pair touches the two registers of that pair and nothing else.
pub proof fn lemma_pair_write_frame(registers: Registers, value: u16)
    ensures
        registers.with_hl(value).bc() == registers.bc(),
        registers.with_hl(value).de() == registers.de(),
        registers.with_hl(value).af() == registers.af(),
        registers.with_bc(value).hl() == registers.hl(),
        registers.with_bc(value).de() == registers.de(),
        registers.with_bc(value).af() == registers.af(),
        registers.with_de(value).hl() == registers.hl(),
        registers.with_de(value).bc() == registers.bc(),
        registers.with_de(value).af() == registers.af(),
        registers.with_af(value).hl() == registers.hl(),
        registers.with_af(value).bc() == registers.bc(),
        registers.with_af(value).de() == registers.de(),
{
}

/// What the four flag predicates read from a packed flag byte, and that a
/// flag byte with a zero low nibble is the packing of its own four flags.
pub proof fn lemma_pack_flags(z: bool, n: bool, h: bool, c: bool, f: u8)
    ensures
        zero_of(pack_flags(z, n, h, c)) == z,
        subtract_of(pack_flags(z, n, h, c)) == n,
        half_carry_of(pack_flags(z, n, h, c)) == h,
        carry_of(pack_flags(z, n, h, c)) == c,
        pack_flags(z, n, h, c) as int % 16 == 0,
        f as int % 16 == 0 ==> f == pack_flags(
            zero_of(f),
            subtract_of(f),
            half_carry_of(f),
            carry_of(f),
        ),
        flag_bits(f) == pack_flags(zero_of(f), subtract_of(f), half_carry_of(f), carry_of(f)),
{
    lemma_flag_masks(f);
    let packed: int = pack_flags(z, n, h, c) as int;
    let high: int = if z { 1 } else { 0 };
    let rest: int = packed - 128 * high;
    assert(0 <= rest < 128);
    assert(packed / 128 == high);
    let second: int = if n { 1 } else { 0 };
    assert(packed / 64 == 2 * high + second);
    let third: int = if h { 1 } else { 0 };
    assert(packed / 32 == 4 * high + 2 * second + third);
    let fourth: int = if c { 1 } else { 0 };
    assert(packed / 16 == 8 * high + 4 * second + 2 * third + fourth);
}

} // verus!
