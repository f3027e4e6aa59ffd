//! The arithmetic and flag engine: what 8-bit and 16-bit additions and
//! subtractions and the decimal correction compute, and which flags they
//! leave. Every arithmetic instruction goes through these.

use vstd::prelude::*;
use crate::cpu::CPU;
use crate::registers::pack_flags;

verus! {

/// An integer reduced to 8 bits.
pub open spec fn wrap8(value: int) -> u8 {
    (value % 0x100) as u8
}

/// An integer reduced to 16 bits.
pub open spec fn wrap16(value: int) -> u16 {
    (value % 0x10000) as u16
}

/// The carry or borrow that enters an operation: 1 when the operation asks
/// for it and the Carry flag is set, else 0.
pub open spec fn carry_in(use_carry: bool, carry: bool) -> int {
    if use_carry && carry {
        1
    } else {
        0
    }
}

/// Result of an 8-bit addition with carry-in `cin` (0 or 1).
pub open spec fn add8_value(a: u8, b: u8, cin: int) -> u8 {
    wrap8(a + b + cin)
}

/// Flags of an 8-bit addition: Zero when the truncated sum is 0, Subtract
/// clear, Half-carry when the sum of the low nibbles and the carry-in passes
/// 0xF, Carry when the full sum passes 0xFF.
pub open spec fn add8_flags(a: u8, b: u8, cin: int) -> u8 {
    pack_flags(add8_value(a, b, cin) == 0, false, a % 16 + b % 16 + cin > 0xf, a + b + cin > 0xff)
}

/// Result of a 16-bit addition with carry-in `cin` (0 or 1).
pub open spec fn add16_value(a: u16, b: u16, cin: int) -> u16 {
    wrap16(a + b + cin)
}

/// Flags of a 16-bit addition: as for 8 bits one byte up, so that Half-carry
/// is the carry out of the low byte, not out of the low nibble.
pub open spec fn add16_flags(a: u16, b: u16, cin: int) -> u8 {
    pack_flags(
        add16_value(a, b, cin) == 0,
        false,
        a % 0x100 + b % 0x100 + cin > 0xff,
        a + b + cin > 0xffff,
    )
}

/// Result of an 8-bit subtraction with borrow-in `bin` (0 or 1).
pub open spec fn sub8_value(a: u8, b: u8, bin: int) -> u8 {
    wrap8(a - b - bin)
}

/// Flags of an 8-bit subtraction: Zero when the truncated difference is 0,
/// Subtract set, Half-carry when the low nibble of `a` is below the low
/// nibble of `b + bin`, Carry when `a` is below `b + bin`.
pub open spec fn sub8_flags(a: u8, b: u8, bin: int) -> u8 {
    pack_flags(sub8_value(a, b, bin) == 0, true, a % 16 < (b + bin) % 16, a < b + bin)
}

/// Result of a 16-bit subtraction with borrow-in `bin` (0 or 1).
pub open spec fn sub16_value(a: u16, b: u16, bin: int) -> u16 {
    wrap16(a - b - bin)
}

/// Flags of a 16-bit subtraction: as for 8 bits one byte up, Half-carry
/// comparing low bytes.
pub open spec fn sub16_flags(a: u16, b: u16, bin: int) -> u8 {
    pack_flags(sub16_value(a, b, bin) == 0, true, a % 0x100 < (b + bin) % 0x100, a < b + bin)
}

/// The low four bits of a value below 32.
pub open spec fn nibble(value: int) -> int {
    if value >= 16 {
        value - 16
    } else {
        value
    }
}

/// The low nibble after its correction, before its carry is taken out: 6 is
/// added when the nibble is above 9 or Half-carry is set.
pub open spec fn daa_low(a: u8, half_carry: bool) -> int {
    if a % 16 > 9 || half_carry {
        a % 16 + 6
    } else {
        (a % 16) as int
    }
}

/// The high nibble with the carry of the corrected low nibble added: at
/// most 16.
pub open spec fn daa_high(a: u8, half_carry: bool) -> int {
    if daa_low(a, half_carry) >= 16 {
        a / 16 + 1
    } else {
        (a / 16) as int
    }
}

/// Whether the decimal correction adds 6 to the high nibble and sets Carry:
/// the high nibble, with the carry of the low nibble, is above 9, or Carry
/// was set.
pub open spec fn daa_carry(a: u8, half_carry: bool, carry: bool) -> bool {
    daa_high(a, half_carry) > 9 || carry
}

/// Result of the decimal correction of `a` under the incoming Half-carry and
/// Carry flags: the corrected high nibble over the corrected low nibble.
pub open spec fn daa_value(a: u8, half_carry: bool, carry: bool) -> u8 {
    let high: int = if daa_carry(a, half_carry, carry) {
        nibble(daa_high(a, half_carry)) + 6
    } else {
        nibble(daa_high(a, half_carry))
    };
    (nibble(high) * 16 + nibble(daa_low(a, half_carry))) as u8
}

/// Flags after the decimal correction: Zero is set when the result is 0 and
/// kept otherwise, Carry as `daa_carry` says, Subtract and Half-carry kept.
pub open spec fn daa_flags(a: u8, f: u8) -> u8 {
    let half_carry: bool = crate::registers::half_carry_of(f);
    let carry: bool = crate::registers::carry_of(f);
    pack_flags(
        crate::registers::zero_of(f) || daa_value(a, half_carry, carry) == 0,
        crate::registers::subtract_of(f),
        half_carry,
        daa_carry(a, half_carry, carry),
    )
}


impl CPU {
    /// 8-bit addition. With `carry` the Carry flag is added in. Returns the
    /// truncated sum and replaces the flags.
    pub fn add8(&mut self, a: u8, b: u8, carry: bool) -> (result: u8)
        ensures
            result == add8_value(a, b, carry_in(carry, old(self).registers.carry())),
            *final(self) == old(self).with_registers(
                old(self).registers.with_f(
                    add8_flags(a, b, carry_in(carry, old(self).registers.carry())),
                ),
            ),
            final(self).registers.wf(),
    {
        let carry_val: u8 = if carry && self.registers.get_c() {
            0x1
        } else {
            0x0
        };
        let sum: u16 = a as u16 + b as u16 + carry_val as u16;
        let half: bool = a % 0x10 + b % 0x10 + carry_val > 0x0f;
        let result: u8 = (sum % 0x100) as u8;
        self.registers.put_flags(result == 0x0, false, half, sum > 0xff);
        result
    }

    /// 16-bit addition. With `carry` the Carry flag is added in. Returns the
    /// truncated sum and replaces the flags.
    pub fn add16(&mut self, a: u16, b: u16, carry: bool) -> (result: u16)
        ensures
            result == add16_value(a, b, carry_in(carry, old(self).registers.carry())),
            *final(self) == old(self).with_registers(
                old(self).registers.with_f(
                    add16_flags(a, b, carry_in(carry, old(self).registers.carry())),
                ),
            ),
            final(self).registers.wf(),
    {
        let carry_val: u16 = if carry && self.registers.get_c() {
            0x1
        } else {
            0x0
        };
        let sum: u32 = a as u32 + b as u32 + carry_val as u32;
        let half: bool = a % 0x100 + b % 0x100 + carry_val > 0xff;
        let result: u16 = (sum % 0x10000) as u16;
        self.registers.put_flags(result == 0x0, false, half, sum > 0xffff);
        result
    }

    /// 8-bit subtraction. With `carry` the Carry flag is borrowed. Returns
    /// the truncated difference and replaces the flags.
    pub fn sub8(&mut self, a: u8, b: u8, carry: bool) -> (result: u8)
        ensures
            result == sub8_value(a, b, carry_in(carry, old(self).registers.carry())),
            *final(self) == old(self).with_registers(
                old(self).registers.with_f(
                    sub8_flags(a, b, carry_in(carry, old(self).registers.carry())),
                ),
            ),
            final(self).registers.wf(),
    {
        let carry_val: u8 = if carry && self.registers.get_c() {
            0x1
        } else {
            0x0
        };
        let subtrahend: u16 = b as u16 + carry_val as u16;
        let low: u16 = (a % 0x10) as u16;
        let half: bool = low < subtrahend % 0x10;
        let minuend: u16 = a as u16;
        let borrow: bool = minuend < subtrahend;
        let result: u8 = a.wrapping_sub(b).wrapping_sub(carry_val);
        self.registers.put_flags(result == 0x0, true, half, borrow);
        result
    }

    /// 16-bit subtraction. With `carry` the Carry flag is borrowed. Returns
    /// the truncated difference and replaces the flags.
    pub fn sub16(&mut self, a: u16, b: u16, carry: bool) -> (result: u16)
        ensures
            result == sub16_value(a, b, carry_in(carry, old(self).registers.carry())),
            *final(self) == old(self).with_registers(
                old(self).registers.with_f(
                    sub16_flags(a, b, carry_in(carry, old(self).registers.carry())),
                ),
            ),
            final(self).registers.wf(),
    {
        let carry_val: u16 = if carry && self.registers.get_c() {
            0x1
        } else {
            0x0
        };
        let subtrahend: u32 = b as u32 + carry_val as u32;
        let low: u32 = (a % 0x100) as u32;
        let half: bool = low < subtrahend % 0x100;
        let minuend: u32 = a as u32;
        let borrow: bool = minuend < subtrahend;
        let result: u16 = a.wrapping_sub(b).wrapping_sub(carry_val);
        self.registers.put_flags(result == 0x0, true, half, borrow);
        result
    }

    /// Decimal correction of `a` after an addition or subtraction of packed
    /// decimal digits. Returns the corrected byte; sets Zero when it is 0 and
    /// Carry when the high digit was corrected.
    pub fn daa(&mut self, a: u8) -> (result: u8)
        ensures
            result == daa_value(a, old(self).registers.half_carry(), old(self).registers.carry()),
            *final(self) == old(self).with_registers(
                old(self).registers.with_f(daa_flags(a, old(self).registers.f)),
            ),
            final(self).registers.wf(),
    {
        let half: bool = self.registers.get_h();
        let (byte, carry): (u8, bool) = decimal_digits(a, half, self.registers.get_c());
        let zero: bool = self.registers.get_z() || byte == 0x0;
        let subtract: bool = self.registers.get_n();
        self.registers.put_flags(zero, subtract, half, carry);
        byte
    }
}

/// The two decimal digits of the correction and the carry out of the high
/// digit.
fn decimal_digits(a: u8, half_carry: bool, carry_in: bool) -> (corrected: (u8, bool))
    ensures
        corrected.0 == daa_value(a, half_carry, carry_in),
        corrected.1 == daa_carry(a, half_carry, carry_in),
{
    let mut byte_ms: u8 = a / 0x10;
    let mut byte_ls: u8 = a % 0x10;
    let mut carry: bool = carry_in;
    if byte_ls > 9 || half_carry {
        byte_ls += 0x06;
        if byte_ls >= 0x10 {
            byte_ls -= 0x10;
            byte_ms += 0x01;
            if byte_ms >= 0x10 {
                byte_ms -= 0x10;
                carry = true;
            }
        }
    }
    if byte_ms > 9 || carry {
        byte_ms += 0x06;
        carry = true;
    }
    if byte_ms >= 0x10 {
        byte_ms -= 0x10;
    }
    let byte: u8 = byte_ms * 0x10 + byte_ls;
    (byte, carry)
}

} // verus!
