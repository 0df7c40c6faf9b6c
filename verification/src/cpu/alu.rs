//! What the arithmetic, logic, rotate and shift operations compute, and
//! the flags they leave.

use vstd::prelude::*;
use crate::bits::{
    bit, signed, weight, wrap16, wrap8, add_signed, lemma_bit_masks, lemma_nibbles,
    lemma_byte_shift, lemma_fields, lemma_word_bytes, lemma_word_low12,
};
use crate::cpu::state::{
    CPU, flags, ZERO_FLAG, SUBTRACT_FLAG, HALF_CARRY_FLAG, CARRY_FLAG,
};
use crate::cpu::{make_flags, lemma_flags_read};

verus! {

/// Rotate left: bit 7 goes to bit 0 and to carry.
#[verifier::opaque]
pub open spec fn spec_rlc(v: u8) -> (u8, bool) {
    (((v * 2) % 256 + v / 128) as u8, v >= 128)
}

/// Rotate right: bit 0 goes to bit 7 and to carry.
#[verifier::opaque]
pub open spec fn spec_rrc(v: u8) -> (u8, bool) {
    ((v / 2 + (v % 2) * 128) as u8, v % 2 == 1)
}

/// Rotate left through carry.
#[verifier::opaque]
pub open spec fn spec_rl(v: u8, carry: int) -> (u8, bool) {
    (((v * 2) % 256 + carry) as u8, v >= 128)
}

/// Rotate right through carry.
#[verifier::opaque]
pub open spec fn spec_rr(v: u8, carry: int) -> (u8, bool) {
    ((v / 2 + carry * 128) as u8, v % 2 == 1)
}

/// Shift left; bit 0 becomes 0.
#[verifier::opaque]
pub open spec fn spec_sla(v: u8) -> (u8, bool) {
    (((v * 2) % 256) as u8, v >= 128)
}

/// Shift right; bit 7 keeps its value.
#[verifier::opaque]
pub open spec fn spec_sra(v: u8) -> (u8, bool) {
    ((v / 2 + (v / 128) * 128) as u8, v % 2 == 1)
}

/// Exchange of the two nibbles.
#[verifier::opaque]
pub open spec fn spec_swap(v: u8) -> (u8, bool) {
    (((v % 16) * 16 + v / 16) as u8, false)
}

/// Shift right; bit 7 becomes 0.
#[verifier::opaque]
pub open spec fn spec_srl(v: u8) -> (u8, bool) {
    ((v / 2) as u8, v % 2 == 1)
}

/// The rotate or shift that field value `y` names, applied to `v`:
/// the result and the bit shifted out.
pub open spec fn spec_rot(y: int, v: u8, carry: int) -> (u8, bool) {
    if y == 0 {
        spec_rlc(v)
    } else if y == 1 {
        spec_rrc(v)
    } else if y == 2 {
        spec_rl(v, carry)
    } else if y == 3 {
        spec_rr(v, carry)
    } else if y == 4 {
        spec_sla(v)
    } else if y == 5 {
        spec_sra(v)
    } else if y == 6 {
        spec_swap(v)
    } else {
        spec_srl(v)
    }
}

/// `v` with bit `b` cleared.
#[verifier::opaque]
pub open spec fn spec_res(v: u8, b: int) -> u8 {
    if bit(v as int, b) {
        (v - weight(b)) as u8
    } else {
        v
    }
}

/// `v` with bit `b` set.
#[verifier::opaque]
pub open spec fn spec_set(v: u8, b: int) -> u8 {
    if bit(v as int, b) {
        v
    } else {
        (v + weight(b)) as u8
    }
}

/// F after a signed displacement was added to SP: half-carry and carry
/// are those of the unsigned addition of the low bytes.
#[verifier::opaque]
pub open spec fn offset_flags(sp: u16, e: u8) -> u8 {
    flags(false, false, sp % 16 + e % 16 > 15, sp % 256 + e > 255)
}

/// SP plus a signed displacement.
#[verifier::opaque]
pub open spec fn offset_sp(sp: u16, e: u8) -> u16 {
    wrap16(sp + signed(e))
}

impl CPU {
    #[verifier::opaque]
    pub open spec fn spec_add_a(self, n: u8) -> CPU {
        let r = wrap8(self.a + n);
        CPU {
            a: r,
            f: flags(r == 0, false, self.a % 16 + n % 16 > 15, self.a + n > 255),
            ..self
        }
    }

    #[verifier::opaque]
    pub open spec fn spec_adc_a(self, n: u8) -> CPU {
        let c = self.carry();
        let r = wrap8(self.a + n + c);
        CPU {
            a: r,
            f: flags(r == 0, false, self.a % 16 + n % 16 + c > 15, self.a + n + c > 255),
            ..self
        }
    }

    #[verifier::opaque]
    pub open spec fn spec_sub_a(self, n: u8) -> CPU {
        let r = wrap8(self.a - n);
        CPU { a: r, f: flags(r == 0, true, self.a % 16 < n % 16, self.a < n), ..self }
    }

    #[verifier::opaque]
    pub open spec fn spec_sbc_a(self, n: u8) -> CPU {
        let c = self.carry();
        let r = wrap8(self.a - n - c);
        CPU {
            a: r,
            f: flags(r == 0, true, self.a % 16 < n % 16 + c, self.a - n - c < 0),
            ..self
        }
    }

    #[verifier::opaque]
    pub open spec fn spec_and_a(self, n: u8) -> CPU {
        let r = self.a & n;
        CPU { a: r, f: flags(r == 0, false, true, false), ..self }
    }

    #[verifier::opaque]
    pub open spec fn spec_xor_a(self, n: u8) -> CPU {
        let r = self.a ^ n;
        CPU { a: r, f: flags(r == 0, false, false, false), ..self }
    }

    #[verifier::opaque]
    pub open spec fn spec_or_a(self, n: u8) -> CPU {
        let r = self.a | n;
        CPU { a: r, f: flags(r == 0, false, false, false), ..self }
    }

    /// Compare: the flags of a subtraction, A unchanged.
    #[verifier::opaque]
    pub open spec fn spec_cp_a(self, n: u8) -> CPU {
        CPU { f: self.spec_sub_a(n).f, ..self }
    }

    /// The operation on A that field value `y` names:
    /// 0 ADD, 1 ADC, 2 SUB, 3 SBC, 4 AND, 5 XOR, 6 OR, 7 CP.
    pub open spec fn spec_alu(self, y: int, n: u8) -> CPU {
        if y == 0 {
            self.spec_add_a(n)
        } else if y == 1 {
            self.spec_adc_a(n)
        } else if y == 2 {
            self.spec_sub_a(n)
        } else if y == 3 {
            self.spec_sbc_a(n)
        } else if y == 4 {
            self.spec_and_a(n)
        } else if y == 5 {
            self.spec_xor_a(n)
        } else if y == 6 {
            self.spec_or_a(n)
        } else {
            self.spec_cp_a(n)
        }
    }

    /// F after an 8-bit increment of `v`: carry kept, half-carry when the
    /// low nibble wraps.
    #[verifier::opaque]
    pub open spec fn inc_flags(self, v: u8) -> u8 {
        flags(v == 255, false, v % 16 == 15, self.flag_c())
    }

    /// F after an 8-bit decrement of `v`: carry kept, half-carry when the
    /// low nibble wraps.
    #[verifier::opaque]
    pub open spec fn dec_flags(self, v: u8) -> u8 {
        flags(v == 1, true, v % 16 == 0, self.flag_c())
    }

    /// 16-bit addition to HL: zero kept, half-carry out of bit 11.
    #[verifier::opaque]
    pub open spec fn spec_add_hl(self, v: u16) -> CPU {
        let hl = self.hl();
        CPU {
            f: flags(self.flag_z(), false, hl % 4096 + v % 4096 > 4095, hl + v > 65535),
            ..self.with_hl(wrap16(hl + v))
        }
    }

    /// Decimal adjustment of A after an addition or subtraction of packed
    /// decimal numbers.
    #[verifier::opaque]
    pub open spec fn spec_daa(self) -> CPU {
        let low = self.flag_h() || (!self.flag_n() && self.a % 16 > 9);
        let high = self.flag_c() || (!self.flag_n() && self.a > 0x99);
        let adjust = (if low { 0x06int } else { 0int }) + (if high { 0x60int } else { 0int });
        let r = if self.flag_n() {
            wrap8(self.a - adjust)
        } else {
            wrap8(self.a + adjust)
        };
        CPU { a: r, f: flags(r == 0, self.flag_n(), false, high), ..self }
    }

    #[verifier::opaque]
    pub open spec fn spec_cpl(self) -> CPU {
        CPU { a: (255 - self.a) as u8, f: flags(self.flag_z(), true, true, self.flag_c()), ..self }
    }

    #[verifier::opaque]
    pub open spec fn spec_scf(self) -> CPU {
        CPU { f: flags(self.flag_z(), false, false, true), ..self }
    }

    #[verifier::opaque]
    pub open spec fn spec_ccf(self) -> CPU {
        CPU { f: flags(self.flag_z(), false, false, !self.flag_c()), ..self }
    }

    /// A rotate of the accumulator: as the rotate that `y` names, but the
    /// zero flag is cleared whatever the result.
    #[verifier::opaque]
    pub open spec fn spec_rotate_a(self, y: int) -> CPU {
        let (r, c) = spec_rot(y, self.a, self.carry());
        CPU { a: r, f: flags(false, false, false, c), ..self }
    }

    /// F after the rotate or shift that `y` names was applied to `v`.
    #[verifier::opaque]
    pub open spec fn rot_flags(self, y: int, v: u8) -> u8 {
        let (r, c) = spec_rot(y, v, self.carry());
        flags(r == 0, false, false, c)
    }

    /// F after a test of bit `b` of `v`: zero when the bit is clear.
    #[verifier::opaque]
    pub open spec fn bit_flags(self, b: int, v: u8) -> u8 {
        flags(!bit(v as int, b), false, true, self.flag_c())
    }
}

proof fn lemma_rotates(v: u8)
    by (bit_vector)
    ensures
        (v << 1) | (v >> 7) == (((v * 2) % 256) as u8 + v / 128) as u8,
        (v >> 1) | (v << 7) == (v / 2 + ((v % 2) * 128) as u8) as u8,
        (v << 1) | 1 == (((v * 2) % 256) as u8 + 1) as u8,
        (v >> 1) | 0x80 == (v / 2 + 128) as u8,
        (v >> 1) | (v & 0x80) == (v / 2 + ((v / 128) * 128) as u8) as u8,
        ((v & 0x0F) << 4) | ((v & 0xF0) >> 4) == (((v % 16) * 16) as u8 + v / 16) as u8,
        !v == (255 - v) as u8,
        v ^ v == 0,
{
}

proof fn lemma_single_bit(v: u8, b: u8)
    by (bit_vector)
    requires
        b < 8,
    ensures
        (v & (1u8 << b) != 0) == ((v >> b) & 0x01 != 0),
        v & !(1u8 << b) == (if (v >> b) & 0x01 != 0 { (v - (1u8 << b)) as u8 } else { v }),
        v | (1u8 << b) == (if (v >> b) & 0x01 != 0 { v } else { (v + (1u8 << b)) as u8 }),
        (v >> b) & 0x01 != 0 || v <= (255u8 - (1u8 << b)) as u8,
{
}

/// Tests, clears or sets one bit of a byte: the three operations behind
/// BIT, RES and SET.
pub(crate) fn bit_is_clear(v: u8, b: u8) -> (clear: bool)
    requires
        b < 8,
    ensures
        clear == !bit(v as int, b as int),
{
    proof {
        lemma_single_bit(v, b);
        lemma_byte_shift(v, b);
        lemma_bit_masks(v >> b);
    }
    v & (1u8 << b) == 0
}

pub(crate) fn clear_bit(v: u8, b: u8) -> (r: u8)
    requires
        b < 8,
    ensures
        r == spec_res(v, b as int),
{
    proof {
        reveal(spec_res);
    }
    proof {
        lemma_single_bit(v, b);
        lemma_byte_shift(v, b);
        lemma_bit_masks(v >> b);
    }
    v & !(1u8 << b)
}

pub(crate) fn set_bit(v: u8, b: u8) -> (r: u8)
    requires
        b < 8,
    ensures
        r == spec_set(v, b as int),
{
    proof {
        reveal(spec_set);
    }
    proof {
        lemma_single_bit(v, b);
        lemma_byte_shift(v, b);
        lemma_bit_masks(v >> b);
    }
    v | (1u8 << b)
}

impl CPU {
    pub(crate) fn add_a(&mut self, n: u8)
        ensures
            final(self).wf(),
            *final(self) == old(self).spec_add_a(n),
    {
        proof {
            reveal(CPU::spec_add_a);
        }
        let a = self.a;
        proof {
            lemma_nibbles(a);
            lemma_nibbles(n);
        }
        let result = a.wrapping_add(n);
        let half_carry = (a & 0x0F) + (n & 0x0F) > 0x0F;
        let carry = a as u16 + n as u16 > 0xFF;
        self.a = result;
        self.f = make_flags(result == 0, false, half_carry, carry);
    }

    #[verifier::rlimit(60)]
    pub(crate) fn adc_a(&mut self, n: u8)
        ensures
            final(self).wf(),
            *final(self) == old(self).spec_adc_a(n),
    {
        proof {
            reveal(CPU::spec_adc_a);
        }
        let a = self.a;
        let c = self.carry_in();
        proof {
            lemma_nibbles(a);
            lemma_nibbles(n);
        }
        let result = a.wrapping_add(n).wrapping_add(c);
        let half_carry = (a & 0x0F) + (n & 0x0F) + c > 0x0F;
        let carry = a as u16 + n as u16 + c as u16 > 0xFF;
        self.a = result;
        self.f = make_flags(result == 0, false, half_carry, carry);
    }

    pub(crate) fn sub_a(&mut self, n: u8)
        ensures
            final(self).wf(),
            *final(self) == old(self).spec_sub_a(n),
    {
        proof {
            reveal(CPU::spec_sub_a);
        }
        let a = self.a;
        proof {
            lemma_nibbles(a);
            lemma_nibbles(n);
        }
        let result = a.wrapping_sub(n);
        let half_carry = (a & 0x0F) < (n & 0x0F);
        let carry = a < n;
        self.a = result;
        self.f = make_flags(result == 0, true, half_carry, carry);
    }

    #[verifier::rlimit(60)]
    pub(crate) fn sbc_a(&mut self, n: u8)
        ensures
            final(self).wf(),
            *final(self) == old(self).spec_sbc_a(n),
    {
        proof {
            reveal(CPU::spec_sbc_a);
        }
        let a = self.a;
        let c = self.carry_in();
        proof {
            lemma_nibbles(a);
            lemma_nibbles(n);
        }
        let result = a.wrapping_sub(n).wrapping_sub(c);
        let half_carry = (a & 0x0F) < (n & 0x0F) + c;
        let carry = (a as u16) < n as u16 + c as u16;
        self.a = result;
        self.f = make_flags(result == 0, true, half_carry, carry);
    }

    pub(crate) fn and_a(&mut self, n: u8)
        ensures
            final(self).wf(),
            *final(self) == old(self).spec_and_a(n),
    {
        proof {
            reveal(CPU::spec_and_a);
        }
        self.a = self.a & n;
        self.f = make_flags(self.a == 0, false, true, false);
    }

    pub(crate) fn xor_a(&mut self, n: u8)
        ensures
            final(self).wf(),
            *final(self) == old(self).spec_xor_a(n),
    {
        proof {
            reveal(CPU::spec_xor_a);
        }
        self.a = self.a ^ n;
        self.f = make_flags(self.a == 0, false, false, false);
    }

    pub(crate) fn or_a(&mut self, n: u8)
        ensures
            final(self).wf(),
            *final(self) == old(self).spec_or_a(n),
    {
        proof {
            reveal(CPU::spec_or_a);
        }
        self.a = self.a | n;
        self.f = make_flags(self.a == 0, false, false, false);
    }

    pub(crate) fn cp_a(&mut self, n: u8)
        ensures
            final(self).wf(),
            *final(self) == old(self).spec_cp_a(n),
    {
        proof {
            reveal(CPU::spec_cp_a);
            reveal(CPU::spec_sub_a);
        }
        let a = self.a;
        proof {
            lemma_nibbles(a);
            lemma_nibbles(n);
        }
        let result = a.wrapping_sub(n);
        self.f = make_flags(result == 0, true, (a & 0x0F) < (n & 0x0F), a < n);
    }

    /// Increments a byte and sets the flags of an 8-bit increment.
    pub(crate) fn inc8(&mut self, v: u8) -> (r: u8)
        ensures
            final(self).wf(),
            r == wrap8(v + 1),
            *final(self) == (CPU { f: old(self).inc_flags(v), ..*old(self) }),
    {
        proof {
            reveal(CPU::inc_flags);
        }
        proof {
            lemma_nibbles(v);
        }
        let result = v.wrapping_add(1);
        let carry = self.is_flag_set(CARRY_FLAG);
        self.f = make_flags(result == 0, false, v & 0x0F == 0x0F, carry);
        result
    }

    /// Decrements a byte and sets the flags of an 8-bit decrement.
    pub(crate) fn dec8(&mut self, v: u8) -> (r: u8)
        ensures
            final(self).wf(),
            r == wrap8(v - 1),
            *final(self) == (CPU { f: old(self).dec_flags(v), ..*old(self) }),
    {
        proof {
            reveal(CPU::dec_flags);
        }
        proof {
            lemma_nibbles(v);
        }
        let result = v.wrapping_sub(1);
        let carry = self.is_flag_set(CARRY_FLAG);
        self.f = make_flags(result == 0, true, v & 0x0F == 0x00, carry);
        result
    }

    #[verifier::rlimit(60)]
    pub(crate) fn add_hl(&mut self, value: u16)
        ensures
            final(self).wf(),
            *final(self) == old(self).spec_add_hl(value),
    {
        proof {
            reveal(CPU::spec_add_hl);
        }
        let hl = self.get_hl();
        proof {
            lemma_word_low12(hl);
            lemma_word_low12(value);
        }
        let result = hl.wrapping_add(value);
        let half_carry = (hl & 0x0FFF) + (value & 0x0FFF) > 0x0FFF;
        let carry = hl as u32 + value as u32 > 0xFFFF;
        let zero = self.is_flag_set(ZERO_FLAG);
        self.set_hl(result);
        self.f = make_flags(zero, false, half_carry, carry);
    }

    /// SP plus a signed displacement; the flags are those of the unsigned
    /// addition of the two low bytes.
    #[verifier::rlimit(60)]
    pub(crate) fn sp_plus(&mut self, e: u8) -> (r: u16)
        ensures
            final(self).wf(),
            r == offset_sp(old(self).sp, e),
            *final(self) == (CPU { f: offset_flags(old(self).sp, e), ..*old(self) }),
    {
        proof {
            reveal(offset_flags);
            reveal(offset_sp);
        }
        let sp = self.sp;
        proof {
            lemma_word_bytes(sp);
            lemma_nibbles(e);
        }
        let half_carry = (sp & 0x000F) + (e & 0x0F) as u16 > 0x000F;
        let carry = (sp & 0x00FF) + e as u16 > 0x00FF;
        self.f = make_flags(false, false, half_carry, carry);
        add_signed(sp, e)
    }

    pub(crate) fn rlc(&mut self, value: u8) -> (r: u8)
        ensures
            final(self).wf(),
            r == spec_rlc(value).0,
            *final(self) == (CPU { f: old(self).rot_flags(0, value), ..*old(self) }),
    {
        proof {
            reveal(spec_rlc);
            reveal(CPU::rot_flags);
        }
        proof {
            lemma_rotates(value);
            lemma_bit_masks(value);
        }
        let result = (value << 1) | (value >> 7);
        self.f = make_flags(result == 0, false, false, value & 0x80 != 0);
        result
    }

    pub(crate) fn rrc(&mut self, value: u8) -> (r: u8)
        ensures
            final(self).wf(),
            r == spec_rrc(value).0,
            *final(self) == (CPU { f: old(self).rot_flags(1, value), ..*old(self) }),
    {
        proof {
            reveal(spec_rrc);
            reveal(CPU::rot_flags);
        }
        proof {
            lemma_rotates(value);
            lemma_bit_masks(value);
        }
        let result = (value >> 1) | (value << 7);
        self.f = make_flags(result == 0, false, false, value & 0x01 != 0);
        result
    }

    pub(crate) fn rl(&mut self, value: u8) -> (r: u8)
        ensures
            final(self).wf(),
            r == spec_rl(value, old(self).carry()).0,
            *final(self) == (CPU { f: old(self).rot_flags(2, value), ..*old(self) }),
    {
        proof {
            reveal(spec_rl);
            reveal(CPU::rot_flags);
        }
        proof {
            lemma_rotates(value);
            lemma_bit_masks(value);
        }
        proof {
            lemma_fields(value);
        }
        let result = if self.is_flag_set(CARRY_FLAG) {
            (value << 1) | 1
        } else {
            value << 1
        };
        self.f = make_flags(result == 0, false, false, value & 0x80 != 0);
        result
    }

    pub(crate) fn rr(&mut self, value: u8) -> (r: u8)
        ensures
            final(self).wf(),
            r == spec_rr(value, old(self).carry()).0,
            *final(self) == (CPU { f: old(self).rot_flags(3, value), ..*old(self) }),
    {
        proof {
            reveal(spec_rr);
            reveal(CPU::rot_flags);
        }
        proof {
            lemma_rotates(value);
            lemma_bit_masks(value);
        }
        proof {
            lemma_fields(value);
        }
        let result = if self.is_flag_set(CARRY_FLAG) {
            (value >> 1) | 0x80
        } else {
            value >> 1
        };
        self.f = make_flags(result == 0, false, false, value & 0x01 != 0);
        result
    }

    pub(crate) fn sla(&mut self, value: u8) -> (r: u8)
        ensures
            final(self).wf(),
            r == spec_sla(value).0,
            *final(self) == (CPU { f: old(self).rot_flags(4, value), ..*old(self) }),
    {
        proof {
            reveal(spec_sla);
            reveal(CPU::rot_flags);
        }
        proof {
            lemma_bit_masks(value);
            lemma_fields(value);
        }
        let result = value << 1;
        self.f = make_flags(result == 0, false, false, value & 0x80 != 0);
        result
    }

    pub(crate) fn sra(&mut self, value: u8) -> (r: u8)
        ensures
            final(self).wf(),
            r == spec_sra(value).0,
            *final(self) == (CPU { f: old(self).rot_flags(5, value), ..*old(self) }),
    {
        proof {
            reveal(spec_sra);
            reveal(CPU::rot_flags);
        }
        proof {
            lemma_rotates(value);
            lemma_bit_masks(value);
        }
        let result = (value >> 1) | (value & 0x80);
        self.f = make_flags(result == 0, false, false, value & 0x01 != 0);
        result
    }

    pub(crate) fn swap(&mut self, value: u8) -> (r: u8)
        ensures
            final(self).wf(),
            r == spec_swap(value).0,
            *final(self) == (CPU { f: old(self).rot_flags(6, value), ..*old(self) }),
    {
        proof {
            reveal(spec_swap);
            reveal(CPU::rot_flags);
        }
        proof {
            lemma_rotates(value);
        }
        let result = ((value & 0x0F) << 4) | ((value & 0xF0) >> 4);
        self.f = make_flags(result == 0, false, false, false);
        result
    }

    pub(crate) fn srl(&mut self, value: u8) -> (r: u8)
        ensures
            final(self).wf(),
            r == spec_srl(value).0,
            *final(self) == (CPU { f: old(self).rot_flags(7, value), ..*old(self) }),
    {
        proof {
            reveal(spec_srl);
            reveal(CPU::rot_flags);
        }
        proof {
            lemma_bit_masks(value);
            lemma_fields(value);
        }
        let result = value >> 1;
        self.f = make_flags(result == 0, false, false, value & 0x01 != 0);
        result
    }

    pub(crate) fn rlca(&mut self) -> (cycles: u32)
        ensures
            final(self).wf(),
            *final(self) == old(self).spec_rotate_a(0),
            cycles == 4,
    {
        proof {
            reveal(spec_rlc);
            reveal(CPU::spec_rotate_a);
        }
        let a = self.a;
        proof {
            lemma_bit_masks(a);
        }
        let result = self.rlc(a);
        self.a = result;
        self.f = make_flags(false, false, false, a & 0x80 != 0);
        4
    }

    pub(crate) fn rrca(&mut self) -> (cycles: u32)
        ensures
            final(self).wf(),
            *final(self) == old(self).spec_rotate_a(1),
            cycles == 4,
    {
        proof {
            reveal(spec_rrc);
            reveal(CPU::spec_rotate_a);
        }
        let a = self.a;
        proof {
            lemma_bit_masks(a);
        }
        let result = self.rrc(a);
        self.a = result;
        self.f = make_flags(false, false, false, a & 0x01 != 0);
        4
    }

    pub(crate) fn rla(&mut self) -> (cycles: u32)
        ensures
            final(self).wf(),
            *final(self) == old(self).spec_rotate_a(2),
            cycles == 4,
    {
        proof {
            reveal(spec_rl);
            reveal(CPU::spec_rotate_a);
        }
        let a = self.a;
        proof {
            lemma_bit_masks(a);
        }
        let result = self.rl(a);
        self.a = result;
        self.f = make_flags(false, false, false, a & 0x80 != 0);
        4
    }

    pub(crate) fn rra(&mut self) -> (cycles: u32)
        ensures
            final(self).wf(),
            *final(self) == old(self).spec_rotate_a(3),
            cycles == 4,
    {
        proof {
            reveal(spec_rr);
            reveal(CPU::spec_rotate_a);
        }
        let a = self.a;
        proof {
            lemma_bit_masks(a);
        }
        let result = self.rr(a);
        self.a = result;
        self.f = make_flags(false, false, false, a & 0x01 != 0);
        4
    }

    #[verifier::rlimit(60)]
    pub(crate) fn daa(&mut self) -> (cycles: u32)
        ensures
            final(self).wf(),
            *final(self) == old(self).spec_daa(),
            cycles == 4,
    {
        proof {
            reveal(CPU::spec_daa);
        }
        let mut a = self.a;
        let mut adjust: u8 = 0;
        let subtract = self.is_flag_set(SUBTRACT_FLAG);
        proof {
            lemma_nibbles(a);
        }
        if self.is_flag_set(HALF_CARRY_FLAG) || (!subtract && (a & 0x0F) > 9) {
            adjust = adjust + 0x06;
        }
        let carry = self.is_flag_set(CARRY_FLAG) || (!subtract && a > 0x99);
        if carry {
            adjust = adjust + 0x60;
        }
        if subtract {
            a = a.wrapping_sub(adjust);
        } else {
            a = a.wrapping_add(adjust);
        }
        self.a = a;
        self.f = make_flags(a == 0, subtract, false, carry);
        4
    }

    pub(crate) fn cpl(&mut self) -> (cycles: u32)
        requires
            old(self).wf(),
        ensures
            final(self).wf(),
            *final(self) == old(self).spec_cpl(),
            cycles == 4,
    {
        proof {
            reveal(CPU::spec_cpl);
        }
        proof {
            lemma_rotates(self.a);
        }
        self.a = !self.a;
        self.set_flag(SUBTRACT_FLAG);
        proof {
            lemma_flags_read(*self, old(self).flag_z(), true, old(self).flag_h(), old(self).flag_c());
        }
        self.set_flag(HALF_CARRY_FLAG);
        4
    }

    pub(crate) fn scf(&mut self) -> (cycles: u32)
        requires
            old(self).wf(),
        ensures
            final(self).wf(),
            *final(self) == old(self).spec_scf(),
            cycles == 4,
    {
        proof {
            reveal(CPU::spec_scf);
        }
        self.clear_flag(SUBTRACT_FLAG);
        proof {
            lemma_flags_read(*self, old(self).flag_z(), false, old(self).flag_h(), old(self).flag_c());
        }
        self.clear_flag(HALF_CARRY_FLAG);
        proof {
            lemma_flags_read(*self, old(self).flag_z(), false, false, old(self).flag_c());
        }
        self.set_flag(CARRY_FLAG);
        4
    }

    pub(crate) fn ccf(&mut self) -> (cycles: u32)
        requires
            old(self).wf(),
        ensures
            final(self).wf(),
            *final(self) == old(self).spec_ccf(),
            cycles == 4,
    {
        proof {
            reveal(CPU::spec_ccf);
        }
        self.clear_flag(SUBTRACT_FLAG);
        proof {
            lemma_flags_read(*self, old(self).flag_z(), false, old(self).flag_h(), old(self).flag_c());
        }
        self.clear_flag(HALF_CARRY_FLAG);
        proof {
            lemma_flags_read(*self, old(self).flag_z(), false, false, old(self).flag_c());
        }
        if self.is_flag_set(CARRY_FLAG) {
            self.clear_flag(CARRY_FLAG);
        } else {
            self.set_flag(CARRY_FLAG);
        }
        4
    }
}

} // verus!
