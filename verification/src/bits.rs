//! Arithmetic reading of bytes and words, and the executable bit operations
//! that are proved to agree with it.

use vstd::prelude::*;

verus! {

/// The value of bit position `i` (1, 2, 4, ... 32768); 0 outside 0..=15.
pub open spec fn weight(i: int) -> int {
    if i == 0 {
        1
    } else if i == 1 {
        2
    } else if i == 2 {
        4
    } else if i == 3 {
        8
    } else if i == 4 {
        16
    } else if i == 5 {
        32
    } else if i == 6 {
        64
    } else if i == 7 {
        128
    } else if i == 8 {
        256
    } else if i == 9 {
        512
    } else if i == 10 {
        1024
    } else if i == 11 {
        2048
    } else if i == 12 {
        4096
    } else if i == 13 {
        8192
    } else if i == 14 {
        16384
    } else if i == 15 {
        32768
    } else {
        0
    }
}

/// Whether bit `i` of `v` is set, for `0 <= i < 16`.
pub open spec fn bit(v: int, i: int) -> bool {
    if i == 0 {
        v % 2 == 1
    } else if i == 1 {
        (v / 2) % 2 == 1
    } else if i == 2 {
        (v / 4) % 2 == 1
    } else if i == 3 {
        (v / 8) % 2 == 1
    } else if i == 4 {
        (v / 16) % 2 == 1
    } else if i == 5 {
        (v / 32) % 2 == 1
    } else if i == 6 {
        (v / 64) % 2 == 1
    } else if i == 7 {
        (v / 128) % 2 == 1
    } else if i == 8 {
        (v / 256) % 2 == 1
    } else if i == 9 {
        (v / 512) % 2 == 1
    } else if i == 10 {
        (v / 1024) % 2 == 1
    } else if i == 11 {
        (v / 2048) % 2 == 1
    } else if i == 12 {
        (v / 4096) % 2 == 1
    } else if i == 13 {
        (v / 8192) % 2 == 1
    } else if i == 14 {
        (v / 16384) % 2 == 1
    } else if i == 15 {
        (v / 32768) % 2 == 1
    } else {
        false
    }
}

/// `x` reduced to a byte.
pub open spec fn wrap8(x: int) -> u8 {
    (x % 256) as u8
}

/// `x` reduced to a 16-bit word.
pub open spec fn wrap16(x: int) -> u16 {
    (x % 65536) as u16
}

/// The word with high byte `hi` and low byte `lo`.
pub open spec fn word(hi: u8, lo: u8) -> u16 {
    (hi as int * 256 + lo as int) as u16
}

/// A byte read as a two's-complement number.
pub open spec fn signed(e: u8) -> int {
    if e < 128 {
        e as int
    } else {
        e as int - 256
    }
}

/// The single-bit masks of a byte, read arithmetically.
pub proof fn lemma_bit_masks(v: u8)
    by (bit_vector)
    ensures
        (v & 0x01 != 0) == (v % 2 == 1),
        (v & 0x02 != 0) == ((v / 2) % 2 == 1),
        (v & 0x04 != 0) == ((v / 4) % 2 == 1),
        (v & 0x08 != 0) == ((v / 8) % 2 == 1),
        (v & 0x10 != 0) == ((v / 16) % 2 == 1),
        (v & 0x20 != 0) == ((v / 32) % 2 == 1),
        (v & 0x40 != 0) == ((v / 64) % 2 == 1),
        (v & 0x80 != 0) == ((v / 128) % 2 == 1),
{
}

/// The two nibbles of a byte, read arithmetically.
pub proof fn lemma_nibbles(v: u8)
    by (bit_vector)
    ensures
        v & 0x0F == v % 16,
        v & 0xF0 == (v - v % 16) as u8,
        v >> 4 == v / 16,
{
}

/// The fields of an opcode and the shifts by one, read arithmetically.
pub proof fn lemma_fields(v: u8)
    by (bit_vector)
    ensures
        v & 0x03 == v % 4,
        v & 0x07 == v % 8,
        (v >> 3) & 0x07 == (v / 8) % 8,
        v >> 6 == v / 64,
        v >> 1 == v / 2,
        v << 1 == ((v * 2) % 256) as u8,
{
}

pub proof fn lemma_byte_shift(v: u8, i: u8)
    by (bit_vector)
    requires
        i < 8,
    ensures
        i == 0 ==> v >> i == v && 1u8 << i == 1,
        i == 1 ==> v >> i == v / 2 && 1u8 << i == 2,
        i == 2 ==> v >> i == v / 4 && 1u8 << i == 4,
        i == 3 ==> v >> i == v / 8 && 1u8 << i == 8,
        i == 4 ==> v >> i == v / 16 && 1u8 << i == 16,
        i == 5 ==> v >> i == v / 32 && 1u8 << i == 32,
        i == 6 ==> v >> i == v / 64 && 1u8 << i == 64,
        i == 7 ==> v >> i == v / 128 && 1u8 << i == 128,
{
}

/// The bytes and the low nibble of a word, read arithmetically.
pub proof fn lemma_word_bytes(w: u16)
    by (bit_vector)
    ensures
        w >> 8 == w / 256,
        w & 0x00FF == w % 256,
        w & 0x000F == w % 16,
{
}

/// The low twelve bits of a word, read arithmetically.
pub proof fn lemma_word_low12(w: u16)
    by (bit_vector)
    ensures
        w & 0x0FFF == w % 4096,
{
}

/// The offsets of an address within an 8 KiB and a 128-byte window.
pub proof fn lemma_word_offsets(w: u16)
    by (bit_vector)
    ensures
        w & 0x1FFF == w % 8192,
        w & 0x007F == w % 128,
{
}

/// Bits 3, 5, 7 and 9 of a word, read arithmetically.
pub proof fn lemma_word_taps(w: u16)
    by (bit_vector)
    ensures
        (w & 0x0008 != 0) == ((w / 8) % 2 == 1),
        (w & 0x0020 != 0) == ((w / 32) % 2 == 1),
        (w & 0x0080 != 0) == ((w / 128) % 2 == 1),
        (w & 0x0200 != 0) == ((w / 512) % 2 == 1),
{
}

proof fn lemma_join(hi: u8, lo: u8)
    by (bit_vector)
    ensures
        ((hi as u16) << 8) | (lo as u16) == (hi as u16 * 256 + lo as u16) as u16,
{
}

proof fn lemma_sign_extend(e: u8)
    by (bit_vector)
    ensures
        e < 128 ==> (e as i8) as u16 == e as u16,
        e >= 128 ==> (e as i8) as u16 == (e as u16 + 0xFF00) as u16,
{
}

/// Tests bit `i` of a byte.
pub fn test_bit(v: u8, i: u8) -> (r: bool)
    requires
        i < 8,
    ensures
        r == bit(v as int, i as int),
{
    proof {
        lemma_byte_shift(v, i);
        lemma_bit_masks(v >> i);
    }
    (v >> i) & 0x01 != 0
}

/// Joins two bytes into a word, high byte first.
pub fn make_word(hi: u8, lo: u8) -> (w: u16)
    ensures
        w == word(hi, lo),
        w / 256 == hi,
        w % 256 == lo,
{
    proof {
        lemma_join(hi, lo);
    }
    ((hi as u16) << 8) | (lo as u16)
}

/// The upper byte of a word.
pub fn high_byte(w: u16) -> (b: u8)
    ensures
        b == w / 256,
{
    proof {
        lemma_word_bytes(w);
    }
    (w >> 8) as u8
}

/// The lower byte of a word.
pub fn low_byte(w: u16) -> (b: u8)
    ensures
        b == w % 256,
{
    proof {
        lemma_word_bytes(w);
    }
    (w & 0xFF) as u8
}

/// Adds a signed 8-bit displacement to an address, wrapping at 16 bits.
pub fn add_signed(base: u16, e: u8) -> (r: u16)
    ensures
        r == wrap16(base as int + signed(e)),
{
    proof {
        lemma_sign_extend(e);
    }
    base.wrapping_add(e as i8 as u16)
}

} // verus!
