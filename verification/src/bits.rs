//! Byte and word arithmetic of the processor: flag bits, register pairs,
//! rotations and the bit-level facts that connect them to integer arithmetic.
use vstd::prelude::*;

verus! {

/// Bit of the flag register that holds the zero flag.
pub const FLAG_Z: u8 = 7;

/// Bit of the flag register that holds the subtract flag.
pub const FLAG_N: u8 = 6;

/// Bit of the flag register that holds the half-carry flag.
pub const FLAG_H: u8 = 5;

/// Bit of the flag register that holds the carry flag.
pub const FLAG_C: u8 = 4;

/// Whether bit `k` of the flag register `f` is set.
pub open spec fn flag(f: u8, k: u8) -> bool {
    (f >> k) & 1 == 1
}

/// The flag register `f` with bit `k` raised (`on`) or lowered.
pub open spec fn put(f: u8, k: u8, on: bool) -> u8 {
    if on {
        f | (1u8 << k)
    } else {
        f & !(1u8 << k)
    }
}

/// The carry flag of `f` as the number 0 or 1.
pub open spec fn carry_bit(f: u8) -> u8 {
    if flag(f, FLAG_C) {
        1
    } else {
        0
    }
}

/// The 16-bit value of a register pair whose high byte is `hi` and low byte is `lo`.
pub open spec fn word(hi: u8, lo: u8) -> u16 {
    (hi * 256 + lo) as u16
}

/// The high byte of a 16-bit value.
pub open spec fn high(w: u16) -> u8 {
    (w / 256) as u8
}

/// The low byte of a 16-bit value.
pub open spec fn low(w: u16) -> u8 {
    (w % 256) as u8
}

/// Reading a flag after raising or lowering one: the flag that was written
/// reads back as written, every other flag is unchanged.
pub proof fn lemma_put_flag(f: u8, k: u8, j: u8)
    requires
        k < 8,
        j < 8,
    ensures
        flag(put(f, k, true), j) == (if j == k { true } else { flag(f, j) }),
        flag(put(f, k, false), j) == (if j == k { false } else { flag(f, j) }),
        k >= 4 ==> put(f, k, true) & 0x0F == f & 0x0F,
        k >= 4 ==> put(f, k, false) & 0x0F == f & 0x0F,
{
    lemma_put_bits(f, k, j);
}

proof fn lemma_put_bits(f: u8, k: u8, j: u8)
    requires
        k < 8,
        j < 8,
    ensures
        ((f | (1u8 << k)) >> j) & 1 == 1 <==> (j == k || (f >> j) & 1 == 1),
        ((f & !(1u8 << k)) >> j) & 1 == 1 <==> (j != k && (f >> j) & 1 == 1),
        k >= 4 ==> (f | (1u8 << k)) & 0x0F == f & 0x0F,
        k >= 4 ==> (f & !(1u8 << k)) & 0x0F == f & 0x0F,
{
    assert(
        (((f | (1u8 << k)) >> j) & 1 == 1 <==> (j == k || (f >> j) & 1 == 1)) &&
        (((f & !(1u8 << k)) >> j) & 1 == 1 <==> (j != k && (f >> j) & 1 == 1)) &&
        (k >= 4 ==> (f | (1u8 << k)) & 0x0F == f & 0x0F) &&
        (k >= 4 ==> (f & !(1u8 << k)) & 0x0F == f & 0x0F)
    ) by (bit_vector)
        requires
            k < 8,
            j < 8,
    ;
}

/// Whether bit `k` of `f` is set.
pub fn read_flag(f: u8, k: u8) -> (r: bool)
    requires
        k < 8,
    ensures
        r == flag(f, k),
{
    (f >> k) & 1 == 1
}

/// Raises (`on`) or lowers bit `k` of `f`.
pub fn put_flag(f: u8, k: u8, on: bool) -> (r: u8)
    requires
        k < 8,
    ensures
        r == put(f, k, on),
{
    if on {
        f | (1u8 << k)
    } else {
        f & !(1u8 << k)
    }
}

/// The carry flag of `f` as the number 0 or 1.
pub fn carry_of(f: u8) -> (r: u8)
    ensures
        r == carry_bit(f),
        r <= 1,
{
    if read_flag(f, FLAG_C) {
        1
    } else {
        0
    }
}

/// Facts about the bit operations on a single byte that the instructions use.
pub proof fn lemma_byte(x: u8)
    ensures
        x >> 1 == x / 2,
        x >> 4 == x / 16,
        x >> 7 == x / 128,
        x << 1 == ((x * 2) % 256) as u8,
        x & 1 == x % 2,
        x & 0xFE == (x - x % 2) as u8,
        x & 0x7F == x % 128,
        (x >> 1) | (x << 7) == (x / 2 + (x % 2) * 128) as u8,
        (x << 1) | (x >> 7) == ((x * 2) % 256 + x / 128) as u8,
        (x >> 4) | (x << 4) == (x / 16 + (x % 16) * 16) as u8,
        (x << 1) | 1 == ((x * 2) % 256 + 1) as u8,
        x | 0x80 == (if x >= 128 { x } else { (x + 128) as u8 }),
        x | 0x08 == (if x % 16 >= 8 { x } else { (x + 8) as u8 }),
        x | 1 == (if x % 2 == 1 { x } else { (x + 1) as u8 }),
        x & 0xF0 == ((x / 16) * 16) as u8,
        x ^ 0xFF == (255 - x) as u8,
        x | 0 == x,
        x & 0 == 0,
        (x >> 1) | 0x80 == (x / 2 + 128) as u8,
        (x << 1) | 0 == ((x * 2) % 256) as u8,
{
    assert(
        (x >> 1 == x / 2) &&
        (x >> 4 == x / 16) &&
        (x >> 7 == x / 128) &&
        (x << 1 == ((x * 2) % 256) as u8) &&
        (x & 1 == x % 2) &&
        (x & 0xFE == (x - x % 2) as u8) &&
        (x & 0x7F == x % 128) &&
        ((x >> 1) | (x << 7) == (x / 2 + (x % 2) * 128) as u8) &&
        ((x << 1) | (x >> 7) == ((x * 2) % 256 + x / 128) as u8) &&
        ((x >> 4) | (x << 4) == (x / 16 + (x % 16) * 16) as u8) &&
        ((x << 1) | 1 == ((x * 2) % 256 + 1) as u8) &&
        (x | 0x80 == (if x >= 128 { x } else { (x + 128) as u8 })) &&
        (x | 0x08 == (if x % 16 >= 8 { x } else { (x + 8) as u8 })) &&
        (x | 1 == (if x % 2 == 1 { x } else { (x + 1) as u8 })) &&
        (x & 0xF0 == ((x / 16) * 16) as u8) &&
        (x ^ 0xFF == (255 - x) as u8) &&
        (x | 0 == x) &&
        (x & 0 == 0) &&
        ((x >> 1) | 0x80 == (x / 2 + 128) as u8) &&
        ((x << 1) | 0 == ((x * 2) % 256) as u8)
    ) by (bit_vector);
}

/// Two bytes have the same high nibble exactly when their masked high nibbles agree.
pub proof fn lemma_high_nibble(x: u8, y: u8)
    ensures
        (x & 0xF0 == y & 0xF0) == (x / 16 == y / 16),
{
    assert(
        ((x & 0xF0 == y & 0xF0) == (x / 16 == y / 16))
    ) by (bit_vector);
}

/// Facts about splitting a 16-bit word into bytes.
pub proof fn lemma_word(w: u16)
    ensures
        (w >> 8) as u8 == (w / 256) as u8,
        w as u8 == (w % 256) as u8,
        w & 0xF0 == (((w % 256) / 16) * 16) as u16,
        w >> 8 == w / 256,
{
    assert(
        ((w >> 8) as u8 == (w / 256) as u8) &&
        (w as u8 == (w % 256) as u8) &&
        (w & 0xF0 == (((w % 256) / 16) * 16) as u16) &&
        (w >> 8 == w / 256)
    ) by (bit_vector);
}

/// Joining two bytes into a word.
pub proof fn lemma_join(hi: u8, lo: u8)
    ensures
        ((hi as u16) << 8u16) | (lo as u16) == (hi * 256 + lo) as u16,
{
    assert(
        (((hi as u16) << 8u16) | (lo as u16) == (hi * 256 + lo) as u16)
    ) by (bit_vector);
}

/// The 16-bit value of a register pair.
pub fn join(hi: u8, lo: u8) -> (r: u16)
    ensures
        r == word(hi, lo),
        r == hi * 256 + lo,
{
    proof {
        lemma_join(hi, lo);
    }
    ((hi as u16) << 8u16) | (lo as u16)
}

/// The high byte of a word.
pub fn high_of(w: u16) -> (r: u8)
    ensures
        r == high(w),
        r == w / 256,
{
    proof {
        lemma_word(w);
    }
    (w >> 8u16) as u8
}

/// The low byte of a word.
pub fn low_of(w: u16) -> (r: u8)
    ensures
        r == low(w),
        r == w % 256,
{
    proof {
        lemma_word(w);
    }
    w as u8
}

} // verus!
