//! The arithmetic and logic unit: eight-bit operations on the accumulator and
//! the flag updates that go with them.
use vstd::prelude::*;
use crate::bits::{
    carry_bit, carry_of, lemma_byte, lemma_high_nibble, put_flag, FLAG_C, FLAG_H, FLAG_N, FLAG_Z,
};
use crate::decode::AluOp;
use crate::semantics::{alu_spec, flags4, flags_nhc, flags_znh};

verus! {

/// Sets Z, N, H and C of the flag register `f`.
pub fn set_flags4(f: u8, z: bool, n: bool, h: bool, c: bool) -> (r: u8)
    ensures
        r == flags4(f, z, n, h, c),
{
    let f = put_flag(f, FLAG_Z, z);
    let f = put_flag(f, FLAG_N, n);
    let f = put_flag(f, FLAG_H, h);
    put_flag(f, FLAG_C, c)
}

/// Sets Z, N and H of the flag register `f`.
pub fn set_flags_znh(f: u8, z: bool, n: bool, h: bool) -> (r: u8)
    ensures
        r == flags_znh(f, z, n, h),
{
    let f = put_flag(f, FLAG_Z, z);
    let f = put_flag(f, FLAG_N, n);
    put_flag(f, FLAG_H, h)
}

/// Sets N, H and C of the flag register `f`.
pub fn set_flags_nhc(f: u8, n: bool, h: bool, c: bool) -> (r: u8)
    ensures
        r == flags_nhc(f, n, h, c),
{
    let f = put_flag(f, FLAG_N, n);
    let f = put_flag(f, FLAG_H, h);
    put_flag(f, FLAG_C, c)
}

/// Whether the high nibbles of two bytes differ.
pub fn high_nibble_differs(x: u8, y: u8) -> (r: bool)
    ensures
        r == (x / 16 != y / 16),
{
    proof {
        lemma_high_nibble(x, y);
    }
    (x & 0xF0) != (y & 0xF0)
}

/// `a - v` modulo 256, computed as the addition of the two's complement of `v`.
pub fn sub_byte(a: u8, v: u8) -> (r: u8)
    ensures
        r == (a - v + 256) % 256,
{
    proof {
        lemma_byte(v);
    }
    let neg = (v ^ 0xFF).wrapping_add(1);
    assert(neg == (256 - v) % 256);
    a.wrapping_add(neg)
}

fn alu_add(a: u8, f: u8, v: u8) -> (r: (u8, u8))
    ensures
        r == alu_spec(AluOp::Add, a, f, v),
{
    let res = a.wrapping_add(v);
    let carried = (a as u16) + (v as u16) > 255;
    let h = high_nibble_differs(res, a);
    (res, set_flags4(f, res == 0, false, h, carried))
}

#[verifier::rlimit(30)]
fn alu_adc(a: u8, f: u8, v: u8) -> (r: (u8, u8))
    ensures
        r == alu_spec(AluOp::Adc, a, f, v),
{
    let c = carry_of(f);
    let w = v.wrapping_add(c);
    assert(w == (v + carry_bit(f)) % 256);
    let res = a.wrapping_add(w);
    assert(res == (a + w) % 256);
    let carried = (a as u16) + (w as u16) > 255;
    let h = high_nibble_differs(res, a);
    let nf = set_flags4(f, res == 0, false, h, carried);
    (res, nf)
}

fn alu_sub(a: u8, f: u8, v: u8) -> (r: (u8, u8))
    ensures
        r == alu_spec(AluOp::Sub, a, f, v),
{
    let res = sub_byte(a, v);
    let h = high_nibble_differs(res, a);
    (res, set_flags4(f, res == 0, true, h, res >= a))
}

#[verifier::rlimit(30)]
fn alu_sbc(a: u8, f: u8, v: u8) -> (r: (u8, u8))
    ensures
        r == alu_spec(AluOp::Sbc, a, f, v),
{
    let first = sub_byte(a, v);
    let res = sub_byte(first, carry_of(f));
    let h = high_nibble_differs(res, a);
    (res, set_flags4(f, res == 0, true, h, res >= a))
}

fn alu_cp(a: u8, f: u8, v: u8) -> (r: (u8, u8))
    ensures
        r == alu_spec(AluOp::Cp, a, f, v),
{
    let res = sub_byte(a, v);
    let h = !high_nibble_differs(res, a);
    (a, set_flags4(f, res == 0, true, h, res >= a))
}

/// The arithmetic or logic operation `op` on the accumulator `a` with the
/// flags `f` and the operand `v`: the new accumulator and the new flags.
pub fn alu(op: AluOp, a: u8, f: u8, v: u8) -> (r: (u8, u8))
    ensures
        r == alu_spec(op, a, f, v),
{
    match op {
        AluOp::Add => alu_add(a, f, v),
        AluOp::Adc => alu_adc(a, f, v),
        AluOp::Sub => alu_sub(a, f, v),
        AluOp::Sbc => alu_sbc(a, f, v),
        AluOp::And => {
            let res = a & v;
            (res, set_flags4(f, res == 0, false, true, false))
        },
        AluOp::Xor => (a ^ v, f),
        AluOp::Or => (a | v, f),
        AluOp::Cp => alu_cp(a, f, v),
    }
}

} // verus!
