//! What the instructions compute, stated in plain arithmetic on their
//! operands and results: sums and differences modulo 256, carries, rotations
//! with the carry flag, and how related instructions differ.
use vstd::prelude::*;
use crate::bits::{flag, lemma_put_flag, put, FLAG_C, FLAG_H, FLAG_N, FLAG_Z};
use crate::decode::{alu_op_of, AluOp};
use crate::bits::{high, low};
use crate::cpu::{Machine, MEM_SIZE};
use crate::laws::lemma_word_bytes;
use crate::semantics::{
    adc_imm_flags, adc_imm_spec, add_hl_spec, alu_instr_spec, alu_spec, dec8_spec, dec_pair_spec, execute_faults, execute_spec, flags4, flags_nhc,
    flags_znh, inc8_spec, inc_pair_spec, opcode, shift_spec,
};
use crate::step::{irq_faults, irq_spec, Interrupt, Service, REG_IE, REG_IF};
use crate::video::background_spec;

verus! {

/// The carry flag of `f` as the number 0 or 1.
pub open spec fn carry_in(f: u8) -> int {
    if flag(f, FLAG_C) {
        1
    } else {
        0
    }
}

/// Reading back the flags that `flags4` writes: each reads as written.
pub proof fn lemma_flags4(f: u8, z: bool, n: bool, h: bool, c: bool)
    ensures
        flag(flags4(f, z, n, h, c), FLAG_Z) == z,
        flag(flags4(f, z, n, h, c), FLAG_N) == n,
        flag(flags4(f, z, n, h, c), FLAG_H) == h,
        flag(flags4(f, z, n, h, c), FLAG_C) == c,
{
    let f1 = put(f, FLAG_Z, z);
    let f2 = put(f1, FLAG_N, n);
    let f3 = put(f2, FLAG_H, h);
    lemma_put_flag(f, FLAG_Z, FLAG_Z);
    lemma_put_flag(f1, FLAG_N, FLAG_Z);
    lemma_put_flag(f1, FLAG_N, FLAG_N);
    lemma_put_flag(f2, FLAG_H, FLAG_Z);
    lemma_put_flag(f2, FLAG_H, FLAG_N);
    lemma_put_flag(f2, FLAG_H, FLAG_H);
    lemma_put_flag(f3, FLAG_C, FLAG_Z);
    lemma_put_flag(f3, FLAG_C, FLAG_N);
    lemma_put_flag(f3, FLAG_C, FLAG_H);
    lemma_put_flag(f3, FLAG_C, FLAG_C);
}

/// Reading back the flags that `flags_znh` writes; C is kept.
pub proof fn lemma_flags_znh(f: u8, z: bool, n: bool, h: bool)
    ensures
        flag(flags_znh(f, z, n, h), FLAG_Z) == z,
        flag(flags_znh(f, z, n, h), FLAG_N) == n,
        flag(flags_znh(f, z, n, h), FLAG_H) == h,
        flag(flags_znh(f, z, n, h), FLAG_C) == flag(f, FLAG_C),
{
    let f1 = put(f, FLAG_Z, z);
    let f2 = put(f1, FLAG_N, n);
    lemma_put_flag(f, FLAG_Z, FLAG_Z);
    lemma_put_flag(f, FLAG_Z, FLAG_C);
    lemma_put_flag(f1, FLAG_N, FLAG_Z);
    lemma_put_flag(f1, FLAG_N, FLAG_N);
    lemma_put_flag(f1, FLAG_N, FLAG_C);
    lemma_put_flag(f2, FLAG_H, FLAG_Z);
    lemma_put_flag(f2, FLAG_H, FLAG_N);
    lemma_put_flag(f2, FLAG_H, FLAG_H);
    lemma_put_flag(f2, FLAG_H, FLAG_C);
}

/// Reading back the flags that `flags_nhc` writes; Z is kept.
pub proof fn lemma_flags_nhc(f: u8, n: bool, h: bool, c: bool)
    ensures
        flag(flags_nhc(f, n, h, c), FLAG_Z) == flag(f, FLAG_Z),
        flag(flags_nhc(f, n, h, c), FLAG_N) == n,
        flag(flags_nhc(f, n, h, c), FLAG_H) == h,
        flag(flags_nhc(f, n, h, c), FLAG_C) == c,
{
    let f1 = put(f, FLAG_N, n);
    let f2 = put(f1, FLAG_H, h);
    lemma_put_flag(f, FLAG_N, FLAG_Z);
    lemma_put_flag(f, FLAG_N, FLAG_N);
    lemma_put_flag(f1, FLAG_H, FLAG_Z);
    lemma_put_flag(f1, FLAG_H, FLAG_N);
    lemma_put_flag(f1, FLAG_H, FLAG_H);
    lemma_put_flag(f2, FLAG_C, FLAG_Z);
    lemma_put_flag(f2, FLAG_C, FLAG_N);
    lemma_put_flag(f2, FLAG_C, FLAG_H);
    lemma_put_flag(f2, FLAG_C, FLAG_C);
}

/// `ADD`: the result and the carry flag together make the full sum; Z tells
/// whether the result is zero; N is clear.
pub proof fn lemma_add(a: u8, f: u8, v: u8)
    ensures
        alu_spec(AluOp::Add, a, f, v).0 + (if flag(alu_spec(AluOp::Add, a, f, v).1, FLAG_C) {
            256int
        } else {
            0
        }) == a + v,
        flag(alu_spec(AluOp::Add, a, f, v).1, FLAG_Z) == (alu_spec(AluOp::Add, a, f, v).0 == 0),
        !flag(alu_spec(AluOp::Add, a, f, v).1, FLAG_N),
        flag(alu_spec(AluOp::Add, a, f, v).1, FLAG_H) == (alu_spec(AluOp::Add, a, f, v).0 / 16
            != a / 16),
{
    let r = ((a + v) % 256) as u8;
    let c = a + v > 255;
    let g = flags4(f, r == 0, false, r / 16 != a / 16, c);
    lemma_flags4(f, r == 0, false, r / 16 != a / 16, c);
    assert(alu_spec(AluOp::Add, a, f, v) == (r, g));
    assert(flag(g, FLAG_C) == c);
    assert(r + (if c { 256int } else { 0 }) == a + v);
    assert(flag(g, FLAG_H) == (r / 16 != a / 16));
}

/// `ADC` adds the incoming carry on top of what `ADD` gives, and its carry
/// flag tells whether the full sum `a + v + carry` left the byte.
pub proof fn lemma_adc(a: u8, f: u8, v: u8)
    ensures
        alu_spec(AluOp::Adc, a, f, v).0 == (alu_spec(AluOp::Add, a, f, v).0 + carry_in(f)) % 256,
        v + carry_in(f) < 256 ==> flag(alu_spec(AluOp::Adc, a, f, v).1, FLAG_C) == (a + v
            + carry_in(f) > 255),
        flag(alu_spec(AluOp::Adc, a, f, v).1, FLAG_Z) == (alu_spec(AluOp::Adc, a, f, v).0 == 0),
        !flag(alu_spec(AluOp::Adc, a, f, v).1, FLAG_N),
        flag(alu_spec(AluOp::Adc, a, f, v).1, FLAG_C) == (a + (v + carry_in(f)) % 256 > 255),
        flag(alu_spec(AluOp::Adc, a, f, v).1, FLAG_H) == (alu_spec(AluOp::Adc, a, f, v).0 / 16
            != a / 16),
{
    let w = (v + carry_in(f)) % 256;
    let r = ((a + w) % 256) as u8;
    let g = flags4(f, r == 0, false, r / 16 != a / 16, a + w > 255);
    lemma_flags4(f, r == 0, false, r / 16 != a / 16, a + w > 255);
    assert(crate::bits::carry_bit(f) == carry_in(f));
    assert(alu_spec(AluOp::Adc, a, f, v) == (r, g));
    assert(flag(g, FLAG_C) == (a + w > 255));
    assert(flag(g, FLAG_H) == (r / 16 != a / 16));
    assert(alu_spec(AluOp::Add, a, f, v).0 == (a + v) % 256);
    assert((((a + v) % 256) + carry_in(f)) % 256 == r) by (nonlinear_arith)
        requires
            0 <= carry_in(f) <= 1,
            0 <= a < 256,
            0 <= v < 256,
            w == (v + carry_in(f)) % 256,
            r == (a + w) % 256,
    ;
}

/// `SUB`: adding the operand back to the result gives the accumulator (all
/// modulo 256); Z tells whether the operand equals the accumulator; N is set.
pub proof fn lemma_sub(a: u8, f: u8, v: u8)
    ensures
        (alu_spec(AluOp::Sub, a, f, v).0 + v) % 256 == a,
        flag(alu_spec(AluOp::Sub, a, f, v).1, FLAG_Z) == (a == v),
        flag(alu_spec(AluOp::Sub, a, f, v).1, FLAG_N),
        flag(alu_spec(AluOp::Sub, a, f, v).1, FLAG_C) == (alu_spec(AluOp::Sub, a, f, v).0 >= a),
        flag(alu_spec(AluOp::Sub, a, f, v).1, FLAG_H) == (alu_spec(AluOp::Sub, a, f, v).0 / 16
            != a / 16),
{
    let r = ((a - v + 256) % 256) as u8;
    lemma_flags4(f, r == 0, true, r / 16 != a / 16, r >= a);
    assert(alu_spec(AluOp::Sub, a, f, v) == (r, flags4(f, r == 0, true, r / 16 != a / 16, r
        >= a)));
}

/// `SBC` takes the incoming carry off what `SUB` gives: with the carry clear
/// it gives what `SUB` gives, with the carry set one less (modulo 256).
pub proof fn lemma_sbc(a: u8, f: u8, v: u8)
    ensures
        alu_spec(AluOp::Sbc, a, f, v).0 == (alu_spec(AluOp::Sub, a, f, v).0 + 256 - carry_in(f))
            % 256,
        (alu_spec(AluOp::Sbc, a, f, v).0 + v + carry_in(f)) % 256 == a,
        flag(alu_spec(AluOp::Sbc, a, f, v).1, FLAG_Z) == (alu_spec(AluOp::Sbc, a, f, v).0 == 0),
        flag(alu_spec(AluOp::Sbc, a, f, v).1, FLAG_N),
        flag(alu_spec(AluOp::Sbc, a, f, v).1, FLAG_C) == (alu_spec(AluOp::Sbc, a, f, v).0 >= a),
        flag(alu_spec(AluOp::Sbc, a, f, v).1, FLAG_H) == (alu_spec(AluOp::Sbc, a, f, v).0 / 16
            != a / 16),
{
    let c = carry_in(f);
    assert(crate::bits::carry_bit(f) == c);
    let r = ((a - v - c + 512) % 256) as u8;
    let s = ((a - v + 256) % 256) as u8;
    lemma_flags4(f, r == 0, true, r / 16 != a / 16, r >= a);
    assert(alu_spec(AluOp::Sbc, a, f, v) == (r, flags4(f, r == 0, true, r / 16 != a / 16, r
        >= a)));
    assert(alu_spec(AluOp::Sub, a, f, v).0 == s);
    assert(r == (s + 256 - c) % 256) by (nonlinear_arith)
        requires
            0 <= c <= 1,
            0 <= a < 256,
            0 <= v < 256,
            r == (a - v - c + 512) % 256,
            s == (a - v + 256) % 256,
    ;
    assert((r + v + c) % 256 == a) by (nonlinear_arith)
        requires
            0 <= c <= 1,
            0 <= a < 256,
            0 <= v < 256,
            r == (a - v - c + 512) % 256,
    ;
}

/// `CP` compares without storing: the accumulator is kept, and Z, N and C
/// are those that `SUB` of the same operand gives.
pub proof fn lemma_cp_as_sub(a: u8, f: u8, v: u8)
    ensures
        alu_spec(AluOp::Cp, a, f, v).0 == a,
        flag(alu_spec(AluOp::Cp, a, f, v).1, FLAG_Z) == flag(alu_spec(AluOp::Sub, a, f, v).1, FLAG_Z),
        flag(alu_spec(AluOp::Cp, a, f, v).1, FLAG_N) == flag(alu_spec(AluOp::Sub, a, f, v).1, FLAG_N),
        flag(alu_spec(AluOp::Cp, a, f, v).1, FLAG_C) == flag(alu_spec(AluOp::Sub, a, f, v).1, FLAG_C),
{
    let r = ((a - v + 256) % 256) as u8;
    lemma_flags4(f, r == 0, true, r / 16 == a / 16, r >= a);
    lemma_flags4(f, r == 0, true, r / 16 != a / 16, r >= a);
}

/// `AND`, `XOR` and `OR` give the bitwise results; `AND` sets Z by its
/// result, sets H and clears N and C; `XOR` and `OR` keep the flags.
pub proof fn lemma_logic(a: u8, f: u8, v: u8)
    ensures
        alu_spec(AluOp::And, a, f, v).0 == a & v,
        flag(alu_spec(AluOp::And, a, f, v).1, FLAG_Z) == (a & v == 0),
        flag(alu_spec(AluOp::And, a, f, v).1, FLAG_H),
        !flag(alu_spec(AluOp::And, a, f, v).1, FLAG_C),
        !flag(alu_spec(AluOp::And, a, f, v).1, FLAG_N),
        alu_spec(AluOp::Xor, a, f, v) == (a ^ v, f),
        alu_spec(AluOp::Or, a, f, v) == (a | v, f),
{
    lemma_flags4(f, a & v == 0, false, true, false);
}

/// `RLC` rotates left, bit 7 coming round into bit 0; the carry flag is left clear.
pub proof fn lemma_rlc(p: u8, v: u8, f: u8)
    requires
        p < 0x08,
    ensures
        shift_spec(p, v, f).0 == (v * 2) % 256 + v / 128,
        !flag(shift_spec(p, v, f).1, FLAG_C),
        flag(shift_spec(p, v, f).1, FLAG_Z) == (v == 0),
        !flag(shift_spec(p, v, f).1, FLAG_N),
        !flag(shift_spec(p, v, f).1, FLAG_H),
{
    let r = ((v * 2) % 256 + v / 128) as u8;
    lemma_flags4(f, r == 0, false, false, false);
}

/// `RRC` rotates right, bit 0 coming round into bit 7; the carry flag is left clear.
pub proof fn lemma_rrc(p: u8, v: u8, f: u8)
    requires
        0x08 <= p < 0x10,
    ensures
        shift_spec(p, v, f).0 == v / 2 + (v % 2) * 128,
        !flag(shift_spec(p, v, f).1, FLAG_C),
        flag(shift_spec(p, v, f).1, FLAG_Z) == (v == 0),
        !flag(shift_spec(p, v, f).1, FLAG_N),
        !flag(shift_spec(p, v, f).1, FLAG_H),
{
    let r = (v / 2 + (v % 2) * 128) as u8;
    lemma_flags4(f, r == 0, false, false, false);
}

/// `RL` rotates left through the carry: the old carry flag becomes bit 0 and
/// bit 7 becomes the new carry flag.
pub proof fn lemma_rl(p: u8, v: u8, f: u8)
    requires
        0x10 <= p < 0x18,
    ensures
        shift_spec(p, v, f).0 == (v * 2) % 256 + carry_in(f),
        shift_spec(p, v, f).0 % 2 == carry_in(f),
        shift_spec(p, v, f).0 / 2 == v % 128,
        flag(shift_spec(p, v, f).1, FLAG_C) == (v >= 128),
        !flag(shift_spec(p, v, f).1, FLAG_Z),
        !flag(shift_spec(p, v, f).1, FLAG_N),
        !flag(shift_spec(p, v, f).1, FLAG_H),
{
    lemma_flags4(f, false, false, false, v >= 128);
}

/// `RR` rotates right through the carry: the old carry flag becomes bit 7 and
/// bit 0 becomes the new carry flag.
pub proof fn lemma_rr(p: u8, v: u8, f: u8)
    requires
        0x18 <= p < 0x20,
    ensures
        shift_spec(p, v, f).0 == v / 2 + carry_in(f) * 128,
        shift_spec(p, v, f).0 / 128 == carry_in(f),
        flag(shift_spec(p, v, f).1, FLAG_C) == (v % 2 == 1),
        !flag(shift_spec(p, v, f).1, FLAG_Z),
        !flag(shift_spec(p, v, f).1, FLAG_N),
        !flag(shift_spec(p, v, f).1, FLAG_H),
{
    lemma_flags4(f, false, false, false, v % 2 == 1);
}

/// `SLA` shifts left, bit 7 going to the carry flag and 0 coming into bit 0.
pub proof fn lemma_sla(p: u8, v: u8, f: u8)
    requires
        0x20 <= p < 0x28,
    ensures
        shift_spec(p, v, f).0 == (v * 2) % 256,
        flag(shift_spec(p, v, f).1, FLAG_C) == (v >= 128),
        !flag(shift_spec(p, v, f).1, FLAG_Z),
        !flag(shift_spec(p, v, f).1, FLAG_N),
        !flag(shift_spec(p, v, f).1, FLAG_H),
{
    lemma_flags4(f, false, false, false, v >= 128);
}

/// `SRA` shifts right (here a logical shift), bit 0 going to the carry flag.
pub proof fn lemma_sra(p: u8, v: u8, f: u8)
    requires
        0x28 <= p < 0x30,
    ensures
        shift_spec(p, v, f).0 == v / 2,
        flag(shift_spec(p, v, f).1, FLAG_C) == (v % 2 == 1),
        !flag(shift_spec(p, v, f).1, FLAG_Z),
        !flag(shift_spec(p, v, f).1, FLAG_N),
        !flag(shift_spec(p, v, f).1, FLAG_H),
{
    lemma_flags4(f, false, false, false, v % 2 == 1);
}

/// `SWAP` exchanges the two nibbles, sets Z by the result and clears the carry flag.
pub proof fn lemma_swap(p: u8, v: u8, f: u8)
    requires
        0x30 <= p < 0x38,
    ensures
        shift_spec(p, v, f).0 / 16 == v % 16,
        shift_spec(p, v, f).0 % 16 == v / 16,
        flag(shift_spec(p, v, f).1, FLAG_Z) == (v == 0),
        !flag(shift_spec(p, v, f).1, FLAG_C),
        !flag(shift_spec(p, v, f).1, FLAG_N),
        !flag(shift_spec(p, v, f).1, FLAG_H),
{
    let r = (v / 16 + (v % 16) * 16) as u8;
    lemma_flags4(f, r == 0, false, false, false);
}

/// `RL r` (opcode `0xCB` followed by `0x10..0x17`) as a whole instruction:
/// the named register becomes its value shifted left with the old carry flag
/// in bit 0, bit 7 becomes the carry flag, and the program counter moves past
/// the two bytes.
pub proof fn lemma_rl_instruction(m: Machine)
    requires
        m.mem.len() == MEM_SIZE,
        opcode(m) == 0xCB,
        0x10 <= m.operand(1) < 0x18,
        !execute_faults(m),
    ensures
        ({
            let idx = m.operand(1) % 8;
            let v = m.r8(idx);
            let m2 = execute_spec(m).0;
            &&& execute_spec(m).1 is None
            &&& m2.r8(idx) == (v * 2) % 256 + carry_in(m.regs.f)
            &&& flag(m2.regs.f, FLAG_C) == (v >= 128)
            &&& m2.regs.pc == m.regs.pc + 2
        }),
{
    let p = m.operand(1);
    lemma_rl(p, m.r8(p % 8), m.regs.f);
}

/// A rotate, shift or swap (opcode `0xCB` followed by a byte below `0x38`)
/// as a whole instruction: the named register (or the byte at HL) receives
/// the operation's result, the flags its flags, and the program counter
/// moves past the two bytes.
pub proof fn lemma_shift_instruction(m: Machine)
    requires
        m.mem.len() == MEM_SIZE,
        opcode(m) == 0xCB,
        m.operand(1) < 0x38,
        !execute_faults(m),
    ensures
        ({
            let p = m.operand(1);
            let idx = p % 8;
            let m2 = execute_spec(m).0;
            &&& execute_spec(m).1 is None
            &&& m2.r8(idx) == shift_spec(p, m.r8(idx), m.regs.f).0
            &&& m2.regs.f == shift_spec(p, m.r8(idx), m.regs.f).1
            &&& m2.regs.pc == m.regs.pc + 2
        }),
{
}

/// The request bit of each interrupt source: VBlank 0, LCD 1, timer 2,
/// serial 3, joypad 4.
pub open spec fn request_bit(i: Interrupt) -> u8 {
    match i {
        Interrupt::VBlank => 0,
        Interrupt::Lcd => 1,
        Interrupt::Timer => 2,
        Interrupt::Serial => 3,
        Interrupt::Joypad => 4,
    }
}

proof fn lemma_dispatch_bits(p: u8)
    ensures
        p >> 0u8 == p,
        (p >> 1u8 == 1) == (2 <= p < 4),
        (p >> 2u8 == 1) == (4 <= p < 8),
        (p >> 3u8 == 1) == (8 <= p < 16),
        (p >> 4u8 == 1) == (16 <= p < 32),
        !(1u8 << 0u8) == 0xFE,
        !(1u8 << 1u8) == 0xFD,
        !(1u8 << 2u8) == 0xFB,
        !(1u8 << 3u8) == 0xF7,
        !(1u8 << 4u8) == 0xEF,
{
    assert(p >> 0u8 == p && ((p >> 1u8 == 1) == (2 <= p < 4)) && ((p >> 2u8 == 1) == (4 <= p
        < 8)) && ((p >> 3u8 == 1) == (8 <= p < 16)) && ((p >> 4u8 == 1) == (16 <= p < 32)) && !(1u8
        << 0u8) == 0xFE && !(1u8 << 1u8) == 0xFD && !(1u8 << 2u8) == 0xFB && !(1u8 << 3u8) == 0xF7
        && !(1u8 << 4u8) == 0xEF) by (bit_vector);
}

/// Interrupt dispatch: when a source is dispatched, its request bit is the
/// highest one pending (and none above bit 4 is pending); exactly that bit is
/// cleared in IF and the rest of memory is kept; the old program counter is
/// pushed (high byte first) with SP moved down by two; execution continues
/// at the byte held at the source's vector `0x40 + 8 * bit`; interrupts are
/// disabled. When requests are pending but select no source, only the push
/// and the disable happen; with nothing to do the machine is kept.
pub proof fn lemma_dispatch(m: Machine)
    requires
        m.mem.len() == MEM_SIZE,
        !irq_faults(m),
    ensures
        ({
            let m2 = irq_spec(m).0;
            let pend = m.mem[REG_IF as int] & m.mem[REG_IE as int];
            match irq_spec(m).1 {
                Service::Dispatched(i) => {
                    let k = request_bit(i);
                    &&& pend >> k == 1
                    &&& m2.mem == m.mem.update(REG_IF as int, m.mem[REG_IF as int] & !(1u8 << k))
                    &&& m2.regs.pc == m.mem[0x40 + 8 * k]
                    &&& !m2.regs.ime
                    &&& m2.stack == m.stack.push(high(m.regs.pc)).push(low(m.regs.pc))
                    &&& m2.regs.sp == m.regs.sp - 2
                },
                Service::Unmatched => {
                    &&& m.regs.ime
                    &&& pend >= 32
                    &&& m2.mem == m.mem
                    &&& m2.regs.pc == m.regs.pc
                    &&& !m2.regs.ime
                    &&& m2.stack == m.stack.push(high(m.regs.pc)).push(low(m.regs.pc))
                },
                Service::Idle => {
                    &&& !(m.regs.ime && pend != 0)
                    &&& m2 == m
                },
            }
        }),
{
    lemma_dispatch_bits(m.mem[REG_IF as int] & m.mem[REG_IE as int]);
}

/// Background pixel (`x`, `y`): the tile map byte at `0x9800 + 32 * (y / 8)
/// + x / 8` names the tile; the first byte of that tile's row `y % 8` (tile
/// data at 0x8000 when bit 4 of LCDC is set, else at 0x8800, 16 bytes a tile,
/// 2 a row) holds the pixel in bit `7 - x % 8`: set is black, clear is white;
/// the pixel is opaque.
pub proof fn lemma_background_pixel(mem: Seq<u8>, x: int, y: int)
    requires
        mem.len() == MEM_SIZE,
        0 <= x < 256,
        0 <= y < 256,
    ensures
        ({
            let base = if (mem[0xFF40] / 16) % 2 == 1 {
                0x8000int
            } else {
                0x8800int
            };
            let id = mem[0x9800 + 32 * (y / 8) + x / 8];
            let row = mem[base + 16 * id + 2 * (y % 8)];
            let shade = if (row >> ((7 - x % 8) as u8)) & 1 == 1 {
                0u8
            } else {
                255u8
            };
            let j = 4 * (256 * y + x);
            &&& background_spec(mem)[j] == shade
            &&& background_spec(mem)[j + 1] == shade
            &&& background_spec(mem)[j + 2] == shade
            &&& background_spec(mem)[j + 3] == 255
        }),
{
    let p = 256 * y + x;
    assert(p % 256 == x && p / 256 == y);
    assert((4 * p) / 4 == p && (4 * p + 1) / 4 == p && (4 * p + 2) / 4 == p && (4 * p + 3) / 4
        == p);
    assert((4 * p) % 4 == 0 && (4 * p + 1) % 4 == 1 && (4 * p + 2) % 4 == 2 && (4 * p + 3) % 4
        == 3);
}

/// `LD A,(HL+)` (`0x2A`) and the fourth form `0x3A`: A receives the byte at
/// the old HL; HL moves on by one (`0x2A`) or by 254 (`0x3A`); the program
/// counter moves on by one; memory is kept.
#[verifier::rlimit(50)]
pub proof fn lemma_load_a_through_hl(m: Machine)
    requires
        m.mem.len() == MEM_SIZE,
        opcode(m) == 0x2A || opcode(m) == 0x3A,
        !execute_faults(m),
    ensures
        ({
            let m2 = execute_spec(m).0;
            &&& execute_spec(m).1 is None
            &&& m2.regs.a == m.mem[m.hl() as int]
            &&& m2.hl() == (m.hl() + (if opcode(m) == 0x2A { 1int } else { 254 })) % 65536
            &&& m2.regs.pc == m.regs.pc + 1
            &&& m2.mem == m.mem
        }),
{
    let w1 = ((m.hl() + 1) % 65536) as u16;
    let w2 = ((m.hl() + 254) % 65536) as u16;
    lemma_word_bytes(w1, 0, 0);
    lemma_word_bytes(w2, 0, 0);
}

/// `LD (HL+),A` (`0x22`) and `LD (HL-),A` (`0x32`): the byte at the old HL
/// receives A and no other byte changes; HL moves up or down by one; the
/// program counter moves on by one.
#[verifier::rlimit(50)]
pub proof fn lemma_store_a_through_hl(m: Machine)
    requires
        m.mem.len() == MEM_SIZE,
        opcode(m) == 0x22 || opcode(m) == 0x32,
        !execute_faults(m),
    ensures
        ({
            let m2 = execute_spec(m).0;
            &&& execute_spec(m).1 is None
            &&& m2.mem == m.mem.update(m.hl() as int, m.regs.a)
            &&& m2.hl() == (m.hl() + (if opcode(m) == 0x22 { 1int } else { 65535 })) % 65536
            &&& m2.regs.a == m.regs.a
            &&& m2.regs.pc == m.regs.pc + 1
        }),
{
    let w1 = ((m.hl() + 1) % 65536) as u16;
    let w2 = ((m.hl() + 65535) % 65536) as u16;
    lemma_word_bytes(w1, 0, 0);
    lemma_word_bytes(w2, 0, 0);
}


/// The arithmetic group (`0x80..0xBF`) as whole instructions: bits 3..5 of
/// the opcode pick `ADD`, `ADC`, `SUB`, `SBC`, `AND`, `XOR`, `OR`, `CP` and
/// bits 0..2 the operand (B, C, D, E, H, L, the byte at HL, A). The new
/// accumulator is, modulo 256, `A + v`, `A + v + carry`, `A - v`,
/// `A - v - carry`, or the bitwise result (`CP` keeps it); the program
/// counter moves on by one and memory is kept.
pub proof fn lemma_alu_instruction(m: Machine)
    requires
        m.mem.len() == MEM_SIZE,
        0x80 <= opcode(m) < 0xC0,
        !execute_faults(m),
    ensures
        ({
            let g = (opcode(m) / 8) % 8;
            let a = m.regs.a;
            let v = m.r8(opcode(m) % 8);
            let c = carry_in(m.regs.f);
            let m2 = execute_spec(m).0;
            &&& execute_spec(m).1 is None
            &&& m2.regs.a == alu_spec(alu_op_of(g), a, m.regs.f, v).0
            &&& m2.regs.f == alu_spec(alu_op_of(g), a, m.regs.f, v).1
            &&& m2.regs.pc == m.regs.pc + 1
            &&& m2.mem == m.mem
            &&& (g == 0 ==> m2.regs.a == (a + v) % 256)
            &&& (g == 1 ==> m2.regs.a == (a + v + c) % 256)
            &&& (g == 2 ==> (m2.regs.a + v) % 256 == a)
            &&& (g == 3 ==> (m2.regs.a + v + c) % 256 == a)
            &&& (g == 4 ==> m2.regs.a == a & v)
            &&& (g == 5 ==> m2.regs.a == a ^ v)
            &&& (g == 6 ==> m2.regs.a == a | v)
            &&& (g == 7 ==> m2.regs.a == a)
        }),
{
    let a = m.regs.a;
    let f = m.regs.f;
    let v = m.r8(opcode(m) % 8);
    lemma_add(a, f, v);
    lemma_adc(a, f, v);
    lemma_sub(a, f, v);
    lemma_sbc(a, f, v);
    lemma_cp_as_sub(a, f, v);
    lemma_logic(a, f, v);
    let c = carry_in(f);
    assert((((a + v) % 256) + c) % 256 == (a + v + c) % 256) by (nonlinear_arith)
        requires
            0 <= c <= 1,
            0 <= a < 256,
            0 <= v < 256,
    ;
}


/// `INC r` (`0x04`, `0x0C`, .. `0x3C`) and `DEC r` (`0x05`, `0x0D`, ..
/// `0x3D`): the operand named by bits 3..5 goes up or down by one modulo
/// 256; Z tells whether the result is zero; N is set by `DEC` alone.
pub proof fn lemma_inc_dec8_instruction(m: Machine)
    requires
        m.mem.len() == MEM_SIZE,
        opcode(m) < 0x40,
        opcode(m) % 8 == 4 || opcode(m) % 8 == 5,
        m.regs.pc < 0xFFFF,
    ensures
        ({
            let idx = opcode(m) / 8;
            let v = m.r8(idx);
            let m2 = execute_spec(m).0;
            &&& execute_spec(m).1 is None
            &&& opcode(m) % 8 == 4 ==> m2.r8(idx) == (v + 1) % 256
            &&& opcode(m) % 8 == 5 ==> (m2.r8(idx) + 1) % 256 == v
            &&& flag(m2.regs.f, FLAG_Z) == (m2.r8(idx) == 0)
            &&& flag(m2.regs.f, FLAG_N) == (opcode(m) % 8 == 5)
            &&& flag(m2.regs.f, FLAG_H) == (m2.r8(idx) == (if opcode(m) % 8 == 4 {
                16int
            } else {
                0xF0
            }))
            &&& flag(m2.regs.f, FLAG_C) == (v == (if opcode(m) % 8 == 4 {
                255int
            } else {
                0
            }))
            &&& m2.regs.pc == m.regs.pc + 1
        }),
{
    let idx = opcode(m) / 8;
    if opcode(m) % 8 == 4 {
        lemma_decode_inc_dec8(m);
        lemma_inc8_result(m, idx);
    } else {
        lemma_decode_inc_dec8(m);
        lemma_dec8_result(m, idx);
    }
}

proof fn lemma_decode_inc_dec8(m: Machine)
    requires
        opcode(m) < 0x40,
        opcode(m) % 8 == 4 || opcode(m) % 8 == 5,
    ensures
        opcode(m) % 8 == 4 ==> execute_spec(m) == (inc8_spec(m, opcode(m) / 8), None::<
            crate::cpu::Stop,
        >),
        opcode(m) % 8 == 5 ==> execute_spec(m) == (dec8_spec(m, opcode(m) / 8), None::<
            crate::cpu::Stop,
        >),
{
}

proof fn lemma_inc8_result(m: Machine, idx: u8)
    requires
        m.mem.len() == MEM_SIZE,
        idx < 8,
        m.regs.pc < 0xFFFF,
    ensures
        inc8_spec(m, idx).r8(idx) == (m.r8(idx) + 1) % 256,
        flag(inc8_spec(m, idx).regs.f, FLAG_Z) == (inc8_spec(m, idx).r8(idx) == 0),
        !flag(inc8_spec(m, idx).regs.f, FLAG_N),
        flag(inc8_spec(m, idx).regs.f, FLAG_H) == (inc8_spec(m, idx).r8(idx) == 16),
        flag(inc8_spec(m, idx).regs.f, FLAG_C) == (m.r8(idx) == 255),
        inc8_spec(m, idx).regs.pc == m.regs.pc + 1,
{
    let v = m.r8(idx);
    let r1 = ((v + 1) % 256) as u8;
    let g = flags4(m.regs.f, r1 == 0, false, r1 == 16, v == 255);
    lemma_set_r8_reads(m, idx, r1, g, 1);
    lemma_flags4(m.regs.f, r1 == 0, false, r1 == 16, v == 255);
}

proof fn lemma_dec8_result(m: Machine, idx: u8)
    requires
        m.mem.len() == MEM_SIZE,
        idx < 8,
        m.regs.pc < 0xFFFF,
    ensures
        (dec8_spec(m, idx).r8(idx) + 1) % 256 == m.r8(idx),
        flag(dec8_spec(m, idx).regs.f, FLAG_Z) == (dec8_spec(m, idx).r8(idx) == 0),
        flag(dec8_spec(m, idx).regs.f, FLAG_N),
        flag(dec8_spec(m, idx).regs.f, FLAG_H) == (dec8_spec(m, idx).r8(idx) == 0xF0),
        flag(dec8_spec(m, idx).regs.f, FLAG_C) == (m.r8(idx) == 0),
        dec8_spec(m, idx).regs.pc == m.regs.pc + 1,
{
    let v = m.r8(idx);
    let r2 = ((v + 255) % 256) as u8;
    let g = flags4(m.regs.f, r2 == 0, true, r2 == 0xF0, r2 == 0xFF);
    lemma_set_r8_reads(m, idx, r2, g, 1);
    lemma_flags4(m.regs.f, r2 == 0, true, r2 == 0xF0, r2 == 0xFF);
}

/// Writing an 8-bit operand and then the flags and the program counter:
/// the operand reads back as written and the flags as set.
proof fn lemma_set_r8_reads(m: Machine, idx: u8, v: u8, f: u8, n: int)
    requires
        m.mem.len() == MEM_SIZE,
        idx < 8,
    ensures
        m.set_r8(idx, v).set_f(f).advance(n).r8(idx) == v,
        m.set_r8(idx, v).set_f(f).advance(n).regs.f == f,
        m.set_r8(idx, v).set_f(f).advance(n).regs.pc == (m.regs.pc + n) as u16,
{
}

/// `RLCA` (`0x07`), `RRCA` (`0x0F`), `RLA` (`0x17`) and `RRA` (`0x1F`):
/// the accumulator rotated left or right, round itself or through the carry
/// flag (the old carry entering bit 0 or bit 7); the bit rotated out becomes
/// the carry flag; Z is cleared.
pub proof fn lemma_rotate_a_instruction(m: Machine)
    requires
        m.mem.len() == MEM_SIZE,
        opcode(m) == 0x07 || opcode(m) == 0x0F || opcode(m) == 0x17 || opcode(m) == 0x1F,
        !execute_faults(m),
    ensures
        ({
            let op = opcode(m);
            let a = m.regs.a;
            let c = carry_in(m.regs.f);
            let m2 = execute_spec(m).0;
            &&& execute_spec(m).1 is None
            &&& op == 0x07 ==> m2.regs.a == (a * 2) % 256 + a / 128
            &&& op == 0x0F ==> m2.regs.a == a / 2 + (a % 2) * 128
            &&& op == 0x17 ==> m2.regs.a == (a * 2) % 256 + c
            &&& op == 0x1F ==> m2.regs.a == a / 2 + c * 128
            &&& flag(m2.regs.f, FLAG_C) == (if op == 0x07 || op == 0x17 {
                a >= 128
            } else {
                a % 2 == 1
            })
            &&& !flag(m2.regs.f, FLAG_Z)
            &&& m2.regs.pc == m.regs.pc + 1
            &&& m2.mem == m.mem
        }),
{
    let a = m.regs.a;
    lemma_flags4(m.regs.f, false, false, false, a >= 128);
    lemma_flags4(m.regs.f, false, false, false, a % 2 == 1);
    assert(crate::bits::carry_bit(m.regs.f) == carry_in(m.regs.f));
}

/// `ADD HL,rr` (`0x09`, `0x19`, `0x29`, `0x39`): HL and the carry flag
/// together make the full sum of HL and the pair BC, DE, HL or SP; Z is
/// kept and N cleared.
pub proof fn lemma_add_hl_instruction(m: Machine)
    requires
        m.mem.len() == MEM_SIZE,
        opcode(m) < 0x40,
        opcode(m) % 16 == 9,
        m.regs.pc < 0xFFFF,
    ensures
        ({
            let m2 = execute_spec(m).0;
            &&& execute_spec(m).1 is None
            &&& m2.hl() + (if flag(m2.regs.f, FLAG_C) {
                65536int
            } else {
                0
            }) == m.hl() + m.pair(opcode(m) / 16)
            &&& flag(m2.regs.f, FLAG_Z) == flag(m.regs.f, FLAG_Z)
            &&& !flag(m2.regs.f, FLAG_N)
            &&& m2.regs.pc == m.regs.pc + 1
            &&& m2.mem == m.mem
        }),
{
    lemma_decode_add_hl(m);
    lemma_add_hl_result(m, opcode(m) / 16);
}

proof fn lemma_decode_add_hl(m: Machine)
    requires
        opcode(m) < 0x40,
        opcode(m) % 16 == 9,
    ensures
        execute_spec(m) == (add_hl_spec(m, opcode(m) / 16), None::<crate::cpu::Stop>),
{
}

proof fn lemma_add_hl_result(m: Machine, k: u8)
    requires
        k < 4,
        m.regs.pc < 0xFFFF,
    ensures
        add_hl_spec(m, k).hl() + (if flag(add_hl_spec(m, k).regs.f, FLAG_C) {
            65536int
        } else {
            0
        }) == m.hl() + m.pair(k),
        flag(add_hl_spec(m, k).regs.f, FLAG_Z) == flag(m.regs.f, FLAG_Z),
        !flag(add_hl_spec(m, k).regs.f, FLAG_N),
        add_hl_spec(m, k).regs.pc == m.regs.pc + 1,
        add_hl_spec(m, k).mem == m.mem,
{
    let hl = m.hl();
    let s = hl + m.pair(k);
    let res = (s % 65536) as u16;
    let g = flags_nhc(m.regs.f, false, (res % 256) / 16 != (hl % 256) / 16, s > 0xFFFF);
    lemma_flags_nhc(m.regs.f, false, (res % 256) / 16 != (hl % 256) / 16, s > 0xFFFF);
    lemma_word_bytes(res, 0, 0);
    assert(add_hl_spec(m, k).hl() == res);
    assert(add_hl_spec(m, k).regs.f == g);
}

/// `INC rr` (`0x03`, `0x13`, `0x23`, `0x33`) and `DEC rr` (`0x0B`, `0x1B`,
/// `0x2B`, `0x3B`): the pair BC, DE, HL or SP goes up or down by one modulo
/// 2^16; the flags are kept.
pub proof fn lemma_inc_dec_pair_instruction(m: Machine)
    requires
        m.mem.len() == MEM_SIZE,
        opcode(m) < 0x40,
        opcode(m) % 16 == 3 || opcode(m) % 16 == 11,
        m.regs.pc < 0xFFFF,
    ensures
        ({
            let k = opcode(m) / 16;
            let m2 = execute_spec(m).0;
            &&& execute_spec(m).1 is None
            &&& opcode(m) % 16 == 3 ==> m2.pair(k) == (m.pair(k) + 1) % 65536
            &&& opcode(m) % 16 == 11 ==> (m2.pair(k) + 1) % 65536 == m.pair(k)
            &&& m2.regs.f == m.regs.f
            &&& m2.regs.pc == m.regs.pc + 1
        }),
{
    lemma_decode_inc_dec_pair(m);
    lemma_inc_dec_pair_result(m, opcode(m) / 16);
}

proof fn lemma_decode_inc_dec_pair(m: Machine)
    requires
        opcode(m) < 0x40,
        opcode(m) % 16 == 3 || opcode(m) % 16 == 11,
    ensures
        opcode(m) % 16 == 3 ==> execute_spec(m) == (inc_pair_spec(m, opcode(m) / 16), None::<
            crate::cpu::Stop,
        >),
        opcode(m) % 16 == 11 ==> execute_spec(m) == (dec_pair_spec(m, opcode(m) / 16), None::<
            crate::cpu::Stop,
        >),
{
}

proof fn lemma_inc_dec_pair_result(m: Machine, k: u8)
    requires
        k < 4,
        m.regs.pc < 0xFFFF,
    ensures
        inc_pair_spec(m, k).pair(k) == (m.pair(k) + 1) % 65536,
        (dec_pair_spec(m, k).pair(k) + 1) % 65536 == m.pair(k),
        inc_pair_spec(m, k).regs.f == m.regs.f,
        dec_pair_spec(m, k).regs.f == m.regs.f,
        inc_pair_spec(m, k).regs.pc == m.regs.pc + 1,
        dec_pair_spec(m, k).regs.pc == m.regs.pc + 1,
{
    let up = ((m.pair(k) + 1) % 65536) as u16;
    let down = ((m.pair(k) + 65535) % 65536) as u16;
    lemma_word_bytes(up, 0, 0);
    lemma_word_bytes(down, 0, 0);
    assert(inc_pair_spec(m, k).pair(k) == up);
    assert(dec_pair_spec(m, k).pair(k) == down);
}

/// The `0xCB`-prefixed operations from `0x38`: `BIT b,r` (`0x40..0x7F`) sets
/// Z exactly when bit `b` of the operand is clear, sets H, clears N and
/// keeps the operand and the carry flag; `SRL` (`0x38..0x3F`) shifts the
/// accumulator right, bit 0 going to the carry flag; the `RES` group
/// (`0x80..0xBF`) clears bit 0 of its operand and keeps the flags.
pub proof fn lemma_bit_srl_res_instruction(m: Machine)
    requires
        m.mem.len() == MEM_SIZE,
        opcode(m) == 0xCB,
        0x38 <= m.operand(1) < 0xC0,
        !execute_faults(m),
    ensures
        ({
            let p = m.operand(1);
            let idx = p % 8;
            let v = m.r8(idx);
            let a = m.regs.a;
            let m2 = execute_spec(m).0;
            &&& execute_spec(m).1 is None
            &&& m2.regs.pc == m.regs.pc + 2
            &&& 0x40 <= p < 0x80 ==> {
                &&& flag(m2.regs.f, FLAG_Z) == ((v >> ((p / 8) % 8)) & 1 == 0)
                &&& flag(m2.regs.f, FLAG_H)
                &&& !flag(m2.regs.f, FLAG_N)
                &&& flag(m2.regs.f, FLAG_C) == flag(m.regs.f, FLAG_C)
                &&& m2.r8(idx) == v
            }
            &&& p < 0x40 ==> {
                &&& m2.regs.a == a / 2
                &&& flag(m2.regs.f, FLAG_C) == (a % 2 == 1)
                &&& flag(m2.regs.f, FLAG_Z) == (a / 2 == 0)
            }
            &&& 0x80 <= p ==> {
                &&& m2.r8(idx) == v - v % 2
                &&& m2.regs.f == m.regs.f
            }
        }),
{
    let p = m.operand(1);
    let v = m.r8(p % 8);
    let f = m.regs.f;
    let a = m.regs.a;
    let bit = (v >> ((p / 8) % 8)) & 1;
    lemma_flags_znh(f, bit == 0, false, true);
    lemma_flags4(f, a / 2 == 0, false, false, a % 2 == 1);
}



/// The operations whose operand is the byte at SP+1 (`0xC6` `ADD`, `0xD6`
/// `SUB`, `0xE6` `AND`, `0xDE` `SBC`, `0xEE` `XOR`, `0xF6` `OR`): the new
/// accumulator is, modulo 256, `A + v`, `A - v`, `A - v - carry` or the
/// bitwise result, with `v` the byte at SP+1; `OR` sets Z by its result;
/// the program counter moves past the two bytes and memory is kept.
pub proof fn lemma_stack_operand_instruction(m: Machine)
    requires
        m.mem.len() == MEM_SIZE,
        opcode(m) == 0xC6 || opcode(m) == 0xD6 || opcode(m) == 0xE6 || opcode(m) == 0xDE
            || opcode(m) == 0xEE || opcode(m) == 0xF6,
        !execute_faults(m),
    ensures
        ({
            let op = opcode(m);
            let a = m.regs.a;
            let v = m.mem[m.regs.sp + 1];
            let c = carry_in(m.regs.f);
            let m2 = execute_spec(m).0;
            &&& execute_spec(m).1 is None
            &&& op == 0xC6 ==> m2.regs.a == (a + v) % 256
            &&& op == 0xD6 ==> (m2.regs.a + v) % 256 == a
            &&& op == 0xDE ==> (m2.regs.a + v + c) % 256 == a
            &&& op == 0xE6 ==> m2.regs.a == a & v
            &&& op == 0xEE ==> m2.regs.a == a ^ v
            &&& op == 0xF6 ==> m2.regs.a == a | v && flag(m2.regs.f, FLAG_Z) == (a | v == 0)
                && !flag(m2.regs.f, FLAG_C)
            &&& m2.regs.pc == m.regs.pc + 2
            &&& m2.mem == m.mem
        }),
{
    let a = m.regs.a;
    let f = m.regs.f;
    let v = m.mem[m.regs.sp + 1];
    lemma_add(a, f, v);
    lemma_sub(a, f, v);
    lemma_sbc(a, f, v);
    lemma_logic(a, f, v);
    lemma_flags4(f, a | v == 0, false, false, false);
}

/// `ADC A,n` (`0xCE`) adds the byte after the opcode and then the carry of
/// that first addition (not the incoming carry flag), which also becomes the
/// carry flag; `CP n` (`0xFE`) keeps A and sets Z exactly when A equals the
/// byte. Both move the program counter past the two bytes.
pub proof fn lemma_immediate_instruction(m: Machine)
    requires
        m.mem.len() == MEM_SIZE,
        opcode(m) == 0xCE || opcode(m) == 0xFE,
        !execute_faults(m),
    ensures
        ({
            let a = m.regs.a;
            let n = m.operand(1);
            let m2 = execute_spec(m).0;
            &&& execute_spec(m).1 is None
            &&& opcode(m) == 0xCE ==> {
                &&& m2.regs.a == (a + n + (if a + n > 255 {
                    1int
                } else {
                    0
                })) % 256
                &&& flag(m2.regs.f, FLAG_C) == (a + n > 255)
            }
            &&& opcode(m) == 0xFE ==> {
                &&& m2.regs.a == a
                &&& flag(m2.regs.f, FLAG_Z) == (a == n)
                &&& flag(m2.regs.f, FLAG_N)
            }
            &&& m2.regs.pc == m.regs.pc + 2
            &&& m2.mem == m.mem
        }),
{
    lemma_decode_immediate(m);
    let a = m.regs.a;
    let n = m.operand(1);
    lemma_cp_as_sub(a, m.regs.f, n);
    lemma_sub(a, m.regs.f, n);
    if opcode(m) == 0xCE {
        lemma_adc_imm_result(m);
    }
}

proof fn lemma_decode_immediate(m: Machine)
    requires
        opcode(m) == 0xCE || opcode(m) == 0xFE,
    ensures
        opcode(m) == 0xCE ==> execute_spec(m) == (adc_imm_spec(m), None::<crate::cpu::Stop>),
        opcode(m) == 0xFE ==> execute_spec(m) == (alu_instr_spec(m, AluOp::Cp, m.operand(1), 2),
        None::<crate::cpu::Stop>),
{
}

proof fn lemma_adc_imm_result(m: Machine)
    ensures
        ({
            let a = m.regs.a;
            let n = m.operand(1);
            &&& adc_imm_spec(m).regs.a == (a + n + (if a + n > 255 {
                1int
            } else {
                0
            })) % 256
            &&& flag(adc_imm_spec(m).regs.f, FLAG_C) == (a + n > 255)
            &&& adc_imm_spec(m).mem == m.mem
        }),
{
    let a = m.regs.a;
    let f = m.regs.f;
    let n = m.operand(1);
    let carried = a + n > 255;
    let f1 = put(f, FLAG_C, carried);
    lemma_put_flag(f, FLAG_C, FLAG_C);
    let r = ((if carried { a + n - 255 } else { a + n }) % 256) as u8;
    let f2 = if r == 0 {
        put(f1, FLAG_Z, true)
    } else {
        f1
    };
    lemma_put_flag(f1, FLAG_Z, FLAG_C);
    let f3 = put(f2, FLAG_N, false);
    lemma_put_flag(f2, FLAG_N, FLAG_C);
    lemma_put_flag(f3, FLAG_H, FLAG_C);
    assert(adc_imm_flags(f, a, r, carried) == adc_imm_spec(m).regs.f);
}

} // verus!
