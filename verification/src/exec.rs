//! Execution of single instructions by the processor.
use vstd::prelude::*;
use crate::alu::{alu, high_nibble_differs, set_flags4, set_flags_nhc, set_flags_znh};
use crate::bits::{
    lemma_put_flag, flag, carry_of, high, high_of, join, lemma_byte, lemma_word, low, low_of, put_flag, read_flag,
    FLAG_C, FLAG_H, FLAG_N, FLAG_Z,
};
use crate::cpu::{Cpu, MEM_SIZE, Regs, Stop};
use crate::decode::{AluOp, Instr, decode};
use crate::semantics::{
    add_hl_spec, flags_nhc, adc_imm_spec, alu_instr_spec, beyond, call_cond_spec, call_spec,
    cond, dec8_spec, dec_pair_spec, inc8_spec, inc_pair_spec, jp_spec, jr_faults, jr_spec,
    load8_spec, load_a_spec, load_abs_spec, load_high_spec, load_imm8_spec, load_pair_imm_spec,
    or_stack_spec, pop_spec, prefix_instr_spec, prefix_spec, push_spec, return_spec, rotate_a_spec,
    rst_spec, shift_spec, store_a_spec, execute_faults, execute_spec, };

verus! {

/// Whether condition `cc` (NZ, Z, NC, C) holds for the flags `f`.
pub fn test_cond(f: u8, cc: u8) -> (r: bool)
    ensures
        r == cond(f, cc),
{
    if cc == 0 {
        !read_flag(f, FLAG_Z)
    } else if cc == 1 {
        read_flag(f, FLAG_Z)
    } else if cc == 2 {
        !read_flag(f, FLAG_C)
    } else {
        read_flag(f, FLAG_C)
    }
}

impl Cpu {
    /// The byte `k` places after the program counter.
    fn operand(&self, mem: &Vec<u8>, k: u16) -> (r: u8)
        requires
            mem@.len() == MEM_SIZE,
            self.regs.pc + k <= 0xFFFF,
        ensures
            r == self.machine(mem@).operand(k as int),
    {
        mem[(self.regs.pc + k) as usize]
    }

    /// The 16-bit operand that follows the opcode, low byte first.
    fn operand_word(&self, mem: &Vec<u8>) -> (r: u16)
        requires
            mem@.len() == MEM_SIZE,
            self.regs.pc + 2 <= 0xFFFF,
        ensures
            r == crate::bits::word(
                self.machine(mem@).operand(2),
                self.machine(mem@).operand(1),
            ),
    {
        let lo = self.operand(mem, 1);
        let hi = self.operand(mem, 2);
        join(hi, lo)
    }

    /// Moves the program counter forward by `n`.
    fn advance(&mut self, n: u16)
        requires
            old(self).regs.pc + n <= 0xFFFF,
        ensures
            final(self).regs == (Regs { pc: (old(self).regs.pc + n) as u16, ..old(self).regs }),
            final(self).stack == old(self).stack,
            final(self).serial_progress == old(self).serial_progress,
    {
        self.regs.pc = self.regs.pc + n;
    }

    #[verifier::rlimit(30)]
    fn run_prefix(&mut self, mem: &mut Vec<u8>) -> (r: Option<Stop>)
        requires
            old(mem)@.len() == MEM_SIZE,
            !beyond(old(self).machine(old(mem)@), 1),
            old(self).machine(old(mem)@).operand(1) < 0xC0 ==> !beyond(old(self).machine(old(mem)@), 2),
        ensures
            final(self).machine(final(mem)@) == prefix_instr_spec(old(self).machine(old(mem)@)).0,
            r == prefix_instr_spec(old(self).machine(old(mem)@)).1,
            final(mem)@.len() == MEM_SIZE,
    {
        let p = self.operand(mem, 1);
        if p >= 0xC0 {
            return Some(Stop::UnknownPrefix(p));
        }
        let idx = p % 8;
        let v = self.read_r8(mem, idx);
        let f = self.regs.f;
        if 0x40 <= p && p < 0x80 {
            let bit = (v >> ((p / 8) % 8)) & 1;
            self.regs.f = set_flags_znh(f, bit == 0, false, true);
        } else if 0x38 <= p && p < 0x40 {
            let a = self.regs.a;
            proof {
                lemma_byte(a);
            }
            let r = a >> 1;
            self.regs.a = r;
            self.regs.f = set_flags4(f, r == 0, false, false, a & 1 == 1);
        } else if p < 0x38 {
            let (r, f2) = shift(p, v, f);
            self.write_r8(mem, idx, r);
            self.regs.f = f2;
        } else {
            proof {
                lemma_byte(v);
            }
            self.write_r8(mem, idx, v & 0xFE);
        }
        assert(self.machine(mem@) == prefix_spec(old(self).machine(old(mem)@), p));
        self.advance(2);
        None
    }
}

/// The rotate, shift or swap `p` (a `0xCB`-prefixed opcode below `0x38`) on
/// the value `v` with the flags `f`: the new value and the new flags.
pub fn shift(p: u8, v: u8, f: u8) -> (r: (u8, u8))
    requires
        p < 0x38,
    ensures
        r == shift_spec(p, v, f),
{
    proof {
        lemma_byte(v);
    }
    if p < 0x08 {
        let r = (v << 1) | (v >> 7);
        (r, set_flags4(f, r == 0, false, false, false))
    } else if p < 0x10 {
        let r = (v >> 1) | (v << 7);
        (r, set_flags4(f, r == 0, false, false, false))
    } else if p < 0x18 {
        let r = if read_flag(f, FLAG_C) {
            (v << 1) | 1
        } else {
            v << 1
        };
        (r, set_flags4(f, false, false, false, v >> 7 == 1))
    } else if p < 0x20 {
        let r = if read_flag(f, FLAG_C) {
            (v >> 1) | 0x80
        } else {
            v >> 1
        };
        (r, set_flags4(f, false, false, false, v & 1 == 1))
    } else if p < 0x28 {
        (v << 1, set_flags4(f, false, false, false, v >> 7 == 1))
    } else if p < 0x30 {
        (v >> 1, set_flags4(f, false, false, false, v & 1 == 1))
    } else {
        let r = (v >> 4) | (v << 4);
        (r, set_flags4(f, r == 0, false, false, false))
    }
}


impl Cpu {
    fn run_call(&mut self, mem: &mut Vec<u8>)
        requires
            old(mem)@.len() == MEM_SIZE,
            !beyond(old(self).machine(old(mem)@), 3),
            old(self).machine(old(mem)@).regs.sp >= 2,
        ensures
            final(self).machine(final(mem)@) == call_spec(old(self).machine(old(mem)@)),
            final(mem)@.len() == MEM_SIZE,
    {
        let target = self.operand_word(mem);
        let ret = self.regs.pc + 3;
        self.push_word(high_of(ret), low_of(ret));
        self.regs.pc = target;
    }

    fn run_load_pair_imm(&mut self, mem: &mut Vec<u8>, k: u8)
        requires
            old(mem)@.len() == MEM_SIZE,
            !beyond(old(self).machine(old(mem)@), 3),
        ensures
            final(self).machine(final(mem)@) == load_pair_imm_spec(old(self).machine(old(mem)@), k),
            final(mem)@.len() == MEM_SIZE,
    {
        let w = self.operand_word(mem);
        self.write_pair(k, w);
        self.advance(3);
    }

    #[verifier::rlimit(30)]
    fn run_inc_pair(&mut self, mem: &mut Vec<u8>, k: u8)
        requires
            old(mem)@.len() == MEM_SIZE,
            !beyond(old(self).machine(old(mem)@), 1),
            k >= 3 ==> old(self).machine(old(mem)@).regs.sp < 0xFFFF,
        ensures
            final(self).machine(final(mem)@) == inc_pair_spec(old(self).machine(old(mem)@), k),
            final(mem)@.len() == MEM_SIZE,
    {
        if k == 0 {
            let (h, l) = increment(self.regs.b, self.regs.c);
            self.regs.b = h;
            self.regs.c = l;
        } else if k == 1 {
            let (h, l) = increment(self.regs.d, self.regs.e);
            self.regs.d = h;
            self.regs.e = l;
        } else if k == 2 {
            let (h, l) = increment(self.regs.h, self.regs.l);
            self.regs.h = h;
            self.regs.l = l;
        } else {
            self.regs.sp = self.regs.sp + 1;
        }
        self.advance(1);
    }

    #[verifier::rlimit(30)]
    fn run_dec_pair(&mut self, mem: &mut Vec<u8>, k: u8)
        requires
            old(mem)@.len() == MEM_SIZE,
            !beyond(old(self).machine(old(mem)@), 1),
            k >= 3 ==> old(self).machine(old(mem)@).regs.sp > 0,
        ensures
            final(self).machine(final(mem)@) == dec_pair_spec(old(self).machine(old(mem)@), k),
            final(mem)@.len() == MEM_SIZE,
    {
        if k == 0 {
            let (h, l) = decrement(self.regs.b, self.regs.c);
            self.regs.b = h;
            self.regs.c = l;
        } else if k == 1 {
            let (h, l) = decrement(self.regs.d, self.regs.e);
            self.regs.d = h;
            self.regs.e = l;
        } else if k == 2 {
            let (h, l) = decrement(self.regs.h, self.regs.l);
            self.regs.h = h;
            self.regs.l = l;
        } else {
            self.regs.sp = self.regs.sp - 1;
        }
        self.advance(1);
    }

    fn run_inc8(&mut self, mem: &mut Vec<u8>, idx: u8)
        requires
            old(mem)@.len() == MEM_SIZE,
            !beyond(old(self).machine(old(mem)@), 1),
        ensures
            final(self).machine(final(mem)@) == inc8_spec(old(self).machine(old(mem)@), idx),
            final(mem)@.len() == MEM_SIZE,
    {
        let v = self.read_r8(mem, idx);
        let f = self.regs.f;
        let res = v.wrapping_add(1);
        self.write_r8(mem, idx, res);
        self.regs.f = set_flags4(f, res == 0, false, res == 0x10, v == 255);
        self.advance(1);
    }

    fn run_dec8(&mut self, mem: &mut Vec<u8>, idx: u8)
        requires
            old(mem)@.len() == MEM_SIZE,
            !beyond(old(self).machine(old(mem)@), 1),
        ensures
            final(self).machine(final(mem)@) == dec8_spec(old(self).machine(old(mem)@), idx),
            final(mem)@.len() == MEM_SIZE,
    {
        let v = self.read_r8(mem, idx);
        let f = self.regs.f;
        let res = v.wrapping_add(0xFF);
        self.write_r8(mem, idx, res);
        self.regs.f = set_flags4(f, res == 0, true, res == 0xF0, res == 0xFF);
        self.advance(1);
    }

    fn run_load_imm8(&mut self, mem: &mut Vec<u8>, idx: u8)
        requires
            old(mem)@.len() == MEM_SIZE,
            !beyond(old(self).machine(old(mem)@), 2),
        ensures
            final(self).machine(final(mem)@) == load_imm8_spec(old(self).machine(old(mem)@), idx),
            final(mem)@.len() == MEM_SIZE,
    {
        let v = self.operand(mem, 1);
        self.write_r8(mem, idx, v);
        self.advance(2);
    }

    #[verifier::rlimit(30)]
    fn run_rotate_a(&mut self, mem: &mut Vec<u8>, i: Instr)
        requires
            old(mem)@.len() == MEM_SIZE,
            i is Rrca || i is Rra || i is Rlca || i is Rla,
            !beyond(old(self).machine(old(mem)@), 1),
        ensures
            final(self).machine(final(mem)@) == rotate_a_spec(old(self).machine(old(mem)@), i),
            final(mem)@.len() == MEM_SIZE,
    {
        let a = self.regs.a;
        let f = self.regs.f;
        proof {
            lemma_byte(a);
        }
        match i {
            Instr::Rrca => {
                self.regs.a = (a >> 1) | (a << 7);
                self.regs.f = set_flags4(f, false, false, false, a & 1 == 1);
            },
            Instr::Rra => {
                self.regs.a = if read_flag(f, FLAG_C) {
                    (a >> 1) | 0x80
                } else {
                    a >> 1
                };
                self.regs.f = set_flags4(f, false, false, false, a & 1 == 1);
            },
            Instr::Rlca => {
                self.regs.a = (a << 1) | (a >> 7);
                self.regs.f = set_flags4(f, false, false, false, a >> 7 == 1);
            },
            _ => {
                self.regs.a = if read_flag(f, FLAG_C) {
                    (a << 1) | 1
                } else {
                    a << 1
                };
                self.regs.f = set_flags4(f, false, false, false, a >> 7 == 1);
            },
        }
        self.advance(1);
    }

    fn run_jr(&mut self, mem: &mut Vec<u8>)
        requires
            old(mem)@.len() == MEM_SIZE,
            !beyond(old(self).machine(old(mem)@), 1),
            !jr_faults(old(self).machine(old(mem)@), old(self).machine(old(mem)@).operand(1)),
        ensures
            final(self).machine(final(mem)@) == jr_spec(old(self).machine(old(mem)@), true),
            final(mem)@.len() == MEM_SIZE,
    {
        let off = self.operand(mem, 1);
        self.regs.pc = relative_target(self.regs.pc, off);
    }

    fn run_jr_cond(&mut self, mem: &mut Vec<u8>, cc: u8)
        requires
            old(mem)@.len() == MEM_SIZE,
            !beyond(old(self).machine(old(mem)@), 1),
            cond(old(self).machine(old(mem)@).regs.f, cc) ==> !jr_faults(old(self).machine(old(mem)@), old(self).machine(old(mem)@).operand(1)),
            !cond(old(self).machine(old(mem)@).regs.f, cc) ==> !beyond(old(self).machine(old(mem)@), 2),
        ensures
            final(self).machine(final(mem)@) == jr_spec(old(self).machine(old(mem)@), cond(old(self).machine(old(mem)@).regs.f, cc)),
            final(mem)@.len() == MEM_SIZE,
    {
        let off = self.operand(mem, 1);
        if test_cond(self.regs.f, cc) {
            self.regs.pc = relative_target(self.regs.pc, off);
        } else {
            self.advance(2);
        }
    }

    #[verifier::rlimit(30)]
    fn run_store_a(&mut self, mem: &mut Vec<u8>, k: u8)
        requires
            old(mem)@.len() == MEM_SIZE,
            !beyond(old(self).machine(old(mem)@), 1),
        ensures
            final(self).machine(final(mem)@) == store_a_spec(old(self).machine(old(mem)@), k),
            final(mem)@.len() == MEM_SIZE,
    {
        let a = self.regs.a;
        if k == 0 {
            let addr = join(self.regs.b, self.regs.c);
            mem[addr as usize] = a;
        } else if k == 1 {
            let addr = join(self.regs.d, self.regs.e);
            mem[addr as usize] = a;
        } else {
            let hl = self.hl();
            mem[hl as usize] = a;
            let next = if k == 2 {
                hl.wrapping_add(1)
            } else {
                hl.wrapping_add(0xFFFF)
            };
            self.write_pair(2, next);
        }
        self.advance(1);
    }

    #[verifier::rlimit(30)]
    fn run_load_a(&mut self, mem: &mut Vec<u8>, k: u8)
        requires
            old(mem)@.len() == MEM_SIZE,
            !beyond(old(self).machine(old(mem)@), 1),
        ensures
            final(self).machine(final(mem)@) == load_a_spec(old(self).machine(old(mem)@), k),
            final(mem)@.len() == MEM_SIZE,
    {
        let ghost m = self.machine(mem@);
        if k == 0 {
            let addr = join(self.regs.b, self.regs.c);
            self.regs.a = mem[addr as usize];
        } else if k == 1 {
            let addr = join(self.regs.d, self.regs.e);
            self.regs.a = mem[addr as usize];
        } else {
            let hl = self.hl();
            let v = mem[hl as usize];
            let next = if k == 2 {
                hl.wrapping_add(1)
            } else {
                hl.wrapping_add(0xFE)
            };
            assert(next == (if k == 2 { (m.hl() + 1) % 65536 } else { (m.hl() + 254) % 65536 }));
            self.regs.a = v;
            self.write_pair(2, next);
        }
        self.advance(1);
    }

    fn run_add_hl(&mut self, mem: &mut Vec<u8>, k: u8)
        requires
            old(mem)@.len() == MEM_SIZE,
            !beyond(old(self).machine(old(mem)@), 1),
        ensures
            final(self).machine(final(mem)@) == add_hl_spec(old(self).machine(old(mem)@), k),
            final(mem)@.len() == MEM_SIZE,
    {
        let hl = self.hl();
        let v = self.read_pair(k);
        let (res, f) = add16(hl, v, self.regs.f);
        self.write_pair(2, res);
        self.regs.f = f;
        self.advance(1);
    }

    fn run_load8(&mut self, mem: &mut Vec<u8>, dst: u8, src: u8)
        requires
            old(mem)@.len() == MEM_SIZE,
            !beyond(old(self).machine(old(mem)@), 1),
        ensures
            final(self).machine(final(mem)@) == load8_spec(old(self).machine(old(mem)@), dst, src),
            final(mem)@.len() == MEM_SIZE,
    {
        let v = self.read_r8(mem, src);
        self.write_r8(mem, dst, v);
        self.advance(1);
    }

    fn run_alu(&mut self, mem: &mut Vec<u8>, op: AluOp, idx: u8)
        requires
            old(mem)@.len() == MEM_SIZE,
            !beyond(old(self).machine(old(mem)@), 1),
        ensures
            final(self).machine(final(mem)@) == alu_instr_spec(old(self).machine(old(mem)@), op, old(self).machine(old(mem)@).r8(idx), 1),
            final(mem)@.len() == MEM_SIZE,
    {
        let v = self.read_r8(mem, idx);
        let (a2, f2) = alu(op, self.regs.a, self.regs.f, v);
        self.regs.a = a2;
        self.regs.f = f2;
        self.advance(1);
    }

    #[verifier::rlimit(30)]
    fn run_pop(&mut self, mem: &mut Vec<u8>, k: u8)
        requires
            old(mem)@.len() == MEM_SIZE,
            old(self).machine(old(mem)@).can_pop(),
            !beyond(old(self).machine(old(mem)@), 1),
        ensures
            final(self).machine(final(mem)@) == pop_spec(old(self).machine(old(mem)@), k),
            final(mem)@.len() == MEM_SIZE,
    {
        let w = self.pop_word();
        if k == 3 {
            self.regs.a = high_of(w);
            self.regs.f = low_of(w);
        } else {
            self.write_pair(k, w);
        }
        self.advance(1);
    }

    #[verifier::rlimit(30)]
    fn run_call_cond(&mut self, mem: &mut Vec<u8>, cc: u8)
        requires
            old(mem)@.len() == MEM_SIZE,
            !beyond(old(self).machine(old(mem)@), 2),
            cond(old(self).machine(old(mem)@).regs.f, cc) ==> old(self).machine(old(mem)@).regs.sp >= 2,
            !cond(old(self).machine(old(mem)@).regs.f, cc) ==> !beyond(old(self).machine(old(mem)@), 3),
        ensures
            final(self).machine(final(mem)@) == call_cond_spec(old(self).machine(old(mem)@), cc),
            final(mem)@.len() == MEM_SIZE,
    {
        let target = self.operand_word(mem);
        if test_cond(self.regs.f, cc) {
            let ret = self.regs.pc + 1;
            self.push_word(high_of(ret), low_of(ret));
            self.regs.pc = target;
        } else {
            self.advance(3);
        }
    }

    fn run_jp_cond(&mut self, mem: &mut Vec<u8>, taken: bool)
        requires
            old(mem)@.len() == MEM_SIZE,
            !beyond(old(self).machine(old(mem)@), 2),
            !taken ==> !beyond(old(self).machine(old(mem)@), 3),
        ensures
            final(self).machine(final(mem)@) == jp_spec(old(self).machine(old(mem)@), taken),
            final(mem)@.len() == MEM_SIZE,
    {
        let target = self.operand_word(mem);
        if taken {
            self.regs.pc = target;
        } else {
            self.advance(3);
        }
    }

    #[verifier::rlimit(30)]
    fn run_load_high(&mut self, mem: &mut Vec<u8>, to_a: bool, via_c: bool)
        requires
            old(mem)@.len() == MEM_SIZE,
            !beyond(old(self).machine(old(mem)@), if via_c { 1 } else { 2 }),
        ensures
            final(self).machine(final(mem)@) == load_high_spec(old(self).machine(old(mem)@), to_a, via_c),
            final(mem)@.len() == MEM_SIZE,
    {
        let off = if via_c {
            self.regs.c
        } else {
            self.operand(mem, 1)
        };
        let addr = 0xFF00u16 + off as u16;
        if to_a {
            self.regs.a = mem[addr as usize];
        } else {
            mem[addr as usize] = self.regs.a;
        }
        if via_c {
            self.advance(1);
        } else {
            self.advance(2);
        }
    }

    fn run_load_abs(&mut self, mem: &mut Vec<u8>, to_a: bool)
        requires
            old(mem)@.len() == MEM_SIZE,
            !beyond(old(self).machine(old(mem)@), 3),
        ensures
            final(self).machine(final(mem)@) == load_abs_spec(old(self).machine(old(mem)@), to_a),
            final(mem)@.len() == MEM_SIZE,
    {
        let addr = self.operand_word(mem);
        if to_a {
            self.regs.a = mem[addr as usize];
        } else {
            mem[addr as usize] = self.regs.a;
        }
        self.advance(3);
    }

    #[verifier::rlimit(30)]
    fn run_return(&mut self, mem: &mut Vec<u8>, i: Instr)
        requires
            old(mem)@.len() == MEM_SIZE,
            i is RetIfNotZero || i is Ret || i is Reti,
            i is RetIfNotZero && flag(old(self).machine(old(mem)@).regs.f, FLAG_Z) ==> !beyond(old(self).machine(old(mem)@), 1),
            !(i is RetIfNotZero && flag(old(self).machine(old(mem)@).regs.f, FLAG_Z)) ==> old(self).machine(old(mem)@).can_pop(),
        ensures
            final(self).machine(final(mem)@) == return_spec(old(self).machine(old(mem)@), i),
            final(mem)@.len() == MEM_SIZE,
    {
        let conditional = match i {
            Instr::RetIfNotZero => true,
            _ => false,
        };
        if conditional && read_flag(self.regs.f, FLAG_Z) {
            self.advance(1);
        } else {
            let w = self.pop_word();
            self.regs.pc = w;
            if let Instr::Reti = i {
                self.regs.ime = true;
            }
        }
    }

    fn run_push(&mut self, mem: &mut Vec<u8>, k: u8)
        requires
            old(mem)@.len() == MEM_SIZE,
            old(self).machine(old(mem)@).regs.sp >= 2,
            !beyond(old(self).machine(old(mem)@), 1),
        ensures
            final(self).machine(final(mem)@) == push_spec(old(self).machine(old(mem)@), k),
            final(mem)@.len() == MEM_SIZE,
    {
        if k == 3 {
            let a = self.regs.a;
            let f = self.regs.f;
            self.push_word(a, f);
        } else {
            let v = self.read_pair(k);
            self.push_word(high_of(v), low_of(v));
        }
        self.advance(1);
    }

    fn run_rst(&mut self, mem: &mut Vec<u8>, n: u8)
        requires
            old(mem)@.len() == MEM_SIZE,
            !beyond(old(self).machine(old(mem)@), 1),
            old(self).machine(old(mem)@).regs.sp >= 2,
        ensures
            final(self).machine(final(mem)@) == rst_spec(old(self).machine(old(mem)@), n),
            final(mem)@.len() == MEM_SIZE,
    {
        let ret = self.regs.pc + 1;
        self.push_word(high_of(ret), low_of(ret));
        self.regs.pc = 8 * (n as u16);
    }

    fn run_alu_stack(&mut self, mem: &mut Vec<u8>, op: AluOp)
        requires
            old(mem)@.len() == MEM_SIZE,
            old(self).machine(old(mem)@).regs.sp < 0xFFFF,
            !beyond(old(self).machine(old(mem)@), 2),
        ensures
            final(self).machine(final(mem)@) == alu_instr_spec(old(self).machine(old(mem)@), op, old(self).machine(old(mem)@).mem[old(self).machine(old(mem)@).regs.sp + 1], 2),
            final(mem)@.len() == MEM_SIZE,
    {
        let v = mem[(self.regs.sp + 1) as usize];
        let (a2, f2) = alu(op, self.regs.a, self.regs.f, v);
        self.regs.a = a2;
        self.regs.f = f2;
        self.advance(2);
    }

    fn run_or_stack(&mut self, mem: &mut Vec<u8>)
        requires
            old(mem)@.len() == MEM_SIZE,
            old(self).machine(old(mem)@).regs.sp < 0xFFFF,
            !beyond(old(self).machine(old(mem)@), 2),
        ensures
            final(self).machine(final(mem)@) == or_stack_spec(old(self).machine(old(mem)@)),
            final(mem)@.len() == MEM_SIZE,
    {
        let v = mem[(self.regs.sp + 1) as usize];
        let res = self.regs.a | v;
        self.regs.a = res;
        self.regs.f = set_flags4(self.regs.f, res == 0, false, false, false);
        self.advance(2);
    }

    #[verifier::rlimit(30)]
    fn run_adc_imm(&mut self, mem: &mut Vec<u8>)
        requires
            old(mem)@.len() == MEM_SIZE,
            !beyond(old(self).machine(old(mem)@), 2),
        ensures
            final(self).machine(final(mem)@) == adc_imm_spec(old(self).machine(old(mem)@)),
            final(mem)@.len() == MEM_SIZE,
    {
        let a = self.regs.a;
        let v = self.operand(mem, 1);
        let first = a.wrapping_add(v);
        let carried = (a as u16) + (v as u16) > 255;
        let mut f = put_flag(self.regs.f, FLAG_C, carried);
        proof {
            lemma_put_flag(self.regs.f, FLAG_C, FLAG_C);
        }
        let c = carry_of(f);
        assert(c == (if carried { 1u8 } else { 0u8 }));
        let res = first.wrapping_add(c);
        assert((first as u16) + (c as u16) <= 255);
        if (first as u16) + (c as u16) > 255 {
            f = put_flag(f, FLAG_C, true);
        }
        if res == 0 {
            f = put_flag(f, FLAG_Z, true);
        }
        f = put_flag(f, FLAG_N, false);
        if high_nibble_differs(a, res) {
            f = put_flag(f, FLAG_H, true);
        }
        self.regs.a = res;
        self.regs.f = f;
        self.advance(2);
    }

    fn run_cp_imm(&mut self, mem: &mut Vec<u8>)
        requires
            old(mem)@.len() == MEM_SIZE,
            !beyond(old(self).machine(old(mem)@), 2),
        ensures
            final(self).machine(final(mem)@) == alu_instr_spec(old(self).machine(old(mem)@), AluOp::Cp, old(self).machine(old(mem)@).operand(1), 2),
            final(mem)@.len() == MEM_SIZE,
    {
        let v = self.operand(mem, 1);
        let (a2, f2) = alu(AluOp::Cp, self.regs.a, self.regs.f, v);
        self.regs.a = a2;
        self.regs.f = f2;
        self.advance(2);
    }
}

impl Cpu {
    /// Executes the instruction at the program counter, moving the program
    /// counter past it unless the instruction set it; returns why the
    /// processor stopped if the instruction stops it (the state is then unchanged).
    #[verifier::rlimit(30)]
    pub fn execute(&mut self, mem: &mut Vec<u8>) -> (r: Option<Stop>)
        requires
            old(mem)@.len() == MEM_SIZE,
            !execute_faults(old(self).machine(old(mem)@)),
        ensures
            final(self).machine(final(mem)@) == execute_spec(old(self).machine(old(mem)@)).0,
            r == execute_spec(old(self).machine(old(mem)@)).1,
            final(mem)@.len() == MEM_SIZE,
    {
        let op = mem[self.regs.pc as usize];
        let i = decode(op);
        match i {
            Instr::Nop => {
                self.advance(1);
                None
            },
            Instr::Prefix => self.run_prefix(mem),
            Instr::Call => {
                self.run_call(mem);
                None
            },
            Instr::LoadPairImm(k) => {
                self.run_load_pair_imm(mem, k);
                None
            },
            Instr::IncPair(k) => {
                self.run_inc_pair(mem, k);
                None
            },
            Instr::DecPair(k) => {
                self.run_dec_pair(mem, k);
                None
            },
            Instr::Inc8(idx) => {
                self.run_inc8(mem, idx);
                None
            },
            Instr::Dec8(idx) => {
                self.run_dec8(mem, idx);
                None
            },
            Instr::LoadImm8(idx) => {
                self.run_load_imm8(mem, idx);
                None
            },
            Instr::Rrca | Instr::Rra | Instr::Rlca | Instr::Rla => {
                self.run_rotate_a(mem, i);
                None
            },
            Instr::Jr => {
                self.run_jr(mem);
                None
            },
            Instr::StoreA(k) => {
                self.run_store_a(mem, k);
                None
            },
            Instr::LoadA(k) => {
                self.run_load_a(mem, k);
                None
            },
            Instr::Jp => {
                self.run_jp_cond(mem, true);
                None
            },
            Instr::JrCond(cc) => {
                self.run_jr_cond(mem, cc);
                None
            },
            Instr::AddHl(k) => {
                self.run_add_hl(mem, k);
                None
            },
            Instr::Halt => Some(Stop::Halt),
            Instr::Load8(dst, src) => {
                self.run_load8(mem, dst, src);
                None
            },
            Instr::Alu(op, idx) => {
                self.run_alu(mem, op, idx);
                None
            },
            Instr::Pop(k) => {
                self.run_pop(mem, k);
                None
            },
            Instr::CallCond(cc) => {
                self.run_call_cond(mem, cc);
                None
            },
            Instr::JpCond(cc) => {
                let taken = test_cond(self.regs.f, cc);
                self.run_jp_cond(mem, taken);
                None
            },
            Instr::LoadHigh(to_a, via_c) => {
                self.run_load_high(mem, to_a, via_c);
                None
            },
            Instr::LoadAbs(to_a) => {
                self.run_load_abs(mem, to_a);
                None
            },
            Instr::LoadSpHl => {
                let hl = self.hl();
                self.write_pair(3, hl);
                self.advance(1);
                None
            },
            Instr::Ei => {
                self.regs.delay_ime = true;
                self.advance(1);
                None
            },
            Instr::RetIfNotZero | Instr::Ret | Instr::Reti => {
                self.run_return(mem, i);
                None
            },
            Instr::Push(k) => {
                self.run_push(mem, k);
                None
            },
            Instr::Rst(n) => {
                self.run_rst(mem, n);
                None
            },
            Instr::Undefined => Some(Stop::UndefinedOpcode),
            Instr::AluStack(op) => {
                self.run_alu_stack(mem, op);
                None
            },
            Instr::OrStack => {
                self.run_or_stack(mem);
                None
            },
            Instr::JpHl => {
                self.regs.pc = self.hl();
                None
            },
            Instr::Unimplemented => Some(Stop::Unimplemented),
            Instr::AdcImm => {
                self.run_adc_imm(mem);
                None
            },
            Instr::CpImm => {
                self.run_cp_imm(mem);
                None
            },
        }
    }
}

/// `hl + v` modulo 2^16 and the flags that `ADD HL,rr` leaves: N cleared,
/// H when bits 4..7 of the result differ from those of `hl`, C on a carry out.
fn add16(hl: u16, v: u16, f: u8) -> (r: (u16, u8))
    ensures
        r.0 == (hl + v) % 65536,
        r.1 == flags_nhc(f, false, (r.0 % 256) / 16 != (hl % 256) / 16, hl + v > 0xFFFF),
{
    let res = hl.wrapping_add(v);
    let carried = (hl as u32) + (v as u32) > 0xFFFF;
    proof {
        lemma_word(res);
        lemma_word(hl);
    }
    let half = (res & 0xF0) != (hl & 0xF0);
    (res, set_flags_nhc(f, false, half, carried))
}

/// Increments the register pair whose bytes are `hi` and `lo`: the low byte
/// wraps and carries into the high byte.
pub fn increment(hi: u8, lo: u8) -> (r: (u8, u8))
    ensures
        crate::bits::word(r.0, r.1) == (crate::bits::word(hi, lo) + 1) % 65536,
        r.0 == high(((crate::bits::word(hi, lo) + 1) % 65536) as u16),
        r.1 == low(((crate::bits::word(hi, lo) + 1) % 65536) as u16),
{
    let lo2 = lo.wrapping_add(1);
    let hi2 = if lo == 255 {
        hi.wrapping_add(1)
    } else {
        hi
    };
    (hi2, lo2)
}

/// Decrements the register pair whose bytes are `hi` and `lo`: the low byte
/// wraps and borrows from the high byte.
pub fn decrement(hi: u8, lo: u8) -> (r: (u8, u8))
    ensures
        crate::bits::word(r.0, r.1) == (crate::bits::word(hi, lo) + 65535) % 65536,
        r.0 == high(((crate::bits::word(hi, lo) + 65535) % 65536) as u16),
        r.1 == low(((crate::bits::word(hi, lo) + 65535) % 65536) as u16),
{
    let lo2 = lo.wrapping_add(0xFF);
    let hi2 = if lo2 >= lo {
        hi.wrapping_add(0xFF)
    } else {
        hi
    };
    (hi2, lo2)
}

/// The target of a relative jump with offset byte `off` from `pc`: the
/// offset is a signed byte counted from the end of the two-byte instruction.
fn relative_target(pc: u16, off: u8) -> (r: u16)
    requires
        off >= 128 ==> pc >= 256 - off && pc - (256 - off) + 2 <= 0xFFFF,
        off < 128 ==> pc + off + 2 <= 0xFFFF,
    ensures
        r == (if off >= 128 {
            pc - (256 - off) + 2
        } else {
            pc + off + 2
        }),
{
    proof {
        lemma_byte(off);
    }
    let mut pc = pc;
    if off >> 7 == 1 {
        let back = (off ^ 0xFF).wrapping_add(1) as u16;
        pc = pc - back;
    } else {
        pc = pc + off as u16;
    }
    pc = pc + 1;
    pc + 1
}

} // verus!
