//! What each instruction does to the machine, and on which machines the
//! processor cannot execute it (a program counter or stack pointer that would
//! leave its 16-bit range, or a pop from an empty call stack).
use vstd::prelude::*;
use crate::bits::{carry_bit, flag, put, high, low, word, FLAG_C, FLAG_H, FLAG_N, FLAG_Z};
use crate::cpu::{Machine, Regs, Stop};
use crate::decode::{AluOp, Instr, decode_spec};

verus! {

/// The flag register `f` with Z, N, H and C set to the given values.
pub open spec fn flags4(f: u8, z: bool, n: bool, h: bool, c: bool) -> u8 {
    put(put(put(put(f, FLAG_Z, z), FLAG_N, n), FLAG_H, h), FLAG_C, c)
}

/// The flag register `f` with Z, N and H set to the given values (C kept).
pub open spec fn flags_znh(f: u8, z: bool, n: bool, h: bool) -> u8 {
    put(put(put(f, FLAG_Z, z), FLAG_N, n), FLAG_H, h)
}

/// The flag register `f` with N, H and C set to the given values (Z kept).
pub open spec fn flags_nhc(f: u8, n: bool, h: bool, c: bool) -> u8 {
    put(put(put(f, FLAG_N, n), FLAG_H, h), FLAG_C, c)
}

/// Whether condition `cc` (NZ, Z, NC, C) holds for the flags `f`.
pub open spec fn cond(f: u8, cc: u8) -> bool {
    if cc == 0 {
        !flag(f, FLAG_Z)
    } else if cc == 1 {
        flag(f, FLAG_Z)
    } else if cc == 2 {
        !flag(f, FLAG_C)
    } else {
        flag(f, FLAG_C)
    }
}

/// The new accumulator and flags after the arithmetic or logic operation `op`
/// on the accumulator `a`, the flags `f` and the operand `v`.
///
/// The half-carry flag records whether the high nibble of the accumulator
/// changed (for `CP`: stayed the same); the carry flag of a subtraction records
/// whether the result is at least the old accumulator; `XOR` and `OR` keep the flags.
pub open spec fn alu_spec(op: AluOp, a: u8, f: u8, v: u8) -> (u8, u8) {
    match op {
        AluOp::Add => {
            let r = ((a + v) % 256) as u8;
            (r, flags4(f, r == 0, false, r / 16 != a / 16, a + v > 255))
        },
        AluOp::Adc => {
            let w = (v + carry_bit(f)) % 256;
            let r = ((a + w) % 256) as u8;
            (r, flags4(f, r == 0, false, r / 16 != a / 16, a + w > 255))
        },
        AluOp::Sub => {
            let r = ((a - v + 256) % 256) as u8;
            (r, flags4(f, r == 0, true, r / 16 != a / 16, r >= a))
        },
        AluOp::Sbc => {
            let r = ((a - v - carry_bit(f) + 512) % 256) as u8;
            (r, flags4(f, r == 0, true, r / 16 != a / 16, r >= a))
        },
        AluOp::And => {
            let r = a & v;
            (r, flags4(f, r == 0, false, true, false))
        },
        AluOp::Xor => (a ^ v, f),
        AluOp::Or => (a | v, f),
        AluOp::Cp => {
            let r = ((a - v + 256) % 256) as u8;
            (a, flags4(f, r == 0, true, r / 16 == a / 16, r >= a))
        },
    }
}

/// Where a relative jump with offset byte `off` lands: the offset is read as a
/// signed byte and counted from the end of the two-byte instruction.
pub open spec fn jr_target(m: Machine, off: u8) -> int {
    if off >= 128 {
        m.regs.pc - (256 - off) + 2
    } else {
        m.regs.pc + off + 2
    }
}

/// Whether a relative jump with offset byte `off` moves the program counter
/// out of its range on the way.
pub open spec fn jr_faults(m: Machine, off: u8) -> bool {
    if off >= 128 {
        m.regs.pc < 256 - off || jr_target(m, off) > 0xFFFF
    } else {
        jr_target(m, off) > 0xFFFF
    }
}

/// Whether moving the program counter forward by `n` leaves its range.
pub open spec fn beyond(m: Machine, n: int) -> bool {
    m.regs.pc + n > 0xFFFF
}

/// The new value of the register and the new flags after the rotate, shift
/// or swap `p` (a `0xCB`-prefixed opcode below `0x40` other than `SRL`) on
/// the value `v` with the flags `f`. `RLC` and `RRC` leave the carry flag clear.
pub open spec fn shift_spec(p: u8, v: u8, f: u8) -> (u8, u8) {
    if p < 0x08 {
        let r = ((v * 2) % 256 + v / 128) as u8;
        (r, flags4(f, r == 0, false, false, false))
    } else if p < 0x10 {
        let r = (v / 2 + (v % 2) * 128) as u8;
        (r, flags4(f, r == 0, false, false, false))
    } else if p < 0x18 {
        (((v * 2) % 256 + carry_bit(f)) as u8, flags4(f, false, false, false, v >= 128))
    } else if p < 0x20 {
        ((v / 2 + carry_bit(f) * 128) as u8, flags4(f, false, false, false, v % 2 == 1))
    } else if p < 0x28 {
        (((v * 2) % 256) as u8, flags4(f, false, false, false, v >= 128))
    } else if p < 0x30 {
        (v / 2, flags4(f, false, false, false, v % 2 == 1))
    } else {
        let r = (v / 16 + (v % 16) * 16) as u8;
        (r, flags4(f, r == 0, false, false, false))
    }
}

/// The effect of a `0xCB`-prefixed operation `p` (below `0xC0`) on the
/// machine, before the program counter moves: rotates, shifts and swaps below
/// `0x38`, `SRL` (which shifts the accumulator whatever register it names),
/// `BIT`, and the `RES` group, which clears bit 0 of its register whatever
/// bit the opcode names.
pub open spec fn prefix_spec(m: Machine, p: u8) -> Machine {
    let idx = p % 8;
    let v = m.r8(idx);
    let f = m.regs.f;
    if 0x40 <= p < 0x80 {
        let bit = (v >> ((p / 8) % 8)) & 1;
        m.set_f(flags_znh(f, bit == 0, false, true))
    } else if 0x38 <= p < 0x40 {
        let a = m.regs.a;
        let r = a / 2;
        m.set_a(r).set_f(flags4(f, r == 0, false, false, a % 2 == 1))
    } else if p < 0x38 {
        let (r, f2) = shift_spec(p, v, f);
        m.set_r8(idx, r).set_f(f2)
    } else {
        m.set_r8(idx, (v - v % 2) as u8)
    }
}

/// The `0xCB` prefix: the operation named by the next byte, or a stop when
/// that byte is `0xC0` or above (the `SET` group is not implemented).
pub open spec fn prefix_instr_spec(m: Machine) -> (Machine, Option<Stop>) {
    let p = m.operand(1);
    if p >= 0xC0 {
        (m, Some(Stop::UnknownPrefix(p)))
    } else {
        (prefix_spec(m, p).advance(2), None)
    }
}

/// The flags after `ADC A,n` with the sum `a + v`: the carry of the first
/// addition is added back in, Z and H are only ever raised, N is lowered.
pub open spec fn adc_imm_flags(f: u8, a: u8, r: u8, carried: bool) -> u8 {
    let f1 = put(f, FLAG_C, carried);
    let f2 = if r == 0 {
        put(f1, FLAG_Z, true)
    } else {
        f1
    };
    let f3 = put(f2, FLAG_N, false);
    if a / 16 != r / 16 {
        put(f3, FLAG_H, true)
    } else {
        f3
    }
}

/// `CALL nn`: pushes the address after the instruction and jumps.
pub open spec fn call_spec(m: Machine) -> Machine {
    let ret = (m.regs.pc + 3) as u16;
    m.push_word(high(ret), low(ret)).jump(word(m.operand(2), m.operand(1)) as int)
}

/// `LD rr,nn`.
pub open spec fn load_pair_imm_spec(m: Machine, k: u8) -> Machine {
    m.set_pair(k, word(m.operand(2), m.operand(1))).advance(3)
}

/// `INC rr`: adds one modulo 2^16.
pub open spec fn inc_pair_spec(m: Machine, k: u8) -> Machine {
    m.set_pair(k, ((m.pair(k) + 1) % 65536) as u16).advance(1)
}

/// `DEC rr`: subtracts one modulo 2^16.
pub open spec fn dec_pair_spec(m: Machine, k: u8) -> Machine {
    m.set_pair(k, ((m.pair(k) + 65535) % 65536) as u16).advance(1)
}

/// `INC r`: the carry flag records a wrap from 255, the half-carry flag a
/// result of 0x10.
pub open spec fn inc8_spec(m: Machine, idx: u8) -> Machine {
    let v = m.r8(idx);
    let res = ((v + 1) % 256) as u8;
    m.set_r8(idx, res).set_f(flags4(m.regs.f, res == 0, false, res == 16, v == 255)).advance(1)
}

/// `DEC r`: the carry flag records a result of 0xFF, the half-carry flag a
/// result of 0xF0.
pub open spec fn dec8_spec(m: Machine, idx: u8) -> Machine {
    let v = m.r8(idx);
    let res = ((v + 255) % 256) as u8;
    m.set_r8(idx, res).set_f(flags4(m.regs.f, res == 0, true, res == 0xF0, res == 0xFF)).advance(1)
}

/// `LD r,n`.
pub open spec fn load_imm8_spec(m: Machine, idx: u8) -> Machine {
    m.set_r8(idx, m.operand(1)).advance(2)
}

/// `RRCA`, `RRA`, `RLCA` and `RLA` (`i` names which): rotations of the
/// accumulator that clear Z, N and H.
pub open spec fn rotate_a_spec(m: Machine, i: Instr) -> Machine {
    let a = m.regs.a;
    let f = m.regs.f;
    let (r, c) = match i {
        Instr::Rrca => ((a / 2 + (a % 2) * 128) as u8, a % 2 == 1),
        Instr::Rra => ((a / 2 + carry_bit(f) * 128) as u8, a % 2 == 1),
        Instr::Rlca => (((a * 2) % 256 + a / 128) as u8, a >= 128),
        _ => (((a * 2) % 256 + carry_bit(f)) as u8, a >= 128),
    };
    m.set_a(r).set_f(flags4(f, false, false, false, c)).advance(1)
}

/// `JR cc,e` (`JR e` when `taken` holds whatever the flags).
pub open spec fn jr_spec(m: Machine, taken: bool) -> Machine {
    if taken {
        m.jump(jr_target(m, m.operand(1)))
    } else {
        m.advance(2)
    }
}

/// `LD (rr),A` through BC, DE, HL with increment, HL with decrement.
pub open spec fn store_a_spec(m: Machine, k: u8) -> Machine {
    let a = m.regs.a;
    let m2 = if k == 0 {
        m.store(m.bc() as int, a)
    } else if k == 1 {
        m.store(m.de() as int, a)
    } else if k == 2 {
        m.store(m.hl() as int, a).set_pair(2, ((m.hl() + 1) % 65536) as u16)
    } else {
        m.store(m.hl() as int, a).set_pair(2, ((m.hl() + 65535) % 65536) as u16)
    };
    m2.advance(1)
}

/// `LD A,(rr)` through BC, DE, HL with increment, and HL moved on by 254
/// (the fourth form).
pub open spec fn load_a_spec(m: Machine, k: u8) -> Machine {
    let m2 = if k == 0 {
        m.set_a(m.mem[m.bc() as int])
    } else if k == 1 {
        m.set_a(m.mem[m.de() as int])
    } else if k == 2 {
        m.set_a(m.mem[m.hl() as int]).set_pair(2, ((m.hl() + 1) % 65536) as u16)
    } else {
        m.set_a(m.mem[m.hl() as int]).set_pair(2, ((m.hl() + 254) % 65536) as u16)
    };
    m2.advance(1)
}

/// `JP cc,nn` (`JP nn` when `taken` holds whatever the flags).
pub open spec fn jp_spec(m: Machine, taken: bool) -> Machine {
    if taken {
        m.jump(word(m.operand(2), m.operand(1)) as int)
    } else {
        m.advance(3)
    }
}

/// `ADD HL,rr`: the half-carry flag records whether bits 4..7 of the result
/// differ from those of HL.
pub open spec fn add_hl_spec(m: Machine, k: u8) -> Machine {
    let hl = m.hl();
    let s = hl + m.pair(k);
    let res = (s % 65536) as u16;
    m.set_pair(2, res).set_f(
        flags_nhc(m.regs.f, false, (res % 256) / 16 != (hl % 256) / 16, s > 0xFFFF),
    ).advance(1)
}

/// `LD r,r'`.
pub open spec fn load8_spec(m: Machine, dst: u8, src: u8) -> Machine {
    m.set_r8(dst, m.r8(src)).advance(1)
}

/// An arithmetic or logic operation with the operand `v`, for an instruction of `len` bytes.
pub open spec fn alu_instr_spec(m: Machine, op: AluOp, v: u8, len: int) -> Machine {
    let (a2, f2) = alu_spec(op, m.regs.a, m.regs.f, v);
    m.set_a(a2).set_f(f2).advance(len)
}

/// `POP rr`: the top byte goes to the low register (C, E, L or F).
pub open spec fn pop_spec(m: Machine, k: u8) -> Machine {
    let w = m.popped();
    let m2 = m.drop_word();
    let m3 = if k == 3 {
        m2.set_a(high(w)).set_f(low(w))
    } else {
        m2.set_pair(k, w)
    };
    m3.advance(1)
}

/// `CALL cc,nn`: when taken, pushes the address just after the opcode.
pub open spec fn call_cond_spec(m: Machine, cc: u8) -> Machine {
    if cond(m.regs.f, cc) {
        let ret = (m.regs.pc + 1) as u16;
        m.push_word(high(ret), low(ret)).jump(word(m.operand(2), m.operand(1)) as int)
    } else {
        m.advance(3)
    }
}

/// `LDH`: reads into A (`to_a`) or writes A at `0xFF00` plus C (`via_c`) or
/// plus the immediate byte.
pub open spec fn load_high_spec(m: Machine, to_a: bool, via_c: bool) -> Machine {
    let addr = 0xFF00 + (if via_c {
        m.regs.c
    } else {
        m.operand(1)
    });
    let m2 = if to_a {
        m.set_a(m.mem[addr])
    } else {
        m.store(addr, m.regs.a)
    };
    m2.advance(if via_c { 1 } else { 2 })
}

/// `LD A,(nn)` (`to_a`) or `LD (nn),A`.
pub open spec fn load_abs_spec(m: Machine, to_a: bool) -> Machine {
    let addr = word(m.operand(2), m.operand(1)) as int;
    let m2 = if to_a {
        m.set_a(m.mem[addr])
    } else {
        m.store(addr, m.regs.a)
    };
    m2.advance(3)
}

/// `EI`: interrupts become enabled once the next instruction is done.
pub open spec fn ei_spec(m: Machine) -> Machine {
    Machine { regs: Regs { delay_ime: true, ..m.regs }, ..m }.advance(1)
}

/// `RET cc` (returning when Z is clear), `RET` and `RETI` (`i` names which).
pub open spec fn return_spec(m: Machine, i: Instr) -> Machine {
    if i is RetIfNotZero && flag(m.regs.f, FLAG_Z) {
        m.advance(1)
    } else {
        let m2 = m.drop_word().jump(m.popped() as int);
        if i is Reti {
            Machine { regs: Regs { ime: true, ..m2.regs }, ..m2 }
        } else {
            m2
        }
    }
}

/// `PUSH rr`: the high register (B, D, H or A) goes first.
pub open spec fn push_spec(m: Machine, k: u8) -> Machine {
    let hi = if k == 3 {
        m.regs.a
    } else {
        high(m.pair(k))
    };
    let lo = if k == 3 {
        m.regs.f
    } else {
        low(m.pair(k))
    };
    m.push_word(hi, lo).advance(1)
}

/// `RST n`: pushes the address just after the opcode and jumps to `8 * n`.
pub open spec fn rst_spec(m: Machine, n: u8) -> Machine {
    let ret = (m.regs.pc + 1) as u16;
    m.push_word(high(ret), low(ret)).jump(8 * n)
}

/// `OR` with the byte at SP+1, setting Z and clearing N, H and C.
pub open spec fn or_stack_spec(m: Machine) -> Machine {
    let res = m.regs.a | m.mem[m.regs.sp + 1];
    m.set_a(res).set_f(flags4(m.regs.f, res == 0, false, false, false)).advance(2)
}

/// `ADC A,n`: the carry of the first addition is what gets added in.
pub open spec fn adc_imm_spec(m: Machine) -> Machine {
    let a = m.regs.a;
    let s = a + m.operand(1);
    let carried = s > 255;
    let res = ((if carried {
        s - 255
    } else {
        s
    }) % 256) as u8;
    m.set_a(res).set_f(adc_imm_flags(m.regs.f, a, res, carried)).advance(2)
}

/// The machine after executing `i`, and why the processor stopped if it did.
pub open spec fn instr_spec(m: Machine, i: Instr) -> (Machine, Option<Stop>) {
    match i {
        Instr::Nop => (m.advance(1), None),
        Instr::Prefix => prefix_instr_spec(m),
        Instr::Call => (call_spec(m), None),
        Instr::LoadPairImm(k) => (load_pair_imm_spec(m, k), None),
        Instr::IncPair(k) => (inc_pair_spec(m, k), None),
        Instr::DecPair(k) => (dec_pair_spec(m, k), None),
        Instr::Inc8(idx) => (inc8_spec(m, idx), None),
        Instr::Dec8(idx) => (dec8_spec(m, idx), None),
        Instr::LoadImm8(idx) => (load_imm8_spec(m, idx), None),
        Instr::Rrca => (rotate_a_spec(m, i), None),
        Instr::Rra => (rotate_a_spec(m, i), None),
        Instr::Rlca => (rotate_a_spec(m, i), None),
        Instr::Rla => (rotate_a_spec(m, i), None),
        Instr::Jr => (jr_spec(m, true), None),
        Instr::StoreA(k) => (store_a_spec(m, k), None),
        Instr::LoadA(k) => (load_a_spec(m, k), None),
        Instr::Jp => (jp_spec(m, true), None),
        Instr::JrCond(cc) => (jr_spec(m, cond(m.regs.f, cc)), None),
        Instr::AddHl(k) => (add_hl_spec(m, k), None),
        Instr::Halt => (m, Some(Stop::Halt)),
        Instr::Load8(dst, src) => (load8_spec(m, dst, src), None),
        Instr::Alu(op, idx) => (alu_instr_spec(m, op, m.r8(idx), 1), None),
        Instr::Pop(k) => (pop_spec(m, k), None),
        Instr::CallCond(cc) => (call_cond_spec(m, cc), None),
        Instr::JpCond(cc) => (jp_spec(m, cond(m.regs.f, cc)), None),
        Instr::LoadHigh(to_a, via_c) => (load_high_spec(m, to_a, via_c), None),
        Instr::LoadAbs(to_a) => (load_abs_spec(m, to_a), None),
        Instr::LoadSpHl => (m.set_pair(3, m.hl()).advance(1), None),
        Instr::Ei => (ei_spec(m), None),
        Instr::RetIfNotZero => (return_spec(m, i), None),
        Instr::Ret => (return_spec(m, i), None),
        Instr::Reti => (return_spec(m, i), None),
        Instr::Push(k) => (push_spec(m, k), None),
        Instr::Rst(n) => (rst_spec(m, n), None),
        Instr::Undefined => (m, Some(Stop::UndefinedOpcode)),
        Instr::AluStack(op) => (alu_instr_spec(m, op, m.mem[m.regs.sp + 1], 2), None),
        Instr::OrStack => (or_stack_spec(m), None),
        Instr::JpHl => (m.jump(m.hl() as int), None),
        Instr::Unimplemented => (m, Some(Stop::Unimplemented)),
        Instr::AdcImm => (adc_imm_spec(m), None),
        Instr::CpImm => (alu_instr_spec(m, AluOp::Cp, m.operand(1), 2), None),
    }
}

/// Whether executing `i` on `m` would move the program counter or stack
/// pointer out of its 16-bit range, or pop from a call stack of fewer than two bytes.
pub open spec fn instr_faults(m: Machine, i: Instr) -> bool {
    let r = m.regs;
    match i {
        Instr::Prefix => beyond(m, 1) || (m.operand(1) < 0xC0 && beyond(m, 2)),
        Instr::Call => beyond(m, 3) || r.sp < 2,
        Instr::LoadPairImm(_) => beyond(m, 3),
        Instr::IncPair(k) => beyond(m, 1) || (k >= 3 && r.sp == 0xFFFF),
        Instr::DecPair(k) => beyond(m, 1) || (k >= 3 && r.sp == 0),
        Instr::LoadImm8(_) => beyond(m, 2),
        Instr::Jr => beyond(m, 1) || jr_faults(m, m.operand(1)),
        Instr::Jp => beyond(m, 2),
        Instr::JrCond(cc) => beyond(m, 1) || (if cond(r.f, cc) {
            jr_faults(m, m.operand(1))
        } else {
            beyond(m, 2)
        }),
        Instr::Halt => false,
        Instr::Pop(_) => !m.can_pop() || beyond(m, 1),
        Instr::CallCond(cc) => beyond(m, 2) || (if cond(r.f, cc) {
            r.sp < 2
        } else {
            beyond(m, 3)
        }),
        Instr::JpCond(cc) => beyond(m, 2) || (!cond(r.f, cc) && beyond(m, 3)),
        Instr::LoadHigh(_, via_c) => beyond(m, if via_c { 1 } else { 2 }),
        Instr::LoadAbs(_) => beyond(m, 3),
        Instr::RetIfNotZero => if !flag(r.f, FLAG_Z) {
            !m.can_pop()
        } else {
            beyond(m, 1)
        },
        Instr::Ret => !m.can_pop(),
        Instr::Reti => !m.can_pop(),
        Instr::Push(_) => r.sp < 2 || beyond(m, 1),
        Instr::Rst(_) => beyond(m, 1) || r.sp < 2,
        Instr::Undefined => false,
        Instr::AluStack(_) => r.sp == 0xFFFF || beyond(m, 2),
        Instr::OrStack => r.sp == 0xFFFF || beyond(m, 2),
        Instr::JpHl => false,
        Instr::Unimplemented => false,
        Instr::AdcImm => beyond(m, 2),
        Instr::CpImm => beyond(m, 2),
        _ => beyond(m, 1),
    }
}

/// The opcode at the program counter.
pub open spec fn opcode(m: Machine) -> u8 {
    m.mem[m.regs.pc as int]
}

/// The machine after executing the instruction at the program counter.
pub open spec fn execute_spec(m: Machine) -> (Machine, Option<Stop>) {
    instr_spec(m, decode_spec(opcode(m)))
}

/// Whether the instruction at the program counter cannot be executed.
pub open spec fn execute_faults(m: Machine) -> bool {
    instr_faults(m, decode_spec(opcode(m)))
}

} // verus!
