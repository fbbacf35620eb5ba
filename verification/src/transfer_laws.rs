//! Where loads, stores and jumps read, write and go, stated over the bytes
//! of the instruction and the registers before it runs.
use vstd::prelude::*;
use crate::bits::{flag, FLAG_C, FLAG_Z};
use crate::cpu::{Machine, MEM_SIZE};
use crate::laws::lemma_word_bytes;
use crate::semantics::{execute_faults, execute_spec, opcode, rst_spec};

verus! {

/// The offset byte `e` of a relative jump read as a signed number.
pub open spec fn signed_offset(e: u8) -> int {
    if e >= 128 {
        e - 256
    } else {
        e as int
    }
}

/// Whether the relative or absolute jump `op` (`JR e`, `JR cc,e`, `JP nn`,
/// `JP cc,nn`) is taken under the flags `f`: NZ, Z, NC and C test the flags,
/// the unconditional forms always jump.
pub open spec fn jump_taken(op: u8, f: u8) -> bool {
    if op == 0x20 || op == 0xC2 {
        !flag(f, FLAG_Z)
    } else if op == 0x28 || op == 0xCA {
        flag(f, FLAG_Z)
    } else if op == 0x30 || op == 0xD2 {
        !flag(f, FLAG_C)
    } else if op == 0x38 || op == 0xDA {
        flag(f, FLAG_C)
    } else {
        true
    }
}

/// `JR e` (`0x18`) and `JR cc,e` (`0x20`, `0x28`, `0x30`, `0x38`): a taken
/// jump lands at the address after the two bytes plus the signed offset; one
/// not taken goes on after the two bytes. Nothing else changes.
pub proof fn lemma_relative_jump(m: Machine)
    requires
        m.mem.len() == MEM_SIZE,
        opcode(m) == 0x18 || opcode(m) == 0x20 || opcode(m) == 0x28 || opcode(m) == 0x30
            || opcode(m) == 0x38,
        !execute_faults(m),
    ensures
        ({
            let m2 = execute_spec(m).0;
            &&& execute_spec(m).1 is None
            &&& m2.regs.pc == m.regs.pc + 2 + (if jump_taken(opcode(m), m.regs.f) {
                signed_offset(m.operand(1))
            } else {
                0
            })
            &&& m2.mem == m.mem
            &&& m2.stack == m.stack
            &&& m2.regs.a == m.regs.a
            &&& m2.regs.f == m.regs.f
            &&& m2.regs.sp == m.regs.sp
        }),
{
}

/// `JP nn` (`0xC3`) and `JP cc,nn` (`0xC2`, `0xCA`, `0xD2`, `0xDA`): a taken
/// jump goes to the little-endian address in the two bytes after the opcode;
/// one not taken goes on after the three bytes.
pub proof fn lemma_absolute_jump(m: Machine)
    requires
        m.mem.len() == MEM_SIZE,
        opcode(m) == 0xC3 || opcode(m) == 0xC2 || opcode(m) == 0xCA || opcode(m) == 0xD2
            || opcode(m) == 0xDA,
        !execute_faults(m),
    ensures
        ({
            let m2 = execute_spec(m).0;
            &&& execute_spec(m).1 is None
            &&& m2.regs.pc == (if jump_taken(opcode(m), m.regs.f) {
                m.operand(1) + 256 * m.operand(2)
            } else {
                m.regs.pc + 3
            })
            &&& m2.mem == m.mem
            &&& m2.stack == m.stack
            &&& m2.regs.sp == m.regs.sp
        }),
{
}

/// `CALL nn` (`0xCD`): the address after the three bytes is pushed, high
/// byte first, the stack pointer moves down by two, and execution goes on at
/// the little-endian address in the two bytes after the opcode.
pub proof fn lemma_call_instruction(m: Machine)
    requires
        m.mem.len() == MEM_SIZE,
        opcode(m) == 0xCD,
        !execute_faults(m),
    ensures
        ({
            let m2 = execute_spec(m).0;
            let ret = m.regs.pc + 3;
            &&& execute_spec(m).1 is None
            &&& m2.regs.pc == m.operand(1) + 256 * m.operand(2)
            &&& m2.stack == m.stack.push((ret / 256) as u8).push((ret % 256) as u8)
            &&& m2.regs.sp == m.regs.sp - 2
            &&& m2.mem == m.mem
        }),
{
}

/// `LDH (n),A` (`0xE0`), `LDH A,(n)` (`0xF0`), `LD (C),A` (`0xE2`) and
/// `LD A,(C)` (`0xF2`): the byte at `0xFF00` plus the immediate byte (or plus
/// C) receives A, or A receives it; no other byte changes.
pub proof fn lemma_load_high_instruction(m: Machine)
    requires
        m.mem.len() == MEM_SIZE,
        opcode(m) == 0xE0 || opcode(m) == 0xF0 || opcode(m) == 0xE2 || opcode(m) == 0xF2,
        !execute_faults(m),
    ensures
        ({
            let op = opcode(m);
            let m2 = execute_spec(m).0;
            let addr = 0xFF00 + (if op == 0xE2 || op == 0xF2 {
                m.regs.c
            } else {
                m.operand(1)
            });
            &&& execute_spec(m).1 is None
            &&& (op == 0xE0 || op == 0xE2) ==> m2.mem == m.mem.update(addr, m.regs.a)
                && m2.regs.a == m.regs.a
            &&& (op == 0xF0 || op == 0xF2) ==> m2.regs.a == m.mem[addr] && m2.mem == m.mem
            &&& m2.regs.pc == m.regs.pc + (if op == 0xE2 || op == 0xF2 {
                1int
            } else {
                2
            })
        }),
{
}

/// `LD (nn),A` (`0xEA`) and `LD A,(nn)` (`0xFA`): the byte at the
/// little-endian address in the two bytes after the opcode receives A, or A
/// receives it; the program counter moves past the three bytes.
pub proof fn lemma_load_abs_instruction(m: Machine)
    requires
        m.mem.len() == MEM_SIZE,
        opcode(m) == 0xEA || opcode(m) == 0xFA,
        !execute_faults(m),
    ensures
        ({
            let m2 = execute_spec(m).0;
            let addr = m.operand(1) + 256 * m.operand(2);
            &&& execute_spec(m).1 is None
            &&& opcode(m) == 0xEA ==> m2.mem == m.mem.update(addr, m.regs.a)
            &&& opcode(m) == 0xFA ==> m2.regs.a == m.mem[addr] && m2.mem == m.mem
            &&& m2.regs.pc == m.regs.pc + 3
        }),
{
}

/// `LD r,r'` (`0x40..0x7F` but `HALT`): the destination named by bits 3..5
/// receives the value of the source named by bits 0..2 (B, C, D, E, H, L,
/// the byte at HL, A); the flags are kept.
pub proof fn lemma_load8_instruction(m: Machine)
    requires
        m.mem.len() == MEM_SIZE,
        0x40 <= opcode(m) < 0x80,
        opcode(m) != 0x76,
        !execute_faults(m),
    ensures
        ({
            let m2 = execute_spec(m).0;
            &&& execute_spec(m).1 is None
            &&& m2.r8((opcode(m) / 8) % 8) == m.r8(opcode(m) % 8)
            &&& m2.regs.f == m.regs.f
            &&& m2.regs.pc == m.regs.pc + 1
        }),
{
}

/// `LD rr,nn` (`0x01`, `0x11`, `0x21`, `0x31`): the pair BC, DE, HL or SP
/// receives the little-endian word in the two bytes after the opcode.
pub proof fn lemma_load_pair_instruction(m: Machine)
    requires
        m.mem.len() == MEM_SIZE,
        opcode(m) < 0x40,
        opcode(m) % 16 == 1,
        !execute_faults(m),
    ensures
        ({
            let m2 = execute_spec(m).0;
            &&& execute_spec(m).1 is None
            &&& m2.pair(opcode(m) / 16) == m.operand(1) + 256 * m.operand(2)
            &&& m2.regs.pc == m.regs.pc + 3
            &&& m2.mem == m.mem
        }),
{
    lemma_word_bytes((m.operand(1) + 256 * m.operand(2)) as u16, 0, 0);
}


/// `RST n` (`0xC7`, `0xCF`, .. `0xFF`): the address just after the opcode
/// is pushed, high byte first, the stack pointer moves down by two, and
/// execution goes on at `8 * n`, where `n` is bits 3..5 of the opcode.
pub proof fn lemma_rst_instruction(m: Machine)
    requires
        m.mem.len() == MEM_SIZE,
        opcode(m) >= 0xC0,
        opcode(m) % 8 == 7,
        m.regs.pc < 0xFFFF,
        m.regs.sp >= 2,
    ensures
        ({
            let m2 = execute_spec(m).0;
            let ret = m.regs.pc + 1;
            &&& execute_spec(m).1 is None
            &&& m2.regs.pc == opcode(m) - 0xC7
            &&& m2.stack == m.stack.push((ret / 256) as u8).push((ret % 256) as u8)
            &&& m2.regs.sp == m.regs.sp - 2
            &&& m2.mem == m.mem
        }),
{
    lemma_decode_rst(m);
    let n = (opcode(m) / 8) % 8;
    assert(rst_spec(m, n).regs.pc == 8 * n);
}

#[verifier::rlimit(50)]
proof fn lemma_decode_rst(m: Machine)
    requires
        opcode(m) >= 0xC0,
        opcode(m) % 8 == 7,
    ensures
        execute_spec(m) == (rst_spec(m, (opcode(m) / 8) % 8), None::<crate::cpu::Stop>),
        8 * ((opcode(m) / 8) % 8) == opcode(m) - 0xC7,
{
}

/// `RET` (`0xC9`), `RETI` (`0xD9`) and the conditional returns (`0xC0`,
/// `0xC8`, `0xD0`, `0xD8`, which here return exactly when Z is clear): a
/// return pops the word on top of the call stack (the top byte is its low
/// byte), moves the stack pointer up by two and goes on at that word; `RETI`
/// also enables interrupts; a return not taken goes on after the opcode.
#[verifier::rlimit(50)]
pub proof fn lemma_return_instruction(m: Machine)
    requires
        m.mem.len() == MEM_SIZE,
        opcode(m) == 0xC9 || opcode(m) == 0xD9 || opcode(m) == 0xC0 || opcode(m) == 0xC8
            || opcode(m) == 0xD0 || opcode(m) == 0xD8,
        !execute_faults(m),
    ensures
        ({
            let m2 = execute_spec(m).0;
            let n = m.stack.len();
            let taken = opcode(m) == 0xC9 || opcode(m) == 0xD9 || !flag(m.regs.f, FLAG_Z);
            &&& execute_spec(m).1 is None
            &&& taken ==> {
                &&& m2.regs.pc == m.stack[n - 2] * 256 + m.stack[n - 1]
                &&& m2.stack == m.stack.subrange(0, n - 2)
                &&& m2.regs.sp == m.regs.sp + 2
                &&& m2.regs.ime == (m.regs.ime || opcode(m) == 0xD9)
            }
            &&& !taken ==> m2.regs.pc == m.regs.pc + 1 && m2.stack == m.stack
            &&& m2.mem == m.mem
        }),
{
}

/// `PUSH rr` (`0xC5`, `0xD5`, `0xE5`, `0xF5`): the pair BC, DE, HL or AF is
/// pushed, high register first, and the stack pointer moves down by two.
#[verifier::rlimit(50)]
pub proof fn lemma_push_instruction(m: Machine)
    requires
        m.mem.len() == MEM_SIZE,
        opcode(m) >= 0xC0,
        opcode(m) % 16 == 5,
        !execute_faults(m),
    ensures
        ({
            let m2 = execute_spec(m).0;
            let k = (opcode(m) / 16) % 4;
            let hi = if k == 0 {
                m.regs.b
            } else if k == 1 {
                m.regs.d
            } else if k == 2 {
                m.regs.h
            } else {
                m.regs.a
            };
            let lo = if k == 0 {
                m.regs.c
            } else if k == 1 {
                m.regs.e
            } else if k == 2 {
                m.regs.l
            } else {
                m.regs.f
            };
            &&& execute_spec(m).1 is None
            &&& m2.stack == m.stack.push(hi).push(lo)
            &&& m2.regs.sp == m.regs.sp - 2
            &&& m2.regs.pc == m.regs.pc + 1
            &&& m2.mem == m.mem
        }),
{
    lemma_word_bytes(m.bc(), m.regs.b, m.regs.c);
    lemma_word_bytes(m.de(), m.regs.d, m.regs.e);
    lemma_word_bytes(m.hl(), m.regs.h, m.regs.l);
}

/// `POP rr` (`0xC1`, `0xD1`, `0xE1`, `0xF1`): the byte below the top of the
/// call stack goes to the high register (B, D, H or A) and the top byte to
/// the low one (C, E, L or F); both are removed and the stack pointer moves
/// up by two.
#[verifier::rlimit(50)]
pub proof fn lemma_pop_instruction(m: Machine)
    requires
        m.mem.len() == MEM_SIZE,
        opcode(m) >= 0xC0,
        opcode(m) % 16 == 1,
        !execute_faults(m),
    ensures
        ({
            let m2 = execute_spec(m).0;
            let k = (opcode(m) / 16) % 4;
            let n = m.stack.len();
            let hi = if k == 0 {
                m2.regs.b
            } else if k == 1 {
                m2.regs.d
            } else if k == 2 {
                m2.regs.h
            } else {
                m2.regs.a
            };
            let lo = if k == 0 {
                m2.regs.c
            } else if k == 1 {
                m2.regs.e
            } else if k == 2 {
                m2.regs.l
            } else {
                m2.regs.f
            };
            &&& execute_spec(m).1 is None
            &&& hi == m.stack[n - 2]
            &&& lo == m.stack[n - 1]
            &&& m2.stack == m.stack.subrange(0, n - 2)
            &&& m2.regs.sp == m.regs.sp + 2
            &&& m2.regs.pc == m.regs.pc + 1
            &&& m2.mem == m.mem
        }),
{
    lemma_word_bytes(0, m.below_top(), m.top());
}

/// `LD r,n` (`0x06`, `0x0E`, .. `0x3E`): the operand named by bits 3..5
/// receives the byte after the opcode; the flags are kept.
pub proof fn lemma_load_imm8_instruction(m: Machine)
    requires
        m.mem.len() == MEM_SIZE,
        opcode(m) < 0x40,
        opcode(m) % 8 == 6,
        !execute_faults(m),
    ensures
        ({
            let m2 = execute_spec(m).0;
            &&& execute_spec(m).1 is None
            &&& m2.r8(opcode(m) / 8) == m.operand(1)
            &&& m2.regs.f == m.regs.f
            &&& m2.regs.pc == m.regs.pc + 2
        }),
{
}

/// `JP HL` (`0xE9`) goes on at HL; `LD SP,HL` (`0xF9`) sets the stack
/// pointer to HL and goes on after the opcode.
pub proof fn lemma_hl_transfer_instruction(m: Machine)
    requires
        m.mem.len() == MEM_SIZE,
        opcode(m) == 0xE9 || opcode(m) == 0xF9,
        !execute_faults(m),
    ensures
        ({
            let m2 = execute_spec(m).0;
            let hl = m.regs.h * 256 + m.regs.l;
            &&& execute_spec(m).1 is None
            &&& opcode(m) == 0xE9 ==> m2.regs.pc == hl && m2.regs.sp == m.regs.sp
            &&& opcode(m) == 0xF9 ==> m2.regs.sp == hl && m2.regs.pc == m.regs.pc + 1
            &&& m2.mem == m.mem
            &&& m2.stack == m.stack
        }),
{
}


/// `LD (BC),A` (`0x02`), `LD (DE),A` (`0x12`), `LD A,(BC)` (`0x0A`) and
/// `LD A,(DE)` (`0x1A`): the byte at BC or DE receives A, or A receives it;
/// the pairs are kept and the program counter moves on by one.
#[verifier::rlimit(50)]
pub proof fn lemma_a_through_pair_instruction(m: Machine)
    requires
        m.mem.len() == MEM_SIZE,
        opcode(m) == 0x02 || opcode(m) == 0x12 || opcode(m) == 0x0A || opcode(m) == 0x1A,
        !execute_faults(m),
    ensures
        ({
            let op = opcode(m);
            let m2 = execute_spec(m).0;
            let addr = if op == 0x02 || op == 0x0A {
                m.regs.b * 256 + m.regs.c
            } else {
                m.regs.d * 256 + m.regs.e
            };
            &&& execute_spec(m).1 is None
            &&& (op == 0x02 || op == 0x12) ==> m2.mem == m.mem.update(addr, m.regs.a)
            &&& (op == 0x0A || op == 0x1A) ==> m2.regs.a == m.mem[addr] && m2.mem == m.mem
            &&& m2.bc() == m.bc()
            &&& m2.de() == m.de()
            &&& m2.hl() == m.hl()
            &&& m2.regs.pc == m.regs.pc + 1
        }),
{
}

} // verus!
