//! Properties that relate several operations of the processor and renderer.
use vstd::prelude::*;
use crate::bits::{flag, high, low, word, lemma_put_flag, FLAG_N, FLAG_Z};
use crate::cpu::{Machine, Regs, MEM_SIZE};
use crate::decode::{AluOp, Instr, decode_spec};
use crate::semantics::{
    alu_spec, instr_spec, prefix_spec, call_cond_spec, call_spec, cond, dec_pair_spec, execute_spec,
    inc_pair_spec, opcode, pop_spec, push_spec, return_spec, rst_spec, shift_spec,
};
use crate::step::{
    irq_faults, irq_spec, irq_taken, serial_spec, step_faults, step_spec, REG_IF, REG_SB,
    REG_SC, OP_EI,
};
use crate::video::{background_spec, cleared_spec, view_source, BG_PIXELS, VIEW_WIDTH};

verus! {

/// Splitting a word into bytes and joining them again gives the word back,
/// and the other way round.
pub proof fn lemma_word_bytes(w: u16, hi: u8, lo: u8)
    ensures
        word(high(w), low(w)) == w,
        high(word(hi, lo)) == hi,
        low(word(hi, lo)) == lo,
{
}

/// `PUSH rr` followed by `POP rr` gives back the register pair, the stack
/// pointer and the call stack: only the program counter has moved on.
#[verifier::rlimit(30)]
pub proof fn lemma_push_pop(m: Machine, k: u8)
    requires
        k < 4,
        m.regs.sp >= 2,
        m.regs.pc + 2 <= 0xFFFF,
    ensures
        pop_spec(push_spec(m, k), k) == m.advance(2),
{
    let m1 = push_spec(m, k);
    assert(m1.stack.subrange(0, m1.stack.len() - 2) =~= m.stack);
    lemma_word_bytes(m.pair(k), m.regs.a, m.regs.f);
    lemma_word_bytes(m.bc(), m.regs.b, m.regs.c);
    lemma_word_bytes(m.de(), m.regs.d, m.regs.e);
    lemma_word_bytes(m.hl(), m.regs.h, m.regs.l);
}

/// `CALL nn` followed by `RET` comes back to the instruction after the
/// call with the stack pointer and the call stack as they were.
pub proof fn lemma_call_ret(m: Machine)
    requires
        m.regs.sp >= 2,
        m.regs.pc + 3 <= 0xFFFF,
    ensures
        return_spec(call_spec(m), Instr::Ret) == m.advance(3),
{
    let m1 = call_spec(m);
    assert(m1.stack.subrange(0, m1.stack.len() - 2) =~= m.stack);
    lemma_word_bytes((m.regs.pc + 3) as u16, 0, 0);
}

/// `RST n` followed by `RET` comes back to the instruction after the `RST`.
pub proof fn lemma_rst_ret(m: Machine, n: u8)
    requires
        m.regs.sp >= 2,
        m.regs.pc + 1 <= 0xFFFF,
    ensures
        return_spec(rst_spec(m, n), Instr::Ret) == m.advance(1),
{
    let m1 = rst_spec(m, n);
    assert(m1.stack.subrange(0, m1.stack.len() - 2) =~= m.stack);
    lemma_word_bytes((m.regs.pc + 1) as u16, 0, 0);
}

/// A taken `CALL cc,nn` followed by `RET` comes back to the byte just after
/// the call's opcode (the return address that this processor pushes).
pub proof fn lemma_call_cond_ret(m: Machine, cc: u8)
    requires
        cond(m.regs.f, cc),
        m.regs.sp >= 2,
        m.regs.pc + 1 <= 0xFFFF,
    ensures
        return_spec(call_cond_spec(m, cc), Instr::Ret) == m.advance(1),
{
    let m1 = call_cond_spec(m, cc);
    assert(m1.stack.subrange(0, m1.stack.len() - 2) =~= m.stack);
    lemma_word_bytes((m.regs.pc + 1) as u16, 0, 0);
}

/// An interrupt followed by `RETI` in its handler comes back to the
/// interrupted instruction, with interrupts enabled again and the stack
/// pointer and call stack as they were.
#[verifier::rlimit(30)]
pub proof fn lemma_interrupt_reti(m: Machine)
    requires
        irq_taken(m),
        !irq_faults(m),
    ensures
        return_spec(irq_spec(m).0, Instr::Reti).regs == (Regs { ime: true, ..m.regs }),
        return_spec(irq_spec(m).0, Instr::Reti).stack == m.stack,
{
    let m1 = irq_spec(m).0;
    assert(m1.stack.subrange(0, m1.stack.len() - 2) =~= m.stack);
    lemma_word_bytes(m.regs.pc, 0, 0);
}

/// `INC rr` followed by `DEC rr` gives the register pair back.
#[verifier::rlimit(30)]
pub proof fn lemma_inc_dec_pair(m: Machine, k: u8)
    requires
        k < 4,
        m.regs.pc + 2 <= 0xFFFF,
    ensures
        dec_pair_spec(inc_pair_spec(m, k), k) == m.advance(2),
{
    lemma_word_bytes(m.pair(k), m.regs.a, m.regs.f);
    lemma_word_bytes(m.bc(), m.regs.b, m.regs.c);
    lemma_word_bytes(m.de(), m.regs.d, m.regs.e);
    lemma_word_bytes(m.hl(), m.regs.h, m.regs.l);
    let w = ((m.pair(k) + 1) % 65536) as u16;
    lemma_word_bytes(w, 0, 0);
}

/// `SWAP` applied twice gives the value back.
pub proof fn lemma_swap_twice(v: u8, f: u8, g: u8)
    ensures
        shift_spec(0x30, shift_spec(0x30, v, f).0, g).0 == v,
{
}

/// `RRC` undoes `RLC`.
pub proof fn lemma_rrc_undoes_rlc(v: u8, f: u8, g: u8)
    ensures
        shift_spec(0x08, shift_spec(0x00, v, f).0, g).0 == v,
{
}

/// `CP` leaves the accumulator alone, sets N, and sets Z exactly when the
/// operand equals the accumulator.
pub proof fn lemma_cp(a: u8, f: u8, v: u8)
    ensures
        alu_spec(AluOp::Cp, a, f, v).0 == a,
        flag(alu_spec(AluOp::Cp, a, f, v).1, FLAG_Z) == (a == v),
        flag(alu_spec(AluOp::Cp, a, f, v).1, FLAG_N),
{
    let r = ((a - v + 256) % 256) as u8;
    let f1 = crate::bits::put(f, FLAG_Z, r == 0);
    let f2 = crate::bits::put(f1, FLAG_N, true);
    let f3 = crate::bits::put(f2, crate::bits::FLAG_H, r / 16 == a / 16);
    lemma_put_flag(f, FLAG_Z, FLAG_Z);
    lemma_put_flag(f1, FLAG_N, FLAG_Z);
    lemma_put_flag(f1, FLAG_N, FLAG_N);
    lemma_put_flag(f2, crate::bits::FLAG_H, FLAG_Z);
    lemma_put_flag(f2, crate::bits::FLAG_H, FLAG_N);
    lemma_put_flag(f3, crate::bits::FLAG_C, FLAG_Z);
    lemma_put_flag(f3, crate::bits::FLAG_C, FLAG_N);
}

/// `SUB` sets Z exactly when the operand equals the accumulator, and sets N.
pub proof fn lemma_sub_zero(a: u8, f: u8, v: u8)
    ensures
        flag(alu_spec(AluOp::Sub, a, f, v).1, FLAG_Z) == (a == v),
        flag(alu_spec(AluOp::Sub, a, f, v).1, FLAG_N),
{
    let r = ((a - v + 256) % 256) as u8;
    let f1 = crate::bits::put(f, FLAG_Z, r == 0);
    let f2 = crate::bits::put(f1, FLAG_N, true);
    let f3 = crate::bits::put(f2, crate::bits::FLAG_H, r / 16 != a / 16);
    lemma_put_flag(f, FLAG_Z, FLAG_Z);
    lemma_put_flag(f1, FLAG_N, FLAG_Z);
    lemma_put_flag(f1, FLAG_N, FLAG_N);
    lemma_put_flag(f2, crate::bits::FLAG_H, FLAG_Z);
    lemma_put_flag(f2, crate::bits::FLAG_H, FLAG_N);
    lemma_put_flag(f3, crate::bits::FLAG_C, FLAG_Z);
    lemma_put_flag(f3, crate::bits::FLAG_C, FLAG_N);
}

/// An instruction that stops the processor leaves the machine as it was.
pub proof fn lemma_stop_changes_nothing(m: Machine)
    ensures
        execute_spec(m).1 is Some ==> execute_spec(m).0 == m,
{
}

/// Executing an instruction keeps the size of memory.
#[verifier::rlimit(40)]
pub proof fn lemma_execute_keeps_memory_size(m: Machine)
    requires
        m.mem.len() == MEM_SIZE,
    ensures
        execute_spec(m).0.mem.len() == MEM_SIZE,
{
}

/// No instruction but `EI` changes the pending interrupt enable.
pub proof fn lemma_execute_keeps_delay(m: Machine)
    requires
        opcode(m) != OP_EI,
    ensures
        execute_spec(m).0.regs.delay_ime == m.regs.delay_ime,
{
    lemma_instr_keeps_delay(m, decode_spec(opcode(m)));
}

#[verifier::rlimit(60)]
proof fn lemma_instr_keeps_delay(m: Machine, i: Instr)
    requires
        !(i is Ei),
    ensures
        instr_spec(m, i).0.regs.delay_ime == m.regs.delay_ime,
{
    match i {
        Instr::Prefix => {
            let p = m.operand(1);
            if p < 0xC0 {
                assert(prefix_spec(m, p).regs.delay_ime == m.regs.delay_ime);
            }
        },
        Instr::StoreA(k) => {},
        Instr::LoadA(k) => {},
        Instr::Pop(k) => {},
        Instr::Push(k) => {},
        Instr::LoadHigh(a, b) => {},
        Instr::LoadAbs(a) => {},
        Instr::Alu(op, idx) => {},
        Instr::AluStack(op) => {},
        Instr::Inc8(idx) => {},
        Instr::Dec8(idx) => {},
        Instr::Load8(d, s) => {},
        _ => {},
    }
}

/// `EI` does not enable interrupts during its own step; it leaves an enable pending.
#[verifier::rlimit(30)]
pub proof fn lemma_ei_waits(m: Machine)
    requires
        opcode(m) == OP_EI,
        !step_faults(m),
    ensures
        step_spec(m).0.regs.delay_ime,
        !m.regs.ime ==> !step_spec(m).0.regs.ime,
{
}

/// A pending enable takes effect at the end of the next step that runs an
/// instruction other than `EI`.
#[verifier::rlimit(30)]
pub proof fn lemma_delayed_enable(m: Machine)
    requires
        m.regs.delay_ime,
        opcode(m) != OP_EI,
        execute_spec(m).1 is None,
        !step_faults(m),
    ensures
        step_spec(m).0.regs.ime,
        !step_spec(m).0.regs.delay_ime,
{
    lemma_execute_keeps_delay(m);
}

/// `n` steps of the serial port.
pub open spec fn serial_ticks(m: Machine, n: nat) -> Machine
    decreases n,
{
    if n == 0 {
        m
    } else {
        serial_spec(serial_ticks(m, (n - 1) as nat))
    }
}

/// One step of the serial port in the middle of a transfer.
proof fn lemma_serial_tick(m: Machine)
    requires
        m.mem.len() == MEM_SIZE,
        m.mem[REG_SC as int] >= 128,
        m.serial < 7,
    ensures
        serial_spec(m).serial == m.serial + 1,
        serial_spec(m).mem.len() == MEM_SIZE,
        serial_spec(m).mem[REG_SB as int] == (m.mem[REG_SB as int] * 2) % 256 + 1,
        serial_spec(m).mem[REG_SC as int] == m.mem[REG_SC as int],
        serial_spec(m).mem[REG_IF as int] == m.mem[REG_IF as int],
{
}

/// A serial transfer, started with nothing transferred yet, completes after
/// eight steps: eight ones have been shifted into SB (the link is
/// disconnected), the transfer is switched off and the serial interrupt requested.
#[verifier::rlimit(30)]
pub proof fn lemma_serial_transfer(m: Machine)
    requires
        m.mem.len() == MEM_SIZE,
        m.mem[REG_SC as int] >= 128,
        m.serial == 0,
    ensures
        serial_ticks(m, 8).mem[REG_SB as int] == 0xFF,
        serial_ticks(m, 8).mem[REG_SC as int] == m.mem[REG_SC as int] - 128,
        serial_ticks(m, 8).mem[REG_IF as int] == m.mem[REG_IF as int] | 0x08,
        serial_ticks(m, 8).serial == 0,
{
    reveal_with_fuel(serial_ticks, 2);
    let x0 = m.mem[REG_SB as int];
    lemma_serial_tick(serial_ticks(m, 0));
    let x1 = ((x0 * 2) % 256 + 1) as u8;
    assert(serial_ticks(m, 1).mem[REG_SB as int] == x1);
    lemma_serial_tick(serial_ticks(m, 1));
    let x2 = ((x1 * 2) % 256 + 1) as u8;
    assert(serial_ticks(m, 2).mem[REG_SB as int] == x2);
    lemma_serial_tick(serial_ticks(m, 2));
    let x3 = ((x2 * 2) % 256 + 1) as u8;
    assert(serial_ticks(m, 3).mem[REG_SB as int] == x3);
    lemma_serial_tick(serial_ticks(m, 3));
    let x4 = ((x3 * 2) % 256 + 1) as u8;
    assert(serial_ticks(m, 4).mem[REG_SB as int] == x4);
    lemma_serial_tick(serial_ticks(m, 4));
    let x5 = ((x4 * 2) % 256 + 1) as u8;
    assert(serial_ticks(m, 5).mem[REG_SB as int] == x5);
    lemma_serial_tick(serial_ticks(m, 5));
    let x6 = ((x5 * 2) % 256 + 1) as u8;
    assert(serial_ticks(m, 6).mem[REG_SB as int] == x6);
    lemma_serial_tick(serial_ticks(m, 6));
    let x7 = ((x6 * 2) % 256 + 1) as u8;
    assert(serial_ticks(m, 7).mem[REG_SB as int] == x7);
    assert(serial_ticks(m, 7).serial == 7);
    lemma_eight_ones(x0);
    assert(serial_ticks(m, 8) == serial_spec(serial_ticks(m, 7)));
}

/// Shifting eight ones into a byte leaves nothing but ones.
proof fn lemma_eight_ones(x0: u8)
    ensures
        ({
            let x1 = ((x0 * 2) % 256 + 1) as u8;
            let x2 = ((x1 * 2) % 256 + 1) as u8;
            let x3 = ((x2 * 2) % 256 + 1) as u8;
            let x4 = ((x3 * 2) % 256 + 1) as u8;
            let x5 = ((x4 * 2) % 256 + 1) as u8;
            let x6 = ((x5 * 2) % 256 + 1) as u8;
            let x7 = ((x6 * 2) % 256 + 1) as u8;
            (x7 * 2) % 256 + 1 == 255
        }),
{
    assert({
        let x1 = ((x0 * 2) % 256 + 1) as u8;
        let x2 = ((x1 * 2) % 256 + 1) as u8;
        let x3 = ((x2 * 2) % 256 + 1) as u8;
        let x4 = ((x3 * 2) % 256 + 1) as u8;
        let x5 = ((x4 * 2) % 256 + 1) as u8;
        let x6 = ((x5 * 2) % 256 + 1) as u8;
        let x7 = ((x6 * 2) % 256 + 1) as u8;
        (x7 * 2) % 256 + 1 == 255
    }) by (bit_vector);
}

/// Every background pixel is black or white, and opaque.
pub proof fn lemma_background_grey(mem: Seq<u8>, j: int)
    requires
        0 <= j < 4 * BG_PIXELS,
    ensures
        background_spec(mem)[j] == 0 || background_spec(mem)[j] == 255,
        j % 4 == 3 ==> background_spec(mem)[j] == 255,
{
}

/// Every window position shows a pixel of the background: window pixel
/// (x, y) shows background pixel ((x + SCX) mod 256, (y + SCY) mod 256), so
/// the window starts at the scroll position and wraps around both edges;
/// without scrolling it shows the top-left corner of the background.
pub proof fn lemma_view_source(x: int, y: int, scx: u8, scy: u8)
    requires
        0 <= x < VIEW_WIDTH,
        0 <= y < crate::video::VIEW_HEIGHT,
    ensures
        0 <= view_source(y * (VIEW_WIDTH as int) + x, scx, scy) < BG_PIXELS,
        view_source(y * (VIEW_WIDTH as int) + x, scx, scy) == (x + scx) % 256 + 256 * ((y + scy)
            % 256),
        view_source(y * (VIEW_WIDTH as int) + x, 0, 0) == x + 256 * y,
{
    let i = y * (VIEW_WIDTH as int) + x;
    assert(i % (VIEW_WIDTH as int) == x && i / (VIEW_WIDTH as int) == y) by (nonlinear_arith)
        requires
            i == y * 144 + x,
            0 <= x < 144,
            0 <= y,
    ;
}

/// Clearing a frame gives the same pixels every time: each one in the
/// clear colour.
pub proof fn lemma_cleared_frame(n: nat, j: int)
    requires
        0 <= j < 4 * n,
    ensures
        cleared_spec(n).len() == 4 * n,
        cleared_spec(n)[j] == (if j % 4 == 2 {
            0x00u8
        } else if j % 4 == 3 {
            0xFFu8
        } else {
            0x99u8
        }),
{
}

} // verus!
