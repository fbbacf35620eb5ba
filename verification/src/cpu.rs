//! The processor's registers, its model as a mathematical machine, and the
//! register and memory accesses that every instruction shares.
use vstd::prelude::*;
use crate::bits::{high, high_of, join, low, low_of, word};

verus! {

/// Size of the address space: every 16-bit address names one byte.
pub const MEM_SIZE: usize = 0x10000;

/// Number of bytes that the separate call stack holds when the processor starts.
pub const STACK_BYTES: usize = 0x10000;

/// The register file of the processor.
///
/// `a`..`l` are the 8-bit registers (`f` holds the flags: Z in bit 7, N in bit 6,
/// H in bit 5, C in bit 4), `sp` and `pc` the stack pointer and program counter,
/// `ime` the interrupt master enable and `delay_ime` a pending enable that takes
/// effect after the next instruction.
#[derive(Clone, Copy, Debug, PartialEq, Eq, Structural)]
pub struct Regs {
    pub a: u8,
    pub f: u8,
    pub b: u8,
    pub c: u8,
    pub d: u8,
    pub e: u8,
    pub h: u8,
    pub l: u8,
    pub sp: u16,
    pub pc: u16,
    pub ime: bool,
    pub delay_ime: bool,
}

/// The whole state that one step of the processor reads and writes: the
/// registers, the call stack (which is kept apart from memory, last byte on
/// top), the progress of a serial transfer and the 64 KiB of memory.
#[verifier::ext_equal]
pub struct Machine {
    pub regs: Regs,
    pub stack: Seq<u8>,
    pub serial: u8,
    pub mem: Seq<u8>,
}

/// Why the processor stopped running.
#[derive(Clone, Copy, Debug, PartialEq, Eq, Structural)]
pub enum Stop {
    /// The `HALT` instruction.
    Halt,
    /// One of the opcodes that the processor does not define.
    UndefinedOpcode,
    /// An opcode that this processor does not implement.
    Unimplemented,
    /// A `0xCB`-prefixed opcode (given) that this processor does not implement.
    UnknownPrefix(u8),
}

impl Machine {
    /// The value of the register pair BC.
    pub open spec fn bc(self) -> u16 {
        word(self.regs.b, self.regs.c)
    }

    /// The value of the register pair DE.
    pub open spec fn de(self) -> u16 {
        word(self.regs.d, self.regs.e)
    }

    /// The value of the register pair HL.
    pub open spec fn hl(self) -> u16 {
        word(self.regs.h, self.regs.l)
    }

    /// The byte `k` places after the program counter.
    pub open spec fn operand(self, k: int) -> u8 {
        self.mem[self.regs.pc + k]
    }

    /// The 8-bit operand selected by a 3-bit register index:
    /// B, C, D, E, H, L, the byte at HL, A.
    pub open spec fn r8(self, idx: u8) -> u8 {
        if idx == 0 {
            self.regs.b
        } else if idx == 1 {
            self.regs.c
        } else if idx == 2 {
            self.regs.d
        } else if idx == 3 {
            self.regs.e
        } else if idx == 4 {
            self.regs.h
        } else if idx == 5 {
            self.regs.l
        } else if idx == 6 {
            self.mem[self.hl() as int]
        } else {
            self.regs.a
        }
    }

    /// The machine with the 8-bit operand selected by `idx` replaced by `v`.
    pub open spec fn set_r8(self, idx: u8, v: u8) -> Machine {
        if idx == 0 {
            Machine { regs: Regs { b: v, ..self.regs }, ..self }
        } else if idx == 1 {
            Machine { regs: Regs { c: v, ..self.regs }, ..self }
        } else if idx == 2 {
            Machine { regs: Regs { d: v, ..self.regs }, ..self }
        } else if idx == 3 {
            Machine { regs: Regs { e: v, ..self.regs }, ..self }
        } else if idx == 4 {
            Machine { regs: Regs { h: v, ..self.regs }, ..self }
        } else if idx == 5 {
            Machine { regs: Regs { l: v, ..self.regs }, ..self }
        } else if idx == 6 {
            Machine { mem: self.mem.update(self.hl() as int, v), ..self }
        } else {
            Machine { regs: Regs { a: v, ..self.regs }, ..self }
        }
    }

    /// The 16-bit register selected by a 2-bit index: BC, DE, HL, SP.
    pub open spec fn pair(self, k: u8) -> u16 {
        if k == 0 {
            self.bc()
        } else if k == 1 {
            self.de()
        } else if k == 2 {
            self.hl()
        } else {
            self.regs.sp
        }
    }

    /// The machine with the 16-bit register selected by `k` (BC, DE, HL, SP) set to `v`.
    pub open spec fn set_pair(self, k: u8, v: u16) -> Machine {
        if k == 0 {
            Machine { regs: Regs { b: high(v), c: low(v), ..self.regs }, ..self }
        } else if k == 1 {
            Machine { regs: Regs { d: high(v), e: low(v), ..self.regs }, ..self }
        } else if k == 2 {
            Machine { regs: Regs { h: high(v), l: low(v), ..self.regs }, ..self }
        } else {
            Machine { regs: Regs { sp: v, ..self.regs }, ..self }
        }
    }

    /// The machine with the accumulator set to `v`.
    pub open spec fn set_a(self, v: u8) -> Machine {
        Machine { regs: Regs { a: v, ..self.regs }, ..self }
    }

    /// The machine with the flag register set to `f`.
    pub open spec fn set_f(self, f: u8) -> Machine {
        Machine { regs: Regs { f: f, ..self.regs }, ..self }
    }

    /// The machine with the program counter set to `pc` (taken modulo 2^16).
    pub open spec fn jump(self, pc: int) -> Machine {
        Machine { regs: Regs { pc: pc as u16, ..self.regs }, ..self }
    }

    /// The machine with the program counter moved forward by `n`.
    pub open spec fn advance(self, n: int) -> Machine {
        self.jump(self.regs.pc + n)
    }

    /// The machine with the byte at `addr` set to `v`.
    pub open spec fn store(self, addr: int, v: u8) -> Machine {
        Machine { mem: self.mem.update(addr, v), ..self }
    }

    /// The machine after pushing `hi` then `lo` onto the call stack and moving
    /// the stack pointer down by two.
    pub open spec fn push_word(self, hi: u8, lo: u8) -> Machine {
        Machine {
            regs: Regs { sp: (self.regs.sp - 2) as u16, ..self.regs },
            stack: self.stack.push(hi).push(lo),
            ..self
        }
    }

    /// The byte on top of the call stack.
    pub open spec fn top(self) -> u8 {
        self.stack[self.stack.len() - 1]
    }

    /// The byte just below the top of the call stack.
    pub open spec fn below_top(self) -> u8 {
        self.stack[self.stack.len() - 2]
    }

    /// The machine after popping two bytes off the call stack and moving the
    /// stack pointer up by two.
    pub open spec fn drop_word(self) -> Machine {
        Machine {
            regs: Regs { sp: (self.regs.sp + 2) as u16, ..self.regs },
            stack: self.stack.subrange(0, self.stack.len() - 2),
            ..self
        }
    }

    /// Whether a word can be popped: two bytes on the stack and room for the
    /// stack pointer to move up by two.
    pub open spec fn can_pop(self) -> bool {
        self.stack.len() >= 2 && self.regs.sp + 2 <= 0xFFFF
    }

    /// The word that a pop reads: the top byte is the low byte.
    pub open spec fn popped(self) -> u16 {
        word(self.below_top(), self.top())
    }
}

/// The processor: its registers, its call stack and the progress of a serial transfer.
pub struct Cpu {
    pub regs: Regs,
    pub stack: Vec<u8>,
    pub serial_progress: u8,
}

impl Cpu {
    /// The machine that this processor forms together with the memory `mem`.
    pub open spec fn machine(&self, mem: Seq<u8>) -> Machine {
        Machine { regs: self.regs, stack: self.stack@, serial: self.serial_progress, mem: mem }
    }

    /// A processor at power-on: every register zero but the stack pointer,
    /// which is `0xFFFF`; interrupts disabled; a call stack of 64 KiB zeros.
    pub fn new() -> (cpu: Cpu)
        ensures
            cpu.regs == (Regs {
                a: 0,
                f: 0,
                b: 0,
                c: 0,
                d: 0,
                e: 0,
                h: 0,
                l: 0,
                sp: 0xFFFF,
                pc: 0,
                ime: false,
                delay_ime: false,
            }),
            cpu.stack@ == Seq::new(STACK_BYTES as nat, |i: int| 0u8),
            cpu.serial_progress == 0,
    {
        let mut stack: Vec<u8> = Vec::new();
        let mut i: usize = 0;
        while i < STACK_BYTES
            invariant
                i <= STACK_BYTES,
                stack@ == Seq::new(i as nat, |j: int| 0u8),
            decreases STACK_BYTES - i,
        {
            stack.push(0u8);
            i = i + 1;
        }
        Cpu {
            regs: Regs {
                a: 0,
                f: 0,
                b: 0,
                c: 0,
                d: 0,
                e: 0,
                h: 0,
                l: 0,
                sp: 0xFFFF,
                pc: 0,
                ime: false,
                delay_ime: false,
            },
            stack,
            serial_progress: 0,
        }
    }

    /// The value of HL.
    pub fn hl(&self) -> (r: u16)
        ensures
            r == self.machine(Seq::empty()).hl(),
    {
        join(self.regs.h, self.regs.l)
    }

    /// Reads the 8-bit operand selected by `idx` (B, C, D, E, H, L, (HL), A).
    pub fn read_r8(&self, mem: &Vec<u8>, idx: u8) -> (r: u8)
        requires
            mem@.len() == MEM_SIZE,
        ensures
            r == self.machine(mem@).r8(idx),
    {
        if idx == 0 {
            self.regs.b
        } else if idx == 1 {
            self.regs.c
        } else if idx == 2 {
            self.regs.d
        } else if idx == 3 {
            self.regs.e
        } else if idx == 4 {
            self.regs.h
        } else if idx == 5 {
            self.regs.l
        } else if idx == 6 {
            let hl = self.hl();
            mem[hl as usize]
        } else {
            self.regs.a
        }
    }

    /// Writes `v` to the 8-bit operand selected by `idx` (B, C, D, E, H, L, (HL), A).
    pub fn write_r8(&mut self, mem: &mut Vec<u8>, idx: u8, v: u8)
        requires
            old(mem)@.len() == MEM_SIZE,
        ensures
            final(self).machine(final(mem)@) == old(self).machine(old(mem)@).set_r8(idx, v),
            final(mem)@.len() == MEM_SIZE,
    {
        if idx == 0 {
            self.regs.b = v;
        } else if idx == 1 {
            self.regs.c = v;
        } else if idx == 2 {
            self.regs.d = v;
        } else if idx == 3 {
            self.regs.e = v;
        } else if idx == 4 {
            self.regs.h = v;
        } else if idx == 5 {
            self.regs.l = v;
        } else if idx == 6 {
            let hl = self.hl();
            mem[hl as usize] = v;
        } else {
            self.regs.a = v;
        }
    }

    /// Reads the 16-bit register selected by `k` (BC, DE, HL, SP).
    pub fn read_pair(&self, k: u8) -> (r: u16)
        ensures
            r == self.machine(Seq::empty()).pair(k),
    {
        if k == 0 {
            join(self.regs.b, self.regs.c)
        } else if k == 1 {
            join(self.regs.d, self.regs.e)
        } else if k == 2 {
            join(self.regs.h, self.regs.l)
        } else {
            self.regs.sp
        }
    }

    /// Sets the 16-bit register selected by `k` (BC, DE, HL, SP) to `v`.
    pub fn write_pair(&mut self, k: u8, v: u16)
        ensures
            final(self).regs == old(self).machine(Seq::empty()).set_pair(k, v).regs,
            final(self).stack == old(self).stack,
            final(self).serial_progress == old(self).serial_progress,
    {
        let hi = high_of(v);
        let lo = low_of(v);
        if k == 0 {
            self.regs.b = hi;
            self.regs.c = lo;
        } else if k == 1 {
            self.regs.d = hi;
            self.regs.e = lo;
        } else if k == 2 {
            self.regs.h = hi;
            self.regs.l = lo;
        } else {
            self.regs.sp = v;
        }
    }

    /// Pushes `hi` then `lo` onto the call stack and moves SP down by two.
    pub fn push_word(&mut self, hi: u8, lo: u8)
        requires
            old(self).regs.sp >= 2,
        ensures
            final(self).regs == old(self).machine(Seq::empty()).push_word(hi, lo).regs,
            final(self).stack@ == old(self).stack@.push(hi).push(lo),
            final(self).serial_progress == old(self).serial_progress,
    {
        self.stack.push(hi);
        self.stack.push(lo);
        self.regs.sp = self.regs.sp - 2;
    }

    /// Pops a word off the call stack (the top byte is the low byte) and moves
    /// SP up by two.
    pub fn pop_word(&mut self) -> (r: u16)
        requires
            old(self).machine(Seq::empty()).can_pop(),
        ensures
            r == old(self).machine(Seq::empty()).popped(),
            final(self).regs == old(self).machine(Seq::empty()).drop_word().regs,
            final(self).stack@ == old(self).machine(Seq::empty()).drop_word().stack,
            final(self).serial_progress == old(self).serial_progress,
    {
        let ghost s = self.stack@;
        let lo = self.stack.pop().unwrap();
        let hi = self.stack.pop().unwrap();
        self.regs.sp = self.regs.sp + 2;
        assert(self.stack@ =~= s.subrange(0, s.len() - 2));
        join(hi, lo)
    }
}

} // verus!
