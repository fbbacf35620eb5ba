//! One step of the processor: the instruction, then the serial port, then
//! interrupt dispatch, then a pending interrupt enable.
use vstd::prelude::*;
use crate::bits::{high, high_of, low, low_of, read_flag, FLAG_Z};
use crate::cpu::{Cpu, Machine, Regs, Stop, MEM_SIZE};
use crate::decode::{Instr, decode};
use crate::exec::test_cond;
use crate::semantics::{
    execute_faults, execute_spec, instr_faults, jr_faults, opcode,
};

verus! {

/// Address of the serial transfer data register (SB).
pub const REG_SB: usize = 0xFF01;

/// Address of the serial transfer control register (SC).
pub const REG_SC: usize = 0xFF02;

/// Address of the interrupt request register (IF).
pub const REG_IF: usize = 0xFF0F;

/// Address of the interrupt enable register (IE).
pub const REG_IE: usize = 0xFFFF;

/// Address of the register whose non-zero value asks for the boot ROM to be unmapped.
pub const REG_BOOT: usize = 0xFF50;

/// Opcode of `EI`.
pub const OP_EI: u8 = 0xFB;

/// The interrupt sources, by request bit: VBlank is bit 0, LCD bit 1, timer
/// bit 2, serial bit 3, joypad bit 4.
#[derive(Clone, Copy, Debug, PartialEq, Eq, Structural)]
pub enum Interrupt {
    VBlank,
    Lcd,
    Timer,
    Serial,
    Joypad,
}

/// What the interrupt logic did during a step.
#[derive(Clone, Copy, Debug, PartialEq, Eq, Structural)]
pub enum Service {
    /// No interrupt was taken.
    Idle,
    /// The return address was pushed and the given interrupt was dispatched.
    Dispatched(Interrupt),
    /// The return address was pushed and interrupts disabled, but the pending
    /// requests matched no single source, so the program counter was kept.
    Unmatched,
}

/// The outcome of a step that did not fault.
#[derive(Clone, Copy, Debug, PartialEq, Eq, Structural)]
pub enum Step {
    /// The instruction stopped the processor; nothing else happened.
    Stopped(Stop),
    /// The step completed; `unmap_boot_rom` tells whether the boot-ROM
    /// register asks for the boot ROM to be replaced by the cartridge.
    Ran { service: Service, unmap_boot_rom: bool },
}

/// A step that the processor cannot complete: the program counter or the
/// stack pointer would leave its range, or a pop would find the call stack empty.
#[derive(Clone, Copy, Debug, PartialEq, Eq, Structural)]
pub struct Fault {
    pub pc: u16,
    pub opcode: u8,
}

/// The source that a set of pending requests selects: the one of the
/// highest pending request bit, provided no request above bit 4 is pending
/// (so VBlank is taken only when it is the sole request).
pub open spec fn select_interrupt(pending: u8) -> Option<Interrupt> {
    if pending == 1 {
        Some(Interrupt::VBlank)
    } else if 2 <= pending < 4 {
        Some(Interrupt::Lcd)
    } else if 4 <= pending < 8 {
        Some(Interrupt::Timer)
    } else if 8 <= pending < 16 {
        Some(Interrupt::Serial)
    } else if 16 <= pending < 32 {
        Some(Interrupt::Joypad)
    } else {
        None
    }
}

/// The address whose byte holds where the handler of `i` starts.
pub open spec fn vector_of(i: Interrupt) -> int {
    match i {
        Interrupt::VBlank => 0x40,
        Interrupt::Lcd => 0x48,
        Interrupt::Timer => 0x50,
        Interrupt::Serial => 0x58,
        Interrupt::Joypad => 0x60,
    }
}

/// The mask that clears the request bit of `i` in IF.
pub open spec fn clear_mask(i: Interrupt) -> u8 {
    match i {
        Interrupt::VBlank => 0xFE,
        Interrupt::Lcd => 0xFD,
        Interrupt::Timer => 0xFB,
        Interrupt::Serial => 0xF7,
        Interrupt::Joypad => 0xEF,
    }
}

/// The serial port: while a transfer is enabled (bit 7 of SC), each step
/// shifts a 1 into SB (the link is disconnected); after eight steps the
/// transfer ends, SC bit 7 is cleared and the serial interrupt is requested.
pub open spec fn serial_spec(m: Machine) -> Machine {
    let sc = m.mem[REG_SC as int];
    if sc >= 128 {
        let mem1 = m.mem.update(REG_SB as int, ((m.mem[REG_SB as int] * 2) % 256 + 1) as u8);
        if m.serial + 1 >= 8 {
            Machine {
                serial: 0,
                mem: mem1.update(REG_SC as int, (sc - 128) as u8).update(
                    REG_IF as int,
                    m.mem[REG_IF as int] | 0x08,
                ),
                ..m
            }
        } else {
            Machine { serial: (m.serial + 1) as u8, mem: mem1, ..m }
        }
    } else {
        m
    }
}

/// The requests that are both raised and enabled.
pub open spec fn pending(m: Machine) -> u8 {
    m.mem[REG_IF as int] & m.mem[REG_IE as int]
}

/// Whether an interrupt is taken: interrupts enabled and a request pending.
pub open spec fn irq_taken(m: Machine) -> bool {
    m.regs.ime && pending(m) != 0
}

/// Interrupt dispatch: with interrupts enabled and a request pending, the
/// program counter is pushed, interrupts are disabled and, when the requests
/// select a source, its request is cleared and execution continues at the
/// address held in the byte at the source's vector.
pub open spec fn irq_spec(m: Machine) -> (Machine, Service) {
    if irq_taken(m) {
        let m1 = m.push_word(high(m.regs.pc), low(m.regs.pc));
        match select_interrupt(pending(m)) {
            Some(i) => (
                Machine {
                    regs: Regs { pc: m.mem[vector_of(i)] as u16, ime: false, ..m1.regs },
                    mem: m1.mem.update(REG_IF as int, m.mem[REG_IF as int] & clear_mask(i)),
                    ..m1
                },
                Service::Dispatched(i),
            ),
            None => (Machine { regs: Regs { ime: false, ..m1.regs }, ..m1 }, Service::Unmatched),
        }
    } else {
        (m, Service::Idle)
    }
}

/// Whether dispatching an interrupt would move the stack pointer below zero.
pub open spec fn irq_faults(m: Machine) -> bool {
    irq_taken(m) && m.regs.sp < 2
}

/// A pending enable takes effect at the end of every step but the one of `EI` itself.
pub open spec fn delay_spec(m: Machine, op: u8) -> Machine {
    if m.regs.delay_ime && op != OP_EI {
        Machine { regs: Regs { delay_ime: false, ime: true, ..m.regs }, ..m }
    } else {
        m
    }
}

/// The machine after one step, and the outcome.
pub open spec fn step_spec(m: Machine) -> (Machine, Step) {
    let op = opcode(m);
    let (m1, stop) = execute_spec(m);
    match stop {
        Some(s) => (m1, Step::Stopped(s)),
        None => {
            let (m3, service) = irq_spec(serial_spec(m1));
            let m4 = delay_spec(m3, op);
            (m4, Step::Ran { service, unmap_boot_rom: m4.mem[REG_BOOT as int] != 0 })
        },
    }
}

/// Whether the step cannot be completed.
pub open spec fn step_faults(m: Machine) -> bool {
    execute_faults(m) || (execute_spec(m).1 is None && irq_faults(serial_spec(execute_spec(m).0)))
}

/// Facts about the shifts that select an interrupt source.
proof fn lemma_select(p: u8)
    ensures
        (p >> 1 == 1) == (2 <= p < 4),
        (p >> 2 == 1) == (4 <= p < 8),
        (p >> 3 == 1) == (8 <= p < 16),
        (p >> 4 == 1) == (16 <= p < 32),
        p >> 7 == p / 128,
        p & 0x7F == p % 128,
{
    assert(((p >> 1 == 1) == (2 <= p < 4)) && ((p >> 2 == 1) == (4 <= p < 8)) && ((p >> 3 == 1)
        == (8 <= p < 16)) && ((p >> 4 == 1) == (16 <= p < 32)) && p >> 7 == p / 128 && p & 0x7F
        == p % 128) by (bit_vector);
}

impl Cpu {
    /// Advances the serial port by one step.
    #[verifier::rlimit(30)]
    pub fn serial_tick(&mut self, mem: &mut Vec<u8>)
        requires
            old(mem)@.len() == MEM_SIZE,
        ensures
            final(self).machine(final(mem)@) == serial_spec(old(self).machine(old(mem)@)),
            final(mem)@.len() == MEM_SIZE,
    {
        let sc = mem[REG_SC];
        proof {
            lemma_select(sc);
            crate::bits::lemma_byte(mem@[REG_SB as int]);
        }
        if sc >> 7 == 1 {
            mem[REG_SB] = (mem[REG_SB] << 1) | 1;
            if self.serial_progress >= 7 {
                self.serial_progress = 0;
                mem[REG_SC] = sc & 0x7F;
                mem[REG_IF] = mem[REG_IF] | 0x08;
            } else {
                self.serial_progress = self.serial_progress + 1;
            }
        }
    }

    /// Dispatches a pending interrupt, if interrupts are enabled.
    #[verifier::rlimit(30)]
    pub fn service_interrupts(&mut self, mem: &mut Vec<u8>) -> (r: Service)
        requires
            old(mem)@.len() == MEM_SIZE,
            !irq_faults(old(self).machine(old(mem)@)),
        ensures
            final(self).machine(final(mem)@) == irq_spec(old(self).machine(old(mem)@)).0,
            r == irq_spec(old(self).machine(old(mem)@)).1,
            final(mem)@.len() == MEM_SIZE,
    {
        let p = mem[REG_IF] & mem[REG_IE];
        if !(self.regs.ime && p != 0) {
            return Service::Idle;
        }
        proof {
            lemma_select(p);
        }
        let pc = self.regs.pc;
        self.push_word(high_of(pc), low_of(pc));
        let request = mem[REG_IF];
        let ghost m0 = old(self).machine(old(mem)@);
        assert(p == pending(m0));
        let r = if p == 1 {
            self.regs.pc = mem[0x40] as u16;
            mem[REG_IF] = request & 0xFE;
            Service::Dispatched(Interrupt::VBlank)
        } else if p >> 1u8 == 1 {
            self.regs.pc = mem[0x48] as u16;
            mem[REG_IF] = request & 0xFD;
            Service::Dispatched(Interrupt::Lcd)
        } else if p >> 2u8 == 1 {
            self.regs.pc = mem[0x50] as u16;
            mem[REG_IF] = request & 0xFB;
            Service::Dispatched(Interrupt::Timer)
        } else if p >> 3u8 == 1 {
            self.regs.pc = mem[0x58] as u16;
            mem[REG_IF] = request & 0xF7;
            Service::Dispatched(Interrupt::Serial)
        } else if p >> 4u8 == 1 {
            self.regs.pc = mem[0x60] as u16;
            mem[REG_IF] = request & 0xEF;
            Service::Dispatched(Interrupt::Joypad)
        } else {
            Service::Unmatched
        };
        self.regs.ime = false;
        assert(select_interrupt(p) == match r {
            Service::Dispatched(i) => Some(i),
            _ => None,
        });
        r
    }
}

impl Cpu {
    /// Whether the processor can pop a word off its call stack.
    fn can_pop(&self) -> (r: bool)
        ensures
            r == self.machine(Seq::empty()).can_pop(),
    {
        self.stack.len() >= 2 && self.regs.sp <= 0xFFFD
    }

    /// Whether a relative jump with offset byte `off` would move the program
    /// counter out of its range.
    fn jr_would_fault(&self, off: u8) -> (r: bool)
        ensures
            r == jr_faults(self.machine(Seq::empty()), off),
    {
        let pc = self.regs.pc as u32;
        let off = off as u32;
        if off >= 128 {
            pc < 256 - off || pc - (256 - off) + 2 > 0xFFFF
        } else {
            pc + off + 2 > 0xFFFF
        }
    }

    /// Whether executing `i` (the instruction at the program counter) would
    /// move the program counter or stack pointer out of range, or pop an
    /// empty call stack.
    #[verifier::rlimit(30)]
    fn instr_would_fault(&self, mem: &Vec<u8>, i: Instr) -> (r: bool)
        requires
            mem@.len() == MEM_SIZE,
        ensures
            r == instr_faults(self.machine(mem@), i),
    {
        let pc = self.regs.pc as u32;
        let sp = self.regs.sp;
        let ghost m = self.machine(mem@);
        assert(self.machine(Seq::empty()).regs == m.regs);
        assert(self.machine(Seq::empty()).stack == m.stack);
        match i {
            Instr::Prefix => pc + 1 > 0xFFFF || (mem[(pc + 1) as usize] < 0xC0 && pc + 2 > 0xFFFF),
            Instr::Call => pc + 3 > 0xFFFF || sp < 2,
            Instr::LoadPairImm(_) => pc + 3 > 0xFFFF,
            Instr::IncPair(k) => pc + 1 > 0xFFFF || (k >= 3 && sp == 0xFFFF),
            Instr::DecPair(k) => pc + 1 > 0xFFFF || (k >= 3 && sp == 0),
            Instr::LoadImm8(_) => pc + 2 > 0xFFFF,
            Instr::Jr => pc + 1 > 0xFFFF || self.jr_would_fault(mem[(pc + 1) as usize]),
            Instr::Jp => pc + 2 > 0xFFFF,
            Instr::JrCond(cc) => pc + 1 > 0xFFFF || (if test_cond(self.regs.f, cc) {
                self.jr_would_fault(mem[(pc + 1) as usize])
            } else {
                pc + 2 > 0xFFFF
            }),
            Instr::Halt => false,
            Instr::Pop(_) => !self.can_pop() || pc + 1 > 0xFFFF,
            Instr::CallCond(cc) => pc + 2 > 0xFFFF || (if test_cond(self.regs.f, cc) {
                sp < 2
            } else {
                pc + 3 > 0xFFFF
            }),
            Instr::JpCond(cc) => pc + 2 > 0xFFFF || (!test_cond(self.regs.f, cc) && pc + 3
                > 0xFFFF),
            Instr::LoadHigh(_, via_c) => pc + (if via_c {
                1
            } else {
                2
            }) > 0xFFFF,
            Instr::LoadAbs(_) => pc + 3 > 0xFFFF,
            Instr::RetIfNotZero => if !read_flag(self.regs.f, FLAG_Z) {
                !self.can_pop()
            } else {
                pc + 1 > 0xFFFF
            },
            Instr::Ret => !self.can_pop(),
            Instr::Reti => !self.can_pop(),
            Instr::Push(_) => sp < 2 || pc + 1 > 0xFFFF,
            Instr::Rst(_) => pc + 1 > 0xFFFF || sp < 2,
            Instr::Undefined => false,
            Instr::AluStack(_) => sp == 0xFFFF || pc + 2 > 0xFFFF,
            Instr::OrStack => sp == 0xFFFF || pc + 2 > 0xFFFF,
            Instr::JpHl => false,
            Instr::Unimplemented => false,
            Instr::AdcImm => pc + 2 > 0xFFFF,
            Instr::CpImm => pc + 2 > 0xFFFF,
            _ => pc + 1 > 0xFFFF,
        }
    }

    /// Whether the instruction at the program counter cannot be executed.
    pub fn execute_would_fault(&self, mem: &Vec<u8>) -> (r: bool)
        requires
            mem@.len() == MEM_SIZE,
        ensures
            r == execute_faults(self.machine(mem@)),
    {
        let op = mem[self.regs.pc as usize];
        let i = decode(op);
        self.instr_would_fault(mem, i)
    }

    /// Whether dispatching an interrupt now would move the stack pointer below zero.
    pub fn irq_would_fault(&self, mem: &Vec<u8>) -> (r: bool)
        requires
            mem@.len() == MEM_SIZE,
        ensures
            r == irq_faults(self.machine(mem@)),
    {
        self.regs.ime && (mem[REG_IF] & mem[REG_IE]) != 0 && self.regs.sp < 2
    }

    /// Applies a pending interrupt enable unless the instruction of this step,
    /// `op`, was `EI` itself.
    pub fn apply_delayed_enable(&mut self, op: u8)
        ensures
            forall|mem: Seq<u8>| #[trigger]
                final(self).machine(mem) == delay_spec(old(self).machine(mem), op),
    {
        if self.regs.delay_ime && op != OP_EI {
            self.regs.delay_ime = false;
            self.regs.ime = true;
        }
    }

    /// Runs one step of the processor: the instruction at the program
    /// counter, then the serial port, then interrupt dispatch, then a pending
    /// interrupt enable. Fails, with no promise about the state, exactly when
    /// the step cannot be completed.
    #[verifier::rlimit(30)]
    pub fn step(&mut self, mem: &mut Vec<u8>) -> (r: Result<Step, Fault>)
        requires
            old(mem)@.len() == MEM_SIZE,
        ensures
            final(mem)@.len() == MEM_SIZE,
            r is Err <==> step_faults(old(self).machine(old(mem)@)),
            match r {
                Ok(s) => (final(self).machine(final(mem)@), s) == step_spec(
                    old(self).machine(old(mem)@),
                ),
                Err(f) => f.pc == old(self).regs.pc && f.opcode == old(mem)@[old(self).regs.pc as int],
            },
    {
        let pc = self.regs.pc;
        let op = mem[pc as usize];
        if self.execute_would_fault(mem) {
            return Err(Fault { pc, opcode: op });
        }
        match self.execute(mem) {
            Some(s) => Ok(Step::Stopped(s)),
            None => {
                self.serial_tick(mem);
                if self.irq_would_fault(mem) {
                    return Err(Fault { pc, opcode: op });
                }
                let service = self.service_interrupts(mem);
                self.apply_delayed_enable(op);
                let unmap_boot_rom = mem[REG_BOOT] != 0;
                Ok(Step::Ran { service, unmap_boot_rom })
            },
        }
    }
}

} // verus!
