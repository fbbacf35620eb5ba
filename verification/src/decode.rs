//! Decoding of opcodes into the instructions that this processor executes.
use vstd::prelude::*;

verus! {

/// The eight-bit arithmetic and logic operations on the accumulator.
#[derive(Clone, Copy, Debug, PartialEq, Eq, Structural)]
pub enum AluOp {
    Add,
    Adc,
    Sub,
    Sbc,
    And,
    Xor,
    Or,
    Cp,
}

/// An instruction as this processor understands it.
///
/// Register indices name the 8-bit operands B, C, D, E, H, L, (HL), A (0..7);
/// pair indices name BC, DE, HL and SP, or BC, DE, HL and AF for `Push`/`Pop`;
/// condition indices name NZ, Z, NC, C.
#[derive(Clone, Copy, Debug, PartialEq, Eq, Structural)]
pub enum Instr {
    /// Does nothing (also what `STOP`, `LD (nn),SP`, `DI` and `CPL` do here).
    Nop,
    /// The `0xCB` prefix: the next byte selects a rotate, shift or bit operation.
    Prefix,
    /// `CALL nn`.
    Call,
    /// `LD rr,nn`.
    LoadPairImm(u8),
    /// `INC rr`.
    IncPair(u8),
    /// `DEC rr`.
    DecPair(u8),
    /// `INC r`.
    Inc8(u8),
    /// `DEC r`.
    Dec8(u8),
    /// `LD r,n`.
    LoadImm8(u8),
    /// `RRCA`.
    Rrca,
    /// `RRA`.
    Rra,
    /// `RLCA`.
    Rlca,
    /// `RLA`.
    Rla,
    /// `JR e`.
    Jr,
    /// `LD (BC),A`, `LD (DE),A`, `LD (HL+),A`, `LD (HL-),A`.
    StoreA(u8),
    /// `LD A,(BC)`, `LD A,(DE)`, `LD A,(HL+)`, `LD A,(HL-)`.
    LoadA(u8),
    /// `JP nn`.
    Jp,
    /// `JR cc,e`.
    JrCond(u8),
    /// `ADD HL,rr`.
    AddHl(u8),
    /// `HALT`.
    Halt,
    /// `LD r,r'` (destination, source).
    Load8(u8, u8),
    /// An arithmetic or logic operation with an 8-bit register operand.
    Alu(AluOp, u8),
    /// `POP rr`.
    Pop(u8),
    /// `CALL cc,nn`.
    CallCond(u8),
    /// `JP cc,nn`.
    JpCond(u8),
    /// `LDH`: towards A or not, through C or through an immediate offset.
    LoadHigh(bool, bool),
    /// `LD A,(nn)` (towards A) or `LD (nn),A`.
    LoadAbs(bool),
    /// `LD SP,HL`.
    LoadSpHl,
    /// `EI`.
    Ei,
    /// `RET cc`, which here returns exactly when the Z flag is clear.
    RetIfNotZero,
    /// `RET`.
    Ret,
    /// `RETI`.
    Reti,
    /// `PUSH rr`.
    Push(u8),
    /// `RST n`.
    Rst(u8),
    /// An opcode that the processor does not define.
    Undefined,
    /// An arithmetic or logic operation whose operand is the byte at SP+1.
    AluStack(AluOp),
    /// `OR` with the byte at SP+1, setting the flags.
    OrStack,
    /// `JP HL`.
    JpHl,
    /// An opcode that this processor does not implement.
    Unimplemented,
    /// `ADC A,n`.
    AdcImm,
    /// `CP n`.
    CpImm,
}

/// The operation of the arithmetic group `0x80..=0xBF` with group index `g` (0..7).
pub open spec fn alu_op_of(g: u8) -> AluOp {
    if g == 0 {
        AluOp::Add
    } else if g == 1 {
        AluOp::Adc
    } else if g == 2 {
        AluOp::Sub
    } else if g == 3 {
        AluOp::Sbc
    } else if g == 4 {
        AluOp::And
    } else if g == 5 {
        AluOp::Xor
    } else if g == 6 {
        AluOp::Or
    } else {
        AluOp::Cp
    }
}

/// Whether `op` is one of the opcodes that the processor leaves undefined.
pub open spec fn is_undefined(op: u8) -> bool {
    op == 0xD3 || op == 0xDB || op == 0xDD || op == 0xE3 || op == 0xE4 || op == 0xEB || op
        == 0xEC || op == 0xED || op == 0xF4 || op == 0xFC || op == 0xFD
}

/// Whether `op` is one of the opcodes (`DAA`, `SCF`, `CCF`, `ADD SP,e`,
/// `LD HL,SP+e`) that this processor does not implement.
pub open spec fn is_unimplemented(op: u8) -> bool {
    op == 0x27 || op == 0x37 || op == 0x3F || op == 0xE8 || op == 0xF8
}

/// The instruction that opcode `op` denotes.
pub open spec fn decode_spec(op: u8) -> Instr {
    if op == 0x00 || op == 0x10 || op == 0x08 || op == 0xF3 || op == 0x2F {
        Instr::Nop
    } else if op == 0xCB {
        Instr::Prefix
    } else if op == 0xCD {
        Instr::Call
    } else if op < 0x40 && op % 16 == 1 {
        Instr::LoadPairImm(op / 16)
    } else if op < 0x40 && op % 16 == 3 {
        Instr::IncPair(op / 16)
    } else if op < 0x40 && op % 8 == 4 {
        Instr::Inc8(op / 8)
    } else if op < 0x40 && op % 16 == 11 {
        Instr::DecPair(op / 16)
    } else if op < 0x40 && op % 8 == 5 {
        Instr::Dec8(op / 8)
    } else if op < 0x40 && op % 8 == 6 {
        Instr::LoadImm8(op / 8)
    } else if op == 0x0F {
        Instr::Rrca
    } else if op == 0x1F {
        Instr::Rra
    } else if op == 0x07 {
        Instr::Rlca
    } else if op == 0x17 {
        Instr::Rla
    } else if op == 0x18 {
        Instr::Jr
    } else if op < 0x40 && op % 16 == 2 {
        Instr::StoreA(op / 16)
    } else if op < 0x40 && op % 16 == 10 {
        Instr::LoadA(op / 16)
    } else if op == 0xC3 {
        Instr::Jp
    } else if op == 0x20 || op == 0x28 || op == 0x30 || op == 0x38 {
        Instr::JrCond((op / 8) % 4)
    } else if op < 0x40 && op % 16 == 9 {
        Instr::AddHl(op / 16)
    } else if op == 0x76 {
        Instr::Halt
    } else if 0x40 <= op < 0x80 {
        Instr::Load8((op / 8) % 8, op % 8)
    } else if 0x80 <= op < 0xC0 {
        Instr::Alu(alu_op_of((op / 8) % 8), op % 8)
    } else if op >= 0xC0 && op % 16 == 1 {
        Instr::Pop((op / 16) % 4)
    } else if op == 0xC4 || op == 0xCC || op == 0xD4 || op == 0xDC {
        Instr::CallCond((op / 8) % 4)
    } else if op == 0xC2 || op == 0xCA || op == 0xD2 || op == 0xDA {
        Instr::JpCond((op / 8) % 4)
    } else if op == 0xE0 || op == 0xF0 || op == 0xE2 || op == 0xF2 {
        Instr::LoadHigh(op >= 0xF0, op % 4 == 2)
    } else if op == 0xFA || op == 0xEA {
        Instr::LoadAbs(op == 0xFA)
    } else if op == 0xF9 {
        Instr::LoadSpHl
    } else if op == 0xFB {
        Instr::Ei
    } else if op == 0xC0 || op == 0xC8 || op == 0xD0 || op == 0xD8 {
        Instr::RetIfNotZero
    } else if op == 0xC9 {
        Instr::Ret
    } else if op == 0xD9 {
        Instr::Reti
    } else if op >= 0xC0 && op % 16 == 5 {
        Instr::Push((op / 16) % 4)
    } else if op >= 0xC0 && op % 8 == 7 {
        Instr::Rst((op / 8) % 8)
    } else if is_undefined(op) {
        Instr::Undefined
    } else if op == 0xC6 {
        Instr::AluStack(AluOp::Add)
    } else if op == 0xD6 {
        Instr::AluStack(AluOp::Sub)
    } else if op == 0xE6 {
        Instr::AluStack(AluOp::And)
    } else if op == 0xF6 {
        Instr::OrStack
    } else if op == 0xE9 {
        Instr::JpHl
    } else if is_unimplemented(op) {
        Instr::Unimplemented
    } else if op == 0xCE {
        Instr::AdcImm
    } else if op == 0xDE {
        Instr::AluStack(AluOp::Sbc)
    } else if op == 0xEE {
        Instr::AluStack(AluOp::Xor)
    } else {
        Instr::CpImm
    }
}

/// Only opcode `0xFE` falls through every other case of the decoder to `CP n`:
/// the decoder leaves no opcode without a meaning of its own.
pub proof fn lemma_decode_total(op: u8)
    ensures
        (decode_spec(op) == Instr::CpImm) <==> op == 0xFE,
{
}

/// The operation of the arithmetic group with index `g`.
fn alu_op(g: u8) -> (r: AluOp)
    ensures
        r == alu_op_of(g),
{
    if g == 0 {
        AluOp::Add
    } else if g == 1 {
        AluOp::Adc
    } else if g == 2 {
        AluOp::Sub
    } else if g == 3 {
        AluOp::Sbc
    } else if g == 4 {
        AluOp::And
    } else if g == 5 {
        AluOp::Xor
    } else if g == 6 {
        AluOp::Or
    } else {
        AluOp::Cp
    }
}

/// Decodes an opcode. Every one of the 256 opcodes denotes exactly one
/// instruction; the last case, `CP n`, is opcode `0xFE`.
pub fn decode(op: u8) -> (r: Instr)
    ensures
        r == decode_spec(op),
{
    if op == 0x00 || op == 0x10 || op == 0x08 || op == 0xF3 || op == 0x2F {
        Instr::Nop
    } else if op == 0xCB {
        Instr::Prefix
    } else if op == 0xCD {
        Instr::Call
    } else if op < 0x40 && op % 16 == 1 {
        Instr::LoadPairImm(op / 16)
    } else if op < 0x40 && op % 16 == 3 {
        Instr::IncPair(op / 16)
    } else if op < 0x40 && op % 8 == 4 {
        Instr::Inc8(op / 8)
    } else if op < 0x40 && op % 16 == 11 {
        Instr::DecPair(op / 16)
    } else if op < 0x40 && op % 8 == 5 {
        Instr::Dec8(op / 8)
    } else if op < 0x40 && op % 8 == 6 {
        Instr::LoadImm8(op / 8)
    } else if op == 0x0F {
        Instr::Rrca
    } else if op == 0x1F {
        Instr::Rra
    } else if op == 0x07 {
        Instr::Rlca
    } else if op == 0x17 {
        Instr::Rla
    } else if op == 0x18 {
        Instr::Jr
    } else if op < 0x40 && op % 16 == 2 {
        Instr::StoreA(op / 16)
    } else if op < 0x40 && op % 16 == 10 {
        Instr::LoadA(op / 16)
    } else if op == 0xC3 {
        Instr::Jp
    } else if op == 0x20 || op == 0x28 || op == 0x30 || op == 0x38 {
        Instr::JrCond((op / 8) % 4)
    } else if op < 0x40 && op % 16 == 9 {
        Instr::AddHl(op / 16)
    } else if op == 0x76 {
        Instr::Halt
    } else if 0x40 <= op && op < 0x80 {
        Instr::Load8((op / 8) % 8, op % 8)
    } else if 0x80 <= op && op < 0xC0 {
        Instr::Alu(alu_op((op / 8) % 8), op % 8)
    } else if op >= 0xC0 && op % 16 == 1 {
        Instr::Pop((op / 16) % 4)
    } else if op == 0xC4 || op == 0xCC || op == 0xD4 || op == 0xDC {
        Instr::CallCond((op / 8) % 4)
    } else if op == 0xC2 || op == 0xCA || op == 0xD2 || op == 0xDA {
        Instr::JpCond((op / 8) % 4)
    } else if op == 0xE0 || op == 0xF0 || op == 0xE2 || op == 0xF2 {
        Instr::LoadHigh(op >= 0xF0, op % 4 == 2)
    } else if op == 0xFA || op == 0xEA {
        Instr::LoadAbs(op == 0xFA)
    } else if op == 0xF9 {
        Instr::LoadSpHl
    } else if op == 0xFB {
        Instr::Ei
    } else if op == 0xC0 || op == 0xC8 || op == 0xD0 || op == 0xD8 {
        Instr::RetIfNotZero
    } else if op == 0xC9 {
        Instr::Ret
    } else if op == 0xD9 {
        Instr::Reti
    } else if op >= 0xC0 && op % 16 == 5 {
        Instr::Push((op / 16) % 4)
    } else if op >= 0xC0 && op % 8 == 7 {
        Instr::Rst((op / 8) % 8)
    } else if op == 0xD3 || op == 0xDB || op == 0xDD || op == 0xE3 || op == 0xE4 || op == 0xEB
        || op == 0xEC || op == 0xED || op == 0xF4 || op == 0xFC || op == 0xFD {
        Instr::Undefined
    } else if op == 0xC6 {
        Instr::AluStack(AluOp::Add)
    } else if op == 0xD6 {
        Instr::AluStack(AluOp::Sub)
    } else if op == 0xE6 {
        Instr::AluStack(AluOp::And)
    } else if op == 0xF6 {
        Instr::OrStack
    } else if op == 0xE9 {
        Instr::JpHl
    } else if op == 0x27 || op == 0x37 || op == 0x3F || op == 0xE8 || op == 0xF8 {
        Instr::Unimplemented
    } else if op == 0xCE {
        Instr::AdcImm
    } else if op == 0xDE {
        Instr::AluStack(AluOp::Sbc)
    } else if op == 0xEE {
        Instr::AluStack(AluOp::Xor)
    } else {
        Instr::CpImm
    }
}

} // verus!
