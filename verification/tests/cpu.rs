use gameboy::cpu::{Cpu, Stop, MEM_SIZE, STACK_BYTES};
use gameboy::decode::{decode, AluOp, Instr};
use gameboy::exec::{decrement, increment};
use gameboy::step::{Fault, Interrupt, Service, Step};

fn machine(program: &[u8]) -> (Cpu, Vec<u8>) {
    let mut mem = vec![0u8; MEM_SIZE];
    for (i, b) in program.iter().enumerate() {
        mem[i] = *b;
    }
    (Cpu::new(), mem)
}

fn ran() -> Result<Step, Fault> {
    Ok(Step::Ran { service: Service::Idle, unmap_boot_rom: false })
}

#[test]
fn power_on_state() {
    let cpu = Cpu::new();
    assert_eq!(cpu.regs.sp, 0xFFFF);
    assert_eq!(cpu.regs.pc, 0);
    assert_eq!(cpu.regs.a, 0);
    assert!(!cpu.regs.ime);
    assert_eq!(cpu.stack.len(), STACK_BYTES);
    assert!(cpu.stack.iter().all(|b| *b == 0));
    assert_eq!(cpu.serial_progress, 0);
}

#[test]
fn decode_table() {
    assert_eq!(decode(0x00), Instr::Nop);
    assert_eq!(decode(0x2F), Instr::Nop);
    assert_eq!(decode(0xF3), Instr::Nop);
    assert_eq!(decode(0x76), Instr::Halt);
    assert_eq!(decode(0x41), Instr::Load8(0, 1));
    assert_eq!(decode(0x7E), Instr::Load8(7, 6));
    assert_eq!(decode(0x9F), Instr::Alu(AluOp::Sbc, 7));
    assert_eq!(decode(0xBE), Instr::Alu(AluOp::Cp, 6));
    assert_eq!(decode(0xC1), Instr::Pop(0));
    assert_eq!(decode(0xF5), Instr::Push(3));
    assert_eq!(decode(0xCB), Instr::Prefix);
    assert_eq!(decode(0xD3), Instr::Undefined);
    assert_eq!(decode(0x27), Instr::Unimplemented);
    assert_eq!(decode(0xE8), Instr::Unimplemented);
    assert_eq!(decode(0xFE), Instr::CpImm);
    assert_eq!(decode(0x38), Instr::JrCond(3));
    assert_eq!(decode(0xDC), Instr::CallCond(3));
    assert_eq!(decode(0xFF), Instr::Rst(7));
    assert_eq!(decode(0xF2), Instr::LoadHigh(true, true));
    assert_eq!(decode(0xE0), Instr::LoadHigh(false, false));
    assert_eq!(decode(0xC6), Instr::AluStack(AluOp::Add));
    assert_eq!(decode(0xF6), Instr::OrStack);
    assert_eq!(decode(0xC8), Instr::RetIfNotZero);
    for op in 0..=255u8 {
        assert_eq!(decode(op) == Instr::CpImm, op == 0xFE);
    }
}

#[test]
fn load_pair_and_add() {
    // LD BC,0x00C6 ; LD A,0x3A ; ADD A,C
    let (mut cpu, mut mem) = machine(&[0x01, 0xC6, 0x00, 0x3E, 0x3A, 0x81]);
    for _ in 0..3 {
        assert_eq!(cpu.step(&mut mem), ran());
    }
    assert_eq!(cpu.regs.b, 0x00);
    assert_eq!(cpu.regs.c, 0xC6);
    assert_eq!(cpu.regs.a, 0x00);
    // Z, H (high nibble changed) and C raised, N lowered
    assert_eq!(cpu.regs.f, 0xB0);
    assert_eq!(cpu.regs.pc, 6);
}

#[test]
fn sub_equal_values() {
    // LD A,5 ; LD B,5 ; SUB B
    let (mut cpu, mut mem) = machine(&[0x3E, 0x05, 0x06, 0x05, 0x90]);
    for _ in 0..3 {
        cpu.step(&mut mem).unwrap();
    }
    assert_eq!(cpu.regs.a, 0);
    assert_eq!(cpu.regs.f, 0xC0);
}

#[test]
fn compare_immediate_keeps_accumulator() {
    // LD A,0x42 ; CP 0x42 ; CP 0x43
    let (mut cpu, mut mem) = machine(&[0x3E, 0x42, 0xFE, 0x42, 0xFE, 0x43]);
    cpu.step(&mut mem).unwrap();
    cpu.step(&mut mem).unwrap();
    assert_eq!(cpu.regs.a, 0x42);
    // Z and N; the high nibble of the result (0) differs from A's, so H is clear
    assert_eq!(cpu.regs.f, 0xC0);
    cpu.step(&mut mem).unwrap();
    assert_eq!(cpu.regs.a, 0x42);
    // 0x42 - 0x43 = 0xFF: not zero, N, high nibble differs so H clear, result >= A so C
    assert_eq!(cpu.regs.f, 0x50);
    assert_eq!(cpu.regs.pc, 6);
}

#[test]
fn increment_and_decrement_flags() {
    // LD B,0xFF ; INC B ; DEC B ; DEC B
    let (mut cpu, mut mem) = machine(&[0x06, 0xFF, 0x04, 0x05, 0x05]);
    cpu.step(&mut mem).unwrap();
    cpu.step(&mut mem).unwrap();
    assert_eq!(cpu.regs.b, 0);
    assert_eq!(cpu.regs.f, 0x90);
    cpu.step(&mut mem).unwrap();
    assert_eq!(cpu.regs.b, 0xFF);
    assert_eq!(cpu.regs.f, 0x50);
    cpu.step(&mut mem).unwrap();
    assert_eq!(cpu.regs.b, 0xFE);
    assert_eq!(cpu.regs.f, 0x40);
}

#[test]
fn pair_increment_decrement() {
    assert_eq!(increment(0x12, 0xFF), (0x13, 0x00));
    assert_eq!(increment(0xFF, 0xFF), (0x00, 0x00));
    assert_eq!(decrement(0x13, 0x00), (0x12, 0xFF));
    assert_eq!(decrement(0x00, 0x00), (0xFF, 0xFF));
    assert_eq!(decrement(0x12, 0x34), (0x12, 0x33));
    // INC HL ; DEC HL
    let (mut cpu, mut mem) = machine(&[0x21, 0xFF, 0x12, 0x23, 0x2B]);
    cpu.step(&mut mem).unwrap();
    cpu.step(&mut mem).unwrap();
    assert_eq!((cpu.regs.h, cpu.regs.l), (0x13, 0x00));
    cpu.step(&mut mem).unwrap();
    assert_eq!((cpu.regs.h, cpu.regs.l), (0x12, 0xFF));
}

#[test]
fn push_then_pop_restores_pair() {
    // LD SP,0xFFF0 ; LD BC,0x1234 ; PUSH BC ; LD BC,0 ; POP BC
    let (mut cpu, mut mem) =
        machine(&[0x31, 0xF0, 0xFF, 0x01, 0x34, 0x12, 0xC5, 0x01, 0x00, 0x00, 0xC1]);
    let depth = cpu.stack.len();
    for _ in 0..3 {
        cpu.step(&mut mem).unwrap();
    }
    assert_eq!(cpu.regs.sp, 0xFFEE);
    assert_eq!(cpu.stack.len(), depth + 2);
    assert_eq!(&cpu.stack[depth..], &[0x12, 0x34]);
    cpu.step(&mut mem).unwrap();
    assert_eq!((cpu.regs.b, cpu.regs.c), (0, 0));
    cpu.step(&mut mem).unwrap();
    assert_eq!((cpu.regs.b, cpu.regs.c), (0x12, 0x34));
    assert_eq!(cpu.regs.sp, 0xFFF0);
    assert_eq!(cpu.stack.len(), depth);
    assert_eq!(cpu.regs.pc, 11);
}

#[test]
fn push_pop_af() {
    // LD SP,0xFFF0 ; LD A,0x9A ; PUSH AF ; POP BC
    let (mut cpu, mut mem) = machine(&[0x31, 0xF0, 0xFF, 0x3E, 0x9A, 0xF5, 0xC1]);
    cpu.regs.f = 0x50;
    for _ in 0..4 {
        cpu.step(&mut mem).unwrap();
    }
    assert_eq!((cpu.regs.b, cpu.regs.c), (0x9A, 0x50));
}

#[test]
fn pop_at_power_on_faults() {
    // SP starts at 0xFFFF: moving it up by two is out of range.
    let (mut cpu, mut mem) = machine(&[0xC1]);
    assert_eq!(cpu.step(&mut mem), Err(Fault { pc: 0, opcode: 0xC1 }));
}

#[test]
fn program_counter_overflow_faults() {
    let (mut cpu, mut mem) = machine(&[]);
    cpu.regs.pc = 0xFFFE;
    mem[0xFFFE] = 0xCB;
    assert_eq!(cpu.step(&mut mem), Err(Fault { pc: 0xFFFE, opcode: 0xCB }));
    mem[0xFFFE] = 0x00;
    cpu.regs.pc = 0xFFFF;
    assert!(cpu.execute_would_fault(&mem));
    assert_eq!(cpu.step(&mut mem), Err(Fault { pc: 0xFFFF, opcode: 0x00 }));
    cpu.regs.pc = 0xFFFE;
    assert!(!cpu.execute_would_fault(&mem));
}

#[test]
fn call_then_return() {
    // LD SP,0xFFF0 ; CALL 0x0010 ; ... at 0x10: RET
    let (mut cpu, mut mem) = machine(&[0x31, 0xF0, 0xFF, 0xCD, 0x10, 0x00]);
    mem[0x10] = 0xC9;
    let depth = cpu.stack.len();
    cpu.step(&mut mem).unwrap();
    cpu.step(&mut mem).unwrap();
    assert_eq!(cpu.regs.pc, 0x10);
    assert_eq!(cpu.regs.sp, 0xFFEE);
    assert_eq!(&cpu.stack[depth..], &[0x00, 0x06]);
    cpu.step(&mut mem).unwrap();
    assert_eq!(cpu.regs.pc, 6);
    assert_eq!(cpu.regs.sp, 0xFFF0);
    assert_eq!(cpu.stack.len(), depth);
}

#[test]
fn conditional_call_returns_after_opcode() {
    // LD SP,0xFFF0 ; CALL NZ,0x0010 ; at 0x10: RET
    let (mut cpu, mut mem) = machine(&[0x31, 0xF0, 0xFF, 0xC4, 0x10, 0x00]);
    mem[0x10] = 0xC9;
    cpu.step(&mut mem).unwrap();
    cpu.step(&mut mem).unwrap();
    assert_eq!(cpu.regs.pc, 0x10);
    cpu.step(&mut mem).unwrap();
    assert_eq!(cpu.regs.pc, 4);
}

#[test]
fn restart_then_return() {
    // LD SP,0xFFF0 ; RST 0x08 ; at 0x08: RET
    let (mut cpu, mut mem) = machine(&[0x31, 0xF0, 0xFF, 0xCF]);
    mem[0x08] = 0xC9;
    cpu.step(&mut mem).unwrap();
    cpu.step(&mut mem).unwrap();
    assert_eq!(cpu.regs.pc, 8);
    cpu.step(&mut mem).unwrap();
    assert_eq!(cpu.regs.pc, 4);
}

#[test]
fn conditional_return_uses_zero_flag() {
    // LD SP,0xFFF0 ; CALL 0x10 ; at 0x10: XOR A (flags kept) ; RET C (returns: Z clear)
    let (mut cpu, mut mem) = machine(&[0x31, 0xF0, 0xFF, 0xCD, 0x10, 0x00]);
    mem[0x10] = 0xAF;
    mem[0x11] = 0xD8;
    for _ in 0..4 {
        cpu.step(&mut mem).unwrap();
    }
    assert_eq!(cpu.regs.pc, 6);
    // with Z set it does not return
    let (mut cpu, mut mem) = machine(&[0xC0]);
    cpu.regs.f = 0x80;
    cpu.step(&mut mem).unwrap();
    assert_eq!(cpu.regs.pc, 1);
}

#[test]
fn relative_jumps() {
    let (mut cpu, mut mem) = machine(&[]);
    mem[0x10] = 0x18;
    mem[0x11] = 0xFE;
    cpu.regs.pc = 0x10;
    cpu.step(&mut mem).unwrap();
    assert_eq!(cpu.regs.pc, 0x10);
    mem[0x10] = 0x18;
    mem[0x11] = 0x05;
    cpu.step(&mut mem).unwrap();
    assert_eq!(cpu.regs.pc, 0x17);
    // JR NZ not taken when Z is set
    mem[0x17] = 0x20;
    mem[0x18] = 0x10;
    cpu.regs.f = 0x80;
    cpu.step(&mut mem).unwrap();
    assert_eq!(cpu.regs.pc, 0x19);
    // JR Z taken backwards
    mem[0x19] = 0x28;
    mem[0x1A] = 0xF0;
    cpu.step(&mut mem).unwrap();
    assert_eq!(cpu.regs.pc, 0x0B);
}

#[test]
fn relative_jump_below_zero_faults() {
    let (mut cpu, mut mem) = machine(&[0x18, 0x80]);
    assert!(cpu.step(&mut mem).is_err());
}

#[test]
fn absolute_jumps() {
    let (mut cpu, mut mem) = machine(&[0xC3, 0x34, 0x12]);
    cpu.step(&mut mem).unwrap();
    assert_eq!(cpu.regs.pc, 0x1234);
    // JP HL
    mem[0x1234] = 0xE9;
    cpu.regs.h = 0x20;
    cpu.regs.l = 0x05;
    cpu.step(&mut mem).unwrap();
    assert_eq!(cpu.regs.pc, 0x2005);
    // JP NC not taken
    mem[0x2005] = 0xD2;
    cpu.regs.f = 0x10;
    cpu.step(&mut mem).unwrap();
    assert_eq!(cpu.regs.pc, 0x2008);
}

#[test]
fn memory_loads_and_stores() {
    // LD HL,0xC000 ; LD A,0x77 ; LD (HL+),A ; LD (HL-),A ; LD A,(HL-)
    let (mut cpu, mut mem) = machine(&[0x21, 0x00, 0xC0, 0x3E, 0x77, 0x22, 0x32, 0x3A]);
    for _ in 0..4 {
        cpu.step(&mut mem).unwrap();
    }
    assert_eq!(mem[0xC000], 0x77);
    assert_eq!(mem[0xC001], 0x77);
    assert_eq!((cpu.regs.h, cpu.regs.l), (0xC0, 0x00));
    mem[0xC000] = 0x5A;
    cpu.step(&mut mem).unwrap();
    assert_eq!(cpu.regs.a, 0x5A);
    // the fourth form moves HL on by 254
    assert_eq!((cpu.regs.h, cpu.regs.l), (0xC0, 0xFE));
}

#[test]
fn high_page_and_absolute_loads() {
    // LD A,0x12 ; LDH (0x80),A ; LD C,0x81 ; LDH A,(C) ; LD (0xC123),A ; LD A,(0xC124)
    let (mut cpu, mut mem) = machine(&[
        0x3E, 0x12, 0xE0, 0x80, 0x0E, 0x81, 0xF2, 0xEA, 0x23, 0xC1, 0xFA, 0x24, 0xC1,
    ]);
    mem[0xFF81] = 0x34;
    mem[0xC124] = 0x56;
    cpu.step(&mut mem).unwrap();
    cpu.step(&mut mem).unwrap();
    assert_eq!(mem[0xFF80], 0x12);
    cpu.step(&mut mem).unwrap();
    cpu.step(&mut mem).unwrap();
    assert_eq!(cpu.regs.a, 0x34);
    cpu.step(&mut mem).unwrap();
    assert_eq!(mem[0xC123], 0x34);
    cpu.step(&mut mem).unwrap();
    assert_eq!(cpu.regs.a, 0x56);
    assert_eq!(cpu.regs.pc, 13);
}

#[test]
fn register_loads_through_hl() {
    // LD HL,0xC000 ; LD (HL),0x42 ; LD E,(HL) ; INC E ; LD (HL),E
    let (mut cpu, mut mem) = machine(&[0x21, 0x00, 0xC0, 0x36, 0x42, 0x5E, 0x1C, 0x73]);
    for _ in 0..5 {
        cpu.step(&mut mem).unwrap();
    }
    assert_eq!(cpu.regs.e, 0x43);
    assert_eq!(mem[0xC000], 0x43);
}

#[test]
fn add_to_hl() {
    // LD HL,0x8FF0 ; LD DE,0x7010 ; ADD HL,DE
    let (mut cpu, mut mem) = machine(&[0x21, 0xF0, 0x8F, 0x11, 0x10, 0x70, 0x19]);
    cpu.regs.f = 0x80;
    for _ in 0..3 {
        cpu.step(&mut mem).unwrap();
    }
    assert_eq!((cpu.regs.h, cpu.regs.l), (0x00, 0x00));
    // Z kept, N clear, H (bits 4..7 changed), C (carry out)
    assert_eq!(cpu.regs.f, 0xB0);
}

#[test]
fn logic_operations() {
    // LD A,0xF0 ; LD B,0x3C ; AND B ; XOR B ; OR B
    let (mut cpu, mut mem) = machine(&[0x3E, 0xF0, 0x06, 0x3C, 0xA0, 0xA8, 0xB0]);
    for _ in 0..3 {
        cpu.step(&mut mem).unwrap();
    }
    assert_eq!(cpu.regs.a, 0x30);
    assert_eq!(cpu.regs.f, 0x20);
    cpu.step(&mut mem).unwrap();
    assert_eq!(cpu.regs.a, 0x0C);
    assert_eq!(cpu.regs.f, 0x20);
    cpu.step(&mut mem).unwrap();
    assert_eq!(cpu.regs.a, 0x3C);
    assert_eq!(cpu.regs.f, 0x20);
}

#[test]
fn adc_and_sbc_with_registers() {
    // LD A,0xFF ; LD B,0x01 ; ADD A,B (A=0, C set) ; ADC A,B (A=2) ; SBC A,B (A=1)
    let (mut cpu, mut mem) = machine(&[0x3E, 0xFF, 0x06, 0x01, 0x80, 0x88, 0x98]);
    for _ in 0..3 {
        cpu.step(&mut mem).unwrap();
    }
    assert_eq!(cpu.regs.a, 0);
    assert_eq!(cpu.regs.f & 0x10, 0x10);
    cpu.step(&mut mem).unwrap();
    assert_eq!(cpu.regs.a, 2);
    assert_eq!(cpu.regs.f, 0x00);
    cpu.step(&mut mem).unwrap();
    assert_eq!(cpu.regs.a, 1);
    // N set; result below A so C clear
    assert_eq!(cpu.regs.f, 0x40);
}

#[test]
fn adc_immediate_adds_its_own_carry() {
    // LD A,0xF0 ; ADC 0x20 : 0x110 carries, and the carry is added back in
    let (mut cpu, mut mem) = machine(&[0x3E, 0xF0, 0xCE, 0x20]);
    cpu.step(&mut mem).unwrap();
    cpu.step(&mut mem).unwrap();
    assert_eq!(cpu.regs.a, 0x11);
    assert_eq!(cpu.regs.f, 0x30);
    assert_eq!(cpu.regs.pc, 4);
}

#[test]
fn arithmetic_with_byte_above_stack_pointer() {
    // LD SP,0xC000 ; LD A,0x10 ; ADD (reads 0xC001) ; OR (reads 0xC001)
    let (mut cpu, mut mem) = machine(&[0x31, 0x00, 0xC0, 0x3E, 0x10, 0xC6, 0x99, 0xF6, 0x99]);
    mem[0xC001] = 0x05;
    for _ in 0..3 {
        cpu.step(&mut mem).unwrap();
    }
    assert_eq!(cpu.regs.a, 0x15);
    assert_eq!(cpu.regs.pc, 7);
    cpu.step(&mut mem).unwrap();
    assert_eq!(cpu.regs.a, 0x15);
    assert_eq!(cpu.regs.f, 0x00);
    assert_eq!(cpu.regs.pc, 9);
}

#[test]
fn accumulator_rotations() {
    // LD A,0x81 ; RLCA ; RRCA ; RRA ; RLA
    let (mut cpu, mut mem) = machine(&[0x3E, 0x81, 0x07, 0x0F, 0x1F, 0x17]);
    cpu.step(&mut mem).unwrap();
    cpu.step(&mut mem).unwrap();
    assert_eq!(cpu.regs.a, 0x03);
    assert_eq!(cpu.regs.f, 0x10);
    cpu.step(&mut mem).unwrap();
    assert_eq!(cpu.regs.a, 0x81);
    assert_eq!(cpu.regs.f, 0x10);
    cpu.step(&mut mem).unwrap();
    assert_eq!(cpu.regs.a, 0xC0);
    assert_eq!(cpu.regs.f, 0x10);
    cpu.step(&mut mem).unwrap();
    assert_eq!(cpu.regs.a, 0x81);
    assert_eq!(cpu.regs.f, 0x10);
}

#[test]
fn prefixed_operations() {
    // LD A,0xF1 ; SWAP A ; SWAP A ; RES 0,A ; LD B,3 ; SRL B (shifts A)
    let (mut cpu, mut mem) =
        machine(&[0x3E, 0xF1, 0xCB, 0x37, 0xCB, 0x37, 0xCB, 0x87, 0x06, 0x03, 0xCB, 0x38]);
    cpu.step(&mut mem).unwrap();
    cpu.step(&mut mem).unwrap();
    assert_eq!(cpu.regs.a, 0x1F);
    cpu.step(&mut mem).unwrap();
    assert_eq!(cpu.regs.a, 0xF1);
    cpu.step(&mut mem).unwrap();
    assert_eq!(cpu.regs.a, 0xF0);
    cpu.step(&mut mem).unwrap();
    cpu.step(&mut mem).unwrap();
    assert_eq!(cpu.regs.b, 0x03);
    assert_eq!(cpu.regs.a, 0x78);
    assert_eq!(cpu.regs.pc, 12);
}

#[test]
fn prefixed_bit_test_and_rotate() {
    // LD H,0x80 ; BIT 7,H ; BIT 0,H ; RLC H ; RRC H ; RL H ; RR H ; SLA H ; SRA H
    let (mut cpu, mut mem) = machine(&[
        0x26, 0x80, 0xCB, 0x7C, 0xCB, 0x44, 0xCB, 0x04, 0xCB, 0x0C, 0xCB, 0x14, 0xCB, 0x1C,
        0xCB, 0x24, 0xCB, 0x2C,
    ]);
    cpu.step(&mut mem).unwrap();
    cpu.step(&mut mem).unwrap();
    assert_eq!(cpu.regs.f, 0x20);
    cpu.step(&mut mem).unwrap();
    assert_eq!(cpu.regs.f, 0xA0);
    cpu.step(&mut mem).unwrap();
    assert_eq!(cpu.regs.h, 0x01);
    assert_eq!(cpu.regs.f, 0x00);
    cpu.step(&mut mem).unwrap();
    assert_eq!(cpu.regs.h, 0x80);
    cpu.step(&mut mem).unwrap();
    assert_eq!(cpu.regs.h, 0x00);
    assert_eq!(cpu.regs.f, 0x10);
    cpu.step(&mut mem).unwrap();
    assert_eq!(cpu.regs.h, 0x80);
    assert_eq!(cpu.regs.f, 0x00);
    cpu.step(&mut mem).unwrap();
    assert_eq!(cpu.regs.h, 0x00);
    assert_eq!(cpu.regs.f, 0x10);
    cpu.regs.h = 0x81;
    cpu.step(&mut mem).unwrap();
    assert_eq!(cpu.regs.h, 0x40);
    assert_eq!(cpu.regs.f, 0x10);
}

#[test]
fn prefixed_reset_group_clears_bit_zero() {
    // LD B,0xFF ; RES 3,B ; RES 7,B ; LD HL,0xC000 ; RES 1,(HL)
    let (mut cpu, mut mem) =
        machine(&[0x06, 0xFF, 0xCB, 0x98, 0xCB, 0xB8, 0x21, 0x00, 0xC0, 0xCB, 0x8E]);
    mem[0xC000] = 0x03;
    cpu.step(&mut mem).unwrap();
    cpu.step(&mut mem).unwrap();
    assert_eq!(cpu.regs.b, 0xFE);
    cpu.step(&mut mem).unwrap();
    assert_eq!(cpu.regs.b, 0xFE);
    cpu.step(&mut mem).unwrap();
    cpu.step(&mut mem).unwrap();
    assert_eq!(mem[0xC000], 0x02);
    assert_eq!(cpu.regs.f, 0x00);
    assert_eq!(cpu.regs.pc, 11);
}

#[test]
fn prefixed_set_group_stops() {
    let (mut cpu, mut mem) = machine(&[0xCB, 0xC7]);
    let regs = cpu.regs;
    assert_eq!(cpu.step(&mut mem), Ok(Step::Stopped(Stop::UnknownPrefix(0xC7))));
    assert_eq!(cpu.regs, regs);
    // a prefix byte at the very end of memory stops rather than faults
    let (mut cpu, mut mem) = machine(&[]);
    cpu.regs.pc = 0xFFFE;
    mem[0xFFFE] = 0xCB;
    mem[0xFFFF] = 0xFF;
    assert_eq!(cpu.step(&mut mem), Ok(Step::Stopped(Stop::UnknownPrefix(0xFF))));
}

#[test]
fn prefixed_operation_on_memory() {
    // LD HL,0xC000 ; SWAP (HL)
    let (mut cpu, mut mem) = machine(&[0x21, 0x00, 0xC0, 0xCB, 0x36]);
    mem[0xC000] = 0xAB;
    cpu.step(&mut mem).unwrap();
    cpu.step(&mut mem).unwrap();
    assert_eq!(mem[0xC000], 0xBA);
}

#[test]
fn stops() {
    let (mut cpu, mut mem) = machine(&[0x76]);
    cpu.regs.ime = true;
    cpu.regs.delay_ime = true;
    mem[0xFF02] = 0x80;
    let regs = cpu.regs;
    let before = mem.clone();
    assert_eq!(cpu.step(&mut mem), Ok(Step::Stopped(Stop::Halt)));
    assert_eq!(cpu.regs, regs);
    assert_eq!(mem, before);
    assert_eq!(cpu.serial_progress, 0);
    let (mut cpu, mut mem) = machine(&[0xD3]);
    assert_eq!(cpu.step(&mut mem), Ok(Step::Stopped(Stop::UndefinedOpcode)));
    let (mut cpu, mut mem) = machine(&[0x27]);
    assert_eq!(cpu.step(&mut mem), Ok(Step::Stopped(Stop::Unimplemented)));
}

#[test]
fn interrupt_dispatch_and_return() {
    // LD SP,0xFFF0 ; NOP ... ; vector byte at 0x40 holds 0x55 ; RETI at 0x55
    let (mut cpu, mut mem) = machine(&[0x31, 0xF0, 0xFF, 0x00]);
    cpu.step(&mut mem).unwrap();
    cpu.regs.ime = true;
    mem[0xFF0F] = 0x01;
    mem[0xFFFF] = 0x01;
    mem[0x40] = 0x55;
    mem[0x55] = 0xD9;
    let depth = cpu.stack.len();
    assert_eq!(
        cpu.step(&mut mem),
        Ok(Step::Ran { service: Service::Dispatched(Interrupt::VBlank), unmap_boot_rom: false })
    );
    assert_eq!(cpu.regs.pc, 0x55);
    assert!(!cpu.regs.ime);
    assert_eq!(mem[0xFF0F], 0x00);
    assert_eq!(&cpu.stack[depth..], &[0x00, 0x04]);
    cpu.step(&mut mem).unwrap();
    assert_eq!(cpu.regs.pc, 4);
    assert!(cpu.regs.ime);
    assert_eq!(cpu.regs.sp, 0xFFF0);
}

#[test]
fn interrupt_selection() {
    let cases: [(u8, Service, u16); 6] = [
        (0x03, Service::Dispatched(Interrupt::Lcd), 0x48),
        (0x04, Service::Dispatched(Interrupt::Timer), 0x50),
        (0x0C, Service::Dispatched(Interrupt::Serial), 0x58),
        (0x10, Service::Dispatched(Interrupt::Joypad), 0x60),
        (0x21, Service::Unmatched, 0x01),
        (0x00, Service::Idle, 0x01),
    ];
    for (pending, service, pc) in cases {
        let (mut cpu, mut mem) = machine(&[0x00]);
        cpu.regs.sp = 0xFFF0;
        cpu.regs.ime = true;
        mem[0xFF0F] = pending;
        mem[0xFFFF] = 0xFF;
        for v in [0x40usize, 0x48, 0x50, 0x58, 0x60] {
            mem[v] = v as u8;
        }
        assert_eq!(cpu.step(&mut mem), Ok(Step::Ran { service, unmap_boot_rom: false }));
        assert_eq!(cpu.regs.pc, pc);
        assert_eq!(cpu.regs.ime, service == Service::Idle);
    }
}

#[test]
fn interrupt_with_stack_pointer_at_bottom_faults() {
    let (mut cpu, mut mem) = machine(&[0x00]);
    cpu.regs.sp = 1;
    cpu.regs.ime = true;
    mem[0xFF0F] = 1;
    mem[0xFFFF] = 1;
    assert!(cpu.step(&mut mem).is_err());
}

#[test]
fn enable_takes_effect_after_next_instruction() {
    // EI ; NOP ; NOP
    let (mut cpu, mut mem) = machine(&[0xFB, 0x00, 0x00]);
    cpu.step(&mut mem).unwrap();
    assert!(!cpu.regs.ime);
    assert!(cpu.regs.delay_ime);
    cpu.step(&mut mem).unwrap();
    assert!(cpu.regs.ime);
    assert!(!cpu.regs.delay_ime);
}

#[test]
fn disable_does_nothing() {
    let (mut cpu, mut mem) = machine(&[0xF3]);
    cpu.regs.ime = true;
    cpu.step(&mut mem).unwrap();
    assert!(cpu.regs.ime);
    assert_eq!(cpu.regs.pc, 1);
}

#[test]
fn serial_transfer_completes_after_eight_steps() {
    let (mut cpu, mut mem) = machine(&[0u8; 16]);
    mem[0xFF02] = 0x81;
    mem[0xFF01] = 0x00;
    for k in 1..=7u8 {
        cpu.step(&mut mem).unwrap();
        assert_eq!(cpu.serial_progress, k);
        assert_eq!(mem[0xFF02], 0x81);
    }
    cpu.step(&mut mem).unwrap();
    assert_eq!(mem[0xFF01], 0xFF);
    assert_eq!(mem[0xFF02], 0x01);
    assert_eq!(mem[0xFF0F], 0x08);
    assert_eq!(cpu.serial_progress, 0);
}

#[test]
fn serial_interrupt_is_taken_in_the_same_step() {
    let (mut cpu, mut mem) = machine(&[0u8; 16]);
    cpu.regs.sp = 0xFFF0;
    cpu.regs.ime = true;
    cpu.serial_progress = 7;
    mem[0xFF02] = 0x80;
    mem[0xFFFF] = 0x08;
    mem[0x58] = 0x30;
    assert_eq!(
        cpu.step(&mut mem),
        Ok(Step::Ran { service: Service::Dispatched(Interrupt::Serial), unmap_boot_rom: false })
    );
    assert_eq!(cpu.regs.pc, 0x30);
    assert_eq!(mem[0xFF0F], 0x00);
}

#[test]
fn boot_rom_unmap_is_reported() {
    // LD A,1 ; LDH (0x50),A
    let (mut cpu, mut mem) = machine(&[0x3E, 0x01, 0xE0, 0x50]);
    cpu.step(&mut mem).unwrap();
    assert_eq!(
        cpu.step(&mut mem),
        Ok(Step::Ran { service: Service::Idle, unmap_boot_rom: true })
    );
}

#[test]
fn stack_pointer_register_operations() {
    // LD HL,0x1234 ; LD SP,HL ; INC SP ; DEC SP ; DEC SP
    let (mut cpu, mut mem) = machine(&[0x21, 0x34, 0x12, 0xF9, 0x33, 0x3B, 0x3B]);
    cpu.step(&mut mem).unwrap();
    cpu.step(&mut mem).unwrap();
    assert_eq!(cpu.regs.sp, 0x1234);
    cpu.step(&mut mem).unwrap();
    assert_eq!(cpu.regs.sp, 0x1235);
    cpu.step(&mut mem).unwrap();
    cpu.step(&mut mem).unwrap();
    assert_eq!(cpu.regs.sp, 0x1233);
    // INC SP at 0xFFFF cannot be executed
    let (mut cpu, mut mem) = machine(&[0x33]);
    assert!(cpu.step(&mut mem).is_err());
}
