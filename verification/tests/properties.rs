//! Concrete checks of the core's laws: dispatch completeness, PC advance,
//! the reserved flag bits, and the round trips the proofs in `laws` state.

use emu8080::cpu::CPU;
use emu8080::sem::StepResult;

fn mem_with(bytes: &[u8]) -> Vec<u8> {
    let mut m = vec![0u8; 0x10000];
    m[..bytes.len()].copy_from_slice(bytes);
    m
}

fn ran(r: StepResult) -> u8 {
    match r {
        StepResult::Ran(c) => c,
        _ => panic!("expected a cycle count"),
    }
}

#[test]
fn every_opcode_dispatches() {
    for op in 0..=255u8 {
        let mut cpu = CPU::new(Some(0x0100), Some(0x8000));
        let mut mem = mem_with(&[0u8; 0]);
        mem[0x0100] = op;
        let r = cpu.next(&mut mem);
        assert!(
            !matches!(r, StepResult::DecoderBug),
            "opcode {:#04x} hit the fault entry",
            op
        );
        if op == 0x76 {
            assert!(matches!(r, StepResult::Halted));
        } else {
            assert!(matches!(r, StepResult::Ran(_)));
        }
    }
}

#[test]
fn pc_advances_by_instruction_length() {
    // (opcode, documented length) for one representative of each length
    // class, none of which branches.
    let cases: [(u8, u16); 6] = [
        (0x00, 1), // NOP
        (0x47, 1), // MOV B,A
        (0x3E, 2), // MVI A
        (0xC6, 2), // ADI
        (0x01, 3), // LXI B
        (0x3A, 3), // LDA
    ];
    for (op, len) in cases {
        let mut cpu = CPU::new(Some(0x0200), Some(0x8000));
        let mut mem = mem_with(&[0u8; 0]);
        mem[0x0200] = op;
        ran(cpu.next(&mut mem));
        assert_eq!(cpu.regs.pc, 0x0200 + len, "opcode {:#04x}", op);
    }
}

#[test]
fn reserved_flag_bits_keep_their_values() {
    // Start from a flag byte with the hard-wired bits at (1, 0, 0) and run a
    // flag-heavy program; the three bits never move.
    let mut cpu = CPU::new(Some(0), Some(0x1000));
    cpu.regs.f.bits = 0x02;
    cpu.regs.a = 0x9B;
    let mut mem = mem_with(&[
        0xC6, 0x77, // ADI
        0x27, // DAA
        0x07, // RLC
        0xA7, // ANA A
        0x3D, // DCR A
        0x37, // STC
        0x3F, // CMC
        0xF5, 0xF1, // PUSH PSW; POP PSW
    ]);
    for _ in 0..9 {
        ran(cpu.next(&mut mem));
        assert_eq!(cpu.regs.f.bits & 0x2A, 0x02);
    }
}

#[test]
fn register_pair_get_set_roundtrip() {
    let mut cpu = CPU::new(None, None);
    cpu.regs.b = 0x11;
    cpu.regs.c = 0x22;
    cpu.regs.d = 0x33;
    cpu.regs.e = 0x44;
    cpu.regs.h = 0x55;
    cpu.regs.l = 0x66;
    cpu.regs.a = 0x77;
    cpu.regs.f.bits = 0x86;
    cpu.regs.sp = 0x9ABC;
    let before = cpu.get_regs();
    for op in 0..=255u8 {
        let v = cpu.regs.get_rp(op);
        cpu.regs.set_rp(v, op);
        assert_eq!(cpu.get_regs(), before, "opcode {:#04x}", op);
        let w = cpu.regs.get_rp_psw(op);
        cpu.regs.set_rp_psw(w, op);
        assert_eq!(cpu.get_regs(), before, "opcode {:#04x} (PSW)", op);
    }
}

#[test]
fn cma_twice_restores_a() {
    let mut cpu = CPU::new(Some(0), None);
    cpu.regs.a = 0x5C;
    let mut mem = mem_with(&[0x2F, 0x2F]);
    assert_eq!(ran(cpu.next(&mut mem)), 4);
    assert_eq!(cpu.regs.a, 0xA3);
    assert_eq!(ran(cpu.next(&mut mem)), 4);
    assert_eq!(cpu.regs.a, 0x5C);
}

#[test]
fn cmc_twice_restores_carry() {
    for start in [false, true] {
        let mut cpu = CPU::new(Some(0), None);
        cpu.regs.f.set_carry(start);
        let mut mem = mem_with(&[0x3F, 0x3F]);
        ran(cpu.next(&mut mem));
        assert_eq!(cpu.regs.f.get_carry(), !start);
        ran(cpu.next(&mut mem));
        assert_eq!(cpu.regs.f.get_carry(), start);
    }
}

#[test]
fn stc_twice_ends_carry_true() {
    let mut cpu = CPU::new(Some(0), None);
    let mut mem = mem_with(&[0x37, 0x37]);
    ran(cpu.next(&mut mem));
    ran(cpu.next(&mut mem));
    assert!(cpu.regs.f.get_carry());
}

#[test]
fn push_pop_restores_pair_and_sp() {
    // (PUSH op, POP op) for B, D, H and PSW.
    let pairs: [(u8, u8); 4] = [(0xC5, 0xC1), (0xD5, 0xD1), (0xE5, 0xE1), (0xF5, 0xF1)];
    for (push, pop) in pairs {
        let mut cpu = CPU::new(Some(0), Some(0x1000));
        cpu.regs.b = 0x11;
        cpu.regs.c = 0x22;
        cpu.regs.d = 0x33;
        cpu.regs.e = 0x44;
        cpu.regs.h = 0x55;
        cpu.regs.l = 0x66;
        cpu.regs.a = 0x77;
        cpu.regs.f.bits = 0x86;
        let before = cpu.get_regs();
        let mut mem = mem_with(&[push, pop]);
        assert_eq!(ran(cpu.next(&mut mem)), 11);
        assert_eq!(ran(cpu.next(&mut mem)), 10);
        assert_eq!(cpu.regs.sp, before.sp);
        assert_eq!(cpu.regs.b, before.b);
        assert_eq!(cpu.regs.c, before.c);
        assert_eq!(cpu.regs.d, before.d);
        assert_eq!(cpu.regs.e, before.e);
        assert_eq!(cpu.regs.h, before.h);
        assert_eq!(cpu.regs.l, before.l);
        assert_eq!(cpu.regs.a, before.a);
        assert_eq!(cpu.regs.f, before.f);
    }
}

#[test]
fn xchg_twice_restores_hl_and_de() {
    let mut cpu = CPU::new(Some(0), None);
    cpu.regs.d = 0x12;
    cpu.regs.e = 0x34;
    cpu.regs.h = 0x56;
    cpu.regs.l = 0x78;
    let mut mem = mem_with(&[0xEB, 0xEB]);
    assert_eq!(ran(cpu.next(&mut mem)), 5);
    assert_eq!((cpu.regs.h, cpu.regs.l), (0x12, 0x34));
    assert_eq!((cpu.regs.d, cpu.regs.e), (0x56, 0x78));
    assert_eq!(ran(cpu.next(&mut mem)), 5);
    assert_eq!((cpu.regs.h, cpu.regs.l), (0x56, 0x78));
    assert_eq!((cpu.regs.d, cpu.regs.e), (0x12, 0x34));
}

#[test]
fn xthl_twice_restores_hl_and_stack_word() {
    let mut cpu = CPU::new(Some(0), Some(0x2000));
    cpu.regs.h = 0xDE;
    cpu.regs.l = 0xAD;
    let mut mem = mem_with(&[0xE3, 0xE3]);
    mem[0x2000] = 0xEF;
    mem[0x2001] = 0xBE;
    assert_eq!(ran(cpu.next(&mut mem)), 18);
    assert_eq!(ran(cpu.next(&mut mem)), 18);
    assert_eq!((cpu.regs.h, cpu.regs.l), (0xDE, 0xAD));
    assert_eq!(mem[0x2000], 0xEF);
    assert_eq!(mem[0x2001], 0xBE);
    assert_eq!(cpu.regs.sp, 0x2000);
}

#[test]
fn fresh_core_starts_clean() {
    let cpu = CPU::new(None, None);
    assert_eq!(cpu.regs.pc, 0);
    assert_eq!(cpu.regs.sp, 0);
    assert_eq!(cpu.regs.a, 0);
    assert_eq!(cpu.regs.f.bits, 0);
    assert_eq!(cpu.out_strobe, (false, 0, 0));
    assert!(!cpu.interrupt_enabled);
    let cpu2 = CPU::new(Some(0xABCD), Some(0x1234));
    assert_eq!(cpu2.regs.pc, 0xABCD);
    assert_eq!(cpu2.regs.sp, 0x1234);
}

#[test]
fn parity_flag_follows_popcount() {
    // ORI 0 sets S, Z, P from A with carry and aux cleared.
    let cases: [(u8, bool); 5] = [
        (0x00, true),
        (0x01, false),
        (0x03, true),
        (0x10, false),
        (0xFF, true),
    ];
    for (a, even) in cases {
        let mut cpu = CPU::new(Some(0), None);
        cpu.regs.a = a;
        let mut mem = mem_with(&[0xF6, 0x00]);
        ran(cpu.next(&mut mem));
        assert_eq!(cpu.regs.f.get_parity(), even, "a = {:#04x}", a);
    }
}

#[test]
fn hlt_wins_over_mov_at_0x76() {
    let mut cpu = CPU::new(Some(0), None);
    let mut mem = mem_with(&[0x76]);
    assert!(matches!(cpu.next(&mut mem), StepResult::Halted));
}
