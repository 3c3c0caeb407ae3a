//! Concrete single-instruction scenarios: each builds a fresh core and a
//! 64 KiB memory, executes, and checks registers, flags, memory and cycles.

use emu8080::cpu::CPU;
use emu8080::sem::StepResult;

fn mem_with(bytes: &[u8]) -> Vec<u8> {
    let mut m = vec![0u8; 0x10000];
    m[..bytes.len()].copy_from_slice(bytes);
    m
}

fn ran(r: StepResult) -> u8 {
    match r {
        StepResult::Ran(c) => c,
        _ => panic!("expected a cycle count"),
    }
}

#[test]
fn mvi_then_ret() {
    let mut cpu = CPU::new(Some(0), Some(0x1000));
    let mut mem = mem_with(&[0x3E, 0x42, 0xC9]);
    mem[0x1000] = 0x34;
    mem[0x1001] = 0x12;
    let c1 = ran(cpu.next(&mut mem));
    assert_eq!(cpu.regs.a, 0x42);
    assert_eq!(cpu.regs.pc, 2);
    assert_eq!(c1, 7);
    let c2 = ran(cpu.next(&mut mem));
    assert_eq!(cpu.regs.pc, 0x1234);
    assert_eq!(cpu.regs.sp, 0x1002);
    assert_eq!(c2, 10);
}

#[test]
fn adi_sets_flags() {
    let mut cpu = CPU::new(Some(0), None);
    cpu.regs.a = 0x0F;
    let mut mem = mem_with(&[0xC6, 0x01]);
    let c = ran(cpu.next(&mut mem));
    assert_eq!(cpu.regs.a, 0x10);
    assert!(!cpu.regs.f.get_zero());
    assert!(!cpu.regs.f.get_sign());
    assert!(!cpu.regs.f.get_parity());
    assert!(cpu.regs.f.get_aux());
    assert!(!cpu.regs.f.get_carry());
    assert_eq!(cpu.regs.pc, 2);
    assert_eq!(c, 7);
}

#[test]
fn rlc_rotates_into_carry() {
    let mut cpu = CPU::new(Some(0), None);
    cpu.regs.a = 0x80;
    let mut mem = mem_with(&[0x07]);
    let c = ran(cpu.next(&mut mem));
    assert_eq!(cpu.regs.a, 0x01);
    assert!(cpu.regs.f.get_carry());
    assert_eq!(cpu.regs.pc, 1);
    assert_eq!(c, 4);
}

#[test]
fn xthl_swaps_hl_with_stack_top() {
    let mut cpu = CPU::new(Some(0), Some(0x1000));
    cpu.regs.h = 0x12;
    cpu.regs.l = 0x34;
    let mut mem = mem_with(&[0xE3]);
    mem[0x1000] = 0xCD;
    mem[0x1001] = 0xAB;
    let c = ran(cpu.next(&mut mem));
    assert_eq!(cpu.regs.h, 0xAB);
    assert_eq!(cpu.regs.l, 0xCD);
    assert_eq!(mem[0x1000], 0x34);
    assert_eq!(mem[0x1001], 0x12);
    assert_eq!(cpu.regs.sp, 0x1000);
    assert_eq!(c, 18);
}

#[test]
fn call_pushes_successor_address() {
    let mut cpu = CPU::new(Some(0x0100), Some(0x1000));
    let mut mem = mem_with(&[0u8; 0]);
    mem[0x0100] = 0xCD;
    mem[0x0101] = 0x00;
    mem[0x0102] = 0x02;
    let c = ran(cpu.next(&mut mem));
    assert_eq!(cpu.regs.pc, 0x0200);
    assert_eq!(cpu.regs.sp, 0x0FFE);
    assert_eq!(mem[0x0FFE], 0x03);
    assert_eq!(mem[0x0FFF], 0x01);
    assert_eq!(c, 17);
}

#[test]
fn daa_adjusts_both_nibbles() {
    let mut cpu = CPU::new(Some(0), None);
    cpu.regs.a = 0x9B;
    let mut mem = mem_with(&[0x27]);
    let c = ran(cpu.next(&mut mem));
    assert_eq!(cpu.regs.a, 0x01);
    assert!(cpu.regs.f.get_carry());
    assert!(cpu.regs.f.get_aux());
    assert_eq!(cpu.regs.pc, 1);
    assert_eq!(c, 4);
}

#[test]
fn mov_between_registers_and_memory() {
    let mut cpu = CPU::new(Some(0), None);
    cpu.regs.b = 0x5A;
    cpu.regs.h = 0x20;
    cpu.regs.l = 0x00;
    // MOV C,B then MOV M,C then MOV A,M
    let mut mem = mem_with(&[0x48, 0x71, 0x7E]);
    assert_eq!(ran(cpu.next(&mut mem)), 5);
    assert_eq!(cpu.regs.c, 0x5A);
    assert_eq!(ran(cpu.next(&mut mem)), 7);
    assert_eq!(mem[0x2000], 0x5A);
    assert_eq!(ran(cpu.next(&mut mem)), 7);
    assert_eq!(cpu.regs.a, 0x5A);
    assert_eq!(cpu.regs.pc, 3);
}

#[test]
fn lxi_loads_all_pairs() {
    let mut cpu = CPU::new(Some(0), None);
    let mut mem = mem_with(&[
        0x01, 0x34, 0x12, // LXI B
        0x11, 0x78, 0x56, // LXI D
        0x21, 0xBC, 0x9A, // LXI H
        0x31, 0xF0, 0xDE, // LXI SP
    ]);
    for _ in 0..4 {
        assert_eq!(ran(cpu.next(&mut mem)), 10);
    }
    assert_eq!((cpu.regs.b, cpu.regs.c), (0x12, 0x34));
    assert_eq!((cpu.regs.d, cpu.regs.e), (0x56, 0x78));
    assert_eq!((cpu.regs.h, cpu.regs.l), (0x9A, 0xBC));
    assert_eq!(cpu.regs.sp, 0xDEF0);
    assert_eq!(cpu.regs.pc, 12);
}

#[test]
fn lda_sta_lhld_shld_ldax_stax() {
    let mut cpu = CPU::new(Some(0), None);
    let mut mem = mem_with(&[
        0x3A, 0x00, 0x30, // LDA 0x3000
        0x32, 0x01, 0x30, // STA 0x3001
        0x2A, 0x10, 0x30, // LHLD 0x3010
        0x22, 0x12, 0x30, // SHLD 0x3012
        0x0A, // LDAX B
        0x12, // STAX D
    ]);
    mem[0x3000] = 0x7E;
    mem[0x3010] = 0xEF;
    mem[0x3011] = 0xBE;
    cpu.regs.b = 0x40;
    cpu.regs.c = 0x00;
    cpu.regs.d = 0x40;
    cpu.regs.e = 0x01;
    mem[0x4000] = 0x99;
    assert_eq!(ran(cpu.next(&mut mem)), 13);
    assert_eq!(cpu.regs.a, 0x7E);
    assert_eq!(ran(cpu.next(&mut mem)), 13);
    assert_eq!(mem[0x3001], 0x7E);
    assert_eq!(ran(cpu.next(&mut mem)), 16);
    assert_eq!((cpu.regs.h, cpu.regs.l), (0xBE, 0xEF));
    assert_eq!(ran(cpu.next(&mut mem)), 16);
    assert_eq!(mem[0x3012], 0xEF);
    assert_eq!(mem[0x3013], 0xBE);
    assert_eq!(ran(cpu.next(&mut mem)), 7);
    assert_eq!(cpu.regs.a, 0x99);
    assert_eq!(ran(cpu.next(&mut mem)), 7);
    assert_eq!(mem[0x4001], 0x99);
}

#[test]
fn arithmetic_with_borrow_and_carry() {
    let mut cpu = CPU::new(Some(0), None);
    cpu.regs.a = 0x00;
    cpu.regs.b = 0x01;
    // SUB B: 0x00 - 0x01 borrows
    let mut mem = mem_with(&[0x90]);
    assert_eq!(ran(cpu.next(&mut mem)), 4);
    assert_eq!(cpu.regs.a, 0xFF);
    assert!(cpu.regs.f.get_carry());
    assert!(cpu.regs.f.get_aux());
    assert!(cpu.regs.f.get_sign());
    assert!(cpu.regs.f.get_parity()); // 0xFF has eight one bits
    // SBB B with the borrow still set: 0xFF - 0x01 - 1 = 0xFD
    let mut mem2 = mem_with(&[0x98]);
    cpu.regs.pc = 0;
    assert_eq!(ran(cpu.next(&mut mem2)), 4);
    assert_eq!(cpu.regs.a, 0xFD);
    assert!(!cpu.regs.f.get_carry());
}

#[test]
fn adc_includes_incoming_carry() {
    let mut cpu = CPU::new(Some(0), None);
    cpu.regs.a = 0xFF;
    cpu.regs.b = 0x00;
    cpu.regs.f.set_carry(true);
    // ADC B: 0xFF + 0 + 1 wraps to 0, sets carry, zero, aux
    let mut mem = mem_with(&[0x88]);
    assert_eq!(ran(cpu.next(&mut mem)), 4);
    assert_eq!(cpu.regs.a, 0x00);
    assert!(cpu.regs.f.get_carry());
    assert!(cpu.regs.f.get_zero());
    assert!(cpu.regs.f.get_aux());
}

#[test]
fn inr_dcr_leave_carry_alone() {
    let mut cpu = CPU::new(Some(0), None);
    cpu.regs.f.set_carry(true);
    cpu.regs.b = 0xFF;
    // INR B wraps to 0; carry must stay set
    let mut mem = mem_with(&[0x04, 0x05]);
    assert_eq!(ran(cpu.next(&mut mem)), 5);
    assert_eq!(cpu.regs.b, 0x00);
    assert!(cpu.regs.f.get_zero());
    assert!(cpu.regs.f.get_aux());
    assert!(cpu.regs.f.get_carry());
    // DCR B wraps back to 0xFF; low nibble borrows
    assert_eq!(ran(cpu.next(&mut mem)), 5);
    assert_eq!(cpu.regs.b, 0xFF);
    assert!(cpu.regs.f.get_aux());
    assert!(cpu.regs.f.get_carry());
}

#[test]
fn inr_m_costs_ten_cycles() {
    let mut cpu = CPU::new(Some(0), None);
    cpu.regs.h = 0x20;
    cpu.regs.l = 0x05;
    let mut mem = mem_with(&[0x34]); // INR M
    mem[0x2005] = 0x41;
    assert_eq!(ran(cpu.next(&mut mem)), 10);
    assert_eq!(mem[0x2005], 0x42);
}

#[test]
fn dad_updates_only_carry() {
    let mut cpu = CPU::new(Some(0), None);
    cpu.regs.h = 0xF0;
    cpu.regs.l = 0x00;
    cpu.regs.b = 0x20;
    cpu.regs.c = 0x34;
    let mut mem = mem_with(&[0x09]); // DAD B
    assert_eq!(ran(cpu.next(&mut mem)), 10);
    assert_eq!((cpu.regs.h, cpu.regs.l), (0x10, 0x34));
    assert!(cpu.regs.f.get_carry());
    assert!(!cpu.regs.f.get_zero());
    assert!(!cpu.regs.f.get_sign());
}

#[test]
fn inx_dcx_wrap() {
    let mut cpu = CPU::new(Some(0), None);
    cpu.regs.b = 0xFF;
    cpu.regs.c = 0xFF;
    let mut mem = mem_with(&[0x03, 0x0B]); // INX B, DCX B
    assert_eq!(ran(cpu.next(&mut mem)), 5);
    assert_eq!((cpu.regs.b, cpu.regs.c), (0x00, 0x00));
    assert_eq!(ran(cpu.next(&mut mem)), 5);
    assert_eq!((cpu.regs.b, cpu.regs.c), (0xFF, 0xFF));
}

#[test]
fn ana_sets_aux_from_or_of_bit3() {
    let mut cpu = CPU::new(Some(0), None);
    cpu.regs.a = 0x08;
    cpu.regs.b = 0x01;
    cpu.regs.f.set_carry(true);
    let mut mem = mem_with(&[0xA0]); // ANA B
    assert_eq!(ran(cpu.next(&mut mem)), 4);
    assert_eq!(cpu.regs.a, 0x00);
    assert!(!cpu.regs.f.get_carry());
    assert!(cpu.regs.f.get_aux()); // bit 3 of (0x08 | 0x01)
    assert!(cpu.regs.f.get_zero());
}

#[test]
fn logic_immediates() {
    let mut cpu = CPU::new(Some(0), None);
    cpu.regs.a = 0xF0;
    let mut mem = mem_with(&[0xE6, 0x3C, 0xF6, 0x03, 0xEE, 0xFF, 0xFE, 0xCD]);
    assert_eq!(ran(cpu.next(&mut mem)), 7); // ANI 0x3C
    assert_eq!(cpu.regs.a, 0x30);
    assert_eq!(ran(cpu.next(&mut mem)), 7); // ORI 0x03
    assert_eq!(cpu.regs.a, 0x33);
    assert_eq!(ran(cpu.next(&mut mem)), 7); // XRI 0xFF
    assert_eq!(cpu.regs.a, 0xCC);
    assert_eq!(ran(cpu.next(&mut mem)), 7); // CPI 0xCD: 0xCC - 0xCD borrows
    assert_eq!(cpu.regs.a, 0xCC);
    assert!(cpu.regs.f.get_carry());
    assert!(!cpu.regs.f.get_zero());
}

#[test]
fn rotates_through_and_around_carry() {
    let mut cpu = CPU::new(Some(0), None);
    cpu.regs.a = 0x01;
    let mut mem = mem_with(&[0x0F, 0x1F, 0x17]);
    assert_eq!(ran(cpu.next(&mut mem)), 4); // RRC: 0x01 -> 0x80, carry 1
    assert_eq!(cpu.regs.a, 0x80);
    assert!(cpu.regs.f.get_carry());
    assert_eq!(ran(cpu.next(&mut mem)), 4); // RAR: 0x80 -> 0xC0 (carry in), carry 0
    assert_eq!(cpu.regs.a, 0xC0);
    assert!(!cpu.regs.f.get_carry());
    assert_eq!(ran(cpu.next(&mut mem)), 4); // RAL: 0xC0 -> 0x80 (carry-in 0), carry 1
    assert_eq!(cpu.regs.a, 0x80);
    assert!(cpu.regs.f.get_carry());
}

#[test]
fn conditional_jump_call_return() {
    let mut cpu = CPU::new(Some(0), Some(0x1000));
    // JNZ 0x0010 with Zero clear: taken
    let mut mem = mem_with(&[0xC2, 0x10, 0x00]);
    mem[0x0010] = 0xCC; // CZ 0x0020: Zero clear, not taken
    mem[0x0011] = 0x20;
    mem[0x0012] = 0x00;
    mem[0x0013] = 0xD8; // RC: carry clear, not taken
    mem[0x0014] = 0xDC; // CC 0x0030: carry clear, not taken... set carry first
    assert_eq!(ran(cpu.next(&mut mem)), 10);
    assert_eq!(cpu.regs.pc, 0x0010);
    assert_eq!(ran(cpu.next(&mut mem)), 11); // CZ not taken
    assert_eq!(cpu.regs.pc, 0x0013);
    assert_eq!(cpu.regs.sp, 0x1000);
    assert_eq!(ran(cpu.next(&mut mem)), 5); // RC not taken
    assert_eq!(cpu.regs.pc, 0x0014);
}

#[test]
fn taken_conditional_call_and_return() {
    let mut cpu = CPU::new(Some(0), Some(0x1000));
    cpu.regs.f.set_zero(true);
    let mut mem = mem_with(&[0xCC, 0x20, 0x00]); // CZ 0x0020, taken
    mem[0x0020] = 0xC8; // RZ, taken
    assert_eq!(ran(cpu.next(&mut mem)), 17);
    assert_eq!(cpu.regs.pc, 0x0020);
    assert_eq!(cpu.regs.sp, 0x0FFE);
    assert_eq!(mem[0x0FFE], 0x03);
    assert_eq!(mem[0x0FFF], 0x00);
    assert_eq!(ran(cpu.next(&mut mem)), 11);
    assert_eq!(cpu.regs.pc, 0x0003);
    assert_eq!(cpu.regs.sp, 0x1000);
}

#[test]
fn rst_pushes_pc_and_jumps_to_vector() {
    let mut cpu = CPU::new(Some(0x0345), Some(0x1000));
    let mut mem = mem_with(&[0u8; 0]);
    mem[0x0345] = 0xEF; // RST 5
    assert_eq!(ran(cpu.next(&mut mem)), 11);
    assert_eq!(cpu.regs.pc, 0x0028);
    assert_eq!(cpu.regs.sp, 0x0FFE);
    assert_eq!(mem[0x0FFE], 0x45);
    assert_eq!(mem[0x0FFF], 0x03);
}

#[test]
fn pchl_and_sphl() {
    let mut cpu = CPU::new(Some(0), None);
    cpu.regs.h = 0x43;
    cpu.regs.l = 0x21;
    let mut mem = mem_with(&[0xF9]); // SPHL
    mem[0x4321] = 0xE9; // PCHL
    assert_eq!(ran(cpu.next(&mut mem)), 5);
    assert_eq!(cpu.regs.sp, 0x4321);
    assert_eq!(cpu.regs.pc, 1);
    cpu.regs.pc = 0x4321;
    assert_eq!(ran(cpu.next(&mut mem)), 5);
    assert_eq!(cpu.regs.pc, 0x4321);
}

#[test]
fn push_pop_psw() {
    let mut cpu = CPU::new(Some(0), Some(0x1000));
    cpu.regs.a = 0x7F;
    cpu.regs.f.bits = 0x95;
    let mut mem = mem_with(&[0xF5, 0xAF, 0xF1]); // PUSH PSW; XRA A; POP PSW
    assert_eq!(ran(cpu.next(&mut mem)), 11);
    assert_eq!(cpu.regs.sp, 0x0FFE);
    assert_eq!(mem[0x0FFF], 0x7F);
    assert_eq!(mem[0x0FFE], 0x95);
    assert_eq!(ran(cpu.next(&mut mem)), 4); // XRA A clears A and flags
    assert_eq!(cpu.regs.a, 0);
    assert_eq!(ran(cpu.next(&mut mem)), 10);
    assert_eq!(cpu.regs.a, 0x7F);
    assert_eq!(cpu.regs.f.bits, 0x95);
    assert_eq!(cpu.regs.sp, 0x1000);
}

#[test]
fn in_reads_port_out_raises_strobe() {
    let mut cpu = CPU::new(Some(0), None);
    cpu.set_input_n(0x17, 0xAB);
    let mut mem = mem_with(&[0xDB, 0x17, 0xD3, 0x42]); // IN 0x17; OUT 0x42
    assert_eq!(ran(cpu.next(&mut mem)), 10);
    assert_eq!(cpu.regs.a, 0xAB);
    assert_eq!(cpu.out_strobe, (false, 0, 0));
    assert_eq!(ran(cpu.next(&mut mem)), 10);
    assert_eq!(cpu.out_strobe, (true, 0x42, 0xAB));
    assert_eq!(cpu.regs.pc, 4);
}

#[test]
fn ei_di_toggle_interrupt_enable() {
    let mut cpu = CPU::new(Some(0), None);
    let mut mem = mem_with(&[0xFB, 0xF3]);
    assert!(!cpu.interrupt_enabled);
    assert_eq!(ran(cpu.next(&mut mem)), 4);
    assert!(cpu.interrupt_enabled);
    assert_eq!(ran(cpu.next(&mut mem)), 4);
    assert!(!cpu.interrupt_enabled);
}

#[test]
fn hlt_halts_and_advances_pc() {
    let mut cpu = CPU::new(Some(0), None);
    let mut mem = mem_with(&[0x76]);
    let r = cpu.next(&mut mem);
    assert!(matches!(r, StepResult::Halted));
    assert_eq!(cpu.regs.pc, 1);
}

#[test]
fn nop_only_advances_pc() {
    let mut cpu = CPU::new(Some(0), None);
    let mut mem = mem_with(&[0x00, 0x08, 0x38]);
    for i in 1..=3u16 {
        assert_eq!(ran(cpu.next(&mut mem)), 4);
        assert_eq!(cpu.regs.pc, i);
    }
}

#[test]
fn pc_wraps_at_end_of_memory() {
    let mut cpu = CPU::new(Some(0xFFFF), None);
    let mut mem = mem_with(&[0x01, 0x02]); // operands of the ADI at 0xFFFF
    mem[0xFFFF] = 0xC6; // ADI, immediate wraps to mem[0x0000]
    assert_eq!(ran(cpu.next(&mut mem)), 7);
    assert_eq!(cpu.regs.a, 0x01);
    assert_eq!(cpu.regs.pc, 1);
}

#[test]
fn stack_wraps_at_zero() {
    let mut cpu = CPU::new(Some(0), Some(0x0001));
    cpu.regs.b = 0xAA;
    cpu.regs.c = 0xBB;
    let mut mem = mem_with(&[0xC5]); // PUSH B
    assert_eq!(ran(cpu.next(&mut mem)), 11);
    assert_eq!(cpu.regs.sp, 0xFFFF);
    assert_eq!(mem[0x0000], 0xAA);
    assert_eq!(mem[0xFFFF], 0xBB);
}

#[test]
fn host_injected_rst_uses_held_instruction() {
    let mut cpu = CPU::new(Some(0x0200), Some(0x1000));
    let mut mem = mem_with(&[0u8; 0]);
    cpu.instruction = 0xC7; // RST 0
    let c = cpu.rst(&mut mem);
    assert_eq!(c, 11);
    assert_eq!(cpu.regs.pc, 0x0000);
    assert_eq!(cpu.regs.sp, 0x0FFE);
    assert_eq!(mem[0x0FFE], 0x00);
    assert_eq!(mem[0x0FFF], 0x02);
}

#[test]
fn mvi_m_costs_ten_cycles() {
    let mut cpu = CPU::new(Some(0), None);
    cpu.regs.h = 0x21;
    cpu.regs.l = 0x00;
    let mut mem = mem_with(&[0x36, 0x99]); // MVI M, 0x99
    assert_eq!(ran(cpu.next(&mut mem)), 10);
    assert_eq!(mem[0x2100], 0x99);
    assert_eq!(cpu.regs.pc, 2);
}

#[test]
fn add_m_costs_seven_cycles() {
    let mut cpu = CPU::new(Some(0), None);
    cpu.regs.a = 0x01;
    cpu.regs.h = 0x21;
    cpu.regs.l = 0x00;
    let mut mem = mem_with(&[0x86]); // ADD M
    mem[0x2100] = 0x41;
    assert_eq!(ran(cpu.next(&mut mem)), 7);
    assert_eq!(cpu.regs.a, 0x42);
}
