//! The processor core: the register file, the input-port array, the
//! out-strobe, the interrupt-enable flag and the dispatch table, with one
//! handler per instruction family and the `next` entry point that fetches,
//! decodes and executes one instruction.

use vstd::prelude::*;

use crate::decode::{build_table, lemma_decode_complete, spec_decode, Kind};
use crate::regs::{Registers, MEM_SIZE};
use crate::sem::{
    add_rel, adi_rel, ana_rel, ani_rel, call_rel, ccc_rel, cma_rel, cmc_rel, cmp_rel, cpi_rel,
    daa_rel, dad_rel, dcr_rel, dcx_rel, ei_rel, hlt_rel, imm16, in_rel, inr_rel, inx_rel, jcc_rel,
    jmp_rel, lda_rel, ldax_rel, lhld_rel, lxi_rel, mov_rel, mvi_rel, nop_rel, ora_rel, ori_rel,
    pchl_rel, pop_rel, push_rel, ral_rel, rar_rel, rcc_rel, ret_rel, rlc_rel, rrc_rel, rst_rel,
    shld_rel, sphl_rel, sta_rel, stax_rel, stc_rel, step_rel, sub_rel, sui_rel, word_at, xchg_rel,
    xra_rel, xri_rel, xthl_rel, St, StepResult,
};

verus! {

/// One 8080 core. Memory is not owned: the host hands a 64 KiB byte vector
/// to every `next` call.
pub struct CPU {
    /// The opcode fetched by the latest `next` call (diagnostic).
    pub instruction: u8,
    /// The register file.
    pub regs: Registers,
    /// The 256 input ports, written by the host through `set_input_n`.
    pub input: Vec<u8>,
    /// The out-strobe: (pending, port, value), set by OUT, cleared by the
    /// host.
    pub out_strobe: (bool, u8, u8),
    /// The interrupt-enable flag, set by EI and cleared by DI; the core
    /// itself never consults it.
    pub interrupt_enabled: bool,
    /// The dispatch table, built once by the constructor; nothing may write
    /// it thereafter.
    pub table: Vec<Kind>,
}

impl CPU {
    /// Well-formed: the input-port array has 256 entries and the dispatch
    /// table holds, for every opcode, the kind the descriptor list assigns.
    pub open spec fn wf(&self) -> bool {
        &&& self.input@.len() == 256
        &&& self.table@.len() == 256
        &&& forall|i: int| 0 <= i < 256 ==> self.table@[i] == spec_decode(i as u8)
    }

    /// The input-port array, for contracts.
    pub open spec fn input_ports(&self) -> Seq<u8> {
        self.input@
    }

    /// The machine state the step relation speaks of, paired with a memory.
    pub open spec fn st(&self, mem: Seq<u8>) -> St {
        St {
            regs: self.regs,
            mem,
            input: self.input_ports(),
            strobe: self.out_strobe,
            ie: self.interrupt_enabled,
        }
    }

    /// A fresh core: every register zero, flag byte zero, all input ports
    /// zero, no strobe pending, interrupts disabled. When a start value for
    /// PC or SP is supplied, that register starts there instead.
    pub fn new(start_pc: Option<u16>, start_sp: Option<u16>) -> (cpu: CPU)
        ensures
            cpu.wf(),
            cpu.instruction == 0,
            cpu.regs.pc == (match start_pc {
                Option::Some(pc) => pc,
                Option::None => 0u16,
            }),
            cpu.regs.sp == (match start_sp {
                Option::Some(sp) => sp,
                Option::None => 0u16,
            }),
            cpu.regs.a == 0 && cpu.regs.b == 0 && cpu.regs.c == 0 && cpu.regs.d == 0
                && cpu.regs.e == 0 && cpu.regs.h == 0 && cpu.regs.l == 0,
            cpu.regs.f.bits == 0,
            cpu.out_strobe == (false, 0u8, 0u8),
            cpu.interrupt_enabled == false,
            forall|i: int| 0 <= i < 256 ==> cpu.input_ports()[i] == 0,
    {
        let mut regs = Registers::default();
        if let Some(pc) = start_pc {
            regs.pc = pc;
        }
        if let Some(sp) = start_sp {
            regs.sp = sp;
        }
        let mut input: Vec<u8> = Vec::new();
        for j in 0..256usize
            invariant
                input.len() == j,
                forall|k: int| 0 <= k < j ==> input@[k] == 0,
        {
            input.push(0);
        }
        CPU {
            instruction: 0,
            regs,
            input,
            out_strobe: (false, 0, 0),
            interrupt_enabled: false,
            table: build_table(),
        }
    }

    /// Write an input port; the host calls this before `next`.
    pub fn set_input_n(&mut self, n: u8, value: u8)
        requires
            old(self).wf(),
        ensures
            final(self).wf(),
            final(self).input_ports() == old(self).input_ports().update(n as int, value),
            final(self).regs == old(self).regs,
            final(self).out_strobe == old(self).out_strobe,
            final(self).interrupt_enabled == old(self).interrupt_enabled,
            final(self).instruction == old(self).instruction,
    {
        vstd::pervasive::VecAdditionalExecFns::set(&mut self.input, n as usize, value);
    }

    /// A copy of the register file.
    pub fn get_regs(&self) -> (r: Registers)
        ensures
            r == self.regs,
    {
        self.regs
    }

    /// The immediate word after the opcode at PC.
    fn get_16(&self, mem: &Vec<u8>) -> (r: u16)
        requires
            mem.len() == MEM_SIZE,
        ensures
            r == imm16(mem@, self.regs.pc),
    {
        let lb = mem[self.regs.pc.wrapping_add(1) as usize];
        let hb = mem[self.regs.pc.wrapping_add(2) as usize];
        ((hb as u16) << 8) | (lb as u16)
    }

    /// Pop a word off the stack: low byte at SP, high byte at SP+1, SP
    /// incremented by two.
    fn pop_16(&mut self, mem: &Vec<u8>) -> (r: u16)
        requires
            mem.len() == MEM_SIZE,
        ensures
            r == word_at(mem@, old(self).regs.sp),
            final(self).regs == (Registers {
                sp: old(self).regs.sp.wrapping_add(2),
                ..old(self).regs
            }),
            final(self).input@ == old(self).input@,
            final(self).table@ == old(self).table@,
            final(self).out_strobe == old(self).out_strobe,
            final(self).interrupt_enabled == old(self).interrupt_enabled,
            final(self).instruction == old(self).instruction,
    {
        let lb = mem[self.regs.sp as usize];
        let hb = mem[self.regs.sp.wrapping_add(1) as usize];
        self.regs.sp = self.regs.sp.wrapping_add(2);
        ((hb as u16) << 8) | (lb as u16)
    }

    /// Push a word: high byte at SP-1, low byte at SP-2, SP decremented by
    /// two.
    fn push_16(&mut self, mem: &mut Vec<u8>, v: u16)
        requires
            old(mem).len() == MEM_SIZE,
        ensures
            final(mem)@ == crate::sem::pushed_mem(old(mem)@, old(self).regs.sp, v),
            final(mem).len() == MEM_SIZE,
            final(self).regs == (Registers {
                sp: old(self).regs.sp.wrapping_sub(2),
                ..old(self).regs
            }),
            final(self).input@ == old(self).input@,
            final(self).table@ == old(self).table@,
            final(self).out_strobe == old(self).out_strobe,
            final(self).interrupt_enabled == old(self).interrupt_enabled,
            final(self).instruction == old(self).instruction,
    {
        let sp = self.regs.sp;
        vstd::pervasive::VecAdditionalExecFns::set(
            mem,
            sp.wrapping_sub(1) as usize,
            (v >> 8) as u8,
        );
        vstd::pervasive::VecAdditionalExecFns::set(mem, sp.wrapping_sub(2) as usize, v as u8);
        self.regs.sp = sp.wrapping_sub(2);
    }

    fn jmp(&mut self, mem: &mut Vec<u8>) -> (c: u8)
        requires
            old(mem).len() == MEM_SIZE,
        ensures
            final(self).table@ == old(self).table@,
            final(self).instruction == old(self).instruction,
            final(self).input@ == old(self).input@,
            final(mem).len() == MEM_SIZE,
            jmp_rel(old(self).instruction, old(self).st(old(mem)@), final(self).st(final(mem)@), c),
    {
        let addr = self.get_16(mem);
        self.regs.pc = addr;
        10
    }

    fn lxi(&mut self, mem: &mut Vec<u8>) -> (c: u8)
        requires
            old(mem).len() == MEM_SIZE,
        ensures
            final(self).table@ == old(self).table@,
            final(self).instruction == old(self).instruction,
            final(self).input@ == old(self).input@,
            final(mem).len() == MEM_SIZE,
            lxi_rel(old(self).instruction, old(self).st(old(mem)@), final(self).st(final(mem)@), c),
    {
        let v = self.get_16(mem);
        self.regs.set_rp(v, self.instruction);
        self.regs.pc = self.regs.pc.wrapping_add(3);
        10
    }

    fn mov(&mut self, mem: &mut Vec<u8>) -> (c: u8)
        requires
            old(mem).len() == MEM_SIZE,
        ensures
            final(self).table@ == old(self).table@,
            final(self).instruction == old(self).instruction,
            final(self).input@ == old(self).input@,
            final(mem).len() == MEM_SIZE,
            mov_rel(old(self).instruction, old(self).st(old(mem)@), final(self).st(final(mem)@), c),
    {
        let (s, idx_src) = self.regs.get_s(self.instruction, mem);
        let idx_dst = self.regs.set_d(self.instruction, mem, s);
        self.regs.pc = self.regs.pc.wrapping_add(1);
        if idx_src == 6 || idx_dst == 6 {
            7
        } else {
            5
        }
    }

    fn mvi(&mut self, mem: &mut Vec<u8>) -> (c: u8)
        requires
            old(mem).len() == MEM_SIZE,
        ensures
            final(self).table@ == old(self).table@,
            final(self).instruction == old(self).instruction,
            final(self).input@ == old(self).input@,
            final(mem).len() == MEM_SIZE,
            mvi_rel(old(self).instruction, old(self).st(old(mem)@), final(self).st(final(mem)@), c),
    {
        let v = mem[self.regs.pc.wrapping_add(1) as usize];
        let idx = self.regs.set_d(self.instruction, mem, v);
        self.regs.pc = self.regs.pc.wrapping_add(2);
        if idx == 6 {
            10
        } else {
            7
        }
    }

    fn nop(&mut self) -> (c: u8)
        ensures
            final(self).table@ == old(self).table@,
            final(self).instruction == old(self).instruction,
            final(self).input@ == old(self).input@,
            forall|m: Seq<u8>| nop_rel(old(self).instruction, old(self).st(m), final(self).st(m), c),
    {
        self.regs.pc = self.regs.pc.wrapping_add(1);
        4
    }

    fn lda(&mut self, mem: &mut Vec<u8>) -> (c: u8)
        requires
            old(mem).len() == MEM_SIZE,
        ensures
            final(self).table@ == old(self).table@,
            final(self).instruction == old(self).instruction,
            final(self).input@ == old(self).input@,
            final(mem).len() == MEM_SIZE,
            lda_rel(old(self).instruction, old(self).st(old(mem)@), final(self).st(final(mem)@), c),
    {
        let addr = self.get_16(mem);
        self.regs.a = mem[addr as usize];
        self.regs.pc = self.regs.pc.wrapping_add(3);
        13
    }

    fn sda(&mut self, mem: &mut Vec<u8>) -> (c: u8)
        requires
            old(mem).len() == MEM_SIZE,
        ensures
            final(self).table@ == old(self).table@,
            final(self).instruction == old(self).instruction,
            final(self).input@ == old(self).input@,
            final(mem).len() == MEM_SIZE,
            sta_rel(old(self).instruction, old(self).st(old(mem)@), final(self).st(final(mem)@), c),
    {
        let addr = self.get_16(mem);
        vstd::pervasive::VecAdditionalExecFns::set(mem, addr as usize, self.regs.a);
        self.regs.pc = self.regs.pc.wrapping_add(3);
        13
    }

    fn lhld(&mut self, mem: &mut Vec<u8>) -> (c: u8)
        requires
            old(mem).len() == MEM_SIZE,
        ensures
            final(self).table@ == old(self).table@,
            final(self).instruction == old(self).instruction,
            final(self).input@ == old(self).input@,
            final(mem).len() == MEM_SIZE,
            lhld_rel(
                old(self).instruction,
                old(self).st(old(mem)@),
                final(self).st(final(mem)@),
                c,
            ),
    {
        let addr = self.get_16(mem);
        self.regs.l = mem[addr as usize];
        self.regs.h = mem[addr.wrapping_add(1) as usize];
        self.regs.pc = self.regs.pc.wrapping_add(3);
        16
    }

    fn shld(&mut self, mem: &mut Vec<u8>) -> (c: u8)
        requires
            old(mem).len() == MEM_SIZE,
        ensures
            final(self).table@ == old(self).table@,
            final(self).instruction == old(self).instruction,
            final(self).input@ == old(self).input@,
            final(mem).len() == MEM_SIZE,
            shld_rel(
                old(self).instruction,
                old(self).st(old(mem)@),
                final(self).st(final(mem)@),
                c,
            ),
    {
        let addr = self.get_16(mem);
        vstd::pervasive::VecAdditionalExecFns::set(mem, addr as usize, self.regs.l);
        vstd::pervasive::VecAdditionalExecFns::set(
            mem,
            addr.wrapping_add(1) as usize,
            self.regs.h,
        );
        self.regs.pc = self.regs.pc.wrapping_add(3);
        16
    }

    fn ldax(&mut self, mem: &mut Vec<u8>) -> (c: u8)
        requires
            old(mem).len() == MEM_SIZE,
        ensures
            final(self).table@ == old(self).table@,
            final(self).instruction == old(self).instruction,
            final(self).input@ == old(self).input@,
            final(mem).len() == MEM_SIZE,
            ldax_rel(
                old(self).instruction,
                old(self).st(old(mem)@),
                final(self).st(final(mem)@),
                c,
            ),
    {
        let addr = self.regs.get_rp(self.instruction);
        self.regs.a = mem[addr as usize];
        self.regs.pc = self.regs.pc.wrapping_add(1);
        7
    }

    fn stax(&mut self, mem: &mut Vec<u8>) -> (c: u8)
        requires
            old(mem).len() == MEM_SIZE,
        ensures
            final(self).table@ == old(self).table@,
            final(self).instruction == old(self).instruction,
            final(self).input@ == old(self).input@,
            final(mem).len() == MEM_SIZE,
            stax_rel(
                old(self).instruction,
                old(self).st(old(mem)@),
                final(self).st(final(mem)@),
                c,
            ),
    {
        let addr = self.regs.get_rp(self.instruction);
        vstd::pervasive::VecAdditionalExecFns::set(mem, addr as usize, self.regs.a);
        self.regs.pc = self.regs.pc.wrapping_add(1);
        7
    }

    fn xchg(&mut self) -> (c: u8)
        ensures
            final(self).table@ == old(self).table@,
            final(self).instruction == old(self).instruction,
            final(self).input@ == old(self).input@,
            forall|m: Seq<u8>| xchg_rel(
                old(self).instruction,
                old(self).st(m),
                final(self).st(m),
                c,
            ),
    {
        let h = self.regs.h;
        let l = self.regs.l;
        self.regs.h = self.regs.d;
        self.regs.l = self.regs.e;
        self.regs.d = h;
        self.regs.e = l;
        self.regs.pc = self.regs.pc.wrapping_add(1);
        5
    }

    fn add(&mut self, mem: &Vec<u8>) -> (c: u8)
        requires
            mem.len() == MEM_SIZE,
        ensures
            final(self).table@ == old(self).table@,
            final(self).instruction == old(self).instruction,
            final(self).input@ == old(self).input@,
            add_rel(old(self).instruction, old(self).st(mem@), final(self).st(mem@), c, 0),
    {
        let (s, idx) = self.regs.get_s(self.instruction, mem);
        let a = self.regs.a;
        let r = a.wrapping_add(s);
        let carry = (a as u16) + (s as u16) > 0xFF;
        let aux = ((a & 0xF) as u16) + ((s & 0xF) as u16) > 0xF;
        self.regs.f.set_flags(r, carry, aux);
        self.regs.a = r;
        self.regs.pc = self.regs.pc.wrapping_add(1);
        if idx == 6 {
            7
        } else {
            4
        }
    }

    fn adc(&mut self, mem: &Vec<u8>) -> (c: u8)
        requires
            mem.len() == MEM_SIZE,
        ensures
            final(self).table@ == old(self).table@,
            final(self).instruction == old(self).instruction,
            final(self).input@ == old(self).input@,
            add_rel(
                old(self).instruction,
                old(self).st(mem@),
                final(self).st(mem@),
                c,
                crate::sem::carry_in(old(self).regs.f.bits),
            ),
    {
        let cin: u8 = if self.regs.f.get_carry() {
            1
        } else {
            0
        };
        let (s, idx) = self.regs.get_s(self.instruction, mem);
        let a = self.regs.a;
        let r = a.wrapping_add(s).wrapping_add(cin);
        let carry = (a as u16) + (s as u16) + (cin as u16) > 0xFF;
        let aux = ((a & 0xF) as u16) + ((s & 0xF) as u16) + (cin as u16) > 0xF;
        self.regs.f.set_flags(r, carry, aux);
        self.regs.a = r;
        self.regs.pc = self.regs.pc.wrapping_add(1);
        if idx == 6 {
            7
        } else {
            4
        }
    }

    fn adi(&mut self, mem: &Vec<u8>) -> (c: u8)
        requires
            mem.len() == MEM_SIZE,
        ensures
            final(self).table@ == old(self).table@,
            final(self).instruction == old(self).instruction,
            final(self).input@ == old(self).input@,
            adi_rel(old(self).instruction, old(self).st(mem@), final(self).st(mem@), c, 0),
    {
        let s = mem[self.regs.pc.wrapping_add(1) as usize];
        let a = self.regs.a;
        let r = a.wrapping_add(s);
        let carry = (a as u16) + (s as u16) > 0xFF;
        let aux = ((a & 0xF) as u16) + ((s & 0xF) as u16) > 0xF;
        self.regs.f.set_flags(r, carry, aux);
        self.regs.a = r;
        self.regs.pc = self.regs.pc.wrapping_add(2);
        7
    }

    fn aci(&mut self, mem: &Vec<u8>) -> (c: u8)
        requires
            mem.len() == MEM_SIZE,
        ensures
            final(self).table@ == old(self).table@,
            final(self).instruction == old(self).instruction,
            final(self).input@ == old(self).input@,
            adi_rel(
                old(self).instruction,
                old(self).st(mem@),
                final(self).st(mem@),
                c,
                crate::sem::carry_in(old(self).regs.f.bits),
            ),
    {
        let cin: u8 = if self.regs.f.get_carry() {
            1
        } else {
            0
        };
        let s = mem[self.regs.pc.wrapping_add(1) as usize];
        let a = self.regs.a;
        let r = a.wrapping_add(s).wrapping_add(cin);
        let carry = (a as u16) + (s as u16) + (cin as u16) > 0xFF;
        let aux = ((a & 0xF) as u16) + ((s & 0xF) as u16) + (cin as u16) > 0xF;
        self.regs.f.set_flags(r, carry, aux);
        self.regs.a = r;
        self.regs.pc = self.regs.pc.wrapping_add(2);
        7
    }

    fn sub(&mut self, mem: &Vec<u8>) -> (c: u8)
        requires
            mem.len() == MEM_SIZE,
        ensures
            final(self).table@ == old(self).table@,
            final(self).instruction == old(self).instruction,
            final(self).input@ == old(self).input@,
            sub_rel(old(self).instruction, old(self).st(mem@), final(self).st(mem@), c, 0),
    {
        let (s, idx) = self.regs.get_s(self.instruction, mem);
        let a = self.regs.a;
        let r = a.wrapping_sub(s);
        let carry = a < s;
        let aux = (a & 0xF) < (s & 0xF);
        self.regs.f.set_flags(r, carry, aux);
        self.regs.a = r;
        self.regs.pc = self.regs.pc.wrapping_add(1);
        if idx == 6 {
            7
        } else {
            4
        }
    }

    fn sbb(&mut self, mem: &Vec<u8>) -> (c: u8)
        requires
            mem.len() == MEM_SIZE,
        ensures
            final(self).table@ == old(self).table@,
            final(self).instruction == old(self).instruction,
            final(self).input@ == old(self).input@,
            sub_rel(
                old(self).instruction,
                old(self).st(mem@),
                final(self).st(mem@),
                c,
                crate::sem::carry_in(old(self).regs.f.bits),
            ),
    {
        let cin: u8 = if self.regs.f.get_carry() {
            1
        } else {
            0
        };
        let (s, idx) = self.regs.get_s(self.instruction, mem);
        let a = self.regs.a;
        let r = a.wrapping_sub(s).wrapping_sub(cin);
        let carry = (a as u16) < (s as u16) + (cin as u16);
        let aux = ((a & 0xF) as u16) < ((s & 0xF) as u16) + (cin as u16);
        self.regs.f.set_flags(r, carry, aux);
        self.regs.a = r;
        self.regs.pc = self.regs.pc.wrapping_add(1);
        if idx == 6 {
            7
        } else {
            4
        }
    }

    fn sui(&mut self, mem: &Vec<u8>) -> (c: u8)
        requires
            mem.len() == MEM_SIZE,
        ensures
            final(self).table@ == old(self).table@,
            final(self).instruction == old(self).instruction,
            final(self).input@ == old(self).input@,
            sui_rel(old(self).instruction, old(self).st(mem@), final(self).st(mem@), c, 0),
    {
        let s = mem[self.regs.pc.wrapping_add(1) as usize];
        let a = self.regs.a;
        let r = a.wrapping_sub(s);
        let carry = a < s;
        let aux = (a & 0xF) < (s & 0xF);
        self.regs.f.set_flags(r, carry, aux);
        self.regs.a = r;
        self.regs.pc = self.regs.pc.wrapping_add(2);
        7
    }

    fn sbi(&mut self, mem: &Vec<u8>) -> (c: u8)
        requires
            mem.len() == MEM_SIZE,
        ensures
            final(self).table@ == old(self).table@,
            final(self).instruction == old(self).instruction,
            final(self).input@ == old(self).input@,
            sui_rel(
                old(self).instruction,
                old(self).st(mem@),
                final(self).st(mem@),
                c,
                crate::sem::carry_in(old(self).regs.f.bits),
            ),
    {
        let cin: u8 = if self.regs.f.get_carry() {
            1
        } else {
            0
        };
        let s = mem[self.regs.pc.wrapping_add(1) as usize];
        let a = self.regs.a;
        let r = a.wrapping_sub(s).wrapping_sub(cin);
        let carry = (a as u16) < (s as u16) + (cin as u16);
        let aux = ((a & 0xF) as u16) < ((s & 0xF) as u16) + (cin as u16);
        self.regs.f.set_flags(r, carry, aux);
        self.regs.a = r;
        self.regs.pc = self.regs.pc.wrapping_add(2);
        7
    }

    fn cmp(&mut self, mem: &Vec<u8>) -> (c: u8)
        requires
            mem.len() == MEM_SIZE,
        ensures
            final(self).table@ == old(self).table@,
            final(self).instruction == old(self).instruction,
            final(self).input@ == old(self).input@,
            cmp_rel(old(self).instruction, old(self).st(mem@), final(self).st(mem@), c),
    {
        let (s, idx) = self.regs.get_s(self.instruction, mem);
        let a = self.regs.a;
        let r = a.wrapping_sub(s);
        let carry = a < s;
        let aux = (a & 0xF) < (s & 0xF);
        self.regs.f.set_flags(r, carry, aux);
        self.regs.pc = self.regs.pc.wrapping_add(1);
        if idx == 6 {
            7
        } else {
            4
        }
    }

    fn cpi(&mut self, mem: &Vec<u8>) -> (c: u8)
        requires
            mem.len() == MEM_SIZE,
        ensures
            final(self).table@ == old(self).table@,
            final(self).instruction == old(self).instruction,
            final(self).input@ == old(self).input@,
            cpi_rel(old(self).instruction, old(self).st(mem@), final(self).st(mem@), c),
    {
        let s = mem[self.regs.pc.wrapping_add(1) as usize];
        let a = self.regs.a;
        let r = a.wrapping_sub(s);
        let carry = a < s;
        let aux = (a & 0xF) < (s & 0xF);
        self.regs.f.set_flags(r, carry, aux);
        self.regs.pc = self.regs.pc.wrapping_add(2);
        7
    }

    fn ana(&mut self, mem: &Vec<u8>) -> (c: u8)
        requires
            mem.len() == MEM_SIZE,
        ensures
            final(self).table@ == old(self).table@,
            final(self).instruction == old(self).instruction,
            final(self).input@ == old(self).input@,
            ana_rel(old(self).instruction, old(self).st(mem@), final(self).st(mem@), c),
    {
        let (s, idx) = self.regs.get_s(self.instruction, mem);
        let a = self.regs.a;
        let r = a & s;
        let aux = (a | s) & 0x08 == 0x08;
        self.regs.f.set_flags(r, false, aux);
        self.regs.a = r;
        self.regs.pc = self.regs.pc.wrapping_add(1);
        if idx == 6 {
            7
        } else {
            4
        }
    }

    fn ani(&mut self, mem: &Vec<u8>) -> (c: u8)
        requires
            mem.len() == MEM_SIZE,
        ensures
            final(self).table@ == old(self).table@,
            final(self).instruction == old(self).instruction,
            final(self).input@ == old(self).input@,
            ani_rel(old(self).instruction, old(self).st(mem@), final(self).st(mem@), c),
    {
        let s = mem[self.regs.pc.wrapping_add(1) as usize];
        let a = self.regs.a;
        let r = a & s;
        let aux = (a | s) & 0x08 == 0x08;
        self.regs.f.set_flags(r, false, aux);
        self.regs.a = r;
        self.regs.pc = self.regs.pc.wrapping_add(2);
        7
    }

    fn ora(&mut self, mem: &Vec<u8>) -> (c: u8)
        requires
            mem.len() == MEM_SIZE,
        ensures
            final(self).table@ == old(self).table@,
            final(self).instruction == old(self).instruction,
            final(self).input@ == old(self).input@,
            ora_rel(old(self).instruction, old(self).st(mem@), final(self).st(mem@), c),
    {
        let (s, idx) = self.regs.get_s(self.instruction, mem);
        let r = self.regs.a | s;
        self.regs.f.set_flags(r, false, false);
        self.regs.a = r;
        self.regs.pc = self.regs.pc.wrapping_add(1);
        if idx == 6 {
            7
        } else {
            4
        }
    }

    fn ori(&mut self, mem: &Vec<u8>) -> (c: u8)
        requires
            mem.len() == MEM_SIZE,
        ensures
            final(self).table@ == old(self).table@,
            final(self).instruction == old(self).instruction,
            final(self).input@ == old(self).input@,
            ori_rel(old(self).instruction, old(self).st(mem@), final(self).st(mem@), c),
    {
        let s = mem[self.regs.pc.wrapping_add(1) as usize];
        let r = self.regs.a | s;
        self.regs.f.set_flags(r, false, false);
        self.regs.a = r;
        self.regs.pc = self.regs.pc.wrapping_add(2);
        7
    }

    fn xra(&mut self, mem: &Vec<u8>) -> (c: u8)
        requires
            mem.len() == MEM_SIZE,
        ensures
            final(self).table@ == old(self).table@,
            final(self).instruction == old(self).instruction,
            final(self).input@ == old(self).input@,
            xra_rel(old(self).instruction, old(self).st(mem@), final(self).st(mem@), c),
    {
        let (s, idx) = self.regs.get_s(self.instruction, mem);
        let r = self.regs.a ^ s;
        self.regs.f.set_flags(r, false, false);
        self.regs.a = r;
        self.regs.pc = self.regs.pc.wrapping_add(1);
        if idx == 6 {
            7
        } else {
            4
        }
    }

    fn xri(&mut self, mem: &Vec<u8>) -> (c: u8)
        requires
            mem.len() == MEM_SIZE,
        ensures
            final(self).table@ == old(self).table@,
            final(self).instruction == old(self).instruction,
            final(self).input@ == old(self).input@,
            xri_rel(old(self).instruction, old(self).st(mem@), final(self).st(mem@), c),
    {
        let s = mem[self.regs.pc.wrapping_add(1) as usize];
        let r = self.regs.a ^ s;
        self.regs.f.set_flags(r, false, false);
        self.regs.a = r;
        self.regs.pc = self.regs.pc.wrapping_add(2);
        7
    }

    fn inr(&mut self, mem: &mut Vec<u8>) -> (c: u8)
        requires
            old(mem).len() == MEM_SIZE,
        ensures
            final(self).table@ == old(self).table@,
            final(self).instruction == old(self).instruction,
            final(self).input@ == old(self).input@,
            final(mem).len() == MEM_SIZE,
            inr_rel(old(self).instruction, old(self).st(old(mem)@), final(self).st(final(mem)@), c),
    {
        let (v, idx) = self.regs.get_d(self.instruction, mem);
        let r = v.wrapping_add(1);
        let aux = ((v & 0xF) as u16) + 1 > 0xF;
        let _ = self.regs.set_d(self.instruction, mem, r);
        self.regs.f.set_szp(r);
        self.regs.f.set_aux(aux);
        self.regs.pc = self.regs.pc.wrapping_add(1);
        if idx == 6 {
            10
        } else {
            5
        }
    }

    fn dcr(&mut self, mem: &mut Vec<u8>) -> (c: u8)
        requires
            old(mem).len() == MEM_SIZE,
        ensures
            final(self).table@ == old(self).table@,
            final(self).instruction == old(self).instruction,
            final(self).input@ == old(self).input@,
            final(mem).len() == MEM_SIZE,
            dcr_rel(old(self).instruction, old(self).st(old(mem)@), final(self).st(final(mem)@), c),
    {
        let (v, idx) = self.regs.get_d(self.instruction, mem);
        let r = v.wrapping_sub(1);
        let aux = v & 0xF == 0;
        let _ = self.regs.set_d(self.instruction, mem, r);
        self.regs.f.set_szp(r);
        self.regs.f.set_aux(aux);
        self.regs.pc = self.regs.pc.wrapping_add(1);
        if idx == 6 {
            10
        } else {
            5
        }
    }

    fn inx(&mut self) -> (c: u8)
        ensures
            final(self).table@ == old(self).table@,
            final(self).instruction == old(self).instruction,
            final(self).input@ == old(self).input@,
            forall|m: Seq<u8>| inx_rel(old(self).instruction, old(self).st(m), final(self).st(m), c),
    {
        let rp = self.regs.get_rp(self.instruction);
        self.regs.set_rp(rp.wrapping_add(1), self.instruction);
        self.regs.pc = self.regs.pc.wrapping_add(1);
        5
    }

    fn dcx(&mut self) -> (c: u8)
        ensures
            final(self).table@ == old(self).table@,
            final(self).instruction == old(self).instruction,
            final(self).input@ == old(self).input@,
            forall|m: Seq<u8>| dcx_rel(old(self).instruction, old(self).st(m), final(self).st(m), c),
    {
        let rp = self.regs.get_rp(self.instruction);
        self.regs.set_rp(rp.wrapping_sub(1), self.instruction);
        self.regs.pc = self.regs.pc.wrapping_add(1);
        5
    }

    fn dad(&mut self) -> (c: u8)
        ensures
            final(self).table@ == old(self).table@,
            final(self).instruction == old(self).instruction,
            final(self).input@ == old(self).input@,
            forall|m: Seq<u8>| dad_rel(old(self).instruction, old(self).st(m), final(self).st(m), c),
    {
        let rp = self.regs.get_rp(self.instruction);
        let hl = ((self.regs.h as u16) << 8) | (self.regs.l as u16);
        let sum = hl.wrapping_add(rp);
        let carry = (hl as u32) + (rp as u32) > 0xFFFF;
        self.regs.h = (sum >> 8) as u8;
        self.regs.l = sum as u8;
        self.regs.f.set_carry(carry);
        self.regs.pc = self.regs.pc.wrapping_add(1);
        10
    }

    fn daa(&mut self) -> (c: u8)
        ensures
            final(self).table@ == old(self).table@,
            final(self).instruction == old(self).instruction,
            final(self).input@ == old(self).input@,
            forall|m: Seq<u8>| daa_rel(old(self).instruction, old(self).st(m), final(self).st(m), c),
    {
        let a0 = self.regs.a;
        let aux0 = self.regs.f.get_aux();
        let carry0 = self.regs.f.get_carry();
        let adj_lo = (a0 & 0xF) > 9 || aux0;
        let a1 = if adj_lo {
            a0.wrapping_add(6)
        } else {
            a0
        };
        let aux1 = if adj_lo {
            ((a0 & 0xF) as u16) + 6 > 0xF
        } else {
            aux0
        };
        let adj_hi = (a1 & 0xF0) > 0x90 || carry0;
        let a2 = if adj_hi {
            a1.wrapping_add(0x60)
        } else {
            a1
        };
        let c2 = if adj_hi {
            (a1 as u16) + 0x60 > 0xFF
        } else {
            carry0
        };
        self.regs.f.set_flags(a2, c2, aux1);
        self.regs.a = a2;
        self.regs.pc = self.regs.pc.wrapping_add(1);
        4
    }

    fn rlc(&mut self) -> (c: u8)
        ensures
            final(self).table@ == old(self).table@,
            final(self).instruction == old(self).instruction,
            final(self).input@ == old(self).input@,
            forall|m: Seq<u8>| rlc_rel(old(self).instruction, old(self).st(m), final(self).st(m), c),
    {
        let a = self.regs.a;
        self.regs.a = (a << 1) | (a >> 7);
        self.regs.f.set_carry(a & 0x80 == 0x80);
        self.regs.pc = self.regs.pc.wrapping_add(1);
        4
    }

    fn rrc(&mut self) -> (c: u8)
        ensures
            final(self).table@ == old(self).table@,
            final(self).instruction == old(self).instruction,
            final(self).input@ == old(self).input@,
            forall|m: Seq<u8>| rrc_rel(old(self).instruction, old(self).st(m), final(self).st(m), c),
    {
        let a = self.regs.a;
        self.regs.a = (a >> 1) | (a << 7);
        self.regs.f.set_carry(a & 1 == 1);
        self.regs.pc = self.regs.pc.wrapping_add(1);
        4
    }

    fn ral(&mut self) -> (c: u8)
        ensures
            final(self).table@ == old(self).table@,
            final(self).instruction == old(self).instruction,
            final(self).input@ == old(self).input@,
            forall|m: Seq<u8>| ral_rel(old(self).instruction, old(self).st(m), final(self).st(m), c),
    {
        let a = self.regs.a;
        let cin: u8 = if self.regs.f.get_carry() {
            1
        } else {
            0
        };
        self.regs.a = (a << 1) | cin;
        self.regs.f.set_carry(a & 0x80 == 0x80);
        self.regs.pc = self.regs.pc.wrapping_add(1);
        4
    }

    fn rar(&mut self) -> (c: u8)
        ensures
            final(self).table@ == old(self).table@,
            final(self).instruction == old(self).instruction,
            final(self).input@ == old(self).input@,
            forall|m: Seq<u8>| rar_rel(old(self).instruction, old(self).st(m), final(self).st(m), c),
    {
        let a = self.regs.a;
        let cbit: u8 = if self.regs.f.get_carry() {
            0x80
        } else {
            0
        };
        self.regs.a = (a >> 1) | cbit;
        self.regs.f.set_carry(a & 1 == 1);
        self.regs.pc = self.regs.pc.wrapping_add(1);
        4
    }

    fn cma(&mut self) -> (c: u8)
        ensures
            final(self).table@ == old(self).table@,
            final(self).instruction == old(self).instruction,
            final(self).input@ == old(self).input@,
            forall|m: Seq<u8>| cma_rel(old(self).instruction, old(self).st(m), final(self).st(m), c),
    {
        self.regs.a = !self.regs.a;
        self.regs.pc = self.regs.pc.wrapping_add(1);
        4
    }

    fn cmc(&mut self) -> (c: u8)
        ensures
            final(self).table@ == old(self).table@,
            final(self).instruction == old(self).instruction,
            final(self).input@ == old(self).input@,
            forall|m: Seq<u8>| cmc_rel(old(self).instruction, old(self).st(m), final(self).st(m), c),
    {
        let v = !self.regs.f.get_carry();
        self.regs.f.set_carry(v);
        self.regs.pc = self.regs.pc.wrapping_add(1);
        4
    }

    fn stc(&mut self) -> (c: u8)
        ensures
            final(self).table@ == old(self).table@,
            final(self).instruction == old(self).instruction,
            final(self).input@ == old(self).input@,
            forall|m: Seq<u8>| stc_rel(old(self).instruction, old(self).st(m), final(self).st(m), c),
    {
        self.regs.f.set_carry(true);
        self.regs.pc = self.regs.pc.wrapping_add(1);
        4
    }

    fn jccc(&mut self, mem: &Vec<u8>) -> (c: u8)
        requires
            mem.len() == MEM_SIZE,
        ensures
            final(self).table@ == old(self).table@,
            final(self).instruction == old(self).instruction,
            final(self).input@ == old(self).input@,
            jcc_rel(old(self).instruction, old(self).st(mem@), final(self).st(mem@), c),
    {
        if self.regs.cond(self.instruction) {
            let addr = self.get_16(mem);
            self.regs.pc = addr;
        } else {
            self.regs.pc = self.regs.pc.wrapping_add(3);
        }
        10
    }

    fn call(&mut self, mem: &mut Vec<u8>) -> (c: u8)
        requires
            old(mem).len() == MEM_SIZE,
        ensures
            final(self).table@ == old(self).table@,
            final(self).instruction == old(self).instruction,
            final(self).input@ == old(self).input@,
            final(mem).len() == MEM_SIZE,
            call_rel(old(self).instruction, old(self).st(old(mem)@), final(self).st(final(mem)@), c),
    {
        let ret = self.regs.pc.wrapping_add(3);
        self.push_16(mem, ret);
        let addr = self.get_16(mem);
        self.regs.pc = addr;
        17
    }

    fn c_ccc(&mut self, mem: &mut Vec<u8>) -> (c: u8)
        requires
            old(mem).len() == MEM_SIZE,
        ensures
            final(self).table@ == old(self).table@,
            final(self).instruction == old(self).instruction,
            final(self).input@ == old(self).input@,
            final(mem).len() == MEM_SIZE,
            ccc_rel(old(self).instruction, old(self).st(old(mem)@), final(self).st(final(mem)@), c),
    {
        if self.regs.cond(self.instruction) {
            let ret = self.regs.pc.wrapping_add(3);
            self.push_16(mem, ret);
            let addr = self.get_16(mem);
            self.regs.pc = addr;
            17
        } else {
            self.regs.pc = self.regs.pc.wrapping_add(3);
            11
        }
    }

    /// Pop the return address off the stack into PC. Public so a host can
    /// also drive it directly.
    pub fn ret(&mut self, mem: &mut Vec<u8>) -> (c: u8)
        requires
            old(mem).len() == MEM_SIZE,
        ensures
            final(self).table@ == old(self).table@,
            final(self).instruction == old(self).instruction,
            final(self).input@ == old(self).input@,
            final(mem).len() == MEM_SIZE,
            ret_rel(old(self).instruction, old(self).st(old(mem)@), final(self).st(final(mem)@), c),
    {
        let addr = self.pop_16(mem);
        self.regs.pc = addr;
        10
    }

    fn r_ccc(&mut self, mem: &Vec<u8>) -> (c: u8)
        requires
            mem.len() == MEM_SIZE,
        ensures
            final(self).table@ == old(self).table@,
            final(self).instruction == old(self).instruction,
            final(self).input@ == old(self).input@,
            rcc_rel(old(self).instruction, old(self).st(mem@), final(self).st(mem@), c),
    {
        if self.regs.cond(self.instruction) {
            let addr = self.pop_16(mem);
            self.regs.pc = addr;
            11
        } else {
            self.regs.pc = self.regs.pc.wrapping_add(1);
            5
        }
    }

    /// Push the current PC and jump to the vector in bits 5:3 of the held
    /// instruction. Public: a host injects an interrupt by storing the RST
    /// opcode in `instruction` and calling this between steps.
    pub fn rst(&mut self, mem: &mut Vec<u8>) -> (c: u8)
        requires
            old(mem).len() == MEM_SIZE,
        ensures
            final(self).table@ == old(self).table@,
            final(self).instruction == old(self).instruction,
            final(self).input@ == old(self).input@,
            final(mem).len() == MEM_SIZE,
            rst_rel(old(self).instruction, old(self).st(old(mem)@), final(self).st(final(mem)@), c),
    {
        let pc = self.regs.pc;
        self.push_16(mem, pc);
        self.regs.pc = (self.instruction & 0x38) as u16;
        11
    }

    fn pchl(&mut self) -> (c: u8)
        ensures
            final(self).table@ == old(self).table@,
            final(self).instruction == old(self).instruction,
            final(self).input@ == old(self).input@,
            forall|m: Seq<u8>| pchl_rel(old(self).instruction, old(self).st(m), final(self).st(m), c),
    {
        self.regs.pc = ((self.regs.h as u16) << 8) | (self.regs.l as u16);
        5
    }

    fn push(&mut self, mem: &mut Vec<u8>) -> (c: u8)
        requires
            old(mem).len() == MEM_SIZE,
        ensures
            final(self).table@ == old(self).table@,
            final(self).instruction == old(self).instruction,
            final(self).input@ == old(self).input@,
            final(mem).len() == MEM_SIZE,
            push_rel(old(self).instruction, old(self).st(old(mem)@), final(self).st(final(mem)@), c),
    {
        let rp = self.regs.get_rp_psw(self.instruction);
        self.push_16(mem, rp);
        self.regs.pc = self.regs.pc.wrapping_add(1);
        11
    }

    fn pop(&mut self, mem: &Vec<u8>) -> (c: u8)
        requires
            mem.len() == MEM_SIZE,
        ensures
            final(self).table@ == old(self).table@,
            final(self).instruction == old(self).instruction,
            final(self).input@ == old(self).input@,
            pop_rel(old(self).instruction, old(self).st(mem@), final(self).st(mem@), c),
    {
        proof {
            crate::regs::lemma_rp_code_range(self.instruction);
        }
        let v = self.pop_16(mem);
        self.regs.set_rp_psw(v, self.instruction);
        self.regs.pc = self.regs.pc.wrapping_add(1);
        10
    }

    fn xthl(&mut self, mem: &mut Vec<u8>) -> (c: u8)
        requires
            old(mem).len() == MEM_SIZE,
        ensures
            final(self).table@ == old(self).table@,
            final(self).instruction == old(self).instruction,
            final(self).input@ == old(self).input@,
            final(mem).len() == MEM_SIZE,
            xthl_rel(old(self).instruction, old(self).st(old(mem)@), final(self).st(final(mem)@), c),
    {
        let l = self.regs.l;
        let h = self.regs.h;
        let sp = self.regs.sp;
        self.regs.l = mem[sp as usize];
        self.regs.h = mem[sp.wrapping_add(1) as usize];
        vstd::pervasive::VecAdditionalExecFns::set(mem, sp as usize, l);
        vstd::pervasive::VecAdditionalExecFns::set(mem, sp.wrapping_add(1) as usize, h);
        self.regs.pc = self.regs.pc.wrapping_add(1);
        18
    }

    fn sphl(&mut self) -> (c: u8)
        ensures
            final(self).table@ == old(self).table@,
            final(self).instruction == old(self).instruction,
            final(self).input@ == old(self).input@,
            forall|m: Seq<u8>| sphl_rel(old(self).instruction, old(self).st(m), final(self).st(m), c),
    {
        self.regs.sp = ((self.regs.h as u16) << 8) | (self.regs.l as u16);
        self.regs.pc = self.regs.pc.wrapping_add(1);
        5
    }

    fn in_op(&mut self, mem: &Vec<u8>) -> (c: u8)
        requires
            mem.len() == MEM_SIZE,
            old(self).input@.len() == 256,
        ensures
            final(self).table@ == old(self).table@,
            final(self).instruction == old(self).instruction,
            final(self).input@ == old(self).input@,
            in_rel(old(self).instruction, old(self).st(mem@), final(self).st(mem@), c),
    {
        let port = mem[self.regs.pc.wrapping_add(1) as usize];
        let v = self.input[port as usize];
        self.regs.a = v;
        self.regs.pc = self.regs.pc.wrapping_add(2);
        10
    }

    fn out(&mut self, mem: &Vec<u8>) -> (c: u8)
        requires
            mem.len() == MEM_SIZE,
        ensures
            final(self).table@ == old(self).table@,
            final(self).instruction == old(self).instruction,
            final(self).input@ == old(self).input@,
            crate::sem::out_rel(old(self).instruction, old(self).st(mem@), final(self).st(mem@), c),
    {
        let port = mem[self.regs.pc.wrapping_add(1) as usize];
        self.out_strobe = (true, port, self.regs.a);
        self.regs.pc = self.regs.pc.wrapping_add(2);
        10
    }

    fn ei(&mut self) -> (c: u8)
        ensures
            final(self).table@ == old(self).table@,
            final(self).instruction == old(self).instruction,
            final(self).input@ == old(self).input@,
            forall|m: Seq<u8>| ei_rel(
                old(self).instruction,
                old(self).st(m),
                final(self).st(m),
                c,
                true,
            ),
    {
        self.interrupt_enabled = true;
        self.regs.pc = self.regs.pc.wrapping_add(1);
        4
    }

    fn di(&mut self) -> (c: u8)
        ensures
            final(self).table@ == old(self).table@,
            final(self).instruction == old(self).instruction,
            final(self).input@ == old(self).input@,
            forall|m: Seq<u8>| ei_rel(
                old(self).instruction,
                old(self).st(m),
                final(self).st(m),
                c,
                false,
            ),
    {
        self.interrupt_enabled = false;
        self.regs.pc = self.regs.pc.wrapping_add(1);
        4
    }

    fn hlt(&mut self)
        ensures
            final(self).table@ == old(self).table@,
            final(self).instruction == old(self).instruction,
            final(self).input@ == old(self).input@,
            forall|m: Seq<u8>| hlt_rel(old(self).st(m), final(self).st(m)),
    {
        self.regs.pc = self.regs.pc.wrapping_add(1);
    }

    /// Execute one instruction: fetch the opcode at PC, look it up in the
    /// dispatch table, run the handler. Returns the elapsed cycle count, or
    /// the HALTED signal for HLT. The dispatch table is complete, so the
    /// decoder-bug signal is never returned.
    pub fn next(&mut self, mem: &mut Vec<u8>) -> (out: StepResult)
        requires
            old(self).wf(),
            old(mem).len() == MEM_SIZE,
        ensures
            final(self).wf(),
            final(mem).len() == MEM_SIZE,
            final(self).instruction == old(mem)@[old(self).regs.pc as int],
            step_rel(
                old(mem)@[old(self).regs.pc as int],
                old(self).st(old(mem)@),
                final(self).st(final(mem)@),
                out,
            ),
            out != StepResult::DecoderBug,
    {
        let op = mem[self.regs.pc as usize];
        self.instruction = op;
        let kind = self.table[op as usize];
        proof {
            lemma_decode_complete(op);
        }
        match kind {
            Kind::Mov => StepResult::Ran(self.mov(mem)),
            Kind::Mvi => StepResult::Ran(self.mvi(mem)),
            Kind::Lxi => StepResult::Ran(self.lxi(mem)),
            Kind::Ldax => StepResult::Ran(self.ldax(mem)),
            Kind::Stax => StepResult::Ran(self.stax(mem)),
            Kind::Lda => StepResult::Ran(self.lda(mem)),
            Kind::Sta => StepResult::Ran(self.sda(mem)),
            Kind::Lhld => StepResult::Ran(self.lhld(mem)),
            Kind::Shld => StepResult::Ran(self.shld(mem)),
            Kind::Xchg => StepResult::Ran(self.xchg()),
            Kind::Add => StepResult::Ran(self.add(mem)),
            Kind::Adi => StepResult::Ran(self.adi(mem)),
            Kind::Adc => StepResult::Ran(self.adc(mem)),
            Kind::Aci => StepResult::Ran(self.aci(mem)),
            Kind::Sub => StepResult::Ran(self.sub(mem)),
            Kind::Sui => StepResult::Ran(self.sui(mem)),
            Kind::Sbb => StepResult::Ran(self.sbb(mem)),
            Kind::Sbi => StepResult::Ran(self.sbi(mem)),
            Kind::Inr => StepResult::Ran(self.inr(mem)),
            Kind::Dcr => StepResult::Ran(self.dcr(mem)),
            Kind::Inx => StepResult::Ran(self.inx()),
            Kind::Dcx => StepResult::Ran(self.dcx()),
            Kind::Dad => StepResult::Ran(self.dad()),
            Kind::Daa => StepResult::Ran(self.daa()),
            Kind::Ana => StepResult::Ran(self.ana(mem)),
            Kind::Ani => StepResult::Ran(self.ani(mem)),
            Kind::Ora => StepResult::Ran(self.ora(mem)),
            Kind::Ori => StepResult::Ran(self.ori(mem)),
            Kind::Xra => StepResult::Ran(self.xra(mem)),
            Kind::Xri => StepResult::Ran(self.xri(mem)),
            Kind::Cmp => StepResult::Ran(self.cmp(mem)),
            Kind::Cpi => StepResult::Ran(self.cpi(mem)),
            Kind::Rlc => StepResult::Ran(self.rlc()),
            Kind::Rrc => StepResult::Ran(self.rrc()),
            Kind::Ral => StepResult::Ran(self.ral()),
            Kind::Rar => StepResult::Ran(self.rar()),
            Kind::Cma => StepResult::Ran(self.cma()),
            Kind::Cmc => StepResult::Ran(self.cmc()),
            Kind::Stc => StepResult::Ran(self.stc()),
            Kind::Jmp => StepResult::Ran(self.jmp(mem)),
            Kind::Jcc => StepResult::Ran(self.jccc(mem)),
            Kind::Call => StepResult::Ran(self.call(mem)),
            Kind::Ccc => StepResult::Ran(self.c_ccc(mem)),
            Kind::Ret => StepResult::Ran(self.ret(mem)),
            Kind::Rcc => StepResult::Ran(self.r_ccc(mem)),
            Kind::Rst => StepResult::Ran(self.rst(mem)),
            Kind::Pchl => StepResult::Ran(self.pchl()),
            Kind::Push => StepResult::Ran(self.push(mem)),
            Kind::Pop => StepResult::Ran(self.pop(mem)),
            Kind::Xthl => StepResult::Ran(self.xthl(mem)),
            Kind::Sphl => StepResult::Ran(self.sphl()),
            Kind::In => StepResult::Ran(self.in_op(mem)),
            Kind::Out => StepResult::Ran(self.out(mem)),
            Kind::Ei => StepResult::Ran(self.ei()),
            Kind::Di => StepResult::Ran(self.di()),
            Kind::Hlt => {
                self.hlt();
                StepResult::Halted
            },
            Kind::Nop => StepResult::Ran(self.nop()),
            Kind::Fault => StepResult::DecoderBug,
        }
    }
}

} // verus!
