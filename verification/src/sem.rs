//! Instruction semantics: for every handler kind, a relation between the
//! machine state before and after the instruction, the opcode, and the cycle
//! count. The public contract of `CPU::next` states that each step satisfies
//! the relation the decoded opcode selects.

use vstd::prelude::*;

use crate::decode::{spec_decode, Kind};
use crate::flags::{arith_flags, f_aux, f_carry, set_bit, szpa_flags, Flags, F_CARRY};
use crate::regs::{
    dst_code, hi8, lo8, spec_cond, spec_get_rp, spec_get_rp_psw, spec_reg8, spec_set_reg8,
    spec_set_rp, spec_set_rp_psw, src_code, to16, Registers,
};

verus! {

/// What one `next` call reports: the instruction ran and took the given
/// number of cycles, the processor executed HLT, or an opcode reached the
/// fault entry of the dispatch table (a decoder bug; proven unreachable).
#[derive(Clone, Copy, Debug, PartialEq, Eq, Structural)]
pub enum StepResult {
    Ran(u8),
    Halted,
    DecoderBug,
}

/// The whole machine state an instruction can read or write: the register
/// file, the 64 KiB memory, the input-port array, the out-strobe and the
/// interrupt-enable flag.
pub ghost struct St {
    pub regs: Registers,
    pub mem: Seq<u8>,
    pub input: Seq<u8>,
    pub strobe: (bool, u8, u8),
    pub ie: bool,
}

/// The input ports, the out-strobe and the interrupt-enable flag are
/// untouched.
pub open spec fn env_same(pre: St, post: St) -> bool {
    post.input == pre.input && post.strobe == pre.strobe && post.ie == pre.ie
}

/// The little-endian 16-bit word in memory at `addr` (the high byte's address
/// wraps).
pub open spec fn word_at(m: Seq<u8>, addr: u16) -> u16 {
    to16(m[addr.wrapping_add(1) as int], m[addr as int])
}

/// The immediate word following the opcode at `pc`.
pub open spec fn imm16(m: Seq<u8>, pc: u16) -> u16 {
    to16(m[pc.wrapping_add(2) as int], m[pc.wrapping_add(1) as int])
}

/// The immediate byte following the opcode at `pc`.
pub open spec fn imm8(m: Seq<u8>, pc: u16) -> u8 {
    m[pc.wrapping_add(1) as int]
}

/// Cycle count of an instruction whose cost rises when the register selector
/// resolved to the M pseudo-register (code 6).
pub open spec fn m_cyc(code: u8, with_m: u8, without_m: u8) -> u8 {
    if code == 6 {
        with_m
    } else {
        without_m
    }
}

/// Post state of an instruction that only rewrites A and the flag byte and
/// advances PC by `d`.
pub open spec fn acc_post(pre: St, post: St, a: u8, f: u8, d: u16) -> bool {
    &&& post.regs == (Registers {
        a,
        f: Flags { bits: f },
        pc: pre.regs.pc.wrapping_add(d),
        ..pre.regs
    })
    &&& post.mem == pre.mem
    &&& env_same(pre, post)
}

/// Post state of an instruction that only sets PC (branches).
pub open spec fn jump_post(pre: St, post: St, pc: u16) -> bool {
    &&& post.regs == (Registers { pc, ..pre.regs })
    &&& post.mem == pre.mem
    &&& env_same(pre, post)
}

/// Memory after a 16-bit stack push: high byte at SP-1, low byte at SP-2
/// (wrapping).
pub open spec fn pushed_mem(m: Seq<u8>, sp: u16, v: u16) -> Seq<u8> {
    m.update(sp.wrapping_sub(1) as int, hi8(v)).update(sp.wrapping_sub(2) as int, lo8(v))
}

/// A + s + cin, wrapping.
pub open spec fn add_exec(a: u8, s: u8, cin: u8) -> u8 {
    a.wrapping_add(s).wrapping_add(cin)
}

/// Flags after an addition: Carry from bit 7, Auxiliary carry from bit 3.
pub open spec fn add_flags(f: u8, a: u8, s: u8, cin: u8) -> u8 {
    arith_flags(f, add_exec(a, s, cin), a + s + cin > 0xFF, (a & 0xF) + (s & 0xF) + cin > 0xF)
}

/// A - s - cin, wrapping.
pub open spec fn sub_exec(a: u8, s: u8, cin: u8) -> u8 {
    a.wrapping_sub(s).wrapping_sub(cin)
}

/// Flags after a subtraction: Carry records the borrow, Auxiliary carry the
/// low-nibble borrow.
pub open spec fn sub_flags(f: u8, a: u8, s: u8, cin: u8) -> u8 {
    arith_flags(f, sub_exec(a, s, cin), a < s + cin, (a & 0xF) < (s & 0xF) + cin)
}

/// The carry flag as an operand: 1 when set, 0 when clear.
pub open spec fn carry_in(f: u8) -> u8 {
    if f_carry(f) {
        1u8
    } else {
        0u8
    }
}

/// Flags after AND: Carry cleared, Auxiliary carry from bit 3 of the OR of
/// the operands (the documented 8080 rule).
pub open spec fn and_flags(f: u8, a: u8, s: u8) -> u8 {
    arith_flags(f, a & s, false, (a | s) & 0x08 == 0x08)
}

/// Flags after OR/XOR: Carry and Auxiliary carry cleared.
pub open spec fn or_flags(f: u8, r: u8) -> u8 {
    arith_flags(f, r, false, false)
}

pub open spec fn mov_rel(op: u8, pre: St, post: St, cyc: u8) -> bool {
    let sc = src_code(op);
    let dc = dst_code(op);
    let v = spec_reg8(pre.regs, pre.mem, sc);
    let rm = spec_set_reg8(pre.regs, pre.mem, dc, v);
    &&& post.regs == (Registers { pc: rm.0.pc.wrapping_add(1), ..rm.0 })
    &&& post.mem == rm.1
    &&& env_same(pre, post)
    &&& cyc == (if sc == 6 || dc == 6 {
        7u8
    } else {
        5u8
    })
}

pub open spec fn mvi_rel(op: u8, pre: St, post: St, cyc: u8) -> bool {
    let dc = dst_code(op);
    let v = imm8(pre.mem, pre.regs.pc);
    let rm = spec_set_reg8(pre.regs, pre.mem, dc, v);
    &&& post.regs == (Registers { pc: rm.0.pc.wrapping_add(2), ..rm.0 })
    &&& post.mem == rm.1
    &&& env_same(pre, post)
    &&& cyc == m_cyc(dc, 10, 7)
}

pub open spec fn lxi_rel(op: u8, pre: St, post: St, cyc: u8) -> bool {
    let r1 = spec_set_rp(pre.regs, imm16(pre.mem, pre.regs.pc), op);
    &&& post.regs == (Registers { pc: r1.pc.wrapping_add(3), ..r1 })
    &&& post.mem == pre.mem
    &&& env_same(pre, post)
    &&& cyc == 10
}

pub open spec fn lda_rel(op: u8, pre: St, post: St, cyc: u8) -> bool {
    let addr = imm16(pre.mem, pre.regs.pc);
    &&& post.regs == (Registers {
        a: pre.mem[addr as int],
        pc: pre.regs.pc.wrapping_add(3),
        ..pre.regs
    })
    &&& post.mem == pre.mem
    &&& env_same(pre, post)
    &&& cyc == 13
}

pub open spec fn sta_rel(op: u8, pre: St, post: St, cyc: u8) -> bool {
    let addr = imm16(pre.mem, pre.regs.pc);
    &&& post.regs == (Registers { pc: pre.regs.pc.wrapping_add(3), ..pre.regs })
    &&& post.mem == pre.mem.update(addr as int, pre.regs.a)
    &&& env_same(pre, post)
    &&& cyc == 13
}

pub open spec fn lhld_rel(op: u8, pre: St, post: St, cyc: u8) -> bool {
    let addr = imm16(pre.mem, pre.regs.pc);
    &&& post.regs == (Registers {
        l: pre.mem[addr as int],
        h: pre.mem[addr.wrapping_add(1) as int],
        pc: pre.regs.pc.wrapping_add(3),
        ..pre.regs
    })
    &&& post.mem == pre.mem
    &&& env_same(pre, post)
    &&& cyc == 16
}

pub open spec fn shld_rel(op: u8, pre: St, post: St, cyc: u8) -> bool {
    let addr = imm16(pre.mem, pre.regs.pc);
    &&& post.regs == (Registers { pc: pre.regs.pc.wrapping_add(3), ..pre.regs })
    &&& post.mem == pre.mem.update(addr as int, pre.regs.l).update(
        addr.wrapping_add(1) as int,
        pre.regs.h,
    )
    &&& env_same(pre, post)
    &&& cyc == 16
}

pub open spec fn ldax_rel(op: u8, pre: St, post: St, cyc: u8) -> bool {
    let addr = spec_get_rp(pre.regs, op);
    &&& post.regs == (Registers {
        a: pre.mem[addr as int],
        pc: pre.regs.pc.wrapping_add(1),
        ..pre.regs
    })
    &&& post.mem == pre.mem
    &&& env_same(pre, post)
    &&& cyc == 7
}

pub open spec fn stax_rel(op: u8, pre: St, post: St, cyc: u8) -> bool {
    let addr = spec_get_rp(pre.regs, op);
    &&& post.regs == (Registers { pc: pre.regs.pc.wrapping_add(1), ..pre.regs })
    &&& post.mem == pre.mem.update(addr as int, pre.regs.a)
    &&& env_same(pre, post)
    &&& cyc == 7
}

pub open spec fn xchg_rel(op: u8, pre: St, post: St, cyc: u8) -> bool {
    &&& post.regs == (Registers {
        h: pre.regs.d,
        l: pre.regs.e,
        d: pre.regs.h,
        e: pre.regs.l,
        pc: pre.regs.pc.wrapping_add(1),
        ..pre.regs
    })
    &&& post.mem == pre.mem
    &&& env_same(pre, post)
    &&& cyc == 5
}

pub open spec fn add_rel(op: u8, pre: St, post: St, cyc: u8, cin: u8) -> bool {
    let sc = src_code(op);
    let s = spec_reg8(pre.regs, pre.mem, sc);
    let f = pre.regs.f.bits;
    &&& acc_post(pre, post, add_exec(pre.regs.a, s, cin), add_flags(f, pre.regs.a, s, cin), 1)
    &&& cyc == m_cyc(sc, 7, 4)
}

pub open spec fn adi_rel(op: u8, pre: St, post: St, cyc: u8, cin: u8) -> bool {
    let s = imm8(pre.mem, pre.regs.pc);
    let f = pre.regs.f.bits;
    &&& acc_post(pre, post, add_exec(pre.regs.a, s, cin), add_flags(f, pre.regs.a, s, cin), 2)
    &&& cyc == 7
}

pub open spec fn sub_rel(op: u8, pre: St, post: St, cyc: u8, cin: u8) -> bool {
    let sc = src_code(op);
    let s = spec_reg8(pre.regs, pre.mem, sc);
    let f = pre.regs.f.bits;
    &&& acc_post(pre, post, sub_exec(pre.regs.a, s, cin), sub_flags(f, pre.regs.a, s, cin), 1)
    &&& cyc == m_cyc(sc, 7, 4)
}

pub open spec fn sui_rel(op: u8, pre: St, post: St, cyc: u8, cin: u8) -> bool {
    let s = imm8(pre.mem, pre.regs.pc);
    let f = pre.regs.f.bits;
    &&& acc_post(pre, post, sub_exec(pre.regs.a, s, cin), sub_flags(f, pre.regs.a, s, cin), 2)
    &&& cyc == 7
}

pub open spec fn cmp_rel(op: u8, pre: St, post: St, cyc: u8) -> bool {
    let sc = src_code(op);
    let s = spec_reg8(pre.regs, pre.mem, sc);
    let f = pre.regs.f.bits;
    &&& acc_post(pre, post, pre.regs.a, sub_flags(f, pre.regs.a, s, 0), 1)
    &&& cyc == m_cyc(sc, 7, 4)
}

pub open spec fn cpi_rel(op: u8, pre: St, post: St, cyc: u8) -> bool {
    let s = imm8(pre.mem, pre.regs.pc);
    let f = pre.regs.f.bits;
    &&& acc_post(pre, post, pre.regs.a, sub_flags(f, pre.regs.a, s, 0), 2)
    &&& cyc == 7
}

pub open spec fn ana_rel(op: u8, pre: St, post: St, cyc: u8) -> bool {
    let sc = src_code(op);
    let s = spec_reg8(pre.regs, pre.mem, sc);
    &&& acc_post(pre, post, pre.regs.a & s, and_flags(pre.regs.f.bits, pre.regs.a, s), 1)
    &&& cyc == m_cyc(sc, 7, 4)
}

pub open spec fn ani_rel(op: u8, pre: St, post: St, cyc: u8) -> bool {
    let s = imm8(pre.mem, pre.regs.pc);
    &&& acc_post(pre, post, pre.regs.a & s, and_flags(pre.regs.f.bits, pre.regs.a, s), 2)
    &&& cyc == 7
}

pub open spec fn ora_rel(op: u8, pre: St, post: St, cyc: u8) -> bool {
    let sc = src_code(op);
    let s = spec_reg8(pre.regs, pre.mem, sc);
    &&& acc_post(pre, post, pre.regs.a | s, or_flags(pre.regs.f.bits, pre.regs.a | s), 1)
    &&& cyc == m_cyc(sc, 7, 4)
}

pub open spec fn ori_rel(op: u8, pre: St, post: St, cyc: u8) -> bool {
    let s = imm8(pre.mem, pre.regs.pc);
    &&& acc_post(pre, post, pre.regs.a | s, or_flags(pre.regs.f.bits, pre.regs.a | s), 2)
    &&& cyc == 7
}

pub open spec fn xra_rel(op: u8, pre: St, post: St, cyc: u8) -> bool {
    let sc = src_code(op);
    let s = spec_reg8(pre.regs, pre.mem, sc);
    &&& acc_post(pre, post, pre.regs.a ^ s, or_flags(pre.regs.f.bits, pre.regs.a ^ s), 1)
    &&& cyc == m_cyc(sc, 7, 4)
}

pub open spec fn xri_rel(op: u8, pre: St, post: St, cyc: u8) -> bool {
    let s = imm8(pre.mem, pre.regs.pc);
    &&& acc_post(pre, post, pre.regs.a ^ s, or_flags(pre.regs.f.bits, pre.regs.a ^ s), 2)
    &&& cyc == 7
}

pub open spec fn inr_rel(op: u8, pre: St, post: St, cyc: u8) -> bool {
    let dc = dst_code(op);
    let v = spec_reg8(pre.regs, pre.mem, dc);
    let r = v.wrapping_add(1);
    let rm = spec_set_reg8(pre.regs, pre.mem, dc, r);
    let f1 = szpa_flags(pre.regs.f.bits, r, (v & 0xF) + 1 > 0xF);
    &&& post.regs == (Registers { f: Flags { bits: f1 }, pc: rm.0.pc.wrapping_add(1), ..rm.0 })
    &&& post.mem == rm.1
    &&& env_same(pre, post)
    &&& cyc == m_cyc(dc, 10, 5)
}

pub open spec fn dcr_rel(op: u8, pre: St, post: St, cyc: u8) -> bool {
    let dc = dst_code(op);
    let v = spec_reg8(pre.regs, pre.mem, dc);
    let r = v.wrapping_sub(1);
    let rm = spec_set_reg8(pre.regs, pre.mem, dc, r);
    let f1 = szpa_flags(pre.regs.f.bits, r, v & 0xF == 0);
    &&& post.regs == (Registers { f: Flags { bits: f1 }, pc: rm.0.pc.wrapping_add(1), ..rm.0 })
    &&& post.mem == rm.1
    &&& env_same(pre, post)
    &&& cyc == m_cyc(dc, 10, 5)
}

pub open spec fn inx_rel(op: u8, pre: St, post: St, cyc: u8) -> bool {
    let r1 = spec_set_rp(pre.regs, spec_get_rp(pre.regs, op).wrapping_add(1), op);
    &&& post.regs == (Registers { pc: r1.pc.wrapping_add(1), ..r1 })
    &&& post.mem == pre.mem
    &&& env_same(pre, post)
    &&& cyc == 5
}

pub open spec fn dcx_rel(op: u8, pre: St, post: St, cyc: u8) -> bool {
    let r1 = spec_set_rp(pre.regs, spec_get_rp(pre.regs, op).wrapping_sub(1), op);
    &&& post.regs == (Registers { pc: r1.pc.wrapping_add(1), ..r1 })
    &&& post.mem == pre.mem
    &&& env_same(pre, post)
    &&& cyc == 5
}

pub open spec fn dad_rel(op: u8, pre: St, post: St, cyc: u8) -> bool {
    let hl = to16(pre.regs.h, pre.regs.l);
    let rp = spec_get_rp(pre.regs, op);
    let sum = hl.wrapping_add(rp);
    &&& post.regs == (Registers {
        h: hi8(sum),
        l: lo8(sum),
        f: Flags { bits: set_bit(pre.regs.f.bits, F_CARRY, hl + rp > 0xFFFF) },
        pc: pre.regs.pc.wrapping_add(1),
        ..pre.regs
    })
    &&& post.mem == pre.mem
    &&& env_same(pre, post)
    &&& cyc == 10
}

pub open spec fn daa_rel(op: u8, pre: St, post: St, cyc: u8) -> bool {
    let a0 = pre.regs.a;
    let f0 = pre.regs.f.bits;
    let adj_lo = (a0 & 0xF) > 9 || f_aux(f0);
    let a1 = if adj_lo {
        a0.wrapping_add(6)
    } else {
        a0
    };
    let aux1 = if adj_lo {
        (a0 & 0xF) + 6 > 0xF
    } else {
        f_aux(f0)
    };
    let adj_hi = (a1 & 0xF0) > 0x90 || f_carry(f0);
    let a2 = if adj_hi {
        a1.wrapping_add(0x60)
    } else {
        a1
    };
    let c2 = if adj_hi {
        a1 + 0x60 > 0xFF
    } else {
        f_carry(f0)
    };
    &&& acc_post(pre, post, a2, arith_flags(f0, a2, c2, aux1), 1)
    &&& cyc == 4
}

pub open spec fn rlc_rel(op: u8, pre: St, post: St, cyc: u8) -> bool {
    let a = pre.regs.a;
    let f1 = set_bit(pre.regs.f.bits, F_CARRY, a & 0x80 == 0x80);
    &&& acc_post(pre, post, (a << 1) | (a >> 7), f1, 1)
    &&& cyc == 4
}

pub open spec fn rrc_rel(op: u8, pre: St, post: St, cyc: u8) -> bool {
    let a = pre.regs.a;
    let f1 = set_bit(pre.regs.f.bits, F_CARRY, a & 1 == 1);
    &&& acc_post(pre, post, (a >> 1) | (a << 7), f1, 1)
    &&& cyc == 4
}

/// RAL rotates left through the carry: the old carry flag enters bit 0 and
/// the old bit 7 leaves into the carry.
pub open spec fn ral_rel(op: u8, pre: St, post: St, cyc: u8) -> bool {
    let a = pre.regs.a;
    let f = pre.regs.f.bits;
    let f1 = set_bit(f, F_CARRY, a & 0x80 == 0x80);
    &&& acc_post(pre, post, (a << 1) | carry_in(f), f1, 1)
    &&& cyc == 4
}

/// RAR rotates right through the carry: the old carry flag enters bit 7 (no
/// sign extension) and the old bit 0 leaves into the carry.
pub open spec fn rar_rel(op: u8, pre: St, post: St, cyc: u8) -> bool {
    let a = pre.regs.a;
    let f = pre.regs.f.bits;
    let f1 = set_bit(f, F_CARRY, a & 1 == 1);
    let cbit = if f_carry(f) {
        0x80u8
    } else {
        0u8
    };
    &&& acc_post(pre, post, (a >> 1) | cbit, f1, 1)
    &&& cyc == 4
}

pub open spec fn cma_rel(op: u8, pre: St, post: St, cyc: u8) -> bool {
    &&& acc_post(pre, post, !pre.regs.a, pre.regs.f.bits, 1)
    &&& cyc == 4
}

pub open spec fn cmc_rel(op: u8, pre: St, post: St, cyc: u8) -> bool {
    let f = pre.regs.f.bits;
    &&& acc_post(pre, post, pre.regs.a, set_bit(f, F_CARRY, !f_carry(f)), 1)
    &&& cyc == 4
}

pub open spec fn stc_rel(op: u8, pre: St, post: St, cyc: u8) -> bool {
    &&& acc_post(pre, post, pre.regs.a, set_bit(pre.regs.f.bits, F_CARRY, true), 1)
    &&& cyc == 4
}

pub open spec fn jmp_rel(op: u8, pre: St, post: St, cyc: u8) -> bool {
    &&& jump_post(pre, post, imm16(pre.mem, pre.regs.pc))
    &&& cyc == 10
}

pub open spec fn jcc_rel(op: u8, pre: St, post: St, cyc: u8) -> bool {
    &&& (if spec_cond(pre.regs.f.bits, op) {
        jump_post(pre, post, imm16(pre.mem, pre.regs.pc))
    } else {
        jump_post(pre, post, pre.regs.pc.wrapping_add(3))
    })
    &&& cyc == 10
}

/// Common body of CALL and a taken conditional call: push the address of the
/// instruction's successor, then jump to the immediate word, which is read
/// from memory after the push.
pub open spec fn call_post(pre: St, post: St) -> bool {
    let ret = pre.regs.pc.wrapping_add(3);
    let m1 = pushed_mem(pre.mem, pre.regs.sp, ret);
    &&& post.mem == m1
    &&& post.regs == (Registers {
        pc: imm16(m1, pre.regs.pc),
        sp: pre.regs.sp.wrapping_sub(2),
        ..pre.regs
    })
    &&& env_same(pre, post)
}

pub open spec fn call_rel(op: u8, pre: St, post: St, cyc: u8) -> bool {
    &&& call_post(pre, post)
    &&& cyc == 17
}

pub open spec fn ccc_rel(op: u8, pre: St, post: St, cyc: u8) -> bool {
    if spec_cond(pre.regs.f.bits, op) {
        &&& call_post(pre, post)
        &&& cyc == 17
    } else {
        &&& jump_post(pre, post, pre.regs.pc.wrapping_add(3))
        &&& cyc == 11
    }
}

/// Common body of RET and a taken conditional return: pop PC off the stack.
pub open spec fn ret_post(pre: St, post: St) -> bool {
    &&& post.regs == (Registers {
        pc: word_at(pre.mem, pre.regs.sp),
        sp: pre.regs.sp.wrapping_add(2),
        ..pre.regs
    })
    &&& post.mem == pre.mem
    &&& env_same(pre, post)
}

pub open spec fn ret_rel(op: u8, pre: St, post: St, cyc: u8) -> bool {
    &&& ret_post(pre, post)
    &&& cyc == 10
}

pub open spec fn rcc_rel(op: u8, pre: St, post: St, cyc: u8) -> bool {
    if spec_cond(pre.regs.f.bits, op) {
        &&& ret_post(pre, post)
        &&& cyc == 11
    } else {
        &&& jump_post(pre, post, pre.regs.pc.wrapping_add(1))
        &&& cyc == 5
    }
}

/// RST pushes the current PC (the host injects interrupts by calling it
/// between steps, so PC is the resume address) and jumps to the vector held
/// in opcode bits 5:3, times eight.
pub open spec fn rst_rel(op: u8, pre: St, post: St, cyc: u8) -> bool {
    &&& post.mem == pushed_mem(pre.mem, pre.regs.sp, pre.regs.pc)
    &&& post.regs == (Registers {
        pc: (op & 0x38) as u16,
        sp: pre.regs.sp.wrapping_sub(2),
        ..pre.regs
    })
    &&& env_same(pre, post)
    &&& cyc == 11
}

pub open spec fn pchl_rel(op: u8, pre: St, post: St, cyc: u8) -> bool {
    &&& jump_post(pre, post, to16(pre.regs.h, pre.regs.l))
    &&& cyc == 5
}

pub open spec fn push_rel(op: u8, pre: St, post: St, cyc: u8) -> bool {
    &&& post.mem == pushed_mem(pre.mem, pre.regs.sp, spec_get_rp_psw(pre.regs, op))
    &&& post.regs == (Registers {
        sp: pre.regs.sp.wrapping_sub(2),
        pc: pre.regs.pc.wrapping_add(1),
        ..pre.regs
    })
    &&& env_same(pre, post)
    &&& cyc == 11
}

pub open spec fn pop_rel(op: u8, pre: St, post: St, cyc: u8) -> bool {
    let r1 = spec_set_rp_psw(pre.regs, word_at(pre.mem, pre.regs.sp), op);
    &&& post.regs == (Registers {
        sp: pre.regs.sp.wrapping_add(2),
        pc: pre.regs.pc.wrapping_add(1),
        ..r1
    })
    &&& post.mem == pre.mem
    &&& env_same(pre, post)
    &&& cyc == 10
}

pub open spec fn xthl_rel(op: u8, pre: St, post: St, cyc: u8) -> bool {
    let sp = pre.regs.sp;
    &&& post.regs == (Registers {
        l: pre.mem[sp as int],
        h: pre.mem[sp.wrapping_add(1) as int],
        pc: pre.regs.pc.wrapping_add(1),
        ..pre.regs
    })
    &&& post.mem == pre.mem.update(sp as int, pre.regs.l).update(
        sp.wrapping_add(1) as int,
        pre.regs.h,
    )
    &&& env_same(pre, post)
    &&& cyc == 18
}

pub open spec fn sphl_rel(op: u8, pre: St, post: St, cyc: u8) -> bool {
    &&& post.regs == (Registers {
        sp: to16(pre.regs.h, pre.regs.l),
        pc: pre.regs.pc.wrapping_add(1),
        ..pre.regs
    })
    &&& post.mem == pre.mem
    &&& env_same(pre, post)
    &&& cyc == 5
}

pub open spec fn in_rel(op: u8, pre: St, post: St, cyc: u8) -> bool {
    let port = imm8(pre.mem, pre.regs.pc);
    &&& post.regs == (Registers {
        a: pre.input[port as int],
        pc: pre.regs.pc.wrapping_add(2),
        ..pre.regs
    })
    &&& post.mem == pre.mem
    &&& env_same(pre, post)
    &&& cyc == 10
}

pub open spec fn out_rel(op: u8, pre: St, post: St, cyc: u8) -> bool {
    let port = imm8(pre.mem, pre.regs.pc);
    &&& post.regs == (Registers { pc: pre.regs.pc.wrapping_add(2), ..pre.regs })
    &&& post.mem == pre.mem
    &&& post.strobe == (true, port, pre.regs.a)
    &&& post.input == pre.input
    &&& post.ie == pre.ie
    &&& cyc == 10
}

pub open spec fn ei_rel(op: u8, pre: St, post: St, cyc: u8, enable: bool) -> bool {
    &&& post.regs == (Registers { pc: pre.regs.pc.wrapping_add(1), ..pre.regs })
    &&& post.mem == pre.mem
    &&& post.input == pre.input
    &&& post.strobe == pre.strobe
    &&& post.ie == enable
    &&& cyc == 4
}

pub open spec fn hlt_rel(pre: St, post: St) -> bool {
    &&& post.regs == (Registers { pc: pre.regs.pc.wrapping_add(1), ..pre.regs })
    &&& post.mem == pre.mem
    &&& env_same(pre, post)
}

pub open spec fn nop_rel(op: u8, pre: St, post: St, cyc: u8) -> bool {
    &&& jump_post(pre, post, pre.regs.pc.wrapping_add(1))
    &&& cyc == 4
}

/// The full step relation: what one `next` call does, as a function of the
/// handler kind the dispatch table assigns to the fetched opcode.
pub open spec fn step_rel(op: u8, pre: St, post: St, out: StepResult) -> bool {
    match spec_decode(op) {
        Kind::Mov => out matches StepResult::Ran(c) && mov_rel(op, pre, post, c),
        Kind::Mvi => out matches StepResult::Ran(c) && mvi_rel(op, pre, post, c),
        Kind::Lxi => out matches StepResult::Ran(c) && lxi_rel(op, pre, post, c),
        Kind::Ldax => out matches StepResult::Ran(c) && ldax_rel(op, pre, post, c),
        Kind::Stax => out matches StepResult::Ran(c) && stax_rel(op, pre, post, c),
        Kind::Lda => out matches StepResult::Ran(c) && lda_rel(op, pre, post, c),
        Kind::Sta => out matches StepResult::Ran(c) && sta_rel(op, pre, post, c),
        Kind::Lhld => out matches StepResult::Ran(c) && lhld_rel(op, pre, post, c),
        Kind::Shld => out matches StepResult::Ran(c) && shld_rel(op, pre, post, c),
        Kind::Xchg => out matches StepResult::Ran(c) && xchg_rel(op, pre, post, c),
        Kind::Add => out matches StepResult::Ran(c) && add_rel(op, pre, post, c, 0),
        Kind::Adi => out matches StepResult::Ran(c) && adi_rel(op, pre, post, c, 0),
        Kind::Adc => out matches StepResult::Ran(c) && add_rel(
            op,
            pre,
            post,
            c,
            carry_in(pre.regs.f.bits),
        ),
        Kind::Aci => out matches StepResult::Ran(c) && adi_rel(
            op,
            pre,
            post,
            c,
            carry_in(pre.regs.f.bits),
        ),
        Kind::Sub => out matches StepResult::Ran(c) && sub_rel(op, pre, post, c, 0),
        Kind::Sui => out matches StepResult::Ran(c) && sui_rel(op, pre, post, c, 0),
        Kind::Sbb => out matches StepResult::Ran(c) && sub_rel(
            op,
            pre,
            post,
            c,
            carry_in(pre.regs.f.bits),
        ),
        Kind::Sbi => out matches StepResult::Ran(c) && sui_rel(
            op,
            pre,
            post,
            c,
            carry_in(pre.regs.f.bits),
        ),
        Kind::Inr => out matches StepResult::Ran(c) && inr_rel(op, pre, post, c),
        Kind::Dcr => out matches StepResult::Ran(c) && dcr_rel(op, pre, post, c),
        Kind::Inx => out matches StepResult::Ran(c) && inx_rel(op, pre, post, c),
        Kind::Dcx => out matches StepResult::Ran(c) && dcx_rel(op, pre, post, c),
        Kind::Dad => out matches StepResult::Ran(c) && dad_rel(op, pre, post, c),
        Kind::Daa => out matches StepResult::Ran(c) && daa_rel(op, pre, post, c),
        Kind::Ana => out matches StepResult::Ran(c) && ana_rel(op, pre, post, c),
        Kind::Ani => out matches StepResult::Ran(c) && ani_rel(op, pre, post, c),
        Kind::Ora => out matches StepResult::Ran(c) && ora_rel(op, pre, post, c),
        Kind::Ori => out matches StepResult::Ran(c) && ori_rel(op, pre, post, c),
        Kind::Xra => out matches StepResult::Ran(c) && xra_rel(op, pre, post, c),
        Kind::Xri => out matches StepResult::Ran(c) && xri_rel(op, pre, post, c),
        Kind::Cmp => out matches StepResult::Ran(c) && cmp_rel(op, pre, post, c),
        Kind::Cpi => out matches StepResult::Ran(c) && cpi_rel(op, pre, post, c),
        Kind::Rlc => out matches StepResult::Ran(c) && rlc_rel(op, pre, post, c),
        Kind::Rrc => out matches StepResult::Ran(c) && rrc_rel(op, pre, post, c),
        Kind::Ral => out matches StepResult::Ran(c) && ral_rel(op, pre, post, c),
        Kind::Rar => out matches StepResult::Ran(c) && rar_rel(op, pre, post, c),
        Kind::Cma => out matches StepResult::Ran(c) && cma_rel(op, pre, post, c),
        Kind::Cmc => out matches StepResult::Ran(c) && cmc_rel(op, pre, post, c),
        Kind::Stc => out matches StepResult::Ran(c) && stc_rel(op, pre, post, c),
        Kind::Jmp => out matches StepResult::Ran(c) && jmp_rel(op, pre, post, c),
        Kind::Jcc => out matches StepResult::Ran(c) && jcc_rel(op, pre, post, c),
        Kind::Call => out matches StepResult::Ran(c) && call_rel(op, pre, post, c),
        Kind::Ccc => out matches StepResult::Ran(c) && ccc_rel(op, pre, post, c),
        Kind::Ret => out matches StepResult::Ran(c) && ret_rel(op, pre, post, c),
        Kind::Rcc => out matches StepResult::Ran(c) && rcc_rel(op, pre, post, c),
        Kind::Rst => out matches StepResult::Ran(c) && rst_rel(op, pre, post, c),
        Kind::Pchl => out matches StepResult::Ran(c) && pchl_rel(op, pre, post, c),
        Kind::Push => out matches StepResult::Ran(c) && push_rel(op, pre, post, c),
        Kind::Pop => out matches StepResult::Ran(c) && pop_rel(op, pre, post, c),
        Kind::Xthl => out matches StepResult::Ran(c) && xthl_rel(op, pre, post, c),
        Kind::Sphl => out matches StepResult::Ran(c) && sphl_rel(op, pre, post, c),
        Kind::In => out matches StepResult::Ran(c) && in_rel(op, pre, post, c),
        Kind::Out => out matches StepResult::Ran(c) && out_rel(op, pre, post, c),
        Kind::Ei => out matches StepResult::Ran(c) && ei_rel(op, pre, post, c, true),
        Kind::Di => out matches StepResult::Ran(c) && ei_rel(op, pre, post, c, false),
        Kind::Hlt => out == StepResult::Halted && hlt_rel(pre, post),
        Kind::Nop => out matches StepResult::Ran(c) && nop_rel(op, pre, post, c),
        Kind::Fault => out == StepResult::DecoderBug && post == pre,
    }
}

} // verus!
