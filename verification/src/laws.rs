//! Laws of the core, proved once and for all states: PC advance, the
//! hard-wired flag bits, and the round trips CMA;CMA, CMC;CMC, PUSH;POP,
//! XCHG;XCHG and XTHL;XTHL.

use vstd::prelude::*;

use crate::decode::{lemma_decode_complete, spec_decode, Kind};
use crate::flags::{f_carry, set_bit, F_AUX, F_CARRY, F_PARITY, F_RESERVED_MASK, F_RESERVED_VALUE, F_SIGN, F_ZERO};
use crate::regs::{lo8, rp_code, Registers};
use crate::sem::{
    cma_rel, cmc_rel, push_rel, pop_rel, stc_rel, step_rel, word_at, xchg_rel, xthl_rel, St,
    StepResult,
};

verus! {

/// The instructions that set PC themselves rather than advancing it.
pub open spec fn alters_pc(k: Kind) -> bool {
    k == Kind::Jmp || k == Kind::Jcc || k == Kind::Call || k == Kind::Ccc || k == Kind::Ret || k
        == Kind::Rcc || k == Kind::Rst || k == Kind::Pchl
}

/// The documented instruction length: 1 byte, 2 with an immediate byte, 3
/// with an immediate word.
pub open spec fn instr_len(k: Kind) -> u16 {
    match k {
        Kind::Mvi | Kind::Adi | Kind::Aci | Kind::Sui | Kind::Sbi | Kind::Ani | Kind::Ori
            | Kind::Xri | Kind::Cpi | Kind::In | Kind::Out => 2,
        Kind::Lxi | Kind::Lda | Kind::Sta | Kind::Lhld | Kind::Shld => 3,
        _ => 1,
    }
}

/// After a step, PC has advanced by the instruction's documented length,
/// for every instruction that does not set PC itself.
pub proof fn lemma_pc_advance(op: u8, pre: St, post: St, out: StepResult)
    requires
        step_rel(op, pre, post, out),
        !alters_pc(spec_decode(op)),
    ensures
        post.regs.pc == pre.regs.pc.wrapping_add(instr_len(spec_decode(op))),
{
    lemma_decode_complete(op);
}

/// The reserved positions of the flag byte hold their hard-wired values:
/// bit 1 reads 1, bits 3 and 5 read 0.
pub open spec fn reserved_ok(f: u8) -> bool {
    f & F_RESERVED_MASK == F_RESERVED_VALUE
}

/// Forcing any of the five status bits leaves the three reserved positions
/// of the flag byte untouched.
pub proof fn lemma_set_bit_keeps_reserved()
    ensures
        forall|f: u8, m: u8, v: bool|
            (m == F_SIGN || m == F_ZERO || m == F_AUX || m == F_PARITY || m == F_CARRY)
                ==> #[trigger] set_bit(f, m, v) & F_RESERVED_MASK == f & F_RESERVED_MASK,
{
    assert forall|f: u8, m: u8, v: bool|
        (m == F_SIGN || m == F_ZERO || m == F_AUX || m == F_PARITY || m
            == F_CARRY) implies #[trigger] set_bit(f, m, v) & F_RESERVED_MASK == f
        & F_RESERVED_MASK by {
        assert((f | m) & 0x2Au8 == f & 0x2Au8 && (f & !m) & 0x2Au8 == f & 0x2Au8) by (bit_vector)
            requires
                m == 0x80u8 || m == 0x40u8 || m == 0x10u8 || m == 0x04u8 || m == 0x01u8,
        ;
    }
}

/// Flag byte bits 1, 3 and 5 keep their 8080-reserved values (1, 0, 0)
/// across every instruction. The one instruction that loads the flag byte
/// whole is POP PSW; for it, the byte popped off the stack must itself carry
/// the reserved values.
#[verifier::rlimit(100)]
pub proof fn lemma_reserved_flags(op: u8, pre: St, post: St, out: StepResult)
    requires
        step_rel(op, pre, post, out),
        reserved_ok(pre.regs.f.bits),
        spec_decode(op) == Kind::Pop && rp_code(op) == 3 ==> reserved_ok(
            lo8(word_at(pre.mem, pre.regs.sp)),
        ),
    ensures
        reserved_ok(post.regs.f.bits),
{
    lemma_set_bit_keeps_reserved();
}

/// CMA twice restores the accumulator; the flags and memory never moved.
pub proof fn lemma_cma_cma(op1: u8, op2: u8, s0: St, s1: St, s2: St, c1: u8, c2: u8)
    requires
        cma_rel(op1, s0, s1, c1),
        cma_rel(op2, s1, s2, c2),
    ensures
        s2.regs.a == s0.regs.a,
        s2.regs.f == s0.regs.f,
        s2.mem == s0.mem,
{
    let a = s0.regs.a;
    assert(!(!a) == a) by (bit_vector);
}

/// CMC twice restores the whole flag byte (and so the carry flag).
pub proof fn lemma_cmc_cmc(op1: u8, op2: u8, s0: St, s1: St, s2: St, c1: u8, c2: u8)
    requires
        cmc_rel(op1, s0, s1, c1),
        cmc_rel(op2, s1, s2, c2),
    ensures
        s2.regs == (Registers {
            pc: s0.regs.pc.wrapping_add(1).wrapping_add(1),
            ..s0.regs
        }),
        s2.mem == s0.mem,
{
    let f = s0.regs.f.bits;
    assert(set_bit(set_bit(f, F_CARRY, !f_carry(f)), F_CARRY, !f_carry(
        set_bit(f, F_CARRY, !f_carry(f)),
    )) == f) by (bit_vector);
}

/// STC leaves the carry flag set, whatever held before; so after STC;STC,
/// as after any run ending in STC, carry is true.
pub proof fn lemma_stc_sets_carry(op: u8, s0: St, s1: St, c: u8)
    requires
        stc_rel(op, s0, s1, c),
    ensures
        f_carry(s1.regs.f.bits),
{
    let f = s0.regs.f.bits;
    assert(f_carry(set_bit(f, F_CARRY, true))) by (bit_vector);
}

/// PUSH rp; POP rp restores every register, the pair pushed included, and
/// leaves SP where it started; only PC moved (by two) and the two stack
/// bytes keep the pushed word.
pub proof fn lemma_push_pop(op1: u8, op2: u8, s0: St, s1: St, s2: St, c1: u8, c2: u8)
    requires
        s0.mem.len() == 0x10000,
        push_rel(op1, s0, s1, c1),
        pop_rel(op2, s1, s2, c2),
        rp_code(op1) == rp_code(op2),
    ensures
        s2.regs == (Registers {
            pc: s0.regs.pc.wrapping_add(1).wrapping_add(1),
            ..s0.regs
        }),
        s2.mem == s1.mem,
{
    crate::regs::lemma_rp_code_range(op1);
    crate::regs::lemma_rp_code_range(op2);
    let sp = s0.regs.sp;
    let v = crate::regs::spec_get_rp_psw(s0.regs, op1);
    crate::regs::lemma_to16_hi_lo(v, 0, 0);
    let m1 = s1.mem;
    assert(sp.wrapping_sub(2).wrapping_add(1) == sp.wrapping_sub(1));
    assert(sp.wrapping_sub(1) as int != sp.wrapping_sub(2) as int);
    assert(m1[sp.wrapping_sub(2) as int] == lo8(v));
    assert(m1[sp.wrapping_sub(1) as int] == crate::regs::hi8(v));
    assert(word_at(m1, s1.regs.sp) == v);
    assert(crate::regs::spec_get_rp_psw(s1.regs, op2) == v);
    crate::regs::lemma_rp_roundtrip(s1.regs, op2);
}

/// XCHG twice restores HL and DE; nothing else ever moved.
pub proof fn lemma_xchg_xchg(op1: u8, op2: u8, s0: St, s1: St, s2: St, c1: u8, c2: u8)
    requires
        xchg_rel(op1, s0, s1, c1),
        xchg_rel(op2, s1, s2, c2),
    ensures
        s2.regs == (Registers {
            pc: s0.regs.pc.wrapping_add(1).wrapping_add(1),
            ..s0.regs
        }),
        s2.mem == s0.mem,
{
}

/// XTHL twice restores HL and the word at (SP) — indeed all of memory.
pub proof fn lemma_xthl_xthl(op1: u8, op2: u8, s0: St, s1: St, s2: St, c1: u8, c2: u8)
    requires
        s0.mem.len() == 0x10000,
        xthl_rel(op1, s0, s1, c1),
        xthl_rel(op2, s1, s2, c2),
    ensures
        s2.regs == (Registers {
            pc: s0.regs.pc.wrapping_add(1).wrapping_add(1),
            ..s0.regs
        }),
        s2.mem == s0.mem,
{
    assert(s2.mem =~= s0.mem);
}

} // verus!
