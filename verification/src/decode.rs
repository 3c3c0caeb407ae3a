//! Opcode decoding: a 256-entry dispatch table built from a fixed list of 57
//! bit-pattern descriptors.
//!
//! Each descriptor stands for an 8-character pattern such as `01DDDSSS`: the
//! fixed bits (`0`/`1` characters) form `kmask`, the don't-care letters form
//! `xmask`. A pattern matches every opcode that agrees with it on the fixed
//! positions. The table starts out all-fault and the descriptors are laid in
//! in order, each overwriting the entries it matches, so when two descriptors
//! match the same opcode the later one wins (HLT must override MOV at 0x76).

use vstd::prelude::*;

verus! {

/// One handler kind per logical instruction family, plus the fault entry for
/// opcodes no descriptor covers.
#[derive(Clone, Copy, Debug, PartialEq, Eq, Structural)]
pub enum Kind {
    Mov,
    Mvi,
    Lxi,
    Ldax,
    Stax,
    Lda,
    Sta,
    Lhld,
    Shld,
    Xchg,
    Add,
    Adi,
    Adc,
    Aci,
    Sub,
    Sui,
    Sbb,
    Sbi,
    Inr,
    Dcr,
    Inx,
    Dcx,
    Dad,
    Daa,
    Ana,
    Ani,
    Ora,
    Ori,
    Xra,
    Xri,
    Cmp,
    Cpi,
    Rlc,
    Rrc,
    Ral,
    Rar,
    Cma,
    Cmc,
    Stc,
    Jmp,
    Jcc,
    Call,
    Ccc,
    Ret,
    Rcc,
    Rst,
    Pchl,
    Push,
    Pop,
    Xthl,
    Sphl,
    In,
    Out,
    Ei,
    Di,
    Hlt,
    Nop,
    Fault,
}

/// Number of descriptors in the table.
pub const DESC_COUNT: usize = 57;

/// A descriptor with fixed bits `kmask` and don't-care bits `xmask` matches
/// opcode `op` when the two agree on every fixed position.
pub open spec fn pat_hit(op: u8, kmask: u8, xmask: u8) -> bool {
    op & !xmask == kmask
}

/// Descriptor `i` of the authoritative list, in insertion order: the fixed-bit
/// mask, the don't-care mask, and the handler kind. The pattern each entry was
/// derived from is noted alongside.
pub open spec fn desc_at(i: int) -> (u8, u8, Kind) {
    if i == 0 {
        (0x40u8, 0x3Fu8, Kind::Mov)  // 01DDDSSS
    } else if i == 1 {
        (0x06u8, 0x38u8, Kind::Mvi)  // 00DDD110
    } else if i == 2 {
        (0x01u8, 0x30u8, Kind::Lxi)  // 00RP0001
    } else if i == 3 {
        (0x0Au8, 0x30u8, Kind::Ldax)  // 00RP1010
    } else if i == 4 {
        (0x02u8, 0x30u8, Kind::Stax)  // 00RP0010
    } else if i == 5 {
        (0x3Au8, 0x00u8, Kind::Lda)  // 00111010
    } else if i == 6 {
        (0x32u8, 0x00u8, Kind::Sta)  // 00110010
    } else if i == 7 {
        (0x2Au8, 0x00u8, Kind::Lhld)  // 00101010
    } else if i == 8 {
        (0x22u8, 0x00u8, Kind::Shld)  // 00100010
    } else if i == 9 {
        (0xEBu8, 0x00u8, Kind::Xchg)  // 11101011
    } else if i == 10 {
        (0x80u8, 0x07u8, Kind::Add)  // 10000SSS
    } else if i == 11 {
        (0xC6u8, 0x00u8, Kind::Adi)  // 11000110
    } else if i == 12 {
        (0x88u8, 0x07u8, Kind::Adc)  // 10001SSS
    } else if i == 13 {
        (0xCEu8, 0x00u8, Kind::Aci)  // 11001110
    } else if i == 14 {
        (0x90u8, 0x07u8, Kind::Sub)  // 10010SSS
    } else if i == 15 {
        (0xD6u8, 0x00u8, Kind::Sui)  // 11010110
    } else if i == 16 {
        (0x98u8, 0x07u8, Kind::Sbb)  // 10011SSS
    } else if i == 17 {
        (0xDEu8, 0x00u8, Kind::Sbi)  // 11011110
    } else if i == 18 {
        (0x04u8, 0x38u8, Kind::Inr)  // 00DDD100
    } else if i == 19 {
        (0x05u8, 0x38u8, Kind::Dcr)  // 00DDD101
    } else if i == 20 {
        (0x03u8, 0x30u8, Kind::Inx)  // 00RP0011
    } else if i == 21 {
        (0x0Bu8, 0x30u8, Kind::Dcx)  // 00RP1011
    } else if i == 22 {
        (0x09u8, 0x30u8, Kind::Dad)  // 00RP1001
    } else if i == 23 {
        (0x27u8, 0x00u8, Kind::Daa)  // 00100111
    } else if i == 24 {
        (0xA0u8, 0x07u8, Kind::Ana)  // 10100SSS
    } else if i == 25 {
        (0xE6u8, 0x00u8, Kind::Ani)  // 11100110
    } else if i == 26 {
        (0xB0u8, 0x07u8, Kind::Ora)  // 10110SSS
    } else if i == 27 {
        (0xF6u8, 0x00u8, Kind::Ori)  // 11110110
    } else if i == 28 {
        (0xA8u8, 0x07u8, Kind::Xra)  // 10101SSS
    } else if i == 29 {
        (0xEEu8, 0x00u8, Kind::Xri)  // 11101110
    } else if i == 30 {
        (0xB8u8, 0x07u8, Kind::Cmp)  // 10111SSS
    } else if i == 31 {
        (0xFEu8, 0x00u8, Kind::Cpi)  // 11111110
    } else if i == 32 {
        (0x07u8, 0x00u8, Kind::Rlc)  // 00000111
    } else if i == 33 {
        (0x0Fu8, 0x00u8, Kind::Rrc)  // 00001111
    } else if i == 34 {
        (0x17u8, 0x00u8, Kind::Ral)  // 00010111
    } else if i == 35 {
        (0x1Fu8, 0x00u8, Kind::Rar)  // 00011111
    } else if i == 36 {
        (0x2Fu8, 0x00u8, Kind::Cma)  // 00101111
    } else if i == 37 {
        (0x3Fu8, 0x00u8, Kind::Cmc)  // 00111111
    } else if i == 38 {
        (0x37u8, 0x00u8, Kind::Stc)  // 00110111
    } else if i == 39 {
        (0xC3u8, 0x08u8, Kind::Jmp)  // 1100N011
    } else if i == 40 {
        (0xC2u8, 0x38u8, Kind::Jcc)  // 11CCC010
    } else if i == 41 {
        (0xCDu8, 0x30u8, Kind::Call)  // 11NN1101
    } else if i == 42 {
        (0xC4u8, 0x38u8, Kind::Ccc)  // 11CCC100
    } else if i == 43 {
        (0xC9u8, 0x10u8, Kind::Ret)  // 110N1001
    } else if i == 44 {
        (0xC0u8, 0x38u8, Kind::Rcc)  // 11CCC000
    } else if i == 45 {
        (0xC7u8, 0x38u8, Kind::Rst)  // 11NNN111
    } else if i == 46 {
        (0xE9u8, 0x00u8, Kind::Pchl)  // 11101001
    } else if i == 47 {
        (0xC5u8, 0x30u8, Kind::Push)  // 11RP0101
    } else if i == 48 {
        (0xC1u8, 0x30u8, Kind::Pop)  // 11RP0001
    } else if i == 49 {
        (0xE3u8, 0x00u8, Kind::Xthl)  // 11100011
    } else if i == 50 {
        (0xF9u8, 0x00u8, Kind::Sphl)  // 11111001
    } else if i == 51 {
        (0xDBu8, 0x00u8, Kind::In)  // 11011011
    } else if i == 52 {
        (0xD3u8, 0x00u8, Kind::Out)  // 11010011
    } else if i == 53 {
        (0xFBu8, 0x00u8, Kind::Ei)  // 11111011
    } else if i == 54 {
        (0xF3u8, 0x00u8, Kind::Di)  // 11110011
    } else if i == 55 {
        (0x76u8, 0x00u8, Kind::Hlt)  // 01110110
    } else {
        (0x00u8, 0x38u8, Kind::Nop)  // 00NNN000
    }
}

/// What the table holds for `op` after the first `n` descriptors have been
/// laid in: the kind of the latest of them that matches `op`, or the fault
/// entry when none does.
pub open spec fn decode_upto(op: u8, n: int) -> Kind
    decreases n,
{
    if n <= 0 {
        Kind::Fault
    } else if pat_hit(op, desc_at(n - 1).0, desc_at(n - 1).1) {
        desc_at(n - 1).2
    } else {
        decode_upto(op, n - 1)
    }
}

/// The handler kind the full descriptor list assigns to `op`.
pub open spec fn spec_decode(op: u8) -> Kind {
    decode_upto(op, DESC_COUNT as int)
}

/// Descriptor `i` of the list, as executable data.
fn descriptor(i: usize) -> (r: (u8, u8, Kind))
    requires
        i < DESC_COUNT,
    ensures
        r == desc_at(i as int),
{
    if i == 0 {
        (0x40, 0x3F, Kind::Mov)
    } else if i == 1 {
        (0x06, 0x38, Kind::Mvi)
    } else if i == 2 {
        (0x01, 0x30, Kind::Lxi)
    } else if i == 3 {
        (0x0A, 0x30, Kind::Ldax)
    } else if i == 4 {
        (0x02, 0x30, Kind::Stax)
    } else if i == 5 {
        (0x3A, 0x00, Kind::Lda)
    } else if i == 6 {
        (0x32, 0x00, Kind::Sta)
    } else if i == 7 {
        (0x2A, 0x00, Kind::Lhld)
    } else if i == 8 {
        (0x22, 0x00, Kind::Shld)
    } else if i == 9 {
        (0xEB, 0x00, Kind::Xchg)
    } else if i == 10 {
        (0x80, 0x07, Kind::Add)
    } else if i == 11 {
        (0xC6, 0x00, Kind::Adi)
    } else if i == 12 {
        (0x88, 0x07, Kind::Adc)
    } else if i == 13 {
        (0xCE, 0x00, Kind::Aci)
    } else if i == 14 {
        (0x90, 0x07, Kind::Sub)
    } else if i == 15 {
        (0xD6, 0x00, Kind::Sui)
    } else if i == 16 {
        (0x98, 0x07, Kind::Sbb)
    } else if i == 17 {
        (0xDE, 0x00, Kind::Sbi)
    } else if i == 18 {
        (0x04, 0x38, Kind::Inr)
    } else if i == 19 {
        (0x05, 0x38, Kind::Dcr)
    } else if i == 20 {
        (0x03, 0x30, Kind::Inx)
    } else if i == 21 {
        (0x0B, 0x30, Kind::Dcx)
    } else if i == 22 {
        (0x09, 0x30, Kind::Dad)
    } else if i == 23 {
        (0x27, 0x00, Kind::Daa)
    } else if i == 24 {
        (0xA0, 0x07, Kind::Ana)
    } else if i == 25 {
        (0xE6, 0x00, Kind::Ani)
    } else if i == 26 {
        (0xB0, 0x07, Kind::Ora)
    } else if i == 27 {
        (0xF6, 0x00, Kind::Ori)
    } else if i == 28 {
        (0xA8, 0x07, Kind::Xra)
    } else if i == 29 {
        (0xEE, 0x00, Kind::Xri)
    } else if i == 30 {
        (0xB8, 0x07, Kind::Cmp)
    } else if i == 31 {
        (0xFE, 0x00, Kind::Cpi)
    } else if i == 32 {
        (0x07, 0x00, Kind::Rlc)
    } else if i == 33 {
        (0x0F, 0x00, Kind::Rrc)
    } else if i == 34 {
        (0x17, 0x00, Kind::Ral)
    } else if i == 35 {
        (0x1F, 0x00, Kind::Rar)
    } else if i == 36 {
        (0x2F, 0x00, Kind::Cma)
    } else if i == 37 {
        (0x3F, 0x00, Kind::Cmc)
    } else if i == 38 {
        (0x37, 0x00, Kind::Stc)
    } else if i == 39 {
        (0xC3, 0x08, Kind::Jmp)
    } else if i == 40 {
        (0xC2, 0x38, Kind::Jcc)
    } else if i == 41 {
        (0xCD, 0x30, Kind::Call)
    } else if i == 42 {
        (0xC4, 0x38, Kind::Ccc)
    } else if i == 43 {
        (0xC9, 0x10, Kind::Ret)
    } else if i == 44 {
        (0xC0, 0x38, Kind::Rcc)
    } else if i == 45 {
        (0xC7, 0x38, Kind::Rst)
    } else if i == 46 {
        (0xE9, 0x00, Kind::Pchl)
    } else if i == 47 {
        (0xC5, 0x30, Kind::Push)
    } else if i == 48 {
        (0xC1, 0x30, Kind::Pop)
    } else if i == 49 {
        (0xE3, 0x00, Kind::Xthl)
    } else if i == 50 {
        (0xF9, 0x00, Kind::Sphl)
    } else if i == 51 {
        (0xDB, 0x00, Kind::In)
    } else if i == 52 {
        (0xD3, 0x00, Kind::Out)
    } else if i == 53 {
        (0xFB, 0x00, Kind::Ei)
    } else if i == 54 {
        (0xF3, 0x00, Kind::Di)
    } else if i == 55 {
        (0x76, 0x00, Kind::Hlt)
    } else {
        (0x00, 0x38, Kind::Nop)
    }
}

/// Build the dispatch table: start from an all-fault table and lay the
/// descriptors in, in insertion order, each overwriting every entry it
/// matches.
pub fn build_table() -> (t: Vec<Kind>)
    ensures
        t.len() == 256,
        forall|op: int| 0 <= op < 256 ==> t@[op] == spec_decode(op as u8),
{
    let mut t: Vec<Kind> = Vec::new();
    for j in 0..256usize
        invariant
            t.len() == j,
            forall|k: int| 0 <= k < j ==> t@[k] == Kind::Fault,
    {
        t.push(Kind::Fault);
    }
    for i in 0..DESC_COUNT
        invariant
            t.len() == 256,
            forall|op: int| 0 <= op < 256 ==> t@[op] == decode_upto(op as u8, i as int),
    {
        let (kmask, xmask, kind) = descriptor(i);
        for op in 0..256usize
            invariant
                t.len() == 256,
                i < DESC_COUNT,
                kmask == desc_at(i as int).0,
                xmask == desc_at(i as int).1,
                kind == desc_at(i as int).2,
                forall|j: int| 0 <= j < op ==> t@[j] == decode_upto(j as u8, i as int + 1),
                forall|j: int| op <= j < 256 ==> t@[j] == decode_upto(j as u8, i as int),
        {
            if (op as u8) & !xmask == kmask {
                vstd::pervasive::VecAdditionalExecFns::set(&mut t, op, kind);
            }
        }
    }
    t
}

/// When some descriptor among the first `n` matches `op`, the table entry
/// after those `n` is not the fault entry (no descriptor carries it).
proof fn lemma_hit_not_fault(op: u8, n: int)
    requires
        0 <= n <= DESC_COUNT,
        exists|i: int| 0 <= i < n && #[trigger] pat_hit(op, desc_at(i).0, desc_at(i).1),
    ensures
        decode_upto(op, n) != Kind::Fault,
    decreases n,
{
    let i = choose|i: int| 0 <= i < n && #[trigger] pat_hit(op, desc_at(i).0, desc_at(i).1);
    if pat_hit(op, desc_at(n - 1).0, desc_at(n - 1).1) {
        assert(desc_at(n - 1).2 != Kind::Fault);
    } else {
        assert(0 <= i < n - 1 && pat_hit(op, desc_at(i).0, desc_at(i).1));
        lemma_hit_not_fault(op, n - 1);
    }
}

/// Every opcode is matched by at least one descriptor.
proof fn lemma_coverage(op: u8)
    ensures
        exists|i: int| 0 <= i < DESC_COUNT as int && #[trigger] pat_hit(
            op,
            desc_at(i).0,
            desc_at(i).1,
        ),
{
    assert(op & !0x00u8 == op && (op & 0xC0 == 0x00 || op & 0xC0 == 0x40 || op & 0xC0 == 0x80 || op
        & 0xC0 == 0xC0)) by (bit_vector);
    let t: u8 = op & 0xC0;
    if t == 0x40 {
        assert(op & !0x3Fu8 == 0x40) by (bit_vector)
            requires
                op & 0xC0 == 0x40,
        ;
        assert(pat_hit(op, desc_at(0).0, desc_at(0).1));
    } else if t == 0x80 {
        assert(op & !0x07u8 == 0x80 || op & !0x07u8 == 0x88 || op & !0x07u8 == 0x90 || op
            & !0x07u8 == 0x98 || op & !0x07u8 == 0xA0 || op & !0x07u8 == 0xA8 || op & !0x07u8
            == 0xB0 || op & !0x07u8 == 0xB8) by (bit_vector)
            requires
                op & 0xC0 == 0x80,
        ;
        let m: u8 = op & !0x07u8;
        if m == 0x80 {
            assert(pat_hit(op, desc_at(10).0, desc_at(10).1));
        } else if m == 0x88 {
            assert(pat_hit(op, desc_at(12).0, desc_at(12).1));
        } else if m == 0x90 {
            assert(pat_hit(op, desc_at(14).0, desc_at(14).1));
        } else if m == 0x98 {
            assert(pat_hit(op, desc_at(16).0, desc_at(16).1));
        } else if m == 0xA0 {
            assert(pat_hit(op, desc_at(24).0, desc_at(24).1));
        } else if m == 0xA8 {
            assert(pat_hit(op, desc_at(28).0, desc_at(28).1));
        } else if m == 0xB0 {
            assert(pat_hit(op, desc_at(26).0, desc_at(26).1));
        } else {
            assert(pat_hit(op, desc_at(30).0, desc_at(30).1));
        }
    } else if t == 0x00 {
        assert(op & !0x38u8 == 0x00 || op & !0x30u8 == 0x01 || op & !0x30u8 == 0x02 || op
            & !0x30u8 == 0x03 || op & !0x38u8 == 0x04 || op & !0x38u8 == 0x05 || op & !0x38u8
            == 0x06 || op & !0x30u8 == 0x09 || op & !0x30u8 == 0x0A || op & !0x30u8 == 0x0B || op
            == 0x07 || op == 0x0F || op == 0x17 || op == 0x1F || op == 0x27 || op == 0x2F || op
            == 0x37 || op == 0x3F) by (bit_vector)
            requires
                op & 0xC0 == 0x00,
        ;
        if op & !0x38u8 == 0x00 {
            assert(pat_hit(op, desc_at(56).0, desc_at(56).1));
        } else if op & !0x30u8 == 0x01 {
            assert(pat_hit(op, desc_at(2).0, desc_at(2).1));
        } else if op & !0x30u8 == 0x02 {
            assert(pat_hit(op, desc_at(4).0, desc_at(4).1));
        } else if op & !0x30u8 == 0x03 {
            assert(pat_hit(op, desc_at(20).0, desc_at(20).1));
        } else if op & !0x38u8 == 0x04 {
            assert(pat_hit(op, desc_at(18).0, desc_at(18).1));
        } else if op & !0x38u8 == 0x05 {
            assert(pat_hit(op, desc_at(19).0, desc_at(19).1));
        } else if op & !0x38u8 == 0x06 {
            assert(pat_hit(op, desc_at(1).0, desc_at(1).1));
        } else if op & !0x30u8 == 0x09 {
            assert(pat_hit(op, desc_at(22).0, desc_at(22).1));
        } else if op & !0x30u8 == 0x0A {
            assert(pat_hit(op, desc_at(3).0, desc_at(3).1));
        } else if op & !0x30u8 == 0x0B {
            assert(pat_hit(op, desc_at(21).0, desc_at(21).1));
        } else if op == 0x07 {
            assert(pat_hit(op, desc_at(32).0, desc_at(32).1));
        } else if op == 0x0F {
            assert(pat_hit(op, desc_at(33).0, desc_at(33).1));
        } else if op == 0x17 {
            assert(pat_hit(op, desc_at(34).0, desc_at(34).1));
        } else if op == 0x1F {
            assert(pat_hit(op, desc_at(35).0, desc_at(35).1));
        } else if op == 0x27 {
            assert(pat_hit(op, desc_at(23).0, desc_at(23).1));
        } else if op == 0x2F {
            assert(pat_hit(op, desc_at(36).0, desc_at(36).1));
        } else if op == 0x37 {
            assert(pat_hit(op, desc_at(38).0, desc_at(38).1));
        } else {
            assert(pat_hit(op, desc_at(37).0, desc_at(37).1));
        }
    } else {
        assert(op & !0x38u8 == 0xC0 || op & !0x30u8 == 0xC1 || op & !0x10u8 == 0xC9 || op == 0xE9
            || op == 0xF9 || op & !0x38u8 == 0xC2 || op & !0x08u8 == 0xC3 || op == 0xD3 || op
            == 0xDB || op == 0xE3 || op == 0xEB || op == 0xF3 || op == 0xFB || op & !0x38u8 == 0xC4
            || op & !0x30u8 == 0xC5 || op & !0x30u8 == 0xCD || op == 0xC6 || op == 0xCE || op
            == 0xD6 || op == 0xDE || op == 0xE6 || op == 0xEE || op == 0xF6 || op == 0xFE || op
            & !0x38u8 == 0xC7) by (bit_vector)
            requires
                op & 0xC0 == 0xC0,
        ;
        if op & !0x38u8 == 0xC0 {
            assert(pat_hit(op, desc_at(44).0, desc_at(44).1));
        } else if op & !0x30u8 == 0xC1 {
            assert(pat_hit(op, desc_at(48).0, desc_at(48).1));
        } else if op & !0x10u8 == 0xC9 {
            assert(pat_hit(op, desc_at(43).0, desc_at(43).1));
        } else if op == 0xE9 {
            assert(pat_hit(op, desc_at(46).0, desc_at(46).1));
        } else if op == 0xF9 {
            assert(pat_hit(op, desc_at(50).0, desc_at(50).1));
        } else if op & !0x38u8 == 0xC2 {
            assert(pat_hit(op, desc_at(40).0, desc_at(40).1));
        } else if op & !0x08u8 == 0xC3 {
            assert(pat_hit(op, desc_at(39).0, desc_at(39).1));
        } else if op == 0xD3 {
            assert(pat_hit(op, desc_at(52).0, desc_at(52).1));
        } else if op == 0xDB {
            assert(pat_hit(op, desc_at(51).0, desc_at(51).1));
        } else if op == 0xE3 {
            assert(pat_hit(op, desc_at(49).0, desc_at(49).1));
        } else if op == 0xEB {
            assert(pat_hit(op, desc_at(9).0, desc_at(9).1));
        } else if op == 0xF3 {
            assert(pat_hit(op, desc_at(54).0, desc_at(54).1));
        } else if op == 0xFB {
            assert(pat_hit(op, desc_at(53).0, desc_at(53).1));
        } else if op & !0x38u8 == 0xC4 {
            assert(pat_hit(op, desc_at(42).0, desc_at(42).1));
        } else if op & !0x30u8 == 0xC5 {
            assert(pat_hit(op, desc_at(47).0, desc_at(47).1));
        } else if op & !0x30u8 == 0xCD {
            assert(pat_hit(op, desc_at(41).0, desc_at(41).1));
        } else if op == 0xC6 {
            assert(pat_hit(op, desc_at(11).0, desc_at(11).1));
        } else if op == 0xCE {
            assert(pat_hit(op, desc_at(13).0, desc_at(13).1));
        } else if op == 0xD6 {
            assert(pat_hit(op, desc_at(15).0, desc_at(15).1));
        } else if op == 0xDE {
            assert(pat_hit(op, desc_at(17).0, desc_at(17).1));
        } else if op == 0xE6 {
            assert(pat_hit(op, desc_at(25).0, desc_at(25).1));
        } else if op == 0xEE {
            assert(pat_hit(op, desc_at(29).0, desc_at(29).1));
        } else if op == 0xF6 {
            assert(pat_hit(op, desc_at(27).0, desc_at(27).1));
        } else if op == 0xFE {
            assert(pat_hit(op, desc_at(31).0, desc_at(31).1));
        } else {
            assert(pat_hit(op, desc_at(45).0, desc_at(45).1));
        }
    }
}

/// Dispatch-table completeness: every opcode maps to a non-fault handler.
pub proof fn lemma_decode_complete(op: u8)
    ensures
        spec_decode(op) != Kind::Fault,
{
    lemma_coverage(op);
    lemma_hit_not_fault(op, DESC_COUNT as int);
}

} // verus!
