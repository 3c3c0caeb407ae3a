//! The 8080 register file: seven 8-bit registers, the flag byte, and the two
//! 16-bit special registers PC and SP, together with the register-pair,
//! source/destination and condition-code decodings that the instruction
//! handlers use.

use vstd::prelude::*;

use crate::flags::{f_carry, f_parity, f_sign, f_zero, Flags};

verus! {

/// Size of the address space the core drives: 64 KiB.
pub const MEM_SIZE: usize = 0x10000;

/// The register-pair selector held in opcode bits 5:4.
pub open spec fn rp_code(op: u8) -> u8 {
    (op >> 4) & 3
}

/// The source-register selector held in opcode bits 2:0.
pub open spec fn src_code(op: u8) -> u8 {
    op & 7
}

/// The destination-register (and condition-code) selector held in opcode
/// bits 5:3.
pub open spec fn dst_code(op: u8) -> u8 {
    (op >> 3) & 7
}

/// The 16-bit composite of a high and a low byte.
pub open spec fn to16(hi: u8, lo: u8) -> u16 {
    ((hi as u16) << 8) | (lo as u16)
}

/// The high byte of a 16-bit value.
pub open spec fn hi8(v: u16) -> u8 {
    (v >> 8) as u8
}

/// The low byte of a 16-bit value.
pub open spec fn lo8(v: u16) -> u8 {
    v as u8
}

/// Composing a word from its own bytes gives the word back, and taking the
/// bytes of a composed word gives the bytes back.
pub proof fn lemma_to16_hi_lo(v: u16, hi: u8, lo: u8)
    ensures
        to16(hi8(v), lo8(v)) == v,
        hi8(to16(hi, lo)) == hi,
        lo8(to16(hi, lo)) == lo,
{
    assert(((((v >> 8) as u8) as u16) << 8) | ((v as u8) as u16) == v) by (bit_vector);
    assert((((((hi as u16) << 8) | (lo as u16)) >> 8) as u8) == hi) by (bit_vector);
    assert(((((hi as u16) << 8) | (lo as u16)) as u8) == lo) by (bit_vector);
}

/// The register-pair selector is a two-bit field.
pub proof fn lemma_rp_code_range(op: u8)
    ensures
        rp_code(op) < 4,
{
    assert((op >> 4) & 3 < 4) by (bit_vector);
}

#[derive(Clone, Copy, Debug, PartialEq, Eq, Structural)]
pub struct Registers {
    pub b: u8,
    pub c: u8,
    pub d: u8,
    pub e: u8,
    pub h: u8,
    pub l: u8,
    pub a: u8,
    pub f: Flags,
    pub pc: u16,
    pub sp: u16,
}

/// The address the M pseudo-register resolves to: the pair HL.
pub open spec fn hl_addr(r: Registers) -> u16 {
    to16(r.h, r.l)
}

/// The 16-bit register pair selected by opcode bits 5:4, with code 3 reading
/// SP (the arithmetic variant, used by LXI/INX/DCX/DAD/LDAX/STAX).
pub open spec fn spec_get_rp(r: Registers, op: u8) -> u16 {
    let code = rp_code(op);
    if code == 0 {
        to16(r.b, r.c)
    } else if code == 1 {
        to16(r.d, r.e)
    } else if code == 2 {
        to16(r.h, r.l)
    } else {
        r.sp
    }
}

/// The register file with the pair selected by opcode bits 5:4 set to `v`,
/// code 3 writing SP (the arithmetic variant).
pub open spec fn spec_set_rp(r: Registers, v: u16, op: u8) -> Registers {
    let code = rp_code(op);
    if code == 0 {
        Registers { b: hi8(v), c: lo8(v), ..r }
    } else if code == 1 {
        Registers { d: hi8(v), e: lo8(v), ..r }
    } else if code == 2 {
        Registers { h: hi8(v), l: lo8(v), ..r }
    } else {
        Registers { sp: v, ..r }
    }
}

/// The pair selected by opcode bits 5:4, with code 3 reading the program
/// status word (A << 8) | F (the PUSH/POP variant).
pub open spec fn spec_get_rp_psw(r: Registers, op: u8) -> u16 {
    let code = rp_code(op);
    if code == 3 {
        to16(r.a, r.f.bits)
    } else {
        spec_get_rp(r, op)
    }
}

/// The register file with the pair selected by opcode bits 5:4 set to `v`,
/// code 3 writing A and F (the PUSH/POP variant).
pub open spec fn spec_set_rp_psw(r: Registers, v: u16, op: u8) -> Registers {
    let code = rp_code(op);
    if code == 3 {
        Registers { a: hi8(v), f: Flags { bits: lo8(v) }, ..r }
    } else {
        spec_set_rp(r, v, op)
    }
}

/// The 8-bit register selected by `code`: B, C, D, E, H, L, the byte at
/// memory address HL (code 6), or A (code 7).
pub open spec fn spec_reg8(r: Registers, m: Seq<u8>, code: u8) -> u8 {
    if code == 0 {
        r.b
    } else if code == 1 {
        r.c
    } else if code == 2 {
        r.d
    } else if code == 3 {
        r.e
    } else if code == 4 {
        r.h
    } else if code == 5 {
        r.l
    } else if code == 6 {
        m[hl_addr(r) as int]
    } else {
        r.a
    }
}

/// The register file and memory after writing `v` to the 8-bit register
/// selected by `code`; code 6 writes the byte at memory address HL.
pub open spec fn spec_set_reg8(r: Registers, m: Seq<u8>, code: u8, v: u8) -> (Registers, Seq<u8>) {
    if code == 0 {
        (Registers { b: v, ..r }, m)
    } else if code == 1 {
        (Registers { c: v, ..r }, m)
    } else if code == 2 {
        (Registers { d: v, ..r }, m)
    } else if code == 3 {
        (Registers { e: v, ..r }, m)
    } else if code == 4 {
        (Registers { h: v, ..r }, m)
    } else if code == 5 {
        (Registers { l: v, ..r }, m)
    } else if code == 6 {
        (r, m.update(hl_addr(r) as int, v))
    } else {
        (Registers { a: v, ..r }, m)
    }
}

/// The condition selected by opcode bits 5:3, evaluated against the flag
/// byte: NZ, Z, NC, C, PO, PE, P, M.
pub open spec fn spec_cond(f: u8, op: u8) -> bool {
    let ccc = dst_code(op);
    if ccc == 0 {
        !f_zero(f)
    } else if ccc == 1 {
        f_zero(f)
    } else if ccc == 2 {
        !f_carry(f)
    } else if ccc == 3 {
        f_carry(f)
    } else if ccc == 4 {
        !f_parity(f)
    } else if ccc == 5 {
        f_parity(f)
    } else if ccc == 6 {
        !f_sign(f)
    } else {
        f_sign(f)
    }
}

impl Registers {
    /// Read the register pair selected by opcode bits 5:4; code 3 reads SP.
    pub fn get_rp(&self, op: u8) -> (r: u16)
        ensures
            r == spec_get_rp(*self, op),
    {
        let code: u8 = (op >> 4) & 3;
        if code == 0 {
            ((self.b as u16) << 8) | (self.c as u16)
        } else if code == 1 {
            ((self.d as u16) << 8) | (self.e as u16)
        } else if code == 2 {
            ((self.h as u16) << 8) | (self.l as u16)
        } else {
            self.sp
        }
    }

    /// Write the register pair selected by opcode bits 5:4; code 3 writes SP.
    pub fn set_rp(&mut self, v: u16, op: u8)
        ensures
            *final(self) == spec_set_rp(*old(self), v, op),
    {
        let code: u8 = (op >> 4) & 3;
        if code == 0 {
            self.b = (v >> 8) as u8;
            self.c = v as u8;
        } else if code == 1 {
            self.d = (v >> 8) as u8;
            self.e = v as u8;
        } else if code == 2 {
            self.h = (v >> 8) as u8;
            self.l = v as u8;
        } else {
            self.sp = v;
        }
    }

    /// Read the register pair selected by opcode bits 5:4; code 3 reads the
    /// program status word (A << 8) | F.
    pub fn get_rp_psw(&self, op: u8) -> (r: u16)
        ensures
            r == spec_get_rp_psw(*self, op),
    {
        let code: u8 = (op >> 4) & 3;
        if code == 3 {
            ((self.a as u16) << 8) | (self.f.bits as u16)
        } else {
            self.get_rp(op)
        }
    }

    /// Write the register pair selected by opcode bits 5:4; code 3 writes A
    /// and F.
    pub fn set_rp_psw(&mut self, v: u16, op: u8)
        ensures
            *final(self) == spec_set_rp_psw(*old(self), v, op),
    {
        let code: u8 = (op >> 4) & 3;
        if code == 3 {
            self.a = (v >> 8) as u8;
            self.f.bits = v as u8;
        } else {
            self.set_rp(v, op);
        }
    }

    /// Read the source register selected by opcode bits 2:0, resolving code 6
    /// through memory at HL. Returns the value and the code, so the handler
    /// can charge the memory-access cycle cost.
    pub fn get_s(&self, op: u8, mem: &Vec<u8>) -> (r: (u8, u8))
        requires
            mem.len() == MEM_SIZE,
        ensures
            r.0 == spec_reg8(*self, mem@, src_code(op)),
            r.1 == src_code(op),
    {
        let code: u8 = op & 7;
        (self.read_reg8(code, mem), code)
    }

    /// Read the destination register selected by opcode bits 5:3, resolving
    /// code 6 through memory at HL (used by the read-modify-write INR/DCR).
    pub fn get_d(&self, op: u8, mem: &Vec<u8>) -> (r: (u8, u8))
        requires
            mem.len() == MEM_SIZE,
        ensures
            r.0 == spec_reg8(*self, mem@, dst_code(op)),
            r.1 == dst_code(op),
    {
        let code: u8 = (op >> 3) & 7;
        (self.read_reg8(code, mem), code)
    }

    fn read_reg8(&self, code: u8, mem: &Vec<u8>) -> (r: u8)
        requires
            mem.len() == MEM_SIZE,
        ensures
            r == spec_reg8(*self, mem@, code),
    {
        if code == 0 {
            self.b
        } else if code == 1 {
            self.c
        } else if code == 2 {
            self.d
        } else if code == 3 {
            self.e
        } else if code == 4 {
            self.h
        } else if code == 5 {
            self.l
        } else if code == 6 {
            let addr: u16 = ((self.h as u16) << 8) | (self.l as u16);
            mem[addr as usize]
        } else {
            self.a
        }
    }

    /// Write `v` to the destination register selected by opcode bits 5:3,
    /// resolving code 6 through memory at HL. Returns the code.
    pub fn set_d(&mut self, op: u8, mem: &mut Vec<u8>, v: u8) -> (code: u8)
        requires
            old(mem).len() == MEM_SIZE,
        ensures
            code == dst_code(op),
            *final(self) == spec_set_reg8(*old(self), old(mem)@, dst_code(op), v).0,
            final(mem)@ == spec_set_reg8(*old(self), old(mem)@, dst_code(op), v).1,
    {
        let code: u8 = (op >> 3) & 7;
        if code == 0 {
            self.b = v;
        } else if code == 1 {
            self.c = v;
        } else if code == 2 {
            self.d = v;
        } else if code == 3 {
            self.e = v;
        } else if code == 4 {
            self.h = v;
        } else if code == 5 {
            self.l = v;
        } else if code == 6 {
            let addr: u16 = ((self.h as u16) << 8) | (self.l as u16);
            vstd::pervasive::VecAdditionalExecFns::set(mem, addr as usize, v);
        } else {
            self.a = v;
        }
        code
    }

    /// Evaluate the condition selected by opcode bits 5:3 against the current
    /// flags.
    pub fn cond(&self, op: u8) -> (r: bool)
        ensures
            r == spec_cond(self.f.bits, op),
    {
        let ccc: u8 = (op >> 3) & 7;
        if ccc == 0 {
            !self.f.get_zero()
        } else if ccc == 1 {
            self.f.get_zero()
        } else if ccc == 2 {
            !self.f.get_carry()
        } else if ccc == 3 {
            self.f.get_carry()
        } else if ccc == 4 {
            !self.f.get_parity()
        } else if ccc == 5 {
            self.f.get_parity()
        } else if ccc == 6 {
            !self.f.get_sign()
        } else {
            self.f.get_sign()
        }
    }
}

impl Default for Registers {
    /// All registers, the flag byte, PC and SP start at zero.
    fn default() -> (r: Registers)
        ensures
            r == (Registers {
                b: 0u8,
                c: 0u8,
                d: 0u8,
                e: 0u8,
                h: 0u8,
                l: 0u8,
                a: 0u8,
                f: Flags { bits: 0u8 },
                pc: 0u16,
                sp: 0u16,
            }),
    {
        Registers {
            b: 0,
            c: 0,
            d: 0,
            e: 0,
            h: 0,
            l: 0,
            a: 0,
            f: Flags { bits: 0 },
            pc: 0,
            sp: 0,
        }
    }
}

/// Reading a register pair and writing the value back is a no-op, for every
/// opcode, in both the arithmetic (SP) and the PUSH/POP (PSW) variants.
pub proof fn lemma_rp_roundtrip(r: Registers, op: u8)
    ensures
        spec_set_rp(r, spec_get_rp(r, op), op) == r,
        spec_set_rp_psw(r, spec_get_rp_psw(r, op), op) == r,
{
    lemma_to16_hi_lo(r.sp, r.b, r.c);
    lemma_to16_hi_lo(r.sp, r.d, r.e);
    lemma_to16_hi_lo(r.sp, r.h, r.l);
    lemma_to16_hi_lo(r.sp, r.a, r.f.bits);
}

} // verus!
