//! The 8080 flag byte: a packed status register with independent bit
//! accessors for Sign, Zero, Auxiliary carry, Parity and Carry, plus the two
//! hard-wired bits of the 8080 (bit 1 reads 1, bits 3 and 5 read 0).

use vstd::prelude::*;

verus! {

/// Bit mask of the Sign flag (bit 7).
pub const F_SIGN: u8 = 0x80;
/// Bit mask of the Zero flag (bit 6).
pub const F_ZERO: u8 = 0x40;
/// Bit mask of the Auxiliary-carry flag (bit 4).
pub const F_AUX: u8 = 0x10;
/// Bit mask of the Parity flag (bit 2).
pub const F_PARITY: u8 = 0x04;
/// Bit mask of the Carry flag (bit 0).
pub const F_CARRY: u8 = 0x01;
/// Mask of the three reserved positions (bits 1, 3 and 5).
pub const F_RESERVED_MASK: u8 = 0x2A;
/// The value the reserved positions hold on a real 8080: bit 1 set, bits 3
/// and 5 clear.
pub const F_RESERVED_VALUE: u8 = 0x02;

pub open spec fn f_sign(f: u8) -> bool {
    f & F_SIGN == F_SIGN
}

pub open spec fn f_zero(f: u8) -> bool {
    f & F_ZERO == F_ZERO
}

pub open spec fn f_aux(f: u8) -> bool {
    f & F_AUX == F_AUX
}

pub open spec fn f_parity(f: u8) -> bool {
    f & F_PARITY == F_PARITY
}

pub open spec fn f_carry(f: u8) -> bool {
    f & F_CARRY == F_CARRY
}

/// The flag byte with the bits selected by `mask` forced to `v`.
pub open spec fn set_bit(f: u8, mask: u8, v: bool) -> u8 {
    if v {
        f | mask
    } else {
        f & !mask
    }
}

/// Number of one bits in a byte.
pub open spec fn popcount8(x: u8) -> int {
    ((x >> 7) & 1) + ((x >> 6) & 1) + ((x >> 5) & 1) + ((x >> 4) & 1) + ((x >> 3) & 1) + ((x
        >> 2) & 1) + ((x >> 1) & 1) + (x & 1)
}

/// The Parity flag is set when the result has an even number of one bits.
pub open spec fn parity_even(x: u8) -> bool {
    popcount8(x) % 2 == 0
}

/// The flag byte after an operation that updates Sign, Zero and Parity from
/// `r`: Sign is bit 7 of `r`, Zero holds when `r` is zero, Parity when the
/// number of one bits of `r` is even. All other bits keep their values.
pub open spec fn szp_updated(f: u8, r: u8) -> u8 {
    set_bit(set_bit(set_bit(f, F_SIGN, r & 0x80 == 0x80), F_ZERO, r == 0), F_PARITY, parity_even(r))
}

/// The flag byte after an arithmetic or logic operation: Sign, Zero and
/// Parity from the result `r`, Auxiliary carry and Carry as given. Bits 1, 3
/// and 5 keep their values.
pub open spec fn arith_flags(f: u8, r: u8, carry: bool, aux: bool) -> u8 {
    set_bit(set_bit(szp_updated(f, r), F_AUX, aux), F_CARRY, carry)
}

/// The flag byte after an operation that leaves Carry untouched (INR, DCR):
/// Sign, Zero and Parity from `r`, Auxiliary carry as given.
pub open spec fn szpa_flags(f: u8, r: u8, aux: bool) -> u8 {
    set_bit(szp_updated(f, r), F_AUX, aux)
}

/// The processor status byte.
#[derive(Clone, Copy, Debug, PartialEq, Eq, Structural)]
pub struct Flags {
    pub bits: u8,
}

impl Flags {
    pub fn get_sign(&self) -> (r: bool)
        ensures
            r == f_sign(self.bits),
    {
        self.bits & F_SIGN == F_SIGN
    }

    pub fn set_sign(&mut self, v: bool)
        ensures
            final(self).bits == set_bit(old(self).bits, F_SIGN, v),
    {
        if v {
            self.bits = self.bits | F_SIGN;
        } else {
            self.bits = self.bits & !F_SIGN;
        }
    }

    pub fn get_zero(&self) -> (r: bool)
        ensures
            r == f_zero(self.bits),
    {
        self.bits & F_ZERO == F_ZERO
    }

    pub fn set_zero(&mut self, v: bool)
        ensures
            final(self).bits == set_bit(old(self).bits, F_ZERO, v),
    {
        if v {
            self.bits = self.bits | F_ZERO;
        } else {
            self.bits = self.bits & !F_ZERO;
        }
    }

    pub fn get_aux(&self) -> (r: bool)
        ensures
            r == f_aux(self.bits),
    {
        self.bits & F_AUX == F_AUX
    }

    pub fn set_aux(&mut self, v: bool)
        ensures
            final(self).bits == set_bit(old(self).bits, F_AUX, v),
    {
        if v {
            self.bits = self.bits | F_AUX;
        } else {
            self.bits = self.bits & !F_AUX;
        }
    }

    pub fn get_parity(&self) -> (r: bool)
        ensures
            r == f_parity(self.bits),
    {
        self.bits & F_PARITY == F_PARITY
    }

    pub fn set_parity(&mut self, v: bool)
        ensures
            final(self).bits == set_bit(old(self).bits, F_PARITY, v),
    {
        if v {
            self.bits = self.bits | F_PARITY;
        } else {
            self.bits = self.bits & !F_PARITY;
        }
    }

    pub fn get_carry(&self) -> (r: bool)
        ensures
            r == f_carry(self.bits),
    {
        self.bits & F_CARRY == F_CARRY
    }

    pub fn set_carry(&mut self, v: bool)
        ensures
            final(self).bits == set_bit(old(self).bits, F_CARRY, v),
    {
        if v {
            self.bits = self.bits | F_CARRY;
        } else {
            self.bits = self.bits & !F_CARRY;
        }
    }

    /// Set Sign, Zero and Parity from the result byte `r`; every other bit
    /// keeps its value.
    pub fn set_szp(&mut self, r: u8)
        ensures
            final(self).bits == szp_updated(old(self).bits, r),
    {
        let s: bool = r & 0x80 == 0x80;
        let z: bool = r == 0;
        let p1: u8 = r ^ (r >> 4);
        let p2: u8 = p1 ^ (p1 >> 2);
        let p3: u8 = p2 ^ (p2 >> 1);
        let p: bool = p3 & 1 == 0;
        proof {
            assert(p == parity_even(r)) by (bit_vector)
                requires
                    p1 == r ^ (r >> 4),
                    p2 == p1 ^ (p1 >> 2),
                    p3 == p2 ^ (p2 >> 1),
                    p == (p3 & 1 == 0),
            ;
        }
        self.set_sign(s);
        self.set_zero(z);
        self.set_parity(p);
    }

    /// Set Sign, Zero and Parity from the result byte `r`, and Carry and
    /// Auxiliary carry to the given values. Bits 1, 3 and 5 keep their
    /// values.
    pub fn set_flags(&mut self, r: u8, carry: bool, aux: bool)
        ensures
            final(self).bits == arith_flags(old(self).bits, r, carry, aux),
    {
        self.set_szp(r);
        self.set_aux(aux);
        self.set_carry(carry);
    }
}

} // verus!
