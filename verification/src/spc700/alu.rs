use vstd::prelude::*;

use crate::spc700::processor::{Processor, nz, w8};
use crate::spc700::program_status_word::{ProgramStatusWord, fbit};

verus! {

/// Operations combining two bytes.
#[derive(Clone, Copy, Debug)]
pub enum BinOp {
    Adc,
    And,
    Eor,
    Or,
    Sbc,
}

/// Operations on one byte.
#[derive(Clone, Copy, Debug)]
pub enum UnOp {
    Asl,
    Dec,
    Inc,
    Lsr,
    Rol,
    Ror,
    Tclr,
    Tset,
}

/// Addition with carry: the sum's low byte; C is the carry out, H the carry out of
/// the low nibble, V the signed overflow, N and Z from the result.
pub open spec fn adc_spec(p: ProgramStatusWord, l: u8, r: u8) -> (u8, ProgramStatusWord) {
    let c = fbit(p.c);
    let sum = l + r + c;
    let v = w8(sum);
    (
        v,
        nz(
            ProgramStatusWord {
                h: l % 16 + r % 16 + c > 15,
                c: sum > 255,
                v: (l < 0x80) == (r < 0x80) && (v < 0x80) != (l < 0x80),
                ..p
            },
            v,
        ),
    )
}

/// The result and flags of a two-operand operation. Subtraction adds the complement.
pub open spec fn binop_spec(p: ProgramStatusWord, op: BinOp, l: u8, r: u8) -> (u8, ProgramStatusWord) {
    match op {
        BinOp::Adc => adc_spec(p, l, r),
        BinOp::Sbc => adc_spec(p, l, (255 - r) as u8),
        BinOp::And => (l & r, nz(p, l & r)),
        BinOp::Or => (l | r, nz(p, l | r)),
        BinOp::Eor => (l ^ r, nz(p, l ^ r)),
    }
}

/// Compare: N and Z from the difference, C when no borrow.
pub open spec fn compare_spec(p: ProgramStatusWord, l: u8, r: u8) -> ProgramStatusWord {
    nz(ProgramStatusWord { c: l >= r, ..p }, w8(l - r))
}

impl Processor {
    /// The result and flags of a one-operand operation; TCLR1 and TSET1 also read A.
    pub open spec fn unop_spec(self, op: UnOp, v: u8) -> (u8, ProgramStatusWord) {
        let p = self.psw;
        match op {
            UnOp::Asl => (w8(2 * v), nz(ProgramStatusWord { c: v >= 0x80, ..p }, w8(2 * v))),
            UnOp::Lsr => (v / 2, nz(ProgramStatusWord { c: v % 2 == 1, ..p }, v / 2)),
            UnOp::Rol => {
                let r = (w8(2 * v) + fbit(p.c)) as u8;
                (r, nz(ProgramStatusWord { c: v >= 0x80, ..p }, r))
            },
            UnOp::Ror => {
                let r = (v / 2 + 128 * fbit(p.c)) as u8;
                (r, nz(ProgramStatusWord { c: v % 2 == 1, ..p }, r))
            },
            UnOp::Dec => (w8(v - 1), nz(p, w8(v - 1))),
            UnOp::Inc => (w8(v + 1), nz(p, w8(v + 1))),
            UnOp::Tclr => (v & !self.a, nz(p, w8(self.a - v))),
            UnOp::Tset => (v | self.a, nz(p, w8(self.a - v))),
        }
    }

    /// Set the N and Z flags based on the value provided
    pub fn set_nz(&mut self, v: u8)
        ensures
            *final(self) == (Processor { psw: nz(old(self).psw, v), ..*old(self) }),
    {
        self.psw.z = v == 0;
        self.psw.n = v > 0x7F;
    }

    /// Set N and Z from a 16-bit value given as two bytes.
    pub fn set_nz_16le(&mut self, l: u8, h: u8)
        ensures
            *final(self) == (Processor {
                psw: ProgramStatusWord { n: h >= 0x80, z: l == 0 && h == 0, ..old(self).psw },
                ..*old(self)
            }),
    {
        self.psw.z = l == 0 && h == 0;
        self.psw.n = h > 0x7F;
    }

    pub fn adc(&mut self, l: u8, r: u8) -> (v: u8)
        ensures
            (v, final(self).psw) == adc_spec(old(self).psw, l, r),
            *final(self) == (Processor { psw: final(self).psw, ..*old(self) }),
    {
        let c: u8 = if self.psw.c { 1 } else { 0 };
        let sum: u16 = l as u16 + r as u16 + c as u16;
        let v = (sum % 0x100) as u8;
        proof {
            crate::bits::lemma_nibbles(l);
            crate::bits::lemma_nibbles(r);
            assert((((l ^ v) & (r ^ v)) & 0x80 != 0) == ((l < 0x80) == (r < 0x80) && (v < 0x80) != (l < 0x80)))
                by (bit_vector);
        }
        self.psw.h = (l & 0x0F) + (r & 0x0F) + c > 0x0F;
        self.psw.c = sum > 0xFF;
        self.psw.v = ((l ^ v) & (r ^ v)) & 0x80 != 0;
        self.set_nz(v);
        v
    }

    pub fn sbc(&mut self, l: u8, r: u8) -> (v: u8)
        ensures
            (v, final(self).psw) == binop_spec(old(self).psw, BinOp::Sbc, l, r),
            *final(self) == (Processor { psw: final(self).psw, ..*old(self) }),
    {
        proof {
            crate::bits::lemma_double(r);
        }
        self.adc(l, r ^ 0xFF)
    }

    /// Apply a two-operand operation.
    pub fn binop(&mut self, op: BinOp, l: u8, r: u8) -> (v: u8)
        ensures
            (v, final(self).psw) == binop_spec(old(self).psw, op, l, r),
            *final(self) == (Processor { psw: final(self).psw, ..*old(self) }),
    {
        match op {
            BinOp::Adc => self.adc(l, r),
            BinOp::Sbc => self.sbc(l, r),
            BinOp::And => {
                let v = l & r;
                self.set_nz(v);
                v
            },
            BinOp::Or => {
                let v = l | r;
                self.set_nz(v);
                v
            },
            BinOp::Eor => {
                let v = l ^ r;
                self.set_nz(v);
                v
            },
        }
    }

    pub fn compare(&mut self, lhs: u8, rhs: u8)
        ensures
            *final(self) == (Processor { psw: compare_spec(old(self).psw, lhs, rhs), ..*old(self) }),
    {
        let r = lhs.wrapping_sub(rhs);
        self.set_nz(r);
        self.psw.c = lhs >= rhs;
    }

    /// Apply a one-operand operation.
    #[verifier::rlimit(60)]
    #[verifier::spinoff_prover]
    pub fn unop(&mut self, op: UnOp, v: u8) -> (r: u8)
        ensures
            (r, final(self).psw) == old(self).unop_spec(op, v),
            *final(self) == (Processor { psw: final(self).psw, ..*old(self) }),
    {
        match op {
            UnOp::Asl => {
                let r = ((v as u16 * 2) % 0x100) as u8;
                self.set_nz(r);
                self.psw.c = v > 0x7F;
                r
            },
            UnOp::Lsr => {
                self.psw.c = v % 2 == 1;
                let r = v / 2;
                self.set_nz(r);
                r
            },
            UnOp::Rol => {
                let c = v > 0x7F;
                let r = ((v as u16 * 2) % 0x100) as u8 + if self.psw.c { 1u8 } else { 0u8 };
                self.set_nz(r);
                self.psw.c = c;
                r
            },
            UnOp::Ror => {
                let c = v % 2 == 1;
                let r = v / 2 + if self.psw.c { 128u8 } else { 0u8 };
                self.set_nz(r);
                self.psw.c = c;
                r
            },
            UnOp::Dec => {
                let r = v.wrapping_sub(1);
                self.set_nz(r);
                r
            },
            UnOp::Inc => {
                let r = v.wrapping_add(1);
                self.set_nz(r);
                r
            },
            UnOp::Tclr => {
                // TCLR and TSET compute the subtraction, which is only used
                // to set the flags
                let d = self.a.wrapping_sub(v);
                self.set_nz(d);
                v & !self.a
            },
            UnOp::Tset => {
                let d = self.a.wrapping_sub(v);
                self.set_nz(d);
                v | self.a
            },
        }
    }
}

/// The carry as a number.
pub open spec fn carry_value(c: bool) -> int {
    if c { 1 } else { 0 }
}

/// ADC adds the two bytes and the carry: the result is that sum modulo 256, C tells
/// whether the sum passed 0xFF, H whether the low nibbles with the carry passed 0xF,
/// and N and Z follow the result.
pub proof fn lemma_adc_sum(p: ProgramStatusWord, l: u8, r: u8)
    ensures
        ({
            let s = l + r + carry_value(p.c);
            let (v, q) = binop_spec(p, BinOp::Adc, l, r);
            &&& v as int == s % 256
            &&& q.c == (s > 0xFF)
            &&& q.h == (l % 16 + r % 16 + carry_value(p.c) > 0xF)
            &&& q.z == (s % 256 == 0)
            &&& q.n == (s % 256 >= 0x80)
        }),
{
}

/// SBC subtracts the operand and the borrow (1 - C): the result is that difference
/// modulo 256, and C is set exactly when no borrow was needed.
pub proof fn lemma_sbc_difference(p: ProgramStatusWord, l: u8, r: u8)
    ensures
        ({
            let d = l - r - (1 - carry_value(p.c));
            let (v, q) = binop_spec(p, BinOp::Sbc, l, r);
            &&& v as int == d % 256
            &&& q.c == (d >= 0)
            &&& q.z == (d % 256 == 0)
        }),
{
    let d = l - r - (1 - carry_value(p.c));
    let s = l + (255 - r) + carry_value(p.c);
    assert(s == d + 256);
    assert(s % 256 == d % 256);
}

impl Processor {
    /// ROR: bit 7 of the result is the carry before the instruction, bits 0 to 6 are
    /// bits 1 to 7 of the operand, the new carry is the operand's bit 0, and N and Z
    /// follow the result.
    pub proof fn lemma_ror(self, v: u8)
        ensures
            ({
                let (r, q) = self.unop_spec(UnOp::Ror, v);
                &&& r as int / 128 == carry_value(self.psw.c)
                &&& r as int % 128 == v as int / 2
                &&& q.c == (v % 2 == 1)
                &&& q.n == self.psw.c
                &&& q.z == (r == 0)
            }),
    {
    }

    /// ROL: bit 0 of the result is the carry before the instruction, bits 1 to 7 are
    /// bits 0 to 6 of the operand, and the new carry is the operand's bit 7.
    pub proof fn lemma_rol(self, v: u8)
        ensures
            ({
                let (r, q) = self.unop_spec(UnOp::Rol, v);
                &&& r as int % 2 == carry_value(self.psw.c)
                &&& r as int / 2 == v as int % 128
                &&& q.c == (v >= 128)
                &&& q.z == (r == 0)
            }),
    {
    }

    /// ASL doubles the operand modulo 256 and moves bit 7 to the carry; LSR halves it
    /// and moves bit 0 to the carry; INC and DEC add and subtract one modulo 256 and
    /// keep the carry.
    pub proof fn lemma_shifts_and_steps(self, v: u8)
        ensures
            self.unop_spec(UnOp::Asl, v).0 as int == (2 * v) % 256,
            self.unop_spec(UnOp::Asl, v).1.c == (v >= 128),
            self.unop_spec(UnOp::Lsr, v).0 as int == v / 2,
            self.unop_spec(UnOp::Lsr, v).1.c == (v % 2 == 1),
            self.unop_spec(UnOp::Inc, v).0 as int == (v + 1) % 256,
            self.unop_spec(UnOp::Inc, v).1.c == self.psw.c,
            self.unop_spec(UnOp::Dec, v).0 as int == (v + 255) % 256,
            self.unop_spec(UnOp::Dec, v).1.c == self.psw.c,
    {
    }
}

/// CMP sets C exactly when the left operand is at least the right one, Z exactly when
/// they are equal, and N from bit 7 of their difference modulo 256.
pub proof fn lemma_compare(p: ProgramStatusWord, l: u8, r: u8)
    ensures
        compare_spec(p, l, r).c == (l >= r),
        compare_spec(p, l, r).z == (l == r),
        compare_spec(p, l, r).n == ((l - r) % 256 >= 128),
{
}

} // verus!
