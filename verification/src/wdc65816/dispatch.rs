use vstd::prelude::*;

use crate::bus_event::{BusEvent, value_at};
use crate::wdc65816::alu::{adc_spec, sbc_d_spec};
use crate::wdc65816::modes::{ModeResult, io_if, rd};
use crate::wdc65816::processor::{HasAddressBus, Processor, nz16, nz8, word, wrap16, wrap24, wrap8};
use crate::wdc65816::status_register::{StatusRegister, flag_bit};
use crate::wdc65816::u24::u24;

verus! {

/// The addressing modes of instructions with a memory operand.
#[derive(Clone, Copy)]
pub enum Mode {
    I,
    A,
    Ax,
    Ay,
    Al,
    Alx,
    D,
    Dx,
    Dy,
    Di,
    Dix,
    Diy,
    Dil,
    Dily,
    Sr,
    Sriy,
}

/// Operations that read an operand.
#[derive(Clone, Copy)]
pub enum ReadOp {
    Adc,
    And,
    Bit,
    BitI,
    Cmp,
    Cpx,
    Cpy,
    Eor,
    Lda,
    Ldx,
    Ldy,
    Ora,
    Sbc,
}

/// Operations that read an operand and write back a result.
#[derive(Clone, Copy)]
pub enum RmwOp {
    Asl,
    Dec,
    Inc,
    Lsr,
    Rol,
    Ror,
    Trb,
    Tsb,
}

/// Which width flag governs an operation: the accumulator's or the index registers'.
#[derive(Clone, Copy)]
pub enum Width {
    A,
    Xy,
}

/// A register pair (low and high byte).
#[derive(Clone, Copy)]
pub enum Reg {
    A,
    X,
    Y,
    Z,
}

/// The low and high halves of a 16-bit number.
pub open spec fn lo(w: int) -> u8 {
    wrap8(w)
}

pub open spec fn hi(w: int) -> u8 {
    wrap8(w / 0x100)
}

/// A word split into bytes gives those bytes back.
pub proof fn lemma_word_bytes(a: u8, b: u8)
    ensures
        lo(word(a, b) as int) == a,
        hi(word(a, b) as int) == b,
{
}

/// A log that extends another agrees with it on the first four values from `n` on.
pub proof fn lemma_same_prefix(ev1: Seq<BusEvent>, ev2: Seq<BusEvent>, n: int)
    requires
        0 <= n,
        ev1.len() <= ev2.len(),
        ev2.subrange(0, ev1.len() as int) == ev1,
    ensures
        n + 1 <= ev1.len() ==> value_at(ev1, n) == value_at(ev2, n),
        n + 2 <= ev1.len() ==> value_at(ev1, n + 1) == value_at(ev2, n + 1),
        n + 3 <= ev1.len() ==> value_at(ev1, n + 2) == value_at(ev2, n + 2),
        n + 4 <= ev1.len() ==> value_at(ev1, n + 3) == value_at(ev2, n + 3),
{
    assert forall|i: int| 0 <= i < ev1.len() implies value_at(ev1, i) == value_at(ev2, i) by {
        assert(ev1[i] == ev2.subrange(0, ev1.len() as int)[i]);
    }
}

impl Processor {
    /// Whether the given width flag selects 8 bits.
    pub open spec fn is_8bit(self, w: Width) -> bool {
        match w {
            Width::A => self.p.a_8bit(),
            Width::Xy => self.p.xy_8bit(),
        }
    }

    pub fn width_is_8bit(&self, w: Width) -> (r: bool)
        ensures
            r == self.is_8bit(w),
    {
        match w {
            Width::A => self.p.a_is_8bit(),
            Width::Xy => self.p.xy_is_8bit(),
        }
    }

    /// The outcome of any addressing mode.
    #[verifier::opaque]
    pub open spec fn mode_spec(self, mode: Mode, ev: Seq<BusEvent>, n: int) -> ModeResult {
        match mode {
            Mode::I => self.mode_i(),
            Mode::A => self.mode_a(ev, n),
            Mode::Ax => self.mode_a_off(ev, n, self.x_spec()),
            Mode::Ay => self.mode_a_off(ev, n, self.y_spec()),
            Mode::Al => self.mode_al(ev, n),
            Mode::Alx => {
                let m = self.mode_al(ev, n);
                ModeResult { addr: wrap24(m.addr + self.x_spec()), ..m }
            },
            Mode::D => self.mode_d(ev, n),
            Mode::Dx => self.mode_d_off(ev, n, self.x_spec()),
            Mode::Dy => self.mode_d_off(ev, n, self.y_spec()),
            Mode::Di => self.mode_di(ev, n),
            Mode::Dix => self.mode_dix(ev, n),
            Mode::Diy => {
                let m = self.mode_di(ev, n);
                ModeResult { addr: wrap24(m.addr + self.y_spec()), ..m }
            },
            Mode::Dil => self.mode_dil(ev, n),
            Mode::Dily => {
                let m = self.mode_dil(ev, n);
                ModeResult { addr: wrap24(m.addr + self.y_spec()), ..m }
            },
            Mode::Sr => self.mode_sr(ev, n),
            Mode::Sriy => self.mode_sriy(ev, n),
        }
    }

    /// Addressing modes only move the program counter, and their outcome depends only on
    /// the events they performed.
    #[verifier::rlimit(100)]
    #[verifier::spinoff_prover]
    pub proof fn lemma_mode_frame(self, mode: Mode, ev1: Seq<BusEvent>, ev2: Seq<BusEvent>, n: int)
        requires
            0 <= n,
            ev1.len() == n + self.mode_spec(mode, ev1, n).events.len(),
            ev1.len() <= ev2.len(),
            ev2.subrange(0, ev1.len() as int) == ev1,
        ensures
            self.mode_spec(mode, ev1, n) == self.mode_spec(mode, ev2, n),
            self.mode_spec(mode, ev1, n).after == (Processor { pc: self.mode_spec(mode, ev1, n).after.pc, ..self }),
    {
        reveal(Processor::mode_spec);
        lemma_same_prefix(ev1, ev2, n);
        match mode {
            Mode::I => {},
            Mode::A => {},
            Mode::Ax => {},
            Mode::Ay => {},
            Mode::Al => {},
            Mode::Alx => {},
            Mode::D => {},
            Mode::Dx => {},
            Mode::Dy => {},
            Mode::Di => {},
            Mode::Dix => {},
            Mode::Diy => {},
            Mode::Dil => {},
            Mode::Dily => {},
            Mode::Sr => {},
            Mode::Sriy => {},
        }
    }

    /// Compute the effective address of an addressing mode.
    pub fn address<M: HasAddressBus>(&mut self, mode: Mode, memory: &mut M) -> (r: u24)
        ensures
            final(memory).origin() == old(memory).origin(),
            old(memory).traced() ==> final(memory).traced(),
            ({
                let m = old(self).mode_spec(mode, final(memory).bus_events(), old(memory).bus_events().len() as int);
                &&& r.val() == m.addr
                &&& *final(self) == m.after
                &&& final(memory).bus_events() == old(memory).bus_events() + m.events
            }),
    {
        reveal(Processor::mode_spec);
        match mode {
            Mode::I => self.i(memory),
            Mode::A => self.a(memory),
            Mode::Ax => self.ax(memory),
            Mode::Ay => self.ay(memory),
            Mode::Al => self.al(memory),
            Mode::Alx => self.alx(memory),
            Mode::D => self.d(memory),
            Mode::Dx => self.dx(memory),
            Mode::Dy => self.dy(memory),
            Mode::Di => self.di(memory),
            Mode::Dix => self.dix(memory),
            Mode::Diy => self.diy(memory),
            Mode::Dil => self.dil(memory),
            Mode::Dily => self.dily(memory),
            Mode::Sr => self.sr(memory),
            Mode::Sriy => self.sriy(memory),
        }
    }

    /// The registers after an 8-bit read operation on `v`.
    #[verifier::opaque]
    pub open spec fn read8_spec(self, op: ReadOp, v: u8) -> Processor {
        match op {
            ReadOp::Adc => self.adc_8_spec(v),
            ReadOp::And => Processor { a: self.a & v, p: nz8(self.p, self.a & v), ..self },
            ReadOp::Bit => Processor {
                p: StatusRegister { n: v >= 0x80, v: v & 0x40 != 0, z: v & self.a == 0, ..self.p },
                ..self
            },
            ReadOp::BitI => Processor { p: StatusRegister { z: v & self.a == 0, ..self.p }, ..self },
            ReadOp::Cmp => self.compare_8_spec(self.a, v),
            ReadOp::Cpx => self.compare_8_spec(self.xl, v),
            ReadOp::Cpy => self.compare_8_spec(self.yl, v),
            ReadOp::Eor => Processor { a: self.a ^ v, p: nz8(self.p, self.a ^ v), ..self },
            ReadOp::Lda => Processor { a: v, p: nz8(self.p, v), ..self },
            ReadOp::Ldx => Processor { xl: v, p: nz8(self.p, v), ..self },
            ReadOp::Ldy => Processor { yl: v, p: nz8(self.p, v), ..self },
            ReadOp::Ora => Processor { a: self.a | v, p: nz8(self.p, self.a | v), ..self },
            ReadOp::Sbc => self.sbc_8_spec(v),
        }
    }

    /// The registers after a 16-bit read operation on the bytes `l` and `h`.
    #[verifier::opaque]
    pub open spec fn read16_spec(self, op: ReadOp, l: u8, h: u8) -> Processor {
        match op {
            ReadOp::Adc => self.adc_16_spec(l, h),
            ReadOp::And => Processor {
                a: self.a & l,
                b: self.b & h,
                p: nz16(self.p, self.a & l, self.b & h),
                ..self
            },
            ReadOp::Bit => Processor {
                p: StatusRegister {
                    n: h >= 0x80,
                    v: h & 0x40 != 0,
                    z: (h & self.b) | (l & self.a) == 0,
                    ..self.p
                },
                ..self
            },
            ReadOp::BitI => Processor {
                p: StatusRegister { z: (self.a & l) | (self.b & h) == 0, ..self.p },
                ..self
            },
            ReadOp::Cmp => self.compare_16_spec(self.c_true_spec(), word(l, h)),
            ReadOp::Cpx => self.compare_16_spec(word(self.xl, self.xh), word(l, h)),
            ReadOp::Cpy => self.compare_16_spec(word(self.yl, self.yh), word(l, h)),
            ReadOp::Eor => Processor {
                a: self.a ^ l,
                b: self.b ^ h,
                p: nz16(self.p, self.a ^ l, self.b ^ h),
                ..self
            },
            ReadOp::Lda => Processor { a: l, b: h, p: nz16(self.p, l, h), ..self },
            ReadOp::Ldx => Processor { xl: l, xh: h, p: nz16(self.p, l, h), ..self },
            ReadOp::Ldy => Processor { yl: l, yh: h, p: nz16(self.p, l, h), ..self },
            ReadOp::Ora => Processor {
                a: self.a | l,
                b: self.b | h,
                p: nz16(self.p, self.a | l, self.b | h),
                ..self
            },
            ReadOp::Sbc => self.sbc_16_spec(l, h),
        }
    }

    /// Perform an 8-bit read operation.
    pub fn read_op_8(&mut self, op: ReadOp, v: u8)
        ensures
            *final(self) == old(self).read8_spec(op, v),
    {
        reveal(Processor::read8_spec);
        match op {
            ReadOp::Adc => self.adc_8(v),
            ReadOp::And => self.and_8(v),
            ReadOp::Bit => self.bit_8(v),
            ReadOp::BitI => self.bit_i_8(v),
            ReadOp::Cmp => self.cmp_8(v),
            ReadOp::Cpx => self.cpx_8(v),
            ReadOp::Cpy => self.cpy_8(v),
            ReadOp::Eor => self.eor_8(v),
            ReadOp::Lda => self.lda_8(v),
            ReadOp::Ldx => self.ldx_8(v),
            ReadOp::Ldy => self.ldy_8(v),
            ReadOp::Ora => self.ora_8(v),
            ReadOp::Sbc => self.sbc_8(v),
        }
    }

    /// Perform a 16-bit read operation.
    pub fn read_op_16(&mut self, op: ReadOp, l: u8, h: u8)
        ensures
            *final(self) == old(self).read16_spec(op, l, h),
    {
        reveal(Processor::read16_spec);
        match op {
            ReadOp::Adc => self.adc_16(l, h),
            ReadOp::And => self.and_16(l, h),
            ReadOp::Bit => self.bit_16(l, h),
            ReadOp::BitI => self.bit_i_16(l, h),
            ReadOp::Cmp => self.cmp_16(l, h),
            ReadOp::Cpx => self.cpx_16(l, h),
            ReadOp::Cpy => self.cpy_16(l, h),
            ReadOp::Eor => self.eor_16(l, h),
            ReadOp::Lda => self.lda_16(l, h),
            ReadOp::Ldx => self.ldx_16(l, h),
            ReadOp::Ldy => self.ldy_16(l, h),
            ReadOp::Ora => self.ora_16(l, h),
            ReadOp::Sbc => self.sbc_16(l, h),
        }
    }

    /// The result and registers after an 8-bit read-modify-write operation on `v`.
    #[verifier::opaque]
    pub open spec fn rmw8_spec(self, op: RmwOp, v: u8) -> (u8, Processor) {
        match op {
            RmwOp::Asl => (
                wrap8(2 * v),
                Processor { p: StatusRegister { c: v >= 0x80, ..nz8(self.p, wrap8(2 * v)) }, ..self },
            ),
            RmwOp::Dec => (wrap8(v - 1), Processor { p: nz8(self.p, wrap8(v - 1)), ..self }),
            RmwOp::Inc => (wrap8(v + 1), Processor { p: nz8(self.p, wrap8(v + 1)), ..self }),
            RmwOp::Lsr => (
                v / 2,
                Processor { p: StatusRegister { c: v % 2 == 1, ..nz8(self.p, v / 2) }, ..self },
            ),
            RmwOp::Rol => {
                let r = (wrap8(2 * v) + flag_bit(self.p.c)) as u8;
                (r, Processor { p: StatusRegister { c: v >= 0x80, ..nz8(self.p, r) }, ..self })
            },
            RmwOp::Ror => {
                let r = (v / 2 + 0x80 * flag_bit(self.p.c)) as u8;
                (r, Processor { p: StatusRegister { c: v % 2 == 1, ..nz8(self.p, r) }, ..self })
            },
            RmwOp::Trb => (!self.a & v, Processor { p: StatusRegister { z: self.a & v == 0, ..self.p }, ..self }),
            RmwOp::Tsb => (self.a | v, Processor { p: StatusRegister { z: self.a & v == 0, ..self.p }, ..self }),
        }
    }

    /// The result (as a 16-bit number) and registers after a 16-bit read-modify-write
    /// operation on the bytes `l` and `h`.
    #[verifier::opaque]
    pub open spec fn rmw16_spec(self, op: RmwOp, l: u8, h: u8) -> (u16, Processor) {
        let w = word(l, h) as int;
        let r = match op {
            RmwOp::Asl => wrap16(2 * w),
            RmwOp::Dec => wrap16(w - 1),
            RmwOp::Inc => wrap16(w + 1),
            RmwOp::Lsr => (w / 2) as u16,
            RmwOp::Rol => wrap16(2 * w + flag_bit(self.p.c)),
            RmwOp::Ror => (w / 2 + 0x8000 * flag_bit(self.p.c)) as u16,
            RmwOp::Trb => word(!self.a & l, !self.b & h),
            RmwOp::Tsb => word(self.a | l, self.b | h),
        };
        let nz = nz16(self.p, lo(r as int), hi(r as int));
        let p = match op {
            RmwOp::Asl => StatusRegister { c: w >= 0x8000, ..nz },
            RmwOp::Rol => StatusRegister { c: w >= 0x8000, ..nz },
            RmwOp::Lsr => StatusRegister { c: l % 2 == 1, ..nz },
            RmwOp::Ror => StatusRegister { c: l % 2 == 1, ..nz },
            RmwOp::Dec => nz,
            RmwOp::Inc => nz,
            RmwOp::Trb => StatusRegister { z: (self.a & l) | (self.b & h) == 0, ..self.p },
            RmwOp::Tsb => StatusRegister { z: (self.a & l) | (self.b & h) == 0, ..self.p },
        };
        (r, Processor { p, ..self })
    }

    /// Perform an 8-bit read-modify-write operation.
    pub fn rmw_op_8(&mut self, op: RmwOp, v: u8) -> (r: u8)
        ensures
            (r, *final(self)) == old(self).rmw8_spec(op, v),
            *final(self) == (Processor { p: final(self).p, ..*old(self) }),
    {
        reveal(Processor::rmw8_spec);
        match op {
            RmwOp::Asl => self.asl_8(v),
            RmwOp::Dec => self.dec_8(v),
            RmwOp::Inc => self.inc_8(v),
            RmwOp::Lsr => self.lsr_8(v),
            RmwOp::Rol => self.rol_8(v),
            RmwOp::Ror => self.ror_8(v),
            RmwOp::Trb => self.trb_8(v),
            RmwOp::Tsb => self.tsb_8(v),
        }
    }

    /// Perform a 16-bit read-modify-write operation.
    pub fn rmw_op_16(&mut self, op: RmwOp, l: u8, h: u8) -> (r: (u8, u8))
        ensures
            (word(r.0, r.1), *final(self)) == old(self).rmw16_spec(op, l, h),
            *final(self) == (Processor { p: final(self).p, ..*old(self) }),
    {
        reveal(Processor::rmw16_spec);
        let r = match op {
            RmwOp::Asl => self.asl_16(l, h),
            RmwOp::Dec => self.dec_16(l, h),
            RmwOp::Inc => self.inc_16(l, h),
            RmwOp::Lsr => self.lsr_16(l, h),
            RmwOp::Rol => self.rol_16(l, h),
            RmwOp::Ror => self.ror_16(l, h),
            RmwOp::Trb => self.trb_16(l, h),
            RmwOp::Tsb => self.tsb_16(l, h),
        };
        proof {
            lemma_word_bytes(r.0, r.1);
        }
        r
    }
}

/// The carry as a number.
pub open spec fn carry_bit(c: bool) -> int {
    if c { 1 } else { 0 }
}

/// The 8-bit shifts and rotates: ROR puts the old carry in bit 7 and bits 1 to 7 of
/// the operand below it, and moves bit 0 to the carry; ROL puts the old carry in bit 0
/// and bits 0 to 6 above it, and moves bit 7 to the carry; ASL and LSR shift in zero;
/// INC and DEC count modulo 256 and keep the carry.
pub proof fn lemma_rmw8_arithmetic(p: Processor, v: u8)
    ensures
        ({
            let c = carry_bit(p.p.c);
            let (ror, pr) = p.rmw8_spec(RmwOp::Ror, v);
            let (rol, pl) = p.rmw8_spec(RmwOp::Rol, v);
            let (asl, pa) = p.rmw8_spec(RmwOp::Asl, v);
            let (lsr, ps) = p.rmw8_spec(RmwOp::Lsr, v);
            let (inc, pi) = p.rmw8_spec(RmwOp::Inc, v);
            let (dec, pd) = p.rmw8_spec(RmwOp::Dec, v);
            &&& ror as int / 128 == c && ror as int % 128 == v as int / 2 && pr.p.c == (v % 2 == 1)
            &&& rol as int % 2 == c && rol as int / 2 == v as int % 128 && pl.p.c == (v >= 128)
            &&& asl as int == (2 * v) % 256 && pa.p.c == (v >= 128)
            &&& lsr as int == v as int / 2 && ps.p.c == (v % 2 == 1)
            &&& inc as int == (v + 1) % 256 && pi.p.c == p.p.c
            &&& dec as int == (v + 255) % 256 && pd.p.c == p.p.c
        }),
{
    reveal(Processor::rmw8_spec);
}

/// The 16-bit shifts and rotates on the word `w` of `l` and `h`: ROR puts the old
/// carry in bit 15 and bits 1 to 15 of `w` below it, and moves bit 0 to the carry; ROL
/// puts the old carry in bit 0 and bits 0 to 14 above it, and moves bit 15 to the
/// carry; ASL and LSR shift in zero.
pub proof fn lemma_rmw16_arithmetic(p: Processor, l: u8, h: u8)
    ensures
        ({
            let c = carry_bit(p.p.c);
            let w = l + 0x100 * h;
            let (ror, pr) = p.rmw16_spec(RmwOp::Ror, l, h);
            let (rol, pl) = p.rmw16_spec(RmwOp::Rol, l, h);
            let (asl, pa) = p.rmw16_spec(RmwOp::Asl, l, h);
            let (lsr, ps) = p.rmw16_spec(RmwOp::Lsr, l, h);
            &&& ror as int / 0x8000 == c && ror as int % 0x8000 == w / 2 && pr.p.c == (w % 2 == 1)
            &&& rol as int % 2 == c && rol as int / 2 == w % 0x8000 && pl.p.c == (w >= 0x8000)
            &&& asl as int == (2 * w) % 0x10000 && pa.p.c == (w >= 0x8000)
            &&& lsr as int == w / 2 && ps.p.c == (w % 2 == 1)
        }),
{
    lemma_rmw16_rotates(p, l, h);
    lemma_rmw16_shifts(p, l, h);
}

proof fn lemma_rmw16_rotates(p: Processor, l: u8, h: u8)
    ensures
        ({
            let c = carry_bit(p.p.c);
            let w = l + 0x100 * h;
            let (ror, pr) = p.rmw16_spec(RmwOp::Ror, l, h);
            let (rol, pl) = p.rmw16_spec(RmwOp::Rol, l, h);
            &&& ror as int / 0x8000 == c && ror as int % 0x8000 == w / 2 && pr.p.c == (w % 2 == 1)
            &&& rol as int % 2 == c && rol as int / 2 == w % 0x8000 && pl.p.c == (w >= 0x8000)
        }),
{
    let c = carry_bit(p.p.c);
    let w = l + 0x100 * h;
    assert(word(l, h) as int == w);
    assert(w % 2 == l % 2);
    assert(p.rmw16_spec(RmwOp::Ror, l, h).0 as int == w / 2 + 0x8000 * c) by {
        reveal(Processor::rmw16_spec);
    }
    assert(p.rmw16_spec(RmwOp::Rol, l, h).0 as int == (2 * w + c) % 0x10000) by {
        reveal(Processor::rmw16_spec);
    }
    assert(p.rmw16_spec(RmwOp::Ror, l, h).1.p.c == (l % 2 == 1)) by {
        reveal(Processor::rmw16_spec);
    }
    assert(p.rmw16_spec(RmwOp::Rol, l, h).1.p.c == (w >= 0x8000)) by {
        reveal(Processor::rmw16_spec);
    }
    if w >= 0x8000 {
        assert((2 * w + c) % 0x10000 == 2 * (w - 0x8000) + c);
    } else {
        assert((2 * w + c) % 0x10000 == 2 * w + c);
    }
}

proof fn lemma_rmw16_shifts(p: Processor, l: u8, h: u8)
    ensures
        ({
            let w = l + 0x100 * h;
            let (asl, pa) = p.rmw16_spec(RmwOp::Asl, l, h);
            let (lsr, ps) = p.rmw16_spec(RmwOp::Lsr, l, h);
            &&& asl as int == (2 * w) % 0x10000 && pa.p.c == (w >= 0x8000)
            &&& lsr as int == w / 2 && ps.p.c == (w % 2 == 1)
        }),
{
    let w = l + 0x100 * h;
    assert(word(l, h) as int == w);
    assert(w % 2 == l % 2);
    assert(p.rmw16_spec(RmwOp::Asl, l, h).0 as int == (2 * w) % 0x10000) by {
        reveal(Processor::rmw16_spec);
    }
    assert(p.rmw16_spec(RmwOp::Lsr, l, h).0 as int == w / 2) by {
        reveal(Processor::rmw16_spec);
    }
    assert(p.rmw16_spec(RmwOp::Asl, l, h).1.p.c == (w >= 0x8000)) by {
        reveal(Processor::rmw16_spec);
    }
    assert(p.rmw16_spec(RmwOp::Lsr, l, h).1.p.c == (l % 2 == 1)) by {
        reveal(Processor::rmw16_spec);
    }
}

/// Comparisons set C exactly when the register is at least the operand and Z exactly
/// when they are equal, in both widths.
pub proof fn lemma_compare_flags(p: Processor, a: u8, b: u8, wa: u16, wb: u16)
    ensures
        p.compare_8_spec(a, b).p.c == (a >= b),
        p.compare_8_spec(a, b).p.z == (a == b),
        p.compare_16_spec(wa, wb).p.c == (wa >= wb),
        p.compare_16_spec(wa, wb).p.z == (wa == wb),
{
}

} // verus!
