use vstd::prelude::*;

use crate::bus_event::{BusEvent, value_at};
use crate::wdc65816::dispatch::{Mode, ReadOp, Reg, RmwOp, Width, hi, lemma_word_bytes, lo};
use crate::wdc65816::interrupts::Outcome;
use crate::wdc65816::modes::{io_if, rd};
use crate::wdc65816::processor::{HasAddressBus, Processor, nz16, nz8, read_u8, word, wrap16, wrap24, wrap8};
use crate::wdc65816::stack::{moved_s, pull_events, push_events};
use crate::wdc65816::status_register::StatusRegister;
use crate::wdc65816::u24::u24;

verus! {

/// A status flag that an instruction tests or sets.
#[derive(Clone, Copy)]
pub enum Flag {
    C,
    Z,
    N,
    V,
    D,
    I,
}

/// A write of `v` to `addr`.
pub open spec fn wr(addr: int, v: u8) -> BusEvent {
    BusEvent::Write { address: addr as usize, value: v }
}

/// The 16-bit two's complement extension of a signed byte.
pub open spec fn sign_extend(v: u8) -> u16 {
    if v < 0x80 { v as u16 } else { (v + 0xFF00) as u16 }
}

impl Processor {
    pub open spec fn flag(self, f: Flag) -> bool {
        match f {
            Flag::C => self.p.c,
            Flag::Z => self.p.z,
            Flag::N => self.p.n,
            Flag::V => self.p.v,
            Flag::D => self.p.d,
            Flag::I => self.p.i,
        }
    }

    pub open spec fn with_flag(self, f: Flag, b: bool) -> Processor {
        match f {
            Flag::C => Processor { p: StatusRegister { c: b, ..self.p }, ..self },
            Flag::Z => Processor { p: StatusRegister { z: b, ..self.p }, ..self },
            Flag::N => Processor { p: StatusRegister { n: b, ..self.p }, ..self },
            Flag::V => Processor { p: StatusRegister { v: b, ..self.p }, ..self },
            Flag::D => Processor { p: StatusRegister { d: b, ..self.p }, ..self },
            Flag::I => Processor { p: StatusRegister { i: b, ..self.p }, ..self },
        }
    }

    /// The low and high bytes of a register pair (zero for `Reg::Z`).
    pub open spec fn reg_bytes(self, r: Reg) -> (u8, u8) {
        match r {
            Reg::A => (self.a, self.b),
            Reg::X => (self.xl, self.xh),
            Reg::Y => (self.yl, self.yh),
            Reg::Z => (0, 0),
        }
    }

    /// The registers with a register pair replaced (nothing changes for `Reg::Z`).
    pub open spec fn with_reg(self, r: Reg, l: u8, h: u8) -> Processor {
        match r {
            Reg::A => Processor { a: l, b: h, ..self },
            Reg::X => Processor { xl: l, xh: h, ..self },
            Reg::Y => Processor { yl: l, yh: h, ..self },
            Reg::Z => self,
        }
    }

    /// The width flag that governs a register pair.
    pub open spec fn reg_width(r: Reg) -> Width {
        match r {
            Reg::A => Width::A,
            Reg::Z => Width::A,
            _ => Width::Xy,
        }
    }

    /// A read instruction: address, then one or two operand bytes.
    pub open spec fn read_func_spec(self, op: ReadOp, mode: Mode, w: Width, ev: Seq<BusEvent>, n: int) -> Outcome {
        let m = self.mode_spec(mode, ev, n);
        let k = n + m.events.len();
        if m.after.is_8bit(w) {
            Outcome {
                after: m.after.read8_spec(op, value_at(ev, k)),
                events: m.events + seq![rd(m.addr, ev, k)],
            }
        } else {
            Outcome {
                after: m.after.read16_spec(op, value_at(ev, k), value_at(ev, k + 1)),
                events: m.events + seq![rd(m.addr, ev, k), rd(wrap24(m.addr + 1), ev, k + 1)],
            }
        }
    }

    pub fn read_func<M: HasAddressBus>(&mut self, op: ReadOp, mode: Mode, w: Width, memory: &mut M)
        ensures
            final(memory).origin() == old(memory).origin(),
            old(memory).traced() ==> final(memory).traced(),
            ({
                let o = old(self).read_func_spec(op, mode, w, final(memory).bus_events(), old(memory).bus_events().len() as int);
                &&& *final(self) == o.after
                &&& final(memory).bus_events() == old(memory).bus_events() + o.events
            }),
    {
        let addr = self.address(mode, memory);
        let ghost mid = memory.bus_events();
        let ghost n = old(memory).bus_events().len() as int;
        if self.width_is_8bit(w) {
            let v = memory.read(addr.value() as usize);
            self.read_op_8(op, v);
        } else {
            let l = memory.read(addr.value() as usize);
            let h = memory.read(addr.wrapping_add(1u32).value() as usize);
            self.read_op_16(op, l, h);
        }
        proof {
            let ev = final(memory).bus_events();
            assert(ev.subrange(0, mid.len() as int) == mid);
            old(self).lemma_mode_frame(mode, mid, ev, n);
            assert(ev =~= old(memory).bus_events() + old(self).read_func_spec(op, mode, w, ev, old(memory).bus_events().len() as int).events);
        }
    }

    /// An immediate read: the operand is one byte, or two in 16-bit mode.
    pub open spec fn read_func_i_spec(self, op: ReadOp, w: Width, ev: Seq<BusEvent>, n: int) -> Outcome {
        let o = self.read_func_spec(op, Mode::I, w, ev, n);
        if !o.after.is_8bit(w) {
            Outcome { after: Processor { pc: o.after.pc_plus(1), ..o.after }, ..o }
        } else {
            o
        }
    }

    pub fn read_func_i<M: HasAddressBus>(&mut self, op: ReadOp, w: Width, memory: &mut M)
        ensures
            final(memory).origin() == old(memory).origin(),
            old(memory).traced() ==> final(memory).traced(),
            ({
                let o = old(self).read_func_i_spec(op, w, final(memory).bus_events(), old(memory).bus_events().len() as int);
                &&& *final(self) == o.after
                &&& final(memory).bus_events() == old(memory).bus_events() + o.events
            }),
    {
        self.read_func(op, Mode::I, w, memory);
        if !self.width_is_8bit(w) {
            self.pc = self.pc.wrapping_add(1);
        }
    }

    /// REP/SEP: clear or set the status bits given by an immediate byte, then one
    /// internal cycle.
    pub open spec fn read_status_spec(self, set: bool, ev: Seq<BusEvent>, n: int) -> Outcome {
        let m = self.mode_i();
        let v = value_at(ev, n);
        let byte = m.after.p.byte_spec(false) as u8;
        Outcome {
            after: if set { m.after.with_status_byte(v | byte) } else { m.after.with_status_byte(!v & byte) },
            events: seq![rd(m.addr, ev, n), BusEvent::Io],
        }
    }

    pub fn read_status<M: HasAddressBus>(&mut self, set: bool, memory: &mut M)
        ensures
            final(memory).origin() == old(memory).origin(),
            old(memory).traced() ==> final(memory).traced(),
            ({
                let o = old(self).read_status_spec(set, final(memory).bus_events(), old(memory).bus_events().len() as int);
                &&& *final(self) == o.after
                &&& final(memory).bus_events() == old(memory).bus_events() + o.events
            }),
    {
        let addr = self.i(memory);
        let v = memory.read(addr.value() as usize);
        memory.io();
        if set {
            self.sep(v);
        } else {
            self.rep(v);
        }
        proof {
            let ev = final(memory).bus_events();
            assert(ev =~= old(memory).bus_events() + old(self).read_status_spec(set, ev, old(memory).bus_events().len() as int).events);
        }
    }

    /// A store: one or two bytes of a register written at the effective address.
    pub open spec fn write_func_spec(self, reg: Reg, mode: Mode, w: Width, ev: Seq<BusEvent>, n: int) -> Outcome {
        let m = self.mode_spec(mode, ev, n);
        let (l, h) = m.after.reg_bytes(reg);
        Outcome {
            after: m.after,
            events: if m.after.is_8bit(w) {
                m.events + seq![wr(m.addr, l)]
            } else {
                m.events + seq![wr(m.addr, l), wr(wrap24(m.addr + 1), h)]
            },
        }
    }

    pub fn write_func<M: HasAddressBus>(&mut self, reg: Reg, mode: Mode, w: Width, memory: &mut M)
        ensures
            final(memory).origin() == old(memory).origin(),
            old(memory).traced() ==> final(memory).traced(),
            ({
                let o = old(self).write_func_spec(reg, mode, w, final(memory).bus_events(), old(memory).bus_events().len() as int);
                &&& *final(self) == o.after
                &&& final(memory).bus_events() == old(memory).bus_events() + o.events
            }),
    {
        let addr = self.address(mode, memory);
        let ghost mid = memory.bus_events();
        let ghost n = old(memory).bus_events().len() as int;
        if self.width_is_8bit(w) {
            let value = match reg {
                Reg::A => self.sta_8(),
                Reg::X => self.stx_8(),
                Reg::Y => self.sty_8(),
                Reg::Z => self.stz_8(),
            };
            memory.write(addr.value() as usize, value);
        } else {
            let (low, high) = match reg {
                Reg::A => self.sta_16(),
                Reg::X => self.stx_16(),
                Reg::Y => self.sty_16(),
                Reg::Z => self.stz_16(),
            };
            memory.write(addr.value() as usize, low);
            memory.write(addr.wrapping_add(1u32).value() as usize, high);
        }
        proof {
            let ev = final(memory).bus_events();
            assert(ev.subrange(0, mid.len() as int) == mid);
            old(self).lemma_mode_frame(mode, mid, ev, n);
            assert(ev =~= old(memory).bus_events() + old(self).write_func_spec(reg, mode, w, ev, old(memory).bus_events().len() as int).events);
        }
    }

    /// A read-modify-write on memory; the accumulator width decides the operand size.
    /// Absolute indexed operands take one more internal cycle.
    pub open spec fn rmw_func_spec(self, op: RmwOp, mode: Mode, ev: Seq<BusEvent>, n: int) -> Outcome {
        let m = self.mode_spec(mode, ev, n);
        let extra = io_if(mode is Ax);
        let k = n + m.events.len() + extra.len() + 1;
        if m.after.p.a_8bit() {
            let (r, after) = m.after.rmw8_spec(op, value_at(ev, k));
            Outcome { after, events: m.events + extra + seq![BusEvent::Io, rd(m.addr, ev, k), wr(m.addr, r)] }
        } else {
            let (r, after) = m.after.rmw16_spec(op, value_at(ev, k), value_at(ev, k + 1));
            Outcome {
                after,
                events: m.events + extra + seq![
                    BusEvent::Io,
                    rd(m.addr, ev, k),
                    rd(wrap24(m.addr + 1), ev, k + 1),
                    wr(m.addr, lo(r as int)),
                    wr(wrap24(m.addr + 1), hi(r as int)),
                ],
            }
        }
    }

    #[verifier::rlimit(80)]
    #[verifier::spinoff_prover]
    pub fn read_write_func<M: HasAddressBus>(&mut self, op: RmwOp, mode: Mode, memory: &mut M)
        ensures
            final(memory).origin() == old(memory).origin(),
            old(memory).traced() ==> final(memory).traced(),
            ({
                let o = old(self).rmw_func_spec(op, mode, final(memory).bus_events(), old(memory).bus_events().len() as int);
                &&& *final(self) == o.after
                &&& final(memory).bus_events() == old(memory).bus_events() + o.events
            }),
    {
        let address = self.address(mode, memory);
        let ghost mid0 = memory.bus_events();
        let ghost n = old(memory).bus_events().len() as int;
        if matches!(mode, Mode::Ax) {
            memory.io();
        }
        memory.io();
        let ghost mid = memory.bus_events();
        if self.p.a_is_8bit() {
            let v = memory.read(address.value() as usize);
            let value = self.rmw_op_8(op, v);
            memory.write(address.value() as usize, value);
        } else {
            let l = memory.read(address.value() as usize);
            let h = memory.read(address.wrapping_add(1u32).value() as usize);
            let (low, high) = self.rmw_op_16(op, l, h);
            proof {
                lemma_word_bytes(low, high);
            }
            memory.write(address.value() as usize, low);
            memory.write(address.wrapping_add(1u32).value() as usize, high);
        }
        proof {
            let ev = final(memory).bus_events();
            assert(ev.subrange(0, mid.len() as int) == mid);
            assert(ev.subrange(0, mid0.len() as int) == mid0);
            old(self).lemma_mode_frame(mode, mid0, ev, n);
            assert(ev =~= old(memory).bus_events() + old(self).rmw_func_spec(op, mode, ev, old(memory).bus_events().len() as int).events);
        }
    }

    /// A read-modify-write on a register (A, X or Y), with one internal cycle.
    pub open spec fn reg_func_spec(self, reg: Reg, op: RmwOp) -> Processor {
        let (l, h) = self.reg_bytes(reg);
        if !self.is_8bit(Self::reg_width(reg)) {
            let (r, after) = self.rmw16_spec(op, l, h);
            after.with_reg(reg, lo(r as int), hi(r as int))
        } else {
            let (r, after) = self.rmw8_spec(op, l);
            after.with_reg(reg, r, h)
        }
    }

    pub fn reg_func<M: HasAddressBus>(&mut self, reg: Reg, op: RmwOp, memory: &mut M)
        requires
            !(reg is Z),
        ensures
            final(memory).origin() == old(memory).origin(),
            old(memory).traced() ==> final(memory).traced(),
            *final(self) == old(self).reg_func_spec(reg, op),
            final(memory).bus_events() == old(memory).bus_events().push(BusEvent::Io),
    {
        memory.io();
        let w = match reg {
            Reg::A => Width::A,
            _ => Width::Xy,
        };
        let (l, h) = match reg {
            Reg::A => (self.a, self.b),
            Reg::X => (self.xl, self.xh),
            _ => (self.yl, self.yh),
        };
        if !self.width_is_8bit(w) {
            let (low, high) = self.rmw_op_16(op, l, h);
            proof {
                lemma_word_bytes(low, high);
            }
            match reg {
                Reg::A => {
                    self.a = low;
                    self.b = high;
                },
                Reg::X => {
                    self.xl = low;
                    self.xh = high;
                },
                _ => {
                    self.yl = low;
                    self.yh = high;
                },
            }
        } else {
            let r = self.rmw_op_8(op, l);
            match reg {
                Reg::A => self.a = r,
                Reg::X => self.xl = r,
                _ => self.yl = r,
            }
        }
    }

    /// A conditional branch on a flag: the signed offset byte is read, and taken
    /// branches cost an internal cycle (two when crossing a page in emulation mode).
    pub open spec fn branch_if_spec(self, f: Flag, value: bool, ev: Seq<BusEvent>, n: int) -> Outcome {
        let p1 = Processor { pc: self.pc_plus(1), ..self };
        let fetch = seq![rd(self.pc_addr() as int, ev, n)];
        if self.flag(f) == value {
            let pc = wrap16(p1.pc + sign_extend(value_at(ev, n)));
            Outcome {
                after: Processor { pc, ..p1 },
                events: fetch + seq![BusEvent::Io] + io_if(self.p.e && pc / 0x100 != p1.pc / 0x100),
            }
        } else {
            Outcome { after: p1, events: fetch }
        }
    }

    #[verifier::spinoff_prover]
    #[verifier::rlimit(40)]
    pub fn branch_if<M: HasAddressBus>(&mut self, f: Flag, value: bool, memory: &mut M)
        ensures
            final(memory).origin() == old(memory).origin(),
            old(memory).traced() ==> final(memory).traced(),
            ({
                let o = old(self).branch_if_spec(f, value, final(memory).bus_events(), old(memory).bus_events().len() as int);
                &&& *final(self) == o.after
                &&& final(memory).bus_events() == old(memory).bus_events() + o.events
            }),
    {
        let v = read_u8(memory, u24::from(self.pbr, self.pc));
        let offset: u16 = if v < 0x80 { v as u16 } else { v as u16 + 0xFF00 };
        self.pc = self.pc.wrapping_add(1);
        let current = match f {
            Flag::C => self.p.c,
            Flag::Z => self.p.z,
            Flag::N => self.p.n,
            Flag::V => self.p.v,
            Flag::D => self.p.d,
            Flag::I => self.p.i,
        };
        let ghost mid = memory.bus_events();
        if current == value {
            self.branch(memory, offset);
        }
        proof {
            let ev = final(memory).bus_events();
            assert(ev.subrange(0, mid.len() as int) == mid);
            assert(ev =~= old(memory).bus_events() + old(self).branch_if_spec(f, value, ev, old(memory).bus_events().len() as int).events);
        }
    }

    /// Set or clear a flag, with one internal cycle.
    pub fn set_flag<M: HasAddressBus>(&mut self, f: Flag, value: bool, memory: &mut M)
        ensures
            final(memory).origin() == old(memory).origin(),
            old(memory).traced() ==> final(memory).traced(),
            *final(self) == old(self).with_flag(f, value),
            final(memory).bus_events() == old(memory).bus_events().push(BusEvent::Io),
    {
        memory.io();
        match f {
            Flag::C => self.p.c = value,
            Flag::Z => self.p.z = value,
            Flag::N => self.p.n = value,
            Flag::V => self.p.v = value,
            Flag::D => self.p.d = value,
            Flag::I => self.p.i = value,
        }
    }

    /// Push a register pair: both bytes when 16 bits wide, else the low byte.
    pub open spec fn push_reg_spec(self, reg: Reg) -> Outcome {
        let (l, h) = self.reg_bytes(reg);
        let e = self.p.e;
        if !self.is_8bit(Self::reg_width(reg)) {
            Outcome {
                after: Processor { s: moved_s(self.s, -2, e), ..self },
                events: seq![BusEvent::Io] + push_events(self.s, e, seq![h, l]),
            }
        } else {
            Outcome {
                after: Processor { s: moved_s(self.s, -1, e), ..self },
                events: seq![BusEvent::Io] + push_events(self.s, e, seq![l]),
            }
        }
    }

    pub fn push_reg<M: HasAddressBus>(&mut self, reg: Reg, memory: &mut M)
        requires
            !(reg is Z),
        ensures
            final(memory).origin() == old(memory).origin(),
            old(memory).traced() ==> final(memory).traced(),
            *final(self) == old(self).push_reg_spec(reg).after,
            final(memory).bus_events() == old(memory).bus_events() + old(self).push_reg_spec(reg).events,
    {
        memory.io();
        let w = match reg {
            Reg::A => Width::A,
            _ => Width::Xy,
        };
        let (l, h) = match reg {
            Reg::A => (self.a, self.b),
            Reg::X => (self.xl, self.xh),
            _ => (self.yl, self.yh),
        };
        let e = self.p.e;
        if !self.width_is_8bit(w) {
            self.push_u16_le(l, h, e, memory);
        } else {
            self.push_u8(l, e, memory);
        }
        assert(final(memory).bus_events() =~= old(memory).bus_events() + old(self).push_reg_spec(reg).events);
    }

    /// Push a single byte with one internal cycle first.
    pub fn push_reg_8<M: HasAddressBus>(&mut self, value: u8, memory: &mut M)
        ensures
            final(memory).origin() == old(memory).origin(),
            old(memory).traced() ==> final(memory).traced(),
            *final(self) == (Processor { s: moved_s(old(self).s, -1, old(self).p.e), ..*old(self) }),
            final(memory).bus_events() == old(memory).bus_events() + seq![BusEvent::Io] + push_events(
                old(self).s,
                old(self).p.e,
                seq![value],
            ),
    {
        memory.io();
        let e = self.p.e;
        self.push_u8(value, e, memory);
        assert(final(memory).bus_events() =~= old(memory).bus_events() + seq![BusEvent::Io] + push_events(
            old(self).s,
            old(self).p.e,
            seq![value],
        ));
    }

    /// Pull a register pair (two internal cycles first) and set N and Z from it.
    pub open spec fn pull_reg_spec(self, reg: Reg, ev: Seq<BusEvent>, n: int) -> Outcome {
        let e = self.p.e;
        let (l0, h0) = self.reg_bytes(reg);
        if !self.is_8bit(Self::reg_width(reg)) {
            let l = value_at(ev, n + 2);
            let h = value_at(ev, n + 3);
            Outcome {
                after: Processor { s: moved_s(self.s, 2, e), p: nz16(self.p, l, h), ..self }.with_reg(reg, l, h),
                events: seq![BusEvent::Io, BusEvent::Io] + pull_events(self.s, e, 2, ev, n + 2),
            }
        } else {
            let l = value_at(ev, n + 2);
            Outcome {
                after: Processor { s: moved_s(self.s, 1, e), p: nz8(self.p, l), ..self }.with_reg(reg, l, h0),
                events: seq![BusEvent::Io, BusEvent::Io] + pull_events(self.s, e, 1, ev, n + 2),
            }
        }
    }

    pub fn pull_reg<M: HasAddressBus>(&mut self, reg: Reg, memory: &mut M)
        requires
            !(reg is Z),
        ensures
            final(memory).origin() == old(memory).origin(),
            old(memory).traced() ==> final(memory).traced(),
            ({
                let o = old(self).pull_reg_spec(reg, final(memory).bus_events(), old(memory).bus_events().len() as int);
                &&& *final(self) == o.after
                &&& final(memory).bus_events() == old(memory).bus_events() + o.events
            }),
    {
        memory.io();
        memory.io();
        let w = match reg {
            Reg::A => Width::A,
            _ => Width::Xy,
        };
        let e = self.p.e;
        if !self.width_is_8bit(w) {
            let (low, high) = self.pull_u16_le(e, memory);
            match reg {
                Reg::A => {
                    self.a = low;
                    self.b = high;
                },
                Reg::X => {
                    self.xl = low;
                    self.xh = high;
                },
                _ => {
                    self.yl = low;
                    self.yh = high;
                },
            }
            self.p.n = (high & 0x80) != 0;
            proof {
                crate::bits::lemma_sign(high);
            }
            self.p.z = high == 0 && low == 0;
        } else {
            let v = self.pull_u8(e, memory);
            match reg {
                Reg::A => self.a = v,
                Reg::X => self.xl = v,
                _ => self.yl = v,
            }
            self.p.n = (v & 0x80) != 0;
            proof {
                crate::bits::lemma_sign(v);
            }
            self.p.z = v == 0;
        }
        proof {
            let ev = final(memory).bus_events();
            assert(ev =~= old(memory).bus_events() + old(self).pull_reg_spec(reg, ev, old(memory).bus_events().len() as int).events);
        }
    }
}

/// Sign extension keeps the low byte and fills the high byte with the sign bit: the
/// result read as a signed 16-bit number is the byte read as a signed 8-bit number.
pub proof fn lemma_sign_extend(v: u8)
    ensures
        sign_extend(v) % 256 == v,
        v < 0x80 ==> sign_extend(v) / 256 == 0,
        v >= 0x80 ==> sign_extend(v) / 256 == 0xFF,
        (if sign_extend(v) < 0x8000 { sign_extend(v) as int } else { sign_extend(v) - 0x10000 }) == (if v
            < 0x80 { v as int } else { v - 256 }),
{
}

} // verus!
