use vstd::prelude::*;

use crate::bus_event::{BusEvent, value_at};
use crate::spc700::alu::{BinOp, UnOp, binop_spec, compare_spec};
use crate::spc700::modes::{Mode, ModeResult, Outcome};
use crate::spc700::processor::{HasAddressBus, Processor, nz, rd, w16, w8, wr};

verus! {

/// A register named by an instruction.
#[derive(Clone, Copy, Debug)]
pub enum R {
    A,
    X,
    Y,
    Sp,
}

/// The signed value of a byte.
pub open spec fn signed(v: u8) -> int {
    if v < 0x80 { v as int } else { v - 256 }
}

/// Where a relative branch lands: the signed offset is added to the address after the
/// operand, wrapping around the 64 KiB address space.
pub open spec fn branch_target(pc1: u16, offset: u8) -> u16 {
    ((pc1 + signed(offset)) % 0x10000) as u16
}

impl Processor {
    /// The value of a register.
    pub open spec fn reg(self, r: R) -> u8 {
        match r {
            R::A => self.a,
            R::X => self.x,
            R::Y => self.y,
            R::Sp => self.sp,
        }
    }

    /// The registers with one register replaced.
    pub open spec fn with_reg(self, r: R, v: u8) -> Processor {
        match r {
            R::A => Processor { a: v, ..self },
            R::X => Processor { x: v, ..self },
            R::Y => Processor { y: v, ..self },
            R::Sp => Processor { sp: v, ..self },
        }
    }

    pub fn get_reg(&self, r: R) -> (v: u8)
        ensures
            v == self.reg(r),
    {
        match r {
            R::A => self.a,
            R::X => self.x,
            R::Y => self.y,
            R::Sp => self.sp,
        }
    }

    pub fn set_reg(&mut self, r: R, v: u8)
        ensures
            *final(self) == old(self).with_reg(r, v),
    {
        match r {
            R::A => self.a = v,
            R::X => self.x = v,
            R::Y => self.y = v,
            R::Sp => self.sp = v,
        }
    }

    /// The address of an operand and the read of its value.
    pub open spec fn operand(self, m: Mode, ev: Seq<BusEvent>, n: int) -> (ModeResult, u8, Seq<BusEvent>) {
        let r = self.mode_spec(m, ev, n);
        let k = n + r.events.len();
        (r, value_at(ev, k), r.events + seq![rd(r.addr, ev, k)])
    }

    /// Read the operand of an addressing mode.
    pub fn read_operand<M: HasAddressBus>(&mut self, m: Mode, bus: &mut M) -> (res: (usize, u8))
        ensures
            ({
                let (r, v, events) = old(self).operand(m, final(bus).bus_events(), old(bus).bus_events().len() as int);
                &&& res == (r.addr as usize, v)
                &&& *final(self) == r.after
                &&& final(bus).bus_events() == old(bus).bus_events() + events
            }),
    {
        let addr = self.address(m, bus);
        let ghost mid = bus.bus_events();
        let v = bus.read(addr);
        proof {
            let ev = bus.bus_events();
            let n = old(bus).bus_events().len() as int;
            assert(ev.subrange(0, mid.len() as int) =~= mid);
            old(self).lemma_mode_frame(m, mid, ev, n);
            assert(ev =~= old(bus).bus_events() + old(self).operand(m, ev, n).2);
        }
        (addr, v)
    }

    /// A = A `op` operand.
    pub open spec fn read_a_spec(self, op: BinOp, m: Mode, ev: Seq<BusEvent>, n: int) -> Outcome {
        let (r, v, events) = self.operand(m, ev, n);
        let (res, p) = binop_spec(r.after.psw, op, r.after.a, v);
        Outcome { after: Processor { a: res, psw: p, ..r.after }, events }
    }

    pub fn read_a<M: HasAddressBus>(&mut self, op: BinOp, m: Mode, bus: &mut M)
        ensures
            ({
                let o = old(self).read_a_spec(op, m, final(bus).bus_events(), old(bus).bus_events().len() as int);
                &&& *final(self) == o.after
                &&& final(bus).bus_events() == old(bus).bus_events() + o.events
            }),
    {
        let (_, v) = self.read_operand(m, bus);
        let a = self.a;
        self.a = self.binop(op, a, v);
    }

    /// Compare a register with the operand.
    pub open spec fn compare_reg_spec(self, reg: R, m: Mode, ev: Seq<BusEvent>, n: int) -> Outcome {
        let (r, v, events) = self.operand(m, ev, n);
        Outcome { after: Processor { psw: compare_spec(r.after.psw, r.after.reg(reg), v), ..r.after }, events }
    }

    pub fn compare_reg<M: HasAddressBus>(&mut self, reg: R, m: Mode, bus: &mut M)
        ensures
            ({
                let o = old(self).compare_reg_spec(reg, m, final(bus).bus_events(), old(bus).bus_events().len() as int);
                &&& *final(self) == o.after
                &&& final(bus).bus_events() == old(bus).bus_events() + o.events
            }),
    {
        let (_, v) = self.read_operand(m, bus);
        let l = self.get_reg(reg);
        self.compare(l, v);
    }

    /// Load a register (N and Z from the value).
    pub open spec fn load_spec(self, reg: R, m: Mode, ev: Seq<BusEvent>, n: int) -> Outcome {
        let (r, v, events) = self.operand(m, ev, n);
        Outcome { after: Processor { psw: nz(r.after.psw, v), ..r.after.with_reg(reg, v) }, events }
    }

    pub fn load<M: HasAddressBus>(&mut self, reg: R, m: Mode, bus: &mut M)
        ensures
            ({
                let o = old(self).load_spec(reg, m, final(bus).bus_events(), old(bus).bus_events().len() as int);
                &&& *final(self) == o.after
                &&& final(bus).bus_events() == old(bus).bus_events() + o.events
            }),
    {
        let (_, v) = self.read_operand(m, bus);
        self.set_reg(reg, v);
        self.set_nz(v);
    }

    /// Store a register.
    pub open spec fn store_spec(self, reg: R, m: Mode, ev: Seq<BusEvent>, n: int) -> Outcome {
        let r = self.mode_spec(m, ev, n);
        Outcome { after: r.after, events: r.events.push(wr(r.addr, r.after.reg(reg))) }
    }

    pub fn store<M: HasAddressBus>(&mut self, reg: R, m: Mode, bus: &mut M)
        ensures
            ({
                let o = old(self).store_spec(reg, m, final(bus).bus_events(), old(bus).bus_events().len() as int);
                &&& *final(self) == o.after
                &&& final(bus).bus_events() == old(bus).bus_events() + o.events
            }),
    {
        let addr = self.address(m, bus);
        let ghost mid = bus.bus_events();
        let v = self.get_reg(reg);
        bus.write(addr, v);
        proof {
            let ev = bus.bus_events();
            let n = old(bus).bus_events().len() as int;
            assert(ev.subrange(0, mid.len() as int) =~= mid);
            old(self).lemma_mode_frame(m, mid, ev, n);
            assert(ev =~= old(bus).bus_events() + old(self).store_spec(reg, m, ev, n).events);
        }
    }

    /// Two operands from memory: the `operand` mode's value is read first, then the
    /// `target` mode's; the result of `op` is written back to the target.
    pub open spec fn mem_bin_spec(self, op: BinOp, target: Mode, source: Mode, ev: Seq<BusEvent>, n: int) -> Outcome {
        let (o, rv, e1) = self.operand(source, ev, n);
        let (t, lv, e2) = o.after.operand(target, ev, n + e1.len());
        let (res, p) = binop_spec(t.after.psw, op, lv, rv);
        Outcome { after: Processor { psw: p, ..t.after }, events: e1 + e2.push(wr(t.addr, res)) }
    }

    pub fn mem_bin<M: HasAddressBus>(&mut self, op: BinOp, target: Mode, source: Mode, bus: &mut M)
        ensures
            ({
                let o = old(self).mem_bin_spec(op, target, source, final(bus).bus_events(), old(bus).bus_events().len() as int);
                &&& *final(self) == o.after
                &&& final(bus).bus_events() == old(bus).bus_events() + o.events
            }),
    {
        let (_, r) = self.read_operand(source, bus);
        let ghost s1 = *self;
        let ghost m1 = bus.bus_events();
        let (addr, l) = self.read_operand(target, bus);
        let ghost m2 = bus.bus_events();
        let val = self.binop(op, l, r);
        bus.write(addr, val);
        proof {
            let ev = bus.bus_events();
            let n = old(bus).bus_events().len() as int;
            assert(ev.subrange(0, m2.len() as int) =~= m2);
            assert(m2.subrange(0, m1.len() as int) =~= m1);
            assert(ev.subrange(0, m1.len() as int) =~= m1);
            old(self).lemma_operand_frame(source, m1, ev, n);
            s1.lemma_operand_frame(target, m2, ev, m1.len() as int);
            assert(ev =~= old(bus).bus_events() + old(self).mem_bin_spec(op, target, source, ev, n).events);
        }
    }

    /// Compare two memory operands (the right-hand one is read first).
    pub open spec fn compare_mem_spec(self, lhs: Mode, rhs: Mode, ev: Seq<BusEvent>, n: int) -> Outcome {
        let (o, rv, e1) = self.operand(rhs, ev, n);
        let (t, lv, e2) = o.after.operand(lhs, ev, n + e1.len());
        Outcome { after: Processor { psw: compare_spec(t.after.psw, lv, rv), ..t.after }, events: e1 + e2 }
    }

    pub fn compare_mem<M: HasAddressBus>(&mut self, lhs: Mode, rhs: Mode, bus: &mut M)
        ensures
            ({
                let o = old(self).compare_mem_spec(lhs, rhs, final(bus).bus_events(), old(bus).bus_events().len() as int);
                &&& *final(self) == o.after
                &&& final(bus).bus_events() == old(bus).bus_events() + o.events
            }),
    {
        // In the assembly, the second value is provided first
        let (_, r) = self.read_operand(rhs, bus);
        let ghost s1 = *self;
        let ghost m1 = bus.bus_events();
        let (_, l) = self.read_operand(lhs, bus);
        self.compare(l, r);
        proof {
            let ev = bus.bus_events();
            let n = old(bus).bus_events().len() as int;
            assert(ev.subrange(0, m1.len() as int) =~= m1);
            old(self).lemma_operand_frame(rhs, m1, ev, n);
            assert(ev =~= old(bus).bus_events() + old(self).compare_mem_spec(lhs, rhs, ev, n).events);
        }
    }

    /// Read, change with `op`, and write back a memory operand.
    pub open spec fn rmw_spec(self, op: UnOp, m: Mode, ev: Seq<BusEvent>, n: int) -> Outcome {
        let (r, v, events) = self.operand(m, ev, n);
        let (res, p) = r.after.unop_spec(op, v);
        Outcome { after: Processor { psw: p, ..r.after }, events: events.push(wr(r.addr, res)) }
    }

    pub fn rmw<M: HasAddressBus>(&mut self, op: UnOp, m: Mode, bus: &mut M)
        ensures
            ({
                let o = old(self).rmw_spec(op, m, final(bus).bus_events(), old(bus).bus_events().len() as int);
                &&& *final(self) == o.after
                &&& final(bus).bus_events() == old(bus).bus_events() + o.events
            }),
    {
        let (addr, v) = self.read_operand(m, bus);
        let ghost mid = bus.bus_events();
        let r = self.unop(op, v);
        bus.write(addr, r);
        proof {
            let ev = bus.bus_events();
            let n = old(bus).bus_events().len() as int;
            assert(ev.subrange(0, mid.len() as int) =~= mid);
            old(self).lemma_operand_frame(m, mid, ev, n);
            assert(ev =~= old(bus).bus_events() + old(self).rmw_spec(op, m, ev, n).events);
        }
    }

    /// Copy a byte between memory operands without touching the flags.
    pub open spec fn mov_mem_spec(self, source: Mode, dest: Mode, ev: Seq<BusEvent>, n: int) -> Outcome {
        let (o, v, e1) = self.operand(source, ev, n);
        let t = o.after.mode_spec(dest, ev, n + e1.len());
        Outcome { after: t.after, events: e1 + t.events.push(wr(t.addr, v)) }
    }

    pub fn mov_mem<M: HasAddressBus>(&mut self, source: Mode, dest: Mode, bus: &mut M)
        ensures
            ({
                let o = old(self).mov_mem_spec(source, dest, final(bus).bus_events(), old(bus).bus_events().len() as int);
                &&& *final(self) == o.after
                &&& final(bus).bus_events() == old(bus).bus_events() + o.events
            }),
    {
        let (_, v) = self.read_operand(source, bus);
        let ghost s1 = *self;
        let ghost m1 = bus.bus_events();
        let addr = self.address(dest, bus);
        let ghost m2 = bus.bus_events();
        bus.write(addr, v);
        proof {
            let ev = bus.bus_events();
            let n = old(bus).bus_events().len() as int;
            assert(ev.subrange(0, m2.len() as int) =~= m2);
            assert(m2.subrange(0, m1.len() as int) =~= m1);
            assert(ev.subrange(0, m1.len() as int) =~= m1);
            old(self).lemma_operand_frame(source, m1, ev, n);
            s1.lemma_mode_frame(dest, m2, ev, m1.len() as int);
            assert(ev =~= old(bus).bus_events() + old(self).mov_mem_spec(source, dest, ev, n).events);
        }
    }

    /// The operand read only depends on the cycles it performed.
    pub proof fn lemma_operand_frame(self, m: Mode, ev1: Seq<BusEvent>, ev2: Seq<BusEvent>, n: int)
        requires
            0 <= n,
            ev1.len() == n + self.operand(m, ev1, n).2.len(),
            ev1.len() <= ev2.len(),
            ev2.subrange(0, ev1.len() as int) == ev1,
        ensures
            self.operand(m, ev1, n) == self.operand(m, ev2, n),
    {
        let r = self.mode_spec(m, ev1, n);
        let k = n + r.events.len();
        let e1 = ev1.subrange(0, k);
        self.lemma_mode_len(m, e1, ev1, n);
        assert(ev2.subrange(0, k) =~= e1);
        assert(ev1.subrange(0, k) =~= e1);
        self.lemma_mode_frame(m, e1, ev1, n);
        self.lemma_mode_frame(m, e1, ev2, n);
        assert(ev1[k] == ev2.subrange(0, ev1.len() as int)[k]);
    }

    /// Branch by the offset at the program counter if `cond` holds; otherwise skip it
    /// (without reading it).
    pub open spec fn branch_if_spec(self, cond: bool, ev: Seq<BusEvent>, n: int) -> Outcome {
        if cond {
            Outcome {
                after: Processor { pc: branch_target(self.pc_plus(1), value_at(ev, n)), ..self },
                events: seq![rd(self.pc as int, ev, n)],
            }
        } else {
            Outcome { after: Processor { pc: self.pc_plus(1), ..self }, events: seq![] }
        }
    }

    /// Read the next value at the PC (and increment the PC) and branch if `value` is true.
    /// If `value` is false, just increment the PC.
    pub fn read_and_branch_if<M: HasAddressBus>(&mut self, value: bool, bus: &mut M)
        ensures
            ({
                let o = old(self).branch_if_spec(value, final(bus).bus_events(), old(bus).bus_events().len() as int);
                &&& *final(self) == o.after
                &&& final(bus).bus_events() == old(bus).bus_events() + o.events
            }),
    {
        if value {
            self.branch_imm(bus);
        } else {
            self.pc = self.pc.wrapping_add(1);
            assert(bus.bus_events() =~= old(bus).bus_events() + seq![]);
        }
    }

    pub fn branch_imm<M: HasAddressBus>(&mut self, bus: &mut M)
        ensures
            ({
                let o = old(self).branch_if_spec(true, final(bus).bus_events(), old(bus).bus_events().len() as int);
                &&& *final(self) == o.after
                &&& final(bus).bus_events() == old(bus).bus_events() + o.events
            }),
    {
        let offset_addr = self.pc;
        self.pc = self.pc.wrapping_add(1);
        let offset = bus.read(offset_addr as usize);
        let t: i32 = self.pc as i32 + if offset < 0x80 { offset as i32 } else { offset as i32 - 256 };
        self.pc = if t < 0 { (t + 0x10000) as u16 } else if t >= 0x10000 { (t - 0x10000) as u16 } else { t as u16 };
        assert(bus.bus_events() =~= old(bus).bus_events() + seq![rd(old(self).pc as int, bus.bus_events(), old(bus).bus_events().len() as int)]);
    }
}

/// A branch offset is a signed byte: its value lies in -128 to 127 and agrees with the
/// byte modulo 256; the branch lands that many bytes from the address after the
/// operand, modulo 0x10000.
pub proof fn lemma_branch_offset(pc1: u16, offset: u8)
    ensures
        -128 <= signed(offset) <= 127,
        (signed(offset) - offset) % 256 == 0,
        (branch_target(pc1, offset) - pc1 - signed(offset)) % 0x10000 == 0,
{
}

} // verus!
