use vstd::prelude::*;

use crate::bus_event::{BusEvent, value_at};
use crate::spc700::alu::{UnOp, adc_spec, compare_spec};
use crate::spc700::forms::R;
use crate::spc700::modes::{Mode, Outcome};
use crate::spc700::processor::{HasAddressBus, Processor, le16, nz, nz16, rd, rd16, read_u16, w16, w8, word_at, wr};
use crate::spc700::program_status_word::{ProgramStatusWord, bit_k, pow2k};

verus! {

/// Single-bit operations on the carry and a memory bit.
#[derive(Clone, Copy, Debug)]
pub enum BitOp {
    /// C = not (C and bit)
    And1Not,
    /// C = C and bit
    And1,
    /// C = C or bit
    Or1,
    /// C = C or not bit
    Or1Not,
    /// C = C xor bit
    Eor1,
    /// C = bit
    Mov1ToC,
    /// bit = C
    Mov1FromC,
    /// bit = not bit
    Not1,
}

/// Flag instructions.
#[derive(Clone, Copy, Debug)]
pub enum FlagOp {
    Clrc,
    Clrp,
    Clrv,
    Setc,
    Setp,
    Di,
    Ei,
    Notc,
}

/// The mask of bit `k`.
pub open spec fn mask(k: int) -> u8 {
    pow2k(k) as u8
}

impl Processor {
    /// A register changed by a one-operand operation (ASL A, DEC X, ...).
    pub open spec fn reg_un_spec(self, op: UnOp, reg: R) -> Processor {
        let (r, p) = self.unop_spec(op, self.reg(reg));
        Processor { psw: p, ..self }.with_reg(reg, r)
    }

    pub fn reg_un(&mut self, op: UnOp, reg: R)
        ensures
            *final(self) == old(self).reg_un_spec(op, reg),
    {
        let v = self.get_reg(reg);
        let r = self.unop(op, v);
        self.set_reg(reg, r);
    }

    /// BBS/BBC: read a direct page byte and branch if its bit `bit` equals `set`.
    pub open spec fn bit_branch_spec(self, bit: u8, set: bool, ev: Seq<BusEvent>, n: int) -> Outcome {
        let (r, v, e1) = self.operand(Mode::D, ev, n);
        let b = r.after.branch_if_spec(bit_k(v, bit as int) == set, ev, n + e1.len());
        Outcome { after: b.after, events: e1 + b.events }
    }

    pub fn bit_branch<M: HasAddressBus>(&mut self, bit: u8, set: bool, bus: &mut M)
        requires
            bit < 8,
        ensures
            ({
                let o = old(self).bit_branch_spec(bit, set, final(bus).bus_events(), old(bus).bus_events().len() as int);
                &&& *final(self) == o.after
                &&& final(bus).bus_events() == old(bus).bus_events() + o.events
            }),
    {
        let (_, val) = self.read_operand(Mode::D, bus);
        let ghost m1 = bus.bus_events();
        proof {
            crate::bits::lemma_u8_bit(val, bit);
            crate::bits::lemma_shift_one(bit);
        }
        let cond = ((val >> bit) & 0x01 == 1) == set;
        self.read_and_branch_if(cond, bus);
        proof {
            let ev = bus.bus_events();
            let n = old(bus).bus_events().len() as int;
            assert(ev.subrange(0, m1.len() as int) =~= m1);
            old(self).lemma_operand_frame(Mode::D, m1, ev, n);
            assert(ev =~= old(bus).bus_events() + old(self).bit_branch_spec(bit, set, ev, n).events);
        }
    }

    /// CBNE: branch if A differs from a memory operand.
    pub open spec fn cbne_spec(self, m: Mode, ev: Seq<BusEvent>, n: int) -> Outcome {
        let (r, v, e1) = self.operand(m, ev, n);
        let b = r.after.branch_if_spec(r.after.a != v, ev, n + e1.len());
        Outcome { after: b.after, events: e1 + b.events }
    }

    pub fn cbne<M: HasAddressBus>(&mut self, m: Mode, bus: &mut M)
        ensures
            ({
                let o = old(self).cbne_spec(m, final(bus).bus_events(), old(bus).bus_events().len() as int);
                &&& *final(self) == o.after
                &&& final(bus).bus_events() == old(bus).bus_events() + o.events
            }),
    {
        let (_, value) = self.read_operand(m, bus);
        let ghost m1 = bus.bus_events();
        let cond = self.a != value;
        self.read_and_branch_if(cond, bus);
        proof {
            let ev = bus.bus_events();
            let n = old(bus).bus_events().len() as int;
            assert(ev.subrange(0, m1.len() as int) =~= m1);
            old(self).lemma_operand_frame(m, m1, ev, n);
            assert(ev =~= old(bus).bus_events() + old(self).cbne_spec(m, ev, n).events);
        }
    }

    /// DBNZ Y: decrement Y and branch if it is not zero.
    pub open spec fn dbnz_y_spec(self, ev: Seq<BusEvent>, n: int) -> Outcome {
        let p1 = Processor { y: w8(self.y - 1), ..self };
        p1.branch_if_spec(p1.y != 0, ev, n)
    }

    pub fn dbnz_y<M: HasAddressBus>(&mut self, bus: &mut M)
        ensures
            ({
                let o = old(self).dbnz_y_spec(final(bus).bus_events(), old(bus).bus_events().len() as int);
                &&& *final(self) == o.after
                &&& final(bus).bus_events() == old(bus).bus_events() + o.events
            }),
    {
        self.y = self.y.wrapping_sub(1);
        let cond = self.y != 0;
        self.read_and_branch_if(cond, bus);
    }

    /// DBNZ d: decrement a direct page byte, write it back, and branch if not zero.
    pub open spec fn dbnz_d_spec(self, ev: Seq<BusEvent>, n: int) -> Outcome {
        let (r, v, e1) = self.operand(Mode::D, ev, n);
        let nv = w8(v - 1);
        let b = r.after.branch_if_spec(nv != 0, ev, n + e1.len() + 1);
        Outcome { after: b.after, events: e1.push(wr(r.addr, nv)) + b.events }
    }

    pub fn dbnz_d<M: HasAddressBus>(&mut self, bus: &mut M)
        ensures
            ({
                let o = old(self).dbnz_d_spec(final(bus).bus_events(), old(bus).bus_events().len() as int);
                &&& *final(self) == o.after
                &&& final(bus).bus_events() == old(bus).bus_events() + o.events
            }),
    {
        let (addr, v) = self.read_operand(Mode::D, bus);
        let ghost m1 = bus.bus_events();
        let val = v.wrapping_sub(1);
        bus.write(addr, val);
        self.read_and_branch_if(val != 0, bus);
        proof {
            let ev = bus.bus_events();
            let n = old(bus).bus_events().len() as int;
            assert(ev.subrange(0, m1.len() as int) =~= m1);
            old(self).lemma_operand_frame(Mode::D, m1, ev, n);
            assert(ev =~= old(bus).bus_events() + old(self).dbnz_d_spec(ev, n).events);
        }
    }

    /// The flags after a flag instruction.
    pub open spec fn flag_spec(self, f: FlagOp) -> ProgramStatusWord {
        let p = self.psw;
        match f {
            FlagOp::Clrc => ProgramStatusWord { c: false, ..p },
            FlagOp::Clrp => ProgramStatusWord { p: false, ..p },
            FlagOp::Clrv => ProgramStatusWord { v: false, h: false, ..p },
            FlagOp::Setc => ProgramStatusWord { c: true, ..p },
            FlagOp::Setp => ProgramStatusWord { p: true, ..p },
            FlagOp::Di => ProgramStatusWord { i: false, ..p },
            FlagOp::Ei => ProgramStatusWord { i: true, ..p },
            FlagOp::Notc => ProgramStatusWord { c: !p.c, ..p },
        }
    }

    pub fn flag_op(&mut self, f: FlagOp)
        ensures
            *final(self) == (Processor { psw: old(self).flag_spec(f), ..*old(self) }),
    {
        match f {
            FlagOp::Clrc => self.psw.c = false,
            FlagOp::Clrp => self.psw.p = false,
            FlagOp::Clrv => {
                self.psw.v = false;
                self.psw.h = false;
            },
            FlagOp::Setc => self.psw.c = true,
            FlagOp::Setp => self.psw.p = true,
            FlagOp::Di => self.psw.i = false,
            FlagOp::Ei => self.psw.i = true,
            FlagOp::Notc => self.psw.c = !self.psw.c,
        }
    }

    /// MOV between registers: N and Z follow the value.
    pub fn transfer(&mut self, dst: R, src: R)
        ensures
            *final(self) == (Processor { psw: nz(old(self).psw, old(self).reg(src)), ..old(self).with_reg(dst, old(self).reg(src)) }),
    {
        let v = self.get_reg(src);
        self.set_reg(dst, v);
        self.set_nz(v);
    }

    /// The memory bit named by a 13-bit address and a 3-bit bit number read at the
    /// program counter: the cycles, the address, the bit number and the byte read.
    pub open spec fn mem_bit(self, ev: Seq<BusEvent>, n: int) -> (Seq<BusEvent>, int, int, u8) {
        let w = word_at(ev, n);
        let addr = w % 0x2000;
        (rd16(self.pc as int, ev, n).push(rd(addr as int, ev, n + 2)), addr as int, (w / 0x2000) as int, value_at(ev, n + 2))
    }

    /// AND1, OR1, EOR1, MOV1, NOT1 on a memory bit.
    pub open spec fn bit_op_spec(self, op: BitOp, ev: Seq<BusEvent>, n: int) -> Outcome {
        let (e, addr, bit, v) = self.mem_bit(ev, n);
        let set = bit_k(v, bit);
        let p1 = Processor { pc: self.pc_plus(2), ..self };
        let c = self.psw.c;
        let with_c = |b: bool| Outcome { after: Processor { psw: ProgramStatusWord { c: b, ..self.psw }, ..p1 }, events: e };
        match op {
            BitOp::And1Not => with_c(!(set && c)),
            BitOp::And1 => with_c(set && c),
            BitOp::Or1 => with_c(c || set),
            BitOp::Or1Not => with_c(c || !set),
            BitOp::Eor1 => with_c(c != set),
            BitOp::Mov1ToC => with_c(set),
            BitOp::Mov1FromC => Outcome {
                after: p1,
                events: e.push(wr(addr, if c { v | mask(bit) } else { v & !mask(bit) })),
            },
            BitOp::Not1 => Outcome { after: p1, events: e.push(wr(addr, v ^ mask(bit))) },
        }
    }

    /// Read the memory bit operand of a single-bit instruction.
    fn read_mem_bit<M: HasAddressBus>(&mut self, bus: &mut M) -> (r: (u16, u8, u8))
        ensures
            ({
                let (e, addr, bit, v) = old(self).mem_bit(final(bus).bus_events(), old(bus).bus_events().len() as int);
                &&& r.0 == addr && r.1 == bit && r.2 == v
                &&& r.1 < 8
                &&& *final(self) == (Processor { pc: old(self).pc_plus(2), ..*old(self) })
                &&& final(bus).bus_events() == old(bus).bus_events() + e
            }),
    {
        let pc = self.pc;
        self.pc = self.pc.wrapping_add(2);
        let w = read_u16(pc as usize, bus);
        let addr = w & 0x1FFF;
        let bit = w >> 13u16;
        proof {
            crate::bits::lemma_u16(w);
        }
        let val = bus.read(addr as usize);
        proof {
            let ev = bus.bus_events();
            let n = old(bus).bus_events().len() as int;
            assert(ev =~= old(bus).bus_events() + old(self).mem_bit(ev, n).0);
        }
        (addr, bit as u8, val)
    }

    #[verifier::rlimit(40)]
    pub fn bit_op<M: HasAddressBus>(&mut self, op: BitOp, bus: &mut M)
        ensures
            ({
                let o = old(self).bit_op_spec(op, final(bus).bus_events(), old(bus).bus_events().len() as int);
                &&& *final(self) == o.after
                &&& final(bus).bus_events() == old(bus).bus_events() + o.events
            }),
    {
        let (addr, bit, val) = self.read_mem_bit(bus);
        let ghost mid = bus.bus_events();
        let m = mask_of(bit);
        let set = (val & m) != 0;
        proof {
            crate::bits::lemma_u8_bit(val, bit);
            lemma_pow2k_shift(bit);
        }
        match op {
            BitOp::And1Not => {
                let c = set && self.psw.c;
                self.psw.c = !c;
            },
            BitOp::And1 => self.psw.c = set && self.psw.c,
            BitOp::Or1 => self.psw.c = self.psw.c || set,
            BitOp::Or1Not => self.psw.c = self.psw.c || !set,
            BitOp::Eor1 => self.psw.c = self.psw.c != set,
            BitOp::Mov1ToC => self.psw.c = set,
            BitOp::Mov1FromC => {
                let v = if self.psw.c { val | m } else { val & !m };
                bus.write(addr as usize, v);
            },
            BitOp::Not1 => {
                bus.write(addr as usize, val ^ m);
            },
        }
        proof {
            let ev = bus.bus_events();
            let n = old(bus).bus_events().len() as int;
            assert(ev.subrange(0, mid.len() as int) =~= mid);
            assert(value_at(ev, n) == value_at(mid, n));
            assert(value_at(ev, n + 1) == value_at(mid, n + 1));
            assert(value_at(ev, n + 2) == value_at(mid, n + 2));
            assert(ev =~= old(bus).bus_events() + old(self).bit_op_spec(op, ev, n).events);
        }
    }

    /// CLR1/SET1: clear or set bit `bit` of a direct page byte.
    pub open spec fn set_bit_spec(self, bit: u8, value: bool, ev: Seq<BusEvent>, n: int) -> Outcome {
        let (r, v, e1) = self.operand(Mode::D, ev, n);
        let nv = if value { v | mask(bit as int) } else { v & !mask(bit as int) };
        Outcome { after: r.after, events: e1.push(wr(r.addr, nv)) }
    }

    pub fn set_bit<M: HasAddressBus>(&mut self, bit: u8, value: bool, bus: &mut M)
        requires
            bit < 8,
        ensures
            ({
                let o = old(self).set_bit_spec(bit, value, final(bus).bus_events(), old(bus).bus_events().len() as int);
                &&& *final(self) == o.after
                &&& final(bus).bus_events() == old(bus).bus_events() + o.events
            }),
    {
        let (addr, val) = self.read_operand(Mode::D, bus);
        let ghost m1 = bus.bus_events();
        let m = mask_of(bit);
        let nv = if value { val | m } else { val & !m };
        bus.write(addr, nv);
        proof {
            let ev = bus.bus_events();
            let n = old(bus).bus_events().len() as int;
            assert(ev.subrange(0, m1.len() as int) =~= m1);
            old(self).lemma_operand_frame(Mode::D, m1, ev, n);
            assert(ev =~= old(bus).bus_events() + old(self).set_bit_spec(bit, value, ev, n).events);
        }
    }
}

/// The mask of bit `bit`.
pub fn mask_of(bit: u8) -> (m: u8)
    requires
        bit < 8,
    ensures
        m == mask(bit as int),
{
    proof {
        lemma_pow2k_shift(bit);
    }
    1u8 << bit
}

proof fn lemma_pow2k_shift(b: u8)
    requires
        b < 8,
    ensures
        (1u8 << b) == pow2k(b as int),
{
    crate::bits::lemma_shift_one(b);
}

} // verus!
