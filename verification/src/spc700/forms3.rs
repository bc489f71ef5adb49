use vstd::prelude::*;

use crate::bus_event::{BusEvent, value_at};
use crate::spc700::alu::{adc_spec, compare_spec};
use crate::spc700::forms::R;
use crate::spc700::modes::{Mode, Outcome};
use crate::spc700::processor::{HasAddressBus, Processor, nz, nz16, rd, rd16, read_u16, w16, w8, word_at, wr};
use crate::spc700::program_status_word::{ProgramStatusWord, fbit};

verus! {

/// The 16-bit instructions on YA and a direct page word.
#[derive(Clone, Copy, Debug)]
pub enum WordOp {
    Addw,
    Subw,
    Cmpw,
    Incw,
    Decw,
    /// MOVW d, YA
    Store,
    /// MOVW YA, d
    Load,
}

/// A register pushed or pulled: A, X, Y or the status word.
#[derive(Clone, Copy, Debug)]
pub enum StackReg {
    A,
    X,
    Y,
    Psw,
}

/// A sequence of `k` internal cycles.
pub open spec fn io_cycles(k: nat) -> Seq<BusEvent> {
    Seq::new(k, |i: int| BusEvent::Io)
}

/// The quotient, remainder and overflow flag of DIV YA, X (the quotient and remainder
/// are truncated to bytes afterwards). When Y is at least twice X the hardware's
/// alternative formula is used.
pub open spec fn div_parts(a: u8, y: u8, x: u8) -> (int, int, bool) {
    let ya = y * 256 + a;
    let (q, r) = if y < 2 * x {
        (ya / (x as int), ya % (x as int))
    } else {
        (255 - (ya - 512 * x) / (256 - x), x + (ya - 512 * x) % (256 - x))
    };
    (q, r, if x == 0 { true } else { ya / (x as int) > 255 })
}

impl Processor {
    /// The direct page word address pair read at the program counter.
    pub open spec fn word_addrs(self, ev: Seq<BusEvent>, n: int) -> (int, int) {
        let o = value_at(ev, n);
        (self.page() + o, self.page() + w8(o + 1))
    }

    /// The 16-bit instructions: the offset is read, then the low and high bytes (one
    /// page apart at most, wrapping within the page).
    pub open spec fn word_op_spec(self, op: WordOp, ev: Seq<BusEvent>, n: int) -> Outcome {
        let (al, ah) = self.word_addrs(ev, n);
        let p1 = Processor { pc: self.pc_plus(1), ..self };
        let fetch = seq![rd(self.pc as int, ev, n)];
        let reads = fetch + seq![rd(al, ev, n + 1), rd(ah, ev, n + 2)];
        let l = value_at(ev, n + 1);
        let h = value_at(ev, n + 2);
        match op {
            WordOp::Addw => {
                let (a, q1) = adc_spec(ProgramStatusWord { c: false, ..self.psw }, l, self.a);
                let (y, q2) = adc_spec(q1, h, self.y);
                Outcome { after: Processor { a, y, psw: nz16(q2, a, y), ..p1 }, events: reads }
            },
            WordOp::Subw => {
                let (a, q1) = adc_spec(ProgramStatusWord { c: true, ..self.psw }, self.a, (255 - l) as u8);
                let (y, q2) = adc_spec(q1, self.y, (255 - h) as u8);
                Outcome { after: Processor { a, y, psw: nz16(q2, a, y), ..p1 }, events: reads }
            },
            WordOp::Cmpw => {
                let q1 = compare_spec(ProgramStatusWord { c: true, ..self.psw }, self.a, l);
                Outcome { after: Processor { psw: compare_spec(q1, self.y, h), ..p1 }, events: reads }
            },
            WordOp::Incw => {
                let nl = w8(l + 1);
                let nh = w8(h + if l == 255 { 1int } else { 0 });
                Outcome { after: Processor { psw: nz16(self.psw, nl, nh), ..p1 }, events: reads + seq![wr(al, nl), wr(ah, nh)] }
            },
            WordOp::Decw => {
                let nl = w8(l - 1);
                let nh = if l == 0 { w8(h - 1) } else { h };
                Outcome {
                    after: Processor { psw: nz16(self.psw, nl, nh), ..p1 },
                    events: reads.push(wr(al, nl)) + if l == 0 { seq![wr(ah, nh)] } else { seq![] },
                }
            },
            WordOp::Store => Outcome { after: p1, events: fetch + seq![wr(al, self.a), wr(ah, self.y)] },
            WordOp::Load => Outcome { after: Processor { a: l, y: h, psw: nz16(self.psw, l, h), ..p1 }, events: reads },
        }
    }

    /// Direct page word addressing: the addresses of the low and high bytes.
    fn dw<M: HasAddressBus>(&mut self, bus: &mut M) -> (r: (usize, usize))
        ensures
            ({
                let ev = final(bus).bus_events();
                let n = old(bus).bus_events().len() as int;
                &&& r == (old(self).word_addrs(ev, n).0 as usize, old(self).word_addrs(ev, n).1 as usize)
                &&& *final(self) == (Processor { pc: old(self).pc_plus(1), ..*old(self) })
                &&& ev == old(bus).bus_events().push(rd(old(self).pc as int, ev, n))
            }),
    {
        let addr = bus.read(self.pc as usize);
        self.pc = self.pc.wrapping_add(1);
        let off: usize = if self.psw.p { 0x100 } else { 0 };
        (off + addr as usize, off + addr.wrapping_add(1) as usize)
    }

    /// Fetch the offset and read the word's two bytes.
    fn read_word<M: HasAddressBus>(&mut self, bus: &mut M) -> (r: (usize, usize, u8, u8))
        ensures
            ({
                let ev = final(bus).bus_events();
                let n = old(bus).bus_events().len() as int;
                let (al, ah) = old(self).word_addrs(ev, n);
                &&& r == (al as usize, ah as usize, value_at(ev, n + 1), value_at(ev, n + 2))
                &&& *final(self) == (Processor { pc: old(self).pc_plus(1), ..*old(self) })
                &&& ev == old(bus).bus_events() + seq![rd(old(self).pc as int, ev, n), rd(al, ev, n + 1), rd(ah, ev, n + 2)]
            }),
    {
        let (al, ah) = self.dw(bus);
        let ghost m1 = bus.bus_events();
        let l = bus.read(al);
        let h = bus.read(ah);
        proof {
            let ev = bus.bus_events();
            let n = old(bus).bus_events().len() as int;
            assert(ev.subrange(0, m1.len() as int) =~= m1);
            assert(value_at(ev, n) == value_at(m1, n));
            assert(ev =~= old(bus).bus_events() + seq![
                rd(old(self).pc as int, ev, n),
                rd(old(self).word_addrs(ev, n).0, ev, n + 1),
                rd(old(self).word_addrs(ev, n).1, ev, n + 2),
            ]);
        }
        (al, ah, l, h)
    }

    fn addw_bytes(&mut self, l: u8, h: u8)
        ensures
            ({
                let (a, q1) = adc_spec(ProgramStatusWord { c: false, ..old(self).psw }, l, old(self).a);
                let (y, q2) = adc_spec(q1, h, old(self).y);
                *final(self) == (Processor { a, y, psw: nz16(q2, a, y), ..*old(self) })
            }),
    {
        self.psw.c = false;
        let a = self.a;
        self.a = self.adc(l, a);
        let y = self.y;
        self.y = self.adc(h, y);
        let (a, y) = (self.a, self.y);
        self.set_nz_16le(a, y);
    }

    fn subw_bytes(&mut self, l: u8, h: u8)
        ensures
            ({
                let (a, q1) = adc_spec(ProgramStatusWord { c: true, ..old(self).psw }, old(self).a, (255 - l) as u8);
                let (y, q2) = adc_spec(q1, old(self).y, (255 - h) as u8);
                *final(self) == (Processor { a, y, psw: nz16(q2, a, y), ..*old(self) })
            }),
    {
        self.psw.c = true;
        let a = self.a;
        self.a = self.sbc(a, l);
        let y = self.y;
        self.y = self.sbc(y, h);
        let (a, y) = (self.a, self.y);
        self.set_nz_16le(a, y);
    }

    fn comparew_bytes(&mut self, l: u8, h: u8)
        ensures
            *final(self) == (Processor {
                psw: compare_spec(compare_spec(ProgramStatusWord { c: true, ..old(self).psw }, old(self).a, l), old(self).y, h),
                ..*old(self)
            }),
    {
        self.psw.c = true;
        let a = self.a;
        self.compare(a, l);
        let y = self.y;
        self.compare(y, h);
    }

    /// ADDW, SUBW, CMPW and MOVW YA, d: the word only changes registers.
    #[verifier::spinoff_prover]
    #[verifier::rlimit(60)]
    fn word_op_regs<M: HasAddressBus>(&mut self, op: WordOp, bus: &mut M)
        requires
            op is Addw || op is Subw || op is Cmpw || op is Load,
        ensures
            ({
                let o = old(self).word_op_spec(op, final(bus).bus_events(), old(bus).bus_events().len() as int);
                &&& *final(self) == o.after
                &&& final(bus).bus_events() == old(bus).bus_events() + o.events
            }),
    {
        let (_, _, l, h) = self.read_word(bus);
        match op {
            WordOp::Addw => self.addw_bytes(l, h),
            WordOp::Subw => self.subw_bytes(l, h),
            WordOp::Cmpw => self.comparew_bytes(l, h),
            _ => {
                self.a = l;
                self.y = h;
                self.set_nz_16le(l, h);
            },
        }
    }

    /// INCW: increment the word and write both bytes back.
    #[verifier::spinoff_prover]
    #[verifier::rlimit(60)]
    fn incw<M: HasAddressBus>(&mut self, bus: &mut M)
        ensures
            ({
                let o = old(self).word_op_spec(WordOp::Incw, final(bus).bus_events(), old(bus).bus_events().len() as int);
                &&& *final(self) == o.after
                &&& final(bus).bus_events() == old(bus).bus_events() + o.events
            }),
    {
        let (al, ah, l, h) = self.read_word(bus);
        let ghost m1 = bus.bus_events();
        let nl = l.wrapping_add(1);
        bus.write(al, nl);
        let nh = h.wrapping_add(if l == 255 { 1 } else { 0 });
        bus.write(ah, nh);
        self.set_nz_16le(nl, nh);
        proof {
            let ev = bus.bus_events();
            let n = old(bus).bus_events().len() as int;
            assert(ev.subrange(0, m1.len() as int) =~= m1);
            assert(value_at(ev, n) == value_at(m1, n));
            assert(value_at(ev, n + 1) == value_at(m1, n + 1));
            assert(value_at(ev, n + 2) == value_at(m1, n + 2));
            assert(ev =~= old(bus).bus_events() + old(self).word_op_spec(WordOp::Incw, ev, n).events);
        }
    }

    /// DECW: decrement the word; the high byte is written back only on a borrow.
    #[verifier::spinoff_prover]
    #[verifier::rlimit(60)]
    fn decw<M: HasAddressBus>(&mut self, bus: &mut M)
        ensures
            ({
                let o = old(self).word_op_spec(WordOp::Decw, final(bus).bus_events(), old(bus).bus_events().len() as int);
                &&& *final(self) == o.after
                &&& final(bus).bus_events() == old(bus).bus_events() + o.events
            }),
    {
        let (al, ah, l, h) = self.read_word(bus);
        let ghost m1 = bus.bus_events();
        let nl = l.wrapping_sub(1);
        bus.write(al, nl);
        let mut nh = h;
        if l == 0 {
            nh = h.wrapping_sub(1);
            bus.write(ah, nh);
        }
        self.set_nz_16le(nl, nh);
        proof {
            let ev = bus.bus_events();
            let n = old(bus).bus_events().len() as int;
            assert(ev.subrange(0, m1.len() as int) =~= m1);
            assert(value_at(ev, n) == value_at(m1, n));
            assert(value_at(ev, n + 1) == value_at(m1, n + 1));
            assert(value_at(ev, n + 2) == value_at(m1, n + 2));
            assert(ev =~= old(bus).bus_events() + old(self).word_op_spec(WordOp::Decw, ev, n).events);
        }
    }

    pub fn word_op<M: HasAddressBus>(&mut self, op: WordOp, bus: &mut M)
        ensures
            ({
                let o = old(self).word_op_spec(op, final(bus).bus_events(), old(bus).bus_events().len() as int);
                &&& *final(self) == o.after
                &&& final(bus).bus_events() == old(bus).bus_events() + o.events
            }),
    {
        match op {
            WordOp::Store => {
                let (al, ah) = self.dw(bus);
                let ghost m1 = bus.bus_events();
                bus.write(al, self.a);
                bus.write(ah, self.y);
                proof {
                    let ev = bus.bus_events();
                    let n = old(bus).bus_events().len() as int;
                    assert(ev.subrange(0, m1.len() as int) =~= m1);
                    assert(value_at(ev, n) == value_at(m1, n));
                    assert(ev =~= old(bus).bus_events() + old(self).word_op_spec(op, ev, n).events);
                }
            },
            WordOp::Incw => self.incw(bus),
            WordOp::Decw => self.decw(bus),
            _ => self.word_op_regs(op, bus),
        }
    }

    /// DAA: decimal adjust after addition.
    pub open spec fn daa_spec(self) -> Processor {
        let adj1 = self.psw.c || self.a > 0x99;
        let a1 = if adj1 { w8(self.a + 0x60) } else { self.a };
        let a2 = if self.psw.h || a1 % 16 > 9 { w8(a1 + 6) } else { a1 };
        Processor { a: a2, psw: nz(ProgramStatusWord { c: self.psw.c || adj1, ..self.psw }, a2), ..self }
    }

    pub fn daa(&mut self)
        ensures
            *final(self) == old(self).daa_spec(),
    {
        if self.psw.c || self.a > 0x99 {
            self.a = self.a.wrapping_add(0x60);
            self.psw.c = true;
        }
        if self.psw.h || (self.a % 16) > 0x09 {
            self.a = self.a.wrapping_add(0x06);
        }
        let a = self.a;
        self.set_nz(a);
    }

    /// DAS: decimal adjust after subtraction.
    pub open spec fn das_spec(self) -> Processor {
        let adj1 = !self.psw.c || self.a > 0x99;
        let a1 = if adj1 { w8(self.a - 0x60) } else { self.a };
        let a2 = if !self.psw.h || a1 % 16 > 9 { w8(a1 - 6) } else { a1 };
        Processor { a: a2, psw: nz(ProgramStatusWord { c: self.psw.c && !adj1, ..self.psw }, a2), ..self }
    }

    #[verifier::rlimit(40)]
    pub fn das(&mut self)
        ensures
            *final(self) == old(self).das_spec(),
    {
        let a0 = self.a;
        let a1 = if !self.psw.c || a0 > 0x99 { a0.wrapping_sub(0x60) } else { a0 };
        if !self.psw.c || a0 > 0x99 {
            self.psw.c = false;
        }
        let a2 = if !self.psw.h || (a1 % 16) > 0x09 { a1.wrapping_sub(0x06) } else { a1 };
        self.a = a2;
        let a = self.a;
        self.set_nz(a);
    }

    /// DIV YA, X: eleven internal cycles; A gets the quotient, Y the remainder.
    pub open spec fn div_spec(self) -> Processor {
        let (q, r, v) = div_parts(self.a, self.y, self.x);
        let a = w8(q);
        Processor {
            a,
            y: w8(r),
            psw: nz(ProgramStatusWord { h: self.x % 16 <= self.y % 16, v, ..self.psw }, a),
            ..self
        }
    }

    #[verifier::rlimit(40)]
    pub fn div<M: HasAddressBus>(&mut self, bus: &mut M)
        ensures
            *final(self) == old(self).div_spec(),
            final(bus).bus_events() == old(bus).bus_events() + io_cycles(11),
    {
        self.psw.h = (self.x % 16) <= (self.y % 16);
        let mut i: usize = 0;
        while i < 11
            invariant
                i <= 11,
                bus.bus_events() == old(bus).bus_events() + io_cycles(i as nat),
            decreases 11 - i,
        {
            bus.io();
            i = i + 1;
            assert(bus.bus_events() =~= old(bus).bus_events() + io_cycles(i as nat));
        }
        let ya: u32 = self.y as u32 * 0x100 + self.a as u32;
        let x = self.x as u32;
        let y = self.y as u32;
        let (q, r) = if y < (x * 2) {
            (ya / x, ya % x)
        } else {
            proof {
                let t = ya - 512 * x;
                assert(x <= 127);
                assert(0 <= t < 256 * (256 - x));
                assert(t / (256 - x as int) < 256) by (nonlinear_arith)
                    requires
                        0 <= t < 256 * (256 - x as int),
                        256 - x as int > 0,
                ;
                assert(t % (256 - x as int) < 256 - x as int) by (nonlinear_arith)
                    requires
                        256 - x as int > 0,
                ;
            }
            (255 - (ya - (x * 512)) / (256 - x), x + (ya - (x * 512)) % (256 - x))
        };
        self.psw.v = if self.x == 0 {
            true
        } else {
            ya / x > 0xFF
        };
        self.a = (q % 0x100) as u8;
        self.y = (r % 0x100) as u8;
        let a = self.a;
        self.set_nz(a);
    }

    /// MUL YA: the product of Y and A, N and Z from the high byte.
    pub open spec fn mul_spec(self) -> Processor {
        let res = self.y * self.a;
        Processor { a: w8(res), y: (res / 256) as u8, psw: nz(self.psw, (res / 256) as u8), ..self }
    }

    pub fn mul(&mut self)
        ensures
            *final(self) == old(self).mul_spec(),
    {
        let y = self.y;
        let a = self.a;
        assert(y * a <= 255 * 255) by (nonlinear_arith)
            requires
                y < 256,
                a < 256,
        ;
        let res = y as u16 * a as u16;
        self.a = (res % 0x100) as u8;
        self.y = (res / 0x100) as u8;
        let y = self.y;
        // Only uses Y for flags
        self.set_nz(y);
    }

    /// XCN: swap the nibbles of A.
    pub open spec fn xcn_spec(self) -> Processor {
        let a = ((self.a % 16) * 16 + self.a / 16) as u8;
        Processor { a, psw: nz(self.psw, a), ..self }
    }

    pub fn xcn(&mut self)
        ensures
            *final(self) == old(self).xcn_spec(),
    {
        self.a = (self.a % 16) * 16 + self.a / 16;
        let a = self.a;
        self.set_nz(a);
    }

    /// The value a push of `r` writes.
    pub open spec fn stack_value(self, r: StackReg) -> u8 {
        match r {
            StackReg::A => self.a,
            StackReg::X => self.x,
            StackReg::Y => self.y,
            StackReg::Psw => self.psw.byte_spec() as u8,
        }
    }

    pub fn push<M: HasAddressBus>(&mut self, r: StackReg, bus: &mut M)
        ensures
            *final(self) == (Processor { sp: w8(old(self).sp - 1), ..*old(self) }),
            final(bus).bus_events() == old(bus).bus_events().push(wr(old(self).stack_addr(), old(self).stack_value(r))),
    {
        let v = match r {
            StackReg::A => self.a,
            StackReg::X => self.x,
            StackReg::Y => self.y,
            StackReg::Psw => self.psw.to_byte(),
        };
        self.push_to_stack_u8(v, bus);
    }

    /// Pull a register (no flags change, except for the status word itself).
    pub open spec fn pop_spec(self, r: StackReg, ev: Seq<BusEvent>, n: int) -> Outcome {
        let v = value_at(ev, n);
        let p1 = Processor { sp: w8(self.sp + 1), ..self };
        Outcome {
            after: match r {
                StackReg::A => Processor { a: v, ..p1 },
                StackReg::X => Processor { x: v, ..p1 },
                StackReg::Y => Processor { y: v, ..p1 },
                StackReg::Psw => Processor { psw: ProgramStatusWord::from_byte_spec(v), ..p1 },
            },
            events: seq![rd(w8(self.sp + 1) + 0x100, ev, n)],
        }
    }

    pub fn pop<M: HasAddressBus>(&mut self, r: StackReg, bus: &mut M)
        ensures
            ({
                let o = old(self).pop_spec(r, final(bus).bus_events(), old(bus).bus_events().len() as int);
                &&& *final(self) == o.after
                &&& final(bus).bus_events() == old(bus).bus_events() + o.events
            }),
    {
        let v = self.pull_from_stack_u8(bus);
        match r {
            StackReg::A => self.a = v,
            StackReg::X => self.x = v,
            StackReg::Y => self.y = v,
            StackReg::Psw => self.psw = ProgramStatusWord::from_byte(v),
        }
        assert(bus.bus_events() =~= old(bus).bus_events() + old(self).pop_spec(r, bus.bus_events(), old(bus).bus_events().len() as int).events);
    }

    /// The two writes of pushing a word (high byte first).
    pub open spec fn push_word_events(self, val: u16) -> Seq<BusEvent> {
        seq![wr(self.stack_addr(), (val / 0x100) as u8), wr(w8(self.sp - 1) + 0x100, w8(val as int))]
    }

    /// The two reads of pulling a word (low byte first).
    pub open spec fn pull_word_events(self, ev: Seq<BusEvent>, n: int) -> Seq<BusEvent> {
        seq![rd(w8(self.sp + 1) + 0x100, ev, n), rd(w8(self.sp + 2) + 0x100, ev, n + 1)]
    }

    /// RET: pull the program counter.
    pub open spec fn ret_spec(self, ev: Seq<BusEvent>, n: int) -> Outcome {
        Outcome {
            after: Processor { sp: w8(self.sp + 2), pc: word_at(ev, n), ..self },
            events: self.pull_word_events(ev, n),
        }
    }

    pub fn ret<M: HasAddressBus>(&mut self, bus: &mut M)
        ensures
            ({
                let o = old(self).ret_spec(final(bus).bus_events(), old(bus).bus_events().len() as int);
                &&& *final(self) == o.after
                &&& final(bus).bus_events() == old(bus).bus_events() + o.events
            }),
    {
        self.pc = self.pull_from_stack_u16(bus);
    }

    /// RETI: pull the status word, then the program counter.
    pub open spec fn reti_spec(self, ev: Seq<BusEvent>, n: int) -> Outcome {
        let p1 = Processor { sp: w8(self.sp + 1), psw: ProgramStatusWord::from_byte_spec(value_at(ev, n)), ..self };
        Outcome {
            after: Processor { sp: w8(p1.sp + 2), pc: word_at(ev, n + 1), ..p1 },
            events: seq![rd(w8(self.sp + 1) + 0x100, ev, n)] + p1.pull_word_events(ev, n + 1),
        }
    }

    pub fn reti<M: HasAddressBus>(&mut self, bus: &mut M)
        ensures
            ({
                let o = old(self).reti_spec(final(bus).bus_events(), old(bus).bus_events().len() as int);
                &&& *final(self) == o.after
                &&& final(bus).bus_events() == old(bus).bus_events() + o.events
            }),
    {
        let v = self.pull_from_stack_u8(bus);
        let ghost m1 = bus.bus_events();
        self.psw = ProgramStatusWord::from_byte(v);
        self.pc = self.pull_from_stack_u16(bus);
        proof {
            let ev = bus.bus_events();
            let n = old(bus).bus_events().len() as int;
            assert(ev.subrange(0, m1.len() as int) =~= m1);
            assert(value_at(ev, n) == value_at(m1, n));
            assert(ev =~= old(bus).bus_events() + old(self).reti_spec(ev, n).events);
        }
    }

    /// Push the program counter and jump.
    pub fn call<M: HasAddressBus>(&mut self, addr: u16, bus: &mut M)
        ensures
            *final(self) == (Processor { sp: w8(old(self).sp - 2), pc: addr, ..*old(self) }),
            final(bus).bus_events() == old(bus).bus_events() + old(self).push_word_events(old(self).pc),
    {
        let pc = self.pc;
        self.push_to_stack_u16(pc, bus);
        self.pc = addr;
    }

    /// CALL !abs: the target is read, then the address after the operand is pushed.
    pub open spec fn call_abs_spec(self, ev: Seq<BusEvent>, n: int) -> Outcome {
        let p1 = Processor { pc: self.pc_plus(2), ..self };
        Outcome {
            after: Processor { sp: w8(self.sp - 2), pc: word_at(ev, n), ..p1 },
            events: rd16(self.pc as int, ev, n) + p1.push_word_events(p1.pc),
        }
    }

    pub fn call_abs<M: HasAddressBus>(&mut self, bus: &mut M)
        ensures
            ({
                let o = old(self).call_abs_spec(final(bus).bus_events(), old(bus).bus_events().len() as int);
                &&& *final(self) == o.after
                &&& final(bus).bus_events() == old(bus).bus_events() + o.events
            }),
    {
        let addr = self.address(Mode::Abs, bus);
        let ghost m1 = bus.bus_events();
        proof {
            reveal(Processor::mode_spec);
        }
        self.call(addr as u16, bus);
        proof {
            let ev = bus.bus_events();
            let n = old(bus).bus_events().len() as int;
            assert(ev.subrange(0, m1.len() as int) =~= m1);
            assert(value_at(ev, n) == value_at(m1, n));
            assert(value_at(ev, n + 1) == value_at(m1, n + 1));
            assert(ev =~= old(bus).bus_events() + old(self).call_abs_spec(ev, n).events);
        }
    }

    /// PCALL: call 0xFF00 plus the operand byte.
    pub open spec fn pcall_spec(self, ev: Seq<BusEvent>, n: int) -> Outcome {
        let p1 = Processor { pc: self.pc_plus(1), ..self };
        Outcome {
            after: Processor { sp: w8(self.sp - 2), pc: (0xFF00 + value_at(ev, n)) as u16, ..p1 },
            events: seq![rd(self.pc as int, ev, n)] + p1.push_word_events(p1.pc),
        }
    }

    pub fn pcall<M: HasAddressBus>(&mut self, bus: &mut M)
        ensures
            ({
                let o = old(self).pcall_spec(final(bus).bus_events(), old(bus).bus_events().len() as int);
                &&& *final(self) == o.after
                &&& final(bus).bus_events() == old(bus).bus_events() + o.events
            }),
    {
        let addr = self.pc;
        self.pc = self.pc.wrapping_add(1);
        let v = bus.read(addr as usize);
        let ghost m1 = bus.bus_events();
        self.call(0xFF00 + v as u16, bus);
        proof {
            let ev = bus.bus_events();
            let n = old(bus).bus_events().len() as int;
            assert(ev.subrange(0, m1.len() as int) =~= m1);
            assert(value_at(ev, n) == value_at(m1, n));
            assert(ev =~= old(bus).bus_events() + old(self).pcall_spec(ev, n).events);
        }
    }

    /// TCALL k: call the address in the table entry at 0xFFDE - 2k.
    pub open spec fn tcall_spec(self, k: u8, ev: Seq<BusEvent>, n: int) -> Outcome {
        Outcome {
            after: Processor { sp: w8(self.sp - 2), pc: word_at(ev, n), ..self },
            events: rd16(0xFFDE - 2 * k, ev, n) + self.push_word_events(self.pc),
        }
    }

    pub fn tcall<M: HasAddressBus>(&mut self, k: u8, bus: &mut M)
        requires
            k < 16,
        ensures
            ({
                let o = old(self).tcall_spec(k, final(bus).bus_events(), old(bus).bus_events().len() as int);
                &&& *final(self) == o.after
                &&& final(bus).bus_events() == old(bus).bus_events() + o.events
            }),
    {
        let addr = read_u16(0xFFDE - 2 * k as usize, bus);
        let ghost m1 = bus.bus_events();
        self.call(addr, bus);
        proof {
            let ev = bus.bus_events();
            let n = old(bus).bus_events().len() as int;
            assert(ev.subrange(0, m1.len() as int) =~= m1);
            assert(value_at(ev, n) == value_at(m1, n));
            assert(value_at(ev, n + 1) == value_at(m1, n + 1));
            assert(ev =~= old(bus).bus_events() + old(self).tcall_spec(k, ev, n).events);
        }
    }

    /// BRK: push the program counter and status word, set B, clear I, and jump
    /// through the vector at 0xFFDE.
    pub open spec fn brk_spec(self, ev: Seq<BusEvent>, n: int) -> Outcome {
        let p2 = Processor { sp: w8(self.sp - 2), ..self };
        Outcome {
            after: Processor {
                sp: w8(self.sp - 3),
                pc: word_at(ev, n),
                psw: ProgramStatusWord { b: true, i: false, ..self.psw },
                ..self
            },
            events: self.push_word_events(self.pc) + seq![wr(p2.stack_addr(), self.psw.byte_spec() as u8)]
                + seq![rd(0xFFDE, ev, n), rd(0xFFDF, ev, n + 1)],
        }
    }

    pub fn brk<M: HasAddressBus>(&mut self, bus: &mut M)
        ensures
            ({
                let ev = final(bus).bus_events();
                let n = old(bus).bus_events().len() as int;
                let o = old(self).brk_spec(ev, n + 3);
                &&& *final(self) == o.after
                &&& ev == old(bus).bus_events() + o.events
            }),
    {
        let pc = self.pc;
        self.push_to_stack_u16(pc, bus);
        let b = self.psw.to_byte();
        self.push_to_stack_u8(b, bus);
        self.psw.b = true;
        self.psw.i = false;
        let low = bus.read(0xFFDE);
        let high = bus.read(0xFFDF);
        self.pc = low as u16 + 0x100 * high as u16;
        proof {
            let ev = bus.bus_events();
            let n = old(bus).bus_events().len() as int;
            assert(ev =~= old(bus).bus_events() + old(self).brk_spec(ev, n + 3).events);
        }
    }

    /// JMP [!abs + X]: the target is read through an indexed pointer.
    pub open spec fn jmp_iax_spec(self, ev: Seq<BusEvent>, n: int) -> Outcome {
        let ptr = w16(word_at(ev, n) + self.x);
        Outcome {
            after: Processor { pc: word_at(ev, n + 2), ..self },
            events: rd16(self.pc as int, ev, n) + rd16(ptr as int, ev, n + 2),
        }
    }

    pub fn jmp_iax<M: HasAddressBus>(&mut self, bus: &mut M)
        ensures
            ({
                let o = old(self).jmp_iax_spec(final(bus).bus_events(), old(bus).bus_events().len() as int);
                &&& *final(self) == o.after
                &&& final(bus).bus_events() == old(bus).bus_events() + o.events
            }),
    {
        let addr = self.address(Mode::AbsX, bus);
        let ghost m1 = bus.bus_events();
        proof {
            reveal(Processor::mode_spec);
        }
        self.pc = read_u16(addr, bus);
        proof {
            let ev = bus.bus_events();
            let n = old(bus).bus_events().len() as int;
            assert(ev.subrange(0, m1.len() as int) =~= m1);
            assert(value_at(ev, n) == value_at(m1, n));
            assert(value_at(ev, n + 1) == value_at(m1, n + 1));
            assert(ev =~= old(bus).bus_events() + old(self).jmp_iax_spec(ev, n).events);
        }
    }
}

/// Adding two words byte by byte, with the carry of the low bytes passed to the high
/// bytes, adds the words.
proof fn lemma_carry_chain(a: int, y: int, l: int, h: int, c0: int)
    requires
        0 <= a < 256,
        0 <= y < 256,
        0 <= l < 256,
        0 <= h < 256,
        0 <= c0 <= 1,
    ensures
        ({
            let t = a + l + c0;
            let u = y + h + if t > 255 { 1int } else { 0int };
            let s = a + 256 * y + l + 256 * h + c0;
            &&& t % 256 + 256 * (u % 256) == s % 0x10000
            &&& (u > 255) == (s > 0xFFFF)
        }),
{
    let t = a + l + c0;
    let u = y + h + if t > 255 { 1int } else { 0int };
    let s = a + 256 * y + l + 256 * h + c0;
    assert(s == (t % 256) + 256 * u);
    if u > 255 {
        assert(s % 0x10000 == (t % 256) + 256 * (u - 256));
    } else {
        assert(s % 0x10000 == (t % 256) + 256 * u);
    }
}

impl Processor {
    /// MUL YA: Y:A becomes the product of Y and A.
    pub proof fn lemma_mul_product(self)
        ensures
            self.mul_spec().a + 256 * self.mul_spec().y == self.y * self.a,
    {
        let res = self.y * self.a;
        assert(0 <= res <= 255 * 255) by (nonlinear_arith)
            requires
                res == self.y * self.a,
                self.y < 256,
                self.a < 256,
        ;
    }

    /// DIV YA, X when the quotient fits in a byte (Y below X): A becomes the quotient
    /// and Y the remainder of Y:A divided by X, and V is clear.
    pub proof fn lemma_div_quotient(self)
        requires
            self.x != 0,
            self.y < self.x,
        ensures
            ({
                let r = self.div_spec();
                &&& r.a * self.x + r.y == self.y * 256 + self.a
                &&& r.y < self.x
                &&& !r.psw.v
            }),
    {
        let ya = self.y * 256 + self.a;
        let x = self.x as int;
        let q = ya / x;
        let m = ya % x;
        vstd::arithmetic::div_mod::lemma_fundamental_div_mod(ya, x);
        assert(0 <= m < x);
        assert(0 <= q < 256) by (nonlinear_arith)
            requires
                ya == x * q + m,
                0 <= m < x,
                ya < 256 * x,
                ya >= 0,
                x > 0,
        ;
        assert(div_parts(self.a, self.y, self.x) == (q, m, false));
        assert(self.div_spec().a as int == q);
        assert(self.div_spec().y as int == m);
        assert(x * q == q * x) by (nonlinear_arith);
    }

    /// XCN: the two nibbles of A change places.
    pub proof fn lemma_xcn_swaps(self)
        ensures
            self.xcn_spec().a % 16 == self.a / 16,
            self.xcn_spec().a / 16 == self.a % 16,
    {
    }

    /// ADDW on Y:A and the word read (low byte first): the sum modulo 0x10000, and C
    /// tells whether the sum passed 0xFFFF.
    pub proof fn lemma_addw(self, ev: Seq<BusEvent>, n: int)
        ensures
            ({
                let w = self.a + 256 * self.y;
                let op = value_at(ev, n + 1) + 256 * value_at(ev, n + 2);
                let add = self.word_op_spec(WordOp::Addw, ev, n).after;
                &&& add.a + 256 * add.y == (w + op) % 0x10000
                &&& add.psw.c == (w + op > 0xFFFF)
            }),
    {
        let l = value_at(ev, n + 1);
        let h = value_at(ev, n + 2);
        let t = l + self.a;
        let u = h + self.y + if t > 255 { 1int } else { 0int };
        let add = self.word_op_spec(WordOp::Addw, ev, n).after;
        assert(add.a as int == t % 256 && add.y as int == u % 256 && add.psw.c == (u > 255));
        lemma_carry_chain(self.a as int, self.y as int, l as int, h as int, 0);
    }

    /// SUBW adds the complement of the word read, byte by byte, with the carry set.
    proof fn lemma_subw_steps(self, ev: Seq<BusEvent>, n: int)
        ensures
            ({
                let p0 = ProgramStatusWord { c: true, ..self.psw };
                let r1 = adc_spec(p0, self.a, (255 - value_at(ev, n + 1)) as u8);
                let r2 = adc_spec(r1.1, self.y, (255 - value_at(ev, n + 2)) as u8);
                let sub = self.word_op_spec(WordOp::Subw, ev, n).after;
                &&& sub.a == r1.0
                &&& sub.y == r2.0
                &&& sub.psw.c == r2.1.c
            }),
    {
    }

    /// SUBW on Y:A and the word read (low byte first): the difference modulo 0x10000,
    /// and C tells whether no borrow was needed.
    #[verifier::rlimit(60)]
    pub proof fn lemma_subw(self, ev: Seq<BusEvent>, n: int)
        ensures
            ({
                let w = self.a + 256 * self.y;
                let op = value_at(ev, n + 1) + 256 * value_at(ev, n + 2);
                let sub = self.word_op_spec(WordOp::Subw, ev, n).after;
                &&& sub.a + 256 * sub.y == (w - op) % 0x10000
                &&& sub.psw.c == (w - op >= 0)
            }),
    {
        let l = value_at(ev, n + 1);
        let h = value_at(ev, n + 2);
        let nl = (255 - l) as u8;
        let nh = (255 - h) as u8;
        assert(nl as int == 255 - l && nh as int == 255 - h);
        self.lemma_subw_steps(ev, n);
        let p0 = ProgramStatusWord { c: true, ..self.psw };
        let r1 = adc_spec(p0, self.a, nl);
        let t = self.a + (255 - l) + 1;
        assert(r1.0 as int == t % 256 && r1.1.c == (t > 255)) by {
            crate::spc700::alu::lemma_adc_sum(p0, self.a, nl);
        }
        let r2 = adc_spec(r1.1, self.y, nh);
        let u = self.y + (255 - h) + if t > 255 { 1int } else { 0int };
        assert(r2.0 as int == u % 256 && r2.1.c == (u > 255)) by {
            crate::spc700::alu::lemma_adc_sum(r1.1, self.y, nh);
        }
        lemma_carry_chain(self.a as int, self.y as int, 255 - l, 255 - h, 1);
        let w = self.a + 256 * self.y;
        let op = l + 256 * h;
        let d = w - op;
        let sum = w + (255 - l) + 256 * (255 - h) + 1;
        assert(sum == d + 0x10000);
        if d >= 0 {
            assert(d % 0x10000 == d);
            assert(sum % 0x10000 == d);
        } else {
            assert(d % 0x10000 == d + 0x10000);
            assert(sum % 0x10000 == sum);
        }
    }

    /// INCW writes the word read plus one, modulo 0x10000, low byte then high byte.
    #[verifier::rlimit(100)]
    #[verifier::spinoff_prover]
    pub proof fn lemma_incw(self, ev: Seq<BusEvent>, n: int)
        ensures
            ({
                let op = value_at(ev, n + 1) + 256 * value_at(ev, n + 2);
                let (al, ah) = self.word_addrs(ev, n);
                let e = self.word_op_spec(WordOp::Incw, ev, n).events;
                &&& e.len() == 5
                &&& e[3] == wr(al, ((op + 1) % 0x10000 % 256) as u8)
                &&& e[4] == wr(ah, ((op + 1) % 0x10000 / 256) as u8)
            }),
    {
        let l = value_at(ev, n + 1);
        let h = value_at(ev, n + 2);
        let op = l + 256 * h;
        let (al, ah) = self.word_addrs(ev, n);
        let nl = w8(l + 1);
        let nh = w8(h + if l == 255 { 1int } else { 0 });
        let reads = seq![rd(self.pc as int, ev, n)] + seq![rd(al, ev, n + 1), rd(ah, ev, n + 2)];
        assert(self.word_op_spec(WordOp::Incw, ev, n).events == reads + seq![wr(al, nl), wr(ah, nh)]);
        if l == 255 {
            assert((op + 1) % 0x10000 == 256 * ((h + 1) % 256));
        } else {
            assert((op + 1) % 0x10000 == l + 1 + 256 * h);
        }
    }
}

/// Decimal adjustment after a binary addition of two BCD numbers: `hi` is the sum of
/// their high digits and `low0` the sum of their low digits with the carry.
#[verifier::rlimit(100)]
proof fn lemma_daa_digits(hi: int, low0: int)
    requires
        0 <= hi <= 18,
        0 <= low0 <= 19,
    ensures
        ({
            let s = 16 * hi + low0;
            let v = s % 256;
            let c = s > 255;
            let h = low0 > 15;
            let adj1 = c || v > 0x99;
            let a1 = if adj1 { (v + 0x60) % 256 } else { v };
            let a2 = if h || a1 % 16 > 9 { (a1 + 6) % 256 } else { a1 };
            let d = 10 * hi + low0;
            &&& a2 == 16 * ((d % 100) / 10) + (d % 100) % 10
            &&& (c || adj1) == (d >= 100)
        }),
{
    let d = 10 * hi + low0;
    let s = 16 * hi + low0;
    if low0 <= 9 {
        if hi >= 10 {
            assert((s % 256 + 0x60) % 256 == s - 160);
            assert((s - 160) % 16 == low0);
            assert(d % 100 == d - 100);
            assert((d % 100) / 10 == hi - 10 && (d % 100) % 10 == low0);
        } else {
            assert(s % 256 == s && s <= 0x99 && s % 16 == low0);
            assert(d % 100 == d && d / 10 == hi && d % 10 == low0);
        }
    } else if low0 <= 15 {
        if hi >= 10 {
            assert((s % 256 + 0x60) % 256 == s - 160);
            assert((s - 160) % 16 == low0);
            assert((s - 160 + 6) % 256 == 16 * (hi - 9) + low0 - 10);
            assert(d % 100 == d - 100);
            assert((d % 100) / 10 == hi - 9 && (d % 100) % 10 == low0 - 10);
        } else if hi == 9 {
            assert(s % 256 == s && s > 0x99);
            assert((s + 0x60) % 256 == 0xF0 + low0 - 16 + 16);
            assert(((s + 0x60) % 256) % 16 == low0);
            assert(((s + 0x60) % 256 + 6) % 256 == low0 - 10);
            assert(d % 100 == low0 - 10);
            assert((d % 100) / 10 == 0 && (d % 100) % 10 == low0 - 10);
        } else {
            assert(s % 256 == s && s <= 0x99 && s % 16 == low0);
            assert(d % 100 == d && d / 10 == hi + 1 && d % 10 == low0 - 10);
        }
    } else {
        if hi + 1 >= 10 {
            assert((s % 256 + 0x60) % 256 == s - 160);
            assert((s - 160 + 6) % 256 == 16 * (hi - 9) + low0 - 10);
            assert(d % 100 == d - 100);
            assert((d % 100) / 10 == hi - 9 && (d % 100) % 10 == low0 - 10);
        } else {
            assert(s % 256 == s && s <= 0x99);
            assert(d % 100 == d && d / 10 == hi + 1 && d % 10 == low0 - 10);
        }
    }
}

impl Processor {
    /// ADC of two BCD numbers followed by DAA gives their decimal sum: A holds the sum
    /// of the two numbers and the carry modulo 100 as two BCD digits, and C tells
    /// whether the sum reached 100.
    pub proof fn lemma_adc_then_daa(self, l: u8, r: u8)
        requires
            l % 16 <= 9,
            l / 16 <= 9,
            r % 16 <= 9,
            r / 16 <= 9,
        ensures
            ({
                let (v, q) = adc_spec(self.psw, l, r);
                let after = (Processor { a: v, psw: q, ..self }).daa_spec();
                let d = 10 * (l / 16) + l % 16 + 10 * (r / 16) + r % 16 + fbit(self.psw.c);
                &&& after.a % 16 == (d % 100) % 10
                &&& after.a / 16 == (d % 100) / 10
                &&& after.psw.c == (d >= 100)
            }),
    {
        let hi = l / 16 + r / 16;
        let low0 = l % 16 + r % 16 + fbit(self.psw.c);
        lemma_daa_digits(hi, low0);
        assert(l + r + fbit(self.psw.c) == 16 * hi + low0);
        let d = 10 * hi + low0;
        let a2 = 16 * ((d % 100) / 10) + (d % 100) % 10;
        assert(a2 % 16 == (d % 100) % 10);
        assert(a2 / 16 == (d % 100) / 10);
    }
}

} // verus!
