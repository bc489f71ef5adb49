use vstd::prelude::*;

use crate::bus_event::{BusEvent, value_at};
use crate::spc700::processor::{HasAddressBus, Processor, rd, rd16, read_u16, w16, w8, word_at};
use crate::spc700::program_status_word::fbit;
use crate::wdc65816::dispatch::lemma_same_prefix;

verus! {

/// The addressing modes of instructions with a memory operand.
#[derive(Clone, Copy, Debug)]
pub enum Mode {
    Imm,
    D,
    Dx,
    Dy,
    Ix,
    Iy,
    Idx,
    Idy,
    Abs,
    AbsX,
    AbsY,
}

/// The result of an addressing mode: the operand's address, the bus cycles (their
/// read values taken from the log from index `n` on) and the registers afterwards.
pub struct ModeResult {
    pub addr: int,
    pub events: Seq<BusEvent>,
    pub after: Processor,
}

/// The outcome of an instruction: the registers afterwards and its bus cycles.
pub struct Outcome {
    pub after: Processor,
    pub events: Seq<BusEvent>,
}

impl Processor {
    /// The program counter moved on by `k` bytes.
    pub open spec fn pc_plus(self, k: int) -> u16 {
        w16(self.pc + k)
    }

    /// The start of the direct page: page 0 or, with the P flag, page 1.
    pub open spec fn page(self) -> int {
        0x100 * fbit(self.psw.p)
    }

    /// A direct page address: an offset byte read at the program counter, plus `r`,
    /// wrapping within the page.
    pub open spec fn direct(self, ev: Seq<BusEvent>, n: int, r: u8) -> ModeResult {
        ModeResult {
            addr: self.page() + w8(value_at(ev, n) + r),
            events: seq![rd(self.pc as int, ev, n)],
            after: Processor { pc: self.pc_plus(1), ..self },
        }
    }

    /// An absolute address read at the program counter, plus `r` (within 16 bits).
    pub open spec fn absolute(self, ev: Seq<BusEvent>, n: int, r: u8) -> ModeResult {
        ModeResult {
            addr: w16(word_at(ev, n) + r) as int,
            events: rd16(self.pc as int, ev, n),
            after: Processor { pc: self.pc_plus(2), ..self },
        }
    }

    /// The outcome of an addressing mode.
    #[verifier::opaque]
    pub open spec fn mode_spec(self, m: Mode, ev: Seq<BusEvent>, n: int) -> ModeResult {
        match m {
            Mode::Imm => ModeResult { addr: self.pc as int, events: seq![], after: Processor { pc: self.pc_plus(1), ..self } },
            Mode::D => self.direct(ev, n, 0),
            Mode::Dx => self.direct(ev, n, self.x),
            Mode::Dy => self.direct(ev, n, self.y),
            Mode::Ix => ModeResult { addr: self.x as int, events: seq![], after: self },
            Mode::Iy => ModeResult { addr: self.y as int, events: seq![], after: self },
            Mode::Idx => {
                let d = self.direct(ev, n, self.x);
                ModeResult { addr: word_at(ev, n + 1) as int, events: d.events + rd16(d.addr, ev, n + 1), after: d.after }
            },
            Mode::Idy => {
                let d = self.direct(ev, n, 0);
                ModeResult {
                    addr: w16(word_at(ev, n + 1) + self.y) as int,
                    events: d.events + rd16(d.addr, ev, n + 1),
                    after: d.after,
                }
            },
            Mode::Abs => self.absolute(ev, n, 0),
            Mode::AbsX => self.absolute(ev, n, self.x),
            Mode::AbsY => self.absolute(ev, n, self.y),
        }
    }

    /// An addressing mode depends only on the cycles it performed.
    pub proof fn lemma_mode_frame(self, m: Mode, ev1: Seq<BusEvent>, ev2: Seq<BusEvent>, n: int)
        requires
            0 <= n,
            ev1.len() == n + self.mode_spec(m, ev1, n).events.len(),
            ev1.len() <= ev2.len(),
            ev2.subrange(0, ev1.len() as int) == ev1,
        ensures
            self.mode_spec(m, ev1, n) == self.mode_spec(m, ev2, n),
    {
        reveal(Processor::mode_spec);
        lemma_same_prefix(ev1, ev2, n);
    }

    /// The number of cycles of an addressing mode does not depend on the values read.
    pub proof fn lemma_mode_len(self, m: Mode, ev1: Seq<BusEvent>, ev2: Seq<BusEvent>, n: int)
        ensures
            self.mode_spec(m, ev1, n).events.len() == self.mode_spec(m, ev2, n).events.len(),
    {
        reveal(Processor::mode_spec);
    }

    /// Addressing modes only move the program counter, give an address below 2^16, and
    /// take at most three cycles.
    pub proof fn lemma_mode_facts(self, m: Mode, ev: Seq<BusEvent>, n: int)
        ensures
            0 <= self.mode_spec(m, ev, n).addr < 0x10000,
            self.mode_spec(m, ev, n).after == (Processor { pc: self.mode_spec(m, ev, n).after.pc, ..self }),
            self.mode_spec(m, ev, n).events.len() <= 3,
    {
        reveal(Processor::mode_spec);
    }

    fn d_off<M: HasAddressBus>(&mut self, r: u8, bus: &mut M) -> (addr: usize)
        ensures
            ({
                let m = old(self).direct(final(bus).bus_events(), old(bus).bus_events().len() as int, r);
                &&& addr == m.addr
                &&& *final(self) == m.after
                &&& final(bus).bus_events() == old(bus).bus_events() + m.events
            }),
    {
        let addr = self.pc as usize;
        self.pc = self.pc.wrapping_add(1);
        let offset = bus.read(addr);
        assert(final(bus).bus_events() =~= old(bus).bus_events() + old(self).direct(
            final(bus).bus_events(),
            old(bus).bus_events().len() as int,
            r,
        ).events);
        let page: usize = if self.psw.p { 0x100 } else { 0 };
        page + offset.wrapping_add(r) as usize
    }

    fn abs_off<M: HasAddressBus>(&mut self, r: u8, bus: &mut M) -> (addr: usize)
        ensures
            ({
                let m = old(self).absolute(final(bus).bus_events(), old(bus).bus_events().len() as int, r);
                &&& addr == m.addr
                &&& *final(self) == m.after
                &&& final(bus).bus_events() == old(bus).bus_events() + m.events
            }),
    {
        let addr = self.pc as usize;
        self.pc = self.pc.wrapping_add(2);
        let a = read_u16(addr, bus).wrapping_add(r as u16);
        a as usize
    }

    fn indirect<M: HasAddressBus>(&mut self, indexed_first: bool, bus: &mut M) -> (addr: usize)
        ensures
            ({
                let m = old(self).mode_spec(
                    if indexed_first { Mode::Idx } else { Mode::Idy },
                    final(bus).bus_events(),
                    old(bus).bus_events().len() as int,
                );
                &&& addr == m.addr
                &&& *final(self) == m.after
                &&& final(bus).bus_events() == old(bus).bus_events() + m.events
            }),
    {
        reveal(Processor::mode_spec);
        let r = if indexed_first { self.x } else { 0 };
        let a0 = self.d_off(r, bus);
        let ghost mid = bus.bus_events();
        let w = read_u16(a0, bus);
        proof {
            let ev = bus.bus_events();
            let n = old(bus).bus_events().len() as int;
            assert(ev.subrange(0, mid.len() as int) =~= mid);
            assert(value_at(ev, n) == value_at(mid, n));
            assert(ev =~= old(bus).bus_events() + old(self).mode_spec(
                if indexed_first { Mode::Idx } else { Mode::Idy },
                ev,
                n,
            ).events);
        }
        if indexed_first {
            w as usize
        } else {
            w.wrapping_add(self.y as u16) as usize
        }
    }

    /// Compute the address of an operand.
    pub fn address<M: HasAddressBus>(&mut self, m: Mode, bus: &mut M) -> (addr: usize)
        ensures
            ({
                let r = old(self).mode_spec(m, final(bus).bus_events(), old(bus).bus_events().len() as int);
                &&& addr == r.addr
                &&& *final(self) == r.after
                &&& final(bus).bus_events() == old(bus).bus_events() + r.events
            }),
    {
        reveal(Processor::mode_spec);
        match m {
            Mode::Imm => {
                let pc = self.pc;
                self.pc = self.pc.wrapping_add(1);
                assert(bus.bus_events() =~= old(bus).bus_events() + seq![]);
                pc as usize
            },
            Mode::D => self.d_off(0, bus),
            Mode::Dx => {
                let x = self.x;
                self.d_off(x, bus)
            },
            Mode::Dy => {
                let y = self.y;
                self.d_off(y, bus)
            },
            Mode::Ix => {
                assert(bus.bus_events() =~= old(bus).bus_events() + seq![]);
                self.x as usize
            },
            Mode::Iy => {
                assert(bus.bus_events() =~= old(bus).bus_events() + seq![]);
                self.y as usize
            },
            Mode::Idx => self.indirect(true, bus),
            Mode::Idy => self.indirect(false, bus),
            Mode::Abs => self.abs_off(0, bus),
            Mode::AbsX => {
                let x = self.x;
                self.abs_off(x, bus)
            },
            Mode::AbsY => {
                let y = self.y;
                self.abs_off(y, bus)
            },
        }
    }
}

} // verus!
