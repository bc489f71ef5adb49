use vstd::prelude::*;

use crate::bus_event::{BusEvent, value_at};
use crate::wdc65816::modes::rd;
use crate::wdc65816::processor::{HasAddressBus, Processor, read_u16, word, wrap8};
use crate::wdc65816::stack::{moved_s, pull_events, push_events};
use crate::wdc65816::status_register::StatusRegister;
use crate::wdc65816::u24::u24;

verus! {

/// The outcome of an interrupt: the registers afterwards and the bus cycles.
pub struct Outcome {
    pub after: Processor,
    pub events: Seq<BusEvent>,
}

impl Processor {
    /// Entering an interrupt handler whose vector is at `addr_n` in native mode and
    /// `addr_e` in emulation mode. The return address and status are pushed, and the
    /// vector's value (the two reads at the end of the log) becomes the new program
    /// counter in bank 0.
    pub open spec fn break_spec(
        self,
        addr_n: u16,
        addr_e: u16,
        set_b: bool,
        ev: Seq<BusEvent>,
        n: int,
    ) -> Outcome {
        let pc_bytes = seq![(self.pc / 0x100) as u8, wrap8(self.pc as int)];
        if self.p.e {
            let pushed = StatusRegister { xb: self.p.xb || set_b, ..self.p };
            let s1 = moved_s(self.s, -2, true);
            let pushes = push_events(self.s, true, pc_bytes) + push_events(
                s1,
                true,
                seq![pushed.byte_spec(true) as u8],
            );
            let k = n + 3;
            Outcome {
                after: Processor {
                    s: moved_s(self.s, -3, true),
                    pbr: 0,
                    pc: word(value_at(ev, k), value_at(ev, k + 1)),
                    p: StatusRegister { d: false, i: true, ..self.p },
                    ..self
                },
                events: pushes + seq![rd(addr_e as int, ev, k), rd(addr_e + 1, ev, k + 1)],
            }
        } else {
            let s1 = moved_s(self.s, -1, false);
            let s2 = moved_s(self.s, -3, false);
            let pushes = push_events(self.s, false, seq![self.pbr]) + push_events(s1, false, pc_bytes)
                + push_events(s2, false, seq![self.p.byte_spec(true) as u8]);
            let k = n + 4;
            Outcome {
                after: Processor {
                    s: moved_s(self.s, -4, false),
                    pbr: 0,
                    pc: word(value_at(ev, k), value_at(ev, k + 1)),
                    p: StatusRegister { d: false, i: true, ..self.p },
                    ..self
                },
                events: pushes + seq![rd(addr_n as int, ev, k), rd(addr_n + 1, ev, k + 1)],
            }
        }
    }

    /// Break to a given address
    #[verifier::rlimit(100)]
    pub fn break_to<M: HasAddressBus>(&mut self, memory: &mut M, addr_n: u16, addr_e: u16, set_b: bool)
        requires
            addr_n < 0xFFFF,
            addr_e < 0xFFFF,
        ensures
            final(memory).origin() == old(memory).origin(),
            old(memory).traced() ==> final(memory).traced(),
            ({
                let o = old(self).break_spec(addr_n, addr_e, set_b, final(memory).bus_events(), old(memory).bus_events().len() as int);
                &&& *final(self) == o.after
                &&& final(memory).bus_events() == old(memory).bus_events() + o.events
            }),
    {
        if self.p.e {
            // Since we already incremented the PC by 1 we want to just add 1
            self.push_u16(self.pc, true, memory);
            // Clone processor register to set B flag
            let mut p = self.p;
            if set_b {
                p.xb = true;
            }
            self.push_u8(p.to_byte(true), true, memory);
            self.pbr = 0x00;
            self.pc = read_u16(memory, u24::from(0, addr_e));
        } else {
            self.push_u8(self.pbr, false, memory);
            self.push_u16(self.pc, false, memory);
            self.push_u8(self.p.to_byte(true), false, memory);
            self.pbr = 0x00;
            self.pc = read_u16(memory, u24::from(0, addr_n));
        }
        self.p.d = false;
        self.p.i = true;
        assert(final(memory).bus_events() =~= old(memory).bus_events() + old(self).break_spec(
            addr_n,
            addr_e,
            set_b,
            final(memory).bus_events(),
            old(memory).bus_events().len() as int,
        ).events);
    }

    /// Returning from an interrupt: the status byte, then the program counter, and in
    /// native mode the program bank are pulled.
    pub open spec fn rti_spec(self, ev: Seq<BusEvent>, n: int) -> Outcome {
        let e = self.p.e;
        let p1 = Processor {
            p: StatusRegister::from_byte_spec(value_at(ev, n + 2), e),
            s: moved_s(self.s, 1, e),
            ..self
        }.forced();
        let pc = word(value_at(ev, n + 3), value_at(ev, n + 4));
        let s2 = moved_s(p1.s, 2, e);
        let pulls = seq![BusEvent::Io, BusEvent::Io] + pull_events(self.s, e, 1, ev, n + 2)
            + pull_events(p1.s, e, 2, ev, n + 3);
        if e {
            Outcome { after: Processor { pc, s: s2, ..p1 }, events: pulls }
        } else {
            Outcome {
                after: Processor { pc, s: moved_s(s2, 1, false), pbr: value_at(ev, n + 5), ..p1 },
                events: pulls + pull_events(s2, false, 1, ev, n + 5),
            }
        }
    }

    /// Return from interrupt
    pub fn rti<M: HasAddressBus>(&mut self, memory: &mut M)
        ensures
            final(memory).origin() == old(memory).origin(),
            old(memory).traced() ==> final(memory).traced(),
            ({
                let o = old(self).rti_spec(final(memory).bus_events(), old(memory).bus_events().len() as int);
                &&& *final(self) == o.after
                &&& final(memory).bus_events() == old(memory).bus_events() + o.events
            }),
    {
        memory.io();
        memory.io();
        let e = self.p.e;
        let byte = self.pull_u8(e, memory);
        self.p = StatusRegister::from_byte(byte, e);
        self.force_registers();
        self.pc = self.pull_u16(e, memory);
        if !e {
            self.pbr = self.pull_u8(false, memory);
        }
        assert(final(memory).bus_events() =~= old(memory).bus_events() + old(self).rti_spec(
            final(memory).bus_events(),
            old(memory).bus_events().len() as int,
        ).events);
    }

    /// Reset: emulation mode, bank 0, and the program counter from the reset vector.
    pub fn reset<M: HasAddressBus>(&mut self, memory: &mut M)
        ensures
            final(memory).origin() == old(memory).origin(),
            old(memory).traced() ==> final(memory).traced(),
            ({
                let ev = final(memory).bus_events();
                let n = old(memory).bus_events().len() as int;
                &&& *final(self) == (Processor {
                    p: StatusRegister { e: true, ..old(self).p },
                    pbr: 0,
                    pc: word(value_at(ev, n), value_at(ev, n + 1)),
                    dbr: 0,
                    dl: 0,
                    dh: 0,
                    ..*old(self)
                })
                &&& ev == old(memory).bus_events() + seq![rd(0xFFFC, ev, n), rd(0xFFFD, ev, n + 1)]
            }),
    {
        self.p.e = true;
        self.pbr = 0x00;
        let low = memory.read(0xFFFC);
        let high = memory.read(0xFFFD);
        self.pc = (low as u16) + 0x100 * (high as u16);
        self.dbr = 0;
        self.dl = 0;
        self.dh = 0;
        proof {
            let ev = final(memory).bus_events();
            let n = old(memory).bus_events().len() as int;
            assert(ev =~= old(memory).bus_events() + seq![rd(0xFFFC, ev, n), rd(0xFFFD, ev, n + 1)]);
        }
    }

    /// Non-maskable interrupt
    pub fn on_nmi<M: HasAddressBus>(&mut self, memory: &mut M)
        ensures
            final(memory).origin() == old(memory).origin(),
            old(memory).traced() ==> final(memory).traced(),
            ({
                let o = old(self).break_spec(0xFFEA, 0xFFFA, true, final(memory).bus_events(), old(memory).bus_events().len() as int);
                &&& *final(self) == o.after
                &&& final(memory).bus_events() == old(memory).bus_events() + o.events
            }),
    {
        self.break_to(memory, 0xFFEA, 0xFFFA, true)
    }

    /// Interrupt request: taken only when interrupts are not disabled.
    pub fn on_irq<M: HasAddressBus>(&mut self, memory: &mut M)
        ensures
            final(memory).origin() == old(memory).origin(),
            old(memory).traced() ==> final(memory).traced(),
            ({
                let o = old(self).break_spec(0xFFEE, 0xFFFE, false, final(memory).bus_events(), old(memory).bus_events().len() as int);
                &&& !old(self).p.i ==> *final(self) == o.after
                &&& !old(self).p.i ==> final(memory).bus_events() == old(memory).bus_events() + o.events
                &&& old(self).p.i ==> *final(self) == *old(self)
                &&& old(self).p.i ==> final(memory).bus_events() == old(memory).bus_events()
            }),
    {
        if !self.p.i {
            self.break_to(memory, 0xFFEE, 0xFFFE, false);
        }
    }
}

} // verus!
