use vstd::prelude::*;

use crate::bus_event::{BusEvent, value_at};
use crate::wdc65816::interrupts::Outcome;
use crate::wdc65816::modes::rd;
use crate::wdc65816::processor::{HasAddressBus, Processor, nz16, nz8, read_u16, read_u8, wrap16, wrap8};
use crate::wdc65816::specials::{rd16, word_at};
use crate::wdc65816::stack::{moved_s, pull_events, push_events};
use crate::wdc65816::status_register::StatusRegister;
use crate::wdc65816::u24::u24;

verus! {

/// The two bytes pushed for a 16-bit value: the high byte first.
pub open spec fn word_bytes(w: int) -> Seq<u8> {
    seq![(w / 0x100) as u8, wrap8(w)]
}

impl Processor {
    /// BRK and COP: read the signature byte and enter the interrupt handler whose
    /// vectors are 0xFFE6/0xFFFE (BRK, which sets the B flag) or 0xFFE4/0xFFF4 (COP).
    pub open spec fn software_interrupt_spec(self, cop: bool, ev: Seq<BusEvent>, n: int) -> Outcome {
        let p1 = Processor { pc: self.pc_plus(1), ..self };
        let o = if cop {
            p1.break_spec(0xFFE4, 0xFFF4, false, ev, n + 1)
        } else {
            p1.break_spec(0xFFE6, 0xFFFE, true, ev, n + 1)
        };
        Outcome { after: o.after, events: seq![rd(self.pc_addr() as int, ev, n)] + o.events }
    }

    pub fn software_interrupt<M: HasAddressBus>(&mut self, cop: bool, memory: &mut M)
        ensures
            final(memory).origin() == old(memory).origin(),
            old(memory).traced() ==> final(memory).traced(),
            ({
                let o = old(self).software_interrupt_spec(cop, final(memory).bus_events(), old(memory).bus_events().len() as int);
                &&& *final(self) == o.after
                &&& final(memory).bus_events() == old(memory).bus_events() + o.events
            }),
    {
        // Signature byte
        let _ = read_u8(memory, u24::from(self.pbr, self.pc));
        let ghost mid = memory.bus_events();
        self.pc = self.pc.wrapping_add(1);
        if cop {
            self.break_to(memory, 0xFFE4, 0xFFF4, false);
        } else {
            self.break_to(memory, 0xFFE6, 0xFFFE, true);
        }
        proof {
            let ev = memory.bus_events();
            let n = old(memory).bus_events().len() as int;
            assert(ev.subrange(0, mid.len() as int) =~= mid);
            assert(value_at(ev, n) == value_at(mid, n));
            assert(ev =~= old(memory).bus_events() + old(self).software_interrupt_spec(cop, ev, n).events);
        }
    }

    /// JSR absolute: read the target, one internal cycle, push the return address
    /// (the last operand byte) and jump within the program bank.
    pub open spec fn jsr_absolute_spec(self, ev: Seq<BusEvent>, n: int) -> Outcome {
        Outcome {
            after: Processor { s: moved_s(self.s, -2, self.p.e), pc: word_at(ev, n), ..self },
            events: rd16(self.pc_addr() as int, ev, n) + seq![BusEvent::Io] + push_events(
                self.s,
                self.p.e,
                word_bytes(self.pc_plus(1) as int),
            ),
        }
    }

    pub fn jsr_absolute<M: HasAddressBus>(&mut self, memory: &mut M)
        ensures
            final(memory).origin() == old(memory).origin(),
            old(memory).traced() ==> final(memory).traced(),
            ({
                let o = old(self).jsr_absolute_spec(final(memory).bus_events(), old(memory).bus_events().len() as int);
                &&& *final(self) == o.after
                &&& final(memory).bus_events() == old(memory).bus_events() + o.events
            }),
    {
        let addr = read_u16(memory, u24::from(self.pbr, self.pc));
        memory.io();
        self.jsr(memory, self.pbr, addr, true);
        proof {
            let ev = final(memory).bus_events();
            assert(ev =~= old(memory).bus_events() + old(self).jsr_absolute_spec(ev, old(memory).bus_events().len() as int).events);
        }
    }

    /// JSR (absolute, X): the target is read through a pointer in the program bank,
    /// indexed by X.
    pub open spec fn jsr_indexed_indirect_spec(self, ev: Seq<BusEvent>, n: int) -> Outcome {
        let ptr = wrap16(word_at(ev, n) + self.x_spec());
        Outcome {
            after: Processor { s: moved_s(self.s, -2, self.p.e), pc: word_at(ev, n + 2), ..self },
            events: rd16(self.pc_addr() as int, ev, n) + rd16(self.pbr * 0x10000 + ptr, ev, n + 2) + seq![
                BusEvent::Io,
            ] + push_events(self.s, false, word_bytes(self.pc_plus(1) as int)),
        }
    }

    pub fn jsr_indexed_indirect<M: HasAddressBus>(&mut self, memory: &mut M)
        ensures
            final(memory).origin() == old(memory).origin(),
            old(memory).traced() ==> final(memory).traced(),
            ({
                let o = old(self).jsr_indexed_indirect_spec(final(memory).bus_events(), old(memory).bus_events().len() as int);
                &&& *final(self) == o.after
                &&& final(memory).bus_events() == old(memory).bus_events() + o.events
            }),
    {
        let x = self.x();
        let base = read_u16(memory, u24::from(self.pbr, self.pc));
        let ghost n = old(memory).bus_events().len() as int;
        let ghost mid = memory.bus_events();
        let addr = base.wrapping_add(x);
        let target = read_u16(memory, u24::from(self.pbr, addr));
        memory.io();
        self.jsr(memory, self.pbr, target, false);
        proof {
            let ev = final(memory).bus_events();
            assert(ev.subrange(0, mid.len() as int) =~= mid);
            assert(value_at(ev, n) == value_at(mid, n));
            assert(value_at(ev, n + 1) == value_at(mid, n + 1));
            assert(word_at(ev, n) == base);
            assert(ev =~= old(memory).bus_events() + old(self).jsr_indexed_indirect_spec(ev, n).events);
        }
    }

    /// JSL: read a 24-bit target, push the program bank and the return address, jump.
    pub open spec fn jsl_long_spec(self, ev: Seq<BusEvent>, n: int) -> Outcome {
        Outcome {
            after: Processor {
                s: moved_s(self.s, -3, self.p.e),
                pbr: value_at(ev, n + 2),
                pc: word_at(ev, n),
                ..self
            },
            events: rd16(self.pc_addr() as int, ev, n) + seq![rd(self.pbr * 0x10000 + self.pc_plus(2), ev, n + 2)]
                + push_events(self.s, false, seq![self.pbr].add(word_bytes(self.pc_plus(2) as int)))
                + seq![BusEvent::Io],
        }
    }

    pub fn jsl_long<M: HasAddressBus>(&mut self, memory: &mut M)
        ensures
            final(memory).origin() == old(memory).origin(),
            old(memory).traced() ==> final(memory).traced(),
            ({
                let o = old(self).jsl_long_spec(final(memory).bus_events(), old(memory).bus_events().len() as int);
                &&& *final(self) == o.after
                &&& final(memory).bus_events() == old(memory).bus_events() + o.events
            }),
    {
        let addr = read_u16(memory, u24::from(self.pbr, self.pc));
        let bank = read_u8(memory, u24::from(self.pbr, self.pc.wrapping_add(2)));
        self.jsl(memory, bank, addr);
        memory.io();
        proof {
            let ev = final(memory).bus_events();
            assert(seq![old(self).pbr].add(word_bytes(old(self).pc_plus(2) as int)) =~= seq![
                old(self).pbr,
                (old(self).pc_plus(2) / 0x100) as u8,
                wrap8(old(self).pc_plus(2) as int),
            ]);
            assert(ev =~= old(memory).bus_events() + old(self).jsl_long_spec(ev, old(memory).bus_events().len() as int).events);
        }
    }

    /// PEA: push the 16-bit operand.
    pub open spec fn pea_spec(self, ev: Seq<BusEvent>, n: int) -> Outcome {
        Outcome {
            after: Processor { s: moved_s(self.s, -2, self.p.e), pc: self.pc_plus(2), ..self },
            events: rd16(self.pc_addr() as int, ev, n) + push_events(self.s, false, word_bytes(word_at(ev, n) as int)),
        }
    }

    pub fn pea<M: HasAddressBus>(&mut self, memory: &mut M)
        ensures
            final(memory).origin() == old(memory).origin(),
            old(memory).traced() ==> final(memory).traced(),
            ({
                let o = old(self).pea_spec(final(memory).bus_events(), old(memory).bus_events().len() as int);
                &&& *final(self) == o.after
                &&& final(memory).bus_events() == old(memory).bus_events() + o.events
            }),
    {
        let addr = self.i(memory);
        let value = read_u16(memory, addr);
        let ghost n = old(memory).bus_events().len() as int;
        let ghost mid = memory.bus_events();
        self.push_u16(value, false, memory);
        self.pc = self.pc.wrapping_add(1);
        proof {
            let ev = final(memory).bus_events();
            assert(ev.subrange(0, mid.len() as int) =~= mid);
            assert(value_at(ev, n) == value_at(mid, n));
            assert(value_at(ev, n + 1) == value_at(mid, n + 1));
            assert(word_at(ev, n) == value);
            assert(ev =~= old(memory).bus_events() + old(self).pea_spec(ev, n).events);
        }
    }

    /// PEI: push the word found at a direct page address.
    pub open spec fn pei_spec(self, ev: Seq<BusEvent>, n: int) -> Outcome {
        let m = self.mode_d(ev, n);
        let k = n + m.events.len();
        Outcome {
            after: Processor { s: moved_s(self.s, -2, self.p.e), ..m.after },
            events: m.events + rd16(m.addr, ev, k) + push_events(self.s, false, word_bytes(word_at(ev, k) as int)),
        }
    }

    pub fn pei<M: HasAddressBus>(&mut self, memory: &mut M)
        ensures
            final(memory).origin() == old(memory).origin(),
            old(memory).traced() ==> final(memory).traced(),
            ({
                let o = old(self).pei_spec(final(memory).bus_events(), old(memory).bus_events().len() as int);
                &&& *final(self) == o.after
                &&& final(memory).bus_events() == old(memory).bus_events() + o.events
            }),
    {
        // The internal cycle here is handled by the direct page addressing
        let pointer = self.d(memory);
        let ghost m1 = memory.bus_events();
        let value = read_u16(memory, pointer);
        let ghost m2 = memory.bus_events();
        self.push_u16(value, false, memory);
        proof {
            let ev = final(memory).bus_events();
            let n = old(memory).bus_events().len() as int;
            let k = m1.len() as int;
            assert(ev.subrange(0, m2.len() as int) =~= m2);
            assert(m2.subrange(0, m1.len() as int) =~= m1);
            assert(value_at(ev, n) == value_at(m1, n));
            assert(value_at(ev, k) == value_at(m2, k));
            assert(value_at(ev, k + 1) == value_at(m2, k + 1));
            assert(word_at(ev, k) == value);
            assert(ev =~= old(memory).bus_events() + old(self).pei_spec(ev, n).events);
        }
    }

    /// PER: push the address of the next instruction plus a 16-bit offset.
    pub open spec fn per_spec(self, ev: Seq<BusEvent>, n: int) -> Outcome {
        let value = wrap16(self.pc_plus(2) + word_at(ev, n));
        Outcome {
            after: Processor { s: moved_s(self.s, -2, self.p.e), pc: self.pc_plus(2), ..self },
            events: rd16(self.pc_addr() as int, ev, n) + seq![BusEvent::Io] + push_events(
                self.s,
                false,
                word_bytes(value as int),
            ),
        }
    }

    #[verifier::rlimit(40)]
    pub fn per<M: HasAddressBus>(&mut self, memory: &mut M)
        ensures
            final(memory).origin() == old(memory).origin(),
            old(memory).traced() ==> final(memory).traced(),
            ({
                let o = old(self).per_spec(final(memory).bus_events(), old(memory).bus_events().len() as int);
                &&& *final(self) == o.after
                &&& final(memory).bus_events() == old(memory).bus_events() + o.events
            }),
    {
        // Add operand to address of next instruction
        let offset = read_u16(memory, u24::from(self.pbr, self.pc));
        let ghost n = old(memory).bus_events().len() as int;
        let ghost mid = memory.bus_events();
        let next = self.pc.wrapping_add(2);
        let value = next.wrapping_add(offset);
        assert(value == wrap16(old(self).pc_plus(2) + offset));
        memory.io();
        self.push_u16(value, false, memory);
        self.pc = self.pc.wrapping_add(2);
        proof {
            let ev = final(memory).bus_events();
            assert(ev.subrange(0, mid.len() as int) =~= mid);
            assert(value_at(ev, n) == value_at(mid, n));
            assert(value_at(ev, n + 1) == value_at(mid, n + 1));
            assert(word_at(ev, n) == offset);
            assert(ev =~= old(memory).bus_events() + old(self).per_spec(ev, n).events);
        }
    }

    /// PHD: push the direct register (no internal cycle).
    pub fn phd<M: HasAddressBus>(&mut self, memory: &mut M)
        ensures
            final(memory).origin() == old(memory).origin(),
            old(memory).traced() ==> final(memory).traced(),
            *final(self) == (Processor { s: moved_s(old(self).s, -2, old(self).p.e), ..*old(self) }),
            final(memory).bus_events() == old(memory).bus_events() + push_events(
                old(self).s,
                false,
                word_bytes(old(self).dr_spec() as int),
            ),
    {
        let d = self.dr();
        self.push_u16(d, false, memory);
    }

    /// PLB: pull the data bank register and set N and Z from it.
    pub open spec fn plb_spec(self, ev: Seq<BusEvent>, n: int) -> Outcome {
        let v = value_at(ev, n + 2);
        Outcome {
            after: Processor { s: moved_s(self.s, 1, self.p.e), dbr: v, p: nz8(self.p, v), ..self },
            events: seq![BusEvent::Io, BusEvent::Io] + pull_events(self.s, false, 1, ev, n + 2),
        }
    }

    pub fn plb<M: HasAddressBus>(&mut self, memory: &mut M)
        ensures
            final(memory).origin() == old(memory).origin(),
            old(memory).traced() ==> final(memory).traced(),
            ({
                let o = old(self).plb_spec(final(memory).bus_events(), old(memory).bus_events().len() as int);
                &&& *final(self) == o.after
                &&& final(memory).bus_events() == old(memory).bus_events() + o.events
            }),
    {
        memory.io();
        memory.io();
        self.dbr = self.pull_u8(false, memory);
        self.p.n = self.dbr > 0x7F;
        self.p.z = self.dbr == 0;
        proof {
            let ev = final(memory).bus_events();
            assert(ev =~= old(memory).bus_events() + old(self).plb_spec(ev, old(memory).bus_events().len() as int).events);
        }
    }

    /// PLD: one internal cycle, then pull the direct register and set N and Z from it.
    pub open spec fn pld_spec(self, ev: Seq<BusEvent>, n: int) -> Outcome {
        let l = value_at(ev, n + 1);
        let h = value_at(ev, n + 2);
        Outcome {
            after: Processor { s: moved_s(self.s, 2, self.p.e), dl: l, dh: h, p: nz16(self.p, l, h), ..self },
            events: seq![BusEvent::Io] + pull_events(self.s, false, 2, ev, n + 1),
        }
    }

    pub fn pld<M: HasAddressBus>(&mut self, memory: &mut M)
        ensures
            final(memory).origin() == old(memory).origin(),
            old(memory).traced() ==> final(memory).traced(),
            ({
                let o = old(self).pld_spec(final(memory).bus_events(), old(memory).bus_events().len() as int);
                &&& *final(self) == o.after
                &&& final(memory).bus_events() == old(memory).bus_events() + o.events
            }),
    {
        memory.io();
        let (low, high) = self.pull_u16_le(false, memory);
        proof {
            let ev = memory.bus_events();
            let n = old(memory).bus_events().len() as int;
            assert(ev =~= old(memory).bus_events() + old(self).pld_spec(ev, n).events);
        }
        self.dl = low;
        self.dh = high;
        let d = self.dr();
        self.p.n = d > 0x7FFF;
        self.p.z = d == 0;
    }

    /// PLP: two internal cycles, pull the status register (kept in page 1 in emulation
    /// mode), then apply the width flags.
    pub open spec fn plp_spec(self, ev: Seq<BusEvent>, n: int) -> Outcome {
        let v = value_at(ev, n + 2);
        Outcome {
            after: (Processor {
                s: moved_s(self.s, 1, self.p.e),
                p: StatusRegister::from_byte_spec(v, self.p.e),
                ..self
            }).forced(),
            events: seq![BusEvent::Io, BusEvent::Io] + pull_events(self.s, self.p.e, 1, ev, n + 2),
        }
    }

    pub fn plp<M: HasAddressBus>(&mut self, memory: &mut M)
        ensures
            final(memory).origin() == old(memory).origin(),
            old(memory).traced() ==> final(memory).traced(),
            ({
                let o = old(self).plp_spec(final(memory).bus_events(), old(memory).bus_events().len() as int);
                &&& *final(self) == o.after
                &&& final(memory).bus_events() == old(memory).bus_events() + o.events
            }),
    {
        memory.io();
        memory.io();
        let e = self.p.e;
        let v = self.pull_u8(true, memory);
        self.p = StatusRegister::from_byte(v, e);
        self.force_registers();
        proof {
            let ev = memory.bus_events();
            let n = old(memory).bus_events().len() as int;
            assert(ev =~= old(memory).bus_events() + old(self).plp_spec(ev, n).events);
        }
    }

    /// WDM: read and ignore the byte after the operand.
    pub fn wdm<M: HasAddressBus>(&mut self, memory: &mut M)
        ensures
            final(memory).origin() == old(memory).origin(),
            old(memory).traced() ==> final(memory).traced(),
            ({
                let ev = final(memory).bus_events();
                let n = old(memory).bus_events().len() as int;
                &&& *final(self) == (Processor { pc: old(self).pc_plus(1), ..*old(self) })
                &&& ev == old(memory).bus_events().push(rd(old(self).pbr * 0x10000 + old(self).pc_plus(1), ev, n))
            }),
    {
        // Read and ignore next byte
        let _ = read_u8(memory, u24::from(self.pbr, self.pc.wrapping_add(1)));
        self.pc = self.pc.wrapping_add(1);
    }
}

} // verus!
