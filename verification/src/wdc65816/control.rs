use vstd::prelude::*;

use crate::bus_event::{BusEvent, value_at};
use crate::wdc65816::modes::{io_if, rd};
use crate::wdc65816::processor::{HasAddressBus, Processor, read_u16, word, wrap16, wrap24, wrap8};
use crate::wdc65816::stack::{moved_s, pull_addr, pull_events, push_addr, push_events};
use crate::wdc65816::status_register::StatusRegister;
use crate::wdc65816::u24::u24;

verus! {

impl Processor {
    /// Push a single byte to stack
    /// `is_old` is true if the opcode also existed on the 6502, and false otherwise
    pub fn push_u8<M: HasAddressBus>(&mut self, value: u8, is_old: bool, memory: &mut M)
        ensures
            final(memory).origin() == old(memory).origin(),
            old(memory).traced() ==> final(memory).traced(),
            *final(self) == (Processor { s: moved_s(old(self).s, -1, old(self).p.e), ..*old(self) }),
            final(memory).bus_events() == old(memory).bus_events() + push_events(
                old(self).s,
                old(self).p.e && is_old,
                seq![value],
            ),
    {
        let bytes = [value];
        assert(bytes@ =~= seq![value]);
        self.push_bytes(&bytes, is_old, memory);
    }

    /// Pull a single byte from the stack
    pub fn pull_u8<M: HasAddressBus>(&mut self, is_old: bool, memory: &mut M) -> (r: u8)
        ensures
            final(memory).origin() == old(memory).origin(),
            old(memory).traced() ==> final(memory).traced(),
            ({
                let ev = final(memory).bus_events();
                let n = old(memory).bus_events().len() as int;
                &&& r == value_at(ev, n)
                &&& *final(self) == (Processor { s: moved_s(old(self).s, 1, old(self).p.e), ..*old(self) })
                &&& ev == old(memory).bus_events() + pull_events(old(self).s, old(self).p.e && is_old, 1, ev, n)
            }),
    {
        let v = self.pull_bytes(1, is_old, memory);
        v[0]
    }

    /// Push a u16 given as two bytes in LE format: the high byte first.
    pub fn push_u16_le<M: HasAddressBus>(&mut self, low: u8, high: u8, is_old: bool, memory: &mut M)
        ensures
            final(memory).origin() == old(memory).origin(),
            old(memory).traced() ==> final(memory).traced(),
            *final(self) == (Processor { s: moved_s(old(self).s, -2, old(self).p.e), ..*old(self) }),
            final(memory).bus_events() == old(memory).bus_events() + push_events(
                old(self).s,
                old(self).p.e && is_old,
                seq![high, low],
            ),
    {
        let bytes = [high, low];
        assert(bytes@ =~= seq![high, low]);
        self.push_bytes(&bytes, is_old, memory);
    }

    /// Pull a u16 as two bytes in LE format
    pub fn pull_u16_le<M: HasAddressBus>(&mut self, is_old: bool, memory: &mut M) -> (r: (u8, u8))
        ensures
            final(memory).origin() == old(memory).origin(),
            old(memory).traced() ==> final(memory).traced(),
            ({
                let ev = final(memory).bus_events();
                let n = old(memory).bus_events().len() as int;
                &&& r == (value_at(ev, n), value_at(ev, n + 1))
                &&& *final(self) == (Processor { s: moved_s(old(self).s, 2, old(self).p.e), ..*old(self) })
                &&& ev == old(memory).bus_events() + pull_events(old(self).s, old(self).p.e && is_old, 2, ev, n)
            }),
    {
        let v = self.pull_bytes(2, is_old, memory);
        (v[0], v[1])
    }

    /// Pull a 16-bit value from the stack
    pub fn pull_u16<M: HasAddressBus>(&mut self, is_old: bool, memory: &mut M) -> (r: u16)
        ensures
            final(memory).origin() == old(memory).origin(),
            old(memory).traced() ==> final(memory).traced(),
            ({
                let ev = final(memory).bus_events();
                let n = old(memory).bus_events().len() as int;
                &&& r == word(value_at(ev, n), value_at(ev, n + 1))
                &&& *final(self) == (Processor { s: moved_s(old(self).s, 2, old(self).p.e), ..*old(self) })
                &&& ev == old(memory).bus_events() + pull_events(old(self).s, old(self).p.e && is_old, 2, ev, n)
            }),
    {
        let (low, high) = self.pull_u16_le(is_old, memory);
        (low as u16) + 0x100 * (high as u16)
    }

    /// Push a 16-bit value to the stack
    pub fn push_u16<M: HasAddressBus>(&mut self, value: u16, is_old: bool, memory: &mut M)
        ensures
            final(memory).origin() == old(memory).origin(),
            old(memory).traced() ==> final(memory).traced(),
            *final(self) == (Processor { s: moved_s(old(self).s, -2, old(self).p.e), ..*old(self) }),
            final(memory).bus_events() == old(memory).bus_events() + push_events(
                old(self).s,
                old(self).p.e && is_old,
                seq![(value / 0x100) as u8, wrap8(value as int)],
            ),
    {
        self.push_u16_le((value % 0x100) as u8, (value / 0x100) as u8, is_old, memory);
    }

    /// Branch by a signed offset (given as a 16-bit two's complement number). In
    /// emulation mode, crossing a page costs an extra cycle.
    pub fn branch<M: HasAddressBus>(&mut self, memory: &mut M, offset: u16)
        ensures
            final(memory).origin() == old(memory).origin(),
            old(memory).traced() ==> final(memory).traced(),
            ({
                let pc = wrap16(old(self).pc + offset);
                &&& *final(self) == (Processor { pc, ..*old(self) })
                &&& final(memory).bus_events() == old(memory).bus_events() + seq![BusEvent::Io] + io_if(
                    old(self).p.e && pc / 0x100 != old(self).pc / 0x100,
                )
            }),
    {
        memory.io();
        let pc = self.pc.wrapping_add(offset);
        proof {
            let a = pc;
            let b = self.pc;
            assert(((a & 0xFF00) != (b & 0xFF00)) == (a / 0x100 != b / 0x100)) by (bit_vector);
        }
        // Extra cycle if branching across page boundaries in emulation mode
        if self.p.e && pc & 0xFF00 != self.pc & 0xFF00 {
            memory.io();
        }
        self.pc = pc;
        assert(final(memory).bus_events() =~= old(memory).bus_events() + seq![BusEvent::Io] + io_if(
            old(self).p.e && pc / 0x100 != old(self).pc / 0x100,
        ));
    }

    /// Jump and Save Return/Jump to SubRoutine (JSR)
    pub fn jsr<M: HasAddressBus>(&mut self, memory: &mut M, bank: u8, addr: u16, is_old: bool)
        ensures
            final(memory).origin() == old(memory).origin(),
            old(memory).traced() ==> final(memory).traced(),
            *final(self) == (Processor {
                s: moved_s(old(self).s, -2, old(self).p.e),
                pbr: bank,
                pc: addr,
                ..*old(self)
            }),
            final(memory).bus_events() == old(memory).bus_events() + push_events(
                old(self).s,
                old(self).p.e && is_old,
                seq![(old(self).pc_plus(1) / 0x100) as u8, wrap8(old(self).pc_plus(1) as int)],
            ),
    {
        self.push_u16(self.pc.wrapping_add(1), is_old, memory);
        self.jmp(bank, addr)
    }

    /// ReTurn from Subroutine (RTS): two internal cycles, the pull, and one more.
    pub fn rts<M: HasAddressBus>(&mut self, memory: &mut M)
        ensures
            final(memory).origin() == old(memory).origin(),
            old(memory).traced() ==> final(memory).traced(),
            ({
                let ev = final(memory).bus_events();
                let n = old(memory).bus_events().len() as int;
                &&& *final(self) == (Processor {
                    s: moved_s(old(self).s, 2, old(self).p.e),
                    pc: wrap16(word(value_at(ev, n + 2), value_at(ev, n + 3)) + 1),
                    ..*old(self)
                })
                &&& ev == old(memory).bus_events() + seq![BusEvent::Io, BusEvent::Io]
                    + pull_events(old(self).s, old(self).p.e, 2, ev, n + 2) + seq![BusEvent::Io]
            }),
    {
        memory.io();
        memory.io();
        let e = self.p.e;
        self.pc = self.pull_u16(e, memory).wrapping_add(1);
        let ghost mid = memory.bus_events();
        memory.io();
        proof {
            let ev = final(memory).bus_events();
            let n = old(memory).bus_events().len() as int;
            assert(ev.subrange(0, mid.len() as int) =~= mid);
            assert(value_at(ev, n + 2) == value_at(mid, n + 2));
            assert(value_at(ev, n + 3) == value_at(mid, n + 3));
            assert(pull_events(old(self).s, old(self).p.e, 2, ev, n + 2) =~= pull_events(old(self).s, old(self).p.e, 2, mid, n + 2));
            assert(ev =~= old(memory).bus_events() + seq![BusEvent::Io, BusEvent::Io]
                + pull_events(old(self).s, old(self).p.e, 2, ev, n + 2) + seq![BusEvent::Io]);
        }
    }

    /// ReTurn from subroutine Long (RTL): pulls the low, high and bank bytes.
    pub fn rtl<M: HasAddressBus>(&mut self, memory: &mut M)
        ensures
            final(memory).origin() == old(memory).origin(),
            old(memory).traced() ==> final(memory).traced(),
            ({
                let ev = final(memory).bus_events();
                let n = old(memory).bus_events().len() as int;
                &&& *final(self) == (Processor {
                    s: moved_s(old(self).s, 3, old(self).p.e),
                    pc: wrap16(word(value_at(ev, n + 2), value_at(ev, n + 3)) + 1),
                    pbr: value_at(ev, n + 4),
                    ..*old(self)
                })
                &&& ev == old(memory).bus_events() + seq![BusEvent::Io, BusEvent::Io]
                    + pull_events(old(self).s, false, 3, ev, n + 2)
            }),
    {
        memory.io();
        memory.io();
        let bytes = self.pull_bytes(3, false, memory);
        self.pc = ((bytes[0] as u16) + 0x100 * (bytes[1] as u16)).wrapping_add(1);
        self.pbr = bytes[2];
        proof {
            let ev = final(memory).bus_events();
            let n = old(memory).bus_events().len() as int;
            assert(ev =~= old(memory).bus_events() + seq![BusEvent::Io, BusEvent::Io]
                + pull_events(old(self).s, false, 3, ev, n + 2));
        }
    }

    /// Jump to Subroutine Long (JSL): pushes the bank, then the high and low bytes of
    /// the return address.
    pub fn jsl<M: HasAddressBus>(&mut self, memory: &mut M, bank: u8, addr: u16)
        ensures
            final(memory).origin() == old(memory).origin(),
            old(memory).traced() ==> final(memory).traced(),
            *final(self) == (Processor {
                s: moved_s(old(self).s, -3, old(self).p.e),
                pbr: bank,
                pc: addr,
                ..*old(self)
            }),
            final(memory).bus_events() == old(memory).bus_events() + push_events(
                old(self).s,
                false,
                seq![old(self).pbr, (old(self).pc_plus(2) / 0x100) as u8, wrap8(old(self).pc_plus(2) as int)],
            ),
    {
        let ret = self.pc.wrapping_add(2);
        let low = (ret % 0x100) as u8;
        let high = (ret / 0x100) as u8;
        let bytes = [self.pbr, high, low];
        assert(bytes@ =~= seq![old(self).pbr, (old(self).pc_plus(2) / 0x100) as u8, wrap8(old(self).pc_plus(2) as int)]);
        self.push_bytes(&bytes, false, memory);
        self.jmp(bank, addr);
    }
}

} // verus!
