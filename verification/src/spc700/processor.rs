use vstd::prelude::*;

use crate::bus_event::{BusEvent, value_at};
use crate::spc700::program_status_word::ProgramStatusWord;
use crate::text::{hex, push_hex, push_str};

verus! {

/// The memory (and everything else) behind the SPC700's address bus.
///
/// `bus_events` is the log of bus cycles performed on this memory so far; each
/// method appends the cycle it performs. Implementations are free in what a read
/// returns and what a write changes.
pub trait HasAddressBus {
    spec fn bus_events(&self) -> Seq<BusEvent>;

    fn io(&mut self)
        ensures
            final(self).bus_events() == old(self).bus_events().push(BusEvent::Io),
    ;

    fn read(&mut self, address: usize) -> (value: u8)
        ensures
            final(self).bus_events() == old(self).bus_events().push(BusEvent::Read { address, value }),
    ;

    fn write(&mut self, address: usize, value: u8)
        ensures
            final(self).bus_events() == old(self).bus_events().push(BusEvent::Write { address, value }),
    ;
}

/// The SPC700 registers.
#[derive(Copy, Clone, Debug)]
pub struct Processor {
    pub a: u8,
    pub x: u8,
    pub y: u8,
    pub sp: u8,
    pub pc: u16,
    pub psw: ProgramStatusWord,
}

/// A read of `addr` whose value is the `i`-th entry of the log `ev`.
pub open spec fn rd(addr: int, ev: Seq<BusEvent>, i: int) -> BusEvent {
    BusEvent::Read { address: addr as usize, value: value_at(ev, i) }
}

/// A write of `v` to `addr`.
pub open spec fn wr(addr: int, v: u8) -> BusEvent {
    BusEvent::Write { address: addr as usize, value: v }
}

/// `x` reduced to a byte.
pub open spec fn w8(x: int) -> u8 {
    (x % 0x100) as u8
}

/// `x` reduced to 16 bits.
pub open spec fn w16(x: int) -> u16 {
    (x % 0x10000) as u16
}

/// The 16-bit number with the given low and high bytes.
pub open spec fn le16(low: u8, high: u8) -> u16 {
    (low + 0x100 * high) as u16
}

/// N and Z set from an 8-bit value.
pub open spec fn nz(p: ProgramStatusWord, v: u8) -> ProgramStatusWord {
    ProgramStatusWord { n: v >= 0x80, z: v == 0, ..p }
}

/// N and Z set from a 16-bit value given as two bytes.
pub open spec fn nz16(p: ProgramStatusWord, l: u8, h: u8) -> ProgramStatusWord {
    ProgramStatusWord { n: h >= 0x80, z: l == 0 && h == 0, ..p }
}

/// The registers after power-on: the program counter at the start of the boot ROM.
pub open spec fn power_on() -> Processor {
    Processor { a: 0, x: 0, y: 0, sp: 0, pc: 0xFFC0, psw: ProgramStatusWord::default_spec() }
}

impl ProgramStatusWord {
    pub open spec fn default_spec() -> ProgramStatusWord {
        ProgramStatusWord { n: false, v: false, p: false, b: false, h: false, i: false, z: false, c: false }
    }
}

/// The two reads of a little-endian word at `addr` (the high byte at the next address,
/// within 16 bits), their values taken from `ev` at `k` and `k + 1`.
pub open spec fn rd16(addr: int, ev: Seq<BusEvent>, k: int) -> Seq<BusEvent> {
    seq![rd(addr, ev, k), rd(w16(addr + 1) as int, ev, k + 1)]
}

/// The word formed by log entries `k` and `k + 1`.
pub open spec fn word_at(ev: Seq<BusEvent>, k: int) -> u16 {
    le16(value_at(ev, k), value_at(ev, k + 1))
}

/// Read a little-endian word (the high byte at the next 16-bit address).
pub fn read_u16<M: HasAddressBus>(addr: usize, bus: &mut M) -> (r: u16)
    requires
        addr < 0x10000,
    ensures
        ({
            let ev = final(bus).bus_events();
            let n = old(bus).bus_events().len() as int;
            &&& r == word_at(ev, n)
            &&& ev == old(bus).bus_events() + rd16(addr as int, ev, n)
        }),
{
    let low = bus.read(addr);
    let high = bus.read((addr as u16).wrapping_add(1) as usize);
    let ghost ev = bus.bus_events();
    assert(ev =~= old(bus).bus_events() + rd16(addr as int, ev, old(bus).bus_events().len() as int));
    low as u16 + 0x100 * high as u16
}

impl Processor {
    pub fn default() -> (r: Processor)
        ensures
            r == power_on(),
    {
        Processor { a: 0, x: 0, y: 0, sp: 0, pc: 0xFFC0, psw: ProgramStatusWord::default() }
    }

    /// The stack address of the current stack pointer.
    pub open spec fn stack_addr(self) -> int {
        self.sp + 0x100
    }

    pub fn push_to_stack_u8<M: HasAddressBus>(&mut self, val: u8, bus: &mut M)
        ensures
            *final(self) == (Processor { sp: w8(old(self).sp - 1), ..*old(self) }),
            final(bus).bus_events() == old(bus).bus_events().push(wr(old(self).stack_addr(), val)),
    {
        bus.write(self.sp as usize + 0x100, val);
        self.sp = self.sp.wrapping_sub(1);
    }

    pub fn pull_from_stack_u8<M: HasAddressBus>(&mut self, bus: &mut M) -> (r: u8)
        ensures
            ({
                let ev = final(bus).bus_events();
                let n = old(bus).bus_events().len() as int;
                &&& r == value_at(ev, n)
                &&& *final(self) == (Processor { sp: w8(old(self).sp + 1), ..*old(self) })
                &&& ev == old(bus).bus_events().push(rd(w8(old(self).sp + 1) + 0x100, ev, n))
            }),
    {
        self.sp = self.sp.wrapping_add(1);
        bus.read(self.sp as usize + 0x100)
    }

    /// Push a word: the high byte first.
    pub fn push_to_stack_u16<M: HasAddressBus>(&mut self, val: u16, bus: &mut M)
        ensures
            *final(self) == (Processor { sp: w8(old(self).sp - 2), ..*old(self) }),
            final(bus).bus_events() == old(bus).bus_events() + seq![
                wr(old(self).stack_addr(), (val / 0x100) as u8),
                wr(w8(old(self).sp - 1) + 0x100, w8(val as int)),
            ],
    {
        let l = (val % 0x100) as u8;
        let h = (val / 0x100) as u8;
        self.push_to_stack_u8(h, bus);
        self.push_to_stack_u8(l, bus);
        assert(final(bus).bus_events() =~= old(bus).bus_events() + seq![
            wr(old(self).stack_addr(), (val / 0x100) as u8),
            wr(w8(old(self).sp - 1) + 0x100, w8(val as int)),
        ]);
    }

    /// Pull a word: the low byte first.
    pub fn pull_from_stack_u16<M: HasAddressBus>(&mut self, bus: &mut M) -> (r: u16)
        ensures
            ({
                let ev = final(bus).bus_events();
                let n = old(bus).bus_events().len() as int;
                &&& r == word_at(ev, n)
                &&& *final(self) == (Processor { sp: w8(old(self).sp + 2), ..*old(self) })
                &&& ev == old(bus).bus_events() + seq![
                    rd(w8(old(self).sp + 1) + 0x100, ev, n),
                    rd(w8(old(self).sp + 2) + 0x100, ev, n + 1),
                ]
            }),
    {
        let l = self.pull_from_stack_u8(bus);
        let ghost mid = bus.bus_events();
        let h = self.pull_from_stack_u8(bus);
        proof {
            let ev = bus.bus_events();
            let n = old(bus).bus_events().len() as int;
            assert(ev.subrange(0, mid.len() as int) =~= mid);
            assert(value_at(ev, n) == value_at(mid, n));
            assert(ev =~= old(bus).bus_events() + seq![
                rd(w8(old(self).sp + 1) + 0x100, ev, n),
                rd(w8(old(self).sp + 2) + 0x100, ev, n + 1),
            ]);
        }
        l as u16 + 0x100 * h as u16
    }
}

impl Processor {
    /// `pre` followed by the registers as text:
    /// `A=01 X=02 Y=03 SP=EF PC=FFC0 PSW=[N=0 V=0 P=0 B=0 H=0 I=0 Z=0 C=0 (00)]`.
    pub open spec fn text_after(self, pre: Seq<char>) -> Seq<char> {
        self.psw.text_after(
            pre + "A="@ + hex(self.a as nat, 2) + " X="@ + hex(self.x as nat, 2) + " Y="@ + hex(self.y as nat, 2)
                + " SP="@ + hex(self.sp as nat, 2) + " PC="@ + hex(self.pc as nat, 4) + " PSW=["@,
        ) + "]"@
    }

    /// The registers as text.
    pub fn to_string(&self) -> (r: String)
        ensures
            r@ == self.text_after(Seq::empty()),
    {
        proof {
            assert("A=".is_ascii()) by { reveal_strlit("A="); }
            assert(" X=".is_ascii()) by { reveal_strlit(" X="); }
            assert(" Y=".is_ascii()) by { reveal_strlit(" Y="); }
            assert(" SP=".is_ascii()) by { reveal_strlit(" SP="); }
            assert(" PC=".is_ascii()) by { reveal_strlit(" PC="); }
            assert(" PSW=[".is_ascii()) by { reveal_strlit(" PSW=["); }
            assert("]".is_ascii()) by { reveal_strlit("]"); }
        }
        let mut s = String::new();
        push_str(&mut s, "A=");
        push_hex(&mut s, self.a as u32, 2);
        push_str(&mut s, " X=");
        push_hex(&mut s, self.x as u32, 2);
        push_str(&mut s, " Y=");
        push_hex(&mut s, self.y as u32, 2);
        push_str(&mut s, " SP=");
        push_hex(&mut s, self.sp as u32, 2);
        push_str(&mut s, " PC=");
        push_hex(&mut s, self.pc as u32, 4);
        push_str(&mut s, " PSW=[");
        self.psw.push_text(&mut s);
        push_str(&mut s, "]");
        s
    }
}

} // verus!
