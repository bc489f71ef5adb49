use vstd::prelude::*;

use crate::bus_event::{BusEvent, value_at};
use crate::wdc65816::processor::{HasAddressBus, Processor, word, wrap16, wrap8};

verus! {

/// The stack address of the `k`-th byte of a push starting at `s0`. With `page`, the
/// pointer is kept in page 1 after each byte.
pub open spec fn push_addr(s0: u16, k: int, page: bool) -> int {
    if page && k > 0 {
        0x100 + wrap8(s0 - k)
    } else {
        wrap16(s0 - k) as int
    }
}

/// The stack address of the `k`-th byte (counting from 1) of a pull starting at `s0`.
pub open spec fn pull_addr(s0: u16, k: int, page: bool) -> int {
    if page {
        0x100 + wrap8(s0 + k)
    } else {
        wrap16(s0 + k) as int
    }
}

/// The writes of a push of `bytes` starting at `s0`.
pub open spec fn push_events(s0: u16, page: bool, bytes: Seq<u8>) -> Seq<BusEvent> {
    Seq::new(
        bytes.len(),
        |k: int| BusEvent::Write { address: push_addr(s0, k, page) as usize, value: bytes[k] },
    )
}

/// The reads of a pull of `n` bytes starting at `s0`, their values taken from the log
/// `ev` from index `at` on.
pub open spec fn pull_events(s0: u16, page: bool, n: nat, ev: Seq<BusEvent>, at: int) -> Seq<
    BusEvent,
> {
    Seq::new(
        n,
        |k: int| BusEvent::Read { address: pull_addr(s0, k + 1, page) as usize, value: value_at(ev, at + k) },
    )
}

/// The stack pointer after moving by `delta`: in emulation mode it stays in page 1.
pub open spec fn moved_s(s0: u16, delta: int, e: bool) -> u16 {
    if e {
        (0x100 + wrap8(s0 + delta)) as u16
    } else {
        wrap16(s0 + delta)
    }
}

proof fn lemma_step_down(s0: u16, i: int, prev: u16, next: u16, page: bool)
    requires
        0 <= i,
        prev == (if page && i > 0 { (0x100 + wrap8(s0 - i)) as u16 } else { wrap16(s0 - i) }),
        next == (if page { (0x100 + wrap8(wrap16(prev - 1) as int)) as u16 } else { wrap16(prev - 1) }),
    ensures
        next == (if page { (0x100 + wrap8(s0 - (i + 1))) as u16 } else { wrap16(s0 - (i + 1)) }),
        prev == push_addr(s0, i, page),
{
    vstd::arithmetic::div_mod::lemma_mod_mod(prev - 1, 0x100, 0x100);
    assert(wrap8(wrap16(prev - 1) as int) == wrap8(prev - 1)) by {
        vstd::arithmetic::div_mod::lemma_mod_mod(prev - 1, 0x100, 0x100);
    }
    if page && i > 0 {
        vstd::arithmetic::div_mod::lemma_add_mod_noop_right(0xFFint, s0 as int - i, 0x100);
    } else {
        vstd::arithmetic::div_mod::lemma_add_mod_noop_right(-1int, s0 as int - i, 0x10000);
        vstd::arithmetic::div_mod::lemma_add_mod_noop_right(-1int, s0 as int - i, 0x100);
    }
}

proof fn lemma_step_up(s0: u16, i: int, prev: u16, next: u16, page: bool)
    requires
        0 <= i,
        prev == (if page && i > 0 { (0x100 + wrap8(s0 + i)) as u16 } else { wrap16(s0 + i) }),
        next == (if page { (0x100 + wrap8(wrap16(prev + 1) as int)) as u16 } else { wrap16(prev + 1) }),
    ensures
        next == (if page { (0x100 + wrap8(s0 + (i + 1))) as u16 } else { wrap16(s0 + (i + 1)) }),
        next == pull_addr(s0, i + 1, page),
{
    assert(wrap8(wrap16(prev + 1) as int) == wrap8(prev + 1)) by {
        vstd::arithmetic::div_mod::lemma_mod_mod(prev + 1, 0x100, 0x100);
    }
    if page && i > 0 {
        vstd::arithmetic::div_mod::lemma_add_mod_noop_right(0x101int, s0 as int + i, 0x100);
    } else {
        vstd::arithmetic::div_mod::lemma_add_mod_noop_right(1int, s0 as int + i, 0x10000);
    }
}

impl Processor {
    /// Push some bytes to the stack.
    /// `is_old` is true if the opcode also existed on the 6502: in emulation mode such
    /// opcodes keep the stack pointer within page 1 after every byte, the newer ones
    /// only at the end.
    #[verifier::rlimit(100)]
    pub fn push_bytes<M: HasAddressBus>(&mut self, bytes: &[u8], is_old: bool, memory: &mut M)
        requires
            bytes@.len() >= 1,
        ensures
            final(memory).origin() == old(memory).origin(),
            old(memory).traced() ==> final(memory).traced(),
            *final(self) == (Processor { s: moved_s(old(self).s, -(bytes@.len() as int), old(self).p.e), ..*old(self) }),
            final(memory).bus_events() == old(memory).bus_events() + push_events(
                old(self).s,
                old(self).p.e && is_old,
                bytes@,
            ),
    {
        let ghost s0 = self.s;
        let ghost page = self.p.e && is_old;
        let ghost ob = memory.bus_events();
        let page_wrap = self.p.e && is_old;
        let mut i: usize = 0;
        while i < bytes.len()
            invariant
                0 <= i <= bytes@.len(),
                page == page_wrap,
                s0 == old(self).s,
                ob == old(memory).bus_events(),
                memory.origin() == old(memory).origin(),
                old(memory).traced() ==> memory.traced(),
                *self == (Processor { s: self.s, ..*old(self) }),
                self.s == (if page && i > 0 { (0x100 + wrap8(s0 - i)) as u16 } else { wrap16(s0 - i) }),
                memory.bus_events() == ob + push_events(s0, page, bytes@.subrange(0, i as int)),
            decreases bytes@.len() - i,
        {
            let b = bytes[i];
            let ghost prev = self.s;
            memory.write(self.s as usize, b);
            self.s = self.s.wrapping_sub(1);
            if page_wrap {
                self.s = 0x100 + (self.s % 0x100);
            }
            proof {
                lemma_step_down(s0, i as int, prev, self.s, page);
                assert(push_events(s0, page, bytes@.subrange(0, i + 1)) =~= push_events(
                    s0,
                    page,
                    bytes@.subrange(0, i as int),
                ).push(BusEvent::Write { address: push_addr(s0, i as int, page) as usize, value: b }));
            }
            i = i + 1;
        }
        if !page_wrap && self.p.e {
            self.s = 0x100 | (self.s & 0xFF);
            proof {
                let s = wrap16(s0 - i);
                crate::bits::lemma_page1(s);
            }
        }
        assert(bytes@.subrange(0, bytes@.len() as int) =~= bytes@);
    }

    /// Pull some bytes from the stack, in the order they are read.
    pub fn pull_bytes<M: HasAddressBus>(&mut self, num_bytes: usize, is_old: bool, memory: &mut M) -> (r: Vec<u8>)
        requires
            num_bytes >= 1,
        ensures
            final(memory).origin() == old(memory).origin(),
            old(memory).traced() ==> final(memory).traced(),
            ({
                let ev = final(memory).bus_events();
                let n = old(memory).bus_events().len() as int;
                &&& r@.len() == num_bytes
                &&& forall|k: int| 0 <= k < num_bytes ==> #[trigger] r@[k] == value_at(ev, n + k)
                &&& *final(self) == (Processor { s: moved_s(old(self).s, num_bytes as int, old(self).p.e), ..*old(self) })
                &&& ev == old(memory).bus_events() + pull_events(old(self).s, old(self).p.e && is_old, num_bytes as nat, ev, n)
            }),
    {
        let ghost s0 = self.s;
        let ghost page = self.p.e && is_old;
        let ghost ob = memory.bus_events();
        let ghost n = ob.len() as int;
        let page_wrap = self.p.e && is_old;
        let mut bytes: Vec<u8> = Vec::new();
        let mut i: usize = 0;
        assert(ob.subrange(0, n) =~= ob);
        while i < num_bytes
            invariant
                0 <= i <= num_bytes,
                page == page_wrap,
                s0 == old(self).s,
                ob == old(memory).bus_events(),
                memory.origin() == old(memory).origin(),
                old(memory).traced() ==> memory.traced(),
                n == ob.len(),
                *self == (Processor { s: self.s, ..*old(self) }),
                self.s == (if page && i > 0 { (0x100 + wrap8(s0 + i)) as u16 } else { wrap16(s0 + i) }),
                bytes@.len() == i,
                memory.bus_events().len() == n + i,
                memory.bus_events().subrange(0, n) == ob,
                forall|k: int| 0 <= k < i ==> #[trigger] bytes@[k] == value_at(memory.bus_events(), n + k),
                forall|k: int| 0 <= k < i ==> #[trigger] memory.bus_events()[n + k] == (BusEvent::Read {
                    address: pull_addr(s0, k + 1, page) as usize,
                    value: value_at(memory.bus_events(), n + k),
                }),
            decreases num_bytes - i,
        {
            let ghost prev = self.s;
            self.s = self.s.wrapping_add(1);
            if page_wrap {
                self.s = 0x100 + (self.s % 0x100);
            }
            proof {
                lemma_step_up(s0, i as int, prev, self.s, page);
            }
            let v = memory.read(self.s as usize);
            bytes.push(v);
            i = i + 1;
        }
        if !page_wrap && self.p.e {
            self.s = 0x100 | (self.s & 0xFF);
            proof {
                let s = wrap16(s0 + i);
                crate::bits::lemma_page1(s);
            }
        }
        proof {
            let ev = memory.bus_events();
            assert(ev =~= ob + pull_events(s0, page, num_bytes as nat, ev, n));
        }
        bytes
    }
}

} // verus!
