use vstd::prelude::*;

use crate::bus_event::{BusEvent, value_at};
use crate::wdc65816::processor::{
    HasAddressBus, Processor, read_u16, read_u24, read_u8, word, wrap16, wrap24, wrap8,
};
use crate::wdc65816::u24::u24;

verus! {

/// A read of `addr` whose value is the `i`-th entry of the log `ev`.
pub open spec fn rd(addr: int, ev: Seq<BusEvent>, i: int) -> BusEvent {
    BusEvent::Read { address: addr as usize, value: value_at(ev, i) }
}

/// The outcome of an addressing mode: the effective 24-bit address, the bus cycles it
/// took (their read values taken from the log `ev` from index `n` on), and the registers
/// afterwards.
pub struct ModeResult {
    pub addr: int,
    pub events: Seq<BusEvent>,
    pub after: Processor,
}

/// An `extra` internal cycle, if `b` holds.
pub open spec fn io_if(b: bool) -> Seq<BusEvent> {
    if b { seq![BusEvent::Io] } else { seq![] }
}

/// A number below 2^24 is the sum of its three bytes.
pub proof fn lemma_three_bytes(r: int)
    requires
        0 <= r < 0x1000000,
    ensures
        r == wrap8(r) + 0x100 * wrap8(r / 0x100) + 0x10000 * (r / 0x10000),
        r / 0x10000 < 0x100,
{
}

broadcast use u24::lemma_val_nonneg;

impl Processor {
    /// Immediate: the operand follows the opcode.
    pub open spec fn mode_i(self) -> ModeResult {
        ModeResult {
            addr: self.pc_addr() as int,
            events: seq![],
            after: Processor { pc: self.pc_plus(1), ..self },
        }
    }

    /// Absolute: a 16-bit address in the data bank.
    pub open spec fn mode_a(self, ev: Seq<BusEvent>, n: int) -> ModeResult {
        let pa = self.pc_addr() as int;
        ModeResult {
            addr: self.dbr * 0x10000 + word(value_at(ev, n), value_at(ev, n + 1)),
            events: seq![rd(pa, ev, n), rd(wrap24(pa + 1), ev, n + 1)],
            after: Processor { pc: self.pc_plus(2), ..self },
        }
    }

    /// Absolute indexed by `register`.
    pub open spec fn mode_a_off(self, ev: Seq<BusEvent>, n: int, register: u16) -> ModeResult {
        let pa = self.pc_addr() as int;
        ModeResult {
            addr: wrap24(self.dbr * 0x10000 + word(value_at(ev, n), value_at(ev, n + 1)) + register),
            events: seq![rd(pa, ev, n), rd(wrap24(pa + 1), ev, n + 1)],
            after: Processor { pc: self.pc_plus(2), ..self },
        }
    }

    /// Absolute long: a full 24-bit address follows the opcode.
    pub open spec fn mode_al(self, ev: Seq<BusEvent>, n: int) -> ModeResult {
        let pa = self.pc_addr() as int;
        ModeResult {
            addr: value_at(ev, n) + 0x100 * value_at(ev, n + 1) + 0x10000 * value_at(ev, n + 2),
            events: seq![rd(pa, ev, n), rd(wrap24(pa + 1), ev, n + 1), rd(wrap24(pa + 2), ev, n + 2)],
            after: Processor { pc: self.pc_plus(3), ..self },
        }
    }

    /// Direct page: a byte offset from the direct register, in bank 0.
    pub open spec fn mode_d(self, ev: Seq<BusEvent>, n: int) -> ModeResult {
        ModeResult {
            addr: wrap16(self.dr_spec() + value_at(ev, n)) as int,
            events: seq![rd(self.pc_addr() as int, ev, n)] + io_if(self.dl != 0),
            after: Processor { pc: self.pc_plus(1), ..self },
        }
    }

    /// Direct page indexed by `register`. In emulation mode with a page-aligned direct
    /// register the index wraps within the page.
    pub open spec fn mode_d_off(self, ev: Seq<BusEvent>, n: int, register: u16) -> ModeResult {
        if self.p.e && self.dl == 0 {
            ModeResult {
                addr: self.dh * 0x100 + wrap8(value_at(ev, n + 1) + register),
                events: seq![BusEvent::Io, rd(self.pc_addr() as int, ev, n + 1)],
                after: Processor { pc: self.pc_plus(1), ..self },
            }
        } else {
            let d = self.mode_d(ev, n + 1);
            ModeResult {
                addr: wrap16(d.addr + register) as int,
                events: seq![BusEvent::Io] + d.events,
                after: d.after,
            }
        }
    }

    /// Direct indirect: the pointer at a direct page address, in the data bank.
    pub open spec fn mode_di(self, ev: Seq<BusEvent>, n: int) -> ModeResult {
        let off = value_at(ev, n);
        let after = Processor { pc: self.pc_plus(1), ..self };
        let target = self.dbr * 0x10000 + word(value_at(ev, n + 1), value_at(ev, n + 2));
        if self.p.e && self.dl == 0 {
            ModeResult {
                addr: target,
                events: seq![
                    rd(self.pc_addr() as int, ev, n),
                    rd(self.dh * 0x100 + off, ev, n + 1),
                    rd(self.dh * 0x100 + wrap8(off + 1), ev, n + 2),
                ],
                after,
            }
        } else {
            let ptr = wrap16(self.dr_spec() + off) as int;
            ModeResult {
                addr: target,
                events: seq![rd(self.pc_addr() as int, ev, n), rd(ptr, ev, n + 1), rd(ptr + 1, ev, n + 2)],
                after,
            }
        }
    }

    /// Direct indexed indirect: the pointer at (direct page address + X), in the data bank.
    pub open spec fn mode_dix(self, ev: Seq<BusEvent>, n: int) -> ModeResult {
        let off = value_at(ev, n);
        let after = Processor { pc: self.pc_plus(1), ..self };
        let target = self.dbr * 0x10000 + word(value_at(ev, n + 2), value_at(ev, n + 3));
        let pre = seq![rd(self.pc_addr() as int, ev, n), BusEvent::Io];
        if self.p.e {
            if self.dl == 0 {
                let a = wrap8(off + self.x_spec());
                ModeResult {
                    addr: target,
                    events: pre + seq![
                        rd(self.dh * 0x100 + a, ev, n + 2),
                        rd(self.dh * 0x100 + wrap8(a + 1), ev, n + 3),
                    ],
                    after,
                }
            } else {
                let p = wrap16(off + self.x_spec() + self.dr_spec());
                ModeResult {
                    addr: target,
                    events: pre + seq![
                        rd(p as int, ev, n + 2),
                        rd((p / 0x100) * 0x100 + wrap8(p % 0x100 + 1), ev, n + 3),
                    ],
                    after,
                }
            }
        } else {
            let p = wrap16(self.dr_spec() + self.x_spec() + off);
            ModeResult {
                addr: target,
                events: pre + seq![rd(p as int, ev, n + 2), rd(wrap16(p + 1) as int, ev, n + 3)],
                after,
            }
        }
    }

    /// Direct indirect long: a 24-bit pointer at a direct page address.
    pub open spec fn mode_dil(self, ev: Seq<BusEvent>, n: int) -> ModeResult {
        let ptr = wrap16(self.dr_spec() + value_at(ev, n)) as int;
        ModeResult {
            addr: value_at(ev, n + 1) + 0x100 * value_at(ev, n + 2) + 0x10000 * value_at(ev, n + 3),
            events: seq![
                rd(self.pc_addr() as int, ev, n),
                rd(ptr, ev, n + 1),
                rd(ptr + 1, ev, n + 2),
                rd(ptr + 2, ev, n + 3),
            ],
            after: Processor { pc: self.pc_plus(1), ..self },
        }
    }

    /// Stack relative: a byte offset from the stack pointer, in bank 0.
    pub open spec fn mode_sr(self, ev: Seq<BusEvent>, n: int) -> ModeResult {
        ModeResult {
            addr: wrap16(self.s + value_at(ev, n)) as int,
            events: seq![rd(self.pc_addr() as int, ev, n), BusEvent::Io],
            after: Processor { pc: self.pc_plus(1), ..self },
        }
    }

    /// Stack relative indirect indexed by Y.
    pub open spec fn mode_sriy(self, ev: Seq<BusEvent>, n: int) -> ModeResult {
        let s = self.mode_sr(ev, n);
        ModeResult {
            addr: wrap24(self.dbr * 0x10000 + word(value_at(ev, n + 2), value_at(ev, n + 3)) + self.y_spec()),
            events: s.events + seq![rd(s.addr, ev, n + 2), rd(s.addr + 1, ev, n + 3), BusEvent::Io],
            after: s.after,
        }
    }

    /// Immediate addressing
    pub fn i<M: HasAddressBus>(&mut self, memory: &mut M) -> (r: u24)
        ensures
            final(memory).origin() == old(memory).origin(),
            old(memory).traced() ==> final(memory).traced(),
            r.val() == old(self).mode_i().addr,
            *final(self) == old(self).mode_i().after,
            final(memory).bus_events() == old(memory).bus_events(),
    {
        let addr = u24::from(self.pbr, self.pc);
        self.pc = self.pc.wrapping_add(1);
        addr
    }

    /// Absolute addressing
    pub fn a<M: HasAddressBus>(&mut self, memory: &mut M) -> (r: u24)
        ensures
            final(memory).origin() == old(memory).origin(),
            old(memory).traced() ==> final(memory).traced(),
            ({
                let m = old(self).mode_a(final(memory).bus_events(), old(memory).bus_events().len() as int);
                &&& r.val() == m.addr
                &&& *final(self) == m.after
                &&& final(memory).bus_events() == old(memory).bus_events() + m.events
            }),
    {
        let addr = read_u16(memory, u24::from(self.pbr, self.pc));
        self.pc = self.pc.wrapping_add(2);
        let r = u24::from(self.dbr, addr);
        assert(final(memory).bus_events() =~= old(memory).bus_events() + old(self).mode_a(
            final(memory).bus_events(),
            old(memory).bus_events().len() as int,
        ).events);
        r
    }
    /// Utility offset function for absolute indexed addressing
    pub fn a_off<M: HasAddressBus>(&mut self, memory: &mut M, register: u16) -> (r: u24)
        ensures
            final(memory).origin() == old(memory).origin(),
            old(memory).traced() ==> final(memory).traced(),
            ({
                let m = old(self).mode_a_off(final(memory).bus_events(), old(memory).bus_events().len() as int, register);
                &&& r.val() == m.addr
                &&& *final(self) == m.after
                &&& final(memory).bus_events() == old(memory).bus_events() + m.events
            }),
    {
        let addr = read_u16(memory, u24::from(self.pbr, self.pc));
        self.pc = self.pc.wrapping_add(2);
        let r = u24::from(self.dbr, addr).wrapping_add(register as u32);
        assert(final(memory).bus_events() =~= old(memory).bus_events() + old(self).mode_a_off(final(memory).bus_events(), old(memory).bus_events().len() as int, register).events);
        r
    }
    /// Absolute X Indexed addressing
    pub fn ax<M: HasAddressBus>(&mut self, memory: &mut M) -> (r: u24)
        ensures
            final(memory).origin() == old(memory).origin(),
            old(memory).traced() ==> final(memory).traced(),
            ({
                let m = old(self).mode_a_off(final(memory).bus_events(), old(memory).bus_events().len() as int, old(self).x_spec());
                &&& r.val() == m.addr
                &&& *final(self) == m.after
                &&& final(memory).bus_events() == old(memory).bus_events() + m.events
            }),
    {
        let x = self.x();
        self.a_off(memory, x)
    }
    /// Absolute Y Indexed addressing
    pub fn ay<M: HasAddressBus>(&mut self, memory: &mut M) -> (r: u24)
        ensures
            final(memory).origin() == old(memory).origin(),
            old(memory).traced() ==> final(memory).traced(),
            ({
                let m = old(self).mode_a_off(final(memory).bus_events(), old(memory).bus_events().len() as int, old(self).y_spec());
                &&& r.val() == m.addr
                &&& *final(self) == m.after
                &&& final(memory).bus_events() == old(memory).bus_events() + m.events
            }),
    {
        let y = self.y();
        self.a_off(memory, y)
    }
    /// Absolute Long addressing
    pub fn al<M: HasAddressBus>(&mut self, memory: &mut M) -> (r: u24)
        ensures
            final(memory).origin() == old(memory).origin(),
            old(memory).traced() ==> final(memory).traced(),
            ({
                let m = old(self).mode_al(final(memory).bus_events(), old(memory).bus_events().len() as int);
                &&& r.val() == m.addr
                &&& *final(self) == m.after
                &&& final(memory).bus_events() == old(memory).bus_events() + m.events
            }),
    {
        let addr = u24::from(self.pbr, self.pc);
        self.pc = self.pc.wrapping_add(3);
        let r = read_u24(memory, addr);
        proof {
            lemma_three_bytes(r.val());
        }
        assert(final(memory).bus_events() =~= old(memory).bus_events() + old(self).mode_al(final(memory).bus_events(), old(memory).bus_events().len() as int).events);
        r
    }
    /// Absolute Long X Indexed addressing
    pub fn alx<M: HasAddressBus>(&mut self, memory: &mut M) -> (r: u24)
        ensures
            final(memory).origin() == old(memory).origin(),
            old(memory).traced() ==> final(memory).traced(),
            ({
                let m = old(self).mode_al(final(memory).bus_events(), old(memory).bus_events().len() as int);
                &&& r.val() == wrap24(m.addr + old(self).x_spec())
                &&& *final(self) == m.after
                &&& final(memory).bus_events() == old(memory).bus_events() + m.events
            }),
    {
        let x = self.x();
        let a = self.al(memory);
        a.wrapping_add(x as u32)
    }
    /// Direct addressing
    pub fn d<M: HasAddressBus>(&mut self, memory: &mut M) -> (r: u24)
        ensures
            final(memory).origin() == old(memory).origin(),
            old(memory).traced() ==> final(memory).traced(),
            ({
                let m = old(self).mode_d(final(memory).bus_events(), old(memory).bus_events().len() as int);
                &&& r.val() == m.addr
                &&& *final(self) == m.after
                &&& final(memory).bus_events() == old(memory).bus_events() + m.events
            }),
    {
        let offset = read_u8(memory, u24::from(self.pbr, self.pc));
        // Extra cycle if direct register low is not 0
        if self.dl != 0 {
            memory.io();
        }
        self.pc = self.pc.wrapping_add(1);
        let r = u24::from(0x00, self.dr().wrapping_add(offset as u16));
        assert(final(memory).bus_events() =~= old(memory).bus_events() + old(self).mode_d(final(memory).bus_events(), old(memory).bus_events().len() as int).events);
        r
    }
    /// Direct addressing with offset
    #[verifier::rlimit(40)]
    pub fn d_off<M: HasAddressBus>(&mut self, memory: &mut M, register: u16) -> (r: u24)
        ensures
            final(memory).origin() == old(memory).origin(),
            old(memory).traced() ==> final(memory).traced(),
            ({
                let m = old(self).mode_d_off(final(memory).bus_events(), old(memory).bus_events().len() as int, register);
                &&& r.val() == m.addr
                &&& *final(self) == m.after
                &&& final(memory).bus_events() == old(memory).bus_events() + m.events
            }),
    {
        memory.io();
        if self.p.e && self.dl == 0 {
            let offset = read_u8(memory, u24::from(self.pbr, self.pc));
            self.pc = self.pc.wrapping_add(1);
            let r = u24::from_le_bytes([offset.wrapping_add((register % 0x100) as u8), self.dh, 0x00]);
        assert(final(memory).bus_events() =~= old(memory).bus_events() + old(self).mode_d_off(final(memory).bus_events(), old(memory).bus_events().len() as int, register).events);
            r
        } else {
            let addr = self.d(memory);
            let r = addr.wrapping_add(register as u32).with_bank(0x00);
        assert(final(memory).bus_events() =~= old(memory).bus_events() + old(self).mode_d_off(final(memory).bus_events(), old(memory).bus_events().len() as int, register).events);
            r
        }
    }
    /// Direct X Indexed addressing
    pub fn dx<M: HasAddressBus>(&mut self, memory: &mut M) -> (r: u24)
        ensures
            final(memory).origin() == old(memory).origin(),
            old(memory).traced() ==> final(memory).traced(),
            ({
                let m = old(self).mode_d_off(final(memory).bus_events(), old(memory).bus_events().len() as int, old(self).x_spec());
                &&& r.val() == m.addr
                &&& *final(self) == m.after
                &&& final(memory).bus_events() == old(memory).bus_events() + m.events
            }),
    {
        let x = self.x();
        self.d_off(memory, x)
    }
    /// Direct Y Indexed addressing
    pub fn dy<M: HasAddressBus>(&mut self, memory: &mut M) -> (r: u24)
        ensures
            final(memory).origin() == old(memory).origin(),
            old(memory).traced() ==> final(memory).traced(),
            ({
                let m = old(self).mode_d_off(final(memory).bus_events(), old(memory).bus_events().len() as int, old(self).y_spec());
                &&& r.val() == m.addr
                &&& *final(self) == m.after
                &&& final(memory).bus_events() == old(memory).bus_events() + m.events
            }),
    {
        let y = self.y();
        self.d_off(memory, y)
    }
    /// Direct Indirect addressing
    pub fn di<M: HasAddressBus>(&mut self, memory: &mut M) -> (r: u24)
        ensures
            final(memory).origin() == old(memory).origin(),
            old(memory).traced() ==> final(memory).traced(),
            ({
                let m = old(self).mode_di(final(memory).bus_events(), old(memory).bus_events().len() as int);
                &&& r.val() == m.addr
                &&& *final(self) == m.after
                &&& final(memory).bus_events() == old(memory).bus_events() + m.events
            }),
    {
        let offset = read_u8(memory, u24::from(self.pbr, self.pc));
        self.pc = self.pc.wrapping_add(1);
        if self.p.e && self.dl == 0 {
            let low = read_u8(memory, u24::from_le_bytes([offset, self.dh, 0x00]));
            let high = read_u8(memory, u24::from_le_bytes([offset.wrapping_add(1), self.dh, 0x00]));
            let r = u24::from(self.dbr, (low as u16) + 0x100 * (high as u16));
        assert(final(memory).bus_events() =~= old(memory).bus_events() + old(self).mode_di(final(memory).bus_events(), old(memory).bus_events().len() as int).events);
            r
        } else {
            let addr = read_u16(memory, u24::from(0x00, self.dr().wrapping_add(offset as u16)));
            let r = u24::from(self.dbr, addr);
        assert(final(memory).bus_events() =~= old(memory).bus_events() + old(self).mode_di(final(memory).bus_events(), old(memory).bus_events().len() as int).events);
            r
        }
    }
    /// Pointer fetch for direct indexed indirect addressing in emulation mode with a
    /// page-aligned direct register: the pointer wraps within the direct page.
    fn dix_pointer_page<M: HasAddressBus>(&self, memory: &mut M, offset: u8, x: u16) -> (r: u24)
        ensures
            final(memory).origin() == old(memory).origin(),
            old(memory).traced() ==> final(memory).traced(),
            ({
                let ev = final(memory).bus_events();
                let n = old(memory).bus_events().len() as int;
                let a = wrap8(offset + x);
                &&& r.val() == self.dbr * 0x10000 + word(value_at(ev, n), value_at(ev, n + 1))
                &&& ev == old(memory).bus_events() + seq![
                    rd(self.dh * 0x100 + a, ev, n),
                    rd(self.dh * 0x100 + wrap8(a + 1), ev, n + 1),
                ]
            }),
    {
        let addr = offset.wrapping_add((x % 0x100) as u8);
        proof {
            vstd::arithmetic::div_mod::lemma_add_mod_noop_right(offset as int, x as int, 0x100);
        }
        let low = read_u8(memory, u24::from_le_bytes([addr, self.dh, 0x00]));
        let high = read_u8(memory, u24::from_le_bytes([addr.wrapping_add(1), self.dh, 0x00]));
        let r = u24::from(self.dbr, (low as u16) + 0x100 * (high as u16));
        proof {
            let ev = final(memory).bus_events();
            let n = old(memory).bus_events().len() as int;
            let a = wrap8(offset + x);
            assert(ev =~= old(memory).bus_events() + seq![
                rd(self.dh * 0x100 + a, ev, n),
                rd(self.dh * 0x100 + wrap8(a + 1), ev, n + 1),
            ]);
        }
        r
    }

    /// Pointer fetch for direct indexed indirect addressing in emulation mode with a
    /// direct register off the page boundary.
    #[verifier::spinoff_prover]
    #[verifier::rlimit(40)]
    fn dix_pointer_dp<M: HasAddressBus>(&self, memory: &mut M, offset: u8, x: u16) -> (r: u24)
        ensures
            final(memory).origin() == old(memory).origin(),
            old(memory).traced() ==> final(memory).traced(),
            ({
                let ev = final(memory).bus_events();
                let n = old(memory).bus_events().len() as int;
                let p = wrap16(offset + x + self.dr_spec());
                &&& r.val() == self.dbr * 0x10000 + word(value_at(ev, n), value_at(ev, n + 1))
                &&& ev == old(memory).bus_events() + seq![
                    rd(p as int, ev, n),
                    rd((p / 0x100) * 0x100 + wrap8(p % 0x100 + 1), ev, n + 1),
                ]
            }),
    {
        let p = (offset as u16).wrapping_add(x).wrapping_add(self.dr());
        proof {
            let a = offset as int;
            let b = x as int;
            let c = self.dr_spec() as int;
            vstd::arithmetic::div_mod::lemma_add_mod_noop(a + b, c, 0x10000);
            assert((a + b) % 0x10000 == a + b || (a + b) % 0x10000 == a + b - 0x10000);
        }
        let al = (p % 0x100) as u8;
        let ah = (p / 0x100) as u8;
        let low = read_u8(memory, u24::from_le_bytes([al, ah, 0x00]));
        let high = read_u8(memory, u24::from_le_bytes([al.wrapping_add(1), ah, 0x00]));
        let r = u24::from(self.dbr, (low as u16) + 0x100 * (high as u16));
        proof {
            let ev = final(memory).bus_events();
            let n = old(memory).bus_events().len() as int;
            assert(ev =~= old(memory).bus_events() + seq![
                rd(p as int, ev, n),
                rd((p / 0x100) * 0x100 + wrap8(p % 0x100 + 1), ev, n + 1),
            ]);
        }
        r
    }

    /// Pointer fetch for direct indexed indirect addressing in native mode.
    fn dix_pointer_native<M: HasAddressBus>(&self, memory: &mut M, offset: u8, x: u16) -> (r: u24)
        ensures
            final(memory).origin() == old(memory).origin(),
            old(memory).traced() ==> final(memory).traced(),
            ({
                let ev = final(memory).bus_events();
                let n = old(memory).bus_events().len() as int;
                let p = wrap16(self.dr_spec() + x + offset);
                &&& r.val() == self.dbr * 0x10000 + word(value_at(ev, n), value_at(ev, n + 1))
                &&& ev == old(memory).bus_events() + seq![rd(p as int, ev, n), rd(wrap16(p + 1) as int, ev, n + 1)]
            }),
    {
        let p = self.dr().wrapping_add(x).wrapping_add(offset as u16);
        proof {
            let a = self.dr_spec() as int;
            let b = x as int;
            let c = offset as int;
            vstd::arithmetic::div_mod::lemma_add_mod_noop(a + b, c, 0x10000);
            assert((a + b) % 0x10000 == a + b || (a + b) % 0x10000 == a + b - 0x10000);
        }
        let addr = u24::from(0x00, p);
        let low = read_u8(memory, addr);
        let high = read_u8(memory, addr.wrapping_add(1u32).with_bank(0x00));
        let r = u24::from_le_bytes([low, high, self.dbr]);
        proof {
            let ev = final(memory).bus_events();
            let n = old(memory).bus_events().len() as int;
            assert(ev =~= old(memory).bus_events() + seq![rd(p as int, ev, n), rd(wrap16(p + 1) as int, ev, n + 1)]);
        }
        r
    }

    /// Direct Indirect X Indexed addressing
    #[verifier::spinoff_prover]
    #[verifier::rlimit(60)]
    pub fn dix<M: HasAddressBus>(&mut self, memory: &mut M) -> (r: u24)
        ensures
            final(memory).origin() == old(memory).origin(),
            old(memory).traced() ==> final(memory).traced(),
            ({
                let m = old(self).mode_dix(final(memory).bus_events(), old(memory).bus_events().len() as int);
                &&& r.val() == m.addr
                &&& *final(self) == m.after
                &&& final(memory).bus_events() == old(memory).bus_events() + m.events
            }),
    {
        let offset = read_u8(memory, u24::from(self.pbr, self.pc));
        self.pc = self.pc.wrapping_add(1);
        memory.io();
        let x = self.x();
        let ghost mid = memory.bus_events();
        let ghost ob = old(memory).bus_events();
        let ghost n = ob.len() as int;
        assert(mid =~= ob + seq![rd(old(self).pc_addr() as int, mid, n), BusEvent::Io]);
        if self.p.e {
            if self.dl == 0 {
                let r = self.dix_pointer_page(memory, offset, x);
                proof {
                    let ev = final(memory).bus_events();
                    assert(ev.subrange(0, n + 2) == mid);
                    assert(ev =~= old(memory).bus_events() + old(self).mode_dix(ev, n).events);
                }
                r
            } else {
                let r = self.dix_pointer_dp(memory, offset, x);
                proof {
                    let ev = final(memory).bus_events();
                    assert(ev.subrange(0, n + 2) == mid);
                    assert(ev =~= old(memory).bus_events() + old(self).mode_dix(ev, n).events);
                }
                r
            }
        } else {
            let r = self.dix_pointer_native(memory, offset, x);
            proof {
                let ev = final(memory).bus_events();
                assert(ev.subrange(0, n + 2) == mid);
                assert(ev =~= old(memory).bus_events() + old(self).mode_dix(ev, n).events);
            }
            r
        }
    }

    /// Direct Indirect Y Indexed addressing
    pub fn diy<M: HasAddressBus>(&mut self, memory: &mut M) -> (r: u24)
        ensures
            final(memory).origin() == old(memory).origin(),
            old(memory).traced() ==> final(memory).traced(),
            ({
                let m = old(self).mode_di(final(memory).bus_events(), old(memory).bus_events().len() as int);
                &&& r.val() == wrap24(m.addr + old(self).y_spec())
                &&& *final(self) == m.after
                &&& final(memory).bus_events() == old(memory).bus_events() + m.events
            }),
    {
        let addr = self.di(memory);
        let y = self.y();
        addr.wrapping_add(y as u32)
    }
    /// Direct Indirect Long addressing
    pub fn dil<M: HasAddressBus>(&mut self, memory: &mut M) -> (r: u24)
        ensures
            final(memory).origin() == old(memory).origin(),
            old(memory).traced() ==> final(memory).traced(),
            ({
                let m = old(self).mode_dil(final(memory).bus_events(), old(memory).bus_events().len() as int);
                &&& r.val() == m.addr
                &&& *final(self) == m.after
                &&& final(memory).bus_events() == old(memory).bus_events() + m.events
            }),
    {
        let offset = read_u8(memory, u24::from(self.pbr, self.pc));
        let addr = self.dr().wrapping_add(offset as u16);
        self.pc = self.pc.wrapping_add(1);
        // Read the value of the pointer from memory
        let r = read_u24(memory, u24::from(0x00, addr));
        proof {
            lemma_three_bytes(r.val());
        }
        assert(final(memory).bus_events() =~= old(memory).bus_events() + old(self).mode_dil(final(memory).bus_events(), old(memory).bus_events().len() as int).events);
        r
    }
    /// Direct Indirect Long Y Indexed addressing
    pub fn dily<M: HasAddressBus>(&mut self, memory: &mut M) -> (r: u24)
        ensures
            final(memory).origin() == old(memory).origin(),
            old(memory).traced() ==> final(memory).traced(),
            ({
                let m = old(self).mode_dil(final(memory).bus_events(), old(memory).bus_events().len() as int);
                &&& r.val() == wrap24(m.addr + old(self).y_spec())
                &&& *final(self) == m.after
                &&& final(memory).bus_events() == old(memory).bus_events() + m.events
            }),
    {
        let y = self.y();
        let addr = self.dil(memory);
        addr.wrapping_add(y as u32)
    }
    /// Stack Relative addressing
    pub fn sr<M: HasAddressBus>(&mut self, memory: &mut M) -> (r: u24)
        ensures
            final(memory).origin() == old(memory).origin(),
            old(memory).traced() ==> final(memory).traced(),
            ({
                let m = old(self).mode_sr(final(memory).bus_events(), old(memory).bus_events().len() as int);
                &&& r.val() == m.addr
                &&& *final(self) == m.after
                &&& final(memory).bus_events() == old(memory).bus_events() + m.events
            }),
    {
        let offset = read_u8(memory, u24::from(self.pbr, self.pc));
        let addr = self.s.wrapping_add(offset as u16);
        memory.io();
        self.pc = self.pc.wrapping_add(1);
        let r = u24::from(0x0, addr);
        assert(final(memory).bus_events() =~= old(memory).bus_events() + old(self).mode_sr(final(memory).bus_events(), old(memory).bus_events().len() as int).events);
        r
    }
    /// Stack Relative Indirect Y Indexed addressing
    pub fn sriy<M: HasAddressBus>(&mut self, memory: &mut M) -> (r: u24)
        ensures
            final(memory).origin() == old(memory).origin(),
            old(memory).traced() ==> final(memory).traced(),
            ({
                let m = old(self).mode_sriy(final(memory).bus_events(), old(memory).bus_events().len() as int);
                &&& r.val() == m.addr
                &&& *final(self) == m.after
                &&& final(memory).bus_events() == old(memory).bus_events() + m.events
            }),
    {
        let addr = self.sr(memory);
        let addr = read_u16(memory, addr);
        memory.io();
        let y = self.y();
        let r = u24::from(self.dbr, addr).wrapping_add(y as u32);
        assert(final(memory).bus_events() =~= old(memory).bus_events() + old(self).mode_sriy(final(memory).bus_events(), old(memory).bus_events().len() as int).events);
        r
    }
}

} // verus!
