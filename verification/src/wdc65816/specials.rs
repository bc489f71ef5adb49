use vstd::prelude::*;

use crate::bus_event::{BusEvent, value_at};
use crate::wdc65816::dispatch::{hi, lemma_word_bytes, lo};
use crate::wdc65816::forms::{sign_extend, wr};
use crate::wdc65816::interrupts::Outcome;
use crate::wdc65816::modes::{io_if, rd};
use crate::wdc65816::processor::{HasAddressBus, Processor, dec_16, inc_16, nz16, nz8, read_u16, read_u8, word, wrap16, wrap24, wrap8};
use crate::wdc65816::stack::{moved_s, pull_events, push_events};
use crate::wdc65816::status_register::StatusRegister;
use crate::wdc65816::u24::u24;

verus! {

/// Where a register transfer writes.
#[derive(Clone, Copy)]
pub enum Dest {
    A,
    X,
    Y,
    D,
}

/// Reads of a little-endian word at `addr` (the second byte one address on, in 24 bits).
pub open spec fn rd16(addr: int, ev: Seq<BusEvent>, k: int) -> Seq<BusEvent> {
    seq![rd(addr, ev, k), rd(wrap24(addr + 1), ev, k + 1)]
}

/// The word formed by the values of log entries `k` and `k + 1`.
pub open spec fn word_at(ev: Seq<BusEvent>, k: int) -> u16 {
    word(value_at(ev, k), value_at(ev, k + 1))
}

impl Processor {
    /// The registers after a transfer of the bytes `l` and `h` into `d`: both bytes
    /// when `wide`, otherwise only the low one; N and Z follow the value moved.
    pub open spec fn transfer_spec(self, l: u8, h: u8, d: Dest, wide: bool) -> Processor {
        self.moved_spec(l, h, d, wide).forced()
    }

    /// The registers after moving the bytes, before the width flags take effect.
    pub open spec fn moved_spec(self, l: u8, h: u8, d: Dest, wide: bool) -> Processor {
        if wide {
            let p = StatusRegister { n: h >= 0x80, z: l == 0 && h == 0, ..self.p };
            match d {
                Dest::A => Processor { a: l, b: h, p, ..self },
                Dest::X => Processor { xl: l, xh: h, p, ..self },
                Dest::Y => Processor { yl: l, yh: h, p, ..self },
                Dest::D => Processor { dl: l, dh: h, p, ..self },
            }
        } else {
            let p = nz8(self.p, l);
            match d {
                Dest::A => Processor { a: l, p, ..self },
                Dest::X => Processor { xl: l, p, ..self },
                Dest::Y => Processor { yl: l, p, ..self },
                Dest::D => Processor { dl: l, p, ..self },
            }
        }
    }

    /// Transfer two bytes into a register (TAX, TAY, TCD, TDC, TSX, TXA, TXY, TYA, TYX).
    pub fn transfer(&mut self, l: u8, h: u8, d: Dest, wide: bool)
        ensures
            *final(self) == old(self).transfer_spec(l, h, d, wide),
    {
        self.move_bytes(l, h, d, wide);
        self.force_registers();
    }

    fn move_bytes(&mut self, l: u8, h: u8, d: Dest, wide: bool)
        ensures
            *final(self) == old(self).moved_spec(l, h, d, wide),
    {
        if wide {
            match d {
                Dest::A => {
                    self.a = l;
                    self.b = h;
                },
                Dest::X => {
                    self.xl = l;
                    self.xh = h;
                },
                Dest::Y => {
                    self.yl = l;
                    self.yh = h;
                },
                Dest::D => {
                    self.dl = l;
                    self.dh = h;
                },
            }
            self.p.n = h > 0x7F;
            self.p.z = l == 0 && h == 0;
        } else {
            match d {
                Dest::A => self.a = l,
                Dest::X => self.xl = l,
                Dest::Y => self.yl = l,
                Dest::D => self.dl = l,
            }
            self.p.n = l > 0x7F;
            self.p.z = l == 0;
        }
    }

    /// TSC: the stack pointer into the full accumulator.
    pub fn tsc(&mut self)
        ensures
            *final(self) == (Processor {
                a: lo(old(self).s as int),
                b: hi(old(self).s as int),
                p: StatusRegister { n: old(self).s >= 0x8000, z: old(self).s == 0, ..old(self).p },
                ..*old(self)
            }).forced(),
    {
        self.a = (self.s % 0x100) as u8;
        self.b = (self.s / 0x100) as u8;
        self.p.n = self.s > 0x7FFF;
        self.p.z = self.s == 0;
        self.force_registers();
    }

    /// TCS and TXS: a register pair into the stack pointer, with no flags set.
    pub fn set_stack(&mut self, l: u8, h: u8)
        ensures
            *final(self) == (Processor { s: word(l, h), ..*old(self) }).forced(),
    {
        self.s = (l as u16) + 0x100 * (h as u16);
        self.force_registers();
    }

    /// XBA: exchange the two halves of the accumulator.
    pub fn xba<M: HasAddressBus>(&mut self, memory: &mut M)
        ensures
            final(memory).origin() == old(memory).origin(),
            old(memory).traced() ==> final(memory).traced(),
            *final(self) == (Processor { a: old(self).b, b: old(self).a, p: nz8(old(self).p, old(self).b), ..*old(self) }),
            final(memory).bus_events() == old(memory).bus_events() + seq![BusEvent::Io, BusEvent::Io],
    {
        let a = self.a;
        self.a = self.b;
        self.b = a;
        self.p.n = self.a > 0x7F;
        self.p.z = self.a == 0;
        memory.io();
        memory.io();
        assert(final(memory).bus_events() =~= old(memory).bus_events() + seq![BusEvent::Io, BusEvent::Io]);
    }

    /// XCE: exchange the carry and emulation flags.
    pub fn xce(&mut self)
        ensures
            *final(self) == (Processor {
                p: StatusRegister { c: old(self).p.e, e: old(self).p.c, ..old(self).p },
                ..*old(self)
            }).forced(),
    {
        let c = self.p.c;
        self.p.c = self.p.e;
        self.p.e = c;
        self.force_registers();
    }

    /// Block moves (MVN with `forward`, MVP without): one byte from the source bank at X
    /// to the destination bank at Y; A counts down, X and Y move on, and the
    /// instruction repeats until A wraps past zero.
    pub open spec fn block_move_spec(self, forward: bool, ev: Seq<BusEvent>, n: int) -> Outcome {
        let dest = value_at(ev, n);
        let src = value_at(ev, n + 1);
        let data = value_at(ev, n + 2);
        let c = wrap16(word(self.a, self.b) - 1);
        let x = if forward { wrap16(word(self.xl, self.xh) + 1) } else { wrap16(word(self.xl, self.xh) - 1) };
        let y = if forward { wrap16(word(self.yl, self.yh) + 1) } else { wrap16(word(self.yl, self.yh) - 1) };
        let done = c == 0xFFFF;
        Outcome {
            after: Processor {
                dbr: dest,
                a: lo(c as int),
                b: hi(c as int),
                xl: lo(x as int),
                xh: hi(x as int),
                yl: lo(y as int),
                yh: hi(y as int),
                pc: if done { self.pc_plus(2) } else { self.pc_plus(-1) },
                ..self
            },
            events: seq![
                rd(self.pc_addr() as int, ev, n),
                rd(self.pbr * 0x10000 + self.pc_plus(1), ev, n + 1),
                rd(src * 0x10000 + self.x_spec(), ev, n + 2),
                wr(dest * 0x10000 + self.y_spec(), data),
                BusEvent::Io,
                BusEvent::Io,
            ],
        }
    }

    #[verifier::rlimit(100)]
    pub fn block_move<M: HasAddressBus>(&mut self, forward: bool, memory: &mut M)
        ensures
            final(memory).origin() == old(memory).origin(),
            old(memory).traced() ==> final(memory).traced(),
            ({
                let o = old(self).block_move_spec(forward, final(memory).bus_events(), old(memory).bus_events().len() as int);
                &&& *final(self) == o.after
                &&& final(memory).bus_events() == old(memory).bus_events() + o.events
            }),
    {
        let dest_bank = read_u8(memory, u24::from(self.pbr, self.pc));
        self.dbr = dest_bank;
        let src_bank = read_u8(memory, u24::from(self.pbr, self.pc.wrapping_add(1)));
        let x = self.x();
        let y = self.y();
        let data = read_u8(memory, u24::from(src_bank, x));
        memory.write(u24::from(dest_bank, y).value() as usize, data);
        let c = dec_16(self.a, self.b);
        self.a = c[0];
        self.b = c[1];
        let nx = if forward { inc_16(self.xl, self.xh) } else { dec_16(self.xl, self.xh) };
        self.xl = nx[0];
        self.xh = nx[1];
        let ny = if forward { inc_16(self.yl, self.yh) } else { dec_16(self.yl, self.yh) };
        self.yl = ny[0];
        self.yh = ny[1];
        memory.io();
        memory.io();
        proof {
            lemma_word_bytes(c[0], c[1]);
            lemma_word_bytes(nx[0], nx[1]);
            lemma_word_bytes(ny[0], ny[1]);
        }
        if self.a == 0xFF && self.b == 0xFF {
            // Go to next instruction
            self.pc = self.pc.wrapping_add(2);
        } else {
            // Loop
            self.pc = self.pc.wrapping_sub(1);
        }
        proof {
            let ev = final(memory).bus_events();
            assert(ev =~= old(memory).bus_events() + old(self).block_move_spec(forward, ev, old(memory).bus_events().len() as int).events);
        }
    }

    /// BRA: always branch by a signed byte.
    pub open spec fn bra_spec(self, ev: Seq<BusEvent>, n: int) -> Outcome {
        let p1 = Processor { pc: self.pc_plus(1), ..self };
        let pc = wrap16(p1.pc + sign_extend(value_at(ev, n)));
        Outcome {
            after: Processor { pc, ..p1 },
            events: seq![rd(self.pc_addr() as int, ev, n), BusEvent::Io] + io_if(self.p.e && pc / 0x100 != p1.pc / 0x100),
        }
    }

    pub fn bra<M: HasAddressBus>(&mut self, memory: &mut M)
        ensures
            final(memory).origin() == old(memory).origin(),
            old(memory).traced() ==> final(memory).traced(),
            ({
                let o = old(self).bra_spec(final(memory).bus_events(), old(memory).bus_events().len() as int);
                &&& *final(self) == o.after
                &&& final(memory).bus_events() == old(memory).bus_events() + o.events
            }),
    {
        let v = read_u8(memory, u24::from(self.pbr, self.pc));
        let offset: u16 = if v < 0x80 { v as u16 } else { v as u16 + 0xFF00 };
        self.pc = self.pc.wrapping_add(1);
        self.branch(memory, offset);
        proof {
            let ev = final(memory).bus_events();
            assert(ev =~= old(memory).bus_events() + old(self).bra_spec(ev, old(memory).bus_events().len() as int).events);
        }
    }

    /// BRL: always branch by a 16-bit offset.
    pub open spec fn brl_spec(self, ev: Seq<BusEvent>, n: int) -> Outcome {
        let p1 = Processor { pc: self.pc_plus(2), ..self };
        let pc = wrap16(p1.pc + word_at(ev, n));
        Outcome {
            after: Processor { pc, ..p1 },
            events: rd16(self.pc_addr() as int, ev, n) + seq![BusEvent::Io] + io_if(self.p.e && pc / 0x100 != p1.pc / 0x100),
        }
    }

    pub fn brl<M: HasAddressBus>(&mut self, memory: &mut M)
        ensures
            final(memory).origin() == old(memory).origin(),
            old(memory).traced() ==> final(memory).traced(),
            ({
                let o = old(self).brl_spec(final(memory).bus_events(), old(memory).bus_events().len() as int);
                &&& *final(self) == o.after
                &&& final(memory).bus_events() == old(memory).bus_events() + o.events
            }),
    {
        let addr = read_u16(memory, u24::from(self.pbr, self.pc));
        self.pc = self.pc.wrapping_add(2);
        self.branch(memory, addr);
        proof {
            let ev = final(memory).bus_events();
            assert(ev =~= old(memory).bus_events() + old(self).brl_spec(ev, old(memory).bus_events().len() as int).events);
        }
    }

    /// The JMP variants: absolute, absolute indirect, absolute indexed indirect,
    /// absolute long and absolute indirect long.
    pub open spec fn jmp_spec(self, kind: u8, ev: Seq<BusEvent>, n: int) -> Outcome {
        let pa = self.pc_addr() as int;
        if kind == 0 {
            Outcome { after: Processor { pc: word_at(ev, n), ..self }, events: rd16(pa, ev, n) }
        } else if kind == 1 {
            Outcome {
                after: Processor { pc: word_at(ev, n + 2), ..self },
                events: rd16(pa, ev, n) + rd16(word_at(ev, n) as int, ev, n + 2),
            }
        } else if kind == 2 {
            let ptr = wrap16(word_at(ev, n) + self.x_spec());
            Outcome {
                after: Processor { pc: word_at(ev, n + 3), ..self },
                events: rd16(pa, ev, n) + seq![BusEvent::Io] + rd16(self.pbr * 0x10000 + ptr, ev, n + 3),
            }
        } else if kind == 3 {
            Outcome {
                after: Processor { pbr: value_at(ev, n), pc: word_at(ev, n + 1), ..self },
                events: seq![rd(self.pbr * 0x10000 + self.pc_plus(2), ev, n)] + rd16(pa, ev, n + 1),
            }
        } else {
            let ptr = word_at(ev, n) as int;
            Outcome {
                after: Processor { pbr: value_at(ev, n + 2), pc: word_at(ev, n + 3), ..self },
                events: rd16(pa, ev, n) + seq![rd(wrap24(ptr + 2), ev, n + 2)] + rd16(ptr, ev, n + 3),
            }
        }
    }

    fn jump_0<M: HasAddressBus>(&mut self, memory: &mut M)
        ensures
            final(memory).origin() == old(memory).origin(),
            old(memory).traced() ==> final(memory).traced(),
            ({
                let o = old(self).jmp_spec(0, final(memory).bus_events(), old(memory).bus_events().len() as int);
                &&& *final(self) == o.after
                &&& final(memory).bus_events() == old(memory).bus_events() + o.events
            }),
    {
        let addr = read_u16(memory, u24::from(self.pbr, self.pc));
        self.jmp(self.pbr, addr);
        proof {
            let ev = final(memory).bus_events();
            assert(ev =~= old(memory).bus_events() + old(self).jmp_spec(0, ev, old(memory).bus_events().len() as int).events);
        }
    }

    fn jump_1<M: HasAddressBus>(&mut self, memory: &mut M)
        ensures
            final(memory).origin() == old(memory).origin(),
            old(memory).traced() ==> final(memory).traced(),
            ({
                let o = old(self).jmp_spec(1, final(memory).bus_events(), old(memory).bus_events().len() as int);
                &&& *final(self) == o.after
                &&& final(memory).bus_events() == old(memory).bus_events() + o.events
            }),
    {
        let addr = read_u16(memory, u24::from(self.pbr, self.pc));
        let target = read_u16(memory, u24::from(0x00, addr));
        self.jmp(self.pbr, target);
        proof {
            let ev = final(memory).bus_events();
            assert(ev =~= old(memory).bus_events() + old(self).jmp_spec(1, ev, old(memory).bus_events().len() as int).events);
        }
    }

    fn jump_2<M: HasAddressBus>(&mut self, memory: &mut M)
        ensures
            final(memory).origin() == old(memory).origin(),
            old(memory).traced() ==> final(memory).traced(),
            ({
                let o = old(self).jmp_spec(2, final(memory).bus_events(), old(memory).bus_events().len() as int);
                &&& *final(self) == o.after
                &&& final(memory).bus_events() == old(memory).bus_events() + o.events
            }),
    {
        let x = self.x();
        let base = read_u16(memory, u24::from(self.pbr, self.pc));
        let ghost n = old(memory).bus_events().len() as int;
        let ghost mid = memory.bus_events();
        let addr = base.wrapping_add(x);
        memory.io();
        let target = read_u16(memory, u24::from(self.pbr, addr));
        self.jmp(self.pbr, target);
        proof {
            let ev = final(memory).bus_events();
            assert(ev.subrange(0, mid.len() as int) =~= mid);
            assert(value_at(ev, n) == value_at(mid, n));
            assert(value_at(ev, n + 1) == value_at(mid, n + 1));
            assert(word_at(ev, n) == base);
            assert(addr == wrap16(base + old(self).x_spec()));
            assert(ev =~= old(memory).bus_events() + old(self).jmp_spec(2, ev, n).events);
        }
    }

    fn jump_3<M: HasAddressBus>(&mut self, memory: &mut M)
        ensures
            final(memory).origin() == old(memory).origin(),
            old(memory).traced() ==> final(memory).traced(),
            ({
                let o = old(self).jmp_spec(3, final(memory).bus_events(), old(memory).bus_events().len() as int);
                &&& *final(self) == o.after
                &&& final(memory).bus_events() == old(memory).bus_events() + o.events
            }),
    {
        let bank = read_u8(memory, u24::from(self.pbr, self.pc.wrapping_add(2)));
        let addr = read_u16(memory, u24::from(self.pbr, self.pc));
        self.jmp(bank, addr);
        proof {
            let ev = final(memory).bus_events();
            assert(ev =~= old(memory).bus_events() + old(self).jmp_spec(3, ev, old(memory).bus_events().len() as int).events);
        }
    }

    fn jump_4<M: HasAddressBus>(&mut self, memory: &mut M)
        ensures
            final(memory).origin() == old(memory).origin(),
            old(memory).traced() ==> final(memory).traced(),
            ({
                let o = old(self).jmp_spec(4, final(memory).bus_events(), old(memory).bus_events().len() as int);
                &&& *final(self) == o.after
                &&& final(memory).bus_events() == old(memory).bus_events() + o.events
            }),
    {
        let addr = read_u16(memory, u24::from(self.pbr, self.pc));
        let bank = read_u8(memory, u24::from(0x00, addr).wrapping_add(2u32));
        let target = read_u16(memory, u24::from(0x00, addr));
        self.jmp(bank, target);
        proof {
            let ev = final(memory).bus_events();
            assert(ev =~= old(memory).bus_events() + old(self).jmp_spec(4, ev, old(memory).bus_events().len() as int).events);
        }
    }

    /// JMP of the given kind (4 and above: absolute indirect long).
    pub fn jump<M: HasAddressBus>(&mut self, kind: u8, memory: &mut M)
        ensures
            final(memory).origin() == old(memory).origin(),
            old(memory).traced() ==> final(memory).traced(),
            ({
                let o = old(self).jmp_spec(kind, final(memory).bus_events(), old(memory).bus_events().len() as int);
                &&& *final(self) == o.after
                &&& final(memory).bus_events() == old(memory).bus_events() + o.events
            }),
    {
        if kind == 0 {
            self.jump_0(memory)
        } else if kind == 1 {
            self.jump_1(memory)
        } else if kind == 2 {
            self.jump_2(memory)
        } else if kind == 3 {
            self.jump_3(memory)
        } else {
            self.jump_4(memory)
        }
    }
}

} // verus!
