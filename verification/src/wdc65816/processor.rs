use vstd::prelude::*;

use crate::bus_event::{BusEvent, event_value, value_at, extends_by};
use crate::wdc65816::status_register::{StatusRegister, flag_bit, bit_of};
use crate::wdc65816::u24::u24;
use crate::text::{flag_text, hex, push_flag, push_hex, push_hex_spaced, push_str, spaced};

verus! {

/// The memory (and everything else) behind the 65816's address bus.
///
/// `bus_events` is the log of bus cycles performed on this memory so far; each
/// method appends the cycle it performs, keeps `origin`, and keeps a state that
/// is `traced` traced. Implementations are free in what a read returns and what a
/// write changes; an implementation that states its own effect of each access ties
/// the state reached by a run of accesses to the log through `traced`.
pub trait HasAddressBus: Sized {
    spec fn bus_events(&self) -> Seq<BusEvent>;

    /// The state from which the accesses are traced (see `traced`); no access
    /// changes it.
    spec fn origin(&self) -> Self;

    /// Whether the state follows from `origin` through the accesses logged since it.
    spec fn traced(&self) -> bool;

    /// Read a single byte from memory
    fn read(&mut self, address: usize) -> (value: u8)
        ensures
            final(self).bus_events() == old(self).bus_events().push(
                BusEvent::Read { address, value },
            ),
            final(self).origin() == old(self).origin(),
            old(self).traced() ==> final(self).traced(),
    ;

    /// Write a single byte to memory
    fn write(&mut self, address: usize, value: u8)
        ensures
            final(self).bus_events() == old(self).bus_events().push(
                BusEvent::Write { address, value },
            ),
            final(self).origin() == old(self).origin(),
            old(self).traced() ==> final(self).traced(),
    ;

    /// "Handle" an IO cycle
    fn io(&mut self)
        ensures
            final(self).bus_events() == old(self).bus_events().push(BusEvent::Io),
            final(self).origin() == old(self).origin(),
            old(self).traced() ==> final(self).traced(),
    ;
}

/// `x` reduced to a byte.
pub open spec fn wrap8(x: int) -> u8 {
    (x % 0x100) as u8
}

/// `x` reduced to 16 bits.
pub open spec fn wrap16(x: int) -> u16 {
    (x % 0x10000) as u16
}

/// `x` reduced to 24 bits.
pub open spec fn wrap24(x: int) -> int {
    x % 0x1000000
}

/// The 16-bit number with the given low and high bytes.
pub open spec fn word(low: u8, high: u8) -> u16 {
    (low as int + 0x100 * high as int) as u16
}

/// The N and Z flags for an 8-bit result.
pub open spec fn nz8(p: StatusRegister, v: u8) -> StatusRegister {
    StatusRegister { n: v >= 0x80, z: v == 0, ..p }
}

/// The N and Z flags for a 16-bit result given as two bytes.
pub open spec fn nz16(p: StatusRegister, low: u8, high: u8) -> StatusRegister {
    StatusRegister { n: high >= 0x80, z: low == 0 && high == 0, ..p }
}

/// The 65816 registers.
#[derive(Clone, Copy)]
pub struct Processor {
    /// Program Counter
    pub pc: u16,
    /// Program Bank Register
    pub pbr: u8,
    /// Lower byte of the accumulator
    pub a: u8,
    /// Upper byte of the accumulator
    pub b: u8,
    /// X Register low
    pub xl: u8,
    /// X Register high
    pub xh: u8,
    /// Y Register low
    pub yl: u8,
    /// Y Register high
    pub yh: u8,
    /// Status Register
    pub p: StatusRegister,
    /// Direct Register low
    pub dl: u8,
    /// Direct Register high
    pub dh: u8,
    /// Data Bank Register
    pub dbr: u8,
    /// Stack Pointer
    pub s: u16,
}

/// Read one byte at a 24-bit address.
pub fn read_u8<M: HasAddressBus>(memory: &mut M, addr: u24) -> (r: u8)
    ensures
        final(memory).origin() == old(memory).origin(),
        old(memory).traced() ==> final(memory).traced(),
        final(memory).bus_events() == old(memory).bus_events().push(
            BusEvent::Read { address: addr.val() as usize, value: r },
        ),
{
    memory.read(addr.value() as usize)
}

/// Read a little-endian word at a 24-bit address; the high byte comes from the next
/// address, wrapping around the 24-bit range.
pub fn read_u16<M: HasAddressBus>(memory: &mut M, addr: u24) -> (r: u16)
    ensures
        final(memory).origin() == old(memory).origin(),
        old(memory).traced() ==> final(memory).traced(),
        final(memory).bus_events() == old(memory).bus_events() + seq![
            BusEvent::Read { address: addr.val() as usize, value: wrap8(r as int) },
            BusEvent::Read { address: wrap24(addr.val() + 1) as usize, value: (r / 0x100) as u8 },
        ],
{
    let low = read_u8(memory, addr);
    let high = read_u8(memory, addr.wrapping_add(1u32));
    let r = (low as u16) + 0x100 * (high as u16);
    assert(final(memory).bus_events() =~= old(memory).bus_events() + seq![
        BusEvent::Read { address: addr.val() as usize, value: wrap8(r as int) },
        BusEvent::Read { address: wrap24(addr.val() + 1) as usize, value: (r / 0x100) as u8 },
    ]);
    r
}

/// Read a 24-bit little-endian value: the low word, then the bank byte two bytes on.
#[verifier::rlimit(100)]
pub fn read_u24<M: HasAddressBus>(memory: &mut M, addr: u24) -> (r: u24)
    ensures
        final(memory).origin() == old(memory).origin(),
        old(memory).traced() ==> final(memory).traced(),
        r.val() < 0x1000000,
        final(memory).bus_events() == old(memory).bus_events() + seq![
            BusEvent::Read { address: addr.val() as usize, value: wrap8(r.val()) },
            BusEvent::Read {
                address: wrap24(addr.val() + 1) as usize,
                value: wrap8(r.val() / 0x100),
            },
            BusEvent::Read { address: wrap24(addr.val() + 2) as usize, value: (r.val() / 0x10000) as u8 },
        ],
{
    let low = read_u16(memory, addr);
    let high = read_u8(memory, addr.wrapping_add(2u32));
    let r = u24::from(high, low);
    assert(final(memory).bus_events() =~= old(memory).bus_events() + seq![
        BusEvent::Read { address: addr.val() as usize, value: wrap8(r.val()) },
        BusEvent::Read { address: wrap24(addr.val() + 1) as usize, value: wrap8(r.val() / 0x100) },
        BusEvent::Read { address: wrap24(addr.val() + 2) as usize, value: (r.val() / 0x10000) as u8 },
    ]);
    r
}

/// Decrement a 16-bit number given as two little-endian bytes.
pub fn dec_16(low: u8, high: u8) -> (r: [u8; 2])
    ensures
        word(r[0], r[1]) == wrap16(word(low, high) - 1),
{
    if low == 0 {
        [0xFF, high.wrapping_sub(1)]
    } else {
        [low - 1, high]
    }
}

/// Increment a 16-bit number given as two little-endian bytes.
pub fn inc_16(low: u8, high: u8) -> (r: [u8; 2])
    ensures
        word(r[0], r[1]) == wrap16(word(low, high) + 1),
{
    if low == 0xFF {
        [0, high.wrapping_add(1)]
    } else {
        [low + 1, high]
    }
}

impl Processor {
    /// The registers after power-on.
    pub open spec fn default_spec() -> Processor {
        Processor {
            pc: 0,
            pbr: 0,
            a: 0,
            b: 0,
            xl: 0,
            xh: 0,
            yl: 0,
            yh: 0,
            p: StatusRegister::default_spec(),
            dl: 0,
            dh: 0,
            dbr: 0,
            s: 0x01FF,
        }
    }

    pub fn default() -> (r: Processor)
        ensures
            r == Self::default_spec(),
    {
        Processor {
            pc: 0,
            pbr: 0,
            a: 0,
            b: 0,
            xl: 0,
            xh: 0,
            yl: 0,
            yh: 0,
            p: StatusRegister::default(),
            dl: 0,
            dh: 0,
            dbr: 0,
            s: 0x01FF,
        }
    }

    pub fn new() -> (r: Processor)
        ensures
            r == Self::default_spec(),
    {
        Processor::default()
    }

    /// The full 16-bit accumulator.
    pub open spec fn c_true_spec(self) -> u16 {
        word(self.a, self.b)
    }

    /// The accumulator at its current width.
    pub open spec fn c_spec(self) -> u16 {
        if self.p.a_8bit() { self.a as u16 } else { self.c_true_spec() }
    }

    /// The X register at its current width.
    pub open spec fn x_spec(self) -> u16 {
        if self.p.xy_8bit() { self.xl as u16 } else { word(self.xl, self.xh) }
    }

    /// The Y register at its current width.
    pub open spec fn y_spec(self) -> u16 {
        if self.p.xy_8bit() { self.yl as u16 } else { word(self.yl, self.yh) }
    }

    /// The direct page register.
    pub open spec fn dr_spec(self) -> u16 {
        word(self.dl, self.dh)
    }

    /// The 24-bit address of the program counter.
    pub open spec fn pc_addr(self) -> nat {
        self.pbr as nat * 0x10000 + self.pc as nat
    }

    /// The program counter moved on by `n` bytes within its bank.
    pub open spec fn pc_plus(self, n: int) -> u16 {
        wrap16(self.pc + n)
    }

    /// The accumulator, taking the M flag and emulation mode into account.
    pub fn c(&self) -> (r: u16)
        ensures
            r == self.c_spec(),
    {
        if self.p.a_is_16bit() {
            self.c_true()
        } else {
            self.a as u16
        }
    }

    /// The "true" value of the C register, i.e. including the high byte regardless of
    /// the value of the m bit.
    pub fn c_true(&self) -> (r: u16)
        ensures
            r == self.c_true_spec(),
    {
        self.b as u16 * 0x100 + self.a as u16
    }

    /// Get the X register as a u16
    /// If the X register is 8-bit, only the bottom 8-bits will be used
    pub fn x(&self) -> (r: u16)
        ensures
            r == self.x_spec(),
    {
        if self.p.xy_is_16bit() {
            self.xh as u16 * 0x100 + self.xl as u16
        } else {
            self.xl as u16
        }
    }

    /// Get the Y register as a u16
    /// If the Y register is 8-bit, only the bottom 8-bits will be used
    pub fn y(&self) -> (r: u16)
        ensures
            r == self.y_spec(),
    {
        if self.p.xy_is_16bit() {
            self.yh as u16 * 0x100 + self.yl as u16
        } else {
            self.yl as u16
        }
    }

    /// D Register
    pub fn dr(&self) -> (r: u16)
        ensures
            r == self.dr_spec(),
    {
        self.dh as u16 * 0x100 + self.dl as u16
    }

    /// The registers after the width flags take effect: 8-bit index registers lose
    /// their high bytes, and emulation mode keeps the stack in page 1.
    pub open spec fn forced(self) -> Processor {
        let xy = if self.p.xy_8bit() {
            Processor { xh: 0, yh: 0, ..self }
        } else {
            self
        };
        if self.p.e {
            Processor { s: (0x100 + self.s % 0x100) as u16, ..xy }
        } else {
            xy
        }
    }

    /// Force the XH and YH registers to 0x00 if the status register's xb flags are set
    pub fn force_registers(&mut self)
        ensures
            *final(self) == old(self).forced(),
    {
        if self.p.xy_is_8bit() {
            self.xh = 0;
            self.yh = 0;
        }
        if self.p.e {
            self.s = 0x100 + (self.s % 0x100);
        }
    }
}

impl Processor {
    /// `pre` followed by the registers as text:
    /// `PBR=00 PC=8000 C=0000 X=0000 Y=0000 P=34 P.e=1 D=0000 DBR=0 S=1FF`, where the
    /// program counter and the stack pointer are right-aligned with spaces.
    pub open spec fn text_after(self, pre: Seq<char>) -> Seq<char> {
        pre + "PBR="@ + hex(self.pbr as nat, 2) + " PC="@ + spaced(hex(self.pc as nat, 0), 4) + " C="@ + hex(
            self.c_spec() as nat,
            4,
        ) + " X="@ + hex(self.x_spec() as nat, 4) + " Y="@ + hex(self.y_spec() as nat, 4) + " P="@ + hex(
            self.p.byte_spec(false) as nat,
            2,
        ) + " P.e="@ + flag_text(self.p.e) + " D="@ + hex(self.dl as nat, 2) + hex(self.dh as nat, 2) + " DBR="@
            + hex(self.dbr as nat, 0) + " S="@ + spaced(hex(self.s as nat, 0), 2)
    }

    /// The registers as text, for debugging.
    pub fn to_debug_string(&self) -> (r: String)
        ensures
            r@ == self.text_after(Seq::empty()),
    {
        proof {
            assert("PBR=".is_ascii()) by { reveal_strlit("PBR="); }
            assert(" PC=".is_ascii()) by { reveal_strlit(" PC="); }
            assert(" C=".is_ascii()) by { reveal_strlit(" C="); }
            assert(" X=".is_ascii()) by { reveal_strlit(" X="); }
            assert(" Y=".is_ascii()) by { reveal_strlit(" Y="); }
            assert(" P=".is_ascii()) by { reveal_strlit(" P="); }
            assert(" P.e=".is_ascii()) by { reveal_strlit(" P.e="); }
            assert(" D=".is_ascii()) by { reveal_strlit(" D="); }
            assert(" DBR=".is_ascii()) by { reveal_strlit(" DBR="); }
            assert(" S=".is_ascii()) by { reveal_strlit(" S="); }
        }
        let mut s = String::new();
        push_str(&mut s, "PBR=");
        push_hex(&mut s, self.pbr as u32, 2);
        push_str(&mut s, " PC=");
        push_hex_spaced(&mut s, self.pc as u32, 4);
        push_str(&mut s, " C=");
        push_hex(&mut s, self.c() as u32, 4);
        push_str(&mut s, " X=");
        push_hex(&mut s, self.x() as u32, 4);
        push_str(&mut s, " Y=");
        push_hex(&mut s, self.y() as u32, 4);
        push_str(&mut s, " P=");
        push_hex(&mut s, self.p.to_byte(false) as u32, 2);
        push_str(&mut s, " P.e=");
        push_flag(&mut s, self.p.e);
        push_str(&mut s, " D=");
        push_hex(&mut s, self.dl as u32, 2);
        push_hex(&mut s, self.dh as u32, 2);
        push_str(&mut s, " DBR=");
        push_hex(&mut s, self.dbr as u32, 0);
        push_str(&mut s, " S=");
        push_hex_spaced(&mut s, self.s as u32, 2);
        s
    }
}

} // verus!
