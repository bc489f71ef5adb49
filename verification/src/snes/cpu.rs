use vstd::prelude::*;

use crate::bus_event::value_at;
use crate::snes::console::{advanced, bus_write, lemma_traced_from, traced_from, ExternalArchitecture};
use crate::snes::dma::{pattern, Channel};
use crate::wdc65816::modes::rd;
use crate::wdc65816::processor::{word, HasAddressBus, Processor};
use crate::wdc65816::status_register::StatusRegister;
use crate::wdc65816::step::decode;

verus! {

/// The first channel from `from` on that is transferring (and has HDMA enabled, when
/// `hdma_only`).
pub open spec fn first_transfer(chans: Seq<Channel>, hdma_only: bool, from: int) -> Option<int>
    decreases chans.len() - from,
{
    if from < 0 || from >= chans.len() {
        None
    } else if chans[from].is_executing && (!hdma_only || chans[from].hdma_enable) {
        Some(from)
    } else {
        first_transfer(chans, hdma_only, from + 1)
    }
}

/// The channel that moves the next byte: the first HDMA transfer, else the first
/// transfer.
pub open spec fn chosen_transfer(chans: Seq<Channel>) -> Option<int> {
    match first_transfer(chans, true, 0) {
        Some(i) => Some(i),
        None => first_transfer(chans, false, 0),
    }
}

/// The bus address a channel moves its next byte to (or from): the destination
/// register plus the offset that the transfer pattern gives for the byte.
pub open spec fn transfer_dest(d: Channel) -> int {
    let p = pattern(d.transfer_pattern_index as int);
    d.dest_addr + p[d.num_bytes_transferred as int % p.len() as int]
}

/// Where a channel reads its next byte: the source, or the destination when the
/// direction is set.
pub open spec fn transfer_from(d: Channel) -> int {
    if d.direction { transfer_dest(d) } else { d.full_src_addr_spec() }
}

/// Where a channel writes its next byte.
pub open spec fn transfer_to(d: Channel) -> int {
    if d.direction { d.full_src_addr_spec() } else { transfer_dest(d) }
}

/// A channel after it moved one byte: the source moves on, the count goes up (wrapping),
/// and the transfer ends, with the byte counter cleared, when the count reaches the
/// number of bytes.
pub open spec fn byte_moved(d: Channel) -> Channel {
    let e = d.src_moved();
    let n = ((e.num_bytes_transferred + 1) % 0x10000) as u16;
    if n == e.num_bytes() {
        Channel { num_bytes_transferred: n, is_executing: false, byte_counter: 0, ..e }
    } else {
        Channel { num_bytes_transferred: n, ..e }
    }
}

/// Whether the dot is in the window of the line where the processor pauses.
pub open spec fn in_pause(m: ExternalArchitecture) -> bool {
    134 < m.ppu.dot_xy_spec().0 < 144
}

/// What one DMA byte does to the console: the byte is read (without side effects) at
/// the source (or the destination when the direction is set) and written at the other
/// end; eight master clocks pass and the channel moves on.
pub open spec fn dma_byte_effect(old: ExternalArchitecture, new: ExternalArchitecture, i: int) -> bool {
    let d = old.dma_channels@[i];
    let src = d.full_src_addr_spec();
    let dest = transfer_dest(d);
    let from = transfer_from(d);
    let to = transfer_to(d);
    let v = old.read_spec(from as usize).0;
    exists|m: ExternalArchitecture|
        #[trigger] bus_write(old, m, to as usize, v) && new == (ExternalArchitecture {
            dma_channels: new.dma_channels,
            ..advanced(m, 8)
        }) && new.dma_channels@ == m.dma_channels@.update(i, byte_moved(d))
}

/// Copy the byte at `from` (read without side effects) to `to`.
fn copy_byte(memory: &mut ExternalArchitecture, from: usize, to: usize)
    requires
        old(memory).wf(),
    ensures
        bus_write(*old(memory), *final(memory), to, old(memory).read_spec(from).0),
        final(memory).events == old(memory).events,
        final(memory).wf(),
{
    let v = memory.read_byte(from).0;
    memory.write_byte(to, v);
}

/// The address a channel moves its next byte to (or from).
fn transfer_dest_of(d: &Channel) -> (r: usize)
    requires
        d.transfer_pattern_index < 8,
        d.dest_addr <= 0x21FF,
    ensures
        r == transfer_dest(*d),
{
    let pat = d.transfer_pattern();
    d.dest_addr + pat[d.num_bytes_transferred as usize % pat.len()] as usize
}

/// A channel after it moved one byte.
fn moved_channel(d: Channel) -> (r: Channel)
    requires
        d.transfer_pattern_index < 8,
    ensures
        r == byte_moved(d),
{
    let mut d = d;
    // Increment source address
    d.inc_src_addr();
    // Count the byte
    d.num_bytes_transferred = d.num_bytes_transferred.wrapping_add(1);
    if d.num_bytes_transferred == d.get_num_bytes() {
        d.is_executing = false;
        d.byte_counter = 0;
    }
    d
}

/// The CPU: the 65816 core, which waits while DMA transfers run.
pub struct Cpu {
    pub core: Processor,
}

/// The first transferring channel (with HDMA enabled when `hdma_only`).
fn find_transfer(chans: &Vec<Channel>, hdma_only: bool) -> (r: Option<usize>)
    ensures
        match r {
            Some(i) => first_transfer(chans@, hdma_only, 0) == Some(i as int),
            None => first_transfer(chans@, hdma_only, 0) is None,
        },
{
    let mut i: usize = 0;
    while i < chans.len()
        invariant
            i <= chans@.len(),
            first_transfer(chans@, hdma_only, 0) == first_transfer(chans@, hdma_only, i as int),
        decreases chans@.len() - i,
    {
        if chans[i].is_executing && (!hdma_only || chans[i].hdma_enable) {
            return Some(i);
        }
        i = i + 1;
    }
    None
}

/// What one step of the CPU does, from `(c, m)` to `(c2, m2)`: in the pause window the
/// bus advances 40 master clocks; else, with a transfer chosen, one byte of it moves;
/// else the processor fetches and executes one instruction over the bus, and the bus
/// state reached is the one that the logged accesses, one after the other, lead to
/// (`traced_from`).
pub open spec fn step_effect(c: Cpu, m: ExternalArchitecture, c2: Cpu, m2: ExternalArchitecture) -> bool {
    &&& m.wf() && in_pause(m) ==> m2 == advanced(m, 40) && c2 == c
    &&& m.wf() && !in_pause(m) && chosen_transfer(m.dma_channels@) is Some ==> dma_byte_effect(
        m,
        m2,
        chosen_transfer(m.dma_channels@)->0,
    ) && c2 == c
    &&& !(m.wf() && (in_pause(m) || chosen_transfer(m.dma_channels@) is Some)) ==> ({
        let ev = m2.bus_events();
        let n = m.bus_events().len() as int;
        let o = (Processor { pc: c.core.pc_plus(1), ..c.core }).instr_spec(decode(value_at(ev, n)), ev, n + 1);
        &&& c2.core == o.after
        &&& ev == m.bus_events() + seq![rd(c.core.pc_addr() as int, ev, n)] + o.events
        &&& traced_from(m, m2)
    })
    &&& m.wf() && (in_pause(m) || chosen_transfer(m.dma_channels@) is Some) ==> m2.wf()
}

impl Cpu {
    pub fn default() -> (r: Cpu)
        ensures
            r.core == Processor::default_spec(),
    {
        Cpu { core: Processor::default() }
    }

    /// Move one byte for channel `i`.
    fn transfer_byte(memory: &mut ExternalArchitecture, i: usize)
        requires
            old(memory).wf(),
            i < 8,
        ensures
            dma_byte_effect(*old(memory), *final(memory), i as int),
            final(memory).wf(),
    {
        // Temporarily copy
        let d = memory.dma_channels[i];
        // Get addresses to read to/from
        let src = d.full_src_addr();
        let dest = transfer_dest_of(&d);
        // Transfer
        // Ignore the timing since DMA is always 8 cycles per byte
        let (from, to) = if d.direction { (dest, src) } else { (src, dest) };
        copy_byte(memory, from, to);
        let ghost m = *memory;
        // Advance 8 cycles per byte
        memory.advance(8);
        let moved = moved_channel(d);
        let mut chans: Vec<Channel> = Vec::new();
        std::mem::swap(&mut chans, &mut memory.dma_channels);
        chans.set(i, moved);
        memory.dma_channels = chans;
        assert(memory.dma_channels@ == m.dma_channels@.update(i as int, byte_moved(d)));
        assert(*memory == (ExternalArchitecture { dma_channels: memory.dma_channels, ..advanced(m, 8) }));
        assert(from as int == transfer_from(d));
        assert(to as int == transfer_to(d));
        assert(bus_write(*old(memory), m, transfer_to(d) as usize, old(memory).read_spec(transfer_from(d) as usize).0));
    }

    /// Run one step: pause while the dot is in the processor's pause window, else move
    /// one byte of the chosen DMA transfer, else execute one instruction.
    pub fn step(&mut self, memory: &mut ExternalArchitecture)
        ensures
            step_effect(*old(self), *old(memory), *final(self), *final(memory)),
    {
        if memory.is_valid() {
            let x = memory.ppu.dot_xy().0;
            if x > 134 && x < 144 {
                // Pause for 40 cycles
                memory.advance(40);
                return;
            }
            // Prioritize HDMA
            let current_dma = match find_transfer(&memory.dma_channels, true) {
                Some(i) => Some(i),
                None => find_transfer(&memory.dma_channels, false),
            };
            if let Some(i) = current_dma {
                proof {
                    lemma_first_transfer_in_range(memory.dma_channels@, true, 0);
                    lemma_first_transfer_in_range(memory.dma_channels@, false, 0);
                }
                Self::transfer_byte(memory, i);
                return;
            }
        }
        let ghost m0 = *memory;
        memory.anchor_here();
        self.core.step(memory);
        proof {
            lemma_traced_from(m0, *memory);
        }
    }

    /// Non-maskable interrupt.
    pub fn on_nmi<M: HasAddressBus>(&mut self, memory: &mut M)
        ensures
            final(memory).origin() == old(memory).origin(),
            old(memory).traced() ==> final(memory).traced(),
            ({
                let o = old(self).core.break_spec(0xFFEA, 0xFFFA, true, final(memory).bus_events(), old(memory).bus_events().len() as int);
                &&& final(self).core == o.after
                &&& final(memory).bus_events() == old(memory).bus_events() + o.events
            }),
    {
        self.core.on_nmi(memory);
    }

    /// Interrupt request: taken only when interrupts are not disabled.
    pub fn on_irq<M: HasAddressBus>(&mut self, memory: &mut M)
        ensures
            final(memory).origin() == old(memory).origin(),
            old(memory).traced() ==> final(memory).traced(),
            ({
                let o = old(self).core.break_spec(0xFFEE, 0xFFFE, false, final(memory).bus_events(), old(memory).bus_events().len() as int);
                &&& !old(self).core.p.i ==> final(self).core == o.after
                &&& !old(self).core.p.i ==> final(memory).bus_events() == old(memory).bus_events() + o.events
                &&& old(self).core.p.i ==> *final(self) == *old(self)
                &&& old(self).core.p.i ==> final(memory).bus_events() == old(memory).bus_events()
            }),
    {
        self.core.on_irq(memory);
    }

    /// Reset: emulation mode, bank 0, and the program counter from the reset vector.
    pub fn reset<M: HasAddressBus>(&mut self, memory: &mut M)
        ensures
            final(memory).origin() == old(memory).origin(),
            old(memory).traced() ==> final(memory).traced(),
            ({
                let ev = final(memory).bus_events();
                let n = old(memory).bus_events().len() as int;
                &&& final(self).core == (Processor {
                    p: StatusRegister { e: true, ..old(self).core.p },
                    pbr: 0,
                    pc: word(value_at(ev, n), value_at(ev, n + 1)),
                    dbr: 0,
                    dl: 0,
                    dh: 0,
                    ..old(self).core
                })
                &&& ev == old(memory).bus_events() + seq![rd(0xFFFC, ev, n), rd(0xFFFD, ev, n + 1)]
            }),
    {
        self.core.reset(memory);
    }
}

/// A transfer found is one of the channels.
proof fn lemma_first_transfer_in_range(chans: Seq<Channel>, hdma_only: bool, from: int)
    requires
        from >= 0,
    ensures
        first_transfer(chans, hdma_only, from) matches Some(i) ==> from <= i < chans.len(),
    decreases chans.len() - from,
{
    if from < chans.len() {
        lemma_first_transfer_in_range(chans, hdma_only, from + 1);
    }
}

} // verus!
