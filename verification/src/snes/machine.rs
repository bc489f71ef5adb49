use vstd::prelude::*;

use crate::snes::cartridge::{detect, pow2_nat, rom_of, sram_size_byte, Cartridge};
use crate::snes::console::{bus_read, lemma_traced_from, traced_from, lemma_read_with, lemma_read_with_frame, read_with, ExternalArchitecture, WRAM_SIZE};
use crate::snes::input_port::InputPort;
use crate::snes::timer::TimerMode;
use crate::bus_event::BusEvent;
use crate::wdc65816::processor::HasAddressBus;
use crate::snes::cpu::{step_effect, Cpu};
use crate::snes::dma::{pattern, Channel};
use crate::snes::ppu::Ppu;
use crate::bus_event::value_at;
use crate::wdc65816::modes::rd;
use crate::wdc65816::processor::{word, wrap16, Processor};
use crate::wdc65816::status_register::StatusRegister;

verus! {

/// A channel at the end of vertical blanking: its line counter is cleared and the
/// table address goes back to the start of the table.
pub open spec fn frame_started(d: Channel) -> Channel {
    Channel { hdma_line_counter: 0, current_hdma_table_addr: d.hdma_table_addr, ..d }
}

/// A channel at the start of vertical blanking: HDMA is disabled.
pub open spec fn hdma_stopped(d: Channel) -> Channel {
    Channel { hdma_enable: false, hdma_line_counter: 0, ..d }
}

/// A channel that read the line counter byte `lc` (not 0) of its next table entry, and
/// the two bytes after it (used by indirect tables): above 0x80 the run repeats its
/// transfer on every line; the data address is set up, the table address moves past
/// the entry, a transfer starts, and the counter counts the current line.
pub open spec fn hdma_entry(d: Channel, lc: u8, low: u8, high: u8) -> Channel {
    let t = d.current_hdma_table_addr;
    Channel {
        hdma_repeat: lc > 0x80,
        hdma_line_counter: ((if lc > 0x80 { lc - 0x80 } else { lc as int }) - 1) as u8,
        is_executing: true,
        num_bytes_transferred: 0,
        indirect_data_addr: if d.indirect { (low as int + 0x100 * high as int) as u16 } else { d.indirect_data_addr },
        src_addr: if d.indirect { d.src_addr } else { wrap16(t + 1) },
        current_hdma_table_addr: if d.indirect {
            wrap16(t + 3)
        } else {
            wrap16(t + 1 + pattern(d.transfer_pattern_index as int).len())
        },
        ..d
    }
}

/// A channel at the start of horizontal blanking, reading its table through `s` with
/// the channels `c`: with HDMA enabled, at the end of a run of lines the next entry is
/// read (a line counter byte of 0 ends the table); otherwise the counter goes down and
/// a repeating run transfers again.
pub open spec fn hdma_line_step(s: ExternalArchitecture, c: Seq<Channel>, d: Channel) -> Channel {
    let t = d.current_hdma_table_addr;
    if !d.hdma_enable {
        d
    } else if d.hdma_line_counter == 0 {
        let lc = read_with(s, c, (d.hdma_table_bank * 0x10000 + t) as usize);
        if lc == 0 {
            Channel { hdma_enable: false, ..d }
        } else {
            hdma_entry(d, lc, read_with(s, c, wrap16(t + 1) as usize), read_with(s, c, wrap16(t + 2) as usize))
        }
    } else if d.hdma_repeat {
        Channel { hdma_line_counter: (d.hdma_line_counter - 1) as u8, is_executing: true, num_bytes_transferred: 0, ..d }
    } else {
        Channel { hdma_line_counter: (d.hdma_line_counter - 1) as u8, ..d }
    }
}

/// The channels after channels `0..k` went through `hdma_line_step` in order, each
/// reading through the console with the channels as the earlier ones left them.
pub open spec fn hdma_channels(s: ExternalArchitecture, k: nat) -> Seq<Channel>
    decreases k,
{
    if k == 0 {
        s.dma_channels@
    } else {
        let c = hdma_channels(s, (k - 1) as nat);
        c.update(k - 1, hdma_line_step(s, c, c[k - 1]))
    }
}

/// A channel after it read a table entry.
fn entry_read(d: Channel, lc: u8, low: u8, high: u8) -> (r: Channel)
    requires
        d.transfer_pattern_index < 8,
        lc != 0,
    ensures
        r == hdma_entry(d, lc, low, high),
{
    let mut d = d;
    // Get line counter
    if lc <= 0x80 {
        d.hdma_repeat = false;
        d.hdma_line_counter = lc;
    } else {
        d.hdma_repeat = true;
        d.hdma_line_counter = lc - 0x80;
    }
    // Copy values
    let table_addr = d.current_hdma_table_addr;
    // Set up DMA values
    if d.indirect {
        d.indirect_data_addr = low as u16 + 0x100 * high as u16;
        d.current_hdma_table_addr = table_addr.wrapping_add(3);
    } else {
        d.src_addr = table_addr.wrapping_add(1);
        d.current_hdma_table_addr = table_addr.wrapping_add(1 + d.pattern_len());
    }
    // Trigger DMA
    d.is_executing = true;
    d.num_bytes_transferred = 0;
    // Since we just went over a scanline here, dec line counter
    d.hdma_line_counter = d.hdma_line_counter - 1;
    d
}

/// A channel within a run of lines.
fn run_continued(d: Channel) -> (r: Channel)
    requires
        d.hdma_line_counter != 0,
    ensures
        r == (if d.hdma_repeat {
            Channel { hdma_line_counter: (d.hdma_line_counter - 1) as u8, is_executing: true, num_bytes_transferred: 0, ..d }
        } else {
            Channel { hdma_line_counter: (d.hdma_line_counter - 1) as u8, ..d }
        }),
{
    let mut d = d;
    d.hdma_line_counter = d.hdma_line_counter - 1;
    if d.hdma_repeat {
        d.is_executing = true;
        d.num_bytes_transferred = 0;
    }
    d
}

impl ExternalArchitecture {
    /// A byte of an HDMA table.
    fn read_table(&self, addr: usize) -> (r: u8)
        requires
            self.wf(),
        ensures
            r == read_with(*self, self.dma_channels@, addr),
    {
        proof {
            lemma_read_with(*self, *self, addr);
        }
        self.read_byte(addr).0
    }

    /// One channel at the start of horizontal blanking.
    fn hdma_channel_line(&self, d: Channel) -> (r: Channel)
        requires
            self.wf(),
            d.transfer_pattern_index < 8,
        ensures
            r == hdma_line_step(*self, self.dma_channels@, d),
    {
        if !d.hdma_enable {
            return d;
        }
        if d.hdma_line_counter != 0 {
            return run_continued(d);
        }
        // Read next byte
        let lc = self.read_table(d.hdma_table_bank as usize * 0x10000 + d.current_hdma_table_addr as usize);
        if lc == 0 {
            let mut e = d;
            e.hdma_enable = false;
            return e;
        }
        let table_addr = d.current_hdma_table_addr;
        let low = self.read_table(table_addr.wrapping_add(1) as usize);
        let high = self.read_table(table_addr.wrapping_add(2) as usize);
        entry_read(d, lc, low, high)
    }

    /// The start of horizontal blanking: each channel in turn runs its HDMA table.
    #[verifier::spinoff_prover]
    pub fn run_hdma_line(&mut self)
        requires
            old(self).wf(),
        ensures
            final(self).dma_channels@ == hdma_channels(*old(self), 8),
            *final(self) == (ExternalArchitecture { dma_channels: final(self).dma_channels, ..*old(self) }),
            final(self).wf(),
    {
        let mut i: usize = 0;
        while i < 8
            invariant
                i <= 8,
                self.wf(),
                self.dma_channels@ == hdma_channels(*old(self), i as nat),
                *self == (ExternalArchitecture { dma_channels: self.dma_channels, ..*old(self) }),
            decreases 8 - i,
        {
            let d = self.dma_channels[i];
            let e = self.hdma_channel_line(d);
            proof {
                let c = self.dma_channels@;
                let t = d.current_hdma_table_addr;
                lemma_read_with_frame(*old(self), *self, c, (d.hdma_table_bank * 0x10000 + t) as usize);
                lemma_read_with_frame(*old(self), *self, c, wrap16(t + 1) as usize);
                lemma_read_with_frame(*old(self), *self, c, wrap16(t + 2) as usize);
                assert(e == hdma_line_step(*old(self), c, c[i as int]));
            }
            let mut chans: Vec<Channel> = Vec::new();
            std::mem::swap(&mut chans, &mut self.dma_channels);
            chans.set(i, e);
            self.dma_channels = chans;
            i = i + 1;
        }
    }

    /// The start of vertical blanking: HDMA is disabled on every channel.
    pub fn stop_hdma(&mut self)
        requires
            old(self).wf(),
        ensures
            final(self).dma_channels@ == old(self).dma_channels@.map_values(|d: Channel| hdma_stopped(d)),
            *final(self) == (ExternalArchitecture { dma_channels: final(self).dma_channels, ..*old(self) }),
            final(self).wf(),
    {
        let mut chans: Vec<Channel> = Vec::new();
        std::mem::swap(&mut chans, &mut self.dma_channels);
        let mut i: usize = 0;
        while i < 8
            invariant
                i <= 8,
                chans@.len() == 8,
                old(self).dma_channels@.len() == 8,
                forall|j: int|
                    0 <= j < 8 ==> #[trigger] chans@[j] == if j < i {
                        hdma_stopped(old(self).dma_channels@[j])
                    } else {
                        old(self).dma_channels@[j]
                    },
            decreases 8 - i,
        {
            let mut d = chans[i];
            d.hdma_enable = false;
            d.hdma_line_counter = 0;
            chans.set(i, d);
            i = i + 1;
        }
        assert(chans@ =~= old(self).dma_channels@.map_values(|d: Channel| hdma_stopped(d)));
        self.dma_channels = chans;
    }

    /// The end of vertical blanking: the timer may fire again, and every channel goes
    /// back to the start of its table.
    pub fn start_hdma_frame(&mut self)
        requires
            old(self).wf(),
        ensures
            final(self).dma_channels@ == old(self).dma_channels@.map_values(|d: Channel| frame_started(d)),
            *final(self) == (ExternalArchitecture {
                dma_channels: final(self).dma_channels,
                triggered_irq_this_frame: false,
                ..*old(self)
            }),
            final(self).wf(),
    {
        let mut chans: Vec<Channel> = Vec::new();
        std::mem::swap(&mut chans, &mut self.dma_channels);
        let mut i: usize = 0;
        while i < 8
            invariant
                i <= 8,
                chans@.len() == 8,
                old(self).dma_channels@.len() == 8,
                forall|j: int|
                    0 <= j < 8 ==> #[trigger] chans@[j] == if j < i {
                        frame_started(old(self).dma_channels@[j])
                    } else {
                        old(self).dma_channels@[j]
                    },
            decreases 8 - i,
        {
            let mut d = chans[i];
            // Set line counter to 0 (will trigger an HDMA at scanline 0 if the channel is enabled)
            d.hdma_line_counter = 0;
            // Copy table address
            d.current_hdma_table_addr = d.hdma_table_addr;
            chans.set(i, d);
            i = i + 1;
        }
        assert(chans@ =~= old(self).dma_channels@.map_values(|d: Channel| frame_started(d)));
        self.dma_channels = chans;
        self.triggered_irq_this_frame = false;
    }

    /// Whether the IRQ timer fires now: it has not fired this frame, and the dot is at
    /// or past the horizontal and/or vertical target that the timer mode uses.
    pub fn timer_irq_due(&self) -> (r: bool)
        ensures
            r == (!self.triggered_irq_this_frame && self.timer_mode.triggers_spec(
                self.ppu.dot_xy_spec().0 >= self.h_timer,
                self.ppu.dot_xy_spec().1 >= self.v_timer,
            )),
    {
        if self.triggered_irq_this_frame {
            return false;
        }
        let h = self.ppu.cursor_x() >= self.h_timer as usize;
        let v = self.ppu.cursor_y() >= self.v_timer as usize;
        self.timer_mode.triggers(h, v)
    }
}

/// Whether the IRQ timer fires in state `s`: it has not fired this frame, and the dot
/// is at or past the targets that the timer mode uses.
pub open spec fn irq_due(s: ExternalArchitecture) -> bool {
    !s.triggered_irq_this_frame && s.timer_mode.triggers_spec(
        s.ppu.dot_xy_spec().0 >= s.h_timer,
        s.ppu.dot_xy_spec().1 >= s.v_timer,
    )
}

/// Whether `s` is `old` with the DMA channels `c` and the timer's frame flag `fired`.
pub open spec fn with_channels(s: ExternalArchitecture, old: ExternalArchitecture, c: Seq<Channel>, fired: bool) -> bool {
    &&& s.dma_channels@ == c
    &&& s == (ExternalArchitecture { dma_channels: s.dma_channels, triggered_irq_this_frame: fired, ..old })
}

/// An interrupt entry through the vectors `addr_n` (native) and `addr_e` (emulation)
/// that takes `c` to `k`: the processor does what `break_spec` says, and the bus follows
/// through the accesses it makes.
pub open spec fn interrupt_entered(c: Console, k: Console, addr_n: u16, addr_e: u16, nmi: bool) -> bool {
    let ev = k.rest.events@;
    let n = c.rest.events@.len() as int;
    let o = c.cpu.core.break_spec(addr_n, addr_e, nmi, ev, n);
    &&& k.cpu.core == o.after
    &&& ev == c.rest.events@ + o.events
    &&& traced_from(c.rest, k.rest)
}

/// The NMI entry, when NMIs are enabled.
pub open spec fn nmi_entry(c: Console, k: Console) -> bool {
    if c.rest.nmi_enabled {
        interrupt_entered(c, k, 0xFFEA, 0xFFFA, true)
    } else {
        k == c
    }
}

/// The start of vertical blanking (the dot was not in it before the step, `vblank`,
/// and is now): the NMI is entered when enabled, then HDMA stops on every channel.
pub open spec fn vblank_phase(c: Console, m: Console, vblank: bool) -> bool {
    if !vblank && c.rest.ppu.is_in_vblank_spec() {
        exists|k: Console|
            #[trigger] nmi_entry(c, k) && if k.rest.wf() {
                &&& m.cpu == k.cpu
                &&& with_channels(
                    m.rest,
                    k.rest,
                    k.rest.dma_channels@.map_values(|d: Channel| hdma_stopped(d)),
                    k.rest.triggered_irq_this_frame,
                )
            } else {
                m == k
            }
    } else {
        m == c
    }
}

/// The IRQ entry: taken only when interrupts are not disabled.
pub open spec fn irq_entry(c: Console, k: Console) -> bool {
    if !c.cpu.core.p.i {
        interrupt_entered(c, k, 0xFFEE, 0xFFFE, false)
    } else {
        k.cpu == c.cpu && k.rest.events == c.rest.events && traced_from(c.rest, k.rest)
    }
}

/// The IRQ timer, when it is due: the IRQ is entered, and the timer is marked as
/// fired for the frame, with its flag set.
pub open spec fn irq_phase(c: Console, m: Console) -> bool {
    if c.rest.wf() && irq_due(c.rest) {
        exists|k: Console|
            #[trigger] irq_entry(c, k) && m.cpu == k.cpu && m.rest == (ExternalArchitecture {
                triggered_irq_this_frame: true,
                timer_flag: true,
                ..k.rest
            })
    } else {
        m == c
    }
}

/// The end of vertical blanking: every channel goes back to the start of its table,
/// and the timer may fire again.
pub open spec fn frame_phase(c: Console, m: Console, vblank: bool) -> bool {
    if c.rest.wf() && vblank && !c.rest.ppu.is_in_vblank_spec() {
        m.cpu == c.cpu && with_channels(m.rest, c.rest, c.rest.dma_channels@.map_values(|d: Channel| frame_started(d)), false)
    } else {
        m == c
    }
}

/// The start of horizontal blanking (the dot was in neither blanking before the step):
/// every channel runs its HDMA table.
pub open spec fn line_phase(c: Console, m: Console, vblank: bool, hblank: bool) -> bool {
    if c.rest.wf() && !vblank && !hblank && c.rest.ppu.is_in_hblank_spec() {
        m.cpu == c.cpu && with_channels(m.rest, c.rest, hdma_channels(c.rest, 8), c.rest.triggered_irq_this_frame)
    } else {
        m == c
    }
}

/// The four parts of what follows a CPU step, through `m1`, `m2` and `m3`.
pub open spec fn after_step_parts(c: Console, m1: Console, m2: Console, m3: Console, c2: Console, vblank: bool, hblank: bool) -> bool {
    &&& vblank_phase(c, m1, vblank)
    &&& irq_phase(m1, m2)
    &&& frame_phase(m2, m3, vblank)
    &&& line_phase(m3, c2, vblank, hblank)
}

/// What follows a CPU step, from `c` to `c2`, given whether the dot was in vertical and
/// horizontal blanking before the step: nothing on an invalid bus; else the start of
/// vertical blanking (NMI, HDMA stopped), the IRQ timer, the end of vertical blanking
/// (tables restarted) and the start of horizontal blanking (tables run), in turn.
pub open spec fn after_step_effect(c: Console, c2: Console, vblank: bool, hblank: bool) -> bool {
    if !c.rest.wf() {
        c2 == c
    } else {
        exists|m1: Console, m2: Console, m3: Console| #[trigger] after_step_parts(c, m1, m2, m3, c2, vblank, hblank)
    }
}

/// Whether `c` steps to `mid` with the CPU and the step's aftermath takes `mid` to `c2`.
pub open spec fn instruction_through(c: Console, mid: Console, c2: Console) -> bool {
    let vblank = c.rest.ppu.is_in_vblank_spec();
    &&& step_effect(c.cpu, c.rest, mid.cpu, mid.rest)
    &&& after_step_effect(mid, c2, vblank, c.rest.ppu.is_in_hblank_spec() && !vblank)
}

/// One instruction (or DMA byte, or pause) and what follows it take `c` to `c2`.
pub open spec fn instruction_effect(c: Console, c2: Console) -> bool {
    exists|mid: Console| #[trigger] instruction_through(c, mid, c2)
}

/// Whether `t` is a run of instructions: each console in it follows the one before by
/// one instruction.
pub open spec fn is_run(t: Seq<Console>) -> bool {
    forall|i: int| 0 <= i < t.len() - 1 ==> instruction_effect(#[trigger] t[i], t[i + 1])
}

/// `n` instructions take `c` to `c2`: a run of `n + 1` consoles leads from one to the
/// other.
pub open spec fn instructions_effect(c: Console, c2: Console, n: nat) -> bool {
    exists|t: Seq<Console>| #[trigger] is_run(t) && t.len() == n + 1 && t[0] == c && t[n as int] == c2
}

/// `n` instructions are `n - 1` instructions and one more.
proof fn lemma_one_more_instruction(c: Console, mid: Console, c2: Console, n: nat)
    requires
        n > 0,
        instructions_effect(c, mid, (n - 1) as nat),
        instruction_effect(mid, c2),
    ensures
        instructions_effect(c, c2, n),
{
    let t = choose|t: Seq<Console>| #[trigger] is_run(t) && t.len() == n && t[0] == c && t[n - 1] == mid;
    let t2 = t.push(c2);
    assert forall|i: int| 0 <= i < t2.len() - 1 implies instruction_effect(#[trigger] t2[i], t2[i + 1]) by {
        if i < n - 1 {
            assert(t2[i] == t[i] && t2[i + 1] == t[i + 1]);
        }
    }
    assert(is_run(t2));
}

/// No instructions leave the console as it is.
proof fn lemma_no_instructions(c: Console)
    ensures
        instructions_effect(c, c, 0),
{
    let t = seq![c];
    assert(is_run(t));
}

/// Whether `s` is the bus of a console just powered on with the cartridge image
/// `data`: work RAM cleared, the PPU and the math unit at their power-on state, the DMA
/// channels at their defaults, both controllers released, every flag, timer, port and
/// clock at 0, and the cartridge that the image makes (its memory map, its ROM without a
/// copier header, and cleared SRAM of the size the header gives).
pub open spec fn powered_on(s: ExternalArchitecture, data: Seq<u8>) -> bool {
    &&& s.wf()
    &&& s.ram@ == Seq::new(WRAM_SIZE as nat, |i: int| 0u8)
    &&& s.dma_channels@ == Seq::new(8, |i: int| Channel::default_spec())
    &&& s.ppu.is_power_on()
    &&& s.math.is_cleared()
    &&& s.events@ == Seq::<BusEvent>::empty()
    &&& s.cartridge.map() == detect(data).0
    &&& s.cartridge.rom() == rom_of(data)
    &&& s.cartridge.sram_view() == Seq::new(pow2_nat(sram_size_byte(data) as nat) * 1024, |i: int| 0u8)
    &&& s == (ExternalArchitecture {
        ram: s.ram,
        cpu_to_apu_reg: [0, 0, 0, 0],
        apu_to_cpu_reg: [0, 0, 0, 0],
        cartridge: s.cartridge,
        input_ports: [InputPort::released_controller(), InputPort::released_controller()],
        ppu: s.ppu,
        dma_channels: s.dma_channels,
        total_master_clocks: 0,
        total_apu_clocks: 0,
        open_bus_value: 0,
        nmi_enabled: false,
        fast_rom_enabled: false,
        math: s.math,
        timer_mode: TimerMode::Disabled,
        h_timer: 0,
        v_timer: 0,
        triggered_irq_this_frame: false,
        timer_flag: false,
        events: s.events,
        anchor: s.anchor,
    })
}

/// `c2` is `c` after a reset: emulation mode, program and data banks and the direct
/// page cleared, and the program counter read from the reset vector (0xFFFC, 0xFFFD)
/// in two bus reads; on a valid bus each read does what `bus_read` says to the state
/// before it, and the bus stays valid.
pub open spec fn reset_effect(c: Console, c2: Console) -> bool {
    let ev = c2.rest.events@;
    let n = c.rest.events@.len() as int;
    &&& c2.cpu.core == (Processor {
        p: StatusRegister { e: true, ..c.cpu.core.p },
        pbr: 0,
        pc: word(value_at(ev, n), value_at(ev, n + 1)),
        dbr: 0,
        dl: 0,
        dh: 0,
        ..c.cpu.core
    })
    &&& ev == c.rest.events@ + seq![rd(0xFFFC, ev, n), rd(0xFFFD, ev, n + 1)]
    &&& c.rest.wf() ==> c2.rest.wf() && exists|mid: ExternalArchitecture|
        #[trigger] bus_read(c.rest, mid, 0xFFFC, value_at(ev, n)) && bus_read(mid, c2.rest, 0xFFFD, value_at(ev, n + 1))
}

/// The entire S.N.E.S. Console but its audio unit.
pub struct Console {
    /// The CPU is the driving force of the console.
    /// It advances the rest of the console through read and write methods in rest.
    pub cpu: Cpu,
    pub rest: ExternalArchitecture,
}

impl Console {
    pub fn cpu(&self) -> (r: &Processor)
        ensures
            *r == self.cpu.core,
    {
        &self.cpu.core
    }

    /// The CPU core, to change.
    pub fn cpu_mut(&mut self) -> (r: &mut Processor)
        ensures
            *r == old(self).cpu.core,
            *final(self) == (Console { cpu: Cpu { core: *final(r) }, ..*old(self) }),
    {
        &mut self.cpu.core
    }

    pub fn ppu(&self) -> (r: &Ppu)
        ensures
            *r == self.rest.ppu,
    {
        &self.rest.ppu
    }

    pub fn ram(&self) -> (r: &Vec<u8>)
        ensures
            *r == self.rest.ram,
    {
        &self.rest.ram
    }

    pub fn cartridge(&self) -> (r: &Cartridge)
        ensures
            *r == self.rest.cartridge,
    {
        &self.rest.cartridge
    }

    pub fn dma_channels(&self) -> (r: &Vec<Channel>)
        ensures
            *r == self.rest.dma_channels,
    {
        &self.rest.dma_channels
    }

    pub fn total_master_clocks(&self) -> (r: u64)
        ensures
            r == self.rest.total_master_clocks,
    {
        self.rest.total_master_clocks
    }

    /// The audio unit runs elsewhere: its opcode reads as 0.
    pub fn apu_opcode(&self) -> (r: u8)
        ensures
            r == 0,
    {
        0
    }

    /// A console with the cartridge whose image is `cartridge_data`, after reset.
    pub fn with_cartridge(cartridge_data: &[u8]) -> (r: Console)
        requires
            cartridge_data.len() > 0x200,
            pow2_nat(sram_size_byte(cartridge_data@) as nat) * 1024 <= usize::MAX,
        ensures
            r.rest.wf(),
            exists|s: ExternalArchitecture|
                #[trigger] powered_on(s, cartridge_data@) && reset_effect(
                    Console { cpu: Cpu { core: Processor::default_spec() }, rest: s },
                    r,
                ),
    {
        let cartridge = Cartridge::from_data(cartridge_data);
        let mut c = Console { cpu: Cpu::default(), rest: ExternalArchitecture::new(cartridge) };
        let ghost c0 = c;
        proof {
            assert(powered_on(c0.rest, cartridge_data@));
        }
        c.reset();
        c
    }

    /// The program counter as a 24-bit address.
    pub fn pc(&self) -> (r: usize)
        ensures
            r == self.cpu.core.pbr * 0x10000 + self.cpu.core.pc,
    {
        self.cpu.core.pbr as usize * 0x10000 + self.cpu.core.pc as usize
    }

    /// The opcode that the console will execute next.
    pub fn opcode(&self) -> (r: u8)
        requires
            self.rest.wf(),
        ensures
            r == self.rest.read_spec((self.cpu.core.pbr * 0x10000 + self.cpu.core.pc) as usize).0,
    {
        self.rest.read_byte(self.pc()).0
    }

    /// Reset the console: emulation mode, banks and direct page cleared, and the
    /// program counter read from the reset vector over the console's bus.
    pub fn reset(&mut self)
        ensures
            reset_effect(*old(self), *final(self)),
    {
        let ghost n = self.rest.events@.len() as int;
        self.cpu.core.p.e = true;
        self.cpu.core.pbr = 0x00;
        let low = self.rest.read(0xFFFC);
        let ghost mid = self.rest;
        let high = self.rest.read(0xFFFD);
        self.cpu.core.pc = (low as u16) + 0x100 * (high as u16);
        self.cpu.core.dbr = 0;
        self.cpu.core.dl = 0;
        self.cpu.core.dh = 0;
        proof {
            let ev = self.rest.events@;
            assert(value_at(ev, n) == low);
            assert(value_at(ev, n + 1) == high);
            assert(ev =~= old(self).rest.events@ + seq![rd(0xFFFC, ev, n), rd(0xFFFD, ev, n + 1)]);
            if old(self).rest.wf() {
                assert(bus_read(old(self).rest, mid, 0xFFFC, value_at(ev, n)));
            }
        }
    }

    /// The blanking flag that the PPU keeps.
    pub fn in_vblank(&self) -> (r: bool)
        ensures
            r == self.rest.ppu.vblank,
    {
        self.rest.ppu.vblank
    }

    /// Read a byte in CPU space
    pub fn read_byte_cpu(&self, address: usize) -> (r: u8)
        requires
            self.rest.wf(),
        ensures
            r == self.rest.read_spec(address).0,
    {
        self.rest.read_byte(address).0
    }

    /// What follows a CPU step, given whether the dot was in vertical and horizontal
    /// blanking before it: entering vertical blanking raises the NMI (when enabled) and
    /// stops HDMA; the IRQ timer fires at most once a frame; leaving vertical blanking
    /// restarts the HDMA tables; entering horizontal blanking runs them.
    pub fn after_cpu_step(&mut self, vblank: bool, hblank: bool)
        ensures
            after_step_effect(*old(self), *final(self), vblank, hblank),
    {
        if !self.rest.is_valid() {
            return;
        }
        self.vblank_part(vblank);
        let ghost m1 = *self;
        self.irq_part();
        let ghost m2 = *self;
        self.frame_part(vblank);
        let ghost m3 = *self;
        self.line_part(vblank, hblank);
        proof {
            assert(after_step_parts(*old(self), m1, m2, m3, *self, vblank, hblank));
        }
    }

    /// The start of vertical blanking.
    fn vblank_part(&mut self, vblank: bool)
        ensures
            vblank_phase(*old(self), *final(self), vblank),
    {
        if !vblank && self.rest.ppu.is_in_vblank() {
            // Trigger NMI
            if self.rest.nmi_enabled {
                let ghost r0 = self.rest;
                self.rest.anchor_here();
                self.cpu.on_nmi(&mut self.rest);
                proof {
                    lemma_traced_from(r0, self.rest);
                }
            }
            let ghost k = *self;
            if self.rest.is_valid() {
                // Disable all HDMA channels
                self.rest.stop_hdma();
            }
            proof {
                assert(nmi_entry(*old(self), k));
            }
        }
    }

    /// The IRQ timer.
    fn irq_part(&mut self)
        ensures
            irq_phase(*old(self), *final(self)),
    {
        if self.rest.is_valid() && self.rest.timer_irq_due() {
            let ghost r0 = self.rest;
            self.rest.anchor_here();
            self.cpu.on_irq(&mut self.rest);
            proof {
                lemma_traced_from(r0, self.rest);
            }
            let ghost k = *self;
            self.rest.triggered_irq_this_frame = true;
            self.rest.timer_flag = true;
            proof {
                assert(irq_entry(*old(self), k));
            }
        }
    }

    /// The end of vertical blanking.
    fn frame_part(&mut self, vblank: bool)
        ensures
            frame_phase(*old(self), *final(self), vblank),
    {
        // The timing here is maybe a little bit off, but if we just exited vblank, set up the HDMA registers
        if self.rest.is_valid() && vblank && !self.rest.ppu.is_in_vblank() {
            self.rest.start_hdma_frame();
        }
    }

    /// The start of horizontal blanking.
    fn line_part(&mut self, vblank: bool, hblank: bool)
        ensures
            line_phase(*old(self), *final(self), vblank, hblank),
    {
        if self.rest.is_valid() && !vblank && !hblank && self.rest.ppu.is_in_hblank() {
            // Trigger HDMAs
            self.rest.run_hdma_line();
        }
    }

    /// Run one instruction (or DMA byte) and what follows it.
    pub fn advance_instruction(&mut self)
        ensures
            instruction_effect(*old(self), *final(self)),
    {
        let vblank = self.rest.ppu.is_in_vblank();
        let hblank = self.rest.ppu.is_in_hblank() && !vblank;
        self.cpu.step(&mut self.rest);
        let ghost mid = *self;
        self.after_cpu_step(vblank, hblank);
        proof {
            assert(instruction_through(*old(self), mid, *self));
        }
    }

    /// Run `num_instructions` instructions.
    pub fn advance_instructions(&mut self, num_instructions: u32)
        ensures
            instructions_effect(*old(self), *final(self), num_instructions as nat),
    {
        let mut i: u32 = 0;
        proof {
            lemma_no_instructions(*self);
        }
        while i < num_instructions
            invariant
                i <= num_instructions,
                instructions_effect(*old(self), *self, i as nat),
            decreases num_instructions - i,
        {
            let ghost before = *self;
            self.advance_instruction();
            proof {
                lemma_one_more_instruction(*old(self), before, *self, (i + 1) as nat);
            }
            i = i + 1;
        }
    }
}

} // verus!
