use vstd::prelude::*;

use crate::bus_event::BusEvent;
use crate::snes::cartridge::Cartridge;
use crate::snes::dma::{AddressAdjustMode, Channel};
use crate::snes::input_port::InputPort;
use crate::snes::math::Math;
use crate::snes::ppu::Ppu;
use crate::snes::ppu_io::read_effect;
use crate::snes::ppu_timing::clocks_after;
use crate::wdc65816::processor::HasAddressBus;
use crate::snes::ppu_io::{read_value, write_effect};
use crate::snes::utils::{bit, bit_set};
use crate::snes::timer::{byte_from_bits, byte_value, TimerMode};

verus! {

/// Clock rate of the audio processor.
pub const APU_CLOCK_SPEED_HZ: u64 = 3_072_000;

/// Clock rate of the master clock.
pub const MASTER_CLOCK_SPEED_HZ: u64 = 21_477_000;

/// Bytes of work RAM.
pub const WRAM_SIZE: usize = 0x20000;

/// Everything in the console but the processors.
pub struct ExternalArchitecture {
    pub ram: Vec<u8>,
    pub cpu_to_apu_reg: [u8; 4],
    pub apu_to_cpu_reg: [u8; 4],
    pub cartridge: Cartridge,
    pub ppu: Ppu,
    /// Math module for multiplication and division
    pub math: Math,
    /// DMA Channels
    pub dma_channels: Vec<Channel>,
    pub input_ports: [InputPort; 2],
    pub total_master_clocks: u64,
    pub total_apu_clocks: u64,
    pub open_bus_value: u8,
    pub nmi_enabled: bool,
    /// Whether fast ROM access is enabled through MEMSEL
    pub fast_rom_enabled: bool,
    /// IRQ timer mode
    pub timer_mode: TimerMode,
    /// IRQ timer H target
    pub h_timer: u16,
    /// IRQ timer V target
    pub v_timer: u16,
    /// Whether we have triggered an IRQ this frame
    pub triggered_irq_this_frame: bool,
    /// Timer flag
    pub timer_flag: bool,
    /// The accesses of the processor so far
    pub events: Ghost<Seq<BusEvent>>,
    /// The state from which the accesses since it are traced
    pub anchor: Ghost<Option<Box<ExternalArchitecture>>>,
}

/// A DMA register of channel `i` of `chans`, by its low nibble; the registers that
/// hold nothing readable give the open bus.
pub open spec fn dma_register_of(chans: Seq<Channel>, open_bus: u8, i: int, lsb: int) -> u8 {
    let d = chans[i];
    if i >= 8 {
        open_bus
    } else if lsb == 2 {
        reg_byte(d.src_addr, false)
    } else if lsb == 3 {
        reg_byte(d.src_addr, true)
    } else if lsb == 4 {
        d.src_bank
    } else if lsb == 5 {
        reg_byte(d.byte_counter, false)
    } else if lsb == 6 {
        reg_byte(d.byte_counter, true)
    } else {
        open_bus
    }
}

/// Whether a read of `addr` goes to the DMA registers.
pub open spec fn is_dma_register(addr: usize) -> bool {
    addr < 0x400000 && 0x4300 <= addr % 0x10000 < 0x4400
}

/// What reading `addr` gives when the DMA channels are `chans` and the rest is as in `s`.
#[verifier::opaque]
pub open spec fn read_with(s: ExternalArchitecture, chans: Seq<Channel>, addr: usize) -> u8 {
    if is_dma_register(addr) {
        dma_register_of(chans, s.open_bus_value, (addr % 0x100) as int / 0x10, (addr % 0x10) as int)
    } else {
        s.read_spec(addr).0
    }
}

/// A read gives what `read_with` says for the console's own channels, and the channels
/// matter only for the DMA registers.
pub proof fn lemma_read_with(s: ExternalArchitecture, t: ExternalArchitecture, addr: usize)
    requires
        t == (ExternalArchitecture { dma_channels: t.dma_channels, ..s }),
    ensures
        t.read_spec(addr).0 == read_with(s, t.dma_channels@, addr),
{
    reveal(read_with);
}

/// `read_with` looks at the channels it is given, not at those of the console.
pub proof fn lemma_read_with_frame(s: ExternalArchitecture, t: ExternalArchitecture, c: Seq<Channel>, addr: usize)
    requires
        t == (ExternalArchitecture { dma_channels: t.dma_channels, ..s }),
    ensures
        read_with(t, c, addr) == read_with(s, c, addr),
{
    reveal(read_with);
}

/// The controller byte at `j` (0 low, 1 high) of a standard controller.
pub open spec fn controller_byte(port: InputPort, j: int) -> u8 {
    match port {
        InputPort::Empty => 0,
        InputPort::StandardController { a, b, x, y, up, left, right, down, start, select, r, l } => {
            if j == 0 {
                byte_value(seq![false, false, false, false, r, l, x, a]) as u8
            } else {
                byte_value(seq![right, left, down, up, start, select, y, b]) as u8
            }
        },
    }
}

/// A byte of a 16-bit register.
pub open spec fn reg_byte(v: u16, high: bool) -> u8 {
    if high {
        (v / 0x100) as u8
    } else {
        (v % 0x100) as u8
    }
}

/// A DMA channel after `value` is written to its register `lsb` (the low nibble of
/// the address).
pub open spec fn dma_register_write(d: Channel, lsb: int, value: u8) -> Channel {
    if lsb == 0 {
        Channel {
            transfer_pattern_index: (value % 8) as usize,
            adjust_mode: if (value / 8) % 4 == 0 {
                AddressAdjustMode::Increment
            } else if (value / 8) % 4 == 2 {
                AddressAdjustMode::Decrement
            } else {
                AddressAdjustMode::Fixed
            },
            indirect: bit_set(value, 6),
            direction: bit_set(value, 7),
            ..d
        }
    } else if lsb == 1 {
        Channel { dest_addr: (0x2100 + value as int) as usize, ..d }
    } else if lsb == 2 || lsb == 3 {
        let a = if lsb == 2 {
            (d.src_addr / 0x100) as int * 0x100 + value as int
        } else {
            (d.src_addr % 0x100) as int + value as int * 0x100
        };
        Channel { src_addr: a as u16, hdma_table_addr: a as u16, ..d }
    } else if lsb == 4 {
        Channel { src_bank: value, ..d }
    } else if lsb == 5 {
        Channel { byte_counter: ((d.byte_counter / 0x100) as int * 0x100 + value as int) as u16, ..d }
    } else if lsb == 6 {
        Channel { byte_counter: ((d.byte_counter % 0x100) as int + value as int * 0x100) as u16, ..d }
    } else if lsb == 7 {
        Channel { indirect_bank: value, ..d }
    } else if lsb == 8 {
        Channel {
            current_hdma_table_addr: ((d.current_hdma_table_addr / 0x100) as int * 0x100 + value as int) as u16,
            ..d
        }
    } else if lsb == 9 {
        Channel {
            current_hdma_table_addr: (value as int * 0x100 + (d.current_hdma_table_addr % 0x100) as int) as u16,
            ..d
        }
    } else if lsb == 10 && value != 0 {
        if value <= 0x80 {
            Channel { hdma_line_counter: value, hdma_repeat: false, ..d }
        } else {
            Channel { hdma_line_counter: (value - 0x80) as u8, hdma_repeat: true, ..d }
        }
    } else {
        d
    }
}

/// The channels after MDMAEN (`hdma` false) or HDMAEN is written: each channel whose
/// bit is set starts a transfer, or has HDMA enabled.
pub open spec fn channels_enabled(chans: Seq<Channel>, value: u8, hdma: bool) -> Seq<Channel> {
    Seq::new(
        chans.len(),
        |i: int|
            if bit_set(value, i) {
                if hdma {
                    Channel { hdma_enable: true, ..chans[i] }
                } else {
                    Channel { is_executing: true, num_bytes_transferred: 0, ..chans[i] }
                }
            } else {
                chans[i]
            },
    )
}

/// What a write to the system register (or low RAM) at `a`, below 0x8000, does.
pub open spec fn system_write(old: ExternalArchitecture, new: ExternalArchitecture, a: int, value: u8) -> bool {
    if a < 0x2000 {
        &&& new.ram@ == old.ram@.update(a, value)
        &&& new == (ExternalArchitecture { ram: new.ram, ..old })
    } else if 0x2100 <= a < 0x2140 {
        &&& write_effect(old.ppu, new.ppu, a as usize, value)
        &&& new == (ExternalArchitecture { ppu: new.ppu, ..old })
    } else if 0x2140 <= a < 0x2180 {
        let k = a % 4;
        let r = old.cpu_to_apu_reg;
        new == (ExternalArchitecture {
            cpu_to_apu_reg: [
                if k == 0 { value } else { r[0] },
                if k == 1 { value } else { r[1] },
                if k == 2 { value } else { r[2] },
                if k == 3 { value } else { r[3] },
            ],
            ..old
        })
    } else if a == 0x4200 {
        new == (ExternalArchitecture {
            nmi_enabled: bit_set(value, 7),
            timer_mode: TimerMode::from_bits(value / 16),
            ..old
        })
    } else if a == 0x4207 || a == 0x4208 || a == 0x4209 || a == 0x420A {
        let t = if a <= 0x4208 { old.h_timer } else { old.v_timer };
        let n = if a == 0x4207 || a == 0x4209 {
            ((t / 0x100) % 2 * 0x100 + value as int) as u16
        } else {
            ((t % 0x100) / 2 * 2 + if t % 2 == 1 || value % 2 == 1 { 1int } else { 0 }) as u16
        };
        if a <= 0x4208 {
            new == (ExternalArchitecture { h_timer: n, ..old })
        } else {
            new == (ExternalArchitecture { v_timer: n, ..old })
        }
    } else if a == 0x420B || a == 0x420C {
        &&& new.dma_channels@ == channels_enabled(old.dma_channels@, value, a == 0x420C)
        &&& new == (ExternalArchitecture { dma_channels: new.dma_channels, ..old })
    } else if (0x4202 <= a <= 0x4206) || (0x4214 <= a <= 0x4217) {
        &&& Math::written(old.math, new.math, a as usize, value)
        &&& new == (ExternalArchitecture { math: new.math, ..old })
    } else if a == 0x420D {
        new == (ExternalArchitecture { fast_rom_enabled: value % 2 == 1, ..old })
    } else if 0x4300 <= a < 0x43FF && (a % 0x100) / 0x10 < 8 {
        let r = (a % 0x100) / 0x10;
        &&& new.dma_channels@ == old.dma_channels@.update(r, dma_register_write(old.dma_channels@[r], a % 0x10, value))
        &&& new == (ExternalArchitecture { dma_channels: new.dma_channels, ..old })
    } else {
        new == old
    }
}

/// Whether `addr` is in the system area of a bank (its registers and low RAM).
pub open spec fn in_system_area(addr: usize) -> bool {
    let a = addr % 0x800000;
    a < 0x400000 && a % 0x10000 < 0x8000
}

/// What writing `value` at `addr` does: work RAM, the system area of the first 64
/// banks of each half of the address space, and nothing for the cartridge.
#[verifier::opaque]
pub open spec fn bus_write(old: ExternalArchitecture, new: ExternalArchitecture, addr: usize, value: u8) -> bool {
    if 0x7E0000 <= addr < 0x800000 {
        &&& new.ram@ == old.ram@.update(addr - 0x7E0000, value)
        &&& new == (ExternalArchitecture { ram: new.ram, ..old })
    } else if in_system_area(addr) {
        system_write(old, new, ((addr % 0x800000) % 0x8000) as int, value)
    } else {
        new == old
    }
}

/// The byte of work RAM that `addr` reaches, or -1: the RAM's own banks (0x7E and
/// 0x7F), and its first 8 KiB at the bottom of banks 0x00 to 0x3F.
pub open spec fn wram_slot(addr: usize) -> int {
    if 0x7E0000 <= addr < 0x800000 {
        addr - 0x7E0000
    } else if addr < 0x400000 && addr % 0x10000 < 0x2000 {
        (addr % 0x10000) as int
    } else {
        -1
    }
}

/// Work RAM gives back what was written to it, through any address that reaches the
/// same byte, and a write leaves the other bytes of work RAM as they were.
pub proof fn lemma_wram_write_read(old: ExternalArchitecture, new: ExternalArchitecture, w: usize, r: usize, v: u8)
    requires
        old.wf(),
        bus_write(old, new, w, v),
        wram_slot(w) >= 0,
        wram_slot(r) >= 0,
    ensures
        wram_slot(r) == wram_slot(w) ==> new.read_spec(r).0 == v,
        wram_slot(r) != wram_slot(w) ==> new.read_spec(r).0 == old.read_spec(r).0,
{
    reveal(bus_write);
    if !(0x7E0000 <= w < 0x800000) {
        assert(w % 0x800000 == w);
        assert((w % 0x800000) % 0x8000 == w % 0x10000);
    }
}

/// The master clocks that a write at `addr` takes.
pub open spec fn write_cycles(s: ExternalArchitecture, addr: usize) -> u32 {
    if 0x7E0000 <= addr < 0x800000 {
        8
    } else if in_system_area(addr) {
        if (addr % 0x800000) % 0x8000 < 0x2000 { 8 } else { 6 }
    } else if addr >= 0x800000 && s.fast_rom_enabled {
        6
    } else {
        8
    }
}

/// A DMA channel after a write to one of its registers.
fn dma_register_written(d: Channel, lsb: usize, value: u8) -> (r: Channel)
    ensures
        r == dma_register_write(d, lsb as int, value),
{
    let mut d = d;
    if lsb == 0 {
        d.transfer_pattern_index = (value % 8) as usize;
        d.adjust_mode = if (value / 8) % 4 == 0 {
            AddressAdjustMode::Increment
        } else if (value / 8) % 4 == 2 {
            AddressAdjustMode::Decrement
        } else {
            AddressAdjustMode::Fixed
        };
        d.indirect = bit(value, 6);
        d.direction = bit(value, 7);
    } else if lsb == 1 {
        d.dest_addr = 0x2100 + value as usize;
    } else if lsb == 2 {
        // Address low byte
        d.src_addr = (d.src_addr / 0x100) * 0x100 + value as u16;
        d.hdma_table_addr = d.src_addr;
    } else if lsb == 3 {
        // Address high byte
        d.src_addr = d.src_addr % 0x100 + value as u16 * 0x100;
        d.hdma_table_addr = d.src_addr;
    } else if lsb == 4 {
        // Address bank
        d.src_bank = value;
    } else if lsb == 5 {
        // Byte counter low byte
        d.byte_counter = (d.byte_counter / 0x100) * 0x100 + value as u16;
    } else if lsb == 6 {
        // Byte counter high byte
        d.byte_counter = d.byte_counter % 0x100 + value as u16 * 0x100;
    } else if lsb == 7 {
        d.indirect_bank = value;
    } else if lsb == 8 {
        d.current_hdma_table_addr = (d.current_hdma_table_addr / 0x100) * 0x100 + value as u16;
    } else if lsb == 9 {
        d.current_hdma_table_addr = value as u16 * 0x100 + d.current_hdma_table_addr % 0x100;
    } else if lsb == 10 && value != 0 {
        if value <= 0x80 {
            d.hdma_line_counter = value;
            d.hdma_repeat = false;
        } else {
            d.hdma_line_counter = value - 0x80;
            d.hdma_repeat = true;
        }
    }
    d
}

/// Start the channels whose bits are set, or enable HDMA on them.
fn enable_channels(chans: &mut Vec<Channel>, value: u8, hdma: bool)
    requires
        old(chans)@.len() == 8,
    ensures
        final(chans)@ == channels_enabled(old(chans)@, value, hdma),
{
    let mut i: usize = 0;
    while i < 8
        invariant
            i <= 8,
            chans@.len() == 8,
            old(chans)@.len() == 8,
            forall|j: int|
                0 <= j < 8 ==> #[trigger] chans@[j] == if j < i {
                    channels_enabled(old(chans)@, value, hdma)[j]
                } else {
                    old(chans)@[j]
                },
        decreases 8 - i,
    {
        if bit(value, i) {
            let mut d = chans[i];
            if hdma {
                d.hdma_enable = true;
            } else {
                d.is_executing = true;
                d.num_bytes_transferred = 0;
            }
            chans.set(i, d);
        }
        i = i + 1;
    }
    assert(chans@ =~= channels_enabled(old(chans)@, value, hdma));
}

/// Write register `lsb` of channel `r`.
fn write_channel_register(chans: &mut Vec<Channel>, r: usize, lsb: usize, value: u8)
    requires
        old(chans)@.len() == 8,
        r < 8,
    ensures
        final(chans)@ == old(chans)@.update(r as int, dma_register_write(old(chans)@[r as int], lsb as int, value)),
{
    let d = dma_register_written(chans[r], lsb, value);
    chans.set(r, d);
}

/// The console after `clocks` master clocks pass: the clock count wraps around 64 bits.
pub open spec fn advanced(s: ExternalArchitecture, clocks: u32) -> ExternalArchitecture {
    ExternalArchitecture {
        total_master_clocks: vstd::wrapping::u64_specs::wrapping_add(s.total_master_clocks, clocks as u64),
        ppu: clocks_after(s.ppu, clocks as nat),
        ..s
    }
}

/// The reads that bypass the memory map: the VRAM read port and the interrupt flags
/// in the first half of the address space.
pub open spec fn is_direct_read(address: usize) -> bool {
    let a = address % 0x10000;
    (address / 0x800000) % 2 == 0 && (a == 0x2139 || a == 0x4210 || a == 0x4211)
}

/// What a processor read of `address` returns and does, apart from its record.
pub open spec fn bus_read(old: ExternalArchitecture, new: ExternalArchitecture, address: usize, value: u8) -> bool {
    if is_direct_read(address) && address % 0x10000 == 0x4211 {
        &&& value == if old.timer_flag { 0x80u8 } else { 0u8 }
        &&& new == (ExternalArchitecture { timer_flag: false, events: new.events, ..old })
    } else if is_direct_read(address) {
        &&& read_effect(old.ppu, new.ppu, address, old.open_bus_value, value)
        &&& new == (ExternalArchitecture { ppu: new.ppu, events: new.events, ..old })
    } else {
        let (v, clocks) = old.read_spec(address);
        &&& value == v
        &&& new == (ExternalArchitecture { open_bus_value: v, events: new.events, ..advanced(old, clocks) })
    }
}

impl ExternalArchitecture {
    /// The sizes of the memories and the validity of the parts.
    pub open spec fn wf(self) -> bool {
        &&& self.ram@.len() == WRAM_SIZE
        &&& self.ppu.wf()
        &&& self.cartridge.wf()
        &&& self.dma_channels@.len() == 8
        &&& forall|i: int|
            0 <= i < 8 ==> #[trigger] self.dma_channels@[i].transfer_pattern_index < 8
                && self.dma_channels@[i].dest_addr <= 0x21FF
    }

    /// A DMA register of channel `i`, by its low nibble.
    pub open spec fn dma_register_value(self, i: int, lsb: int) -> u8 {
        dma_register_of(self.dma_channels@, self.open_bus_value, i, lsb)
    }

    /// What reading `addr` gives, and the master clocks that the access takes.
    pub open spec fn read_spec(self, addr: usize) -> (u8, u32) {
        if 0x7E0000 <= addr < 0x800000 {
            (self.ram@[addr - 0x7E0000], 8)
        } else if addr < 0x400000 {
            let a = (addr % 0x10000) as int;
            if a < 0x2000 {
                (self.ram@[a], 6)
            } else if a < 0x2100 {
                (0, 6)
            } else if a < 0x2140 {
                (read_value(self.ppu, a as usize, self.open_bus_value), 6)
            } else if a < 0x2180 {
                (self.apu_to_cpu_reg[a % 4], 6)
            } else if (0x4002 <= a <= 0x4006) || (0x4214 <= a <= 0x4217) {
                (self.math.read_spec(a as usize), 6)
            } else if a == 0x4212 {
                (
                    ((if self.ppu.is_in_vblank_spec() { 0x80int } else { 0 }) + (if self.ppu.is_in_hblank_spec() {
                        0x40int
                    } else {
                        0
                    })) as u8,
                    6,
                )
            } else if 0x4218 <= a < 0x4220 {
                match self.input_ports[(a / 2) % 2] {
                    InputPort::Empty => (self.open_bus_value, 12),
                    _ => (controller_byte(self.input_ports[(a / 2) % 2], a % 2), 12),
                }
            } else if 0x4300 <= a < 0x4400 {
                (self.dma_register_value((addr % 0x100) as int / 0x10, (addr % 0x10) as int), 6)
            } else if 0x4220 <= a < 0x8000 {
                (read_value(self.ppu, a as usize, self.open_bus_value), 6)
            } else if 0x8000 <= a {
                (self.cartridge.read_spec(addr), 8)
            } else {
                (0, 6)
            }
        } else {
            (self.cartridge.read_spec(addr), if addr > 0x800000 && self.fast_rom_enabled { 6 } else { 8 })
        }
    }

    /// A controller port's byte.
    fn read_controller(&self, a: usize) -> (r: u8)
        requires
            0x4218 <= a < 0x4220,
        ensures
            r == (match self.input_ports[((a / 2) % 2) as int] {
                InputPort::Empty => self.open_bus_value,
                _ => controller_byte(self.input_ports[((a / 2) % 2) as int], (a % 2) as int),
            }),
    {
        // Read controller data
        let i = (a / 2) % 2;
        let j = a % 2;
        match self.input_ports[i] {
            InputPort::Empty => self.open_bus_value,
            InputPort::StandardController { a, b, x, y, up, left, right, down, start, select, r, l } => {
                if j == 0 {
                    // Low byte
                    let bits = [false, false, false, false, r, l, x, a];
                    let v = byte_from_bits(bits);
                    assert(bits@ =~= seq![false, false, false, false, r, l, x, a]);
                    v
                } else {
                    let bits = [right, left, down, up, start, select, y, b];
                    let v = byte_from_bits(bits);
                    assert(bits@ =~= seq![right, left, down, up, start, select, y, b]);
                    v
                }
            },
        }
    }

    /// A DMA register.
    fn read_dma_register(&self, addr: usize) -> (r: u8)
        requires
            self.wf(),
        ensures
            r == self.dma_register_value((addr % 0x100) as int / 0x10, (addr % 0x10) as int),
    {
        let i = (addr % 0x100) / 0x10;
        let lsb = addr % 0x10;
        if i >= 8 {
            return self.open_bus_value;
        }
        let d = &self.dma_channels[i];
        if lsb == 2 {
            (d.src_addr % 0x100) as u8
        } else if lsb == 3 {
            (d.src_addr / 0x100) as u8
        } else if lsb == 4 {
            d.src_bank
        } else if lsb == 5 {
            (d.byte_counter % 0x100) as u8
        } else if lsb == 6 {
            (d.byte_counter / 0x100) as u8
        } else {
            self.open_bus_value
        }
    }

    /// Reads a byte without advancing anything.
    /// Returns the value, and how many master clocks were needed to access the memory
    pub fn read_byte(&self, addr: usize) -> (r: (u8, u32))
        requires
            self.wf(),
        ensures
            r == self.read_spec(addr),
    {
        if 0x7E0000 <= addr && addr < 0x800000 {
            (self.ram[addr - 0x7E0000], 8)
        } else if addr < 0x400000 {
            let a = addr % 0x10000;
            if a < 0x2000 {
                (self.ram[a], 6)
            } else if a < 0x2100 {
                (0, 6)
            } else if a < 0x2140 {
                (self.ppu.peek_byte(a, self.open_bus_value), 6)
            } else if a < 0x2180 {
                (self.apu_to_cpu_reg[a % 4], 6)
            } else if (0x4002 <= a && a <= 0x4006) || (0x4214 <= a && a <= 0x4217) {
                (self.math.read_byte(a), 6)
            } else if a == 0x4212 {
                let v: u8 = (if self.ppu.is_in_vblank() { 0x80 } else { 0 }) + (if self.ppu.is_in_hblank() {
                    0x40
                } else {
                    0
                });
                (v, 6)
            } else if 0x4218 <= a && a < 0x4220 {
                (self.read_controller(a), 12)
            } else if 0x4300 <= a && a < 0x4400 {
                (self.read_dma_register(addr), 6)
            } else if 0x4220 <= a && a < 0x8000 {
                (self.ppu.peek_byte(a, self.open_bus_value), 6)
            } else if 0x8000 <= a {
                (self.cartridge.read_byte(addr), 8)
            } else {
                (0, 6)
            }
        } else {
            (self.cartridge.read_byte(addr), if addr > 0x800000 && self.fast_rom_enabled { 6 } else { 8 })
        }
    }

    /// Write work RAM.
    fn write_ram(&mut self, i: usize, value: u8)
        requires
            old(self).wf(),
            i < WRAM_SIZE,
        ensures
            final(self).ram@ == old(self).ram@.update(i as int, value),
            *final(self) == (ExternalArchitecture { ram: final(self).ram, ..*old(self) }),
            final(self).wf(),
    {
        let mut ram: Vec<u8> = Vec::new();
        std::mem::swap(&mut ram, &mut self.ram);
        ram.set(i, value);
        self.ram = ram;
    }

    /// Write a PPU register.
    fn write_ppu(&mut self, a: usize, value: u8)
        requires
            old(self).wf(),
        ensures
            write_effect(old(self).ppu, final(self).ppu, a, value),
            *final(self) == (ExternalArchitecture { ppu: final(self).ppu, ..*old(self) }),
            final(self).wf(),
    {
        self.ppu.write_byte(a, value);
    }

    /// Write a port to the audio processor.
    fn write_apu_port(&mut self, a: usize, value: u8)
        requires
            old(self).wf(),
            0x2140 <= a < 0x2180,
        ensures
            system_write(*old(self), *final(self), a as int, value),
            final(self).wf(),
    {
        let mut regs = self.cpu_to_apu_reg;
        regs.set(a % 4, value);
        self.cpu_to_apu_reg = regs;
        assert(self.cpu_to_apu_reg =~= [
            if a % 4 == 0 { value } else { old(self).cpu_to_apu_reg[0] },
            if a % 4 == 1 { value } else { old(self).cpu_to_apu_reg[1] },
            if a % 4 == 2 { value } else { old(self).cpu_to_apu_reg[2] },
            if a % 4 == 3 { value } else { old(self).cpu_to_apu_reg[3] },
        ]);
    }

    /// NMITIMEN
    fn write_interrupt_enable(&mut self, value: u8)
        requires
            old(self).wf(),
        ensures
            system_write(*old(self), *final(self), 0x4200, value),
            final(self).wf(),
    {
        self.nmi_enabled = bit(value, 7);
        self.timer_mode = TimerMode::from(value / 16);
    }

    /// HTIMEL, HTIMEH, VTIMEL, VTIMEH
    fn write_timer(&mut self, a: usize, value: u8)
        requires
            old(self).wf(),
            a == 0x4207 || a == 0x4208 || a == 0x4209 || a == 0x420A,
        ensures
            system_write(*old(self), *final(self), a as int, value),
            final(self).wf(),
    {
        let t = if a <= 0x4208 { self.h_timer } else { self.v_timer };
        let n = if a == 0x4207 || a == 0x4209 {
            (t / 0x100) % 2 * 0x100 + value as u16
        } else {
            (t % 0x100) / 2 * 2 + if t % 2 == 1 || value % 2 == 1 { 1 } else { 0 }
        };
        if a <= 0x4208 {
            self.h_timer = n;
        } else {
            self.v_timer = n;
        }
    }

    /// MDMAEN and HDMAEN
    fn write_dma_enable(&mut self, a: usize, value: u8)
        requires
            old(self).wf(),
            a == 0x420B || a == 0x420C,
        ensures
            system_write(*old(self), *final(self), a as int, value),
            final(self).wf(),
    {
        let mut chans: Vec<Channel> = Vec::new();
        std::mem::swap(&mut chans, &mut self.dma_channels);
        enable_channels(&mut chans, value, a == 0x420C);
        self.dma_channels = chans;
    }

    /// The multiplication and division registers.
    fn write_math(&mut self, a: usize, value: u8)
        requires
            old(self).wf(),
        ensures
            Math::written(old(self).math, final(self).math, a, value),
            *final(self) == (ExternalArchitecture { math: final(self).math, ..*old(self) }),
            final(self).wf(),
    {
        self.math.write_byte(a, value);
    }

    /// MEMSEL
    fn write_memsel(&mut self, value: u8)
        requires
            old(self).wf(),
        ensures
            system_write(*old(self), *final(self), 0x420D, value),
            final(self).wf(),
    {
        self.fast_rom_enabled = value % 2 == 1;
    }

    /// A DMA channel register.
    fn write_dma_register(&mut self, a: usize, value: u8)
        requires
            old(self).wf(),
            0x4300 <= a < 0x43FF,
            (a % 0x100) / 0x10 < 8,
        ensures
            system_write(*old(self), *final(self), a as int, value),
            final(self).wf(),
    {
        let mut chans: Vec<Channel> = Vec::new();
        std::mem::swap(&mut chans, &mut self.dma_channels);
        write_channel_register(&mut chans, (a % 0x100) / 0x10, a % 0x10, value);
        self.dma_channels = chans;
    }

    /// A write in the system area of a bank, at `a` below 0x8000.
    fn write_system(&mut self, a: usize, value: u8) -> (r: u32)
        requires
            old(self).wf(),
            a < 0x8000,
        ensures
            system_write(*old(self), *final(self), a as int, value),
            r == if a < 0x2000 { 8u32 } else { 6u32 },
            final(self).wf(),
    {
        if a < 0x2000 {
            self.write_ram(a, value);
            8
        } else if 0x2100 <= a && a < 0x2140 {
            // PPU Registers
            self.write_ppu(a, value);
            6
        } else if 0x2140 <= a && a < 0x2180 {
            self.write_apu_port(a, value);
            6
        } else if a == 0x4200 {
            self.write_interrupt_enable(value);
            6
        } else if a == 0x4207 || a == 0x4208 || a == 0x4209 || a == 0x420A {
            self.write_timer(a, value);
            6
        } else if a == 0x420B || a == 0x420C {
            self.write_dma_enable(a, value);
            6
        } else if (0x4202 <= a && a <= 0x4206) || (0x4214 <= a && a <= 0x4217) {
            self.write_math(a, value);
            6
        } else if a == 0x420D {
            self.write_memsel(value);
            6
        } else if 0x4300 <= a && a < 0x43FF && (a % 0x100) / 0x10 < 8 {
            self.write_dma_register(a, value);
            6
        } else {
            6
        }
    }

    /// Writes a byte without advancing anything.
    /// Returns the number of master cycles needed to access the memory
    pub fn write_byte(&mut self, addr: usize, value: u8) -> (r: u32)
        requires
            old(self).wf(),
        ensures
            bus_write(*old(self), *final(self), addr, value),
            r == write_cycles(*old(self), addr),
            final(self).events == old(self).events,
            final(self).wf(),
    {
        reveal(bus_write);
        if 0x7E0000 <= addr && addr < 0x800000 {
            self.write_ram(addr - 0x7E0000, value);
            8
        } else {
            let a = addr % 0x800000;
            // Check for non-rom area
            if a < 0x400000 && a % 0x10000 < 0x8000 {
                self.write_system(a % 0x8000, value)
            } else if addr >= 0x800000 && self.fast_rom_enabled {
                6
            } else {
                8
            }
        }
    }

    /// Whether the memories have their sizes and the parts are valid.
    pub fn is_valid(&self) -> (r: bool)
        ensures
            r == self.wf(),
    {
        if !(self.ram.len() == WRAM_SIZE && self.ppu.is_valid() && self.cartridge.is_valid() && self.dma_channels.len()
            == 8) {
            return false;
        }
        let mut i: usize = 0;
        while i < 8
            invariant
                i <= 8,
                self.dma_channels@.len() == 8,
                forall|j: int|
                    0 <= j < i ==> #[trigger] self.dma_channels@[j].transfer_pattern_index < 8
                        && self.dma_channels@[j].dest_addr <= 0x21FF,
            decreases 8 - i,
        {
            if self.dma_channels[i].transfer_pattern_index >= 8 || self.dma_channels[i].dest_addr > 0x21FF {
                return false;
            }
            i = i + 1;
        }
        true
    }

    /// The console around a cartridge after power-on.
    pub fn new(cartridge: Cartridge) -> (r: ExternalArchitecture)
        requires
            cartridge.wf(),
        ensures
            r.wf(),
            r.ram@ == Seq::new(WRAM_SIZE as nat, |i: int| 0u8),
            r.dma_channels@ == Seq::new(8, |i: int| Channel::default_spec()),
            r.ppu.is_power_on(),
            r.math.is_cleared(),
            r.events@ == Seq::<BusEvent>::empty(),
            r == (ExternalArchitecture {
                ram: r.ram,
                cpu_to_apu_reg: [0, 0, 0, 0],
                apu_to_cpu_reg: [0, 0, 0, 0],
                cartridge,
                input_ports: [InputPort::released_controller(), InputPort::released_controller()],
                ppu: r.ppu,
                dma_channels: r.dma_channels,
                total_master_clocks: 0,
                total_apu_clocks: 0,
                open_bus_value: 0,
                nmi_enabled: false,
                fast_rom_enabled: false,
                math: r.math,
                timer_mode: TimerMode::Disabled,
                h_timer: 0,
                v_timer: 0,
                triggered_irq_this_frame: false,
                timer_flag: false,
                events: r.events,
                anchor: r.anchor,
            }),
    {
        let mut ram: Vec<u8> = Vec::new();
        let mut i: usize = 0;
        while i < WRAM_SIZE
            invariant
                i <= WRAM_SIZE,
                ram@ == Seq::new(i as nat, |k: int| 0u8),
            decreases WRAM_SIZE - i,
        {
            ram.push(0);
            i = i + 1;
            assert(ram@ =~= Seq::new(i as nat, |k: int| 0u8));
        }
        let mut dma_channels: Vec<Channel> = Vec::new();
        let mut j: usize = 0;
        while j < 8
            invariant
                j <= 8,
                dma_channels@ == Seq::new(j as nat, |k: int| Channel::default_spec()),
            decreases 8 - j,
        {
            dma_channels.push(Channel::default());
            j = j + 1;
            assert(dma_channels@ =~= Seq::new(j as nat, |k: int| Channel::default_spec()));
        }
        ExternalArchitecture {
            ram,
            cpu_to_apu_reg: [0, 0, 0, 0],
            apu_to_cpu_reg: [0, 0, 0, 0],
            cartridge,
            input_ports: [InputPort::default_standard_controller(), InputPort::default_standard_controller()],
            ppu: Ppu::default(),
            dma_channels,
            total_master_clocks: 0,
            total_apu_clocks: 0,
            open_bus_value: 0,
            nmi_enabled: false,
            fast_rom_enabled: false,
            math: Math::default(),
            timer_mode: TimerMode::default(),
            h_timer: 0,
            v_timer: 0,
            triggered_irq_this_frame: false,
            timer_flag: false,
            events: Ghost(Seq::empty()),
            anchor: Ghost(None),
        }
    }

    /// Let `master_clocks` master clocks pass.
    pub fn advance(&mut self, master_clocks: u32)
        requires
            old(self).wf(),
        ensures
            *final(self) == advanced(*old(self), master_clocks),
            final(self).wf(),
    {
        self.total_master_clocks = self.total_master_clocks.wrapping_add(master_clocks as u64);
        self.ppu.advance_master_clock(master_clocks);
    }

    /// A read that bypasses the memory map.
    fn read_direct(&mut self, address: usize) -> (value: u8)
        requires
            old(self).wf(),
            is_direct_read(address),
        ensures
            bus_read(*old(self), *final(self), address, value),
            final(self).events == old(self).events,
            final(self).wf(),
    {
        if address % 0x10000 == 0x4211 {
            let v: u8 = if self.timer_flag { 0x80 } else { 0 };
            self.timer_flag = false;
            v
        } else {
            self.ppu.read_byte(address, self.open_bus_value)
        }
    }

    /// A read through the memory map, which lets its clocks pass.
    fn read_mapped(&mut self, address: usize) -> (value: u8)
        requires
            old(self).wf(),
            !is_direct_read(address),
        ensures
            bus_read(*old(self), *final(self), address, value),
            final(self).events == old(self).events,
            final(self).wf(),
    {
        let (v, clks) = self.read_byte(address);
        self.advance(clks);
        self.open_bus_value = v;
        v
    }
}

/// What a processor write does on a valid bus: what `bus_write` says, then the
/// master clocks that the write takes.
pub open spec fn write_step(a: ExternalArchitecture, address: usize, value: u8, b: ExternalArchitecture) -> bool {
    exists|m: ExternalArchitecture|
        #[trigger] bus_write(a, m, address, value) && b == (ExternalArchitecture {
            events: b.events,
            ..advanced(m, write_cycles(a, address))
        })
}

/// What one logged access does to the bus, from `a` to `b`: the access joins the log;
/// on a valid bus a read, a write and an idle cycle do what `bus_read`, `bus_write`
/// (with its master clocks) and six master clocks say; on an invalid bus nothing else
/// changes.
pub open spec fn access_step(a: ExternalArchitecture, e: BusEvent, b: ExternalArchitecture) -> bool {
    &&& b.events@ == a.events@.push(e)
    &&& if !a.wf() {
        b == (ExternalArchitecture { events: b.events, ..a })
    } else {
        match e {
            BusEvent::Read { address, value } => bus_read(a, b, address, value),
            BusEvent::Write { address, value } => write_step(a, address, value, b),
            BusEvent::Io => b == (ExternalArchitecture { events: b.events, ..advanced(a, 6) }),
        }
    }
}

/// Whether `t` leads from `a` to `b` through the accesses `evs`, one state per access.
pub open spec fn is_trace(t: Seq<ExternalArchitecture>, a: ExternalArchitecture, evs: Seq<BusEvent>, b: ExternalArchitecture) -> bool {
    &&& t.len() == evs.len() + 1
    &&& t[0] == a
    &&& t[evs.len() as int] == b
    &&& forall|i: int| 0 <= i < evs.len() ==> access_step(#[trigger] t[i], evs[i], t[i + 1])
}

/// Whether the accesses `evs`, one after the other, take the bus from `a` to `b`.
pub open spec fn bus_trace(a: ExternalArchitecture, evs: Seq<BusEvent>, b: ExternalArchitecture) -> bool {
    exists|t: Seq<ExternalArchitecture>| #[trigger] is_trace(t, a, evs, b)
}

/// Whether `m2` follows from `m` through the accesses logged since `m`; `m2` carries
/// `m` as its anchor.
pub open spec fn traced_from(m: ExternalArchitecture, m2: ExternalArchitecture) -> bool {
    &&& m.events@.len() <= m2.events@.len()
    &&& m2.events@.subrange(0, m.events@.len() as int) == m.events@
    &&& bus_trace(ExternalArchitecture { anchor: m2.anchor, ..m }, m2.events@.skip(m.events@.len() as int), m2)
}

/// A state anchored at `m` that is traced follows from `m`.
pub proof fn lemma_traced_from(m: ExternalArchitecture, m2: ExternalArchitecture)
    requires
        m2.traced_spec(),
        m2.origin_state() == (ExternalArchitecture { anchor: Ghost(Some(Box::new(m))), ..m }),
    ensures
        traced_from(m, m2),
        m2.anchor@ == Some(Box::new(m)),
{
    let o = m2.origin_state();
    assert(m2.anchor == o.anchor);
    assert(o == (ExternalArchitecture { anchor: m2.anchor, ..m }));
    assert(o.events == m.events);
    let evs = m2.events@.skip(m.events@.len() as int);
    assert(bus_trace(o, evs, m2));
    let t = choose|t: Seq<ExternalArchitecture>| #[trigger] is_trace(t, o, evs, m2);
    lemma_trace_events(t, o, evs, m2);
    assert(m2.events@.subrange(0, m.events@.len() as int) =~= m.events@);
}

/// Along a trace, each state's log is the first one's with the accesses so far.
proof fn lemma_trace_log(t: Seq<ExternalArchitecture>, a: ExternalArchitecture, evs: Seq<BusEvent>, b: ExternalArchitecture, k: int)
    requires
        is_trace(t, a, evs, b),
        0 <= k <= evs.len(),
    ensures
        t[k].events@ == a.events@ + evs.subrange(0, k),
    decreases k,
{
    if k > 0 {
        lemma_trace_log(t, a, evs, b, k - 1);
        assert(access_step(t[k - 1], evs[k - 1], t[k]));
        assert(evs.subrange(0, k) =~= evs.subrange(0, k - 1).push(evs[k - 1]));
    } else {
        assert(a.events@ + evs.subrange(0, 0) =~= a.events@);
    }
}

/// A trace only appends its accesses to the log.
proof fn lemma_trace_events(t: Seq<ExternalArchitecture>, a: ExternalArchitecture, evs: Seq<BusEvent>, b: ExternalArchitecture)
    requires
        is_trace(t, a, evs, b),
    ensures
        b.events@ == a.events@ + evs,
{
    lemma_trace_log(t, a, evs, b, evs.len() as int);
    assert(evs.subrange(0, evs.len() as int) =~= evs);
}

/// No accesses leave the bus as it is.
pub proof fn lemma_trace_empty(a: ExternalArchitecture)
    ensures
        bus_trace(a, Seq::empty(), a),
{
    assert(is_trace(seq![a], a, Seq::empty(), a));
}

/// A trace followed by one more access is a trace.
pub proof fn lemma_trace_extend(
    a: ExternalArchitecture,
    evs: Seq<BusEvent>,
    b: ExternalArchitecture,
    e: BusEvent,
    c: ExternalArchitecture,
)
    requires
        bus_trace(a, evs, b),
        access_step(b, e, c),
    ensures
        bus_trace(a, evs.push(e), c),
{
    let t = choose|t: Seq<ExternalArchitecture>| #[trigger] is_trace(t, a, evs, b);
    let t2 = t.push(c);
    assert forall|i: int| 0 <= i < evs.push(e).len() implies access_step(#[trigger] t2[i], evs.push(e)[i], t2[i + 1]) by {
        if i < evs.len() {
            assert(t2[i] == t[i] && t2[i + 1] == t[i + 1] && evs.push(e)[i] == evs[i]);
        }
    }
    assert(is_trace(t2, a, evs.push(e), c));
}

/// The only trace of no accesses stays where it is.
pub proof fn lemma_trace_none(a: ExternalArchitecture, b: ExternalArchitecture)
    requires
        bus_trace(a, Seq::empty(), b),
    ensures
        b == a,
{
    let t = choose|t: Seq<ExternalArchitecture>| #[trigger] is_trace(t, a, Seq::empty(), b);
}

impl ExternalArchitecture {
    /// The state from which the accesses are traced: the anchored state, or nothing
    /// in particular without one.
    pub open spec fn origin_state(self) -> ExternalArchitecture {
        match self.anchor@ {
            Some(b) => ExternalArchitecture { anchor: self.anchor, ..*b },
            None => arbitrary(),
        }
    }

    /// Whether the state follows from its anchored state through the accesses logged
    /// since.
    pub open spec fn traced_spec(self) -> bool {
        let o = self.origin_state();
        &&& self.anchor@ is Some
        &&& o.events@.len() <= self.events@.len()
        &&& bus_trace(o, self.events@.skip(o.events@.len() as int), self)
    }

    /// Trace the accesses from now on.
    pub fn anchor_here(&mut self)
        ensures
            *final(self) == (ExternalArchitecture { anchor: Ghost(Some(Box::new(*old(self)))), ..*old(self) }),
            final(self).traced_spec(),
            final(self).origin_state() == *final(self),
    {
        self.anchor = Ghost(Some(Box::new(*self)));
        proof {
            lemma_trace_empty(*self);
            assert(self.events@.skip(self.events@.len() as int) =~= Seq::<BusEvent>::empty());
        }
    }
}

/// A write that does what `bus_write` says, with its master clocks, is an access step.
proof fn lemma_write_step(a: ExternalArchitecture, m: ExternalArchitecture, b: ExternalArchitecture, address: usize, value: u8)
    requires
        a.wf(),
        bus_write(a, m, address, value),
        b == (ExternalArchitecture { events: b.events, ..advanced(m, write_cycles(a, address)) }),
        b.events@ == a.events@.push(BusEvent::Write { address, value }),
    ensures
        access_step(a, BusEvent::Write { address, value }, b),
{
    assert(write_step(a, address, value, b));
}

/// A write keeps the anchor.
proof fn lemma_bus_write_anchor(a: ExternalArchitecture, m: ExternalArchitecture, address: usize, value: u8)
    requires
        bus_write(a, m, address, value),
    ensures
        m.anchor == a.anchor,
{
    reveal(bus_write);
}

/// An access keeps the anchor and extends the trace.
proof fn lemma_access_traced(old: ExternalArchitecture, new: ExternalArchitecture, e: BusEvent)
    requires
        access_step(old, e, new),
        new.anchor == old.anchor,
    ensures
        new.origin_state() == old.origin_state(),
        old.traced_spec() ==> new.traced_spec(),
{
    if old.traced_spec() {
        let o = old.origin_state();
        let k = o.events@.len() as int;
        lemma_trace_extend(o, old.events@.skip(k), old, e, new);
        assert(new.events@.skip(k) =~= old.events@.skip(k).push(e));
    }
}

impl HasAddressBus for ExternalArchitecture {
    open spec fn bus_events(&self) -> Seq<BusEvent> {
        self.events@
    }

    open spec fn origin(&self) -> Self {
        self.origin_state()
    }

    open spec fn traced(&self) -> bool {
        self.traced_spec()
    }

    fn read(&mut self, address: usize) -> (value: u8)
        ensures
            old(self).wf() ==> bus_read(*old(self), *final(self), address, value),
            old(self).wf() ==> final(self).wf(),
            access_step(*old(self), BusEvent::Read { address, value }, *final(self)),
    {
        let value = if !self.is_valid() {
            self.open_bus_value
        } else if (address / 0x800000) % 2 == 0 && (address % 0x10000 == 0x2139 || address % 0x10000 == 0x4210
            || address % 0x10000 == 0x4211) {
            self.read_direct(address)
        } else {
            self.read_mapped(address)
        };
        let ghost mid = *self;
        self.events = Ghost(self.events@.push(BusEvent::Read { address, value }));
        proof {
            if old(self).wf() {
                assert(mid.wf());
                assert(*self == (ExternalArchitecture { events: self.events, ..mid }));
            }
            lemma_access_traced(*old(self), *self, BusEvent::Read { address, value });
        }
        value
    }

    fn write(&mut self, address: usize, value: u8)
        ensures
            old(self).wf() ==> exists|m: ExternalArchitecture|
                #[trigger] bus_write(*old(self), m, address, value) && *final(self) == (ExternalArchitecture {
                    events: final(self).events,
                    ..advanced(m, write_cycles(*old(self), address))
                }),
            old(self).wf() ==> final(self).wf(),
            access_step(*old(self), BusEvent::Write { address, value }, *final(self)),
    {
        if self.is_valid() {
            let clks = self.write_byte(address, value);
            let ghost m = *self;
            self.advance(clks);
            self.events = Ghost(self.events@.push(BusEvent::Write { address, value }));
            assert(bus_write(*old(self), m, address, value));
            proof {
                lemma_write_step(*old(self), m, *self, address, value);
                lemma_bus_write_anchor(*old(self), m, address, value);
            }
        } else {
            self.events = Ghost(self.events@.push(BusEvent::Write { address, value }));
            assert(access_step(*old(self), BusEvent::Write { address, value }, *self));
        }
        proof {
            lemma_access_traced(*old(self), *self, BusEvent::Write { address, value });
        }
    }

    fn io(&mut self)
        ensures
            old(self).wf() ==> *final(self) == (ExternalArchitecture {
                events: final(self).events,
                ..advanced(*old(self), 6)
            }),
            old(self).wf() ==> final(self).wf(),
            access_step(*old(self), BusEvent::Io, *final(self)),
    {
        if self.is_valid() {
            self.advance(6);
        }
        self.events = Ghost(self.events@.push(BusEvent::Io));
        proof {
            lemma_access_traced(*old(self), *self, BusEvent::Io);
        }
    }
}

} // verus!
