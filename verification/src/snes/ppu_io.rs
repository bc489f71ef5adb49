use vstd::prelude::*;

use crate::snes::ppu::{remap, Ppu};
use crate::snes::ppu_bg_regs::{
    bg_fields_effect, bg_mode_effect, color_math_designation_effect, is_bg_field_register,
    main_screen_effect, mosaic_effect, sub_screen_effect,
};
use crate::snes::ppu_oam::oam_data_effect;
use crate::snes::ppu_regs::{
    cgram_addr_effect, cgram_data_effect, color_math_control_effect, display_control_effect,
    fixed_color_effect, m7_select_effect, matrix_effect, oam_addr_high_effect, oam_addr_low_effect,
    object_select_effect, screen_init_effect, scroll_effect, vram_addr_high_effect,
    vram_addr_low_effect, vram_control_effect, vram_data_effect, window_effect, window_logic_effect,
};
use crate::snes::ppu_types::VramIncMode;

verus! {

/// What a write of `value` to the PPU register at `addr` does; other addresses are
/// ignored.
pub open spec fn write_effect(old: Ppu, new: Ppu, addr: usize, value: u8) -> bool {
    if addr == 0x2100 {
        display_control_effect(old, new, value)
    } else if addr == 0x2101 {
        object_select_effect(old, new, value)
    } else if addr == 0x2102 {
        oam_addr_low_effect(old, new, value)
    } else if addr == 0x2103 {
        oam_addr_high_effect(old, new, value)
    } else if addr == 0x2104 {
        oam_data_effect(old, new, value)
    } else if addr == 0x2105 {
        bg_mode_effect(old, new, value)
    } else if addr == 0x2106 {
        mosaic_effect(old, new, value)
    } else if is_bg_field_register(addr) {
        bg_fields_effect(old, new, addr, value)
    } else if 0x210D <= addr <= 0x2114 {
        scroll_effect(old, new, addr, value)
    } else if addr == 0x2115 {
        vram_control_effect(old, new, value)
    } else if addr == 0x2116 {
        vram_addr_low_effect(old, new, value)
    } else if addr == 0x2117 {
        vram_addr_high_effect(old, new, value)
    } else if addr == 0x2118 {
        vram_data_effect(old, new, false, value)
    } else if addr == 0x2119 {
        vram_data_effect(old, new, true, value)
    } else if addr == 0x211A {
        m7_select_effect(old, new, value)
    } else if 0x211B <= addr <= 0x2120 {
        matrix_effect(old, new, addr, value)
    } else if addr == 0x2121 {
        cgram_addr_effect(old, new, value)
    } else if addr == 0x2122 {
        cgram_data_effect(old, new, value)
    } else if 0x2125 <= addr <= 0x2129 {
        window_effect(old, new, addr, value)
    } else if addr == 0x212B {
        window_logic_effect(old, new, value)
    } else if addr == 0x212C {
        main_screen_effect(old, new, value)
    } else if addr == 0x212D {
        sub_screen_effect(old, new, value)
    } else if addr == 0x2130 {
        color_math_control_effect(old, new, value)
    } else if addr == 0x2131 {
        color_math_designation_effect(old, new, value)
    } else if addr == 0x2132 {
        fixed_color_effect(old, new, value)
    } else if addr == 0x2133 {
        screen_init_effect(old, new, value)
    } else {
        new == old
    }
}

/// Byte `k` (0 lowest) of the two's complement form of a 32-bit number.
pub open spec fn le_byte(v: i32, k: int) -> u8 {
    let u = (v as int) % 0x1_0000_0000;
    let d = if k == 0 {
        1
    } else if k == 1 {
        0x100
    } else {
        0x10000
    };
    ((u / d) % 0x100) as u8
}

/// A byte of a latched counter: its low byte, or its ninth bit with the other seven
/// bits from the open bus.
pub open spec fn counter_byte(c: usize, high: bool, open_bus: u8) -> u8 {
    if high {
        (((c % 0x10000) / 0x100) % 2 + (open_bus / 2) * 2) as u8
    } else {
        (c % 0x100) as u8
    }
}

/// The PPU after the read latches are loaded and the VRAM address moves on.
pub open spec fn vram_read_moved(old: Ppu, new: Ppu) -> bool {
    let r = remap(old.vram_addr as int, old.vram_remap);
    new == (Ppu {
        vram_latch_low: old.vram@[2 * r],
        vram_latch_high: old.vram@[2 * r + 1],
        vram_addr: ((old.vram_addr + old.vram_increment_amount) % 0x10000) as usize,
        ..old
    })
}

/// What a read of the PPU register at `addr` returns (`r`) and does; other addresses
/// give the open bus.
pub open spec fn read_effect(old: Ppu, new: Ppu, addr: usize, open_bus: u8, r: u8) -> bool {
    if 0x2134 <= addr <= 0x2136 {
        new == old && r == le_byte(old.multi_res, addr - 0x2134)
    } else if addr == 0x2137 {
        new == (Ppu { h_latch: old.dot_xy_spec().0, v_latch: old.dot_xy_spec().1, ..old }) && r == open_bus
    } else if addr == 0x2138 || addr == 0x213E {
        new == old && r == 0
    } else if addr == 0x2139 {
        &&& r == old.vram_latch_low
        &&& if old.vram_increment_mode is LowReadHighWrite {
            vram_read_moved(old, new)
        } else {
            new == old
        }
    } else if addr == 0x213A {
        &&& r == old.vram_latch_high
        &&& if old.vram_increment_mode is HighReadLowWrite {
            vram_read_moved(old, new)
        } else {
            new == old
        }
    } else if addr == 0x213B {
        &&& new == (Ppu {
            cgram_latch: match old.cgram_latch {
                Some(_) => None,
                None => Some(0),
            },
            ..old
        })
        &&& r == open_bus
    } else if addr == 0x213C {
        new == (Ppu { ophct_latch: !old.ophct_latch, ..old }) && r == counter_byte(old.h_latch, old.ophct_latch, open_bus)
    } else if addr == 0x213D {
        new == (Ppu { ophct_latch: !old.ophct_latch, ..old }) && r == counter_byte(old.v_latch, old.ophct_latch, open_bus)
    } else if addr == 0x213F {
        &&& new == (Ppu { ophct_latch: false, h_latch: 0, v_latch: 0, ..old })
        &&& r == if old.interlace_field { 0x80u8 } else { 0u8 }
    } else {
        new == old && r == open_bus
    }
}

/// The value a read of the PPU register at `addr` gives, without its side effects.
pub open spec fn read_value(p: Ppu, addr: usize, open_bus: u8) -> u8 {
    if 0x2134 <= addr <= 0x2136 {
        le_byte(p.multi_res, addr - 0x2134)
    } else if addr == 0x2138 || addr == 0x213E {
        0
    } else if addr == 0x2139 {
        p.vram_latch_low
    } else if addr == 0x213A {
        p.vram_latch_high
    } else if addr == 0x213C {
        counter_byte(p.h_latch, p.ophct_latch, open_bus)
    } else if addr == 0x213D {
        counter_byte(p.v_latch, p.ophct_latch, open_bus)
    } else if addr == 0x213F {
        if p.interlace_field { 0x80u8 } else { 0u8 }
    } else {
        open_bus
    }
}

/// A read returns the value that `read_value` gives for the state before it.
pub proof fn lemma_read_gives_read_value(old: Ppu, new: Ppu, addr: usize, open_bus: u8, r: u8)
    requires
        read_effect(old, new, addr, open_bus, r),
    ensures
        r == read_value(old, addr, open_bus),
{
}

/// Setting the CGRAM address and writing the two bytes of a color stores the color
/// (low byte first) at that address and moves the address on by one.
pub proof fn lemma_cgram_color_write(p0: Ppu, p1: Ppu, p2: Ppu, p3: Ppu, a: u8, low: u8, high: u8)
    requires
        p0.wf(),
        write_effect(p0, p1, 0x2121, a),
        write_effect(p1, p2, 0x2122, low),
        write_effect(p2, p3, 0x2122, high),
    ensures
        p3.cgram@ == p0.cgram@.update(a as int, (high as int * 0x100 + low as int) as u16),
        p3.cgram_addr == (a as int + 1) % 0x100,
        p3.cgram_latch is None,
{
}

/// With the increment after the high byte, setting the VRAM word address (without
/// remapping) and writing the low and then the high byte stores both bytes of the word
/// and moves the address on by the increment amount.
#[verifier::rlimit(40)]
pub proof fn lemma_vram_word_write(
    p0: Ppu,
    p1: Ppu,
    p2: Ppu,
    p3: Ppu,
    p4: Ppu,
    addr_low: u8,
    addr_high: u8,
    low: u8,
    high: u8,
)
    requires
        p0.wf(),
        p0.vram_remap == 0,
        p0.vram_increment_mode is LowReadHighWrite,
        write_effect(p0, p1, 0x2116, addr_low),
        write_effect(p1, p2, 0x2117, addr_high),
        write_effect(p2, p3, 0x2118, low),
        write_effect(p3, p4, 0x2119, high),
    ensures
        ({
            let w = (addr_high % 0x80) as int * 0x100 + addr_low as int;
            &&& p4.vram@ == p0.vram@.update(2 * w, low).update(2 * w + 1, high)
            &&& p4.vram_addr == (w + p0.vram_increment_amount) % 0x10000
        }),
{
    let w = (addr_high % 0x80) as int * 0x100 + addr_low as int;
    assert(vram_addr_low_effect(p0, p1, addr_low));
    assert(p1.vram_addr as int == (p0.vram_addr / 0x100) % 0x80 * 0x100 + addr_low as int);
    assert(p1.vram@ == p0.vram@ && p1.vram_remap == 0 && p1.vram_increment_mode == p0.vram_increment_mode);
    assert(p1.vram_increment_amount == p0.vram_increment_amount);
    assert(vram_addr_high_effect(p1, p2, addr_high));
    assert(p2.vram_addr == w);
    assert(p2.vram@ == p0.vram@ && p2.vram_remap == 0 && p2.vram_increment_mode == p0.vram_increment_mode);
    assert(p2.vram_increment_amount == p0.vram_increment_amount);
    assert(remap(w, 0) == w);
    assert(vram_data_effect(p2, p3, false, low));
    assert(p3.vram@ == p0.vram@.update(2 * w, low));
    assert(p3.vram_addr == w && p3.vram_remap == 0 && p3.vram_increment_mode == p0.vram_increment_mode);
    assert(p3.vram_increment_amount == p0.vram_increment_amount);
    assert(vram_data_effect(p3, p4, true, high));
}

/// Byte `k` of the two's complement form of `v`.
fn le_byte_of(v: i32, k: usize) -> (r: u8)
    requires
        k < 3,
    ensures
        r == le_byte(v, k as int),
{
    let u: u32 = if v < 0 {
        (v as i64 + 0x1_0000_0000) as u32
    } else {
        v as u32
    };
    assert(u as int == (v as int) % 0x1_0000_0000);
    let d: u32 = if k == 0 {
        1
    } else if k == 1 {
        0x100
    } else {
        0x10000
    };
    ((u / d) % 0x100) as u8
}

/// A byte of a latched counter.
fn counter_byte_of(c: usize, high: bool, open_bus: u8) -> (r: u8)
    ensures
        r == counter_byte(c, high, open_bus),
{
    if high {
        (((c % 0x10000) / 0x100) % 2) as u8 + (open_bus / 2) * 2
    } else {
        (c % 0x100) as u8
    }
}

impl Ppu {
    /// Latch the H and V counters.
    pub fn latch_counters(&mut self)
        requires
            old(self).wf(),
        ensures
            *final(self) == (Ppu { h_latch: old(self).dot_xy_spec().0, v_latch: old(self).dot_xy_spec().1, ..*old(self) }),
            final(self).wf(),
    {
        let (x, y) = self.dot_xy();
        self.h_latch = x;
        self.v_latch = y;
    }

    /// Load the read latches and move the VRAM address on.
    pub fn read_vram_and_move(&mut self)
        requires
            old(self).wf(),
        ensures
            vram_read_moved(*old(self), *final(self)),
            final(self).wf(),
    {
        self.refresh_vram_latch();
        self.inc_vram_addr();
    }

    /// VMDATALREAD: the low read latch; the address moves on after it in the
    /// increment mode that names the low byte for reads.
    pub fn read_vram_low(&mut self) -> (r: u8)
        requires
            old(self).wf(),
        ensures
            r == old(self).vram_latch_low,
            if old(self).vram_increment_mode is LowReadHighWrite {
                vram_read_moved(*old(self), *final(self))
            } else {
                *final(self) == *old(self)
            },
            final(self).wf(),
    {
        let val = self.vram_latch_low;
        if matches!(self.vram_increment_mode, VramIncMode::LowReadHighWrite) {
            self.read_vram_and_move();
        }
        val
    }

    /// VMDATAHREAD: the high read latch; the address moves on after it in the
    /// increment mode that names the high byte for reads.
    pub fn read_vram_high(&mut self) -> (r: u8)
        requires
            old(self).wf(),
        ensures
            r == old(self).vram_latch_high,
            if old(self).vram_increment_mode is HighReadLowWrite {
                vram_read_moved(*old(self), *final(self))
            } else {
                *final(self) == *old(self)
            },
            final(self).wf(),
    {
        let val = self.vram_latch_high;
        if matches!(self.vram_increment_mode, VramIncMode::HighReadLowWrite) {
            self.read_vram_and_move();
        }
        val
    }

    /// Toggle the CGRAM read latch.
    pub fn toggle_cgram_latch(&mut self)
        requires
            old(self).wf(),
        ensures
            *final(self) == (Ppu {
                cgram_latch: match old(self).cgram_latch {
                    Some(_) => None,
                    None => Some(0),
                },
                ..*old(self)
            }),
            final(self).wf(),
    {
        self.cgram_latch = match self.cgram_latch {
            Some(_) => None,
            None => Some(0),
        };
    }

    /// OPHCT (`vertical` false) and OPVCT: one byte of the latched counter, low byte
    /// first.
    pub fn read_counter(&mut self, vertical: bool, open_bus: u8) -> (r: u8)
        requires
            old(self).wf(),
        ensures
            *final(self) == (Ppu { ophct_latch: !old(self).ophct_latch, ..*old(self) }),
            r == counter_byte(if vertical { old(self).v_latch } else { old(self).h_latch }, old(self).ophct_latch, open_bus),
            final(self).wf(),
    {
        let c = if vertical { self.v_latch } else { self.h_latch };
        let v = counter_byte_of(c, self.ophct_latch, open_bus);
        self.ophct_latch = !self.ophct_latch;
        v
    }

    /// STAT78: the interlace field; the counter latches are reset.
    pub fn read_status(&mut self) -> (r: u8)
        requires
            old(self).wf(),
        ensures
            *final(self) == (Ppu { ophct_latch: false, h_latch: 0, v_latch: 0, ..*old(self) }),
            r == if old(self).interlace_field { 0x80u8 } else { 0u8 },
            final(self).wf(),
    {
        self.ophct_latch = false;
        self.h_latch = 0;
        self.v_latch = 0;
        if self.interlace_field { 0x80 } else { 0 }
    }

    /// MPYL, MPYM, MPYH and SLHV.
    fn read_product_or_latch(&mut self, addr: usize, open_bus: u8) -> (r: u8)
        requires
            old(self).wf(),
            0x2134 <= addr <= 0x2138,
        ensures
            read_effect(*old(self), *final(self), addr, open_bus, r),
            final(self).wf(),
    {
        if addr <= 0x2136 {
            le_byte_of(self.multi_res, addr - 0x2134)
        } else if addr == 0x2137 {
            // Update latches
            self.latch_counters();
            open_bus
        } else {
            0
        }
    }

    /// VMDATALREAD and VMDATAHREAD.
    fn read_vram_data(&mut self, addr: usize, open_bus: u8) -> (r: u8)
        requires
            old(self).wf(),
            addr == 0x2139 || addr == 0x213A,
        ensures
            read_effect(*old(self), *final(self), addr, open_bus, r),
            final(self).wf(),
    {
        if addr == 0x2139 {
            self.read_vram_low()
        } else {
            self.read_vram_high()
        }
    }

    /// RDCGRAM, OPHCT, OPVCT, STAT77, STAT78 and the addresses above.
    fn read_other(&mut self, addr: usize, open_bus: u8) -> (r: u8)
        requires
            old(self).wf(),
            0x213B <= addr,
        ensures
            read_effect(*old(self), *final(self), addr, open_bus, r),
            final(self).wf(),
    {
        if addr == 0x213B {
            self.toggle_cgram_latch();
            open_bus
        } else if addr == 0x213C {
            self.read_counter(false, open_bus)
        } else if addr == 0x213D {
            self.read_counter(true, open_bus)
        } else if addr == 0x213E {
            0
        } else if addr == 0x213F {
            self.read_status()
        } else {
            open_bus
        }
    }

    /// The value a read of the register at `addr` gives, without changing anything.
    pub fn peek_byte(&self, addr: usize, open_bus: u8) -> (r: u8)
        ensures
            r == read_value(*self, addr, open_bus),
    {
        if 0x2134 <= addr && addr <= 0x2136 {
            le_byte_of(self.multi_res, addr - 0x2134)
        } else if addr == 0x2138 || addr == 0x213E {
            0
        } else if addr == 0x2139 {
            self.vram_latch_low
        } else if addr == 0x213A {
            self.vram_latch_high
        } else if addr == 0x213C {
            counter_byte_of(self.h_latch, self.ophct_latch, open_bus)
        } else if addr == 0x213D {
            counter_byte_of(self.v_latch, self.ophct_latch, open_bus)
        } else if addr == 0x213F {
            if self.interlace_field { 0x80 } else { 0 }
        } else {
            open_bus
        }
    }

    /// Read the NMI flag register (0x4210): the blanking flag in bit 7 and the open bus
    /// in bits 4 to 6; the read clears the flag. Other addresses read as 0.
    pub fn read_byte_mut(&mut self, addr: usize, open_bus: u8) -> (r: u8)
        ensures
            r == (if addr == 0x4210 {
                (if old(self).vblank { 0x80int } else { 0int }) + (open_bus / 16 % 8) * 16
            } else {
                0int
            }),
            *final(self) == (Ppu { vblank: old(self).vblank && addr != 0x4210, ..*old(self) }),
    {
        if addr == 0x4210 {
            let v: u8 = if self.vblank { 0x80 } else { 0 };
            self.vblank = false;
            proof {
                assert((v | (open_bus & 0x70u8)) == v + (open_bus / 16 % 8) * 16) by (bit_vector)
                    requires
                        v == 0 || v == 0x80,
                ;
            }
            v | (open_bus & 0x70)
        } else {
            0
        }
    }

    /// Read a PPU register.
    pub fn read_byte(&mut self, addr: usize, open_bus: u8) -> (r: u8)
        requires
            old(self).wf(),
        ensures
            read_effect(*old(self), *final(self), addr, open_bus, r),
            final(self).wf(),
    {
        if 0x2134 <= addr && addr <= 0x2138 {
            self.read_product_or_latch(addr, open_bus)
        } else if addr == 0x2139 || addr == 0x213A {
            self.read_vram_data(addr, open_bus)
        } else if 0x213B <= addr {
            self.read_other(addr, open_bus)
        } else {
            open_bus
        }
    }

    /// Write a PPU register.
    pub fn write_byte(&mut self, addr: usize, value: u8)
        requires
            old(self).wf(),
        ensures
            write_effect(*old(self), *final(self), addr, value),
            final(self).wf(),
    {
        if addr == 0x2100 {
            self.write_display_control(value);
        } else if addr == 0x2101 {
            self.write_object_select(value);
        } else if addr == 0x2102 {
            self.write_oam_addr_low(value);
        } else if addr == 0x2103 {
            self.write_oam_addr_high(value);
        } else if addr == 0x2104 {
            self.write_oam_data(value);
        } else if addr == 0x2105 {
            self.write_bg_mode(value);
        } else if addr == 0x2106 {
            self.write_mosaic(value);
        } else if (0x2107 <= addr && addr <= 0x210C) || addr == 0x2123 || addr == 0x2124 || addr == 0x212A
            || addr == 0x212E || addr == 0x212F {
            self.write_bg_fields(addr, value);
        } else if 0x210D <= addr && addr <= 0x2114 {
            self.write_scroll(addr, value);
        } else if addr == 0x2115 {
            self.write_vram_control(value);
        } else if addr == 0x2116 {
            self.write_vram_addr_low(value);
        } else if addr == 0x2117 {
            self.write_vram_addr_high(value);
        } else if addr == 0x2118 {
            self.write_vram_data_low(value);
        } else if addr == 0x2119 {
            self.write_vram_data_high(value);
        } else if addr == 0x211A {
            self.write_m7_select(value);
        } else if 0x211B <= addr && addr <= 0x2120 {
            self.write_matrix(addr, value);
        } else if addr == 0x2121 {
            self.write_cgram_addr(value);
        } else if addr == 0x2122 {
            self.write_cgram(value);
        } else if 0x2125 <= addr && addr <= 0x2129 {
            self.write_window(addr, value);
        } else if addr == 0x212B {
            self.write_window_logic(value);
        } else if addr == 0x212C {
            self.write_main_screen(value);
        } else if addr == 0x212D {
            self.write_sub_screen(value);
        } else if addr == 0x2130 {
            self.write_color_math_control(value);
        } else if addr == 0x2131 {
            self.write_color_math_designation(value);
        } else if addr == 0x2132 {
            self.write_fixed_color(value);
        } else if addr == 0x2133 {
            self.write_screen_init(value);
        }
    }
}

} // verus!
