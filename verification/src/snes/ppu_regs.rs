use vstd::prelude::*;

use crate::snes::background::WindowMaskLogic;
use crate::snes::color_math::ColorMathSource;
use crate::snes::ppu::{remap, row_2bpp, signed16, Ppu};
use crate::snes::ppu_types::{Background, Matrix, Mode7Fill, VramIncMode};
use crate::snes::utils::{bit, bit_set};
use crate::snes::window::{Window, WindowRegion};

verus! {

/// The width and height of the small sprites for a size selection of OBSEL.
pub open spec fn small_sprite_size(s: int) -> (usize, usize) {
    if s <= 2 {
        (8, 8)
    } else if s <= 4 {
        (16, 16)
    } else if s == 5 {
        (32, 32)
    } else {
        (16, 32)
    }
}

/// The width and height of the large sprites for a size selection of OBSEL.
pub open spec fn large_sprite_size(s: int) -> (usize, usize) {
    if s == 0 {
        (16, 16)
    } else if s == 1 || s == 3 || s == 7 {
        (32, 32)
    } else if s == 6 {
        (32, 64)
    } else {
        (64, 64)
    }
}

/// The small and large sprite sizes for a size selection.
fn sprite_sizes(size_select: u8) -> (r: [(usize, usize); 2])
    requires
        size_select < 8,
    ensures
        r == [small_sprite_size(size_select as int), large_sprite_size(size_select as int)],
{
    let small = if size_select <= 2 {
        (8, 8)
    } else if size_select <= 4 {
        (16, 16)
    } else if size_select == 5 {
        (32, 32)
    } else {
        (16, 32)
    };
    let large = if size_select == 0 {
        (16, 16)
    } else if size_select == 1 || size_select == 3 || size_select == 7 {
        (32, 32)
    } else if size_select == 6 {
        (32, 64)
    } else {
        (64, 64)
    };
    [small, large]
}

/// A scroll value of mode 7: a 13-bit signed number from the written byte and the latch.
pub open spec fn m7_offset(value: u8, latch: u8) -> i16 {
    let w = value as int * 0x100 + latch as int;
    if (value / 16) % 2 == 0 {
        (w % 0x2000) as i16
    } else {
        (w % 0x2000 - 0x2000) as i16
    }
}

/// A background after a write to its horizontal (odd address) or vertical scroll
/// register, given the two previous values written.
pub open spec fn scrolled_background(addr: usize, value: u8, b: Background, prev_h: u32, prev_v: u32) -> Background {
    if addr % 2 == 1 {
        Background { h_off: ((value % 4) as int * 0x100 + (prev_v / 8) * 8 + prev_h % 8) as u32, ..b }
    } else {
        Background { v_off: ((value % 4) as int * 0x100 + prev_v) as u32, ..b }
    }
}

/// INIDISP: forced blanking and the brightness.
pub open spec fn display_control_effect(old: Ppu, new: Ppu, value: u8) -> bool {
    new == (Ppu { forced_blanking: bit_set(value, 7), brightness: (value % 16) as u32, ..old })
}

/// OBSEL: the name base address, the name select and the sprite sizes.
pub open spec fn object_select_effect(old: Ppu, new: Ppu, value: u8) -> bool {
    new == (Ppu {
        oam_name_addr: ((value % 4) as int * 0x2000) as usize,
        oam_name_select: (((value / 8) % 4) as int * 0x1000 + 0x1000) as usize,
        oam_sizes: [small_sprite_size((value / 32) as int), large_sprite_size((value / 32) as int)],
        ..old
    })
}

/// OAMADDL: the low byte of the word address of OAM.
pub open spec fn oam_addr_low_effect(old: Ppu, new: Ppu, value: u8) -> bool {
    new == (Ppu { oam_addr: ((old.oam_addr / 0x200) % 2 * 0x200 + 2 * value as int) as usize, ..old })
}

/// OAMADDH: the table bit of the address of OAM.
pub open spec fn oam_addr_high_effect(old: Ppu, new: Ppu, value: u8) -> bool {
    new == (Ppu { oam_addr: (old.oam_addr % 0x200 + 0x200 * (value % 2) as int) as usize, ..old })
}

/// BGnHOFS and BGnVOFS (the first two also M7HOFS and M7VOFS): the scroll of a
/// background, from the byte written and the two previous ones.
pub open spec fn scroll_effect(old: Ppu, new: Ppu, addr: usize, value: u8) -> bool {
    let n = (addr - 0x210D) / 2;
    &&& new.backgrounds@ == old.backgrounds@.update(
        n,
        scrolled_background(addr, value, old.backgrounds@[n], old.bg_h_off, old.bg_v_off),
    )
    &&& new.bg_h_off == if addr % 2 == 1 { value as u32 } else { old.bg_h_off }
    &&& new.bg_v_off == value as u32
    &&& new.m7_h_off == if addr == 0x210D { m7_offset(value, old.m7_latch) } else { old.m7_h_off }
    &&& new.m7_v_off == if addr == 0x210E { m7_offset(value, old.m7_latch) } else { old.m7_v_off }
    &&& new.m7_latch == if addr == 0x210D || addr == 0x210E { value } else { old.m7_latch }
    &&& new == (Ppu {
        backgrounds: new.backgrounds,
        bg_h_off: new.bg_h_off,
        bg_v_off: new.bg_v_off,
        m7_h_off: new.m7_h_off,
        m7_v_off: new.m7_v_off,
        m7_latch: new.m7_latch,
        ..old
    })
}

/// The VRAM address increment of a VMAIN value.
pub open spec fn increment_amount(value: u8) -> usize {
    if value % 4 == 0 {
        1
    } else if value % 4 == 1 {
        32
    } else {
        128
    }
}

/// VMAIN: the increment amount and mode, and the address remapping.
pub open spec fn vram_control_effect(old: Ppu, new: Ppu, value: u8) -> bool {
    new == (Ppu {
        vram_increment_amount: increment_amount(value),
        vram_increment_mode: if bit_set(value, 7) {
            VramIncMode::LowReadHighWrite
        } else {
            VramIncMode::HighReadLowWrite
        },
        vram_remap: ((value / 4) % 4) as u32,
        ..old
    })
}

/// The PPU with a new VRAM address and the read latches loaded from it.
pub open spec fn vram_addr_set(old: Ppu, new: Ppu, a: int) -> bool {
    let r = remap(a, old.vram_remap);
    new == (Ppu {
        vram_addr: a as usize,
        vram_latch_low: old.vram@[2 * r],
        vram_latch_high: old.vram@[2 * r + 1],
        ..old
    })
}

/// VMADDL: the low byte of the VRAM word address.
pub open spec fn vram_addr_low_effect(old: Ppu, new: Ppu, value: u8) -> bool {
    vram_addr_set(old, new, (old.vram_addr / 0x100) % 0x80 * 0x100 + value as int)
}

/// VMADDH: the high byte of the VRAM word address, within 15 bits.
pub open spec fn vram_addr_high_effect(old: Ppu, new: Ppu, value: u8) -> bool {
    vram_addr_set(old, new, old.vram_addr % 0x100 + (value % 0x80) as int * 0x100)
}

/// VMDATAL (`high` false) and VMDATAH: one byte of the word at the remapped address
/// is written, its decoded row is refreshed, and the address moves on after the byte
/// that the increment mode names.
pub open spec fn vram_data_effect(old: Ppu, new: Ppu, high: bool, value: u8) -> bool {
    let r = remap(old.vram_addr as int, old.vram_remap);
    let v = old.vram@.update(if high { 2 * r + 1 } else { 2 * r }, value);
    let moves = if high {
        old.vram_increment_mode is LowReadHighWrite
    } else {
        old.vram_increment_mode is HighReadLowWrite
    };
    &&& new.vram@ == v
    &&& new.vram_cache_2bpp@ == old.vram_cache_2bpp@.update(r, row_2bpp(v[2 * r], v[2 * r + 1]))
    &&& new == (Ppu {
        vram: new.vram,
        vram_cache_2bpp: new.vram_cache_2bpp,
        vram_addr: if moves {
            ((old.vram_addr + old.vram_increment_amount) % 0x10000) as usize
        } else {
            old.vram_addr
        },
        ..old
    })
}

/// M7SEL: repetition, fill and flipping of mode 7.
pub open spec fn m7_select_effect(old: Ppu, new: Ppu, value: u8) -> bool {
    new == (Ppu {
        m7_repeat: value < 0x80,
        m7_fill: if bit_set(value, 6) { Mode7Fill::Character } else { Mode7Fill::Transparent },
        m7_flip_h: bit_set(value, 0),
        m7_flip_v: bit_set(value, 1),
        ..old
    })
}

/// A 13-bit signed number from the low 13 bits of a word.
pub open spec fn signed13(v: int) -> i16 {
    if (v / 0x1000) % 2 == 1 {
        (v % 0x2000 - 0x2000) as i16
    } else {
        (v % 0x2000) as i16
    }
}

/// The matrix after the word `v` is written to one of M7A to M7Y.
pub open spec fn matrix_write(m: Matrix, addr: usize, v: u16) -> Matrix {
    if addr == 0x211B {
        Matrix { a: v, ..m }
    } else if addr == 0x211C {
        Matrix { b: v, ..m }
    } else if addr == 0x211D {
        Matrix { c: v, ..m }
    } else if addr == 0x211E {
        Matrix { d: v, ..m }
    } else if addr == 0x211F {
        Matrix { center_x: signed13(v as int), ..m }
    } else {
        Matrix { center_y: signed13(v as int), ..m }
    }
}

/// M7A to M7Y: a matrix word from the byte written and the previous one, and the
/// product of A and the low byte of B.
pub open spec fn matrix_effect(old: Ppu, new: Ppu, addr: usize, value: u8) -> bool {
    let m = matrix_write(old.matrix, addr, (value as int * 0x100 + old.multi_latch as int) as u16);
    new == (Ppu {
        matrix: m,
        multi_latch: value,
        multi_res: (signed16(m.a) * (m.b % 0x100)) as i32,
        ..old
    })
}

/// CGADD: the CGRAM address, which also forgets a pending low byte.
pub open spec fn cgram_addr_effect(old: Ppu, new: Ppu, value: u8) -> bool {
    new == (Ppu { cgram_addr: value as usize, cgram_latch: None, ..old })
}

/// CGDATA: the first byte waits in the latch; the second writes the color word and
/// moves the address on.
pub open spec fn cgram_data_effect(old: Ppu, new: Ppu, value: u8) -> bool {
    &&& new.cgram@ == match old.cgram_latch {
        Some(low) => old.cgram@.update(old.cgram_addr as int, (value as int * 0x100 + low as int) as u16),
        None => old.cgram@,
    }
    &&& new.cgram_latch == match old.cgram_latch {
        Some(_) => None,
        None => Some(value),
    }
    &&& new.cgram_addr == match old.cgram_latch {
        Some(_) => ((old.cgram_addr + 1) % 0x100) as usize,
        None => old.cgram_addr,
    }
    &&& new == (Ppu { cgram: new.cgram, cgram_latch: new.cgram_latch, cgram_addr: new.cgram_addr, ..old })
}

/// Window `i` after `value` is written to one of WOBJSEL, WH0 to WH3.
pub open spec fn window_write(addr: usize, value: u8, i: int, w: Window) -> Window {
    if addr == 0x2125 {
        Window {
            invert_sprite: bit_set(value, 2 * i),
            enabled_sprite: bit_set(value, 2 * i + 1),
            invert_color: bit_set(value, 4 + 2 * i),
            enabled_color: bit_set(value, 5 + 2 * i),
            ..w
        }
    } else if addr == 0x2126 + 2 * i {
        Window { left: value as usize, ..w }
    } else if addr == 0x2127 + 2 * i {
        Window { right: value as usize, ..w }
    } else {
        w
    }
}

/// WOBJSEL, WH0 to WH3: the sprite and color settings and the edges of the windows.
pub open spec fn window_effect(old: Ppu, new: Ppu, addr: usize, value: u8) -> bool {
    &&& new.windows@ == Seq::new(2, |i: int| window_write(addr, value, i, old.windows@[i]))
    &&& new == (Ppu { windows: new.windows, ..old })
}

/// WOBJLOG: the mask logic of the color window and of the sprite window.
pub open spec fn window_logic_effect(old: Ppu, new: Ppu, value: u8) -> bool {
    new == (Ppu {
        color_window_logic: WindowMaskLogic::from_bits(value / 4),
        sprite_window_logic: WindowMaskLogic::from_bits(value),
        ..old
    })
}

/// CGWSEL: direct color, the source of color math and its window regions.
pub open spec fn color_math_control_effect(old: Ppu, new: Ppu, value: u8) -> bool {
    new == (Ppu {
        direct_color: bit_set(value, 0),
        color_math_src: if bit_set(value, 1) { ColorMathSource::Subscreen } else { ColorMathSource::Fixed },
        color_window_sub_region: WindowRegion::from_bits(value / 16),
        color_window_main_region: WindowRegion::from_bits(value / 64),
        ..old
    })
}

/// COLDATA: the intensity goes to each of the red, green and blue components whose
/// bit (5, 6, 7) is set.
pub open spec fn fixed_color_effect(old: Ppu, new: Ppu, value: u8) -> bool {
    let v = (value % 32) as u16;
    new == (Ppu {
        fixed_color: [
            if bit_set(value, 5) { v } else { old.fixed_color[0] },
            if bit_set(value, 6) { v } else { old.fixed_color[1] },
            if bit_set(value, 7) { v } else { old.fixed_color[2] },
        ],
        ..old
    })
}

/// SETINI: overscan.
pub open spec fn screen_init_effect(old: Ppu, new: Ppu, value: u8) -> bool {
    new == (Ppu { overscan: bit_set(value, 2), ..old })
}

/// A background after a write to one of its scroll registers.
fn scroll_background(addr: usize, value: u8, b: Background, prev_h: u32, prev_v: u32) -> (r: Background)
    requires
        prev_h < 0x100,
        prev_v < 0x100,
    ensures
        r == scrolled_background(addr, value, b, prev_h, prev_v),
{
    let mut b = b;
    if addr % 2 == 1 {
        // Horizontal offset
        b.h_off = (value % 4) as u32 * 0x100 + (prev_v / 8) * 8 + prev_h % 8;
    } else {
        // Vertical offset
        b.v_off = (value % 4) as u32 * 0x100 + prev_v;
    }
    b
}

/// The mode 7 offset from the written byte and the latch.
fn m7_offset_of(value: u8, latch: u8) -> (r: i16)
    ensures
        r == m7_offset(value, latch),
{
    let w = (value as u16 * 0x100 + latch as u16) % 0x2000;
    if (value / 16) % 2 == 0 {
        w as i16
    } else {
        (w as i16) - 0x2000
    }
}

/// The scroll latches and mode 7 offsets after a scroll register is written.
fn scroll_latches(addr: usize, value: u8, prev_h: u32, m7_h: i16, m7_v: i16, m7_latch: u8) -> (r: (u32, i16, i16, u8))
    ensures
        r.0 == if addr % 2 == 1 { value as u32 } else { prev_h },
        r.1 == if addr == 0x210D { m7_offset(value, m7_latch) } else { m7_h },
        r.2 == if addr == 0x210E { m7_offset(value, m7_latch) } else { m7_v },
        r.3 == if addr == 0x210D || addr == 0x210E { value } else { m7_latch },
{
    let v = m7_offset_of(value, m7_latch);
    let h = if addr % 2 == 1 { value as u32 } else { prev_h };
    if addr == 0x210D {
        (h, v, m7_v, value)
    } else if addr == 0x210E {
        (h, m7_h, v, value)
    } else {
        (h, m7_h, m7_v, m7_latch)
    }
}

/// Replace background `n`.
fn replace_background(bgs: &mut Vec<Background>, n: usize, b: Background)
    requires
        n < old(bgs)@.len(),
    ensures
        final(bgs)@ == old(bgs)@.update(n as int, b),
{
    bgs.set(n, b);
}

/// The increment amount of a VMAIN value.
fn increment_amount_of(value: u8) -> (r: usize)
    ensures
        r == increment_amount(value),
{
    if value % 4 == 0 {
        1
    } else if value % 4 == 1 {
        32
    } else {
        128
    }
}

/// The increment mode of a VMAIN value.
fn increment_mode_of(value: u8) -> (r: VramIncMode)
    ensures
        r == (if bit_set(value, 7) { VramIncMode::LowReadHighWrite } else { VramIncMode::HighReadLowWrite }),
{
    if bit(value, 7) {
        VramIncMode::LowReadHighWrite
    } else {
        VramIncMode::HighReadLowWrite
    }
}

/// The mode 7 fill of an M7SEL value.
fn m7_fill_of(value: u8) -> (r: Mode7Fill)
    ensures
        r == (if bit_set(value, 6) { Mode7Fill::Character } else { Mode7Fill::Transparent }),
{
    if bit(value, 6) {
        Mode7Fill::Character
    } else {
        Mode7Fill::Transparent
    }
}

/// The signed 13-bit value of the low 13 bits of a word.
fn signed13_of(v: u16) -> (r: i16)
    ensures
        r == signed13(v as int),
{
    let low = (v % 0x2000) as i16;
    // Keep it as a 13 bit signed number
    if (v / 0x1000) % 2 == 1 {
        low - 0x2000
    } else {
        low
    }
}

/// The matrix after a word is written to one of its registers.
fn matrix_written(m: Matrix, addr: usize, v: u16) -> (r: Matrix)
    ensures
        r == matrix_write(m, addr, v),
{
    let mut m = m;
    if addr == 0x211B {
        m.a = v;
    } else if addr == 0x211C {
        m.b = v;
    } else if addr == 0x211D {
        m.c = v;
    } else if addr == 0x211E {
        m.d = v;
    } else if addr == 0x211F {
        m.center_x = signed13_of(v);
    } else {
        m.center_y = signed13_of(v);
    }
    m
}

/// The CGRAM after a CGDATA write, with the new address and latch.
fn write_cgram_data(cgram: &mut Vec<u16>, addr: usize, latch: Option<u8>, value: u8) -> (r: (usize, Option<u8>))
    requires
        old(cgram)@.len() == 0x100,
        addr < 0x100,
    ensures
        final(cgram)@ == match latch {
            Some(low) => old(cgram)@.update(addr as int, (value as int * 0x100 + low as int) as u16),
            None => old(cgram)@,
        },
        r.1 == match latch {
            Some(_) => None,
            None => Some(value),
        },
        r.0 == match latch {
            Some(_) => ((addr + 1) % 0x100) as usize,
            None => addr,
        },
{
    match latch {
        Some(data) => {
            cgram.set(addr, value as u16 * 0x100 + data as u16);
            ((addr + 1) % cgram.len(), None)
        },
        None => (addr, Some(value)),
    }
}

/// Window `i` after a write to one of the window registers.
fn window_written(addr: usize, value: u8, i: usize, w: Window) -> (r: Window)
    requires
        i < 2,
    ensures
        r == window_write(addr, value, i as int, w),
{
    let mut w = w;
    if addr == 0x2125 {
        w.invert_sprite = bit(value, 2 * i);
        w.enabled_sprite = bit(value, 2 * i + 1);
        w.invert_color = bit(value, 4 + 2 * i);
        w.enabled_color = bit(value, 4 + 2 * i + 1);
    } else if addr == 0x2126 + 2 * i {
        w.left = value as usize;
    } else if addr == 0x2127 + 2 * i {
        w.right = value as usize;
    }
    w
}

/// Apply a register write to both windows.
fn write_each_window(windows: &mut Vec<Window>, addr: usize, value: u8)
    requires
        old(windows)@.len() == 2,
    ensures
        final(windows)@ == Seq::new(2, |i: int| window_write(addr, value, i, old(windows)@[i])),
{
    let w0 = window_written(addr, value, 0, windows[0]);
    windows.set(0, w0);
    let w1 = window_written(addr, value, 1, windows[1]);
    windows.set(1, w1);
    assert(windows@ =~= Seq::new(2, |i: int| window_write(addr, value, i, old(windows)@[i])));
}

/// The fixed color after a COLDATA write.
fn fixed_color_written(c: [u16; 3], value: u8) -> (r: [u16; 3])
    ensures
        r == [
            if bit_set(value, 5) { (value % 32) as u16 } else { c[0] },
            if bit_set(value, 6) { (value % 32) as u16 } else { c[1] },
            if bit_set(value, 7) { (value % 32) as u16 } else { c[2] },
        ],
{
    let v = (value % 32) as u16;
    [
        if bit(value, 5) { v } else { c[0] },
        if bit(value, 6) { v } else { c[1] },
        if bit(value, 7) { v } else { c[2] },
    ]
}

impl Ppu {
    /// INIDISP
    pub fn write_display_control(&mut self, value: u8)
        requires
            old(self).wf(),
        ensures
            display_control_effect(*old(self), *final(self), value),
            final(self).wf(),
    {
        self.forced_blanking = bit(value, 7);
        self.brightness = (value % 16) as u32;
    }

    /// OBSEL
    pub fn write_object_select(&mut self, value: u8)
        requires
            old(self).wf(),
        ensures
            object_select_effect(*old(self), *final(self), value),
            final(self).wf(),
    {
        self.oam_name_addr = (value % 4) as usize * 0x2000;
        self.oam_name_select = (((value / 8) % 4) as usize * 8 + 8) * 0x200;
        self.oam_sizes = sprite_sizes(value / 32);
    }

    /// OAMADDL
    pub fn write_oam_addr_low(&mut self, value: u8)
        requires
            old(self).wf(),
        ensures
            oam_addr_low_effect(*old(self), *final(self), value),
            final(self).wf(),
    {
        self.oam_addr = (self.oam_addr / 0x200) % 2 * 0x200 + 2 * value as usize;
    }

    /// OAMADDH
    pub fn write_oam_addr_high(&mut self, value: u8)
        requires
            old(self).wf(),
        ensures
            oam_addr_high_effect(*old(self), *final(self), value),
            final(self).wf(),
    {
        self.oam_addr = self.oam_addr % 0x200 + 0x200 * (value % 2) as usize;
    }

    /// BGnHOFS, BGnVOFS
    pub fn write_scroll(&mut self, addr: usize, value: u8)
        requires
            old(self).wf(),
            0x210D <= addr <= 0x2114,
        ensures
            scroll_effect(*old(self), *final(self), addr, value),
            final(self).wf(),
    {
        let n = (addr - 0x210D) / 2;
        let b = scroll_background(addr, value, self.backgrounds[n], self.bg_h_off, self.bg_v_off);
        let (h, m7_h, m7_v, m7_latch) = scroll_latches(
            addr,
            value,
            self.bg_h_off,
            self.m7_h_off,
            self.m7_v_off,
            self.m7_latch,
        );
        let mut bgs: Vec<Background> = Vec::new();
        std::mem::swap(&mut bgs, &mut self.backgrounds);
        replace_background(&mut bgs, n, b);
        self.backgrounds = bgs;
        self.bg_h_off = h;
        self.bg_v_off = value as u32;
        self.m7_h_off = m7_h;
        self.m7_v_off = m7_v;
        self.m7_latch = m7_latch;
    }

    /// VMAIN
    pub fn write_vram_control(&mut self, value: u8)
        requires
            old(self).wf(),
        ensures
            vram_control_effect(*old(self), *final(self), value),
            final(self).wf(),
    {
        self.vram_increment_amount = increment_amount_of(value);
        self.vram_increment_mode = increment_mode_of(value);
        self.vram_remap = ((value / 4) % 4) as u32;
    }

    /// VMADDL
    pub fn write_vram_addr_low(&mut self, value: u8)
        requires
            old(self).wf(),
        ensures
            vram_addr_low_effect(*old(self), *final(self), value),
            final(self).wf(),
    {
        self.vram_addr = (self.vram_addr / 0x100) % 0x80 * 0x100 + value as usize;
        self.refresh_vram_latch();
    }

    /// VMADDH
    pub fn write_vram_addr_high(&mut self, value: u8)
        requires
            old(self).wf(),
        ensures
            vram_addr_high_effect(*old(self), *final(self), value),
            final(self).wf(),
    {
        self.vram_addr = self.vram_addr % 0x100 + (value % 0x80) as usize * 0x100;
        self.refresh_vram_latch();
    }

    /// VMDATAL
    pub fn write_vram_data_low(&mut self, value: u8)
        requires
            old(self).wf(),
        ensures
            vram_data_effect(*old(self), *final(self), false, value),
            final(self).wf(),
    {
        let remapped_addr = self.remapped_vram_addr();
        // Write the low byte
        self.write_vram(2 * remapped_addr, value);
        if matches!(self.vram_increment_mode, VramIncMode::HighReadLowWrite) {
            self.inc_vram_addr();
        }
    }

    /// VMDATAH
    pub fn write_vram_data_high(&mut self, value: u8)
        requires
            old(self).wf(),
        ensures
            vram_data_effect(*old(self), *final(self), true, value),
            final(self).wf(),
    {
        let remapped_addr = self.remapped_vram_addr();
        // Write the high byte
        self.write_vram(2 * remapped_addr + 1, value);
        if matches!(self.vram_increment_mode, VramIncMode::LowReadHighWrite) {
            self.inc_vram_addr();
        }
    }

    /// M7SEL
    pub fn write_m7_select(&mut self, value: u8)
        requires
            old(self).wf(),
        ensures
            m7_select_effect(*old(self), *final(self), value),
            final(self).wf(),
    {
        self.m7_repeat = value < 0x80;
        self.m7_fill = m7_fill_of(value);
        self.m7_flip_h = bit(value, 0);
        self.m7_flip_v = bit(value, 1);
    }

    /// M7A, M7B, M7C, M7D, M7X, M7Y
    pub fn write_matrix(&mut self, addr: usize, value: u8)
        requires
            old(self).wf(),
            0x211B <= addr <= 0x2120,
        ensures
            matrix_effect(*old(self), *final(self), addr, value),
            final(self).wf(),
    {
        let v = value as u16 * 0x100 + self.multi_latch as u16;
        self.matrix = matrix_written(self.matrix, addr, v);
        self.multi_latch = value;
        self.refresh_multi_res();
    }

    /// CGADD
    pub fn write_cgram_addr(&mut self, value: u8)
        requires
            old(self).wf(),
        ensures
            cgram_addr_effect(*old(self), *final(self), value),
            final(self).wf(),
    {
        self.cgram_addr = value as usize;
        self.cgram_latch = None;
    }

    /// CGDATA
    pub fn write_cgram(&mut self, value: u8)
        requires
            old(self).wf(),
        ensures
            cgram_data_effect(*old(self), *final(self), value),
            final(self).wf(),
    {
        let mut cgram: Vec<u16> = Vec::new();
        std::mem::swap(&mut cgram, &mut self.cgram);
        let (addr, latch) = write_cgram_data(&mut cgram, self.cgram_addr, self.cgram_latch, value);
        self.cgram = cgram;
        self.cgram_addr = addr;
        self.cgram_latch = latch;
    }

    /// WOBJSEL, WH0, WH1, WH2, WH3
    pub fn write_window(&mut self, addr: usize, value: u8)
        requires
            old(self).wf(),
            0x2125 <= addr <= 0x2129,
        ensures
            window_effect(*old(self), *final(self), addr, value),
            final(self).wf(),
    {
        let mut windows: Vec<Window> = Vec::new();
        std::mem::swap(&mut windows, &mut self.windows);
        write_each_window(&mut windows, addr, value);
        self.windows = windows;
    }

    /// WOBJLOG
    pub fn write_window_logic(&mut self, value: u8)
        requires
            old(self).wf(),
        ensures
            window_logic_effect(*old(self), *final(self), value),
            final(self).wf(),
    {
        self.color_window_logic = WindowMaskLogic::from(value / 4);
        self.sprite_window_logic = WindowMaskLogic::from(value);
    }

    /// CGWSEL
    pub fn write_color_math_control(&mut self, value: u8)
        requires
            old(self).wf(),
        ensures
            color_math_control_effect(*old(self), *final(self), value),
            final(self).wf(),
    {
        self.direct_color = bit(value, 0);
        self.color_math_src = if bit(value, 1) { ColorMathSource::Subscreen } else { ColorMathSource::Fixed };
        self.color_window_sub_region = WindowRegion::from(value / 16);
        self.color_window_main_region = WindowRegion::from(value / 64);
    }

    /// COLDATA
    pub fn write_fixed_color(&mut self, value: u8)
        requires
            old(self).wf(),
        ensures
            fixed_color_effect(*old(self), *final(self), value),
            final(self).wf(),
    {
        self.fixed_color = fixed_color_written(self.fixed_color, value);
    }

    /// SETINI
    pub fn write_screen_init(&mut self, value: u8)
        requires
            old(self).wf(),
        ensures
            screen_init_effect(*old(self), *final(self), value),
            final(self).wf(),
    {
        self.overscan = bit(value, 2);
    }
}

} // verus!
