use vstd::prelude::*;

use crate::snes::background::WindowMaskLogic;
use crate::snes::color_math::ColorBlendMode;
use crate::snes::ppu::Ppu;
use crate::snes::ppu_types::Background;
use crate::snes::utils::{bit, bit_set, quad, quad_weight};

verus! {

/// The window settings of a background from its nibble `k` of the register value.
pub open spec fn bg_window_settings(b: Background, value: u8, k: int) -> Background {
    Background {
        window_invert: [bit_set(value, 4 * k), bit_set(value, 4 * k + 2), b.window_invert[2], b.window_invert[3]],
        window_enabled: [bit_set(value, 4 * k + 1), bit_set(value, 4 * k + 3), b.window_enabled[2], b.window_enabled[3]],
        ..b
    }
}

/// Background `i` after a write to one of the registers of sizes and addresses.
pub open spec fn bg_layout_write(addr: usize, value: u8, i: int, b: Background) -> Background {
    if addr == 0x2105 {
        Background { tile_size: if bit_set(value, i + 4) { 16 } else { 8 }, ..b }
    } else if addr == 0x2106 {
        Background { mosaic: bit_set(value, i), ..b }
    } else if 0x2107 <= addr <= 0x210A {
        if i == addr - 0x2107 {
            Background {
                num_horz_tilemaps: if bit_set(value, 0) { 2 } else { 1 },
                num_vert_tilemaps: if bit_set(value, 1) { 2 } else { 1 },
                tilemap_addr: ((value / 4) as int * 0x400) as usize,
                ..b
            }
        } else {
            b
        }
    } else {
        let first: int = if addr == 0x210B { 0 } else { 2 };
        if i == first {
            Background { chr_addr: ((value % 16) as int * 0x1000) as usize, ..b }
        } else if i == first + 1 {
            Background { chr_addr: ((value / 16) as int * 0x1000) as usize, ..b }
        } else {
            b
        }
    }
}

/// Background `i` after a write to one of the window registers.
pub open spec fn bg_window_write(addr: usize, value: u8, i: int, b: Background) -> Background {
    if addr == 0x2123 {
        if i < 2 { bg_window_settings(b, value, i) } else { b }
    } else if addr == 0x2124 {
        if i >= 2 { bg_window_settings(b, value, i - 2) } else { b }
    } else {
        Background { window_mask_logic: WindowMaskLogic::from_bits((value as int / quad_weight(i)) as u8), ..b }
    }
}

/// Background `i` after a write to one of the screen enable registers.
pub open spec fn bg_enable_write(addr: usize, value: u8, i: int, b: Background) -> Background {
    let on = bit_set(value, i);
    if addr == 0x212C {
        Background { main_screen_enable: on, ..b }
    } else if addr == 0x212D {
        Background { sub_screen_enable: on, ..b }
    } else if addr == 0x212E {
        Background { windows_enabled_main: on, ..b }
    } else if addr == 0x212F {
        Background { windows_enabled_sub: on, ..b }
    } else {
        Background { color_math_enable: on, ..b }
    }
}

/// Background `i` after `value` is written to the background register at `addr`.
pub open spec fn bg_write(addr: usize, value: u8, i: int, b: Background) -> Background {
    if 0x2105 <= addr <= 0x210C {
        bg_layout_write(addr, value, i, b)
    } else if addr == 0x2123 || addr == 0x2124 || addr == 0x212A {
        bg_window_write(addr, value, i, b)
    } else {
        bg_enable_write(addr, value, i, b)
    }
}

/// The backgrounds after `value` is written to the background register at `addr`.
pub open spec fn bgs_written(old: Ppu, new: Ppu, addr: usize, value: u8) -> bool {
    new.backgrounds@ == Seq::new(4, |i: int| bg_write(addr, value, i, old.backgrounds@[i]))
}

/// The background registers that set nothing but fields of the backgrounds.
pub open spec fn is_bg_field_register(addr: usize) -> bool {
    ||| 0x2107 <= addr <= 0x210C
    ||| addr == 0x2123 || addr == 0x2124 || addr == 0x212A || addr == 0x212E || addr == 0x212F
}

/// Background `i` after a write to one of the registers of sizes and addresses.
fn bg_layout_written(addr: usize, value: u8, i: usize, b: Background) -> (r: Background)
    requires
        i < 4,
        0x2105 <= addr <= 0x210C,
    ensures
        r == bg_layout_write(addr, value, i as int, b),
{
    let mut b = b;
    if addr == 0x2105 {
        b.tile_size = if bit(value, i + 4) { 16 } else { 8 };
    } else if addr == 0x2106 {
        b.mosaic = bit(value, i);
    } else if addr <= 0x210A {
        if i == addr - 0x2107 {
            b.num_horz_tilemaps = if !bit(value, 0) { 1 } else { 2 };
            b.num_vert_tilemaps = if !bit(value, 1) { 1 } else { 2 };
            b.tilemap_addr = (value / 4) as usize * 0x400;
        }
    } else {
        let first: usize = if addr == 0x210B { 0 } else { 2 };
        if i == first {
            b.chr_addr = (value % 16) as usize * 0x1000;
        } else if i == first + 1 {
            b.chr_addr = (value / 16) as usize * 0x1000;
        }
    }
    b
}

/// Background `i` after a write to one of the window registers.
fn bg_window_written(addr: usize, value: u8, i: usize, b: Background) -> (r: Background)
    requires
        i < 4,
        addr == 0x2123 || addr == 0x2124 || addr == 0x212A,
    ensures
        r == bg_window_write(addr, value, i as int, b),
{
    let mut b = b;
    if addr == 0x212A {
        b.window_mask_logic = WindowMaskLogic::from(value / quad(i));
    } else if (addr == 0x2123 && i < 2) || (addr == 0x2124 && i >= 2) {
        let k = if i < 2 { i } else { i - 2 };
        b.window_invert = [bit(value, 4 * k), bit(value, 4 * k + 2), b.window_invert[2], b.window_invert[3]];
        b.window_enabled = [bit(value, 4 * k + 1), bit(value, 4 * k + 3), b.window_enabled[2], b.window_enabled[3]];
    }
    b
}

/// Background `i` after a write to one of the screen enable registers.
fn bg_enable_written(addr: usize, value: u8, i: usize, b: Background) -> (r: Background)
    requires
        i < 4,
    ensures
        r == bg_enable_write(addr, value, i as int, b),
{
    let mut b = b;
    let on = bit(value, i);
    if addr == 0x212C {
        b.main_screen_enable = on;
    } else if addr == 0x212D {
        b.sub_screen_enable = on;
    } else if addr == 0x212E {
        b.windows_enabled_main = on;
    } else if addr == 0x212F {
        b.windows_enabled_sub = on;
    } else {
        b.color_math_enable = on;
    }
    b
}

/// Background `i` after `value` is written to the background register at `addr`.
fn bg_written(addr: usize, value: u8, i: usize, b: Background) -> (r: Background)
    requires
        i < 4,
    ensures
        r == bg_write(addr, value, i as int, b),
{
    if 0x2105 <= addr && addr <= 0x210C {
        bg_layout_written(addr, value, i, b)
    } else if addr == 0x2123 || addr == 0x2124 || addr == 0x212A {
        bg_window_written(addr, value, i, b)
    } else {
        bg_enable_written(addr, value, i, b)
    }
}

/// Apply a register write to each of the four backgrounds.
fn write_each_background(bgs: &mut Vec<Background>, addr: usize, value: u8)
    requires
        old(bgs)@.len() == 4,
    ensures
        final(bgs)@ == Seq::new(4, |i: int| bg_write(addr, value, i, old(bgs)@[i])),
{
    let mut i: usize = 0;
    while i < 4
        invariant
            i <= 4,
            bgs@.len() == 4,
            forall|j: int|
                0 <= j < 4 ==> #[trigger] bgs@[j] == if j < i {
                    bg_write(addr, value, j, old(bgs)@[j])
                } else {
                    old(bgs)@[j]
                },
        decreases 4 - i,
    {
        let b = bg_written(addr, value, i, bgs[i]);
        bgs.set(i, b);
        i = i + 1;
    }
    assert(bgs@ =~= Seq::new(4, |i: int| bg_write(addr, value, i, old(bgs)@[i])));
}

/// BGMODE.
pub open spec fn bg_mode_effect(old: Ppu, new: Ppu, value: u8) -> bool {
    &&& bgs_written(old, new, 0x2105, value)
    &&& new == (Ppu {
        backgrounds: new.backgrounds,
        bg3_prio: bit_set(value, 3),
        bg_mode: (value % 8) as u32,
        ..old
    })
}

/// MOSAIC.
pub open spec fn mosaic_effect(old: Ppu, new: Ppu, value: u8) -> bool {
    &&& bgs_written(old, new, 0x2106, value)
    &&& new == (Ppu {
        backgrounds: new.backgrounds,
        mosaic_size: (value / 16 + 1) as usize,
        ..old
    })
}

/// A background register that sets fields of the backgrounds alone.
pub open spec fn bg_fields_effect(old: Ppu, new: Ppu, addr: usize, value: u8) -> bool {
    &&& bgs_written(old, new, addr, value)
    &&& new == (Ppu {
        backgrounds: new.backgrounds,
        ..old
    })
}

/// TM.
pub open spec fn main_screen_effect(old: Ppu, new: Ppu, value: u8) -> bool {
    &&& bgs_written(old, new, 0x212C, value)
    &&& new == (Ppu {
        backgrounds: new.backgrounds,
        obj_main_enable: bit_set(value, 4),
        ..old
    })
}

/// TS.
pub open spec fn sub_screen_effect(old: Ppu, new: Ppu, value: u8) -> bool {
    &&& bgs_written(old, new, 0x212D, value)
    &&& new == (Ppu {
        backgrounds: new.backgrounds,
        obj_subscreen_enable: bit_set(value, 4),
        ..old
    })
}

/// CGADSUB.
pub open spec fn color_math_designation_effect(old: Ppu, new: Ppu, value: u8) -> bool {
    &&& bgs_written(old, new, 0x2131, value)
    &&& new == (Ppu {
        backgrounds: new.backgrounds,
        color_math_enable_obj: bit_set(value, 4),
        color_math_enable_backdrop: bit_set(value, 5),
        color_blend_mode: ColorBlendMode::from_bits(value / 64),
        ..old
    })
}

impl Ppu {
    /// BGMODE: the tile sizes, the priority of BG3 and the background mode.
    pub fn write_bg_mode(&mut self, value: u8)
        requires
            old(self).wf(),
        ensures
            bg_mode_effect(*old(self), *final(self), value),
            final(self).wf(),
    {
        let mut bgs: Vec<Background> = Vec::new();
        std::mem::swap(&mut bgs, &mut self.backgrounds);
        write_each_background(&mut bgs, 0x2105, value);
        self.backgrounds = bgs;
        self.bg3_prio = bit(value, 3);
        self.bg_mode = (value % 8) as u32;
    }

    /// MOSAIC: the mosaic flags and the mosaic size.
    pub fn write_mosaic(&mut self, value: u8)
        requires
            old(self).wf(),
        ensures
            mosaic_effect(*old(self), *final(self), value),
            final(self).wf(),
    {
        let mut bgs: Vec<Background> = Vec::new();
        std::mem::swap(&mut bgs, &mut self.backgrounds);
        write_each_background(&mut bgs, 0x2106, value);
        self.backgrounds = bgs;
        self.mosaic_size = (value / 16) as usize + 1;
    }

    /// A register that sets fields of the backgrounds alone.
    pub fn write_bg_fields(&mut self, addr: usize, value: u8)
        requires
            old(self).wf(),
            is_bg_field_register(addr),
        ensures
            bg_fields_effect(*old(self), *final(self), addr, value),
            final(self).wf(),
    {
        let mut bgs: Vec<Background> = Vec::new();
        std::mem::swap(&mut bgs, &mut self.backgrounds);
        write_each_background(&mut bgs, addr, value);
        self.backgrounds = bgs;
    }

    /// TM: the layers on the main screen.
    pub fn write_main_screen(&mut self, value: u8)
        requires
            old(self).wf(),
        ensures
            main_screen_effect(*old(self), *final(self), value),
            final(self).wf(),
    {
        let mut bgs: Vec<Background> = Vec::new();
        std::mem::swap(&mut bgs, &mut self.backgrounds);
        write_each_background(&mut bgs, 0x212C, value);
        self.backgrounds = bgs;
        self.obj_main_enable = bit(value, 4);
    }

    /// TS: the layers on the subscreen.
    pub fn write_sub_screen(&mut self, value: u8)
        requires
            old(self).wf(),
        ensures
            sub_screen_effect(*old(self), *final(self), value),
            final(self).wf(),
    {
        let mut bgs: Vec<Background> = Vec::new();
        std::mem::swap(&mut bgs, &mut self.backgrounds);
        write_each_background(&mut bgs, 0x212D, value);
        self.backgrounds = bgs;
        self.obj_subscreen_enable = bit(value, 4);
    }

    /// CGADSUB: the layers that color math applies to, and its mode.
    pub fn write_color_math_designation(&mut self, value: u8)
        requires
            old(self).wf(),
        ensures
            color_math_designation_effect(*old(self), *final(self), value),
            final(self).wf(),
    {
        let mut bgs: Vec<Background> = Vec::new();
        std::mem::swap(&mut bgs, &mut self.backgrounds);
        write_each_background(&mut bgs, 0x2131, value);
        self.backgrounds = bgs;
        self.color_math_enable_obj = bit(value, 4);
        self.color_math_enable_backdrop = bit(value, 5);
        self.color_blend_mode = ColorBlendMode::from(value / 64);
    }
}

} // verus!
