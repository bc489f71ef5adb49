use vstd::prelude::*;

use crate::snes::background::WindowMaskLogic;
use crate::snes::color_math::{ColorBlendMode, ColorMathSource};
use crate::snes::ppu_types::{Background, Matrix, Mode7Fill, Sprite, VramIncMode};
use crate::snes::utils::{color_of, rgb_to_color};
use crate::snes::window::{Window, WindowRegion};

verus! {

/// Dots per scanline.
pub const PIXELS_PER_SCANLINE: usize = 341;

/// Scanlines per frame.
pub const SCANLINES: usize = 262;

/// The picture processing unit: its registers, VRAM, CGRAM and OAM.
pub struct Ppu {
    /// VBlank flag
    pub vblank: bool,
    pub forced_blanking: bool,
    pub brightness: u32,
    pub bg_mode: u32,
    pub bg3_prio: bool,
    pub backgrounds: Vec<Background>,
    pub mosaic_size: usize,
    /// Background H off latch
    pub bg_h_off: u32,
    /// Background V off latch
    pub bg_v_off: u32,
    pub obj_main_enable: bool,
    pub obj_subscreen_enable: bool,
    pub vram_increment_amount: usize,
    pub vram_increment_mode: VramIncMode,
    pub vram_addr: usize,
    pub vram_remap: u32,
    pub vram: Vec<u8>,
    /// Cache of VRAM decoded in 2BPP format: one row of eight pixels per word
    pub vram_cache_2bpp: Vec<[u8; 8]>,
    pub vram_latch_low: u8,
    pub vram_latch_high: u8,
    pub cgram: Vec<u16>,
    pub cgram_addr: usize,
    pub cgram_latch: Option<u8>,
    /// The master clock position within the frame
    pub dot: usize,
    pub oam_sizes: [(usize, usize); 2],
    /// Internal OAM address
    pub oam_addr: usize,
    pub oam_name_addr: usize,
    pub oam_name_select: usize,
    pub oam_latch: u8,
    pub oam_sprites: Vec<Sprite>,
    pub color_blend_mode: ColorBlendMode,
    pub color_math_enable_backdrop: bool,
    pub color_math_enable_obj: bool,
    /// RGB format
    pub fixed_color: [u16; 3],
    pub color_math_src: ColorMathSource,
    pub color_window_main_region: WindowRegion,
    pub color_window_sub_region: WindowRegion,
    pub windows: Vec<Window>,
    pub color_window_logic: WindowMaskLogic,
    pub sprite_window_logic: WindowMaskLogic,
    pub direct_color: bool,
    pub overscan: bool,
    /// The matrix values (a, b, c, and d), some of which (a, b) are also used for the
    /// multiplication result
    pub matrix: Matrix,
    /// Mode 7 horizontal offset
    pub m7_h_off: i16,
    /// Mode 7 vertical offset
    pub m7_v_off: i16,
    /// Mode 7 latch
    pub m7_latch: u8,
    /// Mode 7 tilemap repeat
    pub m7_repeat: bool,
    /// Mode 7 tilemap fill (if not repeating)
    pub m7_fill: Mode7Fill,
    /// Mode 7 flip horizontal
    pub m7_flip_h: bool,
    /// Mode 7 flip vertical
    pub m7_flip_v: bool,
    /// Multiplication latch
    pub multi_latch: u8,
    /// Multiplication result
    pub multi_res: i32,
    /// Vertical count of the current mosaic block
    pub mosaic_v_latch: usize,
    /// Interlace field, toggled every frame
    pub interlace_field: bool,
    /// Last latched horizontal dot position
    pub h_latch: usize,
    /// Last latched vertical dot position
    pub v_latch: usize,
    /// Whether the next counter read returns the high bit
    pub ophct_latch: bool,
}

/// The position of a dot: the visible picture starts 22 dots (88 master clocks) into
/// the frame, and the subtraction wraps around the machine word.
pub open spec fn xy_of_dot(dot: usize) -> (usize, usize) {
    let t = vstd::wrapping::usize_specs::wrapping_sub((dot / 4) as usize, 22);
    (t % PIXELS_PER_SCANLINE, t / PIXELS_PER_SCANLINE)
}

/// The number of master clocks in a frame.
pub open spec fn frame_dots() -> int {
    4 * (PIXELS_PER_SCANLINE * SCANLINES) as int
}

/// Pixel `i` (0 leftmost) of a 2bpp tile row given by its two bitplane bytes.
pub open spec fn pixel_2bpp(low: u8, high: u8, i: u8) -> u8 {
    (((low >> ((7 - i) as u8)) % 2) + 2 * ((high >> ((7 - i) as u8)) % 2)) as u8
}

/// A decoded 2bpp tile row.
pub open spec fn row_2bpp(low: u8, high: u8) -> [u8; 8] {
    [
        pixel_2bpp(low, high, 0),
        pixel_2bpp(low, high, 1),
        pixel_2bpp(low, high, 2),
        pixel_2bpp(low, high, 3),
        pixel_2bpp(low, high, 4),
        pixel_2bpp(low, high, 5),
        pixel_2bpp(low, high, 6),
        pixel_2bpp(low, high, 7),
    ]
}

/// The VRAM word address after the address remapping mode is applied (rotating the
/// low 8, 9 or 10 bits left by three for the 2, 4 and 8 bpp modes), within 15 bits.
pub open spec fn remap(a: int, mode: u32) -> int {
    let r = if mode == 0 {
        a
    } else if mode == 1 {
        (a / 0x100) * 0x100 + (a / 0x20) % 8 + (a % 0x20) * 8
    } else if mode == 2 {
        (a / 0x200) * 0x200 + (a / 0x40) % 8 + (a % 0x40) * 8
    } else {
        (a / 0x400) * 0x400 + (a / 0x80) % 8 + (a % 0x80) * 8
    };
    r % 0x8000
}

/// The VRAM address remappings only rotate bits within the low byte (mode 1), 9 bits
/// (mode 2) or 10 bits (mode 3) of the word address: no two word addresses are mapped
/// to the same word, and mode 0 maps every address to itself.
pub proof fn lemma_remap_one_to_one(a: int, b: int, mode: u32)
    requires
        0 <= a < 0x8000,
        0 <= b < 0x8000,
        remap(a, mode) == remap(b, mode),
    ensures
        a == b,
        remap(a, 0) == a,
{
    if mode == 1 {
        lemma_rotated_parts_1(a);
        lemma_rotated_parts_1(b);
    } else if mode == 2 {
        lemma_rotated_parts_2(a);
        lemma_rotated_parts_2(b);
    } else if mode != 0 {
        lemma_rotated_parts_3(a);
        lemma_rotated_parts_3(b);
    }
}

/// The parts of an address rotated in remapping mode 1: the rotated address is below
/// 0x8000 and gives back the block, the row and the column.
proof fn lemma_rotated_parts_1(a: int)
    requires
        0 <= a < 0x8000,
    ensures
        ({
            let r = (a / 0x100) * 0x100 + (a / 0x20) % 8 + (a % 0x20) * 8;
            &&& remap(a, 1) == r
            &&& r / 0x100 == a / 0x100
            &&& r % 8 == (a / 0x20) % 8
            &&& (r % 0x100) / 8 == a % 0x20
            &&& a == (a / 0x100) * 0x100 + ((a / 0x20) % 8) * 0x20 + a % 0x20
        }),
{
    let r = (a / 0x100) * 0x100 + (a / 0x20) % 8 + (a % 0x20) * 8;
    assert(0 <= r < 0x8000);
}

/// The parts of an address rotated in remapping mode 2: the rotated address is below
/// 0x8000 and gives back the block, the row and the column.
proof fn lemma_rotated_parts_2(a: int)
    requires
        0 <= a < 0x8000,
    ensures
        ({
            let r = (a / 0x200) * 0x200 + (a / 0x40) % 8 + (a % 0x40) * 8;
            &&& remap(a, 2) == r
            &&& r / 0x200 == a / 0x200
            &&& r % 8 == (a / 0x40) % 8
            &&& (r % 0x200) / 8 == a % 0x40
            &&& a == (a / 0x200) * 0x200 + ((a / 0x40) % 8) * 0x40 + a % 0x40
        }),
{
    let r = (a / 0x200) * 0x200 + (a / 0x40) % 8 + (a % 0x40) * 8;
    assert(0 <= r < 0x8000);
}

/// The parts of an address rotated in remapping mode 3: the rotated address is below
/// 0x8000 and gives back the block, the row and the column.
proof fn lemma_rotated_parts_3(a: int)
    requires
        0 <= a < 0x8000,
    ensures
        ({
            let r = (a / 0x400) * 0x400 + (a / 0x80) % 8 + (a % 0x80) * 8;
            &&& remap(a, 3) == r
            &&& r / 0x400 == a / 0x400
            &&& r % 8 == (a / 0x80) % 8
            &&& (r % 0x400) / 8 == a % 0x80
            &&& a == (a / 0x400) * 0x400 + ((a / 0x80) % 8) * 0x80 + a % 0x80
        }),
{
    let r = (a / 0x400) * 0x400 + (a / 0x80) % 8 + (a % 0x80) * 8;
    assert(0 <= r < 0x8000);
}

/// The signed value of a 16-bit two's complement number.
pub open spec fn signed16(v: u16) -> int {
    if v < 0x8000 { v as int } else { v - 0x10000 }
}

proof fn lemma_remap_bits(a: usize)
    requires
        a < 0x10000,
    ensures
        (a & 0xFF00) + ((a >> 5) & 0x07) + ((a << 3) & 0xF8) == (a / 0x100) * 0x100 + (a / 0x20) % 8 + (a % 0x20) * 8,
        (a & 0xFE00) + ((a >> 6) & 0x07) + ((a << 3) & 0x01F8) == (a / 0x200) * 0x200 + (a / 0x40) % 8 + (a % 0x40) * 8,
        (a & 0xFC00) + ((a >> 7) & 0x07) + ((a << 3) & 0x03F8) == (a / 0x400) * 0x400 + (a / 0x80) % 8 + (a % 0x80) * 8,
        (a & 0xFF00) + ((a >> 5) & 0x07) + ((a << 3) & 0xF8) < 0x10000,
        (a & 0xFE00) + ((a >> 6) & 0x07) + ((a << 3) & 0x01F8) < 0x10000,
        (a & 0xFC00) + ((a >> 7) & 0x07) + ((a << 3) & 0x03F8) < 0x10000,
{
    assert(a & 0xFF00 == (a / 0x100) * 0x100 && (a >> 5) & 0x07 == (a / 0x20) % 8 && (a << 3) & 0xF8 == (a % 0x20) * 8) by (bit_vector)
        requires
            a < 0x10000,
    ;
    assert(a & 0xFE00 == (a / 0x200) * 0x200 && (a >> 6) & 0x07 == (a / 0x40) % 8 && (a << 3) & 0x01F8 == (a % 0x40) * 8) by (bit_vector)
        requires
            a < 0x10000,
    ;
    assert(a & 0xFC00 == (a / 0x400) * 0x400 && (a >> 7) & 0x07 == (a / 0x80) % 8 && (a << 3) & 0x03F8 == (a % 0x80) * 8) by (bit_vector)
        requires
            a < 0x10000,
    ;
}

proof fn lemma_low_15(r: usize)
    ensures
        r & 0x7FFF == r % 0x8000,
{
    assert(r & 0x7FFF == r % 0x8000) by (bit_vector);
}

/// A vector of `n` copies of `v`.
pub fn filled<T: Copy>(n: usize, v: T) -> (r: Vec<T>)
    ensures
        r@ == Seq::new(n as nat, |i: int| v),
{
    let mut r: Vec<T> = Vec::new();
    let mut i: usize = 0;
    while i < n
        invariant
            i <= n,
            r@ == Seq::new(i as nat, |k: int| v),
        decreases n - i,
    {
        r.push(v);
        i = i + 1;
        assert(r@ =~= Seq::new(i as nat, |k: int| v));
    }
    r
}

impl Ppu {
    /// The sizes of the memories and the ranges of the registers.
    pub open spec fn wf(self) -> bool {
        &&& self.backgrounds@.len() == 4
        &&& self.windows@.len() == 2
        &&& self.vram@.len() == 0x10000
        &&& self.vram_cache_2bpp@.len() == 0x8000
        &&& self.cgram@.len() == 0x100
        &&& self.oam_sprites@.len() == 0x80
        &&& self.cgram_addr < 0x100
        &&& self.oam_addr < 0x10000
        &&& self.vram_addr < 0x10000
        &&& self.vram_increment_amount <= 128
        &&& self.vram_remap < 4
        &&& 1 <= self.mosaic_size <= 16
        &&& self.dot < frame_dots()
        &&& self.fixed_color[0] < 32 && self.fixed_color[1] < 32 && self.fixed_color[2] < 32
        &&& self.bg_h_off < 0x100 && self.bg_v_off < 0x100
        &&& self.mosaic_v_latch < 16
    }

    /// Every row of the decoded cache is the decoding of its VRAM word.
    pub open spec fn cache_matches_vram(self) -> bool {
        forall|i: int|
            0 <= i < 0x8000 ==> #[trigger] self.vram_cache_2bpp@[i] == row_2bpp(self.vram@[2 * i], self.vram@[2 * i + 1])
    }

    /// Whether the sizes of the memories and the ranges of the registers hold.
    pub fn is_valid(&self) -> (r: bool)
        ensures
            r == self.wf(),
    {
        self.backgrounds.len() == 4 && self.windows.len() == 2 && self.vram.len() == 0x10000
            && self.vram_cache_2bpp.len() == 0x8000 && self.cgram.len() == 0x100 && self.oam_sprites.len()
            == 0x80 && self.cgram_addr < 0x100 && self.oam_addr < 0x10000 && self.vram_addr < 0x10000
            && self.vram_increment_amount <= 128 && self.vram_remap < 4 && 1 <= self.mosaic_size
            && self.mosaic_size <= 16 && self.dot < 4 * (PIXELS_PER_SCANLINE * SCANLINES)
            && self.fixed_color[0] < 32 && self.fixed_color[1] < 32 && self.fixed_color[2] < 32
            && self.bg_h_off < 0x100 && self.bg_v_off < 0x100 && self.mosaic_v_latch < 16
    }

    /// A sprite entry after power-on.
    pub open spec fn power_on_sprite() -> Sprite {
        Sprite {
            x: 0,
            y: 0,
            tile_index: 0,
            name_select: 0,
            flip_x: false,
            flip_y: false,
            priority: 0,
            palette_index: 0,
            size_select: 0,
            msb_x: false,
        }
    }

    /// A window after power-on.
    pub open spec fn power_on_window() -> Window {
        Window { left: 0, right: 0, enabled_color: false, invert_color: false, enabled_sprite: false, invert_sprite: false }
    }

    /// Whether the PPU is as it is after power-on: memories cleared, every register at
    /// its reset value.
    pub open spec fn is_power_on(self) -> bool {
        &&& self.vram@ == Seq::new(0x10000, |i: int| 0u8)
        &&& self.vram_cache_2bpp@ == Seq::new(0x8000, |i: int| [0u8, 0, 0, 0, 0, 0, 0, 0])
        &&& self.cgram@ == Seq::new(0x100, |i: int| 0u16)
        &&& self.backgrounds@ == Seq::new(4, |i: int| Background::default_spec())
        &&& self.oam_sprites@ == Seq::new(0x80, |i: int| Self::power_on_sprite())
        &&& self.windows@ == Seq::new(2, |i: int| Self::power_on_window())
        &&& self == (Ppu {
            vblank: false,
            forced_blanking: false,
            brightness: 4,
            bg_mode: 0,
            bg3_prio: false,
            backgrounds: self.backgrounds,
            mosaic_size: 1,
            bg_h_off: 0,
            bg_v_off: 0,
            obj_main_enable: false,
            obj_subscreen_enable: false,
            vram_increment_amount: 1,
            vram_increment_mode: VramIncMode::HighReadLowWrite,
            vram_remap: 0,
            vram_addr: 0,
            vram: self.vram,
            vram_cache_2bpp: self.vram_cache_2bpp,
            vram_latch_low: 0,
            vram_latch_high: 0,
            cgram: self.cgram,
            cgram_addr: 0,
            cgram_latch: None,
            dot: 0,
            oam_addr: 0,
            oam_name_addr: 0,
            oam_sizes: [(8, 8), (8, 8)],
            oam_name_select: 0x1000,
            oam_latch: 0,
            oam_sprites: self.oam_sprites,
            windows: self.windows,
            color_blend_mode: ColorBlendMode::Add,
            color_math_enable_backdrop: false,
            color_math_enable_obj: false,
            fixed_color: [0, 0, 0],
            color_math_src: ColorMathSource::Fixed,
            color_window_main_region: WindowRegion::Nowhere,
            color_window_sub_region: WindowRegion::Nowhere,
            color_window_logic: WindowMaskLogic::And,
            sprite_window_logic: WindowMaskLogic::And,
            direct_color: false,
            overscan: false,
            matrix: Matrix { a: 0, b: 0, c: 0, d: 0, center_x: 0, center_y: 0 },
            m7_h_off: 0,
            m7_v_off: 0,
            m7_latch: 0,
            m7_fill: Mode7Fill::Transparent,
            m7_repeat: false,
            m7_flip_v: false,
            m7_flip_h: false,
            multi_latch: 0,
            multi_res: 0,
            mosaic_v_latch: 0,
            interlace_field: false,
            h_latch: 0,
            v_latch: 0,
            ophct_latch: false,
        })
    }

    /// The PPU after power-on.
    pub fn default() -> (r: Ppu)
        ensures
            r.wf(),
            r.is_power_on(),
    {
        let bg = Background::default();
        let w = Window { left: 0, right: 0, enabled_color: false, invert_color: false, enabled_sprite: false, invert_sprite: false };
        let s = Sprite {
            x: 0,
            y: 0,
            tile_index: 0,
            name_select: 0,
            flip_x: false,
            flip_y: false,
            priority: 0,
            palette_index: 0,
            size_select: 0,
            msb_x: false,
        };
        Ppu {
            vblank: false,
            forced_blanking: false,
            brightness: 4,
            bg_mode: 0,
            bg3_prio: false,
            backgrounds: filled(4, bg),
            mosaic_size: 1,
            bg_h_off: 0,
            bg_v_off: 0,
            obj_main_enable: false,
            obj_subscreen_enable: false,
            vram_increment_amount: 1,
            vram_increment_mode: VramIncMode::HighReadLowWrite,
            vram_remap: 0,
            vram_addr: 0,
            vram: filled(0x10000, 0u8),
            vram_cache_2bpp: filled(0x8000, [0u8, 0, 0, 0, 0, 0, 0, 0]),
            vram_latch_low: 0,
            vram_latch_high: 0,
            cgram: filled(0x100, 0u16),
            cgram_addr: 0,
            cgram_latch: None,
            dot: 0,
            oam_addr: 0,
            oam_name_addr: 0,
            oam_sizes: [(8, 8), (8, 8)],
            oam_name_select: 0x1000,
            oam_latch: 0,
            oam_sprites: filled(0x80, s),
            windows: filled(2, w),
            color_blend_mode: ColorBlendMode::Add,
            color_math_enable_backdrop: false,
            color_math_enable_obj: false,
            fixed_color: [0, 0, 0],
            color_math_src: ColorMathSource::Fixed,
            color_window_main_region: WindowRegion::Nowhere,
            color_window_sub_region: WindowRegion::Nowhere,
            color_window_logic: WindowMaskLogic::And,
            sprite_window_logic: WindowMaskLogic::And,
            direct_color: false,
            overscan: false,
            matrix: Matrix { a: 0, b: 0, c: 0, d: 0, center_x: 0, center_y: 0 },
            m7_h_off: 0,
            m7_v_off: 0,
            m7_latch: 0,
            m7_fill: Mode7Fill::Transparent,
            m7_repeat: false,
            m7_flip_v: false,
            m7_flip_h: false,
            multi_latch: 0,
            multi_res: 0,
            mosaic_v_latch: 0,
            interlace_field: false,
            h_latch: 0,
            v_latch: 0,
            ophct_latch: false,
        }
    }

    /// The position of the dot: the visible picture starts 22 dots (88 master clocks)
    /// into the frame, and the subtraction wraps around the machine word.
    pub open spec fn dot_xy_spec(self) -> (usize, usize) {
        xy_of_dot(self.dot)
    }

    pub fn dot_xy(&self) -> (r: (usize, usize))
        ensures
            r == self.dot_xy_spec(),
    {
        let t = (self.dot / 4).wrapping_sub(22);
        (t % PIXELS_PER_SCANLINE, t / PIXELS_PER_SCANLINE)
    }

    /// X coordinate of the cursor
    pub fn cursor_x(&self) -> (r: usize)
        ensures
            r == self.dot_xy_spec().0,
    {
        self.dot_xy().0
    }

    /// Y coordinate of the cursor.
    /// Equivalent to the scanline number
    pub fn cursor_y(&self) -> (r: usize)
        ensures
            r == self.dot_xy_spec().1,
    {
        self.dot_xy().1
    }

    /// Below the last visible line (240 with overscan, 225 otherwise).
    pub open spec fn is_in_vblank_spec(self) -> bool {
        self.dot_xy_spec().1 > if self.overscan { 240usize } else { 225usize }
    }

    /// Past the visible part of the line.
    pub open spec fn is_in_hblank_spec(self) -> bool {
        self.dot_xy_spec().0 >= 274
    }

    /// Below the last visible line (240 with overscan, 225 otherwise).
    pub fn is_in_vblank(&self) -> (r: bool)
        ensures
            r == self.is_in_vblank_spec(),
    {
        self.cursor_y() > if self.overscan { 240 } else { 225 }
    }

    /// Past the visible part of the line.
    pub fn is_in_hblank(&self) -> (r: bool)
        ensures
            r == self.is_in_hblank_spec(),
    {
        self.cursor_x() >= 274
    }

    /// VRAM can always be written.
    pub fn can_write_vram(&self) -> (r: bool)
        ensures
            r,
    {
        true
    }

    /// The fixed color of color math as a 15-bit color.
    pub fn fixed_color_value(&self) -> (r: u16)
        requires
            self.wf(),
        ensures
            r == color_of(self.fixed_color[0] as int, self.fixed_color[1] as int, self.fixed_color[2] as int),
    {
        rgb_to_color(self.fixed_color)
    }

    /// The VRAM word address with the remapping applied.
    pub fn remapped_vram_addr(&self) -> (r: usize)
        requires
            self.wf(),
        ensures
            r == remap(self.vram_addr as int, self.vram_remap),
            r < 0x8000,
    {
        let a = self.vram_addr;
        proof {
            lemma_remap_bits(a);
        }
        let addr = if self.vram_remap == 0 {
            a
        } else if self.vram_remap == 1 {
            (a & 0xFF00) + ((a >> 5) & 0x07) + ((a << 3) & 0xF8)
        } else if self.vram_remap == 2 {
            (a & 0xFE00) + ((a >> 6) & 0x07) + ((a << 3) & 0x01F8)
        } else {
            (a & 0xFC00) + ((a >> 7) & 0x07) + ((a << 3) & 0x03F8)
        };
        proof {
            lemma_low_15(addr);
        }
        addr & 0x7FFF
    }

    pub fn read_vram_byte(&self, byte_addr: usize) -> (r: u8)
        requires
            self.wf(),
        ensures
            r == self.vram@[byte_addr as int % 0x10000],
    {
        self.vram[byte_addr % self.vram.len()]
    }

    /// Load the read latches from the (remapped) VRAM word.
    pub fn refresh_vram_latch(&mut self)
        requires
            old(self).wf(),
        ensures
            ({
                let r = remap(old(self).vram_addr as int, old(self).vram_remap);
                *final(self) == (Ppu {
                    vram_latch_low: old(self).vram@[2 * r],
                    vram_latch_high: old(self).vram@[2 * r + 1],
                    ..*old(self)
                })
            }),
    {
        let vram_addr = self.remapped_vram_addr();
        self.vram_latch_low = self.read_vram_byte(2 * vram_addr);
        self.vram_latch_high = self.read_vram_byte(2 * vram_addr + 1);
    }

    /// Move the VRAM address on by the increment amount, wrapping at 64 Ki words.
    pub fn inc_vram_addr(&mut self)
        requires
            old(self).wf(),
        ensures
            *final(self) == (Ppu {
                vram_addr: ((old(self).vram_addr + old(self).vram_increment_amount) % 0x10000) as usize,
                ..*old(self)
            }),
    {
        self.vram_addr = (self.vram_addr + self.vram_increment_amount) % self.vram.len();
    }

    /// Write a VRAM byte and refresh the decoded row of its word.
    pub fn write_vram(&mut self, addr: usize, value: u8)
        requires
            old(self).wf(),
            addr < 0x10000,
        ensures
            ({
                let v = old(self).vram@.update(addr as int, value);
                let w = (addr / 2) as int;
                &&& final(self).vram@ == v
                &&& final(self).vram_cache_2bpp@ == old(self).vram_cache_2bpp@.update(w, row_2bpp(v[2 * w], v[2 * w + 1]))
                &&& *final(self) == (Ppu { vram: final(self).vram, vram_cache_2bpp: final(self).vram_cache_2bpp, ..*old(self) })
            }),
            old(self).cache_matches_vram() ==> final(self).cache_matches_vram(),
    {
        if self.can_write_vram() {
            self.vram.set(addr, value);
            // Update cache
            let cache_addr = (addr / 2) * 2;
            let low = self.vram[cache_addr % self.vram.len()];
            let high = self.vram[(cache_addr + 1) % self.vram.len()];
            let row = decode_row(low, high);
            self.vram_cache_2bpp.set(addr / 2, row);
        }
    }

    /// Decode all of VRAM into the 2bpp cache.
    pub fn reset_vram_cache(&mut self)
        requires
            old(self).wf(),
        ensures
            forall|i: int|
                0 <= i < 0x8000 ==> #[trigger] final(self).vram_cache_2bpp@[i] == row_2bpp(
                    old(self).vram@[2 * i],
                    old(self).vram@[2 * i + 1],
                ),
            *final(self) == (Ppu { vram_cache_2bpp: final(self).vram_cache_2bpp, ..*old(self) }),
            final(self).wf(),
            final(self).cache_matches_vram(),
    {
        let mut i: usize = 0;
        while i < 0x8000
            invariant
                i <= 0x8000,
                self.wf(),
                forall|k: int| 0 <= k < i ==> #[trigger] self.vram_cache_2bpp@[k] == row_2bpp(
                    old(self).vram@[2 * k],
                    old(self).vram@[2 * k + 1],
                ),
                *self == (Ppu { vram_cache_2bpp: self.vram_cache_2bpp, ..*old(self) }),
            decreases 0x8000 - i,
        {
            let row = decode_row(self.vram[2 * i], self.vram[2 * i + 1]);
            self.vram_cache_2bpp.set(i, row);
            i = i + 1;
        }
    }

    /// The signed value of matrix A times the low byte of B.
    pub fn refresh_multi_res(&mut self)
        ensures
            *final(self) == (Ppu {
                multi_res: (signed16(old(self).matrix.a) * (old(self).matrix.b % 0x100)) as i32,
                ..*old(self)
            }),
    {
        self.multi_res = signed_product(self.matrix.a, self.matrix.b);
    }
}

/// Pixel `i` of a 2bpp tile row.
fn pixel(low: u8, high: u8, i: u8) -> (r: u8)
    requires
        i < 8,
    ensures
        r == pixel_2bpp(low, high, i),
{
    let s = 7 - i;
    ((low >> s) % 2) + 2 * ((high >> s) % 2)
}

/// Decode one 2bpp tile row.
pub fn decode_row(low: u8, high: u8) -> (r: [u8; 8])
    ensures
        r == row_2bpp(low, high),
{
    [
        pixel(low, high, 0),
        pixel(low, high, 1),
        pixel(low, high, 2),
        pixel(low, high, 3),
        pixel(low, high, 4),
        pixel(low, high, 5),
        pixel(low, high, 6),
        pixel(low, high, 7),
    ]
}

/// The signed value of `a` times the low byte of `b`.
fn signed_product(a: u16, b: u16) -> (r: i32)
    ensures
        r == signed16(a) * (b % 0x100),
{
    let sa: i32 = if a < 0x8000 { a as i32 } else { a as i32 - 0x10000 };
    let lb = (b % 0x100) as i32;
    assert(-0x8000 * 255 <= sa * lb <= 0x7FFF * 255) by (nonlinear_arith)
        requires
            -0x8000 <= sa <= 0x7FFF,
            0 <= lb <= 255,
    ;
    sa * lb
}

} // verus!
