use vstd::prelude::*;

use crate::snes::ppu::{xy_of_dot, Ppu, PIXELS_PER_SCANLINE};
use crate::snes::ppu_compose::composed_color;
use crate::snes::ppu_render::{background_in_range, background_slice, BackgroundPixel};
use crate::snes::ppu_sprites::{sprite_line_pixel, sprites_in_range};

verus! {

/// The bits per pixel of background `i` in background mode `mode`, or 0 where the mode
/// does not draw it.
pub open spec fn mode_bpp(mode: u32, i: int) -> int {
    if mode == 0 {
        2
    } else if mode == 1 {
        if i < 2 { 4 } else if i == 2 { 2 } else { 0 }
    } else if mode == 2 {
        if i < 2 { 4 } else { 0 }
    } else if mode == 3 {
        if i == 0 { 8 } else if i == 1 { 4 } else { 0 }
    } else if mode == 5 {
        if i == 0 { 4 } else if i == 1 { 2 } else { 0 }
    } else {
        0
    }
}

/// Whether the line can be drawn from tiles: a tile mode (0, 1, 2, 3 or 5), every
/// background the mode does not draw off on both screens, and the registers of those it
/// draws in range.
pub open spec fn line_drawable(p: Ppu) -> bool {
    &&& p.wf()
    &&& (p.bg_mode == 0 || p.bg_mode == 1 || p.bg_mode == 2 || p.bg_mode == 3 || p.bg_mode == 5)
    &&& forall|i: int|
        0 <= i < 4 ==> if mode_bpp(p.bg_mode, i) == 0 {
            !(#[trigger] p.backgrounds@[i]).main_screen_enable && !p.backgrounds@[i].sub_screen_enable
        } else {
            background_in_range(p.backgrounds@[i])
        }
}

/// Whether background `i` is on either screen.
pub open spec fn bg_shown(p: Ppu, i: int) -> bool {
    p.backgrounds@[i].main_screen_enable || p.backgrounds@[i].sub_screen_enable
}

/// The pixel of background `i` at `(x, y)` from its tiles.
#[verifier::opaque]
pub open spec fn tile_pixel(p: Ppu, i: int, x: int, y: int) -> BackgroundPixel {
    let s = background_slice(p, i, x, y, mode_bpp(p.bg_mode, i));
    s.0[s.1]
}

/// Where the mosaic memory keeps the block of column `x` of background `i`.
pub open spec fn mosaic_slot(p: Ppu, i: int, x: int) -> int {
    0x100 * i + x / (p.mosaic_size as int)
}

/// The mosaic memory after column `x` of background `i`: on the first line of a mosaic
/// block, its first column stores the background's pixel for the whole block.
pub open spec fn mosaic_after(p: Ppu, i: int, x: int, y: int, m: Seq<BackgroundPixel>) -> Seq<BackgroundPixel> {
    if bg_shown(p, i) && p.backgrounds@[i].mosaic && p.mosaic_v_latch == 0 && x % (p.mosaic_size as int)
        == 0 {
        m.update(mosaic_slot(p, i, x), tile_pixel(p, i, x, y))
    } else {
        m
    }
}

/// The mosaic memory after column `x` of the four backgrounds.
pub open spec fn mosaic_column(p: Ppu, x: int, y: int, m: Seq<BackgroundPixel>) -> Seq<BackgroundPixel> {
    mosaic_after(p, 3, x, y, mosaic_after(p, 2, x, y, mosaic_after(p, 1, x, y, mosaic_after(p, 0, x, y, m))))
}

/// The pixel of background `i` at `(x, y)` with the mosaic memory `m`: nothing when it
/// is off, the stored block pixel under mosaic, else its tile pixel.
pub open spec fn bg_pixel(p: Ppu, i: int, x: int, y: int, m: Seq<BackgroundPixel>) -> BackgroundPixel {
    if !bg_shown(p, i) {
        None
    } else if p.backgrounds@[i].mosaic {
        m[mosaic_slot(p, i, x)]
    } else {
        tile_pixel(p, i, x, y)
    }
}

/// The color of column `x` of line `y` in 15 bits, from the background pixels with the
/// mosaic memory `m` and the sprite pixels of the line.
#[verifier::opaque]
pub open spec fn column_color(p: Ppu, x: int, y: int, sprites: Seq<Option<u16>>, m: Seq<BackgroundPixel>) -> u16 {
    let bgs = seq![bg_pixel(p, 0, x, y, m), bg_pixel(p, 1, x, y, m), bg_pixel(p, 2, x, y, m), bg_pixel(p, 3, x, y, m)];
    let spr = seq![sprites[x], sprites[0x100 + x], sprites[0x200 + x], sprites[0x300 + x]];
    (composed_color(p, x, bgs, spr) % 0x8000) as u16
}

/// The colors of the first `n` columns of line `y`, and the mosaic memory after them,
/// from the sprite pixels of the line (`0x100` per priority) and the mosaic memory `m`.
#[verifier::opaque]
pub open spec fn line_colors(p: Ppu, y: int, sprites: Seq<Option<u16>>, m: Seq<BackgroundPixel>, n: nat) -> (
    Seq<u16>,
    Seq<BackgroundPixel>,
)
    decreases n,
{
    if n == 0 {
        (Seq::empty(), m)
    } else {
        let x = n - 1;
        let prev = line_colors(p, y, sprites, m, (n - 1) as nat);
        let m2 = mosaic_column(p, x, y, prev.1);
        (prev.0.push(column_color(p, x, y, sprites, m2)), m2)
    }
}

/// The colors of `n` columns are `n` colors, and the mosaic memory keeps its size.
proof fn lemma_line_colors_len(p: Ppu, y: int, sprites: Seq<Option<u16>>, m: Seq<BackgroundPixel>, n: nat)
    requires
        p.wf(),
        n <= 0x100,
        m.len() == 0x400,
    ensures
        line_colors(p, y, sprites, m, n).0.len() == n,
        line_colors(p, y, sprites, m, n).1.len() == m.len(),
    decreases n,
{
    reveal(line_colors);
    if n > 0 {
        let x = n - 1;
        lemma_line_colors_len(p, y, sprites, m, (n - 1) as nat);
        assert(x / (p.mosaic_size as int) <= x) by (nonlinear_arith)
            requires
                0 <= x,
                p.mosaic_size >= 1,
        ;
    }
}

impl Ppu {
    /// Whether the current line can be drawn from tiles.
    pub fn line_is_drawable(&self) -> (r: bool)
        ensures
            r == line_drawable(*self),
    {
        if !self.is_valid() {
            return false;
        }
        let m = self.bg_mode;
        if !(m == 0 || m == 1 || m == 2 || m == 3 || m == 5) {
            return false;
        }
        let mut i: usize = 0;
        while i < 4
            invariant
                i <= 4,
                self.wf(),
                m == self.bg_mode,
                forall|j: int|
                    0 <= j < i ==> if mode_bpp(self.bg_mode, j) == 0 {
                        !(#[trigger] self.backgrounds@[j]).main_screen_enable && !self.backgrounds@[j].sub_screen_enable
                    } else {
                        background_in_range(self.backgrounds@[j])
                    },
            decreases 4 - i,
        {
            let b = &self.backgrounds[i];
            if self.bpp_of(i) == 0 {
                if b.main_screen_enable || b.sub_screen_enable {
                    return false;
                }
            } else if !(b.tilemap_addr <= 0xFC00 && b.chr_addr <= 0xF000 && b.h_off < 0x400 && b.v_off < 0x400) {
                return false;
            }
            i = i + 1;
        }
        true
    }

    /// The bits per pixel of background `i` in the current mode.
    fn bpp_of(&self, i: usize) -> (r: usize)
        requires
            i < 4,
        ensures
            r == mode_bpp(self.bg_mode, i as int),
    {
        if self.bg_mode == 0 {
            2
        } else if self.bg_mode == 1 {
            if i < 2 { 4 } else if i == 2 { 2 } else { 0 }
        } else if self.bg_mode == 2 {
            if i < 2 { 4 } else { 0 }
        } else if self.bg_mode == 3 {
            if i == 0 { 8 } else if i == 1 { 4 } else { 0 }
        } else if self.bg_mode == 5 {
            if i == 0 { 4 } else if i == 1 { 2 } else { 0 }
        } else {
            0
        }
    }

    /// The pixel of background `i` at `(x, y)`, updating the mosaic memory.
    fn bg_pixel_at(&self, i: usize, x: usize, y: usize, mosaic: &mut Vec<BackgroundPixel>) -> (r: BackgroundPixel)
        requires
            line_drawable(*self),
            i < 4,
            x < 0x100,
            y < 0x100,
            old(mosaic)@.len() == 0x400,
        ensures
            final(mosaic)@ == mosaic_after(*self, i as int, x as int, y as int, old(mosaic)@),
            r == bg_pixel(*self, i as int, x as int, y as int, final(mosaic)@),
    {
        let b = &self.backgrounds[i];
        if !(b.main_screen_enable || b.sub_screen_enable) {
            return None;
        }
        assert(mode_bpp(self.bg_mode, i as int) != 0);
        let bpp = self.bpp_of(i);
        let (slice, offset) = self.get_background_slice(i, (x, y), bpp);
        let v = slice[offset];
        proof {
            reveal(tile_pixel);
        }
        if b.mosaic {
            let size = self.mosaic_size;
            let k = 0x100 * i + x / size;
            if self.mosaic_v_latch == 0 && x % size == 0 {
                mosaic.set(k, v);
            }
            mosaic[k]
        } else {
            v
        }
    }

    /// Draw column `x` of line `y` from the tiles, the sprite pixels of the line
    /// (`0x100` per priority) and the mosaic memory (`0x100` per background), which it
    /// updates: the composed color of the column, in 15 bits.
    pub fn render_pixel(&self, x: usize, y: usize, sprites: &Vec<Option<u16>>, mosaic: &mut Vec<BackgroundPixel>) -> (r: u16)
        requires
            line_drawable(*self),
            x < 0x100,
            y < 240,
            sprites@.len() == 0x400,
            old(mosaic)@.len() == 0x400,
        ensures
            final(mosaic)@ == mosaic_column(*self, x as int, y as int, old(mosaic)@),
            r == column_color(*self, x as int, y as int, sprites@, final(mosaic)@),
            final(mosaic)@.len() == 0x400,
    {
        let b0 = self.bg_pixel_at(0, x, y, mosaic);
        let b1 = self.bg_pixel_at(1, x, y, mosaic);
        let b2 = self.bg_pixel_at(2, x, y, mosaic);
        let b3 = self.bg_pixel_at(3, x, y, mosaic);
        let bgs = [b0, b1, b2, b3];
        let spr = [sprites[x], sprites[0x100 + x], sprites[0x200 + x], sprites[0x300 + x]];
        let c = self.compose_pixel(x, &bgs, &spr);
        proof {
            reveal(column_color);
            assert(bgs@ =~= seq![b0, b1, b2, b3]);
            assert(spr@ =~= seq![sprites@[x as int], sprites@[0x100 + x], sprites@[0x200 + x], sprites@[0x300 + x]]);
            assert(x as int / (self.mosaic_size as int) <= x) by (nonlinear_arith)
                requires
                    self.mosaic_size >= 1,
            ;
        }
        c % 0x8000
    }

    /// Draw line `y` of the screen from the tiles, the sprite pixels of the line (`0x100`
    /// per priority) and the mosaic memory (`0x100` per background), which it updates.
    /// Each color is the composed color of its column, in 15 bits.
    pub fn render_line(&self, y: usize, sprites: &Vec<Option<u16>>, mosaic: &mut Vec<BackgroundPixel>) -> (r: Vec<u16>)
        requires
            line_drawable(*self),
            y < 240,
            sprites@.len() == 0x400,
            old(mosaic)@.len() == 0x400,
        ensures
            r@ == line_colors(*self, y as int, sprites@, old(mosaic)@, 0x100).0,
            final(mosaic)@ == line_colors(*self, y as int, sprites@, old(mosaic)@, 0x100).1,
            r@.len() == 0x100,
            final(mosaic)@.len() == 0x400,
    {
        proof {
            reveal(line_colors);
            lemma_line_colors_len(*self, y as int, sprites@, old(mosaic)@, 0x100);
        }
        let mut colors: Vec<u16> = Vec::new();
        let mut x: usize = 0;
        while x < 0x100
            invariant
                x <= 0x100,
                line_drawable(*self),
                y < 240,
                sprites@.len() == 0x400,
                mosaic@.len() == 0x400,
                colors@ == line_colors(*self, y as int, sprites@, old(mosaic)@, x as nat).0,
                mosaic@ == line_colors(*self, y as int, sprites@, old(mosaic)@, x as nat).1,
            decreases 0x100 - x,
        {
            let c = self.render_pixel(x, y, sprites, mosaic);
            colors.push(c);
            proof {
                reveal_with_fuel(line_colors, 2);
            }
            x = x + 1;
        }
        colors
    }
}

/// The line whose sprites show on line `y`: the PPU gathers a line's sprites at the start
/// of the next one, so line 0 shows those gathered last in the frame before.
pub open spec fn sprite_source_line(y: int) -> int {
    if y == 0 {
        260
    } else {
        y - 1
    }
}

/// Whether `s` holds the sprite pixels of line `y` (`0x100` per priority).
pub open spec fn sprites_of_line(p: Ppu, y: int, s: Seq<Option<u16>>) -> bool {
    &&& s.len() == 0x400
    &&& forall|k: int, c: int|
        0 <= k < 4 && 0 <= c < 0x100 ==> #[trigger] s[0x100 * k + c] == sprite_line_pixel(p, y, k, c, 0x80)
}

/// The picture: 256 by 240 colors, and the mosaic memory of the backgrounds.
pub struct Screen {
    pub pixels: Vec<u16>,
    pub mosaic: Vec<BackgroundPixel>,
    /// The sprite pixels of the line being drawn (`0x100` per priority).
    pub sprites: Vec<Option<u16>>,
}

impl Screen {
    pub open spec fn wf(self) -> bool {
        self.pixels@.len() == 256 * 240 && self.mosaic@.len() == 0x400 && self.sprites@.len() == 0x400
    }

    /// A black screen with an empty mosaic memory.
    pub fn new() -> (r: Screen)
        ensures
            r.wf(),
            forall|i: int| 0 <= i < 256 * 240 ==> #[trigger] r.pixels@[i] == 0,
            forall|i: int| 0 <= i < 0x400 ==> #[trigger] r.mosaic@[i] is None,
            forall|i: int| 0 <= i < 0x400 ==> #[trigger] r.sprites@[i] is None,
    {
        let mut pixels: Vec<u16> = Vec::new();
        let mut i: usize = 0;
        while i < 256 * 240
            invariant
                i <= 256 * 240,
                pixels@.len() == i,
                forall|j: int| 0 <= j < i ==> #[trigger] pixels@[j] == 0,
            decreases 256 * 240 - i,
        {
            pixels.push(0);
            i = i + 1;
        }
        let mut mosaic: Vec<BackgroundPixel> = Vec::new();
        let mut k: usize = 0;
        while k < 0x400
            invariant
                k <= 0x400,
                mosaic@.len() == k,
                forall|j: int| 0 <= j < k ==> #[trigger] mosaic@[j] is None,
            decreases 0x400 - k,
        {
            mosaic.push(None);
            k = k + 1;
        }
        let mut sprites: Vec<Option<u16>> = Vec::new();
        let mut k: usize = 0;
        while k < 0x400
            invariant
                k <= 0x400,
                sprites@.len() == k,
                forall|j: int| 0 <= j < k ==> #[trigger] sprites@[j] is None,
            decreases 0x400 - k,
        {
            sprites.push(None);
            k = k + 1;
        }
        Screen { pixels, mosaic, sprites }
    }

    /// Draw line `y` from the PPU's registers and memories, with the sprites of the
    /// line before it. A line that cannot be drawn from tiles is left as it was.
    pub fn draw_line(&mut self, ppu: &Ppu, y: usize) -> (drawn: bool)
        requires
            old(self).wf(),
            y < 240,
        ensures
            final(self).wf(),
            drawn == (line_drawable(*ppu) && sprites_in_range(*ppu)),
            !drawn ==> *final(self) == *old(self),
            drawn ==> exists|s: Seq<Option<u16>>|
                #![trigger sprites_of_line(*ppu, sprite_source_line(y as int), s)]
                {
                    let l = line_colors(*ppu, y as int, s, old(self).mosaic@, 0x100);
                    &&& sprites_of_line(*ppu, sprite_source_line(y as int), s)
                    &&& final(self).mosaic@ == l.1
                    &&& final(self).pixels@ == old(self).pixels@.subrange(0, 256 * y as int) + l.0
                        + old(self).pixels@.subrange(256 * y as int + 256, 256 * 240int)
                },
    {
        if !ppu.line_is_drawable() {
            return false;
        }
        if !ppu.sprites_valid() {
            return false;
        }
        let source: usize = if y == 0 { 260 } else { y - 1 };
        let sprites = ppu.sprite_line(source);
        let mut mosaic: Vec<BackgroundPixel> = Vec::new();
        std::mem::swap(&mut mosaic, &mut self.mosaic);
        let line = ppu.render_line(y, &sprites, &mut mosaic);
        self.mosaic = mosaic;
        let ghost before = self.pixels@;
        let ghost new_mosaic = self.mosaic@;
        let mut x: usize = 0;
        while x < 256
            invariant
                x <= 256,
                self.mosaic@ == new_mosaic,
                new_mosaic.len() == 0x400,
                self.sprites@.len() == 0x400,
                y < 240,
                line@.len() == 256,
                before.len() == 256 * 240,
                self.pixels@.len() == 256 * 240,
                forall|j: int|
                    0 <= j < 256 * 240 ==> #[trigger] self.pixels@[j] == if 256 * y <= j < 256 * y + x {
                        line@[j - 256 * y]
                    } else {
                        before[j]
                    },
            decreases 256 - x,
        {
            self.pixels.set(256 * y + x, line[x]);
            x = x + 1;
        }
        proof {
            assert(sprites_of_line(*ppu, sprite_source_line(y as int), sprites@));
            assert(self.pixels@ =~= before.subrange(0, 256 * y as int) + line@ + before.subrange(
                256 * y as int + 256,
                256 * 240int,
            ));
        }
        true
    }
}


impl Screen {
    /// Draw the dot at master clock position `dot` of the frame with the PPU's current
    /// registers and memories, as the PPU does when it reaches that dot: at the start
    /// of each line but the first, the sprites of the line before are gathered; a
    /// visible dot of a line that can be drawn from tiles gets its composed color.
    /// Says whether the dot was drawn.
    pub fn draw_dot(&mut self, ppu: &Ppu, dot: usize) -> (drawn: bool)
        requires
            old(self).wf(),
        ensures
            final(self).wf(),
            ({
                let (x, y) = xy_of_dot(dot);
                let gather = dot % 4 == 0 && x == 0 && y > 0 && ppu.wf() && sprites_in_range(*ppu) && y - 1 < 0x10000;
                &&& gather ==> sprites_of_line(*ppu, y - 1, final(self).sprites@)
                &&& !gather ==> final(self).sprites == old(self).sprites
                &&& drawn == (dot % 4 == 0 && x < 256 && y < 240 && line_drawable(*ppu))
                &&& drawn ==> final(self).mosaic@ == mosaic_column(*ppu, x as int, y as int, old(self).mosaic@)
                    && final(self).pixels@ == old(self).pixels@.update(
                    256 * y + x,
                    column_color(*ppu, x as int, y as int, final(self).sprites@, final(self).mosaic@),
                )
                &&& !drawn ==> final(self).pixels == old(self).pixels && final(self).mosaic == old(self).mosaic
            }),
    {
        if dot % 4 != 0 {
            return false;
        }
        let t = (dot / 4).wrapping_sub(22);
        let x = t % PIXELS_PER_SCANLINE;
        let y = t / PIXELS_PER_SCANLINE;
        if x == 0 && y > 0 && ppu.is_valid() && y - 1 < 0x10000 {
            if ppu.sprites_valid() {
                self.sprites = ppu.sprite_line(y - 1);
            }
        }
        if !(x < 256 && y < 240) || !ppu.line_is_drawable() {
            return false;
        }
        let mut mosaic: Vec<BackgroundPixel> = Vec::new();
        std::mem::swap(&mut mosaic, &mut self.mosaic);
        let c = ppu.render_pixel(x, y, &self.sprites, &mut mosaic);
        self.mosaic = mosaic;
        self.pixels.set(256 * y + x, c);
        true
    }
}

} // verus!
