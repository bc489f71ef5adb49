use vstd::prelude::*;

use crate::snes::ppu::Ppu;
use crate::snes::ppu_types::Sprite;

verus! {

/// Whether a sprite's fields are in the ranges that OAM writes give them.
pub open spec fn sprite_in_range(s: Sprite) -> bool {
    &&& s.x < 0x100
    &&& s.y < 0x100
    &&& s.tile_index < 0x100
    &&& s.name_select < 2
    &&& s.priority < 4
    &&& s.palette_index < 8
    &&& s.size_select < 2
}

/// Whether the sprite table and the sprite settings are in their ranges.
pub open spec fn sprites_in_range(p: Ppu) -> bool {
    &&& forall|j: int| 0 <= j < 0x80 ==> #[trigger] sprite_in_range(p.oam_sprites@[j])
    &&& forall|k: int| 0 <= k < 2 ==> 0 < #[trigger] p.oam_sizes[k].0 <= 64 && 0 < p.oam_sizes[k].1 <= 64
    &&& p.oam_name_addr <= 0x6000
    &&& p.oam_name_select <= 0x4000
}

/// The pixel that sprite `s` puts at column `c` of line `y`, if any: the sprite covers
/// the line and the column (its x is shifted left by 256 when its high bit is set, and
/// column 0 is never drawn), its tile row is read from the sprite name table (flipped
/// as the sprite says), and palette value 0 is transparent.
pub open spec fn sprite_pixel(p: Ppu, s: Sprite, y: int, c: int) -> Option<u16> {
    let size = p.oam_sizes[s.size_select as int];
    let width = size.0 as int;
    let height = size.1 as int;
    let i = c - s.x + (if s.msb_x { 0x100int } else { 0 });
    if !(s.y <= y && y < s.y + height && 0 < c < 0x100 && 0 <= i < width) {
        None
    } else {
        let dy = y - s.y;
        let fine_y = if s.flip_y { 7 - dy % 8 } else { dy % 8 };
        let tile_y = if s.flip_y { (height - 1 - dy) / 8 } else { dy / 8 };
        let tile_index = s.tile_index + 16 * tile_y;
        let slice_addr = 2 * (p.oam_name_addr + s.name_select * p.oam_name_select) + 32 * tile_index;
        let (tile, col) = if s.flip_x { ((width - 1 - i) / 8, 7 - i % 8) } else { (i / 8, i % 8) };
        let low = p.vram_cache_2bpp@[((slice_addr + 32 * tile + 2 * fine_y) / 2) % 0x8000][col];
        let high = p.vram_cache_2bpp@[((slice_addr + 32 * tile + 2 * fine_y + 16) / 2) % 0x8000][col];
        let v = (low % 4) + 4 * (high % 4);
        if v == 0 {
            None
        } else {
            Some(p.cgram@[0x80 + 0x10 * s.palette_index + v])
        }
    }
}

/// The pixel of sprite layer `k` at column `c` of line `y` from the first `n` sprites:
/// the first of them of priority `k` that puts a pixel there.
pub open spec fn sprite_line_pixel(p: Ppu, y: int, k: int, c: int, n: int) -> Option<u16>
    decreases n,
{
    if n <= 0 {
        None
    } else {
        match sprite_line_pixel(p, y, k, c, n - 1) {
            Some(v) => Some(v),
            None => {
                let s = p.oam_sprites@[n - 1];
                if s.priority == k { sprite_pixel(p, s, y, c) } else { None }
            },
        }
    }
}

impl Ppu {
    /// Whether the sprite table and the sprite settings are in their ranges.
    pub fn sprites_valid(&self) -> (r: bool)
        requires
            self.wf(),
        ensures
            r == sprites_in_range(*self),
    {
        let mut j: usize = 0;
        while j < 0x80
            invariant
                j <= 0x80,
                self.wf(),
                forall|k: int| 0 <= k < j ==> #[trigger] sprite_in_range(self.oam_sprites@[k]),
            decreases 0x80 - j,
        {
            let s = self.oam_sprites[j];
            if !(s.x < 0x100 && s.y < 0x100 && s.tile_index < 0x100 && s.name_select < 2 && s.priority < 4
                && s.palette_index < 8 && s.size_select < 2) {
                assert(!sprite_in_range(self.oam_sprites@[j as int]));
                return false;
            }
            j = j + 1;
        }
        let a = self.oam_sizes[0];
        let b = self.oam_sizes[1];
        0 < a.0 && a.0 <= 64 && 0 < a.1 && a.1 <= 64 && 0 < b.0 && b.0 <= 64 && 0 < b.1 && b.1 <= 64
            && self.oam_name_addr <= 0x6000 && self.oam_name_select <= 0x4000
    }

    /// The pixel that sprite `s` puts at column `c` of line `y`.
    fn sprite_pixel_at(&self, s: Sprite, y: usize, c: usize) -> (r: Option<u16>)
        requires
            self.wf(),
            sprites_in_range(*self),
            sprite_in_range(s),
            y < 0x10000,
            c < 0x10000,
        ensures
            r == sprite_pixel(*self, s, y as int, c as int),
    {
        let size = self.oam_sizes[s.size_select];
        let width = size.0;
        let height = size.1;
        let off: usize = if s.msb_x { 0x100 } else { 0 };
        if !(s.y <= y && y < s.y + height && 0 < c && c < 0x100 && s.x <= c + off && c + off - s.x < width) {
            return None;
        }
        let i = c + off - s.x;
        let dy = y - s.y;
        let (fine_y, tile_y) = if s.flip_y {
            (7 - dy % 8, (height - 1 - dy) / 8)
        } else {
            (dy % 8, dy / 8)
        };
        let tile_index = s.tile_index + 16 * tile_y;
        assert(s.name_select * self.oam_name_select <= 0x4000) by (nonlinear_arith)
            requires
                s.name_select < 2,
                self.oam_name_select <= 0x4000,
        ;
        let slice_addr = 2 * (self.oam_name_addr + s.name_select * self.oam_name_select) + 32 * tile_index;
        let (tile, col) = if s.flip_x { ((width - 1 - i) / 8, 7 - i % 8) } else { (i / 8, i % 8) };
        let n = self.vram_cache_2bpp.len();
        let low = self.vram_cache_2bpp[((slice_addr + 32 * tile + 2 * fine_y) / 2) % n][col];
        let high = self.vram_cache_2bpp[((slice_addr + 32 * tile + 2 * fine_y + 16) / 2) % n][col];
        let v = (low % 4) as usize + 4 * (high % 4) as usize;
        if v == 0 {
            None
        } else {
            Some(self.cgram[0x80 + 0x10 * s.palette_index + v])
        }
    }

    /// The sprite pixels of line `y`: for each of the four priorities (0x100 entries
    /// each) and each column, the pixel of the first sprite of that priority that puts
    /// one there.
    pub fn sprite_line(&self, y: usize) -> (r: Vec<Option<u16>>)
        requires
            self.wf(),
            sprites_in_range(*self),
            y < 0x10000,
        ensures
            r@.len() == 0x400,
            forall|k: int, c: int|
                0 <= k < 4 && 0 <= c < 0x100 ==> #[trigger] r@[0x100 * k + c] == sprite_line_pixel(
                    *self,
                    y as int,
                    k,
                    c,
                    0x80,
                ),
    {
        let mut buffers: Vec<Option<u16>> = Vec::new();
        let mut n: usize = 0;
        while n < 0x400
            invariant
                n <= 0x400,
                buffers@.len() == n,
                forall|m: int| 0 <= m < n ==> #[trigger] buffers@[m] is None,
            decreases 0x400 - n,
        {
            buffers.push(None);
            n = n + 1;
        }
        let mut j: usize = 0;
        while j < 0x80
            invariant
                j <= 0x80,
                self.wf(),
                    sprites_in_range(*self),
                y < 0x10000,
                buffers@.len() == 0x400,
                forall|k: int, c: int|
                    0 <= k < 4 && 0 <= c < 0x100 ==> #[trigger] buffers@[0x100 * k + c] == sprite_line_pixel(
                        *self,
                        y as int,
                        k,
                        c,
                        j as int,
                    ),
            decreases 0x80 - j,
        {
            let s = self.oam_sprites[j];
            assert(sprite_in_range(self.oam_sprites@[j as int]));
            let width = self.oam_sizes[s.size_select].0;
            let off: usize = if s.msb_x { 0x100 } else { 0 };
            let mut i: usize = 0;
            while i < width
                invariant
                    i <= width,
                    width == self.oam_sizes[s.size_select as int].0,
                    width <= 64,
                    off == (if s.msb_x { 0x100usize } else { 0 }),
                    s == self.oam_sprites@[j as int],
                    sprite_in_range(s),
                    j < 0x80,
                    self.wf(),
                            sprites_in_range(*self),
                    y < 0x10000,
                    buffers@.len() == 0x400,
                    forall|k: int, c: int|
                        0 <= k < 4 && 0 <= c < 0x100 ==> #[trigger] buffers@[0x100 * k + c] == if k == s.priority && 0 <= c
                            - s.x + off < i {
                            sprite_line_pixel(*self, y as int, k, c, j as int + 1)
                        } else {
                            sprite_line_pixel(*self, y as int, k, c, j as int)
                        },
                decreases width - i,
            {
                // Check if the pixel at (sprite x + i) is on the screen
                if s.x + i >= off && s.x + i - off < 0x100 && s.x + i - off > 0 {
                    let c = s.x + i - off;
                    let px = self.sprite_pixel_at(s, y, c);
                    let at = 0x100 * s.priority + c;
                    let cur = buffers[at];
                    let v = match cur {
                        Some(v) => Some(v),
                        None => px,
                    };
                    buffers.set(at, v);
                }
                proof {
                    assert forall|k: int, c: int| 0 <= k < 4 && 0 <= c < 0x100 && k == s.priority && c - s.x + off == i
                        implies #[trigger] buffers@[0x100 * k + c] == sprite_line_pixel(*self, y as int, k, c, j as int + 1) by {
                    }
                }
                i = i + 1;
            }
            proof {
                assert forall|k: int, c: int| 0 <= k < 4 && 0 <= c < 0x100 implies #[trigger] buffers@[0x100 * k + c]
                    == sprite_line_pixel(*self, y as int, k, c, j as int + 1) by {
                    if !(k == s.priority && 0 <= c - s.x + off < width) {
                        assert(sprite_pixel(*self, s, y as int, c) is None || k != s.priority);
                    }
                }
            }
            j = j + 1;
        }
        buffers
    }
}

} // verus!
