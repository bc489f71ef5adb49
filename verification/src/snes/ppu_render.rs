use vstd::prelude::*;

use crate::snes::ppu::Ppu;
use crate::snes::ppu_types::Background;

verus! {

/// A background pixel: its color and its priority bit, or nothing where it is
/// transparent.
pub type BackgroundPixel = Option<(u16, bool)>;

/// Which of the (up to four) tilemaps of a background shows in quadrant `k` of the
/// 512x512 plane (0 top left, 1 top right, 2 bottom left, 3 bottom right): a background
/// with one tilemap across or down repeats it.
pub open spec fn mirrored_tilemap(b: Background, k: int) -> int {
    if b.num_horz_tilemaps == 2 {
        if b.num_vert_tilemaps == 2 { k } else { k % 2 }
    } else {
        if b.num_vert_tilemaps == 2 { k / 2 } else { 0 }
    }
}

/// The word address of the tilemap that holds the scrolled position `(xs, ys)`.
pub open spec fn tilemap_of(b: Background, xs: int, ys: int) -> int {
    let k = (if xs >= 256 { 1int } else { 0 }) + (if ys >= 256 { 2int } else { 0 });
    b.tilemap_addr + mirrored_tilemap(b, k) * 0x400
}

/// The tilemap entry byte address of the scrolled position `(xs, ys)`.
pub open spec fn tile_entry_addr(b: Background, xs: int, ys: int) -> int {
    2 * tilemap_of(b, xs, ys) + 2 * (32 * ((ys % 256) / 8) + (xs % 256) / 8)
}

/// Row `j` of the 2bpp planes of a tile row at byte address `slice_addr` (two bytes
/// per row, the planes 16 bytes apart), or zeros past the planes of `bpp` bits.
pub open spec fn plane_row(p: Ppu, slice_addr: int, j: int, bpp: int) -> [u8; 8] {
    if j < bpp / 2 {
        p.vram_cache_2bpp@[((slice_addr + 16 * j) / 2) % 0x8000]
    } else {
        [0u8, 0, 0, 0, 0, 0, 0, 0]
    }
}

/// The palette value of column `c` of a tile row: two bits from each plane (the decoded
/// rows hold 2-bit values).
pub open spec fn column_value(p: Ppu, slice_addr: int, bpp: int, c: int) -> int {
    (plane_row(p, slice_addr, 0, bpp)[c] % 4) as int + 4 * (plane_row(p, slice_addr, 1, bpp)[c] % 4) as int
        + 16 * (plane_row(p, slice_addr, 2, bpp)[c] % 4) as int + 64 * (plane_row(p, slice_addr, 3, bpp)[c] % 4) as int
}

/// The CGRAM index of palette value `v` of palette `pal` for a background of `bpp` bits:
/// in mode 0 each background has its own 2bpp palettes.
pub open spec fn palette_entry(p: Ppu, bg_index: int, bpp: int, pal: int, v: int) -> int {
    if bpp == 2 {
        32 * (if p.bg_mode == 0 { bg_index } else { 0 }) + 4 * pal + v
    } else if bpp == 4 {
        16 * pal + v
    } else {
        v
    }
}

/// The tile row of background `bg_index` that holds the screen position `(x, y)`: its
/// byte address, its palette, its priority, whether it is flipped horizontally, and
/// the column of `(x, y)` within it. The background scrolls by its offsets within a
/// 512x512 plane of up to four tilemaps; each tilemap entry gives the tile (10 bits),
/// its palette, its priority and its flips.
pub open spec fn tile_row(p: Ppu, bg_index: int, x: int, y: int, bpp: int) -> (int, int, bool, bool, int) {
    let b = p.backgrounds@[bg_index];
    let xs = (x + b.h_off) % 512;
    let ys = (y + b.v_off) % 512;
    let entry = tile_entry_addr(b, xs, ys);
    let low = p.vram@[entry % 0x10000];
    let high = p.vram@[(entry + 1) % 0x10000];
    let tile_index = low as int + 0x100 * (high % 4) as int;
    let fine_y: int = if high >= 0x80 { 7 - (ys % 256) % 8 } else { (ys % 256) % 8 };
    (
        (2 * b.chr_addr + 2 * fine_y + bpp * 8 * tile_index) % 0x10000,
        ((high / 4) % 8) as int,
        (high / 0x20) % 2 == 1,
        (high / 0x40) % 2 == 1,
        (xs % 256) % 8,
    )
}

/// The eight pixels of a tile row.
pub open spec fn row_pixels(p: Ppu, bg_index: int, bpp: int, t: (int, int, bool, bool, int)) -> Seq<BackgroundPixel> {
    Seq::new(
        8,
        |i: int|
            {
                let v = column_value(p, t.0, bpp, if t.3 { 7 - i } else { i });
                if v == 0 {
                    None
                } else {
                    Some((p.cgram@[palette_entry(p, bg_index, bpp, t.1, v)], t.2))
                }
            },
    )
}

/// The eight pixels of the tile row of background `bg_index` that holds the screen
/// position `(x, y)`, and the column of `(x, y)` within them.
pub open spec fn background_slice(p: Ppu, bg_index: int, x: int, y: int, bpp: int) -> (Seq<BackgroundPixel>, int) {
    let t = tile_row(p, bg_index, x, y, bpp);
    (row_pixels(p, bg_index, bpp, t), t.4)
}

/// Which tilemap shows in quadrant `k`.
fn mirrored_tilemap_of(b: &Background, k: usize) -> (r: usize)
    requires
        k < 4,
    ensures
        r == mirrored_tilemap(*b, k as int),
{
    if b.num_horz_tilemaps == 2 {
        if b.num_vert_tilemaps == 2 { k } else { k % 2 }
    } else {
        if b.num_vert_tilemaps == 2 { k / 2 } else { 0 }
    }
}

/// Whether the background's registers are in the ranges that its registers can set.
pub open spec fn background_in_range(b: Background) -> bool {
    &&& b.tilemap_addr <= 0xFC00
    &&& b.chr_addr <= 0xF000
    &&& b.h_off < 0x400
    &&& b.v_off < 0x400
}


impl Ppu {
    /// Row `j` of the planes of a tile row.
    fn plane_row_at(&self, slice_addr: usize, j: usize, bpp: usize) -> (r: [u8; 8])
        requires
            self.wf(),
            slice_addr < 0x10000,
            j < 4,
        ensures
            r == plane_row(*self, slice_addr as int, j as int, bpp as int),
    {
        if j < bpp / 2 {
            self.vram_cache_2bpp[((slice_addr + 16 * j) / 2) % self.vram_cache_2bpp.len()]
        } else {
            [0, 0, 0, 0, 0, 0, 0, 0]
        }
    }

    /// One pixel of a tile row.
    fn slice_pixel(
        &self,
        planes: &[[u8; 8]; 4],
        slice_addr: usize,
        bg_index: usize,
        bpp: usize,
        pal: usize,
        priority: bool,
        c: usize,
    ) -> (r: BackgroundPixel)
        requires
            self.wf(),
            slice_addr < 0x10000,
            bg_index < 4,
            bpp == 2 || bpp == 4 || bpp == 8,
            pal < 8,
            c < 8,
            forall|j: int| 0 <= j < 4 ==> planes[j] == plane_row(*self, slice_addr as int, j, bpp as int),
        ensures
            ({
                let v = column_value(*self, slice_addr as int, bpp as int, c as int);
                r == if v == 0 {
                    None
                } else {
                    Some((self.cgram@[palette_entry(*self, bg_index as int, bpp as int, pal as int, v)], priority))
                }
            }),
    {
        let v = (planes[0][c] % 4) as usize + 4 * (planes[1][c] % 4) as usize + 16 * (planes[2][c] % 4) as usize + 64 * (
        planes[3][c] % 4) as usize;
        if v == 0 {
            None
        } else if bpp == 2 {
            // Only the first plane counts: v < 4
            let i = if self.bg_mode == 0 { bg_index } else { 0 };
            Some((self.cgram[4 * 8 * i + 4 * pal + v], priority))
        } else if bpp == 4 {
            Some((self.cgram[16 * pal + v], priority))
        } else {
            Some((self.cgram[v], priority))
        }
    }

    /// The tile row that holds a screen position.
    fn tile_row_at(&self, bg_index: usize, pos: (usize, usize), bpp: usize) -> (r: (usize, usize, bool, bool, usize))
        requires
            self.wf(),
            bg_index < 4,
            background_in_range(self.backgrounds@[bg_index as int]),
            bpp == 2 || bpp == 4 || bpp == 8,
            pos.0 < 0x10000,
            pos.1 < 0x10000,
        ensures
            ({
                let t = tile_row(*self, bg_index as int, pos.0 as int, pos.1 as int, bpp as int);
                r.0 == t.0 && r.1 == t.1 && r.2 == t.2 && r.3 == t.3 && r.4 == t.4
            }),
            r.0 < 0x10000,
            r.1 < 8,
    {
        let b = self.backgrounds[bg_index];
        // Get the tilemap address and X/Y coord of the pixel in the tilemap
        let xs = (pos.0 + b.h_off as usize) % 512;
        let ys = (pos.1 + b.v_off as usize) % 512;
        let k: usize = (if xs >= 256 { 1 } else { 0 }) + (if ys >= 256 { 2 } else { 0 });
        let tilemap_addr = b.tilemap_addr + mirrored_tilemap_of(&b, k) * 0x400;
        let x = xs % 256;
        let y = ys % 256;
        // 2 bytes/tile, 32 tiles/row
        let tile_addr = 2 * tilemap_addr + 2 * (32 * (y / 8) + x / 8);
        // Load the tile
        let tile_low = self.vram[tile_addr % self.vram.len()];
        let tile_high = self.vram[(tile_addr + 1) % self.vram.len()];
        let tile_index = tile_low as usize + 0x100 * (tile_high % 4) as usize;
        let palette_index = ((tile_high / 4) % 8) as usize;
        let priority = (tile_high / 0x20) % 2 == 1;
        let flip_x = (tile_high / 0x40) % 2 == 1;
        let flip_y = tile_high >= 0x80;
        let fine_y = if flip_y { 7 - y % 8 } else { y % 8 };
        let slice_addr = (2 * b.chr_addr + 2 * fine_y + (bpp * 8 * tile_index)) % self.vram.len();
        (slice_addr, palette_index, priority, flip_x, x % 8)
    }

    /// The eight pixels of a tile row.
    fn row_pixels_at(&self, bg_index: usize, bpp: usize, t: (usize, usize, bool, bool, usize)) -> (r: [BackgroundPixel; 8])
        requires
            self.wf(),
            bg_index < 4,
            bpp == 2 || bpp == 4 || bpp == 8,
            t.0 < 0x10000,
            t.1 < 8,
        ensures
            r@ == row_pixels(*self, bg_index as int, bpp as int, (t.0 as int, t.1 as int, t.2, t.3, t.4 as int)),
    {
        let (slice_addr, palette_index, priority, flip_x, _) = t;
        // Get all the slices
        let planes = [
            self.plane_row_at(slice_addr, 0, bpp),
            self.plane_row_at(slice_addr, 1, bpp),
            self.plane_row_at(slice_addr, 2, bpp),
            self.plane_row_at(slice_addr, 3, bpp),
        ];
        let mut values: [BackgroundPixel; 8] = [None, None, None, None, None, None, None, None];
        let mut i: usize = 0;
        while i < 8
            invariant
                i <= 8,
                self.wf(),
                    bg_index < 4,
                bpp == 2 || bpp == 4 || bpp == 8,
                slice_addr < 0x10000,
                palette_index < 8,
                forall|j: int| 0 <= j < 4 ==> planes[j] == plane_row(*self, slice_addr as int, j, bpp as int),
                forall|j: int|
                    0 <= j < i ==> #[trigger] values@[j] == row_pixels(
                        *self,
                        bg_index as int,
                        bpp as int,
                        (slice_addr as int, palette_index as int, priority, flip_x, t.4 as int),
                    )[j],
            decreases 8 - i,
        {
            let c = if flip_x { 7 - i } else { i };
            let p = self.slice_pixel(&planes, slice_addr, bg_index, bpp, palette_index, priority, c);
            values.set(i, p);
            i = i + 1;
        }
        assert(values@ =~= row_pixels(*self, bg_index as int, bpp as int, (t.0 as int, t.1 as int, t.2, t.3, t.4 as int)));
        values
    }

    /// Get a slice of 8 background pixels that contains the given coordinates.
    /// Also return the X offset that the given coordinate is at in the slice.
    /// i.e. if x=13 y=0, then return the second slice in the background with offset 5
    pub fn get_background_slice(&self, bg_index: usize, pos: (usize, usize), bpp: usize) -> (r: (
        [BackgroundPixel; 8],
        usize,
    ))
        requires
            self.wf(),
            bg_index < 4,
            background_in_range(self.backgrounds@[bg_index as int]),
            bpp == 2 || bpp == 4 || bpp == 8,
            pos.0 < 0x10000,
            pos.1 < 0x10000,
        ensures
            r.0@ == background_slice(*self, bg_index as int, pos.0 as int, pos.1 as int, bpp as int).0,
            r.1 == background_slice(*self, bg_index as int, pos.0 as int, pos.1 as int, bpp as int).1,
    {
        let t = self.tile_row_at(bg_index, pos, bpp);
        let values = self.row_pixels_at(bg_index, bpp, t);
        // We "skip" the first (x % 8) pixels
        (values, t.4)
    }
}

} // verus!
