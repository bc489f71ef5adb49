use vstd::prelude::*;

use crate::snes::ppu::Ppu;
use crate::snes::ppu_types::Sprite;
use crate::snes::utils::{quad, quad_weight};

verus! {

/// The two-bit field `i` (0 lowest) of a byte.
pub open spec fn field2(value: u8, i: int) -> int {
    (value as int / quad_weight(i)) % 4
}

/// A sprite after byte `k` (0 to 3) of its entry in the low OAM table is written.
pub open spec fn sprite_byte(s: Sprite, k: int, value: u8) -> Sprite {
    if k == 0 {
        Sprite { x: value as usize, ..s }
    } else if k == 1 {
        Sprite { y: value as usize, ..s }
    } else if k == 2 {
        Sprite { tile_index: value as usize, ..s }
    } else {
        Sprite {
            flip_y: value >= 0x80,
            flip_x: (value / 0x40) % 2 == 1,
            priority: ((value / 0x10) % 4) as usize,
            palette_index: ((value / 2) % 8) as usize,
            name_select: (value % 2) as usize,
            ..s
        }
    }
}

/// A sprite after its two bits of the high OAM table are written.
pub open spec fn sprite_high(s: Sprite, bits: int) -> Sprite {
    Sprite { msb_x: bits % 2 == 1, size_select: if (bits / 2) % 2 == 0 { 0 } else { 1 }, ..s }
}

/// The sprites after one OAM byte is written: the address wraps at 0x220; the first
/// 0x200 bytes hold four bytes per sprite, the last 0x20 two bits per sprite.
#[verifier::opaque]
pub open spec fn oam_written(sprites: Seq<Sprite>, addr: int, value: u8) -> Seq<Sprite> {
    let a = addr % 0x220;
    if a < 0x200 {
        sprites.update(a / 4, sprite_byte(sprites[a / 4], a % 4, value))
    } else {
        let base = (a - 0x200) * 4;
        Seq::new(
            sprites.len(),
            |j: int|
                if base <= j < base + 4 {
                    sprite_high(sprites[j], field2(value, j - base))
                } else {
                    sprites[j]
                },
        )
    }
}

/// The sprite table after a write to the OAM data register at address `a`: in the
/// low table a pair of bytes is written at once, on the odd address, from the latch
/// and the value; the high table is written byte by byte.
pub open spec fn oam_data_table(sprites: Seq<Sprite>, a: int, latch: u8, value: u8) -> Seq<Sprite> {
    let s1 = if a % 2 == 1 && a < 0x200 {
        oam_written(oam_written(sprites, (a - 1) % 0x200, latch), a % 0x200, value)
    } else {
        sprites
    };
    if a >= 0x200 {
        oam_written(s1, a, value)
    } else {
        s1
    }
}

/// OAMDATA: the sprite table as `oam_data_table` says, the latch keeps the byte
/// written on an even address, and the address moves on.
pub open spec fn oam_data_effect(old: Ppu, new: Ppu, value: u8) -> bool {
    &&& new.oam_sprites@ == oam_data_table(old.oam_sprites@, old.oam_addr as int, old.oam_latch, value)
    &&& new.oam_latch == if old.oam_addr % 2 == 0 { value } else { old.oam_latch }
    &&& new.oam_addr == (old.oam_addr + 1) % 0x10000
    &&& new == (Ppu { oam_sprites: new.oam_sprites, oam_latch: new.oam_latch, oam_addr: new.oam_addr, ..old })
}

/// Write a single byte to the sprite table.
fn write_sprite_table(sprites: &mut Vec<Sprite>, addr: usize, value: u8)
    requires
        old(sprites)@.len() == 0x80,
    ensures
        final(sprites)@ == oam_written(old(sprites)@, addr as int, value),
        final(sprites)@.len() == 0x80,
{
    reveal(oam_written);
    let addr = addr % 0x220;
    if addr < 0x200 {
        let sprite_index = (addr / 4) % sprites.len();
        let mut sprite = sprites[sprite_index];
        let k = addr % 4;
        if k == 0 {
            sprite.x = value as usize;
        } else if k == 1 {
            sprite.y = value as usize;
        } else if k == 2 {
            sprite.tile_index = value as usize;
        } else {
            sprite.flip_y = value >= 0x80;
            sprite.flip_x = (value / 0x40) % 2 == 1;
            sprite.priority = ((value / 0x10) % 4) as usize;
            sprite.palette_index = ((value / 2) % 8) as usize;
            sprite.name_select = (value % 2) as usize;
        }
        sprites.set(sprite_index, sprite);
        assert(sprites@ =~= oam_written(old(sprites)@, addr as int, value));
    } else {
        let index = (addr - 0x200) * 4;
        let mut i: usize = 0;
        while i < 4
            invariant
                i <= 4,
                index + 4 <= 0x80,
                index == (addr % 0x220 - 0x200) * 4,
                0x200 <= addr % 0x220,
                sprites@.len() == 0x80,
                forall|j: int|
                    0 <= j < 0x80 ==> #[trigger] sprites@[j] == (if index <= j < index + i {
                        sprite_high(old(sprites)@[j], field2(value, j - index))
                    } else {
                        old(sprites)@[j]
                    }),
            decreases 4 - i,
        {
            let d = value / quad(i);
            let mut s = sprites[index + i];
            s.msb_x = d % 2 == 1;
            s.size_select = if (d / 2) % 2 == 0 { 0 } else { 1 };
            sprites.set(index + i, s);
            i = i + 1;
        }
        assert(sprites@ =~= oam_written(old(sprites)@, addr as int, value));
    }
}

/// The sprite table after a write to the OAM data register at address `a`.
fn write_sprite_data(sprites: &mut Vec<Sprite>, a: usize, latch: u8, value: u8)
    requires
        old(sprites)@.len() == 0x80,
    ensures
        final(sprites)@.len() == 0x80,
        final(sprites)@ == oam_data_table(old(sprites)@, a as int, latch, value),
{
    if a % 2 == 1 && a < 0x200 {
        // Writes only on the second write (the address is odd)
        write_sprite_table(sprites, (a - 1) % 0x200, latch);
        write_sprite_table(sprites, a % 0x200, value);
    }
    if a >= 0x200 {
        // Writes immediately
        write_sprite_table(sprites, a, value);
    }
}

impl Ppu {
    /// Write a single byte to OAM
    pub fn write_oam_byte(&mut self, addr: usize, value: u8)
        requires
            old(self).wf(),
        ensures
            final(self).oam_sprites@ == oam_written(old(self).oam_sprites@, addr as int, value),
            *final(self) == (Ppu { oam_sprites: final(self).oam_sprites, ..*old(self) }),
    {
        write_sprite_table(&mut self.oam_sprites, addr, value);
    }

    /// A write to the OAM data register.
    pub fn write_oam_data(&mut self, value: u8)
        requires
            old(self).wf(),
        ensures
            oam_data_effect(*old(self), *final(self), value),
            final(self).wf(),
    {
        let a = self.oam_addr;
        let latch = self.oam_latch;
        let mut sprites: Vec<Sprite> = Vec::new();
        std::mem::swap(&mut sprites, &mut self.oam_sprites);
        write_sprite_data(&mut sprites, a, latch, value);
        self.oam_sprites = sprites;
        self.oam_latch = if a % 2 == 0 { value } else { latch };
        self.oam_addr = (a + 1) % 0x10000;
    }
}

} // verus!
