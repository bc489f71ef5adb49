use vstd::prelude::*;

use crate::snes::ppu::{frame_dots, xy_of_dot, Ppu, PIXELS_PER_SCANLINE, SCANLINES};

verus! {

/// The first line of vertical blanking.
pub open spec fn vblank_line(overscan: bool) -> usize {
    if overscan { 241 } else { 225 }
}

/// The dot one master clock later.
pub open spec fn next_dot(p: Ppu) -> usize {
    ((p.dot + 1) % frame_dots()) as usize
}

/// The position of the next dot, when the next master clock is a dot (every fourth).
pub open spec fn next_xy(p: Ppu) -> (usize, usize) {
    xy_of_dot(next_dot(p))
}

/// Whether the next master clock is the first dot of a line.
pub open spec fn next_line_start(p: Ppu) -> bool {
    next_dot(p) % 4 == 0 && next_xy(p).0 == 0
}

/// The blanking flag one master clock later: the first dot of the frame ends vertical
/// blanking, the first dot of the blanking line starts it.
pub open spec fn next_vblank(p: Ppu) -> bool {
    if next_line_start(p) && next_xy(p).1 == 0 {
        false
    } else if next_line_start(p) && next_xy(p).1 == vblank_line(p.overscan) {
        true
    } else {
        p.vblank
    }
}

/// The interlace field one master clock later: it flips on the first dot of the frame.
pub open spec fn next_field(p: Ppu) -> bool {
    if next_line_start(p) && next_xy(p).1 == 0 { !p.interlace_field } else { p.interlace_field }
}

/// The mosaic latch one master clock later: it moves on at the start of each line.
pub open spec fn next_mosaic(p: Ppu) -> usize {
    if next_line_start(p) {
        ((p.mosaic_v_latch + 1) % (p.mosaic_size as int)) as usize
    } else {
        p.mosaic_v_latch
    }
}

/// The PPU one master clock later.
#[verifier::opaque]
pub open spec fn dot_step(p: Ppu) -> Ppu {
    Ppu {
        dot: next_dot(p),
        vblank: next_vblank(p),
        interlace_field: next_field(p),
        mosaic_v_latch: next_mosaic(p),
        ..p
    }
}

/// The PPU `n` master clocks later.
pub open spec fn clocks_after(p: Ppu, n: nat) -> Ppu
    decreases n,
{
    if n == 0 {
        p
    } else {
        dot_step(clocks_after(p, (n - 1) as nat))
    }
}

/// The dot, the blanking flag, the interlace field and the mosaic latch one master
/// clock later.
fn dot_timing(p: &Ppu) -> (r: (usize, bool, bool, usize))
    requires
        p.wf(),
    ensures
        r == (next_dot(*p), next_vblank(*p), next_field(*p), next_mosaic(*p)),
{
    let dot = (p.dot + 1) % (4 * (PIXELS_PER_SCANLINE * SCANLINES));
    if dot % 4 != 0 {
        return (dot, p.vblank, p.interlace_field, p.mosaic_v_latch);
    }
    let t = (dot / 4).wrapping_sub(22);
    let x = t % PIXELS_PER_SCANLINE;
    let y = t / PIXELS_PER_SCANLINE;
    let mut vblank = p.vblank;
    let mut field = p.interlace_field;
    // Todo: check if this timing is correct
    if y == 0 && x == 0 {
        vblank = false;
        field = !field;
    }
    let vblank_scanline = if p.overscan { 241 } else { 225 };
    if y == vblank_scanline && x == 0 {
        vblank = true;
    }
    let mosaic = if x == 0 {
        // Update mosaic latch
        (p.mosaic_v_latch + 1) % p.mosaic_size
    } else {
        p.mosaic_v_latch
    };
    (dot, vblank, field, mosaic)
}

/// A PPU whose timing fields moved on as `dot_step` says, and nothing else, is `dot_step`
/// of the one before.
proof fn lemma_dot_step(prev: Ppu, cur: Ppu)
    requires
        cur.dot == next_dot(prev),
        cur.vblank == next_vblank(prev),
        cur.interlace_field == next_field(prev),
        cur.mosaic_v_latch == next_mosaic(prev),
        cur == (Ppu {
            dot: cur.dot,
            vblank: cur.vblank,
            interlace_field: cur.interlace_field,
            mosaic_v_latch: cur.mosaic_v_latch,
            ..prev
        }),
    ensures
        cur == dot_step(prev),
{
    reveal(dot_step);
}

/// Advancing `a` master clocks and then `b` is advancing `a + b`.
pub proof fn lemma_clocks_add(p: Ppu, a: nat, b: nat)
    ensures
        clocks_after(clocks_after(p, a), b) == clocks_after(p, a + b),
    decreases b,
{
    if b > 0 {
        lemma_clocks_add(p, a, (b - 1) as nat);
        assert(((a + b) - 1) as nat == a + (b - 1) as nat);
    }
}

/// Advancing the master clock changes only the dot, the blanking flag, the interlace
/// field and the mosaic latch: every register and memory stays.
pub proof fn lemma_clocks_keep_registers(p: Ppu, n: nat)
    ensures
        clocks_after(p, n) == (Ppu {
            dot: clocks_after(p, n).dot,
            vblank: clocks_after(p, n).vblank,
            interlace_field: clocks_after(p, n).interlace_field,
            mosaic_v_latch: clocks_after(p, n).mosaic_v_latch,
            ..p
        }),
    decreases n,
{
    reveal(dot_step);
    if n > 0 {
        lemma_clocks_keep_registers(p, (n - 1) as nat);
    }
}

/// Every master clock moves the dot on by one, around the frame: after `n` clocks the
/// dot is `n` further, modulo the frame's length (so a whole frame brings it back).
pub proof fn lemma_clocks_move_dot(p: Ppu, n: nat)
    requires
        p.dot < frame_dots(),
    ensures
        clocks_after(p, n).dot == (p.dot + n) % frame_dots(),
    decreases n,
{
    reveal(dot_step);
    let f = frame_dots();
    if n > 0 {
        let q = clocks_after(p, (n - 1) as nat);
        lemma_clocks_move_dot(p, (n - 1) as nat);
        vstd::arithmetic::div_mod::lemma_add_mod_noop((p.dot + n - 1) as int, 1, f);
        assert(f == 357368);
        vstd::arithmetic::div_mod::lemma_small_mod(1, f as nat);
        vstd::arithmetic::div_mod::lemma_mod_bound((p.dot + n - 1) as int, f);
        assert(0 <= q.dot < f);
        assert(next_dot(q) == (q.dot + 1) % f);
    } else {
        vstd::arithmetic::div_mod::lemma_small_mod(p.dot as nat, f as nat);
    }
}

impl Ppu {
    /// Advance by one master clock.
    pub fn advance_dot(&mut self)
        requires
            old(self).wf(),
        ensures
            final(self).dot == next_dot(*old(self)),
            final(self).vblank == next_vblank(*old(self)),
            final(self).interlace_field == next_field(*old(self)),
            final(self).mosaic_v_latch == next_mosaic(*old(self)),
            *final(self) == (Ppu {
                dot: final(self).dot,
                vblank: final(self).vblank,
                interlace_field: final(self).interlace_field,
                mosaic_v_latch: final(self).mosaic_v_latch,
                ..*old(self)
            }),
            final(self).wf(),
    {
        let (dot, vblank, field, mosaic) = dot_timing(self);
        self.dot = dot;
        self.vblank = vblank;
        self.interlace_field = field;
        self.mosaic_v_latch = mosaic;
    }

    /// Advance by `clock` master clocks.
    pub fn advance_master_clock(&mut self, clock: u32)
        requires
            old(self).wf(),
        ensures
            *final(self) == clocks_after(*old(self), clock as nat),
            final(self).wf(),
    {
        let mut i: u32 = 0;
        while i < clock
            invariant
                i <= clock,
                self.wf(),
                *self == clocks_after(*old(self), i as nat),
            decreases clock - i,
        {
            let ghost prev = *self;
            self.advance_dot();
            proof {
                lemma_dot_step(prev, *self);
            }
            i = i + 1;
        }
    }
}

} // verus!
