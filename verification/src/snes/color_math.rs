use vstd::prelude::*;

use crate::snes::utils::{color_of, color_to_rgb, rgb_of, rgb_to_color};

verus! {

/// How color math combines the main screen with the sub screen or fixed color.
#[derive(Clone, Copy, Debug)]
pub enum ColorBlendMode {
    Add,
    Subtract,
    AddHalf,
    SubtractHalf,
}

/// Where the second color of color math comes from.
#[derive(Clone, Copy, Debug)]
pub enum ColorMathSource {
    Fixed,
    Subscreen,
}

/// `x` limited to 31, the largest 5-bit component.
pub open spec fn clamp31(x: int) -> int {
    if x > 31 { 31 } else { x }
}

impl ColorBlendMode {
    /// The mode given by the low two bits of a register value.
    pub open spec fn from_bits(value: u8) -> ColorBlendMode {
        let v = value % 4;
        if v == 0 {
            ColorBlendMode::Add
        } else if v == 1 {
            ColorBlendMode::AddHalf
        } else if v == 2 {
            ColorBlendMode::Subtract
        } else {
            ColorBlendMode::SubtractHalf
        }
    }

    pub fn from(value: u8) -> (r: ColorBlendMode)
        ensures
            r == Self::from_bits(value),
    {
        let v = value & 0x03;
        proof {
            crate::bits::lemma_two_bits(value);
        }
        if v == 0 {
            ColorBlendMode::Add
        } else if v == 1 {
            ColorBlendMode::AddHalf
        } else if v == 2 {
            ColorBlendMode::Subtract
        } else {
            ColorBlendMode::SubtractHalf
        }
    }

    /// One component of the blend: sums and differences are kept within 0 to 31
    /// (differences stop at 0), and the halving modes halve the result first.
    pub open spec fn channel(self, l: int, r: int) -> int {
        match self {
            ColorBlendMode::Add => clamp31(l + r),
            ColorBlendMode::Subtract => clamp31(if l > r { l - r } else { 0 }),
            ColorBlendMode::AddHalf => clamp31((l + r) / 2),
            ColorBlendMode::SubtractHalf => clamp31((if l > r { l - r } else { 0 }) / 2),
        }
    }

    /// The blend of two 15-bit colors, component by component.
    pub open spec fn compute_spec(self, left: u16, right: u16) -> int {
        let l = rgb_of(left);
        let r = rgb_of(right);
        color_of(self.channel(l[0] as int, r[0] as int), self.channel(l[1] as int, r[1] as int), self.channel(
            l[2] as int,
            r[2] as int,
        ))
    }

    fn blend_channel(&self, l: u16, r: u16) -> (c: u16)
        requires
            l < 32,
            r < 32,
        ensures
            c == self.channel(l as int, r as int),
            c < 32,
    {
        let v = match self {
            ColorBlendMode::Add => l.saturating_add(r),
            ColorBlendMode::Subtract => l.saturating_sub(r),
            ColorBlendMode::AddHalf => l.saturating_add(r) / 2,
            ColorBlendMode::SubtractHalf => l.saturating_sub(r) / 2,
        };
        if v > 31 {
            31
        } else {
            v
        }
    }

    pub fn compute(&self, left: u16, right: u16) -> (c: u16)
        ensures
            c == self.compute_spec(left, right),
    {
        let l_rgb = color_to_rgb(left);
        let r_rgb = color_to_rgb(right);
        let c0 = self.blend_channel(l_rgb[0], r_rgb[0]);
        let c1 = self.blend_channel(l_rgb[1], r_rgb[1]);
        let c2 = self.blend_channel(l_rgb[2], r_rgb[2]);
        rgb_to_color([c0, c1, c2])
    }
}

/// Adding black changes nothing (for a 15-bit color).
pub proof fn lemma_add_black(color: u16)
    requires
        color < 0x8000,
    ensures
        ColorBlendMode::Add.compute_spec(color, 0) == color,
        ColorBlendMode::Subtract.compute_spec(color, 0) == color,
{
    crate::snes::utils::lemma_color_roundtrip(color);
    assert(rgb_of(0) =~= seq![0u16, 0, 0]);
}

/// Blending laws: addition (plain or halved) does not depend on the order of the two
/// colors; subtracting a color from itself gives black; the halved sum of a color with
/// itself is the color; and every blend is a 15-bit color.
pub proof fn lemma_blend_laws(x: u16, y: u16)
    requires
        x < 0x8000,
        y < 0x8000,
    ensures
        ColorBlendMode::Add.compute_spec(x, y) == ColorBlendMode::Add.compute_spec(y, x),
        ColorBlendMode::AddHalf.compute_spec(x, y) == ColorBlendMode::AddHalf.compute_spec(y, x),
        ColorBlendMode::Subtract.compute_spec(x, x) == 0,
        ColorBlendMode::SubtractHalf.compute_spec(x, x) == 0,
        ColorBlendMode::AddHalf.compute_spec(x, x) == x,
        forall|m: ColorBlendMode| 0 <= #[trigger] m.compute_spec(x, y) < 0x8000,
{
    crate::snes::utils::lemma_color_roundtrip(x);
    let cx = rgb_of(x);
    let cy = rgb_of(y);
    assert(cx[0] < 32 && cx[1] < 32 && cx[2] < 32);
    assert(cy[0] < 32 && cy[1] < 32 && cy[2] < 32);
    assert forall|m: ColorBlendMode| 0 <= #[trigger] m.compute_spec(x, y) < 0x8000 by {
        assert(0 <= m.channel(cx[0] as int, cy[0] as int) <= 31);
        assert(0 <= m.channel(cx[1] as int, cy[1] as int) <= 31);
        assert(0 <= m.channel(cx[2] as int, cy[2] as int) <= 31);
    }
}

} // verus!
