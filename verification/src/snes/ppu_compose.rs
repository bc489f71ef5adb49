use vstd::prelude::*;

use crate::snes::color_math::ColorMathSource;
use crate::snes::ppu::Ppu;
use crate::snes::ppu_render::BackgroundPixel;
use crate::snes::utils::color_of;

verus! {

/// A layer at one dot: its pixel (or nothing), whether it is drawn on the main screen
/// and on the subscreen, and whether color math applies to it.
pub type Layer = (Option<u16>, bool, bool, bool);

/// Whether the dot column `x` is inside window `i`.
pub open spec fn in_window(p: Ppu, i: int, x: int) -> bool {
    p.windows@[i].left <= x <= p.windows@[i].right
}

/// Two window values combined: both enabled use the logic, one enabled alone counts
/// by itself, none gives false.
pub open spec fn combined_windows(e0: bool, e1: bool, v0: bool, v1: bool, logic: crate::snes::background::WindowMaskLogic) -> bool {
    if e0 {
        if e1 { logic.compute_spec(v0, v1) } else { v0 }
    } else if e1 {
        v1
    } else {
        false
    }
}

/// The value of the color window at column `x`.
pub open spec fn color_window_value(p: Ppu, x: int) -> bool {
    let w0 = p.windows@[0];
    let w1 = p.windows@[1];
    combined_windows(
        w0.enabled_color,
        w1.enabled_color,
        in_window(p, 0, x) != w0.invert_color,
        in_window(p, 1, x) != w1.invert_color,
        p.color_window_logic,
    )
}

/// Whether background `i` shows on the main screen (`main`) or the subscreen at column
/// `x`: it is enabled there and its windows, when they are enabled there, do not mask
/// it.
pub open spec fn bg_on_layer(p: Ppu, i: int, main: bool, x: int) -> bool {
    let b = p.backgrounds@[i];
    let enabled = if main { b.main_screen_enable } else { b.sub_screen_enable };
    let windows_on = if main { b.windows_enabled_main } else { b.windows_enabled_sub };
    enabled && !(windows_on && combined_windows(
        b.window_enabled[0],
        b.window_enabled[1],
        in_window(p, 0, x) != b.window_invert[0],
        in_window(p, 1, x) != b.window_invert[1],
        b.window_mask_logic,
    ))
}

/// Background `i` at priority `prio` as a layer.
pub open spec fn bg_layer(p: Ppu, i: int, prio: bool, x: int, px: BackgroundPixel) -> Layer {
    (
        match px {
            Some((v, q)) => if q == prio { Some(v) } else { None },
            None => None,
        },
        bg_on_layer(p, i, true, x),
        bg_on_layer(p, i, false, x),
        p.backgrounds@[i].color_math_enable,
    )
}

/// Whether the sprite window masks sprites at column `x`: exactly one of the two
/// windows that are enabled for sprites holds.
pub open spec fn sprite_window(p: Ppu, x: int) -> bool {
    let s0 = p.windows@[0].enabled_sprite && (p.windows@[0].invert_sprite != in_window(p, 0, x));
    let s1 = p.windows@[1].enabled_sprite && (p.windows@[1].invert_sprite != in_window(p, 1, x));
    s0 != s1
}

/// Sprite priority `k` as a layer.
pub open spec fn sprite_layer(p: Ppu, x: int, px: Option<u16>) -> Layer {
    (if sprite_window(p, x) { None } else { px }, p.obj_main_enable, p.obj_subscreen_enable, false)
}

/// The layers at column `x`, front to back, for the background mode.
pub open spec fn layers(p: Ppu, x: int, bgs: Seq<BackgroundPixel>, sprites: Seq<Option<u16>>) -> Seq<Layer> {
    let s3 = sprite_layer(p, x, sprites[3]);
    let s2 = sprite_layer(p, x, sprites[2]);
    let s1 = sprite_layer(p, x, sprites[1]);
    let s0 = sprite_layer(p, x, sprites[0]);
    let b = |i: int, prio: bool| bg_layer(p, i, prio, x, bgs[i]);
    let empty: Layer = (None, false, false, false);
    if p.bg_mode == 0 {
        seq![s3, b(0, true), b(1, true), s2, b(0, false), b(1, false), s1, b(2, true), b(3, true), s0, b(2, false), b(3, false)]
    } else if p.bg_mode == 1 {
        seq![
            if p.bg3_prio { b(2, true) } else { empty },
            s3,
            b(0, true),
            b(1, true),
            s2,
            b(0, false),
            b(1, false),
            s1,
            if p.bg3_prio { empty } else { b(2, true) },
            s0,
            b(2, false),
        ]
    } else if p.bg_mode == 7 {
        seq![s3, s2, b(1, true), s1, b(0, true), b(0, false), s0, b(2, false)]
    } else {
        seq![s3, b(0, true), s2, b(1, true), s1, b(0, false), s0, b(1, false)]
    }
}

/// The first layer from `i` on with a pixel that is drawn on the main screen (`main`)
/// or the subscreen: its pixel and whether color math applies to it.
pub open spec fn first_drawn(s: Seq<Layer>, main: bool, i: int) -> Option<(u16, bool)>
    decreases s.len() - i,
{
    if i < 0 || i >= s.len() {
        None
    } else if s[i].0 is Some && (if main { s[i].1 } else { s[i].2 }) {
        Some((s[i].0->0, s[i].3))
    } else {
        first_drawn(s, main, i + 1)
    }
}

/// The color at column `x` given the background pixels and the sprite pixels: the
/// front pixel of the main screen, blended with the color math source (the subscreen's
/// front pixel or the fixed color) where color math applies, the backdrop where no
/// layer draws, and black where the color window hides the main screen.
pub open spec fn composed_color(p: Ppu, x: int, bgs: Seq<BackgroundPixel>, sprites: Seq<Option<u16>>) -> int {
    let s = layers(p, x, bgs, sprites);
    let sub = first_drawn(s, false, 0);
    let main = first_drawn(s, true, 0);
    let cwv = color_window_value(p, x);
    let fixed = color_of(p.fixed_color[0] as int, p.fixed_color[1] as int, p.fixed_color[2] as int) as u16;
    let source: Option<u16> = if p.color_window_sub_region.compute_spec(cwv) {
        None
    } else {
        match p.color_math_src {
            ColorMathSource::Subscreen => match sub {
                Some((c, _)) => Some(c),
                None => Some(fixed),
            },
            ColorMathSource::Fixed => Some(fixed),
        }
    };
    let blend = |c: u16|
        match source {
            Some(src) => p.color_blend_mode.compute_spec(c, src),
            None => c as int,
        };
    if p.color_window_main_region.compute_spec(cwv) {
        0
    } else {
        match main {
            Some((c, math)) => if math { blend(c) } else { c as int },
            None => if p.color_math_enable_backdrop { blend(p.cgram@[0]) } else { p.cgram@[0] as int },
        }
    }
}

/// The first layer with a pixel drawn on the main screen (`main`) or the subscreen.
fn first_drawn_in(s: &Vec<Layer>, main: bool) -> (r: Option<(u16, bool)>)
    ensures
        r == first_drawn(s@, main, 0),
{
    let mut i: usize = 0;
    while i < s.len()
        invariant
            i <= s@.len(),
            first_drawn(s@, main, 0) == first_drawn(s@, main, i as int),
        decreases s@.len() - i,
    {
        let l = s[i];
        if l.0.is_some() && (if main { l.1 } else { l.2 }) {
            return Some((l.0.unwrap(), l.3));
        }
        i = i + 1;
    }
    None
}

/// Two window values combined.
fn combine_windows(e0: bool, e1: bool, v0: bool, v1: bool, logic: crate::snes::background::WindowMaskLogic) -> (r: bool)
    ensures
        r == combined_windows(e0, e1, v0, v1, logic),
{
    if e0 {
        if e1 { logic.compute(v0, v1) } else { v0 }
    } else if e1 {
        v1
    } else {
        false
    }
}

impl Ppu {
    /// Whether column `x` is inside window `i`.
    fn in_window_at(&self, i: usize, x: usize) -> (r: bool)
        requires
            self.wf(),
            i < 2,
        ensures
            r == in_window(*self, i as int, x as int),
    {
        self.windows[i].left <= x && x <= self.windows[i].right
    }

    /// Whether background `i` shows on the main screen or the subscreen at column `x`.
    fn bg_on_layer_at(&self, i: usize, main: bool, x: usize) -> (r: bool)
        requires
            self.wf(),
            i < 4,
        ensures
            r == bg_on_layer(*self, i as int, main, x as int),
    {
        let b = self.backgrounds[i];
        let enabled = if main { b.main_screen_enable } else { b.sub_screen_enable };
        if !enabled {
            return false;
        }
        let windows_on = if main { b.windows_enabled_main } else { b.windows_enabled_sub };
        let v = if windows_on {
            combine_windows(
                b.window_enabled[0],
                b.window_enabled[1],
                self.in_window_at(0, x) != b.window_invert[0],
                self.in_window_at(1, x) != b.window_invert[1],
                b.window_mask_logic,
            )
        } else {
            false
        };
        // If window returns false, should return true
        !v
    }

    /// Background `i` at priority `prio` as a layer.
    fn bg_layer_at(&self, i: usize, prio: bool, x: usize, px: BackgroundPixel) -> (r: Layer)
        requires
            self.wf(),
            i < 4,
        ensures
            r == bg_layer(*self, i as int, prio, x as int, px),
    {
        let v = match px {
            Some((v, q)) => if q == prio { Some(v) } else { None },
            None => None,
        };
        (v, self.bg_on_layer_at(i, true, x), self.bg_on_layer_at(i, false, x), self.backgrounds[i].color_math_enable)
    }

    /// A sprite pixel as a layer.
    fn sprite_layer_at(&self, x: usize, px: Option<u16>) -> (r: Layer)
        requires
            self.wf(),
        ensures
            r == sprite_layer(*self, x as int, px),
    {
        let s0 = self.windows[0].enabled_sprite && (self.windows[0].invert_sprite != self.in_window_at(0, x));
        let s1 = self.windows[1].enabled_sprite && (self.windows[1].invert_sprite != self.in_window_at(1, x));
        let sw = s0 != s1;
        (if sw { None } else { px }, self.obj_main_enable, self.obj_subscreen_enable, false)
    }

    /// The layers at column `x`, front to back.
    fn layers_at(&self, x: usize, bgs: &[BackgroundPixel; 4], sprites: &[Option<u16>; 4]) -> (r: Vec<Layer>)
        requires
            self.wf(),
        ensures
            r@ == layers(*self, x as int, bgs@, sprites@),
    {
        let s3 = self.sprite_layer_at(x, sprites[3]);
        let s2 = self.sprite_layer_at(x, sprites[2]);
        let s1 = self.sprite_layer_at(x, sprites[1]);
        let s0 = self.sprite_layer_at(x, sprites[0]);
        let b0t = self.bg_layer_at(0, true, x, bgs[0]);
        let b0f = self.bg_layer_at(0, false, x, bgs[0]);
        let b1t = self.bg_layer_at(1, true, x, bgs[1]);
        let b1f = self.bg_layer_at(1, false, x, bgs[1]);
        let b2t = self.bg_layer_at(2, true, x, bgs[2]);
        let b2f = self.bg_layer_at(2, false, x, bgs[2]);
        let b3t = self.bg_layer_at(3, true, x, bgs[3]);
        let b3f = self.bg_layer_at(3, false, x, bgs[3]);
        let empty: Layer = (None, false, false, false);
        let r = if self.bg_mode == 0 {
            vec![s3, b0t, b1t, s2, b0f, b1f, s1, b2t, b3t, s0, b2f, b3f]
        } else if self.bg_mode == 1 {
            vec![
                if self.bg3_prio { b2t } else { empty },
                s3,
                b0t,
                b1t,
                s2,
                b0f,
                b1f,
                s1,
                if self.bg3_prio { empty } else { b2t },
                s0,
                b2f,
            ]
        } else if self.bg_mode == 7 {
            vec![s3, s2, b1t, s1, b0t, b0f, s0, b2f]
        } else {
            vec![s3, b0t, s2, b1t, s1, b0f, s0, b1f]
        };
        assert(r@ =~= layers(*self, x as int, bgs@, sprites@));
        r
    }

    /// The color at column `x` from the background and sprite pixels there.
    pub fn compose_pixel(&self, x: usize, bgs: &[BackgroundPixel; 4], sprites: &[Option<u16>; 4]) -> (r: u16)
        requires
            self.wf(),
        ensures
            r == composed_color(*self, x as int, bgs@, sprites@),
    {
        let in_order = self.layers_at(x, bgs, sprites);
        // Evaluate subscreen value
        let subscreen_val = first_drawn_in(&in_order, false);
        let mainscreen_val = first_drawn_in(&in_order, true);
        let cwv = combine_windows(
            self.windows[0].enabled_color,
            self.windows[1].enabled_color,
            self.in_window_at(0, x) != self.windows[0].invert_color,
            self.in_window_at(1, x) != self.windows[1].invert_color,
            self.color_window_logic,
        );
        let fixed = self.fixed_color_value();
        // Can be none if if the color window makes the sub screen transparent
        let color_math_source = if self.color_window_sub_region.compute(cwv) {
            None
        } else {
            match self.color_math_src {
                // Backdrop for the subscreen is the fixed color
                ColorMathSource::Subscreen => match subscreen_val {
                    Some((c, _)) => Some(c),
                    None => Some(fixed),
                },
                ColorMathSource::Fixed => Some(fixed),
            }
        };
        // Whether the window is masking the main layer
        if self.color_window_main_region.compute(cwv) {
            return 0;
        }
        match mainscreen_val {
            Some((c, math)) => {
                if math {
                    match color_math_source {
                        Some(src) => self.color_blend_mode.compute(c, src),
                        None => c,
                    }
                } else {
                    c
                }
            },
            None => {
                if self.color_math_enable_backdrop {
                    match color_math_source {
                        Some(src) => self.color_blend_mode.compute(self.cgram[0], src),
                        None => self.cgram[0],
                    }
                } else {
                    self.cgram[0]
                }
            },
        }
    }
}

/// A layer in front of the one at `j` that is drawn hides it: two layer lists that
/// differ only at `j` give the same front pixel when an earlier layer `i` is drawn.
proof fn lemma_front_hides(s1: Seq<Layer>, s2: Seq<Layer>, main: bool, i: int, j: int, k: int)
    requires
        s1.len() == s2.len(),
        0 <= k <= i < j < s1.len(),
        s1[i] == s2[i],
        s1[i].0 is Some,
        if main { s1[i].1 } else { s1[i].2 },
        forall|t: int| 0 <= t < j ==> s1[t] == s2[t],
    ensures
        first_drawn(s1, main, k) == first_drawn(s2, main, k),
    decreases i - k,
{
    if k < i {
        assert(s1[k] == s2[k]);
        if !(s1[k].0 is Some && (if main { s1[k].1 } else { s1[k].2 })) {
            lemma_front_hides(s1, s2, main, i, j, k + 1);
        }
    }
}

/// In every background mode but 7, BG1 is in front of BG2 at the same priority: where
/// both have an opaque pixel of that priority and BG1 shows on the main screen, the
/// main screen's front pixel is the same as without BG2's pixel, so BG2's pixel never
/// shows through BG1's. (In mode 7 the second layer is the high-priority EXTBG layer,
/// which is drawn in front of BG1.)
pub proof fn lemma_bg1_in_front_of_bg2(
    p: Ppu,
    x: int,
    bgs: Seq<BackgroundPixel>,
    sprites: Seq<Option<u16>>,
    c0: u16,
    c1: u16,
    q: bool,
)
    requires
        bgs.len() == 4,
        sprites.len() == 4,
        p.bg_mode != 7,
        bgs[0] == Some((c0, q)),
        bgs[1] == Some((c1, q)),
        bg_on_layer(p, 0, true, x),
    ensures
        first_drawn(layers(p, x, bgs, sprites), true, 0) == first_drawn(layers(p, x, bgs.update(1, None), sprites), true, 0),
{
    let bgs2 = bgs.update(1, None);
    let s1 = layers(p, x, bgs, sprites);
    let s2 = layers(p, x, bgs2, sprites);
    assert(bgs2[0] == bgs[0] && bgs2[2] == bgs[2] && bgs2[3] == bgs[3]);
    assert(bg_layer(p, 1, !q, x, bgs[1]) == bg_layer(p, 1, !q, x, bgs2[1]));
    let (i, j) = if p.bg_mode == 0 {
        if q { (1int, 2int) } else { (4int, 5int) }
    } else if p.bg_mode == 1 {
        if q { (2int, 3int) } else { (5int, 6int) }
    } else {
        if q { (1int, 3int) } else { (5int, 7int) }
    };
    assert(s1[i] == bg_layer(p, 0, q, x, bgs[0]));
    assert(s1.len() == s2.len());
    assert forall|t: int| 0 <= t < j implies s1[t] == s2[t] by {
    }
    lemma_front_hides(s1, s2, true, i, j, 0);
}

/// In every background mode, BG2's high-priority pixel is in front of BG1's
/// low-priority pixel: where both are opaque and BG2 shows on the main screen, the main
/// screen's front pixel is the same as without BG1's pixel.
pub proof fn lemma_high_bg2_over_low_bg1(
    p: Ppu,
    x: int,
    bgs: Seq<BackgroundPixel>,
    sprites: Seq<Option<u16>>,
    c0: u16,
    c1: u16,
)
    requires
        bgs.len() == 4,
        sprites.len() == 4,
        bgs[0] == Some((c0, false)),
        bgs[1] == Some((c1, true)),
        bg_on_layer(p, 1, true, x),
    ensures
        first_drawn(layers(p, x, bgs, sprites), true, 0) == first_drawn(layers(p, x, bgs.update(0, None), sprites), true, 0),
{
    let bgs2 = bgs.update(0, None);
    let s1 = layers(p, x, bgs, sprites);
    let s2 = layers(p, x, bgs2, sprites);
    assert(bgs2[1] == bgs[1] && bgs2[2] == bgs[2] && bgs2[3] == bgs[3]);
    assert(bg_layer(p, 0, true, x, bgs[0]) == bg_layer(p, 0, true, x, bgs2[0]));
    let (i, j) = if p.bg_mode == 0 {
        (2int, 4int)
    } else if p.bg_mode == 1 {
        (3int, 5int)
    } else if p.bg_mode == 7 {
        (2int, 5int)
    } else {
        (3int, 5int)
    };
    assert(s1[i] == bg_layer(p, 1, true, x, bgs[1]));
    assert forall|t: int| 0 <= t < j implies s1[t] == s2[t] by {
    }
    lemma_front_hides(s1, s2, true, i, j, 0);
}

/// A sprite pixel of priority 3 shown on the main screen is in front of every
/// background (except BG3's high-priority pixels in mode 1 when BG3 is given the top
/// priority): removing background `b`'s pixel leaves the main screen's front pixel as
/// it is.
pub proof fn lemma_top_sprite_in_front(p: Ppu, x: int, bgs: Seq<BackgroundPixel>, sprites: Seq<Option<u16>>, b: int)
    requires
        bgs.len() == 4,
        sprites.len() == 4,
        0 <= b < 4,
        sprites[3] is Some,
        !sprite_window(p, x),
        p.obj_main_enable,
        !(p.bg_mode == 1 && p.bg3_prio && b == 2),
    ensures
        first_drawn(layers(p, x, bgs, sprites), true, 0) == first_drawn(layers(p, x, bgs.update(b, None), sprites), true, 0),
{
    let bgs2 = bgs.update(b, None);
    let s1 = layers(p, x, bgs, sprites);
    let s2 = layers(p, x, bgs2, sprites);
    let i = if p.bg_mode == 1 { 1int } else { 0int };
    assert(s1[i] == sprite_layer(p, x, sprites[3]));
    assert(s1[i] == s2[i]);
    if p.bg_mode == 1 && p.bg3_prio {
        assert(bgs2[2] == bgs[2]);
    }
    assert forall|t: int| 0 <= t < i + 1 implies s1[t] == s2[t] by {
    }
    lemma_front_hides(s1, s2, true, i, i + 1, 0);
}

} // verus!
