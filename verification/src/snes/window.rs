use vstd::prelude::*;

verus! {

/// A window: the columns `left` to `right` of a scanline.
#[derive(Default, Debug, Clone, Copy)]
pub struct Window {
    pub left: usize,
    pub right: usize,
    pub enabled_color: bool,
    pub invert_color: bool,
    /// Window enabled for sprites/OAM
    pub enabled_sprite: bool,
    /// Window inverted for sprites/OAM
    pub invert_sprite: bool,
}

/// Where color math (or clipping) applies, relative to the windows.
#[derive(Clone, Copy, Debug)]
pub enum WindowRegion {
    Nowhere,
    Outside,
    Inside,
    Everywhere,
}

impl WindowRegion {
    /// The region given by the low two bits of a register value.
    pub open spec fn from_bits(value: u8) -> WindowRegion {
        let v = value % 4;
        if v == 0 {
            WindowRegion::Nowhere
        } else if v == 1 {
            WindowRegion::Outside
        } else if v == 2 {
            WindowRegion::Inside
        } else {
            WindowRegion::Everywhere
        }
    }

    pub fn from(value: u8) -> (r: WindowRegion)
        ensures
            r == Self::from_bits(value),
    {
        let v = value & 0x03;
        proof {
            crate::bits::lemma_two_bits(value);
        }
        if v == 0 {
            WindowRegion::Nowhere
        } else if v == 1 {
            WindowRegion::Outside
        } else if v == 2 {
            WindowRegion::Inside
        } else {
            WindowRegion::Everywhere
        }
    }

    /// Whether a pixel is in the region, given whether it is inside the window.
    pub open spec fn compute_spec(self, val: bool) -> bool {
        match self {
            WindowRegion::Nowhere => false,
            WindowRegion::Everywhere => true,
            WindowRegion::Inside => val,
            WindowRegion::Outside => !val,
        }
    }

    pub fn compute(&self, val: bool) -> (r: bool)
        ensures
            r == self.compute_spec(val),
    {
        match self {
            WindowRegion::Nowhere => false,
            WindowRegion::Everywhere => true,
            WindowRegion::Inside => val,
            WindowRegion::Outside => !val,
        }
    }
}

/// Inside and Outside are complements; Nowhere and Everywhere ignore the window.
pub proof fn lemma_region_complement(val: bool)
    ensures
        WindowRegion::Inside.compute_spec(val) != WindowRegion::Outside.compute_spec(val),
        !WindowRegion::Nowhere.compute_spec(val),
        WindowRegion::Everywhere.compute_spec(val),
{
}

} // verus!
