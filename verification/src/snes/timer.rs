use vstd::prelude::*;

verus! {

/// When the IRQ timer fires.
#[derive(Debug, Copy, Clone)]
pub enum TimerMode {
    Disabled,
    Horizontal,
    Vertical,
    HorizontalVertical,
}

impl TimerMode {
    /// The mode given by the low two bits of a register value.
    pub open spec fn from_bits(value: u8) -> TimerMode {
        let v = value % 4;
        if v == 0 {
            TimerMode::Disabled
        } else if v == 1 {
            TimerMode::Horizontal
        } else if v == 2 {
            TimerMode::Vertical
        } else {
            TimerMode::HorizontalVertical
        }
    }

    pub fn default() -> (r: TimerMode)
        ensures
            r == TimerMode::Disabled,
    {
        TimerMode::Disabled
    }

    pub fn from(value: u8) -> (r: TimerMode)
        ensures
            r == Self::from_bits(value),
    {
        let v = value & 0x03;
        proof {
            crate::bits::lemma_two_bits(value);
        }
        if v == 0 {
            TimerMode::Disabled
        } else if v == 1 {
            TimerMode::Horizontal
        } else if v == 2 {
            TimerMode::Vertical
        } else {
            TimerMode::HorizontalVertical
        }
    }

    /// Whether the timer fires, given whether the horizontal and the vertical targets
    /// have been reached.
    pub open spec fn triggers_spec(self, h: bool, v: bool) -> bool {
        match self {
            TimerMode::Disabled => false,
            TimerMode::Horizontal => h,
            TimerMode::Vertical => v,
            TimerMode::HorizontalVertical => h && v,
        }
    }

    pub fn triggers(&self, h: bool, v: bool) -> (r: bool)
        ensures
            r == self.triggers_spec(h, v),
    {
        match self {
            TimerMode::Disabled => false,
            TimerMode::Horizontal => h,
            TimerMode::Vertical => v,
            TimerMode::HorizontalVertical => h && v,
        }
    }
}

/// The byte whose bit `i` is `bits[i]`.
pub open spec fn byte_value(bits: Seq<bool>) -> int
    decreases bits.len(),
{
    if bits.len() == 0 {
        0
    } else {
        byte_value(bits.drop_last()) + if bits.last() { pow2_of(bits.len() - 1) } else { 0 }
    }
}

/// 2 to the power `n`, for small `n`.
pub open spec fn pow2_of(n: int) -> int
    decreases n,
{
    if n <= 0 { 1 } else { 2 * pow2_of(n - 1) }
}

/// Pack eight flags into a byte, the first as bit 0.
pub fn byte_from_bits(bits: [bool; 8]) -> (r: u8)
    ensures
        r == byte_value(bits@),
{
    let mut v: u16 = 0;
    let mut w: u16 = 1;
    let mut i: usize = 0;
    while i < 8
        invariant
            i <= 8,
            v == byte_value(bits@.subrange(0, i as int)),
            w == pow2_of(i as int),
            v < w,
            w <= 256,
        decreases 8 - i,
    {
        proof {
            assert(bits@.subrange(0, i as int + 1).drop_last() =~= bits@.subrange(0, i as int));
            reveal_with_fuel(pow2_of, 9);
        }
        if bits[i] {
            v = v + w;
        }
        w = w * 2;
        i = i + 1;
    }
    assert(bits@.subrange(0, 8) =~= bits@);
    v as u8
}

} // verus!
