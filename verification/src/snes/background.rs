use vstd::prelude::*;

verus! {

/// How two window masks combine.
#[derive(Debug, Clone, Copy)]
pub enum WindowMaskLogic {
    Or,
    And,
    Xor,
    Xnor,
}

impl WindowMaskLogic {
    /// The logic given by the low two bits of a register value.
    pub open spec fn from_bits(value: u8) -> WindowMaskLogic {
        let v = value % 4;
        if v == 0 {
            WindowMaskLogic::Or
        } else if v == 1 {
            WindowMaskLogic::And
        } else if v == 2 {
            WindowMaskLogic::Xor
        } else {
            WindowMaskLogic::Xnor
        }
    }

    pub fn from(value: u8) -> (r: WindowMaskLogic)
        ensures
            r == Self::from_bits(value),
    {
        let v = value & 0x3;
        proof {
            crate::bits::lemma_two_bits(value);
        }
        if v == 0 {
            WindowMaskLogic::Or
        } else if v == 1 {
            WindowMaskLogic::And
        } else if v == 2 {
            WindowMaskLogic::Xor
        } else {
            WindowMaskLogic::Xnor
        }
    }

    /// The combination of two masks.
    pub open spec fn compute_spec(self, a: bool, b: bool) -> bool {
        match self {
            WindowMaskLogic::Or => a || b,
            WindowMaskLogic::And => a && b,
            WindowMaskLogic::Xor => a != b,
            WindowMaskLogic::Xnor => a == b,
        }
    }

    pub fn compute(&self, a: bool, b: bool) -> (r: bool)
        ensures
            r == self.compute_spec(a, b),
    {
        match self {
            WindowMaskLogic::Or => a || b,
            WindowMaskLogic::And => a && b,
            WindowMaskLogic::Xor => a != b,
            WindowMaskLogic::Xnor => a == b,
        }
    }
}

/// Every mask logic is symmetric in its two masks, and XNOR is the negation of XOR.
pub proof fn lemma_mask_logic_symmetric(l: WindowMaskLogic, a: bool, b: bool)
    ensures
        l.compute_spec(a, b) == l.compute_spec(b, a),
        WindowMaskLogic::Xnor.compute_spec(a, b) == !WindowMaskLogic::Xor.compute_spec(a, b),
{
}

} // verus!
