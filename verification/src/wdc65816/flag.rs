use vstd::prelude::*;

verus! {

/// Utility struct that can act as a binary number (0 or 1) or a boolean.
#[derive(Debug, Clone, Copy, Default)]
pub struct Flag {
    value: u32,
}

impl Flag {
    /// The flag as a number.
    pub closed spec fn val(self) -> u32 {
        self.value
    }

    /// The flag from a boolean: 1 for `true`, 0 for `false`.
    pub fn from_bool(value: bool) -> (r: Flag)
        ensures
            r.val() == (if value { 1u32 } else { 0u32 }),
    {
        Flag { value: if value { 1 } else { 0 } }
    }

    /// The flag from a number, which must be 0 or 1.
    pub fn from_u32(value: u32) -> (r: Flag)
        requires
            value <= 1,
        ensures
            r.val() == value,
    {
        Flag { value }
    }

    /// The flag as a boolean: whether it is 1.
    pub fn as_bool(&self) -> (r: bool)
        ensures
            r == (self.val() == 1),
    {
        self.value == 1
    }

    /// The flag as a number.
    pub fn as_u32(&self) -> (r: u32)
        ensures
            r == self.val(),
    {
        self.value
    }

    /// Whether the flag equals a boolean.
    pub fn eq_bool(&self, other: bool) -> (r: bool)
        ensures
            r == ((self.val() == 1) == other),
    {
        (self.value == 1) == other
    }

    /// Whether the flag differs from a boolean.
    pub fn ne_bool(&self, other: bool) -> (r: bool)
        ensures
            r == ((self.val() == 0) == other),
    {
        (self.value == 0) == other
    }

    /// Whether the flag equals a number, which must be 0 or 1.
    pub fn eq_u32(&self, other: u32) -> (r: bool)
        requires
            other <= 1,
        ensures
            r == (self.val() == other),
    {
        self.value == other
    }

    /// Whether the flag differs from a number, which must be 0 or 1.
    pub fn ne_u32(&self, other: u32) -> (r: bool)
        requires
            other <= 1,
        ensures
            r == (self.val() != other),
    {
        self.value != other
    }

    /// Both flags set.
    pub fn bitand(self, rhs: Flag) -> (r: Flag)
        ensures
            r.val() == (if self.val() == 1 && rhs.val() == 1 { 1u32 } else { 0u32 }),
    {
        Flag::from_bool(self.as_bool() && rhs.as_bool())
    }
}

/// A flag made from a boolean reads back as that boolean.
pub proof fn lemma_flag_bool_roundtrip(b: bool, f: Flag)
    requires
        f.val() == (if b { 1u32 } else { 0u32 }),
    ensures
        (f.val() == 1) == b,
{
}

} // verus!
