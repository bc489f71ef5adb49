use vstd::prelude::*;

verus! {

/// One past the largest value a 24-bit address can hold.
pub const OVERFLOW: u32 = 0x1000000;

/// A 24-bit value, such as a full bank:address pair on the 65816 address bus.
#[allow(nonstandard_style)]
#[derive(Clone, Copy)]
pub struct u24 {
    value: u32,
}

impl u24 {
    /// The number this value stands for.
    pub closed spec fn val(self) -> int {
        self.value as int
    }

    /// Every `u24` holds a number below 2^24.
    #[verifier::type_invariant]
    spec fn wf(self) -> bool {
        self.value < OVERFLOW
    }

    /// A value is never negative.
    pub broadcast proof fn lemma_val_nonneg(x: u24)
        ensures
            #[trigger] x.val() >= 0,
    {
    }

    /// The value as a plain number.
    pub fn value(&self) -> (r: u32)
        ensures
            r == self.val(),
            r < OVERFLOW,
    {
        proof {
            use_type_invariant(self);
        }
        self.value
    }

    /// Build a 24-bit value from a bank (the upper 8 bits) and an address (the lower 16).
    pub fn from(bank: u8, lower: u16) -> (r: u24)
        ensures
            r.val() < 0x1000000,
            r.val() == bank as int * 0x10000 + lower as int,
    {
        u24 { value: (bank as u32) * 0x10000 + lower as u32 }
    }

    /// A new value with the lower 16 bits of this one and the upper 8 bits given.
    pub fn with_bank(&self, bank: u8) -> (r: u24)
        ensures
            r.val() < 0x1000000,
            r.val() == bank as int * 0x10000 + self.val() % 0x10000,
    {
        let low = self.value & 0xFFFF;
        proof {
            let v = self.value;
            crate::bits::lemma_u32(v);
        }
        u24::from(bank, low as u16)
    }

    /// Add a number, wrapping around the whole 24-bit range.
    pub fn wrapping_add(&self, rhs: u32) -> (r: u24)
        ensures
            r.val() < 0x1000000,
            r.val() == (self.val() + rhs as int) % 0x1000000,
    {
        let sum = self.value.wrapping_add(rhs);
        proof {
            let a = self.value;
            let b = rhs;
            assert(a < 0x1000000 ==> (if a + b > u32::MAX { (a + b - 0x1_0000_0000) as u32 } else {
                (a + b) as u32 }) % 0x1000000 == (a + b) % 0x1000000) by (nonlinear_arith);
        }
        u24 { value: sum % OVERFLOW }
    }

    /// Build a value from three bytes, least significant first.
    pub fn from_le_bytes(bytes: [u8; 3]) -> (r: u24)
        ensures
            r.val() < 0x1000000,
            r.val() == bytes[0] as int + bytes[1] as int * 0x100 + bytes[2] as int * 0x10000,
    {
        let b0 = bytes[0] as u32;
        let b1 = bytes[1] as u32;
        let b2 = bytes[2] as u32;
        proof {
            assert(b0 < 256 && b1 < 256 && b2 < 256 ==> (b0 | (b1 << 8) | (b2 << 16)) == b0 + b1
                * 0x100 + b2 * 0x10000) by (bit_vector);
        }
        u24 { value: b0 | (b1 << 8) | (b2 << 16) }
    }

    /// Keep the lower 24 bits of a 32-bit number.
    pub fn from_u32(value: u32) -> (r: u24)
        ensures
            r.val() < 0x1000000,
            r.val() == value as int % 0x1000000,
    {
        proof {
            crate::bits::lemma_u32(value);
        }
        u24 { value: value & 0xFFFFFF }
    }
}

} // verus!
