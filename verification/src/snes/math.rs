use vstd::prelude::*;

verus! {

/// The byte `i` (0 low, 1 high) of a 16-bit number.
pub open spec fn byte_of(w: int, i: int) -> u8 {
    if i == 0 { (w % 0x100) as u8 } else { ((w / 0x100) % 0x100) as u8 }
}

/// The 16-bit number with the given little-endian bytes.
pub open spec fn le_word(b: [u8; 2]) -> int {
    b[0] + 0x100 * b[1]
}

/// The SNES multiplication and division registers.
#[derive(Copy, Clone)]
pub struct Math {
    // Multiplication values
    m_a: u8,
    m_b: u8,
    // Multiplication result
    m_r: u16,
    /// Dividend, as LE bytes
    dividend: [u8; 2],
    /// Divisor
    divisor: u8,
    /// Division result, as LE bytes
    div_res: [u8; 2],
    /// Product or remainder, as LE bytes
    product_remainder: [u8; 2],
}

impl Default for Math {
    /// All registers cleared.
    fn default() -> (r: Math)
        ensures
            r.multiplicand() == 0,
            r.dividend_spec() == 0,
            r.quotient() == 0,
            r.product_or_remainder() == 0,
            r.is_cleared(),
    {
        Math { m_a: 0, m_b: 0, m_r: 0, dividend: [0, 0], divisor: 0, div_res: [0, 0], product_remainder: [0, 0] }
    }
}

impl Math {
    /// Whether every register of the unit, the multiplier and divisor included, is 0.
    pub closed spec fn is_cleared(self) -> bool {
        self == (Math { m_a: 0, m_b: 0, m_r: 0, dividend: [0, 0], divisor: 0, div_res: [0, 0], product_remainder: [0, 0] })
    }

    /// The multiplicand (written at 0x4202).
    pub closed spec fn multiplicand(self) -> u8 {
        self.m_a
    }

    /// The dividend as written at 0x4204 and 0x4205.
    pub closed spec fn dividend_spec(self) -> int {
        le_word(self.dividend)
    }

    /// The multiplier (written at 0x4203).
    pub closed spec fn multiplier(self) -> u8 {
        self.m_b
    }

    /// The divisor (written at 0x4206).
    pub closed spec fn divisor_reg(self) -> u8 {
        self.divisor
    }

    /// The register that no write or read reaches.
    pub closed spec fn spare(self) -> u16 {
        self.m_r
    }

    /// The quotient register (0x4214, 0x4215), which also holds the multiplier after
    /// a multiplication.
    pub closed spec fn quotient(self) -> int {
        le_word(self.div_res)
    }

    /// The product or remainder register (0x4216, 0x4217).
    pub closed spec fn product_or_remainder(self) -> int {
        le_word(self.product_remainder)
    }

    /// What reading `address` gives.
    pub open spec fn read_spec(self, address: usize) -> u8 {
        if address == 0x4214 {
            byte_of(self.quotient(), 0)
        } else if address == 0x4215 {
            byte_of(self.quotient(), 1)
        } else if address == 0x4216 {
            byte_of(self.product_or_remainder(), 0)
        } else if address == 0x4217 {
            byte_of(self.product_or_remainder(), 1)
        } else {
            0
        }
    }

    /// What a write of `value` to `address` does to the unit (see [`Math::write_byte`]).
    pub open spec fn written(old: Math, new: Math, address: usize, value: u8) -> bool {
        &&& (address == 0x4202 ==> new.multiplicand() == value
            && new.dividend_spec() == old.dividend_spec()
            && new.quotient() == old.quotient()
            && new.product_or_remainder() == old.product_or_remainder())
        &&& (address == 0x4203 ==> new.multiplicand() == old.multiplicand()
            && new.dividend_spec() == old.dividend_spec()
            && new.product_or_remainder() == old.multiplicand() * value
            && new.quotient() == value)
        &&& (address == 0x4204 ==> new.multiplicand() == old.multiplicand()
            && new.dividend_spec() == value + 0x100 * byte_of(old.dividend_spec(), 1)
            && new.quotient() == old.quotient()
            && new.product_or_remainder() == old.product_or_remainder())
        &&& (address == 0x4205 ==> new.multiplicand() == old.multiplicand()
            && new.dividend_spec() == byte_of(old.dividend_spec(), 0) + 0x100 * value
            && new.quotient() == old.quotient()
            && new.product_or_remainder() == old.product_or_remainder())
        &&& (address == 0x4206 ==> new.multiplicand() == old.multiplicand()
            && new.dividend_spec() == old.dividend_spec()
            && (value == 0 ==> new.quotient() == 0xFFFF
                && new.product_or_remainder() == old.dividend_spec())
            && (value != 0 ==> new.quotient() == old.dividend_spec() / (value as int)
                && new.product_or_remainder() == old.dividend_spec() % (value as int)))
        &&& (!(0x4202 <= address <= 0x4206) ==> new == old)
    }

    /// Write a register: 0x4202 sets the multiplicand, 0x4203 the multiplier (and
    /// multiplies), 0x4204/0x4205 the dividend, 0x4206 the divisor (and divides; a
    /// zero divisor gives the quotient 0xFFFF and the dividend as remainder).
    pub fn write_byte(&mut self, address: usize, value: u8)
        ensures
            address == 0x4202 ==> final(self).multiplicand() == value
                && final(self).dividend_spec() == old(self).dividend_spec()
                && final(self).quotient() == old(self).quotient()
                && final(self).product_or_remainder() == old(self).product_or_remainder(),
            address == 0x4203 ==> final(self).multiplicand() == old(self).multiplicand()
                && final(self).dividend_spec() == old(self).dividend_spec()
                && final(self).product_or_remainder() == old(self).multiplicand() * value
                && final(self).quotient() == value,
            address == 0x4204 ==> final(self).multiplicand() == old(self).multiplicand()
                && final(self).dividend_spec() == value + 0x100 * byte_of(old(self).dividend_spec(), 1)
                && final(self).quotient() == old(self).quotient()
                && final(self).product_or_remainder() == old(self).product_or_remainder(),
            address == 0x4205 ==> final(self).multiplicand() == old(self).multiplicand()
                && final(self).dividend_spec() == byte_of(old(self).dividend_spec(), 0) + 0x100 * value
                && final(self).quotient() == old(self).quotient()
                && final(self).product_or_remainder() == old(self).product_or_remainder(),
            address == 0x4206 ==> final(self).multiplicand() == old(self).multiplicand()
                && final(self).dividend_spec() == old(self).dividend_spec()
                && (value == 0 ==> final(self).quotient() == 0xFFFF
                    && final(self).product_or_remainder() == old(self).dividend_spec())
                && (value != 0 ==> final(self).quotient() == old(self).dividend_spec() / (value as int)
                    && final(self).product_or_remainder() == old(self).dividend_spec() % (value as int)),
            !(0x4202 <= address <= 0x4206) ==> *final(self) == *old(self),
            final(self).multiplier() == if address == 0x4203 { value } else { old(self).multiplier() },
            final(self).divisor_reg() == if address == 0x4206 { value } else { old(self).divisor_reg() },
            final(self).spare() == old(self).spare(),
            Math::written(*old(self), *final(self), address, value),
    {
        if address == 0x4202 {
            self.m_a = value;
        } else if address == 0x4203 {
            self.m_b = value;
            let ma = self.m_a;
            assert(ma * value <= 255 * 255) by (nonlinear_arith)
                requires
                    ma < 256,
                    value < 256,
            ;
            let p = ma as u16 * value as u16;
            self.product_remainder = [(p % 0x100) as u8, (p / 0x100) as u8];
            self.div_res = [self.m_b, 0];
        } else if address == 0x4204 {
            self.dividend = [value, self.dividend[1]];
        } else if address == 0x4205 {
            self.dividend = [self.dividend[0], value];
        } else if address == 0x4206 {
            self.divisor = value;
            let dividend = self.dividend[0] as u16 + 0x100 * self.dividend[1] as u16;
            let (div_res, remainder) = if value == 0 {
                (0xFFFFu16, dividend)
            } else {
                (dividend / value as u16, dividend % value as u16)
            };
            self.div_res = [(div_res % 0x100) as u8, (div_res / 0x100) as u8];
            self.product_remainder = [(remainder % 0x100) as u8, (remainder / 0x100) as u8];
        }
    }

    /// Read a result register.
    pub fn read_byte(&self, address: usize) -> (r: u8)
        ensures
            r == self.read_spec(address),
    {
        if address == 0x4214 {
            self.div_res[0]
        } else if address == 0x4215 {
            self.div_res[1]
        } else if address == 0x4216 {
            self.product_remainder[0]
        } else if address == 0x4217 {
            self.product_remainder[1]
        } else {
            0
        }
    }
}

/// After a multiplication, the product reads back from 0x4216 and 0x4217.
pub proof fn lemma_product_reads_back(m: Math, a: u8, b: u8)
    requires
        m.multiplicand() == a,
        m.product_or_remainder() == a * b,
    ensures
        m.read_spec(0x4216) + 0x100 * m.read_spec(0x4217) == a * b,
{
    assert(0 <= a * b <= 255 * 255) by (nonlinear_arith)
        requires
            a < 256,
            b < 256,
    ;
}

} // verus!
