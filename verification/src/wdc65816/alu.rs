use vstd::prelude::*;

use crate::wdc65816::processor::{Processor, nz16, nz8, word, wrap16, wrap8};
use crate::wdc65816::status_register::{StatusRegister, flag_bit};

verus! {

/// Whether an addition of `a` and `b` with result `r` overflowed as a signed 8-bit sum.
pub open spec fn signed_overflow(a: u16, b: u16, r: u16) -> bool {
    ((a ^ r) & (b ^ r)) & 0x80 != 0
}

/// Add with carry on two bytes: (result, carry out, signed overflow).
/// In decimal mode the bytes are read as two BCD digits each.
pub open spec fn adc_spec(a: u8, b: u8, c: bool, d: bool) -> (u8, bool, bool) {
    if d {
        let low0 = a % 16 + b % 16 + flag_bit(c);
        let low = if low0 > 9 { (low0 + 6) % 16 + 16 } else { low0 };
        let res = (a / 16) * 16 + (b / 16) * 16 + low;
        let v = signed_overflow(a as u16, b as u16, res as u16);
        let r = if res > 0x9F { res + 0x60 } else { res };
        (wrap8(r), r > 0x9F, v)
    } else {
        let s = a + b + flag_bit(c);
        (wrap8(s), s > 0xFF, signed_overflow(a as u16, b as u16, wrap8(s) as u16))
    }
}

/// The low digit of a decimal subtraction: (digit, carry out).
pub open spec fn sbc_d_low(a: u8, b: u8, c: bool) -> (u8, bool) {
    let nb = 1 - flag_bit(c);
    if a % 16 >= b % 16 + nb {
        (wrap8(a % 16 - b % 16 - nb), true)
    } else {
        (wrap8(10 + a % 16 - b % 16 - nb), false)
    }
}

/// The high digit of a decimal subtraction given the carry from the low digit.
pub open spec fn sbc_d_high(a: u8, b: u8, c1: bool) -> (u8, bool) {
    let nb2 = 1 - flag_bit(c1);
    if (a / 16) * 16 >= wrap8((b / 16) * 16 + 16 * nb2) {
        (wrap8((a / 16) * 16 - (b / 16) * 16 - 16 * nb2), true)
    } else {
        (wrap8(0xA0 + (a / 16) * 16 - (b / 16) * 16 - 16 * nb2), false)
    }
}

/// Decimal subtraction of two BCD bytes with carry (carry set means no borrow):
/// (result, carry out).
pub open spec fn sbc_d_spec(a: u8, b: u8, c: bool) -> (u8, bool) {
    let (low, c1) = sbc_d_low(a, b, c);
    let (high, c2) = sbc_d_high(a, b, c1);
    (((high / 16) * 16 + low % 16) as u8, c2)
}

fn sbc_digit_low(a: u8, b: u8, c: bool) -> (r: (u8, bool))
    ensures
        r == sbc_d_low(a, b, c),
{
    let nb: u8 = if c { 0 } else { 1 };
    let la = a & 0x0F;
    let lb = b & 0x0F;
    proof {
        crate::bits::lemma_nibbles(a);
        crate::bits::lemma_nibbles(b);
    }
    if la >= lb + nb {
        (la - lb - nb, true)
    } else {
        let t: u16 = 0x10Au16 + la as u16 - lb as u16 - nb as u16;
        proof {
            let x = 10 + la as int - lb as int - nb;
            assert(-256 <= x < 256);
            assert(wrap8(x) == if x < 0 { x + 256 } else { x });
            assert(t % 0x100 == if x < 0 { x + 256 } else { x });
        }
        ((t % 0x100) as u8, false)
    }
}

fn sbc_digit_high(a: u8, b: u8, c1: bool) -> (r: (u8, bool))
    ensures
        r == sbc_d_high(a, b, c1),
{
    let ha = a & 0xF0;
    let hb = b & 0xF0;
    proof {
        crate::bits::lemma_nibbles(a);
        crate::bits::lemma_nibbles(b);
    }
    let nb2: u8 = if c1 { 0 } else { 1 };
    let hb2 = ((hb as u16 + 0x10 * nb2 as u16) % 0x100) as u8;
    proof {
        let y = hb as int + 16 * nb2;
        assert(0 <= y < 512);
        assert(wrap8(y) == if y >= 256 { y - 256 } else { y });
    }
    if ha >= hb2 {
        let t: u16 = 0x200u16 + ha as u16 - hb as u16 - 0x10 * nb2 as u16;
        proof {
            let x = ha as int - hb as int - 16 * nb2;
            assert(-256 <= x < 256);
            assert(wrap8(x) == if x < 0 { x + 256 } else { x });
            assert(t % 0x100 == if x < 0 { x + 256 } else { x });
        }
        ((t % 0x100) as u8, true)
    } else {
        let t: u16 = 0x2A0u16 + ha as u16 - hb as u16 - 0x10 * nb2 as u16;
        proof {
            let x = 0xA0 + ha as int - hb as int - 16 * nb2;
            assert(-256 <= x < 512);
            assert(wrap8(x) == if x < 0 { x + 256 } else if x >= 256 { x - 256 } else { x });
            assert(t % 0x100 == if x < 0 { x + 256 } else if x >= 256 { x - 256 } else { x });
        }
        ((t % 0x100) as u8, false)
    }
}

impl Processor {
    /// Add with carry, returning (result, carry, signed overflow)
    pub fn adc(a: u8, b: u8, c: bool, d: bool) -> (r: (u8, bool, bool))
        ensures
            r == adc_spec(a, b, c, d),
    {
        if d {
            let la = a & 0xF;
            let lb = b & 0xF;
            proof {
                crate::bits::lemma_nibbles(a);
                crate::bits::lemma_nibbles(b);
            }
            let mut low: u8 = la + lb + (if c { 1u8 } else { 0u8 });
            if low > 0x09 {
                proof {
                    let l = low;
                    assert(l <= 31 ==> (((l + 6) as u8) & 0x0F) == (l + 6) % 16) by (bit_vector);
                }
                low = ((low + 0x06) & 0x0F) + 0x10;
            }
            let ha = a as u16 & 0xF0;
            let hb = b as u16 & 0xF0;
            proof {
                let a16 = a as u16;
                let b16 = b as u16;
                crate::bits::lemma_u16(a16);
                crate::bits::lemma_u16(b16);
            }
            let res: u16 = ha + hb + low as u16;
            let v = ((a as u16 ^ res) & (b as u16 ^ res)) & 0x80 != 0;
            let r: u16 = if res > 0x9F { res + 0x60 } else { res };
            proof {
                crate::bits::lemma_u16(r);
            }
            ((r & 0xFF) as u8, r > 0x9F, v)
        } else {
            let s: u16 = a as u16 + b as u16 + (if c { 1u16 } else { 0u16 });
            let r = (s % 0x100) as u8;
            (r, s > 0xFF, ((a as u16 ^ r as u16) & (b as u16 ^ r as u16)) & 0x80 != 0)
        }
    }

    /// Decimal subtraction with borrow, returning (result, carry)
    pub fn sbc_d(&self, a: u8, b: u8, c: bool) -> (r: (u8, bool))
        ensures
            r == sbc_d_spec(a, b, c),
    {
        let (low, c1) = sbc_digit_low(a, b, c);
        let (high, c2) = sbc_digit_high(a, b, c1);
        proof {
            assert((high & 0xF0) | (low & 0x0F) == (high / 16) * 16 + low % 16) by (bit_vector);
        }
        ((high & 0xF0) | (low & 0x0F), c2)
    }

    pub open spec fn adc_8_spec(self, value: u8) -> Processor {
        let (a, c, v) = adc_spec(self.a, value, self.p.c, self.p.d);
        Processor { a, p: StatusRegister { v, c, ..nz8(self.p, a) }, ..self }
    }

    /// Add with Carry 8-bit
    pub fn adc_8(&mut self, value: u8)
        ensures
            *final(self) == old(self).adc_8_spec(value),
    {
        let (a, c, v) = Processor::adc(self.a, value, self.p.c, self.p.d);
        self.p.v = v;
        self.p.n = (a & 0x80) != 0;
        proof {
            crate::bits::lemma_sign(a);
        }
        self.p.z = a == 0;
        self.p.c = c;
        self.a = a;
    }

    pub open spec fn adc_16_spec(self, low: u8, high: u8) -> Processor {
        let (a, c, _) = adc_spec(self.a, low, self.p.c, self.p.d);
        let (b, c2, v) = adc_spec(self.b, high, c, self.p.d);
        Processor { a, b, p: StatusRegister { c: c2, v, ..nz16(self.p, a, b) }, ..self }
    }

    /// Add with Carry 16-bit
    pub fn adc_16(&mut self, low: u8, high: u8)
        ensures
            *final(self) == old(self).adc_16_spec(low, high),
    {
        let (a, c, _) = Processor::adc(self.a, low, self.p.c, self.p.d);
        self.a = a;
        let (b, c2, v) = Processor::adc(self.b, high, c, self.p.d);
        self.p.n = (b & 0x80) != 0;
        proof {
            crate::bits::lemma_sign(b);
        }
        self.p.z = a == 0 && b == 0;
        self.p.c = c2;
        self.p.v = v;
        self.a = a;
        self.b = b;
    }

    pub open spec fn sbc_8_spec(self, value: u8) -> Processor {
        let bin = Processor { p: StatusRegister { d: false, ..self.p }, ..self }.adc_8_spec(
            value ^ 0xFF,
        );
        if self.p.d {
            let (a, _) = sbc_d_spec(self.a, value, self.p.c);
            Processor { a, p: StatusRegister { d: true, ..nz8(bin.p, a) }, ..bin }
        } else {
            bin
        }
    }

    /// SuBtract with Carry (SBC) 8-bit.
    /// The flags other than N and Z come from the binary subtraction, also in decimal mode.
    pub fn sbc_8(&mut self, value: u8)
        ensures
            *final(self) == old(self).sbc_8_spec(value),
    {
        let (a, c, d) = (self.a, self.p.c, self.p.d);
        self.p.d = false;
        self.adc_8(value ^ 0xFF);
        if d {
            let (r, _) = self.sbc_d(a, value, c);
            self.a = r;
            self.p.n = self.a > 0x7F;
            self.p.z = self.a == 0;
            self.p.d = true;
        }
    }

    pub open spec fn sbc_16_spec(self, low: u8, high: u8) -> Processor {
        let bin = Processor { p: StatusRegister { d: false, ..self.p }, ..self }.adc_16_spec(
            low ^ 0xFF,
            high ^ 0xFF,
        );
        if self.p.d {
            let (l, c) = sbc_d_spec(self.a, low, self.p.c);
            let (h, _) = sbc_d_spec(self.b, high, c);
            Processor { a: l, b: h, p: StatusRegister { d: true, ..nz16(bin.p, l, h) }, ..bin }
        } else {
            bin
        }
    }

    /// SuBtract with Carry (SBC) 16-bit
    pub fn sbc_16(&mut self, low: u8, high: u8)
        ensures
            *final(self) == old(self).sbc_16_spec(low, high),
    {
        let (a, b, c, d) = (self.a, self.b, self.p.c, self.p.d);
        self.p.d = false;
        self.adc_16(low ^ 0xFF, high ^ 0xFF);
        if d {
            self.p.d = true;
            let (l, c) = self.sbc_d(a, low, c);
            let (h, _) = self.sbc_d(b, high, c);
            self.a = l;
            self.b = h;
            self.p.n = self.b > 0x7F;
            self.p.z = self.a == 0 && self.b == 0;
        }
    }

    /// Set common flags for AND, EOR, and ORA 8-bit
    pub fn bitwise_flags_8(&mut self)
        ensures
            *final(self) == (Processor { p: nz8(old(self).p, old(self).a), ..*old(self) }),
    {
        self.p.n = self.a > 0x7F;
        self.p.z = self.a == 0;
    }

    /// Set common flags for AND, EOR, and ORA 16-bit
    pub fn bitwise_flags_16(&mut self)
        ensures
            *final(self) == (Processor { p: nz16(old(self).p, old(self).a, old(self).b), ..*old(self) }),
    {
        self.p.n = self.b > 0x7F;
        self.p.z = self.a == 0 && self.b == 0;
    }

    /// And 8-bit
    pub fn and_8(&mut self, value: u8)
        ensures
            *final(self) == (Processor { a: old(self).a & value, p: nz8(old(self).p, old(self).a & value), ..*old(self) }),
    {
        self.a = self.a & value;
        self.bitwise_flags_8();
    }

    /// And 16-bit
    pub fn and_16(&mut self, low: u8, high: u8)
        ensures
            *final(self) == (Processor {
                a: old(self).a & low,
                b: old(self).b & high,
                p: nz16(old(self).p, old(self).a & low, old(self).b & high),
                ..*old(self)
            }),
    {
        self.a = self.a & low;
        self.b = self.b & high;
        self.bitwise_flags_16();
    }

    /// Exclusive Or (EOR) 8-bit
    pub fn eor_8(&mut self, value: u8)
        ensures
            *final(self) == (Processor { a: old(self).a ^ value, p: nz8(old(self).p, old(self).a ^ value), ..*old(self) }),
    {
        self.a = self.a ^ value;
        self.bitwise_flags_8();
    }

    /// Exclusive OR (EOR) 16-bit
    pub fn eor_16(&mut self, low: u8, high: u8)
        ensures
            *final(self) == (Processor {
                a: old(self).a ^ low,
                b: old(self).b ^ high,
                p: nz16(old(self).p, old(self).a ^ low, old(self).b ^ high),
                ..*old(self)
            }),
    {
        self.a = self.a ^ low;
        self.b = self.b ^ high;
        self.bitwise_flags_16();
    }

    /// OR with A (ORA) 8-bit
    pub fn ora_8(&mut self, value: u8)
        ensures
            *final(self) == (Processor { a: old(self).a | value, p: nz8(old(self).p, old(self).a | value), ..*old(self) }),
    {
        self.a = self.a | value;
        self.bitwise_flags_8();
    }

    /// OR with A (ORA) 16-bit
    pub fn ora_16(&mut self, low: u8, high: u8)
        ensures
            *final(self) == (Processor {
                a: old(self).a | low,
                b: old(self).b | high,
                p: nz16(old(self).p, old(self).a | low, old(self).b | high),
                ..*old(self)
            }),
    {
        self.a = self.a | low;
        self.b = self.b | high;
        self.bitwise_flags_16();
    }

    /// Set the flags after a 8-bit shift or rotate function
    pub fn shift_rotate_flags_8(&mut self, value: u8)
        ensures
            *final(self) == (Processor { p: nz8(old(self).p, value), ..*old(self) }),
    {
        self.p.n = value > 0x7F;
        self.p.z = value == 0;
    }

    /// Set the flags after a 16-bit shift or rotate function
    pub fn shift_rotate_flags_16(&mut self, low: u8, high: u8)
        ensures
            *final(self) == (Processor { p: nz16(old(self).p, low, high), ..*old(self) }),
    {
        self.p.n = high > 0x7F;
        self.p.z = (high == 0) && (low == 0);
    }

    /// ASL 8-bit: shift left, the top bit goes to the carry.
    pub fn asl_8(&mut self, value: u8) -> (r: u8)
        ensures
            r == wrap8(2 * value),
            *final(self) == (Processor {
                p: StatusRegister { c: value >= 0x80, ..nz8(old(self).p, r) },
                ..*old(self)
            }),
    {
        let rotated = (value << 1u8) | (value >> 7u8);
        proof {
            assert((rotated & 0x01 != 0) == (value >= 0x80) && rotated & 0xFE == (2 * value) % 256) by (bit_vector)
                requires rotated == (value << 1u8) | (value >> 7u8);
        }
        self.p.c = (rotated & 0x01) != 0;
        self.shift_rotate_flags_8(rotated & 0xFE);
        rotated & 0xFE
    }

    /// ASL 16-bit
    pub fn asl_16(&mut self, low: u8, high: u8) -> (r: (u8, u8))
        ensures
            word(r.0, r.1) == wrap16(2 * word(low, high)),
            *final(self) == (Processor {
                p: StatusRegister { c: word(low, high) >= 0x8000, ..nz16(old(self).p, r.0, r.1) },
                ..*old(self)
            }),
    {
        let val: u32 = (high as u32 * 0x100 + low as u32) * 2;
        self.p.c = (val & 0x10000) != 0;
        proof {
            crate::bits::lemma_u32(val);
        }
        let (low2, high2) = ((val & 0xFF) as u8, ((val & 0xFF00) >> 8) as u8);
        proof {
            assert(low2 + 0x100 * high2 == val % 0x10000) by (nonlinear_arith)
                requires
                    low2 == val % 0x100,
                    high2 == (val / 0x100) % 0x100,
            ;
            assert(val == 2 * word(low, high));
        }
        let (low, high) = (low2, high2);
        self.shift_rotate_flags_16(low, high);
        (low, high)
    }

    /// Logical Shift Right (LSR) 8-bit
    pub fn lsr_8(&mut self, value: u8) -> (r: u8)
        ensures
            r == value / 2,
            *final(self) == (Processor {
                p: StatusRegister { c: value % 2 == 1, ..nz8(old(self).p, r) },
                ..*old(self)
            }),
    {
        proof {
            crate::bits::lemma_low_bit(value);
        }
        self.p.c = (value & 0x01) != 0;
        let value = value >> 1u8;
        self.shift_rotate_flags_8(value);
        value
    }

    /// Logical Shift Right (LSR) 16-bit
    pub fn lsr_16(&mut self, low: u8, high: u8) -> (r: (u8, u8))
        ensures
            word(r.0, r.1) == word(low, high) / 2,
            *final(self) == (Processor {
                p: StatusRegister { c: low % 2 == 1, ..nz16(old(self).p, r.0, r.1) },
                ..*old(self)
            }),
    {
        proof {
            crate::bits::lemma_low_bit(low);
            crate::bits::lemma_low_bit(high);
        }
        self.p.c = (low & 0x01) != 0;
        let low = (low >> 1u8) + 0x80 * (high & 0x01);
        let high = high >> 1u8;
        self.shift_rotate_flags_16(low, high);
        (low, high)
    }

    /// Rotate Left (ROL) 8-bit
    pub fn rol_8(&mut self, value: u8) -> (r: u8)
        ensures
            r == wrap8(2 * value) + flag_bit(old(self).p.c),
            *final(self) == (Processor {
                p: StatusRegister { c: value >= 0x80, ..nz8(old(self).p, r) },
                ..*old(self)
            }),
    {
        let c = (value & 0x80) != 0;
        proof {
            crate::bits::lemma_sign(value);
            crate::bits::lemma_double(value);
        }
        let value = (value << 1u8) + (if self.p.c { 1u8 } else { 0u8 });
        self.p.c = c;
        self.shift_rotate_flags_8(value);
        value
    }

    /// Rotate Left (ROL) 16-bit: the low byte then the high byte, through the carry.
    #[verifier::rlimit(40)]
    pub fn rol_16(&mut self, low: u8, high: u8) -> (r: (u8, u8))
        ensures
            word(r.0, r.1) == wrap16(2 * word(low, high) + flag_bit(old(self).p.c)),
            *final(self) == (Processor {
                p: StatusRegister { c: word(low, high) >= 0x8000, ..nz16(old(self).p, r.0, r.1) },
                ..*old(self)
            }),
    {
        let c = self.p.c;
        let l2 = self.rol_8(low);
        let h2 = self.rol_8(high);
        proof {
            assert(wrap8(2 * low) == if low >= 128 { 2 * low - 256 } else { 2 * low });
            assert(wrap8(2 * high) == if high >= 128 { 2 * high - 256 } else { 2 * high });
            let w = 2 * word(low, high) + flag_bit(c);
            assert(wrap16(w) == if high >= 128 { w - 0x10000 } else { w });
        }
        let (low, high) = (l2, h2);
        self.shift_rotate_flags_16(low, high);
        (low, high)
    }

    /// Rotate Right (ROR) 8-bit
    pub fn ror_8(&mut self, value: u8) -> (r: u8)
        ensures
            r == value / 2 + 0x80 * flag_bit(old(self).p.c),
            *final(self) == (Processor {
                p: StatusRegister { c: value % 2 == 1, ..nz8(old(self).p, r) },
                ..*old(self)
            }),
    {
        proof {
            crate::bits::lemma_low_bit(value);
        }
        let c = (value & 0x01) != 0;
        let value = (value >> 1u8) + 0x80 * (if self.p.c { 1u8 } else { 0u8 });
        self.p.c = c;
        self.shift_rotate_flags_8(value);
        value
    }

    /// Rotate Right (ROR) 16-bit: the high byte then the low byte, through the carry.
    pub fn ror_16(&mut self, low: u8, high: u8) -> (r: (u8, u8))
        ensures
            word(r.0, r.1) == word(low, high) / 2 + 0x8000 * flag_bit(old(self).p.c),
            *final(self) == (Processor {
                p: StatusRegister { c: low % 2 == 1, ..nz16(old(self).p, r.0, r.1) },
                ..*old(self)
            }),
    {
        let h2 = self.ror_8(high);
        let l2 = self.ror_8(low);
        proof {
            assert(high == 2 * (high / 2) + high % 2);
            assert(low == 2 * (low / 2) + low % 2);
            assert(word(low, high) / 2 == low / 2 + 128 * (high % 2) + 256 * (high / 2));
        }
        let (low, high) = (l2, h2);
        self.shift_rotate_flags_16(low, high);
        (low, high)
    }
}

/// The carry as a number.
pub open spec fn carry_in(c: bool) -> int {
    if c { 1 } else { 0 }
}

/// In binary mode ADC adds the two bytes and the carry: the result is that sum
/// modulo 256, and the carry out tells whether the sum passed 0xFF.
pub proof fn lemma_adc_binary(a: u8, b: u8, c: bool)
    ensures
        adc_spec(a, b, c, false).0 as int == (a + b + carry_in(c)) % 256,
        adc_spec(a, b, c, false).1 == (a + b + carry_in(c) > 0xFF),
{
}

/// The decimal adjustment of a sum of two BCD digit pairs: `hi` is the sum of the
/// high digits and `low0` the sum of the low digits with the carry.
proof fn lemma_bcd_adjust(hi: int, low0: int)
    requires
        0 <= hi <= 18,
        0 <= low0 <= 19,
    ensures
        ({
            let low = if low0 > 9 { (low0 + 6) % 16 + 16 } else { low0 };
            let res = 16 * hi + low;
            let r = if res > 0x9F { res + 0x60 } else { res };
            let s = 10 * hi + low0;
            &&& r % 256 == 16 * ((s % 100) / 10) + (s % 100) % 10
            &&& (r > 0x9F) == (s >= 100)
        }),
{
    let s = 10 * hi + low0;
    if low0 > 9 {
        assert((low0 + 6) % 16 == low0 - 10);
        if hi + 1 >= 10 {
            assert(s % 100 == s - 100);
            assert((s % 100) / 10 == hi - 9);
            assert((s % 100) % 10 == low0 - 10);
            assert((16 * (hi + 1) + (low0 - 10) + 0x60) % 256 == 16 * (hi - 9) + (low0 - 10));
        } else {
            assert(s % 100 == s);
            assert(s / 10 == hi + 1);
            assert(s % 10 == low0 - 10);
        }
    } else {
        if hi >= 10 {
            assert(s % 100 == s - 100);
            assert((s % 100) / 10 == hi - 10);
            assert((s % 100) % 10 == low0);
            assert((16 * hi + low0 + 0x60) % 256 == 16 * (hi - 10) + low0);
        } else {
            assert(s % 100 == s);
            assert(s / 10 == hi);
            assert(s % 10 == low0);
        }
    }
}

/// In decimal mode, on two valid BCD bytes, ADC adds the two decimal numbers and the
/// carry: the result holds the sum modulo 100 as two BCD digits, and the carry out
/// tells whether the sum reached 100.
pub proof fn lemma_adc_decimal(a: u8, b: u8, c: bool)
    requires
        a % 16 <= 9,
        a / 16 <= 9,
        b % 16 <= 9,
        b / 16 <= 9,
    ensures
        ({
            let s = 10 * (a / 16) + a % 16 + 10 * (b / 16) + b % 16 + carry_in(c);
            let r = adc_spec(a, b, c, true);
            &&& r.0 % 16 == (s % 100) % 10
            &&& r.0 / 16 == (s % 100) / 10
            &&& r.1 == (s >= 100)
        }),
{
    let hi = a / 16 + b / 16;
    let low0 = a % 16 + b % 16 + carry_in(c);
    lemma_bcd_adjust(hi, low0);
    let s = 10 * hi + low0;
    let d1 = (s % 100) / 10;
    let d0 = (s % 100) % 10;
    assert(adc_spec(a, b, c, true).0 as int == 16 * d1 + d0);
    assert((16 * d1 + d0) % 16 == d0);
    assert((16 * d1 + d0) / 16 == d1);
}

/// Digit by digit decimal subtraction: the low digits with the borrow `nb`, then the
/// high digits with the borrow of the low ones.
proof fn lemma_bcd_borrow(ah: int, al: int, bh: int, bl: int, nb: int)
    requires
        0 <= ah <= 9,
        0 <= al <= 9,
        0 <= bh <= 9,
        0 <= bl <= 9,
        0 <= nb <= 1,
    ensures
        ({
            let ld = if al >= bl + nb { al - bl - nb } else { 10 + al - bl - nb };
            let nb2 = if al >= bl + nb { 0int } else { 1int };
            let hd = if ah >= bh + nb2 { ah - bh - nb2 } else { 10 + ah - bh - nb2 };
            let d = 10 * ah + al - 10 * bh - bl - nb;
            &&& d % 100 == 10 * hd + ld
            &&& (ah >= bh + nb2) == (d >= 0)
        }),
{
    let ld = if al >= bl + nb { al - bl - nb } else { 10 + al - bl - nb };
    let nb2 = if al >= bl + nb { 0int } else { 1int };
    let hd = if ah >= bh + nb2 { ah - bh - nb2 } else { 10 + ah - bh - nb2 };
    let d = 10 * ah + al - 10 * bh - bl - nb;
    assert(d == 10 * (ah - bh - nb2) + ld);
    if ah >= bh + nb2 {
        assert(0 <= d < 100);
    } else {
        assert(-100 <= d < 0);
        assert(d % 100 == d + 100);
    }
}

/// The low digit of a decimal subtraction, with its borrow.
proof fn lemma_sbc_low_digit(a: u8, b: u8, c: bool)
    requires
        a % 16 <= 9,
        b % 16 <= 9,
    ensures
        ({
            let nb = 1 - carry_in(c);
            let (al, bl) = (a % 16, b % 16);
            &&& sbc_d_low(a, b, c).0 as int == if al >= bl + nb { al - bl - nb } else { 10 + al - bl - nb }
            &&& sbc_d_low(a, b, c).1 == (al >= bl + nb)
        }),
{
}

/// The high digit of a decimal subtraction, with its borrow.
proof fn lemma_sbc_high_digit(a: u8, b: u8, c1: bool)
    requires
        a / 16 <= 9,
        b / 16 <= 9,
    ensures
        ({
            let nb2 = if c1 { 0int } else { 1int };
            let (ah, bh) = (a / 16, b / 16);
            &&& sbc_d_high(a, b, c1).0 as int == 16 * (if ah >= bh + nb2 { ah - bh - nb2 } else { 10 + ah - bh - nb2 })
            &&& sbc_d_high(a, b, c1).1 == (ah >= bh + nb2)
        }),
{
    let nb2 = if c1 { 0int } else { 1int };
    assert(wrap8((b / 16) * 16 + 16 * nb2) as int == (b / 16) * 16 + 16 * nb2);
}

/// Two decimal digits joined into a byte, and split again.
proof fn lemma_digits_join(hd: int, ld: int)
    requires
        0 <= hd <= 9,
        0 <= ld <= 9,
    ensures
        (16 * hd + ld) % 16 == ld,
        (16 * hd + ld) / 16 == hd,
        ((16 * hd) / 16) * 16 + ld % 16 == 16 * hd + ld,
{
}

/// In decimal mode, on two valid BCD bytes, the subtraction takes the second decimal
/// number and the borrow (1 - C) from the first: the result holds the difference
/// modulo 100 as two BCD digits, and the carry out is set exactly when no borrow was
/// needed.
#[verifier::rlimit(60)]
#[verifier::spinoff_prover]
pub proof fn lemma_sbc_decimal(a: u8, b: u8, c: bool)
    requires
        a % 16 <= 9,
        a / 16 <= 9,
        b % 16 <= 9,
        b / 16 <= 9,
    ensures
        ({
            let d = 10 * (a / 16) + a % 16 - 10 * (b / 16) - b % 16 - (1 - carry_in(c));
            let r = sbc_d_spec(a, b, c);
            &&& r.0 % 16 == (d % 100) % 10
            &&& r.0 / 16 == (d % 100) / 10
            &&& r.1 == (d >= 0)
        }),
{
    let al = a % 16;
    let ah = a / 16;
    let bl = b % 16;
    let bh = b / 16;
    let nb = 1 - carry_in(c);
    lemma_bcd_borrow(ah as int, al as int, bh as int, bl as int, nb);
    let ld = if al >= bl + nb { al - bl - nb } else { 10 + al - bl - nb };
    let c1 = al >= bl + nb;
    let nb2 = if c1 { 0int } else { 1int };
    let hd = if ah >= bh + nb2 { ah - bh - nb2 } else { 10 + ah - bh - nb2 };
    lemma_sbc_low_digit(a, b, c);
    lemma_sbc_high_digit(a, b, c1);
    lemma_digits_join(hd, ld);
    assert(sbc_d_spec(a, b, c).0 as int == 16 * hd + ld);
}

/// `v ^ 0xFF` is `255 - v`.
proof fn lemma_complement(v: u8)
    ensures
        (v ^ 0xFF) as int == 255 - v,
{
    assert((v ^ 0xFF) as int == 255 - v) by (bit_vector);
}

/// ADC on the 8-bit accumulator in binary mode: A becomes A + operand + C modulo 256,
/// C tells whether that sum passed 0xFF, N and Z follow the new A, and B is kept.
pub proof fn lemma_adc_8_binary(p: Processor, value: u8)
    requires
        !p.p.d,
    ensures
        ({
            let s = p.a + value + carry_in(p.p.c);
            let r = p.adc_8_spec(value);
            &&& r.a as int == s % 256
            &&& r.p.c == (s > 0xFF)
            &&& r.p.z == (s % 256 == 0)
            &&& r.p.n == (s % 256 >= 0x80)
            &&& r.b == p.b
        }),
{
}

/// Adding two words byte by byte, the carry of the low bytes going to the high bytes,
/// adds the words.
proof fn lemma_byte_chain(a: int, b: int, l: int, h: int, c0: int)
    requires
        0 <= a < 256,
        0 <= b < 256,
        0 <= l < 256,
        0 <= h < 256,
        0 <= c0 <= 1,
    ensures
        ({
            let t = a + l + c0;
            let u = b + h + if t > 255 { 1int } else { 0int };
            let s = a + 256 * b + l + 256 * h + c0;
            &&& t % 256 + 256 * (u % 256) == s % 0x10000
            &&& (u > 255) == (s > 0xFFFF)
            &&& (t % 256 == 0 && u % 256 == 0) == (s % 0x10000 == 0)
        }),
{
    let t = a + l + c0;
    let u = b + h + if t > 255 { 1int } else { 0int };
    let s = a + 256 * b + l + 256 * h + c0;
    assert(s == (t % 256) + 256 * u);
    if u > 255 {
        assert(s % 0x10000 == (t % 256) + 256 * (u - 256));
    } else {
        assert(s % 0x10000 == (t % 256) + 256 * u);
    }
}

/// ADC on the 16-bit accumulator in binary mode: B:A becomes B:A + operand + C modulo
/// 0x10000, and C tells whether that sum passed 0xFFFF.
pub proof fn lemma_adc_16_binary(p: Processor, low: u8, high: u8)
    requires
        !p.p.d,
    ensures
        ({
            let s = p.a + 0x100 * p.b + low + 0x100 * high + carry_in(p.p.c);
            let r = p.adc_16_spec(low, high);
            &&& r.a + 0x100 * r.b == s % 0x10000
            &&& r.p.c == (s > 0xFFFF)
            &&& r.p.z == (s % 0x10000 == 0)
        }),
{
    let t = p.a + low + carry_in(p.p.c);
    let c1 = t > 0xFF;
    let u = p.b + high + carry_in(c1);
    assert(p.adc_16_spec(low, high).a as int == t % 256 && p.adc_16_spec(low, high).b as int == u % 256
        && p.adc_16_spec(low, high).p.c == (u > 0xFF)) by {
        lemma_adc_binary(p.a, low, p.p.c);
        lemma_adc_binary(p.b, high, c1);
    }
    lemma_byte_chain(p.a as int, p.b as int, low as int, high as int, carry_in(p.p.c));
}

/// SBC on the 8-bit accumulator in binary mode: A becomes A - operand - (1 - C)
/// modulo 256, and C is set exactly when no borrow was needed.
pub proof fn lemma_sbc_8_binary(p: Processor, value: u8)
    requires
        !p.p.d,
    ensures
        ({
            let d = p.a - value - (1 - carry_in(p.p.c));
            let r = p.sbc_8_spec(value);
            &&& r.a as int == d % 256
            &&& r.p.c == (d >= 0)
            &&& r.p.z == (d % 256 == 0)
        }),
{
    lemma_complement(value);
    let q = Processor { p: StatusRegister { d: false, ..p.p }, ..p };
    assert(q == p);
    lemma_adc_8_binary(q, value ^ 0xFF);
    let sum = p.a + (value ^ 0xFF) + carry_in(p.p.c);
    let d = p.a - value - (1 - carry_in(p.p.c));
    assert(sum == d + 256);
    assert(sum % 256 == d % 256);
}

/// SBC on the 16-bit accumulator in binary mode: B:A becomes B:A - operand - (1 - C)
/// modulo 0x10000, and C is set exactly when no borrow was needed.
#[verifier::rlimit(100)]
#[verifier::spinoff_prover]
pub proof fn lemma_sbc_16_binary(p: Processor, low: u8, high: u8)
    requires
        !p.p.d,
    ensures
        ({
            let d = p.a + 0x100 * p.b - low - 0x100 * high - (1 - carry_in(p.p.c));
            let r = p.sbc_16_spec(low, high);
            &&& r.a + 0x100 * r.b == d % 0x10000
            &&& r.p.c == (d >= 0)
        }),
{
    lemma_complement(low);
    lemma_complement(high);
    let q = Processor { p: StatusRegister { d: false, ..p.p }, ..p };
    assert(q == p);
    assert(p.sbc_16_spec(low, high) == q.adc_16_spec(low ^ 0xFF, high ^ 0xFF));
    lemma_adc_16_binary(q, low ^ 0xFF, high ^ 0xFF);
    let sum = p.a + 0x100 * p.b + (low ^ 0xFF) + 0x100 * (high ^ 0xFF) + carry_in(p.p.c);
    let d = p.a + 0x100 * p.b - low - 0x100 * high - (1 - carry_in(p.p.c));
    assert(sum == d + 0x10000);
    assert(sum % 0x10000 == d % 0x10000);
}

} // verus!
