use vstd::prelude::*;

use crate::wdc65816::processor::{Processor, nz16, nz8, word, wrap16, wrap8};
use crate::wdc65816::status_register::{StatusRegister, flag_bit};

verus! {

impl Processor {
    /// Bit 8-bit
    pub fn bit_8(&mut self, value: u8)
        ensures
            *final(self) == (Processor {
                p: StatusRegister {
                    n: value >= 0x80,
                    v: value & 0x40 != 0,
                    z: value & old(self).a == 0,
                    ..old(self).p
                },
                ..*old(self)
            }),
    {
        self.p.n = value > 0x7F;
        self.p.v = (value & 0x40) != 0;
        self.p.z = (value & self.a) == 0;
    }

    /// Bit 16-bit
    pub fn bit_16(&mut self, low: u8, high: u8)
        ensures
            *final(self) == (Processor {
                p: StatusRegister {
                    n: high >= 0x80,
                    v: high & 0x40 != 0,
                    z: (high & old(self).b) | (low & old(self).a) == 0,
                    ..old(self).p
                },
                ..*old(self)
            }),
    {
        self.p.n = high > 0x7F;
        self.p.v = (high & 0x40) != 0;
        self.p.z = ((high & self.b) | (low & self.a)) == 0;
    }

    /// Bit Immediate 8-bit: only the Z flag is affected.
    pub fn bit_i_8(&mut self, value: u8)
        ensures
            *final(self) == (Processor {
                p: StatusRegister { z: value & old(self).a == 0, ..old(self).p },
                ..*old(self)
            }),
    {
        self.p.z = (value & self.a) == 0;
    }

    /// Bit Immediate 16-bit
    pub fn bit_i_16(&mut self, low: u8, high: u8)
        ensures
            *final(self) == (Processor {
                p: StatusRegister { z: (old(self).a & low) | (old(self).b & high) == 0, ..old(self).p },
                ..*old(self)
            }),
    {
        self.p.z = ((self.a & low) | (self.b & high)) == 0;
    }

    /// The flags after comparing `a` with `b` (8 bits).
    pub open spec fn compare_8_spec(self, a: u8, b: u8) -> Processor {
        Processor { p: StatusRegister { c: a >= b, ..nz8(self.p, wrap8(a - b)) }, ..self }
    }

    /// The flags after comparing the 16-bit values `a` and `b`.
    pub open spec fn compare_16_spec(self, a: u16, b: u16) -> Processor {
        let r = wrap16(a - b);
        Processor { p: StatusRegister { c: a >= b, n: r >= 0x8000, z: r == 0, ..self.p }, ..self }
    }

    /// Generic compare function used for CMP, CPX, CPY 8-bit
    pub fn compare_8(&mut self, a: u8, b: u8)
        ensures
            *final(self) == old(self).compare_8_spec(a, b),
    {
        let result = a.wrapping_sub(b);
        self.p.n = result > 0x7F;
        self.p.z = result == 0;
        self.p.c = a >= b;
    }

    /// Generic compare function used for CMP, CPX, CPY 16-bit
    pub fn compare_16(&mut self, a_low: u8, a_high: u8, b_low: u8, b_high: u8)
        ensures
            *final(self) == old(self).compare_16_spec(word(a_low, a_high), word(b_low, b_high)),
    {
        let a = a_high as u16 * 0x100 + a_low as u16;
        let b = b_high as u16 * 0x100 + b_low as u16;
        let result = a.wrapping_sub(b);
        self.p.n = result > 0x7FFF;
        self.p.z = result == 0;
        self.p.c = a >= b;
    }

    /// Compare (CMP) 8-bit
    pub fn cmp_8(&mut self, value: u8)
        ensures
            *final(self) == old(self).compare_8_spec(old(self).a, value),
    {
        self.compare_8(self.a, value);
    }

    /// Compare (CMP) 16-bit
    pub fn cmp_16(&mut self, low: u8, high: u8)
        ensures
            *final(self) == old(self).compare_16_spec(old(self).c_true_spec(), word(low, high)),
    {
        self.compare_16(self.a, self.b, low, high);
    }

    /// Compare X (CPX) 8-bit
    pub fn cpx_8(&mut self, value: u8)
        ensures
            *final(self) == old(self).compare_8_spec(old(self).xl, value),
    {
        self.compare_8(self.xl, value);
    }

    /// Compare X (CPX) 16-bit
    pub fn cpx_16(&mut self, low: u8, high: u8)
        ensures
            *final(self) == old(self).compare_16_spec(word(old(self).xl, old(self).xh), word(low, high)),
    {
        self.compare_16(self.xl, self.xh, low, high);
    }

    /// Compare Y (CPY) 8-bit
    pub fn cpy_8(&mut self, value: u8)
        ensures
            *final(self) == old(self).compare_8_spec(old(self).yl, value),
    {
        self.compare_8(self.yl, value);
    }

    /// Compare Y (CPY) 16-bit
    pub fn cpy_16(&mut self, low: u8, high: u8)
        ensures
            *final(self) == old(self).compare_16_spec(word(old(self).yl, old(self).yh), word(low, high)),
    {
        self.compare_16(self.yl, self.yh, low, high);
    }

    /// Decrement (DEC) 8-bit
    pub fn dec_8(&mut self, value: u8) -> (r: u8)
        ensures
            r == wrap8(value - 1),
            *final(self) == (Processor { p: nz8(old(self).p, r), ..*old(self) }),
    {
        let r = value.wrapping_sub(1);
        self.p.n = r >= 0x80;
        self.p.z = r == 0;
        r
    }

    /// Decrement (DEC) 16-bit
    pub fn dec_16(&mut self, low: u8, high: u8) -> (r: (u8, u8))
        ensures
            word(r.0, r.1) == wrap16(word(low, high) - 1),
            *final(self) == (Processor { p: nz16(old(self).p, r.0, r.1), ..*old(self) }),
    {
        let bytes = crate::wdc65816::processor::dec_16(low, high);
        let (low, high) = (bytes[0], bytes[1]);
        self.p.n = high >= 0x80;
        self.p.z = (high == 0) && (low == 0);
        (low, high)
    }

    /// Increment (INC) 8-bit
    pub fn inc_8(&mut self, value: u8) -> (r: u8)
        ensures
            r == wrap8(value + 1),
            *final(self) == (Processor { p: nz8(old(self).p, r), ..*old(self) }),
    {
        let r = value.wrapping_add(1);
        self.p.n = r >= 0x80;
        self.p.z = r == 0;
        r
    }

    /// Increment (INC) 16-bit
    pub fn inc_16(&mut self, low: u8, high: u8) -> (r: (u8, u8))
        ensures
            word(r.0, r.1) == wrap16(word(low, high) + 1),
            *final(self) == (Processor { p: nz16(old(self).p, r.0, r.1), ..*old(self) }),
    {
        let bytes = crate::wdc65816::processor::inc_16(low, high);
        let (low, high) = (bytes[0], bytes[1]);
        self.p.n = high >= 0x80;
        self.p.z = (high == 0) && (low == 0);
        (low, high)
    }

    /// Jump (JMP)
    pub fn jmp(&mut self, bank: u8, addr: u16)
        ensures
            *final(self) == (Processor { pbr: bank, pc: addr, ..*old(self) }),
    {
        self.pbr = bank;
        self.pc = addr;
    }

    /// Set the load flags after loading an 8-bit value
    pub fn set_load_flags_8(&mut self, value: u8)
        ensures
            *final(self) == (Processor { p: nz8(old(self).p, value), ..*old(self) }),
    {
        self.p.n = value >= 0x80;
        self.p.z = value == 0;
    }

    /// Set the load flags after loading a 16-bit value
    pub fn set_load_flags_16(&mut self, low: u8, high: u8)
        ensures
            *final(self) == (Processor { p: nz16(old(self).p, low, high), ..*old(self) }),
    {
        self.p.n = high >= 0x80;
        self.p.z = (low == 0) && (high == 0);
    }

    /// LoaD into A (LDA) 8-bit
    pub fn lda_8(&mut self, value: u8)
        ensures
            *final(self) == (Processor { a: value, p: nz8(old(self).p, value), ..*old(self) }),
    {
        self.a = value;
        self.set_load_flags_8(value);
    }

    /// LoaD into A (LDA) 16-bit
    pub fn lda_16(&mut self, low: u8, high: u8)
        ensures
            *final(self) == (Processor { a: low, b: high, p: nz16(old(self).p, low, high), ..*old(self) }),
    {
        self.a = low;
        self.b = high;
        self.set_load_flags_16(low, high);
    }

    /// LoaD into X (LDX) 8-bit
    pub fn ldx_8(&mut self, value: u8)
        ensures
            *final(self) == (Processor { xl: value, p: nz8(old(self).p, value), ..*old(self) }),
    {
        self.xl = value;
        self.set_load_flags_8(value);
    }

    /// LoaD into X (LDX) 16-bit
    pub fn ldx_16(&mut self, low: u8, high: u8)
        ensures
            *final(self) == (Processor { xl: low, xh: high, p: nz16(old(self).p, low, high), ..*old(self) }),
    {
        self.xl = low;
        self.xh = high;
        self.set_load_flags_16(low, high);
    }

    /// LoaD into Y (LDY) 8-bit
    pub fn ldy_8(&mut self, value: u8)
        ensures
            *final(self) == (Processor { yl: value, p: nz8(old(self).p, value), ..*old(self) }),
    {
        self.yl = value;
        self.set_load_flags_8(value);
    }

    /// LoaD into Y (LDY) 16-bit
    pub fn ldy_16(&mut self, low: u8, high: u8)
        ensures
            *final(self) == (Processor { yl: low, yh: high, p: nz16(old(self).p, low, high), ..*old(self) }),
    {
        self.yl = low;
        self.yh = high;
        self.set_load_flags_16(low, high);
    }

    /// STore A (STA) 8-bit
    pub fn sta_8(&self) -> (r: u8)
        ensures
            r == self.a,
    {
        self.a
    }

    /// STore A (STA) 16-bit
    pub fn sta_16(&self) -> (r: (u8, u8))
        ensures
            r == (self.a, self.b),
    {
        (self.a, self.b)
    }

    /// STore X (STX) 8-bit
    pub fn stx_8(&self) -> (r: u8)
        ensures
            r == self.xl,
    {
        self.xl
    }

    /// STore X (STX) 16-bit
    pub fn stx_16(&self) -> (r: (u8, u8))
        ensures
            r == (self.xl, self.xh),
    {
        (self.xl, self.xh)
    }

    /// STore Y (STY) 8-bit
    pub fn sty_8(&self) -> (r: u8)
        ensures
            r == self.yl,
    {
        self.yl
    }

    /// STore Y (STY) 16-bit
    pub fn sty_16(&self) -> (r: (u8, u8))
        ensures
            r == (self.yl, self.yh),
    {
        (self.yl, self.yh)
    }

    /// STore Zero (STZ) 8-bit
    pub fn stz_8(&self) -> (r: u8)
        ensures
            r == 0,
    {
        0
    }

    /// STore Zero (STZ) 16-bit
    pub fn stz_16(&self) -> (r: (u8, u8))
        ensures
            r == (0u8, 0u8),
    {
        (0, 0)
    }

    /// The registers after the status register is replaced by the decoding of `byte`.
    pub open spec fn with_status_byte(self, byte: u8) -> Processor {
        Processor { p: StatusRegister::from_byte_spec(byte, self.p.e), ..self }.forced()
    }

    /// REset Processor status bits (REP)
    pub fn rep(&mut self, value: u8)
        ensures
            *final(self) == old(self).with_status_byte(!value & (old(self).p.byte_spec(false) as u8)),
    {
        self.p = StatusRegister::from_byte(!value & self.p.to_byte(false), self.p.e);
        self.force_registers();
    }

    /// SEt Processor status bits (SEP)
    pub fn sep(&mut self, value: u8)
        ensures
            *final(self) == old(self).with_status_byte(value | (old(self).p.byte_spec(false) as u8)),
    {
        self.p = StatusRegister::from_byte(value | self.p.to_byte(false), self.p.e);
        self.force_registers();
    }

    /// Test and Reset Bits (TRB) 8-bit
    pub fn trb_8(&mut self, value: u8) -> (r: u8)
        ensures
            r == !old(self).a & value,
            *final(self) == (Processor {
                p: StatusRegister { z: old(self).a & value == 0, ..old(self).p },
                ..*old(self)
            }),
    {
        self.p.z = (self.a & value) == 0;
        !self.a & value
    }

    /// Test and Reset Bits (TRB) 16-bit
    pub fn trb_16(&mut self, low: u8, high: u8) -> (r: (u8, u8))
        ensures
            r == (!old(self).a & low, !old(self).b & high),
            *final(self) == (Processor {
                p: StatusRegister { z: (old(self).a & low) | (old(self).b & high) == 0, ..old(self).p },
                ..*old(self)
            }),
    {
        self.p.z = ((self.a & low) | (self.b & high)) == 0;
        (!self.a & low, !self.b & high)
    }

    /// Test and Set Bits (TSB) 8-bit
    pub fn tsb_8(&mut self, value: u8) -> (r: u8)
        ensures
            r == old(self).a | value,
            *final(self) == (Processor {
                p: StatusRegister { z: old(self).a & value == 0, ..old(self).p },
                ..*old(self)
            }),
    {
        self.p.z = (self.a & value) == 0;
        self.a | value
    }

    /// Test and Set Bits (TSB) 16-bit
    pub fn tsb_16(&mut self, low: u8, high: u8) -> (r: (u8, u8))
        ensures
            r == (old(self).a | low, old(self).b | high),
            *final(self) == (Processor {
                p: StatusRegister { z: (old(self).a & low) | (old(self).b & high) == 0, ..old(self).p },
                ..*old(self)
            }),
    {
        self.p.z = ((self.a & low) | (self.b & high)) == 0;
        (self.a | low, self.b | high)
    }
}

} // verus!
