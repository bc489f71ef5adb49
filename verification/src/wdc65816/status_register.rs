use vstd::prelude::*;

use crate::text::{flag_text, hex, push_flag, push_hex, push_str};

verus! {

/// Whether bit `n` of `byte` is set.
pub open spec fn bit_of(byte: u8, n: u8) -> bool {
    (byte >> n) & 1 == 1
}

/// The 65816 processor status register (P), together with the emulation flag.
#[derive(Clone, Copy)]
pub struct StatusRegister {
    /// Carry flag
    pub c: bool,
    /// Zero flag
    pub z: bool,
    /// Negative flag
    pub n: bool,
    /// Decimal mode flag
    pub d: bool,
    /// Interrupt disable flag
    pub i: bool,
    /// Memory/Accumulator mode flag
    /// 1 = 8-bit mode, 0 = 16-bit mode
    pub m: bool,
    /// Overflow flag
    pub v: bool,
    /// Emulation flag
    /// 0 = native (16-bit), 1 = emulation (8-bit)
    pub e: bool,
    /// Break flag or Index register width flag
    /// 1 = 8-bit, 0=16-bit
    pub xb: bool,
}

/// The value of a flag as a single bit.
pub open spec fn flag_bit(b: bool) -> int {
    if b { 1 } else { 0 }
}

impl StatusRegister {
    /// The status byte as the processor pushes it: one bit per flag, with the
    /// width flags forced to 1 in emulation mode when `force_bytes` is set.
    pub open spec fn byte_spec(self, force_bytes: bool) -> int {
        flag_bit(self.c) + 2 * flag_bit(self.z) + 4 * flag_bit(self.i) + 8 * flag_bit(self.d)
            + 16 * flag_bit(self.xb || (force_bytes && self.e)) + 32 * flag_bit(
            self.m || (force_bytes && self.e),
        ) + 64 * flag_bit(self.v) + 128 * flag_bit(self.n)
    }

    /// The register that a status byte decodes to.
    pub open spec fn from_byte_spec(byte: u8, e: bool) -> StatusRegister {
        StatusRegister {
            c: bit_of(byte, 0),
            z: bit_of(byte, 1),
            i: bit_of(byte, 2),
            d: bit_of(byte, 3),
            xb: bit_of(byte, 4),
            m: bit_of(byte, 5),
            v: bit_of(byte, 6),
            n: bit_of(byte, 7),
            e,
        }
    }

    /// The register after a reset: emulation mode, every other flag clear.
    pub open spec fn default_spec() -> StatusRegister {
        StatusRegister {
            c: false,
            z: false,
            n: false,
            d: false,
            i: false,
            m: false,
            v: false,
            e: true,
            xb: false,
        }
    }

    pub fn default() -> (r: StatusRegister)
        ensures
            r == Self::default_spec(),
    {
        StatusRegister {
            c: false,
            z: false,
            n: false,
            d: false,
            i: false,
            m: false,
            v: false,
            e: true,
            xb: false,
        }
    }

    pub open spec fn a_8bit(self) -> bool {
        self.m || self.e
    }

    pub open spec fn xy_8bit(self) -> bool {
        self.xb || self.e
    }

    /// Whether the accumulator is 8 bits wide.
    pub fn a_is_8bit(&self) -> (r: bool)
        ensures
            r == self.a_8bit(),
    {
        self.m || self.e
    }

    /// Whether the accumulator is 16 bits wide.
    pub fn a_is_16bit(&self) -> (r: bool)
        ensures
            r == !self.a_8bit(),
    {
        !self.a_is_8bit()
    }

    /// Whether the index registers are 8 bits wide.
    pub fn xy_is_8bit(&self) -> (r: bool)
        ensures
            r == self.xy_8bit(),
    {
        self.xb || self.e
    }

    /// Whether the index registers are 16 bits wide.
    pub fn xy_is_16bit(&self) -> (r: bool)
        ensures
            r == !self.xy_8bit(),
    {
        !self.xy_is_8bit()
    }

    /// Decode a status byte; the emulation flag is kept apart from the byte.
    pub fn from_byte(byte: u8, e: bool) -> (r: StatusRegister)
        ensures
            r == Self::from_byte_spec(byte, e),
    {
        StatusRegister {
            c: ((byte >> 0u8) & 0x01) == 1,
            z: ((byte >> 1u8) & 0x01) == 1,
            i: ((byte >> 2u8) & 0x01) == 1,
            d: ((byte >> 3u8) & 0x01) == 1,
            xb: ((byte >> 4u8) & 0x01) == 1,
            m: ((byte >> 5u8) & 0x01) == 1,
            v: ((byte >> 6u8) & 0x01) == 1,
            n: ((byte >> 7u8) & 0x01) == 1,
            e,
        }
    }

    /// Encode the register as a byte. With `force_bytes`, the M and X bits read as 1
    /// in emulation mode.
    #[verifier::spinoff_prover]
    pub fn to_byte(&self, force_bytes: bool) -> (r: u8)
        ensures
            r == self.byte_spec(force_bytes),
    {
        let mut value: u8 = 0;
        if self.c {
            value = value + 1;
        }
        if self.z {
            value = value + 2;
        }
        if self.i {
            value = value + 4;
        }
        if self.d {
            value = value + 8;
        }
        if self.xb || (force_bytes && self.e) {
            value = value + 16;
        }
        if self.m || (force_bytes && self.e) {
            value = value + 32;
        }
        if self.v {
            value = value + 64;
        }
        if self.n {
            value = value + 128;
        }
        value
    }
}

/// Decoding a byte and encoding it again (without forcing the width bits) gives the byte back.
pub proof fn lemma_status_byte_roundtrip(byte: u8, e: bool)
    ensures
        StatusRegister::from_byte_spec(byte, e).byte_spec(false) == byte,
{
    let r = StatusRegister::from_byte_spec(byte, e);
    let b = byte;
    assert(b == ((b >> 0u8) & 1) + 2 * ((b >> 1u8) & 1) + 4 * ((b >> 2u8) & 1) + 8 * ((b >> 3u8)
        & 1) + 16 * ((b >> 4u8) & 1) + 32 * ((b >> 5u8) & 1) + 64 * ((b >> 6u8) & 1) + 128 * ((b
        >> 7u8) & 1)) by (bit_vector);
    assert(forall|k: u8| k < 8 ==> ((b >> k) & 1 == 1 || (b >> k) & 1 == 0)) by (bit_vector);
    assert(flag_bit(r.c) == (b >> 0u8) & 1);
    assert(flag_bit(r.z) == (b >> 1u8) & 1);
    assert(flag_bit(r.i) == (b >> 2u8) & 1);
    assert(flag_bit(r.d) == (b >> 3u8) & 1);
    assert(flag_bit(r.xb) == (b >> 4u8) & 1);
    assert(flag_bit(r.m) == (b >> 5u8) & 1);
    assert(flag_bit(r.v) == (b >> 6u8) & 1);
    assert(flag_bit(r.n) == (b >> 7u8) & 1);
}

/// Encoding a register and decoding the byte (with its emulation flag) gives the register back.
pub proof fn lemma_status_register_roundtrip(p: StatusRegister)
    ensures
        0 <= p.byte_spec(false) < 256,
        StatusRegister::from_byte_spec(p.byte_spec(false) as u8, p.e) == p,
{
    let b = p.byte_spec(false) as u8;
    let (c, z, i, d, x, m, v, n) = (flag_bit(p.c) as u8, flag_bit(p.z) as u8, flag_bit(p.i) as u8,
    flag_bit(p.d) as u8, flag_bit(p.xb) as u8, flag_bit(p.m) as u8, flag_bit(p.v) as u8, flag_bit(
        p.n,
    ) as u8);
    assert(c < 2 && z < 2 && i < 2 && d < 2 && x < 2 && m < 2 && v < 2 && n < 2 ==> {
        let b = (c + 2 * z + 4 * i + 8 * d + 16 * x + 32 * m + 64 * v + 128 * n) as u8;
        &&& (b >> 0u8) & 1 == c
        &&& (b >> 1u8) & 1 == z
        &&& (b >> 2u8) & 1 == i
        &&& (b >> 3u8) & 1 == d
        &&& (b >> 4u8) & 1 == x
        &&& (b >> 5u8) & 1 == m
        &&& (b >> 6u8) & 1 == v
        &&& (b >> 7u8) & 1 == n
    }) by (bit_vector);
}

impl StatusRegister {
    /// `pre` followed by the register as text:
    /// `30 (C:0 Z:0 I:0 D:0 M:1 V:0 N:0 E:0 XB:1)`.
    pub open spec fn text_after(self, pre: Seq<char>) -> Seq<char> {
        pre + hex(self.byte_spec(false) as nat, 2) + " (C:"@ + flag_text(self.c) + " Z:"@ + flag_text(self.z)
            + " I:"@ + flag_text(self.i) + " D:"@ + flag_text(self.d) + " M:"@ + flag_text(self.m) + " V:"@
            + flag_text(self.v) + " N:"@ + flag_text(self.n) + " E:"@ + flag_text(self.e) + " XB:"@ + flag_text(
            self.xb,
        ) + ")"@
    }

    /// The register as text.
    pub fn to_string(&self) -> (r: String)
        ensures
            r@ == self.text_after(Seq::empty()),
    {
        proof {
            assert(" (C:".is_ascii()) by { reveal_strlit(" (C:"); }
            assert(" Z:".is_ascii()) by { reveal_strlit(" Z:"); }
            assert(" I:".is_ascii()) by { reveal_strlit(" I:"); }
            assert(" D:".is_ascii()) by { reveal_strlit(" D:"); }
            assert(" M:".is_ascii()) by { reveal_strlit(" M:"); }
            assert(" V:".is_ascii()) by { reveal_strlit(" V:"); }
            assert(" N:".is_ascii()) by { reveal_strlit(" N:"); }
            assert(" E:".is_ascii()) by { reveal_strlit(" E:"); }
            assert(" XB:".is_ascii()) by { reveal_strlit(" XB:"); }
            assert(")".is_ascii()) by { reveal_strlit(")"); }
        }
        let mut s = String::new();
        push_hex(&mut s, self.to_byte(false) as u32, 2);
        push_str(&mut s, " (C:");
        push_flag(&mut s, self.c);
        push_str(&mut s, " Z:");
        push_flag(&mut s, self.z);
        push_str(&mut s, " I:");
        push_flag(&mut s, self.i);
        push_str(&mut s, " D:");
        push_flag(&mut s, self.d);
        push_str(&mut s, " M:");
        push_flag(&mut s, self.m);
        push_str(&mut s, " V:");
        push_flag(&mut s, self.v);
        push_str(&mut s, " N:");
        push_flag(&mut s, self.n);
        push_str(&mut s, " E:");
        push_flag(&mut s, self.e);
        push_str(&mut s, " XB:");
        push_flag(&mut s, self.xb);
        push_str(&mut s, ")");
        s
    }
}

} // verus!
