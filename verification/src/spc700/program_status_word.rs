use vstd::prelude::*;

use crate::text::{flag_text, hex, push_flag, push_hex, push_str};

verus! {

/// The SPC700 status flags.
#[derive(Default, Copy, Clone, Debug)]
pub struct ProgramStatusWord {
    pub n: bool,
    pub v: bool,
    pub p: bool,
    pub b: bool,
    pub h: bool,
    pub i: bool,
    pub z: bool,
    pub c: bool,
}

/// 1 for a set flag, 0 otherwise.
pub open spec fn fbit(b: bool) -> int {
    if b { 1 } else { 0 }
}

/// Whether bit `k` of `byte` is set.
pub open spec fn bit_k(byte: u8, k: int) -> bool {
    (byte as int / pow2k(k)) % 2 == 1
}

/// 2 to the power `k`, for `k` from 0 to 7.
pub open spec fn pow2k(k: int) -> int {
    if k == 0 {
        1
    } else if k == 1 {
        2
    } else if k == 2 {
        4
    } else if k == 3 {
        8
    } else if k == 4 {
        16
    } else if k == 5 {
        32
    } else if k == 6 {
        64
    } else {
        128
    }
}

impl ProgramStatusWord {
    /// The flags as a byte: N V P B H I Z C from bit 7 down to bit 0.
    pub open spec fn byte_spec(self) -> int {
        fbit(self.n) * 128 + fbit(self.v) * 64 + fbit(self.p) * 32 + fbit(self.b) * 16 + fbit(self.h) * 8
            + fbit(self.i) * 4 + fbit(self.z) * 2 + fbit(self.c)
    }

    /// The flags held by a byte.
    pub open spec fn from_byte_spec(byte: u8) -> ProgramStatusWord {
        ProgramStatusWord {
            n: bit_k(byte, 7),
            v: bit_k(byte, 6),
            p: bit_k(byte, 5),
            b: bit_k(byte, 4),
            h: bit_k(byte, 3),
            i: bit_k(byte, 2),
            z: bit_k(byte, 1),
            c: bit_k(byte, 0),
        }
    }

    pub fn default() -> (r: ProgramStatusWord)
        ensures
            r == (ProgramStatusWord { n: false, v: false, p: false, b: false, h: false, i: false, z: false, c: false }),
    {
        ProgramStatusWord { n: false, v: false, p: false, b: false, h: false, i: false, z: false, c: false }
    }

    pub fn to_byte(&self) -> (r: u8)
        ensures
            r == self.byte_spec(),
    {
        let mut v: u8 = 0;
        if self.n {
            v = v + 128;
        }
        if self.v {
            v = v + 64;
        }
        if self.p {
            v = v + 32;
        }
        if self.b {
            v = v + 16;
        }
        if self.h {
            v = v + 8;
        }
        if self.i {
            v = v + 4;
        }
        if self.z {
            v = v + 2;
        }
        if self.c {
            v = v + 1;
        }
        v
    }

    pub fn from_byte(byte: u8) -> (r: ProgramStatusWord)
        ensures
            r == Self::from_byte_spec(byte),
    {
        proof {
            crate::bits::lemma_bits_of(byte);
        }
        ProgramStatusWord {
            n: ((byte >> 7u8) & 0x01) != 0,
            v: ((byte >> 6u8) & 0x01) != 0,
            p: ((byte >> 5u8) & 0x01) != 0,
            b: ((byte >> 4u8) & 0x01) != 0,
            h: ((byte >> 3u8) & 0x01) != 0,
            i: ((byte >> 2u8) & 0x01) != 0,
            z: ((byte >> 1u8) & 0x01) != 0,
            c: ((byte >> 0u8) & 0x01) != 0,
        }
    }
}

/// Encoding the flags and decoding the byte gives the flags back.
pub proof fn lemma_psw_roundtrip(p: ProgramStatusWord)
    ensures
        ProgramStatusWord::from_byte_spec(p.byte_spec() as u8) == p,
{
    let b = p.byte_spec();
    assert(0 <= b < 256);
}

/// Decoding a byte and encoding the flags gives the byte back.
pub proof fn lemma_byte_roundtrip(byte: u8)
    ensures
        ProgramStatusWord::from_byte_spec(byte).byte_spec() == byte,
{
    let x = byte as int;
    assert(x == (x / 128) % 2 * 128 + (x / 64) % 2 * 64 + (x / 32) % 2 * 32 + (x / 16) % 2 * 16 + (x / 8) % 2 * 8 + (x
        / 4) % 2 * 4 + (x / 2) % 2 * 2 + x % 2) by (nonlinear_arith)
        requires
            0 <= x < 256,
    ;
}

impl ProgramStatusWord {
    /// `pre` followed by the flags as text: `N=1 V=0 P=0 B=0 H=0 I=0 Z=0 C=1 (81)`.
    pub open spec fn text_after(self, pre: Seq<char>) -> Seq<char> {
        pre + "N="@ + flag_text(self.n) + " V="@ + flag_text(self.v) + " P="@ + flag_text(self.p) + " B="@
            + flag_text(self.b) + " H="@ + flag_text(self.h) + " I="@ + flag_text(self.i) + " Z="@ + flag_text(
            self.z,
        ) + " C="@ + flag_text(self.c) + " ("@ + hex(self.byte_spec() as nat, 2) + ")"@
    }

    /// Append the flags as text.
    pub fn push_text(&self, s: &mut String)
        ensures
            final(s)@ == self.text_after(old(s)@),
    {
        proof {
            assert("N=".is_ascii()) by { reveal_strlit("N="); }
            assert(" V=".is_ascii()) by { reveal_strlit(" V="); }
            assert(" P=".is_ascii()) by { reveal_strlit(" P="); }
            assert(" B=".is_ascii()) by { reveal_strlit(" B="); }
            assert(" H=".is_ascii()) by { reveal_strlit(" H="); }
            assert(" I=".is_ascii()) by { reveal_strlit(" I="); }
            assert(" Z=".is_ascii()) by { reveal_strlit(" Z="); }
            assert(" C=".is_ascii()) by { reveal_strlit(" C="); }
            assert(" (".is_ascii()) by { reveal_strlit(" ("); }
            assert(")".is_ascii()) by { reveal_strlit(")"); }
        }
        push_str(s, "N=");
        push_flag(s, self.n);
        push_str(s, " V=");
        push_flag(s, self.v);
        push_str(s, " P=");
        push_flag(s, self.p);
        push_str(s, " B=");
        push_flag(s, self.b);
        push_str(s, " H=");
        push_flag(s, self.h);
        push_str(s, " I=");
        push_flag(s, self.i);
        push_str(s, " Z=");
        push_flag(s, self.z);
        push_str(s, " C=");
        push_flag(s, self.c);
        push_str(s, " (");
        push_hex(s, self.to_byte() as u32, 2);
        push_str(s, ")");
    }

    /// The flags as text.
    pub fn to_string(&self) -> (r: String)
        ensures
            r@ == self.text_after(Seq::empty()),
    {
        let mut s = String::new();
        self.push_text(&mut s);
        s
    }
}

} // verus!
