use vstd::prelude::*;

use vstd::arithmetic::power2::{lemma2_to64, lemma_pow2_strictly_increases, pow2};

verus! {

/// The signed value of a four-bit sample nibble.
pub open spec fn nibble_value(v: u8) -> int {
    if v > 7 {
        v - 16
    } else {
        v as int
    }
}

/// A nibble scaled by the block's shift, out of 15 bits. Shifts of 13 to 15 act as a
/// shift of 12 on the nibble shifted right by three.
pub open spec fn scaled_nibble(v: u8, shift: u8) -> int {
    if shift <= 12 {
        nibble_value(v) * pow2(shift as nat) / 2
    } else if v > 7 {
        -2048
    } else {
        0
    }
}

/// The prediction filter of a block applied to a scaled nibble `s`, with the two
/// samples before it.
pub open spec fn filtered(s: int, filter: u8, old: int, older: int) -> int {
    if filter == 0 {
        s
    } else if filter == 1 {
        s + old + (-old) / 16
    } else if filter == 2 {
        s + 2 * old + (-3 * old) / 32 - older + older / 16
    } else {
        s + 2 * old + (-13 * old) / 64 - older + (older * 3) / 16
    }
}

/// Nibble `i` of the eight data bytes of a block: high nibble first.
pub open spec fn block_nibble(data: Seq<u8>, i: int) -> u8 {
    if i % 2 == 0 {
        (data[i / 2] / 16) as u8
    } else {
        (data[i / 2] % 16) as u8
    }
}

/// The first `n` samples that a block with header `head` and data bytes `data` decodes
/// to, after the samples `old` (the newest) and `older`.
pub open spec fn decoded_samples(head: u8, data: Seq<u8>, old: i16, older: i16, n: nat) -> Seq<i16>
    decreases n,
{
    if n == 0 {
        Seq::empty()
    } else {
        let p = decoded_samples(head, data, old, older, (n - 1) as nat);
        let o1: int = if n >= 2 { p[n - 2] as int } else { old as int };
        let o2: int = if n >= 3 { p[n - 3] as int } else if n == 2 { old as int } else { older as int };
        let s = scaled_nibble(block_nibble(data, n - 1), head / 16);
        p.push(filtered(s, (head / 4) % 4, o1, o2) as i16)
    }
}

proof fn lemma_shifted_nibble(v: u16, s: u16, w: u16)
    by (bit_vector)
    requires
        v < 16,
        s <= 12,
        w == 1u16 << s,
    ensures
        ((((if v > 7 { 0xFFF0u16 | v } else { v }) << s) as i16) >> 1u16) as int == (if v > 7 {
            v as int - 16
        } else {
            v as int
        }) * (w as int) / 2,
        (((((if v > 7 { 0xFFF0u16 | v } else { v }) >> 3u16) << 12u16) as i16) >> 1u16) as int == (if v
            > 7 {
            -2048int
        } else {
            0int
        }),
{
}

/// An arithmetic shift right of a 32-bit value divides it, rounding down.
pub(crate) proof fn lemma_floor_shifts(x: i32)
    by (bit_vector)
    ensures
        (x >> 4u32) as int == x as int / 16,
        (x >> 5u32) as int == x as int / 32,
        (x >> 6u32) as int == x as int / 64,
        (x >> 10u32) as int == x as int / 1024,
        (x >> 1u32) as int == x as int / 2,
{
}

/// Decode one nibble of a block with the block's shift.
pub fn decode_nibble(v: u8, shift: u8) -> (r: i16)
    requires
        v < 16,
    ensures
        r == scaled_nibble(v, shift),
        -16384 <= r < 16384,
{
    let v16: u16 = if v > 7 { 0xFFF0u16 | (v as u16) } else { v as u16 };
    proof {
        let s: u16 = if shift <= 12 { shift as u16 } else { 0 };
        lemma_shifted_nibble(v as u16, s, 1u16 << s);
        if shift <= 12 {
            lemma2_to64();
            lemma_pow2_strictly_increases(shift as nat, 16);
            vstd::bits::lemma_u16_shl_is_mul(1u16, s);
            let n = nibble_value(v);
            let p = pow2(shift as nat) as int;
            assert(-16384 <= n * p / 2 < 16384) by (nonlinear_arith)
                requires
                    -8 <= n <= 7,
                    0 < p <= 4096,
            ;
        }
    }
    if shift >= 0xD {
        (((v16 >> 3u16) << 12u16) as i16) >> 1u16
    } else {
        ((v16 << (shift as u16)) as i16) >> 1u16
    }
}

/// Apply the prediction filter of a block to a scaled nibble.
pub fn filter_sample(s: i16, filter: u8, old: i16, older: i16) -> (r: i16)
    requires
        filter < 4,
        -16384 <= s < 16384,
    ensures
        r == filtered(s as int, filter, old as int, older as int) as i16,
{
    let s = s as i32;
    let old = old as i32;
    let older = older as i32;
    proof {
        lemma_floor_shifts((-old) as i32);
        lemma_floor_shifts((-3 * old) as i32);
        lemma_floor_shifts((-13 * old) as i32);
        lemma_floor_shifts(older);
        lemma_floor_shifts((older * 3) as i32);
    }
    let value: i32 = if filter == 0 {
        s
    } else if filter == 1 {
        s + old + ((-old) >> 4u32)
    } else if filter == 2 {
        s + 2 * old + ((-3 * old) >> 5u32) - older + (older >> 4u32)
    } else {
        s + 2 * old + ((-13 * old) >> 6u32) - older + ((older * 3) >> 4u32)
    };
    value as i16
}

/// Decode the sixteen samples of a block from its header and eight data bytes, after
/// the samples `old` (the newest) and `older`.
pub fn decode_block(head: u8, data: &[u8; 8], old: i16, older: i16) -> (r: [i16; 16])
    ensures
        r@ == decoded_samples(head, data@, old, older, 16),
{
    let shift = head / 16;
    let filter = (head / 4) % 4;
    let mut out: [i16; 16] = [0; 16];
    let mut o1 = old;
    let mut o2 = older;
    let mut i: usize = 0;
    while i < 16
        invariant
            i <= 16,
            shift == head / 16,
            filter == (head / 4) % 4,
            out@.len() == 16,
            out@.subrange(0, i as int) == decoded_samples(head, data@, old, older, i as nat),
            o1 == (if i >= 1 { out@[i - 1] } else { old }),
            o2 == (if i >= 2 { out@[i - 2] } else if i == 1 { old } else { older }),
        decreases 16 - i,
    {
        let byte = data[i / 2];
        let nibble = if i % 2 == 0 { byte / 16 } else { byte % 16 };
        let s = decode_nibble(nibble, shift);
        let v = filter_sample(s, filter, o1, o2);
        let ghost before = out@;
        out[i] = v;
        proof {
            let p = decoded_samples(head, data@, old, older, i as nat);
            assert(before.subrange(0, i as int) == p);
            assert(nibble == block_nibble(data@, i as int));
            assert(out@.subrange(0, i as int + 1) =~= p.push(v));
        }
        o2 = o1;
        o1 = v;
        i = i + 1;
    }
    proof {
        assert(out@ =~= out@.subrange(0, 16));
    }
    out
}

/// A sample nibble is a four-bit two's complement number: its value lies in -8 to 7
/// and agrees with the nibble modulo 16.
pub proof fn lemma_nibble_value(v: u8)
    requires
        v < 16,
    ensures
        -8 <= nibble_value(v) <= 7,
        (nibble_value(v) - v) % 16 == 0,
{
}

} // verus!
