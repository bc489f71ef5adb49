use vstd::prelude::*;

verus! {

proof fn lemma_u8_masks(x: u8)
    by (bit_vector)
    ensures
        x & 0x0F == x % 16,
        x & 0xF0 == (x / 16) * 16,
        x & 0x03 == x % 4,
        (x & 0x80 != 0) == (x >= 0x80),
        (x & 0x01 != 0) == (x % 2 == 1),
        x & 0x01 == x % 2,
        ((x >> 7u8) & 0x01 != 0) == ((x / 128) % 2 == 1),
        ((x >> 6u8) & 0x01 != 0) == ((x / 64) % 2 == 1),
        ((x >> 5u8) & 0x01 != 0) == ((x / 32) % 2 == 1),
        ((x >> 4u8) & 0x01 != 0) == ((x / 16) % 2 == 1),
        ((x >> 3u8) & 0x01 != 0) == ((x / 8) % 2 == 1),
        ((x >> 2u8) & 0x01 != 0) == ((x / 4) % 2 == 1),
        ((x >> 1u8) & 0x01 != 0) == ((x / 2) % 2 == 1),
        ((x >> 0u8) & 0x01 != 0) == ((x / 1) % 2 == 1),
{
}

proof fn lemma_u8_half(x: u8)
    by (bit_vector)
    ensures
        x >> 1u8 == x / 2,
{
}

proof fn lemma_u8_double(x: u8)
    by (bit_vector)
    ensures
        x << 1u8 == (2 * x) % 256,
        x ^ 0xFF == 255 - x,
{
}

/// The low and high nibbles of a byte.
pub proof fn lemma_nibbles(x: u8)
    ensures
        x & 0x0F == x % 16,
        x & 0xF0 == (x / 16) * 16,
{
    lemma_u8_masks(x);
}

/// The sign bit of a byte.
pub proof fn lemma_sign(x: u8)
    ensures
        (x & 0x80 != 0) == (x >= 0x80),
{
    lemma_u8_masks(x);
}

/// The low two bits of a byte.
pub proof fn lemma_two_bits(x: u8)
    ensures
        x & 0x03 == x % 4,
{
    lemma_u8_masks(x);
}

/// The lowest bit of a byte and a shift right by one.
pub proof fn lemma_low_bit(x: u8)
    ensures
        (x & 0x01 != 0) == (x % 2 == 1),
        x & 0x01 == x % 2,
        x >> 1u8 == x / 2,
{
    lemma_u8_masks(x);
    lemma_u8_half(x);
}

/// A shift left by one and the complement of a byte.
pub proof fn lemma_double(x: u8)
    ensures
        x << 1u8 == (2 * x) % 256,
        x ^ 0xFF == 255 - x,
{
    lemma_u8_double(x);
}

/// Each bit of a byte tested by shifting.
pub proof fn lemma_bits_of(x: u8)
    ensures
        ((x >> 7u8) & 0x01 != 0) == ((x / 128) % 2 == 1),
        ((x >> 6u8) & 0x01 != 0) == ((x / 64) % 2 == 1),
        ((x >> 5u8) & 0x01 != 0) == ((x / 32) % 2 == 1),
        ((x >> 4u8) & 0x01 != 0) == ((x / 16) % 2 == 1),
        ((x >> 3u8) & 0x01 != 0) == ((x / 8) % 2 == 1),
        ((x >> 2u8) & 0x01 != 0) == ((x / 4) % 2 == 1),
        ((x >> 1u8) & 0x01 != 0) == ((x / 2) % 2 == 1),
        ((x >> 0u8) & 0x01 != 0) == ((x / 1) % 2 == 1),
{
    lemma_u8_masks(x);
}


/// Bit `b` of a byte, tested by shifting the byte or by masking it.
pub proof fn lemma_u8_bit(x: u8, b: u8)
    by (bit_vector)
    requires
        b < 8,
    ensures
        ((x >> b) & 0x01 == 1) == ((x / (1u8 << b)) % 2 == 1),
        ((x & (1u8 << b)) != 0) == ((x / (1u8 << b)) % 2 == 1),
{
}

/// The powers of two as shifts of one.
pub proof fn lemma_shift_one(b: u8)
    by (bit_vector)
    requires
        b < 8,
    ensures
        b == 0 ==> (1u8 << b) == 1,
        b == 1 ==> (1u8 << b) == 2,
        b == 2 ==> (1u8 << b) == 4,
        b == 3 ==> (1u8 << b) == 8,
        b == 4 ==> (1u8 << b) == 16,
        b == 5 ==> (1u8 << b) == 32,
        b == 6 ==> (1u8 << b) == 64,
        b == 7 ==> (1u8 << b) == 128,
{
}

/// Masks and shifts of a 16-bit number in arithmetic terms.
pub proof fn lemma_u16(w: u16)
    by (bit_vector)
    ensures
        w & 0x1FFF == w % 0x2000,
        w >> 13u16 == w / 0x2000,
        w >> 13u16 < 8,
        w & 0x1F == w % 0x20,
        (w >> 5u16) & 0x1F == (w / 0x20) % 0x20,
        (w >> 10u16) & 0x1F == (w / 0x400) % 0x20,
        w & 0xFF == w % 0x100,
        0x100 | (w & 0xFF) == 0x100 + w % 0x100,
        w < 256 ==> w & 0xF0 == (w / 16) * 16,
{
}

/// Keeping the low byte of a 16-bit number in page 1.
pub proof fn lemma_page1(w: u16)
    ensures
        0x100 | (w & 0xFF) == 0x100 + w % 0x100,
{
    lemma_u16(w);
}

/// Masks and shifts of a 32-bit number in arithmetic terms.
pub proof fn lemma_u32(v: u32)
    by (bit_vector)
    ensures
        v & 0xFFFF == v % 0x10000,
        v & 0xFFFFFF == v % 0x1000000,
        (v & 0xFF0000) >> 16u32 == (v / 0x10000) % 0x100,
        (v & 0xFF0000) >> 16u32 < 0x100,
        (v & 0xFFFF) < 0x10000,
        v < 0x20000 ==> ((v & 0x10000 != 0) == (v >= 0x10000)),
        v & 0xFF == v % 0x100,
        (v & 0xFF00) >> 8u32 == (v / 0x100) % 0x100,
{
}

} // verus!
