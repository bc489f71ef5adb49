use vstd::prelude::*;

verus! {

/// Two to the power `n`, for the bit positions of a byte.
pub open spec fn bit_weight(n: int) -> int {
    if n <= 0 {
        1
    } else if n == 1 {
        2
    } else if n == 2 {
        4
    } else if n == 3 {
        8
    } else if n == 4 {
        16
    } else if n == 5 {
        32
    } else if n == 6 {
        64
    } else {
        128
    }
}

/// Whether bit `n` of `value` is set.
pub open spec fn bit_set(value: u8, n: int) -> bool {
    (value as int / bit_weight(n)) % 2 == 1
}

/// The red, green and blue components of a 15-bit color (0BBB BBGG GGGR RRRR).
pub open spec fn rgb_of(color: u16) -> Seq<u16> {
    seq![color % 0x20, (color / 0x20) % 0x20, (color / 0x400) % 0x20]
}

/// The color with the given components.
pub open spec fn color_of(r: int, g: int, b: int) -> int {
    r + g * 0x20 + b * 0x400
}

/// Four to the power `i`, for the two-bit fields of a byte.
pub open spec fn quad_weight(i: int) -> int {
    if i <= 0 {
        1
    } else if i == 1 {
        4
    } else if i == 2 {
        16
    } else {
        64
    }
}

/// Four to the power `i`.
pub fn quad(i: usize) -> (r: u8)
    requires
        i < 4,
    ensures
        r == quad_weight(i as int),
{
    if i == 0 {
        1
    } else if i == 1 {
        4
    } else if i == 2 {
        16
    } else {
        64
    }
}

/// Whether bit `n` of `value` is set (`n` below 8).
pub fn bit(value: u8, n: usize) -> (r: bool)
    requires
        n < 8,
    ensures
        r == bit_set(value, n as int),
{
    let m = 1u8 << n;
    proof {
        crate::bits::lemma_u8_bit(value, n as u8);
        crate::bits::lemma_shift_one(n as u8);
    }
    (value & m) != 0
}

/// Split a color up into its RGB components
pub fn color_to_rgb(color: u16) -> (r: [u16; 3])
    ensures
        r@ == rgb_of(color),
{
    proof {
        crate::bits::lemma_u16(color);
    }
    let r = [color & 0x1F, (color >> 5) & 0x1F, (color >> 10) & 0x1F];
    assert(r@ =~= rgb_of(color));
    r
}

/// Build a color from its RGB components
pub fn rgb_to_color(rgb: [u16; 3]) -> (r: u16)
    requires
        color_of(rgb[0] as int, rgb[1] as int, rgb[2] as int) < 0x10000,
    ensures
        r == color_of(rgb[0] as int, rgb[1] as int, rgb[2] as int),
{
    rgb[0] as u16 + rgb[1] as u16 * 0x20 + rgb[2] as u16 * 0x400
}

/// Splitting a 15-bit color into its components and building it again gives it back.
pub proof fn lemma_color_roundtrip(color: u16)
    requires
        color < 0x8000,
    ensures
        color_of(rgb_of(color)[0] as int, rgb_of(color)[1] as int, rgb_of(color)[2] as int) == color,
{
    let c = color as int;
    assert(c == c % 0x20 + (c / 0x20) * 0x20);
    assert(c / 0x20 == (c / 0x20) % 0x20 + (c / 0x400) * 0x20);
    assert(c / 0x400 < 0x20);
}

/// Building a color from components below 32 and splitting it gives the components back.
pub proof fn lemma_rgb_roundtrip(r: u16, g: u16, b: u16)
    requires
        r < 0x20,
        g < 0x20,
        b < 0x20,
    ensures
        rgb_of(color_of(r as int, g as int, b as int) as u16) == seq![r, g, b],
{
    let c = color_of(r as int, g as int, b as int);
    assert(c / 0x20 == g + b * 0x20);
    assert(c / 0x400 == b);
    assert(rgb_of(c as u16) =~= seq![r, g, b]);
}

/// The 15-bit color of a direct color byte (BBGG GRRR) and palette bits (bgr): the
/// byte gives the upper bits of each component and each palette bit the bit below
/// them, so that red is RRRr0, green GGGg0 and blue BBb00.
pub open spec fn direct_color(byte: u8, pal: u8) -> int {
    let red = (byte % 8) * 4 + (pal % 2) * 2;
    let green = ((byte / 8) % 8) * 4 + ((pal / 2) % 2) * 2;
    let blue = (byte / 64) * 8 + ((pal / 4) % 2) * 4;
    color_of(red, green, blue)
}

/// Convert from a direct color encoded byte (BBGG GRRR) and optionally the palette index (bgr)
/// to the regular 15 bit color format (0BBB BBGG GGGR RRRR)
pub fn from_direct_color(byte: u8, palette_index: u8) -> (r: u16)
    ensures
        r == direct_color(byte, palette_index),
{
    let byte = byte as u16;
    let pal = palette_index as u16;
    let r = byte & 0x07;
    let g = byte & 0x38;
    let b = byte & 0xC0;
    let v = (r << 2) | (g << 4) | (b << 7) | ((pal & 0x01) << 1) | ((pal & 0x02) << 5) | ((pal & 0x04) << 10);
    proof {
        let y = byte;
        let q = pal;
        assert(y < 256 && q < 256 ==> ((y & 0x07) << 2) | ((y & 0x38) << 4) | ((y & 0xC0) << 7) | ((q & 0x01) << 1)
            | ((q & 0x02) << 5) | ((q & 0x04) << 10) == ((y % 8) * 4 + (q % 2) * 2) + (((y / 8) % 8) * 4 + ((q / 2)
            % 2) * 2) * 0x20 + ((y / 64) * 8 + ((q / 4) % 2) * 4) * 0x400) by (bit_vector);
    }
    v
}

} // verus!
