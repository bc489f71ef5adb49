use vstd::prelude::*;

verus! {

/// Append a character to a string (`String::push`): the string gains the character
/// at its end.
#[verifier::external_body]
pub(crate) fn push_char(s: &mut String, c: char)
    ensures
        final(s)@ == old(s)@.push(c),
{
    s.push(c);
}

/// The upper-case hexadecimal digit of a value below 16.
pub open spec fn hex_digit(d: int) -> char {
    if d < 10 {
        ((0x30 + d) as u8) as char
    } else {
        ((0x41 + d - 10) as u8) as char
    }
}

/// The decimal digit of a value below 10.
pub open spec fn dec_digit(d: int) -> char {
    ((0x30 + d) as u8) as char
}

/// `v` in upper-case hexadecimal with at least `width` digits (`{:0width$X}`).
pub open spec fn hex(v: nat, width: nat) -> Seq<char>
    decreases width, v,
{
    if v < 16 && width <= 1 {
        seq![hex_digit(v as int)]
    } else {
        hex(v / 16, if width > 0 { (width - 1) as nat } else { 0 }).push(hex_digit((v % 16) as int))
    }
}

/// `v` in decimal (`{}`).
pub open spec fn dec(v: nat) -> Seq<char>
    decreases v,
{
    if v < 10 {
        seq![dec_digit(v as int)]
    } else {
        dec(v / 10).push(dec_digit((v % 10) as int))
    }
}

/// Append the upper-case hexadecimal digit of `d`.
fn push_hex_digit(s: &mut String, d: u32)
    requires
        d < 16,
    ensures
        final(s)@ == old(s)@.push(hex_digit(d as int)),
{
    let c = if d < 10 { (0x30 + d) as u8 as char } else { (0x41 + d - 10) as u8 as char };
    push_char(s, c);
}

/// Append `v` in upper-case hexadecimal with at least `width` digits.
pub fn push_hex(s: &mut String, v: u32, width: u32)
    requires
        width <= 8,
    ensures
        final(s)@ == old(s)@ + hex(v as nat, width as nat),
    decreases width, v,
{
    if v < 16 && width <= 1 {
        push_hex_digit(s, v);
        assert(hex(v as nat, width as nat) == seq![hex_digit(v as int)]);
    } else {
        push_hex(s, v / 16, if width > 0 { width - 1 } else { 0 });
        push_hex_digit(s, v % 16);
    }
}

/// Append `v` in decimal.
pub fn push_dec(s: &mut String, v: u32)
    ensures
        final(s)@ == old(s)@ + dec(v as nat),
    decreases v,
{
    if v < 10 {
        push_char(s, (0x30 + v) as u8 as char);
        assert(dec(v as nat) == seq![dec_digit(v as int)]);
    } else {
        push_dec(s, v / 10);
        push_char(s, (0x30 + v % 10) as u8 as char);
    }
}

/// Append every character of `t`.
pub fn push_str(s: &mut String, t: &str)
    requires
        t.is_ascii(),
    ensures
        final(s)@ == old(s)@ + t@,
{
    let n = t.unicode_len();
    let mut i: usize = 0;
    while i < n
        invariant
            i <= n,
            n == t@.len(),
            t.is_ascii(),
            s@ == old(s)@ + t@.subrange(0, i as int),
        decreases n - i,
    {
        push_char(s, t.get_char(i));
        i = i + 1;
        assert(t@.subrange(0, i as int) =~= t@.subrange(0, i as int - 1).push(t@[i as int - 1]));
    }
    assert(t@.subrange(0, n as int) =~= t@);
}

/// `1` for a set flag, `0` for a clear one.
pub open spec fn flag_text(b: bool) -> Seq<char> {
    if b {
        seq!['1']
    } else {
        seq!['0']
    }
}

/// `t` right-aligned in a field of `width` characters, padded with spaces.
pub open spec fn spaced(t: Seq<char>, width: nat) -> Seq<char> {
    Seq::new(if width > t.len() { (width - t.len()) as nat } else { 0 }, |i: int| ' ') + t
}

/// The number of hexadecimal digits of `v`.
pub open spec fn hex_len(v: nat) -> nat
    decreases v,
{
    if v < 16 {
        1
    } else {
        1 + hex_len(v / 16)
    }
}

proof fn lemma_hex_len(v: nat)
    ensures
        hex(v, 0).len() == hex_len(v),
    decreases v,
{
    if v >= 16 {
        lemma_hex_len(v / 16);
    }
}

/// Append `1` for a set flag and `0` for a clear one.
pub fn push_flag(s: &mut String, b: bool)
    ensures
        final(s)@ == old(s)@ + flag_text(b),
{
    push_char(s, if b { '1' } else { '0' });
}

/// The number of hexadecimal digits of `v`.
fn hex_digits(v: u32) -> (r: u32)
    ensures
        r == hex_len(v as nat),
{
    proof {
        reveal_with_fuel(hex_len, 8);
    }
    if v < 0x10 {
        1
    } else if v < 0x100 {
        2
    } else if v < 0x1000 {
        3
    } else if v < 0x1_0000 {
        4
    } else if v < 0x10_0000 {
        5
    } else if v < 0x100_0000 {
        6
    } else if v < 0x1000_0000 {
        7
    } else {
        8
    }
}

/// Append `v` in upper-case hexadecimal, right-aligned with spaces in a field of
/// `width` characters (`{:width$X}`).
pub fn push_hex_spaced(s: &mut String, v: u32, width: u32)
    ensures
        final(s)@ == old(s)@ + spaced(hex(v as nat, 0), width as nat),
{
    let n = hex_digits(v);
    proof {
        lemma_hex_len(v as nat);
    }
    let pad: u32 = if width > n { width - n } else { 0 };
    let ghost start = s@;
    let mut i: u32 = 0;
    while i < pad
        invariant
            i <= pad,
            s@ == start + Seq::new(i as nat, |k: int| ' '),
        decreases pad - i,
    {
        push_char(s, ' ');
        i = i + 1;
        assert(Seq::new(i as nat, |k: int| ' ') =~= Seq::new((i - 1) as nat, |k: int| ' ').push(' '));
    }
    push_hex(s, v, 0);
    assert(spaced(hex(v as nat, 0), width as nat) =~= Seq::new(pad as nat, |k: int| ' ') + hex(v as nat, 0));
}

} // verus!
