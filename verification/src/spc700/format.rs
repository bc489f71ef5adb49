use vstd::prelude::*;

use crate::spc700::opcode_data::AddressMode;
use crate::text::{dec, hex, push_char, push_dec, push_hex};

verus! {

/// The number of operand bytes an address mode takes.
pub open spec fn operand_bytes(m: AddressMode) -> nat {
    match m {
        AddressMode::Imm | AddressMode::D | AddressMode::Dx | AddressMode::Dy | AddressMode::Idx | AddressMode::Idy
        | AddressMode::Rel => 1,
        AddressMode::Iax | AddressMode::Abs | AddressMode::AbsX | AddressMode::AbsY => 2,
        _ => 0,
    }
}

/// The operand bytes of the first `j` modes.
pub open spec fn bytes_before(modes: Seq<AddressMode>, j: int) -> nat
    decreases j,
{
    if j <= 0 || modes.len() == 0 {
        0
    } else {
        bytes_before(modes, j - 1) + operand_bytes(modes[j - 1])
    }
}

/// Where the operand of mode `j` starts: the operands of the last mode come first.
pub open spec fn operand_start(modes: Seq<AddressMode>, j: int) -> int {
    bytes_before(modes, modes.len() as int) - bytes_before(modes, j + 1)
}

/// A signed byte with its sign (`{:+}`).
pub open spec fn signed_text(b: u8) -> Seq<char> {
    if b < 128 {
        seq!['+'] + dec(b as nat)
    } else {
        seq!['-'] + dec((256 - b) as nat)
    }
}

/// The text of one address mode whose operand starts at `k` in `vals`.
pub open spec fn mode_text(m: AddressMode, vals: Seq<u8>, k: int) -> Seq<char> {
    let b = hex(vals[k] as nat, 2);
    let w = hex((vals[k] as int + 0x100 * vals[k + 1] as int) as nat, 4);
    match m {
        AddressMode::A => seq!['A'],
        AddressMode::X => seq!['X'],
        AddressMode::XInc => seq!['X', 'I', 'N', 'C'],
        AddressMode::Y => seq!['Y'],
        AddressMode::Ya => seq!['Y', 'A'],
        AddressMode::Imm => seq!['#', '$'] + b,
        AddressMode::Iax => seq!['[', '$'] + w + seq![']'],
        AddressMode::D => seq!['$'] + b,
        AddressMode::Dx => seq!['$'] + b + seq![',', ' ', 'X'],
        AddressMode::Dy => seq!['$'] + b + seq![',', ' ', 'Y'],
        AddressMode::Ix => seq!['(', 'X', ')'],
        AddressMode::Iy => seq!['(', 'Y', ')'],
        AddressMode::Idx => seq!['(', '[', '$'] + b + seq![' ', '+', ' ', 'X', ']', ')'],
        AddressMode::Idy => seq!['(', '[', '$'] + b + seq![']', ' ', '+', ' ', 'Y', ')'],
        AddressMode::Abs => seq!['$'] + w,
        AddressMode::AbsX => seq!['$'] + w + seq![',', ' ', 'X'],
        AddressMode::AbsY => seq!['$'] + w + seq![',', ' ', 'Y'],
        AddressMode::Rel => signed_text(vals[k]),
        AddressMode::Mb => seq!['M', 'b'],
        AddressMode::Nmb => seq!['N', 'm', 'b'],
        AddressMode::C => seq!['C'],
        AddressMode::Sp => seq!['S', 'P'],
        AddressMode::Psw => seq!['P', 'S', 'W'],
        AddressMode::Encoded(n) => seq!['b', 'i', 't'] + hex(n as nat, 0),
    }
}

/// The texts of the first `n` modes, joined by ", ".
pub open spec fn modes_text(modes: Seq<AddressMode>, vals: Seq<u8>, n: int) -> Seq<char>
    decreases n,
{
    if n <= 0 {
        Seq::empty()
    } else if n == 1 {
        mode_text(modes[0], vals, operand_start(modes, 0))
    } else {
        modes_text(modes, vals, n - 1) + seq![',', ' '] + mode_text(modes[n - 1], vals, operand_start(modes, n - 1))
    }
}

/// Append the text of one address mode whose operand starts at `k`.
fn push_mode(s: &mut String, m: AddressMode, vals: &[u8], k: usize)
    requires
        k + operand_bytes(m) <= vals@.len(),
    ensures
        final(s)@ == old(s)@ + mode_text(m, vals@, k as int),
{
    let ghost start = s@;
    match m {
        AddressMode::A => push_char(s, 'A'),
        AddressMode::X => push_char(s, 'X'),
        AddressMode::XInc => {
            push_char(s, 'X');
            push_char(s, 'I');
            push_char(s, 'N');
            push_char(s, 'C');
        },
        AddressMode::Y => push_char(s, 'Y'),
        AddressMode::Ya => {
            push_char(s, 'Y');
            push_char(s, 'A');
        },
        AddressMode::Imm => {
            push_char(s, '#');
            push_char(s, '$');
            push_hex(s, vals[k] as u32, 2);
        },
        AddressMode::Iax => {
            push_char(s, '[');
            push_char(s, '$');
            push_hex(s, vals[k] as u32 + 0x100 * vals[k + 1] as u32, 4);
            push_char(s, ']');
        },
        AddressMode::D => {
            push_char(s, '$');
            push_hex(s, vals[k] as u32, 2);
        },
        AddressMode::Dx | AddressMode::Dy => {
            push_char(s, '$');
            push_hex(s, vals[k] as u32, 2);
            push_char(s, ',');
            push_char(s, ' ');
            push_char(s, if matches!(m, AddressMode::Dx) { 'X' } else { 'Y' });
        },
        AddressMode::Ix => {
            push_char(s, '(');
            push_char(s, 'X');
            push_char(s, ')');
        },
        AddressMode::Iy => {
            push_char(s, '(');
            push_char(s, 'Y');
            push_char(s, ')');
        },
        AddressMode::Idx => {
            push_char(s, '(');
            push_char(s, '[');
            push_char(s, '$');
            push_hex(s, vals[k] as u32, 2);
            push_char(s, ' ');
            push_char(s, '+');
            push_char(s, ' ');
            push_char(s, 'X');
            push_char(s, ']');
            push_char(s, ')');
        },
        AddressMode::Idy => {
            push_char(s, '(');
            push_char(s, '[');
            push_char(s, '$');
            push_hex(s, vals[k] as u32, 2);
            push_char(s, ']');
            push_char(s, ' ');
            push_char(s, '+');
            push_char(s, ' ');
            push_char(s, 'Y');
            push_char(s, ')');
        },
        AddressMode::Abs | AddressMode::AbsX | AddressMode::AbsY => {
            push_char(s, '$');
            push_hex(s, vals[k] as u32 + 0x100 * vals[k + 1] as u32, 4);
            if !matches!(m, AddressMode::Abs) {
                push_char(s, ',');
                push_char(s, ' ');
                push_char(s, if matches!(m, AddressMode::AbsX) { 'X' } else { 'Y' });
            }
        },
        AddressMode::Rel => {
            let b = vals[k];
            if b < 128 {
                push_char(s, '+');
                push_dec(s, b as u32);
            } else {
                push_char(s, '-');
                push_dec(s, 256 - b as u32);
            }
        },
        AddressMode::Mb => {
            push_char(s, 'M');
            push_char(s, 'b');
        },
        AddressMode::Nmb => {
            push_char(s, 'N');
            push_char(s, 'm');
            push_char(s, 'b');
        },
        AddressMode::C => push_char(s, 'C'),
        AddressMode::Sp => {
            push_char(s, 'S');
            push_char(s, 'P');
        },
        AddressMode::Psw => {
            push_char(s, 'P');
            push_char(s, 'S');
            push_char(s, 'W');
        },
        AddressMode::Encoded(n) => {
            push_char(s, 'b');
            push_char(s, 'i');
            push_char(s, 't');
            push_hex(s, n as u32, 0);
        },
    }
    assert(s@ =~= start + mode_text(m, vals@, k as int));
}

/// The operand bytes of one mode.
fn operand_bytes_of(m: AddressMode) -> (r: usize)
    ensures
        r == operand_bytes(m),
{
    match m {
        AddressMode::Imm | AddressMode::D | AddressMode::Dx | AddressMode::Dy | AddressMode::Idx | AddressMode::Idy
        | AddressMode::Rel => 1,
        AddressMode::Iax | AddressMode::Abs | AddressMode::AbsX | AddressMode::AbsY => 2,
        _ => 0,
    }
}

/// The operand bytes before mode `j` grow with `j`.
proof fn lemma_bytes_before_mono(modes: Seq<AddressMode>, i: int, j: int)
    requires
        0 <= i <= j <= modes.len(),
    ensures
        bytes_before(modes, i) <= bytes_before(modes, j),
    decreases j - i,
{
    if i < j {
        lemma_bytes_before_mono(modes, i, j - 1);
    }
}

/// Format the address modes of an instruction with its operand bytes. The operands of
/// the second address mode come first in the bytes.
pub fn format_address_modes(modes: &[AddressMode], values: &[u8]) -> (r: String)
    requires
        bytes_before(modes@, modes@.len() as int) <= values@.len(),
    ensures
        r@ == modes_text(modes@, values@, modes@.len() as int),
{
    let n = modes.len();
    let vlen = values.len();
    let mut total: usize = 0;
    let mut j: usize = 0;
    while j < n
        invariant
            j <= n,
            n == modes@.len(),
            total == bytes_before(modes@, j as int),
            bytes_before(modes@, n as int) <= values@.len(),
            vlen == values@.len(),
        decreases n - j,
    {
        proof {
            lemma_bytes_before_mono(modes@, j as int + 1, n as int);
        }
        total = total + operand_bytes_of(modes[j]);
        j = j + 1;
    }
    let mut s = String::new();
    let mut before: usize = 0;
    let mut i: usize = 0;
    while i < n
        invariant
            i <= n,
            n == modes@.len(),
            total == bytes_before(modes@, n as int),
            before == bytes_before(modes@, i as int),
            total <= values@.len(),
            s@ == modes_text(modes@, values@, i as int),
        decreases n - i,
    {
        proof {
            lemma_bytes_before_mono(modes@, i as int + 1, n as int);
        }
        let count = operand_bytes_of(modes[i]);
        let k = total - (before + count);
        if i > 0 {
            push_char(&mut s, ',');
            push_char(&mut s, ' ');
        }
        push_mode(&mut s, modes[i], values, k);
        before = before + count;
        i = i + 1;
    }
    s
}

} // verus!
