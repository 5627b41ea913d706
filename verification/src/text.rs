//! Numbers as text, for the human-readable forms of this crate's types.
//!
//! The spec functions say what the text of a number is — its digits, most
//! significant first, with no leading zeros unless padded to a width — and
//! the executable writers append exactly that to a `String`.

use vstd::prelude::*;
use vstd::string::StringExecFns;

verus! {

/// The character for a digit value below 16; `upper` picks `A`–`F` over
/// `a`–`f`.
pub open spec fn digit_char(d: int, upper: bool) -> char {
    if d < 10 {
        (0x30 + d) as char
    } else if upper {
        (0x41 + d - 10) as char
    } else {
        (0x61 + d - 10) as char
    }
}

/// The decimal digits of `v`, most significant first.
pub open spec fn dec_text(v: nat) -> Seq<char>
    decreases v,
{
    if v < 10 {
        seq![digit_char(v as int, false)]
    } else {
        dec_text(v / 10) + seq![digit_char((v % 10) as int, false)]
    }
}

/// The hexadecimal digits of `v`, most significant first.
pub open spec fn hex_text(v: nat, upper: bool) -> Seq<char>
    decreases v,
{
    if v < 16 {
        seq![digit_char(v as int, upper)]
    } else {
        hex_text(v / 16, upper) + seq![digit_char((v % 16) as int, upper)]
    }
}

/// `s` with zeros in front, up to `width` characters.
pub open spec fn zero_padded(s: Seq<char>, width: nat) -> Seq<char> {
    if s.len() >= width {
        s
    } else {
        Seq::new((width - s.len()) as nat, |i: int| '0') + s
    }
}

/// `0x` and then the lowercase hexadecimal digits of `v`, zero-padded so that
/// the whole is at least `width` characters: what `{:#0width$x}` writes.
pub open spec fn prefixed_hex(v: nat, width: nat) -> Seq<char> {
    seq!['0', 'x'] + zero_padded(hex_text(v, false), if width >= 2 {
        (width - 2) as nat
    } else {
        0
    })
}

/// The one-character string for a digit value below 16.
fn digit_str(d: u64, upper: bool) -> (r: &'static str)
    requires
        d < 16,
    ensures
        r@ == seq![digit_char(d as int, upper)],
{
    proof {
        reveal_strlit("0");
        reveal_strlit("1");
        reveal_strlit("2");
        reveal_strlit("3");
        reveal_strlit("4");
        reveal_strlit("5");
        reveal_strlit("6");
        reveal_strlit("7");
        reveal_strlit("8");
        reveal_strlit("9");
        reveal_strlit("a");
        reveal_strlit("b");
        reveal_strlit("c");
        reveal_strlit("d");
        reveal_strlit("e");
        reveal_strlit("f");
        reveal_strlit("A");
        reveal_strlit("B");
        reveal_strlit("C");
        reveal_strlit("D");
        reveal_strlit("E");
        reveal_strlit("F");
    }
    if d < 10 {
        match d {
            0 => "0",
            1 => "1",
            2 => "2",
            3 => "3",
            4 => "4",
            5 => "5",
            6 => "6",
            7 => "7",
            8 => "8",
            _ => "9",
        }
    } else if upper {
        match d {
            10 => "A",
            11 => "B",
            12 => "C",
            13 => "D",
            14 => "E",
            _ => "F",
        }
    } else {
        match d {
            10 => "a",
            11 => "b",
            12 => "c",
            13 => "d",
            14 => "e",
            _ => "f",
        }
    }
}

/// Appends the decimal digits of `v`.
pub fn push_dec(s: &mut String, v: u64)
    ensures
        final(s)@ == old(s)@ + dec_text(v as nat),
    decreases v,
{
    if v >= 10 {
        push_dec(s, v / 10);
    }
    s.append(digit_str(v % 10, false));
    proof {
        if v >= 10 {
            assert(dec_text(v as nat) == dec_text((v / 10) as nat) + seq![
                digit_char((v % 10) as int, false),
            ]);
        }
    }
    assert(final(s)@ =~= old(s)@ + dec_text(v as nat));
}

/// Appends the hexadecimal digits of `v`.
fn push_hex(s: &mut String, v: u64, upper: bool)
    ensures
        final(s)@ == old(s)@ + hex_text(v as nat, upper),
    decreases v,
{
    if v >= 16 {
        push_hex(s, v / 16, upper);
    }
    s.append(digit_str(v % 16, upper));
    assert(final(s)@ =~= old(s)@ + hex_text(v as nat, upper));
}

/// How many hexadecimal digits `v` has.
fn hex_len(v: u64) -> (r: usize)
    ensures
        r == hex_text(v as nat, false).len(),
        r <= 16,
    decreases v,
{
    if v < 16 {
        1
    } else {
        proof {
            lemma_hex_len_bound(v as nat);
        }
        hex_len(v / 16) + 1
    }
}

spec fn pow16(k: nat) -> nat
    decreases k,
{
    if k == 0 {
        1
    } else {
        16 * pow16((k - 1) as nat)
    }
}

proof fn lemma_hex_len_below(v: nat, k: nat)
    requires
        k >= 1,
        v < pow16(k),
    ensures
        hex_text(v, false).len() <= k,
    decreases v,
{
    if v >= 16 {
        assert(pow16(k) == 16 * pow16((k - 1) as nat));
        assert(k >= 2) by {
            if k == 1 {
                assert(pow16(0) == 1);
            }
        }
        lemma_hex_len_below(v / 16, (k - 1) as nat);
    }
}

proof fn lemma_hex_len_bound(v: nat)
    requires
        v <= u64::MAX,
    ensures
        hex_text(v, false).len() <= 16,
{
    reveal_with_fuel(pow16, 17);
    lemma_hex_len_below(v, 16);
}

/// Appends the hexadecimal digits of `v`, zero-padded to `width`.
pub fn push_hex_padded(s: &mut String, v: u64, width: usize, upper: bool)
    ensures
        final(s)@ == old(s)@ + zero_padded(hex_text(v as nat, upper), width as nat),
{
    let n = hex_len(v);
    proof {
        lemma_hex_len_any_case(v as nat, upper);
    }
    let ghost start = s@;
    let mut i = n;
    while i < width
        invariant
            n <= i,
            n == hex_text(v as nat, upper).len(),
            i <= width || i == n,
            s@ == start + Seq::new((i - n) as nat, |k: int| '0'),
        decreases width - i,
    {
        proof {
            reveal_strlit("0");
        }
        s.append("0");
        assert(s@ =~= start + Seq::new((i + 1 - n) as nat, |k: int| '0'));
        i = i + 1;
    }
    push_hex(s, v, upper);
    assert(s@ =~= start + zero_padded(hex_text(v as nat, upper), width as nat));
}

proof fn lemma_hex_len_any_case(v: nat, upper: bool)
    ensures
        hex_text(v, upper).len() == hex_text(v, false).len(),
    decreases v,
{
    if v >= 16 {
        lemma_hex_len_any_case(v / 16, upper);
    }
}

/// Appends `0x` and the lowercase hexadecimal digits of `v`, padded so the
/// whole is at least `width` characters.
pub fn push_prefixed_hex(s: &mut String, v: u64, width: usize)
    ensures
        final(s)@ == old(s)@ + prefixed_hex(v as nat, width as nat),
{
    proof {
        reveal_strlit("0x");
    }
    s.append("0x");
    let pad = if width >= 2 {
        width - 2
    } else {
        0
    };
    push_hex_padded(s, v, pad, false);
    assert(final(s)@ =~= old(s)@ + prefixed_hex(v as nat, width as nat));
}

/// A `String` holding exactly `lit`.
pub fn text(lit: &str) -> (r: String)
    ensures
        r@ == lit@,
{
    let mut s = String::new();
    s.append(lit);
    s
}

/// `core::fmt::Formatter`, opaque to Verus, so that types of this
/// crate can have a `Debug` impl of their own.
#[verifier::external_type_specification]
#[verifier::external_body]
pub struct ExFormatter<'a>(core::fmt::Formatter<'a>);

/// `core::fmt::Error`, opaque to Verus: the error half of `fmt::Result`.
#[verifier::external_type_specification]
#[verifier::external_body]
pub struct ExFmtError(core::fmt::Error);

} // verus!
