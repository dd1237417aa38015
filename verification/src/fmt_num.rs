//! Decimal and hexadecimal text of numbers.
use vstd::prelude::*;

verus! {

/// The digit character of a value below 16 (letters in upper or lower
/// case).
pub open spec fn digit_char(d: nat, upper: bool) -> char {
    if d == 0 {
        '0'
    } else if d == 1 {
        '1'
    } else if d == 2 {
        '2'
    } else if d == 3 {
        '3'
    } else if d == 4 {
        '4'
    } else if d == 5 {
        '5'
    } else if d == 6 {
        '6'
    } else if d == 7 {
        '7'
    } else if d == 8 {
        '8'
    } else if d == 9 {
        '9'
    } else if d == 10 {
        if upper { 'A' } else { 'a' }
    } else if d == 11 {
        if upper { 'B' } else { 'b' }
    } else if d == 12 {
        if upper { 'C' } else { 'c' }
    } else if d == 13 {
        if upper { 'D' } else { 'd' }
    } else if d == 14 {
        if upper { 'E' } else { 'e' }
    } else {
        if upper { 'F' } else { 'f' }
    }
}

/// The digits of `v` in base `b`, most significant first, without leading
/// zeros (zero is "0").
pub open spec fn digits(v: nat, b: nat, upper: bool) -> Seq<char>
    recommends
        2 <= b <= 16,
    decreases v,
{
    if b < 2 || v < b {
        seq![digit_char(v, upper)]
    } else {
        proof {
            lemma_div_smaller(v, b);
        }
        digits(v / b, b, upper).push(digit_char(v % b, upper))
    }
}

pub proof fn lemma_div_smaller(v: nat, b: nat)
    requires
        2 <= b <= v,
    ensures
        v / b < v,
{
    assert(v / b < v) by (nonlinear_arith)
        requires
            2 <= b <= v,
    ;
}

/// Decimal text of `v`.
pub open spec fn dec_text(v: nat) -> Seq<char> {
    digits(v, 10, true)
}

/// Upper-case hexadecimal text of `v` with a `0x` prefix.
pub open spec fn hex_text(v: nat) -> Seq<char> {
    seq!['0', 'x'] + digits(v, 16, true)
}

/// Lower-case hexadecimal text of `v` with a `0x` prefix.
pub open spec fn lower_hex_text(v: nat) -> Seq<char> {
    seq!['0', 'x'] + digits(v, 16, false)
}

fn digit_str(d: u64, upper: bool) -> (r: &'static str)
    requires
        d < 16,
    ensures
        r@ == seq![digit_char(d as nat, upper)],
{
    proof {
        reveal_strlit("0");
        reveal_strlit("1");
        reveal_strlit("2");
        reveal_strlit("3");
        reveal_strlit("4");
        reveal_strlit("5");
        reveal_strlit("6");
        reveal_strlit("7");
        reveal_strlit("8");
        reveal_strlit("9");
        reveal_strlit("A");
        reveal_strlit("B");
        reveal_strlit("C");
        reveal_strlit("D");
        reveal_strlit("E");
        reveal_strlit("F");
        reveal_strlit("a");
        reveal_strlit("b");
        reveal_strlit("c");
        reveal_strlit("d");
        reveal_strlit("e");
        reveal_strlit("f");
    }
    if !upper {
        match d {
            10 => {
                return "a";
            },
            11 => {
                return "b";
            },
            12 => {
                return "c";
            },
            13 => {
                return "d";
            },
            14 => {
                return "e";
            },
            15 => {
                return "f";
            },
            _ => {},
        }
    }
    match d {
        0 => "0",
        1 => "1",
        2 => "2",
        3 => "3",
        4 => "4",
        5 => "5",
        6 => "6",
        7 => "7",
        8 => "8",
        9 => "9",
        10 => "A",
        11 => "B",
        12 => "C",
        13 => "D",
        14 => "E",
        _ => "F",
    }
}

fn push_digits(out: &mut String, v: u64, b: u64, upper: bool)
    requires
        2 <= b <= 16,
    ensures
        final(out)@ == old(out)@ + digits(v as nat, b as nat, upper),
    decreases v,
{
    if v >= b {
        proof {
            lemma_div_smaller(v as nat, b as nat);
        }
        push_digits(out, v / b, b, upper);
    }
    out.append(digit_str(v % b, upper));
    proof {
        if v < b {
            assert(v % b == v) by (nonlinear_arith)
                requires
                    v < b,
                    2 <= b,
            ;
        }
    }
    assert(final(out)@ =~= old(out)@ + digits(v as nat, b as nat, upper));
}

/// Appends the decimal text of `v`.
pub fn push_dec(out: &mut String, v: u64)
    ensures
        final(out)@ == old(out)@ + dec_text(v as nat),
{
    push_digits(out, v, 10, true);
}

/// Appends the upper-case hexadecimal text of `v` with a `0x` prefix.
pub fn push_hex(out: &mut String, v: u64)
    ensures
        final(out)@ == old(out)@ + hex_text(v as nat),
{
    out.append("0x");
    proof {
        reveal_strlit("0x");
    }
    push_digits(out, v, 16, true);
    assert(final(out)@ =~= old(out)@ + hex_text(v as nat));
}

/// Appends the lower-case hexadecimal text of `v` with a `0x` prefix.
pub fn push_hex_lower(out: &mut String, v: u64)
    ensures
        final(out)@ == old(out)@ + lower_hex_text(v as nat),
{
    out.append("0x");
    proof {
        reveal_strlit("0x");
    }
    push_digits(out, v, 16, false);
    assert(final(out)@ =~= old(out)@ + lower_hex_text(v as nat));
}

/// Decimal text of `v`, zero-padded to at least two digits.
pub open spec fn dec_text2(v: nat) -> Seq<char> {
    if v < 10 {
        seq!['0'] + dec_text(v)
    } else {
        dec_text(v)
    }
}

/// Appends the decimal text of `v`, zero-padded to at least two digits.
pub fn push_dec2(out: &mut String, v: u64)
    ensures
        final(out)@ == old(out)@ + dec_text2(v as nat),
{
    if v < 10 {
        out.append("0");
        proof {
            reveal_strlit("0");
        }
    }
    push_digits(out, v, 10, true);
    assert(final(out)@ =~= old(out)@ + dec_text2(v as nat));
}

} // verus!
