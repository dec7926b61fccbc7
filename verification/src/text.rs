//! Building blocks for the text of a line: runs of one character, decimal
//! numbers with a fixed number of places, and right-aligned fields.

use vstd::prelude::*;
use vstd::string::*;

verus! {

/// `String::push` of the standard library: the character is appended at the
/// end of the string and the characters before it stay as they were.
pub assume_specification[ String::push ](s: &mut String, ch: char)
    ensures
        final(s)@ == old(s)@.push(ch),
;

/// The character of the decimal digit `d`.
pub open spec fn digit_char(d: nat) -> char {
    if d == 0 {
        '0'
    } else if d == 1 {
        '1'
    } else if d == 2 {
        '2'
    } else if d == 3 {
        '3'
    } else if d == 4 {
        '4'
    } else if d == 5 {
        '5'
    } else if d == 6 {
        '6'
    } else if d == 7 {
        '7'
    } else if d == 8 {
        '8'
    } else {
        '9'
    }
}

/// The decimal digits of `n`, most significant first, without leading zeros.
pub open spec fn decimal(n: nat) -> Seq<char>
    decreases n,
{
    if n < 10 {
        seq![digit_char(n)]
    } else {
        decimal(n / 10).push(digit_char(n % 10))
    }
}

/// `n` copies of `c`.
pub open spec fn repeat(c: char, n: nat) -> Seq<char> {
    Seq::new(n, |i: int| c)
}

/// `s` behind as many spaces as bring it to `width` characters; `s` itself
/// where it is that long already.
pub open spec fn pad_left(s: Seq<char>, width: nat) -> Seq<char> {
    if s.len() < width {
        repeat(' ', (width - s.len()) as nat) + s
    } else {
        s
    }
}

/// `a / b` rounded to the nearest integer, a half rounded up.
pub open spec fn round_div(a: nat, b: nat) -> nat
    recommends
        b > 0,
{
    (2 * a + b) / (2 * b)
}

/// A number given in tenths, written with one decimal place.
pub open spec fn tenths(t: nat) -> Seq<char> {
    decimal(t / 10) + seq!['.', digit_char(t % 10)]
}

/// A number given in hundredths, written with two decimal places.
pub open spec fn hundredths(h: nat) -> Seq<char> {
    decimal(h / 100) + seq!['.', digit_char((h / 10) % 10), digit_char(h % 10)]
}

/// A number below a thousand has at most three digits.
pub proof fn lemma_decimal_short(n: nat)
    requires
        n < 1000,
    ensures
        1 <= decimal(n).len() <= 3,
        n < 10 ==> decimal(n).len() == 1,
        10 <= n < 100 ==> decimal(n).len() == 2,
{
    reveal_with_fuel(decimal, 4);
}

/// The character of a decimal digit.
pub fn digit(d: u8) -> (c: char)
    requires
        d < 10,
    ensures
        c == digit_char(d as nat),
{
    if d == 0 {
        '0'
    } else if d == 1 {
        '1'
    } else if d == 2 {
        '2'
    } else if d == 3 {
        '3'
    } else if d == 4 {
        '4'
    } else if d == 5 {
        '5'
    } else if d == 6 {
        '6'
    } else if d == 7 {
        '7'
    } else if d == 8 {
        '8'
    } else {
        '9'
    }
}

/// Division rounded to the nearest integer, a half rounded up.
pub fn rounded_div(a: u128, b: u128) -> (q: u128)
    requires
        b > 0,
    ensures
        q == round_div(a as nat, b as nat),
{
    let whole: u128 = a / b;
    let rest: u128 = a % b;
    proof {
        lemma_round_div(a as nat, b as nat);
    }
    if rest >= b - rest {
        whole + 1
    } else {
        whole
    }
}

/// Rounding a quotient looks at the remainder alone: the quotient goes up by
/// one exactly when twice the remainder reaches the divisor.
pub proof fn lemma_round_div(a: nat, b: nat)
    requires
        b > 0,
    ensures
        round_div(a, b) == a / b + if 2 * (a % b) >= b { 1nat } else { 0nat },
        2 * (a % b) >= b ==> a / b + 1 <= a,
{
    let q = a / b;
    let r = a % b;
    vstd::arithmetic::div_mod::lemma_fundamental_div_mod(a as int, b as int);
    assert(a == b * q + r);
    if 2 * r >= b {
        assert(2 * a + b == (q + 1) * (2 * b) + (2 * r - b)) by (nonlinear_arith)
            requires
                a == b * q + r,
        ;
        vstd::arithmetic::div_mod::lemma_fundamental_div_mod_converse(
            (2 * a + b) as int,
            (2 * b) as int,
            (q + 1) as int,
            (2 * r - b) as int,
        );
        assert(q + 1 <= a) by (nonlinear_arith)
            requires
                a == b * q + r,
                2 * r >= b,
                b > 0,
                r < b,
        ;
    } else {
        assert(2 * a + b == q * (2 * b) + (2 * r + b)) by (nonlinear_arith)
            requires
                a == b * q + r,
        ;
        vstd::arithmetic::div_mod::lemma_fundamental_div_mod_converse(
            (2 * a + b) as int,
            (2 * b) as int,
            q as int,
            (2 * r + b) as int,
        );
    }
}

/// Appends `n` copies of `c`.
pub fn push_repeat(out: &mut String, c: char, n: usize)
    ensures
        final(out)@ == old(out)@ + repeat(c, n as nat),
{
    let mut i: usize = 0;
    while i < n
        invariant
            i <= n,
            out@ == old(out)@ + repeat(c, i as nat),
        decreases n - i,
    {
        out.push(c);
        i = i + 1;
        assert(out@ =~= old(out)@ + repeat(c, i as nat));
    }
    assert(out@ =~= old(out)@ + repeat(c, n as nat));
}

/// Appends the decimal digits of `n`.
pub fn push_decimal(out: &mut String, n: u128)
    ensures
        final(out)@ == old(out)@ + decimal(n as nat),
    decreases n,
{
    if n >= 10 {
        push_decimal(out, n / 10);
    }
    out.push(digit((n % 10) as u8));
    assert(out@ =~= old(out)@ + decimal(n as nat));
}

/// Appends a number given in tenths, with one decimal place.
pub fn push_tenths(out: &mut String, t: u128)
    ensures
        final(out)@ == old(out)@ + tenths(t as nat),
{
    push_decimal(out, t / 10);
    out.push('.');
    out.push(digit((t % 10) as u8));
    assert(out@ =~= old(out)@ + tenths(t as nat));
}

/// Appends a number given in hundredths, with two decimal places.
pub fn push_hundredths(out: &mut String, h: u128)
    ensures
        final(out)@ == old(out)@ + hundredths(h as nat),
{
    push_decimal(out, h / 100);
    out.push('.');
    out.push(digit(((h / 10) % 10) as u8));
    out.push(digit((h % 10) as u8));
    assert(out@ =~= old(out)@ + hundredths(h as nat));
}

/// Appends `s`, right-aligned in a field of `width` characters.
pub fn push_padded(out: &mut String, s: &str, width: usize)
    ensures
        final(out)@ == old(out)@ + pad_left(s@, width as nat),
{
    let len: usize = s.unicode_len();
    if len < width {
        push_repeat(out, ' ', width - len);
    }
    out.append(s);
    assert(out@ =~= old(out)@ + pad_left(s@, width as nat));
}

/// A duration given in nanoseconds, written with one decimal place in the
/// largest of the units s, ms, µs and ns that it reaches.
pub open spec fn duration_text(nanos: nat) -> Seq<char> {
    if nanos >= 1_000_000_000 {
        tenths(round_div(nanos, 100_000_000)) + seq!['s']
    } else if nanos >= 1_000_000 {
        tenths(round_div(nanos, 100_000)) + seq!['m', 's']
    } else if nanos >= 1_000 {
        tenths(round_div(nanos, 100)) + seq!['\u{b5}', 's']
    } else {
        tenths(nanos * 10) + seq!['n', 's']
    }
}

/// Appends a duration given in nanoseconds, with one decimal place in the
/// largest unit that it reaches.
pub fn push_duration(out: &mut String, nanos: u128)
    ensures
        final(out)@ == old(out)@ + duration_text(nanos as nat),
{
    if nanos >= 1_000_000_000 {
        push_tenths(out, rounded_div(nanos, 100_000_000));
        out.push('s');
    } else if nanos >= 1_000_000 {
        push_tenths(out, rounded_div(nanos, 100_000));
        out.push('m');
        out.push('s');
    } else if nanos >= 1_000 {
        push_tenths(out, rounded_div(nanos, 100));
        out.push('\u{b5}');
        out.push('s');
    } else {
        push_tenths(out, nanos * 10);
        out.push('n');
        out.push('s');
    }
    assert(out@ =~= old(out)@ + duration_text(nanos as nat));
}

} // verus!
