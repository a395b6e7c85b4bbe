//! Building text: characters appended to a `String`, and the decimal notation of
//! integers.
//!
//! Every rendering in this crate is stated over `Seq<char>`, the view of a `String`.

use vstd::prelude::*;

verus! {

/// Appends `c` to `s`.
///
/// Trusted: the body is `String::push`, of which the standard library documents that it
/// appends the given character to the end of the string. Nothing else is claimed.
#[verifier::external_body]
pub(crate) fn push_char(s: &mut String, c: char)
    ensures
        final(s)@ == old(s)@.push(c),
{
    s.push(c);
}

/// The character that writes the decimal digit `d`, for `0 <= d <= 9`.
pub open spec fn digit_char(d: int) -> char {
    if d == 0 {
        '0'
    } else if d == 1 {
        '1'
    } else if d == 2 {
        '2'
    } else if d == 3 {
        '3'
    } else if d == 4 {
        '4'
    } else if d == 5 {
        '5'
    } else if d == 6 {
        '6'
    } else if d == 7 {
        '7'
    } else if d == 8 {
        '8'
    } else {
        '9'
    }
}

/// Whether `c` is one of the ten decimal digits.
pub open spec fn is_digit(c: char) -> bool {
    c == '0' || c == '1' || c == '2' || c == '3' || c == '4' || c == '5' || c == '6' || c == '7'
        || c == '8' || c == '9'
}

/// The decimal notation of a natural number: no sign, no leading zero (but for zero
/// itself), no grouping.
pub open spec fn digits_of(n: nat) -> Seq<char>
    decreases n,
{
    if n < 10 {
        seq![digit_char(n as int)]
    } else {
        digits_of(n / 10).push(digit_char((n % 10) as int))
    }
}

/// The decimal notation of an integer: a minus sign for a negative number, then the
/// digits of its magnitude.
pub open spec fn int_text(i: int) -> Seq<char> {
    if i < 0 {
        seq!['-'] + digits_of((-i) as nat)
    } else {
        digits_of(i as nat)
    }
}

/// The decimal notation of `n`, padded on the left with zeros to at least `width`
/// characters.
pub open spec fn padded_digits(n: nat, width: nat) -> Seq<char>
    decreases width,
{
    if width <= 1 {
        digits_of(n)
    } else if n < 10 {
        Seq::new((width - 1) as nat, |i: int| '0').push(digit_char(n as int))
    } else {
        padded_digits(n / 10, (width - 1) as nat).push(digit_char((n % 10) as int))
    }
}

/// The decimal notation of a natural number is made of digits, and of one at least.
pub proof fn lemma_digits_of(n: nat)
    ensures
        digits_of(n).len() >= 1,
        forall|k: int| 0 <= k < digits_of(n).len() ==> is_digit(#[trigger] digits_of(n)[k]),
    decreases n,
{
    if n >= 10 {
        lemma_digits_of(n / 10);
    }
}

fn digit_to_char(d: u8) -> (c: char)
    requires
        d <= 9,
    ensures
        c == digit_char(d as int),
{
    match d {
        0 => '0',
        1 => '1',
        2 => '2',
        3 => '3',
        4 => '4',
        5 => '5',
        6 => '6',
        7 => '7',
        8 => '8',
        _ => '9',
    }
}

/// Appends the decimal notation of `n` to `out`.
pub fn push_digits(out: &mut String, n: u128)
    ensures
        final(out)@ == old(out)@ + digits_of(n as nat),
    decreases n,
{
    if n >= 10 {
        push_digits(out, n / 10);
    }
    let d: u8 = (n % 10) as u8;
    push_char(out, digit_to_char(d));
    assert(out@ =~= old(out)@ + digits_of(n as nat));
}

/// Appends the decimal notation of `n` to `out`, padded on the left with zeros to at
/// least `width` characters.
pub fn push_padded(out: &mut String, n: u128, width: usize)
    ensures
        final(out)@ == old(out)@ + padded_digits(n as nat, width as nat),
    decreases width,
{
    if width <= 1 {
        push_digits(out, n);
    } else if n < 10 {
        let ghost before = out@;
        let mut i: usize = 1;
        while i < width
            invariant
                1 <= i <= width,
                out@ =~= before + Seq::new((i - 1) as nat, |k: int| '0'),
            decreases width - i,
        {
            push_char(out, '0');
            i = i + 1;
        }
        let d: u8 = n as u8;
        push_char(out, digit_to_char(d));
        assert(out@ =~= old(out)@ + padded_digits(n as nat, width as nat));
    } else {
        push_padded(out, n / 10, width - 1);
        let d: u8 = (n % 10) as u8;
        push_char(out, digit_to_char(d));
        assert(out@ =~= old(out)@ + padded_digits(n as nat, width as nat));
    }
}

/// Appends the decimal notation of the signed integer `v` to `out`.
pub fn push_int(out: &mut String, v: i128)
    ensures
        final(out)@ == old(out)@ + int_text(v as int),
{
    if v < 0 {
        push_char(out, '-');
        let m: u128 = (-(v + 1)) as u128 + 1;
        push_digits(out, m);
        assert(out@ =~= old(out)@ + int_text(v as int));
    } else {
        push_digits(out, v as u128);
    }
}

/// The decimal notation of an unsigned 64-bit integer.
pub fn u64_text(n: u64) -> (r: String)
    ensures
        r@ == digits_of(n as nat),
{
    let mut out = String::new();
    push_digits(&mut out, n as u128);
    assert(out@ =~= digits_of(n as nat));
    out
}

/// The decimal notation of a signed 64-bit integer.
pub fn i64_text(v: i64) -> (r: String)
    ensures
        r@ == int_text(v as int),
{
    let mut out = String::new();
    push_int(&mut out, v as i128);
    assert(out@ =~= int_text(v as int));
    out
}

/// Appends the characters of `s` to `out`.
pub fn push_text(out: &mut String, s: &str)
    ensures
        final(out)@ == old(out)@ + s@,
{
    out.append(s);
}

} // verus!
