//! Decimal text of integers and fixed-point numbers.

use vstd::prelude::*;

verus! {

/// The character of a single decimal digit.
pub open spec fn digit_char(d: nat) -> char {
    if d == 0 { '0' }
    else if d == 1 { '1' }
    else if d == 2 { '2' }
    else if d == 3 { '3' }
    else if d == 4 { '4' }
    else if d == 5 { '5' }
    else if d == 6 { '6' }
    else if d == 7 { '7' }
    else if d == 8 { '8' }
    else { '9' }
}

/// Decimal digits of `n`, without leading zeros ("0" for zero).
pub open spec fn digits(n: nat) -> Seq<char>
    decreases n,
{
    if n < 10 {
        seq![digit_char(n)]
    } else {
        digits(n / 10).push(digit_char(n % 10))
    }
}

/// The last `w` decimal digits of `n`, zero-padded on the left.
pub open spec fn fixed_digits(n: nat, w: nat) -> Seq<char>
    decreases w,
{
    if w == 0 {
        Seq::empty()
    } else {
        fixed_digits(n / 10, (w - 1) as nat).push(digit_char(n % 10))
    }
}

/// Decimal text of a signed integer: a minus sign for negative values.
pub open spec fn int_text(v: int) -> Seq<char> {
    if v < 0 {
        seq!['-'] + digits((-v) as nat)
    } else {
        digits(v as nat)
    }
}

/// Appends one character; relies on `String::push`.
#[verifier::external_body]
pub(crate) fn push_char(s: &mut String, c: char)
    ensures
        final(s)@ == old(s)@.push(c),
{
    s.push(c)
}

fn digit_of(d: u64) -> (c: char)
    requires
        d < 10,
    ensures
        c == digit_char(d as nat),
{
    if d == 0 { '0' }
    else if d == 1 { '1' }
    else if d == 2 { '2' }
    else if d == 3 { '3' }
    else if d == 4 { '4' }
    else if d == 5 { '5' }
    else if d == 6 { '6' }
    else if d == 7 { '7' }
    else if d == 8 { '8' }
    else { '9' }
}

/// Appends the decimal digits of `n`.
pub fn push_digits(s: &mut String, n: u64)
    ensures
        final(s)@ == old(s)@ + digits(n as nat),
    decreases n,
{
    if n >= 10 {
        push_digits(s, n / 10);
    }
    push_char(s, digit_of(n % 10));
    assert(s@ =~= old(s)@ + digits(n as nat));
}


/// `10^n`.
pub open spec fn pow10(n: nat) -> nat
    decreases n,
{
    if n == 0 {
        1
    } else {
        10 * pow10((n - 1) as nat)
    }
}

/// Text of `units / 10^places` with exactly `places` fractional digits;
/// a minus sign only for a negative value.
pub open spec fn fixed_text(units: int, places: nat) -> Seq<char> {
    let a: nat = if units < 0 { (-units) as nat } else { units as nat };
    let sign: Seq<char> = if units < 0 { seq!['-'] } else { Seq::empty() };
    if places == 0 {
        sign + digits(a)
    } else {
        sign + digits(a / pow10(places)) + seq!['.'] + fixed_digits(a % pow10(places), places)
    }
}

/// The `w` fractional digits of `f`, without trailing zeros.
pub open spec fn trimmed_fraction(f: nat, w: nat) -> Seq<char>
    decreases w,
{
    if w > 0 && f % 10 == 0 {
        trimmed_fraction(f / 10, (w - 1) as nat)
    } else {
        fixed_digits(f, w)
    }
}

/// Shortest text of `units / 10^places`: no trailing fractional zeros,
/// no decimal point for a whole number.
pub open spec fn trimmed_text(units: int, places: nat) -> Seq<char> {
    let a: nat = if units < 0 { (-units) as nat } else { units as nat };
    let sign: Seq<char> = if units < 0 { seq!['-'] } else { Seq::empty() };
    let f = a % pow10(places);
    if f == 0 {
        sign + digits(a / pow10(places))
    } else {
        sign + digits(a / pow10(places)) + seq!['.'] + trimmed_fraction(f, places)
    }
}

/// `10^n` for the small exponents that fixed-point values use.
pub fn pow10_exec(n: u32) -> (r: u64)
    requires
        n <= 7,
    ensures
        r == pow10(n as nat),
        1 <= r <= 10_000_000,
{
    reveal_with_fuel(pow10, 8);
    if n == 0 { 1 }
    else if n == 1 { 10 }
    else if n == 2 { 100 }
    else if n == 3 { 1_000 }
    else if n == 4 { 10_000 }
    else if n == 5 { 100_000 }
    else if n == 6 { 1_000_000 }
    else { 10_000_000 }
}

/// Appends the last `w` digits of `n`, zero-padded.
pub fn push_fixed_digits(s: &mut String, n: u64, w: u32)
    ensures
        final(s)@ == old(s)@ + fixed_digits(n as nat, w as nat),
    decreases w,
{
    if w > 0 {
        push_fixed_digits(s, n / 10, w - 1);
        push_char(s, digit_of(n % 10));
    }
    assert(s@ =~= old(s)@ + fixed_digits(n as nat, w as nat));
}

/// Appends the fractional digits of `f` without trailing zeros.
fn push_trimmed_fraction(s: &mut String, f: u64, w: u32)
    ensures
        final(s)@ == old(s)@ + trimmed_fraction(f as nat, w as nat),
    decreases w,
{
    if w > 0 && f % 10 == 0 {
        push_trimmed_fraction(s, f / 10, w - 1);
    } else {
        push_fixed_digits(s, f, w);
    }
}

/// Appends the decimal text of a signed integer.
pub fn push_int(s: &mut String, v: i64)
    ensures
        final(s)@ == old(s)@ + int_text(v as int),
{
    if v < 0 {
        push_char(s, '-');
        let a: u64 = (0 - (v as i128)) as u64;
        push_digits(s, a);
    } else {
        push_digits(s, v as u64);
    }
    assert(s@ =~= old(s)@ + int_text(v as int));
}

fn magnitude(v: i64) -> (a: u64)
    ensures
        a as int == if v < 0 { -(v as int) } else { v as int },
{
    if v < 0 {
        (0 - (v as i128)) as u64
    } else {
        v as u64
    }
}

/// Appends `units / 10^places` with exactly `places` fractional digits.
pub fn push_fixed(s: &mut String, units: i64, places: u32)
    requires
        places <= 7,
    ensures
        final(s)@ == old(s)@ + fixed_text(units as int, places as nat),
{
    let a = magnitude(units);
    if units < 0 {
        push_char(s, '-');
    }
    if places == 0 {
        push_digits(s, a);
    } else {
        let p = pow10_exec(places);
        push_digits(s, a / p);
        push_char(s, '.');
        push_fixed_digits(s, a % p, places);
    }
    assert(s@ =~= old(s)@ + fixed_text(units as int, places as nat));
}

/// Appends the shortest text of `units / 10^places`.
pub fn push_trimmed(s: &mut String, units: i64, places: u32)
    requires
        places <= 7,
    ensures
        final(s)@ == old(s)@ + trimmed_text(units as int, places as nat),
{
    let a = magnitude(units);
    if units < 0 {
        push_char(s, '-');
    }
    let p = pow10_exec(places);
    push_digits(s, a / p);
    if a % p != 0 {
        push_char(s, '.');
        push_trimmed_fraction(s, a % p, places);
    }
    assert(s@ =~= old(s)@ + trimmed_text(units as int, places as nat));
}

/// A character with the Unicode White_Space property.
pub open spec fn is_white_space(c: char) -> bool {
    ('\u{9}' <= c <= '\u{D}') || c == ' ' || c == '\u{85}' || c == '\u{A0}' || c == '\u{1680}'
        || ('\u{2000}' <= c <= '\u{200A}') || c == '\u{2028}' || c == '\u{2029}' || c
        == '\u{202F}' || c == '\u{205F}' || c == '\u{3000}'
}

/// The text without its leading white space.
pub open spec fn trim_start(s: Seq<char>) -> Seq<char>
    decreases s.len(),
{
    if s.len() > 0 && is_white_space(s[0]) {
        trim_start(s.drop_first())
    } else {
        s
    }
}

/// The text without its trailing white space.
pub open spec fn trim_end(s: Seq<char>) -> Seq<char>
    decreases s.len(),
{
    if s.len() > 0 && is_white_space(s.last()) {
        trim_end(s.drop_last())
    } else {
        s
    }
}

/// The text without leading and trailing white space.
pub open spec fn trimmed_of(s: Seq<char>) -> Seq<char> {
    trim_end(trim_start(s))
}

/// Relies on `str::trim`, which removes leading and trailing characters
/// with the Unicode White_Space property.
#[verifier::external_body]
pub(crate) fn trim_text(s: &str) -> (r: String)
    ensures
        r@ == trimmed_of(s@),
{
    s.trim().to_string()
}

}
