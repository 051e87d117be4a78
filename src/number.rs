//! Decimal text of integers and of fixed-point numbers with nine decimal places.
use vstd::prelude::*;
use vstd::string::*;

verus! {

/// Number of fixed-point units in one whole unit: values carry nine decimal places.
pub const UNITS: i128 = 1_000_000_000;

/// The decimal digit character for `d`.
pub open spec fn digit_char(d: nat) -> char {
    (48 + d) as char
}

/// The decimal digits of `n`, most significant first, without leading zeros.
pub open spec fn digits(n: nat) -> Seq<char>
    decreases n,
{
    if n < 10 {
        seq![digit_char(n)]
    } else {
        digits(n / 10).push(digit_char(n % 10))
    }
}

/// Exactly `w` decimal digits of `f`, zero-padded on the left.
pub open spec fn padded_digits(f: nat, w: nat) -> Seq<char>
    decreases w,
{
    if w == 0 {
        Seq::empty()
    } else {
        padded_digits(f / 10, (w - 1) as nat).push(digit_char(f % 10))
    }
}

/// The `w`-digit fraction `f`, with trailing zero digits dropped.
pub open spec fn fraction_digits(f: nat, w: nat) -> Seq<char>
    decreases w,
{
    if w > 0 && f % 10 == 0 {
        fraction_digits(f / 10, (w - 1) as nat)
    } else {
        padded_digits(f, w)
    }
}

/// The sign of `v`: a minus for a negative value, nothing otherwise.
pub open spec fn sign_text(v: int) -> Seq<char> {
    if v < 0 {
        seq!['-']
    } else {
        Seq::empty()
    }
}

/// The magnitude of `v`.
pub open spec fn abs(v: int) -> nat {
    if v < 0 {
        (-v) as nat
    } else {
        v as nat
    }
}

/// Decimal text of an integer.
pub open spec fn int_text(v: int) -> Seq<char> {
    sign_text(v) + digits(abs(v))
}

/// Decimal text of the fixed-point value `v` (in units of one billionth):
/// the whole part, then a point and the fraction only where the fraction is not
/// zero, without trailing zeros.
pub open spec fn fixed_text(v: int) -> Seq<char> {
    let whole = abs(v) / (UNITS as nat);
    let frac = abs(v) % (UNITS as nat);
    sign_text(v) + digits(whole) + if frac == 0 {
        Seq::<char>::empty()
    } else {
        seq!['.'] + fraction_digits(frac, 9)
    }
}

/// Relies on String::push: the character is appended at the end.
#[verifier::external_body]
pub(crate) fn push_char(s: &mut String, c: char)
    ensures
        final(s)@ == old(s)@.push(c),
{
    s.push(c)
}

/// Appends `t`.
pub(crate) fn push_str(s: &mut String, t: &str)
    ensures
        final(s)@ == old(s)@ + t@,
{
    s.append(t);
}

fn digit(d: u128) -> (c: char)
    requires
        d < 10,
    ensures
        c == digit_char(d as nat),
{
    let b: u8 = 48u8 + d as u8;
    b as char
}

/// Appends the decimal digits of `n`.
pub fn push_digits(s: &mut String, n: u128)
    ensures
        final(s)@ == old(s)@ + digits(n as nat),
    decreases n,
{
    if n >= 10 {
        push_digits(s, n / 10);
    }
    push_char(s, digit(n % 10));
    proof {
        assert(old(s)@ + digits(n as nat) =~= s@);
    }
}

/// Appends exactly `w` digits of `f`, zero-padded on the left.
fn push_padded(s: &mut String, f: u128, w: u128)
    ensures
        final(s)@ == old(s)@ + padded_digits(f as nat, w as nat),
    decreases w,
{
    if w > 0 {
        push_padded(s, f / 10, w - 1);
        push_char(s, digit(f % 10));
    }
    proof {
        assert(old(s)@ + padded_digits(f as nat, w as nat) =~= s@);
    }
}

/// Appends the `w`-digit fraction `f` without its trailing zeros.
fn push_fraction(s: &mut String, f: u128, w: u128)
    ensures
        final(s)@ == old(s)@ + fraction_digits(f as nat, w as nat),
    decreases w,
{
    if w > 0 && f % 10 == 0 {
        push_fraction(s, f / 10, w - 1);
    } else {
        push_padded(s, f, w);
    }
}

fn magnitude(v: i128) -> (r: u128)
    ensures
        r as int == abs(v as int),
{
    if v < 0 {
        (-(v + 1)) as u128 + 1
    } else {
        v as u128
    }
}

fn push_sign(s: &mut String, v: i128)
    ensures
        final(s)@ == old(s)@ + sign_text(v as int),
{
    if v < 0 {
        push_char(s, '-');
    }
    proof {
        assert(old(s)@ + sign_text(v as int) =~= s@);
    }
}

/// Appends the decimal text of the integer `v`.
pub fn push_int(s: &mut String, v: i128)
    ensures
        final(s)@ == old(s)@ + int_text(v as int),
{
    push_sign(s, v);
    push_digits(s, magnitude(v));
    proof {
        assert(old(s)@ + int_text(v as int) =~= s@);
    }
}

/// Appends the decimal text of the fixed-point value `v`.
pub fn push_fixed(s: &mut String, v: i128)
    ensures
        final(s)@ == old(s)@ + fixed_text(v as int),
{
    let ghost s0 = s@;
    let m = magnitude(v);
    let whole = m / (UNITS as u128);
    let frac = m % (UNITS as u128);
    push_sign(s, v);
    push_digits(s, whole);
    if frac != 0 {
        push_char(s, '.');
        push_fraction(s, frac, 9);
    }
    proof {
        assert(s0 + fixed_text(v as int) =~= s@);
    }
}

} // verus!
