//! Canonical textual forms of the scalar values: decimal digits for the
//! integers, `true` / `false` for the booleans, the character itself for a
//! `char`.

use vstd::prelude::*;
use vstd::string::StrSliceExecFns;
use vstd::string::StringExecFns;

verus! {

/// The decimal digit character for a value below ten.
pub open spec fn dec_digit(d: nat) -> char
    recommends
        d < 10,
{
    if d == 0 { '0' } else if d == 1 { '1' } else if d == 2 { '2' } else if d == 3 { '3' }
    else if d == 4 { '4' } else if d == 5 { '5' } else if d == 6 { '6' } else if d == 7 { '7' }
    else if d == 8 { '8' } else { '9' }
}

/// The decimal rendering of a natural number, most significant digit first,
/// without leading zeros (zero itself renders as `0`).
pub open spec fn dec_rep(n: nat) -> Seq<char>
    decreases n,
{
    if n < 10 {
        seq![dec_digit(n)]
    } else {
        dec_rep(n / 10) + seq![dec_digit(n % 10)]
    }
}

/// The decimal rendering of an integer: a `-` sign before the digits when it
/// is negative.
pub open spec fn int_rep(n: int) -> Seq<char> {
    if n >= 0 {
        dec_rep(n as nat)
    } else {
        seq!['-'] + dec_rep((-n) as nat)
    }
}

/// The canonical textual form of a boolean.
pub open spec fn bool_rep(b: bool) -> Seq<char> {
    if b {
        "true"@
    } else {
        "false"@
    }
}

/// Appends the decimal rendering of `n` to `out`.
pub fn push_dec(out: &mut String, n: u64)
    ensures
        final(out)@ == old(out)@ + dec_rep(n as nat),
    decreases n,
{
    proof {
        reveal_strlit("0123456789");
    }
    let digits = "0123456789";
    if n >= 10 {
        push_dec(out, n / 10);
    }
    let d = (n % 10) as usize;
    let digit = digits.substring_ascii(d, d + 1);
    assert(digit@ =~= seq![dec_digit((n % 10) as nat)]);
    out.append(digit);
    proof {
        assert(final(out)@ =~= old(out)@ + dec_rep(n as nat));
    }
}

/// Appends the decimal rendering of a signed integer to `out`, with a `-`
/// sign when it is negative.
pub fn push_int(out: &mut String, n: i64)
    ensures
        final(out)@ == old(out)@ + int_rep(n as int),
{
    if n >= 0 {
        push_dec(out, n as u64);
    } else {
        proof {
            reveal_strlit("-");
        }
        out.append("-");
        let magnitude: u64 = (-(n as i128)) as u64;
        assert(magnitude == -(n as int));
        push_dec(out, magnitude);
        assert(final(out)@ =~= old(out)@ + int_rep(n as int));
    }
}

/// Appends the canonical textual form of a boolean to `out`.
pub fn push_bool(out: &mut String, b: bool)
    ensures
        final(out)@ == old(out)@ + bool_rep(b),
{
    if b {
        out.append("true");
    } else {
        out.append("false");
    }
}

/// Relies on `String::push`: it appends the given character to the end of
/// the string.
#[verifier::external_body]
pub fn push_char(out: &mut String, c: char)
    ensures
        final(out)@ == old(out)@ + seq![c],
{
    out.push(c);
}

} // verus!
