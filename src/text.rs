//! Decimal renderings of numbers.

use vstd::prelude::*;

verus! {

/// The decimal digit for `d < 10`.
pub open spec fn digit_char(d: nat) -> char {
    if d == 0 { '0' } else if d == 1 { '1' } else if d == 2 { '2' } else if d == 3 { '3' }
    else if d == 4 { '4' } else if d == 5 { '5' } else if d == 6 { '6' } else if d == 7 { '7' }
    else if d == 8 { '8' } else { '9' }
}

/// `n` in decimal, without leading zeros.
pub open spec fn decimal_digits(n: nat) -> Seq<char>
    decreases n,
{
    if n < 10 {
        seq![digit_char(n)]
    } else {
        decimal_digits(n / 10).push(digit_char(n % 10))
    }
}

/// `cents` as a decimal amount with exactly two fraction digits.
pub open spec fn amount_text(cents: nat) -> Seq<char> {
    decimal_digits(cents / 100) + seq!['.'] + (if cents % 100 < 10 { seq!['0'] } else { Seq::empty() })
        + decimal_digits(cents % 100)
}

/// Relies on `u64`'s `ToString` (its `Display`): the decimal digits of `n`.
#[verifier::external_body]
pub(crate) fn decimal(n: u64) -> (r: String)
    ensures
        r@ == decimal_digits(n as nat),
{
    n.to_string()
}

/// Renders whole cents as an amount with two fraction digits ("12.05").
pub fn format_amount(cents: u64) -> (r: String)
    ensures
        r@ == amount_text(cents as nat),
{
    let mut s = decimal(cents / 100);
    s.append(".");
    if cents % 100 < 10 {
        s.append("0");
    }
    let frac = decimal(cents % 100);
    s.append(frac.as_str());
    proof {
        reveal_strlit(".");
        reveal_strlit("0");
    }
    assert(s@ =~= amount_text(cents as nat));
    s
}

} // verus!
