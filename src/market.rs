//! Checks on market-data requests.

use vstd::prelude::*;
use vstd::utf8::encode_utf8;

verus! {

/// Whether `c` is alphabetic or numeric in the Unicode sense.
pub uninterp spec fn alphanumeric(c: char) -> bool;

/// Relies on `char::is_alphanumeric`: Unicode's Alphabetic property or
/// Numeric category.
#[verifier::external_body]
fn is_alphanumeric(c: char) -> (r: bool)
    ensures
        r == alphanumeric(c),
{
    c.is_alphanumeric()
}

/// Whether `symbol` has the shape of a ticker: one to ten bytes, each
/// character alphanumeric or a period (as in "BRK.A").
pub open spec fn ticker_shape(symbol: Seq<char>) -> bool {
    &&& 0 < encode_utf8(symbol).len() <= 10
    &&& forall|i: int| 0 <= i < symbol.len() ==> alphanumeric(#[trigger] symbol[i]) || symbol[i] == '.'
}

/// Whether `symbol` has the shape of a ticker (see `ticker_shape`).
pub fn is_valid_ticker(symbol: &str) -> (r: bool)
    ensures
        r == ticker_shape(symbol@),
{
    let len = symbol.as_bytes().len();
    if len == 0 || len > 10 {
        return false;
    }
    let n = symbol.unicode_len();
    let mut i: usize = 0;
    while i < n
        invariant
            n == symbol@.len(),
            i <= n,
            0 < len <= 10,
            len == encode_utf8(symbol@).len(),
            forall|j: int| 0 <= j < i ==> alphanumeric(#[trigger] symbol@[j]) || symbol@[j] == '.',
        decreases n - i,
    {
        let c = symbol.get_char(i);
        if !(is_alphanumeric(c) || c == '.') {
            return false;
        }
        i = i + 1;
    }
    true
}

} // verus!
