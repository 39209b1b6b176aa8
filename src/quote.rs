//! The exchange-rate cache and the conversion of prices to satoshis.
//!
//! The cache holds the last BTC price fetched from the market, in cents, and
//! when it was fetched. Fetching is the caller's part: it asks
//! `needs_refresh`, fetches when told to, and hands the price to
//! `record_price`.

use vstd::prelude::*;

verus! {

/// Why a conversion failed.
#[derive(Debug)]
pub enum ConversionError {
    NetworkError(String),
    ApiError(String),
    ParseError(String),
    /// The converted amount does not fit in 64 bits.
    AmountTooLarge,
}

/// Seconds for which a fetched price is used before it is fetched again.
pub const REFRESH_INTERVAL_SECONDS: i64 = 600;

/// Satoshis in one bitcoin.
pub const SATS_PER_BTC: u64 = 100_000_000;

/// Satoshis for `amount_cents` at a price of `price_cents` per bitcoin,
/// rounded up so that a buyer is never undercharged.
pub open spec fn sats_for(amount_cents: nat, price_cents: nat) -> nat
    recommends
        price_cents > 0,
{
    ((amount_cents * SATS_PER_BTC + price_cents - 1) / (price_cents as int)) as nat
}

/// The last fetched price and when it was fetched (`None`: never).
#[derive(Debug)]
pub struct QuoteCache {
    pub last_refresh: Option<i64>,
    pub price_cents: u64,
}

impl QuoteCache {
    /// A fetched price is positive.
    pub open spec fn wf(&self) -> bool {
        self.last_refresh is Some ==> self.price_cents > 0
    }

    /// Whether the cached price can be used at `now` without fetching.
    pub open spec fn fresh_at(&self, now: i64) -> bool {
        self.last_refresh matches Some(t) && now - t < REFRESH_INTERVAL_SECONDS
    }

    /// The cache after recording `price_cents` fetched at `now`.
    pub open spec fn recorded(&self, price_cents: u64, now: i64) -> QuoteCache {
        QuoteCache { last_refresh: Some(now), price_cents }
    }

    /// An empty cache: the first conversion fetches.
    pub fn new() -> (r: QuoteCache)
        ensures
            r.wf(),
            r.last_refresh is None,
    {
        QuoteCache { last_refresh: None, price_cents: 0 }
    }

    /// Whether the price must be fetched before converting at `now`.
    pub fn needs_refresh(&self, now: i64) -> (r: bool)
        ensures
            r == !self.fresh_at(now),
    {
        match self.last_refresh {
            Some(t) => now as i128 - t as i128 >= REFRESH_INTERVAL_SECONDS as i128,
            None => true,
        }
    }

    /// Records a price fetched at `now`.
    pub fn record_price(&mut self, price_cents: u64, now: i64)
        requires
            price_cents > 0,
        ensures
            final(self).wf(),
            *final(self) == old(self).recorded(price_cents, now),
    {
        self.last_refresh = Some(now);
        self.price_cents = price_cents;
    }

    /// Converts `amount_cents` to satoshis at the cached price, rounding up.
    /// Fails when no price has been fetched yet, or when the result does not
    /// fit in 64 bits.
    pub fn convert_usd_to_sats(&self, amount_cents: u64) -> (r: Result<u64, ConversionError>)
        requires
            self.wf(),
        ensures
            match r {
                Ok(sats) => self.last_refresh is Some
                    && sats as nat == sats_for(amount_cents as nat, self.price_cents as nat),
                Err(e) => (self.last_refresh is None && e is ApiError)
                    || (self.last_refresh is Some && e is AmountTooLarge
                        && sats_for(amount_cents as nat, self.price_cents as nat) > u64::MAX),
            },
    {
        if self.last_refresh.is_none() {
            return Err(ConversionError::ApiError(String::from_str("no exchange rate available")));
        }
        convert_at_price(amount_cents, self.price_cents)
    }
}

/// Converts `amount_cents` to satoshis at `price_cents` per bitcoin,
/// rounding up.
pub fn convert_at_price(amount_cents: u64, price_cents: u64) -> (r: Result<u64, ConversionError>)
    requires
        price_cents > 0,
    ensures
        match r {
            Ok(sats) => sats as nat == sats_for(amount_cents as nat, price_cents as nat),
            Err(e) => e is AmountTooLarge && sats_for(amount_cents as nat, price_cents as nat) > u64::MAX,
        },
{
    let a: u128 = amount_cents as u128;
    let p: u128 = price_cents as u128;
    assert(a * (SATS_PER_BTC as u128) <= u64::MAX as u128 * 100_000_000u128) by (nonlinear_arith)
        requires a <= u64::MAX as u128;
    let num: u128 = a * (SATS_PER_BTC as u128) + p - 1;
    let sats: u128 = num / p;
    if sats > u64::MAX as u128 {
        Err(ConversionError::AmountTooLarge)
    } else {
        Ok(sats as u64)
    }
}

/// Whether `c` is an ASCII decimal digit.
pub open spec fn is_digit(c: char) -> bool {
    '0' <= c <= '9'
}

/// The value of the decimal digit `c`.
pub open spec fn digit_value(c: char) -> nat {
    (c as int - '0' as int) as nat
}

/// The value of a string of decimal digits.
pub open spec fn digits_value(s: Seq<char>) -> nat
    decreases s.len(),
{
    if s.len() == 0 {
        0
    } else {
        digits_value(s.drop_last()) * 10 + digit_value(s.last())
    }
}

/// How many decimal digits `s` starts with.
pub open spec fn leading_digits(s: Seq<char>) -> nat
    decreases s.len(),
{
    if s.len() > 0 && is_digit(s[0]) {
        1 + leading_digits(s.subrange(1, s.len() as int))
    } else {
        0
    }
}

/// Whole cents in the first two digits of a fraction, padded with zeros;
/// further digits are dropped.
pub open spec fn fraction_cents(f: Seq<char>) -> nat {
    if f.len() == 0 {
        0
    } else if f.len() == 1 {
        digit_value(f[0]) * 10
    } else {
        digit_value(f[0]) * 10 + digit_value(f[1])
    }
}

/// The price, in whole cents, that a decimal text such as "67123.40000"
/// states: digits, then optionally a period and more digits. Digits past the
/// cents are dropped, which rounds the price down and never undercharges.
pub open spec fn price_text_cents(t: Seq<char>) -> Option<nat> {
    let w = leading_digits(t) as int;
    let whole = digits_value(t.subrange(0, w)) * 100;
    let frac = t.subrange(w + 1, t.len() as int);
    if w == 0 {
        None
    } else if w == t.len() {
        Some(whole)
    } else if t[w] == '.' && forall|i: int| 0 <= i < frac.len() ==> is_digit(#[trigger] frac[i]) {
        Some(whole + fraction_cents(frac))
    } else {
        None
    }
}

proof fn lemma_leading_digits(s: Seq<char>, i: int)
    requires
        0 <= i <= s.len(),
        forall|j: int| 0 <= j < i ==> is_digit(#[trigger] s[j]),
        i == s.len() || !is_digit(s[i]),
    ensures
        leading_digits(s) == i,
    decreases i,
{
    if i > 0 {
        let t = s.subrange(1, s.len() as int);
        assert forall|j: int| 0 <= j < i - 1 implies is_digit(#[trigger] t[j]) by {
            assert(t[j] == s[j + 1]);
        }
        if i - 1 < t.len() {
            assert(t[i - 1] == s[i]);
        }
        lemma_leading_digits(t, i - 1);
    }
}

proof fn lemma_digits_value_grows(s: Seq<char>, i: int)
    requires
        0 <= i <= s.len(),
    ensures
        digits_value(s.subrange(0, i)) <= digits_value(s),
    decreases s.len() - i,
{
    if i < s.len() {
        let a = s.subrange(0, i);
        let b = s.subrange(0, i + 1);
        assert(b.drop_last() =~= a);
        lemma_digits_value_grows(s, i + 1);
    }
    assert(s.subrange(0, s.len() as int) =~= s);
}

/// Reads a market price such as "67123.40000" as whole cents (see
/// `price_text_cents`). Fails on other text, on a zero price, and on a price
/// that does not fit in 64 bits.
pub fn parse_price_cents(text: &str) -> (r: Result<u64, ConversionError>)
    ensures
        match r {
            Ok(p) => price_text_cents(text@) == Some(p as nat) && p > 0,
            Err(e) => e is ParseError && !(price_text_cents(text@) matches Some(p) && 0 < p <= u64::MAX),
        },
{
    let n = text.unicode_len();
    let ghost t = text@;
    let mut whole: u64 = 0;
    let mut i: usize = 0;
    while i < n && '0' <= text.get_char(i) && text.get_char(i) <= '9'
        invariant
            n == t.len(),
            t == text@,
            i <= n,
            forall|j: int| 0 <= j < i ==> is_digit(#[trigger] t[j]),
            whole as nat == digits_value(t.subrange(0, i as int)),
            whole as nat * 100 <= u64::MAX,
        decreases n - i,
    {
        let d = (text.get_char(i) as u32 - '0' as u32) as u64;
        assert(t.subrange(0, i + 1).drop_last() =~= t.subrange(0, i as int));
        if whole > (u64::MAX / 100 - d) / 10 {
            proof {
                assert(digits_value(t.subrange(0, i + 1)) * 100 > u64::MAX);
                lemma_leading_digits_at_least(t, i as int + 1);
                lemma_digits_value_grows(t.subrange(0, leading_digits(t) as int), i as int + 1);
                assert(t.subrange(0, leading_digits(t) as int).subrange(0, i as int + 1) =~= t.subrange(0, i as int + 1));
            }
            return Err(ConversionError::ParseError(String::from_str("price out of range")));
        }
        whole = whole * 10 + d;
        i = i + 1;
    }
    proof {
        lemma_leading_digits(t, i as int);
    }
    if i == 0 {
        return Err(ConversionError::ParseError(String::from_str("price has no digits")));
    }
    let mut cents: u64 = 0;
    if i < n {
        if text.get_char(i) != '.' {
            return Err(ConversionError::ParseError(String::from_str("malformed price")));
        }
        let ghost frac = t.subrange(i + 1, n as int);
        let mut k: usize = i + 1;
        while k < n
            invariant
                n == t.len(),
                t == text@,
                i < k <= n,
                leading_digits(t) == i,
                t[i as int] == '.',
                whole as nat == digits_value(t.subrange(0, i as int)),
                whole as nat * 100 <= u64::MAX,
                frac == t.subrange(i + 1, n as int),
                forall|j: int| 0 <= j < k - i - 1 ==> is_digit(#[trigger] frac[j]),
                cents as nat == (if k - i - 1 == 0 { 0 } else if k - i - 1 == 1 { digit_value(frac[0]) * 10 }
                    else { digit_value(frac[0]) * 10 + digit_value(frac[1]) }),
            decreases n - k,
        {
            let c = text.get_char(k);
            assert(frac[k - i - 1] == c);
            if !('0' <= c && c <= '9') {
                assert(!is_digit(frac[k - i - 1]));
                assert(leading_digits(t) == i);
                return Err(ConversionError::ParseError(String::from_str("malformed price")));
            }
            let d = (c as u32 - '0' as u32) as u64;
            if k == i + 1 {
                cents = d * 10;
            } else if k == i + 2 {
                cents = cents + d;
            }
            k = k + 1;
        }
    }
    let total: u128 = whole as u128 * 100 + cents as u128;
    if total > u64::MAX as u128 {
        return Err(ConversionError::ParseError(String::from_str("price out of range")));
    }
    if total == 0 {
        return Err(ConversionError::ParseError(String::from_str("price is zero")));
    }
    Ok(total as u64)
}

proof fn lemma_leading_digits_at_least(s: Seq<char>, i: int)
    requires
        0 <= i <= s.len(),
        forall|j: int| 0 <= j < i ==> is_digit(#[trigger] s[j]),
    ensures
        i <= leading_digits(s) <= s.len(),
        forall|j: int| 0 <= j < leading_digits(s) ==> is_digit(#[trigger] s[j]),
    decreases s.len(),
{
    if s.len() > 0 && is_digit(s[0]) {
        let t = s.subrange(1, s.len() as int);
        let k = if i > 0 { i - 1 } else { 0 };
        assert forall|j: int| 0 <= j < k implies is_digit(#[trigger] t[j]) by {
            assert(t[j] == s[j + 1]);
        }
        lemma_leading_digits_at_least(t, k);
        assert forall|j: int| 0 <= j < leading_digits(s) implies is_digit(#[trigger] s[j]) by {
            if j > 0 {
                assert(s[j] == t[j - 1]);
            }
        }
    } else {
        if i > 0 {
            assert(is_digit(s[0]));
        }
    }
}

/// Once a price is recorded at `t0`, two conversions at instants `t1` and
/// `t2` inside the refresh interval both use that price, and neither calls
/// for another fetch.
pub proof fn law_cached_price_reused(c: QuoteCache, price_cents: u64, t0: i64, t1: i64, t2: i64)
    requires
        price_cents > 0,
        t0 <= t1 < t0 + REFRESH_INTERVAL_SECONDS,
        t0 <= t2 < t0 + REFRESH_INTERVAL_SECONDS,
    ensures
        c.recorded(price_cents, t0).wf(),
        c.recorded(price_cents, t0).fresh_at(t1),
        c.recorded(price_cents, t0).fresh_at(t2),
        c.recorded(price_cents, t0).price_cents == price_cents,
{
}

} // verus!
