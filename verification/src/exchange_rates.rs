//! The reply to a request for an exchange rate. Fetching and caching rates
//! is the backend's business; this module says what a backend hands back
//! and how it is written into the reply.

use crate::json::{
    json_member, json_quoted, json_str, json_text, object_text, object_value, string_value,
};
use crate::text::{
    decimal, fixed_digits, lemma_decimal_len, lemma_fixed_digits_len, push_decimal, push_fixed,
};
use crate::wire::JsonError;
use serde_json::Value;
use vstd::prelude::*;
use vstd::string::*;

verus! {

/// How many units make one whole: a rate is counted in hundred-millionths.
pub const RATE_UNIT: u64 = 100_000_000;

/// What a backend knows of the rate of one currency.
#[derive(Debug, Clone, PartialEq, Eq)]
pub struct RateQuote {
    /// The currency, as it is named in the reply.
    pub currency: String,
    /// The rate in hundred-millionths, or `None` where no rate is known.
    pub rate: Option<u64>,
}

/// What can be asked for the exchange rate that it has cached or can
/// fetch. The parameters are the request as it came in; a failure is
/// reported to the caller as it is.
pub trait ExchangeRatesCacher {
    fn fetch_cached(&mut self, params: Value) -> Result<RateQuote, JsonError>;
}

/// A rate written with eight decimal places.
pub open spec fn rate_text(units: nat) -> Seq<char> {
    decimal(units / (RATE_UNIT as nat)) + "."@ + fixed_digits(units % (RATE_UNIT as nat), 8)
}

/// What the reply holds for a rate: the rate with eight decimal places, or
/// the empty text where none is known.
pub open spec fn quoted_rate_text(rate: Option<u64>) -> Seq<char> {
    match rate {
        Some(units) => rate_text(units as nat),
        None => Seq::<char>::empty(),
    }
}

/// A rate written with eight decimal places.
pub fn format_rate(units: u64) -> (r: String)
    ensures
        r@ == rate_text(units as nat),
{
    let mut out = String::new();
    push_decimal(&mut out, units / RATE_UNIT);
    out.append(".");
    push_fixed(&mut out, units % RATE_UNIT, 8);
    assert(out@ == rate_text(units as nat));
    out
}

/// The reply to a request for an exchange rate: an object with the member
/// "currencies", which is an object with the currency as its one key and
/// the rate, as a string, under it. An unknown rate is the empty string,
/// not a failure.
pub fn exchange_rates_reply(quote: &RateQuote) -> (r: Value)
    ensures
        json_text(r) == object_text(
            "currencies"@,
            object_text(quote.currency@, json_quoted(quoted_rate_text(quote.rate))),
        ),
        json_member(r, "currencies"@) matches Some(inner) && (json_member(inner, quote.currency@)
            matches Some(rate) && json_str(rate) == Some(quoted_rate_text(quote.rate))),
{
    let rate = match quote.rate {
        Some(units) => format_rate(units),
        None => String::new(),
    };
    let inner = object_value(quote.currency.as_str(), string_value(rate.as_str()));
    object_value("currencies", inner)
}

/// A rate is written with exactly eight places after the point, and at
/// least one digit before it.
pub proof fn lemma_rate_has_eight_decimals(units: nat)
    ensures
        rate_text(units).len() >= 10,
        rate_text(units)[rate_text(units).len() - 9] == '.',
{
    reveal_strlit(".");
    lemma_decimal_len(units / (RATE_UNIT as nat));
    lemma_fixed_digits_len(units % (RATE_UNIT as nat), 8);
}

} // verus!
