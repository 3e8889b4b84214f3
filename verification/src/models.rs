//! The data carried through the conversion core. Amounts are carried as
//! decimal text, exactly as they travel in request paths and response
//! bodies; the core never computes on them, it only routes them.

use vstd::prelude::*;

verus! {

/// A conversion request: two country names and the amount, immutable once
/// received.
#[derive(Debug, PartialEq)]
pub struct ConvertCurrency {
    pub from: String,
    pub to: String,
    pub amount: String,
}

/// A successful conversion: the original input names echoed verbatim and
/// the converted amount.
#[derive(Debug, PartialEq)]
pub struct ConvertResult {
    pub from: String,
    pub to: String,
    pub amount: String,
}

/// The name part of a country record.
#[derive(Debug, PartialEq)]
pub struct Name {
    pub common: String,
}

/// One currency of a country record.
#[derive(Debug, PartialEq)]
pub struct Currency {
    pub name: String,
    pub symbol: String,
}

/// One record from the country-lookup service. `currencies` holds the
/// upstream currency mapping as (code, currency) pairs in the order
/// received; only the first code is consumed.
#[derive(Debug, PartialEq)]
pub struct Country {
    pub name: Name,
    pub currencies: Vec<(String, Currency)>,
}

/// The decoded body of an exchange-rate response; only
/// `conversion_result` is consumed.
#[derive(Debug, PartialEq)]
pub struct ExchangeResult {
    pub base_code: String,
    pub target_code: String,
    pub conversion_rate: String,
    pub conversion_result: String,
}

} // verus!
