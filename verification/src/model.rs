//! Mathematical model of the two capability sets.
//!
//! A [`CompanyModel`] is the ghost value of one listed security: its identity
//! fields as character sequences, with the two optional identifiers as
//! `Option`s. A [`MarketModel`] is the ghost value of one exchange: its
//! descriptive fields plus the ordered sequence of company models it owns.
//! Every contract of the [`crate::company::Company`] and
//! [`crate::market::Market`] traits is stated over these models.

use vstd::prelude::*;

verus! {

/// Ghost value of one listed security.
pub struct CompanyModel {
    /// Short display name; not required to be unique within a market.
    pub name: Seq<char>,
    /// Optional legal name; `None` when not meaningfully different from `name`.
    pub full_name: Option<Seq<char>>,
    /// International Securities Identification Number; format not validated.
    pub isin: Seq<char>,
    /// Exchange ticker symbol; unique within the owning market.
    pub ticker: Seq<char>,
    /// Optional jurisdiction-specific secondary identifier.
    pub extra_id: Option<Seq<char>>,
}

/// Ghost value of one stock exchange or index.
pub struct MarketModel {
    /// Display name of the market.
    pub market_name: Seq<char>,
    /// Opening time of day in UTC, as an opaque string.
    pub open_time: Seq<char>,
    /// Closing time of day in UTC, as an opaque string.
    pub close_time: Seq<char>,
    /// ISO 4217 currency code, as an opaque string.
    pub currency: Seq<char>,
    /// The companies listed in the market, in the market's own order.
    pub companies: Seq<CompanyModel>,
}

/// The pattern occurs in `hay` starting at position `i`.
pub open spec fn matches_at(hay: Seq<char>, pat: Seq<char>, i: int) -> bool {
    0 <= i && i + pat.len() <= hay.len() && hay.subrange(i, i + pat.len()) == pat
}

/// The pattern occurs somewhere in `hay` as a contiguous, case-sensitive
/// substring. This is the documented matching semantics of
/// `Market::stock_by_name`.
pub open spec fn has_substring(hay: Seq<char>, pat: Seq<char>) -> bool {
    exists|i: int| matches_at(hay, pat, i)
}

/// The company's display name matches the search pattern.
pub open spec fn name_matches(c: CompanyModel, pat: Seq<char>) -> bool {
    has_substring(c.name, pat)
}

/// The companies of `s` whose display names match `pat`, in their original
/// order: exactly what `Market::stock_by_name` must return when non-empty.
pub open spec fn matching_companies(s: Seq<CompanyModel>, pat: Seq<char>) -> Seq<CompanyModel> {
    s.filter(|c: CompanyModel| name_matches(c, pat))
}

/// Ticker symbols are pairwise distinct: the invariant of the data model that
/// makes `Market::stock_by_ticker` well-defined.
pub open spec fn tickers_unique(s: Seq<CompanyModel>) -> bool {
    forall|i: int, j: int|
        0 <= i < s.len() && 0 <= j < s.len() && #[trigger] s[i].ticker == #[trigger] s[j].ticker
            ==> i == j
}

/// The ticker symbols of `s`, in the same order as the companies.
pub open spec fn ticker_seq(s: Seq<CompanyModel>) -> Seq<Seq<char>> {
    s.map_values(|c: CompanyModel| c.ticker)
}

} // verus!
