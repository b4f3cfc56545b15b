//! The Market capability set: read-only discovery and lookup over the
//! companies one exchange or index contains.

use vstd::prelude::*;

use crate::company::Company;
use crate::model::{matching_companies, MarketModel};

verus! {

/// A stock market description.
///
/// The trait provides an abstract definition of the functionality expected of
/// an object that implements a stock market, such as the _NASDAQ100_ or the
/// _IBEX35_: session times, currency, and a read-only query surface over the
/// collection of [`Company`]-capable objects it owns. Downstream modules rely
/// on this interface without knowing the concrete data source behind it; no
/// operation mutates market or company state.
///
/// Name search interprets its argument as a contiguous, case-sensitive
/// substring pattern (see [`crate::model::has_substring`]); ticker lookup is
/// exact, case-sensitive, full-string equality.
pub trait Market {
    /// The concrete company-capable type this market hands out references to.
    type Stock: Company;

    /// The ghost value this market-capable object represents.
    spec fn model(&self) -> MarketModel;

    /// Get the name of the market, for example _NASDAQ100_ or _IBEX35_.
    fn market_name(&self) -> (r: &str)
        ensures
            r@ == self.model().market_name,
    ;

    /// Get the ticker identifier of every stock included in the market, in
    /// the market's own order; empty when the market has no companies.
    fn list_tickers(&self) -> (r: Vec<&String>)
        ensures
            r@.len() == self.model().companies.len(),
            forall|i: int|
                0 <= i < r@.len() ==> r@[i]@ == self.model().companies[i].ticker,
    ;

    /// Search the market for stocks whose display name matches `name`,
    /// interpreted as a substring pattern. An ambiguous pattern such as
    /// `"Bank"` may match several stocks, so a whole list of references is
    /// returned; `None` is returned when no stock matches, so that callers
    /// can tell "no result field" from "empty result".
    fn stock_by_name(&self, name: &str) -> (r: Option<Vec<&Self::Stock>>)
        ensures
            match r {
                None => matching_companies(self.model().companies, name@).len() == 0,
                Some(v) => {
                    &&& v@.len() > 0
                    &&& v@.map_values(|c: &Self::Stock| c.model()) == matching_companies(
                        self.model().companies,
                        name@,
                    )
                },
            },
    ;

    /// Search the market for the one stock whose ticker equals `ticker`
    /// exactly: partial tickers produce no match. `None` is returned when no
    /// stock's ticker is equal to `ticker`.
    fn stock_by_ticker(&self, ticker: &str) -> (r: Option<&Self::Stock>)
        ensures
            match r {
                None => forall|i: int|
                    0 <= i < self.model().companies.len()
                        ==> #[trigger] self.model().companies[i].ticker != ticker@,
                Some(c) => {
                    &&& self.model().companies.contains(c.model())
                    &&& c.model().ticker == ticker@
                },
            },
    ;

    /// Get the open time of the market (UTC).
    fn open_time(&self) -> (r: &str)
        ensures
            r@ == self.model().open_time,
    ;

    /// Get the close time of the market (UTC).
    fn close_time(&self) -> (r: &str)
        ensures
            r@ == self.model().close_time,
    ;

    /// Get the currency code (ISO 4217) of the market.
    fn currency(&self) -> (r: &str)
        ensures
            r@ == self.model().currency,
    ;

    /// Get a reference to every stock descriptor included in the market, in
    /// the market's own order; empty when the market has no companies.
    fn get_companies(&self) -> (r: Vec<&Self::Stock>)
        ensures
            r@.len() == self.model().companies.len(),
            forall|i: int|
                0 <= i < r@.len() ==> #[trigger] r@[i].model() == self.model().companies[i],
    ;
}

} // verus!
