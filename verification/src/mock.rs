//! A reference implementation of the two capability sets over plain
//! in-memory values.
//!
//! [`MockCompany`] and [`MockMarket`] demonstrate that the contracts of
//! [`Company`] and [`Market`] are satisfiable and give conformance tests a
//! concrete object to drive. A market owns its companies in a `Vec` and hands
//! out borrowed references into that store, so query results cannot outlive
//! the market that produced them.

use vstd::prelude::*;

use crate::company::{opt_view, Company};
use crate::market::Market;
use crate::model::{matching_companies, name_matches, CompanyModel, MarketModel};
use crate::text::{contains_pattern, str_eq};

verus! {

/// One listed security, stored as plain owned strings.
pub struct MockCompany {
    /// Short display name.
    pub name: String,
    /// Optional legal name.
    pub full_name: Option<String>,
    /// International Securities Identification Number.
    pub isin: String,
    /// Exchange ticker symbol.
    pub ticker: String,
    /// Optional jurisdiction-specific secondary identifier.
    pub extra_id: Option<String>,
}

impl Company for MockCompany {
    open spec fn model(&self) -> CompanyModel {
        CompanyModel {
            name: self.name@,
            full_name: match self.full_name {
                Some(s) => Some(s@),
                None => None,
            },
            isin: self.isin@,
            ticker: self.ticker@,
            extra_id: match self.extra_id {
                Some(s) => Some(s@),
                None => None,
            },
        }
    }

    fn name(&self) -> (r: &str) {
        self.name.as_str()
    }

    fn full_name(&self) -> (r: Option<&String>) {
        match &self.full_name {
            Some(s) => Some(s),
            None => None,
        }
    }

    fn isin(&self) -> (r: &str) {
        self.isin.as_str()
    }

    fn ticker(&self) -> (r: &str) {
        self.ticker.as_str()
    }

    fn extra_id(&self) -> (r: Option<&String>) {
        match &self.extra_id {
            Some(s) => Some(s),
            None => None,
        }
    }
}

/// One stock exchange, owning its listed companies in memory.
pub struct MockMarket {
    /// Display name of the market.
    pub market_name: String,
    /// Opening time of day in UTC.
    pub open_time: String,
    /// Closing time of day in UTC.
    pub close_time: String,
    /// ISO 4217 currency code.
    pub currency: String,
    /// The companies listed in the market.
    pub companies: Vec<MockCompany>,
}

/// The ghost companies of a mock market, in storage order.
pub open spec fn companies_model(cs: Seq<MockCompany>) -> Seq<CompanyModel> {
    cs.map_values(|c: MockCompany| c.model())
}

/// One step of the name search: extending the searched prefix by one company
/// extends the match list by that company exactly when its name matches.
proof fn lemma_matching_step(s: Seq<CompanyModel>, pat: Seq<char>, i: int)
    requires
        0 <= i < s.len(),
    ensures
        matching_companies(s.subrange(0, i + 1), pat) == if name_matches(s[i], pat) {
            matching_companies(s.subrange(0, i), pat).push(s[i])
        } else {
            matching_companies(s.subrange(0, i), pat)
        },
{
    let pred = |c: CompanyModel| name_matches(c, pat);
    let prefix = s.subrange(0, i);
    let one = seq![s[i]];
    assert(s.subrange(0, i + 1) =~= prefix + one);
    Seq::<CompanyModel>::filter_distributes_over_add(prefix, one, pred);
    reveal_with_fuel(Seq::filter, 2);
    assert(one.drop_last() =~= Seq::<CompanyModel>::empty());
    if name_matches(s[i], pat) {
        assert(prefix.filter(pred) + one.filter(pred) =~= prefix.filter(pred).push(s[i]));
    } else {
        assert(prefix.filter(pred) + one.filter(pred) =~= prefix.filter(pred));
    }
}

impl Market for MockMarket {
    type Stock = MockCompany;

    open spec fn model(&self) -> MarketModel {
        MarketModel {
            market_name: self.market_name@,
            open_time: self.open_time@,
            close_time: self.close_time@,
            currency: self.currency@,
            companies: companies_model(self.companies@),
        }
    }

    fn market_name(&self) -> (r: &str) {
        self.market_name.as_str()
    }

    fn list_tickers(&self) -> (r: Vec<&String>) {
        let mut tickers: Vec<&String> = Vec::new();
        let n = self.companies.len();
        let mut i: usize = 0;
        while i < n
            invariant
                n == self.companies@.len(),
                0 <= i <= n,
                tickers@.len() == i,
                forall|j: int|
                    0 <= j < i ==> tickers@[j]@ == self.model().companies[j].ticker,
            decreases n - i,
        {
            tickers.push(&self.companies[i].ticker);
            i = i + 1;
        }
        tickers
    }

    fn stock_by_name(&self, name: &str) -> (r: Option<Vec<&MockCompany>>) {
        let mut found: Vec<&MockCompany> = Vec::new();
        let n = self.companies.len();
        let mut i: usize = 0;
        while i < n
            invariant
                n == self.companies@.len(),
                0 <= i <= n,
                found@.map_values(|c: &MockCompany| c.model()) == matching_companies(
                    self.model().companies.subrange(0, i as int),
                    name@,
                ),
            decreases n - i,
        {
            let c = &self.companies[i];
            let ghost prefix = matching_companies(
                self.model().companies.subrange(0, i as int),
                name@,
            );
            proof {
                lemma_matching_step(self.model().companies, name@, i as int);
            }
            if contains_pattern(c.name.as_str(), name) {
                found.push(c);
                proof {
                    assert(found@.map_values(|c: &MockCompany| c.model()) =~= prefix.push(
                        c.model(),
                    ));
                }
            }
            i = i + 1;
        }
        proof {
            assert(self.model().companies.subrange(0, n as int) =~= self.model().companies);
        }
        if found.len() == 0 {
            None
        } else {
            Some(found)
        }
    }

    fn stock_by_ticker(&self, ticker: &str) -> (r: Option<&MockCompany>) {
        let n = self.companies.len();
        let mut i: usize = 0;
        while i < n
            invariant
                n == self.companies@.len(),
                0 <= i <= n,
                forall|j: int|
                    0 <= j < i ==> #[trigger] self.model().companies[j].ticker != ticker@,
            decreases n - i,
        {
            let c = &self.companies[i];
            if str_eq(c.ticker.as_str(), ticker) {
                proof {
                    assert(self.model().companies[i as int] == c.model());
                }
                return Some(c);
            }
            i = i + 1;
        }
        None
    }

    fn open_time(&self) -> (r: &str) {
        self.open_time.as_str()
    }

    fn close_time(&self) -> (r: &str) {
        self.close_time.as_str()
    }

    fn currency(&self) -> (r: &str) {
        self.currency.as_str()
    }

    fn get_companies(&self) -> (r: Vec<&MockCompany>) {
        let mut refs: Vec<&MockCompany> = Vec::new();
        let n = self.companies.len();
        let mut i: usize = 0;
        while i < n
            invariant
                n == self.companies@.len(),
                0 <= i <= n,
                refs@.len() == i,
                forall|j: int|
                    0 <= j < i ==> #[trigger] refs@[j].model() == self.model().companies[j],
            decreases n - i,
        {
            refs.push(&self.companies[i]);
            i = i + 1;
        }
        refs
    }
}

} // verus!
