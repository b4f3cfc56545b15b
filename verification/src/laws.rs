//! The general laws of the query surface, proved once over the models.
//!
//! Each proof function here states a property that every conforming
//! implementation of [`crate::market::Market`] enjoys, because its hypotheses
//! are exactly what the trait contracts give to callers.

use vstd::prelude::*;

use crate::model::{
    matching_companies, name_matches, ticker_seq, tickers_unique, CompanyModel,
};

verus! {

/// Exact ticker lookup identifies exactly one company.
///
/// In a market whose tickers are unique (the invariant of the data model),
/// any company with ticker `t` that `stock_by_ticker(t)` can return — the
/// trait contract guarantees membership and exact, full-string ticker
/// equality, never a mere substring match — is the one company that holds
/// that ticker.
pub proof fn lemma_ticker_lookup_exact(
    companies: Seq<CompanyModel>,
    i: int,
    c: CompanyModel,
    t: Seq<char>,
)
    requires
        tickers_unique(companies),
        0 <= i < companies.len(),
        companies[i].ticker == t,
        companies.contains(c),
        c.ticker == t,
    ensures
        c == companies[i],
{
    let j = choose|j: int| 0 <= j < companies.len() && companies[j] == c;
    assert(companies[j].ticker == companies[i].ticker);
}

/// Name search omits no match: every company of the market whose display
/// name matches the pattern appears in the matched sequence, so a search
/// that can return several hits returns all of them.
pub proof fn lemma_matching_complete(s: Seq<CompanyModel>, pat: Seq<char>, i: int)
    requires
        0 <= i < s.len(),
        name_matches(s[i], pat),
    ensures
        matching_companies(s, pat).contains(s[i]),
{
    s.lemma_filter_contains(|c: CompanyModel| name_matches(c, pat), i);
}

/// Name search invents no match: every element of the matched sequence is a
/// company of the market whose display name matches the pattern.
pub proof fn lemma_matching_sound(s: Seq<CompanyModel>, pat: Seq<char>, j: int)
    requires
        0 <= j < matching_companies(s, pat).len(),
    ensures
        name_matches(matching_companies(s, pat)[j], pat),
        s.contains(matching_companies(s, pat)[j]),
    decreases s.len(),
{
    let pred = |c: CompanyModel| name_matches(c, pat);
    s.lemma_filter_pred(pred, j);
    reveal(Seq::filter);
    if s.len() == 0 {
    } else {
        let last = s.last();
        let prefix = s.drop_last();
        if pred(last) && j == s.filter(pred).len() - 1 {
            assert(s.contains(last)) by {
                assert(s[s.len() - 1] == last);
            }
        } else {
            lemma_matching_sound(prefix, pat, j);
            let w = choose|w: int| 0 <= w < prefix.len() && prefix[w] == prefix.filter(pred)[j];
            assert(s[w] == matching_companies(s, pat)[j]);
        }
    }
}

/// A search that matches nothing is exactly a search whose matched sequence
/// is empty: `stock_by_name` returns absent precisely on such patterns, so
/// callers can rely on "absent", never an empty-but-present list.
pub proof fn lemma_no_match_means_empty(s: Seq<CompanyModel>, pat: Seq<char>)
    ensures
        matching_companies(s, pat).len() == 0 <==> (forall|i: int|
            0 <= i < s.len() ==> !name_matches(#[trigger] s[i], pat)),
{
    if matching_companies(s, pat).len() == 0 {
        assert forall|i: int| 0 <= i < s.len() implies !name_matches(#[trigger] s[i], pat) by {
            if name_matches(s[i], pat) {
                lemma_matching_complete(s, pat, i);
            }
        }
    } else {
        lemma_matching_sound(s, pat, 0);
        let w = choose|w: int| 0 <= w < s.len() && s[w] == matching_companies(s, pat)[0];
        assert(name_matches(s[w], pat));
    }
}

/// The ticker listing agrees with the company listing: what `list_tickers`
/// returns is as long as what `get_companies` returns, and its elements are
/// exactly the tickers of those companies — equal even as ordered sequences,
/// hence certainly as sets.
pub proof fn lemma_tickers_cover_companies(
    tickers: Seq<Seq<char>>,
    companies: Seq<CompanyModel>,
)
    requires
        tickers.len() == companies.len(),
        forall|i: int| 0 <= i < tickers.len() ==> #[trigger] tickers[i] == companies[i].ticker,
    ensures
        tickers == ticker_seq(companies),
        tickers.to_set() == ticker_seq(companies).to_set(),
{
    assert(tickers =~= ticker_seq(companies));
}

} // verus!
