//! Conformance tests driving the reference implementation through the
//! public capability-set interface.

use finance_api::company::{debug_company, display_company, Company};
use finance_api::market::Market;
use finance_api::mock::{MockCompany, MockMarket};
use finance_api::text::{contains_pattern, str_eq};

fn company(name: &str, ticker: &str, isin: &str) -> MockCompany {
    MockCompany {
        name: name.to_string(),
        full_name: None,
        isin: isin.to_string(),
        ticker: ticker.to_string(),
        extra_id: None,
    }
}

fn sample_market() -> MockMarket {
    MockMarket {
        market_name: "IBEX35".to_string(),
        open_time: "07:00".to_string(),
        close_time: "15:30".to_string(),
        currency: "EUR".to_string(),
        companies: vec![
            MockCompany {
                name: "Banco Bilbao Vizcaya Argentaria".to_string(),
                full_name: Some("Banco Bilbao Vizcaya Argentaria, S.A.".to_string()),
                isin: "ES0113211835".to_string(),
                ticker: "BBVA".to_string(),
                extra_id: Some("A48265169".to_string()),
            },
            MockCompany {
                name: "Banco Santander".to_string(),
                full_name: None,
                isin: "ES0113900J37".to_string(),
                ticker: "SAN".to_string(),
                extra_id: None,
            },
            MockCompany {
                name: "Inditex".to_string(),
                full_name: Some("Industria de Diseno Textil, S.A.".to_string()),
                isin: "ES0148396007".to_string(),
                ticker: "ITX".to_string(),
                extra_id: None,
            },
        ],
    }
}

#[test]
fn market_descriptive_fields() {
    let m = sample_market();
    assert_eq!(m.market_name(), "IBEX35");
    assert_eq!(m.open_time(), "07:00");
    assert_eq!(m.close_time(), "15:30");
    assert_eq!(m.currency(), "EUR");
}

#[test]
fn ticker_lookup_finds_exactly_the_owner() {
    let m = sample_market();
    let c = m.stock_by_ticker("SAN").expect("SAN is listed");
    assert_eq!(c.ticker(), "SAN");
    assert_eq!(c.name(), "Banco Santander");
}

#[test]
fn ticker_lookup_rejects_partial_tickers() {
    let m = sample_market();
    assert!(m.stock_by_ticker("BB").is_none());
    assert!(m.stock_by_ticker("BBV").is_none());
    assert!(m.stock_by_ticker("BBVAX").is_none());
}

#[test]
fn ticker_lookup_is_case_sensitive() {
    let m = sample_market();
    assert!(m.stock_by_ticker("bbva").is_none());
    assert!(m.stock_by_ticker("BBVA").is_some());
}

#[test]
fn round_trip_three_tickers() {
    let mut m = sample_market();
    m.companies = vec![
        company("First", "AAA", "XX0000000001"),
        company("Second", "AAB", "XX0000000002"),
        company("Third", "ZZZ", "XX0000000003"),
    ];
    let hit = m.stock_by_ticker("AAB").expect("AAB is listed");
    assert_eq!(hit.name(), "Second");
    assert_eq!(hit.isin(), "XX0000000002");
    assert!(m.stock_by_ticker("AA").is_none());
}

#[test]
fn name_search_without_match_is_absent() {
    let m = sample_market();
    assert!(m.stock_by_name("Telefonica").is_none());
}

#[test]
fn name_search_returns_every_match() {
    let m = sample_market();
    let hits = m.stock_by_name("Banco").expect("two banks are listed");
    assert_eq!(hits.len(), 2);
    assert_eq!(hits[0].ticker(), "BBVA");
    assert_eq!(hits[1].ticker(), "SAN");
}

#[test]
fn name_search_single_match() {
    let m = sample_market();
    let hits = m.stock_by_name("Inditex").expect("Inditex is listed");
    assert_eq!(hits.len(), 1);
    assert_eq!(hits[0].ticker(), "ITX");
}

#[test]
fn name_search_is_case_sensitive_substring() {
    let m = sample_market();
    assert!(m.stock_by_name("banco").is_none());
    let hits = m.stock_by_name("anco").expect("substring matches both banks");
    assert_eq!(hits.len(), 2);
}

#[test]
fn name_search_empty_pattern_matches_all() {
    let m = sample_market();
    let hits = m.stock_by_name("").expect("every name contains the empty pattern");
    assert_eq!(hits.len(), 3);
}

#[test]
fn tickers_agree_with_companies() {
    let m = sample_market();
    let tickers = m.list_tickers();
    let companies = m.get_companies();
    assert_eq!(tickers.len(), companies.len());
    let mut from_tickers: Vec<String> = tickers.iter().map(|t| t.to_string()).collect();
    let mut from_companies: Vec<String> =
        companies.iter().map(|c| c.ticker().to_string()).collect();
    from_tickers.sort();
    from_companies.sort();
    assert_eq!(from_tickers, from_companies);
}

#[test]
fn empty_market_queries() {
    let m = MockMarket {
        market_name: "EMPTY".to_string(),
        open_time: "00:00".to_string(),
        close_time: "00:00".to_string(),
        currency: "USD".to_string(),
        companies: vec![],
    };
    assert!(m.list_tickers().is_empty());
    assert!(m.get_companies().is_empty());
    assert!(m.stock_by_ticker("AAA").is_none());
    assert!(m.stock_by_name("anything").is_none());
}

#[test]
fn optional_fields_present_and_absent() {
    let m = sample_market();
    let bbva = m.stock_by_ticker("BBVA").unwrap();
    assert_eq!(
        bbva.full_name().map(String::as_str),
        Some("Banco Bilbao Vizcaya Argentaria, S.A.")
    );
    assert_eq!(bbva.extra_id().map(String::as_str), Some("A48265169"));
    let san = m.stock_by_ticker("SAN").unwrap();
    assert!(san.full_name().is_none());
    assert!(san.extra_id().is_none());
}

#[test]
fn display_form_is_ticker_colon_name() {
    let c = company(
        "Banco Bilbao Vizcaya Argentaria",
        "BBVA",
        "ES0113211835",
    );
    assert_eq!(
        display_company(&c),
        "BBVA: Banco Bilbao Vizcaya Argentaria"
    );
}

#[test]
fn debug_form_marks_absent_fields_in_order() {
    let c = company("Inditex", "ITX", "ES0148396007");
    assert_eq!(
        debug_company(&c),
        "(None, \"Inditex\", \"ITX\", \"ES0148396007\", None)"
    );
}

#[test]
fn debug_form_shows_present_fields_in_order() {
    let c = MockCompany {
        name: "Inditex".to_string(),
        full_name: Some("Industria de Diseno Textil, S.A.".to_string()),
        isin: "ES0148396007".to_string(),
        ticker: "ITX".to_string(),
        extra_id: Some("A15075062".to_string()),
    };
    assert_eq!(
        debug_company(&c),
        "(Some(\"Industria de Diseno Textil, S.A.\"), \"Inditex\", \"ITX\", \"ES0148396007\", Some(\"A15075062\"))"
    );
}

#[test]
fn str_eq_is_exact_full_string_equality() {
    assert!(str_eq("BBVA", "BBVA"));
    assert!(!str_eq("BBVA", "BBV"));
    assert!(!str_eq("BBV", "BBVA"));
    assert!(!str_eq("BBVA", "bbva"));
    assert!(str_eq("", ""));
}

#[test]
fn contains_pattern_is_substring_search() {
    assert!(contains_pattern("Banco Santander", "Santander"));
    assert!(contains_pattern("Banco Santander", "anco"));
    assert!(contains_pattern("Banco Santander", ""));
    assert!(!contains_pattern("Banco Santander", "santander"));
    assert!(!contains_pattern("anco", "Banco"));
}
