// The exchange-rate snapshot: construction rules, freshness by calendar-day
// string, lookup, and the resolver consulted during evaluation.

use fendesk::rates::{accept_cached, RateSnapshot};
use fendesk::store::ContextStore;
use std::sync::{Arc, Mutex};

fn snapshot(date: &str, rates: Vec<(&str, f64)>) -> Option<RateSnapshot> {
    RateSnapshot::new(
        date.to_string(),
        "USD".to_string(),
        rates.into_iter().map(|(code, rate)| (code.to_string(), rate.to_bits())).collect(),
    )
}

#[test]
fn valid_table_is_accepted_and_looked_up() {
    let snap = snapshot("2024-01-01", vec![("EUR", 0.9), ("JPY", 147.5)]).unwrap();
    assert_eq!(snap.rate_bits("EUR"), Some(0.9f64.to_bits()));
    assert_eq!(snap.rate_bits("JPY"), Some(147.5f64.to_bits()));
    assert_eq!(snap.rate_bits("GBP"), None);
}

#[test]
fn duplicate_codes_are_rejected() {
    assert!(snapshot("2024-01-01", vec![("EUR", 0.9), ("EUR", 0.5)]).is_none());
}

#[test]
fn nonpositive_and_nonfinite_rates_are_rejected() {
    assert!(snapshot("2024-01-01", vec![("EUR", 0.0)]).is_none());
    assert!(snapshot("2024-01-01", vec![("EUR", -1.0)]).is_none());
    assert!(snapshot("2024-01-01", vec![("EUR", f64::NAN)]).is_none());
    assert!(snapshot("2024-01-01", vec![("EUR", f64::INFINITY)]).is_none());
}

#[test]
fn freshness_goes_by_the_date_string_alone() {
    let snap = snapshot("2024-01-01", vec![("EUR", 0.9)]).unwrap();
    assert!(snap.is_fresh("2024-01-01"));
    assert!(!snap.is_fresh("2024-01-02"));
}

#[test]
fn stale_cache_counts_as_absent() {
    // A cache file dated yesterday is rejected, and the caller then falls
    // back to fetching a fresh table.
    let cached = snapshot("2024-01-01", vec![("EUR", 0.9)]);
    assert!(accept_cached(cached, "2024-01-02").is_none());
    assert!(accept_cached(None, "2024-01-02").is_none());
}

#[test]
fn same_day_cache_is_accepted() {
    let cached = snapshot("2024-01-02", vec![("EUR", 0.9)]);
    let kept = accept_cached(cached, "2024-01-02").unwrap();
    assert_eq!(kept.rate_bits("EUR"), Some(0.9f64.to_bits()));
}

#[test]
#[allow(deprecated)]
fn resolver_is_consulted_during_evaluation() {
    let mut store = ContextStore::initialize();
    let snap = snapshot("2024-01-01", vec![("USD", 1.0), ("EUR", 0.9)]).unwrap();
    let asked: Arc<Mutex<Vec<String>>> = Arc::new(Mutex::new(Vec::new()));
    let asked_inner = Arc::clone(&asked);
    store.context_mut().set_exchange_rate_handler_v1(move |currency: &str| {
        asked_inner.lock().unwrap().push(currency.to_string());
        match snap.rate_bits(currency) {
            Some(bits) => Ok(f64::from_bits(bits)),
            None => Err(Box::<dyn std::error::Error + Send + Sync>::from(format!(
                "Failed to get exchange rate for {}",
                currency
            ))),
        }
    });
    assert_eq!(store.commit_evaluate("1 USD to EUR", 1000), Ok("0.9 EUR".to_string()));
    assert!(asked.lock().unwrap().iter().any(|code| code == "EUR"));
}
