// The interrupt token and the completion helper.

use fendesk::interrupt::TimeoutInterrupt;
use fendesk::prompt::fend_completion;

#[test]
fn new_with_timeout_stores_the_budget() {
    let token = TimeoutInterrupt::new_with_timeout(5);
    assert_eq!(token.timeout, 5);
}

#[test]
fn fresh_token_with_large_budget_is_not_due() {
    let token = TimeoutInterrupt::new_with_timeout(600000);
    assert!(!token.poll());
}

#[test]
fn exhausted_token_stays_due() {
    let token = TimeoutInterrupt::new_with_timeout(1);
    let start = std::time::Instant::now();
    while start.elapsed().as_millis() <= 3 {
        // busy-wait past the budget
    }
    assert!(token.poll());
    assert!(token.poll());
}

#[test]
fn completion_agrees_with_the_engine() {
    for prefix in ["met", "kilo", "\\alp", "zz@@", ""] {
        let expected = fend_core::get_completions_for_prefix(prefix)
            .1
            .first()
            .map(|completion| completion.insert().to_string());
        assert_eq!(fend_completion(prefix.to_string()), expected);
    }
}
