use cid_client::retry::{ErrorClass, RetryDecision, RetryPolicy, RetryState};

fn policy() -> RetryPolicy {
    RetryPolicy {
        initial_interval_ms: 100,
        multiplier_permille: 2000,
        max_interval_ms: 10_000,
        randomization_permille: 0,
        max_elapsed_ms: Some(60_000),
    }
}

#[test]
fn transient_failures_back_off_exponentially() {
    let mut state = RetryState::new(policy());
    let first = state.on_failure("connection reset".to_string(), ErrorClass::Transient, 0, 1000);
    assert!(matches!(first, RetryDecision::Retry { delay_ms: 100 }));
    let second = state.on_failure("connection reset".to_string(), ErrorClass::Transient, 150, 1000);
    assert!(matches!(second, RetryDecision::Retry { delay_ms: 200 }));
    let third = state.on_failure("connection reset".to_string(), ErrorClass::Transient, 400, 1000);
    assert!(matches!(third, RetryDecision::Retry { delay_ms: 400 }));
}

#[test]
fn permanent_failure_gives_up_at_once() {
    let mut state = RetryState::new(policy());
    let decision = state.on_failure("malformed body".to_string(), ErrorClass::Permanent, 0, 1000);
    assert!(matches!(decision, RetryDecision::GiveUp(e) if e == "malformed body"));
    assert_eq!(state.current_interval_ms, 100);
}

#[test]
fn exhausted_budget_returns_last_error_verbatim() {
    let mut state = RetryState::new(policy());
    let decision = state.on_failure("timed out".to_string(), ErrorClass::Transient, 60_001, 1000);
    assert!(matches!(decision, RetryDecision::GiveUp(e) if e == "timed out"));
}

#[test]
fn interval_caps_at_the_maximum() {
    let mut state = RetryState::new(RetryPolicy {
        initial_interval_ms: 100,
        multiplier_permille: 2000,
        max_interval_ms: 250,
        randomization_permille: 0,
        max_elapsed_ms: None,
    });
    let _ = state.on_failure((), ErrorClass::Transient, 0, 1000);
    assert_eq!(state.current_interval_ms, 200);
    let _ = state.on_failure((), ErrorClass::Transient, 0, 1000);
    assert_eq!(state.current_interval_ms, 250);
    let capped = state.on_failure((), ErrorClass::Transient, 0, 1000);
    assert!(matches!(capped, RetryDecision::Retry { delay_ms: 250 }));
}

#[test]
fn jitter_scales_the_delay() {
    let mut state = RetryState::new(RetryPolicy {
        initial_interval_ms: 100,
        multiplier_permille: 1500,
        max_interval_ms: 10_000,
        randomization_permille: 500,
        max_elapsed_ms: None,
    });
    let low = state.on_failure((), ErrorClass::Transient, 0, 500);
    assert!(matches!(low, RetryDecision::Retry { delay_ms: 50 }));
    let high = state.on_failure((), ErrorClass::Transient, 0, 1500);
    assert!(matches!(high, RetryDecision::Retry { delay_ms: 225 }));
}
