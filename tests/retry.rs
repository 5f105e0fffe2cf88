use deepseek_json::{DeepSeekError, RetryDecision, RetryPolicy};

#[test]
fn two_busy_failures_wait_500_then_1000() {
    let policy = RetryPolicy::new();
    let mut state = policy.start();
    let busy = DeepSeekError::ServerBusy;
    assert_eq!(policy.on_failure(&mut state, &busy), RetryDecision::RetryAfter(500));
    assert_eq!(policy.on_failure(&mut state, &busy), RetryDecision::RetryAfter(1000));
    // the third attempt succeeds: no further decision is asked for
    assert_eq!(state.retries, 2);
}

#[test]
fn permanent_busy_gives_up_after_three_attempts() {
    let policy = RetryPolicy::new();
    let mut state = policy.start();
    let busy = DeepSeekError::ServerBusy;
    let mut attempts = 1;
    let mut waits = Vec::new();
    loop {
        match policy.on_failure(&mut state, &busy) {
            RetryDecision::RetryAfter(ms) => {
                waits.push(ms);
                attempts += 1;
            }
            RetryDecision::GiveUp => break,
        }
    }
    assert_eq!(attempts, 3);
    assert_eq!(waits, vec![500, 1000]);
}

#[test]
fn network_errors_are_retried_too() {
    let policy = RetryPolicy::new();
    let mut state = policy.start();
    let e = DeepSeekError::NetworkError { message: "down".to_string() };
    assert_eq!(policy.on_failure(&mut state, &e), RetryDecision::RetryAfter(500));
}

#[test]
fn other_failures_are_not_retried() {
    let policy = RetryPolicy::new();
    for e in [
        DeepSeekError::ApiError { status: 400, message: "bad".to_string() },
        DeepSeekError::Timeout { seconds: 2 },
        DeepSeekError::ParseError { message: "p".to_string() },
    ] {
        let mut state = policy.start();
        let before = state;
        assert_eq!(policy.on_failure(&mut state, &e), RetryDecision::GiveUp);
        assert_eq!(state, before);
    }
}

#[test]
fn backoff_saturates_instead_of_overflowing() {
    let policy = RetryPolicy { max_attempts: 10, initial_backoff_ms: u64::MAX / 2 + 1, multiplier: 2 };
    let mut state = policy.start();
    let busy = DeepSeekError::ServerBusy;
    assert_eq!(policy.on_failure(&mut state, &busy), RetryDecision::RetryAfter(u64::MAX / 2 + 1));
    assert_eq!(policy.on_failure(&mut state, &busy), RetryDecision::RetryAfter(u64::MAX));
}

#[test]
fn a_single_attempt_policy_never_retries() {
    let policy = RetryPolicy { max_attempts: 1, initial_backoff_ms: 500, multiplier: 2 };
    let mut state = policy.start();
    assert_eq!(policy.on_failure(&mut state, &DeepSeekError::ServerBusy), RetryDecision::GiveUp);
}
