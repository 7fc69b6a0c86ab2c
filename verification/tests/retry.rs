use earthmc::client::{AttemptOutcome, NextAction, RequestDriver};
use earthmc::errors::Error;
use earthmc::retry_strategy::{
    JitteredBackoff, JitteredBackoffBuilder, RetryStrategy, DEFAULT_MAX_RETRY,
};

struct AlwaysRetry;

impl RetryStrategy for AlwaysRetry {
    fn should_retry_after(&mut self, _attempt: usize) -> Option<u64> {
        Some(0)
    }
}

struct NeverRetry;

impl RetryStrategy for NeverRetry {
    fn should_retry_after(&mut self, _attempt: usize) -> Option<u64> {
        None
    }
}

#[test]
fn jittered_backoff_bounds_every_attempt() {
    let mut strategy = JitteredBackoff::new(5);
    for attempt in 0..5usize {
        let d = strategy.should_retry_after(attempt).expect("should grant a retry");
        let base = 1000u64 << attempt;
        assert!(d <= base, "wait {d} above ceiling {base}");
        assert!(d + 1000 > base, "wait {d} more than a second below {base}");
    }
    for attempt in 5..8usize {
        assert_eq!(strategy.should_retry_after(attempt), None);
    }
    // the ceiling holds regardless of the state the earlier calls left behind
    assert!(strategy.should_retry_after(0).expect("still below the ceiling") <= 1000);
}

#[test]
fn jittered_backoff_default_and_builder() {
    let strategy = JitteredBackoff::default();
    assert_eq!(strategy.max_retry, DEFAULT_MAX_RETRY);
    let strategy = JitteredBackoffBuilder::default().max_retry(2).build();
    assert_eq!(strategy.max_retry, 2);
    let mut strategy = JitteredBackoffBuilder::default().build();
    assert_eq!(strategy.max_retry, 5);
    assert_eq!(strategy.should_retry_after(9), None);
}

#[test]
fn driver_parses_success_without_consulting_strategy() {
    let mut driver = RequestDriver::new(NeverRetry);
    let action = driver.step(AttemptOutcome::Success("[1,2]".to_string()));
    match action {
        NextAction::Parse(body) => assert_eq!(body, "[1,2]"),
        _ => panic!("a successful body must be parsed"),
    }
    assert_eq!(driver.attempts, 0);
}

#[test]
fn driver_aborts_with_the_exhausted_retries_error() {
    let mut driver = RequestDriver::new(NeverRetry);
    let action = driver.step(AttemptOutcome::HttpFailure(503));
    match action {
        NextAction::Abort(Error::TooManyRetry(errs)) => {
            assert_eq!(errs.len(), 1);
            assert!(matches!(errs[0], Error::HttpStatus(503)));
        }
        _ => panic!("a refusal must abort with the exhausted-retries error"),
    }
    assert_eq!(driver.attempts, 0);
    assert_eq!(driver.errors.len(), 0);

    let action = driver.step(AttemptOutcome::TransportFailure("timed out".to_string()));
    match action {
        NextAction::Abort(Error::TooManyRetry(errs)) => {
            assert_eq!(errs.len(), 1);
            assert!(matches!(&errs[0], Error::Transport(msg) if msg == "timed out"));
        }
        _ => panic!("a refusal must abort with the exhausted-retries error"),
    }
}

#[test]
fn driver_counts_and_logs_granted_retries() {
    let mut driver = RequestDriver::new(AlwaysRetry);
    for expected in 1..4usize {
        let action = driver.step(AttemptOutcome::HttpFailure(500));
        assert!(matches!(action, NextAction::RetryAfter(0)));
        assert_eq!(driver.attempts, expected);
        assert_eq!(driver.errors.len(), expected);
    }
    assert!(driver.errors.iter().all(|e| matches!(e, Error::HttpStatus(500))));
}

#[test]
fn driver_with_default_backoff_gives_up_after_max_retry() {
    let mut driver = RequestDriver::new(JitteredBackoff::new(2));
    assert!(matches!(
        driver.step(AttemptOutcome::HttpFailure(500)),
        NextAction::RetryAfter(_)
    ));
    assert!(matches!(
        driver.step(AttemptOutcome::HttpFailure(500)),
        NextAction::RetryAfter(_)
    ));
    // The give-up carries all three failed attempts, the terminal one last.
    match driver.step(AttemptOutcome::HttpFailure(500)) {
        NextAction::Abort(Error::TooManyRetry(errs)) => {
            assert_eq!(errs.len(), 3);
            assert!(errs.iter().all(|e| matches!(e, Error::HttpStatus(500))));
        }
        _ => panic!("the exhausted retries must surface as one error"),
    }
}
