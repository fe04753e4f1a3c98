//! The retry policy: alternation, backoff, and resolution.

use wallet_balance::errors::{FailureReason, QueryError};
use wallet_balance::fallback::{resolve_with_fallback, Attempt, FallbackDriver};
use wallet_balance::provider::{classify_reply, ChainTotals, FetchOutcome, ProviderId};
use wallet_balance::rate::RateLimiter;

const TRANSIENT: QueryError = QueryError::Transient(FailureReason::RateLimitMarker);
const FATAL: QueryError = QueryError::Fatal(FailureReason::Transport);

#[test]
fn repeated_transient_failures_walk_the_backoff_schedule() {
    // Three rounds: primary at once, secondary after two seconds,
    // primary again after four, then exhaustion.
    let mut driver = FallbackDriver::new();
    assert_eq!(
        driver.next_attempt(),
        Some(Attempt { provider: ProviderId::Primary, backoff_ms: 0 })
    );
    assert_eq!(driver.absorb(Err(TRANSIENT)), None);
    assert_eq!(
        driver.next_attempt(),
        Some(Attempt { provider: ProviderId::Secondary, backoff_ms: 2000 })
    );
    assert_eq!(driver.absorb(Err(TRANSIENT)), None);
    assert_eq!(
        driver.next_attempt(),
        Some(Attempt { provider: ProviderId::Primary, backoff_ms: 4000 })
    );
    assert_eq!(
        driver.absorb(Err(TRANSIENT)),
        Some(Err(QueryError::AllProvidersExhausted))
    );
    assert_eq!(driver.next_attempt(), None);
}

#[test]
fn a_success_resolves_at_once() {
    let mut driver = FallbackDriver::new();
    assert_eq!(driver.absorb(Ok(1234)), Some(Ok(1234)));
}

#[test]
fn a_fatal_failure_aborts_without_retrying() {
    let mut driver = FallbackDriver::new();
    assert_eq!(driver.absorb(Err(FATAL)), Some(Err(FATAL)));
}

#[test]
fn a_transient_then_a_success_uses_the_second_provider() {
    let mut driver = FallbackDriver::new();
    assert_eq!(driver.absorb(Err(TRANSIENT)), None);
    let attempt = driver.next_attempt().unwrap();
    assert_eq!(attempt.provider, ProviderId::Secondary);
    assert_eq!(driver.absorb(Ok(77)), Some(Ok(77)));
}

#[test]
fn resolution_over_supplied_outcomes() {
    assert_eq!(
        resolve_with_fallback(&vec![Err(TRANSIENT), Err(TRANSIENT), Err(TRANSIENT)]),
        Err(QueryError::AllProvidersExhausted)
    );
    assert_eq!(
        resolve_with_fallback(&vec![Err(TRANSIENT), Ok(7), Err(TRANSIENT)]),
        Ok(7)
    );
    assert_eq!(
        resolve_with_fallback(&vec![Err(TRANSIENT), Err(FATAL), Ok(7)]),
        Err(FATAL)
    );
    assert_eq!(
        resolve_with_fallback(&vec![Ok(0), Ok(1), Ok(2)]),
        Ok(0)
    );
    // A fourth outcome is never consumed: three rounds only.
    assert_eq!(
        resolve_with_fallback(&vec![Err(TRANSIENT), Err(TRANSIENT), Err(TRANSIENT), Ok(9)]),
        Err(QueryError::AllProvidersExhausted)
    );
}

#[test]
fn a_provider_stuck_at_429_exhausts_every_round() {
    // The classification of an HTTP 429 reply, fed through all three
    // rounds, ends in exhaustion.
    let mut driver = FallbackDriver::new();
    let mut resolution = None;
    while let Some(attempt) = driver.next_attempt() {
        let reply = FetchOutcome::Response {
            status: 429,
            rate_limit_marker: false,
            funded_spent: None,
        };
        let outcome = classify_reply(attempt.provider, reply);
        resolution = driver.absorb(outcome);
        if resolution.is_some() {
            break;
        }
    }
    assert_eq!(resolution, Some(Err(QueryError::AllProvidersExhausted)));
}

#[test]
fn rate_limiter_spaces_slots_by_the_interval() {
    let mut limiter = RateLimiter::new(250);
    // The first caller passes at once.
    assert_eq!(limiter.acquire_at(1000), 0);
    // A caller 100ms later owes the remaining 150ms.
    assert_eq!(limiter.acquire_at(1100), 150);
    // The previous slot ended at 1250; 40ms after it, 210ms remain.
    assert_eq!(limiter.acquire_at(1290), 210);
    // Long after the interval has elapsed, no wait is owed.
    assert_eq!(limiter.acquire_at(60_000), 0);
    assert_eq!(limiter.acquire_at(60_100), 150);
}

#[test]
fn parsed_totals_pass_through_the_policy() {
    let reply = FetchOutcome::Response {
        status: 200,
        rate_limit_marker: false,
        funded_spent: Some(ChainTotals { funded: 10, spent: 4 }),
    };
    let outcome = classify_reply(ProviderId::Primary, reply);
    let mut driver = FallbackDriver::new();
    assert_eq!(driver.absorb(outcome), Some(Ok(6)));
}
