//! Classification of provider replies, balance arithmetic, and the
//! endpoints queried.

use wallet_balance::errors::{FailureReason, QueryError};
use wallet_balance::keys::Network;
use wallet_balance::provider::{
    classify_reply, endpoint_url, sat_balance, ChainTotals, FetchOutcome, ProviderId,
};

fn response(status: u16, marker: bool, totals: Option<(u64, u64)>) -> FetchOutcome {
    FetchOutcome::Response {
        status,
        rate_limit_marker: marker,
        funded_spent: totals.map(|(funded, spent)| ChainTotals { funded, spent }),
    }
}

#[test]
fn balance_is_funded_minus_spent() {
    assert_eq!(sat_balance(1_500_000, 0), 1_500_000);
    assert_eq!(sat_balance(5_000_000, 3_500_000), 1_500_000);
    assert_eq!(sat_balance(0, 0), 0);
}

#[test]
fn balance_is_floored_at_zero_when_overspent() {
    // More spent than funded must not go negative.
    assert_eq!(sat_balance(5, 9), 0);
    assert_eq!(sat_balance(0, u64::MAX), 0);
    let btc = sat_balance(5, 9) as f64 / 100_000_000.0;
    assert!(btc >= 0.0);
    assert_eq!(btc, 0.0);
}

#[test]
fn satoshi_to_btc_conversion_is_exact_on_round_values() {
    let sats = sat_balance(5_000_000, 3_500_000);
    assert_eq!(sats as f64 / 100_000_000.0, 0.015);
}

#[test]
fn successful_parse_yields_the_balance() {
    let r = classify_reply(ProviderId::Primary, response(200, false, Some((9, 5))));
    assert_eq!(r, Ok(4));
    let r2 = classify_reply(ProviderId::Secondary, response(204, false, Some((5, 9))));
    assert_eq!(r2, Ok(0));
}

#[test]
fn non_success_status_is_transient() {
    let r = classify_reply(ProviderId::Primary, response(429, false, None));
    assert_eq!(r, Err(QueryError::Transient(FailureReason::HttpStatus(429))));
    let r2 = classify_reply(ProviderId::Secondary, response(500, false, Some((1, 0))));
    assert_eq!(r2, Err(QueryError::Transient(FailureReason::HttpStatus(500))));
}

#[test]
fn rate_limit_marker_is_transient_for_the_primary_only() {
    let r = classify_reply(ProviderId::Primary, response(200, true, None));
    assert_eq!(r, Err(QueryError::Transient(FailureReason::RateLimitMarker)));
    let r2 = classify_reply(ProviderId::Secondary, response(200, true, None));
    assert_eq!(r2, Err(QueryError::Fatal(FailureReason::MalformedBody)));
}

#[test]
fn unparsable_body_and_transport_failures_are_fatal() {
    let r = classify_reply(ProviderId::Primary, response(200, false, None));
    assert_eq!(r, Err(QueryError::Fatal(FailureReason::MalformedBody)));
    let r2 = classify_reply(ProviderId::Primary, FetchOutcome::TransportFailure);
    assert_eq!(r2, Err(QueryError::Fatal(FailureReason::Transport)));
}

#[test]
fn endpoints_follow_the_documented_patterns() {
    assert_eq!(
        endpoint_url(ProviderId::Primary, Network::Mainnet, "bc1qexample"),
        "https://blockstream.info/api/address/bc1qexample"
    );
    assert_eq!(
        endpoint_url(ProviderId::Primary, Network::Testnet, "tb1qexample"),
        "https://blockstream.info/testnet/api/address/tb1qexample"
    );
    assert_eq!(
        endpoint_url(ProviderId::Secondary, Network::Testnet, "tb1qexample"),
        "https://mempool.space/testnet/api/address/tb1qexample"
    );
    assert_eq!(
        endpoint_url(ProviderId::Secondary, Network::Mainnet, "bc1qexample"),
        "https://mempool.space/api/address/bc1qexample"
    );
}
