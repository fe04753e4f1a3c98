//! Error taxonomy of the discovery engine.

use vstd::prelude::*;

verus! {

/// Rejection of an extended-public-key string before any network
/// activity takes place.
#[derive(Debug, Clone, Copy, PartialEq, Eq, Structural)]
pub enum ParseError {
    /// The string is not valid base58check, or its checksum does not match.
    InvalidEncoding,
    /// The decoded payload is shorter than the 78 bytes an extended key needs.
    InvalidLength,
    /// The string starts neither with `xpub` nor with `vpub`.
    UnsupportedFormat,
}

/// Failure of address derivation at one coordinate.
#[derive(Debug, Clone, Copy, PartialEq, Eq, Structural)]
pub enum DerivationError {
    /// The child index is not a valid non-hardened child number.
    InvalidIndex,
    /// The underlying elliptic-curve arithmetic rejected the key.
    CurveFailure,
}

/// Why one balance query did not produce a balance.
#[derive(Debug, Clone, Copy, PartialEq, Eq, Structural)]
pub enum FailureReason {
    /// The provider answered with a non-success HTTP status.
    HttpStatus(u16),
    /// The response body carried the provider's rate-limit marker.
    RateLimitMarker,
    /// The response body could not be read as the expected balance shape.
    MalformedBody,
    /// The request never produced a response.
    Transport,
}

/// Failure of the balance-query layer.
///
/// Only `Transient` failures drive provider alternation and backoff;
/// a `Fatal` failure aborts immediately. Exhausting every round
/// becomes `AllProvidersExhausted`, itself treated as transient at the
/// page level.
#[derive(Debug, Clone, Copy, PartialEq, Eq, Structural)]
pub enum QueryError {
    Transient(FailureReason),
    Fatal(FailureReason),
    AllProvidersExhausted,
}

} // verus!
