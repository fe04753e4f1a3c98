//! Normalization of one balance provider's reply.
//!
//! A provider is asked for the funded and spent totals of a single
//! address. The network exchange itself happens outside the library;
//! what comes back is reduced to a [`FetchOutcome`] of plain values,
//! and this module classifies it: a balance in satoshis on success, a
//! transient failure where the provider signalled its rate limit, a
//! fatal failure otherwise.

use vstd::prelude::*;
use vstd::string::StringExecFns;

use crate::errors::{FailureReason, QueryError};
use crate::keys::Network;

verus! {

/// The two balance sources the fallback policy alternates between.
#[derive(Debug, Clone, Copy, PartialEq, Eq, Structural)]
pub enum ProviderId {
    /// First choice for every network.
    Primary,
    /// Second choice, asked when the primary reported a transient failure.
    Secondary,
}

/// The cumulative satoshi totals a provider reports for an address.
#[derive(Debug, Clone, Copy, PartialEq, Eq, Structural)]
pub struct ChainTotals {
    /// Satoshis ever received by the address.
    pub funded: u64,
    /// Satoshis ever spent from the address.
    pub spent: u64,
}

/// Everything the classification reads out of one query attempt.
///
/// The caller performs the HTTP exchange and reduces it to these plain
/// values: the status code, whether the body carried the primary
/// provider's rate-limit marker, and the funded/spent satoshi totals
/// if the body parsed as the expected shape.
#[derive(Debug, Clone, Copy, PartialEq, Eq, Structural)]
pub enum FetchOutcome {
    /// A response arrived.
    Response {
        status: u16,
        rate_limit_marker: bool,
        funded_spent: Option<ChainTotals>,
    },
    /// The request produced no response at all.
    TransportFailure,
}

/// The balance an address holds, given its cumulative funded and
/// spent satoshi totals: `funded - spent`, floored at zero.
pub open spec fn spec_sat_balance(funded: int, spent: int) -> int {
    if funded - spent >= 0 {
        funded - spent
    } else {
        0
    }
}

/// An HTTP status in the 2xx range.
pub open spec fn spec_is_success_status(status: u16) -> bool {
    200 <= status < 300
}

/// The classification rule: only a provider's rate-limit signal is
/// transient. A non-success status is that signal for both providers;
/// the `exceeded` body marker counts only for the primary. A body
/// that does not parse, and a transport failure, are fatal.
pub open spec fn spec_classify(provider: ProviderId, outcome: FetchOutcome) -> Result<
    u64,
    QueryError,
> {
    match outcome {
        FetchOutcome::TransportFailure => Err(QueryError::Fatal(FailureReason::Transport)),
        FetchOutcome::Response { status, rate_limit_marker, funded_spent } => {
            if !spec_is_success_status(status) {
                Err(QueryError::Transient(FailureReason::HttpStatus(status)))
            } else {
                match funded_spent {
                    Some(totals) => Ok(
                        spec_sat_balance(totals.funded as int, totals.spent as int) as u64,
                    ),
                    None => {
                        if provider is Primary && rate_limit_marker {
                            Err(QueryError::Transient(FailureReason::RateLimitMarker))
                        } else {
                            Err(QueryError::Fatal(FailureReason::MalformedBody))
                        }
                    },
                }
            }
        },
    }
}

/// Computes the balance of an address from its cumulative totals,
/// floored at zero when more was spent than funded.
pub fn sat_balance(funded: u64, spent: u64) -> (r: u64)
    ensures
        r == spec_sat_balance(funded as int, spent as int),
{
    if funded >= spent {
        funded - spent
    } else {
        0
    }
}

/// Reduces one attempt's outcome to a balance or a classified failure.
pub fn classify_reply(provider: ProviderId, outcome: FetchOutcome) -> (r: Result<u64, QueryError>)
    ensures
        r == spec_classify(provider, outcome),
{
    match outcome {
        FetchOutcome::TransportFailure => Err(QueryError::Fatal(FailureReason::Transport)),
        FetchOutcome::Response { status, rate_limit_marker, funded_spent } => {
            if status < 200 || status >= 300 {
                Err(QueryError::Transient(FailureReason::HttpStatus(status)))
            } else {
                match funded_spent {
                    Some(totals) => Ok(sat_balance(totals.funded, totals.spent)),
                    None => {
                        if matches!(provider, ProviderId::Primary) && rate_limit_marker {
                            Err(QueryError::Transient(FailureReason::RateLimitMarker))
                        } else {
                            Err(QueryError::Fatal(FailureReason::MalformedBody))
                        }
                    },
                }
            }
        },
    }
}

/// Whatever the cumulative totals are, the computed balance is
/// `max(funded - spent, 0)` and so never negative, even when more was
/// spent than funded.
pub proof fn lemma_balance_never_negative(funded: int, spent: int)
    requires
        funded >= 0,
        spent >= 0,
    ensures
        spec_sat_balance(funded, spent) >= 0,
        spec_sat_balance(funded, spent) == if funded >= spent {
            funded - spent
        } else {
            0
        },
{
}

/// The base URL of a provider's address endpoint on a network.
pub open spec fn spec_endpoint_base(provider: ProviderId, network: Network) -> Seq<char> {
    match (provider, network) {
        (ProviderId::Primary, Network::Mainnet) => "https://blockstream.info/api"@,
        (ProviderId::Primary, Network::Testnet) => "https://blockstream.info/testnet/api"@,
        (ProviderId::Secondary, Network::Mainnet) => "https://mempool.space/api"@,
        (ProviderId::Secondary, Network::Testnet) => "https://mempool.space/testnet/api"@,
    }
}

/// The URL a provider is asked for one address's totals: its base
/// for the network, then `/address/`, then the address itself.
pub fn endpoint_url(provider: ProviderId, network: Network, address: &str) -> (r: String)
    ensures
        r@ == spec_endpoint_base(provider, network) + "/address/"@ + address@,
{
    let base: &str = match (provider, network) {
        (ProviderId::Primary, Network::Mainnet) => "https://blockstream.info/api",
        (ProviderId::Primary, Network::Testnet) => "https://blockstream.info/testnet/api",
        (ProviderId::Secondary, Network::Mainnet) => "https://mempool.space/api",
        (ProviderId::Secondary, Network::Testnet) => "https://mempool.space/testnet/api",
    };
    let mut url = base.to_owned();
    url.append("/address/");
    url.append(address);
    url
}

} // verus!
