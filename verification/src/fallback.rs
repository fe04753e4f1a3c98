//! Retry-with-backoff across alternating balance providers.
//!
//! A balance query gets up to three rounds. The provider alternates
//! by round index — primary, secondary, primary — and before each
//! retry round the caller waits an exponentially growing spell: two
//! seconds before the second round, four before the third. A
//! transient failure advances to the next round; a fatal failure
//! resolves at once; running out of rounds resolves to
//! [`QueryError::AllProvidersExhausted`].
//!
//! The driver only decides; the caller performs the waits and the
//! network exchanges and feeds each classified outcome back in.

use vstd::prelude::*;

use crate::errors::QueryError;
use crate::provider::ProviderId;

verus! {

/// How many query rounds one address gets before the policy gives up.
pub const MAX_ROUNDS: u32 = 3;

/// Which provider serves the given round: alternation by round index,
/// not by failure type.
pub open spec fn spec_provider_for_round(round: u32) -> ProviderId {
    if round % 2 == 0 {
        ProviderId::Primary
    } else {
        ProviderId::Secondary
    }
}

/// How long to wait before the given round, in milliseconds: nothing
/// before the first, then two seconds doubling to four.
pub open spec fn spec_backoff_ms(round: u32) -> u64 {
    if round == 0 {
        0
    } else if round == 1 {
        2000
    } else {
        4000
    }
}

/// One round the caller is asked to perform: which provider to query,
/// and how long to wait first.
#[derive(Debug, Clone, Copy, PartialEq, Eq, Structural)]
pub struct Attempt {
    pub provider: ProviderId,
    pub backoff_ms: u64,
}

/// The resolution of the whole policy over the per-round outcomes it
/// would consume, starting at `round`: the first success or fatal
/// failure wins, transient failures fall through to the next round,
/// and running out of rounds exhausts the policy.
pub open spec fn spec_resolve(outcomes: Seq<Result<u64, QueryError>>, round: nat) -> Result<
    u64,
    QueryError,
>
    decreases MAX_ROUNDS - round,
{
    if round >= MAX_ROUNDS || round >= outcomes.len() {
        Err(QueryError::AllProvidersExhausted)
    } else {
        match outcomes[round as int] {
            Ok(sats) => Ok(sats),
            Err(QueryError::Fatal(reason)) => Err(QueryError::Fatal(reason)),
            Err(_) => spec_resolve(outcomes, round + 1),
        }
    }
}

/// Drives one balance query through its rounds.
pub struct FallbackDriver {
    round: u32,
}

impl FallbackDriver {
    /// The round the driver stands at: how many transient failures it
    /// has absorbed so far.
    pub closed spec fn spec_round(self) -> u32 {
        self.round
    }

    /// Whether every round has been used up.
    pub open spec fn spec_exhausted(self) -> bool {
        self.spec_round() >= MAX_ROUNDS
    }

    /// A driver at its first round.
    pub fn new() -> (r: FallbackDriver)
        ensures
            r.spec_round() == 0,
    {
        FallbackDriver { round: 0 }
    }

    /// The round the caller should perform next — its provider and
    /// the wait owed before it — or `None` once the rounds are used up.
    pub fn next_attempt(&self) -> (r: Option<Attempt>)
        ensures
            self.spec_exhausted() ==> r is None,
            !self.spec_exhausted() ==> r == Some(
                Attempt {
                    provider: spec_provider_for_round(self.spec_round()),
                    backoff_ms: spec_backoff_ms(self.spec_round()),
                },
            ),
    {
        if self.round >= MAX_ROUNDS {
            None
        } else {
            let provider = if self.round % 2 == 0 {
                ProviderId::Primary
            } else {
                ProviderId::Secondary
            };
            let backoff_ms: u64 = if self.round == 0 {
                0
            } else if self.round == 1 {
                2000
            } else {
                4000
            };
            Some(Attempt { provider, backoff_ms })
        }
    }

    /// Absorbs the classified outcome of the current round. A success
    /// or a fatal failure resolves the query with that outcome; a
    /// transient failure advances to the next round, resolving to
    /// [`QueryError::AllProvidersExhausted`] when it was the last.
    pub fn absorb(&mut self, outcome: Result<u64, QueryError>) -> (r: Option<
        Result<u64, QueryError>,
    >)
        requires
            !old(self).spec_exhausted(),
            !(outcome matches Err(QueryError::AllProvidersExhausted)),
        ensures
            match outcome {
                Ok(sats) => r == Some(Result::<u64, QueryError>::Ok(sats))
                    && final(self).spec_round() == old(self).spec_round(),
                Err(QueryError::Fatal(reason)) => r == Some(
                    Result::<u64, QueryError>::Err(QueryError::Fatal(reason)),
                ) && final(self).spec_round() == old(self).spec_round(),
                Err(_) => final(self).spec_round() == old(self).spec_round() + 1 && r == (
                if old(self).spec_round() + 1 >= MAX_ROUNDS {
                    Some(Result::<u64, QueryError>::Err(QueryError::AllProvidersExhausted))
                } else {
                    None
                }),
            },
    {
        match outcome {
            Ok(sats) => Some(Ok(sats)),
            Err(QueryError::Fatal(reason)) => Some(Err(QueryError::Fatal(reason))),
            Err(_) => {
                self.round = self.round + 1;
                if self.round >= MAX_ROUNDS {
                    Some(Err(QueryError::AllProvidersExhausted))
                } else {
                    None
                }
            },
        }
    }
}

/// Resolves the whole policy against per-round outcomes supplied up
/// front, exactly as a caller driving [`FallbackDriver`] round by
/// round would: the composed retry behaviour with the waits left out.
pub fn resolve_with_fallback(outcomes: &Vec<Result<u64, QueryError>>) -> (r: Result<
    u64,
    QueryError,
>)
    requires
        forall|i: int|
            0 <= i < outcomes@.len() ==> !(#[trigger] outcomes@[i] matches Err(
                QueryError::AllProvidersExhausted,
            )),
    ensures
        r == spec_resolve(outcomes@, 0),
{
    let mut driver = FallbackDriver::new();
    let mut i: usize = 0;
    loop
        invariant
            driver.spec_round() == i as u32,
            i <= MAX_ROUNDS,
            forall|j: int|
                0 <= j < outcomes@.len() ==> !(#[trigger] outcomes@[j] matches Err(
                    QueryError::AllProvidersExhausted,
                )),
            spec_resolve(outcomes@, 0) == spec_resolve(outcomes@, i as nat),
        decreases MAX_ROUNDS - i,
    {
        if i >= MAX_ROUNDS as usize || i >= outcomes.len() {
            return Err(QueryError::AllProvidersExhausted);
        }
        let outcome = outcomes[i];
        match driver.absorb(outcome) {
            Some(resolution) => {
                proof {
                    if !(outcome is Ok) && !(outcome matches Err(QueryError::Fatal(_))) {
                        assert(spec_resolve(outcomes@, (i + 1) as nat) == Err::<u64, QueryError>(
                            QueryError::AllProvidersExhausted,
                        ));
                    }
                }
                return resolution;
            },
            None => {
                i = i + 1;
            },
        }
    }
}

/// The schedule the policy owes a query that keeps failing
/// transiently: providers alternate primary, secondary, primary, and
/// the waits before the three rounds are zero, two seconds, four
/// seconds.
pub proof fn lemma_backoff_schedule()
    ensures
        spec_provider_for_round(0) is Primary,
        spec_provider_for_round(1) is Secondary,
        spec_provider_for_round(2) is Primary,
        spec_backoff_ms(0) == 0,
        spec_backoff_ms(1) == 2000,
        spec_backoff_ms(2) == 4000,
{
}

} // verus!
