//! Paginated address discovery over the two derivation chains.
//!
//! A caller asks for a flat index range `[start, end)` out of a fixed
//! discovery horizon of 46 external and 12 change addresses. The flat
//! space interleaves the chains in index order — ten external slots,
//! then one change slot, per block — and compacts once a chain's
//! bound is reached, so every flat index below 58 names exactly one
//! coordinate. The engine derives each address in order and asks the
//! caller to fetch its balance; failures stop the page early and keep
//! whatever was already found, and `has_more` tells the caller
//! whether indices past `end` remain inside the horizon.

use vstd::prelude::*;

use crate::derive::{derive_address, path_string, spec_derive_address, spec_path};
use crate::errors::{DerivationError, QueryError};
use crate::keys::{Chain, DerivationCoordinate, ExtendedPublicKey};

verus! {

/// How many external (receiving) addresses discovery covers.
pub const EXTERNAL_BOUND: usize = 46;

/// How many change addresses discovery covers.
pub const CHANGE_BOUND: usize = 12;

/// The whole discovery horizon: both chains together.
pub const TOTAL_BOUND: usize = 58;

/// The coordinate a flat discovery index names.
///
/// Blocks of eleven — ten external, one change — until the 44th flat
/// index, by which point external indices have reached 40 and change
/// indices 4; then the remaining six external addresses, the fifth
/// change address, and the remaining seven change addresses.
pub open spec fn spec_coord_at(i: int) -> DerivationCoordinate {
    if i < 44 {
        if i % 11 < 10 {
            DerivationCoordinate { chain: Chain::External, index: ((i / 11) * 10 + i % 11) as u32 }
        } else {
            DerivationCoordinate { chain: Chain::Change, index: (i / 11) as u32 }
        }
    } else if i < 50 {
        DerivationCoordinate { chain: Chain::External, index: (i - 4) as u32 }
    } else if i == 50 {
        DerivationCoordinate { chain: Chain::Change, index: 4u32 }
    } else {
        DerivationCoordinate { chain: Chain::Change, index: (i - 46) as u32 }
    }
}

/// Every flat index inside the horizon names a coordinate inside its
/// chain's bound — and thereby a valid non-hardened child.
pub proof fn lemma_coord_at_in_bounds(i: int)
    requires
        0 <= i < TOTAL_BOUND,
    ensures
        spec_coord_at(i).spec_valid(),
        spec_coord_at(i).chain is External ==> spec_coord_at(i).index < EXTERNAL_BOUND,
        spec_coord_at(i).chain is Change ==> spec_coord_at(i).index < CHANGE_BOUND,
{
}

/// The coordinate a flat discovery index names.
pub fn coord_at(i: usize) -> (r: DerivationCoordinate)
    requires
        i < TOTAL_BOUND,
    ensures
        r == spec_coord_at(i as int),
{
    if i < 44 {
        let block = i / 11;
        let pos = i % 11;
        if pos < 10 {
            DerivationCoordinate { chain: Chain::External, index: (block * 10 + pos) as u32 }
        } else {
            DerivationCoordinate { chain: Chain::Change, index: block as u32 }
        }
    } else if i < 50 {
        DerivationCoordinate { chain: Chain::External, index: (i - 4) as u32 }
    } else if i == 50 {
        DerivationCoordinate { chain: Chain::Change, index: 4 }
    } else {
        DerivationCoordinate { chain: Chain::Change, index: (i - 46) as u32 }
    }
}

/// One discovered address with its balance: the derived address, the
/// balance in satoshis, and the canonical derivation path
/// `m/<chain>/<index>` it sits at. Never mutated once created.
#[derive(Debug, Clone)]
pub struct AddressBalance {
    pub address: String,
    pub balance_sats: u64,
    pub derivation_path: String,
}

/// The flat index range `[start_index, end_index)` a caller asks for.
#[derive(Debug, Clone, Copy, PartialEq, Eq, Structural)]
pub struct PageRequest {
    pub start_index: usize,
    pub end_index: usize,
}

/// What one page of discovery produced: the balances found, in
/// derivation order, and whether indices past the requested end still
/// lie inside the discovery horizon.
#[derive(Debug)]
pub struct PageResult {
    pub balances: Vec<AddressBalance>,
    pub has_more: bool,
}

/// Why a page produced no result at all. Failures after the first
/// result never become this: the page keeps its partial results
/// instead.
#[derive(Debug, Clone, Copy, PartialEq, Eq, Structural)]
pub enum PageError {
    /// Derivation failed on the first address of the page.
    Derivation(DerivationError),
    /// The balance query failed fatally on the first address.
    Query(QueryError),
}

/// One derived address the caller is asked to fetch a balance for.
#[derive(Debug)]
pub struct AddressQuery {
    pub address: String,
    pub derivation_path: String,
}

/// Where the page's processing actually ends: the requested end,
/// clipped to the discovery horizon.
pub open spec fn spec_page_limit(page: PageRequest) -> int {
    if page.end_index <= TOTAL_BOUND {
        page.end_index as int
    } else {
        TOTAL_BOUND as int
    }
}

/// How many coordinates the page covers.
pub open spec fn spec_page_count(page: PageRequest) -> int {
    if (page.start_index as int) < spec_page_limit(page) {
        spec_page_limit(page) - page.start_index
    } else {
        0
    }
}

/// Whether addresses past the requested end remain inside the
/// discovery horizon.
pub open spec fn spec_has_more(page: PageRequest) -> bool {
    page.end_index < TOTAL_BOUND
}

/// What a discovered record at flat index `i` must hold: the address
/// the curve library derives there, and the canonical path string.
pub open spec fn spec_record_matches(
    key: ExtendedPublicKey,
    i: int,
    rec: AddressBalance,
) -> bool {
    let coord = spec_coord_at(i);
    spec_derive_address(key, coord) == Some(rec.address@) && rec.derivation_path@ == spec_path(
        coord.chain.spec_number(),
        coord.index,
    )
}

/// One page of discovery in flight: the engine's decisions, with the
/// waits and network exchanges left to the caller. The session hands
/// out one derived address at a time and absorbs the query's outcome;
/// it stops early on failure and keeps what it has.
pub struct DiscoverySession {
    key: ExtendedPublicKey,
    start_index: usize,
    end_index: usize,
    cursor: usize,
    balances: Vec<AddressBalance>,
    pending: Option<AddressQuery>,
    stopped: bool,
}

impl DiscoverySession {
    /// The key the session derives from.
    pub closed spec fn spec_key(self) -> ExtendedPublicKey {
        self.key
    }

    /// The requested start of the flat range.
    pub closed spec fn spec_start(self) -> int {
        self.start_index as int
    }

    /// The requested end of the flat range.
    pub closed spec fn spec_end(self) -> int {
        self.end_index as int
    }

    /// The page request the session was opened for.
    pub open spec fn spec_page(self) -> PageRequest {
        PageRequest {
            start_index: self.spec_start() as usize,
            end_index: self.spec_end() as usize,
        }
    }

    /// The next flat index the session will hand out.
    pub closed spec fn spec_cursor(self) -> int {
        self.cursor as int
    }

    /// The balances found so far, in derivation order.
    pub closed spec fn spec_balances(self) -> Seq<AddressBalance> {
        self.balances@
    }

    /// Whether the session stopped early and hands out nothing more.
    pub closed spec fn spec_stopped(self) -> bool {
        self.stopped
    }

    /// The query handed out and not yet answered, if any.
    pub closed spec fn spec_pending(self) -> Option<AddressQuery> {
        self.pending
    }

    /// Where the session's processing ends.
    pub open spec fn spec_limit(self) -> int {
        spec_page_limit(self.spec_page())
    }

    /// What every reachable session state satisfies: the cursor walks
    /// from start to the clipped end, every balance found so far
    /// carries the derived address and canonical path of its flat
    /// index, and an unanswered query matches the cursor's coordinate.
    pub open spec fn inv(self) -> bool {
        &&& if self.spec_start() <= self.spec_limit() {
            self.spec_start() <= self.spec_cursor() <= self.spec_limit()
        } else {
            self.spec_cursor() == self.spec_start()
        }
        &&& self.spec_balances().len() == self.spec_cursor() - self.spec_start()
        &&& forall|j: int|
            0 <= j < self.spec_balances().len() ==> spec_record_matches(
                self.spec_key(),
                self.spec_start() + j,
                #[trigger] self.spec_balances()[j],
            )
        &&& match self.spec_pending() {
            Some(q) => {
                &&& !self.spec_stopped()
                &&& self.spec_cursor() < self.spec_limit()
                &&& spec_derive_address(self.spec_key(), spec_coord_at(self.spec_cursor()))
                    == Some(q.address@)
                &&& q.derivation_path@ == spec_path(
                    spec_coord_at(self.spec_cursor()).chain.spec_number(),
                    spec_coord_at(self.spec_cursor()).index,
                )
            },
            None => true,
        }
    }

    /// Opens a page: nothing found yet, cursor at the requested start.
    pub fn new(key: ExtendedPublicKey, page: PageRequest) -> (r: DiscoverySession)
        ensures
            r.inv(),
            r.spec_key() == key,
            r.spec_start() == page.start_index,
            r.spec_end() == page.end_index,
            r.spec_cursor() == page.start_index,
            r.spec_balances() =~= Seq::<AddressBalance>::empty(),
            r.spec_pending() is None,
            !r.spec_stopped(),
    {
        DiscoverySession {
            key,
            start_index: page.start_index,
            end_index: page.end_index,
            cursor: page.start_index,
            balances: Vec::new(),
            pending: None,
            stopped: false,
        }
    }

    /// Hands out the next address to query, or says the page is done.
    ///
    /// `Ok(Some(query))` asks the caller to fetch a balance and
    /// answer through [`Self::provide_balance`] or
    /// [`Self::fail_query`]. `Ok(None)` says the page is complete or
    /// stopped. A derivation failure on the first address is the
    /// page's failure, `Err`; after any result it merely stops the
    /// page, keeping the partial results.
    pub fn next_query(&mut self) -> (r: Result<Option<AddressQuery>, DerivationError>)
        requires
            old(self).inv(),
            old(self).spec_pending() is None,
        ensures
            final(self).inv(),
            final(self).spec_key() == old(self).spec_key(),
            final(self).spec_start() == old(self).spec_start(),
            final(self).spec_end() == old(self).spec_end(),
            final(self).spec_balances() == old(self).spec_balances(),
            final(self).spec_cursor() == old(self).spec_cursor(),
            old(self).spec_stopped() || old(self).spec_cursor() >= old(self).spec_limit() ==> (r
                matches Ok(q) && q is None && *final(self) == *old(self)),
            !old(self).spec_stopped() && old(self).spec_cursor() < old(self).spec_limit()
                ==> match spec_derive_address(
                old(self).spec_key(),
                spec_coord_at(old(self).spec_cursor()),
            ) {
                Some(a) => {
                    &&& r matches Ok(q)
                    &&& q matches Some(query)
                    &&& query.address@ == a
                    &&& query.derivation_path@ == spec_path(
                        spec_coord_at(old(self).spec_cursor()).chain.spec_number(),
                        spec_coord_at(old(self).spec_cursor()).index,
                    )
                    &&& final(self).spec_pending() matches Some(p) && p.address@ == a
                    &&& !final(self).spec_stopped()
                },
                None => {
                    &&& final(self).spec_stopped()
                    &&& final(self).spec_pending() is None
                    &&& if old(self).spec_balances().len() == 0 {
                        r == Err::<Option<AddressQuery>, DerivationError>(
                            DerivationError::CurveFailure,
                        )
                    } else {
                        r matches Ok(q) && q is None
                    }
                },
            },
    {
        if self.stopped || self.cursor >= self.end_index || self.cursor >= TOTAL_BOUND {
            return Ok(None);
        }
        let coord = coord_at(self.cursor);
        proof {
            lemma_coord_at_in_bounds(self.cursor as int);
        }
        let path = path_string(coord);
        match derive_address(&self.key, coord) {
            Ok(address) => {
                let handed = AddressQuery { address: address.clone(), derivation_path: path.clone() };
                self.pending = Some(AddressQuery { address, derivation_path: path });
                Ok(Some(handed))
            },
            Err(e) => {
                self.stopped = true;
                if self.balances.len() == 0 {
                    Err(e)
                } else {
                    Ok(None)
                }
            },
        }
    }

    /// Absorbs a successful balance for the pending query: the record
    /// is appended and the cursor moves on.
    pub fn provide_balance(&mut self, sats: u64)
        requires
            old(self).inv(),
            old(self).spec_pending() is Some,
        ensures
            final(self).inv(),
            final(self).spec_key() == old(self).spec_key(),
            final(self).spec_start() == old(self).spec_start(),
            final(self).spec_end() == old(self).spec_end(),
            final(self).spec_cursor() == old(self).spec_cursor() + 1,
            final(self).spec_pending() is None,
            final(self).spec_stopped() == old(self).spec_stopped(),
            final(self).spec_balances().len() == old(self).spec_balances().len() + 1,
            final(self).spec_balances() =~= old(self).spec_balances().push(
                AddressBalance {
                    address: old(self).spec_pending().unwrap().address,
                    balance_sats: sats,
                    derivation_path: old(self).spec_pending().unwrap().derivation_path,
                },
            ),
    {
        let q = self.pending.take().unwrap();
        self.balances.push(
            AddressBalance {
                address: q.address,
                balance_sats: sats,
                derivation_path: q.derivation_path,
            },
        );
        self.cursor = self.cursor + 1;
    }

    /// Absorbs a failed balance query. A transient terminal failure —
    /// and any failure after the first result — stops the page and
    /// keeps the partial results; a fatal failure before any result
    /// is the page's failure and comes back to be propagated.
    pub fn fail_query(&mut self, err: QueryError) -> (r: Option<QueryError>)
        requires
            old(self).inv(),
            old(self).spec_pending() is Some,
        ensures
            final(self).inv(),
            final(self).spec_key() == old(self).spec_key(),
            final(self).spec_start() == old(self).spec_start(),
            final(self).spec_end() == old(self).spec_end(),
            final(self).spec_cursor() == old(self).spec_cursor(),
            final(self).spec_balances() == old(self).spec_balances(),
            final(self).spec_pending() is None,
            final(self).spec_stopped(),
            r == if (err matches QueryError::Fatal(_)) && old(self).spec_balances().len() == 0 {
                Some(err)
            } else {
                Option::<QueryError>::None
            },
    {
        let _ = self.pending.take();
        self.stopped = true;
        match err {
            QueryError::Fatal(_) => {
                if self.balances.len() == 0 {
                    Some(err)
                } else {
                    None
                }
            },
            _ => None,
        }
    }

    /// Closes the session and returns the page: everything found, in
    /// order, and whether the horizon extends past the requested end.
    pub fn finish(self) -> (r: PageResult)
        requires
            self.inv(),
        ensures
            r.balances@ == self.spec_balances(),
            r.has_more == spec_has_more(self.spec_page()),
    {
        let has_more = self.end_index < TOTAL_BOUND;
        PageResult { balances: self.balances, has_more }
    }
}

/// Runs one whole page of discovery against balance outcomes the
/// caller has already resolved, one per queried address in order:
/// the engine's decisions — interleaving, early stop, partial
/// results, page-level failure — with the network left out.
///
/// The `j`-th entry of `outcomes` answers the page's `j`-th address:
/// a balance in satoshis, or the failure the query layer resolved to.
pub fn discover_page_from_outcomes(
    key: ExtendedPublicKey,
    page: PageRequest,
    outcomes: &Vec<Result<u64, QueryError>>,
) -> (r: Result<PageResult, PageError>)
    requires
        outcomes@.len() >= spec_page_count(page),
    ensures
        spec_page_count(page) == 0 ==> (r matches Ok(p) && p.balances@.len() == 0 && p.has_more
            == spec_has_more(page)),
        spec_page_count(page) > 0 && spec_derive_address(
            key,
            spec_coord_at(page.start_index as int),
        ) is None ==> r == Err::<PageResult, PageError>(
            PageError::Derivation(DerivationError::CurveFailure),
        ),
        spec_page_count(page) > 0 && spec_derive_address(
            key,
            spec_coord_at(page.start_index as int),
        ) is Some && (outcomes@[0] matches Err(QueryError::Fatal(_))) ==> r == Err::<
            PageResult,
            PageError,
        >(PageError::Query(outcomes@[0]->Err_0)),
        r matches Err(e) ==> spec_page_count(page) > 0 && match e {
            PageError::Derivation(de) => de == DerivationError::CurveFailure
                && spec_derive_address(key, spec_coord_at(page.start_index as int)) is None,
            PageError::Query(qe) => (qe matches QueryError::Fatal(_)) && outcomes@[0] == Err::<
                u64,
                QueryError,
            >(qe) && spec_derive_address(key, spec_coord_at(page.start_index as int)) is Some,
        },
        r matches Ok(p) ==> {
            &&& p.has_more == spec_has_more(page)
            &&& p.balances@.len() <= spec_page_count(page)
            &&& forall|i: int|
                0 <= i < p.balances@.len() ==> spec_record_matches(
                    key,
                    page.start_index + i,
                    #[trigger] p.balances@[i],
                )
            &&& forall|i: int|
                0 <= i < p.balances@.len() ==> (#[trigger] outcomes@[i] matches Ok(s)
                    && p.balances@[i].balance_sats == s)
            &&& p.balances@.len() < spec_page_count(page) ==> (spec_derive_address(
                key,
                spec_coord_at(page.start_index + p.balances@.len()),
            ) is None || outcomes@[p.balances@.len() as int] is Err)
        },
{
    let mut session = DiscoverySession::new(key, page);
    let mut j: usize = 0;
    loop
        invariant_except_break
            !session.spec_stopped(),
        invariant
            session.inv(),
            session.spec_pending() is None,
            session.spec_key() == key,
            session.spec_start() == page.start_index,
            session.spec_end() == page.end_index,
            j == session.spec_balances().len(),
            session.spec_cursor() == page.start_index + j,
            outcomes@.len() >= spec_page_count(page),
            forall|i: int|
                0 <= i < j ==> (#[trigger] outcomes@[i] matches Ok(s)
                    && session.spec_balances()[i].balance_sats == s),
        ensures
            j == spec_page_count(page) || (j < spec_page_count(page) && ((j > 0
                && spec_derive_address(key, spec_coord_at(page.start_index + j)) is None) || (
            spec_derive_address(key, spec_coord_at(page.start_index + j)) is Some
                && outcomes@[j as int] is Err && !((outcomes@[j as int] matches Err(
                QueryError::Fatal(_),
            )) && j == 0)))),
        decreases spec_page_count(page) - j,
    {
        match session.next_query() {
            Err(e) => {
                return Err(PageError::Derivation(e));
            },
            Ok(None) => {
                break;
            },
            Ok(Some(_query)) => {
                let outcome = outcomes[j];
                match outcome {
                    Ok(sats) => {
                        session.provide_balance(sats);
                        j = j + 1;
                    },
                    Err(qe) => {
                        match session.fail_query(qe) {
                            Some(fatal) => {
                                return Err(PageError::Query(fatal));
                            },
                            None => {
                                break;
                            },
                        }
                    },
                }
            },
        }
    }
    proof {
        assert(session.spec_page() == page);
        if spec_page_count(page) > 0 && j > 0 {
            assert(spec_record_matches(key, page.start_index + 0, session.spec_balances()[0]));
        }
    }
    Ok(session.finish())
}

/// The pagination bound: a page signals more addresses exactly while
/// its requested end lies inside the 58-slot horizon, and a page that
/// starts at or past the horizon covers nothing.
pub proof fn lemma_pagination_bound(page: PageRequest)
    ensures
        spec_has_more(page) <==> page.end_index < EXTERNAL_BOUND + CHANGE_BOUND,
        page.start_index >= TOTAL_BOUND ==> spec_page_count(page) == 0,
        spec_page_count(page) <= TOTAL_BOUND,
{
}

/// The sum of the balances found so far, in satoshis.
pub open spec fn spec_total_sats(s: Seq<AddressBalance>) -> int
    decreases s.len(),
{
    if s.len() == 0 {
        0
    } else {
        spec_total_sats(s.drop_last()) + s.last().balance_sats
    }
}

/// Adds up a list of discovered balances; the wide result cannot
/// overflow.
pub fn total_balance_sats(balances: &Vec<AddressBalance>) -> (r: u128)
    ensures
        r == spec_total_sats(balances@),
{
    let mut r: u128 = 0;
    let mut i: usize = 0;
    while i < balances.len()
        invariant
            i <= balances@.len(),
            r == spec_total_sats(balances@.take(i as int)),
            r <= i * 0xffff_ffff_ffff_ffffu64,
        decreases balances@.len() - i,
    {
        proof {
            assert(balances@.take((i + 1) as int).drop_last() =~= balances@.take(i as int));
            assert(balances@.take((i + 1) as int).last() == balances@[i as int]);
            assert((i + 1) * 0xffff_ffff_ffff_ffffu64 == i * 0xffff_ffff_ffff_ffffu64
                + 0xffff_ffff_ffff_ffffu64) by (nonlinear_arith);
            assert(i * 0xffff_ffff_ffff_ffffu64 <= usize::MAX * 0xffff_ffff_ffff_ffffu64)
                by (nonlinear_arith)
                requires i <= usize::MAX,
            ;
        }
        r = r + balances[i].balance_sats as u128;
        i = i + 1;
    }
    proof {
        assert(balances@.take(balances@.len() as int) =~= balances@);
    }
    r
}

} // verus!
