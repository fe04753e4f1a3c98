//! The validated key material the discovery engine works on.

use vstd::prelude::*;

verus! {

/// Which chain an extended key belongs to; it decides the address
/// encoding and which key prefix is acceptable.
#[derive(Debug, Clone, Copy, PartialEq, Eq, Structural)]
pub enum Network {
    Mainnet,
    Testnet,
}

/// The two derivation chains an account exposes.
#[derive(Debug, Clone, Copy, PartialEq, Eq, Structural)]
pub enum Chain {
    /// Receiving addresses, chain number 0.
    External,
    /// Change addresses, chain number 1.
    Change,
}

impl Chain {
    /// The chain's number in a derivation path.
    pub open spec fn spec_number(self) -> u32 {
        match self {
            Chain::External => 0,
            Chain::Change => 1,
        }
    }

    /// The chain's number in a derivation path.
    pub fn number(self) -> (r: u32)
        ensures
            r == self.spec_number(),
    {
        match self {
            Chain::External => 0,
            Chain::Change => 1,
        }
    }
}

/// One `(chain, index)` slot in the two-chain derivation space.
///
/// Only indices below `2^31` name non-hardened children; derivation
/// rejects anything larger, since hardened steps would need the
/// private key.
#[derive(Debug, Clone, Copy, PartialEq, Eq, Structural)]
pub struct DerivationCoordinate {
    pub chain: Chain,
    pub index: u32,
}

impl DerivationCoordinate {
    /// Whether the index names a non-hardened child.
    pub open spec fn spec_valid(self) -> bool {
        self.index < 0x8000_0000u32
    }
}

/// A validated extended public key: its network, the normalized
/// base58check string the curve library re-reads at derivation time,
/// and the plain fields of its 78-byte payload. Built only by
/// key-string normalization; immutable afterwards.
pub struct ExtendedPublicKey {
    network: Network,
    key_string: String,
    depth: u8,
    parent_fingerprint: Vec<u8>,
    chain_code: Vec<u8>,
    public_key: Vec<u8>,
}

impl ExtendedPublicKey {
    /// The network the key belongs to.
    pub closed spec fn spec_network(self) -> Network {
        self.network
    }

    /// The normalized key string: the `xpub` as given, or the `tpub`
    /// form a `vpub` was remapped to.
    pub closed spec fn spec_key_string(self) -> Seq<char> {
        self.key_string@
    }

    /// How many derivations the key is from its master.
    pub closed spec fn spec_depth(self) -> u8 {
        self.depth
    }

    /// The fingerprint of the parent key, four bytes.
    pub closed spec fn spec_parent_fingerprint(self) -> Seq<u8> {
        self.parent_fingerprint@
    }

    /// The chain code, thirty-two bytes.
    pub closed spec fn spec_chain_code(self) -> Seq<u8> {
        self.chain_code@
    }

    /// The compressed public key, thirty-three bytes.
    pub closed spec fn spec_public_key(self) -> Seq<u8> {
        self.public_key@
    }

    /// The field lengths the 78-byte payload layout fixes.
    pub open spec fn wf(self) -> bool {
        self.spec_parent_fingerprint().len() == 4 && self.spec_chain_code().len() == 32
            && self.spec_public_key().len() == 33
    }

    /// Assembles a key from already-validated parts; only the
    /// normalization path calls this.
    pub(crate) fn from_parts(
        network: Network,
        key_string: String,
        depth: u8,
        parent_fingerprint: Vec<u8>,
        chain_code: Vec<u8>,
        public_key: Vec<u8>,
    ) -> (r: ExtendedPublicKey)
        ensures
            r.spec_network() == network,
            r.spec_key_string() == key_string@,
            r.spec_depth() == depth,
            r.spec_parent_fingerprint() == parent_fingerprint@,
            r.spec_chain_code() == chain_code@,
            r.spec_public_key() == public_key@,
    {
        ExtendedPublicKey { network, key_string, depth, parent_fingerprint, chain_code, public_key }
    }

    /// The network the key belongs to.
    pub fn network(&self) -> (r: Network)
        ensures
            r == self.spec_network(),
    {
        self.network
    }

    /// The normalized key string.
    pub fn key_string(&self) -> (r: &str)
        ensures
            r@ == self.spec_key_string(),
    {
        self.key_string.as_str()
    }

    /// How many derivations the key is from its master.
    pub fn depth(&self) -> (r: u8)
        ensures
            r == self.spec_depth(),
    {
        self.depth
    }

    /// The fingerprint of the parent key.
    pub fn parent_fingerprint(&self) -> (r: &Vec<u8>)
        ensures
            r@ == self.spec_parent_fingerprint(),
    {
        &self.parent_fingerprint
    }

    /// The chain code.
    pub fn chain_code(&self) -> (r: &Vec<u8>)
        ensures
            r@ == self.spec_chain_code(),
    {
        &self.chain_code
    }

    /// The compressed public key.
    pub fn public_key(&self) -> (r: &Vec<u8>)
        ensures
            r@ == self.spec_public_key(),
    {
        &self.public_key
    }

    /// A second, equal key value, for callers that open several
    /// discovery sessions from one normalization.
    pub fn duplicate(&self) -> (r: ExtendedPublicKey)
        ensures
            r.spec_network() == self.spec_network(),
            r.spec_key_string() == self.spec_key_string(),
            r.spec_depth() == self.spec_depth(),
            r.spec_parent_fingerprint() == self.spec_parent_fingerprint(),
            r.spec_chain_code() == self.spec_chain_code(),
            r.spec_public_key() == self.spec_public_key(),
    {
        ExtendedPublicKey {
            network: self.network,
            key_string: self.key_string.clone(),
            depth: self.depth,
            parent_fingerprint: clone_bytes(&self.parent_fingerprint),
            chain_code: clone_bytes(&self.chain_code),
            public_key: clone_bytes(&self.public_key),
        }
    }
}

/// A byte-for-byte copy.
fn clone_bytes(v: &Vec<u8>) -> (r: Vec<u8>)
    ensures
        r@ == v@,
{
    let mut r: Vec<u8> = Vec::new();
    let mut i: usize = 0;
    while i < v.len()
        invariant
            i <= v@.len(),
            r@ == v@.subrange(0, i as int),
        decreases v@.len() - i,
    {
        r.push(v[i]);
        proof {
            assert(r@ =~= v@.subrange(0, (i + 1) as int));
        }
        i = i + 1;
    }
    proof {
        assert(v@.subrange(0, v@.len() as int) =~= v@);
    }
    r
}

} // verus!
