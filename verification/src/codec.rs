//! Normalization of extended-public-key strings.
//!
//! An `xpub` is taken as a mainnet key and validated as it stands. A
//! `vpub` is structurally a testnet key whose four version bytes the
//! standard decoder does not accept; it is remapped to the equivalent
//! `tpub`: decode with checksum verification, keep the 74 bytes of
//! key material after the version prefix, put the `tpub` version in
//! front, recompute the double-SHA-256 checksum, and re-encode. A
//! prefix substitution with a checksum, not a cryptographic change.

use vstd::prelude::*;
use vstd::string::StrSliceExecFns;

use crate::errors::ParseError;
use crate::keys::{ExtendedPublicKey, Network};

verus! {

/// The digest that double-hashing bases the checksum on, as the
/// SHA-256 implementation computes it.
pub uninterp spec fn sha256_of(data: Seq<u8>) -> Seq<u8>;

/// The payload a base58check string decodes to — checksum verified
/// and removed — or `None` where the string is not valid base58 or
/// the checksum does not match.
pub uninterp spec fn base58check_decode_of(s: Seq<char>) -> Option<Seq<u8>>;

/// The base58 rendering of a byte string.
pub uninterp spec fn base58_encode_of(data: Seq<u8>) -> Seq<char>;

/// Relies on `bitcoin::hashes::sha256`: the 32-byte digest is a
/// function of the input bytes alone.
#[verifier::external_body]
fn sha256(data: &Vec<u8>) -> (r: Vec<u8>)
    ensures
        r@ == sha256_of(data@),
        r@.len() == 32,
{
    let h = <bitcoin::hashes::sha256::Hash as bitcoin::hashes::Hash>::hash(data.as_slice());
    <bitcoin::hashes::sha256::Hash as bitcoin::hashes::Hash>::to_byte_array(h).to_vec()
}

/// Relies on `bitcoin::base58::decode_check`: it returns the decoded
/// payload with its four checksum bytes verified against the double
/// SHA-256 of the payload and removed, and fails exactly on invalid
/// base58 or a checksum mismatch; the result is a function of the
/// string alone.
#[verifier::external_body]
fn base58check_decode(s: &str) -> (r: Option<Vec<u8>>)
    ensures
        r matches Some(v) ==> base58check_decode_of(s@) == Some(v@),
        r is None ==> base58check_decode_of(s@) is None,
{
    bitcoin::base58::decode_check(s).ok()
}

/// Relies on `bitcoin::base58::encode`: the rendering is a function
/// of the input bytes alone.
#[verifier::external_body]
fn base58_encode(data: &Vec<u8>) -> (r: String)
    ensures
        r@ == base58_encode_of(data@),
{
    bitcoin::base58::encode(data.as_slice())
}

/// A base58check checksum: the first four bytes of the double
/// SHA-256 of the payload.
pub open spec fn spec_checksum(data: Seq<u8>) -> Seq<u8> {
    let h = sha256_of(sha256_of(data));
    seq![h[0], h[1], h[2], h[3]]
}

/// The four version bytes that mark a `tpub`.
pub open spec fn spec_tpub_version() -> Seq<u8> {
    seq![0x04u8, 0x35u8, 0x87u8, 0xCFu8]
}

/// The 78-byte `tpub` payload built from a decoded `vpub` payload:
/// the `tpub` version bytes followed by the 74 bytes of key material
/// after the original version prefix.
pub open spec fn spec_tpub_payload(decoded: Seq<u8>) -> Seq<u8> {
    spec_tpub_version() + decoded.subrange(4, 78)
}

/// The full 82-byte buffer that is base58-encoded: the payload with
/// its freshly computed checksum appended.
pub open spec fn spec_tpub_bytes(decoded: Seq<u8>) -> Seq<u8> {
    spec_tpub_payload(decoded) + spec_checksum(spec_tpub_payload(decoded))
}

/// The `tpub` string a decoded `vpub` payload is remapped to.
pub open spec fn spec_vpub_to_tpub(decoded: Seq<u8>) -> Seq<char> {
    base58_encode_of(spec_tpub_bytes(decoded))
}

/// Whether `p` stands at the front of `s`.
pub open spec fn spec_has_prefix(s: Seq<char>, p: Seq<char>) -> bool {
    p.len() <= s.len() && s.subrange(0, p.len() as int) == p
}

/// The prefix that marks a mainnet extended public key.
pub open spec fn spec_xpub_prefix() -> Seq<char> {
    seq!['x', 'p', 'u', 'b']
}

/// The prefix that marks a testnet segwit extended public key.
pub open spec fn spec_vpub_prefix() -> Seq<char> {
    seq!['v', 'p', 'u', 'b']
}

/// The depth byte of a decoded 78-byte payload.
pub open spec fn spec_key_depth(d: Seq<u8>) -> u8 {
    d[4]
}

/// The parent fingerprint of a decoded payload.
pub open spec fn spec_key_fingerprint(d: Seq<u8>) -> Seq<u8> {
    d.subrange(5, 9)
}

/// The chain code of a decoded payload.
pub open spec fn spec_key_chain_code(d: Seq<u8>) -> Seq<u8> {
    d.subrange(13, 45)
}

/// The compressed public key of a decoded payload.
pub open spec fn spec_key_pubkey(d: Seq<u8>) -> Seq<u8> {
    d.subrange(45, 78)
}

/// What a successfully normalized key must hold: the given network
/// and key string, and the plain fields read out of the decoded
/// payload `d`.
pub open spec fn spec_key_matches(
    key: ExtendedPublicKey,
    network: Network,
    key_string: Seq<char>,
    d: Seq<u8>,
) -> bool {
    key.spec_network() == network && key.spec_key_string() == key_string && key.spec_depth()
        == spec_key_depth(d) && key.spec_parent_fingerprint() == spec_key_fingerprint(d)
        && key.spec_chain_code() == spec_key_chain_code(d) && key.spec_public_key()
        == spec_key_pubkey(d)
}

/// Whether the first four characters of `s` are `c0 c1 c2 c3`.
fn has_prefix4(s: &str, c0: char, c1: char, c2: char, c3: char) -> (r: bool)
    ensures
        r == spec_has_prefix(s@, seq![c0, c1, c2, c3]),
{
    let n = s.unicode_len();
    if n < 4 {
        proof {
            assert(!spec_has_prefix(s@, seq![c0, c1, c2, c3]));
        }
        return false;
    }
    let e0 = s.get_char(0);
    let e1 = s.get_char(1);
    let e2 = s.get_char(2);
    let e3 = s.get_char(3);
    let r = e0 == c0 && e1 == c1 && e2 == c2 && e3 == c3;
    proof {
        if r {
            assert(s@.subrange(0, 4) =~= seq![c0, c1, c2, c3]);
        } else {
            assert(s@.subrange(0, 4) != seq![c0, c1, c2, c3]) by {
                if s@.subrange(0, 4) == seq![c0, c1, c2, c3] {
                    assert(s@.subrange(0, 4)[0] == c0);
                    assert(s@.subrange(0, 4)[1] == c1);
                    assert(s@.subrange(0, 4)[2] == c2);
                    assert(s@.subrange(0, 4)[3] == c3);
                }
            }
        }
    }
    r
}

/// The bytes of `d` from `start` up to `end`, copied out.
fn copy_range(d: &Vec<u8>, start: usize, end: usize) -> (r: Vec<u8>)
    requires
        start <= end <= d@.len(),
    ensures
        r@ == d@.subrange(start as int, end as int),
{
    let mut r: Vec<u8> = Vec::new();
    let mut i: usize = start;
    while i < end
        invariant
            start <= i <= end <= d@.len(),
            r@ == d@.subrange(start as int, i as int),
        decreases end - i,
    {
        r.push(d[i]);
        proof {
            assert(r@ =~= d@.subrange(start as int, (i + 1) as int));
        }
        i = i + 1;
    }
    r
}

/// The first four bytes of the double SHA-256 of `data`.
fn checksum(data: &Vec<u8>) -> (r: Vec<u8>)
    ensures
        r@ == spec_checksum(data@),
        r@.len() == 4,
{
    let h1 = sha256(data);
    let h2 = sha256(&h1);
    let mut r: Vec<u8> = Vec::new();
    r.push(h2[0]);
    r.push(h2[1]);
    r.push(h2[2]);
    r.push(h2[3]);
    proof {
        assert(r@ =~= spec_checksum(data@));
    }
    r
}

/// Validates an extended-public-key string and normalizes it to the
/// form the derivation layer accepts.
///
/// An `xpub` is checked — base58check decode, at least 78 payload
/// bytes — and kept as it stands, a mainnet key. A `vpub` is checked
/// the same way and remapped to its `tpub` form, a testnet key. Any
/// other prefix is unsupported; a decode or checksum failure is an
/// encoding error; a short payload is a length error. Nothing here
/// touches the network.
pub fn normalize(input: &str) -> (r: Result<(Network, ExtendedPublicKey), ParseError>)
    ensures
        (!spec_has_prefix(input@, spec_xpub_prefix()) && !spec_has_prefix(
            input@,
            spec_vpub_prefix(),
        )) <==> r == Err::<(Network, ExtendedPublicKey), ParseError>(ParseError::UnsupportedFormat),
        spec_has_prefix(input@, spec_xpub_prefix()) ==> match base58check_decode_of(input@) {
            None => r == Err::<(Network, ExtendedPublicKey), ParseError>(
                ParseError::InvalidEncoding,
            ),
            Some(d) => if d.len() < 78 {
                r == Err::<(Network, ExtendedPublicKey), ParseError>(ParseError::InvalidLength)
            } else {
                r matches Ok(p) && p.0 == Network::Mainnet && spec_key_matches(
                    p.1,
                    Network::Mainnet,
                    input@,
                    d,
                ) && p.1.wf()
            },
        },
        spec_has_prefix(input@, spec_vpub_prefix()) ==> match base58check_decode_of(input@) {
            None => r == Err::<(Network, ExtendedPublicKey), ParseError>(
                ParseError::InvalidEncoding,
            ),
            Some(d) => if d.len() < 78 {
                r == Err::<(Network, ExtendedPublicKey), ParseError>(ParseError::InvalidLength)
            } else {
                r matches Ok(p) && p.0 == Network::Testnet && spec_key_matches(
                    p.1,
                    Network::Testnet,
                    spec_vpub_to_tpub(d),
                    d,
                ) && p.1.wf()
            },
        },
{
    let is_xpub = has_prefix4(input, 'x', 'p', 'u', 'b');
    let is_vpub = has_prefix4(input, 'v', 'p', 'u', 'b');
    if !is_xpub && !is_vpub {
        return Err(ParseError::UnsupportedFormat);
    }
    proof {
        if is_xpub && is_vpub {
            assert(spec_has_prefix(input@, spec_xpub_prefix()));
            assert(spec_has_prefix(input@, spec_vpub_prefix()));
            assert(input@.subrange(0, 4)[0] == 'x');
            assert(input@.subrange(0, 4)[0] == 'v');
            assert(false);
        }
    }
    let decoded = match base58check_decode(input) {
        Some(d) => d,
        None => {
            return Err(ParseError::InvalidEncoding);
        },
    };
    if decoded.len() < 78 {
        return Err(ParseError::InvalidLength);
    }
    let depth = decoded[4];
    let parent_fingerprint = copy_range(&decoded, 5, 9);
    let chain_code = copy_range(&decoded, 13, 45);
    let public_key = copy_range(&decoded, 45, 78);
    if is_xpub {
        let key_string = input.to_owned();
        let key = ExtendedPublicKey::from_parts(
            Network::Mainnet,
            key_string,
            depth,
            parent_fingerprint,
            chain_code,
            public_key,
        );
        Ok((Network::Mainnet, key))
    } else {
        let mut payload: Vec<u8> = Vec::new();
        payload.push(0x04);
        payload.push(0x35);
        payload.push(0x87);
        payload.push(0xCF);
        let mut material = copy_range(&decoded, 4, 78);
        payload.append(&mut material);
        proof {
            assert(payload@ =~= spec_tpub_payload(decoded@));
        }
        let mut check = checksum(&payload);
        payload.append(&mut check);
        proof {
            assert(payload@ =~= spec_tpub_bytes(decoded@));
        }
        let tpub = base58_encode(&payload);
        let key = ExtendedPublicKey::from_parts(
            Network::Testnet,
            tpub,
            depth,
            parent_fingerprint,
            chain_code,
            public_key,
        );
        Ok((Network::Testnet, key))
    }
}

/// The round trip a `vpub` remapping owes: the 82-byte buffer it
/// base58-encodes carries, in its last four bytes, exactly the
/// checksum of its first 78 — so decoding the checksum validates —
/// and opens with the `tpub` version bytes over the original key
/// material.
pub proof fn lemma_vpub_round_trip(decoded: Seq<u8>)
    requires
        decoded.len() >= 78,
    ensures
        spec_tpub_bytes(decoded).len() == 82,
        spec_tpub_bytes(decoded).subrange(0, 78) == spec_tpub_payload(decoded),
        spec_tpub_bytes(decoded).subrange(78, 82) == spec_checksum(
            spec_tpub_bytes(decoded).subrange(0, 78),
        ),
        spec_tpub_bytes(decoded).subrange(0, 4) == spec_tpub_version(),
        spec_tpub_bytes(decoded).subrange(4, 78) == decoded.subrange(4, 78),
{
    assert(spec_tpub_bytes(decoded).subrange(0, 78) =~= spec_tpub_payload(decoded));
    assert(spec_tpub_bytes(decoded).subrange(78, 82) =~= spec_checksum(spec_tpub_payload(decoded)));
    assert(spec_tpub_bytes(decoded).subrange(0, 4) =~= spec_tpub_version());
    assert(spec_tpub_bytes(decoded).subrange(4, 78) =~= decoded.subrange(4, 78));
}

} // verus!
