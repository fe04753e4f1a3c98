//! Deterministic address derivation at a `(chain, index)` coordinate.
//!
//! The path is always two non-hardened steps, `m/<chain>/<index>`:
//! only the public key is available, and hardened derivation would
//! need the private key. The elliptic-curve child-key arithmetic and
//! the segwit address encoding are the curve library's work; this
//! module owns the path construction, the index validation, and the
//! canonical path string.

use vstd::prelude::*;
use vstd::string::StringExecFns;

use crate::errors::DerivationError;
use crate::keys::{DerivationCoordinate, ExtendedPublicKey, Network};

verus! {

/// The digit character of one decimal digit.
pub open spec fn spec_digit_char(d: nat) -> char {
    if d == 0 {
        '0'
    } else if d == 1 {
        '1'
    } else if d == 2 {
        '2'
    } else if d == 3 {
        '3'
    } else if d == 4 {
        '4'
    } else if d == 5 {
        '5'
    } else if d == 6 {
        '6'
    } else if d == 7 {
        '7'
    } else if d == 8 {
        '8'
    } else {
        '9'
    }
}

/// The decimal rendering of a number, most significant digit first.
pub open spec fn spec_dec_digits(n: nat) -> Seq<char>
    decreases n,
{
    if n < 10 {
        seq![spec_digit_char(n)]
    } else {
        spec_dec_digits(n / 10) + seq![spec_digit_char(n % 10)]
    }
}

/// The canonical string form of a two-level derivation path,
/// `m/<chain>/<index>`.
pub open spec fn spec_path(chain_number: u32, index: u32) -> Seq<char> {
    seq!['m', '/'] + spec_dec_digits(chain_number as nat) + seq!['/'] + spec_dec_digits(
        index as nat,
    )
}

/// The address the curve library derives and encodes for the given
/// normalized key string, network, and non-hardened path
/// `m/<chain>/<index>` — a native segwit (p2wpkh) address — or `None`
/// where the key does not parse as an extended public key or the
/// child-key arithmetic fails.
pub uninterp spec fn derived_p2wpkh(key: Seq<char>, testnet: bool, chain: u32, index: u32) -> Option<
    Seq<char>,
>;

/// Relies on `bitcoin::bip32::Xpub::from_str`, `Xpub::derive_pub` and
/// `bitcoin::Address::p2wpkh`: parsing, public-only child derivation
/// and segwit address encoding are all functions of the key string,
/// the network and the path alone, with no randomness anywhere.
#[verifier::external_body]
fn derive_p2wpkh_raw(key: &str, testnet: bool, chain: u32, index: u32) -> (r: Option<String>)
    ensures
        r matches Some(s) ==> derived_p2wpkh(key@, testnet, chain, index) == Some(s@),
        r is None ==> derived_p2wpkh(key@, testnet, chain, index) is None,
{
    let xpub = <bitcoin::bip32::Xpub as std::str::FromStr>::from_str(key).ok()?;
    let path = [
        bitcoin::bip32::ChildNumber::from_normal_idx(chain).ok()?,
        bitcoin::bip32::ChildNumber::from_normal_idx(index).ok()?,
    ];
    let secp = bitcoin::secp256k1::Secp256k1::verification_only();
    let derived = xpub.derive_pub(&secp, &path).ok()?;
    let network = if testnet { bitcoin::Network::Testnet } else { bitcoin::Network::Bitcoin };
    let address = bitcoin::Address::p2wpkh(&derived.to_pub(), network);
    Some(format!("{}", address))
}

/// What derivation at a coordinate returns, at the specification
/// level: the curve library's address for the key's normalized string
/// and network.
pub open spec fn spec_derive_address(key: ExtendedPublicKey, coord: DerivationCoordinate) -> Option<
    Seq<char>,
> {
    derived_p2wpkh(
        key.spec_key_string(),
        key.spec_network() is Testnet,
        coord.chain.spec_number(),
        coord.index,
    )
}

/// Appends the decimal rendering of `n` to `s`.
fn append_decimal(s: &mut String, n: u32)
    ensures
        final(s)@ == old(s)@ + spec_dec_digits(n as nat),
    decreases n,
{
    if n >= 10 {
        append_decimal(s, n / 10);
    }
    let d = n % 10;
    let c: &str = if d == 0 {
        "0"
    } else if d == 1 {
        "1"
    } else if d == 2 {
        "2"
    } else if d == 3 {
        "3"
    } else if d == 4 {
        "4"
    } else if d == 5 {
        "5"
    } else if d == 6 {
        "6"
    } else if d == 7 {
        "7"
    } else if d == 8 {
        "8"
    } else {
        "9"
    };
    proof {
        reveal_strlit("0");
        reveal_strlit("1");
        reveal_strlit("2");
        reveal_strlit("3");
        reveal_strlit("4");
        reveal_strlit("5");
        reveal_strlit("6");
        reveal_strlit("7");
        reveal_strlit("8");
        reveal_strlit("9");
        assert(c@ =~= seq![spec_digit_char((n % 10) as nat)]);
    }
    s.append(c);
    proof {
        if n < 10 {
            assert(spec_dec_digits(n as nat) =~= seq![spec_digit_char((n % 10) as nat)]);
        } else {
            assert(spec_dec_digits(n as nat) =~= spec_dec_digits((n / 10) as nat) + seq![
                spec_digit_char((n % 10) as nat),
            ]);
        }
    }
}

/// The canonical path string `m/<chain>/<index>` of a coordinate.
pub fn path_string(coord: DerivationCoordinate) -> (r: String)
    ensures
        r@ == spec_path(coord.chain.spec_number(), coord.index),
{
    let mut s = String::new();
    proof {
        reveal_strlit("m/");
        reveal_strlit("/");
    }
    s.append("m/");
    append_decimal(&mut s, coord.chain.number());
    s.append("/");
    append_decimal(&mut s, coord.index);
    proof {
        assert(s@ =~= spec_path(coord.chain.spec_number(), coord.index));
    }
    s
}

/// Derives the native segwit address at `coord` for a normalized key.
///
/// Rejects an index that is not a valid non-hardened child number;
/// surfaces — never panics on — a failure of the underlying curve
/// arithmetic. For fixed inputs the result is always the same
/// address.
pub fn derive_address(key: &ExtendedPublicKey, coord: DerivationCoordinate) -> (r: Result<
    String,
    DerivationError,
>)
    ensures
        !coord.spec_valid() <==> r == Err::<String, DerivationError>(DerivationError::InvalidIndex),
        coord.spec_valid() ==> match spec_derive_address(*key, coord) {
            Some(a) => r matches Ok(s) && s@ == a,
            None => r == Err::<String, DerivationError>(DerivationError::CurveFailure),
        },
{
    if coord.index >= 0x8000_0000 {
        return Err(DerivationError::InvalidIndex);
    }
    let testnet = matches!(key.network(), Network::Testnet);
    match derive_p2wpkh_raw(key.key_string(), testnet, coord.chain.number(), coord.index) {
        Some(address) => Ok(address),
        None => Err(DerivationError::CurveFailure),
    }
}

/// Derivation is deterministic: two calls on equal key material and
/// equal coordinates name the same address — there is no randomness
/// anywhere on this path.
pub proof fn lemma_derive_deterministic(
    key1: ExtendedPublicKey,
    key2: ExtendedPublicKey,
    coord1: DerivationCoordinate,
    coord2: DerivationCoordinate,
)
    requires
        key1.spec_key_string() == key2.spec_key_string(),
        key1.spec_network() == key2.spec_network(),
        coord1 == coord2,
    ensures
        spec_derive_address(key1, coord1) == spec_derive_address(key2, coord2),
{
}

} // verus!
