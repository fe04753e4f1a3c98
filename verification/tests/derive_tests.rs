//! Address derivation, checked against the bitcoin crate deriving the
//! same paths directly.

use wallet_balance::codec::normalize;
use wallet_balance::derive::{derive_address, path_string};
use wallet_balance::errors::DerivationError;
use wallet_balance::keys::{Chain, DerivationCoordinate};

const XPUB: &str = "xpub661MyMwAqRbcFtXgS5sYJABqqG9YLmC4Q1Rdap9gSE8NqtwybGhePY2gZ29ESFjqJoCu1Rupje8YtGqsefD265TMg7usUDFdp6W1EGMcet8";

/// What the bitcoin crate itself derives for `m/<chain>/<index>`.
fn expected_address(key: &str, testnet: bool, chain: u32, index: u32) -> String {
    let xpub = <bitcoin::bip32::Xpub as std::str::FromStr>::from_str(key).unwrap();
    let secp = bitcoin::secp256k1::Secp256k1::verification_only();
    let path = [
        bitcoin::bip32::ChildNumber::from_normal_idx(chain).unwrap(),
        bitcoin::bip32::ChildNumber::from_normal_idx(index).unwrap(),
    ];
    let derived = xpub.derive_pub(&secp, &path).unwrap();
    let network = if testnet { bitcoin::Network::Testnet } else { bitcoin::Network::Bitcoin };
    bitcoin::Address::p2wpkh(&derived.to_pub(), network).to_string()
}

#[test]
fn derivation_is_deterministic() {
    let (_, key) = normalize(XPUB).unwrap();
    let coord = DerivationCoordinate { chain: Chain::External, index: 7 };
    let a = derive_address(&key, coord).unwrap();
    let b = derive_address(&key, coord).unwrap();
    assert_eq!(a, b);
}

#[test]
fn derivation_matches_the_curve_library() {
    let (_, key) = normalize(XPUB).unwrap();
    let a00 = derive_address(&key, DerivationCoordinate { chain: Chain::External, index: 0 })
        .unwrap();
    assert_eq!(a00, expected_address(XPUB, false, 0, 0));
    assert!(a00.starts_with("bc1"));

    let a15 = derive_address(&key, DerivationCoordinate { chain: Chain::Change, index: 5 })
        .unwrap();
    assert_eq!(a15, expected_address(XPUB, false, 1, 5));
    assert_ne!(a00, a15);
}

#[test]
fn hardened_range_indices_are_rejected() {
    let (_, key) = normalize(XPUB).unwrap();
    let coord = DerivationCoordinate { chain: Chain::External, index: 0x8000_0000 };
    assert_eq!(derive_address(&key, coord).err(), Some(DerivationError::InvalidIndex));
    let coord_max = DerivationCoordinate { chain: Chain::External, index: u32::MAX };
    assert_eq!(derive_address(&key, coord_max).err(), Some(DerivationError::InvalidIndex));
}

#[test]
fn path_strings_are_canonical() {
    assert_eq!(
        path_string(DerivationCoordinate { chain: Chain::External, index: 0 }),
        "m/0/0"
    );
    assert_eq!(
        path_string(DerivationCoordinate { chain: Chain::External, index: 5 }),
        "m/0/5"
    );
    assert_eq!(
        path_string(DerivationCoordinate { chain: Chain::Change, index: 11 }),
        "m/1/11"
    );
    assert_eq!(
        path_string(DerivationCoordinate { chain: Chain::External, index: 1234567890 }),
        "m/0/1234567890"
    );
}

#[test]
fn testnet_keys_derive_testnet_addresses() {
    let decoded = bitcoin::base58::decode_check(XPUB).unwrap();
    let mut payload = vec![0x04, 0x5f, 0x1c, 0xf6];
    payload.extend_from_slice(&decoded[4..]);
    let vpub = bitcoin::base58::encode_check(&payload);
    let (_, key) = normalize(&vpub).unwrap();
    let addr = derive_address(&key, DerivationCoordinate { chain: Chain::External, index: 0 })
        .unwrap();
    assert!(addr.starts_with("tb1"));
    assert_eq!(addr, expected_address(key.key_string(), true, 0, 0));
}
