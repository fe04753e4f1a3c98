//! Normalization of xpub/vpub strings, checked against the bitcoin
//! crate's own base58check coder.

use wallet_balance::codec::normalize;
use wallet_balance::errors::ParseError;
use wallet_balance::keys::Network;

/// Master key of a well-known derivation test vector.
const XPUB: &str = "xpub661MyMwAqRbcFtXgS5sYJABqqG9YLmC4Q1Rdap9gSE8NqtwybGhePY2gZ29ESFjqJoCu1Rupje8YtGqsefD265TMg7usUDFdp6W1EGMcet8";

const VPUB_VERSION: [u8; 4] = [0x04, 0x5f, 0x1c, 0xf6];
const TPUB_VERSION: [u8; 4] = [0x04, 0x35, 0x87, 0xcf];

/// The same key material as `XPUB`, re-encoded under the `vpub`
/// version bytes.
fn test_vpub() -> String {
    let decoded = bitcoin::base58::decode_check(XPUB).unwrap();
    assert_eq!(decoded.len(), 78);
    let mut payload = VPUB_VERSION.to_vec();
    payload.extend_from_slice(&decoded[4..]);
    let vpub = bitcoin::base58::encode_check(&payload);
    assert!(vpub.starts_with("vpub"));
    vpub
}

#[test]
fn unsupported_prefix_is_rejected() {
    let r = normalize("ypub1234");
    assert_eq!(r.err(), Some(ParseError::UnsupportedFormat));
}

#[test]
fn empty_and_short_strings_are_unsupported() {
    assert_eq!(normalize("").err(), Some(ParseError::UnsupportedFormat));
    assert_eq!(normalize("xpu").err(), Some(ParseError::UnsupportedFormat));
    assert_eq!(normalize("zpub6666").err(), Some(ParseError::UnsupportedFormat));
}

#[test]
fn bad_base58_is_invalid_encoding() {
    // `0`, `O`, `I` and `l` are not base58 characters.
    assert_eq!(normalize("xpub0OIl").err(), Some(ParseError::InvalidEncoding));
    // Valid characters, wrong checksum.
    assert_eq!(
        normalize("xpub111111111111111111").err(),
        Some(ParseError::InvalidEncoding)
    );
}

#[test]
fn short_payload_is_invalid_length() {
    // Re-checksum a truncation of a real key: the leading characters
    // survive, the payload is far shorter than 78 bytes.
    let truncated: String = XPUB.chars().take(40).collect();
    let bytes = bitcoin::base58::decode(&truncated).unwrap();
    let payload = &bytes[..bytes.len() - 4];
    let short = bitcoin::base58::encode_check(payload);
    assert!(short.starts_with("xpub"));
    assert_eq!(normalize(&short).err(), Some(ParseError::InvalidLength));
}

#[test]
fn valid_xpub_is_mainnet_and_kept() {
    let (network, key) = normalize(XPUB).unwrap();
    assert_eq!(network, Network::Mainnet);
    assert_eq!(key.network(), Network::Mainnet);
    assert_eq!(key.key_string(), XPUB);

    let decoded = bitcoin::base58::decode_check(XPUB).unwrap();
    assert_eq!(key.depth(), decoded[4]);
    assert_eq!(key.parent_fingerprint().as_slice(), &decoded[5..9]);
    assert_eq!(key.chain_code().as_slice(), &decoded[13..45]);
    assert_eq!(key.public_key().as_slice(), &decoded[45..78]);
    // A master key: depth zero, parent fingerprint zero.
    assert_eq!(key.depth(), 0);
    assert_eq!(key.parent_fingerprint().as_slice(), &[0u8; 4]);
}

#[test]
fn vpub_is_remapped_to_the_equivalent_tpub() {
    let vpub = test_vpub();
    let (network, key) = normalize(&vpub).unwrap();
    assert_eq!(network, Network::Testnet);

    // The expected tpub, built independently with the bitcoin crate's
    // own checksummed encoder.
    let decoded = bitcoin::base58::decode_check(XPUB).unwrap();
    let mut tpub_payload = TPUB_VERSION.to_vec();
    tpub_payload.extend_from_slice(&decoded[4..]);
    let expected_tpub = bitcoin::base58::encode_check(&tpub_payload);
    assert_eq!(key.key_string(), expected_tpub);

    // Key material is untouched by the remapping.
    assert_eq!(key.chain_code().as_slice(), &decoded[13..45]);
    assert_eq!(key.public_key().as_slice(), &decoded[45..78]);
}

#[test]
fn remapped_tpub_checksum_validates() {
    // The round trip: the remapped string check-decodes — so its
    // appended checksum matches the double SHA-256 of its first 78
    // bytes — and the standard extended-key parser accepts it.
    let vpub = test_vpub();
    let (_, key) = normalize(&vpub).unwrap();
    let reparsed = bitcoin::base58::decode_check(key.key_string()).unwrap();
    assert_eq!(reparsed.len(), 78);
    assert_eq!(&reparsed[0..4], &TPUB_VERSION);
    let xpub = <bitcoin::bip32::Xpub as std::str::FromStr>::from_str(key.key_string());
    assert!(xpub.is_ok());
}

#[test]
fn vpub_with_wrong_checksum_is_invalid_encoding() {
    let vpub = test_vpub();
    let mut damaged = vpub.into_bytes();
    let last = *damaged.last().unwrap();
    *damaged.last_mut().unwrap() = if last == b'2' { b'3' } else { b'2' };
    let damaged = String::from_utf8(damaged).unwrap();
    assert_eq!(normalize(&damaged).err(), Some(ParseError::InvalidEncoding));
}
