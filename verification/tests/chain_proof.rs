//! Chain-proof adaptation against real secp256k1 signatures: address
//! derivation, recovery-id search, and the exported tuple.

use k256::ecdsa::signature::hazmat::PrehashSigner;
use k256::ecdsa::{RecoveryId, Signature, SigningKey, VerifyingKey};
use sha2::Digest;
use tiny_keccak::Hasher;

use steam_zktls::digest::{hex_0x, hex_lower, keccak256, sha256};
use steam_zktls::disclosure::{Direction, RevealRange};
use steam_zktls::export::{export_chain_proof, find_recovery_id, pubkey_to_address, AdapterError};

fn test_signing_key() -> SigningKey {
    let secret = [
        0x7fu8, 0x2a, 0x91, 0x03, 0x5c, 0xe8, 0x44, 0x16, 0x27, 0xb1, 0x6e, 0x55, 0xc3, 0x0d,
        0x8a, 0x99, 0x12, 0xf0, 0x4e, 0x3b, 0xaa, 0x60, 0x71, 0x88, 0x39, 0x4d, 0x2c, 0x5f,
        0xe1, 0x76, 0x0b, 0xc4,
    ];
    SigningKey::from_slice(&secret).unwrap()
}

fn reference_address(vk: &VerifyingKey) -> [u8; 20] {
    let unc = vk.to_encoded_point(false);
    let mut hasher = tiny_keccak::Keccak::v256();
    hasher.update(&unc.as_bytes()[1..]);
    let mut digest = [0u8; 32];
    hasher.finalize(&mut digest);
    let mut addr = [0u8; 20];
    addr.copy_from_slice(&digest[12..]);
    addr
}

const RECV_OWNED: &[u8] = b"{\"response\":{\"game_count\":1,\"games\":[{\"appid\":42}]}}";

fn whole_range(data: &[u8]) -> Vec<RevealRange> {
    vec![RevealRange { direction: Direction::Received, start: 0, end: data.len() }]
}

#[test]
fn hex_encoding_is_lowercase_with_high_nibble_first() {
    assert_eq!(hex_lower(&[0x00, 0xde, 0xad, 0xbe, 0xef]), "00deadbeef".to_string());
    assert_eq!(hex_0x(&[0x0f, 0xa0]), "0x0fa0".to_string());
    assert_eq!(hex_0x(&[]), "0x".to_string());
}

#[test]
fn sha256_wrapper_matches_known_vector() {
    assert_eq!(
        hex_lower(&sha256(b"abc")),
        "ba7816bf8f01cfea414140de5dae2223b00361a396177a9cb410ff61f20015ad".to_string()
    );
}

#[test]
fn keccak256_wrapper_matches_known_vector() {
    assert_eq!(
        hex_lower(&keccak256(b"")),
        "c5d2460186f7233c927e7db2dcc703c0e500b653ca82273b7bfad8045d85a470".to_string()
    );
}

#[test]
fn address_derivation_matches_reference() {
    let vk = *test_signing_key().verifying_key();
    let reference = reference_address(&vk);

    let compressed = vk.to_encoded_point(true);
    let addr = pubkey_to_address(compressed.as_bytes()).unwrap();
    assert_eq!(addr, reference.to_vec());

    // the uncompressed encoding of the same key yields the same address
    let uncompressed = vk.to_encoded_point(false);
    let addr2 = pubkey_to_address(uncompressed.as_bytes()).unwrap();
    assert_eq!(addr2, reference.to_vec());
}

#[test]
fn invalid_public_key_is_rejected() {
    assert_eq!(pubkey_to_address(&[0x05u8; 10]), Err(AdapterError::InvalidPublicKey));
}

#[test]
fn recovery_id_search_finds_the_signer() {
    let sk = test_signing_key();
    let vk = *sk.verifying_key();
    let prehash: [u8; 32] = sha2::Sha256::digest(b"attestation header").into();
    let signature: Signature = sk.sign_prehash(&prehash).unwrap();
    let sig_bytes = signature.to_bytes();

    let compressed = vk.to_encoded_point(true);
    let v = find_recovery_id(compressed.as_bytes(), &prehash, sig_bytes.as_slice()).unwrap();
    assert!(v < 2);

    // independent check: recovering with the found id yields the signer
    let recovered = VerifyingKey::recover_from_prehash(
        &prehash,
        &signature,
        RecoveryId::try_from(v).unwrap(),
    )
    .unwrap();
    assert_eq!(recovered, vk);
}

#[test]
fn recovery_id_search_rejects_foreign_signature() {
    let sk = test_signing_key();
    let vk = *sk.verifying_key();
    let prehash: [u8; 32] = sha2::Sha256::digest(b"attestation header").into();
    let signature: Signature = sk.sign_prehash(&prehash).unwrap();
    let sig_bytes = signature.to_bytes();

    // recovery against a different prehash cannot yield this key
    let other: [u8; 32] = sha2::Sha256::digest(b"another header").into();
    let compressed = vk.to_encoded_point(true);
    assert_eq!(
        find_recovery_id(compressed.as_bytes(), &other, sig_bytes.as_slice()),
        Err(AdapterError::RecoveryIdNotFound)
    );
}

#[test]
fn exported_proof_carries_the_signed_hash_convention() {
    let sk = test_signing_key();
    let vk = *sk.verifying_key();
    let header = b"serialized attestation header".to_vec();
    let prehash: [u8; 32] = sha2::Sha256::digest(&header).into();
    let signature: Signature = sk.sign_prehash(&prehash).unwrap();
    let sig_bytes = signature.to_bytes();
    let compressed = vk.to_encoded_point(true);
    let ranges = whole_range(RECV_OWNED);

    let proof = export_chain_proof(
        compressed.as_bytes(),
        sig_bytes.as_slice(),
        &header,
        "api.steampowered.com".to_string(),
        1700000000,
        RECV_OWNED,
        &ranges,
    )
    .unwrap();

    assert!(proof.owns_game);
    assert_eq!(proof.timestamp, 1700000000);
    assert_eq!(proof.server_name, "api.steampowered.com");
    assert!(proof.signature_v == 27 || proof.signature_v == 28);
    // the message hash is the SHA-256 the notary signed, not a keccak hash
    assert_eq!(proof.message_hash, format!("0x{}", hex::encode(prehash)));
    assert_eq!(proof.signature_r, format!("0x{}", hex::encode(&sig_bytes[..32])));
    assert_eq!(proof.signature_s, format!("0x{}", hex::encode(&sig_bytes[32..])));
    assert_eq!(
        proof.notary_address,
        format!("0x{}", hex::encode(reference_address(&vk)))
    );
    // the whole transcript is revealed, so its content hash covers it as is
    let transcript_digest = sha2::Sha256::digest(RECV_OWNED);
    assert_eq!(proof.transcript_hash, format!("0x{}", hex::encode(transcript_digest)));
}

#[test]
fn exported_proof_rejects_malformed_signature() {
    let vk = *test_signing_key().verifying_key();
    let compressed = vk.to_encoded_point(true);
    let ranges = whole_range(RECV_OWNED);
    let err = export_chain_proof(
        compressed.as_bytes(),
        &[0u8; 63],
        b"header",
        "api.steampowered.com".to_string(),
        0,
        RECV_OWNED,
        &ranges,
    )
    .unwrap_err();
    assert_eq!(err, AdapterError::MalformedSignature);
}

#[test]
fn exported_proof_rejects_ambiguous_transcript() {
    let vk = *test_signing_key().verifying_key();
    let compressed = vk.to_encoded_point(true);
    let recv = b"{\"response\":{}}";
    let ranges = whole_range(recv);
    let err = export_chain_proof(
        compressed.as_bytes(),
        &[7u8; 64],
        b"header",
        "api.steampowered.com".to_string(),
        0,
        recv,
        &ranges,
    )
    .unwrap_err();
    assert_eq!(err, AdapterError::AmbiguousOutcome);
}

#[test]
fn exported_proof_rejects_unrecoverable_signature() {
    let vk = *test_signing_key().verifying_key();
    let compressed = vk.to_encoded_point(true);
    let ranges = whole_range(RECV_OWNED);
    let err = export_chain_proof(
        compressed.as_bytes(),
        &[7u8; 64],
        b"header",
        "api.steampowered.com".to_string(),
        0,
        RECV_OWNED,
        &ranges,
    )
    .unwrap_err();
    assert_eq!(err, AdapterError::RecoveryIdNotFound);
}
