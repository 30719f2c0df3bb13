//! Chain-proof adaptation: converting a verified presentation's notary
//! signature and public key into the (address, r, s, v, message-hash) tuple
//! an EVM `ecrecover`-based verifier expects, including the recovery-id
//! search the notary's signing scheme leaves open.

use vstd::prelude::*;
use vstd::slice::{slice_subrange, slice_to_vec};

use crate::bytes::bytes_eq;
use crate::digest::{hex_0x, keccak256, keccak256_of, sha256, sha256_of, spec_hex_lower};
use crate::disclosure::{redact, spec_redacted, Direction, RevealRange};
use crate::verify::{classify_outcome, spec_outcome};

verus! {

/// Why adapting a verified presentation for the chain failed.
#[derive(Debug, Clone, Copy, PartialEq, Eq, Structural)]
pub enum AdapterError {
    /// The notary public key is not a valid SEC1 point encoding.
    InvalidPublicKey,
    /// The attestation signature is not the fixed 64-byte `r || s` form.
    MalformedSignature,
    /// Neither candidate recovery id yields the notary's key: the signature
    /// is corrupt, or was made under another hash convention.
    RecoveryIdNotFound,
    /// Neither outcome marker is revealed in the transcript.
    AmbiguousOutcome,
}

/// The SEC1 uncompressed encoding (65 bytes, `0x04 || x || y`) of the
/// public key that `bytes` encodes, compressed or uncompressed; `None` when
/// `bytes` does not encode a valid secp256k1 point.
pub uninterp spec fn spec_sec1_uncompressed(bytes: Seq<u8>) -> Option<Seq<u8>>;

/// Relies on k256::ecdsa::VerifyingKey::from_sec1_bytes, which accepts
/// compressed and uncompressed SEC1 encodings of a secp256k1 point, and on
/// VerifyingKey::to_encoded_point(false), whose uncompressed re-encoding is
/// 65 bytes; both depend on the key bytes alone.
#[verifier::external_body]
fn sec1_uncompressed(bytes: &[u8]) -> (r: Option<Vec<u8>>)
    ensures
        match r {
            Some(u) => spec_sec1_uncompressed(bytes@) == Some(u@) && u@.len() == 65,
            None => spec_sec1_uncompressed(bytes@) is None,
        },
{
    match k256::ecdsa::VerifyingKey::from_sec1_bytes(bytes) {
        Ok(vk) => Some(vk.to_encoded_point(false).as_bytes().to_vec()),
        Err(_) => None,
    }
}

/// The SEC1 uncompressed encoding of the public key that ECDSA/secp256k1
/// recovery yields from a 32-byte prehash, a 64-byte `r || s` signature and
/// a recovery id; `None` when the signature does not parse as two valid
/// scalars or recovery fails.  Deterministic in its three arguments.
pub uninterp spec fn spec_recovered_key(prehash: Seq<u8>, sig: Seq<u8>, recovery_id: u8) -> Option<
    Seq<u8>,
>;

/// Relies on k256::ecdsa::VerifyingKey::recover_from_prehash, a
/// deterministic function of the prehash, the signature and the recovery
/// id; the signature bytes and id are converted to their k256 forms with
/// Signature::from_slice and RecoveryId::try_from, whose failures recovery
/// shares.  The recovered key's uncompressed encoding is 65 bytes.
#[verifier::external_body]
fn recover_key(prehash: &[u8], sig: &[u8], recovery_id: u8) -> (r: Option<Vec<u8>>)
    requires
        prehash@.len() == 32,
        sig@.len() == 64,
        recovery_id < 2,
    ensures
        match r {
            Some(u) => spec_recovered_key(prehash@, sig@, recovery_id) == Some(u@) && u@.len()
                == 65,
            None => spec_recovered_key(prehash@, sig@, recovery_id) is None,
        },
{
    let signature = match k256::ecdsa::Signature::from_slice(sig) {
        Ok(s) => s,
        Err(_) => return None,
    };
    let rec_id = match k256::ecdsa::RecoveryId::try_from(recovery_id) {
        Ok(id) => id,
        Err(_) => return None,
    };
    match k256::ecdsa::VerifyingKey::recover_from_prehash(prehash, &signature, rec_id) {
        Ok(vk) => Some(vk.to_encoded_point(false).as_bytes().to_vec()),
        Err(_) => None,
    }
}

/// The Ethereum-style address of a public key: the last 20 bytes of the
/// Keccak-256 digest of the uncompressed point's coordinates (the 64 bytes
/// after the leading format byte).
pub open spec fn spec_address(pubkey: Seq<u8>) -> Seq<u8>
    recommends
        spec_sec1_uncompressed(pubkey) is Some,
{
    keccak256_of(spec_sec1_uncompressed(pubkey)->0.skip(1)).subrange(12, 32)
}

/// Derive the notary's Ethereum-style address from its public key, given in
/// compressed or uncompressed SEC1 encoding.
pub fn pubkey_to_address(pubkey_bytes: &[u8]) -> (r: Result<Vec<u8>, AdapterError>)
    ensures
        match r {
            Ok(addr) => {
                &&& spec_sec1_uncompressed(pubkey_bytes@) is Some
                &&& addr@ == spec_address(pubkey_bytes@)
                &&& addr@.len() == 20
            },
            Err(e) => e == AdapterError::InvalidPublicKey && spec_sec1_uncompressed(pubkey_bytes@)
                is None,
        },
{
    match sec1_uncompressed(pubkey_bytes) {
        Some(unc) => {
            let coords = slice_subrange(unc.as_slice(), 1, 65);
            assert(coords@ == spec_sec1_uncompressed(pubkey_bytes@)->0.skip(1));
            let hash = keccak256(coords);
            let addr = slice_to_vec(slice_subrange(hash.as_slice(), 12, 32));
            Ok(addr)
        },
        None => Err(AdapterError::InvalidPublicKey),
    }
}

/// Search for the 1-bit recovery id whose recovered key equals the notary's
/// public key; candidate 0 is tried before candidate 1.
pub fn find_recovery_id(pubkey_bytes: &[u8], message_hash: &[u8], signature: &[u8]) -> (r: Result<
    u8,
    AdapterError,
>)
    requires
        message_hash@.len() == 32,
        signature@.len() == 64,
    ensures
        ({
            let unc = spec_sec1_uncompressed(pubkey_bytes@);
            match r {
                Ok(v) => {
                    &&& v < 2
                    &&& unc is Some
                    &&& spec_recovered_key(message_hash@, signature@, v) == unc
                    &&& (v == 1 ==> spec_recovered_key(message_hash@, signature@, 0) != unc)
                },
                Err(e) => {
                    ||| (e == AdapterError::InvalidPublicKey && unc is None)
                    ||| (e == AdapterError::RecoveryIdNotFound && unc is Some
                        && spec_recovered_key(message_hash@, signature@, 0) != unc
                        && spec_recovered_key(message_hash@, signature@, 1) != unc)
                },
            }
        }),
{
    let expected = match sec1_uncompressed(pubkey_bytes) {
        Some(u) => u,
        None => {
            return Err(AdapterError::InvalidPublicKey);
        },
    };
    if let Some(recovered) = recover_key(message_hash, signature, 0) {
        if bytes_eq(recovered.as_slice(), expected.as_slice()) {
            return Ok(0);
        }
    }
    if let Some(recovered) = recover_key(message_hash, signature, 1) {
        if bytes_eq(recovered.as_slice(), expected.as_slice()) {
            return Ok(1);
        }
    }
    Err(AdapterError::RecoveryIdNotFound)
}

/// EVM-oriented proof tuple, ready to serialize for an `ecrecover`-based
/// verifier.  The message hash is the hash the notary's signing scheme
/// actually covered — SHA-256 of the serialized attestation header — not
/// the chain's native Keccak-256; an on-chain verifier must hash under the
/// same convention, or recovery fails there exactly as it would here.  This
/// mismatch is a documented interface contract, not one to paper over.
#[derive(Debug)]
pub struct SolidityProof {
    /// Notary's Ethereum-style address, `0x`-prefixed hex.
    pub notary_address: String,
    /// Signature r value (32 bytes), `0x`-prefixed hex.
    pub signature_r: String,
    /// Signature s value (32 bytes), `0x`-prefixed hex.
    pub signature_s: String,
    /// Recovery id plus 27, as `ecrecover` expects.
    pub signature_v: u8,
    /// The hash the signature was made over, `0x`-prefixed hex.
    pub message_hash: String,
    /// Server identity from the presentation.
    pub server_name: String,
    /// Unix timestamp of the attested TLS connection.
    pub timestamp: u64,
    /// Whether the account owns the game.
    pub owns_game: bool,
    /// Content hash of the redacted received transcript, `0x`-prefixed hex.
    pub transcript_hash: String,
}

/// Adapt a verified presentation into an EVM-verifiable proof tuple.
///
/// `header_bytes` must be the canonical serialization of the attestation
/// header — the exact bytes the notary signed; `recv` and `authed` are the
/// received transcript and its authenticated ranges, redacted here exactly
/// as the verification stage redacts them.
pub fn export_chain_proof(
    notary_key: &[u8],
    signature: &[u8],
    header_bytes: &[u8],
    server_name: String,
    timestamp: u64,
    recv: &[u8],
    authed: &Vec<RevealRange>,
) -> (r: Result<SolidityProof, AdapterError>)
    ensures
        ({
            let red = spec_redacted(recv@, authed@, Direction::Received);
            let unc = spec_sec1_uncompressed(notary_key@);
            let msg_hash = sha256_of(header_bytes@);
            match r {
                Ok(p) => {
                    &&& spec_outcome(red) == Some(p.owns_game)
                    &&& signature@.len() == 64
                    &&& unc is Some
                    &&& p.notary_address@ == "0x"@ + spec_hex_lower(spec_address(notary_key@))
                    &&& p.signature_r@ == "0x"@ + spec_hex_lower(signature@.subrange(0, 32))
                    &&& p.signature_s@ == "0x"@ + spec_hex_lower(signature@.subrange(32, 64))
                    &&& (p.signature_v == 27 || p.signature_v == 28)
                    &&& spec_recovered_key(msg_hash, signature@, (p.signature_v - 27) as u8) == unc
                    &&& (p.signature_v == 28 ==> spec_recovered_key(msg_hash, signature@, 0)
                        != unc)
                    &&& p.message_hash@ == "0x"@ + spec_hex_lower(msg_hash)
                    &&& p.server_name == server_name
                    &&& p.timestamp == timestamp
                    &&& p.transcript_hash@ == "0x"@ + spec_hex_lower(sha256_of(red))
                },
                Err(e) => {
                    ||| (e == AdapterError::AmbiguousOutcome && spec_outcome(red) is None)
                    ||| (e == AdapterError::MalformedSignature && spec_outcome(red) is Some
                        && signature@.len() != 64)
                    ||| (e == AdapterError::InvalidPublicKey && spec_outcome(red) is Some
                        && signature@.len() == 64 && unc is None)
                    ||| (e == AdapterError::RecoveryIdNotFound && spec_outcome(red) is Some
                        && signature@.len() == 64 && unc is Some && spec_recovered_key(
                        msg_hash,
                        signature@,
                        0,
                    ) != unc && spec_recovered_key(msg_hash, signature@, 1) != unc)
                },
            }
        }),
{
    let red = redact(recv, authed, Direction::Received);
    let owns_game = match classify_outcome(red.as_slice()) {
        Ok(b) => b,
        Err(_) => {
            return Err(AdapterError::AmbiguousOutcome);
        },
    };
    let transcript_digest = sha256(red.as_slice());
    if signature.len() != 64 {
        return Err(AdapterError::MalformedSignature);
    }
    let address = match pubkey_to_address(notary_key) {
        Ok(a) => a,
        Err(e) => {
            return Err(e);
        },
    };
    let message_digest = sha256(header_bytes);
    let recovery_id = match find_recovery_id(notary_key, message_digest.as_slice(), signature) {
        Ok(id) => id,
        Err(e) => {
            return Err(e);
        },
    };
    let signature_v: u8 = recovery_id + 27;
    let r_half = slice_subrange(signature, 0, 32);
    let s_half = slice_subrange(signature, 32, 64);
    Ok(
        SolidityProof {
            notary_address: hex_0x(address.as_slice()),
            signature_r: hex_0x(r_half),
            signature_s: hex_0x(s_half),
            signature_v,
            message_hash: hex_0x(message_digest.as_slice()),
            server_name,
            timestamp,
            owns_game,
            transcript_hash: hex_0x(transcript_digest.as_slice()),
        },
    )
}

} // verus!
