//! Digests and hex rendering: the content hash committing to a redacted
//! transcript, the keccak hash behind address derivation, and the lowercase
//! hex encoding the exported proof is written in.

use vstd::prelude::*;
use vstd::string::StringExecFns;

use sha2::Digest;
use tiny_keccak::Hasher;

verus! {

/// The SHA-256 digest of `data`.
pub uninterp spec fn sha256_of(data: Seq<u8>) -> Seq<u8>;

/// Relies on sha2::Sha256: the digest is 32 bytes and depends on the input
/// bytes alone.
#[verifier::external_body]
pub fn sha256(data: &[u8]) -> (r: Vec<u8>)
    ensures
        r@ == sha256_of(data@),
        r@.len() == 32,
{
    let mut hasher = sha2::Sha256::new();
    hasher.update(data);
    hasher.finalize().to_vec()
}

/// The Keccak-256 digest of `data`.
pub uninterp spec fn keccak256_of(data: Seq<u8>) -> Seq<u8>;

/// Relies on tiny_keccak::Keccak::v256: the digest is 32 bytes and depends
/// on the input bytes alone.
#[verifier::external_body]
pub fn keccak256(data: &[u8]) -> (r: Vec<u8>)
    ensures
        r@ == keccak256_of(data@),
        r@.len() == 32,
{
    let mut hasher = tiny_keccak::Keccak::v256();
    hasher.update(data);
    let mut out = [0u8; 32];
    hasher.finalize(&mut out);
    out.to_vec()
}

/// The lowercase hex digit for a nibble.
pub open spec fn spec_hex_digit(n: u8) -> char
    recommends
        n < 16,
{
    if n < 10 {
        (48 + n) as char
    } else {
        (87 + n) as char
    }
}

/// Lowercase hex encoding of `data`: two digits per byte, high nibble first.
pub open spec fn spec_hex_lower(data: Seq<u8>) -> Seq<char> {
    Seq::new(
        2 * data.len(),
        |i: int|
            if i % 2 == 0 {
                spec_hex_digit(data[i / 2] / 16)
            } else {
                spec_hex_digit(data[i / 2] % 16)
            },
    )
}

/// Relies on hex::encode: lowercase hex, two digits per byte, high nibble
/// first.
#[verifier::external_body]
pub fn hex_lower(data: &[u8]) -> (r: String)
    ensures
        r@ == spec_hex_lower(data@),
{
    hex::encode(data)
}

/// `0x`-prefixed lowercase hex encoding of `data`.
pub fn hex_0x(data: &[u8]) -> (r: String)
    ensures
        r@ == "0x"@ + spec_hex_lower(data@),
{
    let prefix: String = "0x".to_owned();
    let body = hex_lower(data);
    prefix.concat(body.as_str())
}

/// Determinism of the content hash: the digest commits to the redacted
/// transcript's bytes and to nothing else, so equal transcripts hash
/// identically across any two runs.
pub proof fn lemma_content_hash_deterministic(a: Seq<u8>, b: Seq<u8>)
    requires
        a == b,
    ensures
        sha256_of(a) == sha256_of(b),
{
}

} // verus!
