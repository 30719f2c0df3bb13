//! Claim verification: after the attestation collaborator has checked a
//! presentation cryptographically, the content is inspected — the server
//! identity must be the expected host, the redacted transcript must reveal
//! exactly one outcome marker, and the result carries a reproducible
//! content hash of the redacted bytes.

use vstd::prelude::*;

use crate::bytes::{contains_pattern, contains_seq, match_at};
use crate::digest::{hex_0x, sha256, sha256_of, spec_hex_lower};
use crate::disclosure::{
    lemma_markers_hold_no_sentinel, lemma_no_spurious_match, lemma_reveal_preserves_match, redact,
    spec_in_ranges, spec_redacted, Direction, RevealRange,
};
use crate::markers::{
    appid_marker, expected_host, game_count_marker, spec_appid_marker, spec_expected_host,
    spec_false_marker, spec_true_marker,
};

verus! {

/// Why verification of a presentation failed.
#[derive(Debug, Clone, Copy, PartialEq, Eq, Structural)]
pub enum VerifyError {
    /// The cryptographic verification of the presentation failed.  Fatal
    /// and non-retryable; raised at the attestation-collaborator boundary,
    /// before any content is trusted.
    CryptoInvalid,
    /// The server identity is not the expected hostname.
    WrongServer,
    /// Neither outcome marker is revealed: the presentation proves nothing
    /// and is rejected, never read as a default "false".
    AmbiguousOutcome,
    /// The caller supplied a fact identifier whose marker is not revealed.
    IdentifierNotRevealed,
}

/// The outcome encoded in redacted received bytes: `Some(true)` when the
/// "true" marker is revealed (the markers are mutually exclusive in the
/// source data), `Some(false)` when only the "false" marker is, and `None`
/// when neither is.
pub open spec fn spec_outcome(recv: Seq<u8>) -> Option<bool> {
    if contains_seq(recv, spec_true_marker()) {
        Some(true)
    } else if contains_seq(recv, spec_false_marker()) {
        Some(false)
    } else {
        None
    }
}

/// Scan redacted received bytes for the two outcome markers.  Absence of
/// both is ambiguous and fatal.
pub fn classify_outcome(recv: &[u8]) -> (r: Result<bool, VerifyError>)
    ensures
        match r {
            Ok(b) => spec_outcome(recv@) == Some(b),
            Err(e) => e == VerifyError::AmbiguousOutcome && spec_outcome(recv@) is None,
        },
{
    let t = game_count_marker(true);
    let f = game_count_marker(false);
    if contains_pattern(recv, t.as_slice()) {
        Ok(true)
    } else if contains_pattern(recv, f.as_slice()) {
        Ok(false)
    } else {
        Err(VerifyError::AmbiguousOutcome)
    }
}

/// Result of a successful verification.
#[derive(Debug)]
pub struct VerificationResult {
    /// Whether the account owns the game.
    pub owns_game: bool,
    /// Unix timestamp of the attested TLS connection.
    pub timestamp: u64,
    /// `0x`-prefixed lowercase hex of the SHA-256 content hash of the
    /// redacted received transcript.
    pub transcript_hash: String,
}

/// Inspect the content of a cryptographically verified presentation.
///
/// `recv` is the received transcript and `authed` the byte ranges the
/// notary authenticated; every position outside them is replaced by the
/// sentinel before any inspection, so classification only ever reasons
/// over authenticated bytes.  If `app_id` is supplied, the revealed bytes
/// must also contain that game's own marker.
pub fn verify(
    server_name: &String,
    timestamp: u64,
    recv: &[u8],
    authed: &Vec<RevealRange>,
    app_id: Option<u32>,
) -> (r: Result<VerificationResult, VerifyError>)
    ensures
        ({
            let red = spec_redacted(recv@, authed@, Direction::Received);
            match r {
                Ok(res) => {
                    &&& server_name@ == spec_expected_host()
                    &&& spec_outcome(red) == Some(res.owns_game)
                    &&& (match app_id {
                        Some(id) => contains_seq(red, spec_appid_marker(id as nat)),
                        None => true,
                    })
                    &&& res.timestamp == timestamp
                    &&& res.transcript_hash@ == "0x"@ + spec_hex_lower(sha256_of(red))
                },
                Err(e) => {
                    ||| (e == VerifyError::WrongServer && server_name@ != spec_expected_host())
                    ||| (e == VerifyError::AmbiguousOutcome && server_name@ == spec_expected_host()
                        && spec_outcome(red) is None)
                    ||| (e == VerifyError::IdentifierNotRevealed && server_name@
                        == spec_expected_host() && spec_outcome(red) is Some && (match app_id {
                        Some(id) => !contains_seq(red, spec_appid_marker(id as nat)),
                        None => false,
                    }))
                },
            }
        }),
{
    let expected = expected_host();
    if !server_name.eq(&expected) {
        return Err(VerifyError::WrongServer);
    }
    let red = redact(recv, authed, Direction::Received);
    let owns_game = match classify_outcome(red.as_slice()) {
        Ok(b) => b,
        Err(e) => {
            return Err(e);
        },
    };
    if let Some(id) = app_id {
        let marker = appid_marker(id);
        if !contains_pattern(red.as_slice(), marker.as_slice()) {
            return Err(VerifyError::IdentifierNotRevealed);
        }
    }
    let digest = sha256(red.as_slice());
    let transcript_hash = hex_0x(digest.as_slice());
    Ok(VerificationResult { owns_game, timestamp, transcript_hash })
}

/// Round trip from disclosure to verification: when the reveal ranges cover
/// an occurrence of the outcome marker recorded at capture time, classifying
/// the redacted transcript yields exactly the captured outcome — revealing
/// the "true" marker classifies as true, and revealing the "false" marker
/// over a transcript that nowhere holds the "true" marker classifies as
/// false.
pub proof fn lemma_round_trip(recv: Seq<u8>, ranges: Seq<RevealRange>, owns: bool, i: int)
    requires
        match_at(
            recv,
            if owns {
                spec_true_marker()
            } else {
                spec_false_marker()
            },
            i,
        ),
        forall|j: int|
            i <= j < i + (if owns {
                spec_true_marker()
            } else {
                spec_false_marker()
            }).len() ==> spec_in_ranges(ranges, Direction::Received, j),
        !owns ==> !contains_seq(recv, spec_true_marker()),
    ensures
        spec_outcome(spec_redacted(recv, ranges, Direction::Received)) == Some(owns),
{
    let red = spec_redacted(recv, ranges, Direction::Received);
    lemma_markers_hold_no_sentinel();
    if owns {
        lemma_reveal_preserves_match(recv, ranges, Direction::Received, spec_true_marker(), i);
        assert(contains_seq(red, spec_true_marker()));
    } else {
        lemma_reveal_preserves_match(recv, ranges, Direction::Received, spec_false_marker(), i);
        assert(contains_seq(red, spec_false_marker()));
        lemma_no_spurious_match(recv, ranges, Direction::Received, spec_true_marker());
    }
}

} // verus!
