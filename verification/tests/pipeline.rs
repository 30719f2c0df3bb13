//! End-to-end scenarios over the disclosure and verification stages, plus
//! the capture-stage helpers.

use steam_zktls::capture::{
    evaluate_ownership, make_claim, owned_games_path, resolve_vanity_url, CaptureError,
};
use steam_zktls::disclosure::{
    find_fact_range, find_host_range, find_outcome_range, redact, select_reveal_ranges, Direction,
    DisclosureError, RevealRange, SENTINEL,
};
use steam_zktls::markers::{
    appid_marker, expected_host, game_count_marker, host_header_marker, u32_to_dec,
};
use steam_zktls::types::{
    Game, OwnedGamesInner, OwnedGamesResponse, OwnershipProof, VanityUrlInner, VanityUrlResponse,
};
use steam_zktls::verify::{classify_outcome, verify, VerifyError};

use sha2::Digest;

const SENT: &[u8] = b"GET /IPlayerService/GetOwnedGames/v1/?key=SECRETKEY&steamid=76561197960287930&appids_filter%5B0%5D=42&format=json HTTP/1.1\r\nHost: api.steampowered.com\r\nAccept: application/json\r\nConnection: close\r\n\r\n";

const BODY_OWNED: &str =
    "{\"response\":{\"game_count\":1,\"games\":[{\"appid\":42,\"playtime_forever\":7}]}}";
const BODY_NOT_OWNED: &str = "{\"response\":{\"game_count\":0}}";
const BODY_NEITHER: &str = "{\"response\":{}}";

fn recv_with_body(body: &str) -> Vec<u8> {
    let mut v = b"HTTP/1.1 200 OK\r\nContent-Type: application/json\r\n\r\n".to_vec();
    v.extend_from_slice(body.as_bytes());
    v
}

fn whole_recv_range(recv: &[u8]) -> Vec<RevealRange> {
    vec![RevealRange { direction: Direction::Received, start: 0, end: recv.len() }]
}

#[test]
fn u32_to_dec_renders_decimal() {
    assert_eq!(u32_to_dec(0), b"0".to_vec());
    assert_eq!(u32_to_dec(7), b"7".to_vec());
    assert_eq!(u32_to_dec(42), b"42".to_vec());
    assert_eq!(u32_to_dec(4294967295), b"4294967295".to_vec());
}

#[test]
fn markers_have_expected_bytes() {
    assert_eq!(game_count_marker(true), b"\"game_count\":1".to_vec());
    assert_eq!(game_count_marker(false), b"\"game_count\":0".to_vec());
    assert_eq!(appid_marker(42), b"\"appid\":42".to_vec());
    assert_eq!(host_header_marker(), b"Host: api.steampowered.com".to_vec());
    assert_eq!(expected_host(), "api.steampowered.com".to_string());
    assert_eq!(SENTINEL, b'X');
}

#[test]
fn host_range_is_located_in_sent_bytes() {
    let range = find_host_range(SENT).unwrap();
    assert_eq!(range.direction, Direction::Sent);
    assert_eq!(&SENT[range.start..range.end], b"Host: api.steampowered.com".as_slice());
}

#[test]
fn host_range_absent_is_rejected() {
    let sent = b"GET / HTTP/1.1\r\nHost: evil.example.com\r\n\r\n";
    assert_eq!(find_host_range(sent), Err(DisclosureError::PatternNotFound));
}

#[test]
fn fact_range_is_minimal() {
    let recv = recv_with_body(BODY_OWNED);
    let range = find_fact_range(&recv, 42).unwrap();
    assert_eq!(range.direction, Direction::Received);
    assert_eq!(&recv[range.start..range.end], b"\"appid\":42".as_slice());
}

#[test]
fn fact_range_absent_is_rejected() {
    let recv = recv_with_body(BODY_OWNED);
    assert_eq!(find_fact_range(&recv, 7), Err(DisclosureError::PatternNotFound));
}

#[test]
fn outcome_range_prefers_true_marker() {
    let recv = recv_with_body(BODY_OWNED);
    let range = find_outcome_range(&recv).unwrap();
    assert_eq!(&recv[range.start..range.end], b"\"game_count\":1".as_slice());

    let recv = recv_with_body(BODY_NOT_OWNED);
    let range = find_outcome_range(&recv).unwrap();
    assert_eq!(&recv[range.start..range.end], b"\"game_count\":0".as_slice());

    let recv = recv_with_body(BODY_NEITHER);
    assert_eq!(find_outcome_range(&recv), Err(DisclosureError::PatternNotFound));
}

#[test]
fn redaction_keeps_exactly_the_revealed_ranges() {
    let recv = recv_with_body(BODY_OWNED);
    let ranges = select_reveal_ranges(SENT, &recv, 42, true).unwrap();
    let red = redact(&recv, &ranges, Direction::Received);
    assert_eq!(red.len(), recv.len());
    for i in 0..recv.len() {
        let revealed = ranges.iter().any(|r| {
            r.direction == Direction::Received && r.start <= i && i < r.end
        });
        if revealed {
            assert_eq!(red[i], recv[i]);
        } else {
            assert_eq!(red[i], SENTINEL);
        }
    }
}

#[test]
fn redaction_of_overlapping_ranges_is_idempotent() {
    let data = b"abcdef";
    let once = vec![RevealRange { direction: Direction::Received, start: 1, end: 4 }];
    let twice = vec![
        RevealRange { direction: Direction::Received, start: 1, end: 4 },
        RevealRange { direction: Direction::Received, start: 2, end: 4 },
    ];
    assert_eq!(
        redact(data, &once, Direction::Received),
        redact(data, &twice, Direction::Received)
    );
    assert_eq!(redact(data, &once, Direction::Received), b"XbcdXX".to_vec());
}

#[test]
fn scenario_fine_disclosure_verifies_as_owned() {
    let recv = recv_with_body(BODY_OWNED);
    let ranges = select_reveal_ranges(SENT, &recv, 42, true).unwrap();
    assert_eq!(ranges.len(), 3);
    let server = expected_host();
    let result = verify(&server, 1700000000, &recv, &ranges, Some(42)).unwrap();
    assert!(result.owns_game);
    assert_eq!(result.timestamp, 1700000000);
    assert!(result.transcript_hash.starts_with("0x"));
    assert_eq!(result.transcript_hash.len(), 66);
}

#[test]
fn scenario_false_marker_verifies_as_not_owned() {
    let recv = recv_with_body(BODY_NOT_OWNED);
    let ranges = select_reveal_ranges(SENT, &recv, 42, false).unwrap();
    let server = expected_host();
    let result = verify(&server, 1700000000, &recv, &ranges, None).unwrap();
    assert!(!result.owns_game);
}

#[test]
fn scenario_neither_marker_is_ambiguous() {
    let recv = recv_with_body(BODY_NEITHER);
    assert_eq!(
        select_reveal_ranges(SENT, &recv, 42, false),
        Err(DisclosureError::PatternNotFound)
    );
    let server = expected_host();
    let err = verify(&server, 1700000000, &recv, &whole_recv_range(&recv), None).unwrap_err();
    assert_eq!(err, VerifyError::AmbiguousOutcome);
}

#[test]
fn content_hash_is_deterministic() {
    let recv = recv_with_body(BODY_OWNED);
    let ranges = select_reveal_ranges(SENT, &recv, 42, true).unwrap();
    let server = expected_host();
    let first = verify(&server, 1, &recv, &ranges, Some(42)).unwrap();
    let second = verify(&server, 1, &recv, &ranges, Some(42)).unwrap();
    assert_eq!(first.transcript_hash, second.transcript_hash);

    // independent reference: SHA-256 of the redacted transcript
    let red = redact(&recv, &ranges, Direction::Received);
    let reference = sha2::Sha256::digest(&red);
    assert_eq!(first.transcript_hash, format!("0x{}", hex::encode(reference)));
}

#[test]
fn wrong_server_is_rejected() {
    let recv = recv_with_body(BODY_OWNED);
    let ranges = select_reveal_ranges(SENT, &recv, 42, true).unwrap();
    let server = "api.steamp0wered.com".to_string();
    let err = verify(&server, 1, &recv, &ranges, None).unwrap_err();
    assert_eq!(err, VerifyError::WrongServer);
}

#[test]
fn unrevealed_identifier_is_rejected() {
    let recv = recv_with_body(BODY_OWNED);
    let outcome_only = vec![find_outcome_range(&recv).unwrap()];
    let server = expected_host();
    let err = verify(&server, 1, &recv, &outcome_only, Some(42)).unwrap_err();
    assert_eq!(err, VerifyError::IdentifierNotRevealed);
}

#[test]
fn classification_reads_only_revealed_bytes() {
    // the marker exists in the plaintext but no range covers it: the
    // classifier must not see it
    let recv = recv_with_body(BODY_OWNED);
    let empty: Vec<RevealRange> = Vec::new();
    let server = expected_host();
    let err = verify(&server, 1, &recv, &empty, None).unwrap_err();
    assert_eq!(err, VerifyError::AmbiguousOutcome);
}

#[test]
fn classify_outcome_covers_all_cases() {
    assert_eq!(classify_outcome(b"xx\"game_count\":1yy"), Ok(true));
    assert_eq!(classify_outcome(b"xx\"game_count\":0yy"), Ok(false));
    assert_eq!(
        classify_outcome(b"xx\"game_count\":Xyy"),
        Err(VerifyError::AmbiguousOutcome)
    );
}

#[test]
fn vanity_url_resolution_success() {
    let resp = VanityUrlResponse {
        response: VanityUrlInner { steamid: Some("76561197960287930".to_string()), success: 1 },
    };
    assert_eq!(resolve_vanity_url(resp), Ok("76561197960287930".to_string()));
}

#[test]
fn vanity_url_resolution_failure() {
    let resp = VanityUrlResponse {
        response: VanityUrlInner { steamid: None, success: 42 },
    };
    assert_eq!(resolve_vanity_url(resp), Err(CaptureError::VanityResolutionFailed));
}

#[test]
fn vanity_url_resolution_without_id() {
    let resp = VanityUrlResponse {
        response: VanityUrlInner { steamid: None, success: 1 },
    };
    assert_eq!(resolve_vanity_url(resp), Err(CaptureError::NoSteamId));
}

#[test]
fn owned_games_path_is_exact() {
    let path = owned_games_path("KEY", "765", 42);
    assert_eq!(
        path,
        b"/IPlayerService/GetOwnedGames/v1/?key=KEY&steamid=765&appids_filter%5B0%5D=42&format=json"
            .to_vec()
    );
}

#[test]
fn ownership_proof_bundles_claim_and_attestation() {
    let games = OwnedGamesResponse {
        response: OwnedGamesInner {
            game_count: Some(1),
            games: Some(vec![Game { appid: 42, name: None, playtime_forever: Some(7) }]),
        },
    };
    assert_eq!(games.response.game_count, Some(1));
    assert_eq!(games.response.games.as_ref().unwrap()[0].appid, 42);

    let claim = make_claim("gabe".to_string(), "765".to_string(), 42, BODY_OWNED.as_bytes());
    let proof = OwnershipProof {
        claim,
        session_proof: vec![1, 2, 3],
        substrings_proof: vec![4, 5],
        timestamp: 1700000000,
    };
    assert!(proof.claim.owns_game);
    assert_eq!(proof.timestamp, 1700000000);
}

#[test]
fn claim_records_live_outcome() {
    assert!(evaluate_ownership(BODY_OWNED.as_bytes()));
    assert!(!evaluate_ownership(BODY_NOT_OWNED.as_bytes()));
    let claim = make_claim("gabe".to_string(), "765".to_string(), 42, BODY_OWNED.as_bytes());
    assert_eq!(claim.vanity_url, "gabe");
    assert_eq!(claim.steam_id, "765");
    assert_eq!(claim.app_id, 42);
    assert!(claim.owns_game);
}
