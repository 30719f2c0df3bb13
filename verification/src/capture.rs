//! Capture-stage logic: interpreting the vanity URL resolution, building the
//! filtered owned-games query, and recording the ground-truth claim from the
//! live response body.  Driving the attested session itself is the
//! collaborator's work and stays outside the library.

use vstd::prelude::*;
use vstd::string::StringSliceAdditionalSpecFns;

use crate::bytes::{contains_pattern, contains_seq};
use crate::markers::{game_count_marker, spec_dec, spec_true_marker, u32_to_dec};
use crate::types::{SteamOwnershipClaim, VanityUrlResponse};

verus! {

/// Failure of the capture stage before or around the attested session.
#[derive(Debug, Clone, Copy, PartialEq, Eq, Structural)]
pub enum CaptureError {
    /// The API was unreachable or answered with a non-success status.
    Network,
    /// The vanity URL resolution reported failure.
    VanityResolutionFailed,
    /// The resolution reported success but carried no Steam ID.
    NoSteamId,
}

/// Extract the resolved Steam ID from a vanity URL resolution response:
/// the response must report success and carry an ID.
pub fn resolve_vanity_url(resp: VanityUrlResponse) -> (r: Result<String, CaptureError>)
    ensures
        match r {
            Ok(id) => resp.response.success == 1 && resp.response.steamid == Some(id),
            Err(e) => {
                ||| (e == CaptureError::VanityResolutionFailed && resp.response.success != 1)
                ||| (e == CaptureError::NoSteamId && resp.response.success == 1
                    && resp.response.steamid is None)
            },
        },
{
    if resp.response.success != 1 {
        return Err(CaptureError::VanityResolutionFailed);
    }
    match resp.response.steamid {
        Some(id) => Ok(id),
        None => Err(CaptureError::NoSteamId),
    }
}

/// The owned-games query path for one specific app.  The `appids_filter`
/// parameter keeps the response filtered server-side: it reports only the
/// queried game, so the response is already near-minimal.
pub open spec fn spec_owned_games_path(key: Seq<u8>, steam_id: Seq<u8>, app_id: nat) -> Seq<u8> {
    "/IPlayerService/GetOwnedGames/v1/?key=".spec_bytes() + key + "&steamid=".spec_bytes()
        + steam_id + "&appids_filter%5B0%5D=".spec_bytes() + spec_dec(app_id)
        + "&format=json".spec_bytes()
}

/// Build the owned-games query path for `app_id` as request bytes.
pub fn owned_games_path(api_key: &str, steam_id: &str, app_id: u32) -> (v: Vec<u8>)
    ensures
        v@ == spec_owned_games_path(api_key.spec_bytes(), steam_id.spec_bytes(), app_id as nat),
{
    let mut v: Vec<u8> = Vec::new();
    v.extend_from_slice("/IPlayerService/GetOwnedGames/v1/?key=".as_bytes());
    v.extend_from_slice(api_key.as_bytes());
    v.extend_from_slice("&steamid=".as_bytes());
    v.extend_from_slice(steam_id.as_bytes());
    v.extend_from_slice("&appids_filter%5B0%5D=".as_bytes());
    let mut digits = u32_to_dec(app_id);
    v.append(&mut digits);
    v.extend_from_slice("&format=json".as_bytes());
    assert(v@ =~= spec_owned_games_path(
        api_key.spec_bytes(),
        steam_id.spec_bytes(),
        app_id as nat,
    ));
    v
}

/// Whether the live response body reports ownership: the filtered query
/// returns a count of one exactly when the account owns the game.
pub fn evaluate_ownership(body: &[u8]) -> (r: bool)
    ensures
        r == contains_seq(body@, spec_true_marker()),
{
    let marker = game_count_marker(true);
    contains_pattern(body, marker.as_slice())
}

/// Record the ground-truth claim for an attested session: the ownership
/// outcome is read off the live response body.
pub fn make_claim(vanity_url: String, steam_id: String, app_id: u32, body: &[u8]) -> (c:
    SteamOwnershipClaim)
    ensures
        c.vanity_url == vanity_url,
        c.steam_id == steam_id,
        c.app_id == app_id,
        c.owns_game == contains_seq(body@, spec_true_marker()),
{
    let owns_game = evaluate_ownership(body);
    SteamOwnershipClaim { vanity_url, steam_id, app_id, owns_game }
}

} // verus!
