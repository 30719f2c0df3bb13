//! Data carried between the pipeline stages: the shapes of the two Steam API
//! responses, the recorded ownership claim, and the attestation bundle that
//! accompanies it on disk.

use vstd::prelude::*;

verus! {

/// Steam API response for resolving a vanity URL to a Steam ID.
#[derive(Debug)]
pub struct VanityUrlResponse {
    pub response: VanityUrlInner,
}

#[derive(Debug)]
pub struct VanityUrlInner {
    pub steamid: Option<String>,
    pub success: i32,
}

/// Steam API response for the owned-games query.
#[derive(Debug)]
pub struct OwnedGamesResponse {
    pub response: OwnedGamesInner,
}

#[derive(Debug)]
pub struct OwnedGamesInner {
    pub game_count: Option<u32>,
    pub games: Option<Vec<Game>>,
}

#[derive(Debug, Clone)]
pub struct Game {
    pub appid: u32,
    pub name: Option<String>,
    pub playtime_forever: Option<u32>,
}

/// The claim to be proven: the account behind a vanity URL owns a
/// specific game.  Recorded at capture time as ground-truth metadata
/// accompanying the attestation, and immutable once written.
#[derive(Debug)]
pub struct SteamOwnershipClaim {
    /// The vanity URL (username) being verified.
    pub vanity_url: String,
    /// The Steam ID resolved from the vanity URL.
    pub steam_id: String,
    /// The app ID ownership is claimed for.
    pub app_id: u32,
    /// Whether ownership was observed in the live response.
    pub owns_game: bool,
}

/// Proof bundle pairing a claim with the serialized notary attestation
/// artifacts it rests on.
#[derive(Debug)]
pub struct OwnershipProof {
    /// The claim being proven.
    pub claim: SteamOwnershipClaim,
    /// Serialized notary session proof.
    pub session_proof: Vec<u8>,
    /// Serialized substrings proof showing the app id in the response.
    pub substrings_proof: Vec<u8>,
    /// Timestamp of proof generation.
    pub timestamp: u64,
}

} // verus!
