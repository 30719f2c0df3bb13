//! Privacy-preserving, verifiable claims about a Steam account's game
//! ownership, extracted from a notarized HTTPS session.
//!
//! The pipeline has four stages, each a pure transformation over immutable
//! artifacts: capture (drive one authenticated API call and record a claim),
//! disclosure (select the minimal byte ranges that support the claim),
//! verification (check a presentation and classify the revealed fact), and
//! chain export (adapt the notary's signature into an EVM-verifiable tuple).

pub mod bytes;
pub mod capture;
pub mod digest;
pub mod disclosure;
pub mod export;
pub mod markers;
pub mod types;
pub mod verify;
