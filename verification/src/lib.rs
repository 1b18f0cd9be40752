//! A verified game-and-marketplace ledger engine.
//!
//! The engine is a deterministic state machine: a trivia-style
//! property-price guessing game with an in-game point economy, a
//! round-scoped colour-collecting mechanic backed by an NFT custody
//! ledger, and a peer-to-peer listing/offer marketplace.  Every state
//! transition is an ordinary Rust method whose exact effect —
//! including every error case — is stated in its contract and proved.

pub mod colors;
pub mod game;
pub mod laws;
pub mod leaderboard;
pub mod market;
pub mod nfts;
pub mod pallet;
pub mod properties;
pub mod scoring;
pub mod types;
pub mod user;
