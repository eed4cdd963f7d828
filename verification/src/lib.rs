//! A verified core of a team-based wager game: sessions, teams, kills and
//! spawns, payouts and refunds, with every rule stated as a contract.
pub mod errors;
pub mod pubkey;
pub mod state;
pub mod team;
pub mod text;
pub mod hashing;
pub mod solana;
pub mod utils;
pub mod session;
pub mod instructions;
pub mod laws;
