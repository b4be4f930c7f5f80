//! A two-party, escrow-backed, commit-reveal coin-flip wager.
//!
//! Each party commits to a secret binary choice by a SHA-256 hash and
//! stakes equal funds into an escrow vault. Once both reveal, a coin bit is
//! derived from both secrets and the game's own address, and the pot goes
//! to the winner; a deadline-triggered forfeiture resolves a stalled game.
//! The operations are pure state transitions over plain values — the game
//! record, its vault, party balances and a logical clock tick — so a host
//! runtime owns the accounts and drives them one operation at a time.

pub mod commit_reveal;
pub mod funds;
pub mod game;
pub mod hashing;
pub mod laws;
pub mod lifecycle;
pub mod settle;

pub use commit_reveal::reveal_creator;
pub use commit_reveal::reveal_joiner;
pub use game::CoinflipError;
pub use game::EscrowVault;
pub use game::Game;
pub use game::GameStatus;
pub use hashing::commit_hash;
pub use hashing::verify_commitment;
pub use lifecycle::create_game;
pub use lifecycle::join_game;
pub use settle::finalize;
pub use settle::forfeit_if_timeout;
