//! A minimal proof-of-stake ledger library.
//!
//! Peers take turns proposing blocks of transactions, validate blocks
//! received from others, and apply typed commands to a shared
//! accounts/assets state.  The stake-weighted proposer-selection rule,
//! block signature validation against a fixed trust set, and the
//! append-only chain store that replays commands into the ledger state
//! are all verified; signing, hashing and transport are reached through
//! narrow wrappers around the `ursa` and `blake2` crates.

pub mod commands;
pub mod parse;
pub mod ledger;
pub mod executor;
pub mod crypto;
pub mod storage;
pub mod sign;
pub mod peer;
pub mod client;
pub mod laws;
