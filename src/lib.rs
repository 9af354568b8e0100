//! Reward accrual and stake lifecycle for a two-pool collectible staking ledger.
//!
//! A `Mine` pool mints rewards at a rate its manager sets; a `Loot` pool pays
//! out a fixed fund over a configured duration. A `Character` is the
//! per-collectible stake position. Every mutating operation either commits
//! in full or leaves all of its inputs untouched and reports a
//! `QstakingErrors` value.

// records and their arithmetic
pub mod errors;
pub mod identity;
pub mod accrual;
pub mod splitter;
pub mod character;
pub mod mine;
pub mod loot;
pub mod admin;
pub mod whitelist;

// operations as the program exposes them
pub mod program_config;
pub mod mine_config;
pub mod loot_config;
pub mod mine_staking;
pub mod loot_staking;

// ledger-wide laws
pub mod accounting;
