//! Vault lifecycle and settlement engine for a guess-the-secret wagering game.

pub mod accounts;
pub mod create;
pub mod error;
pub mod fees;
pub mod guess;
pub mod hash;
pub mod keys;
pub mod laws;
pub mod ledger;
pub mod registry;
pub mod reward;
pub mod settle;
pub mod state;
