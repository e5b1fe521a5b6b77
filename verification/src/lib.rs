//! A social recovery wallet: an owner names a set of guardians, and once
//! enough guardians approve a recovery and the waiting period has passed,
//! ownership moves to the owner that the guardians proposed.

pub mod error;
pub mod pubkey;
pub mod state;
pub mod model;
pub mod instructions;
pub mod social_recovery_wallet;
pub mod laws;
