//! The accounts of each instruction and the instruction's own handling.

pub mod add_guardian;
pub mod approve_recovery;
pub mod cancel_recovery;
pub mod execute_recovery;
pub mod initialize;
pub mod initiate_recovery;
pub mod remove_guardian;
pub mod update_threshold;
