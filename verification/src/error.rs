//! The errors with which the wallet refuses an instruction.

use vstd::prelude::*;

verus! {

/// Why an instruction was refused.
#[derive(Clone, Copy, Debug, PartialEq, Eq, Structural)]
pub enum SocialRecoveryWalletError {
    /// Invalid owner.
    InvalidOwner,
    /// The signer is not a guardian of the wallet.
    InvalidSigner,
    /// Too few guardians: the guardian list is full, or too few approvals.
    InsufficientGuardians,
    /// The guardian is already in the list.
    GuardianAlreadyExists,
    /// The guardian is not in the list.
    GuardianNotFound,
    /// The waiting period of a recovery has not passed yet.
    RecoveryPeriodNotElapsed,
    /// A recovery is already under way.
    RecoveryAlreadyInProgress,
    /// No recovery is under way.
    NoRecoveryInProgress,
    /// The threshold is zero or above the number of guardians.
    InvalidThreshold,
    /// The recovery names no new owner.
    InvalidNewOwner,
    /// The guardian has already approved this recovery.
    InvalidTransaction,
}

} // verus!
