//! What each instruction does to the wallet, as functions on its view.
//! Each returns the wallet after the instruction, or the error with which
//! the instruction is refused (a refused instruction changes nothing).

use vstd::prelude::*;
use crate::error::SocialRecoveryWalletError;
use crate::pubkey::Pubkey;
use crate::state::{MAX_GUARDIANS, WalletView};

verus! {

/// How long, in seconds, a recovery waits before it can be executed.
pub const RECOVERY_PERIOD: i64 = 24 * 60 * 60;

/// The result of an instruction, read from what it returned and the wallet
/// it left behind.
pub open spec fn outcome(r: Result<(), SocialRecoveryWalletError>, w: WalletView) -> Result<
    WalletView,
    SocialRecoveryWalletError,
> {
    match r {
        Ok(_) => Ok(w),
        Err(e) => Err(e),
    }
}

/// A fresh wallet of `owner`: no guardians, no recovery.
pub open spec fn initialized(owner: Pubkey, threshold: u8, bump: u8) -> WalletView {
    WalletView {
        owner,
        guardians: Seq::empty(),
        threshold,
        recovery_in_progress: false,
        new_owner: None,
        recovery_initiated_at: None,
        approvals: Seq::empty(),
        bump,
    }
}

impl WalletView {
    /// Adds `guardian` to the list unless it is already there.
    pub open spec fn after_add_guardian(self, guardian: Pubkey) -> Result<
        WalletView,
        SocialRecoveryWalletError,
    > {
        if self.guardians.contains(guardian) {
            Err(SocialRecoveryWalletError::GuardianAlreadyExists)
        } else {
            Ok(WalletView { guardians: self.guardians.push(guardian), ..self })
        }
    }

    /// Adds `guardian` to the list unless it is already there or the list
    /// already holds `MAX_GUARDIANS` guardians.
    pub open spec fn after_add_guardian_capped(self, guardian: Pubkey) -> Result<
        WalletView,
        SocialRecoveryWalletError,
    > {
        if self.guardians.contains(guardian) {
            Err(SocialRecoveryWalletError::GuardianAlreadyExists)
        } else if self.guardians.len() >= MAX_GUARDIANS {
            Err(SocialRecoveryWalletError::InsufficientGuardians)
        } else {
            Ok(WalletView { guardians: self.guardians.push(guardian), ..self })
        }
    }

    /// Takes the first occurrence of `guardian` out of the list.
    pub open spec fn after_remove_guardian(self, guardian: Pubkey) -> Result<
        WalletView,
        SocialRecoveryWalletError,
    > {
        if !self.guardians.contains(guardian) {
            Err(SocialRecoveryWalletError::GuardianNotFound)
        } else {
            Ok(WalletView { guardians: self.guardians.remove_value(guardian), ..self })
        }
    }

    /// Sets the threshold, which must lie between one and the number of
    /// guardians, that number taken modulo 256.
    pub open spec fn after_update_threshold(self, new_threshold: u8) -> Result<
        WalletView,
        SocialRecoveryWalletError,
    > {
        if new_threshold == 0 || new_threshold > (self.guardians.len() as u8) {
            Err(SocialRecoveryWalletError::InvalidThreshold)
        } else {
            Ok(WalletView { threshold: new_threshold, ..self })
        }
    }

    /// A guardian proposes `new_owner` at time `now`; its own approval counts.
    pub open spec fn after_initiate_recovery(self, guardian: Pubkey, new_owner: Pubkey, now: i64) -> Result<
        WalletView,
        SocialRecoveryWalletError,
    > {
        if !self.guardians.contains(guardian) {
            Err(SocialRecoveryWalletError::InvalidSigner)
        } else if self.recovery_in_progress {
            Err(SocialRecoveryWalletError::RecoveryAlreadyInProgress)
        } else {
            Ok(
                WalletView {
                    recovery_in_progress: true,
                    new_owner: Some(new_owner),
                    recovery_initiated_at: Some(now),
                    approvals: seq![guardian],
                    ..self
                },
            )
        }
    }

    /// A guardian that has not approved yet adds its approval.
    pub open spec fn after_approve_recovery(self, guardian: Pubkey) -> Result<
        WalletView,
        SocialRecoveryWalletError,
    > {
        if !self.guardians.contains(guardian) {
            Err(SocialRecoveryWalletError::InvalidSigner)
        } else if self.approvals.contains(guardian) {
            Err(SocialRecoveryWalletError::InvalidTransaction)
        } else {
            Ok(WalletView { approvals: self.approvals.push(guardian), ..self })
        }
    }

    /// The account constraint of an approval: a recovery is under way.
    pub open spec fn approve_constraint(self) -> Option<SocialRecoveryWalletError> {
        if !self.recovery_in_progress {
            Some(SocialRecoveryWalletError::NoRecoveryInProgress)
        } else {
            None
        }
    }

    /// An approval, its account constraint checked first.
    pub open spec fn after_approve_recovery_checked(self, guardian: Pubkey) -> Result<
        WalletView,
        SocialRecoveryWalletError,
    > {
        match self.approve_constraint() {
            Some(e) => Err(e),
            None => self.after_approve_recovery(guardian),
        }
    }

    /// Once the waiting period has passed, the proposed owner becomes the
    /// owner and the recovery ends.
    pub open spec fn after_execute_recovery(self, now: i64) -> Result<
        WalletView,
        SocialRecoveryWalletError,
    > {
        match self.recovery_initiated_at {
            None => Err(SocialRecoveryWalletError::NoRecoveryInProgress),
            Some(started) => if now - started < RECOVERY_PERIOD {
                Err(SocialRecoveryWalletError::RecoveryPeriodNotElapsed)
            } else {
                match self.new_owner {
                    None => Err(SocialRecoveryWalletError::InvalidNewOwner),
                    Some(new_owner) => Ok(
                        WalletView { owner: new_owner, ..self.without_recovery() },
                    ),
                }
            },
        }
    }

    /// The account constraints of an execution: a recovery is under way and
    /// the number of approvals, taken modulo 256, reaches the threshold.
    pub open spec fn execute_constraint(self) -> Option<SocialRecoveryWalletError> {
        if !self.recovery_in_progress {
            Some(SocialRecoveryWalletError::NoRecoveryInProgress)
        } else if (self.approvals.len() as u8) < self.threshold {
            Some(SocialRecoveryWalletError::InsufficientGuardians)
        } else {
            None
        }
    }

    /// An execution, its account constraints checked first.
    pub open spec fn after_execute_recovery_checked(self, now: i64) -> Result<
        WalletView,
        SocialRecoveryWalletError,
    > {
        match self.execute_constraint() {
            Some(e) => Err(e),
            None => self.after_execute_recovery(now),
        }
    }

    /// The subtraction that an execution makes fits in an `i64`, wherever
    /// the execution reaches it.
    pub open spec fn execute_no_overflow(self, now: i64) -> bool {
        self.recovery_initiated_at matches Some(started) ==> i64::MIN <= now - started
            <= i64::MAX
    }

    /// The owner ends any recovery.
    pub open spec fn after_cancel_recovery(self) -> Result<WalletView, SocialRecoveryWalletError> {
        Ok(self.without_recovery())
    }

    /// The account constraint of a cancellation: a recovery is under way.
    pub open spec fn cancel_constraint(self) -> Option<SocialRecoveryWalletError> {
        if !self.recovery_in_progress {
            Some(SocialRecoveryWalletError::NoRecoveryInProgress)
        } else {
            None
        }
    }

    /// A cancellation, its account constraint checked first.
    pub open spec fn after_cancel_recovery_checked(self) -> Result<
        WalletView,
        SocialRecoveryWalletError,
    > {
        match self.cancel_constraint() {
            Some(e) => Err(e),
            None => self.after_cancel_recovery(),
        }
    }
}

} // verus!
