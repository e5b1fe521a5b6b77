use vstd::prelude::*;
use crate::error::SocialRecoveryWalletError;
use crate::model::{outcome, RECOVERY_PERIOD};
use crate::pubkey::Pubkey;
use crate::state::Wallet;

verus! {

/// The accounts of an execution: the guardian who signs, and the wallet.
pub struct ExecuteRecovery {
    pub guardian: Pubkey,
    pub wallet: Wallet,
}

impl ExecuteRecovery {
    /// The constraints that the wallet account of an execution must meet: a
    /// recovery is under way, and the number of approvals (modulo 256)
    /// reaches the threshold.
    pub fn check_constraints(&self) -> (r: Result<(), SocialRecoveryWalletError>)
        ensures
            r == (match self.wallet@.execute_constraint() {
                Some(e) => Err(e),
                None => Ok(()),
            }),
    {
        if !self.wallet.recovery_in_progress {
            return Err(SocialRecoveryWalletError::NoRecoveryInProgress);
        }
        if (self.wallet.approvals.len() as u8) < self.wallet.threshold {
            return Err(SocialRecoveryWalletError::InsufficientGuardians);
        }
        Ok(())
    }

    /// At time `now` (the clock's unix timestamp), once a day has passed since
    /// the recovery started, hands the wallet to the proposed owner and ends
    /// the recovery.
    pub fn process(ctx: &mut ExecuteRecovery, now: i64) -> (r: Result<
        (),
        SocialRecoveryWalletError,
    >)
        requires
            old(ctx).wallet@.execute_no_overflow(now),
        ensures
            outcome(r, final(ctx).wallet@) == old(ctx).wallet@.after_execute_recovery(now),
            r is Err ==> final(ctx).wallet@ == old(ctx).wallet@,
            final(ctx).guardian == old(ctx).guardian,
            old(ctx).wallet@.wf() ==> final(ctx).wallet@.wf(),
    {
        let recovery_initiated_at = match ctx.wallet.recovery_initiated_at {
            Some(t) => t,
            None => return Err(SocialRecoveryWalletError::NoRecoveryInProgress),
        };
        let recovery_period: i64 = RECOVERY_PERIOD;
        if now - recovery_initiated_at < recovery_period {
            return Err(SocialRecoveryWalletError::RecoveryPeriodNotElapsed);
        }
        let new_owner = match ctx.wallet.new_owner {
            Some(k) => k,
            None => return Err(SocialRecoveryWalletError::InvalidNewOwner),
        };
        ctx.wallet.owner = new_owner;
        ctx.wallet.recovery_in_progress = false;
        ctx.wallet.new_owner = None;
        ctx.wallet.recovery_initiated_at = None;
        ctx.wallet.approvals = Vec::new();
        Ok(())
    }
}

} // verus!
