use vstd::prelude::*;
use crate::error::SocialRecoveryWalletError;
use crate::model::outcome;
use crate::pubkey::Pubkey;
use crate::state::Wallet;

verus! {

/// The accounts of a cancellation: the owner who signs, and the wallet.
pub struct CancelRecovery {
    pub owner: Pubkey,
    pub wallet: Wallet,
}

impl CancelRecovery {
    /// The constraint that the wallet account of a cancellation must meet: a
    /// recovery is under way.
    pub fn check_constraints(&self) -> (r: Result<(), SocialRecoveryWalletError>)
        ensures
            r == (match self.wallet@.cancel_constraint() {
                Some(e) => Err(e),
                None => Ok(()),
            }),
    {
        if !self.wallet.recovery_in_progress {
            return Err(SocialRecoveryWalletError::NoRecoveryInProgress);
        }
        Ok(())
    }

    /// Ends any recovery: no proposed owner, no start time, no approvals.
    /// It always succeeds.
    pub fn process(ctx: &mut CancelRecovery) -> (r: Result<(), SocialRecoveryWalletError>)
        ensures
            r is Ok,
            outcome(r, final(ctx).wallet@) == old(ctx).wallet@.after_cancel_recovery(),
            final(ctx).owner == old(ctx).owner,
            old(ctx).wallet@.wf() ==> final(ctx).wallet@.wf(),
    {
        ctx.wallet.recovery_in_progress = false;
        ctx.wallet.new_owner = None;
        ctx.wallet.recovery_initiated_at = None;
        ctx.wallet.approvals = Vec::new();
        Ok(())
    }
}

} // verus!
