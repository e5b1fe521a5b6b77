use vstd::prelude::*;
use crate::error::SocialRecoveryWalletError;
use crate::model::outcome;
use crate::pubkey::{contains_key, Pubkey};
use crate::state::Wallet;

verus! {

/// The accounts of an approval: the guardian who signs, and the wallet.
pub struct ApproveRecovery {
    pub guardian: Pubkey,
    pub wallet: Wallet,
}

impl ApproveRecovery {
    /// The constraint that the wallet account of an approval must meet: a
    /// recovery is under way.
    pub fn check_constraints(&self) -> (r: Result<(), SocialRecoveryWalletError>)
        ensures
            r == (match self.wallet@.approve_constraint() {
                Some(e) => Err(e),
                None => Ok(()),
            }),
    {
        if !self.wallet.recovery_in_progress {
            return Err(SocialRecoveryWalletError::NoRecoveryInProgress);
        }
        Ok(())
    }

    /// A guardian that has not approved yet adds its approval. This does not
    /// itself check that a recovery is under way: `check_constraints` does.
    pub fn process(ctx: &mut ApproveRecovery) -> (r: Result<(), SocialRecoveryWalletError>)
        ensures
            outcome(r, final(ctx).wallet@) == old(ctx).wallet@.after_approve_recovery(
                old(ctx).guardian,
            ),
            r is Err ==> final(ctx).wallet@ == old(ctx).wallet@,
            final(ctx).guardian == old(ctx).guardian,
            old(ctx).wallet@.wf() && old(ctx).wallet@.recovery_in_progress
                ==> final(ctx).wallet@.wf(),
    {
        if !contains_key(&ctx.wallet.guardians, &ctx.guardian) {
            return Err(SocialRecoveryWalletError::InvalidSigner);
        }
        if contains_key(&ctx.wallet.approvals, &ctx.guardian) {
            return Err(SocialRecoveryWalletError::InvalidTransaction);
        }
        ctx.wallet.approvals.push(ctx.guardian);
        Ok(())
    }
}

} // verus!
