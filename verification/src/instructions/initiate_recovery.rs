use vstd::prelude::*;
use crate::error::SocialRecoveryWalletError;
use crate::model::outcome;
use crate::pubkey::{contains_key, Pubkey};
use crate::state::Wallet;

verus! {

/// The accounts of a recovery's start: the guardian who signs, the wallet,
/// and the proposed new owner.
pub struct InitiateRecovery {
    pub guardian: Pubkey,
    pub wallet: Wallet,
    pub new_owner: Pubkey,
}

impl InitiateRecovery {
    /// A guardian starts a recovery towards `new_owner` at time `now` (the
    /// clock's unix timestamp); the guardian's own approval is the first.
    pub fn process(ctx: &mut InitiateRecovery, now: i64) -> (r: Result<
        (),
        SocialRecoveryWalletError,
    >)
        ensures
            outcome(r, final(ctx).wallet@) == old(ctx).wallet@.after_initiate_recovery(
                old(ctx).guardian,
                old(ctx).new_owner,
                now,
            ),
            r is Err ==> final(ctx).wallet@ == old(ctx).wallet@,
            final(ctx).guardian == old(ctx).guardian,
            final(ctx).new_owner == old(ctx).new_owner,
            old(ctx).wallet@.wf() ==> final(ctx).wallet@.wf(),
    {
        if !contains_key(&ctx.wallet.guardians, &ctx.guardian) {
            return Err(SocialRecoveryWalletError::InvalidSigner);
        }
        if ctx.wallet.recovery_in_progress {
            return Err(SocialRecoveryWalletError::RecoveryAlreadyInProgress);
        }
        ctx.wallet.recovery_in_progress = true;
        ctx.wallet.new_owner = Some(ctx.new_owner);
        ctx.wallet.recovery_initiated_at = Some(now);
        ctx.wallet.approvals = vec![ctx.guardian];
        assert(ctx.wallet.approvals@ =~= seq![ctx.guardian]);
        Ok(())
    }
}

} // verus!
