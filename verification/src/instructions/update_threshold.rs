use vstd::prelude::*;
use crate::error::SocialRecoveryWalletError;
use crate::model::outcome;
use crate::pubkey::Pubkey;
use crate::state::Wallet;

verus! {

/// The accounts of a threshold change: the owner who signs, and the wallet.
pub struct UpdateThreshold {
    pub owner: Pubkey,
    pub wallet: Wallet,
}

impl UpdateThreshold {
    /// Sets the number of approvals that a recovery needs; it must lie
    /// between one and the number of guardians (that number taken modulo 256).
    pub fn process(ctx: &mut UpdateThreshold, new_threshold: u8) -> (r: Result<
        (),
        SocialRecoveryWalletError,
    >)
        ensures
            outcome(r, final(ctx).wallet@) == old(ctx).wallet@.after_update_threshold(
                new_threshold,
            ),
            r is Err ==> final(ctx).wallet@ == old(ctx).wallet@,
            final(ctx).owner == old(ctx).owner,
            old(ctx).wallet@.wf() ==> final(ctx).wallet@.wf(),
    {
        if new_threshold == 0 || new_threshold > ctx.wallet.guardians.len() as u8 {
            return Err(SocialRecoveryWalletError::InvalidThreshold);
        }
        ctx.wallet.threshold = new_threshold;
        Ok(())
    }
}

} // verus!
