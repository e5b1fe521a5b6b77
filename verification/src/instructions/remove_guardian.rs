use vstd::prelude::*;
use crate::error::SocialRecoveryWalletError;
use crate::model::outcome;
use crate::pubkey::{position_of, Pubkey};
use crate::state::Wallet;

verus! {

/// The accounts of a removal: the owner who signs, and the wallet.
pub struct RemoveGuardian {
    pub owner: Pubkey,
    pub wallet: Wallet,
}

impl RemoveGuardian {
    /// Takes the first occurrence of `guardian` out of the wallet's list.
    pub fn process(ctx: &mut RemoveGuardian, guardian: Pubkey) -> (r: Result<
        (),
        SocialRecoveryWalletError,
    >)
        ensures
            outcome(r, final(ctx).wallet@) == old(ctx).wallet@.after_remove_guardian(guardian),
            r is Err ==> final(ctx).wallet@ == old(ctx).wallet@,
            final(ctx).owner == old(ctx).owner,
            old(ctx).wallet@.wf() ==> final(ctx).wallet@.wf(),
    {
        let position = match position_of(&ctx.wallet.guardians, &guardian) {
            Some(pos) => pos,
            None => return Err(SocialRecoveryWalletError::GuardianNotFound),
        };
        ctx.wallet.guardians.remove(position);
        Ok(())
    }
}

} // verus!
