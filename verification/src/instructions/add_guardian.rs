use vstd::prelude::*;
use crate::error::SocialRecoveryWalletError;
use crate::model::outcome;
use crate::pubkey::{contains_key, Pubkey};
use crate::state::Wallet;

verus! {

/// The accounts of an addition: the owner who signs, and the wallet.
pub struct AddGuardian {
    pub owner: Pubkey,
    pub wallet: Wallet,
}

impl AddGuardian {
    /// Adds `guardian` to the wallet's list unless it is already there.
    pub fn process(ctx: &mut AddGuardian, guardian: Pubkey) -> (r: Result<
        (),
        SocialRecoveryWalletError,
    >)
        ensures
            outcome(r, final(ctx).wallet@) == old(ctx).wallet@.after_add_guardian(guardian),
            r is Err ==> final(ctx).wallet@ == old(ctx).wallet@,
            final(ctx).owner == old(ctx).owner,
            old(ctx).wallet@.wf() ==> final(ctx).wallet@.wf(),
    {
        if contains_key(&ctx.wallet.guardians, &guardian) {
            return Err(SocialRecoveryWalletError::GuardianAlreadyExists);
        }
        ctx.wallet.guardians.push(guardian);
        Ok(())
    }
}

} // verus!
