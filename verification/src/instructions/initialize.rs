use vstd::prelude::*;
use crate::error::SocialRecoveryWalletError;
use crate::model::initialized;
use crate::pubkey::Pubkey;
use crate::state::Wallet;

verus! {

/// The accounts of a wallet's creation: the payer, who becomes the owner,
/// and the new wallet.
pub struct Initialize {
    pub payer: Pubkey,
    pub wallet: Wallet,
}

impl Initialize {
    /// Sets up the wallet for the payer: no guardians, no recovery, the given
    /// threshold and bump. It always succeeds.
    pub fn process(ctx: &mut Initialize, threshold: u8, bump: u8) -> (r: Result<
        (),
        SocialRecoveryWalletError,
    >)
        ensures
            r is Ok,
            final(ctx).wallet@ == initialized(old(ctx).payer, threshold, bump),
            final(ctx).payer == old(ctx).payer,
            final(ctx).wallet@.wf(),
            final(ctx).wallet@.within_capacity(),
    {
        ctx.wallet.owner = ctx.payer;
        ctx.wallet.guardians = Vec::new();
        ctx.wallet.threshold = threshold;
        ctx.wallet.recovery_in_progress = false;
        ctx.wallet.new_owner = None;
        ctx.wallet.recovery_initiated_at = None;
        ctx.wallet.approvals = Vec::new();
        ctx.wallet.bump = bump;
        Ok(())
    }
}

} // verus!
