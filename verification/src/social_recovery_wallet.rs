//! The wallet program's instructions, each as a whole: the constraints that
//! its accounts declare are checked first, then the instruction is handled.
//! Signatures and account addresses are checked by the runtime before these
//! functions are reached.

use vstd::prelude::*;
use crate::error::SocialRecoveryWalletError;
use crate::instructions::add_guardian::AddGuardian;
use crate::instructions::approve_recovery::ApproveRecovery;
use crate::instructions::cancel_recovery::CancelRecovery;
use crate::instructions::execute_recovery::ExecuteRecovery;
use crate::instructions::initialize::Initialize;
use crate::instructions::initiate_recovery::InitiateRecovery;
use crate::instructions::remove_guardian::RemoveGuardian;
use crate::instructions::update_threshold::UpdateThreshold;
use crate::model::{initialized, outcome};
use crate::pubkey::{contains_key, Pubkey};
use crate::state::MAX_GUARDIANS;

verus! {

/// Creates the payer's wallet: the payer is the owner, there are no
/// guardians and no recovery. It always succeeds.
pub fn initialize(ctx: &mut Initialize, threshold: u8, bump: u8) -> (r: Result<
    (),
    SocialRecoveryWalletError,
>)
    ensures
        r is Ok,
        final(ctx).wallet@ == initialized(old(ctx).payer, threshold, bump),
        final(ctx).payer == old(ctx).payer,
        final(ctx).wallet@.wf(),
        final(ctx).wallet@.within_capacity(),
{
    Initialize::process(ctx, threshold, bump)
}

/// The owner adds `guardian`, unless it is already a guardian or the wallet
/// already has `MAX_GUARDIANS` guardians.
pub fn add_guardian(ctx: &mut AddGuardian, guardian: Pubkey) -> (r: Result<
    (),
    SocialRecoveryWalletError,
>)
    ensures
        outcome(r, final(ctx).wallet@) == old(ctx).wallet@.after_add_guardian_capped(guardian),
        r is Err ==> final(ctx).wallet@ == old(ctx).wallet@,
        final(ctx).owner == old(ctx).owner,
        old(ctx).wallet@.wf() ==> final(ctx).wallet@.wf(),
        old(ctx).wallet@.within_capacity() ==> final(ctx).wallet@.within_capacity(),
{
    if contains_key(&ctx.wallet.guardians, &guardian) {
        return Err(SocialRecoveryWalletError::GuardianAlreadyExists);
    }
    if ctx.wallet.guardians.len() >= MAX_GUARDIANS {
        return Err(SocialRecoveryWalletError::InsufficientGuardians);
    }
    AddGuardian::process(ctx, guardian)
}

/// The owner removes `guardian`.
pub fn remove_guardian(ctx: &mut RemoveGuardian, guardian: Pubkey) -> (r: Result<
    (),
    SocialRecoveryWalletError,
>)
    ensures
        outcome(r, final(ctx).wallet@) == old(ctx).wallet@.after_remove_guardian(guardian),
        r is Err ==> final(ctx).wallet@ == old(ctx).wallet@,
        final(ctx).owner == old(ctx).owner,
        old(ctx).wallet@.wf() ==> final(ctx).wallet@.wf(),
        old(ctx).wallet@.within_capacity() ==> final(ctx).wallet@.within_capacity(),
{
    proof {
        ctx.wallet.guardians@.index_of_first_ensures(guardian);
    }
    RemoveGuardian::process(ctx, guardian)
}

/// The owner sets the number of approvals that a recovery needs.
pub fn update_threshold(ctx: &mut UpdateThreshold, new_threshold: u8) -> (r: Result<
    (),
    SocialRecoveryWalletError,
>)
    ensures
        outcome(r, final(ctx).wallet@) == old(ctx).wallet@.after_update_threshold(new_threshold),
        r is Err ==> final(ctx).wallet@ == old(ctx).wallet@,
        final(ctx).owner == old(ctx).owner,
        old(ctx).wallet@.wf() ==> final(ctx).wallet@.wf(),
        old(ctx).wallet@.within_capacity() ==> final(ctx).wallet@.within_capacity(),
{
    UpdateThreshold::process(ctx, new_threshold)
}

/// A guardian starts a recovery towards the proposed owner at time `now`.
pub fn initiate_recovery(ctx: &mut InitiateRecovery, now: i64) -> (r: Result<
    (),
    SocialRecoveryWalletError,
>)
    ensures
        outcome(r, final(ctx).wallet@) == old(ctx).wallet@.after_initiate_recovery(
            old(ctx).guardian,
            old(ctx).new_owner,
            now,
        ),
        r is Err ==> final(ctx).wallet@ == old(ctx).wallet@,
        final(ctx).guardian == old(ctx).guardian,
        final(ctx).new_owner == old(ctx).new_owner,
        old(ctx).wallet@.wf() ==> final(ctx).wallet@.wf(),
        old(ctx).wallet@.within_capacity() ==> final(ctx).wallet@.within_capacity(),
{
    InitiateRecovery::process(ctx, now)
}

/// A guardian approves the recovery under way.
pub fn approve_recovery(ctx: &mut ApproveRecovery) -> (r: Result<(), SocialRecoveryWalletError>)
    ensures
        outcome(r, final(ctx).wallet@) == old(ctx).wallet@.after_approve_recovery_checked(
            old(ctx).guardian,
        ),
        r is Err ==> final(ctx).wallet@ == old(ctx).wallet@,
        final(ctx).guardian == old(ctx).guardian,
        old(ctx).wallet@.wf() ==> final(ctx).wallet@.wf(),
        old(ctx).wallet@.within_capacity() ==> final(ctx).wallet@.within_capacity(),
{
    ctx.check_constraints()?;
    ApproveRecovery::process(ctx)
}

/// At time `now`, hands the wallet to the proposed owner, once enough
/// guardians have approved and a day has passed since the recovery started.
pub fn execute_recovery(ctx: &mut ExecuteRecovery, now: i64) -> (r: Result<
    (),
    SocialRecoveryWalletError,
>)
    requires
        old(ctx).wallet@.execute_constraint() is None ==> old(ctx).wallet@.execute_no_overflow(
            now,
        ),
    ensures
        outcome(r, final(ctx).wallet@) == old(ctx).wallet@.after_execute_recovery_checked(now),
        r is Err ==> final(ctx).wallet@ == old(ctx).wallet@,
        final(ctx).guardian == old(ctx).guardian,
        old(ctx).wallet@.wf() ==> final(ctx).wallet@.wf(),
        old(ctx).wallet@.within_capacity() ==> final(ctx).wallet@.within_capacity(),
{
    ctx.check_constraints()?;
    ExecuteRecovery::process(ctx, now)
}

/// The owner cancels the recovery under way.
pub fn cancel_recovery(ctx: &mut CancelRecovery) -> (r: Result<(), SocialRecoveryWalletError>)
    ensures
        outcome(r, final(ctx).wallet@) == old(ctx).wallet@.after_cancel_recovery_checked(),
        r is Err ==> final(ctx).wallet@ == old(ctx).wallet@,
        final(ctx).owner == old(ctx).owner,
        old(ctx).wallet@.wf() ==> final(ctx).wallet@.wf(),
        old(ctx).wallet@.within_capacity() ==> final(ctx).wallet@.within_capacity(),
{
    ctx.check_constraints()?;
    CancelRecovery::process(ctx)
}

} // verus!
