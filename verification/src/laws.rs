//! What holds of the instructions together.

use vstd::prelude::*;
use crate::error::SocialRecoveryWalletError;
use crate::model::{initialized, RECOVERY_PERIOD};
use crate::pubkey::Pubkey;
use crate::state::{MAX_GUARDIANS, WalletView};

verus! {

/// Removing a guardian that was just added gives back the wallet as it was.
pub proof fn lemma_remove_undoes_add(w: WalletView, guardian: Pubkey)
    ensures
        w.after_add_guardian(guardian) matches Ok(w1) ==> w1.after_remove_guardian(guardian)
            == Ok::<WalletView, SocialRecoveryWalletError>(w),
        w.after_add_guardian_capped(guardian) matches Ok(w1) ==> w1.after_remove_guardian(
            guardian,
        ) == Ok::<WalletView, SocialRecoveryWalletError>(w),
{
    if !w.guardians.contains(guardian) {
        let s = w.guardians.push(guardian);
        s.index_of_first_ensures(guardian);
        let i = s.index_of_first(guardian).unwrap();
        assert(s[w.guardians.len() as int] == guardian);
        if i < w.guardians.len() {
            assert(w.guardians[i] == guardian);
        }
        assert(s.remove_value(guardian) =~= w.guardians);
    }
}

/// A guardian cannot be added twice: the second addition is refused.
pub proof fn lemma_no_guardian_twice(w: WalletView, guardian: Pubkey)
    ensures
        w.after_add_guardian(guardian) matches Ok(w1) ==> w1.after_add_guardian(guardian)
            == Err::<WalletView, SocialRecoveryWalletError>(
            SocialRecoveryWalletError::GuardianAlreadyExists,
        ),
        w.after_add_guardian_capped(guardian) matches Ok(w1) ==> w1.after_add_guardian_capped(
            guardian,
        ) == Err::<WalletView, SocialRecoveryWalletError>(
            SocialRecoveryWalletError::GuardianAlreadyExists,
        ),
{
    assert(w.guardians.push(guardian)[w.guardians.len() as int] == guardian);
}

/// In a well-formed wallet, a removed guardian is no longer listed.
pub proof fn lemma_removed_guardian_is_gone(w: WalletView, guardian: Pubkey)
    requires
        w.wf(),
    ensures
        w.after_remove_guardian(guardian) matches Ok(w1) ==> !w1.guardians.contains(guardian),
{
    if w.guardians.contains(guardian) {
        w.guardians.index_of_first_ensures(guardian);
        let i = w.guardians.index_of_first(guardian).unwrap();
        let s = w.guardians.remove_value(guardian);
        assert forall|k: int| 0 <= k < s.len() implies s[k] != guardian by {
            if k < i {
                assert(s[k] == w.guardians[k]);
            } else {
                assert(s[k] == w.guardians[k + 1]);
            }
        }
    }
}

/// Cancelling a recovery that was just started gives back the wallet as it
/// was before the start.
pub proof fn lemma_cancel_undoes_initiate(
    w: WalletView,
    guardian: Pubkey,
    new_owner: Pubkey,
    now: i64,
)
    requires
        w.wf(),
    ensures
        w.after_initiate_recovery(guardian, new_owner, now) matches Ok(w1)
            ==> w1.after_cancel_recovery_checked() == Ok::<WalletView, SocialRecoveryWalletError>(
            w,
        ),
{
    if w.after_initiate_recovery(guardian, new_owner, now) is Ok {
        assert(w.approvals =~= Seq::<Pubkey>::empty());
    }
}

/// Only a guardian can start or approve a recovery, and no guardian's
/// approval counts twice: a second approval is refused.
pub proof fn lemma_guardians_approve_once(
    w: WalletView,
    guardian: Pubkey,
    new_owner: Pubkey,
    now: i64,
)
    ensures
        w.after_initiate_recovery(guardian, new_owner, now) is Ok ==> w.guardians.contains(
            guardian,
        ),
        w.after_approve_recovery_checked(guardian) is Ok ==> w.guardians.contains(guardian),
        w.after_initiate_recovery(guardian, new_owner, now) matches Ok(w1)
            ==> w1.after_approve_recovery_checked(guardian) == Err::<
            WalletView,
            SocialRecoveryWalletError,
        >(SocialRecoveryWalletError::InvalidTransaction),
        w.after_approve_recovery_checked(guardian) matches Ok(w1)
            ==> w1.after_approve_recovery_checked(guardian) == Err::<
            WalletView,
            SocialRecoveryWalletError,
        >(SocialRecoveryWalletError::InvalidTransaction),
{
    assert(seq![guardian][0] == guardian);
    assert(w.approvals.push(guardian)[w.approvals.len() as int] == guardian);
}

/// A recovery is executed only while one is under way, with as many
/// approvals (modulo 256) as the threshold asks, a day or more after it
/// started; the proposed owner then owns the wallet and the recovery ends.
pub proof fn lemma_execution_needs_quorum_and_delay(w: WalletView, now: i64)
    ensures
        w.after_execute_recovery_checked(now) matches Ok(w1) ==> {
            &&& w.recovery_in_progress
            &&& (w.approvals.len() as u8) >= w.threshold
            &&& w.recovery_initiated_at matches Some(started) && now - started >= RECOVERY_PERIOD
            &&& w.new_owner == Some(w1.owner)
            &&& !w1.recovery_in_progress
            &&& w1.approvals.len() == 0
        },
{
}

/// In a well-formed wallet, a recovery with enough approvals (modulo 256)
/// is executed a day or more after it started: the proposed owner owns the
/// wallet, the recovery ends, and guardians, threshold and bump stay.
pub proof fn lemma_recovery_completes(w: WalletView, now: i64)
    requires
        w.wf(),
        w.recovery_in_progress,
        (w.approvals.len() as u8) >= w.threshold,
        w.recovery_initiated_at matches Some(started) && now - started >= RECOVERY_PERIOD,
    ensures
        w.after_execute_recovery_checked(now) matches Ok(w1) && {
            &&& Some(w1.owner) == w.new_owner
            &&& w1 == WalletView { owner: w1.owner, ..w.without_recovery() }
            &&& w1.guardians == w.guardians
            &&& w1.threshold == w.threshold
            &&& w1.bump == w.bump
        },
{
}

/// Only an execution changes the owner: every other instruction that
/// succeeds leaves the owner as it was.
pub proof fn lemma_only_execution_changes_owner(
    w: WalletView,
    key: Pubkey,
    other: Pubkey,
    new_threshold: u8,
    now: i64,
)
    ensures
        w.after_add_guardian(key) matches Ok(w1) ==> w1.owner == w.owner,
        w.after_add_guardian_capped(key) matches Ok(w1) ==> w1.owner == w.owner,
        w.after_remove_guardian(key) matches Ok(w1) ==> w1.owner == w.owner,
        w.after_update_threshold(new_threshold) matches Ok(w1) ==> w1.owner == w.owner,
        w.after_initiate_recovery(key, other, now) matches Ok(w1) ==> w1.owner == w.owner,
        w.after_approve_recovery(key) matches Ok(w1) ==> w1.owner == w.owner,
        w.after_approve_recovery_checked(key) matches Ok(w1) ==> w1.owner == w.owner,
        w.after_cancel_recovery() matches Ok(w1) ==> w1.owner == w.owner,
        w.after_cancel_recovery_checked() matches Ok(w1) ==> w1.owner == w.owner,
{
}

/// Cancelling succeeds exactly while a recovery is under way, however many
/// guardians have approved it; it ends the recovery (no recovery flag, no
/// proposed owner, no start time, no approvals) and leaves the owner,
/// guardians, threshold and bump as they were. The handler alone always does
/// this.
pub proof fn lemma_cancel_ends_recovery(w: WalletView)
    ensures
        w.after_cancel_recovery_checked() is Ok <==> w.recovery_in_progress,
        !w.recovery_in_progress ==> w.after_cancel_recovery_checked() == Err::<
            WalletView,
            SocialRecoveryWalletError,
        >(SocialRecoveryWalletError::NoRecoveryInProgress),
        w.recovery_in_progress ==> w.after_cancel_recovery_checked()
            == w.after_cancel_recovery(),
        w.after_cancel_recovery() matches Ok(w1) && {
            &&& !w1.recovery_in_progress
            &&& w1.new_owner is None
            &&& w1.recovery_initiated_at is None
            &&& w1.approvals.len() == 0
            &&& w1.owner == w.owner
            &&& w1.guardians == w.guardians
            &&& w1.threshold == w.threshold
            &&& w1.bump == w.bump
        },
{
}

/// During a recovery, a guardian that has not approved yet is always
/// accepted, whatever the number of approvals and guardians: its key is
/// appended to the approvals and nothing else changes. A signer that is not
/// a guardian is refused with `InvalidSigner`, a second approval with
/// `InvalidTransaction`, and an approval with no recovery under way with
/// `NoRecoveryInProgress`.
pub proof fn lemma_approval_accepted(w: WalletView, guardian: Pubkey)
    ensures
        w.recovery_in_progress && w.guardians.contains(guardian) && !w.approvals.contains(
            guardian,
        ) ==> w.after_approve_recovery_checked(guardian) == Ok::<
            WalletView,
            SocialRecoveryWalletError,
        >(WalletView { approvals: w.approvals.push(guardian), ..w }),
        w.guardians.contains(guardian) && !w.approvals.contains(guardian)
            ==> w.after_approve_recovery(guardian) == Ok::<WalletView, SocialRecoveryWalletError>(
            WalletView { approvals: w.approvals.push(guardian), ..w },
        ),
        !w.recovery_in_progress ==> w.after_approve_recovery_checked(guardian) == Err::<
            WalletView,
            SocialRecoveryWalletError,
        >(SocialRecoveryWalletError::NoRecoveryInProgress),
        w.recovery_in_progress && !w.guardians.contains(guardian)
            ==> w.after_approve_recovery_checked(guardian) == Err::<
            WalletView,
            SocialRecoveryWalletError,
        >(SocialRecoveryWalletError::InvalidSigner),
        w.recovery_in_progress && w.guardians.contains(guardian) && w.approvals.contains(guardian)
            ==> w.after_approve_recovery_checked(guardian) == Err::<
            WalletView,
            SocialRecoveryWalletError,
        >(SocialRecoveryWalletError::InvalidTransaction),
{
}

/// Any threshold from one up to the number of guardians (taken modulo 256)
/// is accepted, whether it raises or lowers the current one, and only the
/// threshold changes; any other value is refused with `InvalidThreshold`.
pub proof fn lemma_threshold_update_accepted(w: WalletView, new_threshold: u8)
    ensures
        1 <= new_threshold <= (w.guardians.len() as u8) ==> w.after_update_threshold(
            new_threshold,
        ) == Ok::<WalletView, SocialRecoveryWalletError>(
            WalletView { threshold: new_threshold, ..w },
        ),
        !(1 <= new_threshold <= (w.guardians.len() as u8)) ==> w.after_update_threshold(
            new_threshold,
        ) == Err::<WalletView, SocialRecoveryWalletError>(
            SocialRecoveryWalletError::InvalidThreshold,
        ),
{
}

/// A key that is not yet a guardian is added at the end of the list while
/// the list has room, whatever the state of a recovery, and nothing else
/// changes; a key already listed is refused with `GuardianAlreadyExists`,
/// and a new key on a full list with `InsufficientGuardians`. The handler
/// alone accepts any new key.
pub proof fn lemma_guardian_addition_accepted(w: WalletView, guardian: Pubkey)
    ensures
        !w.guardians.contains(guardian) && w.guardians.len() < MAX_GUARDIANS
            ==> w.after_add_guardian_capped(guardian) == Ok::<
            WalletView,
            SocialRecoveryWalletError,
        >(WalletView { guardians: w.guardians.push(guardian), ..w }),
        !w.guardians.contains(guardian) ==> w.after_add_guardian(guardian) == Ok::<
            WalletView,
            SocialRecoveryWalletError,
        >(WalletView { guardians: w.guardians.push(guardian), ..w }),
        w.guardians.contains(guardian) ==> w.after_add_guardian_capped(guardian) == Err::<
            WalletView,
            SocialRecoveryWalletError,
        >(SocialRecoveryWalletError::GuardianAlreadyExists),
        w.guardians.contains(guardian) ==> w.after_add_guardian(guardian) == Err::<
            WalletView,
            SocialRecoveryWalletError,
        >(SocialRecoveryWalletError::GuardianAlreadyExists),
        !w.guardians.contains(guardian) && w.guardians.len() >= MAX_GUARDIANS
            ==> w.after_add_guardian_capped(guardian) == Err::<
            WalletView,
            SocialRecoveryWalletError,
        >(SocialRecoveryWalletError::InsufficientGuardians),
{
}

/// A listed guardian is taken out of the list (its first occurrence, the
/// others keeping their order), whatever the state of a recovery, and
/// nothing else changes; a key not listed is refused with
/// `GuardianNotFound`.
pub proof fn lemma_guardian_removal_accepted(w: WalletView, guardian: Pubkey)
    ensures
        w.guardians.contains(guardian) ==> (w.after_remove_guardian(guardian) matches Ok(w1) && {
            &&& w1 == WalletView { guardians: w1.guardians, ..w }
            &&& w1.guardians.len() + 1 == w.guardians.len()
            &&& exists|i: int|
                0 <= i < w.guardians.len() && w.guardians[i] == guardian && (forall|j: int|
                    0 <= j < i ==> w.guardians[j] != guardian) && w1.guardians
                    == w.guardians.subrange(0, i) + w.guardians.subrange(
                    i + 1,
                    w.guardians.len() as int,
                )
        }),
        !w.guardians.contains(guardian) ==> w.after_remove_guardian(guardian) == Err::<
            WalletView,
            SocialRecoveryWalletError,
        >(SocialRecoveryWalletError::GuardianNotFound),
{
    if w.guardians.contains(guardian) {
        w.guardians.index_of_first_ensures(guardian);
        let i = w.guardians.index_of_first(guardian).unwrap();
        assert(w.guardians.remove_value(guardian) =~= w.guardians.subrange(0, i)
            + w.guardians.subrange(i + 1, w.guardians.len() as int));
    }
}

/// With no recovery under way, any guardian can start one towards any
/// proposed owner (a guardian or the owner included) at any time: the
/// recovery is under way, proposes that owner, started at that time, and
/// holds that guardian's approval alone; owner, guardians, threshold and
/// bump do not change. A signer that is not a guardian is refused with
/// `InvalidSigner`; a guardian during a recovery with
/// `RecoveryAlreadyInProgress`.
pub proof fn lemma_initiation_accepted(
    w: WalletView,
    guardian: Pubkey,
    new_owner: Pubkey,
    now: i64,
)
    ensures
        !w.recovery_in_progress && w.guardians.contains(guardian)
            ==> (w.after_initiate_recovery(guardian, new_owner, now) matches Ok(w1) && {
            &&& w1.recovery_in_progress
            &&& w1.new_owner == Some(new_owner)
            &&& w1.recovery_initiated_at == Some(now)
            &&& w1.approvals == seq![guardian]
            &&& w1.owner == w.owner
            &&& w1.guardians == w.guardians
            &&& w1.threshold == w.threshold
            &&& w1.bump == w.bump
        }),
        !w.guardians.contains(guardian) ==> w.after_initiate_recovery(guardian, new_owner, now)
            == Err::<WalletView, SocialRecoveryWalletError>(
            SocialRecoveryWalletError::InvalidSigner,
        ),
        w.recovery_in_progress && w.guardians.contains(guardian) ==> w.after_initiate_recovery(
            guardian,
            new_owner,
            now,
        ) == Err::<WalletView, SocialRecoveryWalletError>(
            SocialRecoveryWalletError::RecoveryAlreadyInProgress,
        ),
{
}

/// A new wallet belongs to the payer, lists no guardians, has the given
/// threshold and bump, and no recovery under way.
pub proof fn lemma_initialized_wallet(owner: Pubkey, threshold: u8, bump: u8)
    ensures
        initialized(owner, threshold, bump).owner == owner,
        initialized(owner, threshold, bump).guardians.len() == 0,
        initialized(owner, threshold, bump).threshold == threshold,
        initialized(owner, threshold, bump).bump == bump,
        !initialized(owner, threshold, bump).recovery_in_progress,
        initialized(owner, threshold, bump).new_owner is None,
        initialized(owner, threshold, bump).recovery_initiated_at is None,
        initialized(owner, threshold, bump).approvals.len() == 0,
{
}

/// An execution is accepted exactly when a recovery is under way, the
/// approvals (modulo 256) reach the threshold, a day or more has passed since
/// the start and an owner is proposed; the proposed owner then owns the
/// wallet, the recovery ends, and guardians, threshold and bump stay. Each
/// refusal names the first of these that fails.
pub proof fn lemma_execution_accepted(w: WalletView, now: i64)
    ensures
        w.after_execute_recovery_checked(now) is Ok <==> {
            &&& w.recovery_in_progress
            &&& (w.approvals.len() as u8) >= w.threshold
            &&& w.recovery_initiated_at matches Some(started) && now - started >= RECOVERY_PERIOD
            &&& w.new_owner is Some
        },
        w.after_execute_recovery_checked(now) matches Ok(w1) ==> {
            &&& Some(w1.owner) == w.new_owner
            &&& !w1.recovery_in_progress
            &&& w1.new_owner is None
            &&& w1.recovery_initiated_at is None
            &&& w1.approvals.len() == 0
            &&& w1.guardians == w.guardians
            &&& w1.threshold == w.threshold
            &&& w1.bump == w.bump
        },
        !w.recovery_in_progress ==> w.after_execute_recovery_checked(now) == Err::<
            WalletView,
            SocialRecoveryWalletError,
        >(SocialRecoveryWalletError::NoRecoveryInProgress),
        w.recovery_in_progress && (w.approvals.len() as u8) < w.threshold
            ==> w.after_execute_recovery_checked(now) == Err::<
            WalletView,
            SocialRecoveryWalletError,
        >(SocialRecoveryWalletError::InsufficientGuardians),
        w.recovery_in_progress && (w.approvals.len() as u8) >= w.threshold
            && w.recovery_initiated_at is None ==> w.after_execute_recovery_checked(now) == Err::<
            WalletView,
            SocialRecoveryWalletError,
        >(SocialRecoveryWalletError::NoRecoveryInProgress),
        w.recovery_in_progress && (w.approvals.len() as u8) >= w.threshold
            && (w.recovery_initiated_at matches Some(started) && now - started < RECOVERY_PERIOD)
            ==> w.after_execute_recovery_checked(now) == Err::<
            WalletView,
            SocialRecoveryWalletError,
        >(SocialRecoveryWalletError::RecoveryPeriodNotElapsed),
        w.recovery_in_progress && (w.approvals.len() as u8) >= w.threshold
            && (w.recovery_initiated_at matches Some(started) && now - started >= RECOVERY_PERIOD)
            && w.new_owner is None ==> w.after_execute_recovery_checked(now) == Err::<
            WalletView,
            SocialRecoveryWalletError,
        >(SocialRecoveryWalletError::InvalidNewOwner),
{
}

} // verus!
