use social_recovery_wallet::error::SocialRecoveryWalletError;
use social_recovery_wallet::instructions::add_guardian::AddGuardian;
use social_recovery_wallet::instructions::approve_recovery::ApproveRecovery;
use social_recovery_wallet::instructions::cancel_recovery::CancelRecovery;
use social_recovery_wallet::instructions::execute_recovery::ExecuteRecovery;
use social_recovery_wallet::instructions::initialize::Initialize;
use social_recovery_wallet::instructions::initiate_recovery::InitiateRecovery;
use social_recovery_wallet::instructions::remove_guardian::RemoveGuardian;
use social_recovery_wallet::instructions::update_threshold::UpdateThreshold;
use social_recovery_wallet::model::RECOVERY_PERIOD;
use social_recovery_wallet::pubkey::Pubkey;
use social_recovery_wallet::social_recovery_wallet::{
    add_guardian, approve_recovery, cancel_recovery, execute_recovery, initialize,
    initiate_recovery, remove_guardian, update_threshold,
};
use social_recovery_wallet::state::{Wallet, MAX_GUARDIANS};

fn key(n: u8) -> Pubkey {
    Pubkey::new_from_array([n; 32])
}

fn zeroed() -> Wallet {
    Wallet {
        owner: Pubkey::new_from_array([0; 32]),
        guardians: Vec::new(),
        threshold: 0,
        recovery_in_progress: false,
        new_owner: None,
        recovery_initiated_at: None,
        approvals: Vec::new(),
        bump: 0,
    }
}

fn fresh(owner: Pubkey, threshold: u8) -> Wallet {
    let mut ctx = Initialize { payer: owner, wallet: zeroed() };
    assert_eq!(initialize(&mut ctx, threshold, 255), Ok(()));
    ctx.wallet
}

fn add(w: Wallet, g: Pubkey) -> (Result<(), SocialRecoveryWalletError>, Wallet) {
    let mut ctx = AddGuardian { owner: w.owner, wallet: w };
    let r = add_guardian(&mut ctx, g);
    (r, ctx.wallet)
}

fn remove(w: Wallet, g: Pubkey) -> (Result<(), SocialRecoveryWalletError>, Wallet) {
    let mut ctx = RemoveGuardian { owner: w.owner, wallet: w };
    let r = remove_guardian(&mut ctx, g);
    (r, ctx.wallet)
}

fn initiate(w: Wallet, g: Pubkey, n: Pubkey, now: i64) -> (Result<(), SocialRecoveryWalletError>, Wallet) {
    let mut ctx = InitiateRecovery { guardian: g, wallet: w, new_owner: n };
    let r = initiate_recovery(&mut ctx, now);
    (r, ctx.wallet)
}

fn approve(w: Wallet, g: Pubkey) -> (Result<(), SocialRecoveryWalletError>, Wallet) {
    let mut ctx = ApproveRecovery { guardian: g, wallet: w };
    let r = approve_recovery(&mut ctx);
    (r, ctx.wallet)
}

fn execute(w: Wallet, g: Pubkey, now: i64) -> (Result<(), SocialRecoveryWalletError>, Wallet) {
    let mut ctx = ExecuteRecovery { guardian: g, wallet: w };
    let r = execute_recovery(&mut ctx, now);
    (r, ctx.wallet)
}

fn cancel(w: Wallet) -> (Result<(), SocialRecoveryWalletError>, Wallet) {
    let mut ctx = CancelRecovery { owner: w.owner, wallet: w };
    let r = cancel_recovery(&mut ctx);
    (r, ctx.wallet)
}

fn threshold(w: Wallet, t: u8) -> (Result<(), SocialRecoveryWalletError>, Wallet) {
    let mut ctx = UpdateThreshold { owner: w.owner, wallet: w };
    let r = update_threshold(&mut ctx, t);
    (r, ctx.wallet)
}

fn same(a: &Wallet, b: &Wallet) -> bool {
    a.owner == b.owner
        && a.guardians == b.guardians
        && a.threshold == b.threshold
        && a.recovery_in_progress == b.recovery_in_progress
        && a.new_owner == b.new_owner
        && a.recovery_initiated_at == b.recovery_initiated_at
        && a.approvals == b.approvals
        && a.bump == b.bump
}

#[test]
fn initialize_creates_empty_wallet() {
    let w = fresh(key(1), 2);
    assert_eq!(w.owner, key(1));
    assert!(w.guardians.is_empty());
    assert_eq!(w.threshold, 2);
    assert!(!w.recovery_in_progress);
    assert_eq!(w.bump, 255);
}

#[test]
fn full_recovery_flow() {
    let mut w = fresh(key(1), 1);
    for g in 2..=4 {
        let (r, w2) = add(w, key(g));
        assert_eq!(r, Ok(()));
        w = w2;
    }
    let (r, w) = threshold(w, 2);
    assert_eq!(r, Ok(()));
    let (r, w) = initiate(w, key(2), key(9), 1_000);
    assert_eq!(r, Ok(()));
    // One approval is not enough for a threshold of two.
    let (r, w) = execute(w, key(2), 1_000 + RECOVERY_PERIOD);
    assert_eq!(r, Err(SocialRecoveryWalletError::InsufficientGuardians));
    let (r, w) = approve(w, key(3));
    assert_eq!(r, Ok(()));
    let (r, w) = execute(w, key(3), 1_000 + RECOVERY_PERIOD - 1);
    assert_eq!(r, Err(SocialRecoveryWalletError::RecoveryPeriodNotElapsed));
    let (r, w) = execute(w, key(3), 1_000 + RECOVERY_PERIOD);
    assert_eq!(r, Ok(()));
    assert_eq!(w.owner, key(9));
    assert!(!w.recovery_in_progress);
    assert!(w.approvals.is_empty());
    assert_eq!(w.guardians, vec![key(2), key(3), key(4)]);
    // Nothing left to execute or cancel.
    let (r, w) = execute(w, key(3), 10_000_000);
    assert_eq!(r, Err(SocialRecoveryWalletError::NoRecoveryInProgress));
    let (r, _) = cancel(w);
    assert_eq!(r, Err(SocialRecoveryWalletError::NoRecoveryInProgress));
}

#[test]
fn add_guardian_caps_at_max() {
    let mut w = fresh(key(0), 1);
    for g in 1..=MAX_GUARDIANS as u8 {
        let (r, w2) = add(w, key(g));
        assert_eq!(r, Ok(()));
        w = w2;
    }
    let (r, w) = add(w, key(200));
    assert_eq!(r, Err(SocialRecoveryWalletError::InsufficientGuardians));
    assert_eq!(w.guardians.len(), MAX_GUARDIANS);
    // A duplicate is reported before the cap.
    let (r, _) = add(w, key(1));
    assert_eq!(r, Err(SocialRecoveryWalletError::GuardianAlreadyExists));
}

#[test]
fn remove_undoes_add_on_a_wallet() {
    let (_, w) = add(fresh(key(0), 1), key(5));
    let (_, w) = add(w, key(6));
    let before = Wallet { guardians: w.guardians.clone(), approvals: w.approvals.clone(), ..w };
    let (r, w1) = add(w, key(7));
    assert_eq!(r, Ok(()));
    let (r, w2) = remove(w1, key(7));
    assert_eq!(r, Ok(()));
    assert!(same(&w2, &before));
}

#[test]
fn no_guardian_twice() {
    let (r, w) = add(fresh(key(0), 1), key(5));
    assert_eq!(r, Ok(()));
    let (r, w) = add(w, key(5));
    assert_eq!(r, Err(SocialRecoveryWalletError::GuardianAlreadyExists));
    assert_eq!(w.guardians, vec![key(5)]);
}

#[test]
fn removed_guardian_is_gone() {
    let (_, w) = add(fresh(key(0), 1), key(5));
    let (_, w) = add(w, key(6));
    let (r, w) = remove(w, key(5));
    assert_eq!(r, Ok(()));
    assert_eq!(w.guardians, vec![key(6)]);
    let (r, _) = remove(w, key(5));
    assert_eq!(r, Err(SocialRecoveryWalletError::GuardianNotFound));
}

#[test]
fn cancel_undoes_initiate() {
    let (_, w) = add(fresh(key(0), 1), key(5));
    let before = Wallet { guardians: w.guardians.clone(), approvals: w.approvals.clone(), ..w };
    let (r, w) = initiate(w, key(5), key(9), 77);
    assert_eq!(r, Ok(()));
    let (r, w) = cancel(w);
    assert_eq!(r, Ok(()));
    assert!(same(&w, &before));
}

#[test]
fn guardians_approve_once() {
    let (_, w) = add(fresh(key(0), 1), key(5));
    let (_, w) = add(w, key(6));
    // Not a guardian: refused.
    let (r, w) = initiate(w, key(7), key(9), 1);
    assert_eq!(r, Err(SocialRecoveryWalletError::InvalidSigner));
    let (r, w) = initiate(w, key(5), key(9), 1);
    assert_eq!(r, Ok(()));
    let (r, w) = approve(w, key(5));
    assert_eq!(r, Err(SocialRecoveryWalletError::InvalidTransaction));
    let (r, w) = approve(w, key(7));
    assert_eq!(r, Err(SocialRecoveryWalletError::InvalidSigner));
    let (r, w) = approve(w, key(6));
    assert_eq!(r, Ok(()));
    let (r, w) = approve(w, key(6));
    assert_eq!(r, Err(SocialRecoveryWalletError::InvalidTransaction));
    assert_eq!(w.approvals, vec![key(5), key(6)]);
    let (r, _) = initiate(w, key(6), key(8), 2);
    assert_eq!(r, Err(SocialRecoveryWalletError::RecoveryAlreadyInProgress));
}

#[test]
fn approve_without_recovery_is_refused() {
    let (_, w) = add(fresh(key(0), 1), key(5));
    let (r, w) = approve(w, key(5));
    assert_eq!(r, Err(SocialRecoveryWalletError::NoRecoveryInProgress));
    assert!(w.approvals.is_empty());
}

#[test]
fn only_execution_changes_owner() {
    let (_, w) = add(fresh(key(1), 1), key(5));
    let (_, w) = threshold(w, 1);
    let (_, w) = initiate(w, key(5), key(9), 0);
    assert_eq!(w.owner, key(1));
    let (_, w) = cancel(w);
    assert_eq!(w.owner, key(1));
    let (_, w) = initiate(w, key(5), key(9), 0);
    let (r, w) = execute(w, key(5), RECOVERY_PERIOD);
    assert_eq!(r, Ok(()));
    assert_eq!(w.owner, key(9));
}

#[test]
fn execute_counts_approvals_modulo_256() {
    // 256 approvals count as zero; a threshold of one is then not reached.
    let approvals: Vec<Pubkey> = (0..256u32).map(|i| {
        let mut b = [1u8; 32];
        b[0] = i as u8;
        Pubkey::new_from_array(b)
    }).collect();
    let w = Wallet {
        owner: key(0),
        guardians: approvals.clone(),
        threshold: 1,
        recovery_in_progress: true,
        new_owner: Some(key(9)),
        recovery_initiated_at: Some(0),
        approvals,
        bump: 0,
    };
    let (r, _) = execute(w, key(1), RECOVERY_PERIOD);
    assert_eq!(r, Err(SocialRecoveryWalletError::InsufficientGuardians));
}

#[test]
fn threshold_zero_recovery_executes_with_initiator_only() {
    let (_, w) = add(fresh(key(1), 0), key(5));
    let (r, w) = initiate(w, key(5), key(9), -100);
    assert_eq!(r, Ok(()));
    let (r, w) = execute(w, key(5), -100 + RECOVERY_PERIOD);
    assert_eq!(r, Ok(()));
    assert_eq!(w.owner, key(9));
}
