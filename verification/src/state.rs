//! The wallet account and its abstract view.

use vstd::prelude::*;
use crate::pubkey::Pubkey;

verus! {

/// The most guardians that a wallet holds.
pub const MAX_GUARDIANS: usize = 10;

/// The state of one wallet.
pub struct Wallet {
    pub owner: Pubkey,
    pub guardians: Vec<Pubkey>,
    pub threshold: u8,
    pub recovery_in_progress: bool,
    pub new_owner: Option<Pubkey>,
    pub recovery_initiated_at: Option<i64>,
    pub approvals: Vec<Pubkey>,
    pub bump: u8,
}

/// The wallet as a mathematical value: the lists become sequences.
#[verifier::ext_equal]
pub struct WalletView {
    pub owner: Pubkey,
    pub guardians: Seq<Pubkey>,
    pub threshold: u8,
    pub recovery_in_progress: bool,
    pub new_owner: Option<Pubkey>,
    pub recovery_initiated_at: Option<i64>,
    pub approvals: Seq<Pubkey>,
    pub bump: u8,
}

impl View for Wallet {
    type V = WalletView;

    open spec fn view(&self) -> WalletView {
        WalletView {
            owner: self.owner,
            guardians: self.guardians@,
            threshold: self.threshold,
            recovery_in_progress: self.recovery_in_progress,
            new_owner: self.new_owner,
            recovery_initiated_at: self.recovery_initiated_at,
            approvals: self.approvals@,
            bump: self.bump,
        }
    }
}

impl Wallet {
    /// The bytes that a wallet account reserves: each field at its largest,
    /// with room for `MAX_GUARDIANS` guardians and as many approvals.
    pub const LEN: usize = 32 + 4 + (32 * MAX_GUARDIANS) + 1 + 1 + 33 + 9 + 4 + (32
        * MAX_GUARDIANS) + 1;
}

impl WalletView {
    /// The recovery fields agree with one another: a recovery under way has a
    /// proposed owner, a start time and at least one approval, none twice; with
    /// no recovery under way all three are empty. No guardian is listed twice.
    pub open spec fn wf(self) -> bool {
        &&& self.guardians.no_duplicates()
        &&& self.approvals.no_duplicates()
        &&& self.recovery_in_progress == self.new_owner is Some
        &&& self.recovery_in_progress == self.recovery_initiated_at is Some
        &&& self.recovery_in_progress ==> self.approvals.len() >= 1
        &&& !self.recovery_in_progress ==> self.approvals.len() == 0
    }

    /// No more than `MAX_GUARDIANS` guardians are listed.
    pub open spec fn within_capacity(self) -> bool {
        self.guardians.len() <= MAX_GUARDIANS
    }

    /// The same wallet with no recovery under way.
    pub open spec fn without_recovery(self) -> WalletView {
        WalletView {
            recovery_in_progress: false,
            new_owner: None,
            recovery_initiated_at: None,
            approvals: Seq::empty(),
            ..self
        }
    }
}

/// A guardian record of a wallet (not used by the instructions).
pub struct Guardian {
    pub wallet: Pubkey,
    pub guardian: Pubkey,
    pub bump: u8,
}

/// A recovery record of a wallet (not used by the instructions).
pub struct Recovery {
    pub wallet: Pubkey,
    pub new_owner: Pubkey,
    pub initiated_at: i64,
    pub approvals: Vec<Pubkey>,
    pub bump: u8,
}

} // verus!
