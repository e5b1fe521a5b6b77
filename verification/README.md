# social_recovery_wallet

A wallet whose owner names guardians. A guardian can start a recovery that
proposes a new owner; other guardians approve it; once the approvals reach the
threshold and a day has passed, the proposed owner owns the wallet. The owner
can cancel a recovery under way.

- `src/` is the library, verified with Verus:
  - `pubkey.rs`: account addresses (32 bytes) and searches in lists of them;
  - `state.rs`: the wallet, its view and its well-formedness;
  - `model.rs`: what each instruction does to the view, or why it is refused;
  - `instructions/`: the accounts of each instruction and its handling;
  - `social_recovery_wallet.rs`: each instruction as a whole, its account
    constraints included;
  - `laws.rs`: what holds of the instructions together.
- `app/` is the on-chain program written with Anchor: it checks signers and
  account addresses, reads the clock, converts the accounts and calls the
  library.
- `tests/` runs the library on concrete wallets.
