//! A custodial token-vesting ledger: a depositor locks an amount of one asset
//! for a beneficiary, and the amount becomes claimable over time under a
//! linear or a cliff release policy.
//!
//! The ledger decides; the host moves tokens. Opening a lock yields the new
//! record and the deposit to perform; a claim updates the record and yields
//! the payout to perform. The host applies the record change and the transfer
//! as one all-or-nothing operation.

pub mod engine;
pub mod error;
pub mod identity;
pub mod operations;

pub use engine::{ClaimAuthority, Locking, ReleasePolicy};
pub use error::CustomError;
pub use identity::AccountId;
pub use operations::{
    lock, lock_indexed, unlock, Lock, Opened, OwnerIndex, Party, TransferOrder, Unlock, Vault,
};
