use vstd::prelude::*;

verus! {

/// Why an operation on the ledger was rejected. A rejected operation changes
/// no state.
#[derive(Debug, Clone, Copy, PartialEq, Eq, Structural)]
pub enum CustomError {
    /// A lock of zero units was requested.
    ZeroAmount,
    /// A linear schedule whose end is not after its start.
    InvalidSchedule,
    /// The caller is not the party that the policy requires.
    Unauthorized,
    /// A linear lock was claimed at or before its start.
    NotYetStarted,
    /// A cliff lock was claimed before its deadline.
    DeadlineNotReached,
    /// The lock has nothing left to release.
    AlreadyFullyClaimed,
}

} // verus!
