use vstd::prelude::*;

verus! {

/// Every way an operation can be refused.
///
/// Errors are local validation failures: an operation either fully commits
/// or reports exactly one of these and leaves all state untouched.
#[derive(Clone, Copy, Debug, PartialEq, Eq, Structural)]
pub enum GorbaDomeError {
    /// The epoch is not accepting entries.
    ContestNotActive,
    /// The epoch's entry window has passed.
    ContestEnded,
    /// The epoch cannot be closed before its deadline.
    ContestNotEnded,
    /// The caller does not own the entry or leaderboard slot it names.
    UnauthorizedPlayer,
    /// The caller is not the configured authority.
    Unauthorized,
    /// The entry was already resolved by a successful reveal.
    RunAlreadyCompleted,
    /// The player already has an unresolved entry in the open epoch.
    DuplicateEntry,
    /// The revealed score and salt do not match the stored commitment.
    InvalidScoreHash,
    /// Insurance was already bought for this entry.
    InsuranceAlreadyPurchased,
    /// A prize rank outside 1 through 3.
    InvalidRank,
    /// No populated leaderboard slot at the requested rank.
    PlayerNotFound,
    /// A house fee above 100 percent at initialization.
    InvalidFee,
    /// The external ledger refused the stake transfer.
    TransferFailed,
}

} // verus!
