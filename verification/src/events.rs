use vstd::prelude::*;

use crate::identity::Pubkey;

verus! {

/// A player funded and entered the open epoch.
#[derive(Clone, Copy, Debug)]
pub struct RunEntered {
    pub player: Pubkey,
    pub wager_amount: u64,
    pub entry_time: i64,
}

/// A commitment was reopened with a matching score and salt.
#[derive(Clone, Copy, Debug)]
pub struct ScoreSubmitted {
    pub player: Pubkey,
    pub score: u64,
    pub submission_time: i64,
}

/// An epoch was closed; carries the pool it settled.
#[derive(Clone, Copy, Debug)]
pub struct ContestEnded {
    pub total_pool: u64,
    pub end_time: i64,
}

/// Continue insurance was bought for an entry.
#[derive(Clone, Copy, Debug)]
pub struct InsurancePurchased {
    pub player: Pubkey,
    pub fee: u64,
}

/// A collectible pass was issued.
#[derive(Clone, Copy, Debug)]
pub struct TrashPassMinted {
    pub player: Pubkey,
    pub mint_time: i64,
}

/// A payout descriptor: who is owed how much for which rank. The external
/// settlement step executes the transfer it describes.
#[derive(Clone, Copy, Debug)]
pub struct PrizeDistributed {
    pub winner: Pubkey,
    pub rank: u8,
    pub amount: u64,
}

} // verus!
