use vstd::prelude::*;

use crate::identity::Pubkey;

verus! {

/// The one live epoch: a singleton context threaded through every
/// operation rather than ambient global state.
///
/// `settled_pool_total` freezes the pool at the latest close, because
/// closing resets `total_pool` for the next epoch before prizes are
/// necessarily distributed; prize distribution always reads the frozen
/// snapshot, never the live pool.
#[derive(Clone, Copy, Debug)]
pub struct GameState {
    /// Identity permitted to close epochs and trigger payouts; fixed at
    /// initialization.
    pub authority: Pubkey,
    /// House cut of each gross wager, 0 to 100, fixed at initialization.
    pub house_fee_percentage: u8,
    /// Epoch length in seconds, fixed at initialization.
    pub contest_duration: i64,
    /// When the current epoch started; reset on close.
    pub current_contest_start: i64,
    /// Net-of-fee stake accumulated in the current epoch; zero right after
    /// a close.
    pub total_pool: u64,
    /// Pool snapshot of the epoch settled by the latest close.
    pub settled_pool_total: u64,
    /// Whether the epoch accepts entries.
    pub is_active: bool,
}

impl GameState {
    /// Configuration and clock values every operation may count on: a
    /// legal fee, a positive duration, and a deadline that fits the clock.
    pub open spec fn wf(self) -> bool {
        &&& self.house_fee_percentage <= 100
        &&& 1 <= self.contest_duration
        &&& 0 <= self.current_contest_start
        &&& self.current_contest_start + self.contest_duration <= i64::MAX
    }

    /// The instant the current epoch stops accepting entries and may be
    /// closed.
    pub open spec fn contest_end(self) -> int {
        self.current_contest_start + self.contest_duration
    }
}

/// One player's stake and commitment in the open epoch; at most one
/// unresolved entry per player.
#[derive(Clone, Copy, Debug)]
pub struct PlayerEntry {
    pub player: Pubkey,
    /// What the player staked.
    pub wager_amount: u64,
    /// The stake net of the house fee; this is what feeds the pool.
    pub net_wager: u64,
    /// Opaque digest binding (score, salt, player) supplied at entry time.
    pub score_hash: [u8; 32],
    pub entry_time: i64,
    /// False until a valid reveal is accepted; a failed reveal leaves it
    /// false so the player may retry.
    pub is_completed: bool,
    /// Zero until revealed.
    pub score: u64,
    pub submission_time: i64,
    /// Orthogonal to settlement; set once by the insurance purchase.
    pub insurance_purchased: bool,
}

/// A stateless collectible pass; issuance has no bearing on settlement.
#[derive(Clone, Copy, Debug)]
pub struct TrashPass {
    pub owner: Pubkey,
    pub mint_time: i64,
    pub is_active: bool,
}

} // verus!
