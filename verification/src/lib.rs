//! Settlement engine for a pooled-wager, commit-reveal score contest.
//!
//! Players stake tokens to enter a timed epoch, commit a hidden score,
//! later reveal it, and the top three revealed scores split the pool once
//! the epoch closes. This crate holds the verified core: epoch lifecycle,
//! commit-reveal integrity, the fixed-capacity ranked leaderboard, and the
//! fee and prize arithmetic. Moving value between accounts is the job of an
//! external ledger; its outcome is handed to the engine as a plain value,
//! and the engine's results are payout descriptors for the ledger to act on.

pub mod commitment;
pub mod engine;
pub mod errors;
pub mod events;
pub mod fees;
pub mod identity;
pub mod leaderboard;
pub mod state;

pub use commitment::{commit, verify};
pub use engine::{
    buy_continue_insurance, distribute_prize, end_contest, enter_run, initialize_game,
    mint_trash_pass, submit_score, INSURANCE_FEE,
};
pub use errors::GorbaDomeError;
pub use events::{
    ContestEnded, InsurancePurchased, PrizeDistributed, RunEntered, ScoreSubmitted,
    TrashPassMinted,
};
pub use fees::{prize_amount, split_wager};
pub use identity::Pubkey;
pub use leaderboard::{update_leaderboard, Leaderboard, LeaderboardEntry};
pub use state::{GameState, PlayerEntry, TrashPass};
