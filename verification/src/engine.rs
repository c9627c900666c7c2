use vstd::prelude::*;

use crate::commitment::{commit_digest, verify};
use crate::errors::GorbaDomeError;
use crate::events::{
    ContestEnded, InsurancePurchased, PrizeDistributed, RunEntered, ScoreSubmitted,
    TrashPassMinted,
};
use crate::fees::{prize_amount, spec_net_wager, spec_prize, split_wager};
use crate::identity::Pubkey;
use crate::leaderboard::{offer_spec, populated, update_leaderboard, Leaderboard, LeaderboardEntry};
use crate::state::{GameState, PlayerEntry, TrashPass};

verus! {

/// Flat fee for continue insurance, in base token units.
pub const INSURANCE_FEE: u64 = 1_000_000;

/// Creates the epoch state: the authority and fee are fixed for good, the
/// first epoch opens at `now`, and the pool starts empty.
pub fn initialize_game(
    authority: Pubkey,
    house_fee_percentage: u8,
    contest_duration: i64,
    now: i64,
) -> (r: Result<GameState, GorbaDomeError>)
    requires
        1 <= contest_duration,
        0 <= now,
        now + contest_duration <= i64::MAX,
    ensures
        house_fee_percentage > 100 ==> r == Err::<GameState, GorbaDomeError>(
            GorbaDomeError::InvalidFee,
        ),
        house_fee_percentage <= 100 ==> r == Ok::<GameState, GorbaDomeError>(
            (GameState {
                authority,
                house_fee_percentage,
                contest_duration,
                current_contest_start: now,
                total_pool: 0,
                settled_pool_total: 0,
                is_active: true,
            }),
        ),
        r matches Ok(g) ==> g.wf(),
{
    if house_fee_percentage > 100 {
        return Err(GorbaDomeError::InvalidFee);
    }
    Ok(
        GameState {
            authority,
            house_fee_percentage,
            contest_duration,
            current_contest_start: now,
            total_pool: 0,
            settled_pool_total: 0,
            is_active: true,
        },
    )
}

/// A player stakes `wager_amount` and commits to a hidden score.
///
/// The caller reports with `entry_exists` whether the player already holds
/// an unresolved entry this epoch, and with `transfer_ok` whether the
/// external ledger moved the stake into pool custody; the ledger is only
/// asked once the timing and duplicate checks pass, and a refused transfer
/// leaves all state untouched. On success the net wager joins the pool and
/// the new entry is returned together with its event.
pub fn enter_run(
    game_state: &mut GameState,
    player: Pubkey,
    wager_amount: u64,
    score_hash: [u8; 32],
    entry_exists: bool,
    transfer_ok: bool,
    now: i64,
) -> (r: Result<(PlayerEntry, RunEntered), GorbaDomeError>)
    requires
        old(game_state).wf(),
        old(game_state).total_pool + wager_amount <= u64::MAX,
    ensures
        final(game_state).wf(),
        r is Err ==> *final(game_state) == *old(game_state),
        !old(game_state).is_active ==> r == Err::<(PlayerEntry, RunEntered), GorbaDomeError>(
            GorbaDomeError::ContestNotActive,
        ),
        old(game_state).is_active && now >= old(game_state).contest_end() ==> r == Err::<
            (PlayerEntry, RunEntered),
            GorbaDomeError,
        >(GorbaDomeError::ContestEnded),
        old(game_state).is_active && now < old(game_state).contest_end() && entry_exists ==> r
            == Err::<(PlayerEntry, RunEntered), GorbaDomeError>(GorbaDomeError::DuplicateEntry),
        old(game_state).is_active && now < old(game_state).contest_end() && !entry_exists
            && !transfer_ok ==> r == Err::<(PlayerEntry, RunEntered), GorbaDomeError>(
            GorbaDomeError::TransferFailed,
        ),
        old(game_state).is_active && now < old(game_state).contest_end() && !entry_exists
            && transfer_ok ==> (r matches Ok((entry, event)) && {
            &&& entry == (PlayerEntry {
                player,
                wager_amount,
                net_wager: spec_net_wager(wager_amount, old(game_state).house_fee_percentage) as u64,
                score_hash,
                entry_time: now,
                is_completed: false,
                score: 0,
                submission_time: 0,
                insurance_purchased: false,
            })
            &&& event == (RunEntered { player, wager_amount, entry_time: now })
            &&& *final(game_state) == (GameState {
                total_pool: (old(game_state).total_pool + entry.net_wager) as u64,
                ..*old(game_state)
            })
        }),
{
    if !game_state.is_active {
        return Err(GorbaDomeError::ContestNotActive);
    }
    let contest_end = game_state.current_contest_start + game_state.contest_duration;
    if now >= contest_end {
        return Err(GorbaDomeError::ContestEnded);
    }
    if entry_exists {
        return Err(GorbaDomeError::DuplicateEntry);
    }
    if !transfer_ok {
        return Err(GorbaDomeError::TransferFailed);
    }
    let (net_wager, _house_fee) = split_wager(wager_amount, game_state.house_fee_percentage);
    game_state.total_pool = game_state.total_pool + net_wager;
    let entry = PlayerEntry {
        player,
        wager_amount,
        net_wager,
        score_hash,
        entry_time: now,
        is_completed: false,
        score: 0,
        submission_time: 0,
        insurance_purchased: false,
    };
    let event = RunEntered { player, wager_amount, entry_time: now };
    Ok((entry, event))
}

/// A player reopens their commitment with the actual score and salt.
///
/// A reveal that fails — already resolved, wrong caller, or a digest that
/// does not match the commitment — changes nothing, so a player may retry
/// with corrected inputs. A matching reveal first offers the run to the
/// leaderboard and only then marks the entry resolved.
pub fn submit_score(
    player_entry: &mut PlayerEntry,
    leaderboard: &mut Leaderboard,
    caller: Pubkey,
    score: u64,
    salt: [u8; 32],
    now: i64,
) -> (r: Result<ScoreSubmitted, GorbaDomeError>)
    requires
        old(leaderboard).wf(),
    ensures
        final(leaderboard).wf(),
        r is Err ==> *final(player_entry) == *old(player_entry) && *final(leaderboard) == *old(
            leaderboard,
        ),
        old(player_entry).is_completed ==> r == Err::<ScoreSubmitted, GorbaDomeError>(
            GorbaDomeError::RunAlreadyCompleted,
        ),
        !old(player_entry).is_completed && old(player_entry).player@ != caller@ ==> r == Err::<
            ScoreSubmitted,
            GorbaDomeError,
        >(GorbaDomeError::UnauthorizedPlayer),
        !old(player_entry).is_completed && old(player_entry).player@ == caller@ && old(
            player_entry,
        ).score_hash@ != commit_digest(salt@, score, caller@) ==> r == Err::<
            ScoreSubmitted,
            GorbaDomeError,
        >(GorbaDomeError::InvalidScoreHash),
        !old(player_entry).is_completed && old(player_entry).player@ == caller@ && old(
            player_entry,
        ).score_hash@ == commit_digest(salt@, score, caller@) ==> {
            &&& r == Ok::<ScoreSubmitted, GorbaDomeError>(
                (ScoreSubmitted { player: caller, score, submission_time: now }),
            )
            &&& *final(player_entry) == (PlayerEntry {
                is_completed: true,
                score,
                submission_time: now,
                ..*old(player_entry)
            })
            &&& final(leaderboard)@ == offer_spec(
                old(leaderboard)@,
                (LeaderboardEntry {
                    player: caller,
                    score,
                    wager: old(player_entry).net_wager,
                    timestamp: now,
                }),
            )
        },
{
    if player_entry.is_completed {
        return Err(GorbaDomeError::RunAlreadyCompleted);
    }
    if !player_entry.player.key_eq(&caller) {
        return Err(GorbaDomeError::UnauthorizedPlayer);
    }
    if !verify(&player_entry.score_hash, &caller, score, &salt) {
        return Err(GorbaDomeError::InvalidScoreHash);
    }
    update_leaderboard(leaderboard, caller, score, player_entry.net_wager, now);
    player_entry.is_completed = true;
    player_entry.score = score;
    player_entry.submission_time = now;
    Ok(ScoreSubmitted { player: caller, score, submission_time: now })
}

/// One payout descriptor per populated slot, best first: rank `k + 1` for
/// slot `k`, each paid its share of the settled pool.
pub open spec fn payout_of(s: Seq<LeaderboardEntry>, k: int, pool: u64) -> PrizeDistributed
    recommends
        0 <= k < s.len(),
{
    PrizeDistributed {
        winner: s[k].player,
        rank: (k + 1) as u8,
        amount: spec_prize((k + 1) as u8, pool) as u64,
    }
}

/// The payout descriptors a close emits. Populated slots form a prefix of
/// a sorted board, so the list stops at the first slot never won.
pub open spec fn payouts_spec(s: Seq<LeaderboardEntry>, pool: u64) -> Seq<PrizeDistributed>
    recommends
        s.len() == 3,
{
    if !populated(s[0]) {
        Seq::<PrizeDistributed>::empty()
    } else if !populated(s[1]) {
        seq![payout_of(s, 0, pool)]
    } else if !populated(s[2]) {
        seq![payout_of(s, 0, pool), payout_of(s, 1, pool)]
    } else {
        seq![payout_of(s, 0, pool), payout_of(s, 1, pool), payout_of(s, 2, pool)]
    }
}

/// The authority closes the epoch at or after its deadline.
///
/// The close reports the settled pool and one payout descriptor per
/// populated leaderboard slot, freezes that pool as the snapshot prize
/// distribution reads, and immediately opens the next epoch with an empty
/// pool.
pub fn end_contest(
    game_state: &mut GameState,
    leaderboard: &Leaderboard,
    caller: Pubkey,
    now: i64,
) -> (r: Result<(ContestEnded, Vec<PrizeDistributed>), GorbaDomeError>)
    requires
        old(game_state).wf(),
        leaderboard.wf(),
        0 <= now,
        now + old(game_state).contest_duration <= i64::MAX,
    ensures
        final(game_state).wf(),
        r is Err ==> *final(game_state) == *old(game_state),
        caller@ != old(game_state).authority@ ==> r == Err::<
            (ContestEnded, Vec<PrizeDistributed>),
            GorbaDomeError,
        >(GorbaDomeError::Unauthorized),
        caller@ == old(game_state).authority@ && now < old(game_state).contest_end() ==> r
            == Err::<(ContestEnded, Vec<PrizeDistributed>), GorbaDomeError>(
            GorbaDomeError::ContestNotEnded,
        ),
        caller@ == old(game_state).authority@ && now >= old(game_state).contest_end() ==> (
        r matches Ok((event, payouts)) && {
            &&& event == (ContestEnded { total_pool: old(game_state).total_pool, end_time: now })
            &&& payouts@ == payouts_spec(leaderboard@, old(game_state).total_pool)
            &&& *final(game_state) == (GameState {
                current_contest_start: now,
                total_pool: 0,
                settled_pool_total: old(game_state).total_pool,
                is_active: true,
                ..*old(game_state)
            })
        }),
{
    if !caller.key_eq(&game_state.authority) {
        return Err(GorbaDomeError::Unauthorized);
    }
    let contest_end = game_state.current_contest_start + game_state.contest_duration;
    if now < contest_end {
        return Err(GorbaDomeError::ContestNotEnded);
    }
    let total_pool = game_state.total_pool;
    let mut payouts: Vec<PrizeDistributed> = Vec::new();
    if leaderboard.entries[0].score > 0 {
        payouts.push(
            PrizeDistributed {
                winner: leaderboard.entries[0].player,
                rank: 1,
                amount: prize_amount(1, total_pool),
            },
        );
        if leaderboard.entries[1].score > 0 {
            payouts.push(
                PrizeDistributed {
                    winner: leaderboard.entries[1].player,
                    rank: 2,
                    amount: prize_amount(2, total_pool),
                },
            );
            if leaderboard.entries[2].score > 0 {
                payouts.push(
                    PrizeDistributed {
                        winner: leaderboard.entries[2].player,
                        rank: 3,
                        amount: prize_amount(3, total_pool),
                    },
                );
            }
        }
    }
    proof {
        assert(payouts@ =~= payouts_spec(leaderboard@, total_pool));
    }
    game_state.settled_pool_total = total_pool;
    game_state.current_contest_start = now;
    game_state.total_pool = 0;
    game_state.is_active = true;
    let event = ContestEnded { total_pool, end_time: now };
    Ok((event, payouts))
}

/// The authority settles one rank of the epoch frozen by the latest close.
///
/// The designated recipient must be the player holding that leaderboard
/// slot. The amount comes from the frozen pool snapshot, never the live
/// pool, and may be zero; a zero payout still succeeds as a no-op
/// transfer. The returned descriptor is what the external settlement step
/// executes.
pub fn distribute_prize(
    game_state: &GameState,
    leaderboard: &Leaderboard,
    caller: Pubkey,
    winner: Pubkey,
    rank: u8,
) -> (r: Result<PrizeDistributed, GorbaDomeError>)
    requires
        leaderboard.wf(),
    ensures
        caller@ != game_state.authority@ ==> r == Err::<PrizeDistributed, GorbaDomeError>(
            GorbaDomeError::Unauthorized,
        ),
        caller@ == game_state.authority@ && !(1 <= rank <= 3) ==> r == Err::<
            PrizeDistributed,
            GorbaDomeError,
        >(GorbaDomeError::InvalidRank),
        caller@ == game_state.authority@ && 1 <= rank <= 3 && !populated(
            leaderboard@[rank - 1],
        ) ==> r == Err::<PrizeDistributed, GorbaDomeError>(GorbaDomeError::PlayerNotFound),
        caller@ == game_state.authority@ && 1 <= rank <= 3 && populated(leaderboard@[rank - 1])
            && winner@ != leaderboard@[rank - 1].player@ ==> r == Err::<
            PrizeDistributed,
            GorbaDomeError,
        >(GorbaDomeError::UnauthorizedPlayer),
        caller@ == game_state.authority@ && 1 <= rank <= 3 && populated(leaderboard@[rank - 1])
            && winner@ == leaderboard@[rank - 1].player@ ==> r == Ok::<
            PrizeDistributed,
            GorbaDomeError,
        >(
            (PrizeDistributed {
                winner,
                rank,
                amount: spec_prize(rank, game_state.settled_pool_total) as u64,
            }),
        ),
{
    if !caller.key_eq(&game_state.authority) {
        return Err(GorbaDomeError::Unauthorized);
    }
    if rank < 1 || rank > 3 {
        return Err(GorbaDomeError::InvalidRank);
    }
    let slot = leaderboard.entries[(rank - 1) as usize];
    if slot.score == 0 {
        return Err(GorbaDomeError::PlayerNotFound);
    }
    if !winner.key_eq(&slot.player) {
        return Err(GorbaDomeError::UnauthorizedPlayer);
    }
    let amount = prize_amount(rank, game_state.settled_pool_total);
    Ok(PrizeDistributed { winner, rank, amount })
}

/// A player buys the flat-fee continue insurance for their unresolved
/// entry, at most once. The caller reports with `transfer_ok` whether the
/// ledger moved the fee; settlement never reads the flag this sets.
pub fn buy_continue_insurance(
    player_entry: &mut PlayerEntry,
    caller: Pubkey,
    transfer_ok: bool,
) -> (r: Result<InsurancePurchased, GorbaDomeError>)
    ensures
        r is Err ==> *final(player_entry) == *old(player_entry),
        old(player_entry).is_completed ==> r == Err::<InsurancePurchased, GorbaDomeError>(
            GorbaDomeError::RunAlreadyCompleted,
        ),
        !old(player_entry).is_completed && old(player_entry).player@ != caller@ ==> r == Err::<
            InsurancePurchased,
            GorbaDomeError,
        >(GorbaDomeError::UnauthorizedPlayer),
        !old(player_entry).is_completed && old(player_entry).player@ == caller@ && old(
            player_entry,
        ).insurance_purchased ==> r == Err::<InsurancePurchased, GorbaDomeError>(
            GorbaDomeError::InsuranceAlreadyPurchased,
        ),
        !old(player_entry).is_completed && old(player_entry).player@ == caller@ && !old(
            player_entry,
        ).insurance_purchased && !transfer_ok ==> r == Err::<InsurancePurchased, GorbaDomeError>(
            GorbaDomeError::TransferFailed,
        ),
        !old(player_entry).is_completed && old(player_entry).player@ == caller@ && !old(
            player_entry,
        ).insurance_purchased && transfer_ok ==> {
            &&& r == Ok::<InsurancePurchased, GorbaDomeError>(
                (InsurancePurchased { player: caller, fee: INSURANCE_FEE }),
            )
            &&& *final(player_entry) == (PlayerEntry {
                insurance_purchased: true,
                ..*old(player_entry)
            })
        },
{
    if player_entry.is_completed {
        return Err(GorbaDomeError::RunAlreadyCompleted);
    }
    if !player_entry.player.key_eq(&caller) {
        return Err(GorbaDomeError::UnauthorizedPlayer);
    }
    if player_entry.insurance_purchased {
        return Err(GorbaDomeError::InsuranceAlreadyPurchased);
    }
    if !transfer_ok {
        return Err(GorbaDomeError::TransferFailed);
    }
    player_entry.insurance_purchased = true;
    Ok(InsurancePurchased { player: caller, fee: INSURANCE_FEE })
}

/// Issues a collectible pass to the player; stateless with respect to
/// settlement.
pub fn mint_trash_pass(player: Pubkey, now: i64) -> (r: (TrashPass, TrashPassMinted))
    ensures
        r.0 == (TrashPass { owner: player, mint_time: now, is_active: true }),
        r.1 == (TrashPassMinted { player, mint_time: now }),
{
    let pass = TrashPass { owner: player, mint_time: now, is_active: true };
    let event = TrashPassMinted { player, mint_time: now };
    (pass, event)
}

} // verus!
