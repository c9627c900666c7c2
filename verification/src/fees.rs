use vstd::prelude::*;

verus! {

/// House fee taken from a gross wager: `floor(gross * percent / 100)`.
pub open spec fn spec_house_fee(gross: u64, percent: u8) -> int {
    (gross * percent) / 100
}

/// What remains of a gross wager after the house fee.
pub open spec fn spec_net_wager(gross: u64, percent: u8) -> int {
    gross - spec_house_fee(gross, percent)
}

/// Splits a gross wager into `(net_wager, house_fee)`.
///
/// The fee is `floor(gross * percent / 100)`; fee and net always sum back
/// to the gross amount.
pub fn split_wager(gross: u64, percent: u8) -> (r: (u64, u64))
    requires
        percent <= 100,
    ensures
        r.1 == spec_house_fee(gross, percent),
        r.0 == spec_net_wager(gross, percent),
        r.0 + r.1 == gross,
{
    proof {
        assert((gross as int) * (percent as int) <= (u64::MAX as int) * 100) by (nonlinear_arith)
            requires
                gross <= u64::MAX && percent <= 100,
        ;
        assert((gross as int) * (percent as int) / 100 <= gross as int) by (nonlinear_arith)
            requires
                percent <= 100,
        ;
    }
    let fee_wide: u128 = (gross as u128) * (percent as u128) / 100;
    let fee: u64 = fee_wide as u64;
    (gross - fee, fee)
}

/// The fixed prize schedule over a pool snapshot: half of the pool to the
/// first rank, 30 percent to the second, 20 percent to the third, floor
/// division throughout, and nothing for any other rank. The three shares
/// need not sum exactly to the pool; the remainder stays in custody.
pub open spec fn spec_prize(rank: u8, pool: u64) -> int {
    if rank == 1 {
        (pool * 50) / 100
    } else if rank == 2 {
        (pool * 30) / 100
    } else if rank == 3 {
        (pool * 20) / 100
    } else {
        0
    }
}

/// Payout owed to a rank out of a pool snapshot.
pub fn prize_amount(rank: u8, pool: u64) -> (r: u64)
    ensures
        r == spec_prize(rank, pool),
{
    proof {
        assert((pool as int) * 50 / 100 <= pool as int) by (nonlinear_arith);
        assert((pool as int) * 30 / 100 <= pool as int) by (nonlinear_arith);
        assert((pool as int) * 20 / 100 <= pool as int) by (nonlinear_arith);
    }
    let wide: u128 = pool as u128;
    let amount: u128 = if rank == 1 {
        wide * 50 / 100
    } else if rank == 2 {
        wide * 30 / 100
    } else if rank == 3 {
        wide * 20 / 100
    } else {
        0
    };
    amount as u64
}

} // verus!
