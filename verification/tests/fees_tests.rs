use gorbadome::{prize_amount, split_wager};

#[test]
fn fee_split_scenario() {
    let (net, fee) = split_wager(1000, 5);
    assert_eq!(net, 950);
    assert_eq!(fee, 50);
}

#[test]
fn fee_and_net_sum_to_gross() {
    let cases: Vec<(u64, u8)> = vec![
        (0, 0),
        (1, 1),
        (999, 3),
        (1000, 0),
        (1000, 100),
        (123_456_789, 7),
        (u64::MAX, 100),
        (u64::MAX, 33),
    ];
    for (gross, percent) in cases {
        let (net, fee) = split_wager(gross, percent);
        assert_eq!(net as u128 + fee as u128, gross as u128);
        assert_eq!(fee as u128, gross as u128 * percent as u128 / 100);
    }
}

#[test]
fn fee_rounds_down() {
    // 3% of 99 is 2.97: the fee floors to 2.
    let (net, fee) = split_wager(99, 3);
    assert_eq!(fee, 2);
    assert_eq!(net, 97);
}

#[test]
fn prize_schedule_exact() {
    assert_eq!(prize_amount(1, 950), 475);
    assert_eq!(prize_amount(2, 950), 285);
    assert_eq!(prize_amount(3, 950), 190);
    assert_eq!(prize_amount(1, 1000), 500);
    assert_eq!(prize_amount(2, 1000), 300);
    assert_eq!(prize_amount(3, 1000), 200);
}

#[test]
fn prize_outside_top_three_is_zero() {
    assert_eq!(prize_amount(0, 1000), 0);
    assert_eq!(prize_amount(4, 1000), 0);
    assert_eq!(prize_amount(255, 1000), 0);
}

#[test]
fn prize_floor_division_loses_remainder() {
    // Pool of 3: the shares are 1, 0, 0 and the remainder stays in custody.
    assert_eq!(prize_amount(1, 3), 1);
    assert_eq!(prize_amount(2, 3), 0);
    assert_eq!(prize_amount(3, 3), 0);
}

#[test]
fn prize_of_largest_pool_does_not_overflow() {
    assert_eq!(prize_amount(1, u64::MAX), u64::MAX / 2);
}
