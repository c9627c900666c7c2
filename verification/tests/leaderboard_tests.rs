use gorbadome::{update_leaderboard, Leaderboard, Pubkey};

fn key(tag: u8) -> Pubkey {
    Pubkey::new([tag; 32])
}

fn is_sorted_descending(board: &Leaderboard) -> bool {
    board.entries[0].score >= board.entries[1].score
        && board.entries[1].score >= board.entries[2].score
}

fn scores(board: &Leaderboard) -> [u64; 3] {
    [board.entries[0].score, board.entries[1].score, board.entries[2].score]
}

#[test]
fn board_starts_empty_and_sorted() {
    let board = Leaderboard::new();
    assert_eq!(scores(&board), [0, 0, 0]);
    assert!(is_sorted_descending(&board));
}

#[test]
fn board_sorted_after_every_offer() {
    let mut board = Leaderboard::new();
    let offered: [u64; 8] = [5, 1, 9, 9, 3, 200, 0, 7];
    for (i, s) in offered.iter().enumerate() {
        update_leaderboard(&mut board, key(i as u8), *s, 10, i as i64);
        assert!(is_sorted_descending(&board));
    }
}

#[test]
fn reveal_orders_all_rank_the_same() {
    // Three revealed scores rank [30, 20, 10] whatever order they arrive in.
    let orders: [[u64; 3]; 3] = [[10, 30, 20], [30, 20, 10], [20, 10, 30]];
    for order in orders {
        let mut board = Leaderboard::new();
        for (i, s) in order.iter().enumerate() {
            update_leaderboard(&mut board, key(*s as u8), *s, 10, i as i64);
        }
        assert_eq!(scores(&board), [30, 20, 10]);
    }
}

#[test]
fn beating_the_worst_evicts_it() {
    let mut board = Leaderboard::new();
    update_leaderboard(&mut board, key(1), 30, 10, 1);
    update_leaderboard(&mut board, key(2), 20, 10, 2);
    update_leaderboard(&mut board, key(3), 10, 10, 3);
    update_leaderboard(&mut board, key(4), 25, 10, 4);
    assert_eq!(scores(&board), [30, 25, 20]);
    assert_eq!(board.entries[1].player.bytes, [4; 32]);
    // The old worst score, 10, is gone.
    assert!(board.entries.iter().all(|e| e.score != 10));
}

#[test]
fn score_at_or_below_worst_changes_nothing() {
    let mut board = Leaderboard::new();
    update_leaderboard(&mut board, key(1), 30, 10, 1);
    update_leaderboard(&mut board, key(2), 20, 10, 2);
    update_leaderboard(&mut board, key(3), 15, 10, 3);
    let before = scores(&board);
    update_leaderboard(&mut board, key(4), 15, 99, 4);
    assert_eq!(scores(&board), before);
    // The earlier holder of the tied score keeps the slot.
    assert_eq!(board.entries[2].player.bytes, [3; 32]);
    update_leaderboard(&mut board, key(5), 2, 99, 5);
    assert_eq!(scores(&board), before);
}

#[test]
fn zero_score_never_populates_the_board() {
    let mut board = Leaderboard::new();
    update_leaderboard(&mut board, key(1), 0, 10, 1);
    assert_eq!(scores(&board), [0, 0, 0]);
    assert_eq!(board.entries[0].player.bytes, [0; 32]);
}

#[test]
fn offer_records_wager_and_timestamp() {
    let mut board = Leaderboard::new();
    update_leaderboard(&mut board, key(7), 42, 950, 1234);
    assert_eq!(board.entries[0].score, 42);
    assert_eq!(board.entries[0].wager, 950);
    assert_eq!(board.entries[0].timestamp, 1234);
    assert_eq!(board.entries[0].player.bytes, [7; 32]);
}
