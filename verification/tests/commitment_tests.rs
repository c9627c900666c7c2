use gorbadome::{commit, verify, Pubkey};

#[test]
fn commit_then_verify_succeeds() {
    let player = Pubkey::new([1; 32]);
    let salt = [7; 32];
    let digest = commit(&player, 42, &salt);
    assert!(verify(&digest, &player, 42, &salt));
}

#[test]
fn verify_rejects_wrong_score() {
    let player = Pubkey::new([1; 32]);
    let salt = [7; 32];
    let digest = commit(&player, 42, &salt);
    assert!(!verify(&digest, &player, 43, &salt));
}

#[test]
fn verify_rejects_wrong_salt() {
    let player = Pubkey::new([1; 32]);
    let salt = [7; 32];
    let other_salt = [8; 32];
    let digest = commit(&player, 42, &salt);
    assert!(!verify(&digest, &player, 42, &other_salt));
}

#[test]
fn verify_rejects_wrong_player() {
    let player = Pubkey::new([1; 32]);
    let other = Pubkey::new([2; 32]);
    let salt = [7; 32];
    let digest = commit(&player, 42, &salt);
    assert!(!verify(&digest, &other, 42, &salt));
}

#[test]
fn commit_is_a_real_digest_not_its_input() {
    let player = Pubkey::new([1; 32]);
    let salt = [7; 32];
    let digest = commit(&player, 42, &salt);
    assert_ne!(digest, salt);
    assert_ne!(digest, player.bytes);
    assert_ne!(digest, [0; 32]);
}

#[test]
fn commit_matches_sequential_hasher() {
    // The engine hashes the three parts in one call; the platform's
    // incremental hasher over the same parts must agree.
    let player = Pubkey::new([5; 32]);
    let salt = [9; 32];
    let score: u64 = 123_456;
    let ours = commit(&player, score, &salt);
    let mut hasher = anchor_lang::solana_program::hash::Hasher::default();
    hasher.hash(&salt);
    hasher.hash(&score.to_le_bytes());
    hasher.hash(&player.bytes);
    assert_eq!(ours, hasher.result().to_bytes());
}

#[test]
fn commit_depends_on_every_part() {
    let player = Pubkey::new([1; 32]);
    let salt = [7; 32];
    let base = commit(&player, 42, &salt);
    assert_ne!(base, commit(&player, 41, &salt));
    assert_ne!(base, commit(&player, 42, &[6; 32]));
    assert_ne!(base, commit(&Pubkey::new([3; 32]), 42, &salt));
}
