use vstd::prelude::*;

use crate::identity::Pubkey;

verus! {

broadcast use vstd::array::group_array_axioms;

/// One ranked slot: who ran, what they revealed, what they staked net of
/// fee, and when the slot was written.
#[derive(Clone, Copy, Debug)]
pub struct LeaderboardEntry {
    pub player: Pubkey,
    pub score: u64,
    pub wager: u64,
    pub timestamp: i64,
}

/// The top three revealed runs of the current epoch, best first.
///
/// Capacity three is a domain constant of the prize schedule, not a
/// configuration knob. Slots start at their zero value and are only ever
/// overwritten by strictly better scores, so a slot with score zero has
/// never been won.
#[derive(Clone, Copy, Debug)]
pub struct Leaderboard {
    pub entries: [LeaderboardEntry; 3],
}

impl View for Leaderboard {
    type V = Seq<LeaderboardEntry>;

    open spec fn view(&self) -> Seq<LeaderboardEntry> {
        self.entries@
    }
}

/// Scores never increase from the best slot to the worst.
pub open spec fn sorted_descending(s: Seq<LeaderboardEntry>) -> bool {
    forall|i: int, j: int| 0 <= i <= j < s.len() ==> s[i].score >= s[j].score
}

/// A slot that some reveal has actually won. A revealed score of zero never
/// enters the board (only strictly greater scores displace a slot), so a
/// zero score marks a slot still at its default value.
pub open spec fn populated(e: LeaderboardEntry) -> bool {
    e.score > 0
}

/// The first position, scanning from best to worst, whose score is strictly
/// below the offered score; three when no slot is beaten.
pub open spec fn insert_pos(s: Seq<LeaderboardEntry>, score: u64) -> int
    recommends
        s.len() == 3,
{
    if score > s[0].score {
        0int
    } else if score > s[1].score {
        1int
    } else if score > s[2].score {
        2int
    } else {
        3int
    }
}

/// What one offer does to the board: the new entry lands at the first
/// position it beats, everything from there on shifts one place toward the
/// worst slot, the old worst slot falls off; a score that beats no slot
/// (equal scores included) leaves the board unchanged.
pub open spec fn offer_spec(s: Seq<LeaderboardEntry>, e: LeaderboardEntry) -> Seq<LeaderboardEntry>
    recommends
        s.len() == 3,
{
    let i = insert_pos(s, e.score);
    if i == 0 {
        seq![e, s[0], s[1]]
    } else if i == 1 {
        seq![s[0], e, s[1]]
    } else if i == 2 {
        seq![s[0], s[1], e]
    } else {
        s
    }
}

impl Leaderboard {
    /// A board is well formed when its slots are sorted by descending score.
    pub open spec fn wf(self) -> bool {
        sorted_descending(self@)
    }

    /// A fresh board: every slot at its zero value.
    pub fn new() -> (r: Leaderboard)
        ensures
            r.wf(),
            forall|k: int|
                0 <= k < 3 ==> (!populated(#[trigger] r@[k]) && r@[k].score == 0
                    && r@[k].wager == 0 && r@[k].timestamp == 0),
    {
        let zero = LeaderboardEntry {
            player: Pubkey::new([0u8; 32]),
            score: 0,
            wager: 0,
            timestamp: 0,
        };
        Leaderboard { entries: [zero, zero, zero] }
    }
}

/// Offers a revealed run to the board, applying the shift-on-insert
/// semantics of `offer_spec` and keeping the board sorted.
pub fn update_leaderboard(
    leaderboard: &mut Leaderboard,
    player: Pubkey,
    score: u64,
    wager: u64,
    now: i64,
)
    requires
        old(leaderboard).wf(),
    ensures
        final(leaderboard).wf(),
        final(leaderboard)@ == offer_spec(
            old(leaderboard)@,
            (LeaderboardEntry { player, score, wager, timestamp: now }),
        ),
{
    let new_entry = LeaderboardEntry { player, score, wager, timestamp: now };
    let e0 = leaderboard.entries[0];
    let e1 = leaderboard.entries[1];
    let e2 = leaderboard.entries[2];
    if score > e0.score {
        leaderboard.entries = [new_entry, e0, e1];
    } else if score > e1.score {
        leaderboard.entries = [e0, new_entry, e1];
    } else if score > e2.score {
        leaderboard.entries = [e0, e1, new_entry];
    }
    proof {
        assert(leaderboard@ =~= offer_spec(
            old(leaderboard)@,
            LeaderboardEntry { player, score, wager, timestamp: now },
        ));
        lemma_offer_preserves_sorted(
            old(leaderboard)@,
            LeaderboardEntry { player, score, wager, timestamp: now },
        );
    }
}

/// Law: an offer never breaks the descending order of the board, whatever
/// the offered entry.
pub proof fn lemma_offer_preserves_sorted(s: Seq<LeaderboardEntry>, e: LeaderboardEntry)
    requires
        s.len() == 3,
        sorted_descending(s),
    ensures
        sorted_descending(offer_spec(s, e)),
{
}

/// Law: a score strictly above the worst slot's score enters the board at
/// the first position it beats; every better slot keeps its place, every
/// slot from that position on shifts one toward the worst, and the previous
/// worst slot is evicted.
pub proof fn lemma_offer_evicts_worst(s: Seq<LeaderboardEntry>, e: LeaderboardEntry)
    requires
        s.len() == 3,
        sorted_descending(s),
        e.score > s[2].score,
    ensures
        0 <= insert_pos(s, e.score) < 3,
        offer_spec(s, e).len() == 3,
        offer_spec(s, e)[insert_pos(s, e.score)] == e,
        forall|j: int| 0 <= j < insert_pos(s, e.score) ==> offer_spec(s, e)[j] == s[j],
        forall|j: int| insert_pos(s, e.score) < j < 3 ==> offer_spec(s, e)[j] == s[j - 1],
{
}

/// Law: a score at or below the worst slot's score beats no slot — equal
/// scores never displace an earlier one — and the board is unchanged.
pub proof fn lemma_offer_ignores_low_score(s: Seq<LeaderboardEntry>, e: LeaderboardEntry)
    requires
        s.len() == 3,
        sorted_descending(s),
        e.score <= s[2].score,
    ensures
        offer_spec(s, e) == s,
{
    assert(s[0].score >= s[2].score);
    assert(s[1].score >= s[2].score);
}

} // verus!
