//! Review progress of a card and the statistics of the deck.
use vstd::prelude::*;
use vstd::string::*;

verus! {

/// The review progress of one vocabulary item, without its ease factor
/// (a floating-point number, which the caller keeps beside it).
pub struct CardProgress {
    /// The record's id, as text; empty for a card not yet stored.
    pub id: String,
    /// The id of the vocabulary item the card reviews.
    pub vocab_id: String,
    /// The card's status: "New", "Learning", "Review", "Mastered" or
    /// "Bookmarked".
    pub status: String,
    /// Days until the next review.
    pub interval: u32,
    /// Time of the next review, in seconds since the epoch.
    pub next_review_at: i64,
}

impl CardProgress {
    /// A card from the fields of its database record; a record without an
    /// id gets the empty id.
    pub fn from_record(
        id: Option<String>,
        vocab_id: String,
        status: String,
        interval: u32,
        next_review_at: i64,
    ) -> (p: CardProgress)
        ensures
            p.id@ == (match id {
                Some(i) => i@,
                None => Seq::<char>::empty(),
            }),
            p.vocab_id == vocab_id,
            p.status == status,
            p.interval == interval,
            p.next_review_at == next_review_at,
    {
        let id = match id {
            Some(i) => i,
            None => String::new(),
        };
        CardProgress { id, vocab_id, status, interval, next_review_at }
    }

    /// A card for a vocabulary item that has never been reviewed: no id,
    /// status "New", interval 0, due at time 0.
    pub fn new_card(vocab_id: String) -> (p: CardProgress)
        ensures
            p.id@ == Seq::<char>::empty(),
            p.vocab_id == vocab_id,
            p.status@ == "New"@,
            p.interval == 0,
            p.next_review_at == 0,
    {
        CardProgress {
            id: String::new(),
            vocab_id,
            status: String::from_str("New"),
            interval: 0,
            next_review_at: 0,
        }
    }
}

/// The number of cards in each state, for the dashboard.
pub struct DeckStats {
    /// Cards never reviewed.
    pub new: u32,
    /// Cards being learned or reviewed.
    pub review: u32,
    /// Cards mastered.
    pub learned: u32,
}

/// A count as a `u32`: its low 32 bits, as `count as u32` keeps them.
pub open spec fn low_u32(count: u64) -> u32 {
    (count % 0x1_0000_0000) as u32
}

/// The count reported for a group: 0 when the database reported none.
pub open spec fn reported_count(total: Option<u64>) -> u32 {
    match total {
        Some(t) => low_u32(t),
        None => 0,
    }
}

fn count_of(total: Option<u64>) -> (c: u32)
    ensures
        c == reported_count(total),
{
    match total {
        Some(t) => (t % 0x1_0000_0000) as u32,
        None => 0,
    }
}

impl DeckStats {
    /// The statistics from the totals the database reported for the new,
    /// the learning-or-review and the mastered cards; a missing total
    /// counts as 0.
    pub fn from_totals(new: Option<u64>, review: Option<u64>, learned: Option<u64>) -> (s: DeckStats)
        ensures
            s.new == reported_count(new),
            s.review == reported_count(review),
            s.learned == reported_count(learned),
    {
        DeckStats { new: count_of(new), review: count_of(review), learned: count_of(learned) }
    }
}


/// A reported count is shown as itself when it fits in a `u32`, and by its
/// low 32 bits otherwise; a count the database did not report is 0.
pub proof fn lemma_reported_count(total: u64)
    ensures
        total <= 0xffff_ffff ==> reported_count(Some(total)) == total,
        reported_count(Some(total)) == total % 0x1_0000_0000,
        reported_count(Some(total)) + 0x1_0000_0000 * (total / 0x1_0000_0000) == total,
        reported_count(None) == 0,
        low_u32(total) == total % 0x1_0000_0000,
{
}

} // verus!
