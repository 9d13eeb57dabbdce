//! The SM-2 review scheduler: what one review does to a card's interval,
//! status and next review time.
//!
//! The ease factor is a floating-point number and is kept by the caller.
//! The scheduler takes from the caller the one value that depends on it,
//! the current interval multiplied by the current ease factor and rounded
//! to the nearest whole day (saturating at the bounds of `u32`), and uses
//! it only where the algorithm grows a mature card's interval.
use vstd::prelude::*;
use vstd::string::*;

use crate::progress::CardProgress;
use crate::query::{progress_create_query, progress_create_statement, progress_update_query, progress_update_statement};

verus! {

/// Seconds in a day.
pub const SECONDS_PER_DAY: i64 = 86400;

/// The highest review quality: a perfect recall.
pub const MAX_QUALITY: u8 = 5;

/// The lowest quality that counts as a successful recall.
pub const PASSING_QUALITY: u8 = 3;

/// An interval, in days, from which on a card counts as mastered.
pub const MASTERED_INTERVAL: u32 = 21;

/// The status a card has after a review.
#[derive(PartialEq, Eq, Structural, Clone, Copy, Debug)]
pub enum ReviewStatus {
    /// The recall failed; the card starts over.
    Learning,
    /// The recall succeeded and the interval is under three weeks.
    Review,
    /// The recall succeeded and the interval is three weeks or more.
    Mastered,
}

/// The text under which a status is stored.
pub open spec fn status_label(status: ReviewStatus) -> Seq<char> {
    match status {
        ReviewStatus::Learning => "Learning"@,
        ReviewStatus::Review => "Review"@,
        ReviewStatus::Mastered => "Mastered"@,
    }
}

impl ReviewStatus {
    /// The text under which this status is stored.
    pub fn label(&self) -> (s: String)
        ensures
            s@ == status_label(*self),
    {
        match self {
            ReviewStatus::Learning => String::from_str("Learning"),
            ReviewStatus::Review => String::from_str("Review"),
            ReviewStatus::Mastered => String::from_str("Mastered"),
        }
    }
}

/// A quality grade, with grades above the highest taken as the highest.
pub open spec fn clamped_quality(quality: u8) -> u8 {
    if quality < MAX_QUALITY { quality } else { MAX_QUALITY }
}

/// Whether a review of this quality is a successful recall.
pub open spec fn passed(quality: u8) -> bool {
    clamped_quality(quality) >= PASSING_QUALITY
}

/// The interval, in days, after a review: one day after a failure; after
/// a success (the SM-2 repetition steps) one day for a new card, six days
/// for a one-day or two-day card, and the interval grown by the ease
/// factor otherwise.
pub open spec fn next_interval(interval: u32, quality: u8, scaled_interval: u32) -> u32 {
    if !passed(quality) {
        1
    } else if interval == 0 {
        1
    } else if interval == 1 || interval == 2 {
        6
    } else {
        scaled_interval
    }
}

/// The status after a review that set the interval to `new_interval`.
pub open spec fn next_status(quality: u8, new_interval: u32) -> ReviewStatus {
    if !passed(quality) {
        ReviewStatus::Learning
    } else if new_interval >= MASTERED_INTERVAL {
        ReviewStatus::Mastered
    } else {
        ReviewStatus::Review
    }
}

/// The time, in seconds since the epoch, a given number of days after `now`.
pub open spec fn due_at(now: int, interval: u32) -> int {
    now + interval * SECONDS_PER_DAY
}

/// Whether the next review time of a review at `now` fits in an `i64`.
pub open spec fn due_time_fits(now: i64, interval: u32, quality: u8, scaled_interval: u32) -> bool {
    due_at(now as int, next_interval(interval, quality, scaled_interval)) <= i64::MAX
}

/// The grade limited to the range from 0 to 5.
pub fn clamp_quality(quality: u8) -> (q: u8)
    ensures
        q == clamped_quality(quality),
{
    if quality < MAX_QUALITY { quality } else { MAX_QUALITY }
}

/// The interval after a review of the given quality.
pub fn review_interval(interval: u32, quality: u8, scaled_interval: u32) -> (r: u32)
    ensures
        r == next_interval(interval, quality, scaled_interval),
{
    let q = clamp_quality(quality);
    if q < PASSING_QUALITY {
        1
    } else {
        match interval {
            0 => 1,
            1 | 2 => 6,
            _ => scaled_interval,
        }
    }
}

/// The status after a review of the given quality that set the interval.
pub fn review_status(quality: u8, new_interval: u32) -> (s: ReviewStatus)
    ensures
        s == next_status(quality, new_interval),
{
    let q = clamp_quality(quality);
    if q < PASSING_QUALITY {
        ReviewStatus::Learning
    } else if new_interval >= MASTERED_INTERVAL {
        ReviewStatus::Mastered
    } else {
        ReviewStatus::Review
    }
}

/// The time, in seconds since the epoch, `interval` days after `now`.
pub fn due_time(now: i64, interval: u32) -> (t: i64)
    requires
        due_at(now as int, interval) <= i64::MAX,
    ensures
        t == due_at(now as int, interval),
{
    now + (interval as i64) * SECONDS_PER_DAY
}


/// Applies one review of the given quality (0 for a complete failure to 5
/// for a perfect recall; higher grades count as 5) at time `now`.
///
/// A failed recall (quality below 3) resets the interval to one day and
/// the status to "Learning". A successful one sets the interval to one
/// day for a new card, six days for a one-day or two-day card, and
/// `scaled_interval` (the current interval times the ease factor,
/// rounded) otherwise, and the status to "Mastered" from 21 days on and
/// "Review" below. The card is then due `interval` days after `now`.
/// Its id and vocabulary id stay as they were.
pub fn calculate_next_review(progress: &mut CardProgress, quality: u8, scaled_interval: u32, now: i64)
    requires
        due_time_fits(now, old(progress).interval, quality, scaled_interval),
    ensures
        final(progress).id == old(progress).id,
        final(progress).vocab_id == old(progress).vocab_id,
        final(progress).interval == next_interval(old(progress).interval, quality, scaled_interval),
        final(progress).status@ == status_label(next_status(quality, final(progress).interval)),
        final(progress).next_review_at == due_at(now as int, final(progress).interval),
{
    let interval = review_interval(progress.interval, quality, scaled_interval);
    let status = review_status(quality, interval);
    progress.interval = interval;
    progress.status = status.label();
    progress.next_review_at = due_time(now, interval);
}


/// The interval of the card a review starts from: the stored one, or 0
/// for an item never reviewed.
pub open spec fn starting_interval(existing: Option<CardProgress>) -> u32 {
    match existing {
        Some(p) => p.interval,
        None => 0,
    }
}

/// The outcome of reviewing a vocabulary item: its progress afterwards and
/// the statement that stores it (an update of the stored progress, or the
/// creation of the first one).
pub struct ReviewPlan {
    /// The card after the review.
    pub progress: CardProgress,
    /// The statement that stores the card's new state.
    pub statement: String,
}

/// Plans the review of a vocabulary item, given the progress the database
/// holds for it (none for an item never reviewed, which starts as a new
/// card), the quality, the scaled interval and the text of the new ease
/// factor: the card after `calculate_next_review` at `now`, and the
/// statement that stores it: an update of the stored progress, or, for an
/// item never reviewed, the creation of its progress.
pub fn plan_review(
    existing: Option<CardProgress>,
    vocab_id: &str,
    quality: u8,
    scaled_interval: u32,
    ease_text: &str,
    now: i64,
) -> (r: ReviewPlan)
    requires
        due_time_fits(now, starting_interval(existing), quality, scaled_interval),
    ensures
        r.progress.id@ == (match existing {
            Some(p) => p.id@,
            None => Seq::<char>::empty(),
        }),
        r.progress.vocab_id@ == (match existing {
            Some(p) => p.vocab_id@,
            None => vocab_id@,
        }),
        r.progress.interval == next_interval(starting_interval(existing), quality, scaled_interval),
        r.progress.status@ == status_label(next_status(quality, r.progress.interval)),
        r.progress.next_review_at == due_at(now as int, r.progress.interval),
        existing is Some ==> r.statement@ == progress_update_statement(r.progress, ease_text@, vocab_id@),
        existing is None ==> r.statement@ == progress_create_statement(r.progress, ease_text@, vocab_id@),
{
    let stored = existing.is_some();
    let mut progress = match existing {
        Some(p) => p,
        None => CardProgress::new_card(String::from_str(vocab_id)),
    };
    calculate_next_review(&mut progress, quality, scaled_interval, now);
    let statement = if stored {
        progress_update_query(&progress, ease_text, vocab_id)
    } else {
        progress_create_query(&progress, ease_text, vocab_id)
    };
    ReviewPlan { progress, statement }
}

/// A failed recall puts any card back to a one-day interval with status
/// "Learning", whatever its interval was.
pub proof fn lemma_failed_recall_resets(interval: u32, quality: u8, scaled_interval: u32)
    requires
        !passed(quality),
    ensures
        next_interval(interval, quality, scaled_interval) == 1,
        next_status(quality, next_interval(interval, quality, scaled_interval)) == ReviewStatus::Learning,
{
}

/// A grade above 5 schedules the card exactly as a grade of 5 does: a
/// review at `now` that `calculate_next_review` accepts with one grade it
/// accepts with the other, and both give the same interval, status and
/// next review time.
pub proof fn lemma_quality_saturates(now: i64, interval: u32, quality: u8, scaled_interval: u32)
    ensures
        due_time_fits(now, interval, quality, scaled_interval)
            == due_time_fits(now, interval, clamped_quality(quality), scaled_interval),
        next_interval(interval, quality, scaled_interval)
            == next_interval(interval, clamped_quality(quality), scaled_interval),
        next_status(quality, next_interval(interval, quality, scaled_interval))
            == next_status(clamped_quality(quality), next_interval(interval, clamped_quality(quality), scaled_interval)),
        due_at(now as int, next_interval(interval, quality, scaled_interval))
            == due_at(now as int, next_interval(interval, clamped_quality(quality), scaled_interval)),
{
}

/// A successful recall always lengthens the interval, as long as the ease
/// factor grows a mature interval (the scaled interval of a card of three
/// days or more exceeds its current interval, as it does for every ease
/// factor of at least 1.3).
pub proof fn lemma_success_lengthens(interval: u32, quality: u8, scaled_interval: u32)
    requires
        passed(quality),
        interval >= 3 ==> scaled_interval > interval,
    ensures
        next_interval(interval, quality, scaled_interval) > interval,
{
}

/// After a review the card is due at least one day later than the review,
/// as long as the scaled interval is at least one day.
pub proof fn lemma_due_after_review(now: i64, interval: u32, quality: u8, scaled_interval: u32)
    requires
        scaled_interval >= 1,
    ensures
        next_interval(interval, quality, scaled_interval) >= 1,
        due_at(now as int, next_interval(interval, quality, scaled_interval)) >= now + SECONDS_PER_DAY,
{
}

/// After a successful recall a card is "Mastered" exactly when its new
/// interval is 21 days or more, and "Review" otherwise.
pub proof fn lemma_mastered_from_three_weeks(quality: u8, new_interval: u32)
    requires
        passed(quality),
    ensures
        (next_status(quality, new_interval) == ReviewStatus::Mastered) <==> new_interval >= MASTERED_INTERVAL,
        (next_status(quality, new_interval) == ReviewStatus::Review) <==> new_interval < MASTERED_INTERVAL,
{
}


/// The SM-2 schedule of one review, over all cards, grades and times:
/// grades above 5 count as 5; a grade below 3 puts the card at one day,
/// "Learning"; every grade of 3 to 5 alike gives one day to a new card,
/// six days to a one- or two-day card and the scaled interval to any
/// older card, "Mastered" from 21 days on and "Review" below; the card is
/// then due that many days of 86400 seconds after the review, and the
/// review is accepted exactly when that time fits in an `i64`.
pub proof fn lemma_sm2_schedule(interval: u32, quality: u8, scaled_interval: u32, now: i64, new_interval: u32)
    ensures
        quality <= 5 ==> clamped_quality(quality) == quality,
        quality > 5 ==> clamped_quality(quality) == 5,
        quality < 3 ==> next_interval(interval, quality, scaled_interval) == 1,
        quality < 3 ==> next_status(quality, new_interval) == ReviewStatus::Learning,
        quality >= 3 && interval == 0 ==> next_interval(interval, quality, scaled_interval) == 1,
        quality >= 3 && (interval == 1 || interval == 2) ==> next_interval(interval, quality, scaled_interval) == 6,
        quality >= 3 && interval >= 3 ==> next_interval(interval, quality, scaled_interval) == scaled_interval,
        quality >= 3 && new_interval >= 21 ==> next_status(quality, new_interval) == ReviewStatus::Mastered,
        quality >= 3 && new_interval < 21 ==> next_status(quality, new_interval) == ReviewStatus::Review,
        due_at(now as int, new_interval) == now + 86400 * new_interval,
        due_time_fits(now, interval, quality, scaled_interval)
            <==> now + 86400 * next_interval(interval, quality, scaled_interval) <= 0x7fff_ffff_ffff_ffff,
{
}

/// Every passing grade schedules a card the same way.
pub proof fn lemma_passing_grades_agree(interval: u32, q1: u8, q2: u8, scaled_interval: u32, new_interval: u32)
    requires
        q1 >= 3,
        q2 >= 3,
    ensures
        next_interval(interval, q1, scaled_interval) == next_interval(interval, q2, scaled_interval),
        next_status(q1, new_interval) == next_status(q2, new_interval),
{
}

/// The statuses are stored as "Learning", "Review" and "Mastered", three
/// different texts.
pub proof fn lemma_status_labels()
    ensures
        status_label(ReviewStatus::Learning) == seq!['L', 'e', 'a', 'r', 'n', 'i', 'n', 'g'],
        status_label(ReviewStatus::Review) == seq!['R', 'e', 'v', 'i', 'e', 'w'],
        status_label(ReviewStatus::Mastered) == seq!['M', 'a', 's', 't', 'e', 'r', 'e', 'd'],
{
    reveal_strlit("Learning");
    reveal_strlit("Review");
    reveal_strlit("Mastered");
    assert(status_label(ReviewStatus::Learning) =~= seq!['L', 'e', 'a', 'r', 'n', 'i', 'n', 'g']);
    assert(status_label(ReviewStatus::Review) =~= seq!['R', 'e', 'v', 'i', 'e', 'w']);
    assert(status_label(ReviewStatus::Mastered) =~= seq!['M', 'a', 's', 't', 'e', 'r', 'e', 'd']);
}

/// A review starts from the stored interval, or from 0 for an item never
/// reviewed.
pub proof fn lemma_starting_interval(p: CardProgress)
    ensures
        starting_interval(Some(p)) == p.interval,
        starting_interval(None) == 0,
{
}

} // verus!
