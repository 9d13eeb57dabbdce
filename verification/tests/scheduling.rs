use signmate::anki::{
    calculate_next_review, clamp_quality, due_time, plan_review, review_interval, review_status,
    ReviewStatus,
};
use signmate::progress::{CardProgress, DeckStats};

fn card(interval: u32) -> CardProgress {
    CardProgress {
        id: "user_progress:abc".to_string(),
        vocab_id: "hello".to_string(),
        status: "Review".to_string(),
        interval,
        next_review_at: 123,
    }
}

#[test]
fn quality_is_clamped_to_five() {
    assert_eq!(clamp_quality(0), 0);
    assert_eq!(clamp_quality(5), 5);
    assert_eq!(clamp_quality(6), 5);
    assert_eq!(clamp_quality(255), 5);
}

#[test]
fn failed_recall_resets_to_one_day_learning() {
    for q in 0..3u8 {
        let mut p = card(40);
        calculate_next_review(&mut p, q, 100, 1_000);
        assert_eq!(p.interval, 1);
        assert_eq!(p.status, "Learning");
        assert_eq!(p.next_review_at, 1_000 + 86_400);
        assert_eq!(p.id, "user_progress:abc");
        assert_eq!(p.vocab_id, "hello");
    }
}

#[test]
fn first_successes_use_fixed_steps() {
    let mut p = card(0);
    calculate_next_review(&mut p, 4, 0, 0);
    assert_eq!(p.interval, 1);
    assert_eq!(p.status, "Review");
    assert_eq!(p.next_review_at, 86_400);

    let mut p = card(1);
    calculate_next_review(&mut p, 3, 0, 10);
    assert_eq!(p.interval, 6);
    assert_eq!(p.status, "Review");
    assert_eq!(p.next_review_at, 10 + 6 * 86_400);

    let mut p = card(1);
    calculate_next_review(&mut p, 4, 3, 0);
    assert_eq!(p.interval, 6);
    assert_eq!(p.next_review_at, 518_400);

    let mut p = card(2);
    calculate_next_review(&mut p, 5, 5, 10);
    assert_eq!(p.interval, 6);
    assert_eq!(p.status, "Review");
    assert_eq!(p.next_review_at, 10 + 6 * 86_400);

    let mut p = card(3);
    calculate_next_review(&mut p, 5, 8, 0);
    assert_eq!(p.interval, 8);
}

#[test]
fn mature_card_grows_by_scaled_interval() {
    let mut p = card(6);
    calculate_next_review(&mut p, 5, 15, 1_700_000_000);
    assert_eq!(p.interval, 15);
    assert_eq!(p.status, "Review");
    assert_eq!(p.next_review_at, 1_700_000_000 + 15 * 86_400);

    let mut p = card(15);
    calculate_next_review(&mut p, 4, 38, 0);
    assert_eq!(p.interval, 38);
    assert_eq!(p.status, "Mastered");
}

#[test]
fn mastered_from_twenty_one_days() {
    assert_eq!(review_status(5, 21), ReviewStatus::Mastered);
    assert_eq!(review_status(5, 20), ReviewStatus::Review);
    assert_eq!(review_status(2, 100), ReviewStatus::Learning);
    assert_eq!(ReviewStatus::Mastered.label(), "Mastered");
    assert_eq!(ReviewStatus::Review.label(), "Review");
    assert_eq!(ReviewStatus::Learning.label(), "Learning");
}

#[test]
fn quality_above_five_counts_as_five() {
    for interval in [0u32, 1, 2, 3, 30] {
        assert_eq!(review_interval(interval, 200, 77), review_interval(interval, 5, 77));
    }
    let mut a = card(10);
    let mut b = card(10);
    calculate_next_review(&mut a, 9, 25, 5);
    calculate_next_review(&mut b, 5, 25, 5);
    assert_eq!(a.interval, b.interval);
    assert_eq!(a.status, b.status);
    assert_eq!(a.next_review_at, b.next_review_at);
}

#[test]
fn successes_keep_lengthening_the_interval() {
    // A new card reviewed perfectly with ease factor 2.5 each time.
    let mut p = card(0);
    let mut last = 0;
    for scaled in [0u32, 0, 15, 38, 95] {
        calculate_next_review(&mut p, 5, scaled, 0);
        assert!(p.interval > last);
        last = p.interval;
    }
    assert_eq!(p.interval, 95);
    assert_eq!(p.status, "Mastered");
}

#[test]
fn card_from_record_without_id() {
    let p = CardProgress::from_record(None, "v".to_string(), "Review".to_string(), 6, 42);
    assert_eq!(p.id, "");
    assert_eq!(p.vocab_id, "v");
    assert_eq!(p.status, "Review");
    assert_eq!(p.interval, 6);
    assert_eq!(p.next_review_at, 42);
    let p = CardProgress::from_record(Some("user_progress:x".to_string()), "v".into(), "New".into(), 0, 0);
    assert_eq!(p.id, "user_progress:x");
}

#[test]
fn due_time_adds_whole_days() {
    assert_eq!(due_time(0, 0), 0);
    assert_eq!(due_time(-5, 1), 86_395);
    assert_eq!(due_time(0, u32::MAX), 4_294_967_295i64 * 86_400);
}

#[test]
fn plan_review_of_unseen_item_starts_from_new_card() {
    let plan = plan_review(None, "v1", 5, 999, "2.6", 100);
    assert_eq!(plan.progress.id, "");
    assert_eq!(plan.progress.vocab_id, "v1");
    assert_eq!(plan.progress.interval, 1);
    assert_eq!(plan.progress.status, "Review");
    assert_eq!(plan.progress.next_review_at, 100 + 86_400);
    assert_eq!(
        plan.statement,
        "CREATE user_progress SET vocab_id = 'v1', status = 'Review', interval = 1, ease_factor = 2.6, next_review_at = 86500"
    );
}

#[test]
fn plan_review_of_stored_card_keeps_its_ids() {
    let plan = plan_review(Some(card(30)), "hello", 1, 75, "2.18", 0);
    assert_eq!(plan.progress.id, "user_progress:abc");
    assert_eq!(plan.progress.interval, 1);
    assert_eq!(plan.progress.status, "Learning");
    assert_eq!(
        plan.statement,
        "UPDATE user_progress SET status = 'Learning', interval = 1, ease_factor = 2.18, next_review_at = 86400 WHERE vocab_id = 'hello' AND status != 'Bookmarked'"
    );
}

#[test]
fn new_card_defaults() {
    let p = CardProgress::new_card("w".to_string());
    assert_eq!(p.id, "");
    assert_eq!(p.vocab_id, "w");
    assert_eq!(p.status, "New");
    assert_eq!(p.interval, 0);
    assert_eq!(p.next_review_at, 0);
}

#[test]
fn deck_stats_from_totals() {
    let s = DeckStats::from_totals(Some(3), None, Some(7));
    assert_eq!((s.new, s.review, s.learned), (3, 0, 7));
    let s = DeckStats::from_totals(Some((1u64 << 32) + 5), Some(u64::MAX), None);
    assert_eq!((s.new, s.review, s.learned), (5, u32::MAX, 0));
}
