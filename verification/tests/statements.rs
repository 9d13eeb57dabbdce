use signmate::query::{
    bookmark_create_query, bookmark_delete_query, bookmark_lookup_query, daily_cards_query, db_path,
    progress_create_query, progress_lookup_query, progress_update_query, related_videos_query,
    vocab_detail_query, vocab_list_query, DECK_STATS_QUERY, PAGE_SIZE, SCHEMA_STATEMENTS,
};
use signmate::progress::CardProgress;
use signmate::text::{decimal_i64, decimal_u128, decimal_u64, escape_text, join_with, plain_key, quote_text, write_record_key};
use signmate::vocab::{toggle_bookmark_step, vocab_detail_result, Vocab};

#[test]
fn decimal_numerals() {
    assert_eq!(decimal_u64(0), "0");
    assert_eq!(decimal_u64(7), "7");
    assert_eq!(decimal_u64(10), "10");
    assert_eq!(decimal_u64(1234567890), "1234567890");
    assert_eq!(decimal_u64(u64::MAX), u64::MAX.to_string());
    assert_eq!(decimal_i64(0), "0");
    assert_eq!(decimal_i64(-42), "-42");
    assert_eq!(decimal_i64(i64::MIN), i64::MIN.to_string());
    assert_eq!(decimal_i64(i64::MAX), i64::MAX.to_string());
    assert_eq!(decimal_u128(u128::MAX), u128::MAX.to_string());
}

#[test]
fn joining() {
    let parts: Vec<String> = vec![];
    assert_eq!(join_with(&parts, " AND "), "");
    let parts = vec!["a".to_string()];
    assert_eq!(join_with(&parts, " AND "), "a");
    let parts = vec!["a".to_string(), "b".to_string(), "c".to_string()];
    assert_eq!(join_with(&parts, ", "), "a, b, c");
}

#[test]
fn vocab_list_without_filters() {
    assert_eq!(
        vocab_list_query(0, &None, &None, &None),
        "SELECT * FROM vocabulary  LIMIT 20 START 0"
    );
    assert_eq!(
        vocab_list_query(3, &None, &None, &None),
        "SELECT * FROM vocabulary  LIMIT 20 START 60"
    );
}

#[test]
fn vocab_list_with_filters() {
    assert_eq!(
        vocab_list_query(1, &Some("Family".to_string()), &None, &None),
        "SELECT * FROM vocabulary WHERE topic = 'Family' LIMIT 20 START 20"
    );
    assert_eq!(
        vocab_list_query(0, &None, &Some("North".to_string()), &Some("mo".to_string())),
        "SELECT * FROM vocabulary WHERE region = 'North' AND word CONTAINS 'mo' LIMIT 20 START 0"
    );
    assert_eq!(
        vocab_list_query(2, &Some("Food".to_string()), &Some("South".to_string()), &Some("rice".to_string())),
        "SELECT * FROM vocabulary WHERE topic = 'Food' AND region = 'South' AND word CONTAINS 'rice' LIMIT 20 START 40"
    );
}

#[test]
fn pages_follow_each_other() {
    let last = u32::MAX / PAGE_SIZE;
    let q = vocab_list_query(last, &None, &None, &None);
    assert_eq!(q, format!("SELECT * FROM vocabulary  LIMIT 20 START {}", last * 20));
}

#[test]
fn single_statements() {
    assert_eq!(db_path("/data/app"), "/data/app/signmate.db");
    assert_eq!(
        daily_cards_query(1700000000),
        "SELECT * FROM user_progress WHERE next_review_at <= 1700006399 AND status != 'Bookmarked' ORDER BY next_review_at ASC"
    );
    assert_eq!(
        progress_lookup_query("abc"),
        "SELECT * FROM user_progress WHERE vocab_id = 'abc' AND status != 'Bookmarked'"
    );
    assert_eq!(vocab_detail_query("xyz"), "SELECT * FROM vocabulary:xyz");
    assert_eq!(
        related_videos_query("Family", "xyz"),
        "SELECT * FROM vocabulary WHERE topic = 'Family' AND id != vocabulary:xyz LIMIT 5"
    );
    assert_eq!(
        bookmark_lookup_query("b"),
        "SELECT * FROM user_progress WHERE vocab_id = 'b' AND status = 'Bookmarked'"
    );
    assert_eq!(
        bookmark_create_query("b"),
        "CREATE user_progress SET vocab_id = 'b', status = 'Bookmarked', interval = 0, ease_factor = 2.5, next_review_at = 0"
    );
    assert_eq!(
        bookmark_delete_query("b"),
        "DELETE FROM user_progress WHERE vocab_id = 'b' AND status = 'Bookmarked'"
    );
    assert!(DECK_STATS_QUERY.starts_with("SELECT count() AS total FROM user_progress WHERE status = 'New' GROUP ALL;"));
    assert_eq!(DECK_STATS_QUERY.matches("GROUP ALL;").count(), 3);
    assert!(SCHEMA_STATEMENTS.contains("DEFINE TABLE IF NOT EXISTS user_progress SCHEMAFULL;"));
}

fn item(id: &str, word: &str) -> Vocab {
    Vocab::from_record(
        Some(id.to_string()),
        word.to_string(),
        "Family".to_string(),
        "North".to_string(),
        format!("videos/{}.mp4", word),
        "a sign".to_string(),
    )
}

#[test]
fn record_without_id_gets_empty_id() {
    let v = Vocab::from_record(None, "w".into(), "t".into(), "r".into(), "p".into(), "d".into());
    assert_eq!(v.id, "");
    assert_eq!(v.word, "w");
    assert_eq!(v.video_path, "p");
}

#[test]
fn vocab_detail_takes_first_record() {
    let r = vocab_detail_result(vec![item("vocabulary:1", "mother"), item("vocabulary:2", "father")], "1");
    let v = r.ok().unwrap();
    assert_eq!(v.id, "vocabulary:1");
    assert_eq!(v.word, "mother");
}

#[test]
fn vocab_detail_not_found() {
    let r = vocab_detail_result(vec![], "nope");
    assert_eq!(r.err().unwrap(), "Vocabulary with id 'nope' not found");
}

#[test]
fn bookmark_toggle_creates_then_deletes() {
    let first = toggle_bookmark_step(0, "w1");
    assert!(first.bookmarked);
    assert_eq!(first.statement, bookmark_create_query("w1"));
    let second = toggle_bookmark_step(1, "w1");
    assert!(!second.bookmarked);
    assert_eq!(second.statement, bookmark_delete_query("w1"));
    let many = toggle_bookmark_step(3, "w1");
    assert!(!many.bookmarked);
}

#[test]
fn daily_cards_reach_end_of_day() {
    assert_eq!(
        daily_cards_query(0),
        "SELECT * FROM user_progress WHERE next_review_at <= 86399 AND status != 'Bookmarked' ORDER BY next_review_at ASC"
    );
    assert_eq!(
        daily_cards_query(86399),
        "SELECT * FROM user_progress WHERE next_review_at <= 86399 AND status != 'Bookmarked' ORDER BY next_review_at ASC"
    );
    assert_eq!(
        daily_cards_query(86400),
        "SELECT * FROM user_progress WHERE next_review_at <= 172799 AND status != 'Bookmarked' ORDER BY next_review_at ASC"
    );
    let end = (u64::MAX as u128 / 86400 + 1) * 86400 - 1;
    assert_eq!(
        daily_cards_query(u64::MAX),
        format!("SELECT * FROM user_progress WHERE next_review_at <= {} AND status != 'Bookmarked' ORDER BY next_review_at ASC", end)
    );
}

#[test]
fn quoting_and_escaping() {
    assert_eq!(quote_text(""), "''");
    assert_eq!(quote_text("plain"), "'plain'");
    assert_eq!(quote_text("it's"), "'it\\'s'");
    assert_eq!(quote_text("a\\b"), "'a\\\\b'");
    assert_eq!(quote_text("ñandú ü"), "'ñandú ü'");
    assert_eq!(escape_text("x`y'", '`'), "x\\`y'");
}

#[test]
fn filter_with_quote_stays_one_literal() {
    assert_eq!(
        vocab_list_query(0, &Some("x' OR topic != 'x".to_string()), &None, &None),
        "SELECT * FROM vocabulary WHERE topic = 'x\\' OR topic != \\'x' LIMIT 20 START 0"
    );
    assert_eq!(
        progress_lookup_query("a'b"),
        "SELECT * FROM user_progress WHERE vocab_id = 'a\\'b' AND status != 'Bookmarked'"
    );
    assert_eq!(
        bookmark_delete_query("a'; DELETE vocabulary; '"),
        "DELETE FROM user_progress WHERE vocab_id = 'a\\'; DELETE vocabulary; \\'' AND status = 'Bookmarked'"
    );
}

#[test]
fn record_keys() {
    assert!(plain_key("tkwse1j5o0anqjxonvzx"));
    assert!(plain_key("A_9"));
    assert!(!plain_key(""));
    assert!(!plain_key("x; DELETE vocabulary"));
    assert_eq!(write_record_key("abc123"), "abc123");
    assert_eq!(write_record_key(""), "``");
    assert_eq!(write_record_key("x`y\\z"), "`x\\`y\\\\z`");
    assert_eq!(vocab_detail_query("x; DELETE vocabulary"), "SELECT * FROM vocabulary:`x; DELETE vocabulary`");
    assert_eq!(
        related_videos_query("it's", "a-b"),
        "SELECT * FROM vocabulary WHERE topic = 'it\\'s' AND id != vocabulary:`a-b` LIMIT 5"
    );
}

#[test]
fn first_progress_is_created() {
    let p = CardProgress {
        id: String::new(),
        vocab_id: "v".to_string(),
        status: "Review".to_string(),
        interval: 1,
        next_review_at: -3,
    };
    assert_eq!(
        progress_create_query(&p, "2.6", "o'k"),
        "CREATE user_progress SET vocab_id = 'o\\'k', status = 'Review', interval = 1, ease_factor = 2.6, next_review_at = -3"
    );
    assert_eq!(
        progress_update_query(&p, "2.6", "v"),
        "UPDATE user_progress SET status = 'Review', interval = 1, ease_factor = 2.6, next_review_at = -3 WHERE vocab_id = 'v' AND status != 'Bookmarked'"
    );
}
