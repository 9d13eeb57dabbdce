//! The SurrealQL statements the application sends to its database, and the
//! database's file path.
use vstd::prelude::*;
use vstd::string::*;

use crate::progress::CardProgress;
use crate::text::{lemma_join_parts, decimal, decimal_i64, decimal_u128, decimal_u64, join, join_with, quote_text, quoted, record_key, signed_decimal, views, write_record_key};

verus! {

/// The statements that define the tables and fields when they do not exist yet.
pub const SCHEMA_STATEMENTS: &'static str = "
    DEFINE TABLE IF NOT EXISTS vocabulary SCHEMAFULL;
    DEFINE FIELD IF NOT EXISTS word        ON vocabulary TYPE string;
    DEFINE FIELD IF NOT EXISTS topic       ON vocabulary TYPE string;
    DEFINE FIELD IF NOT EXISTS region      ON vocabulary TYPE string;
    DEFINE FIELD IF NOT EXISTS video_path  ON vocabulary TYPE string;
    DEFINE FIELD IF NOT EXISTS description ON vocabulary TYPE string;

    DEFINE TABLE IF NOT EXISTS user_progress SCHEMAFULL;
    DEFINE FIELD IF NOT EXISTS vocab_id       ON user_progress TYPE string;
    DEFINE FIELD IF NOT EXISTS status         ON user_progress TYPE string;
    DEFINE FIELD IF NOT EXISTS interval       ON user_progress TYPE int;
    DEFINE FIELD IF NOT EXISTS ease_factor    ON user_progress TYPE float;
    DEFINE FIELD IF NOT EXISTS next_review_at ON user_progress TYPE int;

    DEFINE TABLE IF NOT EXISTS user_settings SCHEMAFULL;
    DEFINE FIELD IF NOT EXISTS key       ON user_settings TYPE string;
    DEFINE FIELD IF NOT EXISTS value     ON user_settings TYPE string;
    DEFINE FIELD IF NOT EXISTS device_id ON user_settings TYPE string;
    ";

/// The statements that count the new, the learning-or-review and the
/// mastered cards, in that order.
pub const DECK_STATS_QUERY: &'static str = "SELECT count() AS total FROM user_progress WHERE status = 'New' GROUP ALL;
       SELECT count() AS total FROM user_progress WHERE status = 'Review' OR status = 'Learning' GROUP ALL;
       SELECT count() AS total FROM user_progress WHERE status = 'Mastered' GROUP ALL;";

/// Vocabulary items per page of the list.
pub const PAGE_SIZE: u32 = 20;

/// Related videos shown at most.
pub const RELATED_LIMIT: u32 = 5;

/// The path of the database inside the application's data directory.
pub fn db_path(app_data_dir: &str) -> (p: String)
    ensures
        p@ == app_data_dir@ + "/signmate.db"@,
{
    let mut p = String::from_str(app_data_dir);
    p.append("/signmate.db");
    p
}

/// Seconds in a day.
pub const DAY_SECONDS: u64 = 86400;

/// The last second of the UTC day that holds `now` (seconds since the epoch).
pub open spec fn day_end(now: nat) -> nat {
    ((now / DAY_SECONDS as nat + 1) * DAY_SECONDS as nat - 1) as nat
}

/// The cards due by the end of the UTC day that holds `now` (seconds since
/// the epoch), bookmarks left out, earliest first.
pub fn daily_cards_query(now: u64) -> (q: String)
    ensures
        q@ == "SELECT * FROM user_progress WHERE next_review_at <= "@ + decimal(day_end(now as nat))
            + " AND status != 'Bookmarked' ORDER BY next_review_at ASC"@,
{
    let day: u128 = (now as u128) / (DAY_SECONDS as u128);
    assert(day * 86400 <= now) by (nonlinear_arith)
        requires
            day == now as int / 86400,
            now >= 0,
    ;
    let end: u128 = (day + 1) * (DAY_SECONDS as u128) - 1;
    let mut q = String::from_str("SELECT * FROM user_progress WHERE next_review_at <= ");
    let t = decimal_u128(end);
    q.append(t.as_str());
    q.append(" AND status != 'Bookmarked' ORDER BY next_review_at ASC");
    q
}

/// The review progress of a vocabulary item, bookmarks left out.
pub fn progress_lookup_query(vocab_id: &str) -> (q: String)
    ensures
        q@ == "SELECT * FROM user_progress WHERE vocab_id = "@ + quoted(vocab_id@)
            + " AND status != 'Bookmarked'"@,
{
    let mut q = String::from_str("SELECT * FROM user_progress WHERE vocab_id = ");
    let v = quote_text(vocab_id);
    q.append(v.as_str());
    q.append(" AND status != 'Bookmarked'");
    q
}

/// The statement that stores a card's status, interval, ease factor (given
/// as its numeral) and next review time on the vocabulary item's stored
/// progress, bookmarks left out.
pub open spec fn progress_update_statement(progress: CardProgress, ease_text: Seq<char>, vocab_id: Seq<char>) -> Seq<char> {
    "UPDATE user_progress SET status = "@ + quoted(progress.status@) + ", interval = "@
        + decimal(progress.interval as nat) + ", ease_factor = "@ + ease_text
        + ", next_review_at = "@ + signed_decimal(progress.next_review_at as int)
        + " WHERE vocab_id = "@ + quoted(vocab_id) + " AND status != 'Bookmarked'"@
}

/// The statement that stores the first progress of a vocabulary item: its
/// status, interval, ease factor (given as its numeral) and next review time.
pub open spec fn progress_create_statement(progress: CardProgress, ease_text: Seq<char>, vocab_id: Seq<char>) -> Seq<char> {
    "CREATE user_progress SET vocab_id = "@ + quoted(vocab_id) + ", status = "@ + quoted(progress.status@)
        + ", interval = "@ + decimal(progress.interval as nat) + ", ease_factor = "@ + ease_text
        + ", next_review_at = "@ + signed_decimal(progress.next_review_at as int)
}

/// Stores a card's status, interval, ease factor (given as its numeral) and
/// next review time on the vocabulary item's stored progress, bookmarks
/// left out.
pub fn progress_update_query(progress: &CardProgress, ease_text: &str, vocab_id: &str) -> (q: String)
    ensures
        q@ == progress_update_statement(*progress, ease_text@, vocab_id@),
{
    let mut q = String::from_str("UPDATE user_progress SET status = ");
    let status = quote_text(progress.status.as_str());
    q.append(status.as_str());
    q.append(", interval = ");
    let interval = decimal_u64(progress.interval as u64);
    q.append(interval.as_str());
    q.append(", ease_factor = ");
    q.append(ease_text);
    q.append(", next_review_at = ");
    let next = decimal_i64(progress.next_review_at);
    q.append(next.as_str());
    q.append(" WHERE vocab_id = ");
    let v = quote_text(vocab_id);
    q.append(v.as_str());
    q.append(" AND status != 'Bookmarked'");
    q
}

/// Stores the first progress of a vocabulary item.
pub fn progress_create_query(progress: &CardProgress, ease_text: &str, vocab_id: &str) -> (q: String)
    ensures
        q@ == progress_create_statement(*progress, ease_text@, vocab_id@),
{
    let mut q = String::from_str("CREATE user_progress SET vocab_id = ");
    let v = quote_text(vocab_id);
    q.append(v.as_str());
    q.append(", status = ");
    let status = quote_text(progress.status.as_str());
    q.append(status.as_str());
    q.append(", interval = ");
    let interval = decimal_u64(progress.interval as u64);
    q.append(interval.as_str());
    q.append(", ease_factor = ");
    q.append(ease_text);
    q.append(", next_review_at = ");
    let next = decimal_i64(progress.next_review_at);
    q.append(next.as_str());
    q
}

/// The view of an optional text.
pub open spec fn opt_view(o: Option<String>) -> Option<Seq<char>> {
    match o {
        Some(s) => Some(s@),
        None => None,
    }
}

/// The condition `prefix` followed by the value as a string literal when a
/// value is given, none otherwise.
pub open spec fn optional_condition(prefix: Seq<char>, value: Option<Seq<char>>) -> Seq<Seq<char>> {
    match value {
        Some(v) => seq![prefix + quoted(v)],
        None => Seq::empty(),
    }
}

/// The conditions of the vocabulary list: topic, region and word search,
/// each one only when given, in that order.
pub open spec fn list_conditions(
    topic: Option<Seq<char>>,
    region: Option<Seq<char>>,
    search: Option<Seq<char>>,
) -> Seq<Seq<char>> {
    optional_condition("topic = "@, topic) + optional_condition("region = "@, region)
        + optional_condition("word CONTAINS "@, search)
}

/// `WHERE` and the conditions joined by `AND`; empty when there is no condition.
pub open spec fn where_clause(conditions: Seq<Seq<char>>) -> Seq<char> {
    if conditions.len() == 0 {
        Seq::empty()
    } else {
        "WHERE "@ + join(conditions, " AND "@)
    }
}

/// The first item a page shows, counting from 0.
pub open spec fn page_offset(page: u32) -> int {
    page * PAGE_SIZE
}

/// The statement for one page of the vocabulary list.
pub open spec fn vocab_list_statement(
    page: u32,
    topic: Option<Seq<char>>,
    region: Option<Seq<char>>,
    search: Option<Seq<char>>,
) -> Seq<char> {
    "SELECT * FROM vocabulary "@ + where_clause(list_conditions(topic, region, search))
        + " LIMIT "@ + decimal(PAGE_SIZE as nat) + " START "@ + decimal(page_offset(page) as nat)
}

fn push_condition(conditions: &mut Vec<String>, prefix: &str, value: &Option<String>)
    ensures
        views(final(conditions)@) == views(old(conditions)@) + optional_condition(prefix@, opt_view(*value)),
{
    let ghost before = views(conditions@);
    match value {
        Some(v) => {
            let mut c = String::from_str(prefix);
            let literal = quote_text(v.as_str());
            c.append(literal.as_str());
            conditions.push(c);
            assert(views(conditions@) =~= before + optional_condition(prefix@, opt_view(*value)));
        },
        None => {
            assert(views(conditions@) =~= before + optional_condition(prefix@, opt_view(*value)));
        },
    }
}

/// One page of the vocabulary list, 20 items from item `20 * page` on,
/// limited to the given topic and region and to words that contain the
/// search text, where these are given. Each given value stands in the
/// statement as a string literal that holds exactly that value.
pub fn vocab_list_query(
    page: u32,
    filter_topic: &Option<String>,
    filter_region: &Option<String>,
    search_query: &Option<String>,
) -> (q: String)
    requires
        page_offset(page) <= u32::MAX,
    ensures
        q@ == vocab_list_statement(page, opt_view(*filter_topic), opt_view(*filter_region), opt_view(*search_query)),
{
    let limit = PAGE_SIZE;
    let offset = page * limit;
    let mut conditions: Vec<String> = Vec::new();
    assert(views(conditions@) =~= Seq::<Seq<char>>::empty());
    push_condition(&mut conditions, "topic = ", filter_topic);
    push_condition(&mut conditions, "region = ", filter_region);
    push_condition(&mut conditions, "word CONTAINS ", search_query);
    assert(views(conditions@) =~= list_conditions(
        opt_view(*filter_topic),
        opt_view(*filter_region),
        opt_view(*search_query),
    ));
    let where_part = if conditions.len() == 0 {
        String::new()
    } else {
        let mut w = String::from_str("WHERE ");
        let joined = join_with(&conditions, " AND ");
        w.append(joined.as_str());
        w
    };
    let mut q = String::from_str("SELECT * FROM vocabulary ");
    q.append(where_part.as_str());
    q.append(" LIMIT ");
    let limit_text = decimal_u64(limit as u64);
    q.append(limit_text.as_str());
    q.append(" START ");
    let offset_text = decimal_u64(offset as u64);
    q.append(offset_text.as_str());
    q
}

/// One vocabulary item by the key of its record id; a key that is not
/// plain stands quoted, so that it names one record and nothing else.
pub fn vocab_detail_query(id: &str) -> (q: String)
    ensures
        q@ == "SELECT * FROM vocabulary:"@ + record_key(id@),
{
    let mut q = String::from_str("SELECT * FROM vocabulary:");
    let key = write_record_key(id);
    q.append(key.as_str());
    q
}

/// Up to five other vocabulary items of the same topic.
pub fn related_videos_query(topic: &str, current_id: &str) -> (q: String)
    ensures
        q@ == "SELECT * FROM vocabulary WHERE topic = "@ + quoted(topic@) + " AND id != vocabulary:"@
            + record_key(current_id@) + " LIMIT "@ + decimal(RELATED_LIMIT as nat),
{
    let mut q = String::from_str("SELECT * FROM vocabulary WHERE topic = ");
    let t = quote_text(topic);
    q.append(t.as_str());
    q.append(" AND id != vocabulary:");
    let key = write_record_key(current_id);
    q.append(key.as_str());
    q.append(" LIMIT ");
    let limit_text = decimal_u64(RELATED_LIMIT as u64);
    q.append(limit_text.as_str());
    q
}

/// The bookmark of a vocabulary item, if any.
pub fn bookmark_lookup_query(id: &str) -> (q: String)
    ensures
        q@ == "SELECT * FROM user_progress WHERE vocab_id = "@ + quoted(id@) + " AND status = 'Bookmarked'"@,
{
    let mut q = String::from_str("SELECT * FROM user_progress WHERE vocab_id = ");
    let v = quote_text(id);
    q.append(v.as_str());
    q.append(" AND status = 'Bookmarked'");
    q
}

/// The statement that bookmarks a vocabulary item.
pub open spec fn bookmark_create_statement(id: Seq<char>) -> Seq<char> {
    "CREATE user_progress SET vocab_id = "@ + quoted(id)
        + ", status = 'Bookmarked', interval = 0, ease_factor = 2.5, next_review_at = 0"@
}

/// The statement that removes the bookmark of a vocabulary item.
pub open spec fn bookmark_delete_statement(id: Seq<char>) -> Seq<char> {
    "DELETE FROM user_progress WHERE vocab_id = "@ + quoted(id) + " AND status = 'Bookmarked'"@
}

/// Bookmarks a vocabulary item.
pub fn bookmark_create_query(id: &str) -> (q: String)
    ensures
        q@ == bookmark_create_statement(id@),
{
    let mut q = String::from_str("CREATE user_progress SET vocab_id = ");
    let v = quote_text(id);
    q.append(v.as_str());
    q.append(", status = 'Bookmarked', interval = 0, ease_factor = 2.5, next_review_at = 0");
    q
}

/// Removes the bookmark of a vocabulary item.
pub fn bookmark_delete_query(id: &str) -> (q: String)
    ensures
        q@ == bookmark_delete_statement(id@),
{
    let mut q = String::from_str("DELETE FROM user_progress WHERE vocab_id = ");
    let v = quote_text(id);
    q.append(v.as_str());
    q.append(" AND status = 'Bookmarked'");
    q
}

/// Consecutive pages of the vocabulary list neither overlap nor leave a
/// gap: each starts where the one before ends.
pub proof fn lemma_pages_are_consecutive(page: u32)
    requires
        page < u32::MAX,
    ensures
        page_offset((page + 1) as u32) == page_offset(page) + PAGE_SIZE,
{
}

/// The daily cards reach to the end of the current UTC day: every time
/// from `now` to the last second of its day is at most the bound, and the
/// bound is less than a day after the day's start.
pub proof fn lemma_daily_bound_is_end_of_day(now: nat)
    ensures
        now <= day_end(now),
        day_end(now) < (now / DAY_SECONDS as nat) * DAY_SECONDS as nat + DAY_SECONDS as nat,
        day_end(now) / DAY_SECONDS as nat == now / DAY_SECONDS as nat,
        (day_end(now) + 1) % 86400 == 0,
{
    let d = now / 86400;
    assert(d * 86400 <= now && now < d * 86400 + 86400) by (nonlinear_arith)
        requires
            d == now / 86400,
    ;
    assert(((d + 1) * 86400 - 1) / 86400 == d) by (nonlinear_arith)
        requires
            d >= 0,
    ;
    assert(((d + 1) * 86400) % 86400 == 0) by (nonlinear_arith)
        requires
            d >= 0,
    ;
}

proof fn lemma_vocab_list_case_0(page: u32, t: Seq<char>, r: Seq<char>, q: Seq<char>)
    ensures
        vocab_list_statement(page, None, None, None)
            == "SELECT * FROM vocabulary "@ + " LIMIT "@ + decimal(20) + " START "@ + decimal((20 * page) as nat),
{
    lemma_join_parts("topic = "@ + quoted(t), "topic = "@ + quoted(t), "topic = "@ + quoted(t), " AND "@);
    assert(list_conditions(None, None, None) =~= Seq::<Seq<char>>::empty());
    assert(vocab_list_statement(page, None, None, None) =~= "SELECT * FROM vocabulary "@ + " LIMIT "@ + decimal(20) + " START "@ + decimal((20 * page) as nat));
}

proof fn lemma_vocab_list_case_1(page: u32, t: Seq<char>, r: Seq<char>, q: Seq<char>)
    ensures
        vocab_list_statement(page, Some(t), None, None)
            == "SELECT * FROM vocabulary "@ + "WHERE "@ + ("topic = "@ + quoted(t)) + " LIMIT "@ + decimal(20) + " START "@ + decimal((20 * page) as nat),
{
    lemma_join_parts("topic = "@ + quoted(t), "topic = "@ + quoted(t), "topic = "@ + quoted(t), " AND "@);
    assert(list_conditions(Some(t), None, None) =~= seq![("topic = "@ + quoted(t))]);
    assert(vocab_list_statement(page, Some(t), None, None) =~= "SELECT * FROM vocabulary "@ + "WHERE "@ + ("topic = "@ + quoted(t)) + " LIMIT "@ + decimal(20) + " START "@ + decimal((20 * page) as nat));
}

proof fn lemma_vocab_list_case_2(page: u32, t: Seq<char>, r: Seq<char>, q: Seq<char>)
    ensures
        vocab_list_statement(page, None, Some(r), None)
            == "SELECT * FROM vocabulary "@ + "WHERE "@ + ("region = "@ + quoted(r)) + " LIMIT "@ + decimal(20) + " START "@ + decimal((20 * page) as nat),
{
    lemma_join_parts("region = "@ + quoted(r), "region = "@ + quoted(r), "region = "@ + quoted(r), " AND "@);
    assert(list_conditions(None, Some(r), None) =~= seq![("region = "@ + quoted(r))]);
    assert(vocab_list_statement(page, None, Some(r), None) =~= "SELECT * FROM vocabulary "@ + "WHERE "@ + ("region = "@ + quoted(r)) + " LIMIT "@ + decimal(20) + " START "@ + decimal((20 * page) as nat));
}

proof fn lemma_vocab_list_case_3(page: u32, t: Seq<char>, r: Seq<char>, q: Seq<char>)
    ensures
        vocab_list_statement(page, None, None, Some(q))
            == "SELECT * FROM vocabulary "@ + "WHERE "@ + ("word CONTAINS "@ + quoted(q)) + " LIMIT "@ + decimal(20) + " START "@ + decimal((20 * page) as nat),
{
    lemma_join_parts("word CONTAINS "@ + quoted(q), "word CONTAINS "@ + quoted(q), "word CONTAINS "@ + quoted(q), " AND "@);
    assert(list_conditions(None, None, Some(q)) =~= seq![("word CONTAINS "@ + quoted(q))]);
    assert(vocab_list_statement(page, None, None, Some(q)) =~= "SELECT * FROM vocabulary "@ + "WHERE "@ + ("word CONTAINS "@ + quoted(q)) + " LIMIT "@ + decimal(20) + " START "@ + decimal((20 * page) as nat));
}

proof fn lemma_vocab_list_case_4(page: u32, t: Seq<char>, r: Seq<char>, q: Seq<char>)
    ensures
        vocab_list_statement(page, Some(t), Some(r), None)
            == "SELECT * FROM vocabulary "@ + "WHERE "@ + ("topic = "@ + quoted(t)) + " AND "@ + ("region = "@ + quoted(r)) + " LIMIT "@ + decimal(20) + " START "@ + decimal((20 * page) as nat),
{
    lemma_join_parts("topic = "@ + quoted(t), "region = "@ + quoted(r), "region = "@ + quoted(r), " AND "@);
    assert(list_conditions(Some(t), Some(r), None) =~= seq![("topic = "@ + quoted(t)), ("region = "@ + quoted(r))]);
    assert(vocab_list_statement(page, Some(t), Some(r), None) =~= "SELECT * FROM vocabulary "@ + "WHERE "@ + ("topic = "@ + quoted(t)) + " AND "@ + ("region = "@ + quoted(r)) + " LIMIT "@ + decimal(20) + " START "@ + decimal((20 * page) as nat));
}

proof fn lemma_vocab_list_case_5(page: u32, t: Seq<char>, r: Seq<char>, q: Seq<char>)
    ensures
        vocab_list_statement(page, Some(t), None, Some(q))
            == "SELECT * FROM vocabulary "@ + "WHERE "@ + ("topic = "@ + quoted(t)) + " AND "@ + ("word CONTAINS "@ + quoted(q)) + " LIMIT "@ + decimal(20) + " START "@ + decimal((20 * page) as nat),
{
    lemma_join_parts("topic = "@ + quoted(t), "word CONTAINS "@ + quoted(q), "word CONTAINS "@ + quoted(q), " AND "@);
    assert(list_conditions(Some(t), None, Some(q)) =~= seq![("topic = "@ + quoted(t)), ("word CONTAINS "@ + quoted(q))]);
    assert(vocab_list_statement(page, Some(t), None, Some(q)) =~= "SELECT * FROM vocabulary "@ + "WHERE "@ + ("topic = "@ + quoted(t)) + " AND "@ + ("word CONTAINS "@ + quoted(q)) + " LIMIT "@ + decimal(20) + " START "@ + decimal((20 * page) as nat));
}

proof fn lemma_vocab_list_case_6(page: u32, t: Seq<char>, r: Seq<char>, q: Seq<char>)
    ensures
        vocab_list_statement(page, None, Some(r), Some(q))
            == "SELECT * FROM vocabulary "@ + "WHERE "@ + ("region = "@ + quoted(r)) + " AND "@ + ("word CONTAINS "@ + quoted(q)) + " LIMIT "@ + decimal(20) + " START "@ + decimal((20 * page) as nat),
{
    lemma_join_parts("region = "@ + quoted(r), "word CONTAINS "@ + quoted(q), "word CONTAINS "@ + quoted(q), " AND "@);
    assert(list_conditions(None, Some(r), Some(q)) =~= seq![("region = "@ + quoted(r)), ("word CONTAINS "@ + quoted(q))]);
    assert(vocab_list_statement(page, None, Some(r), Some(q)) =~= "SELECT * FROM vocabulary "@ + "WHERE "@ + ("region = "@ + quoted(r)) + " AND "@ + ("word CONTAINS "@ + quoted(q)) + " LIMIT "@ + decimal(20) + " START "@ + decimal((20 * page) as nat));
}

proof fn lemma_vocab_list_case_7(page: u32, t: Seq<char>, r: Seq<char>, q: Seq<char>)
    ensures
        vocab_list_statement(page, Some(t), Some(r), Some(q))
            == "SELECT * FROM vocabulary "@ + "WHERE "@ + ("topic = "@ + quoted(t)) + " AND "@ + ("region = "@ + quoted(r)) + " AND "@ + ("word CONTAINS "@ + quoted(q)) + " LIMIT "@ + decimal(20) + " START "@ + decimal((20 * page) as nat),
{
    lemma_join_parts("topic = "@ + quoted(t), "region = "@ + quoted(r), "word CONTAINS "@ + quoted(q), " AND "@);
    assert(list_conditions(Some(t), Some(r), Some(q)) =~= seq![("topic = "@ + quoted(t)), ("region = "@ + quoted(r)), ("word CONTAINS "@ + quoted(q))]);
    assert(vocab_list_statement(page, Some(t), Some(r), Some(q)) =~= "SELECT * FROM vocabulary "@ + "WHERE "@ + ("topic = "@ + quoted(t)) + " AND "@ + ("region = "@ + quoted(r)) + " AND "@ + ("word CONTAINS "@ + quoted(q)) + " LIMIT "@ + decimal(20) + " START "@ + decimal((20 * page) as nat));
}

/// One page of the vocabulary list, over all pages and filters: every
/// given filter adds its own condition, whatever the others are (topic,
/// then region, then word search, joined by `AND` after `WHERE`), no
/// condition stands for a filter that is not given, and the page holds 20
/// items from item `20 * page` on.
pub proof fn lemma_vocab_list_statement(page: u32, t: Seq<char>, r: Seq<char>, q: Seq<char>)
    ensures
        vocab_list_statement(page, None, None, None)
            == "SELECT * FROM vocabulary "@ + " LIMIT "@ + decimal(20) + " START "@ + decimal((20 * page) as nat),
        vocab_list_statement(page, Some(t), None, None)
            == "SELECT * FROM vocabulary "@ + "WHERE "@ + ("topic = "@ + quoted(t)) + " LIMIT "@ + decimal(20) + " START "@ + decimal((20 * page) as nat),
        vocab_list_statement(page, None, Some(r), None)
            == "SELECT * FROM vocabulary "@ + "WHERE "@ + ("region = "@ + quoted(r)) + " LIMIT "@ + decimal(20) + " START "@ + decimal((20 * page) as nat),
        vocab_list_statement(page, None, None, Some(q))
            == "SELECT * FROM vocabulary "@ + "WHERE "@ + ("word CONTAINS "@ + quoted(q)) + " LIMIT "@ + decimal(20) + " START "@ + decimal((20 * page) as nat),
        vocab_list_statement(page, Some(t), Some(r), None)
            == "SELECT * FROM vocabulary "@ + "WHERE "@ + ("topic = "@ + quoted(t)) + " AND "@ + ("region = "@ + quoted(r)) + " LIMIT "@ + decimal(20) + " START "@ + decimal((20 * page) as nat),
        vocab_list_statement(page, Some(t), None, Some(q))
            == "SELECT * FROM vocabulary "@ + "WHERE "@ + ("topic = "@ + quoted(t)) + " AND "@ + ("word CONTAINS "@ + quoted(q)) + " LIMIT "@ + decimal(20) + " START "@ + decimal((20 * page) as nat),
        vocab_list_statement(page, None, Some(r), Some(q))
            == "SELECT * FROM vocabulary "@ + "WHERE "@ + ("region = "@ + quoted(r)) + " AND "@ + ("word CONTAINS "@ + quoted(q)) + " LIMIT "@ + decimal(20) + " START "@ + decimal((20 * page) as nat),
        vocab_list_statement(page, Some(t), Some(r), Some(q))
            == "SELECT * FROM vocabulary "@ + "WHERE "@ + ("topic = "@ + quoted(t)) + " AND "@ + ("region = "@ + quoted(r)) + " AND "@ + ("word CONTAINS "@ + quoted(q)) + " LIMIT "@ + decimal(20) + " START "@ + decimal((20 * page) as nat),
{
    lemma_vocab_list_case_0(page, t, r, q);
    lemma_vocab_list_case_1(page, t, r, q);
    lemma_vocab_list_case_2(page, t, r, q);
    lemma_vocab_list_case_3(page, t, r, q);
    lemma_vocab_list_case_4(page, t, r, q);
    lemma_vocab_list_case_5(page, t, r, q);
    lemma_vocab_list_case_6(page, t, r, q);
    lemma_vocab_list_case_7(page, t, r, q);
}

/// The statements that store a card, over all cards, ease numerals and
/// vocabulary ids: the stored progress is updated (bookmarks left out) and
/// a first progress is created with the card's status as a literal, its
/// interval and next review time as numerals, and the ease numeral as given.
pub proof fn lemma_progress_statements(p: CardProgress, e: Seq<char>, v: Seq<char>)
    ensures
        progress_update_statement(p, e, v) == "UPDATE user_progress SET status = "@ + quoted(p.status@)
            + ", interval = "@ + decimal(p.interval as nat) + ", ease_factor = "@ + e
            + ", next_review_at = "@ + signed_decimal(p.next_review_at as int)
            + " WHERE vocab_id = "@ + quoted(v) + " AND status != 'Bookmarked'"@,
        progress_create_statement(p, e, v) == "CREATE user_progress SET vocab_id = "@ + quoted(v)
            + ", status = "@ + quoted(p.status@) + ", interval = "@ + decimal(p.interval as nat)
            + ", ease_factor = "@ + e + ", next_review_at = "@ + signed_decimal(p.next_review_at as int),
{
}

/// The bookmark statements, over all ids: a bookmark is created with
/// interval 0, ease factor 2.5 and due time 0, and deleted by its id.
pub proof fn lemma_bookmark_statements(id: Seq<char>)
    ensures
        bookmark_create_statement(id) == "CREATE user_progress SET vocab_id = "@ + quoted(id)
            + ", status = 'Bookmarked', interval = 0, ease_factor = 2.5, next_review_at = 0"@,
        bookmark_delete_statement(id) == "DELETE FROM user_progress WHERE vocab_id = "@ + quoted(id)
            + " AND status = 'Bookmarked'"@,
{
}

/// Pages start at multiples of 20, and a given filter value is kept as
/// its text.
pub proof fn lemma_page_offset_and_filters(page: u32, o: Option<String>)
    ensures
        page_offset(page) == 20 * page,
        o is None ==> opt_view(o) is None,
        o matches Some(s) ==> opt_view(o) == Some(s@),
{
}

} // verus!
