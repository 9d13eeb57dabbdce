//! Vocabulary items, and the decisions taken on what the database answers
//! about them and their bookmarks.
use vstd::prelude::*;
use vstd::string::*;

use crate::query::{bookmark_create_query, bookmark_create_statement, bookmark_delete_query, bookmark_delete_statement};

verus! {

/// One sign of the dictionary.
pub struct Vocab {
    /// The record's id, as text; empty when the record had none.
    pub id: String,
    /// The word the sign stands for.
    pub word: String,
    /// The topic it belongs to.
    pub topic: String,
    /// The region where the sign is used.
    pub region: String,
    /// The path of the video that shows the sign.
    pub video_path: String,
    /// A description of the sign.
    pub description: String,
}

impl Vocab {
    /// A vocabulary item from the fields of its database record; a record
    /// without an id gets the empty id.
    pub fn from_record(
        id: Option<String>,
        word: String,
        topic: String,
        region: String,
        video_path: String,
        description: String,
    ) -> (v: Vocab)
        ensures
            v.id@ == (match id {
                Some(i) => i@,
                None => Seq::<char>::empty(),
            }),
            v.word == word,
            v.topic == topic,
            v.region == region,
            v.video_path == video_path,
            v.description == description,
    {
        let id = match id {
            Some(i) => i,
            None => String::new(),
        };
        Vocab { id, word, topic, region, video_path, description }
    }
}

/// The message for a vocabulary id that matches no record.
pub open spec fn not_found_message(id: Seq<char>) -> Seq<char> {
    "Vocabulary with id '"@ + id + "' not found"@
}

/// The answer to a request for one vocabulary item, given the records the
/// database returned for its id: the first one, or an error that names the
/// id when there is none.
pub fn vocab_detail_result(rows: Vec<Vocab>, id: &str) -> (r: Result<Vocab, String>)
    ensures
        r is Ok <==> rows@.len() > 0,
        r matches Ok(v) ==> v == rows@[0],
        r matches Err(e) ==> e@ == not_found_message(id@),
{
    let mut rows = rows;
    if rows.len() == 0 {
        let mut e = String::from_str("Vocabulary with id '");
        e.append(id);
        e.append("' not found");
        Err(e)
    } else {
        Ok(rows.swap_remove(0))
    }
}

/// Whether an item is bookmarked after a toggle, given whether it was before.
pub open spec fn bookmarked_after_toggle(was_bookmarked: bool) -> bool {
    !was_bookmarked
}

/// What a bookmark toggle does: the statement to run and whether the item
/// is bookmarked afterwards.
pub struct BookmarkToggle {
    /// The statement that adds or removes the bookmark.
    pub statement: String,
    /// Whether the item is bookmarked once the statement ran.
    pub bookmarked: bool,
}

/// Decides a bookmark toggle for a vocabulary item, given the number of
/// bookmark records the database holds for it: with none, one is created
/// and the answer is `true`; otherwise they are deleted and the answer is
/// `false`.
pub fn toggle_bookmark_step(existing_bookmarks: usize, id: &str) -> (t: BookmarkToggle)
    ensures
        t.bookmarked == bookmarked_after_toggle(existing_bookmarks > 0),
        t.bookmarked ==> t.statement@ == bookmark_create_statement(id@),
        !t.bookmarked ==> t.statement@ == bookmark_delete_statement(id@),
{
    if existing_bookmarks == 0 {
        BookmarkToggle { statement: bookmark_create_query(id), bookmarked: true }
    } else {
        BookmarkToggle { statement: bookmark_delete_query(id), bookmarked: false }
    }
}

/// A toggle bookmarks an item that was not bookmarked and removes the
/// bookmark of one that was; a missing item is reported by its id.
pub proof fn lemma_toggle_and_not_found(id: Seq<char>)
    ensures
        bookmarked_after_toggle(false) == true,
        bookmarked_after_toggle(true) == false,
        not_found_message(id) == "Vocabulary with id '"@ + id + "' not found"@,
{
}

/// Toggling a bookmark twice leaves the item as it was.
pub proof fn lemma_toggle_twice_restores(was_bookmarked: bool)
    ensures
        bookmarked_after_toggle(bookmarked_after_toggle(was_bookmarked)) == was_bookmarked,
{
}

} // verus!
