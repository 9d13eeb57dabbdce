//! Verified core of a sign-language vocabulary trainer: the SM-2 review
//! scheduler, the statements sent to the vocabulary database, and the
//! decisions taken on what the database answers.
pub mod text;
pub mod anki;
pub mod progress;
pub mod query;
pub mod vocab;
