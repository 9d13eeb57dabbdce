# signmate

The verified core of a sign-language vocabulary trainer (a Tauri desktop
application backed by SurrealDB).

- `src/` — the library, verified with Verus:
  - `anki.rs`: the SM-2 review scheduler (interval, status and next review
    time after a review) and its laws;
  - `progress.rs`: a card's review progress and the deck statistics;
  - `vocab.rs`: vocabulary items, the answer to a detail request, and the
    bookmark toggle;
  - `query.rs`: the SurrealQL statements the application sends, with every
    value written as a literal or record key that the database reads back
    as exactly that value;
  - `text.rs`: decimal numerals, joined lists, SurrealQL string escaping
    and record keys.
- `app/` — the application around it: Tauri commands, the SurrealDB
  connection and repositories, the serde copies of the entities, and the
  floating-point ease factor.
- `tests/` — tests of the library on concrete values.
