//! Building text: decimal numerals and joined lists.
use vstd::prelude::*;
use vstd::string::*;

verus! {

/// The character of a decimal digit.
pub open spec fn digit_char(d: nat) -> char {
    if d == 0 { '0' }
    else if d == 1 { '1' }
    else if d == 2 { '2' }
    else if d == 3 { '3' }
    else if d == 4 { '4' }
    else if d == 5 { '5' }
    else if d == 6 { '6' }
    else if d == 7 { '7' }
    else if d == 8 { '8' }
    else { '9' }
}

/// The decimal numeral of a natural number, without leading zeros.
pub open spec fn decimal(n: nat) -> Seq<char>
    decreases n,
{
    if n < 10 {
        seq![digit_char(n)]
    } else {
        decimal(n / 10).push(digit_char(n % 10))
    }
}

/// The decimal numeral of an integer, with a leading `-` when it is negative.
pub open spec fn signed_decimal(x: int) -> Seq<char> {
    if x < 0 {
        seq!['-'] + decimal((-x) as nat)
    } else {
        decimal(x as nat)
    }
}

fn digit_str(d: u128) -> (s: &'static str)
    requires
        d < 10,
    ensures
        s@ == seq![digit_char(d as nat)],
{
    proof {
        reveal_strlit("0");
        reveal_strlit("1");
        reveal_strlit("2");
        reveal_strlit("3");
        reveal_strlit("4");
        reveal_strlit("5");
        reveal_strlit("6");
        reveal_strlit("7");
        reveal_strlit("8");
        reveal_strlit("9");
    }
    if d == 0 { "0" }
    else if d == 1 { "1" }
    else if d == 2 { "2" }
    else if d == 3 { "3" }
    else if d == 4 { "4" }
    else if d == 5 { "5" }
    else if d == 6 { "6" }
    else if d == 7 { "7" }
    else if d == 8 { "8" }
    else { "9" }
}

/// Writes `n` in decimal, as `n.to_string()` does.
pub fn decimal_u128(n: u128) -> (s: String)
    ensures
        s@ == decimal(n as nat),
    decreases n,
{
    if n < 10 {
        String::from_str(digit_str(n))
    } else {
        let mut s = decimal_u128(n / 10);
        s.append(digit_str(n % 10));
        s
    }
}

/// Writes `n` in decimal, as `n.to_string()` does.
pub fn decimal_u64(n: u64) -> (s: String)
    ensures
        s@ == decimal(n as nat),
{
    decimal_u128(n as u128)
}

/// Writes `x` in decimal, with a leading `-` when it is negative, as
/// `x.to_string()` does.
pub fn decimal_i64(x: i64) -> (s: String)
    ensures
        s@ == signed_decimal(x as int),
{
    if x < 0 {
        let magnitude: u64 = ((-(x + 1)) as u64) + 1;
        let mut s = String::from_str("-");
        proof { reveal_strlit("-"); }
        let digits = decimal_u64(magnitude);
        s.append(digits.as_str());
        s
    } else {
        decimal_u64(x as u64)
    }
}


/// The parts joined into one text, with `sep` between each two neighbours.
pub open spec fn join(parts: Seq<Seq<char>>, sep: Seq<char>) -> Seq<char>
    decreases parts.len(),
{
    if parts.len() == 0 {
        Seq::empty()
    } else if parts.len() == 1 {
        parts[0]
    } else {
        join(parts.drop_last(), sep) + sep + parts.last()
    }
}

/// The views of a list of strings.
pub open spec fn views(parts: Seq<String>) -> Seq<Seq<char>> {
    parts.map_values(|p: String| p@)
}

/// Joins the parts with `sep` between each two neighbours, as
/// `parts.join(sep)` does.
pub fn join_with(parts: &Vec<String>, sep: &str) -> (s: String)
    ensures
        s@ == join(views(parts@), sep@),
{
    let mut s = String::new();
    let ghost all = views(parts@);
    let n = parts.len();
    let mut i: usize = 0;
    while i < n
        invariant
            n == parts.len(),
            i <= n,
            all == views(parts@),
            s@ == join(all.take(i as int), sep@),
        decreases n - i,
    {
        assert(all.take(i + 1).drop_last() =~= all.take(i as int));
        if i != 0 {
            s.append(sep);
        }
        s.append(parts[i].as_str());
        i = i + 1;
    }
    assert(all.take(n as int) =~= all);
    s
}


/// The characters a SurrealQL record key may hold without quoting: ASCII
/// letters, digits and `_`.
pub open spec fn is_plain_key_char(c: char) -> bool {
    ('a' <= c && c <= 'z') || ('A' <= c && c <= 'Z') || ('0' <= c && c <= '9') || c == '_'
}

/// A record key that SurrealQL reads as written: non-empty and made of
/// plain key characters only.
pub open spec fn is_plain_key(key: Seq<char>) -> bool {
    key.len() > 0 && forall|i: int| 0 <= i < key.len() ==> is_plain_key_char(#[trigger] key[i])
}

/// One character as it stands between `quote` characters: a backslash and
/// the quote character get a backslash in front, every other character
/// stands for itself.
pub open spec fn escaped_char(c: char, quote: char) -> Seq<char> {
    if c == '\\' {
        seq!['\\', '\\']
    } else if c == quote {
        seq!['\\', quote]
    } else {
        seq![c]
    }
}

/// A text as it stands between `quote` characters in SurrealQL, so that
/// the parser reads it back as exactly this text.
pub open spec fn escaped(s: Seq<char>, quote: char) -> Seq<char>
    decreases s.len(),
{
    if s.len() == 0 {
        Seq::empty()
    } else {
        escaped(s.drop_last(), quote) + escaped_char(s.last(), quote)
    }
}

/// A SurrealQL string literal in single quotes that holds exactly `s`.
pub open spec fn quoted(s: Seq<char>) -> Seq<char> {
    seq!['\''] + escaped(s, '\'') + seq!['\'']
}

/// A record key as it is written after `table:`: as it is when it is
/// plain, otherwise between backticks with backslashes and backticks
/// escaped, so that no character of the key is read as query text.
pub open spec fn record_key(key: Seq<char>) -> Seq<char> {
    if is_plain_key(key) {
        key
    } else {
        seq!['`'] + escaped(key, '`') + seq!['`']
    }
}

fn is_plain_key_char_exec(c: char) -> (b: bool)
    ensures
        b == is_plain_key_char(c),
{
    ('a' <= c && c <= 'z') || ('A' <= c && c <= 'Z') || ('0' <= c && c <= '9') || c == '_'
}

/// Whether SurrealQL reads the key as written after `table:`.
pub fn plain_key(key: &str) -> (b: bool)
    ensures
        b == is_plain_key(key@),
{
    let n = key.unicode_len();
    if n == 0 {
        return false;
    }
    let mut i: usize = 0;
    while i < n
        invariant
            n == key@.len(),
            i <= n,
            forall|j: int| 0 <= j < i ==> is_plain_key_char(#[trigger] key@[j]),
        decreases n - i,
    {
        let c = key.get_char(i);
        if !is_plain_key_char_exec(c) {
            return false;
        }
        i = i + 1;
    }
    true
}

/// Writes `s` as it stands between `quote` characters (a single quote or
/// a backtick), escaping backslashes and the quote character.
pub fn escape_text(s: &str, quote: char) -> (r: String)
    requires
        quote == '\'' || quote == '`',
    ensures
        r@ == escaped(s@, quote),
{
    let n = s.unicode_len();
    let mut r = String::new();
    let mut i: usize = 0;
    while i < n
        invariant
            n == s@.len(),
            i <= n,
            quote == '\'' || quote == '`',
            r@ == escaped(s@.take(i as int), quote),
        decreases n - i,
    {
        let c = s.get_char(i);
        let ghost before = r@;
        assert(s@.take(i + 1).drop_last() =~= s@.take(i as int));
        assert(s@.take(i + 1).last() == c);
        if c == '\\' {
            r.append("\\\\");
            proof { reveal_strlit("\\\\"); }
        } else if c == quote {
            if quote == '\'' {
                r.append("\\'");
                proof { reveal_strlit("\\'"); }
            } else {
                r.append("\\`");
                proof { reveal_strlit("\\`"); }
            }
        } else {
            let one = s.substring_char(i, i + 1);
            assert(one@ =~= seq![c]);
            r.append(one);
        }
        assert(r@ =~= before + escaped_char(c, quote));
        i = i + 1;
    }
    assert(s@.take(n as int) =~= s@);
    r
}

/// Writes `s` as a SurrealQL string literal in single quotes.
pub fn quote_text(s: &str) -> (r: String)
    ensures
        r@ == quoted(s@),
{
    let mut r = String::from_str("'");
    proof { reveal_strlit("'"); }
    let inner = escape_text(s, '\'');
    r.append(inner.as_str());
    r.append("'");
    r
}

/// Writes a record key as it goes after `table:`.
pub fn write_record_key(key: &str) -> (r: String)
    ensures
        r@ == record_key(key@),
{
    if plain_key(key) {
        String::from_str(key)
    } else {
        let mut r = String::from_str("`");
        proof { reveal_strlit("`"); }
        let inner = escape_text(key, '`');
        r.append(inner.as_str());
        r.append("`");
        r
    }
}


/// Whether a character is a decimal digit.
pub open spec fn is_digit(c: char) -> bool {
    '0' <= c && c <= '9'
}

/// The value of a decimal digit character.
pub open spec fn digit_value(c: char) -> int {
    (c as int) - ('0' as int)
}

/// Whether a text is made of decimal digits only.
pub open spec fn all_digits(s: Seq<char>) -> bool {
    forall|i: int| 0 <= i < s.len() ==> is_digit(#[trigger] s[i])
}

/// The number a text of decimal digits denotes, read from left to right.
pub open spec fn digits_value(s: Seq<char>) -> int
    decreases s.len(),
{
    if s.len() == 0 {
        0
    } else {
        digits_value(s.drop_last()) * 10 + digit_value(s.last())
    }
}

/// What the SurrealQL reader makes of the text between two `quote`
/// characters: a backslash followed by a backslash or the quote stands for
/// that character, any other character stands for itself; a bare quote (it
/// would end the literal early) or any other backslash sequence makes it
/// unreadable.
pub open spec fn read_literal(t: Seq<char>, quote: char) -> Option<Seq<char>>
    decreases t.len(),
{
    if t.len() == 0 {
        Some(Seq::empty())
    } else if t[0] == quote {
        None
    } else if t[0] == '\\' {
        if t.len() >= 2 && (t[1] == '\\' || t[1] == quote) {
            match read_literal(t.skip(2), quote) {
                Some(r) => Some(seq![t[1]] + r),
                None => None,
            }
        } else {
            None
        }
    } else {
        match read_literal(t.skip(1), quote) {
            Some(r) => Some(seq![t[0]] + r),
            None => None,
        }
    }
}

proof fn lemma_digit_char(d: nat)
    requires
        d < 10,
    ensures
        is_digit(digit_char(d)),
        digit_value(digit_char(d)) == d,
        digit_char(d) == '0' <==> d == 0,
{
}

/// A decimal numeral is made of digits, starts with `0` only when it is
/// `0` itself, and reads back as the number it was written for.
pub proof fn lemma_decimal_reads_back(n: nat)
    ensures
        decimal(n).len() >= 1,
        all_digits(decimal(n)),
        digits_value(decimal(n)) == n,
        decimal(n)[0] == '0' ==> n == 0,
    decreases n,
{
    if n < 10 {
        lemma_digit_char(n);
        assert(decimal(n).drop_last() =~= Seq::<char>::empty());
        assert(digits_value(Seq::<char>::empty()) == 0);
        assert(digits_value(decimal(n)) == digits_value(decimal(n).drop_last()) * 10 + digit_value(decimal(n).last()));
    } else {
        lemma_decimal_reads_back(n / 10);
        lemma_digit_char(n % 10);
        let s = decimal(n);
        assert(s.drop_last() =~= decimal(n / 10));
        assert(all_digits(s)) by {
            assert forall|i: int| 0 <= i < s.len() implies is_digit(#[trigger] s[i]) by {
                if i < s.len() - 1 {
                    assert(s[i] == decimal(n / 10)[i]);
                }
            }
        }
        assert(s[0] == decimal(n / 10)[0]);
        assert(n / 10 > 0);
        assert(s.last() == digit_char(n % 10));
        assert((n / 10) * 10 + n % 10 == n) by (nonlinear_arith);
    }
}

/// A signed decimal numeral is a `-` followed by the numeral of the
/// magnitude for a negative number, and the numeral of the number
/// otherwise.
pub proof fn lemma_signed_decimal_reads_back(x: int)
    ensures
        x < 0 ==> signed_decimal(x)[0] == '-' && all_digits(signed_decimal(x).skip(1))
            && digits_value(signed_decimal(x).skip(1)) == -x,
        x >= 0 ==> all_digits(signed_decimal(x)) && digits_value(signed_decimal(x)) == x,
{
    if x < 0 {
        lemma_decimal_reads_back((-x) as nat);
        assert(signed_decimal(x).skip(1) =~= decimal((-x) as nat));
    } else {
        lemma_decimal_reads_back(x as nat);
    }
}

proof fn lemma_escaped_prepend(c: char, s: Seq<char>, quote: char)
    ensures
        escaped(seq![c] + s, quote) == escaped_char(c, quote) + escaped(s, quote),
    decreases s.len(),
{
    if s.len() == 0 {
        assert(seq![c] + s =~= seq![c]);
        assert(seq![c].drop_last() =~= Seq::<char>::empty());
        assert(escaped(Seq::<char>::empty(), quote) =~= Seq::<char>::empty());
        assert(escaped(seq![c], quote) == escaped(seq![c].drop_last(), quote) + escaped_char(c, quote));
        assert(escaped(seq![c], quote) =~= escaped_char(c, quote));
        assert(escaped_char(c, quote) + escaped(s, quote) =~= escaped_char(c, quote));
    } else {
        lemma_escaped_prepend(c, s.drop_last(), quote);
        assert((seq![c] + s).drop_last() =~= seq![c] + s.drop_last());
        assert((seq![c] + s).last() == s.last());
        assert(escaped(seq![c] + s, quote) =~= escaped_char(c, quote) + escaped(s, quote));
    }
}

proof fn lemma_read_escaped_then(s: Seq<char>, rest: Seq<char>, quote: char)
    requires
        quote != '\\',
    ensures
        read_literal(escaped(s, quote) + rest, quote) == (match read_literal(rest, quote) {
            Some(r) => Some(s + r),
            None => None,
        }),
    decreases s.len(),
{
    if s.len() == 0 {
        assert(escaped(s, quote) + rest =~= rest);
        assert(s + rest =~= rest);
        match read_literal(rest, quote) {
            Some(r) => { assert(s + r =~= r); },
            None => {},
        }
    } else {
        let c = s[0];
        let tail = s.skip(1);
        assert(s =~= seq![c] + tail);
        lemma_escaped_prepend(c, tail, quote);
        lemma_read_escaped_then(tail, rest, quote);
        let t = escaped(s, quote) + rest;
        let e = escaped_char(c, quote);
        assert(t =~= e + (escaped(tail, quote) + rest));
        if c == '\\' || c == quote {
            assert(t.skip(2) =~= escaped(tail, quote) + rest);
        } else {
            assert(t.skip(1) =~= escaped(tail, quote) + rest);
        }
        match read_literal(rest, quote) {
            Some(r) => { assert(seq![c] + (tail + r) =~= s + r); },
            None => {},
        }
    }
}

/// An escaped text reads back, between its quote characters, as exactly
/// the text it was written for: no character of it ends the literal early.
pub proof fn lemma_escaped_reads_back(s: Seq<char>, quote: char)
    requires
        quote == '\'' || quote == '`',
    ensures
        read_literal(escaped(s, quote), quote) == Some(s),
{
    lemma_read_escaped_then(s, Seq::empty(), quote);
    assert(escaped(s, quote) + Seq::<char>::empty() =~= escaped(s, quote));
    assert(s + Seq::<char>::empty() =~= s);
}

/// A string literal is a single quote, a body that reads back as exactly
/// the text, and a closing single quote.
pub proof fn lemma_quoted_reads_back(s: Seq<char>)
    ensures
        quoted(s).len() >= 2,
        quoted(s)[0] == '\'',
        quoted(s).last() == '\'',
        read_literal(quoted(s).subrange(1, quoted(s).len() - 1), '\'') == Some(s),
{
    lemma_escaped_reads_back(s, '\'');
    assert(quoted(s).subrange(1, quoted(s).len() - 1) =~= escaped(s, '\''));
}

/// A record key is written as it is exactly when it is non-empty and made
/// of ASCII letters, digits and `_`; otherwise it stands between
/// backticks, with a body that reads back as exactly the key.
pub proof fn lemma_record_key_reads_back(key: Seq<char>)
    ensures
        is_plain_key(key) <==> (key.len() > 0 && forall|i: int| 0 <= i < key.len() ==> {
            let c = #[trigger] key[i];
            ('a' <= c && c <= 'z') || ('A' <= c && c <= 'Z') || ('0' <= c && c <= '9') || c == '_'
        }),
        (key.len() > 0 && forall|i: int| 0 <= i < key.len() ==> {
            let c = #[trigger] key[i];
            ('a' <= c && c <= 'z') || ('A' <= c && c <= 'Z') || ('0' <= c && c <= '9') || c == '_'
        }) ==> record_key(key) == key,
        !(key.len() > 0 && forall|i: int| 0 <= i < key.len() ==> {
            let c = #[trigger] key[i];
            ('a' <= c && c <= 'z') || ('A' <= c && c <= 'Z') || ('0' <= c && c <= '9') || c == '_'
        }) ==> record_key(key).len() >= 2 && record_key(key)[0] == '`'
            && record_key(key).last() == '`'
            && read_literal(record_key(key).subrange(1, record_key(key).len() - 1), '`') == Some(key),
{
    if !is_plain_key(key) {
        lemma_escaped_reads_back(key, '`');
        assert(record_key(key).subrange(1, record_key(key).len() - 1) =~= escaped(key, '`'));
    }
}

/// The views of a list of strings are the strings' views, one by one.
pub proof fn lemma_views(parts: Seq<String>)
    ensures
        views(parts).len() == parts.len(),
        forall|i: int| 0 <= i < parts.len() ==> #[trigger] views(parts)[i] == parts[i]@,
{
}

/// Joining one part gives the part; joining more puts the separator
/// between the joined front and the last part.
pub proof fn lemma_join_parts(a: Seq<char>, b: Seq<char>, c: Seq<char>, sep: Seq<char>)
    ensures
        join(Seq::empty(), sep) == Seq::<char>::empty(),
        join(seq![a], sep) == a,
        join(seq![a, b], sep) == a + sep + b,
        join(seq![a, b, c], sep) == a + sep + b + sep + c,
{
    assert(seq![a, b].drop_last() =~= seq![a]);
    assert(seq![a, b, c].drop_last() =~= seq![a, b]);
    assert(join(seq![a], sep) == a);
    assert(join(seq![a, b], sep) == join(seq![a], sep) + sep + b);
    assert(join(seq![a, b, c], sep) == join(seq![a, b], sep) + sep + c);
}

/// Joining appends one part at a time: the separator goes between the
/// parts joined so far and the next part, and never before the first.
pub proof fn lemma_join_push(parts: Seq<Seq<char>>, next: Seq<char>, sep: Seq<char>)
    ensures
        parts.len() == 0 ==> join(parts.push(next), sep) == next,
        parts.len() > 0 ==> join(parts.push(next), sep) == join(parts, sep) + sep + next,
{
    assert(parts.push(next).drop_last() =~= parts);
    if parts.len() == 0 {
        assert(parts.push(next) =~= seq![next]);
    }
}

} // verus!
