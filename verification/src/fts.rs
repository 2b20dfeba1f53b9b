//! Search text: status filters, snippets, and the query language of the full-text index.

use vstd::prelude::*;
use vstd::string::*;

use crate::notes;
use crate::text;

verus! {

/// The statuses that a search may filter on: those of the note life cycle, and the value that
/// a downgrade writes.
pub const SEARCH_STATUS_ALLOWED: [&'static str; 7] = [
    "draft",
    "staging",
    "pending-review",
    "live",
    "deprecated",
    "garbage",
    "downgraded",
];

/// Whether a search may filter on the status `s`.
pub open spec fn search_status_allowed(s: Seq<char>) -> bool {
    ||| s == "draft"@
    ||| s == "staging"@
    ||| s == "pending-review"@
    ||| s == "live"@
    ||| s == "deprecated"@
    ||| s == "garbage"@
    ||| s == "downgraded"@
}

/// The status filter of a search: none is no filter; a known status, trimmed, filters; any
/// other is refused.
pub fn validate_search_status(status: Option<&str>) -> (r: Result<Option<String>, ()>)
    ensures
        match r {
            Ok(None) => status is None,
            Ok(Some(s)) => status is Some && s@ == text::trimmed(status->0@)
                && search_status_allowed(s@),
            Err(_) => status is Some && !search_status_allowed(text::trimmed(status->0@)),
        },
{
    match status {
        None => Ok(None),
        Some(raw) => {
            let s = text::trim(raw);
            let mut i: usize = 0;
            while i < 7
                invariant
                    i <= 7,
                    s@ == text::trimmed(raw@),
                    status == Some(raw),
                    forall|j: int| 0 <= j < i ==> s@ != SEARCH_STATUS_ALLOWED[j]@,
                decreases 7 - i,
            {
                if text::same(s.as_str(), SEARCH_STATUS_ALLOWED[i]) {
                    return Ok(Some(s));
                }
                i = i + 1;
            }
            Err(())
        },
    }
}

/// The first `max` characters of `body`, with an ellipsis when there are more.
pub open spec fn snippet(body: Seq<char>, max: nat) -> Seq<char> {
    if body.len() > max {
        body.take(max as int).push('…')
    } else {
        body
    }
}

/// The first `max_chars` characters of `body`, with an ellipsis when there are more.
pub fn build_snippet(body: &str, max_chars: usize) -> (r: String)
    ensures
        r@ == snippet(body@, max_chars as nat),
{
    let v = text::chars_of(body);
    if v.len() > max_chars {
        let mut s = text::text_of(&v, 0, max_chars);
        s.push('…');
        assert(s@ =~= snippet(body@, max_chars as nat));
        s
    } else {
        body.to_owned()
    }
}

// ── The query language of the full-text index ───────────────────────────────

/// A character that a bare search term may hold.
pub open spec fn bare_char(c: char) -> bool {
    text::alphanumeric(c) || c == '_'
}

/// Whether every character of `t` may stand in a bare search term.
pub open spec fn bare_text(t: Seq<char>) -> bool {
    forall|i: int| 0 <= i < t.len() ==> bare_char(#[trigger] t[i])
}

/// Whether `t` is a reserved word of the query language, in any case.
pub open spec fn reserved_word(t: Seq<char>) -> bool {
    let u = text::uppercase(t);
    u == "AND"@ || u == "OR"@ || u == "NOT"@ || u == "NEAR"@
}

/// `c`, twice when it is a quote or an apostrophe.
pub open spec fn doubled(c: char) -> Seq<char> {
    if c == '"' || c == '\'' {
        seq![c, c]
    } else {
        seq![c]
    }
}

/// `t` with each quote and each apostrophe doubled.
pub open spec fn escaped(t: Seq<char>) -> Seq<char>
    decreases t.len(),
{
    if t.len() == 0 {
        Seq::empty()
    } else {
        escaped(t.drop_last()) + doubled(t.last())
    }
}

/// A search term as the query language takes it: bare when that is safe, else as a phrase.
pub open spec fn fts_token(t: Seq<char>) -> Seq<char> {
    if !reserved_word(t) && bare_text(t) {
        t
    } else {
        seq!['"'] + escaped(t) + seq!['"']
    }
}

/// The words of `query`, each as a search term, separated by one space.
pub open spec fn fts_query(query: Seq<char>) -> Seq<char> {
    text::joined(text::words(query).map_values(|t: Seq<char>| fts_token(t)), " "@)
}

fn is_reserved(token: &str) -> (r: bool)
    ensures
        r == reserved_word(token@),
{
    let u = text::to_uppercase(token);
    text::same(u.as_str(), "AND") || text::same(u.as_str(), "OR") || text::same(u.as_str(), "NOT")
        || text::same(u.as_str(), "NEAR")
}

fn is_bare(token: &Vec<char>) -> (r: bool)
    ensures
        r == bare_text(token@),
{
    let mut i: usize = 0;
    while i < token.len()
        invariant
            i <= token@.len(),
            forall|j: int| 0 <= j < i ==> bare_char(#[trigger] token@[j]),
        decreases token@.len() - i,
    {
        if !(text::is_alphanumeric(token[i]) || token[i] == '_') {
            assert(!bare_char(token@[i as int]));
            return false;
        }
        i = i + 1;
    }
    true
}

/// A search term as the query language takes it: bare when that is safe, else as a phrase.
pub fn quote_fts_token(token: &str) -> (r: String)
    ensures
        r@ == fts_token(token@),
{
    let v = text::chars_of(token);
    if !is_reserved(token) && is_bare(&v) {
        token.to_owned()
    } else {
        let mut s = String::new();
        s.push('"');
        let mut i: usize = 0;
        assert(v@.take(0) =~= Seq::<char>::empty());
        assert(s@ =~= seq!['"'] + escaped(v@.take(0)));
        while i < v.len()
            invariant
                i <= v@.len(),
                s@ == seq!['"'] + escaped(v@.take(i as int)),
            decreases v@.len() - i,
        {
            let c = v[i];
            proof {
                assert(v@.take(i + 1).drop_last() =~= v@.take(i as int));
                assert(v@.take(i + 1).last() == c);
            }
            s.push(c);
            if c == '"' || c == '\'' {
                s.push(c);
            }
            assert(s@ =~= seq!['"'] + escaped(v@.take(i + 1)));
            i = i + 1;
        }
        assert(v@.take(v@.len() as int) =~= token@);
        s.push('"');
        assert(s@ =~= fts_token(token@));
        s
    }
}

/// The words of `query`, each as a search term, separated by one space.
pub fn build_fts_query(query: &str) -> (r: String)
    ensures
        r@ == fts_query(query@),
{
    let tokens = text::split_whitespace(query);
    let mut out: Vec<String> = Vec::new();
    let mut i: usize = 0;
    while i < tokens.len()
        invariant
            i <= tokens@.len(),
            out@.len() == i,
            forall|j: int| 0 <= j < i ==> (#[trigger] out@[j])@ == fts_token(tokens@[j]@),
        decreases tokens@.len() - i,
    {
        out.push(quote_fts_token(tokens[i].as_str()));
        i = i + 1;
    }
    assert(text::views(out@) =~= text::words(query@).map_values(|t: Seq<char>| fts_token(t)));
    text::join(&out, " ")
}

// ── Laws of the query language ──────────────────────────────────────────────

/// The number of quotes in `s`.
pub open spec fn quotes(s: Seq<char>) -> nat
    decreases s.len(),
{
    if s.len() == 0 {
        0
    } else {
        quotes(s.drop_last()) + if s.last() == '"' {
            1nat
        } else {
            0nat
        }
    }
}

/// Whether position `i` of `s` stands outside every phrase.
pub open spec fn outside_phrases(s: Seq<char>, i: int) -> bool {
    quotes(s.take(i)) % 2 == 0
}

/// Whether `s` is well formed for the index: its quotes pair up, and outside the phrases they
/// enclose stand only characters of bare terms and spaces.
pub open spec fn well_quoted(s: Seq<char>) -> bool {
    &&& quotes(s) % 2 == 0
    &&& forall|i: int|
        0 <= i < s.len() && #[trigger] outside_phrases(s, i) ==> s[i] == '"' || s[i] == ' '
            || bare_char(s[i])
}

proof fn lemma_quotes_concat(a: Seq<char>, b: Seq<char>)
    ensures
        quotes(a + b) == quotes(a) + quotes(b),
    decreases b.len(),
{
    if b.len() == 0 {
        assert(a + b =~= a);
    } else {
        assert((a + b).drop_last() =~= a + b.drop_last());
        assert((a + b).last() == b.last());
        lemma_quotes_concat(a, b.drop_last());
    }
}

proof fn lemma_well_quoted_concat(a: Seq<char>, b: Seq<char>)
    requires
        well_quoted(a),
        well_quoted(b),
    ensures
        well_quoted(a + b),
{
    lemma_quotes_concat(a, b);
    let s = a + b;
    assert forall|i: int| 0 <= i < s.len() && #[trigger] outside_phrases(s, i) implies s[i] == '"'
        || s[i] == ' ' || bare_char(s[i]) by {
        if i < a.len() {
            assert(s.take(i) =~= a.take(i));
            assert(outside_phrases(a, i));
        } else {
            assert(s.take(i) =~= a + b.take(i - a.len()));
            lemma_quotes_concat(a, b.take(i - a.len()));
            assert(outside_phrases(b, i - a.len()));
        }
    }
}

proof fn lemma_bare_char_quote(t: Seq<char>)
    requires
        bare_text(t),
        !t.contains('"'),
    ensures
        quotes(t) == 0,
    decreases t.len(),
{
    if t.len() > 0 {
        assert(bare_text(t.drop_last())) by {
            assert forall|i: int| 0 <= i < t.drop_last().len() implies bare_char(
                #[trigger] t.drop_last()[i],
            ) by {
                assert(t[i] == t.drop_last()[i]);
            }
        }
        assert(!t.drop_last().contains('"')) by {
            if t.drop_last().contains('"') {
                let i = choose|i: int| 0 <= i < t.drop_last().len() && t.drop_last()[i] == '"';
                assert(t[i] == '"');
            }
        }
        assert(t[t.len() - 1] == t.last());
        lemma_bare_char_quote(t.drop_last());
    }
}

/// Escaping leaves an even number of quotes before each character boundary of the term, and
/// pairs of quotes elsewhere.
proof fn lemma_escaped_even(t: Seq<char>)
    ensures
        quotes(escaped(t)) % 2 == 0,
        forall|i: int|
            0 <= i < escaped(t).len() && #[trigger] quotes(escaped(t).take(i)) % 2 == 1
                ==> escaped(t)[i] == '"',
    decreases t.len(),
{
    if t.len() > 0 {
        let p = escaped(t.drop_last());
        let d = doubled(t.last());
        lemma_escaped_even(t.drop_last());
        lemma_quotes_concat(p, d);
        assert(quotes(d) % 2 == 0) by {
            if t.last() == '"' {
                assert(d.drop_last() =~= seq!['"']);
                assert(d.drop_last().drop_last() =~= Seq::<char>::empty());
                reveal_with_fuel(quotes, 3);
            } else if t.last() == '\'' {
                assert(d.drop_last() =~= seq!['\'']);
                assert(d.drop_last().drop_last() =~= Seq::<char>::empty());
                reveal_with_fuel(quotes, 3);
            } else {
                assert(d.drop_last() =~= Seq::<char>::empty());
                reveal_with_fuel(quotes, 2);
            }
        }
        assert forall|i: int|
            0 <= i < escaped(t).len() && #[trigger] quotes(escaped(t).take(i)) % 2
                == 1 implies escaped(t)[i] == '"' by {
            if i < p.len() {
                assert(escaped(t).take(i) =~= p.take(i));
            } else {
                let k = i - p.len();
                assert(escaped(t).take(i) =~= p + d.take(k));
                lemma_quotes_concat(p, d.take(k));
                if k == 0 {
                    assert(d.take(k) =~= Seq::<char>::empty());
                } else {
                    assert(d.take(k) =~= seq![t.last()]);
                    assert(seq![t.last()].drop_last() =~= Seq::<char>::empty());
                    reveal_with_fuel(quotes, 2);
                }
            }
        }
    }
}

proof fn lemma_phrase_well_quoted(t: Seq<char>)
    ensures
        well_quoted(seq!['"'] + escaped(t) + seq!['"']),
{
    let q = seq!['"'];
    let e = escaped(t);
    let s = q + e + q;
    lemma_escaped_even(t);
    assert(quotes(q) == 1) by {
        assert(q.drop_last() =~= Seq::<char>::empty());
        reveal_with_fuel(quotes, 2);
    }
    lemma_quotes_concat(q, e);
    lemma_quotes_concat(q + e, q);
    assert forall|i: int| 0 <= i < s.len() && #[trigger] outside_phrases(s, i) implies s[i] == '"'
        || s[i] == ' ' || bare_char(s[i]) by {
        if 0 < i <= e.len() {
            assert(s.take(i) =~= q + e.take(i - 1));
            lemma_quotes_concat(q, e.take(i - 1));
            assert(quotes(e.take(i - 1)) % 2 == 1);
            assert(s[i] == e[i - 1]);
        }
    }
}

proof fn lemma_token_well_quoted(t: Seq<char>)
    ensures
        well_quoted(fts_token(t)),
{
    if !reserved_word(t) && bare_text(t) {
        assert(!t.contains('"')) by {
            if t.contains('"') {
                let i = choose|i: int| 0 <= i < t.len() && t[i] == '"';
                assert(bare_char(t[i]));
            }
        }
        lemma_bare_char_quote(t);
    } else {
        lemma_phrase_well_quoted(t);
    }
}

proof fn lemma_joined_well_quoted(parts: Seq<Seq<char>>)
    requires
        forall|i: int| 0 <= i < parts.len() ==> well_quoted(#[trigger] parts[i]),
    ensures
        well_quoted(text::joined(parts, " "@)),
    decreases parts.len(),
{
    reveal_strlit(" ");
    let sp = " "@;
    assert(well_quoted(sp)) by {
        assert(sp =~= seq![' ']);
        assert(sp.drop_last() =~= Seq::<char>::empty());
        reveal_with_fuel(quotes, 2);
    }
    if parts.len() > 1 {
        assert forall|i: int| 0 <= i < parts.drop_last().len() implies well_quoted(
            #[trigger] parts.drop_last()[i],
        ) by {
            assert(parts[i] == parts.drop_last()[i]);
        }
        lemma_joined_well_quoted(parts.drop_last());
        lemma_well_quoted_concat(text::joined(parts.drop_last(), sp), sp);
        assert(parts[parts.len() - 1] == parts.last());
        lemma_well_quoted_concat(text::joined(parts.drop_last(), sp) + sp, parts.last());
    } else if parts.len() == 0 {
        assert(quotes(Seq::<char>::empty()) == 0);
    }
}

/// Whatever is searched for, the query handed to the index is well formed: its quotes pair up,
/// and no operator character stands outside a phrase.
pub proof fn fts_query_well_quoted(query: Seq<char>)
    ensures
        well_quoted(fts_query(query)),
{
    let parts = text::words(query).map_values(|t: Seq<char>| fts_token(t));
    assert forall|i: int| 0 <= i < parts.len() implies well_quoted(#[trigger] parts[i]) by {
        lemma_token_well_quoted(text::words(query)[i]);
    }
    lemma_joined_well_quoted(parts);
}

/// Whether `s` is nothing but whitespace.
pub open spec fn blank(s: Seq<char>) -> bool {
    forall|i: int| 0 <= i < s.len() ==> text::whitespace(#[trigger] s[i])
}

proof fn lemma_trimmed_blank(s: Seq<char>)
    ensures
        blank(s) <==> text::trimmed(s).len() == 0,
    decreases s.len(),
{
    if s.len() > 0 && text::whitespace(s[0]) {
        let t = s.drop_first();
        lemma_trimmed_blank(t);
        if blank(t) {
            assert forall|i: int| 0 <= i < s.len() implies text::whitespace(#[trigger] s[i]) by {
                if i > 0 {
                    assert(t[i - 1] == s[i]);
                }
            }
        }
        if blank(s) {
            assert forall|i: int| 0 <= i < t.len() implies text::whitespace(#[trigger] t[i]) by {
                assert(s[i + 1] == t[i]);
            }
        }
    } else if s.len() > 0 && text::whitespace(s.last()) {
        let t = s.drop_last();
        lemma_trimmed_blank(t);
        assert(t.len() > 0);
        assert(t[0] == s[0]);
    }
}

proof fn lemma_words_blank(s: Seq<char>)
    ensures
        blank(s) <==> text::words(s).len() == 0,
        forall|i: int| 0 <= i < text::words(s).len() ==> (#[trigger] text::words(s)[i]).len() > 0,
    decreases s.len(),
{
    if s.len() == 0 {
    } else if text::whitespace(s[0]) {
        let t = s.drop_first();
        lemma_words_blank(t);
        if blank(t) {
            assert forall|i: int| 0 <= i < s.len() implies text::whitespace(#[trigger] s[i]) by {
                if i > 0 {
                    assert(t[i - 1] == s[i]);
                }
            }
        }
        if blank(s) {
            assert forall|i: int| 0 <= i < t.len() implies text::whitespace(#[trigger] t[i]) by {
                assert(s[i + 1] == t[i]);
            }
        }
    } else {
        text::lemma_word_len(s);
        let n = text::word_len(s) as int;
        lemma_words_blank(s.skip(n));
        assert(text::words(s).len() > 0);
        assert forall|i: int| 0 <= i < text::words(s).len() implies (#[trigger] text::words(
            s,
        )[i]).len() > 0 by {
            if i > 0 {
                assert(text::words(s)[i] == text::words(s.skip(n))[i - 1]);
            }
        }
    }
}

proof fn lemma_joined_nonempty(parts: Seq<Seq<char>>, sep: Seq<char>)
    requires
        parts.len() > 0,
        forall|i: int| 0 <= i < parts.len() ==> (#[trigger] parts[i]).len() > 0,
    ensures
        text::joined(parts, sep).len() > 0,
{
    assert(parts[parts.len() - 1].len() > 0);
}

/// The query handed to the index is empty exactly when the search text is blank: no word of it
/// is ever lost.
pub proof fn fts_query_empty_iff_blank(query: Seq<char>)
    ensures
        fts_query(query).len() == 0 <==> text::trimmed(query).len() == 0,
{
    lemma_trimmed_blank(query);
    lemma_words_blank(query);
    let ws = text::words(query);
    let parts = ws.map_values(|t: Seq<char>| fts_token(t));
    if ws.len() > 0 {
        assert forall|i: int| 0 <= i < parts.len() implies (#[trigger] parts[i]).len() > 0 by {
            assert(ws[i].len() > 0);
        }
        lemma_joined_nonempty(parts, " "@);
    }
}

/// A snippet is the beginning of a text: all of it when it fits, else as much as fits and a mark
/// that there is more.
pub proof fn a_snippet_is_the_beginning(body: Seq<char>, max: nat)
    ensures
        body.len() <= max ==> snippet(body, max) == body,
        body.len() > max ==> snippet(body, max).len() == max + 1 && snippet(body, max).take(
            max as int,
        ) == body.take(max as int) && snippet(body, max)[max as int] == '…',
{
    if body.len() > max {
        assert(snippet(body, max).take(max as int) =~= body.take(max as int));
    }
}

/// A word of letters, digits and underscores is a term as it is, unless it is an operator; anything
/// else is a phrase. What holds no quote stands in its phrase as it is.
pub proof fn a_term_is_the_word_that_was_typed(t: Seq<char>)
    ensures
        ({
            let plain = forall|i: int|
                0 <= i < t.len() ==> text::alphanumeric(#[trigger] t[i]) || t[i] == '_';
            let operator = text::uppercase(t) == "AND"@ || text::uppercase(t) == "OR"@
                || text::uppercase(t) == "NOT"@ || text::uppercase(t) == "NEAR"@;
            let quoted = exists|i: int|
                0 <= i < t.len() && ((#[trigger] t[i]) == '"' || t[i] == '\'');
            &&& plain && !operator ==> fts_token(t) == t
            &&& (!plain || operator) && !quoted ==> fts_token(t) == seq!['"'] + t + seq!['"']
            &&& !plain || operator ==> fts_token(t).len() >= t.len() + 2 && fts_token(t)[0] == '"'
                && fts_token(t)[fts_token(t).len() - 1] == '"'
        }),
{
    lemma_escaped_plain(t);
    let plain = forall|i: int|
        0 <= i < t.len() ==> text::alphanumeric(#[trigger] t[i]) || t[i] == '_';
    if plain {
        assert forall|i: int| 0 <= i < t.len() implies bare_char(#[trigger] t[i]) by {}
    }
    if bare_text(t) {
        assert forall|i: int| 0 <= i < t.len() implies text::alphanumeric(#[trigger] t[i]) || t[i]
            == '_' by {
            assert(bare_char(t[i]));
        }
    }
}

proof fn lemma_escaped_plain(t: Seq<char>)
    ensures
        escaped(t).len() >= t.len(),
        (forall|i: int| 0 <= i < t.len() ==> (#[trigger] t[i]) != '"' && t[i] != '\'') ==> escaped(t)
            == t,
    decreases t.len(),
{
    if t.len() > 0 {
        lemma_escaped_plain(t.drop_last());
        if forall|i: int| 0 <= i < t.len() ==> (#[trigger] t[i]) != '"' && t[i] != '\'' {
            assert forall|i: int| 0 <= i < t.drop_last().len() implies (#[trigger] t.drop_last()[i])
                != '"' && t.drop_last()[i] != '\'' by {
                assert(t[i] == t.drop_last()[i]);
            }
            assert(t[t.len() - 1] == t.last());
            assert(escaped(t) =~= t);
        }
    }
}

/// The states that a search can ask for are those of the life cycle, and that of a note out of
/// service.
pub proof fn a_search_asks_for_known_states(s: Seq<char>)
    ensures
        search_status_allowed(s) <==> notes::note_status(s) || s == "downgraded"@,
{
}

/// Each word of a search becomes a term, in the order of the words, with a space between two terms.
pub proof fn each_word_becomes_a_term(w: Seq<char>, c: char, rest: Seq<char>)
    requires
        w.len() > 0,
        forall|i: int| 0 <= i < w.len() ==> !text::whitespace(#[trigger] w[i]),
        text::whitespace(c),
    ensures
        fts_query(w) == fts_token(w),
        fts_query(w.push(c) + rest) == if blank(rest) {
            fts_token(w)
        } else {
            fts_token(w) + " "@ + fts_query(rest)
        },
{
    text::words_stand_between_whitespace(w, c, rest);
    lemma_words_blank(rest);
    let term = |t: Seq<char>| fts_token(t);
    let more = text::words(rest).map_values(term);
    assert(text::words(w).map_values(term) =~= seq![fts_token(w)]);
    assert(text::words(w.push(c) + rest).map_values(term) =~= seq![fts_token(w)] + more);
    if blank(rest) {
        assert(seq![fts_token(w)] + more =~= seq![fts_token(w)]);
    } else {
        lemma_joined_front(fts_token(w), more, " "@);
    }
}

proof fn lemma_joined_front(x: Seq<char>, parts: Seq<Seq<char>>, sep: Seq<char>)
    requires
        parts.len() > 0,
    ensures
        text::joined(seq![x] + parts, sep) == x + sep + text::joined(parts, sep),
    decreases parts.len(),
{
    let all = seq![x] + parts;
    assert(all.drop_last() =~= seq![x] + parts.drop_last());
    assert(all.last() == parts.last());
    if parts.len() > 1 {
        lemma_joined_front(x, parts.drop_last(), sep);
        assert(text::joined(all, sep) =~= x + sep + text::joined(parts, sep));
    } else {
        assert(all.drop_last() =~= seq![x]);
        assert(text::joined(seq![x], sep) == x);
        assert(text::joined(all, sep) =~= x + sep + text::joined(parts, sep));
    }
}

}
