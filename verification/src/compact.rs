//! Compact replies: the four read operations as short text.

use vstd::prelude::*;
use vstd::string::*;

use crate::dto::{
    LessonsRecallResponse, VaultReadResponse, VaultSearchResponse, VaultTimelineResponse,
};
use crate::rows;
use crate::text;

verus! {

/// How many characters of a snippet a compact lesson keeps.
pub const RECALL_SNIPPET_MAX_CHARS: usize = 120;

/// The identifier at the end of a `<section>/<identifier>` path.
pub fn ulid_of(path: &str) -> (r: String)
    ensures
        r@ == text::tail_segment(path@),
{
    text::last_segment(path)
}

/// Whether the words of a query could match any text at all: whether it holds a letter or a
/// digit.
pub open spec fn form_can_match(query: Seq<char>) -> bool {
    exists|i: int| 0 <= i < query.len() && text::alphanumeric(#[trigger] query[i])
}

/// Whether the words of a query could match any text at all.
pub fn query_form_can_match(query: &str) -> (r: bool)
    ensures
        r == form_can_match(query@),
{
    let v = text::chars_of(query);
    let mut i: usize = 0;
    while i < v.len()
        invariant
            v@ == query@,
            i <= v@.len(),
            forall|j: int| 0 <= j < i ==> !text::alphanumeric(#[trigger] query@[j]),
        decreases v@.len() - i,
    {
        if text::is_alphanumeric(v[i]) {
            assert(text::alphanumeric(query@[i as int]));
            return true;
        }
        i = i + 1;
    }
    false
}

/// What a compact search says about the number of notes that match the words of the query.
pub open spec fn hint_text(resp: VaultSearchResponse, query: Seq<char>) -> Seq<char> {
    match resp.corpus_match_count {
        None => Seq::empty(),
        Some(n) => if n == 0 && form_can_match(query) {
            " (corpus_match_count=0 -> 0 lexical match: lexical absence of the term in the filtered surface is proven; the semantic relevance of the returned results is NOT disproven)"@
        } else if n == 0 {
            " (corpus_match_count=0 -> count not applicable to this query form: every token normalises to empty (punctuation/operators only), so no document can match lexically whatever the corpus; the returned results are semantic-only and this zero says nothing about them)"@
        } else {
            " (corpus_match_count="@ + text::decimal(n as nat) + (if resp.corpus_count_capped {
                "+"@
            } else {
                ""@
            }) + " lexical matches)"@
        },
    }
}

/// What a compact search says about the number of notes that match the words of the query.
pub fn corpus_hint(resp: &VaultSearchResponse, query: &str) -> (r: String)
    ensures
        r@ == hint_text(*resp, query@),
{
    match resp.corpus_match_count {
        None => String::new(),
        Some(n) => if n == 0 {
            if query_form_can_match(query) {
                " (corpus_match_count=0 -> 0 lexical match: lexical absence of the term in the filtered surface is proven; the semantic relevance of the returned results is NOT disproven)".to_owned()
            } else {
                " (corpus_match_count=0 -> count not applicable to this query form: every token normalises to empty (punctuation/operators only), so no document can match lexically whatever the corpus; the returned results are semantic-only and this zero says nothing about them)".to_owned()
            }
        } else {
            let mut s = text::cat(" (corpus_match_count=", text::decimal_text(n).as_str());
            s.append(
                if resp.corpus_count_capped {
                    "+"
                } else {
                    ""
                },
            );
            s.append(" lexical matches)");
            s
        },
    }
}

/// One hit of a compact search: `<identifier> [<score>]`.
pub open spec fn hit_text(path: Seq<char>, score: Seq<char>) -> Seq<char> {
    text::tail_segment(path) + " ["@ + score + "]"@
}

/// The hits of a compact search, in order.
pub open spec fn hit_texts(resp: VaultSearchResponse) -> Seq<Seq<char>> {
    Seq::new(
        resp.items@.len(),
        |i: int| hit_text(resp.items@[i].path@, resp.items@[i].score@),
    )
}

/// The text of a compact search.
pub open spec fn search_text(resp: VaultSearchResponse, query: Seq<char>) -> Seq<char> {
    if resp.items@.len() == 0 {
        "0 relevant notes on this topic"@ + hint_text(resp, query)
    } else {
        text::decimal(resp.items@.len()) + " notes"@ + hint_text(resp, query) + ": "@
            + text::joined(hit_texts(resp), ", "@)
    }
}

/// The text of a compact search.
pub fn render_search(resp: &VaultSearchResponse, query: &str) -> (r: String)
    ensures
        r@ == search_text(*resp, query@),
{
    let hint = corpus_hint(resp, query);
    if resp.items.len() == 0 {
        return text::cat("0 relevant notes on this topic", hint.as_str());
    }
    let mut parts: Vec<String> = Vec::new();
    let mut i: usize = 0;
    while i < resp.items.len()
        invariant
            i <= resp.items@.len(),
            parts@.len() == i,
            forall|j: int|
                0 <= j < i ==> (#[trigger] parts@[j])@ == hit_text(
                    resp.items@[j].path@,
                    resp.items@[j].score@,
                ),
        decreases resp.items@.len() - i,
    {
        let mut one = text::cat(ulid_of(resp.items[i].path.as_str()).as_str(), " [");
        one.append(resp.items[i].score.as_str());
        one.append("]");
        parts.push(one);
        i = i + 1;
    }
    assert(text::views(parts@) =~= hit_texts(*resp));
    let mut out = text::cat(text::decimal_text(resp.items.len() as u64).as_str(), " notes");
    out.append(hint.as_str());
    out.append(": ");
    out.append(text::join(&parts, ", ").as_str());
    out
}

/// The text of a compact read.
pub open spec fn read_text(resp: VaultReadResponse) -> Seq<char> {
    let head = resp.path@;
    let with_section = match resp.metadata {
        Some(m) => head + " (section: "@ + m.section@ + ")"@,
        None => head,
    };
    let with_title = match resp.title {
        Some(t) => if t@.len() > 0 {
            with_section + "\ntitle: "@ + t@
        } else {
            with_section
        },
        None => with_section,
    };
    with_title + "\nsha256: "@ + resp.sha256@ + "\n---\n"@ + resp.content@
}

/// The text of a compact read.
pub fn render_read(resp: &VaultReadResponse) -> (r: String)
    ensures
        r@ == read_text(*resp),
{
    let mut out = resp.path.clone();
    match &resp.metadata {
        Some(m) => {
            out.append(" (section: ");
            out.append(m.section.as_str());
            out.append(")");
        },
        None => {},
    }
    match &resp.title {
        Some(t) => {
            if !t.as_str().is_empty() {
                out.append("\ntitle: ");
                out.append(t.as_str());
            }
        },
        None => {},
    }
    out.append("\nsha256: ");
    out.append(resp.sha256.as_str());
    out.append("\n---\n");
    out.append(resp.content.as_str());
    out
}

/// One entry of a compact timeline.
pub open spec fn entry_text(
    anchor_ms: i64,
    doc_kind: Seq<char>,
    note_id: Seq<char>,
    title: Option<Seq<char>>,
) -> Seq<char> {
    "\n  "@ + text::signed_decimal(anchor_ms as int) + " | "@ + doc_kind + " | "@ + note_id + " — "@
        + (match title {
        Some(t) => t,
        None => "(untitled)"@,
    })
}

/// The first `n` entries of a compact timeline.
pub open spec fn entry_texts(resp: VaultTimelineResponse, n: int) -> Seq<char>
    decreases n,
{
    if n <= 0 {
        Seq::empty()
    } else {
        let item = resp.items@[n - 1];
        entry_texts(resp, n - 1) + entry_text(
            item.anchor_ms,
            item.doc_kind@,
            item.note_id@,
            rows::opt_text(item.title),
        )
    }
}

/// The text of a compact timeline.
pub open spec fn timeline_text(resp: VaultTimelineResponse) -> Seq<char> {
    if resp.items@.len() == 0 {
        "0 entries"@
    } else {
        text::decimal(resp.items@.len()) + " entries:"@ + entry_texts(resp, resp.items@.len() as int)
    }
}

/// The text of a compact timeline.
pub fn render_timeline(resp: &VaultTimelineResponse) -> (r: String)
    ensures
        r@ == timeline_text(*resp),
{
    if resp.items.len() == 0 {
        return "0 entries".to_owned();
    }
    let mut out = text::cat(text::decimal_text(resp.items.len() as u64).as_str(), " entries:");
    let ghost head = out@;
    let mut i: usize = 0;
    assert(out@ =~= head + entry_texts(*resp, 0));
    while i < resp.items.len()
        invariant
            i <= resp.items@.len(),
            out@ == head + entry_texts(*resp, i as int),
        decreases resp.items@.len() - i,
    {
        let item = &resp.items[i];
        let mut one = text::cat("\n  ", text::signed_text(item.anchor_ms).as_str());
        one.append(" | ");
        one.append(item.doc_kind.as_str());
        one.append(" | ");
        one.append(item.note_id.as_str());
        one.append(" — ");
        match &item.title {
            Some(t) => one.append(t.as_str()),
            None => one.append("(untitled)"),
        }
        out.append(one.as_str());
        assert(out@ =~= head + entry_texts(*resp, i + 1));
        i = i + 1;
    }
    out
}

/// `s` on one line, cut to a number of characters.
pub open spec fn flat_snippet(s: Seq<char>) -> Seq<char> {
    text::prefix_chars(
        s.map_values(
            |c: char|
                if c == '\n' {
                    ' '
                } else {
                    c
                },
        ),
        RECALL_SNIPPET_MAX_CHARS as nat,
    )
}

fn flatten(s: &str) -> (r: String)
    ensures
        r@ == flat_snippet(s@),
{
    let v = text::chars_of(s);
    let ghost flat = s@.map_values(
        |c: char|
            if c == '\n' {
                ' '
            } else {
                c
            },
    );
    let mut out = String::new();
    let mut i: usize = 0;
    while i < v.len() && i < RECALL_SNIPPET_MAX_CHARS
        invariant
            v@ == s@,
            i <= v@.len(),
            i <= RECALL_SNIPPET_MAX_CHARS,
            flat.len() == s@.len(),
            forall|j: int|
                0 <= j < s@.len() ==> #[trigger] flat[j] == (if s@[j] == '\n' {
                    ' '
                } else {
                    s@[j]
                }),
            out@ == flat.take(i as int),
        decreases v@.len() - i,
    {
        let c = if v[i] == '\n' {
            ' '
        } else {
            v[i]
        };
        out.push(c);
        assert(out@ =~= flat.take(i + 1));
        i = i + 1;
    }
    assert(flat.take(flat.len() as int) =~= flat);
    out
}

/// One lesson of a compact recall.
pub open spec fn lesson_text(ulid: Seq<char>, title: Seq<char>, snippet: Seq<char>) -> Seq<char> {
    "\n  "@ + ulid + " — "@ + (if title.len() == 0 {
        "(untitled)"@
    } else {
        title
    }) + " :: "@ + flat_snippet(snippet)
}

/// The first `n` lessons of a compact recall.
pub open spec fn lesson_texts(resp: LessonsRecallResponse, n: int) -> Seq<char>
    decreases n,
{
    if n <= 0 {
        Seq::empty()
    } else {
        let hit = resp.items@[n - 1];
        lesson_texts(resp, n - 1) + lesson_text(hit.ulid@, hit.title@, hit.snippet@)
    }
}

/// The text of a compact recall.
pub open spec fn recall_text(resp: LessonsRecallResponse, class: Seq<char>) -> Seq<char> {
    if resp.items@.len() == 0 {
        "0 lessons [class="@ + class + "]"@
    } else {
        text::decimal(resp.items@.len()) + " lessons [class="@ + class + "]:"@ + lesson_texts(
            resp,
            resp.items@.len() as int,
        )
    }
}

/// The text of a compact recall of the lessons of `class`.
pub fn render_recall(resp: &LessonsRecallResponse, class: &str) -> (r: String)
    ensures
        r@ == recall_text(*resp, class@),
{
    if resp.items.len() == 0 {
        let mut s = text::cat("0 lessons [class=", class);
        s.append("]");
        return s;
    }
    let mut out = text::cat(
        text::decimal_text(resp.items.len() as u64).as_str(),
        " lessons [class=",
    );
    out.append(class);
    out.append("]:");
    let ghost head = out@;
    let mut i: usize = 0;
    assert(out@ =~= head + lesson_texts(*resp, 0));
    while i < resp.items.len()
        invariant
            i <= resp.items@.len(),
            out@ == head + lesson_texts(*resp, i as int),
        decreases resp.items@.len() - i,
    {
        let hit = &resp.items[i];
        let mut one = text::cat("\n  ", hit.ulid.as_str());
        one.append(" — ");
        if hit.title.as_str().is_empty() {
            one.append("(untitled)");
        } else {
            one.append(hit.title.as_str());
        }
        one.append(" :: ");
        one.append(flatten(hit.snippet.as_str()).as_str());
        out.append(one.as_str());
        assert(out@ =~= head + lesson_texts(*resp, i + 1));
        i = i + 1;
    }
    out
}

// ── Laws ────────────────────────────────────────────────────────────────────

/// A compact lesson never holds more of a snippet than its bound, and holds it on one line.
pub proof fn snippet_bounded_and_flat(s: Seq<char>)
    ensures
        flat_snippet(s).len() <= RECALL_SNIPPET_MAX_CHARS,
        forall|i: int| 0 <= i < flat_snippet(s).len() ==> #[trigger] flat_snippet(s)[i] != '\n',
{
}

/// A compact search tells how many notes were found, and each of them by its identifier and its
/// score, in the order of the search.
pub proof fn a_compact_search_names_every_hit(resp: VaultSearchResponse, query: Seq<char>, i: int)
    ensures
        hit_texts(resp).len() == resp.items@.len(),
        0 <= i < resp.items@.len() ==> hit_texts(resp)[i] == text::tail_segment(resp.items@[i].path@)
            + " ["@ + resp.items@[i].score@ + "]"@,
        resp.items@.len() == 1 ==> search_text(resp, query) == "1"@ + " notes"@ + hint_text(
            resp,
            query,
        ) + ": "@ + hit_texts(resp)[0],
        resp.items@.len() > 0 ==> text::decimal(resp.items@.len()).is_prefix_of(
            search_text(resp, query),
        ),
{
    reveal_strlit("1");
    if resp.items@.len() == 1 {
        assert(text::decimal(1) =~= "1"@);
    }
    if resp.items@.len() > 0 {
        let head = text::decimal(resp.items@.len());
        assert(search_text(resp, query).take(head.len() as int) =~= head);
    }
}

/// The hint tells the count of matches, and whether there may be more; without a count there is no
/// hint, and a count of none is told apart by whether the query could match at all.
pub proof fn the_hint_tells_the_count(resp: VaultSearchResponse, query: Seq<char>)
    ensures
        resp.corpus_match_count is None ==> hint_text(resp, query).len() == 0,
        resp.corpus_match_count matches Some(n) ==> (n > 0 && !resp.corpus_count_capped ==> hint_text(
            resp,
            query,
        ) == " (corpus_match_count="@ + text::decimal(n as nat) + ""@ + " lexical matches)"@),
        resp.corpus_match_count matches Some(n) ==> (n > 0 && resp.corpus_count_capped ==> hint_text(
            resp,
            query,
        ) == " (corpus_match_count="@ + text::decimal(n as nat) + "+"@ + " lexical matches)"@),
        form_can_match(query) <==> exists|i: int|
            0 <= i < query.len() && text::alphanumeric(#[trigger] query[i]),
{
}

/// A compact note ends with the text of the note, after its hash, and starts with its path.
pub proof fn a_compact_note_holds_its_text(resp: VaultReadResponse)
    ensures
        ({
            let t = read_text(resp);
            let tail = "\nsha256: "@ + resp.sha256@ + "\n---\n"@ + resp.content@;
            &&& resp.path@.is_prefix_of(t)
            &&& tail.is_suffix_of(t)
            &&& resp.metadata is None && resp.title is None ==> t == resp.path@ + tail
            &&& resp.metadata matches Some(m) ==> (resp.title is None ==> t == resp.path@
                + " (section: "@ + m.section@ + ")"@ + tail)
            &&& resp.metadata is None ==> (resp.title matches Some(n) ==> (n@.len() > 0 ==> t
                == resp.path@ + "\ntitle: "@ + n@ + tail))
        }),
{
    let t = read_text(resp);
    let tail = "\nsha256: "@ + resp.sha256@ + "\n---\n"@ + resp.content@;
    assert(t.take(resp.path@.len() as int) =~= resp.path@);
    assert(t.skip(t.len() - tail.len()) =~= tail);
    if resp.metadata is None && resp.title is None {
        assert(t =~= resp.path@ + tail);
    }
    if let Some(m) = resp.metadata {
        if resp.title is None {
            assert(t =~= resp.path@ + " (section: "@ + m.section@ + ")"@ + tail);
        }
    } else if let Some(n) = resp.title {
        if n@.len() > 0 {
            assert(t =~= resp.path@ + "\ntitle: "@ + n@ + tail);
        }
    }
}

/// A compact timeline holds a line for each entry, in their order: when, of what kind, which note
/// and its title.
pub proof fn a_compact_timeline_holds_every_entry(resp: VaultTimelineResponse, n: int)
    requires
        0 <= n < resp.items@.len(),
    ensures
        entry_texts(resp, 0).len() == 0,
        ({
            let e = resp.items@[n];
            entry_texts(resp, n + 1) == entry_texts(resp, n) + ("\n  "@ + text::signed_decimal(
                e.anchor_ms as int,
            ) + " | "@ + e.doc_kind@ + " | "@ + e.note_id@ + " — "@ + (match e.title {
                Some(t) => t@,
                None => "(untitled)"@,
            }))
        }),
        timeline_text(resp) == text::decimal(resp.items@.len()) + " entries:"@ + entry_texts(
            resp,
            resp.items@.len() as int,
        ),
{
}

/// A compact recall holds a line for each lesson, in their order: the note, its title and what it
/// says, on one line.
pub proof fn a_compact_recall_holds_every_lesson(
    resp: LessonsRecallResponse,
    class: Seq<char>,
    n: int,
)
    requires
        0 <= n < resp.items@.len(),
    ensures
        lesson_texts(resp, 0).len() == 0,
        ({
            let e = resp.items@[n];
            let title = if e.title@.len() == 0 {
                "(untitled)"@
            } else {
                e.title@
            };
            lesson_texts(resp, n + 1) == lesson_texts(resp, n) + ("\n  "@ + e.ulid@ + " — "@ + title
                + " :: "@ + flat_snippet(e.snippet@))
        }),
        recall_text(resp, class) == text::decimal(resp.items@.len()) + " lessons [class="@ + class
            + "]:"@ + lesson_texts(resp, resp.items@.len() as int),
{
}

/// A snippet on one line is the snippet with spaces for its line breaks, cut where the line ends.
pub proof fn a_flat_snippet_says_the_same(s: Seq<char>, i: int)
    ensures
        s.len() <= 120 ==> flat_snippet(s).len() == s.len(),
        s.len() > 120 ==> flat_snippet(s).len() == 120,
        0 <= i < flat_snippet(s).len() ==> flat_snippet(s)[i] == if s[i] == '\n' {
            ' '
        } else {
            s[i]
        },
{
}

}
