//! Naming a note: by identifier, by `<section>/<identifier>`, by title, or by slug.

use vstd::prelude::*;
use vstd::string::*;

use crate::error::{GradatumError, Refusal};
use crate::flow::{self, Answers, Ask, Denial, Gate, Question, Stop};
use crate::ids;
use crate::text;

verus! {

/// How many characters of a reference an error message repeats.
pub const MAX_REF_ECHO_CHARS: usize = 96;

/// A reference as an error message repeats it: between quotes, cut to a bound, and marked when
/// it was cut.
pub open spec fn echoed(reference: Seq<char>) -> Seq<char> {
    let head = text::debug_quoted(
        text::prefix_chars(reference, MAX_REF_ECHO_CHARS as nat),
    );
    if reference.len() > MAX_REF_ECHO_CHARS {
        head + "(truncated)"@
    } else {
        head
    }
}

/// A reference as an error message repeats it.
pub fn echo_ref(reference: &str) -> (r: String)
    ensures
        r@ == echoed(reference@),
{
    let head = text::head(reference, MAX_REF_ECHO_CHARS);
    let mut out = text::debug_text(head.as_str());
    if text::chars_of(reference).len() > MAX_REF_ECHO_CHARS {
        out.append("(truncated)");
    }
    out
}

/// What is still to be asked to resolve a reference: nothing when it ends in an identifier,
/// else the title, and failing that the slug.
pub open spec fn reference_gate(tenant: Seq<char>, reference: Seq<char>, a: Answers) -> Gate {
    if ids::is_ulid(text::tail_segment(reference)) {
        Gate::Pass
    } else {
        match a.title {
            None => Gate::Ask(Question::TitleLookup { tenant, title: reference }),
            Some(Err(e)) => Gate::Fail(flow::silent(e@)),
            Some(Ok(Some(_))) => Gate::Pass,
            Some(Ok(None)) => match a.redirect {
                None => Gate::Ask(Question::Redirect { tenant, title: reference }),
                Some(Err(e)) => Gate::Fail(flow::silent(e@)),
                Some(Ok(_)) => Gate::Pass,
            },
        }
    }
}

/// The note that a reference names, if it names one.
pub open spec fn reference_target(reference: Seq<char>, a: Answers) -> Option<Seq<char>> {
    if ids::is_ulid(text::tail_segment(reference)) {
        Some(text::tail_segment(reference))
    } else {
        match a.title->0->Ok_0 {
            Some(id) => Some(id@),
            None => match a.redirect->0->Ok_0 {
                Some(id) => Some(id@),
                None => None,
            },
        }
    }
}

/// The note that a reference names, if it names one.
pub fn resolve_note_ref_opt(tenant: &str, reference: &str, a: &Answers) -> (r: Result<
    Option<String>,
    Stop,
>)
    ensures
        match r {
            Ok(Some(id)) => reference_gate(tenant@, reference@, *a) is Pass && reference_target(
                reference@,
                *a,
            ) == Some(id@),
            Ok(None) => reference_gate(tenant@, reference@, *a) is Pass && reference_target(
                reference@,
                *a,
            ) is None,
            Err(s) => reference_gate(tenant@, reference@, *a) == s@,
        },
{
    let candidate = text::last_segment(reference);
    if ids::ulid_valid(candidate.as_str()) {
        return Ok(Some(candidate));
    }
    match &a.title {
        None => Err(
            Stop::Ask(
                Ask::TitleLookup { tenant: tenant.to_owned(), title: reference.to_owned() },
            ),
        ),
        Some(Err(e)) => Err(Stop::failed(e)),
        Some(Ok(Some(id))) => Ok(Some(id.clone())),
        Some(Ok(None)) => match &a.redirect {
            None => Err(
                Stop::Ask(
                    Ask::Redirect { tenant: tenant.to_owned(), title: reference.to_owned() },
                ),
            ),
            Some(Err(e)) => Err(Stop::failed(e)),
            Some(Ok(Some(id))) => Ok(Some(id.clone())),
            Some(Ok(None)) => Ok(None),
        },
    }
}

/// The note that a reference names; a reference that names none stands for its last segment,
/// around which there is nothing.
pub open spec fn tolerant_target(reference: Seq<char>, a: Answers) -> Seq<char> {
    match reference_target(reference, a) {
        Some(id) => id,
        None => text::tail_segment(reference),
    }
}

/// The note that a reference names, or its last segment.
pub fn resolve_note_ref(tenant: &str, reference: &str, a: &Answers) -> (r: Result<String, Stop>)
    ensures
        match r {
            Ok(id) => reference_gate(tenant@, reference@, *a) is Pass && id@ == tolerant_target(
                reference@,
                *a,
            ),
            Err(s) => reference_gate(tenant@, reference@, *a) == s@,
        },
{
    match resolve_note_ref_opt(tenant, reference, a) {
        Ok(Some(id)) => Ok(id),
        Ok(None) => Ok(text::last_segment(reference)),
        Err(s) => Err(s),
    }
}

/// The message about a reference that names no note.
pub open spec fn unresolvable(reference: Seq<char>) -> Seq<char> {
    "unresolvable note reference "@ + echoed(reference)
        + " — expected a bare ULID, a prefixed \"section/ULID\", an exact note title, or a redirect slug"@
}

/// What is still to be asked to resolve a reference that has to name a note.
pub open spec fn strict_gate(tenant: Seq<char>, reference: Seq<char>, a: Answers) -> Gate {
    let g = reference_gate(tenant, reference, a);
    if g is Pass && reference_target(reference, a) is None {
        Gate::Fail(flow::silent(Refusal::InvalidInput(unresolvable(reference))))
    } else {
        g
    }
}

/// The note that a reference names; a reference that names none is refused.
pub fn resolve_note_ref_strict(tenant: &str, reference: &str, a: &Answers) -> (r: Result<
    String,
    Stop,
>)
    ensures
        match r {
            Ok(id) => strict_gate(tenant@, reference@, *a) is Pass && reference_target(
                reference@,
                *a,
            ) == Some(id@),
            Err(s) => strict_gate(tenant@, reference@, *a) == s@,
        },
{
    match resolve_note_ref_opt(tenant, reference, a) {
        Ok(Some(id)) => Ok(id),
        Ok(None) => {
            let mut m = text::cat("unresolvable note reference ", echo_ref(reference).as_str());
            m.append(
                " — expected a bare ULID, a prefixed \"section/ULID\", an exact note title, or a redirect slug",
            );
            Err(Stop::Fail(Denial::plain(GradatumError::InvalidInput(m))))
        },
        Err(s) => Err(s),
    }
}

/// The message about an identifier that has to be a bare one.
pub open spec fn bare_id_expected(field: Seq<char>, value: Seq<char>, form: Seq<char>) -> Seq<
    char,
> {
    "invalid "@ + field + " "@ + echoed(value) + " — "@ + form
        + " (this endpoint does not resolve \"section/ULID\", titles or slugs)"@
}

/// The message about an identifier that has to be a bare one.
pub fn bare_id_message(field: &str, value: &str, form: &str) -> (r: String)
    ensures
        r@ == bare_id_expected(field@, value@, form@),
{
    let mut m = text::cat("invalid ", field);
    m.append(" ");
    m.append(echo_ref(value).as_str());
    m.append(" — ");
    m.append(form);
    m.append(" (this endpoint does not resolve \"section/ULID\", titles or slugs)");
    m
}

// ── Laws ────────────────────────────────────────────────────────────────────

proof fn lemma_tail_without_slash(s: Seq<char>)
    requires
        !s.contains('/'),
    ensures
        text::tail_segment(s) == s,
    decreases s.len(),
{
    if s.len() > 0 {
        assert(s[s.len() - 1] == s.last());
        assert(s.last() != '/');
        assert(!s.drop_last().contains('/')) by {
            if s.drop_last().contains('/') {
                let i = choose|i: int| 0 <= i < s.drop_last().len() && s.drop_last()[i] == '/';
                assert(s[i] == '/');
            }
        }
        lemma_tail_without_slash(s.drop_last());
        assert(s =~= s.drop_last().push(s.last()));
    } else {
        assert(s =~= Seq::empty());
    }
}

proof fn lemma_tail_of_concat(p: Seq<char>, s: Seq<char>)
    requires
        !s.contains('/'),
        p.len() > 0,
        p.last() == '/',
    ensures
        text::tail_segment(p + s) == s,
    decreases s.len(),
{
    if s.len() > 0 {
        assert((p + s).last() == s.last());
        assert(s[s.len() - 1] == s.last());
        assert(!s.drop_last().contains('/')) by {
            if s.drop_last().contains('/') {
                let i = choose|i: int| 0 <= i < s.drop_last().len() && s.drop_last()[i] == '/';
                assert(s[i] == '/');
            }
        }
        assert((p + s).drop_last() =~= p + s.drop_last());
        lemma_tail_of_concat(p, s.drop_last());
        assert(s =~= s.drop_last().push(s.last()));
    } else {
        assert(p + s =~= p);
        assert(s =~= Seq::empty());
    }
}

/// A note found by a search can be named by the path that the search shows: `<section>/<id>`
/// and `<id>` name the same note, without a question.
pub proof fn prefixed_reference_is_the_bare_one(
    tenant: Seq<char>,
    section: Seq<char>,
    id: Seq<char>,
    a: Answers,
)
    requires
        ids::is_ulid(id),
    ensures
        reference_gate(tenant, section + "/"@ + id, a) is Pass,
        reference_target(section + "/"@ + id, a) == Some(id),
        reference_target(id, a) == Some(id),
{
    reveal_strlit("/");
    assert(!id.contains('/')) by {
        if id.contains('/') {
            let i = choose|i: int| 0 <= i < id.len() && id[i] == '/';
            assert(ids::crockford(id[i]) is Some);
        }
    }
    assert((section + "/"@).last() == '/');
    lemma_tail_of_concat(section + "/"@, id);
    lemma_tail_without_slash(id);
}

/// A reference is resolved in this order: an identifier at its end, a title, a redirection. What
/// is looked up is the reference as it was given, in the caller's own vault, and only when it ends
/// in no identifier.
pub proof fn a_reference_is_resolved_in_order(tenant: Seq<char>, reference: Seq<char>, a: Answers)
    ensures
        ({
            let g = reference_gate(tenant, reference, a);
            let target = reference_target(reference, a);
            let tail = text::tail_segment(reference);
            &&& ids::is_ulid(tail) ==> g is Pass && target == Some(tail)
            &&& !ids::is_ulid(tail) ==> match a.title {
                None => g == Gate::Ask(Question::TitleLookup { tenant, title: reference }),
                Some(Err(e)) => flow::fails(g, e@),
                Some(Ok(Some(id))) => g is Pass && target == Some(id@),
                Some(Ok(None)) => match a.redirect {
                    None => g == Gate::Ask(Question::Redirect { tenant, title: reference }),
                    Some(Err(e)) => flow::fails(g, e@),
                    Some(Ok(Some(id))) => g is Pass && target == Some(id@),
                    Some(Ok(None)) => g is Pass && target is None,
                },
            }
            &&& target matches Some(id) ==> tolerant_target(reference, a) == id
            &&& target is None ==> tolerant_target(reference, a) == tail
        }),
{
}

/// Where a note has to be meant, a reference that leads to none is a fault of the request; every
/// other one goes on.
pub proof fn a_strict_reference_leads_to_a_note(tenant: Seq<char>, reference: Seq<char>, a: Answers)
    ensures
        ({
            let g = strict_gate(tenant, reference, a);
            &&& g is Pass ==> reference_target(reference, a) is Some
            &&& g is Pass <==> reference_gate(tenant, reference, a) is Pass && reference_target(
                reference,
                a,
            ) is Some
            &&& reference_gate(tenant, reference, a) is Pass && reference_target(reference, a)
                is None ==> flow::finds_fault(g) && g->Fail_0.audit is None
            &&& g is Ask ==> g == reference_gate(tenant, reference, a)
        }),
{
}

/// An error repeats a reference whole unless it is long, and marks one that it cuts.
pub proof fn a_long_reference_is_cut(reference: Seq<char>)
    ensures
        reference.len() <= 96 ==> echoed(reference) == text::debug_quoted(reference),
        reference.len() > 96 ==> echoed(reference) == text::debug_quoted(reference.take(96))
            + "(truncated)"@,
{
}

}
