//! Reading one note.

use vstd::prelude::*;
use vstd::string::*;

use crate::access;
use crate::dto::{NoteMetadata, VaultReadRequest, VaultReadResponse};
use crate::error::{GradatumError, Refusal};
use crate::flow::{self, AclOp, Answers, Ask, Denial, Gate, Next, Question};
use crate::identity;
use crate::ids;
use crate::reference;
use crate::rows::{self, StatusRow, TitleSection};
use crate::text;
use crate::trust::TrustContext;
use crate::usage::NoteUse;

verus! {

/// A list of one text.
pub fn only(s: &str) -> (r: Vec<String>)
    ensures
        text::views(r@) == seq![s@],
        r@.len() == 1,
        r@[0]@ == s@,
{
    let mut v: Vec<String> = Vec::new();
    v.push(s.to_owned());
    assert(text::views(v@) =~= seq![s@]);
    v
}

/// The title of a note: what the index says unless that is blank or missing, else the heading
/// that opens the note.
pub open spec fn shown_title(
    titles: Result<Vec<TitleSection>, GradatumError>,
    id: Seq<char>,
    h1: Option<Seq<char>>,
) -> Option<Seq<char>> {
    let indexed = match titles {
        Ok(rows) => match rows::title_row(rows@, id) {
            Some(row) => rows::nonblank(rows::opt_text(row.title)),
            None => None,
        },
        Err(_) => None,
    };
    match indexed {
        Some(t) => Some(t),
        None => h1,
    }
}

/// The title of a note: what the index says, else the heading that opens the note.
pub fn title_shown(
    titles: &Result<Vec<TitleSection>, GradatumError>,
    id: &str,
    h1: &Option<String>,
) -> (r: Option<String>)
    ensures
        rows::opt_text(r) == shown_title(*titles, id@, rows::opt_text(*h1)),
{
    if let Ok(rows) = titles {
        if let Some(row) = rows::find_title(rows, id) {
            let t = rows::keep_nonblank(&row.title);
            if t.is_some() {
                return t;
            }
        }
    }
    rows::copy_opt(h1)
}

/// The status of a note: what the index says, else what its front matter says.
pub open spec fn authoritative_status(
    statuses: Result<Vec<StatusRow>, GradatumError>,
    id: Seq<char>,
    frontmatter: Seq<char>,
) -> Seq<char> {
    match statuses {
        Ok(rows) => match rows::status_of(rows@, id) {
            Some(s) => s,
            None => frontmatter,
        },
        Err(_) => frontmatter,
    }
}

/// The status of a note: what the index says, else what its front matter says.
pub fn status_shown(
    statuses: &Result<Vec<StatusRow>, GradatumError>,
    id: &str,
    frontmatter: &str,
) -> (r: String)
    ensures
        r@ == authoritative_status(*statuses, id@, frontmatter@),
{
    if let Ok(rows) = statuses {
        if let Some(s) = rows::find_status(rows, id) {
            return s.clone();
        }
    }
    frontmatter.to_owned()
}

/// A failure to read the note `id`: a note that is not there, under either of its names, is
/// not found; anything else is handed on.
pub open spec fn read_failure(e: Refusal, id: Seq<char>) -> Refusal {
    match e {
        Refusal::NoteNotFound(_) => Refusal::NoteNotFound(id),
        Refusal::Storage(m) => if text::has_infix(m, "invalid ULID"@) {
            Refusal::NoteNotFound(id)
        } else {
            e
        },
        _ => e,
    }
}

/// A failure to read the note `id`.
pub fn read_error(e: &GradatumError, id: &str) -> (r: GradatumError)
    ensures
        r@ == read_failure(e@, id@),
{
    match e {
        GradatumError::NoteNotFound(_) => GradatumError::NoteNotFound(id.to_owned()),
        GradatumError::Storage(m) => if text::contains(m.as_str(), "invalid ULID") {
            GradatumError::NoteNotFound(id.to_owned())
        } else {
            e.copy()
        },
        _ => e.copy(),
    }
}

/// The first reason not to hand out the note of a read, or the next question about it.
pub open spec fn read_gate(trust: TrustContext, req: VaultReadRequest, a: Answers) -> Gate {
    let section = rows::opt_text(req.section);
    let enter = access::access_gate(
        trust,
        rows::opt_text(req.tenant_id),
        a,
        AclOp::Read,
        section,
        "acl deny"@,
    );
    if !(enter is Pass) {
        enter
    } else {
        let t = access::tenant_of(a);
        let named = reference::reference_gate(t, req.path@, a);
        if !(named is Pass) {
            named
        } else {
            match reference::reference_target(req.path@, a) {
                None => Gate::Fail(flow::silent(Refusal::NoteNotFound(req.path@))),
                Some(id) => match a.note {
                    None => Gate::Ask(Question::ReadNote { tenant: t, id }),
                    Some(Err(e)) => Gate::Fail(flow::silent(read_failure(e@, id))),
                    Some(Ok(n)) => match a.titles {
                        None => Gate::Ask(Question::TitlesSections { vault: t, ids: seq![id] }),
                        Some(titles) => if !identity::may_touch(
                            trust,
                            n.section@,
                            shown_title(titles, id, rows::opt_text(n.h1_title)),
                        ) {
                            Gate::Fail(
                                identity::read_denied(t, access::locus_text(t, section), id),
                            )
                        } else {
                            match a.statuses {
                                None => Gate::Ask(
                                    Question::Statuses { vault: t, ids: seq![n.id@] },
                                ),
                                Some(_) => Gate::Pass,
                            }
                        },
                    },
                },
            }
        }
    }
}

/// Whether `r` is the note that was read: its text as it stands, its size and its hash, and
/// what its front matter says except that the index has the last word on title and status.
pub open spec fn read_reply(req: VaultReadRequest, a: Answers, r: VaultReadResponse) -> bool {
    let id = reference::reference_target(req.path@, a)->0;
    let n = a.note->0->Ok_0;
    &&& r.path@ == n.id@
    &&& rows::opt_text(r.title) == shown_title(a.titles->0, id, rows::opt_text(n.h1_title))
    &&& r.content@ == n.body@
    &&& r.size_bytes == text::byte_length(n.body@)
    &&& r.sha256@ == ids::hex(n.content_hash@)
    &&& r.metadata is Some
    &&& r.metadata->0.section@ == n.section@
    &&& r.metadata->0.status@ == authoritative_status(a.statuses->0, n.id@, n.status@)
    &&& r.metadata->0.author == n.author
    &&& r.metadata->0.tags@ == n.tags@
    &&& r.metadata->0.vault_id@ == n.vault_id@
    &&& r.metadata->0.created == n.created_ms
    &&& r.metadata->0.updated == n.updated_ms
}

/// Reads a note by identifier, by `<section>/<identifier>`, by title, or by slug.
pub fn vault_read_impl(trust: &TrustContext, req: &VaultReadRequest, a: &Answers) -> (r: Next<
    VaultReadResponse,
>)
    ensures
        flow::follows(r, read_gate(*trust, *req, *a)),
        r matches Next::Reply(note) ==> read_reply(*req, *a, note),
{
    let section = access::as_deref(&req.section);
    let tenant = match access::enter(trust, &req.tenant_id, a, AclOp::Read, section, "acl deny") {
        Ok(t) => t,
        Err(s) => return s.next(),
    };
    let id = match reference::resolve_note_ref_opt(tenant.as_str(), req.path.as_str(), a) {
        Ok(Some(id)) => id,
        Ok(None) => return Next::Fail(
            Denial::plain(GradatumError::NoteNotFound(req.path.clone())),
        ),
        Err(s) => return s.next(),
    };
    let n = match &a.note {
        None => return Next::Ask(Ask::ReadNote { tenant, id }),
        Some(Err(e)) => return Next::Fail(Denial::plain(read_error(e, id.as_str()))),
        Some(Ok(n)) => n,
    };
    let titles = match &a.titles {
        None => return Next::Ask(Ask::TitlesSections { vault: tenant, ids: only(id.as_str()) }),
        Some(t) => t,
    };
    let title = title_shown(titles, id.as_str(), &n.h1_title);
    let locus = access::locus_for_section(tenant.as_str(), section);
    if let Err(d) = identity::guard_read(
        trust,
        tenant.as_str(),
        locus.as_str(),
        n.section.as_str(),
        access::as_deref(&title),
        id.as_str(),
    ) {
        return Next::Fail(d);
    }
    let note_id = n.id.text();
    let statuses = match &a.statuses {
        None => return Next::Ask(Ask::Statuses { vault: tenant, ids: only(note_id.as_str()) }),
        Some(s) => s,
    };
    let status = status_shown(statuses, note_id.as_str(), n.status.as_str());
    Next::Reply(
        VaultReadResponse {
            path: note_id,
            title,
            content: n.body.clone(),
            metadata: Some(
                NoteMetadata {
                    section: n.section.clone(),
                    status,
                    author: rows::copy_opt(&n.author),
                    tags: rows::copy_list(&n.tags),
                    vault_id: n.vault_id.clone(),
                    created: n.created_ms,
                    updated: n.updated_ms,
                },
            ),
            size_bytes: text::byte_len(n.body.as_str()) as u64,
            sha256: ids::hex_text(&n.content_hash),
        },
    )
}

// ── What a read leaves behind ───────────────────────────────────────────────

/// Whether `u` is the use of the note that was served, in the vault that it lives in.
pub open spec fn read_counts(x: VaultReadResponse, u: Option<(String, NoteUse)>) -> bool {
    match x.metadata {
        Some(m) => u matches Some((vault, use_of)) && vault@ == m.vault_id@ && use_of.note_id@
            == x.path@ && use_of.kind@ == "read"@,
        None => u is None,
    }
}

/// The use that a read counts, and the vault that it is counted in.
pub fn note_use(x: &VaultReadResponse) -> (r: Option<(String, NoteUse)>)
    ensures
        read_counts(*x, r),
{
    match &x.metadata {
        Some(m) => Some(
            (m.vault_id.clone(), NoteUse { note_id: x.path.clone(), kind: "read".to_owned() }),
        ),
        None => None,
    }
}

// ── Laws ────────────────────────────────────────────────────────────────────

/// A soul is read by its owner, by the bearer of the scope and by the administration interface
/// only, whichever way the note was named.
pub proof fn read_keeps_souls_private(trust: TrustContext, req: VaultReadRequest, a: Answers)
    requires
        read_gate(trust, req, a) is Pass,
        a.note->0->Ok_0.section@ == "identity"@,
        !identity::identity_privileged(trust),
    ensures
        ({
            let owner = identity::soul_owner(
                shown_title(
                    a.titles->0,
                    reference::reference_target(req.path@, a)->0,
                    rows::opt_text(a.note->0->Ok_0.h1_title),
                ),
            );
            owner is Some && owner == trust.subject_view()
        }),
{
}

/// A read that is served counts one use: of the note itself, whatever it was named by, in the
/// vault where the note lives, whoever reads it.
pub proof fn a_read_counts_the_note(
    req: VaultReadRequest,
    a: Answers,
    x: VaultReadResponse,
    u: Option<(String, NoteUse)>,
)
    requires
        read_reply(req, a, x),
        read_counts(x, u),
    ensures
        u matches Some((vault, use_of)) && vault@ == a.note->0->Ok_0.vault_id@ && use_of.note_id@
            == a.note->0->Ok_0.id@ && use_of.kind@ == "read"@,
{
}

/// Nothing is asked of the vault before the right to read is established.
pub proof fn read_asks_nothing_before_the_right_is_established(
    trust: TrustContext,
    req: VaultReadRequest,
    a: Answers,
)
    ensures
        !trust.authenticated() ==> read_gate(trust, req, a) == Gate::Fail(
            flow::silent(Refusal::Unauthorized),
        ),
        a.acl != Some(true) ==> !(read_gate(trust, req, a) is Pass) && (read_gate(
            trust,
            req,
            a,
        ) matches Gate::Ask(q) ==> q is Tenant || q is Acl),
{
}

/// What a read asks for is the note that the request means, in the caller's own vault: its text,
/// its row in the index, its status.
pub proof fn a_read_asks_for_the_note_that_is_meant(
    trust: TrustContext,
    req: VaultReadRequest,
    a: Answers,
)
    ensures
        read_gate(trust, req, a) matches Gate::Ask(q) ==> match q {
            Question::Tenant { requested } => requested == rows::opt_text(req.tenant_id),
            Question::Acl { op, locus } => op == AclOp::Read && (a.tenant matches Some(Some(t))
                && locus == t@ + (match req.section {
                Some(s) => "/"@ + s@,
                None => "/main"@,
            })),
            Question::TitleLookup { tenant, title } => access::own(trust, a, tenant) && title
                == req.path@,
            Question::Redirect { tenant, title } => access::own(trust, a, tenant) && title
                == req.path@,
            Question::ReadNote { tenant, id } => access::own(trust, a, tenant)
                && reference::reference_target(req.path@, a) == Some(id),
            Question::TitlesSections { vault, ids } => access::own(trust, a, vault) && ids.len()
                == 1 && reference::reference_target(req.path@, a) == Some(ids[0]),
            Question::Statuses { vault, ids } => access::own(trust, a, vault) && ids.len() == 1
                && ids[0] == a.note->0->Ok_0.id@,
            _ => false,
        },
{
    if let Some(s) = req.section {
        let t = access::tenant_of(a);
        assert(t + "/"@ + s@ =~= t + ("/"@ + s@));
    }
}

/// A read is refused for cause only, and for the cause that it has; a note that is not there, under
/// whatever name it was asked for, is not found.
pub proof fn a_read_is_refused_for_cause(trust: TrustContext, req: VaultReadRequest, a: Answers)
    ensures
        ({
            let g = read_gate(trust, req, a);
            let entered = trust.authenticated() && (a.tenant matches Some(Some(_))) && a.acl == Some(
                true,
            );
            let target = reference::reference_target(req.path@, a);
            let meant = entered && reference::reference_gate(a.tenant->0->0@, req.path@, a) is Pass;
            let n = a.note->0->Ok_0;
            let title = shown_title(a.titles->0, target->0, rows::opt_text(n.h1_title));
            let open = identity::may_touch(trust, n.section@, title);
            &&& access::guards_reading(g, trust, a)
            &&& meant && target is None ==> flow::fails(g, Refusal::NoteNotFound(req.path@))
            &&& meant && target is Some && a.note is None ==> g is Ask && g->Ask_0 is ReadNote
            &&& meant && target is Some && (a.note matches Some(Err(e))) ==> flow::fails(
                g,
                match a.note->0->Err_0@ {
                    Refusal::NoteNotFound(_) => Refusal::NoteNotFound(target->0),
                    Refusal::Storage(m) => if text::has_infix(m, "invalid ULID"@) {
                        Refusal::NoteNotFound(target->0)
                    } else {
                        Refusal::Storage(m)
                    },
                    e => e,
                },
            )
            &&& meant && target is Some && (a.note matches Some(Ok(_))) && a.titles is Some && !open
                ==> flow::forbids(g) && g->Fail_0.audit is Some
            &&& meant && target is Some && (a.note matches Some(Ok(_))) && a.titles is Some && open
                ==> if a.statuses is Some {
                g is Pass
            } else {
                g is Ask && g->Ask_0 is Statuses
            }
        }),
{
}

/// A read shows the note as it was found: its text and what describes it. The title is the one in
/// the index unless that is blank, and then that of the text; the status is the one in the index
/// when there is one.
pub proof fn a_read_shows_the_note_as_it_was_found(
    req: VaultReadRequest,
    a: Answers,
    r: VaultReadResponse,
    i: int,
)
    requires
        read_reply(req, a, r),
    ensures
        ({
            let n = a.note->0->Ok_0;
            let m = r.metadata->0;
            &&& r.path@ == n.id@
            &&& r.content@ == n.body@
            &&& vstd::utf8::is_ascii_chars(n.body@) ==> r.size_bytes == n.body@.len()
            &&& r.metadata is Some
            &&& m.section@ == n.section@
            &&& m.author == n.author
            &&& m.tags@ == n.tags@
            &&& m.vault_id@ == n.vault_id@
            &&& m.created == n.created_ms
            &&& m.updated == n.updated_ms
        }),
        r.sha256@.len() == 2 * a.note->0->Ok_0.content_hash@.len(),
        0 <= i < a.note->0->Ok_0.content_hash@.len() ==> ids::digit_of(r.sha256@[2 * i]) * 16
            + ids::digit_of(r.sha256@[2 * i + 1]) == a.note->0->Ok_0.content_hash@[i],
        a.statuses->0 is Err ==> r.metadata->0.status@ == a.note->0->Ok_0.status@,
        a.statuses->0 matches Ok(found) ==> {
            let id = a.note->0->Ok_0.id@;
            &&& (0 <= i < found@.len() && found@[i].note_id@ == id && forall|k: int|
                0 <= k < i ==> (#[trigger] found@[k]).note_id@ != id) ==> r.metadata->0.status@
                == found@[i].status@
            &&& (forall|k: int| 0 <= k < found@.len() ==> (#[trigger] found@[k]).note_id@ != id)
                ==> r.metadata->0.status@ == a.note->0->Ok_0.status@
        },
        a.titles->0 is Err ==> rows::opt_text(r.title) == rows::opt_text(
            a.note->0->Ok_0.h1_title,
        ),
        a.titles->0 matches Ok(found) ==> {
            let id = reference::reference_target(req.path@, a)->0;
            let h1 = rows::opt_text(a.note->0->Ok_0.h1_title);
            &&& (0 <= i < found@.len() && found@[i].note_id@ == id && forall|k: int|
                0 <= k < i ==> (#[trigger] found@[k]).note_id@ != id) ==> rows::opt_text(r.title)
                == match found@[i].title {
                Some(t) => if text::trimmed(t@).len() > 0 {
                    Some(t@)
                } else {
                    h1
                },
                None => h1,
            }
            &&& (forall|k: int| 0 <= k < found@.len() ==> (#[trigger] found@[k]).note_id@ != id)
                ==> rows::opt_text(r.title) == h1
        },
{
    let n = a.note->0->Ok_0;
    if vstd::utf8::is_ascii_chars(n.body@) {
        text::ascii_bytes(n.body@);
    }
    ids::each_byte_is_two_digits(n.content_hash@, i);
    if let Ok(found) = a.statuses->0 {
        rows::the_first_status_counts(found@, n.id@, i);
    }
    if let Ok(found) = a.titles->0 {
        let id = reference::reference_target(req.path@, a)->0;
        if 0 <= i < found@.len() && found@[i].note_id@ == id && forall|k: int|
            0 <= k < i ==> (#[trigger] found@[k]).note_id@ != id {
            rows::the_first_row_counts(found@, id, i);
        }
        rows::a_row_is_about_its_note(found@, id);
    }
}

}
