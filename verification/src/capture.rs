//! Raw lines that become notes of the section `snapshot`.

use vstd::prelude::*;
use vstd::string::*;

use crate::access;
use crate::error::{self, StatusCode};
use crate::event_log::{self, EventLogResponse, IngestGate, IngestNext, Ingested};
use crate::flow::{AclOp, Answers, Ask, Question};
use crate::ids::{self, NoteId};
use crate::text;
use crate::trust::TrustContext;
use crate::writing;

verus! {

/// The most lines in one batch.
pub const MAX_BATCH_SIZE: usize = 1000;

/// The most characters in a line.
pub const MAX_FIELD_LEN: usize = 1024;

/// The section of the captured lines.
pub const SNAPSHOT_SECTION: &'static str = "snapshot";

/// How a moment is written in a title. One outside the calendar is written as a number of
/// milliseconds.
pub open spec fn stamp(now_ms: i64) -> Seq<char> {
    match ids::utc_millis(now_ms) {
        Some(t) => t,
        None => text::signed_decimal(now_ms as int),
    }
}

/// The title of a captured note: the moment and the identifier.
pub open spec fn snapshot_title(id: Seq<char>, stamp: Seq<char>) -> Seq<char> {
    "snapshot "@ + stamp + " "@ + id
}

/// The title of a captured note, with the moment as it is to be written.
pub fn stamped_title(note_id: &NoteId, stamp: &str) -> (r: String)
    ensures
        r@ == snapshot_title(note_id@, stamp@),
{
    let mut title = text::cat("snapshot ", stamp);
    title.append(" ");
    title.append(note_id.text().as_str());
    title
}

/// The title of a captured note.
pub fn compose_snapshot_title(note_id: &NoteId, now_ms: i64) -> (r: String)
    ensures
        r@ == snapshot_title(note_id@, stamp(now_ms)),
{
    let stamp = match ids::utc_millis_text(now_ms) {
        Some(t) => t,
        None => text::signed_text(now_ms),
    };
    stamped_title(note_id, stamp.as_str())
}

/// The tenant that a refusal is noted under: that of the credential, or none.
pub open spec fn noted_tenant(trust: TrustContext) -> Seq<char> {
    match trust.tenant_view() {
        Some(t) => t,
        None => "__unknown__"@,
    }
}

/// The tenant that a refusal is noted under.
pub fn unknown_tenant(trust: &TrustContext) -> (r: String)
    ensures
        r@ == noted_tenant(*trust),
{
    match trust.tenant_id() {
        Some(t) => t.clone(),
        None => "__unknown__".to_owned(),
    }
}

/// Whether every line is short enough.
pub open spec fn lines_fit(lines: Seq<Seq<char>>) -> bool {
    forall|i: int| 0 <= i < lines.len() ==> (#[trigger] lines[i]).len() <= MAX_FIELD_LEN
}

fn lines_within(lines: &Vec<String>) -> (r: bool)
    ensures
        r == lines_fit(text::views(lines@)),
{
    let mut i: usize = 0;
    while i < lines.len()
        invariant
            i <= lines@.len(),
            forall|k: int|
                0 <= k < i ==> (#[trigger] text::views(lines@)[k]).len() <= MAX_FIELD_LEN,
        decreases lines@.len() - i,
    {
        if text::chars_of(lines[i].as_str()).len() > MAX_FIELD_LEN {
            assert(text::views(lines@)[i as int].len() > MAX_FIELD_LEN);
            return false;
        }
        i = i + 1;
    }
    true
}

/// A refusal for want of a right.
pub open spec fn refused(
    trust: TrustContext,
    status: StatusCode,
    tenant: Seq<char>,
    request_id: Seq<char>,
    reason: Seq<char>,
) -> IngestGate {
    IngestGate::Refuse(
        status,
        Some(event_log::failure_trace(trust, tenant, "snapshot"@, request_id, reason)),
    )
}

/// The first reason not to take in a batch of lines, before the first of them is queued.
pub open spec fn capture_checks(
    trust: TrustContext,
    lines: Seq<Seq<char>>,
    request_id: Seq<char>,
    a: Answers,
) -> IngestGate {
    let t = writing::vault_of(a);
    if !trust.authenticated() {
        refused(
            trust,
            StatusCode::Unauthorized,
            noted_tenant(trust),
            request_id,
            "unauthenticated"@,
        )
    } else if a.write_vault is None {
        IngestGate::Ask(
            Question::WriteVault { requested: None, deny: writing::TENANT_MISMATCH@ },
        )
    } else if a.write_vault->0 is Err {
        refused(trust, StatusCode::Forbidden, noted_tenant(trust), request_id, "tenant_deny"@)
    } else if a.acl is None {
        IngestGate::Ask(
            Question::Acl { op: AclOp::Write, locus: access::locus_text(t, Some("snapshot"@)) },
        )
    } else if a.acl == Some(false) {
        refused(trust, StatusCode::Forbidden, t, request_id, "acl_deny"@)
    } else if a.write_scope is None {
        IngestGate::Ask(Question::WriteScope { tenant: trust.tenant_view() })
    } else if a.write_scope == Some(false) {
        refused(trust, StatusCode::Forbidden, t, request_id, "scope_deny"@)
    } else if lines.len() > MAX_BATCH_SIZE {
        IngestGate::Refuse(StatusCode::PayloadTooLarge, None)
    } else if !lines_fit(lines) {
        IngestGate::Refuse(StatusCode::UnprocessableEntity, None)
    } else if trust.subject_view() is None {
        refused(trust, StatusCode::Unauthorized, t, request_id, "author_unresolved"@)
    } else {
        IngestGate::Pass
    }
}

/// What the sender of a batch of lines is told, once `taken` of them are queued. The next line
/// becomes the note `fresh`: the line itself, in the section `snapshot`, under a title that no
/// one chose.
pub open spec fn capture_gate(
    trust: TrustContext,
    lines: Seq<Seq<char>>,
    taken: int,
    fresh: NoteId,
    now_ms: i64,
    request_id: Seq<char>,
    a: Answers,
) -> IngestGate {
    let checks = capture_checks(trust, lines, request_id, a);
    if !(checks is Pass) {
        checks
    } else if taken >= lines.len() {
        IngestGate::Pass
    } else {
        match a.enqueued {
            None => IngestGate::Ask(
                Question::EnqueueWrite {
                    tenant: writing::vault_of(a),
                    note_id: fresh@,
                    author: trust.subject_view()->0,
                    title: snapshot_title(fresh@, stamp(now_ms)),
                    body: lines[taken],
                    tags: Seq::empty(),
                    section_hint: Some("snapshot"@),
                    occurred_at: None,
                    expected_sha256: None,
                },
            ),
            Some(Err(_)) => IngestGate::Refuse(StatusCode::InternalServerError, None),
            Some(Ok(_)) => IngestGate::Pass,
        }
    }
}

/// What came of a step of the intake.
#[derive(Debug)]
pub enum Captured {
    /// One more line is queued.
    Line,
    /// The whole batch is queued.
    Batch(Ingested),
}

fn check_capture(trust: &TrustContext, lines: &Vec<String>, request_id: &str, a: &Answers) -> (r:
    Result<(String, String), IngestNext<Captured>>)
    ensures
        ({
            let g = capture_checks(*trust, text::views(lines@), request_id@, *a);
            match r {
                Ok((t, author)) => g is Pass && t@ == writing::vault_of(*a)
                    && trust.subject_view() == Some(author@),
                Err(n) => event_log::follows(n, g) && !(n is Reply),
            }
        }),
{
    if !trust.is_authenticated() {
        return Err(
            IngestNext::Refuse(
                StatusCode::Unauthorized,
                Some(
                    event_log::audit_failure(
                        trust,
                        unknown_tenant(trust).as_str(),
                        SNAPSHOT_SECTION,
                        request_id,
                        "unauthenticated",
                    ),
                ),
            ),
        );
    }
    let tenant = match &a.write_vault {
        None => return Err(
            IngestNext::Ask(
                Ask::WriteVault { requested: None, deny: writing::TENANT_MISMATCH.to_owned() },
            ),
        ),
        Some(Err(_)) => return Err(
            IngestNext::Refuse(
                StatusCode::Forbidden,
                Some(
                    event_log::audit_failure(
                        trust,
                        unknown_tenant(trust).as_str(),
                        SNAPSHOT_SECTION,
                        request_id,
                        "tenant_deny",
                    ),
                ),
            ),
        ),
        Some(Ok(t)) => t,
    };
    match a.acl {
        None => return Err(
            IngestNext::Ask(
                Ask::Acl {
                    op: AclOp::Write,
                    locus: access::locus_for_section(tenant.as_str(), Some(SNAPSHOT_SECTION)),
                },
            ),
        ),
        Some(false) => return Err(
            IngestNext::Refuse(
                StatusCode::Forbidden,
                Some(
                    event_log::audit_failure(
                        trust,
                        tenant.as_str(),
                        SNAPSHOT_SECTION,
                        request_id,
                        "acl_deny",
                    ),
                ),
            ),
        ),
        Some(true) => {},
    }
    match a.write_scope {
        None => return Err(IngestNext::Ask(Ask::WriteScope { tenant: trust.tenant_text() })),
        Some(false) => return Err(
            IngestNext::Refuse(
                StatusCode::Forbidden,
                Some(
                    event_log::audit_failure(
                        trust,
                        tenant.as_str(),
                        SNAPSHOT_SECTION,
                        request_id,
                        "scope_deny",
                    ),
                ),
            ),
        ),
        Some(true) => {},
    }
    if lines.len() > MAX_BATCH_SIZE {
        return Err(IngestNext::Refuse(StatusCode::PayloadTooLarge, None));
    }
    if !lines_within(lines) {
        return Err(IngestNext::Refuse(StatusCode::UnprocessableEntity, None));
    }
    match writing::effective_author(&None, trust.subject()) {
        Ok(author) => Ok((tenant.clone(), author)),
        Err(e) => Err(
            IngestNext::Refuse(
                error::err_to_status(&e),
                Some(
                    event_log::audit_failure(
                        trust,
                        tenant.as_str(),
                        SNAPSHOT_SECTION,
                        request_id,
                        "author_unresolved",
                    ),
                ),
            ),
        ),
    }
}

/// Takes in a batch of lines, one after the other. `taken` lines are queued already; the answer
/// about the queue is that for the line after them.
pub fn post_capture(
    trust: &TrustContext,
    lines: &Vec<String>,
    taken: usize,
    fresh: &NoteId,
    now_ms: i64,
    request_id: &str,
    a: &Answers,
) -> (r: IngestNext<Captured>)
    ensures
        event_log::follows(
            r,
            capture_gate(
                *trust,
                text::views(lines@),
                taken as int,
                *fresh,
                now_ms,
                request_id@,
                *a,
            ),
        ),
        r matches IngestNext::Reply(x) ==> match x {
            Captured::Line => taken < lines@.len(),
            Captured::Batch(x) => taken >= lines@.len() && event_log::accepted(
                x,
                lines.len(),
                event_log::success_trace(
                    *trust,
                    "capture_ingest"@,
                    writing::vault_of(*a),
                    "snapshot"@,
                    request_id@,
                    lines.len(),
                ),
            ),
        },
{
    let (tenant, author) = match check_capture(trust, lines, request_id, a) {
        Ok(x) => x,
        Err(n) => return n,
    };
    if taken >= lines.len() {
        return IngestNext::Reply(
            Captured::Batch(
                Ingested {
                    response: EventLogResponse {
                        accepted_count: lines.len(),
                        status: "accepted".to_owned(),
                    },
                    audit: event_log::audit_success(
                        trust,
                        "capture_ingest",
                        tenant.as_str(),
                        SNAPSHOT_SECTION,
                        request_id,
                        lines.len(),
                    ),
                },
            ),
        );
    }
    match &a.enqueued {
        None => {
            let tags: Vec<String> = Vec::new();
            assert(text::views(tags@) =~= Seq::empty());
            IngestNext::Ask(
                Ask::EnqueueWrite {
                    tenant,
                    note_id: fresh.text(),
                    author,
                    title: compose_snapshot_title(fresh, now_ms),
                    body: lines[taken].clone(),
                    tags,
                    section_hint: Some(SNAPSHOT_SECTION.to_owned()),
                    occurred_at: None,
                    expected_sha256: None,
                },
            )
        },
        Some(Err(_)) => IngestNext::Refuse(StatusCode::InternalServerError, None),
        Some(Ok(_)) => IngestNext::Reply(Captured::Line),
    }
}

// ── Laws ────────────────────────────────────────────────────────────────────

/// The titles of two captured notes differ, whenever they are captured.
pub proof fn snapshot_titles_differ(x: NoteId, y: NoteId, s: Seq<char>, t: Seq<char>)
    requires
        x != y,
    ensures
        snapshot_title(x@, s) != snapshot_title(y@, t),
{
    ids::note_id_round_trip(x);
    ids::note_id_round_trip(y);
    let a = snapshot_title(x@, s);
    let b = snapshot_title(y@, t);
    if a == b {
        assert(a.skip(a.len() - 26) =~= x@);
        assert(b.skip(b.len() - 26) =~= y@);
    }
}

/// A line is queued only for a caller whose right to write to the section was established, and
/// as it was sent: capture judges nothing. Its author is the subject of the credential.
pub proof fn a_line_is_captured_as_it_is(
    trust: TrustContext,
    lines: Seq<Seq<char>>,
    taken: int,
    fresh: NoteId,
    now_ms: i64,
    request_id: Seq<char>,
    a: Answers,
)
    requires
        0 <= taken,
        capture_gate(trust, lines, taken, fresh, now_ms, request_id, a) matches IngestGate::Ask(q)
            && q is EnqueueWrite,
    ensures
        trust.authenticated(),
        a.acl == Some(true),
        a.write_scope == Some(true),
        lines.len() <= MAX_BATCH_SIZE,
        lines_fit(lines),
        taken < lines.len(),
        ({
            let q = capture_gate(trust, lines, taken, fresh, now_ms, request_id, a)->Ask_0;
            &&& q->EnqueueWrite_body == lines[taken]
            &&& q->EnqueueWrite_section_hint == Some("snapshot"@)
            &&& Some(q->EnqueueWrite_author) == trust.subject_view()
            &&& q->EnqueueWrite_tenant == writing::vault_of(a)
        }),
{
}

/// What a capture asks for, and what is queued of it: each line as it was sent, under a title that
/// tells when and as which note, in the section for captured notes.
pub proof fn a_line_is_queued_as_it_was_sent(
    trust: TrustContext,
    lines: Seq<Seq<char>>,
    taken: int,
    fresh: NoteId,
    now_ms: i64,
    request_id: Seq<char>,
    a: Answers,
)
    ensures
        capture_gate(trust, lines, taken, fresh, now_ms, request_id, a) matches IngestGate::Ask(q)
            ==> match q {
            Question::WriteVault { requested, .. } => requested is None,
            Question::Acl { op, locus } => op == AclOp::Write && (a.write_vault matches Some(Ok(v))
                && locus == v@ + "/"@ + "snapshot"@),
            Question::WriteScope { tenant } => tenant == trust.tenant_view(),
            Question::EnqueueWrite {
                tenant,
                note_id,
                author,
                title,
                body,
                tags,
                section_hint,
                occurred_at,
                expected_sha256,
            } => {
                &&& writing::own(trust, a, tenant)
                &&& note_id == fresh@
                &&& trust.subject_view() == Some(author)
                &&& title == "snapshot "@ + (match ids::utc_millis(now_ms) {
                    Some(t) => t,
                    None => text::signed_decimal(now_ms as int),
                }) + " "@ + fresh@
                &&& body == lines[taken]
                &&& tags.len() == 0
                &&& section_hint == Some("snapshot"@)
                &&& occurred_at is None
                &&& expected_sha256 is None
            },
            _ => false,
        },
{
    if a.acl is Some {
        assert(a.acl == Some(a.acl->0));
    }
}

/// A capture is refused for cause only, and for the cause that it has; only a missing right leaves
/// a trace.
pub proof fn a_capture_is_refused_for_cause(
    trust: TrustContext,
    lines: Seq<Seq<char>>,
    taken: int,
    fresh: NoteId,
    now_ms: i64,
    request_id: Seq<char>,
    a: Answers,
)
    ensures
        ({
            let g = capture_gate(trust, lines, taken, fresh, now_ms, request_id, a);
            let known = trust.authenticated() && (a.write_vault matches Some(Ok(_)));
            let entered = known && a.acl == Some(true) && a.write_scope == Some(true);
            let fit = forall|i: int|
                0 <= i < lines.len() ==> (#[trigger] lines[i]).len() <= 1024;
            &&& !trust.authenticated() ==> refuses(g, StatusCode::Unauthorized, true)
            &&& trust.authenticated() && (a.write_vault matches Some(Err(_))) ==> refuses(
                g,
                StatusCode::Forbidden,
                true,
            )
            &&& known && a.acl == Some(false) ==> refuses(g, StatusCode::Forbidden, true)
            &&& known && a.acl == Some(true) && a.write_scope == Some(false) ==> refuses(
                g,
                StatusCode::Forbidden,
                true,
            )
            &&& entered && lines.len() > 1000 ==> refuses(g, StatusCode::PayloadTooLarge, false)
            &&& entered && lines.len() <= 1000 && !fit ==> refuses(
                g,
                StatusCode::UnprocessableEntity,
                false,
            )
            &&& entered && lines.len() <= 1000 && fit && trust.subject_view() is None ==> refuses(
                g,
                StatusCode::Unauthorized,
                true,
            )
            &&& entered && lines.len() <= 1000 && fit && trust.subject_view() is Some && taken
                >= lines.len() ==> g is Pass
            &&& entered && lines.len() <= 1000 && fit && trust.subject_view() is Some && taken
                < lines.len() ==> match a.enqueued {
                None => g is Ask && g->Ask_0 is EnqueueWrite,
                Some(Err(_)) => refuses(g, StatusCode::InternalServerError, false),
                Some(Ok(_)) => g is Pass,
            }
        }),
{
    let fit = forall|i: int| 0 <= i < lines.len() ==> (#[trigger] lines[i]).len() <= 1024;
    assert(fit <==> lines_fit(lines));
}

/// Whether a batch is refused with a status, and whether that leaves a trace.
pub open spec fn refuses(g: IngestGate, status: StatusCode, traced: bool) -> bool {
    g matches IngestGate::Refuse(s, t) && s == status && (t is Some <==> traced)
}

/// A refused capture leaves the trace of where it was for, in the vault that is known or else under
/// the name of the tenant, and why it was refused.
pub proof fn a_refused_capture_is_traced(
    trust: TrustContext,
    lines: Seq<Seq<char>>,
    taken: int,
    fresh: NoteId,
    now_ms: i64,
    request_id: Seq<char>,
    a: Answers,
)
    ensures
        capture_gate(trust, lines, taken, fresh, now_ms, request_id, a) matches IngestGate::Refuse(
            _,
            Some(t),
        ) ==> {
            let vault = trust.authenticated() && (a.write_vault matches Some(Ok(_)));
            &&& t.request_id == request_id
            &&& t.outcome == "denied"@
            &&& t.locus == t.tenant_id + "/"@ + "snapshot"@
            &&& vault ==> t.tenant_id == a.write_vault->0->Ok_0@
            &&& !vault ==> (trust.tenant_view() matches Some(n) ==> t.tenant_id == n)
            &&& !vault && trust.tenant_view() is None ==> t.tenant_id == "__unknown__"@
            &&& !trust.authenticated() ==> t.reason == Some("unauthenticated"@)
            &&& trust.authenticated() && !vault ==> t.reason == Some("tenant_deny"@)
            &&& vault && a.acl == Some(false) ==> t.reason == Some("acl_deny"@)
            &&& vault && a.acl == Some(true) && a.write_scope == Some(false) ==> t.reason == Some(
                "scope_deny"@,
            )
        },
{
}

}
