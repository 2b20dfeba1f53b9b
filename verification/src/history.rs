//! The versions of a note, and where a note would be filed.

use vstd::prelude::*;
use vstd::string::*;

use crate::access;
use crate::error::{GradatumError, Refusal};
use crate::flow::{self, AclOp, Answers, Ask, Denial, Gate, Next, Question, Stop};
use crate::identity;
use crate::ids;
use crate::read;
use crate::reference;
use crate::rows::{self, CurateOutcome};
use crate::text;
use crate::trust::TrustContext;
use crate::writing;

verus! {

/// A list of versions.
#[derive(Debug)]
pub struct VaultHistoryRequest {
    pub note_id: String,
    pub tenant_id: Option<String>,
}

/// The moments of the versions of a note.
#[derive(Debug)]
pub struct VaultHistoryResponse {
    pub versions: Vec<i64>,
    pub count: usize,
}

/// One version.
#[derive(Debug)]
pub struct VaultHistoryGetRequest {
    pub note_id: String,
    pub ts_ms: i64,
    pub tenant_id: Option<String>,
}

/// One version of a note.
#[derive(Debug)]
pub struct VaultHistoryGetResponse {
    pub note_id: String,
    pub ts_ms: i64,
    pub body: String,
    pub section: String,
}

/// A version to bring back.
#[derive(Debug)]
pub struct VaultRestoreRequest {
    pub note_id: String,
    pub ts_ms: i64,
    pub tenant_id: Option<String>,
}

/// A version that was brought back.
#[derive(Debug)]
pub struct VaultRestoreResponse {
    pub note_id: String,
    pub ts_ms: i64,
    pub content_hash: String,
}

/// Two versions to compare.
#[derive(Debug)]
pub struct VaultDiffRequest {
    pub note_id: String,
    /// `current`, or the moment of a version.
    pub a: String,
    pub b: String,
    pub tenant_id: Option<String>,
}

/// The lines in which two versions differ.
#[derive(Debug)]
pub struct VaultDiffResponse {
    pub lines: Vec<String>,
    pub count: usize,
}

// ── The right to a note ─────────────────────────────────────────────────────

/// The right to read in a vault, and the note that a reference names. A reference that names
/// none is refused.
pub open spec fn named_gate(
    trust: TrustContext,
    requested: Option<Seq<char>>,
    reference: Seq<char>,
    a: Answers,
) -> Gate {
    flow::chain(
        access::access_gate(trust, requested, a, AclOp::Read, None, "acl deny"@),
        reference::strict_gate(access::tenant_of(a), reference, a),
    )
}

/// The note that a reference names.
pub open spec fn named(reference: Seq<char>, a: Answers) -> Seq<char> {
    reference::reference_target(reference, a)->0
}

/// A soul is not for everyone: the index tells whether the note is one.
pub open spec fn guard_gate(
    trust: TrustContext,
    tenant: Seq<char>,
    id: Seq<char>,
    write: bool,
    a: Answers,
) -> Gate {
    match a.titles {
        None => Gate::Ask(Question::TitlesSections { vault: tenant, ids: seq![id] }),
        Some(titles) => {
            let (title, section) = identity::resolved_section(titles, id);
            if identity::may_touch(trust, section, title) {
                Gate::Pass
            } else if write {
                Gate::Fail(
                    identity::write_denied(tenant, access::locus_text(tenant, None), id),
                )
            } else {
                Gate::Fail(identity::read_denied(tenant, access::locus_text(tenant, None), id))
            }
        },
    }
}

/// Passes the guard of souls.
pub fn pass_guard(trust: &TrustContext, tenant: &str, id: &str, write: bool, a: &Answers) -> (r:
    Result<(), Stop>)
    ensures
        match r {
            Ok(_) => guard_gate(*trust, tenant@, id@, write, *a) is Pass,
            Err(s) => guard_gate(*trust, tenant@, id@, write, *a) == s@,
        },
{
    let titles = match &a.titles {
        None => return Err(
            Stop::Ask(Ask::TitlesSections { vault: tenant.to_owned(), ids: read::only(id) }),
        ),
        Some(t) => t,
    };
    let (title, section) = identity::resolve_title_section_failclosed(titles, id);
    let verdict = if write {
        identity::enforce_identity_write_guard(
            trust,
            tenant,
            section.as_str(),
            access::as_deref(&title),
            id,
        )
    } else {
        identity::enforce_identity_read_guard(
            trust,
            tenant,
            section.as_str(),
            access::as_deref(&title),
            id,
        )
    };
    match verdict {
        Ok(_) => Ok(()),
        Err(d) => Err(Stop::Fail(d)),
    }
}

fn enter_named(
    trust: &TrustContext,
    requested: &Option<String>,
    reference: &str,
    a: &Answers,
) -> (r: Result<(String, String), Stop>)
    ensures
        ({
            let g = named_gate(*trust, rows::opt_text(*requested), reference@, *a);
            match r {
                Ok((t, id)) => g is Pass && t@ == access::tenant_of(*a) && id@ == named(
                    reference@,
                    *a,
                ),
                Err(s) => g == s@,
            }
        }),
{
    let tenant = match access::enter(trust, requested, a, AclOp::Read, None, "acl deny") {
        Ok(t) => t,
        Err(s) => return Err(s),
    };
    match reference::resolve_note_ref_strict(tenant.as_str(), reference, a) {
        Ok(id) => Ok((tenant, id)),
        Err(s) => Err(s),
    }
}

// ── Versions ────────────────────────────────────────────────────────────────

/// The first reason not to list versions, or the next question about them.
pub open spec fn history_gate(trust: TrustContext, req: VaultHistoryRequest, a: Answers) -> Gate {
    let t = access::tenant_of(a);
    let id = named(req.note_id@, a);
    flow::chain(
        named_gate(trust, rows::opt_text(req.tenant_id), req.note_id@, a),
        flow::chain(
            guard_gate(trust, t, id, false, a),
            match a.versions {
                None => Gate::Ask(Question::Versions { tenant: t, id }),
                Some(Err(e)) => Gate::Fail(flow::silent(e@)),
                Some(Ok(_)) => Gate::Pass,
            },
        ),
    )
}

/// What is told of the versions of a note.
pub open spec fn history_reply(a: Answers, x: VaultHistoryResponse) -> bool {
    x.versions@ == a.versions->0->Ok_0@ && x.count == x.versions@.len()
}

/// Lists the moments of the versions of a note.
pub fn vault_history_impl(trust: &TrustContext, req: &VaultHistoryRequest, a: &Answers) -> (r: Next<
    VaultHistoryResponse,
>)
    ensures
        flow::follows(r, history_gate(*trust, *req, *a)),
        r matches Next::Reply(x) ==> history_reply(*a, x),
{
    let (tenant, id) = match enter_named(trust, &req.tenant_id, req.note_id.as_str(), a) {
        Ok(x) => x,
        Err(s) => return s.next(),
    };
    if let Err(s) = pass_guard(trust, tenant.as_str(), id.as_str(), false, a) {
        return s.next();
    }
    let found = match &a.versions {
        None => return Next::Ask(Ask::Versions { tenant, id }),
        Some(Err(e)) => return Next::Fail(Denial::plain(e.copy())),
        Some(Ok(found)) => found,
    };
    let mut versions: Vec<i64> = Vec::new();
    let mut i: usize = 0;
    while i < found.len()
        invariant
            i <= found@.len(),
            versions@ == found@.take(i as int),
        decreases found@.len() - i,
    {
        versions.push(found[i]);
        assert(versions@ =~= found@.take(i + 1));
        i = i + 1;
    }
    assert(found@.take(found@.len() as int) =~= found@);
    let count: usize = versions.len();
    Next::Reply(VaultHistoryResponse { versions, count })
}

/// The first reason not to show a version, or the next question about it. Whether the version is
/// a soul is told by the version itself.
pub open spec fn version_gate(
    trust: TrustContext,
    req: VaultHistoryGetRequest,
    a: Answers,
) -> Gate {
    let t = access::tenant_of(a);
    let id = named(req.note_id@, a);
    flow::chain(
        named_gate(trust, rows::opt_text(req.tenant_id), req.note_id@, a),
        match a.snapshot {
            None => Gate::Ask(Question::Snapshot { tenant: t, id, ts_ms: req.ts_ms }),
            Some(Err(e)) => Gate::Fail(flow::silent(e@)),
            Some(Ok(v)) => if identity::may_touch(trust, v.section@, rows::opt_text(v.h1_title)) {
                Gate::Pass
            } else {
                Gate::Fail(identity::read_denied(t, access::locus_text(t, None), id))
            },
        },
    )
}

/// What is shown of a version.
pub open spec fn version_reply(
    req: VaultHistoryGetRequest,
    a: Answers,
    x: VaultHistoryGetResponse,
) -> bool {
    &&& x.note_id@ == named(req.note_id@, a)
    &&& x.ts_ms == req.ts_ms
    &&& x.body@ == a.snapshot->0->Ok_0.body@
    &&& x.section@ == a.snapshot->0->Ok_0.section@
}

/// Shows one version of a note.
pub fn vault_history_get_impl(
    trust: &TrustContext,
    req: &VaultHistoryGetRequest,
    a: &Answers,
) -> (r: Next<VaultHistoryGetResponse>)
    ensures
        flow::follows(r, version_gate(*trust, *req, *a)),
        r matches Next::Reply(x) ==> version_reply(*req, *a, x),
{
    let (tenant, id) = match enter_named(trust, &req.tenant_id, req.note_id.as_str(), a) {
        Ok(x) => x,
        Err(s) => return s.next(),
    };
    let v = match &a.snapshot {
        None => return Next::Ask(Ask::Snapshot { tenant, id, ts_ms: req.ts_ms }),
        Some(Err(e)) => return Next::Fail(Denial::plain(e.copy())),
        Some(Ok(v)) => v,
    };
    if let Err(d) = identity::enforce_identity_read_guard(
        trust,
        tenant.as_str(),
        v.section.as_str(),
        access::as_deref(&v.h1_title),
        id.as_str(),
    ) {
        return Next::Fail(d);
    }
    Next::Reply(
        VaultHistoryGetResponse {
            note_id: id,
            ts_ms: req.ts_ms,
            body: v.body.clone(),
            section: v.section.clone(),
        },
    )
}

/// The first reason not to bring a version back, or the step that does.
pub open spec fn restore_gate(trust: TrustContext, req: VaultRestoreRequest, a: Answers) -> Gate {
    let t = writing::vault_of(a);
    let id = named(req.note_id@, a);
    flow::chain(
        writing::change_gate(
            trust,
            rows::opt_text(req.tenant_id),
            a,
            writing::TENANT_MISMATCH@,
            "acl deny write"@,
        ),
        flow::chain(
            reference::strict_gate(t, req.note_id@, a),
            flow::chain(
                guard_gate(trust, t, id, true, a),
                match a.restored {
                    None => Gate::Ask(Question::Restore { vault: t, id, ts_ms: req.ts_ms }),
                    Some(Err(e)) => Gate::Fail(flow::silent(e@)),
                    Some(Ok(_)) => Gate::Pass,
                },
            ),
        ),
    )
}

/// What is told of a version that was brought back.
pub open spec fn restore_reply(
    req: VaultRestoreRequest,
    a: Answers,
    x: VaultRestoreResponse,
) -> bool {
    &&& x.note_id@ == named(req.note_id@, a)
    &&& x.ts_ms == req.ts_ms
    &&& x.content_hash@ == a.restored->0->Ok_0@
}

/// Brings a version of a note back.
pub fn vault_restore_impl(trust: &TrustContext, req: &VaultRestoreRequest, a: &Answers) -> (r: Next<
    VaultRestoreResponse,
>)
    ensures
        flow::follows(r, restore_gate(*trust, *req, *a)),
        r matches Next::Reply(x) ==> restore_reply(*req, *a, x),
{
    let vault = match writing::enter_change(
        trust,
        &req.tenant_id,
        a,
        writing::TENANT_MISMATCH,
        "acl deny write",
    ) {
        Ok(v) => v,
        Err(s) => return s.next(),
    };
    let id = match reference::resolve_note_ref_strict(vault.as_str(), req.note_id.as_str(), a) {
        Ok(id) => id,
        Err(s) => return s.next(),
    };
    if let Err(s) = pass_guard(trust, vault.as_str(), id.as_str(), true, a) {
        return s.next();
    }
    match &a.restored {
        None => Next::Ask(Ask::Restore { vault, id, ts_ms: req.ts_ms }),
        Some(Err(e)) => Next::Fail(Denial::plain(e.copy())),
        Some(Ok(hash)) => Next::Reply(
            VaultRestoreResponse { note_id: id, ts_ms: req.ts_ms, content_hash: hash.clone() },
        ),
    }
}

/// Whether a text selects a version: `current`, or a moment in milliseconds.
pub open spec fn selector(s: Seq<char>) -> bool {
    s == "current"@ || text::integer_of(s) is Some
}

/// Whether a text selects a version.
pub fn is_valid_selector(s: &str) -> (r: bool)
    ensures
        r == selector(s@),
{
    text::same(s, "current") || text::parse_integer(s).is_some()
}

/// The first reason not to compare versions, or the next question about them.
pub open spec fn diff_gate(trust: TrustContext, req: VaultDiffRequest, a: Answers) -> Gate {
    let t = access::tenant_of(a);
    let id = named(req.note_id@, a);
    flow::chain(
        access::access_gate(
            trust,
            rows::opt_text(req.tenant_id),
            a,
            AclOp::Read,
            None,
            "acl deny"@,
        ),
        if !selector(req.a@) || !selector(req.b@) {
            Gate::Fail(
                flow::silent(
                    Refusal::InvalidInput(
                        "invalid selector (expected 'current' or timestamp ms)"@,
                    ),
                ),
            )
        } else {
            flow::chain(
                reference::strict_gate(t, req.note_id@, a),
                flow::chain(
                    guard_gate(trust, t, id, false, a),
                    match a.diff {
                        None => Gate::Ask(Question::Diff { id, a: req.a@, b: req.b@ }),
                        Some(Err(e)) => Gate::Fail(flow::silent(e@)),
                        Some(Ok(_)) => Gate::Pass,
                    },
                ),
            )
        },
    )
}

/// What is shown of two versions.
pub open spec fn diff_reply(a: Answers, x: VaultDiffResponse) -> bool {
    text::views(x.lines@) == text::views(a.diff->0->Ok_0@) && x.count == x.lines@.len()
}

/// Compares two versions of a note, line by line.
pub fn vault_diff_impl(trust: &TrustContext, req: &VaultDiffRequest, a: &Answers) -> (r: Next<
    VaultDiffResponse,
>)
    ensures
        flow::follows(r, diff_gate(*trust, *req, *a)),
        r matches Next::Reply(x) ==> diff_reply(*a, x),
{
    let tenant = match access::enter(trust, &req.tenant_id, a, AclOp::Read, None, "acl deny") {
        Ok(t) => t,
        Err(s) => return s.next(),
    };
    if !is_valid_selector(req.a.as_str()) || !is_valid_selector(req.b.as_str()) {
        return Next::Fail(
            Denial::invalid("invalid selector (expected 'current' or timestamp ms)"),
        );
    }
    let id = match reference::resolve_note_ref_strict(tenant.as_str(), req.note_id.as_str(), a) {
        Ok(id) => id,
        Err(s) => return s.next(),
    };
    if let Err(s) = pass_guard(trust, tenant.as_str(), id.as_str(), false, a) {
        return s.next();
    }
    match &a.diff {
        None => Next::Ask(Ask::Diff { id, a: req.a.clone(), b: req.b.clone() }),
        Some(Err(e)) => Next::Fail(Denial::plain(e.copy())),
        Some(Ok(found)) => {
            let lines = rows::copy_list(found);
            let count: usize = lines.len();
            Next::Reply(VaultDiffResponse { lines, count })
        },
    }
}

// ── Where a note would be filed ─────────────────────────────────────────────

/// A note to be filed.
#[derive(Debug)]
pub struct VaultClassifyRequest {
    pub note_id: String,
    pub tenant_id: Option<String>,
}

/// Where a note would be filed.
#[derive(Debug)]
pub struct VaultClassifyResponse {
    pub note_id: String,
    pub current_section: String,
    pub suggested_section: String,
    /// How sure the suggestion is, in tenths.
    pub confidence_tenths: u8,
    pub method: String,
}

/// How sure a strong match is, in tenths.
pub const CONF_ADMITTED: u8 = 9;

/// How sure a best guess is, in tenths.
pub const CONF_PENDING: u8 = 5;

/// How sure no suggestion is, in tenths.
pub const CONF_NONE: u8 = 0;

/// The section that the heuristic suggests, and how sure it is: without a suggestion, the
/// section stays.
pub open spec fn suggestion(outcome: CurateOutcome, current: Seq<char>) -> (Seq<char>, u8) {
    match outcome {
        CurateOutcome::Admitted { section } => (section@, 9),
        CurateOutcome::Pending { section } => (section@, 5),
        CurateOutcome::Rejected => (current, 0),
    }
}

/// The first reason not to say where a note would be filed, or the next question about it.
pub open spec fn classify_gate(trust: TrustContext, req: VaultClassifyRequest, a: Answers) -> Gate {
    let t = access::tenant_of(a);
    flow::chain(
        access::access_gate(
            trust,
            rows::opt_text(req.tenant_id),
            a,
            AclOp::Read,
            None,
            "acl deny read"@,
        ),
        if !ids::is_ulid(req.note_id@) {
            Gate::Fail(
                flow::silent(
                    Refusal::InvalidInput(
                        reference::bare_id_expected(
                            "note_id"@,
                            req.note_id@,
                            "a bare ULID is expected"@,
                        ),
                    ),
                ),
            )
        } else {
            match a.note {
                None => Gate::Ask(Question::ReadNote { tenant: t, id: req.note_id@ }),
                Some(Err(e)) => Gate::Fail(flow::silent(e@)),
                Some(Ok(n)) => if !identity::may_touch(
                    trust,
                    n.section@,
                    rows::opt_text(n.h1_title),
                ) {
                    Gate::Fail(
                        identity::read_denied(t, access::locus_text(t, None), req.note_id@),
                    )
                } else if a.curated is None {
                    Gate::Ask(
                        Question::Curate {
                            id: req.note_id@,
                            title: match n.h1_title {
                                Some(h) => h@,
                                None => n.section@,
                            },
                            body: n.body@,
                            tags: text::views(n.tags@),
                        },
                    )
                } else {
                    Gate::Pass
                },
            }
        },
    )
}

/// What is said of where a note would be filed.
pub open spec fn classify_reply(
    req: VaultClassifyRequest,
    a: Answers,
    x: VaultClassifyResponse,
) -> bool {
    let current = a.note->0->Ok_0.section@;
    &&& x.note_id@ == req.note_id@
    &&& x.current_section@ == current
    &&& (x.suggested_section@, x.confidence_tenths) == suggestion(a.curated->0, current)
    &&& x.method@ == "heuristic"@
}

/// Says where a note would be filed. Nothing is changed.
pub fn vault_classify_impl(trust: &TrustContext, req: &VaultClassifyRequest, a: &Answers) -> (r:
    Next<VaultClassifyResponse>)
    ensures
        flow::follows(r, classify_gate(*trust, *req, *a)),
        r matches Next::Reply(x) ==> classify_reply(*req, *a, x),
{
    let tenant = match access::enter(
        trust,
        &req.tenant_id,
        a,
        AclOp::Read,
        None,
        "acl deny read",
    ) {
        Ok(t) => t,
        Err(s) => return s.next(),
    };
    if !ids::ulid_valid(req.note_id.as_str()) {
        return Next::Fail(
            Denial::plain(
                GradatumError::InvalidInput(
                    reference::bare_id_message(
                        "note_id",
                        req.note_id.as_str(),
                        "a bare ULID is expected",
                    ),
                ),
            ),
        );
    }
    let n = match &a.note {
        None => return Next::Ask(Ask::ReadNote { tenant, id: req.note_id.clone() }),
        Some(Err(e)) => return Next::Fail(Denial::plain(e.copy())),
        Some(Ok(n)) => n,
    };
    if let Err(d) = identity::enforce_identity_read_guard(
        trust,
        tenant.as_str(),
        n.section.as_str(),
        access::as_deref(&n.h1_title),
        req.note_id.as_str(),
    ) {
        return Next::Fail(d);
    }
    let outcome = match &a.curated {
        None => return Next::Ask(
            Ask::Curate {
                id: req.note_id.clone(),
                title: match &n.h1_title {
                    Some(h) => h.clone(),
                    None => n.section.clone(),
                },
                body: n.body.clone(),
                tags: rows::copy_list(&n.tags),
            },
        ),
        Some(o) => o,
    };
    let (suggested_section, confidence_tenths) = match outcome {
        CurateOutcome::Admitted { section } => (section.clone(), CONF_ADMITTED),
        CurateOutcome::Pending { section } => (section.clone(), CONF_PENDING),
        CurateOutcome::Rejected => (n.section.clone(), CONF_NONE),
    };
    Next::Reply(
        VaultClassifyResponse {
            note_id: req.note_id.clone(),
            current_section: n.section.clone(),
            suggested_section,
            confidence_tenths,
            method: "heuristic".to_owned(),
        },
    )
}

// ── Laws ────────────────────────────────────────────────────────────────────

/// A version is brought back only by a caller who may write, and a soul only by its owner or by
/// a privileged caller.
pub proof fn restoring_respects_souls(trust: TrustContext, req: VaultRestoreRequest, a: Answers)
    requires
        restore_gate(trust, req, a) is Ask,
        restore_gate(trust, req, a)->Ask_0 is Restore,
    ensures
        trust.authenticated(),
        a.acl == Some(true),
        ({
            let (title, section) = identity::resolved_section(
                a.titles->0,
                named(req.note_id@, a),
            );
            identity::may_touch(trust, section, title)
        }),
{
}

/// When the index fails, the versions of a note are shown to privileged callers only.
pub proof fn versions_stay_closed_when_the_index_fails(
    trust: TrustContext,
    req: VaultHistoryRequest,
    a: Answers,
)
    requires
        !identity::identity_privileged(trust),
        a.titles matches Some(t) && t is Err,
    ensures
        !(history_gate(trust, req, a) is Pass),
{
    identity::index_failure_stays_closed(
        trust,
        a.titles->0->Err_0,
        named(req.note_id@, a),
    );
}

/// Two versions are compared in the order in which the request names them: the first with the
/// second, of the note that it means.
pub proof fn versions_are_compared_in_the_order_asked(
    trust: TrustContext,
    req: VaultDiffRequest,
    a: Answers,
)
    ensures
        diff_gate(trust, req, a) matches Gate::Ask(q) ==> match q {
            Question::TitleLookup { tenant, title } => access::own(trust, a, tenant) && title
                == req.note_id@,
            Question::Redirect { tenant, title } => access::own(trust, a, tenant) && title
                == req.note_id@,
            Question::TitlesSections { vault, ids } => access::own(trust, a, vault) && ids.len()
                == 1 && reference::reference_target(req.note_id@, a) == Some(ids[0]),
            Question::Diff { id, a: first, b: second } => {
                &&& reference::reference_target(req.note_id@, a) == Some(id)
                &&& first == req.a@
                &&& second == req.b@
            },
            _ => access::asks_to_read(q, rows::opt_text(req.tenant_id), a),
        },
{
}

/// A comparison the other way round is the same comparison with its two versions exchanged.
pub proof fn a_comparison_can_be_turned_round(
    trust: TrustContext,
    req: VaultDiffRequest,
    turned: VaultDiffRequest,
    a: Answers,
)
    requires
        turned.note_id@ == req.note_id@,
        rows::opt_text(turned.tenant_id) == rows::opt_text(req.tenant_id),
        turned.a@ == req.b@,
        turned.b@ == req.a@,
    ensures
        ({
            let g = diff_gate(trust, req, a);
            let h = diff_gate(trust, turned, a);
            &&& g is Ask && g->Ask_0 is Diff ==> {
                &&& h is Ask && h->Ask_0 is Diff
                &&& h->Ask_0->Diff_id == g->Ask_0->Diff_id
                &&& h->Ask_0->Diff_a == req.b@ && g->Ask_0->Diff_b == req.b@
                &&& h->Ask_0->Diff_b == req.a@ && g->Ask_0->Diff_a == req.a@
            }
            &&& !(g is Ask && g->Ask_0 is Diff) ==> g == h
        }),
{
}

/// A comparison is refused for cause only, and for the cause that it has.
pub proof fn a_comparison_is_refused_for_cause(
    trust: TrustContext,
    req: VaultDiffRequest,
    a: Answers,
)
    ensures
        ({
            let g = diff_gate(trust, req, a);
            let entered = trust.authenticated() && (a.tenant matches Some(Some(_))) && a.acl == Some(
                true,
            );
            let sound = (req.a@ == "current"@ || text::integer_of(req.a@) is Some) && (req.b@
                == "current"@ || text::integer_of(req.b@) is Some);
            let target = reference::reference_target(req.note_id@, a);
            let meant = entered && sound && reference::reference_gate(
                a.tenant->0->0@,
                req.note_id@,
                a,
            ) is Pass;
            let (title, section) = identity::resolved_section(a.titles->0, target->0);
            let open = identity::may_touch(trust, section, title);
            &&& access::guards_reading(g, trust, a)
            &&& entered && !sound ==> flow::finds_fault(g)
            &&& meant && target is None ==> flow::finds_fault(g)
            &&& meant && target is Some && a.titles is Some && !open ==> flow::forbids(g)
            &&& meant && target is Some && a.titles is Some && open ==> match a.diff {
                None => g is Ask && g->Ask_0 is Diff,
                Some(Err(e)) => flow::fails(g, e@),
                Some(Ok(_)) => g is Pass,
            }
        }),
{
}

/// The versions of a note are listed as they were found, and a comparison is shown line by line.
pub proof fn what_was_found_is_listed(
    a: Answers,
    x: VaultHistoryResponse,
    d: VaultDiffResponse,
    i: int,
)
    requires
        history_reply(a, x),
        diff_reply(a, d),
    ensures
        x.count == a.versions->0->Ok_0@.len(),
        x.versions@.len() == a.versions->0->Ok_0@.len(),
        0 <= i < x.versions@.len() ==> x.versions@[i] == a.versions->0->Ok_0@[i],
        d.count == a.diff->0->Ok_0@.len(),
        d.lines@.len() == a.diff->0->Ok_0@.len(),
        0 <= i < d.lines@.len() ==> d.lines@[i]@ == a.diff->0->Ok_0@[i]@,
{
    text::views_keep_the_texts(d.lines@, i);
    text::views_keep_the_texts(a.diff->0->Ok_0@, i);
}

/// What the versions of a note are asked for is about the note that the request means, in the
/// caller's own vault; of one version, the moment of the request.
pub proof fn versions_are_those_of_the_note_that_is_meant(
    trust: TrustContext,
    list: VaultHistoryRequest,
    one: VaultHistoryGetRequest,
    a: Answers,
)
    ensures
        history_gate(trust, list, a) matches Gate::Ask(q) ==> match q {
            Question::TitleLookup { tenant, title } => access::own(trust, a, tenant) && title
                == list.note_id@,
            Question::Redirect { tenant, title } => access::own(trust, a, tenant) && title
                == list.note_id@,
            Question::TitlesSections { vault, ids } => access::own(trust, a, vault) && ids.len()
                == 1 && reference::reference_target(list.note_id@, a) == Some(ids[0]),
            Question::Versions { tenant, id } => access::own(trust, a, tenant)
                && reference::reference_target(list.note_id@, a) == Some(id) && a.titles is Some,
            _ => access::asks_to_read(q, rows::opt_text(list.tenant_id), a),
        },
        version_gate(trust, one, a) matches Gate::Ask(q) ==> match q {
            Question::TitleLookup { tenant, title } => access::own(trust, a, tenant) && title
                == one.note_id@,
            Question::Redirect { tenant, title } => access::own(trust, a, tenant) && title
                == one.note_id@,
            Question::Snapshot { tenant, id, ts_ms } => access::own(trust, a, tenant)
                && reference::reference_target(one.note_id@, a) == Some(id) && ts_ms == one.ts_ms,
            _ => access::asks_to_read(q, rows::opt_text(one.tenant_id), a),
        },
{
}

/// Versions are refused for cause only, and for the cause that there is: a soul is closed by what
/// the index says of it, a version of it by what that version itself says.
pub proof fn versions_are_refused_for_cause(
    trust: TrustContext,
    list: VaultHistoryRequest,
    one: VaultHistoryGetRequest,
    a: Answers,
)
    ensures
        ({
            let g = history_gate(trust, list, a);
            let entered = trust.authenticated() && (a.tenant matches Some(Some(_))) && a.acl == Some(
                true,
            );
            let target = reference::reference_target(list.note_id@, a);
            let meant = entered && reference::reference_gate(a.tenant->0->0@, list.note_id@, a)
                is Pass;
            let (title, section) = identity::resolved_section(a.titles->0, target->0);
            let open = identity::may_touch(trust, section, title);
            &&& access::guards_reading(g, trust, a)
            &&& meant && target is None ==> flow::finds_fault(g)
            &&& meant && target is Some && a.titles is Some && !open ==> flow::forbids(g)
            &&& meant && target is Some && a.titles is Some && open ==> match a.versions {
                None => g is Ask && g->Ask_0 is Versions,
                Some(Err(e)) => flow::fails(g, e@),
                Some(Ok(_)) => g is Pass,
            }
        }),
        ({
            let g = version_gate(trust, one, a);
            let entered = trust.authenticated() && (a.tenant matches Some(Some(_))) && a.acl == Some(
                true,
            );
            let target = reference::reference_target(one.note_id@, a);
            let meant = entered && reference::reference_gate(a.tenant->0->0@, one.note_id@, a)
                is Pass;
            &&& access::guards_reading(g, trust, a)
            &&& meant && target is None ==> flow::finds_fault(g)
            &&& meant && target is Some ==> match a.snapshot {
                None => g is Ask && g->Ask_0 is Snapshot,
                Some(Err(e)) => flow::fails(g, e@),
                Some(Ok(v)) => if identity::may_touch(
                    trust,
                    v.section@,
                    rows::opt_text(v.h1_title),
                ) {
                    g is Pass
                } else {
                    flow::forbids(g)
                },
            }
        }),
{
}

/// A version is shown as it was kept, under the moment that was asked for.
pub proof fn a_version_is_shown_as_it_was_kept(
    req: VaultHistoryGetRequest,
    a: Answers,
    x: VaultHistoryGetResponse,
)
    requires
        version_reply(req, a, x),
        reference::reference_target(req.note_id@, a) is Some,
    ensures
        reference::reference_target(req.note_id@, a) == Some(x.note_id@),
        x.ts_ms == req.ts_ms,
        a.snapshot matches Some(Ok(v)) ==> x.body@ == v.body@ && x.section@ == v.section@,
{
}

/// What is brought back is the version of the request, of the note that it means, in the vault
/// that the caller may write.
pub proof fn the_version_asked_for_is_brought_back(
    trust: TrustContext,
    req: VaultRestoreRequest,
    a: Answers,
    x: VaultRestoreResponse,
)
    ensures
        restore_gate(trust, req, a) matches Gate::Ask(q) ==> match q {
            Question::TitleLookup { tenant, title } => writing::own(trust, a, tenant) && title
                == req.note_id@,
            Question::Redirect { tenant, title } => writing::own(trust, a, tenant) && title
                == req.note_id@,
            Question::TitlesSections { vault, ids } => writing::own(trust, a, vault) && ids.len()
                == 1 && reference::reference_target(req.note_id@, a) == Some(ids[0]),
            Question::Restore { vault, id, ts_ms } => writing::own(trust, a, vault)
                && reference::reference_target(req.note_id@, a) == Some(id) && ts_ms == req.ts_ms,
            _ => writing::asks_to_write(q, rows::opt_text(req.tenant_id), a),
        },
        restore_reply(req, a, x) && reference::reference_target(req.note_id@, a) is Some ==> {
            &&& reference::reference_target(req.note_id@, a) == Some(x.note_id@)
            &&& x.ts_ms == req.ts_ms
            &&& x.content_hash@ == a.restored->0->Ok_0@
        },
{
}

/// Bringing a version back is refused for cause only, and for the cause that there is.
pub proof fn bringing_back_is_refused_for_cause(
    trust: TrustContext,
    req: VaultRestoreRequest,
    a: Answers,
)
    ensures
        ({
            let g = restore_gate(trust, req, a);
            let entered = trust.authenticated() && (a.write_vault matches Some(Ok(_))) && a.acl
                == Some(true);
            let target = reference::reference_target(req.note_id@, a);
            let meant = entered && reference::reference_gate(
                a.write_vault->0->Ok_0@,
                req.note_id@,
                a,
            ) is Pass;
            let (title, section) = identity::resolved_section(a.titles->0, target->0);
            let open = identity::may_touch(trust, section, title);
            &&& writing::guards_writing(g, trust, a)
            &&& meant && target is None ==> flow::finds_fault(g)
            &&& meant && target is Some && a.titles is Some && !open ==> flow::forbids(g)
            &&& meant && target is Some && a.titles is Some && open ==> match a.restored {
                None => g is Ask && g->Ask_0 is Restore,
                Some(Err(e)) => flow::fails(g, e@),
                Some(Ok(_)) => g is Pass,
            }
        }),
{
}

/// A section is suggested for the note of the request, from its own words; a suggestion that the
/// curator is sure of counts nine tenths, one that it is not sure of half, and without one the note
/// stays where it is.
pub proof fn a_section_is_suggested_for_the_note(
    trust: TrustContext,
    req: VaultClassifyRequest,
    a: Answers,
    x: VaultClassifyResponse,
)
    ensures
        classify_gate(trust, req, a) matches Gate::Ask(q) ==> match q {
            Question::ReadNote { tenant, id } => access::own(trust, a, tenant) && id
                == req.note_id@,
            Question::Curate { id, title, body, tags } => {
                &&& a.note matches Some(Ok(n)) && {
                    &&& body == n.body@
                    &&& tags.len() == n.tags@.len()
                    &&& forall|i: int|
                        0 <= i < tags.len() ==> (#[trigger] tags[i]) == n.tags@[i]@
                    &&& n.h1_title matches Some(h) ==> title == h@
                    &&& n.h1_title is None ==> title == n.section@
                }
                &&& id == req.note_id@
            },
            _ => access::asks_to_read(q, rows::opt_text(req.tenant_id), a),
        },
        classify_reply(req, a, x) ==> {
            let current = a.note->0->Ok_0.section@;
            &&& x.note_id@ == req.note_id@
            &&& x.current_section@ == current
            &&& match a.curated->0 {
                CurateOutcome::Admitted { section } => x.suggested_section@ == section@
                    && x.confidence_tenths == 9,
                CurateOutcome::Pending { section } => x.suggested_section@ == section@
                    && x.confidence_tenths == 5,
                CurateOutcome::Rejected => x.suggested_section@ == current && x.confidence_tenths
                    == 0,
            }
        },
        ({
            let g = classify_gate(trust, req, a);
            let entered = trust.authenticated() && (a.tenant matches Some(Some(_))) && a.acl == Some(
                true,
            );
            &&& access::guards_reading(g, trust, a)
            &&& entered && !ids::is_ulid(req.note_id@) ==> flow::finds_fault(g)
            &&& entered && ids::is_ulid(req.note_id@) ==> match a.note {
                None => g is Ask && g->Ask_0 is ReadNote,
                Some(Err(e)) => flow::fails(g, e@),
                Some(Ok(n)) => if !identity::may_touch(
                    trust,
                    n.section@,
                    rows::opt_text(n.h1_title),
                ) {
                    flow::forbids(g)
                } else if a.curated is None {
                    g is Ask && g->Ask_0 is Curate
                } else {
                    g is Pass
                },
            }
        }),
{
}

}
