//! The timeline of a vault.

use vstd::prelude::*;
use vstd::string::*;

use crate::dto::{TimelineItem, VaultTimelineResponse};
use crate::error::{GradatumError, Refusal};
use crate::flow::{self, AclOp, Answers, Ask, Denial, Gate, Next, Question, Stop};
use crate::rows::{self, TimelineRow};
use crate::text;
use crate::trust::TrustContext;

verus! {

/// The kinds of notes that a timeline can be restricted to.
pub const KNOWN_DOC_KINDS: [&'static str; 3] = ["Static", "Event", "Versioned"];

/// A page of the timeline.
#[derive(Debug)]
pub struct VaultTimelineRequest {
    pub tenant_id: Option<String>,
    /// The vault to read, when it is not the caller's own.
    pub vault_id: Option<String>,
    pub doc_kind: Option<Vec<String>>,
    pub from_ms: Option<i64>,
    pub to_ms: Option<i64>,
    /// How many notes; fifty when absent, two hundred at most.
    pub limit: Option<u32>,
    pub cursor: Option<String>,
    pub as_of_ms: Option<i64>,
    pub include_expired: bool,
    pub compact: bool,
}

/// Whether a kind of note is known.
pub open spec fn known_kind(kind: Seq<char>) -> bool {
    kind == "Static"@ || kind == "Event"@ || kind == "Versioned"@
}

fn is_known_kind(kind: &str) -> (r: bool)
    ensures
        r == known_kind(kind@),
{
    text::same(kind, KNOWN_DOC_KINDS[0]) || text::same(kind, KNOWN_DOC_KINDS[1]) || text::same(
        kind,
        KNOWN_DOC_KINDS[2],
    )
}

/// Whether every kind of the list is known.
pub open spec fn all_known(kinds: Seq<Seq<char>>) -> bool {
    forall|i: int| 0 <= i < kinds.len() ==> known_kind(#[trigger] kinds[i])
}

fn are_known(kinds: &Vec<String>) -> (r: bool)
    ensures
        r == all_known(text::views(kinds@)),
{
    let ghost all = text::views(kinds@);
    let mut i: usize = 0;
    while i < kinds.len()
        invariant
            i <= kinds@.len(),
            all == text::views(kinds@),
            forall|k: int| 0 <= k < i ==> known_kind(#[trigger] all[k]),
        decreases kinds@.len() - i,
    {
        assert(all[i as int] == kinds@[i as int]@);
        if !is_known_kind(kinds[i].as_str()) {
            return false;
        }
        i = i + 1;
    }
    true
}

/// Who may read which timeline. Where vaults of several tenants are served, the named vault is
/// checked.
pub open spec fn timeline_right_gate(
    trust: TrustContext,
    req: VaultTimelineRequest,
    multi_tenant: bool,
    a: Answers,
) -> Gate {
    if !trust.authenticated() {
        Gate::Fail(flow::silent(Refusal::Unauthorized))
    } else if a.tenant is None {
        Gate::Ask(Question::Tenant { requested: rows::opt_text(req.tenant_id) })
    } else if a.tenant->0 is None {
        Gate::Fail(flow::silent(Refusal::Forbidden("tenant cross mismatch"@)))
    } else if multi_tenant {
        match a.read_vault {
            None => Gate::Ask(
                Question::ReadVault {
                    tenant: a.tenant->0->0@,
                    vault: rows::opt_text(req.vault_id),
                    section: Some("timeline"@),
                    deny: "acl deny timeline"@,
                },
            ),
            Some(Err(e)) => Gate::Fail(flow::silent(e@)),
            Some(Ok(_)) => Gate::Pass,
        }
    } else {
        match a.acl {
            None => Gate::Ask(
                Question::Acl { op: AclOp::Read, locus: a.tenant->0->0@ + "/timeline"@ },
            ),
            Some(false) => Gate::Fail(
                flow::silent(Refusal::Forbidden("acl deny timeline"@)),
            ),
            Some(true) => Gate::Pass,
        }
    }
}

/// What is wrong with a request, looked at in this order: the range, the number of kinds, the
/// kinds, and, where one vault only is served, the vault.
pub open spec fn timeline_fault(req: VaultTimelineRequest, multi_tenant: bool) -> Option<Refusal> {
    let vault = rows::opt_text(req.vault_id);
    if req.from_ms is Some && req.to_ms is Some && req.from_ms->0 > req.to_ms->0 {
        Some(Refusal::InvalidInput("from_ms > to_ms"@))
    } else if req.doc_kind is Some && req.doc_kind->0@.len() > 3 {
        Some(Refusal::InvalidInput("too many doc_kind"@))
    } else if req.doc_kind is Some && !all_known(text::views(req.doc_kind->0@)) {
        Some(Refusal::InvalidInput("doc_kind hors allowlist"@))
    } else if multi_tenant || vault is None {
        None
    } else if vault->0.len() == 0 || text::byte_length(vault->0) > 128 {
        Some(Refusal::InvalidInput("invalid vault_id"@))
    } else if vault->0 != "main"@ {
        Some(Refusal::Forbidden("cross-read vault_id ≠ main not supported"@))
    } else {
        None
    }
}

fn check_timeline(req: &VaultTimelineRequest, multi_tenant: bool) -> (r: Result<(), GradatumError>)
    ensures
        match r {
            Ok(_) => timeline_fault(*req, multi_tenant) is None,
            Err(e) => timeline_fault(*req, multi_tenant) == Some(e@),
        },
{
    if let Some(from) = req.from_ms {
        if let Some(to) = req.to_ms {
            if from > to {
                return Err(GradatumError::invalid("from_ms > to_ms"));
            }
        }
    }
    if let Some(kinds) = &req.doc_kind {
        if kinds.len() > 3 {
            return Err(GradatumError::invalid("too many doc_kind"));
        }
        if !are_known(kinds) {
            return Err(GradatumError::invalid("doc_kind hors allowlist"));
        }
    }
    if multi_tenant {
        return Ok(());
    }
    if let Some(v) = &req.vault_id {
        if v.as_str().is_empty() || text::byte_len(v.as_str()) > 128 {
            return Err(GradatumError::invalid("invalid vault_id"));
        }
        if !text::same(v.as_str(), "main") {
            return Err(GradatumError::forbidden("cross-read vault_id ≠ main not supported"));
        }
    }
    Ok(())
}

/// The vault whose timeline is read.
pub open spec fn timeline_vault(
    req: VaultTimelineRequest,
    multi_tenant: bool,
    a: Answers,
) -> Seq<char> {
    if multi_tenant {
        a.read_vault->0->Ok_0@
    } else {
        match req.vault_id {
            Some(v) => v@,
            None => a.tenant->0->0@,
        }
    }
}

/// How many notes a page has.
pub open spec fn page_size(limit: Option<u32>) -> nat {
    let n: nat = match limit {
        Some(n) => n as nat,
        None => 50,
    };
    if n < 1 {
        1
    } else if n > 200 {
        200
    } else {
        n
    }
}

fn page_limit(limit: Option<u32>) -> (r: usize)
    ensures
        r == page_size(limit),
        1 <= r <= 200,
{
    let n: u32 = match limit {
        Some(n) => n,
        None => 50,
    };
    if n < 1 {
        1
    } else if n > 200 {
        200
    } else {
        n as usize
    }
}

/// The steps after the right to read and the form of the request: the position is read, the page
/// fetched, and, when the page is full, the position of its last note written.
pub open spec fn timeline_page_gate(
    req: VaultTimelineRequest,
    multi_tenant: bool,
    a: Answers,
) -> Gate {
    let limit = page_size(req.limit);
    if req.cursor is Some && a.cursor is None {
        Gate::Ask(Question::DecodeCursor { cursor: req.cursor->0@ })
    } else if req.cursor is Some && a.cursor == Some(false) {
        Gate::Fail(flow::silent(Refusal::InvalidInput("malformed cursor"@)))
    } else {
        match a.timeline {
            None => Gate::Ask(
                Question::Timeline {
                    vault: timeline_vault(req, multi_tenant, a),
                    doc_kind: flow::opt_list(req.doc_kind),
                    from_ms: req.from_ms,
                    to_ms: req.to_ms,
                    limit,
                    cursor: rows::opt_text(req.cursor),
                    as_of_ms: req.as_of_ms,
                    include_expired: req.include_expired,
                },
            ),
            Some(Err(e)) => Gate::Fail(flow::silent(e@)),
            Some(Ok(found)) => if found@.len() == limit && a.next_cursor is None {
                Gate::Ask(
                    Question::EncodeCursor {
                        anchor_ms: found@[found@.len() - 1].anchor_ms,
                        note_id: found@[found@.len() - 1].note_id@,
                    },
                )
            } else {
                Gate::Pass
            },
        }
    }
}

/// The first reason not to show a timeline, or the next question about it.
pub open spec fn timeline_gate(
    trust: TrustContext,
    req: VaultTimelineRequest,
    multi_tenant: bool,
    a: Answers,
) -> Gate {
    flow::chain(
        timeline_right_gate(trust, req, multi_tenant, a),
        match timeline_fault(req, multi_tenant) {
            Some(e) => Gate::Fail(flow::silent(e)),
            None => timeline_page_gate(req, multi_tenant, a),
        },
    )
}

/// Whether `x` shows the note `r`.
pub open spec fn shows(r: TimelineRow, x: TimelineItem) -> bool {
    &&& x.note_id@ == r.note_id@
    &&& x.anchor_ms == r.anchor_ms
    &&& x.anchor_src@ == r.anchor_src@
    &&& x.doc_kind@ == r.doc_kind@
    &&& x.title == r.title
}

/// Whether `r` is the page: its notes as they came, and a position for the next page exactly
/// when this one is full.
pub open spec fn timeline_reply(
    req: VaultTimelineRequest,
    a: Answers,
    r: VaultTimelineResponse,
) -> bool {
    let found = a.timeline->0->Ok_0@;
    &&& r.items@.len() == found.len()
    &&& forall|i: int| 0 <= i < found.len() ==> shows(found[i], #[trigger] r.items@[i])
    &&& rows::opt_text(r.next_cursor) == if found.len() == page_size(req.limit) {
        Some(a.next_cursor->0@)
    } else {
        None
    }
}

fn enter_timeline(
    trust: &TrustContext,
    req: &VaultTimelineRequest,
    multi_tenant: bool,
    a: &Answers,
) -> (r: Result<String, Stop>)
    ensures
        match r {
            Ok(v) => timeline_right_gate(*trust, *req, multi_tenant, *a) is Pass && v@
                == timeline_vault(*req, multi_tenant, *a),
            Err(s) => timeline_right_gate(*trust, *req, multi_tenant, *a) == s@,
        },
{
    if !trust.is_authenticated() {
        return Err(Stop::Fail(Denial::plain(GradatumError::Unauthorized)));
    }
    let tenant = match &a.tenant {
        None => return Err(
            Stop::Ask(Ask::Tenant { requested: rows::copy_opt(&req.tenant_id) }),
        ),
        Some(None) => return Err(Stop::Fail(Denial::forbidden("tenant cross mismatch"))),
        Some(Some(t)) => t.clone(),
    };
    if multi_tenant {
        return match &a.read_vault {
            None => Err(
                Stop::Ask(
                    Ask::ReadVault {
                        tenant,
                        vault: rows::copy_opt(&req.vault_id),
                        section: Some("timeline".to_owned()),
                        deny: "acl deny timeline".to_owned(),
                    },
                ),
            ),
            Some(Err(e)) => Err(Stop::failed(e)),
            Some(Ok(v)) => Ok(v.clone()),
        };
    }
    match a.acl {
        None => Err(
            Stop::Ask(
                Ask::Acl { op: AclOp::Read, locus: text::cat(tenant.as_str(), "/timeline") },
            ),
        ),
        Some(false) => Err(Stop::Fail(Denial::forbidden("acl deny timeline"))),
        Some(true) => Ok(
            match &req.vault_id {
                Some(v) => v.clone(),
                None => tenant,
            },
        ),
    }
}

/// Shows the timeline of a vault, page by page.
pub fn vault_timeline_impl(
    trust: &TrustContext,
    req: &VaultTimelineRequest,
    multi_tenant: bool,
    a: &Answers,
) -> (r: Next<VaultTimelineResponse>)
    ensures
        flow::follows(r, timeline_gate(*trust, *req, multi_tenant, *a)),
        r matches Next::Reply(x) ==> timeline_reply(*req, *a, x),
{
    let vault = match enter_timeline(trust, req, multi_tenant, a) {
        Ok(v) => v,
        Err(s) => return s.next(),
    };
    if let Err(e) = check_timeline(req, multi_tenant) {
        return Next::Fail(Denial::plain(e));
    }
    if let Some(c) = &req.cursor {
        match a.cursor {
            None => return Next::Ask(Ask::DecodeCursor { cursor: c.clone() }),
            Some(false) => return Next::Fail(Denial::invalid("malformed cursor")),
            Some(true) => {},
        }
    }
    let limit = page_limit(req.limit);
    let found = match &a.timeline {
        None => {
            let doc_kind = match &req.doc_kind {
                Some(kinds) => Some(rows::copy_list(kinds)),
                None => None,
            };
            return Next::Ask(
                Ask::Timeline {
                    vault,
                    doc_kind,
                    from_ms: req.from_ms,
                    to_ms: req.to_ms,
                    limit,
                    cursor: rows::copy_opt(&req.cursor),
                    as_of_ms: req.as_of_ms,
                    include_expired: req.include_expired,
                },
            );
        },
        Some(Err(e)) => return Next::Fail(Denial::plain(e.copy())),
        Some(Ok(found)) => found,
    };
    let n: usize = found.len();
    let next_cursor = if n == limit {
        match &a.next_cursor {
            None => return Next::Ask(
                Ask::EncodeCursor {
                    anchor_ms: found[n - 1].anchor_ms,
                    note_id: found[n - 1].note_id.text(),
                },
            ),
            Some(c) => Some(c.clone()),
        }
    } else {
        None
    };
    let mut items: Vec<TimelineItem> = Vec::new();
    let mut i: usize = 0;
    while i < n
        invariant
            i <= n == found@.len(),
            items@.len() == i,
            forall|k: int| 0 <= k < i ==> shows(found@[k], #[trigger] items@[k]),
        decreases n - i,
    {
        let row = &found[i];
        items.push(
            TimelineItem {
                note_id: row.note_id.text(),
                anchor_ms: row.anchor_ms,
                anchor_src: row.anchor_src.clone(),
                doc_kind: row.doc_kind.clone(),
                title: rows::copy_opt(&row.title),
            },
        );
        i = i + 1;
    }
    Next::Reply(VaultTimelineResponse { items, next_cursor })
}

// ── Laws ────────────────────────────────────────────────────────────────────

/// A timeline is fetched only for a range that is not empty, for known kinds, and, where one
/// vault only is served, for that vault alone.
pub proof fn a_timeline_is_fetched_for_a_sound_request(
    trust: TrustContext,
    req: VaultTimelineRequest,
    multi_tenant: bool,
    a: Answers,
)
    requires
        timeline_gate(trust, req, multi_tenant, a) is Ask,
        timeline_gate(trust, req, multi_tenant, a)->Ask_0 is Timeline,
    ensures
        trust.authenticated(),
        req.from_ms is Some && req.to_ms is Some ==> req.from_ms->0 <= req.to_ms->0,
        req.doc_kind is Some ==> all_known(text::views(req.doc_kind->0@)),
        !multi_tenant && req.vault_id is Some ==> req.vault_id->0@ == "main"@,
        1 <= timeline_gate(trust, req, multi_tenant, a)->Ask_0->Timeline_limit <= 200,
{
}

/// The page that is fetched is the page that was asked for: from the position of the request,
/// of its kinds and in its range, as many notes as it wants within bounds, and from the vault that
/// was checked.
pub proof fn the_page_fetched_is_the_page_asked_for(
    trust: TrustContext,
    req: VaultTimelineRequest,
    multi_tenant: bool,
    a: Answers,
)
    ensures
        timeline_gate(trust, req, multi_tenant, a) matches Gate::Ask(
            Question::Timeline {
                vault,
                doc_kind,
                from_ms,
                to_ms,
                limit,
                cursor,
                as_of_ms,
                include_expired,
            },
        ) ==> {
            &&& cursor is Some <==> req.cursor is Some
            &&& req.cursor matches Some(c) ==> cursor == Some(c@) && a.cursor == Some(true)
            &&& doc_kind is Some <==> req.doc_kind is Some
            &&& req.doc_kind matches Some(kinds) ==> {
                &&& doc_kind->0.len() == kinds@.len()
                &&& forall|i: int| 0 <= i < kinds@.len() ==> #[trigger] doc_kind->0[i] == kinds@[i]@
            }
            &&& from_ms == req.from_ms
            &&& to_ms == req.to_ms
            &&& as_of_ms == req.as_of_ms
            &&& include_expired == req.include_expired
            &&& 1 <= limit <= 200
            &&& req.limit is None ==> limit == 50
            &&& req.limit matches Some(n) ==> (1 <= n <= 200 ==> limit == n) && (n == 0 ==> limit
                == 1) && (n > 200 ==> limit == 200)
            &&& multi_tenant ==> (a.read_vault matches Some(Ok(v)) && vault == v@)
            &&& !multi_tenant && req.vault_id is None ==> (a.tenant matches Some(Some(t)) && vault
                == t@)
            &&& !multi_tenant && req.vault_id is Some ==> vault == req.vault_id->0@ && vault
                == "main"@
        },
{
}

/// Before a page is fetched a timeline asks only for the right to it, to the caller's own tenant
/// and the vault that the request names; afterwards only for the position of the last note.
pub proof fn a_timeline_asks_for_its_right_first(
    trust: TrustContext,
    req: VaultTimelineRequest,
    multi_tenant: bool,
    a: Answers,
)
    ensures
        timeline_gate(trust, req, multi_tenant, a) matches Gate::Ask(q) ==> trust.authenticated()
            && match q {
            Question::Tenant { requested } => {
                &&& requested is Some <==> req.tenant_id is Some
                &&& req.tenant_id matches Some(t) ==> requested == Some(t@)
            },
            Question::ReadVault { tenant, vault, section, .. } => {
                &&& multi_tenant
                &&& a.tenant matches Some(Some(t)) && tenant == t@
                &&& vault is Some <==> req.vault_id is Some
                &&& req.vault_id matches Some(v) ==> vault == Some(v@)
                &&& section == Some("timeline"@)
            },
            Question::Acl { op, locus } => {
                &&& !multi_tenant
                &&& op == AclOp::Read
                &&& a.tenant matches Some(Some(t)) && locus == t@ + "/timeline"@
            },
            Question::DecodeCursor { cursor } => {
                &&& req.cursor matches Some(c) && cursor == c@
                &&& !multi_tenant ==> a.acl == Some(true)
                &&& multi_tenant ==> a.read_vault matches Some(Ok(_))
            },
            Question::Timeline { .. } => {
                &&& a.timeline is None
                &&& !multi_tenant ==> a.acl == Some(true)
                &&& multi_tenant ==> a.read_vault matches Some(Ok(_))
            },
            Question::EncodeCursor { anchor_ms, note_id } => {
                &&& a.timeline matches Some(Ok(found)) && found@.len() > 0 && anchor_ms
                    == found@.last().anchor_ms && note_id == found@.last().note_id@
            },
            _ => false,
        },
{
}

/// A timeline is refused to nobody without a cause, and for the cause that it has: no credential,
/// another tenant, no right, a range that ends before it begins, kinds that are too many or
/// unknown, a vault that is not served, a position that is none, or an index that fails.
pub proof fn a_timeline_is_refused_for_cause(
    trust: TrustContext,
    req: VaultTimelineRequest,
    multi_tenant: bool,
    a: Answers,
)
    ensures
        ({
            let g = timeline_gate(trust, req, multi_tenant, a);
            let right = if multi_tenant {
                a.read_vault matches Some(Ok(_))
            } else {
                a.acl == Some(true)
            };
            let sound = {
                &&& req.from_ms is Some && req.to_ms is Some ==> req.from_ms->0 <= req.to_ms->0
                &&& req.doc_kind matches Some(kinds) ==> kinds@.len() <= 3 && forall|i: int|
                    0 <= i < kinds@.len() ==> (#[trigger] kinds@[i])@ == "Static"@ || kinds@[i]@
                        == "Event"@ || kinds@[i]@ == "Versioned"@
                &&& !multi_tenant ==> req.vault_id is None || req.vault_id->0@ == "main"@
                &&& req.cursor is Some ==> a.cursor != Some(false)
            };
            let own = a.tenant matches Some(Some(_));
            &&& !trust.authenticated() ==> flow::fails(g, Refusal::Unauthorized)
            &&& trust.authenticated() && a.tenant == Some(None::<String>) ==> flow::forbids(g)
            &&& trust.authenticated() && own && !multi_tenant && a.acl == Some(false)
                ==> flow::forbids(g)
            &&& trust.authenticated() && own && multi_tenant && (a.read_vault matches Some(Err(_)))
                ==> flow::fails(g, a.read_vault->0->Err_0@)
            &&& trust.authenticated() && own && right && !sound ==> g is Fail
            &&& trust.authenticated() && own && right && sound && req.cursor is None ==> match a.timeline {
                None => g is Ask && g->Ask_0 is Timeline,
                Some(Err(e)) => flow::fails(g, e@),
                Some(Ok(found)) => !(g is Fail) && (g is Pass || found@.len() > 0),
            }
            &&& trust.authenticated() && own && right && sound && a.cursor == Some(true) ==> match a.timeline {
                None => g is Ask && g->Ask_0 is Timeline,
                Some(Err(e)) => flow::fails(g, e@),
                Some(Ok(found)) => !(g is Fail) && (g is Pass || found@.len() > 0),
            }
        }),
{
    if let Some(kinds) = req.doc_kind {
        assert(text::views(kinds@).len() == kinds@.len());
        assert forall|i: int| 0 <= i < kinds@.len() implies text::views(kinds@)[i] == (
        #[trigger] kinds@[i])@ by {}
        assert forall|i: int| 0 <= i < kinds@.len() implies kinds@[i]@ == #[trigger] text::views(
            kinds@,
        )[i] by {}
    }
    lemma_main_is_short();
}

proof fn lemma_main_is_short()
    ensures
        "main"@.len() == 4,
        text::byte_length("main"@) == 4,
{
    reveal_strlit("main");
    text::ascii_bytes("main"@);
}

/// A page shows every note that was found, in the order in which it was found and with its own
/// moment, and names a next page only when it is full.
pub proof fn a_page_shows_what_was_found(
    req: VaultTimelineRequest,
    a: Answers,
    r: VaultTimelineResponse,
    i: int,
)
    requires
        timeline_reply(req, a, r),
        a.timeline matches Some(Ok(_)),
    ensures
        ({
            let found = a.timeline->0->Ok_0@;
            &&& r.items@.len() == found.len()
            &&& 0 <= i < found.len() ==> {
                &&& r.items@[i].note_id@ == found[i].note_id@
                &&& r.items@[i].anchor_ms == found[i].anchor_ms
                &&& r.items@[i].anchor_src@ == found[i].anchor_src@
                &&& r.items@[i].doc_kind@ == found[i].doc_kind@
                &&& r.items@[i].title == found[i].title
            }
            &&& req.limit is None ==> (r.next_cursor is Some <==> found.len() == 50)
            &&& req.limit matches Some(n) ==> (1 <= n <= 200 ==> (r.next_cursor is Some
                <==> found.len() == n))
            &&& r.next_cursor matches Some(c) ==> c@ == a.next_cursor->0@
        }),
{
    if 0 <= i < a.timeline->0->Ok_0@.len() {
        assert(shows(a.timeline->0->Ok_0@[i], r.items@[i]));
    }
}

}
