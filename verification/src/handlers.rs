//! The operations as they are answered over HTTP: a refusal becomes a status.

use vstd::prelude::*;

use crate::access;
use crate::cards::{self, CardNext, CreateFeatureCardRequest, CreateFeatureCardResponse};
use crate::compact;
use crate::dto::{
    LessonsRecallResponse, VaultAuthorsResponse, VaultGraphResponse, VaultLinksResponse,
    VaultListRequest, VaultListResponse, VaultReadRequest, VaultReadResponse, VaultSearchRequest,
    VaultSearchResponse, VaultStatusResponse, VaultTagsResponse, VaultTraceResponse,
};
use crate::error::{self, StatusCode};
use crate::flow::{self, AclOp, Answers, Ask, Audit, AuditTrace, Gate, Next, Question};
use crate::graph::{
    self, ContextGrant, VaultGraphRequest, VaultLinksRequest, VaultTraceRequest,
};
use crate::history::{
    self, VaultDiffRequest, VaultDiffResponse, VaultHistoryGetRequest, VaultHistoryGetResponse,
    VaultHistoryRequest, VaultHistoryResponse, VaultRestoreRequest, VaultRestoreResponse,
};
use crate::ids::NoteId;
use crate::lessons::{self, LessonsRecallRequest, LessonsSettings};
use crate::listing::{
    self, ListingSettings, VaultArchivesListRequest, VaultArchivesListResponse, VaultTagsRequest,
};
use crate::read;
use crate::reference;
use crate::rows;
use crate::search::{self, SearchAnswers, SearchAsk, SearchNext, SearchSettings};
use crate::trust::TrustContext;

verus! {

/// The next step of an operation that is answered over HTTP.
#[derive(Debug)]
pub enum Handled<T> {
    Ask(Ask),
    /// The operation is refused, and may leave a trace.
    Refuse(StatusCode, Option<Audit>),
    Reply(T),
}

/// The next step by its contents, leaving the reply itself aside.
#[verifier::ext_equal]
pub enum HandledGate {
    Ask(Question),
    Refuse(StatusCode, Option<AuditTrace>),
    Pass,
}

/// Whether `n` is the step that `g` prescribes; of a reply this says only that it is
/// due.
pub open spec fn follows<T>(n: Handled<T>, g: HandledGate) -> bool {
    match n {
        Handled::Ask(q) => g == HandledGate::Ask(q@),
        Handled::Refuse(s, t) => g == HandledGate::Refuse(s, flow::opt_trace(t)),
        Handled::Reply(_) => g is Pass,
    }
}

/// What an operation comes to, with the status of its refusal.
pub open spec fn by_status(g: Gate) -> HandledGate {
    match g {
        Gate::Ask(q) => HandledGate::Ask(q),
        Gate::Fail(d) => HandledGate::Refuse(error::refusal_status(d.error), d.audit),
        Gate::Pass => HandledGate::Pass,
    }
}

/// What an operation on versions comes to, with the status of its refusal.
pub open spec fn by_history_status(g: Gate) -> HandledGate {
    match g {
        Gate::Ask(q) => HandledGate::Ask(q),
        Gate::Fail(d) => HandledGate::Refuse(error::history_status(d.error), d.audit),
        Gate::Pass => HandledGate::Pass,
    }
}

fn handle<T>(n: Next<T>, Ghost(g): Ghost<Gate>) -> (r: Handled<T>)
    requires
        flow::follows(n, g),
    ensures
        follows(r, by_status(g)),
        r matches Handled::Reply(x) ==> n == Next::Reply(x),
{
    match n {
        Next::Ask(q) => Handled::Ask(q),
        Next::Fail(d) => Handled::Refuse(error::err_to_status(&d.error), d.audit),
        Next::Reply(x) => Handled::Reply(x),
    }
}

fn handle_history<T>(n: Next<T>, Ghost(g): Ghost<Gate>) -> (r: Handled<T>)
    requires
        flow::follows(n, g),
    ensures
        follows(r, by_history_status(g)),
        r matches Handled::Reply(x) ==> n == Next::Reply(x),
{
    match n {
        Next::Ask(q) => Handled::Ask(q),
        Next::Fail(d) => Handled::Refuse(error::map_err_to_status_history(&d.error), d.audit),
        Next::Reply(x) => Handled::Reply(x),
    }
}

/// A reply, whole or in compact form.
#[derive(Debug)]
pub enum Body<T> {
    Whole(T),
    Compact(String),
}

// ── Search and reading ──────────────────────────────────────────────────────

/// The next step of a search that is answered over HTTP.
#[derive(Debug)]
pub enum SearchHandled {
    Ask(SearchAsk),
    Refuse(StatusCode),
    Reply(Body<VaultSearchResponse>),
}

/// Searches a vault.
pub fn vault_search(
    trust: &TrustContext,
    req: &VaultSearchRequest,
    st: &SearchSettings,
    a: &SearchAnswers,
) -> (r: SearchHandled)
    ensures
        match r {
            SearchHandled::Ask(q) => search::search_gate(*trust, *req, *st, *a)
                == search::SearchGate::Ask(q@),
            SearchHandled::Refuse(s) => {
                let g = search::search_gate(*trust, *req, *st, *a);
                g is Fail && s == error::refusal_status(g->Fail_0)
            },
            SearchHandled::Reply(Body::Whole(x)) => !req.compact && search::search_follows(
                SearchNext::Reply(x),
                *trust,
                *req,
                *st,
                *a,
            ),
            SearchHandled::Reply(Body::Compact(c)) => req.compact
                && exists|x: VaultSearchResponse|
                {
                    &&& #[trigger] search::search_follows(
                        SearchNext::Reply(x),
                        *trust,
                        *req,
                        *st,
                        *a,
                    )
                    &&& c@ == compact::search_text(x, req.query@)
                },
        },
{
    match search::vault_search_impl(trust, req, st, a) {
        SearchNext::Ask(q) => SearchHandled::Ask(q),
        SearchNext::Fail(e) => SearchHandled::Refuse(error::err_to_status(&e)),
        SearchNext::Reply(x) => if req.compact {
            let c = compact::render_search(&x, req.query.as_str());
            assert(search::search_follows(SearchNext::Reply(x), *trust, *req, *st, *a));
            SearchHandled::Reply(Body::Compact(c))
        } else {
            SearchHandled::Reply(Body::Whole(x))
        },
    }
}

/// Reads a note.
pub fn vault_read(trust: &TrustContext, req: &VaultReadRequest, a: &Answers) -> (r: Handled<
    Body<VaultReadResponse>,
>)
    ensures
        follows(r, by_status(read::read_gate(*trust, *req, *a))),
        r matches Handled::Reply(b) ==> match b {
            Body::Whole(x) => !req.compact && read::read_reply(*req, *a, x),
            Body::Compact(c) => req.compact && exists|x: VaultReadResponse|
                {
                    &&& #[trigger] read::read_reply(*req, *a, x)
                    &&& c@ == compact::read_text(x)
                },
        },
{
    match handle(
        read::vault_read_impl(trust, req, a),
        Ghost(read::read_gate(*trust, *req, *a)),
    ) {
        Handled::Ask(q) => Handled::Ask(q),
        Handled::Refuse(s, t) => Handled::Refuse(s, t),
        Handled::Reply(x) => if req.compact {
            let c = compact::render_read(&x);
            assert(read::read_reply(*req, *a, x));
            Handled::Reply(Body::Compact(c))
        } else {
            Handled::Reply(Body::Whole(x))
        },
    }
}

// ── The other operations ────────────────────────────────────────────────────

/// Lists the notes of a vault.
pub fn vault_list(
    trust: &TrustContext,
    req: &VaultListRequest,
    a: &Answers,
) -> (r: Handled<VaultListResponse>)
    ensures
        follows(r, by_status(listing::list_gate(*trust, *req, *a))),
        r matches Handled::Reply(x) ==> listing::list_reply(*trust, *req, *a, x),
{
    handle(
        listing::vault_list_impl(trust, req, a),
        Ghost(listing::list_gate(*trust, *req, *a)),
    )
}

/// Lists the archive of a vault.
pub fn vault_archives_list(
    trust: &TrustContext,
    req: &VaultArchivesListRequest,
    st: &ListingSettings,
    a: &Answers,
) -> (r: Handled<VaultArchivesListResponse>)
    ensures
        follows(r, by_status(listing::archives_gate(*trust, *req, *st, *a))),
        r matches Handled::Reply(x) ==> listing::archive_reply(*req, *st, *a, x),
{
    handle(
        listing::vault_archives_list_impl(trust, req, st, a),
        Ghost(listing::archives_gate(*trust, *req, *st, *a)),
    )
}

/// Tells the state of the caller's vault.
pub fn vault_status(
    trust: &TrustContext,
    st: &ListingSettings,
    a: &Answers,
) -> (r: Handled<VaultStatusResponse>)
    ensures
        follows(r, by_status(listing::status_gate(*trust, *st, *a))),
        r matches Handled::Reply(x) ==> listing::status_reply(*st, *a, x),
{
    handle(
        listing::vault_status_impl(trust, st, a),
        Ghost(listing::status_gate(*trust, *st, *a)),
    )
}

/// Shows the notes around a note.
pub fn vault_graph(
    trust: &TrustContext,
    req: &VaultGraphRequest,
    a: &Answers,
) -> (r: Handled<VaultGraphResponse>)
    ensures
        follows(r, by_status(graph::graph_gate(*trust, *req, *a))),
        r matches Handled::Reply(x) ==> graph::around_reply(
            *trust,
            reference::tolerant_target(req.root@, *a),
            req.include_backlinks == Some(true),
            *a,
            x,
        ),
{
    handle(
        graph::vault_graph_impl(trust, req, a),
        Ghost(graph::graph_gate(*trust, *req, *a)),
    )
}

/// Shows the direct links of a note.
pub fn vault_links(
    trust: &TrustContext,
    req: &VaultLinksRequest,
    a: &Answers,
) -> (r: Handled<VaultLinksResponse>)
    ensures
        follows(r, by_status(graph::links_gate(*trust, *req, *a))),
        r matches Handled::Reply(x) ==> graph::around_reply(
            *trust,
            reference::tolerant_target(req.path@, *a),
            req.include_backlinks != Some(false),
            *a,
            x,
        ),
{
    handle(
        graph::vault_links_impl(trust, req, a),
        Ghost(graph::links_gate(*trust, *req, *a)),
    )
}

/// Shows the notes before and after a note.
pub fn vault_trace(
    trust: &TrustContext,
    req: &VaultTraceRequest,
    a: &Answers,
) -> (r: Handled<VaultTraceResponse>)
    ensures
        follows(r, by_status(graph::trace_gate(*trust, *req, *a))),
        r matches Handled::Reply(x) ==> graph::lineage_shown(
            graph::trace_notes(*req, *a),
            x.entries@,
        ),
{
    handle(
        graph::vault_trace_impl(trust, req, a),
        Ghost(graph::trace_gate(*trust, *req, *a)),
    )
}

/// Lets the caller have a context assembled.
pub fn vault_context(
    trust: &TrustContext,
    tenant_id: &Option<String>,
    section: &Option<String>,
    a: &Answers,
) -> (r: Handled<ContextGrant>)
    ensures
        follows(
            r,
            by_status(
                access::access_gate(
                    *trust,
                    rows::opt_text(*tenant_id),
                    *a,
                    AclOp::Read,
                    rows::opt_text(*section),
                    "acl deny"@,
                ),
            ),
        ),
        r matches Handled::Reply(x) ==> graph::context_reply(*trust, *a, x),
{
    handle(
        graph::vault_context_impl(trust, tenant_id, section, a),
        Ghost(
            access::access_gate(
                *trust,
                rows::opt_text(*tenant_id),
                *a,
                AclOp::Read,
                rows::opt_text(*section),
                "acl deny"@,
            ),
        ),
    )
}

/// Lists the authors of the caller's vault.
pub fn vault_authors(
    trust: &TrustContext,
    st: &ListingSettings,
    a: &Answers,
) -> (r: Handled<VaultAuthorsResponse>)
    ensures
        follows(r, by_status(listing::authors_gate(*trust, *st, *a))),
        r matches Handled::Reply(x) ==> listing::authors_reply(a.authors->0->Ok_0@, x),
{
    handle(
        listing::vault_authors_impl(trust, st, a),
        Ghost(listing::authors_gate(*trust, *st, *a)),
    )
}

/// Lists the most frequent tags of the caller's vault.
pub fn vault_tags(
    trust: &TrustContext,
    req: &VaultTagsRequest,
    st: &ListingSettings,
    a: &Answers,
) -> (r: Handled<VaultTagsResponse>)
    ensures
        follows(r, by_status(listing::tags_gate(*trust, *st, *a))),
        r matches Handled::Reply(x) ==> listing::tags_reply(*req, a.tags->0->Ok_0@, x),
{
    handle(
        listing::vault_tags_impl(trust, req, st, a),
        Ghost(listing::tags_gate(*trust, *st, *a)),
    )
}

/// Recalls the lessons of a class.
pub fn lessons_recall(
    trust: &TrustContext,
    req: &LessonsRecallRequest,
    st: &LessonsSettings,
    a: &Answers,
) -> (r: Handled<LessonsRecallResponse>)
    ensures
        follows(r, by_status(lessons::recall_gate(*trust, *req, *st, *a))),
        r matches Handled::Reply(x) ==> lessons::shows_all(
            lessons::recalled_lessons(*req, *a),
            x.items@,
        ),
{
    handle(
        lessons::lessons_recall_impl(trust, req, st, a),
        Ghost(lessons::recall_gate(*trust, *req, *st, *a)),
    )
}

// ── Versions ────────────────────────────────────────────────────────────────

/// Lists the moments of the versions of a note.
pub fn vault_history(
    trust: &TrustContext,
    req: &VaultHistoryRequest,
    a: &Answers,
) -> (r: Handled<VaultHistoryResponse>)
    ensures
        follows(r, by_history_status(history::history_gate(*trust, *req, *a))),
        r matches Handled::Reply(x) ==> history::history_reply(*a, x),
{
    handle_history(
        history::vault_history_impl(trust, req, a),
        Ghost(history::history_gate(*trust, *req, *a)),
    )
}

/// Shows one version of a note.
pub fn vault_history_get(
    trust: &TrustContext,
    req: &VaultHistoryGetRequest,
    a: &Answers,
) -> (r: Handled<VaultHistoryGetResponse>)
    ensures
        follows(r, by_history_status(history::version_gate(*trust, *req, *a))),
        r matches Handled::Reply(x) ==> history::version_reply(*req, *a, x),
{
    handle_history(
        history::vault_history_get_impl(trust, req, a),
        Ghost(history::version_gate(*trust, *req, *a)),
    )
}

/// Brings a version of a note back.
pub fn vault_restore(
    trust: &TrustContext,
    req: &VaultRestoreRequest,
    a: &Answers,
) -> (r: Handled<VaultRestoreResponse>)
    ensures
        follows(r, by_history_status(history::restore_gate(*trust, *req, *a))),
        r matches Handled::Reply(x) ==> history::restore_reply(*req, *a, x),
{
    handle_history(
        history::vault_restore_impl(trust, req, a),
        Ghost(history::restore_gate(*trust, *req, *a)),
    )
}

/// Compares two versions of a note.
pub fn vault_diff(
    trust: &TrustContext,
    req: &VaultDiffRequest,
    a: &Answers,
) -> (r: Handled<VaultDiffResponse>)
    ensures
        follows(r, by_history_status(history::diff_gate(*trust, *req, *a))),
        r matches Handled::Reply(x) ==> history::diff_reply(*a, x),
{
    handle_history(
        history::vault_diff_impl(trust, req, a),
        Ghost(history::diff_gate(*trust, *req, *a)),
    )
}

// ── Cards ───────────────────────────────────────────────────────────────────

/// The next step of the creation of a card that is answered over HTTP.
#[derive(Debug)]
pub enum CardHandled {
    Ask(Ask),
    /// A question about the write of the numbered card.
    Write(Ask),
    Refuse(StatusCode, Option<Audit>),
    Reply(StatusCode, CreateFeatureCardResponse),
}

/// Creates a card. The number is given at once, the card is written later.
pub fn create_feature(
    trust: &TrustContext,
    req: &CreateFeatureCardRequest,
    fresh: &NoteId,
    a: &Answers,
    w: &Answers,
) -> (r: CardHandled)
    ensures
        exists|n: CardNext|
            {
                &&& #[trigger] cards::card_follows(n, *trust, *req, *fresh, *a, *w)
                &&& match n {
                    CardNext::Ask(q) => r == CardHandled::Ask(q),
                    CardNext::Write(q) => r == CardHandled::Write(q),
                    CardNext::Fail(d) => r == CardHandled::Refuse(
                        error::refusal_status(d.error@),
                        d.audit,
                    ),
                    CardNext::Reply(x) => r == CardHandled::Reply(StatusCode::Success, x),
                }
            },
{
    let n = cards::create_feature_card_impl(trust, req, fresh, a, w);
    assert(cards::card_follows(n, *trust, *req, *fresh, *a, *w));
    match n {
        CardNext::Ask(q) => CardHandled::Ask(q),
        CardNext::Write(q) => CardHandled::Write(q),
        CardNext::Fail(d) => CardHandled::Refuse(error::err_to_status(&d.error), d.audit),
        CardNext::Reply(x) => CardHandled::Reply(StatusCode::Success, x),
    }
}

// ── Laws ────────────────────────────────────────────────────────────────────

/// Over HTTP nothing is let through, refused or asked that the operation itself does not let
/// through, refuse or ask.
pub proof fn the_gate_is_that_of_the_operation(g: Gate)
    ensures
        by_status(g) is Pass <==> g is Pass,
        by_history_status(g) is Pass <==> g is Pass,
        g matches Gate::Ask(q) ==> by_status(g) == HandledGate::Ask(q) && by_history_status(g)
            == HandledGate::Ask(q),
        g is Fail ==> by_status(g) is Refuse && by_history_status(g) is Refuse,
{
}

}
