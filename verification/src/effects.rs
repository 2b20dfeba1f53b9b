//! What changes anything, and what has to hold before it does.

use vstd::prelude::*;

use crate::access;
use crate::capture;
use crate::cards::{self, CreateFeatureCardRequest};
use crate::code_scope::{self, CodeScopeRequest, CodeSettings};
use crate::dashboard;
use crate::delete::{self, VaultDeleteRequest};
use crate::door::{self, HttpGate};
use crate::dto::{VaultListRequest, VaultReadRequest};
use crate::event_log::{self, IngestGate, QaEvent};
use crate::flow::{Answers, Gate, Question};
use crate::forget::{self, ForgetSettings, ForgottenListQuery, VaultForgetRequest};
use crate::graph::{self, VaultGraphRequest, VaultLinksRequest, VaultTraceRequest};
use crate::history::{
    self, VaultClassifyRequest, VaultDiffRequest, VaultHistoryGetRequest, VaultHistoryRequest,
    VaultRestoreRequest,
};
use crate::ids::NoteId;
use crate::jobs::{self, CreateJobRequest, JobListQuery, JobsSettings};
use crate::lessons::{self, LessonsRecallRequest, LessonsSettings};
use crate::listing::{self, ListingSettings, VaultArchivesListRequest};
use crate::notes::{self, NoteStatusPatch, VaultDowngradeRequest};
use crate::progress;
use crate::project_map::{self, ScanState};
use crate::read;
use crate::review::{self, ReviewQueueQuery};
use crate::rows;
use crate::timeline::{self, VaultTimelineRequest};
use crate::trust::TrustContext;
use crate::writing::{self, FeatureWriteAuthority, VaultWriteRequest};

verus! {

/// Whether answering `q` changes a vault, the queue or a log. The counters of uses are apart: what
/// they count stands in `usage`.
pub open spec fn changes(q: Question) -> bool {
    match q {
        Question::EnqueueWrite { .. } => true,
        Question::NoteDrift { .. } => true,
        Question::NoteWrite { .. } => true,
        Question::InsertEvents { .. } => true,
        Question::Restore { .. } => true,
        Question::Downgrade { .. } => true,
        Question::ChangeStatus { .. } => true,
        Question::PatchNote { .. } => true,
        Question::AddTags { .. } => true,
        Question::MoveNote { .. } => true,
        Question::AllocateFeature { .. } => true,
        Question::Tombstone { .. } => true,
        Question::Archive { .. } => true,
        Question::PurgeIndex { .. } => true,
        Question::PurgeRedirect { .. } => true,
        Question::Enqueue { .. } => true,
        Question::Unforget { .. } => true,
        Question::CancelJob { .. } => true,
        Question::StoreKey { .. } => true,
        Question::ProactiveFeedback { .. } => true,
        _ => false,
    }
}

/// Whether a step leaves vaults, queue and logs as they are.
pub open spec fn looks_only(g: Gate) -> bool {
    g matches Gate::Ask(q) ==> !changes(q)
}

/// Whether a step leaves vaults, queue and logs as they are.
pub open spec fn door_looks_only(g: HttpGate) -> bool {
    g matches HttpGate::Ask(q) ==> !changes(q)
}

/// Whether the caller has a credential and the access rules allow what it asks for.
pub open spec fn allowed(trust: TrustContext, a: Answers) -> bool {
    trust.authenticated() && a.acl == Some(true)
}

/// Whether a step changes something only when the caller is allowed to.
pub open spec fn keeps_to_the_rules(g: Gate, trust: TrustContext, a: Answers) -> bool {
    g matches Gate::Ask(q) ==> (changes(q) ==> allowed(trust, a))
}

/// Whether a step changes something only when the caller is allowed to.
pub open spec fn door_keeps_to_the_rules(g: HttpGate, trust: TrustContext, a: Answers) -> bool {
    g matches HttpGate::Ask(q) ==> (changes(q) ==> allowed(trust, a))
}

/// Whether a step changes something only when the caller is allowed to.
pub open spec fn intake_keeps_to_the_rules(
    g: IngestGate,
    trust: TrustContext,
    a: Answers,
) -> bool {
    g matches IngestGate::Ask(q) ==> (changes(q) ==> allowed(trust, a))
}

/// Reading a note, listing a vault and following links leave vaults, queue and logs as they are.
pub proof fn reading_only_looks(
    trust: TrustContext,
    note: VaultReadRequest,
    list: VaultListRequest,
    archived: VaultArchivesListRequest,
    around: VaultGraphRequest,
    links: VaultLinksRequest,
    lineage: VaultTraceRequest,
    st: ListingSettings,
    a: Answers,
)
    ensures
        looks_only(read::read_gate(trust, note, a)),
        looks_only(listing::list_gate(trust, list, a)),
        looks_only(listing::archives_gate(trust, archived, st, a)),
        looks_only(listing::status_gate(trust, st, a)),
        looks_only(listing::authors_gate(trust, st, a)),
        looks_only(listing::tags_gate(trust, st, a)),
        looks_only(graph::graph_gate(trust, around, a)),
        looks_only(graph::links_gate(trust, links, a)),
        looks_only(graph::trace_gate(trust, lineage, a)),
{
    let t = access::tenant_of(a);
    progress::seeds_guard_asks_nothing(trust, t, graph::seeds(lineage, a), a.titles->0, 0);
}

/// A timeline, a recall of lessons, and listing, showing and comparing versions leave vaults,
/// queue and logs as they are; so does asking where a note would be filed.
pub proof fn looking_back_only_looks(
    trust: TrustContext,
    moments: VaultTimelineRequest,
    multi_tenant: bool,
    class: LessonsRecallRequest,
    classes: LessonsSettings,
    list: VaultHistoryRequest,
    show: VaultHistoryGetRequest,
    diff: VaultDiffRequest,
    file: VaultClassifyRequest,
    a: Answers,
)
    ensures
        looks_only(timeline::timeline_gate(trust, moments, multi_tenant, a)),
        looks_only(lessons::recall_gate(trust, class, classes, a)),
        looks_only(history::history_gate(trust, list, a)),
        looks_only(history::version_gate(trust, show, a)),
        looks_only(history::diff_gate(trust, diff, a)),
        looks_only(history::classify_gate(trust, file, a)),
{
}

/// Looking at jobs, at code, at cards, at forgotten notes, at the notes to judge and at the
/// dashboard leaves vaults, queue and logs as they are.
pub proof fn overviews_only_look(
    trust: TrustContext,
    list: JobListQuery,
    id: Seq<char>,
    number: i64,
    st: JobsSettings,
    code: CodeScopeRequest,
    budget: CodeSettings,
    scan: ScanState,
    forgotten: ForgottenListQuery,
    forgetting: ForgetSettings,
    judged: ReviewQueueQuery,
    a: Answers,
)
    ensures
        door_looks_only(jobs::list_gate(trust, list, st, a)),
        door_looks_only(
            door::chain(jobs::look_gate(trust, a), jobs::one_job_gate(trust, id, st, a)),
        ),
        door_looks_only(door::chain(jobs::resolve_gate(a), jobs::one_job_gate(trust, id, st, a))),
        door_looks_only(jobs::numbered_gate(trust, number, a)),
        looks_only(code_scope::scope_tool_gate(trust, code, budget, a)),
        door_looks_only(code_scope::scope_http_gate(trust, code, budget, a)),
        door_looks_only(project_map::map_gate(trust, scan, a)),
        door_looks_only(forget::forgotten_gate(trust, forgotten, forgetting, a)),
        door_looks_only(review::review_gate(trust, judged, a)),
        door_looks_only(dashboard::dashboard_gate(trust, a)),
{
}

/// What a deletion or the forgetting of notes would do is shown without doing any of it.
pub proof fn a_preview_only_looks(
    trust: TrustContext,
    deletion: VaultDeleteRequest,
    gc_due_ms: int,
    forgetting: VaultForgetRequest,
    st: ForgetSettings,
    id: NoteId,
    now_ms: i64,
    a: Answers,
)
    requires
        deletion.dry_run,
        forgetting.dry_run,
    ensures
        looks_only(delete::delete_gate(trust, deletion, gc_due_ms, a)),
        looks_only(forget::forget_gate(trust, forgetting, st, id, now_ms, a)),
        door_looks_only(forget::forget_http_gate(trust, forgetting, st, id, now_ms, a)),
{
}

/// A note is written, numbered, restored, taken out of service, patched or moved only for a caller
/// with a credential whom the access rules allow it.
pub proof fn notes_change_by_right(
    trust: TrustContext,
    write: VaultWriteRequest,
    authority: FeatureWriteAuthority,
    fresh: NoteId,
    card: CreateFeatureCardRequest,
    back: VaultRestoreRequest,
    down: VaultDowngradeRequest,
    id: Seq<char>,
    body: NoteStatusPatch,
    locus: Seq<char>,
    multi_tenant: bool,
    a: Answers,
)
    ensures
        keeps_to_the_rules(writing::write_gate(trust, write, authority, fresh, a), trust, a),
        keeps_to_the_rules(cards::number_gate(trust, card, a), trust, a),
        keeps_to_the_rules(history::restore_gate(trust, back, a), trust, a),
        keeps_to_the_rules(notes::downgrade_gate(trust, down, a), trust, a),
        keeps_to_the_rules(notes::patch_gate(trust, id, body, multi_tenant, a), trust, a),
        keeps_to_the_rules(notes::move_gate(trust, id, locus, multi_tenant, a), trust, a),
{
}

/// Notes are forgotten or taken back, jobs created or cancelled, and batches taken in only for a
/// caller with a credential whom the access rules allow it.
pub proof fn jobs_and_batches_change_by_right(
    trust: TrustContext,
    forgetting: VaultForgetRequest,
    ulid: Seq<char>,
    st: ForgetSettings,
    key: Option<Seq<char>>,
    body: CreateJobRequest,
    canceled: Seq<char>,
    queue: JobsSettings,
    events: Seq<QaEvent>,
    wired: bool,
    lines: Seq<Seq<char>>,
    taken: int,
    request_id: Seq<char>,
    id: NoteId,
    now_ms: i64,
    a: Answers,
)
    ensures
        keeps_to_the_rules(forget::forget_gate(trust, forgetting, st, id, now_ms, a), trust, a),
        door_keeps_to_the_rules(
            forget::forget_http_gate(trust, forgetting, st, id, now_ms, a),
            trust,
            a,
        ),
        door_keeps_to_the_rules(forget::unforgot_gate(trust, ulid, st, a), trust, a),
        door_keeps_to_the_rules(
            door::chain(
                jobs::create_right_gate(trust, queue, a),
                jobs::create_work_gate(trust, key, body, queue, id, now_ms, a),
            ),
            trust,
            a,
        ),
        door_keeps_to_the_rules(jobs::cancel_gate(trust, canceled, queue, a), trust, a),
        intake_keeps_to_the_rules(
            event_log::event_log_gate(trust, events, wired, request_id, a),
            trust,
            a,
        ),
        intake_keeps_to_the_rules(
            capture::capture_gate(trust, lines, taken, id, now_ms, request_id, a),
            trust,
            a,
        ),
{
    assert(a.acl is Some ==> a.acl == Some(true) || a.acl == Some(false));
}

/// A deletion changes something only for a caller with a credential who may write to the vault, and
/// only when it is confirmed; no access rule is asked, for the operator stands above them.
pub proof fn a_deletion_is_the_operators(
    trust: TrustContext,
    req: VaultDeleteRequest,
    gc_due_ms: int,
    a: Answers,
)
    ensures
        delete::delete_gate(trust, req, gc_due_ms, a) matches Gate::Ask(q) ==> (changes(q) ==> {
            &&& trust.authenticated()
            &&& a.write_vault matches Some(Ok(_))
            &&& delete::confirmed(req)
            &&& !req.dry_run
        }),
        !(delete::delete_gate(trust, req, gc_due_ms, a) matches Gate::Ask(Question::Acl { .. })),
{
}

/// Whether a text is written only when it was given, and then as it was given.
pub open spec fn given(written: Option<Seq<char>>, named: Option<String>) -> bool {
    written is Some ==> written == rows::opt_text(named)
}

/// A patch changes only what it names: the status, the reason, the replacement and the tags each
/// when it gives one, and a reason as it was given.
pub proof fn a_patch_touches_what_it_names(
    trust: TrustContext,
    id: Seq<char>,
    body: NoteStatusPatch,
    multi_tenant: bool,
    a: Answers,
)
    ensures
        notes::patch_gate(trust, id, body, multi_tenant, a) matches Gate::Ask(q) ==> match q {
            Question::ChangeStatus { reason, .. } => body.status is Some && given(
                reason,
                body.status_reason,
            ),
            Question::PatchNote { reason, replaced_by, .. } => given(reason, body.status_reason)
                && (replaced_by is Some ==> body.replaced_by is Some),
            Question::AddTags { .. } => body.add_tags is Some,
            _ => !changes(q),
        },
        notes::patch_door(id, body, a) matches HttpGate::Ask(q) ==> match q {
            Question::ChangeStatus { reason, .. } => body.status is Some && given(
                reason,
                body.status_reason,
            ),
            Question::PatchNote { reason, replaced_by, .. } => given(reason, body.status_reason)
                && (replaced_by is Some ==> body.replaced_by is Some),
            Question::AddTags { .. } => body.add_tags is Some,
            _ => !changes(q),
        },
{
}

}
