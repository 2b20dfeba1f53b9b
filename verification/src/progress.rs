//! Every operation comes to an end: what it asks has not been answered yet.
//!
//! Each question has its place among the answers. An operation that asks a question whose place
//! is empty gets one step closer to its reply each time it is run, and there are only so many
//! places.

use vstd::prelude::*;

use crate::access;
use crate::capture;
use crate::cards::{self, CreateFeatureCardRequest};
use crate::code_scope::{self, CodeScopeRequest, CodeSettings};
use crate::dashboard;
use crate::delete::{self, VaultDeleteRequest};
use crate::door::{self, HttpGate};
use crate::dto::{VaultListRequest, VaultReadRequest, VaultSearchRequest};
use crate::error::GradatumError;
use crate::event_log::{self, IngestGate, QaEvent};
use crate::flow::{AclOp, Answers, Gate, Question};
use crate::forget::{self, ForgetSettings, ForgottenListQuery, VaultForgetRequest};
use crate::graph::{self, VaultGraphRequest, VaultLinksRequest, VaultTraceRequest};
use crate::history::{
    self, VaultClassifyRequest, VaultDiffRequest, VaultHistoryGetRequest, VaultHistoryRequest,
    VaultRestoreRequest,
};
use crate::ids::NoteId;
use crate::jobs::{self, CreateJobRequest, JobListQuery, JobsSettings};
use crate::lessons::{self, LessonsRecallRequest, LessonsSettings};
use crate::listing::{self, ListingSettings, VaultArchivesListRequest};
use crate::notes::{self, MoveLocusRequest, NoteStatusPatch, VaultDowngradeRequest};
use crate::project_map::{self, ScanState};
use crate::read;
use crate::review::{self, ReviewQueueQuery};
use crate::rows::TitleSection;
use crate::search::{self, SearchAnswers, SearchGate, SearchQuestion, SearchSettings};
use crate::timeline::{self, VaultTimelineRequest};
use crate::trust::TrustContext;
use crate::writing::{self, FeatureWriteAuthority, VaultWriteRequest};

verus! {

/// Whether `q` has not been answered.
pub open spec fn unanswered(q: Question, a: Answers) -> bool {
    match q {
        Question::Tenant { .. } => a.tenant is None,
        Question::WriteVault { .. } => a.write_vault is None,
        Question::ReadVault { .. } => a.read_vault is None,
        Question::ReadGrant { .. } => a.read_grant is None,
        Question::WriteGrant { .. } => a.write_grant is None,
        Question::Acl { .. } => a.acl is None,
        Question::TitleLookup { .. } => a.title is None,
        Question::Redirect { .. } => a.redirect is None,
        Question::ReadNote { .. } => a.note is None,
        Question::TitlesSections { .. } => a.titles is None,
        Question::Statuses { .. } => a.statuses is None,
        Question::ListNotes { .. } => a.notes is None,
        Question::Archives { .. } => a.archives is None,
        Question::LiveCount { .. } => a.live_count is None,
        Question::BodySize { .. } => a.body_size is None,
        Question::LastIndexed { .. } => a.last_indexed is None,
        Question::Authors { .. } => a.authors is None,
        Question::Tags { .. } => a.tags is None,
        Question::Neighbors { .. } => a.neighbors is None,
        Question::Backlinks { .. } => a.backlinks is None,
        Question::Seeds { .. } => a.seeds is None,
        Question::Lineages { .. } => a.lineages is None,
        Question::DecodeCursor { .. } => a.cursor is None,
        Question::Timeline { .. } => a.timeline is None,
        Question::EncodeCursor { .. } => a.next_cursor is None,
        Question::NoteInTenant { .. } => a.in_tenant is None,
        Question::NoteIndexed { .. } => a.indexed is None,
        Question::EnqueueWrite { .. } => a.enqueued is None,
        Question::CategoryDrift { .. } => a.drift is None,
        Question::NoteDrift { .. } => a.drift_noted is None,
        Question::NoteWrite { .. } => a.write_noted is None,
        Question::FollowingNotes { .. } => a.following is None,
        Question::InsertEvents { .. } => a.events_inserted is None,
        Question::Curate { .. } => a.curated is None,
        Question::Versions { .. } => a.versions is None,
        Question::Snapshot { .. } => a.snapshot is None,
        Question::Restore { .. } => a.restored is None,
        Question::Diff { .. } => a.diff is None,
        Question::Retrieve { .. } => a.retrieved is None,
        Question::Hydrate { .. } => a.hydrated is None,
        Question::Recall { .. } => a.recalled is None,
        Question::RecencyRanks { .. } => a.recency is None,
        Question::Downgrade { .. } => a.done is None,
        Question::ChangeStatus { .. } => a.done is None,
        Question::PatchNote { .. } => a.patched is None,
        Question::AddTags { .. } => a.tags_added is None,
        Question::CheckTags { .. } => a.tags_valid is None,
        Question::CheckLocus { .. } => a.locus_valid is None,
        Question::MoveNote { .. } => a.done is None,
        Question::AllocateFeature { .. } => a.feature is None,
        Question::CheckCard { .. } => a.card is None,
        Question::CheckSoul { .. } => a.soul is None,
        Question::FeatureRoles { .. } => a.roles is None,
        Question::CheckSha { .. } => a.sha_valid is None,
        Question::CheckMoment { .. } => a.moment_valid is None,
        Question::Wikilinks { .. } => a.links is None,
        Question::IndexedNote { .. } => a.indexed_note is None,
        Question::Tombstone { .. } => a.tombstone is None,
        Question::Archive { .. } => a.archived is None,
        Question::PurgeIndex { .. } => a.purged is None,
        Question::PurgeRedirect { .. } => a.redirect_purged is None,
        Question::ForgetTopic { .. } => a.candidates is None,
        Question::ForgetLocus { .. } => a.candidates is None,
        Question::ForgetAgent { .. } => a.candidates is None,
        Question::Enqueue { .. } => a.enqueued is None,
        Question::ListForgotten { .. } => a.forgotten is None,
        Question::CountForgotten { .. } => a.forgotten_count is None,
        Question::Unforget { .. } => a.done is None,
        Question::ResolveRead { .. } => a.resolved is None,
        Question::GetJob { .. } => a.job is None,
        Question::ListJobs { .. } => a.jobs is None,
        Question::CancelJob { .. } => a.done is None,
        Question::WriteScope { .. } => a.write_scope is None,
        Question::KnownKey { .. } => a.known_key is None,
        Question::StoreKey { .. } => a.key_stored is None,
        Question::NumberedJob { .. } => a.numbered_job is None,
        Question::CodeRepo { .. } => a.code_repo is None,
        Question::CodeQuery { .. } => a.code is None,
        Question::CodeRanks { .. } => a.code_ranks is None,
        Question::CodeRoot { .. } => a.code_root is None,
        Question::CodeHashes { .. } => a.code_hashes is None,
        Question::CodeSources { .. } => a.code_sources is None,
        Question::CodeCallers { .. } => a.code_callers is None,
        Question::MapPage { .. } => a.map_page is None,
        Question::ReviewQueue { .. } => a.review is None,
        Question::ReviewCount { .. } => a.review_count is None,
        Question::StatusCounts { .. } => a.status_counts is None,
        Question::JobCounts { .. } => a.job_counts is None,
        Question::WalSize { .. } => a.wal_size is None,
        Question::LatestJob { .. } => a.latest_job is None,
        Question::ProactiveRecall { .. } => a.proactive is None,
        Question::ProactiveFeedback { .. } => a.done is None,
        Question::CheckLinks { .. } => a.links_valid is None,
    }
}

/// Whether `q` has not been answered.
pub open spec fn search_unanswered(q: SearchQuestion, a: SearchAnswers) -> bool {
    match q {
        SearchQuestion::Tenant { .. } => a.tenant is None,
        SearchQuestion::AclRead { .. } => a.acl is None,
        SearchQuestion::ReadVault { .. } => a.read_vault is None,
        SearchQuestion::Lexical { .. } => a.lexical is None,
        SearchQuestion::Semantic { .. } => a.semantic is None,
        SearchQuestion::SemanticSections { .. } => a.semantic_sections is None,
        SearchQuestion::SemanticStatuses { .. } => a.semantic_statuses is None,
        SearchQuestion::Anchors { .. } => a.anchors is None,
        SearchQuestion::Fuse { .. } => a.fused is None,
        SearchQuestion::FusedSections { .. } => a.fused_sections is None,
        SearchQuestion::Rank { .. } => a.ranks is None,
        SearchQuestion::Rerank { .. } => a.reranked is None,
        SearchQuestion::HitTitles { .. } => a.hit_titles is None,
        SearchQuestion::HitStatuses { .. } => a.hit_statuses is None,
        SearchQuestion::Corpus { .. } => a.corpus is None,
    }
}

/// Whether a step asks nothing that was answered.
pub open spec fn goes_on(g: Gate, a: Answers) -> bool {
    g matches Gate::Ask(q) ==> unanswered(q, a)
}

/// Whether a step asks nothing that was answered.
pub open spec fn door_goes_on(g: HttpGate, a: Answers) -> bool {
    g matches HttpGate::Ask(q) ==> unanswered(q, a)
}

/// Whether a step asks nothing that was answered.
pub open spec fn intake_goes_on(g: IngestGate, a: Answers) -> bool {
    g matches IngestGate::Ask(q) ==> unanswered(q, a)
}

/// A search asks nothing twice.
pub proof fn search_comes_to_an_end(
    trust: TrustContext,
    req: VaultSearchRequest,
    st: SearchSettings,
    a: SearchAnswers,
)
    ensures
        search::search_gate(trust, req, st, a) matches SearchGate::Ask(q) ==> search_unanswered(q, a),
{
}

/// Reading a note asks nothing twice.
pub proof fn reading_comes_to_an_end(
    trust: TrustContext,
    req: VaultReadRequest,
    a: Answers,
)
    ensures
        goes_on(read::read_gate(trust, req, a), a),
{
}

/// Listing a vault, its archive, its authors, its tags or its state asks nothing twice.
pub proof fn listing_comes_to_an_end(
    trust: TrustContext,
    req: VaultListRequest,
    archived: VaultArchivesListRequest,
    st: ListingSettings,
    a: Answers,
)
    ensures
        goes_on(listing::list_gate(trust, req, a), a),
        goes_on(listing::archives_gate(trust, archived, st, a), a),
        goes_on(listing::status_gate(trust, st, a), a),
        goes_on(listing::authors_gate(trust, st, a), a),
        goes_on(listing::tags_gate(trust, st, a), a),
{
}

/// Guarding the notes of a lineage asks nothing.
pub proof fn seeds_guard_asks_nothing(
    trust: TrustContext,
    tenant: Seq<char>,
    list: Seq<Seq<char>>,
    titles: Result<Vec<TitleSection>, GradatumError>,
    k: int,
)
    ensures
        !(graph::seeds_guard(trust, tenant, list, titles, k) is Ask),
    decreases list.len() - k,
{
    if 0 <= k < list.len() {
        seeds_guard_asks_nothing(trust, tenant, list, titles, k + 1);
    }
}

/// Following the links of a note or its lineage asks nothing twice.
pub proof fn following_links_comes_to_an_end(
    trust: TrustContext,
    around: VaultGraphRequest,
    links: VaultLinksRequest,
    lineage: VaultTraceRequest,
    a: Answers,
)
    ensures
        goes_on(graph::graph_gate(trust, around, a), a),
        goes_on(graph::links_gate(trust, links, a), a),
        goes_on(graph::trace_gate(trust, lineage, a), a),
{
    let t = access::tenant_of(a);
    seeds_guard_asks_nothing(trust, t, graph::seeds(lineage, a), a.titles->0, 0);
}

/// The right to an operation is asked for once.
pub proof fn entry_comes_to_an_end(
    trust: TrustContext,
    requested: Option<Seq<char>>,
    op: AclOp,
    section: Option<Seq<char>>,
    deny: Seq<char>,
    a: Answers,
)
    ensures
        goes_on(access::access_gate(trust, requested, a, op, section, deny), a),
{
}

/// A timeline asks nothing twice.
pub proof fn timeline_comes_to_an_end(
    trust: TrustContext,
    req: VaultTimelineRequest,
    multi_tenant: bool,
    a: Answers,
)
    ensures
        goes_on(timeline::timeline_gate(trust, req, multi_tenant, a), a),
{
}

/// A recall of lessons asks nothing twice.
pub proof fn recall_comes_to_an_end(
    trust: TrustContext,
    req: LessonsRecallRequest,
    st: LessonsSettings,
    a: Answers,
)
    ensures
        goes_on(lessons::recall_gate(trust, req, st, a), a),
{
}

/// A write asks nothing twice.
pub proof fn writing_comes_to_an_end(
    trust: TrustContext,
    req: VaultWriteRequest,
    authority: FeatureWriteAuthority,
    fresh: NoteId,
    a: Answers,
)
    ensures
        goes_on(writing::write_gate(trust, req, authority, fresh, a), a),
{
}

/// The number of a new card is asked for once.
pub proof fn numbering_comes_to_an_end(
    trust: TrustContext,
    req: CreateFeatureCardRequest,
    a: Answers,
)
    ensures
        goes_on(cards::number_gate(trust, req, a), a),
{
}

/// A deletion asks nothing twice.
pub proof fn deletion_comes_to_an_end(
    trust: TrustContext,
    req: VaultDeleteRequest,
    gc_due_ms: int,
    a: Answers,
)
    ensures
        goes_on(delete::delete_gate(trust, req, gc_due_ms, a), a),
{
}

/// Forgetting, taking it back and listing what was forgotten ask nothing twice.
pub proof fn forgetting_comes_to_an_end(
    trust: TrustContext,
    req: VaultForgetRequest,
    list: ForgottenListQuery,
    ulid: Seq<char>,
    st: ForgetSettings,
    id: NoteId,
    now_ms: i64,
    a: Answers,
)
    ensures
        goes_on(forget::forget_gate(trust, req, st, id, now_ms, a), a),
        door_goes_on(forget::forget_http_gate(trust, req, st, id, now_ms, a), a),
        door_goes_on(forget::forgotten_gate(trust, list, st, a), a),
        door_goes_on(forget::unforgot_gate(trust, ulid, st, a), a),
{
}

/// Looking at jobs asks nothing twice.
pub proof fn looking_at_jobs_comes_to_an_end(
    trust: TrustContext,
    list: JobListQuery,
    id: Seq<char>,
    number: i64,
    st: JobsSettings,
    a: Answers,
)
    ensures
        door_goes_on(jobs::list_gate(trust, list, st, a), a),
        door_goes_on(
            door::chain(jobs::look_gate(trust, a), jobs::one_job_gate(trust, id, st, a)),
            a,
        ),
        door_goes_on(
            door::chain(jobs::resolve_gate(a), jobs::one_job_gate(trust, id, st, a)),
            a,
        ),
        door_goes_on(jobs::numbered_gate(trust, number, a), a),
{
}

/// Creating or cancelling a job asks nothing twice.
pub proof fn changing_jobs_comes_to_an_end(
    trust: TrustContext,
    key: Option<Seq<char>>,
    body: CreateJobRequest,
    canceled: Seq<char>,
    st: JobsSettings,
    id: NoteId,
    now_ms: i64,
    a: Answers,
)
    ensures
        door_goes_on(
            door::chain(
                jobs::create_right_gate(trust, st, a),
                jobs::create_work_gate(trust, key, body, st, id, now_ms, a),
            ),
            a,
        ),
        door_goes_on(jobs::cancel_gate(trust, canceled, st, a), a),
{
}

/// Looking at code asks nothing twice.
pub proof fn looking_at_code_comes_to_an_end(
    trust: TrustContext,
    req: CodeScopeRequest,
    st: CodeSettings,
    a: Answers,
)
    ensures
        goes_on(code_scope::scope_tool_gate(trust, req, st, a), a),
        door_goes_on(code_scope::scope_http_gate(trust, req, st, a), a),
{
}

/// Listing, showing, comparing and bringing back versions, and filing a note, ask nothing twice.
pub proof fn history_comes_to_an_end(
    trust: TrustContext,
    list: VaultHistoryRequest,
    show: VaultHistoryGetRequest,
    back: VaultRestoreRequest,
    diff: VaultDiffRequest,
    file: VaultClassifyRequest,
    a: Answers,
)
    ensures
        goes_on(history::history_gate(trust, list, a), a),
        goes_on(history::version_gate(trust, show, a), a),
        goes_on(history::restore_gate(trust, back, a), a),
        goes_on(history::diff_gate(trust, diff, a), a),
        goes_on(history::classify_gate(trust, file, a), a),
{
}

/// Taking a note out of service, patching it and moving it ask nothing twice.
pub proof fn changing_notes_comes_to_an_end(
    trust: TrustContext,
    down: VaultDowngradeRequest,
    id: Seq<char>,
    body: NoteStatusPatch,
    locus: Seq<char>,
    multi_tenant: bool,
    a: Answers,
)
    ensures
        goes_on(notes::downgrade_gate(trust, down, a), a),
        goes_on(notes::patch_gate(trust, id, body, multi_tenant, a), a),
        goes_on(notes::move_gate(trust, id, locus, multi_tenant, a), a),
{
}

/// The doors of the private network ask nothing twice.
pub proof fn the_inner_doors_come_to_an_end(
    down: VaultDowngradeRequest,
    id: Seq<char>,
    body: NoteStatusPatch,
    moved: MoveLocusRequest,
    a: Answers,
)
    ensures
        door_goes_on(notes::downgrade_door(down, a), a),
        door_goes_on(notes::patch_door(id, body, a), a),
        door_goes_on(notes::move_door(id, moved, a), a),
{
}

/// Taking in events or lines asks nothing twice.
pub proof fn intake_comes_to_an_end(
    trust: TrustContext,
    events: Seq<QaEvent>,
    wired: bool,
    lines: Seq<Seq<char>>,
    taken: int,
    fresh: NoteId,
    now_ms: i64,
    request_id: Seq<char>,
    a: Answers,
)
    ensures
        intake_goes_on(event_log::event_log_gate(trust, events, wired, request_id, a), a),
        intake_goes_on(
            capture::capture_gate(trust, lines, taken, fresh, now_ms, request_id, a),
            a,
        ),
{
}

/// A page of cards, the notes to judge and the dashboard ask nothing twice.
pub proof fn overviews_come_to_an_end(
    trust: TrustContext,
    scan: ScanState,
    q: ReviewQueueQuery,
    a: Answers,
)
    ensures
        door_goes_on(project_map::map_gate(trust, scan, a), a),
        door_goes_on(review::review_gate(trust, q, a), a),
        door_goes_on(dashboard::dashboard_gate(trust, a), a),
{
}

}
