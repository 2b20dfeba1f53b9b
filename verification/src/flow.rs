//! How an operation runs: a pure step that looks at what has been answered so far and either
//! asks the next question, refuses, or replies.
//!
//! An operation never performs I/O. It is called with the answers that are known, starting
//! with none; whoever runs it answers the question that it asks and calls it again.

use vstd::prelude::*;

use crate::error::{GradatumError, Refusal, StatusCode};
use crate::event_log::{self, EventModel, QaEvent};
use crate::ids::NoteId;
use crate::queue::{
    FilterModel, JobCount, JobFilter, JobRecord, LatestJob, NumberedJob, RecordModel,
};
use crate::rows::{
    self, ArchiveEntry, Archived, CallersRow, Candidate, CategoryDrift, CodeScopeEntryRaw,
    CurateOutcome, EventLogError, ForgottenRow, IndexedNote, LessonRow, Lineage, MapPage, NamedCount, NotePage,
    PathHash, Retrieval, ReviewRow, SnapshotRow, SourceFile, StatusRow, TimelineRow, TitleSection,
    VaultNote,
};
use crate::text;

verus! {

/// The right that an access rule is asked for.
#[derive(Debug, Clone, Copy, PartialEq, Eq, Structural)]
pub enum AclOp {
    Read,
    Write,
}

/// The optional list of texts by its contents.
pub open spec fn opt_list(o: Option<Vec<String>>) -> Option<Seq<Seq<char>>> {
    match o {
        Some(v) => Some(text::views(v@)),
        None => None,
    }
}

/// A question to the services around the library.
#[allow(inconsistent_fields)]
#[derive(Debug)]
pub enum Ask {
    /// The tenant that the credential acts for, given the one that the request names.
    Tenant { requested: Option<String> },
    /// The vault that the credential may write to, given the tenant that the request names; a
    /// refusal says `deny`.
    WriteVault { requested: Option<String>, deny: String },
    /// The vault that the tenant may read, checked against its grants; a refusal says `deny`.
    ReadVault { tenant: String, vault: Option<String>, section: Option<String>, deny: String },
    /// Whether `principal` was granted to read `section` of `vault`.
    ReadGrant { principal: String, vault: String, section: String },
    /// Whether the credential may write and `tenant` was granted to write to its own vault.
    WriteGrant { tenant: String },
    /// Whether the access rules allow `op` on `locus`.
    Acl { op: AclOp, locus: String },
    /// The note that bears exactly this title.
    TitleLookup { tenant: String, title: String },
    /// The note that the slug of this title redirects to.
    Redirect { tenant: String, title: String },
    /// The note of this identifier, from the vault.
    ReadNote { tenant: String, id: String },
    /// The titles and sections of these notes, from the index.
    TitlesSections { vault: String, ids: Vec<String> },
    /// The statuses of these notes, from the index.
    Statuses { vault: String, ids: Vec<String> },
    /// A page of the notes of a vault, and how many there are in all.
    ListNotes {
        tenant: String,
        section: Option<String>,
        role_kind: Option<String>,
        role_status: Option<String>,
        limit: usize,
        cursor: Option<String>,
    },
    /// The notes of a vault that follow one of a page, with the filters of the page.
    FollowingNotes {
        tenant: String,
        section: Option<String>,
        role_kind: Option<String>,
        role_status: Option<String>,
        limit: usize,
        cursor: String,
    },
    /// A page of the archived notes.
    Archives {
        vault: Option<String>,
        section: Option<String>,
        since_ms: Option<i64>,
        until_ms: Option<i64>,
        include_gc: bool,
        include_restored: bool,
        limit: usize,
        offset: usize,
    },
    /// How many live notes there are.
    LiveCount { tenant: String },
    /// How many bytes the live notes have.
    BodySize { tenant: String },
    /// When a live note was last indexed.
    LastIndexed { tenant: String },
    /// The authors of a vault.
    Authors { vault: String },
    /// The tags of a vault, the most frequent first.
    Tags { vault: String },
    /// The notes that links lead to from a note, up to a depth.
    Neighbors { tenant: String, id: String, depth: u8 },
    /// The notes that link to a note.
    Backlinks { tenant: String, id: String },
    /// The notes that a query finds.
    Seeds { vault: String, query: String, limit: usize },
    /// The parents and the children of each of these notes.
    Lineages { tenant: String, ids: Vec<String> },
    /// Whether this is a position on the timeline.
    DecodeCursor { cursor: String },
    /// A page of the timeline.
    Timeline {
        vault: String,
        doc_kind: Option<Vec<String>>,
        from_ms: Option<i64>,
        to_ms: Option<i64>,
        limit: usize,
        cursor: Option<String>,
        as_of_ms: Option<i64>,
        include_expired: bool,
    },
    /// The text of a position on the timeline.
    EncodeCursor { anchor_ms: i64, note_id: String },
    /// Whether the index has the note for this tenant.
    NoteInTenant { tenant: String, id: String },
    /// Whether the index of the vault has the note.
    NoteIndexed { tenant: String, id: String },
    /// A place in the queue for the write of a note.
    EnqueueWrite {
        tenant: String,
        note_id: String,
        author: String,
        title: String,
        body: String,
        tags: Vec<String>,
        section_hint: Option<String>,
        occurred_at: Option<String>,
        expected_sha256: Option<String>,
    },
    /// What speaks against this section hint and these tags for a note of this title.
    CategoryDrift { title: String, section_hint: Option<String>, tags: Vec<String> },
    /// Warns of a title that is at odds with the section hint and the tags: counts the rule that
    /// tells so, and keeps the trace.
    NoteDrift {
        rule: String,
        category: String,
        expected_section: String,
        actual_section: Option<String>,
        title: String,
        trace: Audit,
    },
    /// Keeps the trace of a write that is queued as this job.
    NoteWrite { job_id: String, trace: Audit },
    /// Appends these events, all of them or none.
    InsertEvents { tenant: String, events: Vec<QaEvent> },
    /// Where the heuristic would file the note.
    Curate { id: String, title: String, body: String, tags: Vec<String> },
    /// The versions of a note.
    Versions { tenant: String, id: String },
    /// One version of a note.
    Snapshot { tenant: String, id: String, ts_ms: i64 },
    /// Brings a version of a note back.
    Restore { vault: String, id: String, ts_ms: i64 },
    /// The lines in which two versions of a note differ.
    Diff { id: String, a: String, b: String },
    /// The lessons that a query finds with both arms.
    Retrieve { vault: String, query: String, section: String, limit: usize },
    /// The lessons of these identifiers.
    Hydrate { vault: String, ids: Vec<String> },
    /// The lessons of a class that the words find.
    Recall { vault: String, class: String, limit: usize },
    /// The ranks of these moments, in this order of relevance, when recency counts.
    RecencyRanks { anchors: Vec<i64> },
    /// Takes a note out of service; of one vault only, when a vault is given.
    Downgrade {
        vault: Option<String>,
        note_id: String,
        reason: String,
        replaced_by: Option<String>,
    },
    /// Moves a note to another status of its life cycle.
    ChangeStatus { vault: Option<String>, note_id: String, status: String, reason: Option<String> },
    /// Writes the reason and the replacement of a note.
    PatchNote {
        vault: Option<String>,
        note_id: String,
        reason: Option<String>,
        replaced_by: Option<String>,
    },
    /// Adds tags to those of a note.
    AddTags { vault: Option<String>, note_id: String, tags: Vec<String> },
    /// Whether each of these is a tag.
    CheckTags { tags: Vec<String> },
    /// Whether this is a locus.
    CheckLocus { locus: String },
    /// Moves the file of a note.
    MoveNote { vault: Option<String>, id: String, locus: String },
    /// The next feature number of a vault.
    AllocateFeature { vault: String },
    /// Whether the links of a body make a card of the project map.
    CheckCard { body: String },
    /// Whether a body has the form of a soul.
    CheckSoul { body: String },
    /// The feature roles that the links of a body carry.
    FeatureRoles { body: String },
    /// Whether this is a SHA-256 in hexadecimal.
    CheckSha { sha: String },
    /// Whether this is a moment in time.
    CheckMoment { moment: String },
    /// The targets of the links of a body.
    Wikilinks { body: String },
    /// The note of this identifier, from the index.
    IndexedNote { vault: String, id: String },
    /// A durable trace of a deletion, from which the note can be recovered.
    Tombstone {
        vault: String,
        locus: String,
        note_id: String,
        content_hash: Option<String>,
        section: String,
        title: Option<String>,
        body: String,
        deleted_by: Option<String>,
        request_id: String,
    },
    /// Moves a note to the archive and takes it out of the index.
    Archive { vault: String, note_id: String, archived_by: Option<String>, gc_due_ms: i64 },
    /// Takes a note out of the index.
    PurgeIndex { vault: String, note_id: String },
    /// Drops the redirections to a note.
    PurgeRedirect { vault: String, note_id: String },
    /// The notes that a query finds, with their sections.
    ForgetTopic { vault: String, query: String, limit: usize },
    /// The notes below a locus, with their sections.
    ForgetLocus { vault: String, locus: String },
    /// The notes of an agent, with their sections.
    ForgetAgent { agent_id: String, vaults: Vec<String> },
    /// A place in the queue.
    Enqueue { record: JobRecord },
    /// The forgotten notes from a position on, one more than the page holds if there are more.
    ListForgotten { vault: String, limit: usize, cursor: Option<String> },
    /// How many notes are forgotten.
    CountForgotten { vault: String },
    /// Takes back that a note was forgotten.
    Unforget { vault: String, id: String },
    /// The right to read a section of the vault that serves the caller.
    ResolveRead { vault: String, section: String },
    /// A job of the queue; of one tenant only, when a tenant is given.
    GetJob { id: String, tenant: Option<String> },
    /// Jobs of the queue.
    ListJobs { filter: JobFilter },
    /// Cancels a job.
    CancelJob { id: String, tenant: Option<String> },
    /// Whether the credential may write at all.
    WriteScope { tenant: Option<String> },
    /// The job that was created under this key.
    KnownKey { key: String },
    /// Keeps the key under which a job was created.
    StoreKey { key: String, job_id: String },
    /// A job of the numbered queue.
    NumberedJob { id: i64 },
    /// Where the sources of a code vault are.
    CodeRepo { vault: String },
    /// The symbols of a code vault that a selector finds.
    CodeQuery { vault: String, kind: String, value: String, limit: usize },
    /// The ranks of the symbols found, by their scores and by how many of their dependencies
    /// were found too.
    CodeRanks { scores: Vec<u64>, cohesion: Vec<usize> },
    /// Whether the sources are where they should be.
    CodeRoot { repo: String },
    /// The hashes that these files had when they were indexed.
    CodeHashes { vault: String, paths: Vec<String> },
    /// The contents of these files, as far as they lie among the sources and can be read.
    CodeSources { repo: String, paths: Vec<String> },
    /// The symbols that depend on these.
    CodeCallers { vault: String, names: Vec<String>, limit: usize },
    /// A page of the notes of a section, and how many there are in all.
    MapPage { vault: String, section: String, limit: usize, cursor: Option<String> },
    /// Notes that wait for a judgment, from a position on.
    ReviewQueue { vault: String, cursor: Option<String>, limit: usize },
    /// How many notes wait for a judgment.
    ReviewCount { vault: String },
    /// How many notes there are of each status.
    StatusCounts { tenant: String },
    /// How many jobs there are in each state.
    JobCounts {  },
    /// How large the log of the database is.
    WalSize {  },
    /// The job that was queued last.
    LatestJob { tenant: String },
    /// What comes to mind unasked at this request, written out.
    ProactiveRecall { request: String },
    /// Notes which of what came to mind was of use, as this request tells.
    ProactiveFeedback { request: String },
    /// Whether links to these targets make a card of the project map.
    CheckLinks { targets: Vec<String> },
}

/// A question by its contents.
#[allow(inconsistent_fields)]
#[verifier::ext_equal]
pub enum Question {
    Tenant { requested: Option<Seq<char>> },
    WriteVault { requested: Option<Seq<char>>, deny: Seq<char> },
    ReadVault {
        tenant: Seq<char>,
        vault: Option<Seq<char>>,
        section: Option<Seq<char>>,
        deny: Seq<char>,
    },
    ReadGrant { principal: Seq<char>, vault: Seq<char>, section: Seq<char> },
    WriteGrant { tenant: Seq<char> },
    Acl { op: AclOp, locus: Seq<char> },
    TitleLookup { tenant: Seq<char>, title: Seq<char> },
    Redirect { tenant: Seq<char>, title: Seq<char> },
    ReadNote { tenant: Seq<char>, id: Seq<char> },
    TitlesSections { vault: Seq<char>, ids: Seq<Seq<char>> },
    Statuses { vault: Seq<char>, ids: Seq<Seq<char>> },
    ListNotes {
        tenant: Seq<char>,
        section: Option<Seq<char>>,
        role_kind: Option<Seq<char>>,
        role_status: Option<Seq<char>>,
        limit: nat,
        cursor: Option<Seq<char>>,
    },
    FollowingNotes {
        tenant: Seq<char>,
        section: Option<Seq<char>>,
        role_kind: Option<Seq<char>>,
        role_status: Option<Seq<char>>,
        limit: nat,
        cursor: Seq<char>,
    },
    Archives {
        vault: Option<Seq<char>>,
        section: Option<Seq<char>>,
        since_ms: Option<i64>,
        until_ms: Option<i64>,
        include_gc: bool,
        include_restored: bool,
        limit: nat,
        offset: nat,
    },
    LiveCount { tenant: Seq<char> },
    BodySize { tenant: Seq<char> },
    LastIndexed { tenant: Seq<char> },
    Authors { vault: Seq<char> },
    Tags { vault: Seq<char> },
    Neighbors { tenant: Seq<char>, id: Seq<char>, depth: u8 },
    Backlinks { tenant: Seq<char>, id: Seq<char> },
    Seeds { vault: Seq<char>, query: Seq<char>, limit: nat },
    Lineages { tenant: Seq<char>, ids: Seq<Seq<char>> },
    DecodeCursor { cursor: Seq<char> },
    Timeline {
        vault: Seq<char>,
        doc_kind: Option<Seq<Seq<char>>>,
        from_ms: Option<i64>,
        to_ms: Option<i64>,
        limit: nat,
        cursor: Option<Seq<char>>,
        as_of_ms: Option<i64>,
        include_expired: bool,
    },
    EncodeCursor { anchor_ms: i64, note_id: Seq<char> },
    NoteInTenant { tenant: Seq<char>, id: Seq<char> },
    NoteIndexed { tenant: Seq<char>, id: Seq<char> },
    EnqueueWrite {
        tenant: Seq<char>,
        note_id: Seq<char>,
        author: Seq<char>,
        title: Seq<char>,
        body: Seq<char>,
        tags: Seq<Seq<char>>,
        section_hint: Option<Seq<char>>,
        occurred_at: Option<Seq<char>>,
        expected_sha256: Option<Seq<char>>,
    },
    CategoryDrift { title: Seq<char>, section_hint: Option<Seq<char>>, tags: Seq<Seq<char>> },
    NoteDrift {
        rule: Seq<char>,
        category: Seq<char>,
        expected_section: Seq<char>,
        actual_section: Option<Seq<char>>,
        title: Seq<char>,
        trace: AuditTrace,
    },
    NoteWrite { job_id: Seq<char>, trace: AuditTrace },
    InsertEvents { tenant: Seq<char>, events: Seq<EventModel> },
    Curate { id: Seq<char>, title: Seq<char>, body: Seq<char>, tags: Seq<Seq<char>> },
    Versions { tenant: Seq<char>, id: Seq<char> },
    Snapshot { tenant: Seq<char>, id: Seq<char>, ts_ms: i64 },
    Restore { vault: Seq<char>, id: Seq<char>, ts_ms: i64 },
    Diff { id: Seq<char>, a: Seq<char>, b: Seq<char> },
    Retrieve { vault: Seq<char>, query: Seq<char>, section: Seq<char>, limit: nat },
    Hydrate { vault: Seq<char>, ids: Seq<Seq<char>> },
    Recall { vault: Seq<char>, class: Seq<char>, limit: nat },
    RecencyRanks { anchors: Seq<i64> },
    Downgrade {
        vault: Option<Seq<char>>,
        note_id: Seq<char>,
        reason: Seq<char>,
        replaced_by: Option<Seq<char>>,
    },
    ChangeStatus {
        vault: Option<Seq<char>>,
        note_id: Seq<char>,
        status: Seq<char>,
        reason: Option<Seq<char>>,
    },
    PatchNote {
        vault: Option<Seq<char>>,
        note_id: Seq<char>,
        reason: Option<Seq<char>>,
        replaced_by: Option<Seq<char>>,
    },
    AddTags { vault: Option<Seq<char>>, note_id: Seq<char>, tags: Seq<Seq<char>> },
    CheckTags { tags: Seq<Seq<char>> },
    CheckLocus { locus: Seq<char> },
    MoveNote { vault: Option<Seq<char>>, id: Seq<char>, locus: Seq<char> },
    AllocateFeature { vault: Seq<char> },
    CheckCard { body: Seq<char> },
    CheckSoul { body: Seq<char> },
    FeatureRoles { body: Seq<char> },
    CheckSha { sha: Seq<char> },
    CheckMoment { moment: Seq<char> },
    Wikilinks { body: Seq<char> },
    IndexedNote { vault: Seq<char>, id: Seq<char> },
    Tombstone {
        vault: Seq<char>,
        locus: Seq<char>,
        note_id: Seq<char>,
        content_hash: Option<Seq<char>>,
        section: Seq<char>,
        title: Option<Seq<char>>,
        body: Seq<char>,
        deleted_by: Option<Seq<char>>,
        request_id: Seq<char>,
    },
    Archive {
        vault: Seq<char>,
        note_id: Seq<char>,
        archived_by: Option<Seq<char>>,
        gc_due_ms: i64,
    },
    PurgeIndex { vault: Seq<char>, note_id: Seq<char> },
    PurgeRedirect { vault: Seq<char>, note_id: Seq<char> },
    ForgetTopic { vault: Seq<char>, query: Seq<char>, limit: nat },
    ForgetLocus { vault: Seq<char>, locus: Seq<char> },
    ForgetAgent { agent_id: Seq<char>, vaults: Seq<Seq<char>> },
    Enqueue { record: RecordModel },
    ListForgotten { vault: Seq<char>, limit: nat, cursor: Option<Seq<char>> },
    CountForgotten { vault: Seq<char> },
    Unforget { vault: Seq<char>, id: Seq<char> },
    ResolveRead { vault: Seq<char>, section: Seq<char> },
    GetJob { id: Seq<char>, tenant: Option<Seq<char>> },
    ListJobs { filter: FilterModel },
    CancelJob { id: Seq<char>, tenant: Option<Seq<char>> },
    WriteScope { tenant: Option<Seq<char>> },
    KnownKey { key: Seq<char> },
    StoreKey { key: Seq<char>, job_id: Seq<char> },
    NumberedJob { id: i64 },
    CodeRepo { vault: Seq<char> },
    CodeQuery { vault: Seq<char>, kind: Seq<char>, value: Seq<char>, limit: nat },
    CodeRanks { scores: Seq<u64>, cohesion: Seq<usize> },
    CodeRoot { repo: Seq<char> },
    CodeHashes { vault: Seq<char>, paths: Seq<Seq<char>> },
    CodeSources { repo: Seq<char>, paths: Seq<Seq<char>> },
    CodeCallers { vault: Seq<char>, names: Seq<Seq<char>>, limit: nat },
    MapPage { vault: Seq<char>, section: Seq<char>, limit: nat, cursor: Option<Seq<char>> },
    ReviewQueue { vault: Seq<char>, cursor: Option<Seq<char>>, limit: nat },
    ReviewCount { vault: Seq<char> },
    StatusCounts { tenant: Seq<char> },
    JobCounts {  },
    WalSize {  },
    LatestJob { tenant: Seq<char> },
    ProactiveRecall { request: Seq<char> },
    ProactiveFeedback { request: Seq<char> },
    CheckLinks { targets: Seq<Seq<char>> },
}

impl View for Ask {
    type V = Question;

    open spec fn view(&self) -> Question {
        match *self {
            Ask::Tenant { requested } => Question::Tenant { requested: rows::opt_text(requested) },
            Ask::WriteVault { requested, deny } => Question::WriteVault {
                requested: rows::opt_text(requested),
                deny: deny@,
            },
            Ask::ReadVault { tenant, vault, section, deny } => Question::ReadVault {
                tenant: tenant@,
                vault: rows::opt_text(vault),
                section: rows::opt_text(section),
                deny: deny@,
            },
            Ask::ReadGrant { principal, vault, section } => Question::ReadGrant {
                principal: principal@,
                vault: vault@,
                section: section@,
            },
            Ask::WriteGrant { tenant } => Question::WriteGrant { tenant: tenant@ },
            Ask::Acl { op, locus } => Question::Acl { op, locus: locus@ },
            Ask::TitleLookup { tenant, title } => Question::TitleLookup {
                tenant: tenant@,
                title: title@,
            },
            Ask::Redirect { tenant, title } => Question::Redirect {
                tenant: tenant@,
                title: title@,
            },
            Ask::ReadNote { tenant, id } => Question::ReadNote { tenant: tenant@, id: id@ },
            Ask::TitlesSections { vault, ids } => Question::TitlesSections {
                vault: vault@,
                ids: text::views(ids@),
            },
            Ask::Statuses { vault, ids } => Question::Statuses {
                vault: vault@,
                ids: text::views(ids@),
            },
            Ask::ListNotes {
                tenant,
                section,
                role_kind,
                role_status,
                limit,
                cursor,
            } => Question::ListNotes {
                tenant: tenant@,
                section: rows::opt_text(section),
                role_kind: rows::opt_text(role_kind),
                role_status: rows::opt_text(role_status),
                limit: limit as nat,
                cursor: rows::opt_text(cursor),
            },
            Ask::FollowingNotes {
                tenant,
                section,
                role_kind,
                role_status,
                limit,
                cursor,
            } => Question::FollowingNotes {
                tenant: tenant@,
                section: rows::opt_text(section),
                role_kind: rows::opt_text(role_kind),
                role_status: rows::opt_text(role_status),
                limit: limit as nat,
                cursor: cursor@,
            },
            Ask::Archives {
                vault,
                section,
                since_ms,
                until_ms,
                include_gc,
                include_restored,
                limit,
                offset,
            } => Question::Archives {
                vault: rows::opt_text(vault),
                section: rows::opt_text(section),
                since_ms,
                until_ms,
                include_gc,
                include_restored,
                limit: limit as nat,
                offset: offset as nat,
            },
            Ask::LiveCount { tenant } => Question::LiveCount { tenant: tenant@ },
            Ask::BodySize { tenant } => Question::BodySize { tenant: tenant@ },
            Ask::LastIndexed { tenant } => Question::LastIndexed { tenant: tenant@ },
            Ask::Authors { vault } => Question::Authors { vault: vault@ },
            Ask::Tags { vault } => Question::Tags { vault: vault@ },
            Ask::Neighbors { tenant, id, depth } => Question::Neighbors {
                tenant: tenant@,
                id: id@,
                depth,
            },
            Ask::Backlinks { tenant, id } => Question::Backlinks { tenant: tenant@, id: id@ },
            Ask::Seeds { vault, query, limit } => Question::Seeds {
                vault: vault@,
                query: query@,
                limit: limit as nat,
            },
            Ask::Lineages { tenant, ids } => Question::Lineages {
                tenant: tenant@,
                ids: text::views(ids@),
            },
            Ask::DecodeCursor { cursor } => Question::DecodeCursor { cursor: cursor@ },
            Ask::Timeline {
                vault,
                doc_kind,
                from_ms,
                to_ms,
                limit,
                cursor,
                as_of_ms,
                include_expired,
            } => Question::Timeline {
                vault: vault@,
                doc_kind: opt_list(doc_kind),
                from_ms,
                to_ms,
                limit: limit as nat,
                cursor: rows::opt_text(cursor),
                as_of_ms,
                include_expired,
            },
            Ask::EncodeCursor { anchor_ms, note_id } => Question::EncodeCursor {
                anchor_ms,
                note_id: note_id@,
            },
            Ask::NoteInTenant { tenant, id } => Question::NoteInTenant { tenant: tenant@, id: id@ },
            Ask::NoteIndexed { tenant, id } => Question::NoteIndexed { tenant: tenant@, id: id@ },
            Ask::EnqueueWrite {
                tenant,
                note_id,
                author,
                title,
                body,
                tags,
                section_hint,
                occurred_at,
                expected_sha256,
            } => Question::EnqueueWrite {
                tenant: tenant@,
                note_id: note_id@,
                author: author@,
                title: title@,
                body: body@,
                tags: text::views(tags@),
                section_hint: rows::opt_text(section_hint),
                occurred_at: rows::opt_text(occurred_at),
                expected_sha256: rows::opt_text(expected_sha256),
            },
            Ask::CategoryDrift { title, section_hint, tags } => Question::CategoryDrift {
                title: title@,
                section_hint: rows::opt_text(section_hint),
                tags: text::views(tags@),
            },
            Ask::NoteDrift {
                rule,
                category,
                expected_section,
                actual_section,
                title,
                trace,
            } => Question::NoteDrift {
                rule: rule@,
                category: category@,
                expected_section: expected_section@,
                actual_section: rows::opt_text(actual_section),
                title: title@,
                trace: trace@,
            },
            Ask::NoteWrite { job_id, trace } => Question::NoteWrite {
                job_id: job_id@,
                trace: trace@,
            },
            Ask::InsertEvents { tenant, events } => Question::InsertEvents {
                tenant: tenant@,
                events: event_log::event_models(events@),
            },
            Ask::Curate { id, title, body, tags } => Question::Curate {
                id: id@,
                title: title@,
                body: body@,
                tags: text::views(tags@),
            },
            Ask::Versions { tenant, id } => Question::Versions { tenant: tenant@, id: id@ },
            Ask::Snapshot { tenant, id, ts_ms } => Question::Snapshot {
                tenant: tenant@,
                id: id@,
                ts_ms,
            },
            Ask::Restore { vault, id, ts_ms } => Question::Restore {
                vault: vault@,
                id: id@,
                ts_ms,
            },
            Ask::Diff { id, a, b } => Question::Diff { id: id@, a: a@, b: b@ },
            Ask::Retrieve { vault, query, section, limit } => Question::Retrieve {
                vault: vault@,
                query: query@,
                section: section@,
                limit: limit as nat,
            },
            Ask::Hydrate { vault, ids } => Question::Hydrate {
                vault: vault@,
                ids: text::views(ids@),
            },
            Ask::Recall { vault, class, limit } => Question::Recall {
                vault: vault@,
                class: class@,
                limit: limit as nat,
            },
            Ask::RecencyRanks { anchors } => Question::RecencyRanks { anchors: anchors@ },
            Ask::Downgrade { vault, note_id, reason, replaced_by } => Question::Downgrade {
                vault: rows::opt_text(vault),
                note_id: note_id@,
                reason: reason@,
                replaced_by: rows::opt_text(replaced_by),
            },
            Ask::ChangeStatus { vault, note_id, status, reason } => Question::ChangeStatus {
                vault: rows::opt_text(vault),
                note_id: note_id@,
                status: status@,
                reason: rows::opt_text(reason),
            },
            Ask::PatchNote { vault, note_id, reason, replaced_by } => Question::PatchNote {
                vault: rows::opt_text(vault),
                note_id: note_id@,
                reason: rows::opt_text(reason),
                replaced_by: rows::opt_text(replaced_by),
            },
            Ask::AddTags { vault, note_id, tags } => Question::AddTags {
                vault: rows::opt_text(vault),
                note_id: note_id@,
                tags: text::views(tags@),
            },
            Ask::CheckTags { tags } => Question::CheckTags { tags: text::views(tags@) },
            Ask::CheckLocus { locus } => Question::CheckLocus { locus: locus@ },
            Ask::MoveNote { vault, id, locus } => Question::MoveNote {
                vault: rows::opt_text(vault),
                id: id@,
                locus: locus@,
            },
            Ask::AllocateFeature { vault } => Question::AllocateFeature { vault: vault@ },
            Ask::CheckCard { body } => Question::CheckCard { body: body@ },
            Ask::CheckSoul { body } => Question::CheckSoul { body: body@ },
            Ask::FeatureRoles { body } => Question::FeatureRoles { body: body@ },
            Ask::CheckSha { sha } => Question::CheckSha { sha: sha@ },
            Ask::CheckMoment { moment } => Question::CheckMoment { moment: moment@ },
            Ask::Wikilinks { body } => Question::Wikilinks { body: body@ },
            Ask::IndexedNote { vault, id } => Question::IndexedNote { vault: vault@, id: id@ },
            Ask::Tombstone {
                vault,
                locus,
                note_id,
                content_hash,
                section,
                title,
                body,
                deleted_by,
                request_id,
            } => Question::Tombstone {
                vault: vault@,
                locus: locus@,
                note_id: note_id@,
                content_hash: rows::opt_text(content_hash),
                section: section@,
                title: rows::opt_text(title),
                body: body@,
                deleted_by: rows::opt_text(deleted_by),
                request_id: request_id@,
            },
            Ask::Archive { vault, note_id, archived_by, gc_due_ms } => Question::Archive {
                vault: vault@,
                note_id: note_id@,
                archived_by: rows::opt_text(archived_by),
                gc_due_ms,
            },
            Ask::PurgeIndex { vault, note_id } => Question::PurgeIndex {
                vault: vault@,
                note_id: note_id@,
            },
            Ask::PurgeRedirect { vault, note_id } => Question::PurgeRedirect {
                vault: vault@,
                note_id: note_id@,
            },
            Ask::ForgetTopic { vault, query, limit } => Question::ForgetTopic {
                vault: vault@,
                query: query@,
                limit: limit as nat,
            },
            Ask::ForgetLocus { vault, locus } => Question::ForgetLocus {
                vault: vault@,
                locus: locus@,
            },
            Ask::ForgetAgent { agent_id, vaults } => Question::ForgetAgent {
                agent_id: agent_id@,
                vaults: text::views(vaults@),
            },
            Ask::Enqueue { record } => Question::Enqueue { record: record@ },
            Ask::ListForgotten { vault, limit, cursor } => Question::ListForgotten {
                vault: vault@,
                limit: limit as nat,
                cursor: rows::opt_text(cursor),
            },
            Ask::CountForgotten { vault } => Question::CountForgotten { vault: vault@ },
            Ask::Unforget { vault, id } => Question::Unforget { vault: vault@, id: id@ },
            Ask::ResolveRead { vault, section } => Question::ResolveRead {
                vault: vault@,
                section: section@,
            },
            Ask::GetJob { id, tenant } => Question::GetJob {
                id: id@,
                tenant: rows::opt_text(tenant),
            },
            Ask::ListJobs { filter } => Question::ListJobs { filter: filter@ },
            Ask::CancelJob { id, tenant } => Question::CancelJob {
                id: id@,
                tenant: rows::opt_text(tenant),
            },
            Ask::WriteScope { tenant } => Question::WriteScope { tenant: rows::opt_text(tenant) },
            Ask::KnownKey { key } => Question::KnownKey { key: key@ },
            Ask::StoreKey { key, job_id } => Question::StoreKey { key: key@, job_id: job_id@ },
            Ask::NumberedJob { id } => Question::NumberedJob { id },
            Ask::CodeRepo { vault } => Question::CodeRepo { vault: vault@ },
            Ask::CodeQuery { vault, kind, value, limit } => Question::CodeQuery {
                vault: vault@,
                kind: kind@,
                value: value@,
                limit: limit as nat,
            },
            Ask::CodeRanks { scores, cohesion } => Question::CodeRanks {
                scores: scores@,
                cohesion: cohesion@,
            },
            Ask::CodeRoot { repo } => Question::CodeRoot { repo: repo@ },
            Ask::CodeHashes { vault, paths } => Question::CodeHashes {
                vault: vault@,
                paths: text::views(paths@),
            },
            Ask::CodeSources { repo, paths } => Question::CodeSources {
                repo: repo@,
                paths: text::views(paths@),
            },
            Ask::CodeCallers { vault, names, limit } => Question::CodeCallers {
                vault: vault@,
                names: text::views(names@),
                limit: limit as nat,
            },
            Ask::MapPage { vault, section, limit, cursor } => Question::MapPage {
                vault: vault@,
                section: section@,
                limit: limit as nat,
                cursor: rows::opt_text(cursor),
            },
            Ask::ReviewQueue { vault, cursor, limit } => Question::ReviewQueue {
                vault: vault@,
                cursor: rows::opt_text(cursor),
                limit: limit as nat,
            },
            Ask::ReviewCount { vault } => Question::ReviewCount { vault: vault@ },
            Ask::StatusCounts { tenant } => Question::StatusCounts { tenant: tenant@ },
            Ask::JobCounts {  } => Question::JobCounts {  },
            Ask::WalSize {  } => Question::WalSize {  },
            Ask::LatestJob { tenant } => Question::LatestJob { tenant: tenant@ },
            Ask::ProactiveRecall { request } => Question::ProactiveRecall { request: request@ },
            Ask::ProactiveFeedback { request } => Question::ProactiveFeedback { request: request@ },
            Ask::CheckLinks { targets } => Question::CheckLinks { targets: text::views(targets@) },
        }
    }
}

/// What the services have answered so far; a field is `None` until its question was answered.
#[derive(Debug)]
pub struct Answers {
    /// The tenant, or `None` inside when the request names another than the credential.
    pub tenant: Option<Option<String>>,
    pub write_vault: Option<Result<String, GradatumError>>,
    pub read_vault: Option<Result<String, GradatumError>>,
    pub read_grant: Option<Result<(), GradatumError>>,
    pub write_grant: Option<Result<(), GradatumError>>,
    pub acl: Option<bool>,
    pub title: Option<Result<Option<String>, GradatumError>>,
    pub redirect: Option<Result<Option<String>, GradatumError>>,
    pub note: Option<Result<VaultNote, GradatumError>>,
    pub titles: Option<Result<Vec<TitleSection>, GradatumError>>,
    pub statuses: Option<Result<Vec<StatusRow>, GradatumError>>,
    pub notes: Option<Result<NotePage, GradatumError>>,
    pub following: Option<Result<NotePage, GradatumError>>,
    pub archives: Option<Result<Vec<ArchiveEntry>, GradatumError>>,
    pub live_count: Option<Result<u64, GradatumError>>,
    pub body_size: Option<Result<u64, GradatumError>>,
    pub last_indexed: Option<Result<Option<i64>, GradatumError>>,
    pub authors: Option<Result<Vec<NamedCount>, GradatumError>>,
    pub tags: Option<Result<Vec<NamedCount>, GradatumError>>,
    pub neighbors: Option<Result<Vec<String>, GradatumError>>,
    pub backlinks: Option<Result<Vec<String>, GradatumError>>,
    pub seeds: Option<Result<Vec<String>, GradatumError>>,
    pub lineages: Option<Result<Vec<Lineage>, GradatumError>>,
    pub cursor: Option<bool>,
    pub timeline: Option<Result<Vec<TimelineRow>, GradatumError>>,
    pub next_cursor: Option<String>,
    pub in_tenant: Option<Result<bool, GradatumError>>,
    pub indexed: Option<Result<bool, GradatumError>>,
    /// The identifier of the job, or what the queue said.
    pub enqueued: Option<Result<NoteId, String>>,
    /// What speaks against it, or `None` inside when nothing does.
    pub drift: Option<Option<CategoryDrift>>,
    /// Whether the drift was noted; a failure changes nothing.
    pub drift_noted: Option<bool>,
    /// Whether the trace was kept; a failure changes nothing.
    pub write_noted: Option<bool>,
    pub curated: Option<CurateOutcome>,
    pub versions: Option<Result<Vec<i64>, GradatumError>>,
    pub snapshot: Option<Result<SnapshotRow, GradatumError>>,
    pub restored: Option<Result<String, GradatumError>>,
    pub diff: Option<Result<Vec<String>, GradatumError>>,
    pub retrieved: Option<Result<Retrieval, GradatumError>>,
    pub hydrated: Option<Result<Vec<LessonRow>, GradatumError>>,
    pub recalled: Option<Result<Vec<LessonRow>, GradatumError>>,
    pub recency: Option<Vec<i64>>,
    /// Whether the change was made.
    pub done: Option<Result<(), GradatumError>>,
    /// Whether the second change was made.
    pub patched: Option<Result<(), GradatumError>>,
    pub events_inserted: Option<Result<usize, EventLogError>>,
    /// Whether the tags were added; too many are a conflict.
    pub tags_added: Option<Result<(), GradatumError>>,
    pub tags_valid: Option<bool>,
    pub locus_valid: Option<bool>,
    pub map_page: Option<Result<MapPage, GradatumError>>,
    pub review: Option<Result<Vec<ReviewRow>, GradatumError>>,
    pub review_count: Option<Result<u64, GradatumError>>,
    pub status_counts: Option<Result<Vec<NamedCount>, GradatumError>>,
    pub job_counts: Option<Result<Vec<JobCount>, GradatumError>>,
    /// The size, or `None` inside when it cannot be measured.
    pub wal_size: Option<Option<u64>>,
    pub latest_job: Option<Result<Option<LatestJob>, GradatumError>>,
    pub proactive: Option<Result<String, GradatumError>>,
    pub feature: Option<Result<u64, GradatumError>>,
    pub card: Option<Result<(), String>>,
    pub soul: Option<Result<(), String>>,
    pub roles: Option<Vec<String>>,
    pub sha_valid: Option<bool>,
    pub moment_valid: Option<bool>,
    pub links: Option<Vec<String>>,
    pub links_valid: Option<Result<(), String>>,
    pub code_repo: Option<Result<Option<String>, GradatumError>>,
    pub code: Option<Result<Vec<CodeScopeEntryRaw>, GradatumError>>,
    pub code_ranks: Option<Vec<i64>>,
    pub code_root: Option<bool>,
    pub code_hashes: Option<Result<Vec<PathHash>, GradatumError>>,
    pub code_sources: Option<Vec<SourceFile>>,
    pub code_callers: Option<Result<Vec<CallersRow>, GradatumError>>,
    pub job: Option<Result<Option<JobRecord>, GradatumError>>,
    pub jobs: Option<Result<Vec<JobRecord>, GradatumError>>,
    pub write_scope: Option<bool>,
    pub known_key: Option<Result<Option<String>, GradatumError>>,
    /// Whether the key was kept; a failure changes nothing.
    pub key_stored: Option<bool>,
    pub numbered_job: Option<Result<Option<NumberedJob>, GradatumError>>,
    pub candidates: Option<Result<Vec<Candidate>, GradatumError>>,
    pub forgotten: Option<Result<Vec<ForgottenRow>, GradatumError>>,
    pub forgotten_count: Option<Result<usize, GradatumError>>,
    pub resolved: Option<Result<String, StatusCode>>,
    pub indexed_note: Option<Result<Option<IndexedNote>, GradatumError>>,
    pub tombstone: Option<Result<(), String>>,
    pub archived: Option<Result<Archived, GradatumError>>,
    pub purged: Option<Result<(), GradatumError>>,
    /// Whether the redirections were dropped; a failure changes nothing.
    pub redirect_purged: Option<bool>,
}

impl Answers {
    /// Whether nothing has been answered.
    pub open spec fn unanswered(&self) -> bool {
        &&& self.tenant is None
        &&& self.write_vault is None
        &&& self.read_vault is None
        &&& self.read_grant is None
        &&& self.write_grant is None
        &&& self.acl is None
        &&& self.title is None
        &&& self.redirect is None
        &&& self.note is None
        &&& self.titles is None
        &&& self.statuses is None
        &&& self.notes is None
        &&& self.following is None
        &&& self.archives is None
        &&& self.live_count is None
        &&& self.body_size is None
        &&& self.last_indexed is None
        &&& self.authors is None
        &&& self.tags is None
        &&& self.neighbors is None
        &&& self.backlinks is None
        &&& self.seeds is None
        &&& self.lineages is None
        &&& self.cursor is None
        &&& self.timeline is None
        &&& self.next_cursor is None
        &&& self.in_tenant is None
        &&& self.indexed is None
        &&& self.enqueued is None
        &&& self.drift is None
        &&& self.drift_noted is None
        &&& self.write_noted is None
        &&& self.curated is None
        &&& self.versions is None
        &&& self.snapshot is None
        &&& self.restored is None
        &&& self.diff is None
        &&& self.retrieved is None
        &&& self.hydrated is None
        &&& self.recalled is None
        &&& self.recency is None
        &&& self.done is None
        &&& self.patched is None
        &&& self.events_inserted is None
        &&& self.tags_added is None
        &&& self.tags_valid is None
        &&& self.locus_valid is None
        &&& self.map_page is None
        &&& self.review is None
        &&& self.review_count is None
        &&& self.status_counts is None
        &&& self.job_counts is None
        &&& self.wal_size is None
        &&& self.latest_job is None
        &&& self.proactive is None
        &&& self.feature is None
        &&& self.card is None
        &&& self.soul is None
        &&& self.roles is None
        &&& self.sha_valid is None
        &&& self.moment_valid is None
        &&& self.links is None
        &&& self.links_valid is None
        &&& self.code_repo is None
        &&& self.code is None
        &&& self.code_ranks is None
        &&& self.code_root is None
        &&& self.code_hashes is None
        &&& self.code_sources is None
        &&& self.code_callers is None
        &&& self.job is None
        &&& self.jobs is None
        &&& self.write_scope is None
        &&& self.known_key is None
        &&& self.key_stored is None
        &&& self.numbered_job is None
        &&& self.candidates is None
        &&& self.forgotten is None
        &&& self.forgotten_count is None
        &&& self.resolved is None
        &&& self.indexed_note is None
        &&& self.tombstone is None
        &&& self.archived is None
        &&& self.purged is None
        &&& self.redirect_purged is None
    }

    /// No answer yet.
    pub fn none() -> (r: Answers)
        ensures
            r.unanswered(),
    {
        Answers {
            tenant: None,
            write_vault: None,
            read_vault: None,
            read_grant: None,
            write_grant: None,
            acl: None,
            title: None,
            redirect: None,
            note: None,
            titles: None,
            statuses: None,
            notes: None,
            following: None,
            archives: None,
            live_count: None,
            body_size: None,
            last_indexed: None,
            authors: None,
            tags: None,
            neighbors: None,
            backlinks: None,
            seeds: None,
            lineages: None,
            cursor: None,
            timeline: None,
            next_cursor: None,
            in_tenant: None,
            indexed: None,
            enqueued: None,
            drift: None,
            drift_noted: None,
            write_noted: None,
            curated: None,
            versions: None,
            snapshot: None,
            restored: None,
            diff: None,
            retrieved: None,
            hydrated: None,
            recalled: None,
            recency: None,
            done: None,
            patched: None,
            events_inserted: None,
            tags_added: None,
            tags_valid: None,
            locus_valid: None,
            map_page: None,
            review: None,
            review_count: None,
            status_counts: None,
            job_counts: None,
            wal_size: None,
            latest_job: None,
            proactive: None,
            feature: None,
            card: None,
            soul: None,
            roles: None,
            sha_valid: None,
            moment_valid: None,
            links: None,
            links_valid: None,
            code_repo: None,
            code: None,
            code_ranks: None,
            code_root: None,
            code_hashes: None,
            code_sources: None,
            code_callers: None,
            job: None,
            jobs: None,
            write_scope: None,
            known_key: None,
            key_stored: None,
            numbered_job: None,
            candidates: None,
            forgotten: None,
            forgotten_count: None,
            resolved: None,
            indexed_note: None,
            tombstone: None,
            archived: None,
            purged: None,
            redirect_purged: None,
        }
    }
}

/// A trace that an operation leaves in the audit log.
#[derive(Debug)]
pub struct Audit {
    pub event: String,
    pub tenant: String,
    pub locus: String,
    pub reason: String,
    pub note_id: Option<String>,
}

/// An [`Audit`] by its contents.
pub struct AuditTrace {
    pub event: Seq<char>,
    pub tenant: Seq<char>,
    pub locus: Seq<char>,
    pub reason: Seq<char>,
    pub note_id: Option<Seq<char>>,
}

impl View for Audit {
    type V = AuditTrace;

    open spec fn view(&self) -> AuditTrace {
        AuditTrace {
            event: self.event@,
            tenant: self.tenant@,
            locus: self.locus@,
            reason: self.reason@,
            note_id: rows::opt_text(self.note_id),
        }
    }
}

/// A trace by its contents.
pub open spec fn opt_trace(t: Option<Audit>) -> Option<AuditTrace> {
    match t {
        Some(t) => Some(t@),
        None => None,
    }
}

/// A refusal, with the trace that it leaves if it leaves one.
#[derive(Debug)]
pub struct Denial {
    pub error: GradatumError,
    pub audit: Option<Audit>,
}

/// A [`Denial`] by its contents.
pub struct Denied {
    pub error: Refusal,
    pub audit: Option<AuditTrace>,
}

impl View for Denial {
    type V = Denied;

    open spec fn view(&self) -> Denied {
        Denied {
            error: self.error@,
            audit: match self.audit {
                Some(t) => Some(t@),
                None => None,
            },
        }
    }
}

/// A refusal that leaves no trace.
pub open spec fn silent(error: Refusal) -> Denied {
    Denied { error, audit: None }
}

impl Denial {
    /// A refusal that leaves no trace.
    pub fn plain(error: GradatumError) -> (r: Denial)
        ensures
            r@ == silent(error@),
    {
        Denial { error, audit: None }
    }

    /// A lack of right, without a trace.
    pub fn forbidden(m: &str) -> (r: Denial)
        ensures
            r@ == silent(Refusal::Forbidden(m@)),
    {
        Denial::plain(GradatumError::forbidden(m))
    }

    /// A request that makes no sense, without a trace.
    pub fn invalid(m: &str) -> (r: Denial)
        ensures
            r@ == silent(Refusal::InvalidInput(m@)),
    {
        Denial::plain(GradatumError::invalid(m))
    }
}

/// The next step of an operation.
#[derive(Debug)]
pub enum Next<T> {
    /// A question whose answer the operation needs.
    Ask(Ask),
    /// The operation is refused.
    Fail(Denial),
    /// The operation is done.
    Reply(T),
}

/// The next step of an operation by its contents, leaving the reply itself aside.
#[verifier::ext_equal]
pub enum Gate {
    Ask(Question),
    Fail(Denied),
    Pass,
}

/// The first check, and the second once the first is passed.
pub open spec fn chain(first: Gate, second: Gate) -> Gate {
    if first is Pass {
        second
    } else {
        first
    }
}

/// Whether `n` is the step that `g` prescribes; of a reply this says only that it is
/// due.
pub open spec fn follows<T>(n: Next<T>, g: Gate) -> bool {
    match n {
        Next::Ask(q) => g == Gate::Ask(q@),
        Next::Fail(d) => g == Gate::Fail(d@),
        Next::Reply(_) => g is Pass,
    }
}

/// Whether a step refuses with this error and leaves no trace.
pub open spec fn fails(g: Gate, e: Refusal) -> bool {
    g is Fail && g->Fail_0.error == e && g->Fail_0.audit is None
}

/// Whether a step refuses for want of a right.
pub open spec fn forbids(g: Gate) -> bool {
    g is Fail && g->Fail_0.error is Forbidden
}

/// Whether a step refuses a request that makes no sense.
pub open spec fn finds_fault(g: Gate) -> bool {
    g is Fail && g->Fail_0.error is InvalidInput
}

/// A step that is not a reply.
#[derive(Debug)]
pub enum Stop {
    Ask(Ask),
    Fail(Denial),
}

impl View for Stop {
    type V = Gate;

    open spec fn view(&self) -> Gate {
        match self {
            Stop::Ask(q) => Gate::Ask(q@),
            Stop::Fail(d) => Gate::Fail(d@),
        }
    }
}

impl Stop {
    /// The stop as the next step of an operation.
    pub fn next<T>(self) -> (r: Next<T>)
        ensures
            follows(r, self@),
            !(r is Reply),
    {
        match self {
            Stop::Ask(q) => Next::Ask(q),
            Stop::Fail(d) => Next::Fail(d),
        }
    }

    /// A failure handed on from a service.
    pub fn failed(e: &GradatumError) -> (r: Stop)
        ensures
            r@ == Gate::Fail(silent(e@)),
    {
        Stop::Fail(Denial::plain(e.copy()))
    }
}

/// Of two checks the second counts only when the first is passed.
pub proof fn checks_come_in_order(first: Gate, second: Gate)
    ensures
        first is Pass ==> chain(first, second) == second,
        !(first is Pass) ==> chain(first, second) == first,
{
}

/// A step that follows what is due asks that question, refuses so, or replies.
pub proof fn a_step_is_what_is_due<T>(n: Next<T>, g: Gate)
    requires
        follows(n, g),
    ensures
        n is Reply <==> g is Pass,
        n matches Next::Ask(q) ==> g == Gate::Ask(q@),
        n matches Next::Fail(d) ==> g is Fail && g->Fail_0.error == d.error@ && (g->Fail_0.audit
            is Some <==> d.audit is Some),
{
}

/// An optional list by its contents holds the same texts.
pub proof fn an_optional_list_keeps_its_texts(o: Option<Vec<String>>, i: int)
    ensures
        opt_list(o) is Some <==> o is Some,
        o matches Some(v) ==> opt_list(o)->0.len() == v@.len() && (0 <= i < v@.len()
            ==> opt_list(o)->0[i] == v@[i]@),
{
}

/// What is said of a question in a contract is what it holds, each thing in its own place.
pub proof fn a_question_says_what_it_asks(q: Ask)
    ensures
        match q {
            Ask::WriteVault { requested, deny } => {
                &&& q@ is WriteVault
                &&& q@->WriteVault_requested == rows::opt_text(requested)
                &&& q@->WriteVault_deny == deny@
            },
            Ask::ReadVault { tenant, vault, section, deny } => {
                &&& q@ is ReadVault
                &&& q@->ReadVault_tenant == tenant@
                &&& q@->ReadVault_vault == rows::opt_text(vault)
                &&& q@->ReadVault_section == rows::opt_text(section)
                &&& q@->ReadVault_deny == deny@
            },
            Ask::ReadGrant { principal, vault, section } => {
                &&& q@ is ReadGrant
                &&& q@->ReadGrant_principal == principal@
                &&& q@->ReadGrant_vault == vault@
                &&& q@->ReadGrant_section == section@
            },
            Ask::Acl { op, locus } => {
                &&& q@ is Acl
                &&& q@->Acl_op == op
                &&& q@->Acl_locus == locus@
            },
            Ask::TitleLookup { tenant, title } => {
                &&& q@ is TitleLookup
                &&& q@->TitleLookup_tenant == tenant@
                &&& q@->TitleLookup_title == title@
            },
            Ask::Redirect { tenant, title } => {
                &&& q@ is Redirect
                &&& q@->Redirect_tenant == tenant@
                &&& q@->Redirect_title == title@
            },
            Ask::ReadNote { tenant, id } => {
                &&& q@ is ReadNote
                &&& q@->ReadNote_tenant == tenant@
                &&& q@->ReadNote_id == id@
            },
            Ask::TitlesSections { vault, ids } => {
                &&& q@ is TitlesSections
                &&& q@->TitlesSections_vault == vault@
                &&& q@->TitlesSections_ids == text::views(ids@)
            },
            Ask::Statuses { vault, ids } => {
                &&& q@ is Statuses
                &&& q@->Statuses_vault == vault@
                &&& q@->Statuses_ids == text::views(ids@)
            },
            Ask::ListNotes { tenant, section, role_kind, role_status, limit, cursor } => {
                &&& q@ is ListNotes
                &&& q@->ListNotes_tenant == tenant@
                &&& q@->ListNotes_section == rows::opt_text(section)
                &&& q@->ListNotes_role_kind == rows::opt_text(role_kind)
                &&& q@->ListNotes_role_status == rows::opt_text(role_status)
                &&& q@->ListNotes_limit == limit as nat
                &&& q@->ListNotes_cursor == rows::opt_text(cursor)
            },
            Ask::FollowingNotes { tenant, section, role_kind, role_status, limit, cursor } => {
                &&& q@ is FollowingNotes
                &&& q@->FollowingNotes_tenant == tenant@
                &&& q@->FollowingNotes_section == rows::opt_text(section)
                &&& q@->FollowingNotes_role_kind == rows::opt_text(role_kind)
                &&& q@->FollowingNotes_role_status == rows::opt_text(role_status)
                &&& q@->FollowingNotes_limit == limit as nat
                &&& q@->FollowingNotes_cursor == cursor@
            },
            Ask::Archives {
                vault,
                section,
                since_ms,
                until_ms,
                include_gc,
                include_restored,
                limit,
                offset,
            } => {
                &&& q@ is Archives
                &&& q@->Archives_vault == rows::opt_text(vault)
                &&& q@->Archives_section == rows::opt_text(section)
                &&& q@->Archives_since_ms == since_ms
                &&& q@->Archives_until_ms == until_ms
                &&& q@->Archives_include_gc == include_gc
                &&& q@->Archives_include_restored == include_restored
                &&& q@->Archives_limit == limit as nat
                &&& q@->Archives_offset == offset as nat
            },
            Ask::Neighbors { tenant, id, depth } => {
                &&& q@ is Neighbors
                &&& q@->Neighbors_tenant == tenant@
                &&& q@->Neighbors_id == id@
                &&& q@->Neighbors_depth == depth
            },
            Ask::Backlinks { tenant, id } => {
                &&& q@ is Backlinks
                &&& q@->Backlinks_tenant == tenant@
                &&& q@->Backlinks_id == id@
            },
            Ask::Seeds { vault, query, limit } => {
                &&& q@ is Seeds
                &&& q@->Seeds_vault == vault@
                &&& q@->Seeds_query == query@
                &&& q@->Seeds_limit == limit as nat
            },
            Ask::Lineages { tenant, ids } => {
                &&& q@ is Lineages
                &&& q@->Lineages_tenant == tenant@
                &&& q@->Lineages_ids == text::views(ids@)
            },
            Ask::Timeline {
                vault,
                doc_kind,
                from_ms,
                to_ms,
                limit,
                cursor,
                as_of_ms,
                include_expired,
            } => {
                &&& q@ is Timeline
                &&& q@->Timeline_vault == vault@
                &&& q@->Timeline_doc_kind == opt_list(doc_kind)
                &&& q@->Timeline_from_ms == from_ms
                &&& q@->Timeline_to_ms == to_ms
                &&& q@->Timeline_limit == limit as nat
                &&& q@->Timeline_cursor == rows::opt_text(cursor)
                &&& q@->Timeline_as_of_ms == as_of_ms
                &&& q@->Timeline_include_expired == include_expired
            },
            Ask::EncodeCursor { anchor_ms, note_id } => {
                &&& q@ is EncodeCursor
                &&& q@->EncodeCursor_anchor_ms == anchor_ms
                &&& q@->EncodeCursor_note_id == note_id@
            },
            Ask::NoteInTenant { tenant, id } => {
                &&& q@ is NoteInTenant
                &&& q@->NoteInTenant_tenant == tenant@
                &&& q@->NoteInTenant_id == id@
            },
            Ask::NoteIndexed { tenant, id } => {
                &&& q@ is NoteIndexed
                &&& q@->NoteIndexed_tenant == tenant@
                &&& q@->NoteIndexed_id == id@
            },
            Ask::EnqueueWrite {
                tenant,
                note_id,
                author,
                title,
                body,
                tags,
                section_hint,
                occurred_at,
                expected_sha256,
            } => {
                &&& q@ is EnqueueWrite
                &&& q@->EnqueueWrite_tenant == tenant@
                &&& q@->EnqueueWrite_note_id == note_id@
                &&& q@->EnqueueWrite_author == author@
                &&& q@->EnqueueWrite_title == title@
                &&& q@->EnqueueWrite_body == body@
                &&& q@->EnqueueWrite_tags == text::views(tags@)
                &&& q@->EnqueueWrite_section_hint == rows::opt_text(section_hint)
                &&& q@->EnqueueWrite_occurred_at == rows::opt_text(occurred_at)
                &&& q@->EnqueueWrite_expected_sha256 == rows::opt_text(expected_sha256)
            },
            Ask::CategoryDrift { title, section_hint, tags } => {
                &&& q@ is CategoryDrift
                &&& q@->CategoryDrift_title == title@
                &&& q@->CategoryDrift_section_hint == rows::opt_text(section_hint)
                &&& q@->CategoryDrift_tags == text::views(tags@)
            },
            Ask::NoteDrift { rule, category, expected_section, actual_section, title, trace } => {
                &&& q@ is NoteDrift
                &&& q@->NoteDrift_rule == rule@
                &&& q@->NoteDrift_category == category@
                &&& q@->NoteDrift_expected_section == expected_section@
                &&& q@->NoteDrift_actual_section == rows::opt_text(actual_section)
                &&& q@->NoteDrift_title == title@
                &&& q@->NoteDrift_trace == trace@
            },
            Ask::NoteWrite { job_id, trace } => {
                &&& q@ is NoteWrite
                &&& q@->NoteWrite_job_id == job_id@
                &&& q@->NoteWrite_trace == trace@
            },
            Ask::InsertEvents { tenant, events } => {
                &&& q@ is InsertEvents
                &&& q@->InsertEvents_tenant == tenant@
                &&& q@->InsertEvents_events == event_log::event_models(events@)
            },
            Ask::Curate { id, title, body, tags } => {
                &&& q@ is Curate
                &&& q@->Curate_id == id@
                &&& q@->Curate_title == title@
                &&& q@->Curate_body == body@
                &&& q@->Curate_tags == text::views(tags@)
            },
            Ask::Versions { tenant, id } => {
                &&& q@ is Versions
                &&& q@->Versions_tenant == tenant@
                &&& q@->Versions_id == id@
            },
            Ask::Snapshot { tenant, id, ts_ms } => {
                &&& q@ is Snapshot
                &&& q@->Snapshot_tenant == tenant@
                &&& q@->Snapshot_id == id@
                &&& q@->Snapshot_ts_ms == ts_ms
            },
            Ask::Restore { vault, id, ts_ms } => {
                &&& q@ is Restore
                &&& q@->Restore_vault == vault@
                &&& q@->Restore_id == id@
                &&& q@->Restore_ts_ms == ts_ms
            },
            Ask::Diff { id, a, b } => {
                &&& q@ is Diff
                &&& q@->Diff_id == id@
                &&& q@->Diff_a == a@
                &&& q@->Diff_b == b@
            },
            Ask::Retrieve { vault, query, section, limit } => {
                &&& q@ is Retrieve
                &&& q@->Retrieve_vault == vault@
                &&& q@->Retrieve_query == query@
                &&& q@->Retrieve_section == section@
                &&& q@->Retrieve_limit == limit as nat
            },
            Ask::Hydrate { vault, ids } => {
                &&& q@ is Hydrate
                &&& q@->Hydrate_vault == vault@
                &&& q@->Hydrate_ids == text::views(ids@)
            },
            Ask::Recall { vault, class, limit } => {
                &&& q@ is Recall
                &&& q@->Recall_vault == vault@
                &&& q@->Recall_class == class@
                &&& q@->Recall_limit == limit as nat
            },
            Ask::Downgrade { vault, note_id, reason, replaced_by } => {
                &&& q@ is Downgrade
                &&& q@->Downgrade_vault == rows::opt_text(vault)
                &&& q@->Downgrade_note_id == note_id@
                &&& q@->Downgrade_reason == reason@
                &&& q@->Downgrade_replaced_by == rows::opt_text(replaced_by)
            },
            Ask::ChangeStatus { vault, note_id, status, reason } => {
                &&& q@ is ChangeStatus
                &&& q@->ChangeStatus_vault == rows::opt_text(vault)
                &&& q@->ChangeStatus_note_id == note_id@
                &&& q@->ChangeStatus_status == status@
                &&& q@->ChangeStatus_reason == rows::opt_text(reason)
            },
            Ask::PatchNote { vault, note_id, reason, replaced_by } => {
                &&& q@ is PatchNote
                &&& q@->PatchNote_vault == rows::opt_text(vault)
                &&& q@->PatchNote_note_id == note_id@
                &&& q@->PatchNote_reason == rows::opt_text(reason)
                &&& q@->PatchNote_replaced_by == rows::opt_text(replaced_by)
            },
            Ask::AddTags { vault, note_id, tags } => {
                &&& q@ is AddTags
                &&& q@->AddTags_vault == rows::opt_text(vault)
                &&& q@->AddTags_note_id == note_id@
                &&& q@->AddTags_tags == text::views(tags@)
            },
            Ask::MoveNote { vault, id, locus } => {
                &&& q@ is MoveNote
                &&& q@->MoveNote_vault == rows::opt_text(vault)
                &&& q@->MoveNote_id == id@
                &&& q@->MoveNote_locus == locus@
            },
            Ask::IndexedNote { vault, id } => {
                &&& q@ is IndexedNote
                &&& q@->IndexedNote_vault == vault@
                &&& q@->IndexedNote_id == id@
            },
            Ask::Tombstone {
                vault,
                locus,
                note_id,
                content_hash,
                section,
                title,
                body,
                deleted_by,
                request_id,
            } => {
                &&& q@ is Tombstone
                &&& q@->Tombstone_vault == vault@
                &&& q@->Tombstone_locus == locus@
                &&& q@->Tombstone_note_id == note_id@
                &&& q@->Tombstone_content_hash == rows::opt_text(content_hash)
                &&& q@->Tombstone_section == section@
                &&& q@->Tombstone_title == rows::opt_text(title)
                &&& q@->Tombstone_body == body@
                &&& q@->Tombstone_deleted_by == rows::opt_text(deleted_by)
                &&& q@->Tombstone_request_id == request_id@
            },
            Ask::Archive { vault, note_id, archived_by, gc_due_ms } => {
                &&& q@ is Archive
                &&& q@->Archive_vault == vault@
                &&& q@->Archive_note_id == note_id@
                &&& q@->Archive_archived_by == rows::opt_text(archived_by)
                &&& q@->Archive_gc_due_ms == gc_due_ms
            },
            Ask::PurgeIndex { vault, note_id } => {
                &&& q@ is PurgeIndex
                &&& q@->PurgeIndex_vault == vault@
                &&& q@->PurgeIndex_note_id == note_id@
            },
            Ask::PurgeRedirect { vault, note_id } => {
                &&& q@ is PurgeRedirect
                &&& q@->PurgeRedirect_vault == vault@
                &&& q@->PurgeRedirect_note_id == note_id@
            },
            Ask::ForgetTopic { vault, query, limit } => {
                &&& q@ is ForgetTopic
                &&& q@->ForgetTopic_vault == vault@
                &&& q@->ForgetTopic_query == query@
                &&& q@->ForgetTopic_limit == limit as nat
            },
            Ask::ForgetLocus { vault, locus } => {
                &&& q@ is ForgetLocus
                &&& q@->ForgetLocus_vault == vault@
                &&& q@->ForgetLocus_locus == locus@
            },
            Ask::ForgetAgent { agent_id, vaults } => {
                &&& q@ is ForgetAgent
                &&& q@->ForgetAgent_agent_id == agent_id@
                &&& q@->ForgetAgent_vaults == text::views(vaults@)
            },
            Ask::ListForgotten { vault, limit, cursor } => {
                &&& q@ is ListForgotten
                &&& q@->ListForgotten_vault == vault@
                &&& q@->ListForgotten_limit == limit as nat
                &&& q@->ListForgotten_cursor == rows::opt_text(cursor)
            },
            Ask::Unforget { vault, id } => {
                &&& q@ is Unforget
                &&& q@->Unforget_vault == vault@
                &&& q@->Unforget_id == id@
            },
            Ask::ResolveRead { vault, section } => {
                &&& q@ is ResolveRead
                &&& q@->ResolveRead_vault == vault@
                &&& q@->ResolveRead_section == section@
            },
            Ask::GetJob { id, tenant } => {
                &&& q@ is GetJob
                &&& q@->GetJob_id == id@
                &&& q@->GetJob_tenant == rows::opt_text(tenant)
            },
            Ask::CancelJob { id, tenant } => {
                &&& q@ is CancelJob
                &&& q@->CancelJob_id == id@
                &&& q@->CancelJob_tenant == rows::opt_text(tenant)
            },
            Ask::StoreKey { key, job_id } => {
                &&& q@ is StoreKey
                &&& q@->StoreKey_key == key@
                &&& q@->StoreKey_job_id == job_id@
            },
            Ask::CodeQuery { vault, kind, value, limit } => {
                &&& q@ is CodeQuery
                &&& q@->CodeQuery_vault == vault@
                &&& q@->CodeQuery_kind == kind@
                &&& q@->CodeQuery_value == value@
                &&& q@->CodeQuery_limit == limit as nat
            },
            Ask::CodeRanks { scores, cohesion } => {
                &&& q@ is CodeRanks
                &&& q@->CodeRanks_scores == scores@
                &&& q@->CodeRanks_cohesion == cohesion@
            },
            Ask::CodeHashes { vault, paths } => {
                &&& q@ is CodeHashes
                &&& q@->CodeHashes_vault == vault@
                &&& q@->CodeHashes_paths == text::views(paths@)
            },
            Ask::CodeSources { repo, paths } => {
                &&& q@ is CodeSources
                &&& q@->CodeSources_repo == repo@
                &&& q@->CodeSources_paths == text::views(paths@)
            },
            Ask::CodeCallers { vault, names, limit } => {
                &&& q@ is CodeCallers
                &&& q@->CodeCallers_vault == vault@
                &&& q@->CodeCallers_names == text::views(names@)
                &&& q@->CodeCallers_limit == limit as nat
            },
            Ask::MapPage { vault, section, limit, cursor } => {
                &&& q@ is MapPage
                &&& q@->MapPage_vault == vault@
                &&& q@->MapPage_section == section@
                &&& q@->MapPage_limit == limit as nat
                &&& q@->MapPage_cursor == rows::opt_text(cursor)
            },
            Ask::ReviewQueue { vault, cursor, limit } => {
                &&& q@ is ReviewQueue
                &&& q@->ReviewQueue_vault == vault@
                &&& q@->ReviewQueue_cursor == rows::opt_text(cursor)
                &&& q@->ReviewQueue_limit == limit as nat
            },
            _ => true,
        },
{
}

/// A trace and a refusal say what they hold.
pub proof fn a_refusal_says_what_it_holds(t: Audit, d: Denial)
    ensures
        t@.event == t.event@,
        t@.tenant == t.tenant@,
        t@.locus == t.locus@,
        t@.reason == t.reason@,
        t@.note_id is Some <==> t.note_id is Some,
        t.note_id is Some ==> t@.note_id->0 == t.note_id->0@,
        d@.error == d.error@,
        d@.audit is Some <==> d.audit is Some,
        d.audit is Some ==> d@.audit->0 == d.audit->0@,
{
}

}
