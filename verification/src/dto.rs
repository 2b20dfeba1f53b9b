//! What the API takes and what it gives back.

use vstd::prelude::*;

verus! {

// ── Search ──────────────────────────────────────────────────────────────────

/// A search.
#[derive(Debug)]
pub struct VaultSearchRequest {
    pub query: String,
    /// How many results; ten when absent.
    pub limit: Option<u32>,
    pub tenant_id: Option<String>,
    /// The vault to read, when it is not the caller's own.
    pub vault_id: Option<String>,
    pub section: Option<String>,
    pub locus: Option<String>,
    pub status: Option<String>,
    pub from_ms: Option<i64>,
    pub to_ms: Option<i64>,
    pub include_downgraded: bool,
    pub include_corpus_count: bool,
    pub compact: bool,
}

/// A search result.
///
/// `vault_id` and `path` together are the address of the note: a path is unique within a vault
/// only.
#[derive(Debug)]
pub struct SearchHit {
    /// The vault that the note was read from.
    pub vault_id: String,
    /// `<section>/<note id>`.
    pub path: String,
    /// The relevance, with four decimals.
    pub score: String,
    pub title: Option<String>,
    pub snippet: Option<String>,
    /// The status in the index, empty when it is not known.
    pub status: String,
    /// The moment that the note is about.
    pub anchor_ms: Option<i64>,
}

/// The results of a search.
#[derive(Debug)]
pub struct VaultSearchResponse {
    pub items: Vec<SearchHit>,
    /// How many notes match the words of the query, when that was asked for.
    pub corpus_match_count: Option<u64>,
    /// Whether the count stopped at its upper bound.
    pub corpus_count_capped: bool,
}

// ── Reading ─────────────────────────────────────────────────────────────────

/// A read of one note.
#[derive(Debug)]
pub struct VaultReadRequest {
    /// An identifier, `<section>/<identifier>`, a title, or a slug.
    pub path: String,
    pub section: Option<String>,
    pub tenant_id: Option<String>,
    pub compact: bool,
}

/// What the front matter of a note says.
#[derive(Debug)]
pub struct NoteMetadata {
    pub section: String,
    pub status: String,
    pub author: Option<String>,
    pub tags: Vec<String>,
    pub vault_id: String,
    pub created: i64,
    pub updated: Option<i64>,
}

/// A note.
#[derive(Debug)]
pub struct VaultReadResponse {
    /// The identifier of the note.
    pub path: String,
    /// The title in the index, else the heading that opens the note.
    pub title: Option<String>,
    pub content: String,
    pub metadata: Option<NoteMetadata>,
    pub size_bytes: u64,
    /// The SHA-256 of the content, in hexadecimal.
    pub sha256: String,
}

// ── Listing ─────────────────────────────────────────────────────────────────

/// A page of the notes of a vault.
#[derive(Debug)]
pub struct VaultListRequest {
    pub tenant_id: Option<String>,
    pub section: Option<String>,
    /// Accepted and not used.
    pub pattern: Option<String>,
    pub role_kind: Option<String>,
    pub role_status: Option<String>,
    /// How many notes; twenty when absent.
    pub limit: Option<u32>,
    pub cursor: Option<String>,
}

/// A note in a listing.
#[derive(Debug)]
pub struct VaultEntry {
    pub path: String,
    pub size_bytes: u64,
    /// The last change, in UTC; empty when it is outside the calendar.
    pub modified_at: String,
}

/// A page of the notes of a vault.
#[derive(Debug)]
pub struct VaultListResponse {
    pub entries: Vec<VaultEntry>,
    /// Where the next page begins, when there may be one.
    pub next_cursor: Option<String>,
    /// How many notes there are in all.
    pub total: u64,
}

/// The state of a vault.
#[derive(Debug)]
pub struct VaultStatusResponse {
    pub tenant_id: String,
    pub note_count: u64,
    pub total_size_bytes: u64,
    pub index_version: String,
    pub last_indexed_at: Option<String>,
    pub health: String,
}

/// An author of a vault.
#[derive(Debug)]
pub struct AuthorEntry {
    pub name: String,
    pub note_count: u64,
}

/// The authors of a vault.
#[derive(Debug)]
pub struct VaultAuthorsResponse {
    pub authors: Vec<AuthorEntry>,
}

/// A tag of a vault.
#[derive(Debug)]
pub struct TagEntry {
    pub tag: String,
    pub note_count: u64,
}

/// The tags of a vault, the most frequent first.
#[derive(Debug)]
pub struct VaultTagsResponse {
    pub tags: Vec<TagEntry>,
    /// How many tags there are before the bound was applied.
    pub total: u64,
}

// ── Links ───────────────────────────────────────────────────────────────────

/// A link from one note to another.
#[derive(Debug)]
pub struct GraphEdge {
    pub from: String,
    pub to: String,
    pub kind: String,
}

/// The notes around a note, and the links between them.
#[derive(Debug)]
pub struct VaultGraphResponse {
    pub nodes: Vec<String>,
    pub edges: Vec<GraphEdge>,
}

/// The direct links of a note.
pub type VaultLinksResponse = VaultGraphResponse;

/// A note in a lineage; its score is always one.
#[derive(Debug)]
pub struct TraceEntry {
    pub path: String,
    pub snippet: Option<String>,
    pub tags: Vec<String>,
}

/// The lineage of a note.
#[derive(Debug)]
pub struct VaultTraceResponse {
    pub entries: Vec<TraceEntry>,
}

// ── Context ─────────────────────────────────────────────────────────────────

/// How a context was assembled.
#[derive(Debug)]
pub struct ContextDiagnostics {
    pub candidates_considered: u32,
    pub included_count: u32,
    /// Whether the semantic arm failed and the words alone were searched.
    pub embed_fallback: bool,
    pub skills_injected: u32,
}

/// A note that a context refers to without quoting it.
#[derive(Debug)]
pub struct StubDto {
    pub ulid: String,
    pub title: String,
    pub section: String,
    pub snippet: String,
}

/// What became of the candidates of a context.
#[derive(Debug)]
pub struct ContextCounts {
    pub inline: usize,
    pub stub: usize,
    pub dropped: usize,
}

impl ContextCounts {
    /// Whether the counts account for each candidate once.
    pub open spec fn accounts_for(&self, candidates: u32) -> bool {
        self.inline + self.stub + self.dropped == candidates
    }

    /// Whether the counts account for each candidate once.
    pub fn account_for(&self, diagnostics: &ContextDiagnostics) -> (r: bool)
        ensures
            r == self.accounts_for(diagnostics.candidates_considered),
    {
        let sum: u128 = self.inline as u128 + self.stub as u128 + self.dropped as u128;
        sum == diagnostics.candidates_considered as u128
    }
}

// ── Writing ─────────────────────────────────────────────────────────────────

/// A write that was accepted and waits in the queue.
#[derive(Debug)]
pub struct EnqueuedResponseUlid {
    pub job_id: String,
    pub status: String,
    pub poll_url: String,
    /// The identifier that the note will have.
    pub note_id: String,
}

// ── Jobs ────────────────────────────────────────────────────────────────────

/// The state of a job of the numbered queue.
#[derive(Debug)]
pub struct JobStatusResponse {
    pub job_id: i64,
    pub status: String,
    pub attempts: i32,
    /// The last error as an opaque code.
    pub last_error: Option<String>,
}

// ── Compact bodies ──────────────────────────────────────────────────────────

/// The body of a compact reply.
#[derive(Debug)]
pub struct CompactBody {
    pub compact: String,
}

// ── Timeline and lessons ────────────────────────────────────────────────────

/// A note on the timeline.
#[derive(Debug)]
pub struct TimelineItem {
    pub note_id: String,
    pub anchor_ms: i64,
    pub anchor_src: String,
    pub doc_kind: String,
    pub title: Option<String>,
}

/// A page of the timeline.
#[derive(Debug)]
pub struct VaultTimelineResponse {
    pub items: Vec<TimelineItem>,
    pub next_cursor: Option<String>,
}

/// A lesson.
#[derive(Debug)]
pub struct LessonHit {
    pub ulid: String,
    pub title: String,
    pub snippet: String,
    pub tags: Vec<String>,
    pub anchor_ms: i64,
}

/// The lessons of a class.
#[derive(Debug)]
pub struct LessonsRecallResponse {
    pub items: Vec<LessonHit>,
}

}
