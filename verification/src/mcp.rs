//! The operations as tools of the Model Context Protocol.

use vstd::prelude::*;
use vstd::string::*;

use crate::access;
use crate::cards::{self, CardNext, CreateFeatureCardRequest, CreateFeatureCardResponse};
use crate::code_scope::{self, CodeScopeRequest, CodeScopeResponse, CodeSettings};
use crate::compact;
use crate::door::{self, HttpGate, HttpNext};
use crate::dto::{
    EnqueuedResponseUlid, LessonsRecallResponse, VaultAuthorsResponse, VaultGraphResponse,
    VaultLinksResponse, VaultListRequest, VaultListResponse, VaultReadRequest, VaultReadResponse,
    VaultSearchRequest, VaultSearchResponse, VaultStatusResponse, VaultTagsResponse,
    VaultTimelineResponse, VaultTraceResponse,
};
use crate::error::{self, GradatumError, Refusal, StatusCode};
use crate::flow::{self, AclOp, Answers, Ask, Audit, AuditTrace, Denial, Gate, Next, Question};
use crate::forget::{self, ForgetReply, ForgetSettings, VaultForgetRequest};
use crate::graph::{
    self, ContextGrant, VaultGraphRequest, VaultLinksRequest, VaultTraceRequest,
};
use crate::history::{
    self, VaultClassifyRequest, VaultClassifyResponse, VaultDiffRequest, VaultDiffResponse,
    VaultHistoryGetRequest, VaultHistoryGetResponse, VaultHistoryRequest, VaultHistoryResponse,
    VaultRestoreRequest, VaultRestoreResponse,
};
use crate::identity;
use crate::ids::NoteId;
use crate::jobs::{self, JobStatusView, JobsSettings};
use crate::lessons::{self, LessonsRecallRequest, LessonsSettings};
use crate::listing::{
    self, ListingSettings, VaultArchivesListRequest, VaultArchivesListResponse, VaultTagsRequest,
};
use crate::notes::{self, VaultDowngradeRequest, VaultDowngradeResponse};
use crate::read;
use crate::reference;
use crate::rows;
use crate::search::{self, SearchAnswers, SearchAsk, SearchNext, SearchQuestion, SearchSettings};
use crate::text;
use crate::timeline::{self, VaultTimelineRequest};
use crate::trust::TrustContext;
use crate::usage::{self, ReadKind};
use crate::writing::{self, FeatureWriteAuthority, VaultWriteRequest};

verus! {

/// The most bytes in the body of a request: 512 KiB.
pub const MCP_BODY_LIMIT: usize = 524_288;

// ── Tools ───────────────────────────────────────────────────────────────────

/// A tool.
#[derive(Debug, Clone, Copy, PartialEq, Eq, Structural)]
pub enum ToolName {
    Search,
    Read,
    List,
    Status,
    Graph,
    Links,
    Trace,
    Context,
    Timeline,
    Authors,
    Tags,
    Write,
    CreateFeatureCard,
    Classify,
    Downgrade,
    History,
    HistoryGet,
    Restore,
    Diff,
    Forget,
    ArchivesList,
    LessonsRecall,
    CodeScope,
    ProactiveRecall,
    ProactiveFeedback,
    JobStatus,
}

/// How many tools there are.
pub const TOOL_COUNT: usize = 26;

/// The tools, in the order in which they are declared.
pub open spec fn tool_at(i: int) -> ToolName {
    if i == 0 {
        ToolName::Search
    } else if i == 1 {
        ToolName::Read
    } else if i == 2 {
        ToolName::List
    } else if i == 3 {
        ToolName::Status
    } else if i == 4 {
        ToolName::Graph
    } else if i == 5 {
        ToolName::Links
    } else if i == 6 {
        ToolName::Trace
    } else if i == 7 {
        ToolName::Context
    } else if i == 8 {
        ToolName::Timeline
    } else if i == 9 {
        ToolName::Authors
    } else if i == 10 {
        ToolName::Tags
    } else if i == 11 {
        ToolName::Write
    } else if i == 12 {
        ToolName::CreateFeatureCard
    } else if i == 13 {
        ToolName::Classify
    } else if i == 14 {
        ToolName::Downgrade
    } else if i == 15 {
        ToolName::History
    } else if i == 16 {
        ToolName::HistoryGet
    } else if i == 17 {
        ToolName::Restore
    } else if i == 18 {
        ToolName::Diff
    } else if i == 19 {
        ToolName::Forget
    } else if i == 20 {
        ToolName::ArchivesList
    } else if i == 21 {
        ToolName::LessonsRecall
    } else if i == 22 {
        ToolName::CodeScope
    } else if i == 23 {
        ToolName::ProactiveRecall
    } else if i == 24 {
        ToolName::ProactiveFeedback
    } else {
        ToolName::JobStatus
    }
}

/// The place of a tool among the declared ones.
pub open spec fn tool_index(t: ToolName) -> int {
    match t {
        ToolName::Search => 0,
        ToolName::Read => 1,
        ToolName::List => 2,
        ToolName::Status => 3,
        ToolName::Graph => 4,
        ToolName::Links => 5,
        ToolName::Trace => 6,
        ToolName::Context => 7,
        ToolName::Timeline => 8,
        ToolName::Authors => 9,
        ToolName::Tags => 10,
        ToolName::Write => 11,
        ToolName::CreateFeatureCard => 12,
        ToolName::Classify => 13,
        ToolName::Downgrade => 14,
        ToolName::History => 15,
        ToolName::HistoryGet => 16,
        ToolName::Restore => 17,
        ToolName::Diff => 18,
        ToolName::Forget => 19,
        ToolName::ArchivesList => 20,
        ToolName::LessonsRecall => 21,
        ToolName::CodeScope => 22,
        ToolName::ProactiveRecall => 23,
        ToolName::ProactiveFeedback => 24,
        ToolName::JobStatus => 25,
    }
}

impl ToolName {
    /// The name under which the tool is called.
    pub open spec fn label(self) -> Seq<char> {
        match self {
            ToolName::Search => "vault_search"@,
            ToolName::Read => "vault_read"@,
            ToolName::List => "vault_list"@,
            ToolName::Status => "vault_status"@,
            ToolName::Graph => "vault_graph"@,
            ToolName::Links => "vault_links"@,
            ToolName::Trace => "vault_trace"@,
            ToolName::Context => "vault_context"@,
            ToolName::Timeline => "vault_timeline"@,
            ToolName::Authors => "vault_authors"@,
            ToolName::Tags => "vault_tags"@,
            ToolName::Write => "vault_write"@,
            ToolName::CreateFeatureCard => "create_feature_card"@,
            ToolName::Classify => "vault_classify"@,
            ToolName::Downgrade => "vault_downgrade"@,
            ToolName::History => "vault_history"@,
            ToolName::HistoryGet => "vault_history_get"@,
            ToolName::Restore => "vault_restore"@,
            ToolName::Diff => "vault_diff"@,
            ToolName::Forget => "vault_forget"@,
            ToolName::ArchivesList => "vault_archives_list"@,
            ToolName::LessonsRecall => "vault_lessons_recall"@,
            ToolName::CodeScope => "code_scope"@,
            ToolName::ProactiveRecall => "vault_proactive_recall"@,
            ToolName::ProactiveFeedback => "vault_proactive_recall_feedback"@,
            ToolName::JobStatus => "job_status"@,
        }
    }

    /// The name under which the tool is called.
    pub fn name(&self) -> (r: &'static str)
        ensures
            r@ == self.label(),
    {
        match self {
            ToolName::Search => "vault_search",
            ToolName::Read => "vault_read",
            ToolName::List => "vault_list",
            ToolName::Status => "vault_status",
            ToolName::Graph => "vault_graph",
            ToolName::Links => "vault_links",
            ToolName::Trace => "vault_trace",
            ToolName::Context => "vault_context",
            ToolName::Timeline => "vault_timeline",
            ToolName::Authors => "vault_authors",
            ToolName::Tags => "vault_tags",
            ToolName::Write => "vault_write",
            ToolName::CreateFeatureCard => "create_feature_card",
            ToolName::Classify => "vault_classify",
            ToolName::Downgrade => "vault_downgrade",
            ToolName::History => "vault_history",
            ToolName::HistoryGet => "vault_history_get",
            ToolName::Restore => "vault_restore",
            ToolName::Diff => "vault_diff",
            ToolName::Forget => "vault_forget",
            ToolName::ArchivesList => "vault_archives_list",
            ToolName::LessonsRecall => "vault_lessons_recall",
            ToolName::CodeScope => "code_scope",
            ToolName::ProactiveRecall => "vault_proactive_recall",
            ToolName::ProactiveFeedback => "vault_proactive_recall_feedback",
            ToolName::JobStatus => "job_status",
        }
    }

    /// What the tool does, in words.
    pub open spec fn purpose(self) -> Seq<char> {
        match self {
            ToolName::Search => "Semantic and BM25 search in the vault"@,
            ToolName::Read => "Read a note by ID or locus"@,
            ToolName::List => "List notes with filters and pagination"@,
            ToolName::Status => "Vault status (health, counters)"@,
            ToolName::Graph => "Link graph between notes"@,
            ToolName::Links => "Inbound/outbound links of a note"@,
            ToolName::Trace => "Propagation trace of a note"@,
            ToolName::Context => "Extended context of a note"@,
            ToolName::Timeline => "Notes timeline"@,
            ToolName::Authors => "List vault authors"@,
            ToolName::Tags => "List vault tags (most frequent first, bounded; raise with `limit`)"@,
            ToolName::Write => "Write or update a note (async 202)"@,
            ToolName::CreateFeatureCard => "Create a project-map feature card whose F-XX number is assigned by the server. Body carries the 5 non-feature roles (project/status/kind/release/version) and must NOT contain a [[feature:…]] link. Async: returns { feature, number, job_id, note_id, poll_url } — poll job_status."@,
            ToolName::Classify => "Classify a note (heuristic)"@,
            ToolName::Downgrade => "Downgrade a note's status"@,
            ToolName::History => "CoW history of a note"@,
            ToolName::HistoryGet => "Retrieve a historical version"@,
            ToolName::Restore => "Restore a historical version"@,
            ToolName::Diff => "Diff between two versions of a note"@,
            ToolName::Forget => "Semantic forget (dry-run + confirm)"@,
            ToolName::ArchivesList => "List archived notes (READ-ONLY) — filters + pagination, to prepare operator CLI commands"@,
            ToolName::LessonsRecall => "BM25 lessons recall"@,
            ToolName::CodeScope => "Selective source-code scope"@,
            ToolName::ProactiveRecall => "Proactive memory recall (F-46)"@,
            ToolName::ProactiveFeedback => "Proactive recall feedback (F-46)"@,
            ToolName::JobStatus => "State of an async job by job_id. Returns { status, terminal, error, conflict, result_note }: `terminal=true` (Done/DLQ/Cancelled/Conflict) → conclude, `terminal=false` (Pending/Running/Waiting/Failed) → keep polling. Snapshot at instant T — the caller re-polls, no server-side wait."@,
        }
    }

    /// What the tool does, in words.
    pub fn description(&self) -> (r: &'static str)
        ensures
            r@ == self.purpose(),
    {
        match self {
            ToolName::Search => "Semantic and BM25 search in the vault",
            ToolName::Read => "Read a note by ID or locus",
            ToolName::List => "List notes with filters and pagination",
            ToolName::Status => "Vault status (health, counters)",
            ToolName::Graph => "Link graph between notes",
            ToolName::Links => "Inbound/outbound links of a note",
            ToolName::Trace => "Propagation trace of a note",
            ToolName::Context => "Extended context of a note",
            ToolName::Timeline => "Notes timeline",
            ToolName::Authors => "List vault authors",
            ToolName::Tags => "List vault tags (most frequent first, bounded; raise with `limit`)",
            ToolName::Write => "Write or update a note (async 202)",
            ToolName::CreateFeatureCard => "Create a project-map feature card whose F-XX number is assigned by the server. Body carries the 5 non-feature roles (project/status/kind/release/version) and must NOT contain a [[feature:…]] link. Async: returns { feature, number, job_id, note_id, poll_url } — poll job_status.",
            ToolName::Classify => "Classify a note (heuristic)",
            ToolName::Downgrade => "Downgrade a note's status",
            ToolName::History => "CoW history of a note",
            ToolName::HistoryGet => "Retrieve a historical version",
            ToolName::Restore => "Restore a historical version",
            ToolName::Diff => "Diff between two versions of a note",
            ToolName::Forget => "Semantic forget (dry-run + confirm)",
            ToolName::ArchivesList => "List archived notes (READ-ONLY) — filters + pagination, to prepare operator CLI commands",
            ToolName::LessonsRecall => "BM25 lessons recall",
            ToolName::CodeScope => "Selective source-code scope",
            ToolName::ProactiveRecall => "Proactive memory recall (F-46)",
            ToolName::ProactiveFeedback => "Proactive recall feedback (F-46)",
            ToolName::JobStatus => "State of an async job by job_id. Returns { status, terminal, error, conflict, result_note }: `terminal=true` (Done/DLQ/Cancelled/Conflict) → conclude, `terminal=false` (Pending/Running/Waiting/Failed) → keep polling. Snapshot at instant T — the caller re-polls, no server-side wait.",
        }
    }

    /// Whether the tool takes arguments.
    pub open spec fn parametric(self) -> bool {
        !(self is Status) && !(self is Authors)
    }

    /// Whether the tool takes arguments.
    pub fn takes_arguments(&self) -> (r: bool)
        ensures
            r == self.parametric(),
    {
        match self {
            ToolName::Status => false,
            ToolName::Authors => false,
            _ => true,
        }
    }
}

/// A tool as it is declared.
#[derive(Debug)]
pub struct ToolEntry {
    pub tool: ToolName,
    pub name: &'static str,
    pub description: &'static str,
    pub takes_arguments: bool,
}

/// Whether `e` declares the tool `t`.
pub open spec fn declares(e: ToolEntry, t: ToolName) -> bool {
    &&& e.tool == t
    &&& e.name@ == t.label()
    &&& e.description@ == t.purpose()
    &&& e.takes_arguments == t.parametric()
}

fn entry(tool: ToolName) -> (r: ToolEntry)
    ensures
        declares(r, tool),
{
    ToolEntry {
        tool,
        name: tool.name(),
        description: tool.description(),
        takes_arguments: tool.takes_arguments(),
    }
}

/// The tools that are declared.
pub fn tool_catalog() -> (r: Vec<ToolEntry>)
    ensures
        r@.len() == TOOL_COUNT,
        forall|i: int| 0 <= i < TOOL_COUNT ==> declares(#[trigger] r@[i], tool_at(i)),
{
    vec![
        entry(ToolName::Search),
        entry(ToolName::Read),
        entry(ToolName::List),
        entry(ToolName::Status),
        entry(ToolName::Graph),
        entry(ToolName::Links),
        entry(ToolName::Trace),
        entry(ToolName::Context),
        entry(ToolName::Timeline),
        entry(ToolName::Authors),
        entry(ToolName::Tags),
        entry(ToolName::Write),
        entry(ToolName::CreateFeatureCard),
        entry(ToolName::Classify),
        entry(ToolName::Downgrade),
        entry(ToolName::History),
        entry(ToolName::HistoryGet),
        entry(ToolName::Restore),
        entry(ToolName::Diff),
        entry(ToolName::Forget),
        entry(ToolName::ArchivesList),
        entry(ToolName::LessonsRecall),
        entry(ToolName::CodeScope),
        entry(ToolName::ProactiveRecall),
        entry(ToolName::ProactiveFeedback),
        entry(ToolName::JobStatus),
    ]
}

/// The tool of this name, if there is one.
pub fn tool_named(name: &str) -> (r: Option<ToolName>)
    ensures
        r matches Some(t) ==> t.label() == name@,
        r is None ==> forall|t: ToolName| #[trigger] t.label() != name@,
{
    let catalog = tool_catalog();
    let mut i: usize = 0;
    while i < catalog.len()
        invariant
            i <= catalog@.len(),
            catalog@.len() == TOOL_COUNT,
            forall|k: int| 0 <= k < TOOL_COUNT ==> declares(#[trigger] catalog@[k], tool_at(k)),
            forall|k: int| 0 <= k < i ==> (#[trigger] tool_at(k)).label() != name@,
        decreases catalog@.len() - i,
    {
        if text::same(catalog[i].name, name) {
            return Some(catalog[i].tool);
        }
        i = i + 1;
    }
    proof {
        assert forall|t: ToolName| #[trigger] t.label() != name@ by {
            assert(tool_at(tool_index(t)) == t);
        }
    }
    None
}

/// The key under which a call is counted, if the tool of this name is declared.
pub fn usage_key(name: &str) -> (r: Option<String>)
    ensures
        match r {
            Some(k) => k@ == "mcp:"@ + name@ && exists|t: ToolName| #[trigger] t.label() == name@,
            None => forall|t: ToolName| #[trigger] t.label() != name@,
        },
{
    match tool_named(name) {
        Some(_) => Some(text::cat("mcp:", name)),
        None => None,
    }
}

/// The way to read that a call is counted as, if it is. A look at source code counts once its
/// vault is known to be a code vault.
pub open spec fn read_kind(call: ToolCall) -> Option<ReadKind> {
    match call {
        ToolCall::Search(_) => Some(ReadKind::Search),
        ToolCall::Read(_) => Some(ReadKind::Read),
        ToolCall::Timeline(_) => Some(ReadKind::Timeline),
        ToolCall::LessonsRecall(_) => Some(ReadKind::LessonsRecall),
        ToolCall::CodeScope(req) => if code_scope::code_vault(req.vault@) {
            Some(ReadKind::CodeScope)
        } else {
            None
        },
        _ => None,
    }
}

/// The counter of reads that a call adds one to, beside the one of its tool.
pub fn read_key(call: &ToolCall, trust: &TrustContext) -> (r: Option<String>)
    ensures
        rows::opt_text(r) == match read_kind(*call) {
            Some(kind) => usage::counted(kind, *trust),
            None => None,
        },
{
    match call {
        ToolCall::Search(_) => usage::read_usage(ReadKind::Search, trust),
        ToolCall::Read(_) => usage::read_usage(ReadKind::Read, trust),
        ToolCall::Timeline(_) => usage::read_usage(ReadKind::Timeline, trust),
        ToolCall::LessonsRecall(_) => usage::read_usage(ReadKind::LessonsRecall, trust),
        ToolCall::CodeScope(req) => if code_scope::validate_code_vault_id(req.vault.as_str()) {
            usage::read_usage(ReadKind::CodeScope, trust)
        } else {
            None
        },
        _ => None,
    }
}

// ── Errors ──────────────────────────────────────────────────────────────────

/// The code of an error.
#[derive(Debug, Clone, Copy, PartialEq, Eq, Structural)]
pub enum McpCode {
    InvalidRequest,
    InvalidParams,
    MethodNotFound,
    InternalError,
}

/// An error.
#[derive(Debug)]
pub struct ErrorData {
    pub code: McpCode,
    pub message: String,
}

/// An [`ErrorData`] by its contents.
#[verifier::ext_equal]
pub struct ErrorFacts {
    pub code: McpCode,
    pub message: Seq<char>,
}

impl View for ErrorData {
    type V = ErrorFacts;

    open spec fn view(&self) -> ErrorFacts {
        ErrorFacts { code: self.code, message: self.message@ }
    }
}

fn error_data(code: McpCode, message: &str) -> (r: ErrorData)
    ensures
        r@ == (ErrorFacts { code, message: message@ }),
{
    ErrorData { code, message: message.to_owned() }
}

/// How a refusal is told. What is inside the service is not told.
pub open spec fn error_facts(e: Refusal) -> ErrorFacts {
    match e {
        Refusal::Unauthorized => ErrorFacts {
            code: McpCode::InvalidRequest,
            message: "not authenticated"@,
        },
        Refusal::Forbidden(m) => ErrorFacts {
            code: McpCode::InvalidRequest,
            message: "access denied: "@ + m,
        },
        Refusal::InvalidInput(m) => ErrorFacts { code: McpCode::InvalidParams, message: m },
        Refusal::Validation(m) => ErrorFacts { code: McpCode::InvalidParams, message: m },
        Refusal::NoteNotFound(_) => ErrorFacts {
            code: McpCode::InvalidParams,
            message: "note not found"@,
        },
        Refusal::VaultNotFound(_) => ErrorFacts {
            code: McpCode::InvalidParams,
            message: "vault not found"@,
        },
        Refusal::Conflict(m) => ErrorFacts {
            code: McpCode::InvalidRequest,
            message: "conflict: "@ + m,
        },
        Refusal::InvalidStatusTransition(from, to) => ErrorFacts {
            code: McpCode::InvalidParams,
            message: error::transition_text(from, to),
        },
        Refusal::Storage(_) | Refusal::Io(_) | Refusal::Internal(_) => ErrorFacts {
            code: McpCode::InternalError,
            message: "internal error"@,
        },
    }
}

/// How a refusal is told.
pub fn gradatum_error_to_mcp(err: &GradatumError) -> (r: ErrorData)
    ensures
        r@ == error_facts(err@),
{
    match err {
        GradatumError::Unauthorized => error_data(McpCode::InvalidRequest, "not authenticated"),
        GradatumError::Forbidden(m) => ErrorData {
            code: McpCode::InvalidRequest,
            message: text::cat("access denied: ", m.as_str()),
        },
        GradatumError::InvalidInput(m) => error_data(McpCode::InvalidParams, m.as_str()),
        GradatumError::Validation(m) => error_data(McpCode::InvalidParams, m.as_str()),
        GradatumError::NoteNotFound(_) => error_data(McpCode::InvalidParams, "note not found"),
        GradatumError::VaultNotFound(_) => error_data(McpCode::InvalidParams, "vault not found"),
        GradatumError::Conflict(m) => ErrorData {
            code: McpCode::InvalidRequest,
            message: text::cat("conflict: ", m.as_str()),
        },
        GradatumError::InvalidStatusTransition { from, to } => ErrorData {
            code: McpCode::InvalidParams,
            message: error::transition_message(from.as_str(), to.as_str()),
        },
        GradatumError::Storage(_) => error_data(McpCode::InternalError, "internal error"),
        GradatumError::Io(_) => error_data(McpCode::InternalError, "internal error"),
        GradatumError::Internal(_) => error_data(McpCode::InternalError, "internal error"),
    }
}

/// How the refusal of the state of a job is told.
pub open spec fn job_error_facts(s: StatusCode) -> ErrorFacts {
    match s {
        StatusCode::BadRequest => ErrorFacts {
            code: McpCode::InvalidParams,
            message: "invalid job_id: not a valid ULID"@,
        },
        StatusCode::NotFound => ErrorFacts {
            code: McpCode::InvalidParams,
            message: "job not found"@,
        },
        StatusCode::Forbidden => ErrorFacts {
            code: McpCode::InvalidRequest,
            message: "access denied"@,
        },
        StatusCode::Unauthorized => ErrorFacts {
            code: McpCode::InvalidRequest,
            message: "not authenticated"@,
        },
        _ => ErrorFacts { code: McpCode::InternalError, message: "internal error"@ },
    }
}

/// How the refusal of the state of a job is told.
pub fn job_status_error_to_mcp(status: StatusCode) -> (r: ErrorData)
    ensures
        r@ == job_error_facts(status),
{
    match status {
        StatusCode::BadRequest => error_data(
            McpCode::InvalidParams,
            "invalid job_id: not a valid ULID",
        ),
        StatusCode::NotFound => error_data(McpCode::InvalidParams, "job not found"),
        StatusCode::Forbidden => error_data(McpCode::InvalidRequest, "access denied"),
        StatusCode::Unauthorized => error_data(McpCode::InvalidRequest, "not authenticated"),
        _ => error_data(McpCode::InternalError, "internal error"),
    }
}

// ── Calls ───────────────────────────────────────────────────────────────────

/// A call of a tool, with its arguments.
#[derive(Debug)]
pub enum ToolCall {
    Status,
    Authors,
    Tags(VaultTagsRequest),
    Search(VaultSearchRequest),
    Read(VaultReadRequest),
    List(VaultListRequest),
    Graph(VaultGraphRequest),
    Links(VaultLinksRequest),
    Trace(VaultTraceRequest),
    Context { tenant_id: Option<String>, section: Option<String> },
    Timeline(VaultTimelineRequest),
    LessonsRecall(LessonsRecallRequest),
    Write(VaultWriteRequest),
    CreateFeatureCard(CreateFeatureCardRequest),
    Classify(VaultClassifyRequest),
    Downgrade(VaultDowngradeRequest),
    History(VaultHistoryRequest),
    HistoryGet(VaultHistoryGetRequest),
    Restore(VaultRestoreRequest),
    Diff(VaultDiffRequest),
    Forget(VaultForgetRequest),
    ArchivesList(VaultArchivesListRequest),
    CodeScope(CodeScopeRequest),
    /// The arguments are those of the call, written as JSON.
    ProactiveRecall { request: String },
    /// The arguments are those of the call, written as JSON.
    ProactiveFeedback { request: String },
    JobStatus { job_id: String },
    /// The arguments are not those of the tool.
    Malformed { problem: String },
    /// There is no tool of this name.
    Unknown { name: String },
}

/// What a tool replies.
#[derive(Debug)]
pub enum ToolReply {
    Status(VaultStatusResponse),
    Authors(VaultAuthorsResponse),
    Tags(VaultTagsResponse),
    Search(VaultSearchResponse),
    Read(VaultReadResponse),
    List(VaultListResponse),
    Graph(VaultGraphResponse),
    Links(VaultLinksResponse),
    Trace(VaultTraceResponse),
    Context(ContextGrant),
    Timeline(VaultTimelineResponse),
    LessonsRecall(LessonsRecallResponse),
    Write(EnqueuedResponseUlid),
    CreateFeatureCard(CreateFeatureCardResponse),
    Classify(VaultClassifyResponse),
    Downgrade(VaultDowngradeResponse),
    History(VaultHistoryResponse),
    HistoryGet(VaultHistoryGetResponse),
    Restore(VaultRestoreResponse),
    Diff(VaultDiffResponse),
    Forget(ForgetReply),
    ArchivesList(VaultArchivesListResponse),
    CodeScope(CodeScopeResponse),
    JobStatus(JobStatusView),
    /// A reply in compact form.
    Compact(String),
    /// A reply that is written out already.
    Text(String),
}

/// The next step of a call.
#[derive(Debug)]
pub enum McpNext {
    Ask(Ask),
    /// A question of a search.
    Search(SearchAsk),
    /// A question about the write of a card.
    Write(Ask),
    /// The call fails, and may leave a trace.
    Error(ErrorData, Option<Audit>),
    Reply(ToolReply),
}

/// The next step by its contents, leaving the reply itself aside.
#[verifier::ext_equal]
pub enum McpGate {
    Ask(Question),
    Search(SearchQuestion),
    Write(Question),
    Error(ErrorFacts, Option<AuditTrace>),
    Pass,
}

/// Whether `n` is the step that `g` prescribes; of a reply this says only that it is
/// due.
pub open spec fn follows(n: McpNext, g: McpGate) -> bool {
    match n {
        McpNext::Ask(q) => g == McpGate::Ask(q@),
        McpNext::Search(q) => g == McpGate::Search(q@),
        McpNext::Write(q) => g == McpGate::Write(q@),
        McpNext::Error(e, t) => g == McpGate::Error(e@, flow::opt_trace(t)),
        McpNext::Reply(_) => g is Pass,
    }
}

/// What an operation comes to, as it is told to a tool.
pub open spec fn told(g: Gate) -> McpGate {
    match g {
        Gate::Ask(q) => McpGate::Ask(q),
        Gate::Fail(d) => McpGate::Error(error_facts(d.error), d.audit),
        Gate::Pass => McpGate::Pass,
    }
}

/// What a look at a job comes to, as it is told to a tool.
pub open spec fn told_of_job(g: HttpGate) -> McpGate {
    match g {
        HttpGate::Ask(q) => McpGate::Ask(q),
        HttpGate::Refuse(s) => McpGate::Error(job_error_facts(s), None),
        HttpGate::Pass => McpGate::Pass,
    }
}

fn fail(d: Denial) -> (r: McpNext)
    ensures
        follows(r, told(Gate::Fail(d@))),
        !(r is Reply),
{
    McpNext::Error(gradatum_error_to_mcp(&d.error), d.audit)
}

fn relay<T>(n: Next<T>, Ghost(g): Ghost<Gate>) -> (r: Result<T, McpNext>)
    requires
        flow::follows(n, g),
    ensures
        match r {
            Ok(x) => n == Next::Reply(x) && told(g) is Pass,
            Err(m) => !(n is Reply) && follows(m, told(g)) && !(m is Reply),
        },
{
    match n {
        Next::Ask(q) => Err(McpNext::Ask(q)),
        Next::Fail(d) => Err(fail(d)),
        Next::Reply(x) => Ok(x),
    }
}

/// What the services around a deployment are set to.
#[derive(Debug)]
pub struct GradatumMcpHandler {
    pub listing: ListingSettings,
    pub search: SearchSettings,
    pub lessons: LessonsSettings,
    pub forget: ForgetSettings,
    pub code: CodeSettings,
    pub jobs: JobsSettings,
}

/// What a call is given of its moment.
#[derive(Debug)]
pub struct CallMoment {
    /// The identifier of a note or a job that the call creates.
    pub fresh: NoteId,
    pub now_ms: i64,
}

/// The failure of a call whose arguments are not those of the tool.
pub open spec fn malformed(problem: Seq<char>) -> McpGate {
    McpGate::Error(
        ErrorFacts { code: McpCode::InvalidParams, message: "invalid arguments: "@ + problem },
        None,
    )
}

/// The failure of a call of a tool that does not exist.
pub open spec fn unknown(name: Seq<char>) -> McpGate {
    McpGate::Error(
        ErrorFacts { code: McpCode::MethodNotFound, message: "unknown tool: "@ + name },
        None,
    )
}

/// The failure of a look at source code outside the code vaults.
pub open spec fn not_a_code_vault(vault: Seq<char>) -> McpGate {
    McpGate::Error(
        ErrorFacts {
            code: McpCode::InvalidParams,
            message: "vault '"@ + vault
                + "' invalid for code_scope: must start with 'code-'"@,
        },
        None,
    )
}

/// Whether `r` is a step of a search that is told to a tool.
pub open spec fn search_told(
    r: McpNext,
    trust: TrustContext,
    req: VaultSearchRequest,
    st: SearchSettings,
    s: SearchAnswers,
) -> bool {
    match r {
        McpNext::Search(q) => search::search_gate(trust, req, st, s) == search::SearchGate::Ask(
            q@,
        ),
        McpNext::Error(e, t) => {
            &&& t is None
            &&& search::search_gate(trust, req, st, s) is Fail
            &&& e@ == error_facts(search::search_gate(trust, req, st, s)->Fail_0)
        },
        McpNext::Reply(ToolReply::Search(x)) => !req.compact && search::search_follows(
            SearchNext::Reply(x),
            trust,
            req,
            st,
            s,
        ),
        McpNext::Reply(ToolReply::Compact(c)) => req.compact && exists|x: VaultSearchResponse|
            {
                &&& #[trigger] search::search_follows(SearchNext::Reply(x), trust, req, st, s)
                &&& c@ == compact::search_text(x, req.query@)
            },
        _ => false,
    }
}

/// Whether `r` is a step of the creation of a card that is told to a tool.
pub open spec fn card_told(
    r: McpNext,
    trust: TrustContext,
    req: CreateFeatureCardRequest,
    fresh: NoteId,
    a: Answers,
    w: Answers,
) -> bool {
    exists|n: CardNext|
        {
            &&& #[trigger] cards::card_follows(n, trust, req, fresh, a, w)
            &&& match n {
                CardNext::Ask(q) => r == McpNext::Ask(q),
                CardNext::Write(q) => r == McpNext::Write(q),
                CardNext::Fail(d) => follows(r, told(Gate::Fail(d@))) && !(r is Reply),
                CardNext::Reply(x) => r == McpNext::Reply(ToolReply::CreateFeatureCard(x)),
            }
        }
}

/// What a call of a reading tool comes to.
pub open spec fn read_called(
    h: GradatumMcpHandler,
    call: ToolCall,
    trust: TrustContext,
    s: SearchAnswers,
    a: Answers,
    r: McpNext,
) -> bool {
    match call {
        ToolCall::Status => {
            &&& follows(r, told(listing::status_gate(trust, h.listing, a)))
            &&& r matches McpNext::Reply(y) ==> y is Status && listing::status_reply(
                h.listing,
                a,
                y->Status_0,
            )
        },
        ToolCall::Authors => {
            &&& follows(r, told(listing::authors_gate(trust, h.listing, a)))
            &&& r matches McpNext::Reply(y) ==> y is Authors && listing::authors_reply(
                a.authors->0->Ok_0@,
                y->Authors_0,
            )
        },
        ToolCall::Tags(req) => {
            &&& follows(r, told(listing::tags_gate(trust, h.listing, a)))
            &&& r matches McpNext::Reply(y) ==> y is Tags && listing::tags_reply(
                req,
                a.tags->0->Ok_0@,
                y->Tags_0,
            )
        },
        ToolCall::Search(req) => search_told(r, trust, req, h.search, s),
        ToolCall::Read(req) => {
            &&& follows(r, told(read::read_gate(trust, req, a)))
            &&& r matches McpNext::Reply(y) ==> if req.compact {
                y is Compact && exists|x: VaultReadResponse|
                    {
                        &&& #[trigger] read::read_reply(req, a, x)
                        &&& y->Compact_0@ == compact::read_text(x)
                    }
            } else {
                y is Read && read::read_reply(req, a, y->Read_0)
            }
        },
        ToolCall::List(req) => {
            &&& follows(r, told(listing::list_gate(trust, req, a)))
            &&& r matches McpNext::Reply(y) ==> y is List && listing::list_reply(
                trust,
                req,
                a,
                y->List_0,
            )
        },
        ToolCall::Timeline(req) => {
            &&& follows(r, told(timeline::timeline_gate(trust, req, h.listing.multi_tenant, a)))
            &&& r matches McpNext::Reply(y) ==> if req.compact {
                y is Compact && exists|x: VaultTimelineResponse|
                    {
                        &&& #[trigger] timeline::timeline_reply(req, a, x)
                        &&& y->Compact_0@ == compact::timeline_text(x)
                    }
            } else {
                y is Timeline && timeline::timeline_reply(req, a, y->Timeline_0)
            }
        },
        ToolCall::LessonsRecall(req) => {
            &&& follows(r, told(lessons::recall_gate(trust, req, h.lessons, a)))
            &&& r matches McpNext::Reply(y) ==> if req.compact {
                y is Compact && exists|x: LessonsRecallResponse|
                    {
                        &&& #[trigger] lessons::shows_all(
                            lessons::recalled_lessons(req, a),
                            x.items@,
                        )
                        &&& y->Compact_0@ == compact::recall_text(x, req.class@)
                    }
            } else {
                y is LessonsRecall && lessons::shows_all(
                    lessons::recalled_lessons(req, a),
                    y->LessonsRecall_0.items@,
                )
            }
        },
        _ => true,
    }
}

/// What a call of a tool that follows links comes to.
pub open spec fn link_called(call: ToolCall, trust: TrustContext, a: Answers, r: McpNext) -> bool {
    match call {
        ToolCall::Graph(req) => {
            &&& follows(r, told(graph::graph_gate(trust, req, a)))
            &&& r matches McpNext::Reply(y) ==> y is Graph && graph::around_reply(
                trust,
                reference::tolerant_target(req.root@, a),
                req.include_backlinks == Some(true),
                a,
                y->Graph_0,
            )
        },
        ToolCall::Links(req) => {
            &&& follows(r, told(graph::links_gate(trust, req, a)))
            &&& r matches McpNext::Reply(y) ==> y is Links && graph::around_reply(
                trust,
                reference::tolerant_target(req.path@, a),
                req.include_backlinks != Some(false),
                a,
                y->Links_0,
            )
        },
        ToolCall::Trace(req) => {
            &&& follows(r, told(graph::trace_gate(trust, req, a)))
            &&& r matches McpNext::Reply(y) ==> y is Trace && graph::lineage_shown(
                graph::trace_notes(req, a),
                y->Trace_0.entries@,
            )
        },
        ToolCall::Context { tenant_id, section } => {
            &&& follows(
                r,
                told(
                    access::access_gate(
                        trust,
                        rows::opt_text(tenant_id),
                        a,
                        AclOp::Read,
                        rows::opt_text(section),
                        "acl deny"@,
                    ),
                ),
            )
            &&& r matches McpNext::Reply(y) ==> y is Context && graph::context_reply(
                trust,
                a,
                y->Context_0,
            )
        },
        _ => true,
    }
}

/// What a call of a tool about versions comes to.
pub open spec fn version_called(
    call: ToolCall,
    trust: TrustContext,
    a: Answers,
    r: McpNext,
) -> bool {
    match call {
        ToolCall::Classify(req) => {
            &&& follows(r, told(history::classify_gate(trust, req, a)))
            &&& r matches McpNext::Reply(y) ==> y is Classify && history::classify_reply(
                req,
                a,
                y->Classify_0,
            )
        },
        ToolCall::History(req) => {
            &&& follows(r, told(history::history_gate(trust, req, a)))
            &&& r matches McpNext::Reply(y) ==> y is History && history::history_reply(
                a,
                y->History_0,
            )
        },
        ToolCall::HistoryGet(req) => {
            &&& follows(r, told(history::version_gate(trust, req, a)))
            &&& r matches McpNext::Reply(y) ==> y is HistoryGet && history::version_reply(
                req,
                a,
                y->HistoryGet_0,
            )
        },
        ToolCall::Restore(req) => {
            &&& follows(r, told(history::restore_gate(trust, req, a)))
            &&& r matches McpNext::Reply(y) ==> y is Restore && history::restore_reply(
                req,
                a,
                y->Restore_0,
            )
        },
        ToolCall::Diff(req) => {
            &&& follows(r, told(history::diff_gate(trust, req, a)))
            &&& r matches McpNext::Reply(y) ==> y is Diff && history::diff_reply(a, y->Diff_0)
        },
        _ => true,
    }
}

/// What a call of a tool that changes something comes to.
pub open spec fn change_called(
    h: GradatumMcpHandler,
    call: ToolCall,
    trust: TrustContext,
    m: CallMoment,
    a: Answers,
    w: Answers,
    r: McpNext,
) -> bool {
    match call {
        ToolCall::Write(req) => {
            &&& follows(
                r,
                told(
                    writing::write_gate(trust, req, FeatureWriteAuthority::External, m.fresh, a),
                ),
            )
            &&& r matches McpNext::Reply(y) ==> y is Write && writing::receipt(
                y->Write_0,
                a.enqueued->0->Ok_0,
                writing::target_note(req, m.fresh),
            )
        },
        ToolCall::CreateFeatureCard(req) => card_told(r, trust, req, m.fresh, a, w),
        ToolCall::Downgrade(req) => {
            &&& follows(r, told(notes::downgrade_gate(trust, req, a)))
            &&& r matches McpNext::Reply(y) ==> y is Downgrade && notes::downgraded(
                req,
                m.now_ms,
                y->Downgrade_0,
            )
        },
        ToolCall::Forget(req) => {
            &&& follows(
                r,
                told(forget::forget_gate(trust, req, h.forget, m.fresh, m.now_ms, a)),
            )
            &&& r matches McpNext::Reply(y) ==> y is Forget && forget::forget_reply(
                req,
                a,
                y->Forget_0,
            )
        },
        _ => true,
    }
}

/// What a call of another tool comes to.
pub open spec fn other_called(
    h: GradatumMcpHandler,
    call: ToolCall,
    trust: TrustContext,
    a: Answers,
    r: McpNext,
) -> bool {
    match call {
        ToolCall::ArchivesList(req) => {
            &&& follows(r, told(listing::archives_gate(trust, req, h.listing, a)))
            &&& r matches McpNext::Reply(y) ==> y is ArchivesList && listing::archive_reply(
                req,
                h.listing,
                a,
                y->ArchivesList_0,
            )
        },
        ToolCall::CodeScope(req) => {
            &&& follows(
                r,
                if code_scope::code_vault(req.vault@) {
                    told(code_scope::scope_tool_gate(trust, req, h.code, a))
                } else {
                    not_a_code_vault(req.vault@)
                },
            )
            &&& r matches McpNext::Reply(y) ==> y is CodeScope && code_scope::scope_reply(
                req,
                h.code,
                a,
                y->CodeScope_0,
            )
        },
        ToolCall::ProactiveRecall { request } => {
            &&& follows(
                r,
                match a.proactive {
                    None => McpGate::Ask(Question::ProactiveRecall { request: request@ }),
                    Some(Err(e)) => McpGate::Error(error_facts(e@), None),
                    Some(Ok(_)) => McpGate::Pass,
                },
            )
            &&& r matches McpNext::Reply(y) ==> y is Text && y->Text_0@ == a.proactive->0->Ok_0@
        },
        ToolCall::ProactiveFeedback { request } => {
            &&& follows(
                r,
                match a.done {
                    None => McpGate::Ask(Question::ProactiveFeedback { request: request@ }),
                    Some(Err(e)) => McpGate::Error(error_facts(e@), None),
                    Some(Ok(_)) => McpGate::Pass,
                },
            )
            &&& r matches McpNext::Reply(y) ==> y is Text && y->Text_0@ == "{}"@
        },
        ToolCall::JobStatus { job_id } => {
            &&& follows(
                r,
                told_of_job(
                    door::chain(
                        jobs::resolve_gate(a),
                        jobs::one_job_gate(trust, job_id@, h.jobs, a),
                    ),
                ),
            )
            &&& r matches McpNext::Reply(y) ==> y is JobStatus && a.job->0->Ok_0 is Some
                && jobs::view_of(a.job->0->Ok_0->0, y->JobStatus_0)
        },
        ToolCall::Malformed { problem } => follows(r, malformed(problem@)),
        ToolCall::Unknown { name } => follows(r, unknown(name@)),
        _ => true,
    }
}

/// What a call comes to.
pub open spec fn called(
    h: GradatumMcpHandler,
    call: ToolCall,
    trust: TrustContext,
    m: CallMoment,
    s: SearchAnswers,
    a: Answers,
    w: Answers,
    r: McpNext,
) -> bool {
    &&& read_called(h, call, trust, s, a, r)
    &&& link_called(call, trust, a, r)
    &&& version_called(call, trust, a, r)
    &&& change_called(h, call, trust, m, a, w, r)
    &&& other_called(h, call, trust, a, r)
}

fn search_tool(trust: &TrustContext, req: &VaultSearchRequest, st: &SearchSettings, s: &SearchAnswers) -> (r:
    McpNext)
    ensures
        search_told(r, *trust, *req, *st, *s),
{
    match search::vault_search_impl(trust, req, st, s) {
        SearchNext::Ask(q) => McpNext::Search(q),
        SearchNext::Fail(e) => McpNext::Error(gradatum_error_to_mcp(&e), None),
        SearchNext::Reply(x) => if req.compact {
            let c = compact::render_search(&x, req.query.as_str());
            assert(search::search_follows(SearchNext::Reply(x), *trust, *req, *st, *s));
            McpNext::Reply(ToolReply::Compact(c))
        } else {
            McpNext::Reply(ToolReply::Search(x))
        },
    }
}

fn read_tool(
    trust: &TrustContext,
    req: &VaultReadRequest,
    h: &GradatumMcpHandler,
    s: &SearchAnswers,
    a: &Answers,
) -> (r: McpNext)
    ensures
        read_called(*h, ToolCall::Read(*req), *trust, *s, *a, r),
{
    match relay(
        read::vault_read_impl(trust, req, a),
        Ghost(read::read_gate(*trust, *req, *a)),
    ) {
        Ok(x) => if req.compact {
            let c = compact::render_read(&x);
            assert(read::read_reply(*req, *a, x));
            McpNext::Reply(ToolReply::Compact(c))
        } else {
            McpNext::Reply(ToolReply::Read(x))
        },
        Err(m) => m,
    }
}

fn timeline_tool(
    trust: &TrustContext,
    req: &VaultTimelineRequest,
    h: &GradatumMcpHandler,
    s: &SearchAnswers,
    a: &Answers,
) -> (r: McpNext)
    ensures
        read_called(*h, ToolCall::Timeline(*req), *trust, *s, *a, r),
{
    match relay(
        timeline::vault_timeline_impl(trust, req, h.listing.multi_tenant, a),
        Ghost(timeline::timeline_gate(*trust, *req, h.listing.multi_tenant, *a)),
    ) {
        Ok(x) => if req.compact {
            let c = compact::render_timeline(&x);
            assert(timeline::timeline_reply(*req, *a, x));
            McpNext::Reply(ToolReply::Compact(c))
        } else {
            McpNext::Reply(ToolReply::Timeline(x))
        },
        Err(m) => m,
    }
}

fn lessons_tool(
    trust: &TrustContext,
    req: &LessonsRecallRequest,
    h: &GradatumMcpHandler,
    s: &SearchAnswers,
    a: &Answers,
) -> (r: McpNext)
    ensures
        read_called(*h, ToolCall::LessonsRecall(*req), *trust, *s, *a, r),
{
    match relay(
        lessons::lessons_recall_impl(trust, req, &h.lessons, a),
        Ghost(lessons::recall_gate(*trust, *req, h.lessons, *a)),
    ) {
        Ok(x) => if req.compact {
            let c = compact::render_recall(&x, req.class.as_str());
            assert(lessons::shows_all(lessons::recalled_lessons(*req, *a), x.items@));
            McpNext::Reply(ToolReply::Compact(c))
        } else {
            McpNext::Reply(ToolReply::LessonsRecall(x))
        },
        Err(m) => m,
    }
}

fn card_tool(
    trust: &TrustContext,
    req: &CreateFeatureCardRequest,
    fresh: &NoteId,
    a: &Answers,
    w: &Answers,
) -> (r: McpNext)
    ensures
        card_told(r, *trust, *req, *fresh, *a, *w),
{
    let n = cards::create_feature_card_impl(trust, req, fresh, a, w);
    assert(cards::card_follows(n, *trust, *req, *fresh, *a, *w));
    match n {
        CardNext::Ask(q) => McpNext::Ask(q),
        CardNext::Write(q) => McpNext::Write(q),
        CardNext::Fail(d) => fail(d),
        CardNext::Reply(x) => McpNext::Reply(ToolReply::CreateFeatureCard(x)),
    }
}

fn code_tool(trust: &TrustContext, req: &CodeScopeRequest, h: &GradatumMcpHandler, a: &Answers) -> (r: McpNext)
    ensures
        other_called(*h, ToolCall::CodeScope(*req), *trust, *a, r),
{
    if !code_scope::validate_code_vault_id(req.vault.as_str()) {
        let mut message = text::cat("vault '", req.vault.as_str());
        message.append("' invalid for code_scope: must start with 'code-'");
        return McpNext::Error(ErrorData { code: McpCode::InvalidParams, message }, None);
    }
    match relay(
        code_scope::code_scope_impl(trust, req, &h.code, a),
        Ghost(code_scope::scope_tool_gate(*trust, *req, h.code, *a)),
    ) {
        Ok(x) => McpNext::Reply(ToolReply::CodeScope(x)),
        Err(m) => m,
    }
}

fn proactive_tool(request: &String, a: &Answers) -> (r: McpNext)
    ensures
        forall|h: GradatumMcpHandler, trust: TrustContext| #[trigger]
            other_called(h, ToolCall::ProactiveRecall { request: *request }, trust, *a, r),
{
    match &a.proactive {
        None => McpNext::Ask(Ask::ProactiveRecall { request: request.clone() }),
        Some(Err(e)) => McpNext::Error(gradatum_error_to_mcp(e), None),
        Some(Ok(t)) => McpNext::Reply(ToolReply::Text(t.clone())),
    }
}

fn feedback_tool(request: &String, a: &Answers) -> (r: McpNext)
    ensures
        forall|h: GradatumMcpHandler, trust: TrustContext| #[trigger]
            other_called(h, ToolCall::ProactiveFeedback { request: *request }, trust, *a, r),
{
    match &a.done {
        None => McpNext::Ask(Ask::ProactiveFeedback { request: request.clone() }),
        Some(Err(e)) => McpNext::Error(gradatum_error_to_mcp(e), None),
        Some(Ok(_)) => McpNext::Reply(ToolReply::Text("{}".to_owned())),
    }
}

fn job_tool(trust: &TrustContext, job_id: &String, h: &GradatumMcpHandler, a: &Answers) -> (r: McpNext)
    ensures
        other_called(*h, ToolCall::JobStatus { job_id: *job_id }, *trust, *a, r),
{
    match jobs::job_status_mcp(trust, job_id.as_str(), &h.jobs, a) {
        HttpNext::Ask(q) => McpNext::Ask(q),
        HttpNext::Refuse(s) => McpNext::Error(job_status_error_to_mcp(s), None),
        HttpNext::Reply(v) => McpNext::Reply(ToolReply::JobStatus(v)),
    }
}

impl GradatumMcpHandler {
    /// Carries out a call. `s` holds the answers of a search, `w` those about the write of a
    /// card, and `a` all others.
    pub fn dispatch_tool(
        &self,
        call: &ToolCall,
        trust: &TrustContext,
        m: &CallMoment,
        s: &SearchAnswers,
        a: &Answers,
        w: &Answers,
    ) -> (r: McpNext)
        ensures
            called(*self, *call, *trust, *m, *s, *a, *w, r),
    {
        match call {
            ToolCall::Status => match relay(
                listing::vault_status_impl(trust, &self.listing, a),
                Ghost(listing::status_gate(*trust, self.listing, *a)),
            ) {
                Ok(x) => McpNext::Reply(ToolReply::Status(x)),
                Err(n) => n,
            },
            ToolCall::Authors => match relay(
                listing::vault_authors_impl(trust, &self.listing, a),
                Ghost(listing::authors_gate(*trust, self.listing, *a)),
            ) {
                Ok(x) => McpNext::Reply(ToolReply::Authors(x)),
                Err(n) => n,
            },
            ToolCall::Tags(req) => match relay(
                listing::vault_tags_impl(trust, req, &self.listing, a),
                Ghost(listing::tags_gate(*trust, self.listing, *a)),
            ) {
                Ok(x) => McpNext::Reply(ToolReply::Tags(x)),
                Err(n) => n,
            },
            ToolCall::Search(req) => search_tool(trust, req, &self.search, s),
            ToolCall::Read(req) => read_tool(trust, req, self, s, a),
            ToolCall::List(req) => match relay(
                listing::vault_list_impl(trust, req, a),
                Ghost(listing::list_gate(*trust, *req, *a)),
            ) {
                Ok(x) => McpNext::Reply(ToolReply::List(x)),
                Err(n) => n,
            },
            ToolCall::Graph(req) => match relay(
                graph::vault_graph_impl(trust, req, a),
                Ghost(graph::graph_gate(*trust, *req, *a)),
            ) {
                Ok(x) => McpNext::Reply(ToolReply::Graph(x)),
                Err(n) => n,
            },
            ToolCall::Links(req) => match relay(
                graph::vault_links_impl(trust, req, a),
                Ghost(graph::links_gate(*trust, *req, *a)),
            ) {
                Ok(x) => McpNext::Reply(ToolReply::Links(x)),
                Err(n) => n,
            },
            ToolCall::Trace(req) => match relay(
                graph::vault_trace_impl(trust, req, a),
                Ghost(graph::trace_gate(*trust, *req, *a)),
            ) {
                Ok(x) => McpNext::Reply(ToolReply::Trace(x)),
                Err(n) => n,
            },
            ToolCall::Context { tenant_id, section } => match relay(
                graph::vault_context_impl(trust, tenant_id, section, a),
                Ghost(
                    access::access_gate(
                        *trust,
                        rows::opt_text(*tenant_id),
                        *a,
                        AclOp::Read,
                        rows::opt_text(*section),
                        "acl deny"@,
                    ),
                ),
            ) {
                Ok(x) => McpNext::Reply(ToolReply::Context(x)),
                Err(n) => n,
            },
            ToolCall::Timeline(req) => timeline_tool(trust, req, self, s, a),
            ToolCall::LessonsRecall(req) => lessons_tool(trust, req, self, s, a),
            ToolCall::Write(req) => match relay(
                writing::vault_write_impl(
                    trust,
                    req,
                    FeatureWriteAuthority::External,
                    &m.fresh,
                    a,
                ),
                Ghost(
                    writing::write_gate(
                        *trust,
                        *req,
                        FeatureWriteAuthority::External,
                        m.fresh,
                        *a,
                    ),
                ),
            ) {
                Ok(x) => McpNext::Reply(ToolReply::Write(x)),
                Err(n) => n,
            },
            ToolCall::CreateFeatureCard(req) => card_tool(trust, req, &m.fresh, a, w),
            ToolCall::Classify(req) => match relay(
                history::vault_classify_impl(trust, req, a),
                Ghost(history::classify_gate(*trust, *req, *a)),
            ) {
                Ok(x) => McpNext::Reply(ToolReply::Classify(x)),
                Err(n) => n,
            },
            ToolCall::Downgrade(req) => match relay(
                notes::vault_downgrade_impl(trust, req, m.now_ms, a),
                Ghost(notes::downgrade_gate(*trust, *req, *a)),
            ) {
                Ok(x) => McpNext::Reply(ToolReply::Downgrade(x)),
                Err(n) => n,
            },
            ToolCall::History(req) => match relay(
                history::vault_history_impl(trust, req, a),
                Ghost(history::history_gate(*trust, *req, *a)),
            ) {
                Ok(x) => McpNext::Reply(ToolReply::History(x)),
                Err(n) => n,
            },
            ToolCall::HistoryGet(req) => match relay(
                history::vault_history_get_impl(trust, req, a),
                Ghost(history::version_gate(*trust, *req, *a)),
            ) {
                Ok(x) => McpNext::Reply(ToolReply::HistoryGet(x)),
                Err(n) => n,
            },
            ToolCall::Restore(req) => match relay(
                history::vault_restore_impl(trust, req, a),
                Ghost(history::restore_gate(*trust, *req, *a)),
            ) {
                Ok(x) => McpNext::Reply(ToolReply::Restore(x)),
                Err(n) => n,
            },
            ToolCall::Diff(req) => match relay(
                history::vault_diff_impl(trust, req, a),
                Ghost(history::diff_gate(*trust, *req, *a)),
            ) {
                Ok(x) => McpNext::Reply(ToolReply::Diff(x)),
                Err(n) => n,
            },
            ToolCall::Forget(req) => match relay(
                forget::vault_forget_mcp_impl(trust, req, &self.forget, m.fresh, m.now_ms, a),
                Ghost(forget::forget_gate(*trust, *req, self.forget, m.fresh, m.now_ms, *a)),
            ) {
                Ok(x) => McpNext::Reply(ToolReply::Forget(x)),
                Err(n) => n,
            },
            ToolCall::ArchivesList(req) => match relay(
                listing::vault_archives_list_impl(trust, req, &self.listing, a),
                Ghost(listing::archives_gate(*trust, *req, self.listing, *a)),
            ) {
                Ok(x) => McpNext::Reply(ToolReply::ArchivesList(x)),
                Err(n) => n,
            },
            ToolCall::CodeScope(req) => code_tool(trust, req, self, a),
            ToolCall::ProactiveRecall { request } => proactive_tool(request, a),
            ToolCall::ProactiveFeedback { request } => feedback_tool(request, a),
            ToolCall::JobStatus { job_id } => job_tool(trust, job_id, self, a),
            ToolCall::Malformed { problem } => McpNext::Error(
                ErrorData {
                    code: McpCode::InvalidParams,
                    message: text::cat("invalid arguments: ", problem.as_str()),
                },
                None,
            ),
            ToolCall::Unknown { name } => McpNext::Error(
                ErrorData {
                    code: McpCode::MethodNotFound,
                    message: text::cat("unknown tool: ", name.as_str()),
                },
                None,
            ),
        }
    }

    /// Carries out a call for a caller who has shown who they are.
    pub fn call_tool(
        &self,
        call: &ToolCall,
        trust: &TrustContext,
        m: &CallMoment,
        s: &SearchAnswers,
        a: &Answers,
        w: &Answers,
    ) -> (r: McpNext)
        ensures
            trust.authenticated() ==> called(*self, *call, *trust, *m, *s, *a, *w, r),
            !trust.authenticated() ==> follows(
                r,
                McpGate::Error(error_facts(Refusal::Unauthorized), None),
            ) && !(r is Reply),
    {
        if !trust.is_authenticated() {
            return McpNext::Error(
                error_data(McpCode::InvalidRequest, "not authenticated"),
                None,
            );
        }
        self.dispatch_tool(call, trust, m, s, a, w)
    }

    /// Lists the tools for a caller who has shown who they are.
    pub fn list_tools(&self, trust: &TrustContext) -> (r: Result<Vec<ToolEntry>, ErrorData>)
        ensures
            match r {
                Ok(tools) => {
                    &&& trust.authenticated()
                    &&& tools@.len() == TOOL_COUNT
                    &&& forall|i: int|
                        0 <= i < TOOL_COUNT ==> declares(#[trigger] tools@[i], tool_at(i))
                },
                Err(e) => !trust.authenticated() && e@ == error_facts(Refusal::Unauthorized),
            },
    {
        if !trust.is_authenticated() {
            return Err(error_data(McpCode::InvalidRequest, "not authenticated"));
        }
        Ok(tool_catalog())
    }

    /// The soul of the caller, read from the vault.
    pub fn soul_instructions(&self, trust: &TrustContext, a: &Answers) -> (r: SoulNext)
        ensures
            soul_told(r, *trust, *a),
    {
        let req = match request_soul(trust) {
            None => return SoulNext::Soul(None, None),
            Some(req) => req,
        };
        let n = read::vault_read_impl(trust, &req, a);
        match n {
            Next::Ask(q) => SoulNext::Ask(q),
            Next::Fail(d) => SoulNext::Soul(None, d.audit),
            Next::Reply(x) => {
                assert(read::read_reply(req, *a, x));
                if x.content.as_str().is_empty() {
                    SoulNext::Soul(None, None)
                } else {
                    SoulNext::Soul(Some(x.content), None)
                }
            },
        }
    }

    /// The version of the protocol that is served: the one that is asked for, if it is known,
    /// and the latest one otherwise.
    pub fn negotiate_protocol_version(requested: &str) -> (r: String)
        ensures
            r@ == served_version(requested@),
    {
        if text::listed(&known_versions(), requested) {
            requested.to_owned()
        } else {
            latest_version()
        }
    }
}

// ── Souls ───────────────────────────────────────────────────────────────────

/// The next step of reading a soul. Nothing that fails keeps a session from starting.
#[derive(Debug)]
pub enum SoulNext {
    Ask(Ask),
    /// The soul, if there is one, and the trace that a refusal leaves.
    Soul(Option<String>, Option<Audit>),
}

/// Whether `req` reads the soul of `agent`.
pub open spec fn soul_request(agent: Seq<char>, req: VaultReadRequest) -> bool {
    &&& req.path@ == "identity/"@ + agent
    &&& rows::opt_text(req.section) == Some("identity"@)
    &&& rows::opt_text(req.tenant_id) == Some("main"@)
    &&& !req.compact
}

/// The read of the caller's soul. Like any other read it is counted, and so is the use of the
/// note when it is served.
pub fn request_soul(trust: &TrustContext) -> (r: Option<VaultReadRequest>)
    ensures
        match r {
            Some(req) => trust.authenticated() && trust.subject_view() is Some && soul_request(
                trust.subject_view()->0,
                req,
            ),
            None => trust.subject_view() is None,
        },
{
    match trust.subject() {
        None => None,
        Some(agent) => Some(
            VaultReadRequest {
                path: text::cat("identity/", agent.as_str()),
                section: Some("identity".to_owned()),
                tenant_id: Some("main".to_owned()),
                compact: false,
            },
        ),
    }
}

/// What comes of reading the soul of a caller. Whose soul it is, the credential says; without a
/// subject there is none, and neither is there one that cannot be read or that is empty.
pub open spec fn soul_told(r: SoulNext, trust: TrustContext, a: Answers) -> bool {
    match trust.subject_view() {
        None => r == SoulNext::Soul(None, None),
        Some(agent) => exists|req: VaultReadRequest|
            {
                let g = #[trigger] read::read_gate(trust, req, a);
                &&& soul_request(agent, req)
                &&& match r {
                    SoulNext::Ask(q) => g == Gate::Ask(q@),
                    SoulNext::Soul(None, t) => match g {
                        Gate::Fail(d) => flow::opt_trace(t) == d.audit,
                        Gate::Pass => t is None && exists|x: VaultReadResponse|
                            {
                                &&& #[trigger] read::read_reply(req, a, x)
                                &&& x.content@.len() == 0
                            },
                        Gate::Ask(_) => false,
                    },
                    SoulNext::Soul(Some(body), t) => {
                        &&& g is Pass
                        &&& t is None
                        &&& body@.len() > 0
                        &&& exists|x: VaultReadResponse|
                            {
                                &&& #[trigger] read::read_reply(req, a, x)
                                &&& x.content@ == body@
                            }
                    },
                }
            },
    }
}

// ── Versions of the protocol ────────────────────────────────────────────────

/// The versions of the protocol that `rmcp` knows, oldest first.
pub open spec fn versions() -> Seq<Seq<char>> {
    seq![
        "2024-11-05"@,
        "2025-03-26"@,
        "2025-06-18"@,
        "2025-11-25"@,
        "2026-07-28"@,
    ]
}

/// Reads `rmcp::model::ProtocolVersion::KNOWN_VERSIONS`.
///
/// Claimed: these five versions, in this order.
#[verifier::external_body]
pub(crate) fn known_versions() -> (r: Vec<String>)
    ensures
        text::views(r@) == versions(),
{
    let known = rmcp::model::ProtocolVersion::KNOWN_VERSIONS;
    known.iter().map(|v| v.as_str().to_owned()).collect()
}

/// Reads `rmcp::model::ProtocolVersion::LATEST`.
///
/// Claimed: the newest of the versions that `rmcp` knows.
#[verifier::external_body]
pub(crate) fn latest_version() -> (r: String)
    ensures
        r@ == versions().last(),
{
    rmcp::model::ProtocolVersion::LATEST.as_str().to_owned()
}

/// The version of the protocol that is served.
pub open spec fn served_version(requested: Seq<char>) -> Seq<char> {
    if versions().contains(requested) {
        requested
    } else {
        versions().last()
    }
}

// ── Laws ────────────────────────────────────────────────────────────────────

/// What fails inside the service is told in the same words, whatever it is.
pub proof fn the_inside_is_not_told(e: Refusal)
    requires
        e is Storage || e is Io || e is Internal,
    ensures
        error_facts(e) == (ErrorFacts {
            code: McpCode::InternalError,
            message: "internal error"@,
        }),
{
}

/// Source code outside the code vaults is not looked at: the call fails before anything is
/// asked.
pub proof fn code_is_looked_at_in_code_vaults_only(
    h: GradatumMcpHandler,
    req: CodeScopeRequest,
    trust: TrustContext,
    a: Answers,
    r: McpNext,
)
    requires
        !code_scope::code_vault(req.vault@),
        other_called(h, ToolCall::CodeScope(req), trust, a, r),
    ensures
        r matches McpNext::Error(e, _) && e.code == McpCode::InvalidParams,
{
}

/// Source code is shown through a tool to the privileged only: any other call fails before
/// anything is asked.
pub proof fn tools_show_no_code_to_a_tenant(
    h: GradatumMcpHandler,
    req: CodeScopeRequest,
    trust: TrustContext,
    a: Answers,
    r: McpNext,
)
    requires
        !code_scope::privileged(trust),
        other_called(h, ToolCall::CodeScope(req), trust, a, r),
    ensures
        r is Error,
{
}

/// A tool that answers a write or a new card has queued it and left the trace of the write, as
/// every other door does.
pub proof fn tools_leave_the_trace_of_a_write(
    h: GradatumMcpHandler,
    call: ToolCall,
    trust: TrustContext,
    m: CallMoment,
    a: Answers,
    w: Answers,
    r: McpNext,
)
    requires
        change_called(h, call, trust, m, a, w, r),
        r is Reply,
    ensures
        call is Write ==> a.enqueued->0 is Ok && a.write_noted is Some,
        call is CreateFeatureCard ==> w.enqueued->0 is Ok && w.write_noted is Some,
{
    if let ToolCall::CreateFeatureCard(req) = call {
        let n = choose|n: CardNext|
            {
                &&& #[trigger] cards::card_follows(n, trust, req, m.fresh, a, w)
                &&& match n {
                    CardNext::Ask(q) => r == McpNext::Ask(q),
                    CardNext::Write(q) => r == McpNext::Write(q),
                    CardNext::Fail(d) => follows(r, told(Gate::Fail(d@))) && !(r is Reply),
                    CardNext::Reply(x) => r == McpNext::Reply(ToolReply::CreateFeatureCard(x)),
                }
            };
        assert(n is Reply);
    }
}

/// The version that is served is one that is known, and the one that is asked for if it is known.
pub proof fn a_served_version_is_known(requested: Seq<char>)
    ensures
        versions().contains(served_version(requested)),
        versions().contains(requested) ==> served_version(requested) == requested,
{
    assert(versions()[4] == versions().last());
}

/// A caller may read the soul that belongs to the subject of the credential.
pub proof fn the_own_soul_is_readable(trust: TrustContext)
    requires
        trust.subject_view() matches Some(s) && s.len() > 0,
    ensures
        identity::may_touch(
            trust,
            "identity"@,
            Some("identity/"@ + trust.subject_view()->0),
        ),
{
    let sub = trust.subject_view()->0;
    let title = "identity/"@ + sub;
    assert("identity/"@.is_prefix_of(title)) by {
        assert(title.take("identity/"@.len() as int) =~= "identity/"@);
    }
    assert(title.skip("identity/"@.len() as int) =~= sub);
}

/// Every tool is declared, and declared once: the place of a tool tells the tool and the tool its
/// place.
pub proof fn the_catalog_is_complete(t: ToolName, i: int)
    ensures
        0 <= tool_index(t) < TOOL_COUNT,
        tool_at(tool_index(t)) == t,
        0 <= i < TOOL_COUNT ==> tool_index(tool_at(i)) == i,
{
}

/// The length of the name of a tool, and two of its letters: enough to tell it from the others.
spec fn mark(t: ToolName) -> (nat, char, char) {
    match t {
        ToolName::Search => (12, 's', 'e'),
        ToolName::Read => (10, 'r', 'e'),
        ToolName::List => (10, 'l', 'i'),
        ToolName::Status => (12, 's', 't'),
        ToolName::Graph => (11, 'g', 'r'),
        ToolName::Links => (11, 'l', 'i'),
        ToolName::Trace => (11, 't', 'r'),
        ToolName::Context => (13, 'c', 'o'),
        ToolName::Timeline => (14, 't', 'i'),
        ToolName::Authors => (13, 'a', 'u'),
        ToolName::Tags => (10, 't', 'a'),
        ToolName::Write => (11, 'w', 'r'),
        ToolName::CreateFeatureCard => (19, '_', 'f'),
        ToolName::Classify => (14, 'c', 'l'),
        ToolName::Downgrade => (15, 'd', 'o'),
        ToolName::History => (13, 'h', 'i'),
        ToolName::HistoryGet => (17, 'h', 'i'),
        ToolName::Restore => (13, 'r', 'e'),
        ToolName::Diff => (10, 'd', 'i'),
        ToolName::Forget => (12, 'f', 'o'),
        ToolName::ArchivesList => (19, 'a', 'r'),
        ToolName::LessonsRecall => (20, 'l', 'e'),
        ToolName::CodeScope => (10, 'c', 'o'),
        ToolName::ProactiveRecall => (22, 'p', 'r'),
        ToolName::ProactiveFeedback => (31, 'p', 'r'),
        ToolName::JobStatus => (10, 'a', 't'),
    }
}

proof fn lemma_mark(t: ToolName)
    ensures
        mark(t) == (t.label().len(), t.label()[6], t.label()[7]),
{
    match t {
        ToolName::Search => reveal_strlit("vault_search"),
        ToolName::Read => reveal_strlit("vault_read"),
        ToolName::List => reveal_strlit("vault_list"),
        ToolName::Status => reveal_strlit("vault_status"),
        ToolName::Graph => reveal_strlit("vault_graph"),
        ToolName::Links => reveal_strlit("vault_links"),
        ToolName::Trace => reveal_strlit("vault_trace"),
        ToolName::Context => reveal_strlit("vault_context"),
        ToolName::Timeline => reveal_strlit("vault_timeline"),
        ToolName::Authors => reveal_strlit("vault_authors"),
        ToolName::Tags => reveal_strlit("vault_tags"),
        ToolName::Write => reveal_strlit("vault_write"),
        ToolName::CreateFeatureCard => reveal_strlit("create_feature_card"),
        ToolName::Classify => reveal_strlit("vault_classify"),
        ToolName::Downgrade => reveal_strlit("vault_downgrade"),
        ToolName::History => reveal_strlit("vault_history"),
        ToolName::HistoryGet => reveal_strlit("vault_history_get"),
        ToolName::Restore => reveal_strlit("vault_restore"),
        ToolName::Diff => reveal_strlit("vault_diff"),
        ToolName::Forget => reveal_strlit("vault_forget"),
        ToolName::ArchivesList => reveal_strlit("vault_archives_list"),
        ToolName::LessonsRecall => reveal_strlit("vault_lessons_recall"),
        ToolName::CodeScope => reveal_strlit("code_scope"),
        ToolName::ProactiveRecall => reveal_strlit("vault_proactive_recall"),
        ToolName::ProactiveFeedback => reveal_strlit("vault_proactive_recall_feedback"),
        ToolName::JobStatus => reveal_strlit("job_status"),
    }
}

/// No two tools have the same name.
pub proof fn tool_names_are_distinct(t: ToolName, u: ToolName)
    requires
        t.label() == u.label(),
    ensures
        t == u,
{
    lemma_mark(t);
    lemma_mark(u);
}

/// Each refusal has its code, and those whose words are the caller's own say them.
pub proof fn each_refusal_has_its_code(e: Refusal)
    ensures
        e is Unauthorized || e is Forbidden || e is Conflict ==> error_facts(e).code
            == McpCode::InvalidRequest,
        e is InvalidInput || e is Validation || e is NoteNotFound || e is VaultNotFound || e
            is InvalidStatusTransition ==> error_facts(e).code == McpCode::InvalidParams,
        e matches Refusal::InvalidInput(m) ==> error_facts(e).message == m,
        e matches Refusal::Validation(m) ==> error_facts(e).message == m,
        e matches Refusal::Forbidden(m) ==> m.is_suffix_of(error_facts(e).message),
        e matches Refusal::Conflict(m) ==> m.is_suffix_of(error_facts(e).message),
{
    if let Refusal::Forbidden(m) = e {
        let t = error_facts(e).message;
        assert(t.skip(t.len() - m.len()) =~= m);
    }
    if let Refusal::Conflict(m) = e {
        let t = error_facts(e).message;
        assert(t.skip(t.len() - m.len()) =~= m);
    }
}

/// A tool asks what its operation asks, fails when it fails, with the trace that it leaves, and
/// answers when it answers.
pub proof fn a_tool_does_what_its_operation_does(g: Gate, h: HttpGate)
    ensures
        g matches Gate::Ask(q) ==> told(g) == McpGate::Ask(q),
        g matches Gate::Fail(d) ==> told(g) == McpGate::Error(error_facts(d.error), d.audit),
        g is Pass ==> told(g) is Pass,
        h matches HttpGate::Ask(q) ==> told_of_job(h) == McpGate::Ask(q),
        h is Refuse ==> told_of_job(h) is Error && told_of_job(h)->Error_1 is None,
        h is Pass ==> told_of_job(h) is Pass,
        h == HttpGate::Refuse(StatusCode::BadRequest) || h == HttpGate::Refuse(
            StatusCode::NotFound,
        ) ==> told_of_job(h)->Error_0.code == McpCode::InvalidParams,
        h == HttpGate::Refuse(StatusCode::Forbidden) || h == HttpGate::Refuse(
            StatusCode::Unauthorized,
        ) ==> told_of_job(h)->Error_0.code == McpCode::InvalidRequest,
        h == HttpGate::Refuse(StatusCode::InternalServerError) ==> told_of_job(h)->Error_0.code
            == McpCode::InternalError,
{
}

/// A compact answer is for who asks for one, and for nobody else.
pub proof fn compact_answers_are_asked_for(
    h: GradatumMcpHandler,
    call: ToolCall,
    trust: TrustContext,
    s: SearchAnswers,
    a: Answers,
    y: ToolReply,
)
    requires
        read_called(h, call, trust, s, a, McpNext::Reply(y)),
    ensures
        call matches ToolCall::Search(req) ==> (y is Compact <==> req.compact),
        call matches ToolCall::Read(req) ==> (y is Compact <==> req.compact),
        call matches ToolCall::Timeline(req) ==> (y is Compact <==> req.compact),
        call matches ToolCall::LessonsRecall(req) ==> (y is Compact <==> req.compact),
{
}

/// Searching, reading, looking back, recalling and looking at code are counted, each as itself;
/// nothing else is.
pub proof fn reading_is_counted_as_itself(call: ToolCall)
    ensures
        call is Search <==> read_kind(call) == Some(ReadKind::Search),
        call is Read <==> read_kind(call) == Some(ReadKind::Read),
        call is Timeline <==> read_kind(call) == Some(ReadKind::Timeline),
        call is LessonsRecall <==> read_kind(call) == Some(ReadKind::LessonsRecall),
        read_kind(call) == Some(ReadKind::CodeScope) ==> call is CodeScope,
        call matches ToolCall::CodeScope(req) ==> (read_kind(call) is Some
            <==> code_scope::code_vault(req.vault@)),
{
}

/// The soul that is told is the note of the caller's own soul: what is asked is asked by its title,
/// and what is told is its text.
pub proof fn the_own_soul_is_told(r: SoulNext, trust: TrustContext, a: Answers)
    requires
        soul_told(r, trust, a),
    ensures
        trust.subject_view() is None ==> r matches SoulNext::Soul(None, None),
        r matches SoulNext::Ask(q) ==> match q@ {
            Question::TitleLookup { title, .. } => trust.subject_view() matches Some(agent) && title
                == "identity/"@ + agent,
            Question::Redirect { title, .. } => trust.subject_view() matches Some(agent) && title
                == "identity/"@ + agent,
            Question::Tenant { requested } => requested == Some("main"@),
            Question::Acl { op, locus } => op == AclOp::Read && (a.tenant matches Some(Some(t))
                && locus == t@ + "/"@ + "identity"@),
            _ => true,
        },
        r matches SoulNext::Soul(Some(body), _) ==> body@.len() > 0 && (a.note matches Some(Ok(n))
            && body@ == n.body@),
{
    if let Some(agent) = trust.subject_view() {
        let req = choose|req: VaultReadRequest|
            {
                let g = #[trigger] read::read_gate(trust, req, a);
                &&& soul_request(agent, req)
                &&& match r {
                    SoulNext::Ask(q) => g == Gate::Ask(q@),
                    SoulNext::Soul(None, t) => match g {
                        Gate::Fail(d) => flow::opt_trace(t) == d.audit,
                        Gate::Pass => t is None && exists|x: VaultReadResponse|
                            {
                                &&& #[trigger] read::read_reply(req, a, x)
                                &&& x.content@.len() == 0
                            },
                        Gate::Ask(_) => false,
                    },
                    SoulNext::Soul(Some(body), t) => {
                        &&& g is Pass
                        &&& t is None
                        &&& body@.len() > 0
                        &&& exists|x: VaultReadResponse|
                            {
                                &&& #[trigger] read::read_reply(req, a, x)
                                &&& x.content@ == body@
                            }
                    },
                }
            };
        assert(soul_request(agent, req));
    }
}

/// Whoever asks for a version that is not known is served the latest one.
pub proof fn an_unknown_version_is_served_the_latest(requested: Seq<char>, i: int)
    ensures
        !versions().contains(requested) ==> served_version(requested) == "2026-07-28"@,
        0 <= i < versions().len() ==> served_version(versions()[i]) == versions()[i],
{
}

/// All tools take arguments but the two that only tell how things stand.
pub proof fn most_tools_take_arguments(t: ToolName)
    ensures
        t.parametric() <==> t != ToolName::Status && t != ToolName::Authors,
{
}

}
