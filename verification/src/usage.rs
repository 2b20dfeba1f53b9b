//! What is counted: calls that read, and uses of notes.

use vstd::prelude::*;
use vstd::string::*;

use crate::code_scope::{self, CodeScopeRequest, CodeSettings};
use crate::dto::{VaultReadRequest, VaultSearchRequest};
use crate::error::Refusal;
use crate::flow::{self, Answers, Gate};
use crate::lessons::{self, LessonsRecallRequest, LessonsSettings};
use crate::read;
use crate::rows;
use crate::search::{self, SearchAnswers, SearchGate, SearchSettings};
use crate::timeline::{self, VaultTimelineRequest};
use crate::trust::TrustContext;

verus! {

/// A way to read that is counted.
#[derive(Debug, Clone, Copy, PartialEq, Eq, Structural)]
pub enum ReadKind {
    Search,
    Read,
    Timeline,
    LessonsRecall,
    CodeScope,
}

impl ReadKind {
    /// The counter of this way to read.
    pub open spec fn key(self) -> Seq<char> {
        match self {
            ReadKind::Search => "vault_search"@,
            ReadKind::Read => "vault_read"@,
            ReadKind::Timeline => "vault_timeline"@,
            ReadKind::LessonsRecall => "lessons_recall"@,
            ReadKind::CodeScope => "code_scope"@,
        }
    }

    /// The counter of this way to read.
    pub fn key_text(self) -> (r: String)
        ensures
            r@ == self.key(),
    {
        match self {
            ReadKind::Search => "vault_search".to_owned(),
            ReadKind::Read => "vault_read".to_owned(),
            ReadKind::Timeline => "vault_timeline".to_owned(),
            ReadKind::LessonsRecall => "lessons_recall".to_owned(),
            ReadKind::CodeScope => "code_scope".to_owned(),
        }
    }
}

/// The counter that a call adds one to. Every call with a credential counts, once and before any
/// right is looked at, so whatever becomes of it.
pub open spec fn counted(kind: ReadKind, trust: TrustContext) -> Option<Seq<char>> {
    if trust.authenticated() {
        Some(kind.key())
    } else {
        None
    }
}

/// The counter that a call adds one to.
pub fn read_usage(kind: ReadKind, trust: &TrustContext) -> (r: Option<String>)
    ensures
        rows::opt_text(r) == counted(kind, *trust),
        r is Some <==> trust.authenticated(),
{
    if trust.is_authenticated() {
        Some(kind.key_text())
    } else {
        None
    }
}

/// The counter that a look at source code over HTTP adds one to. There only calls of the
/// privileged count.
pub fn code_door_usage(trust: &TrustContext) -> (r: Option<String>)
    ensures
        rows::opt_text(r) == if code_scope::privileged(*trust) {
            counted(ReadKind::CodeScope, *trust)
        } else {
            None
        },
{
    if code_scope::is_code_scope_privileged(trust) {
        read_usage(ReadKind::CodeScope, trust)
    } else {
        None
    }
}

/// A use of a note that is counted.
#[derive(Debug)]
pub struct NoteUse {
    pub note_id: String,
    pub kind: String,
}

// ── Laws ────────────────────────────────────────────────────────────────────

/// A call that reads is counted unless it is sent back for want of a credential: one that is
/// refused for any other reason counts as much as one that is served.
pub proof fn refused_calls_count(
    trust: TrustContext,
    words: VaultSearchRequest,
    searching: SearchSettings,
    s: SearchAnswers,
    note: VaultReadRequest,
    moments: VaultTimelineRequest,
    multi_tenant: bool,
    class: LessonsRecallRequest,
    classes: LessonsSettings,
    code: CodeScopeRequest,
    budget: CodeSettings,
    a: Answers,
)
    ensures
        ({
            let sent_back = Gate::Fail(flow::silent(Refusal::Unauthorized));
            &&& search::search_gate(trust, words, searching, s) != SearchGate::Fail(
                Refusal::Unauthorized,
            ) ==> counted(ReadKind::Search, trust) == Some("vault_search"@)
            &&& read::read_gate(trust, note, a) != sent_back ==> counted(ReadKind::Read, trust)
                == Some("vault_read"@)
            &&& timeline::timeline_gate(trust, moments, multi_tenant, a) != sent_back ==> counted(
                ReadKind::Timeline,
                trust,
            ) == Some("vault_timeline"@)
            &&& lessons::recall_gate(trust, class, classes, a) != sent_back ==> counted(
                ReadKind::LessonsRecall,
                trust,
            ) == Some("lessons_recall"@)
            &&& code_scope::scope_tool_gate(trust, code, budget, a) != sent_back ==> counted(
                ReadKind::CodeScope,
                trust,
            ) == Some("code_scope"@)
        }),
{
}

/// A call is counted under its own name, for whoever is known.
pub proof fn a_call_counts_under_its_name(kind: ReadKind, trust: TrustContext)
    ensures
        trust is Unauthenticated ==> counted(kind, trust) is None,
        !(trust is Unauthenticated) ==> counted(kind, trust) == Some(
            match kind {
                ReadKind::Search => "vault_search"@,
                ReadKind::Read => "vault_read"@,
                ReadKind::Timeline => "vault_timeline"@,
                ReadKind::LessonsRecall => "lessons_recall"@,
                ReadKind::CodeScope => "code_scope"@,
            },
        ),
{
}

}
