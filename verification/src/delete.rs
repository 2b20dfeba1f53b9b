//! Deletion on demand: an operator moves one note to the archive.

use vstd::prelude::*;
use vstd::string::*;

use crate::error::{GradatumError, Refusal, StatusCode};
use crate::flow::{self, Answers, Ask, Denial, Gate, Next, Question, Stop};
use crate::ids::{self, NoteId};
use crate::rows::{self, IndexedNote};
use crate::text;
use crate::trust::TrustContext;
use crate::writing;

verus! {

/// A deletion.
#[derive(Debug)]
pub struct VaultDeleteRequest {
    pub note_id: String,
    pub tenant_id: Option<String>,
    /// Whether only to show what would happen.
    pub dry_run: bool,
    /// Has to be the identifier of the note and nothing else, unless nothing is to happen.
    pub confirm_ulids: Vec<String>,
}

/// What a deletion would do.
#[derive(Debug)]
pub struct DeletePreview {
    pub note_id: String,
    pub exists: bool,
    pub section: String,
    pub title: Option<String>,
    /// The notes whose links would lead nowhere.
    pub backlinks: Vec<String>,
    pub dry_run: bool,
}

/// What a deleted note held.
#[derive(Debug)]
pub struct DeletedNoteBackup {
    pub section: String,
    pub title: Option<String>,
    pub body: String,
}

/// What a deletion did.
#[derive(Debug)]
pub struct DeleteResult {
    pub note_id: String,
    pub deleted: bool,
    /// The notes whose links lead nowhere now.
    pub backlinks_orphaned: Vec<String>,
    pub backup: Option<DeletedNoteBackup>,
    pub archived_path: Option<String>,
}

/// The reply to a deletion.
#[derive(Debug)]
pub enum DeleteReply {
    Preview(DeletePreview),
    Done(DeleteResult),
}

/// What an operator is told who names another tenant than its own.
pub const OPERATOR_MISMATCH: &'static str = "tenant admin diverge du body";

/// The sections whose notes are never deleted.
pub const PROTECTED_DELETE: [&'static str; 6] = [
    "agent-issues",
    "council",
    "project-map",
    "identity",
    "decisions",
    "reasoning",
];

/// Whether the notes of `section` are never deleted.
pub open spec fn protected_from_deletion(section: Seq<char>) -> bool {
    exists|i: int| 0 <= i < PROTECTED_DELETE@.len() && (#[trigger] PROTECTED_DELETE@[i])@ == section
}

/// Whether the notes of `section` are never deleted.
pub fn is_protected_delete(section: &str) -> (r: bool)
    ensures
        r == protected_from_deletion(section@),
{
    let list = PROTECTED_DELETE;
    let mut i: usize = 0;
    while i < 6
        invariant
            i <= 6,
            list == PROTECTED_DELETE,
            list@.len() == 6,
            forall|k: int| 0 <= k < i ==> (#[trigger] PROTECTED_DELETE@[k])@ != section@,
        decreases 6 - i,
    {
        assert(list@[i as int] == PROTECTED_DELETE@[i as int]);
        if text::same(list[i], section) {
            return true;
        }
        i = i + 1;
    }
    false
}

/// Whether the request confirms the deletion: its confirmation names the note and nothing else.
pub open spec fn confirmed(req: VaultDeleteRequest) -> bool {
    text::views(req.confirm_ulids@) == seq![req.note_id@]
}

fn is_confirmed(req: &VaultDeleteRequest) -> (r: bool)
    ensures
        r == confirmed(*req),
{
    let ghost all = text::views(req.confirm_ulids@);
    if req.confirm_ulids.len() != 1 {
        assert(all.len() != 1);
        return false;
    }
    assert(all[0] == req.confirm_ulids@[0]@);
    if text::same(req.confirm_ulids[0].as_str(), req.note_id.as_str()) {
        assert(all =~= seq![req.note_id@]);
        true
    } else {
        assert(seq![req.note_id@][0] == req.note_id@);
        false
    }
}

/// The message about a confirmation that does not confirm.
pub open spec fn unconfirmed(note_id: Seq<char>, received: nat) -> Seq<char> {
    "confirm_ulids must equal exactly [note_id] ([\""@ + note_id + "\"]) — received "@
        + text::decimal(received) + " ULID(s). A hard-delete is single-note."@
}

/// The message about a protected section.
pub open spec fn protected_message(section: Seq<char>) -> Seq<char> {
    "protected section: '"@ + section
        + "' can never be hard-deleted (PROTECTED_DELETE, no bypass)"@
}

/// The hash of a note as a trace shows it; a hash that does not have thirty-two bytes is left
/// out.
pub open spec fn shown_hash(hash: Seq<u8>) -> Option<Seq<char>> {
    if hash.len() == 32 {
        Some("sha256:"@ + ids::hex(hash))
    } else {
        None
    }
}

/// When the archive may drop a note that was deleted at `now_ms`.
pub open spec fn gc_due(now_ms: i64, retention_days: u32) -> int {
    now_ms + retention_days * 86_400_000
}

/// What a deletion passes before the note is looked up, in this order: a credential, a vault, an
/// identifier, and the confirmation.
pub open spec fn request_gate(trust: TrustContext, req: VaultDeleteRequest, a: Answers) -> Gate {
    if !trust.authenticated() {
        Gate::Fail(flow::silent(Refusal::Unauthorized))
    } else {
        match a.write_vault {
            None => Gate::Ask(
                Question::WriteVault {
                    requested: rows::opt_text(req.tenant_id),
                    deny: OPERATOR_MISMATCH@,
                },
            ),
            Some(Err(e)) => Gate::Fail(flow::silent(e@)),
            Some(Ok(_)) => if !ids::is_ulid(req.note_id@) {
                Gate::Fail(
                    flow::silent(
                        Refusal::InvalidInput(
                            "invalid note_id: "@ + ids::ulid_problem(req.note_id@),
                        ),
                    ),
                )
            } else if !req.dry_run && !confirmed(req) {
                Gate::Fail(
                    flow::silent(
                        Refusal::InvalidInput(
                            unconfirmed(req.note_id@, req.confirm_ulids@.len()),
                        ),
                    ),
                )
            } else {
                Gate::Pass
            },
        }
    }
}

/// What is still to be asked about the note: it is looked up, a protected one is refused, and
/// the links to it are found.
pub open spec fn note_gate(req: VaultDeleteRequest, a: Answers) -> Gate {
    let v = writing::vault_of(a);
    match a.indexed_note {
        None => Gate::Ask(Question::IndexedNote { vault: v, id: req.note_id@ }),
        Some(Err(e)) => Gate::Fail(flow::silent(e@)),
        Some(Ok(None)) => Gate::Pass,
        Some(Ok(Some(n))) => if protected_from_deletion(n.section@) {
            Gate::Fail(flow::silent(Refusal::Forbidden(protected_message(n.section@))))
        } else {
            match a.backlinks {
                None => Gate::Ask(Question::Backlinks { tenant: v, id: req.note_id@ }),
                Some(Err(e)) => Gate::Fail(flow::silent(e@)),
                Some(Ok(_)) => Gate::Pass,
            }
        },
    }
}

/// The trace that has to stand before anything is moved.
pub open spec fn tombstone(
    trust: TrustContext,
    req: VaultDeleteRequest,
    v: Seq<char>,
    n: IndexedNote,
) -> Question {
    Question::Tombstone {
        vault: v,
        locus: n.section@ + "/"@ + req.note_id@,
        note_id: req.note_id@,
        content_hash: shown_hash(n.content_hash@),
        section: n.section@,
        title: rows::opt_text(n.title),
        body: n.body_text@,
        deleted_by: trust.subject_view(),
        request_id: "vault_delete-"@ + ids::ulid_text(ids::base32_value(req.note_id@)),
    }
}

/// The deletion itself, in this order: the trace, the move to the archive, and, when the file
/// turns out to be gone, the clean-up of the index and of the redirections.
pub open spec fn cascade_gate(
    trust: TrustContext,
    req: VaultDeleteRequest,
    n: IndexedNote,
    gc_due_ms: int,
    a: Answers,
) -> Gate {
    let v = writing::vault_of(a);
    match a.tombstone {
        None => Gate::Ask(tombstone(trust, req, v, n)),
        Some(Err(m)) => Gate::Fail(
            flow::silent(
                Refusal::Storage(
                    "durable tombstone audit failed — hard-delete aborted (no deletion): "@ + m@,
                ),
            ),
        ),
        Some(Ok(_)) => match a.archived {
            None => Gate::Ask(
                Question::Archive {
                    vault: v,
                    note_id: req.note_id@,
                    archived_by: trust.subject_view(),
                    gc_due_ms: gc_due_ms as i64,
                },
            ),
            Some(Ok(done)) => match done.index_error {
                Some(e) => Gate::Fail(flow::silent(e@)),
                None => Gate::Pass,
            },
            Some(Err(e)) => if !(e@ is NoteNotFound) {
                Gate::Fail(flow::silent(e@))
            } else {
                match a.purged {
                    None => Gate::Ask(Question::PurgeIndex { vault: v, note_id: req.note_id@ }),
                    Some(Err(f)) => Gate::Fail(flow::silent(f@)),
                    Some(Ok(_)) => match a.redirect_purged {
                        None => Gate::Ask(
                            Question::PurgeRedirect { vault: v, note_id: req.note_id@ },
                        ),
                        Some(_) => Gate::Pass,
                    },
                }
            },
        },
    }
}

/// The first reason not to delete, or the next step of the deletion. A note that is not there
/// is no failure, and a dry run changes nothing.
pub open spec fn delete_gate(
    trust: TrustContext,
    req: VaultDeleteRequest,
    gc_due_ms: int,
    a: Answers,
) -> Gate {
    flow::chain(
        request_gate(trust, req, a),
        flow::chain(
            note_gate(req, a),
            match a.indexed_note->0->Ok_0 {
                None => Gate::Pass,
                Some(n) => if req.dry_run {
                    Gate::Pass
                } else {
                    cascade_gate(trust, req, n, gc_due_ms, a)
                },
            },
        ),
    )
}

/// Whether `r` says what the deletion did, or would do.
pub open spec fn delete_reply(req: VaultDeleteRequest, a: Answers, r: DeleteReply) -> bool {
    match (a.indexed_note->0->Ok_0, r) {
        (None, DeleteReply::Preview(p)) => {
            &&& req.dry_run
            &&& p.note_id@ == req.note_id@
            &&& !p.exists
            &&& p.section@ == ""@
            &&& p.title is None
            &&& p.backlinks@.len() == 0
            &&& p.dry_run
        },
        (None, DeleteReply::Done(d)) => {
            &&& !req.dry_run
            &&& d.note_id@ == req.note_id@
            &&& !d.deleted
            &&& d.backlinks_orphaned@.len() == 0
            &&& d.backup is None
            &&& d.archived_path is None
        },
        (Some(n), DeleteReply::Preview(p)) => {
            &&& req.dry_run
            &&& p.note_id@ == req.note_id@
            &&& p.exists
            &&& p.section@ == n.section@
            &&& p.title == n.title
            &&& p.backlinks@ == a.backlinks->0->Ok_0@
            &&& p.dry_run
        },
        (Some(n), DeleteReply::Done(d)) => {
            &&& !req.dry_run
            &&& d.note_id@ == req.note_id@
            &&& d.deleted
            &&& d.backlinks_orphaned@ == a.backlinks->0->Ok_0@
            &&& d.backup is Some
            &&& d.backup->0.section@ == n.section@
            &&& d.backup->0.title == n.title
            &&& d.backup->0.body@ == n.body_text@
            &&& d.archived_path == match a.archived->0 {
                Ok(done) => done.archive_path,
                Err(_) => None,
            }
        },
    }
}

fn check_request(trust: &TrustContext, req: &VaultDeleteRequest, a: &Answers) -> (r: Result<
    (String, NoteId),
    Stop,
>)
    ensures
        match r {
            Ok((v, id)) => request_gate(*trust, *req, *a) is Pass && v@ == writing::vault_of(*a)
                && ids::is_ulid(req.note_id@) && id.value as nat == ids::base32_value(req.note_id@),
            Err(s) => request_gate(*trust, *req, *a) == s@,
        },
{
    if !trust.is_authenticated() {
        return Err(Stop::Fail(Denial::plain(GradatumError::Unauthorized)));
    }
    let vault = match &a.write_vault {
        None => return Err(
            Stop::Ask(
                Ask::WriteVault {
                    requested: rows::copy_opt(&req.tenant_id),
                    deny: OPERATOR_MISMATCH.to_owned(),
                },
            ),
        ),
        Some(Err(e)) => return Err(Stop::failed(e)),
        Some(Ok(v)) => v.clone(),
    };
    let id = match NoteId::read(req.note_id.as_str()) {
        Ok(id) => id,
        Err(m) => return Err(
            Stop::Fail(
                Denial::plain(
                    GradatumError::InvalidInput(text::cat("invalid note_id: ", m.as_str())),
                ),
            ),
        ),
    };
    if !req.dry_run && !is_confirmed(req) {
        let mut m = text::cat(
            "confirm_ulids must equal exactly [note_id] ([\"",
            req.note_id.as_str(),
        );
        m.append("\"]) — received ");
        m.append(text::decimal_text(req.confirm_ulids.len() as u64).as_str());
        m.append(" ULID(s). A hard-delete is single-note.");
        return Err(Stop::Fail(Denial::plain(GradatumError::InvalidInput(m))));
    }
    Ok((vault, id))
}

fn check_note<'a>(vault: &str, req: &VaultDeleteRequest, a: &'a Answers) -> (r: Result<
    Option<(&'a IndexedNote, &'a Vec<String>)>,
    Stop,
>)
    requires
        vault@ == writing::vault_of(*a),
    ensures
        match r {
            Ok(Some((n, links))) => note_gate(*req, *a) is Pass && a.indexed_note->0->Ok_0 == Some(
                *n,
            ) && a.backlinks->0->Ok_0 == *links,
            Ok(None) => note_gate(*req, *a) is Pass && a.indexed_note->0->Ok_0 is None,
            Err(s) => note_gate(*req, *a) == s@,
        },
{
    let n = match &a.indexed_note {
        None => return Err(
            Stop::Ask(Ask::IndexedNote { vault: vault.to_owned(), id: req.note_id.clone() }),
        ),
        Some(Err(e)) => return Err(Stop::failed(e)),
        Some(Ok(None)) => return Ok(None),
        Some(Ok(Some(n))) => n,
    };
    if is_protected_delete(n.section.as_str()) {
        let mut m = text::cat("protected section: '", n.section.as_str());
        m.append("' can never be hard-deleted (PROTECTED_DELETE, no bypass)");
        return Err(Stop::Fail(Denial::plain(GradatumError::Forbidden(m))));
    }
    match &a.backlinks {
        None => Err(
            Stop::Ask(Ask::Backlinks { tenant: vault.to_owned(), id: req.note_id.clone() }),
        ),
        Some(Err(e)) => Err(Stop::failed(e)),
        Some(Ok(links)) => Ok(Some((n, links))),
    }
}

fn subject_text(trust: &TrustContext) -> (r: Option<String>)
    ensures
        rows::opt_text(r) == trust.subject_view(),
{
    match trust.subject() {
        Some(s) => Some(s.clone()),
        None => None,
    }
}

fn hash_shown(hash: &Vec<u8>) -> (r: Option<String>)
    ensures
        rows::opt_text(r) == shown_hash(hash@),
{
    if hash.len() == 32 {
        Some(text::cat("sha256:", ids::hex_text(hash).as_str()))
    } else {
        None
    }
}

fn cascade(
    trust: &TrustContext,
    req: &VaultDeleteRequest,
    vault: &str,
    id: &NoteId,
    n: &IndexedNote,
    gc_due_ms: i64,
    a: &Answers,
) -> (r: Result<Option<String>, Stop>)
    requires
        vault@ == writing::vault_of(*a),
        id.value as nat == ids::base32_value(req.note_id@),
    ensures
        ({
            let g = cascade_gate(*trust, *req, *n, gc_due_ms as int, *a);
            match r {
                Ok(path) => g is Pass && path == match a.archived->0 {
                    Ok(done) => done.archive_path,
                    Err(_) => None,
                },
                Err(s) => g == s@,
            }
        }),
{
    match &a.tombstone {
        None => {
            let mut locus = text::cat(n.section.as_str(), "/");
            locus.append(req.note_id.as_str());
            return Err(
                Stop::Ask(
                    Ask::Tombstone {
                        vault: vault.to_owned(),
                        locus,
                        note_id: req.note_id.clone(),
                        content_hash: hash_shown(&n.content_hash),
                        section: n.section.clone(),
                        title: rows::copy_opt(&n.title),
                        body: n.body_text.clone(),
                        deleted_by: subject_text(trust),
                        request_id: text::cat("vault_delete-", id.text().as_str()),
                    },
                ),
            );
        },
        Some(Err(m)) => return Err(
            Stop::Fail(
                Denial::plain(
                    GradatumError::Storage(
                        text::cat(
                            "durable tombstone audit failed — hard-delete aborted (no deletion): ",
                            m.as_str(),
                        ),
                    ),
                ),
            ),
        ),
        Some(Ok(_)) => {},
    }
    match &a.archived {
        None => Err(
            Stop::Ask(
                Ask::Archive {
                    vault: vault.to_owned(),
                    note_id: req.note_id.clone(),
                    archived_by: subject_text(trust),
                    gc_due_ms,
                },
            ),
        ),
        Some(Ok(done)) => match &done.index_error {
            Some(e) => Err(Stop::failed(e)),
            None => Ok(rows::copy_opt(&done.archive_path)),
        },
        Some(Err(e)) => match e {
            GradatumError::NoteNotFound(_) => match &a.purged {
                None => Err(
                    Stop::Ask(
                        Ask::PurgeIndex { vault: vault.to_owned(), note_id: req.note_id.clone() },
                    ),
                ),
                Some(Err(f)) => Err(Stop::failed(f)),
                Some(Ok(_)) => match a.redirect_purged {
                    None => Err(
                        Stop::Ask(
                            Ask::PurgeRedirect {
                                vault: vault.to_owned(),
                                note_id: req.note_id.clone(),
                            },
                        ),
                    ),
                    Some(_) => Ok(None),
                },
            },
            _ => Err(Stop::failed(e)),
        },
    }
}

/// Deletes one note: it leaves the index and moves to the archive, from which it can be brought
/// back until `retention_days` have passed.
pub fn vault_delete_core(
    trust: &TrustContext,
    req: &VaultDeleteRequest,
    now_ms: i64,
    retention_days: u32,
    a: &Answers,
) -> (r: Next<DeleteReply>)
    requires
        gc_due(now_ms, retention_days) <= i64::MAX,
    ensures
        flow::follows(r, delete_gate(*trust, *req, gc_due(now_ms, retention_days), *a)),
        r matches Next::Reply(x) ==> delete_reply(*req, *a, x),
{
    let (vault, id) = match check_request(trust, req, a) {
        Ok(x) => x,
        Err(s) => return s.next(),
    };
    let note_id = req.note_id.clone();
    match check_note(vault.as_str(), req, a) {
        Err(s) => s.next(),
        Ok(None) => Next::Reply(
            if req.dry_run {
                DeleteReply::Preview(
                    DeletePreview {
                        note_id,
                        exists: false,
                        section: "".to_owned(),
                        title: None,
                        backlinks: Vec::new(),
                        dry_run: true,
                    },
                )
            } else {
                DeleteReply::Done(
                    DeleteResult {
                        note_id,
                        deleted: false,
                        backlinks_orphaned: Vec::new(),
                        backup: None,
                        archived_path: None,
                    },
                )
            },
        ),
        Ok(Some((n, links))) => {
            let backlinks = rows::copy_list(links);
            if req.dry_run {
                return Next::Reply(
                    DeleteReply::Preview(
                        DeletePreview {
                            note_id,
                            exists: true,
                            section: n.section.clone(),
                            title: rows::copy_opt(&n.title),
                            backlinks,
                            dry_run: true,
                        },
                    ),
                );
            }
            let gc_due_ms: i64 = now_ms + retention_days as i64 * 86_400_000;
            match cascade(trust, req, vault.as_str(), &id, n, gc_due_ms, a) {
                Err(s) => s.next(),
                Ok(archived_path) => Next::Reply(
                    DeleteReply::Done(
                        DeleteResult {
                            note_id,
                            deleted: true,
                            backlinks_orphaned: backlinks,
                            backup: Some(
                                DeletedNoteBackup {
                                    section: n.section.clone(),
                                    title: rows::copy_opt(&n.title),
                                    body: n.body_text.clone(),
                                },
                            ),
                            archived_path,
                        },
                    ),
                ),
            }
        },
    }
}

/// The status and the message with which a deletion is refused; what went wrong inside is not
/// told.
pub open spec fn delete_error(e: Refusal) -> (StatusCode, Seq<char>) {
    match e {
        Refusal::Unauthorized => (StatusCode::Unauthorized, "not authenticated"@),
        Refusal::Forbidden(m) => (StatusCode::Forbidden, m),
        Refusal::InvalidInput(m) => (StatusCode::BadRequest, m),
        Refusal::NoteNotFound(_) => (StatusCode::NotFound, "note not found"@),
        Refusal::Conflict(m) => (StatusCode::Conflict, m),
        _ => (StatusCode::InternalServerError, "internal error"@),
    }
}

/// The status and the message with which a deletion is refused.
pub fn delete_error_response(e: &GradatumError) -> (r: (StatusCode, String))
    ensures
        (r.0, r.1@) == delete_error(e@),
{
    match e {
        GradatumError::Unauthorized => (StatusCode::Unauthorized, "not authenticated".to_owned()),
        GradatumError::Forbidden(m) => (StatusCode::Forbidden, m.clone()),
        GradatumError::InvalidInput(m) => (StatusCode::BadRequest, m.clone()),
        GradatumError::NoteNotFound(_) => (StatusCode::NotFound, "note not found".to_owned()),
        GradatumError::Conflict(m) => (StatusCode::Conflict, m.clone()),
        _ => (StatusCode::InternalServerError, "internal error".to_owned()),
    }
}

// ── Laws ────────────────────────────────────────────────────────────────────

/// Whether a question asks for a change.
pub open spec fn changes(q: Question) -> bool {
    q is Tombstone || q is Archive || q is PurgeIndex || q is PurgeRedirect
}

/// Nothing is changed for a dry run, for a request that does not confirm, for a note that is
/// not there, or for a protected one.
pub proof fn delete_changes_only_what_was_confirmed(
    trust: TrustContext,
    req: VaultDeleteRequest,
    gc_due_ms: int,
    a: Answers,
)
    requires
        delete_gate(trust, req, gc_due_ms, a) is Ask,
        changes(delete_gate(trust, req, gc_due_ms, a)->Ask_0),
    ensures
        trust.authenticated(),
        !req.dry_run,
        confirmed(req),
        a.indexed_note->0->Ok_0 is Some,
        !protected_from_deletion(a.indexed_note->0->Ok_0->0.section@),
{
}

/// A note is moved only after its trace stands, and the index is cleaned up only after the move
/// found the file gone.
pub proof fn delete_leaves_its_trace_first(
    trust: TrustContext,
    req: VaultDeleteRequest,
    gc_due_ms: int,
    a: Answers,
)
    requires
        delete_gate(trust, req, gc_due_ms, a) is Ask,
    ensures
        ({
            let q = delete_gate(trust, req, gc_due_ms, a)->Ask_0;
            &&& q is Archive || q is PurgeIndex || q is PurgeRedirect ==> a.tombstone is Some
                && a.tombstone->0 is Ok
            &&& q is PurgeIndex || q is PurgeRedirect ==> a.archived is Some && a.archived->0 is Err
                && a.archived->0->Err_0@ is NoteNotFound
        }),
{
}

/// A deletion that reports a note as deleted had its trace.
pub proof fn deleted_means_traced(
    trust: TrustContext,
    req: VaultDeleteRequest,
    gc_due_ms: int,
    a: Answers,
    r: DeleteResult,
)
    requires
        delete_gate(trust, req, gc_due_ms, a) is Pass,
        delete_reply(req, a, DeleteReply::Done(r)),
        r.deleted,
    ensures
        a.tombstone->0 is Ok,
        confirmed(req),
        a.archived is Some,
{
}

/// What went wrong inside is never told to the caller.
pub proof fn delete_error_hides_the_inside(e: Refusal)
    requires
        e is Storage || e is Io || e is Internal,
    ensures
        delete_error(e) == (StatusCode::InternalServerError, "internal error"@),
{
}

/// What is never deleted: issues of agents, the council, the map, souls, decisions and the
/// reasoning behind them. Every other section can be deleted from.
pub proof fn these_sections_are_never_deleted_from(section: Seq<char>)
    ensures
        protected_from_deletion(section) <==> (section == "agent-issues"@ || section == "council"@
            || section == "project-map"@ || section == "identity"@ || section == "decisions"@
            || section == "reasoning"@),
{
    let list = PROTECTED_DELETE;
    assert(list@[0]@ == "agent-issues"@);
    assert(list@[1]@ == "council"@);
    assert(list@[2]@ == "project-map"@);
    assert(list@[3]@ == "identity"@);
    assert(list@[4]@ == "decisions"@);
    assert(list@[5]@ == "reasoning"@);
}

/// A deletion asks about the note of the request only, in the vault that the caller may write, and
/// leaves a trace of what the note was and of who deleted it.
pub proof fn a_deletion_is_of_the_note_asked_for(
    trust: TrustContext,
    req: VaultDeleteRequest,
    gc_due_ms: int,
    a: Answers,
)
    ensures
        delete_gate(trust, req, gc_due_ms, a) matches Gate::Ask(q) ==> match q {
            Question::WriteVault { requested, .. } => requested == rows::opt_text(req.tenant_id),
            Question::IndexedNote { vault, id } => writes(trust, a, vault) && id == req.note_id@,
            Question::Backlinks { tenant, id } => writes(trust, a, tenant) && id == req.note_id@,
            Question::Tombstone {
                vault,
                locus,
                note_id,
                content_hash,
                section,
                title,
                body,
                deleted_by,
                request_id,
            } => {
                &&& writes(trust, a, vault)
                &&& note_id == req.note_id@
                &&& deleted_by == trust.subject_view()
                &&& a.indexed_note matches Some(Ok(Some(n))) && {
                    &&& locus == n.section@ + "/"@ + req.note_id@
                    &&& section == n.section@
                    &&& title == rows::opt_text(n.title)
                    &&& body == n.body_text@
                    &&& n.content_hash@.len() != 32 ==> content_hash is None
                    &&& n.content_hash@.len() == 32 ==> content_hash == Some(
                        "sha256:"@ + ids::hex(n.content_hash@),
                    )
                }
                &&& "vault_delete-"@.is_prefix_of(request_id)
            },
            Question::Archive { vault, note_id, archived_by, gc_due_ms: due } => {
                &&& writes(trust, a, vault)
                &&& note_id == req.note_id@
                &&& archived_by == trust.subject_view()
                &&& i64::MIN <= gc_due_ms <= i64::MAX ==> due == gc_due_ms
            },
            Question::PurgeIndex { vault, note_id } => writes(trust, a, vault) && note_id
                == req.note_id@,
            Question::PurgeRedirect { vault, note_id } => writes(trust, a, vault) && note_id
                == req.note_id@,
            _ => false,
        },
{
    let head = "vault_delete-"@;
    let whole = head + ids::ulid_text(ids::base32_value(req.note_id@));
    assert(whole.subrange(0, head.len() as int) =~= head);
}

/// Whether `vault` is the one that the caller may write.
pub open spec fn writes(trust: TrustContext, a: Answers, vault: Seq<char>) -> bool {
    trust.authenticated() && (a.write_vault matches Some(Ok(v)) && vault == v@)
}

/// A deletion is refused for cause only, and for the cause that it has.
pub proof fn a_deletion_is_refused_for_cause(
    trust: TrustContext,
    req: VaultDeleteRequest,
    gc_due_ms: int,
    a: Answers,
)
    ensures
        ({
            let g = delete_gate(trust, req, gc_due_ms, a);
            let known = trust.authenticated() && (a.write_vault matches Some(Ok(_)));
            let agreed = req.dry_run || (req.confirm_ulids@.len() == 1 && req.confirm_ulids@[0]@
                == req.note_id@);
            let entered = known && ids::is_ulid(req.note_id@) && agreed;
            let there = a.indexed_note matches Some(Ok(Some(_)));
            let open = entered && there && !protected_from_deletion(
                a.indexed_note->0->Ok_0->0.section@,
            );
            let counted = open && (a.backlinks matches Some(Ok(_)));
            &&& !trust.authenticated() ==> flow::fails(g, Refusal::Unauthorized)
            &&& trust.authenticated() && (a.write_vault matches Some(Err(_))) ==> flow::fails(
                g,
                a.write_vault->0->Err_0@,
            )
            &&& known && !ids::is_ulid(req.note_id@) ==> flow::finds_fault(g)
            &&& known && ids::is_ulid(req.note_id@) && !agreed ==> flow::finds_fault(g)
            &&& entered && (a.indexed_note matches Some(Err(_))) ==> flow::fails(
                g,
                a.indexed_note->0->Err_0@,
            )
            &&& entered && (a.indexed_note matches Some(Ok(None))) ==> g is Pass
            &&& entered && there && !open ==> flow::forbids(g)
            &&& open && (a.backlinks matches Some(Err(_))) ==> flow::fails(
                g,
                a.backlinks->0->Err_0@,
            )
            &&& counted && req.dry_run ==> g is Pass
            &&& counted && !req.dry_run && a.tombstone is None ==> g is Ask && g->Ask_0 is Tombstone
            &&& counted && !req.dry_run && (a.tombstone matches Some(Err(_))) ==> g is Fail
                && g->Fail_0.error is Storage
            &&& counted && !req.dry_run && (a.tombstone matches Some(Ok(_))) ==> match a.archived {
                None => g is Ask && g->Ask_0 is Archive,
                Some(Ok(done)) => match done.index_error {
                    None => g is Pass,
                    Some(e) => flow::fails(g, e@),
                },
                Some(Err(e)) => if e@ is NoteNotFound {
                    !(g is Fail) || (a.purged matches Some(Err(_)))
                } else {
                    flow::fails(g, e@)
                },
            }
        }),
{
    if req.confirm_ulids@.len() == 1 && req.confirm_ulids@[0]@ == req.note_id@ {
        assert(text::views(req.confirm_ulids@) =~= seq![req.note_id@]);
    }
    if confirmed(req) {
        assert(text::views(req.confirm_ulids@)[0] == req.note_id@);
        assert(text::views(req.confirm_ulids@).len() == 1);
    }
}

/// What is deleted is kept for as many days as the settings say, each of twenty-four hours.
pub proof fn what_is_deleted_is_kept_for_days(now_ms: i64, days: u32)
    ensures
        gc_due(now_ms, 0) == now_ms,
        days < u32::MAX ==> gc_due(now_ms, (days + 1) as u32) == gc_due(now_ms, days) + 24 * 60 * 60
            * 1000,
        gc_due(now_ms, days) >= now_ms,
{
}

/// The reply tells what was there and what was done: a dry run previews, anything else reports,
/// and only a note that was there is deleted.
pub proof fn a_deletion_tells_what_it_did(req: VaultDeleteRequest, a: Answers, r: DeleteReply)
    requires
        delete_reply(req, a, r),
    ensures
        r is Preview <==> req.dry_run,
        r matches DeleteReply::Preview(p) ==> {
            let n = a.indexed_note->0->Ok_0;
            &&& p.note_id@ == req.note_id@
            &&& p.dry_run
            &&& p.exists <==> n is Some
            &&& n is Some ==> p.section@ == n->0.section@ && p.title == n->0.title && p.backlinks@
                == a.backlinks->0->Ok_0@
            &&& n is None ==> p.title is None && p.backlinks@.len() == 0
        },
        r matches DeleteReply::Done(d) ==> {
            let n = a.indexed_note->0->Ok_0;
            &&& d.note_id@ == req.note_id@
            &&& d.deleted <==> n is Some
            &&& d.backup is Some <==> n is Some
            &&& n is Some ==> {
                &&& d.backlinks_orphaned@ == a.backlinks->0->Ok_0@
                &&& d.backup->0.section@ == n->0.section@
                &&& d.backup->0.title == n->0.title
                &&& d.backup->0.body@ == n->0.body_text@
                &&& a.archived->0 matches Ok(done) ==> d.archived_path == done.archive_path
                &&& a.archived->0 is Err ==> d.archived_path is None
            }
            &&& n is None ==> d.backlinks_orphaned@.len() == 0 && d.archived_path is None
        },
{
}

/// Each refusal has its status, and those whose words are the caller's own say them.
pub proof fn a_refused_deletion_has_its_status(e: Refusal)
    ensures
        e is Unauthorized ==> delete_error(e).0 == StatusCode::Unauthorized,
        e matches Refusal::Forbidden(m) ==> delete_error(e) == (StatusCode::Forbidden, m),
        e matches Refusal::InvalidInput(m) ==> delete_error(e) == (StatusCode::BadRequest, m),
        e is NoteNotFound ==> delete_error(e).0 == StatusCode::NotFound,
        e matches Refusal::Conflict(m) ==> delete_error(e) == (StatusCode::Conflict, m),
{
}

}
