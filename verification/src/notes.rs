//! Notes that are taken out of service, patched and moved, without a job in between.

use vstd::prelude::*;
use vstd::string::*;

use crate::access;
use crate::door::{self, HttpGate, HttpNext, HttpStop};
use crate::error::{self, GradatumError, Refusal, StatusCode};
use crate::flow::{self, AclOp, Answers, Ask, Denial, Gate, Next, Question, Stop};
use crate::history;
use crate::identity;
use crate::ids::{self, NoteId};
use crate::reference;
use crate::rows;
use crate::text;
use crate::trust::TrustContext;
use crate::writing;

verus! {

/// A note to take out of service.
#[derive(Debug)]
pub struct VaultDowngradeRequest {
    pub note_id: String,
    pub reason: String,
    /// The note that takes its place.
    pub replaced_by: Option<String>,
    pub tenant_id: Option<String>,
}

/// A note that was taken out of service.
#[derive(Debug)]
pub struct VaultDowngradeResponse {
    pub note_id: String,
    pub status: String,
    /// The moment of the change, in milliseconds.
    pub status_changed: i64,
    pub reason: String,
}

/// What is to be changed of a note. What is absent stays.
#[derive(Debug)]
pub struct NoteStatusPatch {
    pub status: Option<String>,
    pub status_reason: Option<String>,
    pub replaced_by: Option<String>,
    /// Tags to be added to those of the note.
    pub add_tags: Option<Vec<String>>,
}

/// Where a note is to be moved.
#[derive(Debug)]
pub struct MoveLocusRequest {
    /// The new locus.
    pub locus: String,
}

// ── Statuses and identifiers ────────────────────────────────────────────────

/// Whether a text names a state of the life cycle of a note. `downgraded` is none.
pub open spec fn note_status(s: Seq<char>) -> bool {
    ||| s == "draft"@
    ||| s == "staging"@
    ||| s == "pending-review"@
    ||| s == "live"@
    ||| s == "deprecated"@
    ||| s == "garbage"@
}

/// Whether a text names a state of the life cycle of a note.
pub fn is_note_status(s: &str) -> (r: bool)
    ensures
        r == note_status(s@),
{
    text::same(s, "draft") || text::same(s, "staging") || text::same(s, "pending-review")
        || text::same(s, "live") || text::same(s, "deprecated") || text::same(s, "garbage")
}

/// The canonical form of an identifier.
pub open spec fn canonical(s: Seq<char>) -> Seq<char> {
    ids::ulid_text(ids::base32_value(s))
}

/// The canonical form of an identifier, where there is one.
pub open spec fn canonical_opt(o: Option<Seq<char>>) -> Option<Seq<char>> {
    match o {
        Some(s) => Some(canonical(s)),
        None => None,
    }
}

/// Reads an identifier.
pub fn parse_note_id(s: &str) -> (r: Result<NoteId, StatusCode>)
    ensures
        match r {
            Ok(id) => ids::is_ulid(s@) && id@ == canonical(s@),
            Err(e) => !ids::is_ulid(s@) && e == StatusCode::BadRequest,
        },
{
    match NoteId::parse(s) {
        Some(id) => Ok(id),
        None => Err(StatusCode::BadRequest),
    }
}

/// Whether the identifier of the replacement, if there is one, is one.
pub open spec fn replacement_sound(o: Option<Seq<char>>) -> bool {
    o matches Some(s) ==> ids::is_ulid(s)
}

/// Reads the identifier of the replacement, if there is one.
fn parse_replacement(o: &Option<String>) -> (r: Result<Option<String>, StatusCode>)
    ensures
        match r {
            Ok(c) => replacement_sound(rows::opt_text(*o)) && rows::opt_text(c) == canonical_opt(
                rows::opt_text(*o),
            ),
            Err(e) => !replacement_sound(rows::opt_text(*o)) && e == StatusCode::BadRequest,
        },
{
    match o {
        None => Ok(None),
        Some(s) => match parse_note_id(s.as_str()) {
            Ok(id) => Ok(Some(id.text())),
            Err(e) => Err(e),
        },
    }
}

// ── Tags ────────────────────────────────────────────────────────────────────

/// The most tags that one patch adds.
pub const MAX_ADD_TAGS_PER_CALL: usize = 20;

/// A text without the case of its ASCII letters.
pub open spec fn folded(s: Seq<char>) -> Seq<char> {
    s.map_values(|c: char| text::ascii_lower(c))
}

/// The texts of a list, each in the case in which it comes first.
pub open spec fn first_of_each(list: Seq<Seq<char>>) -> Seq<Seq<char>>
    decreases list.len(),
{
    if list.len() == 0 {
        Seq::empty()
    } else {
        let kept = first_of_each(list.drop_last());
        if exists|j: int| 0 <= j < kept.len() && folded(#[trigger] kept[j]) == folded(list.last()) {
            kept
        } else {
            kept.push(list.last())
        }
    }
}

fn lower_code(c: char) -> (r: u32)
    ensures
        r == text::ascii_lower(c) as u32,
{
    if 'A' <= c && c <= 'Z' {
        c as u32 + 32
    } else {
        c as u32
    }
}

fn same_folded(a: &str, b: &str) -> (r: bool)
    ensures
        r == (folded(a@) == folded(b@)),
{
    let x = text::chars_of(a);
    let y = text::chars_of(b);
    if x.len() != y.len() {
        assert(folded(a@).len() != folded(b@).len());
        return false;
    }
    let mut i: usize = 0;
    while i < x.len()
        invariant
            i <= x@.len(),
            x@.len() == y@.len(),
            x@ == a@,
            y@ == b@,
            forall|k: int| 0 <= k < i ==> folded(a@)[k] == folded(b@)[k],
        decreases x@.len() - i,
    {
        if lower_code(x[i]) != lower_code(y[i]) {
            assert(folded(a@)[i as int] != folded(b@)[i as int]);
            return false;
        }
        assert(folded(a@)[i as int] == folded(b@)[i as int]);
        i = i + 1;
    }
    assert(folded(a@) =~= folded(b@));
    true
}

fn seen_before(kept: &Vec<String>, s: &str) -> (r: bool)
    ensures
        r == (exists|j: int|
            0 <= j < kept@.len() && folded(#[trigger] text::views(kept@)[j]) == folded(s@)),
{
    let mut i: usize = 0;
    while i < kept.len()
        invariant
            i <= kept@.len(),
            forall|j: int|
                0 <= j < i ==> folded(#[trigger] text::views(kept@)[j]) != folded(s@),
        decreases kept@.len() - i,
    {
        if same_folded(kept[i].as_str(), s) {
            assert(folded(text::views(kept@)[i as int]) == folded(s@));
            return true;
        }
        i = i + 1;
    }
    false
}

/// Whether tags can be added: some, not too many, each of them a tag.
pub open spec fn tags_sound(raw: Seq<Seq<char>>, all_tags: bool) -> bool {
    1 <= raw.len() <= MAX_ADD_TAGS_PER_CALL && all_tags
}

/// The tags to add, each once. `all_tags` tells whether each of them is a tag.
pub fn validate_add_tags(raw: &Vec<String>, all_tags: bool) -> (r: Result<Vec<String>, StatusCode>)
    ensures
        match r {
            Ok(v) => tags_sound(text::views(raw@), all_tags) && text::views(v@) == first_of_each(
                text::views(raw@),
            ),
            Err(e) => !tags_sound(text::views(raw@), all_tags) && e == StatusCode::BadRequest,
        },
{
    if raw.len() == 0 || raw.len() > MAX_ADD_TAGS_PER_CALL || !all_tags {
        return Err(StatusCode::BadRequest);
    }
    let ghost list = text::views(raw@);
    let mut out: Vec<String> = Vec::new();
    let mut i: usize = 0;
    assert(list.take(0) =~= Seq::empty());
    assert(text::views(out@) =~= Seq::empty());
    while i < raw.len()
        invariant
            i <= raw@.len(),
            list == text::views(raw@),
            text::views(out@) == first_of_each(list.take(i as int)),
        decreases raw@.len() - i,
    {
        proof {
            assert(list.take(i + 1).drop_last() =~= list.take(i as int));
            assert(list.take(i + 1).last() == raw@[i as int]@);
        }
        if !seen_before(&out, raw[i].as_str()) {
            let ghost before = out@;
            out.push(raw[i].clone());
            assert(text::views(out@) =~= text::views(before).push(raw@[i as int]@));
        }
        i = i + 1;
    }
    assert(list.take(list.len() as int) =~= list);
    Ok(out)
}

// ── Patches ─────────────────────────────────────────────────────────────────

/// How far the patch of a note has come.
#[derive(Debug)]
pub enum PatchStep {
    Ask(Ask),
    /// The status is none of the life cycle.
    BadStatus,
    /// The replacement is not named by an identifier.
    BadReplacement,
    /// The change of status failed.
    StatusFailed(GradatumError),
    /// The reason or the replacement was not written.
    PatchFailed(GradatumError),
    /// The tags were not added.
    TagsFailed(GradatumError),
    Done,
}

/// How far the patch of a note has come, by its contents.
#[verifier::ext_equal]
pub enum PatchStage {
    Ask(Question),
    BadStatus,
    BadReplacement,
    StatusFailed(Refusal),
    PatchFailed(Refusal),
    TagsFailed(Refusal),
    Done,
}

impl View for PatchStep {
    type V = PatchStage;

    open spec fn view(&self) -> PatchStage {
        match self {
            PatchStep::Ask(q) => PatchStage::Ask(q@),
            PatchStep::BadStatus => PatchStage::BadStatus,
            PatchStep::BadReplacement => PatchStage::BadReplacement,
            PatchStep::StatusFailed(e) => PatchStage::StatusFailed(e@),
            PatchStep::PatchFailed(e) => PatchStage::PatchFailed(e@),
            PatchStep::TagsFailed(e) => PatchStage::TagsFailed(e@),
            PatchStep::Done => PatchStage::Done,
        }
    }
}

/// The step that writes the reason and the replacement.
pub open spec fn direct_stage(
    vault: Option<Seq<char>>,
    id: Seq<char>,
    reason: Option<Seq<char>>,
    replaced_by: Option<Seq<char>>,
    a: Answers,
) -> PatchStage {
    if !replacement_sound(replaced_by) {
        PatchStage::BadReplacement
    } else {
        match a.patched {
            None => PatchStage::Ask(
                Question::PatchNote {
                    vault,
                    note_id: id,
                    reason,
                    replaced_by: canonical_opt(replaced_by),
                },
            ),
            Some(Err(e)) => PatchStage::PatchFailed(e@),
            Some(Ok(_)) => PatchStage::Done,
        }
    }
}

/// The step that changes the status, the reason and the replacement. A status goes through the
/// life cycle; without one, reason and replacement are written directly.
pub open spec fn status_stage(
    vault: Option<Seq<char>>,
    id: Seq<char>,
    body: NoteStatusPatch,
    a: Answers,
) -> PatchStage {
    match body.status {
        Some(s) => if !note_status(s@) {
            PatchStage::BadStatus
        } else {
            match a.done {
                None => PatchStage::Ask(
                    Question::ChangeStatus {
                        vault,
                        note_id: id,
                        status: s@,
                        reason: rows::opt_text(body.status_reason),
                    },
                ),
                Some(Err(e)) => PatchStage::StatusFailed(e@),
                Some(Ok(_)) => if body.replaced_by is Some {
                    direct_stage(vault, id, None, rows::opt_text(body.replaced_by), a)
                } else {
                    PatchStage::Done
                },
            }
        },
        None => direct_stage(
            vault,
            id,
            rows::opt_text(body.status_reason),
            rows::opt_text(body.replaced_by),
            a,
        ),
    }
}

/// The steps of a patch: the status first, then the tags.
pub open spec fn patch_stage(
    vault: Option<Seq<char>>,
    id: Seq<char>,
    body: NoteStatusPatch,
    tags: Option<Seq<Seq<char>>>,
    a: Answers,
) -> PatchStage {
    let first = status_stage(vault, id, body, a);
    if !(first is Done) {
        first
    } else {
        match tags {
            None => PatchStage::Done,
            Some(tags) => match a.tags_added {
                None => PatchStage::Ask(Question::AddTags { vault, note_id: id, tags }),
                Some(Err(e)) => PatchStage::TagsFailed(e@),
                Some(Ok(_)) => PatchStage::Done,
            },
        }
    }
}

fn step_direct(
    vault: &Option<String>,
    id: &str,
    reason: &Option<String>,
    replaced_by: &Option<String>,
    a: &Answers,
) -> (r: PatchStep)
    ensures
        r@ == direct_stage(
            rows::opt_text(*vault),
            id@,
            rows::opt_text(*reason),
            rows::opt_text(*replaced_by),
            *a,
        ),
{
    let replacement = match parse_replacement(replaced_by) {
        Ok(x) => x,
        Err(_) => return PatchStep::BadReplacement,
    };
    match &a.patched {
        None => PatchStep::Ask(
            Ask::PatchNote {
                vault: rows::copy_opt(vault),
                note_id: id.to_owned(),
                reason: rows::copy_opt(reason),
                replaced_by: replacement,
            },
        ),
        Some(Err(e)) => PatchStep::PatchFailed(e.copy()),
        Some(Ok(_)) => PatchStep::Done,
    }
}

fn step_status(vault: &Option<String>, id: &str, body: &NoteStatusPatch, a: &Answers) -> (r:
    PatchStep)
    ensures
        r@ == status_stage(rows::opt_text(*vault), id@, *body, *a),
{
    match &body.status {
        Some(s) => {
            if !is_note_status(s.as_str()) {
                return PatchStep::BadStatus;
            }
            match &a.done {
                None => PatchStep::Ask(
                    Ask::ChangeStatus {
                        vault: rows::copy_opt(vault),
                        note_id: id.to_owned(),
                        status: s.clone(),
                        reason: rows::copy_opt(&body.status_reason),
                    },
                ),
                Some(Err(e)) => PatchStep::StatusFailed(e.copy()),
                Some(Ok(_)) => if body.replaced_by.is_some() {
                    step_direct(vault, id, &None, &body.replaced_by, a)
                } else {
                    PatchStep::Done
                },
            }
        },
        None => step_direct(vault, id, &body.status_reason, &body.replaced_by, a),
    }
}

/// The next step of a patch. Tags are handed over as they are given.
pub fn step_patch(
    vault: &Option<String>,
    id: &str,
    body: &NoteStatusPatch,
    tags: &Option<Vec<String>>,
    a: &Answers,
) -> (r: PatchStep)
    ensures
        r@ == patch_stage(rows::opt_text(*vault), id@, *body, flow::opt_list(*tags), *a),
{
    match step_status(vault, id, body, a) {
        PatchStep::Done => {},
        other => return other,
    }
    match tags {
        None => PatchStep::Done,
        Some(list) => match &a.tags_added {
            None => PatchStep::Ask(
                Ask::AddTags {
                    vault: rows::copy_opt(vault),
                    note_id: id.to_owned(),
                    tags: rows::copy_list(list),
                },
            ),
            Some(Err(e)) => PatchStep::TagsFailed(e.copy()),
            Some(Ok(_)) => PatchStep::Done,
        },
    }
}

// ── The guarded operations ──────────────────────────────────────────────────

/// The right of a caller to change notes of the vault that the credential names. With several
/// tenants a grant is needed too.
pub open spec fn own_gate(trust: TrustContext, multi_tenant: bool, a: Answers) -> Gate {
    if !trust.authenticated() {
        Gate::Fail(flow::silent(Refusal::Unauthorized))
    } else {
        match trust.tenant_view() {
            None => Gate::Fail(
                flow::silent(
                    Refusal::Forbidden("context without tenant — vault access denied"@),
                ),
            ),
            Some(t) => match a.acl {
                None => Gate::Ask(
                    Question::Acl { op: AclOp::Write, locus: access::locus_text(t, None) },
                ),
                Some(false) => Gate::Fail(flow::silent(Refusal::Forbidden("acl deny write"@))),
                Some(true) => if multi_tenant {
                    match a.write_grant {
                        None => Gate::Ask(Question::WriteGrant { tenant: t }),
                        Some(Err(e)) => Gate::Fail(flow::silent(e@)),
                        Some(Ok(_)) => Gate::Pass,
                    }
                } else {
                    Gate::Pass
                },
            },
        }
    }
}

fn enter_own(trust: &TrustContext, multi_tenant: bool, a: &Answers) -> (r: Result<String, Stop>)
    ensures
        match r {
            Ok(t) => own_gate(*trust, multi_tenant, *a) is Pass && trust.tenant_view() == Some(t@),
            Err(s) => own_gate(*trust, multi_tenant, *a) == s@,
        },
{
    if !trust.is_authenticated() {
        return Err(Stop::Fail(Denial::plain(GradatumError::Unauthorized)));
    }
    let t = match trust.tenant_id() {
        None => return Err(
            Stop::Fail(Denial::forbidden("context without tenant — vault access denied")),
        ),
        Some(t) => t,
    };
    match a.acl {
        None => return Err(
            Stop::Ask(
                Ask::Acl { op: AclOp::Write, locus: access::locus_for_tenant(t.as_str()) },
            ),
        ),
        Some(false) => return Err(Stop::Fail(Denial::forbidden("acl deny write"))),
        Some(true) => {},
    }
    if multi_tenant {
        match &a.write_grant {
            None => return Err(Stop::Ask(Ask::WriteGrant { tenant: t.clone() })),
            Some(Err(e)) => return Err(Stop::failed(e)),
            Some(Ok(_)) => {},
        }
    }
    Ok(t.clone())
}

/// The refusal of a reference that is not a bare identifier.
pub open spec fn not_bare(field: Seq<char>, value: Seq<char>) -> Gate {
    Gate::Fail(
        flow::silent(
            Refusal::Validation(
                reference::bare_id_expected(field, value, "a bare ULID is expected"@),
            ),
        ),
    )
}

/// The first reason not to take a note out of service, or the step that does.
pub open spec fn downgrade_gate(
    trust: TrustContext,
    req: VaultDowngradeRequest,
    a: Answers,
) -> Gate {
    let t = writing::vault_of(a);
    flow::chain(
        writing::change_gate(
            trust,
            rows::opt_text(req.tenant_id),
            a,
            writing::TENANT_MISMATCH@,
            "acl deny write"@,
        ),
        flow::chain(
            history::guard_gate(trust, t, req.note_id@, true, a),
            if !ids::is_ulid(req.note_id@) {
                not_bare("note_id"@, req.note_id@)
            } else if !replacement_sound(rows::opt_text(req.replaced_by)) {
                not_bare("replaced_by"@, rows::opt_text(req.replaced_by)->0)
            } else {
                match a.done {
                    None => Gate::Ask(
                        Question::Downgrade {
                            vault: Some(t),
                            note_id: canonical(req.note_id@),
                            reason: req.reason@,
                            replaced_by: canonical_opt(rows::opt_text(req.replaced_by)),
                        },
                    ),
                    Some(Err(e)) => Gate::Fail(flow::silent(e@)),
                    Some(Ok(_)) => Gate::Pass,
                }
            },
        ),
    )
}

/// What is said of a note that was taken out of service at `now_ms`.
pub open spec fn downgraded(
    req: VaultDowngradeRequest,
    now_ms: i64,
    x: VaultDowngradeResponse,
) -> bool {
    &&& x.note_id@ == req.note_id@
    &&& x.status@ == "downgraded"@
    &&& x.status_changed == now_ms
    &&& x.reason@ == req.reason@
}

fn downgrade_reply(req: &VaultDowngradeRequest, now_ms: i64) -> (x: VaultDowngradeResponse)
    ensures
        downgraded(*req, now_ms, x),
{
    VaultDowngradeResponse {
        note_id: req.note_id.clone(),
        status: "downgraded".to_owned(),
        status_changed: now_ms,
        reason: req.reason.clone(),
    }
}

fn refuse_not_bare(field: &str, value: &str) -> (r: Denial)
    ensures
        not_bare(field@, value@) == Gate::Fail(r@),
{
    Denial::plain(
        GradatumError::Validation(
            reference::bare_id_message(field, value, "a bare ULID is expected"),
        ),
    )
}

/// Takes a note out of service. The note must be named by its bare identifier.
pub fn vault_downgrade_impl(
    trust: &TrustContext,
    req: &VaultDowngradeRequest,
    now_ms: i64,
    a: &Answers,
) -> (r: Next<VaultDowngradeResponse>)
    ensures
        flow::follows(r, downgrade_gate(*trust, *req, *a)),
        r matches Next::Reply(x) ==> downgraded(*req, now_ms, x),
{
    let vault = match writing::enter_change(
        trust,
        &req.tenant_id,
        a,
        writing::TENANT_MISMATCH,
        "acl deny write",
    ) {
        Ok(v) => v,
        Err(s) => return s.next(),
    };
    if let Err(s) = history::pass_guard(trust, vault.as_str(), req.note_id.as_str(), true, a) {
        return s.next();
    }
    let id = match parse_note_id(req.note_id.as_str()) {
        Ok(id) => id,
        Err(_) => return Next::Fail(refuse_not_bare("note_id", req.note_id.as_str())),
    };
    let replacement = match parse_replacement(&req.replaced_by) {
        Ok(x) => x,
        Err(_) => match &req.replaced_by {
            Some(s) => return Next::Fail(refuse_not_bare("replaced_by", s.as_str())),
            None => None,
        },
    };
    match &a.done {
        None => Next::Ask(
            Ask::Downgrade {
                vault: Some(vault),
                note_id: id.text(),
                reason: req.reason.clone(),
                replaced_by: replacement,
            },
        ),
        Some(Err(e)) => Next::Fail(Denial::plain(e.copy())),
        Some(Ok(_)) => Next::Reply(downgrade_reply(req, now_ms)),
    }
}

/// What a step of a patch comes to.
pub open spec fn stage_gate(s: PatchStage) -> Gate {
    match s {
        PatchStage::Ask(q) => Gate::Ask(q),
        PatchStage::BadStatus => Gate::Fail(
            flow::silent(Refusal::InvalidInput("status hors enum NoteStatus"@)),
        ),
        PatchStage::BadReplacement => Gate::Fail(
            flow::silent(Refusal::InvalidInput("invalid replaced_by (ULID expected)"@)),
        ),
        PatchStage::StatusFailed(e) => Gate::Fail(flow::silent(e)),
        PatchStage::PatchFailed(e) => Gate::Fail(flow::silent(e)),
        PatchStage::TagsFailed(e) => Gate::Fail(flow::silent(e)),
        PatchStage::Done => Gate::Pass,
    }
}

/// The first reason not to patch a note, or the next step of the patch.
pub open spec fn patch_gate(
    trust: TrustContext,
    id: Seq<char>,
    body: NoteStatusPatch,
    multi_tenant: bool,
    a: Answers,
) -> Gate {
    flow::chain(
        own_gate(trust, multi_tenant, a),
        flow::chain(
            history::guard_gate(trust, trust.tenant_view()->0, id, true, a),
            stage_gate(
                patch_stage(trust.tenant_view(), id, body, flow::opt_list(body.add_tags), a),
            ),
        ),
    )
}

/// Patches a note of the vault that the credential names: its status, the reason, the note that
/// replaces it, and its tags.
pub fn patch_note_impl(
    trust: &TrustContext,
    note_id: &NoteId,
    body: &NoteStatusPatch,
    multi_tenant: bool,
    a: &Answers,
) -> (r: Next<()>)
    ensures
        flow::follows(
            r,
            patch_gate(*trust, note_id@, *body, multi_tenant, *a),
        ),
{
    let tenant = match enter_own(trust, multi_tenant, a) {
        Ok(t) => t,
        Err(s) => return s.next(),
    };
    let id = note_id.text();
    if let Err(s) = history::pass_guard(trust, tenant.as_str(), id.as_str(), true, a) {
        return s.next();
    }
    match step_patch(&Some(tenant), id.as_str(), body, &body.add_tags, a) {
        PatchStep::Ask(q) => Next::Ask(q),
        PatchStep::BadStatus => Next::Fail(Denial::invalid("status hors enum NoteStatus")),
        PatchStep::BadReplacement => Next::Fail(
            Denial::invalid("invalid replaced_by (ULID expected)"),
        ),
        PatchStep::StatusFailed(e) => Next::Fail(Denial::plain(e)),
        PatchStep::PatchFailed(e) => Next::Fail(Denial::plain(e)),
        PatchStep::TagsFailed(e) => Next::Fail(Denial::plain(e)),
        PatchStep::Done => Next::Reply(()),
    }
}

/// The first reason not to move a note, or the step that does.
pub open spec fn move_gate(
    trust: TrustContext,
    id: Seq<char>,
    locus: Seq<char>,
    multi_tenant: bool,
    a: Answers,
) -> Gate {
    flow::chain(
        own_gate(trust, multi_tenant, a),
        flow::chain(
            history::guard_gate(trust, trust.tenant_view()->0, id, true, a),
            match a.done {
                None => Gate::Ask(Question::MoveNote { vault: trust.tenant_view(), id, locus }),
                Some(Err(e)) => Gate::Fail(flow::silent(e@)),
                Some(Ok(_)) => Gate::Pass,
            },
        ),
    )
}

/// Moves a note of the vault that the credential names to another locus.
pub fn move_note_locus_impl(
    trust: &TrustContext,
    id: &str,
    locus: &str,
    multi_tenant: bool,
    a: &Answers,
) -> (r: Next<()>)
    ensures
        flow::follows(r, move_gate(*trust, id@, locus@, multi_tenant, *a)),
{
    let tenant = match enter_own(trust, multi_tenant, a) {
        Ok(t) => t,
        Err(s) => return s.next(),
    };
    if let Err(s) = history::pass_guard(trust, tenant.as_str(), id, true, a) {
        return s.next();
    }
    match &a.done {
        None => Next::Ask(
            Ask::MoveNote { vault: Some(tenant), id: id.to_owned(), locus: locus.to_owned() },
        ),
        Some(Err(e)) => Next::Fail(Denial::plain(e.copy())),
        Some(Ok(_)) => Next::Reply(()),
    }
}

// ── The operations of the private network ───────────────────────────────────

/// The status of a failure to change a note: what is missing is not found, what breaks a rule is
/// a bad request.
pub open spec fn change_status(e: Refusal) -> StatusCode {
    match e {
        Refusal::NoteNotFound(_) => StatusCode::NotFound,
        Refusal::Validation(_) => StatusCode::BadRequest,
        _ => StatusCode::InternalServerError,
    }
}

fn status_of_change(e: &GradatumError) -> (r: StatusCode)
    ensures
        r == change_status(e@),
{
    match e {
        GradatumError::NoteNotFound(_) => StatusCode::NotFound,
        GradatumError::Validation(_) => StatusCode::BadRequest,
        _ => StatusCode::InternalServerError,
    }
}

/// What the private network is told of a request to take a note out of service.
pub open spec fn downgrade_door(req: VaultDowngradeRequest, a: Answers) -> HttpGate {
    if !ids::is_ulid(req.note_id@) || !replacement_sound(rows::opt_text(req.replaced_by)) {
        HttpGate::Refuse(StatusCode::BadRequest)
    } else {
        match a.done {
            None => HttpGate::Ask(
                Question::Downgrade {
                    vault: None,
                    note_id: canonical(req.note_id@),
                    reason: req.reason@,
                    replaced_by: canonical_opt(rows::opt_text(req.replaced_by)),
                },
            ),
            Some(Err(e)) => HttpGate::Refuse(change_status(e@)),
            Some(Ok(_)) => HttpGate::Pass,
        }
    }
}

/// Takes a note out of service, for the private network.
pub fn vault_downgrade(req: &VaultDowngradeRequest, now_ms: i64, a: &Answers) -> (r: HttpNext<
    VaultDowngradeResponse,
>)
    ensures
        door::follows(r, downgrade_door(*req, *a)),
        r matches HttpNext::Reply(x) ==> downgraded(*req, now_ms, x),
{
    let id = match parse_note_id(req.note_id.as_str()) {
        Ok(id) => id,
        Err(e) => return HttpNext::Refuse(e),
    };
    let replacement = match parse_replacement(&req.replaced_by) {
        Ok(x) => x,
        Err(e) => return HttpNext::Refuse(e),
    };
    match &a.done {
        None => HttpNext::Ask(
            Ask::Downgrade {
                vault: None,
                note_id: id.text(),
                reason: req.reason.clone(),
                replaced_by: replacement,
            },
        ),
        Some(Err(e)) => HttpNext::Refuse(status_of_change(e)),
        Some(Ok(_)) => HttpNext::Reply(downgrade_reply(req, now_ms)),
    }
}

/// The status that a step of a patch stands for.
pub open spec fn stage_door(s: PatchStage) -> HttpGate {
    match s {
        PatchStage::Ask(q) => HttpGate::Ask(q),
        PatchStage::BadStatus => HttpGate::Refuse(StatusCode::BadRequest),
        PatchStage::BadReplacement => HttpGate::Refuse(StatusCode::BadRequest),
        PatchStage::StatusFailed(e) => HttpGate::Refuse(
            if e is InvalidStatusTransition {
                StatusCode::Conflict
            } else {
                change_status(e)
            },
        ),
        PatchStage::PatchFailed(e) => HttpGate::Refuse(
            if e is NoteNotFound {
                StatusCode::NotFound
            } else {
                StatusCode::InternalServerError
            },
        ),
        PatchStage::TagsFailed(e) => HttpGate::Refuse(
            if e is Conflict {
                StatusCode::Conflict
            } else {
                change_status(e)
            },
        ),
        PatchStage::Done => HttpGate::Pass,
    }
}

/// Whether the tags of a patch can be added.
pub open spec fn tags_door(body: NoteStatusPatch, a: Answers) -> HttpGate {
    match body.add_tags {
        None => HttpGate::Pass,
        Some(raw) => if raw@.len() == 0 || raw@.len() > MAX_ADD_TAGS_PER_CALL {
            HttpGate::Refuse(StatusCode::BadRequest)
        } else {
            match a.tags_valid {
                None => HttpGate::Ask(Question::CheckTags { tags: text::views(raw@) }),
                Some(false) => HttpGate::Refuse(StatusCode::BadRequest),
                Some(true) => HttpGate::Pass,
            }
        },
    }
}

/// The tags of a patch, each once.
pub open spec fn tags_once(body: NoteStatusPatch) -> Option<Seq<Seq<char>>> {
    match body.add_tags {
        None => None,
        Some(raw) => Some(first_of_each(text::views(raw@))),
    }
}

/// Whether a patch changes nothing.
pub open spec fn patch_empty(body: NoteStatusPatch) -> bool {
    body.status is None && body.status_reason is None && body.replaced_by is None && body.add_tags
        is None
}

/// What the private network is told of a patch. The tags are checked before anything is changed.
pub open spec fn patch_door(id: Seq<char>, body: NoteStatusPatch, a: Answers) -> HttpGate {
    if !ids::is_ulid(id) || patch_empty(body) {
        HttpGate::Refuse(StatusCode::BadRequest)
    } else {
        door::chain(
            tags_door(body, a),
            stage_door(patch_stage(None, canonical(id), body, tags_once(body), a)),
        )
    }
}

fn checked_tags(body: &NoteStatusPatch, a: &Answers) -> (r: Result<Option<Vec<String>>, HttpStop>)
    ensures
        match r {
            Ok(t) => tags_door(*body, *a) is Pass && flow::opt_list(t) == tags_once(*body),
            Err(s) => tags_door(*body, *a) == s@,
        },
{
    let raw = match &body.add_tags {
        None => return Ok(None),
        Some(raw) => raw,
    };
    if raw.len() == 0 || raw.len() > MAX_ADD_TAGS_PER_CALL {
        return Err(HttpStop::Refuse(StatusCode::BadRequest));
    }
    match a.tags_valid {
        None => Err(HttpStop::Ask(Ask::CheckTags { tags: rows::copy_list(raw) })),
        Some(valid) => match validate_add_tags(raw, valid) {
            Ok(v) => Ok(Some(v)),
            Err(e) => Err(HttpStop::Refuse(e)),
        },
    }
}

/// Patches a note, for the private network.
pub fn patch_note(id: &str, body: &NoteStatusPatch, a: &Answers) -> (r: HttpNext<()>)
    ensures
        door::follows(r, patch_door(id@, *body, *a)),
{
    let note_id = match parse_note_id(id) {
        Ok(n) => n,
        Err(e) => return HttpNext::Refuse(e),
    };
    if body.status.is_none() && body.status_reason.is_none() && body.replaced_by.is_none()
        && body.add_tags.is_none() {
        return HttpNext::Refuse(StatusCode::BadRequest);
    }
    let tags = match checked_tags(body, a) {
        Ok(t) => t,
        Err(s) => return s.next(),
    };
    match step_patch(&None, note_id.text().as_str(), body, &tags, a) {
        PatchStep::Ask(q) => HttpNext::Ask(q),
        PatchStep::BadStatus => HttpNext::Refuse(StatusCode::BadRequest),
        PatchStep::BadReplacement => HttpNext::Refuse(StatusCode::BadRequest),
        PatchStep::StatusFailed(e) => match &e {
            GradatumError::InvalidStatusTransition { .. } => HttpNext::Refuse(
                StatusCode::Conflict,
            ),
            _ => HttpNext::Refuse(status_of_change(&e)),
        },
        PatchStep::PatchFailed(e) => match &e {
            GradatumError::NoteNotFound(_) => HttpNext::Refuse(StatusCode::NotFound),
            _ => HttpNext::Refuse(StatusCode::InternalServerError),
        },
        PatchStep::TagsFailed(e) => match &e {
            GradatumError::Conflict(_) => HttpNext::Refuse(StatusCode::Conflict),
            _ => HttpNext::Refuse(status_of_change(&e)),
        },
        PatchStep::Done => HttpNext::Reply(()),
    }
}

/// The words that go with a patch that is refused for its status: they name the status that the
/// note has.
pub open spec fn conflict_text(id: Seq<char>, body: NoteStatusPatch, a: Answers) -> Option<
    Seq<char>,
> {
    if patch_door(id, body, a) != HttpGate::Refuse(StatusCode::Conflict) {
        None
    } else {
        match patch_stage(None, canonical(id), body, tags_once(body), a) {
            PatchStage::StatusFailed(Refusal::InvalidStatusTransition(from, to)) => Some(
                error::transition_text(from, to),
            ),
            _ => None,
        }
    }
}

/// The words that go with the refusal of a patch, where its status is what refuses it.
pub fn patch_conflict(id: &str, body: &NoteStatusPatch, a: &Answers) -> (r: Option<String>)
    ensures
        rows::opt_text(r) == conflict_text(id@, *body, *a),
{
    let note_id = match parse_note_id(id) {
        Ok(n) => n,
        Err(_) => return None,
    };
    if body.status.is_none() && body.status_reason.is_none() && body.replaced_by.is_none()
        && body.add_tags.is_none() {
        return None;
    }
    let tags = match checked_tags(body, a) {
        Ok(t) => t,
        Err(_) => return None,
    };
    match step_patch(&None, note_id.text().as_str(), body, &tags, a) {
        PatchStep::StatusFailed(e) => match &e {
            GradatumError::InvalidStatusTransition { from, to } => Some(
                error::transition_message(from.as_str(), to.as_str()),
            ),
            _ => None,
        },
        _ => None,
    }
}

/// What the private network is told of a request to move a note.
pub open spec fn move_door(id: Seq<char>, body: MoveLocusRequest, a: Answers) -> HttpGate {
    let locus = text::trimmed(body.locus@);
    if !ids::is_ulid(id) {
        HttpGate::Refuse(StatusCode::BadRequest)
    } else {
        match a.locus_valid {
            None => HttpGate::Ask(Question::CheckLocus { locus }),
            Some(false) => HttpGate::Refuse(StatusCode::BadRequest),
            Some(true) => match a.done {
                None => HttpGate::Ask(Question::MoveNote { vault: None, id, locus }),
                Some(Err(e)) => HttpGate::Refuse(change_status(e@)),
                Some(Ok(_)) => HttpGate::Pass,
            },
        }
    }
}

/// Moves a note to another locus, for the private network.
pub fn move_note_locus(id: &str, body: &MoveLocusRequest, a: &Answers) -> (r: HttpNext<()>)
    ensures
        door::follows(r, move_door(id@, *body, *a)),
{
    if let Err(e) = parse_note_id(id) {
        return HttpNext::Refuse(e);
    }
    let locus = text::trim(body.locus.as_str());
    match a.locus_valid {
        None => return HttpNext::Ask(Ask::CheckLocus { locus }),
        Some(false) => return HttpNext::Refuse(StatusCode::BadRequest),
        Some(true) => {},
    }
    match &a.done {
        None => HttpNext::Ask(Ask::MoveNote { vault: None, id: id.to_owned(), locus }),
        Some(Err(e)) => HttpNext::Refuse(status_of_change(e)),
        Some(Ok(_)) => HttpNext::Reply(()),
    }
}

// ── Laws ────────────────────────────────────────────────────────────────────

/// Whether a question changes a note.
pub open spec fn changes_note(q: Question) -> bool {
    q is Downgrade || q is ChangeStatus || q is PatchNote || q is AddTags || q is MoveNote
}

/// The vault to which a change is bound.
pub open spec fn bound_to(q: Question) -> Option<Seq<char>> {
    match q {
        Question::Downgrade { vault, .. } => vault,
        Question::ChangeStatus { vault, .. } => vault,
        Question::PatchNote { vault, .. } => vault,
        Question::AddTags { vault, .. } => vault,
        Question::MoveNote { vault, .. } => vault,
        _ => None,
    }
}

/// A patch changes a note only for a caller whose right was established, only in the vault that
/// the credential names, and never the soul of another agent.
pub proof fn a_patch_stays_in_the_own_vault(
    trust: TrustContext,
    id: Seq<char>,
    body: NoteStatusPatch,
    multi_tenant: bool,
    a: Answers,
)
    requires
        patch_gate(trust, id, body, multi_tenant, a) matches Gate::Ask(q) && changes_note(q),
    ensures
        trust.authenticated(),
        a.acl == Some(true),
        multi_tenant ==> (a.write_grant matches Some(g) && g is Ok),
        trust.tenant_view() is Some,
        bound_to(patch_gate(trust, id, body, multi_tenant, a)->Ask_0) == trust.tenant_view(),
        history::guard_gate(trust, trust.tenant_view()->0, id, true, a) is Pass,
{
}

/// A move changes a note only in the vault that the credential names, once the right was
/// established.
pub proof fn a_move_stays_in_the_own_vault(
    trust: TrustContext,
    id: Seq<char>,
    locus: Seq<char>,
    multi_tenant: bool,
    a: Answers,
)
    requires
        move_gate(trust, id, locus, multi_tenant, a) matches Gate::Ask(q) && changes_note(q),
    ensures
        trust.authenticated(),
        a.acl == Some(true),
        bound_to(move_gate(trust, id, locus, multi_tenant, a)->Ask_0) == trust.tenant_view(),
        history::guard_gate(trust, trust.tenant_view()->0, id, true, a) is Pass,
{
}

/// A note is taken out of service only in the vault whose write right was checked, and only by
/// a caller who may touch it.
pub proof fn a_downgrade_stays_in_the_checked_vault(
    trust: TrustContext,
    req: VaultDowngradeRequest,
    a: Answers,
)
    requires
        downgrade_gate(trust, req, a) matches Gate::Ask(q) && changes_note(q),
    ensures
        trust.authenticated(),
        a.acl == Some(true),
        bound_to(downgrade_gate(trust, req, a)->Ask_0) == Some(writing::vault_of(a)),
        history::guard_gate(trust, writing::vault_of(a), req.note_id@, true, a) is Pass,
{
}

/// A patch with unsound tags changes nothing: not even its status is applied.
pub proof fn unsound_tags_change_nothing(id: Seq<char>, body: NoteStatusPatch, a: Answers)
    requires
        body.add_tags is Some,
        !tags_sound(text::views(body.add_tags->0@), a.tags_valid == Some(true)),
    ensures
        !(patch_door(id, body, a) is Pass),
        patch_door(id, body, a) matches HttpGate::Ask(q) ==> !changes_note(q),
{
}

/// A status outside the life cycle, `downgraded` among them, changes nothing.
pub proof fn unknown_status_changes_nothing(id: Seq<char>, body: NoteStatusPatch, a: Answers)
    requires
        body.status matches Some(s) && !note_status(s@),
    ensures
        !(patch_door(id, body, a) is Pass),
        patch_door(id, body, a) matches HttpGate::Ask(q) ==> !changes_note(q),
        body.add_tags is None ==> patch_door(id, body, a) == HttpGate::Refuse(
            StatusCode::BadRequest,
        ),
{
}

/// Whenever the life cycle refuses the change of a status, the refusal is a conflict and its words
/// name the status that the note has.
pub proof fn a_refused_change_names_the_present_status(
    id: Seq<char>,
    body: NoteStatusPatch,
    a: Answers,
    from: Seq<char>,
    to: Seq<char>,
)
    requires
        ids::is_ulid(id),
        body.status matches Some(s) && note_status(s@),
        tags_door(body, a) is Pass,
        a.done matches Some(Err(e)) && e@ == Refusal::InvalidStatusTransition(from, to),
    ensures
        patch_door(id, body, a) == HttpGate::Refuse(StatusCode::Conflict),
        conflict_text(id, body, a) matches Some(t) && exists|before: Seq<char>, after: Seq<char>|
            t == #[trigger] ((before + from) + after),
{
    let before = "invalid status transition: "@;
    let after = " → "@ + to;
    assert(error::transition_text(from, to) =~= (before + from) + after);
}

/// Whether a tag is in a list, in whatever case.
pub open spec fn has_folded(list: Seq<Seq<char>>, tag: Seq<char>) -> bool {
    exists|j: int| 0 <= j < list.len() && folded(#[trigger] list[j]) == folded(tag)
}

/// The tags that are added are among those given, differ without their case, and leave none out.
pub proof fn tags_are_merged_without_case(list: Seq<Seq<char>>)
    ensures
        first_of_each(list).len() <= list.len(),
        forall|j: int|
            0 <= j < first_of_each(list).len() ==> list.contains(#[trigger] first_of_each(list)[j]),
        forall|i: int, j: int|
            0 <= i < j < first_of_each(list).len() ==> folded(#[trigger] first_of_each(list)[i])
                != folded(#[trigger] first_of_each(list)[j]),
        forall|i: int|
            0 <= i < list.len() ==> has_folded(first_of_each(list), #[trigger] list[i]),
    decreases list.len(),
{
    if list.len() > 0 {
        let head = list.drop_last();
        let last = list.last();
        let kept = first_of_each(head);
        let all = first_of_each(list);
        tags_are_merged_without_case(head);
        assert(list[list.len() - 1] == last);
        assert forall|j: int| 0 <= j < kept.len() implies list.contains(#[trigger] kept[j]) by {
            let k = choose|k: int| 0 <= k < head.len() && head[k] == kept[j];
            assert(list[k] == kept[j]);
        }
        if has_folded(kept, last) {
            assert(all == kept);
            assert forall|i: int| 0 <= i < list.len() implies has_folded(all, #[trigger] list[i]) by {
                if i < head.len() {
                    assert(head[i] == list[i]);
                }
            }
        } else {
            assert(all == kept.push(last));
            assert forall|j: int| 0 <= j < all.len() implies list.contains(#[trigger] all[j]) by {
                if j < kept.len() {
                    assert(all[j] == kept[j]);
                }
            }
            assert forall|i: int, j: int| 0 <= i < j < all.len() implies folded(#[trigger] all[i])
                != folded(#[trigger] all[j]) by {
                assert(all[i] == kept[i]);
                if j < kept.len() {
                    assert(all[j] == kept[j]);
                } else {
                    assert(folded(kept[i]) != folded(last));
                }
            }
            assert forall|i: int| 0 <= i < list.len() implies has_folded(all, #[trigger] list[i]) by {
                if i < head.len() {
                    assert(head[i] == list[i]);
                    let j = choose|j: int|
                        0 <= j < kept.len() && folded(#[trigger] kept[j]) == folded(head[i]);
                    assert(all[j] == kept[j]);
                } else {
                    assert(all[all.len() - 1] == last);
                }
            }
        }
    }
}

/// A note is taken out of service as the request says: the note, the reason and the note that
/// takes its place, each as it was given.
pub proof fn a_downgrade_is_the_one_asked_for(
    trust: TrustContext,
    req: VaultDowngradeRequest,
    a: Answers,
)
    ensures
        downgrade_gate(trust, req, a) matches Gate::Ask(q) ==> match q {
            Question::TitlesSections { vault, ids } => writing::own(trust, a, vault) && ids.len()
                == 1 && ids[0] == req.note_id@,
            Question::Downgrade { vault, note_id, reason, replaced_by } => {
                &&& vault is Some && writing::own(trust, a, vault->0)
                &&& downgrades(req, note_id, reason, replaced_by)
            },
            _ => writing::asks_to_write(q, rows::opt_text(req.tenant_id), a),
        },
        downgrade_door(req, a) matches HttpGate::Ask(q) ==> match q {
            Question::Downgrade { vault, note_id, reason, replaced_by } => vault is None
                && downgrades(req, note_id, reason, replaced_by),
            _ => false,
        },
{
    if ids::is_ulid(req.note_id@) {
        ids::an_identifier_has_one_text(req.note_id@);
    }
    if let Some(s) = req.replaced_by {
        if ids::is_ulid(s@) {
            ids::an_identifier_has_one_text(s@);
        }
    }
}

/// Whether a change takes the note of the request out of service, for its reason and in favor of
/// the note that it names.
pub open spec fn downgrades(
    req: VaultDowngradeRequest,
    note_id: Seq<char>,
    reason: Seq<char>,
    replaced_by: Option<Seq<char>>,
) -> bool {
    &&& same_note(note_id, req.note_id@)
    &&& reason == req.reason@
    &&& match req.replaced_by {
        Some(s) => replaced_by is Some && same_note(replaced_by->0, s@),
        None => replaced_by is None,
    }
}

/// Whether two texts are identifiers of one note.
pub open spec fn same_note(x: Seq<char>, y: Seq<char>) -> bool {
    ids::is_ulid(x) && ids::is_ulid(y) && ids::base32_value(x) == ids::base32_value(y)
}

/// Taking a note out of service is refused for cause only, and for the cause that there is.
pub proof fn a_downgrade_is_refused_for_cause(
    trust: TrustContext,
    req: VaultDowngradeRequest,
    a: Answers,
)
    ensures
        ({
            let g = downgrade_gate(trust, req, a);
            let entered = trust.authenticated() && (a.write_vault matches Some(Ok(_))) && a.acl
                == Some(true);
            let (title, section) = identity::resolved_section(a.titles->0, req.note_id@);
            let open = identity::may_touch(trust, section, title);
            let sound = ids::is_ulid(req.note_id@) && (req.replaced_by is None || ids::is_ulid(
                req.replaced_by->0@,
            ));
            let h = downgrade_door(req, a);
            &&& writing::guards_writing(g, trust, a)
            &&& entered && a.titles is None ==> g is Ask && g->Ask_0 is TitlesSections
            &&& entered && a.titles is Some && !open ==> flow::forbids(g)
            &&& entered && a.titles is Some && open && !sound ==> g is Fail && g->Fail_0.error
                is Validation
            &&& entered && a.titles is Some && open && sound ==> match a.done {
                None => g is Ask && g->Ask_0 is Downgrade,
                Some(Err(e)) => flow::fails(g, e@),
                Some(Ok(_)) => g is Pass,
            }
            &&& !sound ==> h == HttpGate::Refuse(StatusCode::BadRequest)
            &&& sound ==> match a.done {
                None => h is Ask,
                Some(Err(e)) => h is Refuse && (e@ is NoteNotFound <==> h->Refuse_0
                    == StatusCode::NotFound) && (e@ is Validation <==> h->Refuse_0
                    == StatusCode::BadRequest),
                Some(Ok(_)) => h is Pass,
            }
        }),
{
}

/// The reply to a downgrade repeats the note and the reason, under the moment of the change.
pub proof fn a_downgrade_is_told(
    req: VaultDowngradeRequest,
    now_ms: i64,
    x: VaultDowngradeResponse,
)
    requires
        downgraded(req, now_ms, x),
    ensures
        x.note_id@ == req.note_id@,
        x.reason@ == req.reason@,
        x.status_changed == now_ms,
        x.status@ == "downgraded"@,
{
}

/// Whether a change of a patch is one that its body asks for, on this note of this vault.
pub open spec fn patches(
    q: Question,
    vault: Option<Seq<char>>,
    id: Seq<char>,
    body: NoteStatusPatch,
) -> bool {
    match q {
        Question::ChangeStatus { vault: v, note_id, status, reason } => {
            &&& v == vault && note_id == id
            &&& body.status matches Some(s) && status == s@ && note_status(s@)
            &&& reason == rows::opt_text(body.status_reason)
        },
        Question::PatchNote { vault: v, note_id, reason, replaced_by } => {
            &&& v == vault && note_id == id
            &&& body.status is None ==> reason == rows::opt_text(body.status_reason)
            &&& body.status is Some ==> reason is None && replaced_by is Some
            &&& match body.replaced_by {
                Some(s) => replaced_by is Some && same_note(replaced_by->0, s@),
                None => replaced_by is None,
            }
        },
        Question::AddTags { vault: v, note_id, .. } => {
            &&& v == vault && note_id == id
            &&& body.add_tags is Some
        },
        _ => false,
    }
}

/// Each change that a patch asks for is made on the note that it is for; the status comes first,
/// then the replacement and the reason, then the tags.
proof fn lemma_patch_stage(
    vault: Option<Seq<char>>,
    id: Seq<char>,
    body: NoteStatusPatch,
    tags: Option<Seq<Seq<char>>>,
    a: Answers,
)
    requires
        tags is Some <==> body.add_tags is Some,
    ensures
        ({
            let s = patch_stage(vault, id, body, tags, a);
            &&& s matches PatchStage::Ask(q) ==> patches(q, vault, id, body)
            &&& s matches PatchStage::Ask(Question::AddTags { tags: t, .. }) ==> tags == Some(t)
            &&& s is Done || (s is Ask && s->Ask_0 is AddTags) ==> {
                &&& body.status is Some ==> (a.done matches Some(Ok(_)))
                &&& body.status is None || body.replaced_by is Some ==> (a.patched matches Some(Ok(_)))
            }
            &&& s is Done && body.add_tags is Some ==> (a.tags_added matches Some(Ok(_)))
            &&& s is Ask && s->Ask_0 is PatchNote && body.status is Some ==> (a.done matches Some(
                Ok(_),
            ))
        }),
{
    if let Some(s) = body.replaced_by {
        if ids::is_ulid(s@) {
            ids::an_identifier_has_one_text(s@);
        }
    }
}

/// A patch makes the changes that its body asks for, and no others, on the note of the request in
/// the vault of the credential; it is done when each of them was made.
pub proof fn a_patch_changes_what_its_body_says(
    trust: TrustContext,
    id: Seq<char>,
    body: NoteStatusPatch,
    several: bool,
    a: Answers,
)
    ensures
        ({
            let g = patch_gate(trust, id, body, several, a);
            &&& g matches Gate::Ask(q) ==> match q {
                Question::Acl { op, locus } => op == AclOp::Write && (
                trust.tenant_view() matches Some(t) && locus == t + "/main"@),
                Question::WriteGrant { tenant } => several && trust.tenant_view() == Some(tenant),
                Question::TitlesSections { vault, ids } => trust.tenant_view() == Some(vault)
                    && ids.len() == 1 && ids[0] == id,
                Question::AddTags { tags, .. } => patches(q, trust.tenant_view(), id, body)
                    && tags.len() == body.add_tags->0@.len() && forall|i: int|
                    0 <= i < tags.len() ==> (#[trigger] tags[i]) == body.add_tags->0@[i]@,
                _ => patches(q, trust.tenant_view(), id, body),
            }
            &&& g is Pass ==> {
                &&& body.status is Some ==> (a.done matches Some(Ok(_)))
                &&& body.status is None || body.replaced_by is Some ==> (a.patched matches Some(Ok(_)))
                &&& body.add_tags is Some ==> (a.tags_added matches Some(Ok(_)))
            }
        }),
{
    lemma_patch_stage(trust.tenant_view(), id, body, flow::opt_list(body.add_tags), a);
}

/// The same from outside: the note is the one of the path, and of the tags those that differ
/// without their case are added.
pub proof fn a_patch_from_outside_changes_what_its_body_says(
    id: Seq<char>,
    body: NoteStatusPatch,
    a: Answers,
)
    ensures
        ({
            let g = patch_door(id, body, a);
            &&& g matches HttpGate::Ask(q) ==> match q {
                Question::CheckTags { tags } => body.add_tags is Some && tags.len()
                    == body.add_tags->0@.len() && forall|i: int|
                    0 <= i < tags.len() ==> (#[trigger] tags[i]) == body.add_tags->0@[i]@,
                Question::AddTags { note_id, tags, .. } => patches(q, None, note_id, body)
                    && same_note(note_id, id) && tags == first_of_each(
                    text::views(body.add_tags->0@),
                ),
                Question::ChangeStatus { note_id, .. } => patches(q, None, note_id, body)
                    && same_note(note_id, id),
                Question::PatchNote { note_id, .. } => patches(q, None, note_id, body)
                    && same_note(note_id, id),
                _ => false,
            }
            &&& g is Pass ==> {
                &&& ids::is_ulid(id)
                &&& body.status is Some || body.status_reason is Some || body.replaced_by is Some
                    || body.add_tags is Some
                &&& body.status is Some ==> (a.done matches Some(Ok(_)))
                &&& body.status is None || body.replaced_by is Some ==> (a.patched matches Some(Ok(_)))
                &&& body.add_tags is Some ==> (a.tags_added matches Some(Ok(_)))
            }
        }),
{
    if ids::is_ulid(id) {
        ids::an_identifier_has_one_text(id);
    }
    lemma_patch_stage(None, canonical(id), body, tags_once(body), a);
}

/// What refuses a patch inside the vault, and what refuses it at the door.
pub proof fn a_patch_is_refused_for_cause(
    trust: TrustContext,
    id: Seq<char>,
    body: NoteStatusPatch,
    several: bool,
    a: Answers,
)
    ensures
        ({
            let g = patch_gate(trust, id, body, several, a);
            let entered = trust.authenticated() && trust.tenant_view() is Some && a.acl == Some(
                true,
            ) && (several ==> (a.write_grant matches Some(Ok(_))));
            let (title, section) = identity::resolved_section(a.titles->0, id);
            let open = identity::may_touch(trust, section, title);
            let named = body.status is None || note_status(body.status->0@);
            let sound = body.replaced_by is None || ids::is_ulid(body.replaced_by->0@);
            let h = patch_door(id, body, a);
            let empty = body.status is None && body.status_reason is None && body.replaced_by
                is None && body.add_tags is None;
            let untagged = ids::is_ulid(id) && !empty && body.add_tags is None;
            &&& !trust.authenticated() ==> flow::fails(g, Refusal::Unauthorized)
            &&& trust.authenticated() && trust.tenant_view() is None ==> flow::forbids(g)
            &&& trust.authenticated() && trust.tenant_view() is Some && a.acl == Some(false)
                ==> flow::forbids(g)
            &&& entered && a.titles is Some && !open ==> flow::forbids(g)
            &&& entered && a.titles is Some && open && !named ==> flow::finds_fault(g)
            &&& entered && a.titles is Some && open && body.status is None && !sound
                ==> flow::finds_fault(g)
            &&& entered && a.titles is Some && open && named && body.status is Some && (
            a.done matches Some(Err(_))) ==> flow::fails(g, a.done->0->Err_0@)
            &&& entered && a.titles is Some && open && named && sound && (body.status is Some
                ==> a.done matches Some(Ok(_))) && (a.patched matches Some(Ok(_))) && (
            body.add_tags is Some ==> a.tags_added matches Some(Ok(_))) ==> g is Pass
            &&& !ids::is_ulid(id) || empty ==> h == HttpGate::Refuse(StatusCode::BadRequest)
            &&& untagged && (!named || (body.status is None && !sound)) ==> h == HttpGate::Refuse(
                StatusCode::BadRequest,
            )
            &&& untagged && named && body.status is Some && (a.done matches Some(Err(_))) ==> h
                == HttpGate::Refuse(
                match a.done->0->Err_0@ {
                    Refusal::InvalidStatusTransition(_, _) => StatusCode::Conflict,
                    Refusal::NoteNotFound(_) => StatusCode::NotFound,
                    Refusal::Validation(_) => StatusCode::BadRequest,
                    _ => StatusCode::InternalServerError,
                },
            )
            &&& untagged && named && sound && (body.status is Some ==> a.done matches Some(Ok(_)))
                && (a.patched matches Some(Ok(_))) ==> h is Pass
        }),
{
}

/// A note is moved where the request says, in the vault of the credential.
pub proof fn a_note_is_moved_where_asked(
    trust: TrustContext,
    id: Seq<char>,
    locus: Seq<char>,
    body: MoveLocusRequest,
    several: bool,
    a: Answers,
)
    ensures
        move_gate(trust, id, locus, several, a) matches Gate::Ask(q) ==> match q {
            Question::Acl { op, locus: l } => op == AclOp::Write && (
            trust.tenant_view() matches Some(t) && l == t + "/main"@),
            Question::WriteGrant { tenant } => several && trust.tenant_view() == Some(tenant),
            Question::TitlesSections { vault, ids } => trust.tenant_view() == Some(vault)
                && ids.len() == 1 && ids[0] == id,
            Question::MoveNote { vault, id: n, locus: l } => vault == trust.tenant_view() && n == id
                && l == locus,
            _ => false,
        },
        move_door(id, body, a) matches HttpGate::Ask(q) ==> match q {
            Question::CheckLocus { locus: l } => l == text::trimmed(body.locus@),
            Question::MoveNote { vault, id: n, locus: l } => vault is None && n == id && l
                == text::trimmed(body.locus@) && a.locus_valid == Some(true),
            _ => false,
        },
        ({
            let g = move_gate(trust, id, locus, several, a);
            let h = move_door(id, body, a);
            let entered = trust.authenticated() && trust.tenant_view() is Some && a.acl == Some(
                true,
            ) && (several ==> (a.write_grant matches Some(Ok(_))));
            let (title, section) = identity::resolved_section(a.titles->0, id);
            let open = identity::may_touch(trust, section, title);
            &&& !trust.authenticated() ==> flow::fails(g, Refusal::Unauthorized)
            &&& trust.authenticated() && trust.tenant_view() is None ==> flow::forbids(g)
            &&& trust.authenticated() && trust.tenant_view() is Some && a.acl == Some(false)
                ==> flow::forbids(g)
            &&& entered && a.titles is Some && !open ==> flow::forbids(g)
            &&& entered && a.titles is Some && open ==> match a.done {
                None => g is Ask && g->Ask_0 is MoveNote,
                Some(Err(e)) => flow::fails(g, e@),
                Some(Ok(_)) => g is Pass,
            }
            &&& !ids::is_ulid(id) || a.locus_valid == Some(false) ==> h == HttpGate::Refuse(
                StatusCode::BadRequest,
            )
            &&& ids::is_ulid(id) && a.locus_valid == Some(true) ==> match a.done {
                None => h is Ask && h->Ask_0 is MoveNote,
                Some(Err(e)) => h is Refuse && (e@ is NoteNotFound <==> h->Refuse_0
                    == StatusCode::NotFound),
                Some(Ok(_)) => h is Pass,
            }
        }),
{
}

/// A tag that is given first keeps the case in which it was given, and tags that differ are added
/// in the order in which they were given.
pub proof fn added_tags_keep_their_order(list: Seq<Seq<char>>, more: Seq<char>)
    ensures
        ({
            let before = first_of_each(list);
            let after = first_of_each(list.push(more));
            ||| after == before
            ||| after == before.push(more)
        }),
        list.len() == 0 ==> first_of_each(list.push(more)) == seq![more],
{
    assert(list.push(more).drop_last() =~= list);
    assert(list.push(more).last() == more);
    if list.len() == 0 {
        assert(first_of_each(list).len() == 0);
        assert(first_of_each(list.push(more)) =~= seq![more]);
    }
}

/// At the door a patch that fails tells why by its status: a note that is not there, tags that are
/// too many, anything else as an internal error. One to twenty tags are taken.
pub proof fn a_failed_patch_has_its_status(id: Seq<char>, body: NoteStatusPatch, a: Answers)
    requires
        ids::is_ulid(id),
        body.status is None,
        body.replaced_by is None,
        body.status_reason is Some || body.add_tags is Some,
    ensures
        ({
            let h = patch_door(id, body, a);
            let count = body.add_tags->0@.len();
            let taken = body.add_tags is None || (1 <= count <= 20 && a.tags_valid == Some(true));
            &&& body.add_tags is Some && !(1 <= count <= 20) ==> h == HttpGate::Refuse(
                StatusCode::BadRequest,
            )
            &&& body.add_tags is Some && 1 <= count <= 20 && a.tags_valid is None ==> h is Ask
                && h->Ask_0 is CheckTags
            &&& body.add_tags is Some && 1 <= count <= 20 && a.tags_valid == Some(false) ==> h
                == HttpGate::Refuse(StatusCode::BadRequest)
            &&& taken && (a.patched matches Some(Err(_))) ==> h == HttpGate::Refuse(
                if a.patched->0->Err_0@ is NoteNotFound {
                    StatusCode::NotFound
                } else {
                    StatusCode::InternalServerError
                },
            )
            &&& taken && (a.patched matches Some(Ok(_))) && body.add_tags is None ==> h is Pass
            &&& taken && (a.patched matches Some(Ok(_))) && body.add_tags is Some ==> match a.tags_added {
                None => h is Ask && h->Ask_0 is AddTags,
                Some(Err(e)) => h == HttpGate::Refuse(
                    match e@ {
                        Refusal::Conflict(_) => StatusCode::Conflict,
                        Refusal::NoteNotFound(_) => StatusCode::NotFound,
                        Refusal::Validation(_) => StatusCode::BadRequest,
                        _ => StatusCode::InternalServerError,
                    },
                ),
                Some(Ok(_)) => h is Pass,
            }
        }),
{
    if a.tags_valid is Some {
        assert(a.tags_valid == Some(a.tags_valid->0));
    }
}

}
