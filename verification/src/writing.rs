//! Writing a note: the checks that a write passes before it is queued.

use vstd::prelude::*;
use vstd::string::*;

use crate::access;
use crate::dto::EnqueuedResponseUlid;
use crate::error::{GradatumError, Refusal};
use crate::flow::{
    self, AclOp, Answers, Ask, Audit, AuditTrace, Denial, Denied, Gate, Next, Question, Stop,
};
use crate::identity;
use crate::ids::{self, NoteId};
use crate::reference;
use crate::rows::{self, CategoryDrift};
use crate::text;
use crate::trust::TrustContext;

verus! {

/// A write.
#[derive(Debug)]
pub struct VaultWriteRequest {
    pub title: String,
    pub body: String,
    /// Never accepted: the author is the bearer of the credential.
    pub author: Option<String>,
    pub tags: Vec<String>,
    pub section_hint: Option<String>,
    pub tenant_id: Option<String>,
    pub occurred_at: Option<String>,
    /// The identifier of the note to overwrite, or one allocated before.
    pub note_id: Option<String>,
    /// The hash that the note has to have before it is overwritten.
    pub expected_sha256: Option<String>,
}

/// Who put the feature role into a card of the project map.
///
/// The role is the identity of the card: only the server allocates one.
#[derive(Debug, Clone, Copy, PartialEq, Eq, Structural)]
pub enum FeatureWriteAuthority {
    /// The client: the role may be neither introduced nor changed.
    External,
    /// The server, which has just allocated the number.
    ServerAllocated,
}

/// The author of a write: the subject of the credential. A declared author is refused, and so
/// is a credential without a subject.
pub open spec fn author_gate(declared: Option<Seq<char>>, subject: Option<Seq<char>>) -> Gate {
    if declared is Some {
        Gate::Fail(
            flow::silent(
                Refusal::InvalidInput(
                    "author provided: identity comes from the credential, it is not self-declared (R2)"@,
                ),
            ),
        )
    } else if subject is None {
        Gate::Fail(flow::silent(Refusal::Unauthorized))
    } else {
        Gate::Pass
    }
}

/// The author of a write.
pub fn effective_author(req_author: &Option<String>, subject: Option<&String>) -> (r: Result<
    String,
    GradatumError,
>)
    ensures
        ({
            let sub = match subject {
                Some(s) => Some(s@),
                None => None,
            };
            let g = author_gate(rows::opt_text(*req_author), sub);
            match r {
                Ok(author) => g is Pass && sub == Some(author@),
                Err(e) => g == Gate::Fail(flow::silent(e@)),
            }
        }),
{
    if req_author.is_some() {
        return Err(
            GradatumError::invalid(
                "author provided: identity comes from the credential, it is not self-declared (R2)",
            ),
        );
    }
    match subject {
        Some(id) => Ok(id.clone()),
        None => Err(GradatumError::Unauthorized),
    }
}

/// The trace of a credential that does not suffice.
pub open spec fn auth_failure(tenant: Seq<char>, reason: Seq<char>) -> AuditTrace {
    AuditTrace { event: "auth_failure"@, tenant, locus: ""@, reason, note_id: None }
}

fn auth_failure_trace(tenant: &str, reason: &str) -> (r: Audit)
    ensures
        r@ == auth_failure(tenant@, reason@),
{
    Audit {
        event: "auth_failure".to_owned(),
        tenant: tenant.to_owned(),
        locus: "".to_owned(),
        reason: reason.to_owned(),
        note_id: None,
    }
}

/// A refusal of a write, with its trace.
pub open spec fn rejected(
    tenant: Seq<char>,
    error: Refusal,
    reason: Seq<char>,
    note_id: Option<Seq<char>>,
) -> Gate {
    Gate::Fail(
        Denied {
            error,
            audit: Some(
                AuditTrace {
                    event: "vault_write_rejected"@,
                    tenant,
                    locus: access::locus_text(tenant, None),
                    reason,
                    note_id,
                },
            ),
        },
    )
}

fn reject(tenant: &str, error: GradatumError, reason: &str, note_id: Option<&str>) -> (r: Stop)
    ensures
        r@ == rejected(
            tenant@,
            error@,
            reason@,
            match note_id {
                Some(s) => Some(s@),
                None => None,
            },
        ),
{
    Stop::Fail(
        Denial {
            error,
            audit: Some(
                Audit {
                    event: "vault_write_rejected".to_owned(),
                    tenant: tenant.to_owned(),
                    locus: access::locus_for_tenant(tenant),
                    reason: reason.to_owned(),
                    note_id: match note_id {
                        Some(s) => Some(s.to_owned()),
                        None => None,
                    },
                },
            ),
        },
    )
}

/// The trace of a write that was queued.
pub open spec fn queued(tenant: Seq<char>, note_id: Seq<char>) -> AuditTrace {
    AuditTrace {
        event: "vault_write"@,
        tenant,
        locus: access::locus_text(tenant, None),
        reason: "queued"@,
        note_id: Some(note_id),
    }
}

/// The trace of a write that was queued.
pub fn queued_trace(tenant: &str, note_id: &str) -> (r: Audit)
    ensures
        r@ == queued(tenant@, note_id@),
{
    Audit {
        event: "vault_write".to_owned(),
        tenant: tenant.to_owned(),
        locus: access::locus_for_tenant(tenant),
        reason: "queued".to_owned(),
        note_id: Some(note_id.to_owned()),
    }
}

/// The trace of a title that is at odds with the section hint and the tags; its reason is the
/// rule that tells so.
pub open spec fn drifted(tenant: Seq<char>, drift: CategoryDrift) -> AuditTrace {
    AuditTrace {
        event: "write_check_drift"@,
        tenant,
        locus: access::locus_text(tenant, None),
        reason: drift.rule@,
        note_id: None,
    }
}

/// The trace of a title that is at odds with the section hint and the tags.
pub fn drift_trace(tenant: &str, drift: &CategoryDrift) -> (r: Audit)
    ensures
        r@ == drifted(tenant@, *drift),
{
    Audit {
        event: "write_check_drift".to_owned(),
        tenant: tenant.to_owned(),
        locus: access::locus_for_tenant(tenant),
        reason: drift.rule.clone(),
        note_id: None,
    }
}

// ── The right to write ──────────────────────────────────────────────────────

/// The vault that was answered.
pub open spec fn vault_of(a: Answers) -> Seq<char> {
    a.write_vault->0->Ok_0@
}

/// What a caller is told who names another tenant than its own.
pub const TENANT_MISMATCH: &'static str = "tenant cross mismatch";

/// The right to a change: the vault that the credential may write to, and the access rules.
pub open spec fn vault_gate(
    requested: Option<Seq<char>>,
    a: Answers,
    mismatch: Seq<char>,
    deny: Seq<char>,
    trace: spec_fn(Seq<char>) -> Option<AuditTrace>,
) -> Gate {
    match a.write_vault {
        None => Gate::Ask(Question::WriteVault { requested, deny: mismatch }),
        Some(Err(e)) => Gate::Fail(flow::silent(e@)),
        Some(Ok(t)) => match a.acl {
            None => Gate::Ask(
                Question::Acl { op: AclOp::Write, locus: access::locus_text(t@, None) },
            ),
            Some(false) => Gate::Fail(
                Denied { error: Refusal::Forbidden(deny), audit: trace(t@) },
            ),
            Some(true) => Gate::Pass,
        },
    }
}

/// The right to a change that leaves no trace when the access rules refuse it.
pub open spec fn change_gate(
    trust: TrustContext,
    requested: Option<Seq<char>>,
    a: Answers,
    mismatch: Seq<char>,
    deny: Seq<char>,
) -> Gate {
    if !trust.authenticated() {
        Gate::Fail(flow::silent(Refusal::Unauthorized))
    } else {
        vault_gate(requested, a, mismatch, deny, |t: Seq<char>| None)
    }
}

/// Checks the right to a change, and gives the vault.
pub fn enter_change(
    trust: &TrustContext,
    requested: &Option<String>,
    a: &Answers,
    mismatch: &str,
    deny: &str,
) -> (r: Result<String, Stop>)
    ensures
        ({
            let g = change_gate(*trust, rows::opt_text(*requested), *a, mismatch@, deny@);
            match r {
                Ok(t) => g is Pass && t@ == vault_of(*a),
                Err(s) => g == s@,
            }
        }),
{
    if !trust.is_authenticated() {
        return Err(Stop::Fail(Denial::plain(GradatumError::Unauthorized)));
    }
    match &a.write_vault {
        None => Err(
            Stop::Ask(
                Ask::WriteVault {
                    requested: rows::copy_opt(requested),
                    deny: mismatch.to_owned(),
                },
            ),
        ),
        Some(Err(e)) => Err(Stop::failed(e)),
        Some(Ok(t)) => match a.acl {
            None => Err(
                Stop::Ask(
                    Ask::Acl { op: AclOp::Write, locus: access::locus_for_tenant(t.as_str()) },
                ),
            ),
            Some(false) => Err(Stop::Fail(Denial::forbidden(deny))),
            Some(true) => Ok(t.clone()),
        },
    }
}

/// The right to a write: a credential, a vault, and the access rules; both kinds of refusal are
/// traced.
pub open spec fn write_right_gate(
    trust: TrustContext,
    requested: Option<Seq<char>>,
    a: Answers,
) -> Gate {
    if !trust.authenticated() {
        Gate::Fail(
            Denied {
                error: Refusal::Unauthorized,
                audit: Some(
                    auth_failure(
                        match requested {
                            Some(t) => t,
                            None => ""@,
                        },
                        "unauthenticated"@,
                    ),
                ),
            },
        )
    } else {
        vault_gate(
            requested,
            a,
            TENANT_MISMATCH@,
            "acl deny"@,
            |t: Seq<char>| Some(auth_failure(t, "acl_deny"@)),
        )
    }
}

fn enter_write(trust: &TrustContext, requested: &Option<String>, a: &Answers) -> (r: Result<
    String,
    Stop,
>)
    ensures
        ({
            let g = write_right_gate(*trust, rows::opt_text(*requested), *a);
            match r {
                Ok(t) => g is Pass && t@ == vault_of(*a),
                Err(s) => g == s@,
            }
        }),
{
    if !trust.is_authenticated() {
        let tenant = match requested {
            Some(t) => t.as_str(),
            None => "",
        };
        return Err(
            Stop::Fail(
                Denial {
                    error: GradatumError::Unauthorized,
                    audit: Some(auth_failure_trace(tenant, "unauthenticated")),
                },
            ),
        );
    }
    match &a.write_vault {
        None => Err(
            Stop::Ask(
                Ask::WriteVault {
                    requested: rows::copy_opt(requested),
                    deny: TENANT_MISMATCH.to_owned(),
                },
            ),
        ),
        Some(Err(e)) => Err(Stop::failed(e)),
        Some(Ok(t)) => match a.acl {
            None => Err(
                Stop::Ask(
                    Ask::Acl { op: AclOp::Write, locus: access::locus_for_tenant(t.as_str()) },
                ),
            ),
            Some(false) => Err(
                Stop::Fail(
                    Denial {
                        error: GradatumError::forbidden("acl deny"),
                        audit: Some(auth_failure_trace(t.as_str(), "acl_deny")),
                    },
                ),
            ),
            Some(true) => Ok(t.clone()),
        },
    }
}

// ── The category of the title ───────────────────────────────────────────────

/// A title that names another category than the section hint and the tags is warned of, and
/// leaves a trace. The write goes on all the same: nothing here refuses it.
pub open spec fn drift_gate(t: Seq<char>, req: VaultWriteRequest, a: Answers) -> Gate {
    match a.drift {
        None => Gate::Ask(
            Question::CategoryDrift {
                title: req.title@,
                section_hint: rows::opt_text(req.section_hint),
                tags: text::views(req.tags@),
            },
        ),
        Some(None) => Gate::Pass,
        Some(Some(drift)) => if a.drift_noted is None {
            Gate::Ask(
                Question::NoteDrift {
                    rule: drift.rule@,
                    category: drift.category@,
                    expected_section: drift.expected_section@,
                    actual_section: rows::opt_text(drift.actual_section),
                    title: req.title@,
                    trace: drifted(t, drift),
                },
            )
        } else {
            Gate::Pass
        },
    }
}

fn check_drift(t: &str, req: &VaultWriteRequest, a: &Answers) -> (r: Result<(), Stop>)
    ensures
        match r {
            Ok(_) => drift_gate(t@, *req, *a) is Pass,
            Err(s) => drift_gate(t@, *req, *a) == s@ && s is Ask,
        },
{
    match &a.drift {
        None => Err(
            Stop::Ask(
                Ask::CategoryDrift {
                    title: req.title.clone(),
                    section_hint: rows::copy_opt(&req.section_hint),
                    tags: rows::copy_list(&req.tags),
                },
            ),
        ),
        Some(None) => Ok(()),
        Some(Some(drift)) => if a.drift_noted.is_some() {
            Ok(())
        } else {
            Err(
                Stop::Ask(
                    Ask::NoteDrift {
                        rule: drift.rule.clone(),
                        category: drift.category.clone(),
                        expected_section: drift.expected_section.clone(),
                        actual_section: rows::copy_opt(&drift.actual_section),
                        title: req.title.clone(),
                        trace: drift_trace(t, drift),
                    },
                ),
            )
        },
    }
}

// ── The form of the body ────────────────────────────────────────────────────

/// Whether the request is for this section.
pub open spec fn hinted(req: VaultWriteRequest, section: Seq<char>) -> bool {
    rows::opt_text(req.section_hint) == Some(section)
}

fn has_hint(req: &VaultWriteRequest, section: &str) -> (r: bool)
    ensures
        r == hinted(*req, section@),
{
    match &req.section_hint {
        Some(s) => text::same(s.as_str(), section),
        None => false,
    }
}

/// A card of the project map has its links.
pub open spec fn card_gate(t: Seq<char>, req: VaultWriteRequest, a: Answers) -> Gate {
    if !hinted(req, "project-map"@) {
        Gate::Pass
    } else {
        match a.card {
            None => Gate::Ask(Question::CheckCard { body: req.body@ }),
            Some(Ok(_)) => Gate::Pass,
            Some(Err(m)) => rejected(
                t,
                Refusal::InvalidInput("project-map schema: "@ + m@),
                "rejected_400_project_map_schema"@,
                None,
            ),
        }
    }
}

fn check_card(t: &str, req: &VaultWriteRequest, a: &Answers) -> (r: Result<(), Stop>)
    ensures
        match r {
            Ok(_) => card_gate(t@, *req, *a) is Pass,
            Err(s) => card_gate(t@, *req, *a) == s@,
        },
{
    if !has_hint(req, "project-map") {
        return Ok(());
    }
    match &a.card {
        None => Err(Stop::Ask(Ask::CheckCard { body: req.body.clone() })),
        Some(Ok(_)) => Ok(()),
        Some(Err(m)) => Err(
            reject(
                t,
                GradatumError::InvalidInput(text::cat("project-map schema: ", m.as_str())),
                "rejected_400_project_map_schema",
                None,
            ),
        ),
    }
}

/// Whether the caller may write the soul of `agent`: its own, or any with the scope.
pub open spec fn may_write_soul(trust: TrustContext, agent: Seq<char>) -> bool {
    trust.scoped("identity_write"@) || trust.subject_view() == Some(agent)
}

/// A soul is titled as one, written by its owner or by a bearer of the scope, and has the form
/// of one; and nothing else is titled as one.
pub open spec fn soul_gate(
    trust: TrustContext,
    t: Seq<char>,
    req: VaultWriteRequest,
    a: Answers,
) -> Gate {
    let owner = identity::soul_owner(Some(req.title@));
    if !hinted(req, "identity"@) {
        if "identity/"@.is_prefix_of(req.title@) {
            rejected(
                t,
                Refusal::InvalidInput(
                    "identity: section_hint=\"identity\" required when the title starts with identity/"@,
                ),
                "rejected_400_identity_title_without_hint"@,
                None,
            )
        } else {
            Gate::Pass
        }
    } else if owner is None {
        rejected(
            t,
            Refusal::InvalidInput("identity: title must be identity/<agent-id> (non-empty)"@),
            "rejected_400_identity_bad_title"@,
            None,
        )
    } else if !may_write_soul(trust, owner->0) {
        rejected(
            t,
            Refusal::Forbidden("identity: an agent may only write its own soul"@),
            "identity_write_denied_foreign_agent"@,
            owner,
        )
    } else {
        match a.soul {
            None => Gate::Ask(Question::CheckSoul { body: req.body@ }),
            Some(Ok(_)) => Gate::Pass,
            Some(Err(m)) => rejected(
                t,
                Refusal::InvalidInput("identity schema: "@ + m@),
                "rejected_400_identity_schema"@,
                None,
            ),
        }
    }
}

fn check_soul(trust: &TrustContext, t: &str, req: &VaultWriteRequest, a: &Answers) -> (r: Result<
    (),
    Stop,
>)
    ensures
        match r {
            Ok(_) => soul_gate(*trust, t@, *req, *a) is Pass,
            Err(s) => soul_gate(*trust, t@, *req, *a) == s@,
        },
{
    if !has_hint(req, "identity") {
        if text::starts_with(req.title.as_str(), "identity/") {
            return Err(
                reject(
                    t,
                    GradatumError::invalid(
                        "identity: section_hint=\"identity\" required when the title starts with identity/",
                    ),
                    "rejected_400_identity_title_without_hint",
                    None,
                ),
            );
        }
        return Ok(());
    }
    let agent = match text::strip_prefix(req.title.as_str(), "identity/") {
        Some(agent) => agent,
        None => "".to_owned(),
    };
    if agent.as_str().is_empty() {
        proof {
            reveal_strlit("");
        }
        return Err(
            reject(
                t,
                GradatumError::invalid("identity: title must be identity/<agent-id> (non-empty)"),
                "rejected_400_identity_bad_title",
                None,
            ),
        );
    }
    proof {
        reveal_strlit("");
    }
    let own = match trust.subject() {
        Some(sub) => text::same(sub.as_str(), agent.as_str()),
        None => false,
    };
    if !trust.has_scope("identity_write") && !own {
        return Err(
            reject(
                t,
                GradatumError::forbidden("identity: an agent may only write its own soul"),
                "identity_write_denied_foreign_agent",
                Some(agent.as_str()),
            ),
        );
    }
    match &a.soul {
        None => Err(Stop::Ask(Ask::CheckSoul { body: req.body.clone() })),
        Some(Ok(_)) => Ok(()),
        Some(Err(m)) => Err(
            reject(
                t,
                GradatumError::InvalidInput(text::cat("identity schema: ", m.as_str())),
                "rejected_400_identity_schema",
                None,
            ),
        ),
    }
}

// ── The identifier ──────────────────────────────────────────────────────────

/// The identifier that the note will have: the one given, else a fresh one.
pub open spec fn target_note(req: VaultWriteRequest, fresh: NoteId) -> Seq<char> {
    match req.note_id {
        Some(s) => ids::ulid_text(ids::base32_value(s@)),
        None => fresh@,
    }
}

/// A given identifier has the form of one.
pub open spec fn note_id_gate(t: Seq<char>, req: VaultWriteRequest) -> Gate {
    match req.note_id {
        Some(s) => if ids::is_ulid(s@) {
            Gate::Pass
        } else {
            rejected(
                t,
                Refusal::InvalidInput(
                    reference::bare_id_expected(
                        "note_id"@,
                        s@,
                        "a bare pre-allocated ULID is expected"@,
                    ),
                ),
                "rejected_400_bad_note_id"@,
                Some(s@),
            )
        },
        None => Gate::Pass,
    }
}

fn choose_note(t: &str, req: &VaultWriteRequest, fresh: &NoteId) -> (r: Result<String, Stop>)
    ensures
        match r {
            Ok(id) => note_id_gate(t@, *req) is Pass && id@ == target_note(*req, *fresh),
            Err(s) => note_id_gate(t@, *req) == s@,
        },
{
    match &req.note_id {
        Some(s) => match NoteId::parse(s.as_str()) {
            Some(id) => Ok(id.text()),
            None => Err(
                reject(
                    t,
                    GradatumError::InvalidInput(
                        reference::bare_id_message(
                            "note_id",
                            s.as_str(),
                            "a bare pre-allocated ULID is expected",
                        ),
                    ),
                    "rejected_400_bad_note_id",
                    Some(s.as_str()),
                ),
            ),
        },
        None => Ok(fresh.text()),
    }
}

// ── The identity of a card ──────────────────────────────────────────────────

/// The feature roles that the note has before the write: none when it is not there.
pub open spec fn standing_roles(req: VaultWriteRequest, a: Answers) -> Seq<Seq<char>> {
    if req.note_id is None {
        Seq::empty()
    } else {
        match a.note->0 {
            Ok(n) => text::views(n.feature_roles@),
            Err(_) => Seq::empty(),
        }
    }
}

/// The message about a feature role that a write would introduce, change or drop.
pub open spec fn immutable_role(standing: Seq<Seq<char>>, submitted: Seq<Seq<char>>) -> Seq<char> {
    "project-map: the [[feature:…]] role is immutable (card identity) — current "@
        + text::debug_list(standing) + ", submitted "@ + text::debug_list(submitted)
        + ". Create through create_feature_card; a rename is a new card plus [[supersedes:]] on the old one."@
}

/// A client keeps the feature roles of a card as they are.
pub open spec fn feature_gate(
    t: Seq<char>,
    req: VaultWriteRequest,
    authority: FeatureWriteAuthority,
    id: Seq<char>,
    a: Answers,
) -> Gate {
    if authority != FeatureWriteAuthority::External || !hinted(req, "project-map"@) {
        Gate::Pass
    } else if a.roles is None {
        Gate::Ask(Question::FeatureRoles { body: req.body@ })
    } else if req.note_id is Some && a.note is None {
        Gate::Ask(Question::ReadNote { tenant: t, id })
    } else if req.note_id is Some && a.note->0 is Err && !(a.note->0->Err_0@ is NoteNotFound) {
        Gate::Fail(flow::silent(a.note->0->Err_0@))
    } else if text::views(a.roles->0@) != standing_roles(req, a) {
        rejected(
            t,
            Refusal::InvalidInput(
                immutable_role(standing_roles(req, a), text::views(a.roles->0@)),
            ),
            "rejected_400_project_map_feature_identity"@,
            None,
        )
    } else {
        Gate::Pass
    }
}

fn check_feature(
    t: &str,
    req: &VaultWriteRequest,
    authority: FeatureWriteAuthority,
    id: &str,
    a: &Answers,
) -> (r: Result<(), Stop>)
    ensures
        match r {
            Ok(_) => feature_gate(t@, *req, authority, id@, *a) is Pass,
            Err(s) => feature_gate(t@, *req, authority, id@, *a) == s@,
        },
{
    if authority != FeatureWriteAuthority::External || !has_hint(req, "project-map") {
        return Ok(());
    }
    let submitted = match &a.roles {
        None => return Err(Stop::Ask(Ask::FeatureRoles { body: req.body.clone() })),
        Some(v) => v,
    };
    let standing = if req.note_id.is_some() {
        match &a.note {
            None => return Err(
                Stop::Ask(Ask::ReadNote { tenant: t.to_owned(), id: id.to_owned() }),
            ),
            Some(Ok(n)) => rows::copy_list(&n.feature_roles),
            Some(Err(e)) => match e {
                GradatumError::NoteNotFound(_) => Vec::new(),
                _ => return Err(Stop::failed(e)),
            },
        }
    } else {
        Vec::new()
    };
    assert(text::views(standing@) =~= standing_roles(*req, *a));
    if text::same_list(submitted, &standing) {
        return Ok(());
    }
    let mut m = text::cat(
        "project-map: the [[feature:…]] role is immutable (card identity) — current ",
        text::debug_list_text(&standing).as_str(),
    );
    m.append(", submitted ");
    m.append(text::debug_list_text(submitted).as_str());
    m.append(
        ". Create through create_feature_card; a rename is a new card plus [[supersedes:]] on the old one.",
    );
    Err(
        reject(
            t,
            GradatumError::InvalidInput(m),
            "rejected_400_project_map_feature_identity",
            None,
        ),
    )
}

// ── The overwrite guard ─────────────────────────────────────────────────────

/// A hash that guards an overwrite has the form of one.
pub open spec fn sha_gate(
    t: Seq<char>,
    req: VaultWriteRequest,
    id: Seq<char>,
    a: Answers,
) -> Gate {
    if req.note_id is None || req.expected_sha256 is None {
        Gate::Pass
    } else {
        match a.sha_valid {
            None => Gate::Ask(Question::CheckSha { sha: req.expected_sha256->0@ }),
            Some(true) => Gate::Pass,
            Some(false) => rejected(
                t,
                Refusal::InvalidInput("malformed expected_sha256"@),
                "rejected_400_bad_sha"@,
                Some(id),
            ),
        }
    }
}

fn check_sha(t: &str, req: &VaultWriteRequest, id: &str, a: &Answers) -> (r: Result<(), Stop>)
    ensures
        match r {
            Ok(_) => sha_gate(t@, *req, id@, *a) is Pass,
            Err(s) => sha_gate(t@, *req, id@, *a) == s@,
        },
{
    if req.note_id.is_none() {
        return Ok(());
    }
    match &req.expected_sha256 {
        None => Ok(()),
        Some(sha) => match a.sha_valid {
            None => Err(Stop::Ask(Ask::CheckSha { sha: sha.clone() })),
            Some(true) => Ok(()),
            Some(false) => Err(
                reject(
                    t,
                    GradatumError::invalid("malformed expected_sha256"),
                    "rejected_400_bad_sha",
                    Some(id),
                ),
            ),
        },
    }
}

/// What there is under the identifier that a write gives.
pub enum Target {
    /// The file is there.
    Live,
    /// The index has it, the file is gone.
    Phantom,
    /// It was never indexed, and there is no file.
    New,
}

/// What may be done to a target, with and without the hash that the client expects.
///
/// |       | without a hash        | with a hash                |
/// |-------|-----------------------|----------------------------|
/// | live  | refused               | passes, checked on writing |
/// | phantom | passes, and heals     | refused: nothing to hash   |
/// | new   | passes                | passes                     |
pub open spec fn overwrite_allowed(target: Target, guarded: bool) -> bool {
    match target {
        Target::Live => guarded,
        Target::Phantom => !guarded,
        Target::New => true,
    }
}

/// What the answers say of the target. A note of another vault than `main` that the index of
/// the vault does not have is new. Whether a note without a file is in the index matters only
/// when there is a hash.
pub open spec fn target_of(t: Seq<char>, guarded: bool, a: Answers) -> Target {
    if t != "main"@ && a.in_tenant->0->Ok_0 == false {
        Target::New
    } else if a.note->0 is Ok {
        Target::Live
    } else if guarded && a.indexed->0->Ok_0 {
        Target::Phantom
    } else {
        Target::New
    }
}

/// What is still to be asked about the target of an overwrite.
pub open spec fn target_gate(t: Seq<char>, guarded: bool, id: Seq<char>, a: Answers) -> Gate {
    if t != "main"@ && a.in_tenant is None {
        Gate::Ask(Question::NoteInTenant { tenant: t, id })
    } else if t != "main"@ && a.in_tenant->0 is Err {
        Gate::Fail(flow::silent(a.in_tenant->0->Err_0@))
    } else if t != "main"@ && a.in_tenant->0->Ok_0 == false {
        Gate::Pass
    } else if a.note is None {
        Gate::Ask(Question::ReadNote { tenant: t, id })
    } else if a.note->0 is Ok {
        Gate::Pass
    } else if !(a.note->0->Err_0@ is NoteNotFound) {
        Gate::Fail(flow::silent(a.note->0->Err_0@))
    } else if !guarded {
        Gate::Pass
    } else if a.indexed is None {
        Gate::Ask(Question::NoteIndexed { tenant: t, id })
    } else if a.indexed->0 is Err {
        Gate::Fail(flow::silent(a.indexed->0->Err_0@))
    } else {
        Gate::Pass
    }
}

fn find_target(t: &str, guarded: bool, id: &str, a: &Answers) -> (r: Result<Target, Stop>)
    ensures
        match r {
            Ok(target) => target_gate(t@, guarded, id@, *a) is Pass && target == target_of(
                t@,
                guarded,
                *a,
            ),
            Err(s) => target_gate(t@, guarded, id@, *a) == s@,
        },
{
    if !text::same(t, "main") {
        match &a.in_tenant {
            None => return Err(
                Stop::Ask(Ask::NoteInTenant { tenant: t.to_owned(), id: id.to_owned() }),
            ),
            Some(Err(e)) => return Err(Stop::failed(e)),
            Some(Ok(present)) => if !*present {
                return Ok(Target::New);
            },
        }
    }
    match &a.note {
        None => Err(Stop::Ask(Ask::ReadNote { tenant: t.to_owned(), id: id.to_owned() })),
        Some(Ok(_)) => Ok(Target::Live),
        Some(Err(e)) => match e {
            GradatumError::NoteNotFound(_) => {
                if !guarded {
                    return Ok(Target::New);
                }
                match &a.indexed {
                    None => Err(
                        Stop::Ask(Ask::NoteIndexed { tenant: t.to_owned(), id: id.to_owned() }),
                    ),
                    Some(Err(f)) => Err(Stop::failed(f)),
                    Some(Ok(indexed)) => Ok(
                        if *indexed {
                            Target::Phantom
                        } else {
                            Target::New
                        },
                    ),
                }
            },
            _ => Err(Stop::failed(e)),
        },
    }
}

/// A note that is there is not overwritten blindly.
pub open spec fn overwrite_gate(
    t: Seq<char>,
    req: VaultWriteRequest,
    id: Seq<char>,
    a: Answers,
) -> Gate {
    let guarded = req.expected_sha256 is Some;
    if req.note_id is None {
        Gate::Pass
    } else {
        let g = target_gate(t, guarded, id, a);
        if !(g is Pass) || overwrite_allowed(target_of(t, guarded, a), guarded) {
            g
        } else if guarded {
            rejected(
                t,
                Refusal::Conflict("ghost note (.md missing): expected_sha256 unverifiable"@),
                "rejected_409_phantom_expected_sha"@,
                Some(id),
            )
        } else {
            rejected(
                t,
                Refusal::Conflict("overwrite without expected_sha256"@),
                "rejected_409_overwrite_no_sha"@,
                Some(id),
            )
        }
    }
}

fn check_overwrite(t: &str, req: &VaultWriteRequest, id: &str, a: &Answers) -> (r: Result<
    (),
    Stop,
>)
    ensures
        match r {
            Ok(_) => overwrite_gate(t@, *req, id@, *a) is Pass,
            Err(s) => overwrite_gate(t@, *req, id@, *a) == s@,
        },
{
    if req.note_id.is_none() {
        return Ok(());
    }
    let guarded = req.expected_sha256.is_some();
    match find_target(t, guarded, id, a) {
        Err(s) => Err(s),
        Ok(Target::Live) => if guarded {
            Ok(())
        } else {
            Err(
                reject(
                    t,
                    GradatumError::Conflict("overwrite without expected_sha256".to_owned()),
                    "rejected_409_overwrite_no_sha",
                    Some(id),
                ),
            )
        },
        Ok(Target::Phantom) => if guarded {
            Err(
                reject(
                    t,
                    GradatumError::Conflict(
                        "ghost note (.md missing): expected_sha256 unverifiable".to_owned(),
                    ),
                    "rejected_409_phantom_expected_sha",
                    Some(id),
                ),
            )
        } else {
            Ok(())
        },
        Ok(Target::New) => Ok(()),
    }
}

/// A moment that the note is about is one.
pub open spec fn moment_gate(req: VaultWriteRequest, a: Answers) -> Gate {
    match req.occurred_at {
        None => Gate::Pass,
        Some(m) => match a.moment_valid {
            None => Gate::Ask(Question::CheckMoment { moment: m@ }),
            Some(true) => Gate::Pass,
            Some(false) => Gate::Fail(
                flow::silent(Refusal::InvalidInput("invalid occurred_at"@)),
            ),
        },
    }
}

fn check_moment(req: &VaultWriteRequest, a: &Answers) -> (r: Result<(), Stop>)
    ensures
        match r {
            Ok(_) => moment_gate(*req, *a) is Pass,
            Err(s) => moment_gate(*req, *a) == s@,
        },
{
    match &req.occurred_at {
        None => Ok(()),
        Some(m) => match a.moment_valid {
            None => Err(Stop::Ask(Ask::CheckMoment { moment: m.clone() })),
            Some(true) => Ok(()),
            Some(false) => Err(Stop::Fail(Denial::invalid("invalid occurred_at"))),
        },
    }
}

// ── The write ───────────────────────────────────────────────────────────────

/// What a write passes before it may be queued, in this order: the right to write, the category
/// of its title, the form of a card, the form and the owner of a soul, the identifier, the
/// identity of a card, the overwrite guard, the moment, and the author.
pub open spec fn write_checks(
    trust: TrustContext,
    req: VaultWriteRequest,
    authority: FeatureWriteAuthority,
    fresh: NoteId,
    a: Answers,
) -> Gate {
    flow::chain(
        write_right_gate(trust, rows::opt_text(req.tenant_id), a),
        flow::chain(
            drift_gate(vault_of(a), req, a),
            content_checks(trust, req, authority, fresh, a),
        ),
    )
}

/// What a write passes once the caller may write and the category of its title was looked at.
pub open spec fn content_checks(
    trust: TrustContext,
    req: VaultWriteRequest,
    authority: FeatureWriteAuthority,
    fresh: NoteId,
    a: Answers,
) -> Gate {
    let t = vault_of(a);
    let id = target_note(req, fresh);
    flow::chain(
        card_gate(t, req, a),
        flow::chain(
            soul_gate(trust, t, req, a),
            flow::chain(
                note_id_gate(t, req),
                flow::chain(
                    feature_gate(t, req, authority, id, a),
                    flow::chain(
                        sha_gate(t, req, id, a),
                        flow::chain(
                            overwrite_gate(t, req, id, a),
                            flow::chain(
                                moment_gate(req, a),
                                author_gate(rows::opt_text(req.author), trust.subject_view()),
                            ),
                        ),
                    ),
                ),
            ),
        ),
    )
}

/// The first reason not to accept a write, or the next question about it. A write that passes
/// every check takes its place in the queue under the subject of the credential, and leaves its
/// trace before it is answered.
pub open spec fn write_gate(
    trust: TrustContext,
    req: VaultWriteRequest,
    authority: FeatureWriteAuthority,
    fresh: NoteId,
    a: Answers,
) -> Gate {
    flow::chain(
        write_checks(trust, req, authority, fresh, a),
        match a.enqueued {
            None => Gate::Ask(
                Question::EnqueueWrite {
                    tenant: vault_of(a),
                    note_id: target_note(req, fresh),
                    author: trust.subject_view()->0,
                    title: req.title@,
                    body: req.body@,
                    tags: text::views(req.tags@),
                    section_hint: rows::opt_text(req.section_hint),
                    occurred_at: rows::opt_text(req.occurred_at),
                    expected_sha256: rows::opt_text(req.expected_sha256),
                },
            ),
            Some(Err(m)) => Gate::Fail(flow::silent(Refusal::Storage(m@))),
            Some(Ok(job)) => if a.write_noted is None {
                Gate::Ask(
                    Question::NoteWrite {
                        job_id: job@,
                        trace: queued(vault_of(a), target_note(req, fresh)),
                    },
                )
            } else {
                Gate::Pass
            },
        },
    )
}

/// Whether `r` is the receipt of the job `job` that writes the note `id`.
pub open spec fn receipt(r: EnqueuedResponseUlid, job: NoteId, id: Seq<char>) -> bool {
    &&& r.job_id@ == job@
    &&& r.status@ == "queued"@
    &&& r.poll_url@ == "/api/v1/jobs/"@ + job@ + "/v2"@
    &&& r.note_id@ == id
}

fn check_write(
    trust: &TrustContext,
    req: &VaultWriteRequest,
    authority: FeatureWriteAuthority,
    fresh: &NoteId,
    a: &Answers,
) -> (r: Result<(String, String, String), Stop>)
    ensures
        match r {
            Ok((t, id, author)) => {
                &&& write_checks(*trust, *req, authority, *fresh, *a) is Pass
                &&& t@ == vault_of(*a)
                &&& id@ == target_note(*req, *fresh)
                &&& trust.subject_view() == Some(author@)
            },
            Err(s) => write_checks(*trust, *req, authority, *fresh, *a) == s@,
        },
{
    let t = match enter_write(trust, &req.tenant_id, a) {
        Ok(t) => t,
        Err(s) => return Err(s),
    };
    if let Err(s) = check_drift(t.as_str(), req, a) {
        return Err(s);
    }
    if let Err(s) = check_card(t.as_str(), req, a) {
        return Err(s);
    }
    if let Err(s) = check_soul(trust, t.as_str(), req, a) {
        return Err(s);
    }
    let id = match choose_note(t.as_str(), req, fresh) {
        Ok(id) => id,
        Err(s) => return Err(s),
    };
    if let Err(s) = check_feature(t.as_str(), req, authority, id.as_str(), a) {
        return Err(s);
    }
    if let Err(s) = check_sha(t.as_str(), req, id.as_str(), a) {
        return Err(s);
    }
    if let Err(s) = check_overwrite(t.as_str(), req, id.as_str(), a) {
        return Err(s);
    }
    if let Err(s) = check_moment(req, a) {
        return Err(s);
    }
    match effective_author(&req.author, trust.subject()) {
        Ok(author) => Ok((t, id, author)),
        Err(e) => Err(Stop::Fail(Denial::plain(e))),
    }
}

/// Checks a write and queues it. `fresh` is the identifier of a note that has none yet.
pub fn vault_write_impl(
    trust: &TrustContext,
    req: &VaultWriteRequest,
    authority: FeatureWriteAuthority,
    fresh: &NoteId,
    a: &Answers,
) -> (r: Next<EnqueuedResponseUlid>)
    ensures
        flow::follows(r, write_gate(*trust, *req, authority, *fresh, *a)),
        r matches Next::Reply(x) ==> receipt(x, a.enqueued->0->Ok_0, target_note(*req, *fresh)),
{
    let (tenant, note_id, author) = match check_write(trust, req, authority, fresh, a) {
        Ok(x) => x,
        Err(s) => return s.next(),
    };
    match &a.enqueued {
        None => Next::Ask(
            Ask::EnqueueWrite {
                tenant,
                note_id,
                author,
                title: req.title.clone(),
                body: req.body.clone(),
                tags: rows::copy_list(&req.tags),
                section_hint: rows::copy_opt(&req.section_hint),
                occurred_at: rows::copy_opt(&req.occurred_at),
                expected_sha256: rows::copy_opt(&req.expected_sha256),
            },
        ),
        Some(Err(m)) => Next::Fail(Denial::plain(GradatumError::Storage(m.clone()))),
        Some(Ok(job)) => {
            let job_id = job.text();
            if a.write_noted.is_none() {
                let trace = queued_trace(tenant.as_str(), note_id.as_str());
                return Next::Ask(Ask::NoteWrite { job_id, trace });
            }
            let mut poll_url = text::cat("/api/v1/jobs/", job_id.as_str());
            poll_url.append("/v2");
            Next::Reply(
                EnqueuedResponseUlid { job_id, status: "queued".to_owned(), poll_url, note_id },
            )
        },
    }
}

// ── Laws ────────────────────────────────────────────────────────────────────

/// A write is queued, or handed to the queue, only when every check was passed; it is queued
/// under the subject of the credential and never under a declared author.
pub proof fn write_is_queued_after_every_check(
    trust: TrustContext,
    req: VaultWriteRequest,
    authority: FeatureWriteAuthority,
    fresh: NoteId,
    a: Answers,
)
    requires
        ({
            let g = write_gate(trust, req, authority, fresh, a);
            g is Pass || (g is Ask && g->Ask_0 is EnqueueWrite)
        }),
    ensures
        write_checks(trust, req, authority, fresh, a) is Pass,
        trust.authenticated(),
        a.acl == Some(true),
        req.author is None,
        trust.subject_view() is Some,
        write_gate(trust, req, authority, fresh, a) matches Gate::Ask(q) ==> q
            == (Question::EnqueueWrite {
            tenant: vault_of(a),
            note_id: target_note(req, fresh),
            author: trust.subject_view()->0,
            title: req.title@,
            body: req.body@,
            tags: text::views(req.tags@),
            section_hint: rows::opt_text(req.section_hint),
            occurred_at: rows::opt_text(req.occurred_at),
            expected_sha256: rows::opt_text(req.expected_sha256),
        }),
{
}

/// A title that is at odds with the section hint and the tags never refuses a write, and changes
/// nothing of what is queued or replied: once it is noted, all goes on as if nothing spoke against
/// the title.
pub proof fn a_drift_never_refuses_a_write(
    trust: TrustContext,
    req: VaultWriteRequest,
    authority: FeatureWriteAuthority,
    fresh: NoteId,
    a: Answers,
    drift: CategoryDrift,
    kept: bool,
)
    ensures
        !(drift_gate(vault_of(a), req, a) is Fail),
        write_gate(
            trust,
            req,
            authority,
            fresh,
            Answers { drift: Some(Some(drift)), drift_noted: Some(kept), ..a },
        ) == write_gate(trust, req, authority, fresh, Answers { drift: Some(None), ..a }),
{
}

/// A drift that is found is noted before anything else is asked or refused, under the vault that
/// is written to and by the rule that was found.
pub proof fn a_drift_is_noted(
    trust: TrustContext,
    req: VaultWriteRequest,
    authority: FeatureWriteAuthority,
    fresh: NoteId,
    a: Answers,
)
    requires
        write_right_gate(trust, rows::opt_text(req.tenant_id), a) is Pass,
        a.drift matches Some(Some(_)),
        a.drift_noted is None,
    ensures
        ({
            let drift = a.drift->0->0;
            write_gate(trust, req, authority, fresh, a) matches Gate::Ask(
                Question::NoteDrift { rule, trace, .. },
            ) && rule == drift.rule@ && trace == drifted(vault_of(a), drift)
        }),
{
}

/// Every write that is queued leaves its trace, under the vault that is written to, before the
/// caller hears of it; a write that is not queued leaves none. That the trace could not be kept
/// changes nothing.
pub proof fn a_queued_write_leaves_a_trace(
    trust: TrustContext,
    req: VaultWriteRequest,
    authority: FeatureWriteAuthority,
    fresh: NoteId,
    a: Answers,
)
    ensures
        ({
            let g = write_gate(trust, req, authority, fresh, a);
            let passed = write_checks(trust, req, authority, fresh, a) is Pass;
            let job = a.enqueued->0->Ok_0;
            &&& g is Pass ==> passed && a.enqueued == Some(Ok::<NoteId, String>(job))
                && a.write_noted is Some
            &&& (g is Ask && g->Ask_0 is NoteWrite) <==> (passed && a.enqueued == Some(
                Ok::<NoteId, String>(job),
            ) && a.write_noted is None)
            &&& g matches Gate::Ask(Question::NoteWrite { job_id, trace }) ==> job_id == job@
                && trace == queued(vault_of(a), target_note(req, fresh))
        }),
        write_gate(trust, req, authority, fresh, Answers { write_noted: Some(true), ..a })
            == write_gate(trust, req, authority, fresh, Answers { write_noted: Some(false), ..a }),
{
}

/// A write without a credential is refused and asks nothing.
pub proof fn write_needs_a_credential(
    trust: TrustContext,
    req: VaultWriteRequest,
    authority: FeatureWriteAuthority,
    fresh: NoteId,
    a: Answers,
)
    requires
        !trust.authenticated(),
    ensures
        write_gate(trust, req, authority, fresh, a) is Fail,
        write_gate(trust, req, authority, fresh, a)->Fail_0.error == Refusal::Unauthorized,
{
}

/// A note that is there is overwritten only with the hash that the client expects, and a note
/// whose file is gone never with one.
pub proof fn overwrite_follows_the_table(
    trust: TrustContext,
    req: VaultWriteRequest,
    authority: FeatureWriteAuthority,
    fresh: NoteId,
    a: Answers,
)
    requires
        write_checks(trust, req, authority, fresh, a) is Pass,
        req.note_id is Some,
    ensures
        overwrite_allowed(
            target_of(vault_of(a), req.expected_sha256 is Some, a),
            req.expected_sha256 is Some,
        ),
{
}

/// A client neither gives a card a feature role nor takes one away: what it submits is what
/// the card has, and a card that is not there has none.
pub proof fn client_keeps_the_identity_of_a_card(
    trust: TrustContext,
    req: VaultWriteRequest,
    fresh: NoteId,
    a: Answers,
)
    requires
        write_checks(trust, req, FeatureWriteAuthority::External, fresh, a) is Pass,
        hinted(req, "project-map"@),
    ensures
        text::views(a.roles->0@) == standing_roles(req, a),
        req.note_id is None ==> text::views(a.roles->0@) =~= Seq::<Seq<char>>::empty(),
{
}

/// A soul is written under the title of its owner, by the owner or by a bearer of the scope;
/// and what is titled as a soul is one.
pub proof fn soul_is_written_by_its_owner(
    trust: TrustContext,
    req: VaultWriteRequest,
    authority: FeatureWriteAuthority,
    fresh: NoteId,
    a: Answers,
)
    requires
        write_checks(trust, req, authority, fresh, a) is Pass,
        hinted(req, "identity"@) || "identity/"@.is_prefix_of(req.title@),
    ensures
        hinted(req, "identity"@),
        identity::soul_owner(Some(req.title@)) is Some,
        may_write_soul(trust, identity::soul_owner(Some(req.title@))->0),
{
}

/// Whether `vault` is the one that the caller may write, whose right to write it was established.
pub open spec fn own(trust: TrustContext, a: Answers, vault: Seq<char>) -> bool {
    &&& trust.authenticated()
    &&& a.acl == Some(true)
    &&& a.write_vault matches Some(Ok(t)) && vault == t@
}

/// Whether the question is the one for the vault to write or for the right to write all of it.
pub open spec fn asks_to_write(q: Question, requested: Option<Seq<char>>, a: Answers) -> bool {
    match q {
        Question::WriteVault { requested: r, .. } => a.write_vault is None && r == requested,
        Question::Acl { op, locus } => a.acl is None && op == AclOp::Write && (
        a.write_vault matches Some(Ok(t)) && locus == t@ + "/main"@),
        _ => false,
    }
}

/// Whether a caller who may not write is refused for that.
pub open spec fn guards_writing(g: Gate, trust: TrustContext, a: Answers) -> bool {
    &&& !trust.authenticated() ==> g is Fail && g->Fail_0.error == Refusal::Unauthorized
    &&& trust.authenticated() && (a.write_vault matches Some(Err(_))) ==> flow::fails(
        g,
        a.write_vault->0->Err_0@,
    )
    &&& trust.authenticated() && (a.write_vault matches Some(Ok(_))) && a.acl == Some(false)
        ==> flow::forbids(g)
    &&& trust.authenticated() && a.write_vault is None ==> g is Ask && g->Ask_0 is WriteVault
    &&& trust.authenticated() && (a.write_vault matches Some(Ok(_))) && a.acl is None ==> g is Ask
        && g->Ask_0 is Acl
}

/// What a write asks for is about its own words, the note that it is to be and the vault that the
/// caller may write; what it hands to the queue is what it was given.
pub proof fn a_write_asks_about_its_own_words(
    trust: TrustContext,
    req: VaultWriteRequest,
    authority: FeatureWriteAuthority,
    fresh: NoteId,
    a: Answers,
)
    ensures
        write_gate(trust, req, authority, fresh, a) matches Gate::Ask(q) ==> match q {
            Question::CategoryDrift { title, section_hint, tags } => {
                &&& title == req.title@
                &&& section_hint == rows::opt_text(req.section_hint)
                &&& tags == text::views(req.tags@)
            },
            Question::NoteDrift {
                rule,
                category,
                expected_section,
                actual_section,
                title,
                trace,
            } => {
                &&& title == req.title@
                &&& a.drift matches Some(Some(d)) && {
                    &&& rule == d.rule@ && category == d.category@
                    &&& expected_section == d.expected_section@
                    &&& actual_section == rows::opt_text(d.actual_section)
                    &&& trace.reason == d.rule@
                }
                &&& own(trust, a, trace.tenant)
                &&& trace.locus == trace.tenant + "/main"@
                &&& trace.event == "write_check_drift"@
                &&& trace.note_id is None
            },
            Question::CheckCard { body } => body == req.body@ && rows::opt_text(req.section_hint)
                == Some("project-map"@),
            Question::CheckSoul { body } => body == req.body@ && rows::opt_text(req.section_hint)
                == Some("identity"@),
            Question::FeatureRoles { body } => body == req.body@ && rows::opt_text(
                req.section_hint,
            ) == Some("project-map"@) && authority == FeatureWriteAuthority::External,
            Question::ReadNote { tenant, id } => own(trust, a, tenant) && targets(req, fresh, id),
            Question::NoteInTenant { tenant, id } => own(trust, a, tenant) && targets(
                req,
                fresh,
                id,
            ) && tenant != "main"@,
            Question::NoteIndexed { tenant, id } => own(trust, a, tenant) && targets(req, fresh, id),
            Question::CheckSha { sha } => rows::opt_text(req.expected_sha256) == Some(sha),
            Question::CheckMoment { moment } => rows::opt_text(req.occurred_at) == Some(moment),
            Question::EnqueueWrite {
                tenant,
                note_id,
                author,
                title,
                body,
                tags,
                section_hint,
                occurred_at,
                expected_sha256,
            } => {
                &&& own(trust, a, tenant)
                &&& targets(req, fresh, note_id)
                &&& trust.subject_view() == Some(author)
                &&& title == req.title@
                &&& body == req.body@
                &&& tags == text::views(req.tags@)
                &&& section_hint == rows::opt_text(req.section_hint)
                &&& occurred_at == rows::opt_text(req.occurred_at)
                &&& expected_sha256 == rows::opt_text(req.expected_sha256)
            },
            Question::NoteWrite { job_id, trace } => {
                &&& a.enqueued matches Some(Ok(job)) && job_id == job@
                &&& own(trust, a, trace.tenant)
                &&& trace.locus == trace.tenant + "/main"@
                &&& trace.event == "vault_write"@
                &&& trace.reason == "queued"@
                &&& trace.note_id is Some && targets(req, fresh, trace.note_id->0)
            },
            _ => asks_to_write(q, rows::opt_text(req.tenant_id), a),
        },
{
    if let Some(s) = req.note_id {
        if ids::is_ulid(s@) {
            ids::an_identifier_has_one_text(s@);
        }
    }
}

/// Whether `id` is the note that a write is for: the one that it names, else a new one.
pub open spec fn targets(req: VaultWriteRequest, fresh: NoteId, id: Seq<char>) -> bool {
    match req.note_id {
        Some(s) => ids::is_ulid(s@) && ids::is_ulid(id) && ids::base32_value(id)
            == ids::base32_value(s@),
        None => id == fresh@,
    }
}

/// A plain write, neither of a card nor of a soul nor over a note that is named, is refused for
/// want of a right, a moment or a name only; else it is queued.
pub proof fn a_plain_write_is_queued(
    trust: TrustContext,
    req: VaultWriteRequest,
    authority: FeatureWriteAuthority,
    fresh: NoteId,
    a: Answers,
)
    requires
        rows::opt_text(req.section_hint) != Some("project-map"@),
        rows::opt_text(req.section_hint) != Some("identity"@),
        !("identity/"@.is_prefix_of(req.title@)),
        req.note_id is None,
    ensures
        ({
            let g = write_gate(trust, req, authority, fresh, a);
            let entered = trust.authenticated() && (a.write_vault matches Some(Ok(_))) && a.acl
                == Some(true) && a.drift is Some && (a.drift->0 is None || a.drift_noted is Some);
            let timed = req.occurred_at is None || a.moment_valid == Some(true);
            let signed = req.author is None && trust.subject_view() is Some;
            &&& guards_writing(g, trust, a)
            &&& entered && req.occurred_at is Some && a.moment_valid == Some(false)
                ==> flow::finds_fault(g)
            &&& entered && timed && req.author is Some ==> flow::finds_fault(g)
            &&& entered && timed && req.author is None && trust.subject_view() is None
                ==> flow::fails(g, Refusal::Unauthorized)
            &&& entered && timed && signed ==> match a.enqueued {
                None => g is Ask && g->Ask_0 is EnqueueWrite,
                Some(Err(m)) => flow::fails(g, Refusal::Storage(m@)),
                Some(Ok(_)) => if a.write_noted is None {
                    g is Ask && g->Ask_0 is NoteWrite
                } else {
                    g is Pass
                },
            }
        }),
{
}

/// What refuses a write because of what it is: a card or a soul that is not in order, a soul of
/// another, a name that is none, a hash that is none, a note that is there and not guarded, one
/// that is gone and guarded.
pub proof fn a_write_is_refused_for_what_it_is(
    trust: TrustContext,
    req: VaultWriteRequest,
    authority: FeatureWriteAuthority,
    fresh: NoteId,
    a: Answers,
)
    requires
        trust.authenticated(),
        a.write_vault matches Some(Ok(_)),
        a.acl == Some(true),
        a.drift is Some,
        a.drift->0 is None || a.drift_noted is Some,
    ensures
        ({
            let g = write_gate(trust, req, authority, fresh, a);
            let hint = rows::opt_text(req.section_hint);
            let plain = hint != Some("project-map"@) && hint != Some("identity"@)
                && !("identity/"@.is_prefix_of(req.title@));
            let named = req.note_id is Some && ids::is_ulid(req.note_id->0@);
            let mine = a.write_vault->0->Ok_0@ == "main"@ || a.in_tenant == Some(
                Ok::<bool, GradatumError>(true),
            );
            let gone = a.note matches Some(Err(e)) && e@ is NoteNotFound;
            let hashed = req.expected_sha256 is Some && a.sha_valid == Some(true);
            &&& hint == Some("project-map"@) && (a.card matches Some(Err(_)))
                ==> flow::finds_fault(g)
            &&& hint == Some("identity"@) && identity::soul_owner(Some(req.title@)) is None
                ==> flow::finds_fault(g)
            &&& hint == Some("identity"@) && identity::soul_owner(Some(req.title@)) is Some
                && !trust.scoped("identity_write"@) && trust.subject_view()
                != identity::soul_owner(Some(req.title@)) ==> flow::forbids(g)
            &&& hint != Some("project-map"@) && hint != Some("identity"@)
                && "identity/"@.is_prefix_of(req.title@) ==> flow::finds_fault(g)
            &&& plain && req.note_id is Some && !named ==> flow::finds_fault(g)
            &&& plain && named && req.expected_sha256 is Some && a.sha_valid == Some(false)
                ==> flow::finds_fault(g)
            &&& plain && named && mine && req.expected_sha256 is None && (a.note matches Some(
                Ok(_),
            )) ==> g is Fail && g->Fail_0.error is Conflict
            &&& plain && named && mine && hashed && gone && a.indexed == Some(
                Ok::<bool, GradatumError>(true),
            ) ==> g is Fail && g->Fail_0.error is Conflict
            &&& plain && named && mine && req.expected_sha256 is None && gone ==> !(g is Fail
                && g->Fail_0.error is Conflict)
            &&& plain && named && mine && hashed && (a.note matches Some(Ok(_))) ==> !(g is Fail
                && g->Fail_0.error is Conflict)
        }),
{
    reveal_strlit("project-map");
    reveal_strlit("identity");
    assert("project-map"@.len() != "identity"@.len());
}

/// The reply to a write names its job, its note and where to ask for the job.
pub proof fn a_receipt_names_the_job(r: EnqueuedResponseUlid, job: NoteId, id: Seq<char>)
    requires
        receipt(r, job, id),
    ensures
        r.job_id@ == job@,
        r.note_id@ == id,
        r.poll_url@ == "/api/v1/jobs/"@ + r.job_id@ + "/v2"@,
        r.status@ == "queued"@,
{
}

/// The card that a client writes over keeps the features that it has: what is submitted is what the
/// note that is there carries, and nothing where none is there.
pub proof fn a_card_keeps_its_features(
    trust: TrustContext,
    req: VaultWriteRequest,
    fresh: NoteId,
    a: Answers,
)
    requires
        rows::opt_text(req.section_hint) == Some("project-map"@),
        write_checks(trust, req, FeatureWriteAuthority::External, fresh, a) is Pass,
    ensures
        a.roles is Some,
        req.note_id is None ==> a.roles->0@.len() == 0,
        req.note_id is Some ==> (a.note matches Some(Ok(n)) ==> text::views(a.roles->0@)
            == text::views(n.feature_roles@)),
        req.note_id is Some && (a.note matches Some(Err(_))) ==> a.roles->0@.len() == 0,
{
    let roles = text::views(a.roles->0@);
    assert(roles.len() == a.roles->0@.len());
    assert(roles == standing_roles(req, a));
    assert(Seq::<Seq<char>>::empty().len() == 0);
}

}
