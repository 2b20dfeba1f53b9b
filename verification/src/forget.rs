//! Forgetting notes, listing what was forgotten, and taking it back.

use vstd::prelude::*;
use vstd::string::*;

use crate::access;
use crate::door::{self, HttpGate, HttpNext, HttpStop};
use crate::error::{self, GradatumError, Refusal, StatusCode};
use crate::flow::{self, AclOp, Answers, Ask, Denial, Gate, Next, Question, Stop};
use crate::ids::{self, NoteId};
use crate::queue::{
    self, ForgetModel, ForgetScope, ForgetSpec, Job, JobClass, JobModel, JobPriority, JobRecord,
    RecordModel, ScopeModel,
};
use crate::rows::{self, Candidate, ForgottenRow};
use crate::text;
use crate::trust::TrustContext;
use crate::writing;

verus! {

/// Which notes a request is about.
pub type ForgetScopeDto = ForgetScope;

/// A request to forget notes.
#[derive(Debug)]
pub struct VaultForgetRequest {
    pub scope: ForgetScopeDto,
    pub tenant_id: Option<String>,
    /// Whether only to show what would be forgotten.
    pub dry_run: bool,
    /// Exactly the notes that a preview showed, unless nothing is to happen.
    pub confirm_ulids: Vec<String>,
    pub forgotten_by: Option<String>,
}

/// A note that is kept.
#[derive(Debug)]
pub struct ExcludedNote {
    pub ulid: String,
    pub section: String,
    pub reason: String,
}

/// What would be forgotten, and what would be kept.
#[derive(Debug)]
pub struct ForgetPreview {
    pub ulids: Vec<String>,
    pub count: usize,
    pub excluded: Vec<ExcludedNote>,
    pub dry_run: bool,
}

/// The receipt of a job that forgets.
#[derive(Debug)]
pub struct ForgetJobResponse {
    pub job_id: String,
    pub status: String,
    pub poll_url: String,
    pub preview: ForgetPreview,
}

/// The reply to a request to forget.
#[derive(Debug)]
pub enum ForgetReply {
    Preview(ForgetPreview),
    Queued(ForgetJobResponse),
}

/// How the service is set up.
#[derive(Debug)]
pub struct ForgetSettings {
    /// Whether vaults of several tenants are served.
    pub multi_tenant: bool,
    /// How many bytes the name of who forgets may have.
    pub max_forgotten_by: usize,
}

// ── Protected notes ─────────────────────────────────────────────────────────

/// The sections whose notes are never forgotten.
pub const PROTECTED_FORGET: [&'static str; 3] = ["agent-issues", "council", "identity"];

/// Whether the notes of `section` are never forgotten.
pub open spec fn protected(section: Seq<char>) -> bool {
    section == "agent-issues"@ || section == "council"@ || section == "identity"@
}

/// Whether the notes of a section are never forgotten.
pub fn is_protected(section_name: &str) -> (r: bool)
    ensures
        r == protected(section_name@),
{
    text::same(section_name, PROTECTED_FORGET[0]) || text::same(section_name, PROTECTED_FORGET[1])
        || text::same(section_name, PROTECTED_FORGET[2])
}

/// The notes that may be forgotten, in the order in which they were found.
pub open spec fn eligible(candidates: Seq<Candidate>) -> Seq<Candidate> {
    candidates.filter(|c: Candidate| !protected(c.section@))
}

/// The notes that are kept, in the order in which they were found.
pub open spec fn kept(candidates: Seq<Candidate>) -> Seq<Candidate> {
    candidates.filter(|c: Candidate| protected(c.section@))
}

/// The identifiers of notes.
pub open spec fn ulids(candidates: Seq<Candidate>) -> Seq<Seq<char>> {
    candidates.map_values(|c: Candidate| c.ulid@)
}

/// Whether `x` says of the note `c` that it is kept, and why.
pub open spec fn excuses(c: Candidate, x: ExcludedNote) -> bool {
    &&& x.ulid@ == c.ulid@
    &&& x.section@ == c.section@
    &&& x.reason@ == "protected section: "@ + c.section@
}

/// Whether the list says of each note that it is kept, and why.
pub open spec fn excuses_all(candidates: Seq<Candidate>, list: Seq<ExcludedNote>) -> bool {
    &&& list.len() == candidates.len()
    &&& forall|i: int| 0 <= i < list.len() ==> excuses(candidates[i], #[trigger] list[i])
}

/// Parts the notes that may be forgotten from those that are kept.
pub fn partition_candidates(candidates: &Vec<Candidate>) -> (r: (Vec<String>, Vec<ExcludedNote>))
    ensures
        text::views(r.0@) == ulids(eligible(candidates@)),
        excuses_all(kept(candidates@), r.1@),
{
    let ghost go = |c: Candidate| !protected(c.section@);
    let ghost stay = |c: Candidate| protected(c.section@);
    let mut free: Vec<String> = Vec::new();
    let mut excluded: Vec<ExcludedNote> = Vec::new();
    let mut i: usize = 0;
    proof {
        reveal(Seq::filter);
        assert(candidates@.take(0).filter(go) =~= Seq::empty());
        assert(candidates@.take(0).filter(stay) =~= Seq::empty());
        assert(text::views(free@) =~= ulids(candidates@.take(0).filter(go)));
    }
    while i < candidates.len()
        invariant
            i <= candidates@.len(),
            go == (|c: Candidate| !protected(c.section@)),
            stay == (|c: Candidate| protected(c.section@)),
            text::views(free@) == ulids(candidates@.take(i as int).filter(go)),
            excuses_all(candidates@.take(i as int).filter(stay), excluded@),
        decreases candidates@.len() - i,
    {
        let ghost before = free@;
        proof {
            reveal(Seq::filter);
            assert(candidates@.take(i + 1).drop_last() =~= candidates@.take(i as int));
            assert(candidates@.take(i + 1).last() == candidates@[i as int]);
        }
        let c = &candidates[i];
        if is_protected(c.section.as_str()) {
            excluded.push(
                ExcludedNote {
                    ulid: c.ulid.clone(),
                    section: c.section.clone(),
                    reason: text::cat("protected section: ", c.section.as_str()),
                },
            );
        } else {
            free.push(c.ulid.clone());
            assert(text::views(free@) =~= text::views(before).push(c.ulid@));
            assert(ulids(candidates@.take(i + 1).filter(go)) =~= ulids(
                candidates@.take(i as int).filter(go),
            ).push(c.ulid@));
        }
        i = i + 1;
    }
    assert(candidates@.take(candidates@.len() as int) =~= candidates@);
    (free, excluded)
}

// ── The scope ───────────────────────────────────────────────────────────────

/// The first of the vaults that is not `tenant`.
pub open spec fn first_foreign(vaults: Seq<Seq<char>>, tenant: Seq<char>) -> Option<Seq<char>>
    decreases vaults.len(),
{
    if vaults.len() == 0 {
        None
    } else if vaults[0] != tenant {
        Some(vaults[0])
    } else {
        first_foreign(vaults.drop_first(), tenant)
    }
}

/// The first vault of the scope that is not `tenant`, if it names one.
pub open spec fn foreign_vault(scope: ScopeModel, tenant: Seq<char>) -> Option<Seq<char>> {
    match scope {
        ScopeModel::Locus { vault, .. } => if vault != tenant {
            Some(vault)
        } else {
            None
        },
        ScopeModel::Topic { vault, .. } => match vault {
            Some(v) => if v != tenant {
                Some(v)
            } else {
                None
            },
            None => None,
        },
        ScopeModel::Agent { vaults, .. } => first_foreign(vaults, tenant),
    }
}

/// The first vault of the scope that is not the tenant's, if it names one.
pub fn cross_vault_violation<'a>(scope: &'a ForgetScopeDto, tenant_id: &str) -> (r: Option<
    &'a str,
>)
    ensures
        match r {
            Some(v) => foreign_vault(scope@, tenant_id@) == Some(v@),
            None => foreign_vault(scope@, tenant_id@) is None,
        },
{
    match scope {
        ForgetScope::Locus { vault, .. } => if !text::same(vault.as_str(), tenant_id) {
            Some(vault.as_str())
        } else {
            None
        },
        ForgetScope::Topic { vault, .. } => match vault {
            Some(v) => if !text::same(v.as_str(), tenant_id) {
                Some(v.as_str())
            } else {
                None
            },
            None => None,
        },
        ForgetScope::Agent { vaults, .. } => {
            let ghost all = text::views(vaults@);
            let mut i: usize = 0;
            assert(all.skip(0) =~= all);
            while i < vaults.len()
                invariant
                    i <= vaults@.len(),
                    all == text::views(vaults@),
                    foreign_vault(scope@, tenant_id@) == first_foreign(all, tenant_id@),
                    first_foreign(all, tenant_id@) == first_foreign(
                        all.skip(i as int),
                        tenant_id@,
                    ),
                decreases vaults@.len() - i,
            {
                assert(all.skip(i as int)[0] == vaults@[i as int]@);
                assert(all.skip(i as int).drop_first() =~= all.skip(i + 1));
                if !text::same(vaults[i].as_str(), tenant_id) {
                    return Some(vaults[i].as_str());
                }
                i = i + 1;
            }
            None
        },
    }
}

/// The number of vaults of a scope that is about the notes of an agent in more than one.
/// Repeated vaults count.
pub open spec fn many_vaults(scope: ScopeModel) -> Option<nat> {
    match scope {
        ScopeModel::Agent { vaults, .. } => if vaults.len() > 1 {
            Some(vaults.len())
        } else {
            None
        },
        _ => None,
    }
}

/// The number of vaults of a scope that is about the notes of an agent in more than one.
pub fn multi_vault_agent_scope(scope: &ForgetScopeDto) -> (r: Option<usize>)
    ensures
        match r {
            Some(n) => many_vaults(scope@) == Some(n as nat),
            None => many_vaults(scope@) is None,
        },
{
    match scope {
        ForgetScope::Agent { vaults, .. } => if vaults.len() > 1 {
            Some(vaults.len())
        } else {
            None
        },
        _ => None,
    }
}

/// The message about a scope with more than one vault.
pub open spec fn many_vaults_message(count: nat) -> Seq<char> {
    "`ForgetScope::Agent` targets "@ + text::decimal(count)
        + " vaults — a job targets exactly one vault. Post one job per vault (fan-out belongs to the enqueue site). Repeated vaults count."@
}

/// The message about a scope with more than one vault.
pub fn multi_vault_agent_error(count: usize) -> (r: String)
    ensures
        r@ == many_vaults_message(count as nat),
{
    let mut m = text::cat(
        "`ForgetScope::Agent` targets ",
        text::decimal_text(count as u64).as_str(),
    );
    m.append(
        " vaults — a job targets exactly one vault. Post one job per vault (fan-out belongs to the enqueue site). Repeated vaults count.",
    );
    m
}

/// The scope as the job carries it.
pub fn dto_scope_to_core(dto: &ForgetScopeDto) -> (r: ForgetScope)
    ensures
        r@ == dto@,
{
    match dto {
        ForgetScope::Topic { query, vault, limit } => ForgetScope::Topic {
            query: query.clone(),
            vault: rows::copy_opt(vault),
            limit: *limit,
        },
        ForgetScope::Locus { vault, locus } => ForgetScope::Locus {
            vault: vault.clone(),
            locus: locus.clone(),
        },
        ForgetScope::Agent { agent_id, vaults } => ForgetScope::Agent {
            agent_id: agent_id.clone(),
            vaults: rows::copy_list(vaults),
        },
    }
}

/// How many notes a topic finds: fifty unless the request says otherwise, two hundred at most.
pub open spec fn topic_limit(limit: Option<usize>) -> nat {
    match limit {
        Some(n) => if n > 200 {
            200
        } else {
            n as nat
        },
        None => 50,
    }
}

/// The question that finds the notes of a scope; a topic without a vault is searched in `vault`.
pub open spec fn scope_question(scope: ScopeModel, vault: Seq<char>) -> Question {
    match scope {
        ScopeModel::Topic { query, vault: own, limit } => Question::ForgetTopic {
            vault: match own {
                Some(v) => v,
                None => vault,
            },
            query,
            limit: topic_limit(limit),
        },
        ScopeModel::Locus { vault: own, locus } => Question::ForgetLocus { vault: own, locus },
        ScopeModel::Agent { agent_id, vaults } => Question::ForgetAgent { agent_id, vaults },
    }
}

/// The question that finds the notes of a scope.
pub fn resolve_scope(scope: &ForgetScopeDto, vault_id: &str) -> (r: Ask)
    ensures
        r@ == scope_question(scope@, vault_id@),
{
    match scope {
        ForgetScope::Topic { query, vault, limit } => Ask::ForgetTopic {
            vault: match vault {
                Some(v) => v.clone(),
                None => vault_id.to_owned(),
            },
            query: query.clone(),
            limit: match limit {
                Some(n) => if *n > 200 {
                    200
                } else {
                    *n
                },
                None => 50,
            },
        },
        ForgetScope::Locus { vault, locus } => Ask::ForgetLocus {
            vault: vault.clone(),
            locus: locus.clone(),
        },
        ForgetScope::Agent { agent_id, vaults } => Ask::ForgetAgent {
            agent_id: agent_id.clone(),
            vaults: rows::copy_list(vaults),
        },
    }
}

// ── The job ─────────────────────────────────────────────────────────────────

/// The scope with its vault written down: a topic without one gets `vault`.
pub open spec fn stamped(scope: ScopeModel, vault: Seq<char>) -> ScopeModel {
    match scope {
        ScopeModel::Topic { query, vault: None, limit } => ScopeModel::Topic {
            query,
            vault: Some(vault),
            limit,
        },
        _ => scope,
    }
}

/// The job that forgets the confirmed notes of a scope in a vault. It is not tried again.
pub open spec fn forget_job(
    scope: ScopeModel,
    confirm_ulids: Seq<Seq<char>>,
    forgotten_by: Option<Seq<char>>,
    vault: Seq<char>,
    id: NoteId,
    now_ms: i64,
) -> RecordModel {
    queue::pending(
        id,
        JobModel::Forget(
            ForgetModel {
                scope: stamped(scope, vault),
                dry_run: false,
                forgotten_by,
                confirm_ulids,
            },
        ),
        JobClass::Agent,
        vault,
        JobPriority::Normal,
        now_ms,
        0,
        None,
        None,
    )
}

/// Builds the job that forgets the confirmed notes of a scope in a vault.
pub fn build_forget_job_record(
    scope: ForgetScope,
    confirm_ulids: Vec<String>,
    forgotten_by: Option<String>,
    vault_id: &str,
    id: NoteId,
    now_ms: i64,
) -> (r: JobRecord)
    ensures
        r@ == forget_job(
            scope@,
            text::views(confirm_ulids@),
            rows::opt_text(forgotten_by),
            vault_id@,
            id,
            now_ms,
        ),
{
    let scope = match scope {
        ForgetScope::Topic { query, vault: None, limit } => ForgetScope::Topic {
            query,
            vault: Some(vault_id.to_owned()),
            limit,
        },
        other => other,
    };
    JobRecord::demanded(
        id,
        Job::Forget(ForgetSpec { scope, dry_run: false, forgotten_by, confirm_ulids }),
        JobClass::Agent,
        vault_id,
        JobPriority::Normal,
        now_ms,
        0,
        None,
        None,
    )
}

// ── Forgetting ──────────────────────────────────────────────────────────────

/// Who may have notes forgotten.
pub open spec fn forget_right_gate(
    trust: TrustContext,
    req: VaultForgetRequest,
    a: Answers,
) -> Gate {
    writing::change_gate(
        trust,
        rows::opt_text(req.tenant_id),
        a,
        "JWT tenant diverges from body"@,
        "ACL Write denied"@,
    )
}

/// The message about a scope in another vault.
pub open spec fn foreign_message(scope_vault: Seq<char>, tenant: Seq<char>) -> Seq<char> {
    "cross-vault forget not supported in v0.4.x: scope.vault='"@ + scope_vault + "' ≠ tenant_id='"@
        + tenant + "'. Planned for v0.5.1."@
}

/// What is wrong with the form of a request, looked at in this order: a scope in another vault,
/// a scope in more than one, the name of who forgets, and the number of confirmed notes.
pub open spec fn form_error(
    req: VaultForgetRequest,
    vault: Seq<char>,
    st: ForgetSettings,
) -> Option<Refusal> {
    let by = rows::opt_text(req.forgotten_by);
    if foreign_vault(req.scope@, vault) is Some {
        Some(Refusal::Forbidden(foreign_message(foreign_vault(req.scope@, vault)->0, vault)))
    } else if many_vaults(req.scope@) is Some {
        Some(Refusal::InvalidInput(many_vaults_message(many_vaults(req.scope@)->0)))
    } else if by is Some && text::byte_length(by->0) > st.max_forgotten_by {
        Some(
            Refusal::InvalidInput(
                "forgotten_by exceeds bound: maximum "@ + text::decimal(st.max_forgotten_by as nat)
                    + " bytes, received "@ + text::decimal(text::byte_length(by->0)),
            ),
        )
    } else if req.confirm_ulids@.len() > 200 {
        Some(
            Refusal::InvalidInput(
                "confirm_ulids exceeds bound: maximum 200, received "@ + text::decimal(
                    req.confirm_ulids@.len(),
                ),
            ),
        )
    } else {
        None
    }
}

fn check_form(req: &VaultForgetRequest, vault: &str, st: &ForgetSettings) -> (r: Result<
    (),
    GradatumError,
>)
    ensures
        match r {
            Ok(_) => form_error(*req, vault@, *st) is None,
            Err(e) => form_error(*req, vault@, *st) == Some(e@),
        },
{
    if let Some(v) = cross_vault_violation(&req.scope, vault) {
        let mut m = text::cat("cross-vault forget not supported in v0.4.x: scope.vault='", v);
        m.append("' ≠ tenant_id='");
        m.append(vault);
        m.append("'. Planned for v0.5.1.");
        return Err(GradatumError::Forbidden(m));
    }
    if let Some(n) = multi_vault_agent_scope(&req.scope) {
        return Err(GradatumError::InvalidInput(multi_vault_agent_error(n)));
    }
    if let Some(by) = &req.forgotten_by {
        let n: usize = text::byte_len(by.as_str());
        if n > st.max_forgotten_by {
            let mut m = text::cat(
                "forgotten_by exceeds bound: maximum ",
                text::decimal_text(st.max_forgotten_by as u64).as_str(),
            );
            m.append(" bytes, received ");
            m.append(text::decimal_text(n as u64).as_str());
            return Err(GradatumError::InvalidInput(m));
        }
    }
    if req.confirm_ulids.len() > 200 {
        let m = text::cat(
            "confirm_ulids exceeds bound: maximum 200, received ",
            text::decimal_text(req.confirm_ulids.len() as u64).as_str(),
        );
        return Err(GradatumError::InvalidInput(m));
    }
    Ok(())
}

/// Whether the request confirms these notes: each of them as often as it is there, and no other.
pub open spec fn confirmed(req: VaultForgetRequest, candidates: Seq<Candidate>) -> bool {
    ulids(eligible(candidates)).to_multiset() == text::views(req.confirm_ulids@).to_multiset()
}

/// The message about a confirmation that does not confirm.
pub open spec fn unconfirmed(expected: nat, received: nat) -> Seq<char> {
    "confirm_ulids mismatch: expected "@ + text::decimal(expected) + ", got "@ + text::decimal(
        received,
    )
}

/// The notes that were found.
pub open spec fn found(a: Answers) -> Seq<Candidate> {
    a.candidates->0->Ok_0@
}

/// The steps after the form of a request was found right: the notes are found, a dry run ends
/// there, and the job is queued once the notes are confirmed.
pub open spec fn forget_work_gate(
    req: VaultForgetRequest,
    vault: Seq<char>,
    id: NoteId,
    now_ms: i64,
    a: Answers,
) -> Gate {
    match a.candidates {
        None => Gate::Ask(scope_question(req.scope@, vault)),
        Some(Err(_)) => Gate::Fail(flow::silent(Refusal::Storage("scope resolution failed"@))),
        Some(Ok(_)) => if req.dry_run {
            Gate::Pass
        } else if !confirmed(req, found(a)) {
            Gate::Fail(
                flow::silent(
                    Refusal::InvalidInput(
                        unconfirmed(eligible(found(a)).len(), req.confirm_ulids@.len()),
                    ),
                ),
            )
        } else {
            match a.enqueued {
                None => Gate::Ask(
                    Question::Enqueue {
                        record: forget_job(
                            req.scope@,
                            text::views(req.confirm_ulids@),
                            rows::opt_text(req.forgotten_by),
                            vault,
                            id,
                            now_ms,
                        ),
                    },
                ),
                Some(Err(_)) => Gate::Fail(flow::silent(Refusal::Storage("job enqueue failed"@))),
                Some(Ok(_)) => Gate::Pass,
            }
        },
    }
}

/// The first reason not to forget, or the next step.
pub open spec fn forget_gate(
    trust: TrustContext,
    req: VaultForgetRequest,
    st: ForgetSettings,
    id: NoteId,
    now_ms: i64,
    a: Answers,
) -> Gate {
    let vault = writing::vault_of(a);
    flow::chain(
        forget_right_gate(trust, req, a),
        match form_error(req, vault, st) {
            Some(e) => Gate::Fail(flow::silent(e)),
            None => forget_work_gate(req, vault, id, now_ms, a),
        },
    )
}

/// Whether `p` shows what may be forgotten and what is kept.
pub open spec fn previews(p: ForgetPreview, candidates: Seq<Candidate>, dry_run: bool) -> bool {
    &&& text::views(p.ulids@) == ulids(eligible(candidates))
    &&& p.count == p.ulids@.len()
    &&& excuses_all(kept(candidates), p.excluded@)
    &&& p.dry_run == dry_run
}

/// Whether `r` is the reply that is due.
pub open spec fn forget_reply(req: VaultForgetRequest, a: Answers, r: ForgetReply) -> bool {
    match r {
        ForgetReply::Preview(p) => req.dry_run && previews(p, found(a), true),
        ForgetReply::Queued(q) => {
            let job = a.enqueued->0->Ok_0;
            &&& !req.dry_run
            &&& q.job_id@ == job@
            &&& q.status@ == "queued"@
            &&& q.poll_url@ == "/api/v1/jobs/"@ + job@ + "/v2"@
            &&& previews(q.preview, found(a), false)
        },
    }
}

fn forget_work(
    req: &VaultForgetRequest,
    vault: &str,
    id: NoteId,
    now_ms: i64,
    a: &Answers,
) -> (r: Result<ForgetReply, Stop>)
    ensures
        match r {
            Ok(x) => forget_work_gate(*req, vault@, id, now_ms, *a) is Pass && forget_reply(
                *req,
                *a,
                x,
            ),
            Err(s) => forget_work_gate(*req, vault@, id, now_ms, *a) == s@,
        },
{
    let candidates = match &a.candidates {
        None => return Err(Stop::Ask(resolve_scope(&req.scope, vault))),
        Some(Err(_)) => return Err(
            Stop::Fail(
                Denial::plain(GradatumError::Storage("scope resolution failed".to_owned())),
            ),
        ),
        Some(Ok(c)) => c,
    };
    let (free, excluded) = partition_candidates(candidates);
    let count: usize = free.len();
    assert(text::views(free@).len() == eligible(candidates@).len());
    if req.dry_run {
        return Ok(
            ForgetReply::Preview(ForgetPreview { ulids: free, count, excluded, dry_run: true }),
        );
    }
    if !text::same_texts(&free, &req.confirm_ulids) {
        let mut m = text::cat(
            "confirm_ulids mismatch: expected ",
            text::decimal_text(count as u64).as_str(),
        );
        m.append(", got ");
        m.append(text::decimal_text(req.confirm_ulids.len() as u64).as_str());
        return Err(Stop::Fail(Denial::plain(GradatumError::InvalidInput(m))));
    }
    match &a.enqueued {
        None => Err(
            Stop::Ask(
                Ask::Enqueue {
                    record: build_forget_job_record(
                        dto_scope_to_core(&req.scope),
                        rows::copy_list(&req.confirm_ulids),
                        rows::copy_opt(&req.forgotten_by),
                        vault,
                        id,
                        now_ms,
                    ),
                },
            ),
        ),
        Some(Err(_)) => Err(
            Stop::Fail(Denial::plain(GradatumError::Storage("job enqueue failed".to_owned()))),
        ),
        Some(Ok(job)) => {
            let job_id = job.text();
            let mut poll_url = text::cat("/api/v1/jobs/", job_id.as_str());
            poll_url.append("/v2");
            Ok(
                ForgetReply::Queued(
                    ForgetJobResponse {
                        job_id,
                        status: "queued".to_owned(),
                        poll_url,
                        preview: ForgetPreview { ulids: free, count, excluded, dry_run: false },
                    },
                ),
            )
        },
    }
}

/// Shows what would be forgotten, or queues the job that forgets it. `id` is the identifier of
/// the job.
pub fn vault_forget_mcp_impl(
    trust: &TrustContext,
    req: &VaultForgetRequest,
    st: &ForgetSettings,
    id: NoteId,
    now_ms: i64,
    a: &Answers,
) -> (r: Next<ForgetReply>)
    ensures
        flow::follows(r, forget_gate(*trust, *req, *st, id, now_ms, *a)),
        r matches Next::Reply(x) ==> forget_reply(*req, *a, x),
{
    let vault = match writing::enter_change(
        trust,
        &req.tenant_id,
        a,
        "JWT tenant diverges from body",
        "ACL Write denied",
    ) {
        Ok(v) => v,
        Err(s) => return s.next(),
    };
    if let Err(e) = check_form(req, vault.as_str(), st) {
        return Next::Fail(Denial::plain(e));
    }
    match forget_work(req, vault.as_str(), id, now_ms, a) {
        Ok(x) => Next::Reply(x),
        Err(s) => s.next(),
    }
}

// ── The same over HTTP ──────────────────────────────────────────────────────

/// What HTTP answers to a request to forget.
#[derive(Debug)]
pub enum ForgetHttp {
    /// The reply, under 200 for a preview and under 202 for a queued job.
    Reply(StatusCode, ForgetReply),
    /// A refusal that is explained.
    Told(StatusCode, String),
}

/// What HTTP makes of a step: a lack of right and a failure inside are answered with a bare
/// status, a wrong form is explained.
pub open spec fn forget_http_gate(
    trust: TrustContext,
    req: VaultForgetRequest,
    st: ForgetSettings,
    id: NoteId,
    now_ms: i64,
    a: Answers,
) -> HttpGate {
    match forget_gate(trust, req, st, id, now_ms, a) {
        Gate::Ask(q) => HttpGate::Ask(q),
        Gate::Pass => HttpGate::Pass,
        Gate::Fail(d) => if forget_told(trust, req, st, a) {
            HttpGate::Pass
        } else {
            HttpGate::Refuse(error::refusal_status(d.error))
        },
    }
}

/// Whether the refusal is explained: the caller has the right, and the request is wrong.
pub open spec fn forget_told(
    trust: TrustContext,
    req: VaultForgetRequest,
    st: ForgetSettings,
    a: Answers,
) -> bool {
    &&& forget_right_gate(trust, req, a) is Pass
    &&& {
        ||| form_error(req, writing::vault_of(a), st) is Some
        ||| (a.candidates matches Some(c) && c is Ok && !req.dry_run && !confirmed(req, found(a)))
    }
}

/// The message of an explained refusal.
pub open spec fn message_of(e: Refusal) -> Seq<char> {
    match e {
        Refusal::Forbidden(m) => m,
        Refusal::InvalidInput(m) => m,
        _ => ""@,
    }
}

fn told(e: GradatumError) -> (r: ForgetHttp)
    requires
        e@ is Forbidden || e@ is InvalidInput,
    ensures
        r matches ForgetHttp::Told(s, m) && s == error::refusal_status(e@) && m@ == message_of(e@),
{
    let status = error::err_to_status(&e);
    match e {
        GradatumError::Forbidden(m) => ForgetHttp::Told(status, m),
        GradatumError::InvalidInput(m) => ForgetHttp::Told(status, m),
        _ => ForgetHttp::Told(status, "".to_owned()),
    }
}

/// Shows what would be forgotten, or queues the job that forgets it, over HTTP.
pub fn vault_forget(
    trust: &TrustContext,
    req: &VaultForgetRequest,
    st: &ForgetSettings,
    id: NoteId,
    now_ms: i64,
    a: &Answers,
) -> (r: HttpNext<ForgetHttp>)
    ensures
        door::follows(r, forget_http_gate(*trust, *req, *st, id, now_ms, *a)),
        r matches HttpNext::Reply(x) ==> match x {
            ForgetHttp::Reply(s, y) => {
                &&& forget_gate(*trust, *req, *st, id, now_ms, *a) is Pass
                &&& forget_reply(*req, *a, y)
                &&& s == if req.dry_run {
                    StatusCode::Success
                } else {
                    StatusCode::Accepted
                }
            },
            ForgetHttp::Told(s, m) => {
                let g = forget_gate(*trust, *req, *st, id, now_ms, *a);
                &&& g is Fail
                &&& forget_told(*trust, *req, *st, *a)
                &&& s == error::refusal_status(g->Fail_0.error)
                &&& m@ == message_of(g->Fail_0.error)
            },
        },
{
    let vault = match writing::enter_change(
        trust,
        &req.tenant_id,
        a,
        "JWT tenant diverges from body",
        "ACL Write denied",
    ) {
        Ok(v) => v,
        Err(Stop::Ask(q)) => return HttpNext::Ask(q),
        Err(Stop::Fail(d)) => return HttpNext::Refuse(error::err_to_status(&d.error)),
    };
    if let Err(e) = check_form(req, vault.as_str(), st) {
        return HttpNext::Reply(told(e));
    }
    match forget_work(req, vault.as_str(), id, now_ms, a) {
        Ok(x) => {
            let status = if req.dry_run {
                StatusCode::Success
            } else {
                StatusCode::Accepted
            };
            HttpNext::Reply(ForgetHttp::Reply(status, x))
        },
        Err(Stop::Ask(q)) => HttpNext::Ask(q),
        Err(Stop::Fail(d)) => match d.error {
            GradatumError::InvalidInput(m) => HttpNext::Reply(
                told(GradatumError::InvalidInput(m)),
            ),
            e => HttpNext::Refuse(error::err_to_status(&e)),
        },
    }
}

// ── What was forgotten ──────────────────────────────────────────────────────

/// A page of the forgotten notes.
#[derive(Debug)]
pub struct ForgottenListQuery {
    pub limit: usize,
    /// The last note of the page before.
    pub cursor: Option<String>,
}

/// How many forgotten notes a page has when the request does not say.
pub fn default_limit() -> (r: usize)
    ensures
        r == 50,
{
    50
}

/// A forgotten note.
#[derive(Debug)]
pub struct ForgottenNoteEntry {
    pub ulid: String,
    pub title: Option<String>,
    pub section: String,
    pub forgotten_at: Option<i64>,
    pub forgotten_by: Option<String>,
}

/// A page of the forgotten notes.
#[derive(Debug)]
pub struct ForgottenListResponse {
    pub notes: Vec<ForgottenNoteEntry>,
    /// How many notes are forgotten in all.
    pub total: usize,
    pub next_cursor: Option<String>,
}

/// A note that is no longer forgotten.
#[derive(Debug)]
pub struct UnforgotResponse {
    pub ulid: String,
    pub status: String,
}

/// The vault of a caller who names none: `main`, or the tenant of the credential where vaults of
/// several tenants are served.
pub open spec fn own_vault_gate(
    trust: TrustContext,
    multi_tenant: bool,
    op: AclOp,
    write: bool,
    a: Answers,
) -> HttpGate {
    if !trust.authenticated() {
        HttpGate::Refuse(StatusCode::Unauthorized)
    } else if multi_tenant && trust.tenant_view() is None {
        HttpGate::Refuse(StatusCode::Forbidden)
    } else if multi_tenant && write && a.write_vault is None {
        HttpGate::Ask(
            Question::WriteVault {
                requested: trust.tenant_view(),
                deny: writing::TENANT_MISMATCH@,
            },
        )
    } else if multi_tenant && write && a.write_vault->0 is Err {
        HttpGate::Refuse(error::refusal_status(a.write_vault->0->Err_0@))
    } else if multi_tenant && !write && a.tenant is None {
        HttpGate::Ask(Question::Tenant { requested: trust.tenant_view() })
    } else if multi_tenant && !write && a.tenant->0 is None {
        HttpGate::Refuse(StatusCode::Forbidden)
    } else {
        match a.acl {
            None => HttpGate::Ask(
                Question::Acl {
                    op,
                    locus: access::locus_text(own_vault(multi_tenant, write, a), None),
                },
            ),
            Some(false) => HttpGate::Refuse(StatusCode::Forbidden),
            Some(true) => HttpGate::Pass,
        }
    }
}

/// The vault of a caller who names none.
pub open spec fn own_vault(multi_tenant: bool, write: bool, a: Answers) -> Seq<char> {
    if !multi_tenant {
        "main"@
    } else if write {
        a.write_vault->0->Ok_0@
    } else {
        a.tenant->0->0@
    }
}

fn enter_own_vault(
    trust: &TrustContext,
    multi_tenant: bool,
    op: AclOp,
    write: bool,
    a: &Answers,
) -> (r: Result<String, HttpStop>)
    ensures
        match r {
            Ok(v) => own_vault_gate(*trust, multi_tenant, op, write, *a) is Pass && v@
                == own_vault(multi_tenant, write, *a),
            Err(s) => own_vault_gate(*trust, multi_tenant, op, write, *a) == s@,
        },
{
    if !trust.is_authenticated() {
        return Err(HttpStop::Refuse(StatusCode::Unauthorized));
    }
    let vault = if !multi_tenant {
        "main".to_owned()
    } else {
        let requested = trust.tenant_text();
        if requested.is_none() {
            return Err(HttpStop::Refuse(StatusCode::Forbidden));
        }
        if write {
            match &a.write_vault {
                None => return Err(
                    HttpStop::Ask(
                        Ask::WriteVault { requested, deny: writing::TENANT_MISMATCH.to_owned() },
                    ),
                ),
                Some(Err(e)) => return Err(HttpStop::Refuse(error::err_to_status(e))),
                Some(Ok(v)) => v.clone(),
            }
        } else {
            match &a.tenant {
                None => return Err(HttpStop::Ask(Ask::Tenant { requested })),
                Some(None) => return Err(HttpStop::Refuse(StatusCode::Forbidden)),
                Some(Some(t)) => t.clone(),
            }
        }
    };
    match a.acl {
        None => Err(
            HttpStop::Ask(Ask::Acl { op, locus: access::locus_for_tenant(vault.as_str()) }),
        ),
        Some(false) => Err(HttpStop::Refuse(StatusCode::Forbidden)),
        Some(true) => Ok(vault),
    }
}

/// How many forgotten notes a page has: from one to five hundred.
pub open spec fn page_size(limit: usize) -> nat {
    if limit < 1 {
        1
    } else if limit > 500 {
        500
    } else {
        limit as nat
    }
}

/// The first reason not to list the forgotten notes, or the next question about them.
pub open spec fn forgotten_gate(
    trust: TrustContext,
    q: ForgottenListQuery,
    st: ForgetSettings,
    a: Answers,
) -> HttpGate {
    let v = own_vault(st.multi_tenant, false, a);
    door::chain(
        own_vault_gate(trust, st.multi_tenant, AclOp::Read, false, a),
        match a.forgotten {
            None => HttpGate::Ask(
                Question::ListForgotten {
                    vault: v,
                    limit: page_size(q.limit),
                    cursor: rows::opt_text(q.cursor),
                },
            ),
            Some(Err(_)) => HttpGate::Refuse(StatusCode::InternalServerError),
            Some(Ok(_)) => match a.forgotten_count {
                None => HttpGate::Ask(Question::CountForgotten { vault: v }),
                Some(_) => HttpGate::Pass,
            },
        },
    )
}

/// Whether `e` shows the forgotten note `row`.
pub open spec fn shows(row: ForgottenRow, e: ForgottenNoteEntry) -> bool {
    &&& e.ulid@ == row.ulid@
    &&& e.title == row.title
    &&& e.section@ == row.section@
    &&& e.forgotten_at == row.forgotten_at_ms
    &&& e.forgotten_by == row.forgotten_by
}

/// Whether `r` is the page: at most as many notes as it holds, and the last of them where the
/// next page begins when there are more. The total falls back on the size of the page.
pub open spec fn forgotten_page(
    rows: Seq<ForgottenRow>,
    limit: nat,
    count: Result<usize, GradatumError>,
    r: ForgottenListResponse,
) -> bool {
    let n = if rows.len() > limit {
        limit
    } else {
        rows.len()
    };
    &&& r.notes@.len() == n
    &&& forall|i: int| 0 <= i < n ==> shows(rows[i], #[trigger] r.notes@[i])
    &&& rows::opt_text(r.next_cursor) == if rows.len() > limit {
        Some(rows[n - 1].ulid@)
    } else {
        None
    }
    &&& r.total == match count {
        Ok(c) => c as nat,
        Err(_) => n,
    }
}

/// Lists the forgotten notes, page by page.
pub fn vault_forgotten_list(
    trust: &TrustContext,
    q: &ForgottenListQuery,
    st: &ForgetSettings,
    a: &Answers,
) -> (r: HttpNext<ForgottenListResponse>)
    ensures
        door::follows(r, forgotten_gate(*trust, *q, *st, *a)),
        r matches HttpNext::Reply(x) ==> forgotten_page(
            a.forgotten->0->Ok_0@,
            page_size(q.limit),
            a.forgotten_count->0,
            x,
        ),
{
    let vault = match enter_own_vault(trust, st.multi_tenant, AclOp::Read, false, a) {
        Ok(v) => v,
        Err(s) => return s.next(),
    };
    let limit: usize = if q.limit < 1 {
        1
    } else if q.limit > 500 {
        500
    } else {
        q.limit
    };
    let rows = match &a.forgotten {
        None => return HttpNext::Ask(
            Ask::ListForgotten { vault, limit, cursor: rows::copy_opt(&q.cursor) },
        ),
        Some(Err(_)) => return HttpNext::Refuse(StatusCode::InternalServerError),
        Some(Ok(rows)) => rows,
    };
    let count = match &a.forgotten_count {
        None => return HttpNext::Ask(Ask::CountForgotten { vault }),
        Some(c) => c,
    };
    let more = rows.len() > limit;
    let n: usize = if more {
        limit
    } else {
        rows.len()
    };
    let mut notes: Vec<ForgottenNoteEntry> = Vec::new();
    let mut i: usize = 0;
    while i < n
        invariant
            i <= n <= rows@.len(),
            notes@.len() == i,
            forall|k: int| 0 <= k < i ==> shows(rows@[k], #[trigger] notes@[k]),
        decreases n - i,
    {
        let row = &rows[i];
        notes.push(
            ForgottenNoteEntry {
                ulid: row.ulid.clone(),
                title: rows::copy_opt(&row.title),
                section: row.section.clone(),
                forgotten_at: row.forgotten_at_ms,
                forgotten_by: rows::copy_opt(&row.forgotten_by),
            },
        );
        i = i + 1;
    }
    let next_cursor = if more {
        Some(rows[n - 1].ulid.clone())
    } else {
        None
    };
    let total: usize = match count {
        Ok(c) => *c,
        Err(_) => n,
    };
    HttpNext::Reply(ForgottenListResponse { notes, total, next_cursor })
}

/// Whether a text is a ULID; anything else is refused.
pub fn parse_ulid(s: &str) -> (r: Result<NoteId, StatusCode>)
    ensures
        match r {
            Ok(id) => ids::is_ulid(s@) && id.value as nat == ids::base32_value(s@),
            Err(e) => !ids::is_ulid(s@) && e == StatusCode::BadRequest,
        },
{
    match NoteId::parse(s) {
        Some(id) => Ok(id),
        None => Err(StatusCode::BadRequest),
    }
}

/// The first reason not to take a forgetting back, or the step that does.
pub open spec fn unforgot_gate(
    trust: TrustContext,
    ulid: Seq<char>,
    st: ForgetSettings,
    a: Answers,
) -> HttpGate {
    door::chain(
        own_vault_gate(trust, st.multi_tenant, AclOp::Write, true, a),
        if !ids::is_ulid(ulid) {
            HttpGate::Refuse(StatusCode::BadRequest)
        } else {
            match a.done {
                None => HttpGate::Ask(
                    Question::Unforget { vault: own_vault(st.multi_tenant, true, a), id: ulid },
                ),
                Some(Err(e)) => HttpGate::Refuse(
                    if e@ is NoteNotFound {
                        StatusCode::NotFound
                    } else {
                        StatusCode::InternalServerError
                    },
                ),
                Some(Ok(_)) => HttpGate::Pass,
            }
        },
    )
}

/// Takes back that a note was forgotten.
pub fn vault_unforgot(
    trust: &TrustContext,
    ulid_str: &str,
    st: &ForgetSettings,
    a: &Answers,
) -> (r: HttpNext<UnforgotResponse>)
    ensures
        door::follows(r, unforgot_gate(*trust, ulid_str@, *st, *a)),
        r matches HttpNext::Reply(x) ==> x.ulid@ == ulid_str@ && x.status@ == "restored"@,
{
    let vault = match enter_own_vault(trust, st.multi_tenant, AclOp::Write, true, a) {
        Ok(v) => v,
        Err(s) => return s.next(),
    };
    if let Err(s) = parse_ulid(ulid_str) {
        return HttpNext::Refuse(s);
    }
    match &a.done {
        None => HttpNext::Ask(Ask::Unforget { vault, id: ulid_str.to_owned() }),
        Some(Err(e)) => match e {
            GradatumError::NoteNotFound(_) => HttpNext::Refuse(StatusCode::NotFound),
            _ => HttpNext::Refuse(StatusCode::InternalServerError),
        },
        Some(Ok(_)) => HttpNext::Reply(
            UnforgotResponse { ulid: ulid_str.to_owned(), status: "restored".to_owned() },
        ),
    }
}

// ── Laws ────────────────────────────────────────────────────────────────────

/// The two doors agree: they ask the same questions, and one refuses when the other does, for
/// the same reason.
pub proof fn the_two_doors_agree(
    trust: TrustContext,
    req: VaultForgetRequest,
    st: ForgetSettings,
    id: NoteId,
    now_ms: i64,
    a: Answers,
)
    ensures
        ({
            let tool = forget_gate(trust, req, st, id, now_ms, a);
            let http = forget_http_gate(trust, req, st, id, now_ms, a);
            &&& forall|q: Question| tool == Gate::Ask(q) <==> http == HttpGate::Ask(q)
            &&& tool is Pass ==> http is Pass && !forget_told(trust, req, st, a)
            &&& http matches HttpGate::Refuse(s) ==> tool is Fail && s == error::refusal_status(
                tool->Fail_0.error,
            )
            &&& http is Pass ==> tool is Pass || (tool is Fail && forget_told(trust, req, st, a))
        }),
{
    let tool = forget_gate(trust, req, st, id, now_ms, a);
    if tool is Pass {
        assert(!forget_told(trust, req, st, a));
    }
}

/// Nothing is queued unless exactly the notes of a preview are confirmed, and never a dry run.
pub proof fn forgetting_needs_the_exact_confirmation(
    trust: TrustContext,
    req: VaultForgetRequest,
    st: ForgetSettings,
    id: NoteId,
    now_ms: i64,
    a: Answers,
)
    requires
        forget_gate(trust, req, st, id, now_ms, a) is Ask,
        forget_gate(trust, req, st, id, now_ms, a)->Ask_0 is Enqueue,
    ensures
        trust.authenticated(),
        a.acl == Some(true),
        !req.dry_run,
        confirmed(req, found(a)),
        form_error(req, writing::vault_of(a), st) is None,
{
}

/// The job works on the vault of the caller, whatever the scope says: the vault of the job is
/// that of the caller, and so is every vault that its scope names.
pub proof fn forget_job_stays_in_the_vault(
    trust: TrustContext,
    req: VaultForgetRequest,
    st: ForgetSettings,
    id: NoteId,
    now_ms: i64,
    a: Answers,
)
    requires
        forget_gate(trust, req, st, id, now_ms, a) is Ask,
        forget_gate(trust, req, st, id, now_ms, a)->Ask_0 is Enqueue,
    ensures
        ({
            let record = forget_gate(trust, req, st, id, now_ms, a)->Ask_0->Enqueue_record;
            let v = writing::vault_of(a);
            &&& record.vault == v
            &&& record.kind is Forget
            &&& match record.kind->Forget_0.scope {
                ScopeModel::Topic { vault, .. } => vault == Some(v),
                ScopeModel::Locus { vault, .. } => vault == v,
                ScopeModel::Agent { vaults, .. } => vaults.len() <= 1 && (vaults.len() == 1
                    ==> vaults[0] == v),
            }
        }),
{
}

/// Every note that is found is either shown as one that may be forgotten or as one that is
/// kept, and no protected note is among the first.
pub proof fn partition_loses_nothing(candidates: Seq<Candidate>)
    ensures
        eligible(candidates).len() + kept(candidates).len() == candidates.len(),
        forall|i: int|
            0 <= i < eligible(candidates).len() ==> !protected(
                (#[trigger] eligible(candidates)[i]).section@,
            ),
        forall|i: int|
            0 <= i < kept(candidates).len() ==> protected(
                (#[trigger] kept(candidates)[i]).section@,
            ),
    decreases candidates.len(),
{
    reveal(Seq::filter);
    if candidates.len() > 0 {
        partition_loses_nothing(candidates.drop_last());
    }
}

/// What is never forgotten: issues of agents, the council and souls.
pub proof fn these_sections_are_never_forgotten(section: Seq<char>)
    ensures
        protected("agent-issues"@),
        protected("council"@),
        protected("identity"@),
        protected(section) ==> section == "agent-issues"@ || section == "council"@ || section
            == "identity"@,
{
}

/// What is to be forgotten is looked for as the scope says: by its words, within its bound, by its
/// locus or by its agent, in the vault that it names or else in the caller's own.
pub proof fn what_is_forgotten_is_in_scope(
    trust: TrustContext,
    req: VaultForgetRequest,
    st: ForgetSettings,
    id: NoteId,
    now_ms: i64,
    a: Answers,
)
    ensures
        forget_gate(trust, req, st, id, now_ms, a) matches Gate::Ask(q) ==> match q {
            Question::ForgetTopic { vault, query, limit } => match req.scope@ {
                ScopeModel::Topic { query: words, vault: named, limit: wanted } => {
                    &&& writing::own(trust, a, vault)
                    &&& named is Some ==> named == Some(vault)
                    &&& query == words
                    &&& limit <= 200
                    &&& wanted is None ==> limit == 50
                    &&& wanted matches Some(n) ==> (n <= 200 ==> limit == n) && (n > 200 ==> limit
                        == 200)
                },
                _ => false,
            },
            Question::ForgetLocus { vault, locus } => writing::own(trust, a, vault) && req.scope@
                == (ScopeModel::Locus { vault, locus }),
            Question::ForgetAgent { agent_id, vaults } => req.scope@ == (ScopeModel::Agent {
                agent_id,
                vaults,
            }),
            Question::Enqueue { record } => {
                &&& writing::own(trust, a, record.vault)
                &&& record.id == id
                &&& record.class == JobClass::Agent
                &&& record.priority == JobPriority::Normal
                &&& record.created_at_ms == now_ms && record.scheduled_at_ms == now_ms
                &&& record.max == 0 && record.triggered_by is None
                &&& record.kind matches JobModel::Forget(spec) && {
                    &&& !spec.dry_run
                    &&& spec.forgotten_by == rows::opt_text(req.forgotten_by)
                    &&& spec.confirm_ulids.len() == req.confirm_ulids@.len()
                    &&& forall|i: int|
                        0 <= i < spec.confirm_ulids.len() ==> (#[trigger] spec.confirm_ulids[i])
                            == req.confirm_ulids@[i]@
                    &&& match req.scope@ {
                        ScopeModel::Topic { query, limit, .. } => spec.scope
                            == (ScopeModel::Topic { query, vault: Some(record.vault), limit }),
                        other => spec.scope == other,
                    }
                }
            },
            _ => writing::asks_to_write(q, rows::opt_text(req.tenant_id), a),
        },
{
}

/// A request to forget is refused for cause only, and for the cause that it has.
pub proof fn forgetting_is_refused_for_cause(
    trust: TrustContext,
    req: VaultForgetRequest,
    st: ForgetSettings,
    id: NoteId,
    now_ms: i64,
    a: Answers,
)
    ensures
        ({
            let g = forget_gate(trust, req, st, id, now_ms, a);
            let v = a.write_vault->0->Ok_0@;
            let entered = trust.authenticated() && (a.write_vault matches Some(Ok(_))) && a.acl
                == Some(true);
            let elsewhere = match req.scope@ {
                ScopeModel::Topic { vault, .. } => vault is Some && vault->0 != v,
                ScopeModel::Locus { vault, .. } => vault != v,
                ScopeModel::Agent { vaults, .. } => exists|i: int|
                    0 <= i < vaults.len() && (#[trigger] vaults[i]) != v,
            };
            let many = req.scope@ matches ScopeModel::Agent { vaults, .. } && vaults.len() > 1;
            let long = req.forgotten_by is Some && text::byte_length(req.forgotten_by->0@)
                > st.max_forgotten_by;
            let formed = !elsewhere && !many && !long && req.confirm_ulids@.len() <= 200;
            &&& writing::guards_writing(g, trust, a)
            &&& entered && elsewhere ==> flow::forbids(g)
            &&& entered && !elsewhere && !formed ==> flow::finds_fault(g)
            &&& entered && formed ==> match a.candidates {
                None => g is Ask && (g->Ask_0 is ForgetTopic || g->Ask_0 is ForgetLocus
                    || g->Ask_0 is ForgetAgent),
                Some(Err(_)) => g is Fail && g->Fail_0.error is Storage,
                Some(Ok(found)) => if req.dry_run {
                    g is Pass
                } else if !confirmed(req, found@) {
                    flow::finds_fault(g)
                } else {
                    match a.enqueued {
                        None => g is Ask && g->Ask_0 is Enqueue,
                        Some(Err(_)) => g is Fail && g->Fail_0.error is Storage,
                        Some(Ok(_)) => g is Pass,
                    }
                },
            }
        }),
{
    if let ScopeModel::Agent { vaults, .. } = req.scope@ {
        lemma_first_foreign(vaults, writing::vault_of(a));
    }
}

proof fn lemma_first_foreign(vaults: Seq<Seq<char>>, tenant: Seq<char>)
    ensures
        first_foreign(vaults, tenant) is Some <==> exists|i: int|
            0 <= i < vaults.len() && (#[trigger] vaults[i]) != tenant,
    decreases vaults.len(),
{
    if vaults.len() > 0 {
        let rest = vaults.drop_first();
        lemma_first_foreign(rest, tenant);
        if first_foreign(rest, tenant) is Some {
            let i = choose|i: int| 0 <= i < rest.len() && (#[trigger] rest[i]) != tenant;
            assert(vaults[i + 1] == rest[i]);
        }
        if exists|i: int| 0 <= i < vaults.len() && (#[trigger] vaults[i]) != tenant {
            let i = choose|i: int| 0 <= i < vaults.len() && (#[trigger] vaults[i]) != tenant;
            if i > 0 {
                assert(rest[i - 1] == vaults[i]);
            }
        }
    }
}

/// A confirmation names each note that may be forgotten as often as it was found, and no other;
/// in which order does not matter.
pub proof fn a_confirmation_names_what_was_found(
    req: VaultForgetRequest,
    candidates: Seq<Candidate>,
    i: int,
)
    ensures
        confirmed(req, candidates) ==> req.confirm_ulids@.len() == eligible(candidates).len(),
        confirmed(req, candidates) && 0 <= i < eligible(candidates).len() ==> text::views(
            req.confirm_ulids@,
        ).contains(eligible(candidates)[i].ulid@),
        confirmed(req, candidates) && 0 <= i < req.confirm_ulids@.len() ==> ulids(
            eligible(candidates),
        ).contains(req.confirm_ulids@[i]@),
        req.confirm_ulids@.len() == eligible(candidates).len() && (forall|k: int|
            0 <= k < eligible(candidates).len() ==> (#[trigger] req.confirm_ulids@[k])@ == eligible(
                candidates,
            )[k].ulid@) ==> confirmed(req, candidates),
{
    broadcast use vstd::seq_lib::group_to_multiset_ensures;

    let want = ulids(eligible(candidates));
    let have = text::views(req.confirm_ulids@);
    if confirmed(req, candidates) {
        assert(want.to_multiset().len() == want.len());
        assert(have.to_multiset().len() == have.len());
        if 0 <= i < want.len() {
            assert(want.contains(want[i]));
            assert(have.to_multiset().count(want[i]) > 0);
            assert(want[i] == eligible(candidates)[i].ulid@);
        }
        if 0 <= i < have.len() {
            assert(have.contains(have[i]));
            assert(want.to_multiset().count(have[i]) > 0);
            assert(have[i] == req.confirm_ulids@[i]@);
        }
    }
    if req.confirm_ulids@.len() == eligible(candidates).len() && forall|k: int|
        0 <= k < eligible(candidates).len() ==> (#[trigger] req.confirm_ulids@[k])@ == eligible(
            candidates,
        )[k].ulid@ {
        assert(want =~= have);
    }
}

/// Every note that was found is named in the preview: among those that may be forgotten, or among
/// those that are kept, with their section.
pub proof fn a_preview_names_every_note(
    p: ForgetPreview,
    candidates: Seq<Candidate>,
    dry_run: bool,
    k: int,
)
    requires
        previews(p, candidates, dry_run),
        0 <= k < candidates.len(),
    ensures
        p.count == p.ulids@.len(),
        p.ulids@.len() + p.excluded@.len() == candidates.len(),
        p.dry_run == dry_run,
        !protected(candidates[k].section@) ==> text::views(p.ulids@).contains(candidates[k].ulid@),
        protected(candidates[k].section@) ==> exists|i: int|
            0 <= i < p.excluded@.len() && (#[trigger] p.excluded@[i]).ulid@ == candidates[k].ulid@
                && p.excluded@[i].section@ == candidates[k].section@,
{
    partition_loses_nothing(candidates);
    assert(text::views(p.ulids@).len() == p.ulids@.len());
    if protected(candidates[k].section@) {
        let keep = |c: Candidate| protected(c.section@);
        assert(keep(candidates[k]));
        candidates.lemma_filter_contains(keep, k);
        let i = choose|i: int| 0 <= i < kept(candidates).len() && kept(candidates)[i]
            == candidates[k];
        assert(excuses(kept(candidates)[i], p.excluded@[i]));
    } else {
        let open = |c: Candidate| !protected(c.section@);
        assert(open(candidates[k]));
        candidates.lemma_filter_contains(open, k);
        let i = choose|i: int|
            0 <= i < eligible(candidates).len() && eligible(candidates)[i] == candidates[k];
        assert(ulids(eligible(candidates))[i] == candidates[k].ulid@);
    }
}

/// A dry run previews; anything else tells of the job that was queued and where to ask for it.
pub proof fn forgetting_tells_of_its_job(req: VaultForgetRequest, a: Answers, r: ForgetReply)
    requires
        forget_reply(req, a, r),
    ensures
        r is Preview <==> req.dry_run,
        r matches ForgetReply::Preview(p) ==> previews(p, a.candidates->0->Ok_0@, true),
        r matches ForgetReply::Queued(q) ==> previews(q.preview, a.candidates->0->Ok_0@, false)
            && q.job_id@ == a.enqueued->0->Ok_0@ && q.poll_url@ == "/api/v1/jobs/"@ + q.job_id@
            + "/v2"@,
{
}

/// The forgotten notes that are listed are those of the caller's own vault, from where and as many
/// as the request says.
pub proof fn the_forgotten_are_listed_as_asked(
    trust: TrustContext,
    q: ForgottenListQuery,
    st: ForgetSettings,
    a: Answers,
)
    ensures
        forgotten_gate(trust, q, st, a) matches HttpGate::Ask(x) ==> match x {
            Question::Tenant { requested } => st.multi_tenant && requested == trust.tenant_view()
                && requested is Some,
            Question::Acl { op, locus } => op == AclOp::Read && locus == reads(st, a) + "/main"@,
            Question::ListForgotten { vault, limit, cursor } => {
                &&& a.acl == Some(true) && vault == reads(st, a)
                &&& cursor == rows::opt_text(q.cursor)
                &&& 1 <= limit <= 500
                &&& 1 <= q.limit <= 500 ==> limit == q.limit
            },
            Question::CountForgotten { vault } => a.acl == Some(true) && vault == reads(st, a),
            _ => false,
        },
        ({
            let g = forgotten_gate(trust, q, st, a);
            let known = trust.authenticated() && (st.multi_tenant ==> trust.tenant_view() is Some
                && (a.tenant matches Some(Some(_))));
            &&& !trust.authenticated() ==> g == HttpGate::Refuse(StatusCode::Unauthorized)
            &&& trust.authenticated() && st.multi_tenant && trust.tenant_view() is None ==> g
                == HttpGate::Refuse(StatusCode::Forbidden)
            &&& known && a.acl == Some(false) ==> g == HttpGate::Refuse(StatusCode::Forbidden)
            &&& known && a.acl == Some(true) ==> match a.forgotten {
                None => g is Ask && g->Ask_0 is ListForgotten,
                Some(Err(_)) => g == HttpGate::Refuse(StatusCode::InternalServerError),
                Some(Ok(_)) => if a.forgotten_count is None {
                    g is Ask && g->Ask_0 is CountForgotten
                } else {
                    g is Pass
                },
            }
        }),
{
}

/// The vault that the caller reads: the own one where there are several, else the only one.
pub open spec fn reads(st: ForgetSettings, a: Answers) -> Seq<char> {
    if st.multi_tenant {
        a.tenant->0->0@
    } else {
        "main"@
    }
}

/// A page of forgotten notes shows them as they were found, and names the last one shown only when
/// there are more.
pub proof fn a_page_of_the_forgotten(
    found: Seq<ForgottenRow>,
    limit: nat,
    count: Result<usize, GradatumError>,
    r: ForgottenListResponse,
    i: int,
)
    requires
        forgotten_page(found, limit, count, r),
        limit > 0,
    ensures
        r.notes@.len() <= limit,
        found.len() <= limit ==> r.notes@.len() == found.len() && r.next_cursor is None,
        found.len() > limit ==> r.notes@.len() == limit && rows::opt_text(r.next_cursor) == Some(
            r.notes@[r.notes@.len() - 1].ulid@,
        ),
        count matches Ok(c) ==> r.total == c,
        count is Err ==> r.total == r.notes@.len(),
        0 <= i < r.notes@.len() ==> {
            &&& r.notes@[i].ulid@ == found[i].ulid@
            &&& r.notes@[i].title == found[i].title
            &&& r.notes@[i].section@ == found[i].section@
            &&& r.notes@[i].forgotten_at == found[i].forgotten_at_ms
            &&& r.notes@[i].forgotten_by == found[i].forgotten_by
        },
{
    if 0 <= i < r.notes@.len() {
        assert(shows(found[i], r.notes@[i]));
    }
    if found.len() > limit {
        assert(shows(found[limit - 1], r.notes@[limit - 1]));
    }
}

/// A note is brought back from among the forgotten in the vault that the caller may write.
pub proof fn the_note_asked_for_is_brought_back(
    trust: TrustContext,
    ulid: Seq<char>,
    st: ForgetSettings,
    a: Answers,
)
    ensures
        ({
            let g = unforgot_gate(trust, ulid, st, a);
            let v = if st.multi_tenant {
                a.write_vault->0->Ok_0@
            } else {
                "main"@
            };
            let known = trust.authenticated() && (st.multi_tenant ==> trust.tenant_view() is Some
                && (a.write_vault matches Some(Ok(_))));
            &&& g matches HttpGate::Ask(q) ==> match q {
                Question::WriteVault { requested, .. } => st.multi_tenant && requested
                    == trust.tenant_view() && requested is Some,
                Question::Acl { op, locus } => op == AclOp::Write && locus == v + "/main"@,
                Question::Unforget { vault, id } => a.acl == Some(true) && vault == v && id == ulid,
                _ => false,
            }
            &&& !trust.authenticated() ==> g == HttpGate::Refuse(StatusCode::Unauthorized)
            &&& trust.authenticated() && st.multi_tenant && trust.tenant_view() is None ==> g
                == HttpGate::Refuse(StatusCode::Forbidden)
            &&& known && a.acl == Some(false) ==> g == HttpGate::Refuse(StatusCode::Forbidden)
            &&& known && a.acl == Some(true) && !ids::is_ulid(ulid) ==> g == HttpGate::Refuse(
                StatusCode::BadRequest,
            )
            &&& known && a.acl == Some(true) && ids::is_ulid(ulid) ==> match a.done {
                None => g is Ask && g->Ask_0 is Unforget,
                Some(Err(e)) => g is Refuse && (e@ is NoteNotFound <==> g->Refuse_0
                    == StatusCode::NotFound),
                Some(Ok(_)) => g is Pass,
            }
        }),
{
}

/// What a caller is told of a refusal are its own words.
pub proof fn a_refusal_is_told_in_its_words(e: Refusal)
    ensures
        e matches Refusal::Forbidden(m) ==> message_of(e) == m,
        e matches Refusal::InvalidInput(m) ==> message_of(e) == m,
{
}

}
