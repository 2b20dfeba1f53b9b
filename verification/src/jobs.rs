//! The jobs of the queue: looking at them, creating them, cancelling them, following them.

use vstd::prelude::*;
use vstd::string::*;

use crate::door::{self, HttpGate, HttpNext, HttpStop};
use crate::dto::JobStatusResponse;
use crate::error::{self, StatusCode};
use crate::flow::{AclOp, Answers, Ask, Question};
use crate::ids::{self, Moment, NoteId};
use crate::queue::{
    self, Backoff, FilterModel, ForgetScope, ForgetSpec, Job, JobClass, JobFilter, JobModel,
    JobOrder, JobPriority, JobRecord, JobStatus, RecordModel, ScopeModel,
};
use crate::rows;
use crate::text;
use crate::trust::TrustContext;

verus! {

/// How the service is set up.
#[derive(Debug)]
pub struct JobsSettings {
    /// Whether vaults of several tenants are served.
    pub multi_tenant: bool,
    /// Whether keys of created jobs can be kept.
    pub keeps_keys: bool,
}

/// The vault whose jobs these are.
pub fn target_vault() -> (r: String)
    ensures
        r@ == "main"@,
{
    "main".to_owned()
}

/// The locus of jobs.
pub fn jobs_locus() -> (r: String)
    ensures
        r@ == "main/jobs"@,
{
    "main/jobs".to_owned()
}

/// Whose jobs the caller sees: everyone's, or those of its own tenant where vaults of several
/// tenants are served; a caller without a tenant then sees none.
pub open spec fn tenant_filter(trust: TrustContext, st: JobsSettings) -> Result<
    Option<Seq<char>>,
    StatusCode,
> {
    if !st.multi_tenant {
        Ok(None)
    } else if trust.tenant_view() is None {
        Err(StatusCode::Forbidden)
    } else {
        Ok(trust.tenant_view())
    }
}

/// Whose jobs the caller sees.
pub fn job_tenant_filter(trust: &TrustContext, st: &JobsSettings) -> (r: Result<
    Option<String>,
    StatusCode,
>)
    ensures
        match r {
            Ok(t) => tenant_filter(*trust, *st) == Ok::<Option<Seq<char>>, StatusCode>(
                rows::opt_text(t),
            ),
            Err(s) => tenant_filter(*trust, *st) == Err::<Option<Seq<char>>, StatusCode>(s),
        },
{
    if !st.multi_tenant {
        return Ok(None);
    }
    match trust.tenant_id() {
        Some(t) => Ok(Some(t.clone())),
        None => Err(StatusCode::Forbidden),
    }
}

// ── Parameters ──────────────────────────────────────────────────────────────

/// The order that a text names, in whatever case.
pub open spec fn order_named(s: Seq<char>) -> Option<JobOrder> {
    let l = text::lowercase(s);
    if l == "asc"@ {
        Some(JobOrder::CreatedAsc)
    } else if l == "desc"@ {
        Some(JobOrder::CreatedDesc)
    } else {
        None
    }
}

/// The order that a text names.
pub fn parse_order(s: &str) -> (r: Option<JobOrder>)
    ensures
        r == order_named(s@),
{
    let l = text::to_lowercase(s);
    if text::same(l.as_str(), "asc") {
        Some(JobOrder::CreatedAsc)
    } else if text::same(l.as_str(), "desc") {
        Some(JobOrder::CreatedDesc)
    } else {
        None
    }
}

/// The state that a text names, in whatever case.
pub open spec fn status_named(s: Seq<char>) -> Option<JobStatus> {
    let l = text::lowercase(s);
    if l == "pending"@ {
        Some(JobStatus::Pending)
    } else if l == "running"@ {
        Some(JobStatus::Running)
    } else if l == "waiting"@ {
        Some(JobStatus::Waiting)
    } else if l == "done"@ {
        Some(JobStatus::Done)
    } else if l == "failed"@ {
        Some(JobStatus::Failed)
    } else if l == "dlq"@ {
        Some(JobStatus::DLQ)
    } else if l == "cancelled"@ || l == "canceled"@ {
        Some(JobStatus::Cancelled)
    } else {
        None
    }
}

/// The state that a text names.
pub fn parse_status(s: &str) -> (r: Option<JobStatus>)
    ensures
        r == status_named(s@),
{
    let l = text::to_lowercase(s);
    let l = l.as_str();
    if text::same(l, "pending") {
        Some(JobStatus::Pending)
    } else if text::same(l, "running") {
        Some(JobStatus::Running)
    } else if text::same(l, "waiting") {
        Some(JobStatus::Waiting)
    } else if text::same(l, "done") {
        Some(JobStatus::Done)
    } else if text::same(l, "failed") {
        Some(JobStatus::Failed)
    } else if text::same(l, "dlq") {
        Some(JobStatus::DLQ)
    } else if text::same(l, "cancelled") || text::same(l, "canceled") {
        Some(JobStatus::Cancelled)
    } else {
        None
    }
}

/// The moment that an optional text writes: none without a text, an error for a text that writes
/// none.
pub open spec fn opt_moment(o: Option<Seq<char>>) -> Result<Option<Moment>, ()> {
    match o {
        None => Ok(None),
        Some(s) => match ids::moment(ids::utc_moment(s)) {
            Some(m) => Ok(Some(m)),
            None => Err(()),
        },
    }
}

/// The moment that an optional text writes.
pub fn parse_opt_rfc3339(opt: &Option<String>) -> (r: Result<Option<Moment>, ()>)
    ensures
        r == opt_moment(rows::opt_text(*opt)),
{
    match opt {
        None => Ok(None),
        Some(s) => match ids::moment_of(ids::utc_moment_parts(s.as_str())) {
            Some(m) => Ok(Some(m)),
            None => Err(()),
        },
    }
}

/// The parameters of a list of jobs.
#[derive(Debug)]
pub struct JobListQuery {
    pub status: Option<String>,
    pub kind: Option<String>,
    /// Another name for `created_after`, which has precedence.
    pub since: Option<String>,
    pub created_after: Option<String>,
    pub created_before: Option<String>,
    pub order: Option<String>,
    /// How many jobs; fifty when absent, two hundred at most.
    pub limit: Option<usize>,
    pub cursor: Option<String>,
}

/// How many jobs a page has.
pub open spec fn page_size(limit: Option<usize>) -> nat {
    let n: nat = match limit {
        Some(n) => n as nat,
        None => 50,
    };
    if n < 1 {
        1
    } else if n > 200 {
        200
    } else {
        n
    }
}

fn page_limit(limit: Option<usize>) -> (r: usize)
    ensures
        r == page_size(limit),
        1 <= r <= 200,
{
    let n: usize = match limit {
        Some(n) => n,
        None => 50,
    };
    if n < 1 {
        1
    } else if n > 200 {
        200
    } else {
        n
    }
}

/// The lower bound that counts.
pub open spec fn lower_bound(q: JobListQuery) -> Option<Seq<char>> {
    if q.created_after is Some {
        rows::opt_text(q.created_after)
    } else {
        rows::opt_text(q.since)
    }
}

/// Whether the parameters are well-formed, given what their two moments were read as.
pub open spec fn query_valid(
    q: JobListQuery,
    after: Result<Option<Moment>, ()>,
    before: Result<Option<Moment>, ()>,
) -> bool {
    &&& q.status matches Some(s) ==> status_named(s@) is Some
    &&& q.cursor matches Some(c) ==> ids::is_ulid(c@)
    &&& q.order matches Some(o) ==> order_named(o@) is Some
    &&& after is Ok
    &&& before is Ok
}

/// Which jobs well-formed parameters ask for: one more than the page holds, to see whether there
/// are more.
pub open spec fn query_filter(
    q: JobListQuery,
    after: Result<Option<Moment>, ()>,
    before: Result<Option<Moment>, ()>,
    tenant: Option<Seq<char>>,
) -> FilterModel {
    FilterModel {
        status: match q.status {
            Some(s) => status_named(s@),
            None => None,
        },
        kind: rows::opt_text(q.kind),
        created_after: after->Ok_0,
        created_before: before->Ok_0,
        order: match q.order {
            Some(o) => order_named(o@)->0,
            None => JobOrder::CreatedAsc,
        },
        cursor: match q.cursor {
            Some(c) => Some(NoteId { value: ids::base32_value(c@) as u128 }),
            None => None,
        },
        limit: page_size(q.limit) + 1,
        tenant,
    }
}

/// Which jobs the parameters ask for, given what their two moments were read as.
pub fn job_filter(
    q: &JobListQuery,
    after: Result<Option<Moment>, ()>,
    before: Result<Option<Moment>, ()>,
    tenant: Option<String>,
) -> (r: Option<JobFilter>)
    ensures
        r is Some <==> query_valid(*q, after, before),
        r matches Some(f) ==> f@ == query_filter(*q, after, before, rows::opt_text(tenant)),
{
    let status = match &q.status {
        Some(s) => match parse_status(s.as_str()) {
            Some(x) => Some(x),
            None => return None,
        },
        None => None,
    };
    let cursor = match &q.cursor {
        Some(c) => match NoteId::parse(c.as_str()) {
            Some(id) => Some(id),
            None => return None,
        },
        None => None,
    };
    let order = match &q.order {
        Some(o) => match parse_order(o.as_str()) {
            Some(x) => x,
            None => return None,
        },
        None => JobOrder::CreatedAsc,
    };
    let created_after = match after {
        Ok(m) => m,
        Err(_) => return None,
    };
    let created_before = match before {
        Ok(m) => m,
        Err(_) => return None,
    };
    Some(
        JobFilter {
            status,
            kind: rows::copy_opt(&q.kind),
            created_after,
            created_before,
            order,
            cursor,
            limit: page_limit(q.limit) + 1,
            tenant,
        },
    )
}

// ── Listing ─────────────────────────────────────────────────────────────────

/// A page of jobs.
#[derive(Debug)]
pub struct JobListResponse<'a> {
    pub items: Vec<&'a JobRecord>,
    /// The last job of the page, when there are more.
    pub next_cursor: Option<String>,
}

/// Who may look at jobs.
pub open spec fn look_gate(trust: TrustContext, a: Answers) -> HttpGate {
    if !trust.authenticated() {
        HttpGate::Refuse(StatusCode::Unauthorized)
    } else {
        resolve_gate(a)
    }
}

/// Who may look at jobs, once they have shown who they are.
pub open spec fn resolve_gate(a: Answers) -> HttpGate {
    match a.resolved {
        None => HttpGate::Ask(Question::ResolveRead { vault: "main"@, section: "jobs"@ }),
        Some(Err(s)) => HttpGate::Refuse(s),
        Some(Ok(_)) => HttpGate::Pass,
    }
}

fn resolve(a: &Answers) -> (r: Result<(), HttpStop>)
    ensures
        match r {
            Ok(_) => resolve_gate(*a) is Pass,
            Err(s) => resolve_gate(*a) == s@,
        },
{
    match &a.resolved {
        None => Err(
            HttpStop::Ask(Ask::ResolveRead { vault: target_vault(), section: "jobs".to_owned() }),
        ),
        Some(Err(s)) => Err(HttpStop::Refuse(*s)),
        Some(Ok(_)) => Ok(()),
    }
}

fn enter_look(trust: &TrustContext, a: &Answers) -> (r: Result<(), HttpStop>)
    ensures
        match r {
            Ok(_) => look_gate(*trust, *a) is Pass,
            Err(s) => look_gate(*trust, *a) == s@,
        },
{
    if !trust.is_authenticated() {
        return Err(HttpStop::Refuse(StatusCode::Unauthorized));
    }
    resolve(a)
}

/// The first reason not to list jobs, or the next question about them.
pub open spec fn list_gate(
    trust: TrustContext,
    q: JobListQuery,
    st: JobsSettings,
    a: Answers,
) -> HttpGate {
    let after = opt_moment(lower_bound(q));
    let before = opt_moment(rows::opt_text(q.created_before));
    door::chain(
        look_gate(trust, a),
        if !query_valid(q, after, before) {
            HttpGate::Refuse(StatusCode::BadRequest)
        } else if tenant_filter(trust, st) is Err {
            HttpGate::Refuse(StatusCode::Forbidden)
        } else {
            match a.jobs {
                None => HttpGate::Ask(
                    Question::ListJobs {
                        filter: query_filter(q, after, before, tenant_filter(trust, st)->Ok_0),
                    },
                ),
                Some(Err(_)) => HttpGate::Refuse(StatusCode::InternalServerError),
                Some(Ok(_)) => HttpGate::Pass,
            }
        },
    )
}

/// Whether `r` is the page of `limit` jobs: the first ones, and the last of them where the next
/// page begins when there are more.
pub open spec fn job_page(jobs: Seq<JobRecord>, limit: nat, r: JobListResponse) -> bool {
    let n = if jobs.len() > limit {
        limit
    } else {
        jobs.len()
    };
    &&& r.items@.len() == n
    &&& forall|i: int| 0 <= i < n ==> *(#[trigger] r.items@[i]) == jobs[i]
    &&& rows::opt_text(r.next_cursor) == if jobs.len() > limit {
        Some(jobs[n - 1].id@)
    } else {
        None
    }
}

/// The page of `limit` jobs.
pub fn page_of(jobs: &Vec<JobRecord>, limit: usize) -> (r: JobListResponse<'_>)
    requires
        limit > 0,
    ensures
        job_page(jobs@, limit as nat, r),
{
    let more = jobs.len() > limit;
    let n: usize = if more {
        limit
    } else {
        jobs.len()
    };
    let mut items: Vec<&JobRecord> = Vec::new();
    let mut i: usize = 0;
    while i < n
        invariant
            i <= n <= jobs@.len(),
            items@.len() == i,
            forall|k: int| 0 <= k < i ==> *(#[trigger] items@[k]) == jobs@[k],
        decreases n - i,
    {
        items.push(&jobs[i]);
        i = i + 1;
    }
    let next_cursor = if more {
        Some(jobs[n - 1].id.text())
    } else {
        None
    };
    JobListResponse { items, next_cursor }
}

/// Lists jobs, page by page.
pub fn list_jobs<'a>(
    trust: &TrustContext,
    q: &JobListQuery,
    st: &JobsSettings,
    a: &'a Answers,
) -> (r: HttpNext<JobListResponse<'a>>)
    ensures
        door::follows(r, list_gate(*trust, *q, *st, *a)),
        r matches HttpNext::Reply(x) ==> job_page(a.jobs->0->Ok_0@, page_size(q.limit), x),
{
    if let Err(s) = enter_look(trust, a) {
        return s.next();
    }
    let after = if q.created_after.is_some() {
        parse_opt_rfc3339(&q.created_after)
    } else {
        parse_opt_rfc3339(&q.since)
    };
    let before = parse_opt_rfc3339(&q.created_before);
    let tenant = job_tenant_filter(trust, st);
    let known = match &tenant {
        Ok(t) => rows::copy_opt(t),
        Err(_) => None,
    };
    let filter = match job_filter(q, after, before, known) {
        Some(f) => f,
        None => return HttpNext::Refuse(StatusCode::BadRequest),
    };
    if tenant.is_err() {
        return HttpNext::Refuse(StatusCode::Forbidden);
    }
    match &a.jobs {
        None => HttpNext::Ask(Ask::ListJobs { filter }),
        Some(Err(_)) => HttpNext::Refuse(StatusCode::InternalServerError),
        Some(Ok(jobs)) => HttpNext::Reply(page_of(jobs, page_limit(q.limit))),
    }
}

// ── One job ─────────────────────────────────────────────────────────────────

/// The job with this identifier, as the tenant sees it: a job of another tenant is not there.
pub open spec fn one_job_gate(
    trust: TrustContext,
    id: Seq<char>,
    st: JobsSettings,
    a: Answers,
) -> HttpGate {
    if !ids::is_ulid(id) {
        HttpGate::Refuse(StatusCode::BadRequest)
    } else if tenant_filter(trust, st) is Err {
        HttpGate::Refuse(StatusCode::Forbidden)
    } else {
        match a.job {
            None => HttpGate::Ask(
                Question::GetJob {
                    id: ids::ulid_text(ids::base32_value(id)),
                    tenant: tenant_filter(trust, st)->Ok_0,
                },
            ),
            Some(Err(_)) => HttpGate::Refuse(StatusCode::InternalServerError),
            Some(Ok(None)) => HttpGate::Refuse(StatusCode::NotFound),
            Some(Ok(Some(_))) => HttpGate::Pass,
        }
    }
}

fn one_job<'a>(trust: &TrustContext, id: &str, st: &JobsSettings, a: &'a Answers) -> (r: Result<
    (&'a JobRecord, NoteId, Option<String>),
    HttpStop,
>)
    ensures
        match r {
            Ok((job, n, t)) => {
                &&& one_job_gate(*trust, id@, *st, *a) is Pass
                &&& a.job->0->Ok_0 == Some(*job)
                &&& n.value as nat == ids::base32_value(id@)
                &&& tenant_filter(*trust, *st) == Ok::<Option<Seq<char>>, StatusCode>(
                    rows::opt_text(t),
                )
            },
            Err(s) => one_job_gate(*trust, id@, *st, *a) == s@,
        },
{
    let n = match NoteId::parse(id) {
        Some(n) => n,
        None => return Err(HttpStop::Refuse(StatusCode::BadRequest)),
    };
    let tenant = match job_tenant_filter(trust, st) {
        Ok(t) => t,
        Err(_) => return Err(HttpStop::Refuse(StatusCode::Forbidden)),
    };
    match &a.job {
        None => Err(HttpStop::Ask(Ask::GetJob { id: n.text(), tenant })),
        Some(Err(_)) => Err(HttpStop::Refuse(StatusCode::InternalServerError)),
        Some(Ok(None)) => Err(HttpStop::Refuse(StatusCode::NotFound)),
        Some(Ok(Some(job))) => Ok((job, n, tenant)),
    }
}

/// Looks at one job.
pub fn get_job_v2<'a>(
    trust: &TrustContext,
    id: &str,
    st: &JobsSettings,
    a: &'a Answers,
) -> (r: HttpNext<&'a JobRecord>)
    ensures
        door::follows(r, door::chain(look_gate(*trust, *a), one_job_gate(*trust, id@, *st, *a))),
        r matches HttpNext::Reply(job) ==> a.job->0->Ok_0 == Some(*job),
{
    if let Err(s) = enter_look(trust, a) {
        return s.next();
    }
    match one_job(trust, id, st, a) {
        Ok((job, _, _)) => HttpNext::Reply(job),
        Err(s) => s.next(),
    }
}

/// The state of a job in brief: whether to wait on, or to conclude.
#[derive(Debug)]
pub struct JobStatusView {
    pub job_id: String,
    pub status: JobStatus,
    /// Whether nothing will happen to the job any more.
    pub terminal: bool,
    pub attempts: u32,
    pub created_at_ms: i64,
    pub completed_at_ms: Option<i64>,
    pub error: Option<String>,
    pub conflict: Option<String>,
    pub result_note: Option<NoteId>,
}

/// Whether `v` is the state of the job `r` in brief.
pub open spec fn view_of(r: JobRecord, v: JobStatusView) -> bool {
    &&& v.job_id@ == r.id@
    &&& v.status == r.lifecycle.status
    &&& v.terminal == r.lifecycle.status.terminal()
    &&& v.attempts == r.retry.count
    &&& v.created_at_ms == r.lifecycle.created_at_ms
    &&& v.completed_at_ms == r.lifecycle.completed_at_ms
    &&& v.error == r.retry.last_error
    &&& v.conflict == match r.lifecycle.result {
        Some(x) => x.conflict_payload,
        None => None,
    }
    &&& v.result_note == match r.lifecycle.result {
        Some(x) => x.result_note,
        None => None,
    }
}

impl JobStatusView {
    /// The state of a job in brief.
    pub fn from_record(record: &JobRecord) -> (r: JobStatusView)
        ensures
            view_of(*record, r),
    {
        let (conflict, result_note) = match &record.lifecycle.result {
            Some(x) => (rows::copy_opt(&x.conflict_payload), x.result_note),
            None => (None, None),
        };
        JobStatusView {
            job_id: record.id.text(),
            status: record.lifecycle.status,
            terminal: record.lifecycle.status.is_terminal(),
            attempts: record.retry.count,
            created_at_ms: record.lifecycle.created_at_ms,
            completed_at_ms: record.lifecycle.completed_at_ms,
            error: rows::copy_opt(&record.retry.last_error),
            conflict,
            result_note,
        }
    }
}

/// The state of one job in brief, for a caller who has shown who they are.
pub fn job_status_mcp(
    trust: &TrustContext,
    job_id: &str,
    st: &JobsSettings,
    a: &Answers,
) -> (r: HttpNext<JobStatusView>)
    ensures
        door::follows(r, door::chain(resolve_gate(*a), one_job_gate(*trust, job_id@, *st, *a))),
        r matches HttpNext::Reply(v) ==> a.job->0->Ok_0 is Some && view_of(a.job->0->Ok_0->0, v),
{
    if let Err(s) = resolve(a) {
        return s.next();
    }
    match one_job(trust, job_id, st, a) {
        Ok((job, _, _)) => HttpNext::Reply(JobStatusView::from_record(job)),
        Err(s) => s.next(),
    }
}

// ── Cancelling ──────────────────────────────────────────────────────────────

/// A job that was cancelled, or that had ended before.
#[derive(Debug)]
pub struct CancelJobResponse {
    pub id: String,
    pub status: String,
}

/// Whether a job in this state can still be cancelled: one that waits for its turn.
pub open spec fn cancellable(s: JobStatus) -> bool {
    s is Pending || s is Waiting
}

/// Who may cancel jobs.
pub open spec fn cancel_right_gate(trust: TrustContext, a: Answers) -> HttpGate {
    if !trust.authenticated() {
        HttpGate::Refuse(StatusCode::Unauthorized)
    } else if a.acl is None {
        HttpGate::Ask(Question::Acl { op: AclOp::Write, locus: "main/jobs"@ })
    } else if a.acl == Some(false) {
        HttpGate::Refuse(StatusCode::Forbidden)
    } else {
        match a.write_scope {
            None => HttpGate::Ask(Question::WriteScope { tenant: trust.tenant_view() }),
            Some(false) => HttpGate::Refuse(StatusCode::Forbidden),
            Some(true) => HttpGate::Pass,
        }
    }
}

/// The cancellation itself. A job that runs is left to finish, and one that ended stays as it
/// is.
pub open spec fn cancel_step(
    trust: TrustContext,
    id: Seq<char>,
    st: JobsSettings,
    job: JobRecord,
    a: Answers,
) -> HttpGate {
    if job.lifecycle.status is Running {
        HttpGate::Refuse(StatusCode::Conflict)
    } else if !cancellable(job.lifecycle.status) {
        HttpGate::Pass
    } else {
        match a.done {
            None => HttpGate::Ask(
                Question::CancelJob {
                    id: ids::ulid_text(ids::base32_value(id)),
                    tenant: tenant_filter(trust, st)->Ok_0,
                },
            ),
            Some(Err(_)) => HttpGate::Refuse(StatusCode::InternalServerError),
            Some(Ok(_)) => HttpGate::Pass,
        }
    }
}

/// The first reason not to cancel a job, or the next step.
pub open spec fn cancel_gate(
    trust: TrustContext,
    id: Seq<char>,
    st: JobsSettings,
    a: Answers,
) -> HttpGate {
    door::chain(
        cancel_right_gate(trust, a),
        door::chain(
            one_job_gate(trust, id, st, a),
            cancel_step(trust, id, st, a.job->0->Ok_0->0, a),
        ),
    )
}

/// Cancels a job that waits for its turn.
pub fn cancel_job(trust: &TrustContext, id: &str, st: &JobsSettings, a: &Answers) -> (r: HttpNext<
    CancelJobResponse,
>)
    ensures
        door::follows(r, cancel_gate(*trust, id@, *st, *a)),
        r matches HttpNext::Reply(x) ==> {
            let s = a.job->0->Ok_0->0.lifecycle.status;
            &&& x.id@ == ids::ulid_text(ids::base32_value(id@))
            &&& x.status@ == if cancellable(s) {
                "Cancelled"@
            } else {
                s.lower()
            }
        },
{
    if !trust.is_authenticated() {
        return HttpNext::Refuse(StatusCode::Unauthorized);
    }
    match a.acl {
        None => return HttpNext::Ask(Ask::Acl { op: AclOp::Write, locus: jobs_locus() }),
        Some(false) => return HttpNext::Refuse(StatusCode::Forbidden),
        Some(true) => {},
    }
    match a.write_scope {
        None => return HttpNext::Ask(Ask::WriteScope { tenant: trust.tenant_text() }),
        Some(false) => return HttpNext::Refuse(StatusCode::Forbidden),
        Some(true) => {},
    }
    let (job, n, tenant) = match one_job(trust, id, st, a) {
        Ok(x) => x,
        Err(s) => return s.next(),
    };
    match job.lifecycle.status {
        JobStatus::Running => HttpNext::Refuse(StatusCode::Conflict),
        JobStatus::Pending | JobStatus::Waiting => match &a.done {
            None => HttpNext::Ask(Ask::CancelJob { id: n.text(), tenant }),
            Some(Err(_)) => HttpNext::Refuse(StatusCode::InternalServerError),
            Some(Ok(_)) => HttpNext::Reply(
                CancelJobResponse { id: n.text(), status: "Cancelled".to_owned() },
            ),
        },
        _ => HttpNext::Reply(
            CancelJobResponse { id: n.text(), status: job.lifecycle.status.lower_text() },
        ),
    }
}

// ── Creating ────────────────────────────────────────────────────────────────

/// What a request says the job is to do.
#[derive(Debug)]
pub enum KindInput {
    /// Nothing.
    Absent,
    /// Something that is no kind of job, and why.
    Malformed(String),
    Kind(Job),
}

/// A job to be created.
#[derive(Debug)]
pub struct CreateJobRequest {
    pub kind: KindInput,
    /// Who caused the job, when the request says so.
    pub triggered_by: Option<String>,
    /// The tenant that the job itself serves, when it names one.
    pub own_tenant: Option<String>,
}

/// The job that a request led to.
#[derive(Debug)]
pub struct CreateJobResponse {
    pub id: String,
    /// Whether the job had been created under the same key before.
    pub idempotent: bool,
}

/// Why a request is no job.
#[derive(Debug)]
pub enum JobSpecError {
    /// It is not written as one.
    Invalid(String),
    /// It is of a kind that is not triggered from outside.
    Unsupported(String),
}

/// A [`JobSpecError`] by its contents.
pub enum SpecFault {
    Invalid(Seq<char>),
    Unsupported(Seq<char>),
}

impl View for JobSpecError {
    type V = SpecFault;

    open spec fn view(&self) -> SpecFault {
        match *self {
            JobSpecError::Invalid(m) => SpecFault::Invalid(m@),
            JobSpecError::Unsupported(k) => SpecFault::Unsupported(k@),
        }
    }
}

impl SpecFault {
    /// What the caller is told.
    pub open spec fn message(self) -> Seq<char> {
        match self {
            SpecFault::Invalid(m) => "invalid spec: "@ + m,
            SpecFault::Unsupported(k) => "kind `"@ + k
                + "` not triggerable via the API (worker handler absent or stub) — supported kinds: Curate, Distill, Purge, Embed, Forget"@,
        }
    }
}

impl JobSpecError {
    /// What the caller is told.
    pub fn message(&self) -> (r: String)
        ensures
            r@ == self@.message(),
    {
        match self {
            JobSpecError::Invalid(m) => text::cat("invalid spec: ", m.as_str()),
            JobSpecError::Unsupported(k) => {
                let mut m = text::cat("kind `", k.as_str());
                m.append(
                    "` not triggerable via the API (worker handler absent or stub) — supported kinds: Curate, Distill, Purge, Embed, Forget",
                );
                m
            },
        }
    }
}

/// Whether a kind of job is triggered from outside: those that a worker really handles.
pub open spec fn triggerable(kind: JobModel) -> bool {
    !(kind is Other)
}

/// Whether a kind of job is triggered from outside.
pub fn job_kind_is_triggerable(kind: &Job) -> (r: bool)
    ensures
        r == triggerable(kind@),
{
    match kind {
        Job::Curate { .. } => true,
        Job::Distill { .. } => true,
        Job::Purge { .. } => true,
        Job::Embed { .. } => true,
        Job::Forget(_) => true,
        Job::Other(_) => false,
    }
}

/// The number of vaults that a job would forget notes of, when that is more than one.
pub open spec fn forgets_across(kind: JobModel) -> Option<nat> {
    match kind {
        JobModel::Forget(spec) => match spec.scope {
            ScopeModel::Agent { vaults, .. } => if vaults.len() > 1 {
                Some(vaults.len())
            } else {
                None
            },
            _ => None,
        },
        _ => None,
    }
}

/// What is wrong with a job to be created, if anything is.
pub open spec fn spec_fault(kind: KindInput) -> Option<SpecFault> {
    match kind {
        KindInput::Absent => Some(SpecFault::Invalid("`spec.kind` field absent"@)),
        KindInput::Malformed(m) => Some(
            SpecFault::Invalid("`spec.kind` invalid or required field missing: "@ + m@),
        ),
        KindInput::Kind(Job::Other(name)) => Some(SpecFault::Unsupported(name@)),
        KindInput::Kind(job) => match forgets_across(job@) {
            Some(n) => Some(
                SpecFault::Invalid(
                    "`ForgetScope::Agent` targets "@ + text::decimal(n)
                        + " vaults — a job targets exactly one vault. Post one job per vault (fan-out belongs to the enqueue site)."@,
                ),
            ),
            None => None,
        },
    }
}

/// The job that a request asks for, on the vault of the caller. A failure is worth three more
/// attempts, the waits between which grow from five seconds to two minutes.
pub open spec fn requested_job(
    body: CreateJobRequest,
    vault: Seq<char>,
    id: NoteId,
    now_ms: i64,
) -> RecordModel {
    queue::pending(
        id,
        body.kind->Kind_0@,
        JobClass::Api,
        vault,
        JobPriority::OfClass,
        now_ms,
        3,
        Some(Backoff { base: 5, max: 120 }),
        Some(
            match body.triggered_by {
                Some(t) => t@,
                None => "api"@,
            },
        ),
    )
}

fn copy_job(job: &Job) -> (r: Job)
    ensures
        r@ == job@,
{
    match job {
        Job::Curate { data } => Job::Curate { data: data.clone() },
        Job::Distill { data } => Job::Distill { data: data.clone() },
        Job::Purge { data } => Job::Purge { data: data.clone() },
        Job::Embed { data } => Job::Embed { data: data.clone() },
        Job::Other(name) => Job::Other(name.clone()),
        Job::Forget(spec) => {
            let scope = match &spec.scope {
                ForgetScope::Topic { query, vault, limit } => ForgetScope::Topic {
                    query: query.clone(),
                    vault: rows::copy_opt(vault),
                    limit: *limit,
                },
                ForgetScope::Locus { vault, locus } => ForgetScope::Locus {
                    vault: vault.clone(),
                    locus: locus.clone(),
                },
                ForgetScope::Agent { agent_id, vaults } => ForgetScope::Agent {
                    agent_id: agent_id.clone(),
                    vaults: rows::copy_list(vaults),
                },
            };
            Job::Forget(
                ForgetSpec {
                    scope,
                    dry_run: spec.dry_run,
                    forgotten_by: rows::copy_opt(&spec.forgotten_by),
                    confirm_ulids: rows::copy_list(&spec.confirm_ulids),
                },
            )
        },
    }
}

/// Builds the job that a request asks for, on the vault of the caller.
pub fn build_job_record_from_spec(
    body: &CreateJobRequest,
    tenant: &str,
    id: NoteId,
    now_ms: i64,
) -> (r: Result<JobRecord, JobSpecError>)
    ensures
        match r {
            Ok(record) => spec_fault(body.kind) is None && record@ == requested_job(
                *body,
                tenant@,
                id,
                now_ms,
            ),
            Err(e) => spec_fault(body.kind) == Some(e@),
        },
{
    let kind = match &body.kind {
        KindInput::Absent => return Err(
            JobSpecError::Invalid("`spec.kind` field absent".to_owned()),
        ),
        KindInput::Malformed(m) => return Err(
            JobSpecError::Invalid(
                text::cat("`spec.kind` invalid or required field missing: ", m.as_str()),
            ),
        ),
        KindInput::Kind(job) => job,
    };
    if let Job::Other(name) = kind {
        return Err(JobSpecError::Unsupported(name.clone()));
    }
    if let Job::Forget(spec) = kind {
        if let ForgetScope::Agent { agent_id: _, vaults } = &spec.scope {
            if vaults.len() > 1 {
                let mut m = text::cat(
                    "`ForgetScope::Agent` targets ",
                    text::decimal_text(vaults.len() as u64).as_str(),
                );
                m.append(
                    " vaults — a job targets exactly one vault. Post one job per vault (fan-out belongs to the enqueue site).",
                );
                return Err(JobSpecError::Invalid(m));
            }
        }
    }
    let triggered_by = match &body.triggered_by {
        Some(t) => t.clone(),
        None => "api".to_owned(),
    };
    Ok(
        JobRecord::demanded(
            id,
            copy_job(kind),
            JobClass::Api,
            tenant,
            JobPriority::OfClass,
            now_ms,
            3,
            Some(Backoff { base: 5, max: 120 }),
            Some(triggered_by),
        ),
    )
}

/// What HTTP answers to a job to be created.
#[derive(Debug)]
pub enum CreateJobHttp {
    /// The job, under 200 when it had been created before and under 202 when it is new.
    Reply(StatusCode, CreateJobResponse),
    /// Why the request is no job, under 400.
    Told(StatusCode, String),
}

/// Who may create jobs. Where vaults of several tenants are served, the caller needs the scope
/// to write, a tenant, and a grant for the vault of that tenant.
pub open spec fn create_right_gate(trust: TrustContext, st: JobsSettings, a: Answers) -> HttpGate {
    if !trust.authenticated() {
        HttpGate::Refuse(StatusCode::Unauthorized)
    } else if a.acl is None {
        HttpGate::Ask(Question::Acl { op: AclOp::Write, locus: "main/jobs"@ })
    } else if a.acl == Some(false) {
        HttpGate::Refuse(StatusCode::Forbidden)
    } else if !st.multi_tenant {
        HttpGate::Pass
    } else if a.write_scope is None {
        HttpGate::Ask(Question::WriteScope { tenant: trust.tenant_view() })
    } else if a.write_scope == Some(false) || trust.tenant_view() is None {
        HttpGate::Refuse(StatusCode::Forbidden)
    } else {
        match a.write_grant {
            None => HttpGate::Ask(Question::WriteGrant { tenant: trust.tenant_view()->0 }),
            Some(Err(e)) => HttpGate::Refuse(error::refusal_status(e@)),
            Some(Ok(_)) => HttpGate::Pass,
        }
    }
}

/// The vault that the jobs of a caller work on.
pub open spec fn job_vault(trust: TrustContext, st: JobsSettings) -> Seq<char> {
    if st.multi_tenant {
        trust.tenant_view()->0
    } else {
        "main"@
    }
}

fn enter_create(trust: &TrustContext, st: &JobsSettings, a: &Answers) -> (r: Result<
    String,
    HttpStop,
>)
    ensures
        match r {
            Ok(v) => create_right_gate(*trust, *st, *a) is Pass && v@ == job_vault(*trust, *st),
            Err(s) => create_right_gate(*trust, *st, *a) == s@,
        },
{
    if !trust.is_authenticated() {
        return Err(HttpStop::Refuse(StatusCode::Unauthorized));
    }
    match a.acl {
        None => return Err(
            HttpStop::Ask(Ask::Acl { op: AclOp::Write, locus: jobs_locus() }),
        ),
        Some(false) => return Err(HttpStop::Refuse(StatusCode::Forbidden)),
        Some(true) => {},
    }
    if !st.multi_tenant {
        return Ok("main".to_owned());
    }
    match a.write_scope {
        None => return Err(HttpStop::Ask(Ask::WriteScope { tenant: trust.tenant_text() })),
        Some(false) => return Err(HttpStop::Refuse(StatusCode::Forbidden)),
        Some(true) => {},
    }
    let tenant = match trust.tenant_id() {
        Some(t) => t.clone(),
        None => return Err(HttpStop::Refuse(StatusCode::Forbidden)),
    };
    match &a.write_grant {
        None => Err(HttpStop::Ask(Ask::WriteGrant { tenant })),
        Some(Err(e)) => Err(HttpStop::Refuse(error::err_to_status(e))),
        Some(Ok(_)) => Ok(tenant),
    }
}

/// Whether a key identifies a request: it has from one to 256 bytes.
pub open spec fn key_valid(key: Option<Seq<char>>) -> bool {
    key matches Some(k) && k.len() > 0 && text::byte_length(k) <= 256
}

/// The tenant that a job serves: its own, else the vault that it works on.
pub open spec fn served_tenant(body: CreateJobRequest, vault: Seq<char>) -> Seq<char> {
    match body.own_tenant {
        Some(t) => t@,
        None => vault,
    }
}

/// The steps after the right to create a job: the key is looked at and looked up, a known one
/// ends there, a request that is no job is refused, and so is one that serves another tenant;
/// then the job is queued and its key kept.
pub open spec fn create_work_gate(
    trust: TrustContext,
    key: Option<Seq<char>>,
    body: CreateJobRequest,
    st: JobsSettings,
    id: NoteId,
    now_ms: i64,
    a: Answers,
) -> HttpGate {
    let vault = job_vault(trust, st);
    if !key_valid(key) {
        HttpGate::Refuse(StatusCode::BadRequest)
    } else if !st.keeps_keys {
        HttpGate::Refuse(StatusCode::NotImplemented)
    } else if a.known_key is None {
        HttpGate::Ask(Question::KnownKey { key: key->0 })
    } else if a.known_key->0 is Err {
        HttpGate::Refuse(StatusCode::InternalServerError)
    } else if a.known_key->0->Ok_0 is Some || spec_fault(body.kind) is Some {
        HttpGate::Pass
    } else if st.multi_tenant && a.tenant is None {
        HttpGate::Ask(Question::Tenant { requested: Some(served_tenant(body, vault)) })
    } else if st.multi_tenant && a.tenant->0 is None {
        HttpGate::Refuse(StatusCode::Forbidden)
    } else if a.enqueued is None {
        HttpGate::Ask(Question::Enqueue { record: requested_job(body, vault, id, now_ms) })
    } else if a.enqueued->0 is Err {
        HttpGate::Refuse(StatusCode::InternalServerError)
    } else if a.key_stored is None {
        HttpGate::Ask(Question::StoreKey { key: key->0, job_id: a.enqueued->0->Ok_0@ })
    } else {
        HttpGate::Pass
    }
}

/// Whether `r` is the reply that is due.
pub open spec fn create_reply(body: CreateJobRequest, a: Answers, r: CreateJobHttp) -> bool {
    match a.known_key->0->Ok_0 {
        Some(existing) => r matches CreateJobHttp::Reply(s, x) && s == StatusCode::Success && x.id@
            == existing@ && x.idempotent,
        None => match spec_fault(body.kind) {
            Some(f) => r matches CreateJobHttp::Told(s, m) && s == StatusCode::BadRequest && m@
                == f.message(),
            None => r matches CreateJobHttp::Reply(s, x) && s == StatusCode::Accepted && x.id@
                == a.enqueued->0->Ok_0@ && !x.idempotent,
        },
    }
}

/// Creates a job, once per key. `id` is the identifier that the job gets.
pub fn create_job(
    trust: &TrustContext,
    key: &Option<String>,
    body: &CreateJobRequest,
    st: &JobsSettings,
    id: NoteId,
    now_ms: i64,
    a: &Answers,
) -> (r: HttpNext<CreateJobHttp>)
    ensures
        door::follows(
            r,
            door::chain(
                create_right_gate(*trust, *st, *a),
                create_work_gate(*trust, rows::opt_text(*key), *body, *st, id, now_ms, *a),
            ),
        ),
        r matches HttpNext::Reply(x) ==> create_reply(*body, *a, x),
{
    let vault = match enter_create(trust, st, a) {
        Ok(v) => v,
        Err(s) => return s.next(),
    };
    let key = match key {
        Some(k) => k,
        None => return HttpNext::Refuse(StatusCode::BadRequest),
    };
    if key.as_str().is_empty() || text::byte_len(key.as_str()) > 256 {
        return HttpNext::Refuse(StatusCode::BadRequest);
    }
    if !st.keeps_keys {
        return HttpNext::Refuse(StatusCode::NotImplemented);
    }
    match &a.known_key {
        None => return HttpNext::Ask(Ask::KnownKey { key: key.clone() }),
        Some(Err(_)) => return HttpNext::Refuse(StatusCode::InternalServerError),
        Some(Ok(Some(existing))) => return HttpNext::Reply(
            CreateJobHttp::Reply(
                StatusCode::Success,
                CreateJobResponse { id: existing.clone(), idempotent: true },
            ),
        ),
        Some(Ok(None)) => {},
    }
    let record = match build_job_record_from_spec(body, vault.as_str(), id, now_ms) {
        Ok(record) => record,
        Err(e) => return HttpNext::Reply(
            CreateJobHttp::Told(StatusCode::BadRequest, e.message()),
        ),
    };
    if st.multi_tenant {
        match &a.tenant {
            None => {
                let served = match &body.own_tenant {
                    Some(t) => t.clone(),
                    None => vault,
                };
                return HttpNext::Ask(Ask::Tenant { requested: Some(served) });
            },
            Some(None) => return HttpNext::Refuse(StatusCode::Forbidden),
            Some(Some(_)) => {},
        }
    }
    match &a.enqueued {
        None => HttpNext::Ask(Ask::Enqueue { record }),
        Some(Err(_)) => HttpNext::Refuse(StatusCode::InternalServerError),
        Some(Ok(job)) => {
            let job_id = job.text();
            match a.key_stored {
                None => HttpNext::Ask(Ask::StoreKey { key: key.clone(), job_id }),
                Some(_) => HttpNext::Reply(
                    CreateJobHttp::Reply(
                        StatusCode::Accepted,
                        CreateJobResponse { id: job_id, idempotent: false },
                    ),
                ),
            }
        },
    }
}

// ── Following a job ─────────────────────────────────────────────────────────

/// What happens in the queue.
#[derive(Debug)]
pub enum QueueEvent {
    JobInserted(NoteId),
    JobReady(NoteId),
    /// A job failed, after so many attempts.
    JobFailed(NoteId, u32),
    JobCancelled(NoteId),
    /// A job ended in this state.
    JobCompleted(NoteId, JobStatus),
    /// Something that is not about a job.
    Other,
}

/// What a follower of a job is told.
#[derive(Debug)]
pub struct StatusEvent {
    pub status: String,
    pub attempts: Option<u32>,
    /// Whether nothing more will come.
    pub last: bool,
}

/// What an event says of a job.
pub struct EventFacts {
    pub job: NoteId,
    pub status: Seq<char>,
    pub attempts: Option<u32>,
    /// Whether it is the last one of the job.
    pub last: bool,
}

/// What an event says of a job, if it is about one.
pub open spec fn event_facts(e: QueueEvent) -> Option<EventFacts> {
    match e {
        QueueEvent::JobInserted(job) => Some(
            EventFacts { job, status: "inserted"@, attempts: None, last: false },
        ),
        QueueEvent::JobReady(job) => Some(
            EventFacts { job, status: "pending"@, attempts: None, last: false },
        ),
        QueueEvent::JobFailed(job, n) => Some(
            EventFacts { job, status: "failed"@, attempts: Some(n), last: false },
        ),
        QueueEvent::JobCancelled(job) => Some(
            EventFacts { job, status: "cancelled"@, attempts: None, last: true },
        ),
        QueueEvent::JobCompleted(job, s) => Some(
            EventFacts { job, status: s.lower(), attempts: None, last: s.terminal() },
        ),
        QueueEvent::Other => None,
    }
}

/// What a follower of the job `target` is told of an event: nothing, when the event is about
/// another job.
pub fn job_event(event: &QueueEvent, target: &NoteId) -> (r: Option<StatusEvent>)
    ensures
        match r {
            Some(x) => event_facts(*event) == Some(
                EventFacts {
                    job: *target,
                    status: x.status@,
                    attempts: x.attempts,
                    last: x.last,
                },
            ),
            None => event_facts(*event) matches Some(f) ==> f.job != *target,
        },
{
    let (id, status, attempts, last) = match event {
        QueueEvent::JobInserted(id) => (*id, "inserted".to_owned(), None, false),
        QueueEvent::JobReady(id) => (*id, "pending".to_owned(), None, false),
        QueueEvent::JobFailed(id, n) => (*id, "failed".to_owned(), Some(*n), false),
        QueueEvent::JobCancelled(id) => (*id, "cancelled".to_owned(), None, true),
        QueueEvent::JobCompleted(id, s) => (*id, s.lower_text(), None, s.is_terminal()),
        QueueEvent::Other => return None,
    };
    if id.value == target.value {
        Some(StatusEvent { status, attempts, last })
    } else {
        None
    }
}

/// Lets the caller follow a job: gives the job whose events are to be told.
pub fn job_events(trust: &TrustContext, id: &str, st: &JobsSettings, a: &Answers) -> (r: HttpNext<
    NoteId,
>)
    ensures
        door::follows(r, door::chain(look_gate(*trust, *a), one_job_gate(*trust, id@, *st, *a))),
        r matches HttpNext::Reply(n) ==> n.value as nat == ids::base32_value(id@),
{
    if let Err(s) = enter_look(trust, a) {
        return s.next();
    }
    match one_job(trust, id, st, a) {
        Ok((_, n, _)) => HttpNext::Reply(n),
        Err(s) => s.next(),
    }
}

// ── The numbered queue ──────────────────────────────────────────────────────

/// The code for what a worker said: nothing of what it said is passed on.
pub open spec fn error_code(raw: Seq<char>) -> Seq<char> {
    if text::has_infix(raw, "ULID invalide"@) || text::has_infix(raw, "invalid character"@) {
        "invalid_input"@
    } else if text::has_infix(raw, "Vault::"@) || text::has_infix(raw, "vault non configuré"@) {
        "vault_error"@
    } else if text::has_infix(raw, "Storage"@) || text::has_infix(raw, "sqlx"@) || text::has_infix(
        raw,
        "SQLite"@,
    ) {
        "storage_error"@
    } else {
        "processing_error"@
    }
}

/// The code for what a worker said.
pub fn sanitize_job_error(raw: &str) -> (r: &'static str)
    ensures
        r@ == error_code(raw@),
{
    if text::contains(raw, "ULID invalide") || text::contains(raw, "invalid character") {
        "invalid_input"
    } else if text::contains(raw, "Vault::") || text::contains(raw, "vault non configuré") {
        "vault_error"
    } else if text::contains(raw, "Storage") || text::contains(raw, "sqlx") || text::contains(
        raw,
        "SQLite",
    ) {
        "storage_error"
    } else {
        "processing_error"
    }
}

/// The first reason not to show a job of the numbered queue, or the next question about it.
pub open spec fn numbered_gate(trust: TrustContext, id: i64, a: Answers) -> HttpGate {
    if !trust.authenticated() {
        HttpGate::Refuse(StatusCode::Unauthorized)
    } else {
        match a.acl {
            None => HttpGate::Ask(Question::Acl { op: AclOp::Read, locus: "main/jobs"@ }),
            Some(false) => HttpGate::Refuse(StatusCode::Forbidden),
            Some(true) => match a.numbered_job {
                None => HttpGate::Ask(Question::NumberedJob { id }),
                Some(Err(_)) => HttpGate::Refuse(StatusCode::InternalServerError),
                Some(Ok(None)) => HttpGate::Refuse(StatusCode::NotFound),
                Some(Ok(Some(_))) => HttpGate::Pass,
            },
        }
    }
}

/// Looks at a job of the numbered queue; what went wrong is told as a code.
pub fn get_job(trust: &TrustContext, id: i64, a: &Answers) -> (r: HttpNext<JobStatusResponse>)
    ensures
        door::follows(r, numbered_gate(*trust, id, *a)),
        r matches HttpNext::Reply(x) ==> {
            let job = a.numbered_job->0->Ok_0->0;
            &&& x.job_id == job.id
            &&& x.status@ == job.status@
            &&& x.attempts == job.attempts
            &&& rows::opt_text(x.last_error) == match job.last_error {
                Some(raw) => Some(error_code(raw@)),
                None => None,
            }
        },
{
    if !trust.is_authenticated() {
        return HttpNext::Refuse(StatusCode::Unauthorized);
    }
    match a.acl {
        None => return HttpNext::Ask(Ask::Acl { op: AclOp::Read, locus: jobs_locus() }),
        Some(false) => return HttpNext::Refuse(StatusCode::Forbidden),
        Some(true) => {},
    }
    match &a.numbered_job {
        None => HttpNext::Ask(Ask::NumberedJob { id }),
        Some(Err(_)) => HttpNext::Refuse(StatusCode::InternalServerError),
        Some(Ok(None)) => HttpNext::Refuse(StatusCode::NotFound),
        Some(Ok(Some(job))) => HttpNext::Reply(
            JobStatusResponse {
                job_id: job.id,
                status: job.status.clone(),
                attempts: job.attempts,
                last_error: match &job.last_error {
                    Some(raw) => Some(sanitize_job_error(raw.as_str()).to_owned()),
                    None => None,
                },
            },
        ),
    }
}

// ── Laws ────────────────────────────────────────────────────────────────────

/// A key that is known leads to the job that it led to before, and nothing is queued.
pub proof fn a_known_key_creates_nothing(
    trust: TrustContext,
    key: Option<Seq<char>>,
    body: CreateJobRequest,
    st: JobsSettings,
    id: NoteId,
    now_ms: i64,
    a: Answers,
)
    requires
        a.known_key matches Some(k) && k is Ok && k->Ok_0 is Some,
    ensures
        ({
            let g = create_work_gate(trust, key, body, st, id, now_ms, a);
            g is Pass || g is Refuse
        }),
        forall|r: CreateJobHttp|
            create_reply(body, a, r) ==> (r matches CreateJobHttp::Reply(_, x) && x.idempotent
                && x.id@ == a.known_key->0->Ok_0->0@),
{
}

/// What is queued does what was asked for, on the vault of the caller; it is of a kind that a
/// worker handles, and works on one vault only.
pub proof fn a_created_job_is_the_callers_own(
    trust: TrustContext,
    key: Option<Seq<char>>,
    body: CreateJobRequest,
    st: JobsSettings,
    id: NoteId,
    now_ms: i64,
    a: Answers,
)
    requires
        create_work_gate(trust, key, body, st, id, now_ms, a) is Ask,
        create_work_gate(trust, key, body, st, id, now_ms, a)->Ask_0 is Enqueue,
    ensures
        ({
            let record = create_work_gate(
                trust,
                key,
                body,
                st,
                id,
                now_ms,
                a,
            )->Ask_0->Enqueue_record;
            &&& record.vault == job_vault(trust, st)
            &&& body.kind is Kind
            &&& record.kind == body.kind->Kind_0@
            &&& triggerable(record.kind)
            &&& forgets_across(record.kind) is None
            &&& st.multi_tenant ==> a.tenant->0 is Some
        }),
{
}

/// Whoever looks at a job over a tool sees it exactly when they would see it over HTTP.
pub proof fn the_tool_sees_what_http_sees(
    trust: TrustContext,
    id: Seq<char>,
    st: JobsSettings,
    a: Answers,
)
    requires
        trust.authenticated(),
    ensures
        door::chain(resolve_gate(a), one_job_gate(trust, id, st, a)) == door::chain(
            look_gate(trust, a),
            one_job_gate(trust, id, st, a),
        ),
{
}

/// Where vaults of several tenants are served, every question about a job is asked for the
/// tenant of the caller.
pub proof fn jobs_of_others_are_not_there(
    trust: TrustContext,
    id: Seq<char>,
    st: JobsSettings,
    a: Answers,
)
    requires
        st.multi_tenant,
        one_job_gate(trust, id, st, a) is Ask,
    ensures
        trust.tenant_view() is Some,
        one_job_gate(trust, id, st, a)->Ask_0->GetJob_tenant == trust.tenant_view(),
{
}

/// What a worker said reaches nobody: only four codes do.
pub proof fn worker_errors_are_codes(raw: Seq<char>)
    ensures
        ({
            let c = error_code(raw);
            c == "invalid_input"@ || c == "vault_error"@ || c == "storage_error"@ || c
                == "processing_error"@
        }),
{
}

/// A job that runs is never cancelled, and neither is one that ended.
pub proof fn only_waiting_jobs_are_cancelled(
    trust: TrustContext,
    id: Seq<char>,
    st: JobsSettings,
    a: Answers,
)
    requires
        cancel_gate(trust, id, st, a) is Ask,
        cancel_gate(trust, id, st, a)->Ask_0 is CancelJob,
    ensures
        a.job->0->Ok_0 is Some,
        cancellable(a.job->0->Ok_0->0.lifecycle.status),
{
}

/// Jobs are listed as the query says: of a state, of a kind, from and to a moment, in an order, from
/// where it goes on, and only those of the own tenant where there are several. One more than the
/// page holds is asked for.
pub proof fn jobs_are_listed_as_asked(
    trust: TrustContext,
    q: JobListQuery,
    st: JobsSettings,
    a: Answers,
)
    ensures
        list_gate(trust, q, st, a) matches HttpGate::Ask(x) ==> match x {
            Question::ResolveRead { vault, section } => vault == "main"@ && section == "jobs"@,
            Question::ListJobs { filter } => {
                &&& a.resolved matches Some(Ok(_))
                &&& q.status is None ==> filter.status is None
                &&& q.status matches Some(s) ==> filter.status is Some && filter.status
                    == status_named(s@)
                &&& filter.kind == rows::opt_text(q.kind)
                &&& q.order is None ==> filter.order == JobOrder::CreatedAsc
                &&& q.order matches Some(o) ==> (text::lowercase(o@) == "asc"@ && filter.order
                    == JobOrder::CreatedAsc) || (text::lowercase(o@) == "desc"@ && filter.order
                    == JobOrder::CreatedDesc)
                &&& q.cursor is None ==> filter.cursor is None
                &&& q.cursor matches Some(c) ==> ids::is_ulid(c@) && filter.cursor is Some
                    && filter.cursor->0.value == ids::base32_value(c@)
                &&& q.limit is None ==> filter.limit == 51
                &&& q.limit matches Some(n) ==> (1 <= n <= 200 ==> filter.limit == n + 1)
                &&& 2 <= filter.limit <= 201
                &&& q.created_before is None ==> filter.created_before is None
                &&& q.created_before matches Some(m) ==> filter.created_before is Some
                    && filter.created_before == ids::moment(ids::utc_moment(m@))
                &&& q.created_after is None && q.since is None ==> filter.created_after is None
                &&& q.created_after matches Some(m) ==> filter.created_after is Some
                    && filter.created_after == ids::moment(ids::utc_moment(m@))
                &&& q.created_after is None ==> (q.since matches Some(m) ==> filter.created_after
                    is Some && filter.created_after == ids::moment(ids::utc_moment(m@)))
                &&& st.multi_tenant ==> filter.tenant is Some && filter.tenant
                    == trust.tenant_view()
                &&& !st.multi_tenant ==> filter.tenant is None
            },
            _ => false,
        },
{
    if let Some(c) = q.cursor {
        assert(ids::base32_value(c@) < ids::two_128()) by {
            reveal_with_fuel(ids::base32_value, 2);
        }
    }
}

/// A list of jobs is refused for cause only, and for the cause that it has.
pub proof fn a_list_of_jobs_is_refused_for_cause(
    trust: TrustContext,
    q: JobListQuery,
    st: JobsSettings,
    a: Answers,
)
    ensures
        ({
            let g = list_gate(trust, q, st, a);
            let entered = trust.authenticated() && (a.resolved matches Some(Ok(_)));
            let plain = q.status is None && q.order is None && q.cursor is None && q.created_after
                is None && q.since is None && q.created_before is None;
            let known = !st.multi_tenant || trust.tenant_view() is Some;
            &&& !trust.authenticated() ==> g == HttpGate::Refuse(StatusCode::Unauthorized)
            &&& trust.authenticated() && (a.resolved matches Some(Err(_))) ==> g
                == HttpGate::Refuse(a.resolved->0->Err_0)
            &&& entered && q.status is Some && status_named(q.status->0@) is None ==> g
                == HttpGate::Refuse(StatusCode::BadRequest)
            &&& entered && q.cursor is Some && !ids::is_ulid(q.cursor->0@) ==> g
                == HttpGate::Refuse(StatusCode::BadRequest)
            &&& entered && q.order is Some && text::lowercase(q.order->0@) != "asc"@
                && text::lowercase(q.order->0@) != "desc"@ ==> g == HttpGate::Refuse(
                StatusCode::BadRequest,
            )
            &&& entered && plain && !known ==> g == HttpGate::Refuse(StatusCode::Forbidden)
            &&& entered && plain && known ==> match a.jobs {
                None => g is Ask && g->Ask_0 is ListJobs,
                Some(Err(_)) => g == HttpGate::Refuse(StatusCode::InternalServerError),
                Some(Ok(_)) => g is Pass,
            }
        }),
{
}

/// A state is named by its own name, whatever its case; cancelled in either spelling.
pub proof fn a_state_is_named_by_its_name(s: Seq<char>, state: JobStatus)
    ensures
        status_named(s) matches Some(x) ==> text::lowercase(s) == x.lower() || (x is Cancelled
            && text::lowercase(s) == "canceled"@),
        text::lowercase(s) == state.lower() && !(state is Conflict) ==> status_named(s) == Some(
            state,
        ),
{
    reveal_strlit("pending");
    reveal_strlit("running");
    reveal_strlit("waiting");
    reveal_strlit("done");
    reveal_strlit("failed");
    reveal_strlit("dlq");
    reveal_strlit("cancelled");
    reveal_strlit("canceled");
    assert("pending"@[0] == 'p');
    assert("running"@[0] == 'r');
    assert("waiting"@[0] == 'w');
    assert("done"@[0] == 'd' && "done"@.len() == 4);
    assert("failed"@[0] == 'f');
    assert("dlq"@[0] == 'd' && "dlq"@.len() == 3);
    assert("cancelled"@[0] == 'c');
}

/// A page shows the jobs as they were found, and names the last one shown only when there are more.
pub proof fn a_page_of_jobs(jobs: Seq<JobRecord>, limit: nat, r: JobListResponse, i: int)
    requires
        job_page(jobs, limit, r),
        limit > 0,
    ensures
        r.items@.len() <= limit,
        jobs.len() <= limit ==> r.items@.len() == jobs.len() && r.next_cursor is None,
        jobs.len() > limit ==> r.items@.len() == limit && rows::opt_text(r.next_cursor) == Some(
            r.items@[r.items@.len() - 1].id@,
        ),
        0 <= i < r.items@.len() ==> *r.items@[i] == jobs[i],
{
    if jobs.len() > limit {
        assert(*r.items@[limit - 1] == jobs[limit - 1]);
    }
}

/// The job that is looked at, or cancelled, is the one of the request, among those of the own tenant
/// where there are several.
pub proof fn the_job_asked_for_is_meant(
    trust: TrustContext,
    id: Seq<char>,
    st: JobsSettings,
    a: Answers,
)
    ensures
        ({
            let g = one_job_gate(trust, id, st, a);
            let h = cancel_gate(trust, id, st, a);
            let known = !st.multi_tenant || trust.tenant_view() is Some;
            let entered = trust.authenticated() && a.acl == Some(true) && a.write_scope == Some(
                true,
            );
            let found = known && ids::is_ulid(id) && (a.job matches Some(Ok(Some(_))));
            let state = a.job->0->Ok_0->0.lifecycle.status;
            &&& g matches HttpGate::Ask(q) ==> means(q, id, trust, st) && q is GetJob
            &&& h matches HttpGate::Ask(q) ==> match q {
                Question::Acl { op, locus } => op == AclOp::Write && locus == "main/jobs"@,
                Question::WriteScope { tenant } => tenant == trust.tenant_view(),
                _ => means(q, id, trust, st),
            }
            &&& !ids::is_ulid(id) ==> g == HttpGate::Refuse(StatusCode::BadRequest)
            &&& ids::is_ulid(id) && !known ==> g == HttpGate::Refuse(StatusCode::Forbidden)
            &&& ids::is_ulid(id) && known ==> match a.job {
                None => g is Ask,
                Some(Err(_)) => g == HttpGate::Refuse(StatusCode::InternalServerError),
                Some(Ok(None)) => g == HttpGate::Refuse(StatusCode::NotFound),
                Some(Ok(Some(_))) => g is Pass,
            }
            &&& !trust.authenticated() ==> h == HttpGate::Refuse(StatusCode::Unauthorized)
            &&& trust.authenticated() && a.acl == Some(false) ==> h == HttpGate::Refuse(
                StatusCode::Forbidden,
            )
            &&& trust.authenticated() && a.acl == Some(true) && a.write_scope == Some(false) ==> h
                == HttpGate::Refuse(StatusCode::Forbidden)
            &&& entered && found && state is Running ==> h == HttpGate::Refuse(StatusCode::Conflict)
            &&& entered && found && (state is Pending || state is Waiting) ==> match a.done {
                None => h is Ask && h->Ask_0 is CancelJob,
                Some(Err(_)) => h == HttpGate::Refuse(StatusCode::InternalServerError),
                Some(Ok(_)) => h is Pass,
            }
            &&& entered && found && !(state is Running || state is Pending || state is Waiting)
                ==> h is Pass
        }),
{
    if ids::is_ulid(id) {
        ids::an_identifier_has_one_text(id);
    }
}

/// Whether a question is about the job of a request, of the own tenant where there are several.
pub open spec fn means(q: Question, id: Seq<char>, trust: TrustContext, st: JobsSettings) -> bool {
    let (job, tenant) = match q {
        Question::GetJob { id: job, tenant } => (job, tenant),
        Question::CancelJob { id: job, tenant } => (job, tenant),
        _ => (Seq::empty(), None),
    };
    &&& q is GetJob || q is CancelJob
    &&& ids::is_ulid(job) && ids::is_ulid(id)
    &&& ids::base32_value(job) == ids::base32_value(id)
    &&& st.multi_tenant ==> tenant is Some && tenant == trust.tenant_view()
    &&& !st.multi_tenant ==> tenant is None
}

/// A job is shown as it stands.
pub proof fn a_job_is_shown_as_it_stands(r: JobRecord, v: JobStatusView)
    requires
        view_of(r, v),
    ensures
        v.job_id@ == r.id@,
        v.status == r.lifecycle.status,
        v.terminal <==> (r.lifecycle.status is Done || r.lifecycle.status is DLQ
            || r.lifecycle.status is Cancelled || r.lifecycle.status is Conflict),
        v.attempts == r.retry.count,
        v.created_at_ms == r.lifecycle.created_at_ms,
        v.completed_at_ms == r.lifecycle.completed_at_ms,
        v.error == r.retry.last_error,
        r.lifecycle.result matches Some(x) ==> v.conflict == x.conflict_payload && v.result_note
            == x.result_note,
        r.lifecycle.result is None ==> v.conflict is None && v.result_note is None,
{
}

/// A job is created once for each key, as the request says, for the tenant that it serves.
pub proof fn a_job_is_created_as_asked(
    trust: TrustContext,
    key: Option<Seq<char>>,
    body: CreateJobRequest,
    st: JobsSettings,
    id: NoteId,
    now_ms: i64,
    a: Answers,
)
    ensures
        create_work_gate(trust, key, body, st, id, now_ms, a) matches HttpGate::Ask(q) ==> match q {
            Question::KnownKey { key: k } => key == Some(k),
            Question::Tenant { requested } => st.multi_tenant && (match body.own_tenant {
                Some(t) => requested == Some(t@),
                None => requested is Some && requested == Some(job_vault(trust, st)),
            }),
            Question::Enqueue { record } => {
                &&& record.id == id
                &&& body.kind matches KindInput::Kind(job) && record.kind == job@
                &&& record.class == JobClass::Api
                &&& record.priority == JobPriority::OfClass
                &&& record.created_at_ms == now_ms && record.scheduled_at_ms == now_ms
                &&& record.status is Pending && record.count == 0
                &&& record.max == 3
                &&& record.backoff == Some(Backoff { base: 5, max: 120 })
                &&& body.triggered_by matches Some(t) ==> record.triggered_by == Some(t@)
                &&& body.triggered_by is None ==> record.triggered_by == Some("api"@)
                &&& st.multi_tenant && trust.tenant_view() is Some ==> Some(record.vault)
                    == trust.tenant_view()
                &&& !st.multi_tenant ==> record.vault == "main"@
            },
            Question::StoreKey { key: k, job_id } => key == Some(k) && (a.enqueued matches Some(
                Ok(job),
            ) && job_id == job@),
            _ => false,
        },
{
}

/// Creating a job is refused for cause only, and for the cause that there is.
pub proof fn creating_a_job_is_refused_for_cause(
    trust: TrustContext,
    key: Option<Seq<char>>,
    body: CreateJobRequest,
    st: JobsSettings,
    id: NoteId,
    now_ms: i64,
    a: Answers,
)
    ensures
        ({
            let g = create_work_gate(trust, key, body, st, id, now_ms, a);
            let h = create_right_gate(trust, st, a);
            let keyed = key matches Some(k) && 0 < k.len() && text::byte_length(k) <= 256;
            let anew = keyed && st.keeps_keys && (a.known_key matches Some(Ok(None)));
            let sound = anew && spec_fault(body.kind) is None && (st.multi_tenant ==> (
            a.tenant matches Some(Some(_))));
            &&& !keyed ==> g == HttpGate::Refuse(StatusCode::BadRequest)
            &&& keyed && !st.keeps_keys ==> g == HttpGate::Refuse(StatusCode::NotImplemented)
            &&& keyed && st.keeps_keys && (a.known_key matches Some(Err(_))) ==> g
                == HttpGate::Refuse(StatusCode::InternalServerError)
            &&& keyed && st.keeps_keys && (a.known_key matches Some(Ok(Some(_)))) ==> g is Pass
            &&& anew && spec_fault(body.kind) is Some ==> g is Pass
            &&& anew && spec_fault(body.kind) is None && st.multi_tenant && a.tenant == Some(
                None::<String>,
            ) ==> g == HttpGate::Refuse(StatusCode::Forbidden)
            &&& sound ==> match a.enqueued {
                None => g is Ask && g->Ask_0 is Enqueue,
                Some(Err(_)) => g == HttpGate::Refuse(StatusCode::InternalServerError),
                Some(Ok(_)) => if a.key_stored is None {
                    g is Ask && g->Ask_0 is StoreKey
                } else {
                    g is Pass
                },
            }
            &&& !trust.authenticated() ==> h == HttpGate::Refuse(StatusCode::Unauthorized)
            &&& trust.authenticated() && a.acl is None ==> h == HttpGate::Ask(
                Question::Acl { op: AclOp::Write, locus: "main/jobs"@ },
            )
            &&& trust.authenticated() && a.acl == Some(false) ==> h == HttpGate::Refuse(
                StatusCode::Forbidden,
            )
            &&& trust.authenticated() && a.acl == Some(true) && !st.multi_tenant ==> h is Pass
            &&& h is Pass && st.multi_tenant ==> a.write_scope == Some(true)
                && trust.tenant_view() is Some && (a.write_grant matches Some(Ok(_)))
            &&& trust.authenticated() && a.acl == Some(true) && a.write_scope == Some(true)
                && trust.tenant_view() is Some && (a.write_grant matches Some(Ok(_))) ==> h is Pass
            &&& h matches HttpGate::Ask(Question::WriteGrant { tenant }) ==> trust.tenant_view()
                == Some(tenant)
            &&& h matches HttpGate::Ask(Question::WriteScope { tenant }) ==> trust.tenant_view()
                == tenant
        }),
{
}

/// A kind of job is at fault when it is missing, malformed, one that nobody can ask for, or one that
/// forgets in more than one vault; else it is not.
pub proof fn a_kind_is_at_fault_for_cause(kind: KindInput)
    ensures
        kind is Absent || kind is Malformed ==> spec_fault(kind) is Some,
        kind matches KindInput::Kind(job) ==> {
            &&& job@ is Other ==> spec_fault(kind) is Some
            &&& (job@ is Curate || job@ is Distill || job@ is Purge || job@ is Embed) ==> spec_fault(
                kind,
            ) is None
            &&& job@ matches JobModel::Forget(spec) ==> (spec_fault(kind) is Some <==> (
            spec.scope matches ScopeModel::Agent { vaults, .. } && vaults.len() > 1))
        },
{
}

/// An event tells of its job, and ends the stream only when nothing more will happen to it.
pub proof fn an_event_tells_of_its_job(e: QueueEvent)
    ensures
        e is Other <==> event_facts(e) is None,
        e matches QueueEvent::JobInserted(job) ==> event_facts(e)->0.job == job
            && !event_facts(e)->0.last && event_facts(e)->0.attempts is None,
        e matches QueueEvent::JobReady(job) ==> event_facts(e)->0.job == job
            && !event_facts(e)->0.last && event_facts(e)->0.status == "pending"@,
        e matches QueueEvent::JobFailed(job, n) ==> event_facts(e)->0.job == job
            && !event_facts(e)->0.last && event_facts(e)->0.attempts == Some(n),
        e matches QueueEvent::JobCancelled(job) ==> event_facts(e)->0.job == job
            && event_facts(e)->0.last && event_facts(e)->0.status == "cancelled"@,
        e matches QueueEvent::JobCompleted(job, s) ==> event_facts(e)->0.job == job && (
        event_facts(e)->0.last <==> (s is Done || s is DLQ || s is Cancelled || s is Conflict)),
{
}

/// A numbered job is looked at by its number, by whoever may read the jobs.
pub proof fn a_numbered_job_is_looked_at_by_its_number(trust: TrustContext, id: i64, a: Answers)
    ensures
        ({
            let g = numbered_gate(trust, id, a);
            &&& !trust.authenticated() ==> g == HttpGate::Refuse(StatusCode::Unauthorized)
            &&& trust.authenticated() && a.acl == Some(false) ==> g == HttpGate::Refuse(
                StatusCode::Forbidden,
            )
            &&& g matches HttpGate::Ask(q) ==> match q {
                Question::Acl { op, locus } => op == AclOp::Read && locus == "main/jobs"@,
                Question::NumberedJob { id: n } => n == id,
                _ => false,
            }
            &&& trust.authenticated() && a.acl == Some(true) ==> match a.numbered_job {
                None => g is Ask && g->Ask_0 is NumberedJob,
                Some(Err(_)) => g == HttpGate::Refuse(StatusCode::InternalServerError),
                Some(Ok(None)) => g == HttpGate::Refuse(StatusCode::NotFound),
                Some(Ok(Some(_))) => g is Pass,
            }
        }),
{
}

/// Which of the four codes is told: the first one that fits what the worker said.
pub proof fn a_worker_error_has_its_code(raw: Seq<char>)
    ensures
        ({
            let input = text::has_infix(raw, "ULID invalide"@) || text::has_infix(
                raw,
                "invalid character"@,
            );
            let vault = text::has_infix(raw, "Vault::"@) || text::has_infix(
                raw,
                "vault non configuré"@,
            );
            let storage = text::has_infix(raw, "Storage"@) || text::has_infix(raw, "sqlx"@)
                || text::has_infix(raw, "SQLite"@);
            &&& input ==> error_code(raw) == "invalid_input"@
            &&& !input && vault ==> error_code(raw) == "vault_error"@
            &&& !input && !vault && storage ==> error_code(raw) == "storage_error"@
            &&& !input && !vault && !storage ==> error_code(raw) == "processing_error"@
        }),
{
}

/// A job that is created is told as accepted, under its identifier; one that a key led to before is
/// told as such, and a kind at fault is told as a bad request.
pub proof fn what_was_created_is_told(body: CreateJobRequest, a: Answers, r: CreateJobHttp)
    requires
        create_reply(body, a, r),
    ensures
        a.known_key->0->Ok_0 matches Some(existing) ==> (r matches CreateJobHttp::Reply(s, x) && s
            == StatusCode::Success && x.id@ == existing@ && x.idempotent),
        a.known_key->0->Ok_0 is None && spec_fault(body.kind) is Some ==> (
        r matches CreateJobHttp::Told(s, _) && s == StatusCode::BadRequest),
        a.known_key->0->Ok_0 is None && spec_fault(body.kind) is None ==> (
        r matches CreateJobHttp::Reply(s, x) && s == StatusCode::Accepted && x.id@
            == a.enqueued->0->Ok_0@ && !x.idempotent),
{
}

}
