//! Jobs: what the queue holds.

use vstd::prelude::*;
use vstd::string::*;

use crate::ids::{Moment, NoteId};
use crate::rows;
use crate::text;

verus! {

/// Which notes are to be forgotten.
#[allow(inconsistent_fields)]
#[derive(Debug)]
pub enum ForgetScope {
    /// Those that a query finds, in the given vault or in the caller's own.
    Topic { query: String, vault: Option<String>, limit: Option<usize> },
    /// Those below a locus.
    Locus { vault: String, locus: String },
    /// Those of an agent.
    Agent { agent_id: String, vaults: Vec<String> },
}

/// A [`ForgetScope`] by its contents.
#[allow(inconsistent_fields)]
#[verifier::ext_equal]
pub enum ScopeModel {
    Topic { query: Seq<char>, vault: Option<Seq<char>>, limit: Option<usize> },
    Locus { vault: Seq<char>, locus: Seq<char> },
    Agent { agent_id: Seq<char>, vaults: Seq<Seq<char>> },
}

impl View for ForgetScope {
    type V = ScopeModel;

    open spec fn view(&self) -> ScopeModel {
        match *self {
            ForgetScope::Topic { query, vault, limit } => ScopeModel::Topic {
                query: query@,
                vault: rows::opt_text(vault),
                limit,
            },
            ForgetScope::Locus { vault, locus } => ScopeModel::Locus {
                vault: vault@,
                locus: locus@,
            },
            ForgetScope::Agent { agent_id, vaults } => ScopeModel::Agent {
                agent_id: agent_id@,
                vaults: text::views(vaults@),
            },
        }
    }
}

/// What a job that forgets is to do.
#[derive(Debug)]
pub struct ForgetSpec {
    pub scope: ForgetScope,
    pub dry_run: bool,
    pub forgotten_by: Option<String>,
    pub confirm_ulids: Vec<String>,
}

/// A [`ForgetSpec`] by its contents.
#[verifier::ext_equal]
pub struct ForgetModel {
    pub scope: ScopeModel,
    pub dry_run: bool,
    pub forgotten_by: Option<Seq<char>>,
    pub confirm_ulids: Seq<Seq<char>>,
}

impl View for ForgetSpec {
    type V = ForgetModel;

    open spec fn view(&self) -> ForgetModel {
        ForgetModel {
            scope: self.scope@,
            dry_run: self.dry_run,
            forgotten_by: rows::opt_text(self.forgotten_by),
            confirm_ulids: text::views(self.confirm_ulids@),
        }
    }
}

/// What a job does, and on what: `data` is what the kind carries, as the queue spells it.
#[derive(Debug)]
pub enum Job {
    Curate { data: String },
    Distill { data: String },
    Purge { data: String },
    Embed { data: String },
    Forget(ForgetSpec),
    /// A kind that is not triggered from outside, by its name.
    Other(String),
}

/// A [`Job`] by its contents.
#[verifier::ext_equal]
pub enum JobModel {
    Curate { data: Seq<char> },
    Distill { data: Seq<char> },
    Purge { data: Seq<char> },
    Embed { data: Seq<char> },
    Forget(ForgetModel),
    Other(Seq<char>),
}

impl View for Job {
    type V = JobModel;

    open spec fn view(&self) -> JobModel {
        match *self {
            Job::Curate { data } => JobModel::Curate { data: data@ },
            Job::Distill { data } => JobModel::Distill { data: data@ },
            Job::Purge { data } => JobModel::Purge { data: data@ },
            Job::Embed { data } => JobModel::Embed { data: data@ },
            Job::Forget(spec) => JobModel::Forget(spec@),
            Job::Other(name) => JobModel::Other(name@),
        }
    }
}

/// Who a job is for.
#[derive(Debug, Clone, Copy, PartialEq, Eq, Structural)]
pub enum JobClass {
    Agent,
    Api,
}

/// How urgent a job is.
#[derive(Debug, Clone, Copy, PartialEq, Eq, Structural)]
pub enum JobPriority {
    Normal,
    /// As urgent as jobs of its class are.
    OfClass,
}

/// The state of a job.
#[derive(Debug, Clone, Copy, PartialEq, Eq, Structural)]
pub enum JobStatus {
    Pending,
    Running,
    Waiting,
    Done,
    Failed,
    DLQ,
    Cancelled,
    Conflict,
}

impl JobStatus {
    /// Whether nothing will happen to the job any more. A failed job will be tried again.
    pub open spec fn terminal(self) -> bool {
        self is Done || self is DLQ || self is Cancelled || self is Conflict
    }

    /// Whether nothing will happen to the job any more.
    pub fn is_terminal(&self) -> (r: bool)
        ensures
            r == self.terminal(),
    {
        match self {
            JobStatus::Done => true,
            JobStatus::DLQ => true,
            JobStatus::Cancelled => true,
            JobStatus::Conflict => true,
            _ => false,
        }
    }

    /// The name of the state.
    pub open spec fn name(self) -> Seq<char> {
        match self {
            JobStatus::Pending => "Pending"@,
            JobStatus::Running => "Running"@,
            JobStatus::Waiting => "Waiting"@,
            JobStatus::Done => "Done"@,
            JobStatus::Failed => "Failed"@,
            JobStatus::DLQ => "DLQ"@,
            JobStatus::Cancelled => "Cancelled"@,
            JobStatus::Conflict => "Conflict"@,
        }
    }

    /// The name of the state.
    pub fn name_text(&self) -> (r: String)
        ensures
            r@ == self.name(),
    {
        match self {
            JobStatus::Pending => "Pending".to_owned(),
            JobStatus::Running => "Running".to_owned(),
            JobStatus::Waiting => "Waiting".to_owned(),
            JobStatus::Done => "Done".to_owned(),
            JobStatus::Failed => "Failed".to_owned(),
            JobStatus::DLQ => "DLQ".to_owned(),
            JobStatus::Cancelled => "Cancelled".to_owned(),
            JobStatus::Conflict => "Conflict".to_owned(),
        }
    }

    /// The name of the state in lower case.
    pub open spec fn lower(self) -> Seq<char> {
        match self {
            JobStatus::Pending => "pending"@,
            JobStatus::Running => "running"@,
            JobStatus::Waiting => "waiting"@,
            JobStatus::Done => "done"@,
            JobStatus::Failed => "failed"@,
            JobStatus::DLQ => "dlq"@,
            JobStatus::Cancelled => "cancelled"@,
            JobStatus::Conflict => "conflict"@,
        }
    }

    /// The name of the state in lower case.
    pub fn lower_text(&self) -> (r: String)
        ensures
            r@ == self.lower(),
    {
        match self {
            JobStatus::Pending => "pending".to_owned(),
            JobStatus::Running => "running".to_owned(),
            JobStatus::Waiting => "waiting".to_owned(),
            JobStatus::Done => "done".to_owned(),
            JobStatus::Failed => "failed".to_owned(),
            JobStatus::DLQ => "dlq".to_owned(),
            JobStatus::Cancelled => "cancelled".to_owned(),
            JobStatus::Conflict => "conflict".to_owned(),
        }
    }
}

/// How the waits between attempts grow, in seconds.
#[derive(Debug, Clone, Copy, PartialEq, Eq, Structural)]
pub struct Backoff {
    pub base: u32,
    pub max: u32,
}

/// How a job is worked off.
#[derive(Debug, Clone, Copy, PartialEq, Eq, Structural)]
pub enum JobMode {
    Batch,
}

/// What made a job come about.
#[derive(Debug, Clone, Copy, PartialEq, Eq, Structural)]
pub enum TriggerSource {
    /// Somebody asked for it.
    Demand,
}

/// What a job is to do.
#[derive(Debug)]
pub struct JobSpec {
    pub kind: Job,
    pub class: JobClass,
    pub mode: JobMode,
    /// The one vault that the job works on.
    pub vault: String,
    pub priority: JobPriority,
}

/// When a job is to run.
#[derive(Debug)]
pub struct JobScheduling {
    pub trigger: TriggerSource,
    pub scheduled_at_ms: i64,
    /// The jobs that have to end before.
    pub await_jobs: Vec<NoteId>,
    pub deadline_ms: Option<i64>,
    pub cron_expr: Option<String>,
}

/// What has become of a job.
#[derive(Debug)]
pub struct JobLifecycle {
    pub status: JobStatus,
    pub created_at_ms: i64,
    pub started_at_ms: Option<i64>,
    pub completed_at_ms: Option<i64>,
    pub lease_until_ms: Option<i64>,
    pub result: Option<JobResult>,
}

/// How often a job is tried.
#[derive(Debug)]
pub struct JobRetry {
    pub count: u32,
    /// How many more attempts a failure is worth.
    pub max: u32,
    /// The waits; those of the queue when absent.
    pub backoff: Option<Backoff>,
    pub last_error: Option<String>,
    /// What went wrong, attempt by attempt.
    pub errors: Vec<String>,
}

/// What a job came from, and what came of it.
#[derive(Debug)]
pub struct JobLineage {
    pub triggered_by: Option<String>,
    pub parent_job: Option<NoteId>,
    pub pipeline_id: Option<NoteId>,
    pub pipeline_step: Option<u32>,
    pub children: Vec<NoteId>,
}

/// What a job led to.
#[derive(Debug)]
pub struct JobResult {
    /// The two hashes that did not agree, as the queue keeps them.
    pub conflict_payload: Option<String>,
    pub result_note: Option<NoteId>,
}

/// A job.
#[derive(Debug)]
pub struct JobRecord {
    pub id: NoteId,
    pub spec: JobSpec,
    pub scheduling: JobScheduling,
    pub lifecycle: JobLifecycle,
    pub retry: JobRetry,
    pub lineage: JobLineage,
}

/// A [`JobRecord`] by its contents.
#[verifier::ext_equal]
pub struct RecordModel {
    pub id: NoteId,
    pub kind: JobModel,
    pub class: JobClass,
    pub mode: JobMode,
    pub vault: Seq<char>,
    pub priority: JobPriority,
    pub trigger: TriggerSource,
    pub scheduled_at_ms: i64,
    pub await_jobs: Seq<NoteId>,
    pub deadline_ms: Option<i64>,
    pub cron_expr: Option<Seq<char>>,
    pub status: JobStatus,
    pub created_at_ms: i64,
    pub started_at_ms: Option<i64>,
    pub completed_at_ms: Option<i64>,
    pub lease_until_ms: Option<i64>,
    /// The conflict and the note that the job led to.
    pub result: Option<(Option<Seq<char>>, Option<NoteId>)>,
    pub count: u32,
    pub max: u32,
    pub backoff: Option<Backoff>,
    pub last_error: Option<Seq<char>>,
    pub errors: Seq<Seq<char>>,
    pub triggered_by: Option<Seq<char>>,
    pub parent_job: Option<NoteId>,
    pub pipeline_id: Option<NoteId>,
    pub pipeline_step: Option<u32>,
    pub children: Seq<NoteId>,
}

impl View for JobRecord {
    type V = RecordModel;

    open spec fn view(&self) -> RecordModel {
        RecordModel {
            id: self.id,
            kind: self.spec.kind@,
            class: self.spec.class,
            mode: self.spec.mode,
            vault: self.spec.vault@,
            priority: self.spec.priority,
            trigger: self.scheduling.trigger,
            scheduled_at_ms: self.scheduling.scheduled_at_ms,
            await_jobs: self.scheduling.await_jobs@,
            deadline_ms: self.scheduling.deadline_ms,
            cron_expr: rows::opt_text(self.scheduling.cron_expr),
            status: self.lifecycle.status,
            created_at_ms: self.lifecycle.created_at_ms,
            started_at_ms: self.lifecycle.started_at_ms,
            completed_at_ms: self.lifecycle.completed_at_ms,
            lease_until_ms: self.lifecycle.lease_until_ms,
            result: match self.lifecycle.result {
                Some(x) => Some((rows::opt_text(x.conflict_payload), x.result_note)),
                None => None,
            },
            count: self.retry.count,
            max: self.retry.max,
            backoff: self.retry.backoff,
            last_error: rows::opt_text(self.retry.last_error),
            errors: text::views(self.retry.errors@),
            triggered_by: rows::opt_text(self.lineage.triggered_by),
            parent_job: self.lineage.parent_job,
            pipeline_id: self.lineage.pipeline_id,
            pipeline_step: self.lineage.pipeline_step,
            children: self.lineage.children@,
        }
    }
}

/// A job that somebody asked for and that waits for its first attempt, due at once.
pub open spec fn pending(
    id: NoteId,
    kind: JobModel,
    class: JobClass,
    vault: Seq<char>,
    priority: JobPriority,
    now_ms: i64,
    max: u32,
    backoff: Option<Backoff>,
    triggered_by: Option<Seq<char>>,
) -> RecordModel {
    RecordModel {
        id,
        kind,
        class,
        mode: JobMode::Batch,
        vault,
        priority,
        trigger: TriggerSource::Demand,
        scheduled_at_ms: now_ms,
        await_jobs: Seq::empty(),
        deadline_ms: None,
        cron_expr: None,
        status: JobStatus::Pending,
        created_at_ms: now_ms,
        started_at_ms: None,
        completed_at_ms: None,
        lease_until_ms: None,
        result: None,
        count: 0,
        max,
        backoff,
        last_error: None,
        errors: Seq::empty(),
        triggered_by,
        parent_job: None,
        pipeline_id: None,
        pipeline_step: None,
        children: Seq::empty(),
    }
}

impl JobRecord {
    /// A job that somebody asked for and that waits for its first attempt, due at once.
    pub fn demanded(
        id: NoteId,
        kind: Job,
        class: JobClass,
        vault: &str,
        priority: JobPriority,
        now_ms: i64,
        max: u32,
        backoff: Option<Backoff>,
        triggered_by: Option<String>,
    ) -> (r: JobRecord)
        ensures
            r@ == pending(
                id,
                kind@,
                class,
                vault@,
                priority,
                now_ms,
                max,
                backoff,
                rows::opt_text(triggered_by),
            ),
    {
        let errors: Vec<String> = Vec::new();
        assert(text::views(errors@) =~= Seq::empty());
        JobRecord {
            id,
            spec: JobSpec { kind, class, mode: JobMode::Batch, vault: vault.to_owned(), priority },
            scheduling: JobScheduling {
                trigger: TriggerSource::Demand,
                scheduled_at_ms: now_ms,
                await_jobs: Vec::new(),
                deadline_ms: None,
                cron_expr: None,
            },
            lifecycle: JobLifecycle {
                status: JobStatus::Pending,
                created_at_ms: now_ms,
                started_at_ms: None,
                completed_at_ms: None,
                lease_until_ms: None,
                result: None,
            },
            retry: JobRetry { count: 0, max, backoff, last_error: None, errors },
            lineage: JobLineage {
                triggered_by,
                parent_job: None,
                pipeline_id: None,
                pipeline_step: None,
                children: Vec::new(),
            },
        }
    }
}

/// The order in which jobs are listed.
#[derive(Debug, Clone, Copy, PartialEq, Eq, Structural)]
pub enum JobOrder {
    /// The oldest first.
    CreatedAsc,
    /// The newest first.
    CreatedDesc,
}

/// Which jobs to list.
#[derive(Debug)]
pub struct JobFilter {
    pub status: Option<JobStatus>,
    pub kind: Option<String>,
    /// The jobs created after this moment.
    pub created_after: Option<Moment>,
    /// The jobs created before this moment.
    pub created_before: Option<Moment>,
    pub order: JobOrder,
    /// The job after which the list begins.
    pub cursor: Option<NoteId>,
    pub limit: usize,
    pub tenant: Option<String>,
}

/// A [`JobFilter`] by its contents.
#[verifier::ext_equal]
pub struct FilterModel {
    pub status: Option<JobStatus>,
    pub kind: Option<Seq<char>>,
    pub created_after: Option<Moment>,
    pub created_before: Option<Moment>,
    pub order: JobOrder,
    pub cursor: Option<NoteId>,
    pub limit: nat,
    pub tenant: Option<Seq<char>>,
}

impl View for JobFilter {
    type V = FilterModel;

    open spec fn view(&self) -> FilterModel {
        FilterModel {
            status: self.status,
            kind: rows::opt_text(self.kind),
            created_after: self.created_after,
            created_before: self.created_before,
            order: self.order,
            cursor: self.cursor,
            limit: self.limit as nat,
            tenant: rows::opt_text(self.tenant),
        }
    }
}

/// A job of the numbered queue.
#[derive(Debug)]
pub struct NumberedJob {
    pub id: i64,
    pub status: String,
    pub attempts: i32,
    pub last_error: Option<String>,
}

/// How many jobs are in a state.
#[derive(Debug, Clone, Copy, PartialEq, Eq, Structural)]
pub struct JobCount {
    pub status: JobStatus,
    pub count: u64,
}

/// The job that was queued last.
#[derive(Debug, Clone, Copy, PartialEq, Eq, Structural)]
pub struct LatestJob {
    pub id: NoteId,
    pub status: JobStatus,
    pub created_at: Moment,
}

// ── Laws ────────────────────────────────────────────────────────────────────

/// A job that is queued waits: it is due at once, was never tried, led to nothing yet and depends
/// on no other.
pub proof fn a_queued_job_waits(
    id: NoteId,
    kind: JobModel,
    class: JobClass,
    vault: Seq<char>,
    priority: JobPriority,
    now_ms: i64,
    max: u32,
    backoff: Option<Backoff>,
    triggered_by: Option<Seq<char>>,
)
    ensures
        ({
            let r = pending(id, kind, class, vault, priority, now_ms, max, backoff, triggered_by);
            &&& r.id == id && r.kind == kind && r.class == class && r.vault == vault
            &&& r.priority == priority && r.max == max && r.backoff == backoff
            &&& r.triggered_by == triggered_by
            &&& r.status is Pending
            &&& r.scheduled_at_ms == now_ms && r.created_at_ms == now_ms
            &&& r.started_at_ms is None && r.completed_at_ms is None && r.lease_until_ms is None
            &&& r.count == 0 && r.last_error is None && r.errors.len() == 0
            &&& r.result is None && r.deadline_ms is None && r.cron_expr is None
            &&& r.await_jobs.len() == 0 && r.children.len() == 0
            &&& r.parent_job is None && r.pipeline_id is None && r.pipeline_step is None
            &&& r.trigger is Demand && r.mode is Batch
        }),
{
}

/// A job has ended once it was done, given up, cancelled or found in conflict; a failure can be
/// tried again.
pub proof fn a_failure_is_no_end(s: JobStatus)
    ensures
        s is Done || s is DLQ || s is Cancelled || s is Conflict ==> s.terminal(),
        s is Pending || s is Running || s is Waiting || s is Failed ==> !s.terminal(),
{
}

/// What is said of a scope, of a job and of a filter is what they hold, each thing in its own place.
pub proof fn a_job_says_what_it_holds(scope: ForgetScope, spec: ForgetSpec, f: JobFilter)
    ensures
        match scope {
            ForgetScope::Topic { query, vault, limit } => scope@ is Topic && scope@->Topic_query
                == query@ && scope@->Topic_vault == rows::opt_text(vault) && scope@->Topic_limit
                == limit,
            ForgetScope::Locus { vault, locus } => scope@ is Locus && scope@->Locus_vault == vault@
                && scope@->Locus_locus == locus@,
            ForgetScope::Agent { agent_id, vaults } => scope@ is Agent && scope@->Agent_agent_id
                == agent_id@ && scope@->Agent_vaults == text::views(vaults@),
        },
        spec@.scope == spec.scope@,
        spec@.dry_run == spec.dry_run,
        spec@.forgotten_by == rows::opt_text(spec.forgotten_by),
        spec@.confirm_ulids == text::views(spec.confirm_ulids@),
        f@.status == f.status,
        f@.kind == rows::opt_text(f.kind),
        f@.created_after == f.created_after,
        f@.created_before == f.created_before,
        f@.order == f.order,
        f@.cursor == f.cursor,
        f@.limit == f.limit,
        f@.tenant == rows::opt_text(f.tenant),
{
}

}
