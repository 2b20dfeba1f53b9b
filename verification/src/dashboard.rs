//! The state of a vault at a glance.

use vstd::prelude::*;
use vstd::string::*;

use crate::door::{self, HttpGate, HttpNext};
use crate::error::{GradatumError, StatusCode};
use crate::flow::{AclOp, Answers, Ask, Question};
use crate::ids;
use crate::queue::{JobCount, JobStatus, LatestJob};
use crate::rows::NamedCount;
use crate::trust::TrustContext;

verus! {

/// The job that was queued last.
#[derive(Debug)]
pub struct LastJobSummary {
    pub id: String,
    pub status: String,
    /// When the job was queued, in the manner of RFC 3339.
    pub created_at: String,
}

/// The state of a vault.
#[derive(Debug)]
pub struct DashboardResponse {
    /// How many notes there are of each status, whatever the status is.
    pub notes_by_status: Vec<NamedCount>,
    /// How many notes are forgotten.
    pub forgotten_count: u64,
    /// How many jobs there are in each state.
    pub jobs_by_status: Vec<NamedCount>,
    /// How many jobs wait.
    pub queue_depth: u64,
    /// How large the log of the database is, if it can be measured.
    pub wal_size_bytes: Option<u64>,
    pub last_job: Option<LastJobSummary>,
}

/// What the caller is told. Only a failure to count the notes is a failure.
pub open spec fn dashboard_gate(trust: TrustContext, a: Answers) -> HttpGate {
    if !trust.authenticated() {
        HttpGate::Refuse(StatusCode::Unauthorized)
    } else if a.acl is None {
        HttpGate::Ask(Question::Acl { op: AclOp::Read, locus: "main/dashboard"@ })
    } else if a.acl == Some(false) {
        HttpGate::Refuse(StatusCode::Forbidden)
    } else if a.status_counts is None {
        HttpGate::Ask(Question::StatusCounts { tenant: "main"@ })
    } else if a.status_counts->0 is Err {
        HttpGate::Refuse(StatusCode::InternalServerError)
    } else if a.forgotten_count is None {
        HttpGate::Ask(Question::CountForgotten { vault: "main"@ })
    } else if a.job_counts is None {
        HttpGate::Ask(Question::JobCounts {  })
    } else if a.wal_size is None {
        HttpGate::Ask(Question::WalSize {  })
    } else if a.latest_job is None {
        HttpGate::Ask(Question::LatestJob { tenant: "main"@ })
    } else {
        HttpGate::Pass
    }
}

/// Whether two lists of counts say the same.
pub open spec fn same_counts(x: Seq<NamedCount>, y: Seq<NamedCount>) -> bool {
    &&& x.len() == y.len()
    &&& forall|i: int|
        0 <= i < x.len() ==> (#[trigger] x[i]).name@ == y[i].name@ && x[i].note_count
            == y[i].note_count
}

/// The counts of the states of jobs; none, if they could not be counted.
pub open spec fn counted(jobs: Result<Vec<JobCount>, GradatumError>) -> Seq<JobCount> {
    match jobs {
        Ok(v) => v@,
        Err(_) => Seq::empty(),
    }
}

/// Whether `x` names the states of jobs and their counts.
pub open spec fn named_counts(x: Seq<NamedCount>, jobs: Seq<JobCount>) -> bool {
    &&& x.len() == jobs.len()
    &&& forall|i: int|
        0 <= i < x.len() ==> (#[trigger] x[i]).name@ == jobs[i].status.name() && x[i].note_count
            == jobs[i].count
}

/// How many jobs wait: the count of the waiting ones, or none.
pub open spec fn depth(jobs: Seq<JobCount>) -> u64
    decreases jobs.len(),
{
    if jobs.len() == 0 {
        0
    } else if jobs[0].status is Pending {
        jobs[0].count
    } else {
        depth(jobs.skip(1))
    }
}

/// The number of forgotten notes; none, if they could not be counted.
pub open spec fn forgotten(count: Result<usize, GradatumError>) -> u64 {
    match count {
        Ok(n) => n as u64,
        Err(_) => 0,
    }
}

/// How the job that was queued last is shown.
pub open spec fn last_job(
    job: Result<Option<LatestJob>, GradatumError>,
    stamp: Option<Seq<char>>,
    x: Option<LastJobSummary>,
) -> bool {
    match job {
        Ok(Some(j)) => match stamp {
            Some(t) => {
                &&& x is Some
                &&& x->0.id@ == j.id@
                &&& x->0.status@ == j.status.name()
                &&& x->0.created_at@ == t
            },
            None => x is None,
        },
        _ => x is None,
    }
}

/// How the moment of the job that was queued last is written.
pub open spec fn last_stamp(job: Result<Option<LatestJob>, GradatumError>) -> Option<Seq<char>> {
    match job {
        Ok(Some(j)) => ids::utc_precise(j.created_at.seconds, j.created_at.nanos),
        _ => None,
    }
}

/// What the dashboard shows.
pub open spec fn dashboard_reply(
    a: Answers,
    stamp: Option<Seq<char>>,
    x: DashboardResponse,
) -> bool {
    &&& same_counts(x.notes_by_status@, a.status_counts->0->Ok_0@)
    &&& x.forgotten_count == forgotten(a.forgotten_count->0)
    &&& named_counts(x.jobs_by_status@, counted(a.job_counts->0))
    &&& x.queue_depth == depth(counted(a.job_counts->0))
    &&& x.wal_size_bytes == a.wal_size->0
    &&& last_job(a.latest_job->0, stamp, x.last_job)
}

fn copy_counts(v: &Vec<NamedCount>) -> (r: Vec<NamedCount>)
    ensures
        same_counts(r@, v@),
{
    let mut out: Vec<NamedCount> = Vec::new();
    let mut i: usize = 0;
    while i < v.len()
        invariant
            i <= v@.len(),
            same_counts(out@, v@.take(i as int)),
        decreases v@.len() - i,
    {
        out.push(NamedCount { name: v[i].name.clone(), note_count: v[i].note_count });
        i = i + 1;
    }
    assert(v@.take(v@.len() as int) =~= v@);
    out
}

fn name_counts(jobs: &Vec<JobCount>) -> (r: Vec<NamedCount>)
    ensures
        named_counts(r@, jobs@),
{
    let mut out: Vec<NamedCount> = Vec::new();
    let mut i: usize = 0;
    while i < jobs.len()
        invariant
            i <= jobs@.len(),
            named_counts(out@, jobs@.take(i as int)),
        decreases jobs@.len() - i,
    {
        out.push(NamedCount { name: jobs[i].status.name_text(), note_count: jobs[i].count });
        i = i + 1;
    }
    assert(jobs@.take(jobs@.len() as int) =~= jobs@);
    out
}

/// How many jobs wait.
pub fn queue_depth(jobs: &Vec<JobCount>) -> (r: u64)
    ensures
        r == depth(jobs@),
{
    let mut i: usize = 0;
    assert(jobs@.skip(0) =~= jobs@);
    while i < jobs.len()
        invariant
            i <= jobs@.len(),
            depth(jobs@) == depth(jobs@.skip(i as int)),
        decreases jobs@.len() - i,
    {
        assert(jobs@.skip(i as int)[0] == jobs@[i as int]);
        assert(jobs@.skip(i as int).skip(1) =~= jobs@.skip(i + 1));
        if let JobStatus::Pending = jobs[i].status {
            return jobs[i].count;
        }
        i = i + 1;
    }
    0
}

/// How the job that was queued last is shown, with its moment as it is to be written.
pub fn summarize_job(job: &Result<Option<LatestJob>, GradatumError>, stamp: Option<String>) -> (r:
    Option<LastJobSummary>)
    ensures
        last_job(
            *job,
            match stamp {
                Some(t) => Some(t@),
                None => None,
            },
            r,
        ),
{
    match job {
        Ok(Some(j)) => match stamp {
            Some(t) => Some(
                LastJobSummary { id: j.id.text(), status: j.status.name_text(), created_at: t },
            ),
            None => None,
        },
        _ => None,
    }
}

/// Shows the state of the vault. What cannot be counted beside the notes is left out.
pub fn dashboard(trust: &TrustContext, a: &Answers) -> (r: HttpNext<DashboardResponse>)
    ensures
        door::follows(r, dashboard_gate(*trust, *a)),
        r matches HttpNext::Reply(x) ==> dashboard_reply(*a, last_stamp(a.latest_job->0), x),
{
    if !trust.is_authenticated() {
        return HttpNext::Refuse(StatusCode::Unauthorized);
    }
    match a.acl {
        None => return HttpNext::Ask(
            Ask::Acl { op: AclOp::Read, locus: "main/dashboard".to_owned() },
        ),
        Some(false) => return HttpNext::Refuse(StatusCode::Forbidden),
        Some(true) => {},
    }
    let notes = match &a.status_counts {
        None => return HttpNext::Ask(Ask::StatusCounts { tenant: "main".to_owned() }),
        Some(Err(_)) => return HttpNext::Refuse(StatusCode::InternalServerError),
        Some(Ok(v)) => v,
    };
    let forgotten_count: u64 = match &a.forgotten_count {
        None => return HttpNext::Ask(Ask::CountForgotten { vault: "main".to_owned() }),
        Some(Err(_)) => 0,
        Some(Ok(n)) => *n as u64,
    };
    let (jobs_by_status, queue_depth) = match &a.job_counts {
        None => return HttpNext::Ask(Ask::JobCounts {  }),
        Some(Err(_)) => (Vec::new(), 0),
        Some(Ok(v)) => (name_counts(v), queue_depth(v)),
    };
    let wal_size_bytes = match a.wal_size {
        None => return HttpNext::Ask(Ask::WalSize {  }),
        Some(size) => size,
    };
    let latest = match &a.latest_job {
        None => return HttpNext::Ask(Ask::LatestJob { tenant: "main".to_owned() }),
        Some(j) => j,
    };
    let stamp = match latest {
        Ok(Some(j)) => ids::utc_precise_text(j.created_at.seconds, j.created_at.nanos),
        _ => None,
    };
    HttpNext::Reply(
        DashboardResponse {
            notes_by_status: copy_counts(notes),
            forgotten_count,
            jobs_by_status,
            queue_depth,
            wal_size_bytes,
            last_job: summarize_job(latest, stamp),
        },
    )
}

// ── Laws ────────────────────────────────────────────────────────────────────

/// A size that could not be measured is never shown as a number, and in particular not as zero.
pub proof fn what_is_not_measured_is_not_shown(
    a: Answers,
    stamp: Option<Seq<char>>,
    x: DashboardResponse,
)
    requires
        dashboard_reply(a, stamp, x),
        a.wal_size == Some(None::<u64>),
    ensures
        x.wal_size_bytes is None,
{
}

/// Once the notes were counted, nothing that fails keeps the dashboard from being shown.
pub proof fn the_dashboard_degrades(trust: TrustContext, a: Answers)
    requires
        trust.authenticated(),
        a.acl == Some(true),
        a.status_counts matches Some(c) && c is Ok,
    ensures
        !(dashboard_gate(trust, a) is Refuse),
{
}

/// The dashboard is about the one vault, shown to whoever may read it.
pub proof fn the_dashboard_is_about_the_vault(trust: TrustContext, a: Answers)
    ensures
        ({
            let g = dashboard_gate(trust, a);
            &&& g matches HttpGate::Ask(q) ==> match q {
                Question::Acl { op, locus } => op == AclOp::Read && locus == "main/dashboard"@,
                Question::StatusCounts { tenant } => a.acl == Some(true) && tenant == "main"@,
                Question::CountForgotten { vault } => a.acl == Some(true) && vault == "main"@,
                Question::LatestJob { tenant } => a.acl == Some(true) && tenant == "main"@,
                Question::JobCounts {  } => a.acl == Some(true),
                Question::WalSize {  } => a.acl == Some(true),
                _ => false,
            }
            &&& !trust.authenticated() ==> g == HttpGate::Refuse(StatusCode::Unauthorized)
            &&& trust.authenticated() && a.acl == Some(false) ==> g == HttpGate::Refuse(
                StatusCode::Forbidden,
            )
            &&& trust.authenticated() && a.acl == Some(true) && (a.status_counts matches Some(
                Err(_),
            )) ==> g == HttpGate::Refuse(StatusCode::InternalServerError)
            &&& g is Pass ==> a.status_counts is Some && a.forgotten_count is Some && a.job_counts
                is Some && a.wal_size is Some && a.latest_job is Some
        }),
{
    if a.acl is Some {
        assert(a.acl == Some(a.acl->0));
    }
}

/// The dashboard shows what was counted, name by name; what could not be counted is shown as none.
pub proof fn the_dashboard_shows_what_was_counted(
    a: Answers,
    stamp: Option<Seq<char>>,
    x: DashboardResponse,
    i: int,
)
    requires
        dashboard_reply(a, stamp, x),
    ensures
        ({
            let notes = a.status_counts->0->Ok_0@;
            &&& x.notes_by_status@.len() == notes.len()
            &&& 0 <= i < notes.len() ==> x.notes_by_status@[i].name@ == notes[i].name@
                && x.notes_by_status@[i].note_count == notes[i].note_count
        }),
        a.job_counts->0 matches Ok(jobs) ==> {
            &&& x.jobs_by_status@.len() == jobs@.len()
            &&& 0 <= i < jobs@.len() ==> x.jobs_by_status@[i].name@ == jobs@[i].status.name()
                && x.jobs_by_status@[i].note_count == jobs@[i].count
            &&& (0 <= i < jobs@.len() && jobs@[i].status is Pending && forall|k: int|
                0 <= k < i ==> !((#[trigger] jobs@[k]).status is Pending)) ==> x.queue_depth
                == jobs@[i].count
            &&& (forall|k: int| 0 <= k < jobs@.len() ==> !((#[trigger] jobs@[k]).status is Pending))
                ==> x.queue_depth == 0
        },
        a.job_counts->0 is Err ==> x.jobs_by_status@.len() == 0 && x.queue_depth == 0,
        a.forgotten_count->0 matches Ok(n) ==> x.forgotten_count == n,
        a.forgotten_count->0 is Err ==> x.forgotten_count == 0,
        x.wal_size_bytes == a.wal_size->0,
        a.latest_job->0 matches Ok(Some(j)) ==> (stamp matches Some(t) ==> x.last_job is Some
            && x.last_job->0.id@ == j.id@ && x.last_job->0.status@ == j.status.name()
            && x.last_job->0.created_at@ == t),
        !(a.latest_job->0 matches Ok(Some(_))) ==> x.last_job is None,
{
    if let Ok(jobs) = a.job_counts->0 {
        lemma_depth(jobs@, i);
    }
}

proof fn lemma_depth(jobs: Seq<JobCount>, i: int)
    ensures
        (0 <= i < jobs.len() && jobs[i].status is Pending && forall|k: int|
            0 <= k < i ==> !((#[trigger] jobs[k]).status is Pending)) ==> depth(jobs)
            == jobs[i].count,
        (forall|k: int| 0 <= k < jobs.len() ==> !((#[trigger] jobs[k]).status is Pending)) ==> depth(
            jobs,
        ) == 0,
    decreases jobs.len(),
{
    if jobs.len() > 0 && !(jobs[0].status is Pending) {
        let rest = jobs.skip(1);
        lemma_depth(rest, i - 1);
        assert forall|k: int|
            0 <= k < rest.len() && !(jobs[k + 1].status is Pending) implies !((
        #[trigger] rest[k]).status is Pending) by {}
        if 0 <= i < jobs.len() && jobs[i].status is Pending && forall|k: int|
            0 <= k < i ==> !((#[trigger] jobs[k]).status is Pending) {
            assert(rest[i - 1] == jobs[i]);
            assert forall|k: int| 0 <= k < i - 1 implies !((#[trigger] rest[k]).status is Pending) by {
                assert(!(jobs[k + 1].status is Pending));
            }
        }
        if forall|k: int| 0 <= k < jobs.len() ==> !((#[trigger] jobs[k]).status is Pending) {
            assert forall|k: int| 0 <= k < rest.len() implies !((#[trigger] rest[k]).status
                is Pending) by {
                assert(!(jobs[k + 1].status is Pending));
            }
        }
    }
}

}
