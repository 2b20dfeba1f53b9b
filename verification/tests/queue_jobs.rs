//! Jobs of the queue.

use gradatum_api::door::HttpNext;
use gradatum_api::error::{GradatumError, StatusCode};
use gradatum_api::flow::{Answers, Ask};
use gradatum_api::ids::NoteId;
use gradatum_api::jobs::{
    build_job_record_from_spec, cancel_job, create_job, get_job, get_job_v2, job_event,
    job_events, job_kind_is_triggerable, job_status_mcp, jobs_locus, list_jobs, parse_opt_rfc3339,
    parse_order, parse_status, sanitize_job_error, target_vault, CreateJobHttp, CreateJobRequest,
    JobListQuery, JobSpecError, JobsSettings, KindInput, QueueEvent,
};
use gradatum_api::queue::{
    Backoff, Job, JobClass, JobOrder, JobPriority, JobRecord, JobStatus, NumberedJob,
};
use gradatum_api::trust::TrustContext;

#[test]
fn ulid_error_maps_invalid_input() {
    assert_eq!(sanitize_job_error("ULID invalide abc123: invalid character"), "invalid_input");
}

#[test]
fn vault_error_maps_vault_error() {
    assert_eq!(
        sanitize_job_error("Vault::open(/var/lib/gradatum/vault) failed: permission denied"),
        "vault_error"
    );
}

#[test]
fn storage_error_maps_storage_error() {
    assert_eq!(sanitize_job_error("Storage(\"sqlx: connection refused\")"), "storage_error");
}

#[test]
fn fallback_processing_error() {
    assert_eq!(sanitize_job_error("unknown failure mode"), "processing_error");
}

// ── Scenarios of the library's own ──────────────────────────────────────────

const ID: &str = "01ARZ3NDEKTSV4RRFFQ69G5FAV";
const ST: JobsSettings = JobsSettings { multi_tenant: false, keeps_keys: true };

fn agent() -> TrustContext {
    TrustContext::BearerToken {
        kid: "k".into(),
        aud: "gradatum".into(),
        sub: "agent".into(),
        scopes: vec!["write".into()],
        tenant_id: "main".into(),
        jti: None,
    }
}

fn curate() -> Job {
    Job::Curate { data: format!("{{\"note_id\":\"{ID}\"}}") }
}

fn job(status: JobStatus) -> JobRecord {
    let mut record = JobRecord::demanded(
        NoteId::parse(ID).unwrap(),
        curate(),
        JobClass::Api,
        "main",
        JobPriority::Normal,
        1,
        3,
        None::<Backoff>,
        None,
    );
    record.lifecycle.status = status;
    record.retry.count = 2;
    record.retry.last_error = Some("Storage(x)".into());
    record
}

fn allowed() -> Answers {
    let mut a = Answers::none();
    a.acl = Some(true);
    a.write_scope = Some(true);
    a.resolved = Some(Ok("main".into()));
    a.write_grant = Some(Ok(()));
    a
}

#[test]
fn names_of_orders_and_states() {
    assert_eq!(parse_order("ASC"), Some(JobOrder::CreatedAsc));
    assert_eq!(parse_order("desc"), Some(JobOrder::CreatedDesc));
    assert_eq!(parse_order("up"), None);
    assert_eq!(parse_status("Pending"), Some(JobStatus::Pending));
    assert_eq!(parse_status("DLQ"), Some(JobStatus::DLQ));
    assert_eq!(parse_status("lost"), None);
    assert_eq!(target_vault(), "main");
    assert_eq!(jobs_locus(), "main/jobs");
}

#[test]
fn moments_are_read_in_utc() {
    let m = parse_opt_rfc3339(&Some("1970-01-01T00:00:01.5Z".into())).unwrap().unwrap();
    assert_eq!((m.seconds, m.nanos), (1, 500_000_000));
    let m = parse_opt_rfc3339(&Some("1970-01-01T01:00:00+01:00".into())).unwrap().unwrap();
    assert_eq!((m.seconds, m.nanos), (0, 0));
    assert_eq!(parse_opt_rfc3339(&None), Ok(None));
    assert_eq!(parse_opt_rfc3339(&Some("yesterday".into())), Err(()));
}

#[test]
fn a_page_of_jobs_names_the_next_one() {
    let mut a = allowed();
    let mut other = job(JobStatus::Done);
    other.id = NoteId::parse("01BX5ZZKBKACTAV9WEVGEMMVRZ").unwrap();
    a.jobs = Some(Ok(vec![job(JobStatus::Pending), other]));
    let q = JobListQuery {
        status: None,
        kind: None,
        since: None,
        created_after: None,
        created_before: None,
        order: None,
        limit: Some(1),
        cursor: None,
    };
    match list_jobs(&agent(), &q, &ST, &a) {
        HttpNext::Reply(x) => {
            assert_eq!(x.items.len(), 1);
            assert_eq!(x.next_cursor.as_deref(), Some(ID));
        }
        other => panic!("{other:?}"),
    }
    let bad = JobListQuery { order: Some("up".into()), ..q };
    match list_jobs(&agent(), &bad, &ST, &a) {
        HttpNext::Refuse(s) => assert_eq!(s, StatusCode::BadRequest),
        other => panic!("{other:?}"),
    }
}

#[test]
fn one_job_is_found_or_not() {
    let mut a = allowed();
    match get_job_v2(&agent(), "nope", &ST, &a) {
        HttpNext::Refuse(s) => assert_eq!(s, StatusCode::BadRequest),
        other => panic!("{other:?}"),
    }
    a.job = Some(Ok(None));
    match get_job_v2(&agent(), ID, &ST, &a) {
        HttpNext::Refuse(s) => assert_eq!(s, StatusCode::NotFound),
        other => panic!("{other:?}"),
    }
    a.job = Some(Ok(Some(job(JobStatus::Running))));
    match get_job_v2(&agent(), ID, &ST, &a) {
        HttpNext::Reply(j) => assert_eq!(j.lifecycle.status, JobStatus::Running),
        other => panic!("{other:?}"),
    }
    match get_job_v2(&TrustContext::Unauthenticated, ID, &ST, &a) {
        HttpNext::Refuse(s) => assert_eq!(s, StatusCode::Unauthorized),
        other => panic!("{other:?}"),
    }
    match job_status_mcp(&agent(), ID, &ST, &a) {
        HttpNext::Reply(v) => {
            assert_eq!(v.job_id, ID);
            assert!(!v.terminal);
            assert_eq!(v.attempts, 2);
        }
        other => panic!("{other:?}"),
    }
}

#[test]
fn a_job_that_ran_is_left_as_it_is() {
    for (status, told) in [(JobStatus::Done, "done"), (JobStatus::Failed, "failed")] {
        let mut a = allowed();
        a.job = Some(Ok(Some(job(status))));
        match cancel_job(&agent(), ID, &ST, &a) {
            HttpNext::Reply(x) => assert_eq!(x.status, told),
            other => panic!("{other:?}"),
        }
    }
    let mut a = allowed();
    a.job = Some(Ok(Some(job(JobStatus::Pending))));
    match cancel_job(&agent(), ID, &ST, &a) {
        HttpNext::Ask(Ask::CancelJob { id, .. }) => assert_eq!(id, ID),
        other => panic!("{other:?}"),
    }
    a.done = Some(Ok(()));
    match cancel_job(&agent(), ID, &ST, &a) {
        HttpNext::Reply(x) => assert_eq!(x.status, "Cancelled"),
        other => panic!("{other:?}"),
    }
}

#[test]
fn only_some_kinds_are_triggered_from_outside() {
    assert!(job_kind_is_triggerable(&curate()));
    assert!(!job_kind_is_triggerable(&Job::Other("ReIndex".into())));
    let body = |kind: KindInput| CreateJobRequest { kind, triggered_by: None, own_tenant: None };
    let id = NoteId::parse(ID).unwrap();
    let ok = build_job_record_from_spec(&body(KindInput::Kind(curate())), "main", id, 9).unwrap();
    assert_eq!(ok.spec.vault, "main");
    assert_eq!((ok.lifecycle.status, ok.lifecycle.created_at_ms), (JobStatus::Pending, 9));
    assert_eq!(ok.retry.backoff, Some(Backoff { base: 5, max: 120 }));
    assert_eq!(ok.lineage.triggered_by.as_deref(), Some("api"));
    match &ok.spec.kind {
        Job::Curate { data } => assert!(data.contains(ID)),
        other => panic!("{other:?}"),
    }
    assert!(matches!(
        build_job_record_from_spec(&body(KindInput::Absent), "main", id, 9),
        Err(JobSpecError::Invalid(_))
    ));
    assert!(matches!(
        build_job_record_from_spec(&body(KindInput::Malformed("m".into())), "main", id, 9),
        Err(JobSpecError::Invalid(_))
    ));
    assert!(matches!(
        build_job_record_from_spec(&body(KindInput::Kind(Job::Other("x".into()))), "main", id, 9),
        Err(JobSpecError::Unsupported(_))
    ));
}

#[test]
fn a_known_key_gives_the_job_it_gave_before() {
    let mut a = allowed();
    a.known_key = Some(Ok(Some(ID.into())));
    let body = CreateJobRequest {
        kind: KindInput::Kind(curate()),
        triggered_by: None,
        own_tenant: None,
    };
    let id = NoteId::fresh();
    match create_job(&agent(), &Some("key".into()), &body, &ST, id, 9, &a) {
        HttpNext::Reply(CreateJobHttp::Reply(s, x)) => {
            assert_eq!(s, StatusCode::Success);
            assert_eq!(x.id, ID);
            assert!(x.idempotent);
        }
        other => panic!("{other:?}"),
    }
    a.known_key = Some(Ok(None));
    match create_job(&agent(), &Some("key".into()), &body, &ST, id, 9, &a) {
        HttpNext::Ask(Ask::Enqueue { record }) => assert_eq!(record.id, id),
        other => panic!("{other:?}"),
    }
}

#[test]
fn events_of_other_jobs_are_not_told() {
    let target = NoteId::parse(ID).unwrap();
    let other = NoteId::fresh();
    let e = job_event(&QueueEvent::JobFailed(target, 3), &target).unwrap();
    assert_eq!((e.attempts, e.last), (Some(3), false));
    let e = job_event(&QueueEvent::JobCompleted(target, JobStatus::Done), &target).unwrap();
    assert_eq!((e.status.as_str(), e.last), ("done", true));
    assert!(job_event(&QueueEvent::JobReady(other), &target).is_none());
    assert!(job_event(&QueueEvent::Other, &target).is_none());
    let mut a = allowed();
    a.job = Some(Ok(Some(job(JobStatus::Running))));
    match job_events(&agent(), ID, &ST, &a) {
        HttpNext::Reply(id) => assert_eq!(id, target),
        other => panic!("{other:?}"),
    }
}

#[test]
fn errors_of_numbered_jobs_are_codes() {
    let mut a = allowed();
    a.numbered_job = Some(Ok(Some(NumberedJob {
        id: 7,
        status: "failed".into(),
        attempts: 2,
        last_error: Some("Storage(\"/secret\")".into()),
    })));
    match get_job(&agent(), 7, &a) {
        HttpNext::Reply(x) => {
            assert_eq!(x.job_id, 7);
            assert_eq!(x.last_error.as_deref(), Some("storage_error"));
        }
        other => panic!("{other:?}"),
    }
    a.numbered_job = Some(Err(GradatumError::Storage("x".into())));
    match get_job(&agent(), 7, &a) {
        HttpNext::Refuse(s) => assert_eq!(s, StatusCode::InternalServerError),
        other => panic!("{other:?}"),
    }
}
