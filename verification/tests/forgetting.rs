//! Forgetting notes.

use gradatum_api::door::HttpNext;
use gradatum_api::error::{GradatumError, StatusCode};
use gradatum_api::flow::{Answers, Ask, Next};
use gradatum_api::forget::{
    build_forget_job_record, cross_vault_violation, default_limit, dto_scope_to_core,
    is_protected, multi_vault_agent_error, multi_vault_agent_scope, parse_ulid,
    partition_candidates, resolve_scope, vault_forget, vault_forget_mcp_impl,
    vault_forgotten_list, vault_unforgot, ForgetHttp, ForgetReply, ForgetScopeDto,
    ForgetSettings, ForgottenListQuery, VaultForgetRequest,
};
use gradatum_api::ids::NoteId;
use gradatum_api::queue::{ForgetScope, Job, JobStatus};
use gradatum_api::rows::{Candidate, ForgottenRow};
use gradatum_api::trust::TrustContext;

#[test]
fn cross_vault_violation_topic_explicit_vault_mismatch() {
    let scope = ForgetScopeDto::Topic {
        query: "test".to_string(),
        vault: Some("other-vault".to_string()),
        limit: None,
    };
    let violation = cross_vault_violation(&scope, "main");
    assert_eq!(violation, Some("other-vault"));
}

#[test]
fn cross_vault_violation_topic_no_vault_is_ok() {
    let scope = ForgetScopeDto::Topic { query: "test".to_string(), vault: None, limit: None };
    let violation = cross_vault_violation(&scope, "main");
    assert!(violation.is_none());
}

#[test]
fn cross_vault_violation_topic_same_vault_is_ok() {
    let scope = ForgetScopeDto::Topic {
        query: "test".to_string(),
        vault: Some("main".to_string()),
        limit: None,
    };
    let violation = cross_vault_violation(&scope, "main");
    assert!(violation.is_none());
}

#[test]
fn cross_vault_violation_agent_vault_mismatch() {
    let scope = ForgetScopeDto::Agent {
        agent_id: "some-agent".to_string(),
        vaults: vec!["main".to_string(), "restricted-vault".to_string()],
    };
    let violation = cross_vault_violation(&scope, "main");
    assert_eq!(violation, Some("restricted-vault"));
}

#[test]
fn cross_vault_violation_agent_empty_vaults_is_ok() {
    let scope = ForgetScopeDto::Agent { agent_id: "some-agent".to_string(), vaults: vec![] };
    let violation = cross_vault_violation(&scope, "main");
    assert!(violation.is_none());
}

#[test]
fn cross_vault_violation_locus_mismatch() {
    let scope = ForgetScopeDto::Locus {
        vault: "other".to_string(),
        locus: "inbox/old/".to_string(),
    };
    let violation = cross_vault_violation(&scope, "main");
    assert_eq!(violation, Some("other"));
}

#[test]
fn build_forget_job_record_stamps_effective_vault() {
    let scope = ForgetScope::Topic { query: "secret".to_string(), vault: None, limit: None };
    let record =
        build_forget_job_record(scope, vec![], None, "vault-b", NoteId::fresh(), 1_700_000_000_000);
    assert_eq!(record.spec.vault, "vault-b");
    match &record.spec.kind {
        Job::Forget(f) => match &f.scope {
            ForgetScope::Topic { vault, .. } => assert_eq!(vault.as_deref(), Some("vault-b")),
            other => panic!("{other:?}"),
        },
        other => panic!("{other:?}"),
    }
}

#[test]
fn build_forget_job_record_main_is_byte_identical_off() {
    let scope = ForgetScope::Topic { query: "x".to_string(), vault: None, limit: None };
    let record =
        build_forget_job_record(scope, vec![], None, "main", NoteId::fresh(), 1_700_000_000_000);
    assert_eq!(record.spec.vault, "main");
}

// ── Scenarios of the library's own ──────────────────────────────────────────

const ST: ForgetSettings = ForgetSettings { multi_tenant: false, max_forgotten_by: 64 };
const A: &str = "01HAAAAAAAAAAAAAAAAAAAAAAA";
const B: &str = "01HBBBBBBBBBBBBBBBBBBBBBBB";

fn agent() -> TrustContext {
    TrustContext::BearerToken {
        kid: "k".into(),
        aud: "gradatum".into(),
        sub: "agent".into(),
        scopes: vec!["write".into()],
        tenant_id: "main".into(),
        jti: None,
    }
}

fn topic(dry_run: bool, confirm: Vec<&str>) -> VaultForgetRequest {
    VaultForgetRequest {
        scope: ForgetScope::Topic { query: "old".into(), vault: None, limit: None },
        tenant_id: None,
        dry_run,
        confirm_ulids: confirm.into_iter().map(|s| s.to_string()).collect(),
        forgotten_by: None,
    }
}

fn world(q: Ask, a: &mut Answers) {
    match q {
        Ask::Tenant { .. } => a.tenant = Some(Some("main".into())),
        Ask::WriteVault { .. } => a.write_vault = Some(Ok("main".into())),
        Ask::Acl { .. } => a.acl = Some(true),
        Ask::WriteScope { .. } => a.write_scope = Some(true),
        Ask::WriteGrant { .. } => a.write_grant = Some(Ok(())),
        Ask::ForgetTopic { vault, query, .. } => {
            assert_eq!((vault.as_str(), query.as_str()), ("main", "old"));
            a.candidates = Some(Ok(vec![
                Candidate { ulid: A.into(), section: "debug".into() },
                Candidate { ulid: B.into(), section: "council".into() },
            ]));
        }
        Ask::Enqueue { record } => {
            assert_eq!(record.lifecycle.status, JobStatus::Pending);
            a.enqueued = Some(Ok(record.id));
        }
        other => panic!("{other:?}"),
    }
}

fn run(req: &VaultForgetRequest) -> Next<ForgetReply> {
    let mut a = Answers::none();
    let id = NoteId::parse(B).unwrap();
    for _ in 0..20 {
        match vault_forget_mcp_impl(&agent(), req, &ST, id, 5, &a) {
            Next::Ask(q) => world(q, &mut a),
            other => return other,
        }
    }
    panic!("no end");
}

#[test]
fn protected_sections_are_never_forgotten() {
    for s in ["agent-issues", "council", "identity"] {
        assert!(is_protected(s), "{s}");
    }
    assert!(!is_protected("debug"));
    let (free, excluded) = partition_candidates(&vec![
        Candidate { ulid: A.into(), section: "debug".into() },
        Candidate { ulid: B.into(), section: "identity".into() },
    ]);
    assert_eq!(free, vec![A]);
    assert_eq!(excluded.len(), 1);
    assert_eq!(excluded[0].ulid, B);
}

#[test]
fn a_preview_queues_nothing() {
    match run(&topic(true, vec![])) {
        Next::Reply(ForgetReply::Preview(p)) => {
            assert_eq!(p.ulids, vec![A]);
            assert_eq!(p.count, 1);
            assert_eq!(p.excluded.len(), 1);
            assert!(p.dry_run);
        }
        other => panic!("{other:?}"),
    }
}

#[test]
fn forgetting_needs_the_exact_list() {
    match run(&topic(false, vec![A])) {
        Next::Reply(ForgetReply::Queued(j)) => {
            assert_eq!(j.job_id, B);
            assert_eq!(j.poll_url, format!("/api/v1/jobs/{B}/v2"));
        }
        other => panic!("{other:?}"),
    }
    assert!(matches!(run(&topic(false, vec![A, B])), Next::Fail(_)));
    assert!(matches!(run(&topic(false, vec![])), Next::Fail(_)));
}

#[test]
fn forgetting_over_http_is_accepted_for_later() {
    let mut a = Answers::none();
    let id = NoteId::parse(B).unwrap();
    let req = topic(false, vec![A]);
    let done = loop {
        match vault_forget(&agent(), &req, &ST, id, 5, &a) {
            HttpNext::Ask(q) => world(q, &mut a),
            other => break other,
        }
    };
    match done {
        HttpNext::Reply(ForgetHttp::Reply(s, ForgetReply::Queued(_))) => {
            assert_eq!(s, StatusCode::Accepted)
        }
        other => panic!("{other:?}"),
    }
}

#[test]
fn one_job_forgets_in_one_vault() {
    let many = ForgetScope::Agent {
        agent_id: "x".into(),
        vaults: vec!["a".into(), "b".into()],
    };
    assert_eq!(multi_vault_agent_scope(&many), Some(2));
    assert!(multi_vault_agent_error(2).contains("targets 2 vaults"));
    let one = ForgetScope::Agent { agent_id: "x".into(), vaults: vec!["a".into()] };
    assert_eq!(multi_vault_agent_scope(&one), None);
}

#[test]
fn a_scope_is_asked_of_its_own_vault() {
    let own = ForgetScope::Topic { query: "q".into(), vault: None, limit: Some(3) };
    match resolve_scope(&dto_scope_to_core(&own), "main") {
        Ask::ForgetTopic { vault, query, .. } => {
            assert_eq!((vault.as_str(), query.as_str()), ("main", "q"))
        }
        other => panic!("{other:?}"),
    }
}

#[test]
fn forgotten_notes_come_in_pages() {
    assert_eq!(default_limit(), 50);
    let q = ForgottenListQuery { limit: 1, cursor: None };
    let mut a = Answers::none();
    let row = |id: &str| ForgottenRow {
        ulid: id.into(),
        title: None,
        section: "debug".into(),
        forgotten_at_ms: Some(7),
        forgotten_by: None,
    };
    let done = loop {
        match vault_forgotten_list(&agent(), &q, &ST, &a) {
            HttpNext::Ask(Ask::Acl { .. }) => a.acl = Some(true),
            HttpNext::Ask(Ask::ListForgotten { .. }) => {
                a.forgotten = Some(Ok(vec![row(A), row(B)]))
            }
            HttpNext::Ask(Ask::CountForgotten { .. }) => a.forgotten_count = Some(Ok(2)),
            other => break other,
        }
    };
    match done {
        HttpNext::Reply(x) => {
            assert_eq!(x.notes.len(), 1);
            assert_eq!(x.notes[0].ulid, A);
            assert_eq!(x.notes[0].forgotten_at, Some(7));
            assert_eq!(x.total, 2);
            assert_eq!(x.next_cursor.as_deref(), Some(A));
        }
        other => panic!("{other:?}"),
    }
}

#[test]
fn what_is_not_forgotten_cannot_be_brought_back() {
    assert_eq!(parse_ulid("nope").unwrap_err(), StatusCode::BadRequest);
    let run = |outcome: Result<(), GradatumError>| {
        let mut a = Answers::none();
        a.acl = Some(true);
        a.write_vault = Some(Ok("main".into()));
        a.tenant = Some(Some("main".into()));
        a.write_scope = Some(true);
        a.write_grant = Some(Ok(()));
        a.done = Some(outcome);
        vault_unforgot(&agent(), A, &ST, &a)
    };
    match run(Err(GradatumError::NoteNotFound(A.into()))) {
        HttpNext::Refuse(s) => assert_eq!(s, StatusCode::NotFound),
        other => panic!("{other:?}"),
    }
    match run(Ok(())) {
        HttpNext::Reply(x) => assert_eq!((x.ulid.as_str(), x.status.as_str()), (A, "restored")),
        other => panic!("{other:?}"),
    }
}
