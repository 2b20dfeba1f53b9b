//! Batches of events and of raw lines.

use gradatum_api::capture::{
    compose_snapshot_title, post_capture, stamped_title, unknown_tenant, Captured,
};
use gradatum_api::error::{GradatumError, StatusCode};
use gradatum_api::event_log::{
    actor_from_trust, extract_request_id, post_event_log, IngestNext, Ingested, QaEvent,
};
use gradatum_api::flow::{Answers, Ask};
use gradatum_api::ids::NoteId;
use gradatum_api::rows::EventLogError;
use gradatum_api::trust::TrustContext;

const NOW: i64 = 947_638_923_004;

#[test]
fn snapshot_title_is_mechanical_and_unique() {
    let a = compose_snapshot_title(&NoteId::fresh(), NOW);
    let b = compose_snapshot_title(&NoteId::fresh(), NOW);
    assert_ne!(a, b);
    assert!(a.starts_with("snapshot "), "{a}");
    assert!(a.len() > "snapshot ".len());
}

#[test]
fn unknown_tenant_marks_non_bearer() {
    let t = TrustContext::Unauthenticated;
    assert_eq!(unknown_tenant(&t), "__unknown__");
}

fn make_dto() -> QaEvent {
    QaEvent {
        route: "/v1/chat/completions".to_owned(),
        model_alias: "alias-test".to_owned(),
        provider: "test-provider".to_owned(),
        timestamp: "2026-06-01T12:00:00Z".to_owned(),
        feature_id: None,
        model_used: None,
        agent_id: None,
        sent: "{\"latency_ms\":12}".to_owned(),
    }
}

fn trust_main() -> TrustContext {
    TrustContext::BearerToken {
        kid: "test-kid".to_owned(),
        aud: "gradatum".to_owned(),
        sub: "gateway".to_owned(),
        scopes: vec!["service".to_owned()],
        tenant_id: "main".to_owned(),
        jti: None,
    }
}

fn post(events: &Vec<QaEvent>, trust: &TrustContext, acl: bool, sound: bool) -> IngestNext<Ingested> {
    let mut a = Answers::none();
    for _ in 0..5 {
        match post_event_log(trust, events, true, "req", &a) {
            IngestNext::Ask(Ask::Acl { locus, .. }) => {
                assert_eq!(locus, "main/event-log");
                a.acl = Some(acl);
            }
            IngestNext::Ask(Ask::InsertEvents { tenant, events: appended }) => {
                assert_eq!(tenant, "main");
                assert_eq!(appended.len(), events.len());
                for (x, e) in appended.iter().zip(events) {
                    assert_eq!((&x.route, &x.timestamp, &x.sent), (&e.route, &e.timestamp, &e.sent));
                }
                a.events_inserted = Some(if sound {
                    Ok(events.len())
                } else {
                    Err(EventLogError::BadTimestamp)
                });
            }
            other => return other,
        }
    }
    panic!("no end");
}

fn status(n: IngestNext<Ingested>) -> u16 {
    match n {
        IngestNext::Reply(_) => 200,
        IngestNext::Refuse(s, _) => s.as_u16(),
        IngestNext::Ask(q) => panic!("{q:?}"),
    }
}

#[test]
fn post_authenticated_batch_3_returns_200_and_accepted_count() {
    match post(&vec![make_dto(), make_dto(), make_dto()], &trust_main(), true, true) {
        IngestNext::Reply(x) => {
            assert_eq!(x.response.accepted_count, 3);
            assert_eq!(x.response.status, "accepted");
            assert_eq!(x.audit.event, "event_log_ingest");
            assert_eq!(x.audit.accepted_count, Some(3));
            assert_eq!(x.audit.locus, "main/event-log");
        }
        other => panic!("{other:?}"),
    }
}

#[test]
fn post_unauthenticated_returns_401() {
    let n = post(&vec![make_dto()], &TrustContext::Unauthenticated, true, true);
    match &n {
        IngestNext::Refuse(_, Some(t)) => {
            assert_eq!(t.event, "auth_failure");
            assert_eq!(t.reason.as_deref(), Some("unauthenticated"));
            assert_eq!(t.actor.kid, "");
        }
        other => panic!("{other:?}"),
    }
    assert_eq!(status(n), 401);
}

#[test]
fn post_acl_deny_returns_403() {
    assert_eq!(status(post(&vec![make_dto()], &trust_main(), false, true)), 403);
}

#[test]
fn post_batch_over_1000_returns_413() {
    let events: Vec<QaEvent> = (0..=1000).map(|_| make_dto()).collect();
    assert_eq!(status(post(&events, &trust_main(), true, true)), 413);
}

#[test]
fn post_empty_batch_returns_200_count_0() {
    match post(&vec![], &trust_main(), true, true) {
        IngestNext::Reply(x) => assert_eq!(x.response.accepted_count, 0),
        other => panic!("{other:?}"),
    }
}

#[test]
fn post_invalid_timestamp_returns_400_not_500() {
    let mut event = make_dto();
    event.timestamp = "NOT-A-DATE".to_owned();
    assert_eq!(status(post(&vec![event], &trust_main(), true, false)), 400);
}

#[test]
fn post_field_over_max_len_returns_422() {
    let mut event = make_dto();
    event.route = "x".repeat(1025);
    assert_eq!(status(post(&vec![event], &trust_main(), true, true)), 422);
}

#[test]
fn post_timestamp_over_max_ts_len_returns_422() {
    let mut event = make_dto();
    event.timestamp = "2026-06-01T12:00:00Z".to_owned() + &"x".repeat(45);
    assert_eq!(status(post(&vec![event], &trust_main(), true, true)), 422);
}

#[test]
fn a_timestamp_is_bounded_in_characters() {
    let mut event = make_dto();
    event.timestamp = "é".repeat(64);
    assert_eq!(status(post(&vec![event], &trust_main(), true, false)), 400);
    let mut event = make_dto();
    event.timestamp = "é".repeat(65);
    assert_eq!(status(post(&vec![event], &trust_main(), true, false)), 422);
}

#[test]
fn post_with_agent_id_returns_200() {
    let mut event = make_dto();
    event.agent_id = Some("example-agent".to_owned());
    match post(&vec![event], &trust_main(), true, true) {
        IngestNext::Reply(x) => {
            assert_eq!(x.response.accepted_count, 1);
            assert_eq!(x.response.status, "accepted");
        }
        other => panic!("{other:?}"),
    }
}

#[test]
fn post_without_agent_id_returns_200_retrocompat() {
    match post(&vec![make_dto()], &trust_main(), true, true) {
        IngestNext::Reply(x) => assert_eq!(x.response.accepted_count, 1),
        other => panic!("{other:?}"),
    }
}

#[test]
fn post_agent_id_over_max_field_len_returns_422() {
    let mut event = make_dto();
    event.agent_id = Some("a".repeat(1025));
    assert_eq!(status(post(&vec![event], &trust_main(), true, true)), 422);
}

// ── Scenarios of the library's own ──────────────────────────────────────────

#[test]
fn events_need_a_store_and_a_tenant() {
    let mut a = Answers::none();
    a.acl = Some(true);
    match post_event_log(&trust_main(), &vec![make_dto()], false, "req", &a) {
        IngestNext::Refuse(s, None) => assert_eq!(s, StatusCode::ServiceUnavailable),
        other => panic!("{other:?}"),
    }
    a.events_inserted = Some(Err(EventLogError::Store));
    match post_event_log(&trust_main(), &vec![make_dto()], true, "req", &a) {
        IngestNext::Refuse(s, None) => assert_eq!(s, StatusCode::InternalServerError),
        other => panic!("{other:?}"),
    }
    let svc = TrustContext::Mtls { cn: "svc".into() };
    match post_event_log(&svc, &vec![make_dto()], true, "req", &a) {
        IngestNext::Refuse(s, Some(t)) => {
            assert_eq!(s, StatusCode::Forbidden);
            assert_eq!(t.tenant_id, "__unknown__");
            assert_eq!(t.actor.kid, "mtls:svc");
        }
        other => panic!("{other:?}"),
    }
    let studio = actor_from_trust(&TrustContext::Studio { user: "u".into() });
    assert_eq!((studio.kid.as_str(), studio.aud.as_str()), ("studio", "gradatum-studio"));
}

#[test]
fn a_request_is_identified_by_a_sound_header() {
    let fresh = NoteId::fresh();
    let id = |h: &str| extract_request_id(&Some(h.to_string()), &fresh);
    assert_eq!(id("abc-123"), "abc-123");
    assert_eq!(id("a b"), fresh.text());
    assert_eq!(id("a\nb"), fresh.text());
    assert_eq!(id("é"), fresh.text());
    assert_eq!(id(&"x".repeat(129)), fresh.text());
    assert_eq!(id(&"x".repeat(128)), "x".repeat(128));
    assert_eq!(extract_request_id(&None, &fresh), fresh.text());
}

#[test]
fn a_title_holds_the_moment_and_the_identifier() {
    let id = NoteId::parse("01ARZ3NDEKTSV4RRFFQ69G5FAV").unwrap();
    assert_eq!(
        compose_snapshot_title(&id, NOW),
        "snapshot 2000-01-12T01:02:03.004Z 01ARZ3NDEKTSV4RRFFQ69G5FAV"
    );
    assert_eq!(stamped_title(&id, "now"), "snapshot now 01ARZ3NDEKTSV4RRFFQ69G5FAV");
    assert_eq!(
        compose_snapshot_title(&id, i64::MAX),
        "snapshot 9223372036854775807 01ARZ3NDEKTSV4RRFFQ69G5FAV"
    );
}

fn capture(lines: &Vec<String>, queue_works: bool) -> (IngestNext<Captured>, Vec<(String, String)>) {
    let mut a = Answers::none();
    let mut taken = 0;
    let mut queued = vec![];
    let fresh = NoteId::parse("01ARZ3NDEKTSV4RRFFQ69G5FAV").unwrap();
    for _ in 0..100 {
        match post_capture(&trust_main(), lines, taken, &fresh, NOW, "req", &a) {
            IngestNext::Ask(Ask::WriteVault { .. }) => a.write_vault = Some(Ok("main".into())),
            IngestNext::Ask(Ask::Acl { locus, .. }) => {
                assert_eq!(locus, "main/snapshot");
                a.acl = Some(true);
            }
            IngestNext::Ask(Ask::WriteScope { .. }) => a.write_scope = Some(true),
            IngestNext::Ask(Ask::EnqueueWrite { body, section_hint, author, .. }) => {
                queued.push((body, section_hint.unwrap()));
                assert_eq!(author, "gateway");
                a.enqueued = Some(if queue_works { Ok(fresh) } else { Err("full".into()) });
            }
            IngestNext::Reply(Captured::Line) => {
                taken += 1;
                a.enqueued = None;
            }
            other => return (other, queued),
        }
    }
    panic!("no end");
}

#[test]
fn each_line_becomes_a_note_of_its_own() {
    let lines = vec!["one".to_string(), "two".to_string(), "one".to_string()];
    let (end, queued) = capture(&lines, true);
    match end {
        IngestNext::Reply(Captured::Batch(x)) => {
            assert_eq!(x.response.accepted_count, 3);
            assert_eq!(x.audit.event, "capture_ingest");
        }
        other => panic!("{other:?}"),
    }
    let snap = |s: &str| (s.to_string(), "snapshot".to_string());
    assert_eq!(queued, vec![snap("one"), snap("two"), snap("one")]);
}

#[test]
fn a_queue_that_fails_stops_the_batch() {
    let (end, queued) = capture(&vec!["one".to_string(), "two".to_string()], false);
    assert!(matches!(end, IngestNext::Refuse(StatusCode::InternalServerError, None)));
    assert_eq!(queued.len(), 1);
}

#[test]
fn lines_are_bounded_in_number_and_in_characters() {
    let end = |lines: Vec<String>| match capture(&lines, true).0 {
        IngestNext::Refuse(s, _) => s.as_u16(),
        IngestNext::Reply(_) => 200,
        other => panic!("{other:?}"),
    };
    assert_eq!(end(vec!["x".repeat(1025)]), 422);
    assert_eq!(end(vec!["é".repeat(1024)]), 200);
    assert_eq!(end((0..1001).map(|_| "x".to_string()).collect()), 413);
}

#[test]
fn capture_needs_a_vault_and_a_right() {
    let fresh = NoteId::fresh();
    let refuse = |trust: &TrustContext, a: &Answers| {
        match post_capture(trust, &vec!["x".to_string()], 0, &fresh, NOW, "req", a) {
            IngestNext::Refuse(s, Some(t)) => (s.as_u16(), t.reason.unwrap()),
            other => panic!("{other:?}"),
        }
    };
    let mut a = Answers::none();
    assert_eq!(refuse(&TrustContext::Unauthenticated, &a), (401, "unauthenticated".to_string()));
    a.write_vault = Some(Err(GradatumError::Forbidden("x".into())));
    assert_eq!(refuse(&trust_main(), &a), (403, "tenant_deny".to_string()));
    a.write_vault = Some(Ok("main".into()));
    a.acl = Some(false);
    assert_eq!(refuse(&trust_main(), &a), (403, "acl_deny".to_string()));
    a.acl = Some(true);
    a.write_scope = Some(false);
    assert_eq!(refuse(&trust_main(), &a), (403, "scope_deny".to_string()));
    a.write_scope = Some(true);
    let svc = TrustContext::Mtls { cn: "svc".into() };
    assert_eq!(refuse(&svc, &a), (401, "author_unresolved".to_string()));
}
