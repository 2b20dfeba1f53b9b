//! Operations that change notes.

use gradatum_api::cards::{
    create_feature_card_impl, name_feature, CardNext, CreateFeatureCardRequest,
};
use gradatum_api::delete::{
    delete_error_response, is_protected_delete, vault_delete_core, DeleteReply, VaultDeleteRequest,
};
use gradatum_api::door::HttpNext;
use gradatum_api::error::{GradatumError, StatusCode};
use gradatum_api::flow::{Answers, Ask, Denial, Next};
use gradatum_api::handlers::{create_feature, CardHandled};
use gradatum_api::ids::NoteId;
use gradatum_api::notes::{
    move_note_locus, move_note_locus_impl, parse_note_id, patch_conflict, patch_note, patch_note_impl,
    validate_add_tags, vault_downgrade, vault_downgrade_impl, MoveLocusRequest, NoteStatusPatch,
    VaultDowngradeRequest,
};
use gradatum_api::rows::{Archived, CategoryDrift, IndexedNote, TitleSection, VaultNote};
use gradatum_api::trust::TrustContext;
use gradatum_api::writing::{
    drift_trace, queued_trace, vault_write_impl, FeatureWriteAuthority, VaultWriteRequest,
};

const ID: &str = "01ARZ3NDEKTSV4RRFFQ69G5FAV";
const OTHER: &str = "01BX5ZZKBKACTAV9WEVGEMMVRZ";

fn agent(sub: &str, scopes: Vec<&str>) -> TrustContext {
    TrustContext::BearerToken {
        kid: "k".into(),
        aud: "gradatum".into(),
        sub: sub.into(),
        scopes: scopes.into_iter().map(|s| s.to_string()).collect(),
        tenant_id: "main".into(),
        jti: None,
    }
}

fn write(title: &str, hint: Option<&str>) -> VaultWriteRequest {
    VaultWriteRequest {
        title: title.into(),
        body: "# body".into(),
        author: None,
        tags: vec!["t".into()],
        section_hint: hint.map(|s| s.to_string()),
        tenant_id: None,
        occurred_at: None,
        note_id: None,
        expected_sha256: None,
    }
}

fn note(section: &str, roles: Vec<&str>) -> VaultNote {
    VaultNote {
        id: NoteId::parse(ID).unwrap(),
        body: "b".into(),
        h1_title: None,
        content_hash: vec![0; 32],
        section: section.into(),
        status: "live".into(),
        author: None,
        tags: vec![],
        vault_id: "main".into(),
        created_ms: 0,
        updated_ms: None,
        feature_roles: roles.into_iter().map(|s| s.to_string()).collect(),
    }
}

fn writable() -> Answers {
    let mut a = Answers::none();
    a.write_vault = Some(Ok("main".into()));
    a.acl = Some(true);
    a.drift = Some(None);
    a
}

fn drift() -> CategoryDrift {
    CategoryDrift {
        rule: "bug-in-decisions".into(),
        category: "BUG".into(),
        expected_section: "debug".into(),
        actual_section: Some("decisions".into()),
    }
}

fn try_write(req: &VaultWriteRequest, trust: &TrustContext, a: &Answers) -> Next<String> {
    let fresh = NoteId::parse(ID).unwrap();
    match vault_write_impl(trust, req, FeatureWriteAuthority::External, &fresh, a) {
        Next::Ask(q) => Next::Ask(q),
        Next::Fail(d) => Next::Fail(d),
        Next::Reply(x) => {
            assert_eq!(x.status, "queued");
            assert_eq!(x.poll_url, format!("/api/v1/jobs/{}/v2", x.job_id));
            Next::Reply(x.note_id)
        }
    }
}

fn refused(n: Next<String>) -> Denial {
    match n {
        Next::Fail(d) => d,
        other => panic!("{other:?}"),
    }
}

#[test]
fn a_write_is_queued_under_the_subject() {
    let trust = agent("backend", vec!["write"]);
    let mut a = writable();
    match try_write(&write("A note", None), &trust, &a) {
        Next::Ask(Ask::EnqueueWrite { tenant, note_id, author, title, body, tags, .. }) => {
            assert_eq!((tenant.as_str(), note_id.as_str()), ("main", ID));
            assert_eq!((author.as_str(), title.as_str()), ("backend", "A note"));
            assert_eq!((body.as_str(), tags), ("# body", vec!["t".to_string()]));
        }
        other => panic!("{other:?}"),
    }
    a.enqueued = Some(Ok(NoteId::parse(OTHER).unwrap()));
    match try_write(&write("A note", None), &trust, &a) {
        Next::Ask(Ask::NoteWrite { job_id, trace }) => {
            assert_eq!(job_id, OTHER);
            assert_eq!((trace.event.as_str(), trace.reason.as_str()), ("vault_write", "queued"));
            assert_eq!((trace.tenant.as_str(), trace.locus.as_str()), ("main", "main/main"));
            assert_eq!(trace.note_id.as_deref(), Some(ID));
        }
        other => panic!("{other:?}"),
    }
    for kept in [true, false] {
        a.write_noted = Some(kept);
        match try_write(&write("A note", None), &trust, &a) {
            Next::Reply(id) => assert_eq!(id, ID),
            other => panic!("{other:?}"),
        }
    }
    a.enqueued = Some(Err("full".into()));
    assert!(matches!(
        refused(try_write(&write("A note", None), &trust, &a)).error,
        GradatumError::Storage(m) if m == "full"
    ));
    let trace = queued_trace("main", ID);
    assert_eq!((trace.event.as_str(), trace.reason.as_str()), ("vault_write", "queued"));
}

#[test]
fn the_trace_of_a_write_names_the_vault_that_is_written_to() {
    let mut a = writable();
    a.write_vault = Some(Ok("alice".into()));
    a.enqueued = Some(Ok(NoteId::parse(OTHER).unwrap()));
    match try_write(&write("A note", None), &agent("b", vec![]), &a) {
        Next::Ask(Ask::NoteWrite { trace, .. }) => {
            assert_eq!((trace.tenant.as_str(), trace.locus.as_str()), ("alice", "alice/main"));
        }
        other => panic!("{other:?}"),
    }
}

#[test]
fn a_title_at_odds_with_its_section_is_noted_and_written() {
    let trust = agent("b", vec![]);
    let req = write("[BUG] A note", Some("decisions"));
    let mut a = writable();
    a.drift = None;
    match try_write(&req, &trust, &a) {
        Next::Ask(Ask::CategoryDrift { title, section_hint, tags }) => {
            assert_eq!((title.as_str(), section_hint.as_deref()), ("[BUG] A note", Some("decisions")));
            assert_eq!(tags, vec!["t"]);
        }
        other => panic!("{other:?}"),
    }
    a.drift = Some(Some(drift()));
    match try_write(&req, &trust, &a) {
        Next::Ask(Ask::NoteDrift { rule, category, expected_section, actual_section, title, trace }) => {
            assert_eq!((rule.as_str(), category.as_str()), ("bug-in-decisions", "BUG"));
            assert_eq!((expected_section.as_str(), title.as_str()), ("debug", "[BUG] A note"));
            assert_eq!(actual_section.as_deref(), Some("decisions"));
            assert_eq!((trace.tenant.as_str(), trace.locus.as_str()), ("main", "main/main"));
            assert_eq!(trace.reason, "bug-in-decisions");
        }
        other => panic!("{other:?}"),
    }
    for kept in [true, false] {
        a.drift_noted = Some(kept);
        assert!(matches!(try_write(&req, &trust, &a), Next::Ask(Ask::EnqueueWrite { .. })));
    }
    let trace = drift_trace("alice", &drift());
    assert_eq!((trace.event.as_str(), trace.locus.as_str()), ("write_check_drift", "alice/main"));
    assert_eq!((trace.tenant.as_str(), trace.note_id), ("alice", None));

    a.drift_noted = None;
    let unhinted = write("identity/b", None);
    assert!(matches!(try_write(&unhinted, &trust, &a), Next::Ask(Ask::NoteDrift { .. })));
    a.acl = Some(false);
    assert!(matches!(refused(try_write(&req, &trust, &a)).error, GradatumError::Forbidden(_)));
}

#[test]
fn a_write_needs_a_credential_and_a_right() {
    let d = refused(try_write(&write("x", None), &TrustContext::Unauthenticated, &writable()));
    assert!(matches!(d.error, GradatumError::Unauthorized));
    assert_eq!(d.audit.unwrap().reason, "unauthenticated");
    let mut a = writable();
    a.acl = Some(false);
    let d = refused(try_write(&write("x", None), &agent("b", vec![]), &a));
    assert!(matches!(d.error, GradatumError::Forbidden(m) if m == "acl deny"));
    assert_eq!(d.audit.unwrap().reason, "acl_deny");
    let mut declared = write("x", None);
    declared.author = Some("someone".into());
    let d = refused(try_write(&declared, &agent("b", vec![]), &writable()));
    assert!(matches!(d.error, GradatumError::InvalidInput(_)));
    let d = refused(try_write(&write("x", None), &TrustContext::Mtls { cn: "s".into() }, &writable()));
    assert!(matches!(d.error, GradatumError::Unauthorized));
}

#[test]
fn a_soul_is_written_by_its_owner_only() {
    let foreign = write("identity/frontend", Some("identity"));
    let d = refused(try_write(&foreign, &agent("backend", vec![]), &writable()));
    assert!(matches!(d.error, GradatumError::Forbidden(_)));
    assert_eq!(d.audit.unwrap().reason, "identity_write_denied_foreign_agent");
    let scoped = agent("backend", vec!["identity_write"]);
    assert!(matches!(
        try_write(&foreign, &scoped, &writable()),
        Next::Ask(Ask::CheckSoul { .. })
    ));
    let own = write("identity/backend", Some("identity"));
    assert!(matches!(
        try_write(&own, &agent("backend", vec![]), &writable()),
        Next::Ask(Ask::CheckSoul { .. })
    ));
    let mut a = writable();
    a.soul = Some(Err("no gates".into()));
    let d = refused(try_write(&own, &agent("backend", vec![]), &a));
    assert!(matches!(d.error, GradatumError::InvalidInput(m) if m == "identity schema: no gates"));
    let unhinted = write("identity/backend", None);
    let d = refused(try_write(&unhinted, &agent("backend", vec![]), &writable()));
    assert_eq!(d.audit.unwrap().reason, "rejected_400_identity_title_without_hint");
    let nameless = write("identity/", Some("identity"));
    let d = refused(try_write(&nameless, &agent("backend", vec![]), &writable()));
    assert_eq!(d.audit.unwrap().reason, "rejected_400_identity_bad_title");
}

#[test]
fn a_note_that_is_there_is_not_overwritten_blindly() {
    let trust = agent("b", vec![]);
    let missing = || Some(Err(GradatumError::NoteNotFound(ID.into())));
    let run = |sha: Option<&str>, a: &Answers| {
        let mut req = write("x", None);
        req.note_id = Some(ID.into());
        req.expected_sha256 = sha.map(|s| s.to_string());
        try_write(&req, &trust, a)
    };
    let mut live = writable();
    live.note = Some(Ok(note("debug", vec![])));
    live.sha_valid = Some(true);
    assert!(matches!(
        refused(run(None, &live)).error,
        GradatumError::Conflict(m) if m == "overwrite without expected_sha256"
    ));
    assert!(matches!(run(Some("abc"), &live), Next::Ask(Ask::EnqueueWrite { .. })));
    let mut phantom = writable();
    phantom.note = missing();
    phantom.sha_valid = Some(true);
    phantom.indexed = Some(Ok(true));
    assert!(matches!(refused(run(Some("abc"), &phantom)).error, GradatumError::Conflict(_)));
    assert!(matches!(run(None, &phantom), Next::Ask(Ask::EnqueueWrite { .. })));
    let mut fresh = writable();
    fresh.note = missing();
    fresh.sha_valid = Some(true);
    fresh.indexed = Some(Ok(false));
    assert!(matches!(run(Some("abc"), &fresh), Next::Ask(Ask::EnqueueWrite { .. })));
    let mut bad = writable();
    bad.sha_valid = Some(false);
    assert!(matches!(
        refused(run(Some("abc"), &bad)).error,
        GradatumError::InvalidInput(m) if m == "malformed expected_sha256"
    ));
    let mut odd = write("x", None);
    odd.note_id = Some("debug/x".into());
    assert_eq!(
        refused(try_write(&odd, &trust, &writable())).audit.unwrap().reason,
        "rejected_400_bad_note_id"
    );
    let mut when = write("x", None);
    when.occurred_at = Some("yesterday".into());
    let mut a = writable();
    a.moment_valid = Some(false);
    assert!(matches!(
        refused(try_write(&when, &trust, &a)).error,
        GradatumError::InvalidInput(m) if m == "invalid occurred_at"
    ));
}

#[test]
fn the_number_of_a_card_stays() {
    let trust = agent("b", vec![]);
    let mut req = write("card", Some("project-map"));
    req.note_id = Some(ID.into());
    req.expected_sha256 = Some("abc".into());
    let mut a = writable();
    a.card = Some(Ok(()));
    a.sha_valid = Some(true);
    a.note = Some(Ok(note("project-map", vec!["F-01"])));
    a.roles = Some(vec!["F-02".into()]);
    let d = refused(try_write(&req, &trust, &a));
    match d.error {
        GradatumError::InvalidInput(m) => {
            assert!(m.contains("current [\"F-01\"], submitted [\"F-02\"]"), "{m}")
        }
        other => panic!("{other:?}"),
    }
    a.roles = Some(vec!["F-01".into()]);
    assert!(matches!(try_write(&req, &trust, &a), Next::Ask(Ask::EnqueueWrite { .. })));
    a.card = Some(Err("no status".into()));
    assert!(matches!(
        refused(try_write(&req, &trust, &a)).error,
        GradatumError::InvalidInput(m) if m == "project-map schema: no status"
    ));
}

#[test]
fn a_card_gets_the_next_number() {
    assert_eq!(name_feature(7), "F-07");
    assert_eq!(name_feature(135), "F-135");
    let trust = agent("b", vec![]);
    let fresh = NoteId::parse(ID).unwrap();
    let req = CreateFeatureCardRequest {
        title: "Card".into(),
        body: "[[status:open]]".into(),
        author: None,
        tags: vec![],
        tenant_id: None,
        occurred_at: None,
    };
    let (mut a, mut w) = (Answers::none(), Answers::none());
    let mut allocated = 0;
    let card = loop {
        match create_feature_card_impl(&trust, &req, &fresh, &a, &w) {
            CardNext::Ask(Ask::WriteVault { .. }) => a.write_vault = Some(Ok("main".into())),
            CardNext::Ask(Ask::Acl { .. }) => a.acl = Some(true),
            CardNext::Ask(Ask::Wikilinks { .. }) => a.links = Some(vec!["status:open".into()]),
            CardNext::Ask(Ask::CheckLinks { targets }) => {
                assert_eq!(targets, vec!["status:open", "feature:F-00"]);
                a.links_valid = Some(Ok(()));
            }
            CardNext::Ask(Ask::AllocateFeature { vault }) => {
                assert_eq!(vault, "main");
                allocated += 1;
                a.feature = Some(Ok(135));
            }
            CardNext::Write(Ask::WriteVault { requested, .. }) => {
                assert_eq!(requested.as_deref(), Some("main"));
                w.write_vault = Some(Ok("main".into()));
            }
            CardNext::Write(Ask::Acl { .. }) => w.acl = Some(true),
            CardNext::Write(Ask::CategoryDrift { title, section_hint, .. }) => {
                assert_eq!((title.as_str(), section_hint.as_deref()), ("Card", Some("project-map")));
                w.drift = Some(None);
            }
            CardNext::Write(Ask::NoteWrite { job_id, trace }) => {
                assert_eq!((job_id.as_str(), trace.event.as_str()), (OTHER, "vault_write"));
                assert_eq!((trace.tenant.as_str(), trace.note_id.as_deref()), ("main", Some(ID)));
                w.write_noted = Some(true);
            }
            CardNext::Write(Ask::CheckCard { body }) => {
                assert_eq!(body, "[[status:open]]\n\n[[feature:F-135]]");
                w.card = Some(Ok(()));
            }
            CardNext::Write(Ask::EnqueueWrite { body, section_hint, .. }) => {
                assert_eq!(body, "[[status:open]]\n\n[[feature:F-135]]");
                assert_eq!(section_hint.as_deref(), Some("project-map"));
                w.enqueued = Some(Ok(NoteId::parse(OTHER).unwrap()));
            }
            CardNext::Reply(x) => break x,
            other => panic!("{other:?}"),
        }
    };
    assert_eq!(allocated, 1);
    assert_eq!((card.feature.as_str(), card.number), ("F-135", 135));
    assert_eq!((card.note_id.as_str(), card.job_id.as_str()), (ID, OTHER));

    match create_feature(&trust, &req, &fresh, &a, &w) {
        CardHandled::Reply(s, x) => assert_eq!((s, x.number), (StatusCode::Success, 135)),
        other => panic!("{other:?}"),
    }

    let mut numbered = Answers::none();
    numbered.write_vault = Some(Ok("main".into()));
    numbered.acl = Some(true);
    numbered.links = Some(vec!["feature:F-09".into()]);
    match create_feature_card_impl(&trust, &req, &fresh, &numbered, &w) {
        CardNext::Fail(d) => assert!(matches!(d.error, GradatumError::InvalidInput(_))),
        other => panic!("{other:?}"),
    }
}

fn deletable(section: &str) -> Answers {
    let mut a = Answers::none();
    a.write_vault = Some(Ok("main".into()));
    a.indexed_note = Some(Ok(Some(IndexedNote {
        section: section.into(),
        title: Some("T".into()),
        body_text: "body".into(),
        content_hash: vec![0xab; 32],
    })));
    a.backlinks = Some(Ok(vec![OTHER.into()]));
    a
}

fn delete(dry_run: bool, confirm: Vec<&str>) -> VaultDeleteRequest {
    VaultDeleteRequest {
        note_id: ID.into(),
        tenant_id: None,
        dry_run,
        confirm_ulids: confirm.into_iter().map(|s| s.to_string()).collect(),
    }
}

#[test]
fn a_deletion_leaves_its_trace_first() {
    let trust = agent("op", vec![]);
    let req = delete(false, vec![ID]);
    let mut a = deletable("debug");
    match vault_delete_core(&trust, &req, 1_000, 2, &a) {
        Next::Ask(Ask::Tombstone { locus, content_hash, deleted_by, request_id, body, .. }) => {
            assert_eq!(locus, format!("debug/{ID}"));
            assert_eq!(content_hash, Some(format!("sha256:{}", "ab".repeat(32))));
            assert_eq!(deleted_by.as_deref(), Some("op"));
            assert_eq!(request_id, format!("vault_delete-{ID}"));
            assert_eq!(body, "body");
        }
        other => panic!("{other:?}"),
    }
    a.tombstone = Some(Err("disk".into()));
    assert!(matches!(
        vault_delete_core(&trust, &req, 1_000, 2, &a),
        Next::Fail(d) if matches!(&d.error, GradatumError::Storage(m) if m.ends_with("disk"))
    ));
    a.tombstone = Some(Ok(()));
    match vault_delete_core(&trust, &req, 1_000, 2, &a) {
        Next::Ask(Ask::Archive { gc_due_ms, archived_by, .. }) => {
            assert_eq!(gc_due_ms, 1_000 + 2 * 86_400_000);
            assert_eq!(archived_by.as_deref(), Some("op"));
        }
        other => panic!("{other:?}"),
    }
    a.archived = Some(Ok(Archived { index_error: None, archive_path: Some("arch/x".into()) }));
    match vault_delete_core(&trust, &req, 1_000, 2, &a) {
        Next::Reply(DeleteReply::Done(d)) => {
            assert!(d.deleted);
            assert_eq!(d.backlinks_orphaned, vec![OTHER]);
            assert_eq!(d.archived_path.as_deref(), Some("arch/x"));
            assert_eq!(d.backup.unwrap().body, "body");
        }
        other => panic!("{other:?}"),
    }
}

#[test]
fn what_is_not_confirmed_is_not_deleted() {
    let trust = agent("op", vec![]);
    for confirm in [vec![], vec![OTHER], vec![ID, OTHER]] {
        assert!(matches!(
            vault_delete_core(&trust, &delete(false, confirm), 0, 1, &deletable("debug")),
            Next::Fail(d) if matches!(&d.error, GradatumError::InvalidInput(_))
        ));
    }
    match vault_delete_core(&trust, &delete(true, vec![]), 0, 1, &deletable("debug")) {
        Next::Reply(DeleteReply::Preview(p)) => {
            assert!(p.exists && p.dry_run);
            assert_eq!(p.backlinks, vec![OTHER]);
        }
        other => panic!("{other:?}"),
    }
    let mut gone = deletable("debug");
    gone.indexed_note = Some(Ok(None));
    match vault_delete_core(&trust, &delete(false, vec![ID]), 0, 1, &gone) {
        Next::Reply(DeleteReply::Done(d)) => assert!(!d.deleted),
        other => panic!("{other:?}"),
    }
}

#[test]
fn protected_notes_are_never_deleted() {
    let trust = agent("op", vec![]);
    for s in ["agent-issues", "council", "project-map", "identity", "decisions", "reasoning"] {
        assert!(is_protected_delete(s));
        assert!(matches!(
            vault_delete_core(&trust, &delete(false, vec![ID]), 0, 1, &deletable(s)),
            Next::Fail(d) if matches!(&d.error, GradatumError::Forbidden(_))
        ));
    }
    assert!(!is_protected_delete("debug"));
    let (s, m) = delete_error_response(&GradatumError::Storage("/secret".into()));
    assert_eq!(s, StatusCode::InternalServerError);
    assert!(!m.contains("secret"));
    let (s, _) = delete_error_response(&GradatumError::Forbidden("x".into()));
    assert_eq!(s, StatusCode::Forbidden);
}

#[test]
fn a_file_that_is_gone_is_cleaned_up() {
    let trust = agent("op", vec![]);
    let req = delete(false, vec![ID]);
    let mut a = deletable("debug");
    a.tombstone = Some(Ok(()));
    a.archived = Some(Err(GradatumError::NoteNotFound(ID.into())));
    assert!(matches!(
        vault_delete_core(&trust, &req, 0, 1, &a),
        Next::Ask(Ask::PurgeIndex { .. })
    ));
    a.purged = Some(Ok(()));
    assert!(matches!(
        vault_delete_core(&trust, &req, 0, 1, &a),
        Next::Ask(Ask::PurgeRedirect { .. })
    ));
    a.redirect_purged = Some(false);
    assert!(matches!(
        vault_delete_core(&trust, &req, 0, 1, &a),
        Next::Reply(DeleteReply::Done(d)) if d.deleted && d.archived_path.is_none()
    ));
}

fn patch(status: Option<&str>, reason: Option<&str>, by: Option<&str>, tags: Option<Vec<&str>>) -> NoteStatusPatch {
    NoteStatusPatch {
        status: status.map(|s| s.to_string()),
        status_reason: reason.map(|s| s.to_string()),
        replaced_by: by.map(|s| s.to_string()),
        add_tags: tags.map(|v| v.into_iter().map(|s| s.to_string()).collect()),
    }
}

fn door(n: HttpNext<()>) -> u16 {
    match n {
        HttpNext::Reply(()) => 204,
        HttpNext::Refuse(s) => s.as_u16(),
        HttpNext::Ask(q) => panic!("{q:?}"),
    }
}

#[test]
fn a_patch_is_checked_before_it_changes_anything() {
    let a = Answers::none();
    assert_eq!(door(patch_note("nope", &patch(Some("live"), None, None, None), &a)), 400);
    assert_eq!(door(patch_note(ID, &patch(None, None, None, None), &a)), 400);
    assert_eq!(door(patch_note(ID, &patch(Some("downgraded"), None, None, None), &a)), 400);
    assert_eq!(door(patch_note(ID, &patch(None, None, Some("x"), None), &a)), 400);
    assert_eq!(door(patch_note(ID, &patch(Some("live"), None, None, Some(vec![])), &a)), 400);
    let many: Vec<&str> = vec!["t"; 21];
    assert_eq!(door(patch_note(ID, &patch(Some("live"), None, None, Some(many)), &a)), 400);
    let tagged = patch(Some("live"), None, None, Some(vec!["Bad Tag"]));
    assert!(matches!(patch_note(ID, &tagged, &a), HttpNext::Ask(Ask::CheckTags { .. })));
    let mut a = Answers::none();
    a.tags_valid = Some(false);
    assert_eq!(door(patch_note(ID, &tagged, &a)), 400);
    assert_eq!(parse_note_id("x").unwrap_err(), StatusCode::BadRequest);
}

#[test]
fn a_patch_goes_status_first_and_tags_last() {
    let body = patch(Some("live"), Some("ok"), Some(OTHER), Some(vec!["a", "A", "b"]));
    let mut a = Answers::none();
    let mut steps = vec![];
    let end = loop {
        match patch_note(ID, &body, &a) {
            HttpNext::Ask(Ask::CheckTags { .. }) => {
                steps.push("check");
                a.tags_valid = Some(true);
            }
            HttpNext::Ask(Ask::ChangeStatus { vault, status, reason, .. }) => {
                steps.push("status");
                assert_eq!((vault, status.as_str()), (None, "live"));
                assert_eq!(reason.as_deref(), Some("ok"));
                a.done = Some(Ok(()));
            }
            HttpNext::Ask(Ask::PatchNote { reason, replaced_by, .. }) => {
                steps.push("patch");
                assert_eq!((reason, replaced_by.as_deref()), (None, Some(OTHER)));
                a.patched = Some(Ok(()));
            }
            HttpNext::Ask(Ask::AddTags { tags, .. }) => {
                steps.push("tags");
                assert_eq!(tags, vec!["a", "b"]);
                a.tags_added = Some(Ok(()));
            }
            other => break other,
        }
    };
    assert_eq!(door(end), 204);
    assert_eq!(steps, vec!["check", "status", "patch", "tags"]);
}

#[test]
fn failures_of_a_patch_have_their_statuses() {
    let body = patch(Some("live"), None, None, None);
    let with = |e: GradatumError| {
        let mut a = Answers::none();
        a.done = Some(Err(e));
        door(patch_note(ID, &body, &a))
    };
    assert_eq!(with(GradatumError::NoteNotFound(ID.into())), 404);
    assert_eq!(
        with(GradatumError::InvalidStatusTransition { from: "Live".into(), to: "Draft".into() }),
        409
    );
    let told = |e: GradatumError| {
        let mut a = Answers::none();
        a.done = Some(Err(e));
        patch_conflict(ID, &body, &a)
    };
    assert_eq!(
        told(GradatumError::InvalidStatusTransition { from: "Live".into(), to: "Draft".into() }),
        Some("invalid status transition: Live → Draft".to_string())
    );
    assert_eq!(told(GradatumError::NoteNotFound(ID.into())), None);
    assert_eq!(patch_conflict(ID, &body, &Answers::none()), None);
    assert_eq!(with(GradatumError::Validation("x".into())), 400);
    assert_eq!(with(GradatumError::Storage("x".into())), 500);
    let tags = patch(None, None, None, Some(vec!["a"]));
    let tagged = |e: GradatumError| {
        let mut a = Answers::none();
        a.tags_valid = Some(true);
        a.patched = Some(Ok(()));
        a.tags_added = Some(Err(e));
        door(patch_note(ID, &tags, &a))
    };
    assert_eq!(tagged(GradatumError::Conflict("too many".into())), 409);
    assert_eq!(tagged(GradatumError::Validation("x".into())), 400);
    let mut a = Answers::none();
    a.patched = Some(Err(GradatumError::Validation("x".into())));
    assert_eq!(door(patch_note(ID, &patch(None, Some("r"), None, None), &a)), 500);
}

#[test]
fn tags_differ_without_their_case() {
    let list = |v: Vec<&str>| v.into_iter().map(|s| s.to_string()).collect::<Vec<String>>();
    assert_eq!(
        validate_add_tags(&list(vec!["Rust", "rust", "RUST", "go"]), true),
        Ok(list(vec!["Rust", "go"]))
    );
    assert_eq!(validate_add_tags(&list(vec!["x"]), false), Err(StatusCode::BadRequest));
    assert_eq!(validate_add_tags(&list(vec![]), true), Err(StatusCode::BadRequest));
    assert_eq!(validate_add_tags(&list(vec!["É", "é"]), true), Ok(list(vec!["É", "é"])));
}

fn indexed(section: &str, title: &str) -> Option<Result<Vec<TitleSection>, GradatumError>> {
    Some(Ok(vec![TitleSection {
        note_id: ID.into(),
        title: Some(title.into()),
        section: section.into(),
    }]))
}

#[test]
fn a_guarded_patch_stays_in_the_own_vault() {
    let trust = agent("backend", vec![]);
    let id = NoteId::parse(ID).unwrap();
    let body = patch(Some("live"), None, None, Some(vec!["a"]));
    let mut a = Answers::none();
    a.acl = Some(true);
    a.titles = indexed("debug", "t");
    match patch_note_impl(&trust, &id, &body, false, &a) {
        Next::Ask(Ask::ChangeStatus { vault, .. }) => assert_eq!(vault.as_deref(), Some("main")),
        other => panic!("{other:?}"),
    }
    a.done = Some(Ok(()));
    match patch_note_impl(&trust, &id, &body, false, &a) {
        Next::Ask(Ask::AddTags { vault, tags, .. }) => {
            assert_eq!((vault.as_deref(), tags), (Some("main"), vec!["a".to_string()]))
        }
        other => panic!("{other:?}"),
    }
    assert!(matches!(
        patch_note_impl(&trust, &id, &body, true, &a),
        Next::Ask(Ask::WriteGrant { .. })
    ));
    a.titles = indexed("identity", "identity/frontend");
    assert!(matches!(
        patch_note_impl(&trust, &id, &body, false, &a),
        Next::Fail(d) if matches!(&d.error, GradatumError::Forbidden(_))
    ));
    let svc = TrustContext::Mtls { cn: "s".into() };
    assert!(matches!(
        patch_note_impl(&svc, &id, &body, false, &a),
        Next::Fail(d) if matches!(&d.error, GradatumError::Forbidden(m)
            if m == "context without tenant — vault access denied")
    ));
    let bad = patch(Some("archived"), None, None, None);
    a.titles = indexed("debug", "t");
    assert!(matches!(
        patch_note_impl(&trust, &id, &bad, false, &a),
        Next::Fail(d) if matches!(&d.error, GradatumError::InvalidInput(_))
    ));
}

#[test]
fn a_note_is_taken_out_of_service() {
    let trust = agent("backend", vec![]);
    let req = |id: &str, by: Option<&str>| VaultDowngradeRequest {
        note_id: id.into(),
        reason: "old".into(),
        replaced_by: by.map(|s| s.to_string()),
        tenant_id: None,
    };
    let mut a = writable();
    a.titles = indexed("debug", "t");
    match vault_downgrade_impl(&trust, &req(ID, Some(OTHER)), 9, &a) {
        Next::Ask(Ask::Downgrade { vault, note_id, replaced_by, .. }) => {
            assert_eq!(vault.as_deref(), Some("main"));
            assert_eq!((note_id.as_str(), replaced_by.as_deref()), (ID, Some(OTHER)));
        }
        other => panic!("{other:?}"),
    }
    assert!(matches!(
        vault_downgrade_impl(&trust, &req("title", None), 9, &a),
        Next::Fail(d) if matches!(&d.error, GradatumError::Validation(m)
            if m.starts_with("invalid note_id \"title\""))
    ));
    assert!(matches!(
        vault_downgrade_impl(&trust, &req(ID, Some("title")), 9, &a),
        Next::Fail(d) if matches!(&d.error, GradatumError::Validation(m)
            if m.starts_with("invalid replaced_by"))
    ));
    a.done = Some(Ok(()));
    match vault_downgrade_impl(&trust, &req(ID, None), 9, &a) {
        Next::Reply(x) => {
            assert_eq!((x.status.as_str(), x.status_changed), ("downgraded", 9));
            assert_eq!(x.reason, "old");
        }
        other => panic!("{other:?}"),
    }
    match vault_downgrade(&req(ID, None), 9, &a) {
        HttpNext::Reply(x) => assert_eq!(x.note_id, ID),
        other => panic!("{other:?}"),
    }
    match vault_downgrade(&req("title", None), 9, &a) {
        HttpNext::Refuse(s) => assert_eq!(s, StatusCode::BadRequest),
        other => panic!("{other:?}"),
    }
    a.done = Some(Err(GradatumError::NoteNotFound(ID.into())));
    match vault_downgrade(&req(ID, None), 9, &a) {
        HttpNext::Refuse(s) => assert_eq!(s, StatusCode::NotFound),
        other => panic!("{other:?}"),
    }
}

#[test]
fn a_note_is_moved() {
    let body = MoveLocusRequest { locus: "  inbox/old ".into() };
    let mut a = Answers::none();
    assert_eq!(door(move_note_locus("x", &body, &a)), 400);
    match move_note_locus(ID, &body, &a) {
        HttpNext::Ask(Ask::CheckLocus { locus }) => assert_eq!(locus, "inbox/old"),
        other => panic!("{other:?}"),
    }
    a.locus_valid = Some(false);
    assert_eq!(door(move_note_locus(ID, &body, &a)), 400);
    a.locus_valid = Some(true);
    match move_note_locus(ID, &body, &a) {
        HttpNext::Ask(Ask::MoveNote { vault, id, locus }) => {
            assert_eq!((vault, id.as_str(), locus.as_str()), (None, ID, "inbox/old"))
        }
        other => panic!("{other:?}"),
    }
    a.done = Some(Ok(()));
    assert_eq!(door(move_note_locus(ID, &body, &a)), 204);
    a.done = None;
    a.acl = Some(true);
    a.titles = indexed("debug", "t");
    match move_note_locus_impl(&agent("b", vec![]), ID, "inbox", false, &a) {
        Next::Ask(Ask::MoveNote { vault, .. }) => assert_eq!(vault.as_deref(), Some("main")),
        other => panic!("{other:?}"),
    }
}
