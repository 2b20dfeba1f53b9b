//! Operations run from their first question to their reply.

use gradatum_api::delete::{vault_delete_core, VaultDeleteRequest};
use gradatum_api::door::HttpNext;
use gradatum_api::dto::VaultReadRequest;
use gradatum_api::flow::{Answers, Ask, Next};
use gradatum_api::graph::{vault_trace_impl, VaultTraceRequest};
use gradatum_api::history::{vault_restore_impl, VaultRestoreRequest};
use gradatum_api::ids::NoteId;
use gradatum_api::jobs::{cancel_job, create_job, CreateJobRequest, JobsSettings, KindInput};
use gradatum_api::notes::{
    move_note_locus_impl, patch_note, patch_note_impl, vault_downgrade_impl, NoteStatusPatch,
    VaultDowngradeRequest,
};
use gradatum_api::queue::Job;
use gradatum_api::read::vault_read_impl;
use gradatum_api::rows::{Archived, IndexedNote, Lineage, StatusRow, TitleSection, VaultNote};
use gradatum_api::trust::TrustContext;
use gradatum_api::writing::{vault_write_impl, FeatureWriteAuthority, VaultWriteRequest};

const ID: &str = "01ARZ3NDEKTSV4RRFFQ69G5FAV";

fn agent() -> TrustContext {
    TrustContext::BearerToken {
        kid: "k".into(),
        aud: "gradatum".into(),
        sub: "x".into(),
        scopes: vec!["write".into()],
        tenant_id: "main".into(),
        jti: None,
    }
}

fn row() -> TitleSection {
    TitleSection { note_id: ID.into(), title: Some("t".into()), section: "debug".into() }
}

fn name(q: &Ask) -> String {
    format!("{q:?}").split([' ', '{']).next().unwrap().to_string()
}

/// Whether answering the question changes something.
fn changes(q: &Ask) -> bool {
    [
        "EnqueueWrite", "Restore", "Downgrade", "ChangeStatus", "PatchNote", "AddTags", "MoveNote",
        "Tombstone", "Archive", "PurgeIndex", "PurgeRedirect", "Enqueue", "CancelJob", "StoreKey",
        "NoteDrift", "NoteWrite",
    ]
    .contains(&name(q).as_str())
}

/// Answers every question favorably.
fn answer(q: Ask, a: &mut Answers) {
    match q {
        Ask::Tenant { .. } => a.tenant = Some(Some("main".into())),
        Ask::WriteVault { .. } => a.write_vault = Some(Ok("main".into())),
        Ask::Acl { .. } => a.acl = Some(true),
        Ask::TitleLookup { .. } => a.title = Some(Ok(Some(ID.into()))),
        Ask::TitlesSections { .. } => a.titles = Some(Ok(vec![row()])),
        Ask::Statuses { .. } => {
            a.statuses = Some(Ok(vec![StatusRow { note_id: ID.into(), status: "live".into() }]))
        }
        Ask::ReadNote { .. } => {
            a.note = Some(Ok(VaultNote {
                id: NoteId::parse(ID).unwrap(),
                body: "b".into(),
                h1_title: None,
                content_hash: vec![1; 32],
                section: "debug".into(),
                status: "live".into(),
                author: None,
                tags: vec![],
                vault_id: "main".into(),
                created_ms: 0,
                updated_ms: None,
                feature_roles: vec![],
            }))
        }
        Ask::Lineages { .. } => {
            a.lineages = Some(Ok(vec![Lineage { parents: vec![], children: vec![ID.into()] }]))
        }
        Ask::CategoryDrift { .. } => a.drift = Some(None),
        Ask::NoteWrite { .. } => a.write_noted = Some(true),
        Ask::CheckSha { .. } => a.sha_valid = Some(true),
        Ask::EnqueueWrite { .. } | Ask::Enqueue { .. } => {
            a.enqueued = Some(Ok(NoteId::parse(ID).unwrap()))
        }
        Ask::IndexedNote { .. } => {
            a.indexed_note = Some(Ok(Some(IndexedNote {
                section: "debug".into(),
                title: None,
                body_text: "b".into(),
                content_hash: vec![],
            })))
        }
        Ask::Backlinks { .. } => a.backlinks = Some(Ok(vec![])),
        Ask::Tombstone { .. } => a.tombstone = Some(Ok(())),
        Ask::Archive { .. } => {
            a.archived = Some(Ok(Archived { index_error: None, archive_path: None }))
        }
        Ask::Restore { .. } => a.restored = Some(Ok("h".into())),
        Ask::Downgrade { .. } | Ask::ChangeStatus { .. } | Ask::MoveNote { .. } => {
            a.done = Some(Ok(()))
        }
        Ask::CheckLocus { .. } => a.locus_valid = Some(true),
        Ask::KnownKey { .. } => a.known_key = Some(Ok(None)),
        Ask::StoreKey { .. } => a.key_stored = Some(true),
        other => panic!("{other:?}"),
    }
}

/// Runs an operation; no question comes twice. Returns the questions.
fn run<T: std::fmt::Debug>(step: impl Fn(&Answers) -> Next<T>) -> (Vec<String>, bool) {
    let mut a = Answers::none();
    let (mut asked, mut changed) = (vec![], false);
    loop {
        match step(&a) {
            Next::Ask(q) => {
                let n = name(&q);
                assert!(!asked.contains(&n), "{n} twice");
                asked.push(n);
                changed = changed || changes(&q);
                answer(q, &mut a);
            }
            Next::Reply(_) => return (asked, changed),
            Next::Fail(d) => panic!("{d:?}"),
        }
    }
}

fn write() -> VaultWriteRequest {
    VaultWriteRequest {
        title: "t".into(),
        body: "b".into(),
        author: None,
        tags: vec![],
        section_hint: None,
        tenant_id: None,
        occurred_at: None,
        note_id: Some(ID.into()),
        expected_sha256: Some("ab".into()),
    }
}

fn patch(tags: Option<Vec<String>>, status: Option<&str>) -> NoteStatusPatch {
    NoteStatusPatch {
        status: status.map(|s| s.to_string()),
        status_reason: None,
        replaced_by: None,
        add_tags: tags,
    }
}

#[test]
fn reading_ends_and_changes_nothing() {
    let trust = agent();
    let read = VaultReadRequest {
        path: "A title".into(),
        section: None,
        tenant_id: None,
        compact: false,
    };
    let (asked, changed) = run(|a| vault_read_impl(&trust, &read, a));
    assert_eq!(asked, ["Tenant", "Acl", "TitleLookup", "ReadNote", "TitlesSections", "Statuses"]);
    assert!(!changed);
    let trace = VaultTraceRequest { tenant_id: None, query: ID.into(), limit: None };
    let (asked, changed) = run(|a| vault_trace_impl(&trust, &trace, a));
    assert_eq!(asked, ["Tenant", "Acl", "TitlesSections", "Lineages"]);
    assert!(!changed);
}

#[test]
fn changing_ends_with_the_change() {
    let trust = agent();
    let fresh = NoteId::parse(ID).unwrap();
    let req = write();
    let (asked, _) = run(|a| {
        vault_write_impl(&trust, &req, FeatureWriteAuthority::External, &fresh, a)
    });
    assert_eq!(
        asked,
        ["WriteVault", "Acl", "CategoryDrift", "CheckSha", "ReadNote", "EnqueueWrite", "NoteWrite"]
    );
    let del = |dry_run: bool| VaultDeleteRequest {
        note_id: ID.into(),
        tenant_id: None,
        dry_run,
        confirm_ulids: vec![ID.into()],
    };
    let (asked, changed) = run(|a| vault_delete_core(&trust, &del(false), 0, 1, a));
    assert_eq!(asked, ["WriteVault", "IndexedNote", "Backlinks", "Tombstone", "Archive"]);
    assert!(changed);
    assert!(!run(|a| vault_delete_core(&trust, &del(true), 0, 1, a)).1);
    let back = VaultRestoreRequest { note_id: ID.into(), ts_ms: 1, tenant_id: None };
    let (asked, _) = run(|a| vault_restore_impl(&trust, &back, a));
    assert_eq!(asked, ["WriteVault", "Acl", "TitlesSections", "Restore"]);
    let (asked, _) = run(|a| move_note_locus_impl(&trust, ID, "inbox", false, a));
    assert_eq!(asked.last().map(|s| s.as_str()), Some("MoveNote"));
    let id = NoteId::parse(ID).unwrap();
    let (asked, _) = run(|a| patch_note_impl(&trust, &id, &patch(None, Some("live")), false, a));
    assert_eq!(asked, ["Acl", "TitlesSections", "ChangeStatus"]);
}

#[test]
fn nothing_changes_without_a_credential() {
    let nobody = TrustContext::Unauthenticated;
    let fresh = NoteId::parse(ID).unwrap();
    let a = Answers::none();
    let back = VaultRestoreRequest { note_id: ID.into(), ts_ms: 1, tenant_id: None };
    let down = VaultDowngradeRequest {
        note_id: ID.into(),
        reason: "r".into(),
        replaced_by: None,
        tenant_id: None,
    };
    let del = VaultDeleteRequest {
        note_id: ID.into(),
        tenant_id: None,
        dry_run: false,
        confirm_ulids: vec![ID.into()],
    };
    let authority = FeatureWriteAuthority::External;
    assert!(matches!(vault_write_impl(&nobody, &write(), authority, &fresh, &a), Next::Fail(_)));
    assert!(matches!(vault_restore_impl(&nobody, &back, &a), Next::Fail(_)));
    assert!(matches!(vault_downgrade_impl(&nobody, &down, 0, &a), Next::Fail(_)));
    assert!(matches!(vault_delete_core(&nobody, &del, 0, 1, &a), Next::Fail(_)));
    assert!(matches!(
        patch_note_impl(&nobody, &fresh, &patch(None, Some("live")), false, &a),
        Next::Fail(_)
    ));
    let st = JobsSettings { multi_tenant: false, keeps_keys: true };
    assert!(matches!(cancel_job(&nobody, ID, &st, &a), HttpNext::Refuse(_)));
}

#[test]
fn a_patch_of_tags_writes_no_reason() {
    let mut a = Answers::none();
    a.tags_valid = Some(true);
    let tags = patch(Some(vec!["a".into()]), None);
    match patch_note(ID, &tags, &a) {
        HttpNext::Ask(Ask::PatchNote { reason, replaced_by, .. }) => {
            assert_eq!((reason, replaced_by), (None, None))
        }
        other => panic!("{other:?}"),
    }
    a.patched = Some(Ok(()));
    assert!(matches!(patch_note(ID, &tags, &a), HttpNext::Ask(Ask::AddTags { .. })));
}

#[test]
fn a_job_is_created_once() {
    let trust = agent();
    let st = JobsSettings { multi_tenant: false, keeps_keys: true };
    let key = Some("key".to_string());
    let body = CreateJobRequest {
        kind: KindInput::Kind(Job::Distill { data: "{}".into() }),
        triggered_by: None,
        own_tenant: None,
    };
    let id = NoteId::parse(ID).unwrap();
    let mut a = Answers::none();
    let mut asked = vec![];
    while let HttpNext::Ask(q) = create_job(&trust, &key, &body, &st, id, 0, &a) {
        if changes(&q) {
            assert_eq!(a.acl, Some(true));
        }
        asked.push(name(&q));
        answer(q, &mut a);
    }
    assert_eq!(asked, ["Acl", "KnownKey", "Enqueue", "StoreKey"]);
}
