//! Cards, reviews and the dashboard.

use gradatum_api::dashboard::{dashboard, queue_depth, summarize_job};
use gradatum_api::door::HttpNext;
use gradatum_api::error::{GradatumError, StatusCode};
use gradatum_api::flow::{Answers, Ask};
use gradatum_api::ids::{Moment, NoteId};
use gradatum_api::project_map::{
    card_notes, default_derived, export_features, list_cards, target_vault, ExportFeaturesQuery,
    ListCardsQuery, MapScan, Mapped,
};
use gradatum_api::queue::{JobCount, JobStatus, LatestJob};
use gradatum_api::review::{list_review, ReviewQueueQuery};
use gradatum_api::rows::{MapPage, MapRecord, NamedCount, ReviewRow};
use gradatum_api::trust::TrustContext;

const ID: &str = "01ARZ3NDEKTSV4RRFFQ69G5FAV";

fn agent() -> TrustContext {
    TrustContext::BearerToken {
        kid: "k".into(),
        aud: "gradatum".into(),
        sub: "x".into(),
        scopes: vec![],
        tenant_id: "main".into(),
        jti: None,
    }
}

fn record(i: usize, status: &str) -> MapRecord {
    MapRecord {
        id: format!("{i:05}"),
        title: if i % 2 == 0 { Some(format!("card {i}")) } else { None },
        body_text: format!("body {i}"),
        status: status.into(),
    }
}

/// Serves the notes after a cursor, as many as asked for.
fn page(total: usize, cursor: &Option<String>, limit: usize) -> MapPage {
    let from = match cursor {
        Some(c) => c.parse::<usize>().unwrap() + 1,
        None => 0,
    };
    let to = (from + limit).min(total);
    MapPage {
        records: (from..to)
            .map(|i| record(i, if i % 7 == 3 { "garbage" } else { "live" }))
            .collect(),
        total: total as u64,
    }
}

fn fetch(total: usize) -> (usize, Vec<String>) {
    let q = ListCardsQuery { version: Some("2.1.0".into()) };
    let mut a = Answers::none();
    a.resolved = Some(Ok("main".into()));
    let mut scan = MapScan::start();
    let mut pages = 0;
    loop {
        match list_cards(&agent(), &q, &scan, &a) {
            HttpNext::Ask(Ask::MapPage { vault, section, limit, cursor }) => {
                assert_eq!((vault.as_str(), section.as_str(), limit), ("main", "project-map", 200));
                pages += 1;
                a.map_page = Some(Ok(page(total, &cursor, limit)));
            }
            HttpNext::Reply(Mapped::Page) => {
                scan = scan.accept(a.map_page.take().unwrap().unwrap());
            }
            HttpNext::Reply(Mapped::All(x)) => {
                assert_eq!(x.version.as_deref(), Some("2.1.0"));
                assert_eq!(x.project, "gradatum");
                return (pages, x.notes.into_iter().map(|n| n.id).collect());
            }
            other => panic!("{other:?}"),
        }
    }
}

#[test]
fn the_list_of_cards_is_complete() {
    for (total, pages) in [(0, 1), (1, 1), (199, 1), (200, 1), (201, 2), (450, 3)] {
        let (fetched, ids) = fetch(total);
        assert_eq!(fetched, pages, "{total}");
        let expected: Vec<String> =
            (0..total).filter(|i| i % 7 != 3).map(|i| format!("{i:05}")).collect();
        assert_eq!(ids, expected);
    }
    let (fetched, ids) = fetch(10_300);
    assert_eq!(fetched, 50);
    assert_eq!(ids.last().map(|s| s.as_str()), Some("09998"));
}

#[test]
fn cards_show_their_notes() {
    let notes = card_notes(&vec![record(0, "live"), record(1, "live"), record(2, "garbage")]);
    assert_eq!(notes.len(), 2);
    assert_eq!((notes[0].title.as_str(), notes[0].body.as_str()), ("card 0", "body 0"));
    assert_eq!(notes[1].title, "");
    assert_eq!(target_vault(), "main");
}

#[test]
fn features_are_exported_as_asked() {
    let q = ExportFeaturesQuery::default();
    assert!(!q.include_dropped && q.derived && default_derived());
    let mut a = Answers::none();
    match export_features(&TrustContext::Unauthenticated, &q, &MapScan::start(), &a) {
        HttpNext::Refuse(s) => assert_eq!(s, StatusCode::Unauthorized),
        other => panic!("{other:?}"),
    }
    a.resolved = Some(Err(StatusCode::Forbidden));
    match export_features(&agent(), &q, &MapScan::start(), &a) {
        HttpNext::Refuse(s) => assert_eq!(s, StatusCode::Forbidden),
        other => panic!("{other:?}"),
    }
    a.resolved = Some(Ok("main".into()));
    a.map_page = Some(Err(GradatumError::Storage("x".into())));
    match export_features(&agent(), &q, &MapScan::start(), &a) {
        HttpNext::Refuse(s) => assert_eq!(s, StatusCode::InternalServerError),
        other => panic!("{other:?}"),
    }
    let scan = MapScan::start().accept(page(2, &None, 200));
    let asked = ExportFeaturesQuery { include_dropped: true, derived: false };
    match export_features(&agent(), &asked, &scan, &a) {
        HttpNext::Reply(Mapped::All(x)) => {
            assert_eq!((x.notes.len(), x.include_dropped, x.derived), (2, true, false))
        }
        other => panic!("{other:?}"),
    }
}

fn waiting(n: usize) -> Vec<ReviewRow> {
    (0..n)
        .map(|i| ReviewRow {
            note_id: NoteId { value: i as u128 },
            title: None,
            section: "debug".into(),
            locus: None,
            status: "pending-review".into(),
            provenance: Some("distilled".into()),
            created_ms: i as i64,
        })
        .collect()
}

fn review(limit: Option<usize>, cursor: Option<&str>) -> HttpNext<(usize, Option<String>, u64)> {
    let q = ReviewQueueQuery { limit, cursor: cursor.map(|s| s.to_string()) };
    let mut a = Answers::none();
    loop {
        match list_review(&agent(), &q, &a) {
            HttpNext::Ask(Ask::Acl { locus, .. }) => {
                assert_eq!(locus, "main/review");
                a.acl = Some(true);
            }
            HttpNext::Ask(Ask::ReviewQueue { limit, .. }) => {
                a.review = Some(Ok(waiting(60.min(limit))))
            }
            HttpNext::Ask(Ask::ReviewCount { .. }) => a.review_count = Some(Ok(60)),
            HttpNext::Ask(q) => panic!("{q:?}"),
            HttpNext::Refuse(s) => return HttpNext::Refuse(s),
            HttpNext::Reply(x) => {
                return HttpNext::Reply((x.items.len(), x.next_cursor, x.total))
            }
        }
    }
}

#[test]
fn reviews_come_in_pages() {
    let at = |i: u128| Some(NoteId { value: i }.text());
    assert!(matches!(review(None, None), HttpNext::Reply((50, c, 60)) if c == at(49)));
    assert!(matches!(review(Some(0), None), HttpNext::Reply((1, c, 60)) if c == at(0)));
    assert!(matches!(review(Some(1000), None), HttpNext::Reply((60, None, 60))));
    assert!(matches!(review(Some(10), Some(ID)), HttpNext::Reply((10, Some(_), 60))));
    assert!(matches!(review(None, Some("x")), HttpNext::Refuse(StatusCode::BadRequest)));
    let mut a = Answers::none();
    a.acl = Some(false);
    let q = ReviewQueueQuery { limit: None, cursor: None };
    assert!(matches!(list_review(&agent(), &q, &a), HttpNext::Refuse(StatusCode::Forbidden)));
    a.acl = Some(true);
    a.review = Some(Ok(vec![]));
    a.review_count = Some(Err(GradatumError::Storage("x".into())));
    assert!(matches!(
        list_review(&agent(), &q, &a),
        HttpNext::Refuse(StatusCode::InternalServerError)
    ));
}

#[test]
fn the_dashboard_shows_what_there_is() {
    let mut a = Answers::none();
    a.acl = Some(true);
    a.status_counts = Some(Ok(vec![NamedCount { name: "downgraded".into(), note_count: 2 }]));
    a.forgotten_count = Some(Ok(4));
    a.job_counts = Some(Ok(vec![
        JobCount { status: JobStatus::DLQ, count: 1 },
        JobCount { status: JobStatus::Pending, count: 3 },
    ]));
    a.wal_size = Some(Some(512));
    a.latest_job = Some(Ok(Some(LatestJob {
        id: NoteId::parse(ID).unwrap(),
        status: JobStatus::Running,
        created_at: Moment { seconds: 851_042_397, nanos: 0 },
    })));
    match dashboard(&agent(), &a) {
        HttpNext::Reply(x) => {
            assert_eq!(x.notes_by_status[0].name, "downgraded");
            assert_eq!((x.forgotten_count, x.queue_depth), (4, 3));
            assert_eq!(x.jobs_by_status[0].name, "DLQ");
            assert_eq!(x.wal_size_bytes, Some(512));
            let j = x.last_job.unwrap();
            assert_eq!((j.id.as_str(), j.status.as_str()), (ID, "Running"));
            assert_eq!(j.created_at, "1996-12-20T00:39:57+00:00");
        }
        other => panic!("{other:?}"),
    }
}

#[test]
fn the_dashboard_does_without_what_fails() {
    let fail = || GradatumError::Storage("x".into());
    let mut a = Answers::none();
    a.acl = Some(true);
    a.status_counts = Some(Ok(vec![]));
    a.forgotten_count = Some(Err(fail()));
    a.job_counts = Some(Err(fail()));
    a.wal_size = Some(None);
    a.latest_job = Some(Err(fail()));
    match dashboard(&agent(), &a) {
        HttpNext::Reply(x) => {
            assert_eq!((x.forgotten_count, x.queue_depth), (0, 0));
            assert!(x.jobs_by_status.is_empty() && x.last_job.is_none());
            assert_eq!(x.wal_size_bytes, None);
        }
        other => panic!("{other:?}"),
    }
    a.status_counts = Some(Err(fail()));
    assert!(matches!(
        dashboard(&agent(), &a),
        HttpNext::Refuse(StatusCode::InternalServerError)
    ));
    assert_eq!(queue_depth(&vec![]), 0);
    assert!(summarize_job(&Ok(None), Some("now".into())).is_none());
}
