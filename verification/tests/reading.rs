//! Operations that read notes.

use gradatum_api::dto::{GraphEdge, VaultListRequest, VaultReadRequest, VaultSearchRequest};
use gradatum_api::error::{GradatumError, StatusCode};
use gradatum_api::flow::{Answers, Ask, Next};
use gradatum_api::graph::{
    filter_identity_nodes, vault_context_impl, vault_graph_impl, vault_links_impl,
    vault_trace_impl, VaultGraphRequest, VaultLinksRequest, VaultTraceRequest,
};
use gradatum_api::handlers::{self, Body, Handled, SearchHandled};
use gradatum_api::history::{
    is_valid_selector, vault_classify_impl, vault_diff_impl, vault_history_get_impl,
    vault_history_impl, vault_restore_impl, VaultClassifyRequest, VaultDiffRequest,
    VaultHistoryGetRequest, VaultHistoryRequest, VaultRestoreRequest,
};
use gradatum_api::ids::NoteId;
use gradatum_api::lessons::{lessons_recall_impl, LessonsRecallRequest, LessonsSettings, RankMode};
use gradatum_api::listing::{
    page_limit, vault_archives_list_impl, vault_authors_impl, vault_list_impl, vault_tags_impl,
    ListingSettings, VaultArchivesListRequest, VaultTagsRequest,
};
use gradatum_api::read::{note_use, title_shown, vault_read_impl};
use gradatum_api::rows::{
    ArchiveEntry, CurateOutcome, LessonRow, Lineage, NamedCount, NotePage, NoteRecord, Retrieval,
    SnapshotRow, StatusRow, TimelineRow, TitleSection, VaultNote,
};
use gradatum_api::search::{
    note_uses, vault_search_impl, FusedHit, LexicalHit, Scored, SearchAnswers, SearchAsk,
    SearchNext, SearchSettings,
};
use gradatum_api::semantic::SemanticHit;
use gradatum_api::timeline::{vault_timeline_impl, VaultTimelineRequest};
use gradatum_api::trust::TrustContext;

const A: &str = "01HAAAAAAAAAAAAAAAAAAAAAAA";
const B: &str = "01HBBBBBBBBBBBBBBBBBBBBBBB";
const C: &str = "01HCCCCCCCCCCCCCCCCCCCCCCC";

fn agent(sub: &str) -> TrustContext {
    TrustContext::BearerToken {
        kid: "k".into(),
        aud: "gradatum".into(),
        sub: sub.into(),
        scopes: vec!["read".into()],
        tenant_id: "main".into(),
        jti: None,
    }
}

fn readable() -> Answers {
    let mut a = Answers::none();
    a.tenant = Some(Some("main".into()));
    a.acl = Some(true);
    a
}

fn row(id: &str, title: Option<&str>, section: &str) -> TitleSection {
    TitleSection {
        note_id: id.into(),
        title: title.map(|t| t.to_string()),
        section: section.into(),
    }
}

fn note(section: &str, h1: Option<&str>) -> VaultNote {
    VaultNote {
        id: NoteId::parse(A).unwrap(),
        body: "# Heading\nbody".into(),
        h1_title: h1.map(|s| s.to_string()),
        content_hash: vec![0x0f; 32],
        section: section.into(),
        status: "draft".into(),
        author: Some("x".into()),
        tags: vec!["t".into()],
        vault_id: "main".into(),
        created_ms: 5,
        updated_ms: Some(6),
        feature_roles: vec![],
    }
}

// ── Reading ─────────────────────────────────────────────────────────────────

fn read(path: &str) -> VaultReadRequest {
    VaultReadRequest { path: path.into(), section: None, tenant_id: None, compact: false }
}

#[test]
fn a_note_is_read_with_what_the_index_says_of_it() {
    let mut a = readable();
    a.note = Some(Ok(note("debug", Some("Heading"))));
    a.titles = Some(Ok(vec![row(A, Some("Index title"), "debug")]));
    a.statuses = Some(Ok(vec![StatusRow { note_id: A.into(), status: "live".into() }]));
    match vault_read_impl(&agent("x"), &read(A), &a) {
        Next::Reply(x) => {
            assert_eq!(x.title.as_deref(), Some("Index title"));
            assert_eq!(x.content, "# Heading\nbody");
            assert_eq!(x.size_bytes, 14);
            assert_eq!(x.sha256, "0f".repeat(32));
            let (vault, used) = note_use(&x).unwrap();
            assert_eq!((vault.as_str(), used.note_id.as_str()), ("main", A));
            assert_eq!(used.kind, "read");
            assert_eq!(x.metadata.unwrap().status, "live");
        }
        other => panic!("{other:?}"),
    }
    let blank = Ok(vec![row(A, Some("  "), "debug")]);
    assert_eq!(title_shown(&blank, A, &Some("Heading".into())).as_deref(), Some("Heading"));
}

#[test]
fn a_title_that_no_note_bears_is_not_found() {
    let mut a = readable();
    a.title = Some(Ok(None));
    a.redirect = Some(Ok(None));
    match vault_read_impl(&agent("x"), &read("No such title"), &a) {
        Next::Fail(d) => assert!(matches!(d.error, GradatumError::NoteNotFound(_))),
        other => panic!("{other:?}"),
    }
    match handlers::vault_read(&agent("x"), &read("No such title"), &a) {
        Handled::Refuse(s, _) => assert_eq!(s, StatusCode::NotFound),
        other => panic!("{other:?}"),
    }
}

#[test]
fn the_soul_of_another_agent_is_not_read() {
    let mut a = readable();
    a.note = Some(Ok(note("identity", Some("identity/frontend"))));
    a.titles = Some(Ok(vec![row(A, Some("identity/frontend"), "identity")]));
    match vault_read_impl(&agent("backend"), &read(A), &a) {
        Next::Fail(d) => {
            assert!(matches!(d.error, GradatumError::Forbidden(_)));
            assert!(d.audit.is_some());
        }
        other => panic!("{other:?}"),
    }
}

#[test]
fn a_compact_reply_is_a_text() {
    let mut a = readable();
    a.note = Some(Ok(note("debug", None)));
    a.titles = Some(Ok(vec![]));
    a.statuses = Some(Ok(vec![]));
    let req = VaultReadRequest { compact: true, ..read(A) };
    match handlers::vault_read(&agent("x"), &req, &a) {
        Handled::Reply(Body::Compact(c)) => assert!(c.ends_with("---\n# Heading\nbody"), "{c}"),
        other => panic!("{other:?}"),
    }
    match handlers::vault_read(&TrustContext::Unauthenticated, &req, &a) {
        Handled::Refuse(s, _) => assert_eq!(s, StatusCode::Unauthorized),
        other => panic!("{other:?}"),
    }
}

// ── Search ──────────────────────────────────────────────────────────────────

fn search(query: &str) -> VaultSearchRequest {
    VaultSearchRequest {
        query: query.into(),
        limit: None,
        tenant_id: None,
        vault_id: None,
        section: None,
        locus: None,
        status: None,
        from_ms: None,
        to_ms: None,
        include_downgraded: false,
        include_corpus_count: false,
        compact: false,
    }
}

fn settings(embedder_active: bool) -> SearchSettings {
    SearchSettings {
        multi_tenant: false,
        embedder_active,
        reranker_active: false,
        rerank_batch: 10,
        default_excluded: vec!["snapshot".into()],
    }
}

fn lexical(id: &str, section: &str) -> LexicalHit {
    LexicalHit {
        note_id: id.into(),
        score_bits: 1.5f64.to_bits(),
        section: section.into(),
        snippet: "…".into(),
        title: Some("t".into()),
        status: "live".into(),
        anchor_ms: None,
    }
}

fn run_search(
    trust: &TrustContext,
    req: &VaultSearchRequest,
    st: &SearchSettings,
    hits: Vec<(&str, &str)>,
    semantic: Vec<(&str, &str)>,
) -> (SearchNext, Vec<String>) {
    let mut a = SearchAnswers::none();
    let mut asked: Vec<String> = vec![];
    for _ in 0..40 {
        let q = match vault_search_impl(trust, req, st, &a) {
            SearchNext::Ask(q) => q,
            other => return (other, asked),
        };
        asked.push(format!("{q:?}").split([' ', '{']).next().unwrap().to_string());
        let sections = || -> Vec<TitleSection> {
            semantic.iter().chain(hits.iter()).map(|(id, s)| row(id, Some("t"), s)).collect()
        };
        match q {
            SearchAsk::Tenant { .. } => a.tenant = Some(Some("main".into())),
            SearchAsk::AclRead { .. } => a.acl = Some(true),
            SearchAsk::ReadVault { .. } => a.read_vault = Some(Ok("main".into())),
            SearchAsk::Lexical { .. } => {
                a.lexical = Some(Ok(hits.iter().map(|(id, s)| lexical(id, s)).collect()))
            }
            SearchAsk::Semantic { .. } => {
                a.semantic = Some(Ok(semantic
                    .iter()
                    .map(|(id, _)| SemanticHit {
                        note_id: NoteId::parse(id).unwrap(),
                        score_bits: 0.5f32.to_bits(),
                    })
                    .collect()))
            }
            SearchAsk::SemanticSections { .. } => a.semantic_sections = Some(Ok(sections())),
            SearchAsk::SemanticStatuses { ids, .. } => {
                a.semantic_statuses = Some(Ok(ids
                    .into_iter()
                    .map(|note_id| StatusRow { note_id, status: "live".into() })
                    .collect()))
            }
            SearchAsk::Anchors { .. } => a.anchors = Some(Ok(vec![])),
            SearchAsk::Fuse { lexical, semantic: found, .. } => {
                assert!(lexical.iter().all(|w| w.score_bits == 1.5f64.to_bits()));
                let mut fused: Vec<FusedHit> = lexical
                    .iter()
                    .map(|w| FusedHit {
                        note_id: w.note_id.clone(),
                        section: "debug".into(),
                        snippet: Some("…".into()),
                        title: Some("t".into()),
                        status: "live".into(),
                        anchor_ms: None,
                        semantic_only: false,
                    })
                    .collect();
                for h in found {
                    fused.push(FusedHit {
                        note_id: h.note_id.text(),
                        section: String::new(),
                        snippet: None,
                        title: None,
                        status: String::new(),
                        anchor_ms: None,
                        semantic_only: true,
                    });
                }
                a.fused = Some(fused);
            }
            SearchAsk::FusedSections { .. } => a.fused_sections = Some(Ok(sections())),
            SearchAsk::Rank { hits, .. } => {
                assert!(hits.iter().all(|h| !h.section.is_empty()));
                a.ranks = Some(Ok(hits
                    .iter()
                    .enumerate()
                    .map(|(i, _)| Scored { rank: i as i64, score: format!("0.{i}000") })
                    .collect()))
            }
            SearchAsk::HitTitles { .. } => a.hit_titles = Some(Ok(sections())),
            SearchAsk::HitStatuses { ids, .. } => {
                a.hit_statuses = Some(Ok(ids
                    .into_iter()
                    .map(|note_id| StatusRow { note_id, status: "live".into() })
                    .collect()))
            }
            SearchAsk::Corpus { .. } => a.corpus = Some(Ok((7, false))),
            other => panic!("{other:?}"),
        }
    }
    panic!("no end");
}

#[test]
fn an_empty_query_is_refused() {
    match run_search(&agent("x"), &search("   "), &settings(false), vec![], vec![]).0 {
        SearchNext::Fail(e) => assert!(matches!(e, GradatumError::InvalidInput(_))),
        other => panic!("{other:?}"),
    }
    let mut bad = search("x");
    bad.status = Some("archived".into());
    match run_search(&agent("x"), &bad, &settings(false), vec![], vec![]).0 {
        SearchNext::Fail(e) => {
            assert!(matches!(e, GradatumError::InvalidInput(m) if m == "invalid status"))
        }
        other => panic!("{other:?}"),
    }
}

#[test]
fn words_are_searched_and_ranked() {
    let (end, asked) = run_search(
        &agent("x"),
        &search("gradatum 2.0"),
        &settings(false),
        vec![(A, "debug"), (B, "debug")],
        vec![],
    );
    match end {
        SearchNext::Reply(x) => {
            assert_eq!(x.items.len(), 2);
            assert_eq!(x.items[0].path, format!("debug/{A}"));
            assert_eq!(x.items[0].vault_id, "main");
            assert_eq!(x.items[0].score, "0.0000");
            assert_eq!(x.corpus_match_count, None);
            let uses = note_uses(&x.items);
            assert_eq!(uses[0].note_id, A);
        }
        other => panic!("{other:?}"),
    }
    assert!(!asked.contains(&"Semantic".to_string()), "{asked:?}");
}

#[test]
fn a_search_over_http_can_be_compact() {
    let mut req = search("gradatum");
    req.compact = true;
    let st = settings(false);
    match handlers::vault_search(&TrustContext::Unauthenticated, &req, &st, &SearchAnswers::none()) {
        SearchHandled::Refuse(s) => assert_eq!(s, StatusCode::Unauthorized),
        other => panic!("{other:?}"),
    }
}

#[test]
fn the_vault_of_a_search_is_bounded_in_characters() {
    let st = settings(false);
    let end = |vault: &str| {
        let mut req = search("gradatum");
        req.vault_id = Some(vault.into());
        run_search(&agent("x"), &req, &st, vec![(A, "debug")], vec![]).0
    };
    for vault in [String::new(), "é".repeat(129)] {
        assert!(matches!(end(&vault), SearchNext::Fail(GradatumError::InvalidInput(m))
            if m == "invalid vault_id"));
    }
    assert!(matches!(end(&"é".repeat(128)), SearchNext::Fail(GradatumError::Forbidden(_))));
    assert!(matches!(end("main"), SearchNext::Reply(_)));
}

#[test]
fn a_soul_is_not_found_by_others() {
    let (end, _) = run_search(
        &agent("x"),
        &search("gradatum"),
        &settings(true),
        vec![(A, "debug")],
        vec![(B, "identity"), (C, "snapshot")],
    );
    match end {
        SearchNext::Reply(x) => {
            let paths: Vec<&str> = x.items.iter().map(|i| i.path.as_str()).collect();
            assert!(paths.iter().all(|p| !p.contains(B) && !p.contains(C)), "{paths:?}");
            assert!(paths.iter().any(|p| p.contains(A)), "{paths:?}");
        }
        other => panic!("{other:?}"),
    }
}

#[test]
fn the_corpus_is_counted_when_asked_for() {
    let mut req = search("gradatum");
    req.include_corpus_count = true;
    match run_search(&agent("x"), &req, &settings(false), vec![(A, "debug")], vec![]).0 {
        SearchNext::Reply(x) => {
            assert_eq!((x.corpus_match_count, x.corpus_count_capped), (Some(7), false))
        }
        other => panic!("{other:?}"),
    }
}

// ── Lessons ─────────────────────────────────────────────────────────────────

fn lesson(id: &str, tags: Vec<&str>) -> LessonRow {
    LessonRow {
        note_id: NoteId::parse(id).unwrap(),
        title: Some(id.into()),
        snippet: "s".into(),
        tags: tags.into_iter().map(|s| s.to_string()).collect(),
        anchor_ms: 1,
    }
}

fn recall(class: &str) -> LessonsRecallRequest {
    LessonsRecallRequest {
        class: class.into(),
        limit: None,
        rank: None,
        semantic: None,
        query: None,
        compact: false,
    }
}

#[test]
fn lessons_of_a_known_class_are_recalled() {
    let st = LessonsSettings { multi_tenant: false, classes: vec!["deploy".into()] };
    let mut a = readable();
    match lessons_recall_impl(&agent("x"), &recall("cooking"), &st, &a) {
        Next::Fail(d) => assert!(matches!(d.error, GradatumError::InvalidInput(_))),
        other => panic!("{other:?}"),
    }
    a.recalled = Some(Ok(vec![lesson(A, vec!["deploy"]), lesson(B, vec!["deploy"])]));
    match lessons_recall_impl(&agent("x"), &recall(" deploy "), &st, &a) {
        Next::Reply(x) => assert_eq!(x.items[0].ulid, A),
        other => panic!("{other:?}"),
    }
    let mut boosted = recall("deploy");
    boosted.rank = Some(RankMode::RecencyBoosted);
    a.recency = Some(vec![5, 1]);
    match lessons_recall_impl(&agent("x"), &boosted, &st, &a) {
        Next::Reply(x) => assert_eq!(x.items[0].ulid, B),
        other => panic!("{other:?}"),
    }
    let several = LessonsSettings { multi_tenant: true, classes: vec!["deploy".into()] };
    assert!(matches!(
        lessons_recall_impl(&agent("x"), &recall("deploy"), &several, &a),
        Next::Ask(Ask::ReadGrant { .. })
    ));
}

#[test]
fn a_recall_by_meaning_that_fails_gives_way_to_words() {
    let st = LessonsSettings { multi_tenant: false, classes: vec!["deploy".into()] };
    let mut req = recall("deploy");
    req.semantic = Some(true);
    let mut a = readable();
    a.retrieved = Some(Ok(Retrieval { embed_fallback: true, ids: vec![] }));
    assert!(matches!(
        lessons_recall_impl(&agent("x"), &req, &st, &a),
        Next::Ask(Ask::Recall { .. })
    ));
    a.retrieved = Some(Ok(Retrieval { embed_fallback: false, ids: vec![A.into(), B.into()] }));
    assert!(matches!(
        lessons_recall_impl(&agent("x"), &req, &st, &a),
        Next::Ask(Ask::Hydrate { .. })
    ));
}

// ── Listing ─────────────────────────────────────────────────────────────────

const LIST: ListingSettings = ListingSettings { multi_tenant: false, archive_list_max: 2 };

#[test]
fn a_list_shows_no_soul_to_others() {
    let req = VaultListRequest {
        tenant_id: None,
        section: None,
        pattern: None,
        role_kind: None,
        role_status: None,
        limit: Some(2),
        cursor: None,
    };
    let record = |id: &str, section: &str| NoteRecord {
        id: id.into(),
        section: section.into(),
        body_text: "é".into(),
        created: 947_638_923_004,
        updated: None,
    };
    let mut a = readable();
    a.notes = Some(Ok(NotePage {
        records: vec![record(A, "debug"), record(B, "identity")],
        total: 9,
    }));
    match vault_list_impl(&agent("x"), &req, &a) {
        Next::Ask(Ask::FollowingNotes { limit, cursor, .. }) => {
            assert_eq!((limit, cursor.as_str()), (1, B))
        }
        other => panic!("{other:?}"),
    }
    a.following = Some(Ok(NotePage { records: vec![record(C, "debug")], total: 9 }));
    match vault_list_impl(&agent("x"), &req, &a) {
        Next::Reply(x) => {
            assert_eq!(x.next_cursor.as_deref(), Some(B));
            assert_eq!(x.entries.len(), 1);
            assert_eq!(x.entries[0].size_bytes, 2);
            assert_eq!(x.entries[0].modified_at, "2000-01-12T01:02:03Z");
            assert_eq!(x.total, 9);
        }
        other => panic!("{other:?}"),
    }
    a.following = Some(Ok(NotePage { records: vec![], total: 9 }));
    match vault_list_impl(&agent("x"), &req, &a) {
        Next::Reply(x) => assert_eq!(x.next_cursor, None),
        other => panic!("{other:?}"),
    }
    a.notes = Some(Ok(NotePage { records: vec![record(A, "debug")], total: 1 }));
    a.following = None;
    match vault_list_impl(&agent("x"), &req, &a) {
        Next::Reply(x) => assert_eq!((x.entries.len(), x.next_cursor), (1, None)),
        other => panic!("{other:?}"),
    }
    assert_eq!(page_limit(None), 20);
}

#[test]
fn tags_are_bounded_and_counted() {
    let mut a = readable();
    let count = |n: &str, c: u64| NamedCount { name: n.into(), note_count: c };
    a.tags = Some(Ok(vec![count("b", 1), count("a", 3), count("c", 3)]));
    match vault_tags_impl(&agent("x"), &VaultTagsRequest { limit: Some(2) }, &LIST, &a) {
        Next::Reply(x) => {
            assert_eq!(x.tags.len(), 2);
            assert_eq!(x.total, 3);
        }
        other => panic!("{other:?}"),
    }
    a.authors = Some(Ok(vec![count("x", 4)]));
    match vault_authors_impl(&agent("x"), &LIST, &a) {
        Next::Reply(x) => assert_eq!((x.authors[0].name.as_str(), x.authors[0].note_count), ("x", 4)),
        other => panic!("{other:?}"),
    }
}

#[test]
fn the_archive_is_listed_for_the_checked_vault() {
    let req = VaultArchivesListRequest {
        tenant_id: None,
        vault_filter: None,
        section: None,
        since_ms: None,
        until_ms: None,
        include_gc: false,
        include_restored: false,
        limit: 50,
        offset: 0,
    };
    let mut a = readable();
    let end = loop {
        match vault_archives_list_impl(&agent("x"), &req, &LIST, &a) {
            Next::Ask(Ask::Archives { vault, limit, .. }) => {
                assert_eq!(vault.as_deref(), Some("main"));
                assert_eq!(limit, 2);
                a.archives = Some(Ok(vec![ArchiveEntry {
                    note_id: A.into(),
                    vault_id: "main".into(),
                    section: "debug".into(),
                    title: None,
                    original_locus: None,
                    archive_path: "p".into(),
                    archived_at: 1,
                    archived_by: None,
                    gc_due: 2,
                    gc_at: None,
                    restored_at: None,
                }]));
            }
            other => break other,
        }
    };
    match end {
        Next::Reply(x) => assert_eq!((x.count, x.limit), (1, 2)),
        other => panic!("{other:?}"),
    }
}

// ── Timeline ────────────────────────────────────────────────────────────────

#[test]
fn a_timeline_is_fetched_page_by_page() {
    let req = |kind: &str, from: Option<i64>, to: Option<i64>| VaultTimelineRequest {
        tenant_id: None,
        vault_id: None,
        doc_kind: Some(vec![kind.into()]),
        from_ms: from,
        to_ms: to,
        limit: Some(1),
        cursor: None,
        as_of_ms: None,
        include_expired: false,
        compact: false,
    };
    let mut a = readable();
    a.read_vault = Some(Ok("main".into()));
    for bad in [req("Odd", None, None), req("Event", Some(2), Some(1))] {
        match vault_timeline_impl(&agent("x"), &bad, false, &a) {
            Next::Fail(d) => assert!(matches!(d.error, GradatumError::InvalidInput(_))),
            other => panic!("{other:?}"),
        }
    }
    let event = |id: &str| TimelineRow {
        note_id: NoteId::parse(id).unwrap(),
        anchor_ms: 7,
        anchor_src: "created".into(),
        doc_kind: "Event".into(),
        title: None,
    };
    let good = req("Event", None, None);
    let end = loop {
        match vault_timeline_impl(&agent("x"), &good, false, &a) {
            Next::Ask(Ask::Timeline { limit, .. }) => {
                assert_eq!(limit, 1);
                a.timeline = Some(Ok(vec![event(A)]));
            }
            Next::Ask(Ask::TitlesSections { .. }) => a.titles = Some(Ok(vec![])),
            Next::Ask(Ask::EncodeCursor { note_id, .. }) => {
                assert_eq!(note_id, A);
                a.next_cursor = Some("cur".into());
            }
            other => break other,
        }
    };
    match end {
        Next::Reply(x) => {
            assert_eq!(x.items.len(), 1);
            assert_eq!(x.next_cursor.as_deref(), Some("cur"));
        }
        other => panic!("{other:?}"),
    }
}

// ── Links ───────────────────────────────────────────────────────────────────

#[test]
fn the_notes_around_a_note_hide_souls() {
    let around = |depth: usize| VaultGraphRequest {
        tenant_id: None,
        root: A.into(),
        depth: Some(depth as _),
        include_backlinks: Some(true),
    };
    let mut a = readable();
    match vault_graph_impl(&agent("x"), &around(6), &a) {
        Next::Fail(d) => assert!(matches!(d.error, GradatumError::InvalidInput(_))),
        other => panic!("{other:?}"),
    }
    let req = around(5);
    match vault_graph_impl(&agent("x"), &req, &a) {
        Next::Ask(Ask::Neighbors { depth, .. }) => assert_eq!(depth, 3),
        other => panic!("{other:?}"),
    }
    a.neighbors = Some(Ok(vec![C.into(), B.into()]));
    a.backlinks = Some(Ok(vec![B.into()]));
    a.titles = Some(Ok(vec![row(A, None, "debug"), row(B, None, "debug"), row(C, None, "identity")]));
    match vault_graph_impl(&agent("x"), &req, &a) {
        Next::Reply(x) => {
            assert_eq!(x.nodes, vec![A, B]);
            assert!(x.edges.iter().all(|e| e.from != C && e.to != C));
        }
        other => panic!("{other:?}"),
    }
    match vault_graph_impl(&TrustContext::Studio { user: "u".into() }, &req, &a) {
        Next::Reply(x) => assert_eq!(x.nodes, vec![A, B, C]),
        other => panic!("{other:?}"),
    }
    let links = VaultLinksRequest { tenant_id: None, path: A.into(), include_backlinks: None };
    a.neighbors = None;
    match vault_links_impl(&agent("x"), &links, &a) {
        Next::Ask(Ask::Neighbors { depth, .. }) => assert_eq!(depth, 1),
        other => panic!("{other:?}"),
    }
}

#[test]
fn a_graph_without_notes_asks_nothing() {
    let edges = vec![GraphEdge { from: A.into(), to: B.into(), kind: "other".into() }];
    match filter_identity_nodes(&agent("x"), "main", vec![], edges, &Answers::none()) {
        Next::Reply(x) => {
            assert!(x.nodes.is_empty());
            assert_eq!(x.edges[0].kind, "other");
        }
        other => panic!("{other:?}"),
    }
    assert!(matches!(
        filter_identity_nodes(&agent("x"), "main", vec![A.into()], vec![], &Answers::none()),
        Next::Ask(Ask::TitlesSections { .. })
    ));
}

#[test]
fn a_lineage_names_each_note_once() {
    let req = VaultTraceRequest { tenant_id: None, query: A.into(), limit: Some(2) };
    let mut a = readable();
    a.titles = Some(Ok(vec![row(A, None, "debug")]));
    a.lineages = Some(Ok(vec![Lineage {
        parents: vec![B.into(), C.into()],
        children: vec![B.into()],
    }]));
    let end = loop {
        match vault_trace_impl(&agent("x"), &req, &a) {
            Next::Ask(Ask::TitlesSections { ids, .. }) => {
                a.titles = Some(Ok(ids.iter().map(|id| row(id, None, "debug")).collect()))
            }
            other => break other,
        }
    };
    match end {
        Next::Reply(x) => {
            let paths: Vec<&str> = x.entries.iter().map(|e| e.path.as_str()).collect();
            assert_eq!(paths, vec![B, C]);
            assert!(x.entries.iter().all(|e| e.snippet.is_none() && e.tags.is_empty()));
        }
        other => panic!("{other:?}"),
    }
    match vault_context_impl(&agent("x"), &None, &Some("debug".into()), &a) {
        Next::Reply(g) => assert!(!g.identity_privileged),
        other => panic!("{other:?}"),
    }
}

// ── Versions ────────────────────────────────────────────────────────────────

#[test]
fn versions_are_listed_shown_and_compared() {
    let trust = agent("x");
    let mut a = readable();
    a.titles = Some(Ok(vec![row(A, None, "debug")]));
    a.versions = Some(Ok(vec![3, 2, 1]));
    let list = VaultHistoryRequest { note_id: A.into(), tenant_id: None };
    match vault_history_impl(&trust, &list, &a) {
        Next::Reply(x) => assert_eq!((x.versions, x.count), (vec![3, 2, 1], 3)),
        other => panic!("{other:?}"),
    }
    a.snapshot = Some(Ok(SnapshotRow {
        body: "old".into(),
        h1_title: None,
        section: "debug".into(),
    }));
    let get = VaultHistoryGetRequest { note_id: format!("debug/{A}"), ts_ms: 2, tenant_id: None };
    match vault_history_get_impl(&trust, &get, &a) {
        Next::Reply(x) => assert_eq!((x.note_id.as_str(), x.body.as_str()), (A, "old")),
        other => panic!("{other:?}"),
    }
    assert!(is_valid_selector("current") && is_valid_selector("-5") && !is_valid_selector("now"));
    let diff = |a: &str, b: &str| VaultDiffRequest {
        note_id: A.into(),
        a: a.into(),
        b: b.into(),
        tenant_id: None,
    };
    match vault_diff_impl(&trust, &diff("1", "now"), &a) {
        Next::Fail(d) => assert!(matches!(d.error, GradatumError::InvalidInput(m)
            if m == "invalid selector (expected 'current' or timestamp ms)")),
        other => panic!("{other:?}"),
    }
    a.diff = Some(Ok(vec!["+x".into()]));
    match vault_diff_impl(&trust, &diff("1", "current"), &a) {
        Next::Reply(x) => assert_eq!((x.lines, x.count), (vec!["+x".to_string()], 1)),
        other => panic!("{other:?}"),
    }
    match handlers::vault_diff(&trust, &diff("1", "now"), &a) {
        Handled::Refuse(s, _) => assert_eq!(s, StatusCode::BadRequest),
        other => panic!("{other:?}"),
    }
}

#[test]
fn a_version_is_brought_back_in_the_own_vault() {
    let trust = agent("x");
    let req = VaultRestoreRequest { note_id: A.into(), ts_ms: 2, tenant_id: None };
    let mut a = Answers::none();
    a.write_vault = Some(Ok("main".into()));
    a.acl = Some(true);
    a.titles = Some(Ok(vec![row(A, Some("identity/y"), "identity")]));
    assert!(matches!(
        vault_restore_impl(&trust, &req, &a),
        Next::Fail(d) if matches!(&d.error, GradatumError::Forbidden(_))
    ));
    a.titles = Some(Err(GradatumError::Storage("down".into())));
    assert!(matches!(vault_restore_impl(&trust, &req, &a), Next::Fail(_)));
    a.titles = Some(Ok(vec![row(A, None, "debug")]));
    assert!(matches!(
        vault_restore_impl(&trust, &req, &a),
        Next::Ask(Ask::Restore { vault, ts_ms: 2, .. }) if vault == "main"
    ));
    a.restored = Some(Ok("h".into()));
    assert!(matches!(
        vault_restore_impl(&trust, &req, &a),
        Next::Reply(x) if x.content_hash == "h"
    ));
}

#[test]
fn where_a_note_would_be_filed() {
    let trust = agent("x");
    let req = VaultClassifyRequest { note_id: A.into(), tenant_id: None };
    let mut a = readable();
    a.note = Some(Ok(note("debug", None)));
    match vault_classify_impl(&trust, &req, &a) {
        Next::Ask(Ask::Curate { title, .. }) => assert_eq!(title, "debug"),
        other => panic!("{other:?}"),
    }
    let outcome = |o: CurateOutcome, a: &mut Answers| {
        a.curated = Some(o);
        match vault_classify_impl(&trust, &req, a) {
            Next::Reply(x) => (x.suggested_section, x.confidence_tenths, x.method),
            other => panic!("{other:?}"),
        }
    };
    assert_eq!(
        outcome(CurateOutcome::Admitted { section: "x".into() }, &mut a),
        ("x".to_string(), 9, "heuristic".to_string())
    );
    assert_eq!(outcome(CurateOutcome::Pending { section: "y".into() }, &mut a).1, 5);
    assert_eq!(outcome(CurateOutcome::Rejected, &mut a).0, "debug");
    let titled = VaultClassifyRequest { note_id: "A title".into(), tenant_id: None };
    assert!(matches!(
        vault_classify_impl(&trust, &titled, &a),
        Next::Fail(d) if matches!(&d.error, GradatumError::InvalidInput(_))
    ));
}
