//! Filters of the semantic arm of a search.

use gradatum_api::error::GradatumError;
use gradatum_api::ids::NoteId;
use gradatum_api::rows::{AnchorRow, StatusRow, TitleSection};
use gradatum_api::semantic::{
    filter_semantic_by_section, filter_semantic_by_sections, filter_semantic_by_status,
    filter_semantic_by_time, filter_semantic_excluding_sections, SemanticHit,
};

fn nid(s: &str) -> NoteId {
    NoteId::parse(s).expect("a sound identifier")
}

fn hit(s: &str, score: f32) -> SemanticHit {
    SemanticHit { note_id: nid(s), score_bits: score.to_bits() }
}

fn row(id: &str, title: Option<&str>, section: &str) -> TitleSection {
    TitleSection {
        note_id: id.to_string(),
        title: title.map(|t| t.to_string()),
        section: section.to_string(),
    }
}

fn status(id: &str, status: &str) -> StatusRow {
    StatusRow { note_id: id.to_string(), status: status.to_string() }
}

#[test]
fn filter_semantic_section_ok_keeps_only_matching() {
    let a = "01HAAAAAAAAAAAAAAAAAAAAAAA";
    let b = "01HBBBBBBBBBBBBBBBBBBBBBBB";
    let hits = vec![hit(a, 0.9), hit(b, 0.8)];
    let rows = vec![row(a, Some("Titre A"), "reference"), row(b, None, "debug")];
    let out = filter_semantic_by_section(&hits, "reference", &Ok(rows));
    assert_eq!(out.len(), 1);
    assert_eq!(out[0].note_id.text(), a);
}

#[test]
fn filter_semantic_section_ok_partial_excludes_unknown() {
    let a = "01HAAAAAAAAAAAAAAAAAAAAAAA";
    let b = "01HBBBBBBBBBBBBBBBBBBBBBBB";
    let hits = vec![hit(a, 0.9), hit(b, 0.8)];
    let out = filter_semantic_by_section(&hits, "reference", &Ok(vec![row(a, None, "reference")]));
    assert_eq!(out.len(), 1);
    assert_eq!(out[0].note_id.text(), a);
}

#[test]
fn filter_semantic_section_ok_empty_map_excludes_all() {
    let a = "01HAAAAAAAAAAAAAAAAAAAAAAA";
    let hits = vec![hit(a, 0.9)];
    let out = filter_semantic_by_section(&hits, "reference", &Ok(vec![]));
    assert!(out.is_empty());
}

#[test]
fn filter_semantic_section_err_degrades_to_bm25_only() {
    let a = "01HAAAAAAAAAAAAAAAAAAAAAAA";
    let b = "01HBBBBBBBBBBBBBBBBBBBBBBB";
    let hits = vec![hit(a, 0.9), hit(b, 0.8)];
    let err = Err(GradatumError::Storage("batch failure simulée".to_string()));
    let out = filter_semantic_by_section(&hits, "reference", &err);
    assert!(out.is_empty());
}

#[test]
fn filter_semantic_excluding_ok_keeps_non_excluded() {
    let snap = "01HAAAAAAAAAAAAAAAAAAAAAAA";
    let b = "01HBBBBBBBBBBBBBBBBBBBBBBB";
    let hits = vec![hit(snap, 0.9), hit(b, 0.8)];
    let rows = vec![row(snap, None, "snapshot"), row(b, Some("Titre B"), "reference")];
    let out = filter_semantic_excluding_sections(&hits, &vec!["snapshot".to_string()], &Ok(rows));
    assert_eq!(out.len(), 1);
    assert_eq!(out[0].note_id.text(), b);
}

#[test]
fn filter_semantic_excluding_ok_partial_excludes_unknown() {
    let snap = "01HAAAAAAAAAAAAAAAAAAAAAAA";
    let ref_note = "01HBBBBBBBBBBBBBBBBBBBBBBB";
    let unknown = "01HCCCCCCCCCCCCCCCCCCCCCCC";
    let hits = vec![hit(snap, 0.9), hit(ref_note, 0.8), hit(unknown, 0.7)];
    let rows = vec![row(snap, None, "snapshot"), row(ref_note, None, "reference")];
    let out = filter_semantic_excluding_sections(&hits, &vec!["snapshot".to_string()], &Ok(rows));
    assert_eq!(out.len(), 1);
    assert_eq!(out[0].note_id.text(), ref_note);
}

#[test]
fn filter_semantic_excluding_err_degrades_to_bm25_only() {
    let a = "01HAAAAAAAAAAAAAAAAAAAAAAA";
    let hits = vec![hit(a, 0.9)];
    let err = Err(GradatumError::Storage("batch failure simulée".to_string()));
    let out = filter_semantic_excluding_sections(&hits, &vec!["snapshot".to_string()], &err);
    assert!(out.is_empty());
}

#[test]
fn filter_semantic_by_status_keeps_only_matching() {
    let a = "01ARZ3NDEKTSV4RRFFQ69G5FAV";
    let b = "01BX5ZZKBKACTAV9WEVGEMMVRZ";
    let hits = vec![hit(a, 0.9), hit(b, 0.8)];
    let rows = vec![status(a, "live"), status(b, "pending-review")];
    let kept = filter_semantic_by_status(&hits, "live", &Ok(rows));
    assert_eq!(kept.len(), 1);
    assert_eq!(kept[0].note_id, nid(a));
}

#[test]
fn filter_semantic_by_status_excludes_unknown_id() {
    let a = "01ARZ3NDEKTSV4RRFFQ69G5FAV";
    let hits = vec![hit(a, 0.9)];
    let kept = filter_semantic_by_status(&hits, "live", &Ok(vec![]));
    assert!(kept.is_empty());
}

#[test]
fn filter_semantic_by_status_err_degrades_to_empty() {
    let a = "01ARZ3NDEKTSV4RRFFQ69G5FAV";
    let hits = vec![hit(a, 0.9)];
    let kept =
        filter_semantic_by_status(&hits, "live", &Err(GradatumError::Storage("boom".to_string())));
    assert!(kept.is_empty());
}

#[test]
fn several_sections_can_be_wanted() {
    let a = "01HAAAAAAAAAAAAAAAAAAAAAAA";
    let b = "01HBBBBBBBBBBBBBBBBBBBBBBB";
    let c = "01HCCCCCCCCCCCCCCCCCCCCCCC";
    let hits = vec![hit(a, 0.3), hit(b, 0.2), hit(c, 0.1)];
    let rows = vec![row(a, None, "x"), row(b, None, "y"), row(c, None, "z")];
    let wanted = vec!["x".to_string(), "z".to_string()];
    let out = filter_semantic_by_sections(&hits, &wanted, &Ok(rows));
    assert_eq!(out.iter().map(|h| h.note_id.text()).collect::<Vec<String>>(), vec![a, c]);
}

#[test]
fn hits_outside_the_period_are_dropped() {
    let a = "01HAAAAAAAAAAAAAAAAAAAAAAA";
    let b = "01HBBBBBBBBBBBBBBBBBBBBBBB";
    let hits = vec![hit(a, 0.2), hit(b, 0.1)];
    let anchors = vec![
        AnchorRow { note_id: a.to_string(), anchor_ms: 100 },
        AnchorRow { note_id: b.to_string(), anchor_ms: 200 },
    ];
    let out = filter_semantic_by_time(&hits, Some(150), None, &anchors);
    assert_eq!(out.len(), 1);
    assert_eq!(out[0].note_id.text(), b);
}
