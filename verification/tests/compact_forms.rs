//! Compact renderings.

use gradatum_api::compact::{
    query_form_can_match, render_read, render_recall, render_search, render_timeline, ulid_of,
};
use gradatum_api::dto::{
    LessonHit, LessonsRecallResponse, NoteMetadata, SearchHit, TimelineItem, VaultReadResponse,
    VaultSearchResponse, VaultTimelineResponse,
};

fn hit(path: &str, score: f32) -> SearchHit {
    SearchHit {
        vault_id: "main".to_string(),
        path: path.to_string(),
        score: format!("{score:.4}"),
        title: Some("t".to_string()),
        snippet: Some("s".to_string()),
        status: "live".to_string(),
        anchor_ms: None,
    }
}

#[test]
fn search_empty_no_corpus() {
    let resp = VaultSearchResponse {
        items: vec![],
        corpus_match_count: None,
        corpus_count_capped: false,
    };
    assert_eq!(render_search(&resp, "gradatum"), "0 relevant notes on this topic");
}

#[test]
fn query_form_can_match_alnum_true_punctuation_false() {
    assert!(query_form_can_match("cargo-semver-checks"));
    assert!(query_form_can_match("2.0.7"));
    assert!(query_form_can_match("中文"));
    assert!(query_form_can_match("e\u{0301}"));
    assert!(!query_form_can_match("-"));
    assert!(!query_form_can_match("..."));
    assert!(!query_form_can_match("- -"));
    assert!(!query_form_can_match(""));
    assert!(!query_form_can_match("🙂"));
}

#[test]
fn search_state1_positive_count_never_mentions_absence() {
    let resp = VaultSearchResponse {
        items: vec![hit("s/01A", 0.02)],
        corpus_match_count: Some(3),
        corpus_count_capped: false,
    };
    let out = render_search(&resp, "cargo-semver-checks");
    assert!(out.contains("corpus_match_count=3 lexical matches"), "{out}");
    assert!(!out.contains("absence"), "{out}");
}

#[test]
fn search_state2_lexical_absence_when_form_matchable() {
    let resp = VaultSearchResponse {
        items: vec![hit("decisions/01ABC", 0.0167)],
        corpus_match_count: Some(0),
        corpus_count_capped: false,
    };
    let out = render_search(&resp, "cargo-semver-checks");
    assert!(out.contains("lexical absence"), "{out}");
    assert!(out.contains("NOT disproven"), "{out}");
    assert!(out.contains("01ABC [0.0167]"), "{out}");
}

#[test]
fn search_state3_unmatchable_form_is_not_applicable_never_absence() {
    let resp = VaultSearchResponse {
        items: vec![hit("decisions/01ABC", 0.0167)],
        corpus_match_count: Some(0),
        corpus_count_capped: false,
    };
    let out = render_search(&resp, "- ...");
    assert!(out.contains("not applicable to this query form"), "{out}");
    assert!(!out.contains("absence"), "{out}");
    assert!(!out.contains("proven"), "{out}");
    assert!(out.contains("01ABC [0.0167]"), "{out}");
}

#[test]
fn search_corpus_capped_marks_plus() {
    let resp = VaultSearchResponse {
        items: vec![hit("s/01A", 0.01)],
        corpus_match_count: Some(10_000),
        corpus_count_capped: true,
    };
    assert!(render_search(&resp, "gradatum").contains("corpus_match_count=10000+ lexical"));
}

#[test]
fn read_keeps_sha_and_content_drops_meta() {
    let resp = VaultReadResponse {
        path: "decisions/01A".to_string(),
        title: Some("My note".to_string()),
        content: "body here".to_string(),
        metadata: Some(NoteMetadata {
            section: "decisions".to_string(),
            status: "dropped".to_string(),
            author: Some("dropped".to_string()),
            tags: vec!["dropped".to_string()],
            vault_id: "dropped".to_string(),
            created: 0,
            updated: None,
        }),
        size_bytes: 9,
        sha256: "abcd".to_string(),
    };
    let out = render_read(&resp);
    assert!(out.contains("decisions/01A"));
    assert!(out.contains("(section: decisions)"));
    assert!(out.contains("title: My note"));
    assert!(out.contains("sha256: abcd"));
    assert!(out.ends_with("---\nbody here"));
    assert!(!out.contains("dropped"), "{out}");
    assert!(!out.contains("size_bytes"));
}

#[test]
fn timeline_empty_and_rows() {
    let empty = VaultTimelineResponse { items: vec![], next_cursor: None };
    assert_eq!(render_timeline(&empty), "0 entries");
    let resp = VaultTimelineResponse {
        items: vec![TimelineItem {
            note_id: "01A".to_string(),
            anchor_ms: 1700,
            anchor_src: "created".to_string(),
            doc_kind: "Event".to_string(),
            title: Some("hello".to_string()),
        }],
        next_cursor: Some("cur".to_string()),
    };
    let out = render_timeline(&resp);
    assert_eq!(out, "1 entries:\n  1700 | Event | 01A — hello");
    assert!(!out.contains("created"), "{out}");
    assert!(!out.contains("cur"), "{out}");
}

#[test]
fn recall_truncates_snippet_and_drops_tags() {
    let long = "x".repeat(200);
    let resp = LessonsRecallResponse {
        items: vec![LessonHit {
            ulid: "01A".to_string(),
            title: "Lesson".to_string(),
            snippet: format!("line1\n{long}"),
            tags: vec!["secret-tag".to_string()],
            anchor_ms: 1700,
        }],
    };
    let out = render_recall(&resp, "deploy");
    assert!(out.starts_with("1 lessons [class=deploy]:"));
    assert!(out.contains("01A — Lesson :: "));
    assert!(!out.contains("secret-tag"), "{out}");
    let rendered_snippet = out.split(":: ").nth(1).unwrap();
    assert_eq!(rendered_snippet.chars().count(), 120, "{out}");
}

#[test]
fn the_identifier_is_what_follows_the_last_slash() {
    assert_eq!(ulid_of("decisions/01ABC"), "01ABC");
    assert_eq!(ulid_of("a/b/01ABC"), "01ABC");
    assert_eq!(ulid_of("01ABC"), "01ABC");
}

#[test]
fn a_negative_moment_is_written_with_its_sign() {
    let resp = VaultTimelineResponse {
        items: vec![TimelineItem {
            note_id: "01A".to_string(),
            anchor_ms: -12,
            anchor_src: "created".to_string(),
            doc_kind: "Static".to_string(),
            title: Some("old".to_string()),
        }],
        next_cursor: None,
    };
    assert_eq!(render_timeline(&resp), "1 entries:\n  -12 | Static | 01A — old");
}
