//! Queries of words, excerpts, and the status filter of a search.

use gradatum_api::fts::{build_fts_query, build_snippet, quote_fts_token, validate_search_status};

#[test]
fn snippet_utf8_boundary_char_safe() {
    let body: String = "a".repeat(199) + "é" + &"b".repeat(10);
    assert_eq!(body.len(), 211);
    assert_eq!(body.chars().count(), 210);

    let snip = build_snippet(&body, 200);

    let expected_chars = 199 + 1;
    let snip_without_ellipsis: &str = snip.trim_end_matches('…');
    assert_eq!(snip_without_ellipsis.chars().count(), expected_chars);
    assert!(snip.ends_with('…'));
    assert!(snip_without_ellipsis.ends_with('é'));
}

#[test]
fn snippet_short_body_no_ellipsis() {
    let body = "Ceci est un texte court avec des accents : éàü.";
    let snip = build_snippet(body, 200);
    assert_eq!(snip, body);
    assert!(!snip.ends_with('…'));
}

#[test]
fn snippet_exact_200_ascii_no_ellipsis() {
    let body: String = "x".repeat(200);
    let snip = build_snippet(&body, 200);
    assert_eq!(snip, body);
}

#[test]
fn snippet_emoji_boundary_char_safe() {
    let body: String = "a".repeat(199) + "🦀" + &"z".repeat(10);
    let snip = build_snippet(&body, 200);
    assert!(snip.ends_with('…'));
}

#[test]
fn build_snippet_zwj_emoji_preserves_utf8_boundary() {
    let body = "Famille 👨\u{200D}👩\u{200D}👧\u{200D}👦 explore le monde";
    let snippet = build_snippet(body, 9);
    assert!(std::str::from_utf8(snippet.as_bytes()).is_ok());
    let last_char = snippet.trim_end_matches('…').chars().last();
    if let Some(c) = last_char {
        assert_ne!(c as u32, 0x200D);
    }
}

#[test]
fn build_snippet_short_body_returns_full() {
    let body = "court";
    let snippet = build_snippet(body, 200);
    assert_eq!(snippet, "court");
    assert!(!snippet.contains('…'));
}

#[test]
fn build_snippet_long_body_truncates_with_ellipsis() {
    let body = "a".repeat(300);
    let snippet = build_snippet(&body, 200);
    assert_eq!(snippet.chars().count(), 201);
    assert!(snippet.ends_with('…'));
}

#[test]
fn build_fts_query_dot_is_wrapped() {
    let q = build_fts_query("2.1.1");
    assert_eq!(q, r#""2.1.1""#);
}

#[test]
fn build_fts_query_alpha_dot_is_wrapped() {
    let q = build_fts_query("alpha.8");
    assert_eq!(q, r#""alpha.8""#);
}

#[test]
fn build_fts_query_apostrophe_is_doubled() {
    let q = build_fts_query("O'Reilly");
    assert_eq!(q, r#""O''Reilly""#);
}

#[test]
fn build_fts_query_alphanumeric_not_wrapped() {
    let q = build_fts_query("gradatum");
    assert_eq!(q, "gradatum");
}

#[test]
fn build_fts_query_underscore_not_wrapped() {
    let q = build_fts_query("vault_search");
    assert_eq!(q, "vault_search");
}

#[test]
fn build_fts_query_fts5_keyword_and_is_wrapped() {
    let q = build_fts_query("gradatum AND notes");
    assert_eq!(q, r#"gradatum "AND" notes"#);
}

#[test]
fn build_fts_query_fts5_keyword_not_is_wrapped() {
    let q = build_fts_query("notes NOT debug");
    assert_eq!(q, r#"notes "NOT" debug"#);
}

#[test]
fn build_fts_query_internal_quotes_doubled() {
    let q = build_fts_query(r#"say "hello""#);
    assert_eq!(q, "say \"\"\"hello\"\"\"");
}

#[test]
fn build_fts_query_dash_and_dot_wrapped() {
    let q = build_fts_query("phase-2.x");
    assert_eq!(q, r#""phase-2.x""#);
}

#[test]
fn build_fts_query_accented_chars_not_wrapped() {
    let q = build_fts_query("éàü gradatum");
    assert_eq!(q, "éàü gradatum");
}

#[test]
fn build_fts_query_empty_is_empty_string() {
    let q = build_fts_query("");
    assert_eq!(q, "");
}

#[test]
fn build_fts_query_near_expression_is_split_into_two_quoted_tokens() {
    assert_eq!(build_fts_query("NEAR(gradatum 5)"), "\"NEAR(gradatum\" \"5)\"");
}

#[test]
fn build_fts_query_frontmatter_colon_is_wrapped() {
    let q = build_fts_query("section: reasoning");
    assert_eq!(q, r#""section:" reasoning"#);
}

#[test]
fn build_fts_query_hyphenated_token_is_quoted_not_whole_query() {
    assert_eq!(
        build_fts_query("cargo-semver-checks baseline"),
        "\"cargo-semver-checks\" baseline"
    );
}

#[test]
fn build_fts_query_conjunction_of_versions_is_not_one_phrase() {
    assert_eq!(build_fts_query("2.0.7 OR 2.0.6"), "\"2.0.7\" \"OR\" \"2.0.6\"");
}

#[test]
fn build_fts_query_single_punctuated_token_unchanged() {
    assert_eq!(build_fts_query("2.0.7"), "\"2.0.7\"");
}

#[test]
fn build_fts_query_output_is_always_accepted_by_fts5() {
    let conn = rusqlite::Connection::open_in_memory().unwrap();
    conn.execute_batch(
        "CREATE VIRTUAL TABLE probe USING fts5(body);
         INSERT INTO probe(body) VALUES ('gradatum notes 2.0.7 cargo-semver-checks');",
    )
    .unwrap();

    for probe in [
        "a-b",
        "a*b",
        "a:b",
        "a^b",
        "a\"b",
        "a(b",
        "a)b",
        "a.b",
        "a,b",
        "a'b",
        "a!b",
        "a?b",
        "-",
        "*",
        "\"",
        "''",
        "NEAR(x y)",
        "",
        "   ",
        "2.0.7 OR 2.0.6",
        "cargo-semver-checks baseline",
        "🙂 中文 e\u{0301}",
    ] {
        let q = build_fts_query(probe);
        if probe.trim().is_empty() {
            assert!(q.trim().is_empty(), "`{probe}` gave `{q}`");
            continue;
        }
        assert!(!q.trim().is_empty(), "`{probe}` gave nothing");
        let res: Result<i64, _> = conn.query_row(
            "SELECT COUNT(*) FROM probe WHERE probe MATCH ?1",
            [&q],
            |r| r.get(0),
        );
        assert!(res.is_ok(), "`{q}` of `{probe}` was rejected: {res:?}");
    }
}

#[test]
fn bm25_score_mapping_is_monotone_decreasing_in_zero_one_range() {
    fn map(bm25_raw: f64) -> f32 {
        (1.0_f64 / (1.0 + bm25_raw.abs())) as f32
    }

    let s_excellent = map(-0.1);
    let s_good = map(-0.5);
    let s_poor = map(-10.0);

    assert!((s_excellent - 0.909).abs() < 0.01, "got {}", s_excellent);
    assert!((s_good - 0.667).abs() < 0.01, "got {}", s_good);
    assert!((s_poor - 0.091).abs() < 0.01, "got {}", s_poor);

    assert!(s_excellent > s_good);
    assert!(s_good > s_poor);

    assert!((0.0..=1.0).contains(&s_excellent));
    assert!(s_poor >= 0.0);

    assert_eq!(map(0.0), 1.0_f32);
    let s_terrible = map(-1000.0);
    assert!(s_terrible < 0.01);
}

#[test]
fn validate_search_status_none_is_ok_none() {
    assert_eq!(validate_search_status(None), Ok(None));
}

#[test]
fn validate_search_status_accepts_enum_and_legacy() {
    for ok in [
        "draft",
        "staging",
        "pending-review",
        "live",
        "deprecated",
        "garbage",
        "downgraded",
    ] {
        assert_eq!(
            validate_search_status(Some(ok)),
            Ok(Some(ok.to_string())),
            "{ok:?} is a status"
        );
    }
    assert_eq!(validate_search_status(Some("  live  ")), Ok(Some("live".to_string())));
}

#[test]
fn validate_search_status_rejects_unknown() {
    for bad in ["", "Live", "pendingreview", "archived", "needs-review", "garbages"] {
        assert_eq!(validate_search_status(Some(bad)), Err(()), "{bad:?} is no status");
    }
}

#[test]
fn a_token_is_quoted_only_when_it_has_to_be() {
    assert_eq!(quote_fts_token("plain"), "plain");
    assert_eq!(quote_fts_token("naïve"), "naïve");
    assert_eq!(quote_fts_token("NEAR"), "\"NEAR\"");
    assert_eq!(quote_fts_token("near"), "\"near\"");
    assert_eq!(quote_fts_token("a\"b"), "\"a\"\"b\"");
}

#[test]
fn words_are_split_at_unicode_whitespace() {
    assert_eq!(build_fts_query(" one\u{3000}two\tthree "), "one two three");
    let wide = "\u{85}\u{a0}\u{1680}\u{2000}\u{2001}\u{2002}\u{2003}\u{2004}\u{2005}\u{2006}\u{2007}\
        \u{2008}\u{2009}\u{200a}\u{2028}\u{2029}\u{202f}\u{205f}\u{3000}";
    for c in wide.chars().filter(|c| !c.is_ascii()) {
        assert_eq!(build_fts_query(&format!("one{c}two")), "one two", "{c:?}");
    }
    let found = ('\u{80}'..=char::MAX)
        .filter(|c| build_fts_query(&format!("one{c}two")) == "one two")
        .count();
    assert_eq!(found, 19);
}
