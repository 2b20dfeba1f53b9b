//! Looking at source code.

use gradatum_api::code_scope::{
    build_entries, code_scope, code_scope_impl, count_cohesion, estimate_entry_tokens,
    extract_body_from_file_data, is_code_scope_privileged, path_is_safe, rank_structure_aware,
    read_files_single_pass, stale_paths, validate_code_vault_id, CodeScopeRequest, CodeSelectorDto,
    CodeSettings, FileState,
};
use gradatum_api::door::HttpNext;
use gradatum_api::error::{GradatumError, StatusCode};
use gradatum_api::flow::{Answers, Ask, Next};
use gradatum_api::ids::{sha256_hex, NoteId};
use gradatum_api::rows::{CallersRow, CodeScopeEntryRaw, PathHash, SourceFile};
use gradatum_api::trust::TrustContext;

#[test]
fn vault_id_validation_rejects_main_and_traversal() {
    assert!(!validate_code_vault_id("main"));
    assert!(!validate_code_vault_id(""));
    assert!(!validate_code_vault_id("code-"));
    assert!(!validate_code_vault_id("notcode-x"));
    assert!(!validate_code_vault_id("code-../main"));
    assert!(!validate_code_vault_id("code-/etc/passwd"));
    assert!(!validate_code_vault_id("code-a.b"));
    assert!(!validate_code_vault_id("code-MAIN"));
    assert!(!validate_code_vault_id("code-a b"));
    assert!(validate_code_vault_id("code-gradatum"));
    assert!(validate_code_vault_id("code-my-project-2"));
}

#[test]
fn token_estimate_conservative() {
    let e = CodeScopeEntryRaw {
        note_id: NoteId::fresh(),
        source_path: "src/a.rs".into(),
        kind: "fn".into(),
        qualified_name: "foo".into(),
        signature: Some("(x: u32) -> u32".into()),
        deps: vec!["bar".into()],
        score_bits: (-1.0f64).to_bits(),
        span: None,
    };
    let t = estimate_entry_tokens(&e);
    assert!(t >= 1);
    assert!(t < 50, "got {t}");
}

#[test]
fn rank_promotes_cohesion() {
    let a = CodeScopeEntryRaw {
        note_id: NoteId::fresh(),
        source_path: "src/a.rs".into(),
        kind: "fn".into(),
        qualified_name: "alpha".into(),
        signature: None,
        deps: vec!["beta".into()],
        score_bits: (-1.0f64).to_bits(),
        span: None,
    };
    let b = CodeScopeEntryRaw {
        note_id: NoteId::fresh(),
        source_path: "src/b.rs".into(),
        kind: "fn".into(),
        qualified_name: "beta".into(),
        signature: None,
        deps: vec![],
        score_bits: (-1.0f64).to_bits(),
        span: None,
    };
    let raw = vec![b, a];
    let cohesion = count_cohesion(&raw);
    assert_eq!(cohesion, vec![0, 1]);
    let ranks: Vec<i64> = raw
        .iter()
        .zip(&cohesion)
        .map(|(e, &n)| ((f64::from_bits(e.score_bits) - 0.5 * n as f64) * 1000.0) as i64)
        .collect();
    assert_eq!(ranks, vec![-1000, -1500]);
    let ranked = rank_structure_aware(&raw, &ranks);
    assert_eq!(raw[ranked[0]].qualified_name, "alpha");
}

fn make_raw(qualified_name: &str) -> CodeScopeEntryRaw {
    CodeScopeEntryRaw {
        note_id: NoteId::fresh(),
        source_path: "src/lib.rs".into(),
        kind: "fn".into(),
        qualified_name: qualified_name.to_string(),
        signature: None,
        deps: vec![],
        score_bits: (-1.0f64).to_bits(),
        span: None,
    }
}

#[test]
fn build_entries_no_callers() {
    let (foo, bar) = (make_raw("foo"), make_raw("bar"));
    let (entries, body_trunc) = build_entries(&vec![&foo, &bar], &vec![], &vec![], false, 4000, 50);
    assert_eq!(entries.len(), 2);
    assert!(!body_trunc);
    for e in &entries {
        assert!(e.callers.is_empty());
        assert!(!e.callers_truncated);
    }
}

#[test]
fn build_entries_callers_not_truncated() {
    let target = make_raw("target");
    let callers = vec![CallersRow {
        name: "target".to_string(),
        callers: vec!["a".to_string(), "b".to_string(), "c".to_string()],
    }];
    let (entries, _) = build_entries(&vec![&target], &vec![], &callers, false, 4000, 50);
    assert_eq!(entries[0].callers.len(), 3);
    assert!(!entries[0].callers_truncated);
}

#[test]
fn build_entries_callers_truncated_at_cap() {
    let cap = 5usize;
    let popular = make_raw("popular");
    let callers = vec![CallersRow {
        name: "popular".to_string(),
        callers: (0..cap).map(|i| format!("caller_{i}")).collect(),
    }];
    let (entries, _) = build_entries(&vec![&popular], &vec![], &callers, false, 4000, cap);
    assert_eq!(entries[0].callers.len(), cap);
    assert!(entries[0].callers_truncated);
}

// ── Scenarios of the library's own ──────────────────────────────────────────

const ST: CodeSettings = CodeSettings { default_body_budget: 4000, max_callers: 50 };

fn agent(sub: &str) -> TrustContext {
    TrustContext::BearerToken {
        kid: "k".into(),
        aud: "gradatum".into(),
        sub: sub.into(),
        scopes: vec!["read".into()],
        tenant_id: "main".into(),
        jti: None,
    }
}

fn request(vault: &str, kind: &str, value: &str) -> CodeScopeRequest {
    CodeScopeRequest {
        vault: vault.into(),
        selector: CodeSelectorDto { kind: kind.into(), value: value.into() },
        budget_tokens: None,
        include_body: true,
        body_budget_tokens: None,
        include_callers: false,
    }
}

#[test]
fn equal_ranks_are_ordered_by_name() {
    let raw = vec![make_raw("zeta"), make_raw("alpha"), make_raw("mid")];
    assert_eq!(rank_structure_aware(&raw, &vec![0, 0, 0]), vec![1, 2, 0]);
    assert_eq!(rank_structure_aware(&raw, &vec![-1, 0, 0]), vec![0, 1, 2]);
}

#[test]
fn only_services_and_the_main_agent_look_at_code() {
    assert!(is_code_scope_privileged(&TrustContext::Studio { user: "u".into() }));
    assert!(is_code_scope_privileged(&TrustContext::Mtls { cn: "svc".into() }));
    assert!(is_code_scope_privileged(&agent("main-agent")));
    assert!(!is_code_scope_privileged(&agent("backend")));
    assert!(!is_code_scope_privileged(&TrustContext::Unauthenticated));
}

#[test]
fn unsafe_paths_are_refused() {
    assert!(path_is_safe("src/lib.rs"));
    assert!(!path_is_safe("../etc/passwd"));
    assert!(!path_is_safe("src/../../x"));
    assert!(!path_is_safe("/etc/passwd"));
}

#[test]
fn a_file_that_changed_is_stale() {
    let bytes = b"fn a() {}\n".to_vec();
    let files = read_files_single_pass(
        &vec!["a.rs".to_string(), "b.rs".to_string()],
        &vec![
            PathHash { path: "a.rs".into(), hash: sha256_hex(&bytes) },
            PathHash { path: "b.rs".into(), hash: "00".into() },
        ],
        &vec![
            SourceFile { path: "a.rs".into(), bytes: bytes.clone() },
            SourceFile { path: "b.rs".into(), bytes: bytes.clone() },
        ],
    );
    assert!(!files[0].stale);
    assert_eq!(files[0].bytes, bytes);
    assert!(files[1].stale);
}

#[test]
fn a_body_is_the_lines_of_the_span() {
    let files = vec![FileState {
        path: "src/lib.rs".into(),
        stale: false,
        bytes: b"one\ntwo\nthree\nfour\n".to_vec(),
    }];
    let mut e = make_raw("foo");
    e.span = Some((2, 3));
    let (body, cost) = extract_body_from_file_data(&files, &e).expect("a body");
    assert_eq!(body, "two\nthree");
    assert!(cost >= 1);
    e.span = None;
    assert!(extract_body_from_file_data(&files, &e).is_none());
    let stale = vec![FileState { stale: true, ..FileState { path: "src/lib.rs".into(), stale: false, bytes: b"one\n".to_vec() } }];
    e.span = Some((1, 1));
    assert!(extract_body_from_file_data(&stale, &e).is_none());
    let broken = vec![FileState { path: "src/lib.rs".into(), stale: false, bytes: vec![0xff, 0xfe] }];
    assert!(extract_body_from_file_data(&broken, &e).is_none());
}

#[test]
fn code_over_http_is_refused_with_a_status() {
    let a = Answers::none();
    let st = |trust: &TrustContext, req: &CodeScopeRequest| match code_scope(trust, req, &ST, &a) {
        HttpNext::Refuse(s) => Some(s),
        _ => None,
    };
    let ok = request("code-x", "query", "foo");
    assert_eq!(st(&TrustContext::Unauthenticated, &ok), Some(StatusCode::Unauthorized));
    assert_eq!(st(&agent("main-agent"), &request("main", "query", "foo")), Some(StatusCode::BadRequest));
    assert_eq!(st(&agent("backend"), &ok), Some(StatusCode::Forbidden));
}

#[test]
fn a_look_at_code_reads_each_file_once() {
    let trust = agent("main-agent");
    let req = request("code-x", "query", "foo");
    let mut a = Answers::none();
    let mut asked = 0;
    let bytes = b"fn foo() {\n    bar()\n}\n".to_vec();
    let reply = loop {
        match code_scope_impl(&trust, &req, &ST, &a) {
            Next::Reply(x) => break x,
            Next::Fail(d) => panic!("{:?}", d.error),
            Next::Ask(q) => match q {
                Ask::CodeRepo { vault } => {
                    assert_eq!(vault, "code-x");
                    a.code_repo = Some(Ok(Some("/repo".into())));
                }
                Ask::CodeQuery { kind, value, .. } => {
                    assert_eq!((kind.as_str(), value.as_str()), ("query", "foo"));
                    let mut e = make_raw("foo");
                    e.span = Some((1, 3));
                    a.code = Some(Ok(vec![e]));
                }
                Ask::CodeRanks { scores, cohesion } => {
                    assert_eq!(scores, vec![(-1.0f64).to_bits()]);
                    a.code_ranks = Some(cohesion.iter().map(|_| 0).collect());
                }
                Ask::CodeRoot { .. } => a.code_root = Some(true),
                Ask::CodeHashes { paths, .. } => {
                    a.code_hashes = Some(Ok(paths
                        .into_iter()
                        .map(|path| PathHash { path, hash: sha256_hex(&bytes) })
                        .collect()));
                }
                Ask::CodeSources { paths, .. } => {
                    asked += paths.len();
                    a.code_sources = Some(
                        paths
                            .into_iter()
                            .map(|path| SourceFile { path, bytes: bytes.clone() })
                            .collect(),
                    );
                }
                other => panic!("{other:?}"),
            },
        }
    };
    assert_eq!(asked, 1);
    assert_eq!(reply.total_matched, 1);
    assert!(!reply.truncated);
    assert_eq!(reply.entries[0].body.as_deref(), Some("fn foo() {\n    bar()\n}"));
    assert!(!reply.entries[0].stale);
    assert!(stale_paths(&reply).is_empty());
    a.code_sources = Some(vec![SourceFile { path: "src/lib.rs".into(), bytes: b"x".to_vec() }]);
    match code_scope_impl(&trust, &req, &ST, &a) {
        Next::Reply(x) => {
            assert_eq!(x.entries[0].body, None);
            assert_eq!(stale_paths(&x), vec!["src/lib.rs"]);
        }
        other => panic!("{other:?}"),
    }
    match code_scope_impl(&agent("backend"), &req, &ST, &a) {
        Next::Fail(d) => assert!(matches!(d.error, GradatumError::Forbidden(_))),
        other => panic!("{other:?}"),
    }
}

#[test]
fn an_unknown_code_vault_is_not_found() {
    let trust = agent("main-agent");
    let req = request("code-x", "query", "foo");
    let mut a = Answers::none();
    a.code_repo = Some(Ok(None));
    match code_scope(&trust, &req, &ST, &a) {
        HttpNext::Refuse(s) => assert_eq!(s, StatusCode::NotFound),
        other => panic!("{other:?}"),
    }
    a.code_repo = Some(Err(GradatumError::Storage("down".into())));
    match code_scope(&trust, &req, &ST, &a) {
        HttpNext::Refuse(s) => assert_eq!(s, StatusCode::InternalServerError),
        other => panic!("{other:?}"),
    }
}
