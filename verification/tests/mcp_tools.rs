//! The tools of the Model Context Protocol.

use std::collections::BTreeSet;

use gradatum_api::code_scope::{CodeScopeRequest, CodeSelectorDto, CodeSettings};
use gradatum_api::dto::VaultSearchRequest;
use gradatum_api::error::{GradatumError, StatusCode};
use gradatum_api::flow::{Answers, Ask};
use gradatum_api::forget::ForgetSettings;
use gradatum_api::ids::NoteId;
use gradatum_api::jobs::JobsSettings;
use gradatum_api::lessons::LessonsSettings;
use gradatum_api::listing::ListingSettings;
use gradatum_api::mcp::{
    gradatum_error_to_mcp, job_status_error_to_mcp, read_key, request_soul, tool_catalog,
    tool_named, usage_key, CallMoment, GradatumMcpHandler, McpCode, McpNext, SoulNext, ToolCall, ToolName, ToolReply,
    MCP_BODY_LIMIT,
};
use gradatum_api::rows::VaultNote;
use gradatum_api::search::{vault_search_impl, SearchAnswers, SearchNext, SearchSettings};
use gradatum_api::trust::TrustContext;
use gradatum_api::usage::{code_door_usage, read_usage, ReadKind};
use gradatum_api::writing::VaultWriteRequest;

#[test]
fn tool_catalog_declares_the_expected_tool_names() {
    let declared: BTreeSet<String> = tool_catalog().iter().map(|t| t.name.to_string()).collect();
    let expected: BTreeSet<String> = [
        "code_scope",
        "create_feature_card",
        "job_status",
        "vault_archives_list",
        "vault_authors",
        "vault_classify",
        "vault_context",
        "vault_diff",
        "vault_downgrade",
        "vault_forget",
        "vault_graph",
        "vault_history",
        "vault_history_get",
        "vault_lessons_recall",
        "vault_links",
        "vault_list",
        "vault_proactive_recall",
        "vault_proactive_recall_feedback",
        "vault_read",
        "vault_restore",
        "vault_search",
        "vault_status",
        "vault_tags",
        "vault_timeline",
        "vault_trace",
        "vault_write",
    ]
    .into_iter()
    .map(String::from)
    .collect();
    let missing: Vec<&String> = expected.difference(&declared).collect();
    let extra: Vec<&String> = declared.difference(&expected).collect();
    assert!(missing.is_empty() && extra.is_empty(), "{missing:?} {extra:?}");
}

#[test]
fn tool_catalog_has_no_duplicate_names() {
    let catalog = tool_catalog();
    let unique: BTreeSet<String> = catalog.iter().map(|t| t.name.to_string()).collect();
    assert_eq!(unique.len(), catalog.len());
}

#[test]
fn every_declared_tool_is_instrumented() {
    for t in tool_catalog() {
        assert_eq!(usage_key(t.name), Some(format!("mcp:{}", t.name)));
    }
    assert_eq!(usage_key("outil_inexistant"), None);
}

#[test]
fn error_mapping_storage_returns_generic_message() {
    let err = GradatumError::Storage("chemin/secret/db.sqlite3".to_string());
    let mcp_err = gradatum_error_to_mcp(&err);
    assert!(!mcp_err.message.contains("secret"));
    assert_eq!(mcp_err.message, "internal error");
}

#[test]
fn error_mapping_io_returns_generic_message() {
    let err = GradatumError::Io("/etc/shadow".to_string());
    let mcp_err = gradatum_error_to_mcp(&err);
    assert_eq!(mcp_err.message, "internal error");
}

#[test]
fn error_mapping_unauthorized() {
    let mcp_err = gradatum_error_to_mcp(&GradatumError::Unauthorized);
    assert_eq!(mcp_err.message, "not authenticated");
}

#[test]
fn error_mapping_invalid_input_exposes_message() {
    let err = GradatumError::InvalidInput("vault_id manquant".to_string());
    let mcp_err = gradatum_error_to_mcp(&err);
    assert_eq!(mcp_err.message, "vault_id manquant");
}

// ── Scenarios of the library's own ──────────────────────────────────────────

fn handler() -> GradatumMcpHandler {
    GradatumMcpHandler {
        listing: ListingSettings { multi_tenant: false, archive_list_max: 100 },
        search: SearchSettings {
            multi_tenant: false,
            embedder_active: false,
            reranker_active: false,
            rerank_batch: 10,
            default_excluded: vec![],
        },
        lessons: LessonsSettings { multi_tenant: false, classes: vec!["deploy".into()] },
        forget: ForgetSettings { multi_tenant: false, max_forgotten_by: 64 },
        code: CodeSettings { default_body_budget: 4000, max_callers: 50 },
        jobs: JobsSettings { multi_tenant: false, keeps_keys: true },
    }
}

fn agent(sub: &str) -> TrustContext {
    TrustContext::BearerToken {
        kid: "test-kid".into(),
        aud: "gradatum".into(),
        sub: sub.into(),
        scopes: vec!["read".into(), "write".into()],
        tenant_id: "main".into(),
        jti: None,
    }
}

fn moment() -> CallMoment {
    CallMoment { fresh: NoteId::fresh(), now_ms: 7 }
}

fn call(c: &ToolCall, trust: &TrustContext, a: &Answers) -> McpNext {
    handler().call_tool(c, trust, &moment(), &SearchAnswers::none(), a, &Answers::none())
}

#[test]
fn other_refusals_are_told_too() {
    let told = |e: GradatumError| {
        let d = gradatum_error_to_mcp(&e);
        (d.code, d.message)
    };
    assert_eq!(
        told(GradatumError::Forbidden("acl deny".into())),
        (McpCode::InvalidRequest, "access denied: acl deny".into())
    );
    assert_eq!(
        told(GradatumError::NoteNotFound("01A".into())),
        (McpCode::InvalidParams, "note not found".into())
    );
    assert_eq!(
        told(GradatumError::VaultNotFound("v".into())),
        (McpCode::InvalidParams, "vault not found".into())
    );
    assert_eq!(
        told(GradatumError::Conflict("m".into())),
        (McpCode::InvalidRequest, "conflict: m".into())
    );
    assert_eq!(
        told(GradatumError::InvalidStatusTransition { from: "Live".into(), to: "Draft".into() }),
        (McpCode::InvalidParams, "invalid status transition: Live → Draft".into())
    );
    assert_eq!(told(GradatumError::Validation("m".into())), (McpCode::InvalidParams, "m".into()));
    let job = |s: StatusCode| {
        let d = job_status_error_to_mcp(s);
        (d.code, d.message)
    };
    assert_eq!(
        job(StatusCode::BadRequest),
        (McpCode::InvalidParams, "invalid job_id: not a valid ULID".into())
    );
    assert_eq!(job(StatusCode::NotFound), (McpCode::InvalidParams, "job not found".into()));
    assert_eq!(job(StatusCode::Forbidden), (McpCode::InvalidRequest, "access denied".into()));
    assert_eq!(job(StatusCode::Unauthorized), (McpCode::InvalidRequest, "not authenticated".into()));
    assert_eq!(job(StatusCode::Conflict), (McpCode::InternalError, "internal error".into()));
}

#[test]
fn no_tool_without_a_credential() {
    let a = Answers::none();
    match call(&ToolCall::Status, &TrustContext::Unauthenticated, &a) {
        McpNext::Error(e, None) => {
            assert_eq!((e.code, e.message.as_str()), (McpCode::InvalidRequest, "not authenticated"))
        }
        other => panic!("{other:?}"),
    }
    assert!(handler().list_tools(&TrustContext::Unauthenticated).is_err());
    assert_eq!(handler().list_tools(&agent("x")).unwrap().len(), 26);
}

#[test]
fn a_tool_that_does_not_exist_is_not_found() {
    assert_eq!(tool_named("vault_read"), Some(ToolName::Read));
    assert_eq!(tool_named("outil_inexistant"), None);
    let a = Answers::none();
    match call(&ToolCall::Unknown { name: "nope".into() }, &agent("x"), &a) {
        McpNext::Error(e, None) => {
            assert_eq!((e.code, e.message.as_str()), (McpCode::MethodNotFound, "unknown tool: nope"))
        }
        other => panic!("{other:?}"),
    }
    match call(&ToolCall::Malformed { problem: "no query".into() }, &agent("x"), &a) {
        McpNext::Error(e, None) => assert_eq!(e.message, "invalid arguments: no query"),
        other => panic!("{other:?}"),
    }
}

#[test]
fn only_tools_without_arguments_say_so() {
    for t in tool_catalog() {
        let expected = t.name != "vault_status" && t.name != "vault_authors";
        assert_eq!(t.takes_arguments, expected, "{}", t.name);
        assert!(!t.description.is_empty());
    }
    assert_eq!(MCP_BODY_LIMIT, 512 * 1024);
}

#[test]
fn code_outside_the_code_vaults_is_out_of_reach() {
    let req = CodeScopeRequest {
        vault: "main".into(),
        selector: CodeSelectorDto { kind: "query".into(), value: "x".into() },
        budget_tokens: None,
        include_body: false,
        body_budget_tokens: None,
        include_callers: false,
    };
    match call(&ToolCall::CodeScope(req), &agent("main-agent"), &Answers::none()) {
        McpNext::Error(e, None) => assert_eq!(
            e.message,
            "vault 'main' invalid for code_scope: must start with 'code-'"
        ),
        other => panic!("{other:?}"),
    }
}

#[test]
fn a_call_runs_to_its_reply() {
    let mut a = Answers::none();
    let trust = agent("x");
    let reply = loop {
        match call(&ToolCall::Status, &trust, &a) {
            McpNext::Ask(Ask::Acl { locus, .. }) => {
                assert_eq!(locus, "main/main");
                a.acl = Some(true);
            }
            McpNext::Ask(Ask::LiveCount { .. }) => a.live_count = Some(Ok(3)),
            McpNext::Ask(Ask::BodySize { .. }) => {
                a.body_size = Some(Err(GradatumError::Storage("x".into())))
            }
            McpNext::Ask(Ask::LastIndexed { .. }) => a.last_indexed = Some(Ok(Some(947_638_923_004))),
            McpNext::Reply(ToolReply::Status(x)) => break x,
            other => panic!("{other:?}"),
        }
    };
    assert_eq!((reply.note_count, reply.total_size_bytes), (3, 0));
    assert_eq!(reply.last_indexed_at.as_deref(), Some("2000-01-12T01:02:03Z"));
}

fn make_trust() -> TrustContext {
    TrustContext::BearerToken {
        kid: "test-kid".into(),
        aud: "gradatum".into(),
        sub: "test-agent".into(),
        scopes: vec!["read".into(), "write".into()],
        tenant_id: "main".into(),
        jti: None,
    }
}

#[test]
fn a_tool_that_writes_leaves_the_trace_of_the_write() {
    let write = ToolCall::Write(VaultWriteRequest {
        title: "t".into(),
        body: "b".into(),
        author: None,
        tags: vec![],
        section_hint: None,
        tenant_id: None,
        occurred_at: None,
        note_id: None,
        expected_sha256: None,
    });
    let job = NoteId::fresh();
    let mut a = Answers::none();
    a.write_vault = Some(Ok("main".into()));
    a.acl = Some(true);
    assert!(matches!(
        call(&write, &make_trust(), &a),
        McpNext::Ask(Ask::CategoryDrift { .. })
    ));
    a.drift = Some(None);
    a.enqueued = Some(Ok(job));
    match call(&write, &make_trust(), &a) {
        McpNext::Ask(Ask::NoteWrite { trace, .. }) => {
            assert_eq!((trace.event.as_str(), trace.tenant.as_str()), ("vault_write", "main"));
        }
        other => panic!("{other:?}"),
    }
    a.write_noted = Some(false);
    assert!(matches!(
        call(&write, &make_trust(), &a),
        McpNext::Reply(ToolReply::Write(_))
    ));
}

#[test]
fn dispatch_records_known_tool() {
    assert_eq!(usage_key("vault_status").as_deref(), Some("mcp:vault_status"));
    let mut a = Answers::none();
    a.acl = Some(false);
    assert!(matches!(call(&ToolCall::Status, &make_trust(), &a), McpNext::Error(_, _)));
    assert_eq!(read_key(&ToolCall::Status, &make_trust()), None);
}

#[test]
fn mcp_read_path_call_increments_both_families() {
    let trust = make_trust();
    let req = || VaultSearchRequest {
        query: "test".into(),
        limit: None,
        tenant_id: None,
        vault_id: None,
        section: None,
        locus: None,
        status: None,
        from_ms: None,
        to_ms: None,
        include_downgraded: false,
        include_corpus_count: false,
        compact: false,
    };
    let mut denied = SearchAnswers::none();
    denied.tenant = Some(Some("main".into()));
    denied.acl = Some(false);
    let st = SearchSettings {
        multi_tenant: false,
        embedder_active: false,
        reranker_active: false,
        rerank_batch: 10,
        default_excluded: vec![],
    };
    match vault_search_impl(&trust, &req(), &st, &denied) {
        SearchNext::Fail(e) => assert!(matches!(e, GradatumError::Forbidden(_))),
        other => panic!("{other:?}"),
    }
    let search = ToolCall::Search(req());
    assert_eq!(read_key(&search, &trust).as_deref(), Some("vault_search"));
    assert_eq!(usage_key("vault_search").as_deref(), Some("mcp:vault_search"));
    assert_eq!(read_usage(ReadKind::Search, &trust).as_deref(), Some("vault_search"));
    assert_eq!(read_key(&search, &TrustContext::Unauthenticated), None);
}

#[test]
fn dispatch_unknown_tool_increments_no_mcp_counter() {
    let unknown = ToolCall::Unknown { name: "outil_inexistant".into() };
    assert!(matches!(
        call(&unknown, &make_trust(), &Answers::none()),
        McpNext::Error(_, _)
    ));
    assert_eq!(usage_key("outil_inexistant"), None);
    assert_eq!(read_key(&unknown, &make_trust()), None);
}

fn look_at(vault: &str) -> ToolCall {
    ToolCall::CodeScope(CodeScopeRequest {
        vault: vault.into(),
        selector: CodeSelectorDto { kind: "query".into(), value: "x".into() },
        budget_tokens: None,
        include_body: false,
        body_budget_tokens: None,
        include_callers: false,
    })
}

#[test]
fn code_is_shown_to_the_privileged_only() {
    match call(&look_at("code-x"), &make_trust(), &Answers::none()) {
        McpNext::Error(e, None) => assert_eq!(e.code, McpCode::InvalidRequest),
        other => panic!("{other:?}"),
    }
    for trust in [
        agent("main-agent"),
        TrustContext::Studio { user: "u".into() },
        TrustContext::Mtls { cn: "c".into() },
    ] {
        assert!(matches!(
            call(&look_at("code-x"), &trust, &Answers::none()),
            McpNext::Ask(Ask::CodeRepo { .. })
        ));
    }
}

#[test]
fn every_way_to_read_has_its_counter() {
    let keys: Vec<String> = [
        ReadKind::Search,
        ReadKind::Read,
        ReadKind::Timeline,
        ReadKind::LessonsRecall,
        ReadKind::CodeScope,
    ]
    .into_iter()
    .map(|k| read_usage(k, &make_trust()).unwrap())
    .collect();
    assert_eq!(
        keys,
        ["vault_search", "vault_read", "vault_timeline", "lessons_recall", "code_scope"]
    );
    assert_eq!(read_usage(ReadKind::Read, &TrustContext::Unauthenticated), None);
    assert_eq!(code_door_usage(&make_trust()), None);
    assert_eq!(code_door_usage(&agent("main-agent")).as_deref(), Some("code_scope"));
    assert_eq!(read_key(&look_at("main"), &make_trust()), None);
    assert_eq!(read_key(&look_at("code-x"), &make_trust()).as_deref(), Some("code_scope"));
}

#[test]
fn the_read_of_a_soul_is_that_of_the_subject() {
    let req = request_soul(&agent("backend")).unwrap();
    assert_eq!(req.path, "identity/backend");
    assert_eq!(req.section.as_deref(), Some("identity"));
    assert_eq!(req.tenant_id.as_deref(), Some("main"));
    assert!(request_soul(&TrustContext::Studio { user: "u".into() }).is_none());
    assert!(request_soul(&TrustContext::Unauthenticated).is_none());
}

#[test]
fn feedback_is_answered_with_an_empty_object() {
    let mut a = Answers::none();
    let feedback = ToolCall::ProactiveFeedback { request: "{\"useful\":true}".into() };
    match call(&feedback, &agent("x"), &a) {
        McpNext::Ask(Ask::ProactiveFeedback { request }) => {
            assert_eq!(request, "{\"useful\":true}")
        }
        other => panic!("{other:?}"),
    }
    let recall = ToolCall::ProactiveRecall { request: "{\"turn\":\"x\"}".into() };
    match call(&recall, &agent("x"), &a) {
        McpNext::Ask(Ask::ProactiveRecall { request }) => assert_eq!(request, "{\"turn\":\"x\"}"),
        other => panic!("{other:?}"),
    }
    a.done = Some(Ok(()));
    match call(&feedback, &agent("x"), &a) {
        McpNext::Reply(ToolReply::Text(t)) => assert_eq!(t, "{}"),
        other => panic!("{other:?}"),
    }
}

fn soul_of(trust: &TrustContext, note: Option<&str>) -> Option<String> {
    let mut a = Answers::none();
    let id = NoteId::parse("01ARZ3NDEKTSV4RRFFQ69G5FAV").unwrap();
    for _ in 0..20 {
        match handler().soul_instructions(trust, &a) {
            SoulNext::Soul(s, _) => return s,
            SoulNext::Ask(Ask::Tenant { .. }) => a.tenant = Some(Some("main".into())),
            SoulNext::Ask(Ask::Acl { locus, .. }) => {
                assert_eq!(locus, "main/identity");
                a.acl = Some(true);
            }
            SoulNext::Ask(Ask::TitleLookup { title, .. }) => {
                assert_eq!(title, format!("identity/{}", trust.identity()));
                a.title = Some(Ok(note.map(|_| id.text())));
            }
            SoulNext::Ask(Ask::Redirect { .. }) => a.redirect = Some(Ok(None)),
            SoulNext::Ask(Ask::ReadNote { .. }) => {
                a.note = Some(Ok(VaultNote {
                    id,
                    body: note.unwrap().into(),
                    h1_title: Some(format!("identity/{}", trust.identity())),
                    content_hash: vec![],
                    section: "identity".into(),
                    status: "live".into(),
                    author: None,
                    tags: vec![],
                    vault_id: "main".into(),
                    created_ms: 0,
                    updated_ms: None,
                    feature_roles: vec![],
                }))
            }
            SoulNext::Ask(Ask::TitlesSections { .. }) => a.titles = Some(Ok(vec![])),
            SoulNext::Ask(Ask::Statuses { .. }) => a.statuses = Some(Ok(vec![])),
            other => panic!("{other:?}"),
        }
    }
    panic!("no end");
}

#[test]
fn soul_instructions_unauthenticated_returns_none() {
    assert_eq!(soul_of(&TrustContext::Unauthenticated, Some("x")), None);
}

#[test]
fn soul_instructions_no_subject_returns_none() {
    assert_eq!(soul_of(&TrustContext::Studio { user: "admin@example".into() }, Some("x")), None);
}

#[test]
fn soul_instructions_authorized_note_absent_returns_none() {
    assert_eq!(soul_of(&agent("main-agent"), None), None);
}

#[test]
fn soul_instructions_own_agent_note_absent_returns_none() {
    assert_eq!(soul_of(&agent("backend"), None), None);
}

#[test]
fn soul_instructions_with_h1_present_returns_some() {
    let body = "# identity/main-agent\n## INVARIANTS\n";
    assert_eq!(soul_of(&agent("main-agent"), Some(body)).as_deref(), Some(body));
    assert_eq!(soul_of(&agent("backend"), Some("")), None);
}

#[test]
fn a_known_version_is_served_and_others_fall_back() {
    let served = |v: &str| GradatumMcpHandler::negotiate_protocol_version(v);
    assert_eq!(served("2025-06-18"), "2025-06-18");
    assert_eq!(served("1999-01-01"), served("another"));
    let latest = served("1999-01-01");
    assert_eq!(latest, rmcp::model::ProtocolVersion::LATEST.as_str());
    for v in rmcp::model::ProtocolVersion::KNOWN_VERSIONS {
        assert_eq!(served(v.as_str()), v.as_str());
    }
}
