//! Credentials, loci, references and authors.

use gradatum_api::access::{enter, locus_for_section, locus_for_tenant};
use gradatum_api::error::{err_to_status, map_err_to_status_history, GradatumError, StatusCode};
use gradatum_api::flow::{AclOp, Answers, Ask, Stop};
use gradatum_api::identity::{
    enforce_identity_read_guard, enforce_identity_write_guard, identity_section_hidden,
    is_identity_privileged, resolve_title_section_failclosed,
};
use gradatum_api::ids::{hex_text, sha256_hex, ulid_valid, NoteId};
use gradatum_api::lessons::{LESSONS_SECTION, LESSONS_TENANT};
use gradatum_api::reference::{
    bare_id_message, echo_ref, resolve_note_ref, resolve_note_ref_strict, MAX_REF_ECHO_CHARS,
};
use gradatum_api::rows::TitleSection;
use gradatum_api::text;
use gradatum_api::timeline::KNOWN_DOC_KINDS;
use gradatum_api::trust::TrustContext;
use gradatum_api::writing::effective_author;

#[test]
fn locus_for_tenant_builds_main_locus() {
    assert_eq!(locus_for_tenant("main"), "main/main");
    assert_eq!(locus_for_tenant("staging"), "staging/main");
}

#[test]
fn locus_for_section_with_section() {
    assert_eq!(locus_for_section("main", Some("decisions")), "main/decisions");
    assert_eq!(locus_for_section("main", Some("lessons-learned")), "main/lessons-learned");
}

#[test]
fn locus_for_section_none_defaults_to_main() {
    assert_eq!(locus_for_section("main", None), "main/main");
}

#[test]
fn known_doc_kinds_contains_expected_variants() {
    assert!(KNOWN_DOC_KINDS.contains(&"Static"));
    assert!(KNOWN_DOC_KINDS.contains(&"Event"));
    assert!(KNOWN_DOC_KINDS.contains(&"Versioned"));
    assert_eq!(KNOWN_DOC_KINDS.len(), 3);
}

#[test]
fn lessons_constants_coherent() {
    assert_eq!(LESSONS_SECTION, "lessons-learned");
    assert_eq!(LESSONS_TENANT, "main");
}

#[test]
fn trust_context_unauthenticated_is_not_authenticated() {
    let trust = TrustContext::Unauthenticated;
    assert!(!trust.is_authenticated());
}

#[test]
fn trust_context_bearer_is_authenticated() {
    let trust = TrustContext::BearerToken {
        kid: "k".into(),
        aud: "gradatum".into(),
        sub: "agent".into(),
        scopes: vec!["read".into()],
        tenant_id: "main".into(),
        jti: None,
    };
    assert!(trust.is_authenticated());
}

fn bearer(sub: &str) -> TrustContext {
    TrustContext::BearerToken {
        kid: "k".into(),
        aud: "gradatum".into(),
        sub: sub.into(),
        scopes: vec!["read".into(), "write".into()],
        tenant_id: "main".into(),
        jti: None,
    }
}

#[test]
fn echo_ref_truncates_beyond_the_safety_cap_on_a_char_boundary() {
    let long: String = "é".repeat(MAX_REF_ECHO_CHARS + 10);
    let echoed = echo_ref(&long);
    assert!(echoed.ends_with("(truncated)"), "{echoed}");
    assert_eq!(echoed.matches('é').count(), MAX_REF_ECHO_CHARS);
}

#[test]
fn echo_ref_quotes_a_short_reference_without_truncation_marker() {
    let echoed = echo_ref("project-map/01M0BCH3JSMGBNYMC2P8AGDRNM");
    assert_eq!(echoed, "\"project-map/01M0BCH3JSMGBNYMC2P8AGDRNM\"");
}

#[test]
fn effective_author_derives_from_subject_when_no_req_author() {
    let derived = effective_author(&None, bearer("agent-buzz").subject())
        .expect("a subject makes an author");
    assert_eq!(derived, "agent-buzz");
}

#[test]
fn effective_author_rejects_explicit_req_author() {
    let err = effective_author(&Some("custom".into()), bearer("agent-buzz").subject())
        .expect_err("a declared author is refused");
    assert!(matches!(err, GradatumError::InvalidInput(_)), "{err:?}");
}

#[test]
fn effective_author_rejects_when_no_identity_resolved() {
    let err = effective_author(&None, None).expect_err("no identity, no author");
    assert!(matches!(err, GradatumError::Unauthorized), "{err:?}");
}

#[test]
fn effective_author_rejects_explicit_author_even_without_subject() {
    let err = effective_author(&Some("custom".into()), None)
        .expect_err("a declared author is refused");
    assert!(matches!(err, GradatumError::InvalidInput(_)), "{err:?}");
}

// ── Scenarios of the library's own ──────────────────────────────────────────

const ID: &str = "01ARZ3NDEKTSV4RRFFQ69G5FAV";

#[test]
fn an_identifier_is_read_back_as_it_was_written() {
    let id = NoteId::parse(ID).expect("an identifier");
    assert_eq!(id.text(), ID);
    assert_eq!(NoteId::parse(&ID.to_lowercase()), Some(id));
    let fresh = NoteId::fresh();
    assert_eq!(NoteId::parse(&fresh.text()), Some(fresh));
    assert_ne!(NoteId::fresh(), NoteId::fresh());
}

#[test]
fn what_is_wrong_with_an_identifier_is_told() {
    assert_eq!(NoteId::read("short"), Err("invalid length".to_string()));
    assert_eq!(
        NoteId::read("01ARZ3NDEKTSV4RRFFQ69G5FA!"),
        Err("invalid character".to_string())
    );
    assert!(!ulid_valid(""));
    assert!(ulid_valid(ID));
}

#[test]
fn a_digest_is_written_in_hexadecimal() {
    assert_eq!(
        sha256_hex(&b"abc".to_vec()),
        "ba7816bf8f01cfea414140de5dae2223b00361a396177a9cb410ff61f20015ad"
    );
    assert_eq!(hex_text(&vec![0, 15, 255]), "000fff");
}

#[test]
fn statuses_of_refusals() {
    let s = |e: GradatumError| err_to_status(&e);
    assert_eq!(s(GradatumError::Unauthorized), StatusCode::Unauthorized);
    assert_eq!(s(GradatumError::Forbidden("x".into())), StatusCode::Forbidden);
    assert_eq!(s(GradatumError::InvalidInput("x".into())), StatusCode::BadRequest);
    assert_eq!(s(GradatumError::NoteNotFound("x".into())), StatusCode::NotFound);
    assert_eq!(s(GradatumError::Storage("down".into())), StatusCode::InternalServerError);
    assert_eq!(s(GradatumError::Storage("not found: x".into())), StatusCode::NotFound);
    assert_eq!(
        map_err_to_status_history(&GradatumError::NoteNotFound("x".into())),
        StatusCode::NotFound
    );
    assert_eq!(StatusCode::PayloadTooLarge.as_u16(), 413);
    assert_eq!(StatusCode::UnprocessableEntity.as_u16(), 422);
}

#[test]
fn a_right_is_established_step_by_step() {
    let trust = bearer("agent");
    let mut a = Answers::none();
    match enter(&TrustContext::Unauthenticated, &None, &a, AclOp::Read, None, "acl deny") {
        Err(Stop::Fail(d)) => assert!(matches!(d.error, GradatumError::Unauthorized)),
        other => panic!("{other:?}"),
    }
    match enter(&trust, &None, &a, AclOp::Read, Some("debug"), "acl deny") {
        Err(Stop::Ask(Ask::Tenant { requested })) => assert!(requested.is_none()),
        other => panic!("{other:?}"),
    }
    a.tenant = Some(None);
    match enter(&trust, &Some("other".into()), &a, AclOp::Read, None, "acl deny") {
        Err(Stop::Fail(d)) => {
            assert!(matches!(d.error, GradatumError::Forbidden(m) if m == "tenant cross mismatch"))
        }
        other => panic!("{other:?}"),
    }
    a.tenant = Some(Some("main".into()));
    match enter(&trust, &None, &a, AclOp::Read, Some("debug"), "acl deny") {
        Err(Stop::Ask(Ask::Acl { op, locus })) => {
            assert_eq!((op, locus.as_str()), (AclOp::Read, "main/debug"))
        }
        other => panic!("{other:?}"),
    }
    a.acl = Some(false);
    match enter(&trust, &None, &a, AclOp::Read, None, "acl deny") {
        Err(Stop::Fail(d)) => {
            assert!(matches!(d.error, GradatumError::Forbidden(m) if m == "acl deny"))
        }
        other => panic!("{other:?}"),
    }
    a.acl = Some(true);
    assert_eq!(enter(&trust, &None, &a, AclOp::Read, None, "acl deny").unwrap(), "main");
}

#[test]
fn a_soul_is_for_its_owner() {
    let backend = bearer("backend");
    assert!(!is_identity_privileged(&backend));
    assert!(is_identity_privileged(&TrustContext::Studio { user: "u".into() }));
    assert!(identity_section_hidden(false, "identity"));
    assert!(identity_section_hidden(false, ""));
    assert!(!identity_section_hidden(false, "debug"));
    assert!(!identity_section_hidden(true, "identity"));
    let own = Some("identity/backend");
    let other = Some("identity/frontend");
    assert!(enforce_identity_read_guard(&backend, "main", "identity", own, ID).is_ok());
    assert!(enforce_identity_read_guard(&backend, "main", "identity", other, ID).is_err());
    assert!(enforce_identity_read_guard(&backend, "main", "debug", other, ID).is_ok());
    let denied = enforce_identity_write_guard(&backend, "main", "identity", other, ID).unwrap_err();
    assert!(matches!(denied.error, GradatumError::Forbidden(_)));
    assert!(denied.audit.is_some());
}

#[test]
fn a_failing_index_hides_the_note() {
    let (title, section) =
        resolve_title_section_failclosed(&Err(GradatumError::Storage("down".into())), ID);
    assert_eq!((title, section.as_str()), (None, "identity"));
    let rows = vec![TitleSection {
        note_id: ID.into(),
        title: Some("t".into()),
        section: "debug".into(),
    }];
    let (title, section) = resolve_title_section_failclosed(&Ok(rows), ID);
    assert_eq!((title.as_deref(), section.as_str()), (Some("t"), "debug"));
}

#[test]
fn a_reference_is_an_identifier_a_title_or_a_slug() {
    let mut a = Answers::none();
    assert_eq!(resolve_note_ref("main", ID, &a).unwrap(), ID);
    assert_eq!(resolve_note_ref("main", &format!("debug/{ID}"), &a).unwrap(), ID);
    assert!(matches!(
        resolve_note_ref("main", "A title", &a),
        Err(Stop::Ask(Ask::TitleLookup { .. }))
    ));
    a.title = Some(Ok(Some(ID.into())));
    assert_eq!(resolve_note_ref("main", "A title", &a).unwrap(), ID);
    a.title = Some(Ok(None));
    a.redirect = Some(Ok(None));
    assert!(matches!(resolve_note_ref_strict("main", "A title", &a), Err(Stop::Fail(_))));
    assert_eq!(
        bare_id_message("note_id", "x", "a bare ULID is expected"),
        "invalid note_id \"x\" — a bare ULID is expected (this endpoint does not resolve \
         \"section/ULID\", titles or slugs)"
    );
}

#[test]
fn texts() {
    assert_eq!(text::trim("  a b\u{3000}"), "a b");
    assert_eq!(text::trim_start("\t a "), "a ");
    assert_eq!(text::split_whitespace(" a  b\nc "), vec!["a", "b", "c"]);
    assert_eq!(text::lines_of("a\r\nb\n\nc\n"), vec!["a", "b", "", "c"]);
    assert_eq!(text::last_segment("a/b/c"), "c");
    assert_eq!(text::strip_prefix("identity/x", "identity/").as_deref(), Some("x"));
    assert_eq!(text::strip_prefix("x", "identity/"), None);
    assert!(text::contains("abcd", "bc"));
    assert!(!text::contains("abcd", "cb"));
    assert_eq!(text::decimal_text(0), "0");
    assert_eq!(text::decimal_text(u64::MAX), "18446744073709551615");
    assert_eq!(text::signed_text(i64::MIN), "-9223372036854775808");
    assert_eq!(text::parse_integer("-9223372036854775808"), Some(i64::MIN));
    assert_eq!(text::parse_integer("+12"), Some(12));
    assert_eq!(text::parse_integer("9223372036854775808"), None);
    assert_eq!(text::parse_integer("1 2"), None);
    assert_eq!(text::parse_integer(""), None);
    assert_eq!(text::head("éàü", 2), "éà");
    assert_eq!(text::byte_len("é"), 2);
    assert_eq!(
        text::debug_list_text(&vec!["a".to_string(), "b\"c".to_string()]),
        "[\"a\", \"b\\\"c\"]"
    );
    assert!(text::same_texts(
        &vec!["a".to_string(), "b".to_string()],
        &vec!["b".to_string(), "a".to_string()]
    ));
    assert!(!text::same_texts(
        &vec!["a".to_string(), "a".to_string()],
        &vec!["b".to_string(), "a".to_string()]
    ));
}

#[test]
fn a_credential_names_its_bearer() {
    assert_eq!(bearer("x").identity(), "x");
    assert_eq!(TrustContext::Unauthenticated.identity(), "<unauthenticated>");
    assert_eq!(TrustContext::Mtls { cn: "svc".into() }.identity(), "svc");
    assert!(bearer("x").has_scope("write"));
    assert!(!bearer("x").has_scope("admin"));
    assert_eq!(bearer("x").tenant_text().as_deref(), Some("main"));
    assert!(TrustContext::Studio { user: "u".into() }.is_studio());
}
