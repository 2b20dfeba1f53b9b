//! Events of the gateway, appended in batches.

use vstd::prelude::*;
use vstd::string::*;

use crate::access;
use crate::error::StatusCode;
use crate::flow::{AclOp, Answers, Ask, Question};
use crate::ids::{self, NoteId};
use crate::rows::{self, EventLogError};
use crate::text;
use crate::trust::TrustContext;

verus! {

/// The most events in one batch.
pub const MAX_BATCH_SIZE: usize = 1000;

/// The most bytes in a text of an event.
pub const MAX_FIELD_LEN: usize = 1024;

/// The most characters in the timestamp of an event.
pub const MAX_TIMESTAMP_LEN: usize = 64;

/// The most bytes in the identifier of a request.
pub const MAX_REQUEST_ID_LEN: usize = 128;

/// An event.
#[derive(Debug)]
pub struct QaEvent {
    pub route: String,
    pub model_alias: String,
    pub provider: String,
    pub timestamp: String,
    pub feature_id: Option<String>,
    pub model_used: Option<String>,
    pub agent_id: Option<String>,
    /// The whole event as it was sent, with what is not bounded of it.
    pub sent: String,
}

/// A [`QaEvent`] by its contents.
#[verifier::ext_equal]
pub struct EventModel {
    pub route: Seq<char>,
    pub model_alias: Seq<char>,
    pub provider: Seq<char>,
    pub timestamp: Seq<char>,
    pub feature_id: Option<Seq<char>>,
    pub model_used: Option<Seq<char>>,
    pub agent_id: Option<Seq<char>>,
    pub sent: Seq<char>,
}

impl View for QaEvent {
    type V = EventModel;

    open spec fn view(&self) -> EventModel {
        EventModel {
            route: self.route@,
            model_alias: self.model_alias@,
            provider: self.provider@,
            timestamp: self.timestamp@,
            feature_id: rows::opt_text(self.feature_id),
            model_used: rows::opt_text(self.model_used),
            agent_id: rows::opt_text(self.agent_id),
            sent: self.sent@,
        }
    }
}

/// Events by their contents.
pub open spec fn event_models(events: Seq<QaEvent>) -> Seq<EventModel> {
    events.map_values(|e: QaEvent| e@)
}

fn copy_events(events: &Vec<QaEvent>) -> (r: Vec<QaEvent>)
    ensures
        event_models(r@) == event_models(events@),
{
    let mut out: Vec<QaEvent> = Vec::new();
    let mut i: usize = 0;
    while i < events.len()
        invariant
            i <= events@.len(),
            out@.len() == i,
            forall|k: int| 0 <= k < i ==> (#[trigger] out@[k])@ == events@[k]@,
        decreases events@.len() - i,
    {
        let e = &events[i];
        out.push(
            QaEvent {
                route: e.route.clone(),
                model_alias: e.model_alias.clone(),
                provider: e.provider.clone(),
                timestamp: e.timestamp.clone(),
                feature_id: rows::copy_opt(&e.feature_id),
                model_used: rows::copy_opt(&e.model_used),
                agent_id: rows::copy_opt(&e.agent_id),
                sent: e.sent.clone(),
            },
        );
        i = i + 1;
    }
    assert(event_models(out@) =~= event_models(events@));
    out
}

/// A batch that was accepted.
#[derive(Debug)]
pub struct EventLogResponse {
    pub accepted_count: usize,
    pub status: String,
}

// ── Traces ──────────────────────────────────────────────────────────────────

/// Who did it, as the audit log names them.
#[derive(Debug)]
pub struct HttpAuditActor {
    pub kid: String,
    pub sub: String,
    pub aud: String,
}

/// An [`HttpAuditActor`] by its contents.
#[verifier::ext_equal]
pub struct ActorFacts {
    pub kid: Seq<char>,
    pub sub: Seq<char>,
    pub aud: Seq<char>,
}

impl View for HttpAuditActor {
    type V = ActorFacts;

    open spec fn view(&self) -> ActorFacts {
        ActorFacts { kid: self.kid@, sub: self.sub@, aud: self.aud@ }
    }
}

/// How the audit log names the bearer of a credential.
pub open spec fn actor_facts(trust: TrustContext) -> ActorFacts {
    match trust {
        TrustContext::BearerToken { kid, sub, aud, .. } => ActorFacts {
            kid: kid@,
            sub: sub@,
            aud: aud@,
        },
        TrustContext::Mtls { cn } => ActorFacts {
            kid: "mtls:"@ + cn@,
            sub: cn@,
            aud: "gradatum"@,
        },
        TrustContext::Studio { user } => ActorFacts {
            kid: "studio"@,
            sub: user@,
            aud: "gradatum-studio"@,
        },
        TrustContext::Unauthenticated => ActorFacts {
            kid: Seq::empty(),
            sub: Seq::empty(),
            aud: Seq::empty(),
        },
    }
}

/// How the audit log names the bearer of a credential.
pub fn actor_from_trust(trust: &TrustContext) -> (r: HttpAuditActor)
    ensures
        r@ == actor_facts(*trust),
{
    match trust {
        TrustContext::BearerToken { kid, sub, aud, .. } => HttpAuditActor {
            kid: kid.clone(),
            sub: sub.clone(),
            aud: aud.clone(),
        },
        TrustContext::Mtls { cn } => HttpAuditActor {
            kid: text::cat("mtls:", cn.as_str()),
            sub: cn.clone(),
            aud: "gradatum".to_owned(),
        },
        TrustContext::Studio { user } => HttpAuditActor {
            kid: "studio".to_owned(),
            sub: user.clone(),
            aud: "gradatum-studio".to_owned(),
        },
        TrustContext::Unauthenticated => HttpAuditActor {
            kid: String::new(),
            sub: String::new(),
            aud: String::new(),
        },
    }
}

/// A trace of a batch in the audit log.
#[derive(Debug)]
pub struct HttpAuditEvent {
    pub event: String,
    pub actor: HttpAuditActor,
    pub tenant_id: String,
    pub locus: String,
    pub outcome: String,
    /// Why the batch was refused.
    pub reason: Option<String>,
    /// How much of the batch was accepted.
    pub accepted_count: Option<usize>,
    pub request_id: String,
}

/// An [`HttpAuditEvent`] by its contents.
#[verifier::ext_equal]
pub struct BatchTrace {
    pub event: Seq<char>,
    pub actor: ActorFacts,
    pub tenant_id: Seq<char>,
    pub locus: Seq<char>,
    pub outcome: Seq<char>,
    pub reason: Option<Seq<char>>,
    pub accepted_count: Option<usize>,
    pub request_id: Seq<char>,
}

impl View for HttpAuditEvent {
    type V = BatchTrace;

    open spec fn view(&self) -> BatchTrace {
        BatchTrace {
            event: self.event@,
            actor: self.actor@,
            tenant_id: self.tenant_id@,
            locus: self.locus@,
            outcome: self.outcome@,
            reason: rows::opt_text(self.reason),
            accepted_count: self.accepted_count,
            request_id: self.request_id@,
        }
    }
}

/// The trace of a batch that was refused for want of a right on `section`.
pub open spec fn failure_trace(
    trust: TrustContext,
    tenant: Seq<char>,
    section: Seq<char>,
    request_id: Seq<char>,
    reason: Seq<char>,
) -> BatchTrace {
    BatchTrace {
        event: "auth_failure"@,
        actor: actor_facts(trust),
        tenant_id: tenant,
        locus: access::locus_text(tenant, Some(section)),
        outcome: "denied"@,
        reason: Some(reason),
        accepted_count: None,
        request_id,
    }
}

/// The trace of a batch that was refused for want of a right on `section`.
pub fn audit_failure(
    trust: &TrustContext,
    tenant: &str,
    section: &str,
    request_id: &str,
    reason: &str,
) -> (r: HttpAuditEvent)
    ensures
        r@ == failure_trace(*trust, tenant@, section@, request_id@, reason@),
{
    HttpAuditEvent {
        event: "auth_failure".to_owned(),
        actor: actor_from_trust(trust),
        tenant_id: tenant.to_owned(),
        locus: access::locus_for_section(tenant, Some(section)),
        outcome: "denied".to_owned(),
        reason: Some(reason.to_owned()),
        accepted_count: None,
        request_id: request_id.to_owned(),
    }
}

/// The trace of a batch that was accepted.
pub open spec fn success_trace(
    trust: TrustContext,
    event: Seq<char>,
    tenant: Seq<char>,
    section: Seq<char>,
    request_id: Seq<char>,
    count: usize,
) -> BatchTrace {
    BatchTrace {
        event,
        actor: actor_facts(trust),
        tenant_id: tenant,
        locus: access::locus_text(tenant, Some(section)),
        outcome: "accepted"@,
        reason: None,
        accepted_count: Some(count),
        request_id,
    }
}

/// The trace of a batch that was accepted.
pub fn audit_success(
    trust: &TrustContext,
    event: &str,
    tenant: &str,
    section: &str,
    request_id: &str,
    count: usize,
) -> (r: HttpAuditEvent)
    ensures
        r@ == success_trace(*trust, event@, tenant@, section@, request_id@, count),
{
    HttpAuditEvent {
        event: event.to_owned(),
        actor: actor_from_trust(trust),
        tenant_id: tenant.to_owned(),
        locus: access::locus_for_section(tenant, Some(section)),
        outcome: "accepted".to_owned(),
        reason: None,
        accepted_count: Some(count),
        request_id: request_id.to_owned(),
    }
}

/// Whether a text can identify a request: short, and of visible ASCII characters only.
pub open spec fn request_id_sound(s: Seq<char>) -> bool {
    &&& text::byte_length(s) <= MAX_REQUEST_ID_LEN
    &&& forall|i: int| 0 <= i < s.len() ==> '!' <= #[trigger] s[i] <= '~'
}

/// The identifier of a request: that of its header, if it is sound, and a fresh one otherwise.
pub open spec fn request_id(header: Option<Seq<char>>, fresh: NoteId) -> Seq<char> {
    match header {
        Some(s) => if request_id_sound(s) {
            s
        } else {
            fresh@
        },
        None => fresh@,
    }
}

/// The identifier of a request.
pub fn extract_request_id(header: &Option<String>, fresh: &NoteId) -> (r: String)
    ensures
        r@ == request_id(rows::opt_text(*header), *fresh),
{
    let s = match header {
        None => return fresh.text(),
        Some(s) => s,
    };
    if text::byte_len(s.as_str()) > MAX_REQUEST_ID_LEN {
        return fresh.text();
    }
    let v = text::chars_of(s.as_str());
    let mut i: usize = 0;
    while i < v.len()
        invariant
            i <= v@.len(),
            v@ == s@,
            rows::opt_text(*header) == Some(s@),
            forall|k: int| 0 <= k < i ==> '!' <= #[trigger] s@[k] <= '~',
        decreases v@.len() - i,
    {
        let c = v[i];
        if !('!' <= c && c <= '~') {
            assert(!request_id_sound(s@)) by {
                assert(s@[i as int] == c);
            }
            return fresh.text();
        }
        i = i + 1;
    }
    s.clone()
}

// ── Steps ───────────────────────────────────────────────────────────────────

/// The next step of the intake of a batch.
#[derive(Debug)]
pub enum IngestNext<T> {
    Ask(Ask),
    /// The batch is refused; a refusal for want of a right leaves a trace.
    Refuse(StatusCode, Option<HttpAuditEvent>),
    Reply(T),
}

/// The next step by its contents, leaving the reply itself aside.
#[verifier::ext_equal]
pub enum IngestGate {
    Ask(Question),
    Refuse(StatusCode, Option<BatchTrace>),
    Pass,
}

/// Whether `n` is the step that `g` prescribes; of a reply this says only that it is
/// due.
pub open spec fn follows<T>(n: IngestNext<T>, g: IngestGate) -> bool {
    match n {
        IngestNext::Ask(q) => g == IngestGate::Ask(q@),
        IngestNext::Refuse(s, t) => g == IngestGate::Refuse(
            s,
            match t {
                Some(t) => Some(t@),
                None => None,
            },
        ),
        IngestNext::Reply(_) => g is Pass,
    }
}

/// The receipt of a batch, and the trace that it leaves.
#[derive(Debug)]
pub struct Ingested {
    pub response: EventLogResponse,
    pub audit: HttpAuditEvent,
}

/// Whether `x` says that `count` of a batch were accepted, and leaves `trace`.
pub open spec fn accepted(x: Ingested, count: usize, trace: BatchTrace) -> bool {
    &&& x.response.accepted_count == count
    &&& x.response.status@ == "accepted"@
    &&& x.audit@ == trace
}

// ── Events ──────────────────────────────────────────────────────────────────

/// Whether an optional text is short enough.
pub open spec fn opt_fits(o: Option<String>) -> bool {
    o matches Some(s) ==> text::byte_length(s@) <= MAX_FIELD_LEN
}

/// Whether the texts of an event are short enough.
pub open spec fn event_fits(e: QaEvent) -> bool {
    &&& text::byte_length(e.route@) <= MAX_FIELD_LEN
    &&& text::byte_length(e.model_alias@) <= MAX_FIELD_LEN
    &&& text::byte_length(e.provider@) <= MAX_FIELD_LEN
    &&& e.timestamp@.len() <= MAX_TIMESTAMP_LEN
    &&& opt_fits(e.feature_id)
    &&& opt_fits(e.model_used)
    &&& opt_fits(e.agent_id)
}

/// Whether the texts of all events are short enough.
pub open spec fn events_fit(events: Seq<QaEvent>) -> bool {
    forall|i: int| 0 <= i < events.len() ==> event_fits(#[trigger] events[i])
}

fn opt_within(o: &Option<String>) -> (r: bool)
    ensures
        r == opt_fits(*o),
{
    match o {
        None => true,
        Some(s) => text::byte_len(s.as_str()) <= MAX_FIELD_LEN,
    }
}

fn event_within(e: &QaEvent) -> (r: bool)
    ensures
        r == event_fits(*e),
{
    text::byte_len(e.route.as_str()) <= MAX_FIELD_LEN && text::byte_len(e.model_alias.as_str())
        <= MAX_FIELD_LEN && text::byte_len(e.provider.as_str()) <= MAX_FIELD_LEN && text::chars_of(
        e.timestamp.as_str(),
    ).len() <= MAX_TIMESTAMP_LEN && opt_within(&e.feature_id) && opt_within(&e.model_used) && opt_within(
        &e.agent_id,
    )
}

fn events_within(events: &Vec<QaEvent>) -> (r: bool)
    ensures
        r == events_fit(events@),
{
    let mut i: usize = 0;
    while i < events.len()
        invariant
            i <= events@.len(),
            forall|k: int| 0 <= k < i ==> event_fits(#[trigger] events@[k]),
        decreases events@.len() - i,
    {
        if !event_within(&events[i]) {
            assert(!event_fits(events@[i as int]));
            return false;
        }
        i = i + 1;
    }
    true
}

/// What the sender of a batch is told. `wired` tells whether there is a store of events.
pub open spec fn event_log_gate(
    trust: TrustContext,
    events: Seq<QaEvent>,
    wired: bool,
    request_id: Seq<char>,
    a: Answers,
) -> IngestGate {
    if !trust.authenticated() {
        IngestGate::Refuse(
            StatusCode::Unauthorized,
            Some(failure_trace(trust, "main"@, "event-log"@, request_id, "unauthenticated"@)),
        )
    } else {
        match trust.tenant_view() {
            None => IngestGate::Refuse(
                StatusCode::Forbidden,
                Some(failure_trace(trust, "__unknown__"@, "event-log"@, request_id, "no_tenant"@)),
            ),
            Some(t) => match a.acl {
                None => IngestGate::Ask(
                    Question::Acl {
                        op: AclOp::Write,
                        locus: access::locus_text(t, Some("event-log"@)),
                    },
                ),
                Some(false) => IngestGate::Refuse(
                    StatusCode::Forbidden,
                    Some(failure_trace(trust, t, "event-log"@, request_id, "acl_deny"@)),
                ),
                Some(true) => if events.len() > MAX_BATCH_SIZE {
                    IngestGate::Refuse(StatusCode::PayloadTooLarge, None)
                } else if !events_fit(events) {
                    IngestGate::Refuse(StatusCode::UnprocessableEntity, None)
                } else if !wired {
                    IngestGate::Refuse(StatusCode::ServiceUnavailable, None)
                } else {
                    match a.events_inserted {
                        None => IngestGate::Ask(
                            Question::InsertEvents { tenant: t, events: event_models(events) },
                        ),
                        Some(Err(EventLogError::BadTimestamp)) => IngestGate::Refuse(
                            StatusCode::BadRequest,
                            None,
                        ),
                        Some(Err(EventLogError::Store)) => IngestGate::Refuse(
                            StatusCode::InternalServerError,
                            None,
                        ),
                        Some(Ok(_)) => IngestGate::Pass,
                    }
                },
            },
        }
    }
}

/// Takes in a batch of events. The tenant is that of the credential, never one of the batch.
pub fn post_event_log(
    trust: &TrustContext,
    events: &Vec<QaEvent>,
    wired: bool,
    request_id: &str,
    a: &Answers,
) -> (r: IngestNext<Ingested>)
    ensures
        follows(r, event_log_gate(*trust, events@, wired, request_id@, *a)),
        r matches IngestNext::Reply(x) ==> {
            let count = a.events_inserted->0->Ok_0;
            accepted(
                x,
                count,
                success_trace(
                    *trust,
                    "event_log_ingest"@,
                    trust.tenant_view()->0,
                    "event-log"@,
                    request_id@,
                    count,
                ),
            )
        },
{
    if !trust.is_authenticated() {
        return IngestNext::Refuse(
            StatusCode::Unauthorized,
            Some(audit_failure(trust, "main", "event-log", request_id, "unauthenticated")),
        );
    }
    let tenant = match trust.tenant_id() {
        None => return IngestNext::Refuse(
            StatusCode::Forbidden,
            Some(audit_failure(trust, "__unknown__", "event-log", request_id, "no_tenant")),
        ),
        Some(t) => t,
    };
    match a.acl {
        None => return IngestNext::Ask(
            Ask::Acl {
                op: AclOp::Write,
                locus: access::locus_for_section(tenant.as_str(), Some("event-log")),
            },
        ),
        Some(false) => return IngestNext::Refuse(
            StatusCode::Forbidden,
            Some(audit_failure(trust, tenant.as_str(), "event-log", request_id, "acl_deny")),
        ),
        Some(true) => {},
    }
    if events.len() > MAX_BATCH_SIZE {
        return IngestNext::Refuse(StatusCode::PayloadTooLarge, None);
    }
    if !events_within(events) {
        return IngestNext::Refuse(StatusCode::UnprocessableEntity, None);
    }
    if !wired {
        return IngestNext::Refuse(StatusCode::ServiceUnavailable, None);
    }
    match a.events_inserted {
        None => IngestNext::Ask(
            Ask::InsertEvents { tenant: tenant.clone(), events: copy_events(events) },
        ),
        Some(Err(EventLogError::BadTimestamp)) => IngestNext::Refuse(StatusCode::BadRequest, None),
        Some(Err(EventLogError::Store)) => IngestNext::Refuse(
            StatusCode::InternalServerError,
            None,
        ),
        Some(Ok(count)) => IngestNext::Reply(
            Ingested {
                response: EventLogResponse {
                    accepted_count: count,
                    status: "accepted".to_owned(),
                },
                audit: audit_success(
                    trust,
                    "event_log_ingest",
                    tenant.as_str(),
                    "event-log",
                    request_id,
                    count,
                ),
            },
        ),
    }
}

// ── Laws ────────────────────────────────────────────────────────────────────

/// Events are appended only for the tenant of the credential, whose right to write was
/// established, and only a batch whose every text is within bounds. What is appended is the
/// batch, in its order and as it was sent.
pub proof fn events_are_appended_for_the_own_tenant(
    trust: TrustContext,
    events: Seq<QaEvent>,
    wired: bool,
    request_id: Seq<char>,
    a: Answers,
)
    requires
        event_log_gate(trust, events, wired, request_id, a) matches IngestGate::Ask(q)
            && q is InsertEvents,
    ensures
        trust.authenticated(),
        a.acl == Some(true),
        events.len() <= MAX_BATCH_SIZE,
        events_fit(events),
        trust.tenant_view() is Some,
        event_log_gate(trust, events, wired, request_id, a) == IngestGate::Ask(
            Question::InsertEvents {
                tenant: trust.tenant_view()->0,
                events: event_models(events),
            },
        ),
{
}

/// A refusal leaves a trace when, and only when, a credential or a right was missing.
pub proof fn refusals_of_right_are_traced(
    trust: TrustContext,
    events: Seq<QaEvent>,
    wired: bool,
    request_id: Seq<char>,
    a: Answers,
)
    ensures
        event_log_gate(trust, events, wired, request_id, a) matches IngestGate::Refuse(s, t) ==> (
        t is Some <==> s == StatusCode::Unauthorized || s == StatusCode::Forbidden),
{
}

/// The identifier of a request is short and holds visible characters only, whatever the header
/// holds.
pub proof fn request_ids_are_visible(header: Option<Seq<char>>, fresh: NoteId)
    ensures
        request_id_sound(request_id(header, fresh)),
{
    ids::note_id_round_trip(fresh);
    let s = fresh@;
    assert forall|i: int| 0 <= i < s.len() implies '!' <= #[trigger] s[i] <= '~' by {
        assert(ids::crockford(s[i]) is Some);
    }
    assert(vstd::utf8::is_ascii_chars(s));
    vstd::utf8::is_ascii_chars_encode_utf8(s);
}

/// A batch of events is refused for cause only, and for the cause that it has.
pub proof fn events_are_refused_for_cause(
    trust: TrustContext,
    events: Seq<QaEvent>,
    wired: bool,
    request_id: Seq<char>,
    a: Answers,
)
    ensures
        ({
            let g = event_log_gate(trust, events, wired, request_id, a);
            let entered = trust.authenticated() && trust.tenant_view() is Some && a.acl == Some(
                true,
            );
            let sound = entered && events.len() <= 1000 && events_fit(events);
            &&& !trust.authenticated() ==> refuses(g, StatusCode::Unauthorized)
            &&& trust.authenticated() && trust.tenant_view() is None ==> refuses(
                g,
                StatusCode::Forbidden,
            )
            &&& trust.authenticated() && trust.tenant_view() is Some && a.acl == Some(false)
                ==> refuses(g, StatusCode::Forbidden)
            &&& trust.authenticated() && trust.tenant_view() is Some && a.acl is None ==> g
                == IngestGate::Ask(
                Question::Acl {
                    op: AclOp::Write,
                    locus: trust.tenant_view()->0 + "/"@ + "event-log"@,
                },
            )
            &&& entered && events.len() > 1000 ==> refuses(g, StatusCode::PayloadTooLarge)
            &&& entered && events.len() <= 1000 && !events_fit(events) ==> refuses(
                g,
                StatusCode::UnprocessableEntity,
            )
            &&& sound && !wired ==> refuses(g, StatusCode::ServiceUnavailable)
            &&& sound && wired ==> match a.events_inserted {
                None => g is Ask && g->Ask_0 is InsertEvents,
                Some(Err(EventLogError::BadTimestamp)) => refuses(g, StatusCode::BadRequest),
                Some(Err(EventLogError::Store)) => refuses(g, StatusCode::InternalServerError),
                Some(Ok(_)) => g is Pass,
            }
        }),
{
}

/// Whether a batch is refused with a status.
pub open spec fn refuses(g: IngestGate, status: StatusCode) -> bool {
    g matches IngestGate::Refuse(s, _) && s == status
}

/// Events are appended as they were sent, one by one and in their order.
pub proof fn events_are_appended_as_they_were_sent(events: Seq<QaEvent>, i: int)
    requires
        0 <= i < events.len(),
    ensures
        event_models(events).len() == events.len(),
        ({
            let e = events[i];
            let m = event_models(events)[i];
            &&& m.route == e.route@ && m.model_alias == e.model_alias@ && m.provider == e.provider@
            &&& m.timestamp == e.timestamp@ && m.sent == e.sent@
            &&& m.feature_id is Some <==> e.feature_id is Some
            &&& e.feature_id is Some ==> m.feature_id->0 == e.feature_id->0@
            &&& m.model_used is Some <==> e.model_used is Some
            &&& e.model_used is Some ==> m.model_used->0 == e.model_used->0@
            &&& m.agent_id is Some <==> e.agent_id is Some
            &&& e.agent_id is Some ==> m.agent_id->0 == e.agent_id->0@
        }),
{
}

/// A trace names who sent the batch, where it was for, how it ended and the request.
pub proof fn a_trace_names_the_batch(
    trust: TrustContext,
    event: Seq<char>,
    tenant: Seq<char>,
    section: Seq<char>,
    request: Seq<char>,
    reason: Seq<char>,
    count: usize,
)
    ensures
        ({
            let no = failure_trace(trust, tenant, section, request, reason);
            let yes = success_trace(trust, event, tenant, section, request, count);
            &&& no.tenant_id == tenant && yes.tenant_id == tenant
            &&& no.locus == tenant + "/"@ + section && yes.locus == tenant + "/"@ + section
            &&& no.request_id == request && yes.request_id == request
            &&& no.reason == Some(reason) && yes.reason is None
            &&& no.accepted_count is None && yes.accepted_count == Some(count)
            &&& no.outcome == "denied"@ && yes.outcome == "accepted"@
            &&& no.event == "auth_failure"@ && yes.event == event
            &&& no.actor == yes.actor
            &&& trust matches TrustContext::BearerToken { kid, sub, aud, .. } ==> yes.actor.kid == kid@
                && yes.actor.sub == sub@ && yes.actor.aud == aud@
            &&& trust matches TrustContext::Studio { user } ==> yes.actor.sub == user@
            &&& trust matches TrustContext::Mtls { cn } ==> yes.actor.sub == cn@
            &&& trust is Unauthenticated ==> yes.actor.sub.len() == 0
        }),
{
}

/// The identifier that a request brings is kept when it is sound; else it gets one of its own.
pub proof fn a_sound_request_identifier_is_kept(header: Option<Seq<char>>, fresh: NoteId)
    ensures
        header matches Some(s) ==> (request_id_sound(s) ==> request_id(header, fresh) == s),
        header matches Some(s) ==> (!request_id_sound(s) ==> request_id(header, fresh) == fresh@),
        header is None ==> request_id(header, fresh) == fresh@,
{
}

/// An event fits when its route, its models, its provider and its agent are of a kilobyte at most,
/// and its moment of sixty-four characters.
pub proof fn an_event_fits_within_its_bounds(e: QaEvent)
    ensures
        event_fits(e) <==> {
            &&& text::byte_length(e.route@) <= 1024
            &&& text::byte_length(e.model_alias@) <= 1024
            &&& text::byte_length(e.provider@) <= 1024
            &&& e.timestamp@.len() <= 64
            &&& e.feature_id is Some ==> text::byte_length(e.feature_id->0@) <= 1024
            &&& e.model_used is Some ==> text::byte_length(e.model_used->0@) <= 1024
            &&& e.agent_id is Some ==> text::byte_length(e.agent_id->0@) <= 1024
        },
{
}

/// A sound identifier of a request is of a hundred and twenty-eight visible characters at most.
pub proof fn a_request_identifier_is_sound(s: Seq<char>)
    ensures
        request_id_sound(s) <==> text::byte_length(s) <= 128 && forall|i: int|
            0 <= i < s.len() ==> '!' <= #[trigger] s[i] <= '~',
{
}

/// A batch that is accepted is told with its count, and leaves the trace of it.
pub proof fn an_accepted_batch_is_told(x: Ingested, count: usize, trace: BatchTrace)
    requires
        accepted(x, count, trace),
    ensures
        x.response.accepted_count == count,
        x.response.status@ == "accepted"@,
        x.audit@ == trace,
{
}

/// A refused batch leaves the trace of who sent it, where it was for and why it was refused.
pub proof fn a_refused_batch_is_traced(
    trust: TrustContext,
    events: Seq<QaEvent>,
    wired: bool,
    request_id: Seq<char>,
    a: Answers,
)
    ensures
        event_log_gate(trust, events, wired, request_id, a) matches IngestGate::Refuse(_, Some(t))
            ==> {
            &&& t.request_id == request_id
            &&& t.outcome == "denied"@
            &&& t.locus == t.tenant_id + "/"@ + "event-log"@
            &&& trust is Unauthenticated ==> t.tenant_id == "main"@ && t.reason == Some(
                "unauthenticated"@,
            )
            &&& trust.tenant_view() matches Some(n) ==> t.tenant_id == n && t.reason == Some(
                "acl_deny"@,
            )
        },
{
}

}
