//! Souls: the private notes in which agents keep their identity, and who may see them.

use vstd::prelude::*;
use vstd::string::*;

use crate::access;
use crate::error::{GradatumError, Refusal};
use crate::flow::{Audit, AuditTrace, Denial, Denied};
use crate::rows;
use crate::text;
use crate::trust::{self, TrustContext};

verus! {

/// The section of souls.
pub const IDENTITY_SECTION: &'static str = "identity";

/// Who may see every soul: the administration interface, and the bearer of the scope.
pub open spec fn identity_privileged(trust: TrustContext) -> bool {
    trust is Studio || trust.scoped("identity_write"@)
}

/// Whether the caller may see every soul.
pub fn is_identity_privileged(trust: &TrustContext) -> (r: bool)
    ensures
        r == identity_privileged(*trust),
{
    trust.is_studio() || trust.has_scope("identity_write")
}

/// Whether a note of `section` is kept from a caller on a surface that lists notes. A section
/// that could not be determined is kept from the unprivileged too.
pub open spec fn section_hidden(privileged: bool, section: Seq<char>) -> bool {
    !privileged && (section == "identity"@ || section.len() == 0)
}

/// Whether a note of `section` is kept from a caller on a surface that lists notes.
pub fn identity_section_hidden(identity_privileged: bool, section: &str) -> (r: bool)
    ensures
        r == section_hidden(identity_privileged, section@),
{
    !identity_privileged && (text::same(section, "identity") || section.is_empty())
}

/// The agent whose soul a note of this title is: what follows `identity/`, if anything does.
pub open spec fn soul_owner(title: Option<Seq<char>>) -> Option<Seq<char>> {
    match title {
        Some(t) => match text::after_prefix(t, "identity/"@) {
            Some(agent) => if agent.len() > 0 {
                Some(agent)
            } else {
                None
            },
            None => None,
        },
        None => None,
    }
}

/// Whether the caller may touch this one note: any note but a soul; a soul when privileged or
/// its owner.
pub open spec fn may_touch(
    trust: TrustContext,
    section: Seq<char>,
    title: Option<Seq<char>>,
) -> bool {
    ||| section != "identity"@
    ||| identity_privileged(trust)
    ||| (soul_owner(title) is Some && soul_owner(title) == trust.subject_view())
}

fn touchable(trust: &TrustContext, section: &str, title: Option<&str>) -> (r: bool)
    ensures
        r == may_touch(
            *trust,
            section@,
            match title {
                Some(t) => Some(t@),
                None => None,
            },
        ),
{
    if !text::same(section, "identity") {
        return true;
    }
    if is_identity_privileged(trust) {
        return true;
    }
    match title {
        Some(t) => match text::strip_prefix(t, "identity/") {
            Some(agent) => match trust.subject() {
                Some(sub) => !agent.as_str().is_empty() && text::same(sub.as_str(), agent.as_str()),
                None => false,
            },
            None => false,
        },
        None => false,
    }
}

/// The refusal of a read of somebody else's soul.
pub open spec fn read_denied(tenant: Seq<char>, locus: Seq<char>, id: Seq<char>) -> Denied {
    Denied {
        error: Refusal::Forbidden("identity: read restricted to the soul's owner"@),
        audit: Some(
            AuditTrace {
                event: "vault_read_rejected"@,
                tenant,
                locus,
                reason: "identity_read_denied_foreign_agent"@,
                note_id: Some(id),
            },
        ),
    }
}

/// The refusal of a change to somebody else's soul.
pub open spec fn write_denied(tenant: Seq<char>, locus: Seq<char>, id: Seq<char>) -> Denied {
    Denied {
        error: Refusal::Forbidden("identity: write restricted to the soul's owner"@),
        audit: Some(
            AuditTrace {
                event: "vault_write_rejected"@,
                tenant,
                locus,
                reason: "identity_write_denied_foreign_agent"@,
                note_id: Some(id),
            },
        ),
    }
}

/// Lets the caller read the note, unless it is somebody else's soul; the refusal is traced at
/// `locus`.
pub fn guard_read(
    trust: &TrustContext,
    tenant: &str,
    locus: &str,
    section: &str,
    note_title: Option<&str>,
    note_id: &str,
) -> (r: Result<(), Denial>)
    ensures
        ({
            let ok = may_touch(
                *trust,
                section@,
                match note_title {
                    Some(t) => Some(t@),
                    None => None,
                },
            );
            match r {
                Ok(_) => ok,
                Err(d) => !ok && d@ == read_denied(tenant@, locus@, note_id@),
            }
        }),
{
    if touchable(trust, section, note_title) {
        return Ok(());
    }
    Err(
        Denial {
            error: GradatumError::forbidden("identity: read restricted to the soul's owner"),
            audit: Some(
                Audit {
                    event: "vault_read_rejected".to_owned(),
                    tenant: tenant.to_owned(),
                    locus: locus.to_owned(),
                    reason: "identity_read_denied_foreign_agent".to_owned(),
                    note_id: Some(note_id.to_owned()),
                },
            ),
        },
    )
}

/// Lets the caller read the note, unless it is somebody else's soul.
pub fn enforce_identity_read_guard(
    trust: &TrustContext,
    tenant: &str,
    section: &str,
    note_title: Option<&str>,
    note_id: &str,
) -> (r: Result<(), Denial>)
    ensures
        ({
            let ok = may_touch(
                *trust,
                section@,
                match note_title {
                    Some(t) => Some(t@),
                    None => None,
                },
            );
            match r {
                Ok(_) => ok,
                Err(d) => !ok && d@ == read_denied(
                    tenant@,
                    access::locus_text(tenant@, None),
                    note_id@,
                ),
            }
        }),
{
    let locus = access::locus_for_tenant(tenant);
    guard_read(trust, tenant, locus.as_str(), section, note_title, note_id)
}

/// Lets the caller change the note, unless it is somebody else's soul.
pub fn enforce_identity_write_guard(
    trust: &TrustContext,
    tenant: &str,
    section: &str,
    note_title: Option<&str>,
    note_id: &str,
) -> (r: Result<(), Denial>)
    ensures
        ({
            let ok = may_touch(
                *trust,
                section@,
                match note_title {
                    Some(t) => Some(t@),
                    None => None,
                },
            );
            match r {
                Ok(_) => ok,
                Err(d) => !ok && d@ == write_denied(
                    tenant@,
                    access::locus_text(tenant@, None),
                    note_id@,
                ),
            }
        }),
{
    if touchable(trust, section, note_title) {
        return Ok(());
    }
    Err(
        Denial {
            error: GradatumError::forbidden("identity: write restricted to the soul's owner"),
            audit: Some(
                Audit {
                    event: "vault_write_rejected".to_owned(),
                    tenant: tenant.to_owned(),
                    locus: access::locus_for_tenant(tenant),
                    reason: "identity_write_denied_foreign_agent".to_owned(),
                    note_id: Some(note_id.to_owned()),
                },
            ),
        },
    )
}

/// What is known of a note's title and section. A note that the index does not know has
/// neither; when the index failed, the note is taken for a soul.
pub open spec fn resolved_section(
    answer: Result<Vec<rows::TitleSection>, GradatumError>,
    id: Seq<char>,
) -> (Option<Seq<char>>, Seq<char>) {
    match answer {
        Ok(found) => match rows::title_row(found@, id) {
            Some(row) => (rows::opt_text(row.title), row.section@),
            None => (None, Seq::empty()),
        },
        Err(_) => (None, "identity"@),
    }
}

/// What is known of a note's title and section, a failure of the index counting as a soul.
pub fn resolve_title_section_failclosed(
    answer: &Result<Vec<rows::TitleSection>, GradatumError>,
    note_id: &str,
) -> (r: (Option<String>, String))
    ensures
        rows::opt_text(r.0) == resolved_section(*answer, note_id@).0,
        r.1@ == resolved_section(*answer, note_id@).1,
{
    match answer {
        Ok(found) => match rows::find_title(found, note_id) {
            Some(row) => (rows::copy_opt(&row.title), row.section.clone()),
            None => (None, String::new()),
        },
        Err(_) => (None, "identity".to_owned()),
    }
}

// ── Laws ────────────────────────────────────────────────────────────────────

/// A privileged caller is kept from no section.
pub proof fn privileged_sees_all(section: Seq<char>)
    ensures
        !section_hidden(true, section),
{
}

/// When the index fails, an unprivileged caller without the right to this note is refused: a
/// failure never opens a soul.
pub proof fn index_failure_stays_closed(trust: TrustContext, e: GradatumError, id: Seq<char>)
    requires
        !identity_privileged(trust),
    ensures
        ({
            let (title, section) = resolved_section(Err::<Vec<rows::TitleSection>, _>(e), id);
            !may_touch(trust, section, title)
        }),
{
}

/// Reading a note and changing it are open to the same callers, and a note outside the section
/// of souls is open to all of them.
pub proof fn outside_identity_is_open(
    trust: TrustContext,
    section: Seq<char>,
    title: Option<Seq<char>>,
)
    requires
        section != "identity"@,
    ensures
        may_touch(trust, section, title),
{
}

/// An agent may always touch its own soul, and without the privilege no other.
pub proof fn own_soul_only(trust: TrustContext, agent: Seq<char>)
    requires
        !identity_privileged(trust),
        agent.len() > 0,
    ensures
        may_touch(trust, "identity"@, Some("identity/"@ + agent)) <==> trust.subject_view()
            == Some(agent),
{
    let t = "identity/"@ + agent;
    assert("identity/"@.is_prefix_of(t)) by {
        assert(t.subrange(0, "identity/"@.len() as int) =~= "identity/"@);
    }
    assert(t.skip("identity/"@.len() as int) =~= agent);
}

/// A soul is touched from the administration interface, with the scope to write souls, or by the
/// agent that its title names; everything else is open to all.
pub proof fn souls_are_touched_by_their_owner(
    trust: TrustContext,
    section: Seq<char>,
    title: Option<Seq<char>>,
    agent: Seq<char>,
)
    ensures
        section != "identity"@ ==> may_touch(trust, section, title),
        trust is Studio ==> may_touch(trust, section, title),
        trust matches TrustContext::BearerToken { scopes, .. } ==> (text::views(scopes@).contains(
            "identity_write"@,
        ) ==> may_touch(trust, section, title)),
        section == "identity"@ && may_touch(trust, section, title) ==> match trust {
            TrustContext::Studio { .. } => true,
            TrustContext::BearerToken { sub, scopes, .. } => text::views(scopes@).contains(
                "identity_write"@,
            ) || title == Some("identity/"@ + sub@),
            _ => false,
        },
        title == Some("identity/"@ + agent) && agent.len() > 0 && (
        trust matches TrustContext::BearerToken { sub, .. } && sub@ == agent) ==> may_touch(
            trust,
            section,
            title,
        ),
        title == Some("identity/"@) && section == "identity"@ && !identity_privileged(trust)
            ==> !may_touch(trust, section, title),
{
    let p = "identity/"@;
    let t = p + agent;
    assert(t.subrange(0, p.len() as int) =~= p);
    assert(t.skip(p.len() as int) =~= agent);
    assert(p.skip(p.len() as int).len() == 0);
    if let Some(full) = title {
        if p.is_prefix_of(full) {
            assert(full =~= p + full.skip(p.len() as int));
        }
    }
}

/// The privilege is that of the administration interface and of the scope to write souls.
pub proof fn the_privilege_is_carried_by_the_credential(trust: TrustContext)
    ensures
        identity_privileged(trust) <==> match trust {
            TrustContext::Studio { .. } => true,
            TrustContext::BearerToken { scopes, .. } => text::views(scopes@).contains(
                "identity_write"@,
            ),
            _ => false,
        },
{
}

/// Without the privilege the section of souls is hidden, and a note whose section is not known; no
/// other is.
pub proof fn souls_and_the_unknown_are_hidden(section: Seq<char>)
    ensures
        section_hidden(false, "identity"@),
        section_hidden(false, Seq::empty()),
        section != "identity"@ && section.len() > 0 ==> !section_hidden(false, section),
{
    assert(Seq::<char>::empty().len() == 0);
}

/// A note is guarded by the title and the section that the first row about it gives; one without a
/// row is no soul, and when the index fails every note counts as one.
pub proof fn a_note_is_guarded_by_its_row(
    answer: Result<Vec<rows::TitleSection>, GradatumError>,
    id: Seq<char>,
    k: int,
)
    ensures
        ({
            let (title, section) = resolved_section(answer, id);
            match answer {
                Ok(found) => {
                    &&& (0 <= k < found@.len() && found@[k].note_id@ == id && forall|i: int|
                        0 <= i < k ==> (#[trigger] found@[i]).note_id@ != id) ==> title
                        == rows::opt_text(found@[k].title) && section == found@[k].section@
                    &&& (forall|i: int|
                        0 <= i < found@.len() ==> (#[trigger] found@[i]).note_id@ != id) ==> title
                        is None && section.len() == 0
                },
                Err(_) => title is None && section == "identity"@,
            }
        }),
{
    if let Ok(found) = answer {
        if 0 <= k < found@.len() && found@[k].note_id@ == id && forall|i: int|
            0 <= i < k ==> (#[trigger] found@[i]).note_id@ != id {
            rows::the_first_row_counts(found@, id, k);
        }
        rows::a_row_is_about_its_note(found@, id);
    }
}

/// Who is refused a soul leaves a trace of the note and of what was tried.
pub proof fn a_refused_soul_leaves_a_trace(tenant: Seq<char>, locus: Seq<char>, id: Seq<char>)
    ensures
        forall|d: Denied|
            d == read_denied(tenant, locus, id) || d == write_denied(tenant, locus, id) ==> {
                &&& (#[trigger] d.error) is Forbidden
                &&& d.audit matches Some(t) && t.tenant == tenant && t.locus == locus && t.note_id
                    == Some(id)
            },
        read_denied(tenant, locus, id).audit->0.event == "vault_read_rejected"@,
        read_denied(tenant, locus, id).audit->0.reason == "identity_read_denied_foreign_agent"@,
        write_denied(tenant, locus, id).audit->0.event == "vault_write_rejected"@,
        write_denied(tenant, locus, id).audit->0.reason == "identity_write_denied_foreign_agent"@,
{
}

}
