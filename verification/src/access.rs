//! Who may do what: what every operation checks first.

use vstd::prelude::*;
use vstd::string::*;

use crate::error::{GradatumError, Refusal};
use crate::flow::{self, AclOp, Answers, Ask, Denial, Gate, Question, Stop};
use crate::rows;
use crate::text;
use crate::trust::TrustContext;

verus! {

/// The locus of `section` in the vault of `tenant`; the default section is `main`.
pub open spec fn locus_text(tenant: Seq<char>, section: Option<Seq<char>>) -> Seq<char> {
    match section {
        Some(s) => tenant + "/"@ + s,
        None => tenant + "/main"@,
    }
}

/// The locus of the default section of `tenant`.
pub fn locus_for_tenant(tenant_id: &str) -> (r: String)
    ensures
        r@ == locus_text(tenant_id@, None),
{
    text::cat(tenant_id, "/main")
}

/// The locus of `section` in the vault of `tenant_id`; the default section is `main`.
pub fn locus_for_section(tenant_id: &str, section: Option<&str>) -> (r: String)
    ensures
        r@ == locus_text(
            tenant_id@,
            match section {
                Some(s) => Some(s@),
                None => None,
            },
        ),
{
    match section {
        Some(s) => {
            let mut r = text::cat(tenant_id, "/");
            r.append(s);
            r
        },
        None => locus_for_tenant(tenant_id),
    }
}

/// The optional text as a borrowed one.
pub fn as_deref(o: &Option<String>) -> (r: Option<&str>)
    ensures
        match r {
            Some(s) => rows::opt_text(*o) == Some(s@),
            None => *o is None,
        },
{
    match o {
        Some(s) => Some(s.as_str()),
        None => None,
    }
}

/// The right behind a request that names a tenant and a section: authenticated, for its own tenant,
/// and allowed by the access rules. A refusal by the rules says `deny`.
pub open spec fn access_gate(
    trust: TrustContext,
    requested: Option<Seq<char>>,
    a: Answers,
    op: AclOp,
    section: Option<Seq<char>>,
    deny: Seq<char>,
) -> Gate {
    if !trust.authenticated() {
        Gate::Fail(flow::silent(Refusal::Unauthorized))
    } else {
        match a.tenant {
            None => Gate::Ask(Question::Tenant { requested }),
            Some(None) => Gate::Fail(
                flow::silent(Refusal::Forbidden("tenant cross mismatch"@)),
            ),
            Some(Some(t)) => match a.acl {
                None => Gate::Ask(Question::Acl { op, locus: locus_text(t@, section) }),
                Some(false) => Gate::Fail(flow::silent(Refusal::Forbidden(deny))),
                Some(true) => Gate::Pass,
            },
        }
    }
}

/// The tenant that was answered.
pub open spec fn tenant_of(a: Answers) -> Seq<char> {
    a.tenant->0->0@
}

/// Checks the right behind a request that names a tenant and a section, and gives the tenant.
pub fn enter(
    trust: &TrustContext,
    requested: &Option<String>,
    a: &Answers,
    op: AclOp,
    section: Option<&str>,
    deny: &str,
) -> (r: Result<String, Stop>)
    ensures
        ({
            let g = access_gate(
                *trust,
                rows::opt_text(*requested),
                *a,
                op,
                match section {
                    Some(s) => Some(s@),
                    None => None,
                },
                deny@,
            );
            match r {
                Ok(t) => g is Pass && t@ == tenant_of(*a),
                Err(s) => g == s@,
            }
        }),
{
    if !trust.is_authenticated() {
        return Err(Stop::Fail(Denial::plain(GradatumError::Unauthorized)));
    }
    match &a.tenant {
        None => Err(Stop::Ask(Ask::Tenant { requested: rows::copy_opt(requested) })),
        Some(None) => Err(Stop::Fail(Denial::forbidden("tenant cross mismatch"))),
        Some(Some(t)) => match a.acl {
            None => Err(Stop::Ask(Ask::Acl { op, locus: locus_for_section(t.as_str(), section) })),
            Some(false) => Err(Stop::Fail(Denial::forbidden(deny))),
            Some(true) => Ok(t.clone()),
        },
    }
}

// ── Laws ────────────────────────────────────────────────────────────────────

/// The right to a section of a vault is asked for the caller's own tenant, with the operation and
/// the section that the caller wants; whoever has no credential, names another tenant or is not
/// allowed is refused, and everybody else passes.
pub proof fn the_right_is_that_of_the_own_tenant(
    trust: TrustContext,
    requested: Option<Seq<char>>,
    a: Answers,
    op: AclOp,
    section: Option<Seq<char>>,
    deny: Seq<char>,
)
    ensures
        ({
            let g = access_gate(trust, requested, a, op, section, deny);
            &&& g is Pass <==> trust.authenticated() && (a.tenant matches Some(Some(_))) && a.acl
                == Some(true)
            &&& !trust.authenticated() ==> flow::fails(g, Refusal::Unauthorized)
            &&& trust.authenticated() && a.tenant == Some(None::<String>) ==> flow::forbids(g)
            &&& trust.authenticated() && (a.tenant matches Some(Some(_))) && a.acl == Some(false)
                ==> flow::fails(g, Refusal::Forbidden(deny))
            &&& g is Ask ==> match g->Ask_0 {
                Question::Tenant { requested: r } => a.tenant is None && r == requested,
                Question::Acl { op: o, locus } => {
                    let t = a.tenant->0->0@;
                    &&& a.tenant matches Some(Some(_))
                    &&& a.acl is None
                    &&& o == op
                    &&& section is None ==> locus == t + "/main"@
                    &&& section matches Some(s) ==> locus == t + "/"@ + s
                },
                _ => false,
            }
        }),
{
}

/// Whether `tenant` is the caller's own, whose right to read it was established.
pub open spec fn own(trust: TrustContext, a: Answers, tenant: Seq<char>) -> bool {
    &&& trust.authenticated()
    &&& a.acl == Some(true)
    &&& a.tenant matches Some(Some(t)) && tenant == t@
}

/// Whether the question is the one for the own tenant or for the right to read all of it.
pub open spec fn asks_to_read(q: Question, requested: Option<Seq<char>>, a: Answers) -> bool {
    match q {
        Question::Tenant { requested: r } => a.tenant is None && r == requested,
        Question::Acl { op, locus } => a.acl is None && op == AclOp::Read && (a.tenant matches Some(
            Some(t),
        ) && locus == t@ + "/main"@),
        _ => false,
    }
}

/// Whether a caller who may not read the own tenant is refused for that.
pub open spec fn guards_reading(g: Gate, trust: TrustContext, a: Answers) -> bool {
    &&& !trust.authenticated() ==> flow::fails(g, Refusal::Unauthorized)
    &&& trust.authenticated() && a.tenant == Some(None::<String>) ==> flow::forbids(g)
    &&& trust.authenticated() && (a.tenant matches Some(Some(_))) && a.acl == Some(false)
        ==> flow::forbids(g)
    &&& trust.authenticated() && a.tenant is None ==> g is Ask && g->Ask_0 is Tenant
    &&& trust.authenticated() && (a.tenant matches Some(Some(_))) && a.acl is None ==> g is Ask
        && g->Ask_0 is Acl
}

}
