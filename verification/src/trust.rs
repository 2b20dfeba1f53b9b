//! Who is calling: the trust context that a credential resolves to.

use vstd::prelude::*;

use crate::text;

verus! {

/// The scope that lets its bearer read and write any agent's soul.
pub const IDENTITY_WRITE_SCOPE: &'static str = "identity_write";

/// The credential behind a request.
#[derive(Debug)]
pub enum TrustContext {
    /// A bearer token: an agent acting for a tenant.
    BearerToken {
        kid: String,
        aud: String,
        sub: String,
        scopes: Vec<String>,
        tenant_id: String,
        jti: Option<String>,
    },
    /// A session of the administration interface.
    Studio { user: String },
    /// An internal service known by its certificate.
    Mtls { cn: String },
    /// No credential, or one that did not check out.
    Unauthenticated,
}

impl TrustContext {
    /// Whether the request carries a credential that checked out.
    pub open spec fn authenticated(&self) -> bool {
        !(self is Unauthenticated)
    }

    /// The agent that the credential names: only a bearer token names one.
    pub open spec fn subject_view(&self) -> Option<Seq<char>> {
        match self {
            TrustContext::BearerToken { sub, .. } => Some(sub@),
            _ => None,
        }
    }

    /// The tenant that the credential names: only a bearer token names one.
    pub open spec fn tenant_view(&self) -> Option<Seq<char>> {
        match self {
            TrustContext::BearerToken { tenant_id, .. } => Some(tenant_id@),
            _ => None,
        }
    }

    /// Whether the credential carries the scope: only a bearer token carries any.
    pub open spec fn scoped(&self, scope: Seq<char>) -> bool {
        match self {
            TrustContext::BearerToken { scopes, .. } => text::views(scopes@).contains(scope),
            _ => false,
        }
    }

    /// Whether the request carries a credential that checked out.
    pub fn is_authenticated(&self) -> (r: bool)
        ensures
            r == self.authenticated(),
    {
        !matches!(self, TrustContext::Unauthenticated)
    }

    /// Whether this is a session of the administration interface.
    pub fn is_studio(&self) -> (r: bool)
        ensures
            r == (self is Studio),
    {
        matches!(self, TrustContext::Studio { .. })
    }

    /// The agent that the credential names.
    pub fn subject(&self) -> (r: Option<&String>)
        ensures
            match r {
                Some(s) => self.subject_view() == Some(s@),
                None => self.subject_view() is None,
            },
    {
        match self {
            TrustContext::BearerToken { sub, .. } => Some(sub),
            _ => None,
        }
    }

    /// The tenant that the credential names.
    pub fn tenant_id(&self) -> (r: Option<&String>)
        ensures
            match r {
                Some(s) => self.tenant_view() == Some(s@),
                None => self.tenant_view() is None,
            },
    {
        match self {
            TrustContext::BearerToken { tenant_id, .. } => Some(tenant_id),
            _ => None,
        }
    }

    /// The tenant that the credential names.
    pub fn tenant_text(&self) -> (r: Option<String>)
        ensures
            match r {
                Some(s) => self.tenant_view() == Some(s@),
                None => self.tenant_view() is None,
            },
    {
        match self {
            TrustContext::BearerToken { tenant_id, .. } => Some(tenant_id.clone()),
            _ => None,
        }
    }

    /// Whether the credential carries the scope.
    pub fn has_scope(&self, scope: &str) -> (r: bool)
        ensures
            r == self.scoped(scope@),
    {
        match self {
            TrustContext::BearerToken { scopes, .. } => text::listed(scopes, scope),
            _ => false,
        }
    }

    /// The name to write in a log: the subject, the user or the certificate name.
    pub open spec fn identity_view(&self) -> Seq<char> {
        match self {
            TrustContext::BearerToken { sub, .. } => sub@,
            TrustContext::Studio { user } => user@,
            TrustContext::Mtls { cn } => cn@,
            TrustContext::Unauthenticated => "<unauthenticated>"@,
        }
    }

    /// The name to write in a log: the subject, the user or the certificate name.
    pub fn identity(&self) -> (r: String)
        ensures
            r@ == self.identity_view(),
    {
        match self {
            TrustContext::BearerToken { sub, .. } => sub.clone(),
            TrustContext::Studio { user } => user.clone(),
            TrustContext::Mtls { cn } => cn.clone(),
            TrustContext::Unauthenticated => "<unauthenticated>".to_owned(),
        }
    }
}

// ── Laws ────────────────────────────────────────────────────────────────────

/// A bearer token names its agent, its tenant and its scopes; no other credential does. Everyone
/// but the unauthenticated is known, each by its own name.
pub proof fn a_credential_names_its_bearer(trust: TrustContext, scope: Seq<char>)
    ensures
        match trust {
            TrustContext::BearerToken { sub, tenant_id, scopes, .. } => {
                &&& trust.authenticated()
                &&& trust.subject_view() == Some(sub@)
                &&& trust.tenant_view() == Some(tenant_id@)
                &&& trust.scoped(scope) <==> exists|i: int|
                    0 <= i < scopes@.len() && (#[trigger] scopes@[i])@ == scope
                &&& trust.identity_view() == sub@
            },
            TrustContext::Studio { user } => trust.authenticated() && trust.subject_view() is None
                && trust.tenant_view() is None && !trust.scoped(scope) && trust.identity_view()
                == user@,
            TrustContext::Mtls { cn } => trust.authenticated() && trust.subject_view() is None
                && trust.tenant_view() is None && !trust.scoped(scope) && trust.identity_view()
                == cn@,
            TrustContext::Unauthenticated => !trust.authenticated() && trust.subject_view() is None
                && trust.tenant_view() is None && !trust.scoped(scope),
        },
{
    if let TrustContext::BearerToken { scopes, .. } = trust {
        let views = text::views(scopes@);
        if trust.scoped(scope) {
            let i = choose|i: int| 0 <= i < views.len() && views[i] == scope;
            assert(scopes@[i]@ == scope);
        }
        if exists|i: int| 0 <= i < scopes@.len() && (#[trigger] scopes@[i])@ == scope {
            let i = choose|i: int| 0 <= i < scopes@.len() && (#[trigger] scopes@[i])@ == scope;
            assert(views[i] == scope);
        }
    }
}

}
