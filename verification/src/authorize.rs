//! The role-based authorization decision over verified claims.
use vstd::prelude::*;
use crate::claims::Claims;

verus! {

/// Why authorization was denied.
#[derive(Debug, Clone, Copy, PartialEq, Eq, Structural)]
pub enum DenyReason {
    /// The claims carry no roles at all.
    NoRolesClaim,
    /// The claims carry roles, but not the required one.
    RoleNotPresent,
}

/// The outcome of the authorization check; derived deterministically from
/// the claims, never persisted.
#[derive(Debug)]
pub enum AuthorizationDecision {
    /// The principal holds the required role.
    Allowed {
        /// The authenticated principal's identifier.
        subject: String,
        /// The role that was required and found.
        scope: String,
    },
    /// The principal does not hold the required role.
    Denied {
        /// Why the principal was turned away.
        reason: DenyReason,
    },
}

/// Whether one of the role strings equals the required role.
pub fn contains_role(roles: &Vec<String>, required_role: &String) -> (b: bool)
    ensures
        b == roles.deep_view().contains(required_role@),
{
    let mut i: usize = 0;
    while i < roles.len()
        invariant
            i <= roles.len(),
            forall|j: int| 0 <= j < i ==> roles.deep_view()[j] != required_role@,
        decreases roles.len() - i,
    {
        if roles[i] == *required_role {
            proof {
                assert(roles.deep_view()[i as int] == required_role@);
            }
            return true;
        }
        i += 1;
    }
    false
}

/// Decides whether the claims grant the required role: denied where the
/// claims carry no roles, denied where the roles lack the required one, and
/// allowed — naming the subject and the granted scope — otherwise. A pure
/// function of the claims: no I/O, no shared state.
pub fn authorize(c: &Claims, required_role: &String) -> (d: AuthorizationDecision)
    ensures
        match d {
            AuthorizationDecision::Allowed { subject, scope } => {
                &&& subject@ == c.sub@
                &&& scope@ == required_role@
                &&& c.roles matches Some(rs) && rs.deep_view().contains(required_role@)
            },
            AuthorizationDecision::Denied { reason } => match reason {
                DenyReason::NoRolesClaim => c.roles is None,
                DenyReason::RoleNotPresent => c.roles matches Some(rs)
                    && !rs.deep_view().contains(required_role@),
            },
        },
{
    match &c.roles {
        None => AuthorizationDecision::Denied { reason: DenyReason::NoRolesClaim },
        Some(rs) => {
            if contains_role(rs, required_role) {
                AuthorizationDecision::Allowed {
                    subject: c.sub.clone(),
                    scope: required_role.clone(),
                }
            } else {
                AuthorizationDecision::Denied { reason: DenyReason::RoleNotPresent }
            }
        },
    }
}

} // verus!
