//! Authorization: decides whether an actor may invoke a privileged or
//! team-restricted operation.
//!
//! Membership itself is resolved by an external provider (a chat platform's
//! role system).  The caller performs each query out there and hands the
//! outcome in as a [`RoleLookup`]; every decision made from those outcomes is
//! verified here.  A failed lookup is always treated as "denied", never as
//! "allowed".

use vstd::prelude::*;

verus! {

/// Outcome of one external membership query: does the actor hold the role?
#[derive(Clone, Copy, PartialEq, Eq, Structural, Debug)]
pub enum RoleLookup {
    /// The provider answered: the actor holds the role.
    Holds,
    /// The provider answered: the actor does not hold the role.
    Lacks,
    /// The provider could not answer (network or lookup error).
    Failed,
}

/// Why an authorization check turned the actor away.
#[derive(Clone, Copy, PartialEq, Eq, Structural, Debug)]
pub enum DenialReason {
    /// The configured administrative role is not held by the actor.
    MissingAdminRole,
    /// The actor is on neither of the two rosters' roles.
    NoTeamMembership,
    /// A membership query failed, and failure never grants access.
    LookupFailed,
}

/// Decision of an authorization check.
#[derive(Clone, Copy, PartialEq, Eq, Structural, Debug)]
pub enum AuthDecision {
    Allowed,
    Denied(DenialReason),
}

/// One candidate role together with the provider's answer for it.
#[derive(Clone, Copy, PartialEq, Eq, Structural, Debug)]
pub struct RoleMembership {
    pub role: u64,
    pub lookup: RoleLookup,
}

/// Privileged-operation check.
///
/// `admin_role` is the configured administrative role, if any; `lookup` is
/// the provider's answer for that role.  With no role configured the check
/// fails open: every actor passes and the lookup outcome is ignored.
pub fn admin_check(admin_role: Option<u64>, lookup: RoleLookup) -> (d: AuthDecision)
    ensures
        d is Allowed <==> (admin_role is None || lookup is Holds),
        admin_role is Some && lookup is Lacks ==> d == AuthDecision::Denied(
            DenialReason::MissingAdminRole,
        ),
        admin_role is Some && lookup is Failed ==> d == AuthDecision::Denied(
            DenialReason::LookupFailed,
        ),
{
    match admin_role {
        None => AuthDecision::Allowed,
        Some(_) => match lookup {
            RoleLookup::Holds => AuthDecision::Allowed,
            RoleLookup::Lacks => AuthDecision::Denied(DenialReason::MissingAdminRole),
            RoleLookup::Failed => AuthDecision::Denied(DenialReason::LookupFailed),
        },
    }
}

/// Team-membership check against the two rosters of the live session.
///
/// `a` and `b` are the provider's answers for the two team roles.  The actor
/// passes iff at least one answer is `Holds`; a failed query counts as not
/// held.
pub fn team_member_check(a: RoleLookup, b: RoleLookup) -> (d: AuthDecision)
    ensures
        d is Allowed <==> (a is Holds || b is Holds),
        !(a is Holds || b is Holds) && (a is Failed || b is Failed) ==> d == AuthDecision::Denied(
            DenialReason::LookupFailed,
        ),
        a is Lacks && b is Lacks ==> d == AuthDecision::Denied(DenialReason::NoTeamMembership),
{
    if matches!(a, RoleLookup::Holds) || matches!(b, RoleLookup::Holds) {
        AuthDecision::Allowed
    } else if matches!(a, RoleLookup::Failed) || matches!(b, RoleLookup::Failed) {
        AuthDecision::Denied(DenialReason::LookupFailed)
    } else {
        AuthDecision::Denied(DenialReason::NoTeamMembership)
    }
}

/// Which of the two teams the actor belongs to, the first team taking
/// precedence when the provider answers `Holds` for both.
pub fn user_team(team_a: u64, team_b: u64, a: RoleLookup, b: RoleLookup) -> (r: Result<
    u64,
    DenialReason,
>)
    ensures
        a is Holds ==> r == Ok::<u64, DenialReason>(team_a),
        !(a is Holds) && b is Holds ==> r == Ok::<u64, DenialReason>(team_b),
        r is Ok <==> (a is Holds || b is Holds),
        !(a is Holds || b is Holds) && (a is Failed || b is Failed) ==> r == Err::<u64, DenialReason>(
            DenialReason::LookupFailed,
        ),
        a is Lacks && b is Lacks ==> r == Err::<u64, DenialReason>(DenialReason::NoTeamMembership),
{
    if matches!(a, RoleLookup::Holds) {
        Ok(team_a)
    } else if matches!(b, RoleLookup::Holds) {
        Ok(team_b)
    } else if matches!(a, RoleLookup::Failed) || matches!(b, RoleLookup::Failed) {
        Err(DenialReason::LookupFailed)
    } else {
        Err(DenialReason::NoTeamMembership)
    }
}

/// The first candidate role the provider confirmed, scanning in order.
///
/// Mirrors resolving "which tracked team does this actor play for" from a
/// list of per-role query outcomes.
pub fn first_held_team(checks: &Vec<RoleMembership>) -> (r: Option<u64>)
    ensures
        r matches Some(role) ==> exists|i: int|
            0 <= i < checks@.len() && checks@[i].lookup is Holds && checks@[i].role == role
                && forall|j: int| 0 <= j < i ==> !(checks@[j].lookup is Holds),
        r is None ==> forall|i: int| 0 <= i < checks@.len() ==> !(checks@[i].lookup is Holds),
{
    let mut k: usize = 0;
    while k < checks.len()
        invariant
            k <= checks@.len(),
            forall|j: int| 0 <= j < k ==> !(checks@[j].lookup is Holds),
        decreases checks@.len() - k,
    {
        if matches!(checks[k].lookup, RoleLookup::Holds) {
            return Some(checks[k].role);
        }
        k = k + 1;
    }
    None
}

/// Whether a role name marks a tracked team: it starts with `Team`.
pub open spec fn spec_is_team_role_name(s: Seq<char>) -> bool {
    s.len() >= 4 && s[0] == 'T' && s[1] == 'e' && s[2] == 'a' && s[3] == 'm'
}

/// Tracked-team filter over role names, as the transport adapter sees them.
pub fn is_team_role_name(name: &str) -> (r: bool)
    ensures
        r == spec_is_team_role_name(name@),
{
    let n = name.unicode_len();
    if n < 4 {
        return false;
    }
    name.get_char(0) == 'T' && name.get_char(1) == 'e' && name.get_char(2) == 'a' && name.get_char(
        3,
    ) == 'm'
}

} // verus!
