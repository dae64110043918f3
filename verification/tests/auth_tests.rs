use matchbot::auth::{
    admin_check, first_held_team, is_team_role_name, team_member_check, user_team, AuthDecision,
    DenialReason, RoleLookup, RoleMembership,
};

#[test]
fn admin_check_fails_open_without_configured_role() {
    assert_eq!(admin_check(None, RoleLookup::Lacks), AuthDecision::Allowed);
    assert_eq!(admin_check(None, RoleLookup::Failed), AuthDecision::Allowed);
}

#[test]
fn admin_check_requires_the_configured_role() {
    assert_eq!(admin_check(Some(9), RoleLookup::Holds), AuthDecision::Allowed);
    assert_eq!(
        admin_check(Some(9), RoleLookup::Lacks),
        AuthDecision::Denied(DenialReason::MissingAdminRole)
    );
}

#[test]
fn admin_check_maps_lookup_failure_to_denied() {
    assert_eq!(
        admin_check(Some(9), RoleLookup::Failed),
        AuthDecision::Denied(DenialReason::LookupFailed)
    );
}

#[test]
fn team_member_check_accepts_either_roster() {
    assert_eq!(
        team_member_check(RoleLookup::Holds, RoleLookup::Lacks),
        AuthDecision::Allowed
    );
    assert_eq!(
        team_member_check(RoleLookup::Failed, RoleLookup::Holds),
        AuthDecision::Allowed
    );
    assert_eq!(
        team_member_check(RoleLookup::Lacks, RoleLookup::Lacks),
        AuthDecision::Denied(DenialReason::NoTeamMembership)
    );
    assert_eq!(
        team_member_check(RoleLookup::Failed, RoleLookup::Lacks),
        AuthDecision::Denied(DenialReason::LookupFailed)
    );
}

#[test]
fn user_team_prefers_the_first_roster() {
    assert_eq!(user_team(5, 6, RoleLookup::Holds, RoleLookup::Holds), Ok(5));
    assert_eq!(user_team(5, 6, RoleLookup::Lacks, RoleLookup::Holds), Ok(6));
    assert_eq!(
        user_team(5, 6, RoleLookup::Lacks, RoleLookup::Lacks),
        Err(DenialReason::NoTeamMembership)
    );
    assert_eq!(
        user_team(5, 6, RoleLookup::Lacks, RoleLookup::Failed),
        Err(DenialReason::LookupFailed)
    );
}

#[test]
fn first_held_team_scans_in_order() {
    let checks = vec![
        RoleMembership { role: 11, lookup: RoleLookup::Lacks },
        RoleMembership { role: 12, lookup: RoleLookup::Holds },
        RoleMembership { role: 13, lookup: RoleLookup::Holds },
    ];
    assert_eq!(first_held_team(&checks), Some(12));
    let none = vec![
        RoleMembership { role: 11, lookup: RoleLookup::Lacks },
        RoleMembership { role: 12, lookup: RoleLookup::Failed },
    ];
    assert_eq!(first_held_team(&none), None);
    assert_eq!(first_held_team(&Vec::new()), None);
}

#[test]
fn team_role_names_start_with_team() {
    assert!(is_team_role_name("Team Alpha"));
    assert!(is_team_role_name("Team"));
    assert!(!is_team_role_name("team alpha"));
    assert!(!is_team_role_name("Tea"));
    assert!(!is_team_role_name(""));
}
