use matchbot::auth::{DenialReason, RoleLookup};
use matchbot::command::{Command, CommandError, Coordinator, Reply};
use matchbot::ledger::{LedgerError, MatchState};
use matchbot::registry::RegistryError;
use matchbot::session::{CaptainSlot, PhaseTag, SessionError, Side};

fn open_coordinator() -> Coordinator {
    // No administrative role configured: privilege checks fail open by design.
    Coordinator::new(None, 26)
}

#[test]
fn privileged_commands_respect_the_configured_role() {
    let mut c = Coordinator::new(Some(9), 26);
    assert_eq!(
        c.dispatch(Command::Cancel { admin: RoleLookup::Lacks }),
        Err(CommandError::Denied(DenialReason::MissingAdminRole))
    );
    assert_eq!(
        c.dispatch(Command::AddMap { admin: RoleLookup::Failed, name: String::from("Ascent") }),
        Err(CommandError::Denied(DenialReason::LookupFailed))
    );
    assert_eq!(c.registry.len(), 0);
    assert_eq!(
        c.dispatch(Command::AddMap { admin: RoleLookup::Holds, name: String::from("Ascent") }),
        Ok(Reply::Done)
    );
    assert_eq!(c.registry.len(), 1);
}

#[test]
fn the_whole_ritual_runs_through_dispatch() {
    let mut c = open_coordinator();
    for name in ["Ascent", "Bind", "Haven"] {
        assert_eq!(
            c.dispatch(Command::AddMap { admin: RoleLookup::Lacks, name: String::from(name) }),
            Ok(Reply::Done)
        );
    }
    assert_eq!(
        c.dispatch(Command::StartSetup { admin: RoleLookup::Lacks, players: vec![1, 2, 3, 4] }),
        Ok(Reply::Done)
    );
    assert_eq!(
        c.dispatch(Command::ClaimCaptain { actor: 1, slot: CaptainSlot::SlotA }),
        Ok(Reply::Done)
    );
    assert_eq!(
        c.dispatch(Command::ClaimCaptain { actor: 2, slot: CaptainSlot::SlotB }),
        Ok(Reply::Done)
    );
    assert_eq!(c.dispatch(Command::PickPlayer { actor: 1, target: 3 }), Ok(Reply::Done));
    assert_eq!(c.dispatch(Command::PickPlayer { actor: 2, target: 4 }), Ok(Reply::Done));
    assert_eq!(c.session.phase_tag(), PhaseTag::MapVeto);
    assert_eq!(
        c.dispatch(Command::VetoMap { actor: 1, map_name: String::from("Bind") }),
        Ok(Reply::Done)
    );
    assert_eq!(
        c.dispatch(Command::VetoMap { actor: 2, map_name: String::from("Ascent") }),
        Ok(Reply::Done)
    );
    assert_eq!(c.session.phase_tag(), PhaseTag::SidePick);
    assert_eq!(c.session.picked_map(), Some(&String::from("Haven")));
    assert_eq!(
        c.dispatch(Command::ChooseSide { actor: 2, side: Side::Defense }),
        Ok(Reply::Done)
    );
    assert_eq!(c.session.phase_tag(), PhaseTag::Complete);
    assert_eq!(c.dispatch(Command::ReadyReset), Ok(Reply::Done));
    assert_eq!(c.session.phase_tag(), PhaseTag::Idle);
}

#[test]
fn session_violations_surface_through_dispatch() {
    let mut c = open_coordinator();
    assert_eq!(
        c.dispatch(Command::VetoMap { actor: 1, map_name: String::from("Ascent") }),
        Err(CommandError::Session(SessionError::WrongPhase))
    );
    assert_eq!(
        c.dispatch(Command::Cancel { admin: RoleLookup::Lacks }),
        Err(CommandError::Session(SessionError::NothingToCancel))
    );
}

#[test]
fn registry_violations_surface_through_dispatch() {
    let mut c = Coordinator::new(None, 1);
    assert_eq!(
        c.dispatch(Command::AddMap { admin: RoleLookup::Lacks, name: String::from("Ascent") }),
        Ok(Reply::Done)
    );
    assert_eq!(
        c.dispatch(Command::AddMap { admin: RoleLookup::Lacks, name: String::from("Bind") }),
        Err(CommandError::Registry(RegistryError::PoolFull))
    );
    assert_eq!(
        c.dispatch(Command::RemoveMap { admin: RoleLookup::Lacks, name: String::from("Bind") }),
        Err(CommandError::Registry(RegistryError::NotFound))
    );
}

#[test]
fn match_commands_flow_through_the_ledger() {
    let mut c = open_coordinator();
    assert_eq!(
        c.dispatch(Command::AddMatch {
            admin: RoleLookup::Lacks,
            team_one: 5,
            team_two: 6,
            note: Some(String::from("week one")),
        }),
        Ok(Reply::MatchAdded(0))
    );
    assert_eq!(c.ledger.len(), 1);

    // A malformed date is rejected before the ledger is consulted.
    assert_eq!(
        c.dispatch(Command::ScheduleMatch {
            team: Some(5),
            date_text: String::from("23/12/2022"),
            time_label: String::from("10EST"),
        }),
        Err(CommandError::InvalidDate)
    );
    // No tracked team: refused, ledger unchanged.
    assert_eq!(
        c.dispatch(Command::ScheduleMatch {
            team: None,
            date_text: String::from("12/23/2022"),
            time_label: String::from("10EST"),
        }),
        Err(CommandError::Ledger(LedgerError::NoTeamRole))
    );
    assert_eq!(c.ledger.matches()[0].state, MatchState::Entered);

    assert_eq!(
        c.dispatch(Command::ScheduleMatch {
            team: Some(6),
            date_text: String::from("12/23/2022"),
            time_label: String::from("10EST"),
        }),
        Ok(Reply::MatchScheduled(0))
    );
    assert_eq!(c.ledger.matches()[0].state, MatchState::Scheduled);
}

#[test]
fn riot_ids_flow_through_dispatch() {
    let mut c = open_coordinator();
    assert_eq!(
        c.dispatch(Command::SetRiotId { actor: 42, riot_id: String::from("Martige#0123") }),
        Ok(Reply::Done)
    );
    assert_eq!(c.riot_ids.get_riot_id(42), Some(&String::from("Martige#0123")));
    assert_eq!(
        c.dispatch(Command::SetRiotId { actor: 42, riot_id: String::from("invalid") }),
        Err(CommandError::InvalidRiotId)
    );
    assert_eq!(c.riot_ids.get_riot_id(42), Some(&String::from("Martige#0123")));
}
