use matchbot::session::{CaptainSlot, PhaseTag, Session, SessionError, Side};

const CAP_A: u64 = 1;
const CAP_B: u64 = 2;

fn map_pool() -> Vec<String> {
    vec![String::from("A"), String::from("B"), String::from("C")]
}

/// Drive a fresh session through setup and draft until the veto begins on
/// the pool ["A", "B", "C"] with captains 1 and 2.
fn session_at_veto() -> Session {
    let mut s = Session::new();
    assert_eq!(s.start_setup(vec![CAP_A, CAP_B, 3, 4]), Ok(()));
    assert_eq!(s.claim_captain(CAP_A, CaptainSlot::SlotA), Ok(()));
    assert_eq!(s.claim_captain(CAP_B, CaptainSlot::SlotB), Ok(()));
    assert_eq!(s.phase_tag(), PhaseTag::Draft);
    assert_eq!(s.current_picker(), Some(CAP_A));
    assert_eq!(s.pick_player(CAP_A, 3, map_pool()), Ok(()));
    assert_eq!(s.current_picker(), Some(CAP_B));
    assert_eq!(s.pick_player(CAP_B, 4, map_pool()), Ok(()));
    assert_eq!(s.phase_tag(), PhaseTag::MapVeto);
    s
}

#[test]
fn phases_advance_in_order_through_the_whole_ritual() {
    let mut s = Session::new();
    assert_eq!(s.phase_tag(), PhaseTag::Idle);
    assert_eq!(s.start_setup(vec![CAP_A, CAP_B]), Ok(()));
    assert_eq!(s.phase_tag(), PhaseTag::CaptainSelection);
    assert_eq!(s.claim_captain(CAP_A, CaptainSlot::SlotA), Ok(()));
    assert_eq!(s.phase_tag(), PhaseTag::CaptainSelection);
    assert_eq!(s.claim_captain(CAP_B, CaptainSlot::SlotB), Ok(()));
    // Both captains came straight out of the ready queue, so the draft pool
    // is already empty; the first pick cannot do anything, and the session
    // stalls in Draft until it advances through further picks or a cancel.
    assert_eq!(s.phase_tag(), PhaseTag::Draft);
    assert_eq!(s.cancel(), Ok(()));
    assert_eq!(s.phase_tag(), PhaseTag::Idle);
}

#[test]
fn veto_scenario_runs_down_to_the_picked_map() {
    // Captains claimed, draft complete, maps seeded ["A", "B", "C"],
    // vetoer is captain A.
    let mut s = session_at_veto();
    assert_eq!(s.current_vetoer(), Some(CAP_A));

    // A vetoes "B": remaining ["A", "C"], vetoer B.
    assert_eq!(s.veto_map(CAP_A, &String::from("B")), Ok(()));
    assert_eq!(
        s.maps_remaining().unwrap(),
        &vec![String::from("A"), String::from("C")]
    );
    assert_eq!(s.current_vetoer(), Some(CAP_B));

    // B vetoes "A": remaining ["C"], phase SidePick, picked map "C".
    assert_eq!(s.veto_map(CAP_B, &String::from("A")), Ok(()));
    assert_eq!(s.phase_tag(), PhaseTag::SidePick);
    assert_eq!(s.picked_map().unwrap(), &String::from("C"));
}

#[test]
fn veto_log_alternates_between_the_captains() {
    let mut s = session_at_veto();
    assert_eq!(s.veto_map(CAP_A, &String::from("B")), Ok(()));
    assert_eq!(s.veto_map(CAP_B, &String::from("A")), Ok(()));
    let log = s.veto_log().unwrap();
    assert_eq!(log.len(), 2);
    assert_eq!(log[0].vetoed_by, CAP_A);
    assert_eq!(log[1].vetoed_by, CAP_B);
    assert_eq!(log[0].map, String::from("B"));
    assert_eq!(log[1].map, String::from("A"));
}

#[test]
fn each_veto_removes_exactly_one_map() {
    let mut s = session_at_veto();
    assert_eq!(s.maps_remaining().unwrap().len(), 3);
    assert_eq!(s.veto_map(CAP_A, &String::from("C")), Ok(()));
    assert_eq!(s.maps_remaining().unwrap().len(), 2);
    // The strike that leaves one map ends the veto phase instead.
    assert_eq!(s.veto_map(CAP_B, &String::from("B")), Ok(()));
    assert_eq!(s.phase_tag(), PhaseTag::SidePick);
    assert_eq!(s.picked_map().unwrap(), &String::from("A"));
}

#[test]
fn out_of_turn_veto_fails_and_changes_nothing() {
    let mut s = session_at_veto();
    assert_eq!(s.veto_map(CAP_A, &String::from("B")), Ok(()));
    // It is captain B's turn now; captain A tries again.
    let before_maps: Vec<String> = s.maps_remaining().unwrap().clone();
    let before_log_len = s.veto_log().unwrap().len();
    let before_vetoer = s.current_vetoer();
    assert_eq!(
        s.veto_map(CAP_A, &String::from("A")),
        Err(SessionError::NotYourTurn)
    );
    assert_eq!(s.maps_remaining().unwrap(), &before_maps);
    assert_eq!(s.veto_log().unwrap().len(), before_log_len);
    assert_eq!(s.current_vetoer(), before_vetoer);
    assert_eq!(s.phase_tag(), PhaseTag::MapVeto);
}

#[test]
fn vetoing_an_absent_map_is_an_invalid_target() {
    let mut s = session_at_veto();
    assert_eq!(
        s.veto_map(CAP_A, &String::from("Fracture")),
        Err(SessionError::InvalidTarget)
    );
    assert_eq!(s.maps_remaining().unwrap().len(), 3);
}

#[test]
fn cancel_resets_and_a_second_cancel_finds_nothing() {
    let mut s = session_at_veto();
    assert_eq!(s.cancel(), Ok(()));
    // Every field is back at the Idle defaults.
    assert_eq!(s.phase_tag(), PhaseTag::Idle);
    assert_eq!(s.captains(), (None, None));
    assert_eq!(s.current_picker(), None);
    assert_eq!(s.current_vetoer(), None);
    assert!(s.maps_remaining().is_none());
    assert!(s.veto_log().is_none());
    assert!(s.picked_map().is_none());
    // Cancel again: nothing to cancel.
    assert_eq!(s.cancel(), Err(SessionError::NothingToCancel));
    assert_eq!(s.phase_tag(), PhaseTag::Idle);
}

#[test]
fn side_choice_belongs_to_captain_b() {
    let mut s = session_at_veto();
    assert_eq!(s.veto_map(CAP_A, &String::from("B")), Ok(()));
    assert_eq!(s.veto_map(CAP_B, &String::from("A")), Ok(()));
    assert_eq!(s.phase_tag(), PhaseTag::SidePick);
    assert_eq!(s.choose_side(CAP_A, Side::Attack), Err(SessionError::NotYourTurn));
    assert_eq!(s.choose_side(CAP_B, Side::Attack), Ok(()));
    assert_eq!(s.phase_tag(), PhaseTag::Complete);
    let pick = s.series_pick().unwrap();
    assert_eq!(pick.map, String::from("C"));
    assert_eq!(pick.attack_start, CAP_B);
    assert_eq!(pick.defense_start, CAP_A);
    assert_eq!(s.side_choice(), Some(Side::Attack));
}

#[test]
fn defense_choice_assigns_the_opposite_sides() {
    let mut s = session_at_veto();
    assert_eq!(s.veto_map(CAP_A, &String::from("B")), Ok(()));
    assert_eq!(s.veto_map(CAP_B, &String::from("A")), Ok(()));
    assert_eq!(s.choose_side(CAP_B, Side::Defense), Ok(()));
    let pick = s.series_pick().unwrap();
    assert_eq!(pick.defense_start, CAP_B);
    assert_eq!(pick.attack_start, CAP_A);
}

#[test]
fn completion_owes_the_automatic_reset() {
    let mut s = session_at_veto();
    assert_eq!(s.ready_reset(), Err(SessionError::WrongPhase));
    assert_eq!(s.veto_map(CAP_A, &String::from("B")), Ok(()));
    assert_eq!(s.veto_map(CAP_B, &String::from("A")), Ok(()));
    assert_eq!(s.choose_side(CAP_B, Side::Defense), Ok(()));
    assert_eq!(s.phase_tag(), PhaseTag::Complete);
    assert_eq!(s.ready_reset(), Ok(()));
    assert_eq!(s.phase_tag(), PhaseTag::Idle);
    assert_eq!(s.captains(), (None, None));
}

#[test]
fn captain_slots_can_be_claimed_once() {
    let mut s = Session::new();
    assert_eq!(s.start_setup(vec![CAP_A, CAP_B, 3]), Ok(()));
    assert_eq!(s.claim_captain(CAP_A, CaptainSlot::SlotA), Ok(()));
    assert_eq!(
        s.claim_captain(3, CaptainSlot::SlotA),
        Err(SessionError::SlotTaken)
    );
    // One actor cannot hold both slots.
    assert_eq!(
        s.claim_captain(CAP_A, CaptainSlot::SlotB),
        Err(SessionError::InvalidTarget)
    );
}

#[test]
fn draft_moves_players_and_alternates_strictly() {
    let mut s = Session::new();
    assert_eq!(s.start_setup(vec![CAP_A, CAP_B, 3, 4, 5, 6]), Ok(()));
    assert_eq!(s.claim_captain(CAP_A, CaptainSlot::SlotA), Ok(()));
    assert_eq!(s.claim_captain(CAP_B, CaptainSlot::SlotB), Ok(()));
    assert_eq!(s.pool().unwrap(), &vec![3, 4, 5, 6]);
    // No double turn: A cannot pick twice in a row.
    assert_eq!(s.pick_player(CAP_A, 3, map_pool()), Ok(()));
    assert_eq!(
        s.pick_player(CAP_A, 4, map_pool()),
        Err(SessionError::NotYourTurn)
    );
    // Picking someone outside the pool is refused.
    assert_eq!(
        s.pick_player(CAP_B, 99, map_pool()),
        Err(SessionError::InvalidTarget)
    );
    assert_eq!(s.pick_player(CAP_B, 4, map_pool()), Ok(()));
    assert_eq!(s.pick_player(CAP_A, 5, map_pool()), Ok(()));
    assert_eq!(s.pick_player(CAP_B, 6, map_pool()), Ok(()));
    let (team_a, team_b) = s.teams().unwrap();
    assert_eq!(team_a, &vec![CAP_A, 3, 5]);
    assert_eq!(team_b, &vec![CAP_B, 4, 6]);
    assert_eq!(s.phase_tag(), PhaseTag::MapVeto);
    assert_eq!(s.current_vetoer(), Some(CAP_A));
}

#[test]
fn operations_outside_their_phase_are_refused() {
    let mut s = Session::new();
    assert_eq!(
        s.claim_captain(CAP_A, CaptainSlot::SlotA),
        Err(SessionError::WrongPhase)
    );
    assert_eq!(
        s.pick_player(CAP_A, 3, map_pool()),
        Err(SessionError::WrongPhase)
    );
    assert_eq!(
        s.veto_map(CAP_A, &String::from("A")),
        Err(SessionError::WrongPhase)
    );
    assert_eq!(
        s.choose_side(CAP_B, Side::Attack),
        Err(SessionError::WrongPhase)
    );
    assert_eq!(s.start_setup(vec![CAP_A]), Ok(()));
    assert_eq!(s.start_setup(vec![CAP_A]), Err(SessionError::WrongPhase));
}
