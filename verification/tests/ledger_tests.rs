use matchbot::ledger::{LedgerError, MatchDate, MatchLedger, MatchState};

#[test]
fn added_matches_start_entered_and_unscheduled() {
    let mut ledger = MatchLedger::new();
    let at = ledger.add_match(7, 5, 6, Some(String::from("finals")), 1_700_000_000);
    assert_eq!(at, 0);
    assert_eq!(ledger.len(), 1);
    let m = &ledger.matches()[0];
    assert_eq!(m.id, 7);
    assert_eq!(m.team_one, 5);
    assert_eq!(m.team_two, 6);
    assert_eq!(m.note, Some(String::from("finals")));
    assert_eq!(m.created_at, 1_700_000_000);
    assert_eq!(m.state, MatchState::Entered);
    assert!(m.schedule.is_none());
}

#[test]
fn fresh_matches_get_a_nonzero_identifier() {
    let mut ledger = MatchLedger::new();
    let at = ledger.add_match_now(5, 6, None);
    assert_eq!(at, 0);
    let m = &ledger.matches()[0];
    assert_ne!(m.id, 0);
    assert_eq!(m.state, MatchState::Entered);
    assert!(m.schedule.is_none());
    // A second fixture draws a different identifier.
    ledger.add_match_now(5, 6, None);
    assert_ne!(ledger.matches()[0].id, ledger.matches()[1].id);
}

#[test]
fn scheduling_without_a_team_role_changes_nothing() {
    let mut ledger = MatchLedger::new();
    ledger.add_match(1, 5, 6, None, 0);
    let date = MatchDate { month: 12, day: 23, year: 2022 };
    assert_eq!(
        ledger.schedule_match(None, date, String::from("10EST")),
        Err(LedgerError::NoTeamRole)
    );
    assert_eq!(ledger.matches()[0].state, MatchState::Entered);
    assert!(ledger.matches()[0].schedule.is_none());
    assert_eq!(ledger.len(), 1);
}

#[test]
fn scheduling_takes_the_first_pending_match_of_the_team() {
    let mut ledger = MatchLedger::new();
    ledger.add_match(1, 5, 6, None, 0);
    ledger.add_match(2, 7, 8, None, 0);
    ledger.add_match(3, 6, 5, None, 0);
    let date = MatchDate { month: 12, day: 23, year: 2022 };

    // Team 5's first pending match is at index 0.
    assert_eq!(
        ledger.schedule_match(Some(5), date, String::from("10EST")),
        Ok(0)
    );
    assert_eq!(ledger.matches()[0].state, MatchState::Scheduled);
    let sched = ledger.matches()[0].schedule.as_ref().unwrap();
    assert_eq!(sched.date, date);
    assert_eq!(sched.time_label, String::from("10EST"));

    // Index 0 is no longer pending, so the next request lands at index 2.
    assert_eq!(
        ledger.schedule_match(Some(5), date, String::from("8EST")),
        Ok(2)
    );
    // And once nothing is left, the request fails and nothing changes.
    assert_eq!(
        ledger.schedule_match(Some(5), date, String::from("9EST")),
        Err(LedgerError::NoPendingMatch)
    );
    // A match between other teams was never touched.
    assert_eq!(ledger.matches()[1].state, MatchState::Entered);
}

#[test]
fn date_parsing_accepts_exactly_the_documented_shape() {
    let d = MatchDate::parse("12/23/2022").expect("valid date");
    assert_eq!(d, MatchDate { month: 12, day: 23, year: 2022 });
    let d2 = MatchDate::parse("01/01/1999").expect("valid date");
    assert_eq!(d2, MatchDate { month: 1, day: 1, year: 1999 });
}

#[test]
fn date_parsing_rejects_malformed_text() {
    assert!(MatchDate::parse("").is_none());
    assert!(MatchDate::parse("1/2/2022").is_none());
    assert!(MatchDate::parse("12-23-2022").is_none());
    assert!(MatchDate::parse("12/23/22").is_none());
    assert!(MatchDate::parse("ab/cd/efgh").is_none());
    assert!(MatchDate::parse("12/23/2022x").is_none());
}

#[test]
fn date_parsing_rejects_out_of_range_months_and_days() {
    assert!(MatchDate::parse("13/01/2022").is_none());
    assert!(MatchDate::parse("00/01/2022").is_none());
    assert!(MatchDate::parse("01/32/2022").is_none());
    assert!(MatchDate::parse("01/00/2022").is_none());
    assert!(MatchDate::parse("12/31/2022").is_some());
}
