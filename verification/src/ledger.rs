//! The match ledger: the record of entered and scheduled fixtures.  It is
//! independent of the live session and survives session resets; the caller
//! persists a snapshot after every successful mutation.
//!
//! Creation stamps each match with a fresh identifier and a creation time;
//! both come from outside crates through the two trusted wrappers at the
//! bottom of this file, and every decision made with them is verified.

use vstd::prelude::*;

verus! {

/// Ledger failures: user-facing and non-fatal.
#[derive(Clone, Copy, PartialEq, Eq, Structural, Debug)]
pub enum LedgerError {
    /// The requester belongs to no tracked team.
    NoTeamRole,
    /// No unscheduled match involves the requester's team.
    NoPendingMatch,
}

/// Lifecycle state of one match.
#[derive(Clone, Copy, PartialEq, Eq, Structural, Debug)]
pub enum MatchState {
    Entered,
    Scheduled,
    Completed,
}

/// A calendar date in month/day/year form, as the `MM/DD/YYYY` command
/// argument carries it.
#[derive(Clone, Copy, PartialEq, Eq, Structural, Debug)]
pub struct MatchDate {
    pub month: u8,
    pub day: u8,
    pub year: u16,
}

/// A digit character.
pub open spec fn is_digit(c: char) -> bool {
    '0' <= c && c <= '9'
}

/// The numeric value of a digit character.
pub open spec fn digit_val(c: char) -> int {
    c as int - 48
}

/// Whether a character sequence has the exact `MM/DD/YYYY` shape.
pub open spec fn date_text_shaped(s: Seq<char>) -> bool {
    &&& s.len() == 10
    &&& s[2] == '/' && s[5] == '/'
    &&& is_digit(s[0]) && is_digit(s[1])
    &&& is_digit(s[3]) && is_digit(s[4])
    &&& is_digit(s[6]) && is_digit(s[7]) && is_digit(s[8]) && is_digit(s[9])
}

/// The month a well-shaped date text names.
pub open spec fn month_of(s: Seq<char>) -> int {
    digit_val(s[0]) * 10 + digit_val(s[1])
}

/// The day a well-shaped date text names.
pub open spec fn day_of(s: Seq<char>) -> int {
    digit_val(s[3]) * 10 + digit_val(s[4])
}

/// The year a well-shaped date text names.
pub open spec fn year_of(s: Seq<char>) -> int {
    digit_val(s[6]) * 1000 + digit_val(s[7]) * 100 + digit_val(s[8]) * 10 + digit_val(s[9])
}

/// The month and day ranges a date is accepted with.
pub open spec fn date_in_range(month: int, day: int) -> bool {
    1 <= month <= 12 && 1 <= day <= 31
}

impl MatchDate {
    /// The stored fields are a date in range.
    pub open spec fn wf(self) -> bool {
        date_in_range(self.month as int, self.day as int)
    }

    /// Parse a `MM/DD/YYYY` date.  Accepts exactly the ten-character
    /// two-digit/two-digit/four-digit shape with a month of 1–12 and a day
    /// of 1–31, and rejects everything else.
    pub fn parse(s: &str) -> (r: Option<MatchDate>)
        ensures
            r is Some <==> (date_text_shaped(s@) && date_in_range(month_of(s@), day_of(s@))),
            r matches Some(d) ==> d.month as int == month_of(s@) && d.day as int == day_of(s@)
                && d.year as int == year_of(s@) && d.wf(),
    {
        if s.unicode_len() != 10 {
            return None;
        }
        if s.get_char(2) != '/' || s.get_char(5) != '/' {
            return None;
        }
        let m1 = digit_of(s.get_char(0));
        let m2 = digit_of(s.get_char(1));
        let d1 = digit_of(s.get_char(3));
        let d2 = digit_of(s.get_char(4));
        let y1 = digit_of(s.get_char(6));
        let y2 = digit_of(s.get_char(7));
        let y3 = digit_of(s.get_char(8));
        let y4 = digit_of(s.get_char(9));
        match (m1, m2, d1, d2, y1, y2, y3, y4) {
            (
                Some(m1),
                Some(m2),
                Some(d1),
                Some(d2),
                Some(y1),
                Some(y2),
                Some(y3),
                Some(y4),
            ) => {
                let month: u8 = m1 * 10 + m2;
                let day: u8 = d1 * 10 + d2;
                let year: u16 = (y1 as u16) * 1000 + (y2 as u16) * 100 + (y3 as u16) * 10 + (
                y4 as u16);
                if month >= 1 && month <= 12 && day >= 1 && day <= 31 {
                    Some(MatchDate { month, day, year })
                } else {
                    None
                }
            },
            _ => None,
        }
    }
}

/// The numeric value of a digit character, or nothing.
fn digit_of(c: char) -> (r: Option<u8>)
    ensures
        r is Some <==> is_digit(c),
        r matches Some(v) ==> v as int == digit_val(c) && v <= 9,
{
    let u = c as u32;
    if 48 <= u && u <= 57 {
        Some((u - 48) as u8)
    } else {
        None
    }
}

/// When a match is to be played: a date plus a free-form time label
/// (for example "10EST"), set exactly once.
pub struct MatchSchedule {
    pub date: MatchDate,
    pub time_label: String,
}

/// Ghost mirror of a [`MatchSchedule`].
#[verifier::ext_equal]
pub ghost struct ScheduleModel {
    pub date: MatchDate,
    pub time_label: Seq<char>,
}

impl DeepView for MatchSchedule {
    type V = ScheduleModel;

    open spec fn deep_view(&self) -> ScheduleModel {
        ScheduleModel { date: self.date, time_label: self.time_label@ }
    }
}

/// One fixture in the ledger.
pub struct MatchRecord {
    pub id: u128,
    pub team_one: u64,
    pub team_two: u64,
    pub note: Option<String>,
    pub created_at: i64,
    pub state: MatchState,
    pub schedule: Option<MatchSchedule>,
}

/// Ghost mirror of a [`MatchRecord`].
#[verifier::ext_equal]
pub ghost struct MatchModel {
    pub id: u128,
    pub team_one: u64,
    pub team_two: u64,
    pub note: Option<Seq<char>>,
    pub created_at: i64,
    pub state: MatchState,
    pub schedule: Option<ScheduleModel>,
}

impl DeepView for MatchRecord {
    type V = MatchModel;

    open spec fn deep_view(&self) -> MatchModel {
        MatchModel {
            id: self.id,
            team_one: self.team_one,
            team_two: self.team_two,
            note: self.note.deep_view(),
            created_at: self.created_at,
            state: self.state,
            schedule: self.schedule.deep_view(),
        }
    }
}

/// The team takes part in the match.
pub open spec fn participates(m: MatchModel, team: u64) -> bool {
    m.team_one == team || m.team_two == team
}

/// The match awaits a schedule and the team takes part in it.
pub open spec fn pending_for(m: MatchModel, team: u64) -> bool {
    participates(m, team) && m.schedule is None
}

/// The same match once its schedule is set.
pub open spec fn with_schedule(m: MatchModel, date: MatchDate, time_label: Seq<char>) -> MatchModel {
    MatchModel {
        state: MatchState::Scheduled,
        schedule: Some(ScheduleModel { date, time_label }),
        ..m
    }
}

/// The append-only record of fixtures.
pub struct MatchLedger {
    matches: Vec<MatchRecord>,
}

impl View for MatchLedger {
    type V = Seq<MatchModel>;

    closed spec fn view(&self) -> Seq<MatchModel> {
        self.matches.deep_view()
    }
}

impl MatchLedger {
    /// An empty ledger.
    pub fn new() -> (r: MatchLedger)
        ensures
            r@ == Seq::<MatchModel>::empty(),
    {
        let matches: Vec<MatchRecord> = Vec::new();
        proof {
            assert(matches.deep_view() =~= Seq::<MatchModel>::empty());
        }
        MatchLedger { matches }
    }

    /// Adopt the fixtures read back from durable storage.
    pub fn load(matches: Vec<MatchRecord>) -> (r: MatchLedger)
        ensures
            r@ == matches.deep_view(),
    {
        MatchLedger { matches }
    }

    /// How many fixtures are on record.
    pub fn len(&self) -> (n: usize)
        ensures
            n == self@.len(),
    {
        self.matches.len()
    }

    /// The fixtures, in entry order.
    pub fn matches(&self) -> (r: &Vec<MatchRecord>)
        ensures
            r.deep_view() == self@,
    {
        &self.matches
    }

    /// Enter a new fixture: it starts in the `Entered` state, carries the
    /// given identifier and creation time, and awaits a schedule.
    pub fn add_match(
        &mut self,
        id: u128,
        team_one: u64,
        team_two: u64,
        note: Option<String>,
        created_at: i64,
    ) -> (r: usize)
        ensures
            final(self)@ == old(self)@.push(
                MatchModel {
                    id,
                    team_one,
                    team_two,
                    note: note.deep_view(),
                    created_at,
                    state: MatchState::Entered,
                    schedule: None,
                },
            ),
            r == old(self)@.len(),
    {
        let ghost old_dv = self.matches.deep_view();
        let ghost pushed = MatchModel {
            id,
            team_one,
            team_two,
            note: note.deep_view(),
            created_at,
            state: MatchState::Entered,
            schedule: None,
        };
        let at = self.matches.len();
        self.matches.push(
            MatchRecord {
                id,
                team_one,
                team_two,
                note,
                created_at,
                state: MatchState::Entered,
                schedule: None,
            },
        );
        proof {
            assert(self.matches.deep_view() =~= old_dv.push(pushed));
        }
        at
    }

    /// Enter a new fixture stamped with a fresh identifier and the current
    /// time, both drawn from the outside world.
    pub fn add_match_now(&mut self, team_one: u64, team_two: u64, note: Option<String>) -> (r:
        usize)
        ensures
            final(self)@.len() == old(self)@.len() + 1,
            final(self)@.subrange(0, old(self)@.len() as int) == old(self)@,
            ({
                let m = final(self)@.last();
                &&& m.team_one == team_one
                &&& m.team_two == team_two
                &&& m.note == note.deep_view()
                &&& m.state is Entered
                &&& m.schedule is None
            }),
            r == old(self)@.len(),
    {
        let id = fresh_match_id();
        let created_at = now_timestamp();
        let ghost old_dv = self@;
        let at = self.add_match(id, team_one, team_two, note, created_at);
        proof {
            assert(self@.subrange(0, old_dv.len() as int) =~= old_dv);
        }
        at
    }

    /// Schedule the requester's next pending match: the first fixture their
    /// team takes part in that has no schedule yet gets the date and time
    /// label, exactly once, and moves to the `Scheduled` state.  `team` is
    /// the requester's tracked team as the membership provider resolved it,
    /// or nothing if they have none.
    pub fn schedule_match(&mut self, team: Option<u64>, date: MatchDate, time_label: String) -> (r:
        Result<usize, LedgerError>)
        ensures
            team is None ==> r == Err::<usize, LedgerError>(LedgerError::NoTeamRole)
                && final(self)@ == old(self)@,
            team matches Some(t) ==> ((forall|j: int|
                0 <= j < old(self)@.len() ==> !pending_for(#[trigger] old(self)@[j], t)) ==> (r
                == Err::<usize, LedgerError>(LedgerError::NoPendingMatch) && final(self)@ == old(
                self,
            )@)),
            team matches Some(t) ==> ((exists|j: int|
                0 <= j < old(self)@.len() && pending_for(#[trigger] old(self)@[j], t)) ==> (
            r matches Ok(i) && 0 <= (i as int) < old(self)@.len() && pending_for(
                old(self)@[i as int],
                t,
            ) && (forall|j: int| 0 <= j < i as int ==> !pending_for(#[trigger] old(self)@[j], t))
                && final(self)@ == old(self)@.update(
                i as int,
                with_schedule(old(self)@[i as int], date, time_label@),
            ))),
    {
        let t = match team {
            Some(t) => t,
            None => {
                return Err(LedgerError::NoTeamRole);
            },
        };
        let n = self.matches.len();
        let mut k: usize = 0;
        while k < n
            invariant
                k <= n,
                n == self.matches@.len(),
                team == Some(t),
                self@ == old(self)@,
                forall|j: int| 0 <= j < k ==> !pending_for(#[trigger] self@[j], t),
            decreases n - k,
        {
            let hit = (self.matches[k].team_one == t || self.matches[k].team_two == t)
                && self.matches[k].schedule.is_none();
            if hit {
                let ghost old_dv = self.matches.deep_view();
                let new_rec = {
                    let rec = &self.matches[k];
                    MatchRecord {
                        id: rec.id,
                        team_one: rec.team_one,
                        team_two: rec.team_two,
                        note: clone_note(&rec.note),
                        created_at: rec.created_at,
                        state: MatchState::Scheduled,
                        schedule: Some(MatchSchedule { date, time_label }),
                    }
                };
                self.matches.set(k, new_rec);
                proof {
                    assert(self.matches.deep_view() =~= old_dv.update(
                        k as int,
                        with_schedule(old_dv[k as int], date, time_label@),
                    ));
                }
                return Ok(k);
            }
            k = k + 1;
        }
        Err(LedgerError::NoPendingMatch)
    }
}

/// An owned copy of an optional note.
fn clone_note(o: &Option<String>) -> (r: Option<String>)
    ensures
        r.deep_view() == o.deep_view(),
{
    match o {
        Some(s) => Some(s.clone()),
        None => None,
    }
}

/// Relies on `uuid::Uuid::new_v4` for a fresh random match identifier.
/// Version 4 identifiers have the version and variant bits set, so the
/// value is never zero; nothing else is promised of a random draw.
#[verifier::external_body]
pub(crate) fn fresh_match_id() -> (r: u128)
    ensures
        r != 0,
{
    uuid::Uuid::new_v4().as_u128()
}

/// Relies on `chrono::Utc::now` for the current wall-clock time, reduced to
/// whole seconds since the Unix epoch.  Nothing is promised of a clock
/// reading.
#[verifier::external_body]
pub(crate) fn now_timestamp() -> (r: i64)
{
    chrono::Utc::now().timestamp()
}

} // verus!
