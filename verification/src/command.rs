//! The closed command type and the coordinator that dispatches it.
//!
//! The transport adapter translates each inbound platform command into one
//! [`Command`] value — actor identities resolved, role lookups already
//! performed — and the coordinator matches it exhaustively: every command
//! is authorized, validated against the current phase, applied, and
//! answered, all in one verified place.

use vstd::prelude::*;

use crate::auth::{admin_check, AuthDecision, DenialReason, RoleLookup};
use crate::ledger::{
    date_in_range, date_text_shaped, day_of, month_of, pending_for, with_schedule, year_of,
    LedgerError, MatchDate, MatchLedger, MatchModel,
};
use crate::registry::{MapRegistry, RegistryError};
use crate::riotid::{has_game_tag, RiotIdDirectory};
use crate::session::{
    cancel_step, choose_side_step, claim_captain_step, distinct, pick_player_step,
    ready_reset_step, start_setup_step, veto_map_step, ActorId, CaptainSlot, PhaseModel, Session,
    SessionError, Side,
};

verus! {

/// One inbound command, fully resolved by the transport adapter.  Role
/// lookups (`admin`, `team`) are performed outside against the membership
/// provider and their outcomes handed in as plain values.
pub enum Command {
    /// Begin the setup ritual with a ready queue of players (admin only).
    StartSetup { admin: RoleLookup, players: Vec<ActorId> },
    /// Claim a captain slot.
    ClaimCaptain { actor: ActorId, slot: CaptainSlot },
    /// Draft a player onto the acting captain's roster.
    PickPlayer { actor: ActorId, target: ActorId },
    /// Strike a map from the remaining pool.
    VetoMap { actor: ActorId, map_name: String },
    /// Choose the starting side (captain B).
    ChooseSide { actor: ActorId, side: Side },
    /// Abort the running setup (admin only).
    Cancel { admin: RoleLookup },
    /// Reset a completed session back to Idle.
    ReadyReset,
    /// Add a map to the registry (admin only).
    AddMap { admin: RoleLookup, name: String },
    /// Remove a map from the registry (admin only).
    RemoveMap { admin: RoleLookup, name: String },
    /// Enter a fixture into the ledger (admin only).
    AddMatch { admin: RoleLookup, team_one: u64, team_two: u64, note: Option<String> },
    /// Schedule the requester's next pending match; `team` is their tracked
    /// team as the membership provider resolved it.
    ScheduleMatch { team: Option<u64>, date_text: String, time_label: String },
    /// Record the requester's riot id.
    SetRiotId { actor: ActorId, riot_id: String },
}

/// Everything a command can fail with, user-facing and non-fatal.
#[derive(Clone, Copy, PartialEq, Eq, Structural, Debug)]
pub enum CommandError {
    /// The authorization check turned the actor away.
    Denied(DenialReason),
    /// A protocol violation against the live session.
    Session(SessionError),
    /// A registry constraint violation.
    Registry(RegistryError),
    /// A ledger failure.
    Ledger(LedgerError),
    /// The date argument is not a valid `MM/DD/YYYY` date.
    InvalidDate,
    /// The riot id argument does not have the accepted shape.
    InvalidRiotId,
}

/// What a successful command reports back.
#[derive(Clone, Copy, PartialEq, Eq, Structural, Debug)]
pub enum Reply {
    /// The command took effect.
    Done,
    /// The fixture was entered, at this ledger position.
    MatchAdded(usize),
    /// The fixture at this ledger position was scheduled.
    MatchScheduled(usize),
}

/// A session result lifted to a command reply.
pub open spec fn step_reply(sr: Result<(), SessionError>) -> Result<Reply, CommandError> {
    match sr {
        Ok(_) => Ok(Reply::Done),
        Err(e) => Err(CommandError::Session(e)),
    }
}

/// The coordinator service: owns the live session, the map registry, the
/// match ledger and the riot-id directory, and is their sole mutator.
pub struct Coordinator {
    pub session: Session,
    pub registry: MapRegistry,
    pub ledger: MatchLedger,
    pub riot_ids: RiotIdDirectory,
    /// The configured administrative role; with none configured every
    /// actor passes the privilege check, by design.
    pub admin_role: Option<u64>,
}

impl Coordinator {
    /// Coordinator invariant: the session and registry invariants hold.
    pub open spec fn wf(self) -> bool {
        self.session@.wf() && self.registry@.wf()
    }

    /// The verdict of the privilege check for a privileged command.
    pub open spec fn admin_ok(self, lookup: RoleLookup) -> bool {
        self.admin_role is None || lookup is Holds
    }

    /// The reason given when the privilege check refuses.
    pub open spec fn denial(lookup: RoleLookup) -> DenialReason {
        if lookup is Failed {
            DenialReason::LookupFailed
        } else {
            DenialReason::MissingAdminRole
        }
    }

    /// A fresh coordinator: idle session, empty registry with the given
    /// ceiling, empty ledger and directory.
    pub fn new(admin_role: Option<u64>, pool_bound: usize) -> (c: Coordinator)
        ensures
            c.wf(),
            c.session@ == PhaseModel::Idle,
            c.registry@.names == Seq::<Seq<char>>::empty(),
            c.registry@.bound == pool_bound as nat,
            c.ledger@ == Seq::<MatchModel>::empty(),
            c.riot_ids@ == Map::<u64, String>::empty(),
            c.admin_role == admin_role,
    {
        Coordinator {
            session: Session::new(),
            registry: MapRegistry::new(pool_bound),
            ledger: MatchLedger::new(),
            riot_ids: RiotIdDirectory::new(),
            admin_role,
        }
    }

    /// Apply one command: authorize, validate against the current phase,
    /// mutate, and reply.  Exactly the rejected commands leave every
    /// component as it was.
    pub fn dispatch(&mut self, cmd: Command) -> (r: Result<Reply, CommandError>)
        requires
            old(self).wf(),
            cmd matches Command::StartSetup { players, .. } ==> distinct(players@),
            cmd is PickPlayer ==> ((old(self).session@ matches PhaseModel::Draft { pool, .. }
                && pool.len() == 1) ==> old(self).registry@.names.len() >= 2),
        ensures
            final(self).wf(),
            final(self).admin_role == old(self).admin_role,
            cmd matches Command::StartSetup { admin, players } ==> ({
                let step = start_setup_step(old(self).session@, players@);
                &&& !old(self).admin_ok(admin) ==> r == Err::<Reply, CommandError>(
                    CommandError::Denied(Self::denial(admin)),
                ) && final(self).session@ == old(self).session@
                &&& old(self).admin_ok(admin) ==> final(self).session@ == step.0 && r
                    == step_reply(step.1)
                &&& final(self).registry@ == old(self).registry@
                &&& final(self).ledger@ == old(self).ledger@
                &&& final(self).riot_ids@ == old(self).riot_ids@
            }),
            cmd matches Command::ClaimCaptain { actor, slot } ==> ({
                let step = claim_captain_step(old(self).session@, actor, slot);
                &&& final(self).session@ == step.0
                &&& r == step_reply(step.1)
                &&& final(self).registry@ == old(self).registry@
                &&& final(self).ledger@ == old(self).ledger@
                &&& final(self).riot_ids@ == old(self).riot_ids@
            }),
            cmd matches Command::PickPlayer { actor, target } ==> ({
                let step = pick_player_step(
                    old(self).session@,
                    actor,
                    target,
                    old(self).registry@.names,
                );
                &&& final(self).session@ == step.0
                &&& r == step_reply(step.1)
                &&& final(self).registry@ == old(self).registry@
                &&& final(self).ledger@ == old(self).ledger@
                &&& final(self).riot_ids@ == old(self).riot_ids@
            }),
            cmd matches Command::VetoMap { actor, map_name } ==> ({
                let step = veto_map_step(old(self).session@, actor, map_name@);
                &&& final(self).session@ == step.0
                &&& r == step_reply(step.1)
                &&& final(self).registry@ == old(self).registry@
                &&& final(self).ledger@ == old(self).ledger@
                &&& final(self).riot_ids@ == old(self).riot_ids@
            }),
            cmd matches Command::ChooseSide { actor, side } ==> ({
                let step = choose_side_step(old(self).session@, actor, side);
                &&& final(self).session@ == step.0
                &&& r == step_reply(step.1)
                &&& final(self).registry@ == old(self).registry@
                &&& final(self).ledger@ == old(self).ledger@
                &&& final(self).riot_ids@ == old(self).riot_ids@
            }),
            cmd matches Command::Cancel { admin } ==> ({
                let step = cancel_step(old(self).session@);
                &&& !old(self).admin_ok(admin) ==> r == Err::<Reply, CommandError>(
                    CommandError::Denied(Self::denial(admin)),
                ) && final(self).session@ == old(self).session@
                &&& old(self).admin_ok(admin) ==> final(self).session@ == step.0 && r
                    == step_reply(step.1)
                &&& final(self).registry@ == old(self).registry@
                &&& final(self).ledger@ == old(self).ledger@
                &&& final(self).riot_ids@ == old(self).riot_ids@
            }),
            cmd is ReadyReset ==> ({
                let step = ready_reset_step(old(self).session@);
                &&& final(self).session@ == step.0
                &&& r == step_reply(step.1)
                &&& final(self).registry@ == old(self).registry@
                &&& final(self).ledger@ == old(self).ledger@
                &&& final(self).riot_ids@ == old(self).riot_ids@
            }),
            cmd matches Command::AddMap { admin, name } ==> ({
                let reg = old(self).registry@;
                &&& final(self).session@ == old(self).session@
                &&& final(self).ledger@ == old(self).ledger@
                &&& final(self).riot_ids@ == old(self).riot_ids@
                &&& final(self).registry@.bound == reg.bound
                &&& !old(self).admin_ok(admin) ==> r == Err::<Reply, CommandError>(
                    CommandError::Denied(Self::denial(admin)),
                ) && final(self).registry@ == reg
                &&& old(self).admin_ok(admin) ==> {
                    &&& reg.names.len() >= reg.bound ==> r == Err::<Reply, CommandError>(
                        CommandError::Registry(RegistryError::PoolFull),
                    ) && final(self).registry@ == reg
                    &&& reg.names.len() < reg.bound && reg.names.contains(name@) ==> r == Err::<
                        Reply,
                        CommandError,
                    >(CommandError::Registry(RegistryError::Duplicate)) && final(self).registry@
                        == reg
                    &&& reg.names.len() < reg.bound && !reg.names.contains(name@) ==> r == Ok::<
                        Reply,
                        CommandError,
                    >(Reply::Done) && final(self).registry@.names == reg.names.push(name@)
                }
            }),
            cmd matches Command::RemoveMap { admin, name } ==> ({
                let reg = old(self).registry@;
                &&& final(self).session@ == old(self).session@
                &&& final(self).ledger@ == old(self).ledger@
                &&& final(self).riot_ids@ == old(self).riot_ids@
                &&& final(self).registry@.bound == reg.bound
                &&& !old(self).admin_ok(admin) ==> r == Err::<Reply, CommandError>(
                    CommandError::Denied(Self::denial(admin)),
                ) && final(self).registry@ == reg
                &&& old(self).admin_ok(admin) ==> {
                    &&& !reg.names.contains(name@) ==> r == Err::<Reply, CommandError>(
                        CommandError::Registry(RegistryError::NotFound),
                    ) && final(self).registry@ == reg
                    &&& reg.names.contains(name@) ==> r == Ok::<Reply, CommandError>(Reply::Done)
                        && final(self).registry@.names == reg.names.remove_value(name@)
                }
            }),
            cmd matches Command::AddMatch { admin, team_one, team_two, note } ==> ({
                &&& final(self).session@ == old(self).session@
                &&& final(self).registry@ == old(self).registry@
                &&& final(self).riot_ids@ == old(self).riot_ids@
                &&& !old(self).admin_ok(admin) ==> r == Err::<Reply, CommandError>(
                    CommandError::Denied(Self::denial(admin)),
                ) && final(self).ledger@ == old(self).ledger@
                &&& old(self).admin_ok(admin) ==> {
                    &&& final(self).ledger@.len() == old(self).ledger@.len() + 1
                    &&& final(self).ledger@.subrange(0, old(self).ledger@.len() as int) == old(
                        self,
                    ).ledger@
                    &&& final(self).ledger@.last().team_one == team_one
                    &&& final(self).ledger@.last().team_two == team_two
                    &&& final(self).ledger@.last().note == note.deep_view()
                    &&& final(self).ledger@.last().state is Entered
                    &&& final(self).ledger@.last().schedule is None
                    &&& r == Ok::<Reply, CommandError>(
                        Reply::MatchAdded(old(self).ledger@.len() as usize),
                    )
                }
            }),
            cmd matches Command::ScheduleMatch { team, date_text, time_label } ==> ({
                let valid = date_text_shaped(date_text@) && date_in_range(
                    month_of(date_text@),
                    day_of(date_text@),
                );
                let d = MatchDate {
                    month: month_of(date_text@) as u8,
                    day: day_of(date_text@) as u8,
                    year: year_of(date_text@) as u16,
                };
                &&& final(self).session@ == old(self).session@
                &&& final(self).registry@ == old(self).registry@
                &&& final(self).riot_ids@ == old(self).riot_ids@
                &&& !valid ==> r == Err::<Reply, CommandError>(CommandError::InvalidDate)
                    && final(self).ledger@ == old(self).ledger@
                &&& valid ==> {
                    &&& team is None ==> r == Err::<Reply, CommandError>(
                        CommandError::Ledger(LedgerError::NoTeamRole),
                    ) && final(self).ledger@ == old(self).ledger@
                    &&& team matches Some(t) ==> ((forall|j: int|
                        0 <= j < old(self).ledger@.len() ==> !pending_for(
                            #[trigger] old(self).ledger@[j],
                            t,
                        )) ==> (r == Err::<Reply, CommandError>(
                        CommandError::Ledger(LedgerError::NoPendingMatch),
                    ) && final(self).ledger@ == old(self).ledger@))
                    &&& team matches Some(t) ==> ((exists|j: int|
                        0 <= j < old(self).ledger@.len() && pending_for(
                            #[trigger] old(self).ledger@[j],
                            t,
                        )) ==> (r matches Ok(rep) && rep matches Reply::MatchScheduled(i) && 0 <= (
                    i as int) < old(self).ledger@.len() && pending_for(old(self).ledger@[i as int], t)
                        && (forall|j: int|
                        0 <= j < i as int ==> !pending_for(#[trigger] old(self).ledger@[j], t))
                        && final(self).ledger@ == old(self).ledger@.update(
                        i as int,
                        with_schedule(old(self).ledger@[i as int], d, time_label@),
                    )))
                }
            }),
            cmd matches Command::SetRiotId { actor, riot_id } ==> ({
                &&& final(self).session@ == old(self).session@
                &&& final(self).registry@ == old(self).registry@
                &&& final(self).ledger@ == old(self).ledger@
                &&& has_game_tag(riot_id@) ==> r == Ok::<Reply, CommandError>(Reply::Done)
                    && final(self).riot_ids@ == old(self).riot_ids@.insert(actor, riot_id)
                &&& !has_game_tag(riot_id@) ==> r == Err::<Reply, CommandError>(
                    CommandError::InvalidRiotId,
                ) && final(self).riot_ids@ == old(self).riot_ids@
            }),
    {
        match cmd {
            Command::StartSetup { admin, players } => {
                match admin_check(self.admin_role, admin) {
                    AuthDecision::Denied(reason) => Err(CommandError::Denied(reason)),
                    AuthDecision::Allowed => {
                        match self.session.start_setup(players) {
                            Ok(_) => Ok(Reply::Done),
                            Err(e) => Err(CommandError::Session(e)),
                        }
                    },
                }
            },
            Command::ClaimCaptain { actor, slot } => {
                match self.session.claim_captain(actor, slot) {
                    Ok(_) => Ok(Reply::Done),
                    Err(e) => Err(CommandError::Session(e)),
                }
            },
            Command::PickPlayer { actor, target } => {
                let snap = self.registry.snapshot();
                match self.session.pick_player(actor, target, snap) {
                    Ok(_) => Ok(Reply::Done),
                    Err(e) => Err(CommandError::Session(e)),
                }
            },
            Command::VetoMap { actor, map_name } => {
                match self.session.veto_map(actor, &map_name) {
                    Ok(_) => Ok(Reply::Done),
                    Err(e) => Err(CommandError::Session(e)),
                }
            },
            Command::ChooseSide { actor, side } => {
                match self.session.choose_side(actor, side) {
                    Ok(_) => Ok(Reply::Done),
                    Err(e) => Err(CommandError::Session(e)),
                }
            },
            Command::Cancel { admin } => {
                match admin_check(self.admin_role, admin) {
                    AuthDecision::Denied(reason) => Err(CommandError::Denied(reason)),
                    AuthDecision::Allowed => {
                        match self.session.cancel() {
                            Ok(_) => Ok(Reply::Done),
                            Err(e) => Err(CommandError::Session(e)),
                        }
                    },
                }
            },
            Command::ReadyReset => {
                match self.session.ready_reset() {
                    Ok(_) => Ok(Reply::Done),
                    Err(e) => Err(CommandError::Session(e)),
                }
            },
            Command::AddMap { admin, name } => {
                match admin_check(self.admin_role, admin) {
                    AuthDecision::Denied(reason) => Err(CommandError::Denied(reason)),
                    AuthDecision::Allowed => {
                        match self.registry.add_map(name) {
                            Ok(_) => Ok(Reply::Done),
                            Err(e) => Err(CommandError::Registry(e)),
                        }
                    },
                }
            },
            Command::RemoveMap { admin, name } => {
                match admin_check(self.admin_role, admin) {
                    AuthDecision::Denied(reason) => Err(CommandError::Denied(reason)),
                    AuthDecision::Allowed => {
                        match self.registry.remove_map(&name) {
                            Ok(_) => Ok(Reply::Done),
                            Err(e) => Err(CommandError::Registry(e)),
                        }
                    },
                }
            },
            Command::AddMatch { admin, team_one, team_two, note } => {
                match admin_check(self.admin_role, admin) {
                    AuthDecision::Denied(reason) => Err(CommandError::Denied(reason)),
                    AuthDecision::Allowed => {
                        let at = self.ledger.add_match_now(team_one, team_two, note);
                        Ok(Reply::MatchAdded(at))
                    },
                }
            },
            Command::ScheduleMatch { team, date_text, time_label } => {
                match MatchDate::parse(date_text.as_str()) {
                    None => Err(CommandError::InvalidDate),
                    Some(d) => {
                        match self.ledger.schedule_match(team, d, time_label) {
                            Ok(i) => Ok(Reply::MatchScheduled(i)),
                            Err(e) => Err(CommandError::Ledger(e)),
                        }
                    },
                }
            },
            Command::SetRiotId { actor, riot_id } => {
                if self.riot_ids.set_riot_id(actor, riot_id) {
                    Ok(Reply::Done)
                } else {
                    Err(CommandError::InvalidRiotId)
                }
            },
        }
    }
}

} // verus!
