//! The laws of the session state machine, stated over the ghost model and
//! proved once and for all: phase ordering, veto alternation, veto progress,
//! reset idempotence, and preservation of the session invariant.

use vstd::prelude::*;

use crate::session::{
    alternating_log, cancel_step, captains_of, choose_side_step, claim_captain_step, distinct,
    lemma_choose_side_wf, lemma_claim_captain_wf, lemma_pick_player_wf, lemma_remove_value_distinct,
    lemma_veto_map_wf, maps_remaining_of, phase_step_allowed, pick_player_step, picked_map_of,
    ready_reset_step, start_setup_step, teams_of, veto_log_of, veto_map_step, ActorId, CaptainSlot,
    PhaseModel, PhaseTag, SessionError, Side,
};

verus! {

/// One operation of the session state machine, with its inputs.
pub ghost enum SessionOp {
    StartSetup { players: Seq<ActorId> },
    ClaimCaptain { actor: ActorId, slot: CaptainSlot },
    PickPlayer { actor: ActorId, target: ActorId, map_pool: Seq<Seq<char>> },
    VetoMap { actor: ActorId, name: Seq<char> },
    ChooseSide { actor: ActorId, side: Side },
    Cancel,
    ReadyReset,
}

/// What each operation asks of its inputs — exactly what the corresponding
/// executable operation's `requires` asks.
pub open spec fn op_valid(m: PhaseModel, op: SessionOp) -> bool {
    match op {
        SessionOp::StartSetup { players } => distinct(players),
        SessionOp::PickPlayer { map_pool, .. } => (m matches PhaseModel::Draft { pool, .. }
            && pool.len() == 1) ==> (distinct(map_pool) && map_pool.len() >= 2),
        _ => true,
    }
}

/// The whole machine as a single transition function.
pub open spec fn session_step(m: PhaseModel, op: SessionOp) -> (PhaseModel, Result<
    (),
    SessionError,
>) {
    match op {
        SessionOp::StartSetup { players } => start_setup_step(m, players),
        SessionOp::ClaimCaptain { actor, slot } => claim_captain_step(m, actor, slot),
        SessionOp::PickPlayer { actor, target, map_pool } => pick_player_step(
            m,
            actor,
            target,
            map_pool,
        ),
        SessionOp::VetoMap { actor, name } => veto_map_step(m, actor, name),
        SessionOp::ChooseSide { actor, side } => choose_side_step(m, actor, side),
        SessionOp::Cancel => cancel_step(m),
        SessionOp::ReadyReset => ready_reset_step(m),
    }
}

/// Under any sequence of operations the phase only ever stays where it is,
/// advances one step along Idle → CaptainSelection → Draft → MapVeto →
/// SidePick → Complete → Idle, or jumps back to Idle; no phase is skipped
/// except by the jump that cancel and the automatic reset perform.
pub proof fn lemma_phase_order(m: PhaseModel, op: SessionOp)
    ensures
        phase_step_allowed(m.tag(), session_step(m, op).0.tag()),
{
}

/// Every operation preserves the session invariant, so every state reachable
/// from the Idle defaults through valid operations is well-formed.
pub proof fn lemma_step_preserves_wf(m: PhaseModel, op: SessionOp)
    requires
        m.wf(),
        op_valid(m, op),
    ensures
        session_step(m, op).0.wf(),
{
    match op {
        SessionOp::StartSetup { .. } => {},
        SessionOp::ClaimCaptain { actor, slot } => {
            lemma_claim_captain_wf(m, actor, slot);
        },
        SessionOp::PickPlayer { actor, target, map_pool } => {
            lemma_pick_player_wf(m, actor, target, map_pool);
        },
        SessionOp::VetoMap { actor, name } => {
            lemma_veto_map_wf(m, actor, name);
        },
        SessionOp::ChooseSide { actor, side } => {
            lemma_choose_side_wf(m, actor, side);
        },
        SessionOp::Cancel => {},
        SessionOp::ReadyReset => {},
    }
}

/// The state a run of operations ends in, starting from `m`.
pub open spec fn run_ops(m: PhaseModel, ops: Seq<SessionOp>) -> PhaseModel
    decreases ops.len(),
{
    if ops.len() == 0 {
        m
    } else {
        run_ops(session_step(m, ops[0]).0, ops.subrange(1, ops.len() as int))
    }
}

/// Every operation of the run is valid at the state it meets.
pub open spec fn ops_valid(m: PhaseModel, ops: Seq<SessionOp>) -> bool
    decreases ops.len(),
{
    ops.len() == 0 || (op_valid(m, ops[0]) && ops_valid(
        session_step(m, ops[0]).0,
        ops.subrange(1, ops.len() as int),
    ))
}

/// Along any sequence of valid operations the session invariant holds at
/// every state the run reaches — so the per-step laws above speak about
/// every session that can actually arise.
pub proof fn lemma_run_preserves_wf(m: PhaseModel, ops: Seq<SessionOp>)
    requires
        m.wf(),
        ops_valid(m, ops),
    ensures
        run_ops(m, ops).wf(),
    decreases ops.len(),
{
    if ops.len() > 0 {
        lemma_step_preserves_wf(m, ops[0]);
        lemma_run_preserves_wf(session_step(m, ops[0]).0, ops.subrange(1, ops.len() as int));
    }
}

/// A rejected operation leaves the session exactly as it was.
pub proof fn lemma_error_preserves_state(m: PhaseModel, op: SessionOp)
    ensures
        session_step(m, op).1 is Err ==> session_step(m, op).0 == m,
{
}

/// In every well-formed session the veto log strictly alternates between
/// the two captains, captain A striking first: entry `i` belongs to captain
/// A exactly when `i` is even, and no captain ever strikes twice in a row.
pub proof fn lemma_veto_alternation(m: PhaseModel)
    requires
        m.wf(),
    ensures
        forall|i: int|
            0 <= i < veto_log_of(m).len() ==> veto_log_of(m)[i].vetoed_by == (if i % 2 == 0 {
                captains_of(m).0.unwrap()
            } else {
                captains_of(m).1.unwrap()
            }),
        forall|i: int| #![trigger veto_log_of(m)[i]]
            0 <= i && i + 1 < veto_log_of(m).len() ==> veto_log_of(m)[i + 1].vetoed_by != veto_log_of(
                m,
            )[i].vetoed_by,
{
    let log = veto_log_of(m);
    if log.len() > 0 {
        let a = captains_of(m).0.unwrap();
        let b = captains_of(m).1.unwrap();
        assert(alternating_log(log, a, b));
        assert(a != b);
        assert forall|i: int| #![trigger log[i]] 0 <= i && i + 1 < log.len() implies log[i
            + 1].vetoed_by != log[i].vetoed_by by {
            assert((i + 1) % 2 != i % 2);
        }
    }
}

/// A successful veto removes exactly one map — the remaining count strictly
/// decreases by one and never below one — and the strike that would leave
/// exactly one map instead ends the veto: the survivor becomes the picked
/// map and the phase advances to the side decision.
pub proof fn lemma_veto_progress(m: PhaseModel, actor: ActorId, name: Seq<char>)
    requires
        m.wf(),
        veto_map_step(m, actor, name).1 is Ok,
    ensures
        maps_remaining_of(m).len() >= 2,
        maps_remaining_of(m).len() > 2 ==> veto_map_step(m, actor, name).0 is MapVeto
            && maps_remaining_of(veto_map_step(m, actor, name).0).len() == maps_remaining_of(
            m,
        ).len() - 1,
        maps_remaining_of(m).len() == 2 ==> veto_map_step(m, actor, name).0 is SidePick
            && picked_map_of(veto_map_step(m, actor, name).0) == Some(
            maps_remaining_of(m).remove_value(name)[0],
        ),
{
    match m {
        PhaseModel::MapVeto { maps_remaining, .. } => {
            lemma_remove_value_distinct(maps_remaining, name);
        },
        _ => {},
    }
}

/// From the draft onwards each captain leads their own roster and stands
/// on no other: no actor is ever a member of both teams.
pub proof fn lemma_captain_on_one_roster(m: PhaseModel)
    requires
        m.wf(),
        !(m is Idle || m is CaptainSelection),
    ensures
        teams_of(m).0.contains(captains_of(m).0.unwrap()),
        teams_of(m).1.contains(captains_of(m).1.unwrap()),
        forall|x: ActorId| !(teams_of(m).0.contains(x) && teams_of(m).1.contains(x)),
{
    let team_a = teams_of(m).0;
    let team_b = teams_of(m).1;
    assert(team_a.contains(captains_of(m).0.unwrap())) by {
        assert(team_a[0] == captains_of(m).0.unwrap());
    }
    assert(team_b.contains(captains_of(m).1.unwrap())) by {
        assert(team_b[0] == captains_of(m).1.unwrap());
    }
    assert forall|x: ActorId| !(team_a.contains(x) && team_b.contains(x)) by {
        if team_a.contains(x) && team_b.contains(x) {
            let i = choose|i: int| 0 <= i < team_a.len() && team_a[i] == x;
            let j = choose|j: int| 0 <= j < team_b.len() && team_b[j] == x;
            assert(team_a[i] != team_b[j]);
        }
    }
}

/// Cancel is idempotent in effect: a first cancel of a running session
/// yields exactly the Idle defaults, and a second cancel finds nothing to
/// cancel and changes nothing.
pub proof fn lemma_cancel_idempotent(m: PhaseModel)
    ensures
        !(m is Idle) ==> cancel_step(m) == (PhaseModel::Idle, Ok::<(), SessionError>(())),
        m is Idle ==> cancel_step(m).0 == m && cancel_step(m).1 == Err::<(), SessionError>(
            SessionError::NothingToCancel,
        ),
        cancel_step(m).1 is Ok ==> cancel_step(cancel_step(m).0).1 == Err::<(), SessionError>(
            SessionError::NothingToCancel,
        ),
{
}

} // verus!
