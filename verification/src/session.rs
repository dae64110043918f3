//! The session state machine: the single authoritative model of where the
//! match-setup ritual stands, who may act next, and what their action does.
//!
//! There is one live session per running coordinator.  Its phase advances
//! strictly along Idle → CaptainSelection → Draft → MapVeto → SidePick →
//! Complete → Idle; only an administrative cancel may jump back to Idle from
//! anywhere.  Each phase is a variant carrying exactly the fields that are
//! meaningful in it, so no illegal combination is representable.
//!
//! Every operation is specified against a ghost model ([`PhaseModel`]) and a
//! pure transition function; the executable code refines those transitions
//! exactly, and the laws about them live in the `laws` module.

use vstd::prelude::*;

verus! {

/// An actor (participant) identity, as the transport resolves it.
pub type ActorId = u64;

/// Starting side of the map, chosen by the deciding captain.
#[derive(Clone, Copy, PartialEq, Eq, Structural, Debug)]
pub enum Side {
    Attack,
    Defense,
}

/// Which captain slot a claim is for.
#[derive(Clone, Copy, PartialEq, Eq, Structural, Debug)]
pub enum CaptainSlot {
    SlotA,
    SlotB,
}

/// Protocol-violation errors: user-facing, non-fatal, and state-preserving.
#[derive(Clone, Copy, PartialEq, Eq, Structural, Debug)]
pub enum SessionError {
    /// The operation is not valid in the current phase.
    WrongPhase,
    /// Another actor's turn, or another captain's decision.
    NotYourTurn,
    /// The named player or map is not available for this action.
    InvalidTarget,
    /// The captain slot is already assigned.
    SlotTaken,
    /// Cancel was asked for while no setup is running.
    NothingToCancel,
}

/// The bare name of each phase, for observers and for the phase-order law.
#[derive(Clone, Copy, PartialEq, Eq, Structural, Debug)]
pub enum PhaseTag {
    Idle,
    CaptainSelection,
    Draft,
    MapVeto,
    SidePick,
    Complete,
}

/// One veto-log entry: which map was struck, and by whom.
pub struct Veto {
    pub map: String,
    pub vetoed_by: ActorId,
}

/// The final selection: the surviving map with its assigned starting sides.
pub struct SeriesPick {
    pub map: String,
    /// The captain whose veto turn would have come next when one map was
    /// left; the survivor is credited to them (a fixed convention).
    pub picked_by: ActorId,
    pub attack_start: ActorId,
    pub defense_start: ActorId,
}

/// Ghost mirror of a [`Veto`].
#[verifier::ext_equal]
pub ghost struct VetoModel {
    pub map: Seq<char>,
    pub vetoed_by: ActorId,
}

/// Ghost mirror of a [`SeriesPick`].
#[verifier::ext_equal]
pub ghost struct PickModel {
    pub map: Seq<char>,
    pub picked_by: ActorId,
    pub attack_start: ActorId,
    pub defense_start: ActorId,
}

/// Mathematical model of the session: one variant per phase, holding only
/// the fields that are meaningful while that phase is active.
#[verifier::ext_equal]
pub ghost enum PhaseModel {
    /// No setup is running.
    Idle,
    /// Captains are being claimed; `pool` is the ready queue of players.
    CaptainSelection { pool: Seq<ActorId>, captain_a: Option<ActorId>, captain_b: Option<ActorId> },
    /// Captains alternate picking players out of `pool` into their rosters.
    Draft {
        captain_a: ActorId,
        captain_b: ActorId,
        team_a: Seq<ActorId>,
        team_b: Seq<ActorId>,
        pool: Seq<ActorId>,
        current_picker: ActorId,
    },
    /// Captains alternate striking maps until one remains.
    MapVeto {
        captain_a: ActorId,
        captain_b: ActorId,
        team_a: Seq<ActorId>,
        team_b: Seq<ActorId>,
        maps_remaining: Seq<Seq<char>>,
        veto_log: Seq<VetoModel>,
        current_vetoer: ActorId,
    },
    /// One map survived the veto; captain B owes the side decision.
    SidePick {
        captain_a: ActorId,
        captain_b: ActorId,
        team_a: Seq<ActorId>,
        team_b: Seq<ActorId>,
        veto_log: Seq<VetoModel>,
        picked_map: Seq<char>,
    },
    /// The ritual is finished; the session awaits its automatic reset.
    Complete {
        captain_a: ActorId,
        captain_b: ActorId,
        team_a: Seq<ActorId>,
        team_b: Seq<ActorId>,
        veto_log: Seq<VetoModel>,
        picked: PickModel,
        side_choice: Side,
    },
}

/// No element occurs twice.
pub open spec fn distinct<T>(s: Seq<T>) -> bool {
    forall|i: int, j: int| 0 <= i < j < s.len() ==> s[i] != s[j]
}

/// No element of `a` occurs in `b`.
pub open spec fn disjoint<T>(a: Seq<T>, b: Seq<T>) -> bool {
    forall|i: int, j: int| 0 <= i < a.len() && 0 <= j < b.len() ==> a[i] != b[j]
}

/// Veto turns strictly alternate, captain A always striking first.
pub open spec fn alternating_log(log: Seq<VetoModel>, captain_a: ActorId, captain_b: ActorId) -> bool {
    forall|i: int|
        0 <= i < log.len() ==> log[i].vetoed_by == (if i % 2 == 0 {
            captain_a
        } else {
            captain_b
        })
}

/// The captain whose veto turn comes once `done` strikes have happened.
pub open spec fn vetoer_at(done: nat, captain_a: ActorId, captain_b: ActorId) -> ActorId {
    if done % 2 == 0 {
        captain_a
    } else {
        captain_b
    }
}

/// Shared shape of the two rosters from the draft onwards: each is led by
/// its captain, free of duplicates, and disjoint from the other.
pub open spec fn teams_wf(
    captain_a: ActorId,
    captain_b: ActorId,
    team_a: Seq<ActorId>,
    team_b: Seq<ActorId>,
) -> bool {
    &&& captain_a != captain_b
    &&& team_a.len() >= 1 && team_a[0] == captain_a
    &&& team_b.len() >= 1 && team_b[0] == captain_b
    &&& distinct(team_a)
    &&& distinct(team_b)
    &&& disjoint(team_a, team_b)
}

impl PhaseModel {
    /// The phase's name.
    pub open spec fn tag(self) -> PhaseTag {
        match self {
            PhaseModel::Idle => PhaseTag::Idle,
            PhaseModel::CaptainSelection { .. } => PhaseTag::CaptainSelection,
            PhaseModel::Draft { .. } => PhaseTag::Draft,
            PhaseModel::MapVeto { .. } => PhaseTag::MapVeto,
            PhaseModel::SidePick { .. } => PhaseTag::SidePick,
            PhaseModel::Complete { .. } => PhaseTag::Complete,
        }
    }

    /// Session invariant.  Constructors establish it and every operation
    /// preserves it; all laws assume it.
    pub open spec fn wf(self) -> bool {
        match self {
            PhaseModel::Idle => true,
            PhaseModel::CaptainSelection { pool, captain_a, captain_b } => {
                &&& distinct(pool)
                &&& !(captain_a is Some && captain_b is Some)
                &&& (captain_a matches Some(a) ==> !pool.contains(a))
                &&& (captain_b matches Some(b) ==> !pool.contains(b))
            },
            PhaseModel::Draft { captain_a, captain_b, team_a, team_b, pool, current_picker } => {
                &&& teams_wf(captain_a, captain_b, team_a, team_b)
                &&& current_picker == captain_a || current_picker == captain_b
                &&& distinct(pool)
                &&& disjoint(pool, team_a)
                &&& disjoint(pool, team_b)
            },
            PhaseModel::MapVeto {
                captain_a,
                captain_b,
                team_a,
                team_b,
                maps_remaining,
                veto_log,
                current_vetoer,
            } => {
                &&& teams_wf(captain_a, captain_b, team_a, team_b)
                &&& maps_remaining.len() >= 2
                &&& distinct(maps_remaining)
                &&& alternating_log(veto_log, captain_a, captain_b)
                &&& current_vetoer == vetoer_at(veto_log.len(), captain_a, captain_b)
            },
            PhaseModel::SidePick { captain_a, captain_b, team_a, team_b, veto_log, picked_map } => {
                &&& teams_wf(captain_a, captain_b, team_a, team_b)
                &&& veto_log.len() >= 1
                &&& alternating_log(veto_log, captain_a, captain_b)
            },
            PhaseModel::Complete {
                captain_a,
                captain_b,
                team_a,
                team_b,
                veto_log,
                picked,
                side_choice,
            } => {
                &&& teams_wf(captain_a, captain_b, team_a, team_b)
                &&& veto_log.len() >= 1
                &&& alternating_log(veto_log, captain_a, captain_b)
                &&& picked.picked_by == vetoer_at(veto_log.len(), captain_a, captain_b)
                &&& (side_choice is Attack ==> picked.attack_start == captain_b
                    && picked.defense_start == captain_a)
                &&& (side_choice is Defense ==> picked.defense_start == captain_b
                    && picked.attack_start == captain_a)
            },
        }
    }
}

// ---------------------------------------------------------------------------
// Transition functions.  Each is total: on a protocol violation it returns
// the state unchanged together with the error.
// ---------------------------------------------------------------------------

/// Begin the setup ritual with the given ready queue of players.
pub open spec fn start_setup_step(m: PhaseModel, players: Seq<ActorId>) -> (PhaseModel, Result<
    (),
    SessionError,
>) {
    if !(m is Idle) {
        (m, Err(SessionError::WrongPhase))
    } else {
        (
            PhaseModel::CaptainSelection { pool: players, captain_a: None, captain_b: None },
            Ok(()),
        )
    }
}

/// Claim a captain slot.  When the second slot fills, the draft begins:
/// rosters are seeded with their captains and captain A picks first.
pub open spec fn claim_captain_step(m: PhaseModel, actor: ActorId, slot: CaptainSlot) -> (
    PhaseModel,
    Result<(), SessionError>,
) {
    match m {
        PhaseModel::CaptainSelection { pool, captain_a, captain_b } => {
            let claimed = if slot is SlotA {
                captain_a
            } else {
                captain_b
            };
            let other = if slot is SlotA {
                captain_b
            } else {
                captain_a
            };
            if claimed is Some {
                (m, Err(SessionError::SlotTaken))
            } else if other == Some(actor) {
                (m, Err(SessionError::InvalidTarget))
            } else {
                let rest = pool.remove_value(actor);
                match other {
                    Some(o) => {
                        let a = if slot is SlotA {
                            actor
                        } else {
                            o
                        };
                        let b = if slot is SlotB {
                            actor
                        } else {
                            o
                        };
                        (
                            PhaseModel::Draft {
                                captain_a: a,
                                captain_b: b,
                                team_a: seq![a],
                                team_b: seq![b],
                                pool: rest,
                                current_picker: a,
                            },
                            Ok(()),
                        )
                    },
                    None => {
                        let ca = if slot is SlotA {
                            Some(actor)
                        } else {
                            captain_a
                        };
                        let cb = if slot is SlotB {
                            Some(actor)
                        } else {
                            captain_b
                        };
                        (
                            PhaseModel::CaptainSelection { pool: rest, captain_a: ca, captain_b: cb },
                            Ok(()),
                        )
                    },
                }
            }
        },
        _ => (m, Err(SessionError::WrongPhase)),
    }
}

/// The acting captain drafts `target` out of the pool onto their roster.
/// The turn alternates after every pick; when the pool empties the veto
/// begins on `map_pool` (the registry snapshot), captain A striking first.
pub open spec fn pick_player_step(
    m: PhaseModel,
    actor: ActorId,
    target: ActorId,
    map_pool: Seq<Seq<char>>,
) -> (PhaseModel, Result<(), SessionError>) {
    match m {
        PhaseModel::Draft { captain_a, captain_b, team_a, team_b, pool, current_picker } => {
            if actor != current_picker {
                (m, Err(SessionError::NotYourTurn))
            } else if !pool.contains(target) {
                (m, Err(SessionError::InvalidTarget))
            } else {
                let rest = pool.remove_value(target);
                let new_team_a = if actor == captain_a {
                    team_a.push(target)
                } else {
                    team_a
                };
                let new_team_b = if actor == captain_b {
                    team_b.push(target)
                } else {
                    team_b
                };
                if rest.len() == 0 {
                    (
                        PhaseModel::MapVeto {
                            captain_a,
                            captain_b,
                            team_a: new_team_a,
                            team_b: new_team_b,
                            maps_remaining: map_pool,
                            veto_log: Seq::empty(),
                            current_vetoer: captain_a,
                        },
                        Ok(()),
                    )
                } else {
                    (
                        PhaseModel::Draft {
                            captain_a,
                            captain_b,
                            team_a: new_team_a,
                            team_b: new_team_b,
                            pool: rest,
                            current_picker: if actor == captain_a {
                                captain_b
                            } else {
                                captain_a
                            },
                        },
                        Ok(()),
                    )
                }
            }
        },
        _ => (m, Err(SessionError::WrongPhase)),
    }
}

/// The acting captain strikes `name` from the remaining maps.  The turn
/// alternates; when exactly one map is left the veto ends and that map
/// becomes the picked map.
pub open spec fn veto_map_step(m: PhaseModel, actor: ActorId, name: Seq<char>) -> (
    PhaseModel,
    Result<(), SessionError>,
) {
    match m {
        PhaseModel::MapVeto {
            captain_a,
            captain_b,
            team_a,
            team_b,
            maps_remaining,
            veto_log,
            current_vetoer,
        } => {
            if actor != current_vetoer {
                (m, Err(SessionError::NotYourTurn))
            } else if !maps_remaining.contains(name) {
                (m, Err(SessionError::InvalidTarget))
            } else {
                let rest = maps_remaining.remove_value(name);
                let log = veto_log.push(VetoModel { map: name, vetoed_by: actor });
                if rest.len() == 1 {
                    (
                        PhaseModel::SidePick {
                            captain_a,
                            captain_b,
                            team_a,
                            team_b,
                            veto_log: log,
                            picked_map: rest[0],
                        },
                        Ok(()),
                    )
                } else {
                    (
                        PhaseModel::MapVeto {
                            captain_a,
                            captain_b,
                            team_a,
                            team_b,
                            maps_remaining: rest,
                            veto_log: log,
                            current_vetoer: vetoer_at(log.len(), captain_a, captain_b),
                        },
                        Ok(()),
                    )
                }
            }
        },
        _ => (m, Err(SessionError::WrongPhase)),
    }
}

/// Captain B chooses the side their team starts on; the ritual completes.
pub open spec fn choose_side_step(m: PhaseModel, actor: ActorId, side: Side) -> (
    PhaseModel,
    Result<(), SessionError>,
) {
    match m {
        PhaseModel::SidePick { captain_a, captain_b, team_a, team_b, veto_log, picked_map } => {
            if actor != captain_b {
                (m, Err(SessionError::NotYourTurn))
            } else {
                let picked = PickModel {
                    map: picked_map,
                    picked_by: vetoer_at(veto_log.len(), captain_a, captain_b),
                    attack_start: if side is Attack {
                        captain_b
                    } else {
                        captain_a
                    },
                    defense_start: if side is Defense {
                        captain_b
                    } else {
                        captain_a
                    },
                };
                (
                    PhaseModel::Complete {
                        captain_a,
                        captain_b,
                        team_a,
                        team_b,
                        veto_log,
                        picked,
                        side_choice: side,
                    },
                    Ok(()),
                )
            }
        },
        _ => (m, Err(SessionError::WrongPhase)),
    }
}

/// Administrative cancel: force-reset to the Idle defaults from any phase;
/// the only transition that may skip phases.
pub open spec fn cancel_step(m: PhaseModel) -> (PhaseModel, Result<(), SessionError>) {
    if m is Idle {
        (m, Err(SessionError::NothingToCancel))
    } else {
        (PhaseModel::Idle, Ok(()))
    }
}

/// The automatic reset after completion: same effect as a cancel, but only
/// valid once the ritual is complete.
pub open spec fn ready_reset_step(m: PhaseModel) -> (PhaseModel, Result<(), SessionError>) {
    if m is Complete {
        (PhaseModel::Idle, Ok(()))
    } else {
        (m, Err(SessionError::WrongPhase))
    }
}

// ---------------------------------------------------------------------------
// Readers over the model, shared by contracts, laws and observers.
// ---------------------------------------------------------------------------

/// The two captains, as far as they are known in the given phase.
pub open spec fn captains_of(m: PhaseModel) -> (Option<ActorId>, Option<ActorId>) {
    match m {
        PhaseModel::Idle => (None, None),
        PhaseModel::CaptainSelection { captain_a, captain_b, .. } => (captain_a, captain_b),
        PhaseModel::Draft { captain_a, captain_b, .. } => (Some(captain_a), Some(captain_b)),
        PhaseModel::MapVeto { captain_a, captain_b, .. } => (Some(captain_a), Some(captain_b)),
        PhaseModel::SidePick { captain_a, captain_b, .. } => (Some(captain_a), Some(captain_b)),
        PhaseModel::Complete { captain_a, captain_b, .. } => (Some(captain_a), Some(captain_b)),
    }
}

/// The veto log, empty in phases that have none.
pub open spec fn veto_log_of(m: PhaseModel) -> Seq<VetoModel> {
    match m {
        PhaseModel::MapVeto { veto_log, .. } => veto_log,
        PhaseModel::SidePick { veto_log, .. } => veto_log,
        PhaseModel::Complete { veto_log, .. } => veto_log,
        _ => Seq::empty(),
    }
}

/// The maps still open to veto, empty outside the veto phase.
pub open spec fn maps_remaining_of(m: PhaseModel) -> Seq<Seq<char>> {
    match m {
        PhaseModel::MapVeto { maps_remaining, .. } => maps_remaining,
        _ => Seq::empty(),
    }
}

/// The map that survived the veto, once one has.
pub open spec fn picked_map_of(m: PhaseModel) -> Option<Seq<char>> {
    match m {
        PhaseModel::SidePick { picked_map, .. } => Some(picked_map),
        PhaseModel::Complete { picked, .. } => Some(picked.map),
        _ => None,
    }
}

/// Whose turn it is to pick, only ever someone during the draft.
pub open spec fn current_picker_of(m: PhaseModel) -> Option<ActorId> {
    match m {
        PhaseModel::Draft { current_picker, .. } => Some(current_picker),
        _ => None,
    }
}

/// Whose turn it is to strike a map, only ever someone during the veto.
pub open spec fn current_vetoer_of(m: PhaseModel) -> Option<ActorId> {
    match m {
        PhaseModel::MapVeto { current_vetoer, .. } => Some(current_vetoer),
        _ => None,
    }
}

/// The two rosters, empty before the draft begins.
pub open spec fn teams_of(m: PhaseModel) -> (Seq<ActorId>, Seq<ActorId>) {
    match m {
        PhaseModel::Draft { team_a, team_b, .. } => (team_a, team_b),
        PhaseModel::MapVeto { team_a, team_b, .. } => (team_a, team_b),
        PhaseModel::SidePick { team_a, team_b, .. } => (team_a, team_b),
        PhaseModel::Complete { team_a, team_b, .. } => (team_a, team_b),
        _ => (Seq::empty(), Seq::empty()),
    }
}

/// The unassigned player pool, empty once the draft is over.
pub open spec fn pool_of(m: PhaseModel) -> Seq<ActorId> {
    match m {
        PhaseModel::CaptainSelection { pool, .. } => pool,
        PhaseModel::Draft { pool, .. } => pool,
        _ => Seq::empty(),
    }
}

/// The side captain B chose, once the ritual is complete.
pub open spec fn side_choice_of(m: PhaseModel) -> Option<Side> {
    match m {
        PhaseModel::Complete { side_choice, .. } => Some(side_choice),
        _ => None,
    }
}

/// The phase's immediate successor along the ritual.
pub open spec fn phase_succ(t: PhaseTag) -> PhaseTag {
    match t {
        PhaseTag::Idle => PhaseTag::CaptainSelection,
        PhaseTag::CaptainSelection => PhaseTag::Draft,
        PhaseTag::Draft => PhaseTag::MapVeto,
        PhaseTag::MapVeto => PhaseTag::SidePick,
        PhaseTag::SidePick => PhaseTag::Complete,
        PhaseTag::Complete => PhaseTag::Idle,
    }
}

/// What one operation may do to the phase: stay, advance one step along the
/// ritual, or jump back to Idle (cancel).
pub open spec fn phase_step_allowed(pre: PhaseTag, post: PhaseTag) -> bool {
    post == pre || post == phase_succ(pre) || post == PhaseTag::Idle
}

// ---------------------------------------------------------------------------
// Facts about removing a value from a duplicate-free sequence.
// ---------------------------------------------------------------------------

/// Removing the (sole) occurrence of `x` from a duplicate-free sequence
/// keeps it duplicate-free, drops `x`, and introduces nothing new.
pub proof fn lemma_remove_value_distinct<T>(s: Seq<T>, x: T)
    requires
        distinct(s),
    ensures
        distinct(s.remove_value(x)),
        !s.remove_value(x).contains(x),
        forall|y: T| s.remove_value(x).contains(y) ==> s.contains(y),
        s.contains(x) ==> s.remove_value(x).len() == s.len() - 1,
        !s.contains(x) ==> s.remove_value(x) == s,
{
    s.index_of_first_ensures(x);
    match s.index_of_first(x) {
        Some(i) => {
            s.remove_ensures(i);
            let r = s.remove(i);
            assert forall|a: int| 0 <= a < r.len() implies r[a] == (if a < i {
                s[a]
            } else {
                s[a + 1]
            }) by {}
            assert forall|a: int, b: int| 0 <= a < b < r.len() implies r[a] != r[b] by {
                let a2: int = if a < i {
                    a
                } else {
                    a + 1
                };
                let b2: int = if b < i {
                    b
                } else {
                    b + 1
                };
                assert(a2 < b2);
            }
            assert(!r.contains(x)) by {
                if r.contains(x) {
                    let k = choose|k: int| 0 <= k < r.len() && r[k] == x;
                    let k2: int = if k < i {
                        k
                    } else {
                        k + 1
                    };
                    assert(s[k2] == x);
                    assert(s[i] == x);
                    assert(k2 != i);
                }
            }
            assert forall|y: T| r.contains(y) implies s.contains(y) by {
                let k = choose|k: int| 0 <= k < r.len() && r[k] == y;
                let k2: int = if k < i {
                    k
                } else {
                    k + 1
                };
                assert(0 <= k2 < s.len() && s[k2] == y);
            }
        },
        None => {},
    }
}

/// Index of the first occurrence of `x`, as `Seq::index_of_first` sees it.
fn find_actor(v: &Vec<ActorId>, x: ActorId) -> (r: Option<usize>)
    ensures
        match r {
            Some(i) => i < v@.len() && v@[i as int] == x && v@.index_of_first(x) == Some(i as int),
            None => v@.index_of_first(x) is None,
        },
{
    let mut k: usize = 0;
    while k < v.len()
        invariant
            k <= v@.len(),
            forall|j: int| 0 <= j < k ==> v@[j] != x,
        decreases v@.len() - k,
    {
        if v[k] == x {
            proof {
                v@.index_of_first_ensures(x);
                assert(v@.contains(x)) by {
                    assert(v@[k as int] == x);
                }
                let i0 = v@.index_of_first(x)->Some_0;
                assert(i0 == k as int) by {
                    if i0 < k as int {
                        assert(v@[i0] == x);
                    }
                    if i0 > k as int {
                        assert(v@[k as int] != x);
                    }
                }
            }
            return Some(k);
        }
        k = k + 1;
    }
    proof {
        v@.index_of_first_ensures(x);
        assert(!v@.contains(x)) by {
            if v@.contains(x) {
                let w = choose|w: int| 0 <= w < v@.len() && v@[w] == x;
            }
        }
    }
    None
}

/// Index of the first occurrence of the string `x`, against the name
/// sequence `v.deep_view()`.
pub(crate) fn find_name(v: &Vec<String>, x: &String) -> (r: Option<usize>)
    ensures
        match r {
            Some(i) => i < v@.len() && v.deep_view()[i as int] == x@ && v.deep_view().index_of_first(
                x@,
            ) == Some(i as int),
            None => v.deep_view().index_of_first(x@) is None,
        },
{
    let mut k: usize = 0;
    while k < v.len()
        invariant
            k <= v@.len(),
            forall|j: int| 0 <= j < k ==> v.deep_view()[j] != x@,
        decreases v@.len() - k,
    {
        if v[k].eq(x) {
            proof {
                let dv = v.deep_view();
                dv.index_of_first_ensures(x@);
                assert(dv.contains(x@)) by {
                    assert(dv[k as int] == x@);
                }
                let i0 = dv.index_of_first(x@)->Some_0;
                assert(i0 == k as int) by {
                    if i0 < k as int {
                        assert(dv[i0] == x@);
                    }
                    if i0 > k as int {
                        assert(dv[k as int] != x@);
                    }
                }
            }
            return Some(k);
        }
        k = k + 1;
    }
    proof {
        let dv = v.deep_view();
        dv.index_of_first_ensures(x@);
        assert(!dv.contains(x@)) by {
            if dv.contains(x@) {
                let w = choose|w: int| 0 <= w < dv.len() && dv[w] == x@;
            }
        }
    }
    None
}

/// Claiming a slot preserves the session invariant.
pub proof fn lemma_claim_captain_wf(m: PhaseModel, actor: ActorId, slot: CaptainSlot)
    requires
        m.wf(),
    ensures
        claim_captain_step(m, actor, slot).0.wf(),
{
    match m {
        PhaseModel::CaptainSelection { pool, captain_a, captain_b } => {
            lemma_remove_value_distinct(pool, actor);
            let rest = pool.remove_value(actor);
            let other = if slot is SlotA {
                captain_b
            } else {
                captain_a
            };
            if let Some(o) = other {
                assert(!rest.contains(o));
                assert forall|i: int, j: int|
                    0 <= i < rest.len() && 0 <= j < 1 implies rest[i] != seq![actor][j] by {
                    assert(!rest.contains(actor));
                }
                assert forall|i: int, j: int|
                    0 <= i < rest.len() && 0 <= j < 1 implies rest[i] != seq![o][j] by {
                    assert(!rest.contains(o));
                }
            }
        },
        _ => {},
    }
}

/// An element of a sequence disjoint from another cannot occur there.
proof fn lemma_disjoint_not_contains<T>(a: Seq<T>, b: Seq<T>, x: T)
    requires
        disjoint(a, b),
        a.contains(x),
    ensures
        !b.contains(x),
{
    let w = choose|w: int| 0 <= w < a.len() && a[w] == x;
    assert forall|j: int| 0 <= j < b.len() implies b[j] != x by {
        assert(a[w] != b[j]);
    }
    if b.contains(x) {
        let j = choose|j: int| 0 <= j < b.len() && b[j] == x;
    }
}

/// A subsequence (by membership) stays disjoint from anything its superset
/// is disjoint from.
proof fn lemma_subset_disjoint<T>(sub: Seq<T>, sup: Seq<T>, other: Seq<T>)
    requires
        forall|y: T| sub.contains(y) ==> sup.contains(y),
        disjoint(sup, other),
    ensures
        disjoint(sub, other),
{
    assert forall|i: int, j: int|
        0 <= i < sub.len() && 0 <= j < other.len() implies sub[i] != other[j] by {
        assert(sub.contains(sub[i])) by {
            assert(0 <= i < sub.len() && sub[i] == sub[i]);
        }
        let w = choose|w: int| 0 <= w < sup.len() && sup[w] == sub[i];
        assert(sup[w] != other[j]);
    }
}

/// Appending a fresh element keeps a sequence duplicate-free.
pub(crate) proof fn lemma_distinct_push<T>(s: Seq<T>, x: T)
    requires
        distinct(s),
        !s.contains(x),
    ensures
        distinct(s.push(x)),
{
    assert forall|a: int, b: int| 0 <= a < b < s.push(x).len() implies s.push(x)[a] != s.push(x)[b] by {
        if b < s.len() {
        } else {
            assert(s.push(x)[b] == x);
            if s[a] == x {
                assert(s.contains(x)) by {
                    assert(0 <= a < s.len() && s[a] == x);
                }
            }
        }
    }
}

/// Appending to the right-hand side keeps disjointness when the new element
/// is absent from the left.
proof fn lemma_disjoint_push_right<T>(a: Seq<T>, b: Seq<T>, x: T)
    requires
        disjoint(a, b),
        !a.contains(x),
    ensures
        disjoint(a, b.push(x)),
{
    assert forall|i: int, j: int|
        0 <= i < a.len() && 0 <= j < b.push(x).len() implies a[i] != b.push(x)[j] by {
        if j < b.len() {
        } else {
            assert(b.push(x)[j] == x);
            if a[i] == x {
                assert(a.contains(x)) by {
                    assert(0 <= i < a.len() && a[i] == x);
                }
            }
        }
    }
}

/// Appending to the left-hand side keeps disjointness when the new element
/// is absent from the right.
proof fn lemma_disjoint_push_left<T>(a: Seq<T>, b: Seq<T>, x: T)
    requires
        disjoint(a, b),
        !b.contains(x),
    ensures
        disjoint(a.push(x), b),
{
    assert forall|i: int, j: int|
        0 <= i < a.push(x).len() && 0 <= j < b.len() implies a.push(x)[i] != b[j] by {
        if i < a.len() {
        } else {
            assert(a.push(x)[i] == x);
            if b[j] == x {
                assert(b.contains(x)) by {
                    assert(0 <= j < b.len() && b[j] == x);
                }
            }
        }
    }
}

/// Drafting a player preserves the session invariant, provided the registry
/// snapshot handed in for the veto is a valid pool (duplicate-free, at
/// least two maps) whenever this pick is the one that empties the queue.
pub proof fn lemma_pick_player_wf(
    m: PhaseModel,
    actor: ActorId,
    target: ActorId,
    map_pool: Seq<Seq<char>>,
)
    requires
        m.wf(),
        (m matches PhaseModel::Draft { pool, .. } && pool.len() == 1) ==> (distinct(map_pool)
            && map_pool.len() >= 2),
    ensures
        pick_player_step(m, actor, target, map_pool).0.wf(),
{
    match m {
        PhaseModel::Draft { captain_a, captain_b, team_a, team_b, pool, current_picker } => {
            if actor == current_picker && pool.contains(target) {
                lemma_remove_value_distinct(pool, target);
                let rest = pool.remove_value(target);
                lemma_disjoint_not_contains(pool, team_a, target);
                lemma_disjoint_not_contains(pool, team_b, target);
                if actor == captain_a {
                    lemma_distinct_push(team_a, target);
                    lemma_disjoint_push_left(team_a, team_b, target);
                    lemma_subset_disjoint(rest, pool, team_a);
                    lemma_subset_disjoint(rest, pool, team_b);
                    lemma_disjoint_push_right(rest, team_a, target);
                } else {
                    lemma_distinct_push(team_b, target);
                    lemma_disjoint_push_right(team_a, team_b, target);
                    lemma_subset_disjoint(rest, pool, team_a);
                    lemma_subset_disjoint(rest, pool, team_b);
                    lemma_disjoint_push_right(rest, team_b, target);
                }
            }
        },
        _ => {},
    }
}

/// Striking a map preserves the session invariant.
pub proof fn lemma_veto_map_wf(m: PhaseModel, actor: ActorId, name: Seq<char>)
    requires
        m.wf(),
    ensures
        veto_map_step(m, actor, name).0.wf(),
{
    match m {
        PhaseModel::MapVeto {
            captain_a,
            captain_b,
            team_a,
            team_b,
            maps_remaining,
            veto_log,
            current_vetoer,
        } => {
            if actor == current_vetoer && maps_remaining.contains(name) {
                lemma_remove_value_distinct(maps_remaining, name);
                let log = veto_log.push(VetoModel { map: name, vetoed_by: actor });
                assert forall|i: int|
                    0 <= i < log.len() implies log[i].vetoed_by == (if i % 2 == 0 {
                    captain_a
                } else {
                    captain_b
                }) by {
                    if i < veto_log.len() {
                        assert(log[i] == veto_log[i]);
                    } else {
                        assert(log[i].vetoed_by == actor);
                    }
                }
            }
        },
        _ => {},
    }
}

/// Choosing the side preserves the session invariant.
pub proof fn lemma_choose_side_wf(m: PhaseModel, actor: ActorId, side: Side)
    requires
        m.wf(),
    ensures
        choose_side_step(m, actor, side).0.wf(),
{
}

// ---------------------------------------------------------------------------
// Executable representation.
// ---------------------------------------------------------------------------

impl DeepView for Veto {
    type V = VetoModel;

    open spec fn deep_view(&self) -> VetoModel {
        VetoModel { map: self.map@, vetoed_by: self.vetoed_by }
    }
}

impl DeepView for SeriesPick {
    type V = PickModel;

    open spec fn deep_view(&self) -> PickModel {
        PickModel {
            map: self.map@,
            picked_by: self.picked_by,
            attack_start: self.attack_start,
            defense_start: self.defense_start,
        }
    }
}

/// Executable phase data; its view is the ghost [`PhaseModel`].
pub enum Phase {
    Idle,
    CaptainSelection { pool: Vec<ActorId>, captain_a: Option<ActorId>, captain_b: Option<ActorId> },
    Draft {
        captain_a: ActorId,
        captain_b: ActorId,
        team_a: Vec<ActorId>,
        team_b: Vec<ActorId>,
        pool: Vec<ActorId>,
        current_picker: ActorId,
    },
    MapVeto {
        captain_a: ActorId,
        captain_b: ActorId,
        team_a: Vec<ActorId>,
        team_b: Vec<ActorId>,
        maps_remaining: Vec<String>,
        veto_log: Vec<Veto>,
        current_vetoer: ActorId,
    },
    SidePick {
        captain_a: ActorId,
        captain_b: ActorId,
        team_a: Vec<ActorId>,
        team_b: Vec<ActorId>,
        veto_log: Vec<Veto>,
        picked_map: String,
    },
    Complete {
        captain_a: ActorId,
        captain_b: ActorId,
        team_a: Vec<ActorId>,
        team_b: Vec<ActorId>,
        veto_log: Vec<Veto>,
        picked: SeriesPick,
        side_choice: Side,
    },
}

impl View for Phase {
    type V = PhaseModel;

    open spec fn view(&self) -> PhaseModel {
        match self {
            Phase::Idle => PhaseModel::Idle,
            Phase::CaptainSelection { pool, captain_a, captain_b } => PhaseModel::CaptainSelection {
                pool: pool@,
                captain_a: *captain_a,
                captain_b: *captain_b,
            },
            Phase::Draft { captain_a, captain_b, team_a, team_b, pool, current_picker } => PhaseModel::Draft {
                captain_a: *captain_a,
                captain_b: *captain_b,
                team_a: team_a@,
                team_b: team_b@,
                pool: pool@,
                current_picker: *current_picker,
            },
            Phase::MapVeto {
                captain_a,
                captain_b,
                team_a,
                team_b,
                maps_remaining,
                veto_log,
                current_vetoer,
            } => PhaseModel::MapVeto {
                captain_a: *captain_a,
                captain_b: *captain_b,
                team_a: team_a@,
                team_b: team_b@,
                maps_remaining: maps_remaining.deep_view(),
                veto_log: veto_log.deep_view(),
                current_vetoer: *current_vetoer,
            },
            Phase::SidePick { captain_a, captain_b, team_a, team_b, veto_log, picked_map } => PhaseModel::SidePick {
                captain_a: *captain_a,
                captain_b: *captain_b,
                team_a: team_a@,
                team_b: team_b@,
                veto_log: veto_log.deep_view(),
                picked_map: picked_map@,
            },
            Phase::Complete {
                captain_a,
                captain_b,
                team_a,
                team_b,
                veto_log,
                picked,
                side_choice,
            } => PhaseModel::Complete {
                captain_a: *captain_a,
                captain_b: *captain_b,
                team_a: team_a@,
                team_b: team_b@,
                veto_log: veto_log.deep_view(),
                picked: picked.deep_view(),
                side_choice: *side_choice,
            },
        }
    }
}

/// The singleton live session.  It is never destroyed: completion or an
/// administrative cancel reinitialize it to the Idle defaults.
pub struct Session {
    phase: Phase,
}

impl View for Session {
    type V = PhaseModel;

    closed spec fn view(&self) -> PhaseModel {
        self.phase@
    }
}

impl Session {
    /// A fresh session, in the Idle defaults.
    pub fn new() -> (s: Session)
        ensures
            s@ == PhaseModel::Idle,
            s@.wf(),
    {
        Session { phase: Phase::Idle }
    }

    /// Begin the setup ritual.  `players` is the ready queue (a set: no
    /// duplicate identities).  Administrative gating happens at dispatch.
    pub fn start_setup(&mut self, players: Vec<ActorId>) -> (r: Result<(), SessionError>)
        requires
            old(self)@.wf(),
            distinct(players@),
        ensures
            final(self)@ == start_setup_step(old(self)@, players@).0,
            r == start_setup_step(old(self)@, players@).1,
            final(self)@.wf(),
            phase_step_allowed(old(self)@.tag(), final(self)@.tag()),
            r is Err ==> final(self)@ == old(self)@,
    {
        match &self.phase {
            Phase::Idle => {
                self.phase = Phase::CaptainSelection {
                    pool: players,
                    captain_a: None,
                    captain_b: None,
                };
                Ok(())
            },
            _ => Err(SessionError::WrongPhase),
        }
    }

    /// Claim a captain slot.  The slot must be free, and one actor cannot
    /// hold both slots.  When the second slot fills, the draft begins with
    /// captain A picking first.
    pub fn claim_captain(&mut self, actor: ActorId, slot: CaptainSlot) -> (r: Result<
        (),
        SessionError,
    >)
        requires
            old(self)@.wf(),
        ensures
            final(self)@ == claim_captain_step(old(self)@, actor, slot).0,
            r == claim_captain_step(old(self)@, actor, slot).1,
            final(self)@.wf(),
            phase_step_allowed(old(self)@.tag(), final(self)@.tag()),
            r is Err ==> final(self)@ == old(self)@,
    {
        let mut ph = Phase::Idle;
        core::mem::swap(&mut ph, &mut self.phase);
        match ph {
            Phase::CaptainSelection { mut pool, captain_a, captain_b } => {
                let slot_a = slot == CaptainSlot::SlotA;
                let claimed = if slot_a {
                    captain_a
                } else {
                    captain_b
                };
                let other = if slot_a {
                    captain_b
                } else {
                    captain_a
                };
                if claimed.is_some() {
                    self.phase = Phase::CaptainSelection { pool, captain_a, captain_b };
                    return Err(SessionError::SlotTaken);
                }
                let other_is_actor = match other {
                    Some(o) => o == actor,
                    None => false,
                };
                if other_is_actor {
                    self.phase = Phase::CaptainSelection { pool, captain_a, captain_b };
                    return Err(SessionError::InvalidTarget);
                }
                if let Some(i) = find_actor(&pool, actor) {
                    pool.remove(i);
                }
                proof {
                    lemma_claim_captain_wf(old(self)@, actor, slot);
                }
                match other {
                    Some(o) => {
                        let a = if slot_a {
                            actor
                        } else {
                            o
                        };
                        let b = if slot_a {
                            o
                        } else {
                            actor
                        };
                        let mut team_a: Vec<ActorId> = Vec::new();
                        team_a.push(a);
                        let mut team_b: Vec<ActorId> = Vec::new();
                        team_b.push(b);
                        proof {
                            assert(team_a@ =~= seq![a]);
                            assert(team_b@ =~= seq![b]);
                        }
                        self.phase = Phase::Draft {
                            captain_a: a,
                            captain_b: b,
                            team_a,
                            team_b,
                            pool,
                            current_picker: a,
                        };
                    },
                    None => {
                        let ca = if slot_a {
                            Some(actor)
                        } else {
                            captain_a
                        };
                        let cb = if slot_a {
                            captain_b
                        } else {
                            Some(actor)
                        };
                        self.phase = Phase::CaptainSelection { pool, captain_a: ca, captain_b: cb };
                    },
                }
                Ok(())
            },
            rest => {
                self.phase = rest;
                Err(SessionError::WrongPhase)
            },
        }
    }

    /// The acting captain drafts `target` from the unassigned pool onto
    /// their roster; the turn then passes to the other captain.  The pick
    /// that empties the pool starts the map veto on `map_pool`, the registry
    /// snapshot taken by the caller, which must then hold at least two
    /// distinct maps for the veto ritual to be meaningful.
    pub fn pick_player(&mut self, actor: ActorId, target: ActorId, map_pool: Vec<String>) -> (r:
        Result<(), SessionError>)
        requires
            old(self)@.wf(),
            (old(self)@ matches PhaseModel::Draft { pool, .. } && pool.len() == 1) ==> (distinct(
                map_pool.deep_view(),
            ) && map_pool.deep_view().len() >= 2),
        ensures
            final(self)@ == pick_player_step(old(self)@, actor, target, map_pool.deep_view()).0,
            r == pick_player_step(old(self)@, actor, target, map_pool.deep_view()).1,
            final(self)@.wf(),
            phase_step_allowed(old(self)@.tag(), final(self)@.tag()),
            r is Err ==> final(self)@ == old(self)@,
    {
        let mut ph = Phase::Idle;
        core::mem::swap(&mut ph, &mut self.phase);
        match ph {
            Phase::Draft { captain_a, captain_b, mut team_a, mut team_b, mut pool, current_picker } => {
                if actor != current_picker {
                    self.phase = Phase::Draft {
                        captain_a,
                        captain_b,
                        team_a,
                        team_b,
                        pool,
                        current_picker,
                    };
                    return Err(SessionError::NotYourTurn);
                }
                let found = find_actor(&pool, target);
                match found {
                    None => {
                        proof {
                            pool@.index_of_first_ensures(target);
                        }
                        self.phase = Phase::Draft {
                            captain_a,
                            captain_b,
                            team_a,
                            team_b,
                            pool,
                            current_picker,
                        };
                        Err(SessionError::InvalidTarget)
                    },
                    Some(i) => {
                        proof {
                            pool@.index_of_first_ensures(target);
                            lemma_pick_player_wf(old(self)@, actor, target, map_pool.deep_view());
                        }
                        pool.remove(i);
                        if actor == captain_a {
                            team_a.push(target);
                        } else {
                            team_b.push(target);
                        }
                        if pool.len() == 0 {
                            let veto_log: Vec<Veto> = Vec::new();
                            proof {
                                assert(veto_log.deep_view() =~= Seq::<VetoModel>::empty());
                            }
                            self.phase = Phase::MapVeto {
                                captain_a,
                                captain_b,
                                team_a,
                                team_b,
                                maps_remaining: map_pool,
                                veto_log,
                                current_vetoer: captain_a,
                            };
                        } else {
                            let next = if actor == captain_a {
                                captain_b
                            } else {
                                captain_a
                            };
                            self.phase = Phase::Draft {
                                captain_a,
                                captain_b,
                                team_a,
                                team_b,
                                pool,
                                current_picker: next,
                            };
                        }
                        Ok(())
                    },
                }
            },
            rest => {
                self.phase = rest;
                Err(SessionError::WrongPhase)
            },
        }
    }

    /// The acting captain strikes `name` from the remaining maps and the
    /// veto turn alternates.  The strike that leaves exactly one map ends
    /// the veto: that map is the picked map and the side decision is owed.
    pub fn veto_map(&mut self, actor: ActorId, name: &String) -> (r: Result<(), SessionError>)
        requires
            old(self)@.wf(),
        ensures
            final(self)@ == veto_map_step(old(self)@, actor, name@).0,
            r == veto_map_step(old(self)@, actor, name@).1,
            final(self)@.wf(),
            phase_step_allowed(old(self)@.tag(), final(self)@.tag()),
            r is Err ==> final(self)@ == old(self)@,
    {
        let mut ph = Phase::Idle;
        core::mem::swap(&mut ph, &mut self.phase);
        match ph {
            Phase::MapVeto {
                captain_a,
                captain_b,
                team_a,
                team_b,
                mut maps_remaining,
                mut veto_log,
                current_vetoer,
            } => {
                if actor != current_vetoer {
                    self.phase = Phase::MapVeto {
                        captain_a,
                        captain_b,
                        team_a,
                        team_b,
                        maps_remaining,
                        veto_log,
                        current_vetoer,
                    };
                    return Err(SessionError::NotYourTurn);
                }
                match find_name(&maps_remaining, name) {
                    None => {
                        proof {
                            maps_remaining.deep_view().index_of_first_ensures(name@);
                        }
                        self.phase = Phase::MapVeto {
                            captain_a,
                            captain_b,
                            team_a,
                            team_b,
                            maps_remaining,
                            veto_log,
                            current_vetoer,
                        };
                        Err(SessionError::InvalidTarget)
                    },
                    Some(i) => {
                        let ghost old_names = maps_remaining.deep_view();
                        let ghost old_strs = maps_remaining@;
                        let ghost old_log = veto_log.deep_view();
                        proof {
                            old_names.index_of_first_ensures(name@);
                            lemma_veto_map_wf(old(self)@, actor, name@);
                        }
                        let removed = maps_remaining.remove(i);
                        proof {
                            old_strs.remove_ensures(i as int);
                            old_names.remove_ensures(i as int);
                            assert(maps_remaining.deep_view() =~= old_names.remove(i as int));
                        }
                        veto_log.push(Veto { map: removed, vetoed_by: actor });
                        proof {
                            assert(veto_log.deep_view() =~= old_log.push(
                                VetoModel { map: name@, vetoed_by: actor },
                            ));
                        }
                        if maps_remaining.len() == 1 {
                            let picked_map = maps_remaining.remove(0);
                            self.phase = Phase::SidePick {
                                captain_a,
                                captain_b,
                                team_a,
                                team_b,
                                veto_log,
                                picked_map,
                            };
                        } else {
                            let next = if veto_log.len() % 2 == 0 {
                                captain_a
                            } else {
                                captain_b
                            };
                            self.phase = Phase::MapVeto {
                                captain_a,
                                captain_b,
                                team_a,
                                team_b,
                                maps_remaining,
                                veto_log,
                                current_vetoer: next,
                            };
                        }
                        Ok(())
                    },
                }
            },
            rest => {
                self.phase = rest;
                Err(SessionError::WrongPhase)
            },
        }
    }

    /// Captain B — by fixed convention the deciding captain — chooses the
    /// side their team starts on, and the ritual completes.
    pub fn choose_side(&mut self, actor: ActorId, side: Side) -> (r: Result<(), SessionError>)
        requires
            old(self)@.wf(),
        ensures
            final(self)@ == choose_side_step(old(self)@, actor, side).0,
            r == choose_side_step(old(self)@, actor, side).1,
            final(self)@.wf(),
            phase_step_allowed(old(self)@.tag(), final(self)@.tag()),
            r is Err ==> final(self)@ == old(self)@,
    {
        let mut ph = Phase::Idle;
        core::mem::swap(&mut ph, &mut self.phase);
        match ph {
            Phase::SidePick { captain_a, captain_b, team_a, team_b, veto_log, picked_map } => {
                if actor != captain_b {
                    self.phase = Phase::SidePick {
                        captain_a,
                        captain_b,
                        team_a,
                        team_b,
                        veto_log,
                        picked_map,
                    };
                    return Err(SessionError::NotYourTurn);
                }
                proof {
                    lemma_choose_side_wf(old(self)@, actor, side);
                }
                let picked_by = if veto_log.len() % 2 == 0 {
                    captain_a
                } else {
                    captain_b
                };
                let attack_start = if side == Side::Attack {
                    captain_b
                } else {
                    captain_a
                };
                let defense_start = if side == Side::Defense {
                    captain_b
                } else {
                    captain_a
                };
                self.phase = Phase::Complete {
                    captain_a,
                    captain_b,
                    team_a,
                    team_b,
                    veto_log,
                    picked: SeriesPick { map: picked_map, picked_by, attack_start, defense_start },
                    side_choice: side,
                };
                Ok(())
            },
            rest => {
                self.phase = rest;
                Err(SessionError::WrongPhase)
            },
        }
    }

    /// The current phase's name.
    pub fn phase_tag(&self) -> (t: PhaseTag)
        ensures
            t == self@.tag(),
    {
        match &self.phase {
            Phase::Idle => PhaseTag::Idle,
            Phase::CaptainSelection { .. } => PhaseTag::CaptainSelection,
            Phase::Draft { .. } => PhaseTag::Draft,
            Phase::MapVeto { .. } => PhaseTag::MapVeto,
            Phase::SidePick { .. } => PhaseTag::SidePick,
            Phase::Complete { .. } => PhaseTag::Complete,
        }
    }

    /// The two captains, as far as they are known.
    pub fn captains(&self) -> (r: (Option<ActorId>, Option<ActorId>))
        ensures
            r == captains_of(self@),
    {
        match &self.phase {
            Phase::Idle => (None, None),
            Phase::CaptainSelection { captain_a, captain_b, .. } => (*captain_a, *captain_b),
            Phase::Draft { captain_a, captain_b, .. } => (Some(*captain_a), Some(*captain_b)),
            Phase::MapVeto { captain_a, captain_b, .. } => (Some(*captain_a), Some(*captain_b)),
            Phase::SidePick { captain_a, captain_b, .. } => (Some(*captain_a), Some(*captain_b)),
            Phase::Complete { captain_a, captain_b, .. } => (Some(*captain_a), Some(*captain_b)),
        }
    }

    /// Whose draft turn it is, during the draft.
    pub fn current_picker(&self) -> (r: Option<ActorId>)
        ensures
            r == current_picker_of(self@),
    {
        match &self.phase {
            Phase::Draft { current_picker, .. } => Some(*current_picker),
            _ => None,
        }
    }

    /// Whose veto turn it is, during the veto.
    pub fn current_vetoer(&self) -> (r: Option<ActorId>)
        ensures
            r == current_vetoer_of(self@),
    {
        match &self.phase {
            Phase::MapVeto { current_vetoer, .. } => Some(*current_vetoer),
            _ => None,
        }
    }

    /// The unassigned player pool, while one exists.
    pub fn pool(&self) -> (r: Option<&Vec<ActorId>>)
        ensures
            match r {
                Some(v) => v@ == pool_of(self@) && (self@ is CaptainSelection || self@ is Draft),
                None => !(self@ is CaptainSelection || self@ is Draft),
            },
    {
        match &self.phase {
            Phase::CaptainSelection { pool, .. } => Some(pool),
            Phase::Draft { pool, .. } => Some(pool),
            _ => None,
        }
    }

    /// The two rosters, once the draft has begun.
    pub fn teams(&self) -> (r: Option<(&Vec<ActorId>, &Vec<ActorId>)>)
        ensures
            match r {
                Some(t) => !(self@ is Idle || self@ is CaptainSelection) && t.0@ == teams_of(
                    self@,
                ).0 && t.1@ == teams_of(self@).1,
                None => self@ is Idle || self@ is CaptainSelection,
            },
    {
        match &self.phase {
            Phase::Idle => None,
            Phase::CaptainSelection { .. } => None,
            Phase::Draft { team_a, team_b, .. } => Some((team_a, team_b)),
            Phase::MapVeto { team_a, team_b, .. } => Some((team_a, team_b)),
            Phase::SidePick { team_a, team_b, .. } => Some((team_a, team_b)),
            Phase::Complete { team_a, team_b, .. } => Some((team_a, team_b)),
        }
    }

    /// The maps still open to veto, during the veto.
    pub fn maps_remaining(&self) -> (r: Option<&Vec<String>>)
        ensures
            match r {
                Some(v) => self@ is MapVeto && v.deep_view() == maps_remaining_of(self@),
                None => !(self@ is MapVeto),
            },
    {
        match &self.phase {
            Phase::MapVeto { maps_remaining, .. } => Some(maps_remaining),
            _ => None,
        }
    }

    /// The veto log, in the phases that carry one.
    pub fn veto_log(&self) -> (r: Option<&Vec<Veto>>)
        ensures
            match r {
                Some(v) => v.deep_view() == veto_log_of(self@) && (self@ is MapVeto
                    || self@ is SidePick || self@ is Complete),
                None => !(self@ is MapVeto || self@ is SidePick || self@ is Complete),
            },
    {
        match &self.phase {
            Phase::MapVeto { veto_log, .. } => Some(veto_log),
            Phase::SidePick { veto_log, .. } => Some(veto_log),
            Phase::Complete { veto_log, .. } => Some(veto_log),
            _ => None,
        }
    }

    /// The map that survived the veto, once one has.
    pub fn picked_map(&self) -> (r: Option<&String>)
        ensures
            match r {
                Some(s) => picked_map_of(self@) == Some(s@),
                None => picked_map_of(self@) is None,
            },
    {
        match &self.phase {
            Phase::SidePick { picked_map, .. } => Some(picked_map),
            Phase::Complete { picked, .. } => Some(&picked.map),
            _ => None,
        }
    }

    /// The final selection with its starting sides, once complete.
    pub fn series_pick(&self) -> (r: Option<&SeriesPick>)
        ensures
            match r {
                Some(p) => self@ matches PhaseModel::Complete { picked, .. } && p.deep_view()
                    == picked,
                None => !(self@ is Complete),
            },
    {
        match &self.phase {
            Phase::Complete { picked, .. } => Some(picked),
            _ => None,
        }
    }

    /// The side captain B chose, once complete.
    pub fn side_choice(&self) -> (r: Option<Side>)
        ensures
            r == side_choice_of(self@),
    {
        match &self.phase {
            Phase::Complete { side_choice, .. } => Some(*side_choice),
            _ => None,
        }
    }

    /// Administrative cancel: force-reset to Idle from any phase; fails only
    /// when no setup is running.
    pub fn cancel(&mut self) -> (r: Result<(), SessionError>)
        requires
            old(self)@.wf(),
        ensures
            final(self)@ == cancel_step(old(self)@).0,
            r == cancel_step(old(self)@).1,
            final(self)@.wf(),
            phase_step_allowed(old(self)@.tag(), final(self)@.tag()),
            r is Err ==> final(self)@ == old(self)@,
    {
        match &self.phase {
            Phase::Idle => Err(SessionError::NothingToCancel),
            _ => {
                self.phase = Phase::Idle;
                Ok(())
            },
        }
    }

    /// The automatic reset after completion: the same reinitialization as a
    /// cancel, owed as soon as the ritual is complete.
    pub fn ready_reset(&mut self) -> (r: Result<(), SessionError>)
        requires
            old(self)@.wf(),
        ensures
            final(self)@ == ready_reset_step(old(self)@).0,
            r == ready_reset_step(old(self)@).1,
            final(self)@.wf(),
            phase_step_allowed(old(self)@.tag(), final(self)@.tag()),
            r is Err ==> final(self)@ == old(self)@,
    {
        match &self.phase {
            Phase::Complete { .. } => {
                self.phase = Phase::Idle;
                Ok(())
            },
            _ => Err(SessionError::WrongPhase),
        }
    }
}

} // verus!
