//! Game phase detection from build order events.
//!
//! Phases are bounded by tech landmarks in the build order rather than by
//! fixed times:
//!
//! - **Opening**: game start until the first tech-enabling structure.
//! - **Early game**: first tech structure through first tier-2 tech or expansion.
//! - **Mid game**: tier-2 tech or expansion through tier-3 tech.
//! - **Late game**: tier-3 tech onwards.
//!
//! Phases come in chronological order: a landmark that comes before the start
//! of the phase it would end (a tier-3 structure before any tier-2 one, say)
//! ends that phase where it starts.

use vstd::prelude::*;
use crate::analysis::{BuildAction, BuildOrderEntry};

verus! {

/// Phase of the game.
#[derive(Debug, Clone, Copy, PartialEq, Eq, Structural, Hash)]
pub enum Phase {
    Opening,
    EarlyGame,
    MidGame,
    LateGame,
}

/// The display name of a phase.
pub open spec fn phase_name(p: Phase) -> Seq<char> {
    match p {
        Phase::Opening => "Opening"@,
        Phase::EarlyGame => "Early Game"@,
        Phase::MidGame => "Mid Game"@,
        Phase::LateGame => "Late Game"@,
    }
}

impl Phase {
    /// The display name (e.g. "Early Game").
    pub fn name(self) -> (s: &'static str)
        ensures
            s@ == phase_name(self),
    {
        match self {
            Phase::Opening => "Opening",
            Phase::EarlyGame => "Early Game",
            Phase::MidGame => "Mid Game",
            Phase::LateGame => "Late Game",
        }
    }
}

/// A detected game phase: its first frame, and the frame where the next one
/// starts (none for a phase that lasts to the end).
#[derive(Debug, Clone, Copy, PartialEq, Eq, Structural)]
pub struct GamePhase {
    pub phase: Phase,
    pub start_frame: u32,
    pub end_frame: Option<u32>,
}

/// Tech landmarks used for phase detection.
#[derive(Debug, Clone, Copy, PartialEq, Eq, Structural)]
pub struct TechLandmarks {
    /// Frame of first gas structure (Refinery, Extractor, Assimilator).
    pub first_gas: Option<u32>,
    /// Frame of first tech-enabling structure (Barracks, Spawning Pool, Gateway, ...).
    pub first_tech: Option<u32>,
    /// Frame of first tier-2 tech (Factory, Lair, Stargate, ...).
    pub first_tier2: Option<u32>,
    /// Frame of first tier-3 tech (Science Facility, Hive, Fleet Beacon, ...).
    pub first_tier3: Option<u32>,
    /// Frame of first expansion (a player's second Command Center, Hatchery or
    /// Nexus).
    pub first_expansion: Option<u32>,
}

/// Full phase analysis result.
#[derive(Debug, Clone)]
pub struct PhaseAnalysis {
    /// Detected phases in chronological order (Opening, Early, Mid, Late).
    pub phases: Vec<GamePhase>,
    /// Tech landmarks that set the phase boundaries.
    pub landmarks: TechLandmarks,
}

/// Refinery, Extractor, Assimilator.
pub open spec fn gas_building(id: u16) -> bool {
    id == 110 || id == 149 || id == 157
}

/// The structures that make a new base: Command Center, Hatchery, Nexus.
pub open spec fn base_building(id: u16) -> bool {
    id == 106 || id == 131 || id == 154
}

/// Tier 1 tech: the first production or tech structures beyond base and supply.
pub open spec fn tier1_tech(id: u16) -> bool {
    id == 111 || id == 112 || id == 122 || id == 125 || id == 142 || id == 135 || id == 139 || id
        == 143 || id == 160 || id == 166 || id == 164
}

/// Tier 2 tech: structures that unlock advanced units.
pub open spec fn tier2_tech(id: u16) -> bool {
    id == 113 || id == 114 || id == 120 || id == 123 || id == 132 || id == 141 || id == 138 || id
        == 140 || id == 155 || id == 167 || id == 163 || id == 165 || id == 170
}

/// Tier 3 tech: the highest-tier structures.
pub open spec fn tier3_tech(id: u16) -> bool {
    id == 116 || id == 117 || id == 118 || id == 108 || id == 133 || id == 137 || id == 136 || id
        == 169 || id == 159 || id == 171
}

/// Refinery, Extractor, Assimilator.
fn is_gas_building(id: u16) -> (b: bool)
    ensures
        b == gas_building(id),
{
    id == 110 || id == 149 || id == 157
}

/// Command Center, Hatchery, Nexus: the structures that make a new base
/// (a Lair or Hive is a morph of an existing Hatchery).
fn is_base(id: u16) -> (b: bool)
    ensures
        b == base_building(id),
{
    id == 106 || id == 131 || id == 154
}

/// Tier 1 tech: Barracks, Academy, Engineering Bay, Bunker; Spawning Pool,
/// Hydralisk Den, Evolution Chamber, Creep Colony; Gateway, Forge,
/// Cybernetics Core.
fn is_tier1_tech(id: u16) -> (b: bool)
    ensures
        b == tier1_tech(id),
{
    id == 111 || id == 112 || id == 122 || id == 125 || id == 142 || id == 135 || id == 139 || id
        == 143 || id == 160 || id == 166 || id == 164
}

/// Tier 2 tech: Factory, Starport, Machine Shop, Armory; Lair, Spire, Queen's
/// Nest, Ultralisk Cavern; Robotics Facility, Stargate, Citadel of Adun,
/// Templar Archives, Arbiter Tribunal.
fn is_tier2_tech(id: u16) -> (b: bool)
    ensures
        b == tier2_tech(id),
{
    id == 113 || id == 114 || id == 120 || id == 123 || id == 132 || id == 141 || id == 138 || id
        == 140 || id == 155 || id == 167 || id == 163 || id == 165 || id == 170
}

/// Tier 3 tech: Science Facility, Covert Ops, Physics Lab, Nuclear Silo; Hive,
/// Greater Spire, Defiler Mound; Fleet Beacon, Observatory, Robotics Support Bay.
fn is_tier3_tech(id: u16) -> (b: bool)
    ensures
        b == tier3_tech(id),
{
    id == 116 || id == 117 || id == 118 || id == 108 || id == 133 || id == 137 || id == 136 || id
        == 169 || id == 159 || id == 171
}

/// The structure that an entry builds or morphs into, if it does.
pub open spec fn structure_of(e: BuildOrderEntry) -> Option<u16> {
    match e.action {
        BuildAction::Build(id) => Some(id),
        BuildAction::BuildingMorph(id) => Some(id),
        _ => None,
    }
}

/// The kinds of structure that make a landmark.
pub enum LandmarkKind {
    Gas,
    Tier1,
    Tier2,
    Tier3,
}

/// Whether an entry builds a structure of the given kind.
pub open spec fn builds(e: BuildOrderEntry, kind: LandmarkKind) -> bool {
    match structure_of(e) {
        Some(id) => match kind {
            LandmarkKind::Gas => gas_building(id),
            LandmarkKind::Tier1 => tier1_tech(id),
            LandmarkKind::Tier2 => tier2_tech(id),
            LandmarkKind::Tier3 => tier3_tech(id),
        },
        None => false,
    }
}

/// The frame of the first entry that builds a structure of the given kind.
pub open spec fn first_frame(bo: Seq<BuildOrderEntry>, kind: LandmarkKind) -> Option<u32>
    decreases bo.len(),
{
    if bo.len() == 0 {
        None
    } else {
        match first_frame(bo.drop_last(), kind) {
            Some(f) => Some(f),
            None => if builds(bo.last(), kind) {
                Some(bo.last().frame)
            } else {
                None
            },
        }
    }
}

/// The structure ids of each landmark kind, as a fixed table: the gas
/// structures; the tier-1 tech structures (Barracks, Academy, Engineering Bay,
/// Bunker, Spawning Pool, Hydralisk Den, Evolution Chamber, Creep Colony,
/// Gateway, Forge, Cybernetics Core); the tier-2 ones (Factory, Starport,
/// Machine Shop, Armory, Lair, Spire, Queen's Nest, Ultralisk Cavern, Robotics
/// Facility, Stargate, Citadel of Adun, Templar Archives, Arbiter Tribunal);
/// and the tier-3 ones (Science Facility, Covert Ops, Physics Lab, Nuclear
/// Silo, Hive, Greater Spire, Defiler Mound, Fleet Beacon, Observatory,
/// Robotics Support Bay).
pub open spec fn landmark_ids(kind: LandmarkKind) -> Set<u16> {
    match kind {
        LandmarkKind::Gas => set![110u16, 149u16, 157u16],
        LandmarkKind::Tier1 => set![
            111u16, 112u16, 122u16, 125u16, 142u16, 135u16, 139u16, 143u16, 160u16, 166u16, 164u16
        ],
        LandmarkKind::Tier2 => set![
            113u16, 114u16, 120u16, 123u16, 132u16, 141u16, 138u16, 140u16, 155u16, 167u16, 163u16,
            165u16, 170u16
        ],
        LandmarkKind::Tier3 => set![
            116u16, 117u16, 118u16, 108u16, 133u16, 137u16, 136u16, 169u16, 159u16, 171u16
        ],
    }
}

/// Whether an entry builds, or morphs a building into, one of `ids`.
pub open spec fn makes_one_of(e: BuildOrderEntry, ids: Set<u16>) -> bool {
    match e.action {
        BuildAction::Build(id) => ids.contains(id),
        BuildAction::BuildingMorph(id) => ids.contains(id),
        _ => false,
    }
}

/// Whether `f` is the frame of the first entry of `bo` that makes one of
/// `ids`, none meaning that no entry does.
pub open spec fn first_making(bo: Seq<BuildOrderEntry>, ids: Set<u16>, f: Option<u32>) -> bool {
    match f {
        None => forall|i: int| 0 <= i < bo.len() ==> !makes_one_of(#[trigger] bo[i], ids),
        Some(fr) => exists|i: int|
            0 <= i < bo.len() && makes_one_of(#[trigger] bo[i], ids) && bo[i].frame == fr && forall|
                j: int,
            | 0 <= j < i ==> !makes_one_of(#[trigger] bo[j], ids),
    }
}

proof fn lemma_builds_table(e: BuildOrderEntry, kind: LandmarkKind)
    ensures
        builds(e, kind) == makes_one_of(e, landmark_ids(kind)),
{
}

proof fn lemma_first_frame_table(bo: Seq<BuildOrderEntry>, kind: LandmarkKind)
    ensures
        first_making(bo, landmark_ids(kind), first_frame(bo, kind)),
    decreases bo.len(),
{
    let ids = landmark_ids(kind);
    if bo.len() > 0 {
        let p = bo.drop_last();
        let n = bo.len() - 1;
        lemma_first_frame_table(p, kind);
        lemma_builds_table(bo.last(), kind);
        assert forall|j: int| 0 <= j < n implies #[trigger] bo[j] == p[j] by {}
        match first_frame(p, kind) {
            Some(f) => {
                let i = choose|i: int|
                    0 <= i < p.len() && makes_one_of(#[trigger] p[i], ids) && p[i].frame == f
                        && forall|j: int| 0 <= j < i ==> !makes_one_of(#[trigger] p[j], ids);
                assert(bo[i] == p[i]);
                assert forall|j: int| 0 <= j < i implies !makes_one_of(#[trigger] bo[j], ids) by {
                    assert(bo[j] == p[j]);
                }
            },
            None => {
                if builds(bo.last(), kind) {
                    assert(bo[n] == bo.last());
                    assert forall|j: int| 0 <= j < n implies !makes_one_of(#[trigger] bo[j], ids) by {
                        assert(bo[j] == p[j]);
                    }
                } else {
                    assert forall|i: int| 0 <= i < bo.len() implies !makes_one_of(
                        #[trigger] bo[i],
                        ids,
                    ) by {
                        if i < n {
                            assert(bo[i] == p[i]);
                        }
                    }
                }
            },
        }
    }
}

/// The gas, tech, tier-2 and tier-3 landmarks are each the frame of the first
/// entry that builds, or morphs a building into, one of the structures of the
/// fixed table of its kind (a Hive, morphed from a Lair, counts as tier-3
/// tech), and none when no entry does.
pub proof fn lemma_landmark_frames(bo: Seq<BuildOrderEntry>)
    ensures
        first_making(bo, landmark_ids(LandmarkKind::Gas), landmarks_of(bo).first_gas),
        first_making(bo, landmark_ids(LandmarkKind::Tier1), landmarks_of(bo).first_tech),
        first_making(bo, landmark_ids(LandmarkKind::Tier2), landmarks_of(bo).first_tier2),
        first_making(bo, landmark_ids(LandmarkKind::Tier3), landmarks_of(bo).first_tier3),
{
    lemma_first_frame_table(bo, LandmarkKind::Gas);
    lemma_first_frame_table(bo, LandmarkKind::Tier1);
    lemma_first_frame_table(bo, LandmarkKind::Tier2);
    lemma_first_frame_table(bo, LandmarkKind::Tier3);
}

/// Whether an entry builds a base for player `p`.
pub open spec fn builds_base_for(e: BuildOrderEntry, p: int) -> bool {
    e.player_id == p && (structure_of(e) matches Some(id) && base_building(id))
}

/// The number of bases that player `p` builds in `bo`.
pub open spec fn bases_built(bo: Seq<BuildOrderEntry>, p: int) -> nat
    decreases bo.len(),
{
    if bo.len() == 0 {
        0
    } else {
        bases_built(bo.drop_last(), p) + if builds_base_for(bo.last(), p) {
            1nat
        } else {
            0nat
        }
    }
}

/// The frame of the first entry that builds some player's second base
/// (players 0 to 7 only).
pub open spec fn first_expansion(bo: Seq<BuildOrderEntry>) -> Option<u32>
    decreases bo.len(),
{
    if bo.len() == 0 {
        None
    } else {
        match first_expansion(bo.drop_last()) {
            Some(f) => Some(f),
            None => {
                let e = bo.last();
                if e.player_id < 8 && builds_base_for(e, e.player_id as int) && bases_built(
                    bo.drop_last(),
                    e.player_id as int,
                ) >= 1 {
                    Some(e.frame)
                } else {
                    None
                }
            },
        }
    }
}

/// The structures that make a new base, as a fixed table: Command Center,
/// Hatchery, Nexus.
pub open spec fn base_ids() -> Set<u16> {
    set![106u16, 131u16, 154u16]
}

/// Whether entry `i` of `bo` is a player's second base: one of players 0 to 7
/// builds a base there, having built one before.
pub open spec fn second_base_at(bo: Seq<BuildOrderEntry>, i: int) -> bool {
    &&& 0 <= i < bo.len()
    &&& bo[i].player_id < 8
    &&& makes_one_of(bo[i], base_ids())
    &&& exists|j: int|
        0 <= j < i && bo[j].player_id == bo[i].player_id && makes_one_of(#[trigger] bo[j], base_ids())
}

proof fn lemma_bases_built_some(bo: Seq<BuildOrderEntry>, p: int)
    ensures
        bases_built(bo, p) >= 1 <==> exists|j: int|
            0 <= j < bo.len() && bo[j].player_id == p && makes_one_of(#[trigger] bo[j], base_ids()),
    decreases bo.len(),
{
    if bo.len() > 0 {
        let q = bo.drop_last();
        lemma_bases_built_some(q, p);
        if bases_built(q, p) >= 1 {
            let j = choose|j: int|
                0 <= j < q.len() && q[j].player_id == p && makes_one_of(#[trigger] q[j], base_ids());
            assert(bo[j] == q[j]);
        }
        if exists|j: int|
            0 <= j < bo.len() && bo[j].player_id == p && makes_one_of(#[trigger] bo[j], base_ids()) {
            let j = choose|j: int|
                0 <= j < bo.len() && bo[j].player_id == p && makes_one_of(
                    #[trigger] bo[j],
                    base_ids(),
                );
            if j < q.len() {
                assert(q[j] == bo[j]);
            } else {
                assert(bo[j] == bo.last());
            }
        }
    }
}

proof fn lemma_second_base_prefix(bo: Seq<BuildOrderEntry>, i: int)
    requires
        0 <= i < bo.len() - 1,
    ensures
        second_base_at(bo, i) == second_base_at(bo.drop_last(), i),
{
    let q = bo.drop_last();
    assert(q[i] == bo[i]);
    if second_base_at(bo, i) {
        let j = choose|j: int|
            0 <= j < i && bo[j].player_id == bo[i].player_id && makes_one_of(
                #[trigger] bo[j],
                base_ids(),
            );
        assert(q[j] == bo[j]);
    }
    if second_base_at(q, i) {
        let j = choose|j: int|
            0 <= j < i && q[j].player_id == q[i].player_id && makes_one_of(
                #[trigger] q[j],
                base_ids(),
            );
        assert(q[j] == bo[j]);
    }
}

proof fn lemma_first_expansion_table(bo: Seq<BuildOrderEntry>)
    ensures
        match first_expansion(bo) {
            None => forall|i: int| 0 <= i < bo.len() ==> !#[trigger] second_base_at(bo, i),
            Some(f) => exists|i: int|
                #[trigger] second_base_at(bo, i) && bo[i].frame == f && forall|j: int|
                    0 <= j < i ==> !#[trigger] second_base_at(bo, j),
        },
    decreases bo.len(),
{
    if bo.len() > 0 {
        let q = bo.drop_last();
        let n = bo.len() - 1;
        let e = bo.last();
        lemma_first_expansion_table(q);
        assert(bo[n] == e);
        assert(q =~= bo.take(n));
        assert forall|i: int| 0 <= i < n implies #[trigger] second_base_at(bo, i) == second_base_at(q, i) by {
            lemma_second_base_prefix(bo, i);
        }
        lemma_bases_built_some(q, e.player_id as int);
        assert forall|j: int| 0 <= j < n implies #[trigger] bo[j] == q[j] by {}
        assert(builds_base_for(e, e.player_id as int) == makes_one_of(e, base_ids()));
        if exists|j: int|
            0 <= j < n && bo[j].player_id == bo[n].player_id && makes_one_of(#[trigger] bo[j], base_ids()) {
            let j = choose|j: int|
                0 <= j < n && bo[j].player_id == bo[n].player_id && makes_one_of(
                    #[trigger] bo[j],
                    base_ids(),
                );
            assert(q[j] == bo[j]);
        }
        if bases_built(q, e.player_id as int) >= 1 {
            let j = choose|j: int|
                0 <= j < q.len() && q[j].player_id == e.player_id && makes_one_of(
                    #[trigger] q[j],
                    base_ids(),
                );
            assert(q[j] == bo[j]);
        }
        match first_expansion(q) {
            Some(f) => {
                let i = choose|i: int|
                    #[trigger] second_base_at(q, i) && q[i].frame == f && forall|j: int|
                        0 <= j < i ==> !#[trigger] second_base_at(q, j);
                assert(second_base_at(bo, i));
                assert forall|j: int| 0 <= j < i implies !#[trigger] second_base_at(bo, j) by {
                    assert(!second_base_at(q, j));
                }
            },
            None => {
                if second_base_at(bo, n) {
                    assert forall|j: int| 0 <= j < n implies !#[trigger] second_base_at(bo, j) by {
                        assert(!second_base_at(q, j));
                    }
                } else {
                    assert forall|i: int| 0 <= i < bo.len() implies !#[trigger] second_base_at(bo, i) by {
                        if i < n {
                            assert(!second_base_at(q, i));
                        }
                    }
                }
            },
        }
    }
}

/// The expansion landmark is the frame of the first entry at which one of
/// players 0 to 7 builds a second base (a Command Center, Hatchery or Nexus,
/// having built one before), and none when no player does.
pub proof fn lemma_expansion_frame(bo: Seq<BuildOrderEntry>)
    ensures
        match landmarks_of(bo).first_expansion {
            None => forall|i: int| 0 <= i < bo.len() ==> !#[trigger] second_base_at(bo, i),
            Some(f) => exists|i: int|
                #[trigger] second_base_at(bo, i) && bo[i].frame == f && forall|j: int|
                    0 <= j < i ==> !#[trigger] second_base_at(bo, j),
        },
{
    lemma_first_expansion_table(bo);
}

/// The landmarks of a build order, taken over all players together.
pub open spec fn landmarks_of(bo: Seq<BuildOrderEntry>) -> TechLandmarks {
    TechLandmarks {
        first_gas: first_frame(bo, LandmarkKind::Gas),
        first_tech: first_frame(bo, LandmarkKind::Tier1),
        first_tier2: first_frame(bo, LandmarkKind::Tier2),
        first_tier3: first_frame(bo, LandmarkKind::Tier3),
        first_expansion: first_expansion(bo),
    }
}

/// The value of an option, or `d`.
pub open spec fn or_else(o: Option<u32>, d: u32) -> u32 {
    match o {
        Some(v) => v,
        None => d,
    }
}

/// The later of two frames.
pub open spec fn later(a: u32, b: u32) -> u32 {
    if a >= b {
        a
    } else {
        b
    }
}

/// Where the opening ends: the first tech structure, else the end of the game.
pub open spec fn opening_end(lm: TechLandmarks, total: u32) -> u32 {
    or_else(lm.first_tech, total)
}

/// The landmark that ends the early game: the earlier of the first tier-2
/// structure and the first expansion, else the end of the game.
pub open spec fn early_landmark(lm: TechLandmarks, total: u32) -> u32 {
    match (lm.first_tier2, lm.first_expansion) {
        (Some(a), Some(b)) => if a <= b {
            a
        } else {
            b
        },
        (Some(a), None) => a,
        (None, Some(b)) => b,
        (None, None) => total,
    }
}

/// Where the early game ends: at its landmark, but not before it starts.
pub open spec fn early_end(lm: TechLandmarks, total: u32) -> u32 {
    later(opening_end(lm, total), early_landmark(lm, total))
}

/// Where the mid game ends: at the first tier-3 structure (else the end of the
/// game), but not before it starts.
pub open spec fn mid_end(lm: TechLandmarks, total: u32) -> u32 {
    later(early_end(lm, total), or_else(lm.first_tier3, total))
}

/// The phases for the given landmarks: the opening always, and each later
/// phase only while the previous one ends before the end of the game.
pub open spec fn phases_for(lm: TechLandmarks, total: u32) -> Seq<GamePhase> {
    let o = opening_end(lm, total);
    let e = early_end(lm, total);
    let m = mid_end(lm, total);
    let opening = GamePhase { phase: Phase::Opening, start_frame: 0, end_frame: Some(o) };
    let early = GamePhase { phase: Phase::EarlyGame, start_frame: o, end_frame: Some(e) };
    let mid = GamePhase { phase: Phase::MidGame, start_frame: e, end_frame: Some(m) };
    let late = GamePhase { phase: Phase::LateGame, start_frame: m, end_frame: None };
    if o >= total {
        seq![opening]
    } else if e >= total {
        seq![opening, early]
    } else if m >= total {
        seq![opening, early, mid]
    } else {
        seq![opening, early, mid, late]
    }
}

/// The phase of `frame`: that of the last phase starting at or before it, or
/// the opening if none does.
pub open spec fn phase_at(phases: Seq<GamePhase>, frame: u32) -> Phase
    decreases phases.len(),
{
    if phases.len() == 0 {
        Phase::Opening
    } else if frame >= phases.last().start_frame {
        phases.last().phase
    } else {
        phase_at(phases.drop_last(), frame)
    }
}

/// The `i`-th phase kind.
pub open spec fn nth_phase(i: int) -> Phase {
    if i == 0 {
        Phase::Opening
    } else if i == 1 {
        Phase::EarlyGame
    } else if i == 2 {
        Phase::MidGame
    } else {
        Phase::LateGame
    }
}

/// Detected phases come in the order Opening, Early, Mid, Late, starting at
/// frame 0; each phase ends where the next begins, every later phase starts
/// before the end of the game, and only a late game runs to the end.
pub proof fn lemma_phases_contiguous(lm: TechLandmarks, total: u32)
    ensures
        1 <= phases_for(lm, total).len() <= 4,
        phases_for(lm, total)[0].start_frame == 0,
        forall|i: int|
            0 <= i < phases_for(lm, total).len() ==> #[trigger] phases_for(lm, total)[i].phase
                == nth_phase(i),
        forall|i: int|
            0 <= i < phases_for(lm, total).len() - 1 ==> #[trigger] phases_for(lm, total)[i].end_frame
                == Some(phases_for(lm, total)[i + 1].start_frame),
        forall|i: int|
            1 <= i < phases_for(lm, total).len() ==> #[trigger] phases_for(lm, total)[i].start_frame
                < total,
        forall|i: int|
            0 <= i < phases_for(lm, total).len() ==> (#[trigger] phases_for(lm, total)[i].end_frame
                is None <==> phases_for(lm, total)[i].phase == Phase::LateGame),
{
}

/// Phases are in chronological order: start frames never go down, every
/// phase ends no earlier than it starts, and `phase_at` gives, for each frame
/// inside a phase, that phase (the last one, where phases of no length share
/// a frame).
pub proof fn lemma_phases_chronological(lm: TechLandmarks, total: u32, frame: u32)
    ensures
        forall|i: int, j: int|
            0 <= i <= j < phases_for(lm, total).len() ==> phases_for(lm, total)[i].start_frame
                <= phases_for(lm, total)[j].start_frame,
        forall|i: int|
            0 <= i < phases_for(lm, total).len() ==> (#[trigger] phases_for(lm, total)[i].end_frame
                matches Some(end) ==> phases_for(lm, total)[i].start_frame <= end),
        forall|i: int|
            0 <= i < phases_for(lm, total).len() && phases_for(lm, total)[i].start_frame <= frame
                && (phases_for(lm, total)[i].end_frame matches Some(end) ==> frame < end)
                ==> phase_at(phases_for(lm, total), frame) == #[trigger] phases_for(
                lm,
                total,
            )[i].phase,
{
    let ps = phases_for(lm, total);
    assert forall|i: int|
        0 <= i < ps.len() && ps[i].start_frame <= frame && (ps[i].end_frame matches Some(end)
            ==> frame < end) implies phase_at(ps, frame) == #[trigger] ps[i].phase by {
        lemma_phase_at_in_phase(ps, i, frame);
    }
}

/// In phases ordered by start, a frame inside phase `i` (before the next
/// phase's start) falls in phase `i`.
proof fn lemma_phase_at_in_phase(ps: Seq<GamePhase>, i: int, frame: u32)
    requires
        0 <= i < ps.len(),
        forall|a: int, b: int| 0 <= a <= b < ps.len() ==> ps[a].start_frame <= ps[b].start_frame,
        forall|a: int|
            0 <= a < ps.len() - 1 ==> #[trigger] ps[a].end_frame == Some(ps[a + 1].start_frame),
        ps[i].start_frame <= frame,
        ps[i].end_frame matches Some(end) ==> frame < end,
        i == ps.len() - 1 || ps[i].end_frame is Some,
    ensures
        phase_at(ps, frame) == ps[i].phase,
    decreases ps.len(),
{
    if i < ps.len() - 1 {
        let rest = ps.drop_last();
        assert(ps[i].end_frame == Some(ps[i + 1].start_frame));
        assert(frame < ps.last().start_frame);
        lemma_phase_at_in_phase(rest, i, frame);
    }
}

/// Find the tech landmarks of a build order.
fn find_landmarks(build_order: &[BuildOrderEntry]) -> (lm: TechLandmarks)
    ensures
        lm == landmarks_of(build_order@),
{
    let mut first_gas: Option<u32> = None;
    let mut first_tech: Option<u32> = None;
    let mut first_tier2: Option<u32> = None;
    let mut first_tier3: Option<u32> = None;
    let mut first_exp: Option<u32> = None;
    // Bases built per player, counted up to 2: only a second base matters.
    let mut base_count = [0u8; 8];
    let mut i: usize = 0;
    while i < build_order.len()
        invariant
            i <= build_order@.len(),
            first_gas == first_frame(build_order@.take(i as int), LandmarkKind::Gas),
            first_tech == first_frame(build_order@.take(i as int), LandmarkKind::Tier1),
            first_tier2 == first_frame(build_order@.take(i as int), LandmarkKind::Tier2),
            first_tier3 == first_frame(build_order@.take(i as int), LandmarkKind::Tier3),
            first_exp == first_expansion(build_order@.take(i as int)),
            forall|p: int|
                0 <= p < 8 ==> #[trigger] base_count[p] == if bases_built(
                    build_order@.take(i as int),
                    p,
                ) >= 2 {
                    2
                } else {
                    bases_built(build_order@.take(i as int), p)
                },
        decreases build_order@.len() - i,
    {
        let entry = build_order[i];
        let ghost prefix = build_order@.take(i as int);
        let ghost next = build_order@.take(i + 1);
        assert(next.drop_last() =~= prefix);
        assert(next.last() == entry);
        let frame = entry.frame;
        let pid = entry.player_id as usize;
        let structure: Option<u16> = match entry.action {
            BuildAction::Build(id) => Some(id),
            BuildAction::BuildingMorph(id) => Some(id),
            _ => None,
        };
        if let Some(id) = structure {
            if is_gas_building(id) && first_gas.is_none() {
                first_gas = Some(frame);
            }
            if is_base(id) && pid < 8 {
                if base_count[pid] < 2 {
                    base_count[pid] = base_count[pid] + 1;
                }
                if base_count[pid] >= 2 && first_exp.is_none() {
                    first_exp = Some(frame);
                }
            }
            if is_tier1_tech(id) && first_tech.is_none() {
                first_tech = Some(frame);
            }
            if is_tier2_tech(id) && first_tier2.is_none() {
                first_tier2 = Some(frame);
            }
            if is_tier3_tech(id) && first_tier3.is_none() {
                first_tier3 = Some(frame);
            }
        }
        i = i + 1;
        assert forall|p: int| 0 <= p < 8 implies #[trigger] base_count[p] == if bases_built(
            next,
            p,
        ) >= 2 {
            2
        } else {
            bases_built(next, p)
        } by {
            assert(bases_built(next, p) == bases_built(prefix, p) + if builds_base_for(entry, p) {
                1nat
            } else {
                0nat
            });
        }
    }
    assert(build_order@.take(i as int) =~= build_order@);
    TechLandmarks {
        first_gas,
        first_tech,
        first_tier2,
        first_tier3,
        first_expansion: first_exp,
    }
}

/// Detect game phases from the build order, with the landmarks of all
/// players together.
pub fn detect_phases(build_order: &[BuildOrderEntry], total_frames: u32) -> (a: PhaseAnalysis)
    ensures
        a.landmarks == landmarks_of(build_order@),
        a.phases@ == phases_for(landmarks_of(build_order@), total_frames),
{
    let landmarks = find_landmarks(build_order);
    let mut phases: Vec<GamePhase> = Vec::new();

    let opening_end = match landmarks.first_tech {
        Some(f) => f,
        None => total_frames,
    };
    phases.push(GamePhase { phase: Phase::Opening, start_frame: 0, end_frame: Some(opening_end) });
    let mut current_start = opening_end;

    if current_start < total_frames {
        let landmark = match (landmarks.first_tier2, landmarks.first_expansion) {
            (Some(a), Some(b)) => if a <= b {
                a
            } else {
                b
            },
            (Some(a), None) => a,
            (None, Some(b)) => b,
            (None, None) => total_frames,
        };
        let early_end = if landmark >= current_start {
            landmark
        } else {
            current_start
        };
        phases.push(
            GamePhase {
                phase: Phase::EarlyGame,
                start_frame: current_start,
                end_frame: Some(early_end),
            },
        );
        current_start = early_end;

        if current_start < total_frames {
            let landmark = match landmarks.first_tier3 {
                Some(f) => f,
                None => total_frames,
            };
            let mid_end = if landmark >= current_start {
                landmark
            } else {
                current_start
            };
            phases.push(
                GamePhase {
                    phase: Phase::MidGame,
                    start_frame: current_start,
                    end_frame: Some(mid_end),
                },
            );
            current_start = mid_end;

            if current_start < total_frames {
                phases.push(
                    GamePhase { phase: Phase::LateGame, start_frame: current_start, end_frame: None },
                );
            }
        }
    }
    let a = PhaseAnalysis { phases, landmarks };
    assert(a.phases@ =~= phases_for(landmarks_of(build_order@), total_frames));
    a
}

/// The phase a given frame falls in: that of the last phase starting at or
/// before it, or the opening if none does.
pub fn phase_at_frame(analysis: &PhaseAnalysis, frame: u32) -> (p: Phase)
    ensures
        p == phase_at(analysis.phases@, frame),
{
    let phases = &analysis.phases;
    let mut k: usize = phases.len();
    assert(phases@.take(k as int) =~= phases@);
    while k > 0
        invariant
            k <= phases@.len(),
            phases@ == analysis.phases@,
            phase_at(phases@, frame) == phase_at(phases@.take(k as int), frame),
        decreases k,
    {
        assert(phases@.take(k as int).drop_last() =~= phases@.take(k - 1));
        assert(phases@.take(k as int).last() == phases@[k - 1]);
        if frame >= phases[k - 1].start_frame {
            assert(phase_at(phases@.take(k as int), frame) == phases@[k - 1].phase);
            return phases[k - 1].phase;
        }
        k = k - 1;
    }
    Phase::Opening
}

} // verus!
