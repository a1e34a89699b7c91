//! Companion AI: a priority ranker that commits the companion to the
//! top-scoring reachable target, one oracle step per tick toward it, and a
//! cooldown-gated strike once the target is reached.

use vstd::prelude::*;

use crate::catalog::{artifacts_payout, artifacts_payout_spec};
use crate::routes::{Roads, RouteOracle};
use crate::spawn::ring_tiles;
use crate::state::{clamp_damage, State};
use crate::tally::{lemma_sums_bounds, lemma_sums_update};
use crate::types::{
    BuildingDamageResponse, BuildingDetails, Companion, CompanionResult, CompanionTarget, Coords,
    DefenderDamageResponse, DefenderDetails, EngineError,
};

verus! {

/// Weight separating the ranker's precedence classes: within a class, routes
/// are shorter than this, so class always dominates distance.
pub const CLASS_WEIGHT: i64 = 0x1_0000_0000;

/// Score of one alive, route-reachable defender: the top precedence class,
/// minus the route distance.
pub open spec fn defender_score(d: DefenderDetails, oracle: RouteOracle, cpos: Coords) -> Option<
    int,
> {
    if d.is_alive {
        match oracle.route_spec(cpos, d.defender_pos) {
            Some(p) => Some(3 * CLASS_WEIGHT - p.length),
            None => None,
        }
    } else {
        None
    }
}

/// The best-scoring defender candidate, earliest first on ties.
pub open spec fn best_defender(
    ds: Seq<DefenderDetails>,
    oracle: RouteOracle,
    cpos: Coords,
) -> Option<(int, DefenderDetails)>
    decreases ds.len(),
{
    if ds.len() == 0 {
        None
    } else {
        let rest = best_defender(ds.drop_last(), oracle, cpos);
        match defender_score(ds.last(), oracle, cpos) {
            None => rest,
            Some(s) => match rest {
                None => Some((s, ds.last())),
                Some((rs, rd)) => if s > rs {
                    Some((s, ds.last()))
                } else {
                    Some((rs, rd))
                },
            },
        }
    }
}

/// The route-reachable candidate tile with the shortest route, earliest
/// first on ties, together with that route length.
pub open spec fn best_routed_tile(cands: Seq<Coords>, oracle: RouteOracle, cpos: Coords) -> Option<
    (Coords, u32),
>
    decreases cands.len(),
{
    if cands.len() == 0 {
        None
    } else {
        let rest = best_routed_tile(cands.drop_last(), oracle, cpos);
        match oracle.route_spec(cpos, cands.last()) {
            None => rest,
            Some(p) => match rest {
                None => Some((cands.last(), p.length)),
                Some((rt, rl)) => if p.length < rl {
                    Some((cands.last(), p.length))
                } else {
                    Some((rt, rl))
                },
            },
        }
    }
}

/// Whether an alive defender stands on the building's border ring: such
/// buildings outrank plain ones.
pub open spec fn defender_adjacent(b: BuildingDetails, ds: Seq<DefenderDetails>) -> bool {
    exists|i: int|
        0 <= i < ds.len() && (#[trigger] ds[i]).is_alive && ring_tiles(b).contains(
            ds[i].defender_pos,
        )
}

/// Score of one standing building reachable through some road ring tile:
/// its precedence class minus the route distance to the chosen tile.
pub open spec fn building_score(
    b: BuildingDetails,
    ds: Seq<DefenderDetails>,
    roads: Roads,
    oracle: RouteOracle,
    cpos: Coords,
) -> Option<(int, Coords)> {
    if b.current_hp > 0 {
        match best_routed_tile(crate::spawn::road_ring(b, roads), oracle, cpos) {
            None => None,
            Some((t, l)) => Some(
                (
                    (if defender_adjacent(b, ds) {
                        2 * (CLASS_WEIGHT as int)
                    } else {
                        CLASS_WEIGHT as int
                    }) - l,
                    t,
                ),
            ),
        }
    } else {
        None
    }
}

/// The best-scoring building candidate, earliest first on ties.
pub open spec fn best_building(
    bs: Seq<BuildingDetails>,
    ds: Seq<DefenderDetails>,
    roads: Roads,
    oracle: RouteOracle,
    cpos: Coords,
) -> Option<(int, BuildingDetails, Coords)>
    decreases bs.len(),
{
    if bs.len() == 0 {
        None
    } else {
        let rest = best_building(bs.drop_last(), ds, roads, oracle, cpos);
        match building_score(bs.last(), ds, roads, oracle, cpos) {
            None => rest,
            Some((s, t)) => match rest {
                None => Some((s, bs.last(), t)),
                Some((rs, rb, rt)) => if s > rs {
                    Some((s, bs.last(), t))
                } else {
                    Some((rs, rb, rt))
                },
            },
        }
    }
}

/// A committed companion target: the kind, the target's identity, and the
/// tile the companion walks to.
#[derive(Clone, Copy, PartialEq, Eq, Structural, Debug)]
pub struct CompanionTargetChoice {
    pub current_target: CompanionTarget,
    pub target_id: i32,
    pub target_tile: Coords,
}

/// The ranker's choice: the top-scoring candidate under the fixed
/// precedence (defenders, then defender-adjacent buildings, then plain
/// buildings), weighted by oracle route distance. Defenders win exact ties.
pub open spec fn companion_choice(
    bs: Seq<BuildingDetails>,
    ds: Seq<DefenderDetails>,
    roads: Roads,
    oracle: RouteOracle,
    cpos: Coords,
) -> Option<CompanionTargetChoice> {
    let bd = best_defender(ds, oracle, cpos);
    let bb = best_building(bs, ds, roads, oracle, cpos);
    match bd {
        Some((s, d)) => match bb {
            Some((bs2, b, t)) => if bs2 > s {
                Some(
                    CompanionTargetChoice {
                        current_target: CompanionTarget::Building,
                        target_id: b.map_space_id,
                        target_tile: t,
                    },
                )
            } else {
                Some(
                    CompanionTargetChoice {
                        current_target: CompanionTarget::Defender,
                        target_id: d.id,
                        target_tile: d.defender_pos,
                    },
                )
            },
            None => Some(
                CompanionTargetChoice {
                    current_target: CompanionTarget::Defender,
                    target_id: d.id,
                    target_tile: d.defender_pos,
                },
            ),
        },
        None => match bb {
            Some((bs2, b, t)) => Some(
                CompanionTargetChoice {
                    current_target: CompanionTarget::Building,
                    target_id: b.map_space_id,
                    target_tile: t,
                },
            ),
            None => None,
        },
    }
}

/// Finds the best route-reachable tile among `cands`, with its route length.
#[verifier::loop_isolation(false)]
pub fn pick_routed_tile(cands: &Vec<Coords>, oracle: &RouteOracle, cpos: Coords) -> (r: Option<
    (Coords, u32),
>)
    ensures
        r == best_routed_tile(cands@, *oracle, cpos),
{
    let n = cands.len();
    let mut best: Option<(Coords, u32)> = None;
    let mut i: usize = 0;
    while i < n
        invariant
            0 <= i <= n,
            best == best_routed_tile(cands@.take(i as int), *oracle, cpos),
        decreases n - i,
    {
        let c = cands[i];
        proof {
            assert(cands@.take(i + 1).drop_last() =~= cands@.take(i as int));
            assert(cands@.take(i + 1).last() == cands@[i as int]);
        }
        if let Some(p) = oracle.next_hop(cpos, c) {
            best = match best {
                None => Some((c, p.length)),
                Some((bt, bl)) => if p.length < bl {
                    Some((c, p.length))
                } else {
                    Some((bt, bl))
                },
            };
        }
        i = i + 1;
    }
    proof {
        assert(cands@.take(n as int) =~= cands@);
    }
    best
}

/// The priority ranker: scores reachable defenders, defender-adjacent
/// buildings and plain buildings under the fixed precedence, weighted by
/// oracle route distance, and returns the top-scoring target and tile.
#[verifier::loop_isolation(false)]
pub fn get_companion_priority(
    buildings: &Vec<BuildingDetails>,
    defenders: &Vec<DefenderDetails>,
    companion_pos: Coords,
    roads: &Roads,
    shortest_path: &RouteOracle,
) -> (r: Option<CompanionTargetChoice>)
    requires
        forall|i: int| 0 <= i < buildings@.len() ==> 1 <= #[trigger] buildings@[i].width <= 0x1000,
        forall|i: int|
            0 <= i < buildings@.len() ==> (0 <= #[trigger] buildings@[i].tile.x <= 0x10_0000 && 0
                <= buildings@[i].tile.y <= 0x10_0000),
    ensures
        r == companion_choice(buildings@, defenders@, *roads, *shortest_path, companion_pos),
{
    let nd = defenders.len();
    let mut bd: Option<(i64, usize)> = None;
    let mut i: usize = 0;
    while i < nd
        invariant
            0 <= i <= nd,
            match bd {
                None => best_defender(defenders@.take(i as int), *shortest_path, companion_pos)
                    is None,
                Some((s, k)) => {
                    &&& 0 <= k < i
                    &&& best_defender(defenders@.take(i as int), *shortest_path, companion_pos)
                        == Some((s as int, defenders@[k as int]))
                },
            },
        decreases nd - i,
    {
        let d = defenders[i];
        proof {
            assert(defenders@.take(i + 1).drop_last() =~= defenders@.take(i as int));
            assert(defenders@.take(i + 1).last() == defenders@[i as int]);
        }
        if d.is_alive {
            if let Some(p) = shortest_path.next_hop(companion_pos, d.defender_pos) {
                let s: i64 = 3 * CLASS_WEIGHT - p.length as i64;
                bd = match bd {
                    None => Some((s, i)),
                    Some((rs, rk)) => if s > rs {
                        Some((s, i))
                    } else {
                        Some((rs, rk))
                    },
                };
            }
        }
        i = i + 1;
    }
    proof {
        assert(defenders@.take(nd as int) =~= defenders@);
    }

    let nb = buildings.len();
    let mut bb: Option<(i64, usize, Coords)> = None;
    let mut j: usize = 0;
    while j < nb
        invariant
            0 <= j <= nb,
            match bb {
                None => best_building(
                    buildings@.take(j as int),
                    defenders@,
                    *roads,
                    *shortest_path,
                    companion_pos,
                ) is None,
                Some((s, k, t)) => {
                    &&& 0 <= k < j
                    &&& best_building(
                        buildings@.take(j as int),
                        defenders@,
                        *roads,
                        *shortest_path,
                        companion_pos,
                    ) == Some((s as int, buildings@[k as int], t))
                },
            },
        decreases nb - j,
    {
        let b = buildings[j];
        proof {
            assert(buildings@.take(j + 1).drop_last() =~= buildings@.take(j as int));
            assert(buildings@.take(j + 1).last() == buildings@[j as int]);
        }
        if b.current_hp > 0 {
            let ring = crate::spawn::get_roads_around_building(&b, roads);
            if let Some((t, l)) = pick_routed_tile(&ring, shortest_path, companion_pos) {
                let adjacent = has_adjacent_defender(&b, defenders);
                let class: i64 = if adjacent {
                    2 * CLASS_WEIGHT
                } else {
                    CLASS_WEIGHT
                };
                let s: i64 = class - l as i64;
                bb = match bb {
                    None => Some((s, j, t)),
                    Some((rs, rk, rt)) => if s > rs {
                        Some((s, j, t))
                    } else {
                        Some((rs, rk, rt))
                    },
                };
            }
        }
        j = j + 1;
    }
    proof {
        assert(buildings@.take(nb as int) =~= buildings@);
    }

    match bd {
        Some((s, k)) => {
            let d = defenders[k];
            match bb {
                Some((s2, k2, t)) => {
                    if s2 > s {
                        let b = buildings[k2];
                        Some(
                            CompanionTargetChoice {
                                current_target: CompanionTarget::Building,
                                target_id: b.map_space_id,
                                target_tile: t,
                            },
                        )
                    } else {
                        Some(
                            CompanionTargetChoice {
                                current_target: CompanionTarget::Defender,
                                target_id: d.id,
                                target_tile: d.defender_pos,
                            },
                        )
                    }
                },
                None => Some(
                    CompanionTargetChoice {
                        current_target: CompanionTarget::Defender,
                        target_id: d.id,
                        target_tile: d.defender_pos,
                    },
                ),
            }
        },
        None => match bb {
            Some((s2, k2, t)) => {
                let b = buildings[k2];
                Some(
                    CompanionTargetChoice {
                        current_target: CompanionTarget::Building,
                        target_id: b.map_space_id,
                        target_tile: t,
                    },
                )
            },
            None => None,
        },
    }
}

/// Whether any alive defender stands on the building's border ring.
#[verifier::loop_isolation(false)]
fn has_adjacent_defender(b: &BuildingDetails, defenders: &Vec<DefenderDetails>) -> (r: bool)
    requires
        1 <= b.width <= 0x1000,
        0 <= b.tile.x <= 0x10_0000,
        0 <= b.tile.y <= 0x10_0000,
    ensures
        r == defender_adjacent(*b, defenders@),
{
    let n = defenders.len();
    let mut i: usize = 0;
    while i < n
        invariant
            0 <= i <= n,
            forall|k: int|
                0 <= k < i ==> !((#[trigger] defenders@[k]).is_alive && ring_tiles(*b).contains(
                    defenders@[k].defender_pos,
                )),
        decreases n - i,
    {
        let d = defenders[i];
        if d.is_alive {
            if on_ring(b, d.defender_pos) {
                return true;
            }
        }
        i = i + 1;
    }
    false
}

/// Whether `p` lies on the building's border ring.
#[verifier::loop_isolation(false)]
fn on_ring(b: &BuildingDetails, p: Coords) -> (r: bool)
    requires
        1 <= b.width <= 0x1000,
        0 <= b.tile.x <= 0x10_0000,
        0 <= b.tile.y <= 0x10_0000,
    ensures
        r == ring_tiles(*b).contains(p),
{
    let w = b.width as i32;
    let n: u32 = 4 * b.width;
    let mut i: u32 = 0;
    while i < n
        invariant
            0 <= i <= n,
            forall|k: int| 0 <= k < i ==> ring_tiles(*b)[k] != p,
        decreases n - i,
    {
        let t: Coords = if i < b.width {
            Coords { x: b.tile.x - 1, y: b.tile.y + i as i32 }
        } else if i < 2 * b.width {
            Coords { x: b.tile.x + w, y: b.tile.y + (i as i32 - w) }
        } else if i < 3 * b.width {
            Coords { x: b.tile.x + (i as i32 - 2 * w), y: b.tile.y - 1 }
        } else {
            Coords { x: b.tile.x + (i as i32 - 3 * w), y: b.tile.y + w }
        };
        proof {
            assert(t == ring_tiles(*b)[i as int]);
        }
        if t.x == p.x && t.y == p.y {
            proof {
                assert(ring_tiles(*b)[i as int] == p);
            }
            return true;
        }
        i = i + 1;
    }
    proof {
        assert(forall|k: int| 0 <= k < ring_tiles(*b).len() ==> ring_tiles(*b)[k] != p);
    }
    false
}

/// A companion with its targeting state released back to idle.
pub open spec fn companion_cleared(c: Companion) -> Companion {
    Companion {
        current_target: None,
        target_id: None,
        target_tile: None,
        reached_dest: false,
        ..c
    }
}

/// The no-damage tick result for a companion in state `c`.
pub open spec fn companion_idle_result(c: Companion) -> CompanionResult {
    CompanionResult {
        companion_id: c.id,
        position: c.companion_pos,
        is_alive: c.companion_health > 0,
        building_damaged: None,
        defender_damaged: None,
    }
}

/// Whether `i` is the first index whose defender carries this id.
pub open spec fn is_first_defender_match(ds: Seq<DefenderDetails>, id: i32, i: int) -> bool {
    &&& 0 <= i < ds.len()
    &&& ds[i].id == id
    &&& forall|k: int| 0 <= k < i ==> (#[trigger] ds[k]).id != id
}

/// Whether the defender this id names is still alive.
pub open spec fn defender_alive_by_id(ds: Seq<DefenderDetails>, id: i32) -> bool {
    exists|i: int| is_first_defender_match(ds, id, i) && ds[i].is_alive
}

/// Whether `i` is the first index whose building carries this map-space id.
pub open spec fn is_first_building_match(bs: Seq<BuildingDetails>, id: i32, i: int) -> bool {
    &&& 0 <= i < bs.len()
    &&& bs[i].map_space_id == id
    &&& forall|k: int| 0 <= k < i ==> (#[trigger] bs[k]).map_space_id != id
}

/// Whether the building this id names is still standing.
pub open spec fn building_standing_by_id(bs: Seq<BuildingDetails>, id: i32) -> bool {
    exists|i: int| is_first_building_match(bs, id, i) && bs[i].current_hp > 0
}

/// Whether the companion's committed target is dead, destroyed or malformed,
/// so that the companion must release it and re-enter idle targeting.
pub open spec fn companion_target_down(
    c: Companion,
    ds: Seq<DefenderDetails>,
    bs: Seq<BuildingDetails>,
) -> bool {
    if c.target_id is None || c.target_tile is None {
        true
    } else {
        match c.current_target {
            Some(CompanionTarget::Defender) => !defender_alive_by_id(ds, c.target_id.unwrap()),
            Some(CompanionTarget::Building) => !building_standing_by_id(bs, c.target_id.unwrap()),
            None => false,
        }
    }
}

/// Whether the attack cooldown has run out at this frame.
pub open spec fn cooldown_ready(c: Companion, frame_no: u32) -> bool {
    frame_no >= c.last_attack_tick + c.attack_interval
}

/// One defender after a companion strike: health floored at zero; at zero it
/// dies and its target clears.
pub open spec fn damaged_defender(d: DefenderDetails, damage: u32) -> DefenderDetails {
    let h = clamp_damage(d.current_health, damage as int);
    DefenderDetails {
        current_health: h,
        is_alive: h > 0,
        target_id: if h > 0 {
            d.target_id
        } else {
            None
        },
        ..d
    }
}

/// Whether one pass of `move_companion` must abort for a missing route.
pub open spec fn companion_route_missing(pre: State, oracle: RouteOracle) -> bool {
    let c = pre.companion.unwrap();
    &&& c.current_target is Some
    &&& !companion_target_down(c, pre.defenders@, pre.buildings@)
    &&& !c.reached_dest
    &&& c.companion_pos != c.target_tile.unwrap()
    &&& oracle.route_spec(c.companion_pos, c.target_tile.unwrap()) is None
}

/// How one companion tick relates the state before and after, and what tick
/// result it reports: release a downed target; step one tile toward the
/// committed tile; once reached, strike on the attack cooldown; when idle,
/// commit to the ranker's choice.
pub open spec fn companion_rel(
    pre: State,
    post: State,
    roads: Roads,
    oracle: RouteOracle,
    r: CompanionResult,
) -> bool {
    let c = pre.companion.unwrap();
    if c.current_target is Some {
        if companion_target_down(c, pre.defenders@, pre.buildings@) {
            &&& post =~= (State { companion: Some(companion_cleared(c)), ..pre })
            &&& r == companion_idle_result(companion_cleared(c))
        } else if !c.reached_dest {
            let tile = c.target_tile.unwrap();
            if c.companion_pos == tile {
                &&& post =~= (State {
                    companion: Some(Companion { reached_dest: true, ..c }),
                    ..pre
                })
                &&& r == companion_idle_result(Companion { reached_dest: true, ..c })
            } else {
                match oracle.route_spec(c.companion_pos, tile) {
                    None => false,
                    Some(p) => {
                        let c2 = Companion {
                            companion_pos: p.next_hop,
                            reached_dest: p.next_hop == tile,
                            ..c
                        };
                        &&& post =~= (State { companion: Some(c2), ..pre })
                        &&& r == companion_idle_result(c2)
                    },
                }
            }
        } else if !cooldown_ready(c, pre.frame_no) {
            &&& post =~= pre
            &&& r == companion_idle_result(c)
        } else {
            let c2 = Companion { last_attack_tick: pre.frame_no, ..c };
            match c.current_target.unwrap() {
                CompanionTarget::Defender => exists|i: int|
                    {
                        &&& #[trigger] is_first_defender_match(
                            pre.defenders@,
                            c.target_id.unwrap(),
                            i,
                        )
                        &&& pre.defenders@[i].is_alive
                        &&& post.defenders@ == pre.defenders@.update(
                            i,
                            damaged_defender(pre.defenders@[i], c.damage),
                        )
                        &&& post =~= (State {
                            companion: Some(c2),
                            defenders: post.defenders,
                            ..pre
                        })
                        &&& r == (CompanionResult {
                            defender_damaged: Some(
                                DefenderDamageResponse {
                                    map_space_id: pre.defenders@[i].map_space_id,
                                    position: pre.defenders@[i].defender_pos,
                                    health: damaged_defender(
                                        pre.defenders@[i],
                                        c.damage,
                                    ).current_health,
                                },
                            ),
                            ..companion_idle_result(c2)
                        })
                    },
                CompanionTarget::Building => exists|i: int|
                    {
                        let b = pre.buildings@[i];
                        let h = clamp_damage(b.current_hp, c.damage as int);
                        &&& #[trigger] is_first_building_match(
                            pre.buildings@,
                            c.target_id.unwrap(),
                            i,
                        )
                        &&& b.current_hp > 0
                        &&& post.buildings@ == pre.buildings@.update(
                            i,
                            BuildingDetails { current_hp: h, ..b },
                        )
                        &&& post.artifacts == pre.artifacts + (if c.damage >= b.current_hp {
                            artifacts_payout_spec(b.artifacts_obtained)
                        } else {
                            0
                        })
                        &&& post.damage_dealt_hp == pre.damage_dealt_hp + b.current_hp - h
                        &&& post =~= (State {
                            companion: Some(c2),
                            buildings: post.buildings,
                            artifacts: post.artifacts,
                            damage_dealt_hp: post.damage_dealt_hp,
                            ..pre
                        })
                        &&& r == (CompanionResult {
                            building_damaged: Some(
                                BuildingDamageResponse {
                                    id: b.map_space_id,
                                    position: b.tile,
                                    hp: h,
                                    artifacts_if_damaged: (if c.damage >= b.current_hp {
                                        artifacts_payout_spec(b.artifacts_obtained)
                                    } else {
                                        0
                                    }) as u32,
                                },
                            ),
                            ..companion_idle_result(c2)
                        })
                    },
            }
        }
    } else {
        match companion_choice(pre.buildings@, pre.defenders@, roads, oracle, c.companion_pos) {
            None => {
                &&& post =~= pre
                &&& r == companion_idle_result(c)
            },
            Some(ch) => {
                let c2 = Companion {
                    current_target: Some(ch.current_target),
                    target_id: Some(ch.target_id),
                    target_tile: Some(ch.target_tile),
                    reached_dest: false,
                    ..c
                };
                &&& post =~= (State { companion: Some(c2), ..pre })
                &&& r == companion_idle_result(c2)
            },
        }
    }
}

/// Finds the first defender carrying this id.
#[verifier::loop_isolation(false)]
fn find_defender_index(ds: &Vec<DefenderDetails>, id: i32) -> (r: Option<usize>)
    ensures
        r matches Some(i) ==> is_first_defender_match(ds@, id, i as int),
        r is None ==> forall|k: int| 0 <= k < ds@.len() ==> (#[trigger] ds@[k]).id != id,
{
    let n = ds.len();
    let mut i: usize = 0;
    while i < n
        invariant
            0 <= i <= n,
            forall|k: int| 0 <= k < i ==> (#[trigger] ds@[k]).id != id,
        decreases n - i,
    {
        if ds[i].id == id {
            return Some(i);
        }
        i = i + 1;
    }
    None
}

/// Finds the first building carrying this map-space id.
#[verifier::loop_isolation(false)]
fn find_building_index(bs: &Vec<BuildingDetails>, id: i32) -> (r: Option<usize>)
    ensures
        r matches Some(i) ==> is_first_building_match(bs@, id, i as int),
        r is None ==> forall|k: int|
            0 <= k < bs@.len() ==> (#[trigger] bs@[k]).map_space_id != id,
{
    let n = bs.len();
    let mut i: usize = 0;
    while i < n
        invariant
            0 <= i <= n,
            forall|k: int| 0 <= k < i ==> (#[trigger] bs@[k]).map_space_id != id,
        decreases n - i,
    {
        if bs[i].map_space_id == id {
            return Some(i);
        }
        i = i + 1;
    }
    None
}

impl State {
    /// One companion tick. A downed or malformed target is released back to
    /// idle; an idle companion commits to the ranker's top choice; a moving
    /// companion advances one oracle tile toward its committed tile; a
    /// companion that has reached its tile strikes its target whenever the
    /// attack cooldown has run out. A missing route aborts the tick
    /// untouched: the snapshot is defective.
    #[verifier::loop_isolation(false)]
    pub fn move_companion(
        &mut self,
        roads: &Roads,
        shortest_path: &RouteOracle,
    ) -> (r: Result<CompanionResult, EngineError>)
        requires
            old(self).wf(),
            old(self).companion is Some,
        ensures
            final(self).wf(),
            r is Err <==> companion_route_missing(*old(self), *shortest_path),
            r is Err ==> r == Result::<CompanionResult, EngineError>::Err(
                EngineError::MissingRoute,
            ) && *final(self) == *old(self),
            r matches Ok(res) ==> companion_rel(
                *old(self),
                *final(self),
                *roads,
                *shortest_path,
                res,
            ),
    {
        let c = *self.companion.as_ref().unwrap();
        if c.current_target.is_some() {
            // Release the target if it is dead, destroyed or malformed.
            let down: bool;
            if c.target_id.is_none() || c.target_tile.is_none() {
                down = true;
            } else {
                let id = *c.target_id.as_ref().unwrap();
                match *c.current_target.as_ref().unwrap() {
                    CompanionTarget::Defender => {
                        match find_defender_index(&self.defenders, id) {
                            Some(i) => {
                                down = !self.defenders[i].is_alive;
                                proof {
                                    lemma_first_defender_match_unique(self.defenders@, id);
                                }
                            },
                            None => {
                                down = true;
                            },
                        }
                    },
                    CompanionTarget::Building => {
                        match find_building_index(&self.buildings, id) {
                            Some(i) => {
                                down = self.buildings[i].current_hp == 0;
                                proof {
                                    lemma_first_building_match_unique(self.buildings@, id);
                                }
                            },
                            None => {
                                down = true;
                            },
                        }
                    },
                }
            }
            if down {
                let c2 = Companion {
                    current_target: None,
                    target_id: None,
                    target_tile: None,
                    reached_dest: false,
                    ..c
                };
                self.companion = Some(c2);
                return Ok(
                    CompanionResult {
                        companion_id: c2.id,
                        position: c2.companion_pos,
                        is_alive: c2.companion_health > 0,
                        building_damaged: None,
                        defender_damaged: None,
                    },
                );
            }

            if !c.reached_dest {
                // Advance one tile toward the committed tile.
                let tile = *c.target_tile.as_ref().unwrap();
                if c.companion_pos.x == tile.x && c.companion_pos.y == tile.y {
                    let c2 = Companion { reached_dest: true, ..c };
                    self.companion = Some(c2);
                    return Ok(
                        CompanionResult {
                            companion_id: c2.id,
                            position: c2.companion_pos,
                            is_alive: c2.companion_health > 0,
                            building_damaged: None,
                            defender_damaged: None,
                        },
                    );
                }
                match shortest_path.next_hop(c.companion_pos, tile) {
                    None => {
                        return Err(EngineError::MissingRoute);
                    },
                    Some(p) => {
                        let reached = p.next_hop.x == tile.x && p.next_hop.y == tile.y;
                        let c2 = Companion {
                            companion_pos: p.next_hop,
                            reached_dest: reached,
                            ..c
                        };
                        self.companion = Some(c2);
                        return Ok(
                            CompanionResult {
                                companion_id: c2.id,
                                position: c2.companion_pos,
                                is_alive: c2.companion_health > 0,
                                building_damaged: None,
                                defender_damaged: None,
                            },
                        );
                    },
                }
            }

            // Reached: strike on the cooldown.
            if !(self.frame_no >= c.last_attack_tick && self.frame_no - c.last_attack_tick
                >= c.attack_interval) {
                return Ok(
                    CompanionResult {
                        companion_id: c.id,
                        position: c.companion_pos,
                        is_alive: c.companion_health > 0,
                        building_damaged: None,
                        defender_damaged: None,
                    },
                );
            }
            let c2 = Companion { last_attack_tick: self.frame_no, ..c };
            let id = *c.target_id.as_ref().unwrap();
            match *c.current_target.as_ref().unwrap() {
                CompanionTarget::Defender => {
                    let i = find_defender_index(&self.defenders, id).unwrap();
                    let d = self.defenders[i];
                    proof {
                        lemma_first_defender_match_unique(self.defenders@, id);
                    }
                    let h = if c.damage >= d.current_health {
                        0
                    } else {
                        d.current_health - c.damage
                    };
                    self.defenders[i] = DefenderDetails {
                        current_health: h,
                        is_alive: h > 0,
                        target_id: if h > 0 {
                            d.target_id
                        } else {
                            None
                        },
                        ..d
                    };
                    self.companion = Some(c2);
                    Ok(
                        CompanionResult {
                            companion_id: c2.id,
                            position: c2.companion_pos,
                            is_alive: c2.companion_health > 0,
                            building_damaged: None,
                            defender_damaged: Some(
                                DefenderDamageResponse {
                                    map_space_id: d.map_space_id,
                                    position: d.defender_pos,
                                    health: h,
                                },
                            ),
                        },
                    )
                },
                CompanionTarget::Building => {
                    let i = find_building_index(&self.buildings, id).unwrap();
                    let b = self.buildings[i];
                    proof {
                        lemma_first_building_match_unique(self.buildings@, id);
                        lemma_sums_bounds(self.buildings@);
                    }
                    let payout: u32;
                    let h: u32;
                    if c.damage >= b.current_hp {
                        h = 0;
                        payout = artifacts_payout(b.artifacts_obtained);
                    } else {
                        h = b.current_hp - c.damage;
                        payout = 0;
                    }
                    let nb = BuildingDetails { current_hp: h, ..b };
                    proof {
                        lemma_sums_update(self.buildings@, i as int, nb);
                    }
                    self.buildings[i] = nb;
                    self.damage_dealt_hp = self.damage_dealt_hp + (b.current_hp - h) as u64;
                    self.artifacts = self.artifacts + payout as u64;
                    self.companion = Some(c2);
                    Ok(
                        CompanionResult {
                            companion_id: c2.id,
                            position: c2.companion_pos,
                            is_alive: c2.companion_health > 0,
                            building_damaged: Some(
                                BuildingDamageResponse {
                                    id: b.map_space_id,
                                    position: b.tile,
                                    hp: h,
                                    artifacts_if_damaged: payout,
                                },
                            ),
                            defender_damaged: None,
                        },
                    )
                },
            }
        } else {
            // Idle: commit to the ranker's top choice.
            match get_companion_priority(
                &self.buildings,
                &self.defenders,
                c.companion_pos,
                roads,
                shortest_path,
            ) {
                None => Ok(
                    CompanionResult {
                        companion_id: c.id,
                        position: c.companion_pos,
                        is_alive: c.companion_health > 0,
                        building_damaged: None,
                        defender_damaged: None,
                    },
                ),
                Some(choice) => {
                    let c2 = Companion {
                        current_target: Some(choice.current_target),
                        target_id: Some(choice.target_id),
                        target_tile: Some(choice.target_tile),
                        reached_dest: false,
                        ..c
                    };
                    self.companion = Some(c2);
                    Ok(
                        CompanionResult {
                            companion_id: c2.id,
                            position: c2.companion_pos,
                            is_alive: c2.companion_health > 0,
                            building_damaged: None,
                            defender_damaged: None,
                        },
                    )
                },
            }
        }
    }
}

/// At most one index is the first match for a defender id.
pub proof fn lemma_first_defender_match_unique(ds: Seq<DefenderDetails>, id: i32)
    ensures
        forall|i: int, j: int|
            is_first_defender_match(ds, id, i) && is_first_defender_match(ds, id, j) ==> i == j,
{
    assert forall|i: int, j: int|
        is_first_defender_match(ds, id, i) && is_first_defender_match(ds, id, j) implies i
        == j by {
        if i < j {
            assert(ds[i].id != id);
        } else if j < i {
            assert(ds[j].id != id);
        }
    }
}

/// At most one index is the first match for a building id.
pub proof fn lemma_first_building_match_unique(bs: Seq<BuildingDetails>, id: i32)
    ensures
        forall|i: int, j: int|
            is_first_building_match(bs, id, i) && is_first_building_match(bs, id, j) ==> i == j,
{
    assert forall|i: int, j: int|
        is_first_building_match(bs, id, i) && is_first_building_match(bs, id, j) implies i
        == j by {
        if i < j {
            assert(bs[i].map_space_id != id);
        } else if j < i {
            assert(bs[j].map_space_id != id);
        }
    }
}


} // verus!
