//! Hut defender spawning: a triggered hut with capacity, a standing
//! building, and an expired spawn interval clones its template defender onto
//! the road-adjacent border tile nearest the attacker's approach.

use vstd::prelude::*;

use crate::routes::Roads;
use crate::state::{building_of, find_building, State};
use crate::types::{
    manhattan, manhattan_spec, BuildingDetails, Coords, DefenderDetails, EngineError,
    HutDefenderDetails,
};

verus! {

/// The border ring of a building's square footprint: the tiles orthogonally
/// adjacent to the footprint, one side after another.
pub open spec fn ring_tiles(b: BuildingDetails) -> Seq<Coords> {
    let w = b.width as int;
    let tx = b.tile.x as int;
    let ty = b.tile.y as int;
    Seq::new(
        (4 * w) as nat,
        |i: int|
            if i < w {
                Coords { x: (tx - 1) as i32, y: (ty + i) as i32 }
            } else if i < 2 * w {
                Coords { x: (tx + w) as i32, y: (ty + (i - w)) as i32 }
            } else if i < 3 * w {
                Coords { x: (tx + (i - 2 * w)) as i32, y: (ty - 1) as i32 }
            } else {
                Coords { x: (tx + (i - 3 * w)) as i32, y: (ty + w) as i32 }
            },
    )
}

/// The ring tiles that are roads: the candidate spawn tiles of a hut.
pub open spec fn road_ring(b: BuildingDetails, roads: Roads) -> Seq<Coords> {
    ring_tiles(b).filter(|c: Coords| roads.has(c))
}

/// The candidate nearest to `apos` by Manhattan distance, earliest first on
/// ties; `None` when there are no candidates.
pub open spec fn best_tile(cands: Seq<Coords>, apos: Coords) -> Option<Coords>
    decreases cands.len(),
{
    if cands.len() == 0 {
        None
    } else {
        let rest = best_tile(cands.drop_last(), apos);
        match rest {
            None => Some(cands.last()),
            Some(t) => if manhattan_spec(cands.last(), apos) < manhattan_spec(t, apos) {
                Some(cands.last())
            } else {
                Some(t)
            },
        }
    }
}

/// The clone a hut releases: the template defender placed on the chosen
/// tile, untargeted, its liveness agreeing with its health.
pub open spec fn spawned_defender(template: DefenderDetails, tile: Coords) -> DefenderDetails {
    DefenderDetails {
        defender_pos: tile,
        target_id: None,
        is_alive: template.current_health > 0,
        ..template
    }
}

/// The clone a hut would release this tick, if any spawn tile exists.
pub open spec fn spawn_choice(
    b: BuildingDetails,
    roads: Roads,
    template: DefenderDetails,
    apos: Coords,
) -> Option<DefenderDetails> {
    match best_tile(road_ring(b, roads), apos) {
        None => None,
        Some(t) => Some(spawned_defender(template, t)),
    }
}

/// Whether the spawn interval has elapsed since the slot's last spawn.
pub open spec fn hut_elapsed(slot: HutDefenderDetails, frequency: u32, now_ms: u64) -> bool {
    match slot.hut_defender_latest_time {
        None => true,
        Some(t) => now_ms >= t + frequency,
    }
}

/// All four spawn conditions of one slot against its backing building:
/// trigger latched, capacity left, building standing, interval elapsed.
pub open spec fn hut_eligible(
    slot: HutDefenderDetails,
    b: BuildingDetails,
    now_ms: u64,
) -> bool {
    &&& slot.hut_triggered
    &&& slot.hut_defenders_count > 0
    &&& b.current_hp > 0
    &&& hut_elapsed(slot, b.frequency, now_ms)
}

/// The defender one slot releases this tick, or `None`.
pub open spec fn hut_spawn_result(
    slot: HutDefenderDetails,
    bs: Seq<BuildingDetails>,
    roads: Roads,
    apos: Coords,
    now_ms: u64,
) -> Option<DefenderDetails> {
    match building_of(bs, slot.map_space_id) {
        None => None,
        Some(b) => if hut_eligible(slot, b, now_ms) {
            spawn_choice(b, roads, slot.hut_defender, apos)
        } else {
            None
        },
    }
}

/// One slot after the spawn pass: a successful spawn consumes one unit of
/// capacity and stamps the spawn time.
pub open spec fn slot_after_spawn(
    slot: HutDefenderDetails,
    bs: Seq<BuildingDetails>,
    roads: Roads,
    apos: Coords,
    now_ms: u64,
) -> HutDefenderDetails {
    if hut_spawn_result(slot, bs, roads, apos, now_ms) is Some {
        HutDefenderDetails {
            hut_defenders_count: (slot.hut_defenders_count - 1) as u32,
            hut_defender_latest_time: Some(now_ms),
            ..slot
        }
    } else {
        slot
    }
}

/// The clones released by all slots this tick, in slot order.
pub open spec fn hut_spawns(
    slots: Seq<HutDefenderDetails>,
    bs: Seq<BuildingDetails>,
    roads: Roads,
    apos: Coords,
    now_ms: u64,
) -> Seq<DefenderDetails>
    decreases slots.len(),
{
    if slots.len() == 0 {
        Seq::empty()
    } else {
        let rest = hut_spawns(slots.drop_last(), bs, roads, apos, now_ms);
        match hut_spawn_result(slots.last(), bs, roads, apos, now_ms) {
            None => rest,
            Some(d) => rest.push(d),
        }
    }
}

/// Whether every slot has its backing building in the snapshot.
pub open spec fn huts_ok(slots: Seq<HutDefenderDetails>, bs: Seq<BuildingDetails>) -> bool {
    forall|i: int|
        0 <= i < slots.len() ==> building_of(bs, #[trigger] slots[i].map_space_id) is Some
}

/// Saturating 32-bit add, for the released-defender counter.
pub open spec fn sat_add_u32(a: u32, b: int) -> u32 {
    if a + b > u32::MAX {
        u32::MAX
    } else {
        (a + b) as u32
    }
}

/// The road-adjacent border tiles of a building's footprint, in ring order.
#[verifier::loop_isolation(false)]
pub fn get_roads_around_building(b: &BuildingDetails, roads: &Roads) -> (r: Vec<Coords>)
    requires
        1 <= b.width <= 0x1000,
        0 <= b.tile.x <= 0x10_0000,
        0 <= b.tile.y <= 0x10_0000,
    ensures
        r@ == road_ring(*b, *roads),
{
    let w = b.width as i32;
    let n: u32 = 4 * b.width;
    let mut r: Vec<Coords> = Vec::new();
    let mut i: u32 = 0;
    while i < n
        invariant
            0 <= i <= n,
            r@ == ring_tiles(*b).take(i as int).filter(|c: Coords| roads.has(c)),
        decreases n - i,
    {
        let t: Coords = if i < b.width {
            Coords { x: b.tile.x - 1, y: b.tile.y + i as i32 }
        } else if i < 2 * b.width {
            Coords { x: b.tile.x + w, y: b.tile.y + (i as i32 - w) }
        } else if i < 3 * b.width {
            Coords { x: b.tile.x + (i as i32 - 2 * w), y: b.tile.y - 1 }
        } else {
            Coords { x: b.tile.x + (i as i32 - 3 * w), y: b.tile.y + w }
        };
        proof {
            assert(ring_tiles(*b).take(i + 1).drop_last() =~= ring_tiles(*b).take(i as int));
            assert(ring_tiles(*b).take(i + 1).last() == ring_tiles(*b)[i as int]);
            assert(t == ring_tiles(*b)[i as int]);
            reveal(Seq::filter);
        }
        if roads.contains(t) {
            r.push(t);
        }
        i = i + 1;
    }
    proof {
        assert(ring_tiles(*b).take(n as int) =~= ring_tiles(*b));
    }
    r
}

/// Chooses the spawn tile nearest the attacker's approach among the hut's
/// road-adjacent border tiles and clones the template defender onto it.
#[verifier::loop_isolation(false)]
pub fn select_side_hut_defender(
    b: &BuildingDetails,
    roads: &Roads,
    template: &DefenderDetails,
    attacker_pos: Coords,
) -> (r: Option<DefenderDetails>)
    requires
        1 <= b.width <= 0x1000,
        0 <= b.tile.x <= 0x10_0000,
        0 <= b.tile.y <= 0x10_0000,
    ensures
        r == spawn_choice(*b, *roads, *template, attacker_pos),
{
    let cands = get_roads_around_building(b, roads);
    let n = cands.len();
    let mut best: Option<Coords> = None;
    let mut best_dist: i64 = 0;
    let mut i: usize = 0;
    while i < n
        invariant
            0 <= i <= n,
            n == cands@.len(),
            best == best_tile(cands@.take(i as int), attacker_pos),
            best matches Some(t) ==> best_dist == manhattan_spec(t, attacker_pos),
        decreases n - i,
    {
        let c = cands[i];
        proof {
            assert(cands@.take(i + 1).drop_last() =~= cands@.take(i as int));
            assert(cands@.take(i + 1).last() == cands@[i as int]);
        }
        let d = manhattan(c, attacker_pos);
        match best {
            None => {
                best = Some(c);
                best_dist = d;
            },
            Some(_) => {
                if d < best_dist {
                    best = Some(c);
                    best_dist = d;
                }
            },
        }
        i = i + 1;
    }
    proof {
        assert(cands@.take(n as int) =~= cands@);
    }
    match best {
        None => None,
        Some(t) => Some(
            DefenderDetails {
                defender_pos: t,
                target_id: None,
                is_alive: template.current_health > 0,
                ..*template
            },
        ),
    }
}

/// How the spawn half of one tick relates the state before and after, and
/// which clones it released.
pub open spec fn spawn_stage(
    pre: State,
    post: State,
    roads: Roads,
    apos: Coords,
    now_ms: u64,
    spawned: Seq<DefenderDetails>,
) -> bool {
    &&& spawned == hut_spawns(pre.hut@, pre.buildings@, roads, apos, now_ms)
    &&& post.defenders@ == pre.defenders@ + spawned
    &&& post.hut@ == pre.hut@.map_values(
        |slot: HutDefenderDetails| slot_after_spawn(slot, pre.buildings@, roads, apos, now_ms),
    )
    &&& post.hut_defenders_released == sat_add_u32(
        pre.hut_defenders_released,
        spawned.len() as int,
    )
    &&& post =~= (State {
        defenders: post.defenders,
        hut: post.hut,
        hut_defenders_released: post.hut_defenders_released,
        ..pre
    })
}

impl State {
    /// The spawn half of one tick: every hut slot whose trigger is latched,
    /// with capacity left, a standing building, and an expired interval
    /// releases one clone of its template onto the road-adjacent border tile
    /// nearest the attacker; the slot's capacity drops by one and its spawn
    /// clock restarts. A slot without its backing building aborts the pass
    /// untouched: the snapshot is defective.
    #[verifier::loop_isolation(false)]
    pub fn spawn_hut_defender(
        &mut self,
        roads: &Roads,
        attacker_pos: Coords,
        now_ms: u64,
    ) -> (r: Result<Vec<DefenderDetails>, EngineError>)
        requires
            old(self).wf(),
        ensures
            final(self).wf(),
            r is Err <==> !huts_ok(old(self).hut@, old(self).buildings@),
            r is Err ==> r == Result::<Vec<DefenderDetails>, EngineError>::Err(
                EngineError::MissingHutBuilding,
            ) && *final(self) == *old(self),
            r matches Ok(spawned) ==> spawn_stage(
                *old(self),
                *final(self),
                *roads,
                attacker_pos,
                now_ms,
                spawned@,
            ),
    {
        let n = self.hut.len();

        let mut i: usize = 0;
        while i < n
            invariant
                0 <= i <= n,
                forall|k: int|
                    0 <= k < i ==> building_of(
                        self.buildings@,
                        #[trigger] self.hut@[k].map_space_id,
                    ) is Some,
            decreases n - i,
        {
            if find_building(&self.buildings, self.hut[i].map_space_id).is_none() {
                return Err(EngineError::MissingHutBuilding);
            }
            i = i + 1;
        }

        let mut response: Vec<DefenderDetails> = Vec::new();
        let mut j: usize = 0;
        while j < n
            invariant
                0 <= j <= n,
                self.hut@.len() == n,
                huts_ok(old(self).hut@, old(self).buildings@),
                forall|k: int|
                    0 <= k < j ==> self.hut@[k] == slot_after_spawn(
                        #[trigger] old(self).hut@[k],
                        old(self).buildings@,
                        *roads,
                        attacker_pos,
                        now_ms,
                    ),
                forall|k: int| j <= k < n ==> #[trigger] self.hut@[k] == old(self).hut@[k],
                response@ == hut_spawns(
                    old(self).hut@.take(j as int),
                    old(self).buildings@,
                    *roads,
                    attacker_pos,
                    now_ms,
                ),
                self.defenders@ == old(self).defenders@ + response@,
                self.hut_defenders_released == sat_add_u32(
                    old(self).hut_defenders_released,
                    response@.len() as int,
                ),
                forall|k: int|
                    0 <= k < self.defenders@.len() ==> (#[trigger] self.defenders@[k].is_alive
                        <==> self.defenders@[k].current_health > 0),
                *self =~= (State {
                    defenders: self.defenders,
                    hut: self.hut,
                    hut_defenders_released: self.hut_defenders_released,
                    ..*old(self)
                }),
            decreases n - j,
        {
            let slot = self.hut[j];
            proof {
                assert(old(self).hut@.take(j + 1).drop_last() =~= old(self).hut@.take(j as int));
                assert(old(self).hut@.take(j + 1).last() == old(self).hut@[j as int]);
            }
            if let Some(b) = find_building(&self.buildings, slot.map_space_id) {
                let elapsed: bool = match slot.hut_defender_latest_time {
                    None => true,
                    Some(t) => now_ms >= t && now_ms - t >= b.frequency as u64,
                };
                if slot.hut_triggered && slot.hut_defenders_count > 0 && b.current_hp > 0
                    && elapsed {
                    if let Some(d) = select_side_hut_defender(
                        &b,
                        roads,
                        &slot.hut_defender,
                        attacker_pos,
                    ) {
                        self.defenders.push(d);
                        response.push(d);
                        self.hut[j] = HutDefenderDetails {
                            hut_defenders_count: slot.hut_defenders_count - 1,
                            hut_defender_latest_time: Some(now_ms),
                            ..slot
                        };
                        if self.hut_defenders_released < u32::MAX {
                            self.hut_defenders_released = self.hut_defenders_released + 1;
                        }
                    }
                }
            }
            j = j + 1;
        }
        proof {
            assert(old(self).hut@.take(n as int) =~= old(self).hut@);
            assert(self.hut@ =~= old(self).hut@.map_values(
                |slot: HutDefenderDetails|
                    slot_after_spawn(slot, old(self).buildings@, *roads, attacker_pos, now_ms),
            ));
            assert forall|k: int, l: int|
                0 <= k < l < self.hut@.len() implies (#[trigger] self.hut@[k]).map_space_id != (
            #[trigger] self.hut@[l]).map_space_id by {
                assert(self.hut@[k] == slot_after_spawn(
                    old(self).hut@[k],
                    old(self).buildings@,
                    *roads,
                    attacker_pos,
                    now_ms,
                ));
                assert(self.hut@[l] == slot_after_spawn(
                    old(self).hut@[l],
                    old(self).buildings@,
                    *roads,
                    attacker_pos,
                    now_ms,
                ));
            }
        }
        Ok(response)
    }
}

} // verus!
