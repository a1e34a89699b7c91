//! The per-session combat state and the engine operations that advance it.
//!
//! One `State` is owned by exactly one session task; every mutation goes
//! through the operations here. Wall-clock time enters each time-dependent
//! operation as a millisecond argument, and the road set and route oracle are
//! injected read-only.

use vstd::prelude::*;

use crate::catalog::{hut_defenders_limit, hut_defenders_limit_spec};
use crate::tally::{
    lemma_sums_bounds, lemma_sums_take_succ, sum_artifacts_standing, sum_current_hp,
    sum_total_hp,
};
use crate::types::{
    manhattan, Attacker, BombType, BuildingDetails, BuildingKind, BulletSpawnResponse, Companion,
    Coords, DefenderDetails, HutDefenderDetails, InValidation, MineDetails, Sentry,
};

verus! {

/// Cap on the building collection's size; keeps every sum over the
/// collection comfortably inside 64 bits.
pub const MAX_BUILDINGS: usize = 0x10000;

/// The authoritative state of one combat session.
#[verifier::ext_equal]
pub struct State {
    pub frame_no: u32,
    pub attacker_user_id: i32,
    pub defender_user_id: i32,
    pub attacker: Option<Attacker>,
    pub companion: Option<Companion>,
    pub attacker_death_count: u32,
    /// Attacker life budget; movement past this many deaths invalidates.
    pub lives: u32,
    /// Flat multiplier applied to bomb damage.
    pub bomb_damage_multiplier: u32,
    pub bombs: BombType,
    pub companion_bomb: BombType,
    /// Cumulative building hit points destroyed this session; the damage
    /// percentage is this over `total_hp_buildings`.
    pub damage_dealt_hp: u64,
    pub artifacts: u64,
    pub defenders: Vec<DefenderDetails>,
    pub hut: Vec<HutDefenderDetails>,
    pub mines: Vec<MineDetails>,
    pub buildings: Vec<BuildingDetails>,
    pub total_hp_buildings: u64,
    pub in_validation: InValidation,
    pub sentries: Vec<Sentry>,
    /// In-flight and resolved sentry bullets, tagged by sentry id.
    pub bullets: Vec<BulletSpawnResponse>,
    pub hut_defenders_released: u32,
}

/// A defender with its target dropped back to inactive.
pub open spec fn defender_cleared(d: DefenderDetails) -> DefenderDetails {
    DefenderDetails { target_id: None, ..d }
}

/// The whole collection with every target cleared; this is the one-shot
/// reset that an attacker death performs.
pub open spec fn targets_cleared(ds: Seq<DefenderDetails>) -> Seq<DefenderDetails> {
    ds.map_values(|d: DefenderDetails| defender_cleared(d))
}

/// The mines standing at `pos`.
pub open spec fn mines_at(ms: Seq<MineDetails>, pos: Coords) -> Seq<MineDetails> {
    ms.filter(|m: MineDetails| m.position == pos)
}

/// The mines that survive a trigger at `pos`.
pub open spec fn mines_not_at(ms: Seq<MineDetails>, pos: Coords) -> Seq<MineDetails> {
    ms.filter(|m: MineDetails| m.position != pos)
}

/// Total damage of the mines standing at `pos`.
pub open spec fn mines_damage_at(ms: Seq<MineDetails>, pos: Coords) -> int
    decreases ms.len(),
{
    if ms.len() == 0 {
        0
    } else {
        mines_damage_at(ms.drop_last(), pos) + if ms.last().position == pos {
            ms.last().damage as int
        } else {
            0
        }
    }
}

/// Health after `damage` is applied, floored at zero.
pub open spec fn clamp_damage(health: u32, damage: int) -> u32 {
    if damage >= health {
        0u32
    } else {
        (health - damage) as u32
    }
}

/// First template in the hydration list bound to the hut with this
/// map-space id.
pub open spec fn template_for(ts: Seq<(i32, DefenderDetails)>, id: i32) -> Option<DefenderDetails>
    decreases ts.len(),
{
    if ts.len() == 0 {
        None
    } else if ts[0].0 == id {
        Some(ts[0].1)
    } else {
        template_for(ts.skip(1), id)
    }
}

/// The spawn slot a hut building starts the session with.
pub open spec fn initial_slot(b: BuildingDetails, t: DefenderDetails) -> HutDefenderDetails {
    HutDefenderDetails {
        map_space_id: b.map_space_id,
        hut_defender: t,
        hut_triggered: false,
        hut_defenders_count: hut_defenders_limit_spec(t.level),
        hut_defender_latest_time: None,
    }
}

/// One spawn slot per hut building that has a template in the hydration
/// list, in building order.
pub open spec fn hut_slots_init(
    bs: Seq<BuildingDetails>,
    ts: Seq<(i32, DefenderDetails)>,
) -> Seq<HutDefenderDetails>
    decreases bs.len(),
{
    if bs.len() == 0 {
        Seq::empty()
    } else {
        let rest = hut_slots_init(bs.drop_last(), ts);
        let b = bs.last();
        if b.kind is DefenderHut && template_for(ts, b.map_space_id) is Some {
            rest.push(initial_slot(b, template_for(ts, b.map_space_id).unwrap()))
        } else {
            rest
        }
    }
}

/// Whether some building in the collection carries this map-space id.
pub open spec fn contains_building_id(bs: Seq<BuildingDetails>, id: i32) -> bool {
    exists|i: int| 0 <= i < bs.len() && (#[trigger] bs[i]).map_space_id == id
}

/// The slot ids of `hut_slots_init` are building ids, and distinct whenever
/// the building ids are distinct.
pub proof fn lemma_hut_slots_init_distinct(
    bs: Seq<BuildingDetails>,
    ts: Seq<(i32, DefenderDetails)>,
)
    requires
        forall|i: int, j: int|
            0 <= i < j < bs.len() ==> (#[trigger] bs[i]).map_space_id != (
            #[trigger] bs[j]).map_space_id,
    ensures
        forall|k: int|
            0 <= k < hut_slots_init(bs, ts).len() ==> contains_building_id(
                bs,
                (#[trigger] hut_slots_init(bs, ts)[k]).map_space_id,
            ),
        forall|k: int, l: int|
            0 <= k < l < hut_slots_init(bs, ts).len() ==> (#[trigger] hut_slots_init(
                bs,
                ts,
            )[k]).map_space_id != (#[trigger] hut_slots_init(bs, ts)[l]).map_space_id,
    decreases bs.len(),
{
    if bs.len() > 0 {
        let prefix = bs.drop_last();
        lemma_hut_slots_init_distinct(prefix, ts);
        let slots = hut_slots_init(bs, ts);
        let rest = hut_slots_init(prefix, ts);
        assert forall|k: int|
            0 <= k < rest.len() implies contains_building_id(
            bs,
            (#[trigger] rest[k]).map_space_id,
        ) by {
            let i = choose|i: int|
                0 <= i < prefix.len() && (#[trigger] prefix[i]).map_space_id
                    == rest[k].map_space_id;
            assert(bs[i].map_space_id == rest[k].map_space_id);
        }
        if bs.last().kind is DefenderHut && template_for(ts, bs.last().map_space_id) is Some {
            assert(slots == rest.push(
                initial_slot(bs.last(), template_for(ts, bs.last().map_space_id).unwrap()),
            ));
            assert forall|k: int|
                0 <= k < rest.len() implies (#[trigger] rest[k]).map_space_id != bs.last().map_space_id by {
                let i = choose|i: int|
                    0 <= i < bs.len() && (#[trigger] bs[i]).map_space_id == rest[k].map_space_id;
                if i < bs.len() - 1 {
                    assert(bs[i].map_space_id != bs[bs.len() - 1].map_space_id);
                } else {
                    // The last building's id appears among the prefix slots'
                    // source buildings, contradicting distinctness.
                    let p = choose|p: int|
                        0 <= p < prefix.len() && (#[trigger] prefix[p]).map_space_id
                            == rest[k].map_space_id;
                    assert(bs[p].map_space_id != bs[bs.len() - 1].map_space_id);
                }
            }
        }
    }
}

/// The sentry record a sentry building starts the session with.
pub open spec fn initial_sentry(b: BuildingDetails, now_ms: u64) -> Sentry {
    Sentry {
        id: b.map_space_id,
        building_data: b,
        is_sentry_activated: false,
        sentry_start_time: now_ms,
        current_bullet_shot_id: 0,
        current_bullet_shot_time: now_ms,
    }
}

/// One sentry per sentry building, in building order.
pub open spec fn sentries_init(bs: Seq<BuildingDetails>, now_ms: u64) -> Seq<Sentry>
    decreases bs.len(),
{
    if bs.len() == 0 {
        Seq::empty()
    } else {
        let rest = sentries_init(bs.drop_last(), now_ms);
        if bs.last().kind is Sentry {
            rest.push(initial_sentry(bs.last(), now_ms))
        } else {
            rest
        }
    }
}

impl State {
    /// A building collection the session bookkeeping can stand on: bounded
    /// size, non-empty footprints, and hit points within their totals.
    pub open spec fn wf_buildings(self) -> bool {
        &&& self.buildings@.len() <= MAX_BUILDINGS
        &&& forall|i: int|
            0 <= i < self.buildings@.len() ==> 1 <= #[trigger] self.buildings@[i].width <= 0x1000
        &&& forall|i: int|
            0 <= i < self.buildings@.len() ==> (0 <= #[trigger] self.buildings@[i].tile.x
                <= 0x10_0000 && 0 <= self.buildings@[i].tile.y <= 0x10_0000)
        &&& forall|i: int|
            0 <= i < self.buildings@.len() ==> #[trigger] self.buildings@[i].current_hp
                <= self.buildings@[i].total_hp
        &&& forall|i: int|
            0 <= i < self.buildings@.len() ==> (#[trigger] self.buildings@[i].kind is Sentry
                ==> self.buildings@[i].frequency >= 1)
    }

    /// The economy invariant: the stored total is the sum of building
    /// totals, and the damage dealt so far is exactly the hit points the
    /// base has lost. Together they bound the damage percentage by 100.
    pub open spec fn wf_economy(self) -> bool {
        &&& self.total_hp_buildings == sum_total_hp(self.buildings@)
        &&& self.damage_dealt_hp == sum_total_hp(self.buildings@) - sum_current_hp(
            self.buildings@,
        )
        &&& self.artifacts + sum_artifacts_standing(self.buildings@) <= 0xffff_ffff_ffff
    }

    /// Defender liveness agrees with health.
    pub open spec fn wf_defenders(self) -> bool {
        forall|i: int|
            0 <= i < self.defenders@.len() ==> (#[trigger] self.defenders@[i].is_alive <==> self
                .defenders@[i].current_health > 0)
    }

    /// Every sentry's fire rate divides time meaningfully.
    pub open spec fn wf_sentries(self) -> bool {
        forall|i: int|
            0 <= i < self.sentries@.len() ==> #[trigger] self.sentries@[i].building_data.frequency
                >= 1
    }

    /// The mine collection is bounded by the board's capacity, so summed
    /// mine damage stays inside 64 bits.
    pub open spec fn wf_mines(self) -> bool {
        self.mines@.len() <= MAX_BUILDINGS
    }

    /// Each hut spawn slot is keyed by a distinct building, as the hydrated
    /// per-building map guarantees: no two slots share a backing building.
    pub open spec fn wf_huts(self) -> bool {
        forall|i: int, j: int|
            0 <= i < j < self.hut@.len() ==> (#[trigger] self.hut@[i]).map_space_id != (
            #[trigger] self.hut@[j]).map_space_id
    }

    /// Session-state well-formedness: constructors establish it and every
    /// engine operation preserves it.
    pub open spec fn wf(self) -> bool {
        &&& self.wf_buildings()
        &&& self.wf_economy()
        &&& self.wf_defenders()
        &&& self.wf_sentries()
        &&& self.wf_mines()
        &&& self.wf_huts()
    }

    /// Builds the session state from the hydrated entity snapshot: the
    /// defender and mine collections as given, one spawn slot per hut
    /// building (the snapshot must supply each hut's template defender and
    /// key each building uniquely), one sentry per sentry building, and an
    /// untouched economy.
    #[verifier::loop_isolation(false)]
    pub fn new(
        attacker_user_id: i32,
        defender_user_id: i32,
        defenders: Vec<DefenderDetails>,
        hut_defenders: Vec<(i32, DefenderDetails)>,
        mines: Vec<MineDetails>,
        buildings: Vec<BuildingDetails>,
        now_ms: u64,
    ) -> (r: State)
        requires
            buildings@.len() <= MAX_BUILDINGS,
            mines@.len() <= MAX_BUILDINGS,
            forall|i: int| 0 <= i < buildings@.len() ==> 1 <= #[trigger] buildings@[i].width <= 0x1000,
            forall|i: int|
                0 <= i < buildings@.len() ==> (0 <= #[trigger] buildings@[i].tile.x <= 0x10_0000
                    && 0 <= buildings@[i].tile.y <= 0x10_0000),
            forall|i: int|
                0 <= i < buildings@.len() ==> #[trigger] buildings@[i].current_hp
                    <= buildings@[i].total_hp,
            forall|i: int|
                0 <= i < buildings@.len() ==> (#[trigger] buildings@[i].kind is Sentry
                    ==> buildings@[i].frequency >= 1),
            forall|i: int, j: int|
                0 <= i < j < buildings@.len() ==> (#[trigger] buildings@[i]).map_space_id != (
                #[trigger] buildings@[j]).map_space_id,
            forall|i: int|
                0 <= i < buildings@.len() ==> (#[trigger] buildings@[i].kind is DefenderHut
                    ==> template_for(hut_defenders@, buildings@[i].map_space_id) is Some),
            forall|i: int|
                0 <= i < defenders@.len() ==> (#[trigger] defenders@[i].is_alive
                    <==> defenders@[i].current_health > 0),
        ensures
            r.wf(),
            r.frame_no == 0,
            r.attacker_user_id == attacker_user_id,
            r.defender_user_id == defender_user_id,
            r.attacker is None,
            r.companion is None,
            r.attacker_death_count == 0,
            r.lives == crate::catalog::LIVES,
            r.bomb_damage_multiplier == crate::catalog::BOMB_DAMAGE_MULTIPLIER,
            r.bombs.total_count == 0,
            r.companion_bomb.total_count == 0,
            r.artifacts == 0,
            r.damage_dealt_hp == sum_total_hp(buildings@) - sum_current_hp(buildings@),
            r.defenders@ == defenders@,
            r.hut@ == hut_slots_init(buildings@, hut_defenders@),
            r.mines@ == mines@,
            r.buildings@ == buildings@,
            r.total_hp_buildings == sum_total_hp(buildings@),
            !r.in_validation.is_invalidated,
            r.sentries@ == sentries_init(buildings@, now_ms),
            r.bullets@.len() == 0,
            r.hut_defenders_released == 0,
    {
        let n = buildings.len();

        let mut hut: Vec<HutDefenderDetails> = Vec::new();
        let mut sentries: Vec<Sentry> = Vec::new();
        let mut total_hp: u64 = 0;
        let mut standing_hp: u64 = 0;

        let mut i: usize = 0;
        while i < n
            invariant
                0 <= i <= n,
                hut@ == hut_slots_init(buildings@.take(i as int), hut_defenders@),
                forall|k: int|
                    0 <= k < sentries@.len() ==> #[trigger] sentries@[k].building_data.frequency
                        >= 1,
                sentries@ == sentries_init(buildings@.take(i as int), now_ms),
                total_hp == sum_total_hp(buildings@.take(i as int)),
                standing_hp == sum_current_hp(buildings@.take(i as int)),
                total_hp <= i * 0xffff_ffff,
                standing_hp <= total_hp,
            decreases n - i,
        {
            let b = buildings[i];
            proof {
                lemma_sums_take_succ(buildings@, i as int);
                assert(buildings@.take(i + 1).drop_last() =~= buildings@.take(i as int));
                assert((i as int) * 0xffff_ffff + 0xffff_ffff == (i + 1) * 0xffff_ffff)
                    by (nonlinear_arith);
            }
            match b.kind {
                BuildingKind::DefenderHut => {
                    if let Some(t) = find_template(&hut_defenders, b.map_space_id) {
                        hut.push(
                            HutDefenderDetails {
                                map_space_id: b.map_space_id,
                                hut_defender: t,
                                hut_triggered: false,
                                hut_defenders_count: hut_defenders_limit(t.level),
                                hut_defender_latest_time: None,
                            },
                        );
                    }
                },
                BuildingKind::Sentry => {
                    sentries.push(
                        Sentry {
                            id: b.map_space_id,
                            building_data: b,
                            is_sentry_activated: false,
                            sentry_start_time: now_ms,
                            current_bullet_shot_id: 0,
                            current_bullet_shot_time: now_ms,
                        },
                    );
                },
                _ => {},
            }
            total_hp = total_hp + b.total_hp as u64;
            standing_hp = standing_hp + b.current_hp as u64;
            i = i + 1;
        }
        proof {
            assert(buildings@.take(n as int) =~= buildings@);
            lemma_sums_bounds(buildings@);
            lemma_hut_slots_init_distinct(buildings@, hut_defenders@);
            assert(buildings@.len() * 0xffff_ffff <= 0x10000 * 0xffff_ffff) by (nonlinear_arith)
                requires
                    buildings@.len() <= 0x10000,
            ;
        }

        State {
            frame_no: 0,
            attacker_user_id,
            defender_user_id,
            attacker: None,
            companion: None,
            attacker_death_count: 0,
            lives: crate::catalog::LIVES,
            bomb_damage_multiplier: crate::catalog::BOMB_DAMAGE_MULTIPLIER,
            bombs: BombType { id: -1, radius: 0, damage: 0, total_count: 0 },
            companion_bomb: BombType { id: -1, radius: 0, damage: 0, total_count: 0 },
            damage_dealt_hp: total_hp - standing_hp,
            artifacts: 0,
            defenders,
            hut,
            mines,
            buildings,
            total_hp_buildings: total_hp,
            in_validation: InValidation::new(),
            sentries,
            bullets: Vec::new(),
            hut_defenders_released: 0,
        }
    }

    /// Rebuilds the sentry collection from the current buildings, resetting
    /// every sentry's clocks and activation and dropping the bullet ledger:
    /// a rebuilt sentry starts with no bullets in flight.
    #[verifier::loop_isolation(false)]
    pub fn get_sentries(&mut self, now_ms: u64)
        requires
            old(self).wf(),
        ensures
            final(self).wf(),
            final(self).sentries@ == sentries_init(old(self).buildings@, now_ms),
            final(self).bullets@ == Seq::<BulletSpawnResponse>::empty(),
            *final(self) =~= (State {
                sentries: final(self).sentries,
                bullets: final(self).bullets,
                ..*old(self)
            }),
    {
        let n = self.buildings.len();
        let mut sentries: Vec<Sentry> = Vec::new();
        let mut i: usize = 0;
        while i < n
            invariant
                0 <= i <= n,
                sentries@ == sentries_init(self.buildings@.take(i as int), now_ms),
                forall|k: int|
                    0 <= k < sentries@.len() ==> #[trigger] sentries@[k].building_data.frequency
                        >= 1,
            decreases n - i,
        {
            let b = self.buildings[i];
            proof {
                assert(self.buildings@.take(i + 1).drop_last() =~= self.buildings@.take(i as int));
            }
            if matches!(b.kind, BuildingKind::Sentry) {
                sentries.push(
                    Sentry {
                        id: b.map_space_id,
                        building_data: b,
                        is_sentry_activated: false,
                        sentry_start_time: now_ms,
                        current_bullet_shot_id: 0,
                        current_bullet_shot_time: now_ms,
                    },
                );
            }
            i = i + 1;
        }
        proof {
            assert(self.buildings@.take(n as int) =~= self.buildings@);
        }
        self.sentries = sentries;
        self.bullets = Vec::new();
        proof {
            assert(self.bullets@ =~= Seq::<BulletSpawnResponse>::empty());
        }
    }

    /// Recomputes the base's total hit points from the building collection
    /// and re-anchors the cumulative damage to it.
    #[verifier::loop_isolation(false)]
    pub fn set_total_hp_buildings(&mut self)
        requires
            old(self).wf(),
        ensures
            final(self).wf(),
            final(self).total_hp_buildings == sum_total_hp(old(self).buildings@),
            final(self).damage_dealt_hp == sum_total_hp(old(self).buildings@) - sum_current_hp(
                old(self).buildings@,
            ),
            *final(self) =~= (State {
                total_hp_buildings: final(self).total_hp_buildings,
                damage_dealt_hp: final(self).damage_dealt_hp,
                ..*old(self)
            }),
    {
        let n = self.buildings.len();
        let mut total_hp: u64 = 0;
        let mut standing_hp: u64 = 0;
        let mut i: usize = 0;
        while i < n
            invariant
                n == self.buildings@.len(),
                n <= MAX_BUILDINGS,
                0 <= i <= n,
                forall|k: int| 0 <= k < n ==> #[trigger] self.buildings@[k].current_hp
                    <= self.buildings@[k].total_hp,
                total_hp == sum_total_hp(self.buildings@.take(i as int)),
                standing_hp == sum_current_hp(self.buildings@.take(i as int)),
                total_hp <= i * 0xffff_ffff,
                standing_hp <= total_hp,
            decreases n - i,
        {
            let b = self.buildings[i];
            proof {
                lemma_sums_take_succ(self.buildings@, i as int);
                assert(self.buildings@.take(i + 1).drop_last() =~= self.buildings@.take(i as int));
                assert((i as int) * 0xffff_ffff + 0xffff_ffff == (i + 1) * 0xffff_ffff)
                    by (nonlinear_arith);
            }
            total_hp = total_hp + b.total_hp as u64;
            standing_hp = standing_hp + b.current_hp as u64;
            i = i + 1;
        }
        proof {
            assert(self.buildings@.take(n as int) =~= self.buildings@);
        }
        self.total_hp_buildings = total_hp;
        self.damage_dealt_hp = total_hp - standing_hp;
    }

    /// Binds the attacker's bomb type and inventory count.
    pub fn set_bombs(&mut self, bomb_type: BombType, bombs: u32)
        ensures
            final(self).bombs == (BombType {
                id: bomb_type.id,
                radius: bomb_type.radius,
                damage: bomb_type.damage,
                total_count: bombs,
            }),
            *final(self) =~= (State { bombs: final(self).bombs, ..*old(self) }),
    {
        self.bombs = BombType {
            id: bomb_type.id,
            radius: bomb_type.radius,
            damage: bomb_type.damage,
            total_count: bombs,
        };
    }

    /// Binds the companion's bomb type and inventory count.
    pub fn set_companion_bombs(&mut self, bomb_type: BombType, bombs: u32)
        ensures
            final(self).companion_bomb == (BombType {
                id: bomb_type.id,
                radius: bomb_type.radius,
                damage: bomb_type.damage,
                total_count: bombs,
            }),
            *final(self) =~= (State { companion_bomb: final(self).companion_bomb, ..*old(self) }),
    {
        self.companion_bomb = BombType {
            id: bomb_type.id,
            radius: bomb_type.radius,
            damage: bomb_type.damage,
            total_count: bombs,
        };
    }

    /// Overwrites the frame counter; placement actions resynchronize it to
    /// the client's declared frame.
    pub fn update_frame_number(&mut self, frame_no: u32)
        ensures
            final(self).frame_no == frame_no,
            *final(self) =~= (State { frame_no, ..*old(self) }),
    {
        self.frame_no = frame_no;
    }

    /// Clears every defender's target: the one-shot reset performed when the
    /// attacker dies.
    #[verifier::loop_isolation(false)]
    pub fn clear_all_defender_targets(&mut self)
        ensures
            final(self).defenders@ == targets_cleared(old(self).defenders@),
            *final(self) =~= (State { defenders: final(self).defenders, ..*old(self) }),
    {
        let n = self.defenders.len();
        let mut i: usize = 0;
        while i < n
            invariant
                n == self.defenders@.len(),
                0 <= i <= n,
                forall|k: int|
                    0 <= k < i ==> self.defenders@[k] == defender_cleared(
                        #[trigger] old(self).defenders@[k],
                    ),
                forall|k: int|
                    i <= k < n ==> #[trigger] self.defenders@[k] == old(self).defenders@[k],
                *self =~= (State { defenders: self.defenders, ..*old(self) }),
            decreases n - i,
        {
            let d = self.defenders[i];
            self.defenders[i] = DefenderDetails { target_id: None, ..d };
            i = i + 1;
        }
        proof {
            assert(self.defenders@ =~= targets_cleared(old(self).defenders@));
        }
    }

    /// Force-kills the attacker: health to zero, death counted, every
    /// defender target cleared. The companion is untouched.
    pub fn self_destruct(&mut self)
        requires
            old(self).attacker is Some,
            old(self).attacker_death_count < u32::MAX,
        ensures
            final(self).attacker == Some(
                Attacker { attacker_health: 0u32, ..old(self).attacker.unwrap() },
            ),
            final(self).attacker_death_count == old(self).attacker_death_count + 1,
            final(self).defenders@ == targets_cleared(old(self).defenders@),
            *final(self) =~= (State {
                attacker: final(self).attacker,
                attacker_death_count: final(self).attacker_death_count,
                defenders: final(self).defenders,
                ..*old(self)
            }),
    {
        self.attacker_death_count = self.attacker_death_count + 1;
        let a = *self.attacker.as_ref().unwrap();
        self.attacker = Some(Attacker { attacker_health: 0, ..a });
        self.clear_all_defender_targets();
    }

    /// Places the attacker and recomputes sentry activation from its spawn
    /// tile.
    pub fn place_attacker(&mut self, attacker: Attacker, now_ms: u64)
        requires
            old(self).wf(),
        ensures
            final(self).wf(),
            final(self).attacker == Some(attacker),
            final(self).sentries@ == sentries_activated(
                old(self).sentries@,
                old(self).buildings@,
                attacker.attacker_pos,
                now_ms,
            ),
            final(self).bullets@ == bullets_expired(
                old(self).bullets@,
                old(self).sentries@,
                old(self).buildings@,
                attacker.attacker_pos,
                now_ms,
            ),
            *final(self) =~= (State {
                attacker: final(self).attacker,
                sentries: final(self).sentries,
                bullets: final(self).bullets,
                ..*old(self)
            }),
    {
        self.attacker = Some(attacker);
        self.activate_sentry(attacker.attacker_pos, now_ms);
    }

    /// Places the companion.
    pub fn place_companion(&mut self, companion: Companion)
        ensures
            final(self).companion == Some(companion),
            *final(self) =~= (State { companion: final(self).companion, ..*old(self) }),
    {
        self.companion = Some(companion);
    }

    /// Damage percentage dealt so far, as a whole percentage of the base's
    /// total hit points. Never exceeds one hundred.
    pub fn damage_percentage(&self) -> (r: u32)
        requires
            self.wf(),
        ensures
            r == damage_percentage_spec(*self),
            r <= 100,
    {
        proof {
            lemma_sums_bounds(self.buildings@);
        }
        if self.total_hp_buildings == 0 {
            0
        } else {
            let r = (self.damage_dealt_hp * 100) / self.total_hp_buildings;
            proof {
                let d = self.damage_dealt_hp as int;
                let t = self.total_hp_buildings as int;
                vstd::arithmetic::mul::lemma_mul_inequality(d, t, 100);
                vstd::arithmetic::div_mod::lemma_div_is_ordered(d * 100, t * 100, t);
                vstd::arithmetic::div_mod::lemma_div_by_multiple(100, t);
                assert(t * 100 == 100 * t) by (nonlinear_arith);
                assert(d * 100 <= t * 100) by {
                    assert(d * 100 == 100 * d) by (nonlinear_arith);
                    assert(t * 100 == 100 * t) by (nonlinear_arith);
                };
            }
            r as u32
        }
    }

    /// Applies one triggered mine: damages the attacker (floored at zero),
    /// performs death bookkeeping when the health reaches zero, and removes
    /// the mine from the collection.
    pub fn mine_blast_update(&mut self, id: i32, damage_to_attacker: u32)
        requires
            old(self).wf(),
            old(self).attacker is Some,
            old(self).attacker_death_count < u32::MAX,
        ensures
            final(self).wf(),
            mine_hit_rel(*old(self), *final(self), damage_to_attacker as int),
            final(self).mines@ == old(self).mines@.filter(
                |m: MineDetails| m.id != id,
            ),
            *final(self) =~= (State {
                attacker: final(self).attacker,
                attacker_death_count: final(self).attacker_death_count,
                defenders: final(self).defenders,
                mines: final(self).mines,
                ..*old(self)
            }),
    {
        let a = *self.attacker.as_ref().unwrap();
        if a.attacker_health > 0 {
            let new_health = if damage_to_attacker >= a.attacker_health {
                0
            } else {
                a.attacker_health - damage_to_attacker
            };
            if new_health == 0 {
                self.attacker = Some(
                    Attacker {
                        attacker_health: 0,
                        attacker_pos: Coords { x: -1, y: -1 },
                        ..a
                    },
                );
                self.attacker_death_count = self.attacker_death_count + 1;
                self.clear_all_defender_targets();
            } else {
                self.attacker = Some(Attacker { attacker_health: new_health, ..a });
            }
        }
        self.retain_mines_not_id(id);
    }

    /// Removes every mine with the given id.
    #[verifier::loop_isolation(false)]
    fn retain_mines_not_id(&mut self, id: i32)
        ensures
            final(self).mines@ == old(self).mines@.filter(|m: MineDetails| m.id != id),
            *final(self) =~= (State { mines: final(self).mines, ..*old(self) }),
    {
        let n = self.mines.len();
        let mut kept: Vec<MineDetails> = Vec::new();
        let mut i: usize = 0;
        while i < n
            invariant
                n == self.mines@.len(),
                0 <= i <= n,
                kept@ == self.mines@.take(i as int).filter(|m: MineDetails| m.id != id),
                *self =~= *old(self),
            decreases n - i,
        {
            let m = self.mines[i];
            proof {
                assert(self.mines@.take(i + 1).drop_last() =~= self.mines@.take(i as int));
                reveal(Seq::filter);
            }
            if m.id != id {
                kept.push(m);
            }
            i = i + 1;
        }
        proof {
            assert(self.mines@.take(n as int) =~= self.mines@);
        }
        self.mines = kept;
    }
}

/// The damage percentage a state reports: cumulative damage over the base's
/// total hit points, as a whole percentage; zero for a base with no hit
/// points.
pub open spec fn damage_percentage_spec(s: State) -> int {
    if s.total_hp_buildings == 0 {
        0
    } else {
        (s.damage_dealt_hp * 100) as int / s.total_hp_buildings as int
    }
}

/// How one mine hit relates the attacker, death count and defenders before
/// and after: damage floors at zero, and crossing to zero counts one death
/// and clears every defender target.
pub open spec fn mine_hit_rel(pre: State, post: State, damage: int) -> bool {
    let a = pre.attacker.unwrap();
    if a.attacker_health == 0 {
        &&& post.attacker == pre.attacker
        &&& post.attacker_death_count == pre.attacker_death_count
        &&& post.defenders@ == pre.defenders@
    } else if damage >= a.attacker_health {
        &&& post.attacker == Some(
            Attacker { attacker_health: 0u32, attacker_pos: Coords { x: -1i32, y: -1i32 }, ..a },
        )
        &&& post.attacker_death_count == pre.attacker_death_count + 1
        &&& post.defenders@ == targets_cleared(pre.defenders@)
    } else {
        &&& post.attacker == Some(
            Attacker { attacker_health: (a.attacker_health - damage) as u32, ..a },
        )
        &&& post.attacker_death_count == pre.attacker_death_count
        &&& post.defenders@ == pre.defenders@
    }
}

/// Every sentry after one activation recompute against the attacker's tile.
pub open spec fn sentries_activated(
    ss: Seq<Sentry>,
    bs: Seq<BuildingDetails>,
    pos: Coords,
    now_ms: u64,
) -> Seq<Sentry> {
    ss.map_values(|s: Sentry| sentry_after_activation(s, building_hp_of(bs, s.building_data.map_space_id), pos, now_ms))
}

/// Current hit points of the building with this map-space id; zero when the
/// snapshot has no such building.
pub open spec fn building_hp_of(bs: Seq<BuildingDetails>, id: i32) -> u32
    decreases bs.len(),
{
    if bs.len() == 0 {
        0
    } else if bs[0].map_space_id == id {
        bs[0].current_hp
    } else {
        building_hp_of(bs.skip(1), id)
    }
}

/// Whether a standing sentry is in activation range of the attacker.
pub open spec fn sentry_in_range(s: Sentry, pos: Coords) -> bool {
    crate::types::manhattan_spec(s.building_data.tile, pos) <= s.building_data.range
}

/// One sentry's activation recompute: destroyed sentries deactivate; an
/// idle-to-active edge resets the fire clock; range decides the rest.
pub open spec fn sentry_after_activation(s: Sentry, bhp: u32, pos: Coords, now_ms: u64) -> Sentry {
    if bhp == 0 {
        Sentry { is_sentry_activated: false, ..s }
    } else {
        let active = sentry_in_range(s, pos);
        if active && !s.is_sentry_activated {
            Sentry {
                is_sentry_activated: true,
                sentry_start_time: now_ms,
                current_bullet_shot_time: now_ms,
                ..s
            }
        } else {
            Sentry { is_sentry_activated: active, ..s }
        }
    }
}

/// Whether this activation pass is a deactivation edge for `s`.
pub open spec fn sentry_falls(s: Sentry, bhp: u32, pos: Coords) -> bool {
    s.is_sentry_activated && (bhp == 0 || !sentry_in_range(s, pos))
}

/// A bullet's shot time forced far enough into the past that it resolves on
/// the next resolution pass.
pub open spec fn expired_shot_time(now_ms: u64) -> u64 {
    if now_ms >= crate::catalog::BULLET_COLLISION_TIME {
        (now_ms - crate::catalog::BULLET_COLLISION_TIME) as u64
    } else {
        0u64
    }
}

/// Bullets after a deactivation edge: every unresolved bullet of a falling
/// sentry has its collision deadline force-expired.
pub open spec fn bullets_expired(
    bullets: Seq<BulletSpawnResponse>,
    ss: Seq<Sentry>,
    bs: Seq<BuildingDetails>,
    pos: Coords,
    now_ms: u64,
) -> Seq<BulletSpawnResponse> {
    bullets.map_values(
        |b: BulletSpawnResponse|
            if !b.has_collided && (exists|j: int|
                0 <= j < ss.len() && #[trigger] ss[j].id == b.sentry_id && sentry_falls(
                    ss[j],
                    building_hp_of(bs, ss[j].building_data.map_space_id),
                    pos,
                )) {
                BulletSpawnResponse { shot_time: expired_shot_time(now_ms), ..b }
            } else {
                b
            },
    )
}

impl State {
    /// Recomputes every sentry's activation from the attacker's tile and
    /// force-expires the in-flight bullets of sentries that just fell idle.
    #[verifier::loop_isolation(false)]
    pub fn activate_sentry(&mut self, new_pos: Coords, now_ms: u64)
        requires
            old(self).wf(),
        ensures
            final(self).wf(),
            final(self).sentries@ == sentries_activated(
                old(self).sentries@,
                old(self).buildings@,
                new_pos,
                now_ms,
            ),
            final(self).bullets@ == bullets_expired(
                old(self).bullets@,
                old(self).sentries@,
                old(self).buildings@,
                new_pos,
                now_ms,
            ),
            *final(self) =~= (State {
                sentries: final(self).sentries,
                bullets: final(self).bullets,
                ..*old(self)
            }),
    {
        let ns = self.sentries.len();
        let mut falling: Vec<bool> = Vec::new();
        let mut ids: Vec<i32> = Vec::new();
        let mut i: usize = 0;
        while i < ns
            invariant
                0 <= i <= ns,
                falling@.len() == i,
                ids@.len() == i,
                self.sentries@.len() == ns,
                forall|k: int|
                    0 <= k < i ==> self.sentries@[k] == sentry_after_activation(
                        #[trigger] old(self).sentries@[k],
                        building_hp_of(
                            old(self).buildings@,
                            old(self).sentries@[k].building_data.map_space_id,
                        ),
                        new_pos,
                        now_ms,
                    ),
                forall|k: int|
                    0 <= k < i ==> falling@[k] == sentry_falls(
                        #[trigger] old(self).sentries@[k],
                        building_hp_of(
                            old(self).buildings@,
                            old(self).sentries@[k].building_data.map_space_id,
                        ),
                        new_pos,
                    ),
                forall|k: int| 0 <= k < i ==> ids@[k] == #[trigger] old(self).sentries@[k].id,
                forall|k: int|
                    i <= k < ns ==> #[trigger] self.sentries@[k] == old(self).sentries@[k],
                *self =~= (State { sentries: self.sentries, ..*old(self) }),
            decreases ns - i,
        {
            let s = self.sentries[i];
            let bhp = building_hp(&self.buildings, s.building_data.map_space_id);
            let falls: bool;
            if bhp == 0 {
                falls = s.is_sentry_activated;
                self.sentries[i] = Sentry { is_sentry_activated: false, ..s };
            } else {
                let active = manhattan(s.building_data.tile, new_pos)
                    <= s.building_data.range as i64;
                falls = s.is_sentry_activated && !active;
                if active && !s.is_sentry_activated {
                    self.sentries[i] = Sentry {
                        is_sentry_activated: true,
                        sentry_start_time: now_ms,
                        current_bullet_shot_time: now_ms,
                        ..s
                    };
                } else {
                    self.sentries[i] = Sentry { is_sentry_activated: active, ..s };
                }
            }
            falling.push(falls);
            ids.push(s.id);
            i = i + 1;
        }
        proof {
            assert(self.sentries@ =~= sentries_activated(
                old(self).sentries@,
                old(self).buildings@,
                new_pos,
                now_ms,
            ));
        }

        let expire_time = if now_ms >= crate::catalog::BULLET_COLLISION_TIME {
            now_ms - crate::catalog::BULLET_COLLISION_TIME
        } else {
            0
        };
        let nb = self.bullets.len();
        let mut new_bullets: Vec<BulletSpawnResponse> = Vec::new();
        let mut j: usize = 0;
        while j < nb
            invariant
                0 <= j <= nb,
                nb == self.bullets@.len(),
                self.bullets@ == old(self).bullets@,
                expire_time == expired_shot_time(now_ms),
                new_bullets@.len() == j,
                forall|k: int|
                    0 <= k < j ==> new_bullets@[k] == bullets_expired(
                        old(self).bullets@,
                        old(self).sentries@,
                        old(self).buildings@,
                        new_pos,
                        now_ms,
                    )[k],
            decreases nb - j,
        {
            let b = self.bullets[j];
            let fell = !b.has_collided && any_falling(&falling, &ids, b.sentry_id);
            proof {
                if fell {
                    let t = choose|t: int|
                        0 <= t < falling@.len() && falling@[t] && ids@[t] == b.sentry_id;
                    assert(old(self).sentries@[t].id == b.sentry_id && sentry_falls(
                        old(self).sentries@[t],
                        building_hp_of(
                            old(self).buildings@,
                            old(self).sentries@[t].building_data.map_space_id,
                        ),
                        new_pos,
                    ));
                } else if !b.has_collided {
                    assert forall|t: int|
                        0 <= t < old(self).sentries@.len()
                            && #[trigger] old(self).sentries@[t].id == b.sentry_id implies !sentry_falls(
                        old(self).sentries@[t],
                        building_hp_of(
                            old(self).buildings@,
                            old(self).sentries@[t].building_data.map_space_id,
                        ),
                        new_pos,
                    ) by {
                        assert(falling@[t] == sentry_falls(
                            old(self).sentries@[t],
                            building_hp_of(
                                old(self).buildings@,
                                old(self).sentries@[t].building_data.map_space_id,
                            ),
                            new_pos,
                        ));
                        assert(ids@[t] == old(self).sentries@[t].id);
                    }
                }
            }
            if fell {
                new_bullets.push(BulletSpawnResponse { shot_time: expire_time, ..b });
            } else {
                new_bullets.push(b);
            }
            j = j + 1;
        }
        self.bullets = new_bullets;
        proof {
            assert(self.bullets@ =~= bullets_expired(
                old(self).bullets@,
                old(self).sentries@,
                old(self).buildings@,
                new_pos,
                now_ms,
            ));
        }
    }
}

/// Whether any falling sentry in the parallel `falling`/`ids` record carries
/// this sentry id.
#[verifier::loop_isolation(false)]
fn any_falling(falling: &Vec<bool>, ids: &Vec<i32>, sid: i32) -> (r: bool)
    requires
        falling@.len() == ids@.len(),
    ensures
        r == exists|t: int| 0 <= t < falling@.len() && falling@[t] && ids@[t] == sid,
{
    let n = falling.len();
    let mut k: usize = 0;
    while k < n
        invariant
            0 <= k <= n,
            forall|t: int| 0 <= t < k ==> !(falling@[t] && ids@[t] == sid),
        decreases n - k,
    {
        if falling[k] && ids[k] == sid {
            return true;
        }
        k = k + 1;
    }
    false
}

/// Looks up the current hit points of the building with this map-space id;
/// zero when no building matches.
#[verifier::loop_isolation(false)]
pub fn building_hp(bs: &Vec<BuildingDetails>, id: i32) -> (r: u32)
    ensures
        r == building_hp_of(bs@, id),
{
    let n = bs.len();
    let mut i: usize = 0;
    proof {
        assert(bs@.skip(0) =~= bs@);
    }
    while i < n
        invariant
            n == bs@.len(),
            0 <= i <= n,
            building_hp_of(bs@, id) == building_hp_of(bs@.skip(i as int), id),
        decreases n - i,
    {
        proof {
            assert(bs@.skip(i as int)[0] == bs@[i as int]);
            assert(bs@.skip(i as int).skip(1) =~= bs@.skip(i + 1));
        }
        if bs[i].map_space_id == id {
            return bs[i].current_hp;
        }
        i = i + 1;
    }
    proof {
        assert(bs@.skip(n as int) =~= Seq::<BuildingDetails>::empty());
    }
    0
}

/// Finds the hut-defender template bound to the given map-space id.
#[verifier::loop_isolation(false)]
pub fn find_template(ts: &Vec<(i32, DefenderDetails)>, id: i32) -> (r: Option<DefenderDetails>)
    ensures
        r == template_for(ts@, id),
{
    let n = ts.len();
    let mut i: usize = 0;
    proof {
        assert(ts@.skip(0) =~= ts@);
    }
    while i < n
        invariant
            n == ts@.len(),
            0 <= i <= n,
            template_for(ts@, id) == template_for(ts@.skip(i as int), id),
        decreases n - i,
    {
        proof {
            assert(ts@.skip(i as int)[0] == ts@[i as int]);
            assert(ts@.skip(i as int).skip(1) =~= ts@.skip(i + 1));
        }
        if ts[i].0 == id {
            return Some(ts[i].1);
        }
        i = i + 1;
    }
    proof {
        assert(ts@.skip(n as int) =~= Seq::<(i32, DefenderDetails)>::empty());
    }
    None
}

/// The full building record with this map-space id, if the snapshot has one.
pub open spec fn building_of(bs: Seq<BuildingDetails>, id: i32) -> Option<BuildingDetails>
    decreases bs.len(),
{
    if bs.len() == 0 {
        None
    } else if bs[0].map_space_id == id {
        Some(bs[0])
    } else {
        building_of(bs.skip(1), id)
    }
}

/// Finds the building with this map-space id.
#[verifier::loop_isolation(false)]
pub fn find_building(bs: &Vec<BuildingDetails>, id: i32) -> (r: Option<BuildingDetails>)
    ensures
        r == building_of(bs@, id),
        r matches Some(b) ==> exists|k: int| 0 <= k < bs@.len() && bs@[k] == b,
{
    let n = bs.len();
    let mut i: usize = 0;
    proof {
        assert(bs@.skip(0) =~= bs@);
    }
    while i < n
        invariant
            0 <= i <= n,
            building_of(bs@, id) == building_of(bs@.skip(i as int), id),
        decreases n - i,
    {
        proof {
            assert(bs@.skip(i as int)[0] == bs@[i as int]);
            assert(bs@.skip(i as int).skip(1) =~= bs@.skip(i + 1));
        }
        if bs[i].map_space_id == id {
            return Some(bs[i]);
        }
        i = i + 1;
    }
    proof {
        assert(bs@.skip(n as int) =~= Seq::<BuildingDetails>::empty());
    }
    None
}

/// Whether the attacker standing at `pos` is inside the trigger range of the
/// hut building backing this slot.
pub open spec fn hut_in_range(slot: HutDefenderDetails, bs: Seq<BuildingDetails>, pos: Coords) -> bool {
    building_of(bs, slot.map_space_id) matches Some(b) && crate::types::manhattan_spec(b.tile, pos)
        <= b.range
}

/// One slot after the hut trigger check: latched when the attacker is in
/// range, and never un-latched.
pub open spec fn hut_slot_checked(
    slot: HutDefenderDetails,
    bs: Seq<BuildingDetails>,
    pos: Coords,
) -> HutDefenderDetails {
    if hut_in_range(slot, bs, pos) {
        HutDefenderDetails { hut_triggered: true, ..slot }
    } else {
        slot
    }
}

/// Every hut slot after the trigger check of one movement tick.
pub open spec fn huts_checked(
    slots: Seq<HutDefenderDetails>,
    bs: Seq<BuildingDetails>,
    pos: Coords,
) -> Seq<HutDefenderDetails> {
    slots.map_values(|slot: HutDefenderDetails| hut_slot_checked(slot, bs, pos))
}

/// Whether the defender trigger fires for `d`: alive, not yet latched, and
/// the attacker inside its radius.
pub open spec fn defender_trigger_fires(d: DefenderDetails, pos: Coords) -> bool {
    d.target_id is None && d.is_alive && crate::types::manhattan_spec(d.defender_pos, pos)
        <= d.radius
}

/// One defender after the range-trigger check of one movement tick.
pub open spec fn defender_checked(d: DefenderDetails, pos: Coords, attacker_id: i32) -> DefenderDetails {
    if defender_trigger_fires(d, pos) {
        DefenderDetails { target_id: Some(attacker_id), ..d }
    } else {
        d
    }
}

/// Every defender after the range-trigger check of one movement tick.
pub open spec fn defenders_checked(
    ds: Seq<DefenderDetails>,
    pos: Coords,
    attacker_id: i32,
) -> Seq<DefenderDetails> {
    ds.map_values(|d: DefenderDetails| defender_checked(d, pos, attacker_id))
}

/// Whether any defender trigger fires this tick.
pub open spec fn any_defender_trigger(ds: Seq<DefenderDetails>, pos: Coords) -> bool {
    exists|i: int| 0 <= i < ds.len() && defender_trigger_fires(#[trigger] ds[i], pos)
}

/// The anti-cheat verdict of one movement tick, checked in order: frame
/// sequencing, the life budget, road membership of the destination, and the
/// single orthogonal step. `None` means the movement is accepted.
pub open spec fn movement_violation(
    s: State,
    frame_no: u32,
    road_ok: bool,
    new_pos: Coords,
) -> Option<crate::types::InvalidationReason> {
    if frame_no != s.frame_no + 1 {
        Some(crate::types::InvalidationReason::FrameMismatch)
    } else if s.attacker_death_count >= s.lives {
        Some(crate::types::InvalidationReason::LivesExhausted)
    } else if !road_ok {
        Some(crate::types::InvalidationReason::OffRoad)
    } else if crate::types::manhattan_spec(s.attacker.unwrap().attacker_pos, new_pos) != 1 {
        Some(crate::types::InvalidationReason::TileSkip)
    } else {
        None
    }
}

/// How the movement half of one tick relates the state before and after: a
/// violated check flags the session invalid and changes nothing else, while
/// an accepted move latches hut and defender triggers, recomputes sentry
/// activation, advances the frame counter by exactly one, and moves the
/// attacker.
pub open spec fn movement_stage(
    pre: State,
    post: State,
    frame_no: u32,
    roads: crate::routes::Roads,
    new_pos: Coords,
    now_ms: u64,
) -> bool {
    match movement_violation(pre, frame_no, roads.has(new_pos), new_pos) {
        Some(why) => post =~= (State {
            in_validation: crate::types::InValidation {
                is_invalidated: true,
                reason: Some(why),
            },
            ..pre
        }),
        None => {
            &&& post.frame_no == pre.frame_no + 1
            &&& post.attacker == Some(
                Attacker {
                    attacker_pos: new_pos,
                    trigger_defender: pre.attacker.unwrap().trigger_defender
                        || any_defender_trigger(pre.defenders@, new_pos),
                    ..pre.attacker.unwrap()
                },
            )
            &&& post.defenders@ == defenders_checked(
                pre.defenders@,
                new_pos,
                pre.attacker.unwrap().id,
            )
            &&& post.hut@ == huts_checked(pre.hut@, pre.buildings@, new_pos)
            &&& post.sentries@ == sentries_activated(pre.sentries@, pre.buildings@, new_pos, now_ms)
            &&& post.bullets@ == bullets_expired(
                pre.bullets@,
                pre.sentries@,
                pre.buildings@,
                new_pos,
                now_ms,
            )
            &&& post =~= (State {
                frame_no: post.frame_no,
                attacker: post.attacker,
                defenders: post.defenders,
                hut: post.hut,
                sentries: post.sentries,
                bullets: post.bullets,
                ..pre
            })
        },
    }
}

impl State {
    /// The movement half of one tick: validates frame sequencing, the life
    /// budget, road membership and the single-step rule; on the first
    /// violation it only flags the session invalid. An accepted move latches
    /// hut and defender triggers, recomputes sentry activation, advances the
    /// frame counter by exactly one, and moves the attacker.
    pub fn attacker_movement(
        &mut self,
        frame_no: u32,
        roads: &crate::routes::Roads,
        new_pos: Coords,
        now_ms: u64,
    )
        requires
            old(self).wf(),
            old(self).attacker is Some,
            old(self).frame_no < u32::MAX,
        ensures
            final(self).wf(),
            movement_stage(*old(self), *final(self), frame_no, *roads, new_pos, now_ms),
    {
        let a = *self.attacker.as_ref().unwrap();

        if frame_no != self.frame_no + 1 {
            self.in_validation = InValidation {
                is_invalidated: true,
                reason: Some(crate::types::InvalidationReason::FrameMismatch),
            };
            return ;
        }
        if self.attacker_death_count >= self.lives {
            self.in_validation = InValidation {
                is_invalidated: true,
                reason: Some(crate::types::InvalidationReason::LivesExhausted),
            };
            return ;
        }
        if !roads.contains(new_pos) {
            self.in_validation = InValidation {
                is_invalidated: true,
                reason: Some(crate::types::InvalidationReason::OffRoad),
            };
            return ;
        }
        if manhattan(a.attacker_pos, new_pos) != 1 {
            self.in_validation = InValidation {
                is_invalidated: true,
                reason: Some(crate::types::InvalidationReason::TileSkip),
            };
            return ;
        }

        // Hut trigger check: latch every hut whose building is in range.
        let nh = self.hut.len();
        let mut i: usize = 0;
        while i < nh
            invariant
                0 <= i <= nh,
                self.hut@.len() == nh,
                forall|k: int|
                    0 <= k < i ==> self.hut@[k] == hut_slot_checked(
                        #[trigger] old(self).hut@[k],
                        old(self).buildings@,
                        new_pos,
                    ),
                forall|k: int| i <= k < nh ==> #[trigger] self.hut@[k] == old(self).hut@[k],
                *self =~= (State { hut: self.hut, ..*old(self) }),
            decreases nh - i,
        {
            let slot = self.hut[i];
            if let Some(b) = find_building(&self.buildings, slot.map_space_id) {
                if manhattan(b.tile, new_pos) <= b.range as i64 {
                    self.hut[i] = HutDefenderDetails { hut_triggered: true, ..slot };
                }
            }
            i = i + 1;
        }
        proof {
            assert(self.hut@ =~= huts_checked(old(self).hut@, old(self).buildings@, new_pos));
            assert forall|k: int, l: int|
                0 <= k < l < self.hut@.len() implies (#[trigger] self.hut@[k]).map_space_id != (
            #[trigger] self.hut@[l]).map_space_id by {
                assert(self.hut@[k] == hut_slot_checked(
                    old(self).hut@[k],
                    old(self).buildings@,
                    new_pos,
                ));
                assert(self.hut@[l] == hut_slot_checked(
                    old(self).hut@[l],
                    old(self).buildings@,
                    new_pos,
                ));
            }
        }

        // Defender trigger check: latch idle live defenders in radius.
        let nd = self.defenders.len();
        let mut any_trigger: bool = false;
        let mut j: usize = 0;
        while j < nd
            invariant
                0 <= j <= nd,
                self.defenders@.len() == nd,
                forall|k: int|
                    0 <= k < j ==> self.defenders@[k] == defender_checked(
                        #[trigger] old(self).defenders@[k],
                        new_pos,
                        a.id,
                    ),
                forall|k: int|
                    j <= k < nd ==> #[trigger] self.defenders@[k] == old(self).defenders@[k],
                any_trigger == exists|k: int|
                    0 <= k < j && defender_trigger_fires(#[trigger] old(self).defenders@[k], new_pos),
                self.hut@ == huts_checked(old(self).hut@, old(self).buildings@, new_pos),
                *self =~= (State { hut: self.hut, defenders: self.defenders, ..*old(self) }),
            decreases nd - j,
        {
            let d = self.defenders[j];
            if d.target_id.is_none() && d.is_alive && manhattan(d.defender_pos, new_pos)
                <= d.radius as i64 {
                self.defenders[j] = DefenderDetails { target_id: Some(a.id), ..d };
                any_trigger = true;
            }
            j = j + 1;
        }
        proof {
            assert(self.defenders@ =~= defenders_checked(old(self).defenders@, new_pos, a.id));
            assert(any_trigger == any_defender_trigger(old(self).defenders@, new_pos));
        }

        self.activate_sentry(new_pos, now_ms);

        self.frame_no = self.frame_no + 1;
        self.attacker = Some(
            Attacker {
                attacker_pos: new_pos,
                trigger_defender: a.trigger_defender || any_trigger,
                ..a
            },
        );
    }

    /// Triggers every mine standing on the attacker's declared tile: the
    /// damage lands (floored at zero, with death bookkeeping when health
    /// reaches zero) and each triggered mine is removed for good.
    pub fn mine_blast(&mut self, start_pos: Coords) -> (r: Vec<MineDetails>)
        requires
            old(self).wf(),
            old(self).attacker is Some,
            old(self).attacker_death_count < u32::MAX,
        ensures
            final(self).wf(),
            r@ == mines_at(old(self).mines@, start_pos),
            final(self).mines@ == mines_not_at(old(self).mines@, start_pos),
            mine_hit_rel(
                *old(self),
                *final(self),
                mines_damage_at(old(self).mines@, start_pos),
            ),
            *final(self) =~= (State {
                attacker: final(self).attacker,
                attacker_death_count: final(self).attacker_death_count,
                defenders: final(self).defenders,
                mines: final(self).mines,
                ..*old(self)
            }),
    {
        let n = self.mines.len();
        let mut kept: Vec<MineDetails> = Vec::new();
        let mut triggered: Vec<MineDetails> = Vec::new();
        let mut damage: u64 = 0;
        let mut i: usize = 0;
        while i < n
            invariant
                0 <= i <= n,
                n == self.mines@.len(),
                n <= MAX_BUILDINGS,
                kept@ == self.mines@.take(i as int).filter(
                    |m: MineDetails| m.position != start_pos,
                ),
                triggered@ == self.mines@.take(i as int).filter(
                    |m: MineDetails| m.position == start_pos,
                ),
                damage == mines_damage_at(self.mines@.take(i as int), start_pos),
                damage <= i * 0xffff_ffff,
                *self =~= *old(self),
            decreases n - i,
        {
            let m = self.mines[i];
            proof {
                assert(self.mines@.take(i + 1).drop_last() =~= self.mines@.take(i as int));
                reveal(Seq::filter);
                assert((i as int) * 0xffff_ffff + 0xffff_ffff == (i + 1) * 0xffff_ffff)
                    by (nonlinear_arith);
            }
            if m.position.x == start_pos.x && m.position.y == start_pos.y {
                triggered.push(m);
                damage = damage + m.damage as u64;
            } else {
                kept.push(m);
            }
            i = i + 1;
        }
        proof {
            assert(self.mines@.take(n as int) =~= self.mines@);
        }

        let a = *self.attacker.as_ref().unwrap();
        if a.attacker_health > 0 {
            if damage >= a.attacker_health as u64 {
                self.attacker = Some(
                    Attacker {
                        attacker_health: 0,
                        attacker_pos: Coords { x: -1, y: -1 },
                        ..a
                    },
                );
                self.attacker_death_count = self.attacker_death_count + 1;
                self.clear_all_defender_targets();
            } else {
                self.attacker = Some(
                    Attacker { attacker_health: a.attacker_health - damage as u32, ..a },
                );
            }
        }
        self.mines = kept;
        triggered
    }
}


} // verus!
