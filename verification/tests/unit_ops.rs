//! Operation-level tests of the combat engine: mines, bombs, sentries,
//! pursuit, hut spawning and the companion ranker, each on concrete values.

use aot_backend::catalog::{
    artifacts_payout, bullet_damage, companion_priority, hut_defenders_limit, level_attributes,
};
use aot_backend::companion::CompanionTargetChoice;
use aot_backend::routes::{Path, Roads, RouteEntry, RouteOracle, SourceDestXY};
use aot_backend::state::State;
use aot_backend::types::{
    manhattan, Attacker, BombType, BuildingDetails, BuildingKind, Companion, CompanionTarget,
    Coords, DefenderDetails, EngineError, MineDetails,
};

fn c(x: i32, y: i32) -> Coords {
    Coords { x, y }
}

fn building(
    id: i32,
    x: i32,
    y: i32,
    width: u32,
    hp: u32,
    artifacts: u32,
    kind: BuildingKind,
    range: u32,
    frequency: u32,
    level: u32,
) -> BuildingDetails {
    BuildingDetails {
        map_space_id: id,
        current_hp: hp,
        total_hp: hp,
        artifacts_obtained: artifacts,
        tile: c(x, y),
        width,
        kind,
        range,
        frequency,
        block_id: 0,
        level,
    }
}

fn defender(id: i32, x: i32, y: i32, radius: u32, damage: u32, health: u32) -> DefenderDetails {
    DefenderDetails {
        id,
        map_space_id: id,
        radius,
        speed: 1,
        damage,
        defender_pos: c(x, y),
        is_alive: health > 0,
        current_health: health,
        level: 1,
        target_id: None,
    }
}

fn attacker(x: i32, y: i32, health: u32) -> Attacker {
    Attacker {
        id: 1,
        attacker_pos: c(x, y),
        attacker_health: health,
        attacker_speed: 1,
        bomb_count: 10,
        trigger_defender: false,
    }
}

fn route(sx: i32, sy: i32, dx: i32, dy: i32, hx: i32, hy: i32, length: u32) -> RouteEntry {
    RouteEntry {
        key: SourceDestXY { source_x: sx, source_y: sy, dest_x: dx, dest_y: dy },
        path: Path { next_hop: c(hx, hy), length },
    }
}

fn base_state(
    defenders: Vec<DefenderDetails>,
    hut_defenders: Vec<(i32, DefenderDetails)>,
    mines: Vec<MineDetails>,
    buildings: Vec<BuildingDetails>,
) -> State {
    State::new(1, 2, defenders, hut_defenders, mines, buildings, 0)
}

#[test]
fn manhattan_distance_values() {
    assert_eq!(manhattan(c(0, 0), c(3, 4)), 7);
    assert_eq!(manhattan(c(-1, -1), c(1, 1)), 4);
    assert_eq!(manhattan(c(5, 5), c(5, 5)), 0);
}

#[test]
fn catalog_formulas() {
    assert_eq!(artifacts_payout(100), 30);
    assert_eq!(artifacts_payout(10), 3);
    assert_eq!(artifacts_payout(9), 2);
    assert_eq!(artifacts_payout(0), 0);
    assert_eq!(bullet_damage(1), 5);
    assert_eq!(bullet_damage(2), 7);
    assert_eq!(bullet_damage(3), 10);
    assert_eq!(hut_defenders_limit(1), 3);
    assert_eq!(hut_defenders_limit(2), 4);
    assert_eq!(hut_defenders_limit(3), 5);
    assert_eq!(level_attributes(2).hut.defenders_limit, 4);
    let prio = companion_priority();
    assert!(prio.defenders > prio.defender_buildings);
    assert!(prio.defender_buildings > prio.buildings);
}

#[test]
fn roads_membership() {
    let roads = Roads::new(vec![c(0, 0), c(0, 1), c(1, 1)]);
    assert!(roads.contains(c(0, 1)));
    assert!(!roads.contains(c(1, 0)));
}

#[test]
fn oracle_lookup() {
    let oracle = RouteOracle::new(vec![route(0, 0, 2, 0, 1, 0, 2)]);
    let p = oracle.next_hop(c(0, 0), c(2, 0)).unwrap();
    assert_eq!(p.next_hop, c(1, 0));
    assert_eq!(p.length, 2);
    assert!(oracle.next_hop(c(0, 0), c(3, 3)).is_none());
}

// Scenario: attacker health 20 steps onto a mine of damage 25; the health
// clamps to zero, the death count rises by one, and every defender target
// clears.
#[test]
fn mine_kill_clamps_and_clears_targets() {
    let mine = MineDetails { id: 9, position: c(2, 3), radius: 1, damage: 25 };
    let mut st = base_state(vec![defender(4, 8, 8, 2, 10, 30)], vec![], vec![mine], vec![]);
    st.attacker = Some(attacker(2, 3, 20));
    st.defenders[0].target_id = Some(1);

    let triggered = st.mine_blast(c(2, 3));

    assert_eq!(triggered.len(), 1);
    assert_eq!(triggered[0].id, 9);
    assert_eq!(st.attacker.as_ref().unwrap().attacker_health, 0);
    assert_eq!(st.attacker_death_count, 1);
    assert_eq!(st.defenders[0].target_id, None);
    assert!(st.mines.is_empty());
}

// A mine, once triggered, is removed and cannot retrigger.
#[test]
fn mine_cannot_retrigger() {
    let mine = MineDetails { id: 9, position: c(2, 3), radius: 1, damage: 5 };
    let mut st = base_state(vec![], vec![], vec![mine], vec![]);
    st.attacker = Some(attacker(2, 3, 50));

    let first = st.mine_blast(c(2, 3));
    assert_eq!(first.len(), 1);
    assert_eq!(st.attacker.as_ref().unwrap().attacker_health, 45);

    let second = st.mine_blast(c(2, 3));
    assert!(second.is_empty());
    assert_eq!(st.attacker.as_ref().unwrap().attacker_health, 45);
}

// A mine on another tile stays untouched.
#[test]
fn mine_elsewhere_untouched() {
    let mine = MineDetails { id: 9, position: c(7, 7), radius: 1, damage: 5 };
    let mut st = base_state(vec![], vec![], vec![mine], vec![]);
    st.attacker = Some(attacker(2, 3, 50));
    let triggered = st.mine_blast(c(2, 3));
    assert!(triggered.is_empty());
    assert_eq!(st.mines.len(), 1);
}

// Scenario: bomb radius 1, damage 10, multiplier 5, centered on a 1-by-1
// building with 40 hit points: full overlap gives 50 raw damage, the
// building is destroyed and the payout is the floor of three tenths of its
// store.
#[test]
fn bomb_full_overlap_destroys_building() {
    let b = building(1, 5, 5, 1, 40, 100, BuildingKind::Bank, 0, 1, 1);
    let mut st = base_state(vec![], vec![], vec![], vec![b]);
    st.attacker = Some(attacker(5, 5, 50));
    st.bomb_damage_multiplier = 5;
    st.set_bombs(BombType { id: 0, radius: 1, damage: 10, total_count: 0 }, 2);

    let r = st.place_bombs(c(5, 5), c(5, 5));

    assert_eq!(st.buildings[0].current_hp, 0);
    assert_eq!(st.artifacts, 30);
    assert_eq!(r.buildings_damaged.len(), 1);
    assert_eq!(r.buildings_damaged[0].hp, 0);
    assert_eq!(r.buildings_damaged[0].artifacts_if_damaged, 30);
    assert_eq!(st.bombs.total_count, 1);
    assert_eq!(st.damage_percentage(), 100);
    assert!(!st.in_validation.is_invalidated);
}

// Bomb damage is proportional to footprint overlap: one of four tiles of a
// 2-by-2 building overlapped by a radius-zero bomb of damage 10 rounds to 3.
#[test]
fn bomb_partial_overlap_rounds() {
    let b = building(1, 10, 10, 2, 40, 0, BuildingKind::Other, 0, 1, 1);
    let mut st = base_state(vec![], vec![], vec![], vec![b]);
    st.attacker = Some(attacker(10, 10, 50));
    st.set_bombs(BombType { id: 0, radius: 0, damage: 10, total_count: 0 }, 1);

    let r = st.place_bombs(c(10, 10), c(10, 10));

    assert_eq!(st.buildings[0].current_hp, 37);
    assert_eq!(r.buildings_damaged[0].hp, 37);
    assert_eq!(r.buildings_damaged[0].artifacts_if_damaged, 0);
    assert_eq!(st.damage_percentage(), 7); // 3 of 40 hit points, floored
}

// A defender whose tile intersects the blast square takes the bomb's flat
// damage regardless of overlap fraction, and dies at zero.
#[test]
fn bomb_hits_defender_flat() {
    let mut st = base_state(
        vec![defender(4, 6, 5, 2, 10, 8), defender(5, 9, 9, 2, 10, 30)],
        vec![],
        vec![],
        vec![],
    );
    st.attacker = Some(attacker(5, 5, 50));
    st.bomb_damage_multiplier = 5;
    st.set_bombs(BombType { id: 0, radius: 1, damage: 10, total_count: 0 }, 1);

    let r = st.place_bombs(c(5, 5), c(5, 5));

    assert_eq!(r.defenders_damaged.len(), 1);
    assert_eq!(r.defenders_damaged[0].health, 0);
    assert!(!st.defenders[0].is_alive);
    assert_eq!(st.defenders[0].current_health, 0);
    assert!(st.defenders[1].is_alive);
}

// An empty inventory invalidates instead of blasting.
#[test]
fn bomb_with_empty_inventory_invalidates() {
    let b = building(1, 5, 5, 1, 40, 0, BuildingKind::Bank, 0, 1, 1);
    let mut st = base_state(vec![], vec![], vec![], vec![b]);
    st.attacker = Some(attacker(5, 5, 50));

    let r = st.place_bombs(c(5, 5), c(5, 5));

    assert!(st.in_validation.is_invalidated);
    assert!(r.buildings_damaged.is_empty());
    assert_eq!(st.buildings[0].current_hp, 40);
}

// A detonation tile away from the declared tile invalidates instead of
// blasting.
#[test]
fn bomb_off_position_invalidates() {
    let b = building(1, 5, 5, 1, 40, 0, BuildingKind::Bank, 0, 1, 1);
    let mut st = base_state(vec![], vec![], vec![], vec![b]);
    st.attacker = Some(attacker(5, 5, 50));
    st.set_bombs(BombType { id: 0, radius: 1, damage: 10, total_count: 0 }, 1);

    let r = st.place_bombs(c(5, 5), c(5, 6));

    assert!(st.in_validation.is_invalidated);
    assert!(r.buildings_damaged.is_empty());
    assert_eq!(st.buildings[0].current_hp, 40);
}

// A sentry bullet resolves exactly once, always at or after its fixed
// collision delay.
#[test]
fn bullet_resolves_once_at_or_after_delay() {
    let sentry_b = building(3, 5, 5, 1, 50, 0, BuildingKind::Sentry, 5, 1, 1);
    let mut st = base_state(vec![], vec![], vec![], vec![sentry_b]);
    st.attacker = Some(attacker(5, 6, 20));

    // Activation edge at t=0 resets the fire clock.
    st.activate_sentry(c(5, 6), 0);
    assert!(st.sentries[0].is_sentry_activated);

    // Fire rate 1 per second: the first bullet leaves at t=1000.
    assert!(st.shoot_bullets(999).is_empty());
    let shot = st.shoot_bullets(1000);
    assert_eq!(shot.len(), 1);
    assert_eq!(shot[0].damage, 5);

    // Before the collision delay has passed, nothing lands.
    st.cause_bullet_damage(1001);
    assert_eq!(st.attacker.as_ref().unwrap().attacker_health, 20);
    assert!(!st.bullets[0].has_collided);

    // At the delay the bullet resolves and the damage lands.
    st.cause_bullet_damage(1002);
    assert_eq!(st.attacker.as_ref().unwrap().attacker_health, 15);
    assert!(st.bullets[0].has_collided);

    // A resolved bullet never damages again.
    st.cause_bullet_damage(5000);
    assert_eq!(st.attacker.as_ref().unwrap().attacker_health, 15);
}

// A deactivation edge force-expires outstanding bullets: they resolve on the
// very next resolution pass.
#[test]
fn sentry_deactivation_expires_bullets() {
    let sentry_b = building(3, 5, 5, 1, 50, 0, BuildingKind::Sentry, 2, 1, 1);
    let mut st = base_state(vec![], vec![], vec![], vec![sentry_b]);
    st.attacker = Some(attacker(5, 6, 20));

    st.activate_sentry(c(5, 6), 0);
    let shot = st.shoot_bullets(1000);
    assert_eq!(shot.len(), 1);

    // The attacker leaves the range; the in-flight bullet is force-expired.
    st.activate_sentry(c(20, 20), 1001);
    assert!(!st.sentries[0].is_sentry_activated);

    st.cause_bullet_damage(1001);
    assert_eq!(st.attacker.as_ref().unwrap().attacker_health, 15);
}

// A dead attacker absorbs nothing: outstanding bullets only resolve.
#[test]
fn bullets_resolve_without_damage_when_dead() {
    let sentry_b = building(3, 5, 5, 1, 50, 0, BuildingKind::Sentry, 5, 1, 1);
    let mut st = base_state(vec![], vec![], vec![], vec![sentry_b]);
    st.attacker = Some(attacker(5, 6, 20));
    st.activate_sentry(c(5, 6), 0);
    st.shoot_bullets(1000);
    st.attacker = Some(attacker(5, 6, 0));

    st.cause_bullet_damage(5000);
    assert_eq!(st.attacker.as_ref().unwrap().attacker_health, 0);
    assert!(st.bullets[0].has_collided);
    assert_eq!(st.attacker_death_count, 0);
}

// A destroyed sentry deactivates and stays silent.
#[test]
fn destroyed_sentry_deactivates() {
    let sentry_b = building(3, 5, 5, 1, 50, 0, BuildingKind::Sentry, 5, 1, 1);
    let mut st = base_state(vec![], vec![], vec![], vec![sentry_b]);
    st.attacker = Some(attacker(5, 6, 20));
    st.activate_sentry(c(5, 6), 0);
    assert!(st.sentries[0].is_sentry_activated);

    st.buildings[0].current_hp = 0;
    st.activate_sentry(c(5, 6), 10);
    assert!(!st.sentries[0].is_sentry_activated);
    assert!(st.shoot_bullets(10_000).is_empty());
}

// Pursuit: a targeted defender advances exactly one tile along the oracle
// route; on arrival it deals its damage and is destroyed.
#[test]
fn defender_pursuit_step_and_arrival() {
    let mut st = base_state(vec![defender(4, 3, 1, 2, 12, 30)], vec![], vec![], vec![]);
    st.attacker = Some(attacker(1, 1, 20));
    st.defenders[0].target_id = Some(1);
    let oracle = RouteOracle::new(vec![
        route(3, 1, 1, 1, 2, 1, 2),
        route(2, 1, 1, 1, 1, 1, 1),
    ]);

    let step = st.defender_movement_one_tick(c(1, 1), &oracle).unwrap();
    assert!(step.defender_response.is_empty());
    assert_eq!(st.defenders[0].defender_pos, c(2, 1));

    let hit = st.defender_movement_one_tick(c(1, 1), &oracle).unwrap();
    assert_eq!(hit.defender_response.len(), 1);
    assert_eq!(hit.defender_response[0].damage, 12);
    assert_eq!(hit.attacker_health, 8);
    assert!(!st.defenders[0].is_alive);
    assert_eq!(st.defenders[0].target_id, None);
    assert_eq!(st.attacker.as_ref().unwrap().attacker_health, 8);
}

// A missing route entry is an unrecoverable fault: the pass aborts untouched.
#[test]
fn pursuit_missing_route_fails_loudly() {
    let mut st = base_state(vec![defender(4, 9, 9, 2, 12, 30)], vec![], vec![], vec![]);
    st.attacker = Some(attacker(1, 1, 20));
    st.defenders[0].target_id = Some(1);
    let oracle = RouteOracle::new(vec![]);

    let r = st.defender_movement_one_tick(c(1, 1), &oracle);
    assert_eq!(r.unwrap_err(), EngineError::MissingRoute);
    assert_eq!(st.defenders[0].defender_pos, c(9, 9));
}

// Scenario: hut capacity 3, interval 5000 milliseconds, triggered at t=0: at
// most 3 spawns in total, consecutive spawns never closer than 5000
// milliseconds.
#[test]
fn hut_capacity_and_interval() {
    let hut_b = building(7, 5, 5, 1, 50, 0, BuildingKind::DefenderHut, 3, 5000, 1);
    let template = defender(70, 5, 5, 3, 10, 20);
    let roads = Roads::new(vec![c(4, 5), c(6, 5), c(5, 4), c(5, 6)]);
    let mut st = base_state(vec![], vec![(7, template)], vec![], vec![hut_b]);
    assert_eq!(st.hut.len(), 1);
    assert_eq!(st.hut[0].hut_defenders_count, 3);
    st.hut[0].hut_triggered = true;

    let s0 = st.spawn_hut_defender(&roads, c(0, 5), 0).unwrap();
    assert_eq!(s0.len(), 1);
    assert_eq!(st.hut[0].hut_defenders_count, 2);

    // Too soon: the interval has not elapsed.
    let s1 = st.spawn_hut_defender(&roads, c(0, 5), 4999).unwrap();
    assert!(s1.is_empty());

    let s2 = st.spawn_hut_defender(&roads, c(0, 5), 5000).unwrap();
    assert_eq!(s2.len(), 1);

    let s3 = st.spawn_hut_defender(&roads, c(0, 5), 10_000).unwrap();
    assert_eq!(s3.len(), 1);
    assert_eq!(st.hut[0].hut_defenders_count, 0);

    // Capacity exhausted: no further spawns, ever.
    let s4 = st.spawn_hut_defender(&roads, c(0, 5), 100_000).unwrap();
    assert!(s4.is_empty());
    assert_eq!(st.defenders.len(), 3);
    assert_eq!(st.hut_defenders_released, 3);
}

// The spawn tile favors the side nearest the attacker's approach.
#[test]
fn hut_spawn_tile_nearest_attacker() {
    let hut_b = building(7, 5, 5, 1, 50, 0, BuildingKind::DefenderHut, 3, 1000, 1);
    let template = defender(70, 5, 5, 3, 10, 20);
    let roads = Roads::new(vec![c(4, 5), c(6, 5)]);
    let mut st = base_state(vec![], vec![(7, template)], vec![], vec![hut_b]);
    st.hut[0].hut_triggered = true;

    let spawned = st.spawn_hut_defender(&roads, c(9, 5), 0).unwrap();
    assert_eq!(spawned.len(), 1);
    assert_eq!(spawned[0].defender_pos, c(6, 5));
    assert_eq!(spawned[0].target_id, None);
}

// A hut with a destroyed building spawns nothing.
#[test]
fn hut_with_destroyed_building_is_silent() {
    let mut hut_b = building(7, 5, 5, 1, 50, 0, BuildingKind::DefenderHut, 3, 1000, 1);
    hut_b.current_hp = 0;
    let template = defender(70, 5, 5, 3, 10, 20);
    let roads = Roads::new(vec![c(4, 5)]);
    let mut st = base_state(vec![], vec![(7, template)], vec![], vec![hut_b]);
    st.hut[0].hut_triggered = true;

    let spawned = st.spawn_hut_defender(&roads, c(0, 5), 0).unwrap();
    assert!(spawned.is_empty());
}

// A slot without its backing building is an unrecoverable snapshot fault.
#[test]
fn hut_slot_without_building_fails_loudly() {
    let hut_b = building(7, 5, 5, 1, 50, 0, BuildingKind::DefenderHut, 3, 1000, 1);
    let template = defender(70, 5, 5, 3, 10, 20);
    let roads = Roads::new(vec![c(4, 5)]);
    let mut st = base_state(vec![], vec![(7, template)], vec![], vec![hut_b]);
    st.hut[0].map_space_id = 99;

    let r = st.spawn_hut_defender(&roads, c(0, 5), 0);
    assert_eq!(r.unwrap_err(), EngineError::MissingHutBuilding);
}

// The companion ranker prefers a reachable defender over any building.
#[test]
fn companion_ranker_prefers_defenders() {
    let d = defender(4, 0, 3, 2, 10, 30);
    let b = building(1, 5, 5, 1, 40, 0, BuildingKind::Bank, 0, 1, 1);
    let roads = Roads::new(vec![c(4, 5), c(6, 5), c(5, 4), c(5, 6)]);
    let oracle = RouteOracle::new(vec![
        route(0, 0, 0, 3, 0, 1, 3),
        route(0, 0, 4, 5, 0, 1, 9),
        route(0, 0, 6, 5, 0, 1, 11),
        route(0, 0, 5, 4, 0, 1, 9),
        route(0, 0, 5, 6, 0, 1, 11),
    ]);
    let choice = aot_backend::companion::get_companion_priority(
        &vec![b],
        &vec![d],
        c(0, 0),
        &roads,
        &oracle,
    )
    .unwrap();
    assert_eq!(choice.current_target, CompanionTarget::Defender);
    assert_eq!(choice.target_id, 4);
    assert_eq!(choice.target_tile, c(0, 3));
}

// With no defender reachable, the ranker falls back to a building through
// its best road ring tile.
#[test]
fn companion_ranker_building_fallback() {
    let d = defender(4, 0, 3, 2, 10, 0); // dead
    let b = building(1, 5, 5, 1, 40, 0, BuildingKind::Bank, 0, 1, 1);
    let roads = Roads::new(vec![c(4, 5), c(6, 5)]);
    let oracle = RouteOracle::new(vec![
        route(0, 0, 4, 5, 0, 1, 9),
        route(0, 0, 6, 5, 0, 1, 11),
    ]);
    let choice: CompanionTargetChoice = aot_backend::companion::get_companion_priority(
        &vec![b],
        &vec![d],
        c(0, 0),
        &roads,
        &oracle,
    )
    .unwrap();
    assert_eq!(choice.current_target, CompanionTarget::Building);
    assert_eq!(choice.target_id, 1);
    assert_eq!(choice.target_tile, c(4, 5));
}

fn idle_companion(x: i32, y: i32) -> Companion {
    Companion {
        id: 2,
        companion_pos: c(x, y),
        companion_health: 50,
        companion_speed: 1,
        bomb_count: 0,
        range: 5,
        current_target: None,
        target_id: None,
        target_tile: None,
        reached_dest: false,
        last_attack_tick: 0,
        attack_interval: 10,
        damage: 30,
        trigger_defender: false,
    }
}

// The companion commits to a target, walks one oracle tile per tick, and
// strikes on its cooldown once it has reached the tile; a dead target is
// released.
#[test]
fn companion_walks_and_strikes() {
    let d = defender(4, 0, 2, 2, 10, 40);
    let roads = Roads::new(vec![c(0, 0), c(0, 1), c(0, 2)]);
    let oracle = RouteOracle::new(vec![
        route(0, 0, 0, 2, 0, 1, 2),
        route(0, 1, 0, 2, 0, 2, 1),
    ]);
    let mut st = base_state(vec![d], vec![], vec![], vec![]);
    st.companion = Some(idle_companion(0, 0));
    st.frame_no = 100;

    // Tick one: commit to the defender.
    st.move_companion(&roads, &oracle).unwrap();
    let comp = st.companion.as_ref().unwrap();
    assert_eq!(comp.current_target, Some(CompanionTarget::Defender));
    assert_eq!(comp.target_id, Some(4));
    assert_eq!(comp.target_tile, Some(c(0, 2)));

    // Tick two and three: one tile each, arriving on the target tile.
    st.move_companion(&roads, &oracle).unwrap();
    assert_eq!(st.companion.as_ref().unwrap().companion_pos, c(0, 1));
    st.move_companion(&roads, &oracle).unwrap();
    assert_eq!(st.companion.as_ref().unwrap().companion_pos, c(0, 2));
    assert!(st.companion.as_ref().unwrap().reached_dest);

    // Tick four: the cooldown has run out (frame 100 versus tick 0), so the
    // strike lands 30 damage.
    let r = st.move_companion(&roads, &oracle).unwrap();
    assert_eq!(r.defender_damaged.unwrap().health, 10);
    assert_eq!(st.defenders[0].current_health, 10);
    assert_eq!(st.companion.as_ref().unwrap().last_attack_tick, 100);

    // Too soon for another strike.
    let r2 = st.move_companion(&roads, &oracle).unwrap();
    assert!(r2.defender_damaged.is_none());
    assert_eq!(st.defenders[0].current_health, 10);

    // Ten frames later the second strike kills the defender.
    st.frame_no = 110;
    let r3 = st.move_companion(&roads, &oracle).unwrap();
    assert_eq!(r3.defender_damaged.unwrap().health, 0);
    assert!(!st.defenders[0].is_alive);

    // The dead target is released on the next tick.
    st.move_companion(&roads, &oracle).unwrap();
    assert_eq!(st.companion.as_ref().unwrap().current_target, None);
    assert!(!st.companion.as_ref().unwrap().reached_dest);
}

// A companion strike that destroys a building pays out its artifacts once.
#[test]
fn companion_destroys_building_pays_out() {
    let b = building(1, 5, 5, 1, 20, 50, BuildingKind::Bank, 0, 1, 1);
    let roads = Roads::new(vec![c(4, 5)]);
    let oracle = RouteOracle::new(vec![route(4, 5, 4, 5, 4, 5, 0)]);
    let mut st = base_state(vec![], vec![], vec![], vec![b]);
    let mut comp = idle_companion(4, 5);
    comp.current_target = Some(CompanionTarget::Building);
    comp.target_id = Some(1);
    comp.target_tile = Some(c(4, 5));
    comp.reached_dest = true;
    st.companion = Some(comp);
    st.frame_no = 50;

    let r = st.move_companion(&roads, &oracle).unwrap();
    let hit = r.building_damaged.unwrap();
    assert_eq!(hit.hp, 0);
    assert_eq!(hit.artifacts_if_damaged, 15);
    assert_eq!(st.buildings[0].current_hp, 0);
    assert_eq!(st.artifacts, 15);
    assert_eq!(st.damage_percentage(), 100);
}

// Self destruct force-kills the attacker and clears every defender target;
// the companion is untouched.
#[test]
fn self_destruct_bookkeeping() {
    let mut st = base_state(vec![defender(4, 8, 8, 2, 10, 30)], vec![], vec![], vec![]);
    st.attacker = Some(attacker(1, 1, 35));
    st.defenders[0].target_id = Some(1);
    st.companion = Some(idle_companion(0, 0));

    st.self_destruct();

    assert_eq!(st.attacker.as_ref().unwrap().attacker_health, 0);
    assert_eq!(st.attacker_death_count, 1);
    assert_eq!(st.defenders[0].target_id, None);
    assert!(st.companion.is_some());
}

// The damage percentage is cumulative hit points lost over the base's total.
#[test]
fn damage_percentage_cumulative() {
    let b1 = building(1, 5, 5, 1, 60, 0, BuildingKind::Other, 0, 1, 1);
    let b2 = building(2, 9, 9, 1, 40, 0, BuildingKind::Other, 0, 1, 1);
    let mut st = base_state(vec![], vec![], vec![], vec![b1, b2]);
    st.attacker = Some(attacker(9, 9, 50));
    st.set_bombs(BombType { id: 0, radius: 0, damage: 40, total_count: 0 }, 1);

    assert_eq!(st.damage_percentage(), 0);
    st.place_bombs(c(9, 9), c(9, 9));
    assert_eq!(st.buildings[1].current_hp, 0);
    assert_eq!(st.damage_percentage(), 40);
}

// A base with no hit points at all reports zero damage.
#[test]
fn damage_percentage_empty_base() {
    let st = base_state(vec![], vec![], vec![], vec![]);
    assert_eq!(st.total_hp_buildings, 0);
    assert_eq!(st.damage_percentage(), 0);
}
