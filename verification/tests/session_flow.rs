//! Session-level tests driving the engine through the dispatcher, exactly as
//! the session driver does: decoded actions in, typed outcome events out.

use aot_backend::engine::{game_handler, ActionType, ResultType, SocketRequest};
use aot_backend::routes::{Path, Roads, RouteEntry, RouteOracle, SourceDestXY};
use aot_backend::state::State;
use aot_backend::types::{
    AttackerType, BombType, BuildingDetails, BuildingKind, Coords, DefenderDetails, EngineError,
    MineDetails,
};

fn c(x: i32, y: i32) -> Coords {
    Coords { x, y }
}

fn building(
    id: i32,
    x: i32,
    y: i32,
    width: u32,
    hp: u32,
    artifacts: u32,
    kind: BuildingKind,
    range: u32,
    frequency: u32,
    level: u32,
) -> BuildingDetails {
    BuildingDetails {
        map_space_id: id,
        current_hp: hp,
        total_hp: hp,
        artifacts_obtained: artifacts,
        tile: c(x, y),
        width,
        kind,
        range,
        frequency,
        block_id: 0,
        level,
    }
}

fn defender(id: i32, x: i32, y: i32, radius: u32, damage: u32, health: u32) -> DefenderDetails {
    DefenderDetails {
        id,
        map_space_id: id,
        radius,
        speed: 1,
        damage,
        defender_pos: c(x, y),
        is_alive: health > 0,
        current_health: health,
        level: 1,
        target_id: None,
    }
}

fn request(action_type: ActionType, frame_number: u32) -> SocketRequest {
    SocketRequest {
        action_type,
        frame_number,
        attacker_id: None,
        bomb_id: None,
        current_position: None,
        bomb_position: None,
    }
}

fn catalog() -> Vec<AttackerType> {
    vec![AttackerType { id: 1, max_health: 40, speed: 1, amt_of_emps: 6, level: 1 }]
}

fn bombs() -> Vec<BombType> {
    vec![BombType { id: 3, radius: 1, damage: 10, total_count: 0 }]
}

fn lane_roads() -> Roads {
    // A straight lane along y = 0.
    Roads::new((0..20).map(|x| c(x, 0)).collect())
}

fn fresh_session(
    defenders: Vec<DefenderDetails>,
    mines: Vec<MineDetails>,
    buildings: Vec<BuildingDetails>,
) -> State {
    State::new(1, 2, defenders, vec![], mines, buildings, 0)
}

fn place_attacker_at(st: &mut State, x: i32, y: i32, frame: u32) {
    let mut req = request(ActionType::PlaceAttacker, frame);
    req.attacker_id = Some(1);
    req.bomb_id = Some(3);
    req.current_position = Some(c(x, y));
    let resp = game_handler(&catalog(), &req, st, &RouteOracle::new(vec![]), &lane_roads(), &bombs(), 0)
        .unwrap();
    assert_eq!(resp.result_type, ResultType::PlacedAttacker);
}

#[test]
fn place_attacker_binds_catalog_entry() {
    let mut st = fresh_session(vec![], vec![], vec![]);
    place_attacker_at(&mut st, 3, 0, 1);
    let a = st.attacker.as_ref().unwrap();
    assert_eq!(a.attacker_health, 40);
    assert_eq!(a.attacker_pos, c(3, 0));
    assert_eq!(a.bomb_count, 6);
    assert_eq!(st.bombs.total_count, 6);
    assert_eq!(st.bombs.radius, 1);
    assert_eq!(st.frame_no, 1);
}

// An accepted movement tick advances the frame counter by exactly one.
#[test]
fn movement_advances_frame_by_one() {
    let mut st = fresh_session(vec![], vec![], vec![]);
    place_attacker_at(&mut st, 3, 0, 1);
    let mut req = request(ActionType::MoveAttacker, 2);
    req.attacker_id = Some(1);
    req.current_position = Some(c(4, 0));
    let resp = game_handler(
        &catalog(),
        &req,
        &mut st,
        &RouteOracle::new(vec![]),
        &lane_roads(),
        &bombs(),
        50,
    )
    .unwrap();
    assert!(!resp.is_game_over);
    assert_eq!(st.frame_no, 2);
    assert_eq!(st.attacker.as_ref().unwrap().attacker_pos, c(4, 0));
    assert_eq!(resp.result_type, ResultType::Nothing);
    assert_eq!(resp.message, "Movement Response".to_string());
}

// Scenario: the frame number jumps from 10 to 12. The session is invalidated
// with a GameOver event and a descriptive message, and no further ticks are
// accepted.
#[test]
fn frame_jump_invalidates_session() {
    let mut st = fresh_session(vec![], vec![], vec![]);
    place_attacker_at(&mut st, 3, 0, 10);
    assert_eq!(st.frame_no, 10);

    let mut req = request(ActionType::MoveAttacker, 12);
    req.attacker_id = Some(1);
    req.current_position = Some(c(4, 0));
    let resp = game_handler(
        &catalog(),
        &req,
        &mut st,
        &RouteOracle::new(vec![]),
        &lane_roads(),
        &bombs(),
        50,
    )
    .unwrap();
    assert_eq!(resp.result_type, ResultType::GameOver);
    assert!(resp.is_game_over);
    assert_eq!(resp.message, "Frame number mismatch".to_string());
    assert!(st.in_validation.is_invalidated);
    assert_eq!(st.frame_no, 10);

    // No further tick is accepted: the next action only re-emits GameOver
    // and changes nothing.
    let mut req2 = request(ActionType::MoveAttacker, 11);
    req2.attacker_id = Some(1);
    req2.current_position = Some(c(4, 0));
    let resp2 = game_handler(
        &catalog(),
        &req2,
        &mut st,
        &RouteOracle::new(vec![]),
        &lane_roads(),
        &bombs(),
        60,
    )
    .unwrap();
    assert_eq!(resp2.result_type, ResultType::GameOver);
    assert!(resp2.is_game_over);
    assert_eq!(st.frame_no, 10);
    assert_eq!(st.attacker.as_ref().unwrap().attacker_pos, c(3, 0));
}

// A destination off the road set invalidates the session.
#[test]
fn off_road_movement_invalidates() {
    let mut st = fresh_session(vec![], vec![], vec![]);
    place_attacker_at(&mut st, 3, 0, 1);
    let mut req = request(ActionType::MoveAttacker, 2);
    req.attacker_id = Some(1);
    req.current_position = Some(c(3, 1));
    let resp = game_handler(
        &catalog(),
        &req,
        &mut st,
        &RouteOracle::new(vec![]),
        &lane_roads(),
        &bombs(),
        50,
    )
    .unwrap();
    assert!(resp.is_game_over);
    assert_eq!(resp.message, "Attacker out of roads".to_string());
    assert!(st.in_validation.is_invalidated);
}

// A movement delta that is not exactly one orthogonal step invalidates.
#[test]
fn tile_skip_invalidates() {
    let mut st = fresh_session(vec![], vec![], vec![]);
    place_attacker_at(&mut st, 3, 0, 1);
    let mut req = request(ActionType::MoveAttacker, 2);
    req.attacker_id = Some(1);
    req.current_position = Some(c(5, 0));
    let resp = game_handler(
        &catalog(),
        &req,
        &mut st,
        &RouteOracle::new(vec![]),
        &lane_roads(),
        &bombs(),
        50,
    )
    .unwrap();
    assert!(resp.is_game_over);
    assert_eq!(resp.message, "attacker skipped a tile".to_string());
}

// The life budget is enforced on movement.
#[test]
fn exhausted_lives_invalidate() {
    let mut st = fresh_session(vec![], vec![], vec![]);
    place_attacker_at(&mut st, 3, 0, 1);
    st.attacker_death_count = 3;
    let mut req = request(ActionType::MoveAttacker, 2);
    req.attacker_id = Some(1);
    req.current_position = Some(c(4, 0));
    let resp = game_handler(
        &catalog(),
        &req,
        &mut st,
        &RouteOracle::new(vec![]),
        &lane_roads(),
        &bombs(),
        50,
    )
    .unwrap();
    assert!(resp.is_game_over);
    assert_eq!(resp.message, "Attacker Lives forged!".to_string());
}

// A movement tick into a defender's radius latches its target; the target is
// only ever re-acquired the same way after a death clears it.
#[test]
fn defender_trigger_latches_and_clears() {
    let d = defender(4, 5, 0, 2, 10, 30);
    let mut st = fresh_session(vec![d], vec![], vec![]);
    place_attacker_at(&mut st, 3, 0, 1);

    let oracle = RouteOracle::new(vec![RouteEntry {
        key: SourceDestXY { source_x: 5, source_y: 0, dest_x: 4, dest_y: 0 },
        path: Path { next_hop: c(4, 0), length: 1 },
    }]);
    let mut req = request(ActionType::MoveAttacker, 2);
    req.attacker_id = Some(1);
    req.current_position = Some(c(4, 0));
    let resp = game_handler(&catalog(), &req, &mut st, &oracle, &lane_roads(), &bombs(), 50)
        .unwrap();

    // The defender latched on and arrived in the same tick, dealing damage.
    assert_eq!(resp.result_type, ResultType::DefendersDamaged);
    assert_eq!(resp.defender_damaged.as_ref().unwrap().len(), 1);
    assert_eq!(resp.attacker_health, Some(30));
    assert!(!st.defenders[0].is_alive);
    assert_eq!(st.defenders[0].target_id, None);
}

// The IsMine action explodes exactly the mines on the attacker's tile.
#[test]
fn is_mine_explodes_and_reports() {
    let mine = MineDetails { id: 9, position: c(3, 0), radius: 1, damage: 25 };
    let mut st = fresh_session(vec![], vec![mine], vec![]);
    place_attacker_at(&mut st, 3, 0, 1);

    let mut req = request(ActionType::IsMine, 2);
    req.current_position = Some(c(3, 0));
    let resp = game_handler(
        &catalog(),
        &req,
        &mut st,
        &RouteOracle::new(vec![]),
        &lane_roads(),
        &bombs(),
        50,
    )
    .unwrap();
    assert_eq!(resp.result_type, ResultType::MinesExploded);
    assert_eq!(resp.exploded_mines.as_ref().unwrap().len(), 1);
    assert_eq!(resp.attacker_health, Some(15));
    assert_eq!(resp.is_alive, Some(true));
    assert!(st.mines.is_empty());
}

// The PlaceBombs action with an empty inventory terminates the session.
#[test]
fn place_bombs_without_inventory_terminates() {
    let b = building(1, 5, 5, 1, 40, 0, BuildingKind::Bank, 0, 1, 1);
    let mut st = fresh_session(vec![], vec![], vec![b]);
    place_attacker_at(&mut st, 3, 0, 1);
    st.bombs.total_count = 0;

    let mut req = request(ActionType::PlaceBombs, 2);
    req.current_position = Some(c(3, 0));
    req.bomb_position = Some(c(3, 0));
    let resp = game_handler(
        &catalog(),
        &req,
        &mut st,
        &RouteOracle::new(vec![]),
        &lane_roads(),
        &bombs(),
        50,
    )
    .unwrap();
    assert!(resp.is_game_over);
    assert_eq!(resp.message, "No bombs left".to_string());
    assert!(st.in_validation.is_invalidated);
}

// A bomb declared away from the attacker's tile terminates the session.
#[test]
fn place_bombs_off_position_terminates() {
    let mut st = fresh_session(vec![], vec![], vec![]);
    place_attacker_at(&mut st, 3, 0, 1);

    let mut req = request(ActionType::PlaceBombs, 2);
    req.current_position = Some(c(3, 0));
    req.bomb_position = Some(c(7, 0));
    let resp = game_handler(
        &catalog(),
        &req,
        &mut st,
        &RouteOracle::new(vec![]),
        &lane_roads(),
        &bombs(),
        50,
    )
    .unwrap();
    assert!(resp.is_game_over);
    assert_eq!(resp.message, "Bomb placed out of path".to_string());
}

// A valid PlaceBombs action resolves the blast and reports the base damage.
#[test]
fn place_bombs_resolves_blast() {
    let b = building(1, 3, 1, 1, 40, 100, BuildingKind::Bank, 0, 1, 1);
    let mut st = fresh_session(vec![], vec![], vec![b]);
    place_attacker_at(&mut st, 3, 0, 1);
    st.bomb_damage_multiplier = 5;

    let mut req = request(ActionType::PlaceBombs, 2);
    req.current_position = Some(c(3, 0));
    req.bomb_position = Some(c(3, 0));
    let resp = game_handler(
        &catalog(),
        &req,
        &mut st,
        &RouteOracle::new(vec![]),
        &lane_roads(),
        &bombs(),
        50,
    )
    .unwrap();
    assert_eq!(resp.result_type, ResultType::BuildingsDamaged);
    let dmg = resp.damaged_base_items.as_ref().unwrap();
    assert_eq!(dmg.buildings_damaged.len(), 1);
    assert_eq!(dmg.buildings_damaged[0].hp, 0);
    assert_eq!(dmg.buildings_damaged[0].artifacts_if_damaged, 30);
    assert_eq!(st.artifacts, 30);
    assert_eq!(resp.total_damage_percentage, 100);
    assert_eq!(st.bombs.total_count, 5);
}

// Idle ticks change nothing and report the current standing.
#[test]
fn idle_reports_standing() {
    let mut st = fresh_session(vec![], vec![], vec![]);
    place_attacker_at(&mut st, 3, 0, 1);
    let req = request(ActionType::Idle, 2);
    let resp = game_handler(
        &catalog(),
        &req,
        &mut st,
        &RouteOracle::new(vec![]),
        &lane_roads(),
        &bombs(),
        50,
    )
    .unwrap();
    assert_eq!(resp.result_type, ResultType::Nothing);
    assert_eq!(resp.attacker_health, Some(40));
    assert_eq!(resp.message, "Idle Response".to_string());
    assert_eq!(st.frame_no, 1);
}

// Self destruct surfaces a dead attacker.
#[test]
fn self_destruct_reports_dead() {
    let mut st = fresh_session(vec![], vec![], vec![]);
    place_attacker_at(&mut st, 3, 0, 1);
    let req = request(ActionType::SelfDestruct, 2);
    let resp = game_handler(
        &catalog(),
        &req,
        &mut st,
        &RouteOracle::new(vec![]),
        &lane_roads(),
        &bombs(),
        50,
    )
    .unwrap();
    assert_eq!(resp.is_alive, Some(false));
    assert_eq!(resp.attacker_health, Some(0));
    assert_eq!(resp.message, "Self Destructed".to_string());
    assert_eq!(st.attacker_death_count, 1);
    // The event carries its damage lists explicitly empty.
    assert!(resp.defender_damaged.unwrap().is_empty());
    let dmg = resp.damaged_base_items.unwrap();
    assert!(dmg.buildings_damaged.is_empty() && dmg.defenders_damaged.is_empty());
}

// Terminate is terminal and performs no anti-cheat check.
#[test]
fn terminate_is_terminal() {
    let mut st = fresh_session(vec![], vec![], vec![]);
    let req = request(ActionType::Terminate, 99);
    let resp = game_handler(
        &catalog(),
        &req,
        &mut st,
        &RouteOracle::new(vec![]),
        &lane_roads(),
        &bombs(),
        50,
    )
    .unwrap();
    assert_eq!(resp.result_type, ResultType::GameOver);
    assert!(resp.is_game_over);
    assert_eq!(resp.message, "Game over".to_string());
}

// A movement tick in hut range spawns a hut defender and classifies the tick
// by the spawn, the highest precedence.
#[test]
fn hut_spawn_classifies_tick() {
    let hut_b = building(7, 4, 1, 1, 50, 0, BuildingKind::DefenderHut, 3, 5000, 1);
    let template = defender(70, 4, 1, 3, 10, 20);
    let mut st = State::new(1, 2, vec![], vec![(7, template)], vec![], vec![hut_b], 0);
    place_attacker_at(&mut st, 3, 0, 1);

    let mut req = request(ActionType::MoveAttacker, 2);
    req.attacker_id = Some(1);
    req.current_position = Some(c(4, 0));
    let resp = game_handler(
        &catalog(),
        &req,
        &mut st,
        &RouteOracle::new(vec![]),
        &lane_roads(),
        &bombs(),
        50,
    )
    .unwrap();
    assert!(resp.hut_triggered);
    assert_eq!(resp.result_type, ResultType::SpawnHutDefender);
    assert_eq!(resp.hut_defenders.as_ref().unwrap().len(), 1);
    // The clone stands on the road-adjacent border tile nearest the attacker.
    assert_eq!(resp.hut_defenders.as_ref().unwrap()[0].defender_pos, c(4, 0));
    assert_eq!(st.defenders.len(), 1);
    assert_eq!(st.hut[0].hut_defenders_count, 2);
}

// Malformed requests and missing entities fail loudly, without mutating the
// session.
#[test]
fn internal_faults_fail_loudly() {
    let mut st = fresh_session(vec![], vec![], vec![]);

    let mut move_req = request(ActionType::MoveAttacker, 1);
    move_req.current_position = Some(c(4, 0));
    let r = game_handler(
        &catalog(),
        &move_req,
        &mut st,
        &RouteOracle::new(vec![]),
        &lane_roads(),
        &bombs(),
        0,
    );
    assert_eq!(r.unwrap_err(), EngineError::MalformedRequest);

    let mut mine_req = request(ActionType::IsMine, 1);
    mine_req.current_position = Some(c(4, 0));
    let r2 = game_handler(
        &catalog(),
        &mine_req,
        &mut st,
        &RouteOracle::new(vec![]),
        &lane_roads(),
        &bombs(),
        0,
    );
    assert_eq!(r2.unwrap_err(), EngineError::NoAttackerPlaced);

    let mut bad_type = request(ActionType::PlaceAttacker, 1);
    bad_type.attacker_id = Some(42);
    bad_type.current_position = Some(c(3, 0));
    let r3 = game_handler(
        &catalog(),
        &bad_type,
        &mut st,
        &RouteOracle::new(vec![]),
        &lane_roads(),
        &bombs(),
        0,
    );
    assert_eq!(r3.unwrap_err(), EngineError::UnknownAttackerType);

    let mut bad_bomb = request(ActionType::PlaceAttacker, 1);
    bad_bomb.attacker_id = Some(1);
    bad_bomb.bomb_id = Some(42);
    bad_bomb.current_position = Some(c(3, 0));
    let r4 = game_handler(
        &catalog(),
        &bad_bomb,
        &mut st,
        &RouteOracle::new(vec![]),
        &lane_roads(),
        &bombs(),
        0,
    );
    assert_eq!(r4.unwrap_err(), EngineError::UnknownBombType);
    assert!(st.attacker.is_none());
}

// A targeted defender with no route in the oracle aborts the tick loudly.
#[test]
fn move_with_missing_route_fails_loudly() {
    let mut d = defender(4, 9, 0, 2, 10, 30);
    d.target_id = Some(1);
    let mut st = fresh_session(vec![d], vec![], vec![]);
    place_attacker_at(&mut st, 3, 0, 1);

    let mut req = request(ActionType::MoveAttacker, 2);
    req.attacker_id = Some(1);
    req.current_position = Some(c(4, 0));
    let r = game_handler(
        &catalog(),
        &req,
        &mut st,
        &RouteOracle::new(vec![]),
        &lane_roads(),
        &bombs(),
        50,
    );
    assert_eq!(r.unwrap_err(), EngineError::MissingRoute);
}

// A movement tick carries the companion's sub-result: on its first tick the
// companion commits to the ranker's choice.
#[test]
fn move_tick_carries_companion_result() {
    let d = defender(4, 12, 0, 2, 10, 30);
    let mut st = fresh_session(vec![d], vec![], vec![]);
    place_attacker_at(&mut st, 3, 0, 1);

    let mut comp_req = request(ActionType::PlaceCompanion, 2);
    comp_req.attacker_id = Some(1);
    comp_req.current_position = Some(c(0, 0));
    let oracle = RouteOracle::new(vec![RouteEntry {
        key: SourceDestXY { source_x: 0, source_y: 0, dest_x: 12, dest_y: 0 },
        path: Path { next_hop: c(1, 0), length: 12 },
    }]);
    let placed = game_handler(&catalog(), &comp_req, &mut st, &oracle, &lane_roads(), &bombs(), 0)
        .unwrap();
    assert_eq!(placed.result_type, ResultType::PlacedCompanion);
    assert_eq!(st.frame_no, 2);

    let mut mv = request(ActionType::MoveAttacker, 3);
    mv.attacker_id = Some(1);
    mv.current_position = Some(c(4, 0));
    let resp = game_handler(&catalog(), &mv, &mut st, &oracle, &lane_roads(), &bombs(), 50)
        .unwrap();
    let cr = resp.companion.expect("companion result rides the tick");
    assert!(cr.building_damaged.is_none() && cr.defender_damaged.is_none());
    let comp = st.companion.as_ref().unwrap();
    assert_eq!(comp.target_id, Some(4));
    assert_eq!(comp.target_tile, Some(c(12, 0)));
    assert_eq!(resp.result_type, ResultType::Nothing);
}
