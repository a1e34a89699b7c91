//! Per-tick action dispatch: decoded client actions in, typed outcome events
//! out. This is the engine's single entry point: it advances exactly one
//! tick per accepted action, refuses every tick once the session is
//! invalidated, and assembles the one outbound event of the tick with its
//! precedence-tagged classification and all sub-results.

use vstd::prelude::*;
use vstd::string::StringExecFns;

use crate::blast::place_bombs_rel;
use crate::catalog::{COMPANION_ATTACK_INTERVAL, COMPANION_BOT_RANGE, COMPANION_DAMAGE};
use crate::combat::{bullets_shot, pursuit_rel, pursuit_responses, resolve_stage, routes_ok, shoot_stage};
use crate::companion::{companion_rel, companion_route_missing};
use crate::routes::{Roads, RouteOracle};
use crate::spawn::{hut_spawns, huts_ok, spawn_stage};
use crate::state::{
    damage_percentage_spec, mine_hit_rel, mines_at, mines_damage_at, mines_not_at,
    movement_stage, movement_violation, targets_cleared, State,
};
use crate::types::{
    Attacker, AttackerType, BaseItemsDamageResponse, BombType, BulletSpawnResponse, Companion,
    CompanionResult, Coords, DefenderDetails, DefenderResponse, EngineError, InvalidationReason,
    MineDetails,
};

verus! {

/// The kinds of inbound client actions.
#[derive(Clone, Copy, PartialEq, Eq, Structural, Debug)]
pub enum ActionType {
    PlaceAttacker,
    PlaceCompanion,
    MoveAttacker,
    IsMine,
    PlaceBombs,
    Idle,
    SelfDestruct,
    Terminate,
}

/// The kinds of outbound tick outcomes.
#[derive(Clone, Copy, PartialEq, Eq, Structural, Debug)]
pub enum ResultType {
    PlacedAttacker,
    PlacedCompanion,
    MinesExploded,
    DefendersDamaged,
    BuildingsDamaged,
    SpawnHutDefender,
    BulletHit,
    UAV,
    GameOver,
    Nothing,
}

/// One decoded inbound action.
#[derive(Clone, Copy, PartialEq, Eq, Structural, Debug)]
pub struct SocketRequest {
    pub action_type: ActionType,
    pub frame_number: u32,
    pub attacker_id: Option<i32>,
    pub bomb_id: Option<i32>,
    pub current_position: Option<Coords>,
    pub bomb_position: Option<Coords>,
}

/// One outbound tick event: a primary classification plus every sub-result,
/// forwarded verbatim by the session driver.
#[derive(Clone, PartialEq, Eq, Debug)]
pub struct SocketResponse {
    pub frame_number: u32,
    pub result_type: ResultType,
    pub is_alive: Option<bool>,
    pub attacker_health: Option<u32>,
    pub exploded_mines: Option<Vec<MineDetails>>,
    pub defender_damaged: Option<Vec<DefenderResponse>>,
    pub damaged_base_items: Option<BaseItemsDamageResponse>,
    pub hut_triggered: bool,
    pub hut_defenders: Option<Vec<DefenderDetails>>,
    pub total_damage_percentage: u32,
    pub is_game_over: bool,
    pub message: String,
    pub companion: Option<CompanionResult>,
    pub bullet_hits: Option<Vec<BulletSpawnResponse>>,
    pub revealed_mines: Option<Vec<MineDetails>>,
}

/// First catalog entry with this attacker type id.
pub open spec fn attacker_type_of(ts: Seq<AttackerType>, id: i32) -> Option<AttackerType>
    decreases ts.len(),
{
    if ts.len() == 0 {
        None
    } else if ts[0].id == id {
        Some(ts[0])
    } else {
        attacker_type_of(ts.skip(1), id)
    }
}

/// First catalog entry with this bomb type id.
pub open spec fn bomb_type_of(bts: Seq<BombType>, id: i32) -> Option<BombType>
    decreases bts.len(),
{
    if bts.len() == 0 {
        None
    } else if bts[0].id == id {
        Some(bts[0])
    } else {
        bomb_type_of(bts.skip(1), id)
    }
}

/// Looks up an attacker type in the catalog.
#[verifier::loop_isolation(false)]
pub fn find_attacker_type(ts: &Vec<AttackerType>, id: i32) -> (r: Option<AttackerType>)
    ensures
        r == attacker_type_of(ts@, id),
{
    let n = ts.len();
    let mut i: usize = 0;
    proof {
        assert(ts@.skip(0) =~= ts@);
    }
    while i < n
        invariant
            0 <= i <= n,
            attacker_type_of(ts@, id) == attacker_type_of(ts@.skip(i as int), id),
        decreases n - i,
    {
        proof {
            assert(ts@.skip(i as int)[0] == ts@[i as int]);
            assert(ts@.skip(i as int).skip(1) =~= ts@.skip(i + 1));
        }
        if ts[i].id == id {
            return Some(ts[i]);
        }
        i = i + 1;
    }
    proof {
        assert(ts@.skip(n as int) =~= Seq::<AttackerType>::empty());
    }
    None
}

/// Looks up a bomb type in the catalog.
#[verifier::loop_isolation(false)]
pub fn find_bomb_type(bts: &Vec<BombType>, id: i32) -> (r: Option<BombType>)
    ensures
        r == bomb_type_of(bts@, id),
{
    let n = bts.len();
    let mut i: usize = 0;
    proof {
        assert(bts@.skip(0) =~= bts@);
    }
    while i < n
        invariant
            0 <= i <= n,
            bomb_type_of(bts@, id) == bomb_type_of(bts@.skip(i as int), id),
        decreases n - i,
    {
        proof {
            assert(bts@.skip(i as int)[0] == bts@[i as int]);
            assert(bts@.skip(i as int).skip(1) =~= bts@.skip(i + 1));
        }
        if bts[i].id == id {
            return Some(bts[i]);
        }
        i = i + 1;
    }
    proof {
        assert(bts@.skip(n as int) =~= Seq::<BombType>::empty());
    }
    None
}

/// The descriptive text of an invalidation reason.
pub open spec fn reason_text(r: InvalidationReason) -> Seq<char> {
    match r {
        InvalidationReason::FrameMismatch => "Frame number mismatch"@,
        InvalidationReason::LivesExhausted => "Attacker Lives forged!"@,
        InvalidationReason::OffRoad => "Attacker out of roads"@,
        InvalidationReason::TileSkip => "attacker skipped a tile"@,
        InvalidationReason::NoBombsLeft => "No bombs left"@,
        InvalidationReason::BombOffPosition => "Bomb placed out of path"@,
    }
}

impl InvalidationReason {
    /// The descriptive message surfaced with the GameOver event.
    pub fn message(&self) -> (r: String)
        ensures
            r@ == reason_text(*self),
    {
        match *self {
            InvalidationReason::FrameMismatch => String::from_str("Frame number mismatch"),
            InvalidationReason::LivesExhausted => String::from_str("Attacker Lives forged!"),
            InvalidationReason::OffRoad => String::from_str("Attacker out of roads"),
            InvalidationReason::TileSkip => String::from_str("attacker skipped a tile"),
            InvalidationReason::NoBombsLeft => String::from_str("No bombs left"),
            InvalidationReason::BombOffPosition => String::from_str("Bomb placed out of path"),
        }
    }
}

/// Whether `resp` is the terminal GameOver event of an invalidated or
/// terminated session, carrying the given message.
pub open spec fn terminate_resp(
    resp: SocketResponse,
    frame_number: u32,
    message: Seq<char>,
    pct: int,
) -> bool {
    &&& resp.frame_number == frame_number
    &&& resp.result_type is GameOver
    &&& resp.is_game_over
    &&& resp.message@ == message
    &&& resp.total_damage_percentage == pct
    &&& resp.exploded_mines is None
    &&& resp.defender_damaged is None
    &&& resp.damaged_base_items is None
    &&& !resp.hut_triggered
    &&& resp.hut_defenders is None
    &&& resp.companion is None
    &&& resp.bullet_hits is None
    &&& resp.revealed_mines is None
}

/// Builds the terminal GameOver event for an invalidated or timed-out
/// session.
pub fn send_terminate_game_message(
    frame_number: u32,
    message: String,
    total_damage_percentage: u32,
) -> (r: SocketResponse)
    ensures
        terminate_resp(r, frame_number, message@, total_damage_percentage as int),
        r.is_alive is None,
        r.attacker_health is None,
{
    SocketResponse {
        frame_number,
        result_type: ResultType::GameOver,
        is_alive: None,
        attacker_health: None,
        exploded_mines: None,
        defender_damaged: None,
        damaged_base_items: None,
        hut_triggered: false,
        hut_defenders: None,
        total_damage_percentage,
        is_game_over: true,
        message,
        companion: None,
        bullet_hits: None,
        revealed_mines: None,
    }
}

/// The fresh attacker bound from a catalog entry at the declared spawn tile.
pub open spec fn fresh_attacker(t: AttackerType, pos: Coords) -> Attacker {
    Attacker {
        id: t.id,
        attacker_pos: pos,
        attacker_health: t.max_health,
        attacker_speed: t.speed,
        bomb_count: t.amt_of_emps,
        trigger_defender: false,
    }
}

/// The fresh companion bound from a catalog entry at the declared spawn
/// tile.
pub open spec fn fresh_companion(t: AttackerType, pos: Coords) -> Companion {
    Companion {
        id: t.id,
        companion_pos: pos,
        companion_health: t.max_health,
        companion_speed: t.speed,
        bomb_count: t.amt_of_emps,
        range: COMPANION_BOT_RANGE,
        current_target: None,
        target_id: None,
        target_tile: None,
        reached_dest: false,
        last_attack_tick: 0u32,
        attack_interval: COMPANION_ATTACK_INTERVAL,
        damage: COMPANION_DAMAGE,
        trigger_defender: false,
    }
}

/// The companion part of one movement tick: with a companion placed, one
/// companion step relates the states and its result rides in the response;
/// without one, nothing changes and the response carries no companion.
pub open spec fn companion_part(
    mid: State,
    post: State,
    roads: Roads,
    oracle: RouteOracle,
    resp: SocketResponse,
) -> bool {
    if mid.companion is Some {
        &&& resp.companion matches Some(cr)
        &&& companion_rel(mid, post, roads, oracle, resp.companion.unwrap())
    } else {
        &&& post == mid
        &&& resp.companion is None
    }
}

/// The event classification of one movement tick, by the fixed precedence:
/// hut spawns beat defender damage, which beats base-item damage, which
/// beats nothing at all.
pub open spec fn move_result_type(resp: SocketResponse) -> ResultType {
    if resp.hut_defenders.unwrap()@.len() > 0 {
        ResultType::SpawnHutDefender
    } else if resp.defender_damaged.unwrap()@.len() > 0 {
        ResultType::DefendersDamaged
    } else if resp.damaged_base_items.unwrap().buildings_damaged@.len() > 0
        || resp.damaged_base_items.unwrap().defenders_damaged@.len() > 0 {
        ResultType::BuildingsDamaged
    } else {
        ResultType::Nothing
    }
}

/// How one accepted movement tick relates the state before and after and
/// what it reports, as the chain of the tick's stages in order: movement and
/// triggers, defender pursuit, hut spawning, sentry fire, bullet resolution,
/// companion. An invalidating move stops after the movement stage and
/// surfaces the terminal GameOver event.
pub open spec fn move_tick_rel(
    pre: State,
    post: State,
    resp: SocketResponse,
    frame_number: u32,
    new_pos: Coords,
    roads: Roads,
    oracle: RouteOracle,
    now_ms: u64,
) -> bool {
    if movement_violation(pre, frame_number, roads.has(new_pos), new_pos) is Some {
        &&& movement_stage(pre, post, frame_number, roads, new_pos, now_ms)
        &&& terminate_resp(
            resp,
            frame_number,
            reason_text(post.in_validation.reason.unwrap()),
            damage_percentage_spec(post),
        )
    } else {
        &&& exists|s1: State, s2: State, s3: State, s4: State, s5: State|
            {
                &&& #[trigger] movement_stage(pre, s1, frame_number, roads, new_pos, now_ms)
                &&& #[trigger] pursuit_rel(s1, s2, oracle, new_pos)
                &&& resp.defender_damaged.unwrap()@ == pursuit_responses(
                    s1.defenders@,
                    oracle,
                    new_pos,
                )
                &&& #[trigger] spawn_stage(
                    s2,
                    s3,
                    roads,
                    new_pos,
                    now_ms,
                    resp.hut_defenders.unwrap()@,
                )
                &&& #[trigger] shoot_stage(s3, s4, now_ms, resp.bullet_hits.unwrap()@)
                &&& #[trigger] resolve_stage(s4, s5, now_ms)
                &&& companion_part(s5, post, roads, oracle, resp)
            }
        &&& resp.frame_number == frame_number
        &&& resp.defender_damaged is Some
        &&& resp.hut_defenders is Some
        &&& resp.bullet_hits is Some
        &&& resp.damaged_base_items matches Some(dmg)
        &&& resp.damaged_base_items.unwrap().buildings_damaged@ == (match resp.companion {
            Some(cr) => match cr.building_damaged {
                Some(b) => seq![b],
                None => Seq::empty(),
            },
            None => Seq::empty(),
        })
        &&& resp.damaged_base_items.unwrap().defenders_damaged@ == (match resp.companion {
            Some(cr) => match cr.defender_damaged {
                Some(d) => seq![d],
                None => Seq::empty(),
            },
            None => Seq::empty(),
        })
        &&& resp.result_type == move_result_type(resp)
        &&& resp.hut_triggered == (resp.hut_defenders.unwrap()@.len() > 0)
        &&& resp.attacker_health == Some(post.attacker.unwrap().attacker_health)
        &&& resp.is_alive == Some(post.attacker.unwrap().attacker_health > 0)
        &&& resp.total_damage_percentage == damage_percentage_spec(post)
        &&& !resp.is_game_over
        &&& resp.message@ == "Movement Response"@
        &&& resp.exploded_mines is None
        &&& resp.revealed_mines is None
    }
}

/// How a movement tick that aborts on an internal fault relates the states
/// and the error: the anti-cheat checks all passed (a rejected move is
/// answered with the terminal GameOver event, never an error), the accepted
/// stages up to the missing lookup completed, and the state is exactly the
/// last completed stage. The fault is a route entry the pursuit or companion
/// step needs, or a hut slot's backing building.
pub open spec fn move_tick_err_rel(
    pre: State,
    post: State,
    e: EngineError,
    frame_number: u32,
    new_pos: Coords,
    roads: Roads,
    oracle: RouteOracle,
    now_ms: u64,
) -> bool {
    &&& movement_violation(pre, frame_number, roads.has(new_pos), new_pos) is None
    &&& exists|s1: State|
        {
            &&& #[trigger] movement_stage(pre, s1, frame_number, roads, new_pos, now_ms)
            &&& if !routes_ok(s1.defenders@, oracle, new_pos) {
                &&& e == EngineError::MissingRoute
                &&& post == s1
            } else {
                exists|s2: State|
                    {
                        &&& #[trigger] pursuit_rel(s1, s2, oracle, new_pos)
                        &&& if !huts_ok(s2.hut@, s2.buildings@) {
                            &&& e == EngineError::MissingHutBuilding
                            &&& post == s2
                        } else {
                            exists|s3: State, s4: State|
                                {
                                    &&& #[trigger] spawn_stage(
                                        s2,
                                        s3,
                                        roads,
                                        new_pos,
                                        now_ms,
                                        hut_spawns(s2.hut@, s2.buildings@, roads, new_pos, now_ms),
                                    )
                                    &&& #[trigger] shoot_stage(
                                        s3,
                                        s4,
                                        now_ms,
                                        bullets_shot(s3.sentries@, now_ms),
                                    )
                                    &&& resolve_stage(s4, post, now_ms)
                                    &&& post.companion is Some
                                    &&& companion_route_missing(post, oracle)
                                    &&& e == EngineError::MissingRoute
                                }
                        }
                    }
            }
        }
}

/// How one call of the dispatcher relates the state before and after and
/// what it returns, for every action kind. An already-invalidated session
/// accepts no further tick: it only re-emits the terminal GameOver event.
pub open spec fn handler_rel(
    pre: State,
    post: State,
    req: SocketRequest,
    ts: Seq<AttackerType>,
    bts: Seq<BombType>,
    roads: Roads,
    oracle: RouteOracle,
    now_ms: u64,
    r: Result<SocketResponse, EngineError>,
) -> bool {
    if pre.in_validation.is_invalidated {
        &&& post == pre
        &&& r matches Ok(resp)
        &&& terminate_resp(
            resp,
            req.frame_number,
            match pre.in_validation.reason {
                Some(why) => reason_text(why),
                None => "Game over"@,
            },
            damage_percentage_spec(pre),
        )
    } else {
        match req.action_type {
            ActionType::PlaceAttacker => {
                if req.attacker_id is None || req.current_position is None {
                    &&& r == Result::<SocketResponse, EngineError>::Err(
                        EngineError::MalformedRequest,
                    )
                    &&& post == pre
                } else {
                    match attacker_type_of(ts, req.attacker_id.unwrap()) {
                        None => {
                            &&& r == Result::<SocketResponse, EngineError>::Err(
                                EngineError::UnknownAttackerType,
                            )
                            &&& post == pre
                        },
                        Some(t) => {
                            if req.bomb_id is Some && bomb_type_of(
                                bts,
                                req.bomb_id.unwrap(),
                            ) is None {
                                &&& r == Result::<SocketResponse, EngineError>::Err(
                                    EngineError::UnknownBombType,
                                )
                                &&& post == pre
                            } else {
                                let pos = req.current_position.unwrap();
                                &&& post.frame_no == req.frame_number
                                &&& post.attacker == Some(fresh_attacker(t, pos))
                                &&& post.sentries@ == crate::state::sentries_activated(
                                    pre.sentries@,
                                    pre.buildings@,
                                    pos,
                                    now_ms,
                                )
                                &&& post.bullets@ == crate::state::bullets_expired(
                                    pre.bullets@,
                                    pre.sentries@,
                                    pre.buildings@,
                                    pos,
                                    now_ms,
                                )
                                &&& post.bombs == (match req.bomb_id {
                                    Some(bid) => BombType {
                                        total_count: t.amt_of_emps,
                                        ..bomb_type_of(bts, bid).unwrap()
                                    },
                                    None => pre.bombs,
                                })
                                &&& post =~= (State {
                                    frame_no: post.frame_no,
                                    attacker: post.attacker,
                                    sentries: post.sentries,
                                    bullets: post.bullets,
                                    bombs: post.bombs,
                                    ..pre
                                })
                                &&& r matches Ok(resp)
                                &&& resp.frame_number == req.frame_number
                                &&& resp.result_type is PlacedAttacker
                                &&& resp.is_alive == Some(true)
                                &&& resp.attacker_health == Some(t.max_health)
                                &&& !resp.is_game_over
                                &&& resp.total_damage_percentage == damage_percentage_spec(post)
                                &&& resp.message@
                                    == "Place Attacker, set attacker and bomb response"@
                                &&& resp.exploded_mines is None
                                &&& resp.defender_damaged is None
                                &&& resp.damaged_base_items is None
                                &&& !resp.hut_triggered
                                &&& resp.hut_defenders is None
                                &&& resp.companion is None
                                &&& resp.bullet_hits is None
                                &&& resp.revealed_mines is None
                            }
                        },
                    }
                }
            },
            ActionType::PlaceCompanion => {
                if req.attacker_id is None || req.current_position is None {
                    &&& r == Result::<SocketResponse, EngineError>::Err(
                        EngineError::MalformedRequest,
                    )
                    &&& post == pre
                } else {
                    match attacker_type_of(ts, req.attacker_id.unwrap()) {
                        None => {
                            &&& r == Result::<SocketResponse, EngineError>::Err(
                                EngineError::UnknownAttackerType,
                            )
                            &&& post == pre
                        },
                        Some(t) => {
                            if req.bomb_id is Some && bomb_type_of(
                                bts,
                                req.bomb_id.unwrap(),
                            ) is None {
                                &&& r == Result::<SocketResponse, EngineError>::Err(
                                    EngineError::UnknownBombType,
                                )
                                &&& post == pre
                            } else {
                                let pos = req.current_position.unwrap();
                                &&& post.frame_no == req.frame_number
                                &&& post.companion == Some(fresh_companion(t, pos))
                                &&& post.companion_bomb == (match req.bomb_id {
                                    Some(bid) => BombType {
                                        total_count: t.amt_of_emps,
                                        ..bomb_type_of(bts, bid).unwrap()
                                    },
                                    None => pre.companion_bomb,
                                })
                                &&& post =~= (State {
                                    frame_no: post.frame_no,
                                    companion: post.companion,
                                    companion_bomb: post.companion_bomb,
                                    ..pre
                                })
                                &&& r matches Ok(resp)
                                &&& resp.frame_number == req.frame_number
                                &&& resp.result_type is PlacedCompanion
                                &&& resp.is_alive == Some(true)
                                &&& !resp.is_game_over
                                &&& resp.total_damage_percentage == damage_percentage_spec(post)
                                &&& resp.message@ == "Placed companion"@
                                &&& resp.attacker_health is None
                                &&& resp.exploded_mines is None
                                &&& resp.defender_damaged is None
                                &&& resp.damaged_base_items is None
                                &&& !resp.hut_triggered
                                &&& resp.hut_defenders is None
                                &&& resp.companion is None
                                &&& resp.bullet_hits is None
                                &&& resp.revealed_mines is None
                            }
                        },
                    }
                }
            },
            ActionType::MoveAttacker => {
                if req.attacker_id is None || req.current_position is None {
                    &&& r == Result::<SocketResponse, EngineError>::Err(
                        EngineError::MalformedRequest,
                    )
                    &&& post == pre
                } else if pre.attacker is None {
                    &&& r == Result::<SocketResponse, EngineError>::Err(
                        EngineError::NoAttackerPlaced,
                    )
                    &&& post == pre
                } else {
                    match r {
                        Result::Err(e) => move_tick_err_rel(
                            pre,
                            post,
                            e,
                            req.frame_number,
                            req.current_position.unwrap(),
                            roads,
                            oracle,
                            now_ms,
                        ),
                        Result::Ok(resp) => move_tick_rel(
                            pre,
                            post,
                            resp,
                            req.frame_number,
                            req.current_position.unwrap(),
                            roads,
                            oracle,
                            now_ms,
                        ),
                    }
                }
            },
            ActionType::IsMine => {
                if req.current_position is None {
                    &&& r == Result::<SocketResponse, EngineError>::Err(
                        EngineError::MalformedRequest,
                    )
                    &&& post == pre
                } else if pre.attacker is None {
                    &&& r == Result::<SocketResponse, EngineError>::Err(
                        EngineError::NoAttackerPlaced,
                    )
                    &&& post == pre
                } else {
                    let pos = req.current_position.unwrap();
                    &&& post.mines@ == mines_not_at(pre.mines@, pos)
                    &&& mine_hit_rel(pre, post, mines_damage_at(pre.mines@, pos))
                    &&& post =~= (State {
                        attacker: post.attacker,
                        attacker_death_count: post.attacker_death_count,
                        defenders: post.defenders,
                        mines: post.mines,
                        ..pre
                    })
                    &&& r matches Ok(resp)
                    &&& resp.frame_number == req.frame_number
                    &&& resp.exploded_mines matches Some(em)
                    &&& resp.exploded_mines.unwrap()@ == mines_at(pre.mines@, pos)
                    &&& resp.result_type == (if mines_at(pre.mines@, pos).len() > 0 {
                        ResultType::MinesExploded
                    } else {
                        ResultType::Nothing
                    })
                    &&& resp.attacker_health == Some(post.attacker.unwrap().attacker_health)
                    &&& resp.is_alive == Some(post.attacker.unwrap().attacker_health > 0)
                    &&& !resp.is_game_over
                    &&& resp.total_damage_percentage == damage_percentage_spec(post)
                    &&& resp.message@ == "Is Mine Response"@
                    &&& resp.defender_damaged is None
                    &&& resp.damaged_base_items is None
                    &&& !resp.hut_triggered
                    &&& resp.hut_defenders is None
                    &&& resp.companion is None
                    &&& resp.bullet_hits is None
                    &&& resp.revealed_mines is None
                }
            },
            ActionType::PlaceBombs => {
                if req.current_position is None || req.bomb_position is None {
                    &&& r == Result::<SocketResponse, EngineError>::Err(
                        EngineError::MalformedRequest,
                    )
                    &&& post == pre
                } else if pre.attacker is None {
                    &&& r == Result::<SocketResponse, EngineError>::Err(
                        EngineError::NoAttackerPlaced,
                    )
                    &&& post == pre
                } else {
                    &&& r matches Ok(resp)
                    &&& exists|rb: Seq<crate::types::BuildingDamageResponse>, rd: Seq<
                        crate::types::DefenderDamageResponse,
                    >|
                        {
                            &&& #[trigger] place_bombs_rel(
                                pre,
                                post,
                                req.current_position.unwrap(),
                                req.bomb_position.unwrap(),
                                rb,
                                rd,
                            )
                            &&& if post.in_validation.is_invalidated {
                                terminate_resp(
                                    resp,
                                    req.frame_number,
                                    reason_text(post.in_validation.reason.unwrap()),
                                    damage_percentage_spec(post),
                                )
                            } else {
                                &&& resp.damaged_base_items matches Some(d)
                                &&& resp.damaged_base_items.unwrap().buildings_damaged@ == rb
                                &&& resp.damaged_base_items.unwrap().defenders_damaged@ == rd
                                &&& resp.result_type == (if rb.len() > 0 || rd.len() > 0 {
                                    ResultType::BuildingsDamaged
                                } else {
                                    ResultType::Nothing
                                })
                                &&& resp.frame_number == req.frame_number
                                &&& resp.attacker_health == Some(
                                    post.attacker.unwrap().attacker_health,
                                )
                                &&& resp.is_alive == Some(true)
                                &&& !resp.is_game_over
                                &&& resp.total_damage_percentage == damage_percentage_spec(post)
                                &&& resp.message@ == "Place Bomb Response"@
                                &&& resp.exploded_mines is None
                                &&& resp.defender_damaged is None
                                &&& !resp.hut_triggered
                                &&& resp.hut_defenders is None
                                &&& resp.companion is None
                                &&& resp.bullet_hits is None
                                &&& resp.revealed_mines is None
                            }
                        }
                }
            },
            ActionType::Idle => {
                &&& post == pre
                &&& r matches Ok(resp)
                &&& resp.frame_number == req.frame_number
                &&& resp.result_type is Nothing
                &&& resp.is_alive == Some(true)
                &&& resp.attacker_health == (match pre.attacker {
                    Some(a) => Some(a.attacker_health),
                    None => None,
                })
                &&& !resp.is_game_over
                &&& resp.total_damage_percentage == damage_percentage_spec(pre)
                &&& resp.message@ == "Idle Response"@
                &&& resp.exploded_mines is None
                &&& resp.defender_damaged is None
                &&& resp.damaged_base_items is None
                &&& !resp.hut_triggered
                &&& resp.hut_defenders is None
                &&& resp.companion is None
                &&& resp.bullet_hits is None
                &&& resp.revealed_mines is None
            },
            ActionType::SelfDestruct => {
                if pre.attacker is None {
                    &&& r == Result::<SocketResponse, EngineError>::Err(
                        EngineError::NoAttackerPlaced,
                    )
                    &&& post == pre
                } else {
                    &&& post.attacker == Some(
                        Attacker { attacker_health: 0u32, ..pre.attacker.unwrap() },
                    )
                    &&& post.attacker_death_count == pre.attacker_death_count + 1
                    &&& post.defenders@ == targets_cleared(pre.defenders@)
                    &&& post =~= (State {
                        attacker: post.attacker,
                        attacker_death_count: post.attacker_death_count,
                        defenders: post.defenders,
                        ..pre
                    })
                    &&& r matches Ok(resp)
                    &&& resp.frame_number == req.frame_number
                    &&& resp.result_type is Nothing
                    &&& resp.is_alive == Some(false)
                    &&& resp.attacker_health == Some(0u32)
                    &&& !resp.is_game_over
                    &&& resp.total_damage_percentage == damage_percentage_spec(post)
                    &&& resp.message@ == "Self Destructed"@
                    &&& resp.exploded_mines is None
                    &&& resp.defender_damaged matches Some(dd)
                    &&& resp.defender_damaged.unwrap()@.len() == 0
                    &&& resp.damaged_base_items matches Some(dmg)
                    &&& resp.damaged_base_items.unwrap().buildings_damaged@.len() == 0
                    &&& resp.damaged_base_items.unwrap().defenders_damaged@.len() == 0
                    &&& !resp.hut_triggered
                    &&& resp.hut_defenders is None
                    &&& resp.companion is None
                    &&& resp.bullet_hits is None
                    &&& resp.revealed_mines is None
                }
            },
            ActionType::Terminate => {
                &&& post == pre
                &&& r matches Ok(resp)
                &&& terminate_resp(
                    resp,
                    req.frame_number,
                    "Game over"@,
                    damage_percentage_spec(pre),
                )
            },
        }
    }
}

/// One engine step: consumes one decoded action, advances the session by
/// exactly one tick, and produces the tick's outbound event. An invalidated
/// session accepts no further ticks. Internal faults — a request missing a
/// field its action needs, an unknown catalog id, an action needing an
/// attacker or companion that was never placed, or a hole in the hydrated
/// snapshot or route oracle — surface as errors and the driver terminates
/// the session.
pub fn game_handler(
    attacker_type: &Vec<AttackerType>,
    socket_request: &SocketRequest,
    game_state: &mut State,
    shortest_path: &RouteOracle,
    roads: &Roads,
    bomb_types: &Vec<BombType>,
    now_ms: u64,
) -> (r: Result<SocketResponse, EngineError>)
    requires
        old(game_state).wf(),
        old(game_state).frame_no < u32::MAX,
        old(game_state).attacker_death_count < u32::MAX - 1,
        roads.wf(),
        shortest_path.wf(),
    ensures
        final(game_state).wf(),
        handler_rel(
            *old(game_state),
            *final(game_state),
            *socket_request,
            attacker_type@,
            bomb_types@,
            *roads,
            *shortest_path,
            now_ms,
            r,
        ),
{
    if game_state.in_validation.is_invalidated {
        let message = match &game_state.in_validation.reason {
            Some(why) => why.message(),
            None => String::from_str("Game over"),
        };
        let pct = game_state.damage_percentage();
        return Ok(send_terminate_game_message(socket_request.frame_number, message, pct));
    }

    match socket_request.action_type {
        ActionType::PlaceAttacker => {
            if socket_request.attacker_id.is_none() || socket_request.current_position.is_none() {
                return Err(EngineError::MalformedRequest);
            }
            let attacker_id = *socket_request.attacker_id.as_ref().unwrap();
            let pos = *socket_request.current_position.as_ref().unwrap();
            let t = match find_attacker_type(attacker_type, attacker_id) {
                Some(t) => t,
                None => {
                    return Err(EngineError::UnknownAttackerType);
                },
            };
            let bt: Option<BombType> = match &socket_request.bomb_id {
                Some(bid) => match find_bomb_type(bomb_types, *bid) {
                    Some(bt) => Some(bt),
                    None => {
                        return Err(EngineError::UnknownBombType);
                    },
                },
                None => None,
            };
            game_state.update_frame_number(socket_request.frame_number);
            game_state.place_attacker(
                Attacker {
                    id: t.id,
                    attacker_pos: pos,
                    attacker_health: t.max_health,
                    attacker_speed: t.speed,
                    bomb_count: t.amt_of_emps,
                    trigger_defender: false,
                },
                now_ms,
            );
            if let Some(bt) = bt {
                game_state.set_bombs(bt, t.amt_of_emps);
            }
            let pct = game_state.damage_percentage();
            Ok(
                SocketResponse {
                    frame_number: socket_request.frame_number,
                    result_type: ResultType::PlacedAttacker,
                    is_alive: Some(true),
                    attacker_health: Some(t.max_health),
                    exploded_mines: None,
                    defender_damaged: None,
                    damaged_base_items: None,
                    hut_triggered: false,
                    hut_defenders: None,
                    total_damage_percentage: pct,
                    is_game_over: false,
                    message: String::from_str("Place Attacker, set attacker and bomb response"),
                    companion: None,
                    bullet_hits: None,
                    revealed_mines: None,
                },
            )
        },
        ActionType::PlaceCompanion => {
            if socket_request.attacker_id.is_none() || socket_request.current_position.is_none() {
                return Err(EngineError::MalformedRequest);
            }
            let attacker_id = *socket_request.attacker_id.as_ref().unwrap();
            let pos = *socket_request.current_position.as_ref().unwrap();
            let t = match find_attacker_type(attacker_type, attacker_id) {
                Some(t) => t,
                None => {
                    return Err(EngineError::UnknownAttackerType);
                },
            };
            let bt: Option<BombType> = match &socket_request.bomb_id {
                Some(bid) => match find_bomb_type(bomb_types, *bid) {
                    Some(bt) => Some(bt),
                    None => {
                        return Err(EngineError::UnknownBombType);
                    },
                },
                None => None,
            };
            game_state.update_frame_number(socket_request.frame_number);
            game_state.place_companion(
                Companion {
                    id: t.id,
                    companion_pos: pos,
                    companion_health: t.max_health,
                    companion_speed: t.speed,
                    bomb_count: t.amt_of_emps,
                    range: COMPANION_BOT_RANGE,
                    current_target: None,
                    target_id: None,
                    target_tile: None,
                    reached_dest: false,
                    last_attack_tick: 0,
                    attack_interval: COMPANION_ATTACK_INTERVAL,
                    damage: COMPANION_DAMAGE,
                    trigger_defender: false,
                },
            );
            if let Some(bt) = bt {
                game_state.set_companion_bombs(bt, t.amt_of_emps);
            }
            let pct = game_state.damage_percentage();
            Ok(
                SocketResponse {
                    frame_number: socket_request.frame_number,
                    result_type: ResultType::PlacedCompanion,
                    is_alive: Some(true),
                    attacker_health: None,
                    exploded_mines: None,
                    defender_damaged: None,
                    damaged_base_items: None,
                    hut_triggered: false,
                    hut_defenders: None,
                    total_damage_percentage: pct,
                    is_game_over: false,
                    message: String::from_str("Placed companion"),
                    companion: None,
                    bullet_hits: None,
                    revealed_mines: None,
                },
            )
        },
        ActionType::MoveAttacker => {
            if socket_request.attacker_id.is_none() || socket_request.current_position.is_none() {
                return Err(EngineError::MalformedRequest);
            }
            if game_state.attacker.is_none() {
                return Err(EngineError::NoAttackerPlaced);
            }
            let new_pos = *socket_request.current_position.as_ref().unwrap();
            let ghost pre = *game_state;

            game_state.attacker_movement(socket_request.frame_number, roads, new_pos, now_ms);
            let ghost s1 = *game_state;

            if game_state.in_validation.is_invalidated {
                let message = match &game_state.in_validation.reason {
                    Some(why) => why.message(),
                    None => String::from_str("Game over"),
                };
                let pct = game_state.damage_percentage();
                return Ok(
                    send_terminate_game_message(socket_request.frame_number, message, pct),
                );
            }

            proof {
                assert(movement_violation(pre, socket_request.frame_number, roads.has(new_pos), new_pos)
                    is None);
            }

            let pursuit = match game_state.defender_movement_one_tick(new_pos, shortest_path) {
                Ok(p) => p,
                Err(e) => {
                    proof {
                        assert(movement_stage(
                            pre,
                            s1,
                            socket_request.frame_number,
                            *roads,
                            new_pos,
                            now_ms,
                        ));
                        assert(!routes_ok(s1.defenders@, *shortest_path, new_pos));
                    }
                    return Err(e);
                },
            };
            let ghost s2 = *game_state;

            let spawned = match game_state.spawn_hut_defender(roads, new_pos, now_ms) {
                Ok(s) => s,
                Err(e) => {
                    proof {
                        assert(movement_stage(
                            pre,
                            s1,
                            socket_request.frame_number,
                            *roads,
                            new_pos,
                            now_ms,
                        ));
                        assert(routes_ok(s1.defenders@, *shortest_path, new_pos));
                        assert(pursuit_rel(s1, s2, *shortest_path, new_pos));
                        assert(!huts_ok(s2.hut@, s2.buildings@));
                    }
                    return Err(e);
                },
            };
            let ghost s3 = *game_state;

            let shot = game_state.shoot_bullets(now_ms);
            let ghost s4 = *game_state;

            game_state.cause_bullet_damage(now_ms);
            let ghost s5 = *game_state;

            let companion_res: Option<CompanionResult>;
            if game_state.companion.is_some() {
                match game_state.move_companion(roads, shortest_path) {
                    Ok(cr) => {
                        companion_res = Some(cr);
                    },
                    Err(e) => {
                        proof {
                            assert(movement_stage(
                                pre,
                                s1,
                                socket_request.frame_number,
                                *roads,
                                new_pos,
                                now_ms,
                            ));
                            assert(routes_ok(s1.defenders@, *shortest_path, new_pos));
                            assert(pursuit_rel(s1, s2, *shortest_path, new_pos));
                            assert(huts_ok(s2.hut@, s2.buildings@));
                            assert(spawn_stage(
                                s2,
                                s3,
                                *roads,
                                new_pos,
                                now_ms,
                                hut_spawns(s2.hut@, s2.buildings@, *roads, new_pos, now_ms),
                            ));
                            assert(shoot_stage(s3, s4, now_ms, bullets_shot(s3.sentries@, now_ms)));
                            assert(resolve_stage(s4, s5, now_ms));
                            assert(*game_state == s5);
                            assert(companion_route_missing(s5, *shortest_path));
                        }
                        return Err(e);
                    },
                }
            } else {
                companion_res = None;
            }

            let mut buildings_damaged: Vec<crate::types::BuildingDamageResponse> = Vec::new();
            let mut defenders_damaged: Vec<crate::types::DefenderDamageResponse> = Vec::new();
            if let Some(cr) = &companion_res {
                if let Some(b) = &cr.building_damaged {
                    buildings_damaged.push(*b);
                }
                if let Some(d) = &cr.defender_damaged {
                    defenders_damaged.push(*d);
                }
            }

            let hut_triggered = spawned.len() > 0;
            let result_type = if hut_triggered {
                ResultType::SpawnHutDefender
            } else if pursuit.defender_response.len() > 0 {
                ResultType::DefendersDamaged
            } else if buildings_damaged.len() > 0 || defenders_damaged.len() > 0 {
                ResultType::BuildingsDamaged
            } else {
                ResultType::Nothing
            };

            let health = game_state.attacker.as_ref().unwrap().attacker_health;
            let pct = game_state.damage_percentage();
            let resp = SocketResponse {
                frame_number: socket_request.frame_number,
                result_type,
                is_alive: Some(health > 0),
                attacker_health: Some(health),
                exploded_mines: None,
                defender_damaged: Some(pursuit.defender_response),
                damaged_base_items: Some(
                    BaseItemsDamageResponse { buildings_damaged, defenders_damaged },
                ),
                hut_triggered,
                hut_defenders: Some(spawned),
                total_damage_percentage: pct,
                is_game_over: false,
                message: String::from_str("Movement Response"),
                companion: companion_res,
                bullet_hits: Some(shot),
                revealed_mines: None,
            };
            proof {
                assert(movement_stage(pre, s1, socket_request.frame_number, *roads, new_pos, now_ms));
                assert(pursuit_rel(s1, s2, *shortest_path, new_pos));
                assert(spawn_stage(s2, s3, *roads, new_pos, now_ms, resp.hut_defenders.unwrap()@));
                assert(shoot_stage(s3, s4, now_ms, resp.bullet_hits.unwrap()@));
                assert(resolve_stage(s4, s5, now_ms));
                assert(companion_part(s5, *game_state, *roads, *shortest_path, resp));
            }
            Ok(resp)
        },
        ActionType::IsMine => {
            if socket_request.current_position.is_none() {
                return Err(EngineError::MalformedRequest);
            }
            if game_state.attacker.is_none() {
                return Err(EngineError::NoAttackerPlaced);
            }
            let pos = *socket_request.current_position.as_ref().unwrap();
            let exploded = game_state.mine_blast(pos);
            let result_type = if exploded.len() > 0 {
                ResultType::MinesExploded
            } else {
                ResultType::Nothing
            };
            let health = game_state.attacker.as_ref().unwrap().attacker_health;
            let pct = game_state.damage_percentage();
            Ok(
                SocketResponse {
                    frame_number: socket_request.frame_number,
                    result_type,
                    is_alive: Some(health > 0),
                    attacker_health: Some(health),
                    exploded_mines: Some(exploded),
                    defender_damaged: None,
                    damaged_base_items: None,
                    hut_triggered: false,
                    hut_defenders: None,
                    total_damage_percentage: pct,
                    is_game_over: false,
                    message: String::from_str("Is Mine Response"),
                    companion: None,
                    bullet_hits: None,
                    revealed_mines: None,
                },
            )
        },
        ActionType::PlaceBombs => {
            if socket_request.current_position.is_none() || socket_request.bomb_position.is_none()
             {
                return Err(EngineError::MalformedRequest);
            }
            if game_state.attacker.is_none() {
                return Err(EngineError::NoAttackerPlaced);
            }
            let current_pos = *socket_request.current_position.as_ref().unwrap();
            let bomb_pos = *socket_request.bomb_position.as_ref().unwrap();
            let base_items = game_state.place_bombs(current_pos, bomb_pos);

            if game_state.in_validation.is_invalidated {
                let message = match &game_state.in_validation.reason {
                    Some(why) => why.message(),
                    None => String::from_str("Game over"),
                };
                let pct = game_state.damage_percentage();
                proof {
                    assert(place_bombs_rel(
                        *old(game_state),
                        *game_state,
                        current_pos,
                        bomb_pos,
                        base_items.buildings_damaged@,
                        base_items.defenders_damaged@,
                    ));
                }
                return Ok(
                    send_terminate_game_message(socket_request.frame_number, message, pct),
                );
            }

            let result_type = if base_items.buildings_damaged.len() > 0
                || base_items.defenders_damaged.len() > 0 {
                ResultType::BuildingsDamaged
            } else {
                ResultType::Nothing
            };
            let health = game_state.attacker.as_ref().unwrap().attacker_health;
            let pct = game_state.damage_percentage();
            proof {
                assert(place_bombs_rel(
                    *old(game_state),
                    *game_state,
                    current_pos,
                    bomb_pos,
                    base_items.buildings_damaged@,
                    base_items.defenders_damaged@,
                ));
            }
            Ok(
                SocketResponse {
                    frame_number: socket_request.frame_number,
                    result_type,
                    is_alive: Some(true),
                    attacker_health: Some(health),
                    exploded_mines: None,
                    defender_damaged: None,
                    damaged_base_items: Some(base_items),
                    hut_triggered: false,
                    hut_defenders: None,
                    total_damage_percentage: pct,
                    is_game_over: false,
                    message: String::from_str("Place Bomb Response"),
                    companion: None,
                    bullet_hits: None,
                    revealed_mines: None,
                },
            )
        },
        ActionType::Idle => {
            let attacker_health = match &game_state.attacker {
                Some(a) => Some(a.attacker_health),
                None => None,
            };
            let pct = game_state.damage_percentage();
            Ok(
                SocketResponse {
                    frame_number: socket_request.frame_number,
                    result_type: ResultType::Nothing,
                    is_alive: Some(true),
                    attacker_health,
                    exploded_mines: None,
                    defender_damaged: None,
                    damaged_base_items: None,
                    hut_triggered: false,
                    hut_defenders: None,
                    total_damage_percentage: pct,
                    is_game_over: false,
                    message: String::from_str("Idle Response"),
                    companion: None,
                    bullet_hits: None,
                    revealed_mines: None,
                },
            )
        },
        ActionType::SelfDestruct => {
            if game_state.attacker.is_none() {
                return Err(EngineError::NoAttackerPlaced);
            }
            game_state.self_destruct();
            let pct = game_state.damage_percentage();
            Ok(
                SocketResponse {
                    frame_number: socket_request.frame_number,
                    result_type: ResultType::Nothing,
                    is_alive: Some(false),
                    attacker_health: Some(0),
                    exploded_mines: None,
                    defender_damaged: Some(Vec::new()),
                    damaged_base_items: Some(
                        BaseItemsDamageResponse {
                            buildings_damaged: Vec::new(),
                            defenders_damaged: Vec::new(),
                        },
                    ),
                    hut_triggered: false,
                    hut_defenders: None,
                    total_damage_percentage: pct,
                    is_game_over: false,
                    message: String::from_str("Self Destructed"),
                    companion: None,
                    bullet_hits: None,
                    revealed_mines: None,
                },
            )
        },
        ActionType::Terminate => {
            let pct = game_state.damage_percentage();
            Ok(
                send_terminate_game_message(
                    socket_request.frame_number,
                    String::from_str("Game over"),
                    pct,
                ),
            )
        },
    }
}

} // verus!
