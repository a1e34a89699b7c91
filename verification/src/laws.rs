//! Session-wide laws, stated over the specification functions the engine's
//! contracts use and proved once and for all: frame sequencing, mine
//! single-use, proportional bomb damage, defender target discipline, bullet
//! resolution discipline, and hut spawn discipline.

use vstd::prelude::*;

use crate::blast::{blast_overlap, building_after_bomb, defender_after_bomb, round_div};
use crate::catalog::BULLET_COLLISION_TIME;
use crate::engine::{handler_rel, reason_text, SocketRequest, SocketResponse};
use crate::combat::{bullet_due, bullets_damage, bullets_resolved, defender_after_pursuit};
use crate::companion::damaged_defender;
use crate::routes::{Roads, RouteOracle};
use crate::spawn::{hut_spawn_result, slot_after_spawn};
use crate::state::{
    building_of, clamp_damage, defender_checked, defender_cleared, mines_at, mines_not_at,
    movement_stage, targets_cleared, State,
};
use crate::types::{
    AttackerType, BombType, BuildingDetails, BulletSpawnResponse, Coords, DefenderDetails,
    EngineError, HutDefenderDetails, InvalidationReason, MineDetails,
};

verus! {

/// The frame counter advances by exactly one per accepted movement tick, and
/// any other inbound delta invalidates the session with a frame-mismatch
/// reason before anything else changes.
pub proof fn law_frame_sequencing(
    pre: State,
    post: State,
    frame_no: u32,
    roads: Roads,
    new_pos: Coords,
    now_ms: u64,
)
    requires
        !pre.in_validation.is_invalidated,
        movement_stage(pre, post, frame_no, roads, new_pos, now_ms),
    ensures
        frame_no != pre.frame_no + 1 ==> post.in_validation.is_invalidated
            && post.in_validation.reason == Some(InvalidationReason::FrameMismatch)
            && post.frame_no == pre.frame_no,
        !post.in_validation.is_invalidated ==> post.frame_no == pre.frame_no + 1,
{
}

/// A mine, once triggered, is removed: a second trigger on the same tile
/// finds no mine there, so no mine ever fires twice.
pub proof fn law_mine_single_use(ms: Seq<MineDetails>, pos: Coords)
    ensures
        mines_at(mines_not_at(ms, pos), pos) =~= Seq::<MineDetails>::empty(),
    decreases ms.len(),
{
    reveal(Seq::filter);
    if ms.len() == 0 {
        assert(mines_not_at(ms, pos) =~= Seq::<MineDetails>::empty());
    } else {
        law_mine_single_use(ms.drop_last(), pos);
        if ms.last().position != pos {
            assert(mines_not_at(ms, pos) == mines_not_at(ms.drop_last(), pos).push(ms.last()));
            assert(mines_not_at(ms, pos).drop_last() =~= mines_not_at(ms.drop_last(), pos));
        } else {
            assert(mines_not_at(ms, pos) == mines_not_at(ms.drop_last(), pos));
        }
    }
}

/// Bomb damage to a building is proportional to footprint overlap — the
/// rounded overlap fraction of the bomb's multiplied damage — and never
/// drives hit points below zero: they are floored exactly.
pub proof fn law_bomb_damage_proportional(
    b: BuildingDetails,
    pos: Coords,
    radius: u32,
    damage: u32,
    mult: u32,
)
    requires
        b.width >= 1,
    ensures
        building_after_bomb(b, pos, radius, damage, mult).current_hp >= 0,
        building_after_bomb(b, pos, radius, damage, mult).current_hp <= b.current_hp,
        b.current_hp > 0 && blast_overlap(b, pos, radius) > 0 ==> building_after_bomb(
            b,
            pos,
            radius,
            damage,
            mult,
        ).current_hp == clamp_damage(
            b.current_hp,
            round_div(blast_overlap(b, pos, radius) * damage * mult, b.width * b.width),
        ),
        b.current_hp == 0 || blast_overlap(b, pos, radius) <= 0 ==> building_after_bomb(
            b,
            pos,
            radius,
            damage,
            mult,
        ) == b,
{
    if b.current_hp > 0 && blast_overlap(b, pos, radius) > 0 {
        assert(blast_overlap(b, pos, radius) * damage * mult >= 0 && b.width * b.width >= 1)
            by (nonlinear_arith)
            requires
                blast_overlap(b, pos, radius) > 0,
                damage >= 0,
                mult >= 0,
                b.width >= 1,
        ;
        vstd::arithmetic::div_mod::lemma_div_pos_is_pos(
            2 * (blast_overlap(b, pos, radius) * damage * mult) + b.width * b.width,
            2 * (b.width * b.width),
        );
    }
}

/// Defender target discipline, half one: a defender's target clears exactly
/// when the attacker dies — the one-shot reset clears every target — and a
/// defender that dies releases its own target.
pub proof fn law_targets_clear_on_death(ds: Seq<DefenderDetails>)
    ensures
        targets_cleared(ds).len() == ds.len(),
        forall|i: int| 0 <= i < ds.len() ==> targets_cleared(ds)[i].target_id is None,
        forall|i: int|
            0 <= i < ds.len() ==> targets_cleared(ds)[i] == defender_cleared(#[trigger] ds[i]),
{
}

/// Defender target discipline, half two: no combat transformer ever latches
/// a target. The range-trigger check of the movement tick is the only
/// transition from untargeted to targeted, and it fires only for an alive,
/// idle defender with the attacker inside its radius.
pub proof fn law_target_acquired_only_by_trigger(
    d: DefenderDetails,
    pos: Coords,
    attacker_id: i32,
    oracle: crate::routes::RouteOracle,
    blast_pos: Coords,
    radius: u32,
    damage: u32,
)
    ensures
        defender_checked(d, pos, attacker_id).target_id != d.target_id ==> {
            &&& d.target_id is None
            &&& d.is_alive
            &&& crate::types::manhattan_spec(d.defender_pos, pos) <= d.radius
            &&& defender_checked(d, pos, attacker_id).target_id == Some(attacker_id)
        },
        defender_after_bomb(d, blast_pos, radius, damage).target_id is Some
            ==> defender_after_bomb(d, blast_pos, radius, damage).target_id == d.target_id,
        defender_after_pursuit(d, oracle, pos).target_id is Some ==> defender_after_pursuit(
            d,
            oracle,
            pos,
        ).target_id == d.target_id,
        damaged_defender(d, damage).target_id is Some ==> damaged_defender(
            d,
            damage,
        ).target_id == d.target_id,
        defender_cleared(d).target_id is None,
{
}

/// A sentry bullet resolves exactly once, always at or after its fixed
/// collision delay: a resolution pass marks exactly the due bullets, a
/// resolved bullet never changes again, and a bullet resolved once
/// contributes no damage to any later pass.
pub proof fn law_bullet_resolves_once(bs: Seq<BulletSpawnResponse>, now1: u64, now2: u64)
    ensures
        bullets_resolved(bs, now1).len() == bs.len(),
        forall|i: int|
            0 <= i < bs.len() ==> (bullets_resolved(bs, now1)[i].has_collided <==> (
            #[trigger] bs[i].has_collided || now1 >= bs[i].shot_time + BULLET_COLLISION_TIME)),
        forall|i: int|
            0 <= i < bs.len() ==> ((#[trigger] bs[i]).has_collided ==> bullets_resolved(
                bs,
                now1,
            )[i] == bs[i]),
        forall|i: int|
            0 <= i < bs.len() ==> (bullet_due(#[trigger] bs[i], now1) ==> !bullet_due(
                bullets_resolved(bs, now1)[i],
                now2,
            )),
{
}

/// The damage of a resolution pass comes only from bullets at or past their
/// collision delay: with no bullet due, no damage lands.
pub proof fn law_bullet_damage_only_when_due(bs: Seq<BulletSpawnResponse>, now_ms: u64)
    ensures
        (forall|i: int| 0 <= i < bs.len() ==> !bullet_due(#[trigger] bs[i], now_ms))
            ==> bullets_damage(bs, now_ms) == 0,
        bullets_damage(bs, now_ms) >= 0,
    decreases bs.len(),
{
    if bs.len() > 0 {
        law_bullet_damage_only_when_due(bs.drop_last(), now_ms);
    }
}

/// A hut never exceeds its configured capacity: a spawn happens only with
/// capacity left and consumes exactly one unit, so the remaining count never
/// goes below zero and the clones released can never outnumber the capacity
/// the slot started with.
pub proof fn law_hut_capacity(
    slot: HutDefenderDetails,
    bs: Seq<BuildingDetails>,
    roads: Roads,
    apos: Coords,
    now_ms: u64,
)
    ensures
        hut_spawn_result(slot, bs, roads, apos, now_ms) is Some ==> slot.hut_defenders_count > 0
            && slot.hut_triggered,
        hut_spawn_result(slot, bs, roads, apos, now_ms) is Some ==> slot_after_spawn(
            slot,
            bs,
            roads,
            apos,
            now_ms,
        ).hut_defenders_count == slot.hut_defenders_count - 1,
        hut_spawn_result(slot, bs, roads, apos, now_ms) is None ==> slot_after_spawn(
            slot,
            bs,
            roads,
            apos,
            now_ms,
        ) == slot,
{
}

/// A hut never fires faster than its configured interval: after a spawn at
/// `now1`, the same slot can spawn again at `now2` only once the backing
/// building's interval has fully elapsed.
pub proof fn law_hut_interval(
    slot: HutDefenderDetails,
    bs: Seq<BuildingDetails>,
    roads: Roads,
    apos1: Coords,
    apos2: Coords,
    now1: u64,
    now2: u64,
)
    requires
        hut_spawn_result(slot, bs, roads, apos1, now1) is Some,
        hut_spawn_result(slot_after_spawn(slot, bs, roads, apos1, now1), bs, roads, apos2, now2)
            is Some,
    ensures
        now2 >= now1 + building_of(bs, slot.map_space_id).unwrap().frequency,
{
}

/// At the dispatcher, a movement tick whose frame number is not exactly the
/// previous plus one is owed the terminal GameOver event: the session is
/// invalidated with the frame-mismatch reason, the event says so, and — the
/// invalidation being latched — no further tick is ever accepted.
pub proof fn law_frame_jump_is_game_over(
    pre: State,
    post: State,
    req: SocketRequest,
    ts: Seq<AttackerType>,
    bts: Seq<BombType>,
    roads: Roads,
    oracle: RouteOracle,
    now_ms: u64,
    r: Result<SocketResponse, EngineError>,
)
    requires
        !pre.in_validation.is_invalidated,
        pre.attacker is Some,
        req.action_type is MoveAttacker,
        req.attacker_id is Some,
        req.current_position is Some,
        req.frame_number != pre.frame_no + 1,
        handler_rel(pre, post, req, ts, bts, roads, oracle, now_ms, r),
    ensures
        r is Ok,
        r matches Ok(resp) ==> {
            &&& resp.result_type is GameOver
            &&& resp.is_game_over
            &&& resp.message@ == reason_text(InvalidationReason::FrameMismatch)
        },
        post.in_validation.is_invalidated,
        post.in_validation.reason == Some(InvalidationReason::FrameMismatch),
        post.frame_no == pre.frame_no,
{
}

} // verus!

