//! Session-wide configuration: board size, life budget, bullet damage tiers,
//! level attributes, companion priority weights and the economy fractions.

use vstd::prelude::*;

verus! {

/// Side length of the square base grid, in tiles.
pub const MAP_SIZE: u32 = 40;

/// Attacker life budget for one session.
pub const LIVES: u32 = 3;

/// Flat multiplier applied to every bomb's damage.
pub const BOMB_DAMAGE_MULTIPLIER: u32 = 1;

/// Fraction of a destroyed building's stored artifacts paid out to the
/// attacker, as a ratio of two integers (three tenths).
pub const ARTIFACTS_OBTAINABLE_NUM: u32 = 3;
pub const ARTIFACTS_OBTAINABLE_DEN: u32 = 10;

/// Companion bot engagement range, in tiles.
pub const COMPANION_BOT_RANGE: u32 = 5;

/// Ticks between two companion strikes on a reached target.
pub const COMPANION_ATTACK_INTERVAL: u32 = 10;

/// Damage of one companion strike.
pub const COMPANION_DAMAGE: u32 = 30;

/// Damage of one sentry bullet, by the sentry building's level.
pub const DAMAGE_PER_BULLET_LEVEL_1: u32 = 5;
pub const DAMAGE_PER_BULLET_LEVEL_2: u32 = 7;
pub const DAMAGE_PER_BULLET_LEVEL_3: u32 = 10;

/// Fixed delay in milliseconds after which a sentry bullet resolves.
pub const BULLET_COLLISION_TIME: u64 = 2;

/// Hut attributes of one building level.
#[derive(Clone, Copy, PartialEq, Eq, Structural, Debug)]
pub struct HutLevelAttribute {
    pub defenders_limit: u32,
}

/// All per-level attributes.
#[derive(Clone, Copy, PartialEq, Eq, Structural, Debug)]
pub struct LevelAttributes {
    pub hut: HutLevelAttribute,
}

/// Spawn capacity of a hut whose template defender has the given level.
/// Levels one to three hold three to five defenders; any other level is
/// treated as level one.
pub open spec fn hut_defenders_limit_spec(level: u32) -> u32 {
    if level == 3 {
        5
    } else if level == 2 {
        4
    } else {
        3
    }
}

pub fn hut_defenders_limit(level: u32) -> (r: u32)
    ensures
        r == hut_defenders_limit_spec(level),
{
    if level == 3 {
        5
    } else if level == 2 {
        4
    } else {
        3
    }
}

/// The level attributes of one building level.
pub fn level_attributes(level: u32) -> (r: LevelAttributes)
    ensures
        r.hut.defenders_limit == hut_defenders_limit_spec(level),
{
    LevelAttributes { hut: HutLevelAttribute { defenders_limit: hut_defenders_limit(level) } }
}

/// Priority weights of the companion's target ranker: defenders beat
/// defender-adjacent buildings, which beat plain buildings.
#[derive(Clone, Copy, PartialEq, Eq, Structural, Debug)]
pub struct CompanionPriority {
    pub defenders: u32,
    pub defender_buildings: u32,
    pub buildings: u32,
}

pub fn companion_priority() -> (r: CompanionPriority)
    ensures
        r.defenders == 3,
        r.defender_buildings == 2,
        r.buildings == 1,
{
    CompanionPriority { defenders: 3, defender_buildings: 2, buildings: 1 }
}

/// Damage of one bullet shot by a sentry of the given level.
pub open spec fn bullet_damage_spec(level: u32) -> u32 {
    if level == 3 {
        DAMAGE_PER_BULLET_LEVEL_3
    } else if level == 2 {
        DAMAGE_PER_BULLET_LEVEL_2
    } else {
        DAMAGE_PER_BULLET_LEVEL_1
    }
}

pub fn bullet_damage(level: u32) -> (r: u32)
    ensures
        r == bullet_damage_spec(level),
{
    if level == 3 {
        DAMAGE_PER_BULLET_LEVEL_3
    } else if level == 2 {
        DAMAGE_PER_BULLET_LEVEL_2
    } else {
        DAMAGE_PER_BULLET_LEVEL_1
    }
}

/// Artifact payout for destroying a building that stored `stored` artifacts:
/// the floor of three tenths of the store.
pub open spec fn artifacts_payout_spec(stored: u32) -> int {
    (stored * ARTIFACTS_OBTAINABLE_NUM) as int / ARTIFACTS_OBTAINABLE_DEN as int
}

pub fn artifacts_payout(stored: u32) -> (r: u32)
    ensures
        r == artifacts_payout_spec(stored),
        r <= stored,
{
    let wide: u64 = (stored as u64 * ARTIFACTS_OBTAINABLE_NUM as u64)
        / ARTIFACTS_OBTAINABLE_DEN as u64;
    proof {
        assert(stored * 3 / 10 <= stored) by (nonlinear_arith);
        assert((stored as u64 * 3) / 10 == (stored * ARTIFACTS_OBTAINABLE_NUM) as u64 / 10);
    }
    wide as u32
}

} // verus!
