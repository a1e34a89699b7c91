//! Value types of the combat engine: entities, per-tick sub-results, and the
//! session invalidation record.

use vstd::prelude::*;

verus! {

/// A tile position on the base grid. `(-1, -1)` is the off-board sentinel
/// used for a dead attacker.
#[derive(Clone, Copy, PartialEq, Eq, Structural, Debug)]
pub struct Coords {
    pub x: i32,
    pub y: i32,
}

pub open spec fn abs_diff(a: int, b: int) -> int {
    if a >= b {
        a - b
    } else {
        b - a
    }
}

/// Manhattan distance `|dx| + |dy|`; every activation-radius test uses it.
pub open spec fn manhattan_spec(a: Coords, b: Coords) -> int {
    abs_diff(a.x as int, b.x as int) + abs_diff(a.y as int, b.y as int)
}

/// Manhattan distance, computed in 64 bits so no coordinate pair overflows.
pub fn manhattan(a: Coords, b: Coords) -> (d: i64)
    ensures
        d == manhattan_spec(a, b),
{
    let dx: i64 = if a.x >= b.x {
        a.x as i64 - b.x as i64
    } else {
        b.x as i64 - a.x as i64
    };
    let dy: i64 = if a.y >= b.y {
        a.y as i64 - b.y as i64
    } else {
        b.y as i64 - a.y as i64
    };
    dx + dy
}

/// A bomb as carried by the attacker's loadout.
#[derive(Clone, Copy, PartialEq, Eq, Structural, Debug)]
pub struct Bomb {
    pub id: i32,
    pub blast_radius: u32,
    pub damage: u32,
}

/// A bomb type from the catalog together with the remaining inventory count.
#[derive(Clone, Copy, PartialEq, Eq, Structural, Debug)]
pub struct BombType {
    pub id: i32,
    pub radius: u32,
    pub damage: u32,
    pub total_count: u32,
}

/// An attacker type from the catalog: the template a fresh attacker or
/// companion is bound from on placement.
#[derive(Clone, Copy, PartialEq, Eq, Structural, Debug)]
pub struct AttackerType {
    pub id: i32,
    pub max_health: u32,
    pub speed: u32,
    pub amt_of_emps: u32,
    pub level: u32,
}

/// The attacker unit piloted by the client.
#[derive(Clone, Copy, PartialEq, Eq, Structural, Debug)]
pub struct Attacker {
    pub id: i32,
    pub attacker_pos: Coords,
    pub attacker_health: u32,
    pub attacker_speed: u32,
    pub bomb_count: u32,
    pub trigger_defender: bool,
}

/// What kind of base item a companion is currently committed to.
#[derive(Clone, Copy, PartialEq, Eq, Structural, Debug)]
pub enum CompanionTarget {
    Defender,
    Building,
}

/// The support companion. Its targeting state is the target kind, the
/// target's identity, the tile it walks to, a reached flag, and an attack
/// cooldown measured in ticks.
#[derive(Clone, Copy, PartialEq, Eq, Structural, Debug)]
pub struct Companion {
    pub id: i32,
    pub companion_pos: Coords,
    pub companion_health: u32,
    pub companion_speed: u32,
    pub bomb_count: u32,
    pub range: u32,
    pub current_target: Option<CompanionTarget>,
    pub target_id: Option<i32>,
    pub target_tile: Option<Coords>,
    pub reached_dest: bool,
    pub last_attack_tick: u32,
    pub attack_interval: u32,
    pub damage: u32,
    pub trigger_defender: bool,
}

/// A defender: one tile per tick, latched onto the attacker by a range
/// trigger, cleared on the attacker's death or its own.
#[derive(Clone, Copy, PartialEq, Eq, Structural, Debug)]
pub struct DefenderDetails {
    pub id: i32,
    pub map_space_id: i32,
    pub radius: u32,
    pub speed: u32,
    pub damage: u32,
    pub defender_pos: Coords,
    pub is_alive: bool,
    pub current_health: u32,
    pub level: u32,
    /// `Some(attacker id)` once a range trigger latches this defender onto
    /// the current attacker; `None` while inactive.
    pub target_id: Option<i32>,
}

/// A single-use mine, removed on trigger.
#[derive(Clone, Copy, PartialEq, Eq, Structural, Debug)]
pub struct MineDetails {
    pub id: i32,
    pub position: Coords,
    pub radius: u32,
    pub damage: u32,
}

/// What a building does for the base; drives hut and sentry behaviour.
#[derive(Clone, Copy, PartialEq, Eq, Structural, Debug)]
pub enum BuildingKind {
    Bank,
    DefenderHut,
    Sentry,
    Other,
}

/// A building: square footprint of side `width` at `tile`, hit points, and
/// (for defensive buildings) an activation range, frequency and level.
/// For a sentry the frequency is shots per second; for a hut it is the spawn
/// interval in milliseconds.
#[derive(Clone, Copy, PartialEq, Eq, Structural, Debug)]
pub struct BuildingDetails {
    pub map_space_id: i32,
    pub current_hp: u32,
    pub total_hp: u32,
    pub artifacts_obtained: u32,
    pub tile: Coords,
    pub width: u32,
    pub kind: BuildingKind,
    pub range: u32,
    pub frequency: u32,
    pub block_id: i32,
    pub level: u32,
}

/// Per-hut spawn slot: the template defender it clones, a latched trigger,
/// the remaining spawn capacity, and the last spawn timestamp.
#[derive(Clone, Copy, PartialEq, Eq, Structural, Debug)]
pub struct HutDefenderDetails {
    /// Map-space id of the hut building this slot belongs to.
    pub map_space_id: i32,
    pub hut_defender: DefenderDetails,
    /// Latched: once set it never reverts.
    pub hut_triggered: bool,
    /// Remaining spawn capacity.
    pub hut_defenders_count: u32,
    /// Milliseconds timestamp of the last spawn, `None` before the first.
    pub hut_defender_latest_time: Option<u64>,
}

/// A sentry bound to its backing building. Its in-flight bullets live in the
/// session-wide bullet ledger, tagged with this sentry's id.
#[derive(Clone, Copy, PartialEq, Eq, Structural, Debug)]
pub struct Sentry {
    pub id: i32,
    pub building_data: BuildingDetails,
    pub is_sentry_activated: bool,
    pub sentry_start_time: u64,
    pub current_bullet_shot_id: u32,
    pub current_bullet_shot_time: u64,
}

/// One sentry bullet. Resolution is time-based: the bullet hits the attacker
/// once its age reaches the fixed collision delay, independent of movement.
#[derive(Clone, Copy, PartialEq, Eq, Structural, Debug)]
pub struct BulletSpawnResponse {
    pub bullet_id: u32,
    pub sentry_id: i32,
    pub shot_time: u64,
    pub damage: u32,
    pub has_collided: bool,
}

/// Why a session was invalidated by the anti-cheat checks.
#[derive(Clone, Copy, PartialEq, Eq, Structural, Debug)]
pub enum InvalidationReason {
    /// The inbound frame number was not exactly the previous plus one.
    FrameMismatch,
    /// The attacker's death count reached the configured life budget.
    LivesExhausted,
    /// The declared destination tile is not a road tile.
    OffRoad,
    /// The movement delta was not exactly one orthogonal step.
    TileSkip,
    /// A bomb was placed with an empty bomb inventory.
    NoBombsLeft,
    /// The detonation tile differs from the attacker's declared tile.
    BombOffPosition,
}

/// The session's invalidation flag: reason plus boolean.
#[derive(Clone, Copy, PartialEq, Eq, Structural, Debug)]
pub struct InValidation {
    pub is_invalidated: bool,
    pub reason: Option<InvalidationReason>,
}

impl InValidation {
    /// A fresh, valid session flag.
    pub fn new() -> (r: InValidation)
        ensures
            !r.is_invalidated,
            r.reason is None,
    {
        InValidation { is_invalidated: false, reason: None }
    }
}

/// One defender collision reported in a tick's defender-damage list.
#[derive(Clone, Copy, PartialEq, Eq, Structural, Debug)]
pub struct DefenderResponse {
    pub map_space_id: i32,
    pub position: Coords,
    pub damage: u32,
}

/// One building hit by area damage.
#[derive(Clone, Copy, PartialEq, Eq, Structural, Debug)]
pub struct BuildingDamageResponse {
    pub id: i32,
    pub position: Coords,
    pub hp: u32,
    pub artifacts_if_damaged: u32,
}

/// One defender hit by area damage.
#[derive(Clone, Copy, PartialEq, Eq, Structural, Debug)]
pub struct DefenderDamageResponse {
    pub map_space_id: i32,
    pub position: Coords,
    pub health: u32,
}

/// Buildings and defenders damaged by one blast or companion strike.
#[derive(Clone, PartialEq, Eq, Debug)]
pub struct BaseItemsDamageResponse {
    pub buildings_damaged: Vec<BuildingDamageResponse>,
    pub defenders_damaged: Vec<DefenderDamageResponse>,
}

/// Result of one defender-pursuit pass.
#[derive(Clone, PartialEq, Eq, Debug)]
pub struct DefenderReturnType {
    pub attacker_health: u32,
    pub defender_response: Vec<DefenderResponse>,
}

/// Result of one companion tick.
#[derive(Clone, Copy, PartialEq, Eq, Structural, Debug)]
pub struct CompanionResult {
    pub companion_id: i32,
    pub position: Coords,
    pub is_alive: bool,
    pub building_damaged: Option<BuildingDamageResponse>,
    pub defender_damaged: Option<DefenderDamageResponse>,
}

/// An unrecoverable internal fault: the hydrated snapshot or route oracle is
/// incomplete. The engine fails loudly on these rather than silently
/// defaulting.
#[derive(Clone, Copy, PartialEq, Eq, Structural, Debug)]
pub enum EngineError {
    /// The request lacks a field its action kind needs.
    MalformedRequest,
    /// An action that needs a live attacker arrived before one was placed.
    NoAttackerPlaced,
    /// The attacker type catalog has no entry for the declared id.
    UnknownAttackerType,
    /// The bomb type catalog has no entry for the declared id.
    UnknownBombType,
    /// The route oracle lacks an entry a pursuit or companion step needs.
    MissingRoute,
    /// A hut spawn slot has no backing building in the snapshot.
    MissingHutBuilding,
}

} // verus!
