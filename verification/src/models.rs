//! Plain record types of the hydration snapshot and the teardown reports:
//! the shapes in which entity data reaches a session at start and in which
//! per-player results leave it at the end. The engine itself only ever sees
//! the decoded values; the surrounding services own their storage.

use vstd::prelude::*;

verus! {

/// A row of the attack type catalog.
#[derive(Clone, PartialEq, Eq, Debug)]
pub struct AttackType {
    pub id: i32,
    pub att_type: String,
    pub attack_radius: i32,
    pub attack_damage: i32,
}

/// One recorded step of an attacker's path in a finished game.
#[derive(Clone, Copy, PartialEq, Eq, Structural, Debug)]
pub struct AttackerPath {
    pub id: i32,
    pub y_coord: i32,
    pub x_coord: i32,
    pub is_emp: bool,
    pub game_id: i32,
    pub emp_type: Option<i32>,
    pub emp_time: Option<i32>,
}

/// A block type: footprint and entrance of one placeable block.
#[derive(Clone, PartialEq, Eq, Debug)]
pub struct BlockType {
    pub id: i32,
    pub name: String,
    pub width: i32,
    pub height: i32,
    pub entrance_x: i32,
    pub entrance_y: i32,
}

/// Time-keyed weight of one building, used by layout scoring.
#[derive(Clone, Copy, PartialEq, Eq, Structural, Debug)]
pub struct BuildingWeights {
    pub time: i32,
    pub building_id: i32,
    pub weight: i32,
}

/// One recorded game between an attacker and a defender.
#[derive(Clone, Copy, PartialEq, Eq, Structural, Debug)]
pub struct Game {
    pub id: i32,
    pub attack_id: i32,
    pub defend_id: i32,
    pub map_layout_id: i32,
    pub attack_score: i32,
    pub defend_score: i32,
}

/// How many buildings of one block a layout level admits.
#[derive(Clone, Copy, PartialEq, Eq, Structural, Debug)]
pub struct LevelConstraints {
    pub level_id: i32,
    pub block_id: i32,
    pub no_of_buildings: i32,
}

/// One player's base layout.
#[derive(Clone, Copy, PartialEq, Eq, Structural, Debug)]
pub struct MapLayout {
    pub id: i32,
    pub player: i32,
    pub level_id: i32,
}

/// One placed block of a base layout.
#[derive(Clone, Copy, PartialEq, Eq, Structural, Debug)]
pub struct MapSpaces {
    pub id: i32,
    pub map_id: i32,
    pub blk_type: i32,
    pub x_coordinate: i32,
    pub y_coordinate: i32,
    pub rotation: i32,
}

/// A layout edit: a block placed at a position with a rotation.
#[derive(Clone, Copy, PartialEq, Eq, Structural, Debug)]
pub struct MapSpacesEntry {
    pub blk_type: i32,
    pub x_coordinate: i32,
    pub y_coordinate: i32,
    pub rotation: i32,
}

/// One stored shortest route between two tiles of a base layout.
#[derive(Clone, PartialEq, Eq, Debug)]
pub struct ShortestPath {
    pub base_id: i32,
    pub source_x: i32,
    pub source_y: i32,
    pub dest_x: i32,
    pub dest_y: i32,
    pub pathlist: String,
}

/// A player account.
#[derive(Clone, PartialEq, Eq, Debug)]
pub struct User {
    pub id: i32,
    pub name: String,
    pub email: String,
    pub phone: String,
    pub username: String,
    pub overall_rating: i32,
    pub is_pragyan: bool,
    pub password: String,
    pub is_verified: bool,
}

/// A requested artifact move between two buildings of one base.
#[derive(Clone, Copy, PartialEq, Eq, Structural, Debug)]
pub struct TransferArtifactEntry {
    pub source_building_id: i32,
    pub dest_building_id: i32,
    pub amount: i32,
}

/// Outcome of one artifact transfer.
#[derive(Clone, Copy, PartialEq, Eq, Structural, Debug)]
pub struct TransferArtifactResponse {
    pub source_building_id: i32,
    pub dest_building_id: i32,
    pub amount: i32,
    pub success: bool,
}

/// A batch of artifact transfers submitted together.
#[derive(Clone, PartialEq, Eq, Debug)]
pub struct BatchTransferArtifacts {
    pub transfers: Vec<TransferArtifactEntry>,
}

} // verus!
