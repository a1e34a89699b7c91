//! Combat resolution engine for a two-sided, tile-based base-defense game.
//!
//! One engine instance drives one live attack session. The session driver
//! decodes client actions, hands them to [`engine::game_handler`] one at a
//! time, and forwards the typed outcome event to the client. The engine owns
//! every combat entity (attacker, companion, defenders, sentries, spawn huts,
//! mines, buildings) and advances exactly one discrete tick per accepted
//! action. It performs no I/O of its own: entity data is hydrated once at
//! session start, the route oracle and road set are injected read-only
//! capabilities, and wall-clock time enters as a plain millisecond value.

pub mod blast;
pub mod catalog;
pub mod combat;
pub mod companion;
pub mod engine;
pub mod laws;
pub mod models;
pub mod routes;
pub mod spawn;
pub mod state;
pub mod tally;
pub mod types;
