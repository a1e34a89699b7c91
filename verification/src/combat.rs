//! Sentry ranged combat and defender pursuit: time-based bullet fire and
//! resolution, and the one-tile-per-tick chase toward the attacker.

use vstd::prelude::*;

use crate::catalog::{bullet_damage, bullet_damage_spec, BULLET_COLLISION_TIME};
use crate::routes::RouteOracle;
use crate::state::{targets_cleared, State};
use crate::types::{
    Attacker, BulletSpawnResponse, Coords, DefenderDetails, DefenderResponse, DefenderReturnType,
    EngineError, Sentry,
};

verus! {

/// Once a pending total reaches this cap it already exceeds any possible
/// health value, so higher precision does not change the clamped outcome.
pub const DAMAGE_CAP: u64 = 0x1_0000_0000;

/// Adds a damage term, freezing once the cap is passed; the clamped result
/// against any 32-bit health is unchanged.
pub open spec fn capped_add(total: u64, d: u32) -> u64 {
    if total >= DAMAGE_CAP {
        total
    } else {
        (total + d) as u64
    }
}

/// Whether `total` is an exact or cap-exceeding account of `sum`: they agree
/// on every comparison against a 32-bit health value.
pub open spec fn accounts_for(total: u64, sum: int) -> bool {
    total == sum || (total >= DAMAGE_CAP && sum >= DAMAGE_CAP)
}

/// Whether an active sentry's fire clock has run out at `now_ms`.
pub open spec fn sentry_fires(s: Sentry, now_ms: u64) -> bool {
    &&& s.is_sentry_activated
    &&& s.current_bullet_shot_id < u32::MAX
    &&& now_ms >= s.current_bullet_shot_time
    &&& now_ms - s.current_bullet_shot_time >= 1000 as int / s.building_data.frequency as int
}

/// The bullet a firing sentry spawns at `now_ms`: level-keyed fixed damage
/// and the spawn timestamp.
pub open spec fn new_bullet(s: Sentry, now_ms: u64) -> BulletSpawnResponse {
    BulletSpawnResponse {
        bullet_id: (s.current_bullet_shot_id + 1) as u32,
        sentry_id: s.id,
        shot_time: now_ms,
        damage: bullet_damage_spec(s.building_data.level),
        has_collided: false,
    }
}

/// One sentry after the fire pass.
pub open spec fn sentry_after_shoot(s: Sentry, now_ms: u64) -> Sentry {
    if sentry_fires(s, now_ms) {
        Sentry {
            current_bullet_shot_id: (s.current_bullet_shot_id + 1) as u32,
            current_bullet_shot_time: now_ms,
            ..s
        }
    } else {
        s
    }
}

/// The bullets spawned by one fire pass, in sentry order.
pub open spec fn bullets_shot(ss: Seq<Sentry>, now_ms: u64) -> Seq<BulletSpawnResponse>
    decreases ss.len(),
{
    if ss.len() == 0 {
        Seq::empty()
    } else {
        let rest = bullets_shot(ss.drop_last(), now_ms);
        if sentry_fires(ss.last(), now_ms) {
            rest.push(new_bullet(ss.last(), now_ms))
        } else {
            rest
        }
    }
}

/// Whether an unresolved bullet's age has reached the fixed collision delay.
pub open spec fn bullet_due(b: BulletSpawnResponse, now_ms: u64) -> bool {
    !b.has_collided && now_ms >= b.shot_time + BULLET_COLLISION_TIME
}

/// All bullets marked resolved, with no damage: the pass used when the
/// attacker is already dead.
pub open spec fn bullets_all_resolved(bs: Seq<BulletSpawnResponse>) -> Seq<BulletSpawnResponse> {
    bs.map_values(|b: BulletSpawnResponse| BulletSpawnResponse { has_collided: true, ..b })
}

/// Bullets after one resolution pass: every due bullet is resolved, exactly
/// once, and resolved bullets stay resolved.
pub open spec fn bullets_resolved(bs: Seq<BulletSpawnResponse>, now_ms: u64) -> Seq<
    BulletSpawnResponse,
> {
    bs.map_values(
        |b: BulletSpawnResponse|
            if bullet_due(b, now_ms) {
                BulletSpawnResponse { has_collided: true, ..b }
            } else {
                b
            },
    )
}

/// Total damage of the bullets due at `now_ms`.
pub open spec fn bullets_damage(bs: Seq<BulletSpawnResponse>, now_ms: u64) -> int
    decreases bs.len(),
{
    if bs.len() == 0 {
        0
    } else {
        bullets_damage(bs.drop_last(), now_ms) + if bullet_due(bs.last(), now_ms) {
            bs.last().damage as int
        } else {
            0
        }
    }
}

/// How the fire half of the sentry pass relates the state before and after,
/// and which bullets it spawned.
pub open spec fn shoot_stage(
    pre: State,
    post: State,
    now_ms: u64,
    shot: Seq<BulletSpawnResponse>,
) -> bool {
    &&& post.sentries@ == pre.sentries@.map_values(|s: Sentry| sentry_after_shoot(s, now_ms))
    &&& post.bullets@ == pre.bullets@ + bullets_shot(pre.sentries@, now_ms)
    &&& shot == bullets_shot(pre.sentries@, now_ms)
    &&& post =~= (State { sentries: post.sentries, bullets: post.bullets, ..pre })
}

impl State {
    /// The fire half of the sentry pass: every activated sentry whose fire
    /// clock has run out spawns one bullet with level-keyed damage, appended
    /// to the session's bullet ledger and returned.
    #[verifier::loop_isolation(false)]
    pub fn shoot_bullets(&mut self, now_ms: u64) -> (r: Vec<BulletSpawnResponse>)
        requires
            old(self).wf(),
        ensures
            final(self).wf(),
            shoot_stage(*old(self), *final(self), now_ms, r@),
    {
        let mut shot: Vec<BulletSpawnResponse> = Vec::new();
        let n = self.sentries.len();
        let mut i: usize = 0;
        while i < n
            invariant
                0 <= i <= n,
                self.sentries@.len() == n,
                forall|k: int|
                    0 <= k < i ==> self.sentries@[k] == sentry_after_shoot(
                        #[trigger] old(self).sentries@[k],
                        now_ms,
                    ),
                forall|k: int|
                    i <= k < n ==> #[trigger] self.sentries@[k] == old(self).sentries@[k],
                shot@ == bullets_shot(old(self).sentries@.take(i as int), now_ms),
                self.bullets@ == old(self).bullets@ + bullets_shot(
                    old(self).sentries@.take(i as int),
                    now_ms,
                ),
                *self =~= (State { sentries: self.sentries, bullets: self.bullets, ..*old(self) }),
            decreases n - i,
        {
            let s = self.sentries[i];
            proof {
                assert(old(self).sentries@.take(i + 1).drop_last() =~= old(self).sentries@.take(
                    i as int,
                ));
                assert(old(self).sentries@.take(i + 1).last() == old(self).sentries@[i as int]);
                assert(s.building_data.frequency >= 1);
            }
            let interval = 1000u64 / (s.building_data.frequency as u64);
            if s.is_sentry_activated && s.current_bullet_shot_id < u32::MAX && now_ms
                >= s.current_bullet_shot_time && now_ms - s.current_bullet_shot_time >= interval {
                let b = BulletSpawnResponse {
                    bullet_id: s.current_bullet_shot_id + 1,
                    sentry_id: s.id,
                    shot_time: now_ms,
                    damage: bullet_damage(s.building_data.level),
                    has_collided: false,
                };
                self.sentries[i] = Sentry {
                    current_bullet_shot_id: s.current_bullet_shot_id + 1,
                    current_bullet_shot_time: now_ms,
                    ..s
                };
                shot.push(b);
                self.bullets.push(b);
            }
            i = i + 1;
        }
        proof {
            assert(old(self).sentries@.take(n as int) =~= old(self).sentries@);
            assert(self.sentries@ =~= old(self).sentries@.map_values(
                |s: Sentry| sentry_after_shoot(s, now_ms),
            ));
        }
        shot
    }

    /// The resolution half of the sentry pass. A dead attacker absorbs
    /// nothing: every outstanding bullet is marked resolved. Otherwise each
    /// unresolved bullet whose age has reached the fixed collision delay
    /// resolves now, its damage lands (floored at zero health), and reaching
    /// zero performs death bookkeeping once.
    #[verifier::loop_isolation(false)]
    pub fn cause_bullet_damage(&mut self, now_ms: u64)
        requires
            old(self).wf(),
            old(self).attacker is Some,
            old(self).attacker_death_count < u32::MAX,
        ensures
            final(self).wf(),
            resolve_stage(*old(self), *final(self), now_ms),
    {
        let a = *self.attacker.as_ref().unwrap();
        let n = self.bullets.len();
        if a.attacker_health == 0 {
            let mut i: usize = 0;
            while i < n
                invariant
                    0 <= i <= n,
                    self.bullets@.len() == n,
                    forall|k: int|
                        0 <= k < i ==> self.bullets@[k] == (BulletSpawnResponse {
                            has_collided: true,
                            ..#[trigger] old(self).bullets@[k]
                        }),
                    forall|k: int|
                        i <= k < n ==> #[trigger] self.bullets@[k] == old(self).bullets@[k],
                    *self =~= (State { bullets: self.bullets, ..*old(self) }),
                decreases n - i,
            {
                let b = self.bullets[i];
                self.bullets[i] = BulletSpawnResponse { has_collided: true, ..b };
                i = i + 1;
            }
            proof {
                assert(self.bullets@ =~= bullets_all_resolved(old(self).bullets@));
            }
            return ;
        }

        let mut total: u64 = 0;
        let mut i: usize = 0;
        while i < n
            invariant
                0 <= i <= n,
                self.bullets@.len() == n,
                forall|k: int|
                    0 <= k < i ==> self.bullets@[k] == (if bullet_due(
                        #[trigger] old(self).bullets@[k],
                        now_ms,
                    ) {
                        BulletSpawnResponse { has_collided: true, ..old(self).bullets@[k] }
                    } else {
                        old(self).bullets@[k]
                    }),
                forall|k: int| i <= k < n ==> #[trigger] self.bullets@[k] == old(self).bullets@[k],
                accounts_for(total, bullets_damage(old(self).bullets@.take(i as int), now_ms)),
                total <= DAMAGE_CAP + 0xffff_ffff,
                *self =~= (State { bullets: self.bullets, ..*old(self) }),
            decreases n - i,
        {
            let b = self.bullets[i];
            proof {
                assert(old(self).bullets@.take(i + 1).drop_last() =~= old(self).bullets@.take(
                    i as int,
                ));
                assert(old(self).bullets@.take(i + 1).last() == old(self).bullets@[i as int]);
            }
            if !b.has_collided && now_ms >= b.shot_time && now_ms - b.shot_time
                >= BULLET_COLLISION_TIME {
                self.bullets[i] = BulletSpawnResponse { has_collided: true, ..b };
                if total < DAMAGE_CAP {
                    total = total + b.damage as u64;
                }
            }
            i = i + 1;
        }
        proof {
            assert(old(self).bullets@.take(n as int) =~= old(self).bullets@);
            assert(self.bullets@ =~= bullets_resolved(old(self).bullets@, now_ms));
        }

        if total >= a.attacker_health as u64 {
            self.attacker = Some(Attacker { attacker_health: 0, ..a });
            self.attacker_death_count = self.attacker_death_count + 1;
            self.clear_all_defender_targets();
        } else {
            self.attacker = Some(Attacker { attacker_health: a.attacker_health - total as u32, ..a });
        }
    }
}

/// How the resolution half of the sentry pass relates the state before and
/// after: a dead attacker only sees every bullet marked resolved; otherwise
/// the due bullets resolve exactly once and their damage lands.
pub open spec fn resolve_stage(pre: State, post: State, now_ms: u64) -> bool {
    if pre.attacker.unwrap().attacker_health == 0 {
        &&& post =~= (State { bullets: post.bullets, ..pre })
        &&& post.bullets@ == bullets_all_resolved(pre.bullets@)
    } else {
        &&& post.bullets@ == bullets_resolved(pre.bullets@, now_ms)
        &&& bullet_hit_rel(pre, post, bullets_damage(pre.bullets@, now_ms))
        &&& post =~= (State {
            bullets: post.bullets,
            attacker: post.attacker,
            attacker_death_count: post.attacker_death_count,
            defenders: post.defenders,
            ..pre
        })
    }
}

/// How a burst of ranged damage relates the attacker, death count and
/// defenders before and after: the damage floors at zero, and crossing to
/// zero counts one death and clears every defender target. The attacker's
/// tile is untouched.
pub open spec fn bullet_hit_rel(pre: State, post: State, damage: int) -> bool {
    let a = pre.attacker.unwrap();
    if damage >= a.attacker_health {
        &&& post.attacker == Some(Attacker { attacker_health: 0u32, ..a })
        &&& post.attacker_death_count == pre.attacker_death_count + 1
        &&& post.defenders@ == targets_cleared(pre.defenders@)
    } else {
        &&& post.attacker == Some(
            Attacker { attacker_health: (a.attacker_health - damage) as u32, ..a },
        )
        &&& post.attacker_death_count == pre.attacker_death_count
        &&& post.defenders@ == pre.defenders@
    }
}

/// Whether a defender is chasing the attacker this tick.
pub open spec fn pursuing(d: DefenderDetails) -> bool {
    d.is_alive && d.target_id is Some
}

/// The tile a defender stands on after its one-tile step: pursuit re-queries
/// the oracle fresh from its current tile to the attacker's latest tile.
/// `None` marks a missing route entry, an unrecoverable upstream fault.
pub open spec fn defender_next(d: DefenderDetails, oracle: RouteOracle, apos: Coords) -> Option<
    Coords,
> {
    if !pursuing(d) {
        Some(d.defender_pos)
    } else if d.defender_pos == apos {
        Some(apos)
    } else {
        match oracle.route_spec(d.defender_pos, apos) {
            Some(p) => Some(p.next_hop),
            None => None,
        }
    }
}

/// Whether the oracle covers every route this pursuit pass needs.
pub open spec fn routes_ok(ds: Seq<DefenderDetails>, oracle: RouteOracle, apos: Coords) -> bool {
    forall|i: int| 0 <= i < ds.len() ==> defender_next(#[trigger] ds[i], oracle, apos) is Some
}

/// One defender after the pursuit step: it advances one tile; on arrival at
/// the attacker's tile it deals its damage, dies, and its target clears.
pub open spec fn defender_after_pursuit(
    d: DefenderDetails,
    oracle: RouteOracle,
    apos: Coords,
) -> DefenderDetails {
    if !pursuing(d) {
        d
    } else {
        let hop = defender_next(d, oracle, apos).unwrap();
        if hop == apos {
            DefenderDetails {
                defender_pos: hop,
                is_alive: false,
                current_health: 0u32,
                target_id: None,
                ..d
            }
        } else {
            DefenderDetails { defender_pos: hop, ..d }
        }
    }
}

/// Whether this defender reaches the attacker this tick.
pub open spec fn defender_arrives(d: DefenderDetails, oracle: RouteOracle, apos: Coords) -> bool {
    pursuing(d) && defender_next(d, oracle, apos) == Some(apos)
}

/// Total damage dealt by the defenders that arrive this tick.
pub open spec fn pursuit_damage(ds: Seq<DefenderDetails>, oracle: RouteOracle, apos: Coords) -> int
    decreases ds.len(),
{
    if ds.len() == 0 {
        0
    } else {
        pursuit_damage(ds.drop_last(), oracle, apos) + if defender_arrives(
            ds.last(),
            oracle,
            apos,
        ) {
            ds.last().damage as int
        } else {
            0
        }
    }
}

/// The tick's defender-damage list: one entry per arriving defender, in
/// defender order.
pub open spec fn pursuit_responses(
    ds: Seq<DefenderDetails>,
    oracle: RouteOracle,
    apos: Coords,
) -> Seq<DefenderResponse>
    decreases ds.len(),
{
    if ds.len() == 0 {
        Seq::empty()
    } else {
        let rest = pursuit_responses(ds.drop_last(), oracle, apos);
        if defender_arrives(ds.last(), oracle, apos) {
            rest.push(
                DefenderResponse {
                    map_space_id: ds.last().map_space_id,
                    position: apos,
                    damage: ds.last().damage,
                },
            )
        } else {
            rest
        }
    }
}

impl State {
    /// One pursuit pass: every alive, targeted defender advances exactly one
    /// tile along the freshest shortest route toward the attacker's tile; a
    /// defender that arrives deals its damage (health floored at zero, death
    /// bookkeeping once on reaching zero) and is destroyed. A missing route
    /// entry aborts the pass untouched: the snapshot is defective.
    #[verifier::loop_isolation(false)]
    pub fn defender_movement_one_tick(
        &mut self,
        attacker_position: Coords,
        shortest_path: &RouteOracle,
    ) -> (r: Result<DefenderReturnType, EngineError>)
        requires
            old(self).wf(),
            old(self).attacker is Some,
            old(self).attacker_death_count < u32::MAX,
        ensures
            final(self).wf(),
            r is Err <==> !routes_ok(old(self).defenders@, *shortest_path, attacker_position),
            r is Err ==> r == Result::<DefenderReturnType, EngineError>::Err(
                EngineError::MissingRoute,
            ) && *final(self) == *old(self),
            r matches Ok(ret) ==> pursuit_stage(
                *old(self),
                *final(self),
                *shortest_path,
                attacker_position,
                ret,
            ),
    {
        let n = self.defenders.len();

        let mut i: usize = 0;
        while i < n
            invariant
                0 <= i <= n,
                forall|k: int|
                    0 <= k < i ==> defender_next(
                        #[trigger] self.defenders@[k],
                        *shortest_path,
                        attacker_position,
                    ) is Some,
            decreases n - i,
        {
            let d = self.defenders[i];
            if d.is_alive && d.target_id.is_some() {
                if !(d.defender_pos.x == attacker_position.x && d.defender_pos.y
                    == attacker_position.y) {
                    if shortest_path.next_hop(d.defender_pos, attacker_position).is_none() {
                        return Err(EngineError::MissingRoute);
                    }
                }
            }
            i = i + 1;
        }

        let mut responses: Vec<DefenderResponse> = Vec::new();
        let mut total: u64 = 0;
        let mut j: usize = 0;
        while j < n
            invariant
                0 <= j <= n,
                self.defenders@.len() == n,
                routes_ok(old(self).defenders@, *shortest_path, attacker_position),
                forall|k: int|
                    0 <= k < j ==> self.defenders@[k] == defender_after_pursuit(
                        #[trigger] old(self).defenders@[k],
                        *shortest_path,
                        attacker_position,
                    ),
                forall|k: int|
                    j <= k < n ==> #[trigger] self.defenders@[k] == old(self).defenders@[k],
                responses@ == pursuit_responses(
                    old(self).defenders@.take(j as int),
                    *shortest_path,
                    attacker_position,
                ),
                accounts_for(
                    total,
                    pursuit_damage(
                        old(self).defenders@.take(j as int),
                        *shortest_path,
                        attacker_position,
                    ),
                ),
                total <= DAMAGE_CAP + 0xffff_ffff,
                *self =~= (State { defenders: self.defenders, ..*old(self) }),
            decreases n - j,
        {
            let d = self.defenders[j];
            proof {
                assert(old(self).defenders@.take(j + 1).drop_last() =~= old(self).defenders@.take(
                    j as int,
                ));
                assert(old(self).defenders@.take(j + 1).last() == old(self).defenders@[j as int]);
            }
            if d.is_alive && d.target_id.is_some() {
                let hop: Coords;
                if d.defender_pos.x == attacker_position.x && d.defender_pos.y
                    == attacker_position.y {
                    hop = attacker_position;
                } else {
                    let p = shortest_path.next_hop(d.defender_pos, attacker_position);
                    proof {
                        assert(defender_next(
                            old(self).defenders@[j as int],
                            *shortest_path,
                            attacker_position,
                        ) is Some);
                    }
                    hop = p.unwrap().next_hop;
                }
                if hop.x == attacker_position.x && hop.y == attacker_position.y {
                    self.defenders[j] = DefenderDetails {
                        defender_pos: hop,
                        is_alive: false,
                        current_health: 0,
                        target_id: None,
                        ..d
                    };
                    responses.push(
                        DefenderResponse {
                            map_space_id: d.map_space_id,
                            position: attacker_position,
                            damage: d.damage,
                        },
                    );
                    if total < DAMAGE_CAP {
                        total = total + d.damage as u64;
                    }
                } else {
                    self.defenders[j] = DefenderDetails { defender_pos: hop, ..d };
                }
            }
            j = j + 1;
        }
        proof {
            assert(old(self).defenders@.take(n as int) =~= old(self).defenders@);
            assert(self.defenders@ =~= defenders_pursued(
                old(self).defenders@,
                *shortest_path,
                attacker_position,
            ));
        }

        let a = *self.attacker.as_ref().unwrap();
        let new_health: u32;
        if total >= a.attacker_health as u64 {
            new_health = 0;
            self.attacker = Some(Attacker { attacker_health: 0, ..a });
            if a.attacker_health > 0 {
                self.attacker_death_count = self.attacker_death_count + 1;
                self.clear_all_defender_targets();
            }
        } else {
            new_health = a.attacker_health - total as u32;
            self.attacker = Some(Attacker { attacker_health: new_health, ..a });
        }
        Ok(DefenderReturnType { attacker_health: new_health, defender_response: responses })
    }
}

/// The whole defender collection after one pursuit pass.
pub open spec fn defenders_pursued(
    ds: Seq<DefenderDetails>,
    oracle: RouteOracle,
    apos: Coords,
) -> Seq<DefenderDetails> {
    ds.map_values(|d: DefenderDetails| defender_after_pursuit(d, oracle, apos))
}

/// How one full pursuit pass relates the state before and after, and what
/// it reports: the stepped collection, the clamped attacker health, and one
/// damage entry per arriving defender.
pub open spec fn pursuit_stage(
    pre: State,
    post: State,
    oracle: RouteOracle,
    apos: Coords,
    ret: DefenderReturnType,
) -> bool {
    &&& pursuit_rel(pre, post, oracle, apos)
    &&& ret.defender_response@ == pursuit_responses(pre.defenders@, oracle, apos)
    &&& ret.attacker_health == post.attacker.unwrap().attacker_health
    &&& post =~= (State {
        defenders: post.defenders,
        attacker: post.attacker,
        attacker_death_count: post.attacker_death_count,
        ..pre
    })
}

/// How one pursuit pass relates the state before and after: every defender
/// steps, arrival damage floors the attacker's health at zero, and a health
/// that crosses to zero counts one death and clears every target of the
/// stepped collection. A dead attacker absorbs nothing further.
pub open spec fn pursuit_rel(pre: State, post: State, oracle: RouteOracle, apos: Coords) -> bool {
    let a = pre.attacker.unwrap();
    let damage = pursuit_damage(pre.defenders@, oracle, apos);
    let stepped = defenders_pursued(pre.defenders@, oracle, apos);
    if a.attacker_health == 0 {
        &&& post.attacker == pre.attacker
        &&& post.attacker_death_count == pre.attacker_death_count
        &&& post.defenders@ == stepped
    } else if damage >= a.attacker_health {
        &&& post.attacker == Some(Attacker { attacker_health: 0u32, ..a })
        &&& post.attacker_death_count == pre.attacker_death_count + 1
        &&& post.defenders@ == targets_cleared(stepped)
    } else {
        &&& post.attacker == Some(
            Attacker { attacker_health: (a.attacker_health - damage) as u32, ..a },
        )
        &&& post.attacker_death_count == pre.attacker_death_count
        &&& post.defenders@ == stepped
    }
}

} // verus!
