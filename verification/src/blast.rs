//! Bomb placement and blast resolution: axis-aligned square blasts, damage
//! proportional to footprint overlap, artifact payouts, and flat damage to
//! defenders caught in the square.

use vstd::prelude::*;

use crate::catalog::{artifacts_payout, artifacts_payout_spec};
use crate::state::{clamp_damage, State};
use crate::tally::{
    lemma_sums_bounds, lemma_sums_update, sum_artifacts_standing, sum_current_hp, sum_total_hp,
};
use crate::types::{
    abs_diff, Attacker, BaseItemsDamageResponse, BombType, BuildingDamageResponse,
    BuildingDetails, Coords, DefenderDamageResponse, DefenderDetails, InValidation,
    InvalidationReason,
};

verus! {

/// Tiles shared by the inclusive intervals `[a1, a2]` and `[b1, b2]`.
pub open spec fn overlap_1d(a1: int, a2: int, b1: int, b2: int) -> int {
    let lo = if a1 >= b1 {
        a1
    } else {
        b1
    };
    let hi = if a2 <= b2 {
        a2
    } else {
        b2
    };
    if hi >= lo {
        hi - lo + 1
    } else {
        0
    }
}

/// Tiles of the building's footprint covered by a blast square of side
/// `2 * radius + 1` centered on `pos`.
pub open spec fn blast_overlap(b: BuildingDetails, pos: Coords, radius: u32) -> int {
    overlap_1d(
        b.tile.x as int,
        b.tile.x + b.width - 1,
        pos.x - radius,
        pos.x + radius,
    ) * overlap_1d(
        b.tile.y as int,
        b.tile.y + b.width - 1,
        pos.y - radius,
        pos.y + radius,
    )
}

/// `n / d` rounded half away from zero, for non-negative operands.
pub open spec fn round_div(n: int, d: int) -> int {
    (2 * n + d) / (2 * d)
}

/// The rounded damage a bomb deals to one building: the overlap fraction of
/// the footprint times the bomb's damage times the session multiplier.
pub open spec fn bomb_damage_to_building(
    b: BuildingDetails,
    pos: Coords,
    radius: u32,
    damage: u32,
    mult: u32,
) -> int {
    round_div(blast_overlap(b, pos, radius) * damage * mult, b.width * b.width)
}

/// One building after the blast: standing buildings touched by the square
/// lose the rounded damage, floored at zero hit points.
pub open spec fn building_after_bomb(
    b: BuildingDetails,
    pos: Coords,
    radius: u32,
    damage: u32,
    mult: u32,
) -> BuildingDetails {
    if b.current_hp == 0 || blast_overlap(b, pos, radius) <= 0 {
        b
    } else {
        BuildingDetails {
            current_hp: clamp_damage(
                b.current_hp,
                bomb_damage_to_building(b, pos, radius, damage, mult),
            ),
            ..b
        }
    }
}

/// The whole collection after one blast.
pub open spec fn buildings_after_bomb(
    bs: Seq<BuildingDetails>,
    pos: Coords,
    radius: u32,
    damage: u32,
    mult: u32,
) -> Seq<BuildingDetails> {
    bs.map_values(|b: BuildingDetails| building_after_bomb(b, pos, radius, damage, mult))
}

/// Whether this blast destroys the building outright.
pub open spec fn bomb_destroys(
    b: BuildingDetails,
    pos: Coords,
    radius: u32,
    damage: u32,
    mult: u32,
) -> bool {
    &&& b.current_hp > 0
    &&& blast_overlap(b, pos, radius) > 0
    &&& bomb_damage_to_building(b, pos, radius, damage, mult) >= b.current_hp
}

/// The one-time artifact payout this blast takes from one building.
pub open spec fn bomb_payout_one(
    b: BuildingDetails,
    pos: Coords,
    radius: u32,
    damage: u32,
    mult: u32,
) -> int {
    if bomb_destroys(b, pos, radius, damage, mult) {
        artifacts_payout_spec(b.artifacts_obtained)
    } else {
        0
    }
}

/// Total artifacts the blast pays out across the collection.
pub open spec fn bomb_artifacts_gained(
    bs: Seq<BuildingDetails>,
    pos: Coords,
    radius: u32,
    damage: u32,
    mult: u32,
) -> int
    decreases bs.len(),
{
    if bs.len() == 0 {
        0
    } else {
        bomb_artifacts_gained(bs.drop_last(), pos, radius, damage, mult) + bomb_payout_one(
            bs.last(),
            pos,
            radius,
            damage,
            mult,
        )
    }
}

/// The per-building damage report of one blast: one entry per standing
/// building the square touches, in building order.
pub open spec fn bomb_building_responses(
    bs: Seq<BuildingDetails>,
    pos: Coords,
    radius: u32,
    damage: u32,
    mult: u32,
) -> Seq<BuildingDamageResponse>
    decreases bs.len(),
{
    if bs.len() == 0 {
        Seq::empty()
    } else {
        let rest = bomb_building_responses(bs.drop_last(), pos, radius, damage, mult);
        let b = bs.last();
        if b.current_hp > 0 && blast_overlap(b, pos, radius) > 0 {
            rest.push(
                BuildingDamageResponse {
                    id: b.map_space_id,
                    position: b.tile,
                    hp: building_after_bomb(b, pos, radius, damage, mult).current_hp,
                    artifacts_if_damaged: bomb_payout_one(b, pos, radius, damage, mult) as u32,
                },
            )
        } else {
            rest
        }
    }
}

/// Whether a single tile lies inside the blast square.
pub open spec fn in_blast(p: Coords, pos: Coords, radius: u32) -> bool {
    abs_diff(p.x as int, pos.x as int) <= radius && abs_diff(p.y as int, pos.y as int) <= radius
}

/// One defender after the blast: a live defender inside the square takes the
/// bomb's flat damage regardless of overlap fraction; at zero health it dies
/// and its target clears.
pub open spec fn defender_after_bomb(
    d: DefenderDetails,
    pos: Coords,
    radius: u32,
    damage: u32,
) -> DefenderDetails {
    if d.current_health > 0 && in_blast(d.defender_pos, pos, radius) {
        let h = clamp_damage(d.current_health, damage as int);
        DefenderDetails {
            current_health: h,
            is_alive: h > 0,
            target_id: if h > 0 {
                d.target_id
            } else {
                None
            },
            ..d
        }
    } else {
        d
    }
}

/// The whole defender collection after one blast.
pub open spec fn defenders_after_bomb(
    ds: Seq<DefenderDetails>,
    pos: Coords,
    radius: u32,
    damage: u32,
) -> Seq<DefenderDetails> {
    ds.map_values(|d: DefenderDetails| defender_after_bomb(d, pos, radius, damage))
}

/// The per-defender damage report of one blast, in defender order.
pub open spec fn bomb_defender_responses(
    ds: Seq<DefenderDetails>,
    pos: Coords,
    radius: u32,
    damage: u32,
) -> Seq<DefenderDamageResponse>
    decreases ds.len(),
{
    if ds.len() == 0 {
        Seq::empty()
    } else {
        let rest = bomb_defender_responses(ds.drop_last(), pos, radius, damage);
        let d = ds.last();
        if d.current_health > 0 && in_blast(d.defender_pos, pos, radius) {
            rest.push(
                DefenderDamageResponse {
                    map_space_id: d.map_space_id,
                    position: d.defender_pos,
                    health: defender_after_bomb(d, pos, radius, damage).current_health,
                },
            )
        } else {
            rest
        }
    }
}

/// How the PlaceBombs action relates the state before and after, and what it
/// reports: an empty inventory or a detonation tile away from the attacker's
/// declared tile invalidates the session and resolves nothing; otherwise one
/// bomb is spent, the attacker's personal count drops, and the blast
/// resolves.
pub open spec fn place_bombs_rel(
    pre: State,
    post: State,
    current_pos: Coords,
    bomb_position: Coords,
    rb: Seq<BuildingDamageResponse>,
    rd: Seq<DefenderDamageResponse>,
) -> bool {
    if pre.bombs.total_count == 0 {
        &&& post =~= (State {
            in_validation: InValidation {
                is_invalidated: true,
                reason: Some(InvalidationReason::NoBombsLeft),
            },
            ..pre
        })
        &&& rb.len() == 0
        &&& rd.len() == 0
    } else if current_pos != bomb_position {
        &&& post =~= (State {
            in_validation: InValidation {
                is_invalidated: true,
                reason: Some(InvalidationReason::BombOffPosition),
            },
            ..pre
        })
        &&& rb.len() == 0
        &&& rd.len() == 0
    } else {
        &&& post.buildings@ == buildings_after_bomb(
            pre.buildings@,
            bomb_position,
            pre.bombs.radius,
            pre.bombs.damage,
            pre.bomb_damage_multiplier,
        )
        &&& post.defenders@ == defenders_after_bomb(
            pre.defenders@,
            bomb_position,
            pre.bombs.radius,
            pre.bombs.damage,
        )
        &&& post.artifacts == pre.artifacts + bomb_artifacts_gained(
            pre.buildings@,
            bomb_position,
            pre.bombs.radius,
            pre.bombs.damage,
            pre.bomb_damage_multiplier,
        )
        &&& post.bombs == (BombType {
            total_count: (pre.bombs.total_count - 1) as u32,
            ..pre.bombs
        })
        &&& post.attacker == Some(
            Attacker {
                bomb_count: if pre.attacker.unwrap().bomb_count > 0 {
                    (pre.attacker.unwrap().bomb_count - 1) as u32
                } else {
                    0u32
                },
                ..pre.attacker.unwrap()
            },
        )
        &&& rb == bomb_building_responses(
            pre.buildings@,
            bomb_position,
            pre.bombs.radius,
            pre.bombs.damage,
            pre.bomb_damage_multiplier,
        )
        &&& rd == bomb_defender_responses(
            pre.defenders@,
            bomb_position,
            pre.bombs.radius,
            pre.bombs.damage,
        )
        &&& post =~= (State {
            buildings: post.buildings,
            defenders: post.defenders,
            artifacts: post.artifacts,
            damage_dealt_hp: post.damage_dealt_hp,
            bombs: post.bombs,
            attacker: post.attacker,
            ..pre
        })
    }
}

impl State {
    /// Resolves one bomb blast centered on `bomb_position`: every standing
    /// building loses hit points proportional to its footprint overlap with
    /// the square (never below zero), destroyed buildings pay out artifacts
    /// once, defenders in the square take the flat bomb damage, and one bomb
    /// leaves the inventory.
    #[verifier::loop_isolation(false)]
    #[verifier::rlimit(30)]
    pub fn bomb_blast(&mut self, bomb_position: Coords) -> (r: BaseItemsDamageResponse)
        requires
            old(self).wf(),
            old(self).bombs.total_count >= 1,
        ensures
            final(self).wf(),
            final(self).buildings@ == buildings_after_bomb(
                old(self).buildings@,
                bomb_position,
                old(self).bombs.radius,
                old(self).bombs.damage,
                old(self).bomb_damage_multiplier,
            ),
            final(self).defenders@ == defenders_after_bomb(
                old(self).defenders@,
                bomb_position,
                old(self).bombs.radius,
                old(self).bombs.damage,
            ),
            final(self).artifacts == old(self).artifacts + bomb_artifacts_gained(
                old(self).buildings@,
                bomb_position,
                old(self).bombs.radius,
                old(self).bombs.damage,
                old(self).bomb_damage_multiplier,
            ),
            final(self).bombs == (BombType {
                total_count: (old(self).bombs.total_count - 1) as u32,
                ..old(self).bombs
            }),
            final(self).damage_dealt_hp == old(self).damage_dealt_hp + sum_current_hp(
                old(self).buildings@,
            ) - sum_current_hp(final(self).buildings@),
            r.buildings_damaged@ == bomb_building_responses(
                old(self).buildings@,
                bomb_position,
                old(self).bombs.radius,
                old(self).bombs.damage,
                old(self).bomb_damage_multiplier,
            ),
            r.defenders_damaged@ == bomb_defender_responses(
                old(self).defenders@,
                bomb_position,
                old(self).bombs.radius,
                old(self).bombs.damage,
            ),
            *final(self) =~= (State {
                buildings: final(self).buildings,
                defenders: final(self).defenders,
                artifacts: final(self).artifacts,
                damage_dealt_hp: final(self).damage_dealt_hp,
                bombs: final(self).bombs,
                ..*old(self)
            }),
    {
        let radius = self.bombs.radius;
        let damage = self.bombs.damage;
        let mult = self.bomb_damage_multiplier;
        let pos = bomb_position;

        let mut buildings_damaged: Vec<BuildingDamageResponse> = Vec::new();
        let mut lost: u64 = 0;
        let mut gained: u64 = 0;

        let n = self.buildings.len();
        let mut i: usize = 0;
        while i < n
            invariant
                0 <= i <= n,
                self.buildings@.len() == n,
                forall|k: int|
                    0 <= k < i ==> self.buildings@[k] == building_after_bomb(
                        #[trigger] old(self).buildings@[k],
                        pos,
                        radius,
                        damage,
                        mult,
                    ),
                forall|k: int|
                    i <= k < n ==> #[trigger] self.buildings@[k] == old(self).buildings@[k],
                forall|k: int|
                    0 <= k < n ==> #[trigger] self.buildings@[k].current_hp
                        <= self.buildings@[k].total_hp,
                buildings_damaged@ == bomb_building_responses(
                    old(self).buildings@.take(i as int),
                    pos,
                    radius,
                    damage,
                    mult,
                ),
                gained == bomb_artifacts_gained(
                    old(self).buildings@.take(i as int),
                    pos,
                    radius,
                    damage,
                    mult,
                ),
                sum_total_hp(self.buildings@) == sum_total_hp(old(self).buildings@),
                sum_current_hp(self.buildings@) == sum_current_hp(old(self).buildings@) - lost,
                old(self).artifacts + gained + sum_artifacts_standing(self.buildings@)
                    <= 0xffff_ffff_ffff,
                *self =~= (State { buildings: self.buildings, ..*old(self) }),
            decreases n - i,
        {
            let b = self.buildings[i];
            proof {
                assert(old(self).buildings@.take(i + 1).drop_last() =~= old(self).buildings@.take(
                    i as int,
                ));
                assert(old(self).buildings@.take(i + 1).last() == old(self).buildings@[i as int]);
                lemma_sums_bounds(self.buildings@);
            }
            if b.current_hp > 0 {
                proof {
                    assert(1 <= b.width <= 0x1000);
                }
                let w = b.width as i64;
                let ax1 = b.tile.x as i64;
                let ax2 = b.tile.x as i64 + w - 1;
                let ay1 = b.tile.y as i64;
                let ay2 = b.tile.y as i64 + w - 1;
                let bx1 = pos.x as i64 - radius as i64;
                let bx2 = pos.x as i64 + radius as i64;
                let by1 = pos.y as i64 - radius as i64;
                let by2 = pos.y as i64 + radius as i64;
                let ox = overlap_len(ax1, ax2, bx1, bx2);
                let oy = overlap_len(ay1, ay2, by1, by2);
                if ox > 0 && oy > 0 {
                    proof {
                        assert(0 < ox <= 0x1000 && 0 < oy <= 0x1000);
                        assert(0 < (ox as int) * (oy as int) <= 0x100_0000) by (nonlinear_arith)
                            requires
                                0 < ox <= 0x1000,
                                0 < oy <= 0x1000,
                        ;
                        assert(1 <= (b.width as int) * (b.width as int) <= 0x100_0000)
                            by (nonlinear_arith)
                            requires
                                1 <= b.width <= 0x1000,
                        ;
                    }
                    let overlap = (ox as u128) * (oy as u128);
                    let footprint = (b.width as u128) * (b.width as u128);
                    proof {
                        assert((overlap as int) * (damage as int) <= 0x100_0000 * 0xffff_ffff)
                            by (nonlinear_arith)
                            requires
                                0 <= overlap <= 0x100_0000,
                                damage <= 0xffff_ffff,
                        ;
                    }
                    let od = overlap * (damage as u128);
                    proof {
                        assert((od as int) * (mult as int) <= 0x100_0000 * 0xffff_ffff
                            * 0xffff_ffff) by (nonlinear_arith)
                            requires
                                0 <= od <= 0x100_0000 * 0xffff_ffff,
                                mult <= 0xffff_ffff,
                        ;
                    }
                    let raw = od * (mult as u128);
                    let dealt = (2 * raw + footprint) / (2 * footprint);
                    proof {
                        assert(overlap == blast_overlap(b, pos, radius));
                        assert(dealt == bomb_damage_to_building(b, pos, radius, damage, mult));
                    }
                    let old_hp = b.current_hp;
                    let payout: u32;
                    let new_hp: u32;
                    if dealt >= old_hp as u128 {
                        new_hp = 0;
                        payout = artifacts_payout(b.artifacts_obtained);
                        gained = gained + payout as u64;
                        lost = lost + old_hp as u64;
                    } else {
                        new_hp = old_hp - dealt as u32;
                        payout = 0;
                        lost = lost + dealt as u64;
                    }
                    let nb = BuildingDetails { current_hp: new_hp, ..b };
                    proof {
                        lemma_sums_update(self.buildings@, i as int, nb);
                    }
                    self.buildings[i] = nb;
                    buildings_damaged.push(
                        BuildingDamageResponse {
                            id: b.map_space_id,
                            position: b.tile,
                            hp: new_hp,
                            artifacts_if_damaged: payout,
                        },
                    );
                } else {
                    proof {
                        assert((ox as int) * (oy as int) == 0) by (nonlinear_arith)
                            requires
                                ox == 0 || oy == 0,
                        ;
                        assert(blast_overlap(b, pos, radius) <= 0);
                    }
                }
            }
            i = i + 1;
        }
        proof {
            assert(old(self).buildings@.take(n as int) =~= old(self).buildings@);
            assert(self.buildings@ =~= buildings_after_bomb(
                old(self).buildings@,
                pos,
                radius,
                damage,
                mult,
            ));
            lemma_sums_bounds(self.buildings@);
        }
        self.damage_dealt_hp = self.damage_dealt_hp + lost;
        self.artifacts = self.artifacts + gained;

        let mut defenders_damaged: Vec<DefenderDamageResponse> = Vec::new();
        let nd = self.defenders.len();
        let mut j: usize = 0;
        while j < nd
            invariant
                0 <= j <= nd,
                self.defenders@.len() == nd,
                forall|k: int|
                    0 <= k < j ==> self.defenders@[k] == defender_after_bomb(
                        #[trigger] old(self).defenders@[k],
                        pos,
                        radius,
                        damage,
                    ),
                forall|k: int|
                    j <= k < nd ==> #[trigger] self.defenders@[k] == old(self).defenders@[k],
                defenders_damaged@ == bomb_defender_responses(
                    old(self).defenders@.take(j as int),
                    pos,
                    radius,
                    damage,
                ),
                self.buildings@ == buildings_after_bomb(
                    old(self).buildings@,
                    pos,
                    radius,
                    damage,
                    mult,
                ),
                self.artifacts == old(self).artifacts + bomb_artifacts_gained(
                    old(self).buildings@,
                    pos,
                    radius,
                    damage,
                    mult,
                ),
                self.damage_dealt_hp == old(self).damage_dealt_hp + sum_current_hp(
                    old(self).buildings@,
                ) - sum_current_hp(self.buildings@),
                self.artifacts + sum_artifacts_standing(self.buildings@) <= 0xffff_ffff_ffff,
                sum_total_hp(self.buildings@) == sum_total_hp(old(self).buildings@),
                forall|k: int|
                    0 <= k < self.buildings@.len() ==> #[trigger] self.buildings@[k].current_hp
                        <= self.buildings@[k].total_hp,
                *self =~= (State {
                    buildings: self.buildings,
                    defenders: self.defenders,
                    artifacts: self.artifacts,
                    damage_dealt_hp: self.damage_dealt_hp,
                    ..*old(self)
                }),
            decreases nd - j,
        {
            let d = self.defenders[j];
            proof {
                assert(old(self).defenders@.take(j + 1).drop_last() =~= old(self).defenders@.take(
                    j as int,
                ));
                assert(old(self).defenders@.take(j + 1).last() == old(self).defenders@[j as int]);
            }
            if d.current_health > 0 {
                let dx = if d.defender_pos.x >= pos.x {
                    d.defender_pos.x as i64 - pos.x as i64
                } else {
                    pos.x as i64 - d.defender_pos.x as i64
                };
                let dy = if d.defender_pos.y >= pos.y {
                    d.defender_pos.y as i64 - pos.y as i64
                } else {
                    pos.y as i64 - d.defender_pos.y as i64
                };
                if dx <= radius as i64 && dy <= radius as i64 {
                    let h = if damage >= d.current_health {
                        0
                    } else {
                        d.current_health - damage
                    };
                    self.defenders[j] = DefenderDetails {
                        current_health: h,
                        is_alive: h > 0,
                        target_id: if h > 0 {
                            d.target_id
                        } else {
                            None
                        },
                        ..d
                    };
                    defenders_damaged.push(
                        DefenderDamageResponse {
                            map_space_id: d.map_space_id,
                            position: d.defender_pos,
                            health: h,
                        },
                    );
                }
            }
            j = j + 1;
        }
        proof {
            assert(old(self).defenders@.take(nd as int) =~= old(self).defenders@);
            assert(self.defenders@ =~= defenders_after_bomb(
                old(self).defenders@,
                pos,
                radius,
                damage,
            ));
        }

        self.bombs = BombType { total_count: self.bombs.total_count - 1, ..self.bombs };

        BaseItemsDamageResponse { buildings_damaged, defenders_damaged }
    }

    /// The PlaceBombs action: an empty inventory or a detonation tile away
    /// from the attacker's declared tile invalidates the session and resolves
    /// nothing; otherwise one bomb is spent and the blast resolves.
    pub fn place_bombs(&mut self, current_pos: Coords, bomb_position: Coords) -> (r:
        BaseItemsDamageResponse)
        requires
            old(self).wf(),
            old(self).attacker is Some,
        ensures
            final(self).wf(),
            place_bombs_rel(
                *old(self),
                *final(self),
                current_pos,
                bomb_position,
                r.buildings_damaged@,
                r.defenders_damaged@,
            ),
    {
        if self.bombs.total_count == 0 {
            self.in_validation = InValidation {
                is_invalidated: true,
                reason: Some(InvalidationReason::NoBombsLeft),
            };
            return BaseItemsDamageResponse {
                buildings_damaged: Vec::new(),
                defenders_damaged: Vec::new(),
            };
        }
        if current_pos.x != bomb_position.x || current_pos.y != bomb_position.y {
            self.in_validation = InValidation {
                is_invalidated: true,
                reason: Some(InvalidationReason::BombOffPosition),
            };
            return BaseItemsDamageResponse {
                buildings_damaged: Vec::new(),
                defenders_damaged: Vec::new(),
            };
        }
        let a = *self.attacker.as_ref().unwrap();
        let new_count = if a.bomb_count > 0 {
            a.bomb_count - 1
        } else {
            0
        };
        self.attacker = Some(Attacker { bomb_count: new_count, ..a });
        self.bomb_blast(bomb_position)
    }
}

/// Length of the overlap of the inclusive intervals `[a1, a2]` and
/// `[b1, b2]`, computed in 64 bits.
fn overlap_len(a1: i64, a2: i64, b1: i64, b2: i64) -> (r: i64)
    requires
        a1 <= a2,
        -0x2_0000_0000 <= a1 <= 0x2_0000_0000,
        -0x2_0000_0000 <= a2 <= 0x2_0000_0000,
        -0x3_0000_0000_0000 <= b1 <= 0x3_0000_0000_0000,
        -0x3_0000_0000_0000 <= b2 <= 0x3_0000_0000_0000,
    ensures
        r == overlap_1d(a1 as int, a2 as int, b1 as int, b2 as int),
        0 <= r <= a2 - a1 + 1,
{
    let lo = if a1 >= b1 {
        a1
    } else {
        b1
    };
    let hi = if a2 <= b2 {
        a2
    } else {
        b2
    };
    if hi >= lo {
        hi - lo + 1
    } else {
        0
    }
}

} // verus!
