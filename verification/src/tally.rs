//! Summations over the building collection, with the lemmas the engine's
//! economy bookkeeping rests on: total hit points, standing hit points, and
//! artifacts still stored in standing buildings.

use vstd::prelude::*;

use crate::types::BuildingDetails;

verus! {

/// Sum of `total_hp` over a building sequence.
pub open spec fn sum_total_hp(s: Seq<BuildingDetails>) -> int
    decreases s.len(),
{
    if s.len() == 0 {
        0
    } else {
        sum_total_hp(s.drop_last()) + s.last().total_hp
    }
}

/// Sum of `current_hp` over a building sequence.
pub open spec fn sum_current_hp(s: Seq<BuildingDetails>) -> int
    decreases s.len(),
{
    if s.len() == 0 {
        0
    } else {
        sum_current_hp(s.drop_last()) + s.last().current_hp
    }
}

/// Artifacts still stored in standing buildings (those with hit points left).
pub open spec fn sum_artifacts_standing(s: Seq<BuildingDetails>) -> int
    decreases s.len(),
{
    if s.len() == 0 {
        0
    } else {
        sum_artifacts_standing(s.drop_last()) + if s.last().current_hp > 0 {
            s.last().artifacts_obtained as int
        } else {
            0
        }
    }
}

/// Contribution of one building to `sum_artifacts_standing`.
pub open spec fn artifacts_standing_of(b: BuildingDetails) -> int {
    if b.current_hp > 0 {
        b.artifacts_obtained as int
    } else {
        0
    }
}

/// Each sum over `s.take(i + 1)` is the sum over `s.take(i)` plus `s[i]`'s
/// contribution.
pub proof fn lemma_sums_take_succ(s: Seq<BuildingDetails>, i: int)
    requires
        0 <= i < s.len(),
    ensures
        sum_total_hp(s.take(i + 1)) == sum_total_hp(s.take(i)) + s[i].total_hp,
        sum_current_hp(s.take(i + 1)) == sum_current_hp(s.take(i)) + s[i].current_hp,
        sum_artifacts_standing(s.take(i + 1)) == sum_artifacts_standing(s.take(i))
            + artifacts_standing_of(s[i]),
{
    assert(s.take(i + 1).drop_last() =~= s.take(i));
    assert(s.take(i + 1).last() == s[i]);
}

/// Updating one building changes each sum by exactly that building's
/// contribution.
pub proof fn lemma_sums_update(s: Seq<BuildingDetails>, i: int, b: BuildingDetails)
    requires
        0 <= i < s.len(),
    ensures
        sum_total_hp(s.update(i, b)) == sum_total_hp(s) - s[i].total_hp + b.total_hp,
        sum_current_hp(s.update(i, b)) == sum_current_hp(s) - s[i].current_hp + b.current_hp,
        sum_artifacts_standing(s.update(i, b)) == sum_artifacts_standing(s)
            - artifacts_standing_of(s[i]) + artifacts_standing_of(b),
    decreases s.len(),
{
    if i == s.len() - 1 {
        assert(s.update(i, b).drop_last() =~= s.drop_last());
        assert(s.update(i, b).last() == b);
    } else {
        assert(s.update(i, b).drop_last() =~= s.drop_last().update(i, b));
        assert(s.update(i, b).last() == s.last());
        lemma_sums_update(s.drop_last(), i, b);
    }
}

/// Every sum is non-negative term by term, and `sum_current_hp` is bounded by
/// `sum_total_hp` whenever each building's current hit points are bounded by
/// its total.
pub proof fn lemma_sums_bounds(s: Seq<BuildingDetails>)
    requires
        forall|i: int| 0 <= i < s.len() ==> #[trigger] s[i].current_hp <= s[i].total_hp,
    ensures
        0 <= sum_current_hp(s),
        sum_current_hp(s) <= sum_total_hp(s),
        sum_total_hp(s) <= s.len() * 0xffff_ffff,
        0 <= sum_artifacts_standing(s),
        sum_artifacts_standing(s) <= s.len() * 0xffff_ffff,
    decreases s.len(),
{
    if s.len() > 0 {
        assert(forall|i: int|
            0 <= i < s.drop_last().len() ==> #[trigger] s.drop_last()[i].current_hp
                <= s.drop_last()[i].total_hp);
        lemma_sums_bounds(s.drop_last());
        assert((s.len() - 1) * 0xffff_ffff + 0xffff_ffff == s.len() * 0xffff_ffff) by (nonlinear_arith);
    }
}

} // verus!
