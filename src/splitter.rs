use vstd::prelude::*;
use crate::errors::QstakingErrors;

verus! {

/// Baseline weight added to the Mine's staked count when splitting a Mine
/// payout. Together with `LOOT_BASE_STRENGTH` it keeps the split strictly
/// between 0% and 100% even when a pool has no other stakers, with the Mine
/// keeping the larger share by default.
pub const MINE_BASE_STRENGTH: u64 = 20;

/// Baseline weight added to the Loot's staked count when splitting a Mine
/// payout (see `MINE_BASE_STRENGTH`).
pub const LOOT_BASE_STRENGTH: u64 = 5;

/// The Loot pool's share of a gross Mine reward: the gross scaled by the Loot
/// strength over the combined strength, rounded down.
pub open spec fn loot_share(gross: int, mine_strength: int, loot_strength: int) -> int {
    (gross * loot_strength) / (mine_strength + loot_strength)
}

/// The staker's payout and the Loot tax for a gross Mine reward, or the
/// arithmetic fault the computation runs into: `gross * loot_strength` and
/// the combined strength must fit in 64 bits, and the combined strength must
/// not be zero. The staker's part is clipped to `capacity`; the clipped
/// excess is forfeited.
pub open spec fn split_spec(gross: u64, mine_strength: u64, loot_strength: u64, capacity: u64) -> Result<
    (u64, u64),
    QstakingErrors,
> {
    if gross * loot_strength > u64::MAX || mine_strength + loot_strength > u64::MAX
        || mine_strength + loot_strength == 0 {
        Err(QstakingErrors::InvalidComputation)
    } else {
        let tax = loot_share(gross as int, mine_strength as int, loot_strength as int);
        let kept = gross - tax;
        let payout = if kept <= capacity {
            kept
        } else {
            capacity as int
        };
        Ok((payout as u64, tax as u64))
    }
}

/// The strength of the Mine side of a split, from the number of positions
/// staked in the Mine before the leaving one is removed.
pub open spec fn mine_strength_of(staked_characters: u16) -> u64 {
    (staked_characters + MINE_BASE_STRENGTH) as u64
}

/// The strength of the Loot side of a split, from the number of positions
/// staked in the Loot.
pub open spec fn loot_strength_of(staked_characters: u16) -> u64 {
    (staked_characters + LOOT_BASE_STRENGTH) as u64
}

/// The Loot's share of a gross reward lies between nothing and all of it.
pub proof fn lemma_share_bounds(gross: int, mine_strength: int, loot_strength: int)
    requires
        gross >= 0,
        mine_strength >= 0,
        loot_strength >= 0,
        mine_strength + loot_strength > 0,
    ensures
        0 <= loot_share(gross, mine_strength, loot_strength) <= gross,
{
    let d = mine_strength + loot_strength;
    assert(gross * loot_strength <= gross * d) by (nonlinear_arith)
        requires
            gross >= 0,
            0 <= loot_strength <= d,
    ;
    assert(0 <= gross * loot_strength) by (nonlinear_arith)
        requires
            gross >= 0,
            loot_strength >= 0,
    ;
    assert((gross * loot_strength) / d <= (gross * d) / d) by (nonlinear_arith)
        requires
            gross * loot_strength <= gross * d,
            d > 0,
    ;
    assert((gross * d) / d == gross) by (nonlinear_arith)
        requires
            d > 0,
    ;
    assert(0 <= (gross * loot_strength) / d) by (nonlinear_arith)
        requires
            0 <= gross * loot_strength,
            d > 0,
    ;
}

/// Splits a gross Mine reward between the staker and the Loot pool's fund.
///
/// The Loot tax is `floor(gross * loot_strength / (mine_strength +
/// loot_strength))`; the staker receives the rest, clipped to `capacity`.
/// The returned pair is `(payout, tax)`.
pub fn split_reward(gross: u64, mine_strength: u64, loot_strength: u64, capacity: u64) -> (r: Result<
    (u64, u64),
    QstakingErrors,
>)
    ensures
        r == split_spec(gross, mine_strength, loot_strength, capacity),
        r is Ok ==> ({
            let (payout, tax) = r->Ok_0;
            &&& tax == loot_share(gross as int, mine_strength as int, loot_strength as int)
            &&& payout + tax <= gross
            &&& payout <= capacity
            &&& (gross - tax <= capacity ==> payout + tax == gross)
            &&& (gross - tax > capacity ==> payout == capacity)
        }),
{
    if loot_strength != 0 && gross > u64::MAX / loot_strength {
        assert(gross * loot_strength > u64::MAX) by (nonlinear_arith)
            requires
                loot_strength > 0,
                gross > u64::MAX / loot_strength,
        ;
        return Err(QstakingErrors::InvalidComputation);
    }
    assert(gross * loot_strength <= u64::MAX) by (nonlinear_arith)
        requires
            loot_strength == 0 || gross <= u64::MAX / loot_strength,
    ;
    if mine_strength > u64::MAX - loot_strength {
        return Err(QstakingErrors::InvalidComputation);
    }
    let total: u64 = mine_strength + loot_strength;
    if total == 0 {
        return Err(QstakingErrors::InvalidComputation);
    }
    let nominator: u64 = gross * loot_strength;
    let tax: u64 = nominator / total;
    proof {
        lemma_share_bounds(gross as int, mine_strength as int, loot_strength as int);
    }
    let kept: u64 = gross - tax;
    let payout: u64 = if kept <= capacity {
        kept
    } else {
        capacity
    };
    Ok((payout, tax))
}

} // verus!
