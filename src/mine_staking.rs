use vstd::prelude::*;
use crate::character::{Character, StakeStatus};
use crate::errors::QstakingErrors;
use crate::loot::Loot;
use crate::mine::Mine;
use crate::splitter::{LOOT_BASE_STRENGTH, MINE_BASE_STRENGTH, loot_strength_of, mine_strength_of};

verus! {

/// Staking into the Mine at `now`, given the collectible balance the caller
/// holds and the allow-list decision: the pool must be unlocked, the caller
/// must hold exactly one unit, the position must be unstaked and the
/// decision must be a pass, checked in that order.
pub open spec fn stake_spec(
    mine: Mine,
    character: Character,
    now: i64,
    nft_amount: u64,
    membership: Result<(), QstakingErrors>,
) -> Result<(Mine, Character), QstakingErrors> {
    if mine.locked {
        Err(QstakingErrors::StakingPoolLocked)
    } else if nft_amount != 1 {
        Err(QstakingErrors::NotHolder)
    } else if character.staked != StakeStatus::Unstaked {
        Err(QstakingErrors::AlreadyStaked)
    } else if membership is Err {
        Err(membership->Err_0)
    } else {
        match mine.joined(now, character.points) {
            Err(e) => Err(e),
            Ok(m) => match character.staked_spec(StakeStatus::InMine, now, m.accrued_rewards) {
                Err(e) => Err(e),
                Ok(c) => Ok((m, c)),
            },
        }
    }
}

/// Leaving the Mine at `now`: the Mine's index is brought forward and the
/// position counted out, its gross reward is split against the pool
/// strengths taken before the removal, and the tax is added to the Loot's
/// fund. The value is `(payout, tax)`.
pub open spec fn unstake_spec(
    mine: Mine,
    loot: Loot,
    character: Character,
    now: i64,
    nft_amount: u64,
) -> Result<(Mine, Loot, Character, (u64, u64)), QstakingErrors> {
    if nft_amount != 1 {
        Err(QstakingErrors::NotHolder)
    } else if character.staked != StakeStatus::InMine {
        Err(QstakingErrors::NotStaked)
    } else {
        match mine.left(now, character.points) {
            Err(e) => Err(e),
            Ok(m) => match character.unstake_mine_spec(
                now,
                m.cooldown,
                mine_strength_of(mine.staked_characters),
                loot_strength_of(loot.staked_characters),
                m.accrued_rewards,
            ) {
                Err(e) => Err(e),
                Ok((c, (payout, tax))) => match loot.funded(now, tax) {
                    Err(e) => Err(e),
                    Ok(l) => Ok((m, l, c, (payout, tax))),
                },
            },
        }
    }
}

/// Stakes `character` into `mine` at `now`.
///
/// `nft_amount` is the caller's balance of the collectible and `membership`
/// the allow-list decision for it. Either both the pool and the position
/// change as `stake_spec` prescribes, or neither changes and the error is
/// returned.
pub fn stake(
    mine: &mut Mine,
    character: &mut Character,
    now: i64,
    nft_amount: u64,
    membership: Result<(), QstakingErrors>,
) -> (r: Result<(), QstakingErrors>)
    ensures
        match stake_spec(*old(mine), *old(character), now, nft_amount, membership) {
            Ok((m, c)) => r is Ok && *final(mine) == m && *final(character) == c,
            Err(e) => r == Err::<(), QstakingErrors>(e) && *final(mine) == *old(mine)
                && *final(character) == *old(character),
        },
{
    if mine.locked {
        return Err(QstakingErrors::StakingPoolLocked);
    }
    if nft_amount != 1 {
        return Err(QstakingErrors::NotHolder);
    }
    if character.staked != StakeStatus::Unstaked {
        return Err(QstakingErrors::AlreadyStaked);
    }
    match membership {
        Ok(()) => {},
        Err(e) => return Err(e),
    }
    let mut m = *mine;
    let mut c = *character;
    match m.add_character(now, c.points) {
        Ok(()) => {},
        Err(e) => return Err(e),
    }
    match c.stake_mine(now, m.accrued_rewards) {
        Ok(()) => {},
        Err(e) => return Err(e),
    }
    *mine = m;
    *character = c;
    Ok(())
}

/// Unstakes `character` from `mine` at `now`, feeding the Loot tax into
/// `loot`, and returns `(payout, tax)`: the caller mints `payout` to the
/// staker and `tax` to the Loot's proceeds.
///
/// Either all three records change as `unstake_spec` prescribes, or none
/// changes and the error is returned.
pub fn unstake(
    mine: &mut Mine,
    loot: &mut Loot,
    character: &mut Character,
    now: i64,
    nft_amount: u64,
) -> (r: Result<(u64, u64), QstakingErrors>)
    ensures
        match unstake_spec(*old(mine), *old(loot), *old(character), now, nft_amount) {
            Ok((m, l, c, v)) => r == Ok::<(u64, u64), QstakingErrors>(v) && *final(mine) == m
                && *final(loot) == l && *final(character) == c,
            Err(e) => r == Err::<(u64, u64), QstakingErrors>(e) && *final(mine) == *old(mine)
                && *final(loot) == *old(loot) && *final(character) == *old(character),
        },
{
    if nft_amount != 1 {
        return Err(QstakingErrors::NotHolder);
    }
    if character.staked != StakeStatus::InMine {
        return Err(QstakingErrors::NotStaked);
    }
    let mine_pool_strength: u64 = mine.staked_characters as u64 + MINE_BASE_STRENGTH;
    let loot_pool_strength: u64 = loot.staked_characters as u64 + LOOT_BASE_STRENGTH;
    let mut m = *mine;
    let mut l = *loot;
    let mut c = *character;
    match m.remove_character(now, c.points) {
        Ok(()) => {},
        Err(e) => return Err(e),
    }
    let (payout, tax) = match c.unstake_mine(
        now,
        m.cooldown,
        mine_pool_strength,
        loot_pool_strength,
        m.accrued_rewards,
    ) {
        Ok(v) => v,
        Err(e) => return Err(e),
    };
    match l.add_funds(now, tax) {
        Ok(()) => {},
        Err(e) => return Err(e),
    }
    *mine = m;
    *loot = l;
    *character = c;
    Ok((payout, tax))
}

} // verus!
