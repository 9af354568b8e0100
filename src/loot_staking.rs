use vstd::prelude::*;
use crate::character::{Character, StakeStatus};
use crate::errors::QstakingErrors;
use crate::loot::Loot;

verus! {

/// Staking into the Loot at `now`, given the collectible balance the caller
/// holds and the allow-list decision: the pool must be unlocked, the caller
/// must hold exactly one unit, the position must be unstaked and the
/// decision must be a pass, checked in that order.
pub open spec fn stake_spec(
    loot: Loot,
    character: Character,
    now: i64,
    nft_amount: u64,
    membership: Result<(), QstakingErrors>,
) -> Result<(Loot, Character), QstakingErrors> {
    if loot.locked {
        Err(QstakingErrors::StakingPoolLocked)
    } else if nft_amount != 1 {
        Err(QstakingErrors::NotHolder)
    } else if character.staked != StakeStatus::Unstaked {
        Err(QstakingErrors::AlreadyStaked)
    } else if membership is Err {
        Err(membership->Err_0)
    } else {
        match loot.joined(now, character.points) {
            Err(e) => Err(e),
            Ok(l) => match character.staked_spec(StakeStatus::InLoot, now, l.accrued_rewards) {
                Err(e) => Err(e),
                Ok(c) => Ok((l, c)),
            },
        }
    }
}

/// Leaving the Loot at `now`: the index is brought forward, the position's
/// reward computed against it, and the position counted out with its reward
/// taken from the fund. The value is the reward.
pub open spec fn unstake_spec(loot: Loot, character: Character, now: i64, nft_amount: u64) -> Result<
    (Loot, Character, u64),
    QstakingErrors,
> {
    if nft_amount != 1 {
        Err(QstakingErrors::NotHolder)
    } else if character.staked != StakeStatus::InLoot {
        Err(QstakingErrors::NotStaked)
    } else {
        match loot.advanced(now) {
            Err(e) => Err(e),
            Ok(a) => match character.unstake_loot_spec(now, a.cooldown, a.accrued_rewards) {
                Err(e) => Err(e),
                Ok((c, reward)) => match a.left(c.points, reward) {
                    Err(e) => Err(e),
                    Ok(l) => Ok((l, c, reward)),
                },
            },
        }
    }
}

/// Stakes `character` into `loot` at `now`.
///
/// `nft_amount` is the caller's balance of the collectible and `membership`
/// the allow-list decision for it. Either both the pool and the position
/// change as `stake_spec` prescribes, or neither changes and the error is
/// returned.
pub fn stake(
    loot: &mut Loot,
    character: &mut Character,
    now: i64,
    nft_amount: u64,
    membership: Result<(), QstakingErrors>,
) -> (r: Result<(), QstakingErrors>)
    ensures
        match stake_spec(*old(loot), *old(character), now, nft_amount, membership) {
            Ok((l, c)) => r is Ok && *final(loot) == l && *final(character) == c,
            Err(e) => r == Err::<(), QstakingErrors>(e) && *final(loot) == *old(loot)
                && *final(character) == *old(character),
        },
{
    if loot.locked {
        return Err(QstakingErrors::StakingPoolLocked);
    }
    if nft_amount != 1 {
        return Err(QstakingErrors::NotHolder);
    }
    if character.staked != StakeStatus::Unstaked {
        return Err(QstakingErrors::AlreadyStaked);
    }
    match membership {
        Ok(()) => {},
        Err(e) => return Err(e),
    }
    let mut l = *loot;
    let mut c = *character;
    match l.add_character(now, c.points) {
        Ok(()) => {},
        Err(e) => return Err(e),
    }
    match c.stake_loot(now, l.accrued_rewards) {
        Ok(()) => {},
        Err(e) => return Err(e),
    }
    *loot = l;
    *character = c;
    Ok(())
}

/// Unstakes `character` from `loot` at `now` and returns the reward the
/// caller transfers from the Loot's proceeds to the staker.
///
/// Either both records change as `unstake_spec` prescribes, or neither
/// changes and the error is returned.
pub fn unstake(loot: &mut Loot, character: &mut Character, now: i64, nft_amount: u64) -> (r: Result<
    u64,
    QstakingErrors,
>)
    ensures
        match unstake_spec(*old(loot), *old(character), now, nft_amount) {
            Ok((l, c, v)) => r == Ok::<u64, QstakingErrors>(v) && *final(loot) == l
                && *final(character) == c,
            Err(e) => r == Err::<u64, QstakingErrors>(e) && *final(loot) == *old(loot)
                && *final(character) == *old(character),
        },
{
    if nft_amount != 1 {
        return Err(QstakingErrors::NotHolder);
    }
    if character.staked != StakeStatus::InLoot {
        return Err(QstakingErrors::NotStaked);
    }
    let mut l = *loot;
    let mut c = *character;
    match l.update_accrued_rewards(now) {
        Ok(()) => {},
        Err(e) => return Err(e),
    }
    let reward = match c.unstake_loot(now, l.cooldown, l.accrued_rewards) {
        Ok(v) => v,
        Err(e) => return Err(e),
    };
    match l.remove_character(c.points, reward) {
        Ok(()) => {},
        Err(e) => return Err(e),
    }
    *loot = l;
    *character = c;
    Ok(reward)
}

} // verus!
