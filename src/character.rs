use vstd::prelude::*;
use crate::errors::{QstakingErrors, settles, settles_with};
use crate::splitter::{split_reward, split_spec};

verus! {

/// Mine payout ceiling a fresh position starts with.
pub const DEFAULT_CAPACITY: u64 = 1000000;

/// Where a position is staked, if anywhere.
#[derive(Clone, Copy, Debug, PartialEq, Eq, Structural)]
pub enum StakeStatus {
    Unstaked,
    InMine,
    InLoot,
}

/// The per-collectible stake position.
#[derive(Clone, Copy, Debug)]
pub struct Character {
    pub bump: u8,
    /// Progression level; fixed at 1 in this model.
    pub level: u8,
    /// Total seconds spent staked.
    pub experience: u64,
    /// Weight of the position in whichever pool it is staked into.
    pub points: u64,
    /// Ceiling on a single Mine payout.
    pub capacity: u64,
    /// Lifetime Mine rewards paid out.
    pub mining_rewards: u128,
    /// Lifetime Loot rewards paid out.
    pub looting_rewards: u128,
    pub staked: StakeStatus,
    /// The pool's reward index when the position was staked.
    pub staked_peg: u128,
    /// When the position was staked; 0 while unstaked.
    pub staked_timestamp: i64,
    /// Earliest intended restake time into the Mine (recorded, not enforced).
    pub mine_cooldown_timestamp: i64,
    /// Earliest intended restake time into the Loot (recorded, not enforced).
    pub loot_cooldown_timestamp: i64,
}

/// The reward a position of `points` owes when the pool index moved from
/// `peg` to `index`, or the fault met computing it in 64 bits.
pub open spec fn reward_owed_spec(points: u64, peg: u128, index: u128) -> Result<u64, QstakingErrors> {
    if index < peg || index - peg > u64::MAX || points * (index - peg) > u64::MAX {
        Err(QstakingErrors::InvalidComputation)
    } else {
        Ok((points * (index - peg)) as u64)
    }
}

/// `now + cooldown` as a timestamp, or the fault met computing it.
pub open spec fn cooldown_until_spec(now: i64, cooldown: u64) -> Result<i64, QstakingErrors> {
    if cooldown > i64::MAX || now + cooldown > i64::MAX {
        Err(QstakingErrors::InvalidComputation)
    } else {
        Ok((now + cooldown) as i64)
    }
}

/// The experience after a stake that began at `since` ends at `now`.
pub open spec fn experience_after_spec(experience: u64, since: i64, now: i64) -> Result<u64, QstakingErrors> {
    if now < since || experience + (now - since) > u64::MAX {
        Err(QstakingErrors::InvalidComputation)
    } else {
        Ok((experience + (now - since)) as u64)
    }
}

impl Character {
    /// A fresh, unstaked position.
    pub open spec fn initial(bump: u8) -> Character {
        Character {
            bump,
            level: 1,
            experience: 0,
            points: 1,
            capacity: DEFAULT_CAPACITY,
            mining_rewards: 0,
            looting_rewards: 0,
            staked: StakeStatus::Unstaked,
            staked_peg: 0,
            staked_timestamp: 0,
            mine_cooldown_timestamp: 0,
            loot_cooldown_timestamp: 0,
        }
    }

    /// The position after staking into the pool named by `into` at `now`
    /// with the pool's index at `index`.
    pub open spec fn staked_spec(self, into: StakeStatus, now: i64, index: u128) -> Result<
        Character,
        QstakingErrors,
    > {
        if self.staked != StakeStatus::Unstaked {
            Err(QstakingErrors::AlreadyStaked)
        } else {
            Ok(Character { staked: into, staked_peg: index, staked_timestamp: now, ..self })
        }
    }

    /// The position after leaving the Mine, with `(payout, tax)`.
    pub open spec fn unstake_mine_spec(
        self,
        now: i64,
        cooldown: u64,
        mine_strength: u64,
        loot_strength: u64,
        index: u128,
    ) -> Result<(Character, (u64, u64)), QstakingErrors> {
        if self.staked != StakeStatus::InMine {
            Err(QstakingErrors::NotStaked)
        } else {
            match reward_owed_spec(self.points, self.staked_peg, index) {
                Err(e) => Err(e),
                Ok(gross) => match split_spec(gross, mine_strength, loot_strength, self.capacity) {
                    Err(e) => Err(e),
                    Ok((payout, tax)) => match cooldown_until_spec(now, cooldown) {
                        Err(e) => Err(e),
                        Ok(until) => if self.mining_rewards + payout > u128::MAX {
                            Err(QstakingErrors::InvalidComputation)
                        } else {
                            match experience_after_spec(self.experience, self.staked_timestamp, now) {
                                Err(e) => Err(e),
                                Ok(xp) => Ok(
                                    (
                                        Character {
                                            mine_cooldown_timestamp: until,
                                            mining_rewards: (self.mining_rewards + payout) as u128,
                                            experience: xp,
                                            staked: StakeStatus::Unstaked,
                                            staked_timestamp: 0,
                                            ..self
                                        },
                                        (payout, tax),
                                    ),
                                ),
                            }
                        },
                    },
                },
            }
        }
    }

    /// The position after leaving the Loot, with the reward it is owed.
    pub open spec fn unstake_loot_spec(self, now: i64, cooldown: u64, index: u128) -> Result<
        (Character, u64),
        QstakingErrors,
    > {
        if self.staked != StakeStatus::InLoot {
            Err(QstakingErrors::NotStaked)
        } else {
            match reward_owed_spec(self.points, self.staked_peg, index) {
                Err(e) => Err(e),
                Ok(reward) => match cooldown_until_spec(now, cooldown) {
                    Err(e) => Err(e),
                    Ok(until) => if self.looting_rewards + reward > u128::MAX {
                        Err(QstakingErrors::InvalidComputation)
                    } else {
                        match experience_after_spec(self.experience, self.staked_timestamp, now) {
                            Err(e) => Err(e),
                            Ok(xp) => Ok(
                                (
                                    Character {
                                        loot_cooldown_timestamp: until,
                                        looting_rewards: (self.looting_rewards + reward) as u128,
                                        experience: xp,
                                        staked: StakeStatus::Unstaked,
                                        staked_timestamp: 0,
                                        ..self
                                    },
                                    reward,
                                ),
                            ),
                        }
                    },
                },
            }
        }
    }

    /// A fresh, unstaked position of weight 1.
    pub fn new(bump: u8) -> (c: Character)
        ensures
            c == Character::initial(bump),
    {
        Character {
            bump,
            level: 1,
            experience: 0,
            points: 1,
            capacity: DEFAULT_CAPACITY,
            mining_rewards: 0,
            looting_rewards: 0,
            staked: StakeStatus::Unstaked,
            staked_peg: 0,
            staked_timestamp: 0,
            mine_cooldown_timestamp: 0,
            loot_cooldown_timestamp: 0,
        }
    }

    /// Resets the position to a fresh, unstaked one.
    pub fn initialize(&mut self, bump: u8) -> (r: Result<(), QstakingErrors>)
        ensures
            r is Ok,
            *final(self) == Character::initial(bump),
    {
        *self = Character::new(bump);
        Ok(())
    }

    /// Records a stake into the Mine at `timestamp`, pegged to the Mine's
    /// index `accrued_rewards`. Fails with `AlreadyStaked` unless unstaked.
    pub fn stake_mine(&mut self, timestamp: i64, accrued_rewards: u128) -> (r: Result<
        (),
        QstakingErrors,
    >)
        ensures
            settles(
                old(self).staked_spec(StakeStatus::InMine, timestamp, accrued_rewards),
                *old(self),
                *final(self),
                r,
            ),
    {
        if self.staked != StakeStatus::Unstaked {
            return Err(QstakingErrors::AlreadyStaked);
        }
        self.staked = StakeStatus::InMine;
        self.staked_peg = accrued_rewards;
        self.staked_timestamp = timestamp;
        Ok(())
    }

    /// Records a stake into the Loot at `timestamp`, pegged to the Loot's
    /// index `accrued_rewards`. Fails with `AlreadyStaked` unless unstaked.
    pub fn stake_loot(&mut self, timestamp: i64, accrued_rewards: u128) -> (r: Result<
        (),
        QstakingErrors,
    >)
        ensures
            settles(
                old(self).staked_spec(StakeStatus::InLoot, timestamp, accrued_rewards),
                *old(self),
                *final(self),
                r,
            ),
    {
        if self.staked != StakeStatus::Unstaked {
            return Err(QstakingErrors::AlreadyStaked);
        }
        self.staked = StakeStatus::InLoot;
        self.staked_peg = accrued_rewards;
        self.staked_timestamp = timestamp;
        Ok(())
    }

    /// The reward owed for the index moving from the peg to `index`.
    fn reward_owed(&self, index: u128) -> (r: Result<u64, QstakingErrors>)
        ensures
            r == reward_owed_spec(self.points, self.staked_peg, index),
    {
        if index < self.staked_peg {
            return Err(QstakingErrors::InvalidComputation);
        }
        let diff: u128 = index - self.staked_peg;
        if diff > u64::MAX as u128 {
            return Err(QstakingErrors::InvalidComputation);
        }
        let diff: u64 = diff as u64;
        if diff != 0 && self.points > u64::MAX / diff {
            assert(self.points * diff > u64::MAX) by (nonlinear_arith)
                requires
                    diff > 0,
                    self.points > u64::MAX / diff,
            ;
            return Err(QstakingErrors::InvalidComputation);
        }
        assert(self.points * diff <= u64::MAX) by (nonlinear_arith)
            requires
                diff == 0 || self.points <= u64::MAX / diff,
        ;
        Ok(self.points * diff)
    }

    /// Ends a Mine stake at `timestamp`.
    ///
    /// The gross reward `points * (mine_accrued_rewards - peg)` is split by
    /// `split_reward`; the payout is added to the lifetime Mine rewards, the
    /// staked time to the experience, and the Mine cooldown is recorded.
    /// Returns `(payout, tax)`. Fails with `NotStaked` unless staked in the
    /// Mine, or with `InvalidComputation` on any arithmetic fault; on failure
    /// nothing changes.
    pub fn unstake_mine(
        &mut self,
        timestamp: i64,
        cooldown: u64,
        mine_pool_strength: u64,
        loot_pool_strength: u64,
        mine_accrued_rewards: u128,
    ) -> (r: Result<(u64, u64), QstakingErrors>)
        ensures
            settles_with(
                old(self).unstake_mine_spec(
                    timestamp,
                    cooldown,
                    mine_pool_strength,
                    loot_pool_strength,
                    mine_accrued_rewards,
                ),
                *old(self),
                *final(self),
                r,
            ),
    {
        if self.staked != StakeStatus::InMine {
            return Err(QstakingErrors::NotStaked);
        }
        let gross = match self.reward_owed(mine_accrued_rewards) {
            Ok(g) => g,
            Err(e) => return Err(e),
        };
        let (payout, tax) = match split_reward(
            gross,
            mine_pool_strength,
            loot_pool_strength,
            self.capacity,
        ) {
            Ok(s) => s,
            Err(e) => return Err(e),
        };
        let until = match cooldown_until(timestamp, cooldown) {
            Ok(t) => t,
            Err(e) => return Err(e),
        };
        if self.mining_rewards > u128::MAX - payout as u128 {
            return Err(QstakingErrors::InvalidComputation);
        }
        let xp = match experience_after(self.experience, self.staked_timestamp, timestamp) {
            Ok(x) => x,
            Err(e) => return Err(e),
        };
        self.mine_cooldown_timestamp = until;
        self.mining_rewards = self.mining_rewards + payout as u128;
        self.experience = xp;
        self.staked = StakeStatus::Unstaked;
        self.staked_timestamp = 0;
        Ok((payout, tax))
    }

    /// Ends a Loot stake at `timestamp` and returns the reward
    /// `points * (loot_accrued_rewards - peg)`, which is added to the lifetime
    /// Loot rewards; the staked time is added to the experience and the Loot
    /// cooldown is recorded. Fails with `NotStaked` unless staked in the Loot,
    /// or with `InvalidComputation` on any arithmetic fault; on failure
    /// nothing changes.
    pub fn unstake_loot(&mut self, timestamp: i64, cooldown: u64, loot_accrued_rewards: u128) -> (r:
        Result<u64, QstakingErrors>)
        ensures
            settles_with(
                old(self).unstake_loot_spec(timestamp, cooldown, loot_accrued_rewards),
                *old(self),
                *final(self),
                r,
            ),
    {
        if self.staked != StakeStatus::InLoot {
            return Err(QstakingErrors::NotStaked);
        }
        let reward = match self.reward_owed(loot_accrued_rewards) {
            Ok(g) => g,
            Err(e) => return Err(e),
        };
        let until = match cooldown_until(timestamp, cooldown) {
            Ok(t) => t,
            Err(e) => return Err(e),
        };
        if self.looting_rewards > u128::MAX - reward as u128 {
            return Err(QstakingErrors::InvalidComputation);
        }
        let xp = match experience_after(self.experience, self.staked_timestamp, timestamp) {
            Ok(x) => x,
            Err(e) => return Err(e),
        };
        self.loot_cooldown_timestamp = until;
        self.looting_rewards = self.looting_rewards + reward as u128;
        self.experience = xp;
        self.staked = StakeStatus::Unstaked;
        self.staked_timestamp = 0;
        Ok(reward)
    }
}

fn cooldown_until(now: i64, cooldown: u64) -> (r: Result<i64, QstakingErrors>)
    ensures
        r == cooldown_until_spec(now, cooldown),
{
    if cooldown > i64::MAX as u64 {
        return Err(QstakingErrors::InvalidComputation);
    }
    let c: i64 = cooldown as i64;
    if now > i64::MAX - c {
        return Err(QstakingErrors::InvalidComputation);
    }
    Ok(now + c)
}

fn experience_after(experience: u64, since: i64, now: i64) -> (r: Result<u64, QstakingErrors>)
    ensures
        r == experience_after_spec(experience, since, now),
{
    if now < since {
        return Err(QstakingErrors::InvalidComputation);
    }
    let staked_for: u64 = (now as i128 - since as i128) as u64;
    if experience > u64::MAX - staked_for {
        return Err(QstakingErrors::InvalidComputation);
    }
    Ok(experience + staked_for)
}

} // verus!
