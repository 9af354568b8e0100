use vstd::prelude::*;
use crate::accrual::{accrue, accrue_spec};
use crate::errors::{QstakingErrors, settles};
use crate::identity::Identity;

verus! {

/// The capped, fund-limited pool. Its rate is derived from the remaining
/// fund, the distribution duration and the staked weight, and is recomputed
/// whenever the fund or the weight changes.
#[derive(Clone, Copy, Debug)]
pub struct Loot {
    pub bump: u8,
    /// Gate on new stakes; does not affect staked positions or unstaking.
    pub locked: bool,
    pub manager: Identity,
    /// Remaining undistributed reward reserve.
    pub fund: u128,
    /// Seconds over which the fund is meant to be distributed.
    pub duration: u64,
    /// Reward units per staked point per second; always derived.
    pub rate: u64,
    pub price: u64,
    /// Recorded as the restake cooldown of positions leaving the pool.
    pub cooldown: u64,
    pub staked_characters: u16,
    pub staked_points: u64,
    /// Cumulative reward per point since the pool was created.
    pub accrued_rewards: u128,
    /// When `accrued_rewards` was last brought forward.
    pub accrued_timestamp: i64,
}

/// The Loot rate for a fund, duration and staked weight:
/// `fund / duration / points`, rounded down at each step. With no staked
/// weight the rate is 0; a zero duration with staked weight, or a rate that
/// does not fit in 64 bits, is a fault.
pub open spec fn loot_rate_spec(fund: u128, duration: u64, points: u64) -> Result<u64, QstakingErrors> {
    if points == 0 {
        Ok(0)
    } else if duration == 0 || fund as int / duration as int / points as int > u64::MAX {
        Err(QstakingErrors::InvalidComputation)
    } else {
        Ok((fund as int / duration as int / points as int) as u64)
    }
}

impl Loot {
    /// A fresh, locked, unfunded pool.
    pub open spec fn initial(bump: u8, manager: Identity) -> Loot {
        Loot {
            bump,
            locked: true,
            manager,
            fund: 0,
            duration: 0,
            rate: 0,
            price: 0,
            cooldown: 0,
            staked_characters: 0,
            staked_points: 0,
            accrued_rewards: 0,
            accrued_timestamp: 0,
        }
    }

    /// The largest gain per point one index update may add: what the fund
    /// can still pay at the current weight, and nothing when no weight is
    /// staked.
    pub open spec fn accrual_cap(self) -> u128 {
        if self.staked_points > 0 {
            (self.fund as int / self.staked_points as int) as u128
        } else {
            0
        }
    }

    /// The pool with its index brought forward to `now`.
    pub open spec fn advanced(self, now: i64) -> Result<Loot, QstakingErrors> {
        match accrue_spec(
            self.accrued_rewards,
            self.accrued_timestamp,
            self.rate,
            now,
            Some(self.accrual_cap()),
        ) {
            Err(e) => Err(e),
            Ok(index) => Ok(Loot { accrued_rewards: index, accrued_timestamp: now, ..self }),
        }
    }

    /// The pool with its rate derived anew from its fund and weight.
    pub open spec fn rebalanced(self) -> Result<Loot, QstakingErrors> {
        match loot_rate_spec(self.fund, self.duration, self.staked_points) {
            Err(e) => Err(e),
            Ok(rate) => Ok(Loot { rate, ..self }),
        }
    }

    /// The pool after a position of weight `points` joins at `now`.
    pub open spec fn joined(self, now: i64, points: u64) -> Result<Loot, QstakingErrors> {
        match self.advanced(now) {
            Err(e) => Err(e),
            Ok(l) => if l.staked_characters + 1 > u16::MAX || l.staked_points + points > u64::MAX {
                Err(QstakingErrors::InvalidComputation)
            } else {
                Loot {
                    staked_characters: (l.staked_characters + 1) as u16,
                    staked_points: (l.staked_points + points) as u64,
                    ..l
                }.rebalanced()
            },
        }
    }

    /// The pool after a position of weight `points` that was paid `reward`
    /// leaves. The index is not brought forward here: the caller did so
    /// before computing the reward.
    pub open spec fn left(self, points: u64, reward: u64) -> Result<Loot, QstakingErrors> {
        if self.staked_characters < 1 || self.staked_points < points || self.fund < reward {
            Err(QstakingErrors::InvalidComputation)
        } else {
            Loot {
                staked_characters: (self.staked_characters - 1) as u16,
                staked_points: (self.staked_points - points) as u64,
                fund: (self.fund - reward) as u128,
                ..self
            }.rebalanced()
        }
    }

    /// The pool after `amount` is added to its fund at `now`.
    pub open spec fn funded(self, now: i64, amount: u64) -> Result<Loot, QstakingErrors> {
        match self.advanced(now) {
            Err(e) => Err(e),
            Ok(l) => if l.fund + amount > u128::MAX {
                Err(QstakingErrors::InvalidComputation)
            } else {
                Loot { fund: (l.fund + amount) as u128, ..l }.rebalanced()
            },
        }
    }

    /// The pool after its parameters are changed at `now`.
    pub open spec fn configured(self, now: i64, duration: u64, price: u64, cooldown: u64) -> Result<
        Loot,
        QstakingErrors,
    > {
        if duration == 0 {
            Err(QstakingErrors::InvalidLootDuration)
        } else {
            match self.advanced(now) {
                Err(e) => Err(e),
                Ok(l) => Loot { duration, price, cooldown, ..l }.rebalanced(),
            }
        }
    }

    /// A fresh, locked, unfunded pool managed by `manager`.
    pub fn new(bump: u8, manager: Identity) -> (l: Loot)
        ensures
            l == Loot::initial(bump, manager),
    {
        Loot {
            bump,
            locked: true,
            manager,
            fund: 0,
            duration: 0,
            rate: 0,
            price: 0,
            cooldown: 0,
            staked_characters: 0,
            staked_points: 0,
            accrued_rewards: 0,
            accrued_timestamp: 0,
        }
    }

    /// Resets the pool to a fresh, locked, unfunded one.
    pub fn initialize(&mut self, bump: u8, manager: &Identity) -> (r: Result<(), QstakingErrors>)
        ensures
            r is Ok,
            *final(self) == Loot::initial(bump, *manager),
    {
        *self = Loot::new(bump, *manager);
        Ok(())
    }

    /// Brings the reward index forward to `timestamp`. The gain is
    /// `rate * (timestamp - accrued_timestamp)`, capped at
    /// `fund / staked_points`; with nothing staked the index stays put.
    /// Fails with `InvalidComputation`, changing nothing, when `timestamp` is
    /// earlier than the last update or the index would overflow.
    pub fn update_accrued_rewards(&mut self, timestamp: i64) -> (r: Result<(), QstakingErrors>)
        ensures
            settles(old(self).advanced(timestamp), *old(self), *final(self), r),
            r is Ok ==> final(self).accrued_rewards >= old(self).accrued_rewards,
            old(self).staked_points == 0 && old(self).accrued_timestamp <= timestamp ==> r is Ok
                && final(self).accrued_rewards == old(self).accrued_rewards,
    {
        let cap: u128 = if self.staked_points > 0 {
            self.fund / self.staked_points as u128
        } else {
            0
        };
        let index = match accrue(
            self.accrued_rewards,
            self.accrued_timestamp,
            self.rate,
            timestamp,
            Some(cap),
        ) {
            Ok(i) => i,
            Err(e) => return Err(e),
        };
        self.accrued_rewards = index;
        self.accrued_timestamp = timestamp;
        Ok(())
    }

    /// Derives the rate anew: `fund / duration / staked_points`, or 0 with
    /// nothing staked.
    pub fn recompute_rate(&mut self) -> (r: Result<(), QstakingErrors>)
        ensures
            settles(old(self).rebalanced(), *old(self), *final(self), r),
    {
        if self.staked_points == 0 {
            self.rate = 0;
            return Ok(());
        }
        if self.duration == 0 {
            return Err(QstakingErrors::InvalidComputation);
        }
        let rate: u128 = self.fund / (self.duration as u128) / (self.staked_points as u128);
        if rate > u64::MAX as u128 {
            return Err(QstakingErrors::InvalidComputation);
        }
        self.rate = rate as u64;
        Ok(())
    }

    /// Brings the index forward to `timestamp`, adds `amount` to the fund
    /// and derives the rate anew.
    pub fn add_funds(&mut self, timestamp: i64, amount: u64) -> (r: Result<(), QstakingErrors>)
        ensures
            settles(old(self).funded(timestamp, amount), *old(self), *final(self), r),
    {
        let mut next = *self;
        match next.update_accrued_rewards(timestamp) {
            Ok(()) => {},
            Err(e) => return Err(e),
        }
        if next.fund > u128::MAX - amount as u128 {
            return Err(QstakingErrors::InvalidComputation);
        }
        next.fund = next.fund + amount as u128;
        match next.recompute_rate() {
            Ok(()) => {},
            Err(e) => return Err(e),
        }
        *self = next;
        Ok(())
    }

    /// Brings the index forward to `timestamp`, counts a position of weight
    /// `points` in and derives the rate anew.
    pub fn add_character(&mut self, timestamp: i64, points: u64) -> (r: Result<(), QstakingErrors>)
        ensures
            settles(old(self).joined(timestamp, points), *old(self), *final(self), r),
    {
        let mut next = *self;
        match next.update_accrued_rewards(timestamp) {
            Ok(()) => {},
            Err(e) => return Err(e),
        }
        if next.staked_characters == u16::MAX || next.staked_points > u64::MAX - points {
            return Err(QstakingErrors::InvalidComputation);
        }
        next.staked_characters = next.staked_characters + 1;
        next.staked_points = next.staked_points + points;
        match next.recompute_rate() {
            Ok(()) => {},
            Err(e) => return Err(e),
        }
        *self = next;
        Ok(())
    }

    /// Counts a position of weight `points` out, takes the `reward` paid to
    /// it from the fund and derives the rate anew. Removing more weight than
    /// is staked, or paying more than the fund holds, is a fault.
    pub fn remove_character(&mut self, points: u64, reward: u64) -> (r: Result<(), QstakingErrors>)
        ensures
            settles(old(self).left(points, reward), *old(self), *final(self), r),
    {
        if self.staked_characters == 0 || self.staked_points < points || self.fund
            < reward as u128 {
            return Err(QstakingErrors::InvalidComputation);
        }
        let mut next = *self;
        next.staked_characters = next.staked_characters - 1;
        next.staked_points = next.staked_points - points;
        next.fund = next.fund - reward as u128;
        match next.recompute_rate() {
            Ok(()) => {},
            Err(e) => return Err(e),
        }
        *self = next;
        Ok(())
    }

    /// Sets the duration, price and cooldown at `timestamp`: the index is
    /// brought forward first and the rate is then derived for the new
    /// duration. A zero duration is refused with `InvalidLootDuration`.
    pub fn configure(&mut self, timestamp: i64, duration: u64, price: u64, cooldown: u64) -> (r:
        Result<(), QstakingErrors>)
        ensures
            settles(
                old(self).configured(timestamp, duration, price, cooldown),
                *old(self),
                *final(self),
                r,
            ),
    {
        if duration == 0 {
            return Err(QstakingErrors::InvalidLootDuration);
        }
        let mut next = *self;
        match next.update_accrued_rewards(timestamp) {
            Ok(()) => {},
            Err(e) => return Err(e),
        }
        next.duration = duration;
        next.price = price;
        next.cooldown = cooldown;
        match next.recompute_rate() {
            Ok(()) => {},
            Err(e) => return Err(e),
        }
        *self = next;
        Ok(())
    }
}

impl Loot {
    /// The pool after its index is brought forward to each time in `times`
    /// in turn.
    pub open spec fn advanced_through(self, times: Seq<i64>) -> Result<Loot, QstakingErrors>
        decreases times.len(),
    {
        if times.len() == 0 {
            Ok(self)
        } else {
            match self.advanced(times[0]) {
                Err(e) => Err(e),
                Ok(l) => l.advanced_through(times.subrange(1, times.len() as int)),
            }
        }
    }
}

/// Bringing the Loot's index forward twice to the same time changes the pool
/// exactly as doing it once.
pub proof fn lemma_loot_advance_idempotent(loot: Loot, now: i64)
    ensures
        loot.advanced(now) matches Ok(l) ==> l.advanced(now) == Ok::<Loot, QstakingErrors>(l),
{
    if let Ok(l) = loot.advanced(now) {
        assert(l.rate * (now - now) == 0);
        assert(l.advanced(now) == Ok::<Loot, QstakingErrors>(l));
    }
}

/// Over any sequence of index updates that succeeds, the Loot's index never
/// decreases, and the pool ends stamped with the last time.
pub proof fn lemma_loot_index_monotonic(loot: Loot, times: Seq<i64>)
    ensures
        loot.advanced_through(times) matches Ok(l) ==> l.accrued_rewards >= loot.accrued_rewards
            && (times.len() > 0 ==> l.accrued_timestamp == times.last()),
    decreases times.len(),
{
    if times.len() > 0 {
        if let Ok(l1) = loot.advanced(times[0]) {
            let rest = times.subrange(1, times.len() as int);
            lemma_loot_index_monotonic(l1, rest);
            if rest.len() > 0 {
                assert(rest.last() == times.last());
            }
        }
    }
}

} // verus!
