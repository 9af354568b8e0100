use vstd::prelude::*;
use crate::accrual::{accrue, accrue_spec};
use crate::errors::{QstakingErrors, settles};
use crate::identity::Identity;

verus! {

/// The uncapped, continuously minting pool. Its rate is a standing parameter
/// set by the manager; payouts are newly minted, so it holds no fund.
#[derive(Clone, Copy, Debug)]
pub struct Mine {
    pub bump: u8,
    /// Gate on new stakes; does not affect staked positions or unstaking.
    pub locked: bool,
    pub manager: Identity,
    /// The reward token this pool mints.
    pub mint: Identity,
    /// Reward units per staked point per second.
    pub rate: u64,
    pub price: u64,
    /// Recorded as the restake cooldown of positions leaving the pool.
    pub cooldown: u64,
    pub staked_characters: u16,
    pub staked_points: u64,
    /// Cumulative reward per point since the pool was created.
    pub accrued_rewards: u128,
    /// When `accrued_rewards` was last brought forward.
    pub accrued_timestamp: i64,
}

impl Mine {
    /// A fresh, locked pool with a zero rate.
    pub open spec fn initial(bump: u8, manager: Identity, mint: Identity) -> Mine {
        Mine {
            bump,
            locked: true,
            manager,
            mint,
            rate: 0,
            price: 0,
            cooldown: 0,
            staked_characters: 0,
            staked_points: 0,
            accrued_rewards: 0,
            accrued_timestamp: 0,
        }
    }

    /// The pool with its index brought forward to `now`.
    pub open spec fn advanced(self, now: i64) -> Result<Mine, QstakingErrors> {
        match accrue_spec(self.accrued_rewards, self.accrued_timestamp, self.rate, now, None) {
            Err(e) => Err(e),
            Ok(index) => Ok(Mine { accrued_rewards: index, accrued_timestamp: now, ..self }),
        }
    }

    /// The pool after a position of weight `points` joins at `now`.
    pub open spec fn joined(self, now: i64, points: u64) -> Result<Mine, QstakingErrors> {
        match self.advanced(now) {
            Err(e) => Err(e),
            Ok(m) => if m.staked_characters + 1 > u16::MAX || m.staked_points + points > u64::MAX {
                Err(QstakingErrors::InvalidComputation)
            } else {
                Ok(
                    Mine {
                        staked_characters: (m.staked_characters + 1) as u16,
                        staked_points: (m.staked_points + points) as u64,
                        ..m
                    },
                )
            },
        }
    }

    /// The pool after a position of weight `points` leaves at `now`.
    pub open spec fn left(self, now: i64, points: u64) -> Result<Mine, QstakingErrors> {
        match self.advanced(now) {
            Err(e) => Err(e),
            Ok(m) => if m.staked_characters < 1 || m.staked_points < points {
                Err(QstakingErrors::InvalidComputation)
            } else {
                Ok(
                    Mine {
                        staked_characters: (m.staked_characters - 1) as u16,
                        staked_points: (m.staked_points - points) as u64,
                        ..m
                    },
                )
            },
        }
    }

    /// The pool after its parameters are changed at `now`; the index is
    /// brought forward first, so a new rate applies only from `now` on.
    pub open spec fn configured(self, now: i64, rate: u64, price: u64, cooldown: u64) -> Result<
        Mine,
        QstakingErrors,
    > {
        match self.advanced(now) {
            Err(e) => Err(e),
            Ok(m) => Ok(Mine { rate, price, cooldown, ..m }),
        }
    }

    /// A fresh, locked pool managed by `manager` that mints `mint`.
    pub fn new(bump: u8, manager: Identity, mint: Identity) -> (m: Mine)
        ensures
            m == Mine::initial(bump, manager, mint),
    {
        Mine {
            bump,
            locked: true,
            manager,
            mint,
            rate: 0,
            price: 0,
            cooldown: 0,
            staked_characters: 0,
            staked_points: 0,
            accrued_rewards: 0,
            accrued_timestamp: 0,
        }
    }

    /// Resets the pool to a fresh, locked one.
    pub fn initialize(&mut self, bump: u8, manager: &Identity, mint: &Identity) -> (r: Result<
        (),
        QstakingErrors,
    >)
        ensures
            r is Ok,
            *final(self) == Mine::initial(bump, *manager, *mint),
    {
        *self = Mine::new(bump, *manager, *mint);
        Ok(())
    }

    /// Brings the reward index forward to `timestamp`: it grows by
    /// `rate * (timestamp - accrued_timestamp)`. Fails with
    /// `InvalidComputation`, changing nothing, when `timestamp` is earlier
    /// than the last update or the index would overflow.
    pub fn update_accrued_rewards(&mut self, timestamp: i64) -> (r: Result<(), QstakingErrors>)
        ensures
            settles(old(self).advanced(timestamp), *old(self), *final(self), r),
            r is Ok ==> final(self).accrued_rewards >= old(self).accrued_rewards,
    {
        let index = match accrue(
            self.accrued_rewards,
            self.accrued_timestamp,
            self.rate,
            timestamp,
            None,
        ) {
            Ok(i) => i,
            Err(e) => return Err(e),
        };
        self.accrued_rewards = index;
        self.accrued_timestamp = timestamp;
        Ok(())
    }

    /// Brings the index forward to `timestamp`, then counts a position of
    /// weight `mining_points` in.
    pub fn add_character(&mut self, timestamp: i64, mining_points: u64) -> (r: Result<
        (),
        QstakingErrors,
    >)
        ensures
            settles(old(self).joined(timestamp, mining_points), *old(self), *final(self), r),
    {
        let mut next = *self;
        match next.update_accrued_rewards(timestamp) {
            Ok(()) => {},
            Err(e) => return Err(e),
        }
        if next.staked_characters == u16::MAX || next.staked_points > u64::MAX - mining_points {
            return Err(QstakingErrors::InvalidComputation);
        }
        next.staked_characters = next.staked_characters + 1;
        next.staked_points = next.staked_points + mining_points;
        *self = next;
        Ok(())
    }

    /// Brings the index forward to `timestamp`, then counts a position of
    /// weight `mining_points` out. Removing more than is staked is a fault.
    pub fn remove_character(&mut self, timestamp: i64, mining_points: u64) -> (r: Result<
        (),
        QstakingErrors,
    >)
        ensures
            settles(old(self).left(timestamp, mining_points), *old(self), *final(self), r),
    {
        let mut next = *self;
        match next.update_accrued_rewards(timestamp) {
            Ok(()) => {},
            Err(e) => return Err(e),
        }
        if next.staked_characters == 0 || next.staked_points < mining_points {
            return Err(QstakingErrors::InvalidComputation);
        }
        next.staked_characters = next.staked_characters - 1;
        next.staked_points = next.staked_points - mining_points;
        *self = next;
        Ok(())
    }

    /// Brings the index forward to `timestamp`, then sets the rate, price
    /// and cooldown.
    pub fn configure(&mut self, timestamp: i64, rate: u64, price: u64, cooldown: u64) -> (r: Result<
        (),
        QstakingErrors,
    >)
        ensures
            settles(old(self).configured(timestamp, rate, price, cooldown), *old(self), *final(self), r),
    {
        match self.update_accrued_rewards(timestamp) {
            Ok(()) => {},
            Err(e) => return Err(e),
        }
        self.rate = rate;
        self.price = price;
        self.cooldown = cooldown;
        Ok(())
    }
}

impl Mine {
    /// The pool after its index is brought forward to each time in `times`
    /// in turn.
    pub open spec fn advanced_through(self, times: Seq<i64>) -> Result<Mine, QstakingErrors>
        decreases times.len(),
    {
        if times.len() == 0 {
            Ok(self)
        } else {
            match self.advanced(times[0]) {
                Err(e) => Err(e),
                Ok(m) => m.advanced_through(times.subrange(1, times.len() as int)),
            }
        }
    }
}

/// Bringing the Mine's index forward twice to the same time changes the pool
/// exactly as doing it once.
pub proof fn lemma_mine_advance_idempotent(mine: Mine, now: i64)
    ensures
        mine.advanced(now) matches Ok(m) ==> m.advanced(now) == Ok::<Mine, QstakingErrors>(m),
{
    if let Ok(m) = mine.advanced(now) {
        assert(m.rate * (now - now) == 0);
        assert(m.advanced(now) == Ok::<Mine, QstakingErrors>(m));
    }
}

/// Over any sequence of index updates that succeeds, the Mine's index never
/// decreases, and the pool ends stamped with the last time.
pub proof fn lemma_mine_index_monotonic(mine: Mine, times: Seq<i64>)
    ensures
        mine.advanced_through(times) matches Ok(m) ==> m.accrued_rewards >= mine.accrued_rewards
            && (times.len() > 0 ==> m.accrued_timestamp == times.last()),
    decreases times.len(),
{
    if times.len() > 0 {
        if let Ok(m1) = mine.advanced(times[0]) {
            let rest = times.subrange(1, times.len() as int);
            lemma_mine_index_monotonic(m1, rest);
            if rest.len() > 0 {
                assert(rest.last() == times.last());
            }
        }
    }
}

} // verus!
