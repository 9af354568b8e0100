use vstd::prelude::*;
use crate::errors::QstakingErrors;

verus! {

/// Reward per point gained over `elapsed` seconds at `rate`, limited to `cap`
/// when a cap applies.
pub open spec fn accrual_gain(rate: u64, elapsed: int, cap: Option<u128>) -> int {
    let raw = rate * elapsed;
    match cap {
        Some(c) => if raw <= c { raw } else { c as int },
        None => raw,
    }
}

/// The reward index after bringing `index`, last updated at `at`, forward to
/// `now`. Fails when the clock has gone backwards or the index would overflow.
pub open spec fn accrue_spec(
    index: u128,
    at: i64,
    rate: u64,
    now: i64,
    cap: Option<u128>,
) -> Result<u128, QstakingErrors> {
    if now < at {
        Err(QstakingErrors::InvalidComputation)
    } else {
        let next = index + accrual_gain(rate, now - at, cap);
        if next > u128::MAX {
            Err(QstakingErrors::InvalidComputation)
        } else {
            Ok(next as u128)
        }
    }
}

/// Advances a cumulative reward-per-point index from `at` to `now`.
///
/// The gain is `rate * (now - at)`, computed without loss in 128 bits and
/// limited to `cap` when one is given.
pub fn accrue(index: u128, at: i64, rate: u64, now: i64, cap: Option<u128>) -> (r: Result<
    u128,
    QstakingErrors,
>)
    ensures
        r == accrue_spec(index, at, rate, now, cap),
        r is Ok ==> r->Ok_0 >= index,
{
    if now < at {
        return Err(QstakingErrors::InvalidComputation);
    }
    let elapsed: u64 = (now as i128 - at as i128) as u64;
    assert(elapsed == now - at);
    assert((rate as u128) * (elapsed as u128) <= u64::MAX * u64::MAX) by (nonlinear_arith)
        requires
            rate <= u64::MAX,
            elapsed <= u64::MAX,
    ;
    let raw: u128 = (rate as u128) * (elapsed as u128);
    let gain: u128 = match cap {
        Some(c) => if raw <= c {
            raw
        } else {
            c
        },
        None => raw,
    };
    if index > u128::MAX - gain {
        Err(QstakingErrors::InvalidComputation)
    } else {
        Ok(index + gain)
    }
}

} // verus!
