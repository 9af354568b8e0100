use vstd::prelude::*;
use crate::admin::AdminSettings;
use crate::errors::{QstakingErrors, settles};
use crate::identity::Identity;
use crate::mine::Mine;

verus! {

/// Replaces the Mine's manager; only the administrator may.
pub fn set_manager(
    admin_settings: &AdminSettings,
    authority: &Identity,
    mine: &mut Mine,
    manager: Identity,
) -> (r: Result<(), QstakingErrors>)
    ensures
        admin_settings.admits(*authority) ==> r is Ok && *final(mine) == (Mine { manager, ..*old(mine) }),
        !admin_settings.admits(*authority) ==> r == Err::<(), QstakingErrors>(
            QstakingErrors::Unauthorized,
        ) && *final(mine) == *old(mine),
{
    if !admin_settings.is_admin(authority) {
        return Err(QstakingErrors::Unauthorized);
    }
    mine.manager = manager;
    Ok(())
}

/// Opens or closes the Mine to new stakes; only its manager may.
pub fn set_locked(mine: &mut Mine, manager: &Identity, locked: bool) -> (r: Result<
    (),
    QstakingErrors,
>)
    ensures
        old(mine).manager.matches_key(*manager) ==> r is Ok && *final(mine) == (Mine { locked, ..*old(mine) }),
        !old(mine).manager.matches_key(*manager) ==> r == Err::<(), QstakingErrors>(
            QstakingErrors::Unauthorized,
        ) && *final(mine) == *old(mine),
{
    if !mine.manager.same_as(manager) {
        return Err(QstakingErrors::Unauthorized);
    }
    mine.locked = locked;
    Ok(())
}

/// Sets the Mine's rate, price and cooldown at `now`; only its manager may.
/// Rewards up to `now` accrue at the old rate.
pub fn set_parameters(
    mine: &mut Mine,
    manager: &Identity,
    now: i64,
    rate: u64,
    price: u64,
    cooldown: u64,
) -> (r: Result<(), QstakingErrors>)
    ensures
        old(mine).manager.matches_key(*manager) ==> settles(
            old(mine).configured(now, rate, price, cooldown),
            *old(mine),
            *final(mine),
            r,
        ),
        !old(mine).manager.matches_key(*manager) ==> r == Err::<(), QstakingErrors>(
            QstakingErrors::Unauthorized,
        ) && *final(mine) == *old(mine),
{
    if !mine.manager.same_as(manager) {
        return Err(QstakingErrors::Unauthorized);
    }
    mine.configure(now, rate, price, cooldown)
}

/// Brings the Mine's reward index forward to `now`; anyone may.
pub fn update(mine: &mut Mine, now: i64) -> (r: Result<(), QstakingErrors>)
    ensures
        settles(old(mine).advanced(now), *old(mine), *final(mine), r),
{
    mine.update_accrued_rewards(now)
}

} // verus!
