use vstd::prelude::*;
use crate::admin::AdminSettings;
use crate::errors::{QstakingErrors, settles};
use crate::identity::Identity;
use crate::loot::Loot;

verus! {

/// Replaces the Loot's manager; only the administrator may.
pub fn set_manager(
    admin_settings: &AdminSettings,
    authority: &Identity,
    loot: &mut Loot,
    manager: Identity,
) -> (r: Result<(), QstakingErrors>)
    ensures
        admin_settings.admits(*authority) ==> r is Ok && *final(loot) == (Loot { manager, ..*old(loot) }),
        !admin_settings.admits(*authority) ==> r == Err::<(), QstakingErrors>(
            QstakingErrors::Unauthorized,
        ) && *final(loot) == *old(loot),
{
    if !admin_settings.is_admin(authority) {
        return Err(QstakingErrors::Unauthorized);
    }
    loot.manager = manager;
    Ok(())
}

/// Opens or closes the Loot to new stakes; only its manager may.
pub fn set_locked(loot: &mut Loot, manager: &Identity, locked: bool) -> (r: Result<
    (),
    QstakingErrors,
>)
    ensures
        old(loot).manager.matches_key(*manager) ==> r is Ok && *final(loot) == (Loot { locked, ..*old(loot) }),
        !old(loot).manager.matches_key(*manager) ==> r == Err::<(), QstakingErrors>(
            QstakingErrors::Unauthorized,
        ) && *final(loot) == *old(loot),
{
    if !loot.manager.same_as(manager) {
        return Err(QstakingErrors::Unauthorized);
    }
    loot.locked = locked;
    Ok(())
}

/// Sets the Loot's distribution duration, price and cooldown at `now`; only
/// its manager may. A zero duration is refused with `InvalidLootDuration`.
/// The index is brought forward first, then the rate is derived for the new
/// duration.
pub fn set_parameters(
    loot: &mut Loot,
    manager: &Identity,
    now: i64,
    duration: u64,
    price: u64,
    cooldown: u64,
) -> (r: Result<(), QstakingErrors>)
    ensures
        old(loot).manager.matches_key(*manager) ==> settles(
            old(loot).configured(now, duration, price, cooldown),
            *old(loot),
            *final(loot),
            r,
        ),
        !old(loot).manager.matches_key(*manager) ==> r == Err::<(), QstakingErrors>(
            QstakingErrors::Unauthorized,
        ) && *final(loot) == *old(loot),
{
    if !loot.manager.same_as(manager) {
        return Err(QstakingErrors::Unauthorized);
    }
    loot.configure(now, duration, price, cooldown)
}

/// Brings the Loot's reward index forward to `now`; anyone may.
pub fn update(loot: &mut Loot, now: i64) -> (r: Result<(), QstakingErrors>)
    ensures
        settles(old(loot).advanced(now), *old(loot), *final(loot), r),
{
    loot.update_accrued_rewards(now)
}

} // verus!
