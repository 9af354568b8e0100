use vstd::prelude::*;
use crate::admin::AdminSettings;
use crate::whitelist::Whitelist;
use crate::character::Character;
use crate::errors::QstakingErrors;
use crate::identity::Identity;
use crate::loot::Loot;
use crate::mine::Mine;

verus! {

/// Whether `authority` is the program's upgrade authority.
pub open spec fn is_upgrade_authority(upgrade_authority: Option<Identity>, authority: Identity) -> bool {
    upgrade_authority matches Some(u) && u.matches_key(authority)
}

fn check_upgrade_authority(upgrade_authority: &Option<Identity>, authority: &Identity) -> (r: bool)
    ensures
        r == is_upgrade_authority(*upgrade_authority, *authority),
{
    match upgrade_authority {
        Some(u) => u.same_as(authority),
        None => false,
    }
}

/// Creates the administrator record naming `admin_key`; only the program's
/// upgrade authority may.
pub fn init_admin(
    admin_settings: &mut AdminSettings,
    bump: u8,
    admin_key: Identity,
    authority: &Identity,
    upgrade_authority: &Option<Identity>,
) -> (r: Result<(), QstakingErrors>)
    ensures
        is_upgrade_authority(*upgrade_authority, *authority) ==> r is Ok && *final(admin_settings)
            == (AdminSettings { bump, admin_key }),
        !is_upgrade_authority(*upgrade_authority, *authority) ==> r == Err::<(), QstakingErrors>(
            QstakingErrors::Unauthorized,
        ) && *final(admin_settings) == *old(admin_settings),
{
    if !check_upgrade_authority(upgrade_authority, authority) {
        return Err(QstakingErrors::Unauthorized);
    }
    admin_settings.bump = bump;
    admin_settings.admin_key = admin_key;
    Ok(())
}

/// Replaces the administrator; only the program's upgrade authority may.
pub fn set_admin(
    admin_settings: &mut AdminSettings,
    admin_key: Identity,
    authority: &Identity,
    upgrade_authority: &Option<Identity>,
) -> (r: Result<(), QstakingErrors>)
    ensures
        is_upgrade_authority(*upgrade_authority, *authority) ==> r is Ok && *final(admin_settings)
            == (AdminSettings { admin_key, ..*old(admin_settings) }),
        !is_upgrade_authority(*upgrade_authority, *authority) ==> r == Err::<(), QstakingErrors>(
            QstakingErrors::Unauthorized,
        ) && *final(admin_settings) == *old(admin_settings),
{
    if !check_upgrade_authority(upgrade_authority, authority) {
        return Err(QstakingErrors::Unauthorized);
    }
    admin_settings.admin_key = admin_key;
    Ok(())
}

/// Fills a new allow-list entry of type `whitelist_type`; only the
/// administrator may, and only types 0 and 1 exist.
pub fn add_whitelist(
    admin_settings: &AdminSettings,
    authority: &Identity,
    whitelist: &mut Whitelist,
    bump: u8,
    whitelist_type: u8,
) -> (r: Result<(), QstakingErrors>)
    ensures
        !admin_settings.admits(*authority) ==> r == Err::<(), QstakingErrors>(
            QstakingErrors::Unauthorized,
        ),
        admin_settings.admits(*authority) && whitelist_type >= 2 ==> r == Err::<(), QstakingErrors>(
            QstakingErrors::InvalidWhitelistType,
        ),
        r is Err ==> *final(whitelist) == *old(whitelist),
        admin_settings.admits(*authority) && whitelist_type < 2 ==> r is Ok && *final(whitelist)
            == (Whitelist { bump, whitelist_type }),
{
    if !admin_settings.is_admin(authority) {
        return Err(QstakingErrors::Unauthorized);
    }
    if whitelist_type >= 2 {
        return Err(QstakingErrors::InvalidWhitelistType);
    }
    whitelist.bump = bump;
    whitelist.whitelist_type = whitelist_type;
    Ok(())
}

/// Authorises closing an allow-list entry; only the administrator may.
pub fn remove_whitelist(admin_settings: &AdminSettings, authority: &Identity) -> (r: Result<
    (),
    QstakingErrors,
>)
    ensures
        admin_settings.admits(*authority) <==> r is Ok,
        r is Err ==> r == Err::<(), QstakingErrors>(QstakingErrors::Unauthorized),
{
    if !admin_settings.is_admin(authority) {
        return Err(QstakingErrors::Unauthorized);
    }
    Ok(())
}

/// Creates the Mine and the Loot, both locked, with their managers; only the
/// administrator may.
pub fn init_pools(
    admin_settings: &AdminSettings,
    authority: &Identity,
    mine: &mut Mine,
    loot: &mut Loot,
    mine_bump: u8,
    loot_bump: u8,
    mine_manager: Identity,
    loot_manager: Identity,
    mint: Identity,
) -> (r: Result<(), QstakingErrors>)
    ensures
        admin_settings.admits(*authority) ==> r is Ok && *final(mine) == Mine::initial(
            mine_bump,
            mine_manager,
            mint,
        ) && *final(loot) == Loot::initial(loot_bump, loot_manager),
        !admin_settings.admits(*authority) ==> r == Err::<(), QstakingErrors>(
            QstakingErrors::Unauthorized,
        ) && *final(mine) == *old(mine) && *final(loot) == *old(loot),
{
    if !admin_settings.is_admin(authority) {
        return Err(QstakingErrors::Unauthorized);
    }
    *mine = Mine::new(mine_bump, mine_manager, mint);
    *loot = Loot::new(loot_bump, loot_manager);
    Ok(())
}

/// Creates the stake position of a collectible. The caller must hold exactly
/// one unit of it (`NotHolder` otherwise) and it must pass the allow-list,
/// whose decision is `membership`.
pub fn init_character(
    character: &mut Character,
    bump: u8,
    nft_amount: u64,
    membership: Result<(), QstakingErrors>,
) -> (r: Result<(), QstakingErrors>)
    ensures
        nft_amount != 1 ==> r == Err::<(), QstakingErrors>(QstakingErrors::NotHolder),
        nft_amount == 1 && membership is Err ==> r == membership,
        r is Err ==> *final(character) == *old(character),
        nft_amount == 1 && membership is Ok ==> r is Ok && *final(character) == Character::initial(
            bump,
        ),
{
    if nft_amount != 1 {
        return Err(QstakingErrors::NotHolder);
    }
    match membership {
        Ok(()) => {},
        Err(e) => return Err(e),
    }
    character.initialize(bump)
}

} // verus!
