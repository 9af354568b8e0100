use qstaking::admin::AdminSettings;
use qstaking::whitelist::Whitelist;
use qstaking::character::{Character, StakeStatus, DEFAULT_CAPACITY};
use qstaking::errors::{ErrorKind, QstakingErrors};
use qstaking::identity::Identity;
use qstaking::loot::Loot;
use qstaking::mine::Mine;
use qstaking::{loot_config, mine_config, program_config};

fn key(b: u8) -> Identity {
    Identity::new([b; 32])
}

fn admin() -> AdminSettings {
    AdminSettings { bump: 1, admin_key: key(7) }
}

#[test]
fn identities_compare_by_bytes() {
    let mut bytes = [3u8; 32];
    assert!(key(3).same_as(&Identity::new(bytes)));
    bytes[31] = 4;
    assert!(!key(3).same_as(&Identity::new(bytes)));
}

#[test]
fn admin_record_needs_upgrade_authority() {
    let mut settings = AdminSettings { bump: 0, admin_key: key(0) };
    let err = program_config::init_admin(&mut settings, 5, key(7), &key(8), &Some(key(9))).unwrap_err();
    assert_eq!(err, QstakingErrors::Unauthorized);
    assert_eq!(err.kind(), ErrorKind::AuthorizationFault);
    assert_eq!(
        program_config::init_admin(&mut settings, 5, key(7), &key(8), &None),
        Err(QstakingErrors::Unauthorized)
    );
    assert!(settings.admin_key.same_as(&key(0)));
    program_config::init_admin(&mut settings, 5, key(7), &key(9), &Some(key(9))).unwrap();
    assert_eq!(settings.bump, 5);
    assert!(settings.admin_key.same_as(&key(7)));
    program_config::set_admin(&mut settings, key(6), &key(9), &Some(key(9))).unwrap();
    assert!(settings.admin_key.same_as(&key(6)));
    assert_eq!(
        program_config::set_admin(&mut settings, key(5), &key(6), &Some(key(9))),
        Err(QstakingErrors::Unauthorized)
    );
    assert!(settings.admin_key.same_as(&key(6)));
}

#[test]
fn whitelist_entries_need_admin_and_known_type() {
    let settings = admin();
    let mut entry = Whitelist { bump: 0, whitelist_type: 9 };
    assert_eq!(
        program_config::add_whitelist(&settings, &key(1), &mut entry, 3, 0),
        Err(QstakingErrors::Unauthorized)
    );
    assert_eq!(
        program_config::add_whitelist(&settings, &key(7), &mut entry, 3, 2),
        Err(QstakingErrors::InvalidWhitelistType)
    );
    assert_eq!(entry.whitelist_type, 9);
    program_config::add_whitelist(&settings, &key(7), &mut entry, 3, 1).unwrap();
    assert_eq!((entry.bump, entry.whitelist_type), (3, 1));
    assert_eq!(program_config::remove_whitelist(&settings, &key(7)), Ok(()));
    assert_eq!(
        program_config::remove_whitelist(&settings, &key(8)),
        Err(QstakingErrors::Unauthorized)
    );
}

#[test]
fn pools_start_locked_and_empty() {
    let settings = admin();
    let mut mine = Mine::new(0, key(0), key(0));
    mine.rate = 50;
    let mut loot = Loot::new(0, key(0));
    loot.fund = 50;
    assert_eq!(
        program_config::init_pools(&settings, &key(1), &mut mine, &mut loot, 2, 3, key(4), key(5), key(6)),
        Err(QstakingErrors::Unauthorized)
    );
    assert_eq!(mine.rate, 50);
    program_config::init_pools(&settings, &key(7), &mut mine, &mut loot, 2, 3, key(4), key(5), key(6))
        .unwrap();
    assert!(mine.locked && loot.locked);
    assert_eq!((mine.bump, loot.bump), (2, 3));
    assert!(mine.manager.same_as(&key(4)) && loot.manager.same_as(&key(5)));
    assert!(mine.mint.same_as(&key(6)));
    assert_eq!((mine.rate, loot.fund, loot.duration), (0, 0, 0));
    assert_eq!((mine.staked_points, loot.staked_points), (0, 0));
}

#[test]
fn positions_need_holder_and_membership() {
    let mut c = Character::new(0);
    c.points = 40;
    assert_eq!(
        program_config::init_character(&mut c, 4, 0, Ok(())),
        Err(QstakingErrors::NotHolder)
    );
    assert_eq!(
        program_config::init_character(&mut c, 4, 1, Err(QstakingErrors::InvalidWhitelistProof)),
        Err(QstakingErrors::InvalidWhitelistProof)
    );
    assert_eq!(c.points, 40);
    program_config::init_character(&mut c, 4, 1, Ok(())).unwrap();
    assert_eq!((c.bump, c.level, c.points, c.capacity), (4, 1, 1, DEFAULT_CAPACITY));
    assert_eq!(c.staked, StakeStatus::Unstaked);
    assert_eq!((c.mining_rewards, c.looting_rewards, c.experience), (0, 0, 0));
}

#[test]
fn manager_only_configuration() {
    let settings = admin();
    let mut mine = Mine::new(0, key(1), key(9));
    assert_eq!(mine_config::set_locked(&mut mine, &key(2), false), Err(QstakingErrors::Unauthorized));
    assert!(mine.locked);
    assert_eq!(
        mine_config::set_parameters(&mut mine, &key(2), 5, 3, 4, 5),
        Err(QstakingErrors::Unauthorized)
    );
    mine_config::set_parameters(&mut mine, &key(1), 5, 3, 4, 5).unwrap();
    assert_eq!((mine.rate, mine.price, mine.cooldown, mine.accrued_timestamp), (3, 4, 5, 5));
    assert_eq!(mine_config::set_manager(&settings, &key(1), &mut mine, key(3)), Err(QstakingErrors::Unauthorized));
    mine_config::set_manager(&settings, &key(7), &mut mine, key(3)).unwrap();
    assert!(mine.manager.same_as(&key(3)));
    mine_config::update(&mut mine, 15).unwrap();
    assert_eq!(mine.accrued_rewards, 30);

    let mut loot = Loot::new(0, key(2));
    assert_eq!(loot_config::set_locked(&mut loot, &key(1), false), Err(QstakingErrors::Unauthorized));
    let err = loot_config::set_parameters(&mut loot, &key(2), 5, 0, 1, 1).unwrap_err();
    assert_eq!(err, QstakingErrors::InvalidLootDuration);
    assert_eq!(err.kind(), ErrorKind::PreconditionViolation);
    assert_eq!(loot.accrued_timestamp, 0);
    loot_config::set_parameters(&mut loot, &key(2), 5, 100, 1, 2).unwrap();
    assert_eq!((loot.duration, loot.price, loot.cooldown, loot.accrued_timestamp), (100, 1, 2, 5));
    loot_config::set_manager(&settings, &key(7), &mut loot, key(4)).unwrap();
    assert!(loot.manager.same_as(&key(4)));
    loot_config::set_locked(&mut loot, &key(4), false).unwrap();
    assert!(!loot.locked);
    loot_config::update(&mut loot, 9).unwrap();
    assert_eq!(loot.accrued_timestamp, 9);
}

#[test]
fn error_kinds() {
    assert_eq!(QstakingErrors::InvalidComputation.kind(), ErrorKind::ArithmeticFault);
    assert_eq!(QstakingErrors::NotHolder.kind(), ErrorKind::PreconditionViolation);
    assert_eq!(QstakingErrors::StakingPoolLocked.kind(), ErrorKind::PreconditionViolation);
    assert_eq!(QstakingErrors::Unauthorized.kind(), ErrorKind::AuthorizationFault);
}
