use qstaking::accrual::accrue;
use qstaking::character::Character;
use qstaking::errors::QstakingErrors;
use qstaking::identity::Identity;
use qstaking::loot::Loot;
use qstaking::mine::Mine;
use qstaking::{loot_staking, mine_staking};

fn key(b: u8) -> Identity {
    Identity::new([b; 32])
}

#[test]
fn accrual_gain_and_cap() {
    assert_eq!(accrue(5, 10, 3, 20, None), Ok(35));
    assert_eq!(accrue(5, 10, 3, 20, Some(7)), Ok(12));
    assert_eq!(accrue(5, 10, 3, 9, None), Err(QstakingErrors::InvalidComputation));
    assert_eq!(accrue(u128::MAX, 0, 1, 1, None), Err(QstakingErrors::InvalidComputation));
    assert_eq!(accrue(0, i64::MIN, u64::MAX, i64::MAX, None), Ok(u64::MAX as u128 * u64::MAX as u128));
}

#[test]
fn mine_join_and_leave() {
    let mut mine = Mine::new(0, key(1), key(2));
    mine.rate = 2;
    mine.add_character(10, 5).unwrap();
    assert_eq!((mine.staked_characters, mine.staked_points, mine.accrued_rewards), (1, 5, 20));
    mine.remove_character(20, 5).unwrap();
    assert_eq!((mine.staked_characters, mine.staked_points, mine.accrued_rewards), (0, 0, 40));
    assert_eq!(mine.remove_character(30, 1), Err(QstakingErrors::InvalidComputation));
    assert_eq!(mine.accrued_timestamp, 20);
    mine.staked_points = u64::MAX;
    assert_eq!(mine.add_character(30, 1), Err(QstakingErrors::InvalidComputation));
    assert_eq!(mine.staked_characters, 0);
}

#[test]
fn mine_initialize_resets() {
    let mut mine = Mine::new(0, key(1), key(2));
    mine.rate = 9;
    mine.locked = false;
    mine.initialize(4, &key(3), &key(5)).unwrap();
    assert!(mine.locked);
    assert_eq!((mine.bump, mine.rate), (4, 0));
    assert!(mine.manager.same_as(&key(3)) && mine.mint.same_as(&key(5)));
    let mut loot = Loot::new(0, key(1));
    loot.fund = 5;
    loot.initialize(6, &key(8)).unwrap();
    assert_eq!((loot.bump, loot.fund), (6, 0));
    assert!(loot.manager.same_as(&key(8)));
}

#[test]
fn loot_rate_recomputation() {
    let mut loot = Loot::new(0, key(1));
    loot.fund = 1000;
    loot.recompute_rate().unwrap();
    assert_eq!(loot.rate, 0);
    loot.staked_points = 3;
    assert_eq!(loot.recompute_rate(), Err(QstakingErrors::InvalidComputation));
    loot.duration = 7;
    loot.recompute_rate().unwrap();
    assert_eq!(loot.rate, 1000 / 7 / 3);
    loot.fund = u128::MAX;
    loot.duration = 1;
    loot.staked_points = 1;
    assert_eq!(loot.recompute_rate(), Err(QstakingErrors::InvalidComputation));
    assert_eq!(loot.rate, 1000 / 7 / 3);
}

#[test]
fn loot_join_without_duration_faults() {
    let mut loot = Loot::new(0, key(1));
    loot.locked = false;
    loot.fund = 10;
    let mut c = Character::new(0);
    assert_eq!(
        loot_staking::stake(&mut loot, &mut c, 0, 1, Ok(())),
        Err(QstakingErrors::InvalidComputation)
    );
    assert_eq!(loot.staked_points, 0);
    assert!(c.staked == qstaking::character::StakeStatus::Unstaked);
}

#[test]
fn loot_funding_and_leaving() {
    let mut loot = Loot::new(0, key(1));
    loot.duration = 10;
    loot.add_funds(0, 500).unwrap();
    assert_eq!((loot.fund, loot.rate), (500, 0));
    loot.add_character(0, 5).unwrap();
    assert_eq!(loot.rate, 10);
    loot.add_funds(10, 500).unwrap();
    assert_eq!(loot.accrued_rewards, 100);
    assert_eq!((loot.fund, loot.rate), (1000, 20));
    loot.remove_character(5, 500).unwrap();
    assert_eq!((loot.fund, loot.rate, loot.staked_points, loot.staked_characters), (500, 0, 0, 0));
}

#[test]
fn stakes_are_gated() {
    let mut mine = Mine::new(0, key(1), key(2));
    let mut loot = Loot::new(0, key(1));
    loot.duration = 10;
    let mut c = Character::new(0);
    assert_eq!(mine_staking::stake(&mut mine, &mut c, 0, 1, Ok(())), Err(QstakingErrors::StakingPoolLocked));
    assert_eq!(loot_staking::stake(&mut loot, &mut c, 0, 1, Ok(())), Err(QstakingErrors::StakingPoolLocked));
    mine.locked = false;
    loot.locked = false;
    assert_eq!(mine_staking::stake(&mut mine, &mut c, 0, 0, Ok(())), Err(QstakingErrors::NotHolder));
    assert_eq!(loot_staking::stake(&mut loot, &mut c, 0, 2, Ok(())), Err(QstakingErrors::NotHolder));
    assert_eq!(
        mine_staking::stake(&mut mine, &mut c, 0, 1, Err(QstakingErrors::InvalidMetadataAccount)),
        Err(QstakingErrors::InvalidMetadataAccount)
    );
    assert_eq!(mine.staked_characters, 0);
    loot_staking::stake(&mut loot, &mut c, 0, 1, Ok(())).unwrap();
    assert_eq!(mine_staking::stake(&mut mine, &mut c, 0, 1, Ok(())), Err(QstakingErrors::AlreadyStaked));
    assert_eq!(loot_staking::stake(&mut loot, &mut c, 0, 1, Ok(())), Err(QstakingErrors::AlreadyStaked));
    let mut other = Loot::new(0, key(1));
    assert_eq!(mine_staking::unstake(&mut mine, &mut other, &mut c, 5, 1), Err(QstakingErrors::NotStaked));
    assert_eq!(loot_staking::unstake(&mut loot, &mut c, 5, 0), Err(QstakingErrors::NotHolder));
    assert_eq!(mine_staking::unstake(&mut mine, &mut other, &mut c, 5, 0), Err(QstakingErrors::NotHolder));
}
