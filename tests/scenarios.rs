use qstaking::character::{Character, StakeStatus};
use qstaking::errors::{ErrorKind, QstakingErrors};
use qstaking::identity::Identity;
use qstaking::loot::Loot;
use qstaking::mine::Mine;
use qstaking::{loot_config, loot_staking, mine_config, mine_staking};

fn key(b: u8) -> Identity {
    Identity::new([b; 32])
}

fn open_mine(rate: u64) -> Mine {
    let manager = key(1);
    let mut mine = Mine::new(0, manager, key(9));
    mine_config::set_parameters(&mut mine, &manager, 0, rate, 0, 0).unwrap();
    mine_config::set_locked(&mut mine, &manager, false).unwrap();
    mine
}

fn open_loot(duration: u64) -> Loot {
    let manager = key(2);
    let mut loot = Loot::new(0, manager);
    loot_config::set_parameters(&mut loot, &manager, 0, duration, 0, 0).unwrap();
    loot_config::set_locked(&mut loot, &manager, false).unwrap();
    loot
}

#[test]
fn mine_unstake_splits_reward_with_loot() {
    let mut mine = open_mine(10);
    let mut loot = Loot::new(0, key(2));
    let mut c = Character::new(0);
    c.points = 5;
    mine_staking::stake(&mut mine, &mut c, 0, 1, Ok(())).unwrap();
    assert_eq!(mine.staked_characters, 1);
    // strengths: 1 + 20 = 21 for the Mine, 0 + 5 = 5 for the Loot
    let (payout, tax) = mine_staking::unstake(&mut mine, &mut loot, &mut c, 100, 1).unwrap();
    assert_eq!(mine.accrued_rewards, 1000);
    assert_eq!(tax, 961);
    assert_eq!(payout, 4039);
    assert_eq!(loot.fund, 961);
    assert_eq!(c.mining_rewards, 4039);
    assert_eq!(c.experience, 100);
    assert_eq!(c.staked, StakeStatus::Unstaked);
    assert_eq!(c.staked_timestamp, 0);
    assert_eq!(mine.staked_points, 0);
    assert_eq!(mine.staked_characters, 0);
}

#[test]
fn loot_rate_follows_staked_weight() {
    let mut loot = open_loot(100);
    loot.add_funds(0, 1000).unwrap();
    let mut a = Character::new(0);
    a.points = 10;
    let mut b = Character::new(1);
    b.points = 10;
    loot_staking::stake(&mut loot, &mut a, 0, 1, Ok(())).unwrap();
    assert_eq!(loot.rate, 1);
    loot_staking::stake(&mut loot, &mut b, 0, 1, Ok(())).unwrap();
    assert_eq!(loot.rate, 0);
    assert_eq!(loot.staked_points, 20);
}

#[test]
fn advance_into_the_past_is_an_arithmetic_fault() {
    let mut mine = open_mine(10);
    mine.update_accrued_rewards(50).unwrap();
    let before = mine;
    let err = mine.update_accrued_rewards(49).unwrap_err();
    assert_eq!(err, QstakingErrors::InvalidComputation);
    assert_eq!(err.kind(), ErrorKind::ArithmeticFault);
    assert_eq!(mine.accrued_rewards, before.accrued_rewards);
    assert_eq!(mine.accrued_timestamp, 50);

    let mut loot = open_loot(100);
    loot.update_accrued_rewards(10).unwrap();
    assert_eq!(loot.update_accrued_rewards(9), Err(QstakingErrors::InvalidComputation));
    assert_eq!(loot.accrued_timestamp, 10);
}

#[test]
fn unstaking_an_unstaked_position_is_refused() {
    let mut mine = open_mine(10);
    let mut loot = open_loot(100);
    let mut c = Character::new(0);
    let before = c;
    let err = mine_staking::unstake(&mut mine, &mut loot, &mut c, 10, 1).unwrap_err();
    assert_eq!(err, QstakingErrors::NotStaked);
    assert_eq!(err.kind(), ErrorKind::PreconditionViolation);
    assert_eq!(loot_staking::unstake(&mut loot, &mut c, 10, 1), Err(QstakingErrors::NotStaked));
    assert_eq!(c.staked, before.staked);
    assert_eq!(c.experience, before.experience);
    assert_eq!(mine.accrued_timestamp, 0);
    assert_eq!(loot.accrued_timestamp, 0);
    assert_eq!(
        c.unstake_mine(10, 0, 21, 5, 100),
        Err(QstakingErrors::NotStaked)
    );
    assert_eq!(c.unstake_loot(10, 0, 100), Err(QstakingErrors::NotStaked));
}

#[test]
fn idle_loot_advance_keeps_index() {
    let mut loot = open_loot(100);
    loot.add_funds(0, 1000).unwrap();
    loot.rate = 7;
    assert_eq!(loot.staked_points, 0);
    loot.update_accrued_rewards(500).unwrap();
    assert_eq!(loot.accrued_rewards, 0);
    assert_eq!(loot.accrued_timestamp, 500);
}
