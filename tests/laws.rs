use qstaking::character::{Character, StakeStatus};
use qstaking::errors::QstakingErrors;
use qstaking::identity::Identity;
use qstaking::loot::Loot;
use qstaking::mine::Mine;
use qstaking::splitter::split_reward;
use qstaking::{loot_config, loot_staking, mine_config, mine_staking};

fn key(b: u8) -> Identity {
    Identity::new([b; 32])
}

fn staked_sum(cs: &[Character], s: StakeStatus) -> u64 {
    cs.iter().filter(|c| c.staked == s).map(|c| c.points).sum()
}

#[test]
fn pool_weights_track_staked_positions() {
    let mut mine = Mine::new(0, key(1), key(9));
    mine_config::set_parameters(&mut mine, &key(1), 0, 3, 0, 0).unwrap();
    mine_config::set_locked(&mut mine, &key(1), false).unwrap();
    let mut loot = Loot::new(0, key(2));
    loot_config::set_parameters(&mut loot, &key(2), 0, 50, 0, 0).unwrap();
    loot_config::set_locked(&mut loot, &key(2), false).unwrap();
    let mut cs: Vec<Character> = (0..4u8).map(Character::new).collect();
    for (i, c) in cs.iter_mut().enumerate() {
        c.points = (i as u64 + 1) * 7;
    }
    mine_staking::stake(&mut mine, &mut cs[0], 1, 1, Ok(())).unwrap();
    loot_staking::stake(&mut loot, &mut cs[1], 2, 1, Ok(())).unwrap();
    mine_staking::stake(&mut mine, &mut cs[2], 3, 1, Ok(())).unwrap();
    loot_staking::stake(&mut loot, &mut cs[3], 4, 1, Ok(())).unwrap();
    assert_eq!(mine.staked_points, staked_sum(&cs, StakeStatus::InMine));
    assert_eq!(loot.staked_points, staked_sum(&cs, StakeStatus::InLoot));
    // a refused double stake leaves everything as it was
    assert_eq!(
        mine_staking::stake(&mut mine, &mut cs[1], 5, 1, Ok(())),
        Err(QstakingErrors::AlreadyStaked)
    );
    mine_staking::unstake(&mut mine, &mut loot, &mut cs[0], 10, 1).unwrap();
    assert_eq!(mine.staked_points, staked_sum(&cs, StakeStatus::InMine));
    assert_eq!(loot.staked_points, staked_sum(&cs, StakeStatus::InLoot));
    loot_staking::unstake(&mut loot, &mut cs[3], 12, 1).unwrap();
    assert_eq!(mine.staked_points, 21);
    assert_eq!(loot.staked_points, 14);
    assert_eq!(mine.staked_characters, 1);
    assert_eq!(loot.staked_characters, 1);
}

#[test]
fn index_never_decreases_over_updates() {
    let mut mine = Mine::new(0, key(1), key(9));
    mine_config::set_parameters(&mut mine, &key(1), 0, 4, 0, 0).unwrap();
    let mut last = mine.accrued_rewards;
    for t in [0i64, 3, 3, 10, 25, 25, 100] {
        mine.update_accrued_rewards(t).unwrap();
        assert!(mine.accrued_rewards >= last);
        last = mine.accrued_rewards;
    }
    assert_eq!(mine.accrued_rewards, 400);
}

#[test]
fn loot_payouts_stay_within_funds() {
    let mut loot = Loot::new(0, key(2));
    loot_config::set_parameters(&mut loot, &key(2), 0, 10, 0, 0).unwrap();
    loot_config::set_locked(&mut loot, &key(2), false).unwrap();
    loot.add_funds(0, 100).unwrap();
    let mut c = Character::new(0);
    c.points = 1;
    loot_staking::stake(&mut loot, &mut c, 0, 1, Ok(())).unwrap();
    assert_eq!(loot.rate, 10);
    // far past the duration the accrual is capped by what the fund can pay
    let reward = loot_staking::unstake(&mut loot, &mut c, 1000, 1).unwrap();
    assert_eq!(reward, 100);
    assert_eq!(loot.fund, 0);
    assert_eq!(loot.rate, 0);
    // paying more than the fund holds is a fault and changes nothing
    let mut other = loot;
    other.staked_characters = 1;
    other.staked_points = 1;
    assert_eq!(other.remove_character(1, 1), Err(QstakingErrors::InvalidComputation));
    assert_eq!(other.fund, 0);
    assert_eq!(other.staked_points, 1);
}

#[test]
fn advancing_twice_to_the_same_time_is_advancing_once() {
    let mut mine = Mine::new(0, key(1), key(9));
    mine_config::set_parameters(&mut mine, &key(1), 0, 9, 0, 0).unwrap();
    mine.update_accrued_rewards(33).unwrap();
    let once = mine;
    mine.update_accrued_rewards(33).unwrap();
    assert_eq!(mine.accrued_rewards, once.accrued_rewards);
    assert_eq!(mine.accrued_timestamp, once.accrued_timestamp);
    assert_eq!(mine.accrued_rewards, 297);

    let mut loot = Loot::new(0, key(2));
    loot_config::set_parameters(&mut loot, &key(2), 0, 10, 0, 0).unwrap();
    loot.add_funds(0, 1000).unwrap();
    loot.add_character(0, 2).unwrap();
    loot.update_accrued_rewards(20).unwrap();
    let once = loot;
    loot.update_accrued_rewards(20).unwrap();
    assert_eq!(loot.accrued_rewards, once.accrued_rewards);
    assert_eq!(loot.accrued_rewards, 500);
}

#[test]
fn split_conserves_gross_up_to_capacity() {
    assert_eq!(split_reward(5000, 21, 5, 1_000_000), Ok((4039, 961)));
    let (payout, tax) = split_reward(5000, 21, 5, 1000).unwrap();
    assert_eq!((payout, tax), (1000, 961));
    assert!(payout + tax <= 5000);
    assert_eq!(split_reward(0, 20, 5, 10), Ok((0, 0)));
    assert_eq!(split_reward(7, 0, 5, 10), Ok((0, 7)));
    assert_eq!(split_reward(7, 0, 0, 10), Err(QstakingErrors::InvalidComputation));
    assert_eq!(split_reward(u64::MAX, 20, 5, 10), Err(QstakingErrors::InvalidComputation));
}
