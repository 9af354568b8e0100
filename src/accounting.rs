use vstd::prelude::*;
use crate::character::{Character, StakeStatus};
use crate::errors::QstakingErrors;
use crate::identity::Identity;
use crate::loot::Loot;
use crate::mine::Mine;
use crate::splitter::{lemma_share_bounds, loot_share, loot_strength_of, mine_strength_of};
use crate::{loot_staking, mine_staking};

verus! {

/// What `c` contributes to the staked weight of the pool named by `s`.
pub open spec fn weight_in(c: Character, s: StakeStatus) -> int {
    if c.staked == s {
        c.points as int
    } else {
        0
    }
}

/// What `c` contributes to the staked count of the pool named by `s`.
pub open spec fn count_in(c: Character, s: StakeStatus) -> int {
    if c.staked == s {
        1
    } else {
        0
    }
}

/// Total weight of the positions in `cs` staked in the pool named by `s`.
pub open spec fn staked_weight(cs: Seq<Character>, s: StakeStatus) -> int
    decreases cs.len(),
{
    if cs.len() == 0 {
        0
    } else {
        staked_weight(cs.drop_last(), s) + weight_in(cs.last(), s)
    }
}

/// Number of the positions in `cs` staked in the pool named by `s`.
pub open spec fn staked_count(cs: Seq<Character>, s: StakeStatus) -> int
    decreases cs.len(),
{
    if cs.len() == 0 {
        0
    } else {
        staked_count(cs.drop_last(), s) + count_in(cs.last(), s)
    }
}

/// Both pools' aggregates agree with the positions `cs`: each pool's staked
/// weight and count are those of the positions staked in it.
pub open spec fn pools_match(mine: Mine, loot: Loot, cs: Seq<Character>) -> bool {
    &&& mine.staked_points == staked_weight(cs, StakeStatus::InMine)
    &&& mine.staked_characters == staked_count(cs, StakeStatus::InMine)
    &&& loot.staked_points == staked_weight(cs, StakeStatus::InLoot)
    &&& loot.staked_characters == staked_count(cs, StakeStatus::InLoot)
}

proof fn lemma_update_totals(cs: Seq<Character>, i: int, c: Character, s: StakeStatus)
    requires
        0 <= i < cs.len(),
    ensures
        staked_weight(cs.update(i, c), s) == staked_weight(cs, s) - weight_in(cs[i], s) + weight_in(
            c,
            s,
        ),
        staked_count(cs.update(i, c), s) == staked_count(cs, s) - count_in(cs[i], s) + count_in(
            c,
            s,
        ),
    decreases cs.len(),
{
    let u = cs.update(i, c);
    if i == cs.len() - 1 {
        assert(u.drop_last() =~= cs.drop_last());
    } else {
        lemma_update_totals(cs.drop_last(), i, c, s);
        assert(u.drop_last() =~= cs.drop_last().update(i, c));
    }
}

/// Staking a position into the Mine keeps both pools' aggregates equal to
/// those of the positions staked in them.
pub proof fn lemma_stake_mine_keeps_totals(
    mine: Mine,
    loot: Loot,
    cs: Seq<Character>,
    i: int,
    now: i64,
    nft_amount: u64,
    membership: Result<(), QstakingErrors>,
)
    requires
        0 <= i < cs.len(),
        pools_match(mine, loot, cs),
    ensures
        mine_staking::stake_spec(mine, cs[i], now, nft_amount, membership) matches Ok((m, c))
            ==> pools_match(m, loot, cs.update(i, c)),
{
    if let Ok((m, c)) = mine_staking::stake_spec(mine, cs[i], now, nft_amount, membership) {
        lemma_update_totals(cs, i, c, StakeStatus::InMine);
        lemma_update_totals(cs, i, c, StakeStatus::InLoot);
    }
}

/// Unstaking a position from the Mine, which also funds the Loot, keeps both
/// pools' aggregates equal to those of the positions staked in them.
pub proof fn lemma_unstake_mine_keeps_totals(
    mine: Mine,
    loot: Loot,
    cs: Seq<Character>,
    i: int,
    now: i64,
    nft_amount: u64,
)
    requires
        0 <= i < cs.len(),
        pools_match(mine, loot, cs),
    ensures
        mine_staking::unstake_spec(mine, loot, cs[i], now, nft_amount) matches Ok((m, l, c, _))
            ==> pools_match(m, l, cs.update(i, c)),
{
    if let Ok((m, l, c, _)) = mine_staking::unstake_spec(mine, loot, cs[i], now, nft_amount) {
        lemma_update_totals(cs, i, c, StakeStatus::InMine);
        lemma_update_totals(cs, i, c, StakeStatus::InLoot);
    }
}

/// Staking a position into the Loot keeps both pools' aggregates equal to
/// those of the positions staked in them.
pub proof fn lemma_stake_loot_keeps_totals(
    mine: Mine,
    loot: Loot,
    cs: Seq<Character>,
    i: int,
    now: i64,
    nft_amount: u64,
    membership: Result<(), QstakingErrors>,
)
    requires
        0 <= i < cs.len(),
        pools_match(mine, loot, cs),
    ensures
        loot_staking::stake_spec(loot, cs[i], now, nft_amount, membership) matches Ok((l, c))
            ==> pools_match(mine, l, cs.update(i, c)),
{
    if let Ok((l, c)) = loot_staking::stake_spec(loot, cs[i], now, nft_amount, membership) {
        lemma_update_totals(cs, i, c, StakeStatus::InMine);
        lemma_update_totals(cs, i, c, StakeStatus::InLoot);
    }
}

/// Unstaking a position from the Loot keeps both pools' aggregates equal to
/// those of the positions staked in them.
pub proof fn lemma_unstake_loot_keeps_totals(
    mine: Mine,
    loot: Loot,
    cs: Seq<Character>,
    i: int,
    now: i64,
    nft_amount: u64,
)
    requires
        0 <= i < cs.len(),
        pools_match(mine, loot, cs),
    ensures
        loot_staking::unstake_spec(loot, cs[i], now, nft_amount) matches Ok((l, c, _))
            ==> pools_match(mine, l, cs.update(i, c)),
{
    if let Ok((l, c, _)) = loot_staking::unstake_spec(loot, cs[i], now, nft_amount) {
        lemma_update_totals(cs, i, c, StakeStatus::InMine);
        lemma_update_totals(cs, i, c, StakeStatus::InLoot);
    }
}

/// Freshly created pools match a ledger with no positions yet.
pub proof fn lemma_fresh_pools_match(mine_bump: u8, loot_bump: u8, mine_manager: Identity, loot_manager: Identity, mint: Identity)
    ensures
        pools_match(
            Mine::initial(mine_bump, mine_manager, mint),
            Loot::initial(loot_bump, loot_manager),
            Seq::<Character>::empty(),
        ),
{
}

/// A newly created position is unstaked, so adding it keeps both pools'
/// aggregates equal to those of the positions staked in them.
pub proof fn lemma_new_position_keeps_totals(mine: Mine, loot: Loot, cs: Seq<Character>, bump: u8)
    requires
        pools_match(mine, loot, cs),
    ensures
        pools_match(mine, loot, cs.push(Character::initial(bump))),
{
    assert(cs.push(Character::initial(bump)).drop_last() =~= cs);
}

/// Index updates and parameter changes of the Mine leave its staked weight
/// and count alone.
pub proof fn lemma_mine_upkeep_keeps_totals(
    mine: Mine,
    loot: Loot,
    cs: Seq<Character>,
    now: i64,
    rate: u64,
    price: u64,
    cooldown: u64,
)
    requires
        pools_match(mine, loot, cs),
    ensures
        mine.advanced(now) matches Ok(m) ==> pools_match(m, loot, cs),
        mine.configured(now, rate, price, cooldown) matches Ok(m) ==> pools_match(m, loot, cs),
{
}

/// Index updates, funding and parameter changes of the Loot leave its staked
/// weight and count alone.
pub proof fn lemma_loot_upkeep_keeps_totals(
    mine: Mine,
    loot: Loot,
    cs: Seq<Character>,
    now: i64,
    amount: u64,
    duration: u64,
    price: u64,
    cooldown: u64,
)
    requires
        pools_match(mine, loot, cs),
    ensures
        loot.advanced(now) matches Ok(l) ==> pools_match(mine, l, cs),
        loot.funded(now, amount) matches Ok(l) ==> pools_match(mine, l, cs),
        loot.configured(now, duration, price, cooldown) matches Ok(l) ==> pools_match(mine, l, cs),
{
}

/// One operation on the Loot pool, as the staking flows and its manager
/// apply them.
pub enum LootEvent {
    /// The index is brought forward to the given time.
    Advance(i64),
    /// A position of the given weight joins at the given time.
    Join(i64, u64),
    /// A position of the given weight leaves and is paid the given reward.
    Leave(u64, u64),
    /// The given amount is added to the fund at the given time.
    Fund(i64, u64),
    /// Duration, price and cooldown are set at the given time.
    Configure(i64, u64, u64, u64),
}

impl LootEvent {
    /// The pool after this event, or the error it ends with.
    pub open spec fn apply(self, loot: Loot) -> Result<Loot, QstakingErrors> {
        match self {
            LootEvent::Advance(now) => loot.advanced(now),
            LootEvent::Join(now, points) => loot.joined(now, points),
            LootEvent::Leave(points, reward) => loot.left(points, reward),
            LootEvent::Fund(now, amount) => loot.funded(now, amount),
            LootEvent::Configure(now, duration, price, cooldown) => loot.configured(
                now,
                duration,
                price,
                cooldown,
            ),
        }
    }

    /// What this event adds to the fund.
    pub open spec fn paid_in(self) -> int {
        match self {
            LootEvent::Fund(_, amount) => amount as int,
            _ => 0,
        }
    }

    /// What this event pays out of the fund.
    pub open spec fn paid_out(self) -> int {
        match self {
            LootEvent::Leave(_, reward) => reward as int,
            _ => 0,
        }
    }
}

/// The Loot pool after each event of `events` in turn.
pub open spec fn run_loot(loot: Loot, events: Seq<LootEvent>) -> Result<Loot, QstakingErrors>
    decreases events.len(),
{
    if events.len() == 0 {
        Ok(loot)
    } else {
        match events[0].apply(loot) {
            Err(e) => Err(e),
            Ok(l) => run_loot(l, events.subrange(1, events.len() as int)),
        }
    }
}

/// Everything `events` adds to the fund.
pub open spec fn total_paid_in(events: Seq<LootEvent>) -> int
    decreases events.len(),
{
    if events.len() == 0 {
        0
    } else {
        events[0].paid_in() + total_paid_in(events.subrange(1, events.len() as int))
    }
}

/// Everything `events` pays out of the fund.
pub open spec fn total_paid_out(events: Seq<LootEvent>) -> int
    decreases events.len(),
{
    if events.len() == 0 {
        0
    } else {
        events[0].paid_out() + total_paid_out(events.subrange(1, events.len() as int))
    }
}

/// Over any sequence of Loot operations that succeeds, the fund changes by
/// exactly what was added minus what was paid out, so the payouts never
/// exceed the starting fund plus everything added.
pub proof fn lemma_loot_payouts_bounded(loot: Loot, events: Seq<LootEvent>)
    ensures
        run_loot(loot, events) matches Ok(l) ==> l.fund == loot.fund + total_paid_in(events)
            - total_paid_out(events) && total_paid_out(events) <= loot.fund + total_paid_in(events),
    decreases events.len(),
{
    if events.len() > 0 {
        if let Ok(l1) = events[0].apply(loot) {
            lemma_loot_payouts_bounded(l1, events.subrange(1, events.len() as int));
        }
    }
}

/// A Mine unstake splits the position's gross reward
/// `points * (index - peg)`, taken at the index brought forward to `now`:
/// the tax is the Loot's floored share against the strengths taken before
/// the position is counted out, and lands in full in the Loot's fund; the
/// payout is the rest clipped to the position's capacity, so payout plus tax
/// never exceeds the gross and equals it unless the clip applied.
pub proof fn lemma_mine_unstake_conserves(
    mine: Mine,
    loot: Loot,
    character: Character,
    now: i64,
    nft_amount: u64,
)
    ensures
        mine_staking::unstake_spec(mine, loot, character, now, nft_amount) matches Ok(
            (m, l, c, (payout, tax)),
        ) ==> ({
            let gross = character.points * (m.accrued_rewards - character.staked_peg);
            &&& tax == loot_share(
                gross,
                mine_strength_of(mine.staked_characters) as int,
                loot_strength_of(loot.staked_characters) as int,
            )
            &&& payout + tax <= gross
            &&& payout == if gross - tax <= character.capacity {
                gross - tax
            } else {
                character.capacity as int
            }
            &&& l.fund == loot.fund + tax
            &&& c.mining_rewards == character.mining_rewards + payout
        }),
{
    if let Ok((m, l, c, (payout, tax))) = mine_staking::unstake_spec(
        mine,
        loot,
        character,
        now,
        nft_amount,
    ) {
        let gross = character.points * (m.accrued_rewards - character.staked_peg);
        let ms = mine_strength_of(mine.staked_characters);
        let ls = loot_strength_of(loot.staked_characters);
        lemma_share_bounds(gross, ms as int, ls as int);
    }
}

} // verus!
