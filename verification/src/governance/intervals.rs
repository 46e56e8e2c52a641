//! Reward intervals, unlock times, and the tick that watches them.
use crate::governance::model::{StakePosition, StakeState};
use crate::governance::staking::{
    GovernorRewardsIntervalMetadata, RewardIntervalCountdown, StakingRead, StakingReadState,
};
use crate::u256::{u256_in_range, u256_max, U256};
use vstd::prelude::*;

verus! {

/// The number of the interval that holds `chain_time`.
pub open spec fn interval_at(metadata: GovernorRewardsIntervalMetadata, chain_time: nat) -> nat {
    ((chain_time - metadata.staking_deploy_time@) as nat / metadata.distribution_interval@) as nat
}

/// The time at which the interval that holds `chain_time` ends.
pub open spec fn interval_end(metadata: GovernorRewardsIntervalMetadata, chain_time: nat) -> nat {
    metadata.staking_deploy_time@ + (interval_at(metadata, chain_time) + 1)
        * metadata.distribution_interval@
}

/// Whether `chain_time` lies in an interval whose end 256 bits hold.
pub open spec fn interval_known(
    metadata: GovernorRewardsIntervalMetadata,
    chain_time: nat,
) -> bool {
    &&& metadata.distribution_interval@ != 0
    &&& metadata.staking_deploy_time@ <= chain_time
    &&& interval_end(metadata, chain_time) <= u256_max()
}

/// The current reward interval, where intervals have a length, staking is deployed, and the
/// interval's end is in range.
pub fn reward_interval_countdown(
    metadata: &GovernorRewardsIntervalMetadata,
    chain_time: U256,
) -> (countdown: Option<RewardIntervalCountdown>)
    ensures
        match countdown {
            Some(found) => interval_known(*metadata, chain_time@) && found.interval@
                == interval_at(*metadata, chain_time@) && found.boundary@ == interval_end(
                *metadata,
                chain_time@,
            ),
            None => !interval_known(*metadata, chain_time@),
        },
{
    broadcast use u256_in_range;

    if metadata.distribution_interval.is_zero() {
        return None;
    }
    let elapsed = match chain_time.checked_sub(metadata.staking_deploy_time) {
        Some(elapsed) => elapsed,
        None => return None,
    };
    let interval = match elapsed.checked_div(metadata.distribution_interval) {
        Some(interval) => interval,
        None => return None,
    };
    let ghost length = metadata.distribution_interval@;
    assert(interval@ + 1 <= (interval@ + 1) * length) by (nonlinear_arith)
        requires
            length >= 1,
    ;
    let next_interval = match interval.checked_add(U256::one()) {
        Some(next_interval) => next_interval,
        None => return None,
    };
    let offset = match next_interval.checked_mul(metadata.distribution_interval) {
        Some(offset) => offset,
        None => return None,
    };
    match metadata.staking_deploy_time.checked_add(offset) {
        Some(boundary) => Some(RewardIntervalCountdown { interval, boundary }),
        None => None,
    }
}

/// The seconds from `chain_time` to the end of the interval, where it has not passed and 64 bits
/// hold them.
pub fn remaining_reward_interval_seconds(
    countdown: RewardIntervalCountdown,
    chain_time: U256,
) -> (seconds: Option<u64>)
    ensures
        seconds matches Some(n) ==> chain_time@ + n == countdown.boundary@,
        match seconds {
            Some(n) => chain_time@ <= countdown.boundary@ && n as nat == countdown.boundary@
                - chain_time@,
            None => chain_time@ > countdown.boundary@ || countdown.boundary@ - chain_time@
                > u64::MAX,
        },
{
    match countdown.boundary.checked_sub(chain_time) {
        Some(remaining) => remaining.to_u64(),
        None => None,
    }
}

/// Whether a stake is unlocking and says when it unlocks.
pub open spec fn stake_unlocks(stake: StakePosition) -> bool {
    stake.state == StakeState::Unlocking && stake.locktime@ != 0
}

/// Whether one of `stakes` unlocks at `time`.
pub open spec fn any_unlocks_at(stakes: Seq<StakePosition>, time: nat) -> bool {
    exists|i: int|
        0 <= i < stakes.len() && stake_unlocks(#[trigger] stakes[i]) && stakes[i].locktime@ == time
}

/// Whether a stake of some account that was read unlocks at `time`.
pub open spec fn unlocks_at(read: StakingRead, time: nat) -> bool {
    exists|uuid: Seq<char>| #[trigger]
        read.accounts.contains_key(uuid) && (read.accounts[uuid].stakes matches Ok(stakes)
            && any_unlocks_at(stakes@, time))
}

/// The earliest unlock time of `stakes` and `earliest`.
fn earliest_unlock(stakes: &Vec<StakePosition>, earliest: Option<U256>) -> (next: Option<U256>)
    ensures
        match next {
            Some(found) => (any_unlocks_at(stakes@, found@) || earliest == Some(found)) && (forall|
                time: nat,
            | #[trigger]
                any_unlocks_at(stakes@, time) ==> found@ <= time) && (earliest matches Some(before)
                ==> found@ <= before@),
            None => earliest is None && forall|time: nat| !#[trigger] any_unlocks_at(stakes@, time),
        },
{
    let mut next = earliest;
    let mut i: usize = 0;
    while i < stakes.len()
        invariant
            i <= stakes@.len(),
            match next {
                Some(found) => (any_unlocks_at(stakes@.take(i as int), found@) || earliest == Some(
                    found,
                )) && (forall|j: int|
                    0 <= j < i && stake_unlocks(#[trigger] stakes@[j]) ==> found@
                        <= stakes@[j].locktime@) && (earliest matches Some(before) ==> found@
                    <= before@),
                None => earliest is None && forall|j: int|
                    0 <= j < i ==> !stake_unlocks(#[trigger] stakes@[j]),
            },
        decreases stakes@.len() - i,
    {
        let ghost head = stakes@.take(i as int);
        let ghost longer = stakes@.take(i + 1);
        let ghost before = next;
        proof {
            assert forall|time: nat| any_unlocks_at(head, time) implies any_unlocks_at(
                longer,
                time,
            ) by {
                let j = choose|j: int|
                    0 <= j < head.len() && stake_unlocks(#[trigger] head[j]) && head[j].locktime@
                        == time;
                assert(longer[j] == head[j]);
            }
        }
        let stake = stakes[i];
        if stake.state == StakeState::Unlocking && !stake.locktime.is_zero() {
            let earlier = match next {
                Some(found) => stake.locktime.less_than(found),
                None => true,
            };
            if earlier {
                next = Some(stake.locktime);
                proof {
                    assert(longer[i as int] == stake);
                    assert(any_unlocks_at(longer, stake.locktime@));
                }
            }
        }
        i += 1;
    }
    assert(stakes@.take(i as int) =~= stakes@);
    proof {
        assert forall|time: nat| any_unlocks_at(stakes@, time) implies (next matches Some(found)
            && found@ <= time) by {
            let j = choose|j: int|
                0 <= j < stakes@.len() && stake_unlocks(#[trigger] stakes@[j])
                    && stakes@[j].locktime@ == time;
            assert(stake_unlocks(stakes@[j]));
        }
    }
    next
}

/// The earliest time at which a stake of an account that was read unlocks.
pub fn nearest_unlock_boundary(state: &StakingReadState) -> (boundary: Option<U256>)
    ensures
        match boundary {
            Some(found) => unlocks_at(state@, found@) && forall|time: nat| #[trigger]
                unlocks_at(state@, time) ==> found@ <= time,
            None => forall|time: nat| !#[trigger] unlocks_at(state@, time),
        },
{
    let count: usize = state.accounts.len();
    let ghost entries = state.accounts.seq();
    let mut nearest: Option<U256> = None;
    let mut i: usize = 0;
    while i < count
        invariant
            i <= count == entries.len(),
            entries == state.accounts.seq(),
            forall|j: int|
                0 <= j < entries.len() ==> state@.accounts.contains_key((#[trigger] entries[j]).0@)
                    && state@.accounts[entries[j].0@] == entries[j].1,
            match nearest {
                Some(found) => unlocks_at(state@, found@) && forall|j: int, time: nat|
                    #![trigger entries[j], any_unlocks_at(entries[j].1.stakes->Ok_0@, time)]
                    0 <= j < i && entries[j].1.stakes is Ok && any_unlocks_at(
                        entries[j].1.stakes->Ok_0@,
                        time,
                    ) ==> found@ <= time,
                None => forall|j: int, time: nat|
                    #![trigger entries[j], any_unlocks_at(entries[j].1.stakes->Ok_0@, time)]
                    0 <= j < i && entries[j].1.stakes is Ok ==> !any_unlocks_at(
                        entries[j].1.stakes->Ok_0@,
                        time,
                    ),
            },
        decreases count - i,
    {
        let (uuid, account) = state.accounts.entry(i);
        if let Ok(stakes) = &account.stakes {
            let next = earliest_unlock(stakes, nearest);
            proof {
                if let Some(found) = next {
                    if any_unlocks_at(stakes@, found@) {
                        assert(state@.accounts.contains_key(uuid@));
                        assert(unlocks_at(state@, found@));
                    }
                }
            }
            nearest = next;
        }
        i += 1;
    }
    proof {
        assert forall|time: nat| unlocks_at(state@, time) implies (nearest matches Some(found)
            && found@ <= time) by {
            let uuid = choose|uuid: Seq<char>| #[trigger]
                state@.accounts.contains_key(uuid) && (state@.accounts[uuid].stakes matches Ok(
                    stakes,
                ) && any_unlocks_at(stakes@, time));
            let j = choose|j: int|
                0 <= j < state.accounts.seq().len() && (#[trigger] state.accounts.seq()[j]).0@
                    == uuid;
            assert(entries[j].0@ == uuid);
            assert(any_unlocks_at(entries[j].1.stakes->Ok_0@, time));
        }
    }
    nearest
}

/// Whether the reward interval has ended, or a stake has unlocked, by `chain_time`.
pub open spec fn boundary_crossed(read: StakingRead, chain_time: nat) -> bool {
    ||| (read.reward_interval_countdown matches Some(countdown) && chain_time
        >= countdown.boundary@)
    ||| exists|time: nat| #[trigger] unlocks_at(read, time) && time <= chain_time
}

/// Whether the reward interval has ended, or a stake has unlocked, by `chain_time`.
pub fn governance_boundary_crossed(state: &StakingReadState, chain_time: U256) -> (crossed: bool)
    ensures
        crossed == boundary_crossed(state@, chain_time@),
{
    let interval_crossed = match state.reward_interval_countdown {
        Some(countdown) => !chain_time.less_than(countdown.boundary),
        None => false,
    };
    interval_crossed || match nearest_unlock_boundary(state) {
        Some(boundary) => !chain_time.less_than(boundary),
        None => false,
    }
}

/// Arms the tick for `generation`: it then owns the tick, and a new tick is started unless it
/// owned the tick already.
pub fn arm_governance_time_tick(owner: Option<u64>, generation: u64) -> (armed: (
    Option<u64>,
    bool,
))
    ensures
        armed == (Some(generation), owner != Some(generation)),
{
    if owner == Some(generation) {
        (owner, false)
    } else {
        (Some(generation), true)
    }
}

/// Claims the tick for `generation`: only its owner claims it, and owns it no longer.
pub fn claim_governance_time_tick(owner: Option<u64>, generation: u64) -> (claimed: (
    Option<u64>,
    bool,
))
    ensures
        claimed == if owner == Some(generation) {
            (None, true)
        } else {
            (owner, false)
        },
{
    if owner == Some(generation) {
        (None, true)
    } else {
        (owner, false)
    }
}

/// The stakes of one account, added up.
#[derive(Clone, Copy, Debug, PartialEq, Eq, Structural)]
pub struct StakingAccountProjection {
    pub unclaimed_principal: U256,
    pub active_self_delegated: U256,
    pub active_external_delegated: U256,
}

/// What a stake adds to the principal that is not claimed.
pub open spec fn unclaimed_part(stake: StakePosition) -> nat {
    if stake.state != StakeState::Claimed {
        stake.amount@
    } else {
        0
    }
}

/// What a stake adds to the power that its owner keeps.
pub open spec fn self_delegated_part(stake: StakePosition) -> nat {
    if stake.state == StakeState::Active && stake.delegate == stake.owner {
        stake.amount@
    } else {
        0
    }
}

/// What a stake adds to the power that its owner delegates away.
pub open spec fn external_part(stake: StakePosition) -> nat {
    if stake.state == StakeState::Active && stake.delegate != stake.owner {
        stake.amount@
    } else {
        0
    }
}

/// The sum of what the stakes add.
pub open spec fn stake_sum(stakes: Seq<StakePosition>, part: spec_fn(StakePosition) -> nat) -> nat
    decreases stakes.len(),
{
    if stakes.len() == 0 {
        0
    } else {
        stake_sum(stakes.drop_last(), part) + part(stakes.last())
    }
}

/// `n`, or the greatest number that 256 bits hold.
pub open spec fn saturated(n: nat) -> nat {
    if n > u256_max() {
        u256_max()
    } else {
        n
    }
}

/// The stakes of one account, added up; a sum that 256 bits do not hold stops at the greatest
/// number.
pub fn staking_account_projection(stakes: &Vec<StakePosition>) -> (projection:
    StakingAccountProjection)
    ensures
        projection.unclaimed_principal@ == saturated(
            stake_sum(stakes@, |stake: StakePosition| unclaimed_part(stake)),
        ),
        projection.active_self_delegated@ == saturated(
            stake_sum(stakes@, |stake: StakePosition| self_delegated_part(stake)),
        ),
        projection.active_external_delegated@ == saturated(
            stake_sum(stakes@, |stake: StakePosition| external_part(stake)),
        ),
{
    let ghost unclaimed = |stake: StakePosition| unclaimed_part(stake);
    let ghost own = |stake: StakePosition| self_delegated_part(stake);
    let ghost external = |stake: StakePosition| external_part(stake);
    let mut projection = StakingAccountProjection {
        unclaimed_principal: U256::zero(),
        active_self_delegated: U256::zero(),
        active_external_delegated: U256::zero(),
    };
    let mut i: usize = 0;
    while i < stakes.len()
        invariant
            i <= stakes@.len(),
            unclaimed == (|stake: StakePosition| unclaimed_part(stake)),
            own == (|stake: StakePosition| self_delegated_part(stake)),
            external == (|stake: StakePosition| external_part(stake)),
            projection.unclaimed_principal@ == saturated(
                stake_sum(stakes@.take(i as int), unclaimed),
            ),
            projection.active_self_delegated@ == saturated(stake_sum(stakes@.take(i as int), own)),
            projection.active_external_delegated@ == saturated(
                stake_sum(stakes@.take(i as int), external),
            ),
        decreases stakes@.len() - i,
    {
        proof {
            let longer = stakes@.take(i + 1);
            assert(longer.drop_last() =~= stakes@.take(i as int));
            assert(longer.last() == stakes@[i as int]);
        }
        let stake = stakes[i];
        if stake.state != StakeState::Claimed {
            projection.unclaimed_principal =
            projection.unclaimed_principal.saturating_add(stake.amount);
        }
        if stake.state == StakeState::Active {
            if stake.delegate == stake.owner {
                projection.active_self_delegated =
                projection.active_self_delegated.saturating_add(stake.amount);
            } else {
                projection.active_external_delegated =
                projection.active_external_delegated.saturating_add(stake.amount);
            }
        }
        i += 1;
    }
    assert(stakes@.take(i as int) =~= stakes@);
    projection
}

impl StakingAccountProjection {
    /// The projection of no stakes.
    pub fn default() -> (projection: StakingAccountProjection)
        ensures
            projection.unclaimed_principal@ == 0,
            projection.active_self_delegated@ == 0,
            projection.active_external_delegated@ == 0,
    {
        StakingAccountProjection {
            unclaimed_principal: U256::zero(),
            active_self_delegated: U256::zero(),
            active_external_delegated: U256::zero(),
        }
    }

    /// The part of an account's voting power that others delegated to it.
    pub fn received_voting_power(self, voting_power: U256) -> (received: U256)
        ensures
            self.active_self_delegated@ <= voting_power@ ==> self.active_self_delegated@ + received@
                == voting_power@,
            voting_power@ <= self.active_self_delegated@ ==> received@ == 0,
            received@ == if voting_power@ < self.active_self_delegated@ {
                0
            } else {
                (voting_power@ - self.active_self_delegated@) as nat
            },
    {
        voting_power.saturating_sub(self.active_self_delegated)
    }
}

/// The end of an interval is after every time in it and at most one interval length away.
pub proof fn interval_end_is_next_boundary(
    metadata: GovernorRewardsIntervalMetadata,
    chain_time: nat,
)
    requires
        metadata.distribution_interval@ != 0,
        metadata.staking_deploy_time@ <= chain_time,
    ensures
        interval_end(metadata, chain_time) - metadata.distribution_interval@ <= chain_time,
        chain_time < interval_end(metadata, chain_time),
{
    let length = metadata.distribution_interval@ as int;
    let elapsed = chain_time - metadata.staking_deploy_time@;
    vstd::arithmetic::div_mod::lemma_fundamental_div_mod(elapsed, length);
    vstd::arithmetic::div_mod::lemma_mod_bound(elapsed, length);
    assert((elapsed / length + 1) * length == length * (elapsed / length) + length)
        by (nonlinear_arith);
}

/// The boundary that was stored is not crossed before its end, and is crossed from then on.
pub proof fn boundary_crossing_is_monotone(read: StakingRead, earlier: nat, later: nat)
    requires
        earlier <= later,
        boundary_crossed(read, earlier),
    ensures
        boundary_crossed(read, later),
{
    if exists|time: nat| #[trigger] unlocks_at(read, time) && time <= earlier {
        let time = choose|time: nat| #[trigger] unlocks_at(read, time) && time <= earlier;
        assert(unlocks_at(read, time) && time <= later);
    }
}

/// Intervals are counted from zero at the deployment, one after the other.
pub proof fn intervals_are_counted_from_the_deployment(
    metadata: GovernorRewardsIntervalMetadata,
    chain_time: nat,
)
    requires
        metadata.distribution_interval@ != 0,
        metadata.staking_deploy_time@ <= chain_time,
    ensures
        interval_at(metadata, metadata.staking_deploy_time@) == 0,
        metadata.staking_deploy_time@ + interval_at(metadata, chain_time)
            * metadata.distribution_interval@ <= chain_time,
        chain_time < metadata.staking_deploy_time@ + (interval_at(metadata, chain_time) + 1)
            * metadata.distribution_interval@,
        interval_at(metadata, chain_time + metadata.distribution_interval@) == interval_at(
            metadata,
            chain_time,
        ) + 1,
        interval_end(metadata, chain_time) == metadata.staking_deploy_time@ + (interval_at(
            metadata,
            chain_time,
        ) + 1) * metadata.distribution_interval@,
{
    let length: int = metadata.distribution_interval@ as int;
    let past: int = chain_time - metadata.staking_deploy_time@;
    vstd::arithmetic::div_mod::lemma_fundamental_div_mod(past, length);
    vstd::arithmetic::div_mod::lemma_mod_bound(past, length);
    vstd::arithmetic::div_mod::lemma_div_plus_one(past, length);
    vstd::arithmetic::div_mod::lemma_div_of0(length);
    let at: int = past / length;
    assert(at * length == length * at) by (nonlinear_arith);
    assert((at + 1) * length == at * length + length) by (nonlinear_arith);
    assert(length + past == chain_time + length - metadata.staking_deploy_time@);
}

/// An interval is known exactly where intervals have a length, the deployment is past and the end
/// of the interval fits.
pub proof fn intervals_are_known_after_the_deployment(
    metadata: GovernorRewardsIntervalMetadata,
    chain_time: nat,
)
    ensures
        metadata.distribution_interval@ == 0 ==> !interval_known(metadata, chain_time),
        chain_time < metadata.staking_deploy_time@ ==> !interval_known(metadata, chain_time),
        interval_end(metadata, chain_time) > u256_max() ==> !interval_known(metadata, chain_time),
        metadata.distribution_interval@ > 0 && metadata.staking_deploy_time@ <= chain_time
            && interval_end(metadata, chain_time) <= u256_max() ==> interval_known(
            metadata,
            chain_time,
        ),
{
}

/// A stake unlocks at its lock time, and only while it is unlocking.
pub proof fn stakes_unlock_at_their_lock_time(
    read: StakingRead,
    uuid: Seq<char>,
    stakes: Vec<StakePosition>,
    at: int,
    time: nat,
)
    requires
        read.accounts.contains_key(uuid),
        read.accounts[uuid].stakes == Ok::<Vec<StakePosition>, String>(stakes),
        0 <= at < stakes@.len(),
    ensures
        stakes@[at].state is Unlocking && stakes@[at].locktime@ != 0 ==> unlocks_at(
            read,
            stakes@[at].locktime@,
        ),
        (forall|i: int|
            0 <= i < stakes@.len() ==> !((#[trigger] stakes@[i]).state is Unlocking)
                || stakes@[i].locktime@ == 0 || stakes@[i].locktime@ != time) ==> !any_unlocks_at(
            stakes@,
            time,
        ),
        any_unlocks_at(stakes@, time) ==> unlocks_at(read, time),
{
    if stakes@[at].state is Unlocking && stakes@[at].locktime@ != 0 {
        assert(stake_unlocks(stakes@[at]));
        assert(any_unlocks_at(stakes@, stakes@[at].locktime@));
    }
}

/// A boundary is crossed at the end of the reward interval and at the lock time of any stake that is
/// unlocking, and not before.
pub proof fn boundaries_are_crossed_on_time(read: StakingRead, chain_time: nat, unlock: nat)
    ensures
        read.reward_interval_countdown matches Some(countdown) ==> (chain_time
            >= countdown.boundary@ ==> boundary_crossed(read, chain_time)),
        unlocks_at(read, unlock) && unlock <= chain_time ==> boundary_crossed(read, chain_time),
        (read.reward_interval_countdown matches Some(countdown) ==> chain_time
            < countdown.boundary@) && (forall|time: nat| #[trigger]
            unlocks_at(read, time) ==> chain_time < time) ==> !boundary_crossed(read, chain_time),
{
}

/// A stake counts as principal until it is claimed; while it is active it gives its power to its
/// owner or to another, never to both.
pub proof fn stakes_count_for_one_delegate(stake: StakePosition)
    ensures
        stake.state is Claimed ==> unclaimed_part(stake) == 0,
        !(stake.state is Claimed) ==> unclaimed_part(stake) == stake.amount@,
        stake.state is Active ==> self_delegated_part(stake) + external_part(stake)
            == stake.amount@,
        !(stake.state is Active) ==> self_delegated_part(stake) == 0 && external_part(stake) == 0,
        stake.state is Active && stake.delegate == stake.owner ==> self_delegated_part(stake)
            == stake.amount@,
        stake.state is Active && stake.delegate != stake.owner ==> external_part(stake)
            == stake.amount@,
{
}

/// The parts of stakes add up, stake by stake.
pub proof fn stakes_add_up(
    stakes: Seq<StakePosition>,
    stake: StakePosition,
    part: spec_fn(StakePosition) -> nat,
)
    ensures
        stake_sum(Seq::empty(), part) == 0,
        stake_sum(stakes.push(stake), part) == stake_sum(stakes, part) + part(stake),
{
    assert(stakes.push(stake).drop_last() =~= stakes);
}

/// The power that an account keeps and the power that it gives away are together no more than its
/// principal.
pub proof fn power_is_within_the_principal(stakes: Seq<StakePosition>)
    ensures
        stake_sum(stakes, |stake: StakePosition| self_delegated_part(stake)) + stake_sum(
            stakes,
            |stake: StakePosition| external_part(stake),
        ) <= stake_sum(stakes, |stake: StakePosition| unclaimed_part(stake)),
    decreases stakes.len(),
{
    if stakes.len() > 0 {
        power_is_within_the_principal(stakes.drop_last());
    }
}

/// A sum that does not fit is held at the greatest number that does.
pub proof fn sums_are_held_at_the_greatest(n: nat)
    ensures
        saturated(n) <= u256_max(),
        n <= u256_max() ==> saturated(n) == n,
        n >= u256_max() ==> saturated(n) == u256_max(),
{
}

} // verus!
