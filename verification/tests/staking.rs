//! The staking tab: what it has read, and which actions that allows.
use wallet::address::Address;
use wallet::governance::intervals::{
    arm_governance_time_tick, claim_governance_time_tick, governance_boundary_crossed,
    nearest_unlock_boundary, remaining_reward_interval_seconds, reward_interval_countdown,
    staking_account_projection,
};
use wallet::governance::model::{
    AccountStakeResult, GovernanceContextKey, GovernanceParticipantIdentity, RewardBatchEvidence,
    RewardEvidence, RewardKey, StakePosition, StakeState, StakingGlobalMetrics,
};
use wallet::governance::staking::{
    accept_projected_evidence, CachedRewardEvidence, GovernorRewardsIntervalMetadata,
    RewardIntervalCountdown, RewardView, StakingAccountView, StakingActionKind,
    StakingActionSelection, StakingReadState, StakingRefreshStatus, NANOS_PER_SECOND,
    STAKING_REWARD_EVIDENCE_TTL,
};
use wallet::governance::state::GovernanceTab;
use wallet::governance::table::staking_control_id;
use wallet::u256::U256;

fn addr(byte: u8) -> Address {
    Address::from_bytes([byte; 20])
}

fn n(value: u64) -> U256 {
    U256::from_u64(value)
}

fn zero() -> U256 {
    U256::zero()
}

fn key(wallet: &str, chain: u64, uuid: &str, address: Address) -> GovernanceContextKey {
    GovernanceContextKey {
        wallet_id: Some(wallet.to_owned()),
        chain_id: chain,
        participants: vec![GovernanceParticipantIdentity { uuid: uuid.to_owned(), address }],
    }
}

fn stake(owner: Address, id: u64, delegate: Address, amount: u64, state: StakeState) -> StakePosition {
    StakePosition {
        owner,
        id: n(id),
        delegate,
        amount: n(amount),
        staketime: zero(),
        locktime: zero(),
        claimed_time: zero(),
        state,
    }
}

fn evidence(token: Address, amount: U256) -> RewardEvidence {
    RewardEvidence {
        token,
        starting_interval: zero(),
        ending_interval: zero(),
        staking_intervals: vec![zero()],
        hints: vec![zero()],
        claimed_intervals: Vec::new(),
        amount,
    }
}

fn pair_evidence(first: Address, second: Address) -> RewardBatchEvidence {
    RewardBatchEvidence {
        reward_tokens: vec![first, second],
        starting_interval: zero(),
        ending_interval: zero(),
        staking_intervals: vec![zero()],
        hints: vec![zero()],
        claimed_intervals: vec![Vec::new(), Vec::new()],
        expected_amounts: vec![U256::one(), zero()],
    }
}

fn zero_staking_metrics() -> StakingGlobalMetrics {
    StakingGlobalMetrics {
        total_staked: zero(),
        total_voting_power: zero(),
        deploy_time: zero(),
        snapshot_interval: U256::one(),
        current_interval: zero(),
        stake_locktime: zero(),
        chain_time: zero(),
    }
}

/// The columns of the requested tokens, which have to be in the order of the evidence.
fn project(evidence: &RewardBatchEvidence, tokens: &[Address]) -> Option<RewardBatchEvidence> {
    let mut columns: Vec<usize> = Vec::new();
    for token in tokens {
        let at = evidence.reward_tokens.iter().position(|own| own == token)?;
        if columns.last().is_some_and(|last| *last >= at) {
            return None;
        }
        columns.push(at);
    }
    Some(RewardBatchEvidence {
        reward_tokens: tokens.to_vec(),
        starting_interval: evidence.starting_interval,
        ending_interval: evidence.ending_interval,
        staking_intervals: evidence.staking_intervals.clone(),
        hints: evidence.hints.clone(),
        claimed_intervals: columns
            .iter()
            .map(|at| evidence.claimed_intervals[*at].clone())
            .collect(),
        expected_amounts: columns.iter().map(|at| evidence.expected_amounts[*at]).collect(),
    })
}

fn cached(
    state: &StakingReadState,
    key: &GovernanceContextKey,
    uuid: &str,
    actor: Address,
    tokens: &[Address],
    now: u128,
) -> Option<RewardBatchEvidence> {
    match state.cached_reward_evidence_at(key, uuid, actor, &tokens.to_vec(), now)? {
        CachedRewardEvidence::Single(batch) => Some(batch),
        CachedRewardEvidence::Bulk(evidence) => {
            accept_projected_evidence(project(evidence, tokens))
        }
    }
}

#[test]
fn staking_account_projection_tracks_received_voting_power() {
    let owner = addr(1);
    let external = addr(2);
    let mut claimed = stake(owner, 3, external, 11, StakeState::Claimed);
    claimed.claimed_time = n(1);
    let stakes = vec![
        stake(owner, 0, owner, 10, StakeState::Active),
        stake(owner, 1, external, 5, StakeState::Unlocking),
        stake(owner, 2, external, 7, StakeState::Claimable),
        claimed,
    ];

    let projection = staking_account_projection(&stakes);
    assert_eq!(projection.unclaimed_principal, n(22));
    assert_eq!(projection.active_self_delegated, n(10));
    assert_eq!(projection.active_external_delegated, zero());
    assert_eq!(projection.received_voting_power(n(30)), n(20));
}

#[test]
fn an_external_delegation_is_counted_apart() {
    let owner = addr(1);
    let stakes = vec![
        stake(owner, 0, owner, 10, StakeState::Active),
        stake(owner, 1, addr(2), 4, StakeState::Active),
    ];
    let projection = staking_account_projection(&stakes);
    assert_eq!(projection.unclaimed_principal, n(14));
    assert_eq!(projection.active_self_delegated, n(10));
    assert_eq!(projection.active_external_delegated, n(4));
    assert_eq!(projection.received_voting_power(n(3)), zero());
}

#[test]
fn stale_generation_and_key_results_are_rejected() {
    let address = addr(1);
    let mut state = StakingReadState::default();
    let first = key("wallet", 1, "a", address);
    let generation = state.begin(key("wallet", 1, "a", address));
    let second = key("wallet", 1, "b", address);
    let next_generation = state.begin(key("wallet", 1, "b", address));
    assert!(!state.apply_account(&first, generation, "a".to_owned(), Err("stale".to_owned())));
    assert!(state.apply_account(
        &second,
        next_generation,
        "b".to_owned(),
        Err("account".to_owned())
    ));
    assert!(!state.accounts.contains_key(&"a".to_owned()));
}

#[test]
fn reward_evidence_cache_requires_current_identity_tokens_and_ttl() {
    let address = addr(1);
    let token = addr(2);
    let token_two = addr(3);
    let context = key("wallet", 1, "a", address);
    let mut state = StakingReadState::default();
    let generation = state.begin(key("wallet", 1, "a", address));
    let read_at: u128 = 5_000 * NANOS_PER_SECOND;
    assert!(state.apply_global(&context, generation, Ok(zero_staking_metrics()), read_at));
    assert!(state.apply_reward(
        &context,
        generation,
        "a".to_owned(),
        token,
        Ok(Some(evidence(token, U256::one()))),
        read_at
    ));
    assert!(state.apply_bulk_reward(
        &context,
        generation,
        "a".to_owned(),
        vec![token, token_two],
        Ok(Some(pair_evidence(token, token_two))),
        read_at
    ));
    let now: u128 = read_at + 1;
    assert!(cached(&state, &context, "a", address, &[token], now).is_some());
    assert!(cached(&state, &context, "a", address, &[token, token_two], now).is_some());
    assert!(cached(&state, &context, "missing", address, &[token], now).is_none());
    assert!(cached(&state, &context, "a", address, &[token_two, token], now).is_none());
    assert!(cached(
        &state,
        &context,
        "a",
        address,
        &[token],
        now + STAKING_REWARD_EVIDENCE_TTL + NANOS_PER_SECOND
    )
    .is_none());
    state.begin(key("wallet", 1, "a", address));
    assert!(cached(&state, &context, "a", address, &[token], now).is_none());
}

#[test]
fn cached_evidence_may_be_an_hour_old_but_not_older() {
    let address = addr(1);
    let token = addr(2);
    let context = key("wallet", 1, "a", address);
    let mut state = StakingReadState::default();
    let generation = state.begin(key("wallet", 1, "a", address));
    assert!(state.apply_global(&context, generation, Ok(zero_staking_metrics()), 10));
    assert!(state.apply_reward(
        &context,
        generation,
        "a".to_owned(),
        token,
        Ok(Some(evidence(token, n(7)))),
        10
    ));
    let batch = cached(&state, &context, "a", address, &[token], 3_600_000_000_010)
        .expect("evidence of exactly one hour");
    assert_eq!(batch.expected_amounts, vec![n(7)]);
    assert!(cached(&state, &context, "a", address, &[token], 3_600_000_000_011).is_none());
    assert!(cached(&state, &context, "a", address, &[token], 9).is_none());
    assert!(cached(&state, &context, "a", addr(9), &[token], 11).is_none());
    assert!(cached(&state, &context, "a", address, &[], 11).is_none());
}

#[test]
fn cached_bulk_reward_evidence_is_projected_onto_the_selected_subset() {
    let address = addr(1);
    let first = addr(2);
    let second = addr(3);
    let third = addr(4);
    let context = key("wallet", 1, "a", address);
    let mut state = StakingReadState::default();
    let generation = state.begin(key("wallet", 1, "a", address));
    assert!(state.apply_global(&context, generation, Ok(zero_staking_metrics()), 0));
    assert!(state.apply_bulk_reward(
        &context,
        generation,
        "a".to_owned(),
        vec![first, second, third],
        Ok(Some(RewardBatchEvidence {
            reward_tokens: vec![first, second, third],
            starting_interval: zero(),
            ending_interval: U256::one(),
            staking_intervals: vec![zero(), U256::one()],
            hints: vec![zero(), U256::one()],
            claimed_intervals: vec![Vec::new(), vec![U256::one()], Vec::new()],
            expected_amounts: vec![n(5), zero(), zero()],
        })),
        0
    ));
    let now: u128 = 1;

    let projected = cached(&state, &context, "a", address, &[first, third], now)
        .expect("cached evidence projected onto the selection");
    assert_eq!(projected.reward_tokens, vec![first, third]);
    assert_eq!(projected.expected_amounts, vec![n(5), zero()]);
    assert_eq!(
        projected.claimed_intervals,
        vec![Vec::<U256>::new(), Vec::<U256>::new()]
    );
    assert_eq!(projected.starting_interval, zero());
    assert_eq!(projected.ending_interval, U256::one());
    assert_eq!(projected.hints, vec![zero(), U256::one()]);
    assert!(cached(&state, &context, "a", address, &[second, third], now).is_none());
}

#[test]
fn scoped_successes_survive_account_and_asset_failures() {
    let address = addr(1);
    let token = addr(2);
    let token_two = addr(3);
    let mut state = StakingReadState::default();
    let make_key = || GovernanceContextKey {
        wallet_id: Some("wallet".to_owned()),
        chain_id: 1,
        participants: vec![
            GovernanceParticipantIdentity { uuid: "a".to_owned(), address },
            GovernanceParticipantIdentity { uuid: "good".to_owned(), address },
            GovernanceParticipantIdentity { uuid: "pending".to_owned(), address: addr(8) },
        ],
    };
    let context = make_key();
    let generation = state.begin(make_key());
    let metrics = StakingGlobalMetrics {
        total_staked: n(3),
        total_voting_power: n(2),
        deploy_time: zero(),
        snapshot_interval: n(1),
        current_interval: zero(),
        stake_locktime: zero(),
        chain_time: zero(),
    };
    assert!(state.apply_global(&context, generation, Ok(metrics), 0));
    assert!(state.apply_account(
        &context,
        generation,
        "a".to_owned(),
        Err("account failed".to_owned())
    ));
    assert!(state.apply_reward(
        &context,
        generation,
        "a".to_owned(),
        token,
        Ok(Some(evidence(token, n(1)))),
        0
    ));
    assert!(state.apply_account(
        &context,
        generation,
        "good".to_owned(),
        Ok(AccountStakeResult {
            account: address,
            voting_power: Ok(n(4)),
            balance: Ok(n(5)),
            stakes: Ok(Vec::new()),
        })
    ));
    assert!(state.apply_reward(
        &context,
        generation,
        "good".to_owned(),
        token,
        Ok(Some(evidence(token, n(1)))),
        0
    ));
    assert!(state.apply_reward(&context, generation, "good".to_owned(), token_two, Ok(None), 0));
    assert!(state.apply_bulk_reward(
        &context,
        generation,
        "a".to_owned(),
        vec![token, token_two],
        Err("bulk asset failed".to_owned()),
        0
    ));
    assert!(state.apply_bulk_reward(
        &context,
        generation,
        "good".to_owned(),
        vec![token, token_two],
        Ok(Some(pair_evidence(token, token_two))),
        0
    ));
    assert_eq!(state.metrics, Some(metrics));
    assert!(state.accounts.get(&"a".to_owned()).expect("account a").stakes.is_err());
    assert!(matches!(
        state.rewards.get(&RewardKey::new("a", token)),
        Some(RewardView::Positive { .. })
    ));
    assert!(matches!(
        state.rewards.get(&RewardKey::new("good", token)),
        Some(RewardView::Positive { .. })
    ));
    assert_eq!(state.status, StakingRefreshStatus::Loading);
    assert!(state.global_action_ready());
    assert!(state.account_action_ready("good"));
    assert!(!state.account_action_ready("a"));
    assert!(!state.account_action_ready("pending"));
    assert!(state.reward_action_ready("good", token));
    assert!(state.reward_action_ready("a", token));
    assert!(!state.reward_action_ready("pending", token));
    let claim_selection =
        |uuid: &str, actor: Address, tokens: Vec<Address>| StakingActionSelection {
            actor_uuid: uuid.to_owned(),
            actor,
            kind: StakingActionKind::RewardClaimSelected { tokens },
        };
    assert!(state.action_selection_ready(&claim_selection("good", address, vec![token])));
    assert!(state.action_selection_ready(&claim_selection("good", address, Vec::new())));
    assert!(!state.action_selection_ready(&claim_selection(
        "good",
        address,
        vec![token, token_two]
    )));
    assert!(!state.action_selection_ready(&claim_selection("pending", addr(8), Vec::new())));
    assert!(!state.action_selection_ready(&StakingActionSelection {
        actor_uuid: "a".to_owned(),
        actor: address,
        kind: StakingActionKind::Delegate { stake_id: zero() },
    }));
    assert!(state.apply_reward(
        &context,
        generation,
        "good".to_owned(),
        token_two,
        Err("second asset failed".to_owned()),
        0
    ));
    assert!(state.action_selection_ready(&claim_selection("good", address, vec![token])));
    assert!(!state.action_selection_ready(&claim_selection("good", address, vec![token_two])));
    assert!(!state.action_selection_ready(&StakingActionSelection {
        actor_uuid: "good".to_owned(),
        actor: addr(9),
        kind: StakingActionKind::RewardClaimSelected { tokens: vec![token] },
    }));

    let next_generation = state.begin(make_key());
    assert_ne!(generation, next_generation);
    assert_eq!(state.metrics, Some(metrics));
    assert!(state.accounts.contains_key(&"good".to_owned()));
    assert!(state.rewards.contains_key(&RewardKey::new("good", token)));
    assert!(!state.global_action_ready());
    assert!(!state.account_action_ready("good"));
    assert!(!state.reward_action_ready("good", token));
    assert!(!state.apply_bulk_reward(
        &context,
        generation,
        "good".to_owned(),
        vec![token, token_two],
        Ok(Some(pair_evidence(token, token_two))),
        0
    ));
    assert!(!state.action_selection_ready(&claim_selection("good", address, vec![token])));

    assert!(state.apply_global(
        &context,
        next_generation,
        Err("global refresh failed".to_owned()),
        0
    ));
    assert_eq!(state.status, StakingRefreshStatus::Stale);
    assert!(!state.global_action_ready());
}

#[test]
fn empty_participants_finish_fresh_after_global_metrics() {
    let mut state = StakingReadState::default();
    let make_key = || GovernanceContextKey {
        wallet_id: Some("wallet".to_owned()),
        chain_id: 1,
        participants: Vec::new(),
    };
    let context = make_key();
    let generation = state.begin(make_key());
    let metrics = StakingGlobalMetrics {
        total_staked: n(3),
        total_voting_power: n(2),
        deploy_time: zero(),
        snapshot_interval: n(1),
        current_interval: zero(),
        stake_locktime: zero(),
        chain_time: n(10),
    };
    assert!(state.apply_global(&context, generation, Ok(metrics), 0));
    assert!(state.finish(&context, generation));
    assert_eq!(state.status, StakingRefreshStatus::Fresh);
    assert_eq!(state.metrics, Some(metrics));
    assert_eq!(state.accounts.len(), 0);
    assert_eq!(state.rewards.len(), 0);
}

#[test]
fn a_first_refresh_that_fails_shows_its_error() {
    let mut state = StakingReadState::default();
    let context = key("wallet", 1, "a", addr(1));
    let generation = state.begin(key("wallet", 1, "a", addr(1)));
    assert!(state.apply_global(&context, generation, Err("node is down".to_owned()), 0));
    assert_eq!(state.status, StakingRefreshStatus::Error("node is down".to_owned()));
    assert!(!state.global_action_ready());
}

#[test]
fn default_tab_and_context_invalidation_are_explicit() {
    assert_eq!(GovernanceTab::default(), GovernanceTab::Proposals);
    let mut state = StakingReadState::default();
    let context = key("wallet", 1, "a", addr(1));
    let generation = state.begin(key("wallet", 1, "a", addr(1)));
    state.invalidate();
    assert!(!state.finish(&context, generation));
    assert_eq!(state.status, StakingRefreshStatus::Idle);
}

#[test]
fn the_chain_time_goes_on_with_the_clock() {
    let mut state = StakingReadState::default();
    assert_eq!(state.chain_time(5), None);
    let context = key("wallet", 1, "a", addr(1));
    let generation = state.begin(key("wallet", 1, "a", addr(1)));
    let mut metrics = zero_staking_metrics();
    metrics.chain_time = n(1_000);
    assert!(state.apply_global(&context, generation, Ok(metrics), 7 * NANOS_PER_SECOND));
    assert_eq!(state.chain_time(7 * NANOS_PER_SECOND), Some(n(1_000)));
    assert_eq!(state.chain_time(12 * NANOS_PER_SECOND + 5), Some(n(1_005)));
}

#[test]
fn staking_control_ids_bind_actor_subject_and_action() {
    let first = staking_control_id("actor-a", "reward-claim", "token");
    let second = staking_control_id("actor-b", "reward-claim", "token");
    let different_action = staking_control_id("actor-a", "delegate", "token");

    assert_ne!(first, second);
    assert_ne!(first, different_action);
}

fn reward_metadata(
    staking_deploy_time: U256,
    distribution_interval: U256,
) -> GovernorRewardsIntervalMetadata {
    GovernorRewardsIntervalMetadata {
        multiplier: U256::one(),
        staking_deploy_time,
        distribution_interval,
        current_interval: zero(),
    }
}

#[test]
fn reward_interval_countdown_uses_fourteen_day_boundaries() {
    let fourteen_days: u64 = 14 * 24 * 60 * 60;
    let metadata = reward_metadata(n(100), n(fourteen_days));
    let countdown = reward_interval_countdown(&metadata, n(100 + fourteen_days * 3 + 42))
        .expect("deployed reward interval");

    assert_eq!(countdown.interval, n(3));
    assert_eq!(countdown.boundary, n(100 + fourteen_days * 4));
    assert_eq!(
        remaining_reward_interval_seconds(countdown, n(100 + fourteen_days * 3 + 42)),
        Some(fourteen_days - 42)
    );
}

#[test]
fn reward_interval_countdown_rejects_zero_interval_and_predeployment_time() {
    let zero_interval = reward_metadata(n(100), zero());
    assert!(reward_interval_countdown(&zero_interval, n(100)).is_none());

    let metadata = reward_metadata(n(100), n(14));
    assert!(reward_interval_countdown(&metadata, n(99)).is_none());
}

#[test]
fn reward_interval_countdown_rejects_checked_arithmetic_overflow() {
    let increment_overflow = reward_metadata(zero(), U256::one());
    assert!(reward_interval_countdown(&increment_overflow, U256::max()).is_none());

    let multiplication_overflow = reward_metadata(zero(), U256::max());
    assert!(reward_interval_countdown(&multiplication_overflow, U256::max()).is_none());

    let addition_overflow = reward_metadata(U256::max(), U256::one());
    assert!(reward_interval_countdown(&addition_overflow, U256::max()).is_none());
}

#[test]
fn governance_boundary_crossing_uses_the_stored_reward_boundary() {
    let metadata = reward_metadata(n(10), n(5));
    let countdown =
        reward_interval_countdown(&metadata, n(20)).expect("deployed reward interval");
    let mut state = StakingReadState::default();
    state.reward_interval_countdown = Some(countdown);

    assert!(!governance_boundary_crossed(&state, n(24)));
    assert!(governance_boundary_crossed(&state, n(25)));
}

#[test]
fn reward_interval_state_is_generation_scoped_and_cleared_on_refresh() {
    let address = addr(1);
    let context = key("wallet", 1, "a", address);
    let mut state = StakingReadState::default();
    let generation = state.begin(key("wallet", 1, "a", address));
    let countdown = RewardIntervalCountdown { interval: zero(), boundary: U256::one() };
    assert!(state.apply_reward_interval(&context, generation, Some(countdown)));

    let next_generation = state.begin(key("wallet", 1, "a", address));
    assert_ne!(generation, next_generation);
    assert_eq!(state.reward_interval_countdown, None);
    assert!(!state.apply_reward_interval(&context, generation, Some(countdown)));
    assert!(state.apply_reward_interval(&context, next_generation, Some(countdown)));
    state.invalidate();
    assert_eq!(state.reward_interval_countdown, None);
}

#[test]
fn governance_time_tick_new_generation_supersedes_previous_owner() {
    let (owner, armed) = arm_governance_time_tick(None, 10);
    assert_eq!(owner, Some(10));
    assert!(armed);

    let (owner, armed) = arm_governance_time_tick(owner, 10);
    assert_eq!(owner, Some(10));
    assert!(!armed);

    let (owner, armed) = arm_governance_time_tick(owner, 11);
    assert_eq!(owner, Some(11));
    assert!(armed);
}

#[test]
fn stale_governance_time_tick_claim_leaves_new_owner_intact() {
    let (owner, claimed) = claim_governance_time_tick(Some(11), 10);
    assert_eq!(owner, Some(11));
    assert!(!claimed);
}

#[test]
fn governance_time_tick_owner_claims_only_once() {
    let (owner, claimed) = claim_governance_time_tick(Some(11), 11);
    assert_eq!(owner, None);
    assert!(claimed);

    let (owner, claimed) = claim_governance_time_tick(owner, 11);
    assert_eq!(owner, None);
    assert!(!claimed);
}

#[test]
fn non_crossed_governance_time_tick_claim_can_rearm_generation() {
    let (owner, claimed) = claim_governance_time_tick(Some(11), 11);
    assert!(claimed);
    assert_eq!(owner, None);

    let (owner, armed) = arm_governance_time_tick(owner, 11);
    assert_eq!(owner, Some(11));
    assert!(armed);
}

#[test]
fn unlock_boundary_is_checked_at_equality_and_ignores_terminal_history() {
    let owner = addr(4);
    let mut unlocking = stake(owner, 0, owner, 1, StakeState::Unlocking);
    unlocking.locktime = n(20);
    let mut claimed = stake(owner, 1, owner, 1, StakeState::Claimed);
    claimed.locktime = n(10);
    claimed.claimed_time = n(11);
    let mut state = StakingReadState::default();
    state.accounts.insert(
        "a".to_owned(),
        StakingAccountView {
            voting_power: Ok(zero()),
            balance: Ok(zero()),
            stakes: Ok(vec![unlocking, claimed]),
        },
    );
    assert_eq!(nearest_unlock_boundary(&state), Some(n(20)));
    assert!(!governance_boundary_crossed(&state, n(19)));
    assert!(governance_boundary_crossed(&state, n(20)));
    state.invalidate();
    assert!(!governance_boundary_crossed(&state, n(20)));
}
