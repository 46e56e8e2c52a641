//! Rewards: their value, the fee of claiming them, and the selection of a claim.
use wallet::address::Address;
use wallet::governance::flow::{GovernanceActionFlowState, GovernanceActionSelection};
use wallet::governance::labels::{
    compact_gas, format_reward_amount, format_staking_amount, gwei_label, reward_net,
    reward_net_label, reward_selection_gas_summary, unlock_period_label, AmountTexts,
};
use wallet::governance::model::{
    GovernanceContextKey, GovernanceParticipantIdentity, RewardBatchEvidence, RewardEvidence,
    RewardKey, StakingGlobalMetrics,
};
use wallet::governance::action::{ProposalActionKind, ProposalActionSelection};
use wallet::governance::reward_selection::{
    reviewed_evidence, reward_evidence_mode_for_selection, RewardEvidenceMode,
};
use wallet::governance::rewards::{
    default_reward_claim_selection_for, reward_automatic_added_fee, reward_claim_added_gas, reward_claim_fee_caps,
    reward_claim_fee_per_gas, reward_claim_shared_gas, reward_cost_presentation, reward_selection_cost,
    reward_usd_label, reward_usd_total, GasFeeQuote, PublicActionGasFeeSelection, RewardClaimStep,
    RewardSelectionEstimate, RewardSelectionEstimateState, RewardUsdState,
};
use wallet::governance::staking::{
    RewardView, StakingActionKind, StakingActionSelection, StakingReadState,
};
use wallet::keyed::{KeyMap, KeySet};
use wallet::u256::U256;

fn addr(byte: u8) -> Address {
    Address::from_bytes([byte; 20])
}

fn n(value: u64) -> U256 {
    U256::from_u64(value)
}

fn zero() -> U256 {
    U256::zero()
}

fn units(tenth_power: u32) -> U256 {
    U256::from_u128(10u128.pow(tenth_power))
}

fn positive_reward(token: Address, amount: U256) -> RewardView {
    RewardView::Positive { amount, evidence: evidence(token, amount) }
}

fn evidence(token: Address, amount: U256) -> RewardEvidence {
    RewardEvidence {
        token,
        starting_interval: zero(),
        ending_interval: zero(),
        staking_intervals: vec![zero()],
        hints: vec![zero()],
        claimed_intervals: Vec::new(),
        amount,
    }
}

/// Prices in millionths of a dollar for 10^18 units of a token.
fn priced(amount: u128, rate: u128) -> U256 {
    U256::from_u128(amount * rate / 10u128.pow(18))
}

fn dollars(micro: U256) -> String {
    let micro = micro.to_u64().expect("a small value");
    format!("${}.{:02}", micro / 1_000_000, micro % 1_000_000 / 10_000)
}

fn map<V>(entries: Vec<(Address, V)>) -> KeyMap<Address, V> {
    let mut map = KeyMap::new();
    for (key, value) in entries {
        map.insert(key, value);
    }
    map
}

#[test]
fn priced_positive_reward_has_formatted_usd_value() {
    let token = addr(1);
    let amount: u128 = 3 * 10u128.pow(18);
    let usd = priced(amount, 2_000_000);
    assert_eq!(
        reward_usd_label(
            Some(&positive_reward(token, U256::from_u128(amount))),
            Some(usd),
            &dollars(usd)
        ),
        Some("$6.00".to_owned())
    );
}

#[test]
fn resolved_reward_total_adds_rows_and_zero_needs_no_price() {
    let priced_token = addr(1);
    let zero_token = addr(2);
    let amount: u128 = 3 * 10u128.pow(18);
    let mut rewards: KeyMap<RewardKey, RewardView> = KeyMap::new();
    rewards.insert(
        RewardKey::new("account", priced_token),
        positive_reward(priced_token, U256::from_u128(amount)),
    );
    rewards.insert(RewardKey::new("account", zero_token), RewardView::Zero);
    let mut resolved: KeySet<RewardKey> = KeySet::new();
    resolved.insert(RewardKey::new("account", priced_token));
    resolved.insert(RewardKey::new("account", zero_token));
    let values = map(vec![(priced_token, priced(amount, 2_000_000))]);

    assert_eq!(
        reward_usd_total("account", &vec![priced_token, zero_token], &rewards, &resolved, &values),
        RewardUsdState::Value(n(6_000_000))
    );
    assert_eq!(
        reward_usd_label(
            rewards.get(&RewardKey::new("account", zero_token)),
            None,
            &dollars(zero())
        ),
        Some("$0.00".to_owned())
    );
}

#[test]
fn reward_total_fails_closed_for_unresolved_or_overflowed_rows() {
    let first = addr(1);
    let second = addr(2);
    let unpriced = addr(3);
    let unpriced_reward = positive_reward(unpriced, U256::one());
    assert_eq!(
        reward_usd_label(Some(&unpriced_reward), None, ""),
        Some("USD unavailable".to_owned())
    );

    let one = |token: Address, reward: RewardView| {
        let mut rewards: KeyMap<RewardKey, RewardView> = KeyMap::new();
        rewards.insert(RewardKey::new("account", token), reward);
        let mut resolved: KeySet<RewardKey> = KeySet::new();
        resolved.insert(RewardKey::new("account", token));
        (rewards, resolved)
    };
    let values = map(vec![(first, U256::one()), (second, U256::one())]);
    assert_eq!(
        reward_usd_total("account", &vec![first], &KeyMap::new(), &KeySet::new(), &values),
        RewardUsdState::Loading
    );
    let (rewards, resolved) = one(first, RewardView::Unavailable("failed".to_owned()));
    assert_eq!(
        reward_usd_total("account", &vec![first], &rewards, &resolved, &values),
        RewardUsdState::Unavailable
    );
    let (rewards, resolved) = one(unpriced, positive_reward(unpriced, U256::one()));
    assert_eq!(
        reward_usd_total("account", &vec![unpriced], &rewards, &resolved, &values),
        RewardUsdState::Unavailable
    );

    let (mut rewards, mut resolved) = one(first, positive_reward(first, U256::max()));
    rewards.insert(RewardKey::new("account", second), positive_reward(second, U256::max()));
    resolved.insert(RewardKey::new("account", second));
    let values = map(vec![(first, U256::max()), (second, U256::max())]);
    assert_eq!(
        reward_usd_total("account", &vec![first, second], &rewards, &resolved, &values),
        RewardUsdState::Unavailable
    );
}

#[test]
fn staking_formatter_uses_deployment_symbols_and_effective_override() {
    let token = addr(7);
    let texts = AmountTexts { compact: "1.5".to_owned(), full: "1.500000".to_owned() };
    for symbol in ["RAIL", "RAILBSC", "RAILPOLY"] {
        assert_eq!(
            format_staking_amount(token, Some(token), &texts, None, Some(symbol), "0x0707…0707"),
            format!("1.5 {symbol}")
        );
    }
    assert_eq!(
        format_staking_amount(
            token,
            Some(token),
            &texts,
            Some("CUSTOM"),
            Some("RAIL"),
            "0x0707…0707"
        ),
        "1.5 CUSTOM"
    );
}

fn key(wallet: &str, chain: u64, uuid: &str, address: Address) -> GovernanceContextKey {
    GovernanceContextKey {
        wallet_id: Some(wallet.to_owned()),
        chain_id: chain,
        participants: vec![GovernanceParticipantIdentity { uuid: uuid.to_owned(), address }],
    }
}

fn zero_staking_metrics() -> StakingGlobalMetrics {
    StakingGlobalMetrics {
        total_staked: zero(),
        total_voting_power: zero(),
        deploy_time: zero(),
        snapshot_interval: U256::one(),
        current_interval: zero(),
        stake_locktime: zero(),
        chain_time: zero(),
    }
}

#[test]
fn reward_cost_presentation_prices_and_flags_below_fee_rows() {
    let gas_cost: u128 = 10u128.pow(15);
    let unpriced_native = reward_cost_presentation(
        None,
        "0.001 ETH".to_owned(),
        RewardUsdState::Value(n(1_000)),
    );
    assert_eq!(unpriced_native.usd, None);
    assert_eq!(unpriced_native.label, "0.001 ETH");
    assert!(!unpriced_native.below_fee);

    let fee_usd = priced(gas_cost, 2_000 * 1_000_000);
    assert_eq!(fee_usd, n(2_000_000));
    let priced_fee = || Some((fee_usd, dollars(fee_usd)));
    let below = reward_cost_presentation(
        priced_fee(),
        "0.001 ETH".to_owned(),
        RewardUsdState::Value(fee_usd.checked_sub(U256::one()).expect("a positive fee")),
    );
    assert_eq!(below.usd, Some(fee_usd));
    assert_eq!(below.label, dollars(fee_usd));
    assert!(below.below_fee);
    assert!(
        !reward_cost_presentation(
            priced_fee(),
            "0.001 ETH".to_owned(),
            RewardUsdState::Value(fee_usd)
        )
        .below_fee
    );
    assert!(
        !reward_cost_presentation(
            priced_fee(),
            "0.001 ETH".to_owned(),
            RewardUsdState::Unavailable
        )
        .below_fee
    );
}

#[test]
fn default_claim_selection_uses_marginal_fees_instead_of_standalone_costs() {
    let chain = 1;
    let address = addr(1);
    let covered = addr(2);
    let below = addr(3);
    let rate: u128 = 2_000 * 1_000_000;
    let context = key("wallet", chain, "a", address);
    let mut state = StakingReadState::default();
    let generation = state.begin(key("wallet", chain, "a", address));
    assert!(state.apply_global(&context, generation, Ok(zero_staking_metrics()), 0));
    // A whole native token of reward covers the fee; a ten-thousandth of one does not.
    let amounts = [(covered, 10u128.pow(18)), (below, 10u128.pow(14))];
    for (token, amount) in amounts {
        assert!(state.apply_reward(
            &context,
            generation,
            "a".to_owned(),
            token,
            Ok(Some(evidence(token, U256::from_u128(amount)))),
            0
        ));
    }
    let values = map(amounts.iter().map(|(token, amount)| (*token, priced(*amount, rate))).collect());

    let mut estimate = RewardSelectionEstimate {
        evidence: None,
        steps: Vec::new(),
        expected_fee_per_gas: 1_000_000_000,
        added_gas: KeyMap::new(),
        shared_gas: Some(500_000),
    };
    // The small reward cannot cover its standalone fee, but covers its added batch fee.
    for (covered_gas, below_gas, expected) in [
        (Some(50_000u64), Some(50_000u64), vec![covered, below]),
        (Some(50_000), Some(200_000), vec![covered]),
        (Some(50_000), None, vec![covered, below]),
        (Some(2_000_000_000), Some(200_000), vec![]),
        (None, None, vec![covered, below]),
    ] {
        estimate.added_gas = map(vec![(covered, covered_gas), (below, below_gas)]);
        let fees = cost_values(&estimate, &[covered, below], None, rate);
        assert_eq!(
            default_reward_claim_selection_for(
                &state,
                "a",
                &vec![below, covered],
                &estimate,
                None,
                &values,
                &fees
            ),
            expected,
            "added gas: covered={covered_gas:?}, below={below_gas:?}",
        );
    }
}

/// What the fees of these tokens are worth, each as the automatic fee per gas prices it.
fn cost_values(
    estimate: &RewardSelectionEstimate,
    tokens: &[Address],
    expected: Option<u128>,
    rate: u128,
) -> KeyMap<U256, U256> {
    let mut values: KeyMap<U256, U256> = KeyMap::new();
    for token in tokens {
        if let Some(cost) = reward_automatic_added_fee(estimate, *token, expected) {
            let amount = u128::from(cost.l0) | u128::from(cost.l1) << 64;
            values.insert(cost, priced(amount, rate));
        }
    }
    values
}

#[test]
fn the_first_selection_is_priced_at_the_automatic_fee() {
    let token = addr(2);
    let estimate = RewardSelectionEstimate {
        evidence: None,
        steps: Vec::new(),
        expected_fee_per_gas: 3,
        added_gas: map(vec![(token, Some(50_000u64)), (addr(3), None)]),
        shared_gas: None,
    };
    // The estimate's own price holds until a quote arrives.
    assert_eq!(
        reward_automatic_added_fee(&estimate, token, None),
        Some(U256::from_u64(150_000))
    );
    assert_eq!(
        reward_automatic_added_fee(&estimate, token, Some(11)),
        Some(U256::from_u64(550_000))
    );
    assert_eq!(reward_automatic_added_fee(&estimate, addr(3), Some(11)), None);
    assert_eq!(reward_automatic_added_fee(&estimate, addr(4), Some(11)), None);
}

fn step(estimated_gas: u64) -> RewardClaimStep {
    RewardClaimStep {
        reward_tokens: Vec::new(),
        starting_interval: zero(),
        ending_interval: zero(),
        subtotal: zero(),
        expected_amounts: Vec::new(),
        estimated_gas,
    }
}

/// The fee per gas that a transaction with these caps is expected to pay over a base fee.
fn expected_fee(base_fee: u128, caps: Option<(u128, u128)>) -> Option<u128> {
    // A block may raise the base fee by an eighth.
    caps.map(|(max_fee, tip)| max_fee.min(base_fee + base_fee / 8 + tip))
}

#[test]
fn reward_claim_costs_reprice_cached_gas_with_the_current_quote() {
    let steps = vec![step(120_000), step(90_000)];
    let quote = GasFeeQuote {
        suggested_max_fee_per_gas: 20,
        suggested_max_priority_fee_per_gas: 2,
    };
    let custom = PublicActionGasFeeSelection::Custom {
        max_fee_per_gas: 20,
        max_priority_fee_per_gas: 2,
    };
    // Auto must use the refreshed quote, just like the displayed gas controls.
    let auto_caps = reward_claim_fee_caps(PublicActionGasFeeSelection::Auto, Some(quote));
    let auto_price = reward_claim_fee_per_gas(
        PublicActionGasFeeSelection::Auto,
        expected_fee(8, auto_caps),
        3,
    );
    assert_eq!(reward_selection_cost(&steps, auto_price), Some(n(2_310_000)));
    let custom_price =
        reward_claim_fee_per_gas(custom, expected_fee(8, reward_claim_fee_caps(custom, Some(quote))), 3);
    assert_eq!(
        reward_selection_cost(&steps, custom_price),
        Some(n(210_000 * 11))
    );
    assert_eq!(custom_price, auto_price);
    // Without a quote the maximum fee is the conservative estimate, using the same gas.
    assert_eq!(reward_claim_fee_caps(custom, None), None);
    assert_eq!(
        reward_selection_cost(&steps, reward_claim_fee_per_gas(custom, None, 3)),
        Some(n(4_200_000))
    );
    assert_eq!(reward_selection_cost(&vec![step(u64::MAX), step(1)], 1), None);
}

#[test]
fn reward_claim_marginals_exclude_shared_work_and_reconcile_the_selected_batch() {
    let first = addr(1);
    let second = addr(2);
    let empty: u64 = 520_000;
    let first_alone: u64 = 1_272_000;
    let second_alone: u64 = 1_274_000;
    let combined: u64 = 1_746_000;
    let added_first = reward_claim_added_gas(true, combined, second_alone);
    let added_second = reward_claim_added_gas(false, first_alone, combined);
    assert_eq!(added_first, Some(472_000));
    assert_eq!(added_second, Some(474_000));
    let mut added = map(vec![(first, added_first), (second, added_second)]);
    let shared = reward_claim_shared_gas(&vec![first, second], Some(combined), &added).unwrap();
    assert_eq!(shared, 800_000);
    assert_eq!(shared + added_first.unwrap() + added_second.unwrap(), combined);
    assert_eq!(reward_claim_shared_gas(&Vec::new(), Some(empty), &added), Some(empty));
    added.insert(first, reward_claim_added_gas(true, first_alone, empty));
    assert_eq!(
        reward_claim_shared_gas(&vec![first], Some(first_alone), &added),
        Some(empty)
    );
    // A failed or inconsistent comparison is unavailable, never a fake zero fee.
    added.insert(first, None);
    assert_eq!(reward_claim_shared_gas(&vec![first], Some(first_alone), &added), None);
    assert_eq!(reward_claim_added_gas(true, first_alone, combined), None);
    assert_eq!(reward_claim_added_gas(false, combined, first_alone), None);
}

fn reward_claim_flow(kind: StakingActionKind) -> GovernanceActionFlowState {
    let mut flow = GovernanceActionFlowState::default();
    flow.set_staking_selection(StakingActionSelection {
        actor_uuid: "a".to_owned(),
        actor: addr(1),
        kind,
    });
    flow
}

#[test]
fn reward_claim_selection_toggles_stay_unique_and_ascending() {
    let first = addr(2);
    let second = addr(3);
    let third = addr(4);
    let mut flow =
        reward_claim_flow(StakingActionKind::RewardClaimSelected { tokens: vec![second] });

    assert!(flow.set_reward_claim_selection_token(third, true));
    assert!(flow.set_reward_claim_selection_token(first, true));
    assert!(flow.set_reward_claim_selection_token(first, true));
    assert_eq!(flow.reward_claim_selection_tokens(), Some(&vec![first, second, third]));
    assert!(flow.set_reward_claim_selection_token(second, false));
    assert!(flow.set_reward_claim_selection_token(second, false));
    assert_eq!(flow.reward_claim_selection_tokens(), Some(&vec![first, third]));
    assert!(flow.set_reward_claim_selection_all(vec![third, first, third]));
    assert_eq!(flow.reward_claim_selection_tokens(), Some(&vec![first, third]));

    assert_eq!(
        flow.staking_selection(),
        Some(&StakingActionSelection {
            actor_uuid: "a".to_owned(),
            actor: addr(1),
            kind: StakingActionKind::RewardClaimSelected { tokens: vec![first, third] },
        })
    );

    let mut stake_flow = reward_claim_flow(StakingActionKind::Stake);
    assert!(!stake_flow.set_reward_claim_selection_token(second, true));
    assert_eq!(stake_flow.reward_claim_selection_tokens(), None);
}

fn pending(flow: &GovernanceActionFlowState) -> bool {
    matches!(flow.reward_selection_estimate, Some(RewardSelectionEstimateState::Pending))
}

#[test]
fn stale_reward_selection_estimates_are_discarded() {
    let token = addr(2);
    let mut flow =
        reward_claim_flow(StakingActionKind::RewardClaimSelected { tokens: vec![token] });

    let generation = flow.begin_reward_selection_estimate();
    assert!(pending(&flow));
    assert!(!flow
        .apply_reward_selection_estimate(generation.wrapping_sub(1), Err("stale".to_owned())));
    assert!(pending(&flow));
    assert!(flow.apply_reward_selection_estimate(generation, Err("unavailable".to_owned())));
    assert!(matches!(
        &flow.reward_selection_estimate,
        Some(RewardSelectionEstimateState::Unavailable(text)) if text == "unavailable"
    ));

    assert!(flow.set_reward_claim_selection_token(token, false));
    let emptied = flow.begin_reward_selection_estimate();
    assert_ne!(emptied, generation);
    assert!(pending(&flow));
    assert!(!flow.apply_reward_selection_estimate(generation, Err("old selection".to_owned())));
}

fn batch(tokens: Vec<Address>) -> RewardBatchEvidence {
    RewardBatchEvidence {
        expected_amounts: vec![U256::one(); tokens.len()],
        claimed_intervals: vec![Vec::new(); tokens.len()],
        reward_tokens: tokens,
        starting_interval: zero(),
        ending_interval: zero(),
        staking_intervals: vec![zero()],
        hints: vec![zero()],
    }
}

#[test]
fn reward_evidence_mode_prefers_the_reviewed_selection_estimate() {
    let first = addr(2);
    let second = addr(3);
    let estimate = RewardSelectionEstimateState::Estimated(RewardSelectionEstimate {
        evidence: Some(batch(vec![first])),
        steps: vec![RewardClaimStep {
            reward_tokens: vec![first],
            starting_interval: zero(),
            ending_interval: zero(),
            subtotal: zero(),
            expected_amounts: vec![U256::one()],
            estimated_gas: 120_000,
        }],
        expected_fee_per_gas: 1,
        added_gas: KeyMap::new(),
        shared_gas: None,
    });

    assert!(matches!(
        reward_evidence_mode_for_selection(Some(&estimate), &vec![first], None),
        RewardEvidenceMode::CachedInitial { steps: Some(steps), .. } if steps.len() == 1
    ));
    assert!(matches!(
        reward_evidence_mode_for_selection(
            Some(&estimate),
            &vec![first, second],
            Some(batch(vec![first, second])),
        ),
        RewardEvidenceMode::CachedInitial { steps: None, .. }
    ));
    assert!(matches!(
        reward_evidence_mode_for_selection(
            Some(&RewardSelectionEstimateState::Pending),
            &vec![first],
            None,
        ),
        RewardEvidenceMode::Fresh
    ));
}

#[test]
fn cached_evidence_about_other_tokens_is_refused() {
    let first = addr(2);
    let second = addr(3);
    let mode = RewardEvidenceMode::CachedInitial { evidence: batch(vec![first]), steps: None };
    assert_eq!(
        reviewed_evidence(mode, &vec![first, second]).err(),
        Some("Cached reward evidence token set changed; refresh before reviewing again".to_owned())
    );
    let mode = RewardEvidenceMode::CachedInitial {
        evidence: batch(vec![first]),
        steps: Some(Vec::new()),
    };
    let (kept, steps) = reviewed_evidence(mode, &vec![first])
        .expect("the same tokens")
        .expect("cached evidence");
    assert_eq!(kept.reward_tokens, vec![first]);
    assert!(steps.is_none(), "an empty plan is planned again");
    assert!(reviewed_evidence(RewardEvidenceMode::Fresh, &vec![first])
        .expect("nothing to refuse")
        .is_none());
}

#[test]
fn governance_action_flow_keeps_one_protocol_selection() {
    let mut flow = GovernanceActionFlowState::default();
    flow.set_proposal_selection(ProposalActionSelection {
        actor: Address::zero(),
        kind: ProposalActionKind::CallVote,
    });
    assert!(matches!(flow.selection, Some(GovernanceActionSelection::Proposal(_))));
    assert!(flow.staking_selection().is_none());

    flow.set_staking_selection(StakingActionSelection {
        actor_uuid: "account".to_owned(),
        actor: Address::zero(),
        kind: StakingActionKind::Stake,
    });
    assert!(!matches!(flow.selection, Some(GovernanceActionSelection::Proposal(_))));
    assert_eq!(
        flow.staking_selection().map(|selection| selection.actor_uuid.as_str()),
        Some("account"),
    );
}

#[test]
fn gas_is_shown_in_thousands_and_fees_to_one_decimal() {
    assert_eq!(compact_gas(499), "0k");
    assert_eq!(compact_gas(999), "1k");
    assert_eq!(compact_gas(472_000), "472k");
    assert_eq!(gwei_label(1_250_000_000), "1.2 gwei");
    assert_eq!(gwei_label(12_000_000_000), "12.0 gwei");
    assert_eq!(
        reward_selection_gas_summary(&vec![step(120_000)], 2_500_000_000),
        "120k gas · 2.5 gwei"
    );
    assert_eq!(
        reward_selection_gas_summary(&vec![step(120_000), step(90_000)], 2_500_000_000),
        "2 transactions · 120k + 90k gas"
    );
}

#[test]
fn the_net_of_a_reward_has_a_sign() {
    assert_eq!(reward_net(n(5), n(3)), (n(2), false));
    assert_eq!(reward_net(n(3), n(5)), (n(2), true));
    assert_eq!(reward_net_label(n(5), n(3), "$2.00"), ("$2.00".to_owned(), false));
    assert_eq!(reward_net_label(n(3), n(5), "$2.00"), ("-$2.00".to_owned(), true));
}

#[test]
fn lock_times_are_shown_in_days() {
    assert_eq!(unlock_period_label(n(30 * 24 * 60 * 60), "ignored"), "30 days");
    assert_eq!(unlock_period_label(n(24 * 60 * 60), "ignored"), "1 day");
    assert_eq!(unlock_period_label(n(90), "1 min"), "1 min");
}

#[test]
fn reward_amounts_of_other_tokens_need_decimals() {
    let token = addr(5);
    assert_eq!(
        format_reward_amount(token, None, n(12), "ignored", Some("0.12")),
        "0.12"
    );
    assert_eq!(format_reward_amount(token, Some(token), n(12), "0.000012", None), "0.000012");
    assert_eq!(format_reward_amount(token, None, units(2), "ignored", None), "100");
}
