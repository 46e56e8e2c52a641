//! What keeps a claim from being planned, and an action on a proposal from being drafted.
use wallet::address::Address;
use wallet::governance::action::{
    GovernanceContractVersion, GovernanceProposalStage, ProposalActionKind,
};
use wallet::governance::draft::{
    contracts_for_reward, proposal_position, proposal_review_projection, proposal_rules,
    reward_estimate_context, validate_proposal_action, GovernanceCapacity, GovernanceContracts,
};
use wallet::governance::model::RewardBatchEvidence;
use wallet::governance::reward_plan::{
    ClaimGasEstimate, RewardIntervalAmount, RewardStepPlanner,
};
use wallet::u256::U256;

fn addr(byte: u8) -> Address {
    Address::from_bytes([byte; 20])
}

fn n(value: u64) -> U256 {
    U256::from_u64(value)
}

fn evidence(start: U256, end: U256, amount: U256) -> RewardBatchEvidence {
    RewardBatchEvidence {
        reward_tokens: vec![addr(1)],
        starting_interval: start,
        ending_interval: end,
        staking_intervals: Vec::new(),
        hints: vec![n(0); 4],
        claimed_intervals: vec![Vec::new()],
        expected_amounts: vec![amount],
    }
}

fn pays(interval: U256, amount: U256) -> RewardIntervalAmount {
    RewardIntervalAmount { interval, subtotals: vec![amount] }
}

fn gas(gas_limit: u64) -> Option<ClaimGasEstimate> {
    Some(ClaimGasEstimate { gas_limit, raw_gas_limit: gas_limit, expected_fee_per_gas: 1 })
}

/// Plans a claim, splitting every range but those of one interval.
fn plan(
    evidence: RewardBatchEvidence,
    amounts: Vec<RewardIntervalAmount>,
) -> Result<Vec<(U256, U256)>, String> {
    let mut planner = RewardStepPlanner::new(evidence, amounts, 10)?;
    while let Some(range) = planner.next()? {
        let (estimate, boundary) = if range.end - range.start > 1 {
            (gas(11), Some(range.start))
        } else {
            (gas(10), None)
        };
        planner.resolve(range, estimate, boundary)?;
    }
    let (steps, _) = planner.finish()?;
    Ok(steps.iter().map(|step| (step.starting_interval, step.expected_amounts[0])).collect())
}

fn failed(text: &str) -> Result<Vec<(U256, U256)>, String> {
    Err(text.to_owned())
}

#[test]
fn a_plan_claims_what_the_intervals_pay() {
    assert_eq!(
        plan(evidence(n(5), n(7), n(6)), vec![pays(n(5), n(1)), pays(n(6), n(2)), pays(n(7), n(3))]),
        Ok(vec![(n(5), n(1)), (n(6), n(2)), (n(7), n(3))])
    );
}

#[test]
fn amounts_have_to_be_of_consecutive_intervals() {
    assert_eq!(
        plan(evidence(n(5), n(6), n(3)), Vec::new()),
        failed("Reward interval amounts are empty")
    );
    assert_eq!(
        plan(evidence(n(5), n(6), n(3)), vec![pays(n(5), n(1)), pays(n(7), n(2))]),
        failed("Reward interval amounts are not consecutive")
    );
    assert_eq!(
        plan(evidence(n(5), n(6), n(3)), vec![pays(n(5), U256::max()), pays(n(6), n(1))]),
        failed("Reward interval subtotal overflowed")
    );
}

#[test]
fn amounts_beyond_the_hints_are_refused_for_what_they_are() {
    let amounts = |first: U256, last: U256, amount: U256| {
        let mut amounts: Vec<RewardIntervalAmount> =
            (5..9).map(|interval| pays(n(interval), amount)).collect();
        amounts[0].subtotals[0] = first;
        amounts.push(pays(last, amount));
        amounts
    };
    let own = || evidence(n(5), n(9), n(5));
    assert_eq!(own().hints.len(), 4);
    assert_eq!(amounts(n(1), n(9), n(1)).len(), 5);
    assert_eq!(
        plan(own(), amounts(n(1), n(10), n(1))),
        failed("Reward interval amounts are not consecutive")
    );
    assert_eq!(
        plan(own(), amounts(U256::max(), n(9), n(1))),
        failed("Reward interval subtotal overflowed")
    );
    assert_eq!(
        plan(own(), amounts(n(0), n(9), n(0))),
        failed("Reward ranges do not cover the reviewed evidence")
    );
}

#[test]
fn a_range_that_cannot_be_split_has_to_fit() {
    let mut planner = RewardStepPlanner::new(
        evidence(n(5), n(6), n(3)),
        vec![pays(n(5), n(1)), pays(n(6), n(2))],
        10,
    )
    .expect("two intervals");
    let range = planner.next().expect("in range").expect("one range");
    assert_eq!(
        planner.resolve(range, None, None),
        Err("Reward range does not fit the gas ceiling".to_owned())
    );
}

#[test]
fn a_plan_has_to_cover_what_was_reviewed() {
    assert_eq!(
        plan(
            evidence(n(5), n(7), n(4)),
            vec![pays(n(5), n(1)), pays(n(6), n(0)), pays(n(7), n(3))]
        ),
        failed("Reward ranges are not consecutive positive coverage")
    );
    assert_eq!(
        plan(evidence(n(5), n(6), n(4)), vec![pays(n(5), n(1)), pays(n(6), n(2))]),
        failed("Reward ranges do not cover the reviewed evidence")
    );
    assert_eq!(
        plan(evidence(n(5), n(7), n(3)), vec![pays(n(5), n(1)), pays(n(6), n(2))]),
        failed("Reward ranges do not cover the reviewed evidence")
    );
    assert_eq!(
        plan(evidence(U256::max(), U256::max(), n(1)), vec![pays(U256::max(), n(1))]),
        failed("Reward interval overflowed")
    );
}

#[test]
fn totals_have_to_stay_in_range() {
    let mut planner = RewardStepPlanner::new(
        evidence(n(5), n(6), n(3)),
        vec![pays(n(5), n(1)), pays(n(6), n(2))],
        10,
    )
    .expect("two intervals");
    let range = planner.next().expect("in range").expect("one range");
    planner.resolve(range, None, Some(0)).expect("split");
    while let Some(range) = planner.next().expect("in range") {
        planner.resolve(range, gas(1), None).expect("fits");
    }
    planner.accepted[0].expected_amounts[0] = U256::max();
    assert_eq!(planner.finish(), Err("Reward subtotal overflowed".to_owned()));
}

#[test]
fn a_proposal_has_a_place_in_the_list_of_all() {
    let v2 = GovernanceContractVersion::V2;
    let v1 = GovernanceContractVersion::V1;
    let big = U256::from_u128(1 << 64);
    let own = |count| (count, addr(2));
    let legacy = |count| Some((count, addr(1)));
    let refused = |text: &str| Err(text.to_owned());
    assert_eq!(proposal_position(v2, n(0), own(n(3)), None), Ok((2, addr(2))));
    assert_eq!(proposal_position(v1, n(0), own(n(3)), legacy(n(2))), Ok((4, addr(1))));
    assert_eq!(
        proposal_position(v2, n(0), own(big), None),
        refused("Governance proposal count is too large")
    );
    assert_eq!(
        proposal_position(v1, n(0), own(n(3)), legacy(big)),
        refused("Governance proposal count is too large")
    );
    assert_eq!(proposal_position(v2, big, own(n(3)), None), refused("Proposal index is too large"));
    assert_eq!(
        proposal_position(v1, n(0), own(n(u64::MAX)), legacy(n(2))),
        refused("Proposal position overflowed")
    );
    assert_eq!(proposal_rules(v1, 2, None), Err("Legacy governance rules are unavailable".to_owned()));
    assert_eq!(proposal_rules(v1, 2, Some(1)), Ok(1));
    assert_eq!(proposal_rules(v2, 2, None), Ok(2));
}

#[test]
fn an_action_needs_the_power_that_it_takes() {
    let valid = |kind, amount| validate_proposal_action(kind, Some(n(amount)), Ok(()), Ok(n(5)));
    assert_eq!(valid(ProposalActionKind::Sponsor, 5), Ok(()));
    assert_eq!(
        valid(ProposalActionKind::Sponsor, 6),
        Err("Amount exceeds remaining sponsorship capacity".to_owned())
    );
    assert_eq!(
        valid(ProposalActionKind::Nay, 6),
        Err("Amount exceeds remaining voting capacity".to_owned())
    );
    assert_eq!(valid(ProposalActionKind::Unsponsor, 6), Ok(()));
}

#[test]
fn what_an_action_leaves_stays_in_range() {
    let capacity = |remaining| Ok(GovernanceCapacity { remaining, snapshot_power: Some(n(9)) });
    let project = |kind, amount, sponsorship, remaining| {
        proposal_review_projection(
            kind,
            amount,
            GovernanceProposalStage::Sponsorship,
            sponsorship,
            n(100),
            capacity(remaining),
        )
    };
    let error = |kind, amount, sponsorship, remaining| {
        project(kind, amount, sponsorship, remaining).expect_err("out of range")
    };
    let sponsored =
        project(ProposalActionKind::Sponsor, n(2), n(10), Some(n(5))).expect("in range");
    assert_eq!(sponsored.power_remaining_after, Some(n(3)));
    assert_eq!(sponsored.proposal_sponsorship_after, Some(n(12)));
    assert_eq!(sponsored.sponsorship_threshold, Some(n(100)));
    assert_eq!(
        error(ProposalActionKind::Sponsor, n(6), n(10), Some(n(5))),
        "Sponsorship power after action overflowed"
    );
    assert_eq!(
        error(ProposalActionKind::Sponsor, n(2), U256::max(), Some(n(5))),
        "Proposal sponsorship after action overflowed"
    );
    assert_eq!(
        error(ProposalActionKind::Unsponsor, n(2), n(10), Some(U256::max())),
        "Sponsorship power after action overflowed"
    );
    assert_eq!(
        error(ProposalActionKind::Unsponsor, n(11), n(10), Some(n(5))),
        "Proposal sponsorship after action underflowed"
    );
    assert_eq!(
        error(ProposalActionKind::Sponsor, n(1), n(10), None),
        "Sponsorship capacity has no remaining power"
    );
    assert_eq!(
        error(ProposalActionKind::Yay, n(1), n(10), None),
        "Voting capacity has no remaining power"
    );
    assert_eq!(
        error(ProposalActionKind::Yay, n(6), n(10), Some(n(5))),
        "Voting power after action overflowed"
    );
}

#[test]
fn the_gas_of_a_claim_is_estimated_without_a_wallet() {
    let contracts = GovernanceContracts {
        staking: addr(1),
        governance_token: addr(2),
        governor_rewards: addr(3),
        reward_tokens: Vec::new(),
    };
    assert_eq!(contracts_for_reward(Some(&contracts)), Ok(addr(3)));
    assert_eq!(contracts_for_reward(None), Err("Reward contracts unavailable".to_owned()));
    let context = reward_estimate_context(1, addr(9), addr(3));
    assert!(context.private_wallet_uuid.is_empty() && context.public_account_uuid.is_empty());
    assert_eq!((context.chain_id, context.actor, context.contract), (1, addr(9), addr(3)));
    assert_eq!(context.observed_state.to_text(), format!("0x{}", "0".repeat(64)));
}
