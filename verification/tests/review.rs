//! Reviewing, authorizing and continuing a governance action.
use wallet::accounts::{
    PublicAccountMetadata, PublicAccountScope, PublicAccountSource, PublicAccountStatus,
};
use wallet::address::{Address, B256};
use wallet::governance::action::{
    proposal_participation_key, GovernanceActionIntent, GovernanceActionReview,
    GovernanceContinuation, GovernanceContractVersion, GovernanceDraftRecipe, GovernanceEstimate,
    GovernanceProposal, GovernanceRefreshTarget, GovernanceResolvedAction, GovernanceSpendDraft,
    ProposalActionKind, ProposalActionSelection, RawCall, RewardClaimConfirmedStep,
};
use wallet::governance::authorization::{
    governance_action_amount, governance_authorization_summary, staking_action_identity_matches,
    submit_governance_authorized, PublicActionStepStatus, SubmissionProgress, SummaryTexts,
};
use wallet::governance::draft::{
    fresh_stake_position, participation_capacity, proposal_observed_state, GovernanceCapacity,
    GovernanceCapacityError, GovernanceContracts, GovernanceParticipation, LastSponsored,
    VotingSnapshot,
};
use wallet::governance::draft_flow::{
    build_staking_action_draft, EstimatedCall, StakingCall, StakingDraftInputs,
};
use wallet::governance::flow::GovernanceActionSelection;
use wallet::governance::model::{
    AccountStakeResult, GovernanceContextKey, GovernanceParticipantIdentity, RewardBatchEvidence,
    RewardEvidence, StakePosition, StakeState, StakingGlobalMetrics,
};
use wallet::governance::refresh::{
    continuation_inputs, continuation_metadata, continuation_step, ContinuationNext,
    ContinuationStart,
};
use wallet::governance::review::{
    AuthorizationStart, AuthorizedNext, ReviewContext, ReviewStart, StakingInputs, TargetRefresh,
};
use wallet::governance::reward_plan::RewardClaimIntent;
use wallet::governance::rewards::PublicActionGasFeeSelection;
use wallet::governance::staking::{StakingActionKind, StakingActionSelection};
use wallet::governance::state::{GasFeeEditor, GasFeeMode, GovernanceState, GovernanceTab};
use wallet::u256::U256;

const SECOND: u128 = 1_000_000_000;

fn addr(byte: u8) -> Address {
    Address::from_bytes([byte; 20])
}

fn n(value: u64) -> U256 {
    U256::from_u64(value)
}

fn zero() -> U256 {
    U256::zero()
}

fn hash(byte: &str) -> B256 {
    B256::parse(&byte.repeat(32)).expect("a hash")
}

fn key() -> GovernanceContextKey {
    GovernanceContextKey {
        wallet_id: Some("wallet".to_owned()),
        chain_id: 1,
        participants: vec![GovernanceParticipantIdentity {
            uuid: "actor".to_owned(),
            address: addr(9),
        }],
    }
}

fn accounts(status: PublicAccountStatus) -> Vec<PublicAccountMetadata> {
    vec![PublicAccountMetadata {
        public_account_uuid: "actor".to_owned(),
        address: addr(9),
        label: None,
        display_label: None,
        source: PublicAccountSource::Derived,
        scope: PublicAccountScope::Global,
        status,
    }]
}

fn context<'a>(
    key: &'a GovernanceContextKey,
    accounts: &'a Vec<PublicAccountMetadata>,
) -> ReviewContext<'a> {
    ReviewContext {
        wallet_id: Some("wallet"),
        chain_id: 1,
        context_key: key,
        participants: accounts,
        selected_proposal: None,
        vault_open: true,
        vault_stored: true,
    }
}

fn inputs<'a>() -> StakingInputs<'a> {
    StakingInputs {
        amount: "5",
        delegate: "",
        token_decimals: Some(18),
        chain_enabled: true,
        gas_fee: Ok(PublicActionGasFeeSelection::Auto),
    }
}

fn evidence(token: Address) -> RewardEvidence {
    RewardEvidence {
        token,
        starting_interval: n(2),
        ending_interval: n(3),
        staking_intervals: vec![n(2), n(3)],
        hints: vec![zero(), zero()],
        claimed_intervals: Vec::new(),
        amount: n(8),
    }
}

fn batch(token: Address) -> RewardBatchEvidence {
    evidence(token).to_batch()
}

/// A state that has read the account, with one stake and one reward.
fn state() -> GovernanceState {
    let mut state = GovernanceState::new(GasFeeEditor {
        mode: GasFeeMode::Auto,
        refresh_id: 0,
        refreshing: false,
        quote: None,
        quote_error: None,
        error: None,
    });
    let metrics = StakingGlobalMetrics {
        total_staked: zero(),
        total_voting_power: zero(),
        deploy_time: zero(),
        snapshot_interval: U256::one(),
        current_interval: zero(),
        stake_locktime: zero(),
        chain_time: zero(),
    };
    let stake = StakePosition {
        owner: addr(9),
        id: n(1),
        delegate: addr(9),
        amount: n(40),
        staketime: zero(),
        locktime: zero(),
        claimed_time: zero(),
        state: StakeState::Active,
    };
    state.tab = GovernanceTab::Staking;
    let generation = state.start_staking_refresh(key()).expect("the staking tab");
    assert!(state.staking.apply_global(&key(), generation, Ok(metrics), 0));
    assert!(state.staking.apply_account(
        &key(),
        generation,
        "actor".to_owned(),
        Ok(AccountStakeResult {
            account: addr(9),
            voting_power: Ok(n(40)),
            balance: Ok(n(100)),
            stakes: Ok(vec![stake]),
        })
    ));
    assert!(state.staking.apply_reward(
        &key(),
        generation,
        "actor".to_owned(),
        addr(1),
        Ok(Some(evidence(addr(1)))),
        0
    ));
    state
}

fn contracts() -> GovernanceContracts {
    GovernanceContracts {
        staking: addr(0x51),
        governance_token: addr(0x52),
        governor_rewards: addr(0x53),
        reward_tokens: vec![addr(1)],
    }
}

fn estimate(max_fee_per_gas: u128) -> GovernanceEstimate {
    GovernanceEstimate {
        gas_limit: 100_000,
        raw_gas_limit: 90_000,
        max_fee_per_gas,
        max_priority_fee_per_gas: 3,
        expected_fee_per_gas: 20,
        expected_gas_cost: n(1_800_000),
        payload_fingerprint: hash("44"),
    }
}

fn review() -> GovernanceActionReview {
    GovernanceActionReview { amount: None, native_value: zero(), calldata: vec![0xab, 1] }
}

fn call(intent: GovernanceActionIntent, completed_at: u128) -> EstimatedCall {
    EstimatedCall {
        resolved: GovernanceResolvedAction {
            intent,
            raw: RawCall { to: addr(0x51), value: zero(), data: vec![0xab, 1] },
            fingerprint: hash("33"),
        },
        review: review(),
        estimate: estimate(30),
        completed_at,
    }
}

fn draft_inputs(kind: StakingActionKind) -> StakingDraftInputs {
    StakingDraftInputs {
        selection: StakingActionSelection {
            actor_uuid: "actor".to_owned(),
            actor: addr(9),
            kind,
        },
        context_key: key(),
        wallet_id: "wallet".to_owned(),
        actor_source: PublicAccountSource::Derived,
        amount_input: "5".to_owned(),
        delegate_input: String::new(),
        token_decimals: Some(18),
        gas_fee: PublicActionGasFeeSelection::Auto,
    }
}

fn stake_draft() -> GovernanceSpendDraft {
    let planned = draft_inputs(StakingActionKind::Stake)
        .start(Some(contracts()), Ok(n(5)))
        .expect("an amount")
        .plan(StakingCall::Stake {
            approval: None,
            stake: Some(GovernanceActionIntent::Stake { amount: n(5) }),
            observed_state: hash("66"),
        })
        .expect("a call");
    build_staking_action_draft(
        planned,
        call(GovernanceActionIntent::Stake { amount: n(5) }, 10 * SECOND),
    )
}

/// A state with a stake that is being reviewed, and the generation of the review.
fn reviewing() -> (GovernanceState, u64) {
    let mut state = state();
    let _ = state.open_staking_action("actor".to_owned(), addr(9), StakingActionKind::Stake);
    let (own_key, own_accounts) = (key(), accounts(PublicAccountStatus::Active));
    match state.review_staking_action(&context(&own_key, &own_accounts), inputs()) {
        ReviewStart::Begun { generation, actor_uuid, gas_fee, .. } => {
            assert_eq!(actor_uuid, "actor");
            assert_eq!(gas_fee, PublicActionGasFeeSelection::Auto);
            (state, generation)
        }
        _ => panic!("the review begins"),
    }
}

fn refusal(change: impl Fn(&mut ReviewContext<'_>), status: PublicAccountStatus) -> Option<String> {
    let mut state = state();
    let _ = state.open_staking_action("actor".to_owned(), addr(9), StakingActionKind::Stake);
    let (own_key, own_accounts) = (key(), accounts(status));
    let mut own = context(&own_key, &own_accounts);
    change(&mut own);
    assert!(matches!(state.review_staking_action(&own, inputs()), ReviewStart::Refused));
    assert!(!state.action_flow.pending);
    state.action_flow.error
}

#[test]
fn a_staking_review_is_refused_with_its_reason() {
    let active = PublicAccountStatus::Active;
    assert_eq!(
        refusal(|own| own.wallet_id = None, active),
        Some("Select a wallet before reviewing this action".to_owned())
    );
    assert_eq!(
        refusal(|own| own.vault_open = false, active),
        Some("Wallet vault is locked".to_owned())
    );
    assert_eq!(
        refusal(|own| own.vault_stored = false, active),
        Some("Wallet vault storage is unavailable".to_owned())
    );
    assert_eq!(
        refusal(|_| {}, PublicAccountStatus::Inactive),
        Some("Inactive participant accounts are read-only".to_owned())
    );
    let mut state = state();
    let (own_key, own_accounts) = (key(), accounts(active));
    assert!(matches!(
        state.review_staking_action(&context(&own_key, &own_accounts), inputs()),
        ReviewStart::Ignored
    ));
    let _ = state.open_staking_action("actor".to_owned(), addr(9), StakingActionKind::Stake);
    let nobody = Vec::new();
    assert!(matches!(
        state.review_staking_action(&context(&own_key, &nobody), inputs()),
        ReviewStart::Refused
    ));
    assert_eq!(
        state.action_flow.error,
        Some("Selected Public account is no longer enrolled".to_owned())
    );
    let mut other_key = key();
    other_key.chain_id = 56;
    assert!(matches!(
        state.review_staking_action(&context(&other_key, &own_accounts), inputs()),
        ReviewStart::Refused
    ));
    assert_eq!(
        state.action_flow.error,
        Some("Refresh staking data before reviewing this action".to_owned())
    );
}

#[test]
fn a_claim_with_a_bad_fee_is_not_reviewed() {
    let mut state = state();
    let (own_key, own_accounts) = (key(), accounts(PublicAccountStatus::Active));
    let _ = state.open_staking_action(
        "actor".to_owned(),
        addr(9),
        StakingActionKind::RewardClaimSelected { tokens: vec![addr(1)] },
    );
    let mut bad = inputs();
    bad.gas_fee = Err("Enter a valid max fee".to_owned());
    assert!(matches!(
        state.review_staking_action(&context(&own_key, &own_accounts), bad),
        ReviewStart::Refused
    ));
    assert_eq!(state.reward_gas_fee.error, Some("Enter a valid max fee".to_owned()));
    assert_eq!(state.action_flow.error, None);
    assert!(state.set_reward_claim_selection_all(Vec::new()));
    assert!(matches!(
        state.review_staking_action(&context(&own_key, &own_accounts), inputs()),
        ReviewStart::Refused
    ));
    assert_eq!(
        state.action_flow.error,
        Some("Select at least one reward to claim".to_owned())
    );
}

#[test]
fn a_draft_is_authorized_for_the_action_that_was_reviewed() {
    let (mut state, generation) = reviewing();
    let (own_key, own_accounts) = (key(), accounts(PublicAccountStatus::Active));
    let own = context(&own_key, &own_accounts);
    assert!(matches!(state.review_staking_action(&own, inputs()), ReviewStart::Ignored));
    let recipe = stake_draft().recipe;
    assert!(state
        .finish_staking_review(generation.wrapping_add(1), &recipe, &own_key, Ok(stake_draft()))
        .is_none());
    let draft = state
        .finish_staking_review(generation, &recipe, &own_key, Ok(stake_draft()))
        .expect("the review under way");
    assert!(!state.action_flow.pending);
    assert_eq!(
        state.authorize_prepared_governance_draft(draft, &own),
        AuthorizationStart::Open { hardware: false }
    );
    let draft = stake_draft();
    assert!(state.governance_authorization_identity_matches(&draft, &own));
    assert!(state.governance_authorization_admission_matches(&draft, &own));
    assert_eq!(
        state.revalidate_governance_authorized(&draft, &own, 129 * SECOND),
        AuthorizedNext::Submit
    );
    let next = state.revalidate_governance_authorized(&draft, &own, 130 * SECOND);
    let again = match next {
        AuthorizedNext::Reestimate { generation } => generation,
        _ => panic!("the estimate is two minutes old"),
    };
    assert!(state.action_flow.pending);
    assert_eq!(
        state.finish_expired_estimate(
            again.wrapping_add(1),
            stake_draft(),
            &own,
            Some(estimate(40)),
            Some(review()),
            131 * SECOND
        ),
        AuthorizationStart::Ignored
    );
    assert_eq!(
        state.finish_expired_estimate(
            again,
            stake_draft(),
            &own,
            Some(estimate(40)),
            Some(review()),
            131 * SECOND
        ),
        AuthorizationStart::Open { hardware: false }
    );
    let shown = state.action_flow.draft.as_ref().expect("the draft with its new estimate");
    assert_eq!(shown.estimate.max_fee_per_gas, 40);
    assert_eq!(shown.estimate_completed_at, 131 * SECOND);
}

#[test]
fn a_draft_of_another_context_is_rejected() {
    let (mut state, generation) = reviewing();
    let (own_key, own_accounts) = (key(), accounts(PublicAccountStatus::Active));
    let recipe = stake_draft().recipe;
    let draft = state
        .finish_staking_review(generation, &recipe, &own_key, Ok(stake_draft()))
        .expect("the review under way");
    let inactive = accounts(PublicAccountStatus::Inactive);
    assert_eq!(
        state.authorize_prepared_governance_draft(draft, &context(&own_key, &inactive)),
        AuthorizationStart::Rejected
    );
    assert_eq!(
        state.action_flow.error,
        Some("Governance context changed; review the action again".to_owned())
    );
    assert!(state.action_flow.draft.is_none());
    assert_eq!(
        state.revalidate_governance_authorized(
            &stake_draft(),
            &context(&own_key, &own_accounts),
            10 * SECOND
        ),
        AuthorizedNext::Rejected
    );
}

#[test]
fn an_expired_draft_needs_a_new_estimate_and_review() {
    let expired = || {
        let (mut state, generation) = reviewing();
        let (own_key, own_accounts) = (key(), accounts(PublicAccountStatus::Active));
        let own = context(&own_key, &own_accounts);
        let recipe = stake_draft().recipe;
        let draft = state
            .finish_staking_review(generation, &recipe, &own_key, Ok(stake_draft()))
            .expect("the review under way");
        let _ = state.authorize_prepared_governance_draft(draft, &own);
        match state.revalidate_governance_authorized(&stake_draft(), &own, 999 * SECOND) {
            AuthorizedNext::Reestimate { generation } => (state, generation),
            _ => panic!("the estimate is old"),
        }
    };
    let (own_key, own_accounts) = (key(), accounts(PublicAccountStatus::Active));
    let own = context(&own_key, &own_accounts);
    let (mut state, again) = expired();
    assert_eq!(
        state.finish_expired_estimate(again, stake_draft(), &own, None, None, 0),
        AuthorizationStart::Rejected
    );
    assert_eq!(
        state.action_flow.error,
        Some("Exact Governance call could not be re-estimated; review the action again".to_owned())
    );
    let (mut state, again) = expired();
    assert_eq!(
        state.finish_expired_estimate(again, stake_draft(), &own, Some(estimate(1)), None, 0),
        AuthorizationStart::Rejected
    );
    assert_eq!(
        state.action_flow.error,
        Some("Exact Governance call review became invalid; review the action again".to_owned())
    );
    let (mut state, again) = expired();
    state.cancel_governance_authorization(&GovernanceRefreshTarget::Staking(key()));
    assert!(state.action_flow.selection.is_none());
    assert_eq!(
        state.finish_expired_estimate(again, stake_draft(), &own, Some(estimate(1)), None, 0),
        AuthorizationStart::Ignored
    );
}

fn proposal(index: u64) -> GovernanceProposal {
    GovernanceProposal {
        contract_version: GovernanceContractVersion::V2,
        index: n(index),
        contract_address: addr(0x54),
        proposer: Address::zero(),
        proposal_document: String::new(),
        publish_time: zero(),
        vote_call_time: zero(),
        sponsorship: zero(),
        executed: false,
        yay_votes: zero(),
        nay_votes: zero(),
        sponsor_snapshot_interval: zero(),
        voting_snapshot_interval: zero(),
        actions: Vec::new(),
    }
}

#[test]
fn a_proposal_is_reviewed_while_it_is_shown() {
    let mut state = state();
    assert!(state.start_proposal_participation(&proposal(1), key()).is_none());
    state.tab = GovernanceTab::Proposals;
    let request = state.start_proposal_participation(&proposal(1), key()).expect("proposals shown");
    assert_eq!(request.accounts, vec![addr(9)]);
    assert!(state.open_proposal_action(addr(9), ProposalActionKind::CallVote));
    assert!(!state.open_proposal_action(addr(9), ProposalActionKind::Yay));
    let selection = ProposalActionSelection { actor: addr(9), kind: ProposalActionKind::Yay };
    let (own_key, own_accounts) = (key(), accounts(PublicAccountStatus::Active));
    let shown = proposal(1);
    let mut own = context(&own_key, &own_accounts);
    own.selected_proposal = Some(&shown);
    let generation = match state.review_proposal_action(&shown, selection, Some(n(5)), &own) {
        ReviewStart::Begun { generation, .. } => generation,
        _ => panic!("the review begins"),
    };
    let read_key = proposal_participation_key(&shown, key());
    assert!(state.proposal_participation_key_matches(&shown, &read_key, &own));
    assert!(state
        .finish_proposal_review(
            generation,
            &shown,
            &read_key,
            selection,
            Some(n(6)),
            &own,
            Err("late".to_owned())
        )
        .is_none());
    assert!(state.action_flow.pending);
    assert!(state
        .finish_proposal_review(
            generation,
            &shown,
            &read_key,
            selection,
            Some(n(5)),
            &own,
            Err("Voting has ended".to_owned())
        )
        .is_none());
    assert_eq!(state.action_flow.error, Some("Voting has ended".to_owned()));
    let other = proposal(2);
    own.selected_proposal = Some(&other);
    assert!(matches!(
        state.review_proposal_action(&shown, selection, Some(n(5)), &own),
        ReviewStart::Refused
    ));
    assert_eq!(
        state.action_flow.error,
        Some("Selected proposal changed; refresh before reviewing this action".to_owned())
    );
    assert!(state.action_flow.selection.is_none());
    state.close_proposal_action();
    assert_eq!(state.action_flow.error, None);
}

#[test]
fn what_an_action_changed_is_read_again() {
    let mut state = state();
    let refresh = |state: &GovernanceState, target: &GovernanceRefreshTarget| {
        state.refresh_governance_after_target(target, &key(), Some(&proposal(1)))
    };
    let staking = GovernanceRefreshTarget::Staking(key());
    assert_eq!(
        refresh(&state, &staking),
        TargetRefresh { participation: false, staking: true, proposal_page: true }
    );
    state.tab = GovernanceTab::Proposals;
    assert!(!refresh(&state, &staking).staking);
    let shown = GovernanceRefreshTarget::Proposal(proposal_participation_key(&proposal(1), key()));
    let other = GovernanceRefreshTarget::Proposal(proposal_participation_key(&proposal(2), key()));
    assert!(refresh(&state, &shown).participation);
    assert!(!refresh(&state, &other).participation);
}

fn claim_intent(start: u64, end: u64) -> RewardClaimIntent {
    RewardClaimIntent {
        reward_tokens: vec![addr(1)],
        starting_interval: n(start),
        ending_interval: n(end),
        snapshot_hints: vec![zero()],
        expected_amounts: vec![n(8)],
    }
}

fn claim_action(start: u64, end: u64) -> GovernanceActionIntent {
    GovernanceActionIntent::RewardClaim {
        reward_tokens: vec![addr(1)],
        starting_interval: n(start),
        ending_interval: n(end),
        snapshot_hints: vec![zero()],
        expected_amounts: vec![n(8)],
    }
}

#[test]
fn a_claim_goes_on_with_what_is_left() {
    let mut state = state();
    let claim = StakingActionKind::RewardClaimSelected { tokens: vec![addr(1)] };
    let target = GovernanceRefreshTarget::Staking(key());
    let recipe = GovernanceDraftRecipe::Staking {
        selection: StakingActionSelection {
            actor_uuid: "actor".to_owned(),
            actor: addr(9),
            kind: StakingActionKind::RewardClaimSelected { tokens: vec![addr(1)] },
        },
        context_key: key(),
        amount_input: "5".to_owned(),
        delegate_input: String::new(),
        token_decimals: Some(18),
    };
    assert_eq!(
        state.start_governance_continuation(&target, &recipe, false),
        ContinuationStart::Ignored
    );
    let of_proposal =
        GovernanceRefreshTarget::Proposal(proposal_participation_key(&proposal(1), key()));
    assert_eq!(
        state.start_governance_continuation(&of_proposal, &recipe, true),
        ContinuationStart::Refresh
    );
    let generation = match state.start_governance_continuation(&target, &recipe, true) {
        ContinuationStart::Begun { generation } => generation,
        _ => panic!("the chain is enabled"),
    };
    assert!(state.action_flow.pending);
    let mut custom = draft_inputs(claim);
    custom.gas_fee = PublicActionGasFeeSelection::Custom {
        max_fee_per_gas: 1,
        max_priority_fee_per_gas: 1,
    };
    let planned = custom.plan_next_claim(
        &contracts(),
        claim_intent(3, 3),
        hash("99"),
        vec![RewardClaimConfirmedStep {
            starting_interval: n(2),
            ending_interval: n(2),
            transaction_hash: hash("11"),
        }],
        batch(addr(1)),
    );
    assert_eq!(planned.context.contract, addr(0x53));
    let draft = build_staking_action_draft(planned, call(claim_action(3, 3), 10 * SECOND));
    assert_eq!(
        draft.gas_fee,
        PublicActionGasFeeSelection::Custom { max_fee_per_gas: 30, max_priority_fee_per_gas: 3 }
    );
    let mut sending = false;
    let submission = submit_governance_authorized(&mut sending, &draft).expect("nothing sent yet");
    assert!(matches!(
        submission.progress,
        SubmissionProgress::States(states) if states.len() == 2
            && states[0].status == PublicActionStepStatus::Done
            && states[1].interval == Some((n(3), n(3)))
    ));
    let (own_key, own_accounts) = (key(), accounts(PublicAccountStatus::Active));
    let own = context(&own_key, &own_accounts);
    let prepared_for = stake_draft().context;
    assert!(matches!(
        state.finish_governance_continuation(
            generation.wrapping_add(1),
            &prepared_for,
            &own_key,
            &own,
            Ok(None)
        ),
        ContinuationNext::Ignored
    ));
    assert!(matches!(
        state.finish_governance_continuation(
            generation,
            &prepared_for,
            &own_key,
            &own,
            Ok(Some(draft))
        ),
        ContinuationNext::Authorize { replace_dialog: true, .. }
    ));
    assert!(!state.action_flow.pending);
    assert!(matches!(
        state.finish_governance_continuation(
            generation,
            &prepared_for,
            &own_key,
            &own,
            Err("no node".to_owned())
        ),
        ContinuationNext::Refresh
    ));
    assert_eq!(state.action_flow.error, Some("no node".to_owned()));
}

#[test]
fn a_continuation_needs_a_confirmed_step() {
    let error = |result: Result<(GovernanceContracts, B256), String>| result.err();
    assert_eq!(
        error(continuation_inputs(None, Some(hash("11")))),
        Some("Staking is not deployed on this chain".to_owned())
    );
    assert_eq!(
        error(continuation_inputs(Some(contracts()), None)),
        Some("Reward transaction hash was unavailable".to_owned())
    );
    assert!(continuation_inputs(Some(contracts()), Some(hash("11"))).is_ok());
    assert_eq!(continuation_step::<u8>(Ok(Some(3))), Ok(3));
    assert_eq!(
        continuation_step::<u8>(Ok(None)),
        Err("Reward claim sequence is complete".to_owned())
    );
    assert_eq!(
        continuation_metadata::<u8>(Ok(None)),
        Err("Reward metadata unavailable".to_owned())
    );
}

#[test]
fn the_identity_of_an_action_is_its_recipe_and_target() {
    let draft = stake_draft();
    let selection = StakingActionSelection {
        actor_uuid: "actor".to_owned(),
        actor: addr(9),
        kind: StakingActionKind::Stake,
    };
    let recipe = Some(stake_draft().recipe);
    assert!(staking_action_identity_matches(
        Some(&selection),
        &recipe,
        &draft.target,
        &draft.recipe
    ));
    assert!(!staking_action_identity_matches(None, &recipe, &draft.target, &draft.recipe));
    assert!(!staking_action_identity_matches(
        Some(&selection),
        &None,
        &draft.target,
        &draft.recipe
    ));
    let mut other = key();
    other.chain_id = 56;
    assert!(!staking_action_identity_matches(
        Some(&selection),
        &recipe,
        &GovernanceRefreshTarget::Staking(other),
        &draft.recipe
    ));
}

fn texts() -> SummaryTexts {
    SummaryTexts {
        amount: "5 RAIL".to_owned(),
        native_value: "0 ETH".to_owned(),
        estimated_fee: "0.1 ETH".to_owned(),
        rewards: vec!["8 TKN".to_owned()],
        stage: "Voting".to_owned(),
        power_remaining: "10".to_owned(),
        power_snapshot: "60".to_owned(),
        sponsorship_after: "490".to_owned(),
        sponsorship_threshold: "500".to_owned(),
        unlock_period: "30s".to_owned(),
        claimable_date: "tomorrow".to_owned(),
    }
}

#[test]
fn what_is_signed_is_shown() {
    let draft = stake_draft();
    assert_eq!(governance_action_amount(&draft), Some(n(5)));
    let summary = governance_authorization_summary(&draft, Some(addr(0x52)), &texts());
    let rows: Vec<(&str, &str)> =
        summary.rows.iter().map(|row| (row.label.as_str(), row.value.as_str())).collect();
    assert_eq!(
        rows,
        vec![
            ("Actor", "0x0909090909090909090909090909090909090909"),
            ("Chain", "1"),
            ("Contract", "0x5151515151515151515151515151515151515151"),
            ("Method", "stake"),
            ("Native value", "0 ETH"),
            ("Estimated fee", "0.1 ETH"),
            ("Amount", "5 RAIL"),
        ]
    );
    assert_eq!(summary.rows[6].token, Some(addr(0x52)));
    assert_eq!(summary.calldata, "0xab01");
    assert!(summary.warnings.is_empty());
    assert_eq!(
        summary.description,
        "Review the exact zero-value contract call before signing."
    );
}

#[test]
fn a_claim_shows_its_rewards_and_ranges() {
    let planned = draft_inputs(StakingActionKind::RewardClaimSelected { tokens: vec![addr(1)] })
        .plan_next_claim(&contracts(), claim_intent(2, 3), hash("99"), Vec::new(), batch(addr(1)));
    let draft = build_staking_action_draft(planned, call(claim_action(2, 3), 0));
    assert!(matches!(
        draft.continuation,
        Some(GovernanceContinuation::Reward { ref confirmed, .. }) if confirmed.is_empty()
    ));
    let summary = governance_authorization_summary(&draft, None, &texts());
    let tail: Vec<(&str, &str)> = summary.rows[6..]
        .iter()
        .map(|row| (row.label.as_str(), row.value.as_str()))
        .collect();
    assert_eq!(tail, vec![("Reward", "8 TKN"), ("Reward ranges", "2–3")]);
    assert_eq!(summary.rows[3].value, "claim rewards");
}

#[test]
fn every_reward_of_a_claim_is_shown() {
    let planned = draft_inputs(StakingActionKind::RewardClaimSelected { tokens: vec![addr(1)] })
        .plan_next_claim(&contracts(), claim_intent(2, 3), hash("99"), Vec::new(), batch(addr(1)));
    let mut draft = build_staking_action_draft(planned, call(claim_action(2, 3), 0));
    draft.resolved.intent = GovernanceActionIntent::RewardClaim {
        reward_tokens: vec![addr(1), addr(2), addr(3)],
        starting_interval: n(2),
        ending_interval: n(3),
        snapshot_hints: vec![zero()],
        expected_amounts: vec![n(8), n(9)],
    };
    let mut written = texts();
    written.rewards = vec!["8 TKN".to_owned(), "9 TWO".to_owned(), "unused".to_owned()];
    let summary = governance_authorization_summary(&draft, None, &written);
    let tail: Vec<(&str, &str, Option<Address>)> = summary.rows[6..]
        .iter()
        .map(|row| (row.label.as_str(), row.value.as_str(), row.token))
        .collect();
    assert_eq!(
        tail,
        vec![
            ("Reward", "8 TKN", Some(addr(1))),
            ("Reward", "9 TWO", Some(addr(2))),
            ("Reward ranges", "2–3", None),
        ]
    );
}

#[test]
fn an_unlock_of_a_delegated_stake_warns_and_takes_two_calls() {
    let mut planned = draft_inputs(StakingActionKind::Undelegate { stake_id: n(1) })
        .start(Some(contracts()), Err("unread".to_owned()))
        .expect("a stake")
        .plan(StakingCall::Delegation {
            intent: GovernanceActionIntent::Undelegate { stake_id: n(1) },
            observed_state: hash("66"),
            previous_delegate: addr(8),
            next_delegate: addr(9),
        })
        .expect("a call");
    planned.plan.workflow = Some(wallet::governance::action::GovernanceWorkflow::UndelegateThenUnlock);
    let draft =
        build_staking_action_draft(planned, call(GovernanceActionIntent::Undelegate { stake_id: n(1) }, 0));
    let summary = governance_authorization_summary(&draft, None, &texts());
    assert_eq!(
        summary.warnings,
        vec!["Delegation changes this stake's voting power and future reward recipient."]
    );
    assert_eq!(summary.rows.last().map(|row| row.value.as_str()), Some("Undelegate → Unlock"));
    assert_eq!(summary.rows[6].value, "none");
    assert!(summary.description.starts_with("Review the initial exact call"));
}

fn participation(voted: u64) -> GovernanceParticipation {
    GovernanceParticipation {
        current_voting_power: n(100),
        sponsorship_snapshot: VotingSnapshot { interval: n(4), voting_power: n(60), hint: n(1) },
        voting_snapshot: VotingSnapshot { interval: n(5), voting_power: n(70), hint: n(2) },
        sponsored: n(10),
        voted: n(voted),
        last_sponsored: LastSponsored { last_sponsor_time: n(9), proposal_id: n(3) },
    }
}

#[test]
fn the_observed_state_depends_on_everything_that_was_read() {
    let observed = |index, voted, actor| {
        proposal_observed_state(&proposal(index), &participation(voted), actor)
    };
    assert_eq!(observed(1, 20, addr(9)), observed(1, 20, addr(9)));
    assert_ne!(observed(1, 20, addr(9)), observed(2, 20, addr(9)));
    assert_ne!(observed(1, 20, addr(9)), observed(1, 21, addr(9)));
    assert_ne!(observed(1, 20, addr(9)), observed(1, 20, addr(8)));
    let mut executed = proposal(1);
    executed.executed = true;
    assert_ne!(
        proposal_observed_state(&executed, &participation(20), addr(9)),
        observed(1, 20, addr(9))
    );
}

#[test]
fn stakes_and_capacities_have_to_be_there() {
    let position = |id| StakePosition {
        owner: addr(9),
        id: n(id),
        delegate: addr(9),
        amount: n(40),
        staketime: zero(),
        locktime: zero(),
        claimed_time: zero(),
        state: StakeState::Active,
    };
    assert_eq!(
        fresh_stake_position(None, n(1)),
        Err("Stake owner read returned no account".to_owned())
    );
    assert_eq!(
        fresh_stake_position(Some(Ok(vec![position(2)])), n(1)),
        Err("Stake no longer exists; refresh before authorizing".to_owned())
    );
    assert_eq!(fresh_stake_position(Some(Ok(vec![position(1)])), n(1)), Ok(position(1)));
    let capacity = |remaining| Ok(GovernanceCapacity { remaining, snapshot_power: None });
    assert_eq!(participation_capacity(capacity(Some(n(5)))), Ok(n(5)));
    assert_eq!(
        participation_capacity(capacity(None)),
        Err(GovernanceCapacityError::SnapshotUnavailable)
    );
    assert_eq!(
        participation_capacity(Err("no node".to_owned())),
        Err(GovernanceCapacityError::Read("no node".to_owned()))
    );
}

#[test]
fn an_action_that_is_dropped_takes_no_draft() {
    let (mut state, generation) = reviewing();
    let own_key = key();
    let recipe = stake_draft().recipe;
    state.invalidate_action();
    assert!(state
        .finish_staking_review(generation, &recipe, &own_key, Ok(stake_draft()))
        .is_none());
    assert!(matches!(
        state.action_flow.selection,
        Some(GovernanceActionSelection::Staking(_)) | None
    ));
}
