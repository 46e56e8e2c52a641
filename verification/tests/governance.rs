//! Governance: participants, actions and their drafts, and the state of the workspace.
use wallet::accounts::{
    PublicAccountMetadata, PublicAccountScope, PublicAccountSource, PublicAccountStatus,
};
use wallet::address::{Address, B256};
use wallet::gateway::drafts::GatewayDraftStatus;
use wallet::gateway::handoff::{
    GatewaySwitchContinuation, GatewayWalletSwitchRequest, SwitchPhase, WalletGenerations,
};
use wallet::gateway::private_draft::DeliveryFormKind;
use wallet::governance::action::{
    proposal_participation_key, proposal_participation_key_matches, GovernanceActionIntent,
    GovernanceActionReview, GovernanceContractKind, GovernanceContractVersion, GovernanceEstimate,
    GovernanceProposal, GovernanceProposalStage, GovernanceRefreshTarget, GovernanceResolvedAction,
    GovernanceStakingReviewProjection, GovernanceWorkflow, ProposalActionKind,
    ProposalActionSelection, RawCall, RewardClaimConfirmedStep,
};
use wallet::governance::authorization::{
    finish_governance_submission, governance_authorization_estimate_is_fresh,
    governance_expired_authorization_disposition, governance_progress_step,
    governance_reward_progress_steps, submit_governance_authorized,
    GovernanceExpiredAuthorizationDisposition, PublicActionProgressStep, PublicActionStepStatus,
    SelectedChain, SubmissionNext, SubmissionProgress, SubmissionResult,
    GOVERNANCE_SPEND_AUTHORIZATION_TTL,
};
use wallet::governance::draft::{
    GovernanceCapacity, GovernanceContracts, GovernanceParticipation, LastSponsored, UnlockPlan,
    VotingSnapshot,
};
use wallet::governance::draft_flow::{
    build_governance_spend_draft, build_staking_action_draft, governance_token_balance,
    EstimatedCall, GovernanceOverview, GovernanceRules, GovernanceSummary, ProposalDraftInputs,
    StakingCall, StakingDraftInputs, StakingDraftRead,
};
use wallet::governance::model::{
    GovernanceContextKey, GovernanceParticipantIdentity, RewardBatchEvidence, StakePosition,
    StakeState, StakingGlobalMetrics,
};
use wallet::governance::participants::{
    enrollment_label, participant_choices, participant_summary, picked_values, ParticipantSummary,
};
use wallet::governance::participation::{ProposalParticipationRow, ProposalParticipationState};
use wallet::governance::reward_plan::{
    whole_claim_step, ClaimGasEstimate, RewardClaimIntent, RewardIntervalAmount, RewardStepPlanner,
};
use wallet::governance::rewards::PublicActionGasFeeSelection;
use wallet::governance::staking::{StakingActionKind, StakingActionSelection};
use wallet::governance::state::{
    GasFeeEditor, GasFeeMode, GovernanceState, GovernanceTab, StakingDialogStart, TabStart,
};
use wallet::governance::table::{
    compact_stake_id_preview, details_open, stake_row_buttons, stake_table_row, StakeKey,
    StakeTable, StakeTableAction, StakeTexts,
};
use wallet::keyed::{KeyMap, KeySet};
use wallet::root::{
    DraftForm, EnrollmentStart, GatewayDraftExecution, ParticipantResolution, UnshieldAssetKey,
    WalletRoot,
};
use wallet::u256::U256;

fn addr(byte: u8) -> Address {
    Address::from_bytes([byte; 20])
}

fn n(value: u64) -> U256 {
    U256::from_u64(value)
}

fn zero() -> U256 {
    U256::zero()
}

fn account(uuid: &str, status: PublicAccountStatus, global: bool) -> PublicAccountMetadata {
    PublicAccountMetadata {
        public_account_uuid: uuid.to_owned(),
        address: Address::from_bytes([uuid.as_bytes()[0]; 20]),
        label: Some(uuid.to_owned()),
        display_label: Some(uuid.to_owned()),
        source: PublicAccountSource::Imported,
        scope: if global {
            PublicAccountScope::Global
        } else {
            PublicAccountScope::PrivateWallet { wallet_uuid: "wallet".to_owned() }
        },
        status,
    }
}

fn set(texts: &[&str]) -> KeySet<String> {
    let mut set = KeySet::new();
    for text in texts {
        set.insert((*text).to_owned());
    }
    set
}

#[test]
fn participant_states_cover_scopes_inactive_search_and_empty_results() {
    let accounts = vec![
        account("a", PublicAccountStatus::Active, false),
        account("b", PublicAccountStatus::Inactive, false),
        account("g", PublicAccountStatus::Active, true),
        account("i", PublicAccountStatus::Inactive, true),
    ];
    let selected = set(&["b", "g"]);
    let summary = participant_summary(&accounts, &selected, Some("wallet"));
    assert_eq!(summary, ParticipantSummary { selected: 2, inactive: 1 });
    let choices = participant_choices(&accounts, &selected, Some("wallet"), "");
    assert_eq!(
        choices.iter().map(|choice| choice.uuid.as_str()).collect::<Vec<_>>(),
        vec!["a", "b", "g"]
    );
    assert!(!choices.iter().any(|choice| choice.uuid == "i"));
    assert!(participant_choices(&accounts, &selected, Some("wallet"), "missing").is_empty());
    assert_eq!(
        participant_choices(&accounts, &set(&[]), Some("wallet"), "alice").len(),
        0
    );
    assert_eq!(
        participant_choices(&accounts, &selected, Some("other"), "")
            .iter()
            .map(|choice| choice.uuid.as_str())
            .collect::<Vec<_>>(),
        vec!["g"]
    );
}

#[test]
fn accounts_are_found_by_label_and_address() {
    let accounts = vec![account("Alice", PublicAccountStatus::Active, false)];
    let choices = participant_choices(&accounts, &set(&[]), Some("wallet"), " aLiC ");
    assert_eq!(choices.len(), 1);
    assert!(choices[0].matches("  ALI"));
    assert!(choices[0].matches("0x4141"));
    assert!(!choices[0].matches("0x42"));
    assert_eq!(choices[0].detail("0x4141…4141"), "0x4141…4141");
    assert_eq!(enrollment_label(0), "Enroll accounts...");
    assert_eq!(enrollment_label(1), "1 account enrolled");
    assert_eq!(enrollment_label(12), "12 accounts enrolled");
}

#[test]
fn a_picker_of_another_wallet_changes_nothing() {
    let accounts = vec![
        account("a", PublicAccountStatus::Active, false),
        account("i", PublicAccountStatus::Inactive, false),
    ];
    let values = vec!["i".to_owned(), "a".to_owned(), "gone".to_owned()];
    assert_eq!(
        picked_values(&values, &accounts, Some("wallet"), Some("wallet"), &vec!["i".to_owned()]),
        Some(vec!["i".to_owned(), "a".to_owned()])
    );
    assert_eq!(
        picked_values(&values, &accounts, Some("wallet"), Some("other"), &Vec::new()),
        None
    );
}

fn context() -> GovernanceContextKey {
    GovernanceContextKey {
        wallet_id: Some("wallet".to_owned()),
        chain_id: 1,
        participants: vec![GovernanceParticipantIdentity {
            uuid: "account".to_owned(),
            address: Address::zero(),
        }],
    }
}

fn test_proposal(index: u64) -> GovernanceProposal {
    GovernanceProposal {
        contract_version: GovernanceContractVersion::V2,
        index: n(index),
        contract_address: Address::zero(),
        proposer: Address::zero(),
        proposal_document: String::new(),
        publish_time: zero(),
        vote_call_time: zero(),
        sponsorship: zero(),
        executed: false,
        yay_votes: zero(),
        nay_votes: zero(),
        sponsor_snapshot_interval: zero(),
        voting_snapshot_interval: zero(),
        actions: Vec::new(),
    }
}

#[test]
fn proposal_key_requires_selected_proposal_and_current_participation() {
    let proposal = test_proposal(1);
    let other_proposal = test_proposal(2);
    let key = proposal_participation_key(&proposal, context());

    assert!(proposal_participation_key_matches(
        &proposal,
        Some(&proposal),
        &context(),
        Some(&key),
        &key,
    ));
    assert!(!proposal_participation_key_matches(
        &proposal,
        Some(&other_proposal),
        &context(),
        Some(&key),
        &key,
    ));
    assert!(!proposal_participation_key_matches(
        &proposal,
        Some(&proposal),
        &context(),
        None,
        &key,
    ));
}

#[test]
fn governance_intents_use_semantic_progress_steps() {
    assert_eq!(
        governance_progress_step(
            &GovernanceActionIntent::Yay {
                proposal_version: GovernanceContractVersion::V2,
                proposal_index: zero(),
                amount: zero(),
                snapshot_interval: zero(),
                snapshot_hint: zero(),
            },
            None,
        ),
        PublicActionProgressStep::Vote,
    );
    assert_eq!(
        governance_progress_step(
            &GovernanceActionIntent::RewardClaim {
                reward_tokens: Vec::new(),
                starting_interval: zero(),
                ending_interval: zero(),
                snapshot_hints: Vec::new(),
                expected_amounts: Vec::new(),
            },
            Some(3),
        ),
        PublicActionProgressStep::RewardClaim(3),
    );
}

fn hash(byte: &str) -> B256 {
    B256::parse(&format!("0x{}", byte.repeat(32))).expect("a hash")
}

#[test]
fn reward_progress_projection_preserves_ranges_and_hashes() {
    let step_intent = |start: u64, end: u64| GovernanceActionIntent::RewardClaim {
        reward_tokens: vec![addr(1)],
        starting_interval: n(start),
        ending_interval: n(end),
        snapshot_hints: vec![zero()],
        expected_amounts: vec![n(1)],
    };
    let confirmed = vec![
        RewardClaimConfirmedStep {
            starting_interval: n(2),
            ending_interval: n(3),
            transaction_hash: hash("11"),
        },
        RewardClaimConfirmedStep {
            starting_interval: n(4),
            ending_interval: n(6),
            transaction_hash: hash("22"),
        },
    ];

    let projected = governance_reward_progress_steps(&confirmed, &step_intent(8, 9))
        .expect("reward intent projects to shared progress");
    let first_hash = format!("0x{}", "11".repeat(32));
    let second_hash = format!("0x{}", "22".repeat(32));
    assert_eq!(projected.len(), 3);
    assert_eq!(projected[0].interval, Some((n(2), n(3))));
    assert_eq!(projected[0].tx_hash.as_deref(), Some(first_hash.as_str()));
    assert_eq!(projected[1].interval, Some((n(4), n(6))));
    assert_eq!(projected[1].tx_hash.as_deref(), Some(second_hash.as_str()));
    assert_eq!(projected[2].interval, Some((n(8), n(9))));
    assert_eq!(projected[2].status, PublicActionStepStatus::Pending);
    assert!(projected[2].tx_hash.is_none());
}

#[test]
fn governance_authorization_estimate_expires_at_ttl_boundary() {
    assert!(governance_authorization_estimate_is_fresh(119_000_000_000));
    assert!(!governance_authorization_estimate_is_fresh(GOVERNANCE_SPEND_AUTHORIZATION_TTL));
    assert!(!governance_authorization_estimate_is_fresh(121_000_000_000));
}

#[test]
fn expired_authorization_completion_prioritizes_generation_ownership() {
    assert_eq!(
        governance_expired_authorization_disposition(false, false),
        GovernanceExpiredAuthorizationDisposition::StaleGeneration
    );
    assert_eq!(
        governance_expired_authorization_disposition(false, true),
        GovernanceExpiredAuthorizationDisposition::StaleGeneration
    );
    assert_eq!(
        governance_expired_authorization_disposition(true, false),
        GovernanceExpiredAuthorizationDisposition::CurrentIdentityMismatch
    );
    assert_eq!(
        governance_expired_authorization_disposition(true, true),
        GovernanceExpiredAuthorizationDisposition::CurrentIdentityMatch
    );
}

fn participation() -> GovernanceParticipation {
    GovernanceParticipation {
        current_voting_power: n(100),
        sponsorship_snapshot: VotingSnapshot { interval: n(4), voting_power: n(60), hint: n(1) },
        voting_snapshot: VotingSnapshot { interval: n(5), voting_power: n(70), hint: n(2) },
        sponsored: n(10),
        voted: n(20),
        last_sponsored: LastSponsored { last_sponsor_time: n(9), proposal_id: n(3) },
    }
}

fn overview(count: u64, address: Address) -> GovernanceOverview {
    GovernanceOverview {
        v2: GovernanceSummary {
            proposal_count: n(count),
            address,
            rules: GovernanceRules { sponsor_threshold: n(500) },
        },
        v1: None,
    }
}

fn proposal_inputs(kind: ProposalActionKind, amount: u64) -> ProposalDraftInputs {
    let proposal = test_proposal(3);
    let key = proposal_participation_key(&proposal, context());
    ProposalDraftInputs {
        proposal,
        key,
        selection: ProposalActionSelection { actor: addr(9), kind },
        amount: Some(n(amount)),
        wallet_id: "wallet".to_owned(),
        actor_uuid: "account".to_owned(),
        actor_source: PublicAccountSource::Imported,
        gas_fee: PublicActionGasFeeSelection::Auto,
    }
}

fn estimated(intent: GovernanceActionIntent) -> EstimatedCall {
    EstimatedCall {
        resolved: GovernanceResolvedAction {
            intent,
            raw: RawCall { to: addr(7), value: zero(), data: vec![1, 2, 3] },
            fingerprint: hash("33"),
        },
        review: GovernanceActionReview { amount: None, native_value: zero(), calldata: vec![1, 2, 3] },
        estimate: GovernanceEstimate {
            gas_limit: 100_000,
            raw_gas_limit: 90_000,
            max_fee_per_gas: 30,
            max_priority_fee_per_gas: 3,
            expected_fee_per_gas: 20,
            expected_gas_cost: n(1_800_000),
            payload_fingerprint: hash("44"),
        },
        completed_at: 55,
    }
}

#[test]
fn a_sponsorship_is_drafted_stage_by_stage() {
    let located = proposal_inputs(ProposalActionKind::Sponsor, 40)
        .locate(Some(overview(24, Address::zero())), 10)
        .expect("a deployed proposal");
    // The newest of twenty-four comes first, so that the fourth stands at position twenty.
    assert_eq!(located.page, 2);
    let mut fresh = test_proposal(3);
    fresh.sponsorship = n(450);
    let found = located.find(vec![test_proposal(4), fresh]).expect("still listed");
    let guarded = found
        .participate(&vec![(addr(1), Err("other".to_owned())), (addr(9), Ok(participation()))])
        .expect("a participating account");
    let planned = guarded.plan(Ok(()), Ok(n(50))).expect("enough power");
    assert_eq!(planned.context.contract_kind, GovernanceContractKind::Voting);
    assert!(matches!(
        planned.intent,
        GovernanceActionIntent::Sponsor { amount, snapshot_interval, .. }
            if amount == n(40) && snapshot_interval == n(4)
    ));
    let call = estimated(GovernanceActionIntent::CallVote {
        proposal_version: GovernanceContractVersion::V2,
        proposal_index: n(3),
    });
    let draft = build_governance_spend_draft(
        planned,
        call,
        GovernanceProposalStage::Sponsorship,
        Ok(GovernanceCapacity { remaining: Some(n(50)), snapshot_power: Some(n(60)) }),
    )
    .expect("a draft");
    let review = draft.proposal_review.expect("a projection");
    assert_eq!(review.power_remaining_after, Some(n(10)));
    assert_eq!(review.proposal_sponsorship_after, Some(n(490)));
    assert_eq!(review.sponsorship_threshold, Some(n(500)));
    assert_eq!(
        draft.gas_fee,
        PublicActionGasFeeSelection::Custom { max_fee_per_gas: 30, max_priority_fee_per_gas: 3 }
    );
    assert!(matches!(draft.target, GovernanceRefreshTarget::Proposal(_)));

    let mut sending = false;
    let submission = submit_governance_authorized(&mut sending, &draft).expect("nothing under way");
    assert!(sending);
    assert_eq!(submission.gas_limit, 100_000);
    assert_eq!(submission.call.data, vec![1, 2, 3]);
    assert!(matches!(
        submission.progress,
        SubmissionProgress::Steps(steps) if steps == vec![PublicActionProgressStep::CallVote]
    ));
    assert!(submit_governance_authorized(&mut sending, &draft).is_none());
}

#[test]
fn an_action_on_a_proposal_is_refused_with_its_reason() {
    let inputs = || proposal_inputs(ProposalActionKind::Yay, 40);
    assert_eq!(
        inputs().locate(None, 10).err(),
        Some("Governance is not deployed on this chain".to_owned())
    );
    assert_eq!(
        inputs().locate(Some(overview(3, Address::zero())), 10).err(),
        Some("Proposal is no longer available".to_owned())
    );
    assert_eq!(
        inputs().locate(Some(overview(24, addr(5))), 10).err(),
        Some("Proposal contract changed; refresh before authorizing".to_owned())
    );
    let mut legacy = inputs();
    legacy.proposal.contract_version = GovernanceContractVersion::V1;
    assert_eq!(
        legacy.locate(Some(overview(24, Address::zero())), 10).err(),
        Some("Legacy governance is unavailable".to_owned())
    );
    let located = || inputs().locate(Some(overview(24, Address::zero())), 10).expect("located");
    assert_eq!(
        located().find(vec![test_proposal(4)]).err(),
        Some("Proposal changed or is no longer available; refresh before authorizing".to_owned())
    );
    let fresh = || located().find(vec![test_proposal(3)]).expect("listed");
    assert_eq!(
        fresh().participate(&Vec::new()).err(),
        Some("Selected account participation is unavailable; refresh before authorizing".to_owned())
    );
    let guarded =
        || fresh().participate(&vec![(addr(9), Ok(participation()))]).expect("participating");
    assert_eq!(
        guarded().plan(Err("Voting has ended".to_owned()), Ok(n(50))).err(),
        Some("Voting has ended".to_owned())
    );
    assert_eq!(
        guarded().plan(Ok(()), Ok(n(39))).err(),
        Some("Amount exceeds remaining voting capacity".to_owned())
    );
    let planned = guarded().plan(Ok(()), Ok(n(40))).expect("enough power");
    let call = estimated(GovernanceActionIntent::Stake { amount: n(1) });
    assert_eq!(
        build_governance_spend_draft(
            planned,
            call,
            GovernanceProposalStage::Voting,
            Ok(GovernanceCapacity { remaining: None, snapshot_power: None }),
        )
        .err(),
        Some("Voting capacity has no remaining power".to_owned())
    );
}

fn contracts() -> GovernanceContracts {
    GovernanceContracts {
        staking: addr(0x51),
        governance_token: addr(0x52),
        governor_rewards: addr(0x53),
        reward_tokens: vec![addr(0x61)],
    }
}

fn staking_inputs(kind: StakingActionKind) -> StakingDraftInputs {
    StakingDraftInputs {
        selection: StakingActionSelection {
            actor_uuid: "account".to_owned(),
            actor: addr(9),
            kind,
        },
        context_key: context(),
        wallet_id: "wallet".to_owned(),
        actor_source: PublicAccountSource::Derived,
        amount_input: "5".to_owned(),
        delegate_input: " 0x1111111111111111111111111111111111111111 ".to_owned(),
        token_decimals: Some(18),
        gas_fee: PublicActionGasFeeSelection::Auto,
    }
}

#[test]
fn a_stake_is_approved_before_it_is_made() {
    let unread = || Err::<U256, String>("unread".to_owned());
    assert_eq!(
        staking_inputs(StakingActionKind::Stake).start(None, Ok(n(5))).err(),
        Some("Staking is not deployed on this chain".to_owned())
    );
    assert_eq!(
        staking_inputs(StakingActionKind::Stake).start(Some(contracts()), Ok(zero())).err(),
        Some("Amount must be greater than zero".to_owned())
    );
    let started = staking_inputs(StakingActionKind::Stake)
        .start(Some(contracts()), Ok(n(5)))
        .expect("an amount");
    assert!(matches!(started.read, StakingDraftRead::Balance { amount } if amount == n(5)));
    let planned = started
        .plan(StakingCall::Stake {
            approval: Some(GovernanceActionIntent::GovernanceTokenApproval {
                spender: addr(0x51),
                amount: n(5),
            }),
            stake: None,
            observed_state: hash("66"),
        })
        .expect("a call");
    assert_eq!(planned.plan.contract, addr(0x52));
    assert_eq!(planned.plan.contract_kind, GovernanceContractKind::GovernanceToken);
    let draft = build_staking_action_draft(
        planned,
        estimated(GovernanceActionIntent::Stake { amount: n(5) }),
    );
    assert_eq!(draft.workflow, Some(GovernanceWorkflow::StakeApproval));
    assert_eq!(
        draft.staking_review,
        Some(GovernanceStakingReviewProjection::Stake { amount: n(5) })
    );
    let mut sending = false;
    let submission = submit_governance_authorized(&mut sending, &draft).expect("nothing under way");
    assert!(matches!(
        submission.progress,
        SubmissionProgress::Steps(steps) if steps
            == vec![PublicActionProgressStep::GovernanceApprove, PublicActionProgressStep::Stake]
    ));

    let started = staking_inputs(StakingActionKind::Stake)
        .start(Some(contracts()), Ok(n(5)))
        .expect("an amount");
    assert_eq!(
        started
            .plan(StakingCall::Stake { approval: None, stake: None, observed_state: hash("66") })
            .err(),
        Some("Stake plan did not produce a stake call".to_owned())
    );
    assert_eq!(
        governance_token_balance(None),
        Err("Governance token is not deployed on this chain".to_owned())
    );
    let mut unnamed = staking_inputs(StakingActionKind::Delegate { stake_id: n(1) });
    assert!(matches!(
        staking_inputs(StakingActionKind::Delegate { stake_id: n(1) })
            .start(Some(contracts()), unread())
            .expect("a delegate")
            .read,
        StakingDraftRead::Delegation { delegate, .. } if delegate == addr(0x11)
    ));
    unnamed.delegate_input = "nobody".to_owned();
    assert_eq!(
        unnamed.start(Some(contracts()), unread()).err(),
        Some("Enter a valid delegate address".to_owned())
    );
}

#[test]
fn a_claim_takes_ascending_tokens_and_keeps_its_evidence() {
    let claim = |tokens: Vec<Address>| {
        staking_inputs(StakingActionKind::RewardClaimSelected { tokens })
            .start(Some(contracts()), Err("unread".to_owned()))
    };
    assert_eq!(
        claim(Vec::new()).err(),
        Some("Select at least one reward to claim".to_owned())
    );
    assert_eq!(
        claim(vec![addr(2), addr(1)]).err(),
        Some("Selected reward tokens must be unique and ascending by address".to_owned())
    );
    let evidence = || RewardBatchEvidence {
        reward_tokens: vec![addr(1)],
        starting_interval: n(2),
        ending_interval: n(3),
        staking_intervals: vec![n(2), n(3)],
        hints: vec![zero(), zero()],
        claimed_intervals: vec![Vec::new()],
        expected_amounts: vec![n(8)],
    };
    assert_eq!(
        claim(vec![addr(1)])
            .expect("a token")
            .plan(StakingCall::RewardClaim {
                first: None,
                fingerprint: hash("77"),
                evidence: evidence(),
            })
            .err(),
        Some("Reward claim plan is empty".to_owned())
    );
    let planned = claim(vec![addr(1)])
        .expect("a token")
        .plan(StakingCall::RewardClaim {
            first: Some(RewardClaimIntent {
                reward_tokens: vec![addr(1)],
                starting_interval: n(2),
                ending_interval: n(3),
                snapshot_hints: vec![zero(), zero()],
                expected_amounts: vec![n(8)],
            }),
            fingerprint: hash("77"),
            evidence: evidence(),
        })
        .expect("a step");
    assert_eq!(planned.plan.contract, addr(0x53));
    assert!(planned.continuation.is_some());
}

#[test]
fn an_unlock_shows_when_its_stake_can_be_claimed() {
    let position = StakePosition {
        owner: addr(9),
        id: n(1),
        delegate: addr(8),
        amount: n(40),
        staketime: zero(),
        locktime: zero(),
        claimed_time: zero(),
        state: StakeState::Active,
    };
    let mut metrics = StakingGlobalMetrics {
        total_staked: zero(),
        total_voting_power: zero(),
        deploy_time: zero(),
        snapshot_interval: zero(),
        current_interval: zero(),
        stake_locktime: n(30),
        chain_time: n(1_000),
    };
    let started = || {
        staking_inputs(StakingActionKind::Unlock { stake_id: n(1) })
            .start(Some(contracts()), Err("unread".to_owned()))
            .expect("a stake")
    };
    let undelegate = || {
        Ok(UnlockPlan::UndelegateFirst {
            intent: GovernanceActionIntent::Undelegate { stake_id: n(1) },
            observed_state: hash("88"),
        })
    };
    let planned = started()
        .plan(StakingCall::Unlock { position, metrics, planned: undelegate() })
        .expect("a call");
    assert_eq!(planned.plan.workflow, Some(GovernanceWorkflow::UndelegateThenUnlock));
    assert_eq!(
        planned.plan.staking_review,
        Some(GovernanceStakingReviewProjection::Unlock {
            owner: addr(9),
            stake_id: n(1),
            amount: n(40),
            previous_delegate: addr(8),
            stake_locktime: n(30),
            projected_claim_timestamp: n(1_030),
        })
    );
    metrics.chain_time = U256::max();
    assert_eq!(
        started().plan(StakingCall::Unlock { position, metrics, planned: undelegate() }).err(),
        Some("Unlock claim timestamp overflowed".to_owned())
    );
}

#[test]
fn the_end_of_a_submission_counts_for_the_selected_wallet_and_chain() {
    let on = |chain_id| SelectedChain { wallet_id: Some("wallet".to_owned()), chain_id };
    let mut sending = true;
    assert!(matches!(
        finish_governance_submission(
            &mut sending,
            &on(1),
            &on(56),
            true,
            false,
            SubmissionResult::Sent(Vec::new())
        ),
        SubmissionNext::Ignored
    ));
    assert!(sending);
    let sent = vec!["no hash".to_owned(), format!("0x{}", "ab".repeat(32))];
    let next = finish_governance_submission(
        &mut sending,
        &on(1),
        &on(1),
        true,
        true,
        SubmissionResult::Sent(sent),
    );
    assert!(matches!(
        next,
        SubmissionNext::Continue { confirmed_hash: Some(own) } if own == hash("ab")
    ));
    assert!(!sending);
    assert!(matches!(
        finish_governance_submission(
            &mut sending,
            &on(1),
            &on(1),
            true,
            false,
            SubmissionResult::TaskFailed("cancelled".to_owned())
        ),
        SubmissionNext::Fail(error) if error == "Governance action task failed: cancelled"
    ));
}

#[test]
fn a_claim_that_is_too_large_is_split_in_halves() {
    let evidence = RewardBatchEvidence {
        reward_tokens: vec![addr(1)],
        starting_interval: n(0),
        ending_interval: n(3),
        staking_intervals: vec![n(0), n(1), n(2), n(3)],
        hints: vec![n(10), n(11), n(12), n(13)],
        claimed_intervals: vec![Vec::new()],
        expected_amounts: vec![n(10)],
    };
    let amounts: Vec<RewardIntervalAmount> = (0..4u64)
        .map(|at| RewardIntervalAmount { interval: n(at), subtotals: vec![n(at + 1)] })
        .collect();
    let mut planner = RewardStepPlanner::new(evidence, amounts, 1_000).expect("four intervals");
    let gas = |gas_limit| ClaimGasEstimate {
        gas_limit,
        raw_gas_limit: gas_limit - 100,
        expected_fee_per_gas: 5,
    };
    let mut asked = Vec::new();
    while let Some(range) = planner.next().expect("no overflow") {
        asked.push((range.start, range.end));
        let intent = planner.intent(&range);
        assert_eq!(intent.snapshot_hints.len(), range.end - range.start);
        let fits = range.end - range.start <= 2;
        let estimate = gas(if fits { 900 } else { 1_500 });
        let middle = (range.start + range.end) / 2 - 1;
        planner.resolve(range, Some(estimate), Some(middle)).expect("a range that can be split");
    }
    assert_eq!(asked, vec![(0, 4), (0, 2), (2, 4)]);
    let (steps, fee) = planner.finish().expect("a complete plan");
    assert_eq!(fee, 5);
    assert_eq!(
        steps.iter().map(|step| (step.starting_interval, step.ending_interval)).collect::<Vec<_>>(),
        vec![(n(0), n(1)), (n(2), n(3))]
    );
    assert_eq!(steps[0].expected_amounts, vec![n(3)]);
    assert_eq!(steps[1].expected_amounts, vec![n(7)]);
    assert_eq!(steps[0].estimated_gas, 800);
}

#[test]
fn a_claim_that_fits_is_one_step() {
    let evidence = RewardBatchEvidence {
        reward_tokens: vec![addr(1)],
        starting_interval: n(0),
        ending_interval: n(3),
        staking_intervals: Vec::new(),
        hints: Vec::new(),
        claimed_intervals: Vec::new(),
        expected_amounts: vec![n(10)],
    };
    let estimate =
        ClaimGasEstimate { gas_limit: 1_000, raw_gas_limit: 700, expected_fee_per_gas: 5 };
    let (steps, fee) = whole_claim_step(&evidence, Some(estimate), 1_000).expect("within the limit");
    assert_eq!((steps.len(), fee), (1, 5));
    assert_eq!(steps[0].estimated_gas, 700);
    assert!(whole_claim_step(&evidence, Some(estimate), 999).is_none());
    assert!(whole_claim_step(&evidence, None, 1_000).is_none());
}

#[test]
fn participation_is_taken_for_the_read_that_asked_for_it() {
    let key = proposal_participation_key(&test_proposal(1), context());
    let mut state = ProposalParticipationState::default();
    let generation = state.begin(&key);
    assert!(matches!(
        state.rows.get(&Address::zero()),
        Some(ProposalParticipationRow::Loading)
    ));
    assert!(!state.apply(&key, generation.wrapping_add(1), Vec::new()));
    assert!(state.apply(
        &key,
        generation,
        vec![(Address::zero(), Err("unreadable".to_owned()))]
    ));
    assert!(matches!(
        state.rows.get(&Address::zero()),
        Some(ProposalParticipationRow::Unavailable(error)) if error == "unreadable"
    ));
    state.invalidate();
    assert!(!state.apply(&key, generation, Vec::new()));
}

fn editor() -> GasFeeEditor {
    GasFeeEditor {
        mode: GasFeeMode::Auto,
        refresh_id: 0,
        refreshing: false,
        quote: None,
        quote_error: None,
        error: None,
    }
}

#[test]
fn tabs_drop_what_the_other_one_read() {
    let mut state = GovernanceState::new(editor());
    assert_eq!(state.tab, GovernanceTab::Proposals);
    let (title, start) =
        state.open_staking_action("account".to_owned(), addr(9), StakingActionKind::Stake);
    assert_eq!(title, "Stake RAIL");
    assert!(matches!(start, StakingDialogStart::EnterAmount));
    assert!(matches!(
        state.select_governance_tab(GovernanceTab::Staking, true, false),
        TabStart::RefreshStaking
    ));
    assert!(state.action_flow.selection.is_none());
    assert!(matches!(
        state.select_governance_tab(GovernanceTab::Staking, true, false),
        TabStart::Unchanged
    ));
    let generation = state.start_staking_refresh(context()).expect("no refresh under way");
    assert!(state.start_governance_time_tick(generation, true));
    assert!(!state.start_governance_time_tick(generation, true));
    state.invalidate_context();
    assert!(!state.staking.finish(&context(), generation));
}

fn stake_row(state: StakeState, delegate: Address) -> wallet::governance::table::StakeTableRow {
    stake_table_row(
        &StakePosition {
            owner: addr(9),
            id: U256::max(),
            delegate,
            amount: n(40),
            staketime: zero(),
            locktime: zero(),
            claimed_time: zero(),
            state,
        },
        addr(9),
        false,
        true,
        StakeTexts {
            amount: "40 RAIL".to_owned(),
            created: "today".to_owned(),
            unlock_date: "tomorrow".to_owned(),
            time_left: None,
            delegate: "0x…".to_owned(),
        },
    )
}

#[test]
fn the_actions_of_a_stake_follow_its_state() {
    assert_eq!(
        stake_row(StakeState::Active, addr(9)).actions,
        vec![StakeTableAction::Delegate, StakeTableAction::Unlock]
    );
    assert_eq!(
        stake_row(StakeState::Active, addr(8)).actions,
        vec![StakeTableAction::Undelegate, StakeTableAction::Unlock]
    );
    assert_eq!(
        stake_row(StakeState::Claimable, addr(9)).actions,
        vec![StakeTableAction::PrincipalClaim]
    );
    assert!(stake_row(StakeState::Claimed, addr(9)).actions.is_empty());
    let buttons = stake_row_buttons("account", &stake_row(StakeState::Claimable, addr(9)), false);
    assert_eq!(buttons.len(), 1);
    assert!(!buttons[0].disabled);
    assert_eq!(compact_stake_id_preview(n(123)), "123");
}

#[test]
fn stake_details_open_and_close_by_their_key() {
    let mut table = StakeTable::new(
        "account".to_owned(),
        addr(9),
        vec![stake_row(StakeState::Active, addr(9))],
        true,
    );
    assert!(!table.set_rows(vec![stake_row(StakeState::Active, addr(9))]));
    assert!(table.set_rows(vec![stake_row(StakeState::Claimable, addr(9))]));
    assert!(!table.set_layout(true, false));
    let key = StakeKey { actor_uuid: "account".to_owned(), id: U256::max() };
    let open = table.toggle_details_by_key(&None, &key);
    assert!(details_open(&open, &key));
    let closed = table.toggle_details_by_key(&open, &key);
    assert!(!details_open(&closed, &key));
}

fn root() -> WalletRoot {
    WalletRoot {
        selected_wallet_id: Some("wallet".to_owned()),
        selected_chain: 1,
        view_wallet_id: Some("wallet".to_owned()),
        public_accounts: vec![
            account("a", PublicAccountStatus::Active, false),
            account("b", PublicAccountStatus::Inactive, false),
            account("g", PublicAccountStatus::Active, true),
        ],
        governance_participants: KeyMap::new(),
        governance: GovernanceState::new(editor()),
        generations: WalletGenerations { wallet_switch: 7, active_wallet: 3 },
        wallet_switch: Some(GatewaySwitchContinuation {
            request: GatewayWalletSwitchRequest {
                id: "r".to_owned(),
                target_wallet_uuid: "target".to_owned(),
                url: String::new(),
            },
            phase: SwitchPhase::Loading { operation: 7 },
        }),
        remote_unlock: Some(11),
        send_forms: vec![form(1, Some("x"), None)],
        unshield_forms: vec![
            form(2, None, None),
            form(3, Some("y"), Some("Not enough gas")),
        ],
    }
}

fn form(token: u8, execution: Option<&str>, error: Option<&str>) -> DraftForm {
    DraftForm {
        key: UnshieldAssetKey { chain_id: 1, token: addr(token) },
        gateway_execution: execution.map(str::to_owned),
        error: error.map(str::to_owned),
    }
}

fn execution(id: &str, status: GatewayDraftStatus) -> GatewayDraftExecution {
    GatewayDraftExecution { id: id.to_owned(), generation: None, status }
}

#[test]
fn forms_of_failed_submissions_are_closed() {
    let mut window = root();
    let failed = execution("y", GatewayDraftStatus::Failed);
    assert_eq!(
        window.gateway_private_form(&failed),
        Some((
            DeliveryFormKind::Unshield,
            UnshieldAssetKey { chain_id: 1, token: addr(3) }
        ))
    );
    let waiting = execution("y", GatewayDraftStatus::Attention);
    window.release_gateway_private_form(&waiting);
    assert_eq!(window.unshield_forms.len(), 2);
    assert_eq!(
        window.reject_gateway_private_authorization(&waiting, &failed),
        Some("Not enough gas".to_owned())
    );
    assert_eq!(window.unshield_forms.len(), 1);
    assert_eq!(window.gateway_private_form(&failed), None);
    assert_eq!(
        window.reject_gateway_private_authorization(
            &execution("x", GatewayDraftStatus::Attention),
            &execution("x", GatewayDraftStatus::Failed)
        ),
        Some("Transaction inputs changed. Update the draft and submit again.".to_owned())
    );
    assert!(window.send_forms.is_empty());
    let mut running = execution("z", GatewayDraftStatus::Failed);
    running.generation = Some(1);
    assert_eq!(window.rejection_message(&running), None);
}

#[test]
fn signers_are_those_of_the_open_wallet() {
    let window = root();
    let signers = window.gateway_private_signers("wallet");
    assert_eq!(
        signers.iter().map(|own| own.public_account_uuid.as_str()).collect::<Vec<_>>(),
        vec!["a", "g"]
    );
    assert!(window.gateway_private_signers("other").is_empty());
}

#[test]
fn an_installation_is_followed_by_its_switch_only() {
    let mut window = root();
    window.begin_gateway_wallet_installation("target", true);
    assert_eq!(
        window.wallet_switch.as_ref().map(|own| own.phase),
        Some(SwitchPhase::Installing { operation: 8, wallet_generation: 4 })
    );
    window.generations = WalletGenerations { wallet_switch: 8, active_wallet: 4 };
    window.view_wallet_id = Some("target".to_owned());
    window.finish_gateway_wallet_installation();
    assert_eq!(
        window.wallet_switch.as_ref().map(|own| own.phase),
        Some(SwitchPhase::Installed { operation: 8, wallet_generation: 4 })
    );
    let mut other = root();
    other.begin_gateway_wallet_installation("another", true);
    assert!(other.wallet_switch.is_none());
    let mut window = root();
    assert_eq!(window.take_over_remote_unlock(), Some(11));
    assert_eq!(window.take_over_remote_unlock(), None);
}

#[test]
fn enrollment_is_saved_for_the_selected_wallet() {
    let mut window = root();
    let resolution = |uuids: &[&str], changed| ParticipantResolution {
        uuids: uuids.iter().map(|own| (*own).to_owned()).collect(),
        changed,
    };
    assert!(!window.clean_governance_participants(resolution(&["a"], false)));
    assert!(window.clean_governance_participants(resolution(&["a"], true)));
    assert_eq!(window.persisted_participants(), vec!["a".to_owned()]);
    let key = window.governance_context_key(&resolution(&["g", "a", "gone"], false));
    assert_eq!(
        key.participants.iter().map(|own| own.uuid.as_str()).collect::<Vec<_>>(),
        vec!["g", "a"]
    );
    assert_eq!(
        window.governance_participant_summary(&resolution(&["a", "b"], false)),
        ParticipantSummary { selected: 2, inactive: 1 }
    );
    // A picker that shows another wallet changes nothing.
    let wanted = vec!["a".to_owned(), "unknown".to_owned(), "g".to_owned()];
    assert_eq!(window.picked_participants(&wanted), None);
    assert_eq!(window.enroll_participants(vec!["a".to_owned(), "g".to_owned()]), None);
    window.governance.participant_picker_wallet = window.selected_wallet_id.clone();
    assert_eq!(
        window.picked_participants(&wanted),
        Some(vec!["a".to_owned(), "g".to_owned()])
    );
    assert_eq!(window.enroll_participants(vec!["a".to_owned()]), None);
    assert_eq!(
        window.enroll_participants(vec!["a".to_owned(), "g".to_owned()]),
        Some(EnrollmentStart::ReadParticipation)
    );
    window.governance.participant_picker_wallet = None;
    let update = window
        .sync_governance_participant_picker(&resolution(&["a", "g"], false), &Vec::new())
        .expect("a picker that shows nothing yet");
    assert!(update.clear_query);
    assert_eq!(
        window.sync_governance_participant_picker(
            &resolution(&["a", "g"], false),
            &vec!["a".to_owned(), "g".to_owned()]
        ),
        None
    );
    window.selected_wallet_id = None;
    assert!(!window.clean_governance_participants(resolution(&["g"], true)));
    window.invalidate_governance_context();
    assert_eq!(window.governance.participant_time_tick_generation, None);
}
