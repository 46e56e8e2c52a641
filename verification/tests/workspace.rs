//! What the governance workspace shows: the staking tab, its dialogs and the claim form.
use wallet::accounts::{
    PublicAccountMetadata, PublicAccountScope, PublicAccountSource, PublicAccountStatus,
};
use wallet::address::Address;
use wallet::governance::action_form::{
    actor_position, cached_balance, cached_position, delegate_form, parse_delegate, prepare_label,
    stake_form, staking_action_available, staking_dialog, BalanceTexts, StakingDialog,
};
use wallet::governance::claim_form::{
    claim_fee, claim_fee_per_gas, claim_form_rows, claim_net, claim_review_ready, claim_row_fee,
    claim_row_marks, claim_shared_fee, claim_split_notice, claim_totals, selected_claim_cost,
    selected_value_label, ClaimFee, RewardToken, SharedFee,
    shared_claim_cost,
};
use wallet::governance::flow::GovernanceActionFlowState;
use wallet::governance::labels::render_reward_row;
use wallet::governance::model::{
    AccountStakeResult, GovernanceContextKey, GovernanceParticipantIdentity, RewardBatchEvidence,
    RewardEvidence, StakePosition, StakeState, StakingGlobalMetrics,
};
use wallet::governance::refresh::{
    refresh_accounts, refresh_global, refresh_interval, refresh_rewards, reward_read_error,
    staking_global_result, AfterInterval,
};
use wallet::governance::reward_plan::ClaimGasEstimate;
use wallet::governance::reward_selection::{
    alternative_claim_gas, alternative_selection, assemble_selection_estimate,
    batch_selection_evidence, selection_needs_baseline, single_selection_evidence, single_token,
};
use wallet::governance::rewards::{
    PublicActionGasFeeSelection, GasFeeQuote, RewardClaimStep, RewardFeePresentation,
    RewardSelectionEstimateState, RewardUsdState,
};
use wallet::governance::staking::{
    staking_action_title, GovernorRewardsIntervalMetadata, RewardIntervalCountdown, RewardView,
    StakingActionKind, StakingActionSelection, StakingReadState, StakingRefreshStatus,
};
use wallet::governance::state::{
    GasFeeEditor, GasFeeMode, GovernanceState, GovernanceTab, StakingDialogStart, TabStart,
    TimeTickNext,
};
use wallet::governance::table::{
    stake_details, stake_seconds_left, stake_state_color, stake_table_row, StakeKey, StakeTable,
    StakeTableRow, StakeTexts, StateColor, TableRedraw,
};
use wallet::governance::view::{
    account_voting_power, inactive_label, not_deployed_texts, power_qualifier,
    power_qualifier_label, reward_interval_seconds, reward_interval_texts, rewards_section,
    stake_offer, stake_table_key, stakes_section, stakes_section_label, staking_body, tab_at,
    tab_index, unclaimed_label, workspace_refreshing, PowerQualifier, QualifierTexts,
    RewardsSection, StakesSection, StakingBody, VotingPower,
};
use wallet::keyed::KeyMap;
use wallet::u256::U256;

const SECOND: u128 = 1_000_000_000;

fn addr(byte: u8) -> Address {
    Address::from_bytes([byte; 20])
}

fn n(value: u64) -> U256 {
    U256::from_u64(value)
}

fn zero() -> U256 {
    U256::zero()
}

fn key() -> GovernanceContextKey {
    GovernanceContextKey {
        wallet_id: Some("wallet".to_owned()),
        chain_id: 1,
        participants: vec![GovernanceParticipantIdentity {
            uuid: "actor".to_owned(),
            address: addr(9),
        }],
    }
}

fn metrics() -> StakingGlobalMetrics {
    StakingGlobalMetrics {
        total_staked: n(500),
        total_voting_power: n(400),
        deploy_time: zero(),
        snapshot_interval: U256::one(),
        current_interval: zero(),
        stake_locktime: zero(),
        chain_time: n(1_000),
    }
}

fn stake(id: u64, delegate: Address, amount: u64, state: StakeState) -> StakePosition {
    StakePosition {
        owner: addr(9),
        id: n(id),
        delegate,
        amount: n(amount),
        staketime: zero(),
        locktime: n(1_500),
        claimed_time: zero(),
        state,
    }
}

fn evidence(token: Address, amount: u64) -> RewardEvidence {
    RewardEvidence {
        token,
        starting_interval: n(2),
        ending_interval: n(4),
        staking_intervals: vec![n(2), n(3), n(4)],
        hints: vec![zero(), zero(), zero()],
        claimed_intervals: Vec::new(),
        amount: n(amount),
    }
}

fn batch(tokens: Vec<Address>) -> RewardBatchEvidence {
    RewardBatchEvidence {
        claimed_intervals: tokens.iter().map(|_| Vec::new()).collect(),
        expected_amounts: tokens.iter().map(|_| n(5)).collect(),
        reward_tokens: tokens,
        starting_interval: n(2),
        ending_interval: n(4),
        staking_intervals: vec![n(2), n(3), n(4)],
        hints: vec![zero(), zero(), zero()],
    }
}

fn account_result(balance: u64, stakes: Vec<StakePosition>) -> AccountStakeResult {
    AccountStakeResult {
        account: addr(9),
        voting_power: Ok(n(70)),
        balance: Ok(n(balance)),
        stakes: Ok(stakes),
    }
}

fn interval_metadata() -> GovernorRewardsIntervalMetadata {
    GovernorRewardsIntervalMetadata {
        multiplier: U256::one(),
        staking_deploy_time: zero(),
        distribution_interval: n(600),
        current_interval: n(1),
    }
}

/// A read of one account with a reward in the first of two tokens.
fn read(balance: u64, stakes: Vec<StakePosition>) -> StakingReadState {
    let mut state = StakingReadState::default();
    let generation = state.begin(key());
    let found = refresh_global(&mut state, &key(), generation, Ok(metrics()), 10 * SECOND)
        .expect("the current refresh");
    let next =
        refresh_interval(&mut state, &key(), generation, &Some(interval_metadata()), &found);
    assert!(matches!(next, AfterInterval::ReadAccounts(own) if own == vec![addr(9)]));
    refresh_accounts(&mut state, &key(), generation, Ok(vec![account_result(balance, stakes)]));
    refresh_rewards(
        &mut state,
        &key(),
        generation,
        "actor",
        &vec![addr(1), addr(2)],
        Ok(vec![Ok(Some(evidence(addr(1), 30))), Ok(None)]),
        10 * SECOND,
    );
    assert!(state.finish(&key(), generation));
    state
}

fn values(entries: Vec<(Address, u64)>) -> KeyMap<Address, U256> {
    let mut map = KeyMap::new();
    for (token, value) in entries {
        map.insert(token, n(value));
    }
    map
}

#[test]
fn a_refresh_goes_on_only_while_it_is_the_current_one() {
    let mut state = StakingReadState::default();
    let generation = state.begin(key());
    assert!(matches!(
        staking_global_result(Ok(None)),
        Err(error) if error == "Staking is not deployed on this chain"
    ));
    assert!(staking_global_result(Err("unreachable".to_owned())).is_err());
    let later = state.begin(key());
    assert!(refresh_global(&mut state, &key(), generation, Ok(metrics()), 0).is_none());
    assert!(matches!(
        refresh_interval(&mut state, &key(), generation, &None, &metrics()),
        AfterInterval::Stop
    ));
    assert!(refresh_global(&mut state, &key(), later, Ok(metrics()), 0).is_some());
    assert_eq!(
        reward_read_error(false, None),
        Some("Reward interval metadata unavailable".to_owned())
    );
    assert_eq!(reward_read_error(true, Some("no node".to_owned())), Some("no node".to_owned()));
    assert_eq!(reward_read_error(true, None), None);
    refresh_accounts(&mut state, &key(), later, Err("no node".to_owned()));
    assert!(matches!(account_voting_power(&state, "actor"), VotingPower::Unavailable));
    refresh_rewards(
        &mut state,
        &key(),
        later,
        "actor",
        &vec![addr(1), addr(2)],
        Ok(vec![Ok(None)]),
        0,
    );
    assert!(matches!(
        state.resolved_reward("actor", addr(2)),
        Some(RewardView::Unavailable(error)) if error == "Reward result is missing"
    ));
}

#[test]
fn a_refresh_without_accounts_ends_after_the_interval() {
    let mut empty = key();
    empty.participants.clear();
    let mut state = StakingReadState::default();
    let generation = state.begin(GovernanceContextKey {
        wallet_id: Some("wallet".to_owned()),
        chain_id: 1,
        participants: Vec::new(),
    });
    let found =
        refresh_global(&mut state, &empty, generation, Ok(metrics()), 0).expect("still current");
    assert!(matches!(
        refresh_interval(&mut state, &empty, generation, &None, &found),
        AfterInterval::Finished
    ));
    assert_eq!(state.status, StakingRefreshStatus::Fresh);
}

#[test]
fn the_staking_tab_shows_what_was_read() {
    let mut state = StakingReadState::default();
    assert!(matches!(staking_body(&state, false), StakingBody::NotDeployed));
    assert_eq!(not_deployed_texts().0, "Staking is not deployed on this chain");
    assert!(matches!(staking_body(&state, true), StakingBody::Loading));
    state.status = StakingRefreshStatus::Error("no node".to_owned());
    assert!(matches!(staking_body(&state, true), StakingBody::Failed(error) if error == "no node"));
    let mut state = read(0, Vec::new());
    assert!(matches!(staking_body(&state, true), StakingBody::Content { stale: false }));
    state.status = StakingRefreshStatus::Stale;
    assert!(matches!(staking_body(&state, true), StakingBody::Content { stale: true }));
}

#[test]
fn the_reward_interval_counts_down() {
    let state = read(0, Vec::new());
    // At time 1000 the second interval of 600 seconds runs until 1200.
    assert_eq!(reward_interval_seconds(&state, 10 * SECOND), Some(200));
    assert_eq!(reward_interval_seconds(&state, 60 * SECOND), Some(150));
    assert_eq!(reward_interval_seconds(&state, 400 * SECOND), None);
    let countdown = RewardIntervalCountdown { interval: n(1), boundary: n(1_200) };
    assert_eq!(
        reward_interval_texts(Some(countdown), Some("3m")),
        ("3m".to_owned(), "Reward interval 1 ends in 3m".to_owned())
    );
    assert_eq!(
        reward_interval_texts(None, None),
        ("Unavailable".to_owned(), "Reward interval unavailable".to_owned())
    );
}

fn qualifier_text(stakes: Vec<StakePosition>) -> Option<String> {
    let state = read(0, stakes);
    power_qualifier_label(
        &power_qualifier(&state, "actor"),
        &QualifierTexts {
            own: "O".to_owned(),
            received: "R".to_owned(),
            delegated: "D".to_owned(),
            staked: "S".to_owned(),
        },
    )
}

#[test]
fn voting_power_is_explained_where_it_moves() {
    let own = |amount| stake(1, addr(9), amount, StakeState::Active);
    let away = stake(2, addr(3), 5, StakeState::Active);
    assert_eq!(qualifier_text(vec![own(70)]), None);
    assert_eq!(
        qualifier_text(vec![own(50)]),
        Some("includes R received from other accounts".to_owned())
    );
    assert_eq!(
        qualifier_text(vec![own(70), away]),
        Some("S staked · delegated away".to_owned())
    );
    assert_eq!(
        qualifier_text(vec![own(50), away]),
        Some("O own · R received · D delegated away".to_owned())
    );
    let state = read(0, vec![own(50), away]);
    assert!(matches!(
        power_qualifier(&state, "actor"),
        PowerQualifier::Mixed { own, received, delegated }
            if own == n(50) && received == n(20) && delegated == n(5)
    ));
    assert!(matches!(power_qualifier(&state, "other"), PowerQualifier::Plain));
    assert!(matches!(account_voting_power(&state, "other"), VotingPower::Loading));
    assert!(matches!(account_voting_power(&state, "actor"), VotingPower::Known(own) if own == n(70)));
}

#[test]
fn stakes_are_listed_and_balances_offered() {
    let many: Vec<StakePosition> =
        (0..7).map(|id| stake(id, addr(9), 1, StakeState::Active)).collect();
    let full = read(12, many);
    assert_eq!(
        stakes_section(&full, "actor"),
        StakesSection::Table { rows: 7, visible: 5, scrolls: true }
    );
    let rich = read(12, Vec::new());
    assert_eq!(stakes_section(&rich, "actor"), StakesSection::Nothing);
    let offer = stake_offer(&rich, "actor", false).expect("a balance");
    assert_eq!(offer.balance, n(12));
    assert!(offer.enabled);
    assert_eq!(offer.control_id, "governance-staking-stake-actor-account");
    assert_eq!(stake_offer(&rich, "actor", true), None);
    let poor = read(0, Vec::new());
    assert_eq!(stake_offer(&poor, "actor", false), None);
    assert_eq!(stakes_section(&poor, "actor"), StakesSection::Empty);
    assert_eq!(
        stakes_section_label(StakesSection::Empty),
        Some("No staking positions yet.")
    );
    assert_eq!(stakes_section(&poor, "other"), StakesSection::Loading);
    assert_eq!(
        stakes_section_label(StakesSection::Unavailable),
        Some("Stake rows unavailable for this account.")
    );
    assert_eq!(stakes_section_label(StakesSection::Nothing), None);
    assert_eq!(stake_table_key(56, "actor"), "governance-stakes-56-actor");
}

#[test]
fn a_claim_is_offered_for_positive_rewards() {
    let state = read(0, Vec::new());
    let mut flow = GovernanceActionFlowState::default();
    let tokens = vec![addr(2), addr(1)];
    let priced = values(vec![(addr(1), 700)]);
    let section = rewards_section(&state, &flow, "actor", addr(9), false, &tokens, &priced);
    assert!(matches!(
        section,
        RewardsSection::Rewards { total: RewardUsdState::Value(total), positive, claim_ready: true, shown }
            if total == n(700) && positive == vec![addr(1)] && shown == vec![addr(1)]
    ));
    assert!(matches!(
        rewards_section(&state, &flow, "actor", addr(9), true, &tokens, &priced),
        RewardsSection::Rewards { claim_ready: false, .. }
    ));
    assert!(matches!(
        rewards_section(&state, &flow, "actor", addr(9), false, &vec![addr(2)], &priced),
        RewardsSection::NothingToClaim
    ));
    flow.set_staking_selection(StakingActionSelection {
        actor_uuid: "actor".to_owned(),
        actor: addr(9),
        kind: StakingActionKind::Stake,
    });
    assert!(matches!(
        rewards_section(&state, &flow, "actor", addr(9), false, &tokens, &priced),
        RewardsSection::Rewards { claim_ready: false, .. }
    ));
    assert_eq!(unclaimed_label(RewardUsdState::Value(n(1)), "$1"), "$1 unclaimed");
    assert_eq!(unclaimed_label(RewardUsdState::Loading, ""), "Loading...");
    assert_eq!(unclaimed_label(RewardUsdState::Unavailable, ""), "USD unavailable");
}

#[test]
fn reward_rows_say_what_was_read() {
    let row = |reward: Option<&RewardView>| {
        let row = render_reward_row("TKN", Some("OWN"), reward, "30 TKN", "0 TKN", None);
        assert_eq!(row.symbol, "OWN");
        (row.amount, row.detail)
    };
    assert_eq!(row(None), ("Loading...".to_owned(), "Calculation pending".to_owned()));
    assert_eq!(
        row(Some(&RewardView::Zero)),
        ("0 TKN".to_owned(), "No completed unclaimed intervals".to_owned())
    );
    let positive = RewardView::Positive { amount: n(30), evidence: evidence(addr(1), 30) };
    assert_eq!(row(Some(&positive)), ("30 TKN".to_owned(), String::new()));
    assert_eq!(
        row(Some(&RewardView::Unavailable("no node".to_owned()))),
        ("Unavailable".to_owned(), "no node".to_owned())
    );
}

fn editor() -> GasFeeEditor {
    GasFeeEditor {
        mode: GasFeeMode::Auto,
        refresh_id: 0,
        refreshing: false,
        quote: None,
        quote_error: None,
        error: None,
    }
}

#[test]
fn the_workspace_is_busy_while_its_tab_is_read() {
    let mut state = GovernanceState::new(editor());
    assert!(workspace_refreshing(&state, true));
    assert!(!workspace_refreshing(&state, false));
    state.tab = GovernanceTab::Staking;
    assert!(!workspace_refreshing(&state, true));
    state.staking.status = StakingRefreshStatus::Loading;
    assert!(workspace_refreshing(&state, false));
    assert_eq!(tab_index(GovernanceTab::Proposals), 0);
    assert_eq!(tab_index(tab_at(1)), 1);
    assert_eq!(tab_at(7), GovernanceTab::Proposals);
    assert_eq!(inactive_label(0), None);
    assert_eq!(inactive_label(2), Some("2 inactive".to_owned()));
}

fn open_flow(kind: StakingActionKind) -> GovernanceActionFlowState {
    let mut flow = GovernanceActionFlowState::default();
    flow.set_staking_selection(StakingActionSelection {
        actor_uuid: "actor".to_owned(),
        actor: addr(9),
        kind,
    });
    flow
}

#[test]
fn the_dialog_of_an_action_follows_its_kind() {
    let state = read(12, vec![stake(1, addr(9), 40, StakeState::Active)]);
    let mut other = key();
    other.chain_id = 56;
    let stake_flow = open_flow(StakingActionKind::Stake);
    assert!(staking_action_available(&stake_flow, &state, &key()));
    assert!(!staking_action_available(&stake_flow, &state, &other));
    assert!(matches!(staking_dialog(&stake_flow, &state, &other), StakingDialog::Stale));
    assert!(matches!(staking_dialog(&stake_flow, &state, &key()), StakingDialog::Stake));
    let delegate = open_flow(StakingActionKind::Delegate { stake_id: n(1) });
    assert!(matches!(staking_dialog(&delegate, &state, &key()), StakingDialog::Delegate));
    let claim = open_flow(StakingActionKind::RewardClaimSelected { tokens: vec![addr(1)] });
    assert!(matches!(staking_dialog(&claim, &state, &key()), StakingDialog::Claim));
    let mut unlock = open_flow(StakingActionKind::Unlock { stake_id: n(1) });
    assert!(matches!(
        staking_dialog(&unlock, &state, &key()),
        StakingDialog::Checking { message }
            if message == "Checking the stake and estimating the exact call…"
    ));
    unlock.error = Some("no node".to_owned());
    assert!(matches!(
        staking_dialog(&unlock, &state, &key()),
        StakingDialog::Failed { error } if error == "no node"
    ));
    unlock.pending = true;
    assert!(matches!(staking_dialog(&unlock, &state, &key()), StakingDialog::Checking { .. }));
    assert_eq!(staking_action_title(&StakingActionKind::Stake), "Stake RAIL");
}

#[test]
fn a_stake_needs_an_amount() {
    let mut flow = open_flow(StakingActionKind::Stake);
    let texts =
        || Some(BalanceTexts { display: "12 RAIL".to_owned(), input: "12".to_owned() });
    let form = stake_form(&flow, true, None, texts(), Some(n(5)));
    assert!(form.ready);
    assert_eq!(form.actor_label, "Public account");
    assert_eq!(form.balance, "12 RAIL");
    assert_eq!(form.max, Some("Max: 12 RAIL".to_owned()));
    let unread = stake_form(&flow, true, Some("Mine".to_owned()), None, Some(zero()));
    assert!(!unread.ready);
    assert_eq!(unread.balance, "Balance unavailable");
    assert_eq!(unread.max, None);
    assert!(!stake_form(&flow, true, None, texts(), None).ready);
    assert!(!stake_form(&flow, false, None, texts(), Some(n(5))).ready);
    flow.pending = true;
    assert!(!stake_form(&flow, true, None, texts(), Some(n(5))).ready);
    assert_eq!(prepare_label(true), "Preparing authorization…");
    assert_eq!(prepare_label(false), "Prepare authorization");
}

#[test]
fn a_delegate_has_to_be_another_address() {
    let state = read(12, vec![stake(1, addr(0x11), 40, StakeState::Active)]);
    assert_eq!(cached_balance(&state, "actor"), Some(n(12)));
    assert_eq!(cached_balance(&state, "other"), None);
    let position = cached_position(&state, "actor", n(1));
    assert_eq!(position.map(|own| own.amount), Some(n(40)));
    assert_eq!(cached_position(&state, "actor", n(2)), None);
    let flow = open_flow(StakingActionKind::Delegate { stake_id: n(1) });
    let selection = StakingActionSelection {
        actor_uuid: "actor".to_owned(),
        actor: addr(9),
        kind: StakingActionKind::Delegate { stake_id: n(1) },
    };
    let form = |input: &str| {
        delegate_form(
            &flow,
            true,
            &selection,
            n(1),
            position,
            Some("Mine".to_owned()),
            "40 RAIL",
            "0x09…",
            "0x11…",
            input,
        )
    };
    let empty = form("  ");
    assert_eq!(empty.heading, "Stake #1 · 40 RAIL");
    assert_eq!(empty.detail, "Mine 0x09… · delegated to 0x11…");
    assert_eq!((empty.error, empty.ready), (None, false));
    let same = form("0x1111111111111111111111111111111111111111");
    assert_eq!(same.error, Some("This stake is already delegated to that address."));
    assert!(!same.ready);
    assert_eq!(form("bob").error, Some("Enter a valid Ethereum address"));
    assert_eq!(
        form("0x0000000000000000000000000000000000000000").error,
        Some("Enter a valid Ethereum address")
    );
    let other = form(" 0x2222222222222222222222222222222222222222");
    assert_eq!((other.error, other.ready), (None, true));
    assert_eq!(parse_delegate("0x2222222222222222222222222222222222222222"), Some(addr(0x22)));
    let unknown = delegate_form(
        &flow, true, &selection, n(1), None, None, "", "0x09…", "0x00…", "",
    );
    assert_eq!(unknown.heading, "Stake #1 · Unknown amount");
}

#[test]
fn the_account_of_an_action_is_found_by_both_its_names() {
    let account = |uuid: &str, byte| PublicAccountMetadata {
        public_account_uuid: uuid.to_owned(),
        address: addr(byte),
        label: None,
        display_label: None,
        source: PublicAccountSource::Imported,
        scope: PublicAccountScope::Global,
        status: PublicAccountStatus::Active,
    };
    let accounts = vec![account("actor", 8), account("actor", 9), account("other", 9)];
    assert_eq!(actor_position(&accounts, "actor", addr(9)), Some(1));
    assert_eq!(actor_position(&accounts, "other", addr(8)), None);
}

fn step(estimated_gas: u64) -> RewardClaimStep {
    RewardClaimStep {
        starting_interval: n(2),
        ending_interval: n(4),
        reward_tokens: vec![addr(1)],
        subtotal: zero(),
        expected_amounts: vec![n(5)],
        estimated_gas,
    }
}

fn baseline() -> ClaimGasEstimate {
    ClaimGasEstimate { gas_limit: 60_000, raw_gas_limit: 50_000, expected_fee_per_gas: 3 }
}

#[test]
fn a_selection_is_compared_with_its_alternatives() {
    let [one, two] = [addr(1), addr(2)];
    assert_eq!(alternative_selection(&vec![one], one), (Vec::new(), true));
    assert_eq!(alternative_selection(&vec![two], one), (vec![one, two], false));
    assert!(selection_needs_baseline(&vec![one]));
    assert!(!selection_needs_baseline(&vec![one, two]));
    assert_eq!(alternative_claim_gas(&Vec::new(), Some(baseline()), None), Some(50_000));
    assert_eq!(
        alternative_claim_gas(&vec![one], None, Some(&vec![step(70_000), step(1_000)])),
        Some(71_000)
    );
    assert_eq!(alternative_claim_gas(&vec![one], Some(baseline()), None), None);
    let mut alternatives = KeyMap::new();
    alternatives.insert(one, 50_000u64);
    alternatives.insert(two, 95_000u64);
    let estimate = assemble_selection_estimate(
        &vec![one],
        Some(batch(vec![one])),
        Some((vec![step(80_000)], 7)),
        Some(baseline()),
        &vec![one, two, addr(3)],
        &alternatives,
    )
    .expect("gas in range");
    assert_eq!(estimate.added_gas.get(&one), Some(&Some(30_000)));
    assert_eq!(estimate.added_gas.get(&two), Some(&Some(15_000)));
    assert_eq!(estimate.added_gas.get(&addr(3)), Some(&None));
    assert_eq!(estimate.shared_gas, Some(50_000));
    assert_eq!(estimate.expected_fee_per_gas, 7);
    let nothing = assemble_selection_estimate(
        &Vec::new(),
        None,
        None,
        Some(baseline()),
        &vec![one],
        &alternatives,
    )
    .expect("nothing to add up");
    assert_eq!((nothing.expected_fee_per_gas, nothing.shared_gas), (3, Some(50_000)));
    assert!(matches!(
        assemble_selection_estimate(
            &vec![one],
            Some(batch(vec![one])),
            Some((vec![step(u64::MAX), step(1)], 7)),
            None,
            &vec![one],
            &KeyMap::new(),
        ),
        Err(error) if error == "Estimated claim gas overflowed"
    ));
}

#[test]
fn evidence_of_one_token_is_widened() {
    assert_eq!(single_token(&vec![addr(1)]), Some(addr(1)));
    assert_eq!(single_token(&vec![addr(1), addr(2)]), None);
    let widened = single_selection_evidence(Some(evidence(addr(1), 30))).expect("a reward");
    assert_eq!(widened.reward_tokens, vec![addr(1)]);
    assert_eq!(widened.expected_amounts, vec![n(30)]);
    assert!(matches!(
        single_selection_evidence(None),
        Err(error) if error == "No unclaimed reward is available"
    ));
    assert!(matches!(
        batch_selection_evidence(None),
        Err(error) if error == "No unclaimed reward is available"
    ));
}

fn estimated(steps: Vec<RewardClaimStep>) -> Option<RewardSelectionEstimateState> {
    let mut alternatives = KeyMap::new();
    alternatives.insert(addr(1), 50_000u64);
    let estimate = assemble_selection_estimate(
        &vec![addr(1)],
        Some(batch(vec![addr(1)])),
        Some((steps, 7)),
        None,
        &vec![addr(1)],
        &alternatives,
    )
    .expect("gas in range");
    Some(RewardSelectionEstimateState::Estimated(estimate))
}

#[test]
fn the_claim_form_adds_up_what_is_selected() {
    let state = read(0, Vec::new());
    let entry = |byte, symbol: &str| RewardToken {
        token: addr(byte),
        symbol: symbol.to_owned(),
        registry_symbol: None,
    };
    let entries = vec![entry(1, "ONE"), entry(2, "TWO")];
    let tokens = vec![addr(1)];
    let estimate = estimated(vec![step(80_000)]);
    let rows = claim_form_rows(
        &state,
        "actor",
        &entries,
        &tokens,
        &estimate,
        &values(vec![(addr(1), 900)]),
    );
    assert_eq!(rows.len(), 1);
    assert_eq!((rows[0].symbol.as_str(), rows[0].amount, rows[0].gas), ("ONE", n(30), Some(30_000)));
    assert!(rows[0].selected);
    let totals = claim_totals(&rows);
    assert_eq!((totals.selected_count, totals.all_selected), (1, true));
    assert_eq!(totals.selected_usd, Some(n(900)));
    assert_eq!(selected_value_label(1, 1, Some("$9")), "1 of 1 · $9");
    assert_eq!(selected_value_label(0, 2, Some("$0")), "0 of 2 · —");
    assert_eq!(selected_value_label(1, 2, None), "1 of 2 · USD unavailable");

    let caps = Ok(PublicActionGasFeeSelection::Auto);
    let price = claim_fee_per_gas(&estimate, &caps, None);
    assert_eq!(price, Some(7));
    assert_eq!(claim_fee_per_gas(&estimate, &caps, Some(11)), Some(11));
    assert_eq!(claim_fee_per_gas(&estimate, &Err("bad".to_owned()), None), None);
    let cost = selected_claim_cost(&estimate, price, &tokens);
    assert_eq!(cost, Some(n(560_000)));
    let worth = Some((n(2_000_000), "$2".to_owned()));
    assert_eq!(selected_claim_cost(&estimate, price, &Vec::new()), None);
    assert!(matches!(
        claim_fee(&estimate, price, &tokens, &worth, "0.1 ETH"),
        ClaimFee::Estimated { label, .. } if label == "≈ $2"
    ));
    assert!(matches!(
        claim_fee(&estimate, price, &tokens, &None, "0.1 ETH"),
        ClaimFee::Estimated { label, .. } if label == "≈ 0.1 ETH"
    ));
    assert!(matches!(claim_fee(&estimate, price, &Vec::new(), &worth, ""), ClaimFee::Nothing));
    assert!(matches!(claim_fee(&None, None, &tokens, &None, ""), ClaimFee::Nothing));
    assert!(matches!(
        claim_fee(&Some(RewardSelectionEstimateState::Pending), None, &tokens, &None, ""),
        ClaimFee::Estimating
    ));
    assert!(matches!(
        claim_fee(
            &Some(RewardSelectionEstimateState::Unavailable("no node".to_owned())),
            None,
            &tokens,
            &None,
            ""
        ),
        ClaimFee::Unavailable { reason: Some(why) } if why == "no node"
    ));
    assert_eq!(shared_claim_cost(&estimate, price), Some(n(350_000)));
    assert_eq!(shared_claim_cost(&estimate, None), None);
    assert!(matches!(
        claim_shared_fee(&estimate, price, &worth, "0.1 ETH"),
        SharedFee::Estimated { gas_line, label } if gas_line == "50k gas" && label == "≈ $2"
    ));
    assert!(matches!(
        claim_shared_fee(&estimate, price, &None, "0.1 ETH"),
        SharedFee::Estimated { label, .. } if label == "≈ 0.1 ETH"
    ));
    assert!(matches!(claim_shared_fee(&estimate, None, &None, ""), SharedFee::Unavailable));
    assert!(matches!(
        claim_shared_fee(&Some(RewardSelectionEstimateState::Pending), None, &None, ""),
        SharedFee::Estimating
    ));
    assert_eq!(claim_net(&totals, cost, Some(n(200))), Some((n(900), n(200))));
    assert_eq!(claim_net(&totals, None, Some(n(200))), None);
    let flow = open_flow(StakingActionKind::RewardClaimSelected { tokens: vec![addr(1)] });
    assert!(claim_review_ready(&flow, &tokens, cost));
    assert!(!claim_review_ready(&flow, &tokens, None));
    assert!(!claim_review_ready(&flow, &Vec::new(), cost));
}

#[test]
fn rewards_below_their_fee_are_marked() {
    let state = read(0, Vec::new());
    let entries = vec![RewardToken {
        token: addr(1),
        symbol: "ONE".to_owned(),
        registry_symbol: Some("OWN".to_owned()),
    }];
    let estimate = estimated(vec![step(80_000)]);
    let rows = claim_form_rows(
        &state,
        "actor",
        &entries,
        &Vec::new(),
        &estimate,
        &values(vec![(addr(1), 900)]),
    );
    assert_eq!(rows[0].symbol, "OWN");
    let fee = claim_row_fee(
        &estimate,
        true,
        Some(7),
        &rows[0],
        Some((n(901), "$9.01".to_owned())),
        String::new(),
    );
    let marks = claim_row_marks(&rows[0], &fee);
    assert!(marks.warned && marks.dimmed);
    assert_eq!(marks.net_of, Some((n(900), n(901))));
    assert_eq!(marks.gas_line, Some("30k gas".to_owned()));
    let pending = Some(RewardSelectionEstimateState::Pending);
    assert_eq!(
        claim_row_fee(&pending, true, None, &rows[0], None, String::new()),
        RewardFeePresentation::Pending
    );
    assert_eq!(
        claim_row_fee(&pending, false, None, &rows[0], None, String::new()),
        RewardFeePresentation::Unavailable
    );
}

#[test]
fn a_split_claim_says_how_many_signatures_it_needs() {
    assert_eq!(claim_split_notice(&estimated(vec![step(1)])), None);
    assert_eq!(
        claim_split_notice(&estimated(vec![step(1), step(2)])),
        Some(
            "This claim covers 3 intervals and does not fit one block. It will be sent as 2 \
             transactions, each needing its own signature."
                .to_owned()
        )
    );
}

#[test]
fn a_custom_fee_is_checked_and_dropped_with_the_claim() {
    let mut state = GovernanceState::new(editor());
    state.staking = read(0, Vec::new());
    assert!(!state.claim_fee_editable());
    assert!(!state.set_governance_gas_fee_mode(GasFeeMode::Custom, None));
    let (_, start) = state.open_staking_action(
        "actor".to_owned(),
        addr(9),
        StakingActionKind::RewardClaimSelected { tokens: vec![addr(1)] },
    );
    assert!(matches!(start, StakingDialogStart::EstimateClaim));
    assert!(state.claim_fee_editable());
    assert!(state.gas_fee_mode_changes(GasFeeMode::Custom));
    assert!(state.set_governance_gas_fee_mode(GasFeeMode::Custom, Some("too low".to_owned())));
    assert_eq!(state.reward_gas_fee.error, Some("too low".to_owned()));
    assert!(state.governance_gas_fee_changed(None));
    assert_eq!(state.reward_gas_fee.error, None);
    let asked = state.refresh_governance_gas_fee_quote().expect("no quote under way");
    assert!(state.reward_gas_fee.refreshing);
    let quote = GasFeeQuote {
        suggested_max_fee_per_gas: 2_000_000_000,
        suggested_max_priority_fee_per_gas: 1_000_000_000,
    };
    assert!(!state.finish_gas_fee_quote(asked.wrapping_add(1), true, Some(quote)));
    assert!(state.finish_gas_fee_quote(asked, true, Some(quote)));
    assert_eq!(state.reward_gas_fee.quote, Some(quote));
    state.close_staking_action();
    assert!(state.action_flow.selection.is_none());
    assert!(!state.claim_fee_editable());
}

#[test]
fn the_first_estimate_of_a_claim_chooses_what_pays() {
    let mut state = GovernanceState::new(editor());
    state.staking = read(0, Vec::new());
    let _ = state.open_staking_action(
        "actor".to_owned(),
        addr(9),
        StakingActionKind::RewardClaimSelected { tokens: vec![addr(1)] },
    );
    let request =
        state.start_reward_selection_estimate(&vec![addr(1), addr(2)]).expect("a claim is open");
    assert_eq!(request.tokens, vec![addr(1)]);
    assert_eq!(request.available_tokens, vec![addr(1)]);
    assert!(state.action_flow.reward_selection_estimate_wanted(request.generation, &request.tokens));
    let result = match estimated(vec![step(80_000)]) {
        Some(RewardSelectionEstimateState::Estimated(estimate)) => Ok(estimate),
        _ => Err(String::new()),
    };
    assert!(state.action_flow.apply_reward_selection_estimate(request.generation, result));
    // The reward is worth less than the fee that its gas adds at the expected price.
    let mut costs: KeyMap<U256, U256> = KeyMap::new();
    costs.insert(n(60_000), n(20));
    assert!(state.seed_reward_selection(
        &request,
        Some(2),
        &values(vec![(addr(1), 10)]),
        &costs
    ));
    // Whatever is selected, the claim stays that of its account.
    let claim = |tokens| StakingActionSelection {
        actor_uuid: "actor".to_owned(),
        actor: addr(9),
        kind: StakingActionKind::RewardClaimSelected { tokens },
    };
    assert_eq!(state.action_flow.staking_selection(), Some(&claim(Vec::new())));
    assert!(state.set_reward_claim_selection_all(vec![addr(1)]));
    assert_eq!(state.action_flow.staking_selection(), Some(&claim(vec![addr(1)])));
    assert!(state.set_reward_claim_selection_token(addr(2), true));
    assert_eq!(state.action_flow.staking_selection(), Some(&claim(vec![addr(1), addr(2)])));
}

#[test]
fn time_passes_until_something_is_due() {
    let mut state = GovernanceState::new(editor());
    assert!(matches!(
        state.select_governance_tab(GovernanceTab::Staking, true, false),
        TabStart::RefreshStaking
    ));
    state.staking = read(0, Vec::new());
    let generation = state.staking.generation;
    assert!(state.start_governance_time_tick(generation, true));
    assert!(matches!(
        state.governance_time_tick(generation, true, 70 * SECOND),
        TimeTickNext::Rearm
    ));
    assert!(state.start_governance_time_tick(generation, true));
    // The reward interval has ended by now.
    assert!(matches!(
        state.governance_time_tick(generation, true, 300 * SECOND),
        TimeTickNext::Refresh
    ));
    assert!(matches!(
        state.governance_time_tick(generation, true, 300 * SECOND),
        TimeTickNext::Nothing
    ));
}

fn table_row(state: StakeState, delegate: Address) -> StakeTableRow {
    stake_table_row(
        &stake(1, delegate, 40, state),
        addr(9),
        false,
        true,
        StakeTexts {
            amount: "40 RAIL".to_owned(),
            created: "today".to_owned(),
            unlock_date: "tomorrow".to_owned(),
            time_left: None,
            delegate: "0x…".to_owned(),
        },
    )
}

#[test]
fn a_table_is_drawn_again_for_what_changed() {
    let mut table = StakeTable::new(
        "actor".to_owned(),
        addr(9),
        vec![table_row(StakeState::Active, addr(9))],
        true,
    );
    let same = vec![table_row(StakeState::Active, addr(9))];
    assert_eq!(table.update(same, true, false), TableRedraw::Nothing);
    let other = vec![table_row(StakeState::Claimable, addr(9))];
    assert_eq!(table.update(other, true, false), TableRedraw::Rows);
    let same = vec![table_row(StakeState::Claimable, addr(9))];
    assert_eq!(table.update(same, false, false), TableRedraw::Layout);
    let open = StakeKey { actor_uuid: "actor".to_owned(), id: n(1) };
    let next = table.toggle_details_by_key(&None, &open);
    assert!(!table.take_pending_focus(false, n(1)));
    assert!(table.take_pending_focus(true, n(1)));
    assert!(!table.take_pending_focus(true, n(1)));
    assert!(table.details_open_changed(next, &open, false).is_none());
}

#[test]
fn the_details_of_a_stake_are_in_full() {
    let row = table_row(StakeState::Active, addr(0x11));
    let details = stake_details("actor", &row);
    assert_eq!(details.full_id, "#1");
    assert_eq!(details.delegate, "0x1111111111111111111111111111111111111111");
    assert_eq!(
        details.delegate_to_copy,
        Some("0x1111111111111111111111111111111111111111".to_owned())
    );
    assert_eq!(
        stake_details("actor", &table_row(StakeState::Active, addr(9))).delegate_to_copy,
        None
    );
    assert_eq!(stake_state_color("Unknown"), StateColor::Muted);
    assert_eq!(
        stake_seconds_left(&stake(1, addr(9), 1, StakeState::Unlocking), Some(n(1_200))),
        Some(300)
    );
    assert_eq!(stake_seconds_left(&stake(1, addr(9), 1, StakeState::Unlocking), None), None);
}

#[test]
fn open_details_are_closed_with_their_stake() {
    let mut state = GovernanceState::new(editor());
    state.staking = read(0, vec![stake(1, addr(9), 40, StakeState::Active)]);
    state.compact_position_details = Some(StakeKey { actor_uuid: "actor".to_owned(), id: n(1) });
    state.clear_stale_position_details();
    assert!(state.compact_position_details.is_some());
    state.compact_position_details = Some(StakeKey { actor_uuid: "actor".to_owned(), id: n(2) });
    state.clear_stale_position_details();
    assert!(state.compact_position_details.is_none());
}
