//! What the governance workspace and its staking tab show.
use crate::address::Address;
use crate::governance::ascending::{nondecreasing, sorted};
use crate::governance::flow::GovernanceActionFlowState;
use crate::governance::intervals::{
    external_part, remaining_reward_interval_seconds, saturated, self_delegated_part, stake_sum,
    staking_account_projection, unclaimed_part,
};
use crate::governance::model::StakePosition;
use crate::governance::rewards::{
    reward_usd_total, row_states, total_state, RewardUsdState,
};
use crate::governance::staking::{
    ActionId, ActionKindId, RewardIntervalCountdown, RewardView, StakingAccountView,
    StakingActionKind, StakingActionSelection, StakingRead, StakingReadState,
    StakingRefreshStatus,
};
use crate::governance::state::{GovernanceState, GovernanceTab};
use crate::governance::table::{control_id, staking_control_id};
use crate::keyed::KeyMap;
use crate::text::{concat2, concat3, decimal, decimal_u128, decimal_u64};
use crate::u256::U256;
use vstd::prelude::*;
use vstd::string::*;

verus! {

broadcast use crate::u256::u256_in_range;

/// Whether the shown tab is being read.
pub fn workspace_refreshing(state: &GovernanceState, proposals_refreshing: bool) -> (refreshing:
    bool)
    ensures
        refreshing == match state.tab {
            GovernanceTab::Proposals => proposals_refreshing,
            GovernanceTab::Staking => state.staking.status is Loading,
        },
{
    match state.tab {
        GovernanceTab::Proposals => proposals_refreshing,
        GovernanceTab::Staking => matches!(state.staking.status, StakingRefreshStatus::Loading),
    }
}

/// The place of a tab.
pub fn tab_index(tab: GovernanceTab) -> (index: usize)
    ensures
        index == (if tab is Staking { 1usize } else { 0usize }),
{
    match tab {
        GovernanceTab::Staking => 1,
        GovernanceTab::Proposals => 0,
    }
}

/// The tab at a place.
pub fn tab_at(index: usize) -> (tab: GovernanceTab)
    ensures
        tab is Staking == (index == 1),
{
    if index == 1 {
        GovernanceTab::Staking
    } else {
        GovernanceTab::Proposals
    }
}

/// The tag that counts inactive accounts.
pub fn inactive_label(inactive: usize) -> (label: Option<String>)
    ensures
        crate::text::optional_text(label) == if inactive > 0 {
            Some(decimal(inactive as nat) + " inactive"@)
        } else {
            None
        },
{
    if inactive > 0 {
        Some(concat2(&decimal_u128(inactive as u128), " inactive"))
    } else {
        None
    }
}

/// What the staking tab shows.
pub enum StakingBody {
    NotDeployed,
    /// The read failed; it can be tried again.
    Failed(String),
    Loading,
    /// What was read; with a tag where it is of an earlier refresh.
    Content { stale: bool },
}

/// What the staking tab shows.
pub fn staking_body(state: &StakingReadState, deployed: bool) -> (body: StakingBody)
    ensures
        if !deployed {
            body is NotDeployed
        } else {
            match state.status {
                StakingRefreshStatus::Error(error) => body == StakingBody::Failed(error),
                StakingRefreshStatus::Idle | StakingRefreshStatus::Loading => if state.metrics is None {
                    body is Loading
                } else {
                    body == (StakingBody::Content { stale: false })
                },
                StakingRefreshStatus::Fresh => body == (StakingBody::Content { stale: false }),
                StakingRefreshStatus::Stale => body == (StakingBody::Content {
                    stale: state.metrics is Some,
                }),
            }
        },
{
    if !deployed {
        return StakingBody::NotDeployed;
    }
    match &state.status {
        StakingRefreshStatus::Error(error) => return StakingBody::Failed(error.clone()),
        StakingRefreshStatus::Idle => if state.metrics.is_none() {
            return StakingBody::Loading;
        },
        StakingRefreshStatus::Loading => if state.metrics.is_none() {
            return StakingBody::Loading;
        },
        _ => {},
    }
    StakingBody::Content {
        stale: state.metrics.is_some() && matches!(state.status, StakingRefreshStatus::Stale),
    }
}

/// What is said of a chain without staking: that it has none, and where there is some.
pub fn not_deployed_texts() -> (texts: (&'static str, &'static str))
    ensures
        texts.0@ == "Staking is not deployed on this chain"@,
        texts.1@ == "Switch to Ethereum, BSC, or Polygon to view staking and rewards."@,
{
    (
        "Staking is not deployed on this chain",
        "Switch to Ethereum, BSC, or Polygon to view staking and rewards.",
    )
}

/// The seconds until the reward interval ends.
pub open spec fn interval_seconds(read: StakingRead, now: u128) -> Option<nat> {
    match (read.chain_time_at(now), read.reward_interval_countdown) {
        (Some(time), Some(countdown)) => if time <= countdown.boundary@ && countdown.boundary@ - time
            <= u64::MAX {
            Some((countdown.boundary@ - time) as nat)
        } else {
            None
        },
        _ => None,
    }
}

/// The seconds until the reward interval ends.
pub fn reward_interval_seconds(state: &StakingReadState, now: u128) -> (seconds: Option<u64>)
    ensures
        match seconds {
            Some(left) => interval_seconds(state@, now) == Some(left as nat),
            None => interval_seconds(state@, now) is None,
        },
{
    match (state.chain_time(now), state.reward_interval_countdown) {
        (Some(time), Some(countdown)) => remaining_reward_interval_seconds(countdown, time),
        _ => None,
    }
}

/// The text of when the reward interval ends, and what it says in more words. `left` is the text
/// of the time until then.
pub fn reward_interval_texts(
    countdown: Option<RewardIntervalCountdown>,
    left: Option<&str>,
) -> (texts: (String, String))
    ensures
        texts.0@ == (match left {
            Some(text) => text@,
            None => "Unavailable"@,
        }),
        texts.1@ == match countdown {
            Some(current) => "Reward interval "@ + decimal(current.interval@) + " ends in "@
                + texts.0@,
            None => "Reward interval unavailable"@,
        },
{
    let next = match left {
        Some(text) => text.to_owned(),
        None => "Unavailable".to_owned(),
    };
    let tooltip = match countdown {
        Some(current) => concat2(
            &concat3("Reward interval ", &current.interval.to_decimal(), " ends in "),
            &next,
        ),
        None => "Reward interval unavailable".to_owned(),
    };
    (next, tooltip)
}

/// The last read of an account.
pub open spec fn account_of_read(read: StakingRead, uuid: Seq<char>) -> Option<StakingAccountView> {
    if read.accounts.contains_key(uuid) {
        Some(read.accounts[uuid])
    } else {
        None
    }
}

/// The voting power of an account.
pub enum VotingPower {
    Loading,
    Unavailable,
    Known(U256),
}

/// The voting power of an account.
pub fn account_voting_power(state: &StakingReadState, uuid: &str) -> (power: VotingPower)
    ensures
        power == match account_of_read(state@, uuid@) {
            None => VotingPower::Loading,
            Some(view) => match view.voting_power {
                Ok(amount) => VotingPower::Known(amount),
                Err(_) => VotingPower::Unavailable,
            },
        },
{
    let key = uuid.to_owned();
    match state.accounts.get(&key) {
        None => VotingPower::Loading,
        Some(view) => match &view.voting_power {
            Ok(amount) => VotingPower::Known(*amount),
            Err(_) => VotingPower::Unavailable,
        },
    }
}

/// What is said of where an account's voting power comes from and goes to.
pub enum PowerQualifier {
    /// It is all its own, and nothing is delegated away.
    Plain,
    Received { received: U256 },
    /// Everything is delegated away; this much is staked.
    DelegatedAway { staked: U256 },
    Mixed { own: U256, received: U256, delegated: U256 },
}

/// What an account's power and stakes come to: own active stakes, what is received from others, and
/// what is delegated away.
pub open spec fn power_parts(power: nat, stakes: Seq<StakePosition>) -> (nat, nat, nat) {
    let own = saturated(stake_sum(stakes, |stake: StakePosition| self_delegated_part(stake)));
    let delegated = saturated(stake_sum(stakes, |stake: StakePosition| external_part(stake)));
    let received = if power >= own {
        (power - own) as nat
    } else {
        0
    };
    (own, received, delegated)
}

/// What is said of an account's voting power, where its power and its stakes were read.
pub fn power_qualifier(state: &StakingReadState, uuid: &str) -> (qualifier: PowerQualifier)
    ensures
        match account_of_read(state@, uuid@) {
            Some(view) => match (view.voting_power, view.stakes) {
                (Ok(power), Ok(stakes)) => {
                    let (own, received, delegated) = power_parts(power@, stakes@);
                    match qualifier {
                        PowerQualifier::Plain => received == 0 && delegated == 0,
                        PowerQualifier::Received { received: shown } => received != 0 && delegated
                            == 0 && shown@ == received,
                        PowerQualifier::DelegatedAway { staked } => received == 0 && delegated != 0
                            && staked@ == saturated(
                            stake_sum(stakes@, |stake: StakePosition| unclaimed_part(stake)),
                        ),
                        PowerQualifier::Mixed {
                            own: shown_own,
                            received: shown_received,
                            delegated: shown_delegated,
                        } => received != 0 && delegated != 0 && shown_own@ == own
                            && shown_received@ == received && shown_delegated@ == delegated,
                    }
                },
                _ => qualifier is Plain,
            },
            None => qualifier is Plain,
        },
{
    let key = uuid.to_owned();
    match state.accounts.get(&key) {
        Some(view) => match (&view.voting_power, &view.stakes) {
            (Ok(power), Ok(stakes)) => {
                let projection = staking_account_projection(stakes);
                let received = projection.received_voting_power(*power);
                let delegated = projection.active_external_delegated;
                match (received.is_zero(), delegated.is_zero()) {
                    (true, true) => PowerQualifier::Plain,
                    (false, true) => PowerQualifier::Received { received },
                    (true, false) => PowerQualifier::DelegatedAway {
                        staked: projection.unclaimed_principal,
                    },
                    (false, false) => PowerQualifier::Mixed {
                        own: projection.active_self_delegated,
                        received,
                        delegated,
                    },
                }
            },
            _ => PowerQualifier::Plain,
        },
        None => PowerQualifier::Plain,
    }
}

/// The texts of the amounts that a qualifier holds.
pub struct QualifierTexts {
    pub own: String,
    pub received: String,
    pub delegated: String,
    pub staked: String,
}

/// What is said of an account's voting power.
pub fn power_qualifier_label(qualifier: &PowerQualifier, texts: &QualifierTexts) -> (label: Option<
    String,
>)
    ensures
        crate::text::optional_text(label) == match *qualifier {
            PowerQualifier::Plain => None,
            PowerQualifier::Received { .. } => Some(
                "includes "@ + texts.received@ + " received from other accounts"@,
            ),
            PowerQualifier::DelegatedAway { .. } => Some(
                texts.staked@ + " staked · delegated away"@,
            ),
            PowerQualifier::Mixed { .. } => Some(
                texts.own@ + " own · "@ + texts.received@ + " received · "@ + texts.delegated@
                    + " delegated away"@,
            ),
        },
{
    match qualifier {
        PowerQualifier::Plain => None,
        PowerQualifier::Received { .. } => Some(
            concat3("includes ", &texts.received, " received from other accounts"),
        ),
        PowerQualifier::DelegatedAway { .. } => Some(
            concat2(&texts.staked, " staked · delegated away"),
        ),
        PowerQualifier::Mixed { .. } => {
            let mut label = concat3(&texts.own, " own · ", &texts.received);
            label.append(" received · ");
            label.append(&texts.delegated);
            label.append(" delegated away");
            Some(label)
        },
    }
}

/// The balance that can be staked: what the current refresh read, where it is not 0.
pub open spec fn stakeable_balance(read: StakingRead, uuid: Seq<char>) -> Option<U256> {
    if read.current_account_ids.contains(uuid) {
        match account_of_read(read, uuid) {
            Some(view) => match view.balance {
                Ok(balance) => if balance@ != 0 {
                    Some(balance)
                } else {
                    None
                },
                Err(_) => None,
            },
            None => None,
        }
    } else {
        None
    }
}

/// The balance that can be staked.
pub fn wallet_balance(state: &StakingReadState, uuid: &str) -> (balance: Option<U256>)
    ensures
        balance == stakeable_balance(state@, uuid@),
{
    let key = uuid.to_owned();
    if !state.current_account_ids.contains(&key) {
        return None;
    }
    match state.accounts.get(&key) {
        Some(view) => match &view.balance {
            Ok(balance) => if balance.is_zero() {
                None
            } else {
                Some(*balance)
            },
            Err(_) => None,
        },
        None => None,
    }
}

/// What stands in the place of an account's stakes.
#[derive(Clone, Copy, Debug, PartialEq, Eq, Structural)]
pub enum StakesSection {
    Loading,
    Unavailable,
    /// There are none, and nothing to stake either.
    Empty,
    /// There are none, and the balance stands below.
    Nothing,
    /// A table of this many rows, of which some are visible at once.
    Table { rows: usize, visible: usize, scrolls: bool },
}

/// What stands in the place of an account's stakes.
pub fn stakes_section(state: &StakingReadState, uuid: &str) -> (section: StakesSection)
    ensures
        match account_of_read(state@, uuid@) {
            None => section is Loading,
            Some(view) => match view.stakes {
                Err(_) => section is Unavailable,
                Ok(stakes) => if stakes@.len() > 0 {
                    section == (StakesSection::Table {
                        rows: stakes@.len() as usize,
                        visible: if stakes@.len() > 5 {
                            5
                        } else {
                            stakes@.len() as usize
                        },
                        scrolls: stakes@.len() > 5,
                    })
                } else if stakeable_balance(state@, uuid@) is None {
                    section is Empty
                } else {
                    section is Nothing
                },
            },
        },
{
    let key = uuid.to_owned();
    match state.accounts.get(&key) {
        None => StakesSection::Loading,
        Some(view) => match &view.stakes {
            Err(_) => StakesSection::Unavailable,
            Ok(stakes) => {
                let rows: usize = stakes.len();
                if rows > 0 {
                    let visible: usize = if rows > 5 {
                        5
                    } else {
                        rows
                    };
                    StakesSection::Table { rows, visible, scrolls: rows > 5 }
                } else if wallet_balance(state, uuid).is_none() {
                    StakesSection::Empty
                } else {
                    StakesSection::Nothing
                }
            },
        },
    }
}

/// What is said in the place of an account's stakes, where no table stands there.
pub fn stakes_section_label(section: StakesSection) -> (label: Option<&'static str>)
    ensures
        match section {
            StakesSection::Loading => label matches Some(text) && text@
                == "Loading account stakes..."@,
            StakesSection::Unavailable => label matches Some(text) && text@
                == "Stake rows unavailable for this account."@,
            StakesSection::Empty => label matches Some(text) && text@
                == "No staking positions yet."@,
            StakesSection::Nothing | StakesSection::Table { .. } => label is None,
        },
{
    match section {
        StakesSection::Loading => Some("Loading account stakes..."),
        StakesSection::Unavailable => Some("Stake rows unavailable for this account."),
        StakesSection::Empty => Some("No staking positions yet."),
        _ => None,
    }
}

/// The offer to stake the balance of an account.
#[derive(Debug, PartialEq, Eq)]
pub struct StakeOffer {
    pub balance: U256,
    pub control_id: String,
    pub enabled: bool,
}

/// The offer to stake the balance of an active account: enabled once the metrics are in.
pub fn stake_offer(state: &StakingReadState, uuid: &str, inactive: bool) -> (offer: Option<
    StakeOffer,
>)
    ensures
        match offer {
            Some(found) => !inactive && stakeable_balance(state@, uuid@) == Some(found.balance)
                && found.control_id@ == control_id(uuid@, "stake"@, "account"@) && found.enabled
                == state@.global_ready,
            None => inactive || stakeable_balance(state@, uuid@) is None,
        },
{
    if inactive {
        return None;
    }
    match wallet_balance(state, uuid) {
        Some(balance) => Some(
            StakeOffer {
                balance,
                control_id: staking_control_id(uuid, "stake", "account"),
                enabled: state.global_action_ready(),
            },
        ),
        None => None,
    }
}

/// The key of an account's table of stakes.
pub fn stake_table_key(chain_id: u64, uuid: &str) -> (key: String)
    ensures
        key@ == "governance-stakes-"@ + decimal(chain_id as nat) + "-"@ + uuid@,
{
    let mut key = concat3("governance-stakes-", &decimal_u64(chain_id), "-");
    key.append(uuid);
    key
}

/// What stands in the place of an account's rewards.
pub enum RewardsSection {
    /// Every reward was read, and none is positive.
    NothingToClaim,
    Rewards {
        total: RewardUsdState,
        /// The tokens with a positive reward, in ascending order.
        positive: Vec<Address>,
        claim_ready: bool,
        /// The tokens whose rows are shown.
        shown: Vec<Address>,
    },
}

/// Whether the current refresh read every reward as zero.
pub open spec fn all_zero_rewards(read: StakingRead, uuid: Seq<char>, tokens: Seq<Address>) -> bool {
    tokens.len() > 0 && forall|i: int|
        0 <= i < tokens.len() ==> read.resolved(uuid, #[trigger] tokens[i]) == Some(
            RewardView::Zero,
        )
}

/// The tokens with a positive reward, in their order.
fn positive_tokens(state: &StakingReadState, uuid: &str, tokens: &Vec<Address>) -> (found: Vec<Address>)
    ensures
        found@ == tokens@.filter(|token: Address| state@.positive(uuid@, token)),
{
    let ghost keep = |token: Address| state@.positive(uuid@, token);
    let mut found: Vec<Address> = Vec::new();
    let mut i: usize = 0;
    proof {
        reveal(Seq::filter);
        assert(tokens@.take(0).filter(keep) =~= Seq::<Address>::empty());
    }
    while i < tokens.len()
        invariant
            i <= tokens@.len(),
            keep == (|token: Address| state@.positive(uuid@, token)),
            found@ == tokens@.take(i as int).filter(keep),
        decreases tokens@.len() - i,
    {
        proof {
            reveal(Seq::filter);
            assert(tokens@.take(i + 1).drop_last() =~= tokens@.take(i as int));
            assert(tokens@.take(i + 1).last() == tokens@[i as int]);
        }
        let kept = state.positive_reward_evidence(uuid, tokens[i]).is_some();
        if kept {
            found.push(tokens[i]);
        }
        i += 1;
    }
    assert(tokens@.take(i as int) =~= tokens@);
    found
}

/// The tokens whose reward was not read as zero, in their order.
fn shown_tokens(state: &StakingReadState, uuid: &str, tokens: &Vec<Address>) -> (found: Vec<Address>)
    ensures
        found@ == tokens@.filter(|token: Address| state@.resolved(uuid@, token) != Some(RewardView::Zero)),
{
    let ghost keep = |token: Address| state@.resolved(uuid@, token) != Some(RewardView::Zero);
    let mut found: Vec<Address> = Vec::new();
    let mut i: usize = 0;
    proof {
        reveal(Seq::filter);
        assert(tokens@.take(0).filter(keep) =~= Seq::<Address>::empty());
    }
    while i < tokens.len()
        invariant
            i <= tokens@.len(),
            keep == (|token: Address| state@.resolved(uuid@, token) != Some(RewardView::Zero)),
            found@ == tokens@.take(i as int).filter(keep),
        decreases tokens@.len() - i,
    {
        proof {
            reveal(Seq::filter);
            assert(tokens@.take(i + 1).drop_last() =~= tokens@.take(i as int));
            assert(tokens@.take(i + 1).last() == tokens@[i as int]);
        }
        let kept = match state.resolved_reward(uuid, tokens[i]) {
            Some(RewardView::Zero) => false,
            _ => true,
        };
        if kept {
            found.push(tokens[i]);
        }
        i += 1;
    }
    assert(tokens@.take(i as int) =~= tokens@);
    found
}

/// What stands in the place of an account's rewards, where `tokens` are the reward tokens of the
/// deployment and `values` holds the cached value of each reward's amount. The claim is offered
/// where there is a positive reward, what was read allows it, the account is active, and no other
/// action is open.
pub fn rewards_section(
    state: &StakingReadState,
    flow: &GovernanceActionFlowState,
    uuid: &str,
    actor: Address,
    inactive: bool,
    tokens: &Vec<Address>,
    values: &KeyMap<Address, U256>,
) -> (section: RewardsSection)
    ensures
        if all_zero_rewards(state@, uuid@, tokens@) {
            section is NothingToClaim
        } else {
            section matches RewardsSection::Rewards { total, positive, claim_ready, shown } && {
                &&& shown@ == tokens@.filter(
                    |token: Address| state@.resolved(uuid@, token) != Some(RewardView::Zero),
                )
                &&& nondecreasing(positive@)
                &&& positive@.to_multiset() == tokens@.filter(
                    |token: Address| state@.positive(uuid@, token),
                ).to_multiset()
                &&& total_state(
                    row_states(uuid@, tokens@, state@.rewards, state@.current_reward_keys, values@),
                    total,
                )
                &&& claim_ready == (positive@.len() > 0 && state@.selection_ready(
                    ActionId {
                        actor_uuid: uuid@,
                        actor,
                        kind: ActionKindId::RewardClaim(positive@),
                    },
                ) && !inactive && flow.selection is None)
            }
        },
{
    let mut all_zero = tokens.len() > 0;
    let mut i: usize = 0;
    while i < tokens.len()
        invariant
            i <= tokens@.len(),
            all_zero == (tokens@.len() > 0 && forall|j: int|
                0 <= j < i ==> state@.resolved(uuid@, #[trigger] tokens@[j]) == Some(
                    RewardView::Zero,
                )),
        decreases tokens@.len() - i,
    {
        let zero = match state.resolved_reward(uuid, tokens[i]) {
            Some(RewardView::Zero) => true,
            _ => false,
        };
        if !zero {
            assert(state@.resolved(uuid@, tokens@[i as int]) != Some(RewardView::Zero));
            all_zero = false;
        }
        i += 1;
    }
    if all_zero {
        return RewardsSection::NothingToClaim;
    }
    let positive = sorted(&positive_tokens(state, uuid, tokens));
    let shown = shown_tokens(state, uuid, tokens);
    let total = reward_usd_total(
        uuid,
        tokens,
        &state.rewards,
        &state.current_reward_keys,
        values,
    );
    let has_positive = positive.len() > 0;
    let claim = StakingActionSelection {
        actor_uuid: uuid.to_owned(),
        actor,
        kind: StakingActionKind::RewardClaimSelected {
            tokens: crate::governance::model::copy_items(&positive),
        },
    };
    let claim_ready = has_positive && state.action_selection_ready(&claim) && !inactive
        && flow.selection.is_none();
    RewardsSection::Rewards { total, positive, claim_ready, shown }
}

/// The text beside the heading of the rewards, where `value_text` is the text of their worth.
pub fn unclaimed_label(total: RewardUsdState, value_text: &str) -> (label: String)
    ensures
        label@ == match total {
            RewardUsdState::Loading => "Loading..."@,
            RewardUsdState::Unavailable => "USD unavailable"@,
            RewardUsdState::Value(_) => value_text@ + " unclaimed"@,
        },
{
    match total {
        RewardUsdState::Loading => "Loading...".to_owned(),
        RewardUsdState::Unavailable => "USD unavailable".to_owned(),
        RewardUsdState::Value(_) => concat2(value_text, " unclaimed"),
    }
}

/// The claim that the rewards of an account offer takes exactly the tokens whose reward was read as
/// positive: none of them was read as zero, and none that pays is left out.
pub proof fn claims_are_of_positive_rewards(
    read: StakingRead,
    uuid: Seq<char>,
    tokens: Seq<Address>,
    claimed: Seq<Address>,
    token: Address,
)
    requires
        claimed.to_multiset() == tokens.filter(
            |token: Address| read.positive(uuid, token),
        ).to_multiset(),
    ensures
        claimed.contains(token) <==> (tokens.contains(token) && (read.resolved(
            uuid,
            token,
        ) matches Some(RewardView::Positive { .. }))),
        claimed.contains(token) ==> read.resolved(uuid, token) != Some(RewardView::Zero),
{
    broadcast use {vstd::seq_lib::group_to_multiset_ensures, vstd::seq_lib::group_filter_ensures};

    let pays = |token: Address| read.positive(uuid, token);
    let paying = tokens.filter(pays);
    assert(claimed.to_multiset().count(token) == paying.to_multiset().count(token));
    if paying.contains(token) {
        tokens.lemma_filter_contains_rev(pays, token);
    }
    if tokens.contains(token) && pays(token) {
        tokens.lemma_filter_contains(pays, tokens.index_of(token));
    }
}

/// What is left of an interval and the time of the chain make up its end.
pub proof fn what_is_left_ends_at_the_boundary(read: StakingRead, now: u128)
    ensures
        read.chain_time_at(now) is None || read.reward_interval_countdown is None
            ==> interval_seconds(read, now) is None,
        interval_seconds(read, now) matches Some(left) ==> (read.chain_time_at(now) matches Some(
            time,
        ) && read.reward_interval_countdown matches Some(countdown) && time + left
            == countdown.boundary@),
        read.chain_time_at(now) matches Some(time) ==> (
        read.reward_interval_countdown matches Some(countdown) ==> (time > countdown.boundary@
            ==> interval_seconds(read, now) is None)),
        read.chain_time_at(now) matches Some(time) ==> (
        read.reward_interval_countdown matches Some(countdown) ==> (time <= countdown.boundary@
            <= time + u64::MAX ==> interval_seconds(read, now) is Some)),
{
}

/// An account is shown exactly where it was read, as it was read.
pub proof fn accounts_are_shown_as_read(read: StakingRead, uuid: Seq<char>)
    ensures
        read.accounts.contains_key(uuid) ==> account_of_read(read, uuid) == Some(
            read.accounts[uuid],
        ),
        !read.accounts.contains_key(uuid) ==> account_of_read(read, uuid) is None,
{
}

/// The power that is received is what exceeds the account's own.
pub proof fn received_power_exceeds_the_own(power: nat, stakes: Seq<StakePosition>)
    ensures
        ({
            let (own, received, delegated) = power_parts(power, stakes);
            &&& own == saturated(
                stake_sum(stakes, |stake: StakePosition| self_delegated_part(stake)),
            )
            &&& delegated == saturated(
                stake_sum(stakes, |stake: StakePosition| external_part(stake)),
            )
            &&& power >= own ==> own + received == power
            &&& power <= own ==> received == 0
        }),
{
}

/// A balance can be staked exactly where this refresh has read it and it is positive.
pub proof fn positive_balances_can_be_staked(read: StakingRead, uuid: Seq<char>)
    ensures
        !read.current_account_ids.contains(uuid) ==> stakeable_balance(read, uuid) is None,
        !read.accounts.contains_key(uuid) ==> stakeable_balance(read, uuid) is None,
        read.accounts.contains_key(uuid) && read.accounts[uuid].balance is Err
            ==> stakeable_balance(read, uuid) is None,
        read.current_account_ids.contains(uuid) && read.accounts.contains_key(uuid) ==> (
        read.accounts[uuid].balance matches Ok(balance) ==> (balance@ > 0 ==> stakeable_balance(
            read,
            uuid,
        ) == Some(balance))),
        stakeable_balance(read, uuid) matches Some(balance) ==> balance@ > 0,
{
}

/// Rewards are all zero exactly where there are tokens and each was read to pay nothing.
pub proof fn zero_rewards_are_read_to_be(
    read: StakingRead,
    uuid: Seq<char>,
    tokens: Seq<Address>,
    at: int,
)
    ensures
        tokens.len() == 0 ==> !all_zero_rewards(read, uuid, tokens),
        0 <= at < tokens.len() && read.resolved(uuid, tokens[at]) is None ==> !all_zero_rewards(
            read,
            uuid,
            tokens,
        ),
        0 <= at < tokens.len() && read.positive(uuid, tokens[at]) ==> !all_zero_rewards(
            read,
            uuid,
            tokens,
        ),
        tokens.len() > 0 && (forall|i: int|
            0 <= i < tokens.len() ==> read.resolved(uuid, #[trigger] tokens[i]) == Some(
                RewardView::Zero,
            )) ==> all_zero_rewards(read, uuid, tokens),
{
}

} // verus!
