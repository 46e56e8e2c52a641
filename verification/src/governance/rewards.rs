//! What rewards are worth, and what it costs to claim them.
use crate::address::Address;
use crate::governance::ascending::{nondecreasing, sorted};
use crate::governance::model::{copy_items, RewardBatchEvidence, RewardKey};
use crate::governance::staking::{RewardView, StakingRead, StakingReadState};
use crate::keyed::{KeyMap, KeySet};
use crate::u256::{u256_in_range, u256_max, U256};
use vstd::prelude::*;

verus! {

/// One transaction of a reward claim.
#[derive(Debug, PartialEq, Eq)]
pub struct RewardClaimStep {
    pub starting_interval: U256,
    pub ending_interval: U256,
    pub reward_tokens: Vec<Address>,
    pub subtotal: U256,
    pub expected_amounts: Vec<U256>,
    pub estimated_gas: u64,
}

/// What one transaction of a reward claim says.
#[verifier::ext_equal]
pub struct ClaimStep {
    pub starting_interval: U256,
    pub ending_interval: U256,
    pub reward_tokens: Seq<Address>,
    pub subtotal: U256,
    pub expected_amounts: Seq<U256>,
    pub estimated_gas: u64,
}

impl View for RewardClaimStep {
    type V = ClaimStep;

    open spec fn view(&self) -> ClaimStep {
        ClaimStep {
            starting_interval: self.starting_interval,
            ending_interval: self.ending_interval,
            reward_tokens: self.reward_tokens@,
            subtotal: self.subtotal,
            expected_amounts: self.expected_amounts@,
            estimated_gas: self.estimated_gas,
        }
    }
}

/// What the steps of a claim say.
pub open spec fn claim_steps(steps: Seq<RewardClaimStep>) -> Seq<ClaimStep> {
    steps.map_values(|step: RewardClaimStep| step@)
}

impl RewardClaimStep {
    /// A copy of this step.
    pub fn copy(&self) -> (copy: RewardClaimStep)
        ensures
            copy@ == self@,
    {
        RewardClaimStep {
            starting_interval: self.starting_interval,
            ending_interval: self.ending_interval,
            reward_tokens: copy_items(&self.reward_tokens),
            subtotal: self.subtotal,
            expected_amounts: copy_items(&self.expected_amounts),
            estimated_gas: self.estimated_gas,
        }
    }
}

/// A copy of the steps.
pub fn copy_steps(steps: &Vec<RewardClaimStep>) -> (copy: Vec<RewardClaimStep>)
    ensures
        claim_steps(copy@) == claim_steps(steps@),
{
    let mut copy: Vec<RewardClaimStep> = Vec::new();
    let mut i: usize = 0;
    while i < steps.len()
        invariant
            i <= steps@.len(),
            copy@.len() == i,
            forall|j: int| 0 <= j < i ==> (#[trigger] copy@[j])@ == steps@[j]@,
        decreases steps@.len() - i,
    {
        copy.push(steps[i].copy());
        i += 1;
    }
    assert(claim_steps(copy@) =~= claim_steps(steps@));
    copy
}

/// What the claim selection form knows about the cost of the exact selected call.
pub enum RewardSelectionEstimateState {
    Pending,
    Estimated(RewardSelectionEstimate),
    Unavailable(String),
}

/// The planned selected claim: the evidence it was planned from, the steps it splits into, and the
/// fee those steps were estimated at.
pub struct RewardSelectionEstimate {
    pub evidence: Option<RewardBatchEvidence>,
    pub steps: Vec<RewardClaimStep>,
    pub expected_fee_per_gas: u128,
    pub added_gas: KeyMap<Address, Option<u64>>,
    pub shared_gas: Option<u64>,
}

/// The fee caps that a transaction is sent with.
#[derive(Clone, Copy, Debug, PartialEq, Eq, Structural)]
pub enum PublicActionGasFeeSelection {
    Auto,
    Custom { max_fee_per_gas: u128, max_priority_fee_per_gas: u128 },
}

/// The caps that the last quote suggests.
#[derive(Clone, Copy, Debug, PartialEq, Eq, Structural)]
pub struct GasFeeQuote {
    pub suggested_max_fee_per_gas: u128,
    pub suggested_max_priority_fee_per_gas: u128,
}

/// The gas of all steps.
pub open spec fn gas_sum(steps: Seq<RewardClaimStep>) -> nat
    decreases steps.len(),
{
    if steps.len() == 0 {
        0
    } else {
        gas_sum(steps.drop_last()) + steps.last().estimated_gas as nat
    }
}

proof fn lemma_gas_sum_grows(steps: Seq<RewardClaimStep>, count: int)
    requires
        0 <= count <= steps.len(),
    ensures
        gas_sum(steps.take(count)) <= gas_sum(steps),
    decreases steps.len(),
{
    if count == steps.len() {
        assert(steps.take(count) =~= steps);
    } else {
        lemma_gas_sum_grows(steps.drop_last(), count);
        assert(steps.drop_last().take(count) =~= steps.take(count));
    }
}

/// The gas of all steps, where 64 bits hold it.
pub fn reward_selection_gas(steps: &Vec<RewardClaimStep>) -> (gas: Option<u64>)
    ensures
        match gas {
            Some(total) => total as nat == gas_sum(steps@),
            None => gas_sum(steps@) > u64::MAX,
        },
{
    let mut total: u64 = 0;
    let mut i: usize = 0;
    while i < steps.len()
        invariant
            i <= steps@.len(),
            total as nat == gas_sum(steps@.take(i as int)),
        decreases steps@.len() - i,
    {
        proof {
            let longer = steps@.take(i + 1);
            assert(longer.drop_last() =~= steps@.take(i as int));
            lemma_gas_sum_grows(steps@, i + 1);
        }
        match total.checked_add(steps[i].estimated_gas) {
            Some(next) => total = next,
            None => return None,
        }
        i += 1;
    }
    assert(steps@.take(i as int) =~= steps@);
    Some(total)
}

/// The gas that one token adds to a claim: what dropping it from the selection saves, or what
/// adding it to the selection costs. `None` where the comparison is inconsistent.
pub fn reward_claim_added_gas(selected: bool, current: u64, alternative: u64) -> (added: Option<
    u64,
>)
    ensures
        added matches Some(gas) ==> (selected ==> alternative + gas == current),
        added matches Some(gas) ==> (!selected ==> current + gas == alternative),
        match added {
            Some(gas) => gas == if selected {
                current - alternative
            } else {
                alternative - current
            },
            None => if selected {
                current < alternative
            } else {
                alternative < current
            },
        },
{
    if selected {
        current.checked_sub(alternative)
    } else {
        alternative.checked_sub(current)
    }
}

/// The gas that `token` adds, where it is known.
pub open spec fn known_added(added: Map<Address, Option<u64>>, token: Address) -> Option<u64> {
    if added.contains_key(token) {
        added[token]
    } else {
        None
    }
}

/// Whether the added gas of each of these tokens is known.
pub open spec fn all_added_known(
    tokens: Seq<Address>,
    added: Map<Address, Option<u64>>,
) -> bool {
    forall|i: int| 0 <= i < tokens.len() ==> known_added(added, #[trigger] tokens[i]) is Some
}

/// The gas that these tokens add, each by itself.
pub open spec fn added_sum(tokens: Seq<Address>, added: Map<Address, Option<u64>>) -> nat
    decreases tokens.len(),
{
    if tokens.len() == 0 {
        0
    } else {
        added_sum(tokens.drop_last(), added) + known_added(added, tokens.last()).unwrap() as nat
    }
}

proof fn lemma_added_sum_grows(
    tokens: Seq<Address>,
    added: Map<Address, Option<u64>>,
    count: int,
)
    requires
        0 <= count <= tokens.len(),
        all_added_known(tokens, added),
    ensures
        added_sum(tokens.take(count), added) <= added_sum(tokens, added),
    decreases tokens.len(),
{
    if count == tokens.len() {
        assert(tokens.take(count) =~= tokens);
    } else {
        let head = tokens.drop_last();
        assert forall|i: int| 0 <= i < head.len() implies known_added(
            added,
            #[trigger] head[i],
        ) is Some by {
            assert(head[i] == tokens[i]);
        }
        lemma_added_sum_grows(head, added, count);
        assert(head.take(count) =~= tokens.take(count));
    }
}

/// The gas of a claim that no single token accounts for: what is left of the total once the added
/// gas of each selected token is taken off. `None` where one of them is unknown or they exceed the
/// total.
pub fn reward_claim_shared_gas(
    selected: &Vec<Address>,
    total_gas: Option<u64>,
    added_gas: &KeyMap<Address, Option<u64>>,
) -> (shared: Option<u64>)
    ensures
        match shared {
            Some(gas) => total_gas matches Some(total) && all_added_known(selected@, added_gas@)
                && gas + added_sum(selected@, added_gas@) == total,
            None => total_gas is None || !all_added_known(selected@, added_gas@) || added_sum(
                selected@,
                added_gas@,
            ) > total_gas.unwrap(),
        },
{
    let total: u64 = match total_gas {
        Some(total) => total,
        None => return None,
    };
    let mut remaining: u64 = total;
    let mut i: usize = 0;
    while i < selected.len()
        invariant
            i <= selected@.len(),
            total_gas == Some(total),
            all_added_known(selected@.take(i as int), added_gas@),
            remaining + added_sum(selected@.take(i as int), added_gas@) == total,
        decreases selected@.len() - i,
    {
        let ghost head = selected@.take(i as int);
        let ghost longer = selected@.take(i + 1);
        assert(longer.drop_last() =~= head);
        let added = match added_gas.get(&selected[i]) {
            Some(added) => *added,
            None => None,
        };
        match added {
            Some(gas) => {
                proof {
                    assert forall|j: int| 0 <= j < longer.len() implies known_added(
                        added_gas@,
                        #[trigger] longer[j],
                    ) is Some by {
                        if j < i {
                            assert(longer[j] == head[j]);
                        }
                    }
                    if all_added_known(selected@, added_gas@) {
                        lemma_added_sum_grows(selected@, added_gas@, i + 1);
                    }
                }
                match remaining.checked_sub(gas) {
                    Some(rest) => remaining = rest,
                    None => return None,
                }
            },
            None => {
                assert(known_added(added_gas@, selected@[i as int]) is None);
                return None;
            },
        }
        i += 1;
    }
    assert(selected@.take(i as int) =~= selected@);
    Some(remaining)
}

/// The product of a gas amount and a fee per gas.
pub fn gas_cost(gas: u64, fee_per_gas: u128) -> (cost: U256)
    ensures
        gas == 0 || fee_per_gas == 0 ==> cost@ == 0,
        cost@ == gas * fee_per_gas,
{
    assert(gas as nat * fee_per_gas as nat <= u256_max()) by (nonlinear_arith)
        requires
            gas <= 0xffff_ffff_ffff_ffff,
            fee_per_gas <= 0xffff_ffff_ffff_ffff_ffff_ffff_ffff_ffff,
            u256_max()
                == 0xffff_ffff_ffff_ffff_ffff_ffff_ffff_ffff_ffff_ffff_ffff_ffff_ffff_ffff_ffff_ffffnat,
    ;
    match U256::from_u64(gas).checked_mul(U256::from_u128(fee_per_gas)) {
        Some(cost) => cost,
        None => vstd::pervasive::unreached(),
    }
}

/// The estimated cost of one planned claim selection at a fee per gas. `None` where the gas of its
/// steps is out of range.
pub fn reward_selection_cost(steps: &Vec<RewardClaimStep>, fee_per_gas: u128) -> (cost: Option<
    U256,
>)
    ensures
        match cost {
            Some(total) => gas_sum(steps@) <= u64::MAX && total@ == gas_sum(steps@)
                * fee_per_gas as nat,
            None => gas_sum(steps@) > u64::MAX,
        },
{
    match reward_selection_gas(steps) {
        Some(gas) => Some(gas_cost(gas, fee_per_gas)),
        None => None,
    }
}

/// The caps whose expected fee prices a claim: those of the selection, or those that the quote
/// suggests. Without a quote there is nothing to price them with.
pub fn reward_claim_fee_caps(
    selection: PublicActionGasFeeSelection,
    quote: Option<GasFeeQuote>,
) -> (caps: Option<(u128, u128)>)
    ensures
        caps is Some <==> quote is Some,
        caps matches Some(own) ==> (selection matches PublicActionGasFeeSelection::Custom {
            max_fee_per_gas,
            max_priority_fee_per_gas,
        } ==> own.0 == max_fee_per_gas && own.1 == max_priority_fee_per_gas),
        caps matches Some(own) ==> (selection is Auto ==> (quote matches Some(found) && own.0
            == found.suggested_max_fee_per_gas && own.1 == found.suggested_max_priority_fee_per_gas)),
        caps == match (quote, selection) {
            (None, _) => None,
            (Some(quote), PublicActionGasFeeSelection::Auto) => Some(
                (quote.suggested_max_fee_per_gas, quote.suggested_max_priority_fee_per_gas),
            ),
            (
                Some(_),
                PublicActionGasFeeSelection::Custom { max_fee_per_gas, max_priority_fee_per_gas },
            ) => Some((max_fee_per_gas, max_priority_fee_per_gas)),
        },
{
    match (quote, selection) {
        (None, _) => None,
        (Some(quote), PublicActionGasFeeSelection::Auto) => Some(
            (quote.suggested_max_fee_per_gas, quote.suggested_max_priority_fee_per_gas),
        ),
        (
            Some(_),
            PublicActionGasFeeSelection::Custom { max_fee_per_gas, max_priority_fee_per_gas },
        ) => Some((max_fee_per_gas, max_priority_fee_per_gas)),
    }
}

/// The fee per gas that a claim is priced at: what the quote expects for the caps, or without a
/// quote the fee of the estimate, for a custom selection its greatest fee.
pub open spec fn priced_fee_per_gas(
    selection: PublicActionGasFeeSelection,
    expected: Option<u128>,
    auto_fee_per_gas: u128,
) -> u128 {
    match (expected, selection) {
        (Some(expected), _) => expected,
        (None, PublicActionGasFeeSelection::Auto) => auto_fee_per_gas,
        (None, PublicActionGasFeeSelection::Custom { max_fee_per_gas, .. }) => max_fee_per_gas,
    }
}

/// The fee per gas that a claim is priced at. `expected` is what the quote expects for the caps of
/// the selection.
pub fn reward_claim_fee_per_gas(
    selection: PublicActionGasFeeSelection,
    expected: Option<u128>,
    auto_fee_per_gas: u128,
) -> (fee: u128)
    ensures
        fee == priced_fee_per_gas(selection, expected, auto_fee_per_gas),
{
    match (expected, selection) {
        (Some(expected), _) => expected,
        (None, PublicActionGasFeeSelection::Auto) => auto_fee_per_gas,
        (None, PublicActionGasFeeSelection::Custom { max_fee_per_gas, .. }) => max_fee_per_gas,
    }
}

/// What a reward is worth in millionths of a dollar.
#[derive(Clone, Copy, Debug, PartialEq, Eq, Structural)]
pub enum RewardUsdState {
    Loading,
    Unavailable,
    Value(U256),
}

/// What a reward is worth, where `usd` is the cached value of its amount.
pub open spec fn usd_state(reward: Option<RewardView>, usd: Option<U256>) -> RewardUsdState {
    match reward {
        None => RewardUsdState::Loading,
        Some(RewardView::Zero) => RewardUsdState::Value(U256 { l0: 0, l1: 0, l2: 0, l3: 0 }),
        Some(RewardView::Positive { .. }) => match usd {
            Some(value) => RewardUsdState::Value(value),
            None => RewardUsdState::Unavailable,
        },
        Some(RewardView::Unavailable(_)) => RewardUsdState::Unavailable,
    }
}

/// The reward behind a reference.
pub open spec fn reward_behind(reward: Option<&RewardView>) -> Option<RewardView> {
    match reward {
        Some(found) => Some(*found),
        None => None,
    }
}

/// What a reward is worth: a zero reward needs no price.
pub fn reward_usd_state(reward: Option<&RewardView>, usd: Option<U256>) -> (state: RewardUsdState)
    ensures
        state == usd_state(reward_behind(reward), usd),
{
    match reward {
        None => RewardUsdState::Loading,
        Some(RewardView::Zero) => RewardUsdState::Value(U256::zero()),
        Some(RewardView::Positive { .. }) => match usd {
            Some(value) => RewardUsdState::Value(value),
            None => RewardUsdState::Unavailable,
        },
        Some(RewardView::Unavailable(_)) => RewardUsdState::Unavailable,
    }
}

/// The text beside a reward: `value_text`, which is the text of its worth, or that a positive
/// reward has no price.
pub fn reward_usd_label(
    reward: Option<&RewardView>,
    usd: Option<U256>,
    value_text: &str,
) -> (label: Option<String>)
    ensures
        crate::text::optional_text(label) == match usd_state(reward_behind(reward), usd) {
            RewardUsdState::Value(_) => Some(value_text@),
            RewardUsdState::Unavailable => if reward matches Some(RewardView::Positive { .. }) {
                Some("USD unavailable"@)
            } else {
                None
            },
            RewardUsdState::Loading => None,
        },
{
    match (reward, reward_usd_state(reward, usd)) {
        (Some(RewardView::Positive { .. }), RewardUsdState::Unavailable) => Some(
            "USD unavailable".to_owned(),
        ),
        (_, RewardUsdState::Value(_)) => Some(value_text.to_owned()),
        _ => None,
    }
}

/// The row of an account and token, where the key is among those resolved.
pub open spec fn resolved_row(
    uuid: Seq<char>,
    token: Address,
    rewards: Map<(Seq<char>, Address), RewardView>,
    resolved: Set<(Seq<char>, Address)>,
) -> Option<RewardView> {
    if resolved.contains((uuid, token)) && rewards.contains_key((uuid, token)) {
        Some(rewards[(uuid, token)])
    } else {
        None
    }
}

/// The cached value of the reward in `token`.
pub open spec fn cached_value(values: Map<Address, U256>, token: Address) -> Option<U256> {
    if values.contains_key(token) {
        Some(values[token])
    } else {
        None
    }
}

/// What the reward of an account in one token is worth.
pub open spec fn row_state(
    uuid: Seq<char>,
    token: Address,
    rewards: Map<(Seq<char>, Address), RewardView>,
    resolved: Set<(Seq<char>, Address)>,
    values: Map<Address, U256>,
) -> RewardUsdState {
    usd_state(resolved_row(uuid, token, rewards, resolved), cached_value(values, token))
}

/// The sum of those states that are values.
pub open spec fn value_sum(states: Seq<RewardUsdState>) -> nat
    decreases states.len(),
{
    if states.len() == 0 {
        0
    } else {
        value_sum(states.drop_last()) + match states.last() {
            RewardUsdState::Value(value) => value@,
            _ => 0,
        }
    }
}

/// What several rewards are worth together: loading while one is, and a value only where each has
/// one and their sum is in range.
pub open spec fn total_state(states: Seq<RewardUsdState>, total: RewardUsdState) -> bool {
    let loading = exists|i: int| 0 <= i < states.len() && #[trigger] states[i] is Loading;
    let unavailable = exists|i: int| 0 <= i < states.len() && #[trigger] states[i] is Unavailable;
    if loading {
        total is Loading
    } else if unavailable || value_sum(states) > u256_max() {
        total is Unavailable
    } else {
        total matches RewardUsdState::Value(value) && value@ == value_sum(states)
    }
}

/// The states of the rewards of one account in these tokens.
pub open spec fn row_states(
    uuid: Seq<char>,
    tokens: Seq<Address>,
    rewards: Map<(Seq<char>, Address), RewardView>,
    resolved: Set<(Seq<char>, Address)>,
    values: Map<Address, U256>,
) -> Seq<RewardUsdState> {
    tokens.map_values(|token: Address| row_state(uuid, token, rewards, resolved, values))
}

/// What the rewards of one account are worth together. `values` holds the cached value of each
/// reward's amount.
pub fn reward_usd_total(
    actor_uuid: &str,
    tokens: &Vec<Address>,
    rewards: &KeyMap<RewardKey, RewardView>,
    resolved_reward_keys: &KeySet<RewardKey>,
    values: &KeyMap<Address, U256>,
) -> (total: RewardUsdState)
    ensures
        total_state(
            row_states(actor_uuid@, tokens@, rewards@, resolved_reward_keys@, values@),
            total,
        ),
{
    let ghost states = row_states(
        actor_uuid@,
        tokens@,
        rewards@,
        resolved_reward_keys@,
        values@,
    );
    let mut total = U256::zero();
    let mut unavailable = false;
    let mut i: usize = 0;
    while i < tokens.len()
        invariant
            i <= tokens@.len() == states.len(),
            states == row_states(
                actor_uuid@,
                tokens@,
                rewards@,
                resolved_reward_keys@,
                values@,
            ),
            forall|j: int| 0 <= j < i ==> !(#[trigger] states[j] is Loading),
            !unavailable ==> total@ == value_sum(states.take(i as int)) && forall|j: int|
                0 <= j < i ==> !(#[trigger] states[j] is Unavailable),
            unavailable ==> value_sum(states.take(i as int)) > u256_max() || exists|j: int|
                0 <= j < i && #[trigger] states[j] is Unavailable,
        decreases tokens@.len() - i,
    {
        broadcast use u256_in_range;

        proof {
            assert(states.take(i + 1).drop_last() =~= states.take(i as int));
        }
        let token = tokens[i];
        let reward_key = RewardKey::new(actor_uuid, token);
        let row = if resolved_reward_keys.contains(&reward_key) {
            rewards.get(&reward_key)
        } else {
            None
        };
        let value = match values.get(&token) {
            Some(value) => Some(*value),
            None => None,
        };
        let state = reward_usd_state(row, value);
        assert(state == states[i as int]);
        match state {
            RewardUsdState::Loading => return RewardUsdState::Loading,
            RewardUsdState::Unavailable => unavailable = true,
            RewardUsdState::Value(value) => match total.checked_add(value) {
                Some(next_total) => total = next_total,
                None => unavailable = true,
            },
        }
        i += 1;
    }
    assert(states.take(i as int) =~= states);
    if unavailable {
        RewardUsdState::Unavailable
    } else {
        broadcast use u256_in_range;

        RewardUsdState::Value(total)
    }
}

/// Whether a reward is worth less than the fee of claiming it, as far as both are priced.
pub open spec fn below_fee(reward_usd: RewardUsdState, fee_usd: Option<U256>) -> bool {
    match (fee_usd, reward_usd) {
        (Some(fee), RewardUsdState::Value(value)) => fee@ > value@,
        _ => false,
    }
}

/// Whether a reward is worth less than the fee of claiming it, as far as both are priced.
pub fn reward_is_below_fee(reward_usd: RewardUsdState, fee_usd: Option<U256>) -> (below: bool)
    ensures
        below == below_fee(reward_usd, fee_usd),
{
    match (fee_usd, reward_usd) {
        (Some(fee), RewardUsdState::Value(value)) => value.less_than(fee),
        _ => false,
    }
}

/// A fee as the claim form shows it.
#[derive(Debug, PartialEq, Eq)]
pub struct RewardFeeEstimate {
    /// Fee text without the leading estimate marker, in dollars when the native token is priced
    /// and in native units otherwise.
    pub label: String,
    /// The fee in millionths of a dollar when the native token has a cached rate.
    pub usd: Option<U256>,
    /// Whether the added fee exceeds the reward's value.
    pub below_fee: bool,
}

/// A fee that may not be known.
#[derive(Debug, PartialEq, Eq)]
pub enum RewardFeePresentation {
    Pending,
    Estimated(RewardFeeEstimate),
    Unavailable,
}

/// The text of a cost: that of its value in dollars, where the native token is priced, and else that
/// of its amount in the native token.
pub open spec fn cost_text(priced: Option<(U256, String)>, native_text: Seq<char>) -> Seq<char> {
    match priced {
        Some((_, text)) => text@,
        None => native_text,
    }
}

/// The text of a cost. `priced` is its value with the text of that value, and `native_text` its
/// amount in the native token.
pub fn reward_cost_label(priced: &Option<(U256, String)>, native_text: &str) -> (label: String)
    ensures
        label@ == cost_text(*priced, native_text@),
{
    match priced {
        Some((_, text)) => text.clone(),
        None => native_text.to_owned(),
    }
}

/// A fee as the claim form shows it: `priced` is its value with the text of that value, and
/// `native_text` its amount in the native token.
pub fn reward_cost_presentation(
    priced: Option<(U256, String)>,
    native_text: String,
    reward_usd: RewardUsdState,
) -> (estimate: RewardFeeEstimate)
    ensures
        estimate.label@ == cost_text(priced, native_text@),
        estimate.usd == match priced {
            Some((value, _)) => Some(value),
            None => None,
        },
        estimate.below_fee == below_fee(reward_usd, estimate.usd),
{
    match priced {
        Some((value, text)) => RewardFeeEstimate {
            label: text,
            usd: Some(value),
            below_fee: reward_is_below_fee(reward_usd, Some(value)),
        },
        None => RewardFeeEstimate { label: native_text, usd: None, below_fee: false },
    }
}

/// The fee that one token adds to a claim, where its added gas is known.
pub fn reward_added_fee(
    estimate: &RewardSelectionEstimate,
    token: Address,
    fee_per_gas: u128,
) -> (fee: Option<U256>)
    ensures
        match fee {
            Some(cost) => known_added(estimate.added_gas@, token) matches Some(gas) && cost@ == gas
                * fee_per_gas,
            None => known_added(estimate.added_gas@, token) is None,
        },
{
    match estimate.added_gas.get(&token) {
        Some(Some(gas)) => Some(gas_cost(*gas, fee_per_gas)),
        _ => None,
    }
}

/// The fee that one token adds to a claim, as the claim form shows it.
pub fn reward_added_fee_presentation(
    estimate: &RewardSelectionEstimate,
    token: Address,
    priced: Option<(U256, String)>,
    native_text: String,
    reward_usd: RewardUsdState,
) -> (presentation: RewardFeePresentation)
    ensures
        match presentation {
            RewardFeePresentation::Estimated(shown) => known_added(
                estimate.added_gas@,
                token,
            ) is Some && shown.label@ == cost_text(priced, native_text@) && shown.usd == (match priced {
                Some((value, _)) => Some(value),
                None => None,
            }) && shown.below_fee == below_fee(reward_usd, shown.usd),
            RewardFeePresentation::Unavailable => known_added(estimate.added_gas@, token) is None,
            RewardFeePresentation::Pending => false,
        },
{
    match estimate.added_gas.get(&token) {
        Some(Some(_)) => RewardFeePresentation::Estimated(
            reward_cost_presentation(priced, native_text, reward_usd),
        ),
        _ => RewardFeePresentation::Unavailable,
    }
}

/// The fee that one token adds to a claim at the automatic fee per gas, where its added gas is
/// known. `expected` is what the quote expects for its own caps.
pub open spec fn automatic_added_fee(
    estimate: RewardSelectionEstimate,
    token: Address,
    expected: Option<u128>,
) -> Option<nat> {
    match known_added(estimate.added_gas@, token) {
        Some(gas) => Some(
            gas as nat * priced_fee_per_gas(
                PublicActionGasFeeSelection::Auto,
                expected,
                estimate.expected_fee_per_gas,
            ) as nat,
        ),
        None => None,
    }
}

/// The fee that one token adds to a claim at the automatic fee per gas, where its added gas is
/// known.
pub fn reward_automatic_added_fee(
    estimate: &RewardSelectionEstimate,
    token: Address,
    expected: Option<u128>,
) -> (fee: Option<U256>)
    ensures
        match fee {
            Some(cost) => automatic_added_fee(*estimate, token, expected) == Some(cost@),
            None => automatic_added_fee(*estimate, token, expected) is None,
        },
{
    let fee_per_gas: u128 = reward_claim_fee_per_gas(
        PublicActionGasFeeSelection::Auto,
        expected,
        estimate.expected_fee_per_gas,
    );
    reward_added_fee(estimate, token, fee_per_gas)
}

/// The cached value of a cost, where there is a cost and it is priced.
pub open spec fn cost_value(cost_values: Map<nat, U256>, cost: Option<nat>) -> Option<U256> {
    match cost {
        Some(amount) => if cost_values.contains_key(amount) {
            Some(cost_values[amount])
        } else {
            None
        },
        None => None,
    }
}

/// Whether a token belongs to the selection that the claim form opens with: its priced added fee
/// does not exceed its reward's value. An unavailable or unpriced fee is no evidence of a loss.
pub open spec fn selected_by_default(
    read: StakingRead,
    uuid: Seq<char>,
    token: Address,
    estimate: RewardSelectionEstimate,
    expected: Option<u128>,
    values: Map<Address, U256>,
    cost_values: Map<nat, U256>,
) -> bool {
    !below_fee(
        usd_state(read.resolved(uuid, token), cached_value(values, token)),
        cost_value(cost_values, automatic_added_fee(estimate, token, expected)),
    )
}

/// The selection that the claim form opens with. `expected` is what the quote expects for its own
/// caps, `values` holds the cached value of each reward's amount, and `cost_values` that of costs in
/// the native token.
pub fn default_reward_claim_selection_for(
    state: &StakingReadState,
    uuid: &str,
    tokens: &Vec<Address>,
    estimate: &RewardSelectionEstimate,
    expected: Option<u128>,
    values: &KeyMap<Address, U256>,
    cost_values: &KeyMap<U256, U256>,
) -> (selected: Vec<Address>)
    ensures
        nondecreasing(selected@),
        selected@.to_multiset() == tokens@.filter(
            |token: Address|
                selected_by_default(
                    state@,
                    uuid@,
                    token,
                    *estimate,
                    expected,
                    values@,
                    cost_values@,
                ),
        ).to_multiset(),
{
    let ghost keep = |token: Address|
        selected_by_default(
            state@,
            uuid@,
            token,
            *estimate,
            expected,
            values@,
            cost_values@,
        );
    let mut selected: Vec<Address> = Vec::new();
    let mut i: usize = 0;
    assert(tokens@.take(0).filter(keep) =~= Seq::<Address>::empty()) by {
        reveal(Seq::filter);
    }
    while i < tokens.len()
        invariant
            i <= tokens@.len(),
            keep == (|token: Address|
                selected_by_default(
                    state@,
                    uuid@,
                    token,
                    *estimate,
                    expected,
                    values@,
                    cost_values@,
                )),
            selected@ == tokens@.take(i as int).filter(keep),
        decreases tokens@.len() - i,
    {
        proof {
            reveal(Seq::filter);
            assert(tokens@.take(i + 1).drop_last() =~= tokens@.take(i as int));
            assert(tokens@.take(i + 1).last() == tokens@[i as int]);
        }
        let token = tokens[i];
        let value = match values.get(&token) {
            Some(value) => Some(*value),
            None => None,
        };
        let reward_usd = reward_usd_state(state.resolved_reward(uuid, token), value);
        let fee_usd = match reward_automatic_added_fee(estimate, token, expected) {
            Some(cost) => match cost_values.get(&cost) {
                Some(value) => Some(*value),
                None => None,
            },
            None => None,
        };
        if !reward_is_below_fee(reward_usd, fee_usd) {
            selected.push(token);
        }
        i += 1;
    }
    assert(tokens@.take(i as int) =~= tokens@);
    sorted(&selected)
}

/// Two steps are the same exactly where range, tokens, amounts and gas are.
pub proof fn claim_steps_are_told_apart(a: RewardClaimStep, b: RewardClaimStep)
    ensures
        a@ == b@ <==> a.starting_interval == b.starting_interval && a.ending_interval
            == b.ending_interval && a.reward_tokens@ == b.reward_tokens@ && a.subtotal == b.subtotal
            && a.expected_amounts@ == b.expected_amounts@ && a.estimated_gas == b.estimated_gas,
{
}

/// The steps of a list stand in its order.
pub proof fn claim_steps_are_taken_in_order(steps: Seq<RewardClaimStep>, at: int)
    requires
        0 <= at < steps.len(),
    ensures
        claim_steps(steps).len() == steps.len(),
        claim_steps(steps)[at] == steps[at]@,
{
}

/// The gas of a claim is the gas of its steps together.
pub proof fn gas_adds_up(steps: Seq<RewardClaimStep>, step: RewardClaimStep)
    ensures
        gas_sum(Seq::empty()) == 0,
        gas_sum(seq![step]) == step.estimated_gas,
        gas_sum(steps.push(step)) == gas_sum(steps) + step.estimated_gas,
{
    assert(steps.push(step).drop_last() =~= steps);
    assert(seq![step].drop_last() =~= Seq::<RewardClaimStep>::empty());
    reveal_with_fuel(gas_sum, 2);
}

/// The added gas of a token is known exactly where it was found.
pub proof fn added_gas_is_what_was_found(added: Map<Address, Option<u64>>, token: Address, gas: u64)
    ensures
        !added.contains_key(token) ==> known_added(added, token) is None,
        added.contains_key(token) ==> known_added(added, token) == added[token],
        known_added(added.insert(token, Some(gas)), token) == Some(gas),
        known_added(added.insert(token, None), token) is None,
        known_added(added.remove(token), token) is None,
{
}

/// What tokens add together is what each adds.
pub proof fn added_gas_adds_up(
    tokens: Seq<Address>,
    token: Address,
    added: Map<Address, Option<u64>>,
    gas: u64,
)
    ensures
        added_sum(Seq::empty(), added) == 0,
        known_added(added, token) == Some(gas) ==> added_sum(tokens.push(token), added) == added_sum(
            tokens,
            added,
        ) + gas,
        all_added_known(tokens.push(token), added) <==> all_added_known(tokens, added)
            && known_added(added, token) is Some,
{
    assert(tokens.push(token).drop_last() =~= tokens);
    if all_added_known(tokens.push(token), added) {
        assert forall|i: int| 0 <= i < tokens.len() implies known_added(
            added,
            #[trigger] tokens[i],
        ) is Some by {
            assert(tokens.push(token)[i] == tokens[i]);
        }
        assert(tokens.push(token)[tokens.len() as int] == token);
    }
}

/// A claim is priced at the fee that is expected; without one, at the automatic fee or at the most
/// that was entered.
pub proof fn claims_are_priced_as_expected(
    selection: PublicActionGasFeeSelection,
    expected: Option<u128>,
    automatic: u128,
)
    ensures
        expected matches Some(fee) ==> priced_fee_per_gas(selection, expected, automatic) == fee,
        expected is None && selection is Auto ==> priced_fee_per_gas(selection, expected, automatic)
            == automatic,
        expected is None ==> (selection matches PublicActionGasFeeSelection::Custom {
            max_fee_per_gas,
            ..
        } ==> priced_fee_per_gas(selection, expected, automatic) == max_fee_per_gas),
{
}

/// A reward that was not read is loading, one that is zero is worth nothing, and one that is
/// positive is worth its price where there is one.
pub proof fn rewards_are_worth_their_price(reward: Option<RewardView>, usd: Option<U256>)
    ensures
        usd_state(reward, usd) is Loading <==> reward is None,
        reward matches Some(RewardView::Zero) ==> (usd_state(reward, usd)
            matches RewardUsdState::Value(value) && value@ == 0),
        reward matches Some(RewardView::Unavailable(_)) ==> usd_state(reward, usd) is Unavailable,
        reward matches Some(RewardView::Positive { .. }) ==> (usd matches Some(price) ==> usd_state(
            reward,
            usd,
        ) == RewardUsdState::Value(price)),
        reward matches Some(RewardView::Positive { .. }) ==> (usd is None ==> usd_state(reward, usd)
            is Unavailable),
{
}

/// A row is the reward of its account and token, where this refresh has read it.
pub proof fn rows_are_of_this_refresh(
    uuid: Seq<char>,
    token: Address,
    rewards: Map<(Seq<char>, Address), RewardView>,
    resolved: Set<(Seq<char>, Address)>,
    values: Map<Address, U256>,
    reward: RewardView,
)
    ensures
        !resolved.contains((uuid, token)) ==> resolved_row(uuid, token, rewards, resolved) is None,
        !rewards.contains_key((uuid, token)) ==> resolved_row(uuid, token, rewards, resolved)
            is None,
        resolved.contains((uuid, token)) && rewards.contains_key((uuid, token)) ==> resolved_row(
            uuid,
            token,
            rewards,
            resolved,
        ) == Some(rewards[(uuid, token)]),
        values.contains_key(token) ==> cached_value(values, token) == Some(values[token]),
        !values.contains_key(token) ==> cached_value(values, token) is None,
        reward_behind(Some(&reward)) == Some(reward),
        reward_behind(None) is None,
        row_state(uuid, token, rewards, resolved, values) == usd_state(
            resolved_row(uuid, token, rewards, resolved),
            cached_value(values, token),
        ),
{
}

/// The rows of a list stand in its order.
pub proof fn row_states_are_taken_in_order(
    uuid: Seq<char>,
    tokens: Seq<Address>,
    rewards: Map<(Seq<char>, Address), RewardView>,
    resolved: Set<(Seq<char>, Address)>,
    values: Map<Address, U256>,
    at: int,
)
    requires
        0 <= at < tokens.len(),
    ensures
        row_states(uuid, tokens, rewards, resolved, values).len() == tokens.len(),
        row_states(uuid, tokens, rewards, resolved, values)[at] == usd_state(
            resolved_row(uuid, tokens[at], rewards, resolved),
            cached_value(values, tokens[at]),
        ),
{
}

/// Rewards are worth together what each is worth.
pub proof fn worth_adds_up(states: Seq<RewardUsdState>, state: RewardUsdState)
    ensures
        value_sum(Seq::empty()) == 0,
        state matches RewardUsdState::Value(value) ==> value_sum(states.push(state)) == value_sum(
            states,
        ) + value@,
        !(state is Value) ==> value_sum(states.push(state)) == value_sum(states),
{
    assert(states.push(state).drop_last() =~= states);
}

/// A total is a value exactly where every reward has one and their sum fits; it is loading while any
/// of them is.
pub proof fn totals_need_every_reward(
    states: Seq<RewardUsdState>,
    total: RewardUsdState,
    at: int,
)
    requires
        total_state(states, total),
    ensures
        0 <= at < states.len() && states[at] is Loading ==> total is Loading,
        0 <= at < states.len() && states[at] is Unavailable ==> !(total is Value),
        (forall|i: int| 0 <= i < states.len() ==> #[trigger] states[i] is Value) && value_sum(states)
            <= u256_max() ==> (total matches RewardUsdState::Value(value) && value@ == value_sum(
            states,
        )),
        value_sum(states) > u256_max() ==> !(total is Value),
        total matches RewardUsdState::Value(value) ==> value@ == value_sum(states),
        (forall|i: int| 0 <= i < states.len() ==> !(#[trigger] states[i] is Loading)) ==> !(
        total is Loading),
{
}

/// A reward is below its fee exactly where both are known and the fee is the greater.
pub proof fn rewards_below_their_fee_are_known_to_be(reward: RewardUsdState, fee: Option<U256>)
    ensures
        fee is None ==> !below_fee(reward, fee),
        !(reward is Value) ==> !below_fee(reward, fee),
        reward matches RewardUsdState::Value(value) ==> (fee matches Some(cost) ==> (below_fee(
            reward,
            fee,
        ) <==> value@ < cost@)),
{
}

/// A cost is shown in its price where there is one, and in the native token elsewhere.
pub proof fn costs_are_shown_in_their_price(value: U256, text: String, native: Seq<char>)
    ensures
        cost_text(Some((value, text)), native) == text@,
        cost_text(None, native) == native,
{
}

/// What a token adds costs its gas at the fee that is expected, or at the estimate's own.
pub proof fn added_fees_are_gas_at_the_fee(
    estimate: RewardSelectionEstimate,
    token: Address,
    expected: Option<u128>,
)
    ensures
        known_added(estimate.added_gas@, token) is None ==> automatic_added_fee(
            estimate,
            token,
            expected,
        ) is None,
        known_added(estimate.added_gas@, token) matches Some(gas) ==> (expected matches Some(fee)
            ==> automatic_added_fee(estimate, token, expected) == Some(gas as nat * fee as nat)),
        known_added(estimate.added_gas@, token) matches Some(gas) ==> (expected is None
            ==> automatic_added_fee(estimate, token, expected) == Some(
            gas as nat * estimate.expected_fee_per_gas as nat,
        )),
{
}

/// A cost has the price that is kept for its amount.
pub proof fn costs_have_the_price_of_their_amount(
    cost_values: Map<nat, U256>,
    amount: nat,
    value: U256,
)
    ensures
        cost_value(cost_values, None) is None,
        !cost_values.contains_key(amount) ==> cost_value(cost_values, Some(amount)) is None,
        cost_value(cost_values.insert(amount, value), Some(amount)) == Some(value),
{
}

/// A reward is left out by default exactly where it and what it adds are both priced, and it is
/// worth less.
pub proof fn only_losing_rewards_are_left_out(
    read: StakingRead,
    uuid: Seq<char>,
    token: Address,
    estimate: RewardSelectionEstimate,
    expected: Option<u128>,
    values: Map<Address, U256>,
    cost_values: Map<nat, U256>,
)
    ensures
        known_added(estimate.added_gas@, token) is None ==> selected_by_default(
            read,
            uuid,
            token,
            estimate,
            expected,
            values,
            cost_values,
        ),
        read.resolved(uuid, token) is None ==> selected_by_default(
            read,
            uuid,
            token,
            estimate,
            expected,
            values,
            cost_values,
        ),
        read.resolved(uuid, token) matches Some(RewardView::Positive { .. }) && values.contains_key(
            token,
        ) ==> (automatic_added_fee(estimate, token, expected) matches Some(cost) ==> (
        cost_values.contains_key(cost) ==> (selected_by_default(
            read,
            uuid,
            token,
            estimate,
            expected,
            values,
            cost_values,
        ) <==> values[token]@ >= cost_values[cost]@))),
{
}

/// Everything that is told of a `RewardClaimStep` is its own, under its own name.
pub proof fn reward_claim_step_is_told_as_it_is(kept: RewardClaimStep)
    ensures
        kept@.starting_interval == kept.starting_interval,
        kept@.ending_interval == kept.ending_interval,
        kept@.reward_tokens == kept.reward_tokens@,
        kept@.subtotal == kept.subtotal,
        kept@.expected_amounts == kept.expected_amounts@,
        kept@.estimated_gas == kept.estimated_gas,
{
}

} // verus!
