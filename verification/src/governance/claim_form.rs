//! The form in which the rewards of a claim are selected.
use crate::address::Address;
use crate::governance::flow::GovernanceActionFlowState;
use crate::governance::labels::{
    compact_gas, compact_gas_text, gas_summary, reward_selection_gas_summary,
};
use crate::governance::rewards::{
    below_fee, cached_value, cost_text, gas_cost, gas_sum, known_added, priced_fee_per_gas,
    reward_added_fee_presentation, reward_claim_fee_per_gas, reward_cost_label, reward_selection_cost, reward_usd_state, usd_state, value_sum,
    PublicActionGasFeeSelection, RewardFeePresentation, RewardSelectionEstimate,
    RewardSelectionEstimateState, RewardUsdState,
};
use crate::governance::staking::{RewardView, StakingRead, StakingReadState};
use crate::keyed::KeyMap;
use crate::text::{concat2, concat3, decimal, decimal_u128};
use crate::u256::{u256_max, U256};
use vstd::prelude::*;
use vstd::string::*;

verus! {

broadcast use crate::u256::u256_in_range;

/// A reward token of the deployment.
pub struct RewardToken {
    pub token: Address,
    pub symbol: String,
    /// The symbol of the token's entry in the registry.
    pub registry_symbol: Option<String>,
}

/// The symbol that a reward token is shown with.
pub open spec fn token_symbol(entry: RewardToken) -> Seq<char> {
    match entry.registry_symbol {
        Some(symbol) => symbol@,
        None => entry.symbol@,
    }
}

/// A positive reward in the claim form.
pub struct ClaimRow {
    pub token: Address,
    pub symbol: String,
    pub amount: U256,
    pub usd: RewardUsdState,
    /// The gas that the token adds to the claim, where it is known.
    pub gas: Option<u64>,
    pub selected: bool,
}

/// What a row of the claim form says.
pub struct ClaimRowId {
    pub token: Address,
    pub symbol: Seq<char>,
    pub amount: U256,
    pub usd: RewardUsdState,
    pub gas: Option<u64>,
    pub selected: bool,
}

impl View for ClaimRow {
    type V = ClaimRowId;

    open spec fn view(&self) -> ClaimRowId {
        ClaimRowId {
            token: self.token,
            symbol: self.symbol@,
            amount: self.amount,
            usd: self.usd,
            gas: self.gas,
            selected: self.selected,
        }
    }
}

/// What several rows say.
pub open spec fn claim_rows(rows: Seq<ClaimRow>) -> Seq<ClaimRowId> {
    rows.map_values(|row: ClaimRow| row@)
}

/// The estimate of the selected call, where there is one.
pub open spec fn estimated_of(estimate: Option<RewardSelectionEstimateState>) -> Option<
    RewardSelectionEstimate,
> {
    match estimate {
        Some(RewardSelectionEstimateState::Estimated(found)) => Some(found),
        _ => None,
    }
}

/// The estimate of the selected call, where there is one.
pub fn estimated(estimate: &Option<RewardSelectionEstimateState>) -> (found: Option<
    &RewardSelectionEstimate,
>)
    ensures
        match found {
            Some(inner) => estimated_of(*estimate) == Some(*inner),
            None => estimated_of(*estimate) is None,
        },
{
    match estimate {
        Some(RewardSelectionEstimateState::Estimated(found)) => Some(found),
        _ => None,
    }
}

/// The gas that a token adds by this estimate.
pub open spec fn row_gas(estimate: Option<RewardSelectionEstimate>, token: Address) -> Option<u64> {
    match estimate {
        Some(found) => known_added(found.added_gas@, token),
        None => None,
    }
}

/// The row of a reward token, where its reward is positive.
pub open spec fn claim_row(
    read: StakingRead,
    uuid: Seq<char>,
    entry: RewardToken,
    selected: Seq<Address>,
    estimate: Option<RewardSelectionEstimate>,
    values: Map<Address, U256>,
) -> Option<ClaimRowId> {
    match read.resolved(uuid, entry.token) {
        Some(RewardView::Positive { amount, evidence }) => Some(
            ClaimRowId {
                token: entry.token,
                symbol: token_symbol(entry),
                amount,
                usd: usd_state(
                    read.resolved(uuid, entry.token),
                    cached_value(values, entry.token),
                ),
                gas: row_gas(estimate, entry.token),
                selected: selected.contains(entry.token),
            },
        ),
        _ => None,
    }
}

/// The rows of the positive rewards among these tokens, in their order.
pub open spec fn positive_rows(
    read: StakingRead,
    uuid: Seq<char>,
    entries: Seq<RewardToken>,
    selected: Seq<Address>,
    estimate: Option<RewardSelectionEstimate>,
    values: Map<Address, U256>,
) -> Seq<ClaimRowId>
    decreases entries.len(),
{
    if entries.len() == 0 {
        Seq::empty()
    } else {
        let before = positive_rows(read, uuid, entries.drop_last(), selected, estimate, values);
        match claim_row(read, uuid, entries.last(), selected, estimate, values) {
            Some(row) => before.push(row),
            None => before,
        }
    }
}

/// Whether an address is among those of a list.
fn holds(list: &Vec<Address>, token: Address) -> (found: bool)
    ensures
        found == list@.contains(token),
{
    let mut i: usize = 0;
    while i < list.len()
        invariant
            i <= list@.len(),
            forall|j: int| 0 <= j < i ==> list@[j] != token,
        decreases list@.len() - i,
    {
        if list[i] == token {
            assert(list@[i as int] == token);
            return true;
        }
        i += 1;
    }
    false
}

/// The rows of the claim form: the account's positive rewards, where `values` holds the cached
/// value of each reward's amount.
pub fn claim_form_rows(
    state: &StakingReadState,
    uuid: &str,
    entries: &Vec<RewardToken>,
    selected: &Vec<Address>,
    estimate: &Option<RewardSelectionEstimateState>,
    values: &KeyMap<Address, U256>,
) -> (rows: Vec<ClaimRow>)
    ensures
        claim_rows(rows@) == positive_rows(
            state@,
            uuid@,
            entries@,
            selected@,
            estimated_of(*estimate),
            values@,
        ),
{
    let mut rows: Vec<ClaimRow> = Vec::new();
    let mut i: usize = 0;
    assert(claim_rows(rows@) =~= Seq::<ClaimRowId>::empty());
    while i < entries.len()
        invariant
            i <= entries@.len(),
            claim_rows(rows@) == positive_rows(
                state@,
                uuid@,
                entries@.take(i as int),
                selected@,
                estimated_of(*estimate),
                values@,
            ),
        decreases entries@.len() - i,
    {
        let ghost before = rows@;
        proof {
            assert(entries@.take(i + 1).drop_last() =~= entries@.take(i as int));
            assert(entries@.take(i + 1).last() == entries@[i as int]);
        }
        let token = entries[i].token;
        let resolved = state.resolved_reward(uuid, token);
        if let Some(RewardView::Positive { amount, .. }) = resolved {
            let value = match values.get(&token) {
                Some(value) => Some(*value),
                None => None,
            };
            let gas = match estimated(estimate) {
                Some(found) => match found.added_gas.get(&token) {
                    Some(Some(gas)) => Some(*gas),
                    _ => None,
                },
                None => None,
            };
            let row = ClaimRow {
                token,
                symbol: match &entries[i].registry_symbol {
                    Some(symbol) => symbol.clone(),
                    None => entries[i].symbol.clone(),
                },
                amount: *amount,
                usd: reward_usd_state(resolved, value),
                gas,
                selected: holds(selected, token),
            };
            proof {
                assert(claim_row(
                    state@,
                    uuid@,
                    entries@[i as int],
                    selected@,
                    estimated_of(*estimate),
                    values@,
                ) == Some(row@));
            }
            rows.push(row);
            assert(claim_rows(rows@) =~= claim_rows(before).push(row@));
        }
        i += 1;
    }
    assert(entries@.take(i as int) =~= entries@);
    rows
}

/// The fee per gas that the estimate is priced at: there is none without an estimate, or where the
/// fee inputs do not parse. `expected` is what the last quote expects for the caps.
pub open spec fn claim_price(
    estimate: Option<RewardSelectionEstimate>,
    selection: Result<PublicActionGasFeeSelection, String>,
    expected: Option<u128>,
) -> Option<u128> {
    match (estimate, selection) {
        (Some(found), Ok(caps)) => Some(
            priced_fee_per_gas(caps, expected, found.expected_fee_per_gas),
        ),
        _ => None,
    }
}

/// The fee per gas that the estimate is priced at.
pub fn claim_fee_per_gas(
    estimate: &Option<RewardSelectionEstimateState>,
    selection: &Result<PublicActionGasFeeSelection, String>,
    expected: Option<u128>,
) -> (price: Option<u128>)
    ensures
        price == claim_price(estimated_of(*estimate), *selection, expected),
{
    match (estimated(estimate), selection) {
        (Some(found), Ok(caps)) => Some(
            reward_claim_fee_per_gas(*caps, expected, found.expected_fee_per_gas),
        ),
        _ => None,
    }
}

/// The fee of a row: what its token adds, that it is being estimated, or that it is unavailable.
/// `priced` is the fee's value with the text of that value, and `native_text` its amount in the
/// native token.
pub fn claim_row_fee(
    estimate: &Option<RewardSelectionEstimateState>,
    selection_valid: bool,
    price: Option<u128>,
    row: &ClaimRow,
    priced: Option<(U256, String)>,
    native_text: String,
) -> (fee: RewardFeePresentation)
    ensures
        match (estimated_of(*estimate), price) {
            (Some(found), Some(_)) => match fee {
                RewardFeePresentation::Estimated(shown) => known_added(
                    found.added_gas@,
                    row.token,
                ) is Some && shown.label@ == cost_text(priced, native_text@) && shown.usd == (match priced {
                    Some((value, _)) => Some(value),
                    None => None,
                }) && shown.below_fee == below_fee(row.usd, shown.usd),
                RewardFeePresentation::Unavailable => known_added(
                    found.added_gas@,
                    row.token,
                ) is None,
                RewardFeePresentation::Pending => false,
            },
            _ => if selection_valid && (*estimate matches Some(
                RewardSelectionEstimateState::Pending,
            )) {
                fee is Pending
            } else {
                fee is Unavailable
            },
        },
{
    match (estimated(estimate), price) {
        (Some(found), Some(_)) => reward_added_fee_presentation(
            found,
            row.token,
            priced,
            native_text,
            row.usd,
        ),
        _ => {
            let pending = matches!(estimate, Some(RewardSelectionEstimateState::Pending));
            if selection_valid && pending {
                RewardFeePresentation::Pending
            } else {
                RewardFeePresentation::Unavailable
            }
        },
    }
}

/// How a row is shown beside its fee.
pub struct ClaimRowMarks {
    /// The row is dimmed: its fee is larger than its reward, and it is not selected.
    pub dimmed: bool,
    /// The row warns that its fee is larger than its reward.
    pub warned: bool,
    /// The worth of the reward with that of the fee, where both are known.
    pub net_of: Option<(U256, U256)>,
    /// The line below the fee.
    pub gas_line: Option<String>,
}

/// How a row is shown beside its fee.
pub fn claim_row_marks(row: &ClaimRow, fee: &RewardFeePresentation) -> (marks: ClaimRowMarks)
    ensures
        marks.warned == (*fee matches RewardFeePresentation::Estimated(shown) && shown.below_fee),
        marks.dimmed == (marks.warned && !row.selected),
        marks.net_of == match (row.usd, *fee) {
            (RewardUsdState::Value(reward), RewardFeePresentation::Estimated(shown)) => match shown.usd {
                Some(cost) => Some((reward, cost)),
                None => None,
            },
            _ => None,
        },
        crate::text::optional_text(marks.gas_line) == match (*fee, row.gas) {
            (RewardFeePresentation::Estimated(_), Some(gas)) => Some(
                compact_gas_text(gas) + " gas"@,
            ),
            _ => None,
        },
{
    let (fee_usd, warned) = match fee {
        RewardFeePresentation::Estimated(shown) => (shown.usd, shown.below_fee),
        _ => (None, false),
    };
    let net_of = match (row.usd, fee_usd) {
        (RewardUsdState::Value(reward), Some(cost)) => Some((reward, cost)),
        _ => None,
    };
    let gas_line = match (fee, row.gas) {
        (RewardFeePresentation::Estimated(_), Some(gas)) => Some(
            concat2(&compact_gas(gas), " gas"),
        ),
        _ => None,
    };
    ClaimRowMarks { dimmed: warned && !row.selected, warned, net_of, gas_line }
}

/// The selected rows.
pub open spec fn selected_rows(rows: Seq<ClaimRow>) -> Seq<ClaimRow> {
    rows.filter(|row: ClaimRow| row.selected)
}

/// What these rows are worth.
pub open spec fn row_worths(rows: Seq<ClaimRow>) -> Seq<RewardUsdState> {
    rows.map_values(|row: ClaimRow| row.usd)
}

/// The totals of the rows.
pub struct ClaimTotals {
    pub selected_count: usize,
    pub all_selected: bool,
    /// What the selected rows are worth together, where each has a value and the sum is in range.
    pub selected_usd: Option<U256>,
}

/// Whether every state is a value.
pub open spec fn all_values(states: Seq<RewardUsdState>) -> bool {
    forall|i: int| 0 <= i < states.len() ==> (#[trigger] states[i]) is Value
}

/// The totals of the rows.
pub fn claim_totals(rows: &Vec<ClaimRow>) -> (totals: ClaimTotals)
    ensures
        totals.selected_count == selected_rows(rows@).len(),
        totals.all_selected == (rows@.len() > 0 && selected_rows(rows@).len() == rows@.len()),
        match totals.selected_usd {
            Some(sum) => all_values(row_worths(selected_rows(rows@))) && sum@ == value_sum(
                row_worths(selected_rows(rows@)),
            ),
            None => !all_values(row_worths(selected_rows(rows@))) || value_sum(
                row_worths(selected_rows(rows@)),
            ) > u256_max(),
        },
{
    let mut selected_count: usize = 0;
    let mut sum: Option<U256> = Some(U256::zero());
    let mut i: usize = 0;
    proof {
        reveal(Seq::filter);
        assert(rows@.take(0) =~= Seq::<ClaimRow>::empty());
        assert(row_worths(selected_rows(rows@.take(0))) =~= Seq::<RewardUsdState>::empty());
    }
    while i < rows.len()
        invariant
            i <= rows@.len(),
            selected_count <= i,
            selected_count == selected_rows(rows@.take(i as int)).len(),
            match sum {
                Some(total) => all_values(row_worths(selected_rows(rows@.take(i as int))))
                    && total@ == value_sum(row_worths(selected_rows(rows@.take(i as int)))),
                None => !all_values(row_worths(selected_rows(rows@.take(i as int)))) || value_sum(
                    row_worths(selected_rows(rows@.take(i as int))),
                ) > u256_max(),
            },
        decreases rows@.len() - i,
    {
        let ghost before = selected_rows(rows@.take(i as int));
        let ghost after = selected_rows(rows@.take(i + 1));
        proof {
            reveal(Seq::filter);
            assert(rows@.take(i + 1).drop_last() =~= rows@.take(i as int));
            assert(rows@.take(i + 1).last() == rows@[i as int]);
        }
        if rows[i].selected {
            proof {
                assert(after == before.push(rows@[i as int]));
                assert(row_worths(after) =~= row_worths(before).push(rows@[i as int].usd));
                assert(row_worths(after).drop_last() =~= row_worths(before));
                assert(row_worths(after).last() == rows@[i as int].usd);
                assert(all_values(row_worths(after)) == (all_values(row_worths(before))
                    && rows@[i as int].usd is Value)) by {
                    if all_values(row_worths(after)) {
                        assert(row_worths(after)[before.len() as int] is Value);
                        assert forall|j: int| 0 <= j < row_worths(before).len() implies (
                        #[trigger] row_worths(before)[j]) is Value by {
                            assert(row_worths(after)[j] is Value);
                        }
                    }
                }
            }
            selected_count += 1;
            sum =
            match (sum, rows[i].usd) {
                (Some(total), RewardUsdState::Value(value)) => total.checked_add(value),
                _ => None,
            };
        } else {
            assert(after == before);
        }
        i += 1;
    }
    assert(rows@.take(i as int) =~= rows@);
    ClaimTotals {
        selected_count,
        all_selected: rows.len() > 0 && selected_count == rows.len(),
        selected_usd: sum,
    }
}

/// How much is selected, where `usd` is the text of what it is worth.
pub fn selected_value_label(selected_count: usize, row_count: usize, usd: Option<&str>) -> (label:
    String)
    ensures
        label@ == decimal(selected_count as nat) + " of "@ + decimal(row_count as nat) + " · "@ + (
        if selected_count == 0 {
            "—"@
        } else {
            match usd {
                Some(text) => text@,
                None => "USD unavailable"@,
            }
        }),
{
    let mut label = concat3(
        &decimal_u128(selected_count as u128),
        " of ",
        &decimal_u128(row_count as u128),
    );
    label.append(" · ");
    if selected_count == 0 {
        label.append("—");
    } else {
        match usd {
            Some(text) => {
                label.append(text);
            },
            None => {
                label.append("USD unavailable");
            },
        }
    }
    label
}

/// The cost of the selected call, where something is selected, it is estimated and priced, and the
/// gas of its steps is in range.
pub open spec fn claim_cost(
    estimate: Option<RewardSelectionEstimate>,
    price: Option<u128>,
    tokens: Seq<Address>,
) -> Option<nat> {
    match (estimate, price) {
        (Some(found), Some(fee)) => if tokens.len() > 0 && gas_sum(found.steps@) <= u64::MAX {
            Some(gas_sum(found.steps@) * fee as nat)
        } else {
            None
        },
        _ => None,
    }
}

/// The cost of the selected call.
pub fn selected_claim_cost(
    estimate: &Option<RewardSelectionEstimateState>,
    price: Option<u128>,
    tokens: &Vec<Address>,
) -> (cost: Option<U256>)
    ensures
        match cost {
            Some(total) => claim_cost(estimated_of(*estimate), price, tokens@) == Some(total@),
            None => claim_cost(estimated_of(*estimate), price, tokens@) is None,
        },
{
    match (estimated(estimate), price) {
        (Some(found), Some(fee)) => {
            let cost = reward_selection_cost(&found.steps, fee);
            if tokens.len() == 0 {
                None
            } else {
                cost
            }
        },
        _ => None,
    }
}

/// The text of the fee of the selected call.
pub enum ClaimFee {
    /// There is nothing to show yet.
    Nothing,
    Estimating,
    Unavailable { reason: Option<String> },
    Estimated { summary: String, label: String },
}

/// The fee of the selected call. `priced` is the value of its cost with the text of that value, and
/// `native_text` its cost in the native token.
pub fn claim_fee(
    estimate: &Option<RewardSelectionEstimateState>,
    price: Option<u128>,
    tokens: &Vec<Address>,
    priced: &Option<(U256, String)>,
    native_text: &str,
) -> (fee: ClaimFee)
    ensures
        if tokens@.len() == 0 {
            fee is Nothing
        } else {
            match *estimate {
                None => fee is Nothing,
                Some(RewardSelectionEstimateState::Pending) => fee is Estimating,
                Some(RewardSelectionEstimateState::Unavailable(why)) => fee matches
                    ClaimFee::Unavailable { reason } && reason == Some(why),
                Some(RewardSelectionEstimateState::Estimated(found)) => if claim_cost(
                    Some(found),
                    price,
                    tokens@,
                ) is Some {
                    fee matches ClaimFee::Estimated { summary, label } && summary@ == gas_summary(
                        found.steps@,
                        price.unwrap(),
                    ) && label@ == "≈ "@ + cost_text(*priced, native_text@)
                } else {
                    fee matches ClaimFee::Unavailable { reason } && reason is None
                },
            }
        },
{
    let cost = selected_claim_cost(estimate, price, tokens);
    if tokens.len() == 0 {
        return ClaimFee::Nothing;
    }
    match estimate {
        None => ClaimFee::Nothing,
        Some(RewardSelectionEstimateState::Pending) => ClaimFee::Estimating,
        Some(RewardSelectionEstimateState::Unavailable(why)) => ClaimFee::Unavailable {
            reason: Some(why.clone()),
        },
        Some(RewardSelectionEstimateState::Estimated(found)) => match (price, cost) {
            (Some(fee), Some(_)) => ClaimFee::Estimated {
                summary: reward_selection_gas_summary(&found.steps, fee),
                label: concat2("≈ ", &reward_cost_label(priced, native_text)),
            },
            _ => ClaimFee::Unavailable { reason: None },
        },
    }
}

/// The notice that a claim takes more than one transaction.
pub open spec fn split_text(intervals: Option<nat>, steps: nat) -> Seq<char> {
    match intervals {
        None => "This claim does not fit one block. It will be sent as "@ + decimal(steps)
            + " transactions, each needing its own signature."@,
        Some(count) => "This claim covers "@ + decimal(count)
            + " intervals and does not fit one block. It will be sent as "@ + decimal(steps)
            + " transactions, each needing its own signature."@,
    }
}

/// The number of intervals that a claim covers, where its evidence is known and the number is in
/// range.
pub open spec fn claim_intervals(estimate: RewardSelectionEstimate) -> Option<nat> {
    match estimate.evidence {
        Some(evidence) => if evidence.starting_interval@ <= evidence.ending_interval@
            && evidence.ending_interval@ - evidence.starting_interval@ + 1 <= u256_max() {
            Some((evidence.ending_interval@ - evidence.starting_interval@ + 1) as nat)
        } else {
            None
        },
        None => None,
    }
}

/// The notice that a claim takes more than one transaction.
pub fn claim_split_notice(estimate: &Option<RewardSelectionEstimateState>) -> (notice: Option<
    String,
>)
    ensures
        crate::text::optional_text(notice) == match estimated_of(*estimate) {
            Some(found) => if found.steps@.len() > 1 {
                Some(split_text(claim_intervals(found), found.steps@.len()))
            } else {
                None
            },
            None => None,
        },
{
    match estimated(estimate) {
        Some(found) => {
            if found.steps.len() <= 1 {
                return None;
            }
            let intervals = match &found.evidence {
                Some(evidence) => match evidence.ending_interval.checked_sub(
                    evidence.starting_interval,
                ) {
                    Some(span) => span.checked_add(U256::one()),
                    None => None,
                },
                None => None,
            };
            let count = decimal_u128(found.steps.len() as u128);
            let mut notice = match intervals {
                None => "This claim does not fit one block. It will be sent as ".to_owned(),
                Some(number) => concat3(
                    "This claim covers ",
                    &number.to_decimal(),
                    " intervals and does not fit one block. It will be sent as ",
                ),
            };
            notice.append(&count);
            notice.append(" transactions, each needing its own signature.");
            Some(notice)
        },
        None => None,
    }
}

/// The fee that the tokens of a claim share.
pub enum SharedFee {
    Estimating,
    Unavailable,
    /// The gas line, and the text of the cost.
    Estimated { gas_line: String, label: String },
}

/// The cost of what the tokens of a claim share, where its gas is known and priced.
pub fn shared_claim_cost(
    estimate: &Option<RewardSelectionEstimateState>,
    price: Option<u128>,
) -> (cost: Option<U256>)
    ensures
        match (estimated_of(*estimate), price) {
            (Some(found), Some(fee)) => match found.shared_gas {
                Some(gas) => cost matches Some(total) && total@ == gas * fee,
                None => cost is None,
            },
            _ => cost is None,
        },
{
    match (estimated(estimate), price) {
        (Some(found), Some(fee)) => match found.shared_gas {
            Some(gas) => Some(gas_cost(gas, fee)),
            None => None,
        },
        _ => None,
    }
}

/// The fee that the tokens of a claim share. `priced` is the value of its cost with the text of that
/// value, and `native_text` its cost in the native token.
pub fn claim_shared_fee(
    estimate: &Option<RewardSelectionEstimateState>,
    price: Option<u128>,
    priced: &Option<(U256, String)>,
    native_text: &str,
) -> (shared: SharedFee)
    ensures
        match (estimated_of(*estimate), price) {
            (Some(found), Some(_)) => match found.shared_gas {
                Some(gas) => shared matches SharedFee::Estimated { gas_line, label } && gas_line@
                    == compact_gas_text(gas) + " gas"@ && label@ == "≈ "@ + cost_text(
                    *priced,
                    native_text@,
                ),
                None => shared is Unavailable,
            },
            _ => if *estimate matches Some(RewardSelectionEstimateState::Pending) {
                shared is Estimating
            } else {
                shared is Unavailable
            },
        },
{
    match (estimated(estimate), price) {
        (Some(found), Some(_)) => match found.shared_gas {
            Some(gas) => SharedFee::Estimated {
                gas_line: concat2(&compact_gas(gas), " gas"),
                label: concat2("≈ ", &reward_cost_label(priced, native_text)),
            },
            None => SharedFee::Unavailable,
        },
        _ => match estimate {
            Some(RewardSelectionEstimateState::Pending) => SharedFee::Estimating,
            _ => SharedFee::Unavailable,
        },
    }
}

/// What a claim brings and what it costs in dollars, where both are known: the cost counts only
/// where a row is selected.
pub fn claim_net(
    totals: &ClaimTotals,
    cost: Option<U256>,
    cost_usd: Option<U256>,
) -> (net: Option<(U256, U256)>)
    ensures
        net matches Some(of) ==> totals.selected_count > 0 && totals.selected_usd == Some(of.0) && cost_usd
            == Some(of.1) && cost is Some,
        net == match (totals.selected_usd, cost, cost_usd) {
            (Some(reward), Some(_), Some(fee)) => if totals.selected_count > 0 {
                Some((reward, fee))
            } else {
                None
            },
            _ => None,
        },
{
    match (totals.selected_usd, cost, cost_usd) {
        (Some(reward), Some(_), Some(fee)) => if totals.selected_count > 0 {
            Some((reward, fee))
        } else {
            None
        },
        _ => None,
    }
}

/// Whether the claim can be reviewed: something is selected, its cost is known, and no review is
/// under way.
pub fn claim_review_ready(
    flow: &GovernanceActionFlowState,
    tokens: &Vec<Address>,
    cost: Option<U256>,
) -> (ready: bool)
    ensures
        flow.pending ==> !ready,
        tokens@.len() == 0 ==> !ready,
        cost is None ==> !ready,
        ready == (tokens@.len() > 0 && cost is Some && !flow.pending),
{
    tokens.len() > 0 && cost.is_some() && !flow.pending
}

/// A token is named by the registry where that knows it, and by its own symbol elsewhere.
pub proof fn tokens_are_named_by_the_registry(entry: RewardToken)
    ensures
        entry.registry_symbol matches Some(symbol) ==> token_symbol(entry) == symbol@,
        entry.registry_symbol is None ==> token_symbol(entry) == entry.symbol@,
{
}

/// Two rows are the same exactly where token, symbol, amount, worth, gas and choice are.
pub proof fn claim_rows_are_told_apart(a: ClaimRow, b: ClaimRow, rows: Seq<ClaimRow>, at: int)
    requires
        0 <= at < rows.len(),
    ensures
        a@ == b@ <==> a.token == b.token && a.symbol@ == b.symbol@ && a.amount == b.amount && a.usd
            == b.usd && a.gas == b.gas && a.selected == b.selected,
        a@.token == a.token,
        a@.amount == a.amount,
        a@.usd == a.usd,
        a@.gas == a.gas,
        a@.selected == a.selected,
        claim_rows(rows).len() == rows.len(),
        claim_rows(rows)[at] == rows[at]@,
{
}

/// A row stands for a positive reward, with its amount, its worth, the gas that it adds and whether
/// it is chosen. No other reward has a row.
pub proof fn rows_stand_for_positive_rewards(
    read: StakingRead,
    uuid: Seq<char>,
    entry: RewardToken,
    selected: Seq<Address>,
    estimate: Option<RewardSelectionEstimate>,
    values: Map<Address, U256>,
)
    ensures
        !read.positive(uuid, entry.token) <==> claim_row(
            read,
            uuid,
            entry,
            selected,
            estimate,
            values,
        ) is None,
        read.resolved(uuid, entry.token) matches Some(RewardView::Positive { amount, .. }) ==> (
        claim_row(read, uuid, entry, selected, estimate, values) matches Some(row) && row.token
            == entry.token && row.amount == amount && row.symbol == token_symbol(entry)
            && row.selected == selected.contains(entry.token) && row.gas == row_gas(
            estimate,
            entry.token,
        ) && (values.contains_key(entry.token) ==> row.usd == RewardUsdState::Value(
            values[entry.token],
        )) && (!values.contains_key(entry.token) ==> row.usd is Unavailable)),
{
}

/// The gas of a row is what its token adds, where an estimate knows it.
pub proof fn gas_of_rows_is_estimated(estimate: RewardSelectionEstimate, token: Address, why: String)
    ensures
        row_gas(None, token) is None,
        row_gas(Some(estimate), token) == known_added(estimate.added_gas@, token),
        estimated_of(None) is None,
        estimated_of(Some(RewardSelectionEstimateState::Pending)) is None,
        estimated_of(Some(RewardSelectionEstimateState::Unavailable(why))) is None,
        estimated_of(Some(RewardSelectionEstimateState::Estimated(estimate))) == Some(estimate),
{
}

/// The rows stand in the order of the tokens, each token with a positive reward once.
pub proof fn rows_are_in_the_order_of_tokens(
    read: StakingRead,
    uuid: Seq<char>,
    entries: Seq<RewardToken>,
    entry: RewardToken,
    selected: Seq<Address>,
    estimate: Option<RewardSelectionEstimate>,
    values: Map<Address, U256>,
)
    ensures
        positive_rows(read, uuid, Seq::empty(), selected, estimate, values).len() == 0,
        claim_row(read, uuid, entry, selected, estimate, values) matches Some(row) ==> positive_rows(
            read,
            uuid,
            entries.push(entry),
            selected,
            estimate,
            values,
        ) == positive_rows(read, uuid, entries, selected, estimate, values).push(row),
        claim_row(read, uuid, entry, selected, estimate, values) is None ==> positive_rows(
            read,
            uuid,
            entries.push(entry),
            selected,
            estimate,
            values,
        ) == positive_rows(read, uuid, entries, selected, estimate, values),
{
    assert(entries.push(entry).drop_last() =~= entries);
}

/// A claim has a price exactly where it is estimated and the fees are entered well: the expected fee,
/// or else the estimate's own for automatic fees and the most that was entered for others.
pub proof fn claims_have_a_price_when_estimated(
    estimate: RewardSelectionEstimate,
    selection: Result<PublicActionGasFeeSelection, String>,
    expected: Option<u128>,
)
    ensures
        claim_price(None, selection, expected) is None,
        selection is Err ==> claim_price(Some(estimate), selection, expected) is None,
        selection is Ok ==> (expected matches Some(fee) ==> claim_price(
            Some(estimate),
            selection,
            expected,
        ) == Some(fee)),
        selection matches Ok(PublicActionGasFeeSelection::Auto) ==> (expected is None
            ==> claim_price(Some(estimate), selection, expected) == Some(
            estimate.expected_fee_per_gas,
        )),
        selection matches Ok(PublicActionGasFeeSelection::Custom { max_fee_per_gas, .. }) ==> (
        expected is None ==> claim_price(Some(estimate), selection, expected) == Some(
            max_fee_per_gas,
        )),
{
}

/// Only chosen rows count, each once.
pub proof fn chosen_rows_count_once(rows: Seq<ClaimRow>, row: ClaimRow)
    ensures
        selected_rows(Seq::empty()).len() == 0,
        row.selected ==> selected_rows(rows.push(row)) == selected_rows(rows).push(row),
        !row.selected ==> selected_rows(rows.push(row)) == selected_rows(rows),
        row_worths(rows.push(row)) == row_worths(rows).push(row.usd),
{
    reveal(Seq::filter);
    assert(rows.push(row).drop_last() =~= rows);
    assert(row_worths(rows.push(row)) =~= row_worths(rows).push(row.usd));
}

/// Rewards all have a value exactly where none is loading or unavailable.
pub proof fn values_are_all_known(states: Seq<RewardUsdState>, at: int)
    requires
        0 <= at < states.len(),
    ensures
        states[at] is Loading || states[at] is Unavailable ==> !all_values(states),
        all_values(states) ==> states[at] is Value,
{
}

/// A claim costs the gas of all its steps at the price; one of nothing costs nothing that could be
/// shown.
pub proof fn claims_cost_their_gas(
    estimate: RewardSelectionEstimate,
    price: Option<u128>,
    tokens: Seq<Address>,
)
    ensures
        claim_cost(None, price, tokens) is None,
        claim_cost(Some(estimate), None, tokens) is None,
        tokens.len() == 0 ==> claim_cost(Some(estimate), price, tokens) is None,
        gas_sum(estimate.steps@) > u64::MAX ==> claim_cost(Some(estimate), price, tokens) is None,
        tokens.len() > 0 && gas_sum(estimate.steps@) <= u64::MAX ==> (price matches Some(fee)
            ==> claim_cost(Some(estimate), price, tokens) == Some(
            gas_sum(estimate.steps@) * fee as nat,
        )),
{
}

/// A split says into how many transactions, and over how many intervals where those are known.
pub proof fn splits_say_how_many(intervals: nat, steps: nat)
    ensures
        split_text(None, steps) == "This claim does not fit one block. It will be sent as "@
            + decimal(steps) + " transactions, each needing its own signature."@,
        split_text(Some(intervals), steps) == "This claim covers "@ + decimal(intervals)
            + " intervals and does not fit one block. It will be sent as "@ + decimal(steps)
            + " transactions, each needing its own signature."@,
{
}

/// Intervals are counted with both ends.
pub proof fn intervals_are_counted_with_both_ends(estimate: RewardSelectionEstimate)
    ensures
        estimate.evidence is None ==> claim_intervals(estimate) is None,
        estimate.evidence matches Some(evidence) ==> (evidence.starting_interval@
            > evidence.ending_interval@ ==> claim_intervals(estimate) is None),
        estimate.evidence matches Some(evidence) ==> (evidence.starting_interval@
            == evidence.ending_interval@ ==> claim_intervals(estimate) == Some(1nat)),
        estimate.evidence matches Some(evidence) ==> (claim_intervals(estimate) matches Some(count)
            ==> evidence.starting_interval@ + count == evidence.ending_interval@ + 1),
        estimate.evidence matches Some(evidence) ==> (evidence.starting_interval@
            <= evidence.ending_interval@ && evidence.ending_interval@
            - evidence.starting_interval@ < u256_max() ==> claim_intervals(estimate) is Some),
{
}

/// Everything that is told of a `ClaimRow` is its own, under its own name.
pub proof fn claim_row_is_told_as_it_is(kept: ClaimRow)
    ensures
        kept@.token == kept.token,
        kept@.symbol == kept.symbol@,
        kept@.amount == kept.amount,
        kept@.usd == kept.usd,
        kept@.gas == kept.gas,
        kept@.selected == kept.selected,
{
}

} // verus!
