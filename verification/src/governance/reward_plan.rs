//! Splitting a reward claim into transactions that fit the block gas limit.
use crate::address::Address;
use crate::governance::model::{
    all_zero, amounts_all_zero, copy_items, RewardBatchEvidence,
};
use crate::governance::rewards::RewardClaimStep;
use crate::u256::{u256_equal_by_value, u256_in_range, u256_max, wrapped_once, U256};
use vstd::prelude::*;

verus! {

/// What one interval pays in each token of a claim.
#[derive(Debug, PartialEq, Eq)]
pub struct RewardIntervalAmount {
    pub interval: U256,
    pub subtotals: Vec<U256>,
}

/// What the node answered about the gas of a transaction.
#[derive(Clone, Copy, Debug, PartialEq, Eq, Structural)]
pub struct ClaimGasEstimate {
    pub gas_limit: u64,
    pub raw_gas_limit: u64,
    pub expected_fee_per_gas: u128,
}

/// The call that claims rewards over a range of intervals.
#[derive(Debug, PartialEq, Eq)]
pub struct RewardClaimIntent {
    pub reward_tokens: Vec<Address>,
    pub starting_interval: U256,
    pub ending_interval: U256,
    pub snapshot_hints: Vec<U256>,
    pub expected_amounts: Vec<U256>,
}

/// What an interval pays in one token; nothing where it says nothing.
pub open spec fn cell(amounts: Seq<RewardIntervalAmount>, row: int, column: int) -> nat {
    if column < amounts[row].subtotals@.len() {
        amounts[row].subtotals@[column]@
    } else {
        0
    }
}

/// What the intervals from `start` up to `end` pay in one token.
pub open spec fn column_sum(
    amounts: Seq<RewardIntervalAmount>,
    start: int,
    end: int,
    column: int,
) -> nat
    decreases end - start,
{
    if end <= start {
        0
    } else {
        column_sum(amounts, start, end - 1, column) + cell(amounts, end - 1, column)
    }
}

/// Whether a sum over the range is out of range of 256 bits.
pub open spec fn range_overflows(
    amounts: Seq<RewardIntervalAmount>,
    start: int,
    end: int,
    width: int,
) -> bool {
    exists|column: int|
        0 <= column < width && #[trigger] column_sum(amounts, start, end, column) > u256_max()
}

/// Whether `totals` are the sums over the range.
pub open spec fn is_range_sum(
    totals: Seq<U256>,
    amounts: Seq<RewardIntervalAmount>,
    start: int,
    end: int,
    width: int,
) -> bool {
    &&& totals.len() == width
    &&& forall|column: int|
        0 <= column < width ==> (#[trigger] totals[column])@ == column_sum(
            amounts,
            start,
            end,
            column,
        )
}

proof fn lemma_column_sum_grows(
    amounts: Seq<RewardIntervalAmount>,
    start: int,
    middle: int,
    end: int,
    column: int,
)
    requires
        start <= middle <= end,
    ensures
        column_sum(amounts, start, middle, column) <= column_sum(amounts, start, end, column),
    decreases end - middle,
{
    if middle < end {
        lemma_column_sum_grows(amounts, start, middle, end - 1, column);
    }
}

/// The sum of two columns, the shorter filled up with nothing.
pub open spec fn added_at(totals: Seq<U256>, amounts: Seq<U256>, column: int) -> nat {
    totals[column]@ + if column < amounts.len() {
        amounts[column]@
    } else {
        0
    }
}

/// Adds `amounts` to `totals`, column by column. Returns whether every sum was in range.
fn add_columns(totals: &mut Vec<U256>, amounts: &Vec<U256>) -> (fits: bool)
    ensures
        final(totals)@.len() == old(totals)@.len(),
        fits ==> forall|column: int|
            0 <= column < old(totals)@.len() ==> (#[trigger] final(totals)@[column])@ == added_at(
                old(totals)@,
                amounts@,
                column,
            ),
        fits == forall|column: int|
            0 <= column < old(totals)@.len() ==> #[trigger] added_at(
                old(totals)@,
                amounts@,
                column,
            ) <= u256_max(),
{
    broadcast use u256_in_range;

    let ghost before = totals@;
    let mut i: usize = 0;
    while i < totals.len() && i < amounts.len()
        invariant
            i <= totals@.len() == before.len(),
            i <= amounts@.len(),
            forall|column: int|
                0 <= column < i ==> (#[trigger] totals@[column])@ == added_at(
                    before,
                    amounts@,
                    column,
                ),
            forall|column: int| i <= column < before.len() ==> totals@[column] == before[column],
            forall|column: int|
                0 <= column < i ==> #[trigger] added_at(before, amounts@, column) <= u256_max(),
            before == old(totals)@,
        decreases before.len() - i,
    {
        match totals[i].checked_add(amounts[i]) {
            Some(next) => {
                assert(added_at(before, amounts@, i as int) == next@);
                totals.set(i, next);
            },
            None => {
                assert(added_at(before, amounts@, i as int) > u256_max());
                return false;
            },
        }
        i += 1;
    }
    true
}

/// A list of `width` zeros.
fn zeros(width: usize) -> (totals: Vec<U256>)
    ensures
        totals@.len() == width,
        forall|column: int| 0 <= column < width ==> (#[trigger] totals@[column])@ == 0,
{
    let mut totals: Vec<U256> = Vec::new();
    while totals.len() < width
        invariant
            totals@.len() <= width,
            forall|column: int| 0 <= column < totals@.len() ==> (#[trigger] totals@[column])@ == 0,
        decreases width - totals@.len(),
    {
        totals.push(U256::zero());
    }
    totals
}

/// The sums over the range, where they are in range.
fn range_sums(
    amounts: &Vec<RewardIntervalAmount>,
    start: usize,
    end: usize,
    width: usize,
) -> (sums: Option<Vec<U256>>)
    requires
        start <= end <= amounts@.len(),
    ensures
        match sums {
            Some(totals) => is_range_sum(
                totals@,
                amounts@,
                start as int,
                end as int,
                width as int,
            ) && !range_overflows(amounts@, start as int, end as int, width as int),
            None => range_overflows(amounts@, start as int, end as int, width as int),
        },
{
    broadcast use u256_in_range;

    let mut totals = zeros(width);
    let mut row: usize = start;
    while row < end
        invariant
            start <= row <= end <= amounts@.len(),
            is_range_sum(totals@, amounts@, start as int, row as int, width as int),
        decreases end - row,
    {
        let ghost before = totals@;
        let fits = add_columns(&mut totals, &amounts[row].subtotals);
        proof {
            assert forall|column: int| 0 <= column < width implies added_at(
                before,
                amounts@[row as int].subtotals@,
                column,
            ) == #[trigger] column_sum(amounts@, start as int, row + 1, column) by {
                assert(before[column]@ == column_sum(amounts@, start as int, row as int, column));
            }
        }
        if !fits {
            proof {
                let column = choose|column: int|
                    0 <= column < before.len() && #[trigger] added_at(
                        before,
                        amounts@[row as int].subtotals@,
                        column,
                    ) > u256_max();
                assert(column_sum(amounts@, start as int, row + 1, column) > u256_max());
                lemma_column_sum_grows(amounts@, start as int, row + 1, end as int, column);
            }
            return None;
        }
        row += 1;
    }
    proof {
        assert forall|column: int| 0 <= column < width implies #[trigger] column_sum(
            amounts@,
            start as int,
            end as int,
            column,
        ) <= u256_max() by {
            assert(totals@[column]@ <= u256_max());
        }
    }
    Some(totals)
}

/// What is asked for next: nothing more, nothing because a sum is out of range, or the gas of the
/// claim over a range, with the ranges left after it.
pub enum PlanNext {
    Done,
    Overflow,
    Ask { start: usize, end: usize, rest: Seq<(usize, usize)> },
}

/// What is asked for next, given the ranges that are pending with the next one last. A range that
/// pays nothing needs no transaction.
pub open spec fn plan_next(
    amounts: Seq<RewardIntervalAmount>,
    width: int,
    pending: Seq<(usize, usize)>,
) -> PlanNext
    decreases pending.len(),
{
    if pending.len() == 0 {
        PlanNext::Done
    } else {
        let (start, end) = pending.last();
        if range_overflows(amounts, start as int, end as int, width) {
            PlanNext::Overflow
        } else if forall|column: int|
            0 <= column < width ==> #[trigger] column_sum(
                amounts,
                start as int,
                end as int,
                column,
            ) == 0 {
            plan_next(amounts, width, pending.drop_last())
        } else {
            PlanNext::Ask { start, end, rest: pending.drop_last() }
        }
    }
}

/// What a step claims in one token.
pub open spec fn step_amount(step: RewardClaimStep, column: int) -> nat {
    if column < step.expected_amounts@.len() {
        step.expected_amounts@[column]@
    } else {
        0
    }
}

/// What the steps claim in one token together.
pub open spec fn claimed_sum(steps: Seq<RewardClaimStep>, column: int) -> nat
    decreases steps.len(),
{
    if steps.len() == 0 {
        0
    } else {
        claimed_sum(steps.drop_last(), column) + step_amount(steps.last(), column)
    }
}

/// What the pending ranges pay in one token together.
pub open spec fn pending_sum(
    amounts: Seq<RewardIntervalAmount>,
    pending: Seq<(usize, usize)>,
    column: int,
) -> nat
    decreases pending.len(),
{
    if pending.len() == 0 {
        0
    } else {
        pending_sum(amounts, pending.drop_last(), column) + column_sum(
            amounts,
            pending.last().0 as int,
            pending.last().1 as int,
            column,
        )
    }
}

proof fn lemma_column_sum_splits(
    amounts: Seq<RewardIntervalAmount>,
    start: int,
    middle: int,
    end: int,
    column: int,
)
    requires
        start <= middle <= end,
    ensures
        column_sum(amounts, start, middle, column) + column_sum(amounts, middle, end, column)
            == column_sum(amounts, start, end, column),
    decreases end - middle,
{
    if middle < end {
        lemma_column_sum_splits(amounts, start, middle, end - 1, column);
    }
}

/// Ranges are left out only where they pay nothing: what the pending ranges pay is what the range
/// that is asked for pays, together with those behind it.
pub proof fn asking_loses_nothing(
    amounts: Seq<RewardIntervalAmount>,
    width: int,
    pending: Seq<(usize, usize)>,
    column: int,
)
    requires
        0 <= column < width,
    ensures
        match plan_next(amounts, width, pending) {
            PlanNext::Done => pending_sum(amounts, pending, column) == 0,
            PlanNext::Overflow => true,
            PlanNext::Ask { start, end, rest } => pending_sum(amounts, pending, column)
                == pending_sum(amounts, rest, column) + column_sum(
                amounts,
                start as int,
                end as int,
                column,
            ),
        },
    decreases pending.len(),
{
    if pending.len() > 0 {
        let (start, end) = pending.last();
        if !range_overflows(amounts, start as int, end as int, width) && (forall|at: int|
            0 <= at < width ==> #[trigger] column_sum(amounts, start as int, end as int, at) == 0) {
            assert(column_sum(amounts, start as int, end as int, column) == 0);
            asking_loses_nothing(amounts, width, pending.drop_last(), column);
        }
    }
}

/// A range that is split in two pays as much as both parts.
pub proof fn splitting_loses_nothing(
    amounts: Seq<RewardIntervalAmount>,
    pending: Seq<(usize, usize)>,
    start: usize,
    middle: usize,
    end: usize,
    column: int,
)
    requires
        start <= middle <= end,
    ensures
        pending_sum(amounts, pending.push((middle, end)).push((start, middle)), column)
            == pending_sum(amounts, pending, column) + column_sum(
            amounts,
            start as int,
            end as int,
            column,
        ),
{
    let one = pending.push((middle, end));
    let both = one.push((start, middle));
    assert(one.drop_last() =~= pending);
    assert(both.drop_last() =~= one);
    reveal_with_fuel(pending_sum, 3);
    lemma_column_sum_splits(amounts, start as int, middle as int, end as int, column);
}

/// A range of intervals whose claim is to be estimated.
pub struct PendingRange {
    pub start: usize,
    pub end: usize,
    pub expected_amounts: Vec<U256>,
}

/// Whether the amounts are those of consecutive intervals from `first` on.
pub open spec fn consecutive_from(amounts: Seq<RewardIntervalAmount>, first: nat) -> bool {
    forall|i: int|
        0 <= i < amounts.len() ==> (#[trigger] amounts[i]).interval@ == wrapped_once(
            (first + i) as nat,
        )
}

/// Whether a step claims one range of the amounts, all of it and nothing else.
pub open spec fn step_of_range(
    step: RewardClaimStep,
    amounts: Seq<RewardIntervalAmount>,
    tokens: Seq<Address>,
    start: int,
    end: int,
) -> bool {
    &&& 0 <= start < end <= amounts.len()
    &&& step.starting_interval == amounts[start].interval
    &&& step.ending_interval == amounts[end - 1].interval
    &&& step.reward_tokens@ == tokens
    &&& step.subtotal@ == 0
    &&& is_range_sum(step.expected_amounts@, amounts, start, end, tokens.len() as int)
    &&& !all_zero(step.expected_amounts@)
}

/// Whether a step claims some range of the amounts.
pub open spec fn step_of_some_range(
    step: RewardClaimStep,
    amounts: Seq<RewardIntervalAmount>,
    tokens: Seq<Address>,
) -> bool {
    exists|start: int, end: int| step_of_range(step, amounts, tokens, start, end)
}

/// A reward claim being split: the ranges still to be estimated and the steps already accepted.
pub struct RewardStepPlanner {
    pub evidence: RewardBatchEvidence,
    pub amounts: Vec<RewardIntervalAmount>,
    pub gas_ceiling: u64,
    pub pending: Vec<(usize, usize)>,
    pub accepted: Vec<RewardClaimStep>,
    pub expected_fee_per_gas: u128,
}

impl RewardStepPlanner {
    /// The number of tokens of the claim.
    pub open spec fn width(self) -> int {
        self.evidence.reward_tokens@.len() as int
    }

    /// What the accepted steps claim and the pending ranges pay in one token.
    pub open spec fn accounted(self, column: int) -> nat {
        claimed_sum(self.accepted@, column) + pending_sum(self.amounts@, self.pending@, column)
    }

    /// What the whole claim pays in one token.
    pub open spec fn payable(self, column: int) -> nat {
        column_sum(self.amounts@, 0, self.amounts@.len() as int, column)
    }

    /// Every pending range is a range of the amounts, and every accepted step claims one.
    pub open spec fn valid(self) -> bool {
        &&& self.amounts@.len() > 0
        &&& consecutive_from(self.amounts@, self.evidence.starting_interval@)
        &&& forall|i: int|
            0 <= i < self.pending@.len() ==> (#[trigger] self.pending@[i]).0 <= self.pending@[i].1
                <= self.amounts@.len()
        &&& forall|i: int|
            0 <= i < self.accepted@.len() ==> step_of_some_range(
                #[trigger] self.accepted@[i],
                self.amounts@,
                self.evidence.reward_tokens@,
            )
    }

    /// Begins with the whole claim as the one pending range.
    pub fn new(
        evidence: RewardBatchEvidence,
        amounts: Vec<RewardIntervalAmount>,
        gas_ceiling: u64,
    ) -> (planner: Result<RewardStepPlanner, String>)
        ensures
            match planner {
                Ok(found) => amounts@.len() > 0 && consecutive_from(
                    amounts@,
                    evidence.starting_interval@,
                ) && found.valid() && found.evidence == evidence && found.amounts == amounts
                    && found.gas_ceiling == gas_ceiling && found.pending@ == seq![
                    (0usize, amounts@.len() as usize),
                ] && found.accepted@.len() == 0 && found.expected_fee_per_gas == 0 && forall|
                    column: int,
                |
                    #[trigger] found.accounted(column) == found.payable(column),
                Err(error) => if amounts@.len() == 0 {
                    error@ == "Reward interval amounts are empty"@
                } else {
                    !consecutive_from(amounts@, evidence.starting_interval@) && error@
                        == "Reward interval amounts are not consecutive"@
                },
            },
    {
        if amounts.len() == 0 {
            return Err("Reward interval amounts are empty".to_owned());
        }
        let mut i: usize = 0;
        while i < amounts.len()
            invariant
                i <= amounts@.len(),
                forall|j: int|
                    0 <= j < i ==> (#[trigger] amounts@[j]).interval@ == wrapped_once(
                        (evidence.starting_interval@ + j) as nat,
                    ),
            decreases amounts@.len() - i,
        {
            let expected = evidence.starting_interval.wrapping_add(U256::from_u64(i as u64));
            proof {
                u256_equal_by_value(amounts@[i as int].interval, expected);
            }
            if amounts[i].interval != expected {
                return Err("Reward interval amounts are not consecutive".to_owned());
            }
            i += 1;
        }
        let len: usize = amounts.len();
        let planner = RewardStepPlanner {
            evidence,
            amounts,
            gas_ceiling,
            pending: vec![(0, len)],
            accepted: Vec::new(),
            expected_fee_per_gas: 0,
        };
        proof {
            reveal_with_fuel(pending_sum, 2);
            assert(planner.pending@.drop_last() =~= Seq::empty());
        }
        Ok(planner)
    }

    /// Takes the next range whose claim is to be estimated, leaving out ranges that pay nothing.
    pub fn next(&mut self) -> (next: Result<Option<PendingRange>, String>)
        requires
            old(self).valid(),
        ensures
            final(self).valid(),
            final(self).evidence == old(self).evidence,
            final(self).amounts == old(self).amounts,
            final(self).gas_ceiling == old(self).gas_ceiling,
            final(self).accepted == old(self).accepted,
            final(self).expected_fee_per_gas == old(self).expected_fee_per_gas,
            match (next, plan_next(old(self).amounts@, old(self).width(), old(self).pending@)) {
                (Ok(None), PlanNext::Done) => final(self).pending@.len() == 0,
                (Ok(Some(range)), PlanNext::Ask { start, end, rest }) => range.start == start
                    && range.end == end && final(self).pending@ == rest && start < end
                    <= old(self).amounts@.len() && is_range_sum(
                    range.expected_amounts@,
                    old(self).amounts@,
                    start as int,
                    end as int,
                    old(self).width(),
                ) && !all_zero(range.expected_amounts@),
                (Err(error), PlanNext::Overflow) => error@ == "Reward interval subtotal overflowed"@,
                _ => false,
            },
            match next {
                Ok(Some(range)) => forall|column: int|
                    0 <= column < old(self).width() ==> #[trigger] old(self).accounted(column)
                        == final(self).accounted(column) + column_sum(
                        old(self).amounts@,
                        range.start as int,
                        range.end as int,
                        column,
                    ),
                Ok(None) => forall|column: int|
                    0 <= column < old(self).width() ==> #[trigger] old(self).accounted(column)
                        == claimed_sum(final(self).accepted@, column),
                Err(_) => true,
            },
    {
        let ghost goal = plan_next(self.amounts@, self.width(), self.pending@);
        let ghost before = *self;
        proof {
            assert forall|column: int| 0 <= column < self.width() implies match goal {
                PlanNext::Done => #[trigger] before.accounted(column) == claimed_sum(
                    before.accepted@,
                    column,
                ),
                PlanNext::Overflow => true,
                PlanNext::Ask { start, end, rest } => before.accounted(column) == claimed_sum(
                    before.accepted@,
                    column,
                ) + pending_sum(before.amounts@, rest, column) + column_sum(
                    before.amounts@,
                    start as int,
                    end as int,
                    column,
                ),
            } by {
                asking_loses_nothing(self.amounts@, self.width(), self.pending@, column);
            }
        }
        loop
            invariant
                self.valid(),
                self.evidence == before.evidence,
                self.amounts == before.amounts,
                self.gas_ceiling == before.gas_ceiling,
                self.accepted == before.accepted,
                self.expected_fee_per_gas == before.expected_fee_per_gas,
                goal == plan_next(self.amounts@, self.width(), self.pending@),
                goal == plan_next(before.amounts@, before.width(), before.pending@),
                before == *old(self),
                forall|column: int| 0 <= column < before.width() ==> match goal {
                    PlanNext::Done => #[trigger] before.accounted(column) == claimed_sum(
                        before.accepted@,
                        column,
                    ),
                    PlanNext::Overflow => true,
                    PlanNext::Ask { start, end, rest } => before.accounted(column) == claimed_sum(
                        before.accepted@,
                        column,
                    ) + pending_sum(before.amounts@, rest, column) + column_sum(
                        before.amounts@,
                        start as int,
                        end as int,
                        column,
                    ),
                },
            decreases self.pending@.len(),
        {
            let ghost pending = self.pending@;
            let range = self.pending.pop();
            match range {
                None => {
                    return Ok(None);
                },
                Some((start, end)) => {
                    assert(pending.last() == (start, end));
                    assert(self.pending@ =~= pending.drop_last());
                    assert(pending[pending.len() - 1].0 <= pending[pending.len() - 1].1);
                    assert forall|i: int| 0 <= i < self.pending@.len() implies (
                    #[trigger] self.pending@[i]).0 <= self.pending@[i].1 <= self.amounts@.len() by {
                        assert(self.pending@[i] == pending[i]);
                    }
                    let width: usize = self.evidence.reward_tokens.len();
                    match range_sums(&self.amounts, start, end, width) {
                        None => {
                            return Err("Reward interval subtotal overflowed".to_owned());
                        },
                        Some(expected_amounts) => {
                            let zero = amounts_all_zero(&expected_amounts);
                            proof {
                                if zero {
                                    assert forall|column: int|
                                        0 <= column < width implies #[trigger] column_sum(
                                        self.amounts@,
                                        start as int,
                                        end as int,
                                        column,
                                    ) == 0 by {
                                        assert(expected_amounts@[column]@ == 0);
                                    }
                                } else {
                                    let i = choose|i: int|
                                        0 <= i < expected_amounts@.len()
                                            && (#[trigger] expected_amounts@[i])@ != 0;
                                    assert(column_sum(
                                        self.amounts@,
                                        start as int,
                                        end as int,
                                        i,
                                    ) != 0);
                                }
                            }
                            if !zero {
                                return Ok(Some(PendingRange { start, end, expected_amounts }));
                            }
                        },
                    }
                },
            }
        }
    }

    /// The call that claims a range, which takes the hint of each of its intervals.
    pub fn intent(&self, range: &PendingRange) -> (intent: RewardClaimIntent)
        requires
            range.start < range.end <= self.amounts@.len(),
            range.end <= self.evidence.hints@.len(),
        ensures
            intent.reward_tokens@ == self.evidence.reward_tokens@,
            intent.starting_interval == self.amounts@[range.start as int].interval,
            intent.ending_interval == self.amounts@[range.end - 1].interval,
            intent.snapshot_hints@ == self.evidence.hints@.subrange(
                range.start as int,
                range.end as int,
            ),
            intent.expected_amounts@ == range.expected_amounts@,
    {
        let mut snapshot_hints: Vec<U256> = Vec::new();
        let mut i: usize = range.start;
        while i < range.end
            invariant
                range.start <= i <= range.end <= self.evidence.hints@.len(),
                snapshot_hints@ == self.evidence.hints@.subrange(range.start as int, i as int),
            decreases range.end - i,
        {
            snapshot_hints.push(self.evidence.hints[i]);
            i += 1;
            assert(snapshot_hints@ =~= self.evidence.hints@.subrange(
                range.start as int,
                i as int,
            ));
        }
        RewardClaimIntent {
            reward_tokens: copy_items(&self.evidence.reward_tokens),
            starting_interval: self.amounts[range.start].interval,
            ending_interval: self.amounts[range.end - 1].interval,
            snapshot_hints,
            expected_amounts: copy_items(&range.expected_amounts),
        }
    }

    /// Takes the estimate of a range. One that fits the ceiling is accepted as a step; any other is
    /// split after the interval `boundary`, where there is one to split it at.
    pub fn resolve(
        &mut self,
        range: PendingRange,
        estimate: Option<ClaimGasEstimate>,
        boundary: Option<usize>,
    ) -> (resolved: Result<(), String>)
        requires
            old(self).valid(),
            range.start < range.end <= old(self).amounts@.len(),
            is_range_sum(
                range.expected_amounts@,
                old(self).amounts@,
                range.start as int,
                range.end as int,
                old(self).width(),
            ),
            !all_zero(range.expected_amounts@),
            boundary matches Some(at) ==> range.start <= at < range.end,
        ensures
            final(self).valid(),
            final(self).evidence == old(self).evidence,
            final(self).amounts == old(self).amounts,
            final(self).gas_ceiling == old(self).gas_ceiling,
            if estimate is Some && estimate.unwrap().gas_limit <= old(self).gas_ceiling {
                &&& resolved is Ok
                &&& final(self).pending == old(self).pending
                &&& final(self).expected_fee_per_gas == estimate.unwrap().expected_fee_per_gas
                &&& final(self).accepted@.len() == old(self).accepted@.len() + 1
                &&& final(self).accepted@.drop_last() == old(self).accepted@
                &&& step_of_range(
                    final(self).accepted@.last(),
                    old(self).amounts@,
                    old(self).evidence.reward_tokens@,
                    range.start as int,
                    range.end as int,
                )
                &&& final(self).accepted@.last().estimated_gas == estimate.unwrap().raw_gas_limit
            } else {
                &&& final(self).accepted == old(self).accepted
                &&& final(self).expected_fee_per_gas == old(self).expected_fee_per_gas
                &&& match boundary {
                    Some(at) => resolved is Ok && final(self).pending@ == old(self).pending@.push(
                        ((at + 1) as usize, range.end),
                    ).push((range.start, (at + 1) as usize)),
                    None => final(self).pending == old(self).pending && (resolved matches Err(error)
                        && error@ == "Reward range does not fit the gas ceiling"@),
                }
            },
            resolved is Ok ==> forall|column: int|
                0 <= column < old(self).width() ==> #[trigger] final(self).accounted(column)
                    == old(self).accounted(column) + column_sum(
                    old(self).amounts@,
                    range.start as int,
                    range.end as int,
                    column,
                ),
    {
        let ghost before = *self;
        let fits = match estimate {
            Some(found) => found.gas_limit <= self.gas_ceiling,
            None => false,
        };
        if let (true, Some(found)) = (fits, estimate) {
            self.expected_fee_per_gas = found.expected_fee_per_gas;
            let step = RewardClaimStep {
                starting_interval: self.amounts[range.start].interval,
                ending_interval: self.amounts[range.end - 1].interval,
                reward_tokens: copy_items(&self.evidence.reward_tokens),
                subtotal: U256::zero(),
                expected_amounts: range.expected_amounts,
                estimated_gas: found.raw_gas_limit,
            };
            let ghost added = step;
            self.accepted.push(step);
            proof {
                assert(step_of_range(
                    added,
                    self.amounts@,
                    self.evidence.reward_tokens@,
                    range.start as int,
                    range.end as int,
                ));
                assert(self.accepted@.drop_last() =~= before.accepted@);
                assert forall|column: int| 0 <= column < before.width() implies #[trigger] self.accounted(
                    column,
                ) == before.accounted(column) + column_sum(
                    before.amounts@,
                    range.start as int,
                    range.end as int,
                    column,
                ) by {
                    assert(added.expected_amounts@[column]@ == column_sum(
                        before.amounts@,
                        range.start as int,
                        range.end as int,
                        column,
                    ));
                }
                assert forall|i: int| 0 <= i < self.accepted@.len() implies step_of_some_range(
                    #[trigger] self.accepted@[i],
                    self.amounts@,
                    self.evidence.reward_tokens@,
                ) by {
                    if i < before.accepted@.len() {
                        assert(self.accepted@[i] == before.accepted@[i]);
                    }
                }
            }
            return Ok(());
        }
        match boundary {
            Some(at) => {
                self.pending.push((at + 1, range.end));
                self.pending.push((range.start, at + 1));
                proof {
                    assert forall|column: int|
                        0 <= column < before.width() implies #[trigger] self.accounted(column)
                        == before.accounted(column) + column_sum(
                        before.amounts@,
                        range.start as int,
                        range.end as int,
                        column,
                    ) by {
                        splitting_loses_nothing(
                            before.amounts@,
                            before.pending@,
                            range.start,
                            (at + 1) as usize,
                            range.end,
                            column,
                        );
                    }
                    assert forall|i: int| 0 <= i < self.pending@.len() implies (
                    #[trigger] self.pending@[i]).0 <= self.pending@[i].1 <= self.amounts@.len() by {
                        if i < before.pending@.len() {
                            assert(self.pending@[i] == before.pending@[i]);
                        }
                    }
                }
                Ok(())
            },
            None => Err("Reward range does not fit the gas ceiling".to_owned()),
        }
    }
}

/// Whether no step starts before one that stands before it.
pub open spec fn by_start(steps: Seq<RewardClaimStep>) -> bool {
    forall|i: int, j: int|
        #![trigger steps[i], steps[j]]
        0 <= i < j < steps.len() ==> steps[i].starting_interval@ <= steps[j].starting_interval@
}

/// Where a step goes into a list: behind the last one that does not start after it.
pub open spec fn place_by_start(steps: Seq<RewardClaimStep>, step: RewardClaimStep) -> int
    decreases steps.len(),
{
    if steps.len() > 0 && step.starting_interval@ < steps.last().starting_interval@ {
        place_by_start(steps.drop_last(), step)
    } else {
        steps.len() as int
    }
}

/// The steps in order of their starts; steps with the same start stay in order.
pub open spec fn sorted_by_start(steps: Seq<RewardClaimStep>) -> Seq<RewardClaimStep>
    decreases steps.len(),
{
    if steps.len() == 0 {
        steps
    } else {
        let head = sorted_by_start(steps.drop_last());
        head.insert(place_by_start(head, steps.last()), steps.last())
    }
}

proof fn lemma_place_by_start(steps: Seq<RewardClaimStep>, step: RewardClaimStep)
    ensures
        0 <= place_by_start(steps, step) <= steps.len(),
        forall|i: int|
            place_by_start(steps, step) <= i < steps.len() ==> step.starting_interval@ < (
            #[trigger] steps[i]).starting_interval@,
        place_by_start(steps, step) > 0 ==> steps[place_by_start(steps, step)
            - 1].starting_interval@ <= step.starting_interval@,
    decreases steps.len(),
{
    if steps.len() > 0 && step.starting_interval@ < steps.last().starting_interval@ {
        let head = steps.drop_last();
        lemma_place_by_start(head, step);
        assert forall|i: int| place_by_start(steps, step) <= i < steps.len() implies
            step.starting_interval@ < (#[trigger] steps[i]).starting_interval@ by {
            if i < head.len() {
                assert(head[i] == steps[i]);
            }
        }
        if place_by_start(head, step) > 0 {
            assert(head[place_by_start(head, step) - 1] == steps[place_by_start(head, step) - 1]);
        }
    }
}

/// Sorting orders the steps by their starts, and neither loses nor adds one.
pub proof fn sorting_keeps_the_steps(steps: Seq<RewardClaimStep>)
    ensures
        by_start(sorted_by_start(steps)),
        sorted_by_start(steps).to_multiset() == steps.to_multiset(),
    decreases steps.len(),
{
    let sorted = sorted_by_start(steps);
    if steps.len() > 0 {
        let before = sorted_by_start(steps.drop_last());
        let placed = steps.last();
        let at = place_by_start(before, placed);
        sorting_keeps_the_steps(steps.drop_last());
        lemma_place_by_start(before, placed);
        assert forall|i: int, j: int|
            #![trigger sorted[i], sorted[j]]
            0 <= i < j < sorted.len() implies sorted[i].starting_interval@
            <= sorted[j].starting_interval@ by {
            let a: int = if i < at { i } else { i - 1 };
            let b: int = if j < at { j } else { j - 1 };
            if j == at {
                assert(before[i].starting_interval@ <= before[at - 1].starting_interval@);
            } else if i == at {
                assert(placed.starting_interval@ < before[b].starting_interval@);
            } else {
                assert(before[a].starting_interval@ <= before[b].starting_interval@);
            }
        }
        vstd::seq_lib::to_multiset_insert(before, at, placed);
        vstd::seq_lib::to_multiset_insert(steps.drop_last(), steps.len() - 1, placed);
        assert(steps =~= steps.drop_last().insert(steps.len() - 1, placed));
    }
}

/// The steps in order of their starts; steps with the same start stay in order.
fn sort_by_start(steps: Vec<RewardClaimStep>) -> (sorted: Vec<RewardClaimStep>)
    ensures
        sorted@ == sorted_by_start(steps@),
{
    let ghost given = steps@;
    let mut steps = steps;
    let mut sorted: Vec<RewardClaimStep> = Vec::new();
    let ghost mut taken: int = 0;
    assert(given.take(0) =~= Seq::<RewardClaimStep>::empty());
    assert(steps@ =~= given.skip(0));
    while steps.len() > 0
        invariant
            0 <= taken <= given.len(),
            steps@ == given.skip(taken),
            sorted@ == sorted_by_start(given.take(taken)),
        decreases steps@.len(),
    {
        let ghost before = sorted@;
        let step = steps.remove(0);
        let ghost placed = step;
        assert(steps@ =~= given.skip(taken + 1));
        let mut at: usize = sorted.len();
        assert(before.take(at as int) =~= before);
        while at > 0 && step.starting_interval.less_than(sorted[at - 1].starting_interval)
            invariant
                at <= sorted@.len(),
                sorted@ == before,
                place_by_start(before.take(at as int), step) == place_by_start(before, step),
            decreases at,
        {
            assert(before.take(at as int).drop_last() =~= before.take(at - 1));
            at -= 1;
        }
        assert(place_by_start(before.take(at as int), step) == at);
        sorted.insert(at, step);
        proof {
            assert(given.take(taken + 1).drop_last() =~= given.take(taken));
            assert(given.take(taken + 1).last() == placed);
            taken = taken + 1;
        }
    }
    assert(given.take(taken) =~= given);
    sorted
}

/// What a walk over the steps of a claim finds.
pub enum Coverage {
    NotConsecutive,
    IntervalOverflow,
    SubtotalOverflow,
    /// The steps cover what lies before `next` and claim `totals` together.
    Covered { next: nat, totals: Seq<nat> },
}

/// The totals once a step is added to them.
pub open spec fn with_step(totals: Seq<nat>, step: RewardClaimStep) -> Seq<nat> {
    Seq::new(totals.len(), |column: int| totals[column] + step_amount(step, column))
}

/// Walks over the steps: each has to start where the one before it ended, and to claim something.
pub open spec fn coverage(steps: Seq<RewardClaimStep>, first: nat, width: nat) -> Coverage
    decreases steps.len(),
{
    if steps.len() == 0 {
        Coverage::Covered { next: first, totals: Seq::new(width, |column: int| 0nat) }
    } else {
        match coverage(steps.drop_last(), first, width) {
            Coverage::Covered { next, totals } => {
                let step = steps.last();
                let sums = with_step(totals, step);
                if step.starting_interval@ != next || all_zero(step.expected_amounts@) {
                    Coverage::NotConsecutive
                } else if step.ending_interval@ + 1 > u256_max() {
                    Coverage::IntervalOverflow
                } else if exists|column: int|
                    0 <= column < sums.len() && #[trigger] sums[column] > u256_max() {
                    Coverage::SubtotalOverflow
                } else {
                    Coverage::Covered { next: step.ending_interval@ + 1, totals: sums }
                }
            },
            other => other,
        }
    }
}

proof fn lemma_coverage_stops(steps: Seq<RewardClaimStep>, first: nat, width: nat, count: int)
    requires
        0 <= count <= steps.len(),
        !(coverage(steps.take(count), first, width) is Covered),
    ensures
        coverage(steps, first, width) == coverage(steps.take(count), first, width),
    decreases steps.len(),
{
    if count == steps.len() {
        assert(steps.take(count) =~= steps);
    } else {
        assert(steps.drop_last().take(count) =~= steps.take(count));
        lemma_coverage_stops(steps.drop_last(), first, width, count);
    }
}

/// Steps that cover a range start at its start, follow one another without gap or overlap, each
/// claim something, and their amounts add up to the totals.
pub proof fn covering_steps_tile_the_range(steps: Seq<RewardClaimStep>, first: nat, width: nat)
    requires
        coverage(steps, first, width) is Covered,
    ensures
        steps.len() > 0 ==> steps[0].starting_interval@ == first,
        forall|i: int|
            #![trigger steps[i]]
            0 < i < steps.len() ==> steps[i].starting_interval@ == steps[i - 1].ending_interval@
                + 1,
        forall|i: int| 0 <= i < steps.len() ==> !all_zero((#[trigger] steps[i]).expected_amounts@),
        coverage(steps, first, width)->next == if steps.len() > 0 {
            steps.last().ending_interval@ + 1
        } else {
            first
        },
        coverage(steps, first, width)->totals == Seq::new(
            width,
            |column: int| claimed_sum(steps, column),
        ),
    decreases steps.len(),
{
    let found = coverage(steps, first, width);
    if steps.len() == 0 {
        assert(found->totals =~= Seq::new(width, |column: int| claimed_sum(steps, column)));
    } else {
        let head = steps.drop_last();
        covering_steps_tile_the_range(head, first, width);
        let before = coverage(head, first, width);
        assert(found->totals == with_step(before->totals, steps.last()));
        assert(found->totals =~= Seq::new(width, |column: int| claimed_sum(steps, column)));
        assert forall|i: int|
            #![trigger steps[i]]
            0 < i < steps.len() implies steps[i].starting_interval@
            == steps[i - 1].ending_interval@ + 1 by {
            if i < head.len() {
                assert(head[i] == steps[i]);
                assert(head[i - 1] == steps[i - 1]);
            } else {
                assert(head.last() == steps[i - 1]);
            }
        }
        assert forall|i: int| 0 <= i < steps.len() implies !all_zero(
            (#[trigger] steps[i]).expected_amounts@,
        ) by {
            if i < head.len() {
                assert(head[i] == steps[i]);
            }
        }
        if head.len() > 0 {
            assert(head[0] == steps[0]);
        }
    }
}

/// The numbers of a list.
pub open spec fn numbers(amounts: Seq<U256>) -> Seq<nat> {
    amounts.map_values(|amount: U256| amount@)
}

/// What the planner answers once its steps stand in the order of their starts.
pub open spec fn finished_plan(
    sorted: Seq<RewardClaimStep>,
    evidence: RewardBatchEvidence,
    fee: u128,
    result: Result<(Vec<RewardClaimStep>, u128), String>,
) -> bool {
    match coverage(
        sorted,
        evidence.starting_interval@,
        evidence.reward_tokens@.len(),
    ) {
        Coverage::NotConsecutive => result matches Err(error) && error@
            == "Reward ranges are not consecutive positive coverage"@,
        Coverage::IntervalOverflow => result matches Err(error) && error@
            == "Reward interval overflowed"@,
        Coverage::SubtotalOverflow => result matches Err(error) && error@
            == "Reward subtotal overflowed"@,
        Coverage::Covered { next, totals } => if next == wrapped_once(
            evidence.ending_interval@ + 1,
        ) && totals == numbers(evidence.expected_amounts@) {
            result matches Ok((steps, priced)) && steps@ == sorted && priced == fee
        } else {
            result matches Err(error) && error@
                == "Reward ranges do not cover the reviewed evidence"@
        },
    }
}

proof fn lemma_claimed_sum_insert(
    steps: Seq<RewardClaimStep>,
    at: int,
    step: RewardClaimStep,
    column: int,
)
    requires
        0 <= at <= steps.len(),
    ensures
        claimed_sum(steps.insert(at, step), column) == claimed_sum(steps, column) + step_amount(
            step,
            column,
        ),
    decreases steps.len(),
{
    let longer = steps.insert(at, step);
    if at == steps.len() {
        assert(longer.drop_last() =~= steps);
    } else {
        lemma_claimed_sum_insert(steps.drop_last(), at, step, column);
        assert(longer.drop_last() =~= steps.drop_last().insert(at, step));
        assert(longer.last() == steps.last());
    }
}

proof fn lemma_sorting_keeps_the_sum(steps: Seq<RewardClaimStep>, column: int)
    ensures
        claimed_sum(sorted_by_start(steps), column) == claimed_sum(steps, column),
    decreases steps.len(),
{
    if steps.len() > 0 {
        let head = sorted_by_start(steps.drop_last());
        lemma_sorting_keeps_the_sum(steps.drop_last(), column);
        lemma_place_by_start(head, steps.last());
        lemma_claimed_sum_insert(
            head,
            place_by_start(head, steps.last()),
            steps.last(),
            column,
        );
    }
}

/// A plan that went through claims in each token exactly what the intervals pay, and that is what
/// was reviewed. What planning accounts for never changes from its beginning on, as long as a range
/// that was asked for is resolved.
pub proof fn finished_plans_claim_everything(
    planner: RewardStepPlanner,
    result: Result<(Vec<RewardClaimStep>, u128), String>,
    column: int,
)
    requires
        0 <= column < planner.width(),
        planner.pending@.len() == 0,
        planner.accounted(column) == planner.payable(column),
        finished_plan(
            sorted_by_start(planner.accepted@),
            planner.evidence,
            planner.expected_fee_per_gas,
            result,
        ),
        result is Ok,
    ensures
        claimed_sum(result.unwrap().0@, column) == planner.payable(column),
        planner.evidence.expected_amounts@[column]@ == planner.payable(column),
{
    let sorted = sorted_by_start(planner.accepted@);
    let first = planner.evidence.starting_interval@;
    let width = planner.evidence.reward_tokens@.len();
    lemma_sorting_keeps_the_sum(planner.accepted@, column);
    covering_steps_tile_the_range(sorted, first, width);
    let totals = coverage(sorted, first, width)->totals;
    assert(totals[column] == claimed_sum(sorted, column));
    assert(numbers(planner.evidence.expected_amounts@).len() == totals.len());
    assert(numbers(planner.evidence.expected_amounts@)[column]
        == planner.evidence.expected_amounts@[column]@);
}

/// Whether both lists hold the same numbers.
fn same_amounts(a: &Vec<U256>, b: &Vec<U256>) -> (same: bool)
    ensures
        same == (numbers(a@) == numbers(b@)),
{
    if a.len() != b.len() {
        assert(numbers(a@).len() != numbers(b@).len());
        return false;
    }
    let mut i: usize = 0;
    while i < a.len()
        invariant
            i <= a@.len() == b@.len(),
            forall|j: int| 0 <= j < i ==> a@[j]@ == b@[j]@,
        decreases a@.len() - i,
    {
        proof {
            u256_equal_by_value(a@[i as int], b@[i as int]);
        }
        if a[i] != b[i] {
            assert(numbers(a@)[i as int] != numbers(b@)[i as int]);
            return false;
        }
        i += 1;
    }
    assert(numbers(a@) =~= numbers(b@));
    true
}

impl RewardStepPlanner {
    /// Orders the accepted steps and checks that they cover the evidence exactly.
    pub fn finish(self) -> (result: Result<(Vec<RewardClaimStep>, u128), String>)
        ensures
            finished_plan(
                sorted_by_start(self.accepted@),
                self.evidence,
                self.expected_fee_per_gas,
                result,
            ),
    {
        broadcast use u256_in_range;

        let ghost whole = self;
        let evidence = self.evidence;
        let fee: u128 = self.expected_fee_per_gas;
        let steps = sort_by_start(self.accepted);
        let ghost sorted = steps@;
        let ghost first = evidence.starting_interval@;
        let ghost width = evidence.reward_tokens@.len();
        let mut expected = evidence.starting_interval;
        let mut total = zeros(evidence.reward_tokens.len());
        let mut i: usize = 0;
        proof {
            assert(numbers(total@) =~= Seq::new(width, |column: int| 0nat));
        }
        while i < steps.len()
            invariant
                i <= steps@.len(),
                steps@ == sorted,
                first == evidence.starting_interval@,
                width == evidence.reward_tokens@.len(),
                evidence == whole.evidence,
                fee == whole.expected_fee_per_gas,
                sorted == sorted_by_start(whole.accepted@),
                coverage(sorted.take(i as int), first, width) == (Coverage::Covered {
                    next: expected@,
                    totals: numbers(total@),
                }),
                total@.len() == width,
                self == whole,
            decreases steps@.len() - i,
        {
            broadcast use u256_in_range;

            let ghost longer = sorted.take(i + 1);
            let ghost before = total@;
            let ghost sums = with_step(numbers(before), sorted[i as int]);
            proof {
                assert(longer.drop_last() =~= sorted.take(i as int));
                assert(longer.last() == sorted[i as int]);
                u256_equal_by_value(sorted[i as int].starting_interval, expected);
            }
            let step = &steps[i];
            if step.starting_interval != expected || amounts_all_zero(&step.expected_amounts) {
                proof {
                    lemma_coverage_stops(sorted, first, width, i + 1);
                }
                let result: Result<(Vec<RewardClaimStep>, u128), String> = Err(
                    "Reward ranges are not consecutive positive coverage".to_owned(),
                );
                assert(finished_plan(sorted, evidence, fee, result));
                return result;
            }
            expected =
            match step.ending_interval.checked_add(U256::one()) {
                Some(next) => next,
                None => {
                    proof {
                        lemma_coverage_stops(sorted, first, width, i + 1);
                    }
                    let result: Result<(Vec<RewardClaimStep>, u128), String> = Err(
                        "Reward interval overflowed".to_owned(),
                    );
                    assert(finished_plan(sorted, evidence, fee, result));
                    return result;
                },
            };
            let fits = add_columns(&mut total, &step.expected_amounts);
            proof {
                assert forall|column: int| 0 <= column < width implies #[trigger] added_at(
                    before,
                    step.expected_amounts@,
                    column,
                ) == sums[column] by {}
            }
            if !fits {
                proof {
                    let column = choose|column: int|
                        0 <= column < before.len() && #[trigger] added_at(
                            before,
                            step.expected_amounts@,
                            column,
                        ) > u256_max();
                    assert(sums[column] > u256_max());
                    lemma_coverage_stops(sorted, first, width, i + 1);
                }
                let result: Result<(Vec<RewardClaimStep>, u128), String> = Err(
                    "Reward subtotal overflowed".to_owned(),
                );
                assert(finished_plan(sorted, evidence, fee, result));
                return result;
            }
            proof {
                assert forall|column: int| 0 <= column < sums.len() implies #[trigger] sums[column]
                    <= u256_max() by {
                    assert(added_at(before, step.expected_amounts@, column) == sums[column]);
                }
                assert(numbers(total@) =~= sums);
            }
            i += 1;
        }
        assert(sorted.take(i as int) =~= sorted);
        let last = evidence.ending_interval.wrapping_add(U256::one());
        proof {
            u256_equal_by_value(expected, last);
        }
        let result: Result<(Vec<RewardClaimStep>, u128), String> = if expected != last
            || !same_amounts(&total, &evidence.expected_amounts) {
            Err("Reward ranges do not cover the reviewed evidence".to_owned())
        } else {
            Ok((steps, fee))
        };
        assert(finished_plan(sorted, evidence, fee, result));
        result
    }
}

/// The claim as one step, where its estimate fits the ceiling, with the fee that it was priced at.
pub fn whole_claim_step(
    evidence: &RewardBatchEvidence,
    estimate: Option<ClaimGasEstimate>,
    gas_ceiling: u64,
) -> (plan: Option<(Vec<RewardClaimStep>, u128)>)
    ensures
        match plan {
            Some((steps, fee)) => estimate matches Some(found) && found.gas_limit <= gas_ceiling
                && fee == found.expected_fee_per_gas && steps@.len() == 1
                && steps@[0].starting_interval == evidence.starting_interval
                && steps@[0].ending_interval == evidence.ending_interval
                && steps@[0].reward_tokens@ == evidence.reward_tokens@ && steps@[0].subtotal@ == 0
                && steps@[0].expected_amounts@ == evidence.expected_amounts@
                && steps@[0].estimated_gas == found.raw_gas_limit,
            None => estimate is None || estimate.unwrap().gas_limit > gas_ceiling,
        },
{
    match estimate {
        Some(found) => if found.gas_limit <= gas_ceiling {
            Some(
                (
                    vec![
                        RewardClaimStep {
                            starting_interval: evidence.starting_interval,
                            ending_interval: evidence.ending_interval,
                            reward_tokens: copy_items(&evidence.reward_tokens),
                            subtotal: U256::zero(),
                            expected_amounts: copy_items(&evidence.expected_amounts),
                            estimated_gas: found.raw_gas_limit,
                        },
                    ],
                    found.expected_fee_per_gas,
                ),
            )
        } else {
            None
        },
        None => None,
    }
}

/// A cell is what its interval pays in its token, and nothing where nothing is given.
pub proof fn cells_are_what_intervals_pay(
    amounts: Seq<RewardIntervalAmount>,
    row: int,
    column: int,
)
    requires
        0 <= row < amounts.len(),
        column >= 0,
    ensures
        column < amounts[row].subtotals@.len() ==> cell(amounts, row, column)
            == amounts[row].subtotals@[column]@,
        column >= amounts[row].subtotals@.len() ==> cell(amounts, row, column) == 0,
        column_sum(amounts, row, row + 1, column) == cell(amounts, row, column),
        column_sum(amounts, row, row, column) == 0,
{
    reveal_with_fuel(column_sum, 2);
}

/// A range pays what its parts pay, wherever it is split.
pub proof fn ranges_pay_what_their_parts_pay(
    amounts: Seq<RewardIntervalAmount>,
    start: int,
    middle: int,
    end: int,
    column: int,
)
    requires
        start <= middle <= end,
    ensures
        column_sum(amounts, start, end, column) == column_sum(amounts, start, middle, column)
            + column_sum(amounts, middle, end, column),
{
    lemma_column_sum_splits(amounts, start, middle, end, column);
}

/// A range overflows exactly where what it pays in some token does not fit.
pub proof fn ranges_overflow_in_some_token(
    amounts: Seq<RewardIntervalAmount>,
    start: int,
    end: int,
    width: int,
    column: int,
)
    requires
        0 <= column < width,
    ensures
        column_sum(amounts, start, end, column) > u256_max() ==> range_overflows(
            amounts,
            start,
            end,
            width,
        ),
        (forall|c: int|
            0 <= c < width ==> #[trigger] column_sum(amounts, start, end, c) <= u256_max())
            ==> !range_overflows(amounts, start, end, width),
{
}

/// The sums of a range are what it pays, token by token.
pub proof fn range_sums_are_what_is_paid(
    totals: Seq<U256>,
    amounts: Seq<RewardIntervalAmount>,
    start: int,
    end: int,
    width: int,
    column: int,
)
    requires
        is_range_sum(totals, amounts, start, end, width),
        0 <= column < width,
    ensures
        totals.len() == width,
        totals[column]@ == column_sum(amounts, start, end, column),
{
}

/// What is added stands on what was there, token by token.
pub proof fn additions_are_by_token(totals: Seq<U256>, amounts: Seq<U256>, column: int)
    requires
        0 <= column < totals.len(),
    ensures
        column < amounts.len() ==> added_at(totals, amounts, column) == totals[column]@
            + amounts[column]@,
        column >= amounts.len() ==> added_at(totals, amounts, column) == totals[column]@,
{
}

/// The range that is asked for was pending, fits and pays something; the ranges behind it that are
/// skipped pay nothing.
pub proof fn ranges_asked_for_pay_something(
    amounts: Seq<RewardIntervalAmount>,
    width: int,
    pending: Seq<(usize, usize)>,
)
    ensures
        plan_next(amounts, width, pending) matches PlanNext::Ask { start, end, rest } ==> {
            &&& rest.len() < pending.len()
            &&& rest == pending.take(rest.len() as int)
            &&& pending[rest.len() as int] == (start, end)
            &&& !range_overflows(amounts, start as int, end as int, width)
            &&& exists|column: int|
                0 <= column < width && #[trigger] column_sum(
                    amounts,
                    start as int,
                    end as int,
                    column,
                ) != 0
            &&& forall|i: int, column: int|
                #![trigger column_sum(amounts, pending[i].0 as int, pending[i].1 as int, column)]
                rest.len() < i < pending.len() && 0 <= column < width ==> column_sum(
                    amounts,
                    pending[i].0 as int,
                    pending[i].1 as int,
                    column,
                ) == 0
        },
        plan_next(amounts, width, pending) is Done ==> forall|i: int, column: int|
            #![trigger column_sum(amounts, pending[i].0 as int, pending[i].1 as int, column)]
            0 <= i < pending.len() && 0 <= column < width ==> column_sum(
                amounts,
                pending[i].0 as int,
                pending[i].1 as int,
                column,
            ) == 0,
    decreases pending.len(),
{
    if pending.len() > 0 {
        let head = pending.drop_last();
        let (start, end) = pending.last();
        ranges_asked_for_pay_something(amounts, width, head);
        if !range_overflows(amounts, start as int, end as int, width) {
            if forall|column: int|
                0 <= column < width ==> #[trigger] column_sum(
                    amounts,
                    start as int,
                    end as int,
                    column,
                ) == 0 {
                match plan_next(amounts, width, head) {
                    PlanNext::Ask { start: found_start, end: found_end, rest } => {
                        assert(pending.take(rest.len() as int) =~= head.take(rest.len() as int));
                        assert forall|i: int, column: int|
                            #![trigger column_sum(amounts, pending[i].0 as int, pending[i].1 as int, column)]
                            rest.len() < i < pending.len() && 0 <= column < width implies column_sum(
                            amounts,
                            pending[i].0 as int,
                            pending[i].1 as int,
                            column,
                        ) == 0 by {
                            if i < head.len() {
                                assert(head[i] == pending[i]);
                                assert(column_sum(
                                    amounts,
                                    head[i].0 as int,
                                    head[i].1 as int,
                                    column,
                                ) == 0);
                            }
                        }
                    },
                    PlanNext::Done => {
                        assert forall|i: int, column: int|
                            #![trigger column_sum(amounts, pending[i].0 as int, pending[i].1 as int, column)]
                            0 <= i < pending.len() && 0 <= column < width implies column_sum(
                            amounts,
                            pending[i].0 as int,
                            pending[i].1 as int,
                            column,
                        ) == 0 by {
                            if i < head.len() {
                                assert(head[i] == pending[i]);
                                assert(column_sum(
                                    amounts,
                                    head[i].0 as int,
                                    head[i].1 as int,
                                    column,
                                ) == 0);
                            }
                        }
                    },
                    PlanNext::Overflow => {},
                }
            } else {
                assert(head =~= pending.take(head.len() as int));
            }
        }
    }
}

/// What is claimed adds up step by step, token by token.
pub proof fn claims_add_up(steps: Seq<RewardClaimStep>, step: RewardClaimStep, column: int)
    requires
        column >= 0,
    ensures
        claimed_sum(Seq::empty(), column) == 0,
        claimed_sum(steps.push(step), column) == claimed_sum(steps, column) + step_amount(
            step,
            column,
        ),
        column < step.expected_amounts@.len() ==> step_amount(step, column)
            == step.expected_amounts@[column]@,
        column >= step.expected_amounts@.len() ==> step_amount(step, column) == 0,
{
    assert(steps.push(step).drop_last() =~= steps);
}

/// What is pending adds up range by range, and a plan accounts for both what is claimed and what is
/// pending.
pub proof fn pending_ranges_add_up(
    planner: RewardStepPlanner,
    pending: Seq<(usize, usize)>,
    range: (usize, usize),
    column: int,
)
    ensures
        pending_sum(planner.amounts@, Seq::empty(), column) == 0,
        pending_sum(planner.amounts@, pending.push(range), column) == pending_sum(
            planner.amounts@,
            pending,
            column,
        ) + column_sum(planner.amounts@, range.0 as int, range.1 as int, column),
        planner.accounted(column) == claimed_sum(planner.accepted@, column) + pending_sum(
            planner.amounts@,
            planner.pending@,
            column,
        ),
        planner.payable(column) == column_sum(
            planner.amounts@,
            0,
            planner.amounts@.len() as int,
            column,
        ),
        planner.width() == planner.evidence.reward_tokens@.len(),
{
    assert(pending.push(range).drop_last() =~= pending);
}

/// Intervals are consecutive exactly where each follows the one before it by one, from the first.
pub proof fn consecutive_intervals_follow_by_one(
    amounts: Seq<RewardIntervalAmount>,
    first: nat,
    at: int,
)
    requires
        consecutive_from(amounts, first),
        0 <= at < amounts.len(),
    ensures
        first + at <= u256_max() ==> amounts[at].interval@ == first + at,
        first + at > u256_max() ==> amounts[at].interval@ == first + at - u256_max() - 1,
{
}

/// A step claims exactly its range: from the first interval to the last, every token, and what each
/// pays there, which is something.
pub proof fn steps_claim_their_range(
    step: RewardClaimStep,
    amounts: Seq<RewardIntervalAmount>,
    tokens: Seq<Address>,
    start: int,
    end: int,
    column: int,
)
    requires
        step_of_range(step, amounts, tokens, start, end),
        0 <= column < tokens.len(),
    ensures
        0 <= start < end <= amounts.len(),
        step.starting_interval == amounts[start].interval,
        step.ending_interval == amounts[end - 1].interval,
        step.reward_tokens@ == tokens,
        step.expected_amounts@.len() == tokens.len(),
        step.expected_amounts@[column]@ == column_sum(amounts, start, end, column),
        exists|c: int|
            0 <= c < tokens.len() && (#[trigger] step.expected_amounts@[c])@ != 0,
{
}

/// Ordered steps start one after the other.
pub proof fn ordered_steps_start_in_turn(steps: Seq<RewardClaimStep>, a: int, b: int)
    requires
        0 <= a < b < steps.len(),
    ensures
        by_start(sorted_by_start(steps)),
        sorted_by_start(steps).len() == steps.len(),
        by_start(steps) ==> steps[a].starting_interval@ <= steps[b].starting_interval@,
        steps[a].starting_interval@ > steps[b].starting_interval@ ==> !by_start(steps),
{
    sorting_keeps_the_steps(steps);
    broadcast use vstd::seq_lib::group_to_multiset_ensures;

    assert(sorted_by_start(steps).to_multiset().len() == steps.to_multiset().len());
}

/// Steps that follow one another without a gap from the first interval, each of which pays
/// something, and whose amounts fit, are covered.
pub proof fn steps_without_gaps_are_covered(steps: Seq<RewardClaimStep>, first: nat, width: nat)
    requires
        steps.len() > 0 ==> steps[0].starting_interval@ == first,
        forall|i: int|
            #![trigger steps[i]]
            0 < i < steps.len() ==> steps[i].starting_interval@ == steps[i - 1].ending_interval@
                + 1,
        forall|i: int|
            0 <= i < steps.len() ==> !all_zero((#[trigger] steps[i]).expected_amounts@)
                && steps[i].ending_interval@ < u256_max(),
        forall|column: int|
            0 <= column < width ==> #[trigger] claimed_sum(steps, column) <= u256_max(),
    ensures
        coverage(steps, first, width) is Covered,
    decreases steps.len(),
{
    if steps.len() > 0 {
        let head = steps.drop_last();
        let step = steps.last();
        assert(steps[steps.len() - 1] == step);
        assert forall|column: int| 0 <= column < width implies #[trigger] claimed_sum(head, column)
            <= u256_max() by {
            assert(claimed_sum(steps, column) <= u256_max());
        }
        assert forall|i: int|
            #![trigger head[i]]
            0 < i < head.len() implies head[i].starting_interval@ == head[i - 1].ending_interval@
            + 1 by {
            assert(head[i] == steps[i]);
        }
        steps_without_gaps_are_covered(head, first, width);
        covering_steps_tile_the_range(head, first, width);
        let totals = coverage(head, first, width)->totals;
        let sums = with_step(totals, step);
        assert forall|column: int| 0 <= column < sums.len() implies #[trigger] sums[column]
            <= u256_max() by {
            assert(claimed_sum(steps, column) <= u256_max());
            assert(totals[column] == claimed_sum(head, column));
        }
    }
}

/// A finished plan covers exactly the reviewed intervals and exactly the reviewed amounts, at the
/// fee of the plan.
pub proof fn finished_plans_are_as_reviewed(
    steps: Seq<RewardClaimStep>,
    evidence: RewardBatchEvidence,
    fee: u128,
    result: Result<(Vec<RewardClaimStep>, u128), String>,
    column: int,
)
    requires
        finished_plan(steps, evidence, fee, result),
        result is Ok,
        0 <= column < evidence.reward_tokens@.len(),
    ensures
        result.unwrap().0@ == steps,
        result.unwrap().1 == fee,
        steps.len() > 0 ==> steps[0].starting_interval == evidence.starting_interval
            || steps[0].starting_interval@ == evidence.starting_interval@,
        steps.len() > 0 && evidence.ending_interval@ < u256_max() ==> steps.last().ending_interval@
            == evidence.ending_interval@,
        evidence.expected_amounts@.len() == evidence.reward_tokens@.len(),
        claimed_sum(steps, column) == evidence.expected_amounts@[column]@,
{
    let width = evidence.reward_tokens@.len();
    let first = evidence.starting_interval@;
    covering_steps_tile_the_range(steps, first, width);
    let totals = coverage(steps, first, width)->totals;
    assert(totals == numbers(evidence.expected_amounts@));
    assert(totals.len() == width);
    assert(totals[column] == numbers(evidence.expected_amounts@)[column]);
}

/// A plan that does not cover what was reviewed is refused, and says why.
pub proof fn unfinished_plans_say_why(
    steps: Seq<RewardClaimStep>,
    evidence: RewardBatchEvidence,
    fee: u128,
    result: Result<(Vec<RewardClaimStep>, u128), String>,
    at: int,
)
    requires
        finished_plan(steps, evidence, fee, result),
    ensures
        0 <= at < steps.len() && all_zero(steps[at].expected_amounts@) ==> result is Err,
        0 < at < steps.len() && steps[at].starting_interval@ != steps[at - 1].ending_interval@ + 1
            ==> result is Err,
        steps.len() > 0 && steps[0].starting_interval@ != evidence.starting_interval@ ==> result
            is Err,
        coverage(steps, evidence.starting_interval@, evidence.reward_tokens@.len())
            is NotConsecutive ==> (result matches Err(error) && error@
            == "Reward ranges are not consecutive positive coverage"@),
        coverage(steps, evidence.starting_interval@, evidence.reward_tokens@.len())
            is IntervalOverflow ==> (result matches Err(error) && error@
            == "Reward interval overflowed"@),
        coverage(steps, evidence.starting_interval@, evidence.reward_tokens@.len())
            is SubtotalOverflow ==> (result matches Err(error) && error@
            == "Reward subtotal overflowed"@),
{
    if result is Ok {
        covering_steps_tile_the_range(
            steps,
            evidence.starting_interval@,
            evidence.reward_tokens@.len(),
        );
    }
}

/// A valid plan has intervals, consecutive from the first of its evidence; what is pending lies
/// within them, and every accepted step claims a range of them.
pub proof fn valid_plans_stay_within_their_intervals(planner: RewardStepPlanner, at: int)
    requires
        planner.valid(),
    ensures
        planner.amounts@.len() > 0,
        consecutive_from(planner.amounts@, planner.evidence.starting_interval@),
        0 <= at < planner.pending@.len() ==> planner.pending@[at].0 <= planner.pending@[at].1
            <= planner.amounts@.len(),
        0 <= at < planner.accepted@.len() ==> exists|start: int, end: int| #[trigger]
            step_of_range(
                planner.accepted@[at],
                planner.amounts@,
                planner.evidence.reward_tokens@,
                start,
                end,
            ),
{
    if 0 <= at < planner.accepted@.len() {
        assert(step_of_some_range(
            planner.accepted@[at],
            planner.amounts@,
            planner.evidence.reward_tokens@,
        ));
    }
}

} // verus!
