//! The claim that the selection form plans, and the evidence that a review starts from.
use crate::address::Address;
use crate::governance::ascending::{at_rank, holds_at_rank, toggle, toggled};
use crate::governance::model::{copy_items, same_addresses, RewardBatchEvidence, RewardEvidence};
use crate::governance::reward_plan::ClaimGasEstimate;
use crate::governance::rewards::{
    added_sum, all_added_known, claim_steps, copy_steps, gas_sum, reward_claim_added_gas,
    reward_claim_shared_gas, reward_selection_gas, RewardClaimStep, RewardSelectionEstimate,
    RewardSelectionEstimateState,
};
use crate::keyed::KeyMap;
use vstd::prelude::*;

verus! {

/// The selection that `token` is compared with: the one without it where it is selected, and the
/// one with it where it is not. Also says whether it is selected.
pub fn alternative_selection(tokens: &Vec<Address>, token: Address) -> (alternative: (
    Vec<Address>,
    bool,
))
    ensures
        alternative.1 == at_rank(tokens@, token),
        alternative.0@ == toggled(tokens@, token, !at_rank(tokens@, token)),
{
    let selected = holds_at_rank(tokens, token);
    let mut alternative = copy_items(tokens);
    toggle(&mut alternative, token, !selected);
    (alternative, selected)
}

/// The gas of an alternative selection: that of the baseline where nothing is selected, else that
/// of the steps planned for it.
pub fn alternative_claim_gas(
    alternative: &Vec<Address>,
    baseline: Option<ClaimGasEstimate>,
    planned: Option<&Vec<RewardClaimStep>>,
) -> (gas: Option<u64>)
    ensures
        gas == if alternative@.len() == 0 {
            match baseline {
                Some(estimate) => Some(estimate.raw_gas_limit),
                None => None,
            }
        } else {
            match planned {
                Some(steps) => if gas_sum(steps@) <= u64::MAX {
                    Some(gas_sum(steps@) as u64)
                } else {
                    None
                },
                None => None,
            }
        },
{
    if alternative.len() == 0 {
        match baseline {
            Some(estimate) => Some(estimate.raw_gas_limit),
            None => None,
        }
    } else {
        match planned {
            Some(steps) => reward_selection_gas(steps),
            None => None,
        }
    }
}

/// Whether the estimate of a selection needs the baseline: the gas of a claim without tokens.
pub fn selection_needs_baseline(tokens: &Vec<Address>) -> (needed: bool)
    ensures
        needed == (tokens@.len() <= 1),
{
    tokens.len() <= 1
}

/// The gas that the selection is compared with.
pub open spec fn comparison_gas(
    tokens: Seq<Address>,
    steps: Seq<RewardClaimStep>,
    baseline: Option<ClaimGasEstimate>,
) -> Option<u64> {
    if tokens.len() == 0 {
        match baseline {
            Some(estimate) => Some(estimate.raw_gas_limit),
            None => None,
        }
    } else {
        Some(gas_sum(steps) as u64)
    }
}

/// The gas that `token` adds to the selection.
pub open spec fn compared_gas(
    tokens: Seq<Address>,
    token: Address,
    current: Option<u64>,
    alternatives: Map<Address, u64>,
) -> Option<u64> {
    if current is Some && alternatives.contains_key(token) {
        let a = if at_rank(tokens, token) { current.unwrap() } else { alternatives[token] };
        let b = if at_rank(tokens, token) { alternatives[token] } else { current.unwrap() };
        if b <= a {
            Some((a - b) as u64)
        } else {
            None
        }
    } else {
        None
    }
}

/// The estimate of a selection, put together from its plan, the baseline, and the gas of the
/// alternative for each token that there is to claim. `evidence` is that of the selection, and is
/// there where something is selected.
pub fn assemble_selection_estimate(
    tokens: &Vec<Address>,
    evidence: Option<RewardBatchEvidence>,
    planned: Option<(Vec<RewardClaimStep>, u128)>,
    baseline: Option<ClaimGasEstimate>,
    available: &Vec<Address>,
    alternatives: &KeyMap<Address, u64>,
) -> (result: Result<RewardSelectionEstimate, String>)
    requires
        (evidence is Some) == (tokens@.len() > 0),
        (planned is Some) == (tokens@.len() > 0),
    ensures
        match result {
            Ok(estimate) => {
                let current = comparison_gas(tokens@, estimate.steps@, baseline);
                &&& gas_sum(estimate.steps@) <= u64::MAX
                &&& estimate.evidence == evidence
                &&& match planned {
                    Some((steps, fee)) => estimate.steps == steps && estimate.expected_fee_per_gas
                        == fee,
                    None => estimate.steps@.len() == 0 && estimate.expected_fee_per_gas == (
                    match baseline {
                        Some(found) => found.expected_fee_per_gas,
                        None => 0,
                    }),
                }
                &&& forall|token: Address| #[trigger]
                    estimate.added_gas@.contains_key(token) == available@.contains(token)
                &&& forall|token: Address|
                    available@.contains(token) ==> #[trigger] estimate.added_gas@[token]
                        == compared_gas(tokens@, token, current, alternatives@)
                &&& match estimate.shared_gas {
                    Some(shared) => current matches Some(total) && all_added_known(
                        tokens@,
                        estimate.added_gas@,
                    ) && shared + added_sum(tokens@, estimate.added_gas@) == total,
                    None => current is None || !all_added_known(tokens@, estimate.added_gas@)
                        || added_sum(tokens@, estimate.added_gas@) > current.unwrap(),
                }
            },
            Err(error) => planned is Some && gas_sum(planned.unwrap().0@) > u64::MAX && error@
                == "Estimated claim gas overflowed"@,
        },
{
    let (steps, expected_fee_per_gas): (Vec<RewardClaimStep>, u128) = match planned {
        Some((steps, fee)) => (steps, fee),
        None => (
            Vec::new(),
            match baseline {
                Some(found) => found.expected_fee_per_gas,
                None => 0,
            },
        ),
    };
    let selected_gas: u64 = match reward_selection_gas(&steps) {
        Some(gas) => gas,
        None => return Err("Estimated claim gas overflowed".to_owned()),
    };
    let current = if tokens.len() == 0 {
        match baseline {
            Some(estimate) => Some(estimate.raw_gas_limit),
            None => None,
        }
    } else {
        Some(selected_gas)
    };
    let mut added_gas: KeyMap<Address, Option<u64>> = KeyMap::new();
    let mut i: usize = 0;
    while i < available.len()
        invariant
            i <= available@.len(),
            forall|token: Address| #[trigger]
                added_gas@.contains_key(token) == available@.take(i as int).contains(token),
            forall|token: Address|
                added_gas@.contains_key(token) ==> #[trigger] added_gas@[token] == compared_gas(
                    tokens@,
                    token,
                    current,
                    alternatives@,
                ),
        decreases available@.len() - i,
    {
        let token = available[i];
        let selected = holds_at_rank(tokens, token);
        let added = match (current, alternatives.get(&token)) {
            (Some(own), Some(other)) => reward_claim_added_gas(selected, own, *other),
            _ => None,
        };
        let ghost before = added_gas@;
        added_gas.insert(token, added);
        proof {
            let head = available@.take(i as int);
            let longer = available@.take(i + 1);
            assert forall|other: Address| #[trigger]
                added_gas@.contains_key(other) == longer.contains(other) by {
                assert(longer[i as int] == token);
                if head.contains(other) {
                    let j = choose|j: int| 0 <= j < head.len() && head[j] == other;
                    assert(longer[j] == other);
                }
                if longer.contains(other) && other != token {
                    let j = choose|j: int| 0 <= j < longer.len() && longer[j] == other;
                    assert(head[j] == other);
                }
                assert(before.contains_key(other) == head.contains(other));
            }
        }
        i += 1;
    }
    assert(available@.take(i as int) =~= available@);
    let shared_gas = reward_claim_shared_gas(tokens, current, &added_gas);
    Ok(RewardSelectionEstimate { evidence, steps, expected_fee_per_gas, added_gas, shared_gas })
}

/// The evidence that the review of a claim starts from.
pub enum RewardEvidenceMode {
    Fresh,
    CachedInitial {
        evidence: RewardBatchEvidence,
        /// Steps already planned against this evidence by the selection form. Preflight validates
        /// them again and plans fresh ones when they are absent.
        steps: Option<Vec<RewardClaimStep>>,
    },
}

/// Whether the form has planned a claim of exactly these tokens.
pub open spec fn planned_for(
    estimate: Option<&RewardSelectionEstimateState>,
    tokens: Seq<Address>,
) -> bool {
    estimate matches Some(RewardSelectionEstimateState::Estimated(planned))
        && planned.evidence matches Some(evidence) && evidence.reward_tokens@ == tokens
}

/// The estimate the form already planned for exactly these tokens, otherwise the cached dashboard
/// evidence, otherwise a fresh read.
pub fn reward_evidence_mode_for_selection(
    estimate: Option<&RewardSelectionEstimateState>,
    tokens: &Vec<Address>,
    cached: Option<RewardBatchEvidence>,
) -> (mode: RewardEvidenceMode)
    ensures
        if planned_for(estimate, tokens@) {
            mode matches RewardEvidenceMode::CachedInitial { evidence, steps: Some(steps) }
                && estimate matches Some(RewardSelectionEstimateState::Estimated(planned))
                && planned.evidence matches Some(own) && evidence@ == own@ && claim_steps(steps@)
                == claim_steps(planned.steps@)
        } else {
            mode == match cached {
                Some(evidence) => RewardEvidenceMode::CachedInitial { evidence, steps: None },
                None => RewardEvidenceMode::Fresh,
            }
        },
{
    if let Some(RewardSelectionEstimateState::Estimated(planned)) = estimate {
        if let Some(evidence) = &planned.evidence {
            if same_addresses(&evidence.reward_tokens, tokens) {
                return RewardEvidenceMode::CachedInitial {
                    evidence: evidence.copy(),
                    steps: Some(copy_steps(&planned.steps)),
                };
            }
        }
    }
    match cached {
        Some(evidence) => RewardEvidenceMode::CachedInitial { evidence, steps: None },
        None => RewardEvidenceMode::Fresh,
    }
}

/// What a review of a claim begins with: the evidence and the steps that were planned from it, or
/// nothing, where the evidence is to be read first. Cached evidence about other tokens is refused.
pub fn reviewed_evidence(mode: RewardEvidenceMode, requested: &Vec<Address>) -> (reviewed: Result<
    Option<(RewardBatchEvidence, Option<Vec<RewardClaimStep>>)>,
    String,
>)
    ensures
        match mode {
            RewardEvidenceMode::Fresh => reviewed == Ok::<
                Option<(RewardBatchEvidence, Option<Vec<RewardClaimStep>>)>,
                String,
            >(None),
            RewardEvidenceMode::CachedInitial { evidence, steps } => if evidence.reward_tokens@
                == requested@ {
                reviewed == Ok::<
                    Option<(RewardBatchEvidence, Option<Vec<RewardClaimStep>>)>,
                    String,
                >(
                    Some(
                        (
                            evidence,
                            if steps is Some && steps.unwrap()@.len() > 0 {
                                steps
                            } else {
                                None
                            },
                        ),
                    ),
                )
            } else {
                reviewed matches Err(error) && error@
                    == "Cached reward evidence token set changed; refresh before reviewing again"@
            },
        },
{
    match mode {
        RewardEvidenceMode::Fresh => Ok(None),
        RewardEvidenceMode::CachedInitial { evidence, steps } => {
            if !same_addresses(&evidence.reward_tokens, requested) {
                return Err(
                    "Cached reward evidence token set changed; refresh before reviewing again".to_owned(),
                );
            }
            let kept = match steps {
                Some(found) => if found.len() > 0 {
                    Some(found)
                } else {
                    None
                },
                None => None,
            };
            Ok(Some((evidence, kept)))
        },
    }
}

/// The token whose evidence is read by itself: the only one of the claim.
pub fn single_token(tokens: &Vec<Address>) -> (token: Option<Address>)
    ensures
        token == if tokens@.len() == 1 {
            Some(tokens@[0])
        } else {
            None
        },
{
    if tokens.len() == 1 {
        Some(tokens[0])
    } else {
        None
    }
}

/// The evidence of a single token as a batch, where it has an unclaimed reward.
pub fn single_selection_evidence(evidence: Option<RewardEvidence>) -> (batch: Result<
    RewardBatchEvidence,
    String,
>)
    ensures
        match (evidence, batch) {
            (Some(found), Ok(batch)) => batch@ == found.batch(),
            (None, Err(error)) => error@ == "No unclaimed reward is available"@,
            _ => false,
        },
{
    match evidence {
        Some(found) => Ok(found.to_batch()),
        None => Err("No unclaimed reward is available".to_owned()),
    }
}

/// The evidence of several tokens, where there is an unclaimed reward.
pub fn batch_selection_evidence(evidence: Option<RewardBatchEvidence>) -> (batch: Result<
    RewardBatchEvidence,
    String,
>)
    ensures
        match (evidence, batch) {
            (Some(found), Ok(batch)) => batch == found,
            (None, Err(error)) => error@ == "No unclaimed reward is available"@,
            _ => false,
        },
{
    match evidence {
        Some(found) => Ok(found),
        None => Err("No unclaimed reward is available".to_owned()),
    }
}

/// A selection is measured by the gas of its steps; an empty one by the claim that would begin it.
pub proof fn selections_are_measured_by_their_steps(
    tokens: Seq<Address>,
    steps: Seq<RewardClaimStep>,
    baseline: Option<ClaimGasEstimate>,
)
    requires
        gas_sum(steps) <= u64::MAX,
    ensures
        tokens.len() > 0 ==> (comparison_gas(tokens, steps, baseline) matches Some(gas) && gas
            == gas_sum(steps)),
        tokens.len() == 0 ==> (baseline matches Some(estimate) ==> comparison_gas(
            tokens,
            steps,
            baseline,
        ) == Some(estimate.raw_gas_limit)),
        tokens.len() == 0 && baseline is None ==> comparison_gas(tokens, steps, baseline) is None,
{
}

/// What a chosen token adds is what leaving it out would save, and what another adds is what
/// choosing it would cost; nothing is said where the comparison comes out below nothing.
pub proof fn added_gas_is_the_difference(
    tokens: Seq<Address>,
    token: Address,
    current: u64,
    alternatives: Map<Address, u64>,
)
    requires
        alternatives.contains_key(token),
    ensures
        compared_gas(tokens, token, None, alternatives) is None,
        compared_gas(tokens, token, Some(current), alternatives.remove(token)) is None,
        at_rank(tokens, token) && alternatives[token] <= current ==> (compared_gas(
            tokens,
            token,
            Some(current),
            alternatives,
        ) matches Some(added) && added + alternatives[token] == current),
        at_rank(tokens, token) && alternatives[token] > current ==> compared_gas(
            tokens,
            token,
            Some(current),
            alternatives,
        ) is None,
        !at_rank(tokens, token) && alternatives[token] >= current ==> (compared_gas(
            tokens,
            token,
            Some(current),
            alternatives,
        ) matches Some(added) && current + added == alternatives[token]),
        !at_rank(tokens, token) && alternatives[token] < current ==> compared_gas(
            tokens,
            token,
            Some(current),
            alternatives,
        ) is None,
{
}

/// An estimate can be reviewed only for the tokens that its evidence is about.
pub proof fn estimates_are_for_their_tokens(
    estimate: RewardSelectionEstimate,
    tokens: Seq<Address>,
    why: String,
)
    ensures
        !planned_for(None, tokens),
        !planned_for(Some(&RewardSelectionEstimateState::Pending), tokens),
        !planned_for(Some(&RewardSelectionEstimateState::Unavailable(why)), tokens),
        estimate.evidence is None ==> !planned_for(
            Some(&RewardSelectionEstimateState::Estimated(estimate)),
            tokens,
        ),
        estimate.evidence matches Some(evidence) ==> (planned_for(
            Some(&RewardSelectionEstimateState::Estimated(estimate)),
            tokens,
        ) <==> evidence.reward_tokens@ == tokens),
{
}

} // verus!
