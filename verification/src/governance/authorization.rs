//! Authorizing a governance action: what is shown for review, and when it may be submitted.
use crate::accounts::PublicAccountSource;
use crate::address::{checksum_text, hex_bytes, hex_digits, hex_encode_prefixed, Address, B256};
use crate::governance::action::{
    GovernanceActionIntent, GovernanceContinuation, GovernanceDraftRecipe,
    GovernanceRefreshTarget, GovernanceSpendDraft, GovernanceStakingReviewProjection,
    GovernanceWorkflow, RawCall, RecipeId, RewardClaimConfirmedStep, TargetId,
};
use crate::governance::labels::{period_text, unlock_period_label};
use crate::governance::rewards::PublicActionGasFeeSelection;
use crate::governance::staking::{ActionId, StakingActionSelection};
use crate::text::{
    concat2, concat3, decimal, decimal_u64, optional_text, same_optional_text,
};
use crate::u256::U256;
use vstd::prelude::*;
use vstd::string::*;

verus! {

/// How long an estimate may be authorized: two minutes, in nanoseconds.
pub const GOVERNANCE_SPEND_AUTHORIZATION_TTL: u128 = 120_000_000_000;

/// Whether an estimate of this age, in nanoseconds, may still be authorized.
pub fn governance_authorization_estimate_is_fresh(age: u128) -> (fresh: bool)
    ensures
        fresh == (age < GOVERNANCE_SPEND_AUTHORIZATION_TTL),
        fresh <==> age < 120_000_000_000,
{
    age < GOVERNANCE_SPEND_AUTHORIZATION_TTL
}

/// What becomes of the estimate that replaces an expired one.
#[derive(Clone, Copy, Debug, PartialEq, Eq, Structural)]
pub enum GovernanceExpiredAuthorizationDisposition {
    StaleGeneration,
    CurrentIdentityMismatch,
    CurrentIdentityMatch,
}

/// What becomes of the estimate that replaces an expired one: one of an earlier generation is
/// dropped, whatever else holds.
pub fn governance_expired_authorization_disposition(
    generation_current: bool,
    identity_current: bool,
) -> (disposition: GovernanceExpiredAuthorizationDisposition)
    ensures
        disposition == if !generation_current {
            GovernanceExpiredAuthorizationDisposition::StaleGeneration
        } else if identity_current {
            GovernanceExpiredAuthorizationDisposition::CurrentIdentityMatch
        } else {
            GovernanceExpiredAuthorizationDisposition::CurrentIdentityMismatch
        },
{
    if !generation_current {
        GovernanceExpiredAuthorizationDisposition::StaleGeneration
    } else if identity_current {
        GovernanceExpiredAuthorizationDisposition::CurrentIdentityMatch
    } else {
        GovernanceExpiredAuthorizationDisposition::CurrentIdentityMismatch
    }
}

/// Whether a draft of a staking action is of the action that is open, with the same inputs.
pub open spec fn staking_identity(
    current_selection: Option<ActionId>,
    current_recipe: Option<RecipeId>,
    target: TargetId,
    recipe: RecipeId,
) -> bool {
    match (target, recipe) {
        (TargetId::Staking(target_key), RecipeId::Staking { selection, context_key, .. }) => {
            target_key == context_key && current_selection == Some(selection) && current_recipe
                == Some(recipe)
        },
        _ => false,
    }
}

/// The action of an optional selection.
pub open spec fn optional_action(selection: Option<&StakingActionSelection>) -> Option<ActionId> {
    match selection {
        Some(found) => Some(found@),
        None => None,
    }
}

/// What an optional recipe asks for.
pub open spec fn optional_recipe(recipe: Option<GovernanceDraftRecipe>) -> Option<RecipeId> {
    match recipe {
        Some(found) => Some(found@),
        None => None,
    }
}

/// Whether a draft of a staking action is of the action that is open, with the same inputs.
pub fn staking_action_identity_matches(
    current_selection: Option<&StakingActionSelection>,
    current_recipe: &Option<GovernanceDraftRecipe>,
    target: &GovernanceRefreshTarget,
    recipe: &GovernanceDraftRecipe,
) -> (matches: bool)
    ensures
        matches == staking_identity(
            optional_action(current_selection),
            optional_recipe(*current_recipe),
            target@,
            recipe@,
        ),
{
    match (target, recipe) {
        (
            GovernanceRefreshTarget::Staking(target_key),
            GovernanceDraftRecipe::Staking { selection, context_key, .. },
        ) => target_key.same(context_key) && (match current_selection {
            Some(current) => current.same(selection),
            None => false,
        }) && (match current_recipe {
            Some(current) => current.same(recipe),
            None => false,
        }),
        _ => false,
    }
}

/// A step that the progress of an action shows.
#[derive(Clone, Copy, Debug, PartialEq, Eq, Structural)]
pub enum PublicActionProgressStep {
    Sponsor,
    Unsponsor,
    CallVote,
    Vote,
    GovernanceApprove,
    Stake,
    Delegate,
    Undelegate,
    Unlock,
    PrincipalClaim,
    RewardClaim(u32),
}

/// The step that an action is.
pub open spec fn progress_step(intent: GovernanceActionIntent, reward_index: Option<usize>) ->
    PublicActionProgressStep {
    match intent {
        GovernanceActionIntent::Sponsor { .. } => PublicActionProgressStep::Sponsor,
        GovernanceActionIntent::Unsponsor { .. } => PublicActionProgressStep::Unsponsor,
        GovernanceActionIntent::CallVote { .. } => PublicActionProgressStep::CallVote,
        GovernanceActionIntent::Yay { .. } => PublicActionProgressStep::Vote,
        GovernanceActionIntent::Nay { .. } => PublicActionProgressStep::Vote,
        GovernanceActionIntent::GovernanceTokenApproval { .. } => {
            PublicActionProgressStep::GovernanceApprove
        },
        GovernanceActionIntent::Stake { .. } => PublicActionProgressStep::Stake,
        GovernanceActionIntent::Delegate { .. } => PublicActionProgressStep::Delegate,
        GovernanceActionIntent::Undelegate { .. } => PublicActionProgressStep::Undelegate,
        GovernanceActionIntent::Unlock { .. } => PublicActionProgressStep::Unlock,
        GovernanceActionIntent::PrincipalClaim { .. } => PublicActionProgressStep::PrincipalClaim,
        GovernanceActionIntent::RewardClaim { .. } => PublicActionProgressStep::RewardClaim(
            match reward_index {
                Some(index) => index as u32,
                None => 0,
            },
        ),
    }
}

/// The step that an action is; a reward claim has the number of the steps before it.
pub fn governance_progress_step(intent: &GovernanceActionIntent, reward_index: Option<usize>) -> (
    step: PublicActionProgressStep)
    ensures
        step == progress_step(*intent, reward_index),
        *intent is Sponsor ==> step is Sponsor,
        *intent is Unsponsor ==> step is Unsponsor,
        *intent is CallVote ==> step is CallVote,
        *intent is Yay ==> step is Vote,
        *intent is Nay ==> step is Vote,
        *intent is GovernanceTokenApproval ==> step is GovernanceApprove,
        *intent is Stake ==> step is Stake,
        *intent is Delegate ==> step is Delegate,
        *intent is Undelegate ==> step is Undelegate,
        *intent is Unlock ==> step is Unlock,
        *intent is PrincipalClaim ==> step is PrincipalClaim,
        *intent is RewardClaim && reward_index is None ==> step
            == PublicActionProgressStep::RewardClaim(0),
        *intent is RewardClaim ==> (reward_index matches Some(index) ==> (index <= u32::MAX ==> step
            == PublicActionProgressStep::RewardClaim(index as u32))),
{
    match intent {
        GovernanceActionIntent::Sponsor { .. } => PublicActionProgressStep::Sponsor,
        GovernanceActionIntent::Unsponsor { .. } => PublicActionProgressStep::Unsponsor,
        GovernanceActionIntent::CallVote { .. } => PublicActionProgressStep::CallVote,
        GovernanceActionIntent::Yay { .. } => PublicActionProgressStep::Vote,
        GovernanceActionIntent::Nay { .. } => PublicActionProgressStep::Vote,
        GovernanceActionIntent::GovernanceTokenApproval { .. } => {
            PublicActionProgressStep::GovernanceApprove
        },
        GovernanceActionIntent::Stake { .. } => PublicActionProgressStep::Stake,
        GovernanceActionIntent::Delegate { .. } => PublicActionProgressStep::Delegate,
        GovernanceActionIntent::Undelegate { .. } => PublicActionProgressStep::Undelegate,
        GovernanceActionIntent::Unlock { .. } => PublicActionProgressStep::Unlock,
        GovernanceActionIntent::PrincipalClaim { .. } => PublicActionProgressStep::PrincipalClaim,
        GovernanceActionIntent::RewardClaim { .. } => {
            let index: u32 = match reward_index {
                Some(index) => #[verifier::truncate] (index as u32),
                None => 0,
            };
            PublicActionProgressStep::RewardClaim(index)
        },
    }
}

/// Where a step stands.
#[derive(Clone, Copy, Debug, PartialEq, Eq, Structural)]
pub enum PublicActionStepStatus {
    Pending,
    Done,
}

/// A step with where it stands.
#[derive(Debug, PartialEq, Eq)]
pub struct PublicActionStepState {
    pub step: PublicActionProgressStep,
    pub status: PublicActionStepStatus,
    pub tx_hash: Option<String>,
    /// The first and the last interval of a claim.
    pub interval: Option<(U256, U256)>,
}

/// What a step says.
pub struct StepId {
    pub step: PublicActionProgressStep,
    pub status: PublicActionStepStatus,
    pub tx_hash: Option<Seq<char>>,
    pub interval: Option<(U256, U256)>,
}

impl View for PublicActionStepState {
    type V = StepId;

    open spec fn view(&self) -> StepId {
        StepId {
            step: self.step,
            status: self.status,
            tx_hash: crate::text::optional_text(self.tx_hash),
            interval: self.interval,
        }
    }
}

/// What several steps say.
pub open spec fn step_ids(steps: Seq<PublicActionStepState>) -> Seq<StepId> {
    steps.map_values(|step: PublicActionStepState| step@)
}

/// The step of a claim that was confirmed.
pub open spec fn confirmed_step(confirmed: Seq<RewardClaimConfirmedStep>, at: int) -> StepId {
    StepId {
        step: PublicActionProgressStep::RewardClaim(at as u32),
        status: PublicActionStepStatus::Done,
        tx_hash: Some(seq!['0', 'x'] + hex_digits(confirmed[at].transaction_hash.value(), 64)),
        interval: Some((confirmed[at].starting_interval, confirmed[at].ending_interval)),
    }
}

/// The steps of a claim: those that were confirmed with their transactions, then the one that is
/// sent next.
pub open spec fn reward_steps(
    confirmed: Seq<RewardClaimConfirmedStep>,
    starting_interval: U256,
    ending_interval: U256,
) -> Seq<StepId> {
    Seq::new(confirmed.len(), |i: int| confirmed_step(confirmed, i)).push(
        StepId {
            step: PublicActionProgressStep::RewardClaim(confirmed.len() as u32),
            status: PublicActionStepStatus::Pending,
            tx_hash: None,
            interval: Some((starting_interval, ending_interval)),
        },
    )
}

/// The steps of a claim with where they stand; other actions have none of these.
pub fn governance_reward_progress_steps(
    confirmed: &Vec<RewardClaimConfirmedStep>,
    intent: &GovernanceActionIntent,
) -> (steps: Option<Vec<PublicActionStepState>>)
    ensures
        match (*intent, steps) {
            (
                GovernanceActionIntent::RewardClaim { starting_interval, ending_interval, .. },
                Some(found),
            ) => step_ids(found@) == reward_steps(confirmed@, starting_interval, ending_interval),
            (GovernanceActionIntent::RewardClaim { .. }, None) => false,
            (_, found) => found is None,
        },
{
    match intent {
        GovernanceActionIntent::RewardClaim { starting_interval, ending_interval, .. } => {
            let mut steps: Vec<PublicActionStepState> = Vec::new();
            let mut i: usize = 0;
            while i < confirmed.len()
                invariant
                    i <= confirmed@.len(),
                    step_ids(steps@) == Seq::new(i as nat, |j: int| confirmed_step(confirmed@, j)),
                decreases confirmed@.len() - i,
            {
                let ghost before = steps@;
                let index: u32 = #[verifier::truncate] (i as u32);
                let step = PublicActionStepState {
                    step: PublicActionProgressStep::RewardClaim(index),
                    status: PublicActionStepStatus::Done,
                    tx_hash: Some(confirmed[i].transaction_hash.to_text()),
                    interval: Some((confirmed[i].starting_interval, confirmed[i].ending_interval)),
                };
                assert(step@ == confirmed_step(confirmed@, i as int));
                steps.push(step);
                assert(step_ids(steps@) =~= step_ids(before).push(step@));
                i += 1;
                assert(step_ids(steps@) =~= Seq::new(
                    i as nat,
                    |j: int| confirmed_step(confirmed@, j),
                ));
            }
            let ghost before = steps@;
            let last: u32 = #[verifier::truncate] (confirmed.len() as u32);
            let step = PublicActionStepState {
                step: PublicActionProgressStep::RewardClaim(last),
                status: PublicActionStepStatus::Pending,
                tx_hash: None,
                interval: Some((*starting_interval, *ending_interval)),
            };
            steps.push(step);
            assert(step_ids(steps@) =~= step_ids(before).push(step@));
            Some(steps)
        },
        _ => None,
    }
}

/// How the progress of an action begins.
pub enum SubmissionProgress {
    /// With steps of which some are done.
    States(Vec<PublicActionStepState>),
    /// With these steps, in order.
    Steps(Vec<PublicActionProgressStep>),
}

/// What an action is submitted with.
pub struct GovernanceSubmission {
    pub chain_id: u64,
    pub public_account_uuid: String,
    pub account_source: PublicAccountSource,
    /// The call that is sent, and the fee caps that it is sent with.
    pub call: RawCall,
    pub gas_fee: PublicActionGasFeeSelection,
    pub progress: SubmissionProgress,
    pub progress_step: PublicActionProgressStep,
    /// The greatest fee and tip per gas that are shown.
    pub caps: (u128, u128),
    /// The call that was estimated, and the gas that it may take.
    pub payload_fingerprint: B256,
    pub gas_limit: u64,
    /// The second call that follows.
    pub workflow: Option<GovernanceWorkflow>,
}

/// The steps of an action without confirmed ones: its own, or the two of a workflow.
pub open spec fn plain_steps(
    workflow: Option<GovernanceWorkflow>,
    own: PublicActionProgressStep,
) -> Seq<PublicActionProgressStep> {
    match workflow {
        Some(GovernanceWorkflow::StakeApproval) => seq![
            PublicActionProgressStep::GovernanceApprove,
            PublicActionProgressStep::Stake,
        ],
        Some(GovernanceWorkflow::UndelegateThenUnlock) => seq![
            PublicActionProgressStep::Undelegate,
            PublicActionProgressStep::Unlock,
        ],
        None => seq![own],
    }
}

/// The step that a draft is.
pub open spec fn draft_step(draft: GovernanceSpendDraft) -> PublicActionProgressStep {
    progress_step(
        draft.resolved.intent,
        match draft.continuation {
            Some(GovernanceContinuation::Reward { confirmed, .. }) => Some(
                confirmed@.len() as usize,
            ),
            None => None,
        },
    )
}

/// Begins the submission of an authorized draft, where none is under way. The call is the one that
/// was estimated, for no more gas than was estimated.
pub fn submit_governance_authorized(sending: &mut bool, draft: &GovernanceSpendDraft) -> (
    submission: Option<GovernanceSubmission>)
    ensures
        *final(sending),
        submission is Some == !*old(sending),
        match submission {
            Some(begun) => {
                &&& begun.chain_id == draft.context.chain_id
                &&& begun.public_account_uuid@ == draft.actor_uuid@
                &&& begun.account_source == draft.actor_source
                &&& begun.call@ == draft.resolved.raw@
                &&& begun.gas_fee == draft.gas_fee
                &&& begun.progress_step == draft_step(*draft)
                &&& begun.caps == (
                    draft.estimate.max_fee_per_gas,
                    draft.estimate.max_priority_fee_per_gas,
                )
                &&& begun.payload_fingerprint == draft.estimate.payload_fingerprint
                &&& begun.gas_limit == draft.estimate.gas_limit
                &&& begun.workflow == draft.workflow
                &&& match (draft.workflow, draft.continuation, draft.resolved.intent) {
                    (
                        None,
                        Some(GovernanceContinuation::Reward { confirmed, .. }),
                        GovernanceActionIntent::RewardClaim {
                            starting_interval,
                            ending_interval,
                            ..
                        },
                    ) => begun.progress matches SubmissionProgress::States(states) && step_ids(
                        states@,
                    ) == reward_steps(confirmed@, starting_interval, ending_interval),
                    _ => begun.progress matches SubmissionProgress::Steps(steps) && steps@
                        == plain_steps(draft.workflow, begun.progress_step),
                }
            },
            None => true,
        },
{
    if *sending {
        return None;
    }
    let count: Option<usize> = match &draft.continuation {
        Some(GovernanceContinuation::Reward { confirmed, .. }) => Some(confirmed.len()),
        None => None,
    };
    let progress_step = governance_progress_step(&draft.resolved.intent, count);
    let states = match (&draft.workflow, &draft.continuation) {
        (None, Some(GovernanceContinuation::Reward { confirmed, .. })) => {
            governance_reward_progress_steps(confirmed, &draft.resolved.intent)
        },
        _ => None,
    };
    let progress = match states {
        Some(states) => SubmissionProgress::States(states),
        None => {
            let steps: Vec<PublicActionProgressStep> = match &draft.workflow {
                Some(GovernanceWorkflow::StakeApproval) => vec![
                    PublicActionProgressStep::GovernanceApprove,
                    PublicActionProgressStep::Stake,
                ],
                Some(GovernanceWorkflow::UndelegateThenUnlock) => vec![
                    PublicActionProgressStep::Undelegate,
                    PublicActionProgressStep::Unlock,
                ],
                None => vec![progress_step],
            };
            assert(steps@ =~= plain_steps(draft.workflow, progress_step));
            SubmissionProgress::Steps(steps)
        },
    };
    *sending = true;
    Some(
        GovernanceSubmission {
            chain_id: draft.context.chain_id,
            public_account_uuid: draft.actor_uuid.clone(),
            account_source: draft.actor_source,
            call: draft.resolved.raw.copy(),
            gas_fee: draft.gas_fee,
            progress,
            progress_step,
            caps: (draft.estimate.max_fee_per_gas, draft.estimate.max_priority_fee_per_gas),
            payload_fingerprint: draft.estimate.payload_fingerprint,
            gas_limit: draft.estimate.gas_limit,
            workflow: draft.workflow,
        },
    )
}

/// How a submission ended.
pub enum SubmissionResult {
    /// With these transactions, by the texts of their hashes.
    Sent(Vec<String>),
    Failed(String),
    TaskFailed(String),
}

/// What follows the end of a submission.
pub enum SubmissionNext {
    Ignored,
    /// The next step of a claim is prepared.
    Continue { confirmed_hash: Option<B256> },
    Refresh,
    Fail(String),
}

/// The hash of the last transaction, where there is one and its text is a hash.
pub open spec fn last_hash(hashes: Seq<String>) -> Option<nat> {
    if hashes.len() == 0 {
        None
    } else {
        crate::address::parsed_hash(hashes.last()@)
    }
}

/// The wallet and the chain that are selected.
pub struct SelectedChain {
    pub wallet_id: Option<String>,
    pub chain_id: u64,
}

impl SelectedChain {
    /// Whether both are the same wallet and chain.
    pub open spec fn is_same(self, other: SelectedChain) -> bool {
        optional_text(self.wallet_id) == optional_text(other.wallet_id) && self.chain_id
            == other.chain_id
    }
}

/// Takes the end of a submission, where the wallet and the chain that it was `submitted_for` are
/// still the selected ones, and its action still takes updates.
pub fn finish_governance_submission(
    sending: &mut bool,
    submitted_for: &SelectedChain,
    selected: &SelectedChain,
    accepts_update: bool,
    continues: bool,
    result: SubmissionResult,
) -> (next: SubmissionNext)
    ensures
        if !selected.is_same(*submitted_for) || !accepts_update {
            next is Ignored && *final(sending) == *old(sending)
        } else {
            &&& !*final(sending)
            &&& match result {
                SubmissionResult::Sent(hashes) => if continues {
                    next matches SubmissionNext::Continue { confirmed_hash } && (
                    match confirmed_hash {
                        Some(hash) => last_hash(hashes@) == Some(hash.value()),
                        None => last_hash(hashes@) is None,
                    })
                } else {
                    next is Refresh
                },
                SubmissionResult::Failed(error) => next == SubmissionNext::Fail(error),
                SubmissionResult::TaskFailed(error) => next matches SubmissionNext::Fail(message)
                    && message@ == "Governance action task failed: "@ + error@,
            }
        },
{
    if !same_optional_text(&selected.wallet_id, &submitted_for.wallet_id) || selected.chain_id
        != submitted_for.chain_id || !accepts_update {
        return SubmissionNext::Ignored;
    }
    *sending = false;
    match result {
        SubmissionResult::Sent(hashes) => {
            if !continues {
                return SubmissionNext::Refresh;
            }
            let len: usize = hashes.len();
            let confirmed_hash = if len == 0 {
                None
            } else {
                B256::parse(&hashes[len - 1])
            };
            SubmissionNext::Continue { confirmed_hash }
        },
        SubmissionResult::Failed(error) => SubmissionNext::Fail(error),
        SubmissionResult::TaskFailed(error) => SubmissionNext::Fail(
            concat2("Governance action task failed: ", &error),
        ),
    }
}

/// A row of what is shown for review.
#[derive(Debug, PartialEq, Eq)]
pub struct SummaryRow {
    pub label: String,
    pub value: String,
    /// The token whose icon stands beside the value.
    pub token: Option<Address>,
}

/// What a row says.
pub struct SummaryLine {
    pub label: Seq<char>,
    pub value: Seq<char>,
    pub token: Option<Address>,
}

impl View for SummaryRow {
    type V = SummaryLine;

    open spec fn view(&self) -> SummaryLine {
        SummaryLine { label: self.label@, value: self.value@, token: self.token }
    }
}

/// What several rows say.
pub open spec fn summary_lines(rows: Seq<SummaryRow>) -> Seq<SummaryLine> {
    rows.map_values(|row: SummaryRow| row@)
}

/// What is shown for review.
pub struct SpendAuthorizationSummary {
    pub description: &'static str,
    pub rows: Vec<SummaryRow>,
    pub calldata: String,
    pub warnings: Vec<&'static str>,
}

/// The texts of the numbers of a draft.
pub struct SummaryTexts {
    /// The amount of the action.
    pub amount: String,
    pub native_value: String,
    pub estimated_fee: String,
    /// The rewards of a claim, one for each token.
    pub rewards: Vec<String>,
    pub stage: String,
    pub power_remaining: String,
    pub power_snapshot: String,
    pub sponsorship_after: String,
    pub sponsorship_threshold: String,
    /// The unlock period in its compact form.
    pub unlock_period: String,
    pub claimable_date: String,
}

/// A row without an icon.
pub open spec fn line(label: Seq<char>, value: Seq<char>) -> SummaryLine {
    SummaryLine { label, value, token: None }
}

/// The name of the method that an action calls.
pub open spec fn method_name(intent: GovernanceActionIntent) -> Seq<char> {
    match intent {
        GovernanceActionIntent::Sponsor { .. } => "sponsorProposal"@,
        GovernanceActionIntent::Unsponsor { .. } => "unsponsorProposal"@,
        GovernanceActionIntent::CallVote { .. } => "callVote"@,
        GovernanceActionIntent::Yay { .. } => "vote"@,
        GovernanceActionIntent::Nay { .. } => "vote"@,
        GovernanceActionIntent::GovernanceTokenApproval { .. } => "approve"@,
        GovernanceActionIntent::Stake { .. } => "stake"@,
        GovernanceActionIntent::Delegate { .. } => "delegate"@,
        GovernanceActionIntent::Undelegate { .. } => "undelegate"@,
        GovernanceActionIntent::Unlock { .. } => "unlock"@,
        GovernanceActionIntent::PrincipalClaim { .. } => "claim principal"@,
        GovernanceActionIntent::RewardClaim { reward_tokens, .. } => if reward_tokens@.len() > 1 {
            "claim all rewards"@
        } else {
            "claim rewards"@
        },
    }
}

fn method(intent: &GovernanceActionIntent) -> (name: &'static str)
    ensures
        name@ == method_name(*intent),
{
    match intent {
        GovernanceActionIntent::Sponsor { .. } => "sponsorProposal",
        GovernanceActionIntent::Unsponsor { .. } => "unsponsorProposal",
        GovernanceActionIntent::CallVote { .. } => "callVote",
        GovernanceActionIntent::Yay { .. } => "vote",
        GovernanceActionIntent::Nay { .. } => "vote",
        GovernanceActionIntent::GovernanceTokenApproval { .. } => "approve",
        GovernanceActionIntent::Stake { .. } => "stake",
        GovernanceActionIntent::Delegate { .. } => "delegate",
        GovernanceActionIntent::Undelegate { .. } => "undelegate",
        GovernanceActionIntent::Unlock { .. } => "unlock",
        GovernanceActionIntent::PrincipalClaim { .. } => "claim principal",
        GovernanceActionIntent::RewardClaim { reward_tokens, .. } => if reward_tokens.len() > 1 {
            "claim all rewards"
        } else {
            "claim rewards"
        },
    }
}

/// Whether the amount of an action is in the governance token.
pub open spec fn in_governance_token(intent: GovernanceActionIntent) -> bool {
    match intent {
        GovernanceActionIntent::CallVote { .. } => false,
        GovernanceActionIntent::Delegate { .. } => false,
        GovernanceActionIntent::Undelegate { .. } => false,
        GovernanceActionIntent::RewardClaim { .. } => false,
        _ => true,
    }
}

/// The amount of an action: that of its call, or that of the stake it is on.
pub open spec fn action_amount(draft: GovernanceSpendDraft) -> Option<U256> {
    match draft.review.amount {
        Some(amount) => Some(amount),
        None => match draft.staking_review {
            Some(GovernanceStakingReviewProjection::Stake { amount }) => Some(amount),
            Some(GovernanceStakingReviewProjection::Unlock { amount, .. }) => Some(amount),
            Some(GovernanceStakingReviewProjection::PrincipalClaim { amount, .. }) => Some(amount),
            _ => None,
        },
    }
}

/// The amount of an action.
pub fn governance_action_amount(draft: &GovernanceSpendDraft) -> (amount: Option<U256>)
    ensures
        amount == action_amount(*draft),
        draft.review.amount is Some ==> amount == draft.review.amount,
        draft.review.amount is None && draft.staking_review is None ==> amount is None,
        draft.review.amount is None ==> (draft.staking_review matches Some(shown) ==> match shown {
            GovernanceStakingReviewProjection::Stake { amount: staked } => amount == Some(staked),
            GovernanceStakingReviewProjection::Unlock { amount: freed, .. } => amount == Some(freed),
            GovernanceStakingReviewProjection::PrincipalClaim { amount: principal, .. } => amount
                == Some(principal),
            GovernanceStakingReviewProjection::Delegation { .. } => amount is None,
        }),
{
    match draft.review.amount {
        Some(amount) => Some(amount),
        None => match draft.staking_review {
            Some(GovernanceStakingReviewProjection::Stake { amount }) => Some(amount),
            Some(GovernanceStakingReviewProjection::Unlock { amount, .. }) => Some(amount),
            Some(GovernanceStakingReviewProjection::PrincipalClaim { amount, .. }) => Some(amount),
            _ => None,
        },
    }
}

/// The row of the amount.
pub open spec fn amount_line(
    draft: GovernanceSpendDraft,
    governance_token: Option<Address>,
    texts: SummaryTexts,
) -> SummaryLine {
    let token = if in_governance_token(draft.resolved.intent) {
        governance_token
    } else {
        None
    };
    match (action_amount(draft), token) {
        (Some(_), Some(_)) => SummaryLine { label: "Amount"@, value: texts.amount@, token },
        (Some(amount), None) => line("Amount"@, decimal(amount@)),
        (None, _) => line("Amount"@, "none"@),
    }
}

/// The rows that every action has.
pub open spec fn common_lines(draft: GovernanceSpendDraft, texts: SummaryTexts) -> Seq<
    SummaryLine,
> {
    seq![
        line("Actor"@, checksum_text(draft.actor.value())),
        line("Chain"@, decimal(draft.context.chain_id as nat)),
        line("Contract"@, checksum_text(draft.context.contract.value())),
        line("Method"@, method_name(draft.resolved.intent)),
        line("Native value"@, texts.native_value@),
        line("Estimated fee"@, texts.estimated_fee@),
    ]
}

/// The number of rewards that a claim names: each token with its amount.
pub open spec fn reward_count(tokens: Seq<Address>, amounts: Seq<U256>) -> nat {
    if tokens.len() < amounts.len() {
        tokens.len()
    } else {
        amounts.len()
    }
}

/// Whether there is a text for each reward that the action claims.
pub open spec fn rewards_written(draft: GovernanceSpendDraft, texts: SummaryTexts) -> bool {
    draft.resolved.intent matches GovernanceActionIntent::RewardClaim {
        reward_tokens,
        expected_amounts,
        ..
    } ==> reward_count(reward_tokens@, expected_amounts@) <= texts.rewards@.len()
}

/// The rows of the first rewards.
pub open spec fn reward_lines(tokens: Seq<Address>, texts: Seq<String>, count: nat) -> Seq<
    SummaryLine,
> {
    Seq::new(
        count,
        |i: int| SummaryLine { label: "Reward"@, value: texts[i]@, token: Some(tokens[i]) },
    )
}

/// The rows of what the action moves.
pub open spec fn amount_lines(
    draft: GovernanceSpendDraft,
    governance_token: Option<Address>,
    texts: SummaryTexts,
) -> Seq<SummaryLine> {
    match draft.resolved.intent {
        GovernanceActionIntent::RewardClaim { reward_tokens, expected_amounts, .. } => {
            reward_lines(
                reward_tokens@,
                texts.rewards@,
                reward_count(reward_tokens@, expected_amounts@),
            )
        },
        _ => seq![amount_line(draft, governance_token, texts)],
    }
}

/// The rows of what the action would leave of the proposal.
pub open spec fn proposal_lines(draft: GovernanceSpendDraft, texts: SummaryTexts) -> Seq<
    SummaryLine,
> {
    match draft.proposal_review {
        None => Seq::empty(),
        Some(projection) => seq![line("Proposal stage"@, texts.stage@)] + (if projection
            .power_remaining_after is Some && projection.snapshot_power is Some {
            seq![
                line(
                    "Power after"@,
                    texts.power_remaining@ + " of "@ + texts.power_snapshot@ + " RAIL"@,
                ),
            ]
        } else {
            Seq::empty()
        }) + (if projection.proposal_sponsorship_after is Some
            && projection.sponsorship_threshold is Some {
            seq![
                line(
                    "Sponsorship after"@,
                    texts.sponsorship_after@ + " of "@ + texts.sponsorship_threshold@
                        + " required"@,
                ),
            ]
        } else {
            Seq::empty()
        }),
    }
}

/// The rows of what the action changes about a stake.
pub open spec fn staking_lines(draft: GovernanceSpendDraft, texts: SummaryTexts) -> Seq<
    SummaryLine,
> {
    match draft.staking_review {
        Some(GovernanceStakingReviewProjection::Delegation { previous_delegate, next_delegate }) => {
            seq![
                line("Current delegate"@, checksum_text(previous_delegate.value())),
                line("New delegate"@, checksum_text(next_delegate.value())),
            ]
        },
        Some(GovernanceStakingReviewProjection::Unlock { stake_id, stake_locktime, .. }) => seq![
            line("Stake"@, decimal(stake_id@)),
            line("Unlock period"@, period_text(stake_locktime@, texts.unlock_period@)),
            line("Claimable"@, texts.claimable_date@),
        ],
        Some(GovernanceStakingReviewProjection::PrincipalClaim { stake_id, .. }) => seq![
            line("Stake"@, decimal(stake_id@)),
            line("Recipient"@, checksum_text(draft.actor.value())),
        ],
        _ => Seq::empty(),
    }
}

/// The rows of how the action is carried out.
pub open spec fn plan_lines(draft: GovernanceSpendDraft) -> Seq<SummaryLine> {
    (match draft.workflow {
        Some(GovernanceWorkflow::StakeApproval) => seq![line("Plan"@, "Approve → Stake"@)],
        Some(GovernanceWorkflow::UndelegateThenUnlock) => seq![
            line("Plan"@, "Undelegate → Unlock"@),
        ],
        None => Seq::empty(),
    }) + (match draft.resolved.intent {
        GovernanceActionIntent::RewardClaim { starting_interval, ending_interval, .. } => seq![
            line(
                "Reward ranges"@,
                decimal(starting_interval@) + "–"@ + decimal(ending_interval@),
            ),
        ],
        _ => Seq::empty(),
    })
}

/// The rows that are shown for review.
pub open spec fn review_lines(
    draft: GovernanceSpendDraft,
    governance_token: Option<Address>,
    texts: SummaryTexts,
) -> Seq<SummaryLine> {
    common_lines(draft, texts) + amount_lines(draft, governance_token, texts) + proposal_lines(
        draft,
        texts,
    ) + staking_lines(draft, texts) + plan_lines(draft)
}

/// The warning that goes with an action on a stake.
pub open spec fn review_warning(draft: GovernanceSpendDraft) -> Option<Seq<char>> {
    match draft.staking_review {
        Some(GovernanceStakingReviewProjection::Delegation { .. }) => Some(
            "Delegation changes this stake's voting power and future reward recipient."@,
        ),
        Some(GovernanceStakingReviewProjection::Unlock { previous_delegate, .. }) => Some(
            if previous_delegate == draft.actor {
                "Unlocking stops this stake's voting power and reward accrual."@
            } else {
                "This delegated stake must be undelegated before it can be unlocked."@
            },
        ),
        _ => None,
    }
}

/// Appends a row without an icon.
fn push_row(rows: &mut Vec<SummaryRow>, label: &str, value: String)
    ensures
        summary_lines(final(rows)@) == summary_lines(old(rows)@).push(line(label@, value@)),
{
    let ghost before = rows@;
    rows.push(SummaryRow { label: label.to_owned(), value, token: None });
    assert(summary_lines(rows@) =~= summary_lines(before).push(line(label@, value@)));
}

/// Appends the rows of what the action moves.
fn push_amount_rows(
    rows: &mut Vec<SummaryRow>,
    draft: &GovernanceSpendDraft,
    governance_token: Option<Address>,
    texts: &SummaryTexts,
)
    requires
        rewards_written(*draft, *texts),
    ensures
        summary_lines(final(rows)@) == summary_lines(old(rows)@) + amount_lines(
            *draft,
            governance_token,
            *texts,
        ),
{
    let ghost start = summary_lines(rows@);
    match &draft.resolved.intent {
        GovernanceActionIntent::RewardClaim { reward_tokens, expected_amounts, .. } => {
            let mut i: usize = 0;
            assert(start =~= start + reward_lines(reward_tokens@, texts.rewards@, 0));
            while i < reward_tokens.len() && i < expected_amounts.len()
                invariant
                    i <= reward_count(reward_tokens@, expected_amounts@) <= texts.rewards@.len(),
                    summary_lines(rows@) == start + reward_lines(
                        reward_tokens@,
                        texts.rewards@,
                        i as nat,
                    ),
                decreases reward_tokens@.len() - i,
            {
                let ghost before = rows@;
                let row = SummaryRow {
                    label: "Reward".to_owned(),
                    value: texts.rewards[i].clone(),
                    token: Some(reward_tokens[i]),
                };
                rows.push(row);
                assert(summary_lines(rows@) =~= summary_lines(before).push(row@));
                assert(reward_lines(reward_tokens@, texts.rewards@, (i + 1) as nat)
                    =~= reward_lines(reward_tokens@, texts.rewards@, i as nat).push(row@));
                i += 1;
                assert(summary_lines(rows@) =~= start + reward_lines(
                    reward_tokens@,
                    texts.rewards@,
                    i as nat,
                ));
            }
        },
        _ => {
            let in_token = match &draft.resolved.intent {
                GovernanceActionIntent::CallVote { .. } => false,
                GovernanceActionIntent::Delegate { .. } => false,
                GovernanceActionIntent::Undelegate { .. } => false,
                GovernanceActionIntent::RewardClaim { .. } => false,
                _ => true,
            };
            let token = if in_token {
                governance_token
            } else {
                None
            };
            let ghost before = rows@;
            let row = match (governance_action_amount(draft), token) {
                (Some(_), Some(_)) => SummaryRow {
                    label: "Amount".to_owned(),
                    value: texts.amount.clone(),
                    token,
                },
                (Some(amount), None) => SummaryRow {
                    label: "Amount".to_owned(),
                    value: amount.to_decimal(),
                    token: None,
                },
                (None, _) => SummaryRow {
                    label: "Amount".to_owned(),
                    value: "none".to_owned(),
                    token: None,
                },
            };
            assert(row@ == amount_line(*draft, governance_token, *texts));
            rows.push(row);
            assert(summary_lines(rows@) =~= start + seq![row@]);
        },
    }
}

/// Appends the rows of what the action would leave of the proposal.
fn push_proposal_rows(
    rows: &mut Vec<SummaryRow>,
    draft: &GovernanceSpendDraft,
    texts: &SummaryTexts,
)
    ensures
        summary_lines(final(rows)@) == summary_lines(old(rows)@) + proposal_lines(*draft, *texts),
{
    let ghost start = summary_lines(rows@);
    if let Some(projection) = &draft.proposal_review {
        push_row(rows, "Proposal stage", texts.stage.clone());
        if projection.power_remaining_after.is_some() && projection.snapshot_power.is_some() {
            let value = concat2(
                &concat3(&texts.power_remaining, " of ", &texts.power_snapshot),
                " RAIL",
            );
            push_row(rows, "Power after", value);
        }
        if projection.proposal_sponsorship_after.is_some()
            && projection.sponsorship_threshold.is_some() {
            let value = concat2(
                &concat3(&texts.sponsorship_after, " of ", &texts.sponsorship_threshold),
                " required",
            );
            push_row(rows, "Sponsorship after", value);
        }
    }
    assert(summary_lines(rows@) =~= start + proposal_lines(*draft, *texts));
}

/// Appends the rows of what the action changes about a stake, and its warning.
fn push_staking_rows(
    rows: &mut Vec<SummaryRow>,
    draft: &GovernanceSpendDraft,
    texts: &SummaryTexts,
) -> (warnings: Vec<&'static str>)
    ensures
        summary_lines(final(rows)@) == summary_lines(old(rows)@) + staking_lines(*draft, *texts),
        match review_warning(*draft) {
            Some(text) => warnings@.len() == 1 && warnings@[0]@ == text,
            None => warnings@.len() == 0,
        },
{
    let ghost start = summary_lines(rows@);
    let mut warnings: Vec<&'static str> = Vec::new();
    match &draft.staking_review {
        Some(GovernanceStakingReviewProjection::Delegation { previous_delegate, next_delegate }) => {
            push_row(rows, "Current delegate", previous_delegate.to_checksum());
            push_row(rows, "New delegate", next_delegate.to_checksum());
            warnings.push(
                "Delegation changes this stake's voting power and future reward recipient.",
            );
        },
        Some(
            GovernanceStakingReviewProjection::Unlock {
                stake_id,
                previous_delegate,
                stake_locktime,
                ..
            },
        ) => {
            push_row(rows, "Stake", stake_id.to_decimal());
            push_row(
                rows,
                "Unlock period",
                unlock_period_label(*stake_locktime, &texts.unlock_period),
            );
            push_row(rows, "Claimable", texts.claimable_date.clone());
            if *previous_delegate == draft.actor {
                warnings.push("Unlocking stops this stake's voting power and reward accrual.");
            } else {
                warnings.push(
                    "This delegated stake must be undelegated before it can be unlocked.",
                );
            }
        },
        Some(GovernanceStakingReviewProjection::PrincipalClaim { stake_id, .. }) => {
            push_row(rows, "Stake", stake_id.to_decimal());
            push_row(rows, "Recipient", draft.actor.to_checksum());
        },
        _ => {},
    }
    assert(summary_lines(rows@) =~= start + staking_lines(*draft, *texts));
    warnings
}

/// Appends the rows of how the action is carried out.
fn push_plan_rows(rows: &mut Vec<SummaryRow>, draft: &GovernanceSpendDraft)
    ensures
        summary_lines(final(rows)@) == summary_lines(old(rows)@) + plan_lines(*draft),
{
    let ghost start = summary_lines(rows@);
    match &draft.workflow {
        Some(GovernanceWorkflow::StakeApproval) => {
            push_row(rows, "Plan", "Approve → Stake".to_owned());
        },
        Some(GovernanceWorkflow::UndelegateThenUnlock) => {
            push_row(rows, "Plan", "Undelegate → Unlock".to_owned());
        },
        None => {},
    }
    if let GovernanceActionIntent::RewardClaim { starting_interval, ending_interval, .. } =
        &draft.resolved.intent {
        let ranges = concat3(&starting_interval.to_decimal(), "–", &ending_interval.to_decimal());
        push_row(rows, "Reward ranges", ranges);
    }
    assert(summary_lines(rows@) =~= start + plan_lines(*draft));
}

/// What is shown for review of a draft: `governance_token` is the token of its chain. A claim is
/// shown with all its rewards, so there is a text for each.
pub fn governance_authorization_summary(
    draft: &GovernanceSpendDraft,
    governance_token: Option<Address>,
    texts: &SummaryTexts,
) -> (summary: SpendAuthorizationSummary)
    requires
        rewards_written(*draft, *texts),
    ensures
        summary_lines(summary.rows@) == review_lines(*draft, governance_token, *texts),
        summary.description@ == if draft.workflow is Some {
            "Review the initial exact call; the ordered second call is rebuilt after confirmation and fresh state."@
        } else {
            "Review the exact zero-value contract call before signing."@
        },
        summary.calldata@ == seq!['0', 'x'] + hex_bytes(draft.review.calldata@),
        match review_warning(*draft) {
            Some(text) => summary.warnings@.len() == 1 && summary.warnings@[0]@ == text,
            None => summary.warnings@.len() == 0,
        },
{
    let mut rows: Vec<SummaryRow> = Vec::new();
    push_row(&mut rows, "Actor", draft.actor.to_checksum());
    push_row(&mut rows, "Chain", decimal_u64(draft.context.chain_id));
    push_row(&mut rows, "Contract", draft.context.contract.to_checksum());
    push_row(&mut rows, "Method", method(&draft.resolved.intent).to_owned());
    push_row(&mut rows, "Native value", texts.native_value.clone());
    push_row(&mut rows, "Estimated fee", texts.estimated_fee.clone());
    assert(summary_lines(rows@) =~= common_lines(*draft, *texts));
    push_amount_rows(&mut rows, draft, governance_token, texts);
    push_proposal_rows(&mut rows, draft, texts);
    let warnings = push_staking_rows(&mut rows, draft, texts);
    push_plan_rows(&mut rows, draft);
    SpendAuthorizationSummary {
        description: if draft.workflow.is_some() {
            "Review the initial exact call; the ordered second call is rebuilt after confirmation and fresh state."
        } else {
            "Review the exact zero-value contract call before signing."
        },
        rows,
        calldata: hex_encode_prefixed(draft.review.calldata.as_slice()),
        warnings,
    }
}

/// No reward of a claim is left out of its review: each stands in a row of its own, behind the rows
/// that every action has.
pub proof fn every_reward_is_reviewed(
    draft: GovernanceSpendDraft,
    governance_token: Option<Address>,
    texts: SummaryTexts,
    at: int,
)
    requires
        rewards_written(draft, texts),
    ensures
        draft.resolved.intent matches GovernanceActionIntent::RewardClaim {
            reward_tokens,
            expected_amounts,
            ..
        } ==> 0 <= at < reward_tokens@.len() && at < expected_amounts@.len() ==> {
            let rows = review_lines(draft, governance_token, texts);
            let first = common_lines(draft, texts).len();
            &&& first + at < rows.len()
            &&& rows[first + at] == (SummaryLine {
                label: "Reward"@,
                value: texts.rewards@[at]@,
                token: Some(reward_tokens@[at]),
            })
        },
{
}

/// The steps of a claim are those that were confirmed and the one that is sent next: each confirmed
/// one keeps its intervals and its transaction, and nothing after them is shown.
pub proof fn confirmed_steps_stay_shown(
    confirmed: Seq<RewardClaimConfirmedStep>,
    starting_interval: U256,
    ending_interval: U256,
    at: int,
)
    requires
        0 <= at < confirmed.len(),
    ensures
        ({
            let steps = reward_steps(confirmed, starting_interval, ending_interval);
            &&& steps.len() == confirmed.len() + 1
            &&& steps[at].status is Done
            &&& steps[at].interval == Some(
                (confirmed[at].starting_interval, confirmed[at].ending_interval),
            )
            &&& steps[at].tx_hash == Some(
                seq!['0', 'x'] + hex_digits(confirmed[at].transaction_hash.value(), 64),
            )
            &&& steps.last().status is Pending
            &&& steps.last().tx_hash is None
            &&& steps.last().interval == Some((starting_interval, ending_interval))
        }),
{
}

/// Only a staking recipe for a staking target can be the action on the screen, and it is where the
/// contexts agree and both the selection and the recipe are the ones that stand there.
pub proof fn identities_agree_in_selection_recipe_and_context(
    selected: Option<ActionId>,
    held: Option<RecipeId>,
    target: TargetId,
    recipe: RecipeId,
)
    ensures
        staking_identity(selected, held, target, recipe) ==> target is Staking && recipe is Staking
            && held == Some(recipe) && selected is Some,
        recipe is Proposal || target is Proposal ==> !staking_identity(
            selected,
            held,
            target,
            recipe,
        ),
        recipe matches RecipeId::Staking { selection, context_key, .. } ==> (staking_identity(
            selected,
            held,
            target,
            recipe,
        ) <==> target == TargetId::Staking(context_key) && selected == Some(selection) && held
            == Some(recipe)),
{
}

/// What may be absent is present exactly where it is given, and is then what was given.
pub proof fn optional_actions_are_what_is_given(
    selection: StakingActionSelection,
    recipe: GovernanceDraftRecipe,
)
    ensures
        optional_action(None) is None,
        optional_action(Some(&selection)) == Some(selection@),
        optional_recipe(None) is None,
        optional_recipe(Some(recipe)) == Some(recipe@),
{
}

/// A vote either way is one step; of the other actions no two are the same step.
pub proof fn actions_have_steps_of_their_own(a: GovernanceActionIntent, b: GovernanceActionIntent)
    ensures
        a is Yay && b is Nay ==> progress_step(a, None) == progress_step(b, None),
        progress_step(a, None) == progress_step(b, None) ==> {
            ||| a is Sponsor && b is Sponsor
            ||| a is Unsponsor && b is Unsponsor
            ||| a is CallVote && b is CallVote
            ||| (a is Yay || a is Nay) && (b is Yay || b is Nay)
            ||| a is GovernanceTokenApproval && b is GovernanceTokenApproval
            ||| a is Stake && b is Stake
            ||| a is Delegate && b is Delegate
            ||| a is Undelegate && b is Undelegate
            ||| a is Unlock && b is Unlock
            ||| a is PrincipalClaim && b is PrincipalClaim
            ||| a is RewardClaim && b is RewardClaim
        },
{
}

/// Steps of one claim with different numbers are different steps.
pub proof fn claim_steps_are_numbered(claim: GovernanceActionIntent, a: usize, b: usize)
    requires
        claim is RewardClaim,
        a <= u32::MAX,
        b <= u32::MAX,
    ensures
        progress_step(claim, Some(a)) == progress_step(claim, Some(b)) <==> a == b,
        progress_step(claim, Some(a)) == PublicActionProgressStep::RewardClaim(a as u32),
        progress_step(claim, None) == PublicActionProgressStep::RewardClaim(0),
{
}

/// Two steps are shown alike exactly where step, status, hash and range are.
pub proof fn steps_are_told_apart(a: PublicActionStepState, b: PublicActionStepState)
    ensures
        a@ == b@ <==> a.step == b.step && a.status == b.status && optional_text(a.tx_hash)
            == optional_text(b.tx_hash) && a.interval == b.interval,
        a@.step == a.step,
        a@.status == a.status,
{
}

/// The steps of a list stand in its order.
pub proof fn steps_are_taken_in_order(steps: Seq<PublicActionStepState>, at: int)
    requires
        0 <= at < steps.len(),
    ensures
        step_ids(steps).len() == steps.len(),
        step_ids(steps)[at] == steps[at]@,
{
}

/// Confirmed claims are numbered from zero in their order, and the one to send has the next number.
pub proof fn claims_are_numbered_in_order(
    confirmed: Seq<RewardClaimConfirmedStep>,
    starting_interval: U256,
    ending_interval: U256,
    at: int,
)
    requires
        0 <= at <= confirmed.len() <= u32::MAX,
    ensures
        reward_steps(confirmed, starting_interval, ending_interval)[at].step
            == PublicActionProgressStep::RewardClaim(at as u32),
        reward_steps(confirmed, starting_interval, ending_interval)[at].status is Pending <==> at
            == confirmed.len(),
{
}

/// A workflow of two calls shows both in their order; a single call shows itself.
pub proof fn workflows_show_their_calls_in_order(own: PublicActionProgressStep)
    ensures
        plain_steps(None, own).len() == 1,
        plain_steps(None, own)[0] == own,
        plain_steps(Some(GovernanceWorkflow::StakeApproval), own).len() == 2,
        plain_steps(Some(GovernanceWorkflow::StakeApproval), own)[0] is GovernanceApprove,
        plain_steps(Some(GovernanceWorkflow::StakeApproval), own)[1] is Stake,
        plain_steps(Some(GovernanceWorkflow::UndelegateThenUnlock), own).len() == 2,
        plain_steps(Some(GovernanceWorkflow::UndelegateThenUnlock), own)[0] is Undelegate,
        plain_steps(Some(GovernanceWorkflow::UndelegateThenUnlock), own)[1] is Unlock,
{
}

/// The claim to send is numbered by the claims that were confirmed before it.
pub proof fn the_next_claim_follows_the_confirmed_ones(draft: GovernanceSpendDraft)
    requires
        draft.resolved.intent is RewardClaim,
    ensures
        draft.continuation is None ==> draft_step(draft) == PublicActionProgressStep::RewardClaim(0),
        draft.continuation matches Some(GovernanceContinuation::Reward { confirmed, .. }) ==> (
        confirmed@.len() <= u32::MAX ==> draft_step(draft) == PublicActionProgressStep::RewardClaim(
            confirmed@.len() as u32,
        )),
{
}

/// The hash that counts is the last that was sent, and there is none where none was sent.
pub proof fn the_last_hash_counts(hashes: Seq<String>, hash: String)
    ensures
        last_hash(Seq::empty()) is None,
        last_hash(hashes.push(hash)) == crate::address::parsed_hash(hash@),
{
    assert(hashes.push(hash).last() == hash);
}

/// A selection is unchanged exactly where wallet and chain are.
pub proof fn selections_are_of_wallet_and_chain(a: SelectedChain, b: SelectedChain)
    ensures
        a.is_same(b) <==> optional_text(a.wallet_id) == optional_text(b.wallet_id) && a.chain_id
            == b.chain_id,
        a.is_same(b) <==> b.is_same(a),
{
}

/// Two rows read alike exactly where label, value and token are.
pub proof fn rows_are_told_apart(a: SummaryRow, b: SummaryRow, rows: Seq<SummaryRow>, at: int)
    requires
        0 <= at < rows.len(),
    ensures
        a@ == b@ <==> a.label@ == b.label@ && a.value@ == b.value@ && a.token == b.token,
        a@.label == a.label@,
        a@.value == a.value@,
        a@.token == a.token,
        summary_lines(rows).len() == rows.len(),
        summary_lines(rows)[at] == rows[at]@,
{
}

/// The row of the method names the call that is made.
pub proof fn methods_are_named(intent: GovernanceActionIntent)
    ensures
        intent is Sponsor ==> method_name(intent) == "sponsorProposal"@,
        intent is Unsponsor ==> method_name(intent) == "unsponsorProposal"@,
        intent is CallVote ==> method_name(intent) == "callVote"@,
        intent is Yay || intent is Nay ==> method_name(intent) == "vote"@,
        intent is GovernanceTokenApproval ==> method_name(intent) == "approve"@,
        intent is Stake ==> method_name(intent) == "stake"@,
        intent is Delegate ==> method_name(intent) == "delegate"@,
        intent is Undelegate ==> method_name(intent) == "undelegate"@,
        intent is Unlock ==> method_name(intent) == "unlock"@,
        intent is PrincipalClaim ==> method_name(intent) == "claim principal"@,
        intent matches GovernanceActionIntent::RewardClaim { reward_tokens, .. } ==> (
        reward_tokens@.len() > 1 ==> method_name(intent) == "claim all rewards"@),
        intent matches GovernanceActionIntent::RewardClaim { reward_tokens, .. } ==> (
        reward_tokens@.len() <= 1 ==> method_name(intent) == "claim rewards"@),
{
}

/// The first rows say who acts, on which chain, on which contract, by which method, with which
/// value and at which fee, in this order.
pub proof fn reviews_begin_with_the_call(
    draft: GovernanceSpendDraft,
    governance_token: Option<Address>,
    texts: SummaryTexts,
)
    ensures
        ({
            let rows = review_lines(draft, governance_token, texts);
            &&& rows.len() >= 6
            &&& rows[0] == (SummaryLine {
                label: "Actor"@,
                value: checksum_text(draft.actor.value()),
                token: None,
            })
            &&& rows[1] == (SummaryLine {
                label: "Chain"@,
                value: decimal(draft.context.chain_id as nat),
                token: None,
            })
            &&& rows[2] == (SummaryLine {
                label: "Contract"@,
                value: checksum_text(draft.context.contract.value()),
                token: None,
            })
            &&& rows[3] == (SummaryLine {
                label: "Method"@,
                value: method_name(draft.resolved.intent),
                token: None,
            })
            &&& rows[4] == (SummaryLine {
                label: "Native value"@,
                value: texts.native_value@,
                token: None,
            })
            &&& rows[5] == (SummaryLine {
                label: "Estimated fee"@,
                value: texts.estimated_fee@,
                token: None,
            })
        }),
{
}

/// The amount stands behind the call: in the governance token where the action moves it, as the
/// plain number elsewhere, and as none where the action has no amount.
pub proof fn reviews_say_the_amount(
    draft: GovernanceSpendDraft,
    governance_token: Option<Address>,
    texts: SummaryTexts,
)
    requires
        !(draft.resolved.intent is RewardClaim),
    ensures
        ({
            let rows = review_lines(draft, governance_token, texts);
            let moves = !(draft.resolved.intent is CallVote || draft.resolved.intent is Delegate
                || draft.resolved.intent is Undelegate);
            &&& rows.len() >= 7
            &&& rows[6].label == "Amount"@
            &&& action_amount(draft) is None ==> rows[6].value == "none"@ && rows[6].token is None
            &&& action_amount(draft) matches Some(amount) ==> (moves && governance_token is Some
                ==> rows[6].value == texts.amount@ && rows[6].token == governance_token)
            &&& action_amount(draft) matches Some(amount) ==> (!(moves && governance_token is Some)
                ==> rows[6].value == decimal(amount@) && rows[6].token is None)
        }),
{
}

/// A proposal adds its stage, what power remains and what sponsorship stands after, where known.
pub proof fn proposals_add_their_projection(draft: GovernanceSpendDraft, texts: SummaryTexts)
    ensures
        draft.proposal_review is None ==> proposal_lines(draft, texts).len() == 0,
        draft.proposal_review matches Some(shown) ==> {
            let rows = proposal_lines(draft, texts);
            let power = shown.power_remaining_after is Some && shown.snapshot_power is Some;
            let sponsors = shown.proposal_sponsorship_after is Some && shown.sponsorship_threshold
                is Some;
            &&& rows.len() == 1 + (if power {
                1int
            } else {
                0
            }) + (if sponsors {
                1int
            } else {
                0
            })
            &&& rows[0].label == "Proposal stage"@ && rows[0].value == texts.stage@
            &&& power ==> rows[1].label == "Power after"@ && rows[1].value == texts.power_remaining@
                + " of "@ + texts.power_snapshot@ + " RAIL"@
            &&& sponsors ==> rows.last().label == "Sponsorship after"@ && rows.last().value
                == texts.sponsorship_after@ + " of "@ + texts.sponsorship_threshold@ + " required"@
        },
{
}

/// A staking action adds what becomes of the stake: the delegates, when it can be claimed, or who
/// receives it.
pub proof fn staking_actions_add_their_projection(draft: GovernanceSpendDraft, texts: SummaryTexts)
    ensures
        draft.staking_review is None ==> staking_lines(draft, texts).len() == 0,
        draft.staking_review matches Some(shown) ==> match shown {
            GovernanceStakingReviewProjection::Stake { .. } => {
                staking_lines(draft, texts).len() == 0
            },
            GovernanceStakingReviewProjection::Delegation { previous_delegate, next_delegate } => {
                let rows = staking_lines(draft, texts);
                &&& rows.len() == 2
                &&& rows[0].label == "Current delegate"@
                &&& rows[0].value == checksum_text(previous_delegate.value())
                &&& rows[1].label == "New delegate"@
                &&& rows[1].value == checksum_text(next_delegate.value())
            },
            GovernanceStakingReviewProjection::Unlock { stake_id, stake_locktime, .. } => {
                let rows = staking_lines(draft, texts);
                &&& rows.len() == 3
                &&& rows[0].label == "Stake"@ && rows[0].value == decimal(stake_id@)
                &&& rows[1].label == "Unlock period"@
                &&& rows[1].value == period_text(stake_locktime@, texts.unlock_period@)
                &&& rows[2].label == "Claimable"@ && rows[2].value == texts.claimable_date@
            },
            GovernanceStakingReviewProjection::PrincipalClaim { stake_id, .. } => {
                let rows = staking_lines(draft, texts);
                &&& rows.len() == 2
                &&& rows[0].label == "Stake"@ && rows[0].value == decimal(stake_id@)
                &&& rows[1].label == "Recipient"@
                &&& rows[1].value == checksum_text(draft.actor.value())
            },
        },
{
}

/// The last rows say what follows the call and which intervals a claim covers.
pub proof fn reviews_end_with_the_plan(draft: GovernanceSpendDraft)
    ensures
        draft.workflow is None && !(draft.resolved.intent is RewardClaim) ==> plan_lines(draft).len()
            == 0,
        draft.workflow matches Some(workflow) ==> plan_lines(draft).len() > 0 && plan_lines(
            draft,
        )[0].label == "Plan"@ && plan_lines(draft)[0].value == (match workflow {
            GovernanceWorkflow::StakeApproval => "Approve → Stake"@,
            GovernanceWorkflow::UndelegateThenUnlock => "Undelegate → Unlock"@,
        }),
        draft.resolved.intent matches GovernanceActionIntent::RewardClaim {
            starting_interval,
            ending_interval,
            ..
        } ==> plan_lines(draft).len() > 0 && plan_lines(draft).last().label == "Reward ranges"@
            && plan_lines(draft).last().value == decimal(starting_interval@) + "–"@ + decimal(
            ending_interval@,
        ),
{
}

/// The parts of a review follow one another: the call, the amounts, the proposal, the stake, the
/// plan.
pub proof fn reviews_are_in_order(
    draft: GovernanceSpendDraft,
    governance_token: Option<Address>,
    texts: SummaryTexts,
)
    ensures
        ({
            let rows = review_lines(draft, governance_token, texts);
            let amounts = 6 + amount_lines(draft, governance_token, texts).len();
            let proposals = amounts + proposal_lines(draft, texts).len();
            let stakes = proposals + staking_lines(draft, texts).len();
            &&& rows.len() == stakes + plan_lines(draft).len()
            &&& rows.subrange(6, amounts as int) == amount_lines(draft, governance_token, texts)
            &&& rows.subrange(amounts as int, proposals as int) == proposal_lines(draft, texts)
            &&& rows.subrange(proposals as int, stakes as int) == staking_lines(draft, texts)
            &&& rows.subrange(stakes as int, rows.len() as int) == plan_lines(draft)
        }),
{
}

/// A reward is shown where both its token and its amount are given.
pub proof fn rewards_are_shown_with_their_amounts(tokens: Seq<Address>, amounts: Seq<U256>)
    ensures
        reward_count(tokens, amounts) <= tokens.len(),
        reward_count(tokens, amounts) <= amounts.len(),
        reward_count(tokens, amounts) == tokens.len() || reward_count(tokens, amounts)
            == amounts.len(),
{
}

/// Delegating and unlocking warn of what is lost; a delegated stake cannot be unlocked as it is.
pub proof fn reviews_warn_of_what_is_lost(draft: GovernanceSpendDraft)
    ensures
        draft.staking_review is None ==> review_warning(draft) is None,
        draft.staking_review matches Some(shown) ==> match shown {
            GovernanceStakingReviewProjection::Stake { .. } => review_warning(draft) is None,
            GovernanceStakingReviewProjection::PrincipalClaim { .. } => {
                review_warning(draft) is None
            },
            GovernanceStakingReviewProjection::Delegation { .. } => review_warning(draft) == Some(
                "Delegation changes this stake's voting power and future reward recipient."@,
            ),
            GovernanceStakingReviewProjection::Unlock { previous_delegate, .. } => {
                &&& previous_delegate == draft.actor ==> review_warning(draft) == Some(
                    "Unlocking stops this stake's voting power and reward accrual."@,
                )
                &&& previous_delegate != draft.actor ==> review_warning(draft) == Some(
                    "This delegated stake must be undelegated before it can be unlocked."@,
                )
            },
        },
{
}

/// Everything that is told of a `PublicActionStepState` is its own, under its own name.
pub proof fn public_action_step_state_is_told_as_it_is(kept: PublicActionStepState)
    ensures
        kept@.step == kept.step,
        kept@.status == kept.status,
        kept.tx_hash matches Some(text) ==> kept@.tx_hash == Some(text@),
        kept.tx_hash is None ==> kept@.tx_hash is None,
        kept@.interval == kept.interval,
{
}

/// Everything that is told of a `SummaryRow` is its own, under its own name.
pub proof fn summary_row_is_told_as_it_is(kept: SummaryRow)
    ensures
        kept@.label == kept.label@,
        kept@.value == kept.value@,
        kept@.token == kept.token,
{
}

} // verus!
