//! Preparing a governance action, stage by stage: what was read decides what is read next, until
//! the action is drafted. Each stage holds what the next one needs.
use crate::accounts::PublicAccountSource;
use crate::address::{keccak256_of, parsed_address, Address, B256};
use crate::governance::action::{
    participation_id, proposal_participation_key, GovernanceActionContext, GovernanceActionIntent,
    GovernanceActionReview, GovernanceContinuation, GovernanceContractKind,
    GovernanceContractVersion, GovernanceDraftRecipe, GovernanceEstimate, GovernanceProposal,
    GovernanceProposalStage, GovernanceRefreshTarget, GovernanceResolvedAction,
    GovernanceSpendDraft, GovernanceStakingReviewProjection, GovernanceWorkflow,
    ProposalActionKind, ProposalActionSelection, ProposalFacts, ProposalParticipationKey,
    RewardClaimConfirmedStep, TargetId,
};
use crate::governance::ascending::ascending;
use crate::governance::draft::{
    actor_participation, assemble_draft, check_claim_tokens, delegate_address,
    delegation_plan, first_row, fresh_proposal, observed_bytes, optional_number, position_of,
    principal_claim_plan, projection_of, proposal_action_intent, proposal_guard,
    proposal_observed_state, proposal_page, proposal_position, proposal_review_projection,
    proposal_rules, reward_claim_action, reward_claim_plan, same_proposal, stake_amount, stake_plan,
    staking_contracts, unlock_is_planned, unlock_plan, validate_proposal_action, votes,
    GovernanceCapacity, GovernanceContracts, GovernanceParticipation, Position, Projection,
    ProposalGuard, StakingActionPlan, UnlockPlan,
};
use crate::governance::model::{
    copy_items, GovernanceContextKey, RewardBatchEvidence, StakePosition, StakingGlobalMetrics,
};
use crate::governance::reward_plan::RewardClaimIntent;
use crate::governance::rewards::PublicActionGasFeeSelection;
use crate::governance::staking::{ActionKindId, StakingActionKind, StakingActionSelection};
use crate::text::trimmed;
use crate::u256::{u256_max, U256};
use vstd::prelude::*;

verus! {

/// What an action on a proposal is prepared from.
pub struct ProposalDraftInputs {
    pub proposal: GovernanceProposal,
    pub key: ProposalParticipationKey,
    pub selection: ProposalActionSelection,
    pub amount: Option<U256>,
    pub wallet_id: String,
    pub actor_uuid: String,
    pub actor_source: PublicAccountSource,
    pub gas_fee: PublicActionGasFeeSelection,
}

impl ProposalDraftInputs {
    /// The amount of the action; nothing where none is given.
    pub open spec fn wanted(self) -> nat {
        match self.amount {
            Some(amount) => amount@,
            None => 0,
        }
    }

    fn wanted_amount(&self) -> (amount: U256)
        ensures
            amount@ == self.wanted(),
    {
        match self.amount {
            Some(amount) => amount,
            None => U256::zero(),
        }
    }
}

/// The rules of a voting contract that a review shows.
#[derive(Clone, Copy, Debug, PartialEq, Eq, Structural)]
pub struct GovernanceRules {
    pub sponsor_threshold: U256,
}

/// One voting contract.
#[derive(Clone, Copy, Debug, PartialEq, Eq, Structural)]
pub struct GovernanceSummary {
    pub proposal_count: U256,
    pub address: Address,
    pub rules: GovernanceRules,
}

/// The voting contracts of a chain.
#[derive(Clone, Copy, Debug, PartialEq, Eq, Structural)]
pub struct GovernanceOverview {
    pub v2: GovernanceSummary,
    pub v1: Option<GovernanceSummary>,
}

/// The page of a proposal, or the text of why it has none.
pub enum PageOf {
    At(int),
    Refused(Seq<char>),
}

/// The page of a proposal: the one that its position falls on, in the contract that it was read
/// from.
pub open spec fn page_of(
    proposal: ProposalFacts,
    overview: Option<GovernanceOverview>,
    page_size: int,
) -> PageOf {
    match overview {
        None => PageOf::Refused("Governance is not deployed on this chain"@),
        Some(found) => match position_of(
            proposal.contract_version,
            proposal.index@,
            (found.v2.proposal_count@, found.v2.address),
            match found.v1 {
                Some(own) => Some((own.proposal_count@, own.address)),
                None => None,
            },
        ) {
            Position::Refused(text) => PageOf::Refused(text),
            Position::At(at, contract) => if contract != proposal.contract_address {
                PageOf::Refused("Proposal contract changed; refresh before authorizing"@)
            } else {
                PageOf::At(at / page_size)
            },
        },
    }
}

/// A proposal whose page is to be read.
pub struct LocatedProposal {
    pub inputs: ProposalDraftInputs,
    pub overview: GovernanceOverview,
    pub page: usize,
}

impl ProposalDraftInputs {
    /// Finds the page that holds the proposal.
    pub fn locate(self, overview: Option<GovernanceOverview>, page_size: usize) -> (located: Result<
        LocatedProposal,
        String,
    >)
        requires
            page_size > 0,
            self.proposal.index@ != usize::MAX,
        ensures
            match (located, page_of(self.proposal@.facts, overview, page_size as int)) {
                (Ok(found), PageOf::At(page)) => found.inputs == self && overview == Some(
                    found.overview,
                ) && found.page == page,
                (Err(error), PageOf::Refused(text)) => error@ == text,
                _ => false,
            },
    {
        let overview = match overview {
            Some(found) => found,
            None => return Err("Governance is not deployed on this chain".to_owned()),
        };
        let v1 = match overview.v1 {
            Some(own) => Some((own.proposal_count, own.address)),
            None => None,
        };
        let position = match proposal_position(
            self.proposal.contract_version,
            self.proposal.index,
            (overview.v2.proposal_count, overview.v2.address),
            v1,
        ) {
            Ok(found) => found,
            Err(error) => return Err(error),
        };
        match proposal_page(&self.proposal, position, page_size) {
            Ok(page) => Ok(LocatedProposal { inputs: self, overview, page }),
            Err(error) => Err(error),
        }
    }
}

/// The first row that is a proposal, whatever has become of it.
pub open spec fn first_same(rows: Seq<GovernanceProposal>, facts: ProposalFacts, at: int) -> bool {
    &&& 0 <= at < rows.len()
    &&& same_proposal(rows[at]@.facts, facts)
    &&& forall|i: int| 0 <= i < at ==> !same_proposal((#[trigger] rows[i])@.facts, facts)
}

/// The rules of the contract of a proposal.
pub open spec fn rules_of(overview: GovernanceOverview, version: GovernanceContractVersion) -> Option<
    GovernanceRules,
> {
    match version {
        GovernanceContractVersion::V2 => Some(overview.v2.rules),
        GovernanceContractVersion::V1 => match overview.v1 {
            Some(own) => Some(own.rules),
            None => None,
        },
    }
}

/// A proposal as it stands now, whose participation is to be read.
pub struct FreshProposal {
    pub inputs: ProposalDraftInputs,
    pub fresh: GovernanceProposal,
    pub rules: GovernanceRules,
}

impl LocatedProposal {
    /// Finds the proposal on its page, with the rules of its contract.
    pub fn find(self, rows: Vec<GovernanceProposal>) -> (found: Result<FreshProposal, String>)
        ensures
            match found {
                Ok(proposal) => proposal.inputs == self.inputs && (exists|at: int|
                    first_same(rows@, self.inputs.proposal@.facts, at) && #[trigger] rows@[at]
                        == proposal.fresh) && rules_of(
                    self.overview,
                    proposal.fresh.contract_version,
                ) == Some(proposal.rules),
                Err(error) => {
                    ||| error@
                        == "Proposal changed or is no longer available; refresh before authorizing"@
                        && forall|i: int|
                        0 <= i < rows@.len() ==> !same_proposal(
                            (#[trigger] rows@[i])@.facts,
                            self.inputs.proposal@.facts,
                        )
                    ||| error@ == "Legacy governance rules are unavailable"@ && (exists|at: int|
                        first_same(rows@, self.inputs.proposal@.facts, at) && rules_of(
                            self.overview,
                            (#[trigger] rows@[at]).contract_version,
                        ) is None)
                },
            },
    {
        let ghost given = rows@;
        let at: usize = match fresh_proposal(&rows, &self.inputs.proposal) {
            Ok(at) => at,
            Err(error) => return Err(error),
        };
        assert(first_same(given, self.inputs.proposal@.facts, at as int));
        let mut rows = rows;
        let fresh = rows.remove(at);
        assert(fresh == given[at as int]);
        let v1_rules = match self.overview.v1 {
            Some(own) => Some(own.rules),
            None => None,
        };
        match proposal_rules(fresh.contract_version, self.overview.v2.rules, v1_rules) {
            Ok(rules) => Ok(FreshProposal { inputs: self.inputs, fresh, rules }),
            Err(error) => Err(error),
        }
    }
}

/// The condition that an action on a proposal has to meet.
pub open spec fn guard_of(
    kind: ProposalActionKind,
    amount: U256,
    participation: GovernanceParticipation,
) -> ProposalGuard {
    match kind {
        ProposalActionKind::Sponsor => ProposalGuard::Sponsor {
            amount,
            last_sponsored: participation.last_sponsored,
        },
        ProposalActionKind::Unsponsor => ProposalGuard::Unsponsor {
            amount,
            sponsored: participation.sponsored,
        },
        ProposalActionKind::CallVote => ProposalGuard::CallVote,
        ProposalActionKind::Yay => ProposalGuard::Yay { amount },
        ProposalActionKind::Nay => ProposalGuard::Nay { amount },
    }
}

/// A proposal with the participation of the account that acts, whose condition is to be checked.
pub struct GuardedProposal {
    pub inputs: ProposalDraftInputs,
    pub fresh: GovernanceProposal,
    pub rules: GovernanceRules,
    pub participation: GovernanceParticipation,
    pub amount: U256,
    pub guard: ProposalGuard,
}

impl GuardedProposal {
    /// The amount is that of the inputs.
    pub open spec fn wf(self) -> bool {
        self.amount@ == self.inputs.wanted()
    }
}

impl FreshProposal {
    /// Finds the participation of the account that acts, and the condition that its action has to
    /// meet.
    pub fn participate(self, rows: &Vec<(Address, Result<GovernanceParticipation, String>)>) -> (
        guarded: Result<GuardedProposal, String>)
        ensures
            match guarded {
                Ok(found) => {
                    &&& found.inputs == self.inputs
                    &&& found.fresh == self.fresh
                    &&& found.rules == self.rules
                    &&& found.wf()
                    &&& found.guard == guard_of(
                        self.inputs.selection.kind,
                        found.amount,
                        found.participation,
                    )
                    &&& exists|at: int|
                        first_row(rows@, self.inputs.selection.actor, at) && rows@[at].1 == Ok::<
                            GovernanceParticipation,
                            String,
                        >(found.participation)
                },
                Err(error) => (exists|at: int|
                    #![trigger rows@[at]]
                    first_row(rows@, self.inputs.selection.actor, at) && (rows@[at].1 matches Err(
                        own,
                    ) && own@ == error@)) || (error@
                    == "Selected account participation is unavailable; refresh before authorizing"@
                    && forall|i: int|
                    0 <= i < rows@.len() ==> (#[trigger] rows@[i]).0 != self.inputs.selection.actor),
            },
    {
        let participation = match actor_participation(rows, self.inputs.selection.actor) {
            Ok(found) => found,
            Err(error) => return Err(error),
        };
        let amount = self.inputs.wanted_amount();
        let guard = proposal_guard(self.inputs.selection.kind, amount, &participation);
        Ok(
            GuardedProposal {
                inputs: self.inputs,
                fresh: self.fresh,
                rules: self.rules,
                participation,
                amount,
                guard,
            },
        )
    }
}

/// Why an action is not valid, given what its condition came to and the power that is left.
pub open spec fn invalidity(
    kind: ProposalActionKind,
    wanted: nat,
    guard: Result<(), String>,
    remaining: Result<U256, String>,
) -> Option<Seq<char>> {
    match (guard, remaining) {
        (Err(error), _) => Some(error@),
        (Ok(_), Err(error)) => if votes(kind) || kind == ProposalActionKind::Sponsor {
            Some(error@)
        } else {
            None
        },
        (Ok(_), Ok(power)) => if votes(kind) && wanted > power@ {
            Some("Amount exceeds remaining voting capacity"@)
        } else if kind == ProposalActionKind::Sponsor && wanted > power@ {
            Some("Amount exceeds remaining sponsorship capacity"@)
        } else {
            None
        },
    }
}

/// The call of an action on a proposal, which is to be resolved and estimated.
pub struct PlannedProposal {
    pub inputs: ProposalDraftInputs,
    pub fresh: GovernanceProposal,
    pub rules: GovernanceRules,
    pub amount: U256,
    pub context: GovernanceActionContext,
    pub intent: GovernanceActionIntent,
}

impl PlannedProposal {
    /// The amount, the account and the chain are those of the inputs.
    pub open spec fn wf(self) -> bool {
        &&& self.amount@ == self.inputs.wanted()
        &&& self.context.actor == self.inputs.selection.actor
        &&& self.context.chain_id == self.inputs.key.context.chain_id
    }
}

/// The call of an action on a proposal.
pub open spec fn proposal_intent_of(
    kind: ProposalActionKind,
    facts: ProposalFacts,
    participation: GovernanceParticipation,
    amount: U256,
) -> GovernanceActionIntent {
    match kind {
        ProposalActionKind::Sponsor => GovernanceActionIntent::Sponsor {
            proposal_version: facts.contract_version,
            proposal_index: facts.index,
            amount,
            snapshot_interval: participation.sponsorship_snapshot.interval,
            snapshot_hint: participation.sponsorship_snapshot.hint,
        },
        ProposalActionKind::Unsponsor => GovernanceActionIntent::Unsponsor {
            proposal_version: facts.contract_version,
            proposal_index: facts.index,
            amount,
        },
        ProposalActionKind::CallVote => GovernanceActionIntent::CallVote {
            proposal_version: facts.contract_version,
            proposal_index: facts.index,
        },
        ProposalActionKind::Yay => GovernanceActionIntent::Yay {
            proposal_version: facts.contract_version,
            proposal_index: facts.index,
            amount,
            snapshot_interval: participation.voting_snapshot.interval,
            snapshot_hint: participation.voting_snapshot.hint,
        },
        ProposalActionKind::Nay => GovernanceActionIntent::Nay {
            proposal_version: facts.contract_version,
            proposal_index: facts.index,
            amount,
            snapshot_interval: participation.voting_snapshot.interval,
            snapshot_hint: participation.voting_snapshot.hint,
        },
    }
}

impl GuardedProposal {
    /// Plans the call, where the action is valid. `guard` is what its condition came to, and
    /// `remaining` the power left to vote, or for a sponsorship to sponsor with.
    pub fn plan(self, guard: Result<(), String>, remaining: Result<U256, String>) -> (planned:
        Result<PlannedProposal, String>)
        requires
            self.wf(),
        ensures
            match (
                planned,
                invalidity(self.inputs.selection.kind, self.inputs.wanted(), guard, remaining),
            ) {
                (Err(error), Some(text)) => error@ == text,
                (Ok(found), None) => {
                    &&& found.wf()
                    &&& found.inputs == self.inputs
                    &&& found.fresh == self.fresh
                    &&& found.rules == self.rules
                    &&& found.amount == self.amount
                    &&& found.intent == proposal_intent_of(
                        self.inputs.selection.kind,
                        self.fresh@.facts,
                        self.participation,
                        self.amount,
                    )
                    &&& found.context.private_wallet_uuid@ == self.inputs.wallet_id@
                    &&& found.context.chain_id == self.inputs.key.context.chain_id
                    &&& found.context.public_account_uuid@ == self.inputs.actor_uuid@
                    &&& found.context.actor == self.inputs.selection.actor
                    &&& found.context.contract == self.fresh.contract_address
                    &&& found.context.contract_kind == GovernanceContractKind::Voting
                    &&& found.context.observed_state == keccak256_of(
                        observed_bytes(
                            self.fresh@.facts,
                            self.participation,
                            self.inputs.selection.actor,
                        ),
                    )
                },
                _ => false,
            },
    {
        let kind = self.inputs.selection.kind;
        let actor = self.inputs.selection.actor;
        if let Err(error) = validate_proposal_action(kind, Some(self.amount), guard, remaining) {
            return Err(error);
        }
        let context = GovernanceActionContext {
            private_wallet_uuid: self.inputs.wallet_id.clone(),
            chain_id: self.inputs.key.context.chain_id,
            public_account_uuid: self.inputs.actor_uuid.clone(),
            actor,
            contract: self.fresh.contract_address,
            contract_kind: GovernanceContractKind::Voting,
            observed_state: proposal_observed_state(&self.fresh, &self.participation, actor),
        };
        let intent = proposal_action_intent(kind, &self.fresh, &self.participation, self.amount);
        Ok(
            PlannedProposal {
                inputs: self.inputs,
                fresh: self.fresh,
                rules: self.rules,
                amount: self.amount,
                context,
                intent,
            },
        )
    }
}

/// A call that was resolved and estimated.
pub struct EstimatedCall {
    pub resolved: GovernanceResolvedAction,
    pub review: GovernanceActionReview,
    pub estimate: GovernanceEstimate,
    /// When the estimate came in, in nanoseconds on one monotonic clock.
    pub completed_at: u128,
}

/// The fee caps that a draft is sent with.
pub open spec fn pinned_fee(
    selection: PublicActionGasFeeSelection,
    estimate: GovernanceEstimate,
) -> PublicActionGasFeeSelection {
    match selection {
        PublicActionGasFeeSelection::Auto => PublicActionGasFeeSelection::Custom {
            max_fee_per_gas: estimate.max_fee_per_gas,
            max_priority_fee_per_gas: estimate.max_priority_fee_per_gas,
        },
        _ => selection,
    }
}

/// The draft of an action on a proposal, with what the action leaves. `stage` is the stage of the
/// proposal, and `capacity` the power to sponsor with, or for a vote the power to vote with.
pub fn build_governance_spend_draft(
    planned: PlannedProposal,
    call: EstimatedCall,
    stage: GovernanceProposalStage,
    capacity: Result<GovernanceCapacity, String>,
) -> (draft: Result<GovernanceSpendDraft, String>)
    requires
        planned.wf(),
    ensures
        match (
            draft,
            projection_of(
                planned.inputs.selection.kind,
                planned.inputs.wanted(),
                planned.fresh.sponsorship@,
                planned.rules.sponsor_threshold,
                capacity,
            ),
        ) {
            (Err(error), Projection::Refused(text)) => error@ == text,
            (
                Ok(found),
                Projection::Shown { power_after, snapshot_power, sponsorship_after, threshold },
            ) => {
                &&& found.target@ == TargetId::Proposal(
                    participation_id(planned.fresh@.facts, planned.inputs.key@.context),
                )
                &&& found.actor_uuid@ == planned.inputs.actor_uuid@
                &&& found.actor == planned.inputs.selection.actor
                &&& found.actor_source == planned.inputs.actor_source
                &&& found.context == planned.context
                &&& found.context.chain_id == found.target@.context().chain_id
                &&& found.resolved == call.resolved
                &&& found.review == call.review
                &&& found.estimate == call.estimate
                &&& found.estimate_completed_at == call.completed_at
                &&& found.gas_fee == pinned_fee(planned.inputs.gas_fee, call.estimate)
                &&& found.workflow is None
                &&& found.continuation is None
                &&& found.staking_review is None
                &&& found.proposal_review matches Some(shown) && shown.stage == stage
                    && optional_number(shown.power_remaining_after) == power_after
                    && shown.snapshot_power == snapshot_power && optional_number(
                    shown.proposal_sponsorship_after,
                ) == sponsorship_after && shown.sponsorship_threshold == threshold
                &&& found.recipe == (GovernanceDraftRecipe::Proposal {
                    proposal: planned.inputs.proposal,
                    key: planned.inputs.key,
                    selection: planned.inputs.selection,
                    amount: planned.inputs.amount,
                })
            },
            _ => false,
        },
{
    let projection = match proposal_review_projection(
        planned.inputs.selection.kind,
        planned.amount,
        stage,
        planned.fresh.sponsorship,
        planned.rules.sponsor_threshold,
        capacity,
    ) {
        Ok(found) => found,
        Err(error) => return Err(error),
    };
    let target = GovernanceRefreshTarget::Proposal(
        proposal_participation_key(&planned.fresh, planned.inputs.key.context.copy()),
    );
    let recipe = GovernanceDraftRecipe::Proposal {
        proposal: planned.inputs.proposal,
        key: planned.inputs.key,
        selection: planned.inputs.selection,
        amount: planned.inputs.amount,
    };
    Ok(
        assemble_draft(
            target,
            planned.inputs.actor_uuid,
            planned.inputs.actor_source,
            planned.context,
            call.resolved,
            call.review,
            Some(projection),
            None,
            call.estimate,
            call.completed_at,
            planned.inputs.gas_fee,
            None,
            None,
            recipe,
        ),
    )
}

/// What a staking action is prepared from.
pub struct StakingDraftInputs {
    pub selection: StakingActionSelection,
    pub context_key: GovernanceContextKey,
    pub wallet_id: String,
    pub actor_source: PublicAccountSource,
    pub amount_input: String,
    pub delegate_input: String,
    pub token_decimals: Option<u8>,
    pub gas_fee: PublicActionGasFeeSelection,
}

/// What has to be read for a staking action.
pub enum StakingDraftRead {
    /// The balance and the allowance of the account.
    Balance { amount: U256 },
    /// The stake, for a delegation to another account.
    Delegation { stake_id: U256, delegate: Address },
    /// The stake, for the end of its delegation.
    Undelegation { stake_id: U256 },
    /// The stake and the lock time.
    Unlock { stake_id: U256 },
    /// The stake and the chain's time.
    PrincipalClaim { stake_id: U256 },
    /// The evidence of the rewards.
    Rewards { tokens: Vec<Address> },
}

/// What a staking action needs, or the text of why it is refused at once. `parsed` is what the
/// amount input came to.
pub open spec fn read_of(
    kind: ActionKindId,
    delegate_input: Seq<char>,
    parsed: Result<U256, String>,
    read: Result<StakingDraftRead, String>,
) -> bool {
    match kind {
        ActionKindId::Stake => match parsed {
            Err(error) => read == Err::<StakingDraftRead, String>(error),
            Ok(amount) => if amount@ == 0 {
                read matches Err(error) && error@ == "Amount must be greater than zero"@
            } else {
                read == Ok::<StakingDraftRead, String>(StakingDraftRead::Balance { amount })
            },
        },
        ActionKindId::Delegate(id) => match parsed_address(trimmed(delegate_input)) {
            None => read matches Err(error) && error@ == "Enter a valid delegate address"@,
            Some(value) => read matches Ok(StakingDraftRead::Delegation { stake_id, delegate })
                && stake_id == id && delegate.value() == value,
        },
        ActionKindId::Undelegate(stake_id) => read == Ok::<StakingDraftRead, String>(
            StakingDraftRead::Undelegation { stake_id },
        ),
        ActionKindId::Unlock(stake_id) => read == Ok::<StakingDraftRead, String>(
            StakingDraftRead::Unlock { stake_id },
        ),
        ActionKindId::PrincipalClaim(stake_id) => read == Ok::<StakingDraftRead, String>(
            StakingDraftRead::PrincipalClaim { stake_id },
        ),
        ActionKindId::RewardClaim(wanted) => if wanted.len() == 0 {
            read matches Err(error) && error@ == "Select at least one reward to claim"@
        } else if !ascending(wanted) {
            read matches Err(error) && error@
                == "Selected reward tokens must be unique and ascending by address"@
        } else {
            read matches Ok(StakingDraftRead::Rewards { tokens }) && tokens@ == wanted
        },
    }
}

/// A staking action that something has to be read for.
pub struct StartedStaking {
    pub inputs: StakingDraftInputs,
    pub contracts: GovernanceContracts,
    pub read: StakingDraftRead,
}

impl StakingDraftInputs {
    /// Decides what has to be read. `contracts` are those of the chain, and `parsed` is what the
    /// amount input came to.
    pub fn start(self, contracts: Option<GovernanceContracts>, parsed: Result<U256, String>) -> (
        started: Result<StartedStaking, String>)
        ensures
            match contracts {
                None => started matches Err(error) && error@
                    == "Staking is not deployed on this chain"@,
                Some(own) => match started {
                    Ok(found) => found.inputs == self && found.contracts == own && read_of(
                        self.selection.kind@,
                        self.delegate_input@,
                        parsed,
                        Ok(found.read),
                    ),
                    Err(error) => read_of(
                        self.selection.kind@,
                        self.delegate_input@,
                        parsed,
                        Err(error),
                    ),
                },
            },
    {
        let contracts = match staking_contracts(contracts) {
            Ok(found) => found,
            Err(error) => return Err(error),
        };
        let read = match &self.selection.kind {
            StakingActionKind::Stake => match stake_amount(parsed) {
                Ok(amount) => StakingDraftRead::Balance { amount },
                Err(error) => return Err(error),
            },
            StakingActionKind::Delegate { stake_id } => match delegate_address(
                &self.delegate_input,
            ) {
                Ok(delegate) => StakingDraftRead::Delegation { stake_id: *stake_id, delegate },
                Err(error) => return Err(error),
            },
            StakingActionKind::Undelegate { stake_id } => StakingDraftRead::Undelegation {
                stake_id: *stake_id,
            },
            StakingActionKind::Unlock { stake_id } => StakingDraftRead::Unlock {
                stake_id: *stake_id,
            },
            StakingActionKind::PrincipalClaim { stake_id } => StakingDraftRead::PrincipalClaim {
                stake_id: *stake_id,
            },
            StakingActionKind::RewardClaimSelected { tokens } => match check_claim_tokens(tokens) {
                Ok(_) => StakingDraftRead::Rewards { tokens: copy_items(tokens) },
                Err(error) => return Err(error),
            },
        };
        Ok(StartedStaking { inputs: self, contracts, read })
    }
}

/// The call of a staking action, as it was planned from what was read.
pub enum StakingCall {
    Stake {
        approval: Option<GovernanceActionIntent>,
        stake: Option<GovernanceActionIntent>,
        observed_state: B256,
    },
    Delegation {
        intent: GovernanceActionIntent,
        observed_state: B256,
        previous_delegate: Address,
        next_delegate: Address,
    },
    Unlock {
        position: StakePosition,
        metrics: StakingGlobalMetrics,
        planned: Result<UnlockPlan, String>,
    },
    PrincipalClaim { amount: U256, intent: GovernanceActionIntent, observed_state: B256 },
    /// The first step of a claim, and the evidence that its steps were planned from.
    RewardClaim {
        first: Option<RewardClaimIntent>,
        fingerprint: B256,
        evidence: RewardBatchEvidence,
    },
}

/// Whether a call is of the action that something was read for.
pub open spec fn call_fits(read: StakingDraftRead, call: StakingCall) -> bool {
    match read {
        StakingDraftRead::Balance { .. } => call is Stake,
        StakingDraftRead::Delegation { .. } => call is Delegation,
        StakingDraftRead::Undelegation { .. } => call is Delegation,
        StakingDraftRead::Unlock { .. } => call is Unlock,
        StakingDraftRead::PrincipalClaim { .. } => call is PrincipalClaim,
        StakingDraftRead::Rewards { .. } => call is RewardClaim,
    }
}

/// What a staking action calls, which is to be resolved and estimated.
pub struct PlannedStaking {
    pub inputs: StakingDraftInputs,
    pub plan: StakingActionPlan,
    pub continuation: Option<GovernanceContinuation>,
    pub context: GovernanceActionContext,
}

impl PlannedStaking {
    /// The account and the chain are those of the inputs.
    pub open spec fn wf(self) -> bool {
        &&& self.context.actor == self.inputs.selection.actor
        &&& self.context.chain_id == self.inputs.context_key.chain_id
    }
}

/// Whether a plan, and what follows it, is that of a call.
pub open spec fn plan_of(
    contracts: GovernanceContracts,
    read: StakingDraftRead,
    call: StakingCall,
    plan: StakingActionPlan,
    continuation: Option<GovernanceContinuation>,
) -> bool {
    match (read, call) {
        (
            StakingDraftRead::Balance { amount },
            StakingCall::Stake { approval, stake, observed_state },
        ) => {
            let intent = if approval is Some {
                approval
            } else {
                stake
            };
            let contract = if approval is Some {
                contracts.governance_token
            } else {
                contracts.staking
            };
            &&& intent == Some(plan.intent)
            &&& plan.contract == contract
            &&& plan.contract_kind == (if contract == contracts.governance_token {
                GovernanceContractKind::GovernanceToken
            } else {
                GovernanceContractKind::Staking
            })
            &&& plan.observed_state == observed_state
            &&& plan.workflow == (if approval is Some {
                Some(GovernanceWorkflow::StakeApproval)
            } else {
                None
            })
            &&& plan.staking_review == Some(
                GovernanceStakingReviewProjection::Stake { amount },
            )
            &&& continuation is None
        },
        (
            StakingDraftRead::Unlock { stake_id },
            StakingCall::Unlock { position, metrics, planned },
        ) => (planned matches Ok(unlock) && unlock_is_planned(
            contracts,
            stake_id,
            position,
            metrics,
            unlock,
            plan,
        )) && continuation is None,
        (
            StakingDraftRead::PrincipalClaim { stake_id },
            StakingCall::PrincipalClaim { amount, intent, observed_state },
        ) => plan == (StakingActionPlan {
            contract: contracts.staking,
            contract_kind: GovernanceContractKind::Staking,
            observed_state,
            intent,
            workflow: None,
            staking_review: Some(
                GovernanceStakingReviewProjection::PrincipalClaim {
                    stake_id,
                    amount,
                },
            ),
        }) && continuation is None,
        (_, StakingCall::RewardClaim { first, fingerprint, evidence }) => (first matches Some(own)
            && plan == (StakingActionPlan {
            contract: contracts.governor_rewards,
            contract_kind: GovernanceContractKind::GovernorRewards,
            observed_state: fingerprint,
            intent: GovernanceActionIntent::RewardClaim {
                reward_tokens: own.reward_tokens,
                starting_interval: own.starting_interval,
                ending_interval: own.ending_interval,
                snapshot_hints: own.snapshot_hints,
                expected_amounts: own.expected_amounts,
            },
            workflow: None,
            staking_review: None,
        })) && (continuation matches Some(
            GovernanceContinuation::Reward { confirmed, evidence: kept },
        ) && confirmed@.len() == 0 && kept == evidence),
        (
            _,
            StakingCall::Delegation { intent, observed_state, previous_delegate, next_delegate },
        ) => plan == (StakingActionPlan {
            contract: contracts.staking,
            contract_kind: GovernanceContractKind::Staking,
            observed_state,
            intent,
            workflow: None,
            staking_review: Some(
                GovernanceStakingReviewProjection::Delegation {
                    previous_delegate,
                    next_delegate,
                },
            ),
        }) && continuation is None,
        _ => false,
    }
}

/// Why a call cannot be made.
pub open spec fn call_refusal(call: StakingCall) -> Option<Seq<char>> {
    match call {
        StakingCall::Stake { approval, stake, .. } => if approval is None && stake is None {
            Some("Stake plan did not produce a stake call"@)
        } else {
            None
        },
        StakingCall::Unlock { metrics, planned, .. } => if metrics.chain_time@
            + metrics.stake_locktime@ > u256_max() {
            Some("Unlock claim timestamp overflowed"@)
        } else {
            match planned {
                Err(error) => Some(error@),
                Ok(_) => None,
            }
        },
        StakingCall::RewardClaim { first, .. } => if first is None {
            Some("Reward claim plan is empty"@)
        } else {
            None
        },
        _ => None,
    }
}

impl StartedStaking {
    /// Plans the call from what was read.
    pub fn plan(self, call: StakingCall) -> (planned: Result<PlannedStaking, String>)
        requires
            call_fits(self.read, call),
        ensures
            match (planned, call_refusal(call)) {
                (Err(error), Some(text)) => error@ == text,
                (Ok(found), None) => {
                    &&& found.wf()
                    &&& found.inputs == self.inputs
                    &&& plan_of(self.contracts, self.read, call, found.plan, found.continuation)
                    &&& found.context.private_wallet_uuid@ == self.inputs.wallet_id@
                    &&& found.context.chain_id == self.inputs.context_key.chain_id
                    &&& found.context.public_account_uuid@ == self.inputs.selection.actor_uuid@
                    &&& found.context.actor == self.inputs.selection.actor
                    &&& found.context.contract == found.plan.contract
                    &&& found.context.contract_kind == found.plan.contract_kind
                    &&& found.context.observed_state == found.plan.observed_state
                },
                _ => false,
            },
    {
        let mut continuation: Option<GovernanceContinuation> = None;
        let plan = match (&self.read, call) {
            (
                StakingDraftRead::Balance { amount },
                StakingCall::Stake { approval, stake, observed_state },
            ) => match stake_plan(&self.contracts, *amount, approval, stake, observed_state) {
                Ok(plan) => plan,
                Err(error) => return Err(error),
            },
            (
                StakingDraftRead::Unlock { stake_id },
                StakingCall::Unlock { position, metrics, planned },
            ) => match unlock_plan(&self.contracts, *stake_id, &position, &metrics, planned) {
                Ok(plan) => plan,
                Err(error) => return Err(error),
            },
            (
                StakingDraftRead::PrincipalClaim { stake_id },
                StakingCall::PrincipalClaim { amount, intent, observed_state },
            ) => principal_claim_plan(&self.contracts, *stake_id, amount, intent, observed_state),
            (_, StakingCall::RewardClaim { first, fingerprint, evidence }) => {
                let first = match first {
                    Some(first) => first,
                    None => return Err("Reward claim plan is empty".to_owned()),
                };
                continuation =
                Some(GovernanceContinuation::Reward { confirmed: Vec::new(), evidence });
                reward_claim_plan(&self.contracts, reward_claim_action(first), fingerprint)
            },
            (
                _,
                StakingCall::Delegation { intent, observed_state, previous_delegate, next_delegate },
            ) => delegation_plan(
                &self.contracts,
                intent,
                observed_state,
                previous_delegate,
                next_delegate,
            ),
            _ => vstd::pervasive::unreached(),
        };
        let context = GovernanceActionContext {
            private_wallet_uuid: self.inputs.wallet_id.clone(),
            chain_id: self.inputs.context_key.chain_id,
            public_account_uuid: self.inputs.selection.actor_uuid.clone(),
            actor: self.inputs.selection.actor,
            contract: plan.contract,
            contract_kind: plan.contract_kind,
            observed_state: plan.observed_state,
        };
        Ok(PlannedStaking { inputs: self.inputs, plan, continuation, context })
    }
}

impl StakingDraftInputs {
    /// Plans the next step of a claim of which steps were confirmed: `evidence` is what is left to
    /// claim. Its fee is the automatic one.
    pub fn plan_next_claim(
        self,
        contracts: &GovernanceContracts,
        next: RewardClaimIntent,
        fingerprint: B256,
        confirmed: Vec<RewardClaimConfirmedStep>,
        evidence: RewardBatchEvidence,
    ) -> (planned: PlannedStaking)
        ensures
            planned.wf(),
            planned.inputs == (StakingDraftInputs {
                gas_fee: PublicActionGasFeeSelection::Auto,
                ..self
            }),
            planned.plan == (StakingActionPlan {
                contract: contracts.governor_rewards,
                contract_kind: GovernanceContractKind::GovernorRewards,
                observed_state: fingerprint,
                intent: GovernanceActionIntent::RewardClaim {
                    reward_tokens: next.reward_tokens,
                    starting_interval: next.starting_interval,
                    ending_interval: next.ending_interval,
                    snapshot_hints: next.snapshot_hints,
                    expected_amounts: next.expected_amounts,
                },
                workflow: None,
                staking_review: None,
            }),
            planned.continuation == Some(GovernanceContinuation::Reward { confirmed, evidence }),
            planned.context.private_wallet_uuid@ == self.wallet_id@,
            planned.context.chain_id == self.context_key.chain_id,
            planned.context.public_account_uuid@ == self.selection.actor_uuid@,
            planned.context.actor == self.selection.actor,
            planned.context.contract == contracts.governor_rewards,
            planned.context.contract_kind == GovernanceContractKind::GovernorRewards,
            planned.context.observed_state == fingerprint,
    {
        let plan = reward_claim_plan(contracts, reward_claim_action(next), fingerprint);
        let context = GovernanceActionContext {
            private_wallet_uuid: self.wallet_id.clone(),
            chain_id: self.context_key.chain_id,
            public_account_uuid: self.selection.actor_uuid.clone(),
            actor: self.selection.actor,
            contract: plan.contract,
            contract_kind: plan.contract_kind,
            observed_state: plan.observed_state,
        };
        PlannedStaking {
            inputs: StakingDraftInputs { gas_fee: PublicActionGasFeeSelection::Auto, ..self },
            plan,
            continuation: Some(GovernanceContinuation::Reward { confirmed, evidence }),
            context,
        }
    }
}

/// The draft of a staking action.
pub fn build_staking_action_draft(planned: PlannedStaking, call: EstimatedCall) -> (draft:
    GovernanceSpendDraft)
    requires
        planned.wf(),
    ensures
        draft.target@ == TargetId::Staking(planned.inputs.context_key@),
        draft.actor_uuid@ == planned.inputs.selection.actor_uuid@,
        draft.actor == planned.inputs.selection.actor,
        draft.actor_source == planned.inputs.actor_source,
        draft.context == planned.context,
        draft.context.chain_id == draft.target@.context().chain_id,
        draft.resolved == call.resolved,
        draft.review == call.review,
        draft.proposal_review is None,
        draft.staking_review == planned.plan.staking_review,
        draft.estimate == call.estimate,
        draft.estimate_completed_at == call.completed_at,
        draft.gas_fee == pinned_fee(planned.inputs.gas_fee, call.estimate),
        draft.workflow == planned.plan.workflow,
        draft.continuation == planned.continuation,
        draft.recipe == (GovernanceDraftRecipe::Staking {
            selection: planned.inputs.selection,
            context_key: planned.inputs.context_key,
            amount_input: planned.inputs.amount_input,
            delegate_input: planned.inputs.delegate_input,
            token_decimals: planned.inputs.token_decimals,
        }),
{
    let target = GovernanceRefreshTarget::Staking(planned.inputs.context_key.copy());
    let actor_uuid = planned.inputs.selection.actor_uuid.clone();
    let recipe = GovernanceDraftRecipe::Staking {
        selection: planned.inputs.selection,
        context_key: planned.inputs.context_key,
        amount_input: planned.inputs.amount_input,
        delegate_input: planned.inputs.delegate_input,
        token_decimals: planned.inputs.token_decimals,
    };
    assemble_draft(
        target,
        actor_uuid,
        planned.inputs.actor_source,
        planned.context,
        call.resolved,
        call.review,
        None,
        planned.plan.staking_review,
        call.estimate,
        call.completed_at,
        planned.inputs.gas_fee,
        planned.plan.workflow,
        planned.continuation,
        recipe,
    )
}

/// The balance and the allowance of an account, where the governance token is deployed.
pub fn governance_token_balance(read: Option<(U256, U256)>) -> (found: Result<
    (U256, U256),
    String,
>)
    ensures
        match (read, found) {
            (Some(own), Ok(found)) => found == own,
            (None, Err(error)) => error@ == "Governance token is not deployed on this chain"@,
            _ => false,
        },
{
    match read {
        Some(own) => Ok(own),
        None => Err("Governance token is not deployed on this chain".to_owned()),
    }
}

/// What is wanted is what was entered, and nothing where nothing was.
pub proof fn amounts_are_as_entered(inputs: ProposalDraftInputs)
    ensures
        inputs.amount is None ==> inputs.wanted() == 0,
        inputs.amount matches Some(amount) ==> inputs.wanted() == amount@,
{
}

/// A proposal is looked for on the page that its place falls on: the places of a page are
/// consecutive, and the proposal's contract is the one that it was shown with.
pub proof fn pages_hold_the_place(
    proposal: ProposalFacts,
    overview: GovernanceOverview,
    page_size: int,
)
    requires
        page_size > 0,
    ensures
        page_of(proposal, None, page_size) == PageOf::Refused(
            "Governance is not deployed on this chain"@,
        ),
        ({
            let place = position_of(
                proposal.contract_version,
                proposal.index@,
                (overview.v2.proposal_count@, overview.v2.address),
                match overview.v1 {
                    Some(own) => Some((own.proposal_count@, own.address)),
                    None => None,
                },
            );
            let page = page_of(proposal, Some(overview), page_size);
            &&& place matches Position::At(at, contract) ==> (contract == proposal.contract_address
                ==> (page matches PageOf::At(on) && on * page_size <= at < (on + 1) * page_size))
            &&& place matches Position::At(_, contract) ==> (contract != proposal.contract_address
                ==> page == PageOf::Refused(
                "Proposal contract changed; refresh before authorizing"@,
            ))
            &&& place matches Position::Refused(text) ==> page == PageOf::Refused(text)
        }),
{
    let place = position_of(
        proposal.contract_version,
        proposal.index@,
        (overview.v2.proposal_count@, overview.v2.address),
        match overview.v1 {
            Some(own) => Some((own.proposal_count@, own.address)),
            None => None,
        },
    );
    if let Position::At(at, _) = place {
        vstd::arithmetic::div_mod::lemma_fundamental_div_mod(at as int, page_size);
        vstd::arithmetic::div_mod::lemma_mod_bound(at as int, page_size);
        let on: int = at as int / page_size;
        assert(on * page_size == page_size * on) by (nonlinear_arith);
        assert((on + 1) * page_size == on * page_size + page_size) by (nonlinear_arith);
    }
}

/// The first row of a proposal is one alone.
pub proof fn the_first_same_row_is_unique(
    rows: Seq<GovernanceProposal>,
    facts: ProposalFacts,
    a: int,
    b: int,
)
    ensures
        first_same(rows, facts, a) && first_same(rows, facts, b) ==> a == b,
        first_same(rows, facts, a) ==> 0 <= a < rows.len() && same_proposal(rows[a]@.facts, facts),
        0 <= a < rows.len() && same_proposal(rows[a]@.facts, facts) && first_same(rows, facts, b)
            ==> b <= a,
{
    if first_same(rows, facts, a) && first_same(rows, facts, b) {
        if a < b {
            assert(!same_proposal(rows[a]@.facts, facts));
        }
        if b < a {
            assert(!same_proposal(rows[b]@.facts, facts));
        }
    }
    if 0 <= a < rows.len() && same_proposal(rows[a]@.facts, facts) && first_same(rows, facts, b) {
        if a < b {
            assert(!same_proposal(rows[a]@.facts, facts));
        }
    }
}

/// Each contract has its own rules; the legacy one may have none.
pub proof fn rules_are_of_their_contract(overview: GovernanceOverview)
    ensures
        rules_of(overview, GovernanceContractVersion::V2) == Some(overview.v2.rules),
        overview.v1 is None ==> rules_of(overview, GovernanceContractVersion::V1) is None,
        overview.v1 matches Some(own) ==> rules_of(overview, GovernanceContractVersion::V1) == Some(
            own.rules,
        ),
{
}

/// Each action is guarded by its own conditions, with the amount that is wanted and what the
/// account has sponsored.
pub proof fn guards_are_of_their_action(amount: U256, participation: GovernanceParticipation)
    ensures
        guard_of(ProposalActionKind::Sponsor, amount, participation)
            matches ProposalGuard::Sponsor { amount: wanted, last_sponsored } && wanted == amount
            && last_sponsored == participation.last_sponsored,
        guard_of(ProposalActionKind::Unsponsor, amount, participation)
            matches ProposalGuard::Unsponsor { amount: wanted, sponsored } && wanted == amount
            && sponsored == participation.sponsored,
        guard_of(ProposalActionKind::CallVote, amount, participation) is CallVote,
        guard_of(ProposalActionKind::Yay, amount, participation) matches ProposalGuard::Yay {
            amount: wanted,
        } && wanted == amount,
        guard_of(ProposalActionKind::Nay, amount, participation) matches ProposalGuard::Nay {
            amount: wanted,
        } && wanted == amount,
{
}

/// A failed guard stops every action. A vote or a sponsorship further needs the power that remains
/// to be known and to suffice; up to exactly what remains it may be spent.
pub proof fn actions_stay_within_the_power(
    wanted: nat,
    guard: Result<(), String>,
    remaining: Result<U256, String>,
)
    ensures
        forall|kind: ProposalActionKind|
            guard matches Err(error) ==> #[trigger] invalidity(kind, wanted, guard, remaining)
                == Some(error@),
        guard is Ok ==> invalidity(ProposalActionKind::Unsponsor, wanted, guard, remaining) is None
            && invalidity(ProposalActionKind::CallVote, wanted, guard, remaining) is None,
        guard is Ok ==> (remaining matches Ok(power) ==> (wanted <= power@ ==> invalidity(
            ProposalActionKind::Yay,
            wanted,
            guard,
            remaining,
        ) is None && invalidity(ProposalActionKind::Nay, wanted, guard, remaining) is None
            && invalidity(ProposalActionKind::Sponsor, wanted, guard, remaining) is None)),
        guard is Ok ==> (remaining matches Ok(power) ==> (wanted > power@ ==> invalidity(
            ProposalActionKind::Yay,
            wanted,
            guard,
            remaining,
        ) == Some("Amount exceeds remaining voting capacity"@) && invalidity(
            ProposalActionKind::Nay,
            wanted,
            guard,
            remaining,
        ) == Some("Amount exceeds remaining voting capacity"@) && invalidity(
            ProposalActionKind::Sponsor,
            wanted,
            guard,
            remaining,
        ) == Some("Amount exceeds remaining sponsorship capacity"@))),
        guard is Ok ==> (remaining matches Err(error) ==> invalidity(
            ProposalActionKind::Yay,
            wanted,
            guard,
            remaining,
        ) == Some(error@) && invalidity(ProposalActionKind::Nay, wanted, guard, remaining) == Some(
            error@,
        ) && invalidity(ProposalActionKind::Sponsor, wanted, guard, remaining) == Some(error@)),
{
}

/// The call that is planned is the one that was selected, for the proposal that was found, with the
/// amount that is wanted and the snapshot that the action counts by: sponsoring by the one of
/// sponsorship, voting by the one of voting.
pub proof fn proposal_calls_are_as_selected(
    facts: ProposalFacts,
    participation: GovernanceParticipation,
    amount: U256,
)
    ensures
        proposal_intent_of(ProposalActionKind::Sponsor, facts, participation, amount)
            matches GovernanceActionIntent::Sponsor {
            proposal_version,
            proposal_index,
            amount: moved,
            snapshot_interval,
            snapshot_hint,
        } && proposal_version == facts.contract_version && proposal_index == facts.index && moved
            == amount && snapshot_interval == participation.sponsorship_snapshot.interval
            && snapshot_hint == participation.sponsorship_snapshot.hint,
        proposal_intent_of(ProposalActionKind::Unsponsor, facts, participation, amount)
            matches GovernanceActionIntent::Unsponsor {
            proposal_version,
            proposal_index,
            amount: moved,
        } && proposal_version == facts.contract_version && proposal_index == facts.index && moved
            == amount,
        proposal_intent_of(ProposalActionKind::CallVote, facts, participation, amount)
            matches GovernanceActionIntent::CallVote { proposal_version, proposal_index }
            && proposal_version == facts.contract_version && proposal_index == facts.index,
        proposal_intent_of(ProposalActionKind::Yay, facts, participation, amount)
            matches GovernanceActionIntent::Yay {
            proposal_version,
            proposal_index,
            amount: moved,
            snapshot_interval,
            snapshot_hint,
        } && proposal_version == facts.contract_version && proposal_index == facts.index && moved
            == amount && snapshot_interval == participation.voting_snapshot.interval
            && snapshot_hint == participation.voting_snapshot.hint,
        proposal_intent_of(ProposalActionKind::Nay, facts, participation, amount)
            matches GovernanceActionIntent::Nay {
            proposal_version,
            proposal_index,
            amount: moved,
            snapshot_interval,
            snapshot_hint,
        } && proposal_version == facts.contract_version && proposal_index == facts.index && moved
            == amount && snapshot_interval == participation.voting_snapshot.interval
            && snapshot_hint == participation.voting_snapshot.hint,
{
}

/// Automatic fees are held to what was estimated; entered ones stay as they were entered. Either
/// way the fee of a draft is fixed.
pub proof fn fees_are_fixed_by_the_estimate(
    selection: PublicActionGasFeeSelection,
    estimate: GovernanceEstimate,
)
    ensures
        pinned_fee(selection, estimate) is Custom,
        selection is Custom ==> pinned_fee(selection, estimate) == selection,
        selection is Auto ==> (pinned_fee(selection, estimate)
            matches PublicActionGasFeeSelection::Custom {
            max_fee_per_gas,
            max_priority_fee_per_gas,
        } && max_fee_per_gas == estimate.max_fee_per_gas && max_priority_fee_per_gas
            == estimate.max_priority_fee_per_gas),
        pinned_fee(pinned_fee(selection, estimate), estimate) == pinned_fee(selection, estimate),
{
}

/// A stake needs a positive amount; what is read for it is its balance, with that amount.
pub proof fn stakes_need_an_amount(
    delegate_input: Seq<char>,
    parsed: Result<U256, String>,
    read: Result<StakingDraftRead, String>,
)
    requires
        read_of(ActionKindId::Stake, delegate_input, parsed, read),
    ensures
        parsed matches Err(error) ==> (read matches Err(own) && own == error),
        parsed matches Ok(amount) ==> (amount@ == 0 ==> (read matches Err(error) && error@
            == "Amount must be greater than zero"@)),
        parsed matches Ok(amount) ==> (amount@ > 0 ==> (read matches Ok(StakingDraftRead::Balance {
            amount: wanted,
        }) && wanted == amount)),
{
}

/// A delegation needs an address; an action on a stake is read for that stake.
pub proof fn actions_are_read_for_their_stake(
    id: U256,
    delegate_input: Seq<char>,
    parsed: Result<U256, String>,
    read: Result<StakingDraftRead, String>,
)
    ensures
        read_of(ActionKindId::Delegate(id), delegate_input, parsed, read) ==> {
            &&& parsed_address(trimmed(delegate_input)) is None ==> (read matches Err(error)
                && error@ == "Enter a valid delegate address"@)
            &&& parsed_address(trimmed(delegate_input)) matches Some(value) ==> (read matches Ok(
                StakingDraftRead::Delegation { stake_id, delegate },
            ) && stake_id == id && delegate.value() == value)
        },
        read_of(ActionKindId::Undelegate(id), delegate_input, parsed, read) ==> (read matches Ok(
            StakingDraftRead::Undelegation { stake_id },
        ) && stake_id == id),
        read_of(ActionKindId::Unlock(id), delegate_input, parsed, read) ==> (read matches Ok(
            StakingDraftRead::Unlock { stake_id },
        ) && stake_id == id),
        read_of(ActionKindId::PrincipalClaim(id), delegate_input, parsed, read) ==> (read matches Ok(
            StakingDraftRead::PrincipalClaim { stake_id },
        ) && stake_id == id),
{
}

/// A claim needs at least one token, each once and in order, and is read for exactly those.
pub proof fn claims_are_read_for_their_tokens(
    wanted: Seq<Address>,
    delegate_input: Seq<char>,
    parsed: Result<U256, String>,
    read: Result<StakingDraftRead, String>,
)
    requires
        read_of(ActionKindId::RewardClaim(wanted), delegate_input, parsed, read),
    ensures
        wanted.len() == 0 ==> (read matches Err(error) && error@
            == "Select at least one reward to claim"@),
        wanted.len() > 0 && !ascending(wanted) ==> (read matches Err(error) && error@
            == "Selected reward tokens must be unique and ascending by address"@),
        wanted.len() > 0 && ascending(wanted) ==> (read matches Ok(StakingDraftRead::Rewards {
            tokens,
        }) && tokens@ == wanted),
{
}

/// A stake that needs an approval is preceded by it on the token; one that does not is sent to the
/// staking contract at once. Both show the amount that is staked.
pub proof fn stakes_are_approved_first(
    contracts: GovernanceContracts,
    read: StakingDraftRead,
    call: StakingCall,
    plan: StakingActionPlan,
    continuation: Option<GovernanceContinuation>,
)
    requires
        plan_of(contracts, read, call, plan, continuation),
        read is Balance,
        call is Stake,
    ensures
        call->approval matches Some(intent) ==> plan.intent == intent && plan.contract
            == contracts.governance_token && plan.contract_kind
            == GovernanceContractKind::GovernanceToken && plan.workflow == Some(
            GovernanceWorkflow::StakeApproval,
        ),
        call->approval is None ==> (call->stake matches Some(intent) && plan.intent == intent
            && plan.contract == contracts.staking && plan.workflow is None),
        plan.observed_state == call->Stake_observed_state,
        plan.staking_review matches Some(GovernanceStakingReviewProjection::Stake { amount })
            && amount == read->amount,
        continuation is None,
{
}

/// A call on a stake goes to the staking contract in one step and shows what it changes.
pub proof fn calls_on_stakes_go_to_the_staking_contract(
    contracts: GovernanceContracts,
    read: StakingDraftRead,
    call: StakingCall,
    plan: StakingActionPlan,
    continuation: Option<GovernanceContinuation>,
)
    requires
        plan_of(contracts, read, call, plan, continuation),
    ensures
        call matches StakingCall::Delegation {
            intent,
            observed_state,
            previous_delegate,
            next_delegate,
        } ==> plan.contract == contracts.staking && plan.contract_kind
            == GovernanceContractKind::Staking && plan.intent == intent && plan.observed_state
            == observed_state && plan.workflow is None && continuation is None && (
        plan.staking_review matches Some(
            GovernanceStakingReviewProjection::Delegation {
                previous_delegate: before,
                next_delegate: after,
            },
        ) && before == previous_delegate && after == next_delegate),
        call matches StakingCall::PrincipalClaim { amount, intent, observed_state } ==> (
        read matches StakingDraftRead::PrincipalClaim { stake_id } && plan.contract
            == contracts.staking && plan.contract_kind == GovernanceContractKind::Staking
            && plan.intent == intent && plan.observed_state == observed_state && plan.workflow is None
            && continuation is None && plan.staking_review == Some(
            GovernanceStakingReviewProjection::PrincipalClaim { stake_id, amount },
        )),
        call matches StakingCall::Unlock { planned, .. } ==> planned is Ok && continuation is None,
{
}

/// A reward claim goes to the rewards contract with the first planned call as it stands, and keeps
/// the evidence for the calls that follow; nothing is confirmed yet.
pub proof fn claims_go_to_the_rewards_contract(
    contracts: GovernanceContracts,
    read: StakingDraftRead,
    call: StakingCall,
    plan: StakingActionPlan,
    continuation: Option<GovernanceContinuation>,
)
    requires
        plan_of(contracts, read, call, plan, continuation),
        call is RewardClaim,
        read is Rewards,
    ensures
        plan.contract == contracts.governor_rewards,
        plan.contract_kind == GovernanceContractKind::GovernorRewards,
        plan.observed_state == call->fingerprint,
        plan.workflow is None,
        plan.staking_review is None,
        call->first matches Some(first) && plan.intent matches GovernanceActionIntent::RewardClaim {
            reward_tokens,
            starting_interval,
            ending_interval,
            snapshot_hints,
            expected_amounts,
        } && reward_tokens == first.reward_tokens && starting_interval == first.starting_interval
            && ending_interval == first.ending_interval && snapshot_hints == first.snapshot_hints
            && expected_amounts == first.expected_amounts,
        continuation matches Some(GovernanceContinuation::Reward { confirmed, evidence })
            && confirmed@.len() == 0 && evidence == call->evidence,
{
}

/// A call is refused exactly where there is nothing to send, the unlock was refused, or the time of
/// its claim does not fit.
pub proof fn calls_are_refused_where_there_is_none(call: StakingCall)
    ensures
        call is Delegation || call is PrincipalClaim ==> call_refusal(call) is None,
        call matches StakingCall::Stake { approval, stake, .. } ==> (call_refusal(call) is Some
            <==> approval is None && stake is None),
        call is Stake && call_refusal(call) is Some ==> call_refusal(call) == Some(
            "Stake plan did not produce a stake call"@,
        ),
        call matches StakingCall::RewardClaim { first, .. } ==> (call_refusal(call) is Some
            <==> first is None),
        call is RewardClaim && call_refusal(call) is Some ==> call_refusal(call) == Some(
            "Reward claim plan is empty"@,
        ),
        call matches StakingCall::Unlock { metrics, .. } ==> (metrics.chain_time@
            + metrics.stake_locktime@ > u256_max() ==> call_refusal(call) == Some(
            "Unlock claim timestamp overflowed"@,
        )),
        call matches StakingCall::Unlock { metrics, planned, .. } ==> (metrics.chain_time@
            + metrics.stake_locktime@ <= u256_max() ==> (planned matches Err(error)
            ==> call_refusal(call) == Some(error@))),
        call matches StakingCall::Unlock { metrics, planned, .. } ==> (metrics.chain_time@
            + metrics.stake_locktime@ <= u256_max() && planned is Ok ==> call_refusal(call) is None),
{
}

/// Each reading is followed by the call of its action.
pub proof fn calls_follow_what_was_read(read: StakingDraftRead, call: StakingCall)
    ensures
        call_fits(read, call) <==> {
            ||| read is Balance && call is Stake
            ||| (read is Delegation || read is Undelegation) && call is Delegation
            ||| read is Unlock && call is Unlock
            ||| read is PrincipalClaim && call is PrincipalClaim
            ||| read is Rewards && call is RewardClaim
        },
{
}

/// What is guarded and planned holds the amount that is wanted, for the account and on the chain that
/// it was asked for.
pub proof fn plans_are_for_what_was_asked(
    guarded: GuardedProposal,
    proposal: PlannedProposal,
    staking: PlannedStaking,
)
    ensures
        guarded.wf() ==> guarded.amount@ == guarded.inputs.wanted(),
        proposal.wf() ==> proposal.amount@ == proposal.inputs.wanted() && proposal.context.actor
            == proposal.inputs.selection.actor && proposal.context.chain_id
            == proposal.inputs.key.context.chain_id,
        staking.wf() ==> staking.context.actor == staking.inputs.selection.actor
            && staking.context.chain_id == staking.inputs.context_key.chain_id,
{
}

} // verus!
