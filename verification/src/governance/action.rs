//! Governance actions: what they are about, how they are prepared, and when two are the same.
use crate::accounts::PublicAccountSource;
use crate::address::{Address, B256};
use crate::governance::model::{copy_items, ContextId, GovernanceContextKey, RewardBatchEvidence};
use crate::governance::rewards::PublicActionGasFeeSelection;
use crate::governance::staking::{ActionId, StakingActionSelection};
use crate::u256::U256;
use vstd::prelude::*;

verus! {

/// Whether both lists hold the same bytes.
pub fn same_bytes(a: &Vec<u8>, b: &Vec<u8>) -> (same: bool)
    ensures
        same == (a@ == b@),
{
    if a.len() != b.len() {
        return false;
    }
    let mut i: usize = 0;
    while i < a.len()
        invariant
            i <= a@.len() == b@.len(),
            forall|j: int| 0 <= j < i ==> a@[j] == b@[j],
        decreases a@.len() - i,
    {
        if a[i] != b[i] {
            assert(a@[i as int] != b@[i as int]);
            return false;
        }
        i += 1;
    }
    assert(a@ =~= b@);
    true
}

/// The voting contract that a proposal belongs to.
#[derive(Clone, Copy, Debug, PartialEq, Eq, Structural)]
pub enum GovernanceContractVersion {
    V1,
    V2,
}

/// A proposal as the chain has it.
#[derive(Debug, PartialEq, Eq)]
pub struct GovernanceProposal {
    pub contract_version: GovernanceContractVersion,
    pub index: U256,
    pub contract_address: Address,
    pub proposer: Address,
    pub proposal_document: String,
    pub publish_time: U256,
    pub vote_call_time: U256,
    pub sponsorship: U256,
    pub executed: bool,
    pub yay_votes: U256,
    pub nay_votes: U256,
    pub sponsor_snapshot_interval: U256,
    pub voting_snapshot_interval: U256,
    /// The encoded calls that the proposal makes when it is executed.
    pub actions: Vec<Vec<u8>>,
}

/// The numbers of a proposal.
#[derive(Clone, Copy, Debug, PartialEq, Eq, Structural)]
pub struct ProposalFacts {
    pub contract_version: GovernanceContractVersion,
    pub index: U256,
    pub contract_address: Address,
    pub proposer: Address,
    pub publish_time: U256,
    pub vote_call_time: U256,
    pub sponsorship: U256,
    pub executed: bool,
    pub yay_votes: U256,
    pub nay_votes: U256,
    pub sponsor_snapshot_interval: U256,
    pub voting_snapshot_interval: U256,
}

/// What a proposal says.
pub struct Proposal {
    pub facts: ProposalFacts,
    pub document: Seq<char>,
    pub actions: Seq<Seq<u8>>,
}

impl View for GovernanceProposal {
    type V = Proposal;

    open spec fn view(&self) -> Proposal {
        Proposal {
            facts: self.facts_spec(),
            document: self.proposal_document@,
            actions: self.actions@.map_values(|call: Vec<u8>| call@),
        }
    }
}

impl GovernanceProposal {
    /// The numbers of the proposal.
    pub open spec fn facts_spec(self) -> ProposalFacts {
        ProposalFacts {
            contract_version: self.contract_version,
            index: self.index,
            contract_address: self.contract_address,
            proposer: self.proposer,
            publish_time: self.publish_time,
            vote_call_time: self.vote_call_time,
            sponsorship: self.sponsorship,
            executed: self.executed,
            yay_votes: self.yay_votes,
            nay_votes: self.nay_votes,
            sponsor_snapshot_interval: self.sponsor_snapshot_interval,
            voting_snapshot_interval: self.voting_snapshot_interval,
        }
    }

    /// The numbers of the proposal.
    pub fn facts(&self) -> (facts: ProposalFacts)
        ensures
            facts == self@.facts,
            facts.contract_version == self.contract_version,
            facts.index == self.index,
            facts.contract_address == self.contract_address,
            facts.proposer == self.proposer,
            facts.publish_time == self.publish_time,
            facts.vote_call_time == self.vote_call_time,
            facts.sponsorship == self.sponsorship,
            facts.executed == self.executed,
            facts.yay_votes == self.yay_votes,
            facts.nay_votes == self.nay_votes,
            facts.sponsor_snapshot_interval == self.sponsor_snapshot_interval,
            facts.voting_snapshot_interval == self.voting_snapshot_interval,
    {
        ProposalFacts {
            contract_version: self.contract_version,
            index: self.index,
            contract_address: self.contract_address,
            proposer: self.proposer,
            publish_time: self.publish_time,
            vote_call_time: self.vote_call_time,
            sponsorship: self.sponsorship,
            executed: self.executed,
            yay_votes: self.yay_votes,
            nay_votes: self.nay_votes,
            sponsor_snapshot_interval: self.sponsor_snapshot_interval,
            voting_snapshot_interval: self.voting_snapshot_interval,
        }
    }

    /// Whether both say the same.
    pub fn same(&self, other: &GovernanceProposal) -> (same: bool)
        ensures
            same == (self@ == other@),
    {
        if self.facts() != other.facts() || self.proposal_document != other.proposal_document
            || self.actions.len() != other.actions.len() {
            proof {
                if self.actions@.len() != other.actions@.len() {
                    assert(self@.actions.len() != other@.actions.len());
                }
            }
            return false;
        }
        let mut i: usize = 0;
        while i < self.actions.len()
            invariant
                i <= self.actions@.len() == other.actions@.len(),
                forall|j: int| 0 <= j < i ==> self.actions@[j]@ == other.actions@[j]@,
            decreases self.actions@.len() - i,
        {
            if !same_bytes(&self.actions[i], &other.actions[i]) {
                assert(self@.actions[i as int] != other@.actions[i as int]);
                return false;
            }
            i += 1;
        }
        assert(self@.actions =~= other@.actions);
        true
    }

    /// A copy of this proposal.
    pub fn copy(&self) -> (copy: GovernanceProposal)
        ensures
            copy@ == self@,
    {
        let mut actions: Vec<Vec<u8>> = Vec::new();
        let mut i: usize = 0;
        while i < self.actions.len()
            invariant
                i <= self.actions@.len(),
                actions@.len() == i,
                forall|j: int| 0 <= j < i ==> actions@[j]@ == self.actions@[j]@,
            decreases self.actions@.len() - i,
        {
            actions.push(copy_items(&self.actions[i]));
            i += 1;
        }
        let copy = GovernanceProposal {
            contract_version: self.contract_version,
            index: self.index,
            contract_address: self.contract_address,
            proposer: self.proposer,
            proposal_document: self.proposal_document.clone(),
            publish_time: self.publish_time,
            vote_call_time: self.vote_call_time,
            sponsorship: self.sponsorship,
            executed: self.executed,
            yay_votes: self.yay_votes,
            nay_votes: self.nay_votes,
            sponsor_snapshot_interval: self.sponsor_snapshot_interval,
            voting_snapshot_interval: self.voting_snapshot_interval,
            actions,
        };
        assert(copy@.actions =~= self@.actions);
        copy
    }
}

/// An action on a proposal.
#[derive(Clone, Copy, Debug, PartialEq, Eq, Structural)]
pub enum ProposalActionKind {
    Sponsor,
    Unsponsor,
    CallVote,
    Yay,
    Nay,
}

/// An action on a proposal and the account that takes it.
#[derive(Clone, Copy, Debug, PartialEq, Eq, Structural)]
pub struct ProposalActionSelection {
    pub actor: Address,
    pub kind: ProposalActionKind,
}

/// The proposal and the context that a read of participation belongs to.
#[derive(Debug, PartialEq, Eq)]
pub struct ProposalParticipationKey {
    pub version: GovernanceContractVersion,
    pub contract: Address,
    pub index: U256,
    pub context: GovernanceContextKey,
}

/// What tells one read of participation from another.
pub struct ParticipationId {
    pub version: GovernanceContractVersion,
    pub contract: Address,
    pub index: U256,
    pub context: ContextId,
}

impl View for ProposalParticipationKey {
    type V = ParticipationId;

    open spec fn view(&self) -> ParticipationId {
        ParticipationId {
            version: self.version,
            contract: self.contract,
            index: self.index,
            context: self.context@,
        }
    }
}

impl ProposalParticipationKey {
    /// Whether both name the same proposal in the same context.
    pub fn same(&self, other: &ProposalParticipationKey) -> (same: bool)
        ensures
            same == (self@ == other@),
    {
        self.version == other.version && self.contract == other.contract && self.index
            == other.index && self.context.same(&other.context)
    }

    /// A copy of this key.
    pub fn copy(&self) -> (copy: ProposalParticipationKey)
        ensures
            copy@ == self@,
    {
        ProposalParticipationKey {
            version: self.version,
            contract: self.contract,
            index: self.index,
            context: self.context.copy(),
        }
    }
}

/// The key of a proposal in a context.
pub open spec fn participation_id(facts: ProposalFacts, context: ContextId) -> ParticipationId {
    ParticipationId {
        version: facts.contract_version,
        contract: facts.contract_address,
        index: facts.index,
        context,
    }
}

/// The key of a proposal in a context.
pub fn proposal_participation_key(
    proposal: &GovernanceProposal,
    context: GovernanceContextKey,
) -> (key: ProposalParticipationKey)
    ensures
        key@ == participation_id(proposal@.facts, context@),
        key.context == context,
        key.version == proposal.contract_version,
        key.contract == proposal.contract_address,
        key.index == proposal.index,
{
    ProposalParticipationKey {
        version: proposal.contract_version,
        contract: proposal.contract_address,
        index: proposal.index,
        context,
    }
}

/// Whether `expected_key` is the key of the proposal, of the selected proposal, and of the current
/// read of participation.
pub fn proposal_participation_key_matches(
    proposal: &GovernanceProposal,
    selected_proposal: Option<&GovernanceProposal>,
    context: &GovernanceContextKey,
    current_key: Option<&ProposalParticipationKey>,
    expected_key: &ProposalParticipationKey,
) -> (matches: bool)
    ensures
        matches == (participation_id(proposal@.facts, context@) == expected_key@ && (
        selected_proposal matches Some(selected) && participation_id(
            selected@.facts,
            context@,
        ) == expected_key@) && (current_key matches Some(current) && current@ == expected_key@)),
{
    let own = proposal_participation_key(proposal, context.copy());
    own.same(expected_key) && (match selected_proposal {
        Some(selected) => proposal_participation_key(selected, context.copy()).same(expected_key),
        None => false,
    }) && (match current_key {
        Some(current) => current.same(expected_key),
        None => false,
    })
}

/// How a draft was asked for.
#[allow(inconsistent_fields)]
pub enum GovernanceDraftRecipe {
    Proposal {
        proposal: GovernanceProposal,
        key: ProposalParticipationKey,
        selection: ProposalActionSelection,
        amount: Option<U256>,
    },
    Staking {
        selection: StakingActionSelection,
        context_key: GovernanceContextKey,
        amount_input: String,
        delegate_input: String,
        token_decimals: Option<u8>,
    },
}

/// What tells one request for a draft from another.
#[allow(inconsistent_fields)]
pub enum RecipeId {
    Proposal {
        proposal: Proposal,
        key: ParticipationId,
        selection: ProposalActionSelection,
        amount: Option<U256>,
    },
    Staking {
        selection: ActionId,
        context_key: ContextId,
        amount_input: Seq<char>,
        delegate_input: Seq<char>,
        token_decimals: Option<u8>,
    },
}

impl View for GovernanceDraftRecipe {
    type V = RecipeId;

    open spec fn view(&self) -> RecipeId {
        match *self {
            GovernanceDraftRecipe::Proposal { proposal, key, selection, amount } => {
                RecipeId::Proposal { proposal: proposal@, key: key@, selection, amount }
            },
            GovernanceDraftRecipe::Staking {
                selection,
                context_key,
                amount_input,
                delegate_input,
                token_decimals,
            } => RecipeId::Staking {
                selection: selection@,
                context_key: context_key@,
                amount_input: amount_input@,
                delegate_input: delegate_input@,
                token_decimals,
            },
        }
    }
}

impl GovernanceDraftRecipe {
    /// Whether both ask for the same draft.
    pub fn same(&self, other: &GovernanceDraftRecipe) -> (same: bool)
        ensures
            same == (self@ == other@),
    {
        match (self, other) {
            (
                GovernanceDraftRecipe::Proposal {
                    proposal: proposal_a,
                    key: key_a,
                    selection: selection_a,
                    amount: amount_a,
                },
                GovernanceDraftRecipe::Proposal {
                    proposal: proposal_b,
                    key: key_b,
                    selection: selection_b,
                    amount: amount_b,
                },
            ) => *selection_a == *selection_b && *amount_a == *amount_b && key_a.same(key_b)
                && proposal_a.same(proposal_b),
            (
                GovernanceDraftRecipe::Staking {
                    selection: selection_a,
                    context_key: key_a,
                    amount_input: amount_a,
                    delegate_input: delegate_a,
                    token_decimals: decimals_a,
                },
                GovernanceDraftRecipe::Staking {
                    selection: selection_b,
                    context_key: key_b,
                    amount_input: amount_b,
                    delegate_input: delegate_b,
                    token_decimals: decimals_b,
                },
            ) => selection_a.same(selection_b) && key_a.same(key_b) && *amount_a == *amount_b
                && *delegate_a == *delegate_b && *decimals_a == *decimals_b,
            _ => false,
        }
    }

    /// A copy of this recipe.
    pub fn copy(&self) -> (copy: GovernanceDraftRecipe)
        ensures
            copy@ == self@,
    {
        match self {
            GovernanceDraftRecipe::Proposal { proposal, key, selection, amount } => {
                GovernanceDraftRecipe::Proposal {
                    proposal: proposal.copy(),
                    key: key.copy(),
                    selection: *selection,
                    amount: *amount,
                }
            },
            GovernanceDraftRecipe::Staking {
                selection,
                context_key,
                amount_input,
                delegate_input,
                token_decimals,
            } => GovernanceDraftRecipe::Staking {
                selection: selection.copy(),
                context_key: context_key.copy(),
                amount_input: amount_input.clone(),
                delegate_input: delegate_input.clone(),
                token_decimals: *token_decimals,
            },
        }
    }
}

/// What is read again once an action went through.
pub enum GovernanceRefreshTarget {
    Proposal(ProposalParticipationKey),
    Staking(GovernanceContextKey),
}

/// What tells one target from another.
pub enum TargetId {
    Proposal(ParticipationId),
    Staking(ContextId),
}

impl View for GovernanceRefreshTarget {
    type V = TargetId;

    open spec fn view(&self) -> TargetId {
        match *self {
            GovernanceRefreshTarget::Proposal(key) => TargetId::Proposal(key@),
            GovernanceRefreshTarget::Staking(key) => TargetId::Staking(key@),
        }
    }
}

impl TargetId {
    /// The context that the target belongs to.
    pub open spec fn context(self) -> ContextId {
        match self {
            TargetId::Proposal(key) => key.context,
            TargetId::Staking(key) => key,
        }
    }
}

impl GovernanceRefreshTarget {
    /// Whether both are the same target.
    pub fn same(&self, other: &GovernanceRefreshTarget) -> (same: bool)
        ensures
            same == (self@ == other@),
    {
        match (self, other) {
            (GovernanceRefreshTarget::Proposal(a), GovernanceRefreshTarget::Proposal(b)) => a.same(
                b,
            ),
            (GovernanceRefreshTarget::Staking(a), GovernanceRefreshTarget::Staking(b)) => a.same(b),
            _ => false,
        }
    }

    /// A copy of this target.
    pub fn copy(&self) -> (copy: GovernanceRefreshTarget)
        ensures
            copy@ == self@,
    {
        match self {
            GovernanceRefreshTarget::Proposal(key) => GovernanceRefreshTarget::Proposal(key.copy()),
            GovernanceRefreshTarget::Staking(key) => GovernanceRefreshTarget::Staking(key.copy()),
        }
    }

    /// The context that the target belongs to.
    pub fn context(&self) -> (context: &GovernanceContextKey)
        ensures
            context@ == self@.context(),
    {
        match self {
            GovernanceRefreshTarget::Proposal(key) => &key.context,
            GovernanceRefreshTarget::Staking(key) => key,
        }
    }
}

/// The contract that an action calls.
#[derive(Clone, Copy, Debug, PartialEq, Eq, Structural)]
pub enum GovernanceContractKind {
    Voting,
    Staking,
    GovernanceToken,
    GovernorRewards,
}

/// What an action does.
pub enum GovernanceActionIntent {
    Sponsor {
        proposal_version: GovernanceContractVersion,
        proposal_index: U256,
        amount: U256,
        snapshot_interval: U256,
        snapshot_hint: U256,
    },
    Unsponsor {
        proposal_version: GovernanceContractVersion,
        proposal_index: U256,
        amount: U256,
    },
    CallVote { proposal_version: GovernanceContractVersion, proposal_index: U256 },
    Yay {
        proposal_version: GovernanceContractVersion,
        proposal_index: U256,
        amount: U256,
        snapshot_interval: U256,
        snapshot_hint: U256,
    },
    Nay {
        proposal_version: GovernanceContractVersion,
        proposal_index: U256,
        amount: U256,
        snapshot_interval: U256,
        snapshot_hint: U256,
    },
    GovernanceTokenApproval { spender: Address, amount: U256 },
    Stake { amount: U256 },
    Delegate { stake_id: U256, delegate: Address },
    Undelegate { stake_id: U256 },
    Unlock { stake_id: U256 },
    PrincipalClaim { stake_id: U256 },
    RewardClaim {
        reward_tokens: Vec<Address>,
        starting_interval: U256,
        ending_interval: U256,
        snapshot_hints: Vec<U256>,
        expected_amounts: Vec<U256>,
    },
}

/// The wallet, account and contract that an action was prepared for, with the state that it was
/// prepared from.
pub struct GovernanceActionContext {
    pub private_wallet_uuid: String,
    pub chain_id: u64,
    pub public_account_uuid: String,
    pub actor: Address,
    pub contract: Address,
    pub contract_kind: GovernanceContractKind,
    pub observed_state: B256,
}

/// What tells one action context from another.
pub struct ActionContextId {
    pub private_wallet_uuid: Seq<char>,
    pub chain_id: u64,
    pub public_account_uuid: Seq<char>,
    pub actor: Address,
    pub contract: Address,
    pub contract_kind: GovernanceContractKind,
    pub observed_state: B256,
}

impl View for GovernanceActionContext {
    type V = ActionContextId;

    open spec fn view(&self) -> ActionContextId {
        ActionContextId {
            private_wallet_uuid: self.private_wallet_uuid@,
            chain_id: self.chain_id,
            public_account_uuid: self.public_account_uuid@,
            actor: self.actor,
            contract: self.contract,
            contract_kind: self.contract_kind,
            observed_state: self.observed_state,
        }
    }
}

impl GovernanceActionContext {
    /// Whether both are the same context.
    pub fn same(&self, other: &GovernanceActionContext) -> (same: bool)
        ensures
            same == (self@ == other@),
    {
        self.private_wallet_uuid == other.private_wallet_uuid && self.chain_id == other.chain_id
            && self.public_account_uuid == other.public_account_uuid && self.actor == other.actor
            && self.contract == other.contract && self.contract_kind == other.contract_kind
            && self.observed_state == other.observed_state
    }
}

/// The call that is signed.
pub struct RawCall {
    pub to: Address,
    pub value: U256,
    pub data: Vec<u8>,
}

/// What the call says.
pub struct Call {
    pub to: Address,
    pub value: U256,
    pub data: Seq<u8>,
}

impl View for RawCall {
    type V = Call;

    open spec fn view(&self) -> Call {
        Call { to: self.to, value: self.value, data: self.data@ }
    }
}

impl RawCall {
    /// Whether both are the same call.
    pub fn same(&self, other: &RawCall) -> (same: bool)
        ensures
            same == (self@ == other@),
    {
        self.to == other.to && self.value == other.value && same_bytes(&self.data, &other.data)
    }

    /// A copy of this call.
    pub fn copy(&self) -> (copy: RawCall)
        ensures
            copy@ == self@,
    {
        RawCall { to: self.to, value: self.value, data: copy_items(&self.data) }
    }
}

/// An action with the call that it came to.
pub struct GovernanceResolvedAction {
    pub intent: GovernanceActionIntent,
    pub raw: RawCall,
    pub fingerprint: B256,
}

/// What the node answered about the call.
#[derive(Clone, Copy, Debug, PartialEq, Eq, Structural)]
pub struct GovernanceEstimate {
    pub gas_limit: u64,
    pub raw_gas_limit: u64,
    pub max_fee_per_gas: u128,
    pub max_priority_fee_per_gas: u128,
    pub expected_fee_per_gas: u128,
    pub expected_gas_cost: U256,
    pub payload_fingerprint: B256,
}

/// What the review of an action shows of its call.
pub struct GovernanceActionReview {
    pub amount: Option<U256>,
    pub native_value: U256,
    pub calldata: Vec<u8>,
}

/// The stage of a proposal.
#[derive(Clone, Copy, Debug, PartialEq, Eq, Structural)]
pub enum GovernanceProposalStage {
    Sponsorship,
    Voting,
    Execution,
    Executed,
    Expired,
}

/// What an action on a proposal would leave.
#[derive(Clone, Copy, Debug, PartialEq, Eq, Structural)]
pub struct GovernanceProposalReviewProjection {
    pub stage: GovernanceProposalStage,
    pub power_remaining_after: Option<U256>,
    pub snapshot_power: Option<U256>,
    pub proposal_sponsorship_after: Option<U256>,
    pub sponsorship_threshold: Option<U256>,
}

/// What an action on a stake would change.
#[derive(Clone, Copy, Debug, PartialEq, Eq, Structural)]
pub enum GovernanceStakingReviewProjection {
    Stake { amount: U256 },
    Delegation { previous_delegate: Address, next_delegate: Address },
    Unlock {
        owner: Address,
        stake_id: U256,
        amount: U256,
        previous_delegate: Address,
        stake_locktime: U256,
        projected_claim_timestamp: U256,
    },
    PrincipalClaim { stake_id: U256, amount: U256 },
}

/// The second call that follows an action.
#[derive(Clone, Copy, Debug, PartialEq, Eq, Structural)]
pub enum GovernanceWorkflow {
    StakeApproval,
    UndelegateThenUnlock,
}

/// A step of a reward claim that was confirmed.
#[derive(Clone, Copy, Debug, PartialEq, Eq, Structural)]
pub struct RewardClaimConfirmedStep {
    pub starting_interval: U256,
    pub ending_interval: U256,
    pub transaction_hash: B256,
}

/// The steps of a reward claim that follow an action.
pub enum GovernanceContinuation {
    Reward { confirmed: Vec<RewardClaimConfirmedStep>, evidence: RewardBatchEvidence },
}

/// A reviewable Governance call.
pub struct GovernanceSpendDraft {
    pub target: GovernanceRefreshTarget,
    pub actor_uuid: String,
    pub actor: Address,
    pub actor_source: PublicAccountSource,
    pub context: GovernanceActionContext,
    pub resolved: GovernanceResolvedAction,
    pub review: GovernanceActionReview,
    pub proposal_review: Option<GovernanceProposalReviewProjection>,
    pub staking_review: Option<GovernanceStakingReviewProjection>,
    pub estimate: GovernanceEstimate,
    /// When the estimate came in, in nanoseconds on one monotonic clock.
    pub estimate_completed_at: u128,
    pub gas_fee: PublicActionGasFeeSelection,
    pub workflow: Option<GovernanceWorkflow>,
    pub continuation: Option<GovernanceContinuation>,
    pub recipe: GovernanceDraftRecipe,
}

/// What tells one draft from another.
pub struct DraftId {
    pub target: TargetId,
    pub actor_uuid: Seq<char>,
    pub actor: Address,
    pub actor_source: PublicAccountSource,
    pub context: ActionContextId,
    pub raw: Call,
    pub fingerprint: B256,
    pub estimate_completed_at: u128,
    pub recipe: RecipeId,
}

impl GovernanceSpendDraft {
    /// What tells this draft from another.
    pub open spec fn id(self) -> DraftId {
        DraftId {
            target: self.target@,
            actor_uuid: self.actor_uuid@,
            actor: self.actor,
            actor_source: self.actor_source,
            context: self.context@,
            raw: self.resolved.raw@,
            fingerprint: self.resolved.fingerprint,
            estimate_completed_at: self.estimate_completed_at,
            recipe: self.recipe@,
        }
    }

    /// Whether both are the same draft.
    pub fn same(&self, other: &GovernanceSpendDraft) -> (same: bool)
        ensures
            same == (self.id() == other.id()),
    {
        self.estimate_completed_at == other.estimate_completed_at && self.resolved.raw.same(
            &other.resolved.raw,
        ) && self.resolved.fingerprint == other.resolved.fingerprint && self.actor_uuid
            == other.actor_uuid && self.actor == other.actor && self.actor_source
            == other.actor_source && self.context.same(&other.context) && self.target.same(
            &other.target,
        ) && self.recipe.same(&other.recipe)
    }
}

/// The facts of a proposal are its own.
pub proof fn facts_are_of_their_proposal(proposal: GovernanceProposal)
    ensures
        proposal@.facts.contract_version == proposal.contract_version,
        proposal@.facts.index == proposal.index,
        proposal@.facts.contract_address == proposal.contract_address,
        proposal@.facts.proposer == proposal.proposer,
        proposal@.facts.publish_time == proposal.publish_time,
        proposal@.facts.vote_call_time == proposal.vote_call_time,
        proposal@.facts.sponsorship == proposal.sponsorship,
        proposal@.facts.executed == proposal.executed,
        proposal@.facts.yay_votes == proposal.yay_votes,
        proposal@.facts.nay_votes == proposal.nay_votes,
        proposal@.facts.sponsor_snapshot_interval == proposal.sponsor_snapshot_interval,
        proposal@.facts.voting_snapshot_interval == proposal.voting_snapshot_interval,
{
}

/// Two proposals are the same exactly where every fact, the document and every call are.
pub proof fn same_proposals_agree_in_everything(a: GovernanceProposal, b: GovernanceProposal)
    ensures
        a@ == b@ <==> a.contract_version == b.contract_version && a.index == b.index
            && a.contract_address == b.contract_address && a.proposer == b.proposer
            && a.publish_time == b.publish_time && a.vote_call_time == b.vote_call_time
            && a.sponsorship == b.sponsorship && a.executed == b.executed && a.yay_votes
            == b.yay_votes && a.nay_votes == b.nay_votes && a.sponsor_snapshot_interval
            == b.sponsor_snapshot_interval && a.voting_snapshot_interval
            == b.voting_snapshot_interval && a.proposal_document@ == b.proposal_document@
            && a.actions@.len() == b.actions@.len() && (forall|i: int|
            0 <= i < a.actions@.len() ==> (#[trigger] a.actions@[i])@ == b.actions@[i]@),
{
    if a@ == b@ {
        assert(a@.actions.len() == b@.actions.len());
        assert forall|i: int| 0 <= i < a.actions@.len() implies (#[trigger] a.actions@[i])@
            == b.actions@[i]@ by {
            assert(a@.actions[i] == b@.actions[i]);
        }
    }
    if a.actions@.len() == b.actions@.len() && (forall|i: int|
        0 <= i < a.actions@.len() ==> (#[trigger] a.actions@[i])@ == b.actions@[i]@) {
        assert(a@.actions =~= b@.actions);
    }
}

/// Two keys are the same exactly where contract version, contract, number and context are.
pub proof fn participation_keys_are_told_apart(
    a: ProposalParticipationKey,
    b: ProposalParticipationKey,
)
    ensures
        a@ == b@ <==> a.version == b.version && a.contract == b.contract && a.index == b.index
            && a.context@ == b.context@,
        a@.context == a.context@,
{
}

/// A key names the proposal by its version, its contract and its number, and nothing else of it.
pub proof fn keys_name_one_proposal(
    a: ProposalFacts,
    b: ProposalFacts,
    one: ContextId,
    other: ContextId,
)
    ensures
        participation_id(a, one) == participation_id(b, other) <==> a.contract_version
            == b.contract_version && a.contract_address == b.contract_address && a.index == b.index
            && one == other,
        participation_id(a, one).version == a.contract_version,
        participation_id(a, one).contract == a.contract_address,
        participation_id(a, one).index == a.index,
        participation_id(a, one).context == one,
{
}

/// Two recipes are the same exactly where what they were made of is.
pub proof fn recipes_are_told_apart(a: GovernanceDraftRecipe, b: GovernanceDraftRecipe)
    ensures
        a@ is Proposal <==> a is Proposal,
        a@ == b@ <==> match (a, b) {
            (
                GovernanceDraftRecipe::Proposal { proposal, key, selection, amount },
                GovernanceDraftRecipe::Proposal {
                    proposal: other_proposal,
                    key: other_key,
                    selection: other_selection,
                    amount: other_amount,
                },
            ) => proposal@ == other_proposal@ && key@ == other_key@ && selection.actor
                == other_selection.actor && selection.kind == other_selection.kind && amount
                == other_amount,
            (
                GovernanceDraftRecipe::Staking {
                    selection,
                    context_key,
                    amount_input,
                    delegate_input,
                    token_decimals,
                },
                GovernanceDraftRecipe::Staking {
                    selection: other_selection,
                    context_key: other_key,
                    amount_input: other_amount,
                    delegate_input: other_delegate,
                    token_decimals: other_decimals,
                },
            ) => selection@ == other_selection@ && context_key@ == other_key@ && amount_input@
                == other_amount@ && delegate_input@ == other_delegate@ && token_decimals
                == other_decimals,
            _ => false,
        },
{
}

/// A target is of the context of its key, and two are the same exactly where their keys are.
pub proof fn targets_are_told_apart(a: GovernanceRefreshTarget, b: GovernanceRefreshTarget)
    ensures
        a@ == b@ <==> match (a, b) {
            (GovernanceRefreshTarget::Proposal(one), GovernanceRefreshTarget::Proposal(other)) => {
                one@ == other@
            },
            (GovernanceRefreshTarget::Staking(one), GovernanceRefreshTarget::Staking(other)) => {
                one@ == other@
            },
            _ => false,
        },
        a matches GovernanceRefreshTarget::Proposal(key) ==> a@.context() == key.context@,
        a matches GovernanceRefreshTarget::Staking(key) ==> a@.context() == key@,
{
}

/// Two contexts of an action are the same exactly where wallet, chain, account, contract and the
/// observed state are.
pub proof fn action_contexts_are_told_apart(a: GovernanceActionContext, b: GovernanceActionContext)
    ensures
        a@ == b@ <==> a.private_wallet_uuid@ == b.private_wallet_uuid@ && a.chain_id == b.chain_id
            && a.public_account_uuid@ == b.public_account_uuid@ && a.actor == b.actor && a.contract
            == b.contract && a.contract_kind == b.contract_kind && a.observed_state
            == b.observed_state,
{
}

/// Two calls are the same exactly where receiver, value and data are.
pub proof fn calls_are_told_apart(a: RawCall, b: RawCall)
    ensures
        a@ == b@ <==> a.to == b.to && a.value == b.value && a.data@ == b.data@,
{
}

/// A draft is the one that is held exactly where who acts, on what, with which call, from which
/// recipe and when it was estimated are the same.
pub proof fn drafts_are_told_apart(a: GovernanceSpendDraft, b: GovernanceSpendDraft)
    ensures
        a.id() == b.id() <==> a.target@ == b.target@ && a.actor_uuid@ == b.actor_uuid@ && a.actor
            == b.actor && a.actor_source == b.actor_source && a.context@ == b.context@
            && a.resolved.raw@ == b.resolved.raw@ && a.resolved.fingerprint
            == b.resolved.fingerprint && a.estimate_completed_at == b.estimate_completed_at
            && a.recipe@ == b.recipe@,
{
}

/// Everything that is told of a `ProposalParticipationKey` is its own, under its own name.
pub proof fn proposal_participation_key_is_told_as_it_is(kept: ProposalParticipationKey)
    ensures
        kept@.version == kept.version,
        kept@.contract == kept.contract,
        kept@.index == kept.index,
        kept@.context == kept.context@,
{
}

/// Everything that is told of a `GovernanceActionContext` is its own, under its own name.
pub proof fn governance_action_context_is_told_as_it_is(kept: GovernanceActionContext)
    ensures
        kept@.private_wallet_uuid == kept.private_wallet_uuid@,
        kept@.chain_id == kept.chain_id,
        kept@.public_account_uuid == kept.public_account_uuid@,
        kept@.actor == kept.actor,
        kept@.contract == kept.contract,
        kept@.contract_kind == kept.contract_kind,
        kept@.observed_state == kept.observed_state,
{
}

/// Everything that is told of a `RawCall` is its own, under its own name.
pub proof fn raw_call_is_told_as_it_is(kept: RawCall)
    ensures
        kept@.to == kept.to,
        kept@.value == kept.value,
        kept@.data == kept.data@,
{
}

/// What a draft is known by is its own, under its own name.
pub proof fn drafts_are_known_by_what_they_are(draft: GovernanceSpendDraft)
    ensures
        draft.id().target == draft.target@,
        draft.id().actor_uuid == draft.actor_uuid@,
        draft.id().actor == draft.actor,
        draft.id().actor_source == draft.actor_source,
        draft.id().context == draft.context@,
        draft.id().raw == draft.resolved.raw@,
        draft.id().fingerprint == draft.resolved.fingerprint,
        draft.id().estimate_completed_at == draft.estimate_completed_at,
        draft.id().recipe == draft.recipe@,
        draft.recipe matches GovernanceDraftRecipe::Proposal { proposal, key, selection, amount }
            ==> draft.recipe@ == (RecipeId::Proposal {
            proposal: proposal@,
            key: key@,
            selection,
            amount,
        }),
        draft.recipe matches GovernanceDraftRecipe::Staking {
            selection,
            context_key,
            amount_input,
            delegate_input,
            token_decimals,
        } ==> draft.recipe@ == (RecipeId::Staking {
            selection: selection@,
            context_key: context_key@,
            amount_input: amount_input@,
            delegate_input: delegate_input@,
            token_decimals,
        }),
{
}

} // verus!
