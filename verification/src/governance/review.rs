//! Reviewing an action: when a draft of it may be prepared, and when a draft is still the one that
//! was reviewed.
use crate::accounts::{PublicAccountMetadata, PublicAccountSource, PublicAccountStatus};
use crate::address::Address;
use crate::governance::action::{
    participation_id, proposal_participation_key, proposal_participation_key_matches,
    GovernanceActionReview, GovernanceDraftRecipe, GovernanceEstimate, GovernanceProposal,
    GovernanceRefreshTarget, GovernanceSpendDraft, ParticipationId, ProposalActionSelection,
    ProposalFacts, ProposalParticipationKey, RecipeId, TargetId,
};
use crate::governance::action_form::{actor_position, find_actor};
use crate::governance::authorization::{
    governance_authorization_estimate_is_fresh, governance_expired_authorization_disposition,
    optional_recipe, staking_action_identity_matches, staking_identity,
    GovernanceExpiredAuthorizationDisposition, GOVERNANCE_SPEND_AUTHORIZATION_TTL,
};
use crate::governance::flow::{GovernanceActionFlowState, GovernanceActionSelection};
use crate::governance::model::GovernanceContextKey;
use crate::governance::rewards::PublicActionGasFeeSelection;
use crate::governance::staking::{next_generation, ActionId, StakingActionKind};
use crate::governance::state::{GovernanceState, GasFeeEditor};
use crate::text::{optional_text, same_text};
use crate::u256::U256;
use vstd::prelude::*;

verus! {

/// The wallet, chain, enrolled accounts and proposal that are selected.
pub struct ReviewContext<'a> {
    pub wallet_id: Option<&'a str>,
    pub chain_id: u64,
    pub context_key: &'a GovernanceContextKey,
    pub participants: &'a Vec<PublicAccountMetadata>,
    pub selected_proposal: Option<&'a GovernanceProposal>,
    /// Whether the wallet is unlocked.
    pub vault_open: bool,
    /// Whether the wallet's vault can be read.
    pub vault_stored: bool,
}

/// The inputs of a staking action.
pub struct StakingInputs<'a> {
    pub amount: &'a str,
    pub delegate: &'a str,
    pub token_decimals: Option<u8>,
    /// Whether the chain is enabled.
    pub chain_enabled: bool,
    /// The fee caps that the inputs parse to, or what is wrong with them.
    pub gas_fee: Result<PublicActionGasFeeSelection, String>,
}

/// How a review begins.
pub enum ReviewStart {
    /// There is nothing to review, or a review is under way.
    Ignored,
    /// The action is refused, and the dialog says why.
    Refused,
    /// A draft is prepared, under this generation, for this account.
    Begun {
        generation: u64,
        actor_uuid: String,
        actor_source: PublicAccountSource,
        gas_fee: PublicActionGasFeeSelection,
    },
}

/// Whether an action is reviewed.
pub enum Verdict {
    Ignore,
    Refuse(Seq<char>),
    RefuseFee(String),
    Begin(PublicAccountMetadata, PublicActionGasFeeSelection),
}

/// Whether the staking action that is open is reviewed.
pub open spec fn staking_verdict(
    state: GovernanceState,
    context: ReviewContext,
    inputs: StakingInputs,
) -> Verdict {
    match state.action_flow.selection {
        Some(GovernanceActionSelection::Staking(selection)) => if state.action_flow.pending {
            Verdict::Ignore
        } else if state.staking@.key != Some(context.context_key@) || !state.staking@.selection_ready(
            selection@,
        ) {
            Verdict::Refuse("Refresh staking data before reviewing this action"@)
        } else if context.wallet_id is None {
            Verdict::Refuse("Select a wallet before reviewing this action"@)
        } else {
            match find_actor(context.participants@, selection.actor_uuid@, selection.actor) {
                None => Verdict::Refuse("Selected Public account is no longer enrolled"@),
                Some(account) => if account.status != PublicAccountStatus::Active {
                    Verdict::Refuse("Inactive participant accounts are read-only"@)
                } else if !context.vault_open {
                    Verdict::Refuse("Wallet vault is locked"@)
                } else if !context.vault_stored {
                    Verdict::Refuse("Wallet vault storage is unavailable"@)
                } else if !inputs.chain_enabled {
                    Verdict::Ignore
                } else {
                    match selection.kind {
                        StakingActionKind::RewardClaimSelected { tokens } => if tokens@.len() == 0 {
                            Verdict::Refuse("Select at least one reward to claim"@)
                        } else {
                            match inputs.gas_fee {
                                Ok(caps) => Verdict::Begin(account, caps),
                                Err(error) => Verdict::RefuseFee(error),
                            }
                        },
                        _ => Verdict::Begin(account, PublicActionGasFeeSelection::Auto),
                    }
                },
            }
        },
        _ => Verdict::Ignore,
    }
}

/// The state after an action was refused.
pub open spec fn refused(
    before: GovernanceState,
    after: GovernanceState,
    error: Seq<char>,
) -> bool {
    optional_text(after.action_flow.error) == Some(error) && after == (GovernanceState {
        action_flow: GovernanceActionFlowState {
            error: after.action_flow.error,
            ..before.action_flow
        },
        ..before
    })
}

/// The state after a review began.
pub open spec fn review_begun(
    before: GovernanceState,
    after: GovernanceState,
    recipe: RecipeId,
) -> bool {
    optional_recipe(after.action_flow.recipe) == Some(recipe) && after == (GovernanceState {
        action_flow: GovernanceActionFlowState {
            generation: next_generation(before.action_flow.generation),
            recipe: after.action_flow.recipe,
            pending: true,
            error: None,
            draft: None,
            ..before.action_flow
        },
        ..before
    })
}

/// The first enrolled account with this address.
pub open spec fn find_by_address(accounts: Seq<PublicAccountMetadata>, address: Address) -> Option<
    PublicAccountMetadata,
>
    decreases accounts.len(),
{
    if accounts.len() == 0 {
        None
    } else {
        match find_by_address(accounts.drop_last(), address) {
            Some(found) => Some(found),
            None => if accounts.last().address == address {
                Some(accounts.last())
            } else {
                None
            },
        }
    }
}

proof fn lemma_find_by_address_early(
    accounts: Seq<PublicAccountMetadata>,
    address: Address,
    count: int,
)
    requires
        0 <= count <= accounts.len(),
        find_by_address(accounts.take(count), address) is Some,
    ensures
        find_by_address(accounts, address) == find_by_address(accounts.take(count), address),
    decreases accounts.len(),
{
    if count == accounts.len() {
        assert(accounts.take(count) =~= accounts);
    } else {
        assert(accounts.drop_last().take(count) =~= accounts.take(count));
        lemma_find_by_address_early(accounts.drop_last(), address, count);
    }
}

fn position_by_address(accounts: &Vec<PublicAccountMetadata>, address: Address) -> (at: Option<
    usize,
>)
    ensures
        match at {
            Some(i) => i < accounts@.len() && find_by_address(accounts@, address) == Some(
                accounts@[i as int],
            ),
            None => find_by_address(accounts@, address) is None,
        },
{
    let mut i: usize = 0;
    while i < accounts.len()
        invariant
            i <= accounts@.len(),
            find_by_address(accounts@.take(i as int), address) is None,
        decreases accounts@.len() - i,
    {
        proof {
            assert(accounts@.take(i + 1).drop_last() =~= accounts@.take(i as int));
            assert(accounts@.take(i + 1).last() == accounts@[i as int]);
        }
        if accounts[i].address == address {
            proof {
                lemma_find_by_address_early(accounts@, address, i + 1);
            }
            return Some(i);
        }
        i += 1;
    }
    assert(accounts@.take(i as int) =~= accounts@);
    None
}

/// Whether a proposal and its key are still those that are shown and read.
pub open spec fn proposal_current(
    state: GovernanceState,
    facts: ProposalFacts,
    key: ParticipationId,
    context: ReviewContext,
) -> bool {
    participation_id(facts, context.context_key@) == key && (context.selected_proposal matches Some(
        selected,
    ) && participation_id(selected@.facts, context.context_key@) == key)
        && state.proposal_participation@.key == Some(key)
}

/// Whether an action on a proposal is reviewed.
pub open spec fn proposal_verdict(
    state: GovernanceState,
    proposal: GovernanceProposal,
    selection: ProposalActionSelection,
    context: ReviewContext,
) -> Verdict {
    if state.action_flow.pending {
        Verdict::Ignore
    } else if !proposal_current(
        state,
        proposal@.facts,
        participation_id(proposal@.facts, context.context_key@),
        context,
    ) {
        Verdict::Refuse("Selected proposal changed; refresh before reviewing this action"@)
    } else if context.wallet_id is None {
        Verdict::Refuse("Select a wallet before reviewing this action"@)
    } else {
        match find_by_address(context.participants@, selection.actor) {
            None => Verdict::Refuse("Selected Public account is no longer enrolled"@),
            Some(account) => if !context.vault_open {
                Verdict::Refuse("Wallet vault is locked"@)
            } else if !context.vault_stored {
                Verdict::Refuse("Wallet vault storage is unavailable"@)
            } else {
                Verdict::Begin(account, PublicActionGasFeeSelection::Auto)
            },
        }
    }
}

/// Whether an enrolled account with this identifier and address is active.
pub open spec fn active_participant(
    accounts: Seq<PublicAccountMetadata>,
    uuid: Seq<char>,
    address: Address,
) -> bool {
    exists|i: int|
        0 <= i < accounts.len() && (#[trigger] accounts[i]).public_account_uuid@ == uuid
            && accounts[i].address == address && accounts[i].status == PublicAccountStatus::Active
}

fn has_active_participant(accounts: &Vec<PublicAccountMetadata>, uuid: &str, address: Address) -> (
    found: bool)
    ensures
        found == active_participant(accounts@, uuid@, address),
{
    let mut i: usize = 0;
    while i < accounts.len()
        invariant
            i <= accounts@.len(),
            forall|j: int|
                0 <= j < i ==> !((#[trigger] accounts@[j]).public_account_uuid@ == uuid@
                    && accounts@[j].address == address && accounts@[j].status
                    == PublicAccountStatus::Active),
        decreases accounts@.len() - i,
    {
        if same_text(&accounts[i].public_account_uuid, uuid) && accounts[i].address == address
            && accounts[i].status == PublicAccountStatus::Active {
            assert(accounts@[i as int].address == address);
            return true;
        }
        i += 1;
    }
    false
}

/// Whether a draft is the prepared one, for the wallet, chain and accounts that are selected and
/// the action that is open.
pub open spec fn identity_matches(
    state: GovernanceState,
    draft: GovernanceSpendDraft,
    context: ReviewContext,
) -> bool {
    &&& state.action_flow.draft matches Some(current) && current.id() == draft.id()
    &&& crate::governance::participants::wallet_text(context.wallet_id) == Some(
        draft.context.private_wallet_uuid@,
    )
    &&& context.chain_id == draft.context.chain_id
    &&& context.context_key@ == draft.target@.context()
    &&& active_participant(context.participants@, draft.actor_uuid@, draft.actor)
    &&& match (draft.target@, draft.recipe@) {
        (TargetId::Proposal(target_key), RecipeId::Proposal { proposal, key, .. }) => target_key
            == key && proposal_current(state, proposal.facts, key, context),
        (TargetId::Staking(context_key), RecipeId::Staking { .. }) => state.staking@.key == Some(
            context_key,
        ) && staking_identity(
            state.open_staking_action_id(),
            optional_recipe(state.action_flow.recipe),
            draft.target@,
            draft.recipe@,
        ),
        _ => false,
    }
}

/// Whether a draft may be shown for authorization: it is the prepared one, and what was read still
/// allows a staking action.
pub open spec fn admission_matches(
    state: GovernanceState,
    draft: GovernanceSpendDraft,
    context: ReviewContext,
) -> bool {
    identity_matches(state, draft, context) && match draft.recipe@ {
        RecipeId::Staking { selection, .. } => state.staking@.selection_ready(selection),
        _ => true,
    }
}

/// The error of a draft that is not the prepared one any more.
pub open spec fn context_changed() -> Seq<char> {
    "Governance context changed; review the action again"@
}

/// The state after an authorization was rejected.
pub open spec fn rejected(
    before: GovernanceState,
    after: GovernanceState,
    error: Seq<char>,
) -> bool {
    optional_text(after.action_flow.error) == Some(error) && after == (GovernanceState {
        action_flow: GovernanceActionFlowState {
            draft: None,
            error: after.action_flow.error,
            ..before.action_flow
        },
        ..before
    })
}

/// What becomes of a draft that was prepared.
#[derive(Clone, Copy, Debug, PartialEq, Eq, Structural)]
pub enum AuthorizationStart {
    Ignored,
    Rejected,
    /// The draft is shown for authorization, on the hardware wallet or with the password.
    Open { hardware: bool },
}

/// What becomes of a draft that was authorized.
#[derive(Clone, Copy, Debug, PartialEq, Eq, Structural)]
pub enum AuthorizedNext {
    Rejected,
    Submit,
    /// Its estimate is too old: the call is estimated again, under this generation.
    Reestimate { generation: u64 },
}

/// What is read again once an action went through.
#[derive(Clone, Copy, Debug, PartialEq, Eq, Structural)]
pub struct TargetRefresh {
    /// What the accounts may do about the proposal that is shown.
    pub participation: bool,
    pub staking: bool,
    /// The page of the proposal that is shown.
    pub proposal_page: bool,
}

impl GovernanceState {
    /// The staking action that is open.
    pub open spec fn open_staking_action_id(self) -> Option<ActionId> {
        match self.action_flow.selection {
            Some(GovernanceActionSelection::Staking(selection)) => Some(selection@),
            _ => None,
        }
    }

    /// Refuses the open action.
    fn refuse(&mut self, error: &str)
        ensures
            refused(*old(self), *final(self), error@),
    {
        self.action_flow.error = Some(error.to_owned());
    }

    /// Begins to prepare a draft.
    fn begin_review(&mut self, recipe: GovernanceDraftRecipe) -> (generation: u64)
        ensures
            review_begun(*old(self), *final(self), recipe@),
            generation == next_generation(old(self).action_flow.generation),
    {
        let generation: u64 = self.action_flow.generation.wrapping_add(1);
        self.action_flow.generation = generation;
        self.action_flow.recipe = Some(recipe);
        self.action_flow.pending = true;
        self.action_flow.error = None;
        self.action_flow.draft = None;
        generation
    }

    /// Reviews the staking action that is open: a draft of it is prepared from these inputs, or
    /// the dialog says why not.
    pub fn review_staking_action(&mut self, context: &ReviewContext, inputs: StakingInputs) -> (
        start: ReviewStart)
        ensures
            match staking_verdict(*old(self), *context, inputs) {
                Verdict::Ignore => start is Ignored && *final(self) == *old(self),
                Verdict::Refuse(error) => start is Refused && refused(
                    *old(self),
                    *final(self),
                    error,
                ),
                Verdict::RefuseFee(error) => start is Refused && *final(self) == (GovernanceState {
                    reward_gas_fee: GasFeeEditor {
                        error: Some(error),
                        ..old(self).reward_gas_fee
                    },
                    ..*old(self)
                }),
                Verdict::Begin(account, caps) => (start matches ReviewStart::Begun {
                    generation,
                    actor_uuid,
                    actor_source,
                    gas_fee,
                } && generation == next_generation(old(self).action_flow.generation)
                    && actor_uuid@ == account.public_account_uuid@ && actor_source == account.source
                    && gas_fee == caps) && review_begun(
                    *old(self),
                    *final(self),
                    RecipeId::Staking {
                        selection: old(self).open_staking_action_id().unwrap(),
                        context_key: context.context_key@,
                        amount_input: inputs.amount@,
                        delegate_input: inputs.delegate@,
                        token_decimals: inputs.token_decimals,
                    },
                ),
            },
    {
        if self.action_flow.pending {
            return ReviewStart::Ignored;
        }
        let selection = match self.action_flow.staking_selection() {
            Some(selection) => selection.copy(),
            None => return ReviewStart::Ignored,
        };
        let current = match &self.staking.key {
            Some(key) => key.same(context.context_key),
            None => false,
        };
        if !current || !self.staking.action_selection_ready(&selection) {
            self.refuse("Refresh staking data before reviewing this action");
            return ReviewStart::Refused;
        }
        if context.wallet_id.is_none() {
            self.refuse("Select a wallet before reviewing this action");
            return ReviewStart::Refused;
        }
        let at: usize = match actor_position(
            context.participants,
            &selection.actor_uuid,
            selection.actor,
        ) {
            Some(at) => at,
            None => {
                self.refuse("Selected Public account is no longer enrolled");
                return ReviewStart::Refused;
            },
        };
        let account = &context.participants[at];
        if account.status != PublicAccountStatus::Active {
            self.refuse("Inactive participant accounts are read-only");
            return ReviewStart::Refused;
        }
        if !context.vault_open {
            self.refuse("Wallet vault is locked");
            return ReviewStart::Refused;
        }
        if !context.vault_stored {
            self.refuse("Wallet vault storage is unavailable");
            return ReviewStart::Refused;
        }
        if !inputs.chain_enabled {
            return ReviewStart::Ignored;
        }
        let gas_fee = match &selection.kind {
            StakingActionKind::RewardClaimSelected { tokens } => {
                if tokens.len() == 0 {
                    self.refuse("Select at least one reward to claim");
                    return ReviewStart::Refused;
                }
                match inputs.gas_fee {
                    Ok(caps) => caps,
                    Err(error) => {
                        self.reward_gas_fee.error = Some(error);
                        return ReviewStart::Refused;
                    },
                }
            },
            _ => PublicActionGasFeeSelection::Auto,
        };
        let generation: u64 = self.begin_review(
            GovernanceDraftRecipe::Staking {
                selection,
                context_key: context.context_key.copy(),
                amount_input: inputs.amount.to_owned(),
                delegate_input: inputs.delegate.to_owned(),
                token_decimals: inputs.token_decimals,
            },
        );
        ReviewStart::Begun {
            generation,
            actor_uuid: account.public_account_uuid.clone(),
            actor_source: account.source,
            gas_fee,
        }
    }

    /// Takes a prepared draft, or the error of preparing it.
    fn finish_review(&mut self, result: Result<GovernanceSpendDraft, String>) -> (draft: Option<
        GovernanceSpendDraft,
    >)
        ensures
            *final(self) == (GovernanceState {
                action_flow: GovernanceActionFlowState {
                    pending: false,
                    error: match result {
                        Ok(_) => old(self).action_flow.error,
                        Err(error) => Some(error),
                    },
                    ..old(self).action_flow
                },
                ..*old(self)
            }),
            draft == match result {
                Ok(prepared) => Some(prepared),
                Err(_) => None,
            },
    {
        self.action_flow.pending = false;
        match result {
            Ok(prepared) => Some(prepared),
            Err(error) => {
                self.action_flow.error = Some(error);
                None
            },
        }
    }

    /// Takes the draft of a staking action, where it was asked for by the review that is under way
    /// and the context is still the same. Returns the draft that is to be authorized.
    pub fn finish_staking_review(
        &mut self,
        generation: u64,
        recipe: &GovernanceDraftRecipe,
        current_key: &GovernanceContextKey,
        result: Result<GovernanceSpendDraft, String>,
    ) -> (draft: Option<GovernanceSpendDraft>)
        ensures
            ({
                let wanted = old(self).action_flow.generation == generation && (
                recipe@ matches RecipeId::Staking { context_key, .. } && context_key
                    == current_key@) && optional_recipe(old(self).action_flow.recipe) == Some(
                    recipe@,
                );
                &&& draft == match result {
                    Ok(prepared) => if wanted {
                        Some(prepared)
                    } else {
                        None
                    },
                    Err(_) => None,
                }
                &&& *final(self) == if wanted {
                    GovernanceState {
                        action_flow: GovernanceActionFlowState {
                            pending: false,
                            error: match result {
                                Ok(_) => old(self).action_flow.error,
                                Err(error) => Some(error),
                            },
                            ..old(self).action_flow
                        },
                        ..*old(self)
                    }
                } else {
                    *old(self)
                }
            }),
    {
        let wanted = match recipe {
            GovernanceDraftRecipe::Staking {
                selection,
                context_key,
                amount_input,
                delegate_input,
                token_decimals,
            } => self.action_flow.staking_recipe_matches(
                selection,
                context_key,
                amount_input,
                delegate_input,
                *token_decimals,
            ) && context_key.same(current_key),
            _ => false,
        };
        if self.action_flow.generation != generation || !wanted {
            return None;
        }
        self.finish_review(result)
    }

    /// Whether a proposal and its key are still those that are shown and read.
    pub fn proposal_participation_key_matches(
        &self,
        proposal: &GovernanceProposal,
        key: &ProposalParticipationKey,
        context: &ReviewContext,
    ) -> (matches: bool)
        ensures
            matches == proposal_current(*self, proposal@.facts, key@, *context),
    {
        proposal_participation_key_matches(
            proposal,
            context.selected_proposal,
            context.context_key,
            match &self.proposal_participation.key {
                Some(own) => Some(own),
                None => None,
            },
            key,
        )
    }

    /// Reviews an action on a proposal: a draft of it is prepared, or the dialog says why not. An
    /// action on a proposal that is not the shown one any more is dropped.
    pub fn review_proposal_action(
        &mut self,
        proposal: &GovernanceProposal,
        selection: ProposalActionSelection,
        amount: Option<U256>,
        context: &ReviewContext,
    ) -> (start: ReviewStart)
        ensures
            ({
                let key = participation_id(proposal@.facts, context.context_key@);
                let changed = !old(self).action_flow.pending && !proposal_current(
                    *old(self),
                    proposal@.facts,
                    key,
                    *context,
                );
                match proposal_verdict(*old(self), *proposal, selection, *context) {
                    Verdict::Ignore => start is Ignored && *final(self) == *old(self),
                    Verdict::Refuse(error) => start is Refused && if changed {
                        refused(
                            GovernanceState {
                                action_flow: GovernanceActionFlowState {
                                    selection: None,
                                    draft: None,
                                    ..old(self).action_invalidated().action_flow
                                },
                                ..old(self).action_invalidated()
                            },
                            *final(self),
                            error,
                        )
                    } else {
                        refused(*old(self), *final(self), error)
                    },
                    Verdict::RefuseFee(_) => false,
                    Verdict::Begin(account, caps) => (start matches ReviewStart::Begun {
                        generation,
                        actor_uuid,
                        actor_source,
                        gas_fee,
                    } && generation == next_generation(old(self).action_flow.generation)
                        && actor_uuid@ == account.public_account_uuid@ && actor_source
                        == account.source && gas_fee == caps) && review_begun(
                        *old(self),
                        *final(self),
                        RecipeId::Proposal { proposal: proposal@, key, selection, amount },
                    ),
                }
            }),
    {
        if self.action_flow.pending {
            return ReviewStart::Ignored;
        }
        let key = proposal_participation_key(proposal, context.context_key.copy());
        if !self.proposal_participation_key_matches(proposal, &key, context) {
            self.invalidate_action();
            self.action_flow.selection = None;
            self.action_flow.draft = None;
            self.refuse("Selected proposal changed; refresh before reviewing this action");
            return ReviewStart::Refused;
        }
        if context.wallet_id.is_none() {
            self.refuse("Select a wallet before reviewing this action");
            return ReviewStart::Refused;
        }
        let at: usize = match position_by_address(context.participants, selection.actor) {
            Some(at) => at,
            None => {
                self.refuse("Selected Public account is no longer enrolled");
                return ReviewStart::Refused;
            },
        };
        if !context.vault_open {
            self.refuse("Wallet vault is locked");
            return ReviewStart::Refused;
        }
        if !context.vault_stored {
            self.refuse("Wallet vault storage is unavailable");
            return ReviewStart::Refused;
        }
        let generation: u64 = self.begin_review(
            GovernanceDraftRecipe::Proposal { proposal: proposal.copy(), key, selection, amount },
        );
        let account = &context.participants[at];
        ReviewStart::Begun {
            generation,
            actor_uuid: account.public_account_uuid.clone(),
            actor_source: account.source,
            gas_fee: PublicActionGasFeeSelection::Auto,
        }
    }

    /// Takes the draft of an action on a proposal, where it was asked for by the review that is
    /// under way, and the context and the proposal are still the same. Returns the draft that is
    /// to be authorized.
    pub fn finish_proposal_review(
        &mut self,
        generation: u64,
        proposal: &GovernanceProposal,
        key: &ProposalParticipationKey,
        selection: ProposalActionSelection,
        amount: Option<U256>,
        context: &ReviewContext,
        result: Result<GovernanceSpendDraft, String>,
    ) -> (draft: Option<GovernanceSpendDraft>)
        ensures
            ({
                let wanted = old(self).action_flow.generation == generation
                    && (old(self).action_flow.recipe matches Some(recipe)
                    && recipe@ matches RecipeId::Proposal {
                    key: own_key,
                    selection: own_selection,
                    amount: own_amount,
                    ..
                } && own_key == key@ && own_selection == selection && own_amount == amount)
                    && context.context_key@ == key@.context && proposal_current(
                    *old(self),
                    proposal@.facts,
                    key@,
                    *context,
                );
                &&& draft == match result {
                    Ok(prepared) => if wanted {
                        Some(prepared)
                    } else {
                        None
                    },
                    Err(_) => None,
                }
                &&& *final(self) == if wanted {
                    GovernanceState {
                        action_flow: GovernanceActionFlowState {
                            pending: false,
                            error: match result {
                                Ok(_) => old(self).action_flow.error,
                                Err(error) => Some(error),
                            },
                            ..old(self).action_flow
                        },
                        ..*old(self)
                    }
                } else {
                    *old(self)
                }
            }),
    {
        if self.action_flow.generation != generation || !self.action_flow.proposal_recipe_matches(
            key,
            selection,
            amount,
        ) || !context.context_key.same(&key.context) || !self.proposal_participation_key_matches(
            proposal,
            key,
            context,
        ) {
            return None;
        }
        self.finish_review(result)
    }

    /// Whether a draft is the prepared one, for the wallet, chain and accounts that are selected
    /// and the action that is open.
    pub fn governance_authorization_identity_matches(
        &self,
        draft: &GovernanceSpendDraft,
        context: &ReviewContext,
    ) -> (matches: bool)
        ensures
            matches == identity_matches(*self, *draft, *context),
    {
        let prepared = match &self.action_flow.draft {
            Some(current) => current.same(draft),
            None => false,
        };
        if !prepared {
            return false;
        }
        let own_wallet = match context.wallet_id {
            Some(wallet) => same_text(wallet, &draft.context.private_wallet_uuid),
            None => false,
        };
        if !own_wallet || context.chain_id != draft.context.chain_id || !context.context_key.same(
            draft.target.context(),
        ) || !has_active_participant(context.participants, &draft.actor_uuid, draft.actor) {
            return false;
        }
        match (&draft.target, &draft.recipe) {
            (
                GovernanceRefreshTarget::Proposal(target_key),
                GovernanceDraftRecipe::Proposal { proposal, key, .. },
            ) => target_key.same(key) && self.proposal_participation_key_matches(
                proposal,
                key,
                context,
            ),
            (
                GovernanceRefreshTarget::Staking(context_key),
                GovernanceDraftRecipe::Staking { .. },
            ) => (match &self.staking.key {
                Some(key) => key.same(context_key),
                None => false,
            }) && staking_action_identity_matches(
                self.action_flow.staking_selection(),
                &self.action_flow.recipe,
                &draft.target,
                &draft.recipe,
            ),
            _ => false,
        }
    }

    /// Whether a draft may be shown for authorization.
    pub fn governance_authorization_admission_matches(
        &self,
        draft: &GovernanceSpendDraft,
        context: &ReviewContext,
    ) -> (matches: bool)
        ensures
            matches == admission_matches(*self, *draft, *context),
    {
        if !self.governance_authorization_identity_matches(draft, context) {
            return false;
        }
        match &draft.recipe {
            GovernanceDraftRecipe::Staking { selection, .. } => self.staking.action_selection_ready(
                selection,
            ),
            _ => true,
        }
    }

    /// Rejects an authorization: the draft is dropped, and the dialog says why.
    pub fn reject_governance_authorization(&mut self, error: &str)
        ensures
            rejected(*old(self), *final(self), error@),
    {
        self.action_flow.draft = None;
        self.action_flow.error = Some(error.to_owned());
    }

    /// Takes a prepared draft, and shows it for authorization where it is still the one that was
    /// asked for.
    pub fn authorize_prepared_governance_draft(
        &mut self,
        draft: GovernanceSpendDraft,
        context: &ReviewContext,
    ) -> (start: AuthorizationStart)
        ensures
            ({
                let holding = GovernanceState {
                    action_flow: GovernanceActionFlowState {
                        draft: Some(draft),
                        ..old(self).action_flow
                    },
                    ..*old(self)
                };
                if admission_matches(holding, draft, *context) {
                    start == (AuthorizationStart::Open {
                        hardware: draft.actor_source is HardwareDerived,
                    }) && *final(self) == holding
                } else {
                    start is Rejected && rejected(*old(self), *final(self), context_changed())
                }
            }),
    {
        let hardware = matches!(draft.actor_source, PublicAccountSource::HardwareDerived);
        let ghost given = draft;
        self.action_flow.draft = Some(draft);
        let admitted = match &self.action_flow.draft {
            Some(held) => self.governance_authorization_admission_matches(held, context),
            None => false,
        };
        if !admitted {
            self.reject_governance_authorization(
                "Governance context changed; review the action again",
            );
            return AuthorizationStart::Rejected;
        }
        AuthorizationStart::Open { hardware }
    }

    /// Closes the action of a draft whose authorization was cancelled.
    pub fn cancel_governance_authorization(&mut self, target: &GovernanceRefreshTarget)
        ensures
            *final(self) == match *target {
                GovernanceRefreshTarget::Proposal(_) => old(self).action_closed(),
                GovernanceRefreshTarget::Staking(_) => GovernanceState {
                    compact_position_details: None,
                    ..old(self).action_closed()
                },
            },
    {
        match target {
            GovernanceRefreshTarget::Proposal(_) => self.close_proposal_action(),
            GovernanceRefreshTarget::Staking(_) => self.close_staking_action(),
        }
    }

    /// Takes an authorized draft: it is submitted where it is still the prepared one and its
    /// estimate is fresh. An older call is estimated again first.
    pub fn revalidate_governance_authorized(
        &mut self,
        draft: &GovernanceSpendDraft,
        context: &ReviewContext,
        now: u128,
    ) -> (next: AuthorizedNext)
        ensures
            ({
                let age = if now >= draft.estimate_completed_at {
                    now - draft.estimate_completed_at
                } else {
                    0
                };
                if !identity_matches(*old(self), *draft, *context) {
                    next is Rejected && rejected(*old(self), *final(self), context_changed())
                } else if age < GOVERNANCE_SPEND_AUTHORIZATION_TTL {
                    next is Submit && *final(self) == *old(self)
                } else {
                    let generation = next_generation(old(self).action_flow.generation);
                    next == (AuthorizedNext::Reestimate { generation }) && *final(self) == (
                    GovernanceState {
                        action_flow: GovernanceActionFlowState {
                            generation,
                            pending: true,
                            ..old(self).action_flow
                        },
                        ..*old(self)
                    })
                }
            }),
            next is Submit && now >= draft.estimate_completed_at ==> now
                - draft.estimate_completed_at < 120_000_000_000,
            next is Reestimate ==> now >= draft.estimate_completed_at + 120_000_000_000,
            next is Reestimate ==> final(self).action_flow.pending
                && final(self).action_flow.generation != old(self).action_flow.generation,
            next is Submit ==> *final(self) == *old(self),
            next is Rejected ==> final(self).action_flow.draft is None,
    {
        if !self.governance_authorization_identity_matches(draft, context) {
            self.reject_governance_authorization(
                "Governance context changed; review the action again",
            );
            return AuthorizedNext::Rejected;
        }
        let age: u128 = now.saturating_sub(draft.estimate_completed_at);
        if governance_authorization_estimate_is_fresh(age) {
            return AuthorizedNext::Submit;
        }
        let generation: u64 = self.action_flow.generation.wrapping_add(1);
        self.action_flow.generation = generation;
        self.action_flow.pending = true;
        AuthorizedNext::Reestimate { generation }
    }

    /// Takes the new estimate of an expired draft: `review` is what the call shows with it. The
    /// draft is shown for authorization again, with the new estimate.
    pub fn finish_expired_estimate(
        &mut self,
        generation: u64,
        draft: GovernanceSpendDraft,
        context: &ReviewContext,
        estimate: Option<GovernanceEstimate>,
        review: Option<GovernanceActionReview>,
        now: u128,
    ) -> (start: AuthorizationStart)
        ensures
            ({
                let settled = GovernanceState {
                    action_flow: GovernanceActionFlowState {
                        pending: false,
                        ..old(self).action_flow
                    },
                    ..*old(self)
                };
                if old(self).action_flow.generation != generation {
                    start is Ignored && *final(self) == *old(self)
                } else if !identity_matches(*old(self), draft, *context) {
                    start is Rejected && rejected(settled, *final(self), context_changed())
                } else {
                    match (estimate, review) {
                        (None, _) => start is Rejected && rejected(
                            settled,
                            *final(self),
                            "Exact Governance call could not be re-estimated; review the action again"@,
                        ),
                        (Some(_), None) => start is Rejected && rejected(
                            settled,
                            *final(self),
                            "Exact Governance call review became invalid; review the action again"@,
                        ),
                        (Some(fresh), Some(shown)) => start == (AuthorizationStart::Open {
                            hardware: draft.actor_source is HardwareDerived,
                        }) && *final(self) == (GovernanceState {
                            action_flow: GovernanceActionFlowState {
                                draft: Some(
                                    GovernanceSpendDraft {
                                        estimate: fresh,
                                        estimate_completed_at: now,
                                        review: shown,
                                        ..draft
                                    },
                                ),
                                ..settled.action_flow
                            },
                            ..settled
                        }),
                    }
                }
            }),
    {
        let generation_current = self.action_flow.generation == generation;
        let disposition = governance_expired_authorization_disposition(
            generation_current,
            generation_current && self.governance_authorization_identity_matches(&draft, context),
        );
        match disposition {
            GovernanceExpiredAuthorizationDisposition::StaleGeneration => {
                return AuthorizationStart::Ignored;
            },
            GovernanceExpiredAuthorizationDisposition::CurrentIdentityMismatch => {
                self.action_flow.pending = false;
                self.reject_governance_authorization(
                    "Governance context changed; review the action again",
                );
                return AuthorizationStart::Rejected;
            },
            GovernanceExpiredAuthorizationDisposition::CurrentIdentityMatch => {},
        }
        self.action_flow.pending = false;
        let estimate = match estimate {
            Some(fresh) => fresh,
            None => {
                self.reject_governance_authorization(
                    "Exact Governance call could not be re-estimated; review the action again",
                );
                return AuthorizationStart::Rejected;
            },
        };
        let review = match review {
            Some(shown) => shown,
            None => {
                self.reject_governance_authorization(
                    "Exact Governance call review became invalid; review the action again",
                );
                return AuthorizationStart::Rejected;
            },
        };
        let hardware = matches!(draft.actor_source, PublicAccountSource::HardwareDerived);
        let mut refreshed = draft;
        refreshed.estimate = estimate;
        refreshed.estimate_completed_at = now;
        refreshed.review = review;
        self.action_flow.draft = Some(refreshed);
        AuthorizationStart::Open { hardware }
    }
}

/// A draft is authorized only for the context in which it was prepared: the wallet, the chain and
/// the enrolled accounts that are selected are those of the draft, and its account is active.
pub proof fn authorized_drafts_are_of_the_selected_context(
    state: GovernanceState,
    draft: GovernanceSpendDraft,
    context: ReviewContext,
)
    requires
        admission_matches(state, draft, context),
    ensures
        identity_matches(state, draft, context),
        context.context_key@ == draft.target@.context(),
        context.chain_id == draft.context.chain_id,
        active_participant(context.participants@, draft.actor_uuid@, draft.actor),
        draft.target@ is Proposal == draft.recipe@ is Proposal,
        state.action_flow.draft is Some,
{
}

/// Once the open action was invalidated, no draft of it is taken: neither one that is being
/// prepared nor an estimate that is under way.
pub proof fn invalidated_actions_take_no_draft(
    before: GovernanceState,
    generation: u64,
    recipe: RecipeId,
)
    requires
        before.action_flow.generation == generation,
    ensures
        before.action_invalidated().action_flow.generation != generation,
        optional_recipe(before.action_invalidated().action_flow.recipe) != Some(recipe),
        before.action_closed().action_flow.generation != generation,
        before.action_closed().action_flow.draft is None,
{
}

/// A staking review begins only where nothing is pending, the data is of the selected context and
/// ready, a wallet is selected, the account is enrolled and active, and the vault can be used.
pub proof fn staking_reviews_begin_when_everything_is_ready(
    state: GovernanceState,
    context: ReviewContext,
    inputs: StakingInputs,
)
    ensures
        staking_verdict(state, context, inputs) matches Verdict::Begin(account, _) ==> {
            &&& !state.action_flow.pending
            &&& state.staking@.key == Some(context.context_key@)
            &&& context.wallet_id is Some && context.vault_open && context.vault_stored
                && inputs.chain_enabled
            &&& account.status == PublicAccountStatus::Active
            &&& state.action_flow.selection matches Some(
                GovernanceActionSelection::Staking(selection),
            ) && state.staking@.selection_ready(selection@) && find_actor(
                context.participants@,
                selection.actor_uuid@,
                selection.actor,
            ) == Some(account) && (selection.kind matches StakingActionKind::RewardClaimSelected {
                tokens,
            } ==> tokens@.len() > 0 && inputs.gas_fee is Ok)
        },
        state.action_flow.pending ==> staking_verdict(state, context, inputs) is Ignore,
        !(state.action_flow.selection matches Some(GovernanceActionSelection::Staking(_)))
            ==> staking_verdict(state, context, inputs) is Ignore,
{
}

/// Where everything is ready the review begins: with the fees as entered for a claim of chosen
/// rewards, and with automatic fees for every other action.
pub proof fn ready_staking_actions_are_reviewed(
    state: GovernanceState,
    context: ReviewContext,
    inputs: StakingInputs,
    account: PublicAccountMetadata,
)
    requires
        !state.action_flow.pending,
        state.staking@.key == Some(context.context_key@),
        context.wallet_id is Some,
        context.vault_open,
        context.vault_stored,
        inputs.chain_enabled,
        account.status == PublicAccountStatus::Active,
        state.action_flow.selection matches Some(GovernanceActionSelection::Staking(selection))
            && state.staking@.selection_ready(selection@) && find_actor(
            context.participants@,
            selection.actor_uuid@,
            selection.actor,
        ) == Some(account),
    ensures
        state.action_flow.selection matches Some(GovernanceActionSelection::Staking(selection))
            ==> match selection.kind {
            StakingActionKind::RewardClaimSelected { tokens } => {
                &&& tokens@.len() == 0 ==> staking_verdict(state, context, inputs)
                    == Verdict::Refuse("Select at least one reward to claim"@)
                &&& tokens@.len() > 0 ==> (inputs.gas_fee matches Ok(caps) ==> staking_verdict(
                    state,
                    context,
                    inputs,
                ) == Verdict::Begin(account, caps))
                &&& tokens@.len() > 0 ==> (inputs.gas_fee matches Err(error) ==> staking_verdict(
                    state,
                    context,
                    inputs,
                ) == Verdict::RefuseFee(error))
            },
            _ => staking_verdict(state, context, inputs) == Verdict::Begin(
                account,
                PublicActionGasFeeSelection::Auto,
            ),
        },
{
}

/// A staking review that does not begin says what is missing, in the order in which it is looked
/// for: fresh data, a wallet, the account, an open vault, its storage.
pub proof fn refused_staking_reviews_say_what_is_missing(
    state: GovernanceState,
    context: ReviewContext,
    inputs: StakingInputs,
)
    requires
        !state.action_flow.pending,
        state.action_flow.selection matches Some(GovernanceActionSelection::Staking(_)),
    ensures
        state.action_flow.selection matches Some(GovernanceActionSelection::Staking(selection)) ==> {
            let verdict = staking_verdict(state, context, inputs);
            let ready = state.staking@.key == Some(context.context_key@)
                && state.staking@.selection_ready(selection@);
            let actor = find_actor(
                context.participants@,
                selection.actor_uuid@,
                selection.actor,
            );
            let active = actor matches Some(account) && account.status
                == PublicAccountStatus::Active;
            &&& !ready ==> verdict == Verdict::Refuse(
                "Refresh staking data before reviewing this action"@,
            )
            &&& ready && context.wallet_id is None ==> verdict == Verdict::Refuse(
                "Select a wallet before reviewing this action"@,
            )
            &&& ready && context.wallet_id is Some && actor is None ==> verdict == Verdict::Refuse(
                "Selected Public account is no longer enrolled"@,
            )
            &&& ready && context.wallet_id is Some && actor is Some && !active ==> verdict
                == Verdict::Refuse("Inactive participant accounts are read-only"@)
            &&& ready && context.wallet_id is Some && active && !context.vault_open ==> verdict
                == Verdict::Refuse("Wallet vault is locked"@)
            &&& ready && context.wallet_id is Some && active && context.vault_open
                && !context.vault_stored ==> verdict == Verdict::Refuse(
                "Wallet vault storage is unavailable"@,
            )
            &&& ready && context.wallet_id is Some && active && context.vault_open
                && context.vault_stored && !inputs.chain_enabled ==> verdict is Ignore
        },
{
}

/// A proposal review begins exactly where nothing is pending, the proposal is the one on the
/// screen, a wallet is selected, the account is enrolled and the vault can be used. Its fees are
/// automatic.
pub proof fn proposal_reviews_begin_when_everything_is_ready(
    state: GovernanceState,
    proposal: GovernanceProposal,
    selection: ProposalActionSelection,
    context: ReviewContext,
    account: PublicAccountMetadata,
)
    ensures
        proposal_verdict(state, proposal, selection, context) == Verdict::Begin(
            account,
            PublicActionGasFeeSelection::Auto,
        ) <==> {
            &&& !state.action_flow.pending
            &&& proposal_current(
                state,
                proposal@.facts,
                participation_id(proposal@.facts, context.context_key@),
                context,
            )
            &&& context.wallet_id is Some && context.vault_open && context.vault_stored
            &&& find_by_address(context.participants@, selection.actor) == Some(account)
        },
        proposal_verdict(state, proposal, selection, context) matches Verdict::Begin(_, caps)
            ==> caps is Auto,
        !(proposal_verdict(state, proposal, selection, context) is RefuseFee),
        proposal_verdict(state, proposal, selection, context) is Ignore
            <==> state.action_flow.pending,
{
}

/// A proposal review that does not begin says what is missing.
pub proof fn refused_proposal_reviews_say_what_is_missing(
    state: GovernanceState,
    proposal: GovernanceProposal,
    selection: ProposalActionSelection,
    context: ReviewContext,
)
    requires
        !state.action_flow.pending,
    ensures
        ({
            let verdict = proposal_verdict(state, proposal, selection, context);
            let current = proposal_current(
                state,
                proposal@.facts,
                participation_id(proposal@.facts, context.context_key@),
                context,
            );
            let actor = find_by_address(context.participants@, selection.actor);
            &&& !current ==> verdict == Verdict::Refuse(
                "Selected proposal changed; refresh before reviewing this action"@,
            )
            &&& current && context.wallet_id is None ==> verdict == Verdict::Refuse(
                "Select a wallet before reviewing this action"@,
            )
            &&& current && context.wallet_id is Some && actor is None ==> verdict == Verdict::Refuse(
                "Selected Public account is no longer enrolled"@,
            )
            &&& current && context.wallet_id is Some && actor is Some && !context.vault_open
                ==> verdict == Verdict::Refuse("Wallet vault is locked"@)
            &&& current && context.wallet_id is Some && actor is Some && context.vault_open
                && !context.vault_stored ==> verdict == Verdict::Refuse(
                "Wallet vault storage is unavailable"@,
            )
        }),
{
}

/// A refusal writes its error and leaves everything else as it was.
pub proof fn refusals_change_the_error_alone(
    before: GovernanceState,
    after: GovernanceState,
    error: Seq<char>,
)
    requires
        refused(before, after, error),
    ensures
        after.action_flow.error matches Some(text) && text@ == error,
        after.action_flow.draft == before.action_flow.draft,
        after.action_flow.recipe == before.action_flow.recipe,
        after.action_flow.selection == before.action_flow.selection,
        after.action_flow.pending == before.action_flow.pending,
        after.action_flow.generation == before.action_flow.generation,
        after.action_flow.reward_selection_estimate == before.action_flow.reward_selection_estimate,
        after.action_flow.reward_selection_generation
            == before.action_flow.reward_selection_generation,
        after.action_flow.seed_reward_selection == before.action_flow.seed_reward_selection,
        after.staking == before.staking,
        after.proposal_participation == before.proposal_participation,
        after.reward_gas_fee == before.reward_gas_fee,
        after.tab == before.tab,
        after.compact_position_details == before.compact_position_details,
{
}

/// A review that begins is pending under a new generation, with the recipe alone: no draft and no
/// error of before.
pub proof fn begun_reviews_start_over(
    before: GovernanceState,
    after: GovernanceState,
    recipe: RecipeId,
)
    requires
        review_begun(before, after, recipe),
    ensures
        after.action_flow.pending,
        after.action_flow.draft is None,
        after.action_flow.error is None,
        after.action_flow.recipe matches Some(held) && held@ == recipe,
        after.action_flow.generation != before.action_flow.generation,
        after.action_flow.generation == next_generation(before.action_flow.generation),
        after.action_flow.selection == before.action_flow.selection,
        after.action_flow.reward_selection_estimate == before.action_flow.reward_selection_estimate,
        after.action_flow.reward_selection_generation
            == before.action_flow.reward_selection_generation,
        after.action_flow.seed_reward_selection == before.action_flow.seed_reward_selection,
        after.staking == before.staking,
        after.proposal_participation == before.proposal_participation,
        after.reward_gas_fee == before.reward_gas_fee,
        after.tab == before.tab,
        after.compact_position_details == before.compact_position_details,
{
}

/// A rejection drops the draft, writes its error and leaves everything else as it was.
pub proof fn rejections_drop_the_draft(
    before: GovernanceState,
    after: GovernanceState,
    error: Seq<char>,
)
    requires
        rejected(before, after, error),
    ensures
        after.action_flow.draft is None,
        after.action_flow.error matches Some(text) && text@ == error,
        after.action_flow.recipe == before.action_flow.recipe,
        after.action_flow.selection == before.action_flow.selection,
        after.action_flow.pending == before.action_flow.pending,
        after.action_flow.generation == before.action_flow.generation,
        after.action_flow.reward_selection_estimate == before.action_flow.reward_selection_estimate,
        after.action_flow.reward_selection_generation
            == before.action_flow.reward_selection_generation,
        after.action_flow.seed_reward_selection == before.action_flow.seed_reward_selection,
        after.staking == before.staking,
        after.proposal_participation == before.proposal_participation,
        after.reward_gas_fee == before.reward_gas_fee,
        after.tab == before.tab,
        context_changed() == "Governance context changed; review the action again"@,
{
}

/// An account is found by its address where one has it, and the first that has it is taken.
pub proof fn accounts_are_found_by_their_address(
    accounts: Seq<PublicAccountMetadata>,
    address: Address,
)
    ensures
        match find_by_address(accounts, address) {
            Some(found) => exists|at: int|
                0 <= at < accounts.len() && #[trigger] accounts[at] == found && found.address
                    == address && forall|i: int|
                    0 <= i < at ==> (#[trigger] accounts[i]).address != address,
            None => forall|i: int|
                0 <= i < accounts.len() ==> (#[trigger] accounts[i]).address != address,
        },
    decreases accounts.len(),
{
    if accounts.len() > 0 {
        let head = accounts.drop_last();
        accounts_are_found_by_their_address(head, address);
        match find_by_address(head, address) {
            Some(found) => {
                let at: int = choose|at: int|
                    0 <= at < head.len() && #[trigger] head[at] == found && found.address
                        == address && forall|i: int|
                        0 <= i < at ==> (#[trigger] head[i]).address != address;
                assert(accounts[at] == found);
                assert forall|i: int| 0 <= i < at implies (#[trigger] accounts[i]).address
                    != address by {
                    assert(head[i] == accounts[i]);
                }
            },
            None => {
                assert forall|i: int| 0 <= i < head.len() implies (#[trigger] accounts[i]).address
                    != address by {
                    assert(head[i] == accounts[i]);
                }
                assert(accounts[accounts.len() - 1] == accounts.last());
            },
        }
    }
}

/// A proposal is the one on the screen exactly where its key is the key of the selected proposal
/// and of the participation that was read.
pub proof fn current_proposals_are_selected_and_read(
    state: GovernanceState,
    facts: ProposalFacts,
    key: ParticipationId,
    context: ReviewContext,
)
    ensures
        context.selected_proposal is None ==> !proposal_current(state, facts, key, context),
        context.selected_proposal matches Some(selected) ==> (proposal_current(
            state,
            facts,
            key,
            context,
        ) <==> {
            &&& key.version == facts.contract_version && key.contract == facts.contract_address
                && key.index == facts.index && key.context == context.context_key@
            &&& selected.contract_version == facts.contract_version && selected.contract_address
                == facts.contract_address && selected.index == facts.index
            &&& state.proposal_participation@.key == Some(key)
        }),
{
}

/// A participant may act exactly where an active account has both its identifier and its address.
pub proof fn inactive_accounts_do_not_act(
    accounts: Seq<PublicAccountMetadata>,
    uuid: Seq<char>,
    address: Address,
    at: int,
)
    ensures
        (forall|i: int|
            0 <= i < accounts.len() && (#[trigger] accounts[i]).public_account_uuid@ == uuid
                && accounts[i].address == address ==> accounts[i].status
                != PublicAccountStatus::Active) ==> !active_participant(accounts, uuid, address),
        0 <= at < accounts.len() && accounts[at].status == PublicAccountStatus::Active
            ==> active_participant(
            accounts,
            accounts[at].public_account_uuid@,
            accounts[at].address,
        ),
{
}

/// A draft is authorized only while it is the one that is held, its wallet, chain and participants
/// are the selected ones, its account may act, and what it was made for is on the screen.
pub proof fn authorized_drafts_are_held_and_current(
    state: GovernanceState,
    draft: GovernanceSpendDraft,
    context: ReviewContext,
)
    ensures
        identity_matches(state, draft, context) ==> {
            &&& state.action_flow.draft matches Some(held) && held.id() == draft.id()
            &&& context.wallet_id matches Some(wallet) && wallet@
                == draft.context.private_wallet_uuid@
            &&& context.chain_id == draft.context.chain_id
            &&& context.context_key@ == draft.target@.context()
            &&& active_participant(context.participants@, draft.actor_uuid@, draft.actor)
            &&& draft.target@ is Staking ==> draft.recipe@ is Staking && state.staking@.key == Some(
                context.context_key@,
            ) && (state.action_flow.recipe matches Some(recipe) && recipe@ == draft.recipe@)
            &&& draft.target@ is Proposal ==> draft.recipe@ is Proposal
                && state.proposal_participation@.key == Some(draft.target@->Proposal_0)
        },
        state.action_flow.draft is None ==> !identity_matches(state, draft, context),
        context.wallet_id is None ==> !identity_matches(state, draft, context),
{
}

/// A draft that is held for the selected wallet, chain and participants, of an account that may
/// act, is authorized where what it was made for is still on the screen.
pub proof fn held_drafts_are_authorized(
    state: GovernanceState,
    draft: GovernanceSpendDraft,
    context: ReviewContext,
)
    requires
        state.action_flow.draft matches Some(held) && held.id() == draft.id(),
        context.wallet_id matches Some(wallet) && wallet@ == draft.context.private_wallet_uuid@,
        context.chain_id == draft.context.chain_id,
        context.context_key@ == draft.target@.context(),
        active_participant(context.participants@, draft.actor_uuid@, draft.actor),
    ensures
        draft.target@ matches TargetId::Staking(key) ==> (draft.recipe@ matches RecipeId::Staking {
            selection,
            context_key,
            ..
        } ==> (key == context_key && state.staking@.key == Some(key) && (
        state.action_flow.selection matches Some(GovernanceActionSelection::Staking(shown))
            && shown@ == selection) && (state.action_flow.recipe matches Some(recipe) && recipe@
            == draft.recipe@) ==> identity_matches(state, draft, context))),
        draft.target@ matches TargetId::Proposal(target_key) ==> (
        draft.recipe@ matches RecipeId::Proposal { proposal, key, .. } ==> (target_key == key
            && proposal_current(state, proposal.facts, key, context) ==> identity_matches(
            state,
            draft,
            context,
        ))),
{
}

/// A staking draft needs its data ready again to be admitted; a proposal draft needs no more than
/// its identity.
pub proof fn admission_needs_ready_data(
    state: GovernanceState,
    draft: GovernanceSpendDraft,
    context: ReviewContext,
)
    ensures
        draft.recipe@ is Proposal ==> (admission_matches(state, draft, context)
            <==> identity_matches(state, draft, context)),
        draft.recipe@ matches RecipeId::Staking { selection, .. } ==> (admission_matches(
            state,
            draft,
            context,
        ) <==> identity_matches(state, draft, context) && state.staking@.selection_ready(
            selection,
        )),
{
}

/// The open staking action is the one that is selected.
pub proof fn the_open_action_is_the_selected_one(state: GovernanceState)
    ensures
        state.action_flow.selection is None ==> state.open_staking_action_id() is None,
        state.action_flow.selection matches Some(GovernanceActionSelection::Proposal(_))
            ==> state.open_staking_action_id() is None,
        state.action_flow.selection matches Some(GovernanceActionSelection::Staking(selection))
            ==> state.open_staking_action_id() == Some(selection@),
{
}

} // verus!
