//! The governance action that is open: its selection, its estimate and its draft.
use crate::address::Address;
use crate::governance::action::{
    GovernanceDraftRecipe, GovernanceSpendDraft, ProposalActionSelection, ProposalParticipationKey,
    RecipeId,
};
use crate::governance::ascending::{ascending, sorted_unique, toggle, toggled};
use crate::governance::model::{same_addresses, GovernanceContextKey};
use crate::governance::rewards::{RewardSelectionEstimate, RewardSelectionEstimateState};
use crate::governance::staking::{next_generation, StakingActionKind, StakingActionSelection};
use crate::u256::U256;
use vstd::prelude::*;

verus! {

/// The action that is open.
pub enum GovernanceActionSelection {
    Proposal(ProposalActionSelection),
    Staking(StakingActionSelection),
}

/// The state of the action that is open.
pub struct GovernanceActionFlowState {
    pub selection: Option<GovernanceActionSelection>,
    pub recipe: Option<GovernanceDraftRecipe>,
    pub draft: Option<GovernanceSpendDraft>,
    pub pending: bool,
    pub error: Option<String>,
    pub generation: u64,
    pub reward_selection_estimate: Option<RewardSelectionEstimateState>,
    pub reward_selection_generation: u64,
    pub seed_reward_selection: bool,
}

/// Both are staking actions, of one account.
pub open spec fn same_staking_account(
    before: Option<GovernanceActionSelection>,
    after: Option<GovernanceActionSelection>,
) -> bool {
    match (before, after) {
        (
            Some(GovernanceActionSelection::Staking(earlier)),
            Some(GovernanceActionSelection::Staking(later)),
        ) => later.actor_uuid == earlier.actor_uuid && later.actor == earlier.actor,
        _ => false,
    }
}

impl GovernanceActionFlowState {
    /// The tokens of the claim that is open.
    pub open spec fn claim_tokens(self) -> Option<Seq<Address>> {
        match self.selection {
            Some(GovernanceActionSelection::Staking(selection)) => match selection.kind {
                StakingActionKind::RewardClaimSelected { tokens } => Some(tokens@),
                _ => None,
            },
            _ => None,
        }
    }

    /// The state after the action was invalidated: results under way no longer match.
    pub open spec fn invalidated(self) -> GovernanceActionFlowState {
        GovernanceActionFlowState {
            generation: next_generation(self.generation),
            recipe: None,
            reward_selection_estimate: None,
            seed_reward_selection: false,
            reward_selection_generation: next_generation(self.reward_selection_generation),
            ..self
        }
    }

    /// The state after the action was closed.
    pub open spec fn closed(self) -> GovernanceActionFlowState {
        GovernanceActionFlowState {
            selection: None,
            draft: None,
            error: None,
            pending: false,
            ..self.invalidated()
        }
    }

    /// No action.
    pub fn default() -> (flow: GovernanceActionFlowState)
        ensures
            flow == (GovernanceActionFlowState {
                selection: None,
                recipe: None,
                draft: None,
                pending: false,
                error: None,
                generation: 0,
                reward_selection_estimate: None,
                reward_selection_generation: 0,
                seed_reward_selection: false,
            }),
    {
        GovernanceActionFlowState {
            selection: None,
            recipe: None,
            draft: None,
            pending: false,
            error: None,
            generation: 0,
            reward_selection_estimate: None,
            reward_selection_generation: 0,
            seed_reward_selection: false,
        }
    }

    /// Drops what was prepared, so that no result under way is taken.
    pub fn invalidate(&mut self)
        ensures
            *final(self) == old(self).invalidated(),
    {
        self.generation = self.generation.wrapping_add(1);
        self.recipe = None;
        self.reward_selection_estimate = None;
        self.seed_reward_selection = false;
        self.reward_selection_generation = self.reward_selection_generation.wrapping_add(1);
    }

    /// Closes the action.
    pub fn close(&mut self)
        ensures
            *final(self) == old(self).closed(),
    {
        self.invalidate();
        self.selection = None;
        self.draft = None;
        self.error = None;
        self.pending = false;
    }

    /// The staking action that is open.
    pub fn staking_selection(&self) -> (selection: Option<&StakingActionSelection>)
        ensures
            match selection {
                Some(found) => self.selection == Some(GovernanceActionSelection::Staking(*found)),
                None => !(self.selection matches Some(GovernanceActionSelection::Staking(_))),
            },
    {
        match &self.selection {
            Some(GovernanceActionSelection::Staking(selection)) => Some(selection),
            _ => None,
        }
    }

    /// The live claim selection, when the open action is one.
    pub fn reward_claim_selection_tokens(&self) -> (tokens: Option<&Vec<Address>>)
        ensures
            match tokens {
                Some(found) => self.claim_tokens() == Some(found@),
                None => self.claim_tokens() is None,
            },
    {
        match self.staking_selection() {
            Some(selection) => match &selection.kind {
                StakingActionKind::RewardClaimSelected { tokens } => Some(tokens),
                _ => None,
            },
            None => None,
        }
    }

    /// Puts `tokens` into the claim that is open.
    fn replace_claim_tokens(&mut self, replaced: Vec<Address>)
        requires
            old(self).claim_tokens() is Some,
        ensures
            final(self).claim_tokens() == Some(replaced@),
            same_staking_account(old(self).selection, final(self).selection),
            *final(self) == (GovernanceActionFlowState {
                selection: final(self).selection,
                ..*old(self)
            }),
    {
        let selection = self.selection.take();
        if let Some(GovernanceActionSelection::Staking(found)) = selection {
            self.selection =
            Some(
                GovernanceActionSelection::Staking(
                    StakingActionSelection {
                        actor_uuid: found.actor_uuid,
                        actor: found.actor,
                        kind: StakingActionKind::RewardClaimSelected { tokens: replaced },
                    },
                ),
            );
        }
    }

    /// Adds or drops one token in the open claim selection, keeping it unique and ascending by
    /// address. Returns whether a claim selection was open to change.
    pub fn set_reward_claim_selection_token(&mut self, token: Address, selected: bool) -> (open:
        bool)
        ensures
            open == (old(self).claim_tokens() is Some),
            open ==> final(self).claim_tokens() == Some(
                toggled(old(self).claim_tokens().unwrap(), token, selected),
            ),
            open ==> same_staking_account(old(self).selection, final(self).selection),
            *final(self) == (GovernanceActionFlowState {
                selection: final(self).selection,
                ..*old(self)
            }),
            !open ==> *final(self) == *old(self),
    {
        let mut tokens = match self.reward_claim_selection_tokens() {
            Some(tokens) => crate::governance::model::copy_items(tokens),
            None => return false,
        };
        toggle(&mut tokens, token, selected);
        self.replace_claim_tokens(tokens);
        true
    }

    /// Replaces the open claim selection, keeping it unique and ascending by address.
    pub fn set_reward_claim_selection_all(&mut self, selected: Vec<Address>) -> (open: bool)
        ensures
            open == (old(self).claim_tokens() is Some),
            open ==> (final(self).claim_tokens() matches Some(tokens) && ascending(tokens) && forall|
                token: Address,
            |
                tokens.contains(token) == #[trigger] selected@.contains(token)),
            open ==> same_staking_account(old(self).selection, final(self).selection),
            *final(self) == (GovernanceActionFlowState {
                selection: final(self).selection,
                ..*old(self)
            }),
            !open ==> *final(self) == *old(self),
    {
        if self.reward_claim_selection_tokens().is_none() {
            return false;
        }
        let tokens = sorted_unique(&selected);
        self.replace_claim_tokens(tokens);
        true
    }

    /// Starts a selection estimate: drops the prepared recipe and draft, clears the error, and
    /// marks the estimate pending, including the baseline for an empty selection. Returns the
    /// generation that its result must carry to be stored.
    pub fn begin_reward_selection_estimate(&mut self) -> (generation: u64)
        ensures
            generation == next_generation(old(self).reward_selection_generation),
            *final(self) == (GovernanceActionFlowState {
                generation: next_generation(old(self).generation),
                recipe: None,
                draft: None,
                error: None,
                reward_selection_generation: generation,
                reward_selection_estimate: if old(self).claim_tokens() is Some {
                    Some(RewardSelectionEstimateState::Pending)
                } else {
                    None
                },
                ..*old(self)
            }),
    {
        self.generation = self.generation.wrapping_add(1);
        self.recipe = None;
        self.draft = None;
        self.error = None;
        self.reward_selection_generation = self.reward_selection_generation.wrapping_add(1);
        self.reward_selection_estimate =
        if self.reward_claim_selection_tokens().is_some() {
            Some(RewardSelectionEstimateState::Pending)
        } else {
            None
        };
        self.reward_selection_generation
    }

    /// Stores a selection estimate result, dropping one whose selection has already moved on.
    pub fn apply_reward_selection_estimate(
        &mut self,
        generation: u64,
        result: Result<RewardSelectionEstimate, String>,
    ) -> (applied: bool)
        ensures
            applied == (old(self).reward_selection_generation == generation),
            applied ==> *final(self) == (GovernanceActionFlowState {
                reward_selection_estimate: Some(
                    match result {
                        Ok(estimate) => RewardSelectionEstimateState::Estimated(estimate),
                        Err(error) => RewardSelectionEstimateState::Unavailable(error),
                    },
                ),
                ..*old(self)
            }),
            !applied ==> *final(self) == *old(self),
    {
        if self.reward_selection_generation != generation {
            return false;
        }
        self.reward_selection_estimate =
        Some(
            match result {
                Ok(estimate) => RewardSelectionEstimateState::Estimated(estimate),
                Err(error) => RewardSelectionEstimateState::Unavailable(error),
            },
        );
        true
    }

    /// Whether an estimate that was asked for is still wanted once its delay is over: the
    /// generation is the current one, and the claim is still of these tokens.
    pub fn reward_selection_estimate_wanted(&self, generation: u64, tokens: &Vec<Address>) -> (
        wanted: bool)
        ensures
            wanted == (self.reward_selection_generation == generation && self.claim_tokens() == Some(
                tokens@,
            )),
    {
        self.reward_selection_generation == generation && match self.reward_claim_selection_tokens()
        {
            Some(own) => same_addresses(own, tokens),
            None => false,
        }
    }

    /// Opens an action on a proposal.
    pub fn set_proposal_selection(&mut self, selection: ProposalActionSelection)
        ensures
            *final(self) == (GovernanceActionFlowState {
                selection: Some(GovernanceActionSelection::Proposal(selection)),
                ..*old(self)
            }),
    {
        self.selection = Some(GovernanceActionSelection::Proposal(selection));
    }

    /// Opens an action on staking.
    pub fn set_staking_selection(&mut self, selection: StakingActionSelection)
        ensures
            *final(self) == (GovernanceActionFlowState {
                selection: Some(GovernanceActionSelection::Staking(selection)),
                ..*old(self)
            }),
    {
        self.selection = Some(GovernanceActionSelection::Staking(selection));
    }

    /// Whether the draft under way is of this proposal action.
    pub fn proposal_recipe_matches(
        &self,
        key: &ProposalParticipationKey,
        selection: ProposalActionSelection,
        amount: Option<U256>,
    ) -> (matches: bool)
        ensures
            matches == (self.recipe matches Some(recipe) && recipe@ matches RecipeId::Proposal {
                key: own_key,
                selection: own_selection,
                amount: own_amount,
                ..
            } && own_key == key@ && own_selection == selection && own_amount == amount),
    {
        match &self.recipe {
            Some(
                GovernanceDraftRecipe::Proposal {
                    key: own_key,
                    selection: own_selection,
                    amount: own_amount,
                    ..
                },
            ) => own_key.same(key) && *own_selection == selection && *own_amount == amount,
            _ => false,
        }
    }

    /// Whether the draft under way is of this staking action with these inputs.
    pub fn staking_recipe_matches(
        &self,
        selection: &StakingActionSelection,
        context_key: &GovernanceContextKey,
        amount_input: &str,
        delegate_input: &str,
        token_decimals: Option<u8>,
    ) -> (matches: bool)
        ensures
            matches == (self.recipe matches Some(recipe) && recipe@ == (RecipeId::Staking {
                selection: selection@,
                context_key: context_key@,
                amount_input: amount_input@,
                delegate_input: delegate_input@,
                token_decimals,
            })),
    {
        match &self.recipe {
            Some(
                GovernanceDraftRecipe::Staking {
                    selection: own_selection,
                    context_key: own_key,
                    amount_input: own_amount,
                    delegate_input: own_delegate,
                    token_decimals: own_decimals,
                },
            ) => own_selection.same(selection) && own_key.same(context_key)
                && crate::text::same_text(own_amount, amount_input) && crate::text::same_text(
                own_delegate,
                delegate_input,
            ) && *own_decimals == token_decimals,
            _ => false,
        }
    }
}

/// An estimate of an earlier selection is never stored: beginning another one, or invalidating
/// the action, moves the generation on. It comes round again only after as many steps as there
/// are generations.
pub proof fn estimates_of_earlier_selections_are_dropped(flow: GovernanceActionFlowState)
    ensures
        next_generation(flow.reward_selection_generation) != flow.reward_selection_generation,
        flow.invalidated().reward_selection_generation != flow.reward_selection_generation,
        flow.invalidated().generation != flow.generation,
{
}

/// Closing an action leaves nothing of it: no selection, recipe, draft, estimate or error.
pub proof fn closing_leaves_nothing(flow: GovernanceActionFlowState)
    ensures
        flow.closed().selection is None,
        flow.closed().recipe is None,
        flow.closed().draft is None,
        flow.closed().error is None,
        flow.closed().reward_selection_estimate is None,
        !flow.closed().pending,
        !flow.closed().seed_reward_selection,
        flow.closed().claim_tokens() is None,
{
}

/// Invalidating drops what was prepared under new generations and leaves the selection, the draft,
/// the error and what is pending.
pub proof fn invalidating_drops_what_was_prepared(flow: GovernanceActionFlowState)
    ensures
        flow.invalidated().recipe is None,
        flow.invalidated().reward_selection_estimate is None,
        !flow.invalidated().seed_reward_selection,
        flow.invalidated().generation == next_generation(flow.generation),
        flow.invalidated().reward_selection_generation == next_generation(
            flow.reward_selection_generation,
        ),
        flow.invalidated().selection == flow.selection,
        flow.invalidated().draft == flow.draft,
        flow.invalidated().pending == flow.pending,
        flow.invalidated().error == flow.error,
        flow.closed().generation == next_generation(flow.generation),
        flow.closed().reward_selection_generation == next_generation(
            flow.reward_selection_generation,
        ),
{
}

/// Rewards are chosen exactly while a claim of chosen rewards is selected, and are its own.
pub proof fn chosen_rewards_are_of_the_selected_claim(flow: GovernanceActionFlowState)
    ensures
        flow.selection is None ==> flow.claim_tokens() is None,
        flow.selection matches Some(GovernanceActionSelection::Proposal(_)) ==> flow.claim_tokens()
            is None,
        flow.selection matches Some(GovernanceActionSelection::Staking(selection)) ==> match selection.kind {
            StakingActionKind::RewardClaimSelected { tokens } => flow.claim_tokens() == Some(
                tokens@,
            ),
            _ => flow.claim_tokens() is None,
        },
{
}

/// A staking selection stays with its account, by identifier and address; no other selection does.
pub proof fn accounts_of_selections_are_told_apart(
    a: StakingActionSelection,
    b: StakingActionSelection,
    other: ProposalActionSelection,
)
    ensures
        same_staking_account(
            Some(GovernanceActionSelection::Staking(a)),
            Some(GovernanceActionSelection::Staking(b)),
        ) <==> a.actor_uuid == b.actor_uuid && a.actor == b.actor,
        !same_staking_account(None, Some(GovernanceActionSelection::Staking(b))),
        !same_staking_account(Some(GovernanceActionSelection::Staking(a)), None),
        !same_staking_account(
            Some(GovernanceActionSelection::Staking(a)),
            Some(GovernanceActionSelection::Proposal(other)),
        ),
{
}

} // verus!
