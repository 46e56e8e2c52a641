//! The state of the governance workspace, and what opening, changing and closing its dialogs does.
use crate::address::Address;
use crate::governance::action::{ProposalActionKind, ProposalActionSelection};
use crate::governance::ascending::{nondecreasing, sorted};
use crate::governance::flow::{
    same_staking_account, GovernanceActionFlowState, GovernanceActionSelection,
};
use crate::governance::intervals::{
    arm_governance_time_tick, boundary_crossed, claim_governance_time_tick,
    governance_boundary_crossed,
};
use crate::governance::model::{
    copy_items, same_addresses, ContextId, GovernanceContextKey, StakePosition,
};
use crate::governance::participants::{choices_of, ParticipantChoice};
use crate::governance::participation::{ParticipationRead, ProposalParticipationState};
use crate::governance::rewards::{
    default_reward_claim_selection_for, selected_by_default, GasFeeQuote,
    RewardSelectionEstimateState,
};
use crate::governance::staking::{
    next_generation, staking_action_title, staking_action_title_text, StakingActionKind,
    StakingActionSelection, StakingRead, StakingReadState,
};
use crate::governance::table::StakeKey;
use crate::keyed::{KeyMap, KeySet};
use crate::text::{optional_text, same_optional_text, same_texts, texts};
use crate::u256::U256;
use vstd::prelude::*;

verus! {

/// A tab of the workspace.
#[derive(Clone, Copy, Debug, PartialEq, Eq, Structural)]
pub enum GovernanceTab {
    Proposals,
    Staking,
}

impl Default for GovernanceTab {
    /// The tab that is shown first.
    fn default() -> (tab: GovernanceTab)
        ensures
            tab == GovernanceTab::Proposals,
    {
        GovernanceTab::Proposals
    }
}

/// Whether the fee caps of a claim are the suggested ones.
#[derive(Clone, Copy, Debug, PartialEq, Eq, Structural)]
pub enum GasFeeMode {
    Auto,
    Custom,
}

/// The fee caps of a claim.
pub struct GasFeeEditor {
    pub mode: GasFeeMode,
    pub refresh_id: u64,
    pub refreshing: bool,
    pub quote: Option<GasFeeQuote>,
    pub quote_error: Option<String>,
    pub error: Option<String>,
}

/// The state of the governance workspace.
pub struct GovernanceState {
    pub tab: GovernanceTab,
    pub staking: StakingReadState,
    pub proposal_participation: ProposalParticipationState,
    pub action_flow: GovernanceActionFlowState,
    pub reward_gas_fee: GasFeeEditor,
    /// The stake whose details are open.
    pub compact_position_details: Option<StakeKey>,
    pub participant_picker_wallet: Option<String>,
    pub participant_picker_items: Vec<ParticipantChoice>,
    /// The keys of the stake tables that were made.
    pub staking_tables: KeySet<String>,
    pub participant_time_tick_generation: Option<u64>,
}

/// What the picker of accounts is to be told.
#[derive(Clone, Copy, Debug, PartialEq, Eq, Structural)]
pub struct PickerUpdate {
    /// Whether its search is emptied.
    pub clear_query: bool,
}

/// Whether both lists hold the same choices in the same order.
pub fn same_choices(a: &Vec<ParticipantChoice>, b: &Vec<ParticipantChoice>) -> (same: bool)
    ensures
        same == (choices_of(a@) == choices_of(b@)),
{
    if a.len() != b.len() {
        assert(choices_of(a@).len() != choices_of(b@).len());
        return false;
    }
    let mut i: usize = 0;
    while i < a.len()
        invariant
            i <= a@.len() == b@.len(),
            forall|j: int| 0 <= j < i ==> a@[j]@ == b@[j]@,
        decreases a@.len() - i,
    {
        if !(a[i].uuid == b[i].uuid && a[i].label == b[i].label && a[i].address == b[i].address
            && a[i].global == b[i].global && a[i].inactive == b[i].inactive) {
            assert(choices_of(a@)[i as int] != choices_of(b@)[i as int]);
            return false;
        }
        i += 1;
    }
    assert(choices_of(a@) =~= choices_of(b@));
    true
}

/// Whether a stake with this identifier is among those of a list.
pub open spec fn has_stake(stakes: Seq<StakePosition>, id: U256) -> bool {
    exists|i: int| 0 <= i < stakes.len() && (#[trigger] stakes[i]).id == id
}

/// Whether the last read of an account holds this stake.
pub open spec fn stake_is_read(read: StakingRead, uuid: Seq<char>, id: U256) -> bool {
    read.accounts.contains_key(uuid) && (read.accounts[uuid].stakes matches Ok(stakes)
        && has_stake(stakes@, id))
}

/// What the dialog of a staking action does once it is open.
#[derive(Clone, Copy, Debug, PartialEq, Eq, Structural)]
pub enum StakingDialogStart {
    /// The amount input takes the focus.
    EnterAmount,
    /// The delegate input takes the focus.
    EnterDelegate,
    /// The action is reviewed at once.
    Review,
    /// The fee is quoted, and the claim of every offered reward is estimated.
    EstimateClaim,
}

/// What is to be estimated for a claim.
pub struct RewardEstimateRequest {
    pub generation: u64,
    pub actor_uuid: String,
    pub actor: Address,
    /// The selected tokens.
    pub tokens: Vec<Address>,
    /// The tokens with a positive reward, in ascending order.
    pub available_tokens: Vec<Address>,
}

/// What is read when a tab is selected.
#[derive(Clone, Copy, Debug, PartialEq, Eq, Structural)]
pub enum TabStart {
    /// The tab was selected already.
    Unchanged,
    RefreshProposals,
    /// What the accounts may do about the proposal that is shown, where there is one.
    ReadParticipation,
    RefreshStaking,
}

/// What a tick of the workspace's clock comes to.
#[derive(Clone, Copy, Debug, PartialEq, Eq, Structural)]
pub enum TimeTickNext {
    Nothing,
    /// A boundary was crossed: everything is read again.
    Refresh,
    /// Another tick is due.
    Rearm,
}

impl GovernanceState {
    /// The fee caps after the action was invalidated: a quote under way is dropped.
    pub open spec fn dropped_quote(self) -> GasFeeEditor {
        GasFeeEditor {
            refresh_id: next_generation(self.reward_gas_fee.refresh_id),
            refreshing: false,
            ..self.reward_gas_fee
        }
    }

    /// The state after the action was invalidated.
    pub open spec fn action_invalidated(self) -> GovernanceState {
        GovernanceState {
            action_flow: self.action_flow.invalidated(),
            reward_gas_fee: self.dropped_quote(),
            ..self
        }
    }

    /// The state after the action was closed.
    pub open spec fn action_closed(self) -> GovernanceState {
        GovernanceState {
            action_flow: self.action_flow.closed(),
            reward_gas_fee: self.dropped_quote(),
            ..self
        }
    }

    /// The state after an action was opened.
    pub open spec fn action_opened(self, selection: GovernanceActionSelection) -> GovernanceState {
        GovernanceState {
            action_flow: GovernanceActionFlowState {
                selection: Some(selection),
                ..self.action_flow.closed()
            },
            reward_gas_fee: self.dropped_quote(),
            ..self
        }
    }

    /// Whether the fee caps of the open claim may be changed.
    pub open spec fn claim_editable(self) -> bool {
        !self.action_flow.pending && self.action_flow.claim_tokens() is Some
    }

    /// The workspace before anything was read. The proposals come first.
    pub fn new(reward_gas_fee: GasFeeEditor) -> (state: GovernanceState)
        ensures
            state.tab is Proposals,
            state.staking@ == StakingRead::empty(),
            state.proposal_participation@ == (ParticipationRead {
                key: None,
                generation: 0,
                loading: false,
                rows: Map::empty(),
            }),
            state.action_flow == (GovernanceActionFlowState {
                selection: None,
                recipe: None,
                draft: None,
                pending: false,
                error: None,
                generation: 0,
                reward_selection_estimate: None,
                reward_selection_generation: 0,
                seed_reward_selection: false,
            }),
            state.reward_gas_fee == reward_gas_fee,
            state.compact_position_details is None,
            state.participant_picker_wallet is None,
            state.participant_picker_items@.len() == 0,
            state.staking_tables@ == Set::<Seq<char>>::empty(),
            state.participant_time_tick_generation is None,
    {
        GovernanceState {
            tab: GovernanceTab::Proposals,
            staking: StakingReadState::default(),
            proposal_participation: ProposalParticipationState::default(),
            action_flow: GovernanceActionFlowState::default(),
            reward_gas_fee,
            compact_position_details: None,
            participant_picker_wallet: None,
            participant_picker_items: Vec::new(),
            staking_tables: KeySet::new(),
            participant_time_tick_generation: None,
        }
    }

    /// Drops what was prepared for the open action, so that no result under way is taken.
    pub fn invalidate_action(&mut self)
        ensures
            *final(self) == old(self).action_invalidated(),
    {
        self.action_flow.invalidate();
        self.reward_gas_fee.refresh_id = self.reward_gas_fee.refresh_id.wrapping_add(1);
        self.reward_gas_fee.refreshing = false;
    }

    /// Closes the open action.
    fn close_action(&mut self)
        ensures
            *final(self) == old(self).action_closed(),
    {
        self.invalidate_action();
        self.action_flow.selection = None;
        self.action_flow.draft = None;
        self.action_flow.error = None;
        self.action_flow.pending = false;
    }

    /// Closes the dialog of a proposal action.
    pub fn close_proposal_action(&mut self)
        ensures
            *final(self) == old(self).action_closed(),
    {
        self.close_action();
    }

    /// Closes the dialog of a staking action, and the details of a stake.
    pub fn close_staking_action(&mut self)
        ensures
            *final(self) == (GovernanceState {
                compact_position_details: None,
                ..old(self).action_closed()
            }),
    {
        self.close_action();
        self.compact_position_details = None;
    }

    /// The state that is left of `before` once its wallet, chain or accounts changed: nothing that
    /// was read is kept, no result under way is taken, and no action is open.
    pub open spec fn context_dropped(self, before: GovernanceState) -> bool {
        &&& self.staking@ == (StakingRead {
            generation: next_generation(before.staking@.generation),
            ..StakingRead::empty()
        })
        &&& self.proposal_participation@ == (ParticipationRead {
            key: None,
            generation: next_generation(before.proposal_participation.generation),
            loading: false,
            rows: Map::empty(),
        })
        &&& self.staking_tables@ == Set::<Seq<char>>::empty()
        &&& self == (GovernanceState {
            staking: self.staking,
            proposal_participation: self.proposal_participation,
            staking_tables: self.staking_tables,
            compact_position_details: None,
            participant_time_tick_generation: None,
            ..before.action_closed()
        })
    }

    /// Drops everything that belongs to the wallet, the chain and the enrolled accounts: what was
    /// read, the open action and the tick that is due. No result under way is taken.
    pub fn invalidate_context(&mut self)
        ensures
            final(self).context_dropped(*old(self)),
    {
        self.staking.invalidate();
        self.proposal_participation.invalidate();
        self.staking_tables.clear();
        self.compact_position_details = None;
        self.close_action();
        self.participant_time_tick_generation = None;
    }

    /// Closes the details of a stake that was not among those last read.
    pub fn clear_stale_position_details(&mut self)
        ensures
            *final(self) == (GovernanceState {
                compact_position_details: match old(self).compact_position_details {
                    Some(key) => if stake_is_read(old(self).staking@, key.actor_uuid@, key.id) {
                        Some(key)
                    } else {
                        None
                    },
                    None => None,
                },
                ..*old(self)
            }),
    {
        let mut still_exists = true;
        if let Some(key) = &self.compact_position_details {
            still_exists = match self.staking.accounts.get(&key.actor_uuid) {
                Some(account) => match &account.stakes {
                    Ok(stakes) => {
                        let mut found = false;
                        let mut i: usize = 0;
                        while i < stakes.len()
                            invariant
                                i <= stakes@.len(),
                                found == exists|j: int|
                                    0 <= j < i && (#[trigger] stakes@[j]).id == key.id,
                            decreases stakes@.len() - i,
                        {
                            if stakes[i].id == key.id {
                                found = true;
                                assert(stakes@[i as int].id == key.id);
                            }
                            i += 1;
                        }
                        found
                    },
                    Err(_) => false,
                },
                None => false,
            };
        }
        if !still_exists {
            self.compact_position_details = None;
        }
    }

    /// Brings the picker in line with the wallet, the accounts it offers and the enrolled ones,
    /// where it does not show them yet. `shown` are the values that the picker has selected.
    pub fn sync_participant_picker(
        &mut self,
        wallet_id: Option<String>,
        items: Vec<ParticipantChoice>,
        values: &Vec<String>,
        shown: &Vec<String>,
    ) -> (update: Option<PickerUpdate>)
        ensures
            ({
                let wallet_changed = optional_text(old(self).participant_picker_wallet)
                    != optional_text(wallet_id);
                let in_line = !wallet_changed && choices_of(items@) == choices_of(
                    old(self).participant_picker_items@,
                ) && texts(shown@) == texts(values@);
                &&& update == if in_line {
                    None
                } else {
                    Some(PickerUpdate { clear_query: wallet_changed })
                }
                &&& *final(self) == if in_line {
                    *old(self)
                } else {
                    GovernanceState {
                        participant_picker_wallet: wallet_id,
                        participant_picker_items: items,
                        ..*old(self)
                    }
                }
            }),
    {
        let wallet_changed = !same_optional_text(&self.participant_picker_wallet, &wallet_id);
        if !wallet_changed && same_choices(&items, &self.participant_picker_items) && same_texts(
            shown,
            values,
        ) {
            return None;
        }
        self.participant_picker_wallet = wallet_id;
        self.participant_picker_items = items;
        Some(PickerUpdate { clear_query: wallet_changed })
    }

    /// Opens the dialog of a proposal action. Returns whether the action is reviewed at once: a
    /// call for the vote has nothing to enter.
    pub fn open_proposal_action(&mut self, actor: Address, kind: ProposalActionKind) -> (reviews:
        bool)
        ensures
            reviews == (kind is CallVote),
            *final(self) == old(self).action_opened(
                GovernanceActionSelection::Proposal(ProposalActionSelection { actor, kind }),
            ),
    {
        self.invalidate_action();
        self.action_flow.set_proposal_selection(ProposalActionSelection { actor, kind });
        self.action_flow.draft = None;
        self.action_flow.error = None;
        self.action_flow.pending = false;
        matches!(kind, ProposalActionKind::CallVote)
    }

    /// Opens the dialog of a staking action.
    pub fn open_staking_action(&mut self, actor_uuid: String, actor: Address, kind: StakingActionKind)
        -> (start: (&'static str, StakingDialogStart))
        ensures
            start.0@ == staking_action_title_text(kind@),
            start.1 == match kind {
                StakingActionKind::Stake => StakingDialogStart::EnterAmount,
                StakingActionKind::Delegate { .. } => StakingDialogStart::EnterDelegate,
                StakingActionKind::RewardClaimSelected { .. } => StakingDialogStart::EstimateClaim,
                _ => StakingDialogStart::Review,
            },
            ({
                let opened = old(self).action_opened(
                    GovernanceActionSelection::Staking(
                        StakingActionSelection { actor_uuid, actor, kind },
                    ),
                );
                *final(self) == (GovernanceState {
                    action_flow: GovernanceActionFlowState {
                        seed_reward_selection: kind is RewardClaimSelected,
                        ..opened.action_flow
                    },
                    ..opened
                })
            }),
    {
        self.invalidate_action();
        let title = staking_action_title(&kind);
        let start = match &kind {
            StakingActionKind::Stake => StakingDialogStart::EnterAmount,
            StakingActionKind::Delegate { .. } => StakingDialogStart::EnterDelegate,
            StakingActionKind::RewardClaimSelected { .. } => StakingDialogStart::EstimateClaim,
            _ => StakingDialogStart::Review,
        };
        self.action_flow.set_staking_selection(StakingActionSelection { actor_uuid, actor, kind });
        self.action_flow.draft = None;
        self.action_flow.error = None;
        self.action_flow.pending = false;
        if matches!(start, StakingDialogStart::EstimateClaim) {
            self.action_flow.seed_reward_selection = true;
        }
        (title, start)
    }

    /// Whether the fee caps of the open claim may be changed.
    pub fn claim_fee_editable(&self) -> (editable: bool)
        ensures
            editable == self.claim_editable(),
    {
        !self.action_flow.pending && self.action_flow.reward_claim_selection_tokens().is_some()
    }

    /// Takes note that the fee caps were edited: `error` is what is wrong with the inputs. What
    /// was planned stays, as costs follow from its gas.
    pub fn governance_gas_fee_changed(&mut self, error: Option<String>) -> (changed: bool)
        ensures
            changed == old(self).claim_editable(),
            *final(self) == if changed {
                GovernanceState {
                    reward_gas_fee: GasFeeEditor { error, ..old(self).reward_gas_fee },
                    action_flow: GovernanceActionFlowState {
                        error: None,
                        ..old(self).action_flow
                    },
                    ..*old(self)
                }
            } else {
                *old(self)
            },
    {
        if !self.claim_fee_editable() {
            return false;
        }
        self.reward_gas_fee.error = error;
        self.action_flow.error = None;
        true
    }

    /// Whether the fee caps change to this mode.
    pub fn gas_fee_mode_changes(&self, mode: GasFeeMode) -> (changes: bool)
        ensures
            changes == (self.claim_editable() && self.reward_gas_fee.mode != mode),
    {
        self.claim_fee_editable() && self.reward_gas_fee.mode != mode
    }

    /// Changes the mode of the fee caps: `error` is what is wrong with the inputs in that mode.
    pub fn set_governance_gas_fee_mode(&mut self, mode: GasFeeMode, error: Option<String>) -> (
        changed: bool)
        ensures
            changed == (old(self).claim_editable() && old(self).reward_gas_fee.mode != mode),
            *final(self) == if changed {
                GovernanceState {
                    reward_gas_fee: GasFeeEditor { mode, error, ..old(self).reward_gas_fee },
                    action_flow: GovernanceActionFlowState {
                        error: None,
                        ..old(self).action_flow
                    },
                    ..*old(self)
                }
            } else {
                *old(self)
            },
    {
        if !self.gas_fee_mode_changes(mode) {
            return false;
        }
        self.reward_gas_fee.mode = mode;
        self.governance_gas_fee_changed(error)
    }

    /// Makes the suggested fee caps custom ones, where the inputs took them over.
    pub fn customize_governance_gas_fee_from_auto(
        &mut self,
        overwritten: bool,
        error: Option<String>,
    ) -> (customized: bool)
        ensures
            customized == (old(self).claim_editable() && overwritten),
            *final(self) == if customized {
                GovernanceState {
                    reward_gas_fee: GasFeeEditor {
                        mode: GasFeeMode::Custom,
                        error,
                        ..old(self).reward_gas_fee
                    },
                    action_flow: GovernanceActionFlowState {
                        error: None,
                        ..old(self).action_flow
                    },
                    ..*old(self)
                }
            } else {
                *old(self)
            },
    {
        if !self.claim_fee_editable() || !overwritten {
            return false;
        }
        self.reward_gas_fee.mode = GasFeeMode::Custom;
        self.governance_gas_fee_changed(error)
    }

    /// Begins to quote the fee, where a claim is open and no quote is under way. Returns the
    /// number that the quote must carry.
    pub fn refresh_governance_gas_fee_quote(&mut self) -> (refresh_id: Option<u64>)
        ensures
            ({
                let begins = old(self).claim_editable() && !old(self).reward_gas_fee.refreshing;
                let next = next_generation(old(self).reward_gas_fee.refresh_id);
                &&& refresh_id == if begins {
                    Some(next)
                } else {
                    None
                }
                &&& *final(self) == if begins {
                    GovernanceState {
                        reward_gas_fee: GasFeeEditor {
                            refresh_id: next,
                            refreshing: true,
                            quote_error: None,
                            ..old(self).reward_gas_fee
                        },
                        ..*old(self)
                    }
                } else {
                    *old(self)
                }
            }),
    {
        if !self.claim_fee_editable() || self.reward_gas_fee.refreshing {
            return None;
        }
        self.reward_gas_fee.refresh_id = self.reward_gas_fee.refresh_id.wrapping_add(1);
        self.reward_gas_fee.refreshing = true;
        self.reward_gas_fee.quote_error = None;
        Some(self.reward_gas_fee.refresh_id)
    }

    /// Takes a quote, where it is the one that is awaited and still of the current context. A quote
    /// that failed leaves the last one in place.
    pub fn finish_gas_fee_quote(
        &mut self,
        refresh_id: u64,
        context_current: bool,
        quote: Option<GasFeeQuote>,
    ) -> (taken: bool)
        ensures
            taken == (old(self).reward_gas_fee.refresh_id == refresh_id && context_current),
            !taken ==> *final(self) == *old(self),
            taken ==> *final(self) == (GovernanceState {
                reward_gas_fee: final(self).reward_gas_fee,
                ..*old(self)
            }) && final(self).reward_gas_fee == (GasFeeEditor {
                refreshing: false,
                quote: match quote {
                    Some(found) => Some(found),
                    None => old(self).reward_gas_fee.quote,
                },
                quote_error: final(self).reward_gas_fee.quote_error,
                ..old(self).reward_gas_fee
            }),
            taken ==> match quote {
                Some(_) => final(self).reward_gas_fee.quote_error
                    == old(self).reward_gas_fee.quote_error,
                None => final(self).reward_gas_fee.quote_error matches Some(error) && error@
                    == if old(self).reward_gas_fee.quote is Some {
                    "Gas quote refresh failed; using the last successful quote."@
                } else {
                    "Gas quote is unavailable."@
                },
            },
    {
        if self.reward_gas_fee.refresh_id != refresh_id || !context_current {
            return false;
        }
        self.reward_gas_fee.refreshing = false;
        match quote {
            Some(found) => {
                self.reward_gas_fee.quote = Some(found);
            },
            None => {
                let error = if self.reward_gas_fee.quote.is_some() {
                    "Gas quote refresh failed; using the last successful quote."
                } else {
                    "Gas quote is unavailable."
                };
                self.reward_gas_fee.quote_error = Some(error.to_owned());
            },
        }
        true
    }

    /// Adds or drops one reward in the open claim. Returns whether the claim is to be estimated
    /// again.
    pub fn set_reward_claim_selection_token(&mut self, token: Address, selected: bool) -> (changed:
        bool)
        ensures
            changed == (old(self).action_flow.claim_tokens() is Some),
            changed ==> final(self).action_flow.claim_tokens() == Some(
                crate::governance::ascending::toggled(
                    old(self).action_flow.claim_tokens().unwrap(),
                    token,
                    selected,
                ),
            ),
            changed ==> same_staking_account(
                old(self).action_flow.selection,
                final(self).action_flow.selection,
            ),
            *final(self) == (GovernanceState {
                action_flow: GovernanceActionFlowState {
                    selection: final(self).action_flow.selection,
                    seed_reward_selection: if changed {
                        false
                    } else {
                        old(self).action_flow.seed_reward_selection
                    },
                    ..old(self).action_flow
                },
                ..*old(self)
            }),
            !changed ==> *final(self) == *old(self),
    {
        if !self.action_flow.set_reward_claim_selection_token(token, selected) {
            return false;
        }
        self.action_flow.seed_reward_selection = false;
        true
    }

    /// Replaces the rewards of the open claim. Returns whether the claim is to be estimated again.
    pub fn set_reward_claim_selection_all(&mut self, tokens: Vec<Address>) -> (changed: bool)
        ensures
            changed == (old(self).action_flow.claim_tokens() is Some),
            changed ==> (final(self).action_flow.claim_tokens() matches Some(own)
                && crate::governance::ascending::ascending(own) && forall|token: Address|
                own.contains(token) == #[trigger] tokens@.contains(token)),
            changed ==> same_staking_account(
                old(self).action_flow.selection,
                final(self).action_flow.selection,
            ),
            *final(self) == (GovernanceState {
                action_flow: GovernanceActionFlowState {
                    selection: final(self).action_flow.selection,
                    seed_reward_selection: if changed {
                        false
                    } else {
                        old(self).action_flow.seed_reward_selection
                    },
                    ..old(self).action_flow
                },
                ..*old(self)
            }),
            !changed ==> *final(self) == *old(self),
    {
        if !self.action_flow.set_reward_claim_selection_all(tokens) {
            return false;
        }
        self.action_flow.seed_reward_selection = false;
        true
    }

    /// Begins to estimate the selected claim: what was prepared is dropped. The tokens whose added
    /// gas is wanted are all those among `reward_tokens` with a positive reward.
    pub fn start_reward_selection_estimate(&mut self, reward_tokens: &Vec<Address>) -> (request:
        Option<RewardEstimateRequest>)
        ensures
            *final(self) == (GovernanceState {
                action_flow: GovernanceActionFlowState {
                    generation: next_generation(old(self).action_flow.generation),
                    recipe: None,
                    draft: None,
                    error: None,
                    reward_selection_generation: next_generation(
                        old(self).action_flow.reward_selection_generation,
                    ),
                    reward_selection_estimate: if old(self).action_flow.claim_tokens() is Some {
                        Some(RewardSelectionEstimateState::Pending)
                    } else {
                        None
                    },
                    ..old(self).action_flow
                },
                ..*old(self)
            }),
            match request {
                Some(asked) => old(self).action_flow.selection matches Some(
                    GovernanceActionSelection::Staking(selection),
                ) && old(self).action_flow.claim_tokens() == Some(asked.tokens@)
                    && asked.actor_uuid@ == selection.actor_uuid@ && asked.actor == selection.actor
                    && asked.generation == final(self).action_flow.reward_selection_generation
                    && nondecreasing(asked.available_tokens@)
                    && asked.available_tokens@.to_multiset() == reward_tokens@.filter(
                    |token: Address| old(self).staking@.positive(selection.actor_uuid@, token),
                ).to_multiset(),
                None => old(self).action_flow.claim_tokens() is None,
            },
    {
        let generation: u64 = self.action_flow.begin_reward_selection_estimate();
        let (actor_uuid, actor, tokens) = match self.action_flow.staking_selection() {
            Some(selection) => match &selection.kind {
                StakingActionKind::RewardClaimSelected { tokens } => (
                    selection.actor_uuid.clone(),
                    selection.actor,
                    copy_items(tokens),
                ),
                _ => return None,
            },
            None => return None,
        };
        let ghost keep = |token: Address| self.staking@.positive(actor_uuid@, token);
        let mut available: Vec<Address> = Vec::new();
        let mut i: usize = 0;
        proof {
            reveal(Seq::filter);
            assert(reward_tokens@.take(0).filter(keep) =~= Seq::<Address>::empty());
        }
        while i < reward_tokens.len()
            invariant
                i <= reward_tokens@.len(),
                keep == (|token: Address| self.staking@.positive(actor_uuid@, token)),
                available@ == reward_tokens@.take(i as int).filter(keep),
            decreases reward_tokens@.len() - i,
        {
            proof {
                reveal(Seq::filter);
                assert(reward_tokens@.take(i + 1).drop_last() =~= reward_tokens@.take(i as int));
                assert(reward_tokens@.take(i + 1).last() == reward_tokens@[i as int]);
            }
            if self.staking.positive_reward_evidence(&actor_uuid, reward_tokens[i]).is_some() {
                available.push(reward_tokens[i]);
            }
            i += 1;
        }
        assert(reward_tokens@.take(i as int) =~= reward_tokens@);
        assert(keep =~= (|token: Address| old(self).staking@.positive(actor_uuid@, token)));
        Some(
            RewardEstimateRequest {
                generation,
                actor_uuid,
                actor,
                tokens,
                available_tokens: sorted(&available),
            },
        )
    }

    /// The selection that the stored estimate gives a claim, by what it holds.
    pub open spec fn default_selection(
        self,
        request: RewardEstimateRequest,
        expected: Option<u128>,
        values: Map<Address, U256>,
        cost_values: Map<nat, U256>,
    ) -> Seq<Address> {
        match self.action_flow.reward_selection_estimate {
            Some(RewardSelectionEstimateState::Estimated(estimate)) => {
                request.available_tokens@.filter(
                    |token: Address|
                        selected_by_default(
                            self.staking@,
                            request.actor_uuid@,
                            token,
                            estimate,
                            expected,
                            values,
                            cost_values,
                        ),
                )
            },
            _ => Seq::empty(),
        }
    }

    /// Whether the selection of a claim is seeded from the stored estimate: it has not been yet,
    /// there is an estimate, and it gives another selection.
    pub open spec fn seeds(
        self,
        request: RewardEstimateRequest,
        expected: Option<u128>,
        values: Map<Address, U256>,
        cost_values: Map<nat, U256>,
    ) -> bool {
        &&& self.action_flow.seed_reward_selection
        &&& self.action_flow.reward_selection_estimate matches Some(
            RewardSelectionEstimateState::Estimated(_),
        )
        &&& !(nondecreasing(request.tokens@) && request.tokens@.to_multiset()
            == self.default_selection(request, expected, values, cost_values).to_multiset())
    }

    /// Seeds the selection of the open claim from the estimate that was stored, once: afterwards
    /// the selection is the user's. `expected` is what the last quote expects for its own caps.
    /// Returns whether the claim is to be estimated again.
    pub fn seed_reward_selection(
        &mut self,
        request: &RewardEstimateRequest,
        expected: Option<u128>,
        values: &KeyMap<Address, U256>,
        cost_values: &KeyMap<U256, U256>,
    ) -> (reestimate: bool)
        ensures
            reestimate == old(self).seeds(*request, expected, values@, cost_values@),
            *final(self) == (GovernanceState {
                action_flow: GovernanceActionFlowState {
                    selection: final(self).action_flow.selection,
                    seed_reward_selection: false,
                    ..old(self).action_flow
                },
                ..*old(self)
            }),
            !reestimate || old(self).action_flow.claim_tokens() is None
                ==> final(self).action_flow.selection == old(self).action_flow.selection,
            reestimate && old(self).action_flow.claim_tokens() is Some
                ==> (final(self).action_flow.claim_tokens() matches Some(own)
                && crate::governance::ascending::ascending(own) && forall|token: Address|
                own.contains(token) == #[trigger] old(self).default_selection(
                    *request,
                    expected,
                    values@,
                    cost_values@,
                ).contains(token)),
            reestimate && old(self).action_flow.claim_tokens() is Some ==> same_staking_account(
                old(self).action_flow.selection,
                final(self).action_flow.selection,
            ),
    {
        if !self.action_flow.seed_reward_selection {
            return false;
        }
        self.action_flow.seed_reward_selection = false;
        let selected = match &self.action_flow.reward_selection_estimate {
            Some(RewardSelectionEstimateState::Estimated(estimate)) => {
                default_reward_claim_selection_for(
                    &self.staking,
                    &request.actor_uuid,
                    &request.available_tokens,
                    estimate,
                    expected,
                    values,
                    cost_values,
                )
            },
            _ => return false,
        };
        let ghost kept = old(self).default_selection(*request, expected, values@, cost_values@);
        proof {
            assert forall|token: Address| selected@.contains(token) == #[trigger] kept.contains(
                token,
            ) by {
                broadcast use vstd::seq_lib::group_to_multiset_ensures;

                assert(selected@.to_multiset().count(token) == kept.to_multiset().count(token));
            }
            if nondecreasing(request.tokens@) && request.tokens@.to_multiset()
                == kept.to_multiset() {
                crate::governance::ascending::ordered_lists_are_equal(selected@, request.tokens@);
            }
        }
        if same_addresses(&selected, &request.tokens) {
            return false;
        }
        let _ = self.action_flow.set_reward_claim_selection_all(selected);
        true
    }

    /// Selects a tab. What belongs to the other one is dropped.
    pub fn select_governance_tab(
        &mut self,
        tab: GovernanceTab,
        proposals_checked: bool,
        proposals_loading: bool,
    ) -> (start: TabStart)
        ensures
            start is RefreshStaking <==> tab is Staking && old(self).tab is Proposals,
            start is Unchanged <==> old(self).tab == tab,
            start is RefreshProposals ==> tab is Proposals && !proposals_checked && !proposals_loading,
            start is ReadParticipation ==> tab is Proposals && (proposals_checked || proposals_loading),
            start == if old(self).tab == tab {
                TabStart::Unchanged
            } else {
                match tab {
                    GovernanceTab::Staking => TabStart::RefreshStaking,
                    GovernanceTab::Proposals => if !proposals_checked && !proposals_loading {
                        TabStart::RefreshProposals
                    } else {
                        TabStart::ReadParticipation
                    },
                }
            },
            final(self).tab == tab,
            start is Unchanged ==> *final(self) == *old(self),
            !(start is Unchanged) ==> final(self).context_dropped(
                (GovernanceState { tab, ..*old(self) }),
            ),
    {
        if self.tab == tab {
            return TabStart::Unchanged;
        }
        self.tab = tab;
        self.invalidate_context();
        match tab {
            GovernanceTab::Staking => TabStart::RefreshStaking,
            GovernanceTab::Proposals => if !proposals_checked && !proposals_loading {
                TabStart::RefreshProposals
            } else {
                TabStart::ReadParticipation
            },
        }
    }

    /// Arms a tick of the workspace's clock, where the tab of this refresh is still shown and none
    /// is due for it. `shown` is whether the workspace is.
    pub fn start_governance_time_tick(&mut self, generation: u64, shown: bool) -> (armed: bool)
        ensures
            ({
                let wanted = generation == old(self).staking.generation && shown
                    && old(self).tab is Staking;
                &&& armed == (wanted && old(self).participant_time_tick_generation != Some(
                    generation,
                ))
                &&& *final(self) == if wanted {
                    GovernanceState {
                        participant_time_tick_generation: Some(generation),
                        ..*old(self)
                    }
                } else {
                    *old(self)
                }
            }),
    {
        if generation != self.staking.generation || !shown || self.tab != GovernanceTab::Staking {
            return false;
        }
        let (owner, armed) = arm_governance_time_tick(
            self.participant_time_tick_generation,
            generation,
        );
        self.participant_time_tick_generation = owner;
        armed
    }

    /// Takes a tick of the workspace's clock: a tick of another refresh, or of one that is no
    /// longer shown, comes to nothing. `now` is the time on the monotonic clock.
    pub fn governance_time_tick(&mut self, generation: u64, shown: bool, now: u128) -> (next:
        TimeTickNext)
        ensures
            ({
                let owned = old(self).participant_time_tick_generation == Some(generation);
                let current = generation == old(self).staking.generation && old(self).tab is Staking
                    && shown;
                &&& next == if !owned || !current {
                    TimeTickNext::Nothing
                } else if old(self).staking@.chain_time_at(now) matches Some(time)
                    && boundary_crossed(old(self).staking@, time) {
                    TimeTickNext::Refresh
                } else {
                    TimeTickNext::Rearm
                }
                &&& *final(self) == if owned {
                    GovernanceState { participant_time_tick_generation: None, ..*old(self) }
                } else {
                    *old(self)
                }
            }),
    {
        let (owner, claimed) = claim_governance_time_tick(
            self.participant_time_tick_generation,
            generation,
        );
        self.participant_time_tick_generation = owner;
        if !claimed {
            return TimeTickNext::Nothing;
        }
        if generation != self.staking.generation || self.tab != GovernanceTab::Staking || !shown {
            return TimeTickNext::Nothing;
        }
        let crossed = match self.staking.chain_time(now) {
            Some(time) => governance_boundary_crossed(&self.staking, time),
            None => false,
        };
        if crossed {
            TimeTickNext::Refresh
        } else {
            TimeTickNext::Rearm
        }
    }

    /// Begins to read everything that the staking tab shows, where it is the selected one. Returns
    /// the generation that the results must carry.
    pub fn start_staking_refresh(&mut self, key: GovernanceContextKey) -> (generation: Option<u64>)
        ensures
            match generation {
                Some(begun) => old(self).tab is Staking && begun == final(self).staking@.generation
                    && begun == next_generation(old(self).staking@.generation)
                    && final(self).staking@ == old(self).staking@.begun(key@) && *final(self) == (
                GovernanceState { staking: final(self).staking, ..*old(self) }),
                None => old(self).tab is Proposals && *final(self) == *old(self),
            },
    {
        if self.tab != GovernanceTab::Staking {
            return None;
        }
        Some(self.staking.begin(key))
    }
}

/// Invalidating the context or selecting the other tab leaves no result under way that could still
/// be taken: no read is current, every generation that a result may carry has moved on, and no tick
/// is owned.
pub proof fn dropped_context_takes_no_result(before: GovernanceState, after: GovernanceState)
    requires
        after.context_dropped(before),
    ensures
        forall|key: ContextId, generation: u64| !#[trigger] after.staking@.current(key, generation),
        after.staking@.generation != before.staking@.generation,
        after.proposal_participation@.generation != before.proposal_participation@.generation,
        after.action_flow.generation != before.action_flow.generation,
        after.action_flow.reward_selection_generation
            != before.action_flow.reward_selection_generation,
        after.reward_gas_fee.refresh_id != before.reward_gas_fee.refresh_id,
        after.action_flow.claim_tokens() is None,
        after.participant_time_tick_generation is None,
{
}

/// A quote that was asked for before is not waited for any longer, and everything else of the fees
/// stays.
pub proof fn dropped_quotes_are_not_waited_for(state: GovernanceState)
    ensures
        !state.dropped_quote().refreshing,
        state.dropped_quote().refresh_id == next_generation(state.reward_gas_fee.refresh_id),
        state.dropped_quote().refresh_id != state.reward_gas_fee.refresh_id,
        state.dropped_quote().mode == state.reward_gas_fee.mode,
        state.dropped_quote().quote == state.reward_gas_fee.quote,
        state.dropped_quote().quote_error == state.reward_gas_fee.quote_error,
        state.dropped_quote().error == state.reward_gas_fee.error,
{
}

/// Invalidating or closing an action touches the action and its quote alone.
pub proof fn actions_end_alone(state: GovernanceState)
    ensures
        state.action_invalidated().tab == state.tab,
        state.action_invalidated().staking == state.staking,
        state.action_invalidated().proposal_participation == state.proposal_participation,
        state.action_invalidated().compact_position_details == state.compact_position_details,
        state.action_invalidated().staking_tables == state.staking_tables,
        state.action_invalidated().participant_picker_wallet == state.participant_picker_wallet,
        state.action_invalidated().action_flow.selection == state.action_flow.selection,
        state.action_invalidated().action_flow.draft == state.action_flow.draft,
        state.action_invalidated().action_flow.recipe is None,
        state.action_closed().tab == state.tab,
        state.action_closed().staking == state.staking,
        state.action_closed().proposal_participation == state.proposal_participation,
        state.action_closed().compact_position_details == state.compact_position_details,
        state.action_closed().staking_tables == state.staking_tables,
        state.action_closed().participant_picker_wallet == state.participant_picker_wallet,
        state.action_closed().action_flow.selection is None,
        state.action_closed().action_flow.draft is None,
        state.action_closed().action_flow.recipe is None,
        state.action_closed().action_flow.error is None,
        !state.action_closed().action_flow.pending,
        !state.action_closed().reward_gas_fee.refreshing,
        !state.action_invalidated().reward_gas_fee.refreshing,
{
}

/// An action opens with its selection and nothing of the action before it.
pub proof fn actions_open_anew(state: GovernanceState, selection: GovernanceActionSelection)
    ensures
        state.action_opened(selection).action_flow.selection == Some(selection),
        state.action_opened(selection).action_flow.draft is None,
        state.action_opened(selection).action_flow.recipe is None,
        state.action_opened(selection).action_flow.error is None,
        state.action_opened(selection).action_flow.reward_selection_estimate is None,
        !state.action_opened(selection).action_flow.pending,
        !state.action_opened(selection).action_flow.seed_reward_selection,
        state.action_opened(selection).action_flow.generation != state.action_flow.generation,
        state.action_opened(selection).staking == state.staking,
        state.action_opened(selection).proposal_participation == state.proposal_participation,
        state.action_opened(selection).tab == state.tab,
        state.action_opened(selection).compact_position_details == state.compact_position_details,
{
}

/// The fees of a claim can be edited exactly while a claim of chosen rewards is open and nothing is
/// pending.
pub proof fn fees_are_edited_for_open_claims(state: GovernanceState)
    ensures
        state.action_flow.pending ==> !state.claim_editable(),
        state.action_flow.selection is None ==> !state.claim_editable(),
        !state.action_flow.pending ==> (state.action_flow.selection matches Some(
            GovernanceActionSelection::Staking(selection),
        ) ==> (state.claim_editable() <==> selection.kind is RewardClaimSelected)),
        state.action_flow.selection matches Some(GovernanceActionSelection::Proposal(_))
            ==> !state.claim_editable(),
{
}

/// A stake is read exactly where the stakes of its account were read and one of them has its number.
pub proof fn stakes_are_read_with_their_account(
    read: StakingRead,
    uuid: Seq<char>,
    stakes: Seq<StakePosition>,
    at: int,
    id: U256,
)
    ensures
        0 <= at < stakes.len() ==> has_stake(stakes, stakes[at].id),
        (forall|i: int| 0 <= i < stakes.len() ==> (#[trigger] stakes[i]).id != id) ==> !has_stake(
            stakes,
            id,
        ),
        !read.accounts.contains_key(uuid) ==> !stake_is_read(read, uuid, id),
        read.accounts.contains_key(uuid) && read.accounts[uuid].stakes is Err ==> !stake_is_read(
            read,
            uuid,
            id,
        ),
        read.accounts.contains_key(uuid) ==> (read.accounts[uuid].stakes matches Ok(found) ==> (
        stake_is_read(read, uuid, id) <==> exists|i: int|
            0 <= i < found@.len() && (#[trigger] found@[i]).id == id)),
{
}

/// A dropped context keeps the tab, the picker and nothing of what was read or was open.
pub proof fn dropped_contexts_are_empty(before: GovernanceState, after: GovernanceState)
    requires
        after.context_dropped(before),
    ensures
        after.tab == before.tab,
        after.staking@.key is None,
        after.staking@.metrics is None,
        !after.staking@.global_ready,
        forall|uuid: Seq<char>| !#[trigger] after.staking@.accounts.contains_key(uuid),
        after.proposal_participation@.key is None,
        !after.proposal_participation@.loading,
        after.staking_tables@ == Set::<Seq<char>>::empty(),
        after.action_flow.selection is None,
        after.action_flow.draft is None,
        after.action_flow.recipe is None,
        after.action_flow.error is None,
        !after.action_flow.pending,
        after.compact_position_details is None,
        after.participant_picker_wallet == before.participant_picker_wallet,
        after.participant_picker_items == before.participant_picker_items,
        after.reward_gas_fee.mode == before.reward_gas_fee.mode,
        after.reward_gas_fee.quote == before.reward_gas_fee.quote,
{
}

/// The tokens that are chosen by default are offered ones, in their order, and none is chosen while
/// there is no estimate.
pub proof fn defaults_are_offered_tokens(
    state: GovernanceState,
    request: RewardEstimateRequest,
    expected: Option<u128>,
    values: Map<Address, U256>,
    cost_values: Map<nat, U256>,
    token: Address,
)
    ensures
        state.default_selection(request, expected, values, cost_values).contains(token)
            ==> request.available_tokens@.contains(token),
        !(state.action_flow.reward_selection_estimate matches Some(
            RewardSelectionEstimateState::Estimated(_),
        )) ==> state.default_selection(request, expected, values, cost_values).len() == 0,
        state.action_flow.reward_selection_estimate matches Some(
            RewardSelectionEstimateState::Estimated(estimate),
        ) ==> (state.default_selection(request, expected, values, cost_values).contains(token)
            <==> request.available_tokens@.contains(token) && selected_by_default(
            state.staking@,
            request.actor_uuid@,
            token,
            estimate,
            expected,
            values,
            cost_values,
        )),
{
    if let Some(RewardSelectionEstimateState::Estimated(estimate)) =
        state.action_flow.reward_selection_estimate {
        let offered = request.available_tokens@;
        let chosen = |token: Address|
            selected_by_default(
                state.staking@,
                request.actor_uuid@,
                token,
                estimate,
                expected,
                values,
                cost_values,
            );
        let own = state.default_selection(request, expected, values, cost_values);
        assert(own == offered.filter(chosen));
        if own.contains(token) {
            let at: int = choose|at: int| 0 <= at < own.len() && own[at] == token;
            offered.lemma_filter_pred(chosen, at);
            offered.lemma_filter_contains_rev(chosen, token);
        }
        if offered.contains(token) && chosen(token) {
            let at: int = choose|at: int| 0 <= at < offered.len() && offered[at] == token;
            offered.lemma_filter_contains(chosen, at);
        }
    }
}

/// The default is proposed only where it was asked for and an estimate came, and never again where
/// it is what is chosen.
pub proof fn defaults_are_proposed_once(
    state: GovernanceState,
    request: RewardEstimateRequest,
    expected: Option<u128>,
    values: Map<Address, U256>,
    cost_values: Map<nat, U256>,
)
    ensures
        !state.action_flow.seed_reward_selection ==> !state.seeds(
            request,
            expected,
            values,
            cost_values,
        ),
        state.action_flow.reward_selection_estimate is None ==> !state.seeds(
            request,
            expected,
            values,
            cost_values,
        ),
        nondecreasing(request.tokens@) && request.tokens@ == state.default_selection(
            request,
            expected,
            values,
            cost_values,
        ) ==> !state.seeds(request, expected, values, cost_values),
        state.action_flow.seed_reward_selection && (state.action_flow.reward_selection_estimate
            matches Some(RewardSelectionEstimateState::Estimated(_)))
            && request.tokens@.to_multiset() != state.default_selection(
            request,
            expected,
            values,
            cost_values,
        ).to_multiset() ==> state.seeds(request, expected, values, cost_values),
{
}

} // verus!
