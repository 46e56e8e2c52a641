//! Reading again: the steps of a refresh of the staking tab, what the accounts may do about a
//! proposal, and the next step of a claim.
use crate::address::{Address, B256};
use crate::governance::action::{
    participation_id, proposal_participation_key, GovernanceActionContext, GovernanceContinuation,
    GovernanceDraftRecipe, GovernanceProposal, GovernanceRefreshTarget, GovernanceSpendDraft,
    ParticipationId, ProposalParticipationKey, RecipeId, TargetId,
};
use crate::governance::authorization::optional_recipe;
use crate::governance::draft::GovernanceContracts;
use crate::governance::flow::{GovernanceActionFlowState, GovernanceActionSelection};
use crate::governance::intervals::{
    interval_at, interval_end, interval_known, reward_interval_countdown,
};
use crate::governance::model::{
    AccountStakeResult, ContextId, GovernanceContextKey, ParticipantId, RewardEvidence,
    StakingGlobalMetrics,
};
use crate::governance::participants::wallet_text;
use crate::governance::participation::{loading_rows, ParticipationRead};
use crate::governance::review::{ReviewContext, TargetRefresh};
use crate::governance::staking::{
    account_of, next_generation, reward_of, GovernorRewardsIntervalMetadata,
    RewardIntervalCountdown, StakingRead, StakingReadState,
};
use crate::governance::state::{GovernanceState, GovernanceTab};
use crate::text::{optional_text, same_text};
use vstd::prelude::*;

verus! {

/// The metrics of a deployment, or that there is none on the chain.
pub fn staking_global_result(read: Result<Option<StakingGlobalMetrics>, String>) -> (result: Result<
    StakingGlobalMetrics,
    String,
>)
    ensures
        match read {
            Ok(Some(metrics)) => result == Ok::<StakingGlobalMetrics, String>(metrics),
            Ok(None) => result matches Err(error) && error@
                == "Staking is not deployed on this chain"@,
            Err(error) => result == Err::<StakingGlobalMetrics, String>(error),
        },
{
    match read {
        Ok(Some(metrics)) => Ok(metrics),
        Ok(None) => Err("Staking is not deployed on this chain".to_owned()),
        Err(error) => Err(error),
    }
}

/// Takes the first read of a refresh. Returns the metrics, where the refresh goes on: it is the
/// current one, and the read did not fail.
pub fn refresh_global(
    state: &mut StakingReadState,
    key: &GovernanceContextKey,
    generation: u64,
    result: Result<StakingGlobalMetrics, String>,
    now: u128,
) -> (metrics: Option<StakingGlobalMetrics>)
    ensures
        metrics == match result {
            Ok(found) => if old(state)@.current(key@, generation) {
                Some(found)
            } else {
                None
            },
            Err(_) => None,
        },
        old(state)@.current(key@, generation) ==> final(state)@ == old(state)@.with_global(
            result,
            now,
        ),
        !old(state)@.current(key@, generation) ==> *final(state) == *old(state),
{
    let metrics = match &result {
        Ok(found) => Some(*found),
        Err(_) => None,
    };
    if !state.apply_global(key, generation, result, now) {
        return None;
    }
    metrics
}

/// What follows the read of the reward interval.
pub enum AfterInterval {
    /// The refresh is no longer the current one.
    Stop,
    /// No account is enrolled: the refresh is complete.
    Finished,
    /// The accounts at these addresses are read.
    ReadAccounts(Vec<Address>),
}

/// The addresses of enrolled accounts.
pub open spec fn participant_addresses(participants: Seq<ParticipantId>) -> Seq<Address> {
    participants.map_values(|participant: ParticipantId| participant.address)
}

/// The addresses of the enrolled accounts.
pub fn context_addresses(key: &GovernanceContextKey) -> (addresses: Vec<Address>)
    ensures
        addresses@ == participant_addresses(key@.participants),
{
    let mut addresses: Vec<Address> = Vec::new();
    let mut i: usize = 0;
    while i < key.participants.len()
        invariant
            i <= key.participants@.len(),
            addresses@.len() == i,
            forall|j: int|
                0 <= j < i ==> addresses@[j] == (#[trigger] key.participants@[j])@.address,
        decreases key.participants@.len() - i,
    {
        addresses.push(key.participants[i].address);
        i += 1;
    }
    assert(addresses@ =~= participant_addresses(key@.participants)) by {
        assert forall|j: int| 0 <= j < addresses@.len() implies addresses@[j]
            == participant_addresses(key@.participants)[j] by {
            assert(key@.participants[j] == key.participants@[j]@);
        }
    }
    addresses
}

/// Whether a countdown is the one that the metadata gives at a time.
pub open spec fn countdown_of(
    metadata: Option<GovernorRewardsIntervalMetadata>,
    chain_time: nat,
    countdown: Option<RewardIntervalCountdown>,
) -> bool {
    match (metadata, countdown) {
        (Some(found), Some(current)) => interval_known(found, chain_time)
            && current.interval@ == interval_at(found, chain_time) && current.boundary@
            == interval_end(found, chain_time),
        (Some(found), None) => !interval_known(found, chain_time),
        (None, _) => countdown is None,
    }
}

/// Takes the second read of a refresh: the interval that the metadata gives, where it was read.
/// Without enrolled accounts the refresh is then complete.
pub fn refresh_interval(
    state: &mut StakingReadState,
    key: &GovernanceContextKey,
    generation: u64,
    metadata: &Option<GovernorRewardsIntervalMetadata>,
    metrics: &StakingGlobalMetrics,
) -> (next: AfterInterval)
    ensures
        if !old(state)@.current(key@, generation) {
            next is Stop && *final(state) == *old(state)
        } else {
            &&& countdown_of(
                *metadata,
                metrics.chain_time@,
                final(state)@.reward_interval_countdown,
            )
            &&& final(state)@ == (StakingRead {
                reward_interval_countdown: final(state)@.reward_interval_countdown,
                ..if key@.participants.len() == 0 {
                    old(state)@.finished()
                } else {
                    old(state)@
                }
            })
            &&& if key@.participants.len() == 0 {
                next is Finished
            } else {
                next matches AfterInterval::ReadAccounts(addresses) && addresses@
                    == participant_addresses(key@.participants)
            }
        },
{
    let countdown = match metadata {
        Some(found) => reward_interval_countdown(found, metrics.chain_time),
        None => None,
    };
    if !state.apply_reward_interval(key, generation, countdown) {
        return AfterInterval::Stop;
    }
    if key.participants.len() == 0 {
        let _ = state.finish(key, generation);
        return AfterInterval::Finished;
    }
    AfterInterval::ReadAccounts(context_addresses(key))
}

/// The state after the first accounts were read.
pub open spec fn with_accounts(
    read: StakingRead,
    participants: Seq<ParticipantId>,
    results: Seq<Result<AccountStakeResult, String>>,
) -> StakingRead
    decreases results.len(),
{
    if results.len() == 0 || results.len() > participants.len() {
        read
    } else {
        with_accounts(read, participants, results.drop_last()).with_account(
            participants[results.len() - 1].uuid,
            results.last(),
        )
    }
}

/// The results of the accounts that were asked for: those that came back, in order, or one error
/// for each account.
pub open spec fn account_results(
    results: Result<Vec<AccountStakeResult>, String>,
    count: nat,
) -> Seq<Result<AccountStakeResult, String>> {
    match results {
        Ok(list) => Seq::new(
            if list@.len() < count {
                list@.len()
            } else {
                count
            },
            |i: int| Ok::<AccountStakeResult, String>(list@[i]),
        ),
        Err(error) => Seq::new(count, |i: int| Err::<AccountStakeResult, String>(error)),
    }
}

proof fn lemma_with_accounts_stays_current(
    read: StakingRead,
    participants: Seq<ParticipantId>,
    results: Seq<Result<AccountStakeResult, String>>,
)
    ensures
        with_accounts(read, participants, results).generation == read.generation,
        with_accounts(read, participants, results).key == read.key,
    decreases results.len(),
{
    if !(results.len() == 0 || results.len() > participants.len()) {
        lemma_with_accounts_stays_current(read, participants, results.drop_last());
    }
}

/// Takes the read of all enrolled accounts.
pub fn refresh_accounts(
    state: &mut StakingReadState,
    key: &GovernanceContextKey,
    generation: u64,
    results: Result<Vec<AccountStakeResult>, String>,
)
    ensures
        old(state)@.current(key@, generation) ==> final(state)@ == with_accounts(
            old(state)@,
            key@.participants,
            account_results(results, key@.participants.len()),
        ),
        !old(state)@.current(key@, generation) ==> *final(state) == *old(state),
{
    if !state.current(key, generation) {
        return;
    }
    let ghost before = state@;
    let ghost all = account_results(results, key@.participants.len());
    let ghost given = results;
    let count: usize = key.participants.len();
    assert(all.take(0) =~= Seq::<Result<AccountStakeResult, String>>::empty());
    match results {
        Ok(list) => {
            let mut list = list;
            let ghost full = list@;
            let total: usize = if list.len() < count {
                list.len()
            } else {
                count
            };
            let mut i: usize = 0;
            while i < total
                invariant
                    i <= total <= count == key.participants@.len() == key@.participants.len(),
                    total <= full.len(),
                    list@ == full.skip(i as int),
                    all == Seq::new(
                        total as nat,
                        |j: int| Ok::<AccountStakeResult, String>(full[j]),
                    ),
                    before.current(key@, generation),
                    state@ == with_accounts(before, key@.participants, all.take(i as int)),
                decreases total - i,
            {
                proof {
                    lemma_with_accounts_stays_current(
                        before,
                        key@.participants,
                        all.take(i as int),
                    );
                    assert(all.take(i + 1).drop_last() =~= all.take(i as int));
                    assert(all.take(i + 1).last() == all[i as int]);
                    assert(key@.participants[i as int] == key.participants@[i as int]@);
                    assert(key@.enrolls(key.participants@[i as int].uuid@));
                }
                let account = list.remove(0);
                let _ = state.apply_account(
                    key,
                    generation,
                    key.participants[i].uuid.clone(),
                    Ok(account),
                );
                i += 1;
                assert(list@ =~= full.skip(i as int));
            }
            assert(all.take(i as int) =~= all);
        },
        Err(error) => {
            let mut i: usize = 0;
            while i < count
                invariant
                    i <= count == key.participants@.len() == key@.participants.len(),
                    all == Seq::new(
                        count as nat,
                        |j: int| Err::<AccountStakeResult, String>(error),
                    ),
                    before.current(key@, generation),
                    state@ == with_accounts(before, key@.participants, all.take(i as int)),
                decreases count - i,
            {
                proof {
                    lemma_with_accounts_stays_current(
                        before,
                        key@.participants,
                        all.take(i as int),
                    );
                    assert(all.take(i + 1).drop_last() =~= all.take(i as int));
                    assert(all.take(i + 1).last() == all[i as int]);
                    assert(key@.participants[i as int] == key.participants@[i as int]@);
                    assert(key@.enrolls(key.participants@[i as int].uuid@));
                }
                let _ = state.apply_account(
                    key,
                    generation,
                    key.participants[i].uuid.clone(),
                    Err(error.clone()),
                );
                i += 1;
            }
            assert(all.take(i as int) =~= all);
        },
    }
}

/// Why the rewards of an account cannot be read: the interval metadata or the account's snapshots
/// are missing.
pub fn reward_read_error(metadata_known: bool, snapshot_error: Option<String>) -> (error: Option<
    String,
>)
    ensures
        optional_text(error) == if !metadata_known {
            Some("Reward interval metadata unavailable"@)
        } else {
            optional_text(snapshot_error)
        },
{
    if !metadata_known {
        Some("Reward interval metadata unavailable".to_owned())
    } else {
        snapshot_error
    }
}

/// What was read of one token.
pub open spec fn token_result(
    rewards: Result<Vec<Result<Option<RewardEvidence>, String>>, String>,
    missing: String,
    at: int,
) -> Result<Option<RewardEvidence>, String> {
    match rewards {
        Ok(list) => if at < list@.len() {
            list@[at]
        } else {
            Err(missing)
        },
        Err(error) => Err(error),
    }
}

/// The state after the first tokens of an account were read.
pub open spec fn with_rewards(
    read: StakingRead,
    uuid: Seq<char>,
    tokens: Seq<Address>,
    rewards: Result<Vec<Result<Option<RewardEvidence>, String>>, String>,
    missing: String,
    now: u128,
) -> StakingRead
    decreases tokens.len(),
{
    if tokens.len() == 0 {
        read
    } else {
        with_rewards(read, uuid, tokens.drop_last(), rewards, missing, now).with_reward(
            uuid,
            tokens.last(),
            token_result(rewards, missing, tokens.len() - 1),
            now,
        )
    }
}

proof fn lemma_with_rewards_stays_current(
    read: StakingRead,
    uuid: Seq<char>,
    tokens: Seq<Address>,
    rewards: Result<Vec<Result<Option<RewardEvidence>, String>>, String>,
    missing: String,
    now: u128,
)
    ensures
        with_rewards(read, uuid, tokens, rewards, missing, now).generation == read.generation,
        with_rewards(read, uuid, tokens, rewards, missing, now).key == read.key,
    decreases tokens.len(),
{
    if tokens.len() > 0 {
        lemma_with_rewards_stays_current(read, uuid, tokens.drop_last(), rewards, missing, now);
    }
}

/// Takes the read of an account's rewards, one token after the other. A token without a result has
/// an error.
pub fn refresh_rewards(
    state: &mut StakingReadState,
    key: &GovernanceContextKey,
    generation: u64,
    uuid: &str,
    tokens: &Vec<Address>,
    rewards: Result<Vec<Result<Option<RewardEvidence>, String>>, String>,
    now: u128,
)
    ensures
        old(state)@.current(key@, generation) && key@.enrolls(uuid@) ==> exists|missing: String|
            missing@ == "Reward result is missing"@ && final(state)@ == #[trigger] with_rewards(
                old(state)@,
                uuid@,
                tokens@,
                rewards,
                missing,
                now,
            ),
        !(old(state)@.current(key@, generation) && key@.enrolls(uuid@)) ==> *final(state) == *old(state),
{
    if !state.current(key, generation) || !key.enrolls(uuid) {
        return;
    }
    let ghost before = state@;
    let ghost given = rewards;
    let missing = "Reward result is missing".to_owned();
    let mut list: Vec<Result<Option<RewardEvidence>, String>> = Vec::new();
    let mut whole_error: Option<String> = None;
    match rewards {
        Ok(found) => {
            list = found;
        },
        Err(error) => {
            whole_error = Some(error);
        },
    }
    let ghost full = list@;
    let mut i: usize = 0;
    assert(tokens@.take(0) =~= Seq::<Address>::empty());
    while i < tokens.len()
        invariant
            i <= tokens@.len(),
            match given {
                Ok(found) => whole_error is None && full == found@,
                Err(error) => whole_error == Some(error),
            },
            list@ == if i < full.len() {
                full.skip(i as int)
            } else {
                Seq::empty()
            },
            before.current(key@, generation),
            key@.enrolls(uuid@),
            state@ == with_rewards(before, uuid@, tokens@.take(i as int), given, missing, now),
        decreases tokens@.len() - i,
    {
        proof {
            lemma_with_rewards_stays_current(
                before,
                uuid@,
                tokens@.take(i as int),
                given,
                missing,
                now,
            );
            assert(tokens@.take(i + 1).drop_last() =~= tokens@.take(i as int));
            assert(tokens@.take(i + 1).last() == tokens@[i as int]);
        }
        let own = if list.len() > 0 {
            let first = list.remove(0);
            Some(first)
        } else {
            None
        };
        let reward = match &whole_error {
            Some(error) => Err(error.clone()),
            None => match own {
                Some(result) => result,
                None => Err(missing.clone()),
            },
        };
        assert(reward == token_result(given, missing, i as int));
        let _ = state.apply_reward(key, generation, uuid.to_owned(), tokens[i], reward, now);
        i += 1;
        proof {
            if i < full.len() {
                assert(list@ =~= full.skip(i as int));
            } else {
                assert(list@ =~= Seq::empty());
            }
        }
    }
    assert(tokens@.take(i as int) =~= tokens@);
}

/// What the accounts may do about a proposal is read, under this generation.
pub struct ParticipationRequest {
    pub key: ProposalParticipationKey,
    pub generation: u64,
    pub accounts: Vec<Address>,
}

/// Whether the open action is of another proposal or context than the key's.
pub open spec fn action_of_another_key(state: GovernanceState, key: ParticipationId) -> bool {
    ||| match optional_recipe(state.action_flow.recipe) {
        Some(RecipeId::Proposal { key: own, .. }) => own != key,
        Some(RecipeId::Staking { .. }) => true,
        None => false,
    }
    ||| match state.action_flow.draft {
        Some(draft) => draft.target@ != TargetId::Proposal(key),
        None => false,
    }
}

/// How the next step of a claim begins.
#[derive(Clone, Copy, Debug, PartialEq, Eq, Structural)]
pub enum ContinuationStart {
    Ignored,
    /// There is no next step to prepare; what the action changed is read again.
    Refresh,
    /// The next step is prepared, under this generation.
    Begun { generation: u64 },
}

/// What follows the preparation of the next step of a claim.
pub enum ContinuationNext {
    Ignored,
    /// The next step is shown for authorization. Where steps were confirmed before it, the dialog
    /// of the progress is replaced.
    Authorize { draft: GovernanceSpendDraft, replace_dialog: bool },
    /// There is no next step, or it could not be prepared: what the claim changed is read again.
    Refresh,
}

/// Whether steps were confirmed before this draft.
pub open spec fn has_confirmed_steps(draft: GovernanceSpendDraft) -> bool {
    match draft.continuation {
        Some(GovernanceContinuation::Reward { confirmed, .. }) => confirmed@.len() > 0,
        None => false,
    }
}

/// What the next step of a claim is prepared from: the deployment, and the transaction that
/// confirmed the step before.
pub fn continuation_inputs(contracts: Option<GovernanceContracts>, confirmed_hash: Option<B256>) -> (
    inputs: Result<(GovernanceContracts, B256), String>)
    ensures
        match (contracts, confirmed_hash) {
            (None, _) => inputs matches Err(error) && error@
                == "Staking is not deployed on this chain"@,
            (Some(_), None) => inputs matches Err(error) && error@
                == "Reward transaction hash was unavailable"@,
            (Some(found), Some(hash)) => inputs == Ok::<(GovernanceContracts, B256), String>(
                (found, hash),
            ),
        },
{
    match (contracts, confirmed_hash) {
        (None, _) => Err("Staking is not deployed on this chain".to_owned()),
        (Some(_), None) => Err("Reward transaction hash was unavailable".to_owned()),
        (Some(found), Some(hash)) => Ok((found, hash)),
    }
}

/// The step that a claim goes on with.
pub fn continuation_step<T>(step: Result<Option<T>, String>) -> (next: Result<T, String>)
    ensures
        match step {
            Ok(Some(found)) => next == Ok::<T, String>(found),
            Ok(None) => next matches Err(error) && error@ == "Reward claim sequence is complete"@,
            Err(error) => next == Err::<T, String>(error),
        },
{
    match step {
        Ok(Some(found)) => Ok(found),
        Ok(None) => Err("Reward claim sequence is complete".to_owned()),
        Err(error) => Err(error),
    }
}

/// The metadata that a claim goes on with.
pub fn continuation_metadata<T>(metadata: Result<Option<T>, String>) -> (found: Result<T, String>)
    ensures
        match metadata {
            Ok(Some(value)) => found == Ok::<T, String>(value),
            Ok(None) => found matches Err(error) && error@ == "Reward metadata unavailable"@,
            Err(error) => found == Err::<T, String>(error),
        },
{
    match metadata {
        Ok(Some(value)) => Ok(value),
        Ok(None) => Err("Reward metadata unavailable".to_owned()),
        Err(error) => Err(error),
    }
}

impl GovernanceState {
    /// Begins to read what the accounts may do about a proposal, where the proposals are shown. An
    /// action of another proposal or context is closed, and one on a proposal loses its selection.
    pub fn start_proposal_participation(
        &mut self,
        proposal: &GovernanceProposal,
        context_key: GovernanceContextKey,
    ) -> (request: Option<ParticipationRequest>)
        ensures
            ({
                let key = participation_id(proposal@.facts, context_key@);
                let base = if action_of_another_key(*old(self), key) {
                    old(self).action_closed()
                } else {
                    *old(self)
                };
                match request {
                    Some(asked) => {
                        &&& old(self).tab is Proposals
                        &&& asked.key@ == key
                        &&& asked.generation == next_generation(
                            old(self).proposal_participation.generation,
                        )
                        &&& asked.accounts@ == participant_addresses(context_key@.participants)
                        &&& final(self).proposal_participation@ == (ParticipationRead {
                            key: Some(key),
                            generation: asked.generation,
                            loading: true,
                            rows: loading_rows(context_key@.participants),
                        })
                        &&& *final(self) == (GovernanceState {
                            proposal_participation: final(self).proposal_participation,
                            action_flow: GovernanceActionFlowState {
                                selection: if base.action_flow.selection matches Some(
                                    GovernanceActionSelection::Proposal(_),
                                ) {
                                    None
                                } else {
                                    base.action_flow.selection
                                },
                                ..base.action_flow
                            },
                            ..base
                        })
                    },
                    None => old(self).tab is Staking && *final(self) == *old(self),
                }
            }),
    {
        if self.tab != GovernanceTab::Proposals {
            return None;
        }
        let key = proposal_participation_key(proposal, context_key);
        let recipe_differs = match &self.action_flow.recipe {
            Some(GovernanceDraftRecipe::Proposal { key: own, .. }) => !own.same(&key),
            Some(GovernanceDraftRecipe::Staking { .. }) => true,
            None => false,
        };
        let draft_differs = match &self.action_flow.draft {
            Some(draft) => match &draft.target {
                GovernanceRefreshTarget::Proposal(own) => !own.same(&key),
                GovernanceRefreshTarget::Staking(_) => true,
            },
            None => false,
        };
        if recipe_differs || draft_differs {
            self.close_proposal_action();
        }
        if matches!(self.action_flow.selection, Some(GovernanceActionSelection::Proposal(_))) {
            self.action_flow.selection = None;
        }
        let generation: u64 = self.proposal_participation.begin(&key);
        let accounts = context_addresses(&key.context);
        Some(ParticipationRequest { key, generation, accounts })
    }

    /// What is read again once an action went through: for a proposal what the accounts may do
    /// about it, where it is the one that is shown; for staking the staking tab, where it shows
    /// that context.
    pub fn refresh_governance_after_target(
        &self,
        target: &GovernanceRefreshTarget,
        context_key: &GovernanceContextKey,
        selected_proposal: Option<&GovernanceProposal>,
    ) -> (refresh: TargetRefresh)
        ensures
            refresh == (match target@ {
                TargetId::Proposal(key) => TargetRefresh {
                    participation: selected_proposal matches Some(shown)
                        && shown@.facts.contract_version == key.version
                        && shown@.facts.contract_address == key.contract && shown@.facts.index
                        == key.index,
                    staking: false,
                    proposal_page: true,
                },
                TargetId::Staking(key) => TargetRefresh {
                    participation: false,
                    staking: self.tab is Staking && context_key@ == key,
                    proposal_page: true,
                },
            }),
    {
        match target {
            GovernanceRefreshTarget::Proposal(key) => TargetRefresh {
                participation: match selected_proposal {
                    Some(shown) => shown.contract_version == key.version && shown.contract_address
                        == key.contract && shown.index == key.index,
                    None => false,
                },
                staking: false,
                proposal_page: true,
            },
            GovernanceRefreshTarget::Staking(key) => TargetRefresh {
                participation: false,
                staking: self.tab == GovernanceTab::Staking && context_key.same(key),
                proposal_page: true,
            },
        }
    }

    /// Begins to prepare the next step of a claim, of which a step was confirmed.
    pub fn start_governance_continuation(
        &mut self,
        target: &GovernanceRefreshTarget,
        recipe: &GovernanceDraftRecipe,
        chain_enabled: bool,
    ) -> (start: ContinuationStart)
        ensures
            match (target@, recipe@) {
                (TargetId::Proposal(_), _) => start is Refresh && *final(self) == *old(self),
                (TargetId::Staking(_), RecipeId::Proposal { .. }) => start is Ignored
                    && *final(self) == *old(self),
                (TargetId::Staking(_), RecipeId::Staking { .. }) => if !chain_enabled {
                    start is Ignored && *final(self) == *old(self)
                } else {
                    let generation = next_generation(old(self).action_flow.generation);
                    start == (ContinuationStart::Begun { generation }) && optional_recipe(
                        final(self).action_flow.recipe,
                    ) == Some(recipe@) && *final(self) == (GovernanceState {
                        action_flow: GovernanceActionFlowState {
                            generation,
                            recipe: final(self).action_flow.recipe,
                            pending: true,
                            draft: None,
                            ..old(self).action_flow
                        },
                        ..*old(self)
                    })
                },
            },
    {
        match target {
            GovernanceRefreshTarget::Proposal(_) => return ContinuationStart::Refresh,
            GovernanceRefreshTarget::Staking(_) => {},
        }
        match recipe {
            GovernanceDraftRecipe::Proposal { .. } => return ContinuationStart::Ignored,
            GovernanceDraftRecipe::Staking { .. } => {},
        }
        if !chain_enabled {
            return ContinuationStart::Ignored;
        }
        let generation: u64 = self.action_flow.generation.wrapping_add(1);
        self.action_flow.generation = generation;
        self.action_flow.recipe = Some(recipe.copy());
        self.action_flow.pending = true;
        self.action_flow.draft = None;
        ContinuationStart::Begun { generation }
    }

    /// Takes the next step of a claim, where the wallet, the chain, the accounts and the action are
    /// still those that it was prepared for.
    pub fn finish_governance_continuation(
        &mut self,
        generation: u64,
        prepared_for: &GovernanceActionContext,
        context_key: &GovernanceContextKey,
        context: &ReviewContext,
        result: Result<Option<GovernanceSpendDraft>, String>,
    ) -> (next: ContinuationNext)
        ensures
            ({
                let wanted = context.chain_id == prepared_for.chain_id && wallet_text(
                    context.wallet_id,
                ) == Some(prepared_for.private_wallet_uuid@) && context.context_key@
                    == context_key@ && old(self).action_flow.generation == generation;
                if !wanted {
                    next is Ignored && *final(self) == *old(self)
                } else {
                    &&& *final(self) == (GovernanceState {
                        action_flow: GovernanceActionFlowState {
                            pending: false,
                            error: match result {
                                Ok(Some(_)) => old(self).action_flow.error,
                                Ok(None) => None,
                                Err(error) => Some(error),
                            },
                            ..old(self).action_flow
                        },
                        ..*old(self)
                    })
                    &&& match result {
                        Ok(Some(prepared)) => next matches ContinuationNext::Authorize {
                            draft,
                            replace_dialog,
                        } && draft == prepared && replace_dialog == has_confirmed_steps(prepared),
                        _ => next is Refresh,
                    }
                }
            }),
    {
        let own_wallet = match context.wallet_id {
            Some(wallet) => same_text(wallet, &prepared_for.private_wallet_uuid),
            None => false,
        };
        if context.chain_id != prepared_for.chain_id || !own_wallet || !context.context_key.same(
            context_key,
        ) || self.action_flow.generation != generation {
            return ContinuationNext::Ignored;
        }
        self.action_flow.pending = false;
        match result {
            Ok(Some(draft)) => {
                let replace_dialog = match &draft.continuation {
                    Some(GovernanceContinuation::Reward { confirmed, .. }) => confirmed.len() > 0,
                    None => false,
                };
                ContinuationNext::Authorize { draft, replace_dialog }
            },
            Ok(None) => {
                self.action_flow.error = None;
                ContinuationNext::Refresh
            },
            Err(error) => {
                self.action_flow.error = Some(error);
                ContinuationNext::Refresh
            },
        }
    }
}

/// A result of an earlier refresh changes nothing: once another refresh began, none of the steps
/// of this one is current, unless as many refreshes as there are generations began since.
pub proof fn earlier_refreshes_are_not_current(read: StakingRead, key: ContextId, next: ContextId)
    requires
        read.key == Some(key),
    ensures
        read.current(key, read.generation),
        !read.begun(next).current(key, read.generation),
        read.begun(next).current(next, read.begun(next).generation),
{
}

/// Account results leave what was read globally alone, so that an account that failed does not undo
/// another one that did not.
pub proof fn account_results_are_scoped(
    read: StakingRead,
    uuid: Seq<char>,
    other: Seq<char>,
    result: Result<AccountStakeResult, String>,
)
    requires
        uuid != other,
    ensures
        read.with_account(uuid, result).metrics == read.metrics,
        read.with_account(uuid, result).rewards == read.rewards,
        read.with_account(uuid, result).accounts.contains_key(other) == read.accounts.contains_key(
            other,
        ),
        read.accounts.contains_key(other) ==> read.with_account(uuid, result).accounts[other]
            == read.accounts[other],
{
}

/// The accounts are asked for in the order of the participants.
pub proof fn addresses_are_taken_in_order(participants: Seq<ParticipantId>, at: int)
    requires
        0 <= at < participants.len(),
    ensures
        participant_addresses(participants).len() == participants.len(),
        participant_addresses(participants)[at] == participants[at].address,
{
}

/// The countdown is known exactly where the interval of the time is, and ends within one interval.
pub proof fn countdowns_end_within_an_interval(
    metadata: Option<GovernorRewardsIntervalMetadata>,
    chain_time: nat,
    countdown: Option<RewardIntervalCountdown>,
)
    requires
        countdown_of(metadata, chain_time, countdown),
    ensures
        metadata is None ==> countdown is None,
        metadata matches Some(found) ==> (countdown matches Some(current) ==> {
            let length = found.distribution_interval@;
            &&& found.staking_deploy_time@ <= chain_time < current.boundary@ <= chain_time + length
            &&& current.boundary@ == found.staking_deploy_time@ + (current.interval@ + 1) * length
        }),
        metadata matches Some(found) ==> (countdown is None ==> found.distribution_interval@ == 0
            || chain_time < found.staking_deploy_time@ || interval_end(found, chain_time)
            > crate::u256::u256_max()),
{
    if let (Some(found), Some(_)) = (metadata, countdown) {
        crate::governance::intervals::interval_end_is_next_boundary(found, chain_time);
    }
}

/// The result of an account is kept under its identifier, and everything that was read of others
/// stays as it was.
pub proof fn every_account_gets_its_result(
    read: StakingRead,
    participants: Seq<ParticipantId>,
    results: Seq<Result<AccountStakeResult, String>>,
    at: int,
    other: Seq<char>,
)
    requires
        results.len() <= participants.len(),
    ensures
        ({
            let after = with_accounts(read, participants, results);
            &&& 0 <= at < results.len() && (forall|j: int|
                at < j < results.len() ==> (#[trigger] participants[j]).uuid
                    != participants[at].uuid) ==> after.accounts.contains_key(participants[at].uuid)
                && after.accounts[participants[at].uuid] == account_of(results[at])
                && after.current_account_ids.contains(participants[at].uuid)
            &&& (forall|j: int| 0 <= j < results.len() ==> (#[trigger] participants[j]).uuid != other)
                ==> after.accounts.contains_key(other) == read.accounts.contains_key(other)
                && after.accounts[other] == read.accounts[other]
                && after.current_account_ids.contains(other) == read.current_account_ids.contains(
                other,
            )
            &&& after.rewards == read.rewards
            &&& after.metrics == read.metrics
            &&& after.global_ready == read.global_ready
            &&& after.status == read.status
            &&& after.key == read.key
            &&& after.generation == read.generation
            &&& after.chain_time_anchor == read.chain_time_anchor
        }),
    decreases results.len(),
{
    if results.len() > 0 {
        let last: int = results.len() - 1;
        every_account_gets_its_result(read, participants, results.drop_last(), at, other);
        if 0 <= at < last {
            every_account_gets_its_result(
                read,
                participants,
                results.drop_last(),
                at,
                participants[last].uuid,
            );
            assert(results.drop_last()[at] == results[at]);
        }
    }
}

/// A read that failed as a whole fails for every account; otherwise each account has its own.
pub proof fn failed_reads_fail_for_every_account(
    results: Result<Vec<AccountStakeResult>, String>,
    count: nat,
    at: int,
)
    ensures
        results matches Err(error) ==> account_results(results, count).len() == count && (0 <= at
            < count ==> account_results(results, count)[at] == Err::<AccountStakeResult, String>(
            error,
        )),
        results matches Ok(list) ==> account_results(results, count).len() <= count
            && account_results(results, count).len() <= list@.len() && (account_results(
            results,
            count,
        ).len() == count || account_results(results, count).len() == list@.len()) && (0 <= at
            < account_results(results, count).len() ==> account_results(results, count)[at] == Ok::<
            AccountStakeResult,
            String,
        >(list@[at])),
{
}

/// A token has the result of its place; one without a result has failed.
pub proof fn tokens_have_the_result_of_their_place(
    rewards: Result<Vec<Result<Option<RewardEvidence>, String>>, String>,
    missing: String,
    at: int,
)
    requires
        at >= 0,
    ensures
        rewards matches Err(error) ==> token_result(rewards, missing, at) == Err::<
            Option<RewardEvidence>,
            String,
        >(error),
        rewards matches Ok(list) ==> (at < list@.len() ==> token_result(rewards, missing, at)
            == list@[at]),
        rewards matches Ok(list) ==> (at >= list@.len() ==> token_result(rewards, missing, at)
            == Err::<Option<RewardEvidence>, String>(missing)),
{
}

/// Every token of the account gets its result, and what was read of other accounts and other tokens
/// stays as it was.
pub proof fn every_token_gets_its_result(
    read: StakingRead,
    uuid: Seq<char>,
    tokens: Seq<Address>,
    rewards: Result<Vec<Result<Option<RewardEvidence>, String>>, String>,
    missing: String,
    now: u128,
    at: int,
    other: Seq<char>,
    token: Address,
)
    ensures
        ({
            let after = with_rewards(read, uuid, tokens, rewards, missing, now);
            &&& 0 <= at < tokens.len() && (forall|j: int|
                at < j < tokens.len() ==> #[trigger] tokens[j] != tokens[at]) ==> after.resolved(
                uuid,
                tokens[at],
            ) == Some(reward_of(token_result(rewards, missing, at)))
            &&& other != uuid || !tokens.contains(token) ==> after.resolved(other, token)
                == read.resolved(other, token)
            &&& after.accounts == read.accounts
            &&& after.metrics == read.metrics
            &&& after.global_ready == read.global_ready
            &&& after.status == read.status
            &&& after.key == read.key
            &&& after.generation == read.generation
        }),
    decreases tokens.len(),
{
    if tokens.len() > 0 {
        let last: int = tokens.len() - 1;
        let head = tokens.drop_last();
        every_token_gets_its_result(
            read,
            uuid,
            head,
            rewards,
            missing,
            now,
            at,
            other,
            token,
        );
        if head.contains(token) {
            let i: int = choose|i: int| 0 <= i < head.len() && head[i] == token;
            assert(tokens[i] == token);
        }
        assert(tokens[last] == tokens.last());
        if 0 <= at < last {
            assert(head[at] == tokens[at]);
            assert forall|j: int| at < j < head.len() && (forall|k: int|
                at < k < tokens.len() ==> #[trigger] tokens[k] != tokens[at]) implies
                #[trigger] head[j] != head[at] by {
                assert(head[j] == tokens[j]);
            }
        }
    }
}

/// An action is of another proposal exactly where its recipe or its draft is not of this one; a
/// staking action always is.
pub proof fn other_actions_are_told_apart(state: GovernanceState, key: ParticipationId)
    ensures
        state.action_flow.recipe is None && state.action_flow.draft is None
            ==> !action_of_another_key(state, key),
        state.action_flow.recipe matches Some(recipe) ==> (recipe@ is Staking
            ==> action_of_another_key(state, key)),
        state.action_flow.recipe matches Some(recipe) ==> (recipe@ matches RecipeId::Proposal {
            key: own,
            ..
        } ==> (own != key ==> action_of_another_key(state, key))),
        state.action_flow.draft matches Some(draft) ==> (draft.target@ is Staking
            ==> action_of_another_key(state, key)),
        state.action_flow.draft matches Some(draft) ==> (draft.target@ matches TargetId::Proposal(
            own,
        ) ==> (own != key ==> action_of_another_key(state, key))),
        (state.action_flow.recipe matches Some(recipe) ==> (recipe@ matches RecipeId::Proposal {
            key: own,
            ..
        } && own == key)) && (state.action_flow.draft matches Some(draft) ==> draft.target@
            == TargetId::Proposal(key)) ==> !action_of_another_key(state, key),
{
}

/// Steps are confirmed exactly where a claim goes on behind at least one.
pub proof fn confirmed_steps_are_of_a_claim(draft: GovernanceSpendDraft)
    ensures
        draft.continuation is None ==> !has_confirmed_steps(draft),
        draft.continuation matches Some(GovernanceContinuation::Reward { confirmed, .. }) ==> (
        has_confirmed_steps(draft) <==> confirmed@.len() >= 1),
{
}

} // verus!
