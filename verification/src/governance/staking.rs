//! What the staking tab has read, and which actions that allows.
use crate::address::Address;
use crate::governance::model::{
    all_zero, amounts_all_zero, same_addresses, AccountStakeResult, ContextId, GovernanceContextKey,
    RewardBatchEvidence, RewardEvidence, RewardKey, StakePosition, StakingGlobalMetrics,
};
use crate::keyed::{KeyMap, KeySet};
use crate::u256::{u256_max, U256};
use vstd::prelude::*;

verus! {

/// How long cached reward evidence may be used: one hour, in nanoseconds.
pub const STAKING_REWARD_EVIDENCE_TTL: u128 = 3_600_000_000_000;

/// Nanoseconds in one second.
pub const NANOS_PER_SECOND: u128 = 1_000_000_000;

/// The current reward interval and the time at which it ends.
#[derive(Clone, Copy, Debug, PartialEq, Eq, Structural)]
pub struct RewardIntervalCountdown {
    pub interval: U256,
    pub boundary: U256,
}

/// What the rewards contract reports of its intervals.
#[derive(Clone, Copy, Debug, PartialEq, Eq, Structural)]
pub struct GovernorRewardsIntervalMetadata {
    pub multiplier: U256,
    pub staking_deploy_time: U256,
    pub distribution_interval: U256,
    pub current_interval: U256,
}

/// The tokens of an account's last bulk read, and whether it brought evidence.
#[derive(Debug, PartialEq, Eq)]
pub struct BulkRewardReadiness {
    pub tokens: Vec<Address>,
    pub ready: bool,
}

/// The last read of one account.
#[derive(Debug, PartialEq, Eq)]
pub struct StakingAccountView {
    pub voting_power: Result<U256, String>,
    pub balance: Result<U256, String>,
    pub stakes: Result<Vec<StakePosition>, String>,
}

/// The last read of one reward.
#[derive(Debug, PartialEq, Eq)]
pub enum RewardView {
    Zero,
    Positive { amount: U256, evidence: RewardEvidence },
    Unavailable(String),
}

/// Where a refresh of the staking tab stands.
#[derive(Debug, PartialEq, Eq)]
pub enum StakingRefreshStatus {
    Idle,
    Loading,
    Fresh,
    Stale,
    Error(String),
}

/// An action on staking or rewards.
#[derive(Debug, PartialEq, Eq)]
pub enum StakingActionKind {
    Stake,
    Delegate { stake_id: U256 },
    Undelegate { stake_id: U256 },
    Unlock { stake_id: U256 },
    PrincipalClaim { stake_id: U256 },
    /// The live selection of positive reward tokens, ascending by numeric address. It may be empty
    /// while the selection form is open; review and the draft builder reject that.
    RewardClaimSelected { tokens: Vec<Address> },
}

/// An action and the account that takes it.
#[derive(Debug, PartialEq, Eq)]
pub struct StakingActionSelection {
    pub actor_uuid: String,
    pub actor: Address,
    pub kind: StakingActionKind,
}

/// What tells one action from another.
pub enum ActionKindId {
    Stake,
    Delegate(U256),
    Undelegate(U256),
    Unlock(U256),
    PrincipalClaim(U256),
    RewardClaim(Seq<Address>),
}

/// What tells one selected action from another.
pub struct ActionId {
    pub actor_uuid: Seq<char>,
    pub actor: Address,
    pub kind: ActionKindId,
}

impl View for StakingActionKind {
    type V = ActionKindId;

    open spec fn view(&self) -> ActionKindId {
        match *self {
            StakingActionKind::Stake => ActionKindId::Stake,
            StakingActionKind::Delegate { stake_id } => ActionKindId::Delegate(stake_id),
            StakingActionKind::Undelegate { stake_id } => ActionKindId::Undelegate(stake_id),
            StakingActionKind::Unlock { stake_id } => ActionKindId::Unlock(stake_id),
            StakingActionKind::PrincipalClaim { stake_id } => ActionKindId::PrincipalClaim(
                stake_id,
            ),
            StakingActionKind::RewardClaimSelected { tokens } => ActionKindId::RewardClaim(tokens@),
        }
    }
}

impl View for StakingActionSelection {
    type V = ActionId;

    open spec fn view(&self) -> ActionId {
        ActionId { actor_uuid: self.actor_uuid@, actor: self.actor, kind: self.kind@ }
    }
}

impl StakingActionKind {
    /// The stake that the action is on.
    pub fn stake_id(&self) -> (id: Option<U256>)
        ensures
            id == match *self {
                StakingActionKind::Delegate { stake_id } => Some(stake_id),
                StakingActionKind::Undelegate { stake_id } => Some(stake_id),
                StakingActionKind::Unlock { stake_id } => Some(stake_id),
                StakingActionKind::PrincipalClaim { stake_id } => Some(stake_id),
                StakingActionKind::Stake => None,
                StakingActionKind::RewardClaimSelected { .. } => None,
            },
            id == match self@ {
                ActionKindId::Delegate(id) => Some(id),
                ActionKindId::Undelegate(id) => Some(id),
                ActionKindId::Unlock(id) => Some(id),
                ActionKindId::PrincipalClaim(id) => Some(id),
                _ => None,
            },
    {
        match self {
            StakingActionKind::Delegate { stake_id } => Some(*stake_id),
            StakingActionKind::Undelegate { stake_id } => Some(*stake_id),
            StakingActionKind::Unlock { stake_id } => Some(*stake_id),
            StakingActionKind::PrincipalClaim { stake_id } => Some(*stake_id),
            _ => None,
        }
    }

    /// Whether the action has an input to compose before it is reviewed.
    pub fn is_compose_action(&self) -> (compose: bool)
        ensures
            compose == (self@ is Stake || self@ is Delegate),
            compose == (*self is Stake || *self is Delegate),
    {
        match self {
            StakingActionKind::Stake => true,
            StakingActionKind::Delegate { .. } => true,
            _ => false,
        }
    }

    /// Whether the action claims rewards.
    pub fn is_reward_action(&self) -> (reward: bool)
        ensures
            reward == (self@ is RewardClaim),
            reward == (*self is RewardClaimSelected),
    {
        match self {
            StakingActionKind::RewardClaimSelected { .. } => true,
            _ => false,
        }
    }

    /// Whether both are the same action.
    pub fn same(&self, other: &StakingActionKind) -> (same: bool)
        ensures
            same == (self@ == other@),
            same == match (*self, *other) {
                (StakingActionKind::Stake, StakingActionKind::Stake) => true,
                (
                    StakingActionKind::Delegate { stake_id: a },
                    StakingActionKind::Delegate { stake_id: b },
                ) => a == b,
                (
                    StakingActionKind::Undelegate { stake_id: a },
                    StakingActionKind::Undelegate { stake_id: b },
                ) => a == b,
                (
                    StakingActionKind::Unlock { stake_id: a },
                    StakingActionKind::Unlock { stake_id: b },
                ) => a == b,
                (
                    StakingActionKind::PrincipalClaim { stake_id: a },
                    StakingActionKind::PrincipalClaim { stake_id: b },
                ) => a == b,
                (
                    StakingActionKind::RewardClaimSelected { tokens: a },
                    StakingActionKind::RewardClaimSelected { tokens: b },
                ) => a@ == b@,
                _ => false,
            },
    {
        match (self, other) {
            (StakingActionKind::Stake, StakingActionKind::Stake) => true,
            (
                StakingActionKind::Delegate { stake_id: a },
                StakingActionKind::Delegate { stake_id: b },
            ) => *a == *b,
            (
                StakingActionKind::Undelegate { stake_id: a },
                StakingActionKind::Undelegate { stake_id: b },
            ) => *a == *b,
            (
                StakingActionKind::Unlock { stake_id: a },
                StakingActionKind::Unlock { stake_id: b },
            ) => *a == *b,
            (
                StakingActionKind::PrincipalClaim { stake_id: a },
                StakingActionKind::PrincipalClaim { stake_id: b },
            ) => *a == *b,
            (
                StakingActionKind::RewardClaimSelected { tokens: a },
                StakingActionKind::RewardClaimSelected { tokens: b },
            ) => same_addresses(a, b),
            _ => false,
        }
    }

    /// A copy of this action.
    pub fn copy(&self) -> (copy: StakingActionKind)
        ensures
            copy@ == self@,
    {
        match self {
            StakingActionKind::Stake => StakingActionKind::Stake,
            StakingActionKind::Delegate { stake_id } => StakingActionKind::Delegate {
                stake_id: *stake_id,
            },
            StakingActionKind::Undelegate { stake_id } => StakingActionKind::Undelegate {
                stake_id: *stake_id,
            },
            StakingActionKind::Unlock { stake_id } => StakingActionKind::Unlock {
                stake_id: *stake_id,
            },
            StakingActionKind::PrincipalClaim { stake_id } => StakingActionKind::PrincipalClaim {
                stake_id: *stake_id,
            },
            StakingActionKind::RewardClaimSelected { tokens } => {
                StakingActionKind::RewardClaimSelected {
                    tokens: crate::governance::model::copy_items(tokens),
                }
            },
        }
    }
}

impl StakingActionSelection {
    /// Whether both are the same action of the same account.
    pub fn same(&self, other: &StakingActionSelection) -> (same: bool)
        ensures
            same == (self@ == other@),
            same ==> self.actor_uuid@ == other.actor_uuid@ && self.actor == other.actor,
    {
        self.actor_uuid == other.actor_uuid && self.actor == other.actor && self.kind.same(
            &other.kind,
        )
    }

    /// A copy of this selection.
    pub fn copy(&self) -> (copy: StakingActionSelection)
        ensures
            copy@ == self@,
            copy.actor_uuid@ == self.actor_uuid@,
            copy.actor == self.actor,
    {
        StakingActionSelection {
            actor_uuid: self.actor_uuid.clone(),
            actor: self.actor,
            kind: self.kind.copy(),
        }
    }
}

/// The title of the dialog of an action.
pub open spec fn staking_action_title_text(kind: ActionKindId) -> Seq<char> {
    match kind {
        ActionKindId::Stake => "Stake RAIL"@,
        ActionKindId::Delegate(_) => "Delegate stake"@,
        ActionKindId::Undelegate(_) => "Undelegate stake"@,
        ActionKindId::Unlock(_) => "Unlock stake"@,
        ActionKindId::PrincipalClaim(_) => "Claim principal"@,
        ActionKindId::RewardClaim(_) => "Claim rewards"@,
    }
}

/// The title of the dialog of an action.
pub fn staking_action_title(kind: &StakingActionKind) -> (title: &'static str)
    ensures
        title@ == staking_action_title_text(kind@),
        title@ == match *kind {
            StakingActionKind::Stake => "Stake RAIL"@,
            StakingActionKind::Delegate { .. } => "Delegate stake"@,
            StakingActionKind::Undelegate { .. } => "Undelegate stake"@,
            StakingActionKind::Unlock { .. } => "Unlock stake"@,
            StakingActionKind::PrincipalClaim { .. } => "Claim principal"@,
            StakingActionKind::RewardClaimSelected { .. } => "Claim rewards"@,
        },
{
    match kind {
        StakingActionKind::Stake => "Stake RAIL",
        StakingActionKind::Delegate { .. } => "Delegate stake",
        StakingActionKind::Undelegate { .. } => "Undelegate stake",
        StakingActionKind::Unlock { .. } => "Unlock stake",
        StakingActionKind::PrincipalClaim { .. } => "Claim principal",
        StakingActionKind::RewardClaimSelected { .. } => "Claim rewards",
    }
}

/// What the staking tab has read. Results carry the key and the generation of the refresh that
/// asked for them, and only those of the current refresh are taken.
pub struct StakingReadState {
    pub key: Option<GovernanceContextKey>,
    pub generation: u64,
    pub status: StakingRefreshStatus,
    pub global_ready: bool,
    pub current_account_ids: KeySet<String>,
    pub current_reward_keys: KeySet<RewardKey>,
    pub metrics: Option<StakingGlobalMetrics>,
    pub accounts: KeyMap<String, StakingAccountView>,
    pub rewards: KeyMap<RewardKey, RewardView>,
    pub bulk_reward_readiness: KeyMap<String, BulkRewardReadiness>,
    /// Evidence with the time it was read, in nanoseconds on one monotonic clock.
    pub bulk_reward_evidence: KeyMap<String, (RewardBatchEvidence, u128)>,
    pub positive_reward_captured_at: KeyMap<RewardKey, u128>,
    pub current_bulk_reward_keys: KeySet<String>,
    /// The chain's time with the time it was read.
    pub chain_time_anchor: Option<(U256, u128)>,
    pub reward_interval_countdown: Option<RewardIntervalCountdown>,
}

/// What a `StakingReadState` holds.
#[verifier::ext_equal]
pub struct StakingRead {
    pub key: Option<ContextId>,
    pub generation: u64,
    pub status: StakingRefreshStatus,
    pub global_ready: bool,
    pub current_account_ids: Set<Seq<char>>,
    pub current_reward_keys: Set<(Seq<char>, Address)>,
    pub metrics: Option<StakingGlobalMetrics>,
    pub accounts: Map<Seq<char>, StakingAccountView>,
    pub rewards: Map<(Seq<char>, Address), RewardView>,
    pub bulk_reward_readiness: Map<Seq<char>, BulkRewardReadiness>,
    pub bulk_reward_evidence: Map<Seq<char>, (RewardBatchEvidence, u128)>,
    pub positive_reward_captured_at: Map<(Seq<char>, Address), u128>,
    pub current_bulk_reward_keys: Set<Seq<char>>,
    pub chain_time_anchor: Option<(U256, u128)>,
    pub reward_interval_countdown: Option<RewardIntervalCountdown>,
}

impl View for StakingReadState {
    type V = StakingRead;

    open spec fn view(&self) -> StakingRead {
        StakingRead {
            key: match self.key {
                Some(key) => Some(key@),
                None => None,
            },
            generation: self.generation,
            status: self.status,
            global_ready: self.global_ready,
            current_account_ids: self.current_account_ids@,
            current_reward_keys: self.current_reward_keys@,
            metrics: self.metrics,
            accounts: self.accounts@,
            rewards: self.rewards@,
            bulk_reward_readiness: self.bulk_reward_readiness@,
            bulk_reward_evidence: self.bulk_reward_evidence@,
            positive_reward_captured_at: self.positive_reward_captured_at@,
            current_bulk_reward_keys: self.current_bulk_reward_keys@,
            chain_time_anchor: self.chain_time_anchor,
            reward_interval_countdown: self.reward_interval_countdown,
        }
    }
}

/// The generation after `generation`.
pub open spec fn next_generation(generation: u64) -> u64 {
    if generation == u64::MAX {
        0
    } else {
        (generation + 1) as u64
    }
}

/// The reward that a read of one token stands for.
pub open spec fn reward_of(result: Result<Option<RewardEvidence>, String>) -> RewardView {
    match result {
        Ok(Some(evidence)) => if evidence.amount@ == 0 {
            RewardView::Zero
        } else {
            RewardView::Positive { amount: evidence.amount, evidence }
        },
        Ok(None) => RewardView::Zero,
        Err(error) => RewardView::Unavailable(error),
    }
}

/// The account that a read of it stands for: its parts, or one error in each of them.
pub open spec fn account_of(result: Result<AccountStakeResult, String>) -> StakingAccountView {
    match result {
        Ok(account) => StakingAccountView {
            voting_power: account.voting_power,
            balance: account.balance,
            stakes: account.stakes,
        },
        Err(error) => StakingAccountView {
            voting_power: Err(error),
            balance: Err(error),
            stakes: Err(error),
        },
    }
}

/// Whether what was captured at `captured_at` may still be used at `now`.
pub open spec fn evidence_usable(captured_at: u128, now: u128) -> bool {
    captured_at <= now && now - captured_at <= STAKING_REWARD_EVIDENCE_TTL
}

impl StakingRead {
    /// The state before any read.
    pub open spec fn empty() -> StakingRead {
        StakingRead {
            key: None,
            generation: 0,
            status: StakingRefreshStatus::Idle,
            global_ready: false,
            current_account_ids: Set::empty(),
            current_reward_keys: Set::empty(),
            metrics: None,
            accounts: Map::empty(),
            rewards: Map::empty(),
            bulk_reward_readiness: Map::empty(),
            bulk_reward_evidence: Map::empty(),
            positive_reward_captured_at: Map::empty(),
            current_bulk_reward_keys: Set::empty(),
            chain_time_anchor: None,
            reward_interval_countdown: None,
        }
    }

    /// The state in which a refresh of `key` has begun: nothing is current, and what an earlier
    /// refresh of the same context showed is kept to be shown.
    pub open spec fn begun(self, key: ContextId) -> StakingRead {
        let same = self.key == Some(key);
        StakingRead {
            key: Some(key),
            generation: next_generation(self.generation),
            status: StakingRefreshStatus::Loading,
            metrics: if same { self.metrics } else { None },
            accounts: if same { self.accounts } else { Map::empty() },
            rewards: if same { self.rewards } else { Map::empty() },
            chain_time_anchor: if same { self.chain_time_anchor } else { None },
            ..StakingRead::empty()
        }
    }

    /// Whether a result of the refresh with this key and generation is still wanted.
    pub open spec fn current(self, key: ContextId, generation: u64) -> bool {
        self.generation == generation && self.key == Some(key)
    }

    /// The state after a read of the global metrics.
    pub open spec fn with_global(
        self,
        result: Result<StakingGlobalMetrics, String>,
        now: u128,
    ) -> StakingRead {
        match result {
            Ok(metrics) => StakingRead {
                global_ready: true,
                chain_time_anchor: Some((metrics.chain_time, now)),
                metrics: Some(metrics),
                ..self
            },
            Err(error) => StakingRead {
                global_ready: false,
                status: if self.metrics is Some {
                    StakingRefreshStatus::Stale
                } else {
                    StakingRefreshStatus::Error(error)
                },
                ..self
            },
        }
    }

    /// The state after a read of one account.
    pub open spec fn with_account(
        self,
        uuid: Seq<char>,
        result: Result<AccountStakeResult, String>,
    ) -> StakingRead {
        StakingRead {
            accounts: self.accounts.insert(uuid, account_of(result)),
            current_account_ids: self.current_account_ids.insert(uuid),
            ..self
        }
    }

    /// The state after a read of one reward.
    pub open spec fn with_reward(
        self,
        uuid: Seq<char>,
        token: Address,
        result: Result<Option<RewardEvidence>, String>,
        now: u128,
    ) -> StakingRead {
        let reward = reward_of(result);
        StakingRead {
            positive_reward_captured_at: if reward is Positive {
                self.positive_reward_captured_at.insert((uuid, token), now)
            } else {
                self.positive_reward_captured_at.remove((uuid, token))
            },
            rewards: self.rewards.insert((uuid, token), reward),
            current_reward_keys: self.current_reward_keys.insert((uuid, token)),
            ..self
        }
    }

    /// The state after a read of all reward tokens of an account at once. The evidence is cached
    /// where it has a positive amount and is about exactly the tokens that were asked for.
    pub open spec fn with_bulk_reward(
        self,
        uuid: Seq<char>,
        tokens: Vec<Address>,
        result: Result<Option<RewardBatchEvidence>, String>,
        now: u128,
    ) -> StakingRead {
        StakingRead {
            bulk_reward_evidence: match result {
                Ok(Some(evidence)) => if !all_zero(evidence.expected_amounts@)
                    && evidence.reward_tokens@ == tokens@ {
                    self.bulk_reward_evidence.insert(uuid, (evidence, now))
                } else {
                    self.bulk_reward_evidence.remove(uuid)
                },
                _ => self.bulk_reward_evidence.remove(uuid),
            },
            bulk_reward_readiness: self.bulk_reward_readiness.insert(
                uuid,
                BulkRewardReadiness { tokens, ready: result matches Ok(Some(_)) },
            ),
            current_bulk_reward_keys: self.current_bulk_reward_keys.insert(uuid),
            ..self
        }
    }

    /// The state after the last result of a refresh.
    pub open spec fn finished(self) -> StakingRead {
        StakingRead {
            status: match self.status {
                StakingRefreshStatus::Error(_) => self.status,
                StakingRefreshStatus::Stale => self.status,
                _ => StakingRefreshStatus::Fresh,
            },
            ..self
        }
    }

    /// The reward that the current refresh produced for an account and token.
    pub open spec fn resolved(self, uuid: Seq<char>, token: Address) -> Option<RewardView> {
        if self.current_reward_keys.contains((uuid, token)) && self.rewards.contains_key(
            (uuid, token),
        ) {
            Some(self.rewards[(uuid, token)])
        } else {
            None
        }
    }

    /// Whether the current refresh produced a positive reward for an account and token.
    pub open spec fn positive(self, uuid: Seq<char>, token: Address) -> bool {
        self.resolved(uuid, token) matches Some(RewardView::Positive { .. })
    }

    /// Whether actions on the stakes of an account may be offered.
    pub open spec fn account_ready(self, uuid: Seq<char>) -> bool {
        &&& self.global_ready
        &&& self.current_account_ids.contains(uuid)
        &&& self.accounts.contains_key(uuid)
        &&& self.accounts[uuid].stakes is Ok
    }

    /// Whether a claim of this reward may be offered.
    pub open spec fn reward_ready(self, uuid: Seq<char>, token: Address) -> bool {
        self.global_ready && self.positive(uuid, token)
    }

    /// Whether an account has any positive reward to claim.
    pub open spec fn has_positive_reward(self, uuid: Seq<char>) -> bool {
        self.global_ready && exists|token: Address| self.positive(uuid, token)
    }

    /// Whether a selected action may be offered: its account is enrolled at its address, and what
    /// the action needs has been read.
    pub open spec fn selection_ready(self, selection: ActionId) -> bool {
        &&& self.global_ready
        &&& self.key matches Some(key)
        &&& exists|at: int|
            key.first(selection.actor_uuid, at) && #[trigger] key.participants[at].address
                == selection.actor
        &&& match selection.kind {
            ActionKindId::Stake => true,
            ActionKindId::RewardClaim(tokens) => self.has_positive_reward(selection.actor_uuid) && (
            forall|i: int|
                0 <= i < tokens.len() ==> self.reward_ready(
                    selection.actor_uuid,
                    #[trigger] tokens[i],
                )),
            _ => self.account_ready(selection.actor_uuid),
        }
    }

    /// Whether cached evidence of a single reward may be used for a claim.
    pub open spec fn single_usable(self, uuid: Seq<char>, token: Address, now: u128) -> bool {
        &&& self.current_reward_keys.contains((uuid, token))
        &&& self.positive_reward_captured_at.contains_key((uuid, token))
        &&& evidence_usable(self.positive_reward_captured_at[(uuid, token)], now)
        &&& self.rewards.contains_key((uuid, token))
        &&& self.rewards[(uuid, token)] matches RewardView::Positive { evidence, .. }
        &&& evidence.token == token
    }

    /// Whether cached evidence of an account's whole token set may be used for a claim.
    pub open spec fn bulk_usable(self, uuid: Seq<char>, now: u128) -> bool {
        &&& self.current_bulk_reward_keys.contains(uuid)
        &&& self.bulk_reward_evidence.contains_key(uuid)
        &&& evidence_usable(self.bulk_reward_evidence[uuid].1, now)
        &&& self.bulk_reward_readiness.contains_key(uuid)
        &&& self.bulk_reward_readiness[uuid].ready
        &&& self.bulk_reward_readiness[uuid].tokens@
            == self.bulk_reward_evidence[uuid].0.reward_tokens@
    }

    /// Whether cached evidence may be asked for at all.
    pub open spec fn cache_applies(
        self,
        key: ContextId,
        uuid: Seq<char>,
        actor: Address,
        tokens: Seq<Address>,
    ) -> bool {
        &&& self.global_ready
        &&& self.key == Some(key)
        &&& key.enrolls_at(uuid, actor)
        &&& tokens.len() > 0
    }

    /// The chain's time at `now`, as far as 256 bits hold it.
    pub open spec fn chain_time_at(self, now: u128) -> Option<nat> {
        match self.chain_time_anchor {
            Some((chain_time, captured_at)) => {
                let elapsed = if now < captured_at {
                    0
                } else {
                    ((now - captured_at) / NANOS_PER_SECOND as int) as nat
                };
                if chain_time@ + elapsed <= u256_max() {
                    Some(chain_time@ + elapsed)
                } else {
                    None
                }
            },
            None => None,
        }
    }
}

/// Cached evidence for a claim: that of a single reward, or that of the account's whole token set,
/// which is still to be projected onto the tokens of the claim.
pub enum CachedRewardEvidence<'a> {
    Single(RewardBatchEvidence),
    Bulk(&'a RewardBatchEvidence),
}

impl StakingReadState {
    /// The state before any read.
    pub fn default() -> (state: StakingReadState)
        ensures
            state@ == StakingRead::empty(),
    {
        StakingReadState {
            key: None,
            generation: 0,
            status: StakingRefreshStatus::Idle,
            global_ready: false,
            current_account_ids: KeySet::new(),
            current_reward_keys: KeySet::new(),
            metrics: None,
            accounts: KeyMap::new(),
            rewards: KeyMap::new(),
            bulk_reward_readiness: KeyMap::new(),
            bulk_reward_evidence: KeyMap::new(),
            positive_reward_captured_at: KeyMap::new(),
            current_bulk_reward_keys: KeySet::new(),
            chain_time_anchor: None,
            reward_interval_countdown: None,
        }
    }

    /// Begins a refresh of `key` and returns its generation.
    pub fn begin(&mut self, key: GovernanceContextKey) -> (generation: u64)
        ensures
            final(self)@ == old(self)@.begun(key@),
            generation == final(self)@.generation,
            generation as int == (old(self).generation + 1) % 0x1_0000_0000_0000_0000,
            final(self).status is Loading,
            !final(self).global_ready,
            final(self).current_account_ids@ == Set::<Seq<char>>::empty(),
            final(self).current_reward_keys@ == Set::<(Seq<char>, Address)>::empty(),
            final(self).current_bulk_reward_keys@ == Set::<Seq<char>>::empty(),
            final(self).key matches Some(own) && own@ == key@,
            if old(self).key matches Some(own) && own@ == key@ {
                final(self).metrics == old(self).metrics && final(self).accounts@
                    == old(self).accounts@ && final(self).rewards@ == old(self).rewards@
                    && final(self).chain_time_anchor == old(self).chain_time_anchor
            } else {
                final(self).metrics is None && final(self).chain_time_anchor is None
                    && final(self).accounts@ == Map::<Seq<char>, StakingAccountView>::empty()
                    && final(self).rewards@ == Map::<(Seq<char>, Address), RewardView>::empty()
            },
    {
        let same_context = match &self.key {
            Some(current) => current.same(&key),
            None => false,
        };
        self.generation = self.generation.wrapping_add(1);
        self.key = Some(key);
        self.status = StakingRefreshStatus::Loading;
        self.global_ready = false;
        self.current_account_ids.clear();
        self.current_reward_keys.clear();
        self.current_bulk_reward_keys.clear();
        self.bulk_reward_readiness.clear();
        self.bulk_reward_evidence.clear();
        self.positive_reward_captured_at.clear();
        self.reward_interval_countdown = None;
        if !same_context {
            self.metrics = None;
            self.accounts.clear();
            self.rewards.clear();
            self.chain_time_anchor = None;
        }
        self.generation
    }

    /// Whether a result of the refresh with this key and generation is still wanted.
    pub fn current(&self, key: &GovernanceContextKey, generation: u64) -> (current: bool)
        ensures
            current == self@.current(key@, generation),
            current == (self.generation == generation && (self.key matches Some(own) && own@
                == key@)),
    {
        self.generation == generation && match &self.key {
            Some(own) => own.same(key),
            None => false,
        }
    }

    /// Takes a read of the global metrics, made at `now`.
    pub fn apply_global(
        &mut self,
        key: &GovernanceContextKey,
        generation: u64,
        result: Result<StakingGlobalMetrics, String>,
        now: u128,
    ) -> (applied: bool)
        ensures
            applied == old(self)@.current(key@, generation),
            applied ==> final(self)@ == old(self)@.with_global(result, now),
            applied ==> match result {
                Ok(metrics) => final(self).global_ready && final(self).metrics == Some(metrics)
                    && final(self).chain_time_anchor == Some((metrics.chain_time, now))
                    && final(self).status == old(self).status,
                Err(error) => !final(self).global_ready && final(self).metrics == old(self).metrics
                    && final(self).chain_time_anchor == old(self).chain_time_anchor
                    && final(self).status == (if old(self).metrics is Some {
                    StakingRefreshStatus::Stale
                } else {
                    StakingRefreshStatus::Error(error)
                }),
            },
            !applied ==> *final(self) == *old(self),
    {
        if !self.current(key, generation) {
            return false;
        }
        match result {
            Ok(metrics) => {
                self.global_ready = true;
                self.chain_time_anchor = Some((metrics.chain_time, now));
                self.metrics = Some(metrics);
            },
            Err(error) => {
                self.global_ready = false;
                self.status =
                if self.metrics.is_some() {
                    StakingRefreshStatus::Stale
                } else {
                    StakingRefreshStatus::Error(error)
                };
            },
        }
        true
    }

    /// Takes the reward interval.
    pub fn apply_reward_interval(
        &mut self,
        key: &GovernanceContextKey,
        generation: u64,
        countdown: Option<RewardIntervalCountdown>,
    ) -> (applied: bool)
        ensures
            applied == old(self)@.current(key@, generation),
            applied ==> final(self)@ == (StakingRead {
                reward_interval_countdown: countdown,
                ..old(self)@
            }),
            !applied ==> *final(self) == *old(self),
    {
        if !self.current(key, generation) {
            return false;
        }
        self.reward_interval_countdown = countdown;
        true
    }

    /// Takes a read of one enrolled account.
    pub fn apply_account(
        &mut self,
        key: &GovernanceContextKey,
        generation: u64,
        uuid: String,
        result: Result<AccountStakeResult, String>,
    ) -> (applied: bool)
        ensures
            applied == (old(self)@.current(key@, generation) && key@.enrolls(uuid@)),
            applied ==> final(self)@ == old(self)@.with_account(uuid@, result),
            applied ==> final(self).current_account_ids@.contains(uuid@)
                && final(self).accounts@.contains_key(uuid@) && match result {
                Ok(account) => final(self).accounts@[uuid@].stakes == account.stakes
                    && final(self).accounts@[uuid@].balance == account.balance
                    && final(self).accounts@[uuid@].voting_power == account.voting_power,
                Err(error) => final(self).accounts@[uuid@].stakes matches Err(stakes)
                    && final(self).accounts@[uuid@].balance matches Err(balance)
                    && final(self).accounts@[uuid@].voting_power matches Err(power) && stakes
                    == error && balance == error && power == error,
            },
            forall|other: Seq<char>|
                other != uuid@ ==> (#[trigger] final(self).accounts@.contains_key(other)
                    == old(self).accounts@.contains_key(other)) && (
                final(self).accounts@.contains_key(other) ==> final(self).accounts@[other]
                    == old(self).accounts@[other]),
            !applied ==> *final(self) == *old(self),
    {
        if !self.current(key, generation) || !key.enrolls(&uuid) {
            return false;
        }
        let view = match result {
            Ok(account) => StakingAccountView {
                voting_power: account.voting_power,
                balance: account.balance,
                stakes: account.stakes,
            },
            Err(error) => StakingAccountView {
                voting_power: Err(error.clone()),
                balance: Err(error.clone()),
                stakes: Err(error),
            },
        };
        self.accounts.insert(uuid.clone(), view);
        self.current_account_ids.insert(uuid);
        true
    }

    /// Takes a read of one reward of an enrolled account, made at `now`.
    pub fn apply_reward(
        &mut self,
        key: &GovernanceContextKey,
        generation: u64,
        uuid: String,
        token: Address,
        result: Result<Option<RewardEvidence>, String>,
        now: u128,
    ) -> (applied: bool)
        ensures
            applied == (old(self)@.current(key@, generation) && key@.enrolls(uuid@)),
            applied ==> final(self)@ == old(self)@.with_reward(uuid@, token, result, now),
            applied ==> final(self).current_reward_keys@.contains((uuid@, token))
                && final(self).rewards@.contains_key((uuid@, token)) && match (
                result,
                final(self).rewards@[(uuid@, token)],
            ) {
                (Ok(Some(found)), RewardView::Positive { amount, evidence }) => found.amount@ > 0
                    && amount == found.amount && evidence == found
                    && final(self).positive_reward_captured_at@.contains_key((uuid@, token))
                    && final(self).positive_reward_captured_at@[(uuid@, token)] == now,
                (Ok(Some(found)), RewardView::Zero) => found.amount@ == 0,
                (Ok(None), RewardView::Zero) => true,
                (Err(error), RewardView::Unavailable(shown)) => shown == error,
                _ => false,
            },
            forall|other: (Seq<char>, Address)|
                other != (uuid@, token) ==> (#[trigger] final(self).rewards@.contains_key(other)
                    == old(self).rewards@.contains_key(other)) && (
                final(self).rewards@.contains_key(other) ==> final(self).rewards@[other]
                    == old(self).rewards@[other]),
            !applied ==> *final(self) == *old(self),
    {
        if !self.current(key, generation) || !key.enrolls(&uuid) {
            return false;
        }
        let reward_key = RewardKey { uuid, token };
        self.positive_reward_captured_at.remove(&reward_key);
        let reward = match result {
            Ok(None) => RewardView::Zero,
            Ok(Some(evidence)) => if evidence.amount.is_zero() {
                RewardView::Zero
            } else {
                self.positive_reward_captured_at.insert(reward_key.copy(), now);
                RewardView::Positive { amount: evidence.amount, evidence }
            },
            Err(error) => RewardView::Unavailable(error),
        };
        self.rewards.insert(reward_key.copy(), reward);
        self.current_reward_keys.insert(reward_key);
        proof {
            assert(old(self)@.positive_reward_captured_at.remove((uuid@, token)).insert(
                (uuid@, token),
                now,
            ) =~= old(self)@.positive_reward_captured_at.insert((uuid@, token), now));
        }
        true
    }

    /// Takes a read of all reward tokens of an enrolled account, made at `now`.
    pub fn apply_bulk_reward(
        &mut self,
        key: &GovernanceContextKey,
        generation: u64,
        uuid: String,
        tokens: Vec<Address>,
        result: Result<Option<RewardBatchEvidence>, String>,
        now: u128,
    ) -> (applied: bool)
        ensures
            applied == (old(self)@.current(key@, generation) && key@.enrolls(uuid@)),
            applied ==> final(self)@ == old(self)@.with_bulk_reward(uuid@, tokens, result, now),
            !applied ==> *final(self) == *old(self),
    {
        if !self.current(key, generation) || !key.enrolls(&uuid) {
            return false;
        }
        let ghost taken = result;
        self.bulk_reward_evidence.remove(&uuid);
        let ready = match result {
            Ok(Some(evidence)) => {
                if !amounts_all_zero(&evidence.expected_amounts) && same_addresses(
                    &evidence.reward_tokens,
                    &tokens,
                ) {
                    self.bulk_reward_evidence.insert(uuid.clone(), (evidence, now));
                }
                true
            },
            _ => false,
        };
        self.bulk_reward_readiness.insert(uuid.clone(), BulkRewardReadiness { tokens, ready });
        self.current_bulk_reward_keys.insert(uuid);
        proof {
            if let Ok(Some(evidence)) = taken {
                assert(old(self)@.bulk_reward_evidence.remove(uuid@).insert(
                    uuid@,
                    (evidence, now),
                ) =~= old(self)@.bulk_reward_evidence.insert(uuid@, (evidence, now)));
            }
        }
        true
    }

    /// The row that the current refresh produced for an account and token, or `None` while it is
    /// still loading.
    pub fn resolved_reward(&self, uuid: &str, token: Address) -> (reward: Option<&RewardView>)
        ensures
            match reward {
                Some(found) => self@.resolved(uuid@, token) == Some(*found),
                None => self@.resolved(uuid@, token) is None,
            },
            reward is Some <==> self.current_reward_keys@.contains((uuid@, token))
                && self.rewards@.contains_key((uuid@, token)),
            reward matches Some(found) ==> *found == self.rewards@[(uuid@, token)],
    {
        let reward_key = RewardKey::new(uuid, token);
        if self.current_reward_keys.contains(&reward_key) {
            self.rewards.get(&reward_key)
        } else {
            None
        }
    }

    /// The evidence behind a current positive row.
    pub fn positive_reward_evidence(&self, uuid: &str, token: Address) -> (evidence: Option<
        &RewardEvidence,
    >)
        ensures
            match evidence {
                Some(found) => (self@.resolved(uuid@, token) matches Some(
                    RewardView::Positive { evidence: own, .. },
                ) && own == *found),
                None => !self@.positive(uuid@, token),
            },
    {
        match self.resolved_reward(uuid, token) {
            Some(RewardView::Positive { evidence, .. }) => Some(evidence),
            _ => None,
        }
    }

    /// Whether the global metrics of the current refresh are in.
    pub fn global_action_ready(&self) -> (ready: bool)
        ensures
            ready == self@.global_ready,
    {
        self.global_ready
    }

    /// Whether actions on the stakes of an account may be offered.
    pub fn account_action_ready(&self, uuid: &str) -> (ready: bool)
        ensures
            ready == self@.account_ready(uuid@),
            ready == (self.global_ready && self.current_account_ids@.contains(uuid@)
                && self.accounts@.contains_key(uuid@) && self.accounts@[uuid@].stakes is Ok),
    {
        let id = uuid.to_owned();
        self.global_ready && self.current_account_ids.contains(&id) && match self.accounts.get(
            &id,
        ) {
            Some(account) => account.stakes.is_ok(),
            None => false,
        }
    }

    /// Whether a claim of this reward may be offered.
    pub fn reward_action_ready(&self, uuid: &str, token: Address) -> (ready: bool)
        ensures
            ready == self@.reward_ready(uuid@, token),
            ready == (self.global_ready && self.current_reward_keys@.contains((uuid@, token))
                && self.rewards@.contains_key((uuid@, token)) && self.rewards@[(
                uuid@,
                token,
            )] is Positive),
    {
        self.global_ready && self.positive_reward_evidence(uuid, token).is_some()
    }

    /// Whether any resolved reward row of this account is positive, which is what the account's
    /// claim selection needs before it can be opened with nothing selected yet.
    pub fn account_has_positive_reward(&self, uuid: &str) -> (positive: bool)
        ensures
            positive == self@.has_positive_reward(uuid@),
    {
        if !self.global_ready {
            return false;
        }
        let count: usize = self.current_reward_keys.len();
        let mut i: usize = 0;
        while i < count
            invariant
                i <= count == self.current_reward_keys.seq().len(),
                forall|j: int|
                    0 <= j < i ==> ((#[trigger] self.current_reward_keys.seq()[j]).0@.0 != uuid@
                        || !self@.positive(uuid@, self.current_reward_keys.seq()[j].0@.1)),
                forall|j: int|
                    0 <= j < self.current_reward_keys.seq().len()
                        ==> self.current_reward_keys@.contains(
                        (#[trigger] self.current_reward_keys.seq()[j]).0@,
                    ),
                self.global_ready,
            decreases count - i,
        {
            let reward_key = self.current_reward_keys.member(i);
            if crate::text::same_text(&reward_key.uuid, uuid) {
                if let Some(RewardView::Positive { .. }) = self.rewards.get(reward_key) {
                    assert(self@.positive(uuid@, reward_key@.1));
                    return true;
                }
            }
            i += 1;
        }
        proof {
            assert forall|token: Address| !self@.positive(uuid@, token) by {
                if self@.positive(uuid@, token) {
                    assert(self.current_reward_keys@.contains((uuid@, token)));
                    let j = choose|j: int|
                        0 <= j < self.current_reward_keys.seq().len()
                            && (#[trigger] self.current_reward_keys.seq()[j]).0@ == (uuid@, token);
                    assert(self.current_reward_keys.seq()[j].0@ == (uuid@, token));
                }
            }
        }
        false
    }

    /// The cached evidence for a claim of `tokens` at `now`: the evidence of the one token, or the
    /// evidence of the whole token set to be projected onto `tokens`.
    pub fn cached_reward_evidence_at(
        &self,
        key: &GovernanceContextKey,
        uuid: &str,
        actor: Address,
        tokens: &Vec<Address>,
        now: u128,
    ) -> (source: Option<CachedRewardEvidence<'_>>)
        ensures
            match source {
                Some(CachedRewardEvidence::Single(batch)) => self@.cache_applies(
                    key@,
                    uuid@,
                    actor,
                    tokens@,
                ) && tokens@.len() == 1 && self@.single_usable(uuid@, tokens@[0], now) && (
                self@.rewards[(uuid@, tokens@[0])] matches RewardView::Positive { evidence, .. }
                    && batch@ == evidence.batch()),
                Some(CachedRewardEvidence::Bulk(evidence)) => self@.cache_applies(
                    key@,
                    uuid@,
                    actor,
                    tokens@,
                ) && tokens@.len() > 1 && self@.bulk_usable(uuid@, now) && *evidence
                    == self@.bulk_reward_evidence[uuid@].0,
                None => !self@.cache_applies(key@, uuid@, actor, tokens@) || (tokens@.len() == 1
                    && !self@.single_usable(uuid@, tokens@[0], now)) || (tokens@.len() > 1
                    && !self@.bulk_usable(uuid@, now)),
            },
    {
        let same_key = match &self.key {
            Some(own) => own.same(key),
            None => false,
        };
        if !self.global_ready || !same_key || !key.enrolls_at(uuid, actor) || tokens.len() == 0 {
            return None;
        }
        if tokens.len() == 1 {
            let token = tokens[0];
            let reward_key = RewardKey::new(uuid, token);
            if !self.current_reward_keys.contains(&reward_key) {
                return None;
            }
            let usable = match self.positive_reward_captured_at.get(&reward_key) {
                Some(captured_at) => *captured_at <= now && now - *captured_at
                    <= STAKING_REWARD_EVIDENCE_TTL,
                None => false,
            };
            if !usable {
                return None;
            }
            return match self.rewards.get(&reward_key) {
                Some(RewardView::Positive { evidence, .. }) => if evidence.token == token {
                    Some(CachedRewardEvidence::Single(evidence.to_batch()))
                } else {
                    None
                },
                _ => None,
            };
        }
        let id = uuid.to_owned();
        if !self.current_bulk_reward_keys.contains(&id) {
            return None;
        }
        match (self.bulk_reward_evidence.get(&id), self.bulk_reward_readiness.get(&id)) {
            (Some(cached), Some(readiness)) => {
                if cached.1 <= now && now - cached.1 <= STAKING_REWARD_EVIDENCE_TTL
                    && readiness.ready && same_addresses(
                    &readiness.tokens,
                    &cached.0.reward_tokens,
                ) {
                    Some(CachedRewardEvidence::Bulk(&cached.0))
                } else {
                    None
                }
            },
            _ => None,
        }
    }

    /// Whether a claim of each of these rewards may be offered.
    fn all_rewards_ready(&self, uuid: &str, tokens: &Vec<Address>) -> (ready: bool)
        ensures
            ready == forall|i: int|
                0 <= i < tokens@.len() ==> self@.reward_ready(uuid@, #[trigger] tokens@[i]),
    {
        let mut i: usize = 0;
        while i < tokens.len()
            invariant
                i <= tokens@.len(),
                forall|j: int| 0 <= j < i ==> self@.reward_ready(uuid@, #[trigger] tokens@[j]),
            decreases tokens@.len() - i,
        {
            if !self.reward_action_ready(uuid, tokens[i]) {
                assert(!self@.reward_ready(uuid@, tokens@[i as int]));
                return false;
            }
            i += 1;
        }
        true
    }

    /// Whether a selected action may be offered.
    pub fn action_selection_ready(&self, selection: &StakingActionSelection) -> (ready: bool)
        ensures
            ready == self@.selection_ready(selection@),
            selection.kind is Delegate || selection.kind is Undelegate || selection.kind is Unlock
                || selection.kind is PrincipalClaim ==> (ready <==> self.global_ready && (
            self.key matches Some(key) && exists|at: int|
                key@.first(selection.actor_uuid@, at) && #[trigger] key@.participants[at].address
                    == selection.actor) && self.current_account_ids@.contains(
                selection.actor_uuid@,
            ) && self.accounts@.contains_key(selection.actor_uuid@)
                && self.accounts@[selection.actor_uuid@].stakes is Ok),
            selection.kind is Stake ==> (ready <==> self.global_ready && (self.key matches Some(key)
                && exists|at: int|
                key@.first(selection.actor_uuid@, at) && #[trigger] key@.participants[at].address
                    == selection.actor)),
            ready ==> self.global_ready,
    {
        if !self.global_ready {
            return false;
        }
        let key = match &self.key {
            Some(key) => key,
            None => return false,
        };
        let at = match key.position(&selection.actor_uuid) {
            Some(at) => at,
            None => {
                proof {
                    assert forall|at: int| !key@.first(selection@.actor_uuid, at) by {
                        if key@.first(selection@.actor_uuid, at) {
                            assert(key@.participants[at].uuid == selection@.actor_uuid);
                        }
                    }
                }
                return false;
            },
        };
        proof {
            assert forall|other: int| key@.first(selection@.actor_uuid, other) implies other
                == at by {
                if other < at {
                    assert(key@.participants[other].uuid != selection@.actor_uuid);
                }
                if at < other {
                    assert(key@.participants[at as int].uuid != selection@.actor_uuid);
                }
            }
        }
        if key.participants[at].address != selection.actor {
            return false;
        }
        assert(key@.first(selection@.actor_uuid, at as int)
            && key@.participants[at as int].address == selection@.actor);
        proof {
            let parts = selection@;
            assert(parts.actor_uuid == selection.actor_uuid@);
            if let ActionKindId::RewardClaim(claimed) = parts.kind {
                assert(selection.kind is RewardClaimSelected);
                assert(claimed == selection.kind->tokens@);
            }
        }
        let uuid: &str = &selection.actor_uuid;
        match &selection.kind {
            StakingActionKind::Stake => true,
            StakingActionKind::RewardClaimSelected { tokens } => {
                self.account_has_positive_reward(uuid) && self.all_rewards_ready(uuid, tokens)
            },
            _ => self.account_action_ready(uuid),
        }
    }

    /// Takes the end of a refresh.
    pub fn finish(&mut self, key: &GovernanceContextKey, generation: u64) -> (applied: bool)
        ensures
            applied == old(self)@.current(key@, generation),
            applied ==> final(self)@ == old(self)@.finished(),
            applied ==> match old(self).status {
                StakingRefreshStatus::Error(_) => final(self).status == old(self).status,
                StakingRefreshStatus::Stale => final(self).status is Stale,
                _ => final(self).status is Fresh,
            },
            !applied ==> *final(self) == *old(self),
    {
        if !self.current(key, generation) {
            return false;
        }
        let keep = match &self.status {
            StakingRefreshStatus::Error(_) => true,
            StakingRefreshStatus::Stale => true,
            _ => false,
        };
        if !keep {
            self.status = StakingRefreshStatus::Fresh;
        }
        true
    }

    /// Forgets what was read, so that no result under way is taken.
    pub fn invalidate(&mut self)
        ensures
            final(self)@ == (StakingRead {
                generation: next_generation(old(self)@.generation),
                ..StakingRead::empty()
            }),
    {
        self.generation = self.generation.wrapping_add(1);
        self.key = None;
        self.status = StakingRefreshStatus::Idle;
        self.global_ready = false;
        self.current_account_ids.clear();
        self.current_reward_keys.clear();
        self.current_bulk_reward_keys.clear();
        self.metrics = None;
        self.accounts.clear();
        self.rewards.clear();
        self.bulk_reward_readiness.clear();
        self.bulk_reward_evidence.clear();
        self.positive_reward_captured_at.clear();
        self.chain_time_anchor = None;
        self.reward_interval_countdown = None;
    }

    /// The chain's time at `now`.
    pub fn chain_time(&self, now: u128) -> (time: Option<U256>)
        ensures
            match time {
                Some(found) => self@.chain_time_at(now) == Some(found@),
                None => self@.chain_time_at(now) is None,
            },
            match (self.chain_time_anchor, time) {
                (None, _) => time is None,
                (Some((anchor, captured_at)), Some(found)) => if now < captured_at {
                    found@ == anchor@
                } else {
                    (found@ - anchor@) * 1_000_000_000 <= now - captured_at < (found@ - anchor@ + 1)
                        * 1_000_000_000
                },
                (Some((anchor, captured_at)), None) => now >= captured_at && anchor@ * 1_000_000_000
                    + (now - captured_at) > u256_max() * 1_000_000_000,
            },
    {
        match self.chain_time_anchor {
            Some((chain_time, captured_at)) => {
                let elapsed: u128 = now.saturating_sub(captured_at) / NANOS_PER_SECOND;
                chain_time.checked_add(U256::from_u128(elapsed))
            },
            None => None,
        }
    }
}

/// The cached evidence for a claim: what `project` made of the evidence of the whole token set is
/// taken where it has a positive amount.
pub fn accept_projected_evidence(projected: Option<RewardBatchEvidence>) -> (evidence: Option<
    RewardBatchEvidence,
>)
    ensures
        evidence == match projected {
            Some(found) => if all_zero(found@.expected_amounts) {
                None
            } else {
                Some(found)
            },
            None => None,
        },
{
    match projected {
        Some(found) => if amounts_all_zero(&found.expected_amounts) {
            None
        } else {
            Some(found)
        },
        None => None,
    }
}

/// Two actions are the same only where they are of one kind, on the same stake or of the same
/// rewards.
pub proof fn actions_are_told_apart(a: StakingActionKind, b: StakingActionKind)
    ensures
        a@ == b@ <==> match (a, b) {
            (StakingActionKind::Stake, StakingActionKind::Stake) => true,
            (
                StakingActionKind::Delegate { stake_id: x },
                StakingActionKind::Delegate { stake_id: y },
            ) => x == y,
            (
                StakingActionKind::Undelegate { stake_id: x },
                StakingActionKind::Undelegate { stake_id: y },
            ) => x == y,
            (StakingActionKind::Unlock { stake_id: x }, StakingActionKind::Unlock { stake_id: y }) => x
                == y,
            (
                StakingActionKind::PrincipalClaim { stake_id: x },
                StakingActionKind::PrincipalClaim { stake_id: y },
            ) => x == y,
            (
                StakingActionKind::RewardClaimSelected { tokens: x },
                StakingActionKind::RewardClaimSelected { tokens: y },
            ) => x@ == y@,
            _ => false,
        },
{
}

/// Two selections are the same only where the account agrees too.
pub proof fn selections_are_told_apart(a: StakingActionSelection, b: StakingActionSelection)
    ensures
        a@ == b@ <==> (a.actor_uuid@ == b.actor_uuid@ && a.actor == b.actor && a.kind@ == b.kind@),
{
}

/// An action on a stake may be offered exactly where the global metrics are in and the stakes of
/// its account were read in the current refresh, whatever the action is.
pub proof fn actions_on_stakes_need_the_stakes(read: StakingRead, selection: ActionId, at: int)
    requires
        read.key matches Some(key) && key.first(selection.actor_uuid, at) && key.participants[at].address
            == selection.actor,
    ensures
        ({
            let read_now = read.global_ready && read.current_account_ids.contains(
                selection.actor_uuid,
            ) && read.accounts.contains_key(selection.actor_uuid)
                && read.accounts[selection.actor_uuid].stakes is Ok;
            &&& selection.kind is Delegate ==> (read.selection_ready(selection) <==> read_now)
            &&& selection.kind is Undelegate ==> (read.selection_ready(selection) <==> read_now)
            &&& selection.kind is Unlock ==> (read.selection_ready(selection) <==> read_now)
            &&& selection.kind is PrincipalClaim ==> (read.selection_ready(selection) <==> read_now)
        }),
{
}

/// New stake may be offered exactly where the global metrics are in.
pub proof fn staking_needs_the_metrics_alone(read: StakingRead, selection: ActionId, at: int)
    requires
        selection.kind is Stake,
        read.key matches Some(key) && key.first(selection.actor_uuid, at) && key.participants[at].address
            == selection.actor,
    ensures
        read.selection_ready(selection) <==> read.global_ready,
{
}

/// A claim may be offered exactly where the global metrics are in, the account has a reward, and
/// each reward of the claim was read as positive in the current refresh.
pub proof fn claims_need_positive_rewards(
    read: StakingRead,
    selection: ActionId,
    tokens: Seq<Address>,
    at: int,
    some: Address,
)
    requires
        selection.kind == ActionKindId::RewardClaim(tokens),
        read.key matches Some(key) && key.first(selection.actor_uuid, at) && key.participants[at].address
            == selection.actor,
        read.rewards.contains_key((selection.actor_uuid, some)),
        read.current_reward_keys.contains((selection.actor_uuid, some)),
        read.rewards[(selection.actor_uuid, some)] is Positive,
    ensures
        read.selection_ready(selection) <==> read.global_ready && forall|i: int|
            0 <= i < tokens.len() ==> read.current_reward_keys.contains(
                (selection.actor_uuid, #[trigger] tokens[i]),
            ) && read.rewards.contains_key((selection.actor_uuid, tokens[i]))
                && read.rewards[(selection.actor_uuid, tokens[i])] is Positive,
{
    assert(read.positive(selection.actor_uuid, some));
    if read.selection_ready(selection) {
        assert forall|i: int| 0 <= i < tokens.len() implies read.current_reward_keys.contains(
            (selection.actor_uuid, #[trigger] tokens[i]),
        ) && read.rewards.contains_key((selection.actor_uuid, tokens[i])) && read.rewards[(
            selection.actor_uuid,
            tokens[i],
        )] is Positive by {
            let own = selection.kind->RewardClaim_0;
            assert(own == tokens);
            assert(read.reward_ready(selection.actor_uuid, own[i]));
        }
    }
}

/// Nothing is offered to an account that is not enrolled at its address.
pub proof fn actions_are_of_enrolled_accounts(read: StakingRead, selection: ActionId)
    requires
        read.selection_ready(selection),
    ensures
        read.key matches Some(key) && exists|i: int|
            0 <= i < key.participants.len() && (#[trigger] key.participants[i]).uuid
                == selection.actor_uuid && key.participants[i].address == selection.actor,
{
    let key = read.key.unwrap();
    let at = choose|at: int|
        key.first(selection.actor_uuid, at) && #[trigger] key.participants[at].address
            == selection.actor;
    assert(key.participants[at].uuid == selection.actor_uuid);
}

/// The chain's time never runs back as the clock goes on.
pub proof fn chain_time_never_runs_back(read: StakingRead, earlier: u128, later: u128)
    requires
        earlier <= later,
    ensures
        match (read.chain_time_at(earlier), read.chain_time_at(later)) {
            (Some(before), Some(after)) => before <= after,
            (None, Some(_)) => false,
            _ => true,
        },
{
    match read.chain_time_anchor {
        Some((_, captured_at)) => {
            if captured_at <= earlier {
                assert((earlier - captured_at) / 1_000_000_000 <= (later - captured_at)
                    / 1_000_000_000) by (nonlinear_arith)
                    requires
                        earlier <= later,
                        captured_at <= earlier,
                ;
            }
        },
        None => {},
    }
}

/// A second on the clock is a second on the chain, however long ago the chain's time was read.
pub proof fn a_second_is_a_second_on_the_chain(
    read: StakingRead,
    anchor: U256,
    captured_at: u128,
    now: u128,
    time: nat,
)
    requires
        read.chain_time_anchor == Some((anchor, captured_at)),
        captured_at <= now,
        now + 1_000_000_000 <= u128::MAX,
        read.chain_time_at(now) == Some(time),
        time < u256_max(),
    ensures
        read.chain_time_at((now + 1_000_000_000) as u128) == Some(time + 1),
{
    let passed: int = now - captured_at;
    assert((passed + 1_000_000_000) / 1_000_000_000 == passed / 1_000_000_000 + 1)
        by (nonlinear_arith);
}

/// The chain's time is what was read when it was read, and then grows by the whole seconds that
/// have passed.
pub proof fn chain_time_counts_from_its_anchor(
    read: StakingRead,
    anchor: U256,
    captured_at: u128,
    seconds: nat,
    part: nat,
)
    requires
        read.chain_time_anchor == Some((anchor, captured_at)),
        captured_at + seconds * 1_000_000_000 + part <= u128::MAX,
        part < 1_000_000_000,
        anchor@ + seconds <= u256_max(),
    ensures
        read.chain_time_at((captured_at + seconds * 1_000_000_000 + part) as u128) == Some(
            anchor@ + seconds,
        ),
{
    let passed: int = (seconds * 1_000_000_000 + part) as int;
    assert(passed / 1_000_000_000 == seconds as int) by (nonlinear_arith)
        requires
            passed == seconds * 1_000_000_000 + part,
            0 <= part < 1_000_000_000,
    ;
}

/// Evidence can be used for an hour from when it was captured, and not before.
pub proof fn evidence_lasts_an_hour(captured_at: u128, now: u128)
    ensures
        evidence_usable(captured_at, now) <==> captured_at <= now <= captured_at
            + 3_600_000_000_000,
{
}

/// Generations follow one another and start over after the last.
pub proof fn generations_follow_one_another(generation: u64)
    ensures
        next_generation(generation) as int == (generation + 1) % 0x1_0000_0000_0000_0000,
        next_generation(generation) != generation,
{
}

/// A reward is positive exactly where evidence of a positive amount was found, and it has that
/// amount and that evidence. A read that failed is no reward of zero.
pub proof fn rewards_are_what_was_read(result: Result<Option<RewardEvidence>, String>)
    ensures
        match reward_of(result) {
            RewardView::Positive { amount, evidence } => result == Ok::<
                Option<RewardEvidence>,
                String,
            >(Some(evidence)) && amount == evidence.amount && amount@ > 0,
            RewardView::Zero => match result {
                Ok(Some(evidence)) => evidence.amount@ == 0,
                Ok(None) => true,
                Err(_) => false,
            },
            RewardView::Unavailable(error) => result == Err::<Option<RewardEvidence>, String>(error),
        },
{
}

/// What was read of an account is kept part by part; a read that failed fails each part.
pub proof fn accounts_are_what_was_read(result: Result<AccountStakeResult, String>)
    ensures
        match result {
            Ok(account) => account_of(result).stakes == account.stakes && account_of(result).balance
                == account.balance && account_of(result).voting_power == account.voting_power,
            Err(error) => account_of(result).stakes == Err::<Vec<StakePosition>, String>(error)
                && account_of(result).balance == Err::<U256, String>(error) && account_of(
                result,
            ).voting_power == Err::<U256, String>(error),
        },
{
}

/// A refresh that begins makes everything wait for its own results: nothing of an earlier refresh is
/// offered, and what is known of the same context stays to be shown.
pub proof fn a_begun_refresh_offers_nothing(read: StakingRead, key: ContextId, selection: ActionId)
    ensures
        !read.begun(key).selection_ready(selection),
        read.begun(key).key == Some(key),
        read.begun(key).status is Loading,
        !read.begun(key).global_ready,
        read.begun(key).current_account_ids == Set::<Seq<char>>::empty(),
        read.begun(key).current_reward_keys == Set::<(Seq<char>, Address)>::empty(),
        read.begun(key).current_bulk_reward_keys == Set::<Seq<char>>::empty(),
        read.begun(key).bulk_reward_evidence == Map::<
            Seq<char>,
            (RewardBatchEvidence, u128),
        >::empty(),
        read.begun(key).positive_reward_captured_at == Map::<(Seq<char>, Address), u128>::empty(),
        read.begun(key).reward_interval_countdown is None,
        read.key == Some(key) ==> read.begun(key).accounts == read.accounts && read.begun(
            key,
        ).rewards == read.rewards && read.begun(key).metrics == read.metrics && read.begun(
            key,
        ).chain_time_anchor == read.chain_time_anchor,
        read.key != Some(key) ==> read.begun(key).accounts == Map::<
            Seq<char>,
            StakingAccountView,
        >::empty() && read.begun(key).rewards == Map::<(Seq<char>, Address), RewardView>::empty()
            && read.begun(key).metrics is None && read.begun(key).chain_time_anchor is None,
{
}

/// A result is taken only by the refresh that asked for it.
pub proof fn results_are_of_one_refresh(read: StakingRead, key: ContextId, generation: u64)
    ensures
        read.current(key, generation) <==> read.key == Some(key) && read.generation == generation,
        read.begun(key).current(key, next_generation(read.generation)),
{
}

/// Metrics that were read are kept with the time of the chain; a read that failed leaves the last
/// ones to be shown as stale.
pub proof fn metrics_are_kept(
    read: StakingRead,
    metrics: StakingGlobalMetrics,
    error: String,
    now: u128,
)
    ensures
        read.with_global(Ok(metrics), now).global_ready,
        read.with_global(Ok(metrics), now).metrics == Some(metrics),
        read.with_global(Ok(metrics), now).chain_time_anchor == Some((metrics.chain_time, now)),
        read.with_global(Ok(metrics), now).chain_time_at(now) == Some(metrics.chain_time@),
        read.with_global(Ok(metrics), now).accounts == read.accounts,
        read.with_global(Ok(metrics), now).rewards == read.rewards,
        !read.with_global(Err(error), now).global_ready,
        read.with_global(Err(error), now).metrics == read.metrics,
        read.with_global(Err(error), now).status is Stale <==> read.metrics is Some,
        read.metrics is None ==> read.with_global(Err(error), now).status
            == StakingRefreshStatus::Error(error),
{
    assert(metrics.chain_time@ <= u256_max());
}

/// What was read of one account, reward or batch leaves what is known of the others.
pub proof fn results_stay_with_their_account(
    read: StakingRead,
    uuid: Seq<char>,
    other: Seq<char>,
    token: Address,
    another: Address,
    account: Result<AccountStakeResult, String>,
    reward: Result<Option<RewardEvidence>, String>,
    now: u128,
)
    ensures
        read.with_account(uuid, account).current_account_ids.contains(uuid),
        read.with_account(uuid, account).accounts[uuid] == account_of(account),
        other != uuid ==> read.with_account(uuid, account).accounts.contains_key(other)
            == read.accounts.contains_key(other) && read.with_account(uuid, account).accounts[other]
            == read.accounts[other] && read.with_account(
            uuid,
            account,
        ).current_account_ids.contains(other) == read.current_account_ids.contains(other),
        read.with_account(uuid, account).rewards == read.rewards,
        read.with_reward(uuid, token, reward, now).resolved(uuid, token) == Some(
            reward_of(reward),
        ),
        (other, another) != (uuid, token) ==> read.with_reward(uuid, token, reward, now).resolved(
            other,
            another,
        ) == read.resolved(other, another),
        read.with_reward(uuid, token, reward, now).accounts == read.accounts,
        reward_of(reward) is Positive ==> read.with_reward(
            uuid,
            token,
            reward,
            now,
        ).positive_reward_captured_at[(uuid, token)] == now && read.with_reward(
            uuid,
            token,
            reward,
            now,
        ).positive_reward_captured_at.contains_key((uuid, token)),
        !(reward_of(reward) is Positive) ==> !read.with_reward(
            uuid,
            token,
            reward,
            now,
        ).positive_reward_captured_at.contains_key((uuid, token)),
{
}

/// The evidence of a batch is kept only where it was found for the tokens that were asked for and
/// pays something. The batch is ready exactly where evidence was found.
pub proof fn batches_are_kept_for_their_tokens(
    read: StakingRead,
    uuid: Seq<char>,
    tokens: Vec<Address>,
    result: Result<Option<RewardBatchEvidence>, String>,
    now: u128,
)
    ensures
        ({
            let after = read.with_bulk_reward(uuid, tokens, result, now);
            &&& after.current_bulk_reward_keys.contains(uuid)
            &&& after.bulk_reward_readiness.contains_key(uuid)
            &&& after.bulk_reward_readiness[uuid].tokens == tokens
            &&& after.bulk_reward_readiness[uuid].ready <==> (result matches Ok(Some(_)))
            &&& after.bulk_reward_evidence.contains_key(uuid) <==> (result matches Ok(
                Some(evidence),
            ) && evidence.reward_tokens@ == tokens@ && exists|i: int|
                0 <= i < evidence.expected_amounts@.len() && (
                #[trigger] evidence.expected_amounts@[i])@ != 0)
            &&& after.bulk_reward_evidence.contains_key(uuid) ==> after.bulk_reward_evidence[uuid]
                == (result->Ok_0->Some_0, now)
        }),
{
}

/// The end of a refresh is fresh unless something of it failed.
pub proof fn refreshes_end_fresh_or_as_they_failed(read: StakingRead)
    ensures
        read.finished().status is Fresh <==> !(read.status is Error || read.status is Stale),
        read.status is Error || read.status is Stale ==> read.finished().status == read.status,
        read.finished().accounts == read.accounts,
        read.finished().rewards == read.rewards,
        read.finished().global_ready == read.global_ready,
{
}

/// Cached evidence of one token is usable exactly where it was read as positive in this refresh, is
/// of that token, and is not older than an hour.
pub proof fn cached_evidence_is_recent_and_its_own(
    read: StakingRead,
    uuid: Seq<char>,
    token: Address,
    now: u128,
)
    ensures
        read.single_usable(uuid, token, now) <==> {
            &&& read.current_reward_keys.contains((uuid, token))
            &&& read.rewards.contains_key((uuid, token))
            &&& read.rewards[(uuid, token)] is Positive
            &&& read.rewards[(uuid, token)]->evidence.token == token
            &&& read.positive_reward_captured_at.contains_key((uuid, token))
            &&& read.positive_reward_captured_at[(uuid, token)] <= now
                <= read.positive_reward_captured_at[(uuid, token)] + 3_600_000_000_000
        },
        read.bulk_usable(uuid, now) <==> {
            &&& read.current_bulk_reward_keys.contains(uuid)
            &&& read.bulk_reward_evidence.contains_key(uuid)
            &&& read.bulk_reward_readiness.contains_key(uuid)
            &&& read.bulk_reward_readiness[uuid].ready
            &&& read.bulk_reward_readiness[uuid].tokens@
                == read.bulk_reward_evidence[uuid].0.reward_tokens@
            &&& read.bulk_reward_evidence[uuid].1 <= now <= read.bulk_reward_evidence[uuid].1
                + 3_600_000_000_000
        },
{
}

/// The cache speaks for a claim only of the context that was read, for an account that is enrolled
/// there at the address of the actor, and of some tokens.
pub proof fn the_cache_is_of_the_context(
    read: StakingRead,
    key: ContextId,
    uuid: Seq<char>,
    actor: Address,
    tokens: Seq<Address>,
)
    ensures
        read.cache_applies(key, uuid, actor, tokens) <==> read.global_ready && read.key == Some(key)
            && tokens.len() > 0 && exists|i: int|
            0 <= i < key.participants.len() && (#[trigger] key.participants[i]).uuid == uuid
                && key.participants[i].address == actor,
{
}

/// Stakes of an account can be acted on exactly where the metrics are in and this refresh has read
/// them; an account has something to claim exactly where some reward of it is positive.
pub proof fn accounts_are_ready_when_read(read: StakingRead, uuid: Seq<char>, token: Address)
    ensures
        read.account_ready(uuid) <==> read.global_ready && read.current_account_ids.contains(uuid)
            && read.accounts.contains_key(uuid) && read.accounts[uuid].stakes is Ok,
        !read.global_ready ==> !read.has_positive_reward(uuid),
        read.global_ready && read.positive(uuid, token) ==> read.has_positive_reward(uuid),
        (forall|other: Address| !#[trigger] read.positive(uuid, other))
            ==> !read.has_positive_reward(uuid),
        read.reward_ready(uuid, token) <==> read.global_ready && read.positive(uuid, token),
{
}

/// Each action has the title of its dialog.
pub proof fn actions_have_their_titles(id: U256, tokens: Seq<Address>)
    ensures
        staking_action_title_text(ActionKindId::Stake) == "Stake RAIL"@,
        staking_action_title_text(ActionKindId::Delegate(id)) == "Delegate stake"@,
        staking_action_title_text(ActionKindId::Undelegate(id)) == "Undelegate stake"@,
        staking_action_title_text(ActionKindId::Unlock(id)) == "Unlock stake"@,
        staking_action_title_text(ActionKindId::PrincipalClaim(id)) == "Claim principal"@,
        staking_action_title_text(ActionKindId::RewardClaim(tokens)) == "Claim rewards"@,
{
}

/// Everything that is told of a `StakingActionSelection` is its own, under its own name.
pub proof fn staking_action_selection_is_told_as_it_is(kept: StakingActionSelection)
    ensures
        kept@.actor_uuid == kept.actor_uuid@,
        kept@.actor == kept.actor,
        kept@.kind == kept.kind@,
{
}

/// Everything that is told of a `StakingReadState` is its own, under its own name.
pub proof fn staking_read_state_is_told_as_it_is(kept: StakingReadState)
    ensures
        kept.key matches Some(held) ==> kept@.key == Some(held@),
        kept.key is None ==> kept@.key is None,
        kept@.generation == kept.generation,
        kept@.status == kept.status,
        kept@.global_ready == kept.global_ready,
        kept@.current_account_ids == kept.current_account_ids@,
        kept@.current_reward_keys == kept.current_reward_keys@,
        kept@.metrics == kept.metrics,
        kept@.accounts == kept.accounts@,
        kept@.rewards == kept.rewards@,
        kept@.bulk_reward_readiness == kept.bulk_reward_readiness@,
        kept@.bulk_reward_evidence == kept.bulk_reward_evidence@,
        kept@.positive_reward_captured_at == kept.positive_reward_captured_at@,
        kept@.current_bulk_reward_keys == kept.current_bulk_reward_keys@,
        kept@.chain_time_anchor == kept.chain_time_anchor,
        kept@.reward_interval_countdown == kept.reward_interval_countdown,
{
}

/// What is told of an action is the action itself, on its own stake.
pub proof fn actions_are_told_as_they_are(id: U256, tokens: Vec<Address>)
    ensures
        StakingActionKind::Stake@ == ActionKindId::Stake,
        (StakingActionKind::Delegate { stake_id: id })@ == ActionKindId::Delegate(id),
        (StakingActionKind::Undelegate { stake_id: id })@ == ActionKindId::Undelegate(id),
        (StakingActionKind::Unlock { stake_id: id })@ == ActionKindId::Unlock(id),
        (StakingActionKind::PrincipalClaim { stake_id: id })@ == ActionKindId::PrincipalClaim(id),
        (StakingActionKind::RewardClaimSelected { tokens })@ == ActionKindId::RewardClaim(tokens@),
{
}

} // verus!
