//! The values that governance reads and decides on.
use crate::address::Address;
use crate::keyed::MapKey;
use crate::text::{optional_text, same_optional_text};
use crate::u256::U256;
use vstd::prelude::*;

verus! {

/// A copy of `items`.
pub fn copy_items<T: Copy>(items: &Vec<T>) -> (copy: Vec<T>)
    ensures
        copy@ == items@,
{
    let mut copy: Vec<T> = Vec::new();
    let mut i: usize = 0;
    while i < items.len()
        invariant
            i <= items@.len(),
            copy@ == items@.take(i as int),
        decreases items@.len() - i,
    {
        copy.push(items[i]);
        i += 1;
        assert(copy@ =~= items@.take(i as int));
    }
    assert(items@.take(i as int) =~= items@);
    copy
}

/// Whether both lists hold the same addresses in the same order.
pub fn same_addresses(a: &Vec<Address>, b: &Vec<Address>) -> (same: bool)
    ensures
        same == (a@ == b@),
{
    if a.len() != b.len() {
        return false;
    }
    let mut i: usize = 0;
    while i < a.len()
        invariant
            i <= a@.len() == b@.len(),
            forall|j: int| 0 <= j < i ==> a@[j] == b@[j],
        decreases a@.len() - i,
    {
        if a[i] != b[i] {
            assert(a@[i as int] != b@[i as int]);
            return false;
        }
        i += 1;
    }
    assert(a@ =~= b@);
    true
}

/// Whether every number is 0.
pub open spec fn all_zero(amounts: Seq<U256>) -> bool {
    forall|i: int| 0 <= i < amounts.len() ==> (#[trigger] amounts[i])@ == 0
}

/// Whether every number is 0.
pub fn amounts_all_zero(amounts: &Vec<U256>) -> (zero: bool)
    ensures
        zero == all_zero(amounts@),
{
    let mut i: usize = 0;
    while i < amounts.len()
        invariant
            i <= amounts@.len(),
            forall|j: int| 0 <= j < i ==> (#[trigger] amounts@[j])@ == 0,
        decreases amounts@.len() - i,
    {
        if !amounts[i].is_zero() {
            assert(amounts@[i as int]@ != 0);
            return false;
        }
        i += 1;
    }
    true
}

/// An enrolled Public account.
#[derive(Debug, PartialEq, Eq)]
pub struct GovernanceParticipantIdentity {
    pub uuid: String,
    pub address: Address,
}

/// What tells one enrolled account from another.
pub struct ParticipantId {
    pub uuid: Seq<char>,
    pub address: Address,
}

impl View for GovernanceParticipantIdentity {
    type V = ParticipantId;

    open spec fn view(&self) -> ParticipantId {
        ParticipantId { uuid: self.uuid@, address: self.address }
    }
}

impl GovernanceParticipantIdentity {
    /// A copy of this identity.
    pub fn copy(&self) -> (copy: GovernanceParticipantIdentity)
        ensures
            copy@ == self@,
    {
        GovernanceParticipantIdentity { uuid: self.uuid.clone(), address: self.address }
    }
}

/// The wallet, chain and enrolled accounts that a read belongs to.
#[derive(Debug, PartialEq, Eq)]
pub struct GovernanceContextKey {
    pub wallet_id: Option<String>,
    pub chain_id: u64,
    pub participants: Vec<GovernanceParticipantIdentity>,
}

/// What tells one governance context from another.
#[verifier::ext_equal]
pub struct ContextId {
    pub wallet_id: Option<Seq<char>>,
    pub chain_id: u64,
    pub participants: Seq<ParticipantId>,
}

impl View for GovernanceContextKey {
    type V = ContextId;

    open spec fn view(&self) -> ContextId {
        ContextId {
            wallet_id: optional_text(self.wallet_id),
            chain_id: self.chain_id,
            participants: self.participants@.map_values(|p: GovernanceParticipantIdentity| p@),
        }
    }
}

impl ContextId {
    /// Whether an account with this identifier is enrolled.
    pub open spec fn enrolls(self, uuid: Seq<char>) -> bool {
        exists|i: int| 0 <= i < self.participants.len() && (#[trigger] self.participants[i]).uuid
            == uuid
    }

    /// Whether an account with this identifier and address is enrolled.
    pub open spec fn enrolls_at(self, uuid: Seq<char>, address: Address) -> bool {
        exists|i: int|
            0 <= i < self.participants.len() && (#[trigger] self.participants[i]).uuid == uuid
                && self.participants[i].address == address
    }

    /// The position of the first enrolled account with this identifier.
    pub open spec fn first(self, uuid: Seq<char>, at: int) -> bool {
        &&& 0 <= at < self.participants.len()
        &&& self.participants[at].uuid == uuid
        &&& forall|i: int| 0 <= i < at ==> (#[trigger] self.participants[i]).uuid != uuid
    }
}

impl GovernanceContextKey {
    /// Whether both keys name the same context.
    pub fn same(&self, other: &GovernanceContextKey) -> (same: bool)
        ensures
            same == (self@ == other@),
    {
        if self.chain_id != other.chain_id || self.participants.len() != other.participants.len()
            || !same_optional_text(&self.wallet_id, &other.wallet_id) {
            proof {
                if self.participants@.len() != other.participants@.len() {
                    assert(self@.participants.len() != other@.participants.len());
                }
            }
            return false;
        }
        let mut i: usize = 0;
        while i < self.participants.len()
            invariant
                i <= self.participants@.len() == other.participants@.len(),
                forall|j: int| 0 <= j < i ==> self.participants@[j]@ == other.participants@[j]@,
            decreases self.participants@.len() - i,
        {
            if self.participants[i].uuid != other.participants[i].uuid
                || self.participants[i].address != other.participants[i].address {
                proof {
                    assert(self@.participants[i as int] != other@.participants[i as int]);
                }
                return false;
            }
            i += 1;
        }
        assert(self@ =~= other@);
        true
    }

    /// A copy of this key.
    pub fn copy(&self) -> (copy: GovernanceContextKey)
        ensures
            copy@ == self@,
    {
        let mut participants: Vec<GovernanceParticipantIdentity> = Vec::new();
        let mut i: usize = 0;
        while i < self.participants.len()
            invariant
                i <= self.participants@.len(),
                participants@.len() == i,
                forall|j: int| 0 <= j < i ==> participants@[j]@ == self.participants@[j]@,
            decreases self.participants@.len() - i,
        {
            participants.push(self.participants[i].copy());
            i += 1;
        }
        let copy = GovernanceContextKey {
            wallet_id: self.wallet_id.clone(),
            chain_id: self.chain_id,
            participants,
        };
        assert(copy@ =~= self@);
        copy
    }

    /// Whether an account with this identifier is enrolled.
    pub fn enrolls(&self, uuid: &str) -> (enrolled: bool)
        ensures
            enrolled == self@.enrolls(uuid@),
    {
        let mut i: usize = 0;
        while i < self.participants.len()
            invariant
                i <= self.participants@.len(),
                forall|j: int| 0 <= j < i ==> (#[trigger] self@.participants[j]).uuid != uuid@,
            decreases self.participants@.len() - i,
        {
            if crate::text::same_text(&self.participants[i].uuid, uuid) {
                assert(self@.participants[i as int].uuid == uuid@);
                return true;
            }
            i += 1;
        }
        false
    }

    /// Whether an account with this identifier and address is enrolled.
    pub fn enrolls_at(&self, uuid: &str, address: Address) -> (enrolled: bool)
        ensures
            enrolled == self@.enrolls_at(uuid@, address),
    {
        let mut i: usize = 0;
        while i < self.participants.len()
            invariant
                i <= self.participants@.len(),
                forall|j: int|
                    0 <= j < i ==> (#[trigger] self@.participants[j]).uuid != uuid@
                        || self@.participants[j].address != address,
            decreases self.participants@.len() - i,
        {
            if crate::text::same_text(&self.participants[i].uuid, uuid)
                && self.participants[i].address == address {
                assert(self@.participants[i as int].uuid == uuid@);
                return true;
            }
            i += 1;
        }
        false
    }

    /// The position of the first enrolled account with this identifier.
    pub fn position(&self, uuid: &str) -> (at: Option<usize>)
        ensures
            match at {
                Some(i) => self@.first(uuid@, i as int),
                None => !self@.enrolls(uuid@),
            },
    {
        let mut i: usize = 0;
        while i < self.participants.len()
            invariant
                i <= self.participants@.len(),
                forall|j: int| 0 <= j < i ==> (#[trigger] self@.participants[j]).uuid != uuid@,
            decreases self.participants@.len() - i,
        {
            if crate::text::same_text(&self.participants[i].uuid, uuid) {
                return Some(i);
            }
            i += 1;
        }
        None
    }
}

/// An account and a reward token.
#[derive(Debug, PartialEq, Eq)]
pub struct RewardKey {
    pub uuid: String,
    pub token: Address,
}

impl View for RewardKey {
    type V = (Seq<char>, Address);

    open spec fn view(&self) -> (Seq<char>, Address) {
        (self.uuid@, self.token)
    }
}

impl MapKey for RewardKey {
    fn same_key(&self, other: &Self) -> (same: bool) {
        self.uuid == other.uuid && self.token == other.token
    }
}

impl RewardKey {
    /// The key of this account and token.
    pub fn new(uuid: &str, token: Address) -> (key: RewardKey)
        ensures
            key@ == (uuid@, token),
    {
        RewardKey { uuid: uuid.to_owned(), token }
    }

    /// A copy of this key.
    pub fn copy(&self) -> (copy: RewardKey)
        ensures
            copy@ == self@,
    {
        RewardKey { uuid: self.uuid.clone(), token: self.token }
    }
}

/// Where a stake is in its life.
#[derive(Clone, Copy, Debug, PartialEq, Eq, Structural)]
pub enum StakeState {
    Active,
    Unlocking,
    Claimable,
    Claimed,
}

/// One stake of an account.
#[derive(Clone, Copy, Debug, PartialEq, Eq, Structural)]
pub struct StakePosition {
    pub owner: Address,
    pub id: U256,
    pub delegate: Address,
    pub amount: U256,
    pub staketime: U256,
    pub locktime: U256,
    pub claimed_time: U256,
    pub state: StakeState,
}

/// What the staking contract reports for everyone.
#[derive(Clone, Copy, Debug, PartialEq, Eq, Structural)]
pub struct StakingGlobalMetrics {
    pub total_staked: U256,
    pub total_voting_power: U256,
    pub deploy_time: U256,
    pub snapshot_interval: U256,
    pub current_interval: U256,
    pub stake_locktime: U256,
    pub chain_time: U256,
}

/// What a read of one account brought back; a part that failed holds its error.
#[derive(Debug, PartialEq, Eq)]
pub struct AccountStakeResult {
    pub account: Address,
    pub voting_power: Result<U256, String>,
    pub balance: Result<U256, String>,
    pub stakes: Result<Vec<StakePosition>, String>,
}

/// The unclaimed reward of one account in one token.
#[derive(Debug, PartialEq, Eq)]
pub struct RewardEvidence {
    pub token: Address,
    pub starting_interval: U256,
    pub ending_interval: U256,
    pub staking_intervals: Vec<U256>,
    pub hints: Vec<U256>,
    pub claimed_intervals: Vec<U256>,
    pub amount: U256,
}

/// The unclaimed rewards of one account in several tokens over one range of intervals.
#[derive(Debug, PartialEq, Eq)]
pub struct RewardBatchEvidence {
    pub reward_tokens: Vec<Address>,
    pub starting_interval: U256,
    pub ending_interval: U256,
    pub staking_intervals: Vec<U256>,
    pub hints: Vec<U256>,
    pub claimed_intervals: Vec<Vec<U256>>,
    pub expected_amounts: Vec<U256>,
}

/// What a batch of reward evidence says.
#[verifier::ext_equal]
pub struct BatchEvidence {
    pub reward_tokens: Seq<Address>,
    pub starting_interval: U256,
    pub ending_interval: U256,
    pub staking_intervals: Seq<U256>,
    pub hints: Seq<U256>,
    pub claimed_intervals: Seq<Seq<U256>>,
    pub expected_amounts: Seq<U256>,
}

impl View for RewardBatchEvidence {
    type V = BatchEvidence;

    open spec fn view(&self) -> BatchEvidence {
        BatchEvidence {
            reward_tokens: self.reward_tokens@,
            starting_interval: self.starting_interval,
            ending_interval: self.ending_interval,
            staking_intervals: self.staking_intervals@,
            hints: self.hints@,
            claimed_intervals: self.claimed_intervals@.map_values(|claimed: Vec<U256>| claimed@),
            expected_amounts: self.expected_amounts@,
        }
    }
}

impl RewardEvidence {
    /// The evidence of this one token, as a batch.
    pub open spec fn batch(self) -> BatchEvidence {
        BatchEvidence {
            reward_tokens: seq![self.token],
            starting_interval: self.starting_interval,
            ending_interval: self.ending_interval,
            staking_intervals: self.staking_intervals@,
            hints: self.hints@,
            claimed_intervals: seq![self.claimed_intervals@],
            expected_amounts: seq![self.amount],
        }
    }

    /// The evidence of this one token, as a batch.
    pub fn to_batch(&self) -> (batch: RewardBatchEvidence)
        ensures
            batch@ == self.batch(),
    {
        let batch = RewardBatchEvidence {
            reward_tokens: vec![self.token],
            starting_interval: self.starting_interval,
            ending_interval: self.ending_interval,
            staking_intervals: copy_items(&self.staking_intervals),
            hints: copy_items(&self.hints),
            claimed_intervals: vec![copy_items(&self.claimed_intervals)],
            expected_amounts: vec![self.amount],
        };
        assert(batch@ =~= self.batch());
        assert(batch@.claimed_intervals =~= self.batch().claimed_intervals);
        batch
    }
}

impl RewardBatchEvidence {
    /// A copy of this evidence.
    pub fn copy(&self) -> (copy: RewardBatchEvidence)
        ensures
            copy@ == self@,
    {
        let mut claimed_intervals: Vec<Vec<U256>> = Vec::new();
        let mut i: usize = 0;
        while i < self.claimed_intervals.len()
            invariant
                i <= self.claimed_intervals@.len(),
                claimed_intervals@.len() == i,
                forall|j: int| 0 <= j < i ==> claimed_intervals@[j]@ == self.claimed_intervals@[j]@,
            decreases self.claimed_intervals@.len() - i,
        {
            claimed_intervals.push(copy_items(&self.claimed_intervals[i]));
            i += 1;
        }
        let copy = RewardBatchEvidence {
            reward_tokens: copy_items(&self.reward_tokens),
            starting_interval: self.starting_interval,
            ending_interval: self.ending_interval,
            staking_intervals: copy_items(&self.staking_intervals),
            hints: copy_items(&self.hints),
            claimed_intervals,
            expected_amounts: copy_items(&self.expected_amounts),
        };
        assert(copy@.claimed_intervals =~= self@.claimed_intervals);
        copy
    }
}

/// Amounts are all zero exactly where none of them is positive.
pub proof fn a_positive_amount_is_not_all_zero(amounts: Seq<U256>)
    ensures
        all_zero(amounts) <==> !(exists|i: int| 0 <= i < amounts.len() && (#[trigger] amounts[i])@ > 0),
{
}

/// Two contexts are the same exactly where they have the same wallet, chain and accounts, with the
/// accounts in the same order and at the same addresses.
pub proof fn contexts_are_told_apart(a: GovernanceContextKey, b: GovernanceContextKey)
    ensures
        a@ == b@ <==> {
            &&& match (a.wallet_id, b.wallet_id) {
                (Some(x), Some(y)) => x@ == y@,
                (None, None) => true,
                _ => false,
            }
            &&& a.chain_id == b.chain_id
            &&& a.participants@.len() == b.participants@.len()
            &&& forall|i: int|
                0 <= i < a.participants@.len() ==> (#[trigger] a.participants@[i]).uuid@
                    == b.participants@[i].uuid@ && a.participants@[i].address
                    == b.participants@[i].address
        },
{
    if a@ == b@ {
        assert(a@.participants.len() == b@.participants.len());
        assert forall|i: int| 0 <= i < a.participants@.len() implies (#[trigger] a.participants@[i]).uuid@
            == b.participants@[i].uuid@ && a.participants@[i].address
            == b.participants@[i].address by {
            assert(a@.participants[i] == b@.participants[i]);
        }
    }
    if a.participants@.len() == b.participants@.len() && forall|i: int|
        0 <= i < a.participants@.len() ==> (#[trigger] a.participants@[i]).uuid@
            == b.participants@[i].uuid@ && a.participants@[i].address
            == b.participants@[i].address {
        assert(a@.participants =~= b@.participants);
    }
}

/// A context enrolls an account exactly where one of its participants has that identifier, and at an
/// address where that participant has the address too. The first one is the one at the least place.
pub proof fn contexts_enroll_their_participants(
    key: GovernanceContextKey,
    uuid: Seq<char>,
    address: Address,
    at: int,
)
    ensures
        key@.enrolls(uuid) <==> exists|i: int|
            0 <= i < key.participants@.len() && (#[trigger] key.participants@[i]).uuid@ == uuid,
        key@.enrolls_at(uuid, address) <==> exists|i: int|
            0 <= i < key.participants@.len() && (#[trigger] key.participants@[i]).uuid@ == uuid
                && key.participants@[i].address == address,
        key@.first(uuid, at) <==> 0 <= at < key.participants@.len() && key.participants@[at].uuid@
            == uuid && forall|i: int|
            0 <= i < at ==> (#[trigger] key.participants@[i]).uuid@ != uuid,
{
    assert(forall|i: int|
        0 <= i < key.participants@.len() ==> key@.participants[i] == (
        #[trigger] key.participants@[i])@);
    if exists|i: int|
        0 <= i < key.participants@.len() && (#[trigger] key.participants@[i]).uuid@ == uuid {
        let i = choose|i: int|
            0 <= i < key.participants@.len() && (#[trigger] key.participants@[i]).uuid@ == uuid;
        assert(key@.participants[i].uuid == uuid);
    }
    if exists|i: int|
        0 <= i < key.participants@.len() && (#[trigger] key.participants@[i]).uuid@ == uuid
            && key.participants@[i].address == address {
        let i = choose|i: int|
            0 <= i < key.participants@.len() && (#[trigger] key.participants@[i]).uuid@ == uuid
                && key.participants@[i].address == address;
        assert(key@.participants[i].uuid == uuid && key@.participants[i].address == address);
    }
    if key@.enrolls(uuid) {
        let i = choose|i: int|
            0 <= i < key@.participants.len() && (#[trigger] key@.participants[i]).uuid == uuid;
        assert(key.participants@[i].uuid@ == uuid);
    }
    if key@.enrolls_at(uuid, address) {
        let i = choose|i: int|
            0 <= i < key@.participants.len() && (#[trigger] key@.participants[i]).uuid == uuid
                && key@.participants[i].address == address;
        assert(key.participants@[i].uuid@ == uuid);
    }
    if key@.first(uuid, at) {
        assert forall|i: int| 0 <= i < at implies (#[trigger] key.participants@[i]).uuid@ != uuid by {
            assert(key@.participants[i].uuid != uuid);
        }
    }
    if 0 <= at < key.participants@.len() && forall|i: int|
        0 <= i < at ==> (#[trigger] key.participants@[i]).uuid@ != uuid {
        assert forall|i: int| 0 <= i < at implies (#[trigger] key@.participants[i]).uuid != uuid by {
            assert(key.participants@[i].uuid@ != uuid);
        }
    }
}

/// The batch of one token's evidence claims that token alone, over the same intervals with the same
/// hints, and expects its amount.
pub proof fn a_batch_of_one_claims_its_token(evidence: RewardEvidence)
    ensures
        evidence.batch().reward_tokens.len() == 1,
        evidence.batch().reward_tokens[0] == evidence.token,
        evidence.batch().expected_amounts.len() == 1,
        evidence.batch().expected_amounts[0] == evidence.amount,
        evidence.batch().claimed_intervals.len() == 1,
        evidence.batch().claimed_intervals[0] == evidence.claimed_intervals@,
        evidence.batch().starting_interval == evidence.starting_interval,
        evidence.batch().ending_interval == evidence.ending_interval,
        evidence.batch().staking_intervals == evidence.staking_intervals@,
        evidence.batch().hints == evidence.hints@,
{
}

/// Two batches of evidence are the same only where they claim the same tokens over the same
/// intervals, with the same hints and the same amounts.
pub proof fn batches_are_told_apart(a: RewardBatchEvidence, b: RewardBatchEvidence)
    requires
        a@ == b@,
    ensures
        a.reward_tokens@ == b.reward_tokens@,
        a.starting_interval == b.starting_interval,
        a.ending_interval == b.ending_interval,
        a.staking_intervals@ == b.staking_intervals@,
        a.hints@ == b.hints@,
        a.expected_amounts@ == b.expected_amounts@,
        a.claimed_intervals@.len() == b.claimed_intervals@.len(),
        forall|i: int|
            0 <= i < a.claimed_intervals@.len() ==> (#[trigger] a.claimed_intervals@[i])@
                == b.claimed_intervals@[i]@,
{
    let of_a = a.claimed_intervals@.map_values(|claimed: Vec<U256>| claimed@);
    let of_b = b.claimed_intervals@.map_values(|claimed: Vec<U256>| claimed@);
    assert(of_a == a@.claimed_intervals && of_b == b@.claimed_intervals);
    assert(of_a.len() == of_b.len());
    assert forall|i: int| 0 <= i < a.claimed_intervals@.len() implies (
    #[trigger] a.claimed_intervals@[i])@ == b.claimed_intervals@[i]@ by {
        assert(of_a[i] == of_b[i]);
    }
}

/// A reward is kept under its account and its token: neither alone is enough.
pub proof fn reward_keys_are_told_apart(a: RewardKey, b: RewardKey)
    ensures
        a@ == b@ <==> (a.uuid@ == b.uuid@ && a.token == b.token),
{
}

/// Everything that is told of a `GovernanceParticipantIdentity` is its own, under its own name.
pub proof fn governance_participant_identity_is_told_as_it_is(kept: GovernanceParticipantIdentity)
    ensures
        kept@.uuid == kept.uuid@,
        kept@.address == kept.address,
{
}

/// Everything that is told of a `GovernanceContextKey` is its own, under its own name.
pub proof fn governance_context_key_is_told_as_it_is(kept: GovernanceContextKey)
    ensures
        kept.wallet_id matches Some(text) ==> kept@.wallet_id == Some(text@),
        kept.wallet_id is None ==> kept@.wallet_id is None,
        kept@.chain_id == kept.chain_id,
{
}

/// Everything that is told of a `RewardBatchEvidence` is its own, under its own name.
pub proof fn reward_batch_evidence_is_told_as_it_is(kept: RewardBatchEvidence)
    ensures
        kept@.reward_tokens == kept.reward_tokens@,
        kept@.starting_interval == kept.starting_interval,
        kept@.ending_interval == kept.ending_interval,
        kept@.staking_intervals == kept.staking_intervals@,
        kept@.hints == kept.hints@,
        kept@.expected_amounts == kept.expected_amounts@,
{
}

} // verus!
