//! What the enrolled accounts may do about the proposal that is shown.
use crate::address::Address;
use crate::governance::action::{ParticipationId, ProposalParticipationKey};
use crate::governance::draft::GovernanceParticipation;
use crate::governance::model::{GovernanceParticipantIdentity, ParticipantId};
use crate::governance::staking::next_generation;
use crate::keyed::KeyMap;
use vstd::prelude::*;

verus! {

/// What is known of one account.
#[derive(Debug, PartialEq, Eq)]
pub enum ProposalParticipationRow {
    Loading,
    Ready(GovernanceParticipation),
    Unavailable(String),
}

/// What the enrolled accounts may do about the proposal that is shown. Only the result of the
/// current read is taken.
pub struct ProposalParticipationState {
    pub key: Option<ProposalParticipationKey>,
    pub generation: u64,
    pub loading: bool,
    pub rows: KeyMap<Address, ProposalParticipationRow>,
}

/// What a `ProposalParticipationState` holds.
#[verifier::ext_equal]
pub struct ParticipationRead {
    pub key: Option<ParticipationId>,
    pub generation: u64,
    pub loading: bool,
    pub rows: Map<Address, ProposalParticipationRow>,
}

impl View for ProposalParticipationState {
    type V = ParticipationRead;

    open spec fn view(&self) -> ParticipationRead {
        ParticipationRead {
            key: match self.key {
                Some(key) => Some(key@),
                None => None,
            },
            generation: self.generation,
            loading: self.loading,
            rows: self.rows@,
        }
    }
}

/// A row that is being read for each account.
pub open spec fn loading_rows(participants: Seq<ParticipantId>) -> Map<
    Address,
    ProposalParticipationRow,
>
    decreases participants.len(),
{
    if participants.len() == 0 {
        Map::empty()
    } else {
        loading_rows(participants.drop_last()).insert(
            participants.last().address,
            ProposalParticipationRow::Loading,
        )
    }
}

/// The row that a result stands for.
pub open spec fn row_of(state: Result<GovernanceParticipation, String>) -> ProposalParticipationRow {
    match state {
        Ok(value) => ProposalParticipationRow::Ready(value),
        Err(error) => ProposalParticipationRow::Unavailable(error),
    }
}

/// The rows after these results came in, one after the other.
pub open spec fn applied_rows(
    rows: Map<Address, ProposalParticipationRow>,
    results: Seq<(Address, Result<GovernanceParticipation, String>)>,
) -> Map<Address, ProposalParticipationRow>
    decreases results.len(),
{
    if results.len() == 0 {
        rows
    } else {
        applied_rows(rows, results.drop_last()).insert(results.last().0, row_of(results.last().1))
    }
}

impl ProposalParticipationState {
    /// Nothing read.
    pub fn default() -> (state: ProposalParticipationState)
        ensures
            state@ == (ParticipationRead {
                key: None,
                generation: 0,
                loading: false,
                rows: Map::empty(),
            }),
    {
        ProposalParticipationState {
            key: None,
            generation: 0,
            loading: false,
            rows: KeyMap::new(),
        }
    }

    /// Begins a read: every enrolled account has a row that is being read. Returns the generation
    /// that the result must carry.
    pub fn begin(&mut self, key: &ProposalParticipationKey) -> (generation: u64)
        ensures
            generation == next_generation(old(self).generation),
            final(self)@ == (ParticipationRead {
                key: Some(key@),
                generation,
                loading: true,
                rows: loading_rows(key@.context.participants),
            }),
    {
        self.generation = self.generation.wrapping_add(1);
        self.key = Some(key.copy());
        self.loading = true;
        let mut rows: KeyMap<Address, ProposalParticipationRow> = KeyMap::new();
        let participants = &key.context.participants;
        let ghost ids = key@.context.participants;
        let mut i: usize = 0;
        assert(ids.take(0) =~= Seq::<ParticipantId>::empty());
        while i < participants.len()
            invariant
                i <= participants@.len(),
                ids == participants@.map_values(|p: GovernanceParticipantIdentity| p@),
                rows@ == loading_rows(ids.take(i as int)),
            decreases participants@.len() - i,
        {
            proof {
                assert(ids.take(i + 1).drop_last() =~= ids.take(i as int));
                assert(ids.take(i + 1).last() == participants@[i as int]@);
            }
            rows.insert(participants[i].address, ProposalParticipationRow::Loading);
            i += 1;
        }
        assert(ids.take(i as int) =~= ids);
        self.rows = rows;
        self.generation
    }

    /// Takes the results of the current read. Returns whether they were of it.
    pub fn apply(
        &mut self,
        key: &ProposalParticipationKey,
        generation: u64,
        results: Vec<(Address, Result<GovernanceParticipation, String>)>,
    ) -> (applied: bool)
        ensures
            applied == (old(self).generation == generation && old(self)@.key == Some(key@)),
            final(self)@ == if applied {
                ParticipationRead {
                    loading: false,
                    rows: applied_rows(old(self).rows@, results@),
                    ..old(self)@
                }
            } else {
                old(self)@
            },
            !applied ==> *final(self) == *old(self),
    {
        let own_key = match &self.key {
            Some(own) => own.same(key),
            None => false,
        };
        if self.generation != generation || !own_key {
            return false;
        }
        let ghost before = self@;
        let ghost given = results@;
        let mut results = results;
        let mut count: usize = 0;
        let total: usize = results.len();
        assert(given.take(0) =~= Seq::empty());
        while count < total
            invariant
                count <= total == given.len(),
                results@ == given.skip(count as int),
                self@ == (ParticipationRead {
                    rows: applied_rows(before.rows, given.take(count as int)),
                    ..before
                }),
            decreases total - count,
        {
            proof {
                assert(given.take(count + 1).drop_last() =~= given.take(count as int));
                assert(given.take(count + 1).last() == given[count as int]);
            }
            let (account, state) = results.remove(0);
            let row = match state {
                Ok(value) => ProposalParticipationRow::Ready(value),
                Err(error) => ProposalParticipationRow::Unavailable(error),
            };
            self.rows.insert(account, row);
            count += 1;
            assert(results@ =~= given.skip(count as int));
        }
        assert(given.take(count as int) =~= given);
        self.loading = false;
        true
    }

    /// Drops what was read, so that no result under way is taken.
    pub fn invalidate(&mut self)
        ensures
            final(self)@ == (ParticipationRead {
                key: None,
                generation: next_generation(old(self).generation),
                loading: false,
                rows: Map::empty(),
            }),
    {
        self.generation = self.generation.wrapping_add(1);
        self.key = None;
        self.loading = false;
        self.rows.clear();
    }
}

/// The results of a read that failed as a whole: each account has the error.
pub fn failed_participation(accounts: &Vec<Address>, error: &str) -> (results: Vec<
    (Address, Result<GovernanceParticipation, String>),
>)
    ensures
        results@.len() == accounts@.len(),
        forall|i: int|
            0 <= i < accounts@.len() ==> (#[trigger] results@[i]).0 == accounts@[i] && (
            results@[i].1 matches Err(own) && own@ == error@),
{
    let mut results: Vec<(Address, Result<GovernanceParticipation, String>)> = Vec::new();
    let mut i: usize = 0;
    while i < accounts.len()
        invariant
            i <= accounts@.len(),
            results@.len() == i,
            forall|j: int|
                0 <= j < i ==> (#[trigger] results@[j]).0 == accounts@[j] && (
                results@[j].1 matches Err(own) && own@ == error@),
        decreases accounts@.len() - i,
    {
        results.push((accounts[i], Err(error.to_owned())));
        i += 1;
    }
    results
}

/// While a read is under way, the rows are those of the enrolled accounts and no others, and each
/// of them is being read.
pub proof fn rows_are_of_the_enrolled_accounts(participants: Seq<ParticipantId>, address: Address)
    ensures
        loading_rows(participants).contains_key(address) == exists|i: int|
            0 <= i < participants.len() && (#[trigger] participants[i]).address == address,
        loading_rows(participants).contains_key(address) ==> loading_rows(participants)[address]
            is Loading,
    decreases participants.len(),
{
    if participants.len() > 0 {
        let before = participants.drop_last();
        rows_are_of_the_enrolled_accounts(before, address);
        assert(participants.last() == participants[participants.len() - 1]);
        if exists|i: int| 0 <= i < before.len() && (#[trigger] before[i]).address == address {
            let i = choose|i: int| 0 <= i < before.len() && (#[trigger] before[i]).address == address;
            assert(participants[i].address == address);
        }
        if exists|i: int|
            0 <= i < participants.len() && (#[trigger] participants[i]).address == address {
            let i = choose|i: int|
                0 <= i < participants.len() && (#[trigger] participants[i]).address == address;
            if i < before.len() {
                assert(before[i].address == address);
            }
        }
    }
}

/// Participation is of a key where it has one, and holds what is kept of it.
pub proof fn participation_is_what_is_kept(state: ProposalParticipationState)
    ensures
        state.key is None <==> state@.key is None,
        state.key matches Some(key) ==> state@.key == Some(key@),
        state@.generation == state.generation,
        state@.loading == state.loading,
        state@.rows == state.rows@,
{
}

/// A row is ready with what was read, or says why it is not.
pub proof fn rows_are_what_was_read(value: GovernanceParticipation, error: String)
    ensures
        row_of(Ok(value)) == ProposalParticipationRow::Ready(value),
        row_of(Err(error)) == ProposalParticipationRow::Unavailable(error),
{
}

/// Every result is kept under its address, the last one where there are several, and addresses
/// without a result keep their row.
pub proof fn results_are_kept_under_their_address(
    rows: Map<Address, ProposalParticipationRow>,
    results: Seq<(Address, Result<GovernanceParticipation, String>)>,
    at: int,
    other: Address,
)
    ensures
        0 <= at < results.len() && (forall|j: int|
            at < j < results.len() ==> (#[trigger] results[j]).0 != results[at].0) ==> applied_rows(
            rows,
            results,
        ).contains_key(results[at].0) && applied_rows(rows, results)[results[at].0] == row_of(
            results[at].1,
        ),
        (forall|j: int| 0 <= j < results.len() ==> (#[trigger] results[j]).0 != other)
            ==> applied_rows(rows, results).contains_key(other) == rows.contains_key(other)
            && applied_rows(rows, results)[other] == rows[other],
    decreases results.len(),
{
    if results.len() > 0 {
        let head = results.drop_last();
        results_are_kept_under_their_address(rows, head, at, other);
        assert(results[results.len() - 1] == results.last());
        assert forall|j: int| 0 <= j < head.len() implies #[trigger] head[j] == results[j] by {}
    }
}

/// Everything that is told of a `ProposalParticipationState` is its own, under its own name.
pub proof fn proposal_participation_state_is_told_as_it_is(kept: ProposalParticipationState)
    ensures
        kept.key matches Some(held) ==> kept@.key == Some(held@),
        kept.key is None ==> kept@.key is None,
        kept@.generation == kept.generation,
        kept@.loading == kept.loading,
        kept@.rows == kept.rows@,
{
}

} // verus!
