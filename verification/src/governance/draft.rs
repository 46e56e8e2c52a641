//! Preparing the call of a governance action from what was read for it.
use crate::accounts::PublicAccountSource;
use crate::address::{be_bytes, keccak256, keccak256_of, parsed_address, push_be_word, Address, B256};
use crate::governance::action::{
    GovernanceActionContext, GovernanceActionIntent, GovernanceActionReview, GovernanceContinuation,
    GovernanceContractKind, GovernanceContractVersion, GovernanceDraftRecipe, GovernanceEstimate,
    GovernanceProposal, GovernanceProposalReviewProjection, GovernanceProposalStage,
    GovernanceRefreshTarget, GovernanceResolvedAction, GovernanceSpendDraft,
    GovernanceStakingReviewProjection, GovernanceWorkflow, ProposalActionKind, ProposalFacts,
};
use crate::governance::ascending::{ascending, is_ascending};
use crate::governance::model::{StakePosition, StakingGlobalMetrics};
use crate::governance::reward_plan::RewardClaimIntent;
use crate::governance::rewards::PublicActionGasFeeSelection;
use crate::text::{trim, trimmed};
use crate::u256::{u256_max, U256};
use vstd::prelude::*;

verus! {

/// A power that was recorded at an interval.
#[derive(Clone, Copy, Debug, PartialEq, Eq, Structural)]
pub struct VotingSnapshot {
    pub interval: U256,
    pub voting_power: U256,
    pub hint: U256,
}

/// The last proposal that an account sponsored.
#[derive(Clone, Copy, Debug, PartialEq, Eq, Structural)]
pub struct LastSponsored {
    pub last_sponsor_time: U256,
    pub proposal_id: U256,
}

/// What an account may do about a proposal.
#[derive(Clone, Copy, Debug, PartialEq, Eq, Structural)]
pub struct GovernanceParticipation {
    pub current_voting_power: U256,
    pub sponsorship_snapshot: VotingSnapshot,
    pub voting_snapshot: VotingSnapshot,
    pub sponsored: U256,
    pub voted: U256,
    pub last_sponsored: LastSponsored,
}

/// The power that an account has left for a proposal.
#[derive(Clone, Copy, Debug, PartialEq, Eq, Structural)]
pub struct GovernanceCapacity {
    pub remaining: Option<U256>,
    pub snapshot_power: Option<U256>,
}

/// Why the power that an account has left is unknown.
#[derive(Debug, PartialEq, Eq)]
pub enum GovernanceCapacityError {
    SnapshotUnavailable,
    Read(String),
}

/// Where a proposal stands in the list of all proposals, newest first, or why it has no place.
pub enum Position {
    At(int, Address),
    Refused(Seq<char>),
}

/// Where a proposal stands: the proposals of the second contract come first, and each contract's
/// newest first.
pub open spec fn position_of(
    version: GovernanceContractVersion,
    index: nat,
    v2: (nat, Address),
    v1: Option<(nat, Address)>,
) -> Position {
    if v2.0 > usize::MAX {
        Position::Refused("Governance proposal count is too large"@)
    } else {
        match version {
            GovernanceContractVersion::V2 => if index > usize::MAX {
                Position::Refused("Proposal index is too large"@)
            } else if v2.0 < index + 1 {
                Position::Refused("Proposal is no longer available"@)
            } else {
                Position::At(v2.0 - (index + 1), v2.1)
            },
            GovernanceContractVersion::V1 => match v1 {
                None => Position::Refused("Legacy governance is unavailable"@),
                Some((count, address)) => if count > usize::MAX {
                    Position::Refused("Governance proposal count is too large"@)
                } else if index > usize::MAX {
                    Position::Refused("Proposal index is too large"@)
                } else if count < index + 1 {
                    Position::Refused("Proposal is no longer available"@)
                } else if v2.0 + (count - (index + 1)) > usize::MAX {
                    Position::Refused("Proposal position overflowed"@)
                } else {
                    Position::At(v2.0 + (count - (index + 1)), address)
                },
            },
        }
    }
}

/// This number where an index holds it.
fn to_usize(n: U256) -> (value: Option<usize>)
    ensures
        match value {
            Some(found) => found as nat == n@,
            None => n@ > usize::MAX,
        },
{
    match n.to_u64() {
        Some(small) => if small <= usize::MAX as u64 {
            Some(small as usize)
        } else {
            None
        },
        None => None,
    }
}

/// Where a proposal stands in the list of all proposals, with the contract that it is read from.
/// `v2` and `v1` are the proposal counts and addresses of the two contracts.
pub fn proposal_position(
    version: GovernanceContractVersion,
    index: U256,
    v2: (U256, Address),
    v1: Option<(U256, Address)>,
) -> (position: Result<(usize, Address), String>)
    requires
        index@ != usize::MAX,
    ensures
        position matches Ok((at, contract)) ==> match version {
            GovernanceContractVersion::V2 => at + index@ + 1 == v2.0@ && contract == v2.1,
            GovernanceContractVersion::V1 => v1 matches Some((count, address)) && at + index@ + 1
                == v2.0@ + count@ && contract == address && index@ < count@,
        },
        version is V2 && index@ < v2.0@ <= usize::MAX ==> position is Ok,
        match (
            position,
            position_of(
                version,
                index@,
                (v2.0@, v2.1),
                match v1 {
                    Some((count, address)) => Some((count@, address)),
                    None => None,
                },
            ),
        ) {
            (Ok((at, address)), Position::At(expected, contract)) => at == expected && address
                == contract,
            (Err(error), Position::Refused(text)) => error@ == text,
            _ => false,
        },
{
    let v2_count: usize = match to_usize(v2.0) {
        Some(count) => count,
        None => return Err("Governance proposal count is too large".to_owned()),
    };
    match version {
        GovernanceContractVersion::V2 => {
            let at: usize = match to_usize(index) {
                Some(at) => at,
                None => return Err("Proposal index is too large".to_owned()),
            };
            match v2_count.checked_sub(at + 1) {
                Some(global) => Ok((global, v2.1)),
                None => Err("Proposal is no longer available".to_owned()),
            }
        },
        GovernanceContractVersion::V1 => {
            let (count, address) = match v1 {
                Some(found) => found,
                None => return Err("Legacy governance is unavailable".to_owned()),
            };
            let v1_count: usize = match to_usize(count) {
                Some(count) => count,
                None => return Err("Governance proposal count is too large".to_owned()),
            };
            let at: usize = match to_usize(index) {
                Some(at) => at,
                None => return Err("Proposal index is too large".to_owned()),
            };
            let offset: usize = match v1_count.checked_sub(at + 1) {
                Some(offset) => offset,
                None => return Err("Proposal is no longer available".to_owned()),
            };
            match v2_count.checked_add(offset) {
                Some(global) => Ok((global, address)),
                None => Err("Proposal position overflowed".to_owned()),
            }
        },
    }
}

/// The page that holds a proposal, where its contract is still the one that it was read from.
pub fn proposal_page(
    proposal: &GovernanceProposal,
    position: (usize, Address),
    page_size: usize,
) -> (page: Result<usize, String>)
    requires
        page_size > 0,
    ensures
        match page {
            Ok(found) => position.1 == proposal@.facts.contract_address && found == position.0
                as int / page_size as int,
            Err(error) => position.1 != proposal@.facts.contract_address && error@
                == "Proposal contract changed; refresh before authorizing"@,
        },
{
    if position.1 != proposal.contract_address {
        return Err("Proposal contract changed; refresh before authorizing".to_owned());
    }
    Ok(position.0 / page_size)
}

/// Whether both are the same proposal, whatever has become of it.
pub open spec fn same_proposal(a: ProposalFacts, b: ProposalFacts) -> bool {
    a.contract_version == b.contract_version && a.contract_address == b.contract_address && a.index
        == b.index
}

/// The position of the proposal among those of its page.
pub fn fresh_proposal(rows: &Vec<GovernanceProposal>, proposal: &GovernanceProposal) -> (found:
    Result<usize, String>)
    ensures
        match found {
            Ok(at) => at < rows@.len() && rows@[at as int].contract_version
                == proposal.contract_version && rows@[at as int].contract_address
                == proposal.contract_address && rows@[at as int].index == proposal.index
                && same_proposal(rows@[at as int]@.facts, proposal@.facts) && forall|i: int|
                0 <= i < at ==> !same_proposal((#[trigger] rows@[i])@.facts, proposal@.facts),
            Err(error) => (forall|i: int|
                0 <= i < rows@.len() ==> !same_proposal(
                    (#[trigger] rows@[i])@.facts,
                    proposal@.facts,
                )) && error@
                == "Proposal changed or is no longer available; refresh before authorizing"@,
        },
{
    let mut i: usize = 0;
    while i < rows.len()
        invariant
            i <= rows@.len(),
            forall|j: int|
                0 <= j < i ==> !same_proposal((#[trigger] rows@[j])@.facts, proposal@.facts),
        decreases rows@.len() - i,
    {
        if rows[i].contract_version == proposal.contract_version && rows[i].contract_address
            == proposal.contract_address && rows[i].index == proposal.index {
            return Ok(i);
        }
        i += 1;
    }
    Err("Proposal changed or is no longer available; refresh before authorizing".to_owned())
}

/// The rules that hold for a proposal.
pub fn proposal_rules<R: Copy>(
    version: GovernanceContractVersion,
    v2_rules: R,
    v1_rules: Option<R>,
) -> (rules: Result<R, String>)
    ensures
        match (version, v1_rules, rules) {
            (GovernanceContractVersion::V2, _, Ok(found)) => found == v2_rules,
            (GovernanceContractVersion::V1, Some(own), Ok(found)) => found == own,
            (GovernanceContractVersion::V1, None, Err(error)) => error@
                == "Legacy governance rules are unavailable"@,
            _ => false,
        },
{
    match version {
        GovernanceContractVersion::V2 => Ok(v2_rules),
        GovernanceContractVersion::V1 => match v1_rules {
            Some(rules) => Ok(rules),
            None => Err("Legacy governance rules are unavailable".to_owned()),
        },
    }
}

/// The participation of the account that acts, out of the rows that were read.
pub fn actor_participation(
    rows: &Vec<(Address, Result<GovernanceParticipation, String>)>,
    actor: Address,
) -> (participation: Result<GovernanceParticipation, String>)
    ensures
        match participation {
            Ok(found) => exists|at: int|
                first_row(rows@, actor, at) && rows@[at].1 == Ok::<GovernanceParticipation, String>(
                    found,
                ),
            Err(error) => (exists|at: int|
                #![trigger rows@[at]]
                first_row(rows@, actor, at) && (rows@[at].1 matches Err(own) && own@ == error@)) || (
            error@ == "Selected account participation is unavailable; refresh before authorizing"@
                && forall|i: int| 0 <= i < rows@.len() ==> (#[trigger] rows@[i]).0 != actor),
        },
{
    let mut i: usize = 0;
    while i < rows.len()
        invariant
            i <= rows@.len(),
            forall|j: int| 0 <= j < i ==> (#[trigger] rows@[j]).0 != actor,
        decreases rows@.len() - i,
    {
        if rows[i].0 == actor {
            assert(first_row(rows@, actor, i as int));
            return match &rows[i].1 {
                Ok(found) => Ok(*found),
                Err(error) => Err(error.clone()),
            };
        }
        i += 1;
    }
    Err("Selected account participation is unavailable; refresh before authorizing".to_owned())
}

/// The first row of an account.
pub open spec fn first_row(
    rows: Seq<(Address, Result<GovernanceParticipation, String>)>,
    actor: Address,
    at: int,
) -> bool {
    &&& 0 <= at < rows.len()
    &&& rows[at].0 == actor
    &&& forall|i: int| 0 <= i < at ==> (#[trigger] rows[i]).0 != actor
}

/// The power that an account has left to vote or to sponsor with.
pub fn participation_capacity(capacity: Result<GovernanceCapacity, String>) -> (remaining: Result<
    U256,
    GovernanceCapacityError,
>)
    ensures
        remaining == match capacity {
            Ok(found) => match found.remaining {
                Some(power) => Ok::<U256, GovernanceCapacityError>(power),
                None => Err(GovernanceCapacityError::SnapshotUnavailable),
            },
            Err(error) => Err(GovernanceCapacityError::Read(error)),
        },
{
    match capacity {
        Ok(found) => match found.remaining {
            Some(power) => Ok(power),
            None => Err(GovernanceCapacityError::SnapshotUnavailable),
        },
        Err(error) => Err(GovernanceCapacityError::Read(error)),
    }
}

/// The condition that an action on a proposal has to meet.
#[derive(Clone, Copy, Debug, PartialEq, Eq, Structural)]
pub enum ProposalGuard {
    Sponsor { amount: U256, last_sponsored: LastSponsored },
    Unsponsor { amount: U256, sponsored: U256 },
    CallVote,
    Yay { amount: U256 },
    Nay { amount: U256 },
}

/// The condition that an action has to meet.
pub fn proposal_guard(
    kind: ProposalActionKind,
    amount: U256,
    participation: &GovernanceParticipation,
) -> (guard: ProposalGuard)
    ensures
        guard == match kind {
            ProposalActionKind::Sponsor => ProposalGuard::Sponsor {
                amount,
                last_sponsored: participation.last_sponsored,
            },
            ProposalActionKind::Unsponsor => ProposalGuard::Unsponsor {
                amount,
                sponsored: participation.sponsored,
            },
            ProposalActionKind::CallVote => ProposalGuard::CallVote,
            ProposalActionKind::Yay => ProposalGuard::Yay { amount },
            ProposalActionKind::Nay => ProposalGuard::Nay { amount },
        },
{
    match kind {
        ProposalActionKind::Sponsor => ProposalGuard::Sponsor {
            amount,
            last_sponsored: participation.last_sponsored,
        },
        ProposalActionKind::Unsponsor => ProposalGuard::Unsponsor {
            amount,
            sponsored: participation.sponsored,
        },
        ProposalActionKind::CallVote => ProposalGuard::CallVote,
        ProposalActionKind::Yay => ProposalGuard::Yay { amount },
        ProposalActionKind::Nay => ProposalGuard::Nay { amount },
    }
}

/// Whether an action votes.
pub open spec fn votes(kind: ProposalActionKind) -> bool {
    kind == ProposalActionKind::Yay || kind == ProposalActionKind::Nay
}

/// Checks an action: its condition, and for a vote or a sponsorship that the power left suffices.
/// `guard` is what its condition came to, and `remaining` the power left to vote, or for a
/// sponsorship to sponsor with.
pub fn validate_proposal_action(
    kind: ProposalActionKind,
    amount: Option<U256>,
    guard: Result<(), String>,
    remaining: Result<U256, String>,
) -> (valid: Result<(), String>)
    ensures
        match (guard, remaining) {
            (Err(error), _) => valid == Err::<(), String>(error),
            (Ok(_), Err(error)) => if votes(kind) || kind == ProposalActionKind::Sponsor {
                valid == Err::<(), String>(error)
            } else {
                valid is Ok
            },
            (Ok(_), Ok(power)) => {
                let wanted = match amount {
                    Some(found) => found@,
                    None => 0,
                };
                if votes(kind) && wanted > power@ {
                    valid matches Err(error) && error@ == "Amount exceeds remaining voting capacity"@
                } else if kind == ProposalActionKind::Sponsor && wanted > power@ {
                    valid matches Err(error) && error@
                        == "Amount exceeds remaining sponsorship capacity"@
                } else {
                    valid is Ok
                }
            },
        },
{
    if let Err(error) = guard {
        return Err(error);
    }
    let wanted = match amount {
        Some(found) => found,
        None => U256::zero(),
    };
    match kind {
        ProposalActionKind::Yay | ProposalActionKind::Nay => match remaining {
            Ok(power) => if power.less_than(wanted) {
                Err("Amount exceeds remaining voting capacity".to_owned())
            } else {
                Ok(())
            },
            Err(error) => Err(error),
        },
        ProposalActionKind::Sponsor => match remaining {
            Ok(power) => if power.less_than(wanted) {
                Err("Amount exceeds remaining sponsorship capacity".to_owned())
            } else {
                Ok(())
            },
            Err(error) => Err(error),
        },
        _ => Ok(()),
    }
}

/// The twenty bytes of an address.
pub open spec fn address_bytes(address: Address) -> Seq<u8> {
    be_bytes(address.hi as u64).skip(4) + be_bytes(address.mid) + be_bytes(address.lo)
}

/// The thirty-two bytes of a number.
pub open spec fn number_bytes(number: U256) -> Seq<u8> {
    be_bytes(number.l3) + be_bytes(number.l2) + be_bytes(number.l1) + be_bytes(number.l0)
}

/// The bytes of several numbers.
pub open spec fn numbers_bytes(numbers: Seq<U256>) -> Seq<u8>
    decreases numbers.len(),
{
    if numbers.len() == 0 {
        Seq::empty()
    } else {
        numbers_bytes(numbers.drop_last()) + number_bytes(numbers.last())
    }
}

/// The numbers that an action on a proposal depends on.
pub open spec fn observed_numbers(
    facts: ProposalFacts,
    participation: GovernanceParticipation,
) -> Seq<U256> {
    seq![
        facts.index,
        facts.publish_time,
        facts.vote_call_time,
        facts.sponsorship,
        facts.yay_votes,
        facts.nay_votes,
        facts.sponsor_snapshot_interval,
        facts.voting_snapshot_interval,
        participation.current_voting_power,
        participation.sponsorship_snapshot.interval,
        participation.sponsorship_snapshot.voting_power,
        participation.sponsorship_snapshot.hint,
        participation.voting_snapshot.interval,
        participation.voting_snapshot.voting_power,
        participation.voting_snapshot.hint,
        participation.sponsored,
        participation.voted,
        participation.last_sponsored.last_sponsor_time,
        participation.last_sponsored.proposal_id,
    ]
}

/// The bytes whose hash stands for the state that an action on a proposal depends on.
pub open spec fn observed_bytes(
    facts: ProposalFacts,
    participation: GovernanceParticipation,
    actor: Address,
) -> Seq<u8> {
    address_bytes(facts.contract_address) + address_bytes(actor) + numbers_bytes(
        observed_numbers(facts, participation),
    ) + seq![
        if facts.executed {
            1u8
        } else {
            0u8
        },
    ]
}

fn push_address(bytes: &mut Vec<u8>, address: Address)
    ensures
        final(bytes)@ == old(bytes)@ + address_bytes(address),
{
    let high: u64 = address.hi as u64;
    bytes.push(((high / 0x100_0000) % 256) as u8);
    bytes.push(((high / 0x1_0000) % 256) as u8);
    bytes.push(((high / 0x100) % 256) as u8);
    bytes.push((high % 256) as u8);
    assert(bytes@ =~= old(bytes)@ + be_bytes(high).skip(4));
    push_be_word(bytes, address.mid);
    push_be_word(bytes, address.lo);
    assert(bytes@ =~= old(bytes)@ + address_bytes(address));
}

fn push_numbers(bytes: &mut Vec<u8>, numbers: &Vec<U256>)
    ensures
        final(bytes)@ == old(bytes)@ + numbers_bytes(numbers@),
{
    let ghost before = bytes@;
    let mut i: usize = 0;
    assert(bytes@ =~= before + numbers_bytes(numbers@.take(0)));
    while i < numbers.len()
        invariant
            i <= numbers@.len(),
            bytes@ == before + numbers_bytes(numbers@.take(i as int)),
        decreases numbers@.len() - i,
    {
        let number = numbers[i];
        let ghost head = numbers_bytes(numbers@.take(i as int));
        push_be_word(bytes, number.l3);
        push_be_word(bytes, number.l2);
        push_be_word(bytes, number.l1);
        push_be_word(bytes, number.l0);
        proof {
            assert(numbers@.take(i + 1).drop_last() =~= numbers@.take(i as int));
            assert(bytes@ =~= before + (head + number_bytes(number)));
        }
        i += 1;
    }
    assert(numbers@.take(i as int) =~= numbers@);
}

/// The hash of the state that an action on a proposal depends on.
pub fn proposal_observed_state(
    proposal: &GovernanceProposal,
    participation: &GovernanceParticipation,
    actor: Address,
) -> (state: B256)
    ensures
        state == keccak256_of(observed_bytes(proposal@.facts, *participation, actor)),
{
    let mut bytes: Vec<u8> = Vec::new();
    push_address(&mut bytes, proposal.contract_address);
    push_address(&mut bytes, actor);
    let numbers = vec![
        proposal.index,
        proposal.publish_time,
        proposal.vote_call_time,
        proposal.sponsorship,
        proposal.yay_votes,
        proposal.nay_votes,
        proposal.sponsor_snapshot_interval,
        proposal.voting_snapshot_interval,
        participation.current_voting_power,
        participation.sponsorship_snapshot.interval,
        participation.sponsorship_snapshot.voting_power,
        participation.sponsorship_snapshot.hint,
        participation.voting_snapshot.interval,
        participation.voting_snapshot.voting_power,
        participation.voting_snapshot.hint,
        participation.sponsored,
        participation.voted,
        participation.last_sponsored.last_sponsor_time,
        participation.last_sponsored.proposal_id,
    ];
    assert(numbers@ =~= observed_numbers(proposal@.facts, *participation));
    push_numbers(&mut bytes, &numbers);
    bytes.push(
        if proposal.executed {
            1
        } else {
            0
        },
    );
    assert(bytes@ =~= observed_bytes(proposal@.facts, *participation, actor));
    keccak256(&bytes)
}

/// The call that an action on a proposal makes.
pub fn proposal_action_intent(
    kind: ProposalActionKind,
    proposal: &GovernanceProposal,
    participation: &GovernanceParticipation,
    amount: U256,
) -> (intent: GovernanceActionIntent)
    ensures
        intent == match kind {
            ProposalActionKind::Sponsor => GovernanceActionIntent::Sponsor {
                proposal_version: proposal@.facts.contract_version,
                proposal_index: proposal@.facts.index,
                amount,
                snapshot_interval: participation.sponsorship_snapshot.interval,
                snapshot_hint: participation.sponsorship_snapshot.hint,
            },
            ProposalActionKind::Unsponsor => GovernanceActionIntent::Unsponsor {
                proposal_version: proposal@.facts.contract_version,
                proposal_index: proposal@.facts.index,
                amount,
            },
            ProposalActionKind::CallVote => GovernanceActionIntent::CallVote {
                proposal_version: proposal@.facts.contract_version,
                proposal_index: proposal@.facts.index,
            },
            ProposalActionKind::Yay => GovernanceActionIntent::Yay {
                proposal_version: proposal@.facts.contract_version,
                proposal_index: proposal@.facts.index,
                amount,
                snapshot_interval: participation.voting_snapshot.interval,
                snapshot_hint: participation.voting_snapshot.hint,
            },
            ProposalActionKind::Nay => GovernanceActionIntent::Nay {
                proposal_version: proposal@.facts.contract_version,
                proposal_index: proposal@.facts.index,
                amount,
                snapshot_interval: participation.voting_snapshot.interval,
                snapshot_hint: participation.voting_snapshot.hint,
            },
        },
{
    let proposal_version = proposal.contract_version;
    let proposal_index = proposal.index;
    match kind {
        ProposalActionKind::Sponsor => GovernanceActionIntent::Sponsor {
            proposal_version,
            proposal_index,
            amount,
            snapshot_interval: participation.sponsorship_snapshot.interval,
            snapshot_hint: participation.sponsorship_snapshot.hint,
        },
        ProposalActionKind::Unsponsor => GovernanceActionIntent::Unsponsor {
            proposal_version,
            proposal_index,
            amount,
        },
        ProposalActionKind::CallVote => GovernanceActionIntent::CallVote {
            proposal_version,
            proposal_index,
        },
        ProposalActionKind::Yay => GovernanceActionIntent::Yay {
            proposal_version,
            proposal_index,
            amount,
            snapshot_interval: participation.voting_snapshot.interval,
            snapshot_hint: participation.voting_snapshot.hint,
        },
        ProposalActionKind::Nay => GovernanceActionIntent::Nay {
            proposal_version,
            proposal_index,
            amount,
            snapshot_interval: participation.voting_snapshot.interval,
            snapshot_hint: participation.voting_snapshot.hint,
        },
    }
}

/// What an action on a proposal leaves, or the text of what keeps it from being shown.
pub enum Projection {
    Shown {
        power_after: Option<nat>,
        snapshot_power: Option<U256>,
        sponsorship_after: Option<nat>,
        threshold: Option<U256>,
    },
    Refused(Seq<char>),
}

/// What an action on a proposal leaves. `capacity` is the power to sponsor with, or for a vote the
/// power to vote with.
pub open spec fn projection_of(
    kind: ProposalActionKind,
    amount: nat,
    sponsorship: nat,
    threshold: U256,
    capacity: Result<GovernanceCapacity, String>,
) -> Projection {
    match kind {
        ProposalActionKind::CallVote => Projection::Shown {
            power_after: None,
            snapshot_power: None,
            sponsorship_after: None,
            threshold: None,
        },
        _ => match capacity {
            Err(error) => Projection::Refused(error@),
            Ok(found) => match found.remaining {
                None => Projection::Refused(
                    if votes(kind) {
                        "Voting capacity has no remaining power"@
                    } else {
                        "Sponsorship capacity has no remaining power"@
                    },
                ),
                Some(remaining) => if votes(kind) {
                    if remaining@ < amount {
                        Projection::Refused("Voting power after action overflowed"@)
                    } else {
                        Projection::Shown {
                            power_after: Some((remaining@ - amount) as nat),
                            snapshot_power: found.snapshot_power,
                            sponsorship_after: None,
                            threshold: None,
                        }
                    }
                } else if kind == ProposalActionKind::Sponsor {
                    if remaining@ < amount {
                        Projection::Refused("Sponsorship power after action overflowed"@)
                    } else if sponsorship + amount > u256_max() {
                        Projection::Refused("Proposal sponsorship after action overflowed"@)
                    } else {
                        Projection::Shown {
                            power_after: Some((remaining@ - amount) as nat),
                            snapshot_power: found.snapshot_power,
                            sponsorship_after: Some(sponsorship + amount),
                            threshold: Some(threshold),
                        }
                    }
                } else {
                    if remaining@ + amount > u256_max() {
                        Projection::Refused("Sponsorship power after action overflowed"@)
                    } else if sponsorship < amount {
                        Projection::Refused("Proposal sponsorship after action underflowed"@)
                    } else {
                        Projection::Shown {
                            power_after: Some(remaining@ + amount),
                            snapshot_power: found.snapshot_power,
                            sponsorship_after: Some((sponsorship - amount) as nat),
                            threshold: Some(threshold),
                        }
                    }
                },
            },
        },
    }
}

/// The number that an optional value stands for.
pub open spec fn optional_number(value: Option<U256>) -> Option<nat> {
    match value {
        Some(found) => Some(found@),
        None => None,
    }
}

/// What an action on a proposal leaves.
pub fn proposal_review_projection(
    kind: ProposalActionKind,
    amount: U256,
    stage: GovernanceProposalStage,
    sponsorship: U256,
    threshold: U256,
    capacity: Result<GovernanceCapacity, String>,
) -> (projection: Result<GovernanceProposalReviewProjection, String>)
    ensures
        projection matches Ok(found) ==> found.stage == stage,
        kind is Yay || kind is Nay ==> match projection {
            Ok(found) => capacity matches Ok(own) && own.remaining matches Some(before)
                && found.power_remaining_after matches Some(after) && after@ + amount@ == before@
                && found.snapshot_power == own.snapshot_power
                && found.proposal_sponsorship_after is None && found.sponsorship_threshold is None,
            Err(_) => !(capacity matches Ok(own) && own.remaining matches Some(before) && amount@
                <= before@),
        },
        kind is Sponsor ==> match projection {
            Ok(found) => capacity matches Ok(own) && own.remaining matches Some(before)
                && found.power_remaining_after matches Some(after) && after@ + amount@ == before@
                && found.snapshot_power == own.snapshot_power && (
            found.proposal_sponsorship_after matches Some(total) && total@ == sponsorship@
                + amount@) && found.sponsorship_threshold == Some(threshold),
            Err(_) => !(capacity matches Ok(own) && own.remaining matches Some(before) && amount@
                <= before@ && sponsorship@ + amount@ <= u256_max()),
        },
        kind is Unsponsor ==> match projection {
            Ok(found) => capacity matches Ok(own) && own.remaining matches Some(before)
                && found.power_remaining_after matches Some(after) && after@ == before@ + amount@
                && found.snapshot_power == own.snapshot_power && (
            found.proposal_sponsorship_after matches Some(total) && total@ + amount@
                == sponsorship@) && found.sponsorship_threshold == Some(threshold),
            Err(_) => !(capacity matches Ok(own) && own.remaining matches Some(before) && before@
                + amount@ <= u256_max() && amount@ <= sponsorship@),
        },
        kind is CallVote ==> (projection matches Ok(found) && found.power_remaining_after is None
            && found.snapshot_power is None && found.proposal_sponsorship_after is None
            && found.sponsorship_threshold is None),
        !(kind is CallVote) ==> (capacity matches Err(own) ==> (projection matches Err(error)
            && error@ == own@)),
        match (projection, projection_of(kind, amount@, sponsorship@, threshold, capacity)) {
            (
                Ok(found),
                Projection::Shown {
                    power_after,
                    snapshot_power,
                    sponsorship_after,
                    threshold: shown_threshold,
                },
            ) => found.stage == stage && optional_number(found.power_remaining_after)
                == power_after && found.snapshot_power == snapshot_power && optional_number(
                found.proposal_sponsorship_after,
            ) == sponsorship_after && found.sponsorship_threshold == shown_threshold,
            (Err(error), Projection::Refused(text)) => error@ == text,
            _ => false,
        },
{
    if kind == ProposalActionKind::CallVote {
        return Ok(
            GovernanceProposalReviewProjection {
                stage,
                power_remaining_after: None,
                snapshot_power: None,
                proposal_sponsorship_after: None,
                sponsorship_threshold: None,
            },
        );
    }
    let capacity = match capacity {
        Ok(found) => found,
        Err(error) => return Err(error),
    };
    let voting = match kind {
        ProposalActionKind::Yay | ProposalActionKind::Nay => true,
        _ => false,
    };
    let remaining = match capacity.remaining {
        Some(remaining) => remaining,
        None => return Err(
            if voting {
                "Voting capacity has no remaining power".to_owned()
            } else {
                "Sponsorship capacity has no remaining power".to_owned()
            },
        ),
    };
    if voting {
        return match remaining.checked_sub(amount) {
            Some(after) => Ok(
                GovernanceProposalReviewProjection {
                    stage,
                    power_remaining_after: Some(after),
                    snapshot_power: capacity.snapshot_power,
                    proposal_sponsorship_after: None,
                    sponsorship_threshold: None,
                },
            ),
            None => Err("Voting power after action overflowed".to_owned()),
        };
    }
    let sponsors = kind == ProposalActionKind::Sponsor;
    let after = if sponsors {
        remaining.checked_sub(amount)
    } else {
        remaining.checked_add(amount)
    };
    let after = match after {
        Some(after) => after,
        None => return Err("Sponsorship power after action overflowed".to_owned()),
    };
    let total = if sponsors {
        sponsorship.checked_add(amount)
    } else {
        sponsorship.checked_sub(amount)
    };
    match total {
        Some(total) => Ok(
            GovernanceProposalReviewProjection {
                stage,
                power_remaining_after: Some(after),
                snapshot_power: capacity.snapshot_power,
                proposal_sponsorship_after: Some(total),
                sponsorship_threshold: Some(threshold),
            },
        ),
        None => Err(
            if sponsors {
                "Proposal sponsorship after action overflowed".to_owned()
            } else {
                "Proposal sponsorship after action underflowed".to_owned()
            },
        ),
    }
}

/// The fee caps that a draft is sent with: those of the selection, or those of its estimate.
pub fn pinned_gas_fee(
    selection: PublicActionGasFeeSelection,
    estimate: &GovernanceEstimate,
) -> (gas_fee: PublicActionGasFeeSelection)
    ensures
        gas_fee == match selection {
            PublicActionGasFeeSelection::Auto => PublicActionGasFeeSelection::Custom {
                max_fee_per_gas: estimate.max_fee_per_gas,
                max_priority_fee_per_gas: estimate.max_priority_fee_per_gas,
            },
            _ => selection,
        },
{
    match selection {
        PublicActionGasFeeSelection::Auto => PublicActionGasFeeSelection::Custom {
            max_fee_per_gas: estimate.max_fee_per_gas,
            max_priority_fee_per_gas: estimate.max_priority_fee_per_gas,
        },
        custom => custom,
    }
}

/// The draft of an action, once its call has been resolved and estimated.
pub fn assemble_draft(
    target: GovernanceRefreshTarget,
    actor_uuid: String,
    actor_source: PublicAccountSource,
    context: GovernanceActionContext,
    resolved: GovernanceResolvedAction,
    review: GovernanceActionReview,
    proposal_review: Option<GovernanceProposalReviewProjection>,
    staking_review: Option<GovernanceStakingReviewProjection>,
    estimate: GovernanceEstimate,
    estimate_completed_at: u128,
    gas_fee_selection: PublicActionGasFeeSelection,
    workflow: Option<GovernanceWorkflow>,
    continuation: Option<GovernanceContinuation>,
    recipe: GovernanceDraftRecipe,
) -> (draft: GovernanceSpendDraft)
    ensures
        draft == (GovernanceSpendDraft {
            target,
            actor_uuid,
            actor: context.actor,
            actor_source,
            context,
            resolved,
            review,
            proposal_review,
            staking_review,
            estimate,
            estimate_completed_at,
            gas_fee: match gas_fee_selection {
                PublicActionGasFeeSelection::Auto => PublicActionGasFeeSelection::Custom {
                    max_fee_per_gas: estimate.max_fee_per_gas,
                    max_priority_fee_per_gas: estimate.max_priority_fee_per_gas,
                },
                _ => gas_fee_selection,
            },
            workflow,
            continuation,
            recipe,
        }),
{
    let gas_fee = pinned_gas_fee(gas_fee_selection, &estimate);
    GovernanceSpendDraft {
        target,
        actor_uuid,
        actor: context.actor,
        actor_source,
        context,
        resolved,
        review,
        proposal_review,
        staking_review,
        estimate,
        estimate_completed_at,
        gas_fee,
        workflow,
        continuation,
        recipe,
    }
}

/// The contracts of the governance of one chain.
pub struct GovernanceContracts {
    pub staking: Address,
    pub governance_token: Address,
    pub governor_rewards: Address,
    pub reward_tokens: Vec<Address>,
}

/// What a staking action calls, and what it is reviewed with.
pub struct StakingActionPlan {
    pub contract: Address,
    pub contract_kind: GovernanceContractKind,
    pub observed_state: B256,
    pub intent: GovernanceActionIntent,
    pub workflow: Option<GovernanceWorkflow>,
    pub staking_review: Option<GovernanceStakingReviewProjection>,
}

/// The amount to stake, which has to be positive.
pub fn stake_amount(parsed: Result<U256, String>) -> (amount: Result<U256, String>)
    ensures
        match (parsed, amount) {
            (Err(error), Err(own)) => own == error,
            (Ok(found), Ok(own)) => found@ != 0 && own == found,
            (Ok(found), Err(error)) => found@ == 0 && error@ == "Amount must be greater than zero"@,
            _ => false,
        },
{
    match parsed {
        Ok(amount) => if amount.is_zero() {
            Err("Amount must be greater than zero".to_owned())
        } else {
            Ok(amount)
        },
        Err(error) => Err(error),
    }
}

/// What a stake calls: the approval first, where one is needed, and else the stake.
pub fn stake_plan(
    contracts: &GovernanceContracts,
    amount: U256,
    approval: Option<GovernanceActionIntent>,
    stake: Option<GovernanceActionIntent>,
    observed_state: B256,
) -> (plan: Result<StakingActionPlan, String>)
    ensures
        match plan {
            Ok(found) => {
                &&& found.observed_state == observed_state
                &&& found.staking_review == Some(
                    GovernanceStakingReviewProjection::Stake { amount },
                )
                &&& match approval {
                    Some(intent) => found.contract == contracts.governance_token
                        && found.contract_kind == GovernanceContractKind::GovernanceToken
                        && found.intent == intent && found.workflow == Some(
                        GovernanceWorkflow::StakeApproval,
                    ),
                    None => stake matches Some(intent) && found.contract == contracts.staking
                        && found.contract_kind == (if contracts.staking
                        == contracts.governance_token {
                        GovernanceContractKind::GovernanceToken
                    } else {
                        GovernanceContractKind::Staking
                    }) && found.intent == intent && found.workflow is None,
                }
            },
            Err(error) => approval is None && stake is None && error@
                == "Stake plan did not produce a stake call"@,
        },
{
    let (contract, intent, workflow) = match approval {
        Some(intent) => (
            contracts.governance_token,
            intent,
            Some(GovernanceWorkflow::StakeApproval),
        ),
        None => match stake {
            Some(intent) => (contracts.staking, intent, None),
            None => return Err("Stake plan did not produce a stake call".to_owned()),
        },
    };
    Ok(
        StakingActionPlan {
            contract,
            contract_kind: if contract == contracts.governance_token {
                GovernanceContractKind::GovernanceToken
            } else {
                GovernanceContractKind::Staking
            },
            observed_state,
            intent,
            workflow,
            staking_review: Some(GovernanceStakingReviewProjection::Stake { amount }),
        },
    )
}

/// The delegate that the input names.
pub fn delegate_address(input: &str) -> (delegate: Result<Address, String>)
    ensures
        match delegate {
            Ok(found) => parsed_address(trimmed(input@)) == Some(found.value()),
            Err(error) => parsed_address(trimmed(input@)) is None && error@
                == "Enter a valid delegate address"@,
        },
{
    match Address::parse(trim(input)) {
        Some(address) => Ok(address),
        None => Err("Enter a valid delegate address".to_owned()),
    }
}

/// What a change of the delegate calls.
pub fn delegation_plan(
    contracts: &GovernanceContracts,
    intent: GovernanceActionIntent,
    observed_state: B256,
    previous_delegate: Address,
    next_delegate: Address,
) -> (plan: StakingActionPlan)
    ensures
        plan == (StakingActionPlan {
            contract: contracts.staking,
            contract_kind: GovernanceContractKind::Staking,
            observed_state,
            intent,
            workflow: None,
            staking_review: Some(
                GovernanceStakingReviewProjection::Delegation { previous_delegate, next_delegate },
            ),
        }),
{
    StakingActionPlan {
        contract: contracts.staking,
        contract_kind: GovernanceContractKind::Staking,
        observed_state,
        intent,
        workflow: None,
        staking_review: Some(
            GovernanceStakingReviewProjection::Delegation { previous_delegate, next_delegate },
        ),
    }
}

/// How a stake is unlocked.
pub enum UnlockPlan {
    /// At once, with what the plan says of the stake.
    Direct {
        intent: GovernanceActionIntent,
        observed_state: B256,
        delegate: Address,
        owner: Address,
        amount: U256,
    },
    /// After the end of its delegation, which is called first.
    UndelegateFirst { intent: GovernanceActionIntent, observed_state: B256 },
}

/// What an unlock calls: the unlock itself, or first the end of a delegation. The claim becomes
/// possible once the lock time has passed from the chain's time on.
pub fn unlock_plan(
    contracts: &GovernanceContracts,
    stake_id: U256,
    position: &StakePosition,
    metrics: &StakingGlobalMetrics,
    planned: Result<UnlockPlan, String>,
) -> (plan: Result<StakingActionPlan, String>)
    ensures
        if metrics.chain_time@ + metrics.stake_locktime@ > u256_max() {
            plan matches Err(error) && error@ == "Unlock claim timestamp overflowed"@
        } else {
            match planned {
                Err(error) => plan == Err::<StakingActionPlan, String>(error),
                Ok(unlock) => plan matches Ok(found) && found.contract == contracts.staking
                    && found.contract_kind is Staking && (match unlock {
                    UnlockPlan::Direct { intent, observed_state, .. } => found.intent == intent
                        && found.observed_state == observed_state && found.workflow is None,
                    UnlockPlan::UndelegateFirst { intent, observed_state } => found.intent == intent
                        && found.observed_state == observed_state && found.workflow == Some(
                        GovernanceWorkflow::UndelegateThenUnlock,
                    ),
                }) && unlock_is_planned(
                    *contracts,
                    stake_id,
                    *position,
                    *metrics,
                    unlock,
                    found,
                ),
            }
        },
{
    let projected_claim_timestamp = match metrics.chain_time.checked_add(metrics.stake_locktime) {
        Some(time) => time,
        None => return Err("Unlock claim timestamp overflowed".to_owned()),
    };
    let planned = match planned {
        Ok(found) => found,
        Err(error) => return Err(error),
    };
    let (intent, observed_state, workflow, previous_delegate, owner, amount) = match planned {
        UnlockPlan::Direct { intent, observed_state, delegate, owner, amount } => (
            intent,
            observed_state,
            None,
            delegate,
            owner,
            amount,
        ),
        UnlockPlan::UndelegateFirst { intent, observed_state } => (
            intent,
            observed_state,
            Some(GovernanceWorkflow::UndelegateThenUnlock),
            position.delegate,
            position.owner,
            position.amount,
        ),
    };
    Ok(
        StakingActionPlan {
            contract: contracts.staking,
            contract_kind: GovernanceContractKind::Staking,
            observed_state,
            intent,
            workflow,
            staking_review: Some(
                GovernanceStakingReviewProjection::Unlock {
                    owner,
                    stake_id,
                    amount,
                    previous_delegate,
                    stake_locktime: metrics.stake_locktime,
                    projected_claim_timestamp,
                },
            ),
        },
    )
}

/// Whether a plan is that of an unlock: the call, and what is shown of the stake.
pub open spec fn unlock_is_planned(
    contracts: GovernanceContracts,
    stake_id: U256,
    position: StakePosition,
    metrics: StakingGlobalMetrics,
    unlock: UnlockPlan,
    plan: StakingActionPlan,
) -> bool {
    &&& plan.contract == contracts.staking
    &&& plan.contract_kind == GovernanceContractKind::Staking
    &&& plan.staking_review matches Some(
        GovernanceStakingReviewProjection::Unlock {
            owner,
            stake_id: shown_id,
            amount,
            previous_delegate,
            stake_locktime,
            projected_claim_timestamp,
        },
    )
    &&& shown_id == stake_id
    &&& stake_locktime == metrics.stake_locktime
    &&& projected_claim_timestamp@ == metrics.chain_time@ + metrics.stake_locktime@
    &&& match unlock {
        UnlockPlan::Direct {
            intent,
            observed_state,
            delegate,
            owner: own_owner,
            amount: own_amount,
        } => plan.intent == intent && plan.observed_state == observed_state
            && plan.workflow is None && previous_delegate == delegate && owner == own_owner
            && amount == own_amount,
        UnlockPlan::UndelegateFirst { intent, observed_state } => plan.intent == intent
            && plan.observed_state == observed_state && plan.workflow == Some(
            GovernanceWorkflow::UndelegateThenUnlock,
        ) && previous_delegate == position.delegate && owner == position.owner && amount
            == position.amount,
    }
}

/// What a claim of the principal calls.
pub fn principal_claim_plan(
    contracts: &GovernanceContracts,
    stake_id: U256,
    amount: U256,
    intent: GovernanceActionIntent,
    observed_state: B256,
) -> (plan: StakingActionPlan)
    ensures
        plan == (StakingActionPlan {
            contract: contracts.staking,
            contract_kind: GovernanceContractKind::Staking,
            observed_state,
            intent,
            workflow: None,
            staking_review: Some(
                GovernanceStakingReviewProjection::PrincipalClaim { stake_id, amount },
            ),
        }),
{
    StakingActionPlan {
        contract: contracts.staking,
        contract_kind: GovernanceContractKind::Staking,
        observed_state,
        intent,
        workflow: None,
        staking_review: Some(
            GovernanceStakingReviewProjection::PrincipalClaim { stake_id, amount },
        ),
    }
}

/// The call that claims rewards, as an action.
pub fn reward_claim_action(intent: RewardClaimIntent) -> (action: GovernanceActionIntent)
    ensures
        action == (GovernanceActionIntent::RewardClaim {
            reward_tokens: intent.reward_tokens,
            starting_interval: intent.starting_interval,
            ending_interval: intent.ending_interval,
            snapshot_hints: intent.snapshot_hints,
            expected_amounts: intent.expected_amounts,
        }),
{
    GovernanceActionIntent::RewardClaim {
        reward_tokens: intent.reward_tokens,
        starting_interval: intent.starting_interval,
        ending_interval: intent.ending_interval,
        snapshot_hints: intent.snapshot_hints,
        expected_amounts: intent.expected_amounts,
    }
}

/// What a claim of rewards calls.
pub fn reward_claim_plan(
    contracts: &GovernanceContracts,
    intent: GovernanceActionIntent,
    fingerprint: B256,
) -> (plan: StakingActionPlan)
    ensures
        plan == (StakingActionPlan {
            contract: contracts.governor_rewards,
            contract_kind: GovernanceContractKind::GovernorRewards,
            observed_state: fingerprint,
            intent,
            workflow: None,
            staking_review: None,
        }),
{
    StakingActionPlan {
        contract: contracts.governor_rewards,
        contract_kind: GovernanceContractKind::GovernorRewards,
        observed_state: fingerprint,
        intent,
        workflow: None,
        staking_review: None,
    }
}

/// Checks the tokens of a claim: there is at least one, and they are unique and ascending.
pub fn check_claim_tokens(tokens: &Vec<Address>) -> (checked: Result<(), String>)
    ensures
        match checked {
            Ok(_) => tokens@.len() > 0 && ascending(tokens@),
            Err(error) => if tokens@.len() == 0 {
                error@ == "Select at least one reward to claim"@
            } else {
                !ascending(tokens@) && error@
                    == "Selected reward tokens must be unique and ascending by address"@
            },
        },
{
    if tokens.len() == 0 {
        return Err("Select at least one reward to claim".to_owned());
    }
    if !is_ascending(tokens) {
        return Err("Selected reward tokens must be unique and ascending by address".to_owned());
    }
    Ok(())
}

/// The contracts of the chain, where staking is deployed there.
pub fn staking_contracts(contracts: Option<GovernanceContracts>) -> (found: Result<
    GovernanceContracts,
    String,
>)
    ensures
        match (contracts, found) {
            (Some(own), Ok(found)) => found == own,
            (None, Err(error)) => error@ == "Staking is not deployed on this chain"@,
            _ => false,
        },
{
    match contracts {
        Some(found) => Ok(found),
        None => Err("Staking is not deployed on this chain".to_owned()),
    }
}

/// The contract that pays rewards, where the chain has one.
pub fn contracts_for_reward(contracts: Option<&GovernanceContracts>) -> (contract: Result<
    Address,
    String,
>)
    ensures
        match (contracts, contract) {
            (Some(own), Ok(found)) => found == own.governor_rewards,
            (None, Err(error)) => error@ == "Reward contracts unavailable"@,
            _ => false,
        },
{
    match contracts {
        Some(found) => Ok(found.governor_rewards),
        None => Err("Reward contracts unavailable".to_owned()),
    }
}

/// What the gas of a claim is estimated for: the account and the contract, with no wallet and
/// nothing that was observed.
pub fn reward_estimate_context(chain_id: u64, actor: Address, contract: Address) -> (context:
    GovernanceActionContext)
    ensures
        context.private_wallet_uuid@.len() == 0,
        context.chain_id == chain_id,
        context.public_account_uuid@.len() == 0,
        context.actor == actor,
        context.contract == contract,
        context.contract_kind == GovernanceContractKind::GovernorRewards,
        context.observed_state.value() == 0,
{
    GovernanceActionContext {
        private_wallet_uuid: String::new(),
        chain_id,
        public_account_uuid: String::new(),
        actor,
        contract,
        contract_kind: GovernanceContractKind::GovernorRewards,
        observed_state: B256 { w0: 0, w1: 0, w2: 0, w3: 0 },
    }
}

/// The stake with this identifier, out of the fresh read of its owner. `result` is what the read
/// brought for the first account, if any.
pub fn fresh_stake_position(
    result: Option<Result<Vec<StakePosition>, String>>,
    stake_id: U256,
) -> (position: Result<StakePosition, String>)
    ensures
        match (result, position) {
            (None, Err(error)) => error@ == "Stake owner read returned no account"@,
            (Some(Err(error)), Err(own)) => own == error,
            (Some(Ok(stakes)), Ok(found)) => exists|at: int|
                0 <= at < stakes@.len() && #[trigger] stakes@[at] == found && found.id == stake_id
                    && forall|i: int| 0 <= i < at ==> (#[trigger] stakes@[i]).id != stake_id,
            (Some(Ok(stakes)), Err(error)) => (forall|i: int|
                0 <= i < stakes@.len() ==> (#[trigger] stakes@[i]).id != stake_id) && error@
                == "Stake no longer exists; refresh before authorizing"@,
            _ => false,
        },
{
    let ghost given = result;
    let stakes = match result {
        None => return Err("Stake owner read returned no account".to_owned()),
        Some(Err(error)) => return Err(error),
        Some(Ok(stakes)) => stakes,
    };
    let mut i: usize = 0;
    while i < stakes.len()
        invariant
            i <= stakes@.len(),
            given == Some(Ok::<Vec<StakePosition>, String>(stakes)),
            given == result,
            forall|j: int| 0 <= j < i ==> (#[trigger] stakes@[j]).id != stake_id,
        decreases stakes@.len() - i,
    {
        if stakes[i].id == stake_id {
            return Ok(stakes[i]);
        }
        i += 1;
    }
    Err("Stake no longer exists; refresh before authorizing".to_owned())
}

/// A vote spends its amount: what remains after it and the amount make up what remained before.
/// Without enough remaining power no vote is shown.
pub proof fn votes_spend_their_amount(
    kind: ProposalActionKind,
    amount: nat,
    sponsorship: nat,
    threshold: U256,
    capacity: GovernanceCapacity,
    before: U256,
)
    requires
        kind is Yay || kind is Nay,
        capacity.remaining == Some(before),
    ensures
        match projection_of(kind, amount, sponsorship, threshold, Ok(capacity)) {
            Projection::Shown { power_after, snapshot_power, sponsorship_after, .. } => power_after
                matches Some(after) && after + amount == before@ && snapshot_power
                == capacity.snapshot_power && sponsorship_after is None,
            Projection::Refused(text) => amount > before@ && text
                == "Voting power after action overflowed"@,
        },
{
}

/// Sponsoring moves its amount from the account to the proposal: what the account has left and what
/// the proposal has together do not change.
pub proof fn sponsoring_moves_its_amount(
    amount: nat,
    sponsorship: nat,
    threshold: U256,
    capacity: GovernanceCapacity,
    before: U256,
)
    requires
        capacity.remaining == Some(before),
        amount <= before@,
        sponsorship + amount <= u256_max(),
    ensures
        projection_of(ProposalActionKind::Sponsor, amount, sponsorship, threshold, Ok(capacity))
            matches Projection::Shown { power_after, sponsorship_after, threshold: shown, .. }
            && power_after matches Some(after) && sponsorship_after matches Some(total) && after
            + total == before@ + sponsorship && total == sponsorship + amount && shown == Some(
            threshold,
        ),
{
}

/// Taking a sponsorship back undoes it: the account and the proposal have again what they had.
pub proof fn unsponsoring_undoes_sponsoring(
    amount: nat,
    sponsorship: nat,
    threshold: U256,
    capacity: GovernanceCapacity,
    before: U256,
    left: GovernanceCapacity,
    after: U256,
)
    requires
        capacity.remaining == Some(before),
        left.remaining == Some(after),
        after@ + amount == before@,
        sponsorship + amount <= u256_max(),
    ensures
        projection_of(ProposalActionKind::Sponsor, amount, sponsorship, threshold, Ok(capacity))
            matches Projection::Shown { power_after, sponsorship_after, .. } && power_after == Some(
            after@,
        ) && sponsorship_after == Some(sponsorship + amount),
        projection_of(
            ProposalActionKind::Unsponsor,
            amount,
            sponsorship + amount,
            threshold,
            Ok(left),
        ) matches Projection::Shown { power_after, sponsorship_after, .. } && power_after == Some(
            before@,
        ) && sponsorship_after == Some(sponsorship),
{
}

/// The review of any action but a call of the vote needs the capacity: where it could not be read,
/// the review is refused with that error. A call of the vote moves nothing.
pub proof fn reviews_need_the_capacity(
    kind: ProposalActionKind,
    amount: nat,
    sponsorship: nat,
    threshold: U256,
    error: String,
)
    ensures
        match kind {
            ProposalActionKind::CallVote => projection_of(
                kind,
                amount,
                sponsorship,
                threshold,
                Err(error),
            ) matches Projection::Shown { power_after, sponsorship_after, .. } && power_after is None
                && sponsorship_after is None,
            _ => projection_of(kind, amount, sponsorship, threshold, Err(error))
                == Projection::Refused(error@),
        },
{
}

/// Proposals are listed with the newest first: the next newer one of the same contract stands one
/// place before. Those of the earlier contract stand behind all of the current one.
pub proof fn newer_proposals_stand_first(
    version: GovernanceContractVersion,
    index: nat,
    v2: (nat, Address),
    v1: Option<(nat, Address)>,
)
    requires
        position_of(version, index, v2, v1) is At,
        position_of(version, index + 1, v2, v1) is At,
    ensures
        (position_of(version, index, v2, v1))->At_0 == position_of(
            version,
            index + 1,
            v2,
            v1,
        )->At_0 + 1,
        position_of(version, index, v2, v1)->At_1 == position_of(version, index + 1, v2, v1)->At_1,
        version is V1 ==> position_of(version, index, v2, v1)->At_0 >= v2.0,
        version is V2 ==> position_of(version, index, v2, v1)->At_0 < v2.0,
{
}

/// The last proposal of a contract stands at its head, and an index that a contract does not have is
/// refused.
pub proof fn the_last_proposal_stands_at_the_head(
    index: nat,
    v2: (nat, Address),
    v1: (nat, Address),
)
    requires
        v2.0 + v1.0 <= usize::MAX,
        index < usize::MAX,
    ensures
        index + 1 == v2.0 ==> position_of(GovernanceContractVersion::V2, index, v2, Some(v1))
            == Position::At(0, v2.1),
        index + 1 == v1.0 ==> position_of(GovernanceContractVersion::V1, index, v2, Some(v1))
            == Position::At(v2.0 as int, v1.1),
        index >= v2.0 ==> position_of(GovernanceContractVersion::V2, index, v2, Some(v1))
            == Position::Refused("Proposal is no longer available"@),
        index >= v1.0 ==> position_of(GovernanceContractVersion::V1, index, v2, Some(v1))
            == Position::Refused("Proposal is no longer available"@),
        position_of(GovernanceContractVersion::V1, index, v2, None) == Position::Refused(
            "Legacy governance is unavailable"@,
        ),
{
}

/// Two proposals are the same exactly where contract version, contract and index agree.
pub proof fn proposals_are_told_apart(a: ProposalFacts, b: ProposalFacts)
    ensures
        same_proposal(a, b) <==> (a.contract_version == b.contract_version && a.contract_address
            == b.contract_address && a.index == b.index),
{
}

/// The row of an actor is its own, and the only one that can be the first.
pub proof fn the_first_row_is_unique(
    rows: Seq<(Address, Result<GovernanceParticipation, String>)>,
    actor: Address,
    at: int,
    other: int,
)
    requires
        first_row(rows, actor, at),
    ensures
        0 <= at < rows.len(),
        rows[at].0 == actor,
        first_row(rows, actor, other) ==> other == at,
        other < at && 0 <= other ==> rows[other].0 != actor,
{
    if first_row(rows, actor, other) {
        if other < at {
            assert(rows[other].0 != actor);
        }
        if at < other {
            assert(rows[at].0 != actor);
        }
    }
}

/// An unlock that is planned says when the stake can be claimed: a lock time after the chain's time.
/// It is of the stake that was asked for, whether it is undelegated first or not.
pub proof fn planned_unlocks_say_when(
    contracts: GovernanceContracts,
    stake_id: U256,
    position: StakePosition,
    metrics: StakingGlobalMetrics,
    unlock: UnlockPlan,
    plan: StakingActionPlan,
)
    requires
        unlock_is_planned(contracts, stake_id, position, metrics, unlock, plan),
    ensures
        plan.staking_review matches Some(
            GovernanceStakingReviewProjection::Unlock {
                owner,
                stake_id: shown_id,
                amount,
                previous_delegate,
                stake_locktime,
                projected_claim_timestamp,
            },
        ) && shown_id == stake_id && projected_claim_timestamp@ - metrics.chain_time@
            == metrics.stake_locktime@ && stake_locktime@ == metrics.stake_locktime@ && (match unlock {
            UnlockPlan::Direct { delegate, owner: own_owner, amount: own_amount, .. } => {
                previous_delegate == delegate && owner == own_owner && amount == own_amount
            },
            UnlockPlan::UndelegateFirst { .. } => previous_delegate == position.delegate && owner
                == position.owner && amount == position.amount,
        }),
        plan.contract == contracts.staking,
        plan.workflow is Some <==> unlock is UndelegateFirst,
        plan.intent == (match unlock {
            UnlockPlan::Direct { intent, .. } => intent,
            UnlockPlan::UndelegateFirst { intent, .. } => intent,
        }),
{
}

proof fn lemma_bytes_of_words(a: u64, b: u64)
    ensures
        be_bytes(a) == be_bytes(b) ==> a == b,
{
    crate::address::words_read_back_from_their_bytes(a);
    crate::address::words_read_back_from_their_bytes(b);
}

proof fn lemma_equal_parts(a: Seq<u8>, b: Seq<u8>, c: Seq<u8>, d: Seq<u8>)
    requires
        a.len() == b.len(),
        a + c == b + d,
    ensures
        a == b,
        c == d,
{
    let one = a + c;
    let other = b + d;
    assert(a =~= one.subrange(0, a.len() as int));
    assert(b =~= other.subrange(0, a.len() as int));
    assert(c =~= one.subrange(a.len() as int, one.len() as int));
    assert(d =~= other.subrange(a.len() as int, other.len() as int));
}

proof fn lemma_four_words(a: Seq<Seq<u8>>, b: Seq<Seq<u8>>)
    requires
        a.len() == 4,
        b.len() == 4,
        forall|i: int| 0 <= i < 4 ==> (#[trigger] a[i]).len() == 8,
        forall|i: int| 0 <= i < 4 ==> (#[trigger] b[i]).len() == 8,
        a[0] + a[1] + a[2] + a[3] == b[0] + b[1] + b[2] + b[3],
    ensures
        a[0] == b[0],
        a[1] == b[1],
        a[2] == b[2],
        a[3] == b[3],
{
    lemma_equal_parts(a[0] + a[1] + a[2], b[0] + b[1] + b[2], a[3], b[3]);
    lemma_equal_parts(a[0] + a[1], b[0] + b[1], a[2], b[2]);
    lemma_equal_parts(a[0], b[0], a[1], b[1]);
}

/// The bytes of a number are its own: different numbers have different bytes.
pub proof fn numbers_are_told_apart_by_their_bytes(a: U256, b: U256)
    ensures
        number_bytes(a).len() == 32,
        number_bytes(a) == number_bytes(b) <==> a == b,
{
    if number_bytes(a) == number_bytes(b) {
        lemma_four_words(
            seq![be_bytes(a.l3), be_bytes(a.l2), be_bytes(a.l1), be_bytes(a.l0)],
            seq![be_bytes(b.l3), be_bytes(b.l2), be_bytes(b.l1), be_bytes(b.l0)],
        );
        lemma_bytes_of_words(a.l3, b.l3);
        lemma_bytes_of_words(a.l2, b.l2);
        lemma_bytes_of_words(a.l1, b.l1);
        lemma_bytes_of_words(a.l0, b.l0);
    }
}

proof fn lemma_short_words(a: u32, b: u32)
    requires
        be_bytes(a as u64).skip(4) == be_bytes(b as u64).skip(4),
    ensures
        a == b,
{
    let one = be_bytes(a as u64);
    let other = be_bytes(b as u64);
    assert forall|i: int| 0 <= i < 8 implies one[i] == other[i] by {
        if i >= 4 {
            assert(one[i] == one.skip(4)[i - 4]);
            assert(other[i] == other.skip(4)[i - 4]);
        }
    }
    assert(one =~= other);
    lemma_bytes_of_words(a as u64, b as u64);
}

/// The bytes of an address are its own: different addresses have different bytes.
pub proof fn addresses_are_told_apart_by_their_bytes(a: Address, b: Address)
    ensures
        address_bytes(a).len() == 20,
        address_bytes(a) == address_bytes(b) <==> a == b,
{
    if address_bytes(a) == address_bytes(b) {
        let one = be_bytes(a.hi as u64).skip(4);
        let other = be_bytes(b.hi as u64).skip(4);
        lemma_equal_parts(
            one + be_bytes(a.mid),
            other + be_bytes(b.mid),
            be_bytes(a.lo),
            be_bytes(b.lo),
        );
        lemma_equal_parts(one, other, be_bytes(a.mid), be_bytes(b.mid));
        lemma_short_words(a.hi, b.hi);
        lemma_bytes_of_words(a.mid, b.mid);
        lemma_bytes_of_words(a.lo, b.lo);
    }
}

proof fn lemma_numbers_bytes(a: Seq<U256>, b: Seq<U256>)
    requires
        a.len() == b.len(),
    ensures
        numbers_bytes(a).len() == 32 * a.len(),
        numbers_bytes(a) == numbers_bytes(b) ==> a == b,
    decreases a.len(),
{
    if a.len() > 0 {
        let one = numbers_bytes(a);
        let other = numbers_bytes(b);
        lemma_numbers_bytes(a.drop_last(), b.drop_last());
        lemma_numbers_bytes(b.drop_last(), a.drop_last());
        numbers_are_told_apart_by_their_bytes(a.last(), b.last());
        numbers_are_told_apart_by_their_bytes(b.last(), a.last());
        if one == other {
            lemma_equal_parts(
                numbers_bytes(a.drop_last()),
                numbers_bytes(b.drop_last()),
                number_bytes(a.last()),
                number_bytes(b.last()),
            );
            assert(a =~= a.drop_last().push(a.last()));
            assert(b =~= b.drop_last().push(b.last()));
        }
    } else {
        assert(a =~= b);
    }
}

/// The state that an action depends on is the same only where the contract, the account, whether the
/// proposal was executed, and every time, amount and snapshot of the proposal and of the account are.
pub proof fn observed_states_are_told_apart(
    a: ProposalFacts,
    b: ProposalFacts,
    one: GovernanceParticipation,
    other: GovernanceParticipation,
    actor: Address,
    another: Address,
)
    requires
        observed_bytes(a, one, actor) == observed_bytes(b, other, another),
    ensures
        actor == another,
        a.contract_address == b.contract_address,
        a.index == b.index,
        a.publish_time == b.publish_time,
        a.vote_call_time == b.vote_call_time,
        a.sponsorship == b.sponsorship,
        a.executed == b.executed,
        a.yay_votes == b.yay_votes,
        a.nay_votes == b.nay_votes,
        a.sponsor_snapshot_interval == b.sponsor_snapshot_interval,
        a.voting_snapshot_interval == b.voting_snapshot_interval,
        one.current_voting_power == other.current_voting_power,
        one.sponsorship_snapshot.interval == other.sponsorship_snapshot.interval,
        one.sponsorship_snapshot.voting_power == other.sponsorship_snapshot.voting_power,
        one.sponsorship_snapshot.hint == other.sponsorship_snapshot.hint,
        one.voting_snapshot.interval == other.voting_snapshot.interval,
        one.voting_snapshot.voting_power == other.voting_snapshot.voting_power,
        one.voting_snapshot.hint == other.voting_snapshot.hint,
        one.sponsored == other.sponsored,
        one.voted == other.voted,
        one.last_sponsored.last_sponsor_time == other.last_sponsored.last_sponsor_time,
        one.last_sponsored.proposal_id == other.last_sponsored.proposal_id,
{
    let mine = observed_numbers(a, one);
    let yours = observed_numbers(b, other);
    let done = seq![if a.executed { 1u8 } else { 0u8 }];
    let over = seq![if b.executed { 1u8 } else { 0u8 }];
    let (contract, same) = (address_bytes(a.contract_address), address_bytes(b.contract_address));
    let (by, whom) = (address_bytes(actor), address_bytes(another));
    lemma_numbers_bytes(mine, yours);
    lemma_numbers_bytes(yours, mine);
    addresses_are_told_apart_by_their_bytes(a.contract_address, b.contract_address);
    addresses_are_told_apart_by_their_bytes(b.contract_address, a.contract_address);
    addresses_are_told_apart_by_their_bytes(actor, another);
    addresses_are_told_apart_by_their_bytes(another, actor);
    lemma_equal_parts(
        contract + by + numbers_bytes(mine),
        same + whom + numbers_bytes(yours),
        done,
        over,
    );
    lemma_equal_parts(contract + by, same + whom, numbers_bytes(mine), numbers_bytes(yours));
    lemma_equal_parts(contract, same, by, whom);
    assert(done[0] == over[0]);
    assert(mine == yours);
    assert(mine[0] == yours[0] && mine[1] == yours[1] && mine[2] == yours[2] && mine[3] == yours[3]
        && mine[4] == yours[4] && mine[5] == yours[5] && mine[6] == yours[6] && mine[7] == yours[7]);
    assert(mine[8] == yours[8] && mine[9] == yours[9] && mine[10] == yours[10] && mine[11]
        == yours[11] && mine[12] == yours[12] && mine[13] == yours[13] && mine[14] == yours[14]);
    assert(mine[15] == yours[15] && mine[16] == yours[16] && mine[17] == yours[17] && mine[18]
        == yours[18]);
}

/// The state is written as the contract, the account, the numbers and last whether it was executed.
pub proof fn observed_states_are_written_in_order(
    facts: ProposalFacts,
    participation: GovernanceParticipation,
    actor: Address,
)
    ensures
        ({
            let bytes = observed_bytes(facts, participation, actor);
            &&& bytes.len() == 649
            &&& bytes.subrange(0, 20) == address_bytes(facts.contract_address)
            &&& bytes.subrange(20, 40) == address_bytes(actor)
            &&& bytes.subrange(40, 72) == number_bytes(facts.index)
            &&& bytes.last() == 1u8 <==> facts.executed
            &&& bytes.last() == 0u8 <==> !facts.executed
        }),
{
    let bytes = observed_bytes(facts, participation, actor);
    let numbers = observed_numbers(facts, participation);
    lemma_numbers_bytes(numbers, numbers);
    addresses_are_told_apart_by_their_bytes(facts.contract_address, actor);
    addresses_are_told_apart_by_their_bytes(actor, facts.contract_address);
    lemma_first_number(numbers);
    assert(bytes.subrange(0, 20) =~= address_bytes(facts.contract_address));
    assert(bytes.subrange(20, 40) =~= address_bytes(actor));
    assert(bytes.subrange(40, 72) =~= numbers_bytes(numbers).subrange(0, 32));
}

proof fn lemma_first_number(numbers: Seq<U256>)
    requires
        numbers.len() > 0,
    ensures
        numbers_bytes(numbers).len() >= 32,
        numbers_bytes(numbers).subrange(0, 32) == number_bytes(numbers[0]),
    decreases numbers.len(),
{
    lemma_numbers_bytes(numbers, numbers);
    numbers_are_told_apart_by_their_bytes(numbers[0], numbers[0]);
    if numbers.len() > 1 {
        lemma_first_number(numbers.drop_last());
        assert(numbers_bytes(numbers).subrange(0, 32) =~= numbers_bytes(
            numbers.drop_last(),
        ).subrange(0, 32));
    } else {
        assert(numbers_bytes(numbers.drop_last()) =~= Seq::<u8>::empty());
        assert(numbers_bytes(numbers).subrange(0, 32) =~= number_bytes(numbers[0]));
    }
}

/// Of the actions two vote, and what may be absent stands for its number where it is there.
pub proof fn two_actions_vote(value: U256)
    ensures
        votes(ProposalActionKind::Yay),
        votes(ProposalActionKind::Nay),
        !votes(ProposalActionKind::Sponsor),
        !votes(ProposalActionKind::Unsponsor),
        !votes(ProposalActionKind::CallVote),
        optional_number(Some(value)) == Some(value@),
        optional_number(None) is None,
{
}

} // verus!
