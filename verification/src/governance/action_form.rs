//! The dialog of a staking action.
use crate::accounts::PublicAccountMetadata;
use crate::address::{parsed_address, Address};
use crate::governance::flow::{GovernanceActionFlowState, GovernanceActionSelection};
use crate::governance::model::{ContextId, GovernanceContextKey, StakePosition};
use crate::governance::staking::{
    StakingActionKind, StakingActionSelection, StakingRead, StakingReadState,
};
use crate::text::{concat2, concat3, decimal, trim, trimmed};
use crate::u256::U256;
use vstd::prelude::*;
use vstd::string::*;

verus! {

/// What the dialog of a staking action shows.
pub enum StakingDialog {
    /// The action is no longer available.
    Stale,
    /// The rewards of a claim are selected.
    Claim,
    /// The action is being checked, with a line that says so.
    Checking { message: String },
    /// The check failed; it can be tried again.
    Failed { error: String },
    /// The amount of a stake is entered.
    Stake,
    /// The delegate of a stake is entered.
    Delegate,
}

/// Whether the action that is open can be shown: what was read is of this context, and allows it.
pub open spec fn action_available(
    flow: GovernanceActionFlowState,
    read: StakingRead,
    context: ContextId,
) -> bool {
    flow.selection matches Some(GovernanceActionSelection::Staking(selection)) && read.key == Some(
        context,
    ) && read.selection_ready(selection@)
}

/// Whether both are the same context.
fn read_of(state: &StakingReadState, context: &GovernanceContextKey) -> (same: bool)
    ensures
        same == (state@.key == Some(context@)),
{
    match &state.key {
        Some(key) => key.same(context),
        None => false,
    }
}

/// Whether the action that is open can be shown.
pub fn staking_action_available(
    flow: &GovernanceActionFlowState,
    state: &StakingReadState,
    context: &GovernanceContextKey,
) -> (available: bool)
    ensures
        available == action_available(*flow, state@, context@),
{
    match flow.staking_selection() {
        Some(selection) => read_of(state, context) && state.action_selection_ready(selection),
        None => false,
    }
}

/// What the dialog of the staking action that is open shows. An action without inputs is checked
/// at once: until that has failed, it is shown as being checked.
pub fn staking_dialog(
    flow: &GovernanceActionFlowState,
    state: &StakingReadState,
    context: &GovernanceContextKey,
) -> (dialog: StakingDialog)
    ensures
        if !action_available(*flow, state@, context@) {
            dialog is Stale
        } else {
            match flow.selection {
                Some(GovernanceActionSelection::Staking(selection)) => match selection.kind {
                    StakingActionKind::RewardClaimSelected { .. } => dialog is Claim,
                    StakingActionKind::Stake => dialog is Stake,
                    StakingActionKind::Delegate { .. } => dialog is Delegate,
                    _ => match flow.error {
                        Some(text) => if flow.pending {
                            dialog matches StakingDialog::Checking { message } && message@
                                == "Checking the stake and estimating the exact call…"@
                        } else {
                            dialog matches StakingDialog::Failed { error } && error == text
                        },
                        None => dialog matches StakingDialog::Checking { message } && message@
                            == "Checking the stake and estimating the exact call…"@,
                    },
                },
                _ => false,
            }
        },
{
    if !staking_action_available(flow, state, context) {
        return StakingDialog::Stale;
    }
    match flow.staking_selection() {
        Some(selection) => match &selection.kind {
            StakingActionKind::RewardClaimSelected { .. } => StakingDialog::Claim,
            StakingActionKind::Stake => StakingDialog::Stake,
            StakingActionKind::Delegate { .. } => StakingDialog::Delegate,
            _ => match (flow.pending, &flow.error) {
                (false, Some(error)) => StakingDialog::Failed { error: error.clone() },
                _ => StakingDialog::Checking {
                    message: "Checking the stake and estimating the exact call…".to_owned(),
                },
            },
        },
        None => StakingDialog::Stale,
    }
}

/// The first account with this identifier and address.
pub open spec fn find_actor(
    accounts: Seq<PublicAccountMetadata>,
    uuid: Seq<char>,
    address: Address,
) -> Option<PublicAccountMetadata>
    decreases accounts.len(),
{
    if accounts.len() == 0 {
        None
    } else {
        match find_actor(accounts.drop_last(), uuid, address) {
            Some(found) => Some(found),
            None => if accounts.last().public_account_uuid@ == uuid && accounts.last().address
                == address {
                Some(accounts.last())
            } else {
                None
            },
        }
    }
}

proof fn lemma_find_actor_early(
    accounts: Seq<PublicAccountMetadata>,
    uuid: Seq<char>,
    address: Address,
    count: int,
)
    requires
        0 <= count <= accounts.len(),
        find_actor(accounts.take(count), uuid, address) is Some,
    ensures
        find_actor(accounts, uuid, address) == find_actor(accounts.take(count), uuid, address),
    decreases accounts.len(),
{
    if count == accounts.len() {
        assert(accounts.take(count) =~= accounts);
    } else {
        assert(accounts.drop_last().take(count) =~= accounts.take(count));
        lemma_find_actor_early(accounts.drop_last(), uuid, address, count);
    }
}

/// The position of the first account with this identifier and address.
pub fn actor_position(accounts: &Vec<PublicAccountMetadata>, uuid: &str, address: Address) -> (at:
    Option<usize>)
    ensures
        match at {
            Some(i) => i < accounts@.len() && find_actor(accounts@, uuid@, address) == Some(
                accounts@[i as int],
            ),
            None => find_actor(accounts@, uuid@, address) is None,
        },
{
    let mut i: usize = 0;
    while i < accounts.len()
        invariant
            i <= accounts@.len(),
            find_actor(accounts@.take(i as int), uuid@, address) is None,
        decreases accounts@.len() - i,
    {
        proof {
            assert(accounts@.take(i + 1).drop_last() =~= accounts@.take(i as int));
            assert(accounts@.take(i + 1).last() == accounts@[i as int]);
        }
        if crate::text::same_text(&accounts[i].public_account_uuid, uuid) && accounts[i].address
            == address {
            proof {
                lemma_find_actor_early(accounts@, uuid@, address, i + 1);
            }
            return Some(i);
        }
        i += 1;
    }
    assert(accounts@.take(i as int) =~= accounts@);
    None
}

/// The balance of an account, where it was read.
pub fn cached_balance(state: &StakingReadState, uuid: &str) -> (balance: Option<U256>)
    ensures
        balance == if state@.accounts.contains_key(uuid@) {
            match state@.accounts[uuid@].balance {
                Ok(found) => Some(found),
                Err(_) => None,
            }
        } else {
            None
        },
{
    let key = uuid.to_owned();
    match state.accounts.get(&key) {
        Some(view) => match &view.balance {
            Ok(found) => Some(*found),
            Err(_) => None,
        },
        None => None,
    }
}

/// Whether a stake is the first of an account's with this identifier.
pub open spec fn position_of(
    read: StakingRead,
    uuid: Seq<char>,
    id: U256,
    position: Option<StakePosition>,
) -> bool {
    if read.accounts.contains_key(uuid) {
        match read.accounts[uuid].stakes {
            Ok(stakes) => match position {
                Some(found) => exists|i: int|
                    0 <= i < stakes@.len() && #[trigger] stakes@[i] == found && found.id == id
                        && forall|j: int| 0 <= j < i ==> (#[trigger] stakes@[j]).id != id,
                None => forall|j: int| 0 <= j < stakes@.len() ==> (#[trigger] stakes@[j]).id != id,
            },
            Err(_) => position is None,
        }
    } else {
        position is None
    }
}

/// The stake of an account with this identifier, where it was read.
pub fn cached_position(state: &StakingReadState, uuid: &str, id: U256) -> (position: Option<
    StakePosition,
>)
    ensures
        position_of(state@, uuid@, id, position),
{
    let key = uuid.to_owned();
    match state.accounts.get(&key) {
        Some(view) => match &view.stakes {
            Ok(stakes) => {
                let mut i: usize = 0;
                while i < stakes.len()
                    invariant
                        i <= stakes@.len(),
                        state@.accounts.contains_key(uuid@),
                        state@.accounts[uuid@].stakes == Ok::<Vec<StakePosition>, String>(*stakes),
                        forall|j: int| 0 <= j < i ==> (#[trigger] stakes@[j]).id != id,
                    decreases stakes@.len() - i,
                {
                    if stakes[i].id == id {
                        assert(stakes@[i as int].id == id);
                        return Some(stakes[i]);
                    }
                    i += 1;
                }
                None
            },
            Err(_) => None,
        },
        None => None,
    }
}

/// The stake form.
pub struct StakeForm {
    pub actor_label: String,
    pub balance: String,
    /// The text that the button for everything holds, where the balance is known.
    pub max: Option<String>,
    pub ready: bool,
}

/// The texts of a balance: as an amount, and as the amount input takes it.
pub struct BalanceTexts {
    pub display: String,
    pub input: String,
}

/// The label of an account, or a general one.
pub open spec fn label_or_general(label: Option<String>) -> Seq<char> {
    match label {
        Some(text) => text@,
        None => "Public account"@,
    }
}

/// The stake form: `balance_texts` are those of the balance that was read, and `amount` is what the
/// input parses to.
pub fn stake_form(
    flow: &GovernanceActionFlowState,
    selection_ready: bool,
    actor_label: Option<String>,
    balance_texts: Option<BalanceTexts>,
    amount: Option<U256>,
) -> (form: StakeForm)
    ensures
        form.actor_label@ == label_or_general(actor_label),
        form.balance@ == match balance_texts {
            Some(texts) => texts.display@,
            None => "Balance unavailable"@,
        },
        crate::text::optional_text(form.max) == match balance_texts {
            Some(texts) => Some("Max: "@ + texts.input@ + " RAIL"@),
            None => None,
        },
        form.ready == (selection_ready && !flow.pending && (amount matches Some(entered)
            && entered@ != 0)),
{
    let entered = match amount {
        Some(found) => !found.is_zero(),
        None => false,
    };
    let (balance, max) = match balance_texts {
        Some(texts) => {
            let max = concat3("Max: ", &texts.input, " RAIL");
            (texts.display, Some(max))
        },
        None => ("Balance unavailable".to_owned(), None),
    };
    StakeForm {
        actor_label: match actor_label {
            Some(label) => label,
            None => "Public account".to_owned(),
        },
        balance,
        max,
        ready: selection_ready && entered && !flow.pending,
    }
}

/// The delegate that an input spells: any address but zero.
pub open spec fn entered_delegate(input: Seq<char>) -> Option<nat> {
    match parsed_address(trimmed(input)) {
        Some(value) => if value == 0 {
            None
        } else {
            Some(value)
        },
        None => None,
    }
}

/// The delegate that an input spells.
pub fn parse_delegate(input: &str) -> (delegate: Option<Address>)
    ensures
        match delegate {
            Some(found) => entered_delegate(input@) == Some(found.value()),
            None => entered_delegate(input@) is None,
        },
{
    match Address::parse(trim(input)) {
        Some(found) => {
            let zero = Address::zero();
            if found == zero {
                None
            } else {
                proof {
                    crate::address::address_equal_by_value(found, zero);
                }
                Some(found)
            }
        },
        None => None,
    }
}

/// The delegate form.
pub struct DelegateForm {
    pub heading: String,
    pub detail: String,
    pub error: Option<&'static str>,
    pub ready: bool,
}

/// The delegate form: `position` is the stake as it was read, `amount_text` the text of its amount,
/// `actor_short` the shortened address of the account, and `delegate_short` that of the delegate
/// the stake has, which is zero where the stake is not known.
pub fn delegate_form(
    flow: &GovernanceActionFlowState,
    selection_ready: bool,
    selection: &StakingActionSelection,
    stake_id: U256,
    position: Option<StakePosition>,
    actor_label: Option<String>,
    amount_text: &str,
    actor_short: &str,
    delegate_short: &str,
    input: &str,
) -> (form: DelegateForm)
    ensures
        ({
            let current = match position {
                Some(found) => found.delegate.value(),
                None => 0,
            };
            &&& form.heading@ == "Stake #"@ + decimal(stake_id@) + " · "@ + (match position {
                Some(_) => amount_text@,
                None => "Unknown amount"@,
            })
            &&& form.detail@ == label_or_general(actor_label) + " "@ + actor_short@ + " · "@ + (
            if current == selection.actor.value() {
                "self-delegated"@
            } else {
                "delegated to "@ + delegate_short@
            })
            &&& match form.error {
                Some(text) => if entered_delegate(input@) is None {
                    trimmed(input@).len() > 0 && text@ == "Enter a valid Ethereum address"@
                } else {
                    entered_delegate(input@) == Some(current) && text@
                        == "This stake is already delegated to that address."@
                },
                None => if entered_delegate(input@) is None {
                    trimmed(input@).len() == 0
                } else {
                    entered_delegate(input@) != Some(current)
                },
            }
            &&& form.ready == (selection_ready && !flow.pending && (entered_delegate(
                input@,
            ) matches Some(entered) && (position matches Some(found) ==> found.delegate.value()
                != entered)))
        }),
{
    let current = match position {
        Some(found) => found.delegate,
        None => Address::zero(),
    };
    let label = match &actor_label {
        Some(text) => text.clone(),
        None => "Public account".to_owned(),
    };
    let delegation = if current == selection.actor {
        "self-delegated".to_owned()
    } else {
        concat2("delegated to ", delegate_short)
    };
    proof {
        crate::address::address_equal_by_value(current, selection.actor);
    }
    let heading_head = concat3("Stake #", &stake_id.to_decimal(), " · ");
    let heading = match position {
        Some(_) => concat2(&heading_head, amount_text),
        None => concat2(&heading_head, "Unknown amount"),
    };
    let mut detail = concat3(&label, " ", actor_short);
    detail.append(" · ");
    detail.append(&delegation);
    let entered = parse_delegate(input);
    let error = match entered {
        None => if trim(input).unicode_len() > 0 {
            Some("Enter a valid Ethereum address")
        } else {
            None
        },
        Some(address) => {
            proof {
                crate::address::address_equal_by_value(address, current);
            }
            if address == current {
                Some("This stake is already delegated to that address.")
            } else {
                None
            }
        },
    };
    let changes = match entered {
        Some(address) => match position {
            Some(found) => {
                proof {
                    crate::address::address_equal_by_value(address, found.delegate);
                }
                address != found.delegate
            },
            None => true,
        },
        None => false,
    };
    DelegateForm { heading, detail, error, ready: selection_ready && changes && !flow.pending }
}

/// The label of the button that prepares the authorization.
pub fn prepare_label(pending: bool) -> (label: &'static str)
    ensures
        label@ == if pending {
            "Preparing authorization…"@
        } else {
            "Prepare authorization"@
        },
{
    if pending {
        "Preparing authorization…"
    } else {
        "Prepare authorization"
    }
}

/// An action is offered exactly while it is selected, the data is of the context and it is ready.
pub proof fn actions_are_offered_while_ready(
    flow: GovernanceActionFlowState,
    read: StakingRead,
    context: ContextId,
)
    ensures
        flow.selection is None ==> !action_available(flow, read, context),
        flow.selection matches Some(GovernanceActionSelection::Proposal(_)) ==> !action_available(
            flow,
            read,
            context,
        ),
        read.key != Some(context) ==> !action_available(flow, read, context),
        flow.selection matches Some(GovernanceActionSelection::Staking(selection)) ==> (read.key
            == Some(context) ==> (action_available(flow, read, context) <==> read.selection_ready(
            selection@,
        ))),
{
}

/// The actor is found where an account has both its identifier and its address, and the first such
/// account is taken.
pub proof fn actors_are_found_by_identifier_and_address(
    accounts: Seq<PublicAccountMetadata>,
    uuid: Seq<char>,
    address: Address,
)
    ensures
        match find_actor(accounts, uuid, address) {
            Some(found) => exists|at: int|
                0 <= at < accounts.len() && #[trigger] accounts[at] == found
                    && found.public_account_uuid@ == uuid && found.address == address && forall|
                    i: int,
                |
                    0 <= i < at ==> !((#[trigger] accounts[i]).public_account_uuid@ == uuid
                        && accounts[i].address == address),
            None => forall|i: int|
                0 <= i < accounts.len() ==> !((#[trigger] accounts[i]).public_account_uuid@ == uuid
                    && accounts[i].address == address),
        },
    decreases accounts.len(),
{
    if accounts.len() > 0 {
        let head = accounts.drop_last();
        actors_are_found_by_identifier_and_address(head, uuid, address);
        match find_actor(head, uuid, address) {
            Some(found) => {
                let at: int = choose|at: int|
                    0 <= at < head.len() && #[trigger] head[at] == found
                        && found.public_account_uuid@ == uuid && found.address == address && forall|
                        i: int,
                    |
                        0 <= i < at ==> !((#[trigger] head[i]).public_account_uuid@ == uuid
                            && head[i].address == address);
                assert(accounts[at] == found);
                assert forall|i: int| 0 <= i < at implies !((
                #[trigger] accounts[i]).public_account_uuid@ == uuid && accounts[i].address
                    == address) by {
                    assert(head[i] == accounts[i]);
                }
            },
            None => {
                assert forall|i: int| 0 <= i < head.len() implies !((
                #[trigger] accounts[i]).public_account_uuid@ == uuid && accounts[i].address
                    == address) by {
                    assert(head[i] == accounts[i]);
                }
                assert(accounts[accounts.len() - 1] == accounts.last());
            },
        }
    }
}

/// A position is the first stake of the account that has the number, where its stakes were read.
pub proof fn positions_are_found_by_their_number(
    read: StakingRead,
    uuid: Seq<char>,
    id: U256,
    position: Option<StakePosition>,
)
    requires
        position_of(read, uuid, id, position),
    ensures
        !read.accounts.contains_key(uuid) ==> position is None,
        read.accounts.contains_key(uuid) && read.accounts[uuid].stakes is Err ==> position is None,
        position matches Some(found) ==> found.id == id && read.accounts.contains_key(uuid) && (
        read.accounts[uuid].stakes matches Ok(stakes) && stakes@.contains(found)),
        read.accounts.contains_key(uuid) ==> (read.accounts[uuid].stakes matches Ok(stakes) ==> (
        position is None <==> forall|i: int|
            0 <= i < stakes@.len() ==> (#[trigger] stakes@[i]).id != id)),
{
}

/// An account without a label goes by a general one.
pub proof fn labels_have_a_general_one(label: String)
    ensures
        label_or_general(Some(label)) == label@,
        label_or_general(None) == "Public account"@,
{
}

/// A delegate is an address that reads well and is not the zero address.
pub proof fn delegates_are_addresses(input: Seq<char>)
    ensures
        parsed_address(trimmed(input)) is None ==> entered_delegate(input) is None,
        parsed_address(trimmed(input)) == Some(0nat) ==> entered_delegate(input) is None,
        parsed_address(trimmed(input)) matches Some(value) ==> (value > 0 ==> entered_delegate(input)
            == Some(value)),
        entered_delegate(input) matches Some(value) ==> value > 0,
{
}

} // verus!
