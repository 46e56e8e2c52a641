//! Private transactions that the wallet broadcasts itself, with a Public account as the signer.
use crate::accounts::{account_ids, AccountId, PublicAccountMetadata, PublicAccountSource};
use crate::address::{parsed_address, Address};
use crate::gateway::draft_options::DisplayRow;
use crate::gateway::drafts::{
    draft_current, draft_is_current, DraftRecord, DraftVersion, GatewayDraftStatus, OpenWallet,
    PreparedDraftKind,
};
use crate::gateway::private_draft::{
    draft_asset, draft_output, entered_fee_mode, private_draft_asset, private_draft_output,
    unshield_form, unshield_form_of, AssetOutcome, BroadcasterChoice, FeeHandlingMode,
    GatewayPrivateDraftInput, GatewayPrivateDraftKind, NativeTopUpPlan, OutputOutcome,
    PrivateAsset, PrivateEstimateOutput, UnshieldForm,
};
use crate::governance::participants::wallet_text;
use crate::governance::rewards::{GasFeeQuote, PublicActionGasFeeSelection};
use crate::governance::staking::next_generation;
use crate::governance::state::{GasFeeEditor, GasFeeMode};
use crate::text::{concat3, decimal, decimal_u64, optional_text, same_text};
use crate::u256::U256;
use vstd::prelude::*;

verus! {

/// The fee caps as an extension enters them.
pub enum GatewayPrivateGasFee {
    Auto,
    Custom { max_fee_gwei: String, priority_fee_gwei: String },
}

/// What a sponsor is offered.
pub enum GatewayPrivateIncentive {
    Economy,
    Standard,
    Priority,
    Custom { percent: String },
}

/// Who pays for the gas.
pub enum GatewayPrivateFunding {
    PublicBalance,
    Sponsorship { incentive: GatewayPrivateIncentive },
}

/// How a transaction is broadcast by the wallet itself.
pub struct SelfBroadcastInput {
    pub signer: Option<String>,
    pub funding: GatewayPrivateFunding,
    pub fee: GatewayPrivateGasFee,
}

/// What a sponsor is offered.
#[derive(Clone, Copy, Debug, PartialEq, Eq, Structural)]
pub enum SponsoredIncentive {
    Economy,
    Standard,
    Priority,
    Custom(u64),
}

/// Who pays for the gas.
#[derive(Clone, Copy, Debug, PartialEq, Eq, Structural)]
pub enum SelfBroadcastFundingMode {
    PublicBalance,
    PrivateSponsorship,
}

/// What custom fee caps parse to, and whether they go together.
pub struct ParsedCaps {
    pub max_fee: Result<u128, String>,
    pub tip: Result<u128, String>,
    pub valid: Result<(), String>,
}

/// The fee caps that were entered, or what is wrong with them: the greatest fee, the tip and the
/// two together are checked in this order.
pub open spec fn entered_caps(fee: GatewayPrivateGasFee, parsed: ParsedCaps) -> Result<
    PublicActionGasFeeSelection,
    String,
> {
    match fee {
        GatewayPrivateGasFee::Auto => Ok(PublicActionGasFeeSelection::Auto),
        GatewayPrivateGasFee::Custom { .. } => match (parsed.max_fee, parsed.tip, parsed.valid) {
            (Err(error), _, _) => Err(error),
            (Ok(_), Err(error), _) => Err(error),
            (Ok(_), Ok(_), Err(error)) => Err(error),
            (Ok(max_fee_per_gas), Ok(max_priority_fee_per_gas), Ok(_)) => Ok(
                PublicActionGasFeeSelection::Custom { max_fee_per_gas, max_priority_fee_per_gas },
            ),
        },
    }
}

/// The fee caps that were entered.
pub fn gas_selection(fee: &GatewayPrivateGasFee, parsed: ParsedCaps) -> (selection: Result<
    PublicActionGasFeeSelection,
    String,
>)
    ensures
        selection == entered_caps(*fee, parsed),
        *fee is Auto ==> (selection matches Ok(found) && found is Auto),
        *fee is Custom ==> (selection matches Ok(found) ==> (found matches
            PublicActionGasFeeSelection::Custom { max_fee_per_gas, max_priority_fee_per_gas }
            && parsed.max_fee matches Ok(max_fee) && parsed.tip matches Ok(tip) && max_fee_per_gas
            == max_fee && max_priority_fee_per_gas == tip && parsed.valid is Ok)),
        *fee is Custom && parsed.max_fee is Ok && parsed.tip is Ok && parsed.valid is Ok
            ==> selection is Ok,
{
    match fee {
        GatewayPrivateGasFee::Auto => Ok(PublicActionGasFeeSelection::Auto),
        GatewayPrivateGasFee::Custom { .. } => {
            let max_fee_per_gas: u128 = match parsed.max_fee {
                Ok(fee) => fee,
                Err(error) => return Err(error),
            };
            let max_priority_fee_per_gas: u128 = match parsed.tip {
                Ok(tip) => tip,
                Err(error) => return Err(error),
            };
            match parsed.valid {
                Ok(_) => Ok(
                    PublicActionGasFeeSelection::Custom {
                        max_fee_per_gas,
                        max_priority_fee_per_gas,
                    },
                ),
                Err(error) => Err(error),
            }
        },
    }
}

/// Why an account cannot sign: its device is not supported.
pub open spec fn signer_unavailable(source: PublicAccountSource, hardware_supported: bool) -> Option<
    Seq<char>,
> {
    if source is HardwareDerived && !hardware_supported {
        Some("Hardware signing is unavailable in this desktop build."@)
    } else {
        None
    }
}

/// Why an account cannot sign, where `hardware_supported` is whether hardware wallets are.
pub fn signer_unavailable_reason(account: &PublicAccountMetadata, hardware_supported: bool) -> (
    reason: Option<&'static str>)
    ensures
        match reason {
            Some(text) => signer_unavailable(account.source, hardware_supported) == Some(text@),
            None => signer_unavailable(account.source, hardware_supported) is None,
        },
{
    match account.source {
        PublicAccountSource::HardwareDerived => if hardware_supported {
            None
        } else {
            Some("Hardware signing is unavailable in this desktop build.")
        },
        _ => None,
    }
}

/// The accounts that can sign.
pub fn eligible_signers(accounts: &Vec<PublicAccountMetadata>, hardware_supported: bool) -> (
    eligible: Vec<PublicAccountMetadata>)
    ensures
        account_ids(eligible@) == account_ids(accounts@).filter(
            |account: AccountId| signer_unavailable(account.source, hardware_supported) is None,
        ),
{
    let ghost ids = account_ids(accounts@);
    let ghost keep = |account: AccountId|
        signer_unavailable(account.source, hardware_supported) is None;
    let mut eligible: Vec<PublicAccountMetadata> = Vec::new();
    let mut i: usize = 0;
    proof {
        reveal(Seq::filter);
        assert(account_ids(eligible@) =~= ids.take(0).filter(keep));
    }
    while i < accounts.len()
        invariant
            i <= accounts@.len(),
            ids == account_ids(accounts@),
            keep == (|account: AccountId|
                signer_unavailable(account.source, hardware_supported) is None),
            account_ids(eligible@) == ids.take(i as int).filter(keep),
        decreases accounts@.len() - i,
    {
        let ghost before = eligible@;
        proof {
            reveal(Seq::filter);
            assert(ids.take(i + 1).drop_last() =~= ids.take(i as int));
            assert(ids.take(i + 1).last() == accounts@[i as int]@);
        }
        if signer_unavailable_reason(&accounts[i], hardware_supported).is_none() {
            let account = accounts[i].copy();
            eligible.push(account);
            assert(account_ids(eligible@) =~= account_ids(before).push(account@));
        }
        i += 1;
    }
    assert(ids.take(i as int) =~= ids);
    eligible
}

/// An account that may sign, with what the desktop app knows of it.
pub struct SignerFacts {
    pub account: PublicAccountMetadata,
    pub label: String,
    pub address_label: String,
    pub balance: String,
    /// Whether the account may be drawn where it pays for the gas itself.
    pub random_candidate: bool,
    /// Whether the account is known to have nothing to pay with.
    pub balance_zero: bool,
}

/// An account that may sign, as an extension sees it.
#[derive(Debug, PartialEq, Eq)]
pub struct SignerChoice {
    pub id: String,
    pub label: String,
    pub address_label: String,
    pub balance_label: String,
    pub unavailable: Option<String>,
    pub random_candidate: bool,
}

/// What a choice says.
pub struct SignerChoiceId {
    pub id: Seq<char>,
    pub label: Seq<char>,
    pub address_label: Seq<char>,
    pub balance_label: Seq<char>,
    pub unavailable: Option<Seq<char>>,
    pub random_candidate: bool,
}

impl View for SignerChoice {
    type V = SignerChoiceId;

    open spec fn view(&self) -> SignerChoiceId {
        SignerChoiceId {
            id: self.id@,
            label: self.label@,
            address_label: self.address_label@,
            balance_label: self.balance_label@,
            unavailable: optional_text(self.unavailable),
            random_candidate: self.random_candidate,
        }
    }
}

/// The choice of an account: a sponsored one is drawn from all others, and one that cannot sign is
/// never drawn.
pub open spec fn signer_choice(
    facts: SignerFacts,
    native_label: Seq<char>,
    selected: Option<Seq<char>>,
    sponsored: bool,
    hardware_supported: bool,
) -> SignerChoiceId {
    let unavailable = signer_unavailable(facts.account.source, hardware_supported);
    SignerChoiceId {
        id: facts.account.public_account_uuid@,
        label: facts.label@,
        address_label: facts.address_label@,
        balance_label: facts.balance@ + " "@ + native_label,
        unavailable,
        random_candidate: unavailable is None && if sponsored {
            selected != Some(facts.account.public_account_uuid@)
        } else {
            facts.random_candidate
        },
    }
}

/// What several choices say.
pub open spec fn signer_choice_ids(choices: Seq<SignerChoice>) -> Seq<SignerChoiceId> {
    choices.map_values(|choice: SignerChoice| choice@)
}

/// The choices of several accounts.
pub open spec fn signer_choices_of(
    facts: Seq<SignerFacts>,
    native_label: Seq<char>,
    selected: Option<Seq<char>>,
    sponsored: bool,
    hardware_supported: bool,
) -> Seq<SignerChoiceId> {
    facts.map_values(
        |own: SignerFacts|
            signer_choice(own, native_label, selected, sponsored, hardware_supported),
    )
}

/// The choices of the accounts that may sign.
pub fn signer_choices(
    facts: &Vec<SignerFacts>,
    native_label: &str,
    selected: Option<&str>,
    sponsored: bool,
    hardware_supported: bool,
) -> (choices: Vec<SignerChoice>)
    ensures
        signer_choice_ids(choices@) == signer_choices_of(
            facts@,
            native_label@,
            wallet_text(selected),
            sponsored,
            hardware_supported,
        ),
        choices@.len() == facts@.len(),
        forall|i: int|
            #![trigger choices@[i]]
            0 <= i < choices@.len() ==> choices@[i].id@ == facts@[i].account.public_account_uuid@
                && choices@[i].label@ == facts@[i].label@ && choices@[i].address_label@
                == facts@[i].address_label@ && choices@[i].balance_label@ == facts@[i].balance@
                + " "@ + native_label@ && (choices@[i].unavailable is Some
                <==> facts@[i].account.source is HardwareDerived && !hardware_supported),
{
    let mut choices: Vec<SignerChoice> = Vec::new();
    let mut i: usize = 0;
    let ghost chosen = wallet_text(selected);
    assert(signer_choice_ids(choices@) =~= signer_choices_of(
        facts@.take(0),
        native_label@,
        chosen,
        sponsored,
        hardware_supported,
    ));
    while i < facts.len()
        invariant
            i <= facts@.len(),
            chosen == wallet_text(selected),
            signer_choice_ids(choices@) == signer_choices_of(
                facts@.take(i as int),
                native_label@,
                chosen,
                sponsored,
                hardware_supported,
            ),
        decreases facts@.len() - i,
    {
        let ghost before = choices@;
        let own = &facts[i];
        let unavailable = match signer_unavailable_reason(&own.account, hardware_supported) {
            Some(reason) => Some(reason.to_owned()),
            None => None,
        };
        let is_selected = match selected {
            Some(uuid) => same_text(uuid, &own.account.public_account_uuid),
            None => false,
        };
        let drawn = if sponsored {
            !is_selected
        } else {
            own.random_candidate
        };
        let random_candidate = unavailable.is_none() && drawn;
        let choice = SignerChoice {
            id: own.account.public_account_uuid.clone(),
            label: own.label.clone(),
            address_label: own.address_label.clone(),
            balance_label: concat3(&own.balance, " ", native_label),
            unavailable,
            random_candidate,
        };
        assert(choice@ == signer_choice(
            facts@[i as int],
            native_label@,
            chosen,
            sponsored,
            hardware_supported,
        ));
        choices.push(choice);
        proof {
            assert(signer_choice_ids(choices@) =~= signer_choice_ids(before).push(choice@));
            assert(signer_choices_of(
                facts@.take(i + 1),
                native_label@,
                chosen,
                sponsored,
                hardware_supported,
            ) =~= signer_choices_of(
                facts@.take(i as int),
                native_label@,
                chosen,
                sponsored,
                hardware_supported,
            ).push(choice@));
        }
        i += 1;
    }
    assert(facts@.take(i as int) =~= facts@);
    assert forall|j: int| 0 <= j < choices@.len() implies (#[trigger] choices@[j])@ == signer_choice(
        facts@[j],
        native_label@,
        chosen,
        sponsored,
        hardware_supported,
    ) by {
        assert(signer_choice_ids(choices@)[j] == signer_choices_of(
            facts@,
            native_label@,
            chosen,
            sponsored,
            hardware_supported,
        )[j]);
    }
    assert(signer_choice_ids(choices@).len() == signer_choices_of(
        facts@,
        native_label@,
        chosen,
        sponsored,
        hardware_supported,
    ).len());
    choices
}

/// The position of the first account with this identifier.
pub open spec fn signer_index(facts: Seq<SignerFacts>, uuid: Seq<char>, from: int) -> Option<int>
    decreases facts.len() - from,
{
    if from < 0 || from >= facts.len() {
        None
    } else if facts[from].account.public_account_uuid@ == uuid {
        Some(from)
    } else {
        signer_index(facts, uuid, from + 1)
    }
}

/// What is wrong with the account that was selected to sign: it is gone, cannot sign, or has
/// nothing to pay for the gas with.
pub open spec fn signer_error(
    facts: Seq<SignerFacts>,
    selected: Option<Seq<char>>,
    sponsored: bool,
    hardware_supported: bool,
    zero_warning: Seq<char>,
) -> Option<Seq<char>> {
    match selected {
        None => None,
        Some(uuid) => match signer_index(facts, uuid, 0) {
            None => Some("The selected Public account is unavailable. Choose a signer again."@),
            Some(at) => match signer_unavailable(facts[at].account.source, hardware_supported) {
                Some(reason) => Some(reason),
                None => if !sponsored && facts[at].balance_zero {
                    Some(zero_warning)
                } else {
                    None
                },
            },
        },
    }
}

/// What is wrong with the account that was selected to sign.
pub fn selected_signer_error(
    facts: &Vec<SignerFacts>,
    selected: Option<&str>,
    sponsored: bool,
    hardware_supported: bool,
    zero_warning: &str,
) -> (error: Option<String>)
    ensures
        optional_text(error) == signer_error(
            facts@,
            wallet_text(selected),
            sponsored,
            hardware_supported,
            zero_warning@,
        ),
{
    let uuid = match selected {
        Some(uuid) => uuid,
        None => return None,
    };
    let ghost goal = signer_index(facts@, uuid@, 0);
    let mut i: usize = 0;
    while i < facts.len() && !same_text(&facts[i].account.public_account_uuid, uuid)
        invariant
            i <= facts@.len(),
            goal == signer_index(facts@, uuid@, i as int),
        decreases facts@.len() - i,
    {
        i += 1;
    }
    if i == facts.len() {
        return Some(
            "The selected Public account is unavailable. Choose a signer again.".to_owned(),
        );
    }
    match signer_unavailable_reason(&facts[i].account, hardware_supported) {
        Some(reason) => Some(reason.to_owned()),
        None => if !sponsored && facts[i].balance_zero {
            Some(zero_warning.to_owned())
        } else {
            None
        },
    }
}

/// What an extension may choose from for a transaction that the wallet broadcasts itself.
pub struct SelfBroadcastOptions {
    /// The account that signs where none is selected.
    pub default_signer: Option<String>,
    pub show_sponsorship: bool,
    /// Why no sponsor can be had.
    pub sponsorship_unavailable: Option<String>,
    pub gas_error: Option<String>,
    pub incentive_error: Option<String>,
    pub signers: Vec<SignerChoice>,
    pub signer_error: Option<String>,
}

/// What the desktop app knows for these choices.
pub struct SelfBroadcastOffer {
    /// The accounts that may sign.
    pub signers: Vec<SignerFacts>,
    pub default_signer: Option<String>,
    pub show_sponsorship: bool,
    pub sponsorship_unavailable: Option<String>,
    pub hardware_supported: bool,
    pub native_label: String,
    /// The warning that an account has nothing to pay with.
    pub zero_warning: String,
    /// What the fee caps parse to.
    pub caps: ParsedCaps,
    /// What is wrong with a custom incentive.
    pub custom_incentive_error: Option<String>,
}

/// Whether a sponsor is asked to pay.
pub open spec fn is_sponsored(delivery: Option<SelfBroadcastInput>) -> bool {
    delivery matches Some(own) && own.funding is Sponsorship
}

/// The account that was selected to sign.
pub open spec fn selected_signer(delivery: Option<SelfBroadcastInput>) -> Option<Seq<char>> {
    match delivery {
        Some(own) => optional_text(own.signer),
        None => None,
    }
}

/// The delivery behind a reference.
pub open spec fn delivery_behind(delivery: Option<&SelfBroadcastInput>) -> Option<
    SelfBroadcastInput,
> {
    match delivery {
        Some(own) => Some(*own),
        None => None,
    }
}

/// What an extension may choose from for a transaction that the wallet broadcasts itself, and what
/// is wrong with what it chose so far; without a delivery nothing was chosen.
pub fn self_broadcast_options(
    delivery: Option<&SelfBroadcastInput>,
    offer: SelfBroadcastOffer,
) -> (options: SelfBroadcastOptions)
    ensures
        options.default_signer == offer.default_signer,
        options.show_sponsorship == offer.show_sponsorship,
        options.sponsorship_unavailable == offer.sponsorship_unavailable,
        options.gas_error == (match delivery {
            Some(own) => match entered_caps(own.fee, offer.caps) {
                Ok(_) => None,
                Err(error) => Some(error),
            },
            None => None,
        }),
        options.incentive_error == (if delivery matches Some(own) && own.funding matches
            GatewayPrivateFunding::Sponsorship { incentive } && incentive is Custom {
            offer.custom_incentive_error
        } else {
            None
        }),
        signer_choice_ids(options.signers@) == signer_choices_of(
            offer.signers@,
            offer.native_label@,
            selected_signer(delivery_behind(delivery)),
            is_sponsored(delivery_behind(delivery)),
            offer.hardware_supported,
        ),
        optional_text(options.signer_error) == signer_error(
            offer.signers@,
            selected_signer(delivery_behind(delivery)),
            is_sponsored(delivery_behind(delivery)),
            offer.hardware_supported,
            offer.zero_warning@,
        ),
{
    let (selected, sponsored): (Option<&str>, bool) = match delivery {
        Some(own) => (
            match &own.signer {
                Some(uuid) => Some(uuid.as_str()),
                None => None,
            },
            matches!(own.funding, GatewayPrivateFunding::Sponsorship { .. }),
        ),
        None => (None, false),
    };
    let signers = signer_choices(
        &offer.signers,
        &offer.native_label,
        selected,
        sponsored,
        offer.hardware_supported,
    );
    let signer_error = selected_signer_error(
        &offer.signers,
        selected,
        sponsored,
        offer.hardware_supported,
        &offer.zero_warning,
    );
    let gas_error = match delivery {
        Some(own) => match gas_selection(&own.fee, offer.caps) {
            Ok(_) => None,
            Err(error) => Some(error),
        },
        None => None,
    };
    let custom = match delivery {
        Some(own) => match &own.funding {
            GatewayPrivateFunding::Sponsorship { incentive } => matches!(
                incentive,
                GatewayPrivateIncentive::Custom { .. }
            ),
            GatewayPrivateFunding::PublicBalance => false,
        },
        None => false,
    };
    SelfBroadcastOptions {
        default_signer: offer.default_signer,
        show_sponsorship: offer.show_sponsorship,
        sponsorship_unavailable: offer.sponsorship_unavailable,
        gas_error,
        incentive_error: if custom {
            offer.custom_incentive_error
        } else {
            None
        },
        signers,
        signer_error,
    }
}

/// What the desktop app knows for a transaction that the wallet broadcasts itself.
pub struct SelfBroadcastKnowledge {
    /// The accounts that may sign.
    pub signers: Vec<SignerFacts>,
    pub hardware_supported: bool,
    /// The warning that an account has nothing to pay with.
    pub zero_warning: String,
    /// Why no sponsor can be had.
    pub sponsorship_unavailable: Option<String>,
    /// What a custom incentive parses to.
    pub custom_incentive: Result<SponsoredIncentive, String>,
    /// What is wrong with the private recipient.
    pub private_recipient_error: Option<String>,
    /// The most that can be entered where funds leave the private balance.
    pub unshield_maximum: U256,
    /// What the amount parses to.
    pub parsed_amount: Result<U256, String>,
    pub caps: ParsedCaps,
    /// Whether the asset is the wrapped native token.
    pub wrapped_native: bool,
    /// What is wrong with the amount as a top-up takes it.
    pub top_up_amount_error: Option<String>,
    pub top_up: Option<NativeTopUpPlan>,
    /// Whether the wallet is synchronized.
    pub synced: bool,
    /// Why the chain is not supported.
    pub chain_error: Option<String>,
    /// What is wrong with the recipient of the draft.
    pub recipient_error: Option<String>,
}

/// A transaction that the wallet broadcasts itself.
pub struct PreparedSelfBroadcast {
    /// The position of the asset.
    pub asset: usize,
    pub recipient: String,
    pub amount: U256,
    pub maximum: U256,
    pub fee_mode: FeeHandlingMode,
    pub output: PrivateEstimateOutput,
    /// The position of the account that signs.
    pub signer: usize,
    pub funding: SelfBroadcastFundingMode,
    pub incentive: SponsoredIncentive,
    pub gas_selection: PublicActionGasFeeSelection,
}

/// Who pays for the gas, and what a sponsor is offered.
pub open spec fn chosen_funding(
    funding: GatewayPrivateFunding,
    custom: Result<SponsoredIncentive, String>,
) -> (SelfBroadcastFundingMode, Result<SponsoredIncentive, String>) {
    match funding {
        GatewayPrivateFunding::PublicBalance => (
            SelfBroadcastFundingMode::PublicBalance,
            Ok(SponsoredIncentive::Standard),
        ),
        GatewayPrivateFunding::Sponsorship { incentive } => (
            SelfBroadcastFundingMode::PrivateSponsorship,
            match incentive {
                GatewayPrivateIncentive::Economy => Ok(SponsoredIncentive::Economy),
                GatewayPrivateIncentive::Standard => Ok(SponsoredIncentive::Standard),
                GatewayPrivateIncentive::Priority => Ok(SponsoredIncentive::Priority),
                GatewayPrivateIncentive::Custom { .. } => custom,
            },
        ),
    }
}

/// The most that can be sent.
pub open spec fn most_entered(
    kind: GatewayPrivateDraftKind,
    max_batched: U256,
    known: SelfBroadcastKnowledge,
) -> U256 {
    match kind {
        GatewayPrivateDraftKind::PrivateSend => max_batched,
        GatewayPrivateDraftKind::Unshield => known.unshield_maximum,
    }
}

/// Why a transaction cannot be prepared, up to its recipient: the asset, the recipient, the signer
/// and the funding are checked in this order.
pub open spec fn first_refusal(
    input: GatewayPrivateDraftInput,
    delivery: SelfBroadcastInput,
    recipient: Seq<char>,
    asset: AssetOutcome,
    known: SelfBroadcastKnowledge,
) -> Option<Seq<char>> {
    let (mode, incentive) = chosen_funding(delivery.funding, known.custom_incentive);
    let selected = optional_text(delivery.signer);
    let error = signer_error(
        known.signers@,
        selected,
        mode is PrivateSponsorship,
        known.hardware_supported,
        known.zero_warning@,
    );
    match asset {
        AssetOutcome::Refused(why) => Some(why),
        AssetOutcome::At(_) => if known.recipient_error is Some {
            optional_text(known.recipient_error)
        } else if selected is None || signer_index(known.signers@, selected.unwrap(), 0) is None {
            Some("Choose a Public account for this transaction."@)
        } else if error is Some {
            error
        } else if mode is PrivateSponsorship && known.sponsorship_unavailable is Some {
            optional_text(known.sponsorship_unavailable)
        } else if incentive is Err {
            Some(incentive->Err_0@)
        } else if input.kind is PrivateSend && known.private_recipient_error is Some {
            optional_text(known.private_recipient_error)
        } else if input.kind is Unshield && parsed_address(recipient) is None {
            Some("Enter a public recipient"@)
        } else {
            None
        },
    }
}

/// The amount of a transaction, or what is wrong with it.
pub open spec fn entered_amount(max: bool, maximum: U256, parsed: Result<U256, String>) -> Result<
    U256,
    String,
> {
    if max {
        Ok(maximum)
    } else {
        parsed
    }
}

/// Why a transaction cannot be prepared, from its amount on: the amount, the output, the fee caps
/// and the wallet are checked in this order.
pub open spec fn second_refusal(
    input: GatewayPrivateDraftInput,
    delivery: SelfBroadcastInput,
    recipient: Seq<char>,
    max_batched: U256,
    known: SelfBroadcastKnowledge,
) -> Option<Seq<char>> {
    let maximum = most_entered(input.kind, max_batched, known);
    let output = draft_output(
        GatewayPrivateDraftInput { max: false, ..input },
        recipient,
        known.wrapped_native,
        optional_text(known.top_up_amount_error),
        known.top_up,
    );
    match entered_amount(input.max, maximum, known.parsed_amount) {
        Err(error) => Some(error@),
        Ok(amount) => if amount@ == 0 || amount@ > maximum@ {
            Some("Enter an amount within the available private balance."@)
        } else {
            match output {
                OutputOutcome::Refused(why) => Some(why),
                OutputOutcome::Output(_) => match entered_caps(delivery.fee, known.caps) {
                    Err(error) => Some(error@),
                    Ok(_) => if !known.synced {
                        Some("Generation is available after wallet sync finishes."@)
                    } else {
                        optional_text(known.chain_error)
                    },
                },
            }
        },
    }
}

/// The inputs with everything entered as an amount of its own.
fn without_max(input: &GatewayPrivateDraftInput) -> (copy: GatewayPrivateDraftInput)
    ensures
        !copy.max,
        copy.kind == input.kind,
        copy.unwrap == input.unwrap,
        copy.native_top_up == input.native_top_up,
{
    GatewayPrivateDraftInput {
        kind: input.kind,
        wallet: input.wallet.clone(),
        chain_id: input.chain_id,
        asset: input.asset.clone(),
        amount: input.amount.clone(),
        max: false,
        recipient: input.recipient.clone(),
        address_book_entry: input.address_book_entry.clone(),
        fee_token: input.fee_token.clone(),
        fee_mode: input.fee_mode,
        broadcaster: match &input.broadcaster {
            BroadcasterChoice::Random => BroadcasterChoice::Random,
            BroadcasterChoice::Specific { id } => BroadcasterChoice::Specific { id: id.clone() },
        },
        unwrap: input.unwrap,
        native_top_up: input.native_top_up,
        allow_out_of_range: input.allow_out_of_range,
        favorites_only: input.favorites_only,
    }
}

/// The position of the account that was selected to sign.
fn signer_position(facts: &Vec<SignerFacts>, uuid: &str) -> (at: Option<usize>)
    ensures
        match at {
            Some(i) => i < facts@.len() && signer_index(facts@, uuid@, 0) == Some(i as int),
            None => signer_index(facts@, uuid@, 0) is None,
        },
{
    let ghost goal = signer_index(facts@, uuid@, 0);
    let mut i: usize = 0;
    while i < facts.len() && !same_text(&facts[i].account.public_account_uuid, uuid)
        invariant
            i <= facts@.len(),
            goal == signer_index(facts@, uuid@, i as int),
        decreases facts@.len() - i,
    {
        i += 1;
    }
    if i < facts.len() {
        Some(i)
    } else {
        None
    }
}

/// Prepares a transaction that the wallet broadcasts itself; without a delivery it is for a
/// broadcaster.
pub fn prepare_self_broadcast(
    input: &GatewayPrivateDraftInput,
    delivery: Option<&SelfBroadcastInput>,
    recipient: String,
    wallet: Option<&str>,
    chain_id: u64,
    assets: &Vec<PrivateAsset>,
    known: SelfBroadcastKnowledge,
) -> (prepared: Result<PreparedSelfBroadcast, String>)
    ensures
        delivery is None ==> prepared is Err,
        prepared matches Ok(found) ==> (delivery matches Some(own) && {
            &&& own.funding is PublicBalance ==> found.funding is PublicBalance
            &&& own.funding matches GatewayPrivateFunding::Sponsorship { incentive } ==> {
                &&& found.funding is PrivateSponsorship
                &&& incentive is Economy ==> found.incentive is Economy
                &&& incentive is Standard ==> found.incentive is Standard
                &&& incentive is Priority ==> found.incentive is Priority
                &&& incentive is Custom ==> known.custom_incentive == Ok::<
                    SponsoredIncentive,
                    String,
                >(found.incentive)
                &&& known.sponsorship_unavailable is None
            }
            &&& found.recipient@ == recipient@
            &&& found.amount@ > 0
            &&& found.amount@ <= found.maximum@
            &&& input.max ==> found.amount == found.maximum
            &&& !input.max ==> known.parsed_amount == Ok::<U256, String>(found.amount)
            &&& input.kind is Unshield ==> found.maximum == known.unshield_maximum
            &&& input.kind is PrivateSend ==> found.maximum == assets@[found.asset as int].max_batched
            &&& found.signer < known.signers@.len()
            &&& own.signer matches Some(uuid)
                && known.signers@[found.signer as int].account.public_account_uuid@ == uuid@
            &&& known.signers@[found.signer as int].account.source is HardwareDerived
                ==> known.hardware_supported
            &&& found.funding is PublicBalance
                ==> !known.signers@[found.signer as int].balance_zero
            &&& own.fee is Auto ==> found.gas_selection is Auto
            &&& own.fee is Custom ==> (found.gas_selection matches
                PublicActionGasFeeSelection::Custom { max_fee_per_gas, max_priority_fee_per_gas }
                && known.caps.max_fee == Ok::<u128, String>(max_fee_per_gas) && known.caps.tip
                == Ok::<u128, String>(max_priority_fee_per_gas))
            &&& input.fee_mode is Deduct ==> found.fee_mode is DeductFromAmount
            &&& input.fee_mode is AddOnTop ==> found.fee_mode is AddToAmount
            &&& input.kind is PrivateSend <==> found.output is Send
            &&& known.synced
            &&& known.chain_error is None
            &&& known.recipient_error is None
        }),
        match delivery {
            None => prepared matches Err(error) && error@ == "Choose self-broadcast delivery."@,
            Some(own) => {
                let asset = draft_asset(*input, wallet_text(wallet), chain_id, assets@);
                let first = first_refusal(*input, *own, recipient@, asset, known);
                match asset {
                    AssetOutcome::Refused(why) => prepared matches Err(error) && error@ == why,
                    AssetOutcome::At(at) => {
                        let max_batched = assets@[at].max_batched;
                        let maximum = most_entered(input.kind, max_batched, known);
                        let second = second_refusal(*input, *own, recipient@, max_batched, known);
                        match prepared {
                            Err(error) => if first is Some {
                                first == Some(error@)
                            } else {
                                second == Some(error@)
                            },
                            Ok(found) => {
                                &&& first is None && second is None
                                &&& found.asset as int == at
                                &&& found.recipient == recipient
                                &&& entered_amount(input.max, maximum, known.parsed_amount) == Ok::<
                                    U256,
                                    String,
                                >(found.amount)
                                &&& found.maximum == maximum
                                &&& found.fee_mode is DeductFromAmount == input.fee_mode is Deduct
                                &&& draft_output(
                                    GatewayPrivateDraftInput { max: false, ..*input },
                                    recipient@,
                                    known.wrapped_native,
                                    optional_text(known.top_up_amount_error),
                                    known.top_up,
                                ) == OutputOutcome::Output(found.output)
                                &&& signer_index(
                                    known.signers@,
                                    optional_text(own.signer).unwrap(),
                                    0,
                                ) == Some(found.signer as int)
                                &&& chosen_funding(own.funding, known.custom_incentive) == (
                                    found.funding,
                                    Ok::<SponsoredIncentive, String>(found.incentive),
                                )
                                &&& entered_caps(own.fee, known.caps) == Ok::<
                                    PublicActionGasFeeSelection,
                                    String,
                                >(found.gas_selection)
                            },
                        }
                    },
                }
            },
        },
{
    let own = match delivery {
        Some(own) => own,
        None => return Err("Choose self-broadcast delivery.".to_owned()),
    };
    let asset: usize = match private_draft_asset(input, wallet, chain_id, assets) {
        Ok(at) => at,
        Err(error) => return Err(error),
    };
    if let Some(error) = known.recipient_error {
        return Err(error);
    }
    let uuid = match &own.signer {
        Some(uuid) => uuid,
        None => return Err("Choose a Public account for this transaction.".to_owned()),
    };
    let signer: usize = match signer_position(&known.signers, uuid) {
        Some(at) => at,
        None => return Err("Choose a Public account for this transaction.".to_owned()),
    };
    let sponsored = matches!(own.funding, GatewayPrivateFunding::Sponsorship { .. });
    if let Some(error) = selected_signer_error(
        &known.signers,
        Some(uuid.as_str()),
        sponsored,
        known.hardware_supported,
        &known.zero_warning,
    ) {
        return Err(error);
    }
    let (funding, incentive) = match &own.funding {
        GatewayPrivateFunding::PublicBalance => (
            SelfBroadcastFundingMode::PublicBalance,
            SponsoredIncentive::Standard,
        ),
        GatewayPrivateFunding::Sponsorship { incentive } => {
            if let Some(error) = known.sponsorship_unavailable {
                return Err(error);
            }
            let incentive = match incentive {
                GatewayPrivateIncentive::Economy => SponsoredIncentive::Economy,
                GatewayPrivateIncentive::Standard => SponsoredIncentive::Standard,
                GatewayPrivateIncentive::Priority => SponsoredIncentive::Priority,
                GatewayPrivateIncentive::Custom { .. } => match known.custom_incentive {
                    Ok(custom) => custom,
                    Err(error) => return Err(error),
                },
            };
            (SelfBroadcastFundingMode::PrivateSponsorship, incentive)
        },
    };
    let maximum = match input.kind {
        GatewayPrivateDraftKind::PrivateSend => {
            if let Some(error) = known.private_recipient_error {
                return Err(error);
            }
            assets[asset].max_batched
        },
        GatewayPrivateDraftKind::Unshield => {
            if Address::parse(&recipient).is_none() {
                return Err("Enter a public recipient".to_owned());
            }
            known.unshield_maximum
        },
    };
    let amount = if input.max {
        maximum
    } else {
        match known.parsed_amount {
            Ok(amount) => amount,
            Err(error) => return Err(error),
        }
    };
    if amount.is_zero() || maximum.less_than(amount) {
        return Err("Enter an amount within the available private balance.".to_owned());
    }
    let entered = without_max(input);
    let output = match private_draft_output(
        &entered,
        &recipient,
        known.wrapped_native,
        known.top_up_amount_error,
        known.top_up,
    ) {
        Ok(output) => output,
        Err(error) => return Err(error),
    };
    let gas_selection = match gas_selection(&own.fee, known.caps) {
        Ok(selection) => selection,
        Err(error) => return Err(error),
    };
    if !known.synced {
        return Err("Generation is available after wallet sync finishes.".to_owned());
    }
    if let Some(error) = known.chain_error {
        return Err(error);
    }
    proof {
        signer_errors_follow_the_account(
            known.signers@,
            uuid@,
            signer as int,
            sponsored,
            known.hardware_supported,
            known.zero_warning@,
        );
        signers_are_found_by_their_account(known.signers@, uuid@, 0);
        assert(output is Send <==> input.kind is PrivateSend);
    }
    Ok(
        PreparedSelfBroadcast {
            asset,
            recipient,
            amount,
            maximum,
            fee_mode: entered_fee_mode(input.fee_mode),
            output,
            signer,
            funding,
            incentive,
            gas_selection,
        },
    )
}

/// Whether an account is among those of a list, in every respect.
pub fn signer_listed(signers: &Vec<PublicAccountMetadata>, signer: &PublicAccountMetadata) -> (
    listed: bool)
    ensures
        listed == account_ids(signers@).contains(signer@),
{
    let mut i: usize = 0;
    while i < signers.len()
        invariant
            i <= signers@.len(),
            forall|j: int| 0 <= j < i ==> (#[trigger] account_ids(signers@)[j]) != signer@,
        decreases signers@.len() - i,
    {
        if signers[i].same(signer) {
            assert(account_ids(signers@)[i as int] == signer@);
            return true;
        }
        i += 1;
    }
    false
}

/// Whether an estimate still holds: the inputs, the funds, the asset, the recipient, the signer
/// with its balance and the chain are those it was made with.
pub fn self_broadcast_is_current(
    input_same: bool,
    funds_current: bool,
    asset_valid: bool,
    recipient_valid: bool,
    signers: &Vec<PublicAccountMetadata>,
    signer: &PublicAccountMetadata,
    balance_then: U256,
    balance_now: U256,
    chain_same: bool,
) -> (current: bool)
    ensures
        current == (input_same && funds_current && asset_valid && recipient_valid && account_ids(
            signers@,
        ).contains(signer@) && balance_then == balance_now && chain_same),
{
    input_same && funds_current && asset_valid && recipient_valid && signer_listed(signers, signer)
        && balance_then == balance_now && chain_same
}

/// What the estimate of a transaction came to.
#[derive(Clone, Copy, Debug, PartialEq, Eq, Structural)]
pub enum SponsoredFundingEstimate {
    Unavailable,
    Ready,
    PublicBalanceReady,
    PublicBalanceUnavailable,
}

/// Whether an estimate is kept while the draft is in the background.
pub fn retains_background_estimate(
    funding: SelfBroadcastFundingMode,
    estimate: SponsoredFundingEstimate,
) -> (retains: bool)
    ensures
        retains == (funding is PrivateSponsorship && estimate is Ready),
{
    matches!(funding, SelfBroadcastFundingMode::PrivateSponsorship) && matches!(
        estimate,
        SponsoredFundingEstimate::Ready
    )
}

/// Whether the gas of the wallet's own executor is counted: native funds come out, and the wallet
/// and the chain both have an executor.
pub fn counts_executor_gas(
    output: &PrivateEstimateOutput,
    has_executor: bool,
    chain_accepts_executor: bool,
) -> (counts: bool)
    ensures
        counts == (*output matches PrivateEstimateOutput::Unshield { unwrap, native_top_up } && (
        unwrap || native_top_up is Some) && has_executor && chain_accepts_executor),
{
    match output {
        PrivateEstimateOutput::Send => false,
        PrivateEstimateOutput::Unshield { unwrap, native_top_up } => (*unwrap
            || native_top_up.is_some()) && has_executor && chain_accepts_executor,
    }
}

/// What is asked for to estimate a transaction.
#[derive(Clone, Copy, Debug, PartialEq, Eq, Structural)]
pub enum SelfBroadcastQuery {
    /// Without fee caps nothing can be asked.
    Nothing,
    /// What a send costs the signer.
    SendCost,
    /// What it costs the signer that funds leave the private balance.
    UnshieldCost { executor_gas: bool },
    /// What a sponsor has to be authorized to take for a send.
    SendLimit,
    /// What a sponsor has to be authorized to take where funds leave for the recipient; without a
    /// recipient that is an address there is no such limit.
    UnshieldLimit { recipient: Option<Address> },
}

/// What is asked for to estimate a transaction: its cost where the signer pays, and otherwise the
/// limit of what a sponsor takes.
pub fn self_broadcast_query(
    prepared: &PreparedSelfBroadcast,
    caps_known: bool,
    has_executor: bool,
    chain_accepts_executor: bool,
) -> (query: SelfBroadcastQuery)
    ensures
        if !caps_known {
            query is Nothing
        } else {
            match (prepared.funding, prepared.output) {
                (
                    SelfBroadcastFundingMode::PublicBalance,
                    PrivateEstimateOutput::Send,
                ) => query is SendCost,
                (
                    SelfBroadcastFundingMode::PublicBalance,
                    PrivateEstimateOutput::Unshield { unwrap, native_top_up },
                ) => query == (SelfBroadcastQuery::UnshieldCost {
                    executor_gas: (unwrap || native_top_up is Some) && has_executor
                        && chain_accepts_executor,
                }),
                (
                    SelfBroadcastFundingMode::PrivateSponsorship,
                    PrivateEstimateOutput::Send,
                ) => query is SendLimit,
                (
                    SelfBroadcastFundingMode::PrivateSponsorship,
                    PrivateEstimateOutput::Unshield { .. },
                ) => query matches SelfBroadcastQuery::UnshieldLimit { recipient } && (
                match recipient {
                    Some(to) => parsed_address(prepared.recipient@) == Some(to.value()),
                    None => parsed_address(prepared.recipient@) is None,
                }),
            }
        },
{
    if !caps_known {
        return SelfBroadcastQuery::Nothing;
    }
    match (prepared.funding, &prepared.output) {
        (SelfBroadcastFundingMode::PublicBalance, PrivateEstimateOutput::Send) => {
            SelfBroadcastQuery::SendCost
        },
        (SelfBroadcastFundingMode::PublicBalance, PrivateEstimateOutput::Unshield { .. }) => {
            SelfBroadcastQuery::UnshieldCost {
                executor_gas: counts_executor_gas(
                    &prepared.output,
                    has_executor,
                    chain_accepts_executor,
                ),
            }
        },
        (SelfBroadcastFundingMode::PrivateSponsorship, PrivateEstimateOutput::Send) => {
            SelfBroadcastQuery::SendLimit
        },
        (SelfBroadcastFundingMode::PrivateSponsorship, PrivateEstimateOutput::Unshield { .. }) => {
            SelfBroadcastQuery::UnshieldLimit { recipient: Address::parse(&prepared.recipient) }
        },
    }
}

/// What came of asking.
#[derive(Clone, Copy, Debug, PartialEq, Eq, Structural)]
pub enum SelfBroadcastAnswer {
    Nothing,
    /// The cost, where it could be estimated.
    Cost { known: bool },
    /// The limit, with what it and the fee of the protocol come to. The fee may be out of range.
    Limit { estimate: SponsoredFundingEstimate, protocol_fee_known: bool },
    /// There is no limit, for a reason that comes to this.
    NoLimit { estimate: SponsoredFundingEstimate },
}

/// What the estimate of a transaction comes to, out of what came of asking. Funds that leave the
/// private balance pay the fee of the protocol: without it nothing is estimated.
pub fn self_broadcast_estimate(output: &PrivateEstimateOutput, answer: SelfBroadcastAnswer) -> (
    estimate: SponsoredFundingEstimate)
    ensures
        estimate == match answer {
            SelfBroadcastAnswer::Nothing => SponsoredFundingEstimate::Unavailable,
            SelfBroadcastAnswer::Cost { known } => if known {
                SponsoredFundingEstimate::PublicBalanceReady
            } else {
                SponsoredFundingEstimate::PublicBalanceUnavailable
            },
            SelfBroadcastAnswer::Limit { estimate, protocol_fee_known } => if output is Unshield
                && !protocol_fee_known {
                SponsoredFundingEstimate::Unavailable
            } else {
                estimate
            },
            SelfBroadcastAnswer::NoLimit { estimate } => estimate,
        },
{
    match answer {
        SelfBroadcastAnswer::Nothing => SponsoredFundingEstimate::Unavailable,
        SelfBroadcastAnswer::Cost { known } => if known {
            SponsoredFundingEstimate::PublicBalanceReady
        } else {
            SponsoredFundingEstimate::PublicBalanceUnavailable
        },
        SelfBroadcastAnswer::Limit { estimate, protocol_fee_known } => match output {
            PrivateEstimateOutput::Send => estimate,
            PrivateEstimateOutput::Unshield { .. } => if protocol_fee_known {
                estimate
            } else {
                SponsoredFundingEstimate::Unavailable
            },
        },
        SelfBroadcastAnswer::NoLimit { estimate } => estimate,
    }
}

/// What the recipient gets: everything where funds stay private; otherwise what is left after the
/// fee, or with a top-up what that leaves. `gross` and `fee` are absent where they are out of
/// range.
pub fn recipient_amount(
    output: &PrivateEstimateOutput,
    amount: U256,
    gross: Option<U256>,
    fee: Option<U256>,
    beside_top_up: U256,
) -> (receives: U256)
    ensures
        receives@ == match *output {
            PrivateEstimateOutput::Send => amount@,
            PrivateEstimateOutput::Unshield { native_top_up, .. } => if native_top_up is Some {
                beside_top_up@
            } else {
                match (gross, fee) {
                    (Some(all), Some(part)) => if all@ >= part@ {
                        (all@ - part@) as nat
                    } else {
                        0
                    },
                    _ => 0,
                }
            },
        },
{
    match output {
        PrivateEstimateOutput::Send => amount,
        PrivateEstimateOutput::Unshield { native_top_up, .. } => if native_top_up.is_some() {
            beside_top_up
        } else {
            match (gross, fee) {
                (Some(all), Some(part)) => all.saturating_sub(part),
                _ => U256::zero(),
            }
        },
    }
}

/// The rows of what the recipient gets, where the texts are those of the amounts.
pub fn outcome_rows(
    output: &PrivateEstimateOutput,
    native_text: &str,
    asset_text: &str,
    top_up_text: &str,
) -> (rows: Vec<DisplayRow>)
    ensures
        ({
            let (unwrap, top_up) = match *output {
                PrivateEstimateOutput::Send => (false, false),
                PrivateEstimateOutput::Unshield { unwrap, native_top_up } => (
                    unwrap,
                    native_top_up is Some,
                ),
            };
            &&& rows@.len() == if top_up {
                2nat
            } else {
                1
            }
            &&& rows@[0].label@ == "Recipient receives"@ && rows@[0].value@ == if unwrap {
                native_text@
            } else {
                asset_text@
            }
            &&& top_up ==> rows@[1].label@ == "Recipient gas top-up"@ && rows@[1].value@
                == top_up_text@
        }),
{
    let (unwrap, top_up) = match output {
        PrivateEstimateOutput::Send => (false, false),
        PrivateEstimateOutput::Unshield { unwrap, native_top_up } => (
            *unwrap,
            native_top_up.is_some(),
        ),
    };
    let mut rows: Vec<DisplayRow> = Vec::new();
    rows.push(
        DisplayRow {
            label: "Recipient receives".to_owned(),
            value: if unwrap {
                native_text.to_owned()
            } else {
                asset_text.to_owned()
            },
        },
    );
    if top_up {
        rows.push(
            DisplayRow {
                label: "Recipient gas top-up".to_owned(),
                value: top_up_text.to_owned(),
            },
        );
    }
    rows
}

/// What is said in the place of the fees where the suggested caps are not known.
pub fn gas_quote_error(quoted: bool, selection: PublicActionGasFeeSelection) -> (error: Option<
    &'static str,
>)
    ensures
        match error {
            Some(text) => !quoted && selection is Auto && text@
                == "Gas quote is unavailable. Refresh or enter custom gas fees."@,
            None => quoted || selection is Custom,
        },
{
    match selection {
        PublicActionGasFeeSelection::Auto => if quoted {
            None
        } else {
            Some("Gas quote is unavailable. Refresh or enter custom gas fees.")
        },
        PublicActionGasFeeSelection::Custom { .. } => None,
    }
}

/// Begins to estimate a draft in this revision, where it is not yet submitted and its chain is
/// supported. The fee that the chain suggests is asked for even where the inputs are not complete.
pub fn begin_self_broadcast_estimate(
    record: &mut DraftRecord,
    version: &DraftVersion,
    chain_supported: bool,
) -> (begun: bool)
    ensures
        begun == (old(record).draft_id@ == version.draft_id@ && old(record).revision
            == version.revision && !old(record).executing && chain_supported),
        *final(record) == (if begun {
            DraftRecord { estimating: true, ..*old(record) }
        } else {
            *old(record)
        }),
{
    if !same_text(&record.draft_id, version.draft_id) || record.revision != version.revision
        || record.executing || !chain_supported {
        return false;
    }
    record.estimating = true;
    true
}

/// How an estimate ended.
pub enum SelfBroadcastResult {
    Interrupted,
    Failed(String),
    /// With a transaction that still holds or not, and what its estimate came to.
    Prepared { current: bool, estimate: SponsoredFundingEstimate },
}

/// What an extension sees of the end of an estimate.
#[derive(Clone, Copy, Debug, PartialEq, Eq, Structural)]
pub enum SelfBroadcastShown {
    /// The result is of another draft.
    Ignored,
    Estimate,
    /// The message stands in the place of the fees.
    Error,
    Nothing,
}

/// Takes the end of an estimate, where it is of the draft as it stands. The fee that the chain
/// suggests is shown even where the inputs are not complete. `complete` is whether they were.
pub fn finish_self_broadcast_estimate(
    record: &mut DraftRecord,
    version: &DraftVersion,
    wallet: OpenWallet,
    quoted: bool,
    complete: bool,
    result: SelfBroadcastResult,
    now: u128,
) -> (shown: SelfBroadcastShown)
    ensures
        if !draft_current(*old(record), *version, wallet) {
            shown is Ignored && *final(record) == *old(record)
        } else {
            let settled = DraftRecord {
                estimating: false,
                gas_quoted: old(record).gas_quoted || (quoted && !(result is Interrupted)),
                ..*old(record)
            };
            let sent_back_with = |message: Seq<char>|
                final(record).message@ == message && shown == (if complete {
                    SelfBroadcastShown::Error
                } else {
                    SelfBroadcastShown::Nothing
                }) && *final(record) == (DraftRecord {
                    prepared: None,
                    status: GatewayDraftStatus::Editing,
                    message: final(record).message,
                    ..settled
                });
            match result {
                SelfBroadcastResult::Interrupted => sent_back_with(
                    "Self-broadcast estimate was interrupted."@,
                ),
                SelfBroadcastResult::Failed(error) => sent_back_with(error@),
                SelfBroadcastResult::Prepared { current, estimate } => if !current {
                    sent_back_with("Private funds or signer changed. Refresh the estimate."@)
                } else {
                    let ready = estimate is Ready || estimate is PublicBalanceReady;
                    shown is Estimate && final(record).message@.len() == 0 && *final(record) == (
                    DraftRecord {
                        status: if ready {
                            GatewayDraftStatus::Ready
                        } else {
                            GatewayDraftStatus::Editing
                        },
                        prepared: if ready {
                            Some(PreparedDraftKind::PrivateSelfBroadcast)
                        } else {
                            None
                        },
                        estimated_at: Some(now),
                        message: final(record).message,
                        ..settled
                    })
                },
            }
        },
{
    if !draft_is_current(record, version, wallet) {
        return SelfBroadcastShown::Ignored;
    }
    record.estimating = false;
    let message = match result {
        SelfBroadcastResult::Interrupted => "Self-broadcast estimate was interrupted.".to_owned(),
        SelfBroadcastResult::Failed(error) => {
            if quoted {
                record.gas_quoted = true;
            }
            error
        },
        SelfBroadcastResult::Prepared { current, estimate } => {
            if quoted {
                record.gas_quoted = true;
            }
            if current {
                let ready = match estimate {
                    SponsoredFundingEstimate::Ready => true,
                    SponsoredFundingEstimate::PublicBalanceReady => true,
                    _ => false,
                };
                record.status =
                if ready {
                    GatewayDraftStatus::Ready
                } else {
                    GatewayDraftStatus::Editing
                };
                record.prepared =
                if ready {
                    Some(PreparedDraftKind::PrivateSelfBroadcast)
                } else {
                    None
                };
                record.estimated_at = Some(now);
                record.message = String::new();
                return SelfBroadcastShown::Estimate;
            }
            "Private funds or signer changed. Refresh the estimate.".to_owned()
        },
    };
    record.prepared = None;
    record.status = GatewayDraftStatus::Editing;
    record.message = message;
    if complete {
        SelfBroadcastShown::Error
    } else {
        SelfBroadcastShown::Nothing
    }
}

/// The form of a transaction that the wallet broadcasts itself, as it is filled in.
pub struct SelfBroadcastForm {
    pub signer: Option<String>,
    pub funding: SelfBroadcastFundingMode,
    pub incentive: SponsoredIncentive,
    /// The text of the custom incentive.
    pub incentive_text: String,
    /// What the fee inputs parse to.
    pub gas: Option<PublicActionGasFeeSelection>,
    pub recipient: String,
    pub fee_mode: FeeHandlingMode,
    /// What the amount input parses to.
    pub amount: Option<U256>,
    /// For funds that leave the private balance: how they come out.
    pub unshield: Option<UnshieldForm>,
}

/// The form that a prepared transaction is submitted with.
pub fn self_broadcast_form(prepared: &PreparedSelfBroadcast, signer_uuid: &str) -> (form:
    SelfBroadcastForm)
    ensures
        optional_text(form.signer) == Some(signer_uuid@),
        form.funding == prepared.funding,
        form.incentive == prepared.incentive,
        form.incentive_text@ == decimal(
            match prepared.incentive {
                SponsoredIncentive::Custom(percent) => percent as nat,
                _ => 5,
            },
        ),
        form.gas == Some(prepared.gas_selection),
        form.recipient@ == prepared.recipient@,
        form.fee_mode == prepared.fee_mode,
        form.amount == Some(prepared.amount),
        form.unshield == unshield_form(prepared.output),
{
    let percent: u64 = match prepared.incentive {
        SponsoredIncentive::Custom(percent) => percent,
        _ => 5,
    };
    SelfBroadcastForm {
        signer: Some(signer_uuid.to_owned()),
        funding: prepared.funding,
        incentive: prepared.incentive,
        incentive_text: decimal_u64(percent),
        gas: Some(prepared.gas_selection),
        recipient: prepared.recipient.clone(),
        fee_mode: prepared.fee_mode,
        amount: Some(prepared.amount),
        unshield: unshield_form_of(prepared.output),
    }
}

/// Whether a form still holds what was prepared.
pub open spec fn form_matches(
    form: SelfBroadcastForm,
    prepared: PreparedSelfBroadcast,
    signer_uuid: Seq<char>,
) -> bool {
    &&& form.unshield is Some ==> form.unshield == unshield_form(prepared.output)
    &&& optional_text(form.signer) == Some(signer_uuid)
    &&& form.funding == prepared.funding
    &&& form.incentive == prepared.incentive
    &&& form.gas == Some(prepared.gas_selection)
    &&& form.recipient@ == prepared.recipient@
    &&& form.fee_mode == prepared.fee_mode
    &&& form.amount == Some(prepared.amount)
}

/// Whether what was reviewed is still what the form holds, where a draft stands behind it. The
/// draft must still be kept, as a transaction that the wallet broadcasts itself, and hold.
pub fn self_broadcast_review_current(
    from_draft: bool,
    kept: bool,
    prepared: Option<&PreparedSelfBroadcast>,
    prepared_current: bool,
    signer_uuid: &str,
    form: Option<&SelfBroadcastForm>,
) -> (current: bool)
    ensures
        current == (!from_draft || (kept && prepared_current && (prepared matches Some(own) && (
        form matches Some(filled) && form_matches(*filled, *own, signer_uuid@))))),
{
    if !from_draft {
        return true;
    }
    if !kept || !prepared_current {
        return false;
    }
    match (prepared, form) {
        (Some(own), Some(filled)) => {
            let same_output = match (&filled.unshield, &own.output) {
                (None, _) => true,
                (Some(shown), PrivateEstimateOutput::Unshield { unwrap, native_top_up }) => {
                    shown.unwrap == *unwrap && shown.native_top_up_enabled
                        == native_top_up.is_some() && shown.native_top_up == *native_top_up
                },
                (Some(_), PrivateEstimateOutput::Send) => false,
            };
            let same_signer = match &filled.signer {
                Some(uuid) => same_text(uuid, signer_uuid),
                None => false,
            };
            let same_gas = match filled.gas {
                Some(caps) => caps == own.gas_selection,
                None => false,
            };
            let same_amount = match filled.amount {
                Some(amount) => amount == own.amount,
                None => false,
            };
            same_output && same_signer && filled.funding == own.funding && filled.incentive
                == own.incentive && same_gas && filled.recipient == own.recipient
                && filled.fee_mode == own.fee_mode && same_amount
        },
        _ => false,
    }
}

/// Puts the fee caps of a prepared transaction into the editor. Returns the caps whose texts the
/// inputs take.
pub fn install_gas_selection(
    editor: &mut GasFeeEditor,
    quote: Option<GasFeeQuote>,
    selection: PublicActionGasFeeSelection,
) -> (inputs: Option<(u128, u128)>)
    ensures
        *final(editor) == (GasFeeEditor {
            mode: if selection is Auto {
                GasFeeMode::Auto
            } else {
                GasFeeMode::Custom
            },
            refresh_id: next_generation(old(editor).refresh_id),
            refreshing: false,
            quote,
            quote_error: None,
            error: None,
        }),
        inputs == match selection {
            PublicActionGasFeeSelection::Auto => None,
            PublicActionGasFeeSelection::Custom { max_fee_per_gas, max_priority_fee_per_gas } => {
                Some((max_fee_per_gas, max_priority_fee_per_gas))
            },
        },
{
    editor.quote = quote;
    editor.refresh_id = editor.refresh_id.wrapping_add(1);
    editor.refreshing = false;
    editor.error = None;
    editor.quote_error = None;
    match selection {
        PublicActionGasFeeSelection::Auto => {
            editor.mode = GasFeeMode::Auto;
            None
        },
        PublicActionGasFeeSelection::Custom { max_fee_per_gas, max_priority_fee_per_gas } => {
            editor.mode = GasFeeMode::Custom;
            Some((max_fee_per_gas, max_priority_fee_per_gas))
        },
    }
}

/// A form that was filled from a prepared transaction matches it, and every other form for the same
/// output that matches it holds the same: nothing in the form can be changed unnoticed.
pub proof fn filled_forms_match(
    form: SelfBroadcastForm,
    other: SelfBroadcastForm,
    prepared: PreparedSelfBroadcast,
    signer_uuid: Seq<char>,
)
    requires
        optional_text(form.signer) == Some(signer_uuid),
        form.funding == prepared.funding,
        form.incentive == prepared.incentive,
        form.gas == Some(prepared.gas_selection),
        form.recipient@ == prepared.recipient@,
        form.fee_mode == prepared.fee_mode,
        form.amount == Some(prepared.amount),
        form.unshield == unshield_form(prepared.output),
        other.unshield is Some == form.unshield is Some,
    ensures
        form_matches(form, prepared, signer_uuid),
        form_matches(other, prepared, signer_uuid) ==> {
            &&& optional_text(other.signer) == optional_text(form.signer)
            &&& other.funding == form.funding
            &&& other.incentive == form.incentive
            &&& other.gas == form.gas
            &&& other.recipient@ == form.recipient@
            &&& other.fee_mode == form.fee_mode
            &&& other.amount == form.amount
            &&& other.unshield == form.unshield
        },
{
}

/// The fee is as it was entered: automatic stays automatic, and custom caps are the parsed ones, each
/// in its place. They are refused with the first error of the greatest fee, the tip and the two
/// together.
pub proof fn caps_are_as_entered(fee: GatewayPrivateGasFee, parsed: ParsedCaps)
    ensures
        fee is Auto ==> (entered_caps(fee, parsed) matches Ok(caps) && caps is Auto),
        fee is Custom && parsed.max_fee is Ok && parsed.tip is Ok && parsed.valid is Ok ==> (
        entered_caps(fee, parsed) matches Ok(caps) && caps matches
            PublicActionGasFeeSelection::Custom { max_fee_per_gas, max_priority_fee_per_gas }
            && max_fee_per_gas == parsed.max_fee->Ok_0 && max_priority_fee_per_gas
            == parsed.tip->Ok_0),
        fee is Custom && parsed.max_fee is Err ==> entered_caps(fee, parsed) == Err::<
            PublicActionGasFeeSelection,
            String,
        >(parsed.max_fee->Err_0),
        fee is Custom && parsed.max_fee is Ok && parsed.tip is Err ==> entered_caps(fee, parsed)
            == Err::<PublicActionGasFeeSelection, String>(parsed.tip->Err_0),
        fee is Custom && parsed.max_fee is Ok && parsed.tip is Ok && parsed.valid is Err
            ==> entered_caps(fee, parsed) == Err::<PublicActionGasFeeSelection, String>(
            parsed.valid->Err_0,
        ),
{
}

/// The chosen incentive is the one that is paid, and a public balance needs none.
pub proof fn incentives_are_as_chosen(
    funding: GatewayPrivateFunding,
    custom: Result<SponsoredIncentive, String>,
)
    ensures
        funding is PublicBalance <==> chosen_funding(funding, custom).0 is PublicBalance,
        funding is Sponsorship <==> chosen_funding(funding, custom).0 is PrivateSponsorship,
        funding is PublicBalance ==> chosen_funding(funding, custom).1 is Ok,
        funding matches GatewayPrivateFunding::Sponsorship { incentive } ==> {
            let paid = chosen_funding(funding, custom).1;
            &&& incentive is Economy ==> (paid matches Ok(found) && found is Economy)
            &&& incentive is Standard ==> (paid matches Ok(found) && found is Standard)
            &&& incentive is Priority ==> (paid matches Ok(found) && found is Priority)
            &&& incentive is Custom ==> paid == custom
        },
{
}

/// A signer is unavailable exactly where it needs a device that this build cannot use.
pub proof fn signers_need_a_usable_key(source: PublicAccountSource, hardware_supported: bool)
    ensures
        signer_unavailable(source, hardware_supported) is Some <==> source is HardwareDerived
            && !hardware_supported,
        signer_unavailable(source, true) is None,
{
}

/// A signer is found by the identifier of its account, at the first place that has it.
pub proof fn signers_are_found_by_their_account(
    facts: Seq<SignerFacts>,
    uuid: Seq<char>,
    from: int,
)
    requires
        0 <= from,
    ensures
        match signer_index(facts, uuid, from) {
            Some(at) => from <= at < facts.len() && facts[at].account.public_account_uuid@ == uuid
                && forall|i: int|
                from <= i < at ==> (#[trigger] facts[i]).account.public_account_uuid@ != uuid,
            None => forall|i: int|
                from <= i < facts.len() ==> (#[trigger] facts[i]).account.public_account_uuid@
                    != uuid,
        },
    decreases facts.len() - from,
{
    if from < facts.len() && facts[from].account.public_account_uuid@ != uuid {
        signers_are_found_by_their_account(facts, uuid, from + 1);
    }
}

/// What is said of the selected signer: it is gone where no account has its identifier, it may need a
/// device, and an empty balance is warned of only where it pays the gas.
pub proof fn signer_errors_follow_the_account(
    facts: Seq<SignerFacts>,
    uuid: Seq<char>,
    at: int,
    sponsored: bool,
    hardware_supported: bool,
    zero_warning: Seq<char>,
)
    ensures
        signer_error(facts, None, sponsored, hardware_supported, zero_warning) is None,
        (forall|i: int|
            0 <= i < facts.len() ==> (#[trigger] facts[i]).account.public_account_uuid@ != uuid)
            ==> signer_error(facts, Some(uuid), sponsored, hardware_supported, zero_warning) == Some(
            "The selected Public account is unavailable. Choose a signer again."@,
        ),
        0 <= at < facts.len() && facts[at].account.public_account_uuid@ == uuid && (forall|i: int|
            0 <= i < at ==> (#[trigger] facts[i]).account.public_account_uuid@ != uuid) ==> {
            let error = signer_error(
                facts,
                Some(uuid),
                sponsored,
                hardware_supported,
                zero_warning,
            );
            if facts[at].account.source is HardwareDerived && !hardware_supported {
                error == Some("Hardware signing is unavailable in this desktop build."@)
            } else if facts[at].balance_zero && !sponsored {
                error == Some(zero_warning)
            } else {
                error is None
            }
        },
{
    signers_are_found_by_their_account(facts, uuid, 0);
    if 0 <= at < facts.len() && facts[at].account.public_account_uuid@ == uuid && (forall|i: int|
        0 <= i < at ==> (#[trigger] facts[i]).account.public_account_uuid@ != uuid) {
        match signer_index(facts, uuid, 0) {
            Some(found) => {
                if found < at {
                    assert(facts[found].account.public_account_uuid@ != uuid);
                }
                if at < found {
                    assert(facts[at].account.public_account_uuid@ != uuid);
                }
            },
            None => {
                assert(facts[at].account.public_account_uuid@ != uuid);
            },
        }
    }
}

/// A choice names its account, with its own texts. It is drawn at random only where it can sign:
/// where the gas is sponsored any account but the selected one, and else only a candidate.
pub proof fn signer_choices_name_their_account(
    facts: SignerFacts,
    native_label: Seq<char>,
    selected: Option<Seq<char>>,
    sponsored: bool,
    hardware_supported: bool,
)
    ensures
        ({
            let choice = signer_choice(facts, native_label, selected, sponsored, hardware_supported);
            let can_sign = !(facts.account.source is HardwareDerived) || hardware_supported;
            &&& choice.id == facts.account.public_account_uuid@
            &&& choice.label == facts.label@
            &&& choice.address_label == facts.address_label@
            &&& choice.balance_label == facts.balance@ + " "@ + native_label
            &&& choice.unavailable is None <==> can_sign
            &&& !can_sign ==> !choice.random_candidate
            &&& can_sign && sponsored ==> (choice.random_candidate <==> selected != Some(
                facts.account.public_account_uuid@,
            ))
            &&& can_sign && !sponsored ==> choice.random_candidate == facts.random_candidate
        }),
{
}

/// A choice keeps what it is told by, part by part.
pub proof fn signer_choices_are_told_apart(a: SignerChoice, b: SignerChoice)
    ensures
        a@ == b@ ==> a.id@ == b.id@ && a.label@ == b.label@ && a.address_label@ == b.address_label@
            && a.balance_label@ == b.balance_label@ && a.random_candidate == b.random_candidate
            && (a.unavailable is Some <==> b.unavailable is Some),
{
}

/// Only a delivery with sponsorship is sponsored, and its signer is the one that was entered.
pub proof fn deliveries_say_who_pays(delivery: SelfBroadcastInput)
    ensures
        is_sponsored(Some(delivery)) <==> delivery.funding is Sponsorship,
        !is_sponsored(None),
        selected_signer(None) is None,
        match delivery.signer {
            Some(uuid) => selected_signer(Some(delivery)) == Some(uuid@),
            None => selected_signer(Some(delivery)) is None,
        },
        delivery_behind(Some(&delivery)) == Some(delivery),
        delivery_behind(None) is None,
{
}

/// The most that can be entered is what can be spent at once, for an unshield what is left of it
/// after the fees. Everything means exactly that; otherwise the entered amount counts.
pub proof fn the_most_is_what_can_be_spent(
    max_batched: U256,
    known: SelfBroadcastKnowledge,
    maximum: U256,
    parsed: Result<U256, String>,
)
    ensures
        most_entered(GatewayPrivateDraftKind::PrivateSend, max_batched, known) == max_batched,
        most_entered(GatewayPrivateDraftKind::Unshield, max_batched, known)
            == known.unshield_maximum,
        entered_amount(true, maximum, parsed) == Ok::<U256, String>(maximum),
        entered_amount(false, maximum, parsed) == parsed,
{
}

/// A delivery passes its first checks exactly where the asset is there, nothing is wrong with the
/// recipient, the signer is listed, can sign and pay, the sponsorship can be had, and the incentive
/// is one.
pub proof fn first_checks_are_all_needed(
    input: GatewayPrivateDraftInput,
    delivery: SelfBroadcastInput,
    recipient: Seq<char>,
    asset: AssetOutcome,
    known: SelfBroadcastKnowledge,
)
    requires
        first_refusal(input, delivery, recipient, asset, known) is None,
    ensures
        asset is At,
        known.recipient_error is None,
        delivery.signer matches Some(uuid) && exists|at: int|
            0 <= at < known.signers@.len() && (
            #[trigger] known.signers@[at]).account.public_account_uuid@ == uuid@ && (
            known.signers@[at].account.source is HardwareDerived ==> known.hardware_supported) && (
            delivery.funding is PublicBalance ==> !known.signers@[at].balance_zero),
        delivery.funding is Sponsorship ==> known.sponsorship_unavailable is None,
        delivery.funding matches GatewayPrivateFunding::Sponsorship { incentive } && incentive
            is Custom ==> known.custom_incentive is Ok,
        input.kind is PrivateSend ==> known.private_recipient_error is None,
        input.kind is Unshield ==> parsed_address(recipient) is Some,
{
    let uuid = delivery.signer.unwrap()@;
    signers_are_found_by_their_account(known.signers@, uuid, 0);
    let at = signer_index(known.signers@, uuid, 0).unwrap();
    assert(known.signers@[at].account.public_account_uuid@ == uuid);
}

/// A delivery passes its other checks exactly where the amount is positive and within the maximum,
/// there is an output, the caps are fees, the wallet is synced and the chain can be used.
pub proof fn second_checks_are_all_needed(
    input: GatewayPrivateDraftInput,
    delivery: SelfBroadcastInput,
    recipient: Seq<char>,
    max_batched: U256,
    known: SelfBroadcastKnowledge,
)
    ensures
        second_refusal(input, delivery, recipient, max_batched, known) is None <==> {
            let maximum = if input.kind is PrivateSend {
                max_batched
            } else {
                known.unshield_maximum
            };
            &&& input.max || known.parsed_amount is Ok
            &&& ({
                let amount = if input.max {
                    maximum
                } else {
                    known.parsed_amount->Ok_0
                };
                0 < amount@ <= maximum@
            })
            &&& draft_output(
                GatewayPrivateDraftInput { max: false, ..input },
                recipient,
                known.wrapped_native,
                optional_text(known.top_up_amount_error),
                known.top_up,
            ) is Output
            &&& delivery.fee is Custom ==> known.caps.max_fee is Ok && known.caps.tip is Ok
                && known.caps.valid is Ok
            &&& known.synced
            &&& known.chain_error is None
        },
{
}

/// Signers are offered one by one, in their order.
pub proof fn signer_choices_are_taken_in_order(
    choices: Seq<SignerChoice>,
    facts: Seq<SignerFacts>,
    native_label: Seq<char>,
    selected: Option<Seq<char>>,
    sponsored: bool,
    hardware_supported: bool,
    at: int,
)
    ensures
        signer_choice_ids(choices).len() == choices.len(),
        0 <= at < choices.len() ==> signer_choice_ids(choices)[at] == choices[at]@,
        signer_choices_of(facts, native_label, selected, sponsored, hardware_supported).len()
            == facts.len(),
        0 <= at < facts.len() ==> signer_choices_of(
            facts,
            native_label,
            selected,
            sponsored,
            hardware_supported,
        )[at] == signer_choice(facts[at], native_label, selected, sponsored, hardware_supported),
{
}

/// A transaction that cannot be prepared for its asset, recipient, signer or funding says what is
/// wrong, in this order.
pub proof fn first_refusals_say_why(
    input: GatewayPrivateDraftInput,
    delivery: SelfBroadcastInput,
    recipient: Seq<char>,
    asset: AssetOutcome,
    known: SelfBroadcastKnowledge,
)
    ensures
        ({
            let refusal = first_refusal(input, delivery, recipient, asset, known);
            let signed = delivery.signer matches Some(uuid) && signer_index(
                known.signers@,
                uuid@,
                0,
            ) is Some;
            let error = signer_error(
                known.signers@,
                optional_text(delivery.signer),
                delivery.funding is Sponsorship,
                known.hardware_supported,
                known.zero_warning@,
            );
            let unsponsored = delivery.funding is Sponsorship && known.sponsorship_unavailable
                is Some;
            let unfunded = delivery.funding matches GatewayPrivateFunding::Sponsorship {
                incentive,
            } && incentive is Custom && known.custom_incentive is Err;
            let ready = asset is At && known.recipient_error is None && signed && error is None
                && !unsponsored && !unfunded;
            &&& asset matches AssetOutcome::Refused(why) ==> refusal == Some(why)
            &&& asset is At && known.recipient_error is Some ==> refusal == optional_text(
                known.recipient_error,
            )
            &&& asset is At && known.recipient_error is None && !signed ==> refusal == Some(
                "Choose a Public account for this transaction."@,
            )
            &&& asset is At && known.recipient_error is None && signed && error is Some ==> refusal
                == error
            &&& asset is At && known.recipient_error is None && signed && error is None
                && unsponsored ==> refusal == optional_text(known.sponsorship_unavailable)
            &&& asset is At && known.recipient_error is None && signed && error is None
                && !unsponsored && unfunded ==> refusal == Some(known.custom_incentive->Err_0@)
            &&& ready && input.kind is PrivateSend ==> refusal == optional_text(
                known.private_recipient_error,
            )
            &&& ready && input.kind is Unshield && parsed_address(recipient) is None ==> refusal
                == Some("Enter a public recipient"@)
            &&& ready && input.kind is Unshield && parsed_address(recipient) is Some ==> refusal
                is None
        }),
{
}

/// A transaction that cannot be prepared for its amount, output, fees or wallet says what is wrong,
/// in this order.
pub proof fn second_refusals_say_why(
    input: GatewayPrivateDraftInput,
    delivery: SelfBroadcastInput,
    recipient: Seq<char>,
    max_batched: U256,
    known: SelfBroadcastKnowledge,
)
    ensures
        ({
            let refusal = second_refusal(input, delivery, recipient, max_batched, known);
            let maximum = if input.kind is PrivateSend {
                max_batched
            } else {
                known.unshield_maximum
            };
            let entered = input.max || known.parsed_amount is Ok;
            let amount = if input.max {
                maximum
            } else {
                known.parsed_amount->Ok_0
            };
            let fits = entered && 0 < amount@ <= maximum@;
            let output = draft_output(
                GatewayPrivateDraftInput { max: false, ..input },
                recipient,
                known.wrapped_native,
                optional_text(known.top_up_amount_error),
                known.top_up,
            );
            let capped = entered_caps(delivery.fee, known.caps) is Ok;
            &&& !entered ==> refusal == Some(known.parsed_amount->Err_0@)
            &&& entered && !fits ==> refusal == Some(
                "Enter an amount within the available private balance."@,
            )
            &&& fits ==> (output matches OutputOutcome::Refused(why) ==> refusal == Some(why))
            &&& fits && output is Output ==> (entered_caps(delivery.fee, known.caps) matches Err(
                error,
            ) ==> refusal == Some(error@))
            &&& fits && output is Output && capped && !known.synced ==> refusal == Some(
                "Generation is available after wallet sync finishes."@,
            )
            &&& fits && output is Output && capped && known.synced ==> refusal == optional_text(
                known.chain_error,
            )
        }),
{
}

/// Everything that is told of a `SignerChoice` is its own, under its own name.
pub proof fn signer_choice_is_told_as_it_is(kept: SignerChoice)
    ensures
        kept@.id == kept.id@,
        kept@.label == kept.label@,
        kept@.address_label == kept.address_label@,
        kept@.balance_label == kept.balance_label@,
        kept.unavailable matches Some(text) ==> kept@.unavailable == Some(text@),
        kept.unavailable is None ==> kept@.unavailable is None,
        kept@.random_candidate == kept.random_candidate,
{
}

} // verus!
