//! Drafts of private transactions: checking their inputs, and when they are estimated.
use crate::address::{checksum_text, parsed_address, Address};
use crate::gateway::drafts::{
    draft_current, draft_is_current, elapsed, happened_within, is_within, send_back, sent_back,
    DraftRecord, DraftVersion, GatewayDraftStatus, OpenWallet, PreparedDraftKind,
};
use crate::governance::participants::wallet_text;
use crate::text::{byte_len, optional_text, same_text, text_len, trim, trimmed};
use crate::u256::U256;
use vstd::prelude::*;
use vstd::string::*;

verus! {

/// Whether funds stay private.
#[derive(Clone, Copy, Debug, PartialEq, Eq, Structural)]
pub enum GatewayPrivateDraftKind {
    PrivateSend,
    Unshield,
}

/// The form that a private transaction is submitted with.
#[derive(Clone, Copy, Debug, PartialEq, Eq, Structural)]
pub enum DeliveryFormKind {
    Send,
    Unshield,
}

/// Who pays the fee of the broadcaster.
#[derive(Clone, Copy, Debug, PartialEq, Eq, Structural)]
pub enum FeeHandlingMode {
    DeductFromAmount,
    AddToAmount,
}

/// How a draft says who pays the fee.
#[derive(Clone, Copy, Debug, PartialEq, Eq, Structural)]
pub enum GatewayPrivateFeeMode {
    Deduct,
    AddOnTop,
}

/// Who broadcasts a transaction.
#[derive(Debug, PartialEq, Eq)]
pub enum BroadcasterChoice {
    Random,
    Specific { id: String },
}

/// What an extension entered for a private transaction.
pub struct GatewayPrivateDraftInput {
    pub kind: GatewayPrivateDraftKind,
    pub wallet: String,
    pub chain_id: u64,
    pub asset: String,
    pub amount: String,
    /// Whether everything that can be spent is sent.
    pub max: bool,
    pub recipient: String,
    pub address_book_entry: Option<String>,
    pub fee_token: String,
    pub fee_mode: GatewayPrivateFeeMode,
    pub broadcaster: BroadcasterChoice,
    pub unwrap: bool,
    pub native_top_up: bool,
    pub allow_out_of_range: bool,
    pub favorites_only: bool,
}

/// Whether two drafts hold the same inputs.
pub open spec fn same_input(a: GatewayPrivateDraftInput, b: GatewayPrivateDraftInput) -> bool {
    &&& a.kind == b.kind
    &&& a.wallet@ == b.wallet@
    &&& a.chain_id == b.chain_id
    &&& a.asset@ == b.asset@
    &&& a.amount@ == b.amount@
    &&& a.max == b.max
    &&& a.recipient@ == b.recipient@
    &&& optional_text(a.address_book_entry) == optional_text(b.address_book_entry)
    &&& a.fee_token@ == b.fee_token@
    &&& a.fee_mode == b.fee_mode
    &&& same_broadcaster(a.broadcaster, b.broadcaster)
    &&& a.unwrap == b.unwrap
    &&& a.native_top_up == b.native_top_up
    &&& a.allow_out_of_range == b.allow_out_of_range
    &&& a.favorites_only == b.favorites_only
}

/// Whether two choices are the same.
pub open spec fn same_broadcaster(a: BroadcasterChoice, b: BroadcasterChoice) -> bool {
    match (a, b) {
        (BroadcasterChoice::Random, BroadcasterChoice::Random) => true,
        (BroadcasterChoice::Specific { id: x }, BroadcasterChoice::Specific { id: y }) => x@ == y@,
        _ => false,
    }
}

/// Whether a text is absent or takes at most this many bytes.
pub open spec fn at_most(text: Option<String>, limit: usize) -> bool {
    text matches Some(found) ==> byte_len(found@) <= limit
}

/// Whether no input is longer than any that can be meant.
pub fn valid_private_input_size(input: &GatewayPrivateDraftInput) -> (valid: bool)
    ensures
        valid == (byte_len(input.wallet@) <= 128 && byte_len(input.asset@) <= 128 && byte_len(
            input.fee_token@,
        ) <= 128 && byte_len(input.amount@) <= 100 && byte_len(input.recipient@) <= 1024
            && at_most(input.address_book_entry, 128) && (input.broadcaster matches
            BroadcasterChoice::Specific { id } ==> byte_len(id@) <= 1024)),
{
    text_len(&input.wallet) <= 128 && text_len(&input.asset) <= 128 && text_len(&input.fee_token)
        <= 128 && text_len(&input.amount) <= 100 && text_len(&input.recipient) <= 1024 && (
    match &input.address_book_entry {
        Some(id) => text_len(id) <= 128,
        None => true,
    }) && (match &input.broadcaster {
        BroadcasterChoice::Random => true,
        BroadcasterChoice::Specific { id } => text_len(id) <= 1024,
    })
}

/// The form that a draft is submitted with.
pub fn delivery_form_kind(kind: GatewayPrivateDraftKind) -> (form: DeliveryFormKind)
    ensures
        form is Send == kind is PrivateSend,
{
    match kind {
        GatewayPrivateDraftKind::PrivateSend => DeliveryFormKind::Send,
        GatewayPrivateDraftKind::Unshield => DeliveryFormKind::Unshield,
    }
}

/// An entry of the private address book.
pub struct PrivateContact {
    pub entry_uuid: String,
    pub address: String,
}

/// An entry of the public address book.
pub struct PublicContact {
    pub entry_uuid: String,
    pub address: Address,
}

/// The address books; one that cannot be read is absent.
pub struct AddressBooks {
    pub private: Option<Vec<PrivateContact>>,
    pub public: Option<Vec<PublicContact>>,
}

/// The address of the first private entry with this identifier.
pub open spec fn private_address(entries: Seq<PrivateContact>, id: Seq<char>, from: int) -> Option<
    Seq<char>,
>
    decreases entries.len() - from,
{
    if from < 0 || from >= entries.len() {
        None
    } else if entries[from].entry_uuid@ == id {
        Some(entries[from].address@)
    } else {
        private_address(entries, id, from + 1)
    }
}

/// The text of the address of the first public entry with this identifier.
pub open spec fn public_address(entries: Seq<PublicContact>, id: Seq<char>, from: int) -> Option<
    Seq<char>,
>
    decreases entries.len() - from,
{
    if from < 0 || from >= entries.len() {
        None
    } else if entries[from].entry_uuid@ == id {
        Some(checksum_text(entries[from].address.value()))
    } else {
        public_address(entries, id, from + 1)
    }
}

/// A text, or why there is none.
pub enum Outcome {
    Text(Seq<char>),
    Refused(Seq<char>),
}

/// What a result says.
pub open spec fn outcome_of(result: Result<String, String>) -> Outcome {
    match result {
        Ok(text) => Outcome::Text(text@),
        Err(error) => Outcome::Refused(error@),
    }
}

/// The recipient of a draft that names an entry of an address book: the entry is still there, and
/// has the address that was entered.
pub open spec fn contact_outcome(input: GatewayPrivateDraftInput, books: AddressBooks) -> Outcome {
    match input.address_book_entry {
        None => Outcome::Text(input.recipient@),
        Some(id) => {
            let book_read = match input.kind {
                GatewayPrivateDraftKind::PrivateSend => books.private is Some,
                GatewayPrivateDraftKind::Unshield => books.public is Some,
            };
            let address = match input.kind {
                GatewayPrivateDraftKind::PrivateSend => private_address(
                    books.private.unwrap()@,
                    id@,
                    0,
                ),
                GatewayPrivateDraftKind::Unshield => public_address(
                    books.public.unwrap()@,
                    id@,
                    0,
                ),
            };
            if !book_read {
                Outcome::Refused("Address book is unavailable"@)
            } else {
                match address {
                    None => Outcome::Refused(
                        "Address book entry is unavailable. Choose another recipient."@,
                    ),
                    Some(found) => if found != input.recipient@ {
                        Outcome::Refused("Address book entry changed. Choose the recipient again."@)
                    } else {
                        Outcome::Text(found)
                    },
                }
            }
        },
    }
}

/// The recipient of a draft that may name an entry of an address book.
pub fn resolve_private_draft_contact(input: &GatewayPrivateDraftInput, books: &AddressBooks) -> (
    recipient: Result<String, String>)
    ensures
        outcome_of(recipient) == contact_outcome(*input, *books),
{
    let id = match &input.address_book_entry {
        Some(id) => id,
        None => return Ok(input.recipient.clone()),
    };
    let address = match input.kind {
        GatewayPrivateDraftKind::PrivateSend => match &books.private {
            None => return Err("Address book is unavailable".to_owned()),
            Some(entries) => {
                let ghost goal = private_address(entries@, id@, 0);
                let mut i: usize = 0;
                while i < entries.len() && entries[i].entry_uuid != *id
                    invariant
                        i <= entries@.len(),
                        goal == private_address(entries@, id@, i as int),
                    decreases entries@.len() - i,
                {
                    i += 1;
                }
                if i < entries.len() {
                    Some(entries[i].address.clone())
                } else {
                    None
                }
            },
        },
        GatewayPrivateDraftKind::Unshield => match &books.public {
            None => return Err("Address book is unavailable".to_owned()),
            Some(entries) => {
                let ghost goal = public_address(entries@, id@, 0);
                let mut i: usize = 0;
                while i < entries.len() && entries[i].entry_uuid != *id
                    invariant
                        i <= entries@.len(),
                        goal == public_address(entries@, id@, i as int),
                    decreases entries@.len() - i,
                {
                    i += 1;
                }
                if i < entries.len() {
                    Some(entries[i].address.to_checksum())
                } else {
                    None
                }
            },
        },
    };
    match address {
        None => Err("Address book entry is unavailable. Choose another recipient.".to_owned()),
        Some(found) => if same_text(&found, &input.recipient) {
            Ok(found)
        } else {
            Err("Address book entry changed. Choose the recipient again.".to_owned())
        },
    }
}

/// The recipient of a draft: without an entry of an address book the one that was entered.
pub fn private_draft_recipient(
    input: &GatewayPrivateDraftInput,
    wallet_open: bool,
    storage_open: bool,
    books: &AddressBooks,
) -> (recipient: Result<String, String>)
    ensures
        outcome_of(recipient) == if input.address_book_entry is None {
            Outcome::Text(input.recipient@)
        } else if !wallet_open {
            Outcome::Refused("Unlock the desktop wallet"@)
        } else if !storage_open {
            Outcome::Refused("Wallet storage is unavailable"@)
        } else {
            contact_outcome(*input, *books)
        },
{
    if input.address_book_entry.is_none() {
        return Ok(input.recipient.clone());
    }
    if !wallet_open {
        return Err("Unlock the desktop wallet".to_owned());
    }
    if !storage_open {
        return Err("Wallet storage is unavailable".to_owned());
    }
    resolve_private_draft_contact(input, books)
}

/// Where a recipient is listed.
#[derive(Clone, Copy, Debug, PartialEq, Eq, Structural)]
pub enum RecipientSource {
    PrivateAddressBook,
    PublicAddressBook,
    Other,
}

/// The identifier of the first private entry with this address.
pub open spec fn private_entry(entries: Seq<PrivateContact>, address: Seq<char>, from: int) -> Seq<
    char,
>
    decreases entries.len() - from,
{
    if from < 0 || from >= entries.len() {
        Seq::empty()
    } else if entries[from].address@ == address {
        entries[from].entry_uuid@
    } else {
        private_entry(entries, address, from + 1)
    }
}

/// The identifier of the first public entry with this address.
pub open spec fn public_entry(entries: Seq<PublicContact>, address: Seq<char>, from: int) -> Seq<
    char,
>
    decreases entries.len() - from,
{
    if from < 0 || from >= entries.len() {
        Seq::empty()
    } else if checksum_text(entries[from].address.value()) == address {
        entries[from].entry_uuid@
    } else {
        public_entry(entries, address, from + 1)
    }
}

/// The identifier of the entry that a recipient is listed with; nothing where there is none.
pub open spec fn entry_id(
    source: RecipientSource,
    address: Seq<char>,
    private: Seq<PrivateContact>,
    public: Seq<PublicContact>,
) -> Seq<char> {
    match source {
        RecipientSource::PrivateAddressBook => private_entry(private, address, 0),
        RecipientSource::PublicAddressBook => public_entry(public, address, 0),
        RecipientSource::Other => Seq::empty(),
    }
}

/// The identifier of the entry that a recipient is listed with; nothing where there is none.
pub fn recipient_entry_id(
    source: RecipientSource,
    address: &str,
    private: &Vec<PrivateContact>,
    public: &Vec<PublicContact>,
) -> (id: String)
    ensures
        id@ == entry_id(source, address@, private@, public@),
{
    match source {
        RecipientSource::PrivateAddressBook => {
            let ghost goal = private_entry(private@, address@, 0);
            let mut i: usize = 0;
            while i < private.len() && !same_text(&private[i].address, address)
                invariant
                    i <= private@.len(),
                    goal == private_entry(private@, address@, i as int),
                decreases private@.len() - i,
            {
                i += 1;
            }
            if i < private.len() {
                private[i].entry_uuid.clone()
            } else {
                String::new()
            }
        },
        RecipientSource::PublicAddressBook => {
            let ghost goal = public_entry(public@, address@, 0);
            let mut i: usize = 0;
            while i < public.len() && !same_text(&public[i].address.to_checksum(), address)
                invariant
                    i <= public@.len(),
                    goal == public_entry(public@, address@, i as int),
                decreases public@.len() - i,
            {
                i += 1;
            }
            if i < public.len() {
                public[i].entry_uuid.clone()
            } else {
                String::new()
            }
        },
        RecipientSource::Other => String::new(),
    }
}

/// A recipient that can be chosen.
pub struct RecipientOption {
    pub source: RecipientSource,
    pub label: String,
    pub address: String,
}

/// A recipient, as an extension sees it.
#[derive(Debug, PartialEq, Eq)]
pub struct GatewayDraftRecipient {
    /// The identifier of its entry in an address book; nothing where there is none.
    pub id: String,
    pub label: String,
    pub address: String,
}

/// Whether this is how an extension sees a recipient.
pub open spec fn shows_recipient(
    shown: GatewayDraftRecipient,
    option: RecipientOption,
    private: Seq<PrivateContact>,
    public: Seq<PublicContact>,
) -> bool {
    &&& shown.id@ == entry_id(option.source, option.address@, private, public)
    &&& shown.label@ == option.label@
    &&& shown.address@ == option.address@
}

/// The recipients that an extension can choose from.
pub fn draft_recipients(
    options: &Vec<RecipientOption>,
    private: &Vec<PrivateContact>,
    public: &Vec<PublicContact>,
) -> (recipients: Vec<GatewayDraftRecipient>)
    ensures
        recipients@.len() == options@.len(),
        forall|i: int|
            0 <= i < options@.len() ==> shows_recipient(
                #[trigger] recipients@[i],
                options@[i],
                private@,
                public@,
            ),
{
    let mut recipients: Vec<GatewayDraftRecipient> = Vec::new();
    let mut i: usize = 0;
    while i < options.len()
        invariant
            i <= options@.len(),
            recipients@.len() == i,
            forall|j: int|
                0 <= j < i ==> shows_recipient(
                    #[trigger] recipients@[j],
                    options@[j],
                    private@,
                    public@,
                ),
        decreases options@.len() - i,
    {
        let option = &options[i];
        recipients.push(
            GatewayDraftRecipient {
                id: recipient_entry_id(option.source, &option.address, private, public),
                label: option.label.clone(),
                address: option.address.clone(),
            },
        );
        i += 1;
    }
    recipients
}

/// A private asset that can be sent.
pub struct PrivateAsset {
    pub chain_id: u64,
    pub token: Address,
    pub label: String,
    pub decimals: Option<u8>,
    pub total: U256,
    /// What can be spent in one transaction.
    pub max_batched: U256,
}

/// The position of the first asset at this address.
pub open spec fn asset_index(assets: Seq<PrivateAsset>, token: nat, from: int) -> Option<int>
    decreases assets.len() - from,
{
    if from < 0 || from >= assets.len() {
        None
    } else if assets[from].token.value() == token {
        Some(from)
    } else {
        asset_index(assets, token, from + 1)
    }
}

/// The asset of a draft, or why there is none.
pub enum AssetOutcome {
    At(int),
    Refused(Seq<char>),
}

/// The asset of a draft: its wallet and network are those that are open, and the asset is among
/// those that can be sent.
pub open spec fn draft_asset(
    input: GatewayPrivateDraftInput,
    wallet: Option<Seq<char>>,
    chain_id: u64,
    assets: Seq<PrivateAsset>,
) -> AssetOutcome {
    if wallet != Some(input.wallet@) || chain_id != input.chain_id {
        AssetOutcome::Refused("Wallet or network changed. Open a new draft."@)
    } else {
        match parsed_address(input.asset@) {
            None => AssetOutcome::Refused("Choose an available asset"@),
            Some(token) => match asset_index(assets, token, 0) {
                None => AssetOutcome::Refused("Choose an available private asset"@),
                Some(at) => AssetOutcome::At(at),
            },
        }
    }
}

/// The asset of a draft, as a position in `assets`.
pub fn private_draft_asset(
    input: &GatewayPrivateDraftInput,
    wallet: Option<&str>,
    chain_id: u64,
    assets: &Vec<PrivateAsset>,
) -> (asset: Result<usize, String>)
    ensures
        match (asset, draft_asset(*input, wallet_text(wallet), chain_id, assets@)) {
            (Ok(at), AssetOutcome::At(index)) => at as int == index && at < assets@.len(),
            (Err(error), AssetOutcome::Refused(why)) => error@ == why,
            _ => false,
        },
{
    let own_wallet = match wallet {
        Some(open) => same_text(open, &input.wallet),
        None => false,
    };
    if !own_wallet || chain_id != input.chain_id {
        return Err("Wallet or network changed. Open a new draft.".to_owned());
    }
    let token = match Address::parse(&input.asset) {
        Some(token) => token,
        None => return Err("Choose an available asset".to_owned()),
    };
    let ghost goal = asset_index(assets@, token.value(), 0);
    let mut i: usize = 0;
    while i < assets.len() && assets[i].token != token
        invariant
            i <= assets@.len(),
            goal == asset_index(assets@, token.value(), i as int),
        decreases assets@.len() - i,
    {
        proof {
            crate::address::address_equal_by_value(assets@[i as int].token, token);
        }
        i += 1;
    }
    if i < assets.len() {
        Ok(i)
    } else {
        Err("Choose an available private asset".to_owned())
    }
}

/// The fee token that a draft names.
pub fn private_draft_fee_token(input: &GatewayPrivateDraftInput) -> (token: Result<Address, String>)
    ensures
        match token {
            Ok(found) => parsed_address(input.fee_token@) == Some(found.value()),
            Err(error) => parsed_address(input.fee_token@) is None && error@
                == "Choose a fee token"@,
        },
{
    match Address::parse(&input.fee_token) {
        Some(token) => Ok(token),
        None => Err("Choose a fee token".to_owned()),
    }
}

/// Who pays the fee, as a draft says it.
pub fn entered_fee_mode(mode: GatewayPrivateFeeMode) -> (entered: FeeHandlingMode)
    ensures
        entered is DeductFromAmount == mode is Deduct,
{
    match mode {
        GatewayPrivateFeeMode::Deduct => FeeHandlingMode::DeductFromAmount,
        GatewayPrivateFeeMode::AddOnTop => FeeHandlingMode::AddToAmount,
    }
}

/// What a top-up of the recipient's gas takes.
#[derive(Clone, Copy, Debug, PartialEq, Eq, Structural)]
pub struct NativeTopUpPlan {
    pub native_amount: U256,
    pub wrapped_native_token: Address,
    pub wrapped_native_amount: U256,
}

/// What comes out of a private transaction.
#[derive(Clone, Copy, Debug, PartialEq, Eq, Structural)]
pub enum PrivateEstimateOutput {
    Send,
    Unshield { unwrap: bool, native_top_up: Option<NativeTopUpPlan> },
}

/// How funds that leave the private balance come out, as a form holds it.
#[derive(Clone, Copy, Debug, PartialEq, Eq, Structural)]
pub struct UnshieldForm {
    pub unwrap: bool,
    pub native_top_up_enabled: bool,
    pub native_top_up: Option<NativeTopUpPlan>,
}

/// The form of what comes out.
pub open spec fn unshield_form(output: PrivateEstimateOutput) -> Option<UnshieldForm> {
    match output {
        PrivateEstimateOutput::Send => None,
        PrivateEstimateOutput::Unshield { unwrap, native_top_up } => Some(
            UnshieldForm { unwrap, native_top_up_enabled: native_top_up is Some, native_top_up },
        ),
    }
}

/// The form of what comes out.
pub fn unshield_form_of(output: PrivateEstimateOutput) -> (form: Option<UnshieldForm>)
    ensures
        form == unshield_form(output),
{
    match output {
        PrivateEstimateOutput::Send => None,
        PrivateEstimateOutput::Unshield { unwrap, native_top_up } => Some(
            UnshieldForm { unwrap, native_top_up_enabled: native_top_up.is_some(), native_top_up },
        ),
    }
}

/// Who a top-up is offered for: the recipient of the prepared estimate, or without one the recipient
/// that was entered.
pub open spec fn offered_recipient(
    prepared: Option<Seq<char>>,
    input: GatewayPrivateDraftInput,
) -> Seq<char> {
    match prepared {
        Some(recipient) => recipient,
        None => input.recipient@,
    }
}

/// Who a top-up is offered for.
pub fn top_up_recipient<'a>(prepared: Option<&'a str>, input: &'a GatewayPrivateDraftInput) -> (to:
    &'a str)
    ensures
        to@ == match prepared {
            Some(recipient) => recipient@,
            None => input.recipient@,
        },
{
    match prepared {
        Some(recipient) => recipient,
        None => input.recipient.as_str(),
    }
}

/// Whether a top-up can be asked for: there is an address to send it to, and an amount.
pub open spec fn top_up_asked(
    input: GatewayPrivateDraftInput,
    recipient: Seq<char>,
    parsed_amount: Option<U256>,
) -> bool {
    parsed_address(recipient) is Some && (input.max || parsed_amount is Some)
}

/// What a top-up is asked for with: the recipient, and the amount that is unshielded.
pub fn native_top_up_request(
    input: &GatewayPrivateDraftInput,
    recipient: &str,
    max_batched: U256,
    parsed_amount: Option<U256>,
) -> (request: Option<(Address, U256)>)
    ensures
        match request {
            Some((to, amount)) => parsed_address(recipient@) == Some(to.value()) && amount == if input.max {
                max_batched
            } else {
                parsed_amount.unwrap()
            } && top_up_asked(*input, recipient@, parsed_amount),
            None => !top_up_asked(*input, recipient@, parsed_amount),
        },
{
    let to = match Address::parse(recipient) {
        Some(to) => to,
        None => return None,
    };
    if input.max {
        Some((to, max_batched))
    } else {
        match parsed_amount {
            Some(amount) => Some((to, amount)),
            None => None,
        }
    }
}

/// What comes out of a draft, or why it is refused.
pub enum OutputOutcome {
    Output(PrivateEstimateOutput),
    Refused(Seq<char>),
}

/// What comes out of a draft: native options are for unshielding, unwrapping is for the wrapped
/// native token, and a top-up needs a public recipient, an amount and the funds. `amount_error` is
/// what is wrong with the entered amount, and `plan` what the top-up takes.
pub open spec fn draft_output(
    input: GatewayPrivateDraftInput,
    recipient: Seq<char>,
    wrapped_native: bool,
    amount_error: Option<Seq<char>>,
    plan: Option<NativeTopUpPlan>,
) -> OutputOutcome {
    match input.kind {
        GatewayPrivateDraftKind::PrivateSend => if input.unwrap || input.native_top_up {
            OutputOutcome::Refused("Native output options are only available for Unshield."@)
        } else {
            OutputOutcome::Output(PrivateEstimateOutput::Send)
        },
        GatewayPrivateDraftKind::Unshield => if input.unwrap && !wrapped_native {
            OutputOutcome::Refused("This asset cannot be unwrapped."@)
        } else if !input.native_top_up {
            OutputOutcome::Output(
                PrivateEstimateOutput::Unshield { unwrap: input.unwrap, native_top_up: None },
            )
        } else if parsed_address(recipient) is None {
            OutputOutcome::Refused("Enter a public recipient"@)
        } else if !input.max && amount_error is Some {
            OutputOutcome::Refused(amount_error.unwrap())
        } else if plan is None {
            OutputOutcome::Refused(
                "Native top-up is unavailable for these inputs or private funds."@,
            )
        } else {
            OutputOutcome::Output(
                PrivateEstimateOutput::Unshield { unwrap: input.unwrap, native_top_up: plan },
            )
        },
    }
}

/// What comes out of a draft.
pub fn private_draft_output(
    input: &GatewayPrivateDraftInput,
    recipient: &str,
    wrapped_native: bool,
    amount_error: Option<String>,
    plan: Option<NativeTopUpPlan>,
) -> (output: Result<PrivateEstimateOutput, String>)
    ensures
        match (
            output,
            draft_output(*input, recipient@, wrapped_native, optional_text(amount_error), plan),
        ) {
            (Ok(found), OutputOutcome::Output(wanted)) => found == wanted,
            (Err(error), OutputOutcome::Refused(why)) => error@ == why,
            _ => false,
        },
{
    match input.kind {
        GatewayPrivateDraftKind::PrivateSend => {
            if input.unwrap || input.native_top_up {
                return Err("Native output options are only available for Unshield.".to_owned());
            }
            Ok(PrivateEstimateOutput::Send)
        },
        GatewayPrivateDraftKind::Unshield => {
            if input.unwrap && !wrapped_native {
                return Err("This asset cannot be unwrapped.".to_owned());
            }
            if !input.native_top_up {
                return Ok(
                    PrivateEstimateOutput::Unshield { unwrap: input.unwrap, native_top_up: None },
                );
            }
            if Address::parse(recipient).is_none() {
                return Err("Enter a public recipient".to_owned());
            }
            if !input.max {
                if let Some(error) = amount_error {
                    return Err(error);
                }
            }
            if plan.is_none() {
                return Err(
                    "Native top-up is unavailable for these inputs or private funds.".to_owned(),
                );
            }
            Ok(PrivateEstimateOutput::Unshield { unwrap: input.unwrap, native_top_up: plan })
        },
    }
}

/// What a private transaction is estimated from.
pub struct PrivateEstimateInput {
    /// The position of the asset.
    pub asset: usize,
    pub recipient: String,
    pub amount: String,
    pub fee_token: Address,
    pub fee_mode: FeeHandlingMode,
    pub output: PrivateEstimateOutput,
    pub broadcaster: BroadcasterChoice,
    pub allow_out_of_range: bool,
    pub favorites_only: bool,
}

/// What the inputs of a draft were resolved with.
pub struct DraftResolution {
    /// Who pays the fee once the tokens are taken into account.
    pub fee_mode: FeeHandlingMode,
    /// Whether the asset is the wrapped native token.
    pub wrapped_native: bool,
    /// What is wrong with the entered amount.
    pub amount_error: Option<String>,
    pub top_up: Option<NativeTopUpPlan>,
    /// The text of everything that can be spent.
    pub max_amount: String,
}

/// The inputs of an estimate: the asset, the fee token and the output are checked in this order.
pub fn private_draft_inputs(
    input: &GatewayPrivateDraftInput,
    recipient: String,
    wallet: Option<&str>,
    chain_id: u64,
    assets: &Vec<PrivateAsset>,
    resolution: DraftResolution,
) -> (inputs: Result<PrivateEstimateInput, String>)
    ensures
        ({
            let asset = draft_asset(*input, wallet_text(wallet), chain_id, assets@);
            let output = draft_output(
                *input,
                recipient@,
                resolution.wrapped_native,
                optional_text(resolution.amount_error),
                resolution.top_up,
            );
            match inputs {
                Ok(found) => {
                    &&& asset == AssetOutcome::At(found.asset as int) && found.asset < assets@.len()
                    &&& parsed_address(input.fee_token@) == Some(found.fee_token.value())
                    &&& output == OutputOutcome::Output(found.output)
                    &&& found.recipient == recipient
                    &&& found.amount@ == if input.max {
                        resolution.max_amount@
                    } else {
                        input.amount@
                    }
                    &&& found.fee_mode == resolution.fee_mode
                    &&& same_broadcaster(found.broadcaster, input.broadcaster)
                    &&& found.allow_out_of_range == input.allow_out_of_range
                    &&& found.favorites_only == input.favorites_only
                },
                Err(error) => match asset {
                    AssetOutcome::Refused(why) => error@ == why,
                    AssetOutcome::At(_) => if parsed_address(input.fee_token@) is None {
                        error@ == "Choose a fee token"@
                    } else {
                        output matches OutputOutcome::Refused(why) && error@ == why
                    },
                },
            }
        }),
{
    let asset: usize = match private_draft_asset(input, wallet, chain_id, assets) {
        Ok(at) => at,
        Err(error) => return Err(error),
    };
    let fee_token = match private_draft_fee_token(input) {
        Ok(token) => token,
        Err(error) => return Err(error),
    };
    let output = match private_draft_output(
        input,
        &recipient,
        resolution.wrapped_native,
        resolution.amount_error,
        resolution.top_up,
    ) {
        Ok(output) => output,
        Err(error) => return Err(error),
    };
    let amount = if input.max {
        resolution.max_amount
    } else {
        input.amount.clone()
    };
    Ok(
        PrivateEstimateInput {
            asset,
            recipient,
            amount,
            fee_token,
            fee_mode: resolution.fee_mode,
            output,
            broadcaster: match &input.broadcaster {
                BroadcasterChoice::Random => BroadcasterChoice::Random,
                BroadcasterChoice::Specific { id } => BroadcasterChoice::Specific { id: id.clone() },
            },
            allow_out_of_range: input.allow_out_of_range,
            favorites_only: input.favorites_only,
        },
    )
}

/// What a prepared estimate was made from, as far as it can change.
pub struct PreparedFacts {
    /// Whether the private funds are those that were estimated from.
    pub funds_current: bool,
    pub entered_amount: U256,
    pub max_entered_amount: U256,
    pub chain_id: u64,
    /// The offer of the broadcaster that was estimated with.
    pub fees_id: u64,
    pub fee: U256,
    pub fee_expiration: u64,
}

/// The offer of a broadcaster.
#[derive(Clone, Copy, Debug, PartialEq, Eq, Structural)]
pub struct BroadcasterOffer {
    pub fees_id: u64,
    pub fee: U256,
    pub fee_expiration: u64,
}

/// Whether an estimate still holds: the funds, the network, the recipient and the asset are those
/// it was made with, the amount can be sent, and the broadcaster still makes the same offer.
pub fn prepared_is_current(
    facts: &PreparedFacts,
    selected_chain: u64,
    recipient_valid: bool,
    asset_valid: bool,
    offer: Option<BroadcasterOffer>,
) -> (current: bool)
    ensures
        current == (facts.funds_current && facts.entered_amount@ <= facts.max_entered_amount@
            && selected_chain == facts.chain_id && recipient_valid && asset_valid && offer == Some(
            BroadcasterOffer {
                fees_id: facts.fees_id,
                fee: facts.fee,
                fee_expiration: facts.fee_expiration,
            },
        )),
{
    if !facts.funds_current || facts.max_entered_amount.less_than(facts.entered_amount)
        || selected_chain != facts.chain_id || !recipient_valid || !asset_valid {
        return false;
    }
    match offer {
        Some(found) => found.fees_id == facts.fees_id && found.fee == facts.fee
            && found.fee_expiration == facts.fee_expiration,
        None => false,
    }
}

/// How long a draft that was just estimated is left alone: five seconds, in nanoseconds.
pub const ESTIMATE_PAUSE: u128 = 5_000_000_000;

/// Whether a draft has what an estimate needs: a recipient, and an amount unless everything is
/// sent.
pub open spec fn complete_input(input: GatewayPrivateDraftInput) -> bool {
    trimmed(input.recipient@).len() > 0 && (input.max || trimmed(input.amount@).len() > 0)
}

/// Whether a draft is estimated again: it is complete, nothing is under way for it, the wallet is
/// ready, it was not estimated a moment ago, and no estimate of it still holds.
pub fn private_draft_due(
    record: &DraftRecord,
    input: &GatewayPrivateDraftInput,
    picker_busy: bool,
    generation_ready: bool,
    prepared_current: bool,
    now: u128,
    lifetime: u128,
) -> (due: bool)
    ensures
        due == (!record.executing && !record.estimating && !picker_busy && complete_input(*input)
            && generation_ready && !happened_within(record.estimated_at, now, ESTIMATE_PAUSE) && !(
        record.prepared == Some(PreparedDraftKind::Private) && prepared_current && happened_within(
            record.estimated_at,
            now,
            lifetime,
        ))),
{
    if record.executing || record.estimating || picker_busy || trim(&input.recipient).is_empty() || (
    !input.max && trim(&input.amount).is_empty()) || !generation_ready || is_within(
        record.estimated_at,
        now,
        ESTIMATE_PAUSE,
    ) {
        return false;
    }
    let prepared = match record.prepared {
        Some(PreparedDraftKind::Private) => true,
        _ => false,
    };
    !(prepared && prepared_current && is_within(record.estimated_at, now, lifetime))
}

/// The list of broadcasters that is open for a draft, with the estimate that it shows fees by.
pub struct PrivateDraftPicker {
    pub view_id: String,
    /// Which opening of the list this is: no two share a number.
    pub lifetime: u64,
    pub query: String,
    pub has_estimate: bool,
    pub estimated_at: Option<u128>,
    pub job: bool,
    pub retry_at: Option<u128>,
}

/// What the list of broadcasters does next.
#[derive(Clone, Copy, Debug, PartialEq, Eq, Structural)]
pub enum PickerNext {
    /// Something is under way for the draft.
    Busy,
    /// Its estimate holds.
    Fresh,
    /// It tries again later.
    Waiting,
    /// It is estimated.
    Estimate,
}

/// The recipient that a list is estimated with, before one is entered: the wallet itself for a
/// private transfer, and the zero address for an unshield.
pub fn picker_recipient(kind: GatewayPrivateDraftKind, receive_address: Option<String>) -> (
    recipient: Option<String>)
    ensures
        optional_text(recipient) == match kind {
            GatewayPrivateDraftKind::PrivateSend => optional_text(receive_address),
            GatewayPrivateDraftKind::Unshield => Some(checksum_text(0)),
        },
{
    match kind {
        GatewayPrivateDraftKind::PrivateSend => receive_address,
        GatewayPrivateDraftKind::Unshield => Some(Address::zero().to_checksum()),
    }
}

impl PrivateDraftPicker {
    /// A list that was just opened.
    pub fn new(view_id: String, lifetime: u64, query: String) -> (picker: PrivateDraftPicker)
        ensures
            picker == (PrivateDraftPicker {
                view_id,
                lifetime,
                query,
                has_estimate: false,
                estimated_at: None,
                job: false,
                retry_at: None,
            }),
    {
        PrivateDraftPicker {
            view_id,
            lifetime,
            query,
            has_estimate: false,
            estimated_at: None,
            job: false,
            retry_at: None,
        }
    }

    /// The list after it took over the estimate of the draft, where that one holds.
    pub open spec fn adopting(self, record: DraftRecord, prepared_current: bool) -> PrivateDraftPicker {
        if prepared_current {
            PrivateDraftPicker {
                has_estimate: true,
                estimated_at: record.estimated_at,
                retry_at: None,
                ..self
            }
        } else {
            self
        }
    }

    /// What the list does next. The estimate of the draft itself is taken over where it holds, so
    /// that nothing is estimated twice. `own_current` is whether the list's own estimate holds.
    pub fn refresh(
        &mut self,
        record: &DraftRecord,
        prepared_current: bool,
        own_current: bool,
        now: u128,
        lifetime: u128,
    ) -> (next: PickerNext)
        ensures
            ({
                let taken = old(self).adopting(*record, prepared_current);
                if record.executing || record.estimating || old(self).job {
                    next is Busy && *final(self) == *old(self)
                } else if taken.has_estimate && (prepared_current || own_current)
                    && happened_within(taken.estimated_at, now, lifetime) {
                    next is Fresh && *final(self) == taken
                } else if taken.retry_at matches Some(at) && at > now {
                    next is Waiting && *final(self) == taken
                } else {
                    next is Estimate && *final(self) == (PrivateDraftPicker {
                        retry_at: None,
                        ..taken
                    })
                }
            }),
    {
        if record.executing || record.estimating || self.job {
            return PickerNext::Busy;
        }
        if prepared_current {
            self.has_estimate = true;
            self.estimated_at = record.estimated_at;
            self.retry_at = None;
        }
        if self.has_estimate && (prepared_current || own_current) && is_within(
            self.estimated_at,
            now,
            lifetime,
        ) {
            return PickerNext::Fresh;
        }
        if let Some(at) = self.retry_at {
            if at > now {
                return PickerNext::Waiting;
            }
            self.retry_at = None;
        }
        PickerNext::Estimate
    }

    /// The estimate could not be asked for: it is tried again after `delay`.
    pub fn postpone(&mut self, now: u128, delay: u128)
        requires
            now + delay <= u128::MAX,
        ensures
            *final(self) == (PrivateDraftPicker {
                retry_at: Some((now + delay) as u128),
                ..*old(self)
            }),
    {
        self.retry_at = Some(now + delay);
    }

    /// Begins the estimate that was asked for, where the private funds are known.
    pub fn begin(&mut self, funds_ready: bool) -> (begun: bool)
        ensures
            begun == funds_ready,
            *final(self) == (PrivateDraftPicker { job: funds_ready || old(self).job, ..*old(self) }),
    {
        if funds_ready {
            self.job = true;
        }
        funds_ready
    }

    /// The list after an estimate ended: one that holds is shown, otherwise it is tried again after
    /// `delay`.
    pub open spec fn finished(self, holds: bool, now: u128, delay: u128) -> PrivateDraftPicker {
        if holds {
            PrivateDraftPicker {
                job: false,
                has_estimate: true,
                estimated_at: Some(now),
                retry_at: None,
                ..self
            }
        } else {
            PrivateDraftPicker { job: false, retry_at: Some((now + delay) as u128), ..self }
        }
    }

    /// Takes the end of an estimate, where it was begun for this opening of the list and for the
    /// draft as it stands. Returns whether it was taken.
    pub fn finish(
        &mut self,
        record: &DraftRecord,
        version: &DraftVersion,
        wallet: OpenWallet,
        lifetime: u64,
        holds: bool,
        now: u128,
        delay: u128,
    ) -> (taken: bool)
        requires
            now + delay <= u128::MAX,
        ensures
            taken == (draft_current(*record, *version, wallet) && old(self).lifetime == lifetime),
            *final(self) == if taken {
                old(self).finished(holds, now, delay)
            } else {
                *old(self)
            },
    {
        if !draft_is_current(record, version, wallet) || self.lifetime != lifetime {
            return false;
        }
        self.job = false;
        if holds {
            self.has_estimate = true;
            self.estimated_at = Some(now);
            self.retry_at = None;
        } else {
            self.retry_at = Some(now + delay);
        }
        true
    }

    /// What stands in the place of a fee that is not known.
    pub open spec fn placeholder(self) -> Seq<char> {
        if self.job {
            "Estimating…"@
        } else if self.retry_at is Some {
            "Retrying…"@
        } else {
            "Estimate unavailable"@
        }
    }

    /// What stands in the place of a fee that is not known.
    pub fn fee_placeholder(&self) -> (text: &'static str)
        ensures
            text@ == self.placeholder(),
    {
        if self.job {
            "Estimating…"
        } else if self.retry_at.is_some() {
            "Retrying…"
        } else {
            "Estimate unavailable"
        }
    }
}

/// The draft after an estimate began.
pub open spec fn estimate_begun(before: DraftRecord, after: DraftRecord, now: u128) -> bool {
    after.message@.len() == 0 && after == (DraftRecord {
        prepared: None,
        estimated_at: Some(now),
        gas_quoted: false,
        status: GatewayDraftStatus::Estimating,
        message: after.message,
        ..before
    })
}

/// The draft after an estimate could not begin: it is sent back, without what was estimated before.
pub open spec fn estimate_refused(
    before: DraftRecord,
    after: DraftRecord,
    message: Seq<char>,
    now: u128,
) -> bool {
    sent_back(
        DraftRecord { prepared: None, estimated_at: Some(now), gas_quoted: false, ..before },
        after,
        message,
    )
}

/// Begins to estimate a draft, where its recipient and its asset can be told. Returns the
/// recipient.
pub fn begin_private_estimate(
    record: &mut DraftRecord,
    recipient: Result<String, String>,
    asset_error: Option<String>,
    now: u128,
) -> (begun: Option<String>)
    ensures
        match (recipient, asset_error) {
            (Ok(to), None) => begun == Some(to) && estimate_begun(
                DraftRecord { estimating: true, ..*old(record) },
                *final(record),
                now,
            ),
            (Ok(_), Some(error)) => begun is None && estimate_refused(
                *old(record),
                *final(record),
                error@,
                now,
            ),
            (Err(error), _) => begun is None && estimate_refused(
                *old(record),
                *final(record),
                error@,
                now,
            ),
        },
{
    record.prepared = None;
    record.estimated_at = Some(now);
    record.gas_quoted = false;
    record.status = GatewayDraftStatus::Estimating;
    record.message = String::new();
    match (recipient, asset_error) {
        (Ok(to), None) => {
            record.estimating = true;
            Some(to)
        },
        (Ok(_), Some(error)) => {
            send_back(record, &error);
            None
        },
        (Err(error), _) => {
            send_back(record, &error);
            None
        },
    }
}

/// The name that a recipient is looked up by: what is no address, where funds leave the private
/// balance.
pub fn recipient_to_resolve<'a>(kind: GatewayPrivateDraftKind, recipient: &'a str) -> (name: Option<
    &'a str,
>)
    ensures
        match name {
            Some(found) => kind is Unshield && trimmed(recipient@).len() > 0 && parsed_address(
                trimmed(recipient@),
            ) is None && found@ == trimmed(recipient@),
            None => kind is PrivateSend || trimmed(recipient@).len() == 0 || parsed_address(
                trimmed(recipient@),
            ) is Some,
        },
{
    let name = trim(recipient);
    match kind {
        GatewayPrivateDraftKind::PrivateSend => None,
        GatewayPrivateDraftKind::Unshield => if !name.is_empty() && Address::parse(name).is_none() {
            Some(name)
        } else {
            None
        },
    }
}

/// The recipient that a name was looked up as: `found` is absent where there is none.
pub fn resolved_recipient(found: Option<Address>) -> (recipient: Result<String, String>)
    ensures
        outcome_of(recipient) == match found {
            Some(address) => Outcome::Text(checksum_text(address.value())),
            None => Outcome::Refused(
                "Recipient could not be resolved. Check the address or ENS name."@,
            ),
        },
{
    match found {
        Some(address) => Ok(address.to_checksum()),
        None => Err("Recipient could not be resolved. Check the address or ENS name.".to_owned()),
    }
}

/// What the preparation of an estimate came to.
pub enum EstimatePreparation {
    /// The estimate can be asked for, where the private funds are known.
    Request { funds_ready: bool },
    /// The inputs are not complete, or no broadcaster is available.
    Incomplete,
    Refused(String),
    /// The task that resolved the recipient did not end.
    Interrupted,
}

/// Takes the preparation of an estimate, where it is of the draft as it stands. Returns whether the
/// estimate is asked for.
pub fn private_estimate_prepared(
    record: &mut DraftRecord,
    version: &DraftVersion,
    wallet: OpenWallet,
    preparation: EstimatePreparation,
    generation_ready: bool,
) -> (requested: bool)
    ensures
        requested == (draft_current(*old(record), *version, wallet) && preparation
            == EstimatePreparation::Request { funds_ready: true }),
        if !draft_current(*old(record), *version, wallet) {
            *final(record) == *old(record)
        } else {
            let settled = DraftRecord { estimating: false, ..*old(record) };
            match preparation {
                EstimatePreparation::Request { funds_ready } => *final(record) == (DraftRecord {
                    estimating: funds_ready,
                    ..*old(record)
                }),
                EstimatePreparation::Incomplete => sent_back(
                    settled,
                    *final(record),
                    if generation_ready {
                        "Complete the inputs and choose an available broadcaster."@
                    } else {
                        "You can prepare this form now, but generation is available after wallet sync finishes"@
                    },
                ),
                EstimatePreparation::Refused(error) => sent_back(settled, *final(record), error@),
                EstimatePreparation::Interrupted => sent_back(
                    settled,
                    *final(record),
                    "Recipient resolution was interrupted."@,
                ),
            }
        },
{
    if !draft_is_current(record, version, wallet) {
        return false;
    }
    record.estimating = false;
    match preparation {
        EstimatePreparation::Request { funds_ready } => {
            record.estimating = funds_ready;
            funds_ready
        },
        EstimatePreparation::Incomplete => {
            send_back(
                record,
                if generation_ready {
                    "Complete the inputs and choose an available broadcaster."
                } else {
                    "You can prepare this form now, but generation is available after wallet sync finishes"
                },
            );
            false
        },
        EstimatePreparation::Refused(error) => {
            send_back(record, &error);
            false
        },
        EstimatePreparation::Interrupted => {
            send_back(record, "Recipient resolution was interrupted.");
            false
        },
    }
}

/// How an estimate ended.
pub enum PrivateEstimateResult {
    Estimated,
    /// With an error, and the greatest amount that the error names.
    Failed { message: String, maximum: Option<U256> },
    Interrupted,
}

/// What follows the end of an estimate.
#[derive(Clone, Copy, Debug, PartialEq, Eq, Structural)]
pub enum PrivateEstimateNext {
    Ignored,
    Ready,
    SentBack,
    /// Everything was asked for, and less can be sent: this amount is estimated.
    RetryWith(U256),
}

/// The amount that a failed estimate of everything is tried again with: what the error names, where
/// it is less than what was asked for.
pub open spec fn retry_amount(
    retry_max: bool,
    max: bool,
    entered: Option<U256>,
    maximum: Option<U256>,
) -> Option<U256> {
    match (maximum, entered) {
        (Some(most), Some(asked)) => if retry_max && max && most@ != 0 && most@ < asked@ {
            Some(most)
        } else {
            None
        },
        _ => None,
    }
}

/// Takes the end of an estimate, where it is of the draft as it stands. `entered` is the amount
/// that was estimated, and `retry_max` whether less may be tried.
pub fn finish_private_estimate(
    record: &mut DraftRecord,
    version: &DraftVersion,
    wallet: OpenWallet,
    funds_current: bool,
    result: PrivateEstimateResult,
    retry_max: bool,
    max: bool,
    entered: Option<U256>,
    now: u128,
) -> (next: PrivateEstimateNext)
    ensures
        if !draft_current(*old(record), *version, wallet) {
            next is Ignored && *final(record) == *old(record)
        } else {
            let settled = DraftRecord { estimating: false, ..*old(record) };
            if !funds_current {
                next is SentBack && sent_back(
                    settled,
                    *final(record),
                    "Private funds changed. Refresh the estimate."@,
                )
            } else {
                match result {
                    PrivateEstimateResult::Estimated => next is Ready && *final(record) == (
                    DraftRecord {
                        prepared: Some(PreparedDraftKind::Private),
                        estimated_at: Some(now),
                        status: GatewayDraftStatus::Ready,
                        ..settled
                    }),
                    PrivateEstimateResult::Failed { message, maximum } => match retry_amount(
                        retry_max,
                        max,
                        entered,
                        maximum,
                    ) {
                        Some(amount) => next == PrivateEstimateNext::RetryWith(amount)
                            && *final(record) == settled,
                        None => next is SentBack && sent_back(settled, *final(record), message@),
                    },
                    PrivateEstimateResult::Interrupted => next is SentBack && sent_back(
                        settled,
                        *final(record),
                        "Private fee estimate was interrupted. Refresh to try again."@,
                    ),
                }
            }
        },
{
    if !draft_is_current(record, version, wallet) {
        return PrivateEstimateNext::Ignored;
    }
    record.estimating = false;
    if !funds_current {
        send_back(record, "Private funds changed. Refresh the estimate.");
        return PrivateEstimateNext::SentBack;
    }
    match result {
        PrivateEstimateResult::Estimated => {
            record.prepared = Some(PreparedDraftKind::Private);
            record.estimated_at = Some(now);
            record.status = GatewayDraftStatus::Ready;
            PrivateEstimateNext::Ready
        },
        PrivateEstimateResult::Failed { message, maximum } => {
            if let (Some(most), Some(asked)) = (maximum, entered) {
                if retry_max && max && !most.is_zero() && most.less_than(asked) {
                    return PrivateEstimateNext::RetryWith(most);
                }
            }
            send_back(record, &message);
            PrivateEstimateNext::SentBack
        },
        PrivateEstimateResult::Interrupted => {
            send_back(record, "Private fee estimate was interrupted. Refresh to try again.");
            PrivateEstimateNext::SentBack
        },
    }
}

/// The inputs that a draft of everything is tried again with: this amount in place of everything.
pub fn retry_input(input: &GatewayPrivateDraftInput, amount: String) -> (
    adjusted: GatewayPrivateDraftInput)
    ensures
        same_input(adjusted, (GatewayPrivateDraftInput { max: false, amount, ..*input })),
{
    GatewayPrivateDraftInput {
        kind: input.kind,
        wallet: input.wallet.clone(),
        chain_id: input.chain_id,
        asset: input.asset.clone(),
        amount,
        max: false,
        recipient: input.recipient.clone(),
        address_book_entry: match &input.address_book_entry {
            Some(id) => Some(id.clone()),
            None => None,
        },
        fee_token: input.fee_token.clone(),
        fee_mode: input.fee_mode,
        broadcaster: match &input.broadcaster {
            BroadcasterChoice::Random => BroadcasterChoice::Random,
            BroadcasterChoice::Specific { id } => BroadcasterChoice::Specific { id: id.clone() },
        },
        unwrap: input.unwrap,
        native_top_up: input.native_top_up,
        allow_out_of_range: input.allow_out_of_range,
        favorites_only: input.favorites_only,
    }
}

/// Begins the estimate of less than everything; where it cannot be asked for, the draft is sent
/// back with what went wrong before.
pub fn retry_private_estimate(record: &mut DraftRecord, available: bool, message: &str)
    ensures
        if available {
            *final(record) == (DraftRecord { estimating: true, ..*old(record) })
        } else {
            sent_back(*old(record), *final(record), message@)
        },
{
    if available {
        record.estimating = true;
    } else {
        send_back(record, message);
    }
}

/// What the submission of a draft comes to.
#[derive(Clone, Copy, Debug, PartialEq, Eq, Structural)]
pub enum SubmitNext {
    Ignored,
    /// The desktop app is busy with another action.
    Busy,
    /// The draft is estimated again.
    Reestimate,
    /// The form is opened and filled.
    Begin,
}

/// Submits a draft that is ready: what was estimated is handed to the desktop app, where it still
/// holds and nothing else is open there.
pub fn submit_private_draft(
    record: &mut DraftRecord,
    version: &DraftVersion,
    wallet: OpenWallet,
    desktop_busy: bool,
    prepared_current: bool,
    now: u128,
    lifetime: u128,
) -> (next: SubmitNext)
    ensures
        ({
            let holds = prepared_current && (old(record).estimated_at matches Some(at) && elapsed(
                at,
                now,
            ) <= lifetime);
            if !draft_current(*old(record), *version, wallet) || old(record).status
                != GatewayDraftStatus::Ready {
                next is Ignored && *final(record) == *old(record)
            } else if desktop_busy {
                next is Busy && final(record).message@
                    == "Finish or close the current action in the desktop app first."@
                    && *final(record) == (DraftRecord {
                    message: final(record).message,
                    ..*old(record)
                })
            } else if old(record).prepared != Some(PreparedDraftKind::Private) {
                next is Ignored && *final(record) == *old(record)
            } else if !holds {
                next is Reestimate && *final(record) == (DraftRecord {
                    status: GatewayDraftStatus::Editing,
                    ..*old(record)
                })
            } else {
                next is Begin && *final(record) == (DraftRecord {
                    prepared: None,
                    executing: true,
                    ..*old(record)
                })
            }
        }),
{
    if !draft_is_current(record, version, wallet) || record.status != GatewayDraftStatus::Ready {
        return SubmitNext::Ignored;
    }
    if desktop_busy {
        record.message = "Finish or close the current action in the desktop app first.".to_owned();
        return SubmitNext::Busy;
    }
    let prepared = match record.prepared {
        Some(PreparedDraftKind::Private) => true,
        _ => false,
    };
    if !prepared {
        return SubmitNext::Ignored;
    }
    let fresh = match record.estimated_at {
        Some(at) => now.saturating_sub(at) <= lifetime,
        None => false,
    };
    if !prepared_current || !fresh {
        record.status = GatewayDraftStatus::Editing;
        return SubmitNext::Reestimate;
    }
    record.prepared = None;
    record.executing = true;
    SubmitNext::Begin
}

/// The form that a draft is submitted with, through a broadcaster.
pub struct PrivateSubmissionForm {
    pub kind: DeliveryFormKind,
    pub asset: usize,
    pub recipient: String,
    pub amount: U256,
    pub fee_token: Address,
    pub fee_mode: FeeHandlingMode,
    pub broadcaster: BroadcasterChoice,
    pub allow_suspicious_broadcasters: bool,
    pub favorites_only_broadcasters: bool,
    /// For funds that leave the private balance: how they come out.
    pub unshield: Option<UnshieldForm>,
    /// When the fee that the form shows was estimated.
    pub estimated_at: Option<u128>,
}

/// Fills the form of a draft with what was estimated.
pub fn private_submission_form(
    input: PrivateEstimateInput,
    entered_amount: U256,
    estimated_at: Option<u128>,
) -> (form: PrivateSubmissionForm)
    ensures
        form.kind is Send == input.output is Send,
        form == (PrivateSubmissionForm {
            kind: form.kind,
            asset: input.asset,
            recipient: input.recipient,
            amount: entered_amount,
            fee_token: input.fee_token,
            fee_mode: input.fee_mode,
            broadcaster: input.broadcaster,
            allow_suspicious_broadcasters: input.allow_out_of_range,
            favorites_only_broadcasters: input.favorites_only,
            unshield: unshield_form(input.output),
            estimated_at,
        }),
{
    PrivateSubmissionForm {
        kind: match input.output {
            PrivateEstimateOutput::Send => DeliveryFormKind::Send,
            PrivateEstimateOutput::Unshield { .. } => DeliveryFormKind::Unshield,
        },
        asset: input.asset,
        recipient: input.recipient,
        amount: entered_amount,
        fee_token: input.fee_token,
        fee_mode: input.fee_mode,
        broadcaster: input.broadcaster,
        allow_suspicious_broadcasters: input.allow_out_of_range,
        favorites_only_broadcasters: input.favorites_only,
        unshield: unshield_form_of(input.output),
        estimated_at,
    }
}

/// A draft is submitted at most once: after it was begun, neither another submission nor a result
/// of an estimate is about the draft as it stands.
pub proof fn submitted_drafts_stay_submitted(
    before: DraftRecord,
    version: DraftVersion,
    wallet: OpenWallet,
)
    requires
        draft_current(before, version, wallet),
    ensures
        !draft_current(
            DraftRecord { prepared: None, executing: true, ..before },
            version,
            wallet,
        ),
{
}

/// A result of an earlier revision, or of a wallet that is no longer open, is never about the draft
/// as it stands.
pub proof fn results_of_other_revisions_are_ignored(
    record: DraftRecord,
    version: DraftVersion,
    wallet: OpenWallet,
)
    requires
        record.revision != version.revision || wallet.session != Some(record.wallet)
            || record.wallet_generation != wallet.generation,
    ensures
        !draft_current(record, version, wallet),
{
}

/// Two drafts are of the same input only where everything that was entered agrees.
pub proof fn inputs_are_told_apart(a: GatewayPrivateDraftInput, b: GatewayPrivateDraftInput)
    ensures
        same_input(a, b) <==> {
            &&& a.kind == b.kind
            &&& a.wallet@ == b.wallet@
            &&& a.chain_id == b.chain_id
            &&& a.asset@ == b.asset@
            &&& a.amount@ == b.amount@
            &&& a.max == b.max
            &&& a.recipient@ == b.recipient@
            &&& match (a.address_book_entry, b.address_book_entry) {
                (Some(x), Some(y)) => x@ == y@,
                (None, None) => true,
                _ => false,
            }
            &&& a.fee_token@ == b.fee_token@
            &&& a.fee_mode == b.fee_mode
            &&& match (a.broadcaster, b.broadcaster) {
                (BroadcasterChoice::Random, BroadcasterChoice::Random) => true,
                (
                    BroadcasterChoice::Specific { id: x },
                    BroadcasterChoice::Specific { id: y },
                ) => x@ == y@,
                _ => false,
            }
            &&& a.unwrap == b.unwrap
            &&& a.native_top_up == b.native_top_up
            &&& a.allow_out_of_range == b.allow_out_of_range
            &&& a.favorites_only == b.favorites_only
        },
{
}

/// A contact is found by its entry, at the first place that has it.
pub proof fn contacts_are_found_by_their_entry(
    private: Seq<PrivateContact>,
    public: Seq<PublicContact>,
    id: Seq<char>,
    from: int,
    at: int,
)
    requires
        0 <= from,
    ensures
        from <= at < private.len() && private[at].entry_uuid@ == id && (forall|i: int|
            from <= i < at ==> (#[trigger] private[i]).entry_uuid@ != id) ==> private_address(
            private,
            id,
            from,
        ) == Some(private[at].address@),
        (forall|i: int| from <= i < private.len() ==> (#[trigger] private[i]).entry_uuid@ != id)
            ==> private_address(private, id, from) is None,
        from <= at < public.len() && public[at].entry_uuid@ == id && (forall|i: int|
            from <= i < at ==> (#[trigger] public[i]).entry_uuid@ != id) ==> public_address(
            public,
            id,
            from,
        ) == Some(checksum_text(public[at].address.value())),
        (forall|i: int| from <= i < public.len() ==> (#[trigger] public[i]).entry_uuid@ != id)
            ==> public_address(public, id, from) is None,
    decreases private.len() + public.len() - from,
{
    if from < private.len() || from < public.len() {
        contacts_are_found_by_their_entry(private, public, id, from + 1, at);
    }
}

/// An entry is found by its address, at the first place that has it, and only in the book that the
/// recipient comes from.
pub proof fn entries_are_found_by_their_address(
    private: Seq<PrivateContact>,
    public: Seq<PublicContact>,
    address: Seq<char>,
    from: int,
    at: int,
)
    requires
        0 <= from,
    ensures
        from <= at < private.len() && private[at].address@ == address && (forall|i: int|
            from <= i < at ==> (#[trigger] private[i]).address@ != address) ==> private_entry(
            private,
            address,
            from,
        ) == private[at].entry_uuid@,
        (forall|i: int| from <= i < private.len() ==> (#[trigger] private[i]).address@ != address)
            ==> private_entry(private, address, from).len() == 0,
        from <= at < public.len() && checksum_text(public[at].address.value()) == address && (
        forall|i: int|
            from <= i < at ==> checksum_text((#[trigger] public[i]).address.value()) != address)
            ==> public_entry(public, address, from) == public[at].entry_uuid@,
        (forall|i: int|
            from <= i < public.len() ==> checksum_text((#[trigger] public[i]).address.value())
                != address) ==> public_entry(public, address, from).len() == 0,
        entry_id(RecipientSource::PrivateAddressBook, address, private, public) == private_entry(
            private,
            address,
            0,
        ),
        entry_id(RecipientSource::PublicAddressBook, address, private, public) == public_entry(
            public,
            address,
            0,
        ),
        entry_id(RecipientSource::Other, address, private, public).len() == 0,
    decreases private.len() + public.len() - from,
{
    if from < private.len() || from < public.len() {
        entries_are_found_by_their_address(private, public, address, from + 1, at);
    }
}

/// A recipient that was entered is taken as it is. One from an address book is taken only where the
/// book was read, still has the entry, and the entry still has the address that was shown.
pub proof fn contacts_are_taken_as_they_were_shown(
    input: GatewayPrivateDraftInput,
    books: AddressBooks,
)
    ensures
        input.address_book_entry is None ==> contact_outcome(input, books) == Outcome::Text(
            input.recipient@,
        ),
        contact_outcome(input, books) matches Outcome::Text(to) ==> to == input.recipient@,
        input.address_book_entry matches Some(id) ==> {
            &&& input.kind is PrivateSend && books.private is None ==> contact_outcome(input, books)
                is Refused
            &&& input.kind is Unshield && books.public is None ==> contact_outcome(input, books)
                is Refused
            &&& input.kind is PrivateSend && books.private is Some ==> (contact_outcome(
                input,
                books,
            ) is Text <==> private_address(books.private.unwrap()@, id@, 0) == Some(
                input.recipient@,
            ))
            &&& input.kind is Unshield && books.public is Some ==> (contact_outcome(input, books)
                is Text <==> public_address(books.public.unwrap()@, id@, 0) == Some(
                input.recipient@,
            ))
        },
{
}

/// A result is told apart by whether it is one.
pub proof fn outcomes_are_what_came_out(text: String)
    ensures
        outcome_of(Ok(text)) == Outcome::Text(text@),
        outcome_of(Err(text)) == Outcome::Refused(text@),
{
}

/// A recipient is shown with its own label and address.
pub proof fn recipients_are_shown_as_they_are(
    shown: GatewayDraftRecipient,
    option: RecipientOption,
    private: Seq<PrivateContact>,
    public: Seq<PublicContact>,
)
    requires
        shows_recipient(shown, option, private, public),
    ensures
        shown.label@ == option.label@,
        shown.address@ == option.address@,
        shown.id@ == entry_id(option.source, option.address@, private, public),
{
}

/// An asset is found by its token, at the first place that has it.
pub proof fn assets_are_found_by_their_token(
    assets: Seq<PrivateAsset>,
    token: nat,
    from: int,
)
    requires
        0 <= from,
    ensures
        match asset_index(assets, token, from) {
            Some(at) => from <= at < assets.len() && assets[at].token.value() == token && forall|
                i: int,
            |
                from <= i < at ==> (#[trigger] assets[i]).token.value() != token,
            None => forall|i: int|
                from <= i < assets.len() ==> (#[trigger] assets[i]).token.value() != token,
        },
    decreases assets.len() - from,
{
    if from < assets.len() {
        assets_are_found_by_their_token(assets, token, from + 1);
    }
}

/// The asset of a draft is the one that was entered, of the wallet and the chain that the draft is
/// for. A draft of another wallet or chain has none.
pub proof fn drafts_are_of_their_wallet_and_chain(
    input: GatewayPrivateDraftInput,
    wallet: Option<Seq<char>>,
    chain_id: u64,
    assets: Seq<PrivateAsset>,
)
    ensures
        draft_asset(input, wallet, chain_id, assets) matches AssetOutcome::At(at) ==> wallet == Some(
            input.wallet@,
        ) && chain_id == input.chain_id && 0 <= at < assets.len() && parsed_address(input.asset@)
            == Some(assets[at].token.value()),
        wallet != Some(input.wallet@) ==> draft_asset(input, wallet, chain_id, assets) is Refused,
        chain_id != input.chain_id ==> draft_asset(input, wallet, chain_id, assets) is Refused,
        wallet == Some(input.wallet@) && chain_id == input.chain_id ==> (draft_asset(
            input,
            wallet,
            chain_id,
            assets,
        ) is At <==> exists|i: int|
            0 <= i < assets.len() && parsed_address(input.asset@) == Some(
                (#[trigger] assets[i]).token.value(),
            )),
{
    if let Some(token) = parsed_address(input.asset@) {
        assets_are_found_by_their_token(assets, token, 0);
    }
}

/// The form of what comes out unwraps and tops up exactly as planned.
pub proof fn forms_unwrap_as_planned(unwrap: bool, native_top_up: Option<NativeTopUpPlan>)
    ensures
        unshield_form(PrivateEstimateOutput::Send) is None,
        unshield_form(PrivateEstimateOutput::Unshield { unwrap, native_top_up }) matches Some(form)
            && form.unwrap == unwrap && form.native_top_up == native_top_up
            && form.native_top_up_enabled == (native_top_up is Some),
{
}

/// A top-up is for the prepared recipient before the entered one, and is asked for exactly where
/// there is an address and an amount.
pub proof fn top_ups_need_an_address_and_an_amount(
    input: GatewayPrivateDraftInput,
    prepared: Seq<char>,
    recipient: Seq<char>,
    amount: U256,
)
    ensures
        offered_recipient(Some(prepared), input) == prepared,
        offered_recipient(None, input) == input.recipient@,
        parsed_address(recipient) is None ==> !top_up_asked(input, recipient, Some(amount)),
        parsed_address(recipient) is Some ==> top_up_asked(input, recipient, Some(amount)),
        parsed_address(recipient) is Some ==> (top_up_asked(input, recipient, None) <==> input.max),
{
}

/// A private transfer comes out private, without native options. An unshield comes out as entered:
/// unwrapped only where the asset wraps the native token, and with a top-up exactly where one is
/// entered, can be paid to an address, and is planned.
pub proof fn outputs_are_as_entered(
    input: GatewayPrivateDraftInput,
    recipient: Seq<char>,
    wrapped_native: bool,
    amount_error: Option<Seq<char>>,
    plan: Option<NativeTopUpPlan>,
)
    ensures
        ({
            let outcome = draft_output(input, recipient, wrapped_native, amount_error, plan);
            &&& input.kind is PrivateSend ==> (outcome is Output <==> !input.unwrap
                && !input.native_top_up)
            &&& input.kind is PrivateSend ==> (outcome matches OutputOutcome::Output(output)
                ==> output is Send)
            &&& input.kind is Unshield ==> (outcome matches OutputOutcome::Output(output)
                ==> output matches PrivateEstimateOutput::Unshield { unwrap, native_top_up }
                && unwrap == input.unwrap && (unwrap ==> wrapped_native) && native_top_up == (
            if input.native_top_up {
                plan
            } else {
                None
            }))
            &&& input.kind is Unshield && !input.native_top_up ==> (outcome is Output <==> (
            input.unwrap ==> wrapped_native))
            &&& input.kind is Unshield && input.native_top_up ==> (outcome is Output <==> (
            input.unwrap ==> wrapped_native) && parsed_address(recipient) is Some && plan is Some
                && (input.max || amount_error is None))
        }),
{
}

/// An input is complete exactly where there is a recipient, and an amount or everything.
pub proof fn complete_inputs_have_a_recipient_and_an_amount(input: GatewayPrivateDraftInput)
    ensures
        trimmed(input.recipient@).len() == 0 ==> !complete_input(input),
        trimmed(input.recipient@).len() > 0 && input.max ==> complete_input(input),
        trimmed(input.recipient@).len() > 0 && !input.max ==> (complete_input(input) <==> trimmed(
            input.amount@,
        ).len() > 0),
{
}

/// An estimate is not asked for again within five seconds.
pub proof fn estimates_pause_for_five_seconds(at: u128, now: u128)
    requires
        at <= now,
    ensures
        happened_within(Some(at), now, ESTIMATE_PAUSE) <==> now - at < 5_000_000_000,
{
}

/// The list takes the draft's own estimate over where it holds, with its time, and stops waiting.
pub proof fn lists_take_the_draft_estimate_over(picker: PrivateDraftPicker, record: DraftRecord)
    ensures
        picker.adopting(record, false) == picker,
        picker.adopting(record, true).has_estimate,
        picker.adopting(record, true).estimated_at == record.estimated_at,
        picker.adopting(record, true).retry_at is None,
        picker.adopting(record, true).view_id == picker.view_id,
        picker.adopting(record, true).lifetime == picker.lifetime,
        picker.adopting(record, true).query == picker.query,
        picker.adopting(record, true).job == picker.job,
{
}

/// An estimate of the list that holds is shown from then on; one that does not is tried again after
/// the delay, and what was shown stays.
pub proof fn lists_try_again_after_the_delay(picker: PrivateDraftPicker, now: u128, delay: u128)
    requires
        now + delay <= u128::MAX,
    ensures
        !picker.finished(true, now, delay).job,
        picker.finished(true, now, delay).has_estimate,
        picker.finished(true, now, delay).estimated_at == Some(now),
        picker.finished(true, now, delay).retry_at is None,
        !picker.finished(false, now, delay).job,
        picker.finished(false, now, delay).has_estimate == picker.has_estimate,
        picker.finished(false, now, delay).estimated_at == picker.estimated_at,
        picker.finished(false, now, delay).retry_at matches Some(at) && at == now + delay,
        picker.finished(true, now, delay).query == picker.query,
        picker.finished(false, now, delay).query == picker.query,
        picker.finished(true, now, delay).lifetime == picker.lifetime,
        picker.finished(false, now, delay).lifetime == picker.lifetime,
{
}

/// What stands in the place of a fee says what is being done about it.
pub proof fn placeholders_say_what_is_done(picker: PrivateDraftPicker)
    ensures
        picker.job ==> picker.placeholder() == "Estimating…"@,
        !picker.job && picker.retry_at is Some ==> picker.placeholder() == "Retrying…"@,
        !picker.job && picker.retry_at is None ==> picker.placeholder() == "Estimate unavailable"@,
{
}

/// A draft whose estimate begins or is refused has nothing prepared any more, and says so.
pub proof fn estimates_start_over(
    before: DraftRecord,
    begun: DraftRecord,
    refused: DraftRecord,
    message: Seq<char>,
    now: u128,
)
    requires
        estimate_begun(before, begun, now),
        estimate_refused(before, refused, message, now),
    ensures
        begun.prepared is None && begun.status is Estimating && begun.estimated_at == Some(now)
            && !begun.gas_quoted && begun.message@.len() == 0,
        begun.estimating == before.estimating && begun.revision == before.revision
            && begun.draft_id == before.draft_id && begun.executing == before.executing,
        refused.prepared is None && refused.status is Editing && refused.estimated_at == Some(now)
            && !refused.gas_quoted && refused.message@ == message,
        refused.estimating == before.estimating && refused.revision == before.revision
            && refused.draft_id == before.draft_id && refused.executing == before.executing,
{
}

/// An estimate is tried again with less only where everything was to be sent, it was not tried
/// before, and the maximum that came back is positive and below what was asked. It is then that
/// maximum.
pub proof fn retries_send_the_maximum(
    retry_max: bool,
    max: bool,
    entered: Option<U256>,
    maximum: Option<U256>,
)
    ensures
        retry_amount(retry_max, max, entered, maximum) is Some <==> retry_max && max && (maximum
            matches Some(most) && entered matches Some(asked) && 0 < most@ < asked@),
        retry_amount(retry_max, max, entered, maximum) is Some ==> retry_amount(
            retry_max,
            max,
            entered,
            maximum,
        ) == maximum,
{
}

/// A text within its limit is short enough, and one that is absent always is.
pub proof fn absent_texts_are_short(text: String, limit: usize)
    ensures
        at_most(None, limit),
        at_most(Some(text), limit) <==> byte_len(text@) <= limit,
{
}

/// Two choices of a broadcaster are the same where both leave it to chance or both name the same one.
pub proof fn broadcasters_are_told_apart(id: String, other: String)
    ensures
        same_broadcaster(BroadcasterChoice::Random, BroadcasterChoice::Random),
        !same_broadcaster(BroadcasterChoice::Random, BroadcasterChoice::Specific { id }),
        !same_broadcaster(BroadcasterChoice::Specific { id }, BroadcasterChoice::Random),
        same_broadcaster(
            BroadcasterChoice::Specific { id },
            BroadcasterChoice::Specific { id: other },
        ) <==> id@ == other@,
{
}

/// A draft whose asset cannot be used says why: the wallet or network changed, no asset is named, or
/// the named one is not there.
pub proof fn refused_assets_say_why(
    input: GatewayPrivateDraftInput,
    wallet: Option<Seq<char>>,
    chain_id: u64,
    assets: Seq<PrivateAsset>,
)
    ensures
        wallet != Some(input.wallet@) || chain_id != input.chain_id ==> draft_asset(
            input,
            wallet,
            chain_id,
            assets,
        ) == AssetOutcome::Refused("Wallet or network changed. Open a new draft."@),
        wallet == Some(input.wallet@) && chain_id == input.chain_id && parsed_address(input.asset@)
            is None ==> draft_asset(input, wallet, chain_id, assets) == AssetOutcome::Refused(
            "Choose an available asset"@,
        ),
        wallet == Some(input.wallet@) && chain_id == input.chain_id ==> (parsed_address(input.asset@)
            matches Some(token) ==> ((forall|i: int|
            0 <= i < assets.len() ==> (#[trigger] assets[i]).token.value() != token)
            ==> draft_asset(input, wallet, chain_id, assets) == AssetOutcome::Refused(
            "Choose an available private asset"@,
        ))),
{
    if let Some(token) = parsed_address(input.asset@) {
        assets_are_found_by_their_token(assets, token, 0);
    }
}

/// An output that cannot be made says why, in the order in which it is looked at.
pub proof fn refused_outputs_say_why(
    input: GatewayPrivateDraftInput,
    recipient: Seq<char>,
    wrapped_native: bool,
    amount_error: Option<Seq<char>>,
    plan: Option<NativeTopUpPlan>,
)
    ensures
        ({
            let outcome = draft_output(input, recipient, wrapped_native, amount_error, plan);
            let unwraps = input.unwrap ==> wrapped_native;
            let top_up = input.kind is Unshield && unwraps && input.native_top_up;
            &&& input.kind is PrivateSend && (input.unwrap || input.native_top_up) ==> outcome
                == OutputOutcome::Refused(
                "Native output options are only available for Unshield."@,
            )
            &&& input.kind is Unshield && !unwraps ==> outcome == OutputOutcome::Refused(
                "This asset cannot be unwrapped."@,
            )
            &&& top_up && parsed_address(recipient) is None ==> outcome == OutputOutcome::Refused(
                "Enter a public recipient"@,
            )
            &&& top_up && parsed_address(recipient) is Some && !input.max ==> (
            amount_error matches Some(error) ==> outcome == OutputOutcome::Refused(error))
            &&& top_up && parsed_address(recipient) is Some && (input.max || amount_error is None)
                && plan is None ==> outcome == OutputOutcome::Refused(
                "Native top-up is unavailable for these inputs or private funds."@,
            )
        }),
{
}

} // verus!
