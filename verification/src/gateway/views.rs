//! What a paired extension sees of the wallet, and what it may select.
use crate::accounts::{AccountId, PublicAccountMetadata, PublicAccountStatus};
use crate::address::{checksum_text, Address};
use crate::gateway::draft_options::{shared_icon, shared_icon_path, IconSource};
use crate::governance::participants::wallet_text;
use crate::text::{optional_text, same_text};
use crate::u256::U256;
use vstd::prelude::*;

verus! {

/// The device of a hardware wallet.
#[derive(Clone, Copy, Debug, PartialEq, Eq, Structural)]
pub enum HardwareDeviceKind {
    Ledger,
    Trezor,
}

/// A wallet that can be selected.
pub struct WalletItem {
    pub wallet_id: String,
    pub label: String,
    pub hardware: Option<HardwareDeviceKind>,
}

/// A wallet as an extension sees it.
#[derive(Debug, PartialEq, Eq)]
pub struct GatewayPrivateWallet {
    pub wallet_id: String,
    pub label: String,
    pub hardware: Option<String>,
}

/// What a wallet is called by.
pub struct WalletChoiceId {
    pub wallet_id: Seq<char>,
    pub label: Seq<char>,
    pub hardware: Option<Seq<char>>,
}

impl View for GatewayPrivateWallet {
    type V = WalletChoiceId;

    open spec fn view(&self) -> WalletChoiceId {
        WalletChoiceId {
            wallet_id: self.wallet_id@,
            label: self.label@,
            hardware: optional_text(self.hardware),
        }
    }
}

/// A wallet as an extension sees it.
pub open spec fn wallet_choice(item: WalletItem) -> WalletChoiceId {
    WalletChoiceId {
        wallet_id: item.wallet_id@,
        label: item.label@,
        hardware: match item.hardware {
            Some(HardwareDeviceKind::Ledger) => Some("ledger"@),
            Some(HardwareDeviceKind::Trezor) => Some("trezor"@),
            None => None,
        },
    }
}

/// What several wallets are called by.
pub open spec fn wallet_choice_ids(choices: Seq<GatewayPrivateWallet>) -> Seq<WalletChoiceId> {
    choices.map_values(|choice: GatewayPrivateWallet| choice@)
}

/// The wallets that can be selected.
pub open spec fn wallet_choices_of(items: Seq<WalletItem>) -> Seq<WalletChoiceId> {
    items.map_values(|item: WalletItem| wallet_choice(item))
}

/// The wallets that can be selected, in order.
pub fn private_wallet_choices(items: &Vec<WalletItem>) -> (choices: Vec<GatewayPrivateWallet>)
    ensures
        wallet_choice_ids(choices@) == wallet_choices_of(items@),
        choices@.len() == items@.len(),
        forall|i: int|
            #![trigger choices@[i]]
            0 <= i < choices@.len() ==> choices@[i].wallet_id@ == items@[i].wallet_id@
                && choices@[i].label@ == items@[i].label@ && (match items@[i].hardware {
                Some(HardwareDeviceKind::Ledger) => choices@[i].hardware matches Some(text) && text@
                    == "ledger"@,
                Some(HardwareDeviceKind::Trezor) => choices@[i].hardware matches Some(text) && text@
                    == "trezor"@,
                None => choices@[i].hardware is None,
            }),
{
    let mut choices: Vec<GatewayPrivateWallet> = Vec::new();
    let mut i: usize = 0;
    assert(wallet_choice_ids(choices@) =~= wallet_choices_of(items@.take(0)));
    while i < items.len()
        invariant
            i <= items@.len(),
            wallet_choice_ids(choices@) == wallet_choices_of(items@.take(i as int)),
        decreases items@.len() - i,
    {
        let ghost before = choices@;
        let choice = GatewayPrivateWallet {
            wallet_id: items[i].wallet_id.clone(),
            label: items[i].label.clone(),
            hardware: match items[i].hardware {
                Some(HardwareDeviceKind::Ledger) => Some("ledger".to_owned()),
                Some(HardwareDeviceKind::Trezor) => Some("trezor".to_owned()),
                None => None,
            },
        };
        assert(choice@ == wallet_choice(items@[i as int]));
        choices.push(choice);
        proof {
            assert(wallet_choice_ids(choices@) =~= wallet_choice_ids(before).push(choice@));
            assert(wallet_choices_of(items@.take(i + 1)) =~= wallet_choices_of(
                items@.take(i as int),
            ).push(choice@));
        }
        i += 1;
    }
    assert(items@.take(i as int) =~= items@);
    assert forall|j: int| 0 <= j < choices@.len() implies (#[trigger] choices@[j])@ == wallet_choice(
        items@[j],
    ) by {
        assert(wallet_choice_ids(choices@)[j] == wallet_choices_of(items@)[j]);
    }
    assert(wallet_choice_ids(choices@).len() == wallet_choices_of(items@).len());
    choices
}

/// Whether a wallet can be selected.
pub open spec fn offers_wallet(items: Seq<WalletItem>, wallet_id: Seq<char>) -> bool {
    exists|i: int| 0 <= i < items.len() && (#[trigger] items[i]).wallet_id@ == wallet_id
}

/// Whether a wallet can be selected.
pub fn wallet_is_offered(items: &Vec<WalletItem>, wallet_id: &str) -> (offered: bool)
    ensures
        offered == offers_wallet(items@, wallet_id@),
{
    let mut i: usize = 0;
    while i < items.len()
        invariant
            i <= items@.len(),
            forall|j: int| 0 <= j < i ==> (#[trigger] items@[j]).wallet_id@ != wallet_id@,
        decreases items@.len() - i,
    {
        if same_text(&items[i].wallet_id, wallet_id) {
            assert(items@[i as int].wallet_id@ == wallet_id@);
            return true;
        }
        i += 1;
    }
    false
}

/// A private balance with its texts.
pub struct PrivateAssetRow {
    pub token: Option<Address>,
    pub label: String,
    pub amount: String,
    pub usd: Option<String>,
    pub icon: IconSource,
    /// The texts of what is not spendable yet, where it is to be shown.
    pub pending_verification: Option<String>,
    pub pending_incoming: Option<String>,
    pub pending_outgoing: Option<String>,
}

/// A private balance as an extension sees it.
#[derive(Debug, PartialEq, Eq)]
pub struct GatewayPrivateAsset {
    pub asset: String,
    pub symbol: String,
    pub amount: String,
    pub usd: Option<String>,
    pub icon: Option<String>,
    pub pending_verification: Option<String>,
    pub pending_incoming: Option<String>,
    pub pending_outgoing: Option<String>,
}

/// A private balance as an extension sees it: named by its token, or by its label without one.
pub open spec fn presents_asset(row: GatewayPrivateAsset, asset: PrivateAssetRow) -> bool {
    &&& row.asset@ == match asset.token {
        Some(token) => checksum_text(token.value()),
        None => asset.label@,
    }
    &&& row.symbol@ == asset.label@
    &&& row.amount@ == asset.amount@
    &&& optional_text(row.usd) == optional_text(asset.usd)
    &&& optional_text(row.icon) == shared_icon(asset.icon)
    &&& optional_text(row.pending_verification) == optional_text(asset.pending_verification)
    &&& optional_text(row.pending_incoming) == optional_text(asset.pending_incoming)
    &&& optional_text(row.pending_outgoing) == optional_text(asset.pending_outgoing)
}

/// A private balance as an extension sees it.
pub fn private_asset_presentation(asset: &PrivateAssetRow) -> (row: GatewayPrivateAsset)
    ensures
        presents_asset(row, *asset),
        row.symbol@ == asset.label@,
        row.amount@ == asset.amount@,
        optional_text(row.usd) == optional_text(asset.usd),
        optional_text(row.pending_verification) == optional_text(asset.pending_verification),
        optional_text(row.pending_incoming) == optional_text(asset.pending_incoming),
        optional_text(row.pending_outgoing) == optional_text(asset.pending_outgoing),
{
    GatewayPrivateAsset {
        asset: match asset.token {
            Some(token) => token.to_checksum(),
            None => asset.label.clone(),
        },
        symbol: asset.label.clone(),
        amount: asset.amount.clone(),
        usd: asset.usd.clone(),
        icon: shared_icon_path(&asset.icon),
        pending_verification: asset.pending_verification.clone(),
        pending_incoming: asset.pending_incoming.clone(),
        pending_outgoing: asset.pending_outgoing.clone(),
    }
}

/// Where the private balances of a chain stand.
#[derive(Clone, Copy, Debug, PartialEq, Eq, Structural)]
pub enum ChainProgress {
    Idle,
    Loading,
    Syncing,
    Ready,
    Error,
}

/// What the desktop app knows of the private balances of a chain.
pub struct ChainKnowledge {
    pub progress: ChainProgress,
    /// The text of how far it is loaded.
    pub summary: String,
    /// What is being done, and how far it is.
    pub stage: String,
    pub percent: u64,
    /// The chain that the balances at hand are of.
    pub snapshot_chain: Option<u64>,
    pub forms_available: bool,
    pub generation_ready: bool,
}

/// The wallet and the chain that are selected.
pub struct PrivateSelection {
    /// The wallets that can be selected.
    pub wallets: Vec<WalletItem>,
    pub selected_wallet_id: Option<String>,
    /// The wallet that is open.
    pub open_wallet_id: Option<String>,
    /// The value that stands for the selected wallet among those that can be selected.
    pub selected_choice: String,
    pub receive_address: Option<String>,
    pub selected_chain: u64,
    pub unwrap_by_default: bool,
    pub wrapped_native_token: Option<Address>,
    /// Whether private balances are supported on the chain.
    pub chain_has_private_balances: bool,
    pub selection_message: Option<String>,
    pub switching: bool,
    /// Whether a hardware wallet that was asked for could not be opened.
    pub hardware_failed: bool,
    pub chain: Option<ChainKnowledge>,
}

/// Where private balances stand, as an extension sees it.
#[derive(Clone, Copy, Debug, PartialEq, Eq, Structural)]
pub enum GatewayPrivateChainState {
    Idle,
    Loading,
    Syncing,
    Ready,
    Error,
}

/// What an extension sees of the private wallet.
pub struct GatewayPrivateView {
    pub wallets: Vec<GatewayPrivateWallet>,
    pub selected_wallet: Option<String>,
    pub selected_wallet_choice: Option<String>,
    pub receive_address: Option<String>,
    pub selected_chain: u64,
    pub default_unwrap_asset: Option<String>,
    pub selection_message: Option<String>,
    pub message: Option<String>,
    pub forms_available: bool,
    pub generation_ready: bool,
    pub state: GatewayPrivateChainState,
    pub stage_label: Option<String>,
    pub percent: Option<u64>,
    /// Whether the balances at hand are shown.
    pub shows_balances: bool,
}

/// Whether the selected wallet is the one that is open, and can be selected.
pub open spec fn wallet_shown(selection: PrivateSelection) -> bool {
    selection.selected_wallet_id is Some && optional_text(selection.selected_wallet_id)
        == optional_text(selection.open_wallet_id) && offers_wallet(
        selection.wallets@,
        selection.selected_choice@,
    )
}

/// What is said of the selection: the last of these that holds.
pub open spec fn selection_note(selection: PrivateSelection) -> Option<Seq<char>> {
    if selection.hardware_failed {
        Some("Could not open the hardware wallet. Continue in the desktop app."@)
    } else if selection.switching {
        Some("Switching wallet…"@)
    } else {
        optional_text(selection.selection_message)
    }
}

/// Whether the balances at hand are of another chain.
pub open spec fn other_chain(selection: PrivateSelection) -> bool {
    selection.chain matches Some(chain) && (chain.snapshot_chain matches Some(of) && of
        != selection.selected_chain)
}

/// What is said of the private balances.
pub open spec fn chain_message(selection: PrivateSelection) -> Option<Seq<char>> {
    if other_chain(selection) {
        Some("Waiting for current network balances."@)
    } else {
        match selection.chain {
            None => Some("Select a chain to load private balances"@),
            Some(chain) => match chain.progress {
                ChainProgress::Idle => Some("Select a chain to load private balances"@),
                ChainProgress::Loading => Some(chain.summary@),
                ChainProgress::Syncing => Some(chain.summary@),
                ChainProgress::Ready => None,
                // What went wrong may name local paths or endpoints.
                ChainProgress::Error => Some(
                    "Could not load private balances. Open the desktop app for details."@,
                ),
            },
        }
    }
}

/// Where the private balances stand.
pub open spec fn chain_state(selection: PrivateSelection) -> GatewayPrivateChainState {
    if other_chain(selection) {
        GatewayPrivateChainState::Loading
    } else {
        match selection.chain {
            None => GatewayPrivateChainState::Idle,
            Some(chain) => match chain.progress {
                ChainProgress::Idle => GatewayPrivateChainState::Idle,
                ChainProgress::Loading => GatewayPrivateChainState::Loading,
                ChainProgress::Syncing => GatewayPrivateChainState::Syncing,
                ChainProgress::Ready => GatewayPrivateChainState::Ready,
                ChainProgress::Error => GatewayPrivateChainState::Error,
            },
        }
    }
}

/// What an extension sees of the private wallet. Balances and forms are shown only of a wallet that
/// is open and selected, on a chain with private balances, and of that chain.
pub fn gateway_private_view(selection: &PrivateSelection) -> (view: GatewayPrivateView)
    ensures
        wallet_choice_ids(view.wallets@) == wallet_choices_of(selection.wallets@),
        optional_text(view.selected_wallet) == if wallet_shown(*selection) {
            optional_text(selection.selected_wallet_id)
        } else {
            None
        },
        optional_text(view.selected_wallet_choice) == if wallet_shown(*selection) {
            Some(selection.selected_choice@)
        } else {
            None
        },
        optional_text(view.receive_address) == if wallet_shown(*selection)
            && selection.chain_has_private_balances {
            optional_text(selection.receive_address)
        } else {
            None
        },
        view.selected_chain == selection.selected_chain,
        optional_text(view.default_unwrap_asset) == match selection.wrapped_native_token {
            Some(token) => if selection.unwrap_by_default {
                Some(checksum_text(token.value()))
            } else {
                None
            },
            None => None,
        },
        optional_text(view.selection_message) == if !selection.chain_has_private_balances {
            Some("Private balances and Shield are unavailable on public-only chains"@)
        } else {
            selection_note(*selection)
        },
        ({
            let loads = selection.chain_has_private_balances && wallet_shown(*selection);
            let at_hand = loads && !other_chain(*selection);
            &&& optional_text(view.message) == if !selection.chain_has_private_balances {
                None
            } else if !wallet_shown(*selection) {
                Some("Choose a wallet to continue"@)
            } else {
                chain_message(*selection)
            }
            &&& view.state == if loads {
                chain_state(*selection)
            } else {
                GatewayPrivateChainState::Idle
            }
            &&& view.forms_available == (at_hand && (selection.chain matches Some(chain)
                && chain.forms_available))
            &&& view.generation_ready == (at_hand && (selection.chain matches Some(chain)
                && chain.generation_ready))
            &&& match selection.chain {
                Some(chain) => if at_hand && (chain.progress is Loading
                    || chain.progress is Syncing) {
                    optional_text(view.stage_label) == Some(chain.stage@) && view.percent == Some(
                        chain.percent,
                    )
                } else {
                    view.stage_label is None && view.percent is None
                },
                None => view.stage_label is None && view.percent is None,
            }
            &&& view.shows_balances == (at_hand && (selection.chain matches Some(chain)
                && chain.snapshot_chain is Some))
        }),
{
    let mut view = GatewayPrivateView {
        wallets: private_wallet_choices(&selection.wallets),
        selected_wallet: None,
        selected_wallet_choice: None,
        receive_address: None,
        selected_chain: selection.selected_chain,
        default_unwrap_asset: None,
        selection_message: None,
        message: None,
        forms_available: false,
        generation_ready: false,
        state: GatewayPrivateChainState::Idle,
        stage_label: None,
        percent: None,
        shows_balances: false,
    };
    let opened = match (&selection.selected_wallet_id, &selection.open_wallet_id) {
        (Some(selected), Some(open)) => same_text(selected, open),
        _ => false,
    };
    let shown = opened && wallet_is_offered(&selection.wallets, &selection.selected_choice);
    if shown {
        view.selected_wallet = selection.selected_wallet_id.clone();
        view.selected_wallet_choice = Some(selection.selected_choice.clone());
        view.receive_address = selection.receive_address.clone();
    }
    if selection.unwrap_by_default {
        view.default_unwrap_asset =
        match selection.wrapped_native_token {
            Some(token) => Some(token.to_checksum()),
            None => None,
        };
    }
    if !selection.chain_has_private_balances {
        view.receive_address = None;
        view.selection_message =
        Some("Private balances and Shield are unavailable on public-only chains".to_owned());
        return view;
    }
    view.selection_message = selection.selection_message.clone();
    if selection.switching {
        view.selection_message = Some("Switching wallet…".to_owned());
    }
    if selection.hardware_failed {
        view.selection_message =
        Some("Could not open the hardware wallet. Continue in the desktop app.".to_owned());
    }
    if !shown {
        view.message = Some("Choose a wallet to continue".to_owned());
        return view;
    }
    let chain = match &selection.chain {
        Some(chain) => chain,
        None => {
            view.message = Some("Select a chain to load private balances".to_owned());
            return view;
        },
    };
    if let Some(of) = chain.snapshot_chain {
        if of != selection.selected_chain {
            view.state = GatewayPrivateChainState::Loading;
            view.message = Some("Waiting for current network balances.".to_owned());
            return view;
        }
        view.shows_balances = true;
    }
    view.forms_available = chain.forms_available;
    view.generation_ready = chain.generation_ready;
    match chain.progress {
        ChainProgress::Idle => {
            view.message = Some("Select a chain to load private balances".to_owned());
        },
        ChainProgress::Loading => {
            view.state = GatewayPrivateChainState::Loading;
            view.message = Some(chain.summary.clone());
            view.stage_label = Some(chain.stage.clone());
            view.percent = Some(chain.percent);
        },
        ChainProgress::Syncing => {
            view.state = GatewayPrivateChainState::Syncing;
            view.message = Some(chain.summary.clone());
            view.stage_label = Some(chain.stage.clone());
            view.percent = Some(chain.percent);
        },
        ChainProgress::Ready => {
            view.state = GatewayPrivateChainState::Ready;
        },
        ChainProgress::Error => {
            view.state = GatewayPrivateChainState::Error;
            view.message =
            Some("Could not load private balances. Open the desktop app for details.".to_owned());
        },
    }
    view
}

/// The private balances that an extension sees: those at hand, where they are shown.
pub fn shown_private_assets(view: &GatewayPrivateView, rows: &Vec<PrivateAssetRow>) -> (assets: Vec<
    GatewayPrivateAsset,
>)
    ensures
        assets@.len() == if view.shows_balances {
            rows@.len()
        } else {
            0
        },
        forall|i: int|
            0 <= i < assets@.len() ==> presents_asset(#[trigger] assets@[i], rows@[i]),
{
    let mut assets: Vec<GatewayPrivateAsset> = Vec::new();
    if !view.shows_balances {
        return assets;
    }
    let mut i: usize = 0;
    while i < rows.len()
        invariant
            i <= rows@.len(),
            assets@.len() == i,
            forall|j: int| 0 <= j < i ==> presents_asset(#[trigger] assets@[j], rows@[j]),
        decreases rows@.len() - i,
    {
        assets.push(private_asset_presentation(&rows[i]));
        i += 1;
    }
    assets
}

/// What the desktop app is doing when an extension asks for another wallet.
pub struct SelectionSurroundings {
    pub vault_unlocked: bool,
    pub wallet_open: bool,
    pub dialog_open: bool,
    pub switching: bool,
    pub resetting: bool,
    pub gateway_switching: bool,
    pub reset_allowed: bool,
    pub hardware_supported: bool,
}

/// What becomes of a wallet that an extension asks for.
pub struct WalletSelection {
    /// Whether the wallet is selected.
    pub selected: bool,
    /// Whether a device takes part.
    pub hardware: bool,
    pub message: Option<&'static str>,
}

/// Whether a wallet may be selected now.
pub open spec fn selection_free(surroundings: SelectionSurroundings) -> bool {
    surroundings.vault_unlocked && surroundings.wallet_open && !surroundings.dialog_open
        && !surroundings.switching && !surroundings.resetting && !surroundings.gateway_switching
        && surroundings.reset_allowed
}

/// What becomes of a wallet that an extension asks for. A device that is not supported is refused;
/// one that is supported is asked in the desktop app, unless the wallet is selected already.
pub fn select_gateway_wallet(
    wallet_id: &str,
    wallets: &Vec<WalletItem>,
    hardware: bool,
    selected_wallet_id: Option<&str>,
    surroundings: &SelectionSurroundings,
) -> (selection: WalletSelection)
    ensures
        ({
            let free = offers_wallet(wallets@, wallet_id@) && selection_free(*surroundings);
            if !free {
                !selection.selected && (selection.message matches Some(text) && text@
                    == "Wallet selection is busy or unavailable. Open the desktop app to continue."@)
            } else if hardware && !surroundings.hardware_supported {
                !selection.selected && (selection.message matches Some(text) && text@
                    == "Hardware wallet support is unavailable in this desktop build."@)
            } else {
                &&& selection.selected
                &&& selection.hardware == hardware
                &&& if hardware && wallet_text(selected_wallet_id) != Some(wallet_id@) {
                    selection.message matches Some(text) && text@
                        == "Continue wallet selection in the desktop app."@
                } else {
                    selection.message is None
                }
            }
        }),
{
    if !wallet_is_offered(wallets, wallet_id) || !surroundings.vault_unlocked
        || !surroundings.wallet_open || surroundings.dialog_open || surroundings.switching
        || surroundings.resetting || surroundings.gateway_switching || !surroundings.reset_allowed {
        return WalletSelection {
            selected: false,
            hardware,
            message: Some(
                "Wallet selection is busy or unavailable. Open the desktop app to continue.",
            ),
        };
    }
    if hardware && !surroundings.hardware_supported {
        return WalletSelection {
            selected: false,
            hardware,
            message: Some("Hardware wallet support is unavailable in this desktop build."),
        };
    }
    let already = match selected_wallet_id {
        Some(selected) => same_text(selected, wallet_id),
        None => false,
    };
    let message = if hardware && !already {
        Some("Continue wallet selection in the desktop app.")
    } else {
        None
    };
    WalletSelection { selected: true, hardware, message }
}

/// A Public balance with its texts.
pub struct BalanceEntry {
    /// The token, or none for the native one.
    pub token: Option<Address>,
    pub amount: U256,
    pub symbol: String,
    pub amount_label: String,
    pub usd: Option<String>,
    pub icon: IconSource,
}

/// A Public balance as an extension sees it.
#[derive(Debug, PartialEq, Eq)]
pub struct GatewayAssetBalance {
    pub asset: String,
    pub symbol: String,
    pub amount: String,
    pub usd: Option<String>,
    pub icon: Option<String>,
}

/// What a balance says.
pub struct BalanceId {
    pub asset: Seq<char>,
    pub symbol: Seq<char>,
    pub amount: Seq<char>,
    pub usd: Option<Seq<char>>,
    pub icon: Option<Seq<char>>,
}

impl View for GatewayAssetBalance {
    type V = BalanceId;

    open spec fn view(&self) -> BalanceId {
        BalanceId {
            asset: self.asset@,
            symbol: self.symbol@,
            amount: self.amount@,
            usd: optional_text(self.usd),
            icon: optional_text(self.icon),
        }
    }
}

/// A balance as an extension sees it.
pub open spec fn balance_of(entry: BalanceEntry) -> BalanceId {
    BalanceId {
        asset: match entry.token {
            Some(token) => checksum_text(token.value()),
            None => "native"@,
        },
        symbol: entry.symbol@,
        amount: entry.amount_label@,
        usd: optional_text(entry.usd),
        icon: shared_icon(entry.icon),
    }
}

/// The balances that are not 0, in order.
pub open spec fn balances_of(entries: Seq<BalanceEntry>) -> Seq<BalanceId>
    decreases entries.len(),
{
    if entries.len() == 0 {
        Seq::empty()
    } else if entries.last().amount@ != 0 {
        balances_of(entries.drop_last()).push(balance_of(entries.last()))
    } else {
        balances_of(entries.drop_last())
    }
}

/// What several balances say.
pub open spec fn balance_ids(balances: Seq<GatewayAssetBalance>) -> Seq<BalanceId> {
    balances.map_values(|balance: GatewayAssetBalance| balance@)
}

/// The balances of an account that are not 0, as an extension sees them.
pub fn shown_balances(entries: &Vec<BalanceEntry>) -> (balances: Vec<GatewayAssetBalance>)
    ensures
        balance_ids(balances@) == balances_of(entries@),
        ({
            let kept = entries@.filter(|entry: BalanceEntry| entry.amount@ != 0);
            &&& balances@.len() == kept.len()
            &&& forall|i: int|
                #![trigger balances@[i]]
                0 <= i < balances@.len() ==> balances@[i].symbol@ == kept[i].symbol@
                    && balances@[i].amount@ == kept[i].amount_label@ && balances@[i].asset@ == (
                match kept[i].token {
                    Some(token) => checksum_text(token.value()),
                    None => "native"@,
                }) && optional_text(balances@[i].usd) == optional_text(kept[i].usd)
                    && optional_text(balances@[i].icon) == shared_icon(kept[i].icon)
        }),
{
    let mut balances: Vec<GatewayAssetBalance> = Vec::new();
    let mut i: usize = 0;
    assert(balance_ids(balances@) =~= Seq::<BalanceId>::empty());
    while i < entries.len()
        invariant
            i <= entries@.len(),
            balance_ids(balances@) == balances_of(entries@.take(i as int)),
        decreases entries@.len() - i,
    {
        let ghost before = balances@;
        proof {
            assert(entries@.take(i + 1).drop_last() =~= entries@.take(i as int));
            assert(entries@.take(i + 1).last() == entries@[i as int]);
        }
        if !entries[i].amount.is_zero() {
            let balance = GatewayAssetBalance {
                asset: match entries[i].token {
                    Some(token) => token.to_checksum(),
                    None => "native".to_owned(),
                },
                symbol: entries[i].symbol.clone(),
                amount: entries[i].amount_label.clone(),
                usd: entries[i].usd.clone(),
                icon: shared_icon_path(&entries[i].icon),
            };
            assert(balance@ == balance_of(entries@[i as int]));
            balances.push(balance);
            assert(balance_ids(balances@) =~= balance_ids(before).push(balance@));
        }
        i += 1;
    }
    assert(entries@.take(i as int) =~= entries@);
    proof {
        positive_balances_are_shown_in_order(entries@);
        assert forall|j: int| 0 <= j < balances@.len() implies (#[trigger] balances@[j])@
            == balances_of(entries@)[j] by {
            assert(balance_ids(balances@)[j] == balances_of(entries@)[j]);
        }
        assert(balance_ids(balances@).len() == balances_of(entries@).len());
    }
    balances
}

/// Whether an account can act in a wallet.
pub open spec fn acts_in(account: PublicAccountMetadata, wallet: Seq<char>) -> bool {
    account@.scoped_to(wallet) && account@.status == PublicAccountStatus::Active
}

/// The positions of the accounts whose balances an extension sees: those that can act in the open
/// wallet.
pub open spec fn shown_accounts(accounts: Seq<PublicAccountMetadata>, wallet: Seq<char>) -> Seq<
    int,
>
    decreases accounts.len(),
{
    if accounts.len() == 0 {
        Seq::empty()
    } else if acts_in(accounts.last(), wallet) {
        shown_accounts(accounts.drop_last(), wallet).push(accounts.len() - 1)
    } else {
        shown_accounts(accounts.drop_last(), wallet)
    }
}

/// The positions of the accounts whose balances an extension sees; none where no wallet is open.
pub fn public_view_accounts(accounts: &Vec<PublicAccountMetadata>, wallet: Option<&str>) -> (shown:
    Vec<usize>)
    ensures
        shown@.map_values(|at: usize| at as int) == match wallet {
            Some(open) => shown_accounts(accounts@, open@),
            None => Seq::empty(),
        },
{
    let mut shown: Vec<usize> = Vec::new();
    let ghost number = |at: usize| at as int;
    let open = match wallet {
        Some(open) => open,
        None => {
            assert(shown@.map_values(number) =~= Seq::<int>::empty());
            return shown;
        },
    };
    let mut i: usize = 0;
    assert(shown@.map_values(number) =~= Seq::<int>::empty());
    while i < accounts.len()
        invariant
            i <= accounts@.len(),
            number == (|at: usize| at as int),
            shown@.map_values(number) == shown_accounts(accounts@.take(i as int), open@),
        decreases accounts@.len() - i,
    {
        let ghost before = shown@;
        proof {
            assert(accounts@.take(i + 1).drop_last() =~= accounts@.take(i as int));
            assert(accounts@.take(i + 1).last() == accounts@[i as int]);
        }
        if accounts[i].is_active_for_wallet(open) {
            shown.push(i);
            assert(shown@.map_values(number) =~= before.map_values(number).push(i as int));
        }
        i += 1;
    }
    assert(accounts@.take(i as int) =~= accounts@);
    shown
}

/// The account that is shown as selected: the selected one, where it can act in the open wallet.
pub fn public_view_selection(selected: Option<&PublicAccountMetadata>, wallet: Option<&str>) -> (
    shown: Option<String>)
    ensures
        optional_text(shown) == match (selected, wallet) {
            (Some(account), Some(open)) => if acts_in(*account, open@) {
                Some(account.public_account_uuid@)
            } else {
                None
            },
            _ => None,
        },
{
    match (selected, wallet) {
        (Some(account), Some(open)) => if account.is_active_for_wallet(open) {
            Some(account.public_account_uuid.clone())
        } else {
            None
        },
        _ => None,
    }
}

/// The balances that were read for an account.
pub struct AccountObservation {
    pub account: PublicAccountMetadata,
    pub balances: Vec<BalanceEntry>,
}

/// The Public balances that were read, with the chain that they are of.
pub struct PublicBalances {
    pub chain_id: u64,
    pub accounts: Vec<AccountObservation>,
}

/// What the desktop app knows of the Public accounts.
pub struct PublicKnowledge {
    /// The wallet that is open.
    pub wallet: Option<String>,
    pub selected: Option<PublicAccountMetadata>,
    pub selected_chain: u64,
    pub refreshing: bool,
    pub balance_failed: bool,
    pub accounts: Vec<PublicAccountMetadata>,
    /// The texts of what the accounts hold in all, in the same order, as far as they are known.
    pub totals: Vec<Option<String>>,
    pub balances: Option<PublicBalances>,
}

/// What an extension sees of an account.
#[derive(Debug, PartialEq, Eq)]
pub struct GatewayAccountBalances {
    pub account_uuid: String,
    pub total: Option<String>,
    pub assets: Vec<GatewayAssetBalance>,
}

/// What is said of an account.
pub struct AccountBalancesId {
    pub account_uuid: Seq<char>,
    pub total: Option<Seq<char>>,
    pub assets: Seq<BalanceId>,
}

impl View for GatewayAccountBalances {
    type V = AccountBalancesId;

    open spec fn view(&self) -> AccountBalancesId {
        AccountBalancesId {
            account_uuid: self.account_uuid@,
            total: optional_text(self.total),
            assets: balance_ids(self.assets@),
        }
    }
}

/// What an extension sees of the Public accounts.
pub struct GatewayPublicView {
    pub selected_account: Option<String>,
    pub selected_chain: Option<u64>,
    pub refreshing: bool,
    pub balance_error: bool,
    pub balances: Vec<GatewayAccountBalances>,
}

/// What was read for an account, at the first place where it stands unchanged.
pub open spec fn observed(
    observations: Seq<AccountObservation>,
    account: AccountId,
    from: int,
) -> Seq<BalanceId>
    decreases observations.len() - from,
{
    if from < 0 || from >= observations.len() {
        Seq::empty()
    } else if observations[from].account@ == account {
        balances_of(observations[from].balances@)
    } else {
        observed(observations, account, from + 1)
    }
}

/// What an extension sees of an account: its balances where they were read on the selected chain.
pub open spec fn account_balances(known: PublicKnowledge, at: int) -> AccountBalancesId {
    AccountBalancesId {
        account_uuid: known.accounts@[at].public_account_uuid@,
        total: if at < known.totals@.len() {
            optional_text(known.totals@[at])
        } else {
            None
        },
        assets: match known.balances {
            Some(read) => if read.chain_id == known.selected_chain {
                observed(read.accounts@, known.accounts@[at]@, 0)
            } else {
                Seq::empty()
            },
            None => Seq::empty(),
        },
    }
}

/// What an extension sees of the accounts at these places.
pub open spec fn listed_balances(known: PublicKnowledge, places: Seq<int>) -> Seq<
    AccountBalancesId,
> {
    places.map_values(|at: int| account_balances(known, at))
}

/// What is said of several accounts.
pub open spec fn account_balances_ids(list: Seq<GatewayAccountBalances>) -> Seq<
    AccountBalancesId,
> {
    list.map_values(|entry: GatewayAccountBalances| entry@)
}

fn observed_balances(read: &PublicBalances, account: &PublicAccountMetadata) -> (balances: Vec<
    GatewayAssetBalance,
>)
    ensures
        balance_ids(balances@) == observed(read.accounts@, account@, 0),
{
    let ghost goal = observed(read.accounts@, account@, 0);
    let mut i: usize = 0;
    while i < read.accounts.len()
        invariant
            i <= read.accounts@.len(),
            goal == observed(read.accounts@, account@, i as int),
            goal == observed(read.accounts@, account@, 0),
        decreases read.accounts@.len() - i,
    {
        if read.accounts[i].account.same(account) {
            return shown_balances(&read.accounts[i].balances);
        }
        i += 1;
    }
    let balances: Vec<GatewayAssetBalance> = Vec::new();
    assert(balance_ids(balances@) =~= Seq::<BalanceId>::empty());
    balances
}

/// What an extension sees of the Public accounts: those that can act in the open wallet, with
/// their balances on the selected chain. Without an open wallet it sees nothing.
pub fn gateway_public_view(known: &PublicKnowledge) -> (view: GatewayPublicView)
    ensures
        match known.wallet {
            None => view.selected_account is None && view.selected_chain is None
                && !view.refreshing && !view.balance_error && view.balances@.len() == 0,
            Some(open) => {
                &&& optional_text(view.selected_account) == match known.selected {
                    Some(account) => if acts_in(account, open@) {
                        Some(account.public_account_uuid@)
                    } else {
                        None
                    },
                    None => None,
                }
                &&& view.selected_chain == Some(known.selected_chain)
                &&& view.refreshing == known.refreshing
                &&& view.balance_error == known.balance_failed
                &&& account_balances_ids(view.balances@) == listed_balances(
                    *known,
                    shown_accounts(known.accounts@, open@),
                )
            },
        },
{
    let open = match &known.wallet {
        Some(open) => open,
        None => return GatewayPublicView {
            selected_account: None,
            selected_chain: None,
            refreshing: false,
            balance_error: false,
            balances: Vec::new(),
        },
    };
    let shown = public_view_accounts(&known.accounts, Some(open.as_str()));
    let ghost places = shown_accounts(known.accounts@, open@);
    let ghost number = |at: usize| at as int;
    assert(shown@.map_values(number) == places);
    let mut balances: Vec<GatewayAccountBalances> = Vec::new();
    let mut i: usize = 0;
    assert(account_balances_ids(balances@) =~= listed_balances(*known, places.take(0)));
    proof {
        lemma_shown_in_range(known.accounts@, open@);
    }
    while i < shown.len()
        invariant
            i <= shown@.len(),
            number == (|at: usize| at as int),
            shown@.map_values(number) == places,
            forall|j: int| 0 <= j < places.len() ==> 0 <= #[trigger] places[j] < known.accounts@.len(),
            account_balances_ids(balances@) == listed_balances(*known, places.take(i as int)),
        decreases shown@.len() - i,
    {
        let ghost before = balances@;
        let at: usize = shown[i];
        assert(shown@.map_values(number)[i as int] == at as int);
        assert(places[i as int] == at as int);
        let account = &known.accounts[at];
        let assets = match &known.balances {
            Some(read) => if read.chain_id == known.selected_chain {
                observed_balances(read, account)
            } else {
                Vec::new()
            },
            None => Vec::new(),
        };
        let entry = GatewayAccountBalances {
            account_uuid: account.public_account_uuid.clone(),
            total: if at < known.totals.len() {
                known.totals[at].clone()
            } else {
                None
            },
            assets,
        };
        proof {
            assert(Seq::<GatewayAssetBalance>::empty().map_values(
                |balance: GatewayAssetBalance| balance@,
            ) =~= Seq::<BalanceId>::empty());
            assert(entry@.assets =~= account_balances(*known, at as int).assets);
            assert(entry@ == account_balances(*known, at as int));
        }
        balances.push(entry);
        proof {
            assert(account_balances_ids(balances@) =~= account_balances_ids(before).push(entry@));
            assert(listed_balances(*known, places.take(i + 1)) =~= listed_balances(
                *known,
                places.take(i as int),
            ).push(entry@));
        }
        i += 1;
    }
    assert(places.take(i as int) =~= places);
    GatewayPublicView {
        selected_account: public_view_selection(
            match &known.selected {
                Some(account) => Some(account),
                None => None,
            },
            Some(open.as_str()),
        ),
        selected_chain: Some(known.selected_chain),
        refreshing: known.refreshing,
        balance_error: known.balance_failed,
        balances,
    }
}

proof fn lemma_shown_in_range(accounts: Seq<PublicAccountMetadata>, wallet: Seq<char>)
    ensures
        forall|j: int|
            0 <= j < shown_accounts(accounts, wallet).len() ==> 0 <= #[trigger] shown_accounts(
                accounts,
                wallet,
            )[j] < accounts.len(),
    decreases accounts.len(),
{
    if accounts.len() > 0 {
        lemma_shown_in_range(accounts.drop_last(), wallet);
        let before = shown_accounts(accounts.drop_last(), wallet);
        let shown = shown_accounts(accounts, wallet);
        assert forall|j: int| 0 <= j < shown.len() implies 0 <= #[trigger] shown[j]
            < accounts.len() by {
            if j < before.len() {
                assert(shown[j] == before[j]);
            }
        }
    }
}

/// What an extension asks for.
pub enum GatewayPublicCommand {
    SelectAccount { public_account_uuid: String },
    SelectChain { chain_id: u64 },
    RefreshBalances,
    Other,
}

/// What is done about it.
#[derive(Clone, Copy, Debug, PartialEq, Eq, Structural)]
pub enum PublicCommandEffect {
    /// The command is not understood, or no wallet is open.
    Ignored,
    /// The command changes nothing, and is answered.
    Nothing,
    SelectAccount,
    SelectChain,
    Refresh,
}

/// What is done about a command: accounts are selected that can act in the open wallet, chains that
/// are configured, and balances are read unless they are being read.
pub fn apply_gateway_public_command(
    command: &GatewayPublicCommand,
    wallet: Option<&str>,
    accounts: &Vec<PublicAccountMetadata>,
    chain_configured: bool,
    refreshing: bool,
) -> (effect: PublicCommandEffect)
    ensures
        effect == match wallet {
            None => PublicCommandEffect::Ignored,
            Some(open) => match *command {
                GatewayPublicCommand::SelectAccount { public_account_uuid } => if exists|i: int|
                    0 <= i < accounts@.len() && (#[trigger] accounts@[i]).public_account_uuid@
                        == public_account_uuid@ && acts_in(accounts@[i], open@) {
                    PublicCommandEffect::SelectAccount
                } else {
                    PublicCommandEffect::Nothing
                },
                GatewayPublicCommand::SelectChain { .. } => if chain_configured {
                    PublicCommandEffect::SelectChain
                } else {
                    PublicCommandEffect::Nothing
                },
                GatewayPublicCommand::RefreshBalances => if refreshing {
                    PublicCommandEffect::Nothing
                } else {
                    PublicCommandEffect::Refresh
                },
                GatewayPublicCommand::Other => PublicCommandEffect::Ignored,
            },
        },
{
    let open = match wallet {
        Some(open) => open,
        None => return PublicCommandEffect::Ignored,
    };
    match command {
        GatewayPublicCommand::SelectAccount { public_account_uuid } => {
            let mut i: usize = 0;
            while i < accounts.len()
                invariant
                    i <= accounts@.len(),
                    wallet matches Some(own) && own@ == open@,
                    forall|j: int|
                        0 <= j < i ==> !((#[trigger] accounts@[j]).public_account_uuid@
                            == public_account_uuid@ && acts_in(accounts@[j], open@)),
                    *command matches GatewayPublicCommand::SelectAccount {
                        public_account_uuid: asked,
                    } && asked@ == public_account_uuid@,
                decreases accounts@.len() - i,
            {
                if accounts[i].public_account_uuid == *public_account_uuid
                    && accounts[i].is_active_for_wallet(open) {
                    assert(accounts@[i as int].public_account_uuid@ == public_account_uuid@);
                    return PublicCommandEffect::SelectAccount;
                }
                i += 1;
            }
            PublicCommandEffect::Nothing
        },
        GatewayPublicCommand::SelectChain { .. } => if chain_configured {
            PublicCommandEffect::SelectChain
        } else {
            PublicCommandEffect::Nothing
        },
        GatewayPublicCommand::RefreshBalances => if refreshing {
            PublicCommandEffect::Nothing
        } else {
            PublicCommandEffect::Refresh
        },
        GatewayPublicCommand::Other => PublicCommandEffect::Ignored,
    }
}

/// Nothing of a wallet is shown that is not open: no address, no balance and no form.
pub proof fn locked_wallets_show_nothing(selection: PrivateSelection)
    requires
        selection.open_wallet_id is None,
    ensures
        !wallet_shown(selection),
{
}

/// Of the balances exactly the positive ones are shown, in their order, each with what is said of
/// it.
pub proof fn positive_balances_are_shown_in_order(entries: Seq<BalanceEntry>)
    ensures
        ({
            let kept = entries.filter(|entry: BalanceEntry| entry.amount@ != 0);
            let shown = balances_of(entries);
            &&& shown.len() == kept.len()
            &&& forall|i: int|
                #![trigger shown[i]]
                0 <= i < shown.len() ==> shown[i].symbol == kept[i].symbol@ && shown[i].amount
                    == kept[i].amount_label@ && shown[i].asset == (match kept[i].token {
                    Some(token) => checksum_text(token.value()),
                    None => "native"@,
                }) && shown[i].usd == optional_text(kept[i].usd) && shown[i].icon == shared_icon(
                    kept[i].icon,
                )
        }),
    decreases entries.len(),
{
    reveal(Seq::filter);
    if entries.len() > 0 {
        positive_balances_are_shown_in_order(entries.drop_last());
    }
}

/// The parts of a shown balance are its own.
pub proof fn balances_are_told_apart(a: GatewayAssetBalance, b: GatewayAssetBalance)
    ensures
        a@ == b@ ==> a.asset@ == b.asset@ && a.symbol@ == b.symbol@ && a.amount@ == b.amount@ && (
        a.usd is Some <==> b.usd is Some) && (a.icon is Some <==> b.icon is Some),
        a@.asset == a.asset@ && a@.symbol == a.symbol@ && a@.amount == a.amount@,
{
}

/// A wallet is offered under its own identifier and label, and named by its device.
pub proof fn wallets_are_offered_as_they_are(item: WalletItem, choice: GatewayPrivateWallet)
    ensures
        choice@ == wallet_choice(item) ==> choice.wallet_id@ == item.wallet_id@ && choice.label@
            == item.label@ && (choice.hardware is Some <==> item.hardware is Some),
        item.hardware is None <==> wallet_choice(item).hardware is None,
        item.hardware == Some(HardwareDeviceKind::Ledger) ==> wallet_choice(item).hardware == Some(
            "ledger"@,
        ),
        item.hardware == Some(HardwareDeviceKind::Trezor) ==> wallet_choice(item).hardware == Some(
            "trezor"@,
        ),
{
}

/// A wallet can be selected exactly where one of the items is it.
pub proof fn offered_wallets_are_listed(items: Seq<WalletItem>, wallet_id: Seq<char>)
    ensures
        offers_wallet(items, wallet_id) <==> exists|i: int|
            0 <= i < items.len() && (#[trigger] items[i]).wallet_id@ == wallet_id,
{
}

/// An asset is presented with its own symbol and amounts, under its token or else its label.
pub proof fn assets_are_presented_as_they_are(row: GatewayPrivateAsset, asset: PrivateAssetRow)
    requires
        presents_asset(row, asset),
    ensures
        row.symbol@ == asset.label@,
        row.amount@ == asset.amount@,
        asset.token is None ==> row.asset@ == asset.label@,
        asset.token matches Some(token) ==> row.asset@ == checksum_text(token.value()),
        optional_text(row.usd) == optional_text(asset.usd),
        optional_text(row.icon) == shared_icon(asset.icon),
        optional_text(row.pending_verification) == optional_text(asset.pending_verification),
        optional_text(row.pending_incoming) == optional_text(asset.pending_incoming),
        optional_text(row.pending_outgoing) == optional_text(asset.pending_outgoing),
{
}

/// A wallet is shown only where it is selected, open and offered.
pub proof fn shown_wallets_are_selected_open_and_offered(selection: PrivateSelection)
    ensures
        wallet_shown(selection) <==> (selection.selected_wallet_id matches Some(selected)
            && selection.open_wallet_id matches Some(open) && selected@ == open@ && exists|i: int|
            0 <= i < selection.wallets@.len() && (#[trigger] selection.wallets@[i]).wallet_id@
                == selection.selected_choice@),
{
}

/// What is said of a selection: that the device failed before that the wallet is switching, and both
/// before any other note.
pub proof fn failures_are_said_first(selection: PrivateSelection)
    ensures
        selection.hardware_failed ==> selection_note(selection) == Some(
            "Could not open the hardware wallet. Continue in the desktop app."@,
        ),
        !selection.hardware_failed && selection.switching ==> selection_note(selection) == Some(
            "Switching wallet…"@,
        ),
        !selection.hardware_failed && !selection.switching ==> selection_note(selection)
            == optional_text(selection.selection_message),
{
}

/// The balances of another chain are never taken for those of the selected one: they count as loading.
pub proof fn balances_of_another_chain_are_waited_for(
    selection: PrivateSelection,
    chain: ChainKnowledge,
    of: u64,
)
    requires
        selection.chain == Some(chain),
        chain.snapshot_chain == Some(of),
    ensures
        other_chain(selection) <==> of != selection.selected_chain,
        of != selection.selected_chain ==> chain_state(selection) is Loading && chain_message(
            selection,
        ) == Some("Waiting for current network balances."@),
{
}

/// The state of a chain is the one it is in, and only a chain that is ready says nothing. What went
/// wrong is not told.
pub proof fn chains_are_shown_as_they_are(selection: PrivateSelection)
    requires
        !other_chain(selection),
    ensures
        match selection.chain {
            None => chain_state(selection) is Idle && chain_message(selection) is Some,
            Some(chain) => {
                &&& chain.progress is Idle <==> chain_state(selection) is Idle
                &&& chain.progress is Loading <==> chain_state(selection) is Loading
                &&& chain.progress is Syncing <==> chain_state(selection) is Syncing
                &&& chain.progress is Ready <==> chain_state(selection) is Ready
                &&& chain.progress is Error <==> chain_state(selection) is Error
                &&& chain.progress is Ready <==> chain_message(selection) is None
                &&& chain.progress is Loading || chain.progress is Syncing ==> chain_message(
                    selection,
                ) == Some(chain.summary@)
                &&& chain.progress is Error ==> chain_message(selection) == Some(
                    "Could not load private balances. Open the desktop app for details."@,
                )
            },
        },
        selection.chain is None ==> !other_chain(selection),
{
}

/// A wallet can be selected from outside only while the vault is unlocked, a wallet is open, and
/// nothing else is under way.
pub proof fn selections_wait_for_everything_else(surroundings: SelectionSurroundings)
    ensures
        !surroundings.vault_unlocked ==> !selection_free(surroundings),
        !surroundings.wallet_open ==> !selection_free(surroundings),
        surroundings.dialog_open ==> !selection_free(surroundings),
        surroundings.switching ==> !selection_free(surroundings),
        surroundings.resetting ==> !selection_free(surroundings),
        surroundings.gateway_switching ==> !selection_free(surroundings),
        !surroundings.reset_allowed ==> !selection_free(surroundings),
        surroundings.vault_unlocked && surroundings.wallet_open && surroundings.reset_allowed
            && !surroundings.dialog_open && !surroundings.switching && !surroundings.resetting
            && !surroundings.gateway_switching ==> selection_free(surroundings),
{
}

/// An account is shown exactly where it belongs to the open wallet and is active. The shown places
/// stand in the order of the accounts.
pub proof fn shown_accounts_act_in_the_wallet(
    accounts: Seq<PublicAccountMetadata>,
    wallet: Seq<char>,
    at: int,
)
    ensures
        shown_accounts(accounts, wallet).contains(at) <==> 0 <= at < accounts.len()
            && accounts[at]@.scoped_to(wallet) && accounts[at].status is Active,
        forall|i: int, j: int|
            0 <= i < j < shown_accounts(accounts, wallet).len() ==> #[trigger] shown_accounts(
                accounts,
                wallet,
            )[i] < #[trigger] shown_accounts(accounts, wallet)[j],
    decreases accounts.len(),
{
    if accounts.len() > 0 {
        let last = accounts.len() - 1;
        let head = shown_accounts(accounts.drop_last(), wallet);
        shown_accounts_act_in_the_wallet(accounts.drop_last(), wallet, at);
        lemma_shown_in_range(accounts.drop_last(), wallet);
        if acts_in(accounts.last(), wallet) {
            let all = shown_accounts(accounts, wallet);
            assert(all == head.push(last));
            if head.contains(at) {
                let k = choose|k: int| 0 <= k < head.len() && head[k] == at;
                assert(all[k] == at);
            }
            if at == last {
                assert(all[head.len() as int] == at);
            }
            if all.contains(at) && at != last {
                let k = choose|k: int| 0 <= k < all.len() && all[k] == at;
                assert(head[k] == at);
            }
        }
        if at < last {
            assert(0 <= at ==> accounts.drop_last()[at] == accounts[at]);
        }
        if head.contains(last) {
            let k = choose|k: int| 0 <= k < head.len() && head[k] == last;
            assert(0 <= head[k] < last);
        }
    }
}

/// What was observed of an account is that of the first observation of it; of an account that was
/// not observed nothing is shown.
pub proof fn observations_are_of_the_account(
    observations: Seq<AccountObservation>,
    account: AccountId,
    from: int,
    at: int,
)
    requires
        0 <= from,
    ensures
        (forall|i: int|
            from <= i < observations.len() ==> (#[trigger] observations[i]).account@ != account)
            ==> observed(observations, account, from).len() == 0,
        from <= at < observations.len() && observations[at].account@ == account && (forall|i: int|
            from <= i < at ==> (#[trigger] observations[i]).account@ != account) ==> observed(
            observations,
            account,
            from,
        ) == balances_of(observations[at].balances@),
    decreases observations.len() - from,
{
    if from < observations.len() {
        if observations[from].account@ != account {
            observations_are_of_the_account(observations, account, from + 1, at);
        }
    }
}

/// The balances of an account are listed under its identifier with its own total, and only those of
/// the selected chain.
pub proof fn listed_balances_are_of_the_selected_chain(known: PublicKnowledge, at: int)
    requires
        0 <= at < known.accounts@.len(),
    ensures
        account_balances(known, at).account_uuid == known.accounts@[at].public_account_uuid@,
        at < known.totals@.len() ==> account_balances(known, at).total == optional_text(
            known.totals@[at],
        ),
        known.balances is None ==> account_balances(known, at).assets.len() == 0,
        known.balances matches Some(read) && read.chain_id != known.selected_chain
            ==> account_balances(known, at).assets.len() == 0,
        known.balances matches Some(read) ==> (read.chain_id == known.selected_chain
            ==> account_balances(known, at).assets == observed(
            read.accounts@,
            known.accounts@[at]@,
            0,
        )),
{
}

/// Every shown account is listed with its balances, in order.
pub proof fn every_shown_account_is_listed(known: PublicKnowledge, places: Seq<int>, i: int)
    requires
        0 <= i < places.len(),
    ensures
        listed_balances(known, places).len() == places.len(),
        listed_balances(known, places)[i] == account_balances(known, places[i]),
{
}

/// Wallets, balances and accounts are shown one by one, in their order.
pub proof fn shown_lists_are_taken_in_order(
    wallets: Seq<GatewayPrivateWallet>,
    items: Seq<WalletItem>,
    balances: Seq<GatewayAssetBalance>,
    accounts: Seq<GatewayAccountBalances>,
    at: int,
)
    ensures
        wallet_choice_ids(wallets).len() == wallets.len(),
        0 <= at < wallets.len() ==> wallet_choice_ids(wallets)[at] == wallets[at]@,
        wallet_choices_of(items).len() == items.len(),
        0 <= at < items.len() ==> wallet_choices_of(items)[at] == wallet_choice(items[at]),
        balance_ids(balances).len() == balances.len(),
        0 <= at < balances.len() ==> balance_ids(balances)[at] == balances[at]@,
        account_balances_ids(accounts).len() == accounts.len(),
        0 <= at < accounts.len() ==> account_balances_ids(accounts)[at] == accounts[at]@,
{
}

/// A balance says its own symbol and its own amount, and names its token or that it is native.
pub proof fn balances_say_their_own_amount(entry: BalanceEntry)
    ensures
        balance_of(entry).symbol == entry.symbol@,
        balance_of(entry).amount == entry.amount_label@,
        entry.token is None ==> balance_of(entry).asset == "native"@,
        entry.token matches Some(token) ==> balance_of(entry).asset == checksum_text(token.value()),
        balance_of(entry).usd == optional_text(entry.usd),
        balance_of(entry).icon == shared_icon(entry.icon),
{
}

/// Where no chain is loaded the choice of one is asked for.
pub proof fn idle_chains_ask_for_a_choice(selection: PrivateSelection)
    ensures
        selection.chain is None ==> chain_message(selection) == Some(
            "Select a chain to load private balances"@,
        ),
        !other_chain(selection) ==> (selection.chain matches Some(chain) ==> (chain.progress is Idle
            ==> chain_message(selection) == Some("Select a chain to load private balances"@))),
{
}

/// Everything that is told of a `GatewayPrivateWallet` is its own, under its own name.
pub proof fn gateway_private_wallet_is_told_as_it_is(kept: GatewayPrivateWallet)
    ensures
        kept@.wallet_id == kept.wallet_id@,
        kept@.label == kept.label@,
        kept.hardware matches Some(text) ==> kept@.hardware == Some(text@),
        kept.hardware is None ==> kept@.hardware is None,
{
}

/// Everything that is told of a `GatewayAssetBalance` is its own, under its own name.
pub proof fn gateway_asset_balance_is_told_as_it_is(kept: GatewayAssetBalance)
    ensures
        kept@.asset == kept.asset@,
        kept@.symbol == kept.symbol@,
        kept@.amount == kept.amount@,
        kept.usd matches Some(text) ==> kept@.usd == Some(text@),
        kept.usd is None ==> kept@.usd is None,
        kept.icon matches Some(text) ==> kept@.icon == Some(text@),
        kept.icon is None ==> kept@.icon is None,
{
}

/// Everything that is told of a `GatewayAccountBalances` is its own, under its own name.
pub proof fn gateway_account_balances_is_told_as_it_is(kept: GatewayAccountBalances)
    ensures
        kept@.account_uuid == kept.account_uuid@,
        kept.total matches Some(text) ==> kept@.total == Some(text@),
        kept.total is None ==> kept@.total is None,
        kept@.assets == balance_ids(kept.assets@),
{
}

} // verus!
