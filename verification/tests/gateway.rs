//! The gateway: switching wallets, pairing, the listener and what extensions see.
use wallet::accounts::{
    PublicAccountMetadata, PublicAccountScope, PublicAccountSource, PublicAccountStatus,
};
use wallet::address::Address;
use wallet::gateway::draft_options::{shared_icon_path, submission_context, IconSource};
use wallet::gateway::handoff::{
    advance_gateway_hardware_wallet_switch, begin_confirmed_switch, confirm_switch, load_switch,
    reconcile_switches, switch_dialog_closed, switch_question, switch_target_label,
    switch_transition, GatewaySwitchContinuation, GatewaySwitchDialog, GatewayWalletSwitchRequest,
    HardwareAccountRow, HardwareUnlock, SwitchPhase, SwitchSurroundings, WaitingSwitch,
    WalletGenerations,
};
use wallet::gateway::install::{
    install_addresses, install_dialog_listener, InstallAddress, InterfaceListing, IpAddress,
};
use wallet::gateway::listener::{
    address_suggestions, exposes_gateway, finish_listener, listener_view, local_ipv4_addresses,
    may_open_listener, parse_port, save_listener, GatewayOperations, ListenerDialogEnd,
    ListenerSave, ListenerView,
};
use wallet::gateway::pairing::{
    begin_pairing_code, close_pairing, may_open_pairing, offer_tick, open_pairing, pairing_code_groups, pairing_expiry_label,
    pairing_view, reconcile_pairing, retire_pairing_offer, show_pairing_offer,
    GatewayPairingDialog, GatewaySnapshot, OfferRetirement, OfferTick, PairingBody, PairingOpening,
};
use wallet::gateway::unlock::{
    decide_unlock, reconcile_remote_unlock, GatewayUnlockCommand, RemoteUnlockEnd, UnlockDecision,
    VaultState,
};
use wallet::gateway::views::{
    apply_gateway_public_command, gateway_private_view, gateway_public_view,
    private_asset_presentation, public_view_accounts, public_view_selection,
    select_gateway_wallet, shown_balances, shown_private_assets, AccountObservation, BalanceEntry,
    ChainKnowledge, ChainProgress, GatewayPrivateChainState, GatewayPublicCommand,
    HardwareDeviceKind, PrivateAssetRow, PrivateSelection, PublicBalances, PublicCommandEffect,
    PublicKnowledge, SelectionSurroundings, WalletItem,
};
use wallet::u256::U256;

const SECOND: u128 = 1_000_000_000;

fn v4(a: u8, b: u8, c: u8, d: u8) -> IpAddress {
    IpAddress::V4 { a, b, c, d }
}

fn row(label: &str, url: &str) -> InstallAddress {
    InstallAddress { label: label.to_owned(), url: url.to_owned() }
}

#[test]
fn hardware_loading_transfers_only_the_original_target_and_exact_operation() {
    let mut phase = SwitchPhase::Loading { operation: 7 };
    phase.advance_hardware_loading("target", "other", 7);
    assert!(matches!(phase, SwitchPhase::Loading { operation: 7 }));
    phase.advance_hardware_loading("target", "target", 8);
    assert!(matches!(phase, SwitchPhase::Loading { operation: 7 }));
    phase.advance_hardware_loading("target", "target", 7);
    assert!(matches!(phase, SwitchPhase::Loading { operation: 8 }));
    phase.advance_hardware_loading("target", "target", 7);
    assert!(matches!(phase, SwitchPhase::Loading { operation: 8 }));
}

#[test]
fn install_addresses_follow_the_listener() {
    let interfaces = vec![
        (v4(192, 168, 64, 3), "eth0".to_owned()),
        (v4(10, 0, 0, 12), "wlan0".to_owned()),
    ];
    let every_v6 =
        IpAddress::V6 { text: "::".to_owned(), unspecified: true, loopback: false };
    assert_eq!(
        install_addresses(&v4(127, 0, 0, 1), 43110, Some(&interfaces)),
        vec![row("Address", "http://127.0.0.1:43110/install")]
    );
    assert_eq!(
        install_addresses(&v4(192, 168, 64, 3), 43110, None),
        vec![row("Address", "http://192.168.64.3:43110/install")]
    );
    assert_eq!(
        install_addresses(&v4(0, 0, 0, 0), 43110, Some(&interfaces)),
        vec![
            row("This computer", "http://127.0.0.1:43110/install"),
            row("eth0", "http://192.168.64.3:43110/install"),
            row("wlan0", "http://10.0.0.12:43110/install"),
        ]
    );
    assert_eq!(
        install_addresses(&every_v6, 43110, None),
        vec![row("This computer", "http://[::1]:43110/install")]
    );
    assert_eq!(
        install_addresses(&v4(0, 0, 0, 0), 43110, None),
        vec![row("This computer", "http://127.0.0.1:43110/install")]
    );
}

#[test]
fn the_install_dialog_opens_only_while_nothing_else_is_in_the_way() {
    let listener = || Some((v4(127, 0, 0, 1), 43110u16));
    assert!(install_dialog_listener(true, true, false, listener()).is_none());
    assert!(install_dialog_listener(false, false, false, listener()).is_none());
    assert!(install_dialog_listener(false, true, true, listener()).is_none());
    assert!(install_dialog_listener(false, true, false, None).is_none());
    let dialog = install_dialog_listener(false, true, false, listener()).expect("a free gateway");
    assert_eq!(
        dialog.install_url(true),
        Some("http://127.0.0.1:43110/install".to_owned())
    );
    assert_eq!(dialog.install_url(false), None);
}

#[test]
fn listed_addresses_are_unique_ordered_and_of_the_network() {
    let found = local_ipv4_addresses(&vec![
        (v4(192, 168, 64, 3), "eth0".to_owned()),
        (v4(127, 0, 0, 1), "lo".to_owned()),
        (v4(10, 0, 0, 12), "wlan0".to_owned()),
        (v4(192, 168, 64, 3), "eth0:1".to_owned()),
        (
            IpAddress::V6 { text: "fe80::1".to_owned(), unspecified: false, loopback: false },
            "eth0".to_owned(),
        ),
        (v4(0, 0, 0, 0), "none".to_owned()),
    ]);
    assert_eq!(
        found,
        vec![
            (v4(10, 0, 0, 12), "wlan0".to_owned()),
            (v4(192, 168, 64, 3), "eth0".to_owned()),
        ]
    );
    let suggestions = address_suggestions(&InterfaceListing::Found(found));
    assert_eq!(
        suggestions.iter().map(|own| own.label.as_str()).collect::<Vec<_>>(),
        vec![
            "127.0.0.1 · This computer",
            "0.0.0.0 · All IPv4 interfaces",
            "10.0.0.12 · wlan0",
            "192.168.64.3 · eth0",
        ]
    );
    assert_eq!(address_suggestions(&InterfaceListing::Pending).len(), 2);
}

#[test]
fn only_the_own_computer_is_not_exposed() {
    assert!(!exposes_gateway(Some(&v4(127, 0, 0, 1))));
    assert!(!exposes_gateway(Some(&v4(127, 9, 9, 9))));
    assert!(exposes_gateway(Some(&v4(0, 0, 0, 0))));
    assert!(exposes_gateway(Some(&v4(10, 0, 0, 12))));
    assert!(!exposes_gateway(None));
}

#[test]
fn ports_are_read_as_numbers_from_one_on() {
    assert_eq!(parse_port("43110"), Some(43110));
    assert_eq!(parse_port("+80"), Some(80));
    assert_eq!(parse_port("65535"), Some(65535));
    assert_eq!(parse_port("65536"), None);
    assert_eq!(parse_port("0"), None);
    assert_eq!(parse_port(""), None);
    assert_eq!(parse_port("+"), None);
    assert_eq!(parse_port("8 0"), None);
}

fn free_gateway() -> GatewayOperations {
    GatewayOperations {
        busy: false,
        has_handle: true,
        operation_generation: 4,
        pending_offer: Some(5),
        error: Some("old".to_owned()),
    }
}

#[test]
fn a_listener_is_saved_with_a_valid_address_and_port() {
    let mut operations = free_gateway();
    assert!(matches!(
        save_listener(&mut operations, true, None, "43110"),
        ListenerSave::Invalid(error) if error == "Enter a valid IP address."
    ));
    assert!(matches!(
        save_listener(&mut operations, true, Some(v4(127, 0, 0, 1)), "0"),
        ListenerSave::Invalid(error) if error == "Enter a port from 1 to 65535."
    ));
    assert!(matches!(
        save_listener(&mut operations, false, Some(v4(127, 0, 0, 1)), "43110"),
        ListenerSave::Ignored
    ));
    assert!(matches!(
        save_listener(&mut operations, true, Some(v4(127, 0, 0, 1)), " 43110 "),
        ListenerSave::Configure { port: 43110, generation: 5, .. }
    ));
    assert!(operations.busy);
    assert_eq!(operations.pending_offer, None);
    assert_eq!(operations.error, None);
    assert!(matches!(
        save_listener(&mut operations, true, Some(v4(127, 0, 0, 1)), "43110"),
        ListenerSave::Ignored
    ));

    assert!(matches!(
        finish_listener(&mut operations, 4, None, true),
        ListenerDialogEnd::Keep
    ));
    assert!(operations.busy, "the end of an earlier operation changes nothing");
    assert!(matches!(
        finish_listener(&mut operations, 5, Some("in use".to_owned()), true),
        ListenerDialogEnd::ShowError(error) if error == "in use"
    ));
    assert!(!operations.busy);
}

fn snapshot(pairing_active: bool, peers: Vec<u128>) -> GatewaySnapshot {
    GatewaySnapshot { enabled: true, has_listener: true, pairing_active, peers }
}

#[test]
fn pairing_codes_are_shown_until_they_end() {
    assert_eq!(
        pairing_expiry_label(125 * SECOND, 0),
        "Expires in 2:05 · invalid after 3 failed attempts"
    );
    assert_eq!(
        pairing_expiry_label(60 * SECOND, 1),
        "Expires in 1:00 · invalid after 3 failed attempts"
    );
    assert_eq!(
        pairing_expiry_label(5, 10),
        "Expires in 0:00 · invalid after 3 failed attempts"
    );
    assert_eq!(
        pairing_code_groups("123456"),
        ("123".to_owned(), "456".to_owned())
    );

    let mut operations = free_gateway();
    operations.pending_offer = None;
    operations.error = None;
    assert!(may_open_pairing(&operations, &snapshot(false, vec![]), false));
    assert!(!may_open_pairing(&operations, &snapshot(false, vec![]), true));
    assert!(begin_pairing_code(&mut operations, &snapshot(false, vec![]), true, 0));
    let mut dialog = Some(GatewayPairingDialog { peers_before_offer: None });
    show_pairing_offer(&mut operations, &mut dialog, &snapshot(true, vec![1]), 90 * SECOND);
    let view = pairing_view(&operations, &snapshot(true, vec![1]), true, 0);
    assert!(matches!(
        view.body,
        PairingBody::Offer { expiry } if expiry == "Expires in 1:30 · invalid after 3 failed attempts"
    ));
    assert!(!begin_pairing_code(&mut operations, &snapshot(true, vec![1]), true, 0));
    assert_eq!(offer_tick(&operations, 90 * SECOND, true, false, 1), OfferTick::Continue);
    assert_eq!(
        offer_tick(&operations, 90 * SECOND, true, false, 90 * SECOND),
        OfferTick::Retire { forget_dialog: false }
    );
    assert_eq!(offer_tick(&operations, 91 * SECOND, true, false, 1), OfferTick::Stop);

    // A reconnect alone is no pairing; a new extension is.
    let again = reconcile_pairing(&mut operations, &mut dialog, &snapshot(false, vec![1]), true);
    assert!(again.retire && !again.close);
    let paired = reconcile_pairing(&mut operations, &mut dialog, &snapshot(false, vec![1, 2]), true);
    assert!(paired.close);
    assert!(dialog.is_none());
}

#[test]
fn a_pairing_dialog_opens_without_the_code_of_an_earlier_one() {
    let listening = snapshot(true, vec![1]);
    let mut operations = free_gateway();
    operations.pending_offer = Some(90 * SECOND);
    let mut dialog = Some(GatewayPairingDialog { peers_before_offer: Some(vec![1]) });
    assert_eq!(
        open_pairing(&mut operations, &mut dialog, &listening, true, true),
        PairingOpening::Refused
    );
    assert_eq!(operations.pending_offer, Some(90 * SECOND));
    assert!(!begin_pairing_code(&mut operations, &listening, true, 0));
    assert_eq!(
        open_pairing(&mut operations, &mut dialog, &listening, false, true),
        PairingOpening::Opened
    );
    assert_eq!(operations.pending_offer, None);
    assert!(matches!(dialog, Some(GatewayPairingDialog { peers_before_offer: None })));
    assert!(begin_pairing_code(&mut operations, &listening, true, 0));

    show_pairing_offer(&mut operations, &mut dialog, &listening, 90 * SECOND);
    assert!(!close_pairing(&mut operations, &mut dialog, false));
    assert!(dialog.is_some() && operations.pending_offer.is_some());
    assert!(close_pairing(&mut operations, &mut dialog, true));
    assert!(dialog.is_none() && operations.pending_offer.is_none());
    assert!(!close_pairing(&mut operations, &mut dialog, true));
    assert_eq!(
        open_pairing(&mut operations, &mut dialog, &listening, false, false),
        PairingOpening::Unfocused
    );
    assert!(dialog.is_none());
}

fn request(id: &str, target: &str) -> GatewayWalletSwitchRequest {
    GatewayWalletSwitchRequest {
        id: id.to_owned(),
        target_wallet_uuid: target.to_owned(),
        url: "https://example.org".to_owned(),
    }
}

fn waiting(id: &str) -> WaitingSwitch {
    WaitingSwitch {
        request: request(id, "target"),
        awaiting_confirmation: true,
        source_current: true,
    }
}

fn around() -> SwitchSurroundings {
    SwitchSurroundings {
        request_current: true,
        same_network: true,
        deleting_wallet: false,
        source_wallet_current: true,
    }
}

#[test]
fn a_confirmed_switch_is_followed_until_its_wallet_is_installed() {
    let mut dialog: Option<GatewaySwitchDialog> = None;
    let mut switch: Option<GatewaySwitchContinuation> = None;
    let asked =
        reconcile_switches(&mut dialog, &mut switch, &vec![waiting("a")], false, false, true, false);
    assert_eq!(asked.ask, Some(0));
    dialog = Some(GatewaySwitchDialog { request_id: "a".to_owned(), submitting: false });
    assert!(confirm_switch(&mut dialog, &waiting("a")));
    assert!(!confirm_switch(&mut dialog, &waiting("a")), "a confirmation is taken once");
    let start =
        begin_confirmed_switch(&mut dialog, &mut switch, request("a", "target"), true, true, true);
    assert!(start.begins && start.closed_dialog);
    assert!(dialog.is_none());
    load_switch(&mut switch, 7);

    // The unlock of the target's device hands its operation on, once.
    let unlock = HardwareUnlock {
        target: Some("target"),
        opens: true,
        accounts: vec![HardwareAccountRow { wallet_id: "target".to_owned(), supported: true }],
    };
    advance_gateway_hardware_wallet_switch(&mut switch, &unlock, true, around(), 7);
    advance_gateway_hardware_wallet_switch(&mut switch, &unlock, true, around(), 7);
    assert!(matches!(
        switch.as_ref().map(|own| own.phase),
        Some(SwitchPhase::Loading { operation: 8 })
    ));

    let generations = WalletGenerations { wallet_switch: 8, active_wallet: 3 };
    let told = switch_transition(&mut switch, around(), None, generations).expect("a current switch");
    assert_eq!(told.request_id, "a");
    assert!(!told.installed);
    let later = WalletGenerations { wallet_switch: 9, active_wallet: 3 };
    assert!(switch_transition(&mut switch, around(), None, later).is_none());
    assert!(switch.is_none(), "a switch that no longer fits ends");
}

#[test]
fn a_switch_dialog_that_is_gone_rejects_its_request() {
    let mut dialog =
        Some(GatewaySwitchDialog { request_id: "a".to_owned(), submitting: false });
    let mut switch: Option<GatewaySwitchContinuation> = None;
    let outcome =
        reconcile_switches(&mut dialog, &mut switch, &vec![waiting("a")], true, false, true, false);
    assert_eq!(outcome.reject, Some("a".to_owned()));
    assert!(!outcome.close_dialog);
    assert!(dialog.is_none());

    dialog = Some(GatewaySwitchDialog { request_id: "a".to_owned(), submitting: true });
    assert!(!switch_dialog_closed(&mut dialog, "b"));
    assert!(switch_dialog_closed(&mut dialog, "a"));
    let refused =
        begin_confirmed_switch(&mut dialog, &mut switch, request("a", "target"), true, true, true);
    assert!(!refused.begins);
    assert!(switch.is_none());
}

#[test]
fn the_switch_dialog_names_the_wallet() {
    assert_eq!(switch_target_label(None), "the wallet that owns this account");
    assert_eq!(
        switch_question("Savings"),
        "This website's saved account belongs to a different wallet. Switch to Savings and resync it?"
    );
}

#[test]
fn unlock_requests_are_taken_in_the_state_that_they_are_for() {
    let decide = |command, state, attempt| {
        decide_unlock(command, state, false, false, Some(1), attempt, true, true)
    };
    assert_eq!(
        decide(GatewayUnlockCommand::Password, VaultState::UnlockVault, 1),
        UnlockDecision::UnlockWithPassword
    );
    assert_eq!(
        decide(GatewayUnlockCommand::Password, VaultState::ViewUnlocked, 1),
        UnlockDecision::Unavailable
    );
    assert_eq!(
        decide(GatewayUnlockCommand::Passphrase, VaultState::PendingSoftwareProfileOpen, 1),
        UnlockDecision::SubmitPassphrase
    );
    assert_eq!(
        decide(GatewayUnlockCommand::Passphrase, VaultState::PendingSoftwareProfileOpen, 2),
        UnlockDecision::Ignored
    );
    assert_eq!(
        decide(GatewayUnlockCommand::Desktop, VaultState::PendingSoftwareProfileOpen, 1),
        UnlockDecision::ContinueOnDesktop
    );
    assert_eq!(
        reconcile_remote_unlock(Some(1), true, VaultState::SwitchingWallet),
        RemoteUnlockEnd::Keep
    );
    assert_eq!(
        reconcile_remote_unlock(Some(1), false, VaultState::SwitchingWallet),
        RemoteUnlockEnd::AbandonInstallation
    );
    assert_eq!(
        reconcile_remote_unlock(Some(1), false, VaultState::PendingSoftwareProfileOpen),
        RemoteUnlockEnd::AbandonProfile
    );
    assert_eq!(
        reconcile_remote_unlock(Some(1), false, VaultState::ViewUnlocked),
        RemoteUnlockEnd::Retire
    );
}

fn selection() -> PrivateSelection {
    PrivateSelection {
        wallets: vec![
            WalletItem { wallet_id: "w1".to_owned(), label: "Savings".to_owned(), hardware: None },
            WalletItem {
                wallet_id: "w2".to_owned(),
                label: "Device".to_owned(),
                hardware: Some(HardwareDeviceKind::Trezor),
            },
        ],
        selected_wallet_id: Some("w1".to_owned()),
        open_wallet_id: Some("w1".to_owned()),
        selected_choice: "w1".to_owned(),
        receive_address: Some("0zk1".to_owned()),
        selected_chain: 1,
        unwrap_by_default: true,
        wrapped_native_token: Some(Address::from_bytes([0x11; 20])),
        chain_has_private_balances: true,
        selection_message: None,
        switching: false,
        hardware_failed: false,
        chain: Some(ChainKnowledge {
            progress: ChainProgress::Syncing,
            summary: "Syncing 40%".to_owned(),
            stage: "Merkle tree".to_owned(),
            percent: 40,
            snapshot_chain: Some(1),
            forms_available: true,
            generation_ready: false,
        }),
    }
}

#[test]
fn an_extension_sees_the_open_wallet_only() {
    let view = gateway_private_view(&selection());
    assert_eq!(view.wallets[1].hardware, Some("trezor".to_owned()));
    assert_eq!(view.selected_wallet, Some("w1".to_owned()));
    assert_eq!(view.receive_address, Some("0zk1".to_owned()));
    assert_eq!(view.state, GatewayPrivateChainState::Syncing);
    assert_eq!(view.message, Some("Syncing 40%".to_owned()));
    assert_eq!(view.percent, Some(40));
    assert!(view.shows_balances && view.forms_available);
    assert_eq!(
        view.default_unwrap_asset,
        Some("0x1111111111111111111111111111111111111111".to_owned())
    );

    let mut locked = selection();
    locked.open_wallet_id = None;
    let view = gateway_private_view(&locked);
    assert_eq!(view.selected_wallet, None);
    assert_eq!(view.receive_address, None);
    assert_eq!(view.message, Some("Choose a wallet to continue".to_owned()));
    assert!(!view.shows_balances && !view.forms_available);

    let mut other = selection();
    other.selected_chain = 137;
    let view = gateway_private_view(&other);
    assert_eq!(view.state, GatewayPrivateChainState::Loading);
    assert_eq!(view.message, Some("Waiting for current network balances.".to_owned()));
    assert!(!view.shows_balances && !view.forms_available);

    let mut public_only = selection();
    public_only.chain_has_private_balances = false;
    let view = gateway_private_view(&public_only);
    assert_eq!(
        view.selection_message,
        Some("Private balances and Shield are unavailable on public-only chains".to_owned())
    );
    assert_eq!(view.receive_address, None);
}

#[test]
fn wallets_are_selected_while_the_app_is_free() {
    let wallets = selection().wallets;
    let free = || SelectionSurroundings {
        vault_unlocked: true,
        wallet_open: true,
        dialog_open: false,
        switching: false,
        resetting: false,
        gateway_switching: false,
        reset_allowed: true,
        hardware_supported: true,
    };
    let chosen = select_gateway_wallet("w2", &wallets, true, Some("w1"), &free());
    assert!(chosen.selected);
    assert_eq!(chosen.message, Some("Continue wallet selection in the desktop app."));
    assert!(select_gateway_wallet("w2", &wallets, true, Some("w2"), &free()).message.is_none());
    let mut busy = free();
    busy.dialog_open = true;
    assert_eq!(
        select_gateway_wallet("w1", &wallets, false, None, &busy).message,
        Some("Wallet selection is busy or unavailable. Open the desktop app to continue.")
    );
    assert!(!select_gateway_wallet("w3", &wallets, false, None, &free()).selected);
    let mut software = free();
    software.hardware_supported = false;
    assert_eq!(
        select_gateway_wallet("w2", &wallets, true, None, &software).message,
        Some("Hardware wallet support is unavailable in this desktop build.")
    );
}

fn account(uuid: &str, status: PublicAccountStatus, wallet: Option<&str>) -> PublicAccountMetadata {
    PublicAccountMetadata {
        public_account_uuid: uuid.to_owned(),
        address: Address::from_bytes([uuid.as_bytes()[0]; 20]),
        label: None,
        display_label: None,
        source: PublicAccountSource::Imported,
        scope: match wallet {
            Some(id) => PublicAccountScope::PrivateWallet { wallet_uuid: id.to_owned() },
            None => PublicAccountScope::Global,
        },
        status,
    }
}

#[test]
fn public_accounts_are_shown_and_selected_where_they_can_act() {
    let accounts = vec![
        account("a", PublicAccountStatus::Active, Some("wallet")),
        account("b", PublicAccountStatus::Inactive, Some("wallet")),
        account("c", PublicAccountStatus::Active, Some("other")),
        account("d", PublicAccountStatus::Active, None),
    ];
    assert_eq!(public_view_accounts(&accounts, Some("wallet")), vec![0, 3]);
    assert!(public_view_accounts(&accounts, None).is_empty());
    assert_eq!(public_view_selection(Some(&accounts[0]), Some("wallet")), Some("a".to_owned()));
    assert_eq!(public_view_selection(Some(&accounts[1]), Some("wallet")), None);
    let pick = |uuid: &str| GatewayPublicCommand::SelectAccount {
        public_account_uuid: uuid.to_owned(),
    };
    let apply = |command: &GatewayPublicCommand, wallet| {
        apply_gateway_public_command(command, wallet, &accounts, true, true)
    };
    assert_eq!(apply(&pick("d"), Some("wallet")), PublicCommandEffect::SelectAccount);
    assert_eq!(apply(&pick("c"), Some("wallet")), PublicCommandEffect::Nothing);
    assert_eq!(apply(&pick("d"), None), PublicCommandEffect::Ignored);
    assert_eq!(
        apply(&GatewayPublicCommand::RefreshBalances, Some("wallet")),
        PublicCommandEffect::Nothing
    );
    assert_eq!(
        apply(&GatewayPublicCommand::SelectChain { chain_id: 1 }, Some("wallet")),
        PublicCommandEffect::SelectChain
    );
}

#[test]
fn balances_of_nothing_are_left_out() {
    let entry = |token, amount: u64| BalanceEntry {
        token,
        amount: U256::from_u64(amount),
        symbol: "TOK".to_owned(),
        amount_label: amount.to_string(),
        usd: None,
        icon: IconSource::Embedded("railgun-ui/icons/tok.svg".to_owned()),
    };
    let shown = shown_balances(&vec![
        entry(None, 5),
        entry(Some(Address::from_bytes([0x22; 20])), 0),
        entry(Some(Address::from_bytes([0x33; 20])), 7),
    ]);
    assert_eq!(
        shown.iter().map(|own| own.asset.as_str()).collect::<Vec<_>>(),
        vec!["native", "0x3333333333333333333333333333333333333333"]
    );
}

#[test]
fn only_embedded_icons_of_the_interface_are_shared() {
    assert_eq!(
        shared_icon_path(&IconSource::Embedded("railgun-ui/icons/eth.svg".to_owned())),
        Some("railgun-ui/icons/eth.svg".to_owned())
    );
    assert_eq!(shared_icon_path(&IconSource::Embedded("/home/user/eth.svg".to_owned())), None);
    assert_eq!(shared_icon_path(&IconSource::Other), None);
    let row = private_asset_presentation(&PrivateAssetRow {
        token: None,
        label: "ETH".to_owned(),
        amount: "1".to_owned(),
        usd: None,
        icon: IconSource::Absent,
        pending_verification: None,
        pending_incoming: Some("0.5".to_owned()),
        pending_outgoing: None,
    });
    assert_eq!(row.asset, "ETH");
    assert_eq!(row.pending_incoming, Some("0.5".to_owned()));
    let rows = vec![PrivateAssetRow {
        token: Some(Address::from_bytes([0x11; 20])),
        label: "USDC".to_owned(),
        amount: "2".to_owned(),
        usd: Some("$2".to_owned()),
        icon: IconSource::Absent,
        pending_verification: None,
        pending_incoming: None,
        pending_outgoing: None,
    }];
    let assets = shown_private_assets(&gateway_private_view(&selection()), &rows);
    assert_eq!(assets[0].asset, "0x1111111111111111111111111111111111111111");
    assert_eq!(assets[0].usd, Some("$2".to_owned()));
    let mut other = selection();
    other.selected_chain = 137;
    assert!(shown_private_assets(&gateway_private_view(&other), &rows).is_empty());
}

#[test]
fn a_submission_is_summed_up() {
    let context = submission_context("1.5", "USDC", "0zk1");
    assert_eq!(context.rows.len(), 3);
    assert_eq!(context.summary, "1.5 USDC");
    assert_eq!(context.rows[1].value, "0zk1");
}

#[test]
fn the_listener_dialog_says_what_it_waits_for() {
    let mut operations = free_gateway();
    assert!(may_open_listener(&operations, false));
    assert!(!may_open_listener(&operations, true));
    let everywhere = v4(0, 0, 0, 0);
    assert_eq!(
        listener_view(&operations, Some(&everywhere), &InterfaceListing::Pending),
        ListenerView { busy: false, warns: true, loading: true, failed: false }
    );
    operations.busy = true;
    assert!(!may_open_listener(&operations, false));
    assert_eq!(
        listener_view(&operations, None, &InterfaceListing::Failed),
        ListenerView { busy: true, warns: false, loading: false, failed: true }
    );
}

#[test]
fn a_code_that_is_taken_away_gives_the_focus_back() {
    let mut operations = free_gateway();
    assert_eq!(
        retire_pairing_offer(&mut operations, true, false, true),
        OfferRetirement { own_dialog: true, restore_focus: true }
    );
    assert_eq!(operations.pending_offer, None);
    assert_eq!(
        retire_pairing_offer(&mut operations, true, false, true),
        OfferRetirement { own_dialog: false, restore_focus: false }
    );
    assert_eq!(
        retire_pairing_offer(&mut operations, true, true, false),
        OfferRetirement { own_dialog: true, restore_focus: false }
    );
    let mut gone = free_gateway();
    assert!(!retire_pairing_offer(&mut gone, false, true, true).own_dialog);
}

#[test]
fn public_balances_are_of_the_selected_chain_and_of_unchanged_accounts() {
    let known = |wallet: Option<&str>, chain_id| PublicKnowledge {
        wallet: wallet.map(str::to_owned),
        selected: Some(account("a", PublicAccountStatus::Active, Some("wallet"))),
        selected_chain: 1,
        refreshing: true,
        balance_failed: false,
        accounts: vec![
            account("a", PublicAccountStatus::Active, Some("wallet")),
            account("b", PublicAccountStatus::Active, Some("other")),
            account("c", PublicAccountStatus::Active, None),
        ],
        totals: vec![Some("$5".to_owned())],
        balances: Some(PublicBalances {
            chain_id,
            accounts: vec![AccountObservation {
                account: account("a", PublicAccountStatus::Active, Some("wallet")),
                balances: vec![BalanceEntry {
                    token: None,
                    amount: U256::from_u64(5),
                    symbol: "ETH".to_owned(),
                    amount_label: "5".to_owned(),
                    usd: None,
                    icon: IconSource::Absent,
                }],
            }],
        }),
    };
    let view = gateway_public_view(&known(Some("wallet"), 1));
    assert_eq!(view.selected_account, Some("a".to_owned()));
    assert_eq!(view.selected_chain, Some(1));
    assert!(view.refreshing && !view.balance_error);
    assert_eq!(
        view.balances.iter().map(|own| own.account_uuid.as_str()).collect::<Vec<_>>(),
        vec!["a", "c"]
    );
    assert_eq!(view.balances[0].total, Some("$5".to_owned()));
    assert_eq!(view.balances[0].assets[0].asset, "native");
    assert!(view.balances[1].assets.is_empty() && view.balances[1].total.is_none());
    let other = gateway_public_view(&known(Some("wallet"), 2));
    assert!(other.balances[0].assets.is_empty());
    let mut changed = known(Some("wallet"), 1);
    changed.accounts[0].label = Some("renamed".to_owned());
    assert!(gateway_public_view(&changed).balances[0].assets.is_empty());
    let locked = gateway_public_view(&known(None, 1));
    assert!(locked.balances.is_empty() && locked.selected_chain.is_none() && !locked.refreshing);
}

#[test]
fn an_extension_is_told_where_private_balances_stand() {
    let message = |change: &dyn Fn(&mut PrivateSelection)| {
        let mut own = selection();
        change(&mut own);
        gateway_private_view(&own)
    };
    let progress = |progress| {
        message(&|own| {
            own.chain = own.chain.take().map(|chain| ChainKnowledge { progress, ..chain });
        })
    };
    assert_eq!(
        progress(ChainProgress::Error).message,
        Some("Could not load private balances. Open the desktop app for details.".to_owned())
    );
    assert_eq!(
        progress(ChainProgress::Idle).message,
        Some("Select a chain to load private balances".to_owned())
    );
    assert_eq!(progress(ChainProgress::Ready).message, None);
    assert_eq!(progress(ChainProgress::Ready).percent, None);
    assert_eq!(
        message(&|own| own.chain = None).message,
        Some("Select a chain to load private balances".to_owned())
    );
    assert_eq!(
        message(&|own| own.switching = true).selection_message,
        Some("Switching wallet…".to_owned())
    );
    let failed = message(&|own| {
        own.switching = true;
        own.hardware_failed = true;
    });
    assert_eq!(
        failed.selection_message,
        Some("Could not open the hardware wallet. Continue in the desktop app.".to_owned())
    );
}
