//! What a paired extension may choose from, and what it is told.
use wallet::accounts::{
    PublicAccountMetadata, PublicAccountScope, PublicAccountSource, PublicAccountStatus,
};
use wallet::address::Address;
use wallet::gateway::draft_options::{
    asset_choices, picker_request, private_draft_options, shown_candidates, AmountMetric, AssetOption,
    BroadcasterCandidate, DraftKnowledge, IconSource, PickerEstimate,
    TopUpTexts,
};
use wallet::gateway::drafts::{send_back, DraftRecord, GatewayDraftStatus};
use wallet::gateway::handoff::{
    begin_installation, close_gateway_switch_dialog, finish_installation,
    GatewaySwitchContinuation, GatewaySwitchDialog, GatewayWalletSwitchRequest, SwitchPhase,
    WalletGenerations,
};
use wallet::gateway::install::{GatewayInstallDialog, InterfaceListing, IpAddress};
use wallet::gateway::private_draft::{
    delivery_form_kind, entered_fee_mode, native_top_up_request, recipient_entry_id,
    resolve_private_draft_contact, top_up_recipient, AddressBooks, BroadcasterChoice,
    DeliveryFormKind, FeeHandlingMode, GatewayPrivateDraftInput, GatewayPrivateDraftKind,
    GatewayPrivateFeeMode, NativeTopUpPlan, PrivateAsset, PrivateContact, PrivateDraftPicker,
    PrivateEstimateOutput, PublicContact, RecipientSource,
};
use wallet::gateway::self_broadcast::{
    counts_executor_gas, outcome_rows, retains_background_estimate, selected_signer_error,
    self_broadcast_is_current, signer_listed, SelfBroadcastFundingMode, SignerFacts,
    SponsoredFundingEstimate,
};
use wallet::gateway::views::{
    private_wallet_choices, wallet_is_offered, HardwareDeviceKind, WalletItem,
};
use wallet::key_export::{
    key_export_context_warning_predicates, KeyExportContextWarningPredicates,
    WalletSoftwareContextKind,
};
use wallet::u256::U256;

const TOKEN: &str = "0x1111111111111111111111111111111111111111";

fn n(value: u64) -> U256 {
    U256::from_u64(value)
}

fn input(kind: GatewayPrivateDraftKind) -> GatewayPrivateDraftInput {
    GatewayPrivateDraftInput {
        kind,
        wallet: "wallet".to_owned(),
        chain_id: 1,
        asset: TOKEN.to_owned(),
        amount: "1.5".to_owned(),
        max: false,
        recipient: String::new(),
        address_book_entry: None,
        fee_token: TOKEN.to_owned(),
        fee_mode: GatewayPrivateFeeMode::Deduct,
        broadcaster: BroadcasterChoice::Random,
        unwrap: false,
        native_top_up: true,
        allow_out_of_range: false,
        favorites_only: false,
    }
}

fn assets() -> Vec<PrivateAsset> {
    vec![PrivateAsset {
        chain_id: 1,
        token: Address::from_bytes([0x11; 20]),
        label: "WETH".to_owned(),
        decimals: Some(18),
        total: n(5),
        max_batched: n(4),
    }]
}

fn option(icon: &str) -> AssetOption {
    AssetOption {
        token: Address::from_bytes([0x11; 20]),
        label: "WETH".to_owned(),
        max_amount: "4".to_owned(),
        max_amount_label: "4.0".to_owned(),
        available: "5.0".to_owned(),
        broadcaster_count: 3,
        icon: IconSource::Embedded(icon.to_owned()),
    }
}

fn candidate(railgun_address: &str, matches_query: bool) -> BroadcasterCandidate {
    BroadcasterCandidate { railgun_address: railgun_address.to_owned(), matches_query }
}

fn candidates() -> Vec<BroadcasterCandidate> {
    vec![candidate("slow", false), candidate("fast", true), candidate("faster", true)]
}

fn known() -> DraftKnowledge {
    DraftKnowledge {
        assets: vec![option("railgun-ui/weth.svg")],
        fee_tokens: vec![option("other/weth.svg")],
        metrics: vec![AmountMetric {
            label: "Total".to_owned(),
            value: "5.0".to_owned(),
            amount: "5".to_owned(),
        }],
        capacity_warning: "capacity".to_owned(),
        top_up_warning: "linkage".to_owned(),
        fee_token_warning: Some("fee token".to_owned()),
        show_fee_mode: true,
        wrapped_native: true,
        output_labels: Some(("ETH".to_owned(), "WETH".to_owned())),
        top_up: Some(TopUpTexts {
            native_label: "ETH".to_owned(),
            native_amount: "0.01 ETH".to_owned(),
            wrapped_amount: "0.011 WETH".to_owned(),
        }),
        prepared_recipient: Some(TOKEN.to_owned()),
        parsed_amount: Some(n(2)),
        broadcaster_warning: Some("broadcaster".to_owned()),
        candidates: candidates(),
        eligible: vec![candidate("fast", true)],
        specific_label: Some("Fast".to_owned()),
        picker_rows: Some(vec!["row".to_owned()]),
    }
}

#[test]
fn fee_tokens_count_their_broadcasters() {
    let spent = asset_choices(&vec![option("railgun-ui/weth.svg")], false);
    assert_eq!(spent[0].id, TOKEN);
    assert_eq!((spent[0].available.as_str(), spent[0].broadcaster_count), ("5.0", 0));
    assert_eq!(spent[0].icon, Some("railgun-ui/weth.svg".to_owned()));
    let fees = asset_choices(&vec![option("other/weth.svg")], true);
    assert_eq!((fees[0].available.as_str(), fees[0].broadcaster_count), ("4.0", 3));
    assert_eq!(fees[0].icon, None);
}

#[test]
fn options_grow_with_what_was_entered() {
    let picker = PrivateDraftPicker::new("view".to_owned(), 0, "fa".to_owned());
    let options = |own: &GatewayPrivateDraftInput| {
        private_draft_options(own, Some("wallet"), 1, &assets(), Some(&picker), known())
    };
    let full = options(&input(GatewayPrivateDraftKind::Unshield));
    assert_eq!(full.warnings, vec!["capacity", "linkage", "fee token", "broadcaster"]);
    assert_eq!(full.unwrap_labels, Some(("ETH".to_owned(), "WETH".to_owned())));
    let top_up = full.native_top_up.expect("an unshield can send gas along");
    assert_eq!(top_up.label, "Also send ETH for gas");
    assert_eq!(
        top_up.funding_detail,
        "Recipient receives 0.01 ETH; funded from private 0.011 WETH."
    );
    let rows = full.picker.expect("an open list");
    assert_eq!((rows.query.as_str(), rows.total_count, full.candidate_count), ("fa", 1, 1));
    assert_eq!(rows.rows, vec!["row"]);

    let send = options(&input(GatewayPrivateDraftKind::PrivateSend));
    assert_eq!(send.unwrap_labels, None);
    assert_eq!(send.native_top_up, None);

    let mut any_fee = input(GatewayPrivateDraftKind::Unshield);
    any_fee.allow_out_of_range = true;
    let all = options(&any_fee);
    assert_eq!(all.candidate_count, 3);
    assert_eq!(all.picker.map(|rows| rows.total_count), Some(3));

    let mut without_fee = input(GatewayPrivateDraftKind::Unshield);
    without_fee.fee_token = String::new();
    let partial = options(&without_fee);
    assert_eq!(partial.warnings, vec!["capacity", "linkage"]);
    assert!(!partial.show_fee_mode);
    assert_eq!((partial.metrics.len(), partial.candidate_count), (1, 0));

    let mut without_asset = input(GatewayPrivateDraftKind::Unshield);
    without_asset.asset = "WETH".to_owned();
    let bare = options(&without_asset);
    assert_eq!((bare.assets.len(), bare.fee_tokens.len()), (1, 1));
    assert!(bare.metrics.is_empty() && bare.warnings.is_empty());
}

#[test]
fn recipients_are_named_by_their_entry() {
    let private = vec![PrivateContact { entry_uuid: "p".to_owned(), address: "0zk1".to_owned() }];
    let public = vec![PublicContact {
        entry_uuid: "q".to_owned(),
        address: Address::from_bytes([0x11; 20]),
    }];
    let id = |source, address: &str| recipient_entry_id(source, address, &private, &public);
    assert_eq!(id(RecipientSource::PrivateAddressBook, "0zk1"), "p");
    assert_eq!(id(RecipientSource::PrivateAddressBook, "0zk2"), "");
    assert_eq!(id(RecipientSource::PublicAddressBook, TOKEN), "q");
    assert_eq!(id(RecipientSource::Other, TOKEN), "");
    let books = AddressBooks { private: Some(private), public: Some(public) };
    let mut own = input(GatewayPrivateDraftKind::Unshield);
    own.address_book_entry = Some("q".to_owned());
    own.recipient = TOKEN.to_owned();
    assert_eq!(resolve_private_draft_contact(&own, &books), Ok(TOKEN.to_owned()));
    own.address_book_entry = Some("gone".to_owned());
    assert!(resolve_private_draft_contact(&own, &books).is_err());
}

#[test]
fn drafts_are_translated_for_the_forms() {
    assert_eq!(
        delivery_form_kind(GatewayPrivateDraftKind::PrivateSend),
        DeliveryFormKind::Send
    );
    assert_eq!(
        entered_fee_mode(GatewayPrivateFeeMode::AddOnTop),
        FeeHandlingMode::AddToAmount
    );
    let mut own = input(GatewayPrivateDraftKind::Unshield);
    let to = Address::from_bytes([0x11; 20]);
    assert_eq!(native_top_up_request(&own, TOKEN, n(9), Some(n(2))), Some((to, n(2))));
    assert_eq!(native_top_up_request(&own, TOKEN, n(9), None), None);
    assert_eq!(native_top_up_request(&own, "alice.eth", n(9), Some(n(2))), None);
    own.max = true;
    assert_eq!(native_top_up_request(&own, TOKEN, n(9), None), Some((to, n(9))));
}

#[test]
fn a_top_up_is_offered_only_where_it_can_be_asked_for() {
    let offered = |own: &GatewayPrivateDraftInput, to: Option<&str>, amount: Option<U256>| {
        let mut told = known();
        told.prepared_recipient = to.map(|text| text.to_owned());
        told.parsed_amount = amount;
        private_draft_options(own, Some("wallet"), 1, &assets(), None, told).native_top_up.is_some()
    };
    let mut own = input(GatewayPrivateDraftKind::Unshield);
    assert!(offered(&own, Some(TOKEN), Some(n(2))));
    assert!(!offered(&own, Some(TOKEN), None));
    assert!(!offered(&own, None, Some(n(2))));
    own.recipient = TOKEN.to_owned();
    assert!(offered(&own, None, Some(n(2))));
    assert!(!offered(&own, Some("alice.eth"), Some(n(2))));
    own.max = true;
    assert!(offered(&own, None, None));
    own.kind = GatewayPrivateDraftKind::PrivateSend;
    assert!(!offered(&own, None, None));
}

#[test]
fn the_open_list_asks_for_what_matches_its_search() {
    let all = candidates();
    let eligible = vec![candidate("fast", true)];
    assert_eq!(shown_candidates(&all, &eligible, true), &all);
    assert_eq!(shown_candidates(&all, &eligible, false), &eligible);

    let mut own = input(GatewayPrivateDraftKind::Unshield);
    let mut picker = PrivateDraftPicker::new("view".to_owned(), 0, "fa".to_owned());
    let request = picker_request(&own, false, &picker, &all);
    assert_eq!(request.candidates, vec![candidate("fast", true), candidate("faster", true)]);
    assert_eq!((request.estimate, request.selected), (None, None));
    assert_eq!(request.placeholder, "Estimate unavailable");
    picker.has_estimate = true;
    picker.job = true;
    own.broadcaster = BroadcasterChoice::Specific { id: "fast".to_owned() };
    let request = picker_request(&own, false, &picker, &all);
    assert_eq!(request.estimate, Some(PickerEstimate::Own));
    assert_eq!(request.selected, Some("fast".to_owned()));
    assert_eq!(request.placeholder, "Estimating…");
    assert_eq!(
        picker_request(&own, true, &picker, &all).estimate,
        Some(PickerEstimate::Prepared)
    );
}

#[test]
fn a_top_up_goes_to_the_prepared_recipient_before_the_entered_one() {
    let mut own = input(GatewayPrivateDraftKind::Unshield);
    own.recipient = "alice.eth".to_owned();
    assert_eq!(top_up_recipient(Some(TOKEN), &own), TOKEN);
    assert_eq!(top_up_recipient(None, &own), "alice.eth");
}

#[test]
fn a_list_that_could_not_be_estimated_is_tried_again_later() {
    let mut picker = PrivateDraftPicker::new("view".to_owned(), 0, String::new());
    assert_eq!(picker.fee_placeholder(), "Estimate unavailable");
    picker.postpone(10, 5);
    assert_eq!(picker.retry_at, Some(15));
    assert_eq!(picker.fee_placeholder(), "Retrying…");
}

fn account(uuid: &str, source: PublicAccountSource) -> PublicAccountMetadata {
    PublicAccountMetadata {
        public_account_uuid: uuid.to_owned(),
        address: Address::from_bytes([uuid.as_bytes()[0]; 20]),
        label: None,
        display_label: None,
        source,
        scope: PublicAccountScope::Global,
        status: PublicAccountStatus::Active,
    }
}

#[test]
fn a_signer_has_to_be_there_and_pay() {
    let facts = vec![SignerFacts {
        account: account("a", PublicAccountSource::HardwareDerived),
        label: "a".to_owned(),
        address_label: String::new(),
        balance: "0".to_owned(),
        random_candidate: true,
        balance_zero: true,
    }];
    let error = |selected, sponsored, hardware| {
        selected_signer_error(&facts, selected, sponsored, hardware, "No gas")
    };
    assert_eq!(error(None, false, true), None);
    assert_eq!(
        error(Some("b"), false, true),
        Some("The selected Public account is unavailable. Choose a signer again.".to_owned())
    );
    assert_eq!(error(Some("a"), false, true), Some("No gas".to_owned()));
    assert_eq!(error(Some("a"), true, true), None);
    assert_eq!(
        error(Some("a"), true, false),
        Some("Hardware signing is unavailable in this desktop build.".to_owned())
    );
}

#[test]
fn a_prepared_self_broadcast_holds_while_nothing_changed() {
    let signers = vec![account("a", PublicAccountSource::Imported)];
    let signer = account("a", PublicAccountSource::Imported);
    assert!(signer_listed(&signers, &signer));
    let current = |input_same, now| {
        self_broadcast_is_current(input_same, true, true, true, &signers, &signer, n(5), now, true)
    };
    assert!(current(true, n(5)));
    assert!(!current(true, n(4)));
    assert!(!current(false, n(5)));
    let other = account("a", PublicAccountSource::Derived);
    assert!(!signer_listed(&signers, &other));
    assert!(retains_background_estimate(
        SelfBroadcastFundingMode::PrivateSponsorship,
        SponsoredFundingEstimate::Ready
    ));
    assert!(!retains_background_estimate(
        SelfBroadcastFundingMode::PublicBalance,
        SponsoredFundingEstimate::PublicBalanceReady
    ));
}

#[test]
fn the_outcome_of_an_unshield_is_listed() {
    let plain = PrivateEstimateOutput::Unshield { unwrap: false, native_top_up: None };
    assert!(!counts_executor_gas(&plain, true, true));
    let rows = outcome_rows(&plain, "1 ETH", "1 WETH", "");
    assert_eq!(rows.len(), 1);
    assert_eq!(rows[0].value, "1 WETH");
    let topped = PrivateEstimateOutput::Unshield {
        unwrap: true,
        native_top_up: Some(NativeTopUpPlan {
            native_amount: n(1),
            wrapped_native_token: Address::from_bytes([0x11; 20]),
            wrapped_native_amount: n(2),
        }),
    };
    assert!(counts_executor_gas(&topped, true, true));
    assert!(!counts_executor_gas(&topped, true, false));
    let rows = outcome_rows(&topped, "1 ETH", "1 WETH", "0.1 ETH");
    assert_eq!(rows[0].value, "1 ETH");
    assert_eq!((rows[1].label.as_str(), rows[1].value.as_str()), ("Recipient gas top-up", "0.1 ETH"));
}

#[test]
fn wallets_are_offered_with_their_device() {
    let item = |id: &str, hardware| WalletItem {
        wallet_id: id.to_owned(),
        label: id.to_owned(),
        hardware,
    };
    let items = vec![item("w1", None), item("w2", Some(HardwareDeviceKind::Trezor))];
    let choices = private_wallet_choices(&items);
    assert_eq!(choices[0].hardware, None);
    assert_eq!(choices[1].hardware, Some("trezor".to_owned()));
    assert!(wallet_is_offered(&items, "w2"));
    assert!(!wallet_is_offered(&items, "w3"));
}

#[test]
fn an_installation_of_another_wallet_ends_the_switch() {
    let switch = || {
        Some(GatewaySwitchContinuation {
            request: GatewayWalletSwitchRequest {
                id: "r".to_owned(),
                target_wallet_uuid: "target".to_owned(),
                url: String::new(),
            },
            phase: SwitchPhase::Loading { operation: 7 },
        })
    };
    let before = WalletGenerations { wallet_switch: 7, active_wallet: 3 };
    assert!(begin_installation(switch(), "other", true, before).is_none());
    assert!(begin_installation(switch(), "target", false, before).is_none());
    let begun = begin_installation(switch(), "target", true, before);
    let after = WalletGenerations { wallet_switch: 8, active_wallet: 4 };
    assert!(matches!(
        finish_installation(begun, Some("target"), after).map(|own| own.phase),
        Some(SwitchPhase::Installed { operation: 8, wallet_generation: 4 })
    ));
    let begun = begin_installation(switch(), "target", true, before);
    assert!(finish_installation(begun, Some("other"), after).is_none());
    let mut dialog =
        Some(GatewaySwitchDialog { request_id: "r".to_owned(), submitting: false });
    assert!(!close_gateway_switch_dialog(&mut dialog, "s", true));
    assert!(close_gateway_switch_dialog(&mut dialog, "r", true));
    assert!(dialog.is_none());
}

#[test]
fn the_install_dialog_says_what_it_waits_for() {
    let mut dialog = GatewayInstallDialog {
        listener: IpAddress::V4 { a: 0, b: 0, c: 0, d: 0 },
        port: 4500,
        interfaces: InterfaceListing::Pending,
    };
    assert!(dialog.notes().loading);
    dialog.interfaces = InterfaceListing::Failed;
    assert!(dialog.notes().failed);
    dialog.listener = IpAddress::v6_localhost();
    dialog.interfaces = InterfaceListing::Pending;
    assert!(!dialog.notes().loading);
    assert!(dialog.listener.is_ipv6() && dialog.listener.is_loopback());
    assert_eq!(dialog.listener.to_text_with_port(4500), "[::1]:4500");
    assert_eq!(IpAddress::v4_localhost().to_text_with_port(80), "127.0.0.1:80");
    assert!(!IpAddress::v4_localhost().is_unspecified());
}

#[test]
fn a_draft_is_sent_back_with_its_message() {
    let mut record = DraftRecord {
        draft_id: "draft".to_owned(),
        revision: 3,
        status: GatewayDraftStatus::Estimating,
        message: String::new(),
        wallet: 9,
        wallet_generation: 2,
        executing: false,
        estimating: true,
        prepared: None,
        estimated_at: None,
        gas_quoted: false,
    };
    send_back(&mut record, "Choose an asset.");
    assert_eq!(record.status, GatewayDraftStatus::Editing);
    assert_eq!(record.message, "Choose an asset.");
    assert!(record.estimating);
}

#[test]
fn only_passphrase_wallets_need_more_than_their_mnemonic() {
    let predicates = key_export_context_warning_predicates;
    assert_eq!(
        predicates(Some(WalletSoftwareContextKind::Passphrase), Some("base")),
        Some(KeyExportContextWarningPredicates {
            mnemonic_alone_is_insufficient: true,
            passphrase_is_external: true,
            passphrase_is_not_retained: true,
        })
    );
    assert_eq!(predicates(Some(WalletSoftwareContextKind::Passphrase), None), None);
    assert_eq!(predicates(Some(WalletSoftwareContextKind::Standard), Some("base")), None);
}
