//! Drafts that an extension composes, and the forms that they are submitted with.
use wallet::accounts::{
    PublicAccountMetadata, PublicAccountScope, PublicAccountSource, PublicAccountStatus,
};
use wallet::address::Address;
use wallet::gateway::drafts::{
    draft_is_current, execution_id_of, is_within, new_execution_id, DraftRecord, DraftVersion,
    GatewayDraftStatus, OpenWallet, PreparedDraftKind,
};
use wallet::gateway::private_draft::{
    begin_private_estimate, finish_private_estimate, picker_recipient, prepared_is_current,
    private_draft_asset, private_draft_due, private_draft_fee_token, private_draft_inputs,
    private_draft_output, private_draft_recipient, private_estimate_prepared, recipient_to_resolve,
    resolved_recipient, submit_private_draft, valid_private_input_size, AddressBooks,
    BroadcasterChoice, BroadcasterOffer, DraftResolution, EstimatePreparation, FeeHandlingMode,
    GatewayPrivateDraftInput, GatewayPrivateDraftKind, GatewayPrivateFeeMode, NativeTopUpPlan,
    PickerNext, PreparedFacts, PrivateAsset, PrivateContact, PrivateDraftPicker,
    PrivateEstimateNext, PrivateEstimateOutput, PrivateEstimateResult, PublicContact, SubmitNext,
};
use wallet::gateway::self_broadcast::{
    eligible_signers, finish_self_broadcast_estimate, gas_quote_error, gas_selection,
    install_gas_selection, prepare_self_broadcast, recipient_amount, self_broadcast_form,
    self_broadcast_review_current, signer_choices, signer_unavailable_reason,
    GatewayPrivateFunding, GatewayPrivateGasFee, ParsedCaps, SelfBroadcastFundingMode,
    SelfBroadcastInput, SelfBroadcastKnowledge, SelfBroadcastResult, SelfBroadcastShown,
    SignerFacts, SponsoredFundingEstimate, SponsoredIncentive,
};
use wallet::governance::rewards::{GasFeeQuote, PublicActionGasFeeSelection};
use wallet::governance::state::{GasFeeEditor, GasFeeMode};
use wallet::u256::U256;

const TOKEN: &str = "0x1111111111111111111111111111111111111111";
const LIFETIME: u128 = 60_000_000_000;

fn n(value: u64) -> U256 {
    U256::from_u64(value)
}

fn input() -> GatewayPrivateDraftInput {
    GatewayPrivateDraftInput {
        kind: GatewayPrivateDraftKind::PrivateSend,
        wallet: "wallet".to_owned(),
        chain_id: 1,
        asset: TOKEN.to_owned(),
        amount: "1.5".to_owned(),
        max: false,
        recipient: "0zk1recipient".to_owned(),
        address_book_entry: None,
        fee_token: TOKEN.to_owned(),
        fee_mode: GatewayPrivateFeeMode::Deduct,
        broadcaster: BroadcasterChoice::Random,
        unwrap: false,
        native_top_up: false,
        allow_out_of_range: false,
        favorites_only: false,
    }
}

fn unshield() -> GatewayPrivateDraftInput {
    let mut input = input();
    input.kind = GatewayPrivateDraftKind::Unshield;
    input.recipient = "0x2222222222222222222222222222222222222222".to_owned();
    input
}

fn assets() -> Vec<PrivateAsset> {
    vec![PrivateAsset {
        chain_id: 1,
        token: Address::from_bytes([0x11; 20]),
        label: "USDC".to_owned(),
        decimals: Some(6),
        total: n(5_000_000),
        max_batched: n(4_000_000),
    }]
}

fn record(status: GatewayDraftStatus) -> DraftRecord {
    DraftRecord {
        draft_id: "draft".to_owned(),
        revision: 3,
        status,
        message: String::new(),
        wallet: 9,
        wallet_generation: 2,
        executing: false,
        estimating: false,
        prepared: None,
        estimated_at: None,
        gas_quoted: false,
    }
}

const OPEN: OpenWallet = OpenWallet { session: Some(9), generation: 2 };

fn version() -> DraftVersion<'static> {
    DraftVersion { draft_id: "draft", revision: 3 }
}

#[test]
fn inputs_longer_than_any_that_can_be_meant_are_refused() {
    assert!(valid_private_input_size(&input()));
    let mut long = input();
    long.amount = "1".repeat(101);
    assert!(!valid_private_input_size(&long));
    let mut wide = input();
    wide.wallet = "é".repeat(65);
    assert!(!valid_private_input_size(&wide), "the limit is in bytes");
}

#[test]
fn address_book_entries_have_to_be_there_and_unchanged() {
    let books = AddressBooks {
        private: Some(vec![PrivateContact {
            entry_uuid: "e".to_owned(),
            address: "0zk1recipient".to_owned(),
        }]),
        public: Some(vec![PublicContact {
            entry_uuid: "p".to_owned(),
            address: Address::from_bytes([0x22; 20]),
        }]),
    };
    let none = AddressBooks { private: None, public: None };
    let mut draft = input();
    assert_eq!(private_draft_recipient(&draft, false, false, &none), Ok("0zk1recipient".to_owned()));
    draft.address_book_entry = Some("e".to_owned());
    assert_eq!(
        private_draft_recipient(&draft, true, true, &books),
        Ok("0zk1recipient".to_owned())
    );
    assert_eq!(
        private_draft_recipient(&draft, false, true, &books),
        Err("Unlock the desktop wallet".to_owned())
    );
    assert_eq!(
        private_draft_recipient(&draft, true, false, &books),
        Err("Wallet storage is unavailable".to_owned())
    );
    assert_eq!(
        private_draft_recipient(&draft, true, true, &none),
        Err("Address book is unavailable".to_owned())
    );
    draft.recipient = "0zk1other".to_owned();
    assert_eq!(
        private_draft_recipient(&draft, true, true, &books),
        Err("Address book entry changed. Choose the recipient again.".to_owned())
    );
    draft.address_book_entry = Some("gone".to_owned());
    assert_eq!(
        private_draft_recipient(&draft, true, true, &books),
        Err("Address book entry is unavailable. Choose another recipient.".to_owned())
    );
    let mut public = unshield();
    public.address_book_entry = Some("p".to_owned());
    assert_eq!(
        private_draft_recipient(&public, true, true, &books),
        Ok("0x2222222222222222222222222222222222222222".to_owned())
    );
}

#[test]
fn a_draft_names_an_asset_of_its_wallet_and_network() {
    assert_eq!(private_draft_asset(&input(), Some("wallet"), 1, &assets()), Ok(0));
    assert_eq!(
        private_draft_asset(&input(), Some("other"), 1, &assets()),
        Err("Wallet or network changed. Open a new draft.".to_owned())
    );
    let mut unknown = input();
    unknown.asset = "0x3333333333333333333333333333333333333333".to_owned();
    assert_eq!(
        private_draft_asset(&unknown, Some("wallet"), 1, &assets()),
        Err("Choose an available private asset".to_owned())
    );
    unknown.asset = "USDC".to_owned();
    assert_eq!(
        private_draft_asset(&unknown, Some("wallet"), 1, &assets()),
        Err("Choose an available asset".to_owned())
    );
    let mut unpaid = input();
    unpaid.fee_token = String::new();
    assert_eq!(private_draft_fee_token(&unpaid), Err("Choose a fee token".to_owned()));
}

#[test]
fn native_output_is_for_unshielding() {
    let mut private = input();
    private.unwrap = true;
    assert_eq!(
        private_draft_output(&private, "0zk1", true, None, None),
        Err("Native output options are only available for Unshield.".to_owned())
    );
    let mut public = unshield();
    public.unwrap = true;
    assert_eq!(
        private_draft_output(&public, &public.recipient, false, None, None),
        Err("This asset cannot be unwrapped.".to_owned())
    );
    public.native_top_up = true;
    assert_eq!(
        private_draft_output(&public, "vitalik.eth", true, None, None),
        Err("Enter a public recipient".to_owned())
    );
    assert_eq!(
        private_draft_output(&public, &public.recipient, true, Some("Enter an amount".to_owned()), None),
        Err("Enter an amount".to_owned())
    );
    assert_eq!(
        private_draft_output(&public, &public.recipient, true, None, None),
        Err("Native top-up is unavailable for these inputs or private funds.".to_owned())
    );
    let plan = NativeTopUpPlan {
        native_amount: n(1),
        wrapped_native_token: Address::from_bytes([0x11; 20]),
        wrapped_native_amount: n(2),
    };
    assert_eq!(
        private_draft_output(&public, &public.recipient, true, None, Some(plan)),
        Ok(PrivateEstimateOutput::Unshield { unwrap: true, native_top_up: Some(plan) })
    );
}

#[test]
fn everything_is_estimated_with_the_greatest_amount() {
    let mut all = input();
    all.max = true;
    let resolution = DraftResolution {
        fee_mode: FeeHandlingMode::DeductFromAmount,
        wrapped_native: false,
        amount_error: None,
        top_up: None,
        max_amount: "4".to_owned(),
    };
    let inputs =
        private_draft_inputs(&all, "0zk1".to_owned(), Some("wallet"), 1, &assets(), resolution)
            .expect("complete inputs");
    assert_eq!(inputs.amount, "4");
    assert_eq!(inputs.asset, 0);
    assert_eq!(inputs.output, PrivateEstimateOutput::Send);
}

#[test]
fn an_estimate_holds_while_the_offer_does() {
    let facts = PreparedFacts {
        funds_current: true,
        entered_amount: n(5),
        max_entered_amount: n(5),
        chain_id: 1,
        fees_id: 7,
        fee: n(2),
        fee_expiration: 100,
    };
    let offer = BroadcasterOffer { fees_id: 7, fee: n(2), fee_expiration: 100 };
    assert!(prepared_is_current(&facts, 1, true, true, Some(offer)));
    assert!(!prepared_is_current(&facts, 1, true, true, None));
    assert!(!prepared_is_current(&facts, 56, true, true, Some(offer)));
    let dearer = BroadcasterOffer { fees_id: 7, fee: n(3), fee_expiration: 100 };
    assert!(!prepared_is_current(&facts, 1, true, true, Some(dearer)));
}

#[test]
fn drafts_are_estimated_when_they_are_due() {
    let due = |record: &DraftRecord, current, now| {
        private_draft_due(record, &input(), false, true, current, now, LIFETIME)
    };
    let mut draft = record(GatewayDraftStatus::Editing);
    assert!(due(&draft, false, 10));
    draft.estimated_at = Some(10);
    assert!(!due(&draft, false, 10 + 4_999_999_999));
    assert!(due(&draft, false, 10 + 5_000_000_000));
    draft.prepared = Some(PreparedDraftKind::Private);
    assert!(!due(&draft, true, 10 + 5_000_000_000));
    assert!(due(&draft, true, 10 + LIFETIME));
    draft.executing = true;
    assert!(!due(&draft, false, 10 + LIFETIME));
    let mut empty = input();
    empty.recipient = "  ".to_owned();
    assert!(!private_draft_due(
        &record(GatewayDraftStatus::Editing),
        &empty,
        false,
        true,
        false,
        10,
        LIFETIME
    ));
}

#[test]
fn names_are_resolved_for_public_recipients() {
    assert_eq!(
        recipient_to_resolve(GatewayPrivateDraftKind::Unshield, " vitalik.eth "),
        Some("vitalik.eth")
    );
    assert_eq!(recipient_to_resolve(GatewayPrivateDraftKind::Unshield, TOKEN), None);
    assert_eq!(recipient_to_resolve(GatewayPrivateDraftKind::PrivateSend, "vitalik.eth"), None);
    assert_eq!(
        resolved_recipient(None),
        Err("Recipient could not be resolved. Check the address or ENS name.".to_owned())
    );
    assert_eq!(resolved_recipient(Some(Address::from_bytes([0x11; 20]))), Ok(TOKEN.to_owned()));
    assert_eq!(
        picker_recipient(GatewayPrivateDraftKind::Unshield, None),
        Some("0x0000000000000000000000000000000000000000".to_owned())
    );
}

#[test]
fn an_estimate_of_everything_is_tried_again_with_less() {
    let mut draft = record(GatewayDraftStatus::Editing);
    let begun = begin_private_estimate(&mut draft, Ok("0zk1".to_owned()), None, 10);
    assert_eq!(begun, Some("0zk1".to_owned()));
    assert_eq!(draft.status, GatewayDraftStatus::Estimating);
    assert!(private_estimate_prepared(
        &mut draft,
        &version(),
        OPEN,
        EstimatePreparation::Request { funds_ready: true },
        true
    ));
    assert!(draft.estimating);
    let failed = || PrivateEstimateResult::Failed {
        message: "Too much".to_owned(),
        maximum: Some(n(3)),
    };
    assert_eq!(
        finish_private_estimate(
            &mut draft, &version(), OPEN, true, failed(), true, true, Some(n(5)), 20
        ),
        PrivateEstimateNext::RetryWith(n(3))
    );
    assert_eq!(
        finish_private_estimate(
            &mut draft, &version(), OPEN, true, failed(), false, true, Some(n(5)), 20
        ),
        PrivateEstimateNext::SentBack
    );
    assert_eq!(draft.message, "Too much");
    assert_eq!(draft.status, GatewayDraftStatus::Editing);

    let mut waiting = record(GatewayDraftStatus::Estimating);
    assert!(!private_estimate_prepared(
        &mut waiting,
        &version(),
        OPEN,
        EstimatePreparation::Request { funds_ready: false },
        true
    ));
    assert!(!waiting.estimating);
    assert_eq!(waiting.status, GatewayDraftStatus::Estimating);
}

#[test]
fn incomplete_drafts_are_sent_back_with_a_reason() {
    let mut draft = record(GatewayDraftStatus::Estimating);
    assert!(!private_estimate_prepared(
        &mut draft,
        &version(),
        OPEN,
        EstimatePreparation::Incomplete,
        true
    ));
    assert_eq!(draft.message, "Complete the inputs and choose an available broadcaster.");
    let mut begun = record(GatewayDraftStatus::Editing);
    assert_eq!(
        begin_private_estimate(&mut begun, Err("Unlock the desktop wallet".to_owned()), None, 1),
        None
    );
    assert_eq!(begun.message, "Unlock the desktop wallet");
}

#[test]
fn a_ready_draft_is_submitted_once() {
    let mut draft = record(GatewayDraftStatus::Estimating);
    assert_eq!(
        finish_private_estimate(
            &mut draft,
            &version(),
            OPEN,
            true,
            PrivateEstimateResult::Estimated,
            true,
            false,
            None,
            100
        ),
        PrivateEstimateNext::Ready
    );
    let other = DraftVersion { draft_id: "draft", revision: 2 };
    let submit = |draft: &mut DraftRecord, version: &DraftVersion, busy, current, now| {
        submit_private_draft(draft, version, OPEN, busy, current, now, LIFETIME)
    };
    assert_eq!(submit(&mut draft, &other, false, true, 100), SubmitNext::Ignored);
    assert_eq!(submit(&mut draft, &version(), true, true, 100), SubmitNext::Busy);
    assert_eq!(
        draft.message,
        "Finish or close the current action in the desktop app first."
    );
    assert_eq!(
        submit(&mut draft, &version(), false, true, 100 + LIFETIME),
        SubmitNext::Begin
    );
    assert!(draft.executing);
    assert!(!draft_is_current(&draft, &version(), OPEN));
    assert_eq!(submit(&mut draft, &version(), false, true, 101), SubmitNext::Ignored);

    let mut stale = record(GatewayDraftStatus::Ready);
    stale.prepared = Some(PreparedDraftKind::Private);
    stale.estimated_at = Some(0);
    assert_eq!(
        submit(&mut stale, &version(), false, true, LIFETIME + 1),
        SubmitNext::Reestimate
    );
}

#[test]
fn the_list_of_broadcasters_takes_over_the_estimate_of_its_draft() {
    let mut picker = PrivateDraftPicker::new("view".to_owned(), 3, String::new());
    let mut draft = record(GatewayDraftStatus::Ready);
    assert_eq!(picker.refresh(&draft, false, false, 5, LIFETIME), PickerNext::Estimate);
    assert!(!picker.begin(false));
    assert_eq!(picker.fee_placeholder(), "Estimate unavailable");
    assert!(picker.begin(true));
    assert_eq!(picker.fee_placeholder(), "Estimating…");
    assert_eq!(picker.refresh(&draft, false, false, 5, LIFETIME), PickerNext::Busy);
    assert!(!picker.finish(&draft, &version(), OPEN, 2, true, 5, 10));
    let other = DraftVersion { draft_id: "draft", revision: 2 };
    assert!(!picker.finish(&draft, &other, OPEN, 3, true, 5, 10));
    assert!(picker.job);
    assert!(picker.finish(&draft, &version(), OPEN, 3, false, 5, 10));
    assert_eq!(picker.fee_placeholder(), "Retrying…");
    assert_eq!(picker.refresh(&draft, false, false, 14, LIFETIME), PickerNext::Waiting);
    assert_eq!(picker.refresh(&draft, false, false, 15, LIFETIME), PickerNext::Estimate);
    draft.estimated_at = Some(15);
    assert_eq!(picker.refresh(&draft, true, false, 16, LIFETIME), PickerNext::Fresh);
    assert!(picker.has_estimate);
}

#[test]
fn submissions_have_random_identifiers() {
    assert_eq!(
        execution_id_of(&[0x0f, 0, 0, 0, 0, 0, 0, 0, 0, 0, 0, 0, 0, 0, 0, 0xa0]),
        "0f0000000000000000000000000000a0"
    );
    let first = new_execution_id();
    let second = new_execution_id();
    assert_eq!(first.len(), 32);
    assert!(first.chars().all(|digit| digit.is_ascii_hexdigit()));
    assert_ne!(first, second);
}

#[test]
fn something_that_never_happened_is_not_within() {
    assert!(!is_within(None, 10, 5));
    assert!(is_within(Some(6), 10, 5));
    assert!(!is_within(Some(5), 10, 5));
    assert!(is_within(Some(20), 10, 5));
}

fn signer(uuid: &str, source: PublicAccountSource) -> SignerFacts {
    SignerFacts {
        account: PublicAccountMetadata {
            public_account_uuid: uuid.to_owned(),
            address: Address::from_bytes([uuid.as_bytes()[0]; 20]),
            label: None,
            display_label: None,
            source,
            scope: PublicAccountScope::Global,
            status: PublicAccountStatus::Active,
        },
        label: uuid.to_owned(),
        address_label: "0x…".to_owned(),
        balance: "1.0".to_owned(),
        random_candidate: true,
        balance_zero: false,
    }
}

#[test]
fn hardware_signers_need_hardware_support() {
    let hardware = signer("h", PublicAccountSource::HardwareDerived);
    assert_eq!(
        signer_unavailable_reason(&hardware.account, false),
        Some("Hardware signing is unavailable in this desktop build.")
    );
    assert_eq!(signer_unavailable_reason(&hardware.account, true), None);
    let imported = signer("i", PublicAccountSource::Imported);
    assert_eq!(signer_unavailable_reason(&imported.account, false), None);
    let accounts = vec![hardware.account.copy(), imported.account.copy()];
    assert_eq!(eligible_signers(&accounts, false), vec![imported.account.copy()]);
    let choices = signer_choices(&vec![hardware, imported], "ETH", None, false, false);
    assert_eq!(choices[0].balance_label, "1.0 ETH");
    assert!(!choices[0].random_candidate && choices[1].random_candidate);
}

fn caps(max_fee: u128, tip: u128) -> ParsedCaps {
    ParsedCaps {
        max_fee: Ok(max_fee),
        tip: Ok(tip),
        valid: if tip > max_fee { Err("Tip exceeds the fee".to_owned()) } else { Ok(()) },
    }
}

#[test]
fn custom_fees_have_to_be_valid() {
    let custom = GatewayPrivateGasFee::Custom {
        max_fee_gwei: "20".to_owned(),
        priority_fee_gwei: "2".to_owned(),
    };
    assert_eq!(
        gas_selection(&GatewayPrivateGasFee::Auto, caps(1, 2)),
        Ok(PublicActionGasFeeSelection::Auto)
    );
    assert_eq!(
        gas_selection(&custom, caps(20, 2)),
        Ok(PublicActionGasFeeSelection::Custom { max_fee_per_gas: 20, max_priority_fee_per_gas: 2 })
    );
    assert_eq!(gas_selection(&custom, caps(2, 20)), Err("Tip exceeds the fee".to_owned()));
    assert_eq!(
        gas_quote_error(false, PublicActionGasFeeSelection::Auto),
        Some("Gas quote is unavailable. Refresh or enter custom gas fees.")
    );
    assert_eq!(gas_quote_error(true, PublicActionGasFeeSelection::Auto), None);
}

fn knowledge() -> SelfBroadcastKnowledge {
    SelfBroadcastKnowledge {
        signers: vec![signer("i", PublicAccountSource::Imported)],
        hardware_supported: false,
        zero_warning: "No gas".to_owned(),
        sponsorship_unavailable: None,
        custom_incentive: Ok(SponsoredIncentive::Custom(7)),
        private_recipient_error: None,
        unshield_maximum: n(4_000_000),
        parsed_amount: Ok(n(1_500_000)),
        caps: caps(20, 2),
        wrapped_native: false,
        top_up_amount_error: None,
        top_up: None,
        synced: true,
        chain_error: None,
        recipient_error: None,
    }
}

fn delivery() -> SelfBroadcastInput {
    SelfBroadcastInput {
        signer: Some("i".to_owned()),
        funding: GatewayPrivateFunding::PublicBalance,
        fee: GatewayPrivateGasFee::Auto,
    }
}

#[test]
fn a_prepared_self_broadcast_fills_a_form_that_matches_it() {
    let prepared = prepare_self_broadcast(
        &input(),
        Some(&delivery()),
        "0zk1recipient".to_owned(),
        Some("wallet"),
        1,
        &assets(),
        knowledge(),
    )
    .expect("complete inputs");
    assert_eq!(prepared.amount, n(1_500_000));
    assert_eq!(prepared.funding, SelfBroadcastFundingMode::PublicBalance);
    let form = self_broadcast_form(&prepared, "i");
    assert!(self_broadcast_review_current(true, true, Some(&prepared), true, "i", Some(&form)));
    assert!(!self_broadcast_review_current(true, true, Some(&prepared), false, "i", Some(&form)));
    let mut changed = self_broadcast_form(&prepared, "i");
    changed.amount = Some(n(1));
    assert!(!self_broadcast_review_current(true, true, Some(&prepared), true, "i", Some(&changed)));
    assert!(self_broadcast_review_current(false, false, None, false, "i", None));
}

#[test]
fn the_amount_that_the_recipient_gets() {
    let send = PrivateEstimateOutput::Send;
    assert_eq!(recipient_amount(&send, n(10), None, None, n(0)), n(10));
    let plain = PrivateEstimateOutput::Unshield { unwrap: false, native_top_up: None };
    assert_eq!(recipient_amount(&plain, n(10), Some(n(10)), Some(n(1)), n(0)), n(9));
    assert_eq!(recipient_amount(&plain, n(10), None, Some(n(1)), n(0)), n(0));
}

#[test]
fn incomplete_self_broadcast_inputs_still_fetch_gas_quote() {
    let mut draft = record(GatewayDraftStatus::Estimating);
    let shown = finish_self_broadcast_estimate(
        &mut draft,
        &version(),
        OPEN,
        true,
        false,
        SelfBroadcastResult::Failed("Enter a public recipient".to_owned()),
        10,
    );
    assert!(draft.gas_quoted);
    assert_eq!(shown, SelfBroadcastShown::Nothing);
    assert!(draft.prepared.is_none(), "a gas quote cannot prepare a spend");
    assert_eq!(draft.message, "Enter a public recipient");
}

#[test]
fn a_self_broadcast_is_ready_with_a_fee_that_can_be_paid() {
    let finish = |estimate, current| {
        let mut draft = record(GatewayDraftStatus::Estimating);
        let shown = finish_self_broadcast_estimate(
            &mut draft,
            &version(),
            OPEN,
            true,
            true,
            SelfBroadcastResult::Prepared { current, estimate },
            10,
        );
        (draft, shown)
    };
    let (ready, shown) = finish(SponsoredFundingEstimate::PublicBalanceReady, true);
    assert_eq!(shown, SelfBroadcastShown::Estimate);
    assert_eq!(ready.status, GatewayDraftStatus::Ready);
    assert_eq!(ready.prepared, Some(PreparedDraftKind::PrivateSelfBroadcast));
    let (unpaid, _) = finish(SponsoredFundingEstimate::PublicBalanceUnavailable, true);
    assert_eq!(unpaid.status, GatewayDraftStatus::Editing);
    let (stale, shown) = finish(SponsoredFundingEstimate::Ready, false);
    assert_eq!(shown, SelfBroadcastShown::Error);
    assert_eq!(stale.message, "Private funds or signer changed. Refresh the estimate.");
}

#[test]
fn selected_fees_are_put_into_the_editor() {
    let mut editor = GasFeeEditor {
        mode: GasFeeMode::Auto,
        refresh_id: 1,
        refreshing: false,
        quote: None,
        quote_error: None,
        error: Some("old".to_owned()),
    };
    let quote = GasFeeQuote {
        suggested_max_fee_per_gas: 30,
        suggested_max_priority_fee_per_gas: 3,
    };
    let inputs = install_gas_selection(
        &mut editor,
        Some(quote),
        PublicActionGasFeeSelection::Custom { max_fee_per_gas: 20, max_priority_fee_per_gas: 2 },
    );
    assert_eq!(inputs, Some((20, 2)));
    assert_eq!(editor.mode, GasFeeMode::Custom);
    assert_eq!(editor.quote, Some(quote));
}

#[test]
fn a_self_broadcast_is_refused_with_its_reason() {
    let refused = |delivery: Option<&SelfBroadcastInput>, known: SelfBroadcastKnowledge| {
        prepare_self_broadcast(
            &input(),
            delivery,
            "0zk1recipient".to_owned(),
            Some("wallet"),
            1,
            &assets(),
            known,
        )
        .err()
        .expect("refused")
    };
    let with = |change: &dyn Fn(&mut SelfBroadcastKnowledge)| {
        let mut known = knowledge();
        change(&mut known);
        refused(Some(&delivery()), known)
    };
    assert_eq!(refused(None, knowledge()), "Choose self-broadcast delivery.");
    let unsigned = SelfBroadcastInput { signer: None, ..delivery() };
    assert_eq!(
        refused(Some(&unsigned), knowledge()),
        "Choose a Public account for this transaction."
    );
    assert_eq!(
        with(&|known| known.signers = Vec::new()),
        "Choose a Public account for this transaction."
    );
    assert_eq!(
        with(&|known| known.parsed_amount = Ok(n(0))),
        "Enter an amount within the available private balance."
    );
    assert_eq!(
        with(&|known| known.parsed_amount = Err("Enter a number".to_owned())),
        "Enter a number"
    );
    assert_eq!(
        with(&|known| known.synced = false),
        "Generation is available after wallet sync finishes."
    );
    assert_eq!(with(&|known| known.chain_error = Some("Off".to_owned())), "Off");
}

#[test]
fn an_interrupted_self_broadcast_is_sent_back() {
    let mut draft = record(GatewayDraftStatus::Estimating);
    let shown = finish_self_broadcast_estimate(
        &mut draft,
        &version(),
        OPEN,
        true,
        true,
        SelfBroadcastResult::Interrupted,
        10,
    );
    assert_eq!(shown, SelfBroadcastShown::Error);
    assert_eq!(draft.message, "Self-broadcast estimate was interrupted.");
    assert_eq!(draft.status, GatewayDraftStatus::Editing);
}
