//! What is asked for before a draft is submitted, and the form that it is submitted with.
use wallet::address::Address;
use wallet::gateway::draft_options::pending_submission_context;
use wallet::gateway::drafts::{DraftRecord, DraftVersion, GatewayDraftStatus};
use wallet::gateway::private_draft::{
    draft_recipients, private_submission_form, retry_input, retry_private_estimate,
    unshield_form_of, BroadcasterChoice, DeliveryFormKind, FeeHandlingMode,
    GatewayDraftRecipient, GatewayPrivateDraftInput, GatewayPrivateDraftKind,
    GatewayPrivateFeeMode, NativeTopUpPlan, PrivateContact, PrivateEstimateInput,
    PrivateEstimateOutput, PublicContact, RecipientOption, RecipientSource, UnshieldForm,
};
use wallet::gateway::self_broadcast::{
    begin_self_broadcast_estimate, self_broadcast_estimate, self_broadcast_form,
    self_broadcast_options, self_broadcast_query, self_broadcast_review_current,
    GatewayPrivateFunding, GatewayPrivateGasFee, GatewayPrivateIncentive, ParsedCaps,
    PreparedSelfBroadcast, SelfBroadcastAnswer, SelfBroadcastFundingMode, SelfBroadcastInput,
    SelfBroadcastOffer, SelfBroadcastQuery, SponsoredFundingEstimate, SponsoredIncentive,
};
use wallet::governance::rewards::PublicActionGasFeeSelection;
use wallet::u256::U256;

const RECIPIENT: &str = "0x2222222222222222222222222222222222222222";

fn n(value: u64) -> U256 {
    U256::from_u64(value)
}

fn plan() -> NativeTopUpPlan {
    NativeTopUpPlan {
        native_amount: n(1),
        wrapped_native_token: Address::from_bytes([0x11; 20]),
        wrapped_native_amount: n(2),
    }
}

fn prepared(
    funding: SelfBroadcastFundingMode,
    output: PrivateEstimateOutput,
) -> PreparedSelfBroadcast {
    PreparedSelfBroadcast {
        asset: 0,
        recipient: RECIPIENT.to_owned(),
        amount: n(10),
        maximum: n(20),
        fee_mode: FeeHandlingMode::DeductFromAmount,
        output,
        signer: 0,
        funding,
        incentive: SponsoredIncentive::Standard,
        gas_selection: PublicActionGasFeeSelection::Auto,
    }
}

#[test]
fn the_cost_is_asked_for_where_the_signer_pays() {
    let public = SelfBroadcastFundingMode::PublicBalance;
    let sponsored = SelfBroadcastFundingMode::PrivateSponsorship;
    let send = PrivateEstimateOutput::Send;
    let plain = PrivateEstimateOutput::Unshield { unwrap: false, native_top_up: None };
    let topped = PrivateEstimateOutput::Unshield { unwrap: false, native_top_up: Some(plan()) };
    let ask = |funding, output| self_broadcast_query(&prepared(funding, output), true, true, true);
    assert_eq!(
        self_broadcast_query(&prepared(public, send), false, true, true),
        SelfBroadcastQuery::Nothing
    );
    assert_eq!(ask(public, send), SelfBroadcastQuery::SendCost);
    assert_eq!(ask(public, plain), SelfBroadcastQuery::UnshieldCost { executor_gas: false });
    assert_eq!(ask(public, topped), SelfBroadcastQuery::UnshieldCost { executor_gas: true });
    assert_eq!(ask(sponsored, send), SelfBroadcastQuery::SendLimit);
    assert_eq!(
        ask(sponsored, plain),
        SelfBroadcastQuery::UnshieldLimit { recipient: Some(Address::from_bytes([0x22; 20])) }
    );
    let mut named = prepared(sponsored, plain);
    named.recipient = "alice.eth".to_owned();
    assert_eq!(
        self_broadcast_query(&named, true, true, true),
        SelfBroadcastQuery::UnshieldLimit { recipient: None }
    );
}

#[test]
fn nothing_is_estimated_without_the_fee_of_the_protocol() {
    let send = PrivateEstimateOutput::Send;
    let plain = PrivateEstimateOutput::Unshield { unwrap: false, native_top_up: None };
    let limit = SelfBroadcastAnswer::Limit {
        estimate: SponsoredFundingEstimate::Ready,
        protocol_fee_known: false,
    };
    assert_eq!(self_broadcast_estimate(&send, limit), SponsoredFundingEstimate::Ready);
    assert_eq!(self_broadcast_estimate(&plain, limit), SponsoredFundingEstimate::Unavailable);
    assert_eq!(
        self_broadcast_estimate(&plain, SelfBroadcastAnswer::Cost { known: true }),
        SponsoredFundingEstimate::PublicBalanceReady
    );
    assert_eq!(
        self_broadcast_estimate(&send, SelfBroadcastAnswer::Cost { known: false }),
        SponsoredFundingEstimate::PublicBalanceUnavailable
    );
    assert_eq!(
        self_broadcast_estimate(&send, SelfBroadcastAnswer::Nothing),
        SponsoredFundingEstimate::Unavailable
    );
}

fn offer(caps: ParsedCaps) -> SelfBroadcastOffer {
    SelfBroadcastOffer {
        signers: Vec::new(),
        default_signer: Some("i".to_owned()),
        show_sponsorship: true,
        sponsorship_unavailable: None,
        hardware_supported: false,
        native_label: "ETH".to_owned(),
        zero_warning: "No gas".to_owned(),
        caps,
        custom_incentive_error: Some("Enter a percentage".to_owned()),
    }
}

#[test]
fn wrong_fees_and_incentives_are_named() {
    let caps = || ParsedCaps {
        max_fee: Err("Enter a maximum fee".to_owned()),
        tip: Ok(1),
        valid: Ok(()),
    };
    let options = self_broadcast_options(None, offer(caps()));
    assert_eq!(options.gas_error, None);
    assert_eq!(options.incentive_error, None);
    assert_eq!(options.default_signer, Some("i".to_owned()));
    let delivery = SelfBroadcastInput {
        signer: Some("gone".to_owned()),
        funding: GatewayPrivateFunding::Sponsorship {
            incentive: GatewayPrivateIncentive::Custom { percent: "x".to_owned() },
        },
        fee: GatewayPrivateGasFee::Custom {
            max_fee_gwei: "x".to_owned(),
            priority_fee_gwei: "1".to_owned(),
        },
    };
    let options = self_broadcast_options(Some(&delivery), offer(caps()));
    assert_eq!(options.gas_error, Some("Enter a maximum fee".to_owned()));
    assert_eq!(options.incentive_error, Some("Enter a percentage".to_owned()));
    assert_eq!(
        options.signer_error,
        Some("The selected Public account is unavailable. Choose a signer again.".to_owned())
    );
    assert!(options.signers.is_empty());
}

#[test]
fn a_form_of_funds_that_leave_holds_how_they_come_out() {
    let topped = PrivateEstimateOutput::Unshield { unwrap: true, native_top_up: Some(plan()) };
    assert_eq!(unshield_form_of(PrivateEstimateOutput::Send), None);
    assert_eq!(
        unshield_form_of(topped),
        Some(UnshieldForm {
            unwrap: true,
            native_top_up_enabled: true,
            native_top_up: Some(plan())
        })
    );
    let prepared = prepared(SelfBroadcastFundingMode::PublicBalance, topped);
    let mut form = self_broadcast_form(&prepared, "i");
    assert!(self_broadcast_review_current(true, true, Some(&prepared), true, "i", Some(&form)));
    form.unshield = Some(UnshieldForm {
        unwrap: true,
        native_top_up_enabled: false,
        native_top_up: Some(plan()),
    });
    assert!(!self_broadcast_review_current(true, true, Some(&prepared), true, "i", Some(&form)));
}

fn record() -> DraftRecord {
    DraftRecord {
        draft_id: "draft".to_owned(),
        revision: 3,
        status: GatewayDraftStatus::Estimating,
        message: String::new(),
        wallet: 9,
        wallet_generation: 2,
        executing: false,
        estimating: false,
        prepared: None,
        estimated_at: None,
        gas_quoted: false,
    }
}

#[test]
fn an_estimate_begins_for_the_revision_as_it_stands() {
    let mut draft = record();
    let old = DraftVersion { draft_id: "draft", revision: 2 };
    let own = DraftVersion { draft_id: "draft", revision: 3 };
    assert!(!begin_self_broadcast_estimate(&mut draft, &old, true));
    assert!(!begin_self_broadcast_estimate(&mut draft, &own, false));
    assert!(!draft.estimating);
    assert!(begin_self_broadcast_estimate(&mut draft, &own, true));
    assert!(draft.estimating);
    draft.executing = true;
    assert!(!begin_self_broadcast_estimate(&mut draft, &own, true));
}

#[test]
fn less_than_everything_is_entered_as_an_amount() {
    let input = GatewayPrivateDraftInput {
        kind: GatewayPrivateDraftKind::PrivateSend,
        wallet: "wallet".to_owned(),
        chain_id: 1,
        asset: "0x1111111111111111111111111111111111111111".to_owned(),
        amount: String::new(),
        max: true,
        recipient: "0zk1".to_owned(),
        address_book_entry: Some("entry".to_owned()),
        fee_token: String::new(),
        fee_mode: GatewayPrivateFeeMode::Deduct,
        broadcaster: BroadcasterChoice::Specific { id: "b".to_owned() },
        unwrap: false,
        native_top_up: false,
        allow_out_of_range: true,
        favorites_only: false,
    };
    let adjusted = retry_input(&input, "3".to_owned());
    assert!(!adjusted.max && adjusted.allow_out_of_range);
    assert_eq!(adjusted.amount, "3");
    assert_eq!(adjusted.address_book_entry, Some("entry".to_owned()));
    let mut draft = record();
    retry_private_estimate(&mut draft, true, "Too much");
    assert!(draft.estimating && draft.message.is_empty());
    let mut refused = record();
    retry_private_estimate(&mut refused, false, "Too much");
    assert_eq!(refused.message, "Too much");
    assert_eq!(refused.status, GatewayDraftStatus::Editing);
}

#[test]
fn recipients_carry_the_identifier_of_their_entry() {
    let option = |source, address: &str| RecipientOption {
        source,
        label: "Ann".to_owned(),
        address: address.to_owned(),
    };
    let private =
        vec![PrivateContact { entry_uuid: "e".to_owned(), address: "0zk1".to_owned() }];
    let public = vec![PublicContact {
        entry_uuid: "p".to_owned(),
        address: Address::from_bytes([0x22; 20]),
    }];
    let options = vec![
        option(RecipientSource::PrivateAddressBook, "0zk1"),
        option(RecipientSource::PublicAddressBook, RECIPIENT),
        option(RecipientSource::Other, "0zk1"),
    ];
    let shown = |id: &str, address: &str| GatewayDraftRecipient {
        id: id.to_owned(),
        label: "Ann".to_owned(),
        address: address.to_owned(),
    };
    assert_eq!(
        draft_recipients(&options, &private, &public),
        vec![shown("e", "0zk1"), shown("p", RECIPIENT), shown("", "0zk1")]
    );
}

#[test]
fn a_submission_fills_the_form_with_what_was_estimated() {
    let input = PrivateEstimateInput {
        asset: 1,
        recipient: RECIPIENT.to_owned(),
        amount: "0.1".to_owned(),
        fee_token: Address::from_bytes([0x33; 20]),
        fee_mode: FeeHandlingMode::AddToAmount,
        output: PrivateEstimateOutput::Unshield { unwrap: true, native_top_up: None },
        broadcaster: BroadcasterChoice::Random,
        allow_out_of_range: true,
        favorites_only: false,
    };
    let form = private_submission_form(input, n(7), Some(4));
    assert_eq!(form.kind, DeliveryFormKind::Unshield);
    assert_eq!((form.asset, form.amount, form.estimated_at), (1, n(7), Some(4)));
    assert!(form.allow_suspicious_broadcasters && !form.favorites_only_broadcasters);
    assert_eq!(form.unshield.map(|own| own.native_top_up_enabled), Some(false));
}

#[test]
fn only_submissions_that_wait_for_approval_are_shown() {
    let context = |generating, status, is_private| {
        pending_submission_context(generating, status, is_private, "1.5", "USDC", "0zk1")
    };
    let shown = context(false, GatewayDraftStatus::Attention, true).expect("waits");
    assert_eq!(shown.summary, "1.5 USDC");
    assert_eq!(shown.rows[2].value, "1.5");
    assert!(context(true, GatewayDraftStatus::Attention, true).is_none());
    assert!(context(false, GatewayDraftStatus::Failed, true).is_none());
    assert!(context(false, GatewayDraftStatus::Attention, false).is_none());
}
