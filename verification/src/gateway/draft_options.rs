//! What a paired extension may choose from for a private transaction.
use crate::address::{checksum_text, parsed_address, Address};
use crate::gateway::drafts::GatewayDraftStatus;
use crate::gateway::private_draft::{
    draft_asset, native_top_up_request, offered_recipient, private_draft_asset,
    private_draft_fee_token, top_up_asked, top_up_recipient, AssetOutcome, BroadcasterChoice,
    GatewayPrivateDraftInput, GatewayPrivateDraftKind, PrivateAsset, PrivateDraftPicker,
};
use crate::governance::participants::wallet_text;
use crate::text::{concat3, optional_text, starts_with};
use crate::u256::U256;
use vstd::prelude::*;
use vstd::string::*;

verus! {

/// Where an icon comes from.
#[derive(Debug, PartialEq, Eq)]
pub enum IconSource {
    Absent,
    Embedded(String),
    Other,
}

/// The icon that an extension can show: one that is embedded with the interface.
pub open spec fn shared_icon(icon: IconSource) -> Option<Seq<char>> {
    match icon {
        IconSource::Embedded(path) => if "railgun-ui/"@.is_prefix_of(path@) {
            Some(path@)
        } else {
            None
        },
        _ => None,
    }
}

/// The icon that an extension can show.
pub fn shared_icon_path(icon: &IconSource) -> (path: Option<String>)
    ensures
        optional_text(path) == shared_icon(*icon),
{
    match icon {
        IconSource::Embedded(path) => if starts_with(path, "railgun-ui/") {
            Some(path.clone())
        } else {
            None
        },
        _ => None,
    }
}

/// An asset that can be chosen, with the texts of its amounts.
pub struct AssetOption {
    pub token: Address,
    pub label: String,
    pub max_amount: String,
    pub max_amount_label: String,
    pub available: String,
    pub broadcaster_count: usize,
    pub icon: IconSource,
}

/// An asset as an extension sees it.
#[derive(Debug, PartialEq, Eq)]
pub struct AssetChoice {
    pub id: String,
    pub label: String,
    pub max_amount: String,
    pub max_amount_label: String,
    pub available: String,
    pub broadcaster_count: usize,
    pub icon: Option<String>,
}

/// What a choice says.
pub struct AssetChoiceId {
    pub id: Seq<char>,
    pub label: Seq<char>,
    pub max_amount: Seq<char>,
    pub max_amount_label: Seq<char>,
    pub available: Seq<char>,
    pub broadcaster_count: usize,
    pub icon: Option<Seq<char>>,
}

impl View for AssetChoice {
    type V = AssetChoiceId;

    open spec fn view(&self) -> AssetChoiceId {
        AssetChoiceId {
            id: self.id@,
            label: self.label@,
            max_amount: self.max_amount@,
            max_amount_label: self.max_amount_label@,
            available: self.available@,
            broadcaster_count: self.broadcaster_count,
            icon: optional_text(self.icon),
        }
    }
}

/// What several choices say.
pub open spec fn choice_ids(choices: Seq<AssetChoice>) -> Seq<AssetChoiceId> {
    choices.map_values(|choice: AssetChoice| choice@)
}

/// The choice of an asset. Of a fee token everything that can be spent is available.
pub open spec fn asset_choice(option: AssetOption, pays_fee: bool) -> AssetChoiceId {
    AssetChoiceId {
        id: checksum_text(option.token.value()),
        label: option.label@,
        max_amount: option.max_amount@,
        max_amount_label: option.max_amount_label@,
        available: if pays_fee {
            option.max_amount_label@
        } else {
            option.available@
        },
        broadcaster_count: if pays_fee {
            option.broadcaster_count
        } else {
            0
        },
        icon: shared_icon(option.icon),
    }
}

/// The choices of several assets.
pub open spec fn asset_choices_of(options: Seq<AssetOption>, pays_fee: bool) -> Seq<AssetChoiceId> {
    options.map_values(|option: AssetOption| asset_choice(option, pays_fee))
}

/// The choices of several assets.
pub fn asset_choices(options: &Vec<AssetOption>, pays_fee: bool) -> (choices: Vec<AssetChoice>)
    ensures
        choice_ids(choices@) == asset_choices_of(options@, pays_fee),
        choices@.len() == options@.len(),
        forall|i: int|
            #![trigger choices@[i]]
            0 <= i < choices@.len() ==> choices@[i].id@ == checksum_text(options@[i].token.value())
                && choices@[i].label@ == options@[i].label@ && choices@[i].max_amount@
                == options@[i].max_amount@ && choices@[i].max_amount_label@
                == options@[i].max_amount_label@ && (pays_fee ==> choices@[i].broadcaster_count
                == options@[i].broadcaster_count && choices@[i].available@
                == options@[i].max_amount_label@) && (!pays_fee ==> choices@[i].broadcaster_count
                == 0 && choices@[i].available@ == options@[i].available@),
{
    let mut choices: Vec<AssetChoice> = Vec::new();
    let mut i: usize = 0;
    assert(choice_ids(choices@) =~= asset_choices_of(options@.take(0), pays_fee));
    while i < options.len()
        invariant
            i <= options@.len(),
            choice_ids(choices@) == asset_choices_of(options@.take(i as int), pays_fee),
        decreases options@.len() - i,
    {
        let ghost before = choices@;
        let option = &options[i];
        let choice = AssetChoice {
            id: option.token.to_checksum(),
            label: option.label.clone(),
            max_amount: option.max_amount.clone(),
            max_amount_label: option.max_amount_label.clone(),
            available: if pays_fee {
                option.max_amount_label.clone()
            } else {
                option.available.clone()
            },
            broadcaster_count: if pays_fee {
                option.broadcaster_count
            } else {
                0
            },
            icon: shared_icon_path(&option.icon),
        };
        assert(choice@ == asset_choice(options@[i as int], pays_fee));
        choices.push(choice);
        proof {
            assert(choice_ids(choices@) =~= choice_ids(before).push(choice@));
            assert(asset_choices_of(options@.take(i + 1), pays_fee) =~= asset_choices_of(
                options@.take(i as int),
                pays_fee,
            ).push(choice@));
        }
        i += 1;
    }
    assert(options@.take(i as int) =~= options@);
    assert forall|j: int| 0 <= j < choices@.len() implies (#[trigger] choices@[j])@ == asset_choice(
        options@[j],
        pays_fee,
    ) by {
        assert(choice_ids(choices@)[j] == asset_choices_of(options@, pays_fee)[j]);
    }
    assert(choice_ids(choices@).len() == asset_choices_of(options@, pays_fee).len());
    choices
}

/// An amount that is shown of the asset.
#[derive(Debug, PartialEq, Eq)]
pub struct AmountMetric {
    pub label: String,
    pub value: String,
    pub amount: String,
}

/// The offer to send gas along.
#[derive(Debug, PartialEq, Eq)]
pub struct TopUpOption {
    pub label: String,
    pub funding_detail: String,
}

/// The texts of a top-up.
pub struct TopUpTexts {
    pub native_label: String,
    pub native_amount: String,
    pub wrapped_amount: String,
}

/// A broadcaster that takes the fee token.
#[derive(Debug, PartialEq, Eq)]
pub struct BroadcasterCandidate {
    pub railgun_address: String,
    /// Whether it matches the search of the open list.
    pub matches_query: bool,
}

/// What tells one broadcaster from another.
pub struct CandidateId {
    pub railgun_address: Seq<char>,
    pub matches_query: bool,
}

impl View for BroadcasterCandidate {
    type V = CandidateId;

    open spec fn view(&self) -> CandidateId {
        CandidateId { railgun_address: self.railgun_address@, matches_query: self.matches_query }
    }
}

/// What several broadcasters are told by.
pub open spec fn candidate_ids(candidates: Seq<BroadcasterCandidate>) -> Seq<CandidateId> {
    candidates.map_values(|candidate: BroadcasterCandidate| candidate@)
}

/// The broadcasters to choose from: all of them where fees out of range are allowed, and else those
/// that the fee policy admits.
pub open spec fn choosable(
    all: Seq<BroadcasterCandidate>,
    eligible: Seq<BroadcasterCandidate>,
    allow_out_of_range: bool,
) -> Seq<BroadcasterCandidate> {
    if allow_out_of_range {
        all
    } else {
        eligible
    }
}

/// The broadcasters to choose from, before they are sorted.
pub fn shown_candidates<'a>(
    all: &'a Vec<BroadcasterCandidate>,
    eligible: &'a Vec<BroadcasterCandidate>,
    allow_out_of_range: bool,
) -> (shown: &'a Vec<BroadcasterCandidate>)
    ensures
        shown@ == choosable(all@, eligible@, allow_out_of_range),
{
    if allow_out_of_range {
        all
    } else {
        eligible
    }
}

/// The broadcasters that match the search, in their order.
pub fn matching_candidates(candidates: &Vec<BroadcasterCandidate>) -> (found: Vec<
    BroadcasterCandidate,
>)
    ensures
        candidate_ids(found@) == candidate_ids(candidates@).filter(
            |candidate: CandidateId| candidate.matches_query,
        ),
{
    let ghost matching = |candidate: CandidateId| candidate.matches_query;
    let mut found: Vec<BroadcasterCandidate> = Vec::new();
    let mut i: usize = 0;
    proof {
        reveal(Seq::filter);
        assert(candidate_ids(candidates@.take(0)) =~= Seq::<CandidateId>::empty());
        assert(candidate_ids(found@) =~= Seq::<CandidateId>::empty());
    }
    while i < candidates.len()
        invariant
            i <= candidates@.len(),
            matching == (|candidate: CandidateId| candidate.matches_query),
            candidate_ids(found@) == candidate_ids(candidates@.take(i as int)).filter(matching),
        decreases candidates@.len() - i,
    {
        let ghost before = found@;
        let candidate = &candidates[i];
        proof {
            reveal(Seq::filter);
            let next = candidate_ids(candidates@.take(i + 1));
            assert(next.drop_last() =~= candidate_ids(candidates@.take(i as int)));
            assert(next.last() == candidate@);
        }
        if candidate.matches_query {
            found.push(
                BroadcasterCandidate {
                    railgun_address: candidate.railgun_address.clone(),
                    matches_query: true,
                },
            );
            assert(candidate_ids(found@) =~= candidate_ids(before).push(candidate@));
        }
        i += 1;
    }
    assert(candidates@.take(i as int) =~= candidates@);
    found
}

/// The estimate that the open list shows its fees by.
#[derive(Clone, Copy, Debug, PartialEq, Eq, Structural)]
pub enum PickerEstimate {
    /// The one that the draft was prepared with.
    Prepared,
    /// The one that the list was estimated with.
    Own,
}

/// What the rows of the open list are asked for with.
pub struct PickerRequest {
    pub candidates: Vec<BroadcasterCandidate>,
    pub estimate: Option<PickerEstimate>,
    pub selected: Option<String>,
    /// What stands in the place of a fee that is not known.
    pub placeholder: &'static str,
}

/// What the rows of the open list are asked for with, where `sorted` are the broadcasters to choose
/// from, in order: those that match the search, with the fees of the prepared estimate, or without
/// one of the list's own.
pub fn picker_request(
    input: &GatewayPrivateDraftInput,
    prepared: bool,
    picker: &PrivateDraftPicker,
    sorted: &Vec<BroadcasterCandidate>,
) -> (request: PickerRequest)
    ensures
        candidate_ids(request.candidates@) == candidate_ids(sorted@).filter(
            |candidate: CandidateId| candidate.matches_query,
        ),
        request.estimate == if prepared {
            Some(PickerEstimate::Prepared)
        } else if picker.has_estimate {
            Some(PickerEstimate::Own)
        } else {
            None
        },
        optional_text(request.selected) == match input.broadcaster {
            BroadcasterChoice::Random => None,
            BroadcasterChoice::Specific { id } => Some(id@),
        },
        request.placeholder@ == picker.placeholder(),
{
    PickerRequest {
        candidates: matching_candidates(sorted),
        estimate: if prepared {
            Some(PickerEstimate::Prepared)
        } else if picker.has_estimate {
            Some(PickerEstimate::Own)
        } else {
            None
        },
        selected: match &input.broadcaster {
            BroadcasterChoice::Random => None,
            BroadcasterChoice::Specific { id } => Some(id.clone()),
        },
        placeholder: picker.fee_placeholder(),
    }
}

/// The list of broadcasters as an extension sees it.
#[derive(Debug, PartialEq, Eq)]
pub struct PickerProjection {
    pub view_id: String,
    pub query: String,
    pub total_count: usize,
    /// The rows that match the search, as they are written.
    pub rows: Vec<String>,
}

/// What the desktop app knows for the choices of a draft.
pub struct DraftKnowledge {
    pub assets: Vec<AssetOption>,
    pub fee_tokens: Vec<AssetOption>,
    /// The amounts that are shown of the chosen asset.
    pub metrics: Vec<AmountMetric>,
    /// The warning that not everything can be spent at once.
    pub capacity_warning: String,
    /// The warning that a top-up links the recipient.
    pub top_up_warning: String,
    pub fee_token_warning: Option<String>,
    pub show_fee_mode: bool,
    /// Whether the asset is the wrapped native token.
    pub wrapped_native: bool,
    /// The labels of the native and the wrapped token.
    pub output_labels: Option<(String, String)>,
    /// The recipient that the draft was prepared with.
    pub prepared_recipient: Option<String>,
    /// The amount that was entered, where it parses.
    pub parsed_amount: Option<U256>,
    /// What a top-up would take, where it was asked for and can be had.
    pub top_up: Option<TopUpTexts>,
    pub broadcaster_warning: Option<String>,
    /// All broadcasters that take the fee token.
    pub candidates: Vec<BroadcasterCandidate>,
    /// Those among them that the fee policy admits.
    pub eligible: Vec<BroadcasterCandidate>,
    pub specific_label: Option<String>,
    /// The rows that the open list of broadcasters asked for, where they could be written.
    pub picker_rows: Option<Vec<String>>,
}

/// What an extension may choose from.
pub struct PrivateDraftOptions {
    pub assets: Vec<AssetChoice>,
    pub fee_tokens: Vec<AssetChoice>,
    pub metrics: Vec<AmountMetric>,
    pub warnings: Vec<String>,
    pub show_fee_mode: bool,
    pub unwrap_labels: Option<(String, String)>,
    pub native_top_up: Option<TopUpOption>,
    pub candidate_count: usize,
    pub specific_label: Option<String>,
    pub picker: Option<PickerProjection>,
}

/// One text, where it is there.
pub open spec fn texts_of(text: Option<String>) -> Seq<Seq<char>> {
    match text {
        Some(found) => seq![found@],
        None => Seq::empty(),
    }
}

/// The warnings that follow from the asset: not everything can be spent at once, and a top-up links
/// the recipient.
pub open spec fn asset_warnings(
    input: GatewayPrivateDraftInput,
    asset: PrivateAsset,
    known: DraftKnowledge,
) -> Seq<Seq<char>> {
    (if asset.total@ > asset.max_batched@ {
        seq![known.capacity_warning@]
    } else {
        Seq::empty()
    }) + (if input.native_top_up {
        seq![known.top_up_warning@]
    } else {
        Seq::empty()
    })
}

/// Appends a text that is there.
fn push_text(list: &mut Vec<String>, text: Option<String>)
    ensures
        crate::text::texts(final(list)@) == crate::text::texts(old(list)@) + texts_of(text),
{
    let ghost before = list@;
    match text {
        Some(found) => {
            list.push(found);
            assert(crate::text::texts(list@) =~= crate::text::texts(before) + seq![found@]);
        },
        None => {
            assert(crate::text::texts(list@) =~= crate::text::texts(before) + Seq::empty());
        },
    }
}

/// What is said of a top-up.
pub open spec fn top_up_option(texts: TopUpTexts, shown: TopUpOption) -> bool {
    &&& shown.label@ == "Also send "@ + texts.native_label@ + " for gas"@
    &&& shown.funding_detail@ == "Recipient receives "@ + texts.native_amount@
        + "; funded from private "@ + texts.wrapped_amount@ + "."@
}

/// What an extension may choose from: everything that the inputs so far allow to be told. Without
/// an asset that is only the assets and the fee tokens, without a fee token also what follows from
/// the asset.
pub fn private_draft_options(
    input: &GatewayPrivateDraftInput,
    wallet: Option<&str>,
    chain_id: u64,
    assets: &Vec<PrivateAsset>,
    picker: Option<&PrivateDraftPicker>,
    known: DraftKnowledge,
) -> (options: PrivateDraftOptions)
    ensures
        choice_ids(options.assets@) == asset_choices_of(known.assets@, false),
        choice_ids(options.fee_tokens@) == asset_choices_of(known.fee_tokens@, true),
        match draft_asset(*input, wallet_text(wallet), chain_id, assets@) {
            AssetOutcome::Refused(_) => options.metrics@.len() == 0 && options.warnings@.len() == 0
                && !options.show_fee_mode && options.unwrap_labels is None
                && options.native_top_up is None && options.candidate_count == 0
                && options.specific_label is None && options.picker is None,
            AssetOutcome::At(at) => {
                let first = asset_warnings(*input, assets@[at], known);
                &&& options.metrics == known.metrics
                &&& if parsed_address(input.fee_token@) is None {
                    crate::text::texts(options.warnings@) == first && !options.show_fee_mode
                        && options.unwrap_labels is None && options.native_top_up is None
                        && options.candidate_count == 0 && options.specific_label is None
                        && options.picker is None
                } else {
                    let unshields = input.kind is Unshield;
                    let offers = unshields && top_up_asked(
                        *input,
                        offered_recipient(optional_text(known.prepared_recipient), *input),
                        known.parsed_amount,
                    );
                    let count = choosable(
                        known.candidates@,
                        known.eligible@,
                        input.allow_out_of_range,
                    ).len();
                    &&& crate::text::texts(options.warnings@) == first + texts_of(
                        known.fee_token_warning,
                    ) + texts_of(known.broadcaster_warning)
                    &&& options.show_fee_mode == known.show_fee_mode
                    &&& options.unwrap_labels == if unshields && known.wrapped_native {
                        known.output_labels
                    } else {
                        None
                    }
                    &&& match (options.native_top_up, known.top_up) {
                        (Some(shown), Some(texts)) => offers && top_up_option(texts, shown),
                        (Some(_), None) => false,
                        (None, Some(_)) => !offers,
                        (None, None) => true,
                    }
                    &&& options.candidate_count == count
                    &&& options.specific_label == known.specific_label
                    &&& match (options.picker, picker, known.picker_rows) {
                        (Some(shown), Some(open), Some(rows)) => shown.view_id@ == open.view_id@
                            && shown.query@ == open.query@ && shown.total_count == count
                            && shown.rows == rows,
                        (Some(_), _, _) => false,
                        (None, Some(_), Some(_)) => false,
                        (None, _, _) => true,
                    }
                }
            },
        },
{
    let mut options = PrivateDraftOptions {
        assets: asset_choices(&known.assets, false),
        fee_tokens: asset_choices(&known.fee_tokens, true),
        metrics: Vec::new(),
        warnings: Vec::new(),
        show_fee_mode: false,
        unwrap_labels: None,
        native_top_up: None,
        candidate_count: 0,
        specific_label: None,
        picker: None,
    };
    let at: usize = match private_draft_asset(input, wallet, chain_id, assets) {
        Ok(at) => at,
        Err(_) => return options,
    };
    let ghost given = known;
    options.metrics = known.metrics;
    let mut warnings: Vec<String> = Vec::new();
    let capacity = if assets[at].max_batched.less_than(assets[at].total) {
        Some(known.capacity_warning)
    } else {
        None
    };
    push_text(&mut warnings, capacity);
    let linkage = if input.native_top_up {
        Some(known.top_up_warning)
    } else {
        None
    };
    push_text(&mut warnings, linkage);
    assert(crate::text::texts(warnings@) =~= asset_warnings(*input, assets@[at as int], given));
    if private_draft_fee_token(input).is_err() {
        options.warnings = warnings;
        return options;
    }
    push_text(&mut warnings, known.fee_token_warning);
    options.show_fee_mode = known.show_fee_mode;
    match input.kind {
        GatewayPrivateDraftKind::Unshield => {
            if known.wrapped_native {
                options.unwrap_labels = known.output_labels;
            }
            let prepared = match &known.prepared_recipient {
                Some(recipient) => Some(recipient.as_str()),
                None => None,
            };
            let request = native_top_up_request(
                input,
                top_up_recipient(prepared, input),
                assets[at].max_batched,
                known.parsed_amount,
            );
            if let (Some(_), Some(texts)) = (request, &known.top_up) {
                let mut detail = concat3(
                    "Recipient receives ",
                    &texts.native_amount,
                    "; funded from private ",
                );
                detail.append(&texts.wrapped_amount);
                detail.append(".");
                options.native_top_up =
                Some(
                    TopUpOption {
                        label: concat3("Also send ", &texts.native_label, " for gas"),
                        funding_detail: detail,
                    },
                );
            }
        },
        GatewayPrivateDraftKind::PrivateSend => {},
    }
    push_text(&mut warnings, known.broadcaster_warning);
    options.warnings = warnings;
    let candidate_count: usize = shown_candidates(
        &known.candidates,
        &known.eligible,
        input.allow_out_of_range,
    ).len();
    options.candidate_count = candidate_count;
    options.specific_label = known.specific_label;
    if let Some(open) = picker {
        if let Some(rows) = known.picker_rows {
            options.picker =
            Some(
                PickerProjection {
                    view_id: open.view_id.clone(),
                    query: open.query.clone(),
                    total_count: candidate_count,
                    rows,
                },
            );
        }
    }
    options
}

/// A row of a private estimate or of a submission.
#[derive(Debug, PartialEq, Eq)]
pub struct DisplayRow {
    pub label: String,
    pub value: String,
}

/// What an extension sees of a submission that waits for approval: what is sent, to whom.
pub struct SubmissionContext {
    pub summary: String,
    pub rows: Vec<DisplayRow>,
}

/// Whether a context names the amount and the asset, and lists the asset, the recipient and the
/// amount.
pub open spec fn shows_submission(
    context: SubmissionContext,
    amount: Seq<char>,
    asset_label: Seq<char>,
    recipient: Seq<char>,
) -> bool {
    &&& context.summary@ == amount + " "@ + asset_label
    &&& context.rows@.len() == 3
    &&& context.rows@[0].label@ == "Asset"@ && context.rows@[0].value@ == asset_label
    &&& context.rows@[1].label@ == "Recipient"@ && context.rows@[1].value@ == recipient
    &&& context.rows@[2].label@ == "Entered amount"@ && context.rows@[2].value@ == amount
}

/// What an extension sees of a submission that waits for approval.
pub fn submission_context(amount: &str, asset_label: &str, recipient: &str) -> (context:
    SubmissionContext)
    ensures
        shows_submission(context, amount@, asset_label@, recipient@),
{
    SubmissionContext {
        summary: concat3(amount, " ", asset_label),
        rows: vec![
            DisplayRow { label: "Asset".to_owned(), value: asset_label.to_owned() },
            DisplayRow { label: "Recipient".to_owned(), value: recipient.to_owned() },
            DisplayRow { label: "Entered amount".to_owned(), value: amount.to_owned() },
        ],
    }
}

/// What an extension sees of a submission, where it is private, still waits for approval, and the
/// transaction is not yet generated.
pub fn pending_submission_context(
    generating: bool,
    status: GatewayDraftStatus,
    is_private: bool,
    amount: &str,
    asset_label: &str,
    recipient: &str,
) -> (context: Option<SubmissionContext>)
    ensures
        match context {
            Some(found) => !generating && status is Attention && is_private && shows_submission(
                found,
                amount@,
                asset_label@,
                recipient@,
            ),
            None => generating || !(status is Attention) || !is_private,
        },
{
    if generating || status != GatewayDraftStatus::Attention || !is_private {
        return None;
    }
    Some(submission_context(amount, asset_label, recipient))
}

/// An icon leaves the desktop only where it is embedded with the interface, and then it is that one.
pub proof fn only_icons_of_the_interface_are_shared(icon: IconSource)
    ensures
        shared_icon(icon) matches Some(path) ==> (icon matches IconSource::Embedded(own) && own@
            == path && "railgun-ui/"@.is_prefix_of(path)),
        icon matches IconSource::Embedded(own) ==> ("railgun-ui/"@.is_prefix_of(own@) ==> shared_icon(
            icon,
        ) == Some(own@)),
{
}

/// A choice of an asset names the asset, with its own label and amounts. Broadcasters are counted
/// for a fee token alone, all of which is available.
pub proof fn asset_choices_name_their_asset(option: AssetOption, pays_fee: bool)
    ensures
        asset_choice(option, pays_fee).id == checksum_text(option.token.value()),
        asset_choice(option, pays_fee).label == option.label@,
        asset_choice(option, pays_fee).max_amount == option.max_amount@,
        asset_choice(option, pays_fee).max_amount_label == option.max_amount_label@,
        asset_choice(option, pays_fee).icon == shared_icon(option.icon),
        asset_choice(option, true).available == option.max_amount_label@,
        asset_choice(option, false).available == option.available@,
        asset_choice(option, true).broadcaster_count == option.broadcaster_count,
        asset_choice(option, false).broadcaster_count == 0,
{
}

/// A choice keeps its parts apart.
pub proof fn asset_choices_are_told_apart(choice: AssetChoice)
    ensures
        choice@.id == choice.id@,
        choice@.label == choice.label@,
        choice@.max_amount == choice.max_amount@,
        choice@.max_amount_label == choice.max_amount_label@,
        choice@.available == choice.available@,
        choice@.broadcaster_count == choice.broadcaster_count,
        choice@.icon is Some <==> choice.icon is Some,
{
}

/// Fees out of range are shown exactly where they are allowed.
pub proof fn all_candidates_only_where_allowed(
    all: Seq<BroadcasterCandidate>,
    eligible: Seq<BroadcasterCandidate>,
)
    ensures
        choosable(all, eligible, true) == all,
        choosable(all, eligible, false) == eligible,
{
}

/// A candidate keeps its address and whether it matches the search.
pub proof fn candidates_are_told_apart(a: BroadcasterCandidate, b: BroadcasterCandidate)
    ensures
        a@ == b@ <==> a.railgun_address@ == b.railgun_address@ && a.matches_query
            == b.matches_query,
{
}

/// It is warned that not everything can be spent exactly where that is so, and that a top-up links
/// the recipient exactly where one is entered.
pub proof fn warnings_follow_the_asset(
    input: GatewayPrivateDraftInput,
    asset: PrivateAsset,
    known: DraftKnowledge,
)
    ensures
        ({
            let warnings = asset_warnings(input, asset, known);
            let capped = asset.max_batched@ < asset.total@;
            &&& capped && input.native_top_up ==> warnings.len() == 2 && warnings[0]
                == known.capacity_warning@ && warnings[1] == known.top_up_warning@
            &&& capped && !input.native_top_up ==> warnings.len() == 1 && warnings[0]
                == known.capacity_warning@
            &&& !capped && input.native_top_up ==> warnings.len() == 1 && warnings[0]
                == known.top_up_warning@
            &&& !capped && !input.native_top_up ==> warnings.len() == 0
        }),
{
}

/// The offer of a top-up says what is sent, what the recipient receives and what it is paid with.
pub proof fn top_up_offers_say_what_they_take(texts: TopUpTexts, shown: TopUpOption)
    requires
        top_up_option(texts, shown),
    ensures
        shown.label@ == "Also send "@ + texts.native_label@ + " for gas"@,
        shown.funding_detail@ == "Recipient receives "@ + texts.native_amount@
            + "; funded from private "@ + texts.wrapped_amount@ + "."@,
{
}

/// A submission shows the asset, the recipient and the amount, each in its own row.
pub proof fn submissions_show_what_is_sent(
    context: SubmissionContext,
    amount: Seq<char>,
    asset_label: Seq<char>,
    recipient: Seq<char>,
)
    requires
        shows_submission(context, amount, asset_label, recipient),
    ensures
        context.summary@ == amount + " "@ + asset_label,
        context.rows@.len() == 3,
        context.rows@[0].label@ == "Asset"@ && context.rows@[0].value@ == asset_label,
        context.rows@[1].label@ == "Recipient"@ && context.rows@[1].value@ == recipient,
        context.rows@[2].label@ == "Entered amount"@ && context.rows@[2].value@ == amount,
{
}

/// A text that is there is said once, and one that is not is not said.
pub proof fn texts_are_said_once(text: String)
    ensures
        texts_of(Some(text)).len() == 1,
        texts_of(Some(text))[0] == text@,
        texts_of(None).len() == 0,
{
}

/// Choices and candidates are taken one by one, in their order.
pub proof fn choices_are_taken_in_order(
    choices: Seq<AssetChoice>,
    options: Seq<AssetOption>,
    pays_fee: bool,
    candidates: Seq<BroadcasterCandidate>,
    at: int,
)
    ensures
        choice_ids(choices).len() == choices.len(),
        0 <= at < choices.len() ==> choice_ids(choices)[at] == choices[at]@,
        asset_choices_of(options, pays_fee).len() == options.len(),
        0 <= at < options.len() ==> asset_choices_of(options, pays_fee)[at] == asset_choice(
            options[at],
            pays_fee,
        ),
        candidate_ids(candidates).len() == candidates.len(),
        0 <= at < candidates.len() ==> candidate_ids(candidates)[at] == candidates[at]@,
{
}

/// Everything that is told of a `AssetChoice` is its own, under its own name.
pub proof fn asset_choice_is_told_as_it_is(kept: AssetChoice)
    ensures
        kept@.id == kept.id@,
        kept@.label == kept.label@,
        kept@.max_amount == kept.max_amount@,
        kept@.max_amount_label == kept.max_amount_label@,
        kept@.available == kept.available@,
        kept@.broadcaster_count == kept.broadcaster_count,
        kept.icon matches Some(text) ==> kept@.icon == Some(text@),
        kept.icon is None ==> kept@.icon is None,
{
}

/// Everything that is told of a `BroadcasterCandidate` is its own, under its own name.
pub proof fn broadcaster_candidate_is_told_as_it_is(kept: BroadcasterCandidate)
    ensures
        kept@.railgun_address == kept.railgun_address@,
        kept@.matches_query == kept.matches_query,
{
}

} // verus!
