//! Switching the wallet for a website, from its confirmation to the installed wallet.
use crate::governance::staking::next_generation;
use crate::text::same_text;
use vstd::prelude::*;

verus! {

/// How far a switch came.
#[derive(Clone, Copy, Debug, PartialEq, Eq, Structural)]
pub enum SwitchPhase {
    Dispatching,
    Loading { operation: u64 },
    Installing { operation: u64, wallet_generation: u64 },
    Installed { operation: u64, wallet_generation: u64 },
}

impl SwitchPhase {
    /// The phase after the unlock of a hardware wallet: a switch to that wallet, and with exactly
    /// this operation, goes on with the next one.
    pub open spec fn advanced(
        self,
        original_target: Seq<char>,
        target: Seq<char>,
        current_operation: u64,
    ) -> SwitchPhase {
        if original_target == target && self == (SwitchPhase::Loading {
            operation: current_operation,
        }) {
            SwitchPhase::Loading { operation: next_generation(current_operation) }
        } else {
            self
        }
    }

    /// Goes on with the next operation, where the unlock is of the wallet that the switch is to,
    /// and of the operation that it waits for.
    pub fn advance_hardware_loading(
        &mut self,
        original_target: &str,
        target: &str,
        current_operation: u64,
    )
        ensures
            *final(self) == old(self).advanced(original_target@, target@, current_operation),
    {
        if same_text(original_target, target) {
            if let SwitchPhase::Loading { operation } = *self {
                if operation == current_operation {
                    *self = SwitchPhase::Loading { operation: current_operation.wrapping_add(1) };
                }
            }
        }
    }
}

/// An unlock of the same operation does not go on twice.
pub proof fn hardware_loading_advances_once(
    phase: SwitchPhase,
    original_target: Seq<char>,
    target: Seq<char>,
    operation: u64,
)
    ensures
        phase.advanced(original_target, target, operation).advanced(
            original_target,
            target,
            operation,
        ) == phase.advanced(original_target, target, operation),
{
}

/// A request of a website to switch the wallet.
pub struct GatewayWalletSwitchRequest {
    pub id: String,
    pub target_wallet_uuid: String,
    pub url: String,
}

/// A switch that was confirmed.
pub struct GatewaySwitchContinuation {
    pub request: GatewayWalletSwitchRequest,
    pub phase: SwitchPhase,
}

/// The operation and the wallet that are current.
#[derive(Clone, Copy, Debug, PartialEq, Eq, Structural)]
pub struct WalletGenerations {
    pub wallet_switch: u64,
    pub active_wallet: u64,
}

/// Whether the installation of `target` belongs to the switch: it is to that wallet, still wanted,
/// and waits for the current operation.
pub open spec fn installation_admitted(
    continuation: Option<GatewaySwitchContinuation>,
    target: Seq<char>,
    request_current: bool,
    generations: WalletGenerations,
) -> bool {
    continuation matches Some(active) && active.request.target_wallet_uuid@ == target
        && request_current && active.phase == (SwitchPhase::Loading {
        operation: generations.wallet_switch,
    })
}

/// The switch once the installation of a wallet begins: it expects the next operation and the next
/// wallet. Any other installation ends it.
pub fn begin_installation(
    continuation: Option<GatewaySwitchContinuation>,
    target: &str,
    request_current: bool,
    generations: WalletGenerations,
) -> (next: Option<GatewaySwitchContinuation>)
    ensures
        next == if installation_admitted(continuation, target@, request_current, generations) {
            Some(
                GatewaySwitchContinuation {
                    request: continuation.unwrap().request,
                    phase: SwitchPhase::Installing {
                        operation: next_generation(generations.wallet_switch),
                        wallet_generation: next_generation(generations.active_wallet),
                    },
                },
            )
        } else {
            None
        },
{
    match continuation {
        Some(active) => {
            let waits = match active.phase {
                SwitchPhase::Loading { operation } => operation == generations.wallet_switch,
                _ => false,
            };
            if waits && request_current && same_text(&active.request.target_wallet_uuid, target) {
                Some(
                    GatewaySwitchContinuation {
                        request: active.request,
                        phase: SwitchPhase::Installing {
                            operation: generations.wallet_switch.wrapping_add(1),
                            wallet_generation: generations.active_wallet.wrapping_add(1),
                        },
                    },
                )
            } else {
                None
            }
        },
        None => None,
    }
}

/// Whether the installation that ended is the one that the switch expects.
pub open spec fn installation_expected(
    continuation: Option<GatewaySwitchContinuation>,
    view_wallet: Option<Seq<char>>,
    generations: WalletGenerations,
) -> bool {
    continuation matches Some(active) && active.phase == (SwitchPhase::Installing {
        operation: generations.wallet_switch,
        wallet_generation: generations.active_wallet,
    }) && view_wallet == Some(active.request.target_wallet_uuid@)
}

/// The switch once the installation of a wallet ended.
pub fn finish_installation(
    continuation: Option<GatewaySwitchContinuation>,
    view_wallet: Option<&str>,
    generations: WalletGenerations,
) -> (next: Option<GatewaySwitchContinuation>)
    ensures
        next == if installation_expected(
            continuation,
            match view_wallet {
                Some(id) => Some(id@),
                None => None,
            },
            generations,
        ) {
            Some(
                GatewaySwitchContinuation {
                    request: continuation.unwrap().request,
                    phase: SwitchPhase::Installed {
                        operation: generations.wallet_switch,
                        wallet_generation: generations.active_wallet,
                    },
                },
            )
        } else {
            None
        },
{
    match (continuation, view_wallet) {
        (Some(active), Some(wallet)) => match active.phase {
            SwitchPhase::Installing { operation, wallet_generation } => {
                if operation == generations.wallet_switch && wallet_generation
                    == generations.active_wallet && same_text(
                    wallet,
                    &active.request.target_wallet_uuid,
                ) {
                    Some(
                        GatewaySwitchContinuation {
                            request: active.request,
                            phase: SwitchPhase::Installed { operation, wallet_generation },
                        },
                    )
                } else {
                    None
                }
            },
            _ => None,
        },
        _ => None,
    }
}

/// What the browser is told of a switch.
pub struct GatewayWalletSwitchTransition {
    pub request_id: String,
    pub installed: bool,
}

/// What is known outside of a switch: whether it is still wanted, whether the network is still the
/// same, whether a wallet is being deleted, and whether the wallet that it is from is still shown.
#[derive(Clone, Copy, Debug, PartialEq, Eq, Structural)]
pub struct SwitchSurroundings {
    pub request_current: bool,
    pub same_network: bool,
    pub deleting_wallet: bool,
    pub source_wallet_current: bool,
}

/// Whether `generation` is `expected` or the one before it.
pub open spec fn at_or_before(generation: u64, expected: u64) -> bool {
    generation == expected || next_generation(generation) == expected
}

/// Whether the switch still fits what is current. While a wallet is installed, both generations
/// are moved on one after the other.
pub open spec fn switch_fits(
    active: GatewaySwitchContinuation,
    around: SwitchSurroundings,
    shown_wallet: Option<Seq<char>>,
    generations: WalletGenerations,
) -> bool {
    &&& around.request_current
    &&& around.same_network
    &&& !around.deleting_wallet
    &&& match active.phase {
        SwitchPhase::Dispatching => around.source_wallet_current,
        SwitchPhase::Loading { operation } => operation == generations.wallet_switch
            && around.source_wallet_current,
        SwitchPhase::Installing { operation, wallet_generation } => at_or_before(
            generations.wallet_switch,
            operation,
        ) && at_or_before(generations.active_wallet, wallet_generation),
        SwitchPhase::Installed { operation, wallet_generation } => operation
            == generations.wallet_switch && wallet_generation == generations.active_wallet
            && shown_wallet == Some(active.request.target_wallet_uuid@),
    }
}

/// What the browser is told of the switch, which ends where it no longer fits what is current.
pub fn switch_transition(
    continuation: &mut Option<GatewaySwitchContinuation>,
    around: SwitchSurroundings,
    shown_wallet: Option<&str>,
    generations: WalletGenerations,
) -> (transition: Option<GatewayWalletSwitchTransition>)
    ensures
        match *old(continuation) {
            Some(active) => if switch_fits(
                active,
                around,
                match shown_wallet {
                    Some(id) => Some(id@),
                    None => None,
                },
                generations,
            ) {
                *final(continuation) == *old(continuation) && (transition matches Some(told)
                    && told.request_id == active.request.id && told.installed == (
                active.phase is Installed))
            } else {
                *final(continuation) is None && transition is None
            },
            None => *final(continuation) is None && transition is None,
        },
{
    let told = match &*continuation {
        Some(active) => {
            let fits = around.request_current && around.same_network && !around.deleting_wallet
                && match active.phase {
                SwitchPhase::Dispatching => around.source_wallet_current,
                SwitchPhase::Loading { operation } => operation == generations.wallet_switch
                    && around.source_wallet_current,
                SwitchPhase::Installing { operation, wallet_generation } => {
                    (generations.wallet_switch == operation || generations.wallet_switch
                        == operation.wrapping_sub(1)) && (generations.active_wallet
                        == wallet_generation || generations.active_wallet
                        == wallet_generation.wrapping_sub(1))
                },
                SwitchPhase::Installed { operation, wallet_generation } => operation
                    == generations.wallet_switch && wallet_generation == generations.active_wallet
                    && match shown_wallet {
                    Some(wallet) => same_text(wallet, &active.request.target_wallet_uuid),
                    None => false,
                },
            };
            if fits {
                Some(
                    GatewayWalletSwitchTransition {
                        request_id: active.request.id.clone(),
                        installed: match active.phase {
                            SwitchPhase::Installed { .. } => true,
                            _ => false,
                        },
                    },
                )
            } else {
                None
            }
        },
        None => None,
    };
    if told.is_none() {
        *continuation = None;
    }
    told
}

/// A switch to another wallet is told as installed only once both generations of its installation
/// are current and the wallet is shown.
pub proof fn installed_means_current_and_shown(
    active: GatewaySwitchContinuation,
    around: SwitchSurroundings,
    shown_wallet: Option<Seq<char>>,
    generations: WalletGenerations,
)
    requires
        switch_fits(active, around, shown_wallet, generations),
        active.phase is Installed,
    ensures
        shown_wallet == Some(active.request.target_wallet_uuid@),
        around.request_current,
{
}

/// The dialog that asks for a confirmation.
pub struct GatewaySwitchDialog {
    pub request_id: String,
    pub submitting: bool,
}

/// What is known of a request that is waiting.
pub struct WaitingSwitch {
    pub request: GatewayWalletSwitchRequest,
    pub awaiting_confirmation: bool,
    /// Whether the gateway is up, no wallet is being deleted, and the wallet and generation that
    /// the request was made for are still current.
    pub source_current: bool,
}

/// Whether a request with this identifier is waiting and its source is current.
pub open spec fn dialog_current(requests: Seq<WaitingSwitch>, id: Seq<char>) -> bool {
    exists|i: int|
        0 <= i < requests.len() && (#[trigger] requests[i]).request.id@ == id
            && requests[i].source_current
}

/// Whether a request may be asked about.
pub open spec fn may_ask(waiting: WaitingSwitch) -> bool {
    waiting.awaiting_confirmation && waiting.source_current
}

/// What follows from the requests that are waiting.
pub struct SwitchReconciliation {
    /// The request of the dialog that was given up, to be rejected.
    pub reject: Option<String>,
    /// Whether that dialog is still open and has to be closed.
    pub close_dialog: bool,
    /// Whether the switch under way was given up.
    pub dropped_switch: bool,
    /// The request to ask about.
    pub ask: Option<usize>,
}

fn find_current(requests: &Vec<WaitingSwitch>, id: &str) -> (found: bool)
    ensures
        found == dialog_current(requests@, id@),
{
    let mut i: usize = 0;
    while i < requests.len()
        invariant
            i <= requests@.len(),
            forall|j: int|
                0 <= j < i ==> (#[trigger] requests@[j]).request.id@ != id@
                    || !requests@[j].source_current,
        decreases requests@.len() - i,
    {
        if requests[i].source_current && same_text(&requests[i].request.id, id) {
            return true;
        }
        i += 1;
    }
    false
}

fn first_to_ask(requests: &Vec<WaitingSwitch>) -> (at: Option<usize>)
    ensures
        match at {
            Some(i) => i < requests@.len() && may_ask(requests@[i as int]) && forall|j: int|
                0 <= j < i ==> !may_ask(#[trigger] requests@[j]),
            None => forall|j: int| 0 <= j < requests@.len() ==> !may_ask(#[trigger] requests@[j]),
        },
{
    let mut i: usize = 0;
    while i < requests.len()
        invariant
            i <= requests@.len(),
            forall|j: int| 0 <= j < i ==> !may_ask(#[trigger] requests@[j]),
        decreases requests@.len() - i,
    {
        if requests[i].awaiting_confirmation && requests[i].source_current {
            return Some(i);
        }
        i += 1;
    }
    None
}

/// Whether the dialog is given up: it is gone, or its request is no longer current and it has the
/// focus, so that it can be closed.
pub open spec fn dialog_given_up(
    dialog: Option<GatewaySwitchDialog>,
    requests: Seq<WaitingSwitch>,
    dialog_gone: bool,
    dialog_focused: bool,
) -> bool {
    dialog matches Some(open) && (dialog_gone || (!dialog_current(requests, open.request_id@)
        && dialog_focused))
}

/// Brings the dialog and the switch in line with the requests that are waiting, and picks the
/// request to ask about next, where no other dialog is open.
pub fn reconcile_switches(
    dialog: &mut Option<GatewaySwitchDialog>,
    continuation: &mut Option<GatewaySwitchContinuation>,
    requests: &Vec<WaitingSwitch>,
    dialog_gone: bool,
    dialog_focused: bool,
    switch_current: bool,
    other_dialog: bool,
) -> (outcome: SwitchReconciliation)
    ensures
        ({
            let given_up = dialog_given_up(*old(dialog), requests@, dialog_gone, dialog_focused);
            let dropped = *old(continuation) is Some && !switch_current;
            let closes = given_up && !dialog_gone;
            &&& *final(dialog) == (if given_up {
                None
            } else {
                *old(dialog)
            })
            &&& *final(continuation) == (if dropped {
                None
            } else {
                *old(continuation)
            })
            &&& outcome.close_dialog == closes
            &&& outcome.dropped_switch == dropped
            &&& match outcome.reject {
                Some(id) => given_up && id@ == old(dialog).unwrap().request_id@,
                None => !given_up,
            }
            &&& match outcome.ask {
                Some(i) => *final(dialog) is None && *final(continuation) is None && !other_dialog && i
                    < requests@.len() && may_ask(requests@[i as int]) && forall|j: int|
                    0 <= j < i ==> !may_ask(#[trigger] requests@[j]),
                None => *final(dialog) is Some || *final(continuation) is Some || other_dialog
                    || forall|j: int|
                    0 <= j < requests@.len() ==> !may_ask(#[trigger] requests@[j]),
            }
        }),
{
    let mut reject: Option<String> = None;
    let mut close_dialog = false;
    if let Some(open) = &*dialog {
        if dialog_gone || (!find_current(requests, &open.request_id) && dialog_focused) {
            close_dialog = !dialog_gone;
            reject = Some(open.request_id.clone());
        }
    }
    if reject.is_some() {
        *dialog = None;
    }
    let dropped_switch = continuation.is_some() && !switch_current;
    if dropped_switch {
        *continuation = None;
    }
    let ask = if dialog.is_some() || continuation.is_some() || other_dialog {
        None
    } else {
        first_to_ask(requests)
    };
    SwitchReconciliation { reject, close_dialog, dropped_switch, ask }
}

/// Whether a confirmation is taken: the request may be asked about, and the dialog is its own and
/// was not submitted before. The dialog is then submitting.
pub fn confirm_switch(
    dialog: &mut Option<GatewaySwitchDialog>,
    waiting: &WaitingSwitch,
) -> (taken: bool)
    ensures
        taken == (may_ask(*waiting) && (*old(dialog) matches Some(open) && open.request_id@
            == waiting.request.id@ && !open.submitting)),
        *final(dialog) == (if taken {
            Some(
                GatewaySwitchDialog {
                    submitting: true,
                    ..old(dialog).unwrap()
                },
            )
        } else {
            *old(dialog)
        }),
{
    if !waiting.source_current || !waiting.awaiting_confirmation {
        return false;
    }
    match dialog {
        Some(open) => {
            if open.submitting || !same_text(&open.request_id, &waiting.request.id) {
                return false;
            }
            open.submitting = true;
            true
        },
        None => false,
    }
}

/// Whether the dialog is the one of a request.
pub open spec fn is_dialog_of(dialog: Option<GatewaySwitchDialog>, request_id: Seq<char>) -> bool {
    dialog matches Some(open) && open.request_id@ == request_id
}

fn owns_dialog(dialog: &Option<GatewaySwitchDialog>, request_id: &str) -> (owns: bool)
    ensures
        owns == is_dialog_of(*dialog, request_id@),
{
    match dialog {
        Some(open) => same_text(&open.request_id, request_id),
        None => false,
    }
}

/// Closes the dialog of a request, where it has the focus. Gives whether it was closed.
pub fn close_gateway_switch_dialog(
    dialog: &mut Option<GatewaySwitchDialog>,
    request_id: &str,
    dialog_focused: bool,
) -> (closed: bool)
    ensures
        closed == (is_dialog_of(*old(dialog), request_id@) && dialog_focused),
        *final(dialog) == (if closed {
            None
        } else {
            *old(dialog)
        }),
{
    let closed = dialog_focused && owns_dialog(dialog, request_id);
    if closed {
        *dialog = None;
    }
    closed
}

/// Takes the end of a dialog that the user closed. Gives whether its request is to be rejected.
pub fn switch_dialog_closed(dialog: &mut Option<GatewaySwitchDialog>, request_id: &str) -> (
    rejects: bool)
    ensures
        rejects == is_dialog_of(*old(dialog), request_id@),
        *final(dialog) == (if rejects {
            None
        } else {
            *old(dialog)
        }),
{
    let rejects = owns_dialog(dialog, request_id);
    if rejects {
        *dialog = None;
    }
    rejects
}

/// What follows the answer of the gateway to a confirmation.
#[derive(Clone, Copy, Debug, PartialEq, Eq, Structural)]
pub struct SwitchStart {
    /// Whether the dialog was closed.
    pub closed_dialog: bool,
    /// Whether the switch begins; else its request is to be rejected.
    pub begins: bool,
}

/// Whether a confirmed switch begins: the gateway admitted it, its request is still current, and
/// its dialog is still submitting and has the focus.
pub open spec fn switch_begins(
    dialog: Option<GatewaySwitchDialog>,
    request_id: Seq<char>,
    admitted: bool,
    source_current: bool,
    dialog_focused: bool,
) -> bool {
    admitted && source_current && dialog_focused && (dialog matches Some(open) && open.request_id@
        == request_id && open.submitting)
}

/// Begins a confirmed switch once the gateway answered, and closes its dialog.
pub fn begin_confirmed_switch(
    dialog: &mut Option<GatewaySwitchDialog>,
    continuation: &mut Option<GatewaySwitchContinuation>,
    request: GatewayWalletSwitchRequest,
    admitted: bool,
    source_current: bool,
    dialog_focused: bool,
) -> (start: SwitchStart)
    ensures
        start.begins == switch_begins(
            *old(dialog),
            request.id@,
            admitted,
            source_current,
            dialog_focused,
        ),
        start.closed_dialog == (is_dialog_of(*old(dialog), request.id@) && dialog_focused),
        *final(dialog) == (if start.closed_dialog {
            None
        } else {
            *old(dialog)
        }),
        *final(continuation) == (if start.begins {
            Some(GatewaySwitchContinuation { request, phase: SwitchPhase::Dispatching })
        } else {
            *old(continuation)
        }),
{
    let submitting = match &*dialog {
        Some(open) => open.submitting && same_text(&open.request_id, &request.id),
        None => false,
    };
    let begins = admitted && source_current && dialog_focused && submitting;
    let closed_dialog = close_gateway_switch_dialog(dialog, &request.id, dialog_focused);
    if begins {
        *continuation =
        Some(GatewaySwitchContinuation { request, phase: SwitchPhase::Dispatching });
    }
    SwitchStart { closed_dialog, begins }
}

/// Takes the operation that loads the wallet of the switch, once its selection was dispatched.
pub fn load_switch(continuation: &mut Option<GatewaySwitchContinuation>, operation: u64)
    ensures
        *final(continuation) == match *old(continuation) {
            Some(active) => Some(
                GatewaySwitchContinuation {
                    phase: SwitchPhase::Loading { operation },
                    ..active
                },
            ),
            None => None,
        },
{
    if let Some(active) = continuation {
        active.phase = SwitchPhase::Loading { operation };
    }
}

/// An account of a hardware wallet that was unlocked.
pub struct HardwareAccountRow {
    pub wallet_id: String,
    pub supported: bool,
}

/// Whether a wallet is among the accounts that were unlocked, and supported.
pub open spec fn offers_target(rows: Seq<HardwareAccountRow>, target: Seq<char>) -> bool {
    exists|i: int|
        0 <= i < rows.len() && (#[trigger] rows[i]).wallet_id@ == target && rows[i].supported
}

fn target_offered(rows: &Vec<HardwareAccountRow>, target: &str) -> (offered: bool)
    ensures
        offered == offers_target(rows@, target@),
{
    let mut i: usize = 0;
    while i < rows.len()
        invariant
            i <= rows@.len(),
            forall|j: int|
                0 <= j < i ==> (#[trigger] rows@[j]).wallet_id@ != target@ || !rows@[j].supported,
        decreases rows@.len() - i,
    {
        if rows[i].supported && same_text(&rows[i].wallet_id, target) {
            assert(rows@[i as int].wallet_id@ == target@);
            return true;
        }
        i += 1;
    }
    false
}

/// The unlock of a hardware wallet.
pub struct HardwareUnlock<'a> {
    /// The wallet that it was for.
    pub target: Option<&'a str>,
    /// Whether it was to open that wallet.
    pub opens: bool,
    /// The accounts that it brought.
    pub accounts: Vec<HardwareAccountRow>,
}

/// Whether the unlock of a hardware wallet hands its operation to the switch.
pub open spec fn unlock_continues(
    continuation: Option<GatewaySwitchContinuation>,
    unlock: HardwareUnlock,
    gateway_up: bool,
    around: SwitchSurroundings,
) -> bool {
    &&& continuation is Some
    &&& unlock.target matches Some(target)
    &&& unlock.opens
    &&& offers_target(unlock.accounts@, target@)
    &&& gateway_up
    &&& !around.deleting_wallet
    &&& around.request_current
    &&& around.same_network
    &&& around.source_wallet_current
}

/// Goes on with the next operation, where the unlock of a hardware wallet is the one that the
/// switch waits for.
pub fn advance_gateway_hardware_wallet_switch(
    continuation: &mut Option<GatewaySwitchContinuation>,
    unlock: &HardwareUnlock,
    gateway_up: bool,
    around: SwitchSurroundings,
    current_operation: u64,
)
    ensures
        *final(continuation) == if unlock_continues(
            *old(continuation),
            *unlock,
            gateway_up,
            around,
        ) {
            let active = old(continuation).unwrap();
            Some(
                GatewaySwitchContinuation {
                    phase: active.phase.advanced(
                        active.request.target_wallet_uuid@,
                        unlock.target.unwrap()@,
                        current_operation,
                    ),
                    ..active
                },
            )
        } else {
            *old(continuation)
        },
{
    let target = match unlock.target {
        Some(target) => target,
        None => return,
    };
    if !unlock.opens || !target_offered(&unlock.accounts, target) || !gateway_up
        || around.deleting_wallet || !around.request_current || !around.same_network
        || !around.source_wallet_current {
        return;
    }
    if let Some(active) = continuation {
        let original = active.request.target_wallet_uuid.clone();
        active.phase.advance_hardware_loading(&original, target, current_operation);
    }
}

/// The wallet that the dialog names.
pub fn switch_target_label(target_label: Option<&str>) -> (label: String)
    ensures
        label@ == match target_label {
            Some(label) => label@,
            None => "the wallet that owns this account"@,
        },
{
    match target_label {
        Some(label) => label.to_owned(),
        None => "the wallet that owns this account".to_owned(),
    }
}

/// The question of the dialog.
pub fn switch_question(label: &str) -> (question: String)
    ensures
        question@
            == "This website's saved account belongs to a different wallet. Switch to "@ + label@
            + " and resync it?"@,
{
    crate::text::concat3(
        "This website's saved account belongs to a different wallet. Switch to ",
        label,
        " and resync it?",
    )
}

/// A switch moves on from loading the current operation for its own target to the operation behind
/// it, and from nothing else.
pub proof fn only_current_loading_advances(
    phase: SwitchPhase,
    original_target: Seq<char>,
    target: Seq<char>,
    current: u64,
)
    ensures
        original_target != target ==> phase.advanced(original_target, target, current) == phase,
        !(phase is Loading) ==> phase.advanced(original_target, target, current) == phase,
        phase matches SwitchPhase::Loading { operation } ==> (operation != current
            ==> phase.advanced(original_target, target, current) == phase),
        phase matches SwitchPhase::Loading { operation } ==> (operation == current
            && original_target == target ==> (phase.advanced(original_target, target, current)
            matches SwitchPhase::Loading { operation: next } && next == next_generation(current)
            && next != current)),
{
}

/// An installation is admitted exactly for the target of a switch that is loading the current
/// operation, while its request is current.
pub proof fn admitted_installations_are_of_the_switch(
    active: GatewaySwitchContinuation,
    target: Seq<char>,
    request_current: bool,
    generations: WalletGenerations,
)
    ensures
        !installation_admitted(None, target, request_current, generations),
        !request_current ==> !installation_admitted(
            Some(active),
            target,
            request_current,
            generations,
        ),
        active.request.target_wallet_uuid@ != target ==> !installation_admitted(
            Some(active),
            target,
            request_current,
            generations,
        ),
        !(active.phase is Loading) ==> !installation_admitted(
            Some(active),
            target,
            request_current,
            generations,
        ),
        active.phase matches SwitchPhase::Loading { operation } ==> (request_current
            && active.request.target_wallet_uuid@ == target ==> (installation_admitted(
            Some(active),
            target,
            request_current,
            generations,
        ) <==> operation == generations.wallet_switch)),
{
}

/// An installation is the expected one exactly where both generations are its own and the wallet on
/// the screen is the target.
pub proof fn expected_installations_show_the_target(
    active: GatewaySwitchContinuation,
    view_wallet: Option<Seq<char>>,
    generations: WalletGenerations,
)
    ensures
        !installation_expected(None, view_wallet, generations),
        !(active.phase is Installing) ==> !installation_expected(
            Some(active),
            view_wallet,
            generations,
        ),
        view_wallet is None ==> !installation_expected(Some(active), view_wallet, generations),
        active.phase matches SwitchPhase::Installing { operation, wallet_generation } ==> (
        view_wallet matches Some(wallet) ==> (installation_expected(
            Some(active),
            view_wallet,
            generations,
        ) <==> operation == generations.wallet_switch && wallet_generation
            == generations.active_wallet && wallet == active.request.target_wallet_uuid@)),
{
}

/// A generation is at or before another exactly where it is that one or the one just before it.
pub proof fn one_generation_may_be_missing(generation: u64)
    ensures
        at_or_before(generation, generation),
        at_or_before(generation, next_generation(generation)),
        forall|expected: u64| #[trigger]
            at_or_before(generation, expected) ==> expected == generation || expected
                == next_generation(generation),
        !at_or_before(next_generation(generation), generation),
{
}

/// A switch goes on only while its request is current, the network is the same and the wallet is not
/// being deleted.
pub proof fn switches_need_their_request(
    active: GatewaySwitchContinuation,
    around: SwitchSurroundings,
    shown: Option<Seq<char>>,
    generations: WalletGenerations,
)
    ensures
        !around.request_current || !around.same_network || around.deleting_wallet ==> !switch_fits(
            active,
            around,
            shown,
            generations,
        ),
        around.request_current && around.same_network && !around.deleting_wallet ==> match active.phase {
            SwitchPhase::Dispatching => switch_fits(active, around, shown, generations)
                <==> around.source_wallet_current,
            SwitchPhase::Loading { operation } => switch_fits(active, around, shown, generations)
                <==> around.source_wallet_current && operation == generations.wallet_switch,
            SwitchPhase::Installing { operation, wallet_generation } => switch_fits(
                active,
                around,
                shown,
                generations,
            ) <==> (operation == generations.wallet_switch || operation == next_generation(
                generations.wallet_switch,
            )) && (wallet_generation == generations.active_wallet || wallet_generation
                == next_generation(generations.active_wallet)),
            SwitchPhase::Installed { operation, wallet_generation } => switch_fits(
                active,
                around,
                shown,
                generations,
            ) <==> operation == generations.wallet_switch && wallet_generation
                == generations.active_wallet && shown == Some(active.request.target_wallet_uuid@),
        },
{
}

/// A dialog is current exactly where a request with its number waits from the current source; a
/// request is asked for where it waits for an answer and its source is current.
pub proof fn dialogs_are_of_waiting_requests(
    requests: Seq<WaitingSwitch>,
    id: Seq<char>,
    at: int,
    waiting: WaitingSwitch,
)
    ensures
        0 <= at < requests.len() && requests[at].source_current ==> dialog_current(
            requests,
            requests[at].request.id@,
        ),
        (forall|i: int|
            0 <= i < requests.len() ==> (#[trigger] requests[i]).request.id@ != id
                || !requests[i].source_current) ==> !dialog_current(requests, id),
        may_ask(waiting) <==> waiting.awaiting_confirmation && waiting.source_current,
{
}

/// A dialog is given up where it is gone, or where it has the focus and its request does not wait
/// any longer; a dialog without the focus stays.
pub proof fn dialogs_are_given_up_without_their_request(
    open: GatewaySwitchDialog,
    requests: Seq<WaitingSwitch>,
    dialog_gone: bool,
    dialog_focused: bool,
)
    ensures
        !dialog_given_up(None, requests, dialog_gone, dialog_focused),
        dialog_gone ==> dialog_given_up(Some(open), requests, dialog_gone, dialog_focused),
        !dialog_gone && !dialog_focused ==> !dialog_given_up(
            Some(open),
            requests,
            dialog_gone,
            dialog_focused,
        ),
        !dialog_gone && dialog_focused ==> (dialog_given_up(
            Some(open),
            requests,
            dialog_gone,
            dialog_focused,
        ) <==> !dialog_current(requests, open.request_id@)),
{
}

/// A confirmed switch begins exactly where it is admitted from its source, and its own dialog has the
/// focus and was submitted.
pub proof fn switches_begin_from_their_dialog(
    open: GatewaySwitchDialog,
    request_id: Seq<char>,
    admitted: bool,
    source_current: bool,
    dialog_focused: bool,
)
    ensures
        !switch_begins(None, request_id, admitted, source_current, dialog_focused),
        switch_begins(Some(open), request_id, admitted, source_current, dialog_focused) <==> admitted
            && source_current && dialog_focused && open.submitting && open.request_id@ == request_id,
        !is_dialog_of(None, request_id),
        is_dialog_of(Some(open), request_id) <==> open.request_id@ == request_id,
{
}

/// A device offers a wallet exactly where it lists it as supported.
pub proof fn devices_offer_supported_wallets(
    rows: Seq<HardwareAccountRow>,
    target: Seq<char>,
    at: int,
)
    ensures
        0 <= at < rows.len() && rows[at].supported ==> offers_target(rows, rows[at].wallet_id@),
        (forall|i: int|
            0 <= i < rows.len() ==> (#[trigger] rows[i]).wallet_id@ != target || !rows[i].supported)
            ==> !offers_target(rows, target),
{
}

/// Unlocking a device carries a switch on only where the device opens the target, the gateway is up
/// and the switch is still wanted from its source.
pub proof fn unlocks_continue_a_wanted_switch(
    continuation: Option<GatewaySwitchContinuation>,
    unlock: HardwareUnlock,
    gateway_up: bool,
    around: SwitchSurroundings,
)
    ensures
        unlock_continues(continuation, unlock, gateway_up, around) ==> continuation is Some
            && unlock.target is Some && unlock.opens && gateway_up && !around.deleting_wallet
            && around.request_current && around.same_network && around.source_wallet_current,
        unlock.target matches Some(target) ==> (!offers_target(unlock.accounts@, target@)
            ==> !unlock_continues(continuation, unlock, gateway_up, around)),
        continuation is Some && unlock.opens && gateway_up && !around.deleting_wallet
            && around.request_current && around.same_network && around.source_wallet_current ==> (
        unlock.target matches Some(target) ==> (offers_target(unlock.accounts@, target@)
            ==> unlock_continues(continuation, unlock, gateway_up, around))),
{
}

} // verus!
