//! Pairing a browser extension with a code that is shown for a while.
use crate::gateway::listener::GatewayOperations;
use crate::governance::staking::NANOS_PER_SECOND;
use crate::text::{decimal, decimal_u128};
use vstd::prelude::*;
use vstd::string::*;

verus! {

/// What the gateway reports of itself.
pub struct GatewaySnapshot {
    pub enabled: bool,
    pub has_listener: bool,
    pub pairing_active: bool,
    /// The identifiers of the extensions that are paired.
    pub peers: Vec<u128>,
}

impl GatewaySnapshot {
    /// Whether the gateway accepts extensions.
    pub open spec fn listening(self) -> bool {
        self.enabled && self.has_listener
    }
}

/// The dialog with the pairing code.
pub struct GatewayPairingDialog {
    /// The extensions that were paired when the code was issued. Kept after the attempts at it are
    /// used up: one that was already admitted can still go through.
    pub peers_before_offer: Option<Vec<u128>>,
}

/// Whether the dialog may be opened.
pub fn may_open_pairing(
    operations: &GatewayOperations,
    snapshot: &GatewaySnapshot,
    other_dialog: bool,
) -> (may: bool)
    ensures
        may == (!operations.busy && snapshot.listening() && !other_dialog && operations.has_handle),
{
    !operations.busy && snapshot.enabled && snapshot.has_listener && !other_dialog
        && operations.has_handle
}

/// What an attempt to open the dialog came to.
#[derive(Clone, Copy, Debug, PartialEq, Eq, Structural)]
pub enum PairingOpening {
    /// The dialog is not opened.
    Refused,
    /// The dialog is opened, but nothing in it can be focused: no code is issued for it.
    Unfocused,
    /// The dialog is opened, and a code is to be issued for it.
    Opened,
}

/// Opens the dialog, where that may be. A code of an earlier dialog is dropped, and no extension is
/// noted yet, so that a code is issued for the new one at once.
pub fn open_pairing(
    operations: &mut GatewayOperations,
    dialog: &mut Option<GatewayPairingDialog>,
    snapshot: &GatewaySnapshot,
    other_dialog: bool,
    focused: bool,
) -> (opening: PairingOpening)
    ensures
        opening == if old(operations).busy || !snapshot.listening() || other_dialog || !old(
            operations,
        ).has_handle {
            PairingOpening::Refused
        } else if focused {
            PairingOpening::Opened
        } else {
            PairingOpening::Unfocused
        },
        *final(operations) == (if opening is Refused {
            *old(operations)
        } else {
            GatewayOperations { pending_offer: None, ..*old(operations) }
        }),
        *final(dialog) == (if opening is Opened {
            Some(GatewayPairingDialog { peers_before_offer: None })
        } else {
            *old(dialog)
        }),
        opening is Opened ==> forall|now: u128| #[trigger]
            code_due(*final(operations), *snapshot, true, now),
{
    if !may_open_pairing(operations, snapshot, other_dialog) {
        return PairingOpening::Refused;
    }
    operations.pending_offer = None;
    if !focused {
        return PairingOpening::Unfocused;
    }
    *dialog = Some(GatewayPairingDialog { peers_before_offer: None });
    PairingOpening::Opened
}

/// Takes note that the dialog was closed: where it is the own one, it is forgotten with its code.
/// `dialog_current` is whether the closed dialog is the one that is noted.
pub fn close_pairing(
    operations: &mut GatewayOperations,
    dialog: &mut Option<GatewayPairingDialog>,
    dialog_current: bool,
) -> (forgotten: bool)
    ensures
        forgotten == (*old(dialog) is Some && dialog_current),
        *final(operations) == (if forgotten {
            GatewayOperations { pending_offer: None, ..*old(operations) }
        } else {
            *old(operations)
        }),
        *final(dialog) == (if forgotten {
            None
        } else {
            *old(dialog)
        }),
{
    if dialog.is_none() || !dialog_current {
        return false;
    }
    *dialog = None;
    operations.pending_offer = None;
    true
}

/// Whether the code is shown: it belongs to this dialog, pairing is active, and it has not ended.
pub open spec fn offer_shown(
    operations: GatewayOperations,
    snapshot: GatewaySnapshot,
    dialog_current: bool,
    now: u128,
) -> bool {
    operations.pending_offer matches Some(deadline) && dialog_current && snapshot.pairing_active
        && snapshot.listening() && deadline > now
}

/// The seconds until a code ends, counting a part of one as one.
pub open spec fn seconds_left(deadline: u128, now: u128) -> nat {
    if deadline <= now {
        0
    } else {
        ((deadline - now + NANOS_PER_SECOND - 1) / NANOS_PER_SECOND as int) as nat
    }
}

/// A number below a hundred with two digits.
pub open spec fn two_digits(n: nat) -> Seq<char> {
    if n < 10 {
        "0"@ + decimal(n)
    } else {
        decimal(n)
    }
}

/// The text below the code.
pub open spec fn expiry_text(seconds: nat) -> Seq<char> {
    "Expires in "@ + decimal(seconds / 60) + ":"@ + two_digits(seconds % 60)
        + " · invalid after 3 failed attempts"@
}

/// The text below the code.
pub fn pairing_expiry_label(deadline: u128, now: u128) -> (label: String)
    ensures
        label@ == expiry_text(seconds_left(deadline, now)),
{
    let remaining: u128 = deadline.saturating_sub(now);
    let whole: u128 = remaining / NANOS_PER_SECOND;
    let seconds: u128 = if remaining % NANOS_PER_SECOND > 0 {
        whole + 1
    } else {
        whole
    };
    let mut label = "Expires in ".to_owned();
    label.append(&decimal_u128(seconds / 60));
    label.append(":");
    let rest: u128 = seconds % 60;
    if rest < 10 {
        let ghost head = label@;
        label.append("0");
        label.append(&decimal_u128(rest));
        assert(label@ =~= head + two_digits(rest as nat));
    } else {
        label.append(&decimal_u128(rest));
    }
    label.append(" · invalid after 3 failed attempts");
    label
}

/// What the dialog shows in the place of the code.
pub enum PairingBody {
    /// The code, with the text below it.
    Offer { expiry: String },
    Generating,
    Error(String),
    Invalid,
}

/// What the dialog shows.
pub struct PairingView {
    pub body: PairingBody,
    pub show_generate: bool,
    pub can_generate: bool,
}

/// What the dialog shows.
pub fn pairing_view(
    operations: &GatewayOperations,
    snapshot: &GatewaySnapshot,
    dialog_current: bool,
    now: u128,
) -> (view: PairingView)
    ensures
        view.can_generate == (!operations.busy && operations.has_handle && snapshot.listening()),
        view.show_generate == !offer_shown(*operations, *snapshot, dialog_current, now),
        if offer_shown(*operations, *snapshot, dialog_current, now) {
            view.body matches PairingBody::Offer { expiry } && expiry@ == expiry_text(
                seconds_left(operations.pending_offer.unwrap(), now),
            )
        } else if operations.busy {
            view.body is Generating
        } else {
            match operations.error {
                Some(error) => view.body == PairingBody::Error(error),
                None => view.body is Invalid,
            }
        },
{
    let listening = snapshot.enabled && snapshot.has_listener;
    let can_generate = !operations.busy && operations.has_handle && listening;
    if let Some(deadline) = operations.pending_offer {
        if dialog_current && snapshot.pairing_active && listening && deadline > now {
            return PairingView {
                body: PairingBody::Offer { expiry: pairing_expiry_label(deadline, now) },
                show_generate: false,
                can_generate,
            };
        }
    }
    let body = if operations.busy {
        PairingBody::Generating
    } else {
        match &operations.error {
            Some(error) => PairingBody::Error(error.clone()),
            None => PairingBody::Invalid,
        }
    };
    PairingView { body, show_generate: true, can_generate }
}

/// Whether a new code may be issued: the gateway is free and listening, the dialog is open, and no
/// code is still good.
pub open spec fn code_due(
    operations: GatewayOperations,
    snapshot: GatewaySnapshot,
    dialog_current: bool,
    now: u128,
) -> bool {
    !operations.busy && snapshot.listening() && dialog_current && !(operations.pending_offer matches
        Some(deadline) && snapshot.pairing_active && deadline > now) && operations.has_handle
}

/// Whether a new code is issued: the gateway is free and listening, the dialog is open, and no
/// code is still good. What was shown is then taken away.
pub fn begin_pairing_code(
    operations: &mut GatewayOperations,
    snapshot: &GatewaySnapshot,
    dialog_current: bool,
    now: u128,
) -> (issued: bool)
    ensures
        issued == code_due(*old(operations), *snapshot, dialog_current, now),
        *final(operations) == (if issued {
            GatewayOperations { pending_offer: None, ..*old(operations) }
        } else {
            *old(operations)
        }),
{
    let live = match operations.pending_offer {
        Some(deadline) => snapshot.pairing_active && deadline > now,
        None => false,
    };
    if operations.busy || !snapshot.enabled || !snapshot.has_listener || !dialog_current || live
        || !operations.has_handle {
        return false;
    }
    operations.pending_offer = None;
    true
}

/// What follows once a code was taken away.
#[derive(Clone, Copy, Debug, PartialEq, Eq, Structural)]
pub struct OfferRetirement {
    /// Whether the dialog is still open and has the focus, itself or in its code.
    pub own_dialog: bool,
    /// Whether the focus has to go back from the code to the dialog.
    pub restore_focus: bool,
}

/// Takes a code away. The focus goes back to the dialog before the code that may hold it is gone.
pub fn retire_pairing_offer(
    operations: &mut GatewayOperations,
    dialog_open: bool,
    dialog_focused: bool,
    code_focused: bool,
) -> (retirement: OfferRetirement)
    ensures
        retirement.own_dialog == (dialog_open && (dialog_focused || (old(operations).pending_offer
            is Some && code_focused))),
        retirement.restore_focus == (retirement.own_dialog && old(operations).pending_offer is Some),
        *final(operations) == (GatewayOperations { pending_offer: None, ..*old(operations) }),
{
    let pending = operations.pending_offer.is_some();
    let own_dialog = dialog_open && (dialog_focused || (pending && code_focused));
    operations.pending_offer = None;
    OfferRetirement { own_dialog, restore_focus: own_dialog && pending }
}

/// Whether an extension is among those of a list.
fn is_peer(peers: &Vec<u128>, peer: u128) -> (found: bool)
    ensures
        found == peers@.contains(peer),
{
    let mut i: usize = 0;
    while i < peers.len()
        invariant
            i <= peers@.len(),
            forall|j: int| 0 <= j < i ==> peers@[j] != peer,
        decreases peers@.len() - i,
    {
        if peers[i] == peer {
            assert(peers@[i as int] == peer);
            return true;
        }
        i += 1;
    }
    false
}

/// Whether an extension was paired since the code was issued.
pub open spec fn newly_paired(before: Seq<u128>, now: Seq<u128>) -> bool {
    exists|i: int| 0 <= i < now.len() && !before.contains(#[trigger] now[i])
}

fn has_new_peer(before: &Vec<u128>, now: &Vec<u128>) -> (found: bool)
    ensures
        found == newly_paired(before@, now@),
{
    let mut i: usize = 0;
    while i < now.len()
        invariant
            i <= now@.len(),
            forall|j: int| 0 <= j < i ==> before@.contains(#[trigger] now@[j]),
        decreases now@.len() - i,
    {
        if !is_peer(before, now[i]) {
            assert(!before@.contains(now@[i as int]));
            return true;
        }
        i += 1;
    }
    false
}

/// What follows from a new report of the gateway.
#[derive(Clone, Copy, Debug, PartialEq, Eq, Structural)]
pub struct PairingReconciliation {
    /// Whether the code is taken away.
    pub retire: bool,
    /// Whether the dialog is closed.
    pub close: bool,
}

/// What follows from a new report: the code is taken away once pairing is no longer active, and
/// the own dialog is closed where an extension was paired. A newly persisted extension proves that
/// pairing completed; the number of sessions also changes on a reconnect.
pub fn reconcile_pairing(
    operations: &mut GatewayOperations,
    dialog: &mut Option<GatewayPairingDialog>,
    snapshot: &GatewaySnapshot,
    own_dialog: bool,
) -> (outcome: PairingReconciliation)
    ensures
        ({
            let retire = !snapshot.pairing_active || !snapshot.listening();
            let paired = !snapshot.pairing_active && (*old(dialog) matches Some(open)
                && open.peers_before_offer matches Some(before) && newly_paired(
                before@,
                snapshot.peers@,
            ));
            &&& outcome.retire == retire
            &&& outcome.close == (retire && paired && own_dialog)
            &&& *final(operations) == (if retire {
                GatewayOperations { pending_offer: None, ..*old(operations) }
            } else {
                *old(operations)
            })
            &&& *final(dialog) == (if outcome.close {
                None
            } else {
                *old(dialog)
            })
        }),
{
    let paired = !snapshot.pairing_active && match &*dialog {
        Some(open) => match &open.peers_before_offer {
            Some(before) => has_new_peer(before, &snapshot.peers),
            None => false,
        },
        None => false,
    };
    let retire = !snapshot.pairing_active || !snapshot.enabled || !snapshot.has_listener;
    if retire {
        operations.pending_offer = None;
    }
    let close = retire && paired && own_dialog;
    if close {
        *dialog = None;
    }
    PairingReconciliation { retire, close }
}

/// Shows a code until `deadline`, and takes note of the extensions that are paired by now.
pub fn show_pairing_offer(
    operations: &mut GatewayOperations,
    dialog: &mut Option<GatewayPairingDialog>,
    snapshot: &GatewaySnapshot,
    deadline: u128,
)
    ensures
        *final(operations) == (GatewayOperations {
            pending_offer: Some(deadline),
            ..*old(operations)
        }),
        match *old(dialog) {
            Some(_) => *final(dialog) matches Some(open) && open.peers_before_offer matches Some(
                peers,
            ) && peers@ == snapshot.peers@,
            None => *final(dialog) is None,
        },
{
    operations.pending_offer = Some(deadline);
    if dialog.is_some() {
        *dialog =
        Some(
            GatewayPairingDialog {
                peers_before_offer: Some(crate::governance::model::copy_items(&snapshot.peers)),
            },
        );
    }
}

/// What a tick of a code that is shown comes to.
#[derive(Clone, Copy, Debug, PartialEq, Eq, Structural)]
pub enum OfferTick {
    /// The code is no longer the one of the dialog.
    Stop,
    /// The code ended, or its dialog is gone.
    Retire { forget_dialog: bool },
    Continue,
}

/// What a tick of a code comes to. `dialog_current` is whether the dialog is still the one that the
/// code was issued for, and `dialog_gone` whether it was closed.
pub fn offer_tick(
    operations: &GatewayOperations,
    deadline: u128,
    dialog_current: bool,
    dialog_gone: bool,
    now: u128,
) -> (tick: OfferTick)
    ensures
        tick is Continue <==> dialog_current && operations.pending_offer == Some(deadline)
            && !dialog_gone && now < deadline,
        tick is Retire ==> dialog_current && operations.pending_offer == Some(deadline) && (dialog_gone
            || deadline <= now),
        tick == if !dialog_current || operations.pending_offer != Some(deadline) {
            OfferTick::Stop
        } else if dialog_gone || deadline <= now {
            OfferTick::Retire { forget_dialog: dialog_gone }
        } else {
            OfferTick::Continue
        },
{
    let same_offer = match operations.pending_offer {
        Some(expires) => expires == deadline,
        None => false,
    };
    if !dialog_current || !same_offer {
        return OfferTick::Stop;
    }
    if dialog_gone || deadline <= now {
        return OfferTick::Retire { forget_dialog: dialog_gone };
    }
    OfferTick::Continue
}

/// A group of three characters of a code.
pub open spec fn code_group(code: Seq<char>, group: int) -> Seq<char> {
    let from = if group * 3 <= code.len() { group * 3 } else { code.len() as int };
    let to = if from + 3 <= code.len() { from + 3 } else { code.len() as int };
    code.subrange(from, to)
}

/// The two groups of three characters in which a code is shown.
pub fn pairing_code_groups(code: &str) -> (groups: (String, String))
    ensures
        groups.0@ == code_group(code@, 0),
        groups.1@ == code_group(code@, 1),
{
    let len: usize = code.unicode_len();
    let middle: usize = if len < 3 {
        len
    } else {
        3
    };
    let end: usize = if len < 6 {
        len
    } else {
        6
    };
    (code.substring_char(0, middle).to_owned(), code.substring_char(middle, end).to_owned())
}

/// A gateway listens exactly where it is enabled and has a listener.
pub proof fn gateways_listen_when_enabled(snapshot: GatewaySnapshot)
    ensures
        snapshot.listening() <==> snapshot.enabled && snapshot.has_listener,
{
}

/// A code is shown until its deadline, in its own dialog, while the gateway listens and the pairing
/// is open.
pub proof fn codes_are_shown_until_their_deadline(
    operations: GatewayOperations,
    snapshot: GatewaySnapshot,
    dialog_current: bool,
    now: u128,
)
    ensures
        operations.pending_offer is None ==> !offer_shown(
            operations,
            snapshot,
            dialog_current,
            now,
        ),
        operations.pending_offer matches Some(deadline) ==> (offer_shown(
            operations,
            snapshot,
            dialog_current,
            now,
        ) <==> now < deadline && dialog_current && snapshot.pairing_active && snapshot.enabled
            && snapshot.has_listener),
{
}

/// What is left is counted in whole seconds, a begun one as a whole, down to nothing.
pub proof fn begun_seconds_count_whole(deadline: u128, now: u128, later: u128)
    requires
        now <= later,
    ensures
        deadline <= now ==> seconds_left(deadline, now) == 0,
        now < deadline ==> (seconds_left(deadline, now) - 1) * 1_000_000_000 < deadline - now
            <= seconds_left(deadline, now) * 1_000_000_000,
        seconds_left(deadline, later) <= seconds_left(deadline, now),
        now + 1_000_000_000 <= deadline && later == now + 1_000_000_000 ==> seconds_left(
            deadline,
            later,
        ) + 1 == seconds_left(deadline, now),
{
}

/// Seconds are shown as minutes and two digits of seconds.
pub proof fn expiry_is_shown_in_minutes(minutes: nat, seconds: nat)
    requires
        seconds < 60,
    ensures
        seconds < 10 ==> expiry_text(60 * minutes + seconds) == "Expires in "@ + decimal(minutes)
            + ":"@ + ("0"@ + decimal(seconds)) + " · invalid after 3 failed attempts"@,
        seconds >= 10 ==> expiry_text(60 * minutes + seconds) == "Expires in "@ + decimal(minutes)
            + ":"@ + decimal(seconds) + " · invalid after 3 failed attempts"@,
{
    assert((60 * minutes + seconds) / 60 == minutes && (60 * minutes + seconds) % 60 == seconds)
        by (nonlinear_arith)
        requires
            seconds < 60,
    ;
}

/// A code is due exactly where one can be made and none is good: never while something is running,
/// nothing listens or the dialog is not the current one.
pub proof fn codes_are_due_where_none_is_good(
    operations: GatewayOperations,
    snapshot: GatewaySnapshot,
    dialog_current: bool,
    now: u128,
)
    ensures
        operations.busy || !operations.has_handle || !snapshot.enabled || !snapshot.has_listener
            || !dialog_current ==> !code_due(operations, snapshot, dialog_current, now),
        !operations.busy && operations.has_handle && snapshot.enabled && snapshot.has_listener
            && dialog_current && (operations.pending_offer is None || !snapshot.pairing_active)
            ==> code_due(operations, snapshot, dialog_current, now),
        !operations.busy && operations.has_handle && snapshot.enabled && snapshot.has_listener
            && dialog_current && snapshot.pairing_active ==> (
        operations.pending_offer matches Some(deadline) ==> (code_due(
            operations,
            snapshot,
            dialog_current,
            now,
        ) <==> deadline <= now)),
        code_due(operations, snapshot, dialog_current, now) ==> !offer_shown(
            operations,
            snapshot,
            dialog_current,
            now,
        ),
{
}

/// A pairing is new exactly where there is a peer that was not there before.
pub proof fn new_peers_were_not_there(before: Seq<u128>, now: Seq<u128>, at: int)
    ensures
        0 <= at < now.len() && !before.contains(now[at]) ==> newly_paired(before, now),
        (forall|i: int| 0 <= i < now.len() ==> before.contains(#[trigger] now[i]))
            ==> !newly_paired(before, now),
        now.len() == 0 ==> !newly_paired(before, now),
        !newly_paired(before, before),
{
}

/// A code of six is shown in two groups of three, which together are the code.
pub proof fn codes_are_shown_in_threes(code: Seq<char>)
    ensures
        code.len() == 6 ==> code_group(code, 0) == code.subrange(0, 3) && code_group(code, 1)
            == code.subrange(3, 6) && code_group(code, 0) + code_group(code, 1) == code,
        code_group(code, 0).len() <= 3,
        code_group(code, 1).len() <= 3,
        code.len() <= 3 ==> code_group(code, 0) == code && code_group(code, 1).len() == 0,
{
    if code.len() == 6 {
        assert(code_group(code, 0) + code_group(code, 1) =~= code);
    }
    if code.len() <= 3 {
        assert(code_group(code, 0) =~= code);
    }
}

} // verus!
