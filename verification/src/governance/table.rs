//! The table of an account's stakes.
use crate::address::{checksum_text, hex_digits, Address};
use crate::governance::model::{StakePosition, StakeState};
use crate::governance::staking::{ActionKindId, StakingActionKind};
use crate::text::{concat2, concat3, decimal, same_text};
use crate::u256::U256;
use vstd::prelude::*;
use vstd::string::*;

verus! {

/// An action on one stake.
#[derive(Clone, Copy, Debug, PartialEq, Eq, Structural)]
pub enum StakeTableAction {
    Delegate,
    Undelegate,
    Unlock,
    PrincipalClaim,
}

/// A row of the table.
#[derive(Debug, PartialEq, Eq)]
pub struct StakeTableRow {
    pub id: U256,
    pub amount: String,
    pub created: String,
    pub delegate: Address,
    pub delegate_label: String,
    pub state: String,
    pub state_detail: String,
    pub externally_delegated: bool,
    pub actions: Vec<StakeTableAction>,
    pub disabled: bool,
}

/// What a row says.
#[verifier::ext_equal]
pub struct StakeRow {
    pub id: U256,
    pub amount: Seq<char>,
    pub created: Seq<char>,
    pub delegate: Address,
    pub delegate_label: Seq<char>,
    pub state: Seq<char>,
    pub state_detail: Seq<char>,
    pub externally_delegated: bool,
    pub actions: Seq<StakeTableAction>,
    pub disabled: bool,
}

impl View for StakeTableRow {
    type V = StakeRow;

    open spec fn view(&self) -> StakeRow {
        StakeRow {
            id: self.id,
            amount: self.amount@,
            created: self.created@,
            delegate: self.delegate,
            delegate_label: self.delegate_label@,
            state: self.state@,
            state_detail: self.state_detail@,
            externally_delegated: self.externally_delegated,
            actions: self.actions@,
            disabled: self.disabled,
        }
    }
}

/// What several rows say.
pub open spec fn stake_rows(rows: Seq<StakeTableRow>) -> Seq<StakeRow> {
    rows.map_values(|row: StakeTableRow| row@)
}

/// Whether both lists hold the same actions in the same order.
fn same_actions(a: &Vec<StakeTableAction>, b: &Vec<StakeTableAction>) -> (same: bool)
    ensures
        same == (a@ == b@),
{
    if a.len() != b.len() {
        return false;
    }
    let mut i: usize = 0;
    while i < a.len()
        invariant
            i <= a@.len() == b@.len(),
            forall|j: int| 0 <= j < i ==> a@[j] == b@[j],
        decreases a@.len() - i,
    {
        if a[i] != b[i] {
            assert(a@[i as int] != b@[i as int]);
            return false;
        }
        i += 1;
    }
    assert(a@ =~= b@);
    true
}

impl StakeTableRow {
    /// Whether both rows say the same.
    pub fn same(&self, other: &StakeTableRow) -> (same: bool)
        ensures
            same == (self@ == other@),
    {
        self.id == other.id && self.amount == other.amount && self.created == other.created
            && self.delegate == other.delegate && self.delegate_label == other.delegate_label
            && self.state == other.state && self.state_detail == other.state_detail
            && self.externally_delegated == other.externally_delegated && same_actions(
            &self.actions,
            &other.actions,
        ) && self.disabled == other.disabled
    }
}

/// The identifier of a control of the staking tab.
pub open spec fn control_id(actor_uuid: Seq<char>, action: Seq<char>, subject: Seq<char>) -> Seq<
    char,
> {
    "governance-staking-"@ + action + "-"@ + actor_uuid + "-"@ + subject
}

/// The identifier of a control of the staking tab: it names the action, the account and what the
/// action is on.
pub fn staking_control_id(actor_uuid: &str, action: &str, subject: &str) -> (id: String)
    ensures
        id@ == control_id(actor_uuid@, action@, subject@),
{
    let mut id = concat3("governance-staking-", action, "-");
    id.append(actor_uuid);
    id.append("-");
    id.append(subject);
    id
}

/// A stake's identifier where there is little room: its digits, or the first three and the last
/// two of more than eight.
pub open spec fn id_preview(id: nat) -> Seq<char> {
    let digits = decimal(id);
    if digits.len() <= 8 {
        digits
    } else {
        digits.take(3) + "…"@ + digits.skip(digits.len() - 2)
    }
}

/// A stake's identifier where there is little room.
pub fn compact_stake_id_preview(id: U256) -> (preview: String)
    ensures
        preview@ == id_preview(id@),
{
    let digits = id.to_decimal();
    let len: usize = digits.as_str().unicode_len();
    if len <= 8 {
        return digits;
    }
    let head = digits.as_str().substring_char(0, 3);
    let tail = digits.as_str().substring_char(len - 2, len);
    assert(head@ =~= digits@.take(3));
    assert(tail@ =~= digits@.skip(digits@.len() - 2));
    concat3(head, "…", tail)
}

/// The name of a stake's state.
pub open spec fn state_name(state: StakeState) -> Seq<char> {
    match state {
        StakeState::Active => "Active"@,
        StakeState::Unlocking => "Unlocking"@,
        StakeState::Claimable => "Claimable"@,
        StakeState::Claimed => "Claimed"@,
    }
}

/// The color in which a state is shown.
#[derive(Clone, Copy, Debug, PartialEq, Eq, Structural)]
pub enum StateColor {
    Success,
    Warning,
    Info,
    Muted,
}

/// The color in which a state is shown.
pub fn stake_state_color(state: &str) -> (color: StateColor)
    ensures
        color == if state@ == "Active"@ {
            StateColor::Success
        } else if state@ == "Unlocking"@ {
            StateColor::Warning
        } else if state@ == "Claimable"@ {
            StateColor::Info
        } else {
            StateColor::Muted
        },
{
    if same_text(state, "Active") {
        StateColor::Success
    } else if same_text(state, "Unlocking") {
        StateColor::Warning
    } else if same_text(state, "Claimable") {
        StateColor::Info
    } else {
        StateColor::Muted
    }
}

/// The seconds until a stake is unlocked, where the chain's time is known and not past it, and 64
/// bits hold them.
pub fn stake_seconds_left(stake: &StakePosition, chain_time: Option<U256>) -> (seconds: Option<u64>)
    ensures
        seconds matches Some(left) ==> (chain_time matches Some(now) && now@ + left
            == stake.locktime@),
        match (seconds, chain_time) {
            (Some(left), Some(now)) => now@ <= stake.locktime@ && left as nat == stake.locktime@
                - now@,
            (Some(_), None) => false,
            (None, Some(now)) => now@ > stake.locktime@ || stake.locktime@ - now@ > u64::MAX,
            (None, None) => true,
        },
{
    match chain_time {
        Some(now) => match stake.locktime.checked_sub(now) {
            Some(left) => left.to_u64(),
            None => None,
        },
        None => None,
    }
}

/// The texts of a stake's numbers.
pub struct StakeTexts {
    pub amount: String,
    pub created: String,
    /// The day on which the stake is unlocked.
    pub unlock_date: String,
    /// The time until then, where it is known.
    pub time_left: Option<String>,
    /// The delegate's shortened address.
    pub delegate: String,
}

/// What a row says of its stake's state.
pub open spec fn state_detail(stake: StakePosition, texts: StakeTexts) -> Seq<char> {
    match stake.state {
        StakeState::Active => ""@,
        StakeState::Claimed => ""@,
        StakeState::Unlocking => if stake.locktime@ == 0 {
            "Claimable date unavailable"@
        } else {
            match texts.time_left {
                Some(left) => left@ + " remaining · Claimable "@ + texts.unlock_date@,
                None => "Claimable after "@ + texts.unlock_date@,
            }
        },
        StakeState::Claimable => if stake.locktime@ == 0 {
            "Unlocked"@
        } else {
            "Unlocked · "@ + texts.unlock_date@
        },
    }
}

/// The actions on a stake: an active one can be delegated, or undelegated where it is with someone
/// else, and unlocked; a claimable one can be claimed.
pub open spec fn stake_actions(stake: StakePosition, actor: Address) -> Seq<StakeTableAction> {
    match stake.state {
        StakeState::Active => if stake.delegate == actor {
            seq![StakeTableAction::Delegate, StakeTableAction::Unlock]
        } else {
            seq![StakeTableAction::Undelegate, StakeTableAction::Unlock]
        },
        StakeState::Claimable => seq![StakeTableAction::PrincipalClaim],
        _ => Seq::empty(),
    }
}

/// The row of a stake.
pub fn stake_table_row(
    stake: &StakePosition,
    actor: Address,
    inactive: bool,
    account_action_ready: bool,
    texts: StakeTexts,
) -> (row: StakeTableRow)
    ensures
        row@ == (StakeRow {
            id: stake.id,
            amount: texts.amount@,
            created: texts.created@,
            delegate: stake.delegate,
            delegate_label: if stake.delegate == actor {
                "Self-delegated"@
            } else {
                texts.delegate@
            },
            state: state_name(stake.state),
            state_detail: state_detail(*stake, texts),
            externally_delegated: stake.delegate != actor,
            actions: stake_actions(*stake, actor),
            disabled: inactive || !account_action_ready,
        }),
{
    let state = match stake.state {
        StakeState::Active => "Active",
        StakeState::Unlocking => "Unlocking",
        StakeState::Claimable => "Claimable",
        StakeState::Claimed => "Claimed",
    };
    let detail = match stake.state {
        StakeState::Active => "".to_owned(),
        StakeState::Claimed => "".to_owned(),
        StakeState::Unlocking => if stake.locktime.is_zero() {
            "Claimable date unavailable".to_owned()
        } else {
            match &texts.time_left {
                Some(left) => concat3(left, " remaining · Claimable ", &texts.unlock_date),
                None => concat2("Claimable after ", &texts.unlock_date),
            }
        },
        StakeState::Claimable => if stake.locktime.is_zero() {
            "Unlocked".to_owned()
        } else {
            concat2("Unlocked · ", &texts.unlock_date)
        },
    };
    let actions: Vec<StakeTableAction> = match stake.state {
        StakeState::Active => if stake.delegate == actor {
            vec![StakeTableAction::Delegate, StakeTableAction::Unlock]
        } else {
            vec![StakeTableAction::Undelegate, StakeTableAction::Unlock]
        },
        StakeState::Claimable => vec![StakeTableAction::PrincipalClaim],
        _ => Vec::new(),
    };
    let row = StakeTableRow {
        id: stake.id,
        amount: texts.amount,
        created: texts.created,
        delegate: stake.delegate,
        delegate_label: if stake.delegate == actor {
            "Self-delegated".to_owned()
        } else {
            texts.delegate
        },
        state: state.to_owned(),
        state_detail: detail,
        externally_delegated: stake.delegate != actor,
        actions,
        disabled: inactive || !account_action_ready,
    };
    assert(row@.actions =~= stake_actions(*stake, actor));
    row
}

/// The actions of a row are those that the action's kind and the stake's state allow: what is
/// locked or was claimed has none, and only a stake that is with someone else can be undelegated.
pub proof fn actions_follow_the_stake(stake: StakePosition, actor: Address)
    ensures
        stake.state is Unlocking || stake.state is Claimed ==> stake_actions(stake, actor).len()
            == 0,
        stake_actions(stake, actor).contains(StakeTableAction::PrincipalClaim) == (
        stake.state is Claimable),
        stake_actions(stake, actor).contains(StakeTableAction::Unlock) == (stake.state is Active),
        stake_actions(stake, actor).contains(StakeTableAction::Undelegate) == (stake.state is Active
            && stake.delegate != actor),
        stake_actions(stake, actor).contains(StakeTableAction::Delegate) == (stake.state is Active
            && stake.delegate == actor),
{
    let actions = stake_actions(stake, actor);
    match stake.state {
        StakeState::Active => {
            assert(actions[0] == if stake.delegate == actor {
                StakeTableAction::Delegate
            } else {
                StakeTableAction::Undelegate
            });
            assert(actions[1] == StakeTableAction::Unlock);
        },
        StakeState::Claimable => {
            assert(actions[0] == StakeTableAction::PrincipalClaim);
        },
        _ => {},
    }
}

/// A stake of an account.
#[derive(Debug, PartialEq, Eq)]
pub struct StakeKey {
    pub actor_uuid: String,
    pub id: U256,
}

impl View for StakeKey {
    type V = (Seq<char>, U256);

    open spec fn view(&self) -> (Seq<char>, U256) {
        (self.actor_uuid@, self.id)
    }
}

impl StakeKey {
    /// Whether both are the same stake of the same account.
    pub fn same(&self, other: &StakeKey) -> (same: bool)
        ensures
            same == (self@ == other@),
    {
        self.actor_uuid == other.actor_uuid && self.id == other.id
    }

    /// A copy of this key.
    pub fn copy(&self) -> (copy: StakeKey)
        ensures
            copy@ == self@,
    {
        StakeKey { actor_uuid: self.actor_uuid.clone(), id: self.id }
    }
}

/// The stake of an optional key.
pub open spec fn optional_stake(key: Option<StakeKey>) -> Option<(Seq<char>, U256)> {
    match key {
        Some(found) => Some(found@),
        None => None,
    }
}

/// Whether the details of this stake are open.
pub fn details_open(open: &Option<StakeKey>, key: &StakeKey) -> (shown: bool)
    ensures
        shown == (optional_stake(*open) == Some(key@)),
{
    match open {
        Some(found) => found.same(key),
        None => false,
    }
}

/// The table of an account's stakes.
pub struct StakeTable {
    pub actor_uuid: String,
    pub actor: Address,
    pub rows: Vec<StakeTableRow>,
    pub compact: bool,
    /// The stake whose details take the focus once they are shown.
    pub pending_keyboard_focus: Option<U256>,
}

/// What a table draws again.
#[derive(Clone, Copy, Debug, PartialEq, Eq, Structural)]
pub enum TableRedraw {
    Nothing,
    Rows,
    /// The rows and the columns.
    Layout,
}

/// Whether a stake has a row.
pub open spec fn has_row(rows: Seq<StakeTableRow>, id: U256) -> bool {
    exists|i: int| 0 <= i < rows.len() && (#[trigger] rows[i]).id == id
}

impl StakeTable {
    /// A table of these rows.
    pub fn new(actor_uuid: String, actor: Address, rows: Vec<StakeTableRow>, compact: bool) -> (
        table: StakeTable)
        ensures
            table == (StakeTable {
                actor_uuid,
                actor,
                rows,
                compact,
                pending_keyboard_focus: None,
            }),
    {
        StakeTable { actor_uuid, actor, rows, compact, pending_keyboard_focus: None }
    }

    /// Takes new rows. Returns whether they differ from the old ones. A pending focus on a stake
    /// that has no row any more is dropped.
    pub fn set_rows(&mut self, rows: Vec<StakeTableRow>) -> (changed: bool)
        ensures
            changed == (stake_rows(old(self).rows@) != stake_rows(rows@)),
            *final(self) == (StakeTable {
                rows: if changed {
                    rows
                } else {
                    old(self).rows
                },
                pending_keyboard_focus: match old(self).pending_keyboard_focus {
                    Some(id) => if has_row(rows@, id) {
                        Some(id)
                    } else {
                        None
                    },
                    None => None,
                },
                ..*old(self)
            }),
    {
        if let Some(id) = self.pending_keyboard_focus {
            let mut found = false;
            let mut i: usize = 0;
            while i < rows.len()
                invariant
                    i <= rows@.len(),
                    found == exists|j: int| 0 <= j < i && (#[trigger] rows@[j]).id == id,
                decreases rows@.len() - i,
            {
                if rows[i].id == id {
                    found = true;
                    assert(rows@[i as int].id == id);
                }
                i += 1;
            }
            if !found {
                self.pending_keyboard_focus = None;
            }
        }
        let mut same = self.rows.len() == rows.len();
        proof {
            if self.rows@.len() != rows@.len() {
                assert(stake_rows(self.rows@).len() != stake_rows(rows@).len());
            }
        }
        let mut i: usize = 0;
        while same && i < rows.len()
            invariant
                i <= rows@.len(),
                same ==> self.rows@.len() == rows@.len() && forall|j: int|
                    0 <= j < i ==> self.rows@[j]@ == (#[trigger] rows@[j])@,
                !same ==> stake_rows(self.rows@) != stake_rows(rows@),
            decreases rows@.len() - i,
        {
            if !self.rows[i].same(&rows[i]) {
                proof {
                    assert(stake_rows(self.rows@)[i as int] != stake_rows(rows@)[i as int]);
                }
                same = false;
            }
            i += 1;
        }
        if same {
            assert(stake_rows(self.rows@) =~= stake_rows(rows@));
            return false;
        }
        self.rows = rows;
        true
    }

    /// Takes a new layout, where `columns_changed` is whether its columns differ. Returns whether
    /// the layout differs. The details lose a pending focus where the table is no longer compact.
    pub fn set_layout(&mut self, compact: bool, columns_changed: bool) -> (changed: bool)
        ensures
            changed == (old(self).compact != compact || columns_changed),
            *final(self) == (StakeTable {
                compact,
                pending_keyboard_focus: if old(self).compact && !compact {
                    None
                } else {
                    old(self).pending_keyboard_focus
                },
                ..*old(self)
            }),
    {
        if self.compact != compact || columns_changed {
            if self.compact && !compact {
                self.pending_keyboard_focus = None;
            }
            self.compact = compact;
            true
        } else {
            false
        }
    }

    /// Takes new rows and a new layout. Returns what is to be drawn again for them.
    pub fn update(&mut self, rows: Vec<StakeTableRow>, compact: bool, columns_changed: bool) -> (
        redraw: TableRedraw)
        ensures
            redraw == if old(self).compact != compact || columns_changed {
                TableRedraw::Layout
            } else if stake_rows(old(self).rows@) != stake_rows(rows@) {
                TableRedraw::Rows
            } else {
                TableRedraw::Nothing
            },
            *final(self) == (StakeTable {
                rows: if stake_rows(old(self).rows@) != stake_rows(rows@) {
                    rows
                } else {
                    old(self).rows
                },
                compact,
                pending_keyboard_focus: match old(self).pending_keyboard_focus {
                    Some(id) => if has_row(rows@, id) && !(old(self).compact && !compact) {
                        Some(id)
                    } else {
                        None
                    },
                    None => None,
                },
                ..*old(self)
            }),
    {
        let rows_changed = self.set_rows(rows);
        let layout_changed = self.set_layout(compact, columns_changed);
        if layout_changed {
            TableRedraw::Layout
        } else if rows_changed {
            TableRedraw::Rows
        } else {
            TableRedraw::Nothing
        }
    }

    /// Whether the details of this stake take the focus as they are shown. They do so once.
    pub fn take_pending_focus(&mut self, details_open: bool, id: U256) -> (focus: bool)
        ensures
            focus == (details_open && old(self).pending_keyboard_focus == Some(id)),
            *final(self) == (StakeTable {
                pending_keyboard_focus: if focus {
                    None
                } else {
                    old(self).pending_keyboard_focus
                },
                ..*old(self)
            }),
    {
        let pending = match self.pending_keyboard_focus {
            Some(found) => found == id,
            None => false,
        };
        if details_open && pending {
            self.pending_keyboard_focus = None;
            true
        } else {
            false
        }
    }

    /// A key press on a stake opens its details, which then take the focus, or closes them.
    /// Returns the stake whose details are open afterwards.
    pub fn toggle_details_by_key(&mut self, open: &Option<StakeKey>, key: &StakeKey) -> (next:
        Option<StakeKey>)
        ensures
            optional_stake(next) == if optional_stake(*open) == Some(key@) {
                None
            } else {
                Some(key@)
            },
            *final(self) == (StakeTable {
                pending_keyboard_focus: if optional_stake(*open) == Some(key@) {
                    None
                } else {
                    Some(key.id)
                },
                ..*old(self)
            }),
    {
        if details_open(open, key) {
            self.pending_keyboard_focus = None;
            None
        } else {
            self.pending_keyboard_focus = Some(key.id);
            Some(key.copy())
        }
    }

    /// The details of a stake were opened or closed otherwise: none take the focus any more.
    /// Returns the stake whose details are open afterwards.
    pub fn details_open_changed(&mut self, open: Option<StakeKey>, key: &StakeKey, now_open: bool)
        -> (next: Option<StakeKey>)
        ensures
            optional_stake(next) == if now_open {
                Some(key@)
            } else if optional_stake(open) == Some(key@) {
                None
            } else {
                optional_stake(open)
            },
            *final(self) == (StakeTable { pending_keyboard_focus: None, ..*old(self) }),
    {
        self.pending_keyboard_focus = None;
        if now_open {
            Some(key.copy())
        } else if details_open(&open, key) {
            None
        } else {
            open
        }
    }
}

/// A button of a row.
pub struct StakeButton {
    pub id: String,
    pub label: String,
    /// The action that the button opens; a button without one is never enabled.
    pub kind: Option<StakingActionKind>,
    pub primary: bool,
    pub disabled: bool,
}

/// What a button says.
pub struct StakeButtonId {
    pub id: Seq<char>,
    pub label: Seq<char>,
    pub kind: Option<ActionKindId>,
    pub primary: bool,
    pub disabled: bool,
}

impl View for StakeButton {
    type V = StakeButtonId;

    open spec fn view(&self) -> StakeButtonId {
        StakeButtonId {
            id: self.id@,
            label: self.label@,
            kind: match self.kind {
                Some(kind) => Some(kind@),
                None => None,
            },
            primary: self.primary,
            disabled: self.disabled,
        }
    }
}

/// The button of an action of a row.
pub open spec fn action_button(
    actor_uuid: Seq<char>,
    row: StakeTableRow,
    compact: bool,
    action: StakeTableAction,
) -> StakeButtonId {
    let (label, discriminator, kind) = match action {
        StakeTableAction::Delegate => ("Delegate"@, "delegate"@, ActionKindId::Delegate(row.id)),
        StakeTableAction::Undelegate => (
            "Undelegate"@,
            "undelegate"@,
            ActionKindId::Undelegate(row.id),
        ),
        StakeTableAction::Unlock => (
            if row.externally_delegated && !compact {
                "Unlock · 2 steps"@
            } else {
                "Unlock"@
            },
            "unlock"@,
            ActionKindId::Unlock(row.id),
        ),
        StakeTableAction::PrincipalClaim => (
            "Claim principal"@,
            "principal-claim"@,
            ActionKindId::PrincipalClaim(row.id),
        ),
    };
    StakeButtonId {
        id: control_id(actor_uuid, discriminator, decimal(row.id@)),
        label,
        kind: Some(kind),
        primary: action is PrincipalClaim,
        disabled: row.disabled,
    }
}

/// The buttons of the first actions of a row.
pub open spec fn action_buttons(
    actor_uuid: Seq<char>,
    row: StakeTableRow,
    compact: bool,
    count: int,
) -> Seq<StakeButtonId> {
    Seq::new(count as nat, |i: int| action_button(actor_uuid, row, compact, row.actions@[i]))
}

/// The buttons of a row: those of its actions, and where the stake is being unlocked one that
/// announces the claim.
pub open spec fn row_buttons(actor_uuid: Seq<char>, row: StakeTableRow, compact: bool) -> Seq<
    StakeButtonId,
> {
    let own = action_buttons(actor_uuid, row, compact, row.actions@.len() as int);
    if row.state@ == "Unlocking"@ {
        own.push(
            StakeButtonId {
                id: control_id(actor_uuid, "claim-principal"@, decimal(row.id@)),
                label: "Claim principal"@,
                kind: None,
                primary: false,
                disabled: true,
            },
        )
    } else {
        own
    }
}

/// What several buttons say.
pub open spec fn buttons_of(buttons: Seq<StakeButton>) -> Seq<StakeButtonId> {
    buttons.map_values(|button: StakeButton| button@)
}

/// The buttons of a row.
pub fn stake_row_buttons(actor_uuid: &str, row: &StakeTableRow, compact: bool) -> (buttons: Vec<
    StakeButton,
>)
    ensures
        buttons_of(buttons@) == row_buttons(actor_uuid@, *row, compact),
{
    let mut buttons: Vec<StakeButton> = Vec::new();
    let id_text = row.id.to_decimal();
    let mut i: usize = 0;
    assert(buttons_of(buttons@) =~= action_buttons(actor_uuid@, *row, compact, 0));
    while i < row.actions.len()
        invariant
            i <= row.actions@.len(),
            id_text@ == decimal(row.id@),
            buttons_of(buttons@) == action_buttons(actor_uuid@, *row, compact, i as int),
        decreases row.actions@.len() - i,
    {
        let ghost before = buttons@;
        let action = row.actions[i];
        let (label, discriminator, kind) = match action {
            StakeTableAction::Delegate => (
                "Delegate",
                "delegate",
                StakingActionKind::Delegate { stake_id: row.id },
            ),
            StakeTableAction::Undelegate => (
                "Undelegate",
                "undelegate",
                StakingActionKind::Undelegate { stake_id: row.id },
            ),
            StakeTableAction::Unlock => (
                if row.externally_delegated && !compact {
                    "Unlock · 2 steps"
                } else {
                    "Unlock"
                },
                "unlock",
                StakingActionKind::Unlock { stake_id: row.id },
            ),
            StakeTableAction::PrincipalClaim => (
                "Claim principal",
                "principal-claim",
                StakingActionKind::PrincipalClaim { stake_id: row.id },
            ),
        };
        let button = StakeButton {
            id: staking_control_id(actor_uuid, discriminator, &id_text),
            label: label.to_owned(),
            kind: Some(kind),
            primary: matches!(action, StakeTableAction::PrincipalClaim),
            disabled: row.disabled,
        };
        assert(button@ == action_button(actor_uuid@, *row, compact, action));
        buttons.push(button);
        i += 1;
        assert(buttons_of(buttons@) =~= buttons_of(before).push(button@));
        assert(buttons_of(buttons@) =~= action_buttons(actor_uuid@, *row, compact, i as int));
    }
    if same_text(&row.state, "Unlocking") {
        let ghost before = buttons@;
        let button = StakeButton {
            id: staking_control_id(actor_uuid, "claim-principal", &id_text),
            label: "Claim principal".to_owned(),
            kind: None,
            primary: false,
            disabled: true,
        };
        buttons.push(button);
        assert(buttons_of(buttons@) =~= buttons_of(before).push(button@));
    }
    buttons
}

/// What the details of a stake say, beside what its row does.
pub struct StakeDetails {
    pub key: StakeKey,
    pub trigger_id: String,
    pub popover_id: String,
    pub copy_id: String,
    /// The identifier in full, and where there is little room.
    pub full_id: String,
    pub preview: String,
    /// The delegate's address in full.
    pub delegate: String,
    /// The delegate's address as the table copies it, where it is with someone else.
    pub delegate_to_copy: Option<String>,
    pub delegate_copy_id: String,
    pub state_detail_id: String,
}

/// What the details of a stake say.
pub fn stake_details(actor_uuid: &str, row: &StakeTableRow) -> (details: StakeDetails)
    ensures
        details.key@ == (actor_uuid@, row.id),
        details.trigger_id@ == control_id(
            actor_uuid@,
            "stake-details-trigger"@,
            decimal(row.id@),
        ),
        details.popover_id@ == control_id(
            actor_uuid@,
            "stake-details-popover"@,
            decimal(row.id@),
        ),
        details.copy_id@ == control_id(
            actor_uuid@,
            "stake-details-delegate-copy"@,
            decimal(row.id@),
        ),
        details.delegate_copy_id@ == control_id(actor_uuid@, "delegate-copy"@, decimal(row.id@)),
        details.state_detail_id@ == control_id(actor_uuid@, "state-detail"@, decimal(row.id@)),
        details.full_id@ == "#"@ + decimal(row.id@),
        details.preview@ == "#"@ + id_preview(row.id@),
        details.delegate@ == checksum_text(row.delegate.value()),
        crate::text::optional_text(details.delegate_to_copy) == if row.externally_delegated {
            Some(seq!['0', 'x'] + hex_digits(row.delegate.value(), 40))
        } else {
            None
        },
{
    let id_text = row.id.to_decimal();
    StakeDetails {
        key: StakeKey { actor_uuid: actor_uuid.to_owned(), id: row.id },
        trigger_id: staking_control_id(actor_uuid, "stake-details-trigger", &id_text),
        popover_id: staking_control_id(actor_uuid, "stake-details-popover", &id_text),
        copy_id: staking_control_id(actor_uuid, "stake-details-delegate-copy", &id_text),
        delegate_copy_id: staking_control_id(actor_uuid, "delegate-copy", &id_text),
        state_detail_id: staking_control_id(actor_uuid, "state-detail", &id_text),
        full_id: concat2("#", &id_text),
        preview: concat2("#", &compact_stake_id_preview(row.id)),
        delegate: row.delegate.to_checksum(),
        delegate_to_copy: if row.externally_delegated {
            Some(row.delegate.to_lower_hex())
        } else {
            None
        },
    }
}

/// Two rows are the same exactly where everything that they show is.
pub proof fn stake_rows_are_told_apart(
    a: StakeTableRow,
    b: StakeTableRow,
    rows: Seq<StakeTableRow>,
    at: int,
)
    requires
        0 <= at < rows.len(),
    ensures
        a@ == b@ <==> a.id == b.id && a.amount@ == b.amount@ && a.created@ == b.created@
            && a.delegate == b.delegate && a.delegate_label@ == b.delegate_label@ && a.state@
            == b.state@ && a.state_detail@ == b.state_detail@ && a.externally_delegated
            == b.externally_delegated && a.actions@ == b.actions@ && a.disabled == b.disabled,
        a@.id == a.id,
        a@.delegate == a.delegate,
        a@.actions == a.actions@,
        a@.disabled == a.disabled,
        a@.externally_delegated == a.externally_delegated,
        a@.state == a.state@,
        a@.amount == a.amount@,
        stake_rows(rows).len() == rows.len(),
        stake_rows(rows)[at] == rows[at]@,
{
}

/// A control is named by what it does, for whom and on what, in this order.
pub proof fn controls_are_named_in_order(
    actor_uuid: Seq<char>,
    action: Seq<char>,
    subject: Seq<char>,
)
    ensures
        control_id(actor_uuid, action, subject) == "governance-staking-"@ + action + "-"@ + actor_uuid
            + "-"@ + subject,
        control_id(actor_uuid, action, subject).len() == "governance-staking-"@.len() + action.len()
            + "-"@.len() + actor_uuid.len() + "-"@.len() + subject.len(),
{
}

/// A short number is shown whole; of a long one its first three and its last two digits.
pub proof fn long_numbers_are_shown_by_their_ends(id: nat, i: int)
    ensures
        decimal(id).len() <= 8 ==> id_preview(id) == decimal(id),
        decimal(id).len() > 8 ==> {
            &&& id_preview(id).len() == 5 + "…"@.len()
            &&& 0 <= i < 3 ==> id_preview(id)[i] == decimal(id)[i]
            &&& 0 <= i < 2 ==> id_preview(id)[id_preview(id).len() - 1 - i] == decimal(
                id,
            )[decimal(id).len() - 1 - i]
            &&& 0 <= i < "…"@.len() ==> id_preview(id)[3 + i] == "…"@[i]
        },
{
}

/// Each state has its name.
pub proof fn states_have_their_names()
    ensures
        state_name(StakeState::Active) == "Active"@,
        state_name(StakeState::Unlocking) == "Unlocking"@,
        state_name(StakeState::Claimable) == "Claimable"@,
        state_name(StakeState::Claimed) == "Claimed"@,
{
}

/// An unlocking stake says when it can be claimed and, where known, how long that takes; a claimable
/// one since when it is unlocked; any other says nothing.
pub proof fn states_say_when(stake: StakePosition, texts: StakeTexts)
    ensures
        stake.state is Active || stake.state is Claimed ==> state_detail(stake, texts) == ""@,
        stake.state is Unlocking && stake.locktime@ == 0 ==> state_detail(stake, texts)
            == "Claimable date unavailable"@,
        stake.state is Unlocking && stake.locktime@ != 0 ==> (texts.time_left matches Some(left)
            ==> state_detail(stake, texts) == left@ + " remaining · Claimable "@
            + texts.unlock_date@),
        stake.state is Unlocking && stake.locktime@ != 0 && texts.time_left is None ==> state_detail(
            stake,
            texts,
        ) == "Claimable after "@ + texts.unlock_date@,
        stake.state is Claimable && stake.locktime@ == 0 ==> state_detail(stake, texts)
            == "Unlocked"@,
        stake.state is Claimable && stake.locktime@ != 0 ==> state_detail(stake, texts)
            == "Unlocked · "@ + texts.unlock_date@,
{
}

/// An active stake offers its delegation first and unlocking second.
pub proof fn actions_are_in_order(stake: StakePosition, actor: Address)
    ensures
        stake.state is Active ==> stake_actions(stake, actor).len() == 2 && stake_actions(
            stake,
            actor,
        )[1] is Unlock,
        stake.state is Active && stake.delegate == actor ==> stake_actions(stake, actor)[0]
            is Delegate,
        stake.state is Active && stake.delegate != actor ==> stake_actions(stake, actor)[0]
            is Undelegate,
        stake.state is Claimable ==> stake_actions(stake, actor).len() == 1 && stake_actions(
            stake,
            actor,
        )[0] is PrincipalClaim,
{
}

/// Stakes are known by account and number.
pub proof fn stake_keys_are_told_apart(a: StakeKey, b: StakeKey)
    ensures
        a@ == b@ <==> a.actor_uuid@ == b.actor_uuid@ && a.id == b.id,
        optional_stake(None) is None,
        optional_stake(Some(a)) == Some(a@),
{
}

/// A number has a row exactly where a row shows it.
pub proof fn numbers_have_a_row(rows: Seq<StakeTableRow>, id: U256, at: int)
    ensures
        0 <= at < rows.len() ==> has_row(rows, rows[at].id),
        (forall|i: int| 0 <= i < rows.len() ==> (#[trigger] rows[i]).id != id) ==> !has_row(rows, id),
{
}

/// A button does what it says to the stake of its row; unlocking a delegated stake says that it
/// takes two steps where there is room, and only claiming stands out.
pub proof fn buttons_do_what_they_say(actor_uuid: Seq<char>, row: StakeTableRow, compact: bool)
    ensures
        action_button(actor_uuid, row, compact, StakeTableAction::Delegate).label == "Delegate"@
            && action_button(actor_uuid, row, compact, StakeTableAction::Delegate).kind == Some(
            ActionKindId::Delegate(row.id),
        ),
        action_button(actor_uuid, row, compact, StakeTableAction::Undelegate).label
            == "Undelegate"@ && action_button(
            actor_uuid,
            row,
            compact,
            StakeTableAction::Undelegate,
        ).kind == Some(ActionKindId::Undelegate(row.id)),
        action_button(actor_uuid, row, compact, StakeTableAction::Unlock).kind == Some(
            ActionKindId::Unlock(row.id),
        ),
        row.externally_delegated && !compact ==> action_button(
            actor_uuid,
            row,
            compact,
            StakeTableAction::Unlock,
        ).label == "Unlock · 2 steps"@,
        !row.externally_delegated || compact ==> action_button(
            actor_uuid,
            row,
            compact,
            StakeTableAction::Unlock,
        ).label == "Unlock"@,
        action_button(actor_uuid, row, compact, StakeTableAction::PrincipalClaim).label
            == "Claim principal"@ && action_button(
            actor_uuid,
            row,
            compact,
            StakeTableAction::PrincipalClaim,
        ).kind == Some(ActionKindId::PrincipalClaim(row.id)),
        forall|action: StakeTableAction|
            {
                let button = #[trigger] action_button(actor_uuid, row, compact, action);
                &&& button.disabled == row.disabled
                &&& button.primary <==> action is PrincipalClaim
            },
{
}

/// Buttons are named by their action, the account and the number.
pub proof fn buttons_are_named_by_their_action(
    actor_uuid: Seq<char>,
    row: StakeTableRow,
    compact: bool,
)
    ensures
        action_button(actor_uuid, row, compact, StakeTableAction::Delegate).id == control_id(
            actor_uuid,
            "delegate"@,
            decimal(row.id@),
        ),
        action_button(actor_uuid, row, compact, StakeTableAction::Undelegate).id == control_id(
            actor_uuid,
            "undelegate"@,
            decimal(row.id@),
        ),
        action_button(actor_uuid, row, compact, StakeTableAction::Unlock).id == control_id(
            actor_uuid,
            "unlock"@,
            decimal(row.id@),
        ),
        action_button(actor_uuid, row, compact, StakeTableAction::PrincipalClaim).id == control_id(
            actor_uuid,
            "principal-claim"@,
            decimal(row.id@),
        ),
{
}

/// A row has the buttons of its actions in their order, and behind them, while it unlocks, the claim
/// that cannot be made yet.
pub proof fn rows_have_the_buttons_of_their_actions(
    actor_uuid: Seq<char>,
    row: StakeTableRow,
    compact: bool,
    at: int,
)
    requires
        0 <= at < row.actions@.len(),
    ensures
        row_buttons(actor_uuid, row, compact)[at] == action_button(
            actor_uuid,
            row,
            compact,
            row.actions@[at],
        ),
        row.state@ != "Unlocking"@ ==> row_buttons(actor_uuid, row, compact).len()
            == row.actions@.len(),
        row.state@ == "Unlocking"@ ==> row_buttons(actor_uuid, row, compact).len()
            == row.actions@.len() + 1,
{
}

/// While a stake unlocks its claim is shown, and does nothing.
pub proof fn unlocking_stakes_cannot_be_claimed_yet(
    actor_uuid: Seq<char>,
    row: StakeTableRow,
    compact: bool,
)
    requires
        row.state@ == "Unlocking"@,
    ensures
        row_buttons(actor_uuid, row, compact).len() > 0,
        ({
            let last = row_buttons(actor_uuid, row, compact).last();
            &&& last.label == "Claim principal"@
            &&& last.kind is None
            &&& last.disabled
            &&& !last.primary
            &&& last.id == control_id(actor_uuid, "claim-principal"@, decimal(row.id@))
        }),
{
}

/// Two buttons are the same exactly where name, label, action, weight and state are.
pub proof fn buttons_are_told_apart(
    a: StakeButton,
    b: StakeButton,
    buttons: Seq<StakeButton>,
    at: int,
)
    requires
        0 <= at < buttons.len(),
    ensures
        a@ == b@ <==> a.id@ == b.id@ && a.label@ == b.label@ && (a.kind is Some <==> b.kind is Some)
            && (a.kind is Some ==> a.kind.unwrap()@ == b.kind.unwrap()@) && a.primary == b.primary
            && a.disabled == b.disabled,
        buttons_of(buttons).len() == buttons.len(),
        buttons_of(buttons)[at] == buttons[at]@,
{
}

/// Everything that is told of a `StakeTableRow` is its own, under its own name.
pub proof fn stake_table_row_is_told_as_it_is(kept: StakeTableRow)
    ensures
        kept@.id == kept.id,
        kept@.amount == kept.amount@,
        kept@.created == kept.created@,
        kept@.delegate == kept.delegate,
        kept@.delegate_label == kept.delegate_label@,
        kept@.state == kept.state@,
        kept@.state_detail == kept.state_detail@,
        kept@.externally_delegated == kept.externally_delegated,
        kept@.actions == kept.actions@,
        kept@.disabled == kept.disabled,
{
}

/// Everything that is told of a `StakeButton` is its own, under its own name.
pub proof fn stake_button_is_told_as_it_is(kept: StakeButton)
    ensures
        kept@.id == kept.id@,
        kept@.label == kept.label@,
        kept.kind matches Some(held) ==> kept@.kind == Some(held@),
        kept.kind is None ==> kept@.kind is None,
        kept@.primary == kept.primary,
        kept@.disabled == kept.disabled,
{
}

} // verus!
