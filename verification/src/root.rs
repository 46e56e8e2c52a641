//! The wallet window: what is selected and open, and the flows that belong to it.
use crate::accounts::{account_ids, AccountId, PublicAccountMetadata, PublicAccountStatus};
use crate::address::Address;
use crate::gateway::drafts::GatewayDraftStatus;
use crate::gateway::handoff::{
    begin_installation, finish_installation, installation_admitted, installation_expected,
    GatewaySwitchContinuation, SwitchPhase, WalletGenerations,
};
use crate::gateway::private_draft::DeliveryFormKind;
use crate::governance::model::{ContextId, GovernanceContextKey};
use crate::governance::participants::{
    among, choices_of, context_key_of, enrolled_accounts, enrolled_count, identities,
    offered_choices, participant_choices, participant_picker_change, participant_summary,
    participants_of, picked_values, search_text, text_set, Choice, ParticipantSummary,
};
use crate::governance::staking::next_generation;
use crate::governance::state::{GovernanceState, GovernanceTab, PickerUpdate};
use crate::keyed::KeyMap;
use crate::text::{copy_texts, optional_text, same_text, texts, trimmed};
use vstd::prelude::*;

verus! {

/// A token on a chain.
#[derive(Clone, Copy, Debug, PartialEq, Eq, Structural)]
pub struct UnshieldAssetKey {
    pub chain_id: u64,
    pub token: Address,
}

/// An open form of a private transaction.
pub struct DraftForm {
    pub key: UnshieldAssetKey,
    /// The submission of an extension that the form was filled for.
    pub gateway_execution: Option<String>,
    pub error: Option<String>,
}

/// A submission of an extension.
pub struct GatewayDraftExecution {
    pub id: String,
    /// The generation of proofs that runs for it.
    pub generation: Option<u64>,
    pub status: GatewayDraftStatus,
}

/// Saved participants, made to fit the accounts that there are.
pub struct ParticipantResolution {
    pub uuids: Vec<String>,
    /// Whether these are not those that were saved.
    pub changed: bool,
}

/// What is read again once other accounts are enrolled.
#[derive(Clone, Copy, Debug, PartialEq, Eq, Structural)]
pub enum EnrollmentStart {
    RefreshStaking,
    /// The participation in the selected proposal, where one is.
    ReadParticipation,
}

/// The wallet window.
pub struct WalletRoot {
    pub selected_wallet_id: Option<String>,
    pub selected_chain: u64,
    /// The wallet whose view is open.
    pub view_wallet_id: Option<String>,
    pub public_accounts: Vec<PublicAccountMetadata>,
    /// The enrolled accounts that are saved for each wallet.
    pub governance_participants: KeyMap<String, Vec<String>>,
    pub governance: GovernanceState,
    pub generations: WalletGenerations,
    /// The switch of wallets that a website asked for.
    pub wallet_switch: Option<GatewaySwitchContinuation>,
    /// The attempt of an extension to unlock the vault.
    pub remote_unlock: Option<u64>,
    /// The open forms, in the order of their keys.
    pub send_forms: Vec<DraftForm>,
    pub unshield_forms: Vec<DraftForm>,
}

/// The first form, from a position on, that was filled for a submission.
pub open spec fn first_owned(forms: Seq<DraftForm>, execution: Seq<char>, from: int) -> Option<int>
    decreases forms.len() - from,
{
    if from < 0 || from >= forms.len() {
        None
    } else if optional_text(forms[from].gateway_execution) == Some(execution) {
        Some(from)
    } else {
        first_owned(forms, execution, from + 1)
    }
}

/// The first form that was filled for a submission.
fn owned_position(forms: &Vec<DraftForm>, execution: &str) -> (at: Option<usize>)
    ensures
        match at {
            Some(i) => first_owned(forms@, execution@, 0) == Some(i as int) && i < forms@.len(),
            None => first_owned(forms@, execution@, 0) is None,
        },
{
    let ghost goal = first_owned(forms@, execution@, 0);
    let mut i: usize = 0;
    while i < forms.len()
        invariant
            i <= forms@.len(),
            goal == first_owned(forms@, execution@, 0),
            goal == first_owned(forms@, execution@, i as int),
        decreases forms@.len() - i,
    {
        let owned = match &forms[i].gateway_execution {
            Some(owner) => same_text(owner, execution),
            None => false,
        };
        if owned {
            return Some(i);
        }
        i += 1;
    }
    None
}

/// The message of a submission whose inputs changed.
pub open spec fn rejection_text(error: Option<Seq<char>>) -> Seq<char> {
    match error {
        Some(text) => text,
        None => "Transaction inputs changed. Update the draft and submit again."@,
    }
}

/// Whether the form of a submission is let go of: nothing runs for it, and it failed.
pub open spec fn form_is_released(execution: GatewayDraftExecution) -> bool {
    execution.generation is None && execution.status == GatewayDraftStatus::Failed
}

impl WalletRoot {
    /// The form that was filled for a submission: its kind and its position. Forms that send come
    /// first.
    pub open spec fn owned_form(self, execution: Seq<char>) -> Option<(DeliveryFormKind, int)> {
        match first_owned(self.send_forms@, execution, 0) {
            Some(i) => Some((DeliveryFormKind::Send, i)),
            None => match first_owned(self.unshield_forms@, execution, 0) {
                Some(i) => Some((DeliveryFormKind::Unshield, i)),
                None => None,
            },
        }
    }

    /// The open forms of a kind.
    pub open spec fn forms(self, kind: DeliveryFormKind) -> Seq<DraftForm> {
        match kind {
            DeliveryFormKind::Send => self.send_forms@,
            DeliveryFormKind::Unshield => self.unshield_forms@,
        }
    }

    fn owned_form_position(&self, execution: &str) -> (at: Option<(DeliveryFormKind, usize)>)
        ensures
            match at {
                Some((kind, i)) => self.owned_form(execution@) == Some((kind, i as int)) && i
                    < self.forms(kind).len(),
                None => self.owned_form(execution@) is None,
            },
    {
        match owned_position(&self.send_forms, execution) {
            Some(i) => Some((DeliveryFormKind::Send, i)),
            None => match owned_position(&self.unshield_forms, execution) {
                Some(i) => Some((DeliveryFormKind::Unshield, i)),
                None => None,
            },
        }
    }

    /// The form that was filled for a submission: its kind and its key.
    pub fn gateway_private_form(&self, execution: &GatewayDraftExecution) -> (form: Option<
        (DeliveryFormKind, UnshieldAssetKey),
    >)
        ensures
            form == match self.owned_form(execution.id@) {
                Some((kind, i)) => Some((kind, self.forms(kind)[i].key)),
                None => None,
            },
    {
        match self.owned_form_position(&execution.id) {
            Some((DeliveryFormKind::Send, i)) => Some(
                (DeliveryFormKind::Send, self.send_forms[i].key),
            ),
            Some((DeliveryFormKind::Unshield, i)) => Some(
                (DeliveryFormKind::Unshield, self.unshield_forms[i].key),
            ),
            None => None,
        }
    }

    /// The window without the form of a submission.
    pub open spec fn form_closed(self, execution: Seq<char>, after: WalletRoot) -> bool {
        match self.owned_form(execution) {
            Some((DeliveryFormKind::Send, i)) => after.send_forms@ == self.send_forms@.remove(i)
                && after == (WalletRoot { send_forms: after.send_forms, ..self }),
            Some((DeliveryFormKind::Unshield, i)) => after.unshield_forms@
                == self.unshield_forms@.remove(i) && after == (WalletRoot {
                unshield_forms: after.unshield_forms,
                ..self
            }),
            None => after == self,
        }
    }

    /// Closes the form of a submission that failed and that nothing runs for.
    pub fn release_gateway_private_form(&mut self, execution: &GatewayDraftExecution)
        ensures
            if form_is_released(*execution) {
                old(self).form_closed(execution.id@, *final(self))
            } else {
                *final(self) == *old(self)
            },
    {
        if execution.generation.is_some() || execution.status != GatewayDraftStatus::Failed {
            return;
        }
        match self.owned_form_position(&execution.id) {
            Some((DeliveryFormKind::Send, i)) => {
                self.send_forms.remove(i);
            },
            Some((DeliveryFormKind::Unshield, i)) => {
                self.unshield_forms.remove(i);
            },
            None => {},
        }
    }

    /// The error that the form of a submission shows.
    pub open spec fn form_error(self, execution: Seq<char>) -> Option<Seq<char>> {
        match self.owned_form(execution) {
            Some((kind, i)) => optional_text(self.forms(kind)[i].error),
            None => None,
        }
    }

    /// The message that a submission is to be sent back with; none while something runs for it.
    pub fn rejection_message(&self, execution: &GatewayDraftExecution) -> (message: Option<String>)
        ensures
            optional_text(message) == if execution.generation is Some {
                None
            } else {
                Some(rejection_text(self.form_error(execution.id@)))
            },
    {
        if execution.generation.is_some() {
            return None;
        }
        let error = match self.owned_form_position(&execution.id) {
            Some((DeliveryFormKind::Send, i)) => self.send_forms[i].error.clone(),
            Some((DeliveryFormKind::Unshield, i)) => self.unshield_forms[i].error.clone(),
            None => None,
        };
        match error {
            Some(text) => Some(text),
            None => Some(
                "Transaction inputs changed. Update the draft and submit again.".to_owned(),
            ),
        }
    }

    /// Lets go of a submission that was sent back with its `rejection_message`, and gives that
    /// message. `rejected` is the submission as it then stands.
    pub fn reject_gateway_private_authorization(
        &mut self,
        execution: &GatewayDraftExecution,
        rejected: &GatewayDraftExecution,
    ) -> (message: Option<String>)
        requires
            execution.id@ == rejected.id@,
        ensures
            optional_text(message) == if execution.generation is Some {
                None
            } else {
                Some(rejection_text(old(self).form_error(execution.id@)))
            },
            if execution.generation is None && form_is_released(*rejected) {
                old(self).form_closed(execution.id@, *final(self))
            } else {
                *final(self) == *old(self)
            },
    {
        let message = self.rejection_message(execution);
        if message.is_some() {
            self.release_gateway_private_form(rejected);
        }
        message
    }

    /// The accounts that can sign for a wallet, where it is the open one.
    pub fn gateway_private_signers(&self, wallet: &str) -> (signers: Vec<PublicAccountMetadata>)
        ensures
            account_ids(signers@) == if optional_text(self.view_wallet_id) == Some(wallet@) {
                account_ids(self.public_accounts@).filter(
                    |account: AccountId|
                        account.scoped_to(wallet@) && account.status == PublicAccountStatus::Active,
                )
            } else {
                Seq::empty()
            },
    {
        let mut signers: Vec<PublicAccountMetadata> = Vec::new();
        let open = match &self.view_wallet_id {
            Some(open) => same_text(open, wallet),
            None => false,
        };
        if !open {
            assert(account_ids(signers@) =~= Seq::empty());
            return signers;
        }
        let ghost ids = account_ids(self.public_accounts@);
        let ghost keep = |account: AccountId|
            account.scoped_to(wallet@) && account.status == PublicAccountStatus::Active;
        let mut i: usize = 0;
        proof {
            reveal(Seq::filter);
            assert(account_ids(signers@) =~= ids.take(0).filter(keep));
        }
        while i < self.public_accounts.len()
            invariant
                i <= self.public_accounts@.len(),
                ids == account_ids(self.public_accounts@),
                keep == (|account: AccountId|
                    account.scoped_to(wallet@) && account.status == PublicAccountStatus::Active),
                account_ids(signers@) == ids.take(i as int).filter(keep),
            decreases self.public_accounts@.len() - i,
        {
            let ghost before = signers@;
            proof {
                reveal(Seq::filter);
                assert(ids.take(i + 1).drop_last() =~= ids.take(i as int));
                assert(ids.take(i + 1).last() == self.public_accounts@[i as int]@);
            }
            if self.public_accounts[i].is_active_for_wallet(wallet) {
                let account = self.public_accounts[i].copy();
                signers.push(account);
                assert(account_ids(signers@) =~= account_ids(before).push(account@));
            }
            i += 1;
        }
        assert(ids.take(i as int) =~= ids);
        signers
    }

    /// Begins the installation of a wallet. The switch of a website goes on with it where it is to
    /// that wallet, still wanted and waits for the current operation; else it ends.
    pub fn begin_gateway_wallet_installation(&mut self, target: &str, request_current: bool)
        ensures
            *final(self) == (WalletRoot {
                wallet_switch: if installation_admitted(
                    old(self).wallet_switch,
                    target@,
                    request_current,
                    old(self).generations,
                ) {
                    Some(
                        GatewaySwitchContinuation {
                            phase: SwitchPhase::Installing {
                                operation: next_generation(old(self).generations.wallet_switch),
                                wallet_generation: next_generation(
                                    old(self).generations.active_wallet,
                                ),
                            },
                            ..old(self).wallet_switch.unwrap()
                        },
                    )
                } else {
                    None
                },
                ..*old(self)
            }),
    {
        let switch = self.wallet_switch.take();
        self.wallet_switch = begin_installation(switch, target, request_current, self.generations);
    }

    /// Ends the installation of a wallet. The switch of a website is installed where this is the
    /// installation that it expects; else it ends.
    pub fn finish_gateway_wallet_installation(&mut self)
        ensures
            *final(self) == (WalletRoot {
                wallet_switch: if installation_expected(
                    old(self).wallet_switch,
                    optional_text(old(self).view_wallet_id),
                    old(self).generations,
                ) {
                    Some(
                        GatewaySwitchContinuation {
                            phase: SwitchPhase::Installed {
                                operation: old(self).generations.wallet_switch,
                                wallet_generation: old(self).generations.active_wallet,
                            },
                            ..old(self).wallet_switch.unwrap()
                        },
                    )
                } else {
                    None
                },
                ..*old(self)
            }),
    {
        let switch = self.wallet_switch.take();
        let wallet = match &self.view_wallet_id {
            Some(id) => Some(id.as_str()),
            None => None,
        };
        self.wallet_switch = finish_installation(switch, wallet, self.generations);
    }

    /// Takes the unlock over from an extension, and gives the attempt that is to be cancelled.
    pub fn take_over_remote_unlock(&mut self) -> (cancelled: Option<u64>)
        ensures
            cancelled == old(self).remote_unlock,
            *final(self) == (WalletRoot { remote_unlock: None, ..*old(self) }),
    {
        self.remote_unlock.take()
    }

    /// The enrolled accounts that are saved for the selected wallet.
    pub open spec fn saved_participants(self) -> Seq<Seq<char>> {
        match self.selected_wallet_id {
            Some(wallet) => if self.governance_participants@.contains_key(wallet@) {
                texts(self.governance_participants@[wallet@]@)
            } else {
                Seq::empty()
            },
            None => Seq::empty(),
        }
    }

    /// The enrolled accounts that are saved for the selected wallet.
    pub fn persisted_participants(&self) -> (saved: Vec<String>)
        ensures
            texts(saved@) == self.saved_participants(),
    {
        let saved: Vec<String> = Vec::new();
        assert(texts(saved@) =~= Seq::empty());
        match &self.selected_wallet_id {
            Some(wallet) => match self.governance_participants.get(wallet) {
                Some(list) => copy_texts(list),
                None => saved,
            },
            None => saved,
        }
    }

    /// Saves the participants of the selected wallet as they were made to fit, where there are
    /// accounts and something changed. Gives whether the saved state is to be written.
    pub fn clean_governance_participants(&mut self, resolution: ParticipantResolution) -> (saves:
        bool)
        ensures
            saves == (old(self).selected_wallet_id is Some && old(self).public_accounts@.len() > 0
                && resolution.changed),
            if saves {
                &&& final(self).governance_participants@ == old(self).governance_participants@.insert(
                    old(self).selected_wallet_id.unwrap()@,
                    resolution.uuids,
                )
                &&& *final(self) == (WalletRoot {
                    governance_participants: final(self).governance_participants,
                    ..*old(self)
                })
            } else {
                *final(self) == *old(self)
            },
    {
        let wallet = match &self.selected_wallet_id {
            Some(wallet) => wallet.clone(),
            None => return false,
        };
        if self.public_accounts.len() == 0 || !resolution.changed {
            return false;
        }
        self.governance_participants.insert(wallet, resolution.uuids);
        true
    }

    /// The accounts that take part, where `resolved` are the saved participants of the selected
    /// wallet, made to fit.
    pub open spec fn participants(self, resolved: Seq<Seq<char>>) -> Seq<AccountId> {
        match self.selected_wallet_id {
            Some(wallet) => participants_of(
                resolved,
                account_ids(self.public_accounts@),
                wallet@,
            ),
            None => Seq::empty(),
        }
    }

    /// The accounts that take part, where `resolution` is of the saved participants of the selected
    /// wallet.
    pub fn governance_participants(&self, resolution: &ParticipantResolution) -> (accounts: Vec<
        PublicAccountMetadata,
    >)
        ensures
            account_ids(accounts@) == self.participants(texts(resolution.uuids@)),
    {
        match &self.selected_wallet_id {
            Some(wallet) => enrolled_accounts(&resolution.uuids, &self.public_accounts, wallet),
            None => {
                let none: Vec<PublicAccountMetadata> = Vec::new();
                assert(account_ids(none@) =~= Seq::empty());
                none
            },
        }
    }

    /// What governance is shown for: the wallet, the chain and the accounts that take part.
    pub fn governance_context_key(&self, resolution: &ParticipantResolution) -> (key:
        GovernanceContextKey)
        ensures
            key@ == (ContextId {
                wallet_id: optional_text(self.selected_wallet_id),
                chain_id: self.selected_chain,
                participants: identities(self.participants(texts(resolution.uuids@))),
            }),
    {
        let accounts = self.governance_participants(resolution);
        let wallet = match &self.selected_wallet_id {
            Some(id) => Some(id.as_str()),
            None => None,
        };
        context_key_of(wallet, self.selected_chain, &accounts)
    }

    /// The identifiers of the accounts that take part.
    fn participant_uuids(&self, resolution: &ParticipantResolution) -> (uuids: Vec<String>)
        ensures
            texts(uuids@) == self.participants(texts(resolution.uuids@)).map_values(
                |account: AccountId| account.uuid,
            ),
    {
        let accounts = self.governance_participants(resolution);
        let mut uuids: Vec<String> = Vec::new();
        let mut i: usize = 0;
        while i < accounts.len()
            invariant
                i <= accounts@.len(),
                uuids@.len() == i,
                forall|j: int| 0 <= j < i ==> (#[trigger] uuids@[j])@ == accounts@[j]@.uuid,
            decreases accounts@.len() - i,
        {
            uuids.push(accounts[i].public_account_uuid.clone());
            i += 1;
        }
        assert(texts(uuids@) =~= account_ids(accounts@).map_values(
            |account: AccountId| account.uuid,
        ));
        uuids
    }

    /// The accounts that take part, by their identifiers.
    pub open spec fn enrolled_ids(self, resolved: Seq<Seq<char>>) -> Seq<Seq<char>> {
        self.participants(resolved).map_values(|account: AccountId| account.uuid)
    }

    /// The choices that the picker of accounts offers.
    pub open spec fn picker_choices(self, resolved: Seq<Seq<char>>) -> Seq<Choice> {
        offered_choices(
            account_ids(self.public_accounts@),
            self.enrolled_ids(resolved).to_set(),
            optional_text(self.selected_wallet_id),
            Seq::empty(),
        )
    }

    /// How many accounts take part, and how many of those are inactive.
    pub fn governance_participant_summary(&self, resolution: &ParticipantResolution) -> (summary:
        ParticipantSummary)
        ensures
            summary.selected == enrolled_count(
                self.public_accounts@,
                self.enrolled_ids(texts(resolution.uuids@)).to_set(),
                optional_text(self.selected_wallet_id),
                false,
            ),
            summary.inactive == enrolled_count(
                self.public_accounts@,
                self.enrolled_ids(texts(resolution.uuids@)).to_set(),
                optional_text(self.selected_wallet_id),
                true,
            ),
    {
        let selected = text_set(&self.participant_uuids(resolution));
        let wallet = match &self.selected_wallet_id {
            Some(id) => Some(id.as_str()),
            None => None,
        };
        participant_summary(&self.public_accounts, &selected, wallet)
    }

    /// Brings the picker of accounts in line with the wallet and the accounts that take part.
    /// `shown` are the values that the picker has selected.
    pub fn sync_governance_participant_picker(
        &mut self,
        resolution: &ParticipantResolution,
        shown: &Vec<String>,
    ) -> (update: Option<PickerUpdate>)
        ensures
            ({
                let resolved = texts(resolution.uuids@);
                let wallet_changed = optional_text(old(self).governance.participant_picker_wallet)
                    != optional_text(old(self).selected_wallet_id);
                let in_line = !wallet_changed && choices_of(
                    old(self).governance.participant_picker_items@,
                ) == old(self).picker_choices(resolved) && texts(shown@) == old(self).enrolled_ids(
                    resolved,
                );
                &&& update == if in_line {
                    None
                } else {
                    Some(PickerUpdate { clear_query: wallet_changed })
                }
                &&& optional_text(final(self).governance.participant_picker_wallet)
                    == optional_text(old(self).selected_wallet_id)
                &&& choices_of(final(self).governance.participant_picker_items@)
                    == old(self).picker_choices(resolved)
                &&& *final(self) == (WalletRoot {
                    governance: GovernanceState {
                        participant_picker_wallet: final(self).governance.participant_picker_wallet,
                        participant_picker_items: final(self).governance.participant_picker_items,
                        ..old(self).governance
                    },
                    ..*old(self)
                })
            }),
    {
        let values = self.participant_uuids(resolution);
        let selected = text_set(&values);
        let wallet = match &self.selected_wallet_id {
            Some(id) => Some(id.as_str()),
            None => None,
        };
        let items = participant_choices(&self.public_accounts, &selected, wallet, "");
        proof {
            reveal_strlit("");
            assert(trimmed(""@) =~= Seq::<char>::empty());
            assert(search_text(""@) =~= Seq::<char>::empty());
        }
        let wallet_id = self.selected_wallet_id.clone();
        self.governance.sync_participant_picker(wallet_id, items, &values, shown)
    }

    /// Whether the picker of accounts shows the selected wallet.
    pub open spec fn picker_shows_wallet(self) -> bool {
        self.selected_wallet_id is Some && optional_text(self.selected_wallet_id) == optional_text(
            self.governance.participant_picker_wallet,
        )
    }

    /// Those of the picked values that the picker offers, where it shows the selected wallet.
    pub fn picked_participants(&self, values: &Vec<String>) -> (picked: Option<Vec<String>>)
        ensures
            if self.picker_shows_wallet() {
                picked matches Some(list) && texts(list@) == texts(values@).filter(
                    |value: Seq<char>|
                        among(
                            value,
                            offered_choices(
                                account_ids(self.public_accounts@),
                                self.saved_participants().to_set(),
                                optional_text(self.selected_wallet_id),
                                Seq::empty(),
                            ),
                        ),
                )
            } else {
                picked is None
            },
    {
        let wallet = match &self.selected_wallet_id {
            Some(id) => Some(id.as_str()),
            None => None,
        };
        let shown = match &self.governance.participant_picker_wallet {
            Some(id) => Some(id.as_str()),
            None => None,
        };
        picked_values(values, &self.public_accounts, wallet, shown, &self.persisted_participants())
    }

    /// Enrolls other accounts with the selected wallet, where the picker shows it and they are not
    /// those that are saved. `normalized` are the picked values, made to fit. Gives what is to be
    /// read again; the saved state is to be written then.
    pub fn enroll_participants(&mut self, normalized: Vec<String>) -> (start: Option<
        EnrollmentStart,
    >)
        ensures
            if old(self).picker_shows_wallet() && texts(normalized@)
                != old(self).saved_participants() {
                &&& start == Some(
                    match old(self).governance.tab {
                        GovernanceTab::Staking => EnrollmentStart::RefreshStaking,
                        GovernanceTab::Proposals => EnrollmentStart::ReadParticipation,
                    },
                )
                &&& final(self).governance_participants@ == old(self).governance_participants@.insert(
                    old(self).selected_wallet_id.unwrap()@,
                    normalized,
                )
                &&& final(self).governance.context_dropped(old(self).governance)
                &&& *final(self) == (WalletRoot {
                    governance_participants: final(self).governance_participants,
                    governance: final(self).governance,
                    ..*old(self)
                })
            } else {
                start is None && *final(self) == *old(self)
            },
    {
        let wallet = match &self.selected_wallet_id {
            Some(wallet) => wallet.clone(),
            None => return None,
        };
        let shown = match &self.governance.participant_picker_wallet {
            Some(shown) => same_text(shown, &wallet),
            None => false,
        };
        if !shown {
            return None;
        }
        let saved = self.persisted_participants();
        let values = match participant_picker_change(normalized, &saved) {
            Some(values) => values,
            None => return None,
        };
        self.governance_participants.insert(wallet, values);
        self.invalidate_governance_context();
        match self.governance.tab {
            GovernanceTab::Staking => Some(EnrollmentStart::RefreshStaking),
            GovernanceTab::Proposals => Some(EnrollmentStart::ReadParticipation),
        }
    }

    /// Drops everything that governance holds for the wallet, the chain and the accounts.
    pub fn invalidate_governance_context(&mut self)
        ensures
            final(self).governance.context_dropped(old(self).governance),
            *final(self) == (WalletRoot { governance: final(self).governance, ..*old(self) }),
    {
        self.governance.invalidate_context();
    }
}

/// A switch whose installation began is installed once both generations moved on by one and the
/// wallet that it is to is open.
pub proof fn begun_installations_are_expected(
    switch: GatewaySwitchContinuation,
    target: Seq<char>,
    generations: WalletGenerations,
)
    requires
        installation_admitted(Some(switch), target, true, generations),
    ensures
        installation_expected(
            Some(
                GatewaySwitchContinuation {
                    phase: SwitchPhase::Installing {
                        operation: next_generation(generations.wallet_switch),
                        wallet_generation: next_generation(generations.active_wallet),
                    },
                    ..switch
                },
            ),
            Some(target),
            WalletGenerations {
                wallet_switch: next_generation(generations.wallet_switch),
                active_wallet: next_generation(generations.active_wallet),
            },
        ),
{
}

/// The form of an execution is the first that it owns, and there is none where it owns none.
pub proof fn executions_own_their_first_form(forms: Seq<DraftForm>, execution: Seq<char>, from: int)
    requires
        0 <= from <= forms.len(),
    ensures
        match first_owned(forms, execution, from) {
            Some(at) => from <= at < forms.len() && (
            forms[at].gateway_execution matches Some(owner) && owner@ == execution) && forall|i: int|
                from <= i < at ==> optional_text((#[trigger] forms[i]).gateway_execution) != Some(
                    execution,
                ),
            None => forall|i: int|
                from <= i < forms.len() ==> optional_text((#[trigger] forms[i]).gateway_execution)
                    != Some(execution),
        },
    decreases forms.len() - from,
{
    if from < forms.len() {
        executions_own_their_first_form(forms, execution, from + 1);
    }
}

/// Forms that send are looked through before forms that unshield.
pub proof fn send_forms_come_first(root: WalletRoot, execution: Seq<char>)
    ensures
        first_owned(root.send_forms@, execution, 0) matches Some(at) ==> root.owned_form(execution)
            == Some((DeliveryFormKind::Send, at)),
        first_owned(root.send_forms@, execution, 0) is None ==> (first_owned(
            root.unshield_forms@,
            execution,
            0,
        ) matches Some(at) ==> root.owned_form(execution) == Some((DeliveryFormKind::Unshield, at))),
        first_owned(root.send_forms@, execution, 0) is None && first_owned(
            root.unshield_forms@,
            execution,
            0,
        ) is None ==> root.owned_form(execution) is None,
        root.forms(DeliveryFormKind::Send) == root.send_forms@,
        root.forms(DeliveryFormKind::Unshield) == root.unshield_forms@,
{
}

/// A rejection says what the form says, or that the inputs changed.
pub proof fn rejections_say_why(root: WalletRoot, execution: Seq<char>, text: Seq<char>)
    ensures
        rejection_text(Some(text)) == text,
        rejection_text(None)
            == "Transaction inputs changed. Update the draft and submit again."@,
        root.owned_form(execution) is None ==> root.form_error(execution) is None,
        root.owned_form(execution) matches Some((kind, at)) ==> root.form_error(execution)
            == optional_text(root.forms(kind)[at].error),
{
}

/// A form is released exactly where its execution has failed and was never submitted.
pub proof fn failed_executions_release_their_form(execution: GatewayDraftExecution)
    ensures
        execution.generation is Some ==> !form_is_released(execution),
        execution.status != GatewayDraftStatus::Failed ==> !form_is_released(execution),
        execution.generation is None && execution.status == GatewayDraftStatus::Failed
            ==> form_is_released(execution),
{
}

/// Closing a form takes that form away, keeps every other in its order, and leaves everything else.
pub proof fn closing_takes_one_form(root: WalletRoot, execution: Seq<char>, after: WalletRoot)
    requires
        root.form_closed(execution, after),
    ensures
        root.owned_form(execution) is None ==> after == root,
        root.owned_form(execution) matches Some((kind, at)) ==> after.forms(kind) == root.forms(
            kind,
        ).remove(at),
        root.owned_form(execution) matches Some((DeliveryFormKind::Send, _))
            ==> after.unshield_forms == root.unshield_forms,
        root.owned_form(execution) matches Some((DeliveryFormKind::Unshield, _))
            ==> after.send_forms == root.send_forms,
        after.selected_wallet_id == root.selected_wallet_id,
        after.selected_chain == root.selected_chain,
        after.view_wallet_id == root.view_wallet_id,
        after.public_accounts == root.public_accounts,
        after.governance_participants == root.governance_participants,
        after.governance == root.governance,
        after.generations == root.generations,
        after.wallet_switch == root.wallet_switch,
        after.remote_unlock == root.remote_unlock,
{
}

/// The saved participants are those of the selected wallet, and none where nothing was saved.
pub proof fn participants_are_saved_by_wallet(root: WalletRoot)
    ensures
        root.selected_wallet_id is None ==> root.saved_participants().len() == 0,
        root.selected_wallet_id matches Some(wallet) ==> (
        !root.governance_participants@.contains_key(wallet@) ==> root.saved_participants().len()
            == 0),
        root.selected_wallet_id matches Some(wallet) ==> (
        root.governance_participants@.contains_key(wallet@) ==> root.saved_participants() == texts(
            root.governance_participants@[wallet@]@,
        )),
{
}

/// The participants are the accounts of the selected wallet that were resolved, in that order.
pub proof fn participants_are_of_the_selected_wallet(
    root: WalletRoot,
    resolved: Seq<Seq<char>>,
    at: int,
)
    ensures
        root.selected_wallet_id is None ==> root.participants(resolved).len() == 0,
        root.selected_wallet_id matches Some(wallet) ==> root.participants(resolved)
            == participants_of(resolved, account_ids(root.public_accounts@), wallet@),
        root.enrolled_ids(resolved).len() == root.participants(resolved).len(),
        0 <= at < root.participants(resolved).len() ==> root.enrolled_ids(resolved)[at]
            == root.participants(resolved)[at].uuid,
{
}

/// The picker offers the accounts of the selected wallet that are active or enrolled, whatever is
/// looked for.
pub proof fn pickers_offer_active_and_enrolled_accounts(
    root: WalletRoot,
    resolved: Seq<Seq<char>>,
)
    ensures
        root.picker_choices(resolved) == offered_choices(
            account_ids(root.public_accounts@),
            root.enrolled_ids(resolved).to_set(),
            optional_text(root.selected_wallet_id),
            Seq::empty(),
        ),
        root.selected_wallet_id is None ==> !root.picker_shows_wallet(),
        root.governance.participant_picker_wallet is None ==> !root.picker_shows_wallet(),
        root.selected_wallet_id matches Some(wallet) ==> (
        root.governance.participant_picker_wallet matches Some(shown) ==> (
        root.picker_shows_wallet() <==> wallet@ == shown@)),
{
}

} // verus!
