//! Export of a wallet's keys: what is offered, asked and shown.
use crate::text::{trim, trimmed};
use vstd::prelude::*;
use vstd::string::*;

verus! {

/// The text in the place of a value that is not revealed.
pub const MASKED_VALUE: &'static str = "********************************";

/// Where the key of a wallet comes from.
#[derive(Clone, Copy, Debug, PartialEq, Eq, Structural)]
pub enum WalletSource {
    Software,
    HardwareDerived,
}

/// Whether a software wallet has a passphrase beside its mnemonic.
#[derive(Clone, Copy, Debug, PartialEq, Eq, Structural)]
pub enum WalletSoftwareContextKind {
    Standard,
    Passphrase,
}

/// The profile that a software wallet belongs to.
pub struct WalletSoftwareContext {
    pub kind: WalletSoftwareContextKind,
    pub base_profile_uuid: String,
}

/// A wallet as the vault lists it.
pub struct WalletMetadataBundle {
    pub wallet_uuid: String,
    pub label: String,
    pub source: WalletSource,
    pub software_context: Option<WalletSoftwareContext>,
}

/// What is exported.
#[derive(Clone, Copy, Debug, PartialEq, Eq, Structural)]
pub enum KeyExportSecretKind {
    Mnemonic,
    ShareableViewingKey,
}

/// The wallet whose keys are exported, and those that were revealed. A revealed key is a value of
/// type `S`, which is dropped as soon as it is no longer shown.
pub struct KeyExportState<S> {
    pub wallet_id: Option<String>,
    pub wallet_label: Option<String>,
    pub wallet_source: Option<WalletSource>,
    pub wallet_context_kind: Option<WalletSoftwareContextKind>,
    pub base_profile_uuid: Option<String>,
    pub mnemonic: Option<S>,
    pub shareable_viewing_key: Option<S>,
}

impl<S> KeyExportState<S> {
    /// No wallet, and nothing revealed.
    pub fn default() -> (state: KeyExportState<S>)
        ensures
            state.is_clear(),
    {
        KeyExportState {
            wallet_id: None,
            wallet_label: None,
            wallet_source: None,
            wallet_context_kind: None,
            base_profile_uuid: None,
            mnemonic: None,
            shareable_viewing_key: None,
        }
    }

    /// Whether the state holds nothing of a wallet.
    pub open spec fn is_clear(self) -> bool {
        &&& self.wallet_id is None
        &&& self.wallet_label is None
        &&& self.wallet_source is None
        &&& self.wallet_context_kind is None
        &&& self.base_profile_uuid is None
        &&& self.mnemonic is None
        &&& self.shareable_viewing_key is None
    }

    /// Begins the export of a wallet. What was revealed before is dropped.
    pub fn begin(&mut self, wallet: &WalletMetadataBundle)
        ensures
            final(self).mnemonic is None,
            final(self).shareable_viewing_key is None,
            final(self).wallet_id == Some(wallet.wallet_uuid),
            final(self).wallet_label == Some(wallet.label),
            final(self).wallet_source == Some(wallet.source),
            final(self).wallet_context_kind == (match wallet.software_context {
                Some(context) => Some(context.kind),
                None => None,
            }),
            final(self).base_profile_uuid == (match wallet.software_context {
                Some(context) => Some(context.base_profile_uuid),
                None => None,
            }),
    {
        self.clear_values();
        self.wallet_id = Some(wallet.wallet_uuid.clone());
        self.wallet_label = Some(wallet.label.clone());
        self.wallet_source = Some(wallet.source);
        match &wallet.software_context {
            Some(context) => {
                self.wallet_context_kind = Some(context.kind);
                self.base_profile_uuid = Some(context.base_profile_uuid.clone());
            },
            None => {
                self.wallet_context_kind = None;
                self.base_profile_uuid = None;
            },
        }
    }

    /// Forgets the wallet and what was revealed.
    pub fn clear(&mut self)
        ensures
            final(self).is_clear(),
    {
        self.clear_values();
        self.wallet_id = None;
        self.wallet_label = None;
        self.wallet_source = None;
        self.wallet_context_kind = None;
        self.base_profile_uuid = None;
    }

    /// Drops what was revealed.
    fn clear_values(&mut self)
        ensures
            *final(self) == (KeyExportState {
                mnemonic: None,
                shareable_viewing_key: None,
                ..*old(self)
            }),
    {
        self.mnemonic = None;
        self.shareable_viewing_key = None;
    }

    /// Checks that a secret may be revealed, and returns the wallet that it is of.
    pub fn admit_reveal(&self, kind: KeyExportSecretKind, vault_available: bool) -> (wallet: Result<
        String,
        String,
    >)
        ensures
            kind is Mnemonic && self.wallet_source == Some(WalletSource::HardwareDerived) ==> wallet is Err,
            !vault_available ==> wallet is Err,
            wallet matches Ok(id) ==> self.wallet_id == Some(id),
            if kind == KeyExportSecretKind::Mnemonic && self.wallet_source == Some(
                WalletSource::HardwareDerived,
            ) {
                wallet matches Err(error) && error@
                    == "Mnemonic seed export is unavailable for hardware-derived wallets."@
            } else {
                match self.wallet_id {
                    None => wallet matches Err(error) && error@
                        == "Selected wallet is unavailable."@,
                    Some(id) => if vault_available {
                        wallet == Ok::<String, String>(id)
                    } else {
                        wallet matches Err(error) && error@
                            == "Wallet vault storage is unavailable."@
                    },
                }
            },
    {
        if let (KeyExportSecretKind::Mnemonic, Some(source)) = (kind, self.wallet_source) {
            if !key_export_mnemonic_available(source) {
                return Err(
                    "Mnemonic seed export is unavailable for hardware-derived wallets.".to_owned(),
                );
            }
        }
        match &self.wallet_id {
            None => Err("Selected wallet is unavailable.".to_owned()),
            Some(id) => if vault_available {
                Ok(id.clone())
            } else {
                Err("Wallet vault storage is unavailable.".to_owned())
            },
        }
    }

    /// Whether the view-only key is read with the hardware wallet that is unlocked.
    pub fn exports_with_device(&self) -> (device: bool)
        ensures
            device == (self.wallet_source == Some(WalletSource::HardwareDerived)),
    {
        match self.wallet_source {
            Some(WalletSource::HardwareDerived) => true,
            _ => false,
        }
    }

    /// Takes a secret that the vault exported, or says why it did not.
    pub fn apply_reveal(
        &mut self,
        kind: KeyExportSecretKind,
        result: Result<S, VaultError>,
    ) -> (applied: Result<(), String>)
        ensures
            match (result, applied) {
                (Ok(secret), Ok(_)) => match kind {
                    KeyExportSecretKind::Mnemonic => *final(self) == (KeyExportState {
                        mnemonic: Some(secret),
                        ..*old(self)
                    }),
                    KeyExportSecretKind::ShareableViewingKey => *final(self) == (KeyExportState {
                        shareable_viewing_key: Some(secret),
                        ..*old(self)
                    }),
                },
                (Err(error), Err(text)) => *final(self) == *old(self) && text@
                    == export_error_text(error, kind),
                _ => false,
            },
    {
        match result {
            Ok(secret) => {
                match kind {
                    KeyExportSecretKind::Mnemonic => self.mnemonic = Some(secret),
                    KeyExportSecretKind::ShareableViewingKey => self.shareable_viewing_key =
                    Some(secret),
                }
                Ok(())
            },
            Err(error) => Err(key_export_error_message(error, kind).to_owned()),
        }
    }
}

/// The wallet whose keys are exported: the selected one.
pub fn selected_key_export_wallet(
    selected_wallet_id: Option<&str>,
    wallets: &Vec<WalletMetadataBundle>,
) -> (at: Option<usize>)
    ensures
        match (selected_wallet_id, at) {
            (Some(id), Some(i)) => i < wallets@.len() && wallets@[i as int].wallet_uuid@ == id@
                && forall|j: int| 0 <= j < i ==> (#[trigger] wallets@[j]).wallet_uuid@ != id@,
            (Some(id), None) => forall|j: int|
                0 <= j < wallets@.len() ==> (#[trigger] wallets@[j]).wallet_uuid@ != id@,
            (None, Some(_)) => false,
            (None, None) => true,
        },
{
    let id = match selected_wallet_id {
        Some(id) => id,
        None => return None,
    };
    let mut i: usize = 0;
    while i < wallets.len()
        invariant
            i <= wallets@.len(),
            selected_wallet_id == Some(id),
            forall|j: int| 0 <= j < i ==> (#[trigger] wallets@[j]).wallet_uuid@ != id@,
        decreases wallets@.len() - i,
    {
        if crate::text::same_text(&wallets[i].wallet_uuid, id) {
            return Some(i);
        }
        i += 1;
    }
    None
}

/// Checks the password input before the vault is asked.
pub fn check_export_password(kind: KeyExportSecretKind, password: &str) -> (checked: Result<
    (),
    String,
>)
    ensures
        match checked {
            Ok(_) => trimmed(password@).len() > 0,
            Err(error) => trimmed(password@).len() == 0 && error@ == password_empty_text(kind),
        },
{
    if trim(password).is_empty() {
        return Err(key_export_password_empty_message(kind).to_owned());
    }
    Ok(())
}

/// Whether a wallet has a mnemonic to export.
pub fn key_export_mnemonic_available(source: WalletSource) -> (available: bool)
    ensures
        available == (source != WalletSource::HardwareDerived),
{
    match source {
        WalletSource::HardwareDerived => false,
        WalletSource::Software => true,
    }
}

/// What holds of a mnemonic that does not restore its wallet alone.
#[derive(Clone, Copy, Debug, PartialEq, Eq, Structural)]
pub struct KeyExportContextWarningPredicates {
    pub mnemonic_alone_is_insufficient: bool,
    pub passphrase_is_external: bool,
    pub passphrase_is_not_retained: bool,
}

/// Whether a wallet needs more than its mnemonic: it has a passphrase and a profile.
pub open spec fn needs_passphrase(
    kind: Option<WalletSoftwareContextKind>,
    profile: Option<&str>,
) -> bool {
    kind == Some(WalletSoftwareContextKind::Passphrase) && profile is Some
}

/// What holds of the mnemonic of a wallet with a passphrase.
pub fn key_export_context_warning_predicates(
    context_kind: Option<WalletSoftwareContextKind>,
    base_profile_uuid: Option<&str>,
) -> (predicates: Option<KeyExportContextWarningPredicates>)
    ensures
        predicates == if needs_passphrase(context_kind, base_profile_uuid) {
            Some(
                KeyExportContextWarningPredicates {
                    mnemonic_alone_is_insufficient: true,
                    passphrase_is_external: true,
                    passphrase_is_not_retained: true,
                },
            )
        } else {
            None
        },
{
    match (context_kind, base_profile_uuid) {
        (Some(WalletSoftwareContextKind::Passphrase), Some(_)) => Some(
            KeyExportContextWarningPredicates {
                mnemonic_alone_is_insufficient: true,
                passphrase_is_external: true,
                passphrase_is_not_retained: true,
            },
        ),
        _ => None,
    }
}

/// The warning beside a mnemonic that does not restore its wallet alone.
pub fn key_export_context_warning(
    context_kind: Option<WalletSoftwareContextKind>,
    base_profile_uuid: Option<&str>,
) -> (warning: Option<&'static str>)
    ensures
        match warning {
            Some(text) => needs_passphrase(context_kind, base_profile_uuid) && text@
                == "This mnemonic alone cannot restore this wallet. The exact mnemonic passphrase is also required and is not retained by the app."@,
            None => !needs_passphrase(context_kind, base_profile_uuid),
        },
{
    match key_export_context_warning_predicates(context_kind, base_profile_uuid) {
        Some(_) => Some(
            "This mnemonic alone cannot restore this wallet. The exact mnemonic passphrase is also required and is not retained by the app.",
        ),
        None => None,
    }
}

/// Whether a value may be copied: once it is revealed.
pub fn key_export_copy_available(revealed: bool) -> (available: bool)
    ensures
        available == revealed,
{
    revealed
}

/// What the row of a secret shows: the value itself once it is revealed, and until then a mask and
/// the button that reveals it.
pub struct KeyExportRow {
    pub revealed: bool,
    pub placeholder: Option<&'static str>,
    pub reveal_button_id: Option<&'static str>,
}

/// The row of a secret.
pub fn key_export_row<S>(kind: KeyExportSecretKind, value: &Option<S>) -> (row:
    KeyExportRow)
    ensures
        row.revealed == (value is Some),
        match row.placeholder {
            Some(text) => value is None && text@ == MASKED_VALUE@,
            None => value is Some,
        },
        match row.reveal_button_id {
            Some(id) => value is None && id@ == reveal_button_text(kind),
            None => value is Some,
        },
{
    let revealed = key_export_copy_available(value.is_some());
    KeyExportRow {
        revealed,
        placeholder: if revealed {
            None
        } else {
            Some(MASKED_VALUE)
        },
        reveal_button_id: if revealed {
            None
        } else {
            Some(key_export_reveal_button_id(kind))
        },
    }
}

/// What stands in the place of a mnemonic that a wallet does not have.
pub fn mnemonic_unavailable_message(source: WalletSource) -> (message: Option<&'static str>)
    ensures
        match message {
            Some(text) => source == WalletSource::HardwareDerived && text@
                == "Unavailable for hardware-derived wallets. This app does not store a Railgun mnemonic, synthetic entropy, hardware output, or hardware passphrase for this wallet."@,
            None => source != WalletSource::HardwareDerived,
        },
{
    if key_export_mnemonic_available(source) {
        None
    } else {
        Some(
            "Unavailable for hardware-derived wallets. This app does not store a Railgun mnemonic, synthetic entropy, hardware output, or hardware passphrase for this wallet.",
        )
    }
}

/// The text below the view-only key.
pub fn shareable_viewing_key_help(source: WalletSource) -> (help: &'static str)
    ensures
        help@ == match source {
            WalletSource::HardwareDerived => {
                "Requires the matching hardware-derived Private wallet view session to be active. Unlock/select the matching hardware wallet first."@
            },
            WalletSource::Software => {
                "This key gives full viewing access to your entire transaction history, including future activity. It cannot be revoked."@
            },
        },
{
    match source {
        WalletSource::HardwareDerived => {
            "Requires the matching hardware-derived Private wallet view session to be active. Unlock/select the matching hardware wallet first."
        },
        WalletSource::Software => {
            "This key gives full viewing access to your entire transaction history, including future activity. It cannot be revoked."
        },
    }
}

/// The line that names the wallet.
pub fn export_wallet_line(label: Option<&str>) -> (line: String)
    ensures
        line@ == "Selected wallet: "@ + match label {
            Some(text) => text@,
            None => "selected wallet"@,
        },
{
    let mut line = "Selected wallet: ".to_owned();
    match label {
        Some(text) => line.append(text),
        None => line.append("selected wallet"),
    }
    line
}

/// The identifier of the button that reveals a secret.
pub open spec fn reveal_button_text(kind: KeyExportSecretKind) -> Seq<char> {
    match kind {
        KeyExportSecretKind::Mnemonic => "wallet-key-export-show-mnemonic"@,
        KeyExportSecretKind::ShareableViewingKey => "wallet-key-export-show-view-only"@,
    }
}

/// The identifier of the button that reveals a secret.
pub fn key_export_reveal_button_id(kind: KeyExportSecretKind) -> (id: &'static str)
    ensures
        id@ == reveal_button_text(kind),
{
    match kind {
        KeyExportSecretKind::Mnemonic => "wallet-key-export-show-mnemonic",
        KeyExportSecretKind::ShareableViewingKey => "wallet-key-export-show-view-only",
    }
}

/// The identifier of the button that submits the password.
pub fn key_export_password_submit_button_id(kind: KeyExportSecretKind) -> (id: &'static str)
    ensures
        id@ == match kind {
            KeyExportSecretKind::Mnemonic => "wallet-key-export-submit-mnemonic"@,
            KeyExportSecretKind::ShareableViewingKey => "wallet-key-export-submit-view-only"@,
        },
{
    match kind {
        KeyExportSecretKind::Mnemonic => "wallet-key-export-submit-mnemonic",
        KeyExportSecretKind::ShareableViewingKey => "wallet-key-export-submit-view-only",
    }
}

/// The title of the dialog that asks for the password.
pub fn key_export_password_dialog_title(kind: KeyExportSecretKind) -> (title: &'static str)
    ensures
        title@ == match kind {
            KeyExportSecretKind::Mnemonic => "Reveal mnemonic seed"@,
            KeyExportSecretKind::ShareableViewingKey => "Reveal view-only key"@,
        },
{
    match kind {
        KeyExportSecretKind::Mnemonic => "Reveal mnemonic seed",
        KeyExportSecretKind::ShareableViewingKey => "Reveal view-only key",
    }
}

/// The text above the password input.
pub fn key_export_password_prompt_copy(kind: KeyExportSecretKind) -> (copy: &'static str)
    ensures
        copy@ == match kind {
            KeyExportSecretKind::Mnemonic => {
                "Enter the vault password to reveal only the mnemonic seed for this wallet."@
            },
            KeyExportSecretKind::ShareableViewingKey => {
                "Enter the vault password to reveal only the shareable view-only key for this wallet."@
            },
        },
{
    match kind {
        KeyExportSecretKind::Mnemonic => {
            "Enter the vault password to reveal only the mnemonic seed for this wallet."
        },
        KeyExportSecretKind::ShareableViewingKey => {
            "Enter the vault password to reveal only the shareable view-only key for this wallet."
        },
    }
}

/// What is shown when the password input is empty.
pub open spec fn password_empty_text(kind: KeyExportSecretKind) -> Seq<char> {
    match kind {
        KeyExportSecretKind::Mnemonic => "Enter the vault password to reveal the mnemonic seed."@,
        KeyExportSecretKind::ShareableViewingKey => {
            "Enter the vault password to reveal the view-only key."@
        },
    }
}

/// What is shown when the password input is empty.
pub fn key_export_password_empty_message(kind: KeyExportSecretKind) -> (message: &'static str)
    ensures
        message@ == password_empty_text(kind),
{
    match kind {
        KeyExportSecretKind::Mnemonic => "Enter the vault password to reveal the mnemonic seed.",
        KeyExportSecretKind::ShareableViewingKey => {
            "Enter the vault password to reveal the view-only key."
        },
    }
}

/// Why the vault did not export a secret.
#[derive(Clone, Copy, Debug, PartialEq, Eq, Structural)]
pub enum VaultError {
    UnlockFailed,
    WalletMnemonicUnavailable,
    HardwareWalletViewRequiresDevice,
    HardwareWalletIdentityMismatch,
    UnsupportedHardwareCustodyBackend,
    Other,
}

/// What is shown when the vault did not export a secret.
pub open spec fn export_error_text(error: VaultError, kind: KeyExportSecretKind) -> Seq<char> {
    match error {
        VaultError::UnlockFailed => "Password did not unlock the vault. Check it and try again."@,
        VaultError::WalletMnemonicUnavailable => {
            "Mnemonic seed export is unavailable for hardware-derived wallets."@
        },
        VaultError::HardwareWalletViewRequiresDevice => match kind {
            KeyExportSecretKind::Mnemonic => {
                "Mnemonic seed export is unavailable for hardware-derived wallets."@
            },
            KeyExportSecretKind::ShareableViewingKey => {
                "Unlock the matching hardware wallet before exporting the view-only key."@
            },
        },
        VaultError::HardwareWalletIdentityMismatch => {
            "The active hardware wallet does not match this wallet. Unlock the matching device profile and account, then try again."@
        },
        VaultError::UnsupportedHardwareCustodyBackend => {
            "This hardware wallet custody backend is not supported by this app version."@
        },
        VaultError::Other => "Key export failed. See logs for non-sensitive diagnostics."@,
    }
}

/// What is shown when the vault did not export a secret.
pub fn key_export_error_message(error: VaultError, kind: KeyExportSecretKind) -> (message:
    &'static str)
    ensures
        message@ == export_error_text(error, kind),
{
    match error {
        VaultError::UnlockFailed => "Password did not unlock the vault. Check it and try again.",
        VaultError::WalletMnemonicUnavailable => {
            "Mnemonic seed export is unavailable for hardware-derived wallets."
        },
        VaultError::HardwareWalletViewRequiresDevice => match kind {
            KeyExportSecretKind::Mnemonic => {
                "Mnemonic seed export is unavailable for hardware-derived wallets."
            },
            KeyExportSecretKind::ShareableViewingKey => {
                "Unlock the matching hardware wallet before exporting the view-only key."
            },
        },
        VaultError::HardwareWalletIdentityMismatch => {
            "The active hardware wallet does not match this wallet. Unlock the matching device profile and account, then try again."
        },
        VaultError::UnsupportedHardwareCustodyBackend => {
            "This hardware wallet custody backend is not supported by this app version."
        },
        VaultError::Other => "Key export failed. See logs for non-sensitive diagnostics.",
    }
}

/// The warning above the export.
pub fn key_export_warning_copy() -> (copy: &'static str)
    ensures
        copy@
            == "Revealed keys can compromise wallet funds, balances, and transaction history. Clipboard contents may be visible outside the wallet app after copying. Only reveal keys on a trusted device and close this dialog when finished."@,
{
    "Revealed keys can compromise wallet funds, balances, and transaction history. Clipboard contents may be visible outside the wallet app after copying. Only reveal keys on a trusted device and close this dialog when finished."
}

/// An export that is clear holds nothing of any wallet.
pub proof fn clear_exports_hold_nothing<S>(state: KeyExportState<S>)
    ensures
        state.is_clear() <==> state.wallet_id is None && state.wallet_label is None
            && state.wallet_source is None && state.wallet_context_kind is None
            && state.base_profile_uuid is None && state.mnemonic is None
            && state.shareable_viewing_key is None,
        state.mnemonic is Some ==> !state.is_clear(),
        state.shareable_viewing_key is Some ==> !state.is_clear(),
{
}

/// A passphrase is needed exactly for a wallet of a profile that was opened with one.
pub proof fn passphrases_are_needed_for_their_wallets(profile: &str)
    ensures
        needs_passphrase(Some(WalletSoftwareContextKind::Passphrase), Some(profile)),
        !needs_passphrase(Some(WalletSoftwareContextKind::Passphrase), None),
        !needs_passphrase(Some(WalletSoftwareContextKind::Standard), Some(profile)),
        !needs_passphrase(None, Some(profile)),
        !needs_passphrase(None, None),
{
}

/// What is hidden shows the same mask whatever it is.
pub proof fn hidden_values_show_the_mask()
    ensures
        MASKED_VALUE@ == "********************************"@,
{
}

/// Each secret has its own button and asks for its own password.
pub proof fn secrets_have_their_own_texts()
    ensures
        reveal_button_text(KeyExportSecretKind::Mnemonic) == "wallet-key-export-show-mnemonic"@,
        reveal_button_text(KeyExportSecretKind::ShareableViewingKey)
            == "wallet-key-export-show-view-only"@,
        password_empty_text(KeyExportSecretKind::Mnemonic)
            == "Enter the vault password to reveal the mnemonic seed."@,
        password_empty_text(KeyExportSecretKind::ShareableViewingKey)
            == "Enter the vault password to reveal the view-only key."@,
{
}

/// A failed export says what can be done about it; only a missing device is answered by what was
/// asked for.
pub proof fn failed_exports_say_why(kind: KeyExportSecretKind)
    ensures
        export_error_text(VaultError::UnlockFailed, kind)
            == "Password did not unlock the vault. Check it and try again."@,
        export_error_text(VaultError::WalletMnemonicUnavailable, kind)
            == "Mnemonic seed export is unavailable for hardware-derived wallets."@,
        export_error_text(
            VaultError::HardwareWalletViewRequiresDevice,
            KeyExportSecretKind::Mnemonic,
        ) == "Mnemonic seed export is unavailable for hardware-derived wallets."@,
        export_error_text(
            VaultError::HardwareWalletViewRequiresDevice,
            KeyExportSecretKind::ShareableViewingKey,
        ) == "Unlock the matching hardware wallet before exporting the view-only key."@,
        export_error_text(VaultError::HardwareWalletIdentityMismatch, kind)
            == "The active hardware wallet does not match this wallet. Unlock the matching device profile and account, then try again."@,
        export_error_text(VaultError::UnsupportedHardwareCustodyBackend, kind)
            == "This hardware wallet custody backend is not supported by this app version."@,
        export_error_text(VaultError::Other, kind)
            == "Key export failed. See logs for non-sensitive diagnostics."@,
{
}

} // verus!
