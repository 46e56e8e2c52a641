//! Unlocking the vault from the browser extension.
use vstd::prelude::*;

verus! {

/// What the extension is trusted with once it may unlock.
pub const UNLOCK_TRUST_SUMMARY: &'static str =
    "Trusts this extension with your vault password and mnemonic passphrase.";

/// What trusting the extension means.
pub const UNLOCK_TRUST_TOOLTIP: &'static str =
    "Enter your vault password and mnemonic passphrase in this browser extension to unlock the desktop wallet. A compromised browser or extension could steal both. Signing and transactions still require desktop approval.";

/// Where the vault stands.
#[derive(Clone, Copy, Debug, PartialEq, Eq, Structural)]
pub enum VaultState {
    UnlockVault,
    PendingSoftwareProfileOpen,
    SwitchingWallet,
    ViewUnlocked,
    Other,
}

/// What the extension asks for.
#[derive(Clone, Copy, Debug, PartialEq, Eq, Structural)]
pub enum GatewayUnlockCommand {
    Password,
    Passphrase,
    Standard,
    Retry,
    Desktop,
    Cancel,
}

/// What the desktop does about it.
#[derive(Clone, Copy, Debug, PartialEq, Eq, Structural)]
pub enum UnlockDecision {
    /// The request is dropped.
    Ignored,
    /// The extension is told that the vault cannot be unlocked now.
    Unavailable,
    UnlockWithPassword,
    SubmitPassphrase,
    ContinueWithoutPassphrase,
    /// The passphrase is asked for again.
    RetryPassphrase,
    /// The desktop takes the unlock over.
    ContinueOnDesktop,
    Nothing,
}

/// What the desktop does about a request. A password starts an unlock; anything else goes on with
/// the unlock that the same attempt started. `attempt` is the attempt of the request, and
/// `desktop_admitted` whether it could be handed to the desktop.
pub fn decide_unlock(
    command: GatewayUnlockCommand,
    vault_state: VaultState,
    unlock_in_progress: bool,
    deleting_wallet: bool,
    remote_attempt: Option<u64>,
    attempt: u64,
    profile_pending: bool,
    desktop_admitted: bool,
) -> (decision: UnlockDecision)
    ensures
        decision is UnlockWithPassword <==> command is Password && vault_state is UnlockVault
            && !unlock_in_progress && !deleting_wallet,
        decision is SubmitPassphrase <==> command is Passphrase && vault_state
            is PendingSoftwareProfileOpen && remote_attempt == Some(attempt),
        decision is ContinueWithoutPassphrase <==> command is Standard && vault_state
            is PendingSoftwareProfileOpen && remote_attempt == Some(attempt),
        decision is RetryPassphrase <==> command is Retry && profile_pending && vault_state
            is PendingSoftwareProfileOpen && remote_attempt == Some(attempt),
        decision is ContinueOnDesktop <==> command is Desktop && desktop_admitted && vault_state
            is PendingSoftwareProfileOpen && remote_attempt == Some(attempt),
        decision == if command == GatewayUnlockCommand::Password {
            if vault_state != VaultState::UnlockVault || unlock_in_progress || deleting_wallet {
                UnlockDecision::Unavailable
            } else {
                UnlockDecision::UnlockWithPassword
            }
        } else if vault_state != VaultState::PendingSoftwareProfileOpen || remote_attempt != Some(
            attempt,
        ) {
            UnlockDecision::Ignored
        } else {
            match command {
                GatewayUnlockCommand::Passphrase => UnlockDecision::SubmitPassphrase,
                GatewayUnlockCommand::Standard => UnlockDecision::ContinueWithoutPassphrase,
                GatewayUnlockCommand::Retry => if profile_pending {
                    UnlockDecision::RetryPassphrase
                } else {
                    UnlockDecision::Nothing
                },
                GatewayUnlockCommand::Desktop => if desktop_admitted {
                    UnlockDecision::ContinueOnDesktop
                } else {
                    UnlockDecision::Ignored
                },
                _ => UnlockDecision::Nothing,
            }
        },
{
    if command == GatewayUnlockCommand::Password {
        if vault_state != VaultState::UnlockVault || unlock_in_progress || deleting_wallet {
            return UnlockDecision::Unavailable;
        }
        return UnlockDecision::UnlockWithPassword;
    }
    let own = match remote_attempt {
        Some(current) => current == attempt,
        None => false,
    };
    if vault_state != VaultState::PendingSoftwareProfileOpen || !own {
        return UnlockDecision::Ignored;
    }
    match command {
        GatewayUnlockCommand::Passphrase => UnlockDecision::SubmitPassphrase,
        GatewayUnlockCommand::Standard => UnlockDecision::ContinueWithoutPassphrase,
        GatewayUnlockCommand::Retry => if profile_pending {
            UnlockDecision::RetryPassphrase
        } else {
            UnlockDecision::Nothing
        },
        GatewayUnlockCommand::Desktop => if desktop_admitted {
            UnlockDecision::ContinueOnDesktop
        } else {
            UnlockDecision::Ignored
        },
        _ => UnlockDecision::Nothing,
    }
}

/// What becomes of a remote unlock that is no longer current.
#[derive(Clone, Copy, Debug, PartialEq, Eq, Structural)]
pub enum RemoteUnlockEnd {
    Keep,
    AbandonProfile,
    AbandonInstallation,
    Retire,
}

/// What becomes of the remote unlock: it is kept while there is none or it is current.
pub fn reconcile_remote_unlock(
    remote_attempt: Option<u64>,
    attempt_current: bool,
    vault_state: VaultState,
) -> (end: RemoteUnlockEnd)
    ensures
        end is Keep <==> remote_attempt is None || attempt_current,
        end is AbandonProfile ==> vault_state is PendingSoftwareProfileOpen,
        end is AbandonInstallation ==> vault_state is SwitchingWallet,
        end is Retire ==> !(vault_state is PendingSoftwareProfileOpen) && !(vault_state
            is SwitchingWallet),
        end == if remote_attempt is None || attempt_current {
            RemoteUnlockEnd::Keep
        } else {
            match vault_state {
                VaultState::PendingSoftwareProfileOpen => RemoteUnlockEnd::AbandonProfile,
                VaultState::SwitchingWallet => RemoteUnlockEnd::AbandonInstallation,
                _ => RemoteUnlockEnd::Retire,
            }
        },
{
    if remote_attempt.is_none() || attempt_current {
        return RemoteUnlockEnd::Keep;
    }
    match vault_state {
        VaultState::PendingSoftwareProfileOpen => RemoteUnlockEnd::AbandonProfile,
        VaultState::SwitchingWallet => RemoteUnlockEnd::AbandonInstallation,
        _ => RemoteUnlockEnd::Retire,
    }
}

/// Trusting the extension says with what, and what that means.
pub proof fn trust_says_with_what()
    ensures
        UNLOCK_TRUST_SUMMARY@
            == "Trusts this extension with your vault password and mnemonic passphrase."@,
        UNLOCK_TRUST_TOOLTIP@
            == "Enter your vault password and mnemonic passphrase in this browser extension to unlock the desktop wallet. A compromised browser or extension could steal both. Signing and transactions still require desktop approval."@,
{
}

} // verus!
