//! Exporting keys, and resetting local caches.
use wallet::key_export::{
    check_export_password, export_wallet_line, key_export_context_warning, key_export_copy_available,
    key_export_error_message, key_export_mnemonic_available, key_export_password_dialog_title,
    key_export_password_empty_message, key_export_password_prompt_copy,
    key_export_password_submit_button_id, key_export_reveal_button_id, key_export_row,
    key_export_warning_copy, mnemonic_unavailable_message, selected_key_export_wallet,
    shareable_viewing_key_help, KeyExportSecretKind, KeyExportState, VaultError,
    WalletMetadataBundle, WalletSoftwareContext, WalletSoftwareContextKind,
    WalletSource,
};
use wallet::maintenance::{
    merkle_reset_message, poi_reset_message, public_cache_reset_result, public_reset_message,
    public_sync_reset_restart_is_safe, ChainCacheReset, PoiResetReport, PublicCacheResetReport,
    PublicSyncResetCompletion, ResetOutcome, WalletMaintenanceController, WalletMaintenanceReset,
    WalletMaintenanceStateMachine,
};

fn bundle(uuid: &str, source: WalletSource) -> WalletMetadataBundle {
    WalletMetadataBundle {
        wallet_uuid: uuid.to_owned(),
        label: "Savings".to_owned(),
        source,
        software_context: Some(WalletSoftwareContext {
            kind: WalletSoftwareContextKind::Passphrase,
            base_profile_uuid: "base".to_owned(),
        }),
    }
}

#[test]
fn secrets_are_revealed_one_at_a_time_and_cleared_together() {
    let mut state: KeyExportState<String> = KeyExportState::default();
    assert_eq!(
        state.admit_reveal(KeyExportSecretKind::Mnemonic, true),
        Err("Selected wallet is unavailable.".to_owned())
    );
    state.begin(&bundle("w", WalletSource::Software));
    assert_eq!(
        state.admit_reveal(KeyExportSecretKind::Mnemonic, false),
        Err("Wallet vault storage is unavailable.".to_owned())
    );
    assert_eq!(state.admit_reveal(KeyExportSecretKind::Mnemonic, true), Ok("w".to_owned()));
    assert_eq!(
        state.apply_reveal(KeyExportSecretKind::Mnemonic, Ok("seed words".to_owned())),
        Ok(())
    );
    assert_eq!(state.mnemonic, Some("seed words".to_owned()));
    assert_eq!(state.shareable_viewing_key, None);
    assert_eq!(
        state.apply_reveal(
            KeyExportSecretKind::ShareableViewingKey,
            Err(VaultError::UnlockFailed)
        ),
        Err("Password did not unlock the vault. Check it and try again.".to_owned())
    );
    assert_eq!(state.shareable_viewing_key, None);
    state.clear();
    assert_eq!(state.mnemonic, None);
    assert_eq!(state.wallet_id, None);
}

#[test]
fn hardware_wallets_have_no_mnemonic_to_export() {
    let mut state: KeyExportState<String> = KeyExportState::default();
    state.begin(&bundle("w", WalletSource::HardwareDerived));
    assert!(!key_export_mnemonic_available(WalletSource::HardwareDerived));
    assert_eq!(
        state.admit_reveal(KeyExportSecretKind::Mnemonic, true),
        Err("Mnemonic seed export is unavailable for hardware-derived wallets.".to_owned())
    );
    assert!(state.exports_with_device());
    assert_eq!(
        key_export_error_message(
            VaultError::HardwareWalletViewRequiresDevice,
            KeyExportSecretKind::ShareableViewingKey
        ),
        "Unlock the matching hardware wallet before exporting the view-only key."
    );
    assert_eq!(
        key_export_error_message(VaultError::Other, KeyExportSecretKind::Mnemonic),
        "Key export failed. See logs for non-sensitive diagnostics."
    );
    assert_eq!(
        key_export_error_message(
            VaultError::HardwareWalletIdentityMismatch,
            KeyExportSecretKind::Mnemonic
        ),
        "The active hardware wallet does not match this wallet. Unlock the matching device profile and account, then try again."
    );
}

#[test]
fn the_export_dialog_says_which_secret_it_is_about() {
    let both = [KeyExportSecretKind::Mnemonic, KeyExportSecretKind::ShareableViewingKey];
    assert_eq!(
        both.map(key_export_reveal_button_id),
        ["wallet-key-export-show-mnemonic", "wallet-key-export-show-view-only"]
    );
    assert_eq!(
        both.map(key_export_password_submit_button_id),
        ["wallet-key-export-submit-mnemonic", "wallet-key-export-submit-view-only"]
    );
    assert_eq!(
        both.map(key_export_password_dialog_title),
        ["Reveal mnemonic seed", "Reveal view-only key"]
    );
    assert!(key_export_password_prompt_copy(KeyExportSecretKind::Mnemonic)
        .contains("only the mnemonic seed"));
    assert_eq!(
        check_export_password(KeyExportSecretKind::Mnemonic, ""),
        Err("Enter the vault password to reveal the mnemonic seed.".to_owned())
    );
    assert!(check_export_password(KeyExportSecretKind::Mnemonic, " \t").is_err());
    assert_eq!(check_export_password(KeyExportSecretKind::Mnemonic, " a "), Ok(()));
    assert_eq!(
        key_export_password_empty_message(KeyExportSecretKind::ShareableViewingKey),
        "Enter the vault password to reveal the view-only key."
    );
    assert!(key_export_warning_copy().starts_with("Revealed keys can compromise wallet funds"));
    assert!(key_export_copy_available(true) && !key_export_copy_available(false));
    let hidden = key_export_row::<String>(KeyExportSecretKind::Mnemonic, &None);
    assert!(!hidden.revealed);
    assert_eq!(hidden.reveal_button_id, Some("wallet-key-export-show-mnemonic"));
    let shown = key_export_row(KeyExportSecretKind::Mnemonic, &Some("seed".to_owned()));
    assert!(shown.revealed);
    assert_eq!(shown.reveal_button_id, None);
}

#[test]
fn a_passphrase_is_not_part_of_the_mnemonic() {
    assert!(key_export_context_warning(
        Some(WalletSoftwareContextKind::Passphrase),
        Some("base")
    )
    .is_some_and(|text| text.contains("The exact mnemonic passphrase is also required")));
    assert_eq!(
        key_export_context_warning(Some(WalletSoftwareContextKind::Standard), Some("base")),
        None
    );
    let wallets =
        vec![bundle("a", WalletSource::Software), bundle("b", WalletSource::Software)];
    assert_eq!(selected_key_export_wallet(Some("b"), &wallets), Some(1));
    assert_eq!(selected_key_export_wallet(Some("c"), &wallets), None);
    assert_eq!(selected_key_export_wallet(None, &wallets), None);
}

#[test]
fn one_reset_runs_at_a_time() {
    let mut machine = WalletMaintenanceStateMachine::default();
    assert_eq!(machine.reset(), WalletMaintenanceReset::Idle);
    assert_eq!(machine.try_acquire(WalletMaintenanceReset::Idle, "x".to_owned()), None);
    let generation = machine
        .try_acquire(WalletMaintenanceReset::Poi, "Resetting".to_owned())
        .expect("no reset under way");
    assert_eq!(machine.try_acquire(WalletMaintenanceReset::Public, "x".to_owned()), None);
    assert!(!machine.set_idle_status("x".to_owned()));
    assert!(!machine.clear_status());
    assert!(!machine.complete(generation.wrapping_add(1), "x".to_owned()));
    assert_eq!(machine.status(), Some("Resetting".to_owned()));
    assert!(machine.complete(generation, "Done".to_owned()));
    assert!(!machine.complete(generation, "again".to_owned()));
    assert_eq!(machine.status(), Some("Done".to_owned()));
    assert!(machine.clear_status());
    assert_eq!(machine.status(), None);
}

#[test]
fn a_running_reset_is_held_whatever_else_is_asked() {
    let mut machine = WalletMaintenanceStateMachine::default();
    let generation = machine
        .try_acquire(WalletMaintenanceReset::Merkle, "Resetting".to_owned())
        .expect("no reset under way");
    for other in [0, generation + 1, u64::MAX] {
        assert!(!machine.clear_status());
        assert!(!machine.complete(other, "late".to_owned()));
        assert!(!machine.set_idle_status("idle".to_owned()));
        assert_eq!(machine.try_acquire(WalletMaintenanceReset::Poi, "x".to_owned()), None);
        assert_eq!(machine.reset(), WalletMaintenanceReset::Merkle);
        assert_eq!(machine.status(), Some("Resetting".to_owned()));
    }
    assert!(machine.complete(generation, "Done".to_owned()));
    assert_eq!(machine.reset(), WalletMaintenanceReset::Idle);
}

#[test]
fn a_reset_waits_for_the_cleanup_of_the_wallet_before() {
    let mut controller = WalletMaintenanceController::new();
    controller.set_root_replacement_cleanup(Some(false));
    assert!(!controller.is_idle());
    assert_eq!(controller.begin_reset(WalletMaintenanceReset::Poi, true), None);
    assert_eq!(
        controller.state.status(),
        Some("Wait for wallet sync cleanup before resetting PPOI data".to_owned())
    );
    controller.clear_finished_root_replacement_cleanup();
    assert!(!controller.is_idle());
    controller.set_root_replacement_cleanup(Some(true));
    controller.clear_finished_root_replacement_cleanup();
    assert!(controller.is_idle());
    controller.active_root = true;
    assert_eq!(controller.begin_reset(WalletMaintenanceReset::Public, false), None);
    assert_eq!(controller.begin_reset(WalletMaintenanceReset::Merkle, true), Some(1));
    assert_eq!(
        controller.state.status(),
        Some("Resetting local Merkle forest cache...".to_owned())
    );
    assert!(!controller.finish_reset(2, "late".to_owned()));
    assert!(controller.finish_reset(1, "Done".to_owned()));
    assert!(!controller.finish_reset(1, "again".to_owned()));
    assert_eq!(controller.state.status(), Some("Done".to_owned()));
    assert!(controller.is_idle());
}

#[test]
fn the_export_says_what_a_wallet_has() {
    assert_eq!(mnemonic_unavailable_message(WalletSource::Software), None);
    assert!(mnemonic_unavailable_message(WalletSource::HardwareDerived)
        .is_some_and(|text| text.starts_with("Unavailable for hardware-derived wallets.")));
    assert!(shareable_viewing_key_help(WalletSource::Software).ends_with("It cannot be revoked."));
    assert!(shareable_viewing_key_help(WalletSource::HardwareDerived).starts_with("Requires"));
    assert_eq!(export_wallet_line(Some("Savings")), "Selected wallet: Savings");
    assert_eq!(export_wallet_line(None), "Selected wallet: selected wallet");
}

#[test]
fn the_wallet_is_synced_again_only_after_a_clean_stop() {
    assert!(public_sync_reset_restart_is_safe(true, PublicSyncResetCompletion::ResetAttempted));
    assert!(!public_sync_reset_restart_is_safe(true, PublicSyncResetCompletion::CleanupFailed));
    assert!(!public_sync_reset_restart_is_safe(false, PublicSyncResetCompletion::ResetAttempted));
    assert_eq!(
        public_reset_message(
            ResetOutcome::Finished(Ok(12), PublicSyncResetCompletion::ResetAttempted),
            true
        ),
        (
            "Public sync caches reset; cleared 12 cache records and requested resync".to_owned(),
            true
        )
    );
    assert_eq!(
        public_reset_message(ResetOutcome::TaskFailed("cancelled".to_owned()), true),
        ("Public sync cache reset task failed: cancelled".to_owned(), false)
    );
    assert_eq!(
        poi_reset_message(
            ResetOutcome::Finished(
                Ok(PoiResetReport { data_records_removed: 3, chunk_records_removed: 4 }),
                PublicSyncResetCompletion::ResetAttempted
            ),
            false
        ),
        (
            "Persisted PPOI data reset; removed 3 data records and 4 downloaded chunks".to_owned(),
            false
        )
    );
    assert_eq!(
        merkle_reset_message(Ok(Ok(2)), true),
        (
            "Local Merkle forest cache reset; cleared 2 snapshot files and restarted private sync"
                .to_owned(),
            true
        )
    );
    assert_eq!(
        merkle_reset_message(Ok(Err("busy".to_owned())), true),
        ("Failed to reset local Merkle forest cache: busy".to_owned(), false)
    );
}

#[test]
fn the_first_chain_that_failed_is_named() {
    let chain = |chain_id, error: Option<&str>| ChainCacheReset {
        chain_id,
        contract: "0xabc".to_owned(),
        error: error.map(str::to_owned),
    };
    let report = |persisted: Option<&str>, chains| {
        Ok(PublicCacheResetReport {
            persisted_error: persisted.map(str::to_owned),
            chains,
            total_removed_entries: 40,
        })
    };
    assert_eq!(
        public_cache_reset_result(Err("shut down".to_owned())),
        Err("public cache reset admission failed: shut down".to_owned())
    );
    assert_eq!(
        public_cache_reset_result(report(Some("disk full"), Vec::new())),
        Err("persisted public cache reset failed: disk full".to_owned())
    );
    assert_eq!(
        public_cache_reset_result(report(
            None,
            vec![chain(1, None), chain(56, Some("locked")), chain(137, Some("gone"))]
        )),
        Err(
            "2 of 3 chain resets failed; first failure: chain 56 contract 0xabc: locked".to_owned()
        )
    );
    assert_eq!(public_cache_reset_result(report(None, vec![chain(1, None)])), Ok(40));
}
