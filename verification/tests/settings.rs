use termirust_console::messages::{MessageId, Text};
use termirust_console::notification_settings::{
    notification_settings_card, report_notification_action, NotificationAction, NotificationMode,
    NotificationPolicy, PermissionState,
};
use termirust_console::remote_devices::{
    classify_store_failure, confirm_identity_reset, pairing_ui_status, remote_device_status,
    remote_identity_status, report_fingerprint_copied, ControllerAuthority, ControllerCapabilities, ControllerDeviceId,
    ControllerDeviceStoreError, HostIdentityPublic, HostIdentityState, PairedDeviceRecord,
    PairedDeviceStatus, PairingUiState, RemoteDevicesFailure, RemoteDevicesOpening,
    RemoteDevicesState,
};
use termirust_console::settings_surface::{
    activate_setting, focus_settings_input, handle_settings_accessibility_command,
    set_setting_accessibility_value, setting_presentation, settings_semantic_snapshot, Locale,
    SettingId, SettingUpdate, SettingValuePresentation, SettingsAccessibilityCommand,
    SettingsInput, SettingsLimits, SettingsScreen, SettingsStep, SettingsSurfaceState,
    SettingsValues, ThemePreset,
};
use termirust_console::ui::{Emphasis, Notices, SemanticActionValue};

fn quiet() -> Notices {
    Notices { status: None, error: None }
}

fn opened() -> RemoteDevicesState {
    RemoteDevicesState::open_default(RemoteDevicesOpening::Opened {
        state: HostIdentityState::Ready,
        identity: Some(HostIdentityPublic { fingerprint: "04:04".to_string() }),
        loaded: Ok(ControllerAuthority {
            state: HostIdentityState::Ready,
            identity: None,
            devices: Vec::new(),
        }),
    })
}

fn device(id: u128, send_input: bool) -> PairedDeviceRecord {
    PairedDeviceRecord {
        device_id: ControllerDeviceId { value: id },
        display_name: "Phone".to_string(),
        fingerprint_suffix: "aa".to_string(),
        status: PairedDeviceStatus::Online,
        capabilities: ControllerCapabilities {
            observe_sessions: false,
            attach_output: false,
            send_input,
            resize: send_input,
            others: 6,
        },
        last_seen: None,
    }
}

#[test]
fn remote_devices_add_controller_is_disabled_without_route() {
    let state = opened();
    assert!(!state.route_available);
    assert!(state.devices.is_empty());
    let card = state.remote_devices_card("");
    assert!(card.route.add.disabled);
    assert_eq!(card.route.required, Some(MessageId::RemoteDevicesRouteRequired));
}

#[test]
fn remote_devices_reports_every_pairing_and_identity_recovery_state() {
    let mut seen = Vec::new();
    for state in [
        PairingUiState::Idle,
        PairingUiState::Generating,
        PairingUiState::Waiting,
        PairingUiState::SasReady,
        PairingUiState::SasMismatch,
        PairingUiState::Expired,
        PairingUiState::RateLimited,
        PairingUiState::StorageFailure,
        PairingUiState::Uncertain,
        PairingUiState::Paired,
        PairingUiState::Revoked,
    ] {
        let label = pairing_ui_status(state);
        assert!(!format!("{label:?}").is_empty());
        assert!(!seen.contains(&label));
        seen.push(label);
    }
    for state in [
        HostIdentityState::Ready,
        HostIdentityState::Locked,
        HostIdentityState::PermissionDenied,
        HostIdentityState::Lost,
        HostIdentityState::ResetRequired,
    ] {
        assert!(!format!("{:?}", remote_identity_status(state, None)).is_empty());
    }
}

#[test]
fn remote_devices_safe_reset_and_status_labels_are_explicit() {
    let card = opened().remote_devices_card("");
    assert_eq!(card.reset.placeholder, MessageId::RemoteDevicesResetPlaceholder);
    assert_eq!(
        remote_device_status(PairedDeviceStatus::Revoked),
        MessageId::RemoteDevicesStatusRevoked
    );
    assert_eq!(card.reset.description, MessageId::RemoteDevicesResetDescription);
}

#[test]
fn only_the_exact_word_resets_the_identity() {
    let mut notices = quiet();
    assert!(confirm_identity_reset("RESET", &mut notices));
    assert_eq!(notices, quiet());
    assert!(!confirm_identity_reset("reset", &mut notices));
    assert_eq!(
        notices.error,
        Some(Text::Message(MessageId::RemoteDevicesResetConfirmationRequired))
    );
    assert!(opened().remote_devices_card("RESET ").reset.reset.disabled);
    assert!(!opened().remote_devices_card("RESET").reset.reset.disabled);
}

#[test]
fn restricting_input_leaves_only_watching() {
    let mut state = opened();
    state.devices = vec![device(1, true), device(2, false)];
    let restricted = state.toggle_input_request(ControllerDeviceId { value: 1 }).unwrap();
    assert!(restricted.observe_sessions && restricted.attach_output);
    assert!(!restricted.send_input && !restricted.resize);
    assert_eq!(restricted.others, 0);
    let allowed = state.toggle_input_request(ControllerDeviceId { value: 2 }).unwrap();
    assert!(allowed.send_input && allowed.resize && !allowed.observe_sessions);
    assert_eq!(allowed.others, 6);
    assert!(state.toggle_input_request(ControllerDeviceId { value: 3 }).is_none());
}

#[test]
fn device_store_failures_are_told_apart() {
    assert_eq!(
        classify_store_failure(ControllerDeviceStoreError::Io { permission_denied: true }),
        RemoteDevicesFailure::Permission
    );
    assert_eq!(
        classify_store_failure(ControllerDeviceStoreError::StaleRevision),
        RemoteDevicesFailure::Unavailable
    );
    assert_eq!(
        classify_store_failure(ControllerDeviceStoreError::Domain),
        RemoteDevicesFailure::Corrupt
    );
    let failed = RemoteDevicesState::open_default(RemoteDevicesOpening::Refused(
        ControllerDeviceStoreError::Newer,
    ));
    assert_eq!(failed.failure, Some(RemoteDevicesFailure::Newer));
    assert_eq!(failed.pairing_state, PairingUiState::StorageFailure);
    assert_eq!(
        remote_identity_status(HostIdentityState::Ready, failed.failure),
        MessageId::RemoteDevicesStoreNewer
    );
    let locked_out = RemoteDevicesState::open_default(RemoteDevicesOpening::NoIdentity);
    assert_eq!(locked_out.failure, Some(RemoteDevicesFailure::Permission));
}

#[test]
fn revoking_reads_the_devices_again() {
    let mut state = opened();
    let mut notices = quiet();
    state.revoke_remote_device(
        true,
        Ok(ControllerAuthority {
            state: HostIdentityState::Ready,
            identity: None,
            devices: vec![device(1, false)],
        }),
        &mut notices,
    );
    assert_eq!(state.pairing_state, PairingUiState::Revoked);
    assert_eq!(state.devices.len(), 1);
    assert_eq!(notices.status, Some(Text::Message(MessageId::RemoteDevicesRevokedNotice)));
    state.revoke_remote_device(
        false,
        Err(ControllerDeviceStoreError::Corrupt),
        &mut notices,
    );
    assert_eq!(notices.error, Some(Text::Message(MessageId::RemoteDevicesOperationFailed)));
}

#[test]
fn one_notification_mode_is_in_effect() {
    let card = notification_settings_card(
        NotificationPolicy {
            mode: NotificationMode::InApp,
            recording_friendly: false,
            permission: PermissionState::Denied,
        },
        false,
    );
    let selected: Vec<NotificationAction> = card
        .modes
        .iter()
        .filter(|mode| mode.emphasis == Emphasis::Primary)
        .map(|mode| mode.action)
        .collect();
    assert_eq!(selected, vec![NotificationAction::SetMode(NotificationMode::InApp)]);
    assert_eq!(card.recording.action, NotificationAction::SetRecordingFriendly(true));
    let mut notices = quiet();
    report_notification_action(NotificationAction::RefreshPermission, true, &mut notices);
    assert_eq!(
        notices.status,
        Some(Text::Message(MessageId::NotificationPermissionRefreshed))
    );
}

fn values() -> SettingsValues {
    SettingsValues {
        theme_preset: ThemePreset::Ocean,
        locale: Locale::EnUs,
        terminal_font_size: 14,
        copy_on_select: true,
        confirm_multiline_paste: false,
        restore_workspaces_on_launch: true,
        session_log_limit: 100,
        auto_reconnect_attempts: 3,
        ssh_keepalive_secs: 30,
        auto_reconnect_delay_secs: 2,
        diagnostics_enabled: false,
        notification_mode: NotificationMode::Off,
        recording_friendly: false,
        export_passphrase_typed: true,
        import_passphrase_typed: false,
    }
}

fn screen(query: &str, found: Option<Vec<SettingId>>) -> SettingsScreen {
    SettingsScreen {
        shown: true,
        query: query.to_string(),
        found,
        recovery_planned: false,
        diagnostic_running: false,
        health_scan_running: false,
        recovery_running: false,
        has_error: false,
        values: values(),
    }
}

#[test]
fn a_search_without_a_result_says_so() {
    let all = vec![SettingId::Theme, SettingId::CopyOnSelect];
    let empty = settings_semantic_snapshot(&screen("zz", Some(Vec::new())), &all).unwrap();
    assert_eq!(empty.state, SettingsSurfaceState::SearchEmpty);
    let ready = settings_semantic_snapshot(&screen("", Some(Vec::new())), &all).unwrap();
    assert_eq!(ready.state, SettingsSurfaceState::Ready);
    assert!(!ready.query_active);
    let mut hidden = screen("", None);
    hidden.shown = false;
    assert!(settings_semantic_snapshot(&hidden, &all).is_none());
}

#[test]
fn passphrases_are_masked() {
    let shown = setting_presentation(SettingId::BackupExportPassphrase, &values());
    assert_eq!(shown.value, SettingValuePresentation::Masked);
}

#[test]
fn activation_flips_switches() {
    assert_eq!(
        activate_setting(SettingId::CopyOnSelect, &values()),
        SettingsStep::Update(SettingUpdate::CopyOnSelect(false))
    );
    assert_eq!(
        activate_setting(SettingId::ConfirmMultilinePaste, &values()),
        SettingsStep::Update(SettingUpdate::ConfirmMultilinePaste(true))
    );
    assert_eq!(
        focus_settings_input(SettingId::SyncFolder),
        SettingsInput::SyncFolder
    );
    assert_eq!(focus_settings_input(SettingId::Theme), SettingsInput::Search);
}

#[test]
fn numbers_are_taken_in_their_range() {
    let set = |n| {
        set_setting_accessibility_value(
            SettingId::AutoReconnectAttempts,
            false,
            Some(SemanticActionValue::Number(n)),
            10,
        )
    };
    assert_eq!(set(0), SettingsStep::Update(SettingUpdate::AutoReconnectAttempts(0)));
    assert_eq!(set(-1), SettingsStep::Nothing);
    assert_eq!(set(1_000), SettingsStep::Nothing);
}

#[test]
fn overlong_queries_are_refused() {
    let search = |text: &str| {
        handle_settings_accessibility_command(
            SettingsAccessibilityCommand::SetSearchValue,
            false,
            Some(SemanticActionValue::Text(text.to_string())),
            &values(),
            SettingsLimits { query_chars: 3, value_chars: 3 },
        )
    };
    assert_eq!(
        search("abc"),
        SettingsStep::SetInput(SettingsInput::Search, "abc".to_string())
    );
    assert_eq!(search("abcd"), SettingsStep::Nothing);
}

#[test]
fn copying_the_fingerprint_is_reported() {
    let mut notices = quiet();
    report_fingerprint_copied(&mut notices);
    assert_eq!(
        notices.status,
        Some(Text::Message(MessageId::RemoteDevicesFingerprintCopied))
    );
}
