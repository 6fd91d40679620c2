use termirust_console::domain::{PermissionPolicy, PresetError, StoreError, StoreHealth};
use termirust_console::ids::PresetId;
use termirust_console::messages::{Atom, MessageId, Text};
use termirust_console::presets::{
    add_preset_argument, classify_store_failure, detection_presentation, executable_candidates,
    executable_display, preset_store_error_message, runtime_label, DetectionCandidate,
    DetectionReport, DetectionStatus, ExecutableSpec, LaunchPreset, MovePreset, PresetAction,
    PresetForm, PresetLibraryLoadState, PresetLibraryState, PresetOrigin, PresetSnapshot,
    PresetStoreFailure, PresetStoreOpening, PresetWorkingChoice, PresetsContent, RemovePreset,
    WorkingDirectoryRule,
};
use termirust_console::runtimes::RuntimeRegistry;
use termirust_console::ui::Notices;

fn registry() -> RuntimeRegistry {
    RuntimeRegistry { claude_id: "agent".to_string() }
}

fn quiet() -> Notices {
    Notices { status: None, error: None }
}

fn id(value: u128) -> PresetId {
    PresetId { value }
}

fn preset(value: u128) -> LaunchPreset {
    LaunchPreset {
        id: id(value),
        label: format!("Preset {value}"),
        executable: ExecutableSpec::SearchPath("codex".to_string()),
        args: vec!["--fast".to_string()],
        working_directory: WorkingDirectoryRule::ContainedSubdirectory("src".to_string()),
        runtime: Some("codex".to_string()),
        enabled: true,
        favorite: false,
        permission_policy: PermissionPolicy::ReadOnly,
        origin: PresetOrigin::User,
        risky: false,
        revision: 1,
    }
}

fn snapshot(revision: u64, presets: Vec<LaunchPreset>) -> PresetSnapshot {
    PresetSnapshot { revision, presets, health: StoreHealth::Healthy, read_only: false }
}

fn library(presets: Vec<LaunchPreset>) -> PresetLibraryState {
    PresetLibraryState::open_default(PresetStoreOpening::Opened(Ok(snapshot(6, presets))))
}

fn form() -> PresetForm {
    PresetForm {
        label: "stale".to_string(),
        executable: "stale".to_string(),
        subdirectory: "stale".to_string(),
        arguments: vec!["stale".to_string()],
    }
}

#[test]
fn every_detection_state_has_text_color_and_shape() {
    let mut texts = Vec::new();
    for status in [
        DetectionStatus::Supported,
        DetectionStatus::DetectedUnknownVersion,
        DetectionStatus::UnsupportedVersion,
        DetectionStatus::Missing,
        DetectionStatus::PermissionDenied,
        DetectionStatus::TimedOut,
        DetectionStatus::Failed,
    ] {
        let (text, _, _) = detection_presentation(status);
        assert!(!format!("{text:?}").is_empty());
        assert!(!texts.contains(&text));
        texts.push(text);
    }
}

#[test]
fn absolute_executable_display_redacts_parent_path() {
    let executable = ExecutableSpec::Absolute("/Users/private/customer/codex".to_string());
    assert_eq!(executable_display(&executable), "codex");
    assert!(!executable_display(&executable).contains("private"));
}

#[test]
fn risk_copy_is_distinct_from_missing_and_disabled_copy() {
    assert_ne!(MessageId::PresetStatusRisky, MessageId::PresetStatusMissing);
    assert_ne!(MessageId::PresetStatusRisky, MessageId::PresetStatusDisabled);
}

#[test]
fn a_risky_missing_disabled_preset_says_all_three() {
    let mut shown = preset(1);
    shown.risky = true;
    shown.enabled = false;
    match library(vec![shown]).preset_list(&vec![false]) {
        PresetsContent::Rows(rows) => {
            let chips: Vec<MessageId> = rows[0].chips.iter().map(|chip| chip.message).collect();
            assert!(chips.contains(&MessageId::PresetStatusMissing));
            assert!(chips.contains(&MessageId::PresetStatusDisabled));
            assert!(chips.contains(&MessageId::PresetStatusRisky));
        }
        other => panic!("unexpected {other:?}"),
    }
}

#[test]
fn failures_to_open_are_told_apart() {
    let opened = |opening| PresetLibraryState::open_default(opening).load_state;
    assert_eq!(
        opened(PresetStoreOpening::NoDirectory),
        PresetLibraryLoadState::Failed(PresetStoreFailure::Unavailable)
    );
    assert_eq!(
        opened(PresetStoreOpening::Refused(StoreError::StoreNewer)),
        PresetLibraryLoadState::Failed(PresetStoreFailure::Newer)
    );
    assert_eq!(
        opened(PresetStoreOpening::Opened(Err(StoreError::TooLarge))),
        PresetLibraryLoadState::Failed(PresetStoreFailure::Corrupt)
    );
    assert_eq!(classify_store_failure(&StoreError::UnsafeEntry), PresetStoreFailure::Corrupt);
    assert_eq!(
        preset_store_error_message(&StoreError::PresetDomain(
            PresetError::RiskConfirmationRequired
        )),
        MessageId::PresetErrorRiskConfirm
    );
    assert_eq!(
        preset_store_error_message(&StoreError::PresetDomain(PresetError::StaleRevision)),
        MessageId::PresetErrorStale
    );
}

#[test]
fn names_of_executables_and_runtimes() {
    assert_eq!(executable_display(&ExecutableSpec::SearchPath("a/b".to_string())), "a/b");
    assert_eq!(executable_display(&ExecutableSpec::Absolute("/".to_string())), "Executable");
    assert_eq!(
        runtime_label(&registry(), &"gemini".to_string()),
        Atom::Message(MessageId::RuntimeLabelGemini)
    );
    assert_eq!(
        runtime_label(&registry(), &"agent".to_string()),
        Atom::Message(MessageId::RuntimeLabelClaude)
    );
    assert_eq!(runtime_label(&registry(), &"generic".to_string()), Atom::Value("generic".to_string()));
}

#[test]
fn programs_are_looked_for_in_a_bounded_search_path() {
    let directories: Vec<String> = (0..130).map(|n| format!("/d{n}")).collect();
    let found =
        executable_candidates(&ExecutableSpec::SearchPath("codex".to_string()), &directories);
    assert_eq!(found.len(), 128);
    assert_eq!(found[127], "/d127/codex");
    let absolute =
        executable_candidates(&ExecutableSpec::Absolute("/opt/x".to_string()), &directories);
    assert_eq!(absolute, vec!["/opt/x"]);
}

#[test]
fn editing_and_saving_keeps_the_preset() {
    let mut state = library(vec![preset(1)]);
    let mut fields = form();
    let mut notices = quiet();
    assert!(state.edit_preset(id(1), &mut fields, &mut notices));
    assert_eq!(fields.label, "Preset 1");
    assert_eq!(fields.executable, "codex");
    assert_eq!(fields.subdirectory, "src");
    assert_eq!(fields.arguments, vec!["--fast"]);
    let request = state.save_request(&fields, id(99), &mut notices).unwrap();
    assert_eq!(request.expected_revision, 6);
    assert_eq!(request.draft.id, id(1));
    assert_eq!(request.draft.args, vec!["--fast"]);
    assert_eq!(
        request.draft.working_directory,
        WorkingDirectoryRule::ContainedSubdirectory("src".to_string())
    );
    assert_eq!(request.draft.permission_policy, PermissionPolicy::ReadOnly);
    state.save_preset_editor(
        request.name,
        Ok(()),
        Ok(snapshot(7, vec![preset(1)])),
        &mut notices,
    );
    assert!(state.editor.is_none());
    assert_eq!(state.snapshot.as_ref().unwrap().revision, 7);
    assert!(!state.edit_preset(id(5), &mut fields, &mut notices));
}

#[test]
fn a_new_preset_starts_from_empty_fields() {
    let mut state = library(Vec::new());
    let mut fields = form();
    let mut notices = quiet();
    state.open_new_preset(&mut fields, &mut notices);
    assert_eq!(fields.label, "");
    assert_eq!(fields.arguments, vec![""]);
    state.choose_working_directory(PresetWorkingChoice::PlatformHome);
    state.choose_permission(PermissionPolicy::WorkspaceWrite);
    state.toggle_favorite();
    fields.label = "  Mine ".to_string();
    assert!(add_preset_argument(&mut fields, 2, &mut notices));
    assert!(!add_preset_argument(&mut fields, 2, &mut notices));
    assert_eq!(notices.error, Some(Text::Message(MessageId::PresetErrorInvalid)));
    let request = state.save_request(&fields, id(42), &mut notices).unwrap();
    assert_eq!(request.name, Atom::Value("Mine".to_string()));
    assert_eq!(request.draft.id, id(42));
    assert!(request.draft.favorite);
    assert_eq!(request.draft.working_directory, WorkingDirectoryRule::PlatformHome);
    state.remove_preset_argument(0, &mut fields);
    assert_eq!(fields.arguments, vec![""]);
    state.cancel_preset_editor(&mut notices);
    assert!(state.save_request(&fields, id(42), &mut notices).is_none());
}

#[test]
fn a_stale_save_reads_the_store_again() {
    let mut state = library(vec![preset(1)]);
    let mut fields = form();
    let mut notices = quiet();
    assert!(state.edit_preset(id(1), &mut fields, &mut notices));
    state.save_preset_editor(
        Atom::Value("Preset 1".to_string()),
        Err(StoreError::PresetDomain(PresetError::StaleRevision)),
        Ok(snapshot(9, Vec::new())),
        &mut notices,
    );
    assert!(state.editor.is_some());
    assert_eq!(state.snapshot.as_ref().unwrap().revision, 9);
    assert_eq!(notices.error, Some(Text::Message(MessageId::PresetErrorStale)));
}

#[test]
fn presets_move_by_one_place() {
    let state = library(vec![preset(1), preset(2), preset(3)]);
    let step = |value, direction| state.move_request(id(value), direction);
    assert_eq!(step(1, -1), None);
    assert_eq!(step(3, 1), None);
    assert_eq!(
        step(2, -1),
        Some(MovePreset { id: id(2), before: Some(id(1)), expected_revision: 6 })
    );
    assert_eq!(
        step(1, 1),
        Some(MovePreset { id: id(1), before: Some(id(3)), expected_revision: 6 })
    );
    assert_eq!(step(2, 1), Some(MovePreset { id: id(2), before: None, expected_revision: 6 }));
    assert_eq!(step(8, 1), None);
}

#[test]
fn deleting_names_the_preset() {
    let state = library(vec![preset(1)]);
    assert_eq!(
        state.delete_request(id(1)),
        Some(RemovePreset { id: id(1), name: "Preset 1".to_string(), expected_revision: 6 })
    );
    let mut without = library(vec![preset(1)]);
    without.has_repository = false;
    assert_eq!(without.delete_request(id(1)), None);
}

#[test]
fn only_the_latest_scan_is_reported() {
    let mut state = library(Vec::new());
    let mut notices = quiet();
    let report = || DetectionReport { candidates: Vec::new(), cancelled: false, partial: false };
    let (first, superseded) = state.start_preset_scan(&mut notices);
    assert!(!superseded);
    let (second, superseded) = state.start_preset_scan(&mut notices);
    assert!(superseded);
    state.finish_preset_scan(first, report(), &mut notices);
    assert!(state.scanning);
    assert!(state.scan_report.is_none());
    state.finish_preset_scan(second, report(), &mut notices);
    assert!(!state.scanning);
    assert!(state.scan_report.is_some());
}

#[test]
fn detected_runtimes_are_offered_once() {
    let candidate = |runtime: &str, status| DetectionCandidate {
        runtime: runtime.to_string(),
        executable: ExecutableSpec::SearchPath(runtime.to_string()),
        status,
        version: None,
    };
    let state = library(vec![preset(1)]);
    assert!(state.preset_exists_for(&candidate("codex", DetectionStatus::Supported)));
    assert!(!state.preset_exists_for(&candidate("gemini", DetectionStatus::Supported)));
    let view = state.detection_report(&registry(), &DetectionReport {
        candidates: vec![
            candidate("codex", DetectionStatus::Supported),
            candidate("gemini", DetectionStatus::Supported),
            candidate("other", DetectionStatus::Missing),
        ],
        cancelled: false,
        partial: true,
    });
    let disabled: Vec<bool> = view.rows.iter().map(|row| row.accept.disabled).collect();
    assert_eq!(disabled, vec![true, false, true]);
    assert_eq!(view.rows[1].accept.action, PresetAction::AcceptDetected(1));
    assert!(view.partial.is_some());
    let request =
        state.accept_request(&registry(), &candidate("gemini", DetectionStatus::Supported), id(7)).unwrap();
    assert_eq!(request.draft.label, Atom::Message(MessageId::RuntimeLabelGemini));
    assert_eq!(request.draft.origin, PresetOrigin::Detected);
}
