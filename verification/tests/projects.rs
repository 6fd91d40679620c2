use termirust_console::domain::{
    ProjectError, ProjectStatus, StoreError, StoreHealth,
};
use termirust_console::group_repair::PlacementReply;
use termirust_console::ids::{
    project_element_key, GroupId, HostedSessionId, PresetId, ProjectId,
};
use termirust_console::messages::{Atom, MessageId, Text};
use termirust_console::projects::{
    classify_store_failure, project_error_message, project_status_presentation,
    project_store_error_message, Group, Project, ProjectLibraryLoadState, ProjectLibraryState,
    ProjectListView, ProjectSnapshot, ProjectStoreFailure, ProjectStoreOpening, ProjectSummary,
    ResolvedFolder, UndoStep, ValidationOutcome, PROJECT_UNDO_WINDOW,
};
use termirust_console::runtimes::{
    capability_summary, detection_status_label, executable_basename, runtime_inspector_projection,
    runtime_inspector_semantic_snapshot, runtime_label, unverified_projection,
    RuntimeDetectionStatus, RuntimeRegistry, RuntimeRowId,
};
use termirust_console::domain::{
    ActivityAggregate, HostedSessionState, SessionLaunchRoute, SessionOrigin, TitleSource,
};
use termirust_console::saved_state::{SavedAppAttachedSession, SavedSessionPlacement, SavedState};
use termirust_console::session_library::{SessionLibraryState, StoreOpening};
use termirust_console::domain::{
    OccupantOwnership, RecognitionConfidence, RuntimeCapabilitySet, RuntimeOccupant,
    RuntimeRecognition,
};
use termirust_console::ui::{Icon, Notices, Tone};

fn registry() -> RuntimeRegistry {
    RuntimeRegistry { claude_id: "agent".to_string() }
}

fn quiet() -> Notices {
    Notices { status: None, error: None }
}

fn project(id: u128) -> Project {
    Project {
        id: ProjectId { value: id },
        display_name: format!("Project {id}"),
        canonical_root: format!("/work/{id}"),
        position: 0,
        revision: 1,
    }
}

fn summary(id: u128, status: ProjectStatus) -> ProjectSummary {
    ProjectSummary { project: project(id), status }
}

fn snapshot(revision: u64, projects: Vec<ProjectSummary>) -> ProjectSnapshot {
    ProjectSnapshot {
        revision,
        projects,
        groups: Vec::new(),
        worktree_intents: Vec::new(),
        health: StoreHealth::Healthy,
        read_only: false,
    }
}

fn failed(failure: ProjectStoreFailure) -> ProjectLibraryState {
    ProjectLibraryState {
        has_repository: false,
        load_state: ProjectLibraryLoadState::Failed(failure),
        snapshot: None,
        selected_id: None,
        add_draft: None,
        add_validation: None,
        pending_removal: None,
        next_validation_generation: 1,
    }
}

fn opened(revision: u64, projects: Vec<ProjectSummary>) -> ProjectLibraryState {
    let mut library = ProjectLibraryState::open_default(ProjectStoreOpening::Opened);
    library.reload(Ok(snapshot(revision, projects)));
    library
}

#[test]
fn project_errors_map_to_localized_non_sensitive_copy() {
    assert_eq!(
        project_error_message(&ProjectError::PermissionDenied),
        MessageId::ProjectErrorPermissionDenied
    );
    let copy = format!("{:?}", project_error_message(&ProjectError::PathValidation));
    assert!(!copy.contains('/'));
}

#[test]
fn project_status_always_has_text_color_and_shape() {
    for status in [
        ProjectStatus::Available,
        ProjectStatus::Unavailable,
        ProjectStatus::PermissionDenied,
    ] {
        let (text, _, _) = project_status_presentation(status);
        assert!(!format!("{text:?}").is_empty());
    }
    assert_eq!(
        project_status_presentation(ProjectStatus::PermissionDenied),
        (MessageId::ProjectStatusPermissionDenied, Tone::Danger, Icon::TriangleAlert)
    );
}

#[test]
fn every_store_failure_has_distinct_localized_recovery_copy() {
    let messages = [
        (ProjectStoreFailure::Corrupt, MessageId::ProjectStoreCorrupt),
        (ProjectStoreFailure::Newer, MessageId::ProjectStoreNewer),
        (ProjectStoreFailure::Unavailable, MessageId::ProjectStoreUnavailable),
    ];
    for (failure, expected) in &messages {
        let state = failed(*failure);
        assert_eq!(state.error_message(), Some(*expected));
    }
    assert_ne!(messages[0].1, messages[1].1);
    assert_ne!(messages[1].1, messages[2].1);
}

#[test]
fn undo_expiry_is_exactly_ten_seconds() {
    assert_eq!(
        u128::from(PROJECT_UNDO_WINDOW),
        std::time::Duration::from_secs(10).as_millis()
    );
}

#[test]
fn store_errors_are_classified_and_named() {
    assert_eq!(classify_store_failure(&StoreError::StoreNewer), ProjectStoreFailure::Newer);
    assert_eq!(classify_store_failure(&StoreError::UnsafeEntry), ProjectStoreFailure::Corrupt);
    assert_eq!(
        project_store_error_message(&StoreError::Io { permission_denied: false }),
        MessageId::ProjectStoreUnavailable
    );
}

/// Removes a project of a library without sessions: nothing is to be repaired.
fn remove(
    library: &mut ProjectLibraryState,
    reply: Result<Project, StoreError>,
    notices: &mut Notices,
) {
    library.remove_project(
        &mut SessionLibraryState::open_default(StoreOpening::Opened),
        &mut SavedState { app_attached_sessions: Vec::new() },
        reply,
        Ok(snapshot(4, Vec::new())),
        1_000,
        &|_: &SessionLibraryState, _: &Vec<SavedSessionPlacement>| -> PlacementReply {
            panic!("nothing is to be placed")
        },
        &|_: &SavedState| panic!("nothing is to be saved"),
        notices,
    );
}

#[test]
fn a_refused_removal_is_explained() {
    let mut library = opened(3, vec![summary(1, ProjectStatus::Available)]);
    let mut notices = quiet();
    let stale = StoreError::Domain(ProjectError::StaleRevision);
    remove(&mut library, Err(stale), &mut notices);
    assert_eq!(notices.error, Some(Text::Message(MessageId::ProjectErrorStale)));
    assert_eq!(library.snapshot.as_ref().map(|known| known.revision), Some(4));
    assert!(library.pending_removal.is_none());

    let mut library = opened(3, vec![summary(1, ProjectStatus::Available)]);
    remove(&mut library, Err(StoreError::StoreNewer), &mut notices);
    assert_eq!(notices.error, Some(Text::Message(MessageId::ProjectStoreNewer)));
    assert_eq!(library.snapshot.as_ref().map(|known| known.revision), Some(3));
}

#[test]
fn a_removed_project_can_be_restored_until_the_window_ends() {
    let mut library = opened(3, vec![summary(1, ProjectStatus::Available)]);
    let mut notices = quiet();
    assert_eq!(library.removal_request(&mut notices), Some(3));
    remove(&mut library, Ok(project(1)), &mut notices);
    assert!(library.pending_removal.is_some());
    assert!(!library.process_project_undo_expiry(10_999, &mut notices));
    assert_eq!(
        library.undo_project_removal(10_999, &mut notices),
        UndoStep::Restore { project_id: ProjectId { value: 1 }, expected_revision: 4 }
    );

    let mut library = opened(3, vec![summary(1, ProjectStatus::Available)]);
    remove(&mut library, Ok(project(1)), &mut notices);
    assert!(library.process_project_undo_expiry(11_000, &mut notices));
    assert!(library.pending_removal.is_none());
    assert_eq!(library.undo_project_removal(11_000, &mut notices), UndoStep::Nothing);
}

#[test]
fn only_the_latest_folder_validation_is_taken() {
    let mut library = opened(1, Vec::new());
    let mut notices = quiet();
    let first = library.start_project_validation("/a".to_string(), &mut notices);
    let second = library.start_project_validation("/b".to_string(), &mut notices);
    assert_ne!(first, second);
    let folder = |root: &str| ResolvedFolder {
        canonical_root: root.to_string(),
        default_name: Some("b".to_string()),
    };
    assert!(matches!(
        library.finish_project_validation(first, Ok(folder("/a")), &mut notices),
        ValidationOutcome::Ignored
    ));
    match library.finish_project_validation(second, Ok(folder("/b")), &mut notices) {
        ValidationOutcome::Review(name) => assert_eq!(name, "b"),
        other => panic!("unexpected {other:?}"),
    }
    let request =
        library.add_request(ProjectId { value: 9 }, "  Named ".to_string(), &mut notices).unwrap();
    assert_eq!(request.root, "/b");
    assert_eq!(request.expected_revision, 1);
}

#[test]
fn a_refused_folder_is_explained() {
    let mut library = opened(1, Vec::new());
    let mut notices = quiet();
    let generation = library.start_project_validation("/a".to_string(), &mut notices);
    assert!(matches!(
        library.finish_project_validation(
            generation,
            Err(ProjectError::NotDirectory),
            &mut notices
        ),
        ValidationOutcome::Rejected
    ));
    assert_eq!(notices.error, Some(Text::Message(MessageId::ProjectErrorNotDirectory)));
}

#[test]
fn unusable_projects_offer_a_retry_and_no_launch() {
    let library = opened(1, vec![summary(1, ProjectStatus::Unavailable)]);
    match library.project_list_view() {
        ProjectListView::Rows(rows) => {
            assert_eq!(rows.len(), 1);
            assert_eq!(rows[0].key, project_element_key(ProjectId { value: 1 }));
            let ids: Vec<&str> = rows[0].buttons.iter().map(|button| button.id).collect();
            assert_eq!(
                ids,
                vec!["project-retry", "project-new-session", "project-new-worktree", "project-remove"]
            );
            assert!(rows[0].buttons[1].disabled);
        }
        other => panic!("unexpected {other:?}"),
    }
    assert!(matches!(
        opened(1, Vec::new()).project_list_view(),
        ProjectListView::Empty { icon: Icon::FolderOpen, .. }
    ));
}

#[test]
fn groups_are_listed_by_position_then_identity() {
    let group = |id: u128, position: u64| Group {
        id: GroupId { value: id },
        project_id: ProjectId { value: 1 },
        name: format!("Group {id}"),
        collapsed: false,
        position,
    };
    let mut library = ProjectLibraryState::open_default(ProjectStoreOpening::Opened);
    let mut state = snapshot(1, vec![summary(1, ProjectStatus::Available)]);
    state.groups = vec![group(3, 2), group(2, 1), group(1, 2)];
    library.reload(Ok(state));
    let listed: Vec<u128> = library
        .project_groups(ProjectId { value: 1 })
        .iter()
        .map(|group| group.id.value)
        .collect();
    assert_eq!(listed, vec![2, 1, 3]);
}

#[test]
fn element_keys_fold_both_halves_of_an_identity() {
    let id = ProjectId { value: (5u128 << 64) | 3 };
    assert_eq!(project_element_key(id), 6);
    assert_eq!(ProjectId::from_uuid(id.as_uuid()), id);
    assert_eq!(id.as_uuid().as_u128(), id.value);
}

#[test]
fn runtime_registry_every_detection_state_has_text() {
    let mut labels = Vec::new();
    for status in [
        RuntimeDetectionStatus::Available,
        RuntimeDetectionStatus::UnsupportedVersion,
        RuntimeDetectionStatus::Missing,
        RuntimeDetectionStatus::PermissionDenied,
        RuntimeDetectionStatus::Partial,
    ] {
        let label = detection_status_label(status);
        assert!(!format!("{label:?}").is_empty());
        assert!(!labels.contains(&label));
        labels.push(label);
    }
}

#[test]
fn runtime_registry_executable_display_never_exposes_parent_path() {
    let display = executable_basename("/Users/private/customer/codex");
    assert_eq!(display, "codex");
    assert!(!display.contains("private"));
}

#[test]
fn executables_without_a_name_are_shown_as_such() {
    assert_eq!(executable_basename("/"), "Executable");
    assert_eq!(executable_basename(".."), "Executable");
    assert_eq!(executable_basename("/opt/tool/"), "tool");
}

#[test]
fn runtime_labels_name_known_runtimes() {
    assert_eq!(runtime_label(&registry(), "codex"), Text::Message(MessageId::RuntimeLabelCodex));
    assert_eq!(runtime_label(&registry(), "generic"), Text::Message(MessageId::RuntimeLabelGeneric));
    assert_eq!(
        runtime_label(&registry(), "agent"),
        Text::Message(MessageId::RuntimeLabelClaude)
    );
    assert_eq!(runtime_label(&registry(), "mine"), Text::Value("mine".to_string()));
}

#[test]
fn runtime_registry_unverified_projection_explains_empty_capabilities() {
    let projection = runtime_inspector_projection(&registry(), &None);
    assert_eq!(projection.generation, 0);
    assert!(projection.explanation.is_some());
    assert_eq!(
        capability_summary(&projection.capabilities),
        vec![MessageId::RuntimeCapabilitiesNone]
    );
    assert_eq!(unverified_projection().generation, 0);
}

#[test]
fn runtime_registry_managed_projection_exposes_only_effective_capabilities() {
    let capabilities = RuntimeCapabilitySet {
        interactive_pty: true,
        structured_events: false,
        approval_requests: false,
        cancellation: true,
        context_handoff: false,
        remote_launch: false,
        resume: false,
        transcript_export: false,
    };
    let recognition = RuntimeRecognition {
        occupant: Some(RuntimeOccupant {
            runtime_id: "codex".to_string(),
            safe_version: Some("1.0.7".to_string()),
            generation: 4,
            ownership: OccupantOwnership::Managed,
            capabilities,
            stale: false,
        }),
        confidence: RecognitionConfidence::Verified,
    };
    let projection = runtime_inspector_projection(&registry(), &Some(recognition));
    assert_eq!(projection.runtime, Text::Message(MessageId::RuntimeLabelCodex));
    assert_eq!(projection.version, Text::Value("1.0.7".to_string()));
    assert_eq!(projection.generation, 4);
    assert!(projection.explanation.is_none());
    assert_eq!(
        capability_summary(&projection.capabilities),
        vec![MessageId::RuntimeCapabilityInteractive, MessageId::RuntimeCapabilityCancellation]
    );
}

#[test]
fn a_program_that_was_not_recognized_counts_as_the_generic_runtime() {
    let record = SavedAppAttachedSession {
        id: HostedSessionId { value: 3 },
        route: SessionLaunchRoute::DurableHost,
        origin: SessionOrigin {
            project_id: ProjectId { value: 1 },
            preset_id: PresetId { value: 2 },
        },
        state: HostedSessionState::Live,
        project_label: String::new(),
        preset_label: String::new(),
        title: String::new(),
        title_source: TitleSource::Default,
        activity: ActivityAggregate::default(),
        pinned: false,
        read_through_sequence: 0,
        unread_sequence: None,
        archived_at: None,
        revision: 0,
        durable_host: None,
        group_id: None,
        position: 0,
        started_at: 0,
        updated_at: 0,
    };
    let saved = SavedState { app_attached_sessions: vec![record] };
    let id = Some(HostedSessionId { value: 3 });
    let snapshot = runtime_inspector_semantic_snapshot(&registry(), &saved, id, true).unwrap();
    assert_eq!(snapshot.rows.len(), 1);
    assert_eq!(snapshot.rows[0].id, RuntimeRowId::Runtime(Atom::Literal("generic")));
    assert_eq!(snapshot.rows[0].name, Text::Message(MessageId::RuntimeLabelGeneric));
    assert!(snapshot.rows[0].disabled);
    assert!(runtime_inspector_semantic_snapshot(&registry(), &saved, None, true).is_none());
}
