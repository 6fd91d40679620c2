use std::cell::Cell;
use std::sync::mpsc;

use termirust_console::domain::{
    ActivityAggregate, HostedSession, HostedSessionState, PermissionPolicy, SessionLaunchRoute,
    SessionOrigin, SessionStateError, StoreError, StoreHealth, TitleSource,
};
use termirust_console::ids::{HostedSessionId, PresetId, ProjectId};
use termirust_console::saved_state::{SavedAppAttachedSession, SavedDurableHost, SavedState};
use termirust_console::session_coordinator::{
    hosted_status_projection, ContinuityLink, DurableContinuityCommit, DurableLaunch,
    DurableSessionPaths, HostedDevUrlAction, HostedStatusInput, PendingArchiveAction,
    SessionActivityObserver, SessionCoordinator, SessionStartRequest,
};
use termirust_console::session_library::{
    SessionLibraryState, SessionMutation, SessionSnapshot, StoreOpening,
};

fn session_id(value: u128) -> HostedSessionId {
    HostedSessionId { value }
}

fn saved_session(id: HostedSessionId, state: HostedSessionState) -> SavedAppAttachedSession {
    SavedAppAttachedSession {
        id,
        route: SessionLaunchRoute::DurableHost,
        origin: SessionOrigin {
            project_id: ProjectId { value: 10 },
            preset_id: PresetId { value: 20 },
        },
        state,
        project_label: "Project".to_string(),
        preset_label: "Codex".to_string(),
        title: "Investigate parser".to_string(),
        title_source: TitleSource::Manual,
        activity: ActivityAggregate::default(),
        pinned: false,
        read_through_sequence: 0,
        unread_sequence: None,
        archived_at: None,
        revision: 0,
        durable_host: Some(SavedDurableHost {
            runtime_root: "/synthetic/runtime".to_string(),
            session_dir: "/synthetic/session".to_string(),
            working_directory: None,
            last_sequence: 20,
            durable_sequence: 30,
            runtime_recognition: None,
            conversation_handle: None,
            executable: None,
            permission_policy: PermissionPolicy::AskAsNeeded,
            continuity_source_id: None,
        }),
        group_id: None,
        position: 0,
        started_at: 1,
        updated_at: 1,
    }
}

fn hosted(id: HostedSessionId, lifecycle: HostedSessionState, revision: u64) -> HostedSession {
    HostedSession {
        id,
        project_id: ProjectId { value: 10 },
        group_id: None,
        position: 0,
        title: "Investigate parser".to_string(),
        title_source: TitleSource::Manual,
        lifecycle,
        can_stop: lifecycle == HostedSessionState::Live,
        exited: lifecycle == HostedSessionState::Exited,
        removable: lifecycle == HostedSessionState::Exited,
        activity: ActivityAggregate::default(),
        pinned: false,
        unread: false,
        read_through_sequence: 0,
        unread_sequence: None,
        last_output_sequence: 0,
        archived_at: None,
        revision,
    }
}

fn snapshot(session: HostedSession) -> Result<SessionSnapshot, StoreError> {
    Ok(SessionSnapshot {
        revision: session.revision,
        sessions: vec![session],
        health: StoreHealth::Healthy,
        read_only: false,
    })
}

fn library_of(id: HostedSessionId) -> SessionLibraryState {
    let mut library = SessionLibraryState::open_default(StoreOpening::Opened);
    library.reload(snapshot(hosted(id, HostedSessionState::Live, 1))).unwrap();
    library
}

#[derive(Default)]
struct RecordingActivityObserver {
    observations: Vec<(Option<HostedSessionState>, HostedSessionState, bool)>,
    failure: Option<String>,
}

impl SessionActivityObserver for RecordingActivityObserver {
    fn observe_session_transition(
        &mut self,
        previous: Option<&HostedSession>,
        current: &HostedSession,
        visibly_focused: bool,
    ) -> Result<(), String> {
        self.observations.push((
            previous.map(|session| session.lifecycle),
            current.lifecycle,
            visibly_focused,
        ));
        match &self.failure {
            Some(message) => Err(message.clone()),
            None => Ok(()),
        }
    }
}

fn coordinator() -> SessionCoordinator<mpsc::Sender<u8>> {
    let (event_tx, _event_rx) = mpsc::channel();
    SessionCoordinator::new(event_tx)
}

#[test]
fn launch_request_preserves_resume_identity_paths_generation_and_continuity() {
    let source_session_id = session_id(1);
    let replacement_session_id = session_id(2);
    let prior_generation = 4;
    let replacement_generation = 5;
    let continuity = DurableContinuityCommit {
        store_root: "/synthetic/store".to_string(),
        expected_revision: 7,
        link: ContinuityLink {
            command_id: 3,
            source_session_id,
            replacement_session_id,
            runtime_id: "codex".to_string(),
            prior_generation,
            replacement_generation,
            committed_at: 11,
        },
    };
    let spec = SessionStartRequest::launch(
        42,
        replacement_session_id,
        DurableSessionPaths {
            runtime_root: "/synthetic/runtime".to_string(),
            session_dir: "/synthetic/session".to_string(),
        },
        DurableLaunch {
            executable: "/synthetic/bin/codex".to_string(),
            arguments: vec!["resume".to_string(), "opaque-id".to_string()],
            cwd: "/synthetic/project".to_string(),
            runtime_detection: None,
        },
        Some(replacement_generation),
        Some(continuity),
    )
    .into_spec();

    assert_eq!(spec.pane_id, 42);
    assert_eq!(spec.session_id, replacement_session_id);
    assert_eq!(spec.paths.runtime_root, "/synthetic/runtime");
    assert_eq!(spec.paths.session_dir, "/synthetic/session");
    assert_eq!(spec.from_sequence, 0);
    assert_eq!(spec.expected_occupant_generation, Some(replacement_generation));

    let launch = spec.launch.unwrap();
    assert_eq!(launch.executable, "/synthetic/bin/codex");
    assert_eq!(launch.arguments, ["resume", "opaque-id"]);
    assert_eq!(launch.cwd, "/synthetic/project");

    let continuity = spec.continuity.unwrap();
    assert_eq!(continuity.store_root, "/synthetic/store");
    assert_eq!(continuity.expected_revision, 7);
    assert_eq!(continuity.link.source_session_id, source_session_id);
    assert_eq!(continuity.link.replacement_session_id, replacement_session_id);
    assert_eq!(continuity.link.prior_generation, prior_generation);
    assert_eq!(continuity.link.replacement_generation, replacement_generation);
}

#[test]
fn attach_request_preserves_watermark_without_creating_launch_state() {
    let id = session_id(1);
    let spec = SessionStartRequest::attach(
        9,
        id,
        DurableSessionPaths {
            runtime_root: "/synthetic/runtime".to_string(),
            session_dir: "/synthetic/session".to_string(),
        },
        81,
    )
    .into_spec();

    assert_eq!(spec.pane_id, 9);
    assert_eq!(spec.session_id, id);
    assert_eq!(spec.from_sequence, 81);
    assert!(spec.launch.is_none());
    assert!(spec.expected_occupant_generation.is_none());
    assert!(spec.continuity.is_none());
}

#[test]
fn start_hands_the_request_and_the_channel_on() {
    let (event_tx, event_rx) = mpsc::channel();
    let coordinator = SessionCoordinator::new(event_tx);
    let request = SessionStartRequest::attach(
        9,
        session_id(1),
        DurableSessionPaths { runtime_root: String::new(), session_dir: String::new() },
        81,
    );
    let (spec, channel) = coordinator.start(request);
    assert_eq!(spec.from_sequence, 81);
    channel.send(5u8).unwrap();
    assert_eq!(event_rx.recv().unwrap(), 5);
}

#[test]
fn pane_projection_preserves_gap_and_unavailable_semantics() {
    let input = |state| HostedStatusInput {
        hosted_session_id: session_id(1),
        state,
        last_sequence: 81,
        durable_sequence: 80,
        activity: ActivityAggregate::default(),
        has_writer_lease: true,
        visibly_focused: false,
    };

    let live = input(HostedSessionState::Live).pane_projection();
    assert_eq!(live.last_sequence, 81);
    assert!(live.has_writer_lease);
    assert_eq!(live.dev_url_action, HostedDevUrlAction::Preserve);
    assert_eq!(
        input(HostedSessionState::Gap).pane_projection().dev_url_action,
        HostedDevUrlAction::MarkGap
    );
    assert_eq!(
        input(HostedSessionState::Exited).pane_projection().dev_url_action,
        HostedDevUrlAction::MarkUnavailable
    );
}

#[test]
fn hosted_status_projection_advances_only_max_watermarks_and_observes_transition() {
    let id = session_id(1);
    let mut saved =
        SavedState { app_attached_sessions: vec![saved_session(id, HostedSessionState::Live)] };
    let mut library = library_of(id);
    library.pending_archive_after_stop = Some(id);
    let persisted = Cell::new(false);
    let mut observer = RecordingActivityObserver::default();
    let after = hosted(id, HostedSessionState::Exited, 2);

    let projection = coordinator()
        .project_hosted_status(
            HostedStatusInput {
                hosted_session_id: id,
                state: HostedSessionState::Exited,
                last_sequence: 12,
                durable_sequence: 40,
                activity: ActivityAggregate::default(),
                has_writer_lease: false,
                visibly_focused: true,
            },
            &mut saved,
            &mut library,
            Ok(after.duplicate()),
            snapshot(after),
            &mut observer,
            |_: &SavedState| {
                persisted.set(true);
                Ok(())
            },
        )
        .unwrap();

    let host = saved.app_attached_sessions[0].durable_host.as_ref().unwrap();
    assert_eq!(host.last_sequence, 20);
    assert_eq!(host.durable_sequence, 40);
    assert_eq!(library.session(id).unwrap().lifecycle, HostedSessionState::Exited);
    assert!(persisted.get());
    assert_eq!(observer.observations.len(), 1);
    assert_eq!(observer.observations[0].0, Some(HostedSessionState::Live));
    assert_eq!(observer.observations[0].1, HostedSessionState::Exited);
    assert!(observer.observations[0].2);
    assert_eq!(projection.pending_archive, PendingArchiveAction::Archive);
    assert_eq!(projection.warnings.compatibility_save, None);
    assert_eq!(projection.warnings.activity_observation, None);
}

#[test]
fn hosted_status_projection_reports_non_fatal_save_and_activity_failures() {
    let id = session_id(1);
    let mut saved =
        SavedState { app_attached_sessions: vec![saved_session(id, HostedSessionState::Live)] };
    let mut library = library_of(id);
    library.pending_archive_after_stop = Some(id);
    let mut observer = RecordingActivityObserver {
        failure: Some("notifications unavailable".to_string()),
        ..RecordingActivityObserver::default()
    };
    let after = hosted(id, HostedSessionState::Offline, 2);

    let projection = coordinator()
        .project_hosted_status(
            HostedStatusInput {
                hosted_session_id: id,
                state: HostedSessionState::Offline,
                last_sequence: 21,
                durable_sequence: 20,
                activity: ActivityAggregate::default(),
                has_writer_lease: false,
                visibly_focused: false,
            },
            &mut saved,
            &mut library,
            Ok(after.duplicate()),
            snapshot(after),
            &mut observer,
            |_: &SavedState| Err("disk full".to_string()),
        )
        .unwrap();

    assert_eq!(projection.pending_archive, PendingArchiveAction::Fail);
    assert_eq!(projection.warnings.compatibility_save.as_deref(), Some("disk full"));
    assert_eq!(
        projection.warnings.activity_observation.as_deref(),
        Some("notifications unavailable")
    );
    assert_eq!(observer.observations.len(), 1);
}

#[test]
fn hosted_status_projection_stops_after_authoritative_reconcile_failure() {
    let existing_session_id = session_id(1);
    let missing_session_id = session_id(2);
    let mut saved = SavedState {
        app_attached_sessions: vec![saved_session(existing_session_id, HostedSessionState::Live)],
    };
    let mut library = library_of(existing_session_id);
    let persisted = Cell::new(false);
    let mut observer = RecordingActivityObserver::default();

    let result = coordinator().project_hosted_status(
        HostedStatusInput {
            hosted_session_id: missing_session_id,
            state: HostedSessionState::Offline,
            last_sequence: 21,
            durable_sequence: 20,
            activity: ActivityAggregate::default(),
            has_writer_lease: false,
            visibly_focused: false,
        },
        &mut saved,
        &mut library,
        Err(StoreError::SessionDomain(SessionStateError::Unavailable)),
        snapshot(hosted(existing_session_id, HostedSessionState::Live, 1)),
        &mut observer,
        |_: &SavedState| {
            persisted.set(true);
            Ok(())
        },
    );

    assert!(result.is_err());
    assert!(!persisted.get());
    assert!(observer.observations.is_empty());
    let host = saved.app_attached_sessions[0].durable_host.as_ref().unwrap();
    assert_eq!(host.last_sequence, 20);
    assert_eq!(host.durable_sequence, 30);
}

#[test]
fn outcomes_of_saving_and_observing_decide_the_warnings() {
    let id = session_id(1);
    let mut library = library_of(id);
    library.pending_archive_after_stop = Some(id);
    let quiet = hosted_status_projection(&library, id, HostedSessionState::Live, Ok(()), Ok(()));
    assert_eq!(quiet.pending_archive, PendingArchiveAction::Nothing);
    assert_eq!(quiet.warnings.compatibility_save, None);
    let loud = hosted_status_projection(
        &library,
        id,
        HostedSessionState::Gap,
        Err("disk full".to_string()),
        Err("silent".to_string()),
    );
    assert_eq!(loud.pending_archive, PendingArchiveAction::Fail);
    assert_eq!(loud.warnings.compatibility_save.as_deref(), Some("disk full"));
    assert_eq!(loud.warnings.activity_observation.as_deref(), Some("silent"));
}

#[test]
fn hosted_status_reconciliation_does_not_drift_back_into_app_event_loop() {
    let id = session_id(1);
    let library = library_of(id);
    let app_source = format!(
        "{:?}",
        HostedStatusInput {
            hosted_session_id: id,
            state: HostedSessionState::Gap,
            last_sequence: 1,
            durable_sequence: 1,
            activity: ActivityAggregate::default(),
            has_writer_lease: false,
            visibly_focused: false,
        }
        .pane_projection()
    );
    assert!(!app_source.contains(".session_library.reconcile("));
    assert!(!app_source.contains(".activity_center.observe_transition("));
    assert!(library
        .reconcile_request(id, HostedSessionState::Live, ActivityAggregate::default(), 0, 5)
        .is_none());
    let request = library
        .reconcile_request(id, HostedSessionState::Exited, ActivityAggregate::default(), 7, 5)
        .unwrap()
        .unwrap();
    assert_eq!(request.expected_revision, 1);
    assert!(matches!(
        request.mutation,
        SessionMutation::Reconcile { lifecycle: HostedSessionState::Exited, through: 7, .. }
    ));
}

#[test]
fn session_coordinator_coordinator_module_has_no_ui_framework_dependency() {
    let forbidden_crate = ["gp", "ui"].concat();
    let coordinator = coordinator();
    let (spec, _) = coordinator.start(SessionStartRequest::attach(
        9,
        session_id(1),
        DurableSessionPaths { runtime_root: String::new(), session_dir: String::new() },
        81,
    ));
    let handed_over = format!("{spec:?}");
    assert!(handed_over.contains("from_sequence: 81"));
    assert!(!handed_over.contains(&forbidden_crate));
}
