use std::cell::RefCell;

use termirust_console::domain::{
    HostedSessionState, PermissionPolicy, ProjectStatus, SessionLaunchRoute, SessionOrigin,
    StoreHealth, TitleSource,
};
use termirust_console::ids::{HostedSessionId, PresetId, ProjectId};
use termirust_console::messages::{Atom, MessageId, Text};
use termirust_console::new_session::{
    app_attached_ready, begin_provisioning, cancel_new_session, explicit_path_snapshot,
    finish_new_session_validation, new_session_sheet, open_new_session, permission_policy_label,
    prepare_session, select_new_session_preset, session_phase_label,
    set_app_attached_terminal_state, start_new_session, working_directory_preview,
    AppAttachedPaneState, CancelledPane, LaunchConfig, NewSessionState, PaneCommand, ReadyInput,
    SessionPane, ValidationStep,
};
use termirust_console::presets::{
    ExecutableSpec, LaunchPreset, PresetLibraryState, PresetOrigin, PresetSnapshot,
    PresetStoreOpening, WorkingDirectoryRule, SEARCH_DIRECTORIES,
};
use termirust_console::project_coordinator::{
    LaunchResolutionError, ProjectCoordinator, ProjectLaunchResolver, ProjectLaunchReviewError,
    ProjectLaunchReviewInput, ResolvedLaunch, ReviewedProjectLaunch,
};
use termirust_console::projects::{
    Project, ProjectLibraryState, ProjectSnapshot, ProjectStoreOpening, ProjectSummary,
};
use termirust_console::saved_state::SavedState;
use termirust_console::session_coordinator::DurableSessionPaths;
use termirust_console::ui::Notices;

const PROJECT: ProjectId = ProjectId { value: 10 };
const PRESET: PresetId = PresetId { value: 20 };
const SESSION: HostedSessionId = HostedSessionId { value: 30 };

fn project() -> Project {
    Project {
        id: PROJECT,
        display_name: "Project coordinator fixture".to_string(),
        canonical_root: "/work/fixture".to_string(),
        position: 0,
        revision: 7,
    }
}

fn preset() -> LaunchPreset {
    LaunchPreset {
        id: PRESET,
        label: "fixture-shell".to_string(),
        executable: ExecutableSpec::Absolute("/bin/fixture".to_string()),
        args: vec!["--exact".to_string()],
        working_directory: WorkingDirectoryRule::ProjectRoot,
        runtime: None,
        enabled: true,
        favorite: true,
        permission_policy: PermissionPolicy::AskAsNeeded,
        origin: PresetOrigin::User,
        risky: false,
        revision: 9,
    }
}

fn snapshots() -> (ProjectSnapshot, PresetSnapshot) {
    (
        ProjectSnapshot {
            revision: 7,
            projects: vec![ProjectSummary {
                project: project(),
                status: ProjectStatus::Available,
            }],
            groups: Vec::new(),
            worktree_intents: Vec::new(),
            health: StoreHealth::Healthy,
            read_only: false,
        },
        PresetSnapshot {
            revision: 9,
            presets: vec![preset()],
            health: StoreHealth::Healthy,
            read_only: false,
        },
    )
}

#[derive(Debug, PartialEq, Eq)]
struct ResolveCall {
    session_id: HostedSessionId,
    project_id: ProjectId,
    preset_id: PresetId,
    path_snapshot: Vec<String>,
    platform_home: Option<String>,
}

struct RecordingResolver {
    calls: RefCell<Vec<ResolveCall>>,
}

impl ProjectLaunchResolver for RecordingResolver {
    fn resolve(
        &self,
        session_id: HostedSessionId,
        project: &Project,
        preset: &LaunchPreset,
        path_snapshot: &Vec<String>,
        platform_home: &Option<String>,
    ) -> Result<ResolvedLaunch, LaunchResolutionError> {
        self.calls.borrow_mut().push(ResolveCall {
            session_id,
            project_id: project.id,
            preset_id: preset.id,
            path_snapshot: path_snapshot.clone(),
            platform_home: platform_home.clone(),
        });
        Err(LaunchResolutionError::ExecutableMissing)
    }
}

struct SystemResolver;

impl ProjectLaunchResolver for SystemResolver {
    fn resolve(
        &self,
        session_id: HostedSessionId,
        project: &Project,
        preset: &LaunchPreset,
        _path_snapshot: &Vec<String>,
        _platform_home: &Option<String>,
    ) -> Result<ResolvedLaunch, LaunchResolutionError> {
        Ok(ResolvedLaunch {
            session_id,
            route: SessionLaunchRoute::DurableHost,
            origin: SessionOrigin { project_id: project.id, preset_id: preset.id },
            working_directory: project.canonical_root.clone(),
        })
    }
}

#[test]
fn launch_review_preserves_failure_precedence_and_exact_selection() {
    let (projects, presets) = snapshots();
    let coordinator = ProjectCoordinator { resolver: SystemResolver };
    let input = |selected_preset_id, project_snapshot, preset_snapshot, project_revision| {
        coordinator.review_session_launch(ProjectLaunchReviewInput {
            project_id: PROJECT,
            selected_preset_id,
            project_store_revision: project_revision,
            preset_store_revision: 9,
            project_snapshot,
            preset_snapshot,
        })
    };

    assert!(matches!(
        input(None, None, None, 7),
        Err(ProjectLaunchReviewError::PresetRequired)
    ));
    assert!(matches!(
        input(Some(PRESET), None, None, 7),
        Err(ProjectLaunchReviewError::ProjectStoreUnavailable)
    ));
    assert!(matches!(
        input(Some(PRESET), Some(&projects), None, 7),
        Err(ProjectLaunchReviewError::PresetStoreUnavailable)
    ));
    assert!(matches!(
        input(Some(PRESET), Some(&projects), Some(&presets), 7 + 1),
        Err(ProjectLaunchReviewError::ReviewStale)
    ));

    let reviewed = input(Some(PRESET), Some(&projects), Some(&presets), 7).unwrap();
    assert_eq!(reviewed.project, project());
    assert_eq!(reviewed.preset, preset());
}

#[test]
fn launch_review_distinguishes_missing_project_and_preset() {
    let (mut projects, mut presets) = snapshots();
    let coordinator = ProjectCoordinator { resolver: SystemResolver };
    projects.projects.clear();
    assert!(matches!(
        coordinator.review_session_launch(ProjectLaunchReviewInput {
            project_id: PROJECT,
            selected_preset_id: Some(PRESET),
            project_store_revision: projects.revision,
            preset_store_revision: presets.revision,
            project_snapshot: Some(&projects),
            preset_snapshot: Some(&presets),
        }),
        Err(ProjectLaunchReviewError::ProjectMissing)
    ));

    projects
        .projects
        .push(ProjectSummary { project: project(), status: ProjectStatus::Available });
    presets.presets.clear();
    assert!(matches!(
        coordinator.review_session_launch(ProjectLaunchReviewInput {
            project_id: PROJECT,
            selected_preset_id: Some(PRESET),
            project_store_revision: projects.revision,
            preset_store_revision: presets.revision,
            project_snapshot: Some(&projects),
            preset_snapshot: Some(&presets),
        }),
        Err(ProjectLaunchReviewError::PresetMissing)
    ));
}

#[test]
fn resolver_receives_exact_reviewed_entities_session_environment_and_error() {
    let coordinator = ProjectCoordinator {
        resolver: RecordingResolver { calls: RefCell::new(Vec::new()) },
    };
    let path_snapshot = vec!["/exact/one".to_string(), "/exact/two".to_string()];
    let platform_home = Some("/exact/home".to_string());
    let result = coordinator.resolve_session_launch(
        ReviewedProjectLaunch { project: project(), preset: preset() },
        SESSION,
        path_snapshot.clone(),
        platform_home.clone(),
    );

    assert_eq!(result.unwrap_err(), LaunchResolutionError::ExecutableMissing);
    assert_eq!(
        coordinator.resolver.calls.borrow().as_slice(),
        [ResolveCall {
            session_id: SESSION,
            project_id: PROJECT,
            preset_id: PRESET,
            path_snapshot,
            platform_home,
        }]
    );
}

#[test]
fn system_resolver_returns_the_exact_reviewed_project_and_preset() {
    let coordinator = ProjectCoordinator { resolver: SystemResolver };
    let result = coordinator
        .resolve_session_launch(
            ReviewedProjectLaunch { project: project(), preset: preset() },
            SESSION,
            Vec::new(),
            None,
        )
        .unwrap();
    assert_eq!(result.resolved.session_id, SESSION);
    assert_eq!(result.project, project());
    assert_eq!(result.preset, preset());
}

#[test]
fn project_coordinator_coordinator_module_has_no_ui_framework_dependency() {
    let forbidden_crate = ["gp", "ui"].concat();
    let coordinator = ProjectCoordinator { resolver: SystemResolver };
    let resolution = coordinator
        .resolve_session_launch(
            ReviewedProjectLaunch { project: project(), preset: preset() },
            SESSION,
            Vec::new(),
            None,
        )
        .unwrap();
    let handed_over = format!("{resolution:?}");
    assert!(handed_over.contains("fixture-shell"));
    assert!(!handed_over.contains(&forbidden_crate));
}

fn libraries() -> (ProjectLibraryState, PresetLibraryState) {
    let (projects, presets) = snapshots();
    let mut project_library = ProjectLibraryState::open_default(ProjectStoreOpening::Opened);
    project_library.reload(Ok(projects));
    (
        project_library,
        PresetLibraryState::open_default(PresetStoreOpening::Opened(Ok(presets))),
    )
}

fn quiet() -> Notices {
    Notices { status: None, error: None }
}

fn opened() -> (Option<NewSessionState>, String) {
    let (projects, presets) = libraries();
    let mut sheet = None;
    let mut input = "left over".to_string();
    assert!(open_new_session(
        &mut sheet,
        &mut input,
        &projects,
        &presets,
        PROJECT,
        &mut quiet()
    ));
    (sheet, input)
}

#[test]
fn initial_input_is_blank_by_default() {
    assert!(String::new().is_empty());
    let (_, input) = opened();
    assert!(input.is_empty());
}

#[test]
fn policy_labels_do_not_claim_an_os_sandbox() {
    for policy in [
        PermissionPolicy::AskAsNeeded,
        PermissionPolicy::ReadOnly,
        PermissionPolicy::WorkspaceWrite,
    ] {
        assert!(!format!("{:?}", permission_policy_label(policy)).contains("sandboxed"));
    }
}

#[test]
fn path_snapshot_is_bounded() {
    let directories: Vec<String> = (0..200).map(|n| format!("/d{n}")).collect();
    let kept = explicit_path_snapshot(directories, SEARCH_DIRECTORIES);
    assert!(kept.len() <= SEARCH_DIRECTORIES);
    assert_eq!(kept[127], "/d127");
    assert_eq!(explicit_path_snapshot(vec!["/a".to_string()], 4), vec!["/a"]);
}

#[test]
fn opening_chooses_a_favourite_and_reports_obstacles() {
    let (sheet, _) = opened();
    let state = sheet.unwrap();
    assert_eq!(state.selected_preset_id, Some(PRESET));
    assert_eq!(state.phase, HostedSessionState::Draft);
    assert_eq!((state.project_store_revision, state.preset_store_revision), (7, 9));

    let (projects, presets) = libraries();
    let mut sheet = None;
    let mut input = String::new();
    let mut notices = quiet();
    assert!(!open_new_session(
        &mut sheet,
        &mut input,
        &projects,
        &presets,
        ProjectId { value: 99 },
        &mut notices
    ));
    assert_eq!(notices.error, Some(Text::Message(MessageId::ProjectErrorStale)));
    assert!(sheet.is_none());
}

#[test]
fn a_start_is_validated_prepared_and_spawned() {
    let (projects, presets) = libraries();
    let (mut sheet, _) = opened();
    let started = start_new_session(&mut sheet, &projects, &presets, SESSION).unwrap();
    assert_eq!(sheet.as_ref().unwrap().phase, HostedSessionState::Validating);
    assert_eq!(
        finish_new_session_validation(&mut sheet, &projects, &presets, 999, None),
        ValidationStep::Ignored
    );
    assert_eq!(
        finish_new_session_validation(
            &mut sheet,
            &projects,
            &presets,
            started.generation,
            None
        ),
        ValidationStep::Proceed
    );
    let prepared = prepare_session(
        &ResolvedLaunch {
            session_id: SESSION,
            route: SessionLaunchRoute::DurableHost,
            origin: SessionOrigin { project_id: PROJECT, preset_id: PRESET },
            working_directory: "/work/fixture".to_string(),
        },
        &started.reviewed.project,
        &started.reviewed.preset,
        &LaunchConfig {
            program: "/bin/fixture".to_string(),
            args: vec!["--exact".to_string()],
            cwd: Some("/work/fixture".to_string()),
        },
        &DurableSessionPaths {
            runtime_root: "/run/a".to_string(),
            session_dir: "/var/a".to_string(),
        },
        &SavedState { app_attached_sessions: Vec::new() },
        &"fix the parser".to_string(),
        &"Fix the parser".to_string(),
        55,
    );
    assert_eq!(prepared.record.id, SESSION);
    assert_eq!(prepared.record.title, "Fix the parser");
    assert_eq!(prepared.record.started_at, 55);
    assert_eq!(prepared.launch.arguments, vec!["--exact"]);
    assert_eq!(prepared.attached.pending_initial_input.as_deref(), Some("fix the parser"));
    let mut notices = quiet();
    begin_provisioning(&mut sheet, 3, &mut notices);
    assert_eq!(sheet.as_ref().unwrap().spawned_pane_id, Some(3));
    assert_eq!(
        cancel_new_session(&mut sheet),
        Some(CancelledPane { pane_id: 3, session_id: Some(SESSION) })
    );
    assert_eq!(sheet.unwrap().phase, HostedSessionState::Cancelled);
}

#[test]
fn a_session_without_input_is_called_by_its_preset() {
    let prepared = prepare_session(
        &ResolvedLaunch {
            session_id: SESSION,
            route: SessionLaunchRoute::DurableHost,
            origin: SessionOrigin { project_id: PROJECT, preset_id: PRESET },
            working_directory: "/work/fixture".to_string(),
        },
        &project(),
        &preset(),
        &LaunchConfig { program: "/bin/fixture".to_string(), args: Vec::new(), cwd: None },
        &DurableSessionPaths { runtime_root: String::new(), session_dir: String::new() },
        &SavedState { app_attached_sessions: Vec::new() },
        &" \n".to_string(),
        &"ignored".to_string(),
        1,
    );
    assert_eq!(prepared.record.title, "fixture-shell");
    assert_eq!(prepared.record.title_source, TitleSource::Default);
}

#[test]
fn a_refused_validation_says_why() {
    let (projects, presets) = libraries();
    let (mut sheet, _) = opened();
    let started = start_new_session(&mut sheet, &projects, &presets, SESSION).unwrap();
    assert_eq!(
        finish_new_session_validation(
            &mut sheet,
            &projects,
            &presets,
            started.generation,
            Some("no program".to_string())
        ),
        ValidationStep::Failed
    );
    let state = sheet.unwrap();
    assert_eq!(state.phase, HostedSessionState::Failed);
    assert_eq!(
        state.error,
        Some(Text::Filled(
            MessageId::NewSessionStartError,
            Atom::Value("no program".to_string())
        ))
    );
}

#[test]
fn a_start_is_refused_once_a_store_has_moved_on() {
    let (mut projects, presets) = libraries();
    let (mut sheet, _) = opened();
    let (mut later, _) = snapshots();
    later.revision = 8;
    projects.reload(Ok(later));
    assert!(start_new_session(&mut sheet, &projects, &presets, SESSION).is_none());
    assert_eq!(
        sheet.as_ref().unwrap().error,
        Some(Text::Message(MessageId::NewSessionReviewStale))
    );
    let (mut unchosen, _) = opened();
    unchosen.as_mut().unwrap().selected_preset_id = None;
    assert!(start_new_session(&mut unchosen, &projects, &presets, SESSION).is_none());
    assert_eq!(unchosen.as_ref().unwrap().phase, HostedSessionState::Draft);
}

#[test]
fn a_busy_sheet_keeps_its_preset() {
    let (mut sheet, _) = opened();
    sheet.as_mut().unwrap().phase = HostedSessionState::Validating;
    select_new_session_preset(&mut sheet, PresetId { value: 21 });
    assert_eq!(sheet.as_ref().unwrap().selected_preset_id, Some(PRESET));
    sheet.as_mut().unwrap().phase = HostedSessionState::Failed;
    select_new_session_preset(&mut sheet, PresetId { value: 21 });
    assert_eq!(sheet.as_ref().unwrap().selected_preset_id, Some(PresetId { value: 21 }));
    assert_eq!(sheet.as_ref().unwrap().phase, HostedSessionState::Draft);
}

fn pane(input: Option<&str>, route: SessionLaunchRoute) -> SessionPane {
    SessionPane {
        id: 3,
        closed: false,
        user_closed: false,
        status: "",
        app_attached: Some(AppAttachedPaneState {
            hosted_session_id: SESSION,
            route,
            origin: SessionOrigin { project_id: PROJECT, preset_id: PRESET },
            pending_initial_input: input.map(str::to_string),
            cancel_requested: false,
            last_sequence: 0,
            has_writer_lease: false,
        }),
    }
}

#[test]
fn initial_input_is_sent_once_and_several_lines_are_reviewed() {
    let mut sheet = None;
    let mut notices = quiet();
    let mut one = pane(Some("ls"), SessionLaunchRoute::DurableHost);
    let step = app_attached_ready(&mut one, &mut sheet, true, &mut notices).unwrap();
    assert_eq!(step.lifecycle, HostedSessionState::Live);
    assert_eq!(step.input, ReadyInput::Send("ls\r".to_string()));
    let again = app_attached_ready(&mut one, &mut sheet, true, &mut notices).unwrap();
    assert_eq!(again.input, ReadyInput::Nothing);
    let mut many = pane(Some("a\nb"), SessionLaunchRoute::LegacyAppAttached);
    let step = app_attached_ready(&mut many, &mut sheet, true, &mut notices).unwrap();
    assert_eq!(step.lifecycle, HostedSessionState::RunningAppAttached);
    assert_eq!(step.input, ReadyInput::Review("a\nb".to_string()));
    assert_eq!(notices.status, Some(Text::Message(MessageId::NewSessionStatusReviewInput)));
}

#[test]
fn the_end_of_a_terminal_decides_the_state() {
    let mut sheet = None;
    let saved = SavedState { app_attached_sessions: Vec::new() };
    let mut end = |pane: &SessionPane, failed| {
        set_app_attached_terminal_state(pane, &saved, &mut sheet, failed, &String::new())
            .unwrap()
            .1
    };
    let local = pane(None, SessionLaunchRoute::LegacyAppAttached);
    assert_eq!(end(&local, true), HostedSessionState::Failed);
    assert_eq!(end(&local, false), HostedSessionState::Exited);
    assert_eq!(
        end(&pane(None, SessionLaunchRoute::DurableHost), true),
        HostedSessionState::Offline
    );
    let mut cancelled = pane(None, SessionLaunchRoute::DurableHost);
    assert_eq!(cancelled.begin_cancelling(), PaneCommand::Disconnect);
    assert_eq!(end(&cancelled, true), HostedSessionState::Cancelled);
}

#[test]
fn stopping_a_durable_session_stops_its_host() {
    let mut notices = quiet();
    let mut durable = pane(None, SessionLaunchRoute::DurableHost);
    assert_eq!(durable.stop_app_attached_session(&mut notices), PaneCommand::StopDurable);
    assert_eq!(durable.status, "Stopping");
    let mut local = pane(None, SessionLaunchRoute::LegacyAppAttached);
    assert_eq!(local.stop_app_attached_session(&mut notices), PaneCommand::Disconnect);
}

#[test]
fn previews_and_labels() {
    let mut inside = preset();
    inside.working_directory = WorkingDirectoryRule::ContainedSubdirectory("src".to_string());
    assert_eq!(
        working_directory_preview(Some(&project()), &inside),
        Text::Value("/work/fixture/src".to_string())
    );
    assert_eq!(
        working_directory_preview(None, &preset()),
        Text::Message(MessageId::NewSessionProjectMissing)
    );
    assert_eq!(
        session_phase_label(HostedSessionState::Stopping),
        MessageId::NewSessionStatusStopping
    );
    let (projects, presets) = libraries();
    let (sheet, _) = opened();
    let view = new_session_sheet(&sheet, &projects, &presets).unwrap();
    assert_eq!(view.presets.len(), 1);
    assert!(view.presets[0].selected);
    assert!(view.review.unwrap().risk.is_none());
    assert!(new_session_sheet(&None, &projects, &presets).is_none());
}
