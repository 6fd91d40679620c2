use std::cell::RefCell;

use termirust_console::domain::{
    ActivityAggregate, HostedSession, HostedSessionState, ProjectStatus, SessionLaunchRoute,
    SessionOrigin, StoreError, StoreHealth, TitleSource,
};
use termirust_console::group_repair::{
    follow_group_change, mend_group_references, repair_session_group_references, PlacementReply,
};
use termirust_console::ids::{
    accessible_group_id, accessible_session_id, GroupId, HostedSessionId, PresetId, ProjectId,
};
use termirust_console::messages::{Atom, MessageId, Text};
use termirust_console::projects::{
    Group, Project, ProjectLibraryState, ProjectSnapshot, ProjectStoreOpening, ProjectSummary,
};
use termirust_console::runtimes::RuntimeRegistry;
use termirust_console::saved_state::{
    GroupDestination, GroupMembership, SavedAppAttachedSession, SavedSessionPlacement, SavedState,
};
use termirust_console::session_controls::{
    product_move_delta, DestructiveActionKind, HierarchyLevel, ProductConsole, ProductInputs,
    ProductMoveDirection, ProductOperation, ProductSessionAccessibilityCommand,
    ProductSessionAction, ProductSessionScreen, ProductSessionSurfaceState,
};
use termirust_console::session_library::{
    SessionLibraryState, SessionSnapshot, StoreOpening,
};
use termirust_console::session_sidebar::{
    finish_session_undo, move_group, move_session_by, move_session_to, next_inspection_step,
    sessions_in_destination, GroupChange, GroupFollowUp,
    GroupInverseCommand,
    HostRecoveryState, InspectionStep, OrganizationUndoStep, SessionSidebarState,
    ORGANIZATION_UNDO_WINDOW,
};
use termirust_console::session_views::{
    session_row_view, session_sidebar_prompt, session_sidebar_view, SessionVerdicts,
};
use termirust_console::ui::Notices;

const PROJECT: ProjectId = ProjectId { value: 10 };

fn session_id(value: u128) -> HostedSessionId {
    HostedSessionId { value }
}

fn group_id(value: u128) -> GroupId {
    GroupId { value }
}

fn quiet() -> Notices {
    Notices { status: None, error: None }
}

fn session(
    id: HostedSessionId,
    project_id: ProjectId,
    group_id: Option<GroupId>,
    position: u64,
) -> SavedAppAttachedSession {
    SavedAppAttachedSession {
        id,
        route: SessionLaunchRoute::LegacyAppAttached,
        origin: SessionOrigin { project_id, preset_id: PresetId { value: 20 } },
        state: HostedSessionState::RunningAppAttached,
        project_label: "Projects".to_string(),
        preset_label: "New session".to_string(),
        title: "New session".to_string(),
        title_source: TitleSource::Default,
        activity: ActivityAggregate::default(),
        pinned: false,
        read_through_sequence: 0,
        unread_sequence: None,
        archived_at: None,
        revision: 0,
        durable_host: None,
        group_id,
        position,
        started_at: 1,
        updated_at: 1,
    }
}

fn saved(sessions: Vec<SavedAppAttachedSession>) -> SavedState {
    SavedState { app_attached_sessions: sessions }
}

#[test]
fn session_move_and_inverse_change_only_organization_fields() {
    let group = group_id(5);
    let id = session_id(1);
    let mut saved = saved(vec![session(id, PROJECT, None, 0)]);
    let origin = saved.app_attached_sessions[0].origin;
    let state = saved.app_attached_sessions[0].state;
    let inverse =
        saved.move_app_attached_session(id, GroupDestination::Group(group), None).unwrap();
    assert_eq!(saved.app_attached_sessions[0].group_id, Some(group));
    assert_eq!(saved.app_attached_sessions[0].origin, origin);
    assert_eq!(saved.app_attached_sessions[0].state, state);
    saved.restore_app_attached_session_placements(&inverse);
    assert_eq!(saved.app_attached_sessions[0].group_id, None);
    assert_eq!(saved.app_attached_sessions[0].origin, origin);
    assert_eq!(saved.app_attached_sessions[0].state, state);
}

#[test]
fn corrupt_group_reference_repairs_to_project_root_without_session_loss() {
    let invalid_group = group_id(99);
    let id = session_id(1);
    let mut saved = saved(vec![session(id, PROJECT, Some(invalid_group), 7)]);
    let repaired = saved.repair_app_attached_group_references(&Vec::new());
    assert_eq!(repaired, [id]);
    assert_eq!(saved.app_attached_sessions.len(), 1);
    assert_eq!(saved.app_attached_sessions[0].group_id, None);
    assert_eq!(saved.app_attached_sessions[0].position, 0);
}

#[test]
fn pointer_and_keyboard_actions_have_stable_semantic_selectors() {
    let selectors = [
        "group-disclosure",
        "group-up",
        "group-down",
        "group-rename",
        "group-remove",
        "session-move",
        "session-up",
        "session-down",
        "session-to-root",
    ];
    assert!(selectors.iter().all(|selector| !selector.trim().is_empty()));

    let console = console();
    let view = session_sidebar_view(&console, Some(PROJECT)).unwrap();
    let mut used = vec![view.groups[0].disclosure.as_ref().unwrap().id];
    used.extend(view.groups[0].order.iter().map(|button| button.id));
    let row = session_row_view(
        &console,
        &HostRecoveryState { operation: None, plan: None },
        &console.saved.app_attached_sessions[0],
        0,
        2,
        &SessionVerdicts {
            resume: Ok(()),
            transcript_available: false,
            transcript_reason: None,
            recovery_allowed: false,
            recovery_evidence: String::new(),
            recovery_can_confirm: false,
            recovery_can_cancel: false,
        },
    )
    .unwrap();
    used.push(row.inspect.id);
    used.extend(row.details.unwrap().placement.iter().map(|button| button.id));
    for selector in selectors {
        assert!(used.contains(&selector), "{selector} is not used");
    }
}

#[test]
fn moving_in_front_of_a_session_renumbers_the_list() {
    let mut saved = saved(vec![
        session(session_id(1), PROJECT, None, 0),
        session(session_id(2), PROJECT, None, 4),
        session(session_id(3), PROJECT, Some(group_id(5)), 0),
    ]);
    let before = saved
        .move_app_attached_session(
            session_id(3),
            GroupDestination::ProjectRoot,
            Some(session_id(2)),
        )
        .unwrap();
    assert_eq!(
        before[1],
        SavedSessionPlacement { id: session_id(2), group_id: None, position: 4 }
    );
    let mut places: Vec<(u128, u64)> = saved
        .app_attached_sessions
        .iter()
        .map(|record| (record.id.value, record.position))
        .collect();
    places.sort_by_key(|place| place.1);
    let order: Vec<u128> = places.iter().map(|place| place.0).collect();
    assert_eq!(order, vec![1, 3, 2]);
    assert!(saved
        .move_app_attached_session(
            session_id(1),
            GroupDestination::ProjectRoot,
            Some(session_id(9))
        )
        .is_none());
    assert!(saved
        .move_app_attached_session(session_id(8), GroupDestination::ProjectRoot, None)
        .is_none());
}

#[test]
fn repairing_twice_changes_nothing_more() {
    let mut saved = saved(vec![
        session(session_id(1), PROJECT, None, 0),
        session(session_id(2), PROJECT, Some(group_id(99)), 3),
        session(session_id(3), PROJECT, Some(group_id(5)), 2),
    ]);
    let valid = vec![GroupMembership { group_id: group_id(5), project_id: PROJECT }];
    assert_eq!(saved.repair_app_attached_group_references(&valid), [session_id(2)]);
    assert_eq!(saved.app_attached_sessions[2].group_id, Some(group_id(5)));
    assert!(saved.repair_app_attached_group_references(&valid).is_empty());
}

#[test]
fn a_group_of_another_project_is_mended() {
    let mut saved = saved(vec![session(session_id(1), PROJECT, Some(group_id(5)), 0)]);
    let valid =
        vec![GroupMembership { group_id: group_id(5), project_id: ProjectId { value: 11 } }];
    assert_eq!(saved.repair_app_attached_group_references(&valid), [session_id(1)]);
}

fn group(id: u128, position: u64) -> Group {
    Group {
        id: group_id(id),
        project_id: PROJECT,
        name: format!("Group {id}"),
        collapsed: false,
        position,
    }
}

fn hosted(id: HostedSessionId) -> HostedSession {
    HostedSession {
        id,
        project_id: PROJECT,
        group_id: None,
        position: 0,
        title: "New session".to_string(),
        title_source: TitleSource::Default,
        lifecycle: HostedSessionState::RunningAppAttached,
        can_stop: true,
        exited: false,
        removable: false,
        activity: ActivityAggregate::default(),
        pinned: false,
        unread: false,
        read_through_sequence: 0,
        unread_sequence: None,
        last_output_sequence: 0,
        archived_at: None,
        revision: 1,
    }
}

fn console() -> ProductConsole {
    let mut projects = ProjectLibraryState::open_default(ProjectStoreOpening::Opened);
    projects.reload(Ok(ProjectSnapshot {
        revision: 3,
        projects: vec![ProjectSummary {
            project: Project {
                id: PROJECT,
                display_name: "Project".to_string(),
                canonical_root: "/work".to_string(),
                position: 0,
                revision: 1,
            },
            status: ProjectStatus::Available,
        }],
        groups: vec![group(5, 0), group(6, 1)],
        worktree_intents: Vec::new(),
        health: StoreHealth::Healthy,
        read_only: false,
    }));
    let mut sessions = SessionLibraryState::open_default(StoreOpening::Opened);
    sessions
        .reload(Ok(SessionSnapshot {
            revision: 4,
            sessions: vec![hosted(session_id(1)), hosted(session_id(2))],
            health: StoreHealth::Healthy,
            read_only: false,
        }))
        .unwrap();
    ProductConsole {
        projects,
        sessions,
        saved: saved(vec![
            session(session_id(1), PROJECT, None, 0),
            session(session_id(2), PROJECT, None, 1),
        ]),
        sidebar: SessionSidebarState {
            editor: None,
            pending_removal: None,
            pending_undo: None,
            selected_session: Some(session_id(1)),
        },
        inputs: ProductInputs {
            project_label: String::new(),
            group_name: String::new(),
            session_title: String::new(),
            removal_confirmation: String::new(),
        },
        runtimes: RuntimeRegistry { claude_id: "agent".to_string() },
    }
}

#[test]
fn groups_and_sessions_move_by_one_place() {
    let console = console();
    let request = move_group(&console.projects, group_id(5), 1).unwrap();
    assert_eq!(request.expected_revision, 3);
    assert!(matches!(
        request.change,
        GroupChange::MoveBefore { group_id: GroupId { value: 5 }, before: None }
    ));
    assert!(move_group(&console.projects, group_id(5), -1).is_none());
    assert_eq!(
        move_session_by(&console.sessions, &console.saved, session_id(2), -1),
        Some((GroupDestination::ProjectRoot, Some(session_id(1))))
    );
    assert_eq!(move_session_by(&console.sessions, &console.saved, session_id(2), 1), None);
    assert_eq!(product_move_delta(ProductMoveDirection::Up), -1);
    let listed = sessions_in_destination(&console.sessions, &console.saved, PROJECT, None);
    assert_eq!(listed.len(), 2);
}

#[test]
fn a_move_is_undone_until_its_deadline() {
    let mut console = console();
    let mut notices = quiet();
    let step = move_session_to(
        &console.saved,
        session_id(1),
        GroupDestination::Group(group_id(5)),
        None,
        &mut notices,
    )
    .unwrap();
    assert_eq!(step.placements[0].group_id, Some(group_id(5)));
    let done = console.sidebar.finish_session_move(
        &mut console.sessions,
        &mut console.saved,
        session_id(1),
        step.inverse,
        Ok(()),
        Ok(SessionSnapshot {
            revision: 5,
            sessions: vec![hosted(session_id(1))],
            health: StoreHealth::Healthy,
            read_only: false,
        }),
        Err(termirust_console::domain::StoreError::Corrupt),
        1_000,
        &mut notices,
    );
    assert!(done);
    let last = 1_000 + ORGANIZATION_UNDO_WINDOW;
    assert!(matches!(
        console.sidebar.undo_organization(last - 1, &mut notices),
        OrganizationUndoStep::Session { .. }
    ));
    console.sidebar.record_group_inverse(
        GroupInverseCommand::RemoveCreated { group_id: group_id(7) },
        Vec::new(),
        1_000,
    );
    assert!(matches!(
        console.sidebar.undo_organization(last, &mut notices),
        OrganizationUndoStep::Expired
    ));
    assert_eq!(notices.status, Some(Text::Message(MessageId::ProjectUndoExpired)));
    assert!(matches!(
        console.sidebar.undo_organization(last, &mut notices),
        OrganizationUndoStep::Nothing
    ));
    assert!(move_session_to(
        &console.saved,
        session_id(8),
        GroupDestination::ProjectRoot,
        None,
        &mut notices
    )
    .is_none());
    assert_eq!(notices.error, Some(Text::Message(MessageId::GroupErrorGeneric)));
}

#[test]
fn references_are_checked_against_the_groups_that_exist() {
    let mut console = console();
    console.saved.app_attached_sessions[0].group_id = Some(group_id(77));
    let repair = mend_group_references(&mut console.saved, &console.projects);
    assert_eq!(repair.repaired, vec![session_id(1)]);
    assert_eq!(repair.projects, vec![PROJECT]);
    assert_eq!(console.saved.app_attached_sessions[0].group_id, None);
}

/// What was handed out, in order: the ids that were placed, then `None` for
/// saving.
type Handed = RefCell<Vec<Option<Vec<HostedSessionId>>>>;

fn taking(handed: &Handed) -> impl Fn(&SessionLibraryState, &Vec<SavedSessionPlacement>) -> PlacementReply + '_ {
    move |_: &SessionLibraryState, placements: &Vec<SavedSessionPlacement>| {
        handed
            .borrow_mut()
            .push(Some(placements.iter().map(|placement| placement.id).collect()));
        PlacementReply {
            outcome: Ok(()),
            loaded: Ok(SessionSnapshot {
                revision: 5,
                sessions: vec![hosted(session_id(1)), hosted(session_id(2))],
                health: StoreHealth::Healthy,
                read_only: false,
            }),
            reread: Err(StoreError::StoreNewer),
        }
    }
}

fn refusing(_: &SessionLibraryState, _: &Vec<SavedSessionPlacement>) -> PlacementReply {
    PlacementReply {
        outcome: Err(StoreError::StoreNewer),
        loaded: Err(StoreError::StoreNewer),
        reread: Err(StoreError::StoreNewer),
    }
}

fn saving(handed: &Handed) -> impl Fn(&SavedState) + '_ {
    move |_: &SavedState| handed.borrow_mut().push(None)
}

fn without_groups() -> ProjectSnapshot {
    ProjectSnapshot {
        revision: 4,
        projects: Vec::new(),
        groups: Vec::new(),
        worktree_intents: Vec::new(),
        health: StoreHealth::Healthy,
        read_only: false,
    }
}

#[test]
fn a_repair_is_placed_saved_and_reported() {
    let mut console = console();
    console.saved.app_attached_sessions[0].group_id = Some(group_id(77));
    let handed: Handed = RefCell::new(Vec::new());
    let mut notices = quiet();
    assert!(repair_session_group_references(
        &console.projects,
        &mut console.sessions,
        &mut console.saved,
        &taking(&handed),
        &saving(&handed),
        &mut notices,
    ));
    assert_eq!(
        *handed.borrow(),
        vec![Some(vec![session_id(1), session_id(2)]), None]
    );
    assert_eq!(
        notices.status,
        Some(Text::Filled(MessageId::GroupRepairStatus, Atom::Number(1)))
    );
    assert!(repair_session_group_references(
        &console.projects,
        &mut console.sessions,
        &mut console.saved,
        &taking(&handed),
        &saving(&handed),
        &mut notices,
    ));
    assert_eq!(handed.borrow().len(), 2);
}

#[test]
fn a_removal_is_reported_after_the_repair() {
    for refused in [false, true] {
        let mut console = console();
        console.saved.app_attached_sessions[1].group_id = Some(group_id(5));
        let handed: Handed = RefCell::new(Vec::new());
        let mut notices = quiet();
        let project = Project {
            id: PROJECT,
            display_name: "Project".to_string(),
            canonical_root: "/work".to_string(),
            position: 0,
            revision: 1,
        };
        let place = taking(&handed);
        console.projects.remove_project(
            &mut console.sessions,
            &mut console.saved,
            Ok(project),
            Ok(without_groups()),
            1_000,
            &|library: &SessionLibraryState, placements: &Vec<SavedSessionPlacement>| {
                if refused {
                    refusing(library, placements)
                } else {
                    place(library, placements)
                }
            },
            &saving(&handed),
            &mut notices,
        );
        assert_eq!(console.saved.app_attached_sessions[1].group_id, None);
        assert_eq!(
            notices.status,
            Some(Text::Filled(
                MessageId::ProjectRemovedStatus,
                Atom::Value("Project".to_string())
            ))
        );
        assert_eq!(notices.error, None);
        assert_eq!(handed.borrow().len(), if refused { 0 } else { 2 });
    }
}

#[test]
fn reading_the_projects_again_repairs_and_then_reports() {
    let mut console = console();
    console.saved.app_attached_sessions[0].group_id = Some(group_id(5));
    let handed: Handed = RefCell::new(Vec::new());
    let mut notices = quiet();
    assert!(console.projects.retry_project_library(
        &mut console.sessions,
        &mut console.saved,
        Ok(without_groups()),
        &taking(&handed),
        &saving(&handed),
        &mut notices,
    ));
    assert_eq!(notices.status, Some(Text::Message(MessageId::ProjectsReadyStatus)));
    assert_eq!(handed.borrow().len(), 2);

    console.saved.app_attached_sessions[0].group_id = Some(group_id(5));
    assert!(!console.projects.retry_project_library(
        &mut console.sessions,
        &mut console.saved,
        Err(StoreError::StoreNewer),
        &taking(&handed),
        &saving(&handed),
        &mut notices,
    ));
    assert_eq!(notices.error, Some(Text::Message(MessageId::ProjectStoreNewer)));
    assert_eq!(
        notices.status,
        Some(Text::Filled(MessageId::GroupRepairStatus, Atom::Number(1)))
    );
}

#[test]
fn what_follows_a_group_change_is_done_in_order() {
    let mut console = console();
    console.saved.app_attached_sessions[0].group_id = Some(group_id(5));
    let handed: Handed = RefCell::new(Vec::new());
    let mut notices = quiet();
    let mut follow = |follow_up: GroupFollowUp, notices: &mut Notices| {
        follow_group_change(
            follow_up,
            &mut console.projects,
            &mut console.sessions,
            &mut console.saved,
            Ok(without_groups()),
            &taking(&handed),
            &saving(&handed),
            notices,
        );
    };
    follow(GroupFollowUp::Nothing, &mut notices);
    assert_eq!(notices, quiet());
    assert!(handed.borrow().is_empty());
    follow(GroupFollowUp::Refresh, &mut notices);
    assert_eq!(
        notices.status,
        Some(Text::Filled(MessageId::GroupRepairStatus, Atom::Number(1)))
    );
    follow(GroupFollowUp::Complete, &mut notices);
    assert_eq!(notices.status, Some(Text::Message(MessageId::GroupOrganizationUpdated)));
    assert_eq!(handed.borrow().len(), 2);
}

#[test]
fn a_refused_repair_is_reported_and_not_saved() {
    let mut console = console();
    console.saved.app_attached_sessions[0].group_id = Some(group_id(77));
    let handed: Handed = RefCell::new(Vec::new());
    let mut notices = quiet();
    assert!(!repair_session_group_references(
        &console.projects,
        &mut console.sessions,
        &mut console.saved,
        &refusing,
        &saving(&handed),
        &mut notices,
    ));
    assert!(handed.borrow().is_empty());
    assert_eq!(
        notices.error,
        Some(Text::Message(MessageId::SessionLibraryOperationFailed))
    );
    assert_eq!(notices.status, None);
}

#[test]
fn an_empty_group_is_removed_at_once() {
    let mut console = console();
    assert!(console.sidebar.begin_group_removal(&console.saved, group_id(5)));
    console.saved.app_attached_sessions[0].group_id = Some(group_id(5));
    assert!(!console.sidebar.begin_group_removal(&console.saved, group_id(5)));
    let dialog = console.product_destructive_presentation().unwrap();
    assert_eq!(dialog.kind, DestructiveActionKind::RemoveGroup);
    assert_eq!(dialog.target, accessible_group_id(group_id(5)));
    assert!(!dialog.confirm_enabled);
    console.sidebar.cancel_group_removal();
    assert!(console.product_destructive_presentation().is_none());
}

#[test]
fn rows_nest_sessions_below_groups_below_projects() {
    let mut console = console();
    console.projects.selected_id = Some(PROJECT);
    let snapshot = console.product_session_semantic_snapshot(
        ProductSessionScreen::Projects,
        Ok(()),
        false,
    );
    assert_eq!(snapshot.state, ProductSessionSurfaceState::Ready);
    assert_eq!(snapshot.rows[0].level, HierarchyLevel::Project);
    let groups =
        snapshot.rows.iter().filter(|row| row.level == HierarchyLevel::Group).count();
    let sessions =
        snapshot.rows.iter().filter(|row| row.level == HierarchyLevel::Session).count();
    assert_eq!(sessions, 2);
    assert!(groups >= 2);
    assert!(snapshot.dialog.is_none());
}

#[test]
fn unknown_rows_do_nothing() {
    let mut console = console();
    let step = console.handle_product_session_accessibility_command(
        ProductSessionAccessibilityCommand::ActivateControl(
            ProductSessionAction::ToggleGroup(accessible_group_id(group_id(77))),
        ),
        None,
    );
    assert_eq!(step.operation, ProductOperation::Nothing);
    let step = console.handle_product_session_accessibility_command(
        ProductSessionAccessibilityCommand::ActivateControl(
            ProductSessionAction::ToggleSessionPin(accessible_session_id(session_id(1))),
        ),
        None,
    );
    assert_eq!(step.operation, ProductOperation::ToggleSessionPin(session_id(1)));
}

#[test]
fn a_cancelled_inspection_stops_before_its_next_step() {
    assert_eq!(
        next_inspection_step(InspectionStep::Start, false),
        InspectionStep::RecoverInterrupted
    );
    assert_eq!(
        next_inspection_step(InspectionStep::RecoverInterrupted, true),
        InspectionStep::Cancelled
    );
    assert_eq!(next_inspection_step(InspectionStep::Plan, false), InspectionStep::Done);
    assert_eq!(next_inspection_step(InspectionStep::Done, true), InspectionStep::Done);
}

#[test]
fn the_sidebar_asks_for_a_project_where_none_is_selected() {
    assert_eq!(session_sidebar_prompt(None), Some(MessageId::SessionSidebarSelectProject));
    assert_eq!(session_sidebar_prompt(Some(PROJECT)), None);
    assert!(session_sidebar_view(&console(), None).is_none());
    let view = session_sidebar_view(&console(), Some(PROJECT)).unwrap();
    assert_eq!(view.title, MessageId::SessionSidebarTitle);
    assert_eq!(view.subtitle, MessageId::SessionSidebarSubtitle);
}

fn placed_sessions(placements: &[SavedSessionPlacement]) -> SessionSnapshot {
    let sessions = placements
        .iter()
        .map(|place| {
            let mut session = hosted(place.id);
            session.group_id = place.group_id;
            session.position = place.position;
            session
        })
        .collect();
    SessionSnapshot { revision: 9, sessions, health: StoreHealth::Healthy, read_only: false }
}

#[test]
fn a_move_is_taken_back_through_the_store() {
    let mut console = console();
    let mut notices = quiet();
    let step = move_session_to(
        &console.saved,
        session_id(2),
        GroupDestination::Group(group_id(5)),
        None,
        &mut notices,
    )
    .unwrap();
    let after_move = placed_sessions(&step.placements);
    let unread = || Err(termirust_console::domain::StoreError::Corrupt);
    assert!(console.sidebar.finish_session_move(
        &mut console.sessions,
        &mut console.saved,
        session_id(2),
        step.inverse,
        Ok(()),
        Ok(after_move),
        unread(),
        1_000,
        &mut notices,
    ));
    assert_eq!(console.saved.app_attached_sessions[1].group_id, Some(group_id(5)));
    let placements = match console.sidebar.undo_organization(2_000, &mut notices) {
        OrganizationUndoStep::Session { placements } => placements,
        other => panic!("unexpected {other:?}"),
    };
    assert!(finish_session_undo(
        &mut console.sessions,
        &mut console.saved,
        Ok(()),
        Ok(placed_sessions(&placements)),
        unread(),
        &mut notices,
    ));
    let record = &console.saved.app_attached_sessions[1];
    assert_eq!((record.group_id, record.position), (None, 1));
    assert_eq!(record.state, HostedSessionState::RunningAppAttached);
    assert!(matches!(
        console.sidebar.undo_organization(2_000, &mut notices),
        OrganizationUndoStep::Nothing
    ));
}
